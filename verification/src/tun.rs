//! The facade that the surrounding proxy drives: frame exchange with the
//! capture device, handshake dispatch, and the driver loop's protocol.
//!
//! One facade exists per proxy instance. It owns the socket manager, the two
//! frame queues, and the liveness of the single driver-loop task. The driver
//! loop is the only place protocol state is advanced: each of its iterations
//! polls the interface, drains the queued inbound frames, and then sleeps
//! until either the stack's next deadline — or a bounded fallback interval,
//! so external wake signals are noticed — elapses, or a wake notification
//! arrives.

use vstd::prelude::*;

use crate::addr::SockAddr;
use crate::conn::TcpConnection;
use crate::manager::{SocketEntry, TcpSocketManager};
use crate::packet::is_handshake_syn;
use crate::socket::VirtTcpSocket;

verus! {

/// Default send-buffer bytes when the configuration names none.
pub const DEFAULT_SEND_BUFFER_SIZE: u32 = 16384;

/// Default receive-buffer bytes when the configuration names none.
pub const DEFAULT_RECV_BUFFER_SIZE: u32 = 87380;

/// How long the driver loop may sleep when the stack reports no deadline:
/// the bound on how stale protocol timers can go while nothing else wakes
/// the loop.
pub const DRIVER_FALLBACK_MILLIS: u64 = 50;

/// Why a handshake could not be turned into a connection.
#[derive(Clone, Copy, Debug, PartialEq, Eq, Structural)]
pub enum TunError {
    /// The destination cannot be listened on (port zero).
    InvalidListenAddress,
}

/// The TCP side of the TUN facade: the socket manager, the two frame
/// queues exchanged with the capture device, the configured buffer sizes,
/// and whether the driver-loop task is still alive.
pub struct TcpTun {
    pub manager: TcpSocketManager,
    pub driver_running: bool,
    pub send_buffer_size: Option<u32>,
    pub recv_buffer_size: Option<u32>,
    /// Frames from the capture device, queued for the virtual interface.
    pub inbound: Vec<Vec<u8>>,
    /// Frames the virtual interface produced for the capture device.
    pub outbound: Vec<Vec<u8>>,
    /// How many poll passes the driver loop has made.
    pub polls: Ghost<nat>,
}

/// The send-buffer size a new socket gets under this configuration.
pub open spec fn resolved_send_capacity(send_buffer_size: Option<u32>) -> u32 {
    send_buffer_size.unwrap_or(DEFAULT_SEND_BUFFER_SIZE)
}

/// The receive-buffer size a new socket gets under this configuration.
pub open spec fn resolved_recv_capacity(recv_buffer_size: Option<u32>) -> u32 {
    recv_buffer_size.unwrap_or(DEFAULT_RECV_BUFFER_SIZE)
}

/// How long the driver loop waits before its next poll: the stack's own
/// deadline when it reports one, the bounded fallback otherwise.
pub open spec fn spec_next_wait(poll_delay_millis: Option<u64>) -> u64 {
    poll_delay_millis.unwrap_or(DRIVER_FALLBACK_MILLIS)
}

/// How long the driver loop waits before its next poll.
pub fn next_wait_millis(poll_delay_millis: Option<u64>) -> (r: u64)
    ensures
        r == spec_next_wait(poll_delay_millis),
{
    match poll_delay_millis {
        Some(d) => d,
        None => DRIVER_FALLBACK_MILLIS,
    }
}

impl TcpTun {
    /// Everything but the manager's wake flag and the ghost poll count.
    pub open spec fn frames_and_config_unchanged(pre: Self, post: Self) -> bool {
        &&& post.driver_running == pre.driver_running
        &&& post.send_buffer_size == pre.send_buffer_size
        &&& post.recv_buffer_size == pre.recv_buffer_size
        &&& post.inbound@ == pre.inbound@
        &&& post.outbound@ == pre.outbound@
        &&& post.polls@ == pre.polls@
    }

    pub open spec fn wf(&self) -> bool {
        self.manager.wf()
    }

    /// Creates the facade: an empty socket table, empty frame queues, the
    /// configured buffer sizes kept for later registrations, and the driver
    /// loop counted as running.
    pub fn new(send_buffer_size: Option<u32>, recv_buffer_size: Option<u32>) -> (t: TcpTun)
        ensures
            t.wf(),
            t.driver_running,
            !t.manager.notify_pending,
            t.manager.table_len() == 0,
            t.send_buffer_size == send_buffer_size,
            t.recv_buffer_size == recv_buffer_size,
            t.inbound@.len() == 0,
            t.outbound@.len() == 0,
            t.polls@ == 0,
    {
        TcpTun {
            manager: TcpSocketManager::new(),
            driver_running: true,
            send_buffer_size,
            recv_buffer_size,
            inbound: Vec::new(),
            outbound: Vec::new(),
            polls: Ghost(0),
        }
    }

    /// Inspects one TCP segment addressed to `dst_addr` from `src_addr`.
    ///
    /// Only a handshake-initiating segment (SYN set, ACK clear) acts: if no
    /// open socket exists for the tuple yet and the destination can be
    /// listened on, exactly one listening socket with the configured buffer
    /// sizes is registered and its fresh connection handle returned, for the
    /// caller to hand to tunnel establishment. Any other segment — including
    /// a duplicate handshake for a tuple whose socket is still open, which
    /// the existing socket's protocol handling absorbs — changes nothing.
    pub fn handle_packet(&mut self, src_addr: SockAddr, dst_addr: SockAddr, tcp_segment: &[u8])
        -> (r: Result<Option<TcpConnection>, TunError>)
        requires
            old(self).wf(),
            tcp_segment@.len() >= 20,
            old(self).manager.table_len() < usize::MAX,
        ensures
            final(self).wf(),
            Self::frames_and_config_unchanged(*old(self), *final(self)),
            ({
                let hs = crate::packet::is_handshake(tcp_segment@);
                let dup = old(self).manager.has_live_socket_for(src_addr, dst_addr);
                match r {
                    Ok(None) => (!hs || dup) && crate::conn::manager_unchanged(
                        old(self).manager,
                        final(self).manager,
                    ),
                    Ok(Some(c)) => {
                        &&& hs
                        &&& !dup
                        &&& dst_addr.port() != 0
                        &&& TcpSocketManager::add_step(
                            old(self).manager,
                            final(self).manager,
                            final(self).manager.entry_at(c.socket_handle as int),
                            c.socket_handle as int,
                        )
                        &&& final(self).manager.entry_at(c.socket_handle as int).peer == src_addr
                        &&& final(self).manager.entry_at(c.socket_handle as int).local == dst_addr
                        &&& final(self).manager.entry_at(
                            c.socket_handle as int,
                        ).socket.is_fresh_listen_socket(
                            resolved_recv_capacity(old(self).recv_buffer_size) as usize,
                            resolved_send_capacity(old(self).send_buffer_size) as usize,
                        )
                    },
                    Err(e) => {
                        &&& e == TunError::InvalidListenAddress
                        &&& hs
                        &&& !dup
                        &&& dst_addr.port() == 0
                        &&& crate::conn::manager_unchanged(old(self).manager, final(self).manager)
                    },
                }
            }),
    {
        if !is_handshake_syn(tcp_segment) {
            return Ok(None);
        }
        if self.manager.has_open_socket_for(src_addr, dst_addr) {
            return Ok(None);
        }
        if dst_addr.port() == 0 {
            return Err(TunError::InvalidListenAddress);
        }
        let send_buffer_size = match self.send_buffer_size {
            Some(v) => v,
            None => DEFAULT_SEND_BUFFER_SIZE,
        };
        let recv_buffer_size = match self.recv_buffer_size {
            Some(v) => v,
            None => DEFAULT_RECV_BUFFER_SIZE,
        };
        let socket = VirtTcpSocket::new(recv_buffer_size as usize, send_buffer_size as usize);
        let entry = SocketEntry { socket, local: dst_addr, peer: src_addr };
        let connection = TcpConnection::new(entry, &mut self.manager);
        Ok(Some(connection))
    }

    /// Queues one raw frame from the capture device for the virtual
    /// interface and wakes the driver loop so it is processed promptly.
    pub fn drive_interface_state(&mut self, frame: &[u8])
        requires
            old(self).wf(),
        ensures
            final(self).wf(),
            final(self).inbound@.len() == old(self).inbound@.len() + 1,
            final(self).inbound@[old(self).inbound@.len() as int]@ == frame@,
            forall|i: int|
                0 <= i < old(self).inbound@.len() ==> final(self).inbound@[i] == old(
                    self,
                ).inbound@[i],
            final(self).manager.notify_pending,
            final(self).manager.slots@ == old(self).manager.slots@,
            final(self).driver_running == old(self).driver_running,
            final(self).send_buffer_size == old(self).send_buffer_size,
            final(self).recv_buffer_size == old(self).recv_buffer_size,
            final(self).outbound@ == old(self).outbound@,
            final(self).polls@ == old(self).polls@,
    {
        let mut copy: Vec<u8> = Vec::new();
        copy.extend_from_slice(frame);
        proof {
            assert(copy@ =~= frame@);
        }
        self.inbound.push(copy);
        self.manager.notify();
        proof {
            crate::manager::lemma_wf_same_slots(old(self).manager, self.manager);
        }
    }

    /// Hands out the next frame the virtual interface produced for the
    /// capture device, in production order, or reports that none is queued
    /// yet (the real caller then suspends until one is).
    pub fn recv_packet(&mut self) -> (r: Option<Vec<u8>>)
        requires
            old(self).wf(),
        ensures
            final(self).wf(),
            match r {
                Some(frame) => old(self).outbound@.len() > 0 && frame == old(self).outbound@[0]
                    && final(self).outbound@ == old(self).outbound@.skip(1),
                None => old(self).outbound@.len() == 0 && final(self).outbound@ == old(
                    self,
                ).outbound@,
            },
            final(self).manager.slots@ == old(self).manager.slots@,
            final(self).manager.notify_pending == old(self).manager.notify_pending,
            final(self).driver_running == old(self).driver_running,
            final(self).send_buffer_size == old(self).send_buffer_size,
            final(self).recv_buffer_size == old(self).recv_buffer_size,
            final(self).inbound@ == old(self).inbound@,
            final(self).polls@ == old(self).polls@,
    {
        if self.outbound.len() == 0 {
            return None;
        }
        let frame = self.outbound.remove(0);
        proof {
            assert(self.outbound@ =~= old(self).outbound@.skip(1));
        }
        Some(frame)
    }

    /// Records one frame the virtual interface produced during a poll pass,
    /// in production order.
    pub fn push_outbound_frame(&mut self, frame: Vec<u8>)
        requires
            old(self).wf(),
        ensures
            final(self).wf(),
            final(self).outbound@ == old(self).outbound@.push(frame),
            final(self).manager.slots@ == old(self).manager.slots@,
            final(self).manager.notify_pending == old(self).manager.notify_pending,
            final(self).driver_running == old(self).driver_running,
            final(self).send_buffer_size == old(self).send_buffer_size,
            final(self).recv_buffer_size == old(self).recv_buffer_size,
            final(self).inbound@ == old(self).inbound@,
            final(self).polls@ == old(self).polls@,
    {
        self.outbound.push(frame);
    }

    /// One driver-loop iteration, up to its sleep: consumes any pending wake
    /// signal, takes the queued inbound frames to feed the stack's poll
    /// pass, counts the pass, and computes how long the loop may sleep —
    /// the stack's reported deadline, or the bounded fallback when the stack
    /// reports none, so the loop keeps polling even when nothing arrives.
    pub fn driver_step(&mut self, poll_delay_millis: Option<u64>) -> (r: (Vec<Vec<u8>>, u64))
        requires
            old(self).wf(),
            old(self).driver_running,
        ensures
            final(self).wf(),
            r.0@ == old(self).inbound@,
            r.1 == spec_next_wait(poll_delay_millis),
            final(self).inbound@.len() == 0,
            !final(self).manager.notify_pending,
            final(self).polls@ == old(self).polls@ + 1,
            final(self).manager.slots@ == old(self).manager.slots@,
            final(self).driver_running,
            final(self).send_buffer_size == old(self).send_buffer_size,
            final(self).recv_buffer_size == old(self).recv_buffer_size,
            final(self).outbound@ == old(self).outbound@,
    {
        self.manager.notify_pending = false;
        let mut frames: Vec<Vec<u8>> = Vec::new();
        core::mem::swap(&mut frames, &mut self.inbound);
        proof {
            self.polls = Ghost(self.polls@ + 1);
        }
        let wait = next_wait_millis(poll_delay_millis);
        proof {
            crate::manager::lemma_wf_same_slots(old(self).manager, self.manager);
        }
        (frames, wait)
    }

    /// Destroys the facade: the driver-loop task is stopped at once.
    /// Subsequent wake notifications have no one left to wake.
    pub fn drop(&mut self)
        ensures
            !final(self).driver_running,
            final(self).manager.slots@ == old(self).manager.slots@,
            final(self).manager.notify_pending == old(self).manager.notify_pending,
            final(self).send_buffer_size == old(self).send_buffer_size,
            final(self).recv_buffer_size == old(self).recv_buffer_size,
            final(self).inbound@ == old(self).inbound@,
            final(self).outbound@ == old(self).outbound@,
            final(self).polls@ == old(self).polls@,
    {
        self.driver_running = false;
    }
}

/// Whether the driver loop can take another iteration: only while its task
/// is alive.
pub open spec fn driver_can_step(t: TcpTun) -> bool {
    t.driver_running
}

/// The whole effect a wake notification has on the facade: it raises the
/// manager's wake flag and touches nothing else.
pub open spec fn notify_transition(pre: TcpTun, post: TcpTun) -> bool {
    &&& post.manager.notify_pending
    &&& post.manager.slots@ == pre.manager.slots@
    &&& post.driver_running == pre.driver_running
    &&& post.send_buffer_size == pre.send_buffer_size
    &&& post.recv_buffer_size == pre.recv_buffer_size
    &&& post.inbound@ == pre.inbound@
    &&& post.outbound@ == pre.outbound@
    &&& post.polls@ == pre.polls@
}

/// Law: driver-loop staleness is bounded. The sleep a driver iteration
/// chooses is never unbounded: it is the stack's own deadline when one is
/// pending, and exactly the fallback interval otherwise — so when no frame
/// arrives and no connection acts, the loop still wakes and polls once per
/// fallback interval.
pub proof fn lemma_idle_wait_is_bounded_fallback(poll_delay_millis: Option<u64>)
    ensures
        poll_delay_millis is None ==> spec_next_wait(poll_delay_millis)
            == DRIVER_FALLBACK_MILLIS,
        poll_delay_millis is Some ==> spec_next_wait(poll_delay_millis)
            == poll_delay_millis.unwrap(),
{
}

/// Law: the socket a handshake registers makes its connection tuple live at
/// once — the fresh socket listens, so it is open — and a duplicate
/// handshake for the same tuple then creates nothing, because dispatch
/// refuses tuples that already have a live socket.
pub proof fn lemma_duplicate_handshake_is_absorbed(
    pre: TcpSocketManager,
    post: TcpSocketManager,
    entry: SocketEntry,
    h: int,
)
    requires
        TcpSocketManager::add_step(pre, post, entry, h),
        entry.socket.state == crate::socket::SocketState::Listen,
    ensures
        post.has_live_socket_for(entry.peer, entry.local),
{
    assert(post.contains(h) && post.entry_at(h).peer == entry.peer && post.entry_at(h).local
        == entry.local && post.entry_at(h).socket.is_open());
}

/// Law: dropping the facade stops the driver loop for good. Once the loop
/// is stopped, a wake notification is inert: it can do no more than raise
/// the wake flag — no socket, queue or configuration changes — and no
/// driver step remains to consume it, so the loop never polls again.
pub proof fn lemma_notify_after_drop_is_inert(pre: TcpTun, post: TcpTun)
    requires
        !driver_can_step(pre),
        notify_transition(pre, post),
    ensures
        !driver_can_step(post),
        post.manager.slots@ == pre.manager.slots@,
        post.inbound@ == pre.inbound@,
        post.outbound@ == pre.outbound@,
        post.polls@ == pre.polls@,
{
}

} // verus!
