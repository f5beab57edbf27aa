//! Model of one virtual TCP socket as the bridging layer observes it.
//!
//! The virtual stack owns protocol processing; the bridge reads and writes
//! the socket only through the operations here: openness and readiness
//! queries, buffer transfer in both directions, half-close, and waker
//! registration. Ghost fields record the bytes that have already left each
//! buffer, so that the whole byte stream of a direction — consumed prefix
//! plus buffered remainder — can be spoken of in contracts.

use vstd::prelude::*;

verus! {

/// Protocol state of a virtual socket, reduced to what the bridge reads:
/// listening for the intercepted handshake, established, half-closed after
/// this side issued a close, or fully closed.
#[derive(Clone, Copy, Debug, PartialEq, Eq, Structural)]
pub enum SocketState {
    Listen,
    Established,
    HalfClosed,
    Closed,
}

/// One virtual TCP socket: protocol state, the two byte buffers with their
/// configured capacities, one registered waiter per direction, and the ghost
/// history of bytes that already left each buffer.
pub struct VirtTcpSocket {
    pub state: SocketState,
    pub recv_buf: Vec<u8>,
    pub recv_capacity: usize,
    pub send_buf: Vec<u8>,
    pub send_capacity: usize,
    pub recv_waker: Option<u64>,
    pub send_waker: Option<u64>,
    /// Bytes already delivered to readers, in delivery order.
    pub recv_done: Ghost<Seq<u8>>,
    /// Bytes already drained by the stack for transmission, in order.
    pub send_done: Ghost<Seq<u8>>,
}

impl VirtTcpSocket {
    /// Buffers never exceed their configured capacities.
    pub open spec fn wf(&self) -> bool {
        &&& self.recv_buf@.len() <= self.recv_capacity
        &&& self.send_buf@.len() <= self.send_capacity
    }

    pub open spec fn spec_is_open(&self) -> bool {
        self.state != SocketState::Closed
    }

    /// Whether the socket is still open (anything but fully closed).
    #[verifier::when_used_as_spec(spec_is_open)]
    pub fn is_open(&self) -> (r: bool)
        ensures
            r == self.spec_is_open(),
    {
        self.state != SocketState::Closed
    }

    pub open spec fn spec_can_recv(&self) -> bool {
        (self.state == SocketState::Established || self.state == SocketState::HalfClosed)
            && self.recv_buf@.len() > 0
    }

    /// Whether a read can complete now: the connection carries data (it is
    /// past the handshake and not fully closed) and the receive buffer is
    /// not empty.
    #[verifier::when_used_as_spec(spec_can_recv)]
    pub fn can_recv(&self) -> (r: bool)
        ensures
            r == self.spec_can_recv(),
    {
        (self.state == SocketState::Established || self.state == SocketState::HalfClosed)
            && self.recv_buf.len() > 0
    }

    pub open spec fn spec_can_send(&self) -> bool {
        self.state == SocketState::Established && self.send_buf@.len() < self.send_capacity
    }

    /// Whether a write can accept bytes now: the connection is established,
    /// this side has not closed its transmit half, and the send buffer has
    /// free space.
    #[verifier::when_used_as_spec(spec_can_send)]
    pub fn can_send(&self) -> (r: bool)
        ensures
            r == self.spec_can_send(),
    {
        self.state == SocketState::Established && self.send_buf.len() < self.send_capacity
    }

    /// Every byte the stack ever put into the receive buffer, in arrival
    /// order: the delivered prefix followed by the still-buffered remainder.
    pub open spec fn recv_stream(&self) -> Seq<u8> {
        self.recv_done@ + self.recv_buf@
    }

    /// Every byte a writer ever placed into the send buffer, in acceptance
    /// order: the drained prefix followed by the still-buffered remainder.
    pub open spec fn send_stream(&self) -> Seq<u8> {
        self.send_done@ + self.send_buf@
    }

    /// Everything but the receive side: state, send side and wakers.
    pub open spec fn non_recv_unchanged(pre: Self, post: Self) -> bool {
        &&& post.state == pre.state
        &&& post.recv_capacity == pre.recv_capacity
        &&& post.send_buf@ == pre.send_buf@
        &&& post.send_capacity == pre.send_capacity
        &&& post.recv_waker == pre.recv_waker
        &&& post.send_waker == pre.send_waker
        &&& post.send_done@ == pre.send_done@
    }

    /// Everything but the send side: state, receive side and wakers.
    pub open spec fn non_send_unchanged(pre: Self, post: Self) -> bool {
        &&& post.state == pre.state
        &&& post.recv_buf@ == pre.recv_buf@
        &&& post.recv_capacity == pre.recv_capacity
        &&& post.send_capacity == pre.send_capacity
        &&& post.recv_waker == pre.recv_waker
        &&& post.send_waker == pre.send_waker
        &&& post.recv_done@ == pre.recv_done@
    }

    /// A fresh listening socket with the given buffer capacities, as the
    /// dispatcher registers it for an observed handshake.
    pub open spec fn is_fresh_listen_socket(&self, recv_capacity: usize, send_capacity: usize) -> bool {
        &&& self.state == SocketState::Listen
        &&& self.recv_buf@.len() == 0
        &&& self.recv_capacity == recv_capacity
        &&& self.send_buf@.len() == 0
        &&& self.send_capacity == send_capacity
        &&& self.recv_waker is None
        &&& self.send_waker is None
        &&& self.recv_done@ == Seq::<u8>::empty()
        &&& self.send_done@ == Seq::<u8>::empty()
    }

    /// Creates a listening socket with empty buffers of the given capacities.
    pub fn new(recv_capacity: usize, send_capacity: usize) -> (s: VirtTcpSocket)
        ensures
            s.is_fresh_listen_socket(recv_capacity, send_capacity),
            s.wf(),
    {
        VirtTcpSocket {
            state: SocketState::Listen,
            recv_buf: Vec::new(),
            recv_capacity,
            send_buf: Vec::new(),
            send_capacity,
            recv_waker: None,
            send_waker: None,
            recv_done: Ghost(Seq::empty()),
            send_done: Ghost(Seq::empty()),
        }
    }

    /// Models the stack completing the intercepted handshake: the listening
    /// socket becomes established.
    pub fn complete_handshake(&mut self)
        requires
            old(self).state == SocketState::Listen,
        ensures
            final(self).state == SocketState::Established,
            final(self).recv_buf@ == old(self).recv_buf@,
            final(self).send_buf@ == old(self).send_buf@,
            final(self).recv_capacity == old(self).recv_capacity,
            final(self).send_capacity == old(self).send_capacity,
            final(self).recv_waker == old(self).recv_waker,
            final(self).send_waker == old(self).send_waker,
            final(self).recv_done@ == old(self).recv_done@,
            final(self).send_done@ == old(self).send_done@,
    {
        self.state = SocketState::Established;
    }

    /// Models the stack finishing the close handshake: the socket reaches
    /// the fully closed state.
    pub fn complete_close(&mut self)
        ensures
            final(self).state == SocketState::Closed,
            final(self).recv_buf@ == old(self).recv_buf@,
            final(self).send_buf@ == old(self).send_buf@,
            final(self).recv_capacity == old(self).recv_capacity,
            final(self).send_capacity == old(self).send_capacity,
            final(self).recv_waker == old(self).recv_waker,
            final(self).send_waker == old(self).send_waker,
            final(self).recv_done@ == old(self).recv_done@,
            final(self).send_done@ == old(self).send_done@,
    {
        self.state = SocketState::Closed;
    }

    /// The state after this side requests a close of its transmit half: a
    /// listening socket closes outright, an established one becomes
    /// half-closed, the rest are unchanged.
    pub open spec fn spec_close(state: SocketState) -> SocketState {
        match state {
            SocketState::Listen => SocketState::Closed,
            SocketState::Established => SocketState::HalfClosed,
            SocketState::HalfClosed => SocketState::HalfClosed,
            SocketState::Closed => SocketState::Closed,
        }
    }

    /// Issues a half-close: transmission stops, reception may continue
    /// until the stack completes the close handshake.
    pub fn close(&mut self)
        ensures
            Self::close_step(*old(self), *final(self)),
    {
        self.state = match self.state {
            SocketState::Listen => SocketState::Closed,
            SocketState::Established => SocketState::HalfClosed,
            SocketState::HalfClosed => SocketState::HalfClosed,
            SocketState::Closed => SocketState::Closed,
        };
    }

    /// One reader registration: the pending reader slot now holds `w`, and
    /// nothing else changes.
    pub open spec fn recv_waker_step(pre: Self, post: Self, w: u64) -> bool {
        &&& post.recv_waker == Some(w)
        &&& post.state == pre.state
        &&& post.recv_buf@ == pre.recv_buf@
        &&& post.send_buf@ == pre.send_buf@
        &&& post.recv_capacity == pre.recv_capacity
        &&& post.send_capacity == pre.send_capacity
        &&& post.send_waker == pre.send_waker
        &&& post.recv_done@ == pre.recv_done@
        &&& post.send_done@ == pre.send_done@
    }

    /// Registers the one pending reader, replacing any earlier one.
    pub fn register_recv_waker(&mut self, waker: u64)
        ensures
            Self::recv_waker_step(*old(self), *final(self), waker),
    {
        self.recv_waker = Some(waker);
    }

    /// One writer registration: the pending writer slot now holds `w`, and
    /// nothing else changes.
    pub open spec fn send_waker_step(pre: Self, post: Self, w: u64) -> bool {
        &&& post.send_waker == Some(w)
        &&& post.state == pre.state
        &&& post.recv_buf@ == pre.recv_buf@
        &&& post.send_buf@ == pre.send_buf@
        &&& post.recv_capacity == pre.recv_capacity
        &&& post.send_capacity == pre.send_capacity
        &&& post.recv_waker == pre.recv_waker
        &&& post.recv_done@ == pre.recv_done@
        &&& post.send_done@ == pre.send_done@
    }

    /// Registers the one pending writer, replacing any earlier one.
    pub fn register_send_waker(&mut self, waker: u64)
        ensures
            Self::send_waker_step(*old(self), *final(self), waker),
    {
        self.send_waker = Some(waker);
    }

    /// One half-close: the state moves as `spec_close` says, and nothing
    /// else changes.
    pub open spec fn close_step(pre: Self, post: Self) -> bool {
        &&& post.state == Self::spec_close(pre.state)
        &&& post.recv_buf@ == pre.recv_buf@
        &&& post.send_buf@ == pre.send_buf@
        &&& post.recv_capacity == pre.recv_capacity
        &&& post.send_capacity == pre.send_capacity
        &&& post.recv_waker == pre.recv_waker
        &&& post.send_waker == pre.send_waker
        &&& post.recv_done@ == pre.recv_done@
        &&& post.send_done@ == pre.send_done@
    }

    /// One completed read: `delivered` is the longest prefix of the buffered
    /// bytes that fits the caller's buffer of size `max`; it moves from the
    /// receive buffer to the delivered history, and nothing else changes.
    pub open spec fn read_step(pre: Self, post: Self, delivered: Seq<u8>, max: int) -> bool {
        &&& delivered.len() == if max <= pre.recv_buf@.len() { max as int } else { pre.recv_buf@.len() as int }
        &&& delivered == pre.recv_buf@.take(delivered.len() as int)
        &&& post.recv_buf@ == pre.recv_buf@.skip(delivered.len() as int)
        &&& post.recv_done@ == pre.recv_done@ + delivered
        &&& Self::non_recv_unchanged(pre, post)
    }

    /// Delivers buffered bytes to a reader: takes up to `max` bytes from the
    /// front of the receive buffer, in order.
    pub fn recv_slice(&mut self, max: usize) -> (data: Vec<u8>)
        requires
            old(self).wf(),
        ensures
            final(self).wf(),
            Self::read_step(*old(self), *final(self), data@, max as int),
    {
        let data = split_front(&mut self.recv_buf, max);
        proof {
            self.recv_done = Ghost(self.recv_done@ + data@);
        }
        data
    }

    /// One accepted write: the longest prefix of `data` that fits the free
    /// send-buffer space, `accepted` bytes long, is appended to the send
    /// buffer, and nothing else changes.
    pub open spec fn write_step(pre: Self, post: Self, data: Seq<u8>, accepted: int) -> bool {
        &&& accepted == if data.len() <= pre.send_capacity - pre.send_buf@.len() {
            data.len() as int
        } else {
            pre.send_capacity - pre.send_buf@.len()
        }
        &&& post.send_buf@ == pre.send_buf@ + data.take(accepted)
        &&& post.send_done@ == pre.send_done@
        &&& Self::non_send_unchanged(pre, post)
    }

    /// Accepts bytes from a writer: appends as many of `data`'s bytes as fit
    /// the free send-buffer space, in order.
    pub fn send_slice(&mut self, data: &[u8]) -> (n: usize)
        requires
            old(self).wf(),
        ensures
            final(self).wf(),
            Self::write_step(*old(self), *final(self), data@, n as int),
    {
        let free = self.send_capacity - self.send_buf.len();
        let n = if data.len() <= free { data.len() } else { free };
        let mut i: usize = 0;
        while i < n
            invariant
                i <= n,
                n <= data@.len(),
                old(self).wf(),
                self.send_buf@ == old(self).send_buf@ + data@.take(i as int),
                self.send_buf@.len() == old(self).send_buf@.len() + i,
                n as int == if data@.len() <= old(self).send_capacity - old(self).send_buf@.len() {
                    data@.len() as int
                } else {
                    old(self).send_capacity - old(self).send_buf@.len()
                },
                self.state == old(self).state,
                self.recv_buf@ == old(self).recv_buf@,
                self.recv_capacity == old(self).recv_capacity,
                self.send_capacity == old(self).send_capacity,
                self.recv_waker == old(self).recv_waker,
                self.send_waker == old(self).send_waker,
                self.recv_done@ == old(self).recv_done@,
                self.send_done@ == old(self).send_done@,
            decreases n - i,
        {
            let b = data[i];
            self.send_buf.push(b);
            proof {
                assert(self.send_buf@ =~= old(self).send_buf@ + data@.take(i + 1));
            }
            i += 1;
        }
        n
    }

    /// One drain by the stack: `drained` is the longest prefix of the send
    /// buffer of length at most `max`; it moves from the send buffer to the
    /// drained history, and nothing else changes.
    pub open spec fn drain_step(pre: Self, post: Self, drained: Seq<u8>, max: int) -> bool {
        &&& drained.len() == if max <= pre.send_buf@.len() { max as int } else { pre.send_buf@.len() as int }
        &&& drained == pre.send_buf@.take(drained.len() as int)
        &&& post.send_buf@ == pre.send_buf@.skip(drained.len() as int)
        &&& post.send_done@ == pre.send_done@ + drained
        &&& Self::non_send_unchanged(pre, post)
    }

    /// Models the stack draining accepted bytes for transmission: takes up
    /// to `max` bytes from the front of the send buffer, in order.
    pub fn take_send_bytes(&mut self, max: usize) -> (data: Vec<u8>)
        requires
            old(self).wf(),
        ensures
            final(self).wf(),
            Self::drain_step(*old(self), *final(self), data@, max as int),
    {
        let data = split_front(&mut self.send_buf, max);
        proof {
            self.send_done = Ghost(self.send_done@ + data@);
        }
        data
    }

    /// One delivery by the stack: the longest prefix of `data` that fits the
    /// free receive-buffer space is appended to the receive buffer, and
    /// nothing else changes.
    pub open spec fn deliver_step(pre: Self, post: Self, data: Seq<u8>, accepted: int) -> bool {
        &&& accepted == if data.len() <= pre.recv_capacity - pre.recv_buf@.len() {
            data.len() as int
        } else {
            pre.recv_capacity - pre.recv_buf@.len()
        }
        &&& post.recv_buf@ == pre.recv_buf@ + data.take(accepted)
        &&& post.recv_done@ == pre.recv_done@
        &&& Self::non_recv_unchanged(pre, post)
    }

    /// Models the stack delivering received payload: appends as many of
    /// `data`'s bytes as fit the free receive-buffer space, in order.
    pub fn deliver_bytes(&mut self, data: &[u8]) -> (n: usize)
        requires
            old(self).wf(),
        ensures
            final(self).wf(),
            Self::deliver_step(*old(self), *final(self), data@, n as int),
    {
        let free = self.recv_capacity - self.recv_buf.len();
        let n = if data.len() <= free { data.len() } else { free };
        let mut i: usize = 0;
        while i < n
            invariant
                i <= n,
                n <= data@.len(),
                old(self).wf(),
                self.recv_buf@ == old(self).recv_buf@ + data@.take(i as int),
                self.recv_buf@.len() == old(self).recv_buf@.len() + i,
                n as int == if data@.len() <= old(self).recv_capacity - old(self).recv_buf@.len() {
                    data@.len() as int
                } else {
                    old(self).recv_capacity - old(self).recv_buf@.len()
                },
                self.state == old(self).state,
                self.send_buf@ == old(self).send_buf@,
                self.recv_capacity == old(self).recv_capacity,
                self.send_capacity == old(self).send_capacity,
                self.recv_waker == old(self).recv_waker,
                self.send_waker == old(self).send_waker,
                self.recv_done@ == old(self).recv_done@,
                self.send_done@ == old(self).send_done@,
            decreases n - i,
        {
            let b = data[i];
            self.recv_buf.push(b);
            proof {
                assert(self.recv_buf@ =~= old(self).recv_buf@ + data@.take(i + 1));
            }
            i += 1;
        }
        n
    }
}

/// Takes up to `max` bytes from the front of `buf`, keeping their order.
fn split_front(buf: &mut Vec<u8>, max: usize) -> (front: Vec<u8>)
    ensures
        front@.len() == if max <= old(buf)@.len() { max as int } else { old(buf)@.len() as int },
        front@ == old(buf)@.take(front@.len() as int),
        final(buf)@ == old(buf)@.skip(front@.len() as int),
{
    let n = if max <= buf.len() { max } else { buf.len() };
    let mut front: Vec<u8> = Vec::new();
    let mut i: usize = 0;
    while i < n
        invariant
            i <= n,
            n <= buf@.len(),
            buf@ == old(buf)@,
            front@ == buf@.take(i as int),
            front@.len() == i,
        decreases n - i,
    {
        let b = buf[i];
        front.push(b);
        proof {
            assert(front@ =~= buf@.take(i + 1));
        }
        i += 1;
    }
    let mut rest: Vec<u8> = Vec::new();
    let mut j: usize = n;
    while j < buf.len()
        invariant
            n <= j <= buf@.len(),
            buf@ == old(buf)@,
            rest@ == buf@.subrange(n as int, j as int),
        decreases buf@.len() - j,
    {
        let b = buf[j];
        rest.push(b);
        proof {
            assert(rest@ =~= buf@.subrange(n as int, j + 1));
        }
        j += 1;
    }
    proof {
        assert(rest@ =~= buf@.skip(n as int));
    }
    *buf = rest;
    front
}

/// Law: a completed read delivers exactly the next unread bytes of the
/// receive stream, in order and exactly once — the stream itself is
/// unchanged, the delivered bytes extend the delivered history, and they are
/// precisely the stream segment starting where the previous read stopped.
pub proof fn lemma_read_delivers_stream_in_order(
    pre: VirtTcpSocket,
    post: VirtTcpSocket,
    delivered: Seq<u8>,
    max: int,
)
    requires
        VirtTcpSocket::read_step(pre, post, delivered, max),
    ensures
        post.recv_stream() == pre.recv_stream(),
        post.recv_done@ == pre.recv_done@ + delivered,
        delivered == pre.recv_stream().subrange(
            pre.recv_done@.len() as int,
            pre.recv_done@.len() + delivered.len() as int,
        ),
{
    assert(post.recv_stream() =~= pre.recv_stream());
    assert(delivered =~= pre.recv_stream().subrange(
        pre.recv_done@.len() as int,
        pre.recv_done@.len() + delivered.len() as int,
    ));
}

/// Law: successive reads deliver adjacent, non-overlapping segments of the
/// receive stream — together they are one contiguous stretch, each byte
/// exactly once, and the stream itself never changes. This is what keeps
/// interleaved readers under the one lock from corrupting data.
pub proof fn lemma_successive_reads_are_adjacent(
    s0: VirtTcpSocket,
    s1: VirtTcpSocket,
    s2: VirtTcpSocket,
    d1: Seq<u8>,
    d2: Seq<u8>,
    max1: int,
    max2: int,
)
    requires
        VirtTcpSocket::read_step(s0, s1, d1, max1),
        VirtTcpSocket::read_step(s1, s2, d2, max2),
    ensures
        s2.recv_stream() == s0.recv_stream(),
        d1 + d2 == s0.recv_stream().subrange(
            s0.recv_done@.len() as int,
            s0.recv_done@.len() + d1.len() + d2.len() as int,
        ),
{
    lemma_read_delivers_stream_in_order(s0, s1, d1, max1);
    lemma_read_delivers_stream_in_order(s1, s2, d2, max2);
    assert(d1 + d2 =~= s0.recv_stream().subrange(
        s0.recv_done@.len() as int,
        s0.recv_done@.len() + d1.len() + d2.len() as int,
    ));
}

/// Law: an accepted write extends the send stream by exactly the accepted
/// prefix of the caller's bytes — no byte is dropped, duplicated or
/// reordered, and the already-drained history is untouched.
pub proof fn lemma_write_extends_stream(
    pre: VirtTcpSocket,
    post: VirtTcpSocket,
    data: Seq<u8>,
    accepted: int,
)
    requires
        VirtTcpSocket::write_step(pre, post, data, accepted),
    ensures
        post.send_stream() == pre.send_stream() + data.take(accepted),
        post.send_done@ == pre.send_done@,
{
    assert(post.send_stream() =~= pre.send_stream() + data.take(accepted));
}

/// Law: a drain by the stack hands out exactly the next accepted bytes of
/// the send stream, in order and exactly once, leaving the stream unchanged.
pub proof fn lemma_drain_preserves_stream(
    pre: VirtTcpSocket,
    post: VirtTcpSocket,
    drained: Seq<u8>,
    max: int,
)
    requires
        VirtTcpSocket::drain_step(pre, post, drained, max),
    ensures
        post.send_stream() == pre.send_stream(),
        drained == pre.send_stream().subrange(
            pre.send_done@.len() as int,
            pre.send_done@.len() + drained.len() as int,
        ),
{
    assert(post.send_stream() =~= pre.send_stream());
    assert(drained =~= pre.send_stream().subrange(
        pre.send_done@.len() as int,
        pre.send_done@.len() + drained.len() as int,
    ));
}

} // verus!
