//! The connection handle: one per intercepted connection, 1:1 with its
//! socket in the manager's table.
//!
//! Each operation looks the socket up under the manager's lock, completes
//! immediately when it can, and otherwise registers the caller as the one
//! pending waiter of its direction and reports "pending". Operations that
//! change buffer space wake the driver loop, which would otherwise sleep
//! until its fallback timer. Destroying the handle always frees the socket.

use vstd::prelude::*;
use vstd::pervasive::unreached;

use crate::manager::{SocketEntry, TcpSocketManager};
use crate::socket::VirtTcpSocket;

verus! {

/// Outcome of one read attempt.
#[derive(Debug)]
pub enum PollRead {
    /// The socket has closed: end-of-stream, zero bytes.
    Eof,
    /// Buffered bytes, as many as were available and fit the caller's buffer.
    Data(Vec<u8>),
    /// Nothing receivable yet; the caller's waker is registered.
    Pending,
}

/// Outcome of one write attempt.
#[derive(Debug)]
pub enum PollWrite {
    /// The socket has closed: writing is a broken pipe.
    BrokenPipe,
    /// This many leading bytes were accepted into the send buffer.
    Accepted(usize),
    /// No buffer space yet; the caller's waker is registered.
    Pending,
}

/// Outcome of one shutdown attempt.
#[derive(Debug)]
pub enum PollShutdown {
    /// The socket has reached the fully closed state.
    Done,
    /// The close is under way; the caller's waker is registered.
    Pending,
}

/// The handle of one intercepted connection: the index of its socket in the
/// manager's table. The handle owns the socket's lifetime: it is registered
/// at creation and freed exactly once, by `drop`, on every exit path.
pub struct TcpConnection {
    pub socket_handle: usize,
}

/// Neither the table nor the wake flag changed.
pub open spec fn manager_unchanged(pre: TcpSocketManager, post: TcpSocketManager) -> bool {
    &&& post.slots@ == pre.slots@
    &&& post.notify_pending == pre.notify_pending
}

/// Only the socket under `h` may have changed: the table keeps its size,
/// every other slot is untouched, and the entry's addresses are kept.
pub open spec fn only_socket_changed(pre: TcpSocketManager, post: TcpSocketManager, h: int) -> bool {
    &&& pre.contains(h)
    &&& post.contains(h)
    &&& post.table_len() == pre.table_len()
    &&& forall|i: int| 0 <= i < pre.slots@.len() && i != h ==> post.slots@[i] == pre.slots@[i]
    &&& post.entry_at(h).local == pre.entry_at(h).local
    &&& post.entry_at(h).peer == pre.entry_at(h).peer
}

/// After an update that may touch only the socket under `h`, the table is
/// well-formed again as soon as that one socket is.
proof fn lemma_wf_after_socket_update(pre: TcpSocketManager, post: TcpSocketManager, h: int)
    requires
        pre.wf(),
        post.table_len() == pre.table_len(),
        forall|i: int| 0 <= i < pre.slots@.len() && i != h ==> post.slots@[i] == pre.slots@[i],
        post.contains(h) ==> post.entry_at(h).socket.wf(),
    ensures
        post.wf(),
{
    assert forall|k: int| post.contains(k) implies #[trigger] post.entry_at(k).socket.wf() by {
        if k != h {
            assert(post.slots@[k] == pre.slots@[k]);
            assert(pre.contains(k));
            assert(pre.entry_at(k) == post.entry_at(k));
            assert(pre.entry_at(k).socket.wf());
        }
    }
}

impl TcpConnection {
    /// Registers the entry's socket with the manager and wraps the returned
    /// handle. The handle is fresh: nothing else was registered under it.
    pub fn new(entry: SocketEntry, manager: &mut TcpSocketManager) -> (c: TcpConnection)
        requires
            old(manager).wf(),
            entry.socket.wf(),
            old(manager).table_len() < usize::MAX,
        ensures
            final(manager).wf(),
            TcpSocketManager::add_step(*old(manager), *final(manager), entry, c.socket_handle as int),
    {
        let socket_handle = manager.add_socket(entry);
        TcpConnection { socket_handle }
    }

    /// One read attempt, as the asynchronous stream contract asks: a closed
    /// socket reads as end-of-stream with nothing changed; receivable bytes
    /// are delivered in order and the driver is woken, because freed
    /// receive-buffer space can let the interface emit window updates; and
    /// an open socket without data registers `waker` for receive readiness
    /// and reports pending without waking the driver.
    pub fn poll_read(&self, manager: &mut TcpSocketManager, waker: u64, max: usize) -> (r: PollRead)
        requires
            old(manager).wf(),
            old(manager).contains(self.socket_handle as int),
        ensures
            final(manager).wf(),
            ({
                let h = self.socket_handle as int;
                let pre_s = old(manager).entry_at(h).socket;
                let post_s = final(manager).entry_at(h).socket;
                match r {
                    PollRead::Eof => !pre_s.is_open() && manager_unchanged(
                        *old(manager),
                        *final(manager),
                    ),
                    PollRead::Data(data) => {
                        &&& pre_s.can_recv()
                        &&& only_socket_changed(*old(manager), *final(manager), h)
                        &&& VirtTcpSocket::read_step(pre_s, post_s, data@, max as int)
                        &&& final(manager).notify_pending
                    },
                    PollRead::Pending => {
                        &&& pre_s.is_open()
                        &&& !pre_s.can_recv()
                        &&& only_socket_changed(*old(manager), *final(manager), h)
                        &&& VirtTcpSocket::recv_waker_step(pre_s, post_s, waker)
                        &&& final(manager).notify_pending == old(manager).notify_pending
                    },
                }
            }),
    {
        let h = self.socket_handle;
        let slot = &mut manager.slots[h];
        match slot {
            Some(entry) => {
                if !entry.socket.is_open() {
                    proof {
                        assert(manager.slots@ =~= old(manager).slots@);
                        lemma_wf_after_socket_update(*old(manager), *manager, h as int);
                    }
                    return PollRead::Eof;
                }
                if entry.socket.can_recv() {
                    let data = entry.socket.recv_slice(max);
                    manager.notify_pending = true;
                    proof {
                        assert(manager.contains(h as int));
                        lemma_wf_after_socket_update(*old(manager), *manager, h as int);
                    }
                    return PollRead::Data(data);
                }
                entry.socket.register_recv_waker(waker);
                proof {
                    assert(manager.contains(h as int));
                    assert(old(manager).entry_at(h as int).socket.wf());
                    lemma_wf_after_socket_update(*old(manager), *manager, h as int);
                }
                PollRead::Pending
            },
            None => unreached(),
        }
    }

    /// One write attempt: a closed socket fails with a broken pipe and
    /// nothing changed; free send-buffer space accepts the longest prefix of
    /// `data` that fits and wakes the driver so new bytes are flushed
    /// promptly; and an established socket with a full buffer registers
    /// `waker` for send readiness and reports pending without waking the
    /// driver.
    pub fn poll_write(&self, manager: &mut TcpSocketManager, waker: u64, data: &[u8]) -> (r:
        PollWrite)
        requires
            old(manager).wf(),
            old(manager).contains(self.socket_handle as int),
        ensures
            final(manager).wf(),
            ({
                let h = self.socket_handle as int;
                let pre_s = old(manager).entry_at(h).socket;
                let post_s = final(manager).entry_at(h).socket;
                match r {
                    PollWrite::BrokenPipe => !pre_s.is_open() && manager_unchanged(
                        *old(manager),
                        *final(manager),
                    ),
                    PollWrite::Accepted(n) => {
                        &&& pre_s.can_send()
                        &&& only_socket_changed(*old(manager), *final(manager), h)
                        &&& VirtTcpSocket::write_step(pre_s, post_s, data@, n as int)
                        &&& final(manager).notify_pending
                    },
                    PollWrite::Pending => {
                        &&& pre_s.is_open()
                        &&& !pre_s.can_send()
                        &&& only_socket_changed(*old(manager), *final(manager), h)
                        &&& VirtTcpSocket::send_waker_step(pre_s, post_s, waker)
                        &&& final(manager).notify_pending == old(manager).notify_pending
                    },
                }
            }),
    {
        let h = self.socket_handle;
        let slot = &mut manager.slots[h];
        match slot {
            Some(entry) => {
                if !entry.socket.is_open() {
                    proof {
                        assert(manager.slots@ =~= old(manager).slots@);
                        lemma_wf_after_socket_update(*old(manager), *manager, h as int);
                    }
                    return PollWrite::BrokenPipe;
                }
                if entry.socket.can_send() {
                    let n = entry.socket.send_slice(data);
                    manager.notify_pending = true;
                    proof {
                        assert(manager.contains(h as int));
                        lemma_wf_after_socket_update(*old(manager), *manager, h as int);
                    }
                    return PollWrite::Accepted(n);
                }
                entry.socket.register_send_waker(waker);
                proof {
                    assert(manager.contains(h as int));
                    assert(old(manager).entry_at(h as int).socket.wf());
                    lemma_wf_after_socket_update(*old(manager), *manager, h as int);
                }
                PollWrite::Pending
            },
            None => unreached(),
        }
    }

    /// A flush: nothing is buffered above the socket, so it always completes
    /// at once and changes nothing.
    pub fn poll_flush(&self, manager: &mut TcpSocketManager)
        requires
            old(manager).wf(),
        ensures
            final(manager).wf(),
            manager_unchanged(*old(manager), *final(manager)),
    {
    }

    /// One shutdown attempt: a still-open socket is half-closed (its
    /// transmit side stops). If the socket has not yet reached the fully
    /// closed state, `waker` is registered for send readiness and the
    /// operation is pending; once fully closed, the driver is woken and the
    /// shutdown completes.
    pub fn poll_shutdown(&self, manager: &mut TcpSocketManager, waker: u64) -> (r: PollShutdown)
        requires
            old(manager).wf(),
            old(manager).contains(self.socket_handle as int),
        ensures
            final(manager).wf(),
            ({
                let h = self.socket_handle as int;
                let pre_s = old(manager).entry_at(h).socket;
                let post_s = final(manager).entry_at(h).socket;
                let closed = VirtTcpSocket::spec_close(pre_s.state);
                match r {
                    PollShutdown::Done => {
                        &&& closed == crate::socket::SocketState::Closed
                        &&& only_socket_changed(*old(manager), *final(manager), h)
                        &&& VirtTcpSocket::close_step(pre_s, post_s)
                        &&& final(manager).notify_pending
                    },
                    PollShutdown::Pending => {
                        &&& closed != crate::socket::SocketState::Closed
                        &&& only_socket_changed(*old(manager), *final(manager), h)
                        &&& post_s.state == closed
                        &&& post_s.send_waker == Some(waker)
                        &&& post_s.recv_buf@ == pre_s.recv_buf@
                        &&& post_s.send_buf@ == pre_s.send_buf@
                        &&& post_s.recv_capacity == pre_s.recv_capacity
                        &&& post_s.send_capacity == pre_s.send_capacity
                        &&& post_s.recv_waker == pre_s.recv_waker
                        &&& post_s.recv_done@ == pre_s.recv_done@
                        &&& post_s.send_done@ == pre_s.send_done@
                        &&& final(manager).notify_pending == old(manager).notify_pending
                    },
                }
            }),
    {
        let h = self.socket_handle;
        let slot = &mut manager.slots[h];
        match slot {
            Some(entry) => {
                if entry.socket.is_open() {
                    entry.socket.close();
                }
                let still_closing = entry.socket.state != crate::socket::SocketState::Closed;
                if still_closing {
                    entry.socket.register_send_waker(waker);
                    proof {
                        assert(manager.contains(h as int));
                        assert(old(manager).entry_at(h as int).socket.wf());
                        lemma_wf_after_socket_update(*old(manager), *manager, h as int);
                    }
                    return PollShutdown::Pending;
                }
                manager.notify_pending = true;
                proof {
                    assert(manager.contains(h as int));
                    assert(old(manager).entry_at(h as int).socket.wf());
                    lemma_wf_after_socket_update(*old(manager), *manager, h as int);
                }
                PollShutdown::Done
            },
            None => unreached(),
        }
    }

    /// Destroys the handle: its socket is removed from the table, whatever
    /// state it was in, so no handle ever leaks — also on error paths and on
    /// task cancellation.
    pub fn drop(self, manager: &mut TcpSocketManager)
        requires
            old(manager).wf(),
            old(manager).contains(self.socket_handle as int),
        ensures
            final(manager).wf(),
            TcpSocketManager::remove_step(*old(manager), *final(manager), self.socket_handle as int),
            !final(manager).contains(self.socket_handle as int),
    {
        manager.remove_socket(self.socket_handle);
    }
}

} // verus!
