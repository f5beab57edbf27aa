//! The socket table of the virtual interface owner.
//!
//! Exactly one manager exists per facade; every socket of every intercepted
//! connection lives in its table and is reached only through its handle. The
//! manager also carries the wake flag with which mutating operations prod
//! the driver loop out of its timed sleep.

use vstd::prelude::*;

use crate::addr::SockAddr;
use crate::socket::VirtTcpSocket;

verus! {

/// A manager whose table kept exactly the same slots is well-formed whenever
/// the earlier one was.
pub proof fn lemma_wf_same_slots(pre: TcpSocketManager, post: TcpSocketManager)
    requires
        pre.wf(),
        post.slots@ == pre.slots@,
    ensures
        post.wf(),
{
    assert forall|k: int| post.contains(k) implies #[trigger] post.entry_at(k).socket.wf() by {
        assert(pre.contains(k));
        assert(pre.entry_at(k) == post.entry_at(k));
        assert(pre.entry_at(k).socket.wf());
    }
}

/// One table entry: the socket together with the addresses of the
/// intercepted connection — `local` is the destination the client dialled,
/// `peer` is the client's own address.
pub struct SocketEntry {
    pub socket: VirtTcpSocket,
    pub local: SockAddr,
    pub peer: SockAddr,
}

/// The socket table plus the driver's wake flag. A handle is an index into
/// the table; a freed slot may be reused by a later registration, so the
/// table stays as small as the number of live sockets allows.
pub struct TcpSocketManager {
    pub slots: Vec<Option<SocketEntry>>,
    pub notify_pending: bool,
}

impl TcpSocketManager {
    /// Number of slots the table has ever needed at once.
    pub open spec fn table_len(&self) -> nat {
        self.slots@.len()
    }

    /// Whether `h` is the handle of a registered socket.
    pub open spec fn contains(&self, h: int) -> bool {
        0 <= h < self.slots@.len() && self.slots@[h] is Some
    }

    /// The entry registered under handle `h`.
    pub open spec fn entry_at(&self, h: int) -> SocketEntry {
        self.slots@[h]->Some_0
    }

    /// Every registered socket respects its buffer capacities.
    pub open spec fn wf(&self) -> bool {
        forall|i: int| self.contains(i) ==> #[trigger] self.entry_at(i).socket.wf()
    }

    /// Whether the table holds an open socket for the given connection
    /// tuple. A duplicate handshake segment for such a tuple is absorbed by
    /// the existing socket's protocol handling and must not create a second
    /// handle.
    pub open spec fn has_live_socket_for(&self, peer: SockAddr, local: SockAddr) -> bool {
        exists|i: int|
            self.contains(i) && #[trigger] self.entry_at(i).peer == peer
                && self.entry_at(i).local == local && self.entry_at(i).socket.is_open()
    }

    /// An empty table with no wake pending.
    pub fn new() -> (m: TcpSocketManager)
        ensures
            m.table_len() == 0,
            !m.notify_pending,
            m.wf(),
    {
        TcpSocketManager { slots: Vec::new(), notify_pending: false }
    }

    /// Wakes the driver loop: raises the wake flag and changes nothing else.
    pub fn notify(&mut self)
        ensures
            final(self).notify_pending,
            final(self).slots@ == old(self).slots@,
    {
        self.notify_pending = true;
    }

    /// One registration: the entry appears under a handle that was free
    /// before, every other slot is untouched, and the table grows by one
    /// slot only when no freed slot could be reused.
    pub open spec fn add_step(pre: Self, post: Self, entry: SocketEntry, h: int) -> bool {
        &&& 0 <= h < post.table_len()
        &&& !pre.contains(h)
        &&& post.contains(h)
        &&& post.entry_at(h) == entry
        &&& forall|i: int| 0 <= i < pre.slots@.len() && i != h ==> post.slots@[i] == pre.slots@[i]
        &&& post.table_len() == if h < pre.table_len() { pre.table_len() } else { pre.table_len() + 1 }
        &&& post.notify_pending == pre.notify_pending
    }

    /// Registers a socket and returns its fresh handle, reusing a freed slot
    /// when one exists.
    pub fn add_socket(&mut self, entry: SocketEntry) -> (h: usize)
        requires
            old(self).wf(),
            entry.socket.wf(),
            old(self).table_len() < usize::MAX,
        ensures
            final(self).wf(),
            Self::add_step(*old(self), *final(self), entry, h as int),
    {
        let mut i: usize = 0;
        while i < self.slots.len()
            invariant
                *self == *old(self),
                old(self).wf(),
                entry.socket.wf(),
                i <= self.slots@.len(),
                forall|j: int| 0 <= j < i ==> self.slots@[j] is Some,
            decreases self.slots@.len() - i,
        {
            if self.slots[i].is_none() {
                self.slots[i] = Some(entry);
                proof {
                    assert(self.contains(i as int));
                    assert(forall|k: int|
                        0 <= k < old(self).slots@.len() && k != i ==> self.slots@[k] == old(
                            self,
                        ).slots@[k]);
                    assert forall|k: int| self.contains(k) implies #[trigger] self.entry_at(
                        k,
                    ).socket.wf() by {
                        if k == i {
                            assert(self.entry_at(k) == entry);
                        } else {
                            assert(self.slots@[k] == old(self).slots@[k]);
                            assert(old(self).contains(k));
                            assert(old(self).entry_at(k) == self.entry_at(k));
                            assert(old(self).entry_at(k).socket.wf());
                        }
                    }
                }
                return i;
            }
            i += 1;
        }
        let h = self.slots.len();
        self.slots.push(Some(entry));
        proof {
            assert(self.contains(h as int));
            assert forall|k: int| self.contains(k) implies #[trigger] self.entry_at(
                k,
            ).socket.wf() by {
                if k == h {
                    assert(self.entry_at(k) == entry);
                } else {
                    assert(self.slots@[k] == old(self).slots@[k]);
                    assert(old(self).contains(k));
                    assert(old(self).entry_at(k) == self.entry_at(k));
                    assert(old(self).entry_at(k).socket.wf());
                }
            }
        }
        h
    }

    /// One removal: the slot under `h` is freed, every other slot and the
    /// table's size are untouched.
    pub open spec fn remove_step(pre: Self, post: Self, h: int) -> bool {
        &&& pre.contains(h)
        &&& !post.contains(h)
        &&& post.table_len() == pre.table_len()
        &&& forall|i: int| 0 <= i < pre.slots@.len() && i != h ==> post.slots@[i] == pre.slots@[i]
        &&& post.notify_pending == pre.notify_pending
    }

    /// Frees the socket registered under `h`. Ownership of the handle lies
    /// with the connection handle, which calls this exactly once, on every
    /// exit path.
    pub fn remove_socket(&mut self, h: usize)
        requires
            old(self).wf(),
            old(self).contains(h as int),
        ensures
            final(self).wf(),
            Self::remove_step(*old(self), *final(self), h as int),
    {
        self.slots[h] = None;
        proof {
            assert(!self.contains(h as int));
            assert forall|k: int| self.contains(k) implies #[trigger] self.entry_at(
                k,
            ).socket.wf() by {
                assert(self.slots@[k] == old(self).slots@[k]);
                assert(old(self).contains(k));
                assert(old(self).entry_at(k) == self.entry_at(k));
                assert(old(self).entry_at(k).socket.wf());
            }
        }
    }

    /// Whether the table holds an open socket for the tuple (`peer`,
    /// `local`).
    pub fn has_open_socket_for(&self, peer: SockAddr, local: SockAddr) -> (r: bool)
        ensures
            r == self.has_live_socket_for(peer, local),
    {
        let mut i: usize = 0;
        while i < self.slots.len()
            invariant
                i <= self.slots@.len(),
                forall|j: int|
                    0 <= j < i ==> !(self.contains(j) && #[trigger] self.entry_at(j).peer == peer
                        && self.entry_at(j).local == local && self.entry_at(j).socket.is_open()),
            decreases self.slots@.len() - i,
        {
            match &self.slots[i] {
                Some(entry) => {
                    if entry.peer == peer && entry.local == local && entry.socket.is_open() {
                        proof {
                            assert(self.contains(i as int));
                            assert(self.entry_at(i as int).peer == peer
                                && self.entry_at(i as int).local == local
                                && self.entry_at(i as int).socket.is_open());
                        }
                        return true;
                    }
                }
                None => {}
            }
            i += 1;
        }
        false
    }

    /// Number of slots currently in the table (live or freed).
    pub fn slot_count(&self) -> (r: usize)
        ensures
            r == self.table_len(),
    {
        self.slots.len()
    }

    /// Whether `h` currently names a registered socket.
    pub fn contains_handle(&self, h: usize) -> (r: bool)
        ensures
            r == self.contains(h as int),
    {
        h < self.slots.len() && self.slots[h].is_some()
    }
}

} // verus!
