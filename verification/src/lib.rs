//! A verified model of the TCP bridging core of a TUN-based transparent
//! proxy: the layer that turns raw IP frames captured from a virtual
//! network device into per-connection asynchronous byte streams backed by
//! an in-process virtual TCP stack.
//!
//! The library holds the bridging logic itself: the socket table and its
//! ownership discipline, the read/write/shutdown semantics of a connection
//! handle, the dispatcher's handshake detection, the driver loop's wake and
//! fallback-timer protocol, and destination-address normalization. The
//! surrounding asynchronous runtime (task spawning, channels, timers, the
//! virtual device) drives this model from outside.

pub mod addr;
pub mod conn;
pub mod packet;
pub mod manager;
pub mod socket;
pub mod tun;

use vstd::prelude::*;

verus! {

} // verus!
