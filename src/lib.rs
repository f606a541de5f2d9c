//! A single-route HTTP/1.1 benchmark server: every request gets the same
//! "Hello World!" reply. The library holds the decisions the server makes:
//! which command lines it accepts, what the reply is, and how a handler's
//! deadline settles an exchange.
use vstd::prelude::*;

pub mod cli;
pub mod deadline;
pub mod reply;

verus! {

/// The listener's address: 127.0.0.1, as a big-endian `u32`.
pub const LISTEN_IPV4: u32 = 0x7f00_0001;

/// The listener's TCP port.
pub const LISTEN_PORT: u16 = 8080;

} // verus!
