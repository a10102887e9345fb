//! Process-wide configuration: the fixed listening address.
//!
//! The server listens on one compile-time address.  The address is held as
//! plain values (four IPv4 octets and a port) so that its contract can state
//! exactly which address the server binds.

use vstd::prelude::*;

verus! {

/// The immutable server configuration, constructed once at startup.
pub struct Config {
    /// The four octets of the IPv4 listening address.
    pub ip: (u8, u8, u8, u8),
    /// The TCP port the server listens on.
    pub port: u16,
}

impl Config {
    /// The one configuration this server runs with: loopback, port 3000.
    pub fn new() -> (c: Config)
        ensures
            c.ip == (127u8, 0u8, 0u8, 1u8),
            c.port == 3000u16,
    {
        Config { ip: (127, 0, 0, 1), port: 3000 }
    }
}

} // verus!
