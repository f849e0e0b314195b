//! The server's own settings.
use vstd::prelude::*;

use crate::trusted::{parse_u16, u16_from_str};

verus! {

/// The port the server listens on when `PORT` does not name one.
pub const DEFAULT_PORT: u16 = 8080;

/// The port to listen on, from the value of the `PORT` variable (empty when
/// it is not set): that number when it reads as a `u16`, else 8080.
pub fn get_server_port(port_str: &str) -> (port: u16)
    ensures
        port == match u16_from_str(port_str@) {
            Some(n) => n,
            None => DEFAULT_PORT,
        },
{
    match parse_u16(port_str) {
        Some(n) => n,
        None => DEFAULT_PORT,
    }
}

} // verus!
