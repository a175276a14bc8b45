//! The parts of `sys/socket.h` and `sys/un.h` that the Seele platform layer uses.

use crate::platform::types::{c_char, c_int};
use vstd::prelude::*;

verus! {

pub const AF_UNIX: c_int = 1;
pub const SOCK_STREAM: c_int = 1;
pub const SOCK_NONBLOCK: c_int = 0o4000;
pub const SOCK_CLOEXEC: c_int = 0o2000000;

pub type sa_family_t = u16;
pub type socklen_t = u32;

/// A Unix-domain socket address.
#[derive(Clone, Copy)]
pub struct sockaddr_un {
    pub sun_family: sa_family_t,
    pub sun_path: [c_char; 108],
}

impl sockaddr_un {
    /// The byte offset of `sun_path` inside the address.
    pub fn path_offset(&self) -> (r: usize)
        ensures
            r == 2,
    {
        2
    }
}

} // verus!
