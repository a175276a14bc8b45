//! The parts of `sys/epoll.h` that the Seele platform layer uses.

use crate::platform::types::c_int;
use vstd::prelude::*;

verus! {

pub const EPOLL_CTL_ADD: c_int = 1;
pub const EPOLL_CTL_DEL: c_int = 2;
pub const EPOLL_CTL_MOD: c_int = 3;

pub const EPOLLIN: u32 = 0x001;
pub const EPOLLPRI: u32 = 0x002;
pub const EPOLLOUT: u32 = 0x004;
pub const EPOLLERR: u32 = 0x008;
pub const EPOLLHUP: u32 = 0x010;
pub const EPOLLRDNORM: u32 = 0x040;
pub const EPOLLRDBAND: u32 = 0x080;
pub const EPOLLWRNORM: u32 = 0x100;
pub const EPOLLWRBAND: u32 = 0x200;
pub const EPOLLRDHUP: u32 = 0x2000;
pub const EPOLLONESHOT: u32 = 0x4000_0000;
pub const EPOLLET: u32 = 0x8000_0000;

/// An epoll event: the ready bits and the caller's data word (the `u64`
/// member of `epoll_data`).
#[derive(Clone, Copy, Debug, PartialEq, Eq, Structural)]
pub struct epoll_event {
    pub events: u32,
    pub data: u64,
}

} // verus!
