//! The parts of `sys/mman.h` that the Seele platform layer uses.

use crate::platform::types::c_int;
use vstd::prelude::*;

verus! {

pub const PROT_NONE: c_int = 0;
pub const PROT_READ: c_int = 1;
pub const PROT_WRITE: c_int = 2;
pub const PROT_EXEC: c_int = 4;

pub const MAP_SHARED: c_int = 0x0001;
pub const MAP_PRIVATE: c_int = 0x0002;
pub const MAP_TYPE: c_int = 0x000f;
pub const MAP_FIXED: c_int = 0x0010;
pub const MAP_ANON: c_int = 0x0020;
pub const MAP_STACK: c_int = 0x20000;
pub const MAP_FIXED_NOREPLACE: c_int = 0x100000;

} // verus!
