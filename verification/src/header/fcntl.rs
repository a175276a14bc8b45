//! The parts of `fcntl.h` that the Seele platform layer uses.

use crate::platform::types::c_int;
use vstd::prelude::*;

verus! {

pub const AT_FDCWD: c_int = -100;
pub const O_CREAT: c_int = 0o100;
pub const O_EXCL: c_int = 0o200;
pub const O_CLOEXEC: c_int = 0o2000000;

} // verus!
