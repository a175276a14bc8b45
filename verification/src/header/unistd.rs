//! The parts of `unistd.h` that the Seele platform layer uses.

use crate::platform::types::c_int;
use vstd::prelude::*;

verus! {

pub const F_OK: c_int = 0;
pub const X_OK: c_int = 1;
pub const W_OK: c_int = 2;
pub const R_OK: c_int = 4;

pub const SEEK_SET: c_int = 0;
pub const SEEK_CUR: c_int = 1;

} // verus!
