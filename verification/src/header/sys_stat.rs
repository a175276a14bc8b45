//! The parts of `sys/stat.h` that the Seele platform layer uses.

use crate::platform::types::mode_t;
use vstd::prelude::*;

verus! {

pub const S_IFIFO: mode_t = 0o010000;

} // verus!
