//! The `errno` values that the Seele port reports.

use crate::platform::types::c_int;
use vstd::prelude::*;

verus! {

pub const ENOENT: c_int = 2;
pub const EIO: c_int = 5;
pub const EBADF: c_int = 9;
pub const EAGAIN: c_int = 11;
pub const ENOMEM: c_int = 12;
pub const EEXIST: c_int = 17;
pub const EINVAL: c_int = 22;
pub const ENOSYS: c_int = 38;
pub const EAFNOSUPPORT: c_int = 97;

} // verus!
