//! `sys/statvfs.h`: file system statistics.

use crate::platform::types::c_ulong;
use vstd::prelude::*;

verus! {

pub type fsblkcnt_t = c_ulong;
pub type fsfilcnt_t = c_ulong;

/// File system statistics as `statvfs` and `fstatvfs` report them.
#[derive(Clone, Copy, Debug, Default, PartialEq, Eq, Structural)]
pub struct statvfs {
    pub f_bsize: c_ulong,
    pub f_frsize: c_ulong,
    pub f_blocks: fsblkcnt_t,
    pub f_bfree: fsblkcnt_t,
    pub f_bavail: fsblkcnt_t,
    pub f_files: fsfilcnt_t,
    pub f_ffree: fsfilcnt_t,
    pub f_favail: fsfilcnt_t,
    pub f_fsid: c_ulong,
    pub f_flag: c_ulong,
    pub f_namemax: c_ulong,
}

} // verus!
