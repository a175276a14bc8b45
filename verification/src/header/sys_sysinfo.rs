//! `sys/sysinfo.h`: overall system statistics (a Linux interface).

use crate::platform::types::{c_char, c_int, c_long, c_uint, c_ulong, c_ushort};
use vstd::prelude::*;

verus! {

/// System statistics as `sysinfo()` reports them.
#[derive(Clone, Copy, Debug)]
pub struct sysinfo {
    pub uptime: c_long,
    pub loads: [c_ulong; 3],
    pub totalram: c_ulong,
    pub freeram: c_ulong,
    pub sharedram: c_ulong,
    pub bufferram: c_ulong,
    pub totalswap: c_ulong,
    pub freeswap: c_ulong,
    pub procs: c_ushort,
    pub totalhigh: c_ulong,
    pub freehigh: c_ulong,
    pub mem_unit: c_uint,
    pub _f: [c_char; 0],
}

/// The statistics that Seele reports: every figure zero, with memory
/// counted in bytes.
pub open spec fn reported_sysinfo(info: sysinfo) -> bool {
    &&& info.uptime == 0
    &&& info.loads@ == seq![0u64, 0u64, 0u64]
    &&& info.totalram == 0
    &&& info.freeram == 0
    &&& info.sharedram == 0
    &&& info.bufferram == 0
    &&& info.totalswap == 0
    &&& info.freeswap == 0
    &&& info.procs == 0
    &&& info.totalhigh == 0
    &&& info.freehigh == 0
    &&& info.mem_unit == 1
}

/// Fills `info` with the statistics Seele reports and returns 0.
pub fn sysinfo(info: &mut sysinfo) -> (r: c_int)
    ensures
        r == 0,
        reported_sysinfo(*final(info)),
{
    *info = sysinfo {
        uptime: 0,
        loads: [0; 3],
        totalram: 0,
        freeram: 0,
        sharedram: 0,
        bufferram: 0,
        totalswap: 0,
        freeswap: 0,
        procs: 0,
        totalhigh: 0,
        freehigh: 0,
        mem_unit: 1,
        _f: [],
    };
    assert(info.loads@ == seq![0u64, 0u64, 0u64]);
    0
}

} // verus!
