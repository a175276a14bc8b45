//! The parts of `time.h` and `sys/time.h` that the Seele platform layer uses.

use crate::header::bits_time::timespec;
use crate::platform::types::{c_int, clockid_t, suseconds_t, time_t};
use vstd::prelude::*;

verus! {

pub const CLOCK_REALTIME: clockid_t = 0;
pub const CLOCK_MONOTONIC: clockid_t = 1;

pub const TIMER_ABSTIME: c_int = 1;

/// Nanoseconds in one second.
pub const NANOSECONDS: u64 = 1_000_000_000;

/// An interval timer value: the next expiry and the reload interval.
#[derive(Clone, Copy, Debug, Default, PartialEq, Eq, Structural)]
pub struct itimerspec {
    pub it_interval: timespec,
    pub it_value: timespec,
}

/// A time value in seconds and microseconds.
#[derive(Clone, Copy, Debug, Default, PartialEq, Eq, Structural)]
pub struct timeval {
    pub tv_sec: time_t,
    pub tv_usec: suseconds_t,
}

/// The (always zero) time zone that `gettimeofday` reports.
#[derive(Clone, Copy, Debug, Default, PartialEq, Eq, Structural)]
pub struct timezone {
    pub tz_minuteswest: c_int,
    pub tz_dsttime: c_int,
}

} // verus!
