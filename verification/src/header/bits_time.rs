//! `struct timespec`.

use crate::platform::types::{c_long, time_t};
use vstd::prelude::*;

verus! {

/// A time value in seconds and nanoseconds.
#[derive(Clone, Copy, Debug, Default, PartialEq, Eq, Structural)]
pub struct timespec {
    pub tv_sec: time_t,
    pub tv_nsec: c_long,
}

} // verus!
