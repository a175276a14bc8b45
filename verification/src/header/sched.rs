//! `sched.h`: scheduling parameters and CPU affinity.

use crate::error::Errno;
use crate::header::errno::{EINVAL, ENOSYS};
use crate::platform::types::{c_int, pid_t};
use vstd::prelude::*;

verus! {

/// Scheduling parameters of a process.
#[derive(Clone, Copy, Debug, PartialEq, Eq, Structural)]
pub struct sched_param {
    pub sched_priority: c_int,
}

pub const SCHED_FIFO: c_int = 0;
pub const SCHED_RR: c_int = 1;
pub const SCHED_OTHER: c_int = 2;

/// The affinity mask that Seele reports: one CPU, the first.
pub open spec fn single_cpu_mask(len: nat) -> Seq<u8> {
    Seq::new(len, |i: int| if i == 0 { 1u8 } else { 0u8 })
}

/// `sched_getaffinity` for process `pid` (0 for the caller), where
/// `own_pid` is the caller's id and `mask` the caller's buffer (`None` for a
/// null pointer). Only the caller's own affinity can be read (`ENOSYS`
/// otherwise); a missing or empty buffer fails with `EINVAL`. On success
/// the buffer says that exactly the first CPU is available.
pub fn sched_getaffinity(pid: pid_t, own_pid: pid_t, mask: Option<&mut [u8]>) -> (r: Result<
    (),
    Errno,
>)
    ensures
        pid != 0 && pid != own_pid ==> r == Err::<(), Errno>(Errno(ENOSYS)),
        (pid == 0 || pid == own_pid) ==> match mask {
            None => r == Err::<(), Errno>(Errno(EINVAL)),
            Some(m) => if m@.len() == 0 {
                r == Err::<(), Errno>(Errno(EINVAL)) && final(m)@ == m@
            } else {
                r is Ok && final(m)@ == single_cpu_mask(m@.len())
            },
        },
        (pid != 0 && pid != own_pid) ==> match mask {
            None => true,
            Some(m) => final(m)@ == m@,
        },
{
    if pid != 0 && pid != own_pid {
        return Err(Errno(ENOSYS));
    }
    let bytes = match mask {
        None => return Err(Errno(EINVAL)),
        Some(bytes) => bytes,
    };
    if bytes.len() == 0 {
        return Err(Errno(EINVAL));
    }
    let len = bytes.len();
    let mut i: usize = 0;
    while i < len
        invariant
            len == bytes@.len(),
            i <= len,
            forall|j: int| 0 <= j < i ==> bytes@[j] == 0u8,
        decreases len - i,
    {
        bytes[i] = 0;
        i += 1;
    }
    bytes[0] = 1;
    assert(bytes@ == single_cpu_mask(len as nat));
    Ok(())
}

} // verus!
