//! `sys/wait.h`: waiting for child processes.

use crate::error::Errno;
use crate::header::errno::EINVAL;
use crate::header::signal::siginfo_t;
use crate::platform::types::{c_int, id_t, pid_t};
use vstd::prelude::*;

verus! {

pub const WNOHANG: c_int = 1;
pub const WUNTRACED: c_int = 2;

pub const WSTOPPED: c_int = 2;
pub const WEXITED: c_int = 4;
pub const WCONTINUED: c_int = 8;
pub const WNOWAIT: c_int = 0x0100_0000;

pub const __WNOTHREAD: c_int = 0x2000_0000;
pub const __WALL: c_int = 0x4000_0000;
pub const __WCLONE: c_int = -0x8000_0000;

/// The `pid` argument of `waitpid` that waits for any child.
pub const WAIT_ANY: pid_t = -1;

pub type idtype_t = c_int;

pub const P_ALL: idtype_t = 0;
pub const P_PID: idtype_t = 1;
pub const P_PGID: idtype_t = 2;

/// The `waitpid` target that `waitid(idtype, id, ..)` waits for: any
/// child, the process `id`, or any process of the group `id` (a negative
/// `pid`); an unknown `idtype` fails with `EINVAL`.
pub open spec fn wait_target(idtype: idtype_t, id: id_t) -> Result<pid_t, Errno> {
    if idtype == P_ALL {
        Ok(WAIT_ANY)
    } else if idtype == P_PID {
        Ok(id as pid_t)
    } else if idtype == P_PGID {
        Ok(-(id as pid_t) as pid_t)
    } else {
        Err(Errno(EINVAL))
    }
}

/// The `waitpid` target of `waitid(idtype, id, ..)`. A process group id
/// whose negation does not fit a `pid_t` is left out.
pub fn waitid_target(idtype: idtype_t, id: id_t) -> (r: Result<pid_t, Errno>)
    requires
        idtype == P_PGID ==> id != 0x8000_0000,
    ensures
        r == wait_target(idtype, id),
{
    if idtype == P_ALL {
        Ok(WAIT_ANY)
    } else if idtype == P_PID {
        Ok(id as pid_t)
    } else if idtype == P_PGID {
        let pid = id as pid_t;
        assert(pid != i32::MIN) by (bit_vector)
            requires
                pid == id as i32,
                id != 0x8000_0000u32,
        ;
        Ok(-pid)
    } else {
        Err(Errno(EINVAL))
    }
}

/// The `siginfo_t` that `waitid` stores after `waitpid` reported child
/// `waited` with status `status`.
pub fn waitid_info(waited: pid_t, status: c_int) -> (info: siginfo_t)
    ensures
        info == (siginfo_t {
            si_signo: 0,
            si_errno: 0,
            si_code: 0,
            si_pid: waited,
            si_uid: 0,
            si_addr: 0,
            si_status: status,
            si_value: 0,
        }),
{
    siginfo_t {
        si_signo: 0,
        si_errno: 0,
        si_code: 0,
        si_pid: waited,
        si_uid: 0,
        si_addr: 0,
        si_status: status,
        si_value: 0,
    }
}

} // verus!
