//! The parts of `signal.h` that the Seele platform layer uses.

use crate::platform::types::{c_int, c_ulonglong, pid_t, uid_t};
use vstd::prelude::*;

verus! {

pub type sigset_t = c_ulonglong;

pub const SIGKILL: c_int = 9;
pub const SIGSTOP: c_int = 19;

pub const SIG_BLOCK: c_int = 0;
pub const SIG_UNBLOCK: c_int = 1;
pub const SIG_SETMASK: c_int = 2;

/// The handler address that selects the default action.
pub const SIG_DFL: usize = 0;
/// The handler address that selects ignoring the signal.
pub const SIG_IGN: usize = 1;

pub const SA_SIGINFO: usize = 4;
pub const SA_RESTORER: usize = 0x0400_0000;

pub const SIGEV_SIGNAL: c_int = 0;
pub const SIGEV_NONE: c_int = 1;

/// `struct sigaction`, with the handler and restorer held as code addresses
/// (0 for a null function pointer).
#[derive(Clone, Copy, Debug, PartialEq, Eq, Structural)]
pub struct sigaction {
    pub sa_handler: usize,
    pub sa_flags: c_int,
    pub sa_restorer: usize,
    pub sa_mask: sigset_t,
}

/// `siginfo_t`, with the fault address held as an integer and the signal
/// value as its `int` member.
#[derive(Clone, Copy, Debug, PartialEq, Eq, Structural)]
pub struct siginfo_t {
    pub si_signo: c_int,
    pub si_errno: c_int,
    pub si_code: c_int,
    pub si_pid: pid_t,
    pub si_uid: uid_t,
    pub si_addr: usize,
    pub si_status: c_int,
    pub si_value: c_int,
}

/// The fields of `struct sigevent` that timer creation reads.
#[derive(Clone, Copy, Debug, PartialEq, Eq, Structural)]
pub struct sigevent {
    pub sigev_notify: c_int,
    pub sigev_signo: c_int,
}

} // verus!
