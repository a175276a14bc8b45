//! `pty.h`: pseudo-terminal pairs, and the decisions `forkpty` makes
//! around the kernel calls.

use crate::error::Errno;
use crate::header::errno::ENOSYS;
use crate::platform::types::{c_int, pid_t};
use vstd::prelude::*;

verus! {

/// What `openpty` checks before it asks the kernel for a pair: Seele
/// cannot name the pair, nor set its terminal attributes or window size,
/// so any of those requests fails with `ENOSYS`.
pub fn openpty_check(wants_name: bool, has_termios: bool, has_winsize: bool) -> (r: Result<(), Errno>)
    ensures
        r == if wants_name || has_termios || has_winsize {
            Err(Errno(ENOSYS))
        } else {
            Ok(())
        },
{
    if wants_name || has_termios || has_winsize {
        Err(Errno(ENOSYS))
    } else {
        Ok(())
    }
}

/// How `forkpty` ends in the parent.
#[derive(Clone, Copy, Debug, PartialEq, Eq, Structural)]
pub struct ForkptyOutcome {
    /// What `forkpty` returns.
    pub pid: pid_t,
    /// The `errno` to set, where the child reported one.
    pub errno: Option<c_int>,
    /// Whether the failed child must be reaped with `waitpid`.
    pub reap_child: bool,
    /// Whether the master side goes to the caller (else it is closed).
    pub keep_master: bool,
}

/// The parent's outcome after `fork` returned `pid` (-1 where the pipe or
/// the fork failed) and the child reported `child_errno` through the pipe
/// (`None` where nothing was read): a report means the child failed to
/// take the terminal, so it is reaped and `forkpty` fails with its errno.
/// (Where the fork itself failed the pipe has no writer left, so nothing
/// can be read.)
/// The master side is handed out exactly when a child is running.
pub fn forkpty_outcome(pid: pid_t, child_errno: Option<c_int>) -> (out: ForkptyOutcome)
    requires
        pid != 0,
    ensures
        out == (match child_errno {
            Some(e) => ForkptyOutcome {
                pid: -1i32,
                errno: Some(e),
                reap_child: true,
                keep_master: false,
            },
            _ => ForkptyOutcome { pid, errno: None, reap_child: false, keep_master: pid > 0 },
        }),
{
    match child_errno {
        Some(e) => ForkptyOutcome {
            pid: -1,
            errno: Some(e),
            reap_child: true,
            keep_master: false,
        },
        _ => ForkptyOutcome { pid, errno: None, reap_child: false, keep_master: pid > 0 },
    }
}

} // verus!
