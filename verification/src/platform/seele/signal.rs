//! Signal actions on Seele: conversions between `struct sigaction` and
//! Seele's signal action record, and the checks of `sigaction`.

use crate::error::Errno;
use crate::header::errno::EINVAL;
use crate::header::signal::{
    sigaction, SA_RESTORER, SA_SIGINFO, SIGKILL, SIGSTOP, SIG_BLOCK, SIG_DFL, SIG_IGN, SIG_SETMASK,
    SIG_UNBLOCK,
};
use crate::platform::seele::abi::{SignalAction, SignalHandlingType};
use crate::platform::seele::Sys;
use crate::platform::types::c_int;
use vstd::prelude::*;

verus! {

/// The handler address that stands for a Seele handling type.
pub open spec fn handler_address(t: SignalHandlingType) -> usize {
    match t {
        SignalHandlingType::Default => SIG_DFL,
        SignalHandlingType::Ignore => SIG_IGN,
        SignalHandlingType::Function1(f) => f,
        SignalHandlingType::Function2(f) => f,
    }
}

/// The Seele handling type of a handler address and `sa_flags`: the two
/// special addresses, else a handler taking `siginfo_t` when `SA_SIGINFO`
/// is set and a plain one otherwise.
pub open spec fn handling_type_for(handler: usize, flags: c_int) -> SignalHandlingType {
    if handler == SIG_DFL {
        SignalHandlingType::Default
    } else if handler == SIG_IGN {
        SignalHandlingType::Ignore
    } else if flags & (SA_SIGINFO as c_int) != 0 {
        SignalHandlingType::Function2(handler)
    } else {
        SignalHandlingType::Function1(handler)
    }
}

/// The `struct sigaction` that a Seele signal action stands for.
pub open spec fn spec_sigaction(action: SignalAction) -> sigaction {
    sigaction {
        sa_handler: handler_address(action.handling_type),
        sa_flags: action.flags as c_int,
        sa_restorer: action.restorer,
        sa_mask: action.sig_handler_ignored_sigs,
    }
}

/// The Seele signal action that a `struct sigaction` stands for, with
/// `default_restorer` where it names no restorer.
pub open spec fn spec_signal_action(action: sigaction, default_restorer: usize) -> SignalAction {
    SignalAction {
        handling_type: handling_type_for(action.sa_handler, action.sa_flags),
        sig_handler_ignored_sigs: action.sa_mask,
        flags: action.sa_flags as u64,
        restorer: if action.sa_restorer == 0 {
            default_restorer
        } else {
            action.sa_restorer
        },
    }
}

/// The special handler addresses win over the flags: `SIG_DFL` (0) always
/// means the default action and `SIG_IGN` (1) always means ignoring, with
/// or without `SA_SIGINFO`; any other address is a handler, taking
/// `siginfo_t` exactly when `SA_SIGINFO` (4) is set.
pub proof fn lemma_handling_type_by_handler(handler: usize, flags: c_int)
    ensures
        handling_type_for(0, flags) == SignalHandlingType::Default,
        handling_type_for(1, flags) == SignalHandlingType::Ignore,
        handler > 1 ==> handling_type_for(handler, flags) == (if flags & 4 != 0 {
            SignalHandlingType::Function2(handler)
        } else {
            SignalHandlingType::Function1(handler)
        }),
{
}

impl sigaction {
    /// The `struct sigaction` that a Seele signal action stands for.
    pub fn from(action: &SignalAction) -> (r: sigaction)
        ensures
            r == spec_sigaction(*action),
    {
        let sa_handler = match action.handling_type {
            SignalHandlingType::Default => SIG_DFL,
            SignalHandlingType::Ignore => SIG_IGN,
            SignalHandlingType::Function1(function) => function,
            SignalHandlingType::Function2(function) => function,
        };

        sigaction {
            sa_handler,
            sa_flags: action.flags as c_int,
            sa_restorer: if action.restorer == 0 {
                0
            } else {
                action.restorer
            },
            sa_mask: action.sig_handler_ignored_sigs,
        }
    }
}

impl SignalAction {
    /// The Seele signal action that a `struct sigaction` stands for;
    /// `default_restorer` is the signal return trampoline used where the
    /// action names none.
    pub fn from(action: &sigaction, default_restorer: usize) -> (r: SignalAction)
        ensures
            r == spec_signal_action(*action, default_restorer),
            action.sa_handler == 0 ==> r.handling_type == SignalHandlingType::Default,
            action.sa_handler == 1 ==> r.handling_type == SignalHandlingType::Ignore,
            action.sa_handler > 1 ==> r.handling_type == (if action.sa_flags & 4 != 0 {
                SignalHandlingType::Function2(action.sa_handler)
            } else {
                SignalHandlingType::Function1(action.sa_handler)
            }),
    {
        proof {
            lemma_handling_type_by_handler(action.sa_handler, action.sa_flags);
        }
        let handling_type = if action.sa_handler == SIG_DFL {
            SignalHandlingType::Default
        } else if action.sa_handler == SIG_IGN {
            SignalHandlingType::Ignore
        } else if action.sa_flags & (SA_SIGINFO as c_int) != 0 {
            SignalHandlingType::Function2(action.sa_handler)
        } else {
            SignalHandlingType::Function1(action.sa_handler)
        };

        SignalAction {
            handling_type,
            sig_handler_ignored_sigs: action.sa_mask,
            flags: action.sa_flags as u64,
            restorer: if action.sa_restorer == 0 {
                default_restorer
            } else {
                action.sa_restorer
            },
        }
    }
}

impl Sys {
    /// The checks and preparation of `sigaction`: `SIGKILL` and `SIGSTOP`
    /// cannot be caught, and a signal number that the kernel does not know
    /// is refused (both `EINVAL`); a new action is installed with Seele's
    /// signal return trampoline `restorer` as its restorer. `signal_known`
    /// is the kernel interface's answer for `sig` (whether Seele's `Signal`
    /// accepts the number).
    pub fn sigaction_request(
        sig: c_int,
        signal_known: bool,
        act: Option<&sigaction>,
        restorer: usize,
    ) -> (r: Result<Option<SignalAction>, Errno>)
        ensures
            (sig == SIGKILL || sig == SIGSTOP || !signal_known) ==> r == Err::<
                Option<SignalAction>,
                Errno,
            >(Errno(EINVAL)),
            !(sig == SIGKILL || sig == SIGSTOP || !signal_known) ==> r == Ok::<
                Option<SignalAction>,
                Errno,
            >(
                match act {
                    None => None,
                    Some(a) => Some(
                        spec_signal_action(
                            sigaction {
                                sa_flags: a.sa_flags | (SA_RESTORER as c_int),
                                sa_restorer: restorer,
                                ..*a
                            },
                            restorer,
                        ),
                    ),
                },
            ),
    {
        if sig == SIGKILL || sig == SIGSTOP {
            return Err(Errno(EINVAL));
        }
        if !signal_known {
            return Err(Errno(EINVAL));
        }
        let new_action = match act {
            Some(action) => {
                let mut action = *action;
                action.sa_flags |= SA_RESTORER as c_int;
                action.sa_restorer = restorer;
                Some(SignalAction::from(&action, restorer))
            },
            None => None,
        };
        Ok(new_action)
    }
}

/// A `struct sigaction` that names its restorer survives the trip through
/// Seele's signal action record unchanged.
pub proof fn lemma_sigaction_round_trip(action: sigaction, default_restorer: usize)
    requires
        action.sa_restorer != 0,
    ensures
        spec_sigaction(spec_signal_action(action, default_restorer)) == action,
{
    let f = action.sa_flags;
    assert(((f as u64) as c_int) == f) by (bit_vector);
}

/// A Seele signal action survives the trip through `struct sigaction` when
/// its flags fit `sa_flags`, its restorer is set, and its handler address
/// and `SA_SIGINFO` flag agree with its handling type.
pub proof fn lemma_signal_action_round_trip(action: SignalAction, default_restorer: usize)
    requires
        action.restorer != 0,
        (action.flags as c_int) as u64 == action.flags,
        handling_type_for(handler_address(action.handling_type), action.flags as c_int)
            == action.handling_type,
    ensures
        spec_signal_action(spec_sigaction(action), default_restorer) == action,
{
}


/// The kernel call that `sigprocmask` makes for its `how` argument.
#[derive(Clone, Copy, Debug, PartialEq, Eq, Structural)]
pub enum MaskChange {
    Block,
    Unblock,
    SetMask,
}

impl Sys {
    /// The kernel call behind `sigprocmask(how, ..)`; an unknown `how` is
    /// refused with `EINVAL`.
    pub fn mask_change(how: c_int) -> (r: Result<MaskChange, Errno>)
        ensures
            r == if how == SIG_BLOCK {
                Ok(MaskChange::Block)
            } else if how == SIG_UNBLOCK {
                Ok(MaskChange::Unblock)
            } else if how == SIG_SETMASK {
                Ok(MaskChange::SetMask)
            } else {
                Err(Errno(EINVAL))
            },
    {
        if how == SIG_BLOCK {
            Ok(MaskChange::Block)
        } else if how == SIG_UNBLOCK {
            Ok(MaskChange::Unblock)
        } else if how == SIG_SETMASK {
            Ok(MaskChange::SetMask)
        } else {
            Err(Errno(EINVAL))
        }
    }
}

} // verus!
