//! POSIX timers on Seele: conversions between `itimerspec` and the state of
//! a Seele timer, which keeps an absolute deadline in nanoseconds.

use crate::error::Errno;
use crate::header::bits_time::timespec;
use crate::header::errno::EINVAL;
use crate::header::signal::{sigevent, SIGEV_NONE, SIGEV_SIGNAL};
use crate::header::time::{itimerspec, CLOCK_MONOTONIC, CLOCK_REALTIME, NANOSECONDS, TIMER_ABSTIME};
use crate::platform::seele::abi::{
    TimeType, TimerNotifyStruct, TimerNotifyType, TimerStateStruct, TimerStateType,
};
use crate::platform::seele::Sys;
use crate::platform::types::{c_int, clockid_t};
use vstd::prelude::*;

verus! {

/// `x`, or `u64::MAX` if it does not fit.
pub open spec fn saturate(x: int) -> u64 {
    if x > u64::MAX {
        u64::MAX
    } else {
        x as u64
    }
}

/// The `timespec` of `nanoseconds`.
pub open spec fn spec_timespec(nanoseconds: u64) -> timespec {
    timespec {
        tv_sec: (nanoseconds / NANOSECONDS) as i64,
        tv_nsec: (nanoseconds % NANOSECONDS) as i64,
    }
}

/// The nanoseconds of `value`, both fields read as unsigned 64-bit values,
/// saturating at `u64::MAX`.
pub open spec fn spec_nanoseconds(value: timespec) -> u64 {
    saturate(saturate((value.tv_sec as u64) * NANOSECONDS) + (value.tv_nsec as u64))
}

/// A zero `itimerspec`: a disarmed timer.
pub open spec fn disarmed() -> itimerspec {
    itimerspec {
        it_interval: timespec { tv_sec: 0, tv_nsec: 0 },
        it_value: timespec { tv_sec: 0, tv_nsec: 0 },
    }
}

/// The Seele timer state that `value` stands for, with the deadline as
/// given: no deadline disarms, a deadline without an interval fires once,
/// and both make the timer periodic.
pub open spec fn spec_timer_state(value: itimerspec) -> TimerStateStruct {
    let deadline = spec_nanoseconds(value.it_value);
    let interval = spec_nanoseconds(value.it_interval);
    TimerStateStruct {
        state_type: if deadline == 0 {
            TimerStateType::Disabled
        } else if interval == 0 {
            TimerStateType::OneShot
        } else {
            TimerStateType::Periodic
        },
        deadline,
        interval,
    }
}

/// The `itimerspec` that a Seele timer state stands for, with the expiry
/// taken as is.
pub open spec fn spec_itimerspec(value: TimerStateStruct) -> itimerspec {
    match value.state_type {
        TimerStateType::Disabled => disarmed(),
        TimerStateType::OneShot => itimerspec {
            it_interval: spec_timespec(0),
            it_value: spec_timespec(value.deadline),
        },
        TimerStateType::Periodic => itimerspec {
            it_interval: spec_timespec(value.interval),
            it_value: spec_timespec(value.deadline),
        },
    }
}

/// A timer state whose fields agree with its mode.
pub open spec fn well_formed_state(value: TimerStateStruct) -> bool {
    match value.state_type {
        TimerStateType::Disabled => value.deadline == 0 && value.interval == 0,
        TimerStateType::OneShot => value.deadline != 0 && value.interval == 0,
        TimerStateType::Periodic => value.deadline != 0 && value.interval != 0,
    }
}

/// Splits `nanoseconds` into seconds and nanoseconds.
pub fn ns_to_timespec(nanoseconds: u64) -> (ts: timespec)
    ensures
        ts == spec_timespec(nanoseconds),
{
    timespec {
        tv_sec: (nanoseconds / NANOSECONDS) as i64,
        tv_nsec: (nanoseconds % NANOSECONDS) as i64,
    }
}

/// The nanoseconds of `value`, saturating at `u64::MAX`.
pub fn timespec_to_ns(value: &timespec) -> (n: u64)
    ensures
        n == spec_nanoseconds(*value),
{
    let seconds = value.tv_sec as u64;
    let scaled = match seconds.checked_mul(NANOSECONDS) {
        Some(v) => v,
        None => u64::MAX,
    };
    match scaled.checked_add(value.tv_nsec as u64) {
        Some(v) => v,
        None => u64::MAX,
    }
}

impl From<TimerStateStruct> for itimerspec {
    fn from(value: TimerStateStruct) -> (r: Self) {
        match value.state_type {
            TimerStateType::Disabled => itimerspec {
                it_interval: timespec { tv_sec: 0, tv_nsec: 0 },
                it_value: timespec { tv_sec: 0, tv_nsec: 0 },
            },
            TimerStateType::OneShot => itimerspec {
                it_interval: ns_to_timespec(0),
                it_value: ns_to_timespec(value.deadline),
            },
            TimerStateType::Periodic => itimerspec {
                it_interval: ns_to_timespec(value.interval),
                it_value: ns_to_timespec(value.deadline),
            },
        }
    }
}

impl vstd::std_specs::convert::FromSpecImpl<TimerStateStruct> for itimerspec {
    open spec fn obeys_from_spec() -> bool {
        true
    }

    open spec fn from_spec(v: TimerStateStruct) -> itimerspec {
        spec_itimerspec(v)
    }
}

impl From<itimerspec> for TimerStateStruct {
    fn from(value: itimerspec) -> (r: Self) {
        let deadline = timespec_to_ns(&value.it_value);
        let interval = timespec_to_ns(&value.it_interval);

        let state_type = if deadline == 0 {
            TimerStateType::Disabled
        } else if interval == 0 {
            TimerStateType::OneShot
        } else {
            TimerStateType::Periodic
        };

        TimerStateStruct { state_type, deadline, interval }
    }
}

impl vstd::std_specs::convert::FromSpecImpl<itimerspec> for TimerStateStruct {
    open spec fn obeys_from_spec() -> bool {
        true
    }

    open spec fn from_spec(v: itimerspec) -> TimerStateStruct {
        spec_timer_state(v)
    }
}

/// What `timer_gettime` reports for a Seele timer state at the time `now`
/// of the timer's clock: the time left to the deadline (zero once it has
/// passed) and the interval.
pub fn timer_state_to_itimerspec(value: TimerStateStruct, now: u64) -> (r: itimerspec)
    ensures
        r == (match value.state_type {
            TimerStateType::Disabled => disarmed(),
            TimerStateType::OneShot => itimerspec {
                it_interval: spec_timespec(0),
                it_value: spec_timespec(
                    if value.deadline >= now {
                        (value.deadline - now) as u64
                    } else {
                        0
                    },
                ),
            },
            TimerStateType::Periodic => itimerspec {
                it_interval: spec_timespec(value.interval),
                it_value: spec_timespec(
                    if value.deadline >= now {
                        (value.deadline - now) as u64
                    } else {
                        0
                    },
                ),
            },
        }),
{
    let left = value.deadline.saturating_sub(now);
    match value.state_type {
        TimerStateType::Disabled => itimerspec {
            it_interval: timespec { tv_sec: 0, tv_nsec: 0 },
            it_value: timespec { tv_sec: 0, tv_nsec: 0 },
        },
        TimerStateType::OneShot => itimerspec {
            it_interval: ns_to_timespec(0),
            it_value: ns_to_timespec(left),
        },
        TimerStateType::Periodic => itimerspec {
            it_interval: ns_to_timespec(value.interval),
            it_value: ns_to_timespec(left),
        },
    }
}

/// Whether `timer_settime` needs the current time of the timer's clock: for
/// an armed timer with a relative expiry.
pub fn timer_needs_clock(value: &itimerspec, flags: c_int) -> (r: bool)
    ensures
        r == (spec_timer_state(*value).state_type != TimerStateType::Disabled && (flags
            & TIMER_ABSTIME) == 0),
{
    let timer_state = TimerStateStruct::from(*value);
    !matches!(timer_state.state_type, TimerStateType::Disabled) && (flags & TIMER_ABSTIME) == 0
}

/// The Seele timer state that `timer_settime` sets: a relative expiry is
/// made absolute by adding `now` (the current time of the timer's clock,
/// saturating); an absolute one and a disarming are taken as they are.
pub fn timer_state_from_itimerspec(value: &itimerspec, flags: c_int, now: u64) -> (r:
    TimerStateStruct)
    ensures
        ({
            let s = spec_timer_state(*value);
            r == (if s.state_type != TimerStateType::Disabled && (flags & TIMER_ABSTIME) == 0 {
                TimerStateStruct { deadline: saturate(now + s.deadline), ..s }
            } else {
                s
            })
        }),
{
    let mut timer_state = TimerStateStruct::from(*value);

    if !matches!(timer_state.state_type, TimerStateType::Disabled) && (flags & TIMER_ABSTIME) == 0 {
        timer_state.deadline = now.saturating_add(timer_state.deadline);
    }

    timer_state
}

/// The Seele notification that a `sigevent` asks for: none, or a signal;
/// `EINVAL` for other kinds, and for a signal number that the kernel does
/// not know. `signal_known` is the kernel interface's answer for
/// `evp.sigev_signo` (whether Seele's `Signal` accepts the number).
pub fn timer_notify_from_sigevent(evp: &sigevent, signal_known: bool) -> (r: Result<
    TimerNotifyStruct,
    Errno,
>)
    ensures
        evp.sigev_notify == SIGEV_NONE ==> r == Ok::<TimerNotifyStruct, Errno>(
            TimerNotifyStruct { notify_type: TimerNotifyType::NoNotification, signal: 0 },
        ),
        evp.sigev_notify == SIGEV_SIGNAL ==> r == if signal_known {
            Ok::<TimerNotifyStruct, Errno>(
                TimerNotifyStruct {
                    notify_type: TimerNotifyType::Signal,
                    signal: evp.sigev_signo as u64,
                },
            )
        } else {
            Err::<TimerNotifyStruct, Errno>(Errno(EINVAL))
        },
        evp.sigev_notify != SIGEV_NONE && evp.sigev_notify != SIGEV_SIGNAL ==> r == Err::<
            TimerNotifyStruct,
            Errno,
        >(Errno(EINVAL)),
{
    if evp.sigev_notify == SIGEV_NONE {
        Ok(TimerNotifyStruct { notify_type: TimerNotifyType::NoNotification, signal: 0 })
    } else if evp.sigev_notify == SIGEV_SIGNAL {
        if !signal_known {
            return Err(Errno(EINVAL));
        }
        Ok(TimerNotifyStruct { notify_type: TimerNotifyType::Signal, signal: evp.sigev_signo as u64 })
    } else {
        Err(Errno(EINVAL))
    }
}

impl TimeType {
    /// The Seele clock of a POSIX clock id; `EINVAL` for clocks Seele lacks.
    pub fn try_from(value: clockid_t) -> (r: Result<TimeType, Errno>)
        ensures
            value == CLOCK_MONOTONIC ==> r == Ok::<TimeType, Errno>(TimeType::SinceBoot),
            value == CLOCK_REALTIME ==> r == Ok::<TimeType, Errno>(TimeType::Realtime),
            value != CLOCK_MONOTONIC && value != CLOCK_REALTIME ==> r == Err::<TimeType, Errno>(
                Errno(EINVAL),
            ),
    {
        if value == CLOCK_MONOTONIC {
            Ok(TimeType::SinceBoot)
        } else if value == CLOCK_REALTIME {
            Ok(TimeType::Realtime)
        } else {
            Err(Errno(EINVAL))
        }
    }
}

/// Splitting a nanosecond count into a `timespec` and reading it back gives
/// the count again.
pub proof fn lemma_nanoseconds_round_trip(nanoseconds: u64)
    ensures
        spec_nanoseconds(spec_timespec(nanoseconds)) == nanoseconds,
{
    let s = nanoseconds / NANOSECONDS;
    let n = nanoseconds % NANOSECONDS;
    assert(s * NANOSECONDS + n == nanoseconds);
    assert(s * NANOSECONDS <= nanoseconds);
}

/// A well-formed Seele timer state survives the trip through `itimerspec`.
pub proof fn lemma_timer_state_round_trip(value: TimerStateStruct)
    requires
        well_formed_state(value),
    ensures
        spec_timer_state(spec_itimerspec(value)) == value,
{
    lemma_nanoseconds_round_trip(value.deadline);
    lemma_nanoseconds_round_trip(value.interval);
    lemma_nanoseconds_round_trip(0);
}


/// A normalised `timespec` (seconds and nanoseconds both non-negative,
/// fewer than a second of nanoseconds) whose nanoseconds fit 64 bits.
pub open spec fn fits_nanoseconds(t: timespec) -> bool {
    &&& t.tv_sec >= 0
    &&& 0 <= t.tv_nsec < NANOSECONDS
    &&& t.tv_sec * NANOSECONDS + t.tv_nsec <= u64::MAX
}

/// A `timespec` that fits survives the trip through nanoseconds.
pub proof fn lemma_timespec_round_trip(t: timespec)
    requires
        fits_nanoseconds(t),
    ensures
        spec_nanoseconds(t) == t.tv_sec * NANOSECONDS + t.tv_nsec,
        spec_timespec(spec_nanoseconds(t)) == t,
{
    let s = t.tv_sec as int;
    let n = t.tv_nsec as int;
    assert((t.tv_sec as u64) as int == s);
    assert((t.tv_nsec as u64) as int == n);
    assert(0 <= s * NANOSECONDS) by (nonlinear_arith)
        requires
            s >= 0,
    ;
    let total = s * NANOSECONDS + n;
    assert(total / (NANOSECONDS as int) == s && total % (NANOSECONDS as int) == n) by (nonlinear_arith)
        requires
            total == s * NANOSECONDS + n,
            0 <= n < NANOSECONDS,
            s >= 0,
    ;
}

/// An `itimerspec` whose two times fit survives the trip through a Seele
/// timer state, except that a disarming one (no expiry) comes back as the
/// zero `itimerspec`, whatever interval it named.
pub proof fn lemma_itimerspec_round_trip(v: itimerspec)
    requires
        fits_nanoseconds(v.it_value),
        fits_nanoseconds(v.it_interval),
    ensures
        spec_itimerspec(spec_timer_state(v)) == if spec_nanoseconds(v.it_value) == 0 {
            disarmed()
        } else {
            v
        },
{
    lemma_timespec_round_trip(v.it_value);
    lemma_timespec_round_trip(v.it_interval);
    lemma_nanoseconds_round_trip(0);
    let i = v.it_interval;
    if spec_nanoseconds(i) == 0 {
        assert(i.tv_sec == 0 && i.tv_nsec == 0) by (nonlinear_arith)
            requires
                i.tv_sec * NANOSECONDS + i.tv_nsec == 0,
                i.tv_sec >= 0,
                i.tv_nsec >= 0,
        ;
    }
}

impl Sys {
    /// `timer_create` as the platform layer wires it today: the timer calls
    /// are not connected to the kernel, so the call clears the caller's
    /// handle (`None` for a null pointer) and goes to the stub, a no-op
    /// success.
    pub fn timer_create(clock_id: clockid_t, evp: &sigevent, timerid: Option<&mut usize>) -> (r:
        Result<(), Errno>)
        ensures
            r == Ok::<(), Errno>(()),
            match timerid {
                Some(t) => *final(t) == 0,
                None => true,
            },
    {
        let _ = (clock_id, evp);
        if let Some(t) = timerid {
            *t = 0;
        }
        match Sys::stub("TIMER_CREATE") {
            Ok(_) => Ok(()),
            Err(e) => Err(e),
        }
    }
}

} // verus!
