use relibc::error::Errno;
use relibc::header::bits_time::timespec;
use relibc::header::signal::sigevent;
use relibc::header::time::{itimerspec, CLOCK_MONOTONIC, CLOCK_REALTIME, TIMER_ABSTIME};
use relibc::platform::seele::abi::{
    TimeType, TimerNotifyStruct, TimerNotifyType, TimerStateStruct, TimerStateType,
};
use relibc::platform::seele::timer::{
    ns_to_timespec, timer_needs_clock, timer_notify_from_sigevent, timer_state_from_itimerspec,
    timer_state_to_itimerspec, timespec_to_ns,
};
use relibc::platform::seele::{ClockSource, Sys};

fn ts(tv_sec: i64, tv_nsec: i64) -> timespec {
    timespec { tv_sec, tv_nsec }
}

#[test]
fn nanoseconds_split_into_seconds() {
    assert_eq!(ns_to_timespec(0), ts(0, 0));
    assert_eq!(ns_to_timespec(1_500_000_001), ts(1, 500_000_001));
    assert_eq!(ns_to_timespec(u64::MAX), ts(18_446_744_073, 709_551_615));
}

#[test]
fn timespec_to_nanoseconds_saturates() {
    assert_eq!(timespec_to_ns(&ts(2, 5)), 2_000_000_005);
    assert_eq!(timespec_to_ns(&ts(i64::MAX, 0)), u64::MAX);
    assert_eq!(timespec_to_ns(&ts(18_446_744_073, 709_551_616)), u64::MAX);
}

#[test]
fn nanoseconds_round_trip() {
    for n in [0u64, 1, 999_999_999, 1_000_000_000, 123_456_789_012, u64::MAX] {
        assert_eq!(timespec_to_ns(&ns_to_timespec(n)), n);
    }
}

#[test]
fn itimerspec_to_timer_state() {
    let disarm = itimerspec { it_interval: ts(1, 0), it_value: ts(0, 0) };
    let s: TimerStateStruct = disarm.into();
    assert_eq!(s.state_type, TimerStateType::Disabled);
    let once = itimerspec { it_interval: ts(0, 0), it_value: ts(3, 0) };
    let s: TimerStateStruct = once.into();
    assert_eq!(s, TimerStateStruct { state_type: TimerStateType::OneShot, deadline: 3_000_000_000, interval: 0 });
    let periodic = itimerspec { it_interval: ts(0, 250), it_value: ts(1, 0) };
    let s: TimerStateStruct = periodic.into();
    assert_eq!(s, TimerStateStruct { state_type: TimerStateType::Periodic, deadline: 1_000_000_000, interval: 250 });
}

#[test]
fn disarming_itimerspec_comes_back_zero() {
    let v = itimerspec { it_interval: ts(1, 0), it_value: ts(0, 0) };
    let s: TimerStateStruct = v.into();
    let back: itimerspec = s.into();
    assert_eq!(back, itimerspec::default());
}

#[test]
fn timer_state_to_itimerspec_by_from() {
    let periodic = TimerStateStruct { state_type: TimerStateType::Periodic, deadline: 2_000_000_001, interval: 7 };
    let v: itimerspec = periodic.into();
    assert_eq!(v, itimerspec { it_interval: ts(0, 7), it_value: ts(2, 1) });
    let off = TimerStateStruct { state_type: TimerStateType::Disabled, deadline: 9, interval: 9 };
    let v: itimerspec = off.into();
    assert_eq!(v, itimerspec::default());
}

#[test]
fn itimerspec_round_trips_through_timer_state() {
    let v = itimerspec { it_interval: ts(0, 250), it_value: ts(4, 999_999_999) };
    let s: TimerStateStruct = v.into();
    let back: itimerspec = s.into();
    assert_eq!(back, v);
}

#[test]
fn remaining_time_is_relative_to_now() {
    let s = TimerStateStruct { state_type: TimerStateType::OneShot, deadline: 5_000_000_000, interval: 0 };
    assert_eq!(timer_state_to_itimerspec(s, 2_000_000_000), itimerspec { it_interval: ts(0, 0), it_value: ts(3, 0) });
    assert_eq!(timer_state_to_itimerspec(s, 9_000_000_000), itimerspec { it_interval: ts(0, 0), it_value: ts(0, 0) });
}

#[test]
fn relative_expiry_is_made_absolute() {
    let v = itimerspec { it_interval: ts(0, 0), it_value: ts(1, 0) };
    assert!(timer_needs_clock(&v, 0));
    assert!(!timer_needs_clock(&v, TIMER_ABSTIME));
    let rel = timer_state_from_itimerspec(&v, 0, 500);
    assert_eq!(rel.deadline, 1_000_000_500);
    let abs = timer_state_from_itimerspec(&v, TIMER_ABSTIME, 500);
    assert_eq!(abs.deadline, 1_000_000_000);
    let sat = timer_state_from_itimerspec(&v, 0, u64::MAX);
    assert_eq!(sat.deadline, u64::MAX);
    let off = itimerspec { it_interval: ts(0, 0), it_value: ts(0, 0) };
    assert!(!timer_needs_clock(&off, 0));
    assert_eq!(timer_state_from_itimerspec(&off, 0, 500).deadline, 0);
}

#[test]
fn sigevent_notifications() {
    assert_eq!(
        timer_notify_from_sigevent(&sigevent { sigev_notify: 1, sigev_signo: 0 }, false),
        Ok(TimerNotifyStruct { notify_type: TimerNotifyType::NoNotification, signal: 0 })
    );
    assert_eq!(
        timer_notify_from_sigevent(&sigevent { sigev_notify: 0, sigev_signo: 14 }, true),
        Ok(TimerNotifyStruct { notify_type: TimerNotifyType::Signal, signal: 14 })
    );
    assert_eq!(timer_notify_from_sigevent(&sigevent { sigev_notify: 2, sigev_signo: 14 }, true), Err(Errno(22)));
    assert_eq!(timer_notify_from_sigevent(&sigevent { sigev_notify: 0, sigev_signo: 999 }, false), Err(Errno(22)));
}

#[test]
fn timer_create_is_a_stub() {
    let mut handle = 0xdead;
    let evp = sigevent { sigev_notify: 1, sigev_signo: 0 };
    assert_eq!(Sys::timer_create(CLOCK_REALTIME, &evp, Some(&mut handle)), Ok(()));
    assert_eq!(handle, 0);
    assert_eq!(Sys::timer_create(CLOCK_MONOTONIC, &evp, None), Ok(()));
}

#[test]
fn clocks() {
    assert_eq!(TimeType::try_from(CLOCK_MONOTONIC), Ok(TimeType::SinceBoot));
    assert_eq!(TimeType::try_from(CLOCK_REALTIME), Ok(TimeType::Realtime));
    assert_eq!(TimeType::try_from(7), Err(Errno(22)));
    assert_eq!(Sys::clock_source(CLOCK_REALTIME), Ok(ClockSource::CurrentTime));
    assert_eq!(Sys::clock_source(CLOCK_MONOTONIC), Ok(ClockSource::SinceBoot));
    assert_eq!(Sys::clock_source(5), Err(Errno(22)));
}

#[test]
fn clock_readings() {
    assert_eq!(Sys::timespec_from_clock(3_000_000_042), ts(3, 42));
    let tv = Sys::timeval_from_clock(3_123_456_789);
    assert_eq!((tv.tv_sec, tv.tv_usec), (3, 123_456));
}

#[test]
fn nanosleep_requests() {
    assert_eq!(Sys::nanosleep_duration(None), Err(Errno(22)));
    assert_eq!(Sys::nanosleep_duration(Some(&ts(1, 5))), Ok(1_000_000_005));
    assert_eq!(Sys::nanosleep_duration(Some(&ts(-1, 5))), Err(Errno(22)));
    assert_eq!(Sys::nanosleep_duration(Some(&ts(0, 1_000_000_000))), Err(Errno(22)));
    assert_eq!(Sys::nanosleep_duration(Some(&ts(0, -1))), Err(Errno(22)));
    assert_eq!(Sys::nanosleep_duration(Some(&ts(i64::MAX, 0))), Err(Errno(22)));
}
