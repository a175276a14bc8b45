use relibc::error::Errno;
use relibc::header::sys_epoll::{
    epoll_event, EPOLLERR, EPOLLET, EPOLLHUP, EPOLLIN, EPOLLONESHOT, EPOLLOUT, EPOLLPRI,
    EPOLLRDHUP, EPOLLRDNORM, EPOLLWRNORM, EPOLL_CTL_ADD, EPOLL_CTL_DEL, EPOLL_CTL_MOD,
};
use relibc::platform::seele::epoll::{
    epoll_wait_capacity, kernel_events_for, merge_ready_by_fd, sticky_edge_events,
    translate_ready_events, EpollKernelUpdate, EpollRegistry, PollEvent, PollResult,
};

fn report(fd: u64, events: u32) -> PollResult {
    PollResult { data: fd, events }
}

fn registry_with(epfd: i32, fd: i32, events: u32, data: u64) -> EpollRegistry {
    let mut reg = EpollRegistry::new();
    reg.create(epfd);
    assert!(reg.ctl(epfd, EPOLL_CTL_ADD, fd, Some(epoll_event { events, data })).is_ok());
    reg
}

#[test]
fn kernel_watches_follow_requested_bits() {
    assert_eq!(
        kernel_events_for(EPOLLIN),
        [Some(PollEvent::CanBeRead), None, Some(PollEvent::Error), Some(PollEvent::Closed)]
    );
    assert_eq!(
        kernel_events_for(EPOLLOUT),
        [None, Some(PollEvent::CanBeWritten), Some(PollEvent::Error), Some(PollEvent::Closed)]
    );
    assert_eq!(kernel_events_for(EPOLLERR), [None, None, Some(PollEvent::Error), None]);
    assert_eq!(kernel_events_for(EPOLLRDHUP), [None, None, None, Some(PollEvent::Closed)]);
    assert_eq!(kernel_events_for(EPOLLET), [None, None, None, None]);
}

#[test]
fn ready_bits_are_limited_to_what_was_asked() {
    assert_eq!(translate_ready_events(EPOLLIN | EPOLLRDNORM, EPOLLIN), EPOLLIN | EPOLLRDNORM);
    assert_eq!(translate_ready_events(EPOLLIN, EPOLLIN | EPOLLOUT), EPOLLIN);
    assert_eq!(translate_ready_events(EPOLLOUT | EPOLLWRNORM, EPOLLOUT), EPOLLOUT | EPOLLWRNORM);
    assert_eq!(translate_ready_events(EPOLLIN, EPOLLERR), EPOLLERR);
    assert_eq!(translate_ready_events(EPOLLIN, EPOLLHUP), EPOLLHUP);
    assert_eq!(translate_ready_events(EPOLLIN | EPOLLRDHUP, EPOLLHUP), EPOLLHUP | EPOLLRDHUP);
    assert_eq!(translate_ready_events(EPOLLPRI, EPOLLOUT), 0);
}

#[test]
fn sticky_bits_are_errors_and_hangups() {
    assert_eq!(sticky_edge_events(EPOLLIN | EPOLLERR | EPOLLHUP), EPOLLERR | EPOLLHUP);
    assert_eq!(sticky_edge_events(EPOLLRDHUP | EPOLLOUT), EPOLLRDHUP);
    assert_eq!(sticky_edge_events(EPOLLIN), 0);
}

#[test]
fn wait_capacity_must_be_positive() {
    assert_eq!(epoll_wait_capacity(0), Err(Errno(22)));
    assert_eq!(epoll_wait_capacity(-3), Err(Errno(22)));
    assert_eq!(epoll_wait_capacity(8), Ok(8));
}

#[test]
fn reports_are_merged_by_fd() {
    let results = [report(5, EPOLLIN), report(3, EPOLLOUT), report(5, EPOLLHUP), report(9, EPOLLIN)];
    let merged = merge_ready_by_fd(&results, 3);
    assert_eq!(merged.len(), 2);
    assert_eq!(merged.get(&5), Some(&(EPOLLIN | EPOLLHUP)));
    assert_eq!(merged.get(&3), Some(&EPOLLOUT));
    assert_eq!(merged.get(&9), None);
    let all = merge_ready_by_fd(&results, 100);
    assert_eq!(all.len(), 3);
}

#[test]
fn ctl_errors() {
    let mut reg = EpollRegistry::new();
    let ev = epoll_event { events: EPOLLIN, data: 1 };
    assert!(matches!(reg.ctl(4, EPOLL_CTL_ADD, 7, Some(ev)), Err(Errno(22))));
    reg.create(4);
    assert!(matches!(reg.ctl(4, EPOLL_CTL_ADD, 7, None), Err(Errno(22))));
    assert!(matches!(reg.ctl(4, EPOLL_CTL_MOD, 7, Some(ev)), Err(Errno(2))));
    assert!(matches!(reg.ctl(4, EPOLL_CTL_DEL, 7, None), Err(Errno(2))));
    assert!(matches!(reg.ctl(4, 99, 7, Some(ev)), Err(Errno(22))));
    assert!(reg.ctl(4, EPOLL_CTL_ADD, 7, Some(ev)).is_ok());
    assert!(matches!(reg.ctl(4, EPOLL_CTL_ADD, 7, Some(ev)), Err(Errno(17))));
}

#[test]
fn ctl_reports_kernel_updates() {
    let mut reg = EpollRegistry::new();
    reg.create(4);
    match reg.ctl(4, EPOLL_CTL_ADD, 7, Some(epoll_event { events: EPOLLOUT, data: 70 })) {
        Ok(EpollKernelUpdate::Rearm(watches)) => assert_eq!(watches, kernel_events_for(EPOLLOUT)),
        _ => panic!("an add re-arms the kernel watches"),
    }
    assert!(matches!(reg.ctl(4, EPOLL_CTL_DEL, 7, None), Ok(EpollKernelUpdate::Unregister)));
}

#[test]
fn add_then_delete_leaves_nothing_to_report() {
    let mut reg = registry_with(4, 7, EPOLLIN, 70);
    assert!(reg.ctl(4, EPOLL_CTL_DEL, 7, None).is_ok());
    let out = reg.collect_ready(4, &[report(7, EPOLLIN)], 1, 8).unwrap();
    assert!(out.is_empty());
}

#[test]
fn level_triggered_events_repeat() {
    let mut reg = registry_with(4, 7, EPOLLIN, 70);
    for _ in 0..3 {
        let out = reg.collect_ready(4, &[report(7, EPOLLIN)], 1, 8).unwrap();
        assert_eq!(out, vec![epoll_event { events: EPOLLIN, data: 70 }]);
    }
}

#[test]
fn oneshot_fires_once_until_modified() {
    let mut reg = registry_with(4, 7, EPOLLIN | EPOLLONESHOT, 70);
    let first = reg.collect_ready(4, &[report(7, EPOLLIN)], 1, 8).unwrap();
    assert_eq!(first, vec![epoll_event { events: EPOLLIN, data: 70 }]);
    let second = reg.collect_ready(4, &[report(7, EPOLLIN)], 1, 8).unwrap();
    assert!(second.is_empty());
    assert!(reg
        .ctl(4, EPOLL_CTL_MOD, 7, Some(epoll_event { events: EPOLLIN | EPOLLONESHOT, data: 71 }))
        .is_ok());
    let third = reg.collect_ready(4, &[report(7, EPOLLIN)], 1, 8).unwrap();
    assert_eq!(third, vec![epoll_event { events: EPOLLIN, data: 71 }]);
}

#[test]
fn edge_triggered_hangup_is_reported_once() {
    let mut reg = registry_with(4, 7, EPOLLIN | EPOLLET, 70);
    let first = reg.collect_ready(4, &[report(7, EPOLLIN | EPOLLHUP)], 1, 8).unwrap();
    assert_eq!(first, vec![epoll_event { events: EPOLLIN | EPOLLHUP, data: 70 }]);
    let second = reg.collect_ready(4, &[report(7, EPOLLIN | EPOLLHUP)], 1, 8).unwrap();
    assert_eq!(second, vec![epoll_event { events: EPOLLIN, data: 70 }]);
    let third = reg.collect_ready(4, &[report(7, EPOLLHUP)], 1, 8).unwrap();
    assert!(third.is_empty());
}

#[test]
fn delivery_is_in_fd_order_and_bounded() {
    let mut reg = EpollRegistry::new();
    reg.create(4);
    for fd in [9, 3, 6] {
        let ev = epoll_event { events: EPOLLIN, data: fd as u64 * 10 };
        assert!(reg.ctl(4, EPOLL_CTL_ADD, fd, Some(ev)).is_ok());
    }
    let results = [report(9, EPOLLIN), report(6, EPOLLIN), report(3, EPOLLIN)];
    let all = reg.collect_ready(4, &results, 3, 8).unwrap();
    let data: Vec<u64> = all.iter().map(|e| e.data).collect();
    assert_eq!(data, vec![30, 60, 90]);
    let two = reg.collect_ready(4, &results, 3, 2).unwrap();
    let data: Vec<u64> = two.iter().map(|e| e.data).collect();
    assert_eq!(data, vec![30, 60]);
}

#[test]
fn unknown_reports_and_unknown_instances() {
    let mut reg = registry_with(4, 7, EPOLLIN, 70);
    let out = reg.collect_ready(4, &[report(8, EPOLLIN)], 1, 8).unwrap();
    assert!(out.is_empty());
    assert_eq!(reg.collect_ready(5, &[report(7, EPOLLIN)], 1, 8), Err(Errno(22)));
}

#[test]
fn forgetting_an_fd_drops_its_registrations() {
    let mut reg = EpollRegistry::new();
    reg.create(4);
    reg.create(5);
    reg.create(7);
    let ev = epoll_event { events: EPOLLIN, data: 1 };
    assert!(reg.ctl(5, EPOLL_CTL_ADD, 7, Some(ev)).is_ok());
    assert!(reg.ctl(4, EPOLL_CTL_ADD, 7, Some(ev)).is_ok());
    assert!(reg.ctl(4, EPOLL_CTL_ADD, 8, Some(ev)).is_ok());
    let removals = reg.forget_fd(7);
    assert_eq!(removals, vec![(4, 7), (5, 7)]);
    assert!(reg.collect_ready(7, &[], 0, 1).is_err());
    let out = reg.collect_ready(4, &[report(7, EPOLLIN), report(8, EPOLLIN)], 2, 8).unwrap();
    assert_eq!(out.len(), 1);
    assert!(matches!(reg.ctl(5, EPOLL_CTL_DEL, 7, None), Err(Errno(2))));
}
