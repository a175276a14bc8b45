use relibc::error::Errno;
use relibc::header::signal::{sigaction, SA_RESTORER, SA_SIGINFO, SIG_DFL, SIG_IGN};
use relibc::header::sys_socket::{sockaddr_un, AF_UNIX, SOCK_CLOEXEC, SOCK_NONBLOCK, SOCK_STREAM};
use relibc::platform::seele::abi::{SignalAction, SignalHandlingType};
use relibc::platform::seele::socket::{
    iovec, listen_backlog, msghdr, next_socketpair_path, sendmsg_after_write, sendmsg_check,
    sendmsg_start, sendto_check, socket_base_kind, socketpair_check, socketpair_next,
    socketpair_start, unix_socket_path, wants_nonblock, PairCall, PairStep, SendStep,
};
use relibc::platform::seele::Sys;

fn action(handler: usize, flags: i32, restorer: usize) -> sigaction {
    sigaction { sa_handler: handler, sa_flags: flags, sa_restorer: restorer, sa_mask: 0b1010 }
}

#[test]
fn sigaction_to_seele_action() {
    let a = SignalAction::from(&action(0x1000, 0, 0), 0x9000);
    assert_eq!(a.handling_type, SignalHandlingType::Function1(0x1000));
    assert_eq!(a.restorer, 0x9000);
    assert_eq!(a.sig_handler_ignored_sigs, 0b1010);
    let a = SignalAction::from(&action(0x1000, SA_SIGINFO as i32, 0x2000), 0x9000);
    assert_eq!(a.handling_type, SignalHandlingType::Function2(0x1000));
    assert_eq!(a.restorer, 0x2000);
    assert_eq!(SignalAction::from(&action(SIG_DFL, 0, 0), 1).handling_type, SignalHandlingType::Default);
    assert_eq!(SignalAction::from(&action(SIG_IGN, 0, 0), 1).handling_type, SignalHandlingType::Ignore);
}

#[test]
fn seele_action_to_sigaction() {
    let a = SignalAction {
        handling_type: SignalHandlingType::Ignore,
        sig_handler_ignored_sigs: 7,
        flags: 4,
        restorer: 0x3000,
    };
    assert_eq!(sigaction::from(&a), sigaction { sa_handler: SIG_IGN, sa_flags: 4, sa_restorer: 0x3000, sa_mask: 7 });
}

#[test]
fn sigaction_round_trip() {
    let original = action(0x1000, SA_SIGINFO as i32, 0x2000);
    assert_eq!(sigaction::from(&SignalAction::from(&original, 0x9000)), original);
}

#[test]
fn signal_action_round_trip() {
    let original = SignalAction {
        handling_type: SignalHandlingType::Function2(0x1000),
        sig_handler_ignored_sigs: 0b110,
        flags: SA_SIGINFO as u64,
        restorer: 0x3000,
    };
    assert_eq!(SignalAction::from(&sigaction::from(&original), 0x9000), original);
}

#[test]
fn sigaction_requests() {
    assert_eq!(Sys::sigaction_request(9, true, None, 0x9000), Err(Errno(22)));
    assert_eq!(Sys::sigaction_request(19, true, Some(&action(0x1000, 0, 0)), 0x9000), Err(Errno(22)));
    assert_eq!(Sys::sigaction_request(2, true, None, 0x9000), Ok(None));
    assert_eq!(Sys::sigaction_request(200, false, Some(&action(0x1000, 0, 0)), 0x9000), Err(Errno(22)));
    let installed = Sys::sigaction_request(2, true, Some(&action(0x1000, 0, 0x5555)), 0x9000).unwrap().unwrap();
    assert_eq!(installed.restorer, 0x9000);
    assert_eq!(installed.flags, SA_RESTORER as u64);
    assert_eq!(installed.handling_type, SignalHandlingType::Function1(0x1000));
}

fn unix_address(path: &[u8]) -> sockaddr_un {
    let mut sun_path = [0i8; 108];
    for (slot, &b) in sun_path.iter_mut().zip(path) {
        *slot = b as i8;
    }
    sockaddr_un { sun_family: AF_UNIX as u16, sun_path }
}

#[test]
fn unix_socket_paths() {
    let a = unix_address(b"/tmp/sock");
    assert_eq!(a.path_offset(), 2);
    assert_eq!(unix_socket_path(Some(&a), 110), Ok(b"/tmp/sock".to_vec()));
    assert_eq!(unix_socket_path(Some(&a), 2 + 4), Ok(b"/tmp".to_vec()));
    assert_eq!(unix_socket_path(Some(&a), 2), Err(Errno(22)));
    assert_eq!(unix_socket_path(None, 110), Err(Errno(22)));
    let abstract_name = unix_address(b"\0name");
    assert_eq!(unix_socket_path(Some(&abstract_name), 110), Err(Errno(22)));
    let mut inet = a;
    inet.sun_family = 2;
    assert_eq!(unix_socket_path(Some(&inet), 110), Err(Errno(97)));
}

#[test]
fn socket_kinds() {
    assert_eq!(socket_base_kind(SOCK_STREAM | SOCK_NONBLOCK | SOCK_CLOEXEC), SOCK_STREAM);
    assert!(wants_nonblock(SOCK_STREAM | SOCK_NONBLOCK));
    assert!(!wants_nonblock(SOCK_STREAM | SOCK_CLOEXEC));
    assert_eq!(socketpair_check(AF_UNIX, SOCK_STREAM | SOCK_CLOEXEC, 0), Ok(SOCK_STREAM));
    assert_eq!(socketpair_check(AF_UNIX, 2, 0), Err(Errno(22)));
    assert_eq!(socketpair_check(2, SOCK_STREAM, 0), Err(Errno(22)));
    assert_eq!(socketpair_check(AF_UNIX, SOCK_STREAM, 6), Err(Errno(22)));
    assert_eq!(listen_backlog(-5), 0);
    assert_eq!(listen_backlog(16), 16);
}

#[test]
fn sending() {
    assert_eq!(sendto_check(0, 0), Ok(()));
    assert_eq!(sendto_check(0x1000, 16), Err(Errno(22)));
    assert_eq!(sendto_check(0, 16), Err(Errno(22)));
    let msg = msghdr { msg_name: 0, msg_namelen: 0, msg_iov: 0x1000, msg_iovlen: 2, msg_control: 0, msg_controllen: 0, msg_flags: 0 };
    assert!(sendmsg_check(Some(&msg)).is_ok());
    assert_eq!(sendmsg_check(None), Err(Errno(22)));
    assert_eq!(sendmsg_check(Some(&msghdr { msg_control: 0x10, ..msg })), Err(Errno(22)));
}

/// Drives `sendmsg`'s steps, each write taking `take(len)` bytes.
fn run_send(iovs: &[iovec], take: impl Fn(usize) -> usize) -> (Vec<usize>, Result<usize, Errno>) {
    let mut written_buffers = Vec::new();
    let mut step = sendmsg_start(iovs);
    loop {
        match step {
            SendStep::Write { index, len, total, .. } => {
                written_buffers.push(index);
                step = sendmsg_after_write(iovs, index, total, take(len));
            }
            SendStep::Done(result) => return (written_buffers, result),
        }
    }
}

#[test]
fn sendmsg_writes_buffers_in_order() {
    let iovs = [
        iovec { iov_base: 0x10, iov_len: 4 },
        iovec { iov_base: 0, iov_len: 0 },
        iovec { iov_base: 0x20, iov_len: 6 },
    ];
    assert_eq!(run_send(&iovs, |len| len), (vec![0, 2], Ok(10)));
    assert_eq!(run_send(&iovs, |len| len - 1), (vec![0], Ok(3)));
    assert_eq!(run_send(&[], |len| len), (vec![], Ok(0)));
    assert_eq!(run_send(&[iovec { iov_base: 0, iov_len: 0 }], |len| len), (vec![], Ok(0)));
}

#[test]
fn sendmsg_refuses_a_buffer_without_address() {
    let iovs = [
        iovec { iov_base: 0x10, iov_len: 4 },
        iovec { iov_base: 0, iov_len: 3 },
        iovec { iov_base: 0x20, iov_len: 6 },
    ];
    assert_eq!(run_send(&iovs, |len| len), (vec![0], Err(Errno(22))));
    assert_eq!(
        sendmsg_start(&iovs),
        SendStep::Write { index: 0, base: 0x10, len: 4, total: 0 }
    );
    assert_eq!(sendmsg_after_write(&iovs, 2, 4, 6), SendStep::Done(Ok(10)));
}

#[test]
fn socketpair_paths() {
    assert_eq!(next_socketpair_path(12, 34, 0), b"/tmp/.relibc-pipe-12-34-0".to_vec());
    assert_eq!(next_socketpair_path(-1, 7, 1234567), b"/tmp/.relibc-pipe--1-7-1234567".to_vec());
    assert_ne!(next_socketpair_path(1, 1, 1), next_socketpair_path(1, 1, 11));
}

/// Drives `socketpair`'s steps, answering each call from `answers` in turn.
fn run_pair(answers: &[Result<i32, Errno>]) -> (Vec<PairCall>, Vec<i32>, Option<i32>, Result<(i32, i32), Errno>) {
    let mut calls = Vec::new();
    let mut step = socketpair_start();
    let mut next = answers.iter();
    loop {
        match step {
            PairStep::Call(progress, call) => {
                calls.push(call);
                step = socketpair_next(progress, *next.next().unwrap());
            }
            PairStep::Finish { close, release_listener, result } => {
                return (calls, close, release_listener, result);
            }
        }
    }
}

#[test]
fn socketpair_sequence_succeeds() {
    let answers = [Ok(10), Ok(0), Ok(0), Ok(11), Ok(0), Ok(12), Ok(0), Ok(0)];
    let (calls, close, release, result) = run_pair(&answers);
    assert_eq!(
        calls,
        vec![
            PairCall::Socket,
            PairCall::Bind(10),
            PairCall::Listen(10),
            PairCall::Socket,
            PairCall::Connect(11),
            PairCall::Accept(10),
            PairCall::ApplyFlags(11),
            PairCall::ApplyFlags(12),
        ]
    );
    assert!(close.is_empty());
    assert_eq!(release, Some(10));
    assert_eq!(result, Ok((11, 12)));
}

#[test]
fn socketpair_sequence_cleans_up() {
    let e = Err(Errno(5));
    let (calls, close, release, result) = run_pair(&[e]);
    assert_eq!((calls.len(), close, release, result), (1, vec![], None, Err(Errno(5))));
    let (_, close, release, _) = run_pair(&[Ok(10), e]);
    assert_eq!((close, release), (vec![], Some(10)));
    let (_, close, release, _) = run_pair(&[Ok(10), Ok(0), Ok(0), Ok(11), e]);
    assert_eq!((close, release), (vec![11], Some(10)));
    let (_, close, _, _) = run_pair(&[Ok(10), Ok(0), Ok(0), Ok(11), Ok(0), e]);
    assert_eq!(close, vec![11]);
    let (_, close, release, result) = run_pair(&[Ok(10), Ok(0), Ok(0), Ok(11), Ok(0), Ok(12), Ok(0), e]);
    assert_eq!((close, release, result), (vec![11, 12], Some(10), Err(Errno(5))));
}
