use relibc::error::Errno;
use relibc::header::nl_types::{catclose, catgets, catopen};
use relibc::header::pty::{forkpty_outcome, openpty_check, ForkptyOutcome};
use relibc::header::sched::{sched_getaffinity, sched_param};
use relibc::header::signal::siginfo_t;
use relibc::header::sys_ipc::ftok_key;
use relibc::header::sys_sysinfo::{sysinfo, sysinfo as SysInfo};
use relibc::header::sys_utsname::{c_chars_to_string, copy_bytes_to_c_chars, utsname};
use relibc::header::sys_wait::{waitid_info, waitid_target, P_ALL, P_PGID, P_PID};
use relibc::platform::seele::abi::SystemInfo;

#[test]
fn affinity_reports_one_cpu() {
    let mut mask = [0xffu8; 4];
    assert_eq!(sched_getaffinity(0, 42, Some(&mut mask)), Ok(()));
    assert_eq!(mask, [1, 0, 0, 0]);
    let mut mask = [0xffu8; 2];
    assert_eq!(sched_getaffinity(42, 42, Some(&mut mask)), Ok(()));
    assert_eq!(mask, [1, 0]);
    let mut mask = [0xffu8; 2];
    assert_eq!(sched_getaffinity(7, 42, Some(&mut mask)), Err(Errno(38)));
    assert_eq!(mask, [0xff, 0xff]);
    assert_eq!(sched_getaffinity(0, 42, None), Err(Errno(22)));
    let mut empty: [u8; 0] = [];
    assert_eq!(sched_getaffinity(0, 42, Some(&mut empty)), Err(Errno(22)));
    assert_eq!(sched_param { sched_priority: 3 }.sched_priority, 3);
}

#[test]
fn waitid_targets() {
    assert_eq!(waitid_target(P_ALL, 99), Ok(-1));
    assert_eq!(waitid_target(P_PID, 12), Ok(12));
    assert_eq!(waitid_target(P_PGID, 12), Ok(-12));
    assert_eq!(waitid_target(P_PID, 0xffff_ffff), Ok(-1));
    assert_eq!(waitid_target(7, 12), Err(Errno(22)));
}

#[test]
fn waitid_records_the_child() {
    let info = waitid_info(31, 256);
    assert_eq!(
        info,
        siginfo_t { si_signo: 0, si_errno: 0, si_code: 0, si_pid: 31, si_uid: 0, si_addr: 0, si_status: 256, si_value: 0 }
    );
}

#[test]
fn sysinfo_reports_byte_units() {
    let mut info = SysInfo {
        uptime: 5,
        loads: [1, 2, 3],
        totalram: 9,
        freeram: 9,
        sharedram: 9,
        bufferram: 9,
        totalswap: 9,
        freeswap: 9,
        procs: 9,
        totalhigh: 9,
        freehigh: 9,
        mem_unit: 9,
        _f: [],
    };
    assert_eq!(sysinfo(&mut info), 0);
    assert_eq!(info.mem_unit, 1);
    assert_eq!(info.uptime, 0);
    assert_eq!(info.loads, [0, 0, 0]);
    assert_eq!((info.totalram, info.freeram, info.procs), (0, 0, 0));
}

#[test]
fn ftok_keys() {
    assert_eq!(ftok_key(0x41, 0x0102, 0x0003_0405) as u32, 0x4102_0405);
    assert_eq!(ftok_key(0x1ff, 0xff, 0xffff_ffff) as u32, 0xffff_ffff);
    assert_eq!(ftok_key(1, 0, 0), 0x0100_0000);
}

#[test]
fn c_string_fields() {
    let mut field = [7i8; 6];
    copy_bytes_to_c_chars(&mut field, b"abc");
    assert_eq!(field, [97, 98, 99, 7, 7, 7]);
    let mut small = [7i8; 3];
    copy_bytes_to_c_chars(&mut small, b"abcdef");
    assert_eq!(small, [97, 98, 7]);
    let mut cut = [7i8; 6];
    copy_bytes_to_c_chars(&mut cut, b"ab\0cd");
    assert_eq!(cut, [97, 98, 7, 7, 7, 7]);
    assert_eq!(c_chars_to_string(&[104, 105, 0, 120]), "hi");
    assert_eq!(c_chars_to_string(&[104, 105]), "hi");
    assert_eq!(c_chars_to_string(&[-1, 0]), "\u{fffd}");
}

#[test]
fn utsname_from_system_info() {
    let uts = utsname::from(SystemInfo::new("Seele", "0.3"));
    assert_eq!(c_chars_to_string(&uts.sysname), "Seele");
    assert_eq!(c_chars_to_string(&uts.release), "0.3");
    assert_eq!(c_chars_to_string(&uts.version), "0.3");
    assert_eq!(c_chars_to_string(&uts.nodename), "");
    let back = SystemInfo::from(uts);
    assert_eq!(back.name(), b"Seele");
    assert_eq!(back.version(), b"0.3");
}

#[test]
fn pty_requests() {
    assert_eq!(openpty_check(false, false, false), Ok(()));
    assert_eq!(openpty_check(true, false, false), Err(Errno(38)));
    assert_eq!(openpty_check(false, true, false), Err(Errno(38)));
    assert_eq!(openpty_check(false, false, true), Err(Errno(38)));
}

#[test]
fn forkpty_outcomes() {
    assert_eq!(
        forkpty_outcome(55, None),
        ForkptyOutcome { pid: 55, errno: None, reap_child: false, keep_master: true }
    );
    assert_eq!(
        forkpty_outcome(55, Some(13)),
        ForkptyOutcome { pid: -1, errno: Some(13), reap_child: true, keep_master: false }
    );
    assert_eq!(
        forkpty_outcome(-1, None),
        ForkptyOutcome { pid: -1, errno: None, reap_child: false, keep_master: false }
    );
}

#[test]
fn message_catalogs_fall_back() {
    let catd = catopen(0x1234, 0);
    assert_ne!(catd, 0);
    assert_eq!(catgets(catd, 1, 2, 0xbeef), 0xbeef);
    assert_eq!(catclose(catd), 0);
}
