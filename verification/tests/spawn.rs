use relibc::header::sched::sched_param;
use relibc::header::spawn::{
    exec_failure_status, posix_spawn_file_actions_addchdir_np, posix_spawn_file_actions_addclose,
    posix_spawn_file_actions_adddup2, posix_spawn_file_actions_addfchdir_np,
    posix_spawn_file_actions_addopen, posix_spawn_file_actions_destroy,
    posix_spawn_file_actions_init, posix_spawn_file_actions_t, posix_spawnattr_destroy,
    posix_spawnattr_getflags, posix_spawnattr_getpgroup, posix_spawnattr_getschedparam,
    posix_spawnattr_getschedpolicy, posix_spawnattr_getsigdefault, posix_spawnattr_getsigmask,
    posix_spawnattr_init, posix_spawnattr_setflags, posix_spawnattr_setpgroup,
    posix_spawnattr_setschedparam, posix_spawnattr_setschedpolicy,
    posix_spawnattr_setsigdefault, posix_spawnattr_setsigmask, posix_spawnattr_t,
    redirect_after_open, spawn_attr_steps, spawn_precheck, FileAction, SpawnAttrSteps,
    POSIX_SPAWN_RESETIDS, POSIX_SPAWN_SETPGROUP, POSIX_SPAWN_SETSIGMASK, POSIX_SPAWN_USEVFORK,
};

const EINVAL: i32 = 22;
const EBADF: i32 = 9;

fn fresh_attr() -> posix_spawnattr_t {
    let mut attr = posix_spawnattr_t {
        __flags: 5,
        __pgroup: 5,
        __sd: 5,
        __ss: 5,
        __sp: sched_param { sched_priority: 5 },
        __policy: 5,
        __pad: [5; 8],
    };
    assert_eq!(posix_spawnattr_init(Some(&mut attr)), 0);
    attr
}

fn fresh_actions() -> posix_spawn_file_actions_t {
    let mut actions = posix_spawn_file_actions_t { __actions: None, __pad: [1; 15] };
    assert_eq!(posix_spawn_file_actions_init(Some(&mut actions)), 0);
    actions
}

#[test]
fn attr_init_zeroes_everything() {
    let attr = fresh_attr();
    assert_eq!((attr.__flags, attr.__pgroup, attr.__sd, attr.__ss, attr.__policy), (0, 0, 0, 0, 0));
    assert_eq!(attr.__sp.sched_priority, 0);
    assert_eq!(attr.__pad, [0; 8]);
    assert_eq!(posix_spawnattr_init(None), EINVAL);
    assert_eq!(posix_spawnattr_destroy(Some(&attr)), 0);
    assert_eq!(posix_spawnattr_destroy(None), EINVAL);
}

#[test]
fn attributes_read_back() {
    let mut attr = fresh_attr();
    assert_eq!(posix_spawnattr_setflags(Some(&mut attr), POSIX_SPAWN_SETPGROUP), 0);
    assert_eq!(posix_spawnattr_setpgroup(Some(&mut attr), 77), 0);
    assert_eq!(posix_spawnattr_setsigmask(Some(&mut attr), Some(&0b101)), 0);
    assert_eq!(posix_spawnattr_setsigdefault(Some(&mut attr), Some(&0b11)), 0);
    assert_eq!(posix_spawnattr_setschedparam(Some(&mut attr), Some(&sched_param { sched_priority: 4 })), 0);
    assert_eq!(posix_spawnattr_setschedpolicy(Some(&mut attr), 2), 0);

    let mut flags = 0;
    assert_eq!(posix_spawnattr_getflags(Some(&attr), Some(&mut flags)), 0);
    assert_eq!(flags, POSIX_SPAWN_SETPGROUP);
    let mut pgroup = 0;
    assert_eq!(posix_spawnattr_getpgroup(Some(&attr), Some(&mut pgroup)), 0);
    assert_eq!(pgroup, 77);
    let mut mask = 0;
    assert_eq!(posix_spawnattr_getsigmask(Some(&attr), Some(&mut mask)), 0);
    assert_eq!(mask, 0b101);
    let mut default = 0;
    assert_eq!(posix_spawnattr_getsigdefault(Some(&attr), Some(&mut default)), 0);
    assert_eq!(default, 0b11);
    let mut param = sched_param { sched_priority: 0 };
    assert_eq!(posix_spawnattr_getschedparam(Some(&attr), Some(&mut param)), 0);
    assert_eq!(param.sched_priority, 4);
    let mut policy = 0;
    assert_eq!(posix_spawnattr_getschedpolicy(Some(&attr), Some(&mut policy)), 0);
    assert_eq!(policy, 2);
}

#[test]
fn attribute_calls_need_both_pointers() {
    let mut attr = fresh_attr();
    let mut flags = 9;
    assert_eq!(posix_spawnattr_getflags(None, Some(&mut flags)), EINVAL);
    assert_eq!(flags, 9);
    assert_eq!(posix_spawnattr_getflags(Some(&attr), None), EINVAL);
    assert_eq!(posix_spawnattr_setflags(None, 1), EINVAL);
    assert_eq!(posix_spawnattr_setsigmask(Some(&mut attr), None), EINVAL);
    assert_eq!(attr.__ss, 0);
    assert_eq!(posix_spawnattr_setschedparam(None, Some(&sched_param { sched_priority: 1 })), EINVAL);
}

#[test]
fn file_actions_are_recorded_in_order() {
    let mut actions = fresh_actions();
    assert_eq!(actions.__pad, [0; 15]);
    assert_eq!(posix_spawn_file_actions_addopen(Some(&mut actions), 3, Some(b"/etc/motd\0junk"), 0, 0o644), 0);
    assert_eq!(posix_spawn_file_actions_addclose(Some(&mut actions), 4), 0);
    assert_eq!(posix_spawn_file_actions_adddup2(Some(&mut actions), 3, 1), 0);
    assert_eq!(posix_spawn_file_actions_addchdir_np(Some(&mut actions), Some(b"/tmp")), 0);
    assert_eq!(posix_spawn_file_actions_addfchdir_np(Some(&mut actions), 5), 0);
    let list = actions.__actions.as_ref().unwrap();
    assert_eq!(list.len(), 5);
    assert!(matches!(&list[0], FileAction::Open { fd: 3, path, oflag: 0, mode: 0o644 } if path == b"/etc/motd"));
    assert!(matches!(list[1], FileAction::Close(4)));
    assert!(matches!(list[2], FileAction::Dup2 { src: 3, dst: 1 }));
    assert!(matches!(&list[3], FileAction::Chdir(path) if path == b"/tmp"));
    assert!(matches!(list[4], FileAction::Fchdir(5)));
}

#[test]
fn file_action_errors() {
    let mut actions = fresh_actions();
    assert_eq!(posix_spawn_file_actions_adddup2(Some(&mut actions), -1, 1), EBADF);
    assert_eq!(posix_spawn_file_actions_adddup2(Some(&mut actions), 1, -1), EBADF);
    assert_eq!(posix_spawn_file_actions_addfchdir_np(Some(&mut actions), -3), EBADF);
    assert_eq!(posix_spawn_file_actions_addopen(Some(&mut actions), 3, None, 0, 0), EINVAL);
    assert_eq!(posix_spawn_file_actions_addchdir_np(Some(&mut actions), None), EINVAL);
    assert_eq!(posix_spawn_file_actions_addclose(None, 1), EINVAL);
    assert!(actions.__actions.as_ref().unwrap().is_empty());
    assert_eq!(posix_spawn_file_actions_destroy(Some(&mut actions)), 0);
    assert!(actions.__actions.is_none());
    assert_eq!(posix_spawn_file_actions_addclose(Some(&mut actions), 1), EINVAL);
    assert_eq!(posix_spawn_file_actions_destroy(None), EINVAL);
    assert_eq!(posix_spawn_file_actions_init(None), EINVAL);
}

#[test]
fn spawn_checks() {
    let actions = fresh_actions();
    let stale = posix_spawn_file_actions_t { __actions: None, __pad: [0; 15] };
    assert_eq!(spawn_precheck(true, true, true, None), 0);
    assert_eq!(spawn_precheck(true, true, true, Some(&actions)), 0);
    assert_eq!(spawn_precheck(true, true, true, Some(&stale)), EINVAL);
    assert_eq!(spawn_precheck(false, true, true, None), EINVAL);
    assert_eq!(spawn_precheck(true, false, true, None), EINVAL);
    assert_eq!(spawn_precheck(true, true, false, None), EINVAL);
}

#[test]
fn spawned_child_steps() {
    assert_eq!(spawn_attr_steps(None), SpawnAttrSteps { sigmask: None, pgroup: None, unsupported: false });
    let mut attr = fresh_attr();
    posix_spawnattr_setflags(Some(&mut attr), POSIX_SPAWN_SETSIGMASK | POSIX_SPAWN_SETPGROUP);
    posix_spawnattr_setsigmask(Some(&mut attr), Some(&0b10));
    posix_spawnattr_setpgroup(Some(&mut attr), 12);
    assert_eq!(spawn_attr_steps(Some(&attr)), SpawnAttrSteps { sigmask: Some(0b10), pgroup: Some(12), unsupported: false });
    posix_spawnattr_setflags(Some(&mut attr), POSIX_SPAWN_RESETIDS);
    assert_eq!(spawn_attr_steps(Some(&attr)), SpawnAttrSteps { sigmask: None, pgroup: None, unsupported: true });
    posix_spawnattr_setflags(Some(&mut attr), POSIX_SPAWN_USEVFORK | POSIX_SPAWN_SETSIGMASK);
    assert_eq!(spawn_attr_steps(Some(&attr)), SpawnAttrSteps { sigmask: Some(0b10), pgroup: None, unsupported: true });
}

#[test]
fn child_exit_statuses() {
    assert_eq!(redirect_after_open(7, 3), Some((7, 3)));
    assert_eq!(redirect_after_open(3, 3), None);
    assert_eq!(exec_failure_status(2), 127);
    assert_eq!(exec_failure_status(13), 126);
}
