//! `spawn.h`: spawn attributes and file actions, and the decisions that
//! `posix_spawn` makes around `fork` and `exec`.

use crate::header::errno::{EBADF, EINVAL, ENOENT};
use crate::header::sched::sched_param;
use crate::header::signal::sigset_t;
use crate::header::sys_utsname::{lemma_nul_prefix_len, nul_position, nul_prefix_len};
use crate::platform::types::{c_int, c_short, mode_t, pid_t};
use vstd::prelude::*;

verus! {

pub const POSIX_SPAWN_RESETIDS: c_short = 0x01;
pub const POSIX_SPAWN_SETPGROUP: c_short = 0x02;
pub const POSIX_SPAWN_SETSIGDEF: c_short = 0x04;
pub const POSIX_SPAWN_SETSIGMASK: c_short = 0x08;
pub const POSIX_SPAWN_SETSCHEDPARAM: c_short = 0x10;
pub const POSIX_SPAWN_SETSCHEDULER: c_short = 0x20;
pub const POSIX_SPAWN_USEVFORK: c_short = 0x40;

/// The flags whose effect Seele cannot apply in a spawned child.
pub const POSIX_SPAWN_UNSUPPORTED: c_short = POSIX_SPAWN_RESETIDS | POSIX_SPAWN_SETSIGDEF
    | POSIX_SPAWN_SETSCHEDPARAM | POSIX_SPAWN_SETSCHEDULER | POSIX_SPAWN_USEVFORK;

/// Spawn attributes.
#[derive(Clone, Copy, Debug)]
pub struct posix_spawnattr_t {
    pub __flags: c_short,
    pub __pgroup: pid_t,
    pub __sd: sigset_t,
    pub __ss: sigset_t,
    pub __sp: sched_param,
    pub __policy: c_int,
    pub __pad: [c_int; 8],
}

/// `attr` is as `posix_spawnattr_init` leaves it: everything zero.
pub open spec fn is_initial_spawnattr(attr: posix_spawnattr_t) -> bool {
    &&& attr.__flags == 0
    &&& attr.__pgroup == 0
    &&& attr.__sd == 0
    &&& attr.__ss == 0
    &&& attr.__sp.sched_priority == 0
    &&& attr.__policy == 0
    &&& attr.__pad@ == Seq::new(8, |i: int| 0i32)
}

/// Resets `attr` (`None` for a null pointer, which fails with `EINVAL`).
pub fn posix_spawnattr_init(attr: Option<&mut posix_spawnattr_t>) -> (r: c_int)
    ensures
        match attr {
            None => r == EINVAL,
            Some(a) => r == 0 && is_initial_spawnattr(*final(a)),
        },
{
    match attr {
        None => EINVAL,
        Some(a) => {
            *a = posix_spawnattr_t {
                __flags: 0,
                __pgroup: 0,
                __sd: 0,
                __ss: 0,
                __sp: sched_param { sched_priority: 0 },
                __policy: 0,
                __pad: [0; 8],
            };
            assert(a.__pad@ =~= Seq::new(8, |i: int| 0i32));
            0
        },
    }
}

/// Releases `attr`; there is nothing to release, so only a null pointer
/// fails (`EINVAL`).
pub fn posix_spawnattr_destroy(attr: Option<&posix_spawnattr_t>) -> (r: c_int)
    ensures
        r == if attr is Some { 0 } else { EINVAL },
{
    if attr.is_none() {
        return EINVAL;
    }
    0
}

/// Sets the spawn flags.
pub fn posix_spawnattr_setflags(attr: Option<&mut posix_spawnattr_t>, flags: c_short) -> (r: c_int)
    ensures
        match attr {
            None => r == EINVAL,
            Some(a) => r == 0 && *final(a) == (posix_spawnattr_t { __flags: flags, ..*a }),
        },
{
    match attr {
        None => EINVAL,
        Some(a) => {
            a.__flags = flags;
            0
        },
    }
}

/// Reads the spawn flags into `flags`.
pub fn posix_spawnattr_getflags(attr: Option<&posix_spawnattr_t>, flags: Option<&mut c_short>) -> (r:
    c_int)
    ensures
        r == if attr is Some && flags is Some { 0 } else { EINVAL },
        match flags {
            None => true,
            Some(f) => *final(f) == match attr {
                Some(a) => a.__flags,
                None => *f,
            },
        },
{
    match (attr, flags) {
        (Some(a), Some(f)) => {
            *f = a.__flags;
            0
        },
        _ => EINVAL,
    }
}

/// Sets the process group a spawned child joins.
pub fn posix_spawnattr_setpgroup(attr: Option<&mut posix_spawnattr_t>, pgroup: pid_t) -> (r: c_int)
    ensures
        match attr {
            None => r == EINVAL,
            Some(a) => r == 0 && *final(a) == (posix_spawnattr_t { __pgroup: pgroup, ..*a }),
        },
{
    match attr {
        None => EINVAL,
        Some(a) => {
            a.__pgroup = pgroup;
            0
        },
    }
}

/// Reads the process group a spawned child joins into `pgroup`.
pub fn posix_spawnattr_getpgroup(attr: Option<&posix_spawnattr_t>, pgroup: Option<&mut pid_t>) -> (r:
    c_int)
    ensures
        r == if attr is Some && pgroup is Some { 0 } else { EINVAL },
        match pgroup {
            None => true,
            Some(v) => *final(v) == match attr {
                Some(a) => a.__pgroup,
                None => *v,
            },
        },
{
    match (attr, pgroup) {
        (Some(a), Some(v)) => {
            *v = a.__pgroup;
            0
        },
        _ => EINVAL,
    }
}

/// Sets the signal mask of a spawned child from `sigmask` (`None` for a null pointer).
pub fn posix_spawnattr_setsigmask(attr: Option<&mut posix_spawnattr_t>, sigmask: Option<&sigset_t>) -> (r:
    c_int)
    ensures
        r == if attr is Some && sigmask is Some { 0 } else { EINVAL },
        match attr {
            None => true,
            Some(a) => *final(a) == match sigmask {
                Some(v) => (posix_spawnattr_t { __ss: *v, ..*a }),
                None => *a,
            },
        },
{
    match (attr, sigmask) {
        (Some(a), Some(v)) => {
            a.__ss = *v;
            0
        },
        _ => EINVAL,
    }
}

/// Reads the signal mask of a spawned child into `sigmask`.
pub fn posix_spawnattr_getsigmask(attr: Option<&posix_spawnattr_t>, sigmask: Option<&mut sigset_t>) -> (r:
    c_int)
    ensures
        r == if attr is Some && sigmask is Some { 0 } else { EINVAL },
        match sigmask {
            None => true,
            Some(v) => *final(v) == match attr {
                Some(a) => a.__ss,
                None => *v,
            },
        },
{
    match (attr, sigmask) {
        (Some(a), Some(v)) => {
            *v = a.__ss;
            0
        },
        _ => EINVAL,
    }
}

/// Sets the signals a spawned child resets to their default action from `sigdefault` (`None` for a null pointer).
pub fn posix_spawnattr_setsigdefault(attr: Option<&mut posix_spawnattr_t>, sigdefault: Option<&sigset_t>) -> (r:
    c_int)
    ensures
        r == if attr is Some && sigdefault is Some { 0 } else { EINVAL },
        match attr {
            None => true,
            Some(a) => *final(a) == match sigdefault {
                Some(v) => (posix_spawnattr_t { __sd: *v, ..*a }),
                None => *a,
            },
        },
{
    match (attr, sigdefault) {
        (Some(a), Some(v)) => {
            a.__sd = *v;
            0
        },
        _ => EINVAL,
    }
}

/// Reads the signals a spawned child resets to their default action into `sigdefault`.
pub fn posix_spawnattr_getsigdefault(attr: Option<&posix_spawnattr_t>, sigdefault: Option<&mut sigset_t>) -> (r:
    c_int)
    ensures
        r == if attr is Some && sigdefault is Some { 0 } else { EINVAL },
        match sigdefault {
            None => true,
            Some(v) => *final(v) == match attr {
                Some(a) => a.__sd,
                None => *v,
            },
        },
{
    match (attr, sigdefault) {
        (Some(a), Some(v)) => {
            *v = a.__sd;
            0
        },
        _ => EINVAL,
    }
}

/// Sets the scheduling parameters of a spawned child from `schedparam` (`None` for a null pointer).
pub fn posix_spawnattr_setschedparam(attr: Option<&mut posix_spawnattr_t>, schedparam: Option<&sched_param>) -> (r:
    c_int)
    ensures
        r == if attr is Some && schedparam is Some { 0 } else { EINVAL },
        match attr {
            None => true,
            Some(a) => *final(a) == match schedparam {
                Some(v) => (posix_spawnattr_t { __sp: *v, ..*a }),
                None => *a,
            },
        },
{
    match (attr, schedparam) {
        (Some(a), Some(v)) => {
            a.__sp = *v;
            0
        },
        _ => EINVAL,
    }
}

/// Reads the scheduling parameters of a spawned child into `schedparam`.
pub fn posix_spawnattr_getschedparam(attr: Option<&posix_spawnattr_t>, schedparam: Option<&mut sched_param>) -> (r:
    c_int)
    ensures
        r == if attr is Some && schedparam is Some { 0 } else { EINVAL },
        match schedparam {
            None => true,
            Some(v) => *final(v) == match attr {
                Some(a) => a.__sp,
                None => *v,
            },
        },
{
    match (attr, schedparam) {
        (Some(a), Some(v)) => {
            *v = a.__sp;
            0
        },
        _ => EINVAL,
    }
}

/// Sets the scheduling policy of a spawned child.
pub fn posix_spawnattr_setschedpolicy(attr: Option<&mut posix_spawnattr_t>, schedpolicy: c_int) -> (r: c_int)
    ensures
        match attr {
            None => r == EINVAL,
            Some(a) => r == 0 && *final(a) == (posix_spawnattr_t { __policy: schedpolicy, ..*a }),
        },
{
    match attr {
        None => EINVAL,
        Some(a) => {
            a.__policy = schedpolicy;
            0
        },
    }
}

/// Reads the scheduling policy of a spawned child into `schedpolicy`.
pub fn posix_spawnattr_getschedpolicy(attr: Option<&posix_spawnattr_t>, schedpolicy: Option<&mut c_int>) -> (r:
    c_int)
    ensures
        r == if attr is Some && schedpolicy is Some { 0 } else { EINVAL },
        match schedpolicy {
            None => true,
            Some(v) => *final(v) == match attr {
                Some(a) => a.__policy,
                None => *v,
            },
        },
{
    match (attr, schedpolicy) {
        (Some(a), Some(v)) => {
            *v = a.__policy;
            0
        },
        _ => EINVAL,
    }
}

/// Each attribute reads back as it was last set: setting the flags, the
/// process group, the signal mask, the default-signal set, the scheduling
/// parameters or the policy of `attr` changes that attribute alone, to the
/// value given.
pub proof fn lemma_spawnattr_reads_back(
    attr: posix_spawnattr_t,
    flags: c_short,
    pgroup: pid_t,
    sigmask: sigset_t,
    sigdefault: sigset_t,
    param: sched_param,
    policy: c_int,
)
    ensures
        ({
            let a = posix_spawnattr_t { __flags: flags, ..attr };
            a.__flags == flags && a.__pgroup == attr.__pgroup && a.__ss == attr.__ss && a.__sd
                == attr.__sd && a.__sp == attr.__sp && a.__policy == attr.__policy
        }),
        ({
            let a = posix_spawnattr_t { __pgroup: pgroup, ..attr };
            a.__pgroup == pgroup && a.__flags == attr.__flags && a.__ss == attr.__ss
        }),
        (posix_spawnattr_t { __ss: sigmask, ..attr }).__ss == sigmask,
        (posix_spawnattr_t { __sd: sigdefault, ..attr }).__sd == sigdefault,
        (posix_spawnattr_t { __sp: param, ..attr }).__sp == param,
        (posix_spawnattr_t { __policy: policy, ..attr }).__policy == policy,
{
}

/// One step that a spawned child takes before it runs the new program.
/// Paths are held without their terminating NUL.
#[derive(Debug)]
pub enum FileAction {
    Open { fd: c_int, path: Vec<u8>, oflag: c_int, mode: mode_t },
    Close(c_int),
    Dup2 { src: c_int, dst: c_int },
    Chdir(Vec<u8>),
    Fchdir(c_int),
}

/// A list of file actions; `__actions` is `None` before
/// `posix_spawn_file_actions_init` and after `posix_spawn_file_actions_destroy`.
#[derive(Debug)]
pub struct posix_spawn_file_actions_t {
    pub __actions: Option<Vec<FileAction>>,
    pub __pad: [usize; 15],
}

/// The actions recorded in `actions`, if it is initialised.
pub open spec fn recorded_actions(actions: &posix_spawn_file_actions_t) -> Option<Seq<FileAction>> {
    match actions.__actions {
        Some(v) => Some(v@),
        None => None,
    }
}

/// The C string held by the buffer `s`: its bytes before the first NUL.
pub open spec fn c_string(s: Seq<u8>) -> Seq<u8> {
    s.take(nul_prefix_len(s, 0u8) as int)
}

/// A copy of the C string in `s` (`None` for a null pointer, which fails
/// with `EINVAL`).
fn clone_c_string(s: Option<&[u8]>) -> (r: Result<Vec<u8>, c_int>)
    ensures
        match s {
            None => r == Err::<Vec<u8>, c_int>(EINVAL),
            Some(bytes) => r matches Ok(v) && v@ == c_string(bytes@),
        },
{
    let bytes = match s {
        None => return Err(EINVAL),
        Some(bytes) => bytes,
    };
    let n = nul_position(bytes);
    proof {
        lemma_nul_prefix_len(bytes@, 0u8);
    }
    let mut v: Vec<u8> = Vec::new();
    let mut i: usize = 0;
    while i < n
        invariant
            n <= bytes@.len(),
            i <= n,
            v@ == bytes@.take(i as int),
        decreases n - i,
    {
        v.push(bytes[i]);
        i += 1;
        assert(v@ =~= bytes@.take(i as int));
    }
    Ok(v)
}

/// Starts an empty list of file actions (`None` for a null pointer, which
/// fails with `EINVAL`).
pub fn posix_spawn_file_actions_init(actions: Option<&mut posix_spawn_file_actions_t>) -> (r: c_int)
    ensures
        match actions {
            None => r == EINVAL,
            Some(a) => r == 0 && recorded_actions(final(a)) == Some(Seq::<FileAction>::empty())
                && final(a).__pad@ == Seq::new(15, |i: int| 0usize),
        },
{
    match actions {
        None => EINVAL,
        Some(a) => {
            a.__actions = Some(Vec::new());
            a.__pad = [0; 15];
            assert(a.__pad@ =~= Seq::new(15, |i: int| 0usize));
            0
        },
    }
}

/// Drops the list of file actions (`None` for a null pointer, which fails
/// with `EINVAL`).
pub fn posix_spawn_file_actions_destroy(actions: Option<&mut posix_spawn_file_actions_t>) -> (r:
    c_int)
    ensures
        match actions {
            None => r == EINVAL,
            Some(a) => r == 0 && recorded_actions(final(a)) is None && final(a).__pad == a.__pad,
        },
{
    match actions {
        None => EINVAL,
        Some(a) => {
            a.__actions = None;
            0
        },
    }
}

/// Appends `action` to the list; a null pointer or a list that was never
/// initialised fails with `EINVAL` and changes nothing.
fn push_file_action(actions: Option<&mut posix_spawn_file_actions_t>, action: FileAction) -> (r:
    c_int)
    ensures
        match actions {
            None => r == EINVAL,
            Some(a) => final(a).__pad == a.__pad && match recorded_actions(a) {
                None => r == EINVAL && recorded_actions(final(a)) is None,
                Some(list) => r == 0 && recorded_actions(final(a)) == Some(list.push(action)),
            },
        },
{
    match actions {
        None => EINVAL,
        Some(a) => match &mut a.__actions {
            None => EINVAL,
            Some(list) => {
                list.push(action);
                0
            },
        },
    }
}


/// `action` opens `path` as descriptor `fd` with `oflag` and `mode`.
pub open spec fn opens(action: FileAction, fd: c_int, path: Seq<u8>, oflag: c_int, mode: mode_t) -> bool {
    match action {
        FileAction::Open { fd: f, path: p, oflag: o, mode: m } => f == fd && p@ == path && o == oflag
            && m == mode,
        _ => false,
    }
}

/// `action` changes the working directory to `path`.
pub open spec fn changes_dir_to(action: FileAction, path: Seq<u8>) -> bool {
    match action {
        FileAction::Chdir(p) => p@ == path,
        _ => false,
    }
}

/// Appends an action that opens the C string `path` as descriptor `fd`.
/// A null or uninitialised list, or a null path, fails with `EINVAL` and
/// changes nothing.
pub fn posix_spawn_file_actions_addopen(
    actions: Option<&mut posix_spawn_file_actions_t>,
    fd: c_int,
    path: Option<&[u8]>,
    oflag: c_int,
    mode: mode_t,
) -> (r: c_int)
    ensures
        match actions {
            None => r == EINVAL,
            Some(a) => final(a).__pad == a.__pad && match recorded_actions(a) {
                None => r == EINVAL && recorded_actions(final(a)) is None,
                Some(list) => match path {
                    None => r == EINVAL && recorded_actions(final(a)) == Some(list),
                    Some(p) => r == 0 && (recorded_actions(final(a)) matches Some(new_list)
                        && new_list.len() == list.len() + 1 && new_list.drop_last() == list
                        && opens(new_list.last(), fd, c_string(p@), oflag, mode)),
                },
            },
        },
{
    let (actions, path) = match (actions, path) {
        (Some(a), Some(p)) => (a, p),
        _ => return EINVAL,
    };
    if actions.__actions.is_none() {
        return EINVAL;
    }
    let path = match clone_c_string(Some(path)) {
        Ok(v) => v,
        Err(e) => return e,
    };
    let ghost copied = path@;
    let action = FileAction::Open { fd, path, oflag, mode };
    assert(opens(action, fd, copied, oflag, mode));
    push_file_action(Some(actions), action)
}

/// Appends an action that closes `fd`. A null or uninitialised list fails
/// with `EINVAL` and changes nothing.
pub fn posix_spawn_file_actions_addclose(actions: Option<&mut posix_spawn_file_actions_t>, fd: c_int) -> (r: c_int)
    ensures
        match actions {
            None => r == EINVAL,
            Some(a) => final(a).__pad == a.__pad && match recorded_actions(a) {
                None => r == EINVAL && recorded_actions(final(a)) is None,
                Some(list) => r == 0 && recorded_actions(final(a)) == Some(list.push(FileAction::Close(fd))),
            },
        },
{
    push_file_action(actions, FileAction::Close(fd))
}

/// Appends an action that duplicates `fd` onto `newfd`. A negative
/// descriptor fails with `EBADF`, a null or uninitialised list with
/// `EINVAL`; neither changes anything.
pub fn posix_spawn_file_actions_adddup2(actions: Option<&mut posix_spawn_file_actions_t>, fd: c_int, newfd: c_int) -> (r: c_int)
    ensures
        match actions {
            None => r == if fd < 0 || newfd < 0 { EBADF } else { EINVAL },
            Some(a) => final(a).__pad == a.__pad && if fd < 0 || newfd < 0 {
                r == EBADF && recorded_actions(final(a)) == recorded_actions(a)
            } else {
                match recorded_actions(a) {
                    None => r == EINVAL && recorded_actions(final(a)) is None,
                    Some(list) => r == 0 && recorded_actions(final(a)) == Some(list.push(FileAction::Dup2 { src: fd, dst: newfd })),
                }
            },
        },
{
    if fd < 0 || newfd < 0 {
        return EBADF;
    }
    push_file_action(actions, FileAction::Dup2 { src: fd, dst: newfd })
}

/// Appends an action that changes the working directory to the C string
/// `path`. A null or uninitialised list, or a null path, fails with
/// `EINVAL` and changes nothing.
pub fn posix_spawn_file_actions_addchdir_np(actions: Option<&mut posix_spawn_file_actions_t>, path: Option<&[u8]>) -> (r: c_int)
    ensures
        match actions {
            None => r == EINVAL,
            Some(a) => final(a).__pad == a.__pad && match recorded_actions(a) {
                None => r == EINVAL && recorded_actions(final(a)) is None,
                Some(list) => match path {
                    None => r == EINVAL && recorded_actions(final(a)) == Some(list),
                    Some(p) => r == 0 && (recorded_actions(final(a)) matches Some(new_list)
                        && new_list.len() == list.len() + 1 && new_list.drop_last() == list
                        && changes_dir_to(new_list.last(), c_string(p@))),
                },
            },
        },
{
    let (actions, path) = match (actions, path) {
        (Some(a), Some(p)) => (a, p),
        _ => return EINVAL,
    };
    if actions.__actions.is_none() {
        return EINVAL;
    }
    let path = match clone_c_string(Some(path)) {
        Ok(v) => v,
        Err(e) => return e,
    };
    let ghost copied = path@;
    let action = FileAction::Chdir(path);
    assert(changes_dir_to(action, copied));
    push_file_action(Some(actions), action)
}

/// Appends an action that changes the working directory to the one open
/// as `fd`. A negative descriptor fails with `EBADF`, a null or
/// uninitialised list with `EINVAL`; neither changes anything.
pub fn posix_spawn_file_actions_addfchdir_np(actions: Option<&mut posix_spawn_file_actions_t>, fd: c_int) -> (r: c_int)
    ensures
        match actions {
            None => r == if fd < 0 { EBADF } else { EINVAL },
            Some(a) => final(a).__pad == a.__pad && if fd < 0 {
                r == EBADF && recorded_actions(final(a)) == recorded_actions(a)
            } else {
                match recorded_actions(a) {
                    None => r == EINVAL && recorded_actions(final(a)) is None,
                    Some(list) => r == 0 && recorded_actions(final(a)) == Some(list.push(FileAction::Fchdir(fd))),
                }
            },
        },
{
    if fd < 0 {
        return EBADF;
    }
    push_file_action(actions, FileAction::Fchdir(fd))
}


/// What `posix_spawn` checks before it forks: the child id, path and
/// argument vector must be given (`EINVAL` otherwise), and file actions, if
/// given, must have been initialised (`EINVAL` otherwise). 0 means go on.
pub fn spawn_precheck(
    has_pid: bool,
    has_path: bool,
    has_argv: bool,
    file_actions: Option<&posix_spawn_file_actions_t>,
) -> (r: c_int)
    ensures
        r == if !has_pid || !has_path || !has_argv {
            EINVAL
        } else if file_actions matches Some(a) && a.__actions is None {
            EINVAL
        } else {
            0
        },
{
    if !has_pid || !has_path || !has_argv {
        return EINVAL;
    }
    match file_actions {
        Some(a) => if a.__actions.is_none() {
            EINVAL
        } else {
            0
        },
        None => 0,
    }
}

/// What a spawned child does with its attributes, in order: set its signal
/// mask, join a process group, then fail with `ENOSYS` if a flag asks for
/// something Seele cannot do.
#[derive(Clone, Copy, Debug, PartialEq, Eq, Structural)]
pub struct SpawnAttrSteps {
    pub sigmask: Option<sigset_t>,
    pub pgroup: Option<pid_t>,
    pub unsupported: bool,
}

/// The steps that the attributes `attr` (`None` for none) call for.
pub fn spawn_attr_steps(attr: Option<&posix_spawnattr_t>) -> (steps: SpawnAttrSteps)
    ensures
        match attr {
            None => steps == (SpawnAttrSteps { sigmask: None, pgroup: None, unsupported: false }),
            Some(a) => steps == (SpawnAttrSteps {
                sigmask: if a.__flags & POSIX_SPAWN_SETSIGMASK != 0 { Some(a.__ss) } else { None },
                pgroup: if a.__flags & POSIX_SPAWN_SETPGROUP != 0 { Some(a.__pgroup) } else { None },
                unsupported: a.__flags & POSIX_SPAWN_UNSUPPORTED != 0,
            }),
        },
{
    match attr {
        None => SpawnAttrSteps { sigmask: None, pgroup: None, unsupported: false },
        Some(a) => SpawnAttrSteps {
            sigmask: if a.__flags & POSIX_SPAWN_SETSIGMASK != 0 { Some(a.__ss) } else { None },
            pgroup: if a.__flags & POSIX_SPAWN_SETPGROUP != 0 { Some(a.__pgroup) } else { None },
            unsupported: a.__flags & POSIX_SPAWN_UNSUPPORTED != 0,
        },
    }
}

/// The `dup2` that follows opening a file for an `Open` action: the file
/// came back as `opened` and must end up as `fd`.
pub fn redirect_after_open(opened: c_int, fd: c_int) -> (dup: Option<(c_int, c_int)>)
    ensures
        dup == if opened != fd { Some((opened, fd)) } else { None::<(c_int, c_int)> },
{
    if opened != fd {
        Some((opened, fd))
    } else {
        None
    }
}

/// The exit status of a spawned child whose set-up failed.
pub const SPAWN_SETUP_FAILED: c_int = 127;

/// The exit status of a spawned child whose `exec` failed with `errno`:
/// 127 when the program was not found, else 126.
pub fn exec_failure_status(errno: c_int) -> (status: c_int)
    ensures
        status == if errno == ENOENT { 127i32 } else { 126i32 },
{
    if errno == ENOENT {
        127
    } else {
        126
    }
}

} // verus!
