//! `sys/ipc.h`: IPC permissions and `ftok` keys.

use crate::platform::types::{c_int, c_uint, dev_t, gid_t, ino_t, key_t, mode_t, uid_t};
use vstd::prelude::*;

verus! {

pub const IPC_CREAT: c_int = 0o1000;
pub const IPC_EXCL: c_int = 0o2000;
pub const IPC_NOWAIT: c_int = 0o4000;

pub const IPC_PRIVATE: key_t = 0;

pub const IPC_RMID: c_int = 0;
pub const IPC_SET: c_int = 1;
pub const IPC_STAT: c_int = 2;

pub const IPC_INFO: c_int = 3;
pub const MSG_STAT: c_int = 11;
pub const MSG_INFO: c_int = 12;
pub const SEM_STAT: c_int = 18;
pub const SEM_INFO: c_int = 19;
pub const SHM_STAT: c_int = 13;
pub const SHM_INFO: c_int = 14;

/// The owner and permissions of an IPC object.
#[derive(Clone, Copy, Debug, Default, PartialEq, Eq, Structural)]
pub struct ipc_perm {
    pub __key: key_t,
    pub uid: uid_t,
    pub gid: gid_t,
    pub cuid: uid_t,
    pub cgid: gid_t,
    pub mode: mode_t,
    pub __seq: c_uint,
}

/// The `ftok` key of project `id` for the file on device `st_dev` with
/// inode `st_ino`: the low byte of `id`, then the low byte of the device,
/// then the low 16 bits of the inode.
pub fn ftok_key(id: c_int, st_dev: dev_t, st_ino: ino_t) -> (key: key_t)
    ensures
        key as u32 == ((id as u8) as u32) * 0x100_0000 + ((st_dev as u8) as u32) * 0x1_0000 + ((
        st_ino as u16) as u32),
{
    let dev = st_dev as c_int;
    let ino = st_ino as c_int;
    let key = ((id & 0xff) << 24) | ((dev & 0xff) << 16) | (ino & 0xffff);
    assert(key as u32 == ((id as u8) as u32) * 0x100_0000 + ((dev as u8) as u32) * 0x1_0000 + ((
    ino as u16) as u32)) by (bit_vector)
        requires
            key == ((id & 0xff) << 24) | ((dev & 0xff) << 16) | (ino & 0xffff),
    ;
    assert((dev as u8) == (st_dev as u8) && (ino as u16) == (st_ino as u16)) by (bit_vector)
        requires
            dev == st_dev as c_int,
            ino == st_ino as c_int,
    ;
    key
}

} // verus!
