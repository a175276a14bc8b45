//! File-system calls on Seele that are decided without the
//! kernel: seeking (unsupported), `fstatvfs` (unsupported), and walking the
//! directory records that the kernel fills in.

use crate::error::Errno;
use crate::header::errno::EIO;
use crate::header::sys_statvfs::{fsblkcnt_t, fsfilcnt_t, statvfs};
use crate::platform::seele::Sys;
use crate::platform::types::{c_int, c_long, off_t};
use vstd::prelude::*;

verus! {

/// The statistics record of the Linux `fstatfs` call.
#[derive(Clone, Copy, Debug)]
pub struct linux_statfs {
    pub f_type: c_long,
    pub f_bsize: c_long,
    pub f_blocks: fsblkcnt_t,
    pub f_bfree: fsblkcnt_t,
    pub f_bavail: fsblkcnt_t,
    pub f_files: fsfilcnt_t,
    pub f_ffree: fsfilcnt_t,
    pub f_fsid: c_long,
    pub f_namelen: c_long,
    pub f_frsize: c_long,
    pub f_flags: c_long,
    pub f_spare: [c_long; 4],
}

/// The `statvfs` record that describes the same file system as `k`: the
/// fragment size falls back to the block size when it is 0, and every free
/// file node counts as available.
pub open spec fn statvfs_of(k: linux_statfs) -> statvfs {
    statvfs {
        f_bsize: k.f_bsize as u64,
        f_frsize: (if k.f_frsize != 0 { k.f_frsize } else { k.f_bsize }) as u64,
        f_blocks: k.f_blocks,
        f_bfree: k.f_bfree,
        f_bavail: k.f_bavail,
        f_files: k.f_files,
        f_ffree: k.f_ffree,
        f_favail: k.f_ffree,
        f_fsid: k.f_fsid as u64,
        f_flag: k.f_flags as u64,
        f_namemax: k.f_namelen as u64,
    }
}

/// The statistics of a file system of which nothing is known: every
/// figure 0.
pub open spec fn zero_statvfs() -> statvfs {
    statvfs {
        f_bsize: 0,
        f_frsize: 0,
        f_blocks: 0,
        f_bfree: 0,
        f_bavail: 0,
        f_files: 0,
        f_ffree: 0,
        f_favail: 0,
        f_fsid: 0,
        f_flag: 0,
        f_namemax: 0,
    }
}

/// The length of the fixed part of a directory record that the walk reads:
/// inode (8 bytes), next offset (8 bytes), record length (2 bytes).
pub const DIRENT_HEADER_LEN: usize = 18;

/// The little-endian `u16` at `at` in `b`.
pub open spec fn le_u16(b: Seq<u8>, at: int) -> nat {
    (b[at] + 0x100 * b[at + 1]) as nat
}

/// The little-endian `u64` at `at` in `b`.
pub open spec fn le_u64(b: Seq<u8>, at: int) -> nat {
    (b[at] + 0x100 * b[at + 1] + 0x1_0000 * b[at + 2] + 0x100_0000 * b[at + 3] + 0x1_0000_0000 * b[
        at + 4] + 0x100_0000_0000 * b[at + 5] + 0x1_0000_0000_0000 * b[at + 6] + 0x100_0000_0000_0000
        * b[at + 7]) as nat
}

/// Walks the directory records in `buf` from `pos` up to `end`, where
/// `next` is the offset after the records already passed: the result is
/// the offset after the last record, or `EIO` for a record of length 0 or
/// one whose fixed part does not fit in the buffer.
pub open spec fn dirent_walk_from(buf: Seq<u8>, pos: nat, end: nat, next: u64) -> Result<u64, Errno>
    decreases end - pos,
{
    if pos >= end {
        Ok(next)
    } else if pos + DIRENT_HEADER_LEN > buf.len() {
        Err(Errno(EIO))
    } else if le_u16(buf, pos + 16int) == 0 {
        Err(Errno(EIO))
    } else {
        let after = pos + le_u16(buf, pos + 16int);
        let next_after = le_u64(buf, pos + 8int) as u64;
        if after >= end {
            Ok(next_after)
        } else {
            dirent_walk_from(buf, after, end, next_after)
        }
    }
}

/// Reads the length and the next offset of the directory record at `pos`.
fn dirent_header(buf: &[u8], pos: usize) -> (r: (u16, u64))
    requires
        pos + DIRENT_HEADER_LEN <= buf@.len(),
    ensures
        r.0 == le_u16(buf@, pos + 16int),
        r.1 == le_u64(buf@, pos + 8int),
{
    let _len = buf.len();
    let lo: u16 = buf[pos + 16] as u16;
    let hi: u16 = buf[pos + 17] as u16;
    let reclen: u16 = lo + 0x100 * hi;
    let off: u64 = buf[pos + 8] as u64 + 0x100 * buf[pos + 9] as u64 + 0x1_0000 * buf[pos + 10] as u64
        + 0x100_0000 * buf[pos + 11] as u64 + 0x1_0000_0000 * buf[pos + 12] as u64 + 0x100_0000_0000
        * buf[pos + 13] as u64 + 0x1_0000_0000_0000 * buf[pos + 14] as u64 + 0x100_0000_0000_0000
        * buf[pos + 15] as u64;
    (reclen, off)
}

impl Sys {
    /// The offset after the directory records that the kernel wrote to the
    /// first `bytes_read` bytes of `buf`, starting from `current_offset`;
    /// `EIO` for a record of length 0 or one cut off by the end of the
    /// buffer.
    pub fn dirent_walk(buf: &[u8], bytes_read: usize, current_offset: u64) -> (r: Result<u64, Errno>)
        requires
            buf@.len() <= isize::MAX,
        ensures
            r == dirent_walk_from(buf@, 0, bytes_read as nat, current_offset),
    {
        let mut processed: usize = 0;
        let mut next_offset: u64 = current_offset;
        while processed < bytes_read
            invariant
                buf@.len() <= isize::MAX,
                dirent_walk_from(buf@, processed as nat, bytes_read as nat, next_offset)
                    == dirent_walk_from(buf@, 0, bytes_read as nat, current_offset),
            decreases if processed < bytes_read {
                bytes_read - processed
            } else {
                0
            },
        {
            if buf.len() < DIRENT_HEADER_LEN || processed > buf.len() - DIRENT_HEADER_LEN {
                return Err(Errno(EIO));
            }
            let (reclen, opaque_next) = dirent_header(buf, processed);
            if reclen == 0 {
                return Err(Errno(EIO));
            }
            processed = processed + reclen as usize;
            next_offset = opaque_next;
        }
        Ok(next_offset)
    }

    /// `lseek` is not supported on Seele: it goes to the stub, a no-op
    /// success at offset 0.
    pub fn lseek(fildes: c_int, offset: off_t, whence: c_int) -> (r: Result<off_t, Errno>)
        ensures
            r == Ok::<off_t, Errno>(0),
    {
        let _ = (fildes, offset, whence);
        match Sys::stub("LSEEK") {
            Ok(v) => Ok(v as off_t),
            Err(e) => Err(e),
        }
    }

    /// The `statvfs` record for the Linux statistics `k`.
    pub fn statvfs_from_statfs(k: &linux_statfs) -> (s: statvfs)
        ensures
            s == statvfs_of(*k),
    {
        statvfs {
            f_bsize: k.f_bsize as u64,
            f_frsize: (if k.f_frsize != 0 {
                k.f_frsize
            } else {
                k.f_bsize
            }) as u64,
            f_blocks: k.f_blocks,
            f_bfree: k.f_bfree,
            f_bavail: k.f_bavail,
            f_files: k.f_files,
            f_ffree: k.f_ffree,
            f_favail: k.f_ffree,
            f_fsid: k.f_fsid as u64,
            f_flag: k.f_flags as u64,
            f_namemax: k.f_namelen as u64,
        }
    }

    /// `fstatvfs`: the statistics call behind it is not supported on Seele
    /// and goes to the stub, a no-op success, so the statistics reported are
    /// those of an all-zero Linux record (`statvfs_of` of it): every figure
    /// 0.
    pub fn fstatvfs(fildes: c_int, buf: Option<&mut statvfs>) -> (r: Result<(), Errno>)
        ensures
            r == Ok::<(), Errno>(()),
            match buf {
                Some(b) => *final(b) == zero_statvfs(),
                None => true,
            },
    {
        let kbuf = linux_statfs {
            f_type: 0,
            f_bsize: 0,
            f_blocks: 0,
            f_bfree: 0,
            f_bavail: 0,
            f_files: 0,
            f_ffree: 0,
            f_fsid: 0,
            f_namelen: 0,
            f_frsize: 0,
            f_flags: 0,
            f_spare: [0; 4],
        };
        let _ = fildes;
        if let Err(e) = Sys::stub("FSTATFS") {
            return Err(e);
        }
        if let Some(b) = buf {
            *b = Sys::statvfs_from_statfs(&kbuf);
        }
        Ok(())
    }
}

} // verus!
