//! The Seele platform layer: how Linux-style system call requests map onto
//! Seele's kernel interface, and how Seele's answers map back.

use crate::error::Errno;
use crate::header::bits_time::timespec;
use crate::header::errno::{EAGAIN, EINVAL, ENOSYS};
use crate::header::fcntl::{AT_FDCWD, O_CREAT, O_EXCL};
use crate::header::signal::{sigset_t, SIG_BLOCK, SIG_SETMASK, SIG_UNBLOCK};
use crate::header::sys_ioctl::{
    fb_bitfield, fb_fix_screeninfo, fb_var_screeninfo, winsize, FBIOGET_FSCREENINFO,
    FBIOGET_VSCREENINFO, FB_TYPE_PACKED_PIXELS, FB_VISUAL_TRUECOLOR, TCGETS, TCSETS, TCSETSF,
    TCSETSW, TIOCGWINSZ,
};
use crate::header::sys_mman::{
    MAP_ANON, MAP_FIXED, MAP_FIXED_NOREPLACE, PROT_EXEC, PROT_NONE, PROT_READ, PROT_WRITE,
};
use crate::header::time::{timeval, CLOCK_MONOTONIC, CLOCK_REALTIME};
use crate::header::unistd::{F_OK, R_OK, W_OK, X_OK};
use crate::platform::seele::abi::{
    FramebufferInfo, FramebufferPixelFormat, Permissions, TerminalInfo,
};
use crate::platform::seele::decimal::{decimal, push_decimal, push_signed_decimal, signed_decimal};
use crate::platform::types::{c_int, c_uint, c_ulong, dev_t, mode_t, pid_t, time_t};
use vstd::prelude::*;

pub mod abi;
pub mod decimal;
pub mod epoll;
pub mod epoll_history;
pub mod fs;
pub mod key_order;
pub mod signal;
pub mod socket;
pub mod timer;
pub mod unwind_stub;

verus! {

/// Results from `usize::MAX - ERRNO_MAX + 1` upwards encode a negated errno.
pub const ERRNO_MAX: usize = 4095;

/// The platform layer's handle type.
pub struct Sys;

/// A raw system call result: a value in the top `ERRNO_MAX - 1` values of
/// `usize` is a negated errno, anything else is a success value.
pub open spec fn decode_raw(sys: usize) -> Result<usize, Errno> {
    if sys > usize::MAX - ERRNO_MAX + 1 {
        Err(Errno((usize::MAX - sys + 1) as i32))
    } else {
        Ok(sys)
    }
}

/// Decodes a raw system call result.
pub fn e_raw(sys: usize) -> (r: Result<usize, Errno>)
    ensures
        r == decode_raw(sys),
{
    if sys > usize::MAX - (ERRNO_MAX - 1) {
        let e: usize = (usize::MAX - sys) + 1;
        Err(Errno(e as i32))
    } else {
        Ok(sys)
    }
}

/// The page size that Seele maps in.
pub const PAGE_SIZE: usize = 4096;

/// Whether stubs report themselves on standard error.
pub const PRINT_STUB_MESSAGE: bool = true;

/// The Seele page permissions that the `PROT_*` bits of `prot` ask for.
pub open spec fn permissions_for(prot: c_int) -> Permissions {
    Permissions {
        readable: prot & PROT_READ != 0,
        writable: prot & PROT_WRITE != 0,
        executable: prot & PROT_EXEC != 0,
    }
}

/// Each Seele page permission follows its own `PROT_*` bit alone: a page
/// is readable exactly when `PROT_READ` is asked for, writable exactly when
/// `PROT_WRITE` is, and executable exactly when `PROT_EXEC` is, whatever
/// else is asked for.
pub proof fn lemma_permissions_by_bit(prot: c_int)
    ensures
        permissions_for(prot).readable == (prot & 1 != 0),
        permissions_for(prot).writable == (prot & 2 != 0),
        permissions_for(prot).executable == (prot & 4 != 0),
        permissions_for(prot & 7) == permissions_for(prot),
{
    assert((prot & 7) & 1 == prot & 1 && (prot & 7) & 2 == prot & 2 && (prot & 7) & 4 == prot & 4)
        by (bit_vector);
}

/// Translates `mmap`/`mprotect` protection bits into Seele page permissions.
pub fn prot_to_permissions(prot: c_int) -> (permissions: Permissions)
    ensures
        permissions == permissions_for(prot),
        permissions.readable == (prot & 1 != 0),
        permissions.writable == (prot & 2 != 0),
        permissions.executable == (prot & 4 != 0),
{
    proof {
        lemma_permissions_by_bit(prot);
    }
    let mut permissions = Permissions { readable: false, writable: false, executable: false };

    if (prot & PROT_READ) != 0 {
        permissions.readable = true;
    }
    if (prot & PROT_WRITE) != 0 {
        permissions.writable = true;
    }
    if (prot & PROT_EXEC) != 0 {
        permissions.executable = true;
    }

    permissions
}

/// An 8-bit colour channel at bit `offset`.
pub open spec fn channel(offset: u32) -> fb_bitfield {
    fb_bitfield { offset, length: 8, msb_right: 0 }
}

/// The red, green and blue channels of a pixel in the byte order `format`.
pub open spec fn channels_for(format: FramebufferPixelFormat) -> (fb_bitfield, fb_bitfield, fb_bitfield) {
    match format {
        FramebufferPixelFormat::Rgb => (channel(0), channel(8), channel(16)),
        FramebufferPixelFormat::Bgr => (channel(16), channel(8), channel(0)),
    }
}

/// The identification string of the Seele framebuffer, `"seelefb"` padded
/// with NULs to 16 bytes.
pub open spec fn seelefb_id() -> Seq<i8> {
    seq![115i8, 101i8, 101i8, 108i8, 101i8, 102i8, 98i8] + Seq::new(9, |i: int| 0i8)
}

/// What a request of `ioctl` comes down to on Seele.
#[derive(Clone, Copy, Debug, PartialEq, Eq, Structural)]
pub enum IoctlRequest {
    /// Fill a `fb_fix_screeninfo` from the framebuffer information.
    GetFixScreenInfo,
    /// Fill a `fb_var_screeninfo` from the framebuffer information.
    GetVarScreenInfo,
    /// Read the terminal state, and fill a `termios` if one was given.
    GetTermios,
    /// Apply a `termios` to the terminal state.
    SetTermios,
    /// Read the terminal state, and fill a `winsize` if one was given.
    GetWinSize,
    /// Apply a `winsize` to the terminal state.
    SetWinSize,
}

/// A clock that Seele can read.
#[derive(Clone, Copy, Debug, PartialEq, Eq, Structural)]
pub enum ClockSource {
    /// The wall clock.
    CurrentTime,
    /// The time since boot.
    SinceBoot,
}

/// How an accepted `mmap` request is carried out.
#[derive(Clone, Copy, Debug, PartialEq, Eq, Structural)]
pub enum MmapPlan {
    /// Map `pages` pages of the object `fd` from byte `offset`.
    Object { fd: u64, pages: u64, offset: u64, permissions: Permissions },
    /// Allocate `len` bytes of fresh memory.
    Anonymous { len: u64, flags: u64, permissions: Permissions },
}

/// The `errno` with which `mmap` refuses a request, if it does.
pub open spec fn mmap_error(addr_is_null: bool, len: usize, prot: c_int, flags: c_int, fildes: c_int, off: i64) -> Option<c_int> {
    if len == 0 {
        Some(EINVAL)
    } else if flags & (MAP_FIXED | MAP_FIXED_NOREPLACE) != 0 {
        Some(ENOSYS)
    } else if !addr_is_null {
        Some(ENOSYS)
    } else if prot & !(PROT_NONE | PROT_READ | PROT_WRITE | PROT_EXEC) != 0 {
        Some(EINVAL)
    } else if flags & MAP_ANON == 0 && (fildes < 0 || off < 0 || off % 4096 != 0) {
        Some(EINVAL)
    } else {
        None
    }
}

/// The signal mask after a `sigprocmask` request, or `None` for an unknown
/// `how`.
pub open spec fn mask_after(how: c_int, old: sigset_t, set: sigset_t) -> Option<sigset_t> {
    if how == SIG_BLOCK {
        Some(old | set)
    } else if how == SIG_UNBLOCK {
        Some(old & !set)
    } else if how == SIG_SETMASK {
        Some(set)
    } else {
        None
    }
}

/// The bytes of the `/proc` link that names the file behind `fildes`,
/// NUL-terminated.
pub open spec fn proc_fd_path(fildes: c_int) -> Seq<u8> {
    seq![47u8, 112u8, 114u8, 111u8, 99u8, 47u8, 115u8, 101u8, 108u8, 102u8, 47u8, 102u8, 100u8, 47u8]
        + signed_decimal(fildes as int) + seq![0u8]
}

impl Sys {
    /// The red, green and blue channels of a Seele framebuffer pixel.
    pub fn framebuffer_bitfields(pixel_format: FramebufferPixelFormat) -> (r: (
        fb_bitfield,
        fb_bitfield,
        fb_bitfield,
    ))
        ensures
            r == channels_for(pixel_format),
    {
        match pixel_format {
            FramebufferPixelFormat::Rgb => (
                fb_bitfield { offset: 0, length: 8, msb_right: 0 },
                fb_bitfield { offset: 8, length: 8, msb_right: 0 },
                fb_bitfield { offset: 16, length: 8, msb_right: 0 },
            ),
            FramebufferPixelFormat::Bgr => (
                fb_bitfield { offset: 16, length: 8, msb_right: 0 },
                fb_bitfield { offset: 8, length: 8, msb_right: 0 },
                fb_bitfield { offset: 0, length: 8, msb_right: 0 },
            ),
        }
    }

    /// Fills the fixed framebuffer information for `FBIOGET_FSCREENINFO`: a
    /// truecolour packed-pixel framebuffer named `seelefb`, with the size and
    /// line length of the Seele framebuffer, and zeros elsewhere.
    pub fn fill_linux_fb_fix(info: FramebufferInfo, out: &mut fb_fix_screeninfo)
        requires
            info.stride * info.bytes_per_pixel <= u64::MAX,
        ensures
            final(out).id@ == seelefb_id(),
            final(out).smem_start == 0,
            final(out).smem_len == info.byte_len as c_uint,
            final(out).type_ == FB_TYPE_PACKED_PIXELS,
            final(out).type_aux == 0,
            final(out).visual == FB_VISUAL_TRUECOLOR,
            final(out).xpanstep == 0,
            final(out).ypanstep == 0,
            final(out).ywrapstep == 0,
            final(out).line_length == (info.stride * info.bytes_per_pixel) as c_uint,
            final(out).mmio_start == 0,
            final(out).mmio_len == 0,
            final(out).accel == 0,
            final(out).capabilities == 0,
            final(out).reserved@ == seq![0u16, 0u16],
    {
        *out = fb_fix_screeninfo::default();
        let id: [u8; 8] = [115, 101, 101, 108, 101, 102, 98, 0];
        let mut i: usize = 0;
        while i < 8
            invariant
                0 <= i <= 8,
                id@ == seq![115u8, 101u8, 101u8, 108u8, 101u8, 102u8, 98u8, 0u8],
                out.id@.len() == 16,
                forall|j: int| 0 <= j < i ==> out.id@[j] == id@[j] as i8,
                forall|j: int| i <= j < 16 ==> out.id@[j] == 0,
                out.smem_start == 0,
                out.smem_len == 0,
                out.type_ == 0,
                out.type_aux == 0,
                out.visual == 0,
                out.xpanstep == 0,
                out.ypanstep == 0,
                out.ywrapstep == 0,
                out.line_length == 0,
                out.mmio_start == 0,
                out.mmio_len == 0,
                out.accel == 0,
                out.capabilities == 0,
                out.reserved@ == seq![0u16, 0u16],
            decreases 8 - i,
        {
            out.id[i] = id[i] as i8;
            i = i + 1;
        }
        assert(out.id@ =~= seelefb_id());
        out.smem_len = info.byte_len as c_uint;
        out.type_ = FB_TYPE_PACKED_PIXELS;
        out.visual = FB_VISUAL_TRUECOLOR;
        out.line_length = (info.stride * info.bytes_per_pixel) as c_uint;
    }

    /// Fills the variable framebuffer information for `FBIOGET_VSCREENINFO`:
    /// the visible size, the virtual size (stride by height), the depth and
    /// colour channels of the Seele framebuffer, and zeros elsewhere.
    pub fn fill_linux_fb_var(info: FramebufferInfo, out: &mut fb_var_screeninfo)
        requires
            info.bytes_per_pixel * 8 <= u64::MAX,
        ensures
            ({
                let o = *final(out);
                &&& o.xres == info.width as c_uint
                &&& o.yres == info.height as c_uint
                &&& o.xres_virtual == info.stride as c_uint
                &&& o.yres_virtual == info.height as c_uint
                &&& o.xoffset == 0 && o.yoffset == 0
                &&& o.bits_per_pixel == (info.bytes_per_pixel * 8) as c_uint
                &&& o.grayscale == 0
                &&& (o.red, o.green, o.blue) == channels_for(info.pixel_format)
                &&& o.transp == (fb_bitfield { offset: 0, length: 0, msb_right: 0 })
                &&& o.nonstd == 0 && o.activate == 0
                &&& o.height == info.height as c_uint
                &&& o.width == info.width as c_uint
                &&& o.accel_flags == 0 && o.pixclock == 0 && o.left_margin == 0
                &&& o.right_margin == 0 && o.upper_margin == 0 && o.lower_margin == 0
                &&& o.hsync_len == 0 && o.vsync_len == 0 && o.sync == 0 && o.vmode == 0
                &&& o.rotate == 0 && o.colorspace == 0
                &&& o.reserved@ == seq![0u32, 0u32, 0u32, 0u32]
            }),
    {
        *out = fb_var_screeninfo::default();
        out.xres = info.width as c_uint;
        out.yres = info.height as c_uint;
        out.xres_virtual = info.stride as c_uint;
        out.yres_virtual = info.height as c_uint;
        out.bits_per_pixel = (info.bytes_per_pixel * 8) as c_uint;
        let (red, green, blue) = Self::framebuffer_bitfields(info.pixel_format);
        out.red = red;
        out.green = green;
        out.blue = blue;
        out.transp = fb_bitfield::default();
        out.height = info.height as c_uint;
        out.width = info.width as c_uint;
    }

    /// What goes to standard error for a stub's `message`: the message
    /// itself while stub messages are enabled, nothing otherwise.
    pub fn print_stub_message(message: String) -> (to_stderr: Option<String>)
        ensures
            match to_stderr {
                Some(out) => PRINT_STUB_MESSAGE && out@ == message@,
                None => !PRINT_STUB_MESSAGE,
            },
    {
        if !PRINT_STUB_MESSAGE {
            return None;
        }
        Some(message)
    }

    /// The message printed for an unimplemented system call.
    pub fn stub_message(name: &str) -> (message: String)
        ensures
            message@ == "unimplemented systemcall "@ + name@ + "\n"@,
    {
        let mut message = String::from_str("unimplemented systemcall ");
        message.append(name);
        message.append("\n");
        message
    }

    /// The result of an unimplemented system call: a no-op success, 0. The
    /// call is reported on standard error (see `stub_message` and
    /// `print_stub_message`).
    pub fn stub(name: &str) -> (r: Result<usize, Errno>)
        ensures
            r == Ok::<usize, Errno>(0),
    {
        let _ = name;
        Ok(0)
    }

    /// What the `ioctl` request `request` comes down to; `out_is_null` says
    /// whether the caller passed no argument. The requests that read an
    /// argument fail with `EINVAL` without one. Every request other than the
    /// framebuffer queries, `TCGETS`, the `TCSETS` family and `TIOCGWINSZ`
    /// is taken as a window-size update (`TIOCSWINSZ`), `TCFLSH`, `TCSBRK`
    /// and `TCXONC` among them; no request reaches the object's own
    /// configuration call.
    pub fn ioctl_request(request: c_ulong, out_is_null: bool) -> (r: Result<IoctlRequest, Errno>)
        ensures
            request == FBIOGET_FSCREENINFO ==> r == (if out_is_null {
                Err(Errno(EINVAL))
            } else {
                Ok(IoctlRequest::GetFixScreenInfo)
            }),
            request == FBIOGET_VSCREENINFO ==> r == (if out_is_null {
                Err(Errno(EINVAL))
            } else {
                Ok(IoctlRequest::GetVarScreenInfo)
            }),
            request == TCGETS ==> r == Ok::<IoctlRequest, Errno>(IoctlRequest::GetTermios),
            (request == TCSETS || request == TCSETSW || request == TCSETSF) ==> r == (if out_is_null {
                Err(Errno(EINVAL))
            } else {
                Ok(IoctlRequest::SetTermios)
            }),
            request == TIOCGWINSZ ==> r == Ok::<IoctlRequest, Errno>(IoctlRequest::GetWinSize),
            !(request == FBIOGET_FSCREENINFO || request == FBIOGET_VSCREENINFO || request == TCGETS
                || request == TCSETS || request == TCSETSW || request == TCSETSF || request
                == TIOCGWINSZ) ==> r == (if out_is_null {
                Err(Errno(EINVAL))
            } else {
                Ok(IoctlRequest::SetWinSize)
            }),
    {
        if request == FBIOGET_FSCREENINFO {
            if out_is_null {
                return Err(Errno(EINVAL));
            }
            Ok(IoctlRequest::GetFixScreenInfo)
        } else if request == FBIOGET_VSCREENINFO {
            if out_is_null {
                return Err(Errno(EINVAL));
            }
            Ok(IoctlRequest::GetVarScreenInfo)
        } else if request == TCGETS {
            Ok(IoctlRequest::GetTermios)
        } else if request == TCSETS || request == TCSETSW || request == TCSETSF {
            if out_is_null {
                return Err(Errno(EINVAL));
            }
            Ok(IoctlRequest::SetTermios)
        } else if request == TIOCGWINSZ {
            Ok(IoctlRequest::GetWinSize)
        } else {
            if out_is_null {
                return Err(Errno(EINVAL));
            }
            Ok(IoctlRequest::SetWinSize)
        }
    }

    /// The window size that `TIOCGWINSZ` reports for the terminal state
    /// `info` (rows and columns cut to 16 bits, no pixel size).
    pub fn winsize_from_terminal(info: TerminalInfo) -> (ws: winsize)
        ensures
            ws == (winsize {
                ws_row: info.rows as u16,
                ws_col: info.cols as u16,
                ws_xpixel: 0,
                ws_ypixel: 0,
            }),
    {
        winsize { ws_row: info.rows as u16, ws_col: info.cols as u16, ws_xpixel: 0, ws_ypixel: 0 }
    }

    /// The terminal state that `TIOCSWINSZ` sets: `info` with the rows and
    /// columns of `size`.
    pub fn terminal_with_winsize(info: TerminalInfo, size: &winsize) -> (r: TerminalInfo)
        ensures
            r == (TerminalInfo { rows: size.ws_row as u64, cols: size.ws_col as u64, ..info }),
    {
        let mut info = info;
        info.rows = size.ws_row as u64;
        info.cols = size.ws_col as u64;
        info
    }

    /// `sigprocmask` while Seele has no signal masks: keeps the mask in
    /// `state`, reports the old mask through `oset`, and applies `set` as
    /// `how` says (`EINVAL` for an unknown `how`, leaving the mask).
    pub fn sigprocmask_stub(
        state: &mut sigset_t,
        how: c_int,
        set: Option<&sigset_t>,
        oset: Option<&mut sigset_t>,
    ) -> (r: Result<(), Errno>)
        ensures
            match oset {
                Some(o) => *final(o) == *old(state),
                None => true,
            },
            match set {
                None => r is Ok && *final(state) == *old(state),
                Some(s) => match mask_after(how, *old(state), *s) {
                    Some(m) => r is Ok && *final(state) == m,
                    None => r == Err::<(), Errno>(Errno(EINVAL)) && *final(state) == *old(state),
                },
            },
    {
        let old = *state;

        if let Some(oset) = oset {
            *oset = old;
        }

        let set = match set {
            Some(set) => *set,
            None => return Ok(()),
        };

        let new = if how == SIG_BLOCK {
            old | set
        } else if how == SIG_UNBLOCK {
            old & !set
        } else if how == SIG_SETMASK {
            set
        } else {
            return Err(Errno(EINVAL));
        };

        *state = new;
        Ok(())
    }

    /// The checks of `access` on Seele: only existence (`F_OK`) can be
    /// tested; other known modes fail with `ENOSYS`, unknown bits with
    /// `EINVAL`.
    pub fn access_mode_check(mode: c_int) -> (r: Result<(), Errno>)
        ensures
            mode & !(R_OK | W_OK | X_OK) != F_OK ==> r == Err::<(), Errno>(Errno(EINVAL)),
            mode & !(R_OK | W_OK | X_OK) == F_OK && mode != F_OK ==> r == Err::<(), Errno>(
                Errno(ENOSYS),
            ),
            mode == F_OK ==> r is Ok,
    {
        let supported_mode_bits = R_OK | W_OK | X_OK;
        assert(F_OK & !(R_OK | W_OK | X_OK) == F_OK) by (bit_vector);
        if (mode & !supported_mode_bits) != F_OK {
            return Err(Errno(EINVAL));
        }
        if mode != F_OK {
            return Err(Errno(ENOSYS));
        }
        Ok(())
    }

    /// Whether a path is looked up from the current directory (it does not
    /// start with `/`).
    pub fn from_current_dir(path: &[u8]) -> (r: bool)
        ensures
            r == !(path@.len() > 0 && path@[0] == 47u8),
    {
        !(path.len() > 0 && path[0] == 47)
    }

    /// The Seele clock behind the POSIX clock `clk_id`; `EINVAL` for clocks
    /// Seele lacks.
    pub fn clock_source(clk_id: c_int) -> (r: Result<ClockSource, Errno>)
        ensures
            clk_id == CLOCK_REALTIME ==> r == Ok::<ClockSource, Errno>(ClockSource::CurrentTime),
            clk_id == CLOCK_MONOTONIC ==> r == Ok::<ClockSource, Errno>(ClockSource::SinceBoot),
            clk_id != CLOCK_REALTIME && clk_id != CLOCK_MONOTONIC ==> r == Err::<ClockSource, Errno>(
                Errno(EINVAL),
            ),
    {
        if clk_id == CLOCK_REALTIME {
            Ok(ClockSource::CurrentTime)
        } else if clk_id == CLOCK_MONOTONIC {
            Ok(ClockSource::SinceBoot)
        } else {
            Err(Errno(EINVAL))
        }
    }

    /// The `timespec` that `clock_gettime` reports for a clock reading of
    /// `nanoseconds` (taken as a signed 64-bit count, split with truncating
    /// division).
    pub fn timespec_from_clock(nanoseconds: usize) -> (ts: timespec)
        ensures
            ({
                let n = nanoseconds as i64;
                let sec = if n >= 0 { n / 1_000_000_000 } else { -((-n) / 1_000_000_000) };
                &&& ts.tv_sec == sec
                &&& ts.tv_nsec == n - sec * 1_000_000_000
            }),
    {
        let nanoseconds = nanoseconds as i64;
        timespec { tv_sec: nanoseconds / 1_000_000_000, tv_nsec: nanoseconds % 1_000_000_000 }
    }

    /// The `timeval` that `gettimeofday` reports for a wall-clock reading of
    /// `nanoseconds`.
    pub fn timeval_from_clock(nanoseconds: u64) -> (tv: timeval)
        ensures
            tv.tv_sec == (nanoseconds / 1_000_000_000) as time_t,
            tv.tv_usec == ((nanoseconds % 1_000_000_000) / 1_000) as i32,
    {
        timeval {
            tv_sec: (nanoseconds / 1_000_000_000) as time_t,
            tv_usec: ((nanoseconds % 1_000_000_000) / 1_000) as i32,
        }
    }

    /// `mkdirat` on Seele works relative to the current directory only.
    pub fn mkdirat_check(dir_fildes: c_int) -> (r: Result<(), Errno>)
        ensures
            dir_fildes == AT_FDCWD ==> r is Ok,
            dir_fildes != AT_FDCWD ==> r == Err::<(), Errno>(Errno(ENOSYS)),
    {
        if dir_fildes != AT_FDCWD {
            return Err(Errno(ENOSYS));
        }
        Ok(())
    }

    /// `mknodat` on Seele: a device number that does not fit the kernel's
    /// 32 bits is `EINVAL`; any other request goes to the stub, a no-op
    /// success.
    pub fn mknodat(dir_fildes: c_int, mode: mode_t, dev: dev_t) -> (r: Result<(), Errno>)
        ensures
            !(0 <= dev <= u32::MAX) ==> r == Err::<(), Errno>(Errno(EINVAL)),
            0 <= dev <= u32::MAX ==> r == Ok::<(), Errno>(()),
    {
        let k_dev: c_uint = dev as c_uint;
        if k_dev as dev_t != dev {
            return Err(Errno(EINVAL));
        }
        let _ = (dir_fildes, mode, k_dev);
        match Sys::stub("MKNODAT") {
            Ok(_) => Ok(()),
            Err(e) => Err(e),
        }
    }

    /// How `mmap` carries out a request on Seele, or the `errno` that refuses
    /// it: no fixed or hinted addresses, only the four `PROT_*` bits, and
    /// object mappings from a valid fd at a page-aligned offset.
    pub fn mmap_plan(
        addr_is_null: bool,
        len: usize,
        prot: c_int,
        flags: c_int,
        fildes: c_int,
        off: i64,
    ) -> (r: Result<MmapPlan, Errno>)
        ensures
            r is Err <==> mmap_error(addr_is_null, len, prot, flags, fildes, off) is Some,
            r matches Err(e) ==> Some(e.0) == mmap_error(addr_is_null, len, prot, flags, fildes, off),
            r matches Ok(MmapPlan::Object { fd, pages, offset, permissions }) ==> {
                &&& flags & MAP_ANON == 0
                &&& fd == fildes as u64
                &&& pages == (len + 4095) / 4096
                &&& offset == off as u64
                &&& permissions == permissions_for(prot)
            },
            r matches Ok(MmapPlan::Anonymous { len: l, flags: f, permissions }) ==> {
                &&& flags & MAP_ANON != 0
                &&& l == len as u64
                &&& f == flags as u64
                &&& permissions == permissions_for(prot)
            },
    {
        if len == 0 {
            return Err(Errno(EINVAL));
        }
        if (flags & (MAP_FIXED | MAP_FIXED_NOREPLACE)) != 0 {
            return Err(Errno(ENOSYS));
        }
        if !addr_is_null {
            return Err(Errno(ENOSYS));
        }
        let unsupported_prot = prot & !(PROT_NONE | PROT_READ | PROT_WRITE | PROT_EXEC);
        if unsupported_prot != 0 {
            return Err(Errno(EINVAL));
        }
        let permissions = prot_to_permissions(prot);

        if (flags & MAP_ANON) == 0 {
            if fildes < 0 || off < 0 {
                return Err(Errno(EINVAL));
            }
            if off % 4096 != 0 {
                return Err(Errno(EINVAL));
            }
            let pages: usize = len / PAGE_SIZE + if len % PAGE_SIZE != 0 {
                1
            } else {
                0
            };
            return Ok(
                MmapPlan::Object {
                    fd: fildes as u64,
                    pages: pages as u64,
                    offset: off as u64,
                    permissions,
                },
            );
        }

        Ok(MmapPlan::Anonymous { len: len as u64, flags: flags as u64, permissions })
    }

    /// The sleep that `nanosleep` asks Seele for, in nanoseconds; `EINVAL` for
    /// a missing or malformed request or one too long for 64 bits.
    pub fn nanosleep_duration(rqtp: Option<&timespec>) -> (r: Result<u64, Errno>)
        ensures
            match rqtp {
                None => r == Err::<u64, Errno>(Errno(EINVAL)),
                Some(t) => if t.tv_sec >= 0 && 0 <= t.tv_nsec < 1_000_000_000 && t.tv_sec
                    * 1_000_000_000 + t.tv_nsec <= u64::MAX {
                    r == Ok::<u64, Errno>((t.tv_sec * 1_000_000_000 + t.tv_nsec) as u64)
                } else {
                    r == Err::<u64, Errno>(Errno(EINVAL))
                },
            },
    {
        let requested = match rqtp {
            Some(t) => t,
            None => return Err(Errno(EINVAL)),
        };
        if requested.tv_sec < 0 || requested.tv_nsec < 0 || requested.tv_nsec >= 1_000_000_000 {
            return Err(Errno(EINVAL));
        }
        let seconds = requested.tv_sec as u64;
        let nanoseconds = requested.tv_nsec as u64;
        let total = match seconds.checked_mul(1_000_000_000) {
            Some(value) => value.checked_add(nanoseconds),
            None => None,
        };
        match total {
            Some(total) => Ok(total),
            None => Err(Errno(EINVAL)),
        }
    }

    /// The flags of `open` that Seele looks at: whether an existing file
    /// must be refused (`O_CREAT` with `O_EXCL`), and whether a missing file
    /// is created.
    pub fn open_flags(oflag: c_int) -> (r: (bool, bool))
        ensures
            r.0 == ((oflag & O_CREAT) != 0 && (oflag & O_EXCL) != 0),
            r.1 == ((oflag & O_CREAT) != 0),
    {
        ((oflag & O_CREAT) != 0 && (oflag & O_EXCL) != 0, (oflag & O_CREAT) != 0)
    }

    /// `umask`: the new process mask is `mask` cut to the permission bits;
    /// returns the new mask and the previous one.
    pub fn umask_update(current: mode_t, mask: mode_t) -> (r: (mode_t, mode_t))
        ensures
            r.0 == mask & 0o777,
            r.1 == current,
    {
        (mask & 0o777, current)
    }

    /// One wait for a child on Seele: a raw result that decodes to `EAGAIN`
    /// means "wait again" (`None`); any other decodes to the outcome.
    pub fn waitpid_step(raw: usize) -> (r: Option<Result<pid_t, Errno>>)
        ensures
            decode_raw(raw) == Err::<usize, Errno>(Errno(EAGAIN)) ==> r is None,
            decode_raw(raw) != Err::<usize, Errno>(Errno(EAGAIN)) ==> r == Some(
                match decode_raw(raw) {
                    Ok(p) => Ok::<pid_t, Errno>(p as pid_t),
                    Err(e) => Err(e),
                },
            ),
    {
        match e_raw(raw) {
            Err(Errno(e)) => {
                if e == EAGAIN {
                    None
                } else {
                    Some(Err(Errno(e)))
                }
            },
            Ok(p) => Some(Ok(p as pid_t)),
        }
    }

    /// The NUL-terminated `/proc/self/fd/N` path through which `fpath`
    /// resolves `fildes`.
    pub fn fpath_proc_path(fildes: c_int) -> (path: Vec<u8>)
        ensures
            path@ == proc_fd_path(fildes),
    {
        let mut path: Vec<u8> = Vec::new();
        let prefix: [u8; 14] = [47, 112, 114, 111, 99, 47, 115, 101, 108, 102, 47, 102, 100, 47];
        let mut i: usize = 0;
        while i < 14
            invariant
                0 <= i <= 14,
                prefix@ == seq![47u8, 112u8, 114u8, 111u8, 99u8, 47u8, 115u8, 101u8, 108u8, 102u8, 47u8, 102u8, 100u8, 47u8],
                path@ == prefix@.take(i as int),
            decreases 14 - i,
        {
            path.push(prefix[i]);
            assert(prefix@.take(i + 1) =~= prefix@.take(i as int).push(prefix@[i as int]));
            i = i + 1;
        }
        assert(prefix@.take(14) =~= prefix@);
        push_signed_decimal(&mut path, fildes as i64);
        path.push(0);
        assert(path@ =~= proc_fd_path(fildes));
        path
    }
}

/// A kernel result that carries the errno `e` negated (as `-e` wraps in
/// `usize`) decodes to exactly that errno, for every errno the encoding can
/// carry.
pub proof fn lemma_errno_round_trip(e: c_int)
    requires
        1 <= e <= ERRNO_MAX - 1,
    ensures
        decode_raw((usize::MAX - e + 1) as usize) == Err::<usize, Errno>(Errno(e)),
{
}

/// Blocking a set of signals and then unblocking it again restores the
/// mask, when none of them was blocked before.
pub proof fn lemma_block_then_unblock(mask: sigset_t, set: sigset_t)
    requires
        mask & set == 0,
    ensures
        mask_after(SIG_BLOCK, mask, set) matches Some(blocked) && mask_after(SIG_UNBLOCK, blocked, set)
            == Some(mask),
{
    assert(((mask | set) & !set) == mask) by (bit_vector)
        requires
            mask & set == 0,
    ;
}

} // verus!
