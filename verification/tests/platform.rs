use relibc::error::Errno;
use relibc::header::fcntl::{AT_FDCWD, O_CREAT, O_EXCL};
use relibc::header::signal::{SIG_BLOCK, SIG_SETMASK, SIG_UNBLOCK};
use relibc::header::sys_ioctl::{
    fb_fix_screeninfo, fb_var_screeninfo, winsize, FBIOGET_FSCREENINFO, FBIOGET_VSCREENINFO,
    FB_TYPE_PACKED_PIXELS, FB_VISUAL_TRUECOLOR, TCFLSH, TCGETS, TCSETS, TCSETSF, TIOCGWINSZ,
    TIOCSWINSZ,
};
use relibc::header::sys_mman::{MAP_ANON, MAP_FIXED, MAP_PRIVATE, PROT_EXEC, PROT_READ, PROT_WRITE};
use relibc::header::sys_statvfs::statvfs;
use relibc::header::unistd::{F_OK, R_OK, SEEK_CUR};
use relibc::platform::seele::abi::{FramebufferInfo, FramebufferPixelFormat, Permissions, TerminalInfo};
use relibc::platform::seele::decimal::{push_decimal, push_signed_decimal};
use relibc::platform::seele::epoll::sorted_keys;
use relibc::platform::seele::fs::linux_statfs;
use relibc::platform::seele::signal::MaskChange;
use relibc::platform::seele::unwind_stub::{_Unwind_Backtrace, _Unwind_GetIP, _Unwind_GetIPInfo};
use relibc::platform::seele::{
    e_raw, prot_to_permissions, IoctlRequest, MmapPlan, Sys, PRINT_STUB_MESSAGE,
};

#[test]
fn raw_results_decode() {
    assert_eq!(e_raw(0), Ok(0));
    assert_eq!(e_raw(42), Ok(42));
    assert_eq!(e_raw(usize::MAX), Err(Errno(1)));
    assert_eq!(e_raw(0usize.wrapping_sub(22)), Err(Errno(22)));
    assert_eq!(e_raw(0usize.wrapping_sub(4095)), Ok(0usize.wrapping_sub(4095)));
    assert_eq!(e_raw(0usize.wrapping_sub(4094)), Err(Errno(4094)));
}

#[test]
fn errno_round_trip() {
    for e in [1i32, 2, 22, 38, 4094] {
        assert_eq!(e_raw(0usize.wrapping_sub(e as usize)), Err(Errno(e)));
    }
}

#[test]
fn stubs_succeed_without_doing_anything() {
    assert_eq!(Sys::stub("LSEEK"), Ok(0));
    assert_eq!(Sys::stub_message("ALARM"), "unimplemented systemcall ALARM\n");
    let shown = Sys::print_stub_message(Sys::stub_message("KILL"));
    if PRINT_STUB_MESSAGE {
        assert_eq!(shown.as_deref(), Some("unimplemented systemcall KILL\n"));
    } else {
        assert_eq!(shown, None);
    }
    assert_eq!(Sys::lseek(3, 0, SEEK_CUR), Ok(0));
}

#[test]
fn mknodat_and_mkdirat() {
    assert_eq!(Sys::mknodat(AT_FDCWD, 0o644, 5), Ok(()));
    assert_eq!(Sys::mknodat(AT_FDCWD, 0o644, 1 << 40), Err(Errno(22)));
    assert_eq!(Sys::mknodat(AT_FDCWD, 0o644, -1), Err(Errno(22)));
    assert_eq!(Sys::mkdirat_check(AT_FDCWD), Ok(()));
    assert_eq!(Sys::mkdirat_check(3), Err(Errno(38)));
}

#[test]
fn access_checks_only_existence() {
    assert_eq!(Sys::access_mode_check(F_OK), Ok(()));
    assert_eq!(Sys::access_mode_check(R_OK), Err(Errno(38)));
    assert_eq!(Sys::access_mode_check(8), Err(Errno(22)));
}

#[test]
fn open_flags_and_paths() {
    assert_eq!(Sys::open_flags(O_CREAT | O_EXCL), (true, true));
    assert_eq!(Sys::open_flags(O_CREAT), (false, true));
    assert_eq!(Sys::open_flags(O_EXCL), (false, false));
    assert!(Sys::from_current_dir(b"a/b"));
    assert!(!Sys::from_current_dir(b"/a"));
    assert!(Sys::from_current_dir(b""));
}

#[test]
fn umask_keeps_permission_bits() {
    assert_eq!(Sys::umask_update(0o022, 0o7777), (0o777, 0o022));
    assert_eq!(Sys::umask_update(0o777, 0o027), (0o027, 0o777));
}

#[test]
fn waitpid_retries_on_eagain() {
    assert_eq!(Sys::waitpid_step(0usize.wrapping_sub(11)), None);
    assert_eq!(Sys::waitpid_step(17), Some(Ok(17)));
    assert_eq!(Sys::waitpid_step(0usize.wrapping_sub(10)), Some(Err(Errno(10))));
}

#[test]
fn proc_paths() {
    assert_eq!(Sys::fpath_proc_path(7), b"/proc/self/fd/7\0".to_vec());
    assert_eq!(Sys::fpath_proc_path(-12), b"/proc/self/fd/-12\0".to_vec());
    assert_eq!(Sys::fpath_proc_path(1234), b"/proc/self/fd/1234\0".to_vec());
}

#[test]
fn sigprocmask_stub_keeps_a_mask() {
    let mut state: u64 = 0b0001;
    let mut old = 0;
    assert_eq!(Sys::sigprocmask_stub(&mut state, SIG_BLOCK, Some(&0b0110), Some(&mut old)), Ok(()));
    assert_eq!((state, old), (0b0111, 0b0001));
    assert_eq!(Sys::sigprocmask_stub(&mut state, SIG_UNBLOCK, Some(&0b0110), Some(&mut old)), Ok(()));
    assert_eq!((state, old), (0b0001, 0b0111));
    assert_eq!(Sys::sigprocmask_stub(&mut state, SIG_SETMASK, Some(&0b1000), None), Ok(()));
    assert_eq!(state, 0b1000);
    assert_eq!(Sys::sigprocmask_stub(&mut state, 9, Some(&0b1), Some(&mut old)), Err(Errno(22)));
    assert_eq!((state, old), (0b1000, 0b1000));
    assert_eq!(Sys::sigprocmask_stub(&mut state, 9, None, None), Ok(()));
}

#[test]
fn mask_changes() {
    assert_eq!(Sys::mask_change(SIG_BLOCK), Ok(MaskChange::Block));
    assert_eq!(Sys::mask_change(SIG_UNBLOCK), Ok(MaskChange::Unblock));
    assert_eq!(Sys::mask_change(SIG_SETMASK), Ok(MaskChange::SetMask));
    assert_eq!(Sys::mask_change(3), Err(Errno(22)));
}

#[test]
fn ioctl_requests() {
    assert_eq!(Sys::ioctl_request(FBIOGET_FSCREENINFO, false), Ok(IoctlRequest::GetFixScreenInfo));
    assert_eq!(Sys::ioctl_request(FBIOGET_FSCREENINFO, true), Err(Errno(22)));
    assert_eq!(Sys::ioctl_request(FBIOGET_VSCREENINFO, false), Ok(IoctlRequest::GetVarScreenInfo));
    assert_eq!(Sys::ioctl_request(TCGETS, true), Ok(IoctlRequest::GetTermios));
    assert_eq!(Sys::ioctl_request(TCSETSF, false), Ok(IoctlRequest::SetTermios));
    assert_eq!(Sys::ioctl_request(TCSETS, true), Err(Errno(22)));
    assert_eq!(Sys::ioctl_request(TIOCGWINSZ, true), Ok(IoctlRequest::GetWinSize));
    assert_eq!(Sys::ioctl_request(TIOCSWINSZ, false), Ok(IoctlRequest::SetWinSize));
    assert_eq!(Sys::ioctl_request(TIOCSWINSZ, true), Err(Errno(22)));
    assert_eq!(Sys::ioctl_request(TCFLSH, true), Err(Errno(22)));
    assert_eq!(Sys::ioctl_request(TCFLSH, false), Ok(IoctlRequest::SetWinSize));
}

#[test]
fn window_sizes() {
    let info = TerminalInfo { rows: 24, cols: 80, echo: true, canonical: true, echo_newline: false, echo_delete: true };
    let ws = Sys::winsize_from_terminal(info);
    assert_eq!(ws, winsize { ws_row: 24, ws_col: 80, ws_xpixel: 0, ws_ypixel: 0 });
    assert_eq!(ws.get_row_col(), (24, 80));
    let bigger = Sys::terminal_with_winsize(info, &winsize { ws_row: 50, ws_col: 132, ws_xpixel: 9, ws_ypixel: 9 });
    assert_eq!(bigger, TerminalInfo { rows: 50, cols: 132, ..info });
}

#[test]
fn permissions_from_prot() {
    assert_eq!(prot_to_permissions(PROT_READ | PROT_EXEC), Permissions { readable: true, writable: false, executable: true });
    assert_eq!(prot_to_permissions(0), Permissions { readable: false, writable: false, executable: false });
}

#[test]
fn mmap_plans() {
    let rw = Permissions { readable: true, writable: true, executable: false };
    assert_eq!(
        Sys::mmap_plan(true, 5000, PROT_READ | PROT_WRITE, MAP_PRIVATE, 3, 8192),
        Ok(MmapPlan::Object { fd: 3, pages: 2, offset: 8192, permissions: rw })
    );
    assert_eq!(
        Sys::mmap_plan(true, 4096, PROT_READ | PROT_WRITE, MAP_PRIVATE | MAP_ANON, -1, 0),
        Ok(MmapPlan::Anonymous { len: 4096, flags: (MAP_PRIVATE | MAP_ANON) as u64, permissions: rw })
    );
    assert_eq!(Sys::mmap_plan(true, 0, PROT_READ, MAP_ANON, -1, 0), Err(Errno(22)));
    assert_eq!(Sys::mmap_plan(true, 10, PROT_READ, MAP_ANON | MAP_FIXED, -1, 0), Err(Errno(38)));
    assert_eq!(Sys::mmap_plan(false, 10, PROT_READ, MAP_ANON, -1, 0), Err(Errno(38)));
    assert_eq!(Sys::mmap_plan(true, 10, 8, MAP_ANON, -1, 0), Err(Errno(22)));
    assert_eq!(Sys::mmap_plan(true, 10, PROT_READ, MAP_PRIVATE, -1, 0), Err(Errno(22)));
    assert_eq!(Sys::mmap_plan(true, 10, PROT_READ, MAP_PRIVATE, 3, 100), Err(Errno(22)));
}

#[test]
fn framebuffer_information() {
    let info = FramebufferInfo {
        byte_len: 1024 * 768 * 4,
        width: 1000,
        height: 768,
        stride: 1024,
        bytes_per_pixel: 4,
        pixel_format: FramebufferPixelFormat::Bgr,
    };
    let mut fix = fb_fix_screeninfo::default();
    Sys::fill_linux_fb_fix(info, &mut fix);
    let id: Vec<u8> = fix.id.iter().map(|&c| c as u8).collect();
    assert_eq!(&id[..8], b"seelefb\0");
    assert_eq!(fix.smem_len, 1024 * 768 * 4);
    assert_eq!(fix.line_length, 4096);
    assert_eq!(fix.type_, FB_TYPE_PACKED_PIXELS);
    assert_eq!(fix.visual, FB_VISUAL_TRUECOLOR);

    let mut var = fb_var_screeninfo::default();
    Sys::fill_linux_fb_var(info, &mut var);
    assert_eq!((var.xres, var.yres, var.xres_virtual, var.yres_virtual), (1000, 768, 1024, 768));
    assert_eq!(var.bits_per_pixel, 32);
    assert_eq!((var.red.offset, var.green.offset, var.blue.offset), (16, 8, 0));
    assert_eq!(var.red.length, 8);

    let (r, g, b) = Sys::framebuffer_bitfields(FramebufferPixelFormat::Rgb);
    assert_eq!((r.offset, g.offset, b.offset), (0, 8, 16));
}

fn dirent(ino: u64, off: u64, reclen: u16) -> Vec<u8> {
    let mut rec = Vec::new();
    rec.extend_from_slice(&ino.to_le_bytes());
    rec.extend_from_slice(&off.to_le_bytes());
    rec.extend_from_slice(&reclen.to_le_bytes());
    rec.resize(reclen as usize, 0);
    rec
}

#[test]
fn directory_records_are_walked() {
    let mut buf = dirent(1, 100, 24);
    buf.extend(dirent(2, 200, 32));
    let read = buf.len();
    buf.resize(512, 0);
    assert_eq!(Sys::dirent_walk(&buf, read, 7), Ok(200));
    assert_eq!(Sys::dirent_walk(&buf, 0, 7), Ok(7));
    assert_eq!(Sys::dirent_walk(&buf, 24, 7), Ok(100));
    let zero = dirent(1, 100, 24);
    let mut bad = zero.clone();
    bad[16] = 0;
    assert_eq!(Sys::dirent_walk(&bad, 24, 7), Err(Errno(5)));
    assert_eq!(Sys::dirent_walk(&zero[..10], 10, 7), Err(Errno(5)));
}

#[test]
fn statfs_becomes_statvfs() {
    let k = linux_statfs {
        f_type: 0x6969,
        f_bsize: 4096,
        f_blocks: 100,
        f_bfree: 50,
        f_bavail: 40,
        f_files: 30,
        f_ffree: 20,
        f_fsid: 9,
        f_namelen: 255,
        f_frsize: 0,
        f_flags: 1,
        f_spare: [0; 4],
    };
    let s = Sys::statvfs_from_statfs(&k);
    assert_eq!(
        s,
        statvfs {
            f_bsize: 4096,
            f_frsize: 4096,
            f_blocks: 100,
            f_bfree: 50,
            f_bavail: 40,
            f_files: 30,
            f_ffree: 20,
            f_favail: 20,
            f_fsid: 9,
            f_flag: 1,
            f_namemax: 255,
        }
    );
    let s2 = Sys::statvfs_from_statfs(&linux_statfs { f_frsize: 512, ..k });
    assert_eq!(s2.f_frsize, 512);
    let mut out = s;
    assert_eq!(Sys::fstatvfs(3, Some(&mut out)), Ok(()));
    assert_eq!(out, statvfs::default());
    assert_eq!(Sys::fstatvfs(3, None), Ok(()));
}

#[test]
fn decimal_renderings() {
    let mut out = b"fd=".to_vec();
    push_decimal(&mut out, 0);
    assert_eq!(out, b"fd=0".to_vec());
    let mut out = Vec::new();
    push_decimal(&mut out, u64::MAX);
    assert_eq!(out, u64::MAX.to_string().into_bytes());
    let mut out = Vec::new();
    push_signed_decimal(&mut out, -9_000);
    assert_eq!(out, b"-9000".to_vec());
    let mut out = Vec::new();
    push_signed_decimal(&mut out, i64::MIN);
    assert_eq!(out, i64::MIN.to_string().into_bytes());
}

#[test]
fn keys_come_out_sorted() {
    let mut m = std::collections::BTreeMap::new();
    for k in [5, -3, 12, 0] {
        m.insert(k, ());
    }
    assert_eq!(sorted_keys(&m), vec![-3, 0, 5, 12]);
    let empty: std::collections::BTreeMap<i32, u8> = std::collections::BTreeMap::new();
    assert!(sorted_keys(&empty).is_empty());
}

#[test]
fn unwinder_knows_nothing() {
    let mut before = 7;
    assert_eq!(_Unwind_GetIPInfo(0x1000, Some(&mut before)), 0);
    assert_eq!(before, 0);
    assert_eq!(_Unwind_GetIPInfo(0x1000, None), 0);
    assert_eq!(_Unwind_GetIP(0x1000), 0);
    assert_eq!(_Unwind_Backtrace(0x2000, 0x3000), 0);
}
