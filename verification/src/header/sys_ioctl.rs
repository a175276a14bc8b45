//! `sys/ioctl.h`: ioctl requests and the records they carry.

use crate::platform::types::{c_char, c_uint, c_ulong, c_ushort};
use vstd::prelude::*;

verus! {

pub const TCGETS: c_ulong = 0x5401;
pub const TCSETS: c_ulong = 0x5402;
pub const TCSETSW: c_ulong = 0x5403;
pub const TCSETSF: c_ulong = 0x5404;
pub const TCSBRK: c_ulong = 0x5409;
pub const TCXONC: c_ulong = 0x540A;
pub const TCFLSH: c_ulong = 0x540B;
pub const TIOCGWINSZ: c_ulong = 0x5413;
pub const TIOCSWINSZ: c_ulong = 0x5414;
pub const TIOCGSID: c_ulong = 0x5429;

pub const FBIOGET_VSCREENINFO: c_ulong = 0x4600;
pub const FBIOPUT_VSCREENINFO: c_ulong = 0x4601;
pub const FBIOGET_FSCREENINFO: c_ulong = 0x4602;
pub const FBIOGETCMAP: c_ulong = 0x4604;
pub const FBIOPUTCMAP: c_ulong = 0x4605;
pub const FBIOPAN_DISPLAY: c_ulong = 0x4606;
pub const FBIOBLANK: c_ulong = 0x4611;

pub const FB_TYPE_PACKED_PIXELS: c_uint = 0;
pub const FB_TYPE_PLANES: c_uint = 1;
pub const FB_TYPE_INTERLEAVED_PLANES: c_uint = 2;
pub const FB_TYPE_TEXT: c_uint = 3;
pub const FB_TYPE_VGA_PLANES: c_uint = 4;
pub const FB_TYPE_FOURCC: c_uint = 5;

pub const FB_VISUAL_MONO01: c_uint = 0;
pub const FB_VISUAL_MONO10: c_uint = 1;
pub const FB_VISUAL_TRUECOLOR: c_uint = 2;
pub const FB_VISUAL_PSEUDOCOLOR: c_uint = 3;
pub const FB_VISUAL_DIRECTCOLOR: c_uint = 4;
pub const FB_VISUAL_STATIC_PSEUDOCOLOR: c_uint = 5;
pub const FB_VISUAL_FOURCC: c_uint = 6;

/// Old-style terminal settings (used by `sgtty`).
pub struct sgttyb {
    sg_ispeed: c_char,
    sg_ospeed: c_char,
    sg_erase: c_char,
    sg_kill: c_char,
    sg_flags: c_ushort,
}

/// A terminal window size.
#[derive(Clone, Copy, Debug, Default, PartialEq, Eq, Structural)]
pub struct winsize {
    pub ws_row: c_ushort,
    pub ws_col: c_ushort,
    pub ws_xpixel: c_ushort,
    pub ws_ypixel: c_ushort,
}

impl winsize {
    /// The rows and columns.
    pub fn get_row_col(&self) -> (r: (c_ushort, c_ushort))
        ensures
            r == (self.ws_row, self.ws_col),
    {
        (self.ws_row, self.ws_col)
    }
}

/// A colour channel's place in a pixel.
#[derive(Clone, Copy, Debug, PartialEq, Eq, Structural)]
pub struct fb_bitfield {
    pub offset: c_uint,
    pub length: c_uint,
    pub msb_right: c_uint,
}

impl Default for fb_bitfield {
    fn default() -> (r: Self)
        ensures
            r == (fb_bitfield { offset: 0, length: 0, msb_right: 0 }),
    {
        fb_bitfield { offset: 0, length: 0, msb_right: 0 }
    }
}

/// Fixed framebuffer information.
#[derive(Clone, Copy)]
pub struct fb_fix_screeninfo {
    pub id: [c_char; 16],
    pub smem_start: c_ulong,
    pub smem_len: c_uint,
    pub type_: c_uint,
    pub type_aux: c_uint,
    pub visual: c_uint,
    pub xpanstep: c_ushort,
    pub ypanstep: c_ushort,
    pub ywrapstep: c_ushort,
    pub line_length: c_uint,
    pub mmio_start: c_ulong,
    pub mmio_len: c_uint,
    pub accel: c_uint,
    pub capabilities: c_ushort,
    pub reserved: [c_ushort; 2],
}

/// `f` is all zeros.
pub open spec fn fix_screeninfo_zeroed(f: fb_fix_screeninfo) -> bool {
    &&& f.id@ == Seq::new(16, |i: int| 0 as c_char)
    &&& f.smem_start == 0
    &&& f.smem_len == 0
    &&& f.type_ == 0
    &&& f.type_aux == 0
    &&& f.visual == 0
    &&& f.xpanstep == 0
    &&& f.ypanstep == 0
    &&& f.ywrapstep == 0
    &&& f.line_length == 0
    &&& f.mmio_start == 0
    &&& f.mmio_len == 0
    &&& f.accel == 0
    &&& f.capabilities == 0
    &&& f.reserved@ == seq![0 as c_ushort, 0 as c_ushort]
}

impl Default for fb_fix_screeninfo {
    fn default() -> (r: Self)
        ensures
            fix_screeninfo_zeroed(r),
    {
        let r = Self {
            id: [0; 16],
            smem_start: 0,
            smem_len: 0,
            type_: 0,
            type_aux: 0,
            visual: 0,
            xpanstep: 0,
            ypanstep: 0,
            ywrapstep: 0,
            line_length: 0,
            mmio_start: 0,
            mmio_len: 0,
            accel: 0,
            capabilities: 0,
            reserved: [0; 2],
        };
        assert(r.id@ =~= Seq::new(16, |i: int| 0 as c_char));
        assert(r.reserved@ =~= seq![0 as c_ushort, 0 as c_ushort]);
        r
    }
}

/// Variable framebuffer information.
#[derive(Clone, Copy)]
pub struct fb_var_screeninfo {
    pub xres: c_uint,
    pub yres: c_uint,
    pub xres_virtual: c_uint,
    pub yres_virtual: c_uint,
    pub xoffset: c_uint,
    pub yoffset: c_uint,
    pub bits_per_pixel: c_uint,
    pub grayscale: c_uint,
    pub red: fb_bitfield,
    pub green: fb_bitfield,
    pub blue: fb_bitfield,
    pub transp: fb_bitfield,
    pub nonstd: c_uint,
    pub activate: c_uint,
    pub height: c_uint,
    pub width: c_uint,
    pub accel_flags: c_uint,
    pub pixclock: c_uint,
    pub left_margin: c_uint,
    pub right_margin: c_uint,
    pub upper_margin: c_uint,
    pub lower_margin: c_uint,
    pub hsync_len: c_uint,
    pub vsync_len: c_uint,
    pub sync: c_uint,
    pub vmode: c_uint,
    pub rotate: c_uint,
    pub colorspace: c_uint,
    pub reserved: [c_uint; 4],
}

/// A zero bitfield.
pub open spec fn zero_bitfield() -> fb_bitfield {
    fb_bitfield { offset: 0, length: 0, msb_right: 0 }
}

/// `v` is all zeros.
pub open spec fn var_screeninfo_zeroed(v: fb_var_screeninfo) -> bool {
    &&& v.xres == 0 && v.yres == 0 && v.xres_virtual == 0 && v.yres_virtual == 0
    &&& v.xoffset == 0 && v.yoffset == 0 && v.bits_per_pixel == 0 && v.grayscale == 0
    &&& v.red == zero_bitfield() && v.green == zero_bitfield() && v.blue == zero_bitfield()
    &&& v.transp == zero_bitfield()
    &&& v.nonstd == 0 && v.activate == 0 && v.height == 0 && v.width == 0
    &&& v.accel_flags == 0 && v.pixclock == 0 && v.left_margin == 0 && v.right_margin == 0
    &&& v.upper_margin == 0 && v.lower_margin == 0 && v.hsync_len == 0 && v.vsync_len == 0
    &&& v.sync == 0 && v.vmode == 0 && v.rotate == 0 && v.colorspace == 0
    &&& v.reserved@ == seq![0 as c_uint, 0 as c_uint, 0 as c_uint, 0 as c_uint]
}

impl Default for fb_var_screeninfo {
    fn default() -> (r: Self)
        ensures
            var_screeninfo_zeroed(r),
    {
        let zero = fb_bitfield { offset: 0, length: 0, msb_right: 0 };
        let r = Self {
            xres: 0,
            yres: 0,
            xres_virtual: 0,
            yres_virtual: 0,
            xoffset: 0,
            yoffset: 0,
            bits_per_pixel: 0,
            grayscale: 0,
            red: zero,
            green: zero,
            blue: zero,
            transp: zero,
            nonstd: 0,
            activate: 0,
            height: 0,
            width: 0,
            accel_flags: 0,
            pixclock: 0,
            left_margin: 0,
            right_margin: 0,
            upper_margin: 0,
            lower_margin: 0,
            hsync_len: 0,
            vsync_len: 0,
            sync: 0,
            vmode: 0,
            rotate: 0,
            colorspace: 0,
            reserved: [0; 4],
        };
        assert(r.reserved@ =~= seq![0 as c_uint, 0 as c_uint, 0 as c_uint, 0 as c_uint]);
        r
    }
}

/// A colour map; the channel arrays are given by address.
#[derive(Clone, Copy)]
pub struct fb_cmap {
    pub start: c_uint,
    pub len: c_uint,
    pub red: usize,
    pub green: usize,
    pub blue: usize,
    pub transp: usize,
}

} // verus!
