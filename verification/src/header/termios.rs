//! `termios.h` on Seele: the terminal settings record and its translation to
//! and from the terminal state that Seele tracks.

use crate::error::Errno;
use crate::header::errno::EINVAL;
use crate::header::sys_ioctl::TCSETS;
use crate::platform::seele::abi::TerminalInfo;
use crate::platform::types::{c_int, c_ulong};
use vstd::prelude::*;

verus! {

pub type cc_t = u8;
pub type speed_t = u32;
pub type tcflag_t = u32;

pub const NCCS: usize = 32;

pub const VINTR: usize = 0;
pub const VQUIT: usize = 1;
pub const VERASE: usize = 2;
pub const VKILL: usize = 3;
pub const VEOF: usize = 4;
pub const VTIME: usize = 5;
pub const VMIN: usize = 6;
pub const VSWTC: usize = 7;
pub const VSTART: usize = 8;
pub const VSTOP: usize = 9;
pub const VSUSP: usize = 10;
pub const VEOL: usize = 11;
pub const VREPRINT: usize = 12;
pub const VDISCARD: usize = 13;
pub const VWERASE: usize = 14;
pub const VLNEXT: usize = 15;
pub const VEOL2: usize = 16;

pub const _POSIX_VDISABLE: cc_t = 0;

pub const IGNBRK: tcflag_t = 0o000001;
pub const BRKINT: tcflag_t = 0o000002;
pub const IGNPAR: tcflag_t = 0o000004;
pub const PARMRK: tcflag_t = 0o000010;
pub const INPCK: tcflag_t = 0o000020;
pub const ISTRIP: tcflag_t = 0o000040;
pub const INLCR: tcflag_t = 0o000100;
pub const IGNCR: tcflag_t = 0o000200;
pub const ICRNL: tcflag_t = 0o000400;
pub const IXON: tcflag_t = 0o002000;
pub const IXANY: tcflag_t = 0o004000;
pub const IXOFF: tcflag_t = 0o010000;

pub const OPOST: tcflag_t = 0o000001;
pub const ONLCR: tcflag_t = 0o000004;

pub const CSIZE: tcflag_t = 0o000060;
pub const CS5: tcflag_t = 0o000000;
pub const CS6: tcflag_t = 0o000020;
pub const CS7: tcflag_t = 0o000040;
pub const CS8: tcflag_t = 0o000060;
pub const CSTOPB: tcflag_t = 0o000100;
pub const CREAD: tcflag_t = 0o000200;
pub const PARENB: tcflag_t = 0o000400;
pub const PARODD: tcflag_t = 0o001000;
pub const HUPCL: tcflag_t = 0o002000;
pub const CLOCAL: tcflag_t = 0o004000;

pub const ISIG: tcflag_t = 0o000001;
pub const ICANON: tcflag_t = 0o000002;
pub const ECHO: tcflag_t = 0o000010;
pub const ECHOE: tcflag_t = 0o000020;
pub const ECHOK: tcflag_t = 0o000040;
pub const ECHONL: tcflag_t = 0o000100;
pub const NOFLSH: tcflag_t = 0o000200;
pub const TOSTOP: tcflag_t = 0o000400;
pub const IEXTEN: tcflag_t = 0o100000;

pub const B0: speed_t = 0o000000;
pub const B50: speed_t = 0o000001;
pub const B9600: speed_t = 0o000015;
pub const B19200: speed_t = 0o000016;
pub const B38400: speed_t = 0o000017;
pub const B57600: speed_t = 0o010001;
pub const B115200: speed_t = 0o010002;
pub const B4000000: speed_t = 0o010017;

pub const TCOOFF: c_int = 0;
pub const TCOON: c_int = 1;
pub const TCIOFF: c_int = 2;
pub const TCION: c_int = 3;

pub const TCIFLUSH: c_int = 0;
pub const TCOFLUSH: c_int = 1;
pub const TCIOFLUSH: c_int = 2;

pub const TCSANOW: c_int = 0;
pub const TCSADRAIN: c_int = 1;
pub const TCSAFLUSH: c_int = 2;

/// The input flags that raw mode clears.
pub const RAW_IFLAG_CLEAR: tcflag_t = IGNBRK | BRKINT | PARMRK | ISTRIP | INLCR | IGNCR | ICRNL
    | IXON;
/// The local flags that raw mode clears.
pub const RAW_LFLAG_CLEAR: tcflag_t = ECHO | ECHONL | ICANON | ISIG | IEXTEN;

/// Terminal settings.
#[derive(Clone, Copy)]
pub struct termios {
    pub c_iflag: tcflag_t,
    pub c_oflag: tcflag_t,
    pub c_cflag: tcflag_t,
    pub c_lflag: tcflag_t,
    pub c_line: cc_t,
    pub c_cc: [cc_t; NCCS],
    pub __c_ispeed: speed_t,
    pub __c_ospeed: speed_t,
}

/// The control character that the sane settings give slot `i`.
pub open spec fn sane_control_char(i: int) -> cc_t {
    if i == VINTR {
        3
    } else if i == VQUIT {
        28
    } else if i == VERASE {
        127
    } else if i == VKILL {
        21
    } else if i == VEOF {
        4
    } else if i == VMIN {
        1
    } else if i == VTIME {
        0
    } else if i == VSTART {
        17
    } else if i == VSTOP {
        19
    } else if i == VSUSP {
        26
    } else if i == VREPRINT {
        18
    } else if i == VDISCARD {
        15
    } else if i == VWERASE {
        23
    } else if i == VLNEXT {
        22
    } else {
        _POSIX_VDISABLE
    }
}

/// The local flags of the sane settings.
pub open spec fn sane_lflag() -> tcflag_t {
    ISIG | ICANON | ECHO | ECHOE | ECHOK | IEXTEN
}

/// `t` holds the sane settings, but for its local flags.
pub open spec fn sane_but_lflag(t: termios) -> bool {
    &&& t.c_iflag == ICRNL | IXON
    &&& t.c_oflag == OPOST | ONLCR
    &&& t.c_cflag == B38400 | CS8 | CREAD | HUPCL
    &&& t.c_line == 0
    &&& t.c_cc@ == Seq::new(NCCS as nat, |i: int| sane_control_char(i))
    &&& t.__c_ispeed == B38400
    &&& t.__c_ospeed == B38400
}

/// `after` is `before` in raw mode: no input translation, no output
/// processing, no echo, no canonical line editing, no signals, 8-bit
/// characters, and reads that return after one byte.
pub open spec fn is_raw_mode_of(before: termios, after: termios) -> bool {
    &&& after.c_iflag == before.c_iflag & !RAW_IFLAG_CLEAR
    &&& after.c_oflag == before.c_oflag & !OPOST
    &&& after.c_lflag == before.c_lflag & !RAW_LFLAG_CLEAR
    &&& after.c_cflag == (before.c_cflag & !(CSIZE | PARENB)) | CS8
    &&& after.c_line == before.c_line
    &&& after.c_cc@ == before.c_cc@.update(VMIN as int, 1).update(VTIME as int, 0)
    &&& after.__c_ispeed == before.__c_ispeed
    &&& after.__c_ospeed == before.__c_ospeed
}

/// The local flags that stand for the Seele terminal state `info`: signals
/// and the extended and kill-echo features always, and canonical mode and
/// the three echo settings as Seele has them.
pub open spec fn lflag_for(info: TerminalInfo) -> tcflag_t {
    ISIG | ECHOK | IEXTEN | (if info.canonical {
        ICANON
    } else {
        0
    }) | (if info.echo {
        ECHO
    } else {
        0
    }) | (if info.echo_newline {
        ECHONL
    } else {
        0
    }) | (if info.echo_delete {
        ECHOE
    } else {
        0
    })
}

/// The Seele terminal state that the local flags `lflag` ask for, with the
/// size of `current`: echo, canonical mode, newline echo (also implied by
/// echo), and erase echo (echo with `ECHOE`).
pub open spec fn terminal_info_for(lflag: tcflag_t, current: TerminalInfo) -> TerminalInfo {
    TerminalInfo {
        rows: current.rows,
        cols: current.cols,
        echo: lflag & ECHO != 0,
        canonical: lflag & ICANON != 0,
        echo_newline: lflag & ECHO != 0 || lflag & ECHONL != 0,
        echo_delete: lflag & ECHO != 0 && lflag & ECHOE != 0,
    }
}

/// The speeds that `cfsetispeed` and `cfsetospeed` accept.
pub open spec fn valid_speed(speed: speed_t) -> bool {
    B0 <= speed <= B38400 || B57600 <= speed <= B4000000
}

/// The line speeds a terminal accepts are the codes 0 (hang up) to 0o17
/// (38400 baud) and 0o10001 (57600 baud) to 0o10017 (4000000 baud); every
/// other code is refused.
pub proof fn lemma_valid_speeds(speed: speed_t)
    ensures
        valid_speed(speed) <==> (speed <= 0o17 || 0o10001 <= speed <= 0o10017),
{
}

impl termios {
    /// The settings of a fresh terminal: canonical mode with echo, signals,
    /// CR-to-NL input translation, NL-to-CRNL output, 8 bits at 38400 baud,
    /// and the usual control characters.
    pub fn sane_defaults() -> (t: Self)
        ensures
            sane_but_lflag(t),
            t.c_lflag == sane_lflag(),
    {
        let mut termios = termios {
            c_iflag: ICRNL | IXON,
            c_oflag: OPOST | ONLCR,
            c_cflag: B38400 | CS8 | CREAD | HUPCL,
            c_lflag: ISIG | ICANON | ECHO | ECHOE | ECHOK | IEXTEN,
            c_line: 0,
            c_cc: [_POSIX_VDISABLE; NCCS],
            __c_ispeed: B38400,
            __c_ospeed: B38400,
        };

        termios.c_cc[VINTR] = 3;
        termios.c_cc[VQUIT] = 28;
        termios.c_cc[VERASE] = 127;
        termios.c_cc[VKILL] = 21;
        termios.c_cc[VEOF] = 4;
        termios.c_cc[VMIN] = 1;
        termios.c_cc[VTIME] = 0;
        termios.c_cc[VSTART] = 17;
        termios.c_cc[VSTOP] = 19;
        termios.c_cc[VSUSP] = 26;
        termios.c_cc[VREPRINT] = 18;
        termios.c_cc[VDISCARD] = 15;
        termios.c_cc[VWERASE] = 23;
        termios.c_cc[VLNEXT] = 22;

        assert(termios.c_cc@ =~= Seq::new(NCCS as nat, |i: int| sane_control_char(i)));
        termios
    }

    /// Switches the settings to raw mode (as `cfmakeraw` does).
    pub fn set_raw_mode(&mut self)
        ensures
            is_raw_mode_of(*old(self), *final(self)),
    {
        self.c_iflag &= !(IGNBRK | BRKINT | PARMRK | ISTRIP | INLCR | IGNCR | ICRNL | IXON);
        self.c_oflag &= !OPOST;
        self.c_lflag &= !(ECHO | ECHONL | ICANON | ISIG | IEXTEN);
        self.c_cflag &= !(CSIZE | PARENB);
        self.c_cflag |= CS8;
        self.c_cc[VMIN] = 1;
        self.c_cc[VTIME] = 0;
    }

    /// Leaves canonical mode only: reads return after one byte, and nothing
    /// else changes.
    pub fn set_noncanonical_mode(&mut self)
        ensures
            final(self).c_lflag == old(self).c_lflag & !ICANON,
            final(self).c_cc@ == old(self).c_cc@.update(VMIN as int, 1).update(VTIME as int, 0),
            final(self).c_iflag == old(self).c_iflag,
            final(self).c_oflag == old(self).c_oflag,
            final(self).c_cflag == old(self).c_cflag,
            final(self).c_line == old(self).c_line,
            final(self).__c_ispeed == old(self).__c_ispeed,
            final(self).__c_ospeed == old(self).__c_ospeed,
    {
        self.c_lflag &= !ICANON;
        self.c_cc[VMIN] = 1;
        self.c_cc[VTIME] = 0;
    }

    /// The Seele terminal state that these settings ask for, keeping the
    /// size from `current`: echo, canonical mode, newline echo (also implied
    /// by echo), and erase echo (echo with `ECHOE`).
    pub fn as_seele_terminal_info(&self, current: TerminalInfo) -> (info: TerminalInfo)
        ensures
            info == terminal_info_for(self.c_lflag, current),
    {
        let echo = self.c_lflag & ECHO != 0;
        let canonical = self.c_lflag & ICANON != 0;
        let echo_newline = echo || self.c_lflag & ECHONL != 0;
        let echo_delete = self.c_lflag & (ECHO | ECHOE) == (ECHO | ECHOE);
        let l = self.c_lflag;
        assert((l & (ECHO | ECHOE) == (ECHO | ECHOE)) == (l & ECHO != 0 && l & ECHOE != 0))
            by (bit_vector);

        TerminalInfo {
            rows: current.rows,
            cols: current.cols,
            echo,
            canonical,
            echo_newline,
            echo_delete,
        }
    }

    /// The settings that stand for the Seele terminal state `terminal_info`:
    /// the sane settings with canonical mode and the three echo settings
    /// taken from Seele.
    pub fn from(terminal_info: TerminalInfo) -> (t: Self)
        ensures
            sane_but_lflag(t),
            t.c_lflag == lflag_for(terminal_info),
    {
        let mut termios = termios::sane_defaults();
        let ghost l0 = termios.c_lflag;

        if !terminal_info.canonical {
            termios.set_noncanonical_mode();
        }
        assert(termios.c_cc@ =~= Seq::new(NCCS as nat, |i: int| sane_control_char(i)));
        let ghost l1 = termios.c_lflag;

        if terminal_info.echo {
            termios.c_lflag |= ECHO;
        } else {
            termios.c_lflag &= !ECHO;
        }
        let ghost l2 = termios.c_lflag;

        if terminal_info.echo_newline {
            termios.c_lflag |= ECHONL;
        } else {
            termios.c_lflag &= !ECHONL;
        }
        let ghost l3 = termios.c_lflag;

        if terminal_info.echo_delete {
            termios.c_lflag |= ECHOE;
        } else {
            termios.c_lflag &= !ECHOE;
        }

        proof {
            let c = terminal_info.canonical;
            let e = terminal_info.echo;
            let n = terminal_info.echo_newline;
            let d = terminal_info.echo_delete;
            let l4 = termios.c_lflag;
            assert(l4 == ISIG | ECHOK | IEXTEN | (if c {
                ICANON
            } else {
                0
            }) | (if e {
                ECHO
            } else {
                0
            }) | (if n {
                ECHONL
            } else {
                0
            }) | (if d {
                ECHOE
            } else {
                0
            })) by (bit_vector)
                requires
                    l0 == ISIG | ICANON | ECHO | ECHOE | ECHOK | IEXTEN,
                    l1 == (if c {
                        l0
                    } else {
                        l0 & !ICANON
                    }),
                    l2 == (if e {
                        l1 | ECHO
                    } else {
                        l1 & !ECHO
                    }),
                    l3 == (if n {
                        l2 | ECHONL
                    } else {
                        l2 & !ECHONL
                    }),
                    l4 == (if d {
                        l3 | ECHOE
                    } else {
                        l3 & !ECHOE
                    }),
            ;
        }
        termios
    }
}

/// `cfgetispeed`: the input speed.
pub fn cfgetispeed(termios_p: &termios) -> (speed: speed_t)
    ensures
        speed == termios_p.__c_ispeed,
{
    termios_p.__c_ispeed
}

/// `cfgetospeed`: the output speed.
pub fn cfgetospeed(termios_p: &termios) -> (speed: speed_t)
    ensures
        speed == termios_p.__c_ospeed,
{
    termios_p.__c_ospeed
}

/// `cfsetispeed`: sets the input speed, or fails with `EINVAL` for a speed
/// that is not one of the `B*` values.
pub fn cfsetispeed(termios_p: &mut termios, speed: speed_t) -> (r: Result<(), Errno>)
    ensures
        r is Ok <==> valid_speed(speed),
        r is Ok <==> (speed <= 0o17 || 0o10001 <= speed <= 0o10017),
        r is Err ==> r == Err::<(), Errno>(Errno(EINVAL)) && *final(termios_p) == *old(termios_p),
        r is Ok ==> *final(termios_p) == (termios { __c_ispeed: speed, ..*old(termios_p) }),
{
    if (B0 <= speed && speed <= B38400) || (B57600 <= speed && speed <= B4000000) {
        termios_p.__c_ispeed = speed;
        Ok(())
    } else {
        Err(Errno(EINVAL))
    }
}

/// `cfsetospeed`: sets the output speed, or fails with `EINVAL` for a speed
/// that is not one of the `B*` values.
pub fn cfsetospeed(termios_p: &mut termios, speed: speed_t) -> (r: Result<(), Errno>)
    ensures
        r is Ok <==> valid_speed(speed),
        r is Ok <==> (speed <= 0o17 || 0o10001 <= speed <= 0o10017),
        r is Err ==> r == Err::<(), Errno>(Errno(EINVAL)) && *final(termios_p) == *old(termios_p),
        r is Ok ==> *final(termios_p) == (termios { __c_ospeed: speed, ..*old(termios_p) }),
{
    if (B0 <= speed && speed <= B38400) || (B57600 <= speed && speed <= B4000000) {
        termios_p.__c_ospeed = speed;
        Ok(())
    } else {
        Err(Errno(EINVAL))
    }
}

/// `cfsetspeed`: sets both speeds, or fails with `EINVAL` and changes
/// nothing.
pub fn cfsetspeed(termios_p: &mut termios, speed: speed_t) -> (r: Result<(), Errno>)
    ensures
        r is Ok <==> valid_speed(speed),
        r is Ok <==> (speed <= 0o17 || 0o10001 <= speed <= 0o10017),
        r is Err ==> r == Err::<(), Errno>(Errno(EINVAL)) && *final(termios_p) == *old(termios_p),
        r is Ok ==> *final(termios_p) == (termios {
            __c_ispeed: speed,
            __c_ospeed: speed,
            ..*old(termios_p)
        }),
{
    let r = cfsetispeed(termios_p, speed);
    if r.is_err() {
        return r;
    }
    cfsetospeed(termios_p, speed)
}

/// `cfmakeraw`: switches the settings to raw mode.
pub fn cfmakeraw(termios_p: &mut termios)
    ensures
        is_raw_mode_of(*old(termios_p), *final(termios_p)),
{
    termios_p.c_iflag &= !(IGNBRK | BRKINT | PARMRK | ISTRIP | INLCR | IGNCR | ICRNL | IXON);
    termios_p.c_oflag &= !OPOST;
    termios_p.c_lflag &= !(ECHO | ECHONL | ICANON | ISIG | IEXTEN);
    termios_p.c_cflag &= !(CSIZE | PARENB);
    termios_p.c_cflag |= CS8;
    termios_p.c_cc[VMIN] = 1;
    termios_p.c_cc[VTIME] = 0;
}

/// The ioctl request that `tcsetattr` sends for the action `act`
/// (`TCSANOW`, `TCSADRAIN` or `TCSAFLUSH`), or `EINVAL` for another action.
pub fn tcsetattr_request(act: c_int) -> (r: Result<c_ulong, Errno>)
    ensures
        0 <= act <= 2 ==> r == Ok::<c_ulong, Errno>((TCSETS + act) as c_ulong),
        !(0 <= act <= 2) ==> r == Err::<c_ulong, Errno>(Errno(EINVAL)),
{
    if act < 0 || act > 2 {
        return Err(Errno(EINVAL));
    }
    Ok(TCSETS + act as c_ulong)
}

/// Translating Seele's terminal state into settings and back gives the
/// same state, for every state in which echo implies newline echo and erase
/// echo implies echo (the only states that settings can express).
pub proof fn lemma_terminal_info_round_trip(info: TerminalInfo, current: TerminalInfo)
    requires
        info.echo ==> info.echo_newline,
        info.echo_delete ==> info.echo,
    ensures
        terminal_info_for(lflag_for(info), current) == (TerminalInfo {
            rows: current.rows,
            cols: current.cols,
            ..info
        }),
{
    let c = info.canonical;
    let e = info.echo;
    let n = info.echo_newline;
    let d = info.echo_delete;
    let l = lflag_for(info);
    assert({
        &&& (l & ECHO != 0) == e
        &&& (l & ICANON != 0) == c
        &&& (l & ECHONL != 0) == n
        &&& (l & ECHOE != 0) == d
    }) by (bit_vector)
        requires
            l == ISIG | ECHOK | IEXTEN | (if c {
                ICANON
            } else {
                0
            }) | (if e {
                ECHO
            } else {
                0
            }) | (if n {
                ECHONL
            } else {
                0
            }) | (if d {
                ECHOE
            } else {
                0
            }),
    ;
}

/// Raw mode is what `cfmakeraw` and `set_raw_mode` both produce, and
/// switching to raw mode twice is switching once.
pub proof fn lemma_raw_mode_idempotent(a: termios, b: termios, c: termios)
    requires
        is_raw_mode_of(a, b),
        is_raw_mode_of(b, c),
    ensures
        c.c_iflag == b.c_iflag,
        c.c_oflag == b.c_oflag,
        c.c_cflag == b.c_cflag,
        c.c_lflag == b.c_lflag,
        c.c_line == b.c_line,
        c.c_cc@ == b.c_cc@,
        c.__c_ispeed == b.__c_ispeed,
        c.__c_ospeed == b.__c_ospeed,
{
    assert(c.c_cc@ =~= b.c_cc@);
    let (ai, ao, al, ac) = (a.c_iflag, a.c_oflag, a.c_lflag, a.c_cflag);
    assert(((ai & !RAW_IFLAG_CLEAR) & !RAW_IFLAG_CLEAR) == (ai & !RAW_IFLAG_CLEAR)) by (bit_vector);
    assert(((ao & !OPOST) & !OPOST) == (ao & !OPOST)) by (bit_vector);
    assert(((al & !RAW_LFLAG_CLEAR) & !RAW_LFLAG_CLEAR) == (al & !RAW_LFLAG_CLEAR)) by (bit_vector);
    assert(((((ac & !(CSIZE | PARENB)) | CS8) & !(CSIZE | PARENB)) | CS8) == ((ac & !(CSIZE
        | PARENB)) | CS8)) by (bit_vector);
}

} // verus!
