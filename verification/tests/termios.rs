use relibc::error::Errno;
use relibc::header::sys_ioctl::{TCSETS, TCSETSF, TCSETSW};
use relibc::header::termios::{
    cfgetispeed, cfgetospeed, cfmakeraw, cfsetispeed, cfsetospeed, cfsetspeed, tcsetattr_request,
    termios, B0, B115200, B38400, B57600, B9600, CS8, ECHO, ECHOE, ECHONL, ICANON, ICRNL, ISIG,
    IXON, OPOST, VEOF, VERASE, VINTR, VMIN, VTIME,
};
use relibc::platform::seele::abi::TerminalInfo;

fn info(echo: bool, canonical: bool, echo_newline: bool, echo_delete: bool) -> TerminalInfo {
    TerminalInfo { rows: 24, cols: 80, echo, canonical, echo_newline, echo_delete }
}

#[test]
fn sane_defaults_values() {
    let t = termios::sane_defaults();
    assert_eq!(t.c_iflag, 0o2400);
    assert_eq!(t.c_oflag, 0o5);
    assert_eq!(t.c_cflag, 0o2277);
    assert_eq!(t.c_lflag, 0o100073);
    assert_eq!(t.__c_ispeed, B38400);
    assert_eq!(t.__c_ospeed, B38400);
    assert_eq!(t.c_cc[VINTR], 3);
    assert_eq!(t.c_cc[VERASE], 127);
    assert_eq!(t.c_cc[VEOF], 4);
    assert_eq!(t.c_cc[VMIN], 1);
    assert_eq!(t.c_cc[VTIME], 0);
    assert_eq!(t.c_line, 0);
}

#[test]
fn raw_mode() {
    let mut t = termios::sane_defaults();
    cfmakeraw(&mut t);
    assert_eq!(t.c_iflag & (ICRNL | IXON), 0);
    assert_eq!(t.c_oflag & OPOST, 0);
    assert_eq!(t.c_lflag & (ECHO | ICANON | ISIG), 0);
    assert_eq!(t.c_cflag & CS8, CS8);
    assert_eq!((t.c_cc[VMIN], t.c_cc[VTIME]), (1, 0));
    let once = t;
    cfmakeraw(&mut t);
    assert_eq!(t.c_iflag, once.c_iflag);
    assert_eq!(t.c_oflag, once.c_oflag);
    assert_eq!(t.c_cflag, once.c_cflag);
    assert_eq!(t.c_lflag, once.c_lflag);
    assert_eq!(t.c_cc, once.c_cc);
    let mut s = termios::sane_defaults();
    s.set_raw_mode();
    assert_eq!(s.c_lflag, once.c_lflag);
}

#[test]
fn noncanonical_mode_only_clears_icanon() {
    let mut t = termios::sane_defaults();
    t.set_noncanonical_mode();
    assert_eq!(t.c_lflag, termios::sane_defaults().c_lflag & !ICANON);
    assert_eq!((t.c_cc[VMIN], t.c_cc[VTIME]), (1, 0));
}

#[test]
fn settings_from_terminal_state() {
    let t = termios::from(info(true, true, true, true));
    assert_eq!(t.c_lflag & (ECHO | ICANON | ECHONL | ECHOE), ECHO | ICANON | ECHONL | ECHOE);
    let t = termios::from(info(false, false, false, false));
    assert_eq!(t.c_lflag & (ECHO | ICANON | ECHONL | ECHOE), 0);
    assert_eq!(t.c_lflag & ISIG, ISIG);
}

#[test]
fn terminal_state_from_settings() {
    let current = info(false, false, false, false);
    let t = termios::sane_defaults();
    assert_eq!(t.as_seele_terminal_info(current), info(true, true, true, true));
    let mut raw = t;
    raw.c_lflag = ECHONL;
    assert_eq!(raw.as_seele_terminal_info(current), info(false, false, true, false));
    raw.c_lflag = ECHOE;
    assert_eq!(raw.as_seele_terminal_info(current), info(false, false, false, false));
}

#[test]
fn terminal_state_round_trip() {
    for (echo, canonical, echo_newline, echo_delete) in [
        (true, true, true, true),
        (true, false, true, false),
        (false, true, false, false),
        (false, false, true, false),
    ] {
        let state = info(echo, canonical, echo_newline, echo_delete);
        assert_eq!(termios::from(state).as_seele_terminal_info(state), state);
    }
}

#[test]
fn speeds() {
    let mut t = termios::sane_defaults();
    assert_eq!(cfsetispeed(&mut t, B9600), Ok(()));
    assert_eq!(cfgetispeed(&t), B9600);
    assert_eq!(cfgetospeed(&t), B38400);
    assert_eq!(cfsetospeed(&mut t, B115200), Ok(()));
    assert_eq!(cfgetospeed(&t), B115200);
    assert_eq!(cfsetspeed(&mut t, B57600), Ok(()));
    assert_eq!((cfgetispeed(&t), cfgetospeed(&t)), (B57600, B57600));
    assert_eq!(cfsetspeed(&mut t, B0), Ok(()));
    assert_eq!(cfsetispeed(&mut t, 0o20), Err(Errno(22)));
    assert_eq!(cfsetospeed(&mut t, 0o10020), Err(Errno(22)));
    assert_eq!(cfsetspeed(&mut t, 0o777777), Err(Errno(22)));
    assert_eq!((cfgetispeed(&t), cfgetospeed(&t)), (B0, B0));
}

#[test]
fn tcsetattr_actions() {
    assert_eq!(tcsetattr_request(0), Ok(TCSETS));
    assert_eq!(tcsetattr_request(1), Ok(TCSETSW));
    assert_eq!(tcsetattr_request(2), Ok(TCSETSF));
    assert_eq!(tcsetattr_request(3), Err(Errno(22)));
    assert_eq!(tcsetattr_request(-1), Err(Errno(22)));
}
