//! Plain-value models of the Seele kernel ABI records that the platform
//! layer reads and fills. The system call layer converts between these and
//! the kernel's own records.

use vstd::prelude::*;
use vstd::string::StringSliceAdditionalSpecFns;

verus! {

/// The terminal state that Seele tracks for a tty.
#[derive(Clone, Copy, Debug, PartialEq, Eq, Structural)]
pub struct TerminalInfo {
    pub rows: u64,
    pub cols: u64,
    pub echo: bool,
    pub canonical: bool,
    pub echo_newline: bool,
    pub echo_delete: bool,
}

/// The byte order of a Seele framebuffer pixel.
#[derive(Clone, Copy, Debug, PartialEq, Eq, Structural)]
pub enum FramebufferPixelFormat {
    Rgb,
    Bgr,
}

/// What Seele reports about a framebuffer.
#[derive(Clone, Copy, Debug, PartialEq, Eq, Structural)]
pub struct FramebufferInfo {
    pub byte_len: u64,
    pub width: u64,
    pub height: u64,
    pub stride: u64,
    pub bytes_per_pixel: u64,
    pub pixel_format: FramebufferPixelFormat,
}

/// Seele page permissions.
#[derive(Clone, Copy, Debug, PartialEq, Eq, Structural)]
pub struct Permissions {
    pub readable: bool,
    pub writable: bool,
    pub executable: bool,
}

/// The clock that a Seele timer runs on.
#[derive(Clone, Copy, Debug, PartialEq, Eq, Structural)]
pub enum TimeType {
    Realtime,
    SinceBoot,
}

/// The mode of a Seele timer.
#[derive(Clone, Copy, Debug, PartialEq, Eq, Structural)]
pub enum TimerStateType {
    Disabled,
    OneShot,
    Periodic,
}

/// The state of a Seele timer: an absolute deadline and a reload interval,
/// in nanoseconds.
#[derive(Clone, Copy, Debug, PartialEq, Eq, Structural)]
pub struct TimerStateStruct {
    pub state_type: TimerStateType,
    pub deadline: u64,
    pub interval: u64,
}

/// How a Seele timer tells its owner that it expired.
#[derive(Clone, Copy, Debug, PartialEq, Eq, Structural)]
pub enum TimerNotifyType {
    NoNotification,
    Signal,
}

/// A Seele timer's notification: its kind and, for a signal, the signal
/// number.
#[derive(Clone, Copy, Debug, PartialEq, Eq, Structural)]
pub struct TimerNotifyStruct {
    pub notify_type: TimerNotifyType,
    pub signal: u64,
}

/// How Seele handles a signal; handlers are code addresses.
#[derive(Clone, Copy, Debug, PartialEq, Eq, Structural)]
pub enum SignalHandlingType {
    Default,
    Ignore,
    /// A handler that takes the signal number.
    Function1(usize),
    /// A handler that takes the signal number, a `siginfo_t` and a context.
    Function2(usize),
}

/// Seele's record of a signal action.
#[derive(Clone, Copy, Debug, PartialEq, Eq, Structural)]
pub struct SignalAction {
    pub handling_type: SignalHandlingType,
    pub sig_handler_ignored_sigs: u64,
    pub flags: u64,
    pub restorer: usize,
}

/// What Seele reports about the running system: its name and its version,
/// as bytes.
pub struct SystemInfo {
    pub name: Vec<u8>,
    pub version: Vec<u8>,
}

impl SystemInfo {
    /// The record for the system `name` at version `version`.
    pub fn new(name: &str, version: &str) -> (info: SystemInfo)
        ensures
            info.name@ == name.spec_bytes(),
            info.version@ == version.spec_bytes(),
    {
        SystemInfo {
            name: vstd::slice::slice_to_vec(name.as_bytes()),
            version: vstd::slice::slice_to_vec(version.as_bytes()),
        }
    }

    /// The system's name.
    pub fn name(&self) -> (r: &[u8])
        ensures
            r@ == self.name@,
    {
        self.name.as_slice()
    }

    /// The system's version.
    pub fn version(&self) -> (r: &[u8])
        ensures
            r@ == self.version@,
    {
        self.version.as_slice()
    }
}

} // verus!
