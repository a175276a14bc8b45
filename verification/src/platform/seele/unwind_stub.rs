//! The unwinder entry points that Seele programs link against without an
//! unwinder: every query answers "nothing known". Contexts are given by
//! address and never read.

use vstd::prelude::*;

verus! {

/// The instruction pointer of a frame: unknown, so 0.
#[allow(non_snake_case)]
pub fn _Unwind_GetIP(ctx: usize) -> (ip: usize)
    ensures
        ip == 0,
{
    let _ = ctx;
    0
}

/// The instruction pointer of a frame, and whether it points before the
/// faulting instruction (stored through `ip_before_insn` where given): both
/// unknown, so 0.
#[allow(non_snake_case)]
pub fn _Unwind_GetIPInfo(ctx: usize, ip_before_insn: Option<&mut i32>) -> (ip: usize)
    ensures
        ip == 0,
        match ip_before_insn {
            Some(flag) => *final(flag) == 0,
            None => true,
        },
{
    let _ = ctx;
    if let Some(flag) = ip_before_insn {
        *flag = 0;
    }
    0
}

/// The text-relative base of a frame: unknown, so 0.
#[allow(non_snake_case)]
pub fn _Unwind_GetTextRelBase(ctx: usize) -> (base: usize)
    ensures
        base == 0,
{
    let _ = ctx;
    0
}

/// The data-relative base of a frame: unknown, so 0.
#[allow(non_snake_case)]
pub fn _Unwind_GetDataRelBase(ctx: usize) -> (base: usize)
    ensures
        base == 0,
{
    let _ = ctx;
    0
}

/// The language-specific data of a frame: none, so a null address.
#[allow(non_snake_case)]
pub fn _Unwind_GetLanguageSpecificData(ctx: usize) -> (data: usize)
    ensures
        data == 0,
{
    let _ = ctx;
    0
}

/// The start of a frame's code region: unknown, so 0.
#[allow(non_snake_case)]
pub fn _Unwind_GetRegionStart(ctx: usize) -> (start: usize)
    ensures
        start == 0,
{
    let _ = ctx;
    0
}

/// A backtrace: no frames are walked, so the walk reports 0.
#[allow(non_snake_case)]
pub fn _Unwind_Backtrace(callback: usize, data: usize) -> (r: i32)
    ensures
        r == 0,
{
    let _ = (callback, data);
    0
}

} // verus!
