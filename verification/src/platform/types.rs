#![allow(non_camel_case_types)]

use vstd::prelude::*;

verus! {

pub type c_char = i8;
pub type c_uchar = u8;
pub type c_short = i16;
pub type c_ushort = u16;
pub type c_int = i32;
pub type c_uint = u32;
pub type c_long = i64;
pub type c_ulong = u64;
pub type c_longlong = i64;
pub type c_ulonglong = u64;
pub type size_t = usize;

pub type pid_t = c_int;
pub type uid_t = c_uint;
pub type gid_t = c_uint;
pub type id_t = c_uint;
pub type mode_t = c_int;
pub type dev_t = c_long;
pub type key_t = c_int;
pub type off_t = c_longlong;
pub type ino_t = c_ulonglong;
pub type time_t = c_longlong;
pub type suseconds_t = c_int;
pub type clockid_t = c_int;

} // verus!
