//! A verified core of relibc's platform layer for the Seele kernel: the
//! decisions and data conversions that the C library makes around Seele's
//! system calls.

#![allow(non_camel_case_types)]

pub mod error;
pub mod header;
pub mod platform;
