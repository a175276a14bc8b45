use crate::platform::types::c_int;
use vstd::prelude::*;

verus! {

/// An `errno` value carried by a failed call.
#[derive(Clone, Copy, Debug, PartialEq, Eq, Structural)]
pub struct Errno(pub c_int);

} // verus!
