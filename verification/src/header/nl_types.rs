//! `nl_types.h`: message catalogs. Seele has none, so every lookup falls
//! back to the message the caller supplies. Catalog handles and strings
//! are given by address.

use crate::platform::types::c_int;
use vstd::prelude::*;

verus! {

/// A catalog handle: an address that is never null and never read.
pub type nl_catd = usize;

pub const NL_SETD: c_int = 1;
pub const NL_CAT_LOCALE: c_int = 1;

/// The handle that every `catopen` returns: a non-null dangling address.
pub const DANGLING_CATALOG: nl_catd = 1;

/// Opens a catalog; there are none, so the handle only has to be non-null.
pub fn catopen(name: usize, oflag: c_int) -> (catd: nl_catd)
    ensures
        catd == DANGLING_CATALOG,
{
    let _ = (name, oflag);
    DANGLING_CATALOG
}

/// Looks a message up: the fallback `message` is always the answer.
pub fn catgets(catalog: nl_catd, set_number: c_int, message_number: c_int, message: usize) -> (r:
    usize)
    ensures
        r == message,
{
    let _ = (catalog, set_number, message_number);
    message
}

/// Closes a catalog; always succeeds.
pub fn catclose(catalog: nl_catd) -> (r: c_int)
    ensures
        r == 0,
{
    let _ = catalog;
    0
}

} // verus!
