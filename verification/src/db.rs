//! Shared row shapes and small helpers for the database layer.

use vstd::prelude::*;

verus! {

/// Row shape of a bare `select count(*) as total` query.
pub struct Total {
    pub total: i64,
}

/// Turns the empty string into `None`; any other string is kept.
pub fn check_none(str: &String) -> (r: Option<String>)
    ensures
        str@.len() == 0 ==> r is None,
        str@.len() > 0 ==> r == Some(*str),
{
    if str.as_str().is_empty() {
        None
    } else {
        Some(str.clone())
    }
}

} // verus!
