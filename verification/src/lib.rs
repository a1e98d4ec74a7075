//! An in-process task scheduler: clients submit named, prioritized work items;
//! a bounded pool of worker slots drains the highest-priority pending work
//! first, up to a configured concurrency ceiling.

pub mod enums;
pub mod priority_queue;
pub mod task;
pub mod task_manager;
pub mod worker;

use vstd::prelude::*;

verus! {

/// Relies on `str`'s `PartialEq`: two string slices are equal exactly when
/// their character sequences are equal.
#[verifier::external_body]
pub(crate) fn str_eq(a: &str, b: &str) -> (r: bool)
    ensures
        r == (a@ == b@),
{
    a == b
}

} // verus!

