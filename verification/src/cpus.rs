//! Query for the number of logical processing units visible to the process.

use vstd::prelude::*;

verus! {

/// Relies on `num_cpus::get`: the number of logical processing units
/// available to the process. Its documentation promises that it always
/// returns at least 1; where the platform query reports nothing useful,
/// the crate itself substitutes 1.
#[verifier::external_body]
fn available_unit_count() -> (n: usize)
    ensures
        1 <= n,
{
    num_cpus::get()
}

/// The count of logical processing units available to the process.
///
/// Never fails and has no side effects: when the underlying platform query is
/// unavailable, a safe default of a single unit is substituted, so the count
/// is at least 1 on every call.
pub fn get_processing_unit_count() -> (n: usize)
    ensures
        1 <= n,
{
    available_unit_count()
}

} // verus!
