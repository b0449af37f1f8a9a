//! What the library asks of the machine it runs on.

use vstd::prelude::*;

verus! {

/// The number of logical CPUs the process may use, from `num_cpus::get`.
///
/// Trusted: the count is taken on faith from `num_cpus`, whose documentation
/// promises that it is never below one. Nothing else is claimed of it: it
/// varies with the machine, the scheduler affinity and the cgroup quota.
#[verifier::external_body]
pub(crate) fn logical_cpus() -> (cpus: usize)
    ensures
        cpus >= 1,
{
    num_cpus::get()
}

} // verus!
