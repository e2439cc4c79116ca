//! Handing a finished mask to the platform and reading back its verdict.
use vstd::prelude::*;

use crate::category::MitigationCategory;

verus! {

/// Why a commit failed.
#[derive(Clone, Copy, Debug, PartialEq, Eq, Structural)]
pub enum MitigationError {
    /// The platform refused the policy; carries its non-zero status code.
    OsRejected(i32),
}

/// The result of a commit whose entry point reported `status`: zero is
/// success, any other value is passed back unchanged as a rejection.
pub open spec fn outcome_of(status: i32) -> Result<(), MitigationError> {
    if status == 0 {
        Ok(())
    } else {
        Err(MitigationError::OsRejected(status))
    }
}

/// Turns the status reported by the platform entry point into a result.
pub fn commit_outcome(status: i32) -> (r: Result<(), MitigationError>)
    ensures
        r == outcome_of(status),
{
    if status == 0 {
        Ok(())
    } else {
        Err(MitigationError::OsRejected(status))
    }
}

/// Calls `entry_point` once with `category` and `flags`, and translates the
/// status it reports.
pub fn commit<F>(category: MitigationCategory, flags: u32, entry_point: F) -> (r: Result<
    (),
    MitigationError,
>) where F: FnOnce(MitigationCategory, u32) -> i32
    requires
        entry_point.requires((category, flags)),
    ensures
        exists|status: i32|
            #![trigger entry_point.ensures((category, flags), status)]
            entry_point.ensures((category, flags), status) && r == outcome_of(status),
{
    let status = entry_point(category, flags);
    commit_outcome(status)
}

} // verus!
