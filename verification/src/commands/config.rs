//! `luna config validate` and `luna config print`.
use vstd::prelude::*;

verus! {

/// The exit code of `luna config validate`: 1 when the configuration drifts
/// from the repository, 0 when it does not.
pub fn validate_exit_code(warnings: &Vec<String>) -> (r: i32)
    ensures
        r == (if warnings@.len() == 0 {
            0i32
        } else {
            1i32
        }),
{
    if warnings.len() == 0 {
        0
    } else {
        1
    }
}

} // verus!
