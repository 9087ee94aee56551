//! Small shared helpers of the certification protocol.

use vstd::prelude::*;

use crate::errors::ErrorCode;

verus! {

/// True when the accumulated votes reach the required quorum.
pub fn check_validation_threshold(current_validations: u32, required_validations: u32) -> (r:
    Result<bool, ErrorCode>)
    ensures
        r == Ok::<bool, ErrorCode>(current_validations >= required_validations),
{
    Ok(current_validations >= required_validations)
}

/// Advance a vote counter; fails instead of wrapping.
pub fn increment_validations(current: u32) -> (r: Result<u32, ErrorCode>)
    ensures
        current < u32::MAX ==> r == Ok::<u32, ErrorCode>((current + 1) as u32),
        current == u32::MAX ==> r == Err::<u32, ErrorCode>(ErrorCode::Overflow),
{
    if current == u32::MAX {
        return Err(ErrorCode::Overflow);
    }
    Ok(current + 1)
}

} // verus!
