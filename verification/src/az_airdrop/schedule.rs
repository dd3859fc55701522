//! The rules that a release schedule has to keep.

use crate::az_airdrop::errors::Refusal;
use crate::primitives::Timestamp;
use vstd::prelude::*;

verus! {

/// The rules of a schedule that do not depend on when distribution starts:
/// at most 100 percent at the start; with all of it at the start, no cliff
/// and no vesting; otherwise a vesting period of positive length.
pub open spec fn schedule_rules(percentage: u8, cliff: Timestamp, vesting: Timestamp) -> bool {
    &&& percentage <= 100
    &&& percentage == 100 ==> cliff == 0 && vesting == 0
    &&& percentage < 100 ==> vesting > 0
}

/// A schedule is valid for a start when it keeps the rules and its end,
/// `start + cliff + vesting`, is a representable point in time.
pub open spec fn schedule_valid(
    start: Timestamp,
    percentage: u8,
    cliff: Timestamp,
    vesting: Timestamp,
) -> bool {
    &&& schedule_rules(percentage, cliff, vesting)
    &&& start + cliff + vesting <= u64::MAX
}

/// The first rule that a schedule breaks, as the text of its refusal, in the
/// order in which the rules are tested; `None` for a valid schedule.
pub open spec fn schedule_fault(
    start: Timestamp,
    percentage: u8,
    cliff: Timestamp,
    vesting: Timestamp,
) -> Option<Refusal> {
    if percentage > 100 {
        Some(
            Refusal::Unprocessable(
                "collectable_at_tge_percentage must be less than or equal to 100"@,
            ),
        )
    } else if percentage == 100 && (cliff > 0 || vesting > 0) {
        Some(
            Refusal::Unprocessable(
                "cliff_duration and vesting_duration must be 0 when collectable_tge_percentage is 100"@,
            ),
        )
    } else if percentage < 100 && vesting == 0 {
        Some(
            Refusal::Unprocessable(
                "vesting_duration must be greater than 0 when collectable_tge_percentage is not 100"@,
            ),
        )
    } else if start + cliff + vesting > u64::MAX {
        Some(
            Refusal::Unprocessable(
                "Combination of start, cliff_duration and vesting_duration exceeds limit"@,
            ),
        )
    } else {
        None
    }
}

/// A schedule has no fault exactly when it is valid.
pub proof fn lemma_fault_iff_invalid(
    start: Timestamp,
    percentage: u8,
    cliff: Timestamp,
    vesting: Timestamp,
)
    ensures
        schedule_fault(start, percentage, cliff, vesting) is None <==> schedule_valid(
            start,
            percentage,
            cliff,
            vesting,
        ),
{
}

} // verus!
