//! Effective heights of area-mode terminals from their siting criteria.
use vstd::prelude::*;
use crate::codes::{SITING_CRITERIA_CAREFUL, SITING_CRITERIA_RANDOM};

verus! {

/// The gain factor that a siting criteria gives the effective height of a
/// terminal over its structural height: none for a terminal sited at
/// random, 4 for one sited with care, 9 otherwise (with great care).
pub open spec fn spec_siting_gain(criteria: i32) -> Option<u32> {
    if criteria == SITING_CRITERIA_RANDOM {
        None
    } else if criteria == SITING_CRITERIA_CAREFUL {
        Some(4)
    } else {
        Some(9)
    }
}

/// The gain factor of a siting criteria; see [`spec_siting_gain`].
pub fn siting_gain(criteria: i32) -> (g: Option<u32>)
    ensures
        g == spec_siting_gain(criteria),
        g is None <==> criteria == SITING_CRITERIA_RANDOM,
        g == Some(4u32) <==> criteria == SITING_CRITERIA_CAREFUL,
        g == Some(9u32) <==> criteria != SITING_CRITERIA_RANDOM && criteria
            != SITING_CRITERIA_CAREFUL,
{
    if criteria == SITING_CRITERIA_RANDOM {
        None
    } else if criteria == SITING_CRITERIA_CAREFUL {
        Some(4)
    } else {
        Some(9)
    }
}

/// A terminal sited at random gets no gain; one sited with care a gain of
/// 4; any other siting criteria a gain of 9.
pub proof fn lemma_siting_gain_by_criteria(criteria: i32)
    ensures
        spec_siting_gain(criteria) is None <==> criteria == SITING_CRITERIA_RANDOM,
        spec_siting_gain(criteria) == Some(4u32) <==> criteria == SITING_CRITERIA_CAREFUL,
        spec_siting_gain(criteria) == Some(9u32) <==> criteria != SITING_CRITERIA_RANDOM
            && criteria != SITING_CRITERIA_CAREFUL,
{
}

} // verus!
