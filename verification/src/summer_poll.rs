//! Vote validation for the competitor poll: the ballot names voters may
//! cast, matching the competitor enumeration.

use crate::competitor::name_matches;
use crate::competitor::ascii_eq_ignore_case;
use vstd::prelude::*;

verus! {

/// A validated ballot choice.
#[derive(Clone, Copy, Debug, PartialEq, Eq)]
pub enum PossibleVote {
    Summer1,
    Summer2,
}

/// Error returned when a ballot names no valid choice.
#[derive(Clone, Copy, Debug, PartialEq, Eq)]
pub struct InvalidVote;

/// Which choice, if any, a ballot names, ignoring ASCII case.
pub open spec fn vote_of(s: Seq<char>) -> Option<PossibleVote> {
    if name_matches(s, "summer1"@) {
        Some(PossibleVote::Summer1)
    } else if name_matches(s, "summer2"@) {
        Some(PossibleVote::Summer2)
    } else {
        None
    }
}

/// Validates one cast ballot, ignoring ASCII case; anything but a known
/// choice is rejected.
pub fn check_vote(user_vote: &str) -> (r: Result<PossibleVote, InvalidVote>)
    ensures
        r == (match vote_of(user_vote@) {
            Some(v) => Ok::<PossibleVote, InvalidVote>(v),
            None => Err::<PossibleVote, InvalidVote>(InvalidVote),
        }),
{
    if ascii_eq_ignore_case(user_vote, "summer1") {
        Ok(PossibleVote::Summer1)
    } else if ascii_eq_ignore_case(user_vote, "summer2") {
        Ok(PossibleVote::Summer2)
    } else {
        Err(InvalidVote)
    }
}

} // verus!
