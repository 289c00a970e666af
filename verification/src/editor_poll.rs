//! Vote validation for the editor poll variant of the tally service, whose
//! ballot names are text editors.

use crate::competitor::name_matches;
use crate::competitor::ascii_eq_ignore_case;
use vstd::prelude::*;

verus! {

/// A validated ballot choice.
#[derive(Clone, Copy, Debug, PartialEq, Eq)]
pub enum PossibleVote {
    Vim,
    Emacs,
    Vscode,
}

/// Error returned when a ballot names no valid choice.
#[derive(Clone, Copy, Debug, PartialEq, Eq)]
pub struct InvalidVote;

/// Which choice, if any, a ballot names, ignoring ASCII case.
pub open spec fn vote_of(s: Seq<char>) -> Option<PossibleVote> {
    if name_matches(s, "vim"@) {
        Some(PossibleVote::Vim)
    } else if name_matches(s, "emacs"@) {
        Some(PossibleVote::Emacs)
    } else if name_matches(s, "vscode"@) {
        Some(PossibleVote::Vscode)
    } else {
        None
    }
}

/// Validates one cast ballot, ignoring ASCII case; anything but a known
/// choice is rejected.
pub fn check_vote(user_vote: &str) -> (r: Result<PossibleVote, InvalidVote>)
    ensures
        r == (match vote_of(user_vote@) {
            Some(v) => Ok::<PossibleVote, InvalidVote>(v),
            None => Err::<PossibleVote, InvalidVote>(InvalidVote),
        }),
{
    if ascii_eq_ignore_case(user_vote, "vim") {
        Ok(PossibleVote::Vim)
    } else if ascii_eq_ignore_case(user_vote, "emacs") {
        Ok(PossibleVote::Emacs)
    } else if ascii_eq_ignore_case(user_vote, "vscode") {
        Ok(PossibleVote::Vscode)
    } else {
        Err(InvalidVote)
    }
}

} // verus!
