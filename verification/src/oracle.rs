//! Winner resolution over a ranked vote tally.
//!
//! The tally service reports a list of `(name, count)` pairs. The resolver
//! picks the entry with the strictly greatest count (ties broken by
//! first-seen order), strips the tally suffix the service appends to names,
//! and maps the result onto the competitor enumeration. The network round
//! trip itself is the caller's business; resolution is pure.

use crate::competitor::competitor_of;
use crate::competitor::Competitors;
use vstd::prelude::*;
use vstd::string::StrSliceExecFns;

verus! {

/// Why no winner could be resolved this tick. All three cases are treated
/// identically by the dispatch loop: no decision this tick.
#[derive(Clone, Copy, Debug, PartialEq, Eq)]
pub enum OracleError {
    /// The tally service could not be reached.
    Unreachable,
    /// The response did not decode into the expected tally shape.
    Malformed,
    /// The leading name does not map to a known competitor.
    UnknownChoice,
}

/// The index of the entry with the strictly greatest count; ties are broken
/// by first-seen order.
pub open spec fn leading_index(t: Seq<(String, u64)>) -> int
    decreases t.len(),
{
    if t.len() <= 1 {
        0
    } else {
        let p = leading_index(t.drop_last());
        if t.last().1 > t[p].1 {
            t.len() - 1
        } else {
            p
        }
    }
}

/// The leading entry holds the maximum count, and every earlier entry is
/// strictly below it (so equal counts resolve to the first seen).
pub proof fn lemma_leading_index_props(t: Seq<(String, u64)>)
    requires
        t.len() > 0,
    ensures
        0 <= leading_index(t) < t.len(),
        forall|k: int| 0 <= k < t.len() ==> (#[trigger] t[k]).1 <= t[leading_index(t)].1,
        forall|k: int| 0 <= k < leading_index(t) ==> (#[trigger] t[k]).1 < t[leading_index(t)].1,
    decreases t.len(),
{
    if t.len() > 1 {
        lemma_leading_index_props(t.drop_last());
        assert forall|k: int| 0 <= k < t.len() - 1 implies (#[trigger] t[k]) == t.drop_last()[k] by {}
    }
}

/// Law: on a tally whose counts are all equal (an all-zero tally included),
/// the resolver deterministically picks the first candidate seen.
pub proof fn lemma_tie_break_first(t: Seq<(String, u64)>)
    requires
        t.len() > 0,
        forall|i: int| 0 <= i < t.len() ==> (#[trigger] t[i]).1 == t[0].1,
    ensures
        leading_index(t) == 0,
{
    lemma_leading_index_props(t);
    if leading_index(t) != 0 {
        assert(t[0].1 < t[leading_index(t)].1);
        assert(t[leading_index(t)].1 == t[0].1);
    }
}

/// Law: with every count equal, resolution keys off the first candidate
/// seen; the tie is broken deterministically, not reported as an error.
pub proof fn lemma_all_equal_resolves_first(t: Seq<(String, u64)>)
    requires
        t.len() > 0,
        forall|i: int| 0 <= i < t.len() ==> (#[trigger] t[i]).1 == t[0].1,
    ensures
        resolve_spec(t) == (match competitor_of(stripped(t[0].0@)) {
            Some(c) => Ok::<Competitors, OracleError>(c),
            None => Err::<Competitors, OracleError>(OracleError::UnknownChoice),
        }),
{
    lemma_tie_break_first(t);
}

/// Whether a name carries the `_votes` suffix the tally service appends.
pub open spec fn has_votes_suffix(s: Seq<char>) -> bool {
    &&& s.len() >= 6
    &&& s[s.len() - 6] == '_'
    &&& s[s.len() - 5] == 'v'
    &&& s[s.len() - 4] == 'o'
    &&& s[s.len() - 3] == 't'
    &&& s[s.len() - 2] == 'e'
    &&& s[s.len() - 1] == 's'
}

/// A name with the tally suffix stripped, if present; unchanged otherwise.
pub open spec fn stripped(s: Seq<char>) -> Seq<char> {
    if has_votes_suffix(s) {
        s.take(s.len() - 6)
    } else {
        s
    }
}

fn strip_votes_suffix(name: &str) -> (r: String)
    ensures
        r@ == stripped(name@),
{
    let n = name.unicode_len();
    if n >= 6 && name.get_char(n - 6) == '_' && name.get_char(n - 5) == 'v' && name.get_char(
        n - 4,
    ) == 'o' && name.get_char(n - 3) == 't' && name.get_char(n - 2) == 'e' && name.get_char(
        n - 1,
    ) == 's' {
        let head = name.substring_char(0, n - 6);
        proof {
            assert(head@ =~= name@.take(name@.len() - 6));
        }
        head.to_owned()
    } else {
        name.to_owned()
    }
}

fn leading_slot(tally: &Vec<(String, u64)>) -> (best: usize)
    requires
        tally@.len() > 0,
    ensures
        best == leading_index(tally@),
        0 <= best < tally@.len(),
{
    let mut best: usize = 0;
    let mut i: usize = 1;
    while i < tally.len()
        invariant
            1 <= i <= tally@.len(),
            0 <= best < i,
            best == leading_index(tally@.take(i as int)),
        decreases tally@.len() - i,
    {
        proof {
            assert(tally@.take(i + 1).drop_last() =~= tally@.take(i as int));
            assert(tally@.take(i + 1).last() == tally@[i as int]);
            assert(tally@.take(i + 1)[leading_index(tally@.take(i as int))] == tally@[best as int]);
        }
        if tally[i].1 > tally[best].1 {
            best = i;
        }
        i += 1;
    }
    proof {
        assert(tally@.take(tally@.len() as int) =~= tally@);
    }
    best
}

/// The name the tally declares the current winner — the leading entry's
/// name with the tally suffix stripped — before mapping to a competitor.
/// `None` exactly when the tally is empty.
pub fn winner_name(tally: &Vec<(String, u64)>) -> (r: Option<String>)
    ensures
        match r {
            None => tally@.len() == 0,
            Some(s) => tally@.len() > 0 && s@ == stripped(tally@[leading_index(tally@)].0@),
        },
{
    if tally.len() == 0 {
        return None;
    }
    let best = leading_slot(tally);
    Some(strip_votes_suffix(tally[best].0.as_str()))
}

/// What resolving a tally returns: an empty tally does not have the
/// expected shape; a leading name outside the competitor enumeration is an
/// unknown choice; otherwise the resolved winner.
pub open spec fn resolve_spec(t: Seq<(String, u64)>) -> Result<Competitors, OracleError> {
    if t.len() == 0 {
        Err(OracleError::Malformed)
    } else {
        match competitor_of(stripped(t[leading_index(t)].0@)) {
            Some(c) => Ok(c),
            None => Err(OracleError::UnknownChoice),
        }
    }
}

/// Resolves a tally to the single competitor currently leading the vote.
pub fn resolve_winner(tally: &Vec<(String, u64)>) -> (r: Result<Competitors, OracleError>)
    ensures
        r == resolve_spec(tally@),
{
    match winner_name(tally) {
        None => Err(OracleError::Malformed),
        Some(name) => match Competitors::from_str(name.as_str()) {
            Ok(c) => Ok(c),
            Err(_) => Err(OracleError::UnknownChoice),
        },
    }
}

} // verus!
