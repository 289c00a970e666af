//! The closed set of competitors and the startup ownership mapping from
//! competitor to process identifier.

use vstd::prelude::*;
use vstd::string::StrSliceExecFns;

verus! {

/// One of the fixed named choices being voted on. Each competitor maps to
/// exactly one long-lived subprocess for the lifetime of the scheduler.
#[derive(Clone, Copy, Debug, Hash, PartialEq, Eq)]
pub enum Competitors {
    Summer1,
    Summer2,
}

/// Error returned when a name denotes no competitor.
#[derive(Clone, Copy, Debug, PartialEq, Eq)]
pub struct UnknownCompetitor;

/// ASCII case folding of one character's code point: `'A'..='Z'` fold to
/// `'a'..='z'`, everything else is left alone.
pub open spec fn lower_code(c: char) -> u32 {
    if 65 <= c as u32 && c as u32 <= 90 {
        (c as u32 + 32) as u32
    } else {
        c as u32
    }
}

/// Two names are equal up to ASCII case.
pub open spec fn name_matches(s: Seq<char>, t: Seq<char>) -> bool {
    s.len() == t.len() && (forall|i: int| 0 <= i < s.len() ==> lower_code(s[i]) == lower_code(t[i]))
}

/// Which competitor, if any, a name denotes, ignoring ASCII case.
pub open spec fn competitor_of(s: Seq<char>) -> Option<Competitors> {
    if name_matches(s, "summer1"@) {
        Some(Competitors::Summer1)
    } else if name_matches(s, "summer2"@) {
        Some(Competitors::Summer2)
    } else {
        None
    }
}

/// What parsing a competitor name returns.
pub open spec fn parse_name(s: Seq<char>) -> Result<Competitors, UnknownCompetitor> {
    match competitor_of(s) {
        Some(c) => Ok(c),
        None => Err(UnknownCompetitor),
    }
}

fn lower_code_exec(c: char) -> (r: u32)
    ensures
        r == lower_code(c),
{
    let u = c as u32;
    if 65 <= u && u <= 90 {
        u + 32
    } else {
        u
    }
}

/// Compares two names for equality up to ASCII case.
pub fn ascii_eq_ignore_case(a: &str, b: &str) -> (r: bool)
    ensures
        r == name_matches(a@, b@),
{
    let n = a.unicode_len();
    if n != b.unicode_len() {
        return false;
    }
    let mut i: usize = 0;
    while i < n
        invariant
            n == a@.len(),
            n == b@.len(),
            0 <= i <= n,
            forall|j: int| 0 <= j < i ==> lower_code(a@[j]) == lower_code(b@[j]),
        decreases n - i,
    {
        let ca = a.get_char(i);
        let cb = b.get_char(i);
        if lower_code_exec(ca) != lower_code_exec(cb) {
            proof {
                assert(lower_code(a@[i as int]) != lower_code(b@[i as int]));
            }
            return false;
        }
        i += 1;
    }
    true
}

impl Competitors {
    /// Parses a competitor name, ignoring ASCII case; an unrecognized name
    /// is rejected.
    pub fn from_str(input: &str) -> (r: Result<Competitors, UnknownCompetitor>)
        ensures
            r == parse_name(input@),
    {
        if ascii_eq_ignore_case(input, "summer1") {
            Ok(Competitors::Summer1)
        } else if ascii_eq_ignore_case(input, "summer2") {
            Ok(Competitors::Summer2)
        } else {
            Err(UnknownCompetitor)
        }
    }
}

/// The ownership mapping from competitor to pid, established exactly once at
/// startup by spawning one process per competitor, and never re-assigned.
#[derive(Clone, Copy, Debug)]
pub struct CompetitorRegistry {
    summer1_pid: u32,
    summer2_pid: u32,
}

impl CompetitorRegistry {
    /// The pid owned by a competitor.
    pub closed spec fn spec_pid_for(self, c: Competitors) -> u32 {
        match c {
            Competitors::Summer1 => self.summer1_pid,
            Competitors::Summer2 => self.summer2_pid,
        }
    }

    /// The set of all competitor pids.
    pub open spec fn spec_pids(self) -> Set<u32> {
        set![
            self.spec_pid_for(Competitors::Summer1),
            self.spec_pid_for(Competitors::Summer2),
        ]
    }

    /// Records the pid spawned for each competitor.
    pub fn new(summer1_pid: u32, summer2_pid: u32) -> (r: CompetitorRegistry)
        ensures
            r.spec_pid_for(Competitors::Summer1) == summer1_pid,
            r.spec_pid_for(Competitors::Summer2) == summer2_pid,
    {
        CompetitorRegistry { summer1_pid, summer2_pid }
    }

    /// Total lookup over the closed enumeration.
    pub fn pid_for(&self, c: Competitors) -> (p: u32)
        ensures
            p == self.spec_pid_for(c),
    {
        match c {
            Competitors::Summer1 => self.summer1_pid,
            Competitors::Summer2 => self.summer2_pid,
        }
    }

    /// Whether a pid belongs to some competitor.
    pub fn is_tracked(&self, pid: u32) -> (r: bool)
        ensures
            r == self.spec_pids().contains(pid),
    {
        pid == self.summer1_pid || pid == self.summer2_pid
    }

    /// Every competitor pid, in enumeration order.
    pub fn all_pids(&self) -> (r: Vec<u32>)
        ensures
            r@ == seq![
                self.spec_pid_for(Competitors::Summer1),
                self.spec_pid_for(Competitors::Summer2),
            ],
    {
        let mut v: Vec<u32> = Vec::new();
        v.push(self.summer1_pid);
        v.push(self.summer2_pid);
        proof {
            assert(v@ =~= seq![
                self.spec_pid_for(Competitors::Summer1),
                self.spec_pid_for(Competitors::Summer2),
            ]);
        }
        v
    }
}

} // verus!
