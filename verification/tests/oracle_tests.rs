use democracy_scheduler::oracle::resolve_winner;
use democracy_scheduler::oracle::winner_name;
use democracy_scheduler::Competitors;
use democracy_scheduler::OracleError;

fn tally(entries: &[(&str, u64)]) -> Vec<(String, u64)> {
    entries.iter().map(|(n, c)| (n.to_string(), *c)).collect()
}

#[test]
fn strict_maximum_wins() {
    let t = tally(&[("vim_votes", 5), ("emacs_votes", 9), ("vscode_votes", 3)]);
    assert_eq!(winner_name(&t), Some("emacs".to_string()));
}

#[test]
fn all_zero_tally_resolves_to_first_candidate() {
    let t = tally(&[("vim_votes", 0), ("emacs_votes", 0), ("vscode_votes", 0)]);
    assert_eq!(winner_name(&t), Some("vim".to_string()));
}

#[test]
fn equal_counts_resolve_to_first_candidate_seen() {
    let t = tally(&[("summer2_votes", 4), ("summer1_votes", 4)]);
    assert_eq!(resolve_winner(&t), Ok(Competitors::Summer2));
}

#[test]
fn empty_tally_is_malformed() {
    let t: Vec<(String, u64)> = Vec::new();
    assert_eq!(winner_name(&t), None);
    assert_eq!(resolve_winner(&t), Err(OracleError::Malformed));
}

#[test]
fn unknown_leading_name_is_unknown_choice() {
    let t = tally(&[("vim_votes", 5), ("emacs_votes", 9)]);
    assert_eq!(resolve_winner(&t), Err(OracleError::UnknownChoice));
}

#[test]
fn resolves_suffixed_competitor_names() {
    let t = tally(&[("summer1_votes", 3), ("summer2_votes", 7)]);
    assert_eq!(resolve_winner(&t), Ok(Competitors::Summer2));
}

#[test]
fn resolves_unsuffixed_competitor_names() {
    let t = tally(&[("summer1", 8), ("summer2", 2)]);
    assert_eq!(resolve_winner(&t), Ok(Competitors::Summer1));
}

#[test]
fn all_zero_competitor_tally_resolves_without_error() {
    let t = tally(&[("summer1_votes", 0), ("summer2_votes", 0)]);
    assert_eq!(resolve_winner(&t), Ok(Competitors::Summer1));
}

#[test]
fn suffix_is_stripped_only_once_and_exactly() {
    let t = tally(&[("summer1_votes_votes", 1)]);
    assert_eq!(winner_name(&t), Some("summer1_votes".to_string()));
}

#[test]
fn later_strictly_greater_count_overtakes() {
    let t = tally(&[("summer1_votes", 6), ("summer2_votes", 7)]);
    assert_eq!(winner_name(&t), Some("summer2".to_string()));
}

#[test]
fn single_entry_tally_wins_outright() {
    let t = tally(&[("summer2_votes", 0)]);
    assert_eq!(resolve_winner(&t), Ok(Competitors::Summer2));
}
