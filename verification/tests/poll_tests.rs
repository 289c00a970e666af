use democracy_scheduler::editor_poll;
use democracy_scheduler::summer_poll;

#[test]
fn summer_poll_accepts_valid_ballots() {
    assert_eq!(
        summer_poll::check_vote("summer1"),
        Ok(summer_poll::PossibleVote::Summer1)
    );
    assert_eq!(
        summer_poll::check_vote("summer2"),
        Ok(summer_poll::PossibleVote::Summer2)
    );
}

#[test]
fn summer_poll_ignores_ascii_case() {
    assert_eq!(
        summer_poll::check_vote("Summer1"),
        Ok(summer_poll::PossibleVote::Summer1)
    );
    assert_eq!(
        summer_poll::check_vote("SUMMER2"),
        Ok(summer_poll::PossibleVote::Summer2)
    );
}

#[test]
fn summer_poll_rejects_anything_else() {
    assert!(summer_poll::check_vote("").is_err());
    assert!(summer_poll::check_vote("summer").is_err());
    assert!(summer_poll::check_vote("summer12").is_err());
    assert!(summer_poll::check_vote("vim").is_err());
}

#[test]
fn editor_poll_accepts_valid_ballots() {
    assert_eq!(
        editor_poll::check_vote("vim"),
        Ok(editor_poll::PossibleVote::Vim)
    );
    assert_eq!(
        editor_poll::check_vote("emacs"),
        Ok(editor_poll::PossibleVote::Emacs)
    );
    assert_eq!(
        editor_poll::check_vote("vscode"),
        Ok(editor_poll::PossibleVote::Vscode)
    );
}

#[test]
fn editor_poll_ignores_ascii_case() {
    assert_eq!(
        editor_poll::check_vote("VIM"),
        Ok(editor_poll::PossibleVote::Vim)
    );
    assert_eq!(
        editor_poll::check_vote("Emacs"),
        Ok(editor_poll::PossibleVote::Emacs)
    );
}

#[test]
fn editor_poll_rejects_anything_else() {
    assert!(editor_poll::check_vote("").is_err());
    assert!(editor_poll::check_vote("nano").is_err());
    assert!(editor_poll::check_vote("emacs ").is_err());
    assert!(editor_poll::check_vote("summer1").is_err());
}
