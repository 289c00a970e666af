use democracy_scheduler::CompetitorRegistry;
use democracy_scheduler::Competitors;

#[test]
fn from_str_accepts_each_competitor() {
    assert_eq!(Competitors::from_str("summer1"), Ok(Competitors::Summer1));
    assert_eq!(Competitors::from_str("summer2"), Ok(Competitors::Summer2));
}

#[test]
fn from_str_ignores_ascii_case() {
    assert_eq!(Competitors::from_str("SUMMER1"), Ok(Competitors::Summer1));
    assert_eq!(Competitors::from_str("Summer2"), Ok(Competitors::Summer2));
    assert_eq!(Competitors::from_str("sUmMeR1"), Ok(Competitors::Summer1));
}

#[test]
fn from_str_rejects_unknown_names() {
    assert!(Competitors::from_str("").is_err());
    assert!(Competitors::from_str("summer3").is_err());
    assert!(Competitors::from_str("summer").is_err());
    assert!(Competitors::from_str("summer1 ").is_err());
    assert!(Competitors::from_str("vim").is_err());
}

#[test]
fn registry_maps_each_competitor_to_its_pid() {
    let owners = CompetitorRegistry::new(41, 42);
    assert_eq!(owners.pid_for(Competitors::Summer1), 41);
    assert_eq!(owners.pid_for(Competitors::Summer2), 42);
}

#[test]
fn registry_tracks_exactly_its_pids() {
    let owners = CompetitorRegistry::new(41, 42);
    assert!(owners.is_tracked(41));
    assert!(owners.is_tracked(42));
    assert!(!owners.is_tracked(40));
    assert!(!owners.is_tracked(0));
}

#[test]
fn registry_lists_all_pids_in_enumeration_order() {
    let owners = CompetitorRegistry::new(41, 42);
    assert_eq!(owners.all_pids(), vec![41, 42]);
}
