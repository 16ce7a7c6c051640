use multiplayerctl::error::Error;
use multiplayerctl::players::PlayerSet;
use multiplayerctl::selection::{resolve, switch, Decision, SwitchPolicy};

fn players(ids: &[&str]) -> PlayerSet {
    PlayerSet::from_ids(ids.iter().map(|id| id.to_string()).collect())
}

fn some(id: &str) -> Option<String> {
    Some(id.to_string())
}

fn switched(persisted: Option<String>, live: &PlayerSet, policy: SwitchPolicy) -> String {
    let decision = switch(persisted, live, policy).unwrap();
    assert!(decision.persist);
    assert!(decision.broadcast);
    decision.selection
}

#[test]
fn resolve_keeps_a_selection_that_is_running() {
    let live = players(&["firefox", "vlc", "mpv"]);
    for id in ["firefox", "vlc", "mpv"] {
        let decision = resolve(some(id), &live).unwrap();
        assert_eq!(
            decision,
            Decision { selection: id.to_string(), persist: false, broadcast: false }
        );
    }
}

#[test]
fn resolve_is_idempotent() {
    let live = players(&["firefox", "vlc"]);
    let first = resolve(some("gone"), &live).unwrap();
    let second = resolve(Some(first.selection.clone()), &live).unwrap();
    assert_eq!(second.selection, first.selection);
    assert!(!second.persist);
}

#[test]
fn resolve_replaces_a_stale_selection_by_the_first_player() {
    let live = players(&["firefox", "vlc"]);
    let decision = resolve(some("spotify"), &live).unwrap();
    assert_eq!(
        decision,
        Decision { selection: "firefox".to_string(), persist: true, broadcast: false }
    );
}

#[test]
fn resolve_seeds_an_absent_selection_with_the_first_player() {
    let live = players(&["vlc", "firefox"]);
    let decision = resolve(None, &live).unwrap();
    assert_eq!(
        decision,
        Decision { selection: "vlc".to_string(), persist: true, broadcast: false }
    );
}

#[test]
fn resolve_fails_without_players() {
    let live = players(&[]);
    assert_eq!(resolve(None, &live), Err(Error::NoPlayersAvailable));
    assert_eq!(resolve(some("vlc"), &live), Err(Error::NoPlayersAvailable));
}

#[test]
fn resolve_compares_identifiers_exactly() {
    let live = players(&["vlc"]);
    let decision = resolve(some("vlc "), &live).unwrap();
    assert_eq!(decision.selection, "vlc");
    assert!(decision.persist);
    let decision = resolve(some("VLC"), &live).unwrap();
    assert!(decision.persist);
}

#[test]
fn switch_next_moves_one_place_on() {
    let live = players(&["a", "b", "c"]);
    assert_eq!(switched(some("a"), &live, SwitchPolicy::Next), "b");
    assert_eq!(switched(some("b"), &live, SwitchPolicy::Next), "c");
}

#[test]
fn switch_next_wraps_from_the_last_to_the_first() {
    let live = players(&["a", "b", "c"]);
    assert_eq!(switched(some("c"), &live, SwitchPolicy::Next), "a");
}

#[test]
fn switch_previous_moves_one_place_back() {
    let live = players(&["a", "b", "c"]);
    assert_eq!(switched(some("c"), &live, SwitchPolicy::Previous), "b");
    assert_eq!(switched(some("b"), &live, SwitchPolicy::Previous), "a");
}

#[test]
fn switch_previous_wraps_from_the_first_to_the_last() {
    let live = players(&["a", "b", "c"]);
    assert_eq!(switched(some("a"), &live, SwitchPolicy::Previous), "c");
}

#[test]
fn switch_round_the_whole_list_comes_back() {
    let names = ["one", "two", "three", "four", "five"];
    let live = players(&names);
    let n = names.len();
    for i in 0..n {
        assert_eq!(switched(some(names[i]), &live, SwitchPolicy::Next), names[(i + 1) % n]);
        assert_eq!(
            switched(some(names[i]), &live, SwitchPolicy::Previous),
            names[(i + n - 1) % n]
        );
    }
}

#[test]
fn switch_on_a_single_player_stays() {
    let live = players(&["only"]);
    assert_eq!(switched(some("only"), &live, SwitchPolicy::Next), "only");
    assert_eq!(switched(some("only"), &live, SwitchPolicy::Previous), "only");
}

#[test]
fn switch_named_selects_a_running_player() {
    let live = players(&["a", "b", "c"]);
    assert_eq!(switched(some("a"), &live, SwitchPolicy::Named("c".to_string())), "c");
    assert_eq!(switched(some("zzz"), &live, SwitchPolicy::Named("b".to_string())), "b");
    assert_eq!(switched(None, &live, SwitchPolicy::Named("a".to_string())), "a");
}

#[test]
fn switch_named_leaves_the_selection_when_the_player_is_not_running() {
    let live = players(&["a", "b", "c"]);
    assert_eq!(switched(some("b"), &live, SwitchPolicy::Named("x".to_string())), "b");
    assert_eq!(switched(some("stale"), &live, SwitchPolicy::Named("x".to_string())), "stale");
}

#[test]
fn switch_falls_back_to_the_first_player_without_a_selection() {
    let live = players(&["a", "b", "c"]);
    assert_eq!(switched(None, &live, SwitchPolicy::Next), "a");
    assert_eq!(switched(None, &live, SwitchPolicy::Previous), "a");
    assert_eq!(switched(None, &live, SwitchPolicy::Named("x".to_string())), "a");
}

#[test]
fn switch_takes_the_first_player_from_a_selection_that_is_not_running() {
    let live = players(&["a", "b", "c"]);
    assert_eq!(switched(some("gone"), &live, SwitchPolicy::Next), "a");
    assert_eq!(switched(some("gone"), &live, SwitchPolicy::Previous), "a");
}

#[test]
fn switch_takes_the_first_player_from_an_empty_selection() {
    let live = players(&["a", "b", "c"]);
    assert_eq!(switched(some(""), &live, SwitchPolicy::Next), "a");
    assert_eq!(switched(some(""), &live, SwitchPolicy::Previous), "a");
    assert_eq!(switched(some(""), &live, SwitchPolicy::Named("x".to_string())), "a");
    assert_eq!(switched(some(""), &live, SwitchPolicy::Named("c".to_string())), "c");
}

#[test]
fn switch_never_ends_on_an_empty_identifier_beside_a_first_player() {
    let live = players(&["a", "", "c"]);
    assert_eq!(switched(some("a"), &live, SwitchPolicy::Next), "a");
    assert_eq!(switched(some("c"), &live, SwitchPolicy::Previous), "a");
    assert_eq!(switched(some("c"), &live, SwitchPolicy::Named(String::new())), "a");
    assert_eq!(switched(some(""), &live, SwitchPolicy::Next), "c");
}

#[test]
fn switch_steps_from_the_first_of_equal_players() {
    let live = players(&["a", "b", "a", "c"]);
    assert_eq!(switched(some("a"), &live, SwitchPolicy::Next), "b");
    assert_eq!(switched(some("a"), &live, SwitchPolicy::Previous), "c");
}

#[test]
fn switch_fails_without_players() {
    let live = players(&[]);
    for policy in [SwitchPolicy::Next, SwitchPolicy::Previous, SwitchPolicy::Named("a".to_string())]
    {
        assert_eq!(switch(some("a"), &live, policy.clone()), Err(Error::NoPlayersAvailable));
        assert_eq!(switch(None, &live, policy), Err(Error::NoPlayersAvailable));
    }
}

#[test]
fn switch_broadcasts_even_when_nothing_changes() {
    let live = players(&["a"]);
    let decision = switch(some("a"), &live, SwitchPolicy::Named("a".to_string())).unwrap();
    assert_eq!(decision, Decision { selection: "a".to_string(), persist: true, broadcast: true });
}

#[test]
fn scenario_two_players_resolve_then_switch_there_and_back() {
    let live = players(&["firefox", "vlc"]);
    let seeded = resolve(None, &live).unwrap();
    assert_eq!(seeded.selection, "firefox");
    assert!(seeded.persist);
    let forward = switch(Some(seeded.selection), &live, SwitchPolicy::Next).unwrap();
    assert_eq!(forward.selection, "vlc");
    let back = switch(Some(forward.selection), &live, SwitchPolicy::Previous).unwrap();
    assert_eq!(back.selection, "firefox");
}

#[test]
fn scenario_no_players_at_startup_reports_and_stops() {
    let live = PlayerSet::from_backend(Vec::new()).unwrap();
    let failure = resolve(None, &live).unwrap_err();
    assert_eq!(failure, Error::NoPlayersAvailable);
    assert_eq!(failure.message(), "No players found!");
}

#[test]
fn policy_from_the_switch_options() {
    assert_eq!(
        SwitchPolicy::from_flags(Some("vlc".to_string()), false, false),
        SwitchPolicy::Named("vlc".to_string())
    );
    assert_eq!(
        SwitchPolicy::from_flags(Some("vlc".to_string()), true, true),
        SwitchPolicy::Named("vlc".to_string())
    );
    assert_eq!(SwitchPolicy::from_flags(None, false, false), SwitchPolicy::Next);
    assert_eq!(SwitchPolicy::from_flags(None, true, false), SwitchPolicy::Next);
    assert_eq!(SwitchPolicy::from_flags(None, false, true), SwitchPolicy::Previous);
    assert_eq!(SwitchPolicy::from_flags(None, true, true), SwitchPolicy::Previous);
}
