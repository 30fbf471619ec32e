use git_eq::Notification;
use git_eq::ScriptedEvents;
use git_eq::lock_wait_decision;
use git_eq::wait_for_removal;

fn removed(path: &str) -> Notification {
    Notification::Removed { path: path.to_string() }
}

#[test]
fn decision_stops_on_removal_of_exact_watched_path() {
    let watched = "/repo/.git/index.lock".to_string();
    assert!(lock_wait_decision(&watched, &removed("/repo/.git/index.lock")));
}

#[test]
fn decision_keeps_waiting_on_unrelated_paths_and_other_kinds() {
    let watched = "/repo/.git/index.lock".to_string();
    assert!(!lock_wait_decision(&watched, &removed("/repo/.git/HEAD.lock")));
    assert!(!lock_wait_decision(&watched, &removed("")));
    assert!(!lock_wait_decision(&watched, &Notification::Other));
}

#[test]
fn decision_stops_on_closed_channel() {
    let watched = "/repo/.git/index.lock".to_string();
    assert!(lock_wait_decision(&watched, &Notification::Closed));
}

#[test]
fn wait_consumes_events_until_matching_removal() {
    let watched = "/repo/.git/index.lock".to_string();
    let mut source = ScriptedEvents::new(vec![
        Notification::Other,
        removed("/repo/.git/HEAD.lock"),
        Notification::Other,
        removed("/repo/.git/index.lock"),
        Notification::Other,
        removed("/repo/.git/index.lock"),
    ]);
    wait_for_removal(&mut source, &watched, u64::MAX);
    assert_eq!(source.remaining(), 2);
}

#[test]
fn wait_returns_when_channel_closes() {
    let watched = "/repo/.git/index.lock".to_string();
    let mut source = ScriptedEvents::new(vec![
        Notification::Other,
        Notification::Closed,
        Notification::Other,
    ]);
    wait_for_removal(&mut source, &watched, u64::MAX);
    assert_eq!(source.remaining(), 1);
}

#[test]
fn wait_returns_at_once_with_nothing_to_observe() {
    let watched = "/repo/.git/index.lock".to_string();
    let mut source = ScriptedEvents::new(Vec::new());
    wait_for_removal(&mut source, &watched, u64::MAX);
    assert_eq!(source.remaining(), 0);
}

#[test]
fn wait_respects_its_inspection_budget() {
    let watched = "/repo/.git/index.lock".to_string();
    let mut source = ScriptedEvents::new(vec![
        Notification::Other,
        Notification::Other,
        Notification::Other,
        Notification::Other,
    ]);
    wait_for_removal(&mut source, &watched, 2);
    assert_eq!(source.remaining(), 2);
}

#[test]
fn wait_returns_at_once_when_the_watch_cannot_be_established() {
    // The path does not exist, so no filesystem watch can be established on
    // it; the wait must return immediately instead of blocking.
    let _ = git_eq::wait_until_deleted(&"/nonexistent-earthquake-dir/index.lock".to_string());
}
