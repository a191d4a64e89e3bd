use wasted_time::classify::classify;
use wasted_time::classify::Classification;
use wasted_time::observation;
use wasted_time::rule::Item;
use wasted_time::tracker::limit_reached;
use wasted_time::tracker::Session;
use wasted_time::tracker::SessionTracker;

fn look(at: i64, title: &str, pid: u32) -> observation::Result {
    observation::Result::at(at, title.to_string(), String::from("Class"), String::from("/path"), pid)
}

fn take(tracker: &mut SessionTracker, at: i64, title: &str, pid: u32) -> Option<Session> {
    tracker.observe(Classification::Effective(look(at, title, pid))).closed
}

#[test]
fn browser_then_editor_scenario() {
    let ignore: Vec<Item> = Vec::new();
    let group = vec![Item::new(".*Browser.*", "", "", "Web").unwrap()];
    let mut tracker = SessionTracker::new();

    let first = tracker.tick(look(1, "My Browser", 10), &ignore, &group);
    assert!(first.closed.is_none());
    assert!(first.started);

    let second = tracker.tick(look(2, "My Browser - tab2", 10), &ignore, &group);
    assert!(second.closed.is_none());
    assert!(!second.started);

    let third = tracker.tick(look(3, "Editor", 20), &ignore, &group);
    assert!(third.started);
    let web = third.closed.expect("the browser session ends at the third tick");
    assert_eq!(web.activity().title(), "Web");
    assert_eq!(web.activity().pid(), 10);
    assert_eq!(web.duration_seconds(), 2);
    assert_eq!(web.started_at(), 1);
    assert_eq!(web.ended_at(), 3);

    let editor = tracker.close(4).expect("the editor session ends at shutdown");
    assert_eq!(editor.activity().title(), "Editor");
    assert_eq!(editor.activity().pid(), 20);
    assert_eq!(editor.duration_seconds(), 1);
    assert!(tracker.current().is_none());
    assert!(tracker.close(5).is_none());
}

#[test]
fn new_tracker_is_idle() {
    let tracker = SessionTracker::new();
    assert_eq!(tracker.pid(), 0);
    assert!(tracker.current().is_none());
    assert_eq!(tracker.started_at(), None);
    assert!(tracker.started_by(i64::MIN));
}

#[test]
fn suppressed_tick_leaves_an_active_tracker_unchanged() {
    let mut tracker = SessionTracker::new();
    take(&mut tracker, 10, "Editor", 7);
    let change = tracker.observe(Classification::Suppressed);
    assert!(change.closed.is_none());
    assert!(!change.started);
    assert_eq!(tracker.pid(), 7);
    assert_eq!(tracker.started_at(), Some(10));
    assert_eq!(tracker.current().unwrap().title(), "Editor");
}

#[test]
fn suppressed_tick_leaves_an_idle_tracker_idle() {
    let mut tracker = SessionTracker::new();
    let change = tracker.observe(Classification::Suppressed);
    assert!(change.closed.is_none());
    assert!(!change.started);
    assert!(tracker.current().is_none());
}

#[test]
fn ignored_window_does_not_end_the_session() {
    let ignore = vec![Item::new("Lock", "", "", "").unwrap()];
    let group: Vec<Item> = Vec::new();
    let mut tracker = SessionTracker::new();
    tracker.tick(look(1, "Editor", 7), &ignore, &group);
    let change = tracker.tick(look(2, "Lock Screen", 99), &ignore, &group);
    assert!(change.closed.is_none());
    assert!(!change.started);
    assert_eq!(tracker.pid(), 7);
    assert_eq!(tracker.started_at(), Some(1));
    let session = tracker.tick(look(5, "Terminal", 8), &ignore, &group).closed.unwrap();
    assert_eq!(session.activity().pid(), 7);
    assert_eq!(session.duration_seconds(), 4);
}

#[test]
fn same_process_emits_nothing_however_often() {
    let mut tracker = SessionTracker::new();
    assert!(take(&mut tracker, 1, "Editor", 7).is_none());
    for at in 2..50 {
        let change = tracker.observe(Classification::Effective(look(at, "Editor", 7)));
        assert!(change.closed.is_none());
        assert!(!change.started);
    }
    assert_eq!(tracker.started_at(), Some(1));
}

#[test]
fn title_change_within_a_process_keeps_the_session() {
    let mut tracker = SessionTracker::new();
    take(&mut tracker, 1, "draft.txt", 7);
    assert!(take(&mut tracker, 2, "final.txt", 7).is_none());
    let session = take(&mut tracker, 3, "Other", 8).unwrap();
    assert_eq!(session.activity().title(), "draft.txt");
    assert_eq!(session.started_at(), 1);
    assert_eq!(session.duration_seconds(), 2);
}

#[test]
fn same_title_in_another_process_is_another_session() {
    let mut tracker = SessionTracker::new();
    take(&mut tracker, 1, "Shell", 7);
    let session = take(&mut tracker, 4, "Shell", 8).unwrap();
    assert_eq!(session.activity().pid(), 7);
    assert_eq!(session.duration_seconds(), 3);
    assert_eq!(tracker.pid(), 8);
    assert_eq!(tracker.started_at(), Some(4));
}

#[test]
fn grouped_windows_of_two_processes_share_the_name() {
    let ignore: Vec<Item> = Vec::new();
    let group = vec![Item::new("Browser", "", "", "Web").unwrap()];
    let mut tracker = SessionTracker::new();
    tracker.tick(look(1, "Browser A", 10), &ignore, &group);
    let session = tracker.tick(look(3, "Browser B", 11), &ignore, &group).closed.unwrap();
    assert_eq!(session.activity().title(), "Web");
    assert_eq!(session.activity().pid(), 10);
    assert_eq!(tracker.current().unwrap().title(), "Web");
    assert_eq!(tracker.current().unwrap().pid(), 11);
}

#[test]
fn distinct_processes_give_one_session_less_than_ticks() {
    let mut tracker = SessionTracker::new();
    let times: [i64; 6] = [100, 101, 105, 106, 120, 121];
    let mut sessions: Vec<Session> = Vec::new();
    for (i, at) in times.iter().enumerate() {
        if let Some(s) = take(&mut tracker, *at, "w", (i as u32) + 1) {
            sessions.push(s);
        }
    }
    assert_eq!(sessions.len(), times.len() - 1);
    let total: u64 = sessions.iter().map(|s| s.duration_seconds()).sum();
    assert_eq!(total, 21);
    for (i, s) in sessions.iter().enumerate() {
        assert_eq!(s.activity().pid(), (i as u32) + 1);
    }
    let last = tracker.close(130).unwrap();
    assert_eq!(last.activity().pid(), 6);
    assert_eq!(total + last.duration_seconds(), 30);
}

#[test]
fn null_observation_ends_the_session_and_goes_idle() {
    let mut tracker = SessionTracker::new();
    take(&mut tracker, 1, "Editor", 7);
    let change = tracker.observe(Classification::Effective(observation::Result::empty_at(6)));
    assert!(!change.started);
    let session = change.closed.unwrap();
    assert_eq!(session.activity().pid(), 7);
    assert_eq!(session.duration_seconds(), 5);
    assert!(tracker.current().is_none());
    assert_eq!(tracker.pid(), 0);
}

#[test]
fn null_observation_while_idle_changes_nothing() {
    let mut tracker = SessionTracker::new();
    let change = tracker.observe(Classification::Effective(observation::Result::empty_at(6)));
    assert!(change.closed.is_none());
    assert!(!change.started);
    assert!(tracker.current().is_none());
}

#[test]
fn session_of_no_seconds_is_allowed() {
    let mut tracker = SessionTracker::new();
    take(&mut tracker, 9, "a", 1);
    let session = take(&mut tracker, 9, "b", 2).unwrap();
    assert_eq!(session.duration_seconds(), 0);
    assert_eq!(session.started_at(), session.ended_at());
}

#[test]
fn duration_is_exact_over_the_whole_range_of_moments() {
    let mut tracker = SessionTracker::new();
    take(&mut tracker, i64::MIN, "a", 1);
    let session = tracker.close(i64::MAX).unwrap();
    assert_eq!(session.duration_seconds(), u64::MAX);
}

#[test]
fn started_by_tells_whether_a_moment_is_in_order() {
    let mut tracker = SessionTracker::new();
    take(&mut tracker, 10, "a", 1);
    assert!(tracker.started_by(10));
    assert!(tracker.started_by(11));
    assert!(!tracker.started_by(9));
}

#[test]
fn classify_then_observe_is_tick() {
    let ignore = vec![Item::new("Lock", "", "", "").unwrap()];
    let group = vec![Item::new("Browser", "", "", "Web").unwrap()];
    let mut by_tick = SessionTracker::new();
    let mut by_hand = SessionTracker::new();
    let looks = [(1, "Browser", 3), (2, "Lock", 4), (3, "Editor", 5), (4, "Browser x", 3)];
    for (at, title, pid) in looks.iter() {
        let a = by_tick.tick(look(*at, title, *pid), &ignore, &group);
        let b = by_hand.observe(classify(look(*at, title, *pid), &ignore, &group));
        assert_eq!(a.started, b.started);
        assert_eq!(a.closed.is_some(), b.closed.is_some());
        assert_eq!(by_tick.pid(), by_hand.pid());
        assert_eq!(by_tick.started_at(), by_hand.started_at());
    }
    assert_eq!(by_tick.pid(), 3);
}

#[test]
fn limit_of_zero_never_stops_the_loop() {
    assert!(!limit_reached(0, 0));
    assert!(!limit_reached(u64::MAX, 0));
}

#[test]
fn limit_is_reached_at_the_count() {
    assert!(!limit_reached(2, 3));
    assert!(limit_reached(3, 3));
    assert!(limit_reached(4, 3));
    assert!(limit_reached(1, 1));
    assert!(!limit_reached(0, 1));
}

#[test]
fn shutdown_ends_the_session_at_the_moment_given() {
    let mut tracker = SessionTracker::new();
    take(&mut tracker, 10, "a", 1);
    let session = tracker.shutdown(25).unwrap();
    assert_eq!(session.started_at(), 10);
    assert_eq!(session.ended_at(), 25);
    assert_eq!(session.duration_seconds(), 15);
    assert!(tracker.current().is_none());
    assert!(tracker.shutdown(30).is_none());
}

#[test]
fn shutdown_never_ends_a_session_before_its_start() {
    let mut tracker = SessionTracker::new();
    take(&mut tracker, 10, "a", 1);
    let session = tracker.shutdown(4).unwrap();
    assert_eq!(session.started_at(), 10);
    assert_eq!(session.ended_at(), 10);
    assert_eq!(session.duration_seconds(), 0);
    assert!(tracker.current().is_none());
}

#[test]
fn try_tick_passes_over_a_look_from_before_the_start() {
    let none: Vec<Item> = Vec::new();
    let mut tracker = SessionTracker::new();
    assert!(tracker.try_tick(look(10, "a", 1), &none, &none).is_some());
    assert!(tracker.try_tick(look(9, "b", 2), &none, &none).is_none());
    assert_eq!(tracker.pid(), 1);
    assert_eq!(tracker.started_at(), Some(10));
    let change = tracker.try_tick(look(12, "b", 2), &none, &none).unwrap();
    let session = change.closed.unwrap();
    assert_eq!(session.activity().pid(), 1);
    assert_eq!(session.duration_seconds(), 2);
    assert!(change.started);
}

#[test]
fn try_tick_takes_any_moment_while_idle() {
    let none: Vec<Item> = Vec::new();
    let mut tracker = SessionTracker::new();
    let change = tracker.try_tick(look(i64::MIN, "a", 1), &none, &none).unwrap();
    assert!(change.started);
    assert!(change.closed.is_none());
    assert_eq!(tracker.started_at(), Some(i64::MIN));
}
