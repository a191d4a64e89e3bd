use wasted_time::classify::classify;
use wasted_time::classify::match_note;
use wasted_time::classify::Classification;
use wasted_time::observation;
use wasted_time::rule::Item;

fn look(title: &str, class: &str, path: &str, pid: u32) -> observation::Result {
    observation::Result::at(50, title.to_string(), class.to_string(), path.to_string(), pid)
}

fn effective(c: Classification) -> observation::Result {
    match c {
        Classification::Effective(r) => r,
        Classification::Suppressed => panic!("suppressed"),
    }
}

#[test]
fn ignored_observation_is_suppressed() {
    let ignore = vec![Item::new("Lock Screen", "", "", "").unwrap()];
    let group: Vec<Item> = Vec::new();
    let c = classify(look("Lock Screen", "Shell", "/sys", 4), &ignore, &group);
    assert!(matches!(c, Classification::Suppressed));
}

#[test]
fn ignore_rule_wins_over_group_rule() {
    let ignore = vec![Item::new("Browser", "", "", "").unwrap()];
    let group = vec![Item::new("Browser", "", "", "Web").unwrap()];
    let c = classify(look("My Browser", "Chrome", "/bin/b", 10), &ignore, &group);
    assert!(matches!(c, Classification::Suppressed));
}

#[test]
fn any_ignore_rule_suppresses_not_only_the_first() {
    let ignore = vec![Item::new("nothing", "", "", "").unwrap(), Item::new("", "", "secret", "").unwrap()];
    let group = vec![Item::new("", "", "", "All").unwrap()];
    let c = classify(look("Notes", "Win", "/home/secret/n", 10), &ignore, &group);
    assert!(matches!(c, Classification::Suppressed));
}

#[test]
fn group_rule_renames_and_clears_the_class() {
    let ignore: Vec<Item> = Vec::new();
    let group = vec![Item::new(".*Browser.*", "", "", "Web").unwrap()];
    let r = effective(classify(look("My Browser", "Chrome_WidgetWin", "/bin/b", 10), &ignore, &group));
    assert_eq!(r.title(), "Web");
    assert_eq!(r.class(), "");
    assert_eq!(r.path(), "/bin/b");
    assert_eq!(r.pid(), 10);
    assert_eq!(r.timestamp(), 50);
}

#[test]
fn first_group_rule_that_matches_names_the_activity() {
    let ignore: Vec<Item> = Vec::new();
    let group = vec![
        Item::new("Mail", "", "", "Post").unwrap(),
        Item::new("Browser", "", "", "Web").unwrap(),
        Item::new("", "", "", "Rest").unwrap(),
    ];
    assert_eq!(effective(classify(look("Browser: Mail", "", "", 1), &ignore, &group)).title(), "Post");
    assert_eq!(effective(classify(look("Browser", "", "", 1), &ignore, &group)).title(), "Web");
    assert_eq!(effective(classify(look("Editor", "", "", 1), &ignore, &group)).title(), "Rest");
}

#[test]
fn unmatched_observation_is_kept_as_seen() {
    let ignore = vec![Item::new("Lock", "", "", "").unwrap()];
    let group = vec![Item::new("Browser", "", "", "Web").unwrap()];
    let r = effective(classify(look("Editor", "Gtk", "/bin/ed", 20), &ignore, &group));
    assert_eq!(r.title(), "Editor");
    assert_eq!(r.class(), "Gtk");
    assert_eq!(r.path(), "/bin/ed");
    assert_eq!(r.pid(), 20);
    assert_eq!(r.timestamp(), 50);
}

#[test]
fn no_rules_keep_every_observation() {
    let none: Vec<Item> = Vec::new();
    let r = effective(classify(look("", "", "", 0), &none, &none));
    assert_eq!(r.title(), "");
    assert_eq!(r.pid(), 0);
    assert!(r.is_null());
}

#[test]
fn same_group_rule_gives_the_same_name_to_different_titles() {
    let ignore: Vec<Item> = Vec::new();
    let group = vec![Item::new("Browser", "", "", "Web").unwrap()];
    let one = effective(classify(look("My Browser", "A", "/b", 10), &ignore, &group));
    let other = effective(classify(look("My Browser - tab2", "B", "/b", 11), &ignore, &group));
    assert_eq!(one.title(), other.title());
    assert_eq!(one.title(), "Web");
    assert_eq!(one.pid(), 10);
    assert_eq!(other.pid(), 11);
}

#[test]
fn match_note_names_the_list_that_decided() {
    let ignore = vec![Item::new("Lock", "", "", "").unwrap()];
    let group = vec![Item::new("Browser", "", "", "Web").unwrap()];
    assert_eq!(
        match_note(&look("Lock Browser", "", "", 1), &ignore, &group),
        Some(String::from("#X IGNORELIST Lock Browser"))
    );
    assert_eq!(
        match_note(&look("My Browser", "", "", 1), &ignore, &group),
        Some(String::from("#X GROUPLIST My Browser"))
    );
    assert_eq!(match_note(&look("Editor", "", "", 1), &ignore, &group), None);
}
