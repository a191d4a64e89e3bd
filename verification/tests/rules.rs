use wasted_time::observation;
use wasted_time::pattern::Pattern;
use wasted_time::rule::find_first_match;
use wasted_time::rule::Item;

fn look(title: &str, class: &str, path: &str, pid: u32) -> observation::Result {
    observation::Result::at(100, title.to_string(), class.to_string(), path.to_string(), pid)
}

#[test]
fn empty_pattern_matches_every_text() {
    let any = Pattern::new("").unwrap();
    assert!(any.matches(""));
    assert!(any.matches("anything at all"));
    assert!(any.matches("\n"));
    assert_eq!(any.source(), "");
    let also = Pattern::any();
    assert!(also.matches(""));
    assert_eq!(also.source(), "");
}

#[test]
fn pattern_search_is_unanchored() {
    let p = Pattern::new("a+b").unwrap();
    assert!(p.matches("xxaab yy"));
    assert!(p.matches("ab"));
    assert!(!p.matches("ba"));
    assert!(!p.matches(""));
    let anchored = Pattern::new("^ab$").unwrap();
    assert!(anchored.matches("ab"));
    assert!(!anchored.matches("xab"));
}

#[test]
fn pattern_keeps_its_text() {
    let p = Pattern::new(r".*Browser.*").unwrap();
    assert_eq!(p.source(), ".*Browser.*");
}

#[test]
fn pattern_matches_by_the_expression_not_by_equality() {
    let p = Pattern::new("B.owser").unwrap();
    assert!(p.matches("My Browser"));
    assert!(!p.matches("B.owser".replace('.', "").as_str()));
}

#[test]
fn malformed_pattern_is_rejected() {
    assert!(Pattern::new("foo(bar").is_err());
    assert!(Pattern::new("[a-").is_err());
    assert!(Item::new("foo(bar", "", "", "").is_err());
    assert!(Item::new("", "foo(bar", "", "").is_err());
    assert!(Item::new("", "", "foo(bar", "").is_err());
}

#[test]
fn from_compiled_takes_either_outcome() {
    let p = Pattern::from_compiled(regex::Regex::new("ab")).unwrap();
    assert!(p.matches("cab"));
    assert!(!p.matches("ba"));
    assert_eq!(p.source(), "ab");
    let empty = Pattern::from_compiled(regex::Regex::new("")).unwrap();
    assert!(empty.matches(""));
    assert_eq!(empty.source(), "");
    assert!(Pattern::from_compiled(regex::Regex::new("(")).is_err());
}

#[test]
fn item_keeps_its_texts_and_name() {
    let item = Item::new("t.*", "c", "p", "Name").unwrap();
    assert_eq!(item.title(), "t.*");
    assert_eq!(item.class(), "c");
    assert_eq!(item.path(), "p");
    assert_eq!(item.name(), "Name");
}

#[test]
fn item_needs_all_three_patterns_to_match() {
    let item = Item::new("Mail", "Window", "mail\\.exe", "").unwrap();
    assert!(item.matches(&look("Mail - Inbox", "MainWindow", "C:\\mail.exe", 3)));
    assert!(!item.matches(&look("News", "MainWindow", "C:\\mail.exe", 3)));
    assert!(!item.matches(&look("Mail - Inbox", "Dialog", "C:\\mail.exe", 3)));
    assert!(!item.matches(&look("Mail - Inbox", "MainWindow", "C:\\news.exe", 3)));
}

#[test]
fn item_matches_each_field_with_its_own_pattern() {
    let item = Item::new("alpha", "beta", "gamma", "").unwrap();
    assert!(item.matches(&look("alpha", "beta", "gamma", 1)));
    assert!(!item.matches(&look("beta", "gamma", "alpha", 1)));
}

#[test]
fn empty_rule_matches_any_observation() {
    let item = Item::new("", "", "", "").unwrap();
    assert!(item.matches(&look("Editor", "Class", "/bin/ed", 7)));
    assert!(item.matches(&look("", "", "", 0)));
    assert!(item.matches(&look("line\nbreak", "", "", 1)));
}

#[test]
fn empty_fields_leave_the_match_to_the_others() {
    let by_path = Item::new("", "", "games", "Play").unwrap();
    assert!(by_path.matches(&look("whatever", "any", "/opt/games/x", 5)));
    assert!(by_path.matches(&look("", "", "games", 5)));
    assert!(!by_path.matches(&look("games", "games", "/opt/work/x", 5)));
}

#[test]
fn find_first_match_walks_in_order() {
    let rules = vec![
        Item::new("zzz", "", "", "none").unwrap(),
        Item::new("Browser", "", "", "first").unwrap(),
        Item::new("", "", "", "second").unwrap(),
    ];
    assert_eq!(find_first_match(&rules, &look("My Browser", "", "", 1)), Some(1));
    assert_eq!(find_first_match(&rules, &look("Editor", "", "", 1)), Some(2));
    assert_eq!(find_first_match(&rules, &look("zzz Browser", "", "", 1)), Some(0));
    let none: Vec<Item> = Vec::new();
    assert_eq!(find_first_match(&none, &look("Editor", "", "", 1)), None);
    let strict = vec![Item::new("^a$", "", "", "").unwrap()];
    assert_eq!(find_first_match(&strict, &look("b", "", "", 1)), None);
}

#[test]
fn pattern_is_had_exactly_where_the_text_compiles() {
    for good in ["", "a", ".*Browser.*", "^x$", "[a-z]+\\.exe", "(a|b)*"] {
        assert_eq!(Pattern::new(good).is_ok(), regex::Regex::new(good).is_ok());
        assert!(Pattern::new(good).is_ok());
    }
    for bad in ["(", ")", "[a-", "a{2,1}", "*", "\\", "(?P<n>a)(?P<n>b)"] {
        assert_eq!(Pattern::new(bad).is_ok(), regex::Regex::new(bad).is_ok());
        assert!(Pattern::new(bad).is_err());
    }
}

#[test]
fn item_is_had_exactly_where_each_text_is_empty_or_compiles() {
    assert!(Item::new("a", "b", "c", "n").is_ok());
    assert!(Item::new("", "b", "", "n").is_ok());
    assert!(Item::new("a", "", "(", "n").is_err());
    assert!(Item::new("(", "(", "(", "n").is_err());
    assert!(Item::new("", "", "", "(").is_ok());
}

#[test]
fn empty_field_never_restricts_a_rule_with_other_patterns() {
    let by_title = Item::new("Mail", "", "", "").unwrap();
    for class in ["", "Window", "\n", "anything [ at all"] {
        for path in ["", "/bin/mail", "C:\\x"] {
            assert!(by_title.matches(&look("Mail", class, path, 1)));
            assert!(!by_title.matches(&look("News", class, path, 1)));
        }
    }
    let by_class_and_path = Item::new("", "Win", "exe$", "").unwrap();
    for title in ["", "t", "line\nbreak"] {
        assert!(by_class_and_path.matches(&look(title, "Window", "a.exe", 1)));
        assert!(!by_class_and_path.matches(&look(title, "Window", "a.exe.old", 1)));
        assert!(!by_class_and_path.matches(&look(title, "Dialog", "a.exe", 1)));
    }
}
