//! Rules: a pattern for each of title, class and path, and the name under
//! which a group rule files what it matches.

use crate::observation;
use crate::observation::Activity;
use crate::pattern::compiles;
use crate::pattern::InvalidPattern;
use crate::pattern::Pattern;
use vstd::prelude::*;
use vstd::string::StringExecFns;

verus! {

/// The mathematical content of an `Item`: its three pattern texts and its
/// name.
pub struct Rule {
    pub title: Seq<char>,
    pub class: Seq<char>,
    pub path: Seq<char>,
    pub name: Seq<char>,
}

/// One rule of the ignore list or of the group list.
#[derive(Debug)]
pub struct Item {
    title: Pattern,
    class: Pattern,
    path: Pattern,
    name: String,
}

impl Rule {
    /// Whether the rule can be made: each of its three pattern texts is
    /// empty or compiles.
    pub open spec fn compiles(self) -> bool {
        compiles(self.title) && compiles(self.class) && compiles(self.path)
    }
}

impl View for Item {
    type V = Rule;

    open spec fn view(&self) -> Rule {
        Rule {
            title: self.title_pattern()@,
            class: self.class_pattern()@,
            path: self.path_pattern()@,
            name: self.rule_name(),
        }
    }
}

impl Item {
    /// The pattern for the title.
    pub closed spec fn title_pattern(self) -> Pattern {
        self.title
    }

    /// The pattern for the class.
    pub closed spec fn class_pattern(self) -> Pattern {
        self.class
    }

    /// The pattern for the path.
    pub closed spec fn path_pattern(self) -> Pattern {
        self.path
    }

    /// The name under which the rule files what it matches.
    pub closed spec fn rule_name(self) -> Seq<char> {
        self.name@
    }

    /// Each of the three patterns is well formed.
    pub open spec fn wf(self) -> bool {
        self.title_pattern().wf() && self.class_pattern().wf() && self.path_pattern().wf()
    }

    /// Whether the rule matches an activity: each pattern must match its
    /// own field, independently of the other two. A pattern of the empty
    /// text matches whatever its field holds, so that it never restricts
    /// the rule.
    pub open spec fn accepts(self, seen: Activity) -> bool {
        &&& self.title_pattern().accepts(seen.title)
        &&& self.class_pattern().accepts(seen.class)
        &&& self.path_pattern().accepts(seen.path)
    }

    /// The rule made of three patterns and a name.
    pub fn from_patterns(title: Pattern, class: Pattern, path: Pattern, name: String) -> (item:
        Item)
        ensures
            item.title_pattern() == title,
            item.class_pattern() == class,
            item.path_pattern() == path,
            item.rule_name() == name@,
    {
        Item { title, class, path, name }
    }

    /// Compiles the three pattern texts, title first. The rule is had
    /// exactly where each text is empty or compiles. Each of its patterns
    /// then holds the expression compiled from its text, and none for the
    /// empty text: a field whose text is empty matches every string, the
    /// empty one included.
    pub fn new(title: &str, class: &str, path: &str, name: &str) -> (r: Result<
        Item,
        InvalidPattern,
    >)
        ensures
            r is Ok <==> (Rule { title: title@, class: class@, path: path@, name: name@ }).compiles(),
            r matches Ok(item) ==> item.wf() && item@ == (Rule {
                title: title@,
                class: class@,
                path: path@,
                name: name@,
            }),
            r matches Ok(item) ==> (title@.len() == 0 ==> forall|text: Seq<char>| #[trigger]
                item.title_pattern().accepts(text)),
            r matches Ok(item) ==> (class@.len() == 0 ==> forall|text: Seq<char>| #[trigger]
                item.class_pattern().accepts(text)),
            r matches Ok(item) ==> (path@.len() == 0 ==> forall|text: Seq<char>| #[trigger]
                item.path_pattern().accepts(text)),
    {
        let title = match Pattern::new(title) {
            Ok(p) => p,
            Err(e) => {
                return Err(e);
            },
        };
        let class = match Pattern::new(class) {
            Ok(p) => p,
            Err(e) => {
                return Err(e);
            },
        };
        let path = match Pattern::new(path) {
            Ok(p) => p,
            Err(e) => {
                return Err(e);
            },
        };
        Ok(Item::from_patterns(title, class, path, String::from_str(name)))
    }

    /// Whether the rule matches what was seen.
    pub fn matches(&self, seen: &observation::Result) -> (b: bool)
        ensures
            b == self.accepts(seen@),
    {
        self.title.matches(seen.title()) && self.class.matches(seen.class()) && self.path.matches(
            seen.path(),
        )
    }

    /// The name under which a group rule files what it matches.
    pub fn name(&self) -> (s: &str)
        ensures
            s@ == self@.name,
    {
        self.name.as_str()
    }

    /// The pattern text for the title.
    pub fn title(&self) -> (s: String)
        ensures
            s@ == self@.title,
    {
        self.title.source()
    }

    /// The pattern text for the class.
    pub fn class(&self) -> (s: String)
        ensures
            s@ == self@.class,
    {
        self.class.source()
    }

    /// The pattern text for the path.
    pub fn path(&self) -> (s: String)
        ensures
            s@ == self@.path,
    {
        self.path.source()
    }
}

/// A rule whose three pattern texts are empty matches whatever is seen.
pub proof fn lemma_empty_rule_accepts(item: Item, seen: Activity)
    requires
        item.wf(),
        item@.title.len() == 0,
        item@.class.len() == 0,
        item@.path.len() == 0,
    ensures
        item.accepts(seen),
{
}

/// A field whose pattern text is empty never restricts a rule: whether the
/// rule matches is decided by the other fields alone, whatever the field
/// holds.
pub proof fn lemma_empty_field_never_restricts(item: Item, seen: Activity)
    requires
        item.wf(),
    ensures
        item@.title.len() == 0 ==> item.accepts(seen) == (item.class_pattern().accepts(seen.class)
            && item.path_pattern().accepts(seen.path)),
        item@.class.len() == 0 ==> item.accepts(seen) == (item.title_pattern().accepts(seen.title)
            && item.path_pattern().accepts(seen.path)),
        item@.path.len() == 0 ==> item.accepts(seen) == (item.title_pattern().accepts(seen.title)
            && item.class_pattern().accepts(seen.class)),
{
}

/// Whether some rule of the list matches.
pub open spec fn any_match(rules: Seq<Item>, seen: Activity) -> bool {
    exists|i: int| 0 <= i < rules.len() && #[trigger] rules[i].accepts(seen)
}

/// Whether the rule at `at` matches and none in front of it does.
pub open spec fn is_first_match(rules: Seq<Item>, seen: Activity, at: int) -> bool {
    &&& 0 <= at < rules.len()
    &&& rules[at].accepts(seen)
    &&& forall|j: int| 0 <= j < at ==> !#[trigger] rules[j].accepts(seen)
}

/// The place of the first rule that matches, in the order of the list.
pub open spec fn first_match(rules: Seq<Item>, seen: Activity) -> Option<int> {
    if any_match(rules, seen) {
        Some(choose|at: int| is_first_match(rules, seen, at))
    } else {
        None
    }
}

/// A list has one first match at most, and `first_match` names it.
pub proof fn lemma_first_match(rules: Seq<Item>, seen: Activity, at: int)
    requires
        is_first_match(rules, seen, at),
    ensures
        first_match(rules, seen) == Some(at),
{
    let chosen = choose|k: int| is_first_match(rules, seen, k);
    assert(is_first_match(rules, seen, chosen));
    if chosen < at {
        assert(!rules[chosen].accepts(seen));
    } else if at < chosen {
        assert(!rules[at].accepts(seen));
    }
}

/// Walks the list in order and stops at the first rule that matches.
pub fn find_first_match(rules: &Vec<Item>, seen: &observation::Result) -> (found: Option<usize>)
    ensures
        found matches Some(at) ==> is_first_match(rules@, seen@, at as int),
        found is None ==> !any_match(rules@, seen@),
        match found {
            Some(at) => first_match(rules@, seen@) == Some(at as int),
            None => first_match(rules@, seen@) is None,
        },
{
    let mut at: usize = 0;
    while at < rules.len()
        invariant
            at <= rules.len(),
            forall|j: int| 0 <= j < at ==> !#[trigger] rules@[j].accepts(seen@),
        decreases rules.len() - at,
    {
        if rules[at].matches(seen) {
            proof {
                lemma_first_match(rules@, seen@, at as int);
            }
            return Some(at);
        }
        at += 1;
    }
    None
}

} // verus!
