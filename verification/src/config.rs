//! The configuration document and what is read out of it: the two rule
//! lists and the debug flag.

use crate::rule::Item;
use crate::rule::Rule;
use vstd::prelude::*;
use vstd::string::StringExecFns;

verus! {

/// The mathematical content of a `ConfigValue`.
pub enum Document {
    /// A string.
    Text(Seq<char>),
    /// An array, in the order written.
    List(Seq<Document>),
    /// A table: its keys with their values.
    Table(Seq<(Seq<char>, Document)>),
    /// Any other value: a number, a boolean, a date.
    Other,
}

/// A value of the configuration document.
#[derive(Debug)]
pub enum ConfigValue {
    Text(String),
    List(Vec<ConfigValue>),
    Table(Vec<(String, ConfigValue)>),
    Other,
}

/// Why a configuration gives no rules.
#[derive(Clone, Copy, Debug, PartialEq, Eq, Structural)]
pub enum ConfigError {
    /// The document has no `WastedTime` table.
    MissingRoot,
    /// The `WastedTime` table lacks the section asked for.
    MissingSection,
    /// The section is there but is not an array.
    NotAList,
    /// The regex engine rejected a pattern of a rule.
    InvalidPattern,
}

/// The document that a value stands for.
pub open spec fn document_of(value: ConfigValue) -> Document
    decreases value,
{
    match value {
        ConfigValue::Text(s) => Document::Text(s@),
        ConfigValue::List(items) => Document::List(
            Seq::new(
                items@.len(),
                |i: int|
                    if 0 <= i < items@.len() {
                        document_of(items@[i])
                    } else {
                        Document::Other
                    },
            ),
        ),
        ConfigValue::Table(entries) => Document::Table(
            Seq::new(
                entries@.len(),
                |i: int|
                    if 0 <= i < entries@.len() {
                        (entries@[i].0@, document_of(entries@[i].1))
                    } else {
                        (Seq::empty(), Document::Other)
                    },
            ),
        ),
        ConfigValue::Other => Document::Other,
    }
}

impl View for ConfigValue {
    type V = Document;

    open spec fn view(&self) -> Document {
        document_of(*self)
    }
}

/// The value of the first entry under `key`.
pub open spec fn lookup(entries: Seq<(Seq<char>, Document)>, key: Seq<char>) -> Option<Document>
    decreases entries.len(),
{
    if entries.len() == 0 {
        None
    } else if entries[0].0 == key {
        Some(entries[0].1)
    } else {
        lookup(entries.drop_first(), key)
    }
}

/// `lookup` finds the entry at `at` where no entry in front of it has the
/// key, and finds nothing where no entry has it.
pub proof fn lemma_lookup(entries: Seq<(Seq<char>, Document)>, key: Seq<char>, at: int)
    requires
        0 <= at <= entries.len(),
        forall|j: int| 0 <= j < at ==> (#[trigger] entries[j]).0 != key,
        at < entries.len() ==> entries[at].0 == key,
    ensures
        lookup(entries, key) == if at < entries.len() {
            Some(entries[at].1)
        } else {
            None
        },
    decreases entries.len(),
{
    if entries.len() > 0 && at > 0 {
        let rest = entries.drop_first();
        assert forall|j: int| 0 <= j < at - 1 implies (#[trigger] rest[j]).0 != key by {
            assert(rest[j] == entries[j + 1]);
        }
        lemma_lookup(rest, key, at - 1);
    }
}

impl Document {
    /// The value under `key` where this is a table that has the key.
    pub open spec fn get(self, key: Seq<char>) -> Option<Document> {
        match self {
            Document::Table(entries) => lookup(entries, key),
            _ => None,
        }
    }

    /// The string this is, or the empty string where it is none.
    pub open spec fn text(self) -> Seq<char> {
        match self {
            Document::Text(s) => s,
            _ => Seq::empty(),
        }
    }

    /// The elements of the array this is, or none where it is no array.
    pub open spec fn items(self) -> Seq<Document> {
        match self {
            Document::List(items) => items,
            _ => Seq::empty(),
        }
    }
}

impl ConfigValue {
    /// The value under `key` where this is a table that has the key.
    pub fn get(&self, key: &str) -> (found: Option<&ConfigValue>)
        ensures
            match found {
                Some(v) => self@.get(key@) == Some(v@),
                None => self@.get(key@) is None,
            },
    {
        match self {
            ConfigValue::Table(entries) => {
                let wanted = String::from_str(key);
                let ghost table = self@->Table_0;
                let mut at: usize = 0;
                while at < entries.len()
                    invariant
                        at <= entries.len(),
                        wanted@ == key@,
                        self@ == Document::Table(table),
                        table.len() == entries@.len(),
                        forall|j: int|
                            0 <= j < entries@.len() ==> #[trigger] table[j] == (
                                entries@[j].0@,
                                entries@[j].1@,
                            ),
                        forall|j: int| 0 <= j < at ==> (#[trigger] table[j]).0 != key@,
                    decreases entries.len() - at,
                {
                    if entries[at].0 == wanted {
                        proof {
                            lemma_lookup(table, key@, at as int);
                        }
                        return Some(&entries[at].1);
                    }
                    at += 1;
                }
                proof {
                    lemma_lookup(table, key@, at as int);
                }
                None
            },
            _ => None,
        }
    }

    /// The string this is, or the empty string where it is none.
    pub fn text(&self) -> (s: &str)
        ensures
            s@ == self@.text(),
    {
        match self {
            ConfigValue::Text(s) => s.as_str(),
            _ => {
                proof {
                    reveal_strlit("");
                }
                ""
            },
        }
    }

    /// The elements of the array this is, where it is one.
    pub fn as_list(&self) -> (found: Option<&Vec<ConfigValue>>)
        ensures
            match found {
                Some(items) => self@ == Document::List(item_views(items@)),
                None => !(self@ is List),
            },
    {
        match self {
            ConfigValue::List(items) => {
                assert(self@->List_0 =~= item_views(items@));
                Some(items)
            },
            _ => None,
        }
    }
}

/// The documents that a sequence of values stands for.
pub open spec fn item_views(items: Seq<ConfigValue>) -> Seq<Document> {
    Seq::new(items.len(), |i: int| items[i]@)
}

/// The entries of a section: the array under the section's key in the
/// `WastedTime` table.
pub open spec fn section_entries(doc: Document, section: Seq<char>) -> Result<
    Seq<Document>,
    ConfigError,
> {
    match doc.get("WastedTime"@) {
        None => Err(ConfigError::MissingRoot),
        Some(root) => match root.get(section) {
            None => Err(ConfigError::MissingSection),
            Some(Document::List(entries)) => Ok(entries),
            Some(_) => Err(ConfigError::NotAList),
        },
    }
}

/// The rule that one entry of a section writes down. An entry is an array of
/// three pattern texts and a name; what is no string counts as the empty
/// string. An entry that is no array or is shorter than three gives no rule,
/// and neither does one without a name where a name is needed. Where no name
/// is needed and none is there, the name is empty.
pub open spec fn entry_rule(entry: Document, needs_name: bool) -> Option<Rule> {
    let fields = entry.items();
    if fields.len() < 3 || (fields.len() < 4 && needs_name) {
        None
    } else {
        Some(
            Rule {
                title: fields[0].text(),
                class: fields[1].text(),
                path: fields[2].text(),
                name: if fields.len() >= 4 {
                    fields[3].text()
                } else {
                    Seq::empty()
                },
            },
        )
    }
}

/// The rules that the entries write down, in their order; entries that give
/// no rule are passed over.
pub open spec fn listed_rules(entries: Seq<Document>, needs_name: bool) -> Seq<Rule>
    decreases entries.len(),
{
    if entries.len() == 0 {
        Seq::empty()
    } else {
        let front = listed_rules(entries.drop_last(), needs_name);
        match entry_rule(entries.last(), needs_name) {
            Some(rule) => front.push(rule),
            None => front,
        }
    }
}

/// Only the group list needs a name in each entry.
pub open spec fn needs_name(section: Seq<char>) -> bool {
    section == "grouplist"@
}

/// The rules of a section of the document.
pub open spec fn rules_in(doc: Document, section: Seq<char>) -> Result<Seq<Rule>, ConfigError> {
    match section_entries(doc, section) {
        Err(e) => Err(e),
        Ok(entries) => Ok(listed_rules(entries, needs_name(section))),
    }
}

/// Whether every rule of the list can be made: each pattern text of each
/// rule is empty or compiles.
pub open spec fn all_compile(rules: Seq<Rule>) -> bool {
    forall|i: int| 0 <= i < rules.len() ==> (#[trigger] rules[i]).compiles()
}

/// The rules that a sequence of items stands for.
pub open spec fn rule_views(items: Seq<Item>) -> Seq<Rule> {
    Seq::new(items.len(), |i: int| items[i]@)
}

/// Every rule that an entry writes down is among the listed rules.
pub proof fn lemma_listed_contains(entries: Seq<Document>, needs_name: bool, at: int)
    requires
        0 <= at < entries.len(),
        entry_rule(entries[at], needs_name) is Some,
    ensures
        listed_rules(entries, needs_name).contains(entry_rule(entries[at], needs_name)->Some_0),
    decreases entries.len(),
{
    let front = listed_rules(entries.drop_last(), needs_name);
    let rule = entry_rule(entries[at], needs_name)->Some_0;
    if at == entries.len() - 1 {
        assert(front.push(rule)[front.len() as int] == rule);
    } else {
        assert(entries.drop_last()[at] == entries[at]);
        lemma_listed_contains(entries.drop_last(), needs_name, at);
        let k = choose|k: int| 0 <= k < front.len() && front[k] == rule;
        match entry_rule(entries.last(), needs_name) {
            Some(last) => {
                assert(front.push(last)[k] == rule);
            },
            None => {},
        }
    }
}

/// The array under the section's key in the `WastedTime` table.
pub fn section_list<'a>(val: &'a ConfigValue, section: &str) -> (r: Result<
    &'a Vec<ConfigValue>,
    ConfigError,
>)
    ensures
        match section_entries(val@, section@) {
            Err(e) => r matches Err(err) && err == e,
            Ok(entries) => r matches Ok(list) && item_views(list@) == entries,
        },
{
    match val.get("WastedTime") {
        None => Err(ConfigError::MissingRoot),
        Some(root) => match root.get(section) {
            None => Err(ConfigError::MissingSection),
            Some(found) => match found.as_list() {
                Some(list) => Ok(list),
                None => Err(ConfigError::NotAList),
            },
        },
    }
}

/// The four texts of the rule that an entry writes down, where it writes one.
pub fn entry_fields(entry: &ConfigValue, needs_name: bool) -> (found: Option<
    (&str, &str, &str, &str),
>)
    ensures
        match found {
            Some((title, class, path, name)) => entry_rule(entry@, needs_name) == Some(
                Rule { title: title@, class: class@, path: path@, name: name@ },
            ),
            None => entry_rule(entry@, needs_name) is None,
        },
{
    match entry.as_list() {
        None => None,
        Some(fields) => {
            if fields.len() < 3 || (fields.len() < 4 && needs_name) {
                None
            } else {
                let name = if fields.len() >= 4 {
                    fields[3].text()
                } else {
                    proof {
                        reveal_strlit("");
                    }
                    ""
                };
                proof {
                    let docs = item_views(fields@);
                    assert(docs[0] == fields@[0]@ && docs[1] == fields@[1]@ && docs[2]
                        == fields@[2]@);
                    assert(fields@.len() >= 4 ==> docs[3] == fields@[3]@);
                    assert(fields@.len() < 4 ==> name@ =~= Seq::<char>::empty());
                }
                Some((fields[0].text(), fields[1].text(), fields[2].text(), name))
            }
        },
    }
}

/// Reads the rules of one section, `"ignorelist"` or `"grouplist"`, and
/// compiles them in their order.
///
/// Where the document does not hold the section as an array, that is the
/// failure. Where it does, the rules come out as written exactly where every
/// pattern text of every rule is empty or compiles; a single text that does
/// not is a malformed pattern, and no rules are had.
pub fn parse_toml(val: &ConfigValue, section: &str) -> (r: Result<Vec<Item>, ConfigError>)
    ensures
        rules_in(val@, section@) matches Err(e) ==> r matches Err(err) && err == e,
        rules_in(val@, section@) matches Ok(rules) ==> (r is Ok <==> all_compile(rules)),
        rules_in(val@, section@) matches Ok(rules) ==> match r {
            Ok(items) => rule_views(items@) == rules,
            Err(err) => err == ConfigError::InvalidPattern,
        },
        r matches Ok(items) ==> forall|i: int|
            0 <= i < items@.len() ==> (#[trigger] items@[i]).wf(),
{
    let entries = match section_list(val, section) {
        Ok(list) => list,
        Err(e) => {
            return Err(e);
        },
    };
    let with_name = String::from_str(section) == String::from_str("grouplist");
    let ghost docs = item_views(entries@);
    let mut itemlist: Vec<Item> = Vec::new();
    let mut at: usize = 0;
    while at < entries.len()
        invariant
            at <= entries.len(),
            docs == item_views(entries@),
            section_entries(val@, section@) == Ok::<Seq<Document>, ConfigError>(docs),
            with_name == needs_name(section@),
            rule_views(itemlist@) == listed_rules(docs.take(at as int), with_name),
            all_compile(rule_views(itemlist@)),
            forall|i: int| 0 <= i < itemlist@.len() ==> (#[trigger] itemlist@[i]).wf(),
        decreases entries.len() - at,
    {
        let ghost before = itemlist@;
        proof {
            let upto = docs.take(at + 1);
            assert(upto.drop_last() =~= docs.take(at as int));
            assert(upto.last() == entries@[at as int]@);
        }
        match entry_fields(&entries[at], with_name) {
            Some((title, class, path, name)) => {
                match Item::new(title, class, path, name) {
                    Ok(item) => {
                        itemlist.push(item);
                        assert(rule_views(itemlist@) =~= rule_views(before).push(item@));
                    },
                    Err(_) => {
                        proof {
                            // The rule that was rejected is among the listed
                            // rules, so not all of them can be made.
                            let listed = listed_rules(docs, with_name);
                            let rule = entry_rule(docs[at as int], with_name)->Some_0;
                            lemma_listed_contains(docs, with_name, at as int);
                            let k = choose|k: int| 0 <= k < listed.len() && listed[k] == rule;
                            assert(!listed[k].compiles());
                        }
                        return Err(ConfigError::InvalidPattern);
                    },
                }
            },
            None => {},
        }
        at += 1;
    }
    assert(docs.take(at as int) =~= docs);
    Ok(itemlist)
}

/// The text that `str::to_lowercase` gives for `text`.
pub uninterp spec fn lowercase(text: Seq<char>) -> Seq<char>;

/// Calls `str::to_lowercase`.
#[verifier::external_body]
fn to_lowercase(text: &str) -> (lower: String)
    ensures
        lower@ == lowercase(text@),
{
    text.to_lowercase()
}

/// The flag under `key` in the `WastedTime` table: set where the value is a
/// string that reads `true` in any mix of cases, clear where it is anything
/// else or is not there.
pub open spec fn flag_in(doc: Document, key: Seq<char>) -> Result<bool, ConfigError> {
    match doc.get("WastedTime"@) {
        None => Err(ConfigError::MissingRoot),
        Some(root) => Ok(
            match root.get(key) {
                Some(Document::Text(s)) => lowercase(s) == "true"@,
                _ => false,
            },
        ),
    }
}

/// Reads a flag of the `WastedTime` table.
pub fn parse_bool(val: &ConfigValue, key: &str) -> (r: Result<bool, ConfigError>)
    ensures
        r == flag_in(val@, key@),
{
    match val.get("WastedTime") {
        None => Err(ConfigError::MissingRoot),
        Some(root) => match root.get(key) {
            Some(ConfigValue::Text(s)) => Ok(to_lowercase(s.as_str()) == String::from_str("true")),
            _ => Ok(false),
        },
    }
}

/// What a configuration sets: the rules that suppress, the rules that
/// group, and whether diagnostics are wanted.
#[derive(Debug)]
pub struct Settings {
    pub ignorelist: Vec<Item>,
    pub grouplist: Vec<Item>,
    pub debug: bool,
}

impl Settings {
    /// Every rule of both lists is well formed.
    pub open spec fn wf(self) -> bool {
        &&& forall|i: int| 0 <= i < self.ignorelist@.len() ==> (#[trigger] self.ignorelist@[i]).wf()
        &&& forall|i: int| 0 <= i < self.grouplist@.len() ==> (#[trigger] self.grouplist@[i]).wf()
    }
}

/// How `load` answers for a document: the ignore list is read first, then
/// the group list, then the debug flag, and the first failure is the answer.
/// Settings are had exactly where both sections are arrays and every pattern
/// text of every rule is empty or compiles.
pub open spec fn load_outcome(doc: Document, r: Result<Settings, ConfigError>) -> bool {
    match rules_in(doc, "ignorelist"@) {
        Err(e) => r matches Err(err) && err == e,
        Ok(ignore) => {
            if !all_compile(ignore) {
                r matches Err(err) && err == ConfigError::InvalidPattern
            } else {
                match rules_in(doc, "grouplist"@) {
                    Err(e) => r matches Err(err) && err == e,
                    Ok(group) => if !all_compile(group) {
                        r matches Err(err) && err == ConfigError::InvalidPattern
                    } else {
                        r matches Ok(settings) && settings.wf() && rule_views(
                            settings.ignorelist@,
                        ) == ignore && rule_views(settings.grouplist@) == group && flag_in(
                            doc,
                            "debug"@,
                        ) == Ok::<bool, ConfigError>(settings.debug)
                    },
                }
            }
        },
    }
}

/// Reads both rule lists and the debug flag out of a document.
pub fn load(val: &ConfigValue) -> (r: Result<Settings, ConfigError>)
    ensures
        load_outcome(val@, r),
{
    let ignorelist = match parse_toml(val, "ignorelist") {
        Ok(items) => items,
        Err(e) => {
            return Err(e);
        },
    };
    let grouplist = match parse_toml(val, "grouplist") {
        Ok(items) => items,
        Err(e) => {
            return Err(e);
        },
    };
    match parse_bool(val, "debug") {
        Ok(debug) => Ok(Settings { ignorelist, grouplist, debug }),
        Err(e) => Err(e),
    }
}

/// What a program tells its user about a failure.
pub open spec fn message_text(error: ConfigError) -> Seq<char> {
    match error {
        ConfigError::MissingRoot => "Config file malformed."@,
        ConfigError::MissingSection => "Config file malformed3."@,
        ConfigError::NotAList => "Config file malformed."@,
        ConfigError::InvalidPattern => "Config file holds a malformed pattern."@,
    }
}

impl ConfigError {
    /// The line to print for the failure.
    pub fn message(&self) -> (text: String)
        ensures
            text@ == message_text(*self),
    {
        match self {
            ConfigError::MissingRoot => String::from_str("Config file malformed."),
            ConfigError::MissingSection => String::from_str("Config file malformed3."),
            ConfigError::NotAList => String::from_str("Config file malformed."),
            ConfigError::InvalidPattern => String::from_str(
                "Config file holds a malformed pattern.",
            ),
        }
    }

    /// The status with which a program that cannot read its rules ends:
    /// 2 without the `WastedTime` table, 3 without the section, 4 where the
    /// section is no array. A malformed pattern has no status of its own.
    pub fn exit_code(&self) -> (code: Option<u8>)
        ensures
            code == match *self {
                ConfigError::MissingRoot => Some(2u8),
                ConfigError::MissingSection => Some(3u8),
                ConfigError::NotAList => Some(4u8),
                ConfigError::InvalidPattern => None,
            },
    {
        match self {
            ConfigError::MissingRoot => Some(2),
            ConfigError::MissingSection => Some(3),
            ConfigError::NotAList => Some(4),
            ConfigError::InvalidPattern => None,
        }
    }
}

} // verus!
