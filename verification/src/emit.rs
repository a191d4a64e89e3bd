//! The lines in which the tracker reports: a diagnostic line for a reader,
//! and a JSON object for a program.

use crate::observation;
use crate::observation::Activity;
use crate::tracker::Closed;
use crate::tracker::Session;
use vstd::prelude::*;
use vstd::string::StringExecFns;

verus! {

/// The character of one decimal digit.
pub open spec fn digit(d: int) -> char {
    if d == 0 {
        '0'
    } else if d == 1 {
        '1'
    } else if d == 2 {
        '2'
    } else if d == 3 {
        '3'
    } else if d == 4 {
        '4'
    } else if d == 5 {
        '5'
    } else if d == 6 {
        '6'
    } else if d == 7 {
        '7'
    } else if d == 8 {
        '8'
    } else {
        '9'
    }
}

/// A number in decimal digits, without sign or leading zeros.
pub open spec fn decimal(n: nat) -> Seq<char>
    decreases n,
{
    if n < 10 {
        seq![digit(n as int)]
    } else {
        decimal(n / 10).push(digit((n % 10) as int))
    }
}

/// A number in decimal digits, with a minus sign in front where it is
/// negative.
pub open spec fn signed_decimal(n: int) -> Seq<char> {
    if n < 0 {
        seq!['-'] + decimal((-n) as nat)
    } else {
        decimal(n as nat)
    }
}

fn digit_text(d: u64) -> (s: &'static str)
    requires
        d < 10,
    ensures
        s@ == seq![digit(d as int)],
{
    proof {
        reveal_strlit("0");
        reveal_strlit("1");
        reveal_strlit("2");
        reveal_strlit("3");
        reveal_strlit("4");
        reveal_strlit("5");
        reveal_strlit("6");
        reveal_strlit("7");
        reveal_strlit("8");
        reveal_strlit("9");
    }
    if d == 0 {
        "0"
    } else if d == 1 {
        "1"
    } else if d == 2 {
        "2"
    } else if d == 3 {
        "3"
    } else if d == 4 {
        "4"
    } else if d == 5 {
        "5"
    } else if d == 6 {
        "6"
    } else if d == 7 {
        "7"
    } else if d == 8 {
        "8"
    } else {
        "9"
    }
}

/// Writes a number in decimal digits.
pub fn format_unsigned(n: u64) -> (text: String)
    ensures
        text@ == decimal(n as nat),
{
    let mut text = String::from_str(digit_text(n % 10));
    let mut rest: u64 = n / 10;
    while rest > 0
        invariant
            decimal(n as nat) == if rest > 0 {
                decimal(rest as nat) + text@
            } else {
                text@
            },
        decreases rest,
    {
        let d: u64 = rest % 10;
        let ghost before = text@;
        text = String::from_str(digit_text(d)).concat(text.as_str());
        proof {
            // The digit just written is the last one of `rest`.
            if rest >= 10 {
                assert(decimal(rest as nat) + before =~= decimal((rest / 10) as nat) + text@);
            } else {
                assert(decimal(rest as nat) + before =~= text@);
            }
        }
        rest = rest / 10;
    }
    text
}

/// Writes a number in decimal digits, with its sign where it is negative.
pub fn format_signed(n: i64) -> (text: String)
    ensures
        text@ == signed_decimal(n as int),
{
    if n < 0 {
        let magnitude: u64 = (-(n as i128)) as u64;
        proof {
            reveal_strlit("-");
        }
        String::from_str("-").concat(format_unsigned(magnitude).as_str())
    } else {
        format_unsigned(n as u64)
    }
}

/// The JSON string literal that `serde_json` writes for `text`: the text in
/// double quotes, with what JSON cannot hold as it is escaped.
pub uninterp spec fn json_string(text: Seq<char>) -> Seq<char>;

/// Wraps `text` in a `serde_json::Value::String` and writes it out through
/// the value's `Display`, the compact form.
#[verifier::external_body]
fn json_quote(text: &str) -> (quoted: String)
    ensures
        quoted@ == json_string(text@),
{
    serde_json::Value::String(text.to_owned()).to_string()
}

/// The mathematical content of a `Record`.
pub struct Row {
    pub time: int,
    pub timestamp: int,
    pub pid: int,
    pub class: Seq<char>,
    pub path: Seq<char>,
    pub title: Seq<char>,
}

/// One line of the log: an activity with the seconds it has run and the
/// moment the line is about.
#[derive(Debug)]
pub struct Record {
    pub time: u64,
    pub timestamp: i64,
    pub pid: u32,
    pub class: String,
    pub path: String,
    pub title: String,
}

impl View for Record {
    type V = Row;

    open spec fn view(&self) -> Row {
        Row {
            time: self.time as int,
            timestamp: self.timestamp as int,
            pid: self.pid as int,
            class: self.class@,
            path: self.path@,
            title: self.title@,
        }
    }
}

/// The row for an activity that has just started: no time has passed.
pub open spec fn started_row(activity: Activity) -> Row {
    Row {
        time: 0,
        timestamp: activity.timestamp,
        pid: activity.pid as int,
        class: activity.class,
        path: activity.path,
        title: activity.title,
    }
}

/// The row for a session that has ended: the seconds it lasted and the
/// moment it ended.
pub open spec fn ended_row(session: Closed) -> Row {
    Row {
        time: session.duration(),
        timestamp: session.ended_at,
        pid: session.activity.pid as int,
        class: session.activity.class,
        path: session.activity.path,
        title: session.activity.title,
    }
}

/// The diagnostic line: a `#` and the mark, a blank, and the six fields of
/// the row with a bar between them.
pub open spec fn diagnostic_text(mark: Seq<char>, row: Row) -> Seq<char> {
    "#"@ + mark + " "@ + decimal(row.time as nat) + "|"@ + signed_decimal(row.timestamp) + "|"@
        + decimal(row.pid as nat) + "|"@ + row.class + "|"@ + row.path + "|"@ + row.title
}

/// The JSON object of a row, compact, its keys in alphabetical order.
pub open spec fn json_text(row: Row) -> Seq<char> {
    "{\"class\":"@ + json_string(row.class) + ",\"path\":"@ + json_string(row.path)
        + ",\"pid\":"@ + decimal(row.pid as nat) + ",\"time\":"@ + decimal(row.time as nat)
        + ",\"timestamp\":"@ + signed_decimal(row.timestamp) + ",\"title\":"@ + json_string(
        row.title,
    ) + "}"@
}

/// The lines to print for a row, in their order: the diagnostic line where
/// diagnostics are wanted, then the JSON object unless the mark is `S`, the
/// mark of a start.
pub open spec fn lines_for(mark: Seq<char>, row: Row, is_debug: bool) -> Seq<Seq<char>> {
    let diagnostic = if is_debug {
        seq![diagnostic_text(mark, row)]
    } else {
        Seq::empty()
    };
    if mark == "S"@ {
        diagnostic
    } else {
        diagnostic.push(json_text(row))
    }
}

/// The texts of a sequence of lines.
pub open spec fn texts(lines: Seq<String>) -> Seq<Seq<char>> {
    Seq::new(lines.len(), |i: int| lines[i]@)
}

impl Record {
    /// The record of an activity that has just started.
    pub fn started(activity: &observation::Result) -> (record: Record)
        ensures
            record@ == started_row(activity@),
    {
        Record {
            time: 0,
            timestamp: activity.timestamp(),
            pid: activity.pid(),
            class: String::from_str(activity.class()),
            path: String::from_str(activity.path()),
            title: String::from_str(activity.title()),
        }
    }

    /// The record of a session that has ended.
    pub fn ended(session: &Session) -> (record: Record)
        ensures
            record@ == ended_row(session@),
    {
        let activity = session.activity();
        Record {
            time: session.duration_seconds(),
            timestamp: session.ended_at(),
            pid: activity.pid(),
            class: String::from_str(activity.class()),
            path: String::from_str(activity.path()),
            title: String::from_str(activity.title()),
        }
    }

    /// The diagnostic line of the record under `mark`.
    pub fn diagnostic(&self, mark: &str) -> (line: String)
        ensures
            line@ == diagnostic_text(mark@, self@),
    {
        let mut line = String::from_str("#");
        line.append(mark);
        line.append(" ");
        line.append(format_unsigned(self.time).as_str());
        line.append("|");
        line.append(format_signed(self.timestamp).as_str());
        line.append("|");
        line.append(format_unsigned(self.pid as u64).as_str());
        line.append("|");
        line.append(self.class.as_str());
        line.append("|");
        line.append(self.path.as_str());
        line.append("|");
        line.append(self.title.as_str());
        line
    }

    /// The JSON object of the record.
    pub fn json(&self) -> (line: String)
        ensures
            line@ == json_text(self@),
    {
        let mut line = String::from_str("{\"class\":");
        line.append(json_quote(self.class.as_str()).as_str());
        line.append(",\"path\":");
        line.append(json_quote(self.path.as_str()).as_str());
        line.append(",\"pid\":");
        line.append(format_unsigned(self.pid as u64).as_str());
        line.append(",\"time\":");
        line.append(format_unsigned(self.time).as_str());
        line.append(",\"timestamp\":");
        line.append(format_signed(self.timestamp).as_str());
        line.append(",\"title\":");
        line.append(json_quote(self.title.as_str()).as_str());
        line.append("}");
        line
    }
}

/// The lines to print for a record under the mark `s`: `S` for a start, `E`
/// for an end.
pub fn out(record: &Record, s: &str, is_debug: bool) -> (lines: Vec<String>)
    ensures
        texts(lines@) == lines_for(s@, record@, is_debug),
{
    let mut lines: Vec<String> = Vec::new();
    if is_debug {
        lines.push(record.diagnostic(s));
    }
    if String::from_str(s) == String::from_str("S") {
        return lines;
    }
    lines.push(record.json());
    lines
}

} // verus!
