//! What a look at the foreground window gives: the window's title and class,
//! the program that owns it, and the moment of the look.

use rand::Rng;
use vstd::prelude::*;
use vstd::string::StringExecFns;

verus! {

/// The mathematical content of a `Result`.
pub struct Activity {
    /// Seconds since the epoch at which the window was looked at.
    pub timestamp: int,
    /// Window title or, after grouping, the name of the group.
    pub title: Seq<char>,
    /// Window class; empty after grouping.
    pub class: Seq<char>,
    /// Path of the executable that owns the window.
    pub path: Seq<char>,
    /// Process id; zero stands for "nothing to track".
    pub pid: nat,
}

impl Activity {
    /// Zero is no process: such an activity stands for "nothing to track".
    pub open spec fn is_null(self) -> bool {
        self.pid == 0
    }

    /// The activity filed under the group `name`: the name stands for the
    /// title and the class is cleared, so that windows of many kinds merge
    /// under one label.
    pub open spec fn grouped(self, name: Seq<char>) -> Activity {
        Activity { title: name, class: Seq::empty(), ..self }
    }
}

/// The result of one look at the foreground window, raw or classified.
#[derive(Debug)]
pub struct Result {
    timestamp: i64,
    title: String,
    class: String,
    pid: u32,
    path: String,
}

/// Reads the clock through `time::now` and `Tm::to_timespec`, as seconds
/// since the epoch. No two readings need agree, so nothing is claimed of the
/// value.
#[verifier::external_body]
fn now_seconds() -> i64 {
    time::now().to_timespec().sec
}

/// Draws from `rand::thread_rng()` with `gen_range(0..bound)`, which
/// returns a value of that range and panics where the range is empty.
#[verifier::external_body]
fn random_below(bound: u32) -> (n: u32)
    requires
        bound > 0,
    ensures
        n < bound,
{
    rand::thread_rng().gen_range(0..bound)
}

impl View for Result {
    type V = Activity;

    closed spec fn view(&self) -> Activity {
        Activity {
            timestamp: self.timestamp as int,
            title: self.title@,
            class: self.class@,
            path: self.path@,
            pid: self.pid as nat,
        }
    }
}

impl Result {
    /// A look taken at `timestamp`.
    pub fn at(timestamp: i64, title: String, class: String, path: String, pid: u32) -> (r:
        Result)
        ensures
            r@ == (Activity {
                timestamp: timestamp as int,
                title: title@,
                class: class@,
                path: path@,
                pid: pid as nat,
            }),
    {
        Result { timestamp, title, class, pid, path }
    }

    /// A look taken now: the clock is read once.
    pub fn new(title: String, class: String, path: String, pid: u32) -> (r: Result)
        ensures
            r@ == (Activity {
                timestamp: r@.timestamp,
                title: title@,
                class: class@,
                path: path@,
                pid: pid as nat,
            }),
    {
        Result::at(now_seconds(), title, class, path, pid)
    }

    /// The look that found nothing to track, taken at `timestamp`.
    pub fn empty_at(timestamp: i64) -> (r: Result)
        ensures
            r@ == (Activity {
                timestamp: timestamp as int,
                title: Seq::empty(),
                class: Seq::empty(),
                path: Seq::empty(),
                pid: 0,
            }),
    {
        Result::at(timestamp, String::new(), String::new(), String::new(), 0)
    }

    /// The look that found nothing to track, taken now.
    pub fn empty() -> (r: Result)
        ensures
            r@ == (Activity {
                timestamp: r@.timestamp,
                title: Seq::empty(),
                class: Seq::empty(),
                path: Seq::empty(),
                pid: 0,
            }),
    {
        Result::empty_at(now_seconds())
    }

    /// A stand-in for a desktop that cannot be asked: a fixed window owned
    /// by one of ten processes drawn at random, zero among them.
    pub fn simulated() -> (r: Result)
        ensures
            r@.title == "Title"@,
            r@.class == "Class"@,
            r@.path == "Path"@,
            r@.pid < 10,
    {
        let pid = random_below(10);
        Result::new(
            String::from_str("Title"),
            String::from_str("Class"),
            String::from_str("Path"),
            pid,
        )
    }

    /// Files the look under the group `name`.
    pub fn grouped(self, name: String) -> (r: Result)
        ensures
            r@ == self@.grouped(name@),
    {
        Result {
            timestamp: self.timestamp,
            title: name,
            class: String::new(),
            pid: self.pid,
            path: self.path,
        }
    }

    /// The moment of the look, in seconds since the epoch.
    pub fn timestamp(&self) -> (t: i64)
        ensures
            t == self@.timestamp,
    {
        self.timestamp
    }

    /// The window's title or, after grouping, the name of the group.
    pub fn title(&self) -> (s: &str)
        ensures
            s@ == self@.title,
    {
        self.title.as_str()
    }

    /// The window's class; empty after grouping.
    pub fn class(&self) -> (s: &str)
        ensures
            s@ == self@.class,
    {
        self.class.as_str()
    }

    /// The path of the executable that owns the window.
    pub fn path(&self) -> (s: &str)
        ensures
            s@ == self@.path,
    {
        self.path.as_str()
    }

    /// The process that owns the window; zero where there is none.
    pub fn pid(&self) -> (p: u32)
        ensures
            p == self@.pid,
    {
        self.pid
    }

    /// Whether this look found nothing to track.
    pub fn is_null(&self) -> (b: bool)
        ensures
            b == self@.is_null(),
    {
        self.pid == 0
    }
}

} // verus!
