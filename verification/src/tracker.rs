//! The session tracker: which activity is running and since when, and the
//! sessions that end as the foreground process changes.
//!
//! A session belongs to a process. A look that finds the running process
//! again changes nothing, however the window's title reads by then; a look
//! that finds another process ends the running session at that moment and
//! starts the next one.

use crate::classify::classified;
use crate::classify::classify;
use crate::classify::Classification;
use crate::classify::Outcome;
use crate::observation;
use crate::observation::Activity;
use crate::rule::Item;
use vstd::prelude::*;

verus! {

/// The mathematical content of a `Session`: an activity and the interval
/// during which it ran.
pub struct Closed {
    pub activity: Activity,
    pub started_at: int,
    pub ended_at: int,
}

impl Closed {
    /// The seconds that the session lasted.
    pub open spec fn duration(self) -> int {
        self.ended_at - self.started_at
    }
}

/// A session that has ended. It never ends before it started.
#[derive(Debug)]
pub struct Session {
    activity: observation::Result,
    started_at: i64,
    ended_at: i64,
}

impl View for Session {
    type V = Closed;

    closed spec fn view(&self) -> Closed {
        Closed {
            activity: self.activity@,
            started_at: self.started_at as int,
            ended_at: self.ended_at as int,
        }
    }
}

impl Session {
    /// The end is no earlier than the start.
    #[verifier::type_invariant]
    pub closed spec fn wf(self) -> bool {
        self.started_at <= self.ended_at
    }

    /// The activity that ran: as it was classified when the session
    /// started.
    pub fn activity(&self) -> (a: &observation::Result)
        ensures
            a@ == self@.activity,
    {
        &self.activity
    }

    /// The moment the session started.
    pub fn started_at(&self) -> (t: i64)
        ensures
            t == self@.started_at,
    {
        self.started_at
    }

    /// The moment the session ended: no earlier than its start.
    pub fn ended_at(&self) -> (t: i64)
        ensures
            t == self@.ended_at,
            self@.started_at <= t,
    {
        proof {
            use_type_invariant(self);
        }
        self.ended_at
    }

    /// The seconds that the session lasted: never negative, and exact
    /// whatever the two moments are.
    pub fn duration_seconds(&self) -> (d: u64)
        ensures
            d == self@.duration(),
    {
        proof {
            use_type_invariant(self);
        }
        (self.ended_at as i128 - self.started_at as i128) as u64
    }
}

/// The mathematical content of a `SessionTracker`.
pub enum Tracking {
    /// Nothing is tracked.
    Idle,
    /// `activity` has been in the foreground since `started_at`.
    Active { activity: Activity, started_at: int },
}

impl Tracking {
    /// Only a real process is tracked.
    pub open spec fn wf(self) -> bool {
        self matches Tracking::Active { activity, .. } ==> activity.pid != 0
    }

    /// The process in the foreground; zero while idle.
    pub open spec fn pid(self) -> nat {
        match self {
            Tracking::Idle => 0,
            Tracking::Active { activity, .. } => activity.pid,
        }
    }

    /// Whether `now` is no earlier than the start of what is running.
    pub open spec fn started_by(self, now: int) -> bool {
        self matches Tracking::Active { started_at, .. } ==> started_at <= now
    }

    /// The moment `now`, or the start of what is running where `now` is
    /// earlier than that.
    pub open spec fn no_earlier(self, now: int) -> int {
        match self {
            Tracking::Active { started_at, .. } if started_at > now => started_at,
            _ => now,
        }
    }

    /// Whether the moment of `next` is no earlier than the start of what is
    /// running. A suppressed look has no moment that counts.
    pub open spec fn in_order(self, next: Outcome) -> bool {
        next matches Outcome::Effective(seen) ==> self.started_by(seen.timestamp)
    }

    /// The session that ends where what is running is closed at `now`.
    pub open spec fn closing(self, now: int) -> Option<Closed> {
        match self {
            Tracking::Idle => None,
            Tracking::Active { activity, started_at } => Some(
                Closed { activity, started_at, ended_at: now },
            ),
        }
    }

    /// The state in which `seen` has just come to the foreground: idle where
    /// it is no process.
    pub open spec fn opening(seen: Activity) -> Tracking {
        if seen.pid == 0 {
            Tracking::Idle
        } else {
            Tracking::Active { activity: seen, started_at: seen.timestamp }
        }
    }
}

/// What one look does to the tracker.
pub struct Step {
    /// The state after the look.
    pub state: Tracking,
    /// The session that the look ended.
    pub closed: Option<Closed>,
    /// Whether the look started a session.
    pub started: bool,
}

/// The transition rule. A suppressed look changes nothing, and neither does
/// one that finds the process that is running (or none, while idle). Any
/// other look ends what is running at the moment of the look, and starts
/// the activity it found unless that is no process.
pub open spec fn step(state: Tracking, next: Outcome) -> Step {
    match next {
        Outcome::Suppressed => Step { state, closed: None, started: false },
        Outcome::Effective(seen) => if seen.pid == state.pid() {
            Step { state, closed: None, started: false }
        } else {
            Step {
                state: Tracking::opening(seen),
                closed: state.closing(seen.timestamp),
                started: seen.pid != 0,
            }
        },
    }
}

/// What the tracker reports of one look.
#[derive(Debug)]
pub struct Change {
    /// The session that the look ended.
    pub closed: Option<Session>,
    /// Whether the look started a session.
    pub started: bool,
}

/// The view of a session that may be there.
pub open spec fn closed_view(session: Option<Session>) -> Option<Closed> {
    match session {
        Some(s) => Some(s@),
        None => None,
    }
}

#[derive(Debug)]
struct Running {
    activity: observation::Result,
    started_at: i64,
}

/// The state machine of the tracking loop.
#[derive(Debug)]
pub struct SessionTracker {
    running: Option<Running>,
}

impl View for SessionTracker {
    type V = Tracking;

    closed spec fn view(&self) -> Tracking {
        match self.running {
            None => Tracking::Idle,
            Some(r) => Tracking::Active { activity: r.activity@, started_at: r.started_at as int },
        }
    }
}

impl SessionTracker {
    /// What is running belongs to a real process.
    #[verifier::type_invariant]
    closed spec fn inv(self) -> bool {
        self.running matches Some(r) ==> r.activity@.pid != 0
    }

    /// A tracker that tracks nothing yet.
    pub fn new() -> (tracker: SessionTracker)
        ensures
            tracker@ == Tracking::Idle,
    {
        SessionTracker { running: None }
    }

    /// The process in the foreground; zero while idle.
    pub fn pid(&self) -> (pid: u32)
        ensures
            pid == self@.pid(),
            self@.wf(),
    {
        proof {
            use_type_invariant(self);
        }
        match &self.running {
            None => 0,
            Some(r) => r.activity.pid(),
        }
    }

    /// The activity that is running, if any.
    pub fn current(&self) -> (found: Option<&observation::Result>)
        ensures
            match found {
                Some(a) => self@ matches Tracking::Active { activity, .. } && activity == a@,
                None => self@ is Idle,
            },
    {
        match &self.running {
            None => None,
            Some(r) => Some(&r.activity),
        }
    }

    /// Since when the running activity runs, if any does.
    pub fn started_at(&self) -> (found: Option<i64>)
        ensures
            match found {
                Some(t) => self@ matches Tracking::Active { started_at, .. } && started_at == t,
                None => self@ is Idle,
            },
    {
        match &self.running {
            None => None,
            Some(r) => Some(r.started_at),
        }
    }

    /// Whether `now` is no earlier than the start of what is running: the
    /// test to make before `close`, and before `observe` and `tick` with the
    /// moment of the look.
    pub fn started_by(&self, now: i64) -> (b: bool)
        ensures
            b == self@.started_by(now as int),
    {
        match &self.running {
            None => true,
            Some(r) => r.started_at <= now,
        }
    }

    /// Ends what is running, at `now`, and leaves the tracker idle: what a
    /// loop does as it shuts down.
    pub fn close(&mut self, now: i64) -> (closed: Option<Session>)
        requires
            old(self)@.started_by(now as int),
        ensures
            final(self)@ == Tracking::Idle,
            closed_view(closed) == old(self)@.closing(now as int),
    {
        let mut previous = SessionTracker { running: None };
        core::mem::swap(self, &mut previous);
        match previous.running {
            None => None,
            Some(r) => Some(
                Session { activity: r.activity, started_at: r.started_at, ended_at: now },
            ),
        }
    }

    /// Ends what is running and leaves the tracker idle, whatever the clock
    /// says: at `now`, or at the start of what is running where `now` is
    /// earlier than that, so that no session ends before it started.
    pub fn shutdown(&mut self, now: i64) -> (closed: Option<Session>)
        ensures
            final(self)@ == Tracking::Idle,
            closed_view(closed) == old(self)@.closing(old(self)@.no_earlier(now as int)),
    {
        let end = match self.started_at() {
            Some(started) => if started > now {
                started
            } else {
                now
            },
            None => now,
        };
        self.close(end)
    }

    /// Takes one classified look and makes the transition it calls for.
    pub fn observe(&mut self, next: Classification) -> (change: Change)
        requires
            old(self)@.in_order(next@),
        ensures
            old(self)@.wf(),
            final(self)@.wf(),
            final(self)@ == step(old(self)@, next@).state,
            closed_view(change.closed) == step(old(self)@, next@).closed,
            change.started == step(old(self)@, next@).started,
    {
        proof {
            use_type_invariant(&*self);
        }
        match next {
            Classification::Suppressed => Change { closed: None, started: false },
            Classification::Effective(seen) => {
                if seen.pid() == self.pid() {
                    Change { closed: None, started: false }
                } else {
                    let now = seen.timestamp();
                    let closed = self.close(now);
                    let started = !seen.is_null();
                    if started {
                        self.running = Some(Running { activity: seen, started_at: now });
                    }
                    Change { closed, started }
                }
            },
        }
    }

    /// One tick of the loop: classifies what was seen and takes it.
    pub fn tick(
        &mut self,
        seen: observation::Result,
        ignorelist: &Vec<Item>,
        grouplist: &Vec<Item>,
    ) -> (change: Change)
        requires
            old(self)@.started_by(seen@.timestamp),
        ensures
            final(self)@.wf(),
            final(self)@ == step(old(self)@, classified(ignorelist@, grouplist@, seen@)).state,
            closed_view(change.closed) == step(
                old(self)@,
                classified(ignorelist@, grouplist@, seen@),
            ).closed,
            change.started == step(old(self)@, classified(ignorelist@, grouplist@, seen@)).started,
    {
        let next = classify(seen, ignorelist, grouplist);
        self.observe(next)
    }

    /// One tick of a loop that cannot vouch for its clock: as `tick`, but a
    /// look from before the start of what is running is passed over, and
    /// the tracker stays as it was.
    pub fn try_tick(
        &mut self,
        seen: observation::Result,
        ignorelist: &Vec<Item>,
        grouplist: &Vec<Item>,
    ) -> (change: Option<Change>)
        ensures
            final(self)@.wf(),
            match change {
                Some(change) => {
                    let taken = step(old(self)@, classified(ignorelist@, grouplist@, seen@));
                    &&& old(self)@.started_by(seen@.timestamp)
                    &&& final(self)@ == taken.state
                    &&& closed_view(change.closed) == taken.closed
                    &&& change.started == taken.started
                },
                None => !old(self)@.started_by(seen@.timestamp) && final(self)@ == old(self)@,
            },
    {
        if self.started_by(seen.timestamp()) {
            Some(self.tick(seen, ignorelist, grouplist))
        } else {
            proof {
                use_type_invariant(&*self);
            }
            None
        }
    }
}

/// Whether a loop that may take `max` looks has taken them all after
/// `count`. A `max` of zero sets no bound.
pub fn limit_reached(count: u64, max: u64) -> (b: bool)
    ensures
        b == (max > 0 && count >= max),
{
    max > 0 && count >= max
}

} // verus!
