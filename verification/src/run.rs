//! Whole runs of the tracker: what a sequence of looks leaves behind, and
//! the laws that the transition rule obeys.

use crate::classify::classified;
use crate::classify::lemma_same_group_same_name;
use crate::classify::Outcome;
use crate::observation::Activity;
use crate::rule::any_match;
use crate::rule::is_first_match;
use crate::rule::Item;
use crate::tracker::step;
use crate::tracker::Closed;
use crate::tracker::Step;
use crate::tracker::Tracking;
use vstd::prelude::*;

verus! {

/// What a run leaves behind: the state it ends in and the sessions it
/// ended, in their order.
pub struct Trace {
    pub state: Tracking,
    pub closed: Seq<Closed>,
}

/// The trace of taking `ticks` one after the other, starting in `state`.
pub open spec fn run(state: Tracking, ticks: Seq<Outcome>) -> Trace
    decreases ticks.len(),
{
    if ticks.len() == 0 {
        Trace { state, closed: Seq::empty() }
    } else {
        let before = run(state, ticks.drop_last());
        let last = step(before.state, ticks.last());
        Trace {
            state: last.state,
            closed: match last.closed {
                Some(session) => before.closed.push(session),
                None => before.closed,
            },
        }
    }
}

/// The seconds that the sessions lasted, taken together.
pub open spec fn total_duration(sessions: Seq<Closed>) -> int
    decreases sessions.len(),
{
    if sessions.len() == 0 {
        0
    } else {
        total_duration(sessions.drop_last()) + sessions.last().duration()
    }
}

/// The process that a look is attributed to; zero where it is suppressed.
pub open spec fn process(next: Outcome) -> nat {
    match next {
        Outcome::Suppressed => 0,
        Outcome::Effective(seen) => seen.pid,
    }
}

/// The moment of a look that is not suppressed.
pub open spec fn moment(next: Outcome) -> int {
    match next {
        Outcome::Suppressed => 0,
        Outcome::Effective(seen) => seen.timestamp,
    }
}

/// No look is suppressed and each finds a real process.
pub open spec fn all_effective(ticks: Seq<Outcome>) -> bool {
    forall|i: int|
        0 <= i < ticks.len() ==> (#[trigger] ticks[i]) is Effective && process(ticks[i]) != 0
}

/// Each look finds another process than the look before it.
pub open spec fn changes_each_tick(ticks: Seq<Outcome>) -> bool {
    forall|i: int| 0 < i < ticks.len() ==> process(#[trigger] ticks[i]) != process(ticks[i - 1])
}

/// No two looks find the same process.
pub open spec fn distinct_processes(ticks: Seq<Outcome>) -> bool {
    forall|i: int, j: int|
        0 <= i < j < ticks.len() ==> process(#[trigger] ticks[i]) != process(#[trigger] ticks[j])
}

/// The transition rule keeps the state well formed.
pub proof fn lemma_step_keeps_wf(state: Tracking, next: Outcome)
    requires
        state.wf(),
    ensures
        step(state, next).state.wf(),
{
}

/// A session that ends has not lasted a negative time, as long as the look
/// that ends it is no earlier than its start.
pub proof fn lemma_duration_not_negative(state: Tracking, next: Outcome)
    requires
        state.in_order(next),
    ensures
        step(state, next).closed matches Some(session) ==> session.duration() >= 0,
{
}

/// A session ends only where one was running, and it is the one that was
/// running: with its activity and its start, ended at the moment of the
/// look.
pub proof fn lemma_closed_is_what_ran(state: Tracking, next: Outcome)
    ensures
        step(state, next).closed matches Some(session) ==> state == (Tracking::Active {
            activity: session.activity,
            started_at: session.started_at,
        }) && session.ended_at == moment(next) && process(next) != state.pid(),
{
}

/// A look that an ignore rule matches is suppressed, and leaves the tracker
/// as it was, whatever its state: nothing ends and nothing starts.
pub proof fn lemma_ignored_look_changes_nothing(
    state: Tracking,
    ignorelist: Seq<Item>,
    grouplist: Seq<Item>,
    seen: Activity,
    at: int,
)
    requires
        0 <= at < ignorelist.len(),
        ignorelist[at].accepts(seen),
    ensures
        classified(ignorelist, grouplist, seen) == Outcome::Suppressed,
        step(state, classified(ignorelist, grouplist, seen)) == (Step {
            state,
            closed: None,
            started: false,
        }),
{
}

/// A look that finds the process that is running ends no session and
/// leaves the tracker as it was, however often it is repeated.
pub proof fn lemma_same_process_changes_nothing(state: Tracking, seen: Activity)
    requires
        seen.pid == state.pid(),
    ensures
        step(state, Outcome::Effective(seen)) == (Step { state, closed: None, started: false }),
        step(step(state, Outcome::Effective(seen)).state, Outcome::Effective(seen)) == (Step {
            state,
            closed: None,
            started: false,
        }),
{
}

/// Two looks that the same group rule matches first, taken one after the
/// other. Both are filed under the rule's name. Where they find one process
/// they are one session: the second look ends nothing and changes nothing.
/// Where they find two, the first session ends at the second look, and the
/// next one runs under the same name for the other process.
pub proof fn lemma_grouped_looks(
    state: Tracking,
    ignorelist: Seq<Item>,
    grouplist: Seq<Item>,
    one: Activity,
    other: Activity,
    at: int,
)
    requires
        !any_match(ignorelist, one),
        !any_match(ignorelist, other),
        is_first_match(grouplist, one, at),
        is_first_match(grouplist, other, at),
        one.pid != 0,
        other.pid != 0,
        one.pid != state.pid(),
    ensures
        ({
            let name = grouplist[at]@.name;
            let first = step(state, classified(ignorelist, grouplist, one));
            let second = step(first.state, classified(ignorelist, grouplist, other));
            &&& first.state == Tracking::Active {
                activity: one.grouped(name),
                started_at: one.timestamp,
            }
            &&& one.pid == other.pid ==> second == Step {
                state: first.state,
                closed: None,
                started: false,
            }
            &&& one.pid != other.pid ==> second == Step {
                state: Tracking::Active {
                    activity: other.grouped(name),
                    started_at: other.timestamp,
                },
                closed: Some(
                    Closed {
                        activity: one.grouped(name),
                        started_at: one.timestamp,
                        ended_at: other.timestamp,
                    },
                ),
                started: true,
            }
            &&& one.grouped(name).title == other.grouped(name).title
        }),
{
    lemma_same_group_same_name(ignorelist, grouplist, one, other, at);
}

/// A run can be taken in two parts: the second part starts where the first
/// ended, and the sessions of both follow one another.
pub proof fn lemma_run_in_parts(state: Tracking, front: Seq<Outcome>, back: Seq<Outcome>)
    ensures
        run(state, front + back).state == run(run(state, front).state, back).state,
        run(state, front + back).closed == run(state, front).closed + run(
            run(state, front).state,
            back,
        ).closed,
    decreases back.len(),
{
    let middle = run(state, front).state;
    if back.len() == 0 {
        assert(front + back =~= front);
    } else {
        let whole = front + back;
        assert(whole.drop_last() =~= front + back.drop_last());
        assert(whole.last() == back.last());
        lemma_run_in_parts(state, front, back.drop_last());
        let before = run(middle, back.drop_last());
        let last = step(before.state, back.last());
        match last.closed {
            Some(session) => {
                assert(run(state, front).closed + before.closed.push(session) =~= (run(
                    state,
                    front,
                ).closed + before.closed).push(session));
            },
            None => {},
        }
    }
}

/// A suppressed look leaves no trace: a run with one taken out, wherever it
/// stood, ends in the same state and has ended the same sessions.
pub proof fn lemma_suppressed_look_leaves_no_trace(
    state: Tracking,
    front: Seq<Outcome>,
    back: Seq<Outcome>,
)
    ensures
        run(state, front.push(Outcome::Suppressed) + back) == run(state, front + back),
{
    let with = front.push(Outcome::Suppressed);
    assert(with.drop_last() =~= front);
    lemma_run_in_parts(state, with, back);
    lemma_run_in_parts(state, front, back);
}

/// A run from idle in which no look is suppressed and each finds another
/// real process than the one before. Every look but the first ends one
/// session, so that one session fewer has ended than looks were taken; the
/// last activity is still running; and the sessions that ended lasted, taken
/// together, from the first look to the last.
pub proof fn lemma_run_of_changing_processes(ticks: Seq<Outcome>)
    requires
        ticks.len() >= 1,
        all_effective(ticks),
        changes_each_tick(ticks),
    ensures
        run(Tracking::Idle, ticks).closed.len() == ticks.len() - 1,
        run(Tracking::Idle, ticks).state == (Tracking::Active {
            activity: ticks.last()->Effective_0,
            started_at: moment(ticks.last()),
        }),
        total_duration(run(Tracking::Idle, ticks).closed) == moment(ticks.last()) - moment(
            ticks[0],
        ),
    decreases ticks.len(),
{
    let front = ticks.drop_last();
    if ticks.len() == 1 {
        // The one look starts the first session and ends none.
        assert(run(Tracking::Idle, front).state == Tracking::Idle);
        assert(ticks[0] is Effective && process(ticks[0]) != 0);
    } else {
        // What holds of the looks holds of all but the last.
        assert forall|i: int| 0 <= i < front.len() implies (#[trigger] front[i]) is Effective
            && process(front[i]) != 0 by {
            assert(front[i] == ticks[i]);
        }
        assert forall|i: int| 0 < i < front.len() implies process(#[trigger] front[i]) != process(
            front[i - 1],
        ) by {
            assert(front[i] == ticks[i]);
            assert(front[i - 1] == ticks[i - 1]);
        }
        lemma_run_of_changing_processes(front);
        // The last look finds another process than the one running, so it
        // ends that session: the one that started at the look before.
        let before = run(Tracking::Idle, front);
        let last = ticks[ticks.len() - 1];
        assert(front.last() == ticks[ticks.len() - 2]);
        assert(last is Effective && process(last) != process(ticks[ticks.len() - 2]));
        let session = step(before.state, last).closed->Some_0;
        let after = before.closed.push(session);
        assert(after.drop_last() =~= before.closed);
        assert(after.last() == session);
    }
}

/// The law of `lemma_run_of_changing_processes` for a run in which no two
/// looks find the same process: of N looks, N - 1 end a session.
pub proof fn lemma_run_of_distinct_processes(ticks: Seq<Outcome>)
    requires
        ticks.len() >= 1,
        all_effective(ticks),
        distinct_processes(ticks),
    ensures
        run(Tracking::Idle, ticks).closed.len() == ticks.len() - 1,
        run(Tracking::Idle, ticks).state == (Tracking::Active {
            activity: ticks.last()->Effective_0,
            started_at: moment(ticks.last()),
        }),
        total_duration(run(Tracking::Idle, ticks).closed) == moment(ticks.last()) - moment(
            ticks[0],
        ),
{
    assert forall|i: int| 0 < i < ticks.len() implies process(#[trigger] ticks[i]) != process(
        ticks[i - 1],
    ) by {
        assert(process(ticks[i - 1]) != process(ticks[i]));
    }
    lemma_run_of_changing_processes(ticks);
}

/// Such a run, shut down at `end`: the last session ends then, and all the
/// sessions together lasted from the first look to the shutdown.
pub proof fn lemma_run_until_shutdown(ticks: Seq<Outcome>, end: int)
    requires
        ticks.len() >= 1,
        all_effective(ticks),
        changes_each_tick(ticks),
    ensures
        run(Tracking::Idle, ticks).state.closing(end) matches Some(last) && last.activity
            == ticks.last()->Effective_0 && total_duration(
            run(Tracking::Idle, ticks).closed.push(last),
        ) == end - moment(ticks[0]),
{
    lemma_run_of_changing_processes(ticks);
    let trace = run(Tracking::Idle, ticks);
    let last = trace.state.closing(end)->Some_0;
    let all = trace.closed.push(last);
    assert(all.drop_last() =~= trace.closed);
    assert(all.last() == last);
}

} // verus!
