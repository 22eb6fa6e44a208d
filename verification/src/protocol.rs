//! The cancellation-and-join protocol of a periodic task.
//!
//! A spawned task is a loop on a background execution context: read the
//! shared cancellation flag, and either invoke the callable and sleep
//! for one period, or stop for good.  The handle's cancel operation
//! stores `true` into the flag, wakes the sleeping context, and joins
//! it.  The flag is read with a relaxed load, so a single check that was
//! already in flight may still see `false` after the store; the wake
//! signal guarantees that no later check does.
//!
//! This module holds the verified decision the loop makes on every
//! check, an executable state machine of one task's lifecycle, and
//! proofs of what every allowed interleaving of checks, cancellation
//! and join guarantees: the flag never resets, a stopped loop never
//! invokes again, at most one invocation follows the store of the flag,
//! and a join completes only once the loop has terminated.

use vstd::prelude::*;

verus! {

/// Which way the background loop goes after reading the cancellation
/// flag at the top of an iteration: invoke the callable and then sleep
/// for one period, or stop for good.
#[derive(Clone, Copy, PartialEq, Eq, Structural, Debug)]
pub enum LoopDirective {
    /// Invoke the callable once, then sleep interruptibly for one
    /// period.
    Invoke,
    /// Terminate the loop; the callable is never invoked again.
    Stop,
}

/// The decision the background context makes at the top of every
/// iteration of the invocation loop: a flag that read `true` stops the
/// loop, anything else means one more invocation followed by one period
/// of interruptible sleep.
pub fn loop_decision(cancel_requested: bool) -> (d: LoopDirective)
    ensures
        d == (if cancel_requested {
            LoopDirective::Stop
        } else {
            LoopDirective::Invoke
        }),
{
    if cancel_requested {
        LoopDirective::Stop
    } else {
        LoopDirective::Invoke
    }
}

/// One spawned task, as the protocol sees it: the shared cancellation
/// flag as stored by the handle, whether the background loop is still
/// running, how many times the callable has been invoked, whether the
/// single stale read that the relaxed load permits has already
/// happened, and whether the handle has joined the background context.
#[derive(Clone, Copy, PartialEq, Eq, Structural, Debug)]
pub struct TaskState {
    /// The shared cancellation flag: `true` once the handle has stored
    /// it.  It never resets.
    pub cancel_requested: bool,

    /// Whether the background loop is still in its running state.
    pub running: bool,

    /// How many times the callable has been invoked so far.
    pub invocations: u64,

    /// Whether a check has already read `false` from the flag after the
    /// flag was stored.  The relaxed load permits that at most once: the
    /// wake signal makes the store visible to every later check.
    pub stale_read_spent: bool,

    /// Whether the handle has joined the terminated background context.
    pub joined: bool,
}

/// One event in the life of a spawned task.  `Observe(b)` is the
/// background loop reading `b` from the cancellation flag at the top of
/// an iteration, and acting on it; `Cancel` is the handle storing the
/// flag and sending the wake signal; `Join` is the handle's join
/// completing.
pub enum TaskEvent {
    /// The loop reads the given value from the flag and either invokes
    /// the callable or stops.
    Observe(bool),
    /// The handle stores `true` into the flag and wakes the sleeping
    /// context.
    Cancel,
    /// The handle's blocking join completes.
    Join,
}

/// The state of a task the moment it was spawned: flag clear, loop
/// running, nothing invoked yet, no stale read spent, not joined.
pub open spec fn initial(s: TaskState) -> bool {
    &&& !s.cancel_requested
    &&& s.running
    &&& s.invocations == 0
    &&& !s.stale_read_spent
    &&& !s.joined
}

/// Which events can happen in a given state.  A check happens only
/// while the loop runs; it can read `true` only if the flag is set, and
/// it can read a stale `false` despite a set flag only once; a check
/// that will invoke needs room in the counter.  The handle is consumed
/// by cancel, so the flag is stored at most once.  A join completes
/// only after cancel, and only once the loop has terminated.
pub open spec fn event_allowed(s: TaskState, e: TaskEvent) -> bool {
    match e {
        TaskEvent::Observe(observed) => {
            &&& s.running
            &&& (observed ==> s.cancel_requested)
            &&& (s.cancel_requested && !observed ==> !s.stale_read_spent)
            &&& (!observed ==> s.invocations < u64::MAX)
        },
        TaskEvent::Cancel => !s.cancel_requested,
        TaskEvent::Join => s.cancel_requested && !s.running && !s.joined,
    }
}

/// What each event does to the state.  A check that read `true` stops
/// the loop; one that read `false` invokes the callable once and, if
/// the flag was already set, spends the one permitted stale read.
/// Cancel stores the flag; join records that the handle has joined.
pub open spec fn step(s: TaskState, e: TaskEvent) -> TaskState {
    match e {
        TaskEvent::Observe(observed) => {
            if observed {
                TaskState { running: false, ..s }
            } else {
                TaskState {
                    invocations: (s.invocations + 1) as u64,
                    stale_read_spent: s.stale_read_spent || s.cancel_requested,
                    ..s
                }
            }
        },
        TaskEvent::Cancel => TaskState { cancel_requested: true, ..s },
        TaskEvent::Join => TaskState { joined: true, ..s },
    }
}

/// The state a run of events leads to, first event first.
pub open spec fn run(s: TaskState, t: Seq<TaskEvent>) -> TaskState
    decreases t.len(),
{
    if t.len() == 0 {
        s
    } else {
        run(step(s, t.first()), t.drop_first())
    }
}

/// Whether every event of the run is allowed in the state it meets.
pub open spec fn trace_allowed(s: TaskState, t: Seq<TaskEvent>) -> bool
    decreases t.len(),
{
    t.len() == 0 || (event_allowed(s, t.first()) && trace_allowed(
        step(s, t.first()),
        t.drop_first(),
    ))
}

impl TaskState {
    /// The state of a freshly spawned task.
    pub fn new() -> (s: TaskState)
        ensures
            initial(s),
    {
        TaskState {
            cancel_requested: false,
            running: true,
            invocations: 0,
            stale_read_spent: false,
            joined: false,
        }
    }

    /// The background loop reads `observed` from the cancellation flag
    /// at the top of an iteration and acts on it: stop on `true`,
    /// invoke the callable once and sleep on `false`.
    pub fn observe(&mut self, observed: bool) -> (d: LoopDirective)
        requires
            event_allowed(*old(self), TaskEvent::Observe(observed)),
        ensures
            *final(self) == step(*old(self), TaskEvent::Observe(observed)),
            d == (if observed {
                LoopDirective::Stop
            } else {
                LoopDirective::Invoke
            }),
    {
        if observed {
            self.running = false;
            LoopDirective::Stop
        } else {
            self.invocations = self.invocations + 1;
            self.stale_read_spent = self.stale_read_spent || self.cancel_requested;
            LoopDirective::Invoke
        }
    }

    /// The handle stores `true` into the shared flag and sends the wake
    /// signal.  The handle is consumed by cancel, so this happens at
    /// most once per task.
    pub fn request_cancel(&mut self)
        requires
            event_allowed(*old(self), TaskEvent::Cancel),
        ensures
            *final(self) == step(*old(self), TaskEvent::Cancel),
    {
        self.cancel_requested = true;
    }

    /// The handle's blocking join completes.  This is allowed only once
    /// the background loop has terminated: cancel returns only after
    /// the background context is gone.
    pub fn complete_join(&mut self)
        requires
            event_allowed(*old(self), TaskEvent::Join),
        ensures
            *final(self) == step(*old(self), TaskEvent::Join),
    {
        self.joined = true;
    }
}

/// The cancellation flag is monotone: once stored, no allowed run ever
/// clears it again.
pub proof fn lemma_flag_monotone(s: TaskState, t: Seq<TaskEvent>)
    requires
        trace_allowed(s, t),
        s.cancel_requested,
    ensures
        run(s, t).cancel_requested,
    decreases t.len(),
{
    if t.len() > 0 {
        lemma_flag_monotone(step(s, t.first()), t.drop_first());
    }
}

/// A loop that has terminated stays terminated, and the callable is
/// never invoked again: every allowed run from a stopped state leaves
/// the invocation count unchanged.
pub proof fn lemma_stopped_is_final(s: TaskState, t: Seq<TaskEvent>)
    requires
        trace_allowed(s, t),
        !s.running,
    ensures
        !run(s, t).running,
        run(s, t).invocations == s.invocations,
    decreases t.len(),
{
    if t.len() > 0 {
        lemma_stopped_is_final(step(s, t.first()), t.drop_first());
    }
}

/// A join completes only once the background loop has terminated, and
/// after it no allowed run ever invokes the callable again: cancel is
/// synchronous termination, not fire-and-forget.
pub proof fn lemma_join_is_terminal(s: TaskState, t: Seq<TaskEvent>)
    requires
        event_allowed(s, TaskEvent::Join),
        trace_allowed(step(s, TaskEvent::Join), t),
    ensures
        !step(s, TaskEvent::Join).running,
        !run(step(s, TaskEvent::Join), t).running,
        run(step(s, TaskEvent::Join), t).invocations == s.invocations,
{
    lemma_stopped_is_final(step(s, TaskEvent::Join), t);
}

/// Once the handle has stored the cancellation flag, at most one
/// further invocation of the callable can happen — the single stale
/// read the relaxed load permits — and none at all if that read has
/// already been spent.
pub proof fn lemma_at_most_one_invocation_after_cancel(s: TaskState, t: Seq<TaskEvent>)
    requires
        trace_allowed(s, t),
        s.cancel_requested,
    ensures
        run(s, t).invocations <= s.invocations + (if s.stale_read_spent {
            0int
        } else {
            1int
        }),
    decreases t.len(),
{
    if t.len() > 0 {
        lemma_at_most_one_invocation_after_cancel(step(s, t.first()), t.drop_first());
    }
}

/// A run can be cut at any point: the prefix is allowed and leads to an
/// intermediate state, from which the suffix is allowed and continues
/// to the same final state.
pub proof fn lemma_trace_split(s: TaskState, t: Seq<TaskEvent>, i: int)
    requires
        trace_allowed(s, t),
        0 <= i <= t.len(),
    ensures
        trace_allowed(s, t.take(i)),
        trace_allowed(run(s, t.take(i)), t.skip(i)),
        run(s, t) == run(run(s, t.take(i)), t.skip(i)),
    decreases i,
{
    if i == 0 {
        assert(t.take(0) =~= Seq::<TaskEvent>::empty());
        assert(t.skip(0) =~= t);
    } else {
        let s1 = step(s, t.first());
        let t1 = t.drop_first();
        lemma_trace_split(s1, t1, i - 1);
        assert(t.take(i).first() == t.first());
        assert(t.take(i).drop_first() =~= t1.take(i - 1));
        assert(t.skip(i) =~= t1.skip(i - 1));
    }
}

/// The race bound over a whole run: wherever the cancel falls in the
/// interleaving, the invocation count at the end of the run exceeds the
/// count at the moment the flag was stored by at most one.
pub proof fn lemma_invocation_bound(s0: TaskState, t: Seq<TaskEvent>, i: int)
    requires
        trace_allowed(s0, t),
        0 <= i < t.len(),
        t[i] == TaskEvent::Cancel,
    ensures
        run(s0, t).invocations <= run(s0, t.take(i + 1)).invocations + 1,
{
    lemma_trace_split(s0, t, i + 1);
    lemma_trace_split(s0, t.take(i + 1), i);
    let sm = run(s0, t.take(i + 1).take(i));
    let u = t.take(i + 1).skip(i);
    assert(u =~= seq![TaskEvent::Cancel]);
    assert(u.len() == 1);
    assert(u.first() == TaskEvent::Cancel);
    assert(u.drop_first().len() == 0);
    assert(run(sm, u) == run(step(sm, u.first()), u.drop_first()));
    assert(run(sm, u) == step(sm, TaskEvent::Cancel));
    lemma_at_most_one_invocation_after_cancel(run(s0, t.take(i + 1)), t.skip(i + 1));
}

/// Once the flag is set and its one permitted stale read is spent — at
/// the latest, after the wake signal has interrupted the sleep — the
/// very next check is forced to read `true` and stops the loop at once,
/// whatever the period: cancellation latency is bounded by one check,
/// never by the period.
pub proof fn lemma_prompt_stop(s: TaskState, observed: bool)
    requires
        s.cancel_requested,
        s.stale_read_spent,
        event_allowed(s, TaskEvent::Observe(observed)),
    ensures
        observed,
        !step(s, TaskEvent::Observe(observed)).running,
{
}

} // verus!
