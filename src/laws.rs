//! Properties of whole runs of a coordinator.
//!
//! A run is a sequence of events fed to [`next_phase`] / [`effect_of`] from
//! some phase; it yields the final phase and the effects asked for, one per
//! event. The coordinator's methods are stated over the same two functions,
//! so what holds of runs holds of every sequence of method calls.

use vstd::prelude::*;
use crate::coordinator::{Phase, Event, Effect, Step, next_phase, effect_of, poll_step, is_active_phase};

verus! {

/// The final phase and the effects of feeding the events `t` from phase `p`.
pub open spec fn run(p: Phase, t: Seq<Event>) -> (Phase, Seq<Effect>)
    decreases t.len(),
{
    if t.len() == 0 {
        (p, Seq::empty())
    } else {
        let prev = run(p, t.drop_last());
        (next_phase(prev.0, t.last()), prev.1.push(effect_of(prev.0, t.last())))
    }
}

/// How many times `x` occurs in `s`.
pub open spec fn occurrences<A>(s: Seq<A>, x: A) -> nat
    decreases s.len(),
{
    if s.len() == 0 {
        0
    } else {
        occurrences(s.drop_last(), x) + if s.last() == x { 1nat } else { 0nat }
    }
}

/// Main-command launches that a coordinator in phase `p` has asked for.
pub open spec fn main_runs_in(p: Phase) -> nat {
    if p == Phase::Dispatching || p == Phase::Matched { 1 } else { 0 }
}

/// Found signals that a coordinator in phase `p` has sent.
pub open spec fn signals_in(p: Phase) -> nat {
    if p == Phase::Matched { 1 } else { 0 }
}

/// Whether the watch in phase `p` has an outcome, matched or cancelled.
pub open spec fn is_decided(p: Phase) -> bool {
    p == Phase::Dispatching || p == Phase::Matched || p == Phase::Cancelled
}

proof fn lemma_occurrences_concat<A>(a: Seq<A>, b: Seq<A>, x: A)
    ensures
        occurrences(a + b, x) == occurrences(a, x) + occurrences(b, x),
    decreases b.len(),
{
    if b.len() == 0 {
        assert(a + b =~= a);
    } else {
        assert((a + b).drop_last() =~= a + b.drop_last());
        lemma_occurrences_concat(a, b.drop_last(), x);
    }
}

proof fn lemma_run_last(p: Phase, t: Seq<Event>)
    requires
        t.len() > 0,
    ensures
        run(p, t).1.drop_last() == run(p, t.drop_last()).1,
        run(p, t).1.last() == effect_of(run(p, t.drop_last()).0, t.last()),
{
    assert(run(p, t).1.drop_last() =~= run(p, t.drop_last()).1);
}

/// Running `t1` and then `t2` is running their concatenation.
pub proof fn lemma_run_concat(p: Phase, t1: Seq<Event>, t2: Seq<Event>)
    ensures
        run(p, t1 + t2) == (run(run(p, t1).0, t2).0, run(p, t1).1 + run(run(p, t1).0, t2).1),
    decreases t2.len(),
{
    if t2.len() == 0 {
        assert(t1 + t2 =~= t1);
        assert(run(p, t1).1 + Seq::<Effect>::empty() =~= run(p, t1).1);
    } else {
        assert((t1 + t2).drop_last() =~= t1 + t2.drop_last());
        lemma_run_concat(p, t1, t2.drop_last());
        let q = run(p, t1).0;
        let mid = run(q, t2.drop_last());
        assert(run(p, t1).1 + mid.1.push(effect_of(mid.0, t2.last()))
            =~= (run(p, t1).1 + mid.1).push(effect_of(mid.0, t2.last())));
    }
}

/// The main command is asked for at most once and the found signal at most
/// once in any run: each run adds to the launches and signals already behind
/// its starting phase exactly what its final phase has behind it.
pub proof fn lemma_at_most_once(p: Phase, t: Seq<Event>)
    ensures
        main_runs_in(p) + occurrences(run(p, t).1, Effect::RunMain) == main_runs_in(run(p, t).0),
        signals_in(p) + occurrences(run(p, t).1, Effect::SendFound) == signals_in(run(p, t).0),
        p == Phase::Idle ==> occurrences(run(p, t).1, Effect::RunMain) <= 1,
        p == Phase::Idle ==> occurrences(run(p, t).1, Effect::SendFound) <= 1,
    decreases t.len(),
{
    if t.len() > 0 {
        lemma_at_most_once(p, t.drop_last());
        lemma_run_last(p, t);
    }
}

/// Once the run flag has fallen it never rises again.
pub proof fn lemma_active_monotonic(p: Phase, t: Seq<Event>)
    requires
        !is_active_phase(p),
    ensures
        !is_active_phase(run(p, t).0),
    decreases t.len(),
{
    if t.len() > 0 {
        lemma_active_monotonic(p, t.drop_last());
    }
}

/// `n` existence checks that find nothing.
pub open spec fn absent_polls(n: nat) -> Seq<Event> {
    Seq::new(n, |i: int| Event::Poll(false))
}

/// If the file is absent for `n` polls and present at the next one, the
/// watcher asks for nothing during the first `n` polls, asks for exactly one
/// launch of the main command at the next, and after the launch attempt,
/// failed or not, sends exactly one found signal; the watch is then matched
/// and every later poll stops.
pub proof fn lemma_found_after_polls(n: nat, spawned: bool)
    ensures
        run(Phase::Watching, absent_polls(n))
            == (Phase::Watching, Seq::new(n, |i: int| Effect::Nothing)),
        run(Phase::Watching, absent_polls(n).push(Event::Poll(true)).push(Event::Dispatched(spawned)))
            == (Phase::Matched, Seq::new(n, |i: int| Effect::Nothing).push(Effect::RunMain).push(Effect::SendFound)),
        forall|present: bool| poll_step(Phase::Matched, present) == Step::Stop,
    decreases n,
{
    if n > 0 {
        lemma_found_after_polls((n - 1) as nat, spawned);
        assert(absent_polls(n).drop_last() =~= absent_polls((n - 1) as nat));
        assert(Seq::new((n - 1) as nat, |i: int| Effect::Nothing).push(Effect::Nothing)
            =~= Seq::new(n, |i: int| Effect::Nothing));
    } else {
        assert(absent_polls(n) =~= Seq::<Event>::empty());
        assert(Seq::new(n, |i: int| Effect::Nothing) =~= Seq::<Effect>::empty());
    }
    let t1 = absent_polls(n).push(Event::Poll(true));
    let t = t1.push(Event::Dispatched(spawned));
    assert(t.drop_last() =~= t1);
    assert(t1.drop_last() =~= absent_polls(n));
    assert(run(Phase::Watching, absent_polls(n)).1 =~= Seq::new(n, |i: int| Effect::Nothing));
    assert(run(Phase::Watching, t1).0 == Phase::Dispatching);
    assert(run(Phase::Watching, t1).1 =~= Seq::new(n, |i: int| Effect::Nothing).push(Effect::RunMain));
    assert(run(Phase::Watching, t).1 =~= Seq::new(n, |i: int| Effect::Nothing).push(Effect::RunMain).push(Effect::SendFound));
}

/// A cancellation that comes before any match, whatever preceded it, leaves
/// the run without a main-command launch or a found signal for ever after,
/// and the watcher stops at its next poll.
pub proof fn lemma_cancel_before_match(before: Seq<Event>, after: Seq<Event>)
    requires
        occurrences(run(Phase::Idle, before).1, Effect::RunMain) == 0,
    ensures
        occurrences(run(Phase::Idle, before.push(Event::Cancel) + after).1, Effect::RunMain) == 0,
        occurrences(run(Phase::Idle, before.push(Event::Cancel) + after).1, Effect::SendFound) == 0,
        run(Phase::Idle, before.push(Event::Cancel) + after).0 == Phase::Cancelled,
        forall|present: bool| poll_step(run(Phase::Idle, before.push(Event::Cancel) + after).0, present) == Step::Stop,
{
    let t1 = before.push(Event::Cancel);
    lemma_at_most_once(Phase::Idle, before);
    lemma_at_most_once(Phase::Idle, t1);
    assert(t1.drop_last() =~= before);
    assert(run(Phase::Idle, t1).0 == Phase::Cancelled);
    lemma_run_concat(Phase::Idle, t1, after);
    lemma_at_most_once(Phase::Cancelled, after);
    lemma_active_monotonic(Phase::Cancelled, after);
    lemma_occurrences_concat(run(Phase::Idle, t1).1, run(Phase::Cancelled, after).1, Effect::RunMain);
    lemma_occurrences_concat(run(Phase::Idle, t1).1, run(Phase::Cancelled, after).1, Effect::SendFound);
}

/// A cancellation after a match has fired changes nothing and asks for
/// nothing.
pub proof fn lemma_cancel_after_match(t: Seq<Event>)
    requires
        occurrences(run(Phase::Idle, t).1, Effect::RunMain) > 0,
    ensures
        run(Phase::Idle, t.push(Event::Cancel)) == (run(Phase::Idle, t).0, run(Phase::Idle, t).1.push(Effect::Nothing)),
{
    lemma_at_most_once(Phase::Idle, t);
    assert(t.push(Event::Cancel).drop_last() =~= t);
}

/// Every trigger of the auxiliary action asks for one launch of the
/// auxiliary command and leaves the phase as it is: `n` triggers give `n`
/// launches, and in any run there are as many launches as triggers.
pub proof fn lemma_auxiliary_launches(p: Phase, n: nat, t: Seq<Event>)
    ensures
        run(p, Seq::new(n, |i: int| Event::Auxiliary)) == (p, Seq::new(n, |i: int| Effect::RunAuxiliary)),
        occurrences(run(p, t).1, Effect::RunAuxiliary) == occurrences(t, Event::Auxiliary),
        run(p, t.push(Event::Auxiliary)) == (run(p, t).0, run(p, t).1.push(Effect::RunAuxiliary)),
    decreases n + t.len(),
{
    assert(t.push(Event::Auxiliary).drop_last() =~= t);
    if n > 0 {
        lemma_auxiliary_launches(p, (n - 1) as nat, t);
        assert(Seq::new(n, |i: int| Event::Auxiliary).drop_last() =~= Seq::new((n - 1) as nat, |i: int| Event::Auxiliary));
        assert(Seq::new((n - 1) as nat, |i: int| Effect::RunAuxiliary).push(Effect::RunAuxiliary)
            =~= Seq::new(n, |i: int| Effect::RunAuxiliary));
    } else {
        assert(Seq::new(n, |i: int| Event::Auxiliary) =~= Seq::<Event>::empty());
        assert(Seq::new(n, |i: int| Effect::RunAuxiliary) =~= Seq::<Effect>::empty());
        if t.len() > 0 {
            lemma_auxiliary_launches(p, 0, t.drop_last());
            lemma_run_last(p, t);
            let q = run(p, t.drop_last()).0;
            assert(effect_of(q, t.last()) == Effect::RunAuxiliary <==> t.last() == Event::Auxiliary);
        }
    }
}

/// Once the watch has started, a run that holds a cancellation or a poll
/// that finds the file ends with an outcome, and that outcome is either a
/// match (with its one launch) or a cancellation (with none), never both.
pub proof fn lemma_exclusive_outcome(t: Seq<Event>)
    ensures
        (exists|i: int| 0 <= i < t.len() && (t[i] == Event::Cancel || t[i] == Event::Poll(true)))
            ==> is_decided(run(Phase::Watching, t).0),
        run(Phase::Watching, t).0 != Phase::Idle,
        run(Phase::Watching, t).0 == Phase::Cancelled ==> occurrences(run(Phase::Watching, t).1, Effect::RunMain) == 0,
        occurrences(run(Phase::Watching, t).1, Effect::RunMain) == 1 <==> run(Phase::Watching, t).0 != Phase::Cancelled
            && run(Phase::Watching, t).0 != Phase::Watching,
    decreases t.len(),
{
    lemma_at_most_once(Phase::Watching, t);
    if t.len() > 0 {
        let s = t.drop_last();
        lemma_exclusive_outcome(s);
        if exists|i: int| 0 <= i < t.len() && (t[i] == Event::Cancel || t[i] == Event::Poll(true)) {
            let i = choose|i: int| 0 <= i < t.len() && (t[i] == Event::Cancel || t[i] == Event::Poll(true));
            if i < s.len() {
                assert(s[i] == t[i]);
                assert(is_decided(run(Phase::Watching, s).0));
            }
        }
    }
}

} // verus!
