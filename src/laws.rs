use vstd::prelude::*;

use crate::bridge::{outcome_spec, outstanding_after, tick_spec, JTsRuntimeState, PromiseState, Tick};
use crate::error::EvalError;
use crate::pipeline::{next_spec, Next, Phase, Report};
use crate::resolver::absent;

verus! {

/// Whether an evaluation is still outstanding after one tick for each of the
/// promise states in `states`, starting from an outstanding one.
pub open spec fn outstanding_after_ticks(states: Seq<PromiseState>) -> bool
    decreases states.len(),
{
    if states.len() == 0 {
        true
    } else {
        outstanding_after(outstanding_after_ticks(states.drop_last()), states.last())
    }
}

/// What the driver reports on the tick that sees `states[k]`.
pub open spec fn tick_at(states: Seq<PromiseState>, k: int) -> Tick {
    tick_spec(outstanding_after_ticks(states.take(k)), states[k])
}

/// A module without imports that the engine compiles, links and runs to a
/// promise that is already fulfilled after the first microtask checkpoint
/// settles with `Ok(())` on the first drive tick, and leaves nothing
/// outstanding.
pub proof fn lemma_import_free_module_settles_on_first_tick<H>(
    known: Seq<Seq<char>>,
    imports: Vec<String>,
    promise: H,
)
    requires
        imports@.len() == 0,
    ensures
        next_spec(known, Report::<H>::Compiled(true)) == Next::<H>::Run(Phase::Resolve),
        next_spec(known, Report::<H>::Imports(imports)) == Next::<H>::Run(Phase::Instantiate),
        next_spec(known, Report::<H>::Instantiated(true)) == Next::<H>::Run(Phase::Evaluate),
        next_spec(known, Report::<H>::Evaluated(Ok(promise))) == Next::<H>::Finish(Ok(promise)),
        tick_spec(true, PromiseState::Fulfilled) == Tick::Settled(Ok(())),
        !outstanding_after(true, PromiseState::Fulfilled),
{
}

/// While the resolver knows no module, every module with at least one static
/// import fails to link.
pub proof fn lemma_import_fails_without_modules<H>(imports: Vec<String>)
    requires
        imports@.len() > 0,
    ensures
        next_spec(Seq::<Seq<char>>::empty(), Report::<H>::Imports(imports)) == Next::<H>::Finish(
            Err(EvalError::InstantiationError),
        ),
{
    assert(absent(Seq::<Seq<char>>::empty(), imports@[0]@));
}

/// A body that throws before a promise exists ends the evaluation with a
/// runtime error that carries the thrown value's message.
pub proof fn lemma_throw_is_runtime_error<H>(known: Seq<Seq<char>>, message: String)
    ensures
        next_spec(known, Report::<H>::Evaluated(Err(message))) == Next::<H>::Finish(
            Err(EvalError::RuntimeError(message)),
        ),
{
}

/// The driver reports no settlement while the promise stays pending: every
/// such tick is idle and the evaluation stays outstanding.
pub proof fn lemma_pending_ticks_stay_idle(states: Seq<PromiseState>)
    requires
        forall|k: int| 0 <= k < states.len() ==> states[k] is Pending,
    ensures
        outstanding_after_ticks(states),
        forall|k: int| 0 <= k < states.len() ==> tick_at(states, k) == Tick::Idle,
    decreases states.len(),
{
    if states.len() > 0 {
        lemma_pending_ticks_stay_idle(states.drop_last());
        assert forall|k: int| 0 <= k < states.len() implies tick_at(states, k) == Tick::Idle by {
            if k < states.len() - 1 {
                assert(states.take(k) =~= states.drop_last().take(k));
                assert(tick_at(states.drop_last(), k) == Tick::Idle);
            } else {
                assert(states.take(k) =~= states.drop_last());
            }
        }
    }
}

/// A promise that settles only after some pending ticks: the driver must be
/// polled once per tick, stays idle until the tick that sees the settled
/// state, reports exactly that settlement there, and has nothing left to
/// drive afterwards.
pub proof fn lemma_settles_when_promise_does(states: Seq<PromiseState>, n: int)
    requires
        0 <= n < states.len(),
        forall|k: int| 0 <= k < n ==> states[k] is Pending,
        !(states[n] is Pending),
    ensures
        forall|k: int| 0 <= k < n ==> tick_at(states, k) == Tick::Idle,
        outcome_spec(states[n]) matches Some(o) && tick_at(states, n) == Tick::Settled(o),
        forall|k: int| n < k < states.len() ==> tick_at(states, k) == Tick::Done,
{
    let before = states.take(n);
    lemma_pending_ticks_stay_idle(before);
    assert forall|k: int| 0 <= k < n implies tick_at(states, k) == Tick::Idle by {
        assert(states.take(k) =~= before.take(k));
        assert(tick_at(before, k) == Tick::Idle);
    }
    assert(states.take(n + 1).drop_last() =~= before);
    lemma_settled_stays_done(states, n);
}

/// Once a tick has seen the promise settled, no evaluation is outstanding
/// after any later tick.
proof fn lemma_settled_stays_done(states: Seq<PromiseState>, n: int)
    requires
        0 <= n < states.len(),
        !(states[n] is Pending),
    ensures
        forall|k: int| n < k <= states.len() ==> !outstanding_after_ticks(states.take(k)),
{
    assert forall|k: int| n < k <= states.len() implies !outstanding_after_ticks(states.take(k)) by {
        lemma_settled_prefix(states, n, k);
    }
}

proof fn lemma_settled_prefix(states: Seq<PromiseState>, n: int, k: int)
    requires
        0 <= n < k <= states.len(),
        !(states[n] is Pending),
    ensures
        !outstanding_after_ticks(states.take(k)),
    decreases k,
{
    assert(states.take(k).drop_last() =~= states.take(k - 1));
    if k - 1 > n {
        lemma_settled_prefix(states, n, k - 1);
    }
}

/// Along a run of drive ticks from an outstanding evaluation, the state
/// after `k` ticks is outstanding exactly when `outstanding_after_ticks`
/// says so, and the `k`-th tick reports `tick_at`.
proof fn lemma_run_follows_ticks<C, H>(
    runs: Seq<JTsRuntimeState<C, H>>,
    ticks: Seq<Tick>,
    states: Seq<PromiseState>,
    k: int,
)
    requires
        runs.len() == states.len() + 1,
        ticks.len() == states.len(),
        runs[0].pending() is Some,
        forall|j: int|
            0 <= j < states.len() ==> JTsRuntimeState::tick_step(
                runs[j],
                states[j],
                runs[j + 1],
                ticks[j],
            ),
        0 <= k <= states.len(),
    ensures
        runs[k].pending() is Some == outstanding_after_ticks(states.take(k)),
        k < states.len() ==> ticks[k] == tick_at(states, k),
    decreases k,
{
    if k > 0 {
        lemma_run_follows_ticks(runs, ticks, states, k - 1);
        assert(states.take(k).drop_last() =~= states.take(k - 1));
    } else {
        assert(states.take(0) =~= Seq::<PromiseState>::empty());
    }
}

/// A run of `poll_tick` calls on an outstanding evaluation whose promise
/// stays pending for the first `n` ticks and has settled at tick `n`: the
/// driver is idle on every earlier tick and the evaluation stays
/// outstanding, tick `n` reports the settled outcome and leaves nothing
/// outstanding, and every later tick has nothing to drive.
pub proof fn lemma_poll_ticks_settle_when_promise_does<C, H>(
    runs: Seq<JTsRuntimeState<C, H>>,
    ticks: Seq<Tick>,
    states: Seq<PromiseState>,
    n: int,
)
    requires
        runs.len() == states.len() + 1,
        ticks.len() == states.len(),
        runs[0].pending() is Some,
        forall|j: int|
            0 <= j < states.len() ==> JTsRuntimeState::tick_step(
                runs[j],
                states[j],
                runs[j + 1],
                ticks[j],
            ),
        0 <= n < states.len(),
        forall|k: int| 0 <= k < n ==> states[k] is Pending,
        !(states[n] is Pending),
    ensures
        forall|k: int| 0 <= k < n ==> ticks[k] == Tick::Idle,
        forall|k: int| 0 <= k <= n ==> runs[k].pending() is Some,
        outcome_spec(states[n]) matches Some(o) && ticks[n] == Tick::Settled(o),
        runs[n + 1].pending() is None,
        forall|k: int| n < k < states.len() ==> ticks[k] == Tick::Done,
{
    lemma_settles_when_promise_does(states, n);
    assert forall|k: int| 0 <= k <= states.len() implies runs[k].pending() is Some
        == outstanding_after_ticks(states.take(k)) && (k < states.len() ==> ticks[k] == tick_at(
        states,
        k,
    )) by {
        lemma_run_follows_ticks(runs, ticks, states, k);
    }
    lemma_pending_ticks_stay_idle(states.take(n));
    assert forall|k: int| 0 <= k <= n implies runs[k].pending() is Some by {
        lemma_pending_ticks_stay_idle(states.take(k));
    }
    lemma_settled_stays_done(states, n);
}

} // verus!
