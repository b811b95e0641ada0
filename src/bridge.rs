use vstd::prelude::*;

use crate::channel::{fire, outcome_channel, receiver_channel, sender_channel, Delivery};
use crate::error::{copy_outcome, EvalError, Outcome};
use tokio::sync::oneshot::{Receiver, Sender};

verus! {

/// A module evaluation that has begun and not yet settled: the handle to its
/// completion promise, and the sender that will carry its outcome to the host.
/// The two are created and released together.
pub struct ModEvaluate<H> {
    promise: H,
    sender: Sender<Outcome>,
}

/// The state of a completion promise, as the engine reports it.
pub enum PromiseState {
    Pending,
    Fulfilled,
    /// Rejected, with the rendered rejection reason.
    Rejected(String),
}

/// What one drive tick of the event loop came to.
#[derive(Debug)]
pub enum Tick {
    /// The promise is still pending: suspend until a host event could have
    /// queued more work for the engine.
    Idle,
    /// The promise settled on this tick and its outcome was sent to the host.
    Settled(Outcome),
    /// No evaluation is outstanding: nothing to drive.
    Done,
}

/// The outcome a settled promise stands for; `None` while it is pending.
pub open spec fn outcome_spec(ps: PromiseState) -> Option<Outcome> {
    match ps {
        PromiseState::Pending => None,
        PromiseState::Fulfilled => Some(Ok(())),
        PromiseState::Rejected(reason) => Some(Err(EvalError::RejectionError(reason))),
    }
}

/// The tick the driver reports, given whether an evaluation is outstanding
/// and the state of its promise.
pub open spec fn tick_spec(outstanding: bool, ps: PromiseState) -> Tick {
    if !outstanding {
        Tick::Done
    } else {
        match outcome_spec(ps) {
            None => Tick::Idle,
            Some(o) => Tick::Settled(o),
        }
    }
}

/// Whether an evaluation is still outstanding after a tick.
pub open spec fn outstanding_after(outstanding: bool, ps: PromiseState) -> bool {
    outstanding && ps is Pending
}

/// The outcome a promise state stands for, if it has settled.
pub fn outcome_of(ps: &PromiseState) -> (r: Option<Outcome>)
    ensures
        r == outcome_spec(*ps),
{
    match ps {
        PromiseState::Pending => None,
        PromiseState::Fulfilled => Some(Ok(())),
        PromiseState::Rejected(reason) => Some(Err(EvalError::RejectionError(reason.clone()))),
    }
}

/// State kept beside the engine: its global context (`C`) and the one
/// evaluation that may be outstanding, whose promise handle is an `H`.
pub struct JTsRuntimeState<C, H> {
    global_context: Option<C>,
    pending_mod_evaluate: Option<ModEvaluate<H>>,
}

impl<C, H> JTsRuntimeState<C, H> {
    /// The promise of the outstanding evaluation, if any.
    pub closed spec fn pending(&self) -> Option<H> {
        match self.pending_mod_evaluate {
            Some(m) => Some(m.promise),
            None => None,
        }
    }

    /// The channel the outstanding evaluation's outcome will be sent on.
    pub closed spec fn pending_channel(&self) -> Option<int> {
        match self.pending_mod_evaluate {
            Some(m) => Some(sender_channel(m.sender)),
            None => None,
        }
    }

    pub closed spec fn context(&self) -> Option<C> {
        self.global_context
    }

    /// One drive tick, as `poll_tick` performs it, took `before` to `after`
    /// and reported `t`, the promise being in state `ps`.
    pub open spec fn tick_step(before: Self, ps: PromiseState, after: Self, t: Tick) -> bool {
        &&& t == tick_spec(before.pending() is Some, ps)
        &&& after.pending() is Some == outstanding_after(before.pending() is Some, ps)
    }

    /// Fresh state around a newly created global context.
    pub fn new(global_context: C) -> (r: Self)
        ensures
            r.context() == Some(global_context),
            r.pending() is None,
    {
        JTsRuntimeState { global_context: Some(global_context), pending_mod_evaluate: None }
    }

    /// The global context that scripts run in.
    pub fn global_context(&self) -> (r: Option<&C>)
        ensures
            r is Some == self.context() is Some,
            r matches Some(c) ==> self.context() == Some(*c),
    {
        self.global_context.as_ref()
    }

    /// Whether an evaluation is outstanding.
    pub fn has_pending(&self) -> (r: bool)
        ensures
            r == self.pending() is Some,
    {
        self.pending_mod_evaluate.is_some()
    }

    /// The completion promise the event loop has to inspect, if any.
    pub fn pending_promise(&self) -> (r: Option<&H>)
        ensures
            r is Some == self.pending() is Some,
            r matches Some(h) ==> self.pending() == Some(*h),
    {
        match &self.pending_mod_evaluate {
            Some(m) => Some(&m.promise),
            None => None,
        }
    }

    /// Begins the wait for a module's outcome and returns the host's end of
    /// a fresh channel. A completion promise becomes the outstanding
    /// evaluation, together with that channel's sender; an error from the
    /// pipeline is sent on the channel at once, and nothing is left
    /// outstanding.
    pub fn start(&mut self, result: Result<H, EvalError>) -> (r: (Receiver<Outcome>, Option<Delivery>))
        requires
            old(self).pending() is None,
        ensures
            final(self).context() == old(self).context(),
            match result {
                Ok(h) => {
                    &&& final(self).pending() == Some(h)
                    &&& final(self).pending_channel() == Some(receiver_channel(r.0))
                    &&& r.1 is None
                },
                Err(e) => {
                    &&& final(self).pending() is None
                    &&& r.1 matches Some(d) && d.channel() == receiver_channel(r.0) && d.outcome()
                        == Err::<(), EvalError>(e)
                },
            },
    {
        let (sender, receiver) = outcome_channel();
        match result {
            Ok(h) => {
                self.pending_mod_evaluate = Some(ModEvaluate { promise: h, sender });
                (receiver, None)
            },
            Err(e) => {
                let d = fire(sender, Err(e));
                (receiver, Some(d))
            },
        }
    }

    /// One drive tick, run after the engine has drained its microtasks: looks
    /// at the state of the outstanding promise and, once it has settled,
    /// sends the outcome on the outstanding channel and only then clears the
    /// outstanding evaluation.
    pub fn poll_tick(&mut self, ps: PromiseState) -> (r: (Tick, Option<Delivery>))
        ensures
            Self::tick_step(*old(self), ps, *final(self), r.0),
            r.1 is Some <==> r.0 is Settled,
            r.1 matches Some(d) ==> old(self).pending_channel() == Some(d.channel()) && r.0
                == Tick::Settled(d.outcome()),
            final(self).pending() is Some == outstanding_after(old(self).pending() is Some, ps),
            final(self).pending() is Some ==> final(self).pending() == old(self).pending()
                && final(self).pending_channel() == old(self).pending_channel(),
            final(self).context() == old(self).context(),
    {
        if self.pending_mod_evaluate.is_none() {
            return (Tick::Done, None);
        }
        match outcome_of(&ps) {
            None => (Tick::Idle, None),
            Some(o) => {
                let reported = copy_outcome(&o);
                let m = self.pending_mod_evaluate.take().unwrap();
                let d = fire(m.sender, o);
                (Tick::Settled(reported), Some(d))
            },
        }
    }

    /// Gives the global context back for release. Refused, with the state
    /// unchanged, while an evaluation is outstanding: its host would wait
    /// forever.
    pub fn teardown(self) -> (r: Result<Option<C>, Self>)
        ensures
            self.pending() is None ==> r == Ok::<Option<C>, Self>(self.context()),
            self.pending() is Some ==> r == Err::<Option<C>, Self>(self),
    {
        if self.pending_mod_evaluate.is_some() {
            Err(self)
        } else {
            Ok(self.global_context)
        }
    }
}

} // verus!
