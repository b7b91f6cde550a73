//! The coroutine engine.
//!
//! One engine instance drives one poll-based computation through repeated
//! host-driven steps.  The computation itself, the waker primitives and the
//! optional throw-callback live with the embedder; the engine is the state
//! machine that decides, for every step, whether the step is allowed at
//! all, whether an injected error is handled cooperatively or ends the
//! computation at once, whether the waker must be created or refreshed,
//! and what the step returns once the poll has reported its outcome.
//!
//! A step runs in two halves.  `step_prepare` takes the injected error (if
//! any) and answers either with an error — the reuse error, or the injected
//! error when no callback can absorb it — or with a [`PollPlan`]: invoke
//! the callback with this error, create or refresh the waker, then poll
//! once.  The embedder performs the plan and reports the poll's outcome to
//! `step_finish`, which yields, returns the result, or raises, dropping
//! the computation on every completion.  `close_begin` and `close_outcome`
//! split the close protocol the same way.
use vstd::prelude::*;
use crate::host::{HostErr, HostObj};

verus! {

/// The decision state of one wrapped computation.
///
/// `Fresh → Stepping → {Suspended ⇄ Stepping} → Completed`, or `Closed`
/// from any state: here `live` is true until the computation is dropped
/// (completion or close), `mid_step` is true while one step's poll is in
/// flight, and `waker_created` records whether a resumption token exists
/// yet — it is created lazily on the first step and refreshed afterwards.
#[derive(Clone, Copy, Debug, PartialEq, Eq, Structural)]
pub struct Coroutine {
    /// The computation is still held: neither completed nor closed.
    pub live: bool,
    /// A throw-callback is registered: injected errors are handed to it
    /// instead of ending the computation, and close drains cooperatively.
    pub has_callback: bool,
    /// A resumption token exists from an earlier step.
    pub waker_created: bool,
    /// A step has been prepared and its poll not yet reported.
    pub mid_step: bool,
}

/// What to do about the resumption token before polling.
#[derive(Clone, Copy, Debug, PartialEq, Eq, Structural)]
pub enum WakerOp {
    /// No token exists yet, or the existing one is still referenced by
    /// host callbacks: make a fresh one.
    Create,
    /// The existing token is exclusively held: re-arm it in place.
    Refresh,
}

/// The embedder's orders for one step that does reach a poll.
#[derive(Clone, Copy, Debug, PartialEq, Eq, Structural)]
pub struct PollPlan {
    /// Invoke the throw-callback with this error before polling, if set.
    pub callback_error: Option<HostErr>,
    /// Create or refresh the resumption token before polling.
    pub waker_op: WakerOp,
}

/// Why a step fails before any poll.
#[derive(Clone, Copy, Debug, PartialEq, Eq, Structural)]
pub enum StepError {
    /// The coroutine was already completed or closed; stepping it again is
    /// a non-retried caller error.
    Reuse,
    /// An injected error arrived and no callback is registered: the
    /// computation is dropped and exactly this error propagates.
    Raise(HostErr),
}

/// What one poll of the computation reported.
#[derive(Clone, Copy, Debug, PartialEq, Eq, Structural)]
pub enum PollOutcome {
    /// Not ready; the computation holds the wake handle.
    Pending,
    /// Ready with a result value.
    Success(HostObj),
    /// Ready with an error raised by the computation itself.
    Failure(HostErr),
}

/// What a completed step hands back to the host.
#[derive(Clone, Copy, Debug, PartialEq, Eq, Structural)]
pub enum StepResult {
    /// Suspended: the host receives the waker's yield value.
    Yielded,
    /// Finished with this value; the computation has been dropped.
    Returned(HostObj),
    /// Finished with this error; the computation has been dropped.
    Raised(HostErr),
}

/// What close asks of the embedder.
#[derive(Clone, Copy, Debug, PartialEq, Eq, Structural)]
pub enum CloseAction {
    /// Nothing is held any more; close succeeds with nothing to do.
    AlreadyDone,
    /// No callback is registered: drop the computation without polling.
    DropOnly,
    /// Invoke the callback with no error, poll once with a no-op wake
    /// handle, report the outcome to [`Coroutine::close_outcome`] — and
    /// drop the computation whatever happens.
    DrainThenDrop,
}

/// The injected error a step acts on: the explicit argument wins, else
/// whatever error the existing waker surfaced.
pub open spec fn effective_error(explicit: Option<HostErr>, waker_err: Option<HostErr>) -> Option<
    HostErr,
> {
    match explicit {
        Some(e) => Some(e),
        None => waker_err,
    }
}

/// First half of a step: the state afterwards and the answer.
pub open spec fn prepare_spec(
    c: Coroutine,
    explicit: Option<HostErr>,
    waker_err: Option<HostErr>,
    waker_exclusive: bool,
) -> (Coroutine, Result<PollPlan, StepError>) {
    if !c.live {
        (c, Err(StepError::Reuse))
    } else {
        match effective_error(explicit, waker_err) {
            Some(e) => {
                if c.has_callback {
                    (
                        Coroutine { mid_step: true, ..c },
                        Ok(PollPlan { callback_error: Some(e), waker_op: waker_op_spec(c, waker_exclusive) }),
                    )
                } else {
                    (Coroutine { live: false, mid_step: false, ..c }, Err(StepError::Raise(e)))
                }
            },
            None => (
                Coroutine { mid_step: true, ..c },
                Ok(PollPlan { callback_error: None, waker_op: waker_op_spec(c, waker_exclusive) }),
            ),
        }
    }
}

/// Create a token on the first step or when host callbacks still hold the
/// old one; refresh it otherwise.
pub open spec fn waker_op_spec(c: Coroutine, waker_exclusive: bool) -> WakerOp {
    if c.waker_created && waker_exclusive {
        WakerOp::Refresh
    } else {
        WakerOp::Create
    }
}

/// Second half of a step: the state afterwards and what the host receives.
/// Every ready outcome drops the computation.
pub open spec fn finish_spec(c: Coroutine, outcome: PollOutcome) -> (Coroutine, StepResult) {
    match outcome {
        PollOutcome::Pending => (Coroutine { mid_step: false, ..c }, StepResult::Yielded),
        PollOutcome::Success(v) => (
            Coroutine { live: false, mid_step: false, ..c },
            StepResult::Returned(v),
        ),
        PollOutcome::Failure(e) => (
            Coroutine { live: false, mid_step: false, ..c },
            StepResult::Raised(e),
        ),
    }
}

/// Close: the state afterwards — never live — and what the embedder must
/// still do.
pub open spec fn close_spec(c: Coroutine) -> (Coroutine, CloseAction) {
    if !c.live {
        (c, CloseAction::AlreadyDone)
    } else if c.has_callback {
        (Coroutine { live: false, mid_step: false, ..c }, CloseAction::DrainThenDrop)
    } else {
        (Coroutine { live: false, mid_step: false, ..c }, CloseAction::DropOnly)
    }
}

/// What close reports for the drain poll's outcome: only an error raised
/// by the drain is surfaced; pending or a value is quietly dropped.
pub open spec fn close_outcome_spec(outcome: PollOutcome) -> Result<(), HostErr> {
    match outcome {
        PollOutcome::Failure(e) => Err(e),
        _ => Ok(()),
    }
}

impl Coroutine {
    /// Well-formedness: a step can be in flight only while the
    /// computation is held, and at most one is — `mid_step` is a single
    /// flag, and preparing another step requires it clear.
    pub open spec fn wf(self) -> bool {
        self.mid_step ==> self.live
    }

    /// A fresh engine holding its computation, with or without a
    /// throw-callback.  No waker exists yet; it is created on the first
    /// step.
    pub fn new(has_callback: bool) -> (c: Coroutine)
        ensures
            c == (Coroutine { live: true, has_callback, waker_created: false, mid_step: false }),
    {
        Coroutine { live: true, has_callback, waker_created: false, mid_step: false }
    }

    /// Whether the embedder must ask the existing waker for an injected
    /// error before preparing this step: only when no explicit error was
    /// passed and a waker exists to ask.
    pub fn wants_waker_check(&self, has_explicit: bool) -> (r: bool)
        ensures
            r <==> (self.live && !has_explicit && self.waker_created),
    {
        self.live && !has_explicit && self.waker_created
    }

    /// First half of one step.
    ///
    /// `explicit` is the host-injected error, `waker_err` the error the
    /// existing waker surfaced (pass `None` when there is no waker or no
    /// check was wanted), `waker_exclusive` whether the existing token is
    /// free of host references and may be refreshed in place.
    ///
    /// A completed or closed coroutine answers the reuse error and is left
    /// untouched.  An injected error without a callback drops the
    /// computation and answers exactly that error: no poll happens.  In
    /// every other case the answer is the plan for one poll, and the
    /// injected error, if any, goes to the callback instead.
    pub fn step_prepare(
        &mut self,
        explicit: Option<HostErr>,
        waker_err: Option<HostErr>,
        waker_exclusive: bool,
    ) -> (r: Result<PollPlan, StepError>)
        requires
            !old(self).mid_step,
        ensures
            *final(self) == prepare_spec(*old(self), explicit, waker_err, waker_exclusive).0,
            r == prepare_spec(*old(self), explicit, waker_err, waker_exclusive).1,
            !old(self).live ==> r == Err::<PollPlan, StepError>(StepError::Reuse) && *final(self)
                == *old(self),
            old(self).live && effective_error(explicit, waker_err) is Some && !old(
                self,
            ).has_callback ==> ({
                &&& !final(self).live
                &&& r == Err::<PollPlan, StepError>(
                    StepError::Raise(effective_error(explicit, waker_err)->0),
                )
            }),
            old(self).live && (effective_error(explicit, waker_err) is None || old(
                self,
            ).has_callback) ==> ({
                &&& final(self).live
                &&& final(self).mid_step
                &&& r == Ok::<PollPlan, StepError>(
                    (PollPlan {
                        callback_error: effective_error(explicit, waker_err),
                        waker_op: waker_op_spec(*old(self), waker_exclusive),
                    }),
                )
            }),
            r is Ok <==> final(self).mid_step,
    {
        if !self.live {
            return Err(StepError::Reuse);
        }
        let effective = match explicit {
            Some(e) => Some(e),
            None => waker_err,
        };
        match effective {
            Some(e) => {
                if self.has_callback {
                    let op = self.waker_op(waker_exclusive);
                    self.mid_step = true;
                    Ok(PollPlan { callback_error: Some(e), waker_op: op })
                } else {
                    self.live = false;
                    Err(StepError::Raise(e))
                }
            },
            None => {
                let op = self.waker_op(waker_exclusive);
                self.mid_step = true;
                Ok(PollPlan { callback_error: None, waker_op: op })
            },
        }
    }

    /// The waker operation of the next plan: create on the first step or
    /// when the old token is still referenced, refresh otherwise.
    fn waker_op(&self, waker_exclusive: bool) -> (op: WakerOp)
        ensures
            op == waker_op_spec(*self, waker_exclusive),
    {
        if self.waker_created && waker_exclusive {
            WakerOp::Refresh
        } else {
            WakerOp::Create
        }
    }

    /// The embedder created or refreshed the resumption token as the plan
    /// asked: from now on a token exists.
    pub fn waker_ready(&mut self)
        requires
            old(self).mid_step,
        ensures
            *final(self) == (Coroutine { waker_created: true, ..*old(self) }),
    {
        self.waker_created = true;
    }

    /// The step broke off before any poll — the waker could not be created
    /// or refreshed.  The error propagates to the host; the computation is
    /// kept and may be stepped again.
    pub fn step_cancel(&mut self)
        requires
            old(self).mid_step,
        ensures
            *final(self) == (Coroutine { mid_step: false, ..*old(self) }),
    {
        self.mid_step = false;
    }

    /// Second half of one step: the poll's outcome decides.  Pending
    /// suspends — the host receives the waker's yield value.  A ready
    /// outcome drops the computation and returns its value or raises its
    /// error; the coroutine can then never be stepped again.
    pub fn step_finish(&mut self, outcome: PollOutcome) -> (r: StepResult)
        requires
            old(self).mid_step,
        ensures
            *final(self) == finish_spec(*old(self), outcome).0,
            r == finish_spec(*old(self), outcome).1,
            !final(self).mid_step,
            outcome is Pending ==> final(self).live == old(self).live && r
                == StepResult::Yielded,
            outcome matches PollOutcome::Success(v) ==> !final(self).live && r
                == StepResult::Returned(v),
            outcome matches PollOutcome::Failure(e) ==> !final(self).live && r
                == StepResult::Raised(e),
    {
        self.mid_step = false;
        match outcome {
            PollOutcome::Pending => StepResult::Yielded,
            PollOutcome::Success(v) => {
                self.live = false;
                StepResult::Returned(v)
            },
            PollOutcome::Failure(e) => {
                self.live = false;
                StepResult::Raised(e)
            },
        }
    }

    /// Begin closing.  Whatever the answer, the computation counts as
    /// dropped from here on: a later step fails with the reuse error even
    /// if the drain poll raises.
    pub fn close_begin(&mut self) -> (a: CloseAction)
        requires
            !old(self).mid_step,
        ensures
            *final(self) == close_spec(*old(self)).0,
            a == close_spec(*old(self)).1,
            !final(self).live,
            !old(self).live ==> a == CloseAction::AlreadyDone && *final(self) == *old(self),
            old(self).live && old(self).has_callback ==> a == CloseAction::DrainThenDrop,
            old(self).live && !old(self).has_callback ==> a == CloseAction::DropOnly,
    {
        if !self.live {
            CloseAction::AlreadyDone
        } else if self.has_callback {
            self.live = false;
            CloseAction::DrainThenDrop
        } else {
            self.live = false;
            CloseAction::DropOnly
        }
    }

    /// What close reports once the best-effort drain poll has run: an
    /// error raised by the drain is surfaced to the close caller, anything
    /// else is success.  The computation is dropped either way — this
    /// function takes no state on purpose.
    pub fn close_outcome(outcome: PollOutcome) -> (r: Result<(), HostErr>)
        ensures
            r == close_outcome_spec(outcome),
    {
        match outcome {
            PollOutcome::Failure(e) => Err(e),
            _ => Ok(()),
        }
    }
}

/// One step's answer in the host's iteration protocol: a suspension
/// yields the waker's awaitable, completion carries the final value.
#[derive(Clone, Copy, Debug, PartialEq, Eq, Structural)]
pub enum IterNext {
    /// Suspended: the host awaits this object and resumes later.
    Yield(HostObj),
    /// Completed with this value.
    Return(HostObj),
}

/// The distinguished stop signal of the host's iteration protocol,
/// carrying the coroutine's final value.
#[derive(Clone, Copy, Debug, PartialEq, Eq, Structural)]
pub struct StopIteration {
    pub value: HostObj,
}

/// Map a step's answer to the host's send protocol: a yielded object is
/// handed out plainly, completion becomes the stop signal carrying the
/// value.
pub fn poll_result(r: IterNext) -> (out: Result<HostObj, StopIteration>)
    ensures
        r matches IterNext::Yield(ob) ==> out == Ok::<HostObj, StopIteration>(ob),
        r matches IterNext::Return(ob) ==> out == Err::<HostObj, StopIteration>(
            (StopIteration { value: ob }),
        ),
{
    match r {
        IterNext::Yield(ob) => Ok(ob),
        IterNext::Return(ob) => Err(StopIteration { value: ob }),
    }
}

/// Once the computation is gone, it is gone for good: no transition of the
/// engine brings it back, and preparing a step answers the reuse error
/// without touching the state.  Together with `step_prepare` being the
/// only way to a poll plan, the computation is never re-entered.
pub proof fn lemma_dropped_is_sealed(
    c: Coroutine,
    explicit: Option<HostErr>,
    waker_err: Option<HostErr>,
    waker_exclusive: bool,
    outcome: PollOutcome,
)
    ensures
        !c.live ==> prepare_spec(c, explicit, waker_err, waker_exclusive) == (
            c,
            Err::<PollPlan, StepError>(StepError::Reuse),
        ),
        prepare_spec(c, explicit, waker_err, waker_exclusive).0.live ==> c.live,
        finish_spec(c, outcome).0.live ==> c.live,
        close_spec(c).0.live ==> c.live,
{
}

/// Every transition keeps the engine well formed: a step is never left
/// in flight on a dropped computation.
pub proof fn lemma_wf_preserved(
    c: Coroutine,
    explicit: Option<HostErr>,
    waker_err: Option<HostErr>,
    waker_exclusive: bool,
    outcome: PollOutcome,
)
    requires
        c.wf(),
    ensures
        prepare_spec(c, explicit, waker_err, waker_exclusive).0.wf(),
        finish_spec(c, outcome).0.wf(),
        close_spec(c).0.wf(),
{
}

/// No double poll: after a step returns the computation's value, the
/// engine is dead — any further step fails with the reuse error, and no
/// poll plan can ever be issued again.
pub proof fn lemma_no_double_poll(
    c: Coroutine,
    v: HostObj,
    explicit: Option<HostErr>,
    waker_err: Option<HostErr>,
    waker_exclusive: bool,
)
    requires
        c.mid_step,
    ensures
        ({
            let (after, r) = finish_spec(c, PollOutcome::Success(v));
            &&& r == StepResult::Returned(v)
            &&& !after.live
            &&& prepare_spec(after, explicit, waker_err, waker_exclusive) == (
                after,
                Err::<PollPlan, StepError>(StepError::Reuse),
            )
        }),
{
}

/// Close drops unconditionally: after closing, any step fails with the
/// reuse error — whatever the drain poll reported, since the drain's
/// outcome never reaches the state.
pub proof fn lemma_close_drops_unconditionally(
    c: Coroutine,
    explicit: Option<HostErr>,
    waker_err: Option<HostErr>,
    waker_exclusive: bool,
    drain: PollOutcome,
)
    ensures
        !close_spec(c).0.live,
        prepare_spec(close_spec(c).0, explicit, waker_err, waker_exclusive) == (
            close_spec(c).0,
            Err::<PollPlan, StepError>(StepError::Reuse),
        ),
        drain is Failure ==> close_outcome_spec(drain) == Err::<(), HostErr>(drain->Failure_0),
{
}

/// Throw without a callback is immediate: the step fails with exactly the
/// injected error, the computation is dropped, and no poll plan is issued
/// — zero polls occur.
pub proof fn lemma_throw_without_callback_is_immediate(
    c: Coroutine,
    e: HostErr,
    waker_err: Option<HostErr>,
    waker_exclusive: bool,
)
    requires
        c.live,
        !c.has_callback,
    ensures
        ({
            let (after, r) = prepare_spec(c, Some(e), waker_err, waker_exclusive);
            &&& r == Err::<PollPlan, StepError>(StepError::Raise(e))
            &&& !after.live
            &&& !after.mid_step
        }),
{
}

/// Throw with a callback is cooperative: the step never fails up front —
/// the error goes to the callback and the computation is polled.  If the
/// callback converted the error into a value the computation now returns,
/// the step returns exactly that value.
pub proof fn lemma_throw_with_callback_is_cooperative(
    c: Coroutine,
    e: HostErr,
    waker_err: Option<HostErr>,
    waker_exclusive: bool,
    v: HostObj,
)
    requires
        c.live,
        c.has_callback,
    ensures
        ({
            let (mid, r) = prepare_spec(c, Some(e), waker_err, waker_exclusive);
            &&& r matches Ok(plan) && plan.callback_error == Some(e)
            &&& mid.live
            &&& finish_spec(mid, PollOutcome::Success(v)).1 == StepResult::Returned(v)
        }),
{
}

/// A pending poll only suspends: the computation stays held and the next
/// step reaches a poll plan again — a cooperative conversion may take as
/// many suspensions as the computation needs.
pub proof fn lemma_pending_keeps_live(c: Coroutine)
    requires
        c.mid_step,
        c.live,
    ensures
        finish_spec(c, PollOutcome::Pending).0.live,
        finish_spec(c, PollOutcome::Pending).1 == StepResult::Yielded,
        prepare_spec(finish_spec(c, PollOutcome::Pending).0, None, None, true).1 is Ok,
{
}

} // verus!
