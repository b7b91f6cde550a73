//! Boundary adapters: host awaitables, futures and async generators seen
//! through the uniform poll contract.
//!
//! These run in the opposite direction of the engines: a host-side
//! awaitable is advanced step by step and its progress converted into
//! pending/ready polls.  The host calls — advancing the awaitable's
//! iterator, reading a future's result, registering a done-callback —
//! belong to the embedder; the machines here decide what each observed
//! event means for the poll contract, converting to a result only at
//! completion and passing pending through untouched.
use vstd::prelude::*;
use crate::host::{HostErr, HostObj};

verus! {

/// What advancing a host awaitable's iterator one step reported.
#[derive(Clone, Copy, Debug, PartialEq, Eq, Structural)]
pub enum AwaitEvent {
    /// The iterator produced another intermediate future: the awaitable
    /// is not finished; a done-callback on that future will wake us.
    Advanced,
    /// The iterator stopped with this final value.
    Finished(HostObj),
    /// The awaitable raised this error.
    Failed(HostErr),
}

/// One poll of an adapted awaitable or future.
#[derive(Clone, Copy, Debug, PartialEq, Eq)]
pub enum AdapterPoll {
    /// Suspend until the registered done-callback fires.
    Suspend,
    /// Ready: the awaitable's value, or its error unchanged.
    Complete(Result<HostObj, HostErr>),
}

/// A host awaitable adapted to the poll contract.  `registered` records
/// whether an intermediate future is pending, so that its result — and
/// any error stored in it — is read before the iterator is advanced
/// again.
#[derive(Clone, Copy, Debug, PartialEq, Eq, Structural)]
pub struct AwaitableWrapper {
    /// An intermediate future from the last advance is outstanding.
    pub registered: bool,
}

impl AwaitableWrapper {
    /// Adapt a host awaitable; nothing is outstanding yet.
    pub fn new() -> (w: AwaitableWrapper)
        ensures
            w == (AwaitableWrapper { registered: false }),
    {
        AwaitableWrapper { registered: false }
    }

    /// Whether this poll must first read the outstanding intermediate
    /// future's result, surfacing any error it stored.
    pub fn check_pending(&self) -> (r: bool)
        ensures
            r == self.registered,
    {
        self.registered
    }

    /// One poll, given what advancing the iterator reported.  Another
    /// intermediate future suspends — the embedder registers the wake
    /// handle as its done-callback; completion or an error resolves the
    /// poll, converting only here.
    pub fn observe(&mut self, ev: AwaitEvent) -> (r: AdapterPoll)
        ensures
            ev is Advanced ==> r == AdapterPoll::Suspend && *final(self) == (AwaitableWrapper {
                registered: true,
            }),
            ev matches AwaitEvent::Finished(v) ==> r == AdapterPoll::Complete(
                Ok::<HostObj, HostErr>(v),
            ) && *final(self) == *old(self),
            ev matches AwaitEvent::Failed(e) ==> r == AdapterPoll::Complete(
                Err::<HostObj, HostErr>(e),
            ) && *final(self) == *old(self),
    {
        match ev {
            AwaitEvent::Advanced => {
                self.registered = true;
                AdapterPoll::Suspend
            },
            AwaitEvent::Finished(v) => AdapterPoll::Complete(Ok(v)),
            AwaitEvent::Failed(e) => AdapterPoll::Complete(Err(e)),
        }
    }
}

/// Cancel-on-drop error handling policy for an adapted host future.
#[derive(Clone, Copy, Debug, PartialEq, Eq, Structural)]
pub enum CancelOnDrop {
    /// A failed cancel call is ignored.
    IgnoreError,
    /// A failed cancel call is a fatal bug.
    PanicOnError,
}

/// What dropping an adapted future must do.
#[derive(Clone, Copy, Debug, PartialEq, Eq, Structural)]
pub struct DropPlan {
    /// Cancel the host future.
    pub cancel: bool,
    /// Treat a failing cancel call as fatal.
    pub panic_on_error: bool,
}

/// A host future adapted to the poll contract, with its cancel-on-drop
/// policy.  The policy is disarmed once the future completes: a finished
/// future is not cancelled.
#[derive(Clone, Copy, Debug, PartialEq, Eq, Structural)]
pub struct FutureWrapper {
    pub cancel_on_drop: Option<CancelOnDrop>,
}

/// What one poll of an adapted future must do next.
#[derive(Clone, Copy, Debug, PartialEq, Eq, Structural)]
pub enum FutureStep {
    /// The future is done: read its result; the poll resolves with it.
    TakeResult,
    /// Not done: register the wake handle as a done-callback and suspend.
    Register,
}

impl FutureWrapper {
    /// Adapt a host future under the given cancel-on-drop policy.
    pub fn new(cancel_on_drop: Option<CancelOnDrop>) -> (w: FutureWrapper)
        ensures
            w == (FutureWrapper { cancel_on_drop }),
    {
        FutureWrapper { cancel_on_drop }
    }

    /// One poll, given whether the host reports the future done.  A done
    /// future disarms the cancel-on-drop policy: its result is owned by
    /// the caller and must not be cancelled away on drop.
    pub fn observe(&mut self, done: bool) -> (r: FutureStep)
        ensures
            done ==> r == FutureStep::TakeResult && *final(self) == (FutureWrapper {
                cancel_on_drop: None,
            }),
            !done ==> r == FutureStep::Register && *final(self) == *old(self),
    {
        if done {
            self.cancel_on_drop = None;
            FutureStep::TakeResult
        } else {
            FutureStep::Register
        }
    }

    /// What dropping the adapter does: cancel exactly when a policy is
    /// still armed, and treat a failing cancel as fatal exactly under the
    /// panicking policy.
    pub fn drop_plan(&self) -> (p: DropPlan)
        ensures
            p.cancel == (self.cancel_on_drop is Some),
            p.panic_on_error == (self.cancel_on_drop == Some(CancelOnDrop::PanicOnError)),
    {
        match self.cancel_on_drop {
            None => DropPlan { cancel: false, panic_on_error: false },
            Some(CancelOnDrop::IgnoreError) => DropPlan { cancel: true, panic_on_error: false },
            Some(CancelOnDrop::PanicOnError) => DropPlan { cancel: true, panic_on_error: true },
        }
    }
}

/// What one fetch from a host async generator reported, once its
/// awaitable resolved.
#[derive(Clone, Copy, Debug, PartialEq, Eq, Structural)]
pub enum AnextEvent {
    /// The generator produced this value.
    Value(HostObj),
    /// The generator signalled exhaustion.
    Ended,
    /// The generator raised this error.
    Failed(HostErr),
}

/// A host async generator adapted to the stream poll contract: items are
/// fetched one at a time through single awaitables.
#[derive(Clone, Copy, Debug, PartialEq, Eq, Structural)]
pub struct AsyncGeneratorWrapper {
    /// A fetch awaitable is in flight.
    pub fetching: bool,
}

impl AsyncGeneratorWrapper {
    /// Adapt a host async generator; no fetch is in flight.
    pub fn new() -> (w: AsyncGeneratorWrapper)
        ensures
            w == (AsyncGeneratorWrapper { fetching: false }),
    {
        AsyncGeneratorWrapper { fetching: false }
    }

    /// Whether this poll must start a new fetch before awaiting one.
    pub fn needs_fetch(&self) -> (r: bool)
        ensures
            r == !self.fetching,
    {
        !self.fetching
    }

    /// A fresh fetch awaitable was obtained from the generator.
    pub fn fetch_started(&mut self)
        ensures
            *final(self) == (AsyncGeneratorWrapper { fetching: true }),
    {
        self.fetching = true;
    }

    /// The in-flight fetch resolved: the stream item it means.  A value
    /// is an item, the exhaustion signal ends the stream, any other error
    /// is an item carrying that error; a new fetch starts next poll.
    pub fn observe(&mut self, ev: AnextEvent) -> (r: Option<Result<HostObj, HostErr>>)
        ensures
            *final(self) == (AsyncGeneratorWrapper { fetching: false }),
            ev matches AnextEvent::Value(v) ==> r == Some(Ok::<HostObj, HostErr>(v)),
            ev is Ended ==> r is None,
            ev matches AnextEvent::Failed(e) ==> r == Some(Err::<HostObj, HostErr>(e)),
    {
        self.fetching = false;
        match ev {
            AnextEvent::Value(v) => Some(Ok(v)),
            AnextEvent::Ended => None,
            AnextEvent::Failed(e) => Some(Err(e)),
        }
    }
}

} // verus!
