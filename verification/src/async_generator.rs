//! The async-generator engine.
//!
//! A generator wraps a poll-based stream behind successive single-shot
//! coroutines: each `next` hands the host a fresh coroutine whose whole
//! job is one fetch from the shared stream.  The stream handle is owned by
//! one party at a time — the generator, or the single in-flight fetch —
//! and is cleared for good on exhaustion or close, after which every fetch
//! fails with the iteration-stopped signal.
//!
//! As with the coroutine engine, the stream itself and the host calls live
//! with the embedder.  The machine here decides what a fetch does for each
//! possible stream event, and what `next`, `throw` and `close` ask the
//! embedder to build.
use vstd::prelude::*;
use crate::host::{HostErr, HostObj};

verus! {

/// The decision state of one wrapped stream: `Open → Exhausted`, with
/// `Exhausted` terminal.
#[derive(Clone, Copy, Debug, PartialEq, Eq, Structural)]
pub struct AsyncGenerator {
    /// The shared stream handle still holds the stream.  Cleared on
    /// exhaustion and on close; never set again.
    pub stream_live: bool,
    /// A throw-callback is registered: injected errors and close are
    /// announced to it before fetching.
    pub has_callback: bool,
}

/// Description of one single-shot fetch coroutine.
#[derive(Clone, Copy, Debug, PartialEq, Eq, Structural)]
pub struct FetchTicket {
    /// A closing fetch clears the stream handle as soon as it resolves,
    /// draining at most one item or the termination signal.
    pub close: bool,
}

/// What one poll of the stream reported to the in-flight fetch.
#[derive(Clone, Copy, Debug, PartialEq, Eq, Structural)]
pub enum StreamEvent {
    /// Not ready; the stream holds the wake handle.
    Pending,
    /// One item, produced successfully.
    Item(HostObj),
    /// One item slot, carrying an error the stream raised.
    Error(HostErr),
    /// The stream is exhausted.
    Exhausted,
}

/// Why a fetch fails.
#[derive(Clone, Copy, Debug, PartialEq, Eq, Structural)]
pub enum GenError {
    /// The distinguished iteration-stopped signal: the stream is
    /// exhausted, or was already gone when the fetch ran.
    IterationStopped,
    /// An error of the stream itself, propagated unchanged.
    Host(HostErr),
}

/// What the in-flight fetch does after looking at the stream.
#[derive(Clone, Copy, Debug, PartialEq, Eq)]
pub enum FetchResult {
    /// Suspend; the lock on the stream handle is released until the next
    /// poll, so a wake arriving mid-fetch cannot deadlock.
    Suspend,
    /// The fetch resolves with an item or a failure.
    Complete(Result<HostObj, GenError>),
}

/// What `throw` hands to the host.
#[derive(Clone, Copy, Debug, PartialEq, Eq, Structural)]
pub enum ThrowPlan {
    /// No callback: a coroutine that raises exactly this error without
    /// touching the stream.
    Immediate(HostErr),
    /// Invoke the callback with this error, then fetch as `next` would.
    CallbackThenFetch(HostErr, FetchTicket),
}

/// What `close` hands to the host.
#[derive(Clone, Copy, Debug, PartialEq, Eq, Structural)]
pub struct ClosePlan {
    /// Invoke the callback with no error first.
    pub invoke_callback: bool,
    /// Then run a closing fetch: it drains exactly one item or the
    /// termination signal, and the handle clears once it resolves.
    pub fetch: FetchTicket,
}

/// A fetch that finds the handle already cleared resolves at once with
/// the iteration-stopped signal and polls nothing.
pub open spec fn fetch_begin_spec(g: AsyncGenerator) -> Option<FetchResult> {
    if g.stream_live {
        None
    } else {
        Some(FetchResult::Complete(Err(GenError::IterationStopped)))
    }
}

/// What a fetch does with one stream event: the generator afterwards and
/// the fetch's answer.
pub open spec fn fetch_finish_spec(g: AsyncGenerator, close: bool, ev: StreamEvent) -> (
    AsyncGenerator,
    FetchResult,
) {
    match ev {
        StreamEvent::Pending => (g, FetchResult::Suspend),
        StreamEvent::Item(v) => (
            AsyncGenerator { stream_live: g.stream_live && !close, ..g },
            FetchResult::Complete(Ok(v)),
        ),
        StreamEvent::Error(e) => (
            AsyncGenerator { stream_live: g.stream_live && !close, ..g },
            FetchResult::Complete(Err(GenError::Host(e))),
        ),
        StreamEvent::Exhausted => (
            AsyncGenerator { stream_live: false, ..g },
            FetchResult::Complete(Err(GenError::IterationStopped)),
        ),
    }
}

impl AsyncGenerator {
    /// A fresh generator holding its stream, with or without a
    /// throw-callback.
    pub fn new(has_callback: bool) -> (g: AsyncGenerator)
        ensures
            g == (AsyncGenerator { stream_live: true, has_callback }),
    {
        AsyncGenerator { stream_live: true, has_callback }
    }

    /// First half of one fetch, run under the stream-handle lock.  If the
    /// handle was already cleared the fetch resolves here, with the
    /// iteration-stopped signal, and the stream is not polled; otherwise
    /// the embedder polls the stream once and reports to `fetch_finish`.
    pub fn fetch_begin(&self) -> (r: Option<FetchResult>)
        ensures
            r == fetch_begin_spec(*self),
            self.stream_live <==> r is None,
            !self.stream_live ==> r == Some(
                FetchResult::Complete(Err::<HostObj, GenError>(GenError::IterationStopped)),
            ),
    {
        if self.stream_live {
            None
        } else {
            Some(FetchResult::Complete(Err(GenError::IterationStopped)))
        }
    }

    /// Second half of one fetch: the stream's event decides.  An item —
    /// value or stream error — resolves the fetch with it, clearing the
    /// handle when this is a closing fetch; exhaustion clears the handle
    /// and resolves with the iteration-stopped signal; pending suspends
    /// with the handle untouched.
    pub fn fetch_finish(&mut self, close: bool, ev: StreamEvent) -> (r: FetchResult)
        requires
            old(self).stream_live,
        ensures
            *final(self) == fetch_finish_spec(*old(self), close, ev).0,
            r == fetch_finish_spec(*old(self), close, ev).1,
            ev is Pending ==> r == FetchResult::Suspend && *final(self) == *old(self),
            ev matches StreamEvent::Item(v) ==> r == FetchResult::Complete(
                Ok::<HostObj, GenError>(v),
            ) && final(self).stream_live == !close,
            ev matches StreamEvent::Error(e) ==> r == FetchResult::Complete(
                Err::<HostObj, GenError>(GenError::Host(e)),
            ) && final(self).stream_live == !close,
            ev is Exhausted ==> r == FetchResult::Complete(
                Err::<HostObj, GenError>(GenError::IterationStopped),
            ) && !final(self).stream_live,
    {
        match ev {
            StreamEvent::Pending => FetchResult::Suspend,
            StreamEvent::Item(v) => {
                if close {
                    self.stream_live = false;
                }
                FetchResult::Complete(Ok(v))
            },
            StreamEvent::Error(e) => {
                if close {
                    self.stream_live = false;
                }
                FetchResult::Complete(Err(GenError::Host(e)))
            },
            StreamEvent::Exhausted => {
                self.stream_live = false;
                FetchResult::Complete(Err(GenError::IterationStopped))
            },
        }
    }

    /// One `next`: a fresh single-shot fetch coroutine, not a closing one.
    /// The generator's own state is untouched — only the fetch itself,
    /// once resolved, may clear the handle.
    pub fn next(&self) -> (t: FetchTicket)
        ensures
            t == (FetchTicket { close: false }),
    {
        FetchTicket { close: false }
    }

    /// One `throw`: without a callback, the host receives a coroutine
    /// raising exactly the injected error and the stream is not touched;
    /// with one, the callback sees the error and an ordinary fetch
    /// follows.
    pub fn throw(&self, exc: HostErr) -> (p: ThrowPlan)
        ensures
            !self.has_callback ==> p == ThrowPlan::Immediate(exc),
            self.has_callback ==> p == ThrowPlan::CallbackThenFetch(
                exc,
                FetchTicket { close: false },
            ),
    {
        if self.has_callback {
            ThrowPlan::CallbackThenFetch(exc, FetchTicket { close: false })
        } else {
            ThrowPlan::Immediate(exc)
        }
    }

    /// One `close`: announce it to the callback if one is registered, then
    /// run a closing fetch, which forces the handle to clear once the
    /// in-flight fetch resolves.
    pub fn close(&self) -> (p: ClosePlan)
        ensures
            p == (ClosePlan {
                invoke_callback: self.has_callback,
                fetch: FetchTicket { close: true },
            }),
    {
        ClosePlan { invoke_callback: self.has_callback, fetch: FetchTicket { close: true } }
    }
}

/// Exhaustion is sticky: no transition of the engine revives a cleared
/// handle, and every fetch that starts on a cleared handle resolves with
/// the iteration-stopped signal without polling the stream.
pub proof fn lemma_exhaustion_sticky(g: AsyncGenerator, close: bool, ev: StreamEvent)
    ensures
        fetch_finish_spec(g, close, ev).0.stream_live ==> g.stream_live,
        !g.stream_live ==> fetch_begin_spec(g) == Some(
            FetchResult::Complete(Err::<HostObj, GenError>(GenError::IterationStopped)),
        ),
{
}

/// Ordering: a stream that yields three items and then exhausts hands
/// them out in order across three resolve cycles; the fourth fetch
/// resolves with the iteration-stopped signal and clears the handle, and
/// every later fetch resolves with it too, before any poll.
pub proof fn lemma_stream_order(g0: AsyncGenerator, a: HostObj, b: HostObj, c: HostObj)
    requires
        g0.stream_live,
    ensures
        ({
            let (g1, r1) = fetch_finish_spec(g0, false, StreamEvent::Item(a));
            let (g2, r2) = fetch_finish_spec(g1, false, StreamEvent::Item(b));
            let (g3, r3) = fetch_finish_spec(g2, false, StreamEvent::Item(c));
            let (g4, r4) = fetch_finish_spec(g3, false, StreamEvent::Exhausted);
            &&& r1 == FetchResult::Complete(Ok::<HostObj, GenError>(a))
            &&& r2 == FetchResult::Complete(Ok::<HostObj, GenError>(b))
            &&& r3 == FetchResult::Complete(Ok::<HostObj, GenError>(c))
            &&& g1.stream_live && g2.stream_live && g3.stream_live
            &&& r4 == FetchResult::Complete(Err::<HostObj, GenError>(GenError::IterationStopped))
            &&& !g4.stream_live
            &&& fetch_begin_spec(g4) == Some(
                FetchResult::Complete(Err::<HostObj, GenError>(GenError::IterationStopped)),
            )
        }),
{
}

/// A closing fetch drains exactly one item — or the termination signal —
/// and never lets the stream be polled again: whatever it resolves with,
/// the handle is cleared, so every later fetch stops before polling.
pub proof fn lemma_close_drains_exactly_once(g: AsyncGenerator, ev: StreamEvent)
    requires
        g.stream_live,
        ev is Item || ev is Error || ev is Exhausted,
    ensures
        fetch_finish_spec(g, true, ev).1 is Complete,
        !fetch_finish_spec(g, true, ev).0.stream_live,
        fetch_begin_spec(fetch_finish_spec(g, true, ev).0) == Some(
            FetchResult::Complete(Err::<HostObj, GenError>(GenError::IterationStopped)),
        ),
{
}

} // verus!
