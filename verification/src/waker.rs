//! Resumption tokens and their backends.
//!
//! A waker is the per-coroutine token through which a poll-driven
//! computation signals the host that a suspended step may resume.  Two
//! concrete backends exist — one tied to a callback-resolved primitive of an
//! event loop, one tied to an explicit reschedule primitive of a structured
//! concurrency runtime — plus a detecting variant that probes the ambient
//! runtime once and delegates to the matching backend permanently.
//!
//! The machine here decides everything about a wake except the host call
//! itself: which backend primitive to invoke, whether the wake runs on the
//! waker's own thread or must be marshalled across threads, and whether
//! this wake actually resolves the suspension or is a duplicate.  Wakes are
//! idempotent: however many arrive between two steps, the suspension is
//! resolved exactly once.
use vstd::prelude::*;
use vstd::string::*;

verus! {

/// The concrete scheduling style a waker is tied to.
#[derive(Clone, Copy, Debug, PartialEq, Eq, Structural)]
pub enum BackendKind {
    /// Callback-driven event-loop scheduling.
    EventLoop,
    /// Structured-concurrency reschedule primitives.
    StructuredConcurrency,
}

/// The runtime probe reported an identifier no backend matches; waker
/// creation fails before any poll.
#[derive(Clone, Copy, Debug, PartialEq, Eq, Structural)]
pub struct UnsupportedRuntime;

/// Whether a wake may resolve the suspension directly or must be
/// marshalled onto the waker's owning thread.
#[derive(Clone, Copy, Debug, PartialEq, Eq, Structural)]
pub enum WakeRoute {
    /// The waking thread is the one that created the waker.
    Local,
    /// Another thread is waking: dispatch through the backend's
    /// thread-safe scheduling handle.
    CrossThread,
}

/// What the embedder must do for one wake.
#[derive(Clone, Copy, Debug, PartialEq, Eq, Structural)]
pub struct WakeDispatch {
    /// The backend whose primitive performs the wake.
    pub backend: BackendKind,
    /// Local or cross-thread dispatch.
    pub route: WakeRoute,
    /// Whether this wake resolves the suspension.  Duplicate wakes keep
    /// `resolve` false: the suspension is resolved at most once between
    /// two steps.
    pub resolve: bool,
}

/// A resumption token: its backend, the identity of the thread that
/// created it, and whether the current suspension has been resolved.
#[derive(Clone, Copy, Debug, PartialEq, Eq, Structural)]
pub struct Waker {
    /// Chosen at creation, never changed afterwards: every operation of a
    /// detecting waker delegates to this same backend.
    pub backend: BackendKind,
    /// Identity of the creating thread, recorded for wake-path selection.
    pub thread_id: u64,
    /// Whether a wake has already resolved the current suspension.
    pub resolved: bool,
}

/// The backend that serves a given runtime identifier, if any.
pub open spec fn backend_of_runtime(name: Seq<char>) -> Option<BackendKind> {
    if name == "asyncio"@ {
        Some(BackendKind::EventLoop)
    } else if name == "trio"@ {
        Some(BackendKind::StructuredConcurrency)
    } else {
        None
    }
}

/// Character-by-character equality of two string slices.
fn str_eq(a: &str, b: &str) -> (r: bool)
    ensures
        r <==> a@ == b@,
{
    let a_len: usize = a.unicode_len();
    let b_len: usize = b.unicode_len();
    if a_len != b_len {
        return false;
    }
    let mut i: usize = 0;
    while i < a_len
        invariant
            i <= a_len,
            a_len == a@.len(),
            b_len == b@.len(),
            a_len == b_len,
            forall|k: int| 0 <= k < i ==> a@[k] == b@[k],
        decreases a_len - i,
    {
        if a.get_char(i) != b.get_char(i) {
            return false;
        }
        i = i + 1;
    }
    proof {
        assert(a@ =~= b@);
    }
    true
}

/// Map a runtime identifier, as the ambient-runtime probe reports it, to
/// the backend that serves it.  An unrecognized identifier is a fatal,
/// creation-time error.
pub fn detect_backend(runtime: &str) -> (r: Result<BackendKind, UnsupportedRuntime>)
    ensures
        r == (match backend_of_runtime(runtime@) {
            Some(kind) => Ok::<BackendKind, UnsupportedRuntime>(kind),
            None => Err::<BackendKind, UnsupportedRuntime>(UnsupportedRuntime),
        }),
{
    if str_eq(runtime, "asyncio") {
        Ok(BackendKind::EventLoop)
    } else if str_eq(runtime, "trio") {
        Ok(BackendKind::StructuredConcurrency)
    } else {
        Err(UnsupportedRuntime)
    }
}

/// One wake of waker `w` from thread `waking_thread`: the waker afterwards,
/// and the dispatch the embedder must perform.
pub open spec fn wake_spec(w: Waker, waking_thread: u64) -> (Waker, WakeDispatch) {
    (
        Waker { backend: w.backend, thread_id: w.thread_id, resolved: true },
        WakeDispatch {
            backend: w.backend,
            route: if waking_thread == w.thread_id {
                WakeRoute::Local
            } else {
                WakeRoute::CrossThread
            },
            resolve: !w.resolved,
        },
    )
}

/// The waker after a whole burst of wakes, one per entry of `threads`.
pub open spec fn wake_all(w: Waker, threads: Seq<u64>) -> Waker
    decreases threads.len(),
{
    if threads.len() == 0 {
        w
    } else {
        wake_all(wake_spec(w, threads[0]).0, threads.skip(1))
    }
}

/// How many wakes of the burst actually resolve the suspension.
pub open spec fn resolve_count(w: Waker, threads: Seq<u64>) -> nat
    decreases threads.len(),
{
    if threads.len() == 0 {
        0
    } else {
        (if wake_spec(w, threads[0]).1.resolve {
            1nat
        } else {
            0nat
        }) + resolve_count(wake_spec(w, threads[0]).0, threads.skip(1))
    }
}

impl Waker {
    /// A fresh token for the given backend, recording the creating thread.
    /// The suspension starts unresolved.
    pub fn create(backend: BackendKind, thread_id: u64) -> (w: Waker)
        ensures
            w == (Waker { backend, thread_id, resolved: false }),
    {
        Waker { backend, thread_id, resolved: false }
    }

    /// A fresh token whose backend is chosen by probing the ambient
    /// runtime.  The choice is permanent: every later operation of the
    /// token names this backend.  An unrecognized identifier fails here,
    /// before any poll.
    pub fn create_detected(runtime: &str, thread_id: u64) -> (r: Result<Waker, UnsupportedRuntime>)
        ensures
            r == (match backend_of_runtime(runtime@) {
                Some(kind) => Ok::<Waker, UnsupportedRuntime>(
                    Waker { backend: kind, thread_id, resolved: false },
                ),
                None => Err::<Waker, UnsupportedRuntime>(UnsupportedRuntime),
            }),
    {
        match detect_backend(runtime) {
            Ok(kind) => Ok(Waker::create(kind, thread_id)),
            Err(e) => Err(e),
        }
    }

    /// Record one wake from `waking_thread` and say how to dispatch it.
    /// The route is local exactly when the waking thread is the creating
    /// one; only the first wake since the last refresh resolves.
    pub fn wake(&mut self, waking_thread: u64) -> (d: WakeDispatch)
        ensures
            *final(self) == wake_spec(*old(self), waking_thread).0,
            d == wake_spec(*old(self), waking_thread).1,
            final(self).resolved,
            final(self).backend == old(self).backend,
            final(self).thread_id == old(self).thread_id,
            d.backend == old(self).backend,
            d.route == WakeRoute::Local <==> waking_thread == old(self).thread_id,
            d.resolve <==> !old(self).resolved,
    {
        let d = WakeDispatch {
            backend: self.backend,
            route: if waking_thread == self.thread_id {
                WakeRoute::Local
            } else {
                WakeRoute::CrossThread
            },
            resolve: !self.resolved,
        };
        self.resolved = true;
        d
    }

    /// Re-arm the token for the next suspension.  Refreshing replaces the
    /// host-side primitive; here it only marks the suspension unresolved
    /// again.  The backend and the recorded thread stay as they were.
    pub fn refresh(&mut self)
        ensures
            *final(self) == (Waker {
                backend: old(self).backend,
                thread_id: old(self).thread_id,
                resolved: false,
            }),
    {
        self.resolved = false;
    }

    /// The backend whose primitives serve this token: the one chosen at
    /// creation.  The embedder consults this for building the yielded
    /// awaitable and for checking injected errors.
    pub fn delegate(&self) -> (k: BackendKind)
        ensures
            k == self.backend,
    {
        self.backend
    }
}

/// Once resolved, further wakes change nothing: they resolve nothing and
/// leave the token as it is.
pub proof fn lemma_resolved_wakes_are_noops(w: Waker, threads: Seq<u64>)
    requires
        w.resolved,
    ensures
        wake_all(w, threads) == w,
        resolve_count(w, threads) == 0,
    decreases threads.len(),
{
    if threads.len() > 0 {
        assert(wake_spec(w, threads[0]).0 == w);
        lemma_resolved_wakes_are_noops(w, threads.skip(1));
    }
}

/// Idempotent wake: however many wakes (at least one) arrive between two
/// steps, exactly one of them resolves the suspension, and the token ends
/// resolved.  The number of wakes therefore cannot change how many times
/// the host resumes the coroutine.
pub proof fn lemma_wakes_resolve_exactly_once(w: Waker, threads: Seq<u64>)
    requires
        !w.resolved,
        threads.len() >= 1,
    ensures
        wake_all(w, threads).resolved,
        resolve_count(w, threads) == 1,
{
    let after_first = wake_spec(w, threads[0]).0;
    assert(after_first.resolved);
    lemma_resolved_wakes_are_noops(after_first, threads.skip(1));
}

/// Wakes never move a token to another backend or another owning thread:
/// a detecting waker keeps delegating to the backend chosen at creation.
pub proof fn lemma_wakes_preserve_identity(w: Waker, threads: Seq<u64>)
    ensures
        wake_all(w, threads).backend == w.backend,
        wake_all(w, threads).thread_id == w.thread_id,
    decreases threads.len(),
{
    if threads.len() > 0 {
        lemma_wakes_preserve_identity(wake_spec(w, threads[0]).0, threads.skip(1));
    }
}

} // verus!
