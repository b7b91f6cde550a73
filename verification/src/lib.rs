//! Core logic of a bridge between poll-driven asynchronous computations
//! (futures and streams advanced by explicit polls reporting pending or
//! ready) and a cooperative, generator-based host runtime that drives them
//! through an explicit step/throw/close protocol.
//!
//! The modules here hold the decision logic of the bridge — the coroutine
//! engine, the async-generator engine, the waker backends and the runtime
//! detection — as verified state machines over plain values.  Every call
//! into the host runtime (object construction, method lookup, scheduling)
//! is performed by an embedder, which consults these machines for what to
//! do next and reports back what the host returned.
pub mod adapter;
pub mod allow_threads;
pub mod async_generator;
pub mod coroutine;
pub mod gil;
pub mod host;
pub mod thread_id;
pub mod waker;
