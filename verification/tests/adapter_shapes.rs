use pyo3_async::adapter::{
    AdapterPoll, AnextEvent, AsyncGeneratorWrapper, AwaitEvent, AwaitableWrapper, CancelOnDrop,
    FutureStep, FutureWrapper,
};
use pyo3_async::allow_threads::{AllowThreads, AllowThreadsExt};
use pyo3_async::gil::{GilUnbound, UnbindGil};
use pyo3_async::host::{HostErr, HostObj};

#[test]
fn awaitable_suspends_until_finished() {
    let mut w = AwaitableWrapper::new();
    assert!(!w.check_pending());
    assert_eq!(w.observe(AwaitEvent::Advanced), AdapterPoll::Suspend);
    assert!(w.check_pending());
    assert_eq!(
        w.observe(AwaitEvent::Finished(HostObj { id: 5 })),
        AdapterPoll::Complete(Ok(HostObj { id: 5 }))
    );
}

#[test]
fn awaitable_error_passes_unchanged() {
    let mut w = AwaitableWrapper::new();
    let e = HostErr { id: 13 };
    assert_eq!(
        w.observe(AwaitEvent::Failed(e)),
        AdapterPoll::Complete(Err(e))
    );
}

#[test]
fn future_registers_callback_until_done() {
    let mut w = FutureWrapper::new(Some(CancelOnDrop::IgnoreError));
    assert_eq!(w.observe(false), FutureStep::Register);
    assert!(w.drop_plan().cancel);
    assert_eq!(w.observe(true), FutureStep::TakeResult);
    // A finished future is not cancelled when the adapter is dropped.
    assert!(!w.drop_plan().cancel);
}

#[test]
fn drop_plan_follows_the_policy() {
    let none = FutureWrapper::new(None);
    assert!(!none.drop_plan().cancel);
    assert!(!none.drop_plan().panic_on_error);
    let quiet = FutureWrapper::new(Some(CancelOnDrop::IgnoreError));
    assert!(quiet.drop_plan().cancel);
    assert!(!quiet.drop_plan().panic_on_error);
    let strict = FutureWrapper::new(Some(CancelOnDrop::PanicOnError));
    assert!(strict.drop_plan().cancel);
    assert!(strict.drop_plan().panic_on_error);
}

#[test]
fn generator_wrapper_fetches_one_item_at_a_time() {
    let mut w = AsyncGeneratorWrapper::new();
    assert!(w.needs_fetch());
    w.fetch_started();
    assert!(!w.needs_fetch());
    assert_eq!(
        w.observe(AnextEvent::Value(HostObj { id: 1 })),
        Some(Ok(HostObj { id: 1 }))
    );
    assert!(w.needs_fetch());
}

#[test]
fn generator_wrapper_maps_exhaustion_and_errors() {
    let mut w = AsyncGeneratorWrapper::new();
    w.fetch_started();
    assert_eq!(w.observe(AnextEvent::Ended), None);
    w.fetch_started();
    let e = HostErr { id: 2 };
    assert_eq!(w.observe(AnextEvent::Failed(e)), Some(Err(e)));
}

#[test]
fn allow_threads_wraps_and_keeps_the_value() {
    let wrapped: AllowThreads<u32> = 42u32.allow_threads();
    assert_eq!(wrapped.0, 42);
}

#[test]
fn unbind_gil_wraps_and_keeps_the_value() {
    let wrapped: GilUnbound<&str> = "x".unbind_gil();
    assert_eq!(wrapped.0, "x");
}
