use pyo3_async::waker::{
    BackendKind, UnsupportedRuntime, WakeRoute, Waker, detect_backend,
};
use pyo3_async::thread_id::ThreadIdSource;

#[test]
fn many_wakes_resolve_exactly_once() {
    // Five wakes between two steps: only the first resolves; the number
    // of wakes cannot change how often the host resumes.
    let mut w = Waker::create(BackendKind::EventLoop, 0);
    let mut resolutions = 0;
    for _ in 0..5 {
        if w.wake(0).resolve {
            resolutions += 1;
        }
    }
    assert_eq!(resolutions, 1);
}

#[test]
fn refresh_rearms_the_waker() {
    let mut w = Waker::create(BackendKind::EventLoop, 0);
    assert!(w.wake(0).resolve);
    assert!(!w.wake(0).resolve);
    w.refresh();
    assert!(w.wake(0).resolve);
}

#[test]
fn wake_from_creating_thread_is_local() {
    let mut w = Waker::create(BackendKind::StructuredConcurrency, 17);
    assert_eq!(w.wake(17).route, WakeRoute::Local);
}

#[test]
fn wake_from_other_thread_is_cross_thread() {
    let mut w = Waker::create(BackendKind::StructuredConcurrency, 17);
    assert_eq!(w.wake(18).route, WakeRoute::CrossThread);
}

#[test]
fn detect_backend_maps_known_runtimes() {
    assert_eq!(detect_backend("asyncio"), Ok(BackendKind::EventLoop));
    assert_eq!(detect_backend("trio"), Ok(BackendKind::StructuredConcurrency));
}

#[test]
fn detect_backend_rejects_unknown_runtime() {
    assert_eq!(detect_backend("curio"), Err(UnsupportedRuntime));
    assert_eq!(detect_backend(""), Err(UnsupportedRuntime));
    assert_eq!(detect_backend("asyncio2"), Err(UnsupportedRuntime));
    assert_eq!(detect_backend("tri"), Err(UnsupportedRuntime));
}

#[test]
fn detected_waker_uses_only_the_probed_backend() {
    // A probe answering the event-loop runtime: every later operation
    // names that backend and never the other one.
    let mut w = Waker::create_detected("asyncio", 3).unwrap();
    let mut event_loop_ops = 0;
    let mut structured_ops = 0;
    for turn in 0..4 {
        let d = w.wake(if turn % 2 == 0 { 3 } else { 99 });
        match d.backend {
            BackendKind::EventLoop => event_loop_ops += 1,
            BackendKind::StructuredConcurrency => structured_ops += 1,
        }
        w.refresh();
        match w.delegate() {
            BackendKind::EventLoop => event_loop_ops += 1,
            BackendKind::StructuredConcurrency => structured_ops += 1,
        }
    }
    assert_eq!(event_loop_ops, 8);
    assert_eq!(structured_ops, 0);
}

#[test]
fn unrecognized_runtime_fails_at_creation() {
    // Creation fails before any waker exists, so before any poll.
    assert_eq!(Waker::create_detected("runtime-zz", 0), Err(UnsupportedRuntime));
}

#[test]
fn thread_ids_grow_and_never_repeat() {
    let mut source = ThreadIdSource::new();
    let a = source.assign();
    let b = source.assign();
    let c = source.assign();
    assert_eq!(a, 0);
    assert_eq!(b, 1);
    assert_eq!(c, 2);
    assert!(a != b && b != c && a != c);
}
