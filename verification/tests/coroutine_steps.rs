use pyo3_async::coroutine::{
    CloseAction, Coroutine, IterNext, PollOutcome, StepError, StepResult, StopIteration, WakerOp,
    poll_result,
};
use pyo3_async::host::{HostErr, HostObj};

#[test]
fn pending_once_then_ready_returns_value() {
    // A computation pending once, then ready with 42: the first step
    // yields, the second returns 42, and nothing can be stepped after.
    let mut c = Coroutine::new(false);
    let plan = c.step_prepare(None, None, true).unwrap();
    assert_eq!(plan.waker_op, WakerOp::Create);
    assert_eq!(plan.callback_error, None);
    c.waker_ready();
    assert_eq!(c.step_finish(PollOutcome::Pending), StepResult::Yielded);

    let plan2 = c.step_prepare(None, None, true).unwrap();
    assert_eq!(plan2.waker_op, WakerOp::Refresh);
    assert_eq!(
        c.step_finish(PollOutcome::Success(HostObj { id: 42 })),
        StepResult::Returned(HostObj { id: 42 })
    );
    assert_eq!(c.step_prepare(None, None, true), Err(StepError::Reuse));
}

#[test]
fn step_after_return_fails_with_reuse_error() {
    let mut c = Coroutine::new(false);
    c.step_prepare(None, None, true).unwrap();
    c.waker_ready();
    c.step_finish(PollOutcome::Success(HostObj { id: 7 }));
    assert_eq!(c.step_prepare(None, None, true), Err(StepError::Reuse));
    assert_eq!(c.step_prepare(None, None, true), Err(StepError::Reuse));
}

#[test]
fn step_after_raise_fails_with_reuse_error() {
    let mut c = Coroutine::new(false);
    c.step_prepare(None, None, true).unwrap();
    c.waker_ready();
    assert_eq!(
        c.step_finish(PollOutcome::Failure(HostErr { id: 9 })),
        StepResult::Raised(HostErr { id: 9 })
    );
    assert_eq!(c.step_prepare(None, None, true), Err(StepError::Reuse));
}

#[test]
fn shared_waker_is_recreated_not_refreshed() {
    let mut c = Coroutine::new(false);
    c.step_prepare(None, None, true).unwrap();
    c.waker_ready();
    c.step_finish(PollOutcome::Pending);
    // The host still holds the old token: the plan asks for a new one.
    let plan = c.step_prepare(None, None, false).unwrap();
    assert_eq!(plan.waker_op, WakerOp::Create);
}

#[test]
fn throw_without_callback_is_immediate() {
    // An injected error with no callback fails with exactly that error
    // and no poll plan is ever issued.
    let mut c = Coroutine::new(false);
    let e = HostErr { id: 3 };
    assert_eq!(c.step_prepare(Some(e), None, true), Err(StepError::Raise(e)));
    assert_eq!(c.step_prepare(None, None, true), Err(StepError::Reuse));
}

#[test]
fn throw_with_callback_is_cooperative() {
    // With a callback, the error goes to the callback; a computation that
    // converts it into a value makes the step return that value.
    let mut c = Coroutine::new(true);
    let e = HostErr { id: 4 };
    let plan = c.step_prepare(Some(e), None, true).unwrap();
    assert_eq!(plan.callback_error, Some(e));
    c.waker_ready();
    assert_eq!(
        c.step_finish(PollOutcome::Success(HostObj { id: 11 })),
        StepResult::Returned(HostObj { id: 11 })
    );
}

#[test]
fn waker_surfaced_error_acts_like_explicit_throw() {
    let mut c = Coroutine::new(false);
    c.step_prepare(None, None, true).unwrap();
    c.waker_ready();
    c.step_finish(PollOutcome::Pending);
    assert!(c.wants_waker_check(false));
    let e = HostErr { id: 21 };
    assert_eq!(c.step_prepare(None, Some(e), true), Err(StepError::Raise(e)));
}

#[test]
fn explicit_error_wins_over_waker_error() {
    let mut c = Coroutine::new(true);
    let explicit = HostErr { id: 1 };
    let surfaced = HostErr { id: 2 };
    let plan = c.step_prepare(Some(explicit), Some(surfaced), true).unwrap();
    assert_eq!(plan.callback_error, Some(explicit));
}

#[test]
fn no_waker_check_wanted_with_explicit_error_or_no_waker() {
    let c = Coroutine::new(false);
    assert!(!c.wants_waker_check(true));
    assert!(!c.wants_waker_check(false)); // no waker exists yet
}

#[test]
fn close_with_callback_drains_then_drops() {
    let mut c = Coroutine::new(true);
    assert_eq!(c.close_begin(), CloseAction::DrainThenDrop);
    // The drain raised: the error is surfaced, the computation is still gone.
    let drain_err = HostErr { id: 5 };
    assert_eq!(
        Coroutine::close_outcome(PollOutcome::Failure(drain_err)),
        Err(drain_err)
    );
    assert_eq!(c.step_prepare(None, None, true), Err(StepError::Reuse));
}

#[test]
fn close_without_callback_drops_without_polling() {
    let mut c = Coroutine::new(false);
    assert_eq!(c.close_begin(), CloseAction::DropOnly);
    assert_eq!(c.step_prepare(None, None, true), Err(StepError::Reuse));
}

#[test]
fn close_when_already_completed_does_nothing() {
    let mut c = Coroutine::new(false);
    c.step_prepare(None, None, true).unwrap();
    c.waker_ready();
    c.step_finish(PollOutcome::Success(HostObj { id: 1 }));
    assert_eq!(c.close_begin(), CloseAction::AlreadyDone);
}

#[test]
fn close_drain_value_or_pending_is_quiet() {
    assert_eq!(Coroutine::close_outcome(PollOutcome::Pending), Ok(()));
    assert_eq!(
        Coroutine::close_outcome(PollOutcome::Success(HostObj { id: 8 })),
        Ok(())
    );
}

#[test]
fn cancelled_step_keeps_the_computation() {
    // Waker creation failed: the step breaks off, but the computation
    // survives and may be stepped again.
    let mut c = Coroutine::new(false);
    c.step_prepare(None, None, true).unwrap();
    c.step_cancel();
    let plan = c.step_prepare(None, None, true).unwrap();
    assert_eq!(plan.waker_op, WakerOp::Create);
}

#[test]
fn poll_result_maps_yield_and_return() {
    let ob = HostObj { id: 6 };
    assert_eq!(poll_result(IterNext::Yield(ob)), Ok(ob));
    assert_eq!(
        poll_result(IterNext::Return(ob)),
        Err(StopIteration { value: ob })
    );
}
