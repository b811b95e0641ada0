use jts::bridge::{outcome_of, JTsRuntimeState, PromiseState, Tick};
use jts::error::EvalError;

#[test]
fn fulfilled_promise_settles_on_first_tick() {
    let mut st: JTsRuntimeState<&str, u32> = JTsRuntimeState::new("ctx");
    assert!(!st.has_pending());
    let (mut rx, sent) = st.start(Ok(5));
    assert!(sent.is_none());
    assert!(rx.try_recv().is_err());
    assert!(st.has_pending());
    assert_eq!(st.pending_promise(), Some(&5));
    let (t, d) = st.poll_tick(PromiseState::Fulfilled);
    assert!(matches!(t, Tick::Settled(Ok(()))));
    assert!(d.is_some());
    assert!(!st.has_pending());
    assert_eq!(rx.try_recv().unwrap(), Ok(()));
}

#[test]
fn pending_promise_keeps_driver_idle() {
    let mut st: JTsRuntimeState<&str, u32> = JTsRuntimeState::new("ctx");
    let (mut rx, _) = st.start(Ok(1));
    assert!(matches!(st.poll_tick(PromiseState::Pending), (Tick::Idle, None)));
    assert!(matches!(st.poll_tick(PromiseState::Pending), (Tick::Idle, None)));
    assert!(st.has_pending());
    assert!(rx.try_recv().is_err());
    assert!(matches!(st.poll_tick(PromiseState::Fulfilled), (Tick::Settled(Ok(())), Some(_))));
    assert!(matches!(st.poll_tick(PromiseState::Fulfilled), (Tick::Done, None)));
    assert_eq!(rx.try_recv().unwrap(), Ok(()));
}

#[test]
fn rejected_promise_is_rejection_error() {
    let mut st: JTsRuntimeState<&str, u32> = JTsRuntimeState::new("ctx");
    let (mut rx, _) = st.start(Ok(1));
    let (t, _) = st.poll_tick(PromiseState::Rejected("nope".to_string()));
    match t {
        Tick::Settled(Err(EvalError::RejectionError(m))) => assert_eq!(m, "nope"),
        other => panic!("unexpected tick {:?}", other),
    }
    assert_eq!(
        rx.try_recv().unwrap(),
        Err(EvalError::RejectionError("nope".to_string()))
    );
    assert!(!st.has_pending());
}

#[test]
fn pipeline_error_is_sent_at_once() {
    let mut st: JTsRuntimeState<&str, u32> = JTsRuntimeState::new("ctx");
    let err = EvalError::RuntimeError("Error: boom".to_string());
    let (mut rx, sent) = st.start(Err(err.clone()));
    assert!(sent.is_some());
    assert!(!st.has_pending());
    assert_eq!(rx.try_recv().unwrap(), Err(err));
    assert!(matches!(st.poll_tick(PromiseState::Pending), (Tick::Done, None)));
}

#[test]
fn teardown_refused_while_outstanding() {
    let mut st: JTsRuntimeState<&str, u32> = JTsRuntimeState::new("ctx");
    assert_eq!(st.global_context(), Some(&"ctx"));
    let (mut rx, _) = st.start(Ok(3));
    let st = match st.teardown() {
        Ok(_) => panic!("teardown must be refused"),
        Err(back) => back,
    };
    let mut st = st;
    st.poll_tick(PromiseState::Fulfilled);
    assert_eq!(rx.try_recv().unwrap(), Ok(()));
    assert!(matches!(st.teardown(), Ok(Some("ctx"))));
}

#[test]
fn outcome_of_each_state() {
    assert_eq!(outcome_of(&PromiseState::Pending), None);
    assert_eq!(outcome_of(&PromiseState::Fulfilled), Some(Ok(())));
    assert_eq!(
        outcome_of(&PromiseState::Rejected("x".to_string())),
        Some(Err(EvalError::RejectionError("x".to_string())))
    );
}

#[test]
fn copied_error_is_equal() {
    let e = EvalError::RejectionError("r".to_string());
    assert_eq!(e.copied(), e);
    assert_eq!(EvalError::CompileError.copied(), EvalError::CompileError);
}

#[test]
fn receiver_gets_exactly_one_value() {
    let mut st: JTsRuntimeState<&str, u32> = JTsRuntimeState::new("ctx");
    let (mut rx, _) = st.start(Err(EvalError::InstantiationError));
    assert_eq!(rx.try_recv().unwrap(), Err(EvalError::InstantiationError));
    assert!(rx.try_recv().is_err());
}
