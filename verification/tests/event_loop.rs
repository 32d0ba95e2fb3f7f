use offst_funder::funder::{EventKind, FunderError, FunderEvent, FunderLoop, LoopAction, LoopInput, LoopStage};

#[test]
fn closed_streams_stop_the_funder() {
    let (mut lp, a) = FunderLoop::new(false);
    assert_eq!(a, LoopAction::AwaitEvent);
    assert_eq!(lp.step(LoopInput::EventArrived(EventKind::IncomingControlClosed)), LoopAction::Fail(FunderError::IncomingControlClosed));
    assert_eq!(lp.stage(), LoopStage::Finished);
    let (mut lp, _) = FunderLoop::new(true);
    assert_eq!(lp.step(LoopInput::EventArrived(EventKind::IncomingCommClosed)), LoopAction::Fail(FunderError::IncomingCommClosed));
    assert!(!lp.expects(LoopInput::EventsEnded));
}

#[test]
fn end_of_events_finishes() {
    let (mut lp, _) = FunderLoop::new(false);
    assert_eq!(lp.step(LoopInput::EventsEnded), LoopAction::Finish);
    assert_eq!(lp.stage(), LoopStage::Finished);
}

#[test]
fn handler_failure_waits_for_next_event() {
    let (mut lp, _) = FunderLoop::new(true);
    assert_eq!(lp.step(LoopInput::EventArrived(EventKind::Incoming)), LoopAction::RunHandler);
    assert_eq!(lp.step(LoopInput::HandlerFailed), LoopAction::AwaitEvent);
    assert_eq!(lp.stage(), LoopStage::AwaitingEvent);
}

#[test]
fn full_round_with_mutations_and_observer() {
    let (mut lp, _) = FunderLoop::new(true);
    assert_eq!(lp.step(LoopInput::EventArrived(EventKind::Incoming)), LoopAction::RunHandler);
    assert_eq!(lp.step(LoopInput::HandlerSucceeded(true)), LoopAction::PersistMutations);
    assert_eq!(lp.step(LoopInput::Persisted(true)), LoopAction::SendComms);
    assert_eq!(lp.step(LoopInput::CommsSent(true)), LoopAction::SendControls);
    assert_eq!(lp.step(LoopInput::ControlsSent(true)), LoopAction::ReportEvent);
    assert_eq!(lp.step(LoopInput::EventReported), LoopAction::AwaitEvent);
}

#[test]
fn round_without_mutations_skips_database() {
    let (mut lp, _) = FunderLoop::new(false);
    lp.step(LoopInput::EventArrived(EventKind::Incoming));
    assert_eq!(lp.step(LoopInput::HandlerSucceeded(false)), LoopAction::SendComms);
    assert_eq!(lp.step(LoopInput::CommsSent(true)), LoopAction::SendControls);
    assert_eq!(lp.step(LoopInput::ControlsSent(true)), LoopAction::AwaitEvent);
}

#[test]
fn send_and_db_failures_stop_the_funder() {
    let (mut lp, _) = FunderLoop::new(false);
    lp.step(LoopInput::EventArrived(EventKind::Incoming));
    lp.step(LoopInput::HandlerSucceeded(true));
    assert_eq!(lp.step(LoopInput::Persisted(false)), LoopAction::Fail(FunderError::DbError));

    let (mut lp, _) = FunderLoop::new(false);
    lp.step(LoopInput::EventArrived(EventKind::Incoming));
    lp.step(LoopInput::HandlerSucceeded(false));
    assert_eq!(lp.step(LoopInput::CommsSent(false)), LoopAction::Fail(FunderError::SendCommError));

    let (mut lp, _) = FunderLoop::new(false);
    lp.step(LoopInput::EventArrived(EventKind::Incoming));
    lp.step(LoopInput::HandlerSucceeded(false));
    lp.step(LoopInput::CommsSent(true));
    assert_eq!(lp.step(LoopInput::ControlsSent(false)), LoopAction::Fail(FunderError::SendControlError));
}

#[test]
fn loop_expects_only_reports_of_its_stage() {
    let (lp, _) = FunderLoop::new(false);
    assert!(lp.expects(LoopInput::EventArrived(EventKind::Incoming)));
    assert!(lp.expects(LoopInput::EventsEnded));
    assert!(!lp.expects(LoopInput::HandlerFailed));
    assert!(!lp.expects(LoopInput::Persisted(true)));
}

#[test]
fn events_give_their_message_or_error() {
    let e: FunderEvent<u32> = FunderEvent::FunderIncoming(5);
    assert_eq!(e.kind(), EventKind::Incoming);
    assert_eq!(e.into_incoming(), Ok(5));
    let e: FunderEvent<u32> = FunderEvent::IncomingControlClosed;
    assert_eq!(e.kind(), EventKind::IncomingControlClosed);
    assert_eq!(e.into_incoming(), Err(FunderError::IncomingControlClosed));
    let e: FunderEvent<u32> = FunderEvent::IncomingCommClosed;
    assert_eq!(e.into_incoming(), Err(FunderError::IncomingCommClosed));
}
