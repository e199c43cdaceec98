use service_pre::error::{ErrorKind, ErrorLevel};
use service_pre::spawn::{LoopAction, LoopEvent, LoopWait, SpawnLoop};
use service_pre::YieldReturn;

fn ok() -> service_pre::error::Result<()> {
    Ok(())
}

#[test]
fn start_with_command_calls() {
    let (m, a) = SpawnLoop::start(3, false, true, true);
    assert!(matches!(a, LoopAction::Call));
    assert_eq!(m.wait, LoopWait::Call);
    assert_eq!(m.nb_loop, 3);
}

#[test]
fn start_without_command_polls() {
    let (m, a) = SpawnLoop::start(0, false, true, false);
    assert!(matches!(a, LoopAction::Recv));
    assert_eq!(m.wait, LoopWait::Recv);
}

#[test]
fn budget_of_two_ends_after_two_served() {
    let (mut m, _) = SpawnLoop::start(2, false, true, true);
    assert!(matches!(m.step(LoopEvent::Called(ok())), LoopAction::Send));
    assert!(matches!(m.step(LoopEvent::Sent(ok())), LoopAction::Recv));
    assert_eq!(m.nb_loop, 1);
    assert!(matches!(m.step(LoopEvent::Received(Ok(true))), LoopAction::Call));
    assert!(matches!(m.step(LoopEvent::Called(ok())), LoopAction::Send));
    assert!(matches!(m.step(LoopEvent::Sent(ok())), LoopAction::End(Ok(()))));
    assert_eq!(m.nb_loop, 0);
    assert_eq!(m.wait, LoopWait::Stopped);
}

#[test]
fn unlimited_loop_never_ends_by_count() {
    let (mut m, _) = SpawnLoop::start(0, false, false, true);
    for _ in 0..100 {
        assert!(matches!(m.step(LoopEvent::Called(ok())), LoopAction::Recv));
        assert!(matches!(m.step(LoopEvent::Received(Ok(true))), LoopAction::Call));
    }
    assert_eq!(m.nb_loop, 0);
}

#[test]
fn output_that_cannot_send_serves_at_once() {
    let (mut m, _) = SpawnLoop::start(1, false, false, true);
    assert!(matches!(m.step(LoopEvent::Called(ok())), LoopAction::End(Ok(()))));
}

#[test]
fn yield_error_suspends_with_budget_left() {
    let (mut m, _) = SpawnLoop::start(5, false, true, true);
    let a = m.step(LoopEvent::Called(Err(ErrorKind::Yield.into_error())));
    assert!(matches!(a, LoopAction::Suspend));
    assert_eq!(m.nb_loop, 5);
    assert_eq!(m.wait, LoopWait::Stopped);
}

#[test]
fn panic_error_aborts() {
    let (mut m, _) = SpawnLoop::start(5, false, true, true);
    match m.step(LoopEvent::Called(Err(ErrorKind::Bug("b".to_string()).into_error()))) {
        LoopAction::Abort(e) => assert_eq!(e.level(), ErrorLevel::Panic),
        _ => panic!("expected an abort"),
    }
}

#[test]
fn other_error_ends_the_service_with_it() {
    let (mut m, _) = SpawnLoop::start(5, false, true, true);
    match m.step(LoopEvent::Called(Err(ErrorKind::EndService.into_error()))) {
        LoopAction::End(Err(e)) => assert!(matches!(e.kind, ErrorKind::EndService)),
        _ => panic!("expected an end with the error"),
    }
}

#[test]
fn channel_failures_fail_the_spawn() {
    let (mut m, _) = SpawnLoop::start(0, false, true, false);
    assert!(matches!(m.step(LoopEvent::Received(Err(ErrorKind::ChannelRecv.into_error()))), LoopAction::Fail(_)));
    let (mut m, _) = SpawnLoop::start(0, false, true, true);
    m.step(LoopEvent::Called(ok()));
    assert!(matches!(m.step(LoopEvent::Sent(Err(ErrorKind::ChannelSend("x".to_string()).into_error()))), LoopAction::Fail(_)));
}

#[test]
fn idle_loop_yields_and_return_suspends() {
    let (mut m, _) = SpawnLoop::start(0, false, true, false);
    assert!(matches!(m.step(LoopEvent::Received(Ok(false))), LoopAction::Yield));
    assert!(matches!(m.step(LoopEvent::Yielded(YieldReturn::Loop)), LoopAction::Recv));
    assert!(matches!(m.step(LoopEvent::Received(Ok(false))), LoopAction::Yield));
    assert!(matches!(m.step(LoopEvent::Yielded(YieldReturn::Return)), LoopAction::Suspend));
}

#[test]
fn idle_restartable_loop_restarts_first() {
    let (mut m, _) = SpawnLoop::start(2, true, true, false);
    assert!(matches!(m.step(LoopEvent::Received(Ok(false))), LoopAction::Restart));
    assert!(matches!(m.step(LoopEvent::Restarted(true)), LoopAction::Send));
    assert!(matches!(m.step(LoopEvent::Sent(ok())), LoopAction::Recv));
    assert_eq!(m.nb_loop, 1);
    assert!(matches!(m.step(LoopEvent::Received(Ok(false))), LoopAction::Restart));
    assert!(matches!(m.step(LoopEvent::Restarted(false)), LoopAction::Yield));
}
