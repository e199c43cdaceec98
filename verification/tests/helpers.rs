use service_pre::error::{ErrorKind, TryRecvFailure};
use service_pre::spawn::park::ParkFlag;
use service_pre::spawn::{record_poll, take_state, PollOutcome};
use service_pre::transport::{fill_start, fill_step, read_step, write_step, yield_step, FillEvent, FillStep, IoAttempt, IoStep};
use service_pre::YieldReturn;

#[test]
fn unyield_before_yield_is_not_lost() {
    let mut f = ParkFlag::new();
    assert!(!f.unparked);
    assert!(f.unyield());
    assert!(f.pass());
    assert!(!f.pass());
}

#[test]
fn unyields_coalesce() {
    let mut f = ParkFlag::new();
    assert!(f.unyield());
    assert!(!f.unyield());
    assert!(f.pass());
    assert!(!f.pass());
}

#[test]
fn take_state_of_a_finished_service() {
    let mut slot = Some(7u8);
    assert_eq!(take_state(&mut slot), 7);
    assert_eq!(slot, None);
}

#[test]
fn polls_are_recorded() {
    let mut slot: Option<u8> = None;
    assert!(!record_poll(&mut slot, PollOutcome::NotReady));
    assert_eq!(slot, None);
    assert!(record_poll(&mut slot, PollOutcome::Failed));
    assert_eq!(slot, None);
    assert!(record_poll(&mut slot, PollOutcome::Ready(4)));
    assert_eq!(slot, Some(4));
}

#[test]
fn read_steps() {
    assert_eq!(read_step(IoAttempt::Done(0)), IoStep::Retry);
    assert_eq!(read_step(IoAttempt::Done(5)), IoStep::Give(5));
    assert_eq!(read_step(IoAttempt::WouldBlock), IoStep::Yield);
    assert_eq!(read_step(IoAttempt::Failed), IoStep::Fail);
}

#[test]
fn write_steps() {
    assert_eq!(write_step(IoAttempt::Done(0)), IoStep::Give(0));
    assert_eq!(write_step(IoAttempt::Done(3)), IoStep::Give(3));
    assert_eq!(write_step(IoAttempt::WouldBlock), IoStep::Yield);
    assert_eq!(write_step(IoAttempt::Failed), IoStep::Fail);
    assert_eq!(yield_step(YieldReturn::Return), IoStep::Fail);
    assert_eq!(yield_step(YieldReturn::Loop), IoStep::Retry);
}

#[test]
fn filling_a_buffer() {
    assert_eq!(fill_start(0), FillStep::Done);
    assert_eq!(fill_start(8), FillStep::Continue);
    assert_eq!(fill_step(8, FillEvent::Read(3)), (5, FillStep::Continue));
    assert_eq!(fill_step(5, FillEvent::Interrupted), (5, FillStep::Continue));
    assert_eq!(fill_step(5, FillEvent::Read(0)), (5, FillStep::Continue));
    assert_eq!(fill_step(5, FillEvent::Read(5)), (0, FillStep::Done));
    assert_eq!(fill_step(5, FillEvent::Failed), (5, FillStep::Fail));
}

#[test]
fn display_of_errors() {
    assert_eq!(ErrorKind::Bug("x".to_string()).display_string(), "Bug: 'x'");
    assert_eq!(ErrorKind::Panic("p".to_string()).display_string(), "Panic: 'p'");
    assert_eq!(ErrorKind::ChannelSend("s".to_string()).display_string(), "Channel send error: 's'");
    let io = std::io::Error::new(std::io::ErrorKind::Other, "os");
    let shown = format!("Io: '{:?}'", io);
    assert_eq!(ErrorKind::Io(io).display_string(), shown);
    assert_eq!(ErrorKind::Yield.display_string(), "Yield");
    assert_eq!(ErrorKind::EndService.display_string(), "EndService");
    assert_eq!(ErrorKind::Msg("hello".to_string()).display_string(), "hello");
    assert_eq!(ErrorKind::ChannelRecv.display_string(), std::sync::mpsc::RecvError.to_string());
    assert_eq!(
        ErrorKind::ChannelTryRecv(TryRecvFailure::Empty).display_string(),
        std::sync::mpsc::TryRecvError::Empty.to_string()
    );
    assert_eq!(
        ErrorKind::ChannelTryRecv(TryRecvFailure::Disconnected).display_string(),
        std::sync::mpsc::TryRecvError::Disconnected.to_string()
    );
    assert_eq!(ErrorKind::Yield.into_error().display_string(), "Yield");
}
