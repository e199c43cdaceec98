use service_pre::spawn::restart::{take_to_restart, RestartState};
use service_pre::channels::rc::{LocalRc, LocalRcChannel};
use service_pre::channels::default::DefaultRecv;
use service_pre::channels::void::{NoRecv, NoSend};
use service_pre::spawn::{chained_call, chained_failure, ChainStep};
use service_pre::error::{ErrorKind, ErrorLevel, Result};
use service_pre::spawn::run::SpawnState;
use service_pre::spawn::void::NoYield;
use service_pre::spawn::LoopAction;
use service_pre::{Service, ServiceRestartable, SpawnChannel, SpawnRecv, SpawnSend, SpawnerYield, YieldReturn};

/// Doubles each command; 0 ends the service, 1 asks to yield, 2 is a bug.
struct Double;

impl Service for Double {
    type CommandIn = u32;
    type CommandOut = u32;
    fn call<S: SpawnerYield>(&mut self, req: u32, _y: &mut S) -> Result<u32> {
        match req {
            0 => Err(ErrorKind::EndService.into_error()),
            1 => Err(ErrorKind::Yield.into_error()),
            2 => Err(ErrorKind::Bug("two".to_string()).into_error()),
            n => Ok(n * 2),
        }
    }
}

/// Replies 7 on the first restart and nothing after.
struct Seven(bool);

impl Service for Seven {
    type CommandIn = u32;
    type CommandOut = u32;
    fn call<S: SpawnerYield>(&mut self, req: u32, _y: &mut S) -> Result<u32> {
        Ok(req)
    }
}

impl ServiceRestartable for Seven {
    fn restart<S: SpawnerYield>(&mut self, _y: &mut S) -> Result<Option<u32>> {
        if self.0 {
            Ok(None)
        } else {
            self.0 = true;
            Ok(Some(7))
        }
    }
}

fn is_exit(a: &LoopAction) -> bool {
    matches!(a, LoopAction::Suspend | LoopAction::End(_) | LoopAction::Fail(_) | LoopAction::Abort(_))
}

fn run(
    commands: &[u32],
    first: Option<u32>,
    nb_loop: usize,
    yield_answer: YieldReturn,
) -> (LoopAction, Vec<u32>, usize) {
    let (mut out_s, mut out_r) = LocalRcChannel.new().unwrap();
    let (mut in_s, mut in_r): (LocalRc<u32>, LocalRc<u32>) = LocalRcChannel.new().unwrap();
    for c in commands {
        in_s.send(*c).unwrap();
    }
    let mut service = Double;
    let mut y = NoYield(yield_answer);
    let (mut st, mut a) = SpawnState::<Double>::start::<LocalRc<u32>>(nb_loop, false, first);
    let mut turns = 0;
    while !is_exit(&a) && turns < 1000 {
        a = st.advance(&mut service, &mut out_s, &mut in_r, &mut y);
        turns += 1;
    }
    let mut replies = Vec::new();
    while let Some(r) = out_r.recv().unwrap() {
        replies.push(r);
    }
    (a, replies, st.machine.nb_loop)
}

#[test]
fn serves_its_budget_in_order() {
    let (a, replies, left) = run(&[3, 4, 5], None, 2, YieldReturn::Return);
    assert!(matches!(a, LoopAction::End(Ok(()))));
    assert_eq!(replies, vec![6, 8]);
    assert_eq!(left, 0);
}

#[test]
fn first_command_is_served_first() {
    let (a, replies, _) = run(&[4], Some(3), 2, YieldReturn::Return);
    assert!(matches!(a, LoopAction::End(Ok(()))));
    assert_eq!(replies, vec![6, 8]);
}

#[test]
fn empty_input_suspends_on_return_yield() {
    let (a, replies, left) = run(&[3], None, 5, YieldReturn::Return);
    assert!(matches!(a, LoopAction::Suspend));
    assert_eq!(replies, vec![6]);
    assert_eq!(left, 4);
}

#[test]
fn service_error_ends_it() {
    let (a, replies, _) = run(&[3, 0, 4], None, 0, YieldReturn::Return);
    match a {
        LoopAction::End(Err(e)) => assert!(matches!(e.kind, ErrorKind::EndService)),
        _ => panic!("expected an end with the service error"),
    }
    assert_eq!(replies, vec![6]);
}

#[test]
fn service_yield_suspends_it() {
    let (a, replies, left) = run(&[3, 1, 4], None, 3, YieldReturn::Loop);
    assert!(matches!(a, LoopAction::Suspend));
    assert_eq!(replies, vec![6]);
    assert_eq!(left, 2);
}

#[test]
fn service_bug_aborts() {
    let (a, _, _) = run(&[2], None, 0, YieldReturn::Loop);
    match a {
        LoopAction::Abort(e) => assert_eq!(e.level(), ErrorLevel::Panic),
        _ => panic!("expected an abort"),
    }
}

#[test]
fn output_that_cannot_send_drops_replies() {
    let (_, mut in_r): (LocalRc<u32>, LocalRc<u32>) = LocalRcChannel.new().unwrap();
    let mut out = NoSend;
    let mut service = Double;
    let mut y = NoYield(YieldReturn::Return);
    let (mut st, mut a) = SpawnState::<Double>::start::<NoSend>(2, false, Some(3));
    let mut calls = 0;
    while !is_exit(&a) {
        if matches!(a, LoopAction::Send) {
            panic!("no send is asked of an output that cannot send");
        }
        if matches!(a, LoopAction::Call) {
            calls += 1;
        }
        a = st.advance(&mut service, &mut out, &mut in_r, &mut y);
    }
    assert_eq!(calls, 1);
    assert!(matches!(a, LoopAction::Suspend));
    assert_eq!(st.machine.nb_loop, 1);
}

#[test]
fn restartable_service_replies_on_restart() {
    let (mut out_s, mut out_r): (LocalRc<u32>, LocalRc<u32>) = LocalRcChannel.new().unwrap();
    let (_, mut in_r): (LocalRc<u32>, LocalRc<u32>) = LocalRcChannel.new().unwrap();
    let mut service = Seven(false);
    let mut y = NoYield(YieldReturn::Return);
    let (mut st, mut a) = SpawnState::<Seven>::start::<LocalRc<u32>>(0, true, None);
    while !is_exit(&a) {
        a = st.advance_restartable(&mut service, &mut out_s, &mut in_r, &mut y);
    }
    assert!(matches!(a, LoopAction::Suspend));
    assert_eq!(out_r.recv().unwrap(), Some(7));
    assert_eq!(out_r.recv().unwrap(), None);
}

#[test]
fn default_command_loop_never_yields() {
    let (mut out_s, mut out_r): (LocalRc<u32>, LocalRc<u32>) = LocalRcChannel.new().unwrap();
    let mut input = DefaultRecv(NoRecv, 3u32);
    let mut service = Double;
    let mut y = NoYield(YieldReturn::Return);
    let (mut st, mut a) = SpawnState::<Double>::start::<LocalRc<u32>>(3, false, None);
    while !is_exit(&a) {
        assert!(!matches!(a, LoopAction::Yield | LoopAction::Restart));
        a = st.advance(&mut service, &mut out_s, &mut input, &mut y);
    }
    assert!(matches!(a, LoopAction::End(Ok(()))));
    let mut replies = Vec::new();
    while let Some(r) = out_r.recv().unwrap() {
        replies.push(r);
    }
    assert_eq!(replies, vec![6, 6, 6]);
}

#[test]
fn chained_failures_by_level() {
    assert!(matches!(chained_failure(ErrorKind::Yield.into_error()), ChainStep::YieldInPool(_)));
    assert!(matches!(chained_failure(ErrorKind::Panic("p".to_string()).into_error()), ChainStep::Abort(_)));
    assert!(matches!(chained_failure(ErrorKind::EndService.into_error()), ChainStep::Next(Err(_))));
}

#[test]
fn chained_call_sends_the_reply() {
    let mut q: std::collections::VecDeque<u32> = std::collections::VecDeque::new();
    let mut s = Double;
    let step = chained_call(&mut s, &mut &mut q, Ok(()), 5, &mut NoYield(YieldReturn::Loop));
    assert!(matches!(step, ChainStep::Next(Ok(()))));
    assert_eq!(q, std::collections::VecDeque::from(vec![10u32]));
}

#[test]
fn chained_call_after_a_failure_closes_the_service() {
    let mut q: std::collections::VecDeque<u32> = std::collections::VecDeque::new();
    let mut s = Double;
    let step = chained_call(&mut s, &mut &mut q, Err(ErrorKind::EndService.into_error()), 5, &mut NoYield(YieldReturn::Loop));
    assert!(matches!(step, ChainStep::Next(Err(ref e)) if matches!(e.kind, ErrorKind::EndService)));
    assert!(q.is_empty());
}

#[test]
fn chained_call_failure_by_level() {
    let mut q: std::collections::VecDeque<u32> = std::collections::VecDeque::new();
    let mut s = Double;
    let step = chained_call(&mut s, &mut &mut q, Ok(()), 0, &mut NoYield(YieldReturn::Loop));
    assert!(matches!(step, ChainStep::Next(Err(_))));
    let step = chained_call(&mut s, &mut &mut q, Ok(()), 2, &mut NoYield(YieldReturn::Loop));
    assert!(matches!(step, ChainStep::Abort(_)));
    assert!(q.is_empty());
}

#[test]
fn dispatch_hands_out_commands_in_order() {
    let (mut in_s, mut in_r): (LocalRc<u32>, LocalRc<u32>) = LocalRcChannel.new().unwrap();
    in_s.send(3).unwrap();
    in_s.send(4).unwrap();
    let (machine, mut a) = service_pre::spawn::SpawnLoop::start(2, false, false, false);
    let mut st = SpawnState::<Double> { machine, command: None, reply: None };
    let mut handed = Vec::new();
    let mut y = NoYield(YieldReturn::Loop);
    while !is_exit(&a) {
        let (next, c) = st.dispatch(&mut in_r, &mut y);
        if let Some(c) = c {
            handed.push(c);
        }
        a = next;
    }
    assert_eq!(handed, vec![3, 4]);
    assert!(matches!(a, LoopAction::End(Ok(()))));
}

#[test]
fn restart_state_restarts_only_a_suspended_spawn() {
    let mut st: RestartState<u8, &str> = RestartState::ToRestart(3);
    assert!(!st.is_finished());
    assert_eq!(take_to_restart(&mut st), Some(3));
    assert!(matches!(st, RestartState::Empty));
    assert_eq!(take_to_restart(&mut st), None);
    assert!(matches!(st, RestartState::Empty));
    let mut st: RestartState<u8, &str> = RestartState::Ended("done");
    assert!(st.is_finished());
    assert_eq!(take_to_restart(&mut st), None);
    assert!(matches!(st, RestartState::Ended("done")));
}
