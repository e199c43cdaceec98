//! The spawn loop of every spawner, as a machine: the spawner performs what the machine asks
//! (call the service, send its reply, poll the receiver, restart the service, yield) and hands
//! back what came of it; the machine decides what comes next, when the loop is left, and counts
//! the commands served against the spawn's budget.
use vstd::prelude::*;

use crate::error::{Error, ErrorKind, ErrorLevel};
use crate::{Service, SpawnSend, SpawnerYield, YieldReturn};

pub mod park;
pub mod restart;
pub mod run;
pub mod void;

verus! {

/// What the spawn loop waits for.
#[derive(Clone, Copy, Debug, PartialEq, Eq, Structural)]
pub enum LoopWait {
    /// the reply of the service to the pending command
    Call,
    /// the send of the reply on the output channel
    Send,
    /// a poll of the input channel
    Recv,
    /// a restart of the service (no command is pending)
    Restart,
    /// a yield of the spawner
    Yield,
    /// nothing: the loop is left
    Stopped,
}

/// What the spawner does next.
#[derive(Debug)]
pub enum LoopAction {
    /// call the service with the pending command
    Call,
    /// send the reply of the service on the output channel
    Send,
    /// poll the input channel
    Recv,
    /// restart the service without a command
    Restart,
    /// yield
    Yield,
    /// leave the loop, the service is suspended and can be spawned again with the budget left
    Suspend,
    /// leave the loop, the service has ended with this result
    End(crate::error::Result<()>),
    /// leave the loop, and fail the spawn with this error of a channel
    Fail(Error),
    /// leave the loop: the service failed with this panic level error, which ends the program
    Abort(Error),
}

/// What came of the last action.
#[derive(Debug)]
pub enum LoopEvent {
    /// the service replied (`Ok`, the reply is kept by the spawner) or failed
    Called(crate::error::Result<()>),
    /// the reply was sent, or the send failed
    Sent(crate::error::Result<()>),
    /// the poll gave a command (`Ok(true)`), nothing (`Ok(false)`), or failed
    Received(crate::error::Result<bool>),
    /// the restarted service gave a reply (`true`) or not
    Restarted(bool),
    /// the yield returned
    Yielded(YieldReturn),
}

/// The state of a spawn loop.
#[derive(Clone, Copy, Debug)]
pub struct SpawnLoop {
    /// commands left to serve before the loop ends, 0 for no limit
    pub nb_loop: usize,
    /// whether the service can be restarted without a command
    pub restartable: bool,
    /// whether the output channel can send
    pub can_send: bool,
    /// what the loop waits for
    pub wait: LoopWait,
}

/// The wait that goes with an action.
pub open spec fn wait_of(a: LoopAction) -> LoopWait {
    match a {
        LoopAction::Call => LoopWait::Call,
        LoopAction::Send => LoopWait::Send,
        LoopAction::Recv => LoopWait::Recv,
        LoopAction::Restart => LoopWait::Restart,
        LoopAction::Yield => LoopWait::Yield,
        _ => LoopWait::Stopped,
    }
}

/// Whether an action leaves the loop.
pub open spec fn is_exit(a: LoopAction) -> bool {
    a is Suspend || a is End || a is Fail || a is Abort
}

impl SpawnLoop {
    /// The state after a reply was served: one command less in a limited budget, and the loop
    /// ends when the budget is spent.
    pub open spec fn spec_served(self) -> (SpawnLoop, LoopAction) {
        if self.nb_loop > 0 && self.nb_loop - 1 == 0 {
            (SpawnLoop { nb_loop: 0, wait: LoopWait::Stopped, ..self }, LoopAction::End(Ok(())))
        } else if self.nb_loop > 0 {
            (
                SpawnLoop { nb_loop: (self.nb_loop - 1) as usize, wait: LoopWait::Recv, ..self },
                LoopAction::Recv,
            )
        } else {
            (SpawnLoop { wait: LoopWait::Recv, ..self }, LoopAction::Recv)
        }
    }

    /// The state after the service gave a reply: send it if the output can send, else it is
    /// served.
    pub open spec fn spec_replied(self) -> (SpawnLoop, LoopAction) {
        if self.can_send {
            (SpawnLoop { wait: LoopWait::Send, ..self }, LoopAction::Send)
        } else {
            self.spec_served()
        }
    }

    /// The state after the service failed: a yield suspends it, a panic level error aborts,
    /// any other error ends the service with it.
    pub open spec fn spec_failed(self, e: Error) -> (SpawnLoop, LoopAction) {
        let stopped = SpawnLoop { wait: LoopWait::Stopped, ..self };
        match e.spec_level() {
            ErrorLevel::Yield => (stopped, LoopAction::Suspend),
            ErrorLevel::Panic => (stopped, LoopAction::Abort(e)),
            ErrorLevel::ShutAction => (stopped, LoopAction::End(Err(e))),
        }
    }

    /// The state after nothing came from the input channel: restart a restartable service,
    /// else yield.
    pub open spec fn spec_idle(self) -> (SpawnLoop, LoopAction) {
        if self.restartable {
            (SpawnLoop { wait: LoopWait::Restart, ..self }, LoopAction::Restart)
        } else {
            (SpawnLoop { wait: LoopWait::Yield, ..self }, LoopAction::Yield)
        }
    }

    /// Whether the loop waits for this event.
    pub open spec fn accepts(self, ev: LoopEvent) -> bool {
        match ev {
            LoopEvent::Called(_) => self.wait == LoopWait::Call,
            LoopEvent::Sent(_) => self.wait == LoopWait::Send,
            LoopEvent::Received(_) => self.wait == LoopWait::Recv,
            LoopEvent::Restarted(_) => self.wait == LoopWait::Restart,
            LoopEvent::Yielded(_) => self.wait == LoopWait::Yield,
        }
    }

    /// One step of the loop.
    pub open spec fn spec_next(self, ev: LoopEvent) -> (SpawnLoop, LoopAction) {
        let stopped = SpawnLoop { wait: LoopWait::Stopped, ..self };
        match ev {
            LoopEvent::Called(Ok(())) => self.spec_replied(),
            LoopEvent::Called(Err(e)) => self.spec_failed(e),
            LoopEvent::Sent(Ok(())) => self.spec_served(),
            LoopEvent::Sent(Err(e)) => (stopped, LoopAction::Fail(e)),
            LoopEvent::Received(Ok(true)) => (SpawnLoop { wait: LoopWait::Call, ..self }, LoopAction::Call),
            LoopEvent::Received(Ok(false)) => self.spec_idle(),
            LoopEvent::Received(Err(e)) => (stopped, LoopAction::Fail(e)),
            LoopEvent::Restarted(true) => self.spec_replied(),
            LoopEvent::Restarted(false) => (SpawnLoop { wait: LoopWait::Yield, ..self }, LoopAction::Yield),
            LoopEvent::Yielded(YieldReturn::Return) => (stopped, LoopAction::Suspend),
            LoopEvent::Yielded(YieldReturn::Loop) => (SpawnLoop { wait: LoopWait::Recv, ..self }, LoopAction::Recv),
        }
    }

    /// Whether an event counts a served command: a reply that needs no send, or a send that
    /// went through.
    pub open spec fn serves(self, ev: LoopEvent) -> bool {
        match ev {
            LoopEvent::Called(Ok(())) => !self.can_send,
            LoopEvent::Restarted(true) => !self.can_send,
            LoopEvent::Sent(Ok(())) => true,
            _ => false,
        }
    }

    /// Starts a loop: call the service if a command is given, else poll the input channel.
    pub fn start(nb_loop: usize, restartable: bool, can_send: bool, has_command: bool) -> (r: (SpawnLoop, LoopAction))
        ensures
            r.0.nb_loop == nb_loop,
            r.0.restartable == restartable,
            r.0.can_send == can_send,
            has_command ==> r.1 is Call,
            !has_command ==> r.1 is Recv,
            r.0.wait == wait_of(r.1),
    {
        let m = SpawnLoop {
            nb_loop,
            restartable,
            can_send,
            wait: if has_command { LoopWait::Call } else { LoopWait::Recv },
        };
        if has_command {
            (m, LoopAction::Call)
        } else {
            (m, LoopAction::Recv)
        }
    }

    fn served(&mut self) -> (a: LoopAction)
        ensures
            (*final(self), a) == old(self).spec_served(),
    {
        if self.nb_loop > 0 {
            self.nb_loop = self.nb_loop - 1;
            if self.nb_loop == 0 {
                self.wait = LoopWait::Stopped;
                return LoopAction::End(Ok(()));
            }
        }
        self.wait = LoopWait::Recv;
        LoopAction::Recv
    }

    fn replied(&mut self) -> (a: LoopAction)
        ensures
            (*final(self), a) == old(self).spec_replied(),
    {
        if self.can_send {
            self.wait = LoopWait::Send;
            LoopAction::Send
        } else {
            self.served()
        }
    }

    fn failed(&mut self, e: Error) -> (a: LoopAction)
        ensures
            (*final(self), a) == old(self).spec_failed(e),
    {
        self.wait = LoopWait::Stopped;
        match e.level() {
            ErrorLevel::Yield => LoopAction::Suspend,
            ErrorLevel::Panic => LoopAction::Abort(e),
            ErrorLevel::ShutAction => LoopAction::End(Err(e)),
        }
    }

    /// One step: what comes next after the event, which must be what the loop waits for.
    pub fn step(&mut self, ev: LoopEvent) -> (a: LoopAction)
        requires
            old(self).accepts(ev),
        ensures
            (*final(self), a) == old(self).spec_next(ev),
            final(self).wait == wait_of(a),
            final(self).restartable == old(self).restartable,
            final(self).can_send == old(self).can_send,
            a is Send ==> old(self).can_send,
            a is Restart ==> old(self).restartable,
            a is Suspend ==> (ev matches LoopEvent::Called(Err(e)) && e.spec_level() == ErrorLevel::Yield)
                || ev == LoopEvent::Yielded(YieldReturn::Return),
            a matches LoopAction::End(Err(e)) ==> e.spec_level() == ErrorLevel::ShutAction,
            a matches LoopAction::Abort(e) ==> e.spec_level() == ErrorLevel::Panic && (ev matches LoopEvent::Called(
                Err(e2),
            ) && e2 == e),
            a is Fail ==> ev is Sent || ev is Received,
            a matches LoopAction::End(Ok(())) ==> old(self).nb_loop == 1 && final(self).nb_loop == 0,
            !old(self).serves(ev) ==> final(self).nb_loop == old(self).nb_loop,
            old(self).serves(ev) && old(self).nb_loop > 0 ==> final(self).nb_loop == old(self).nb_loop - 1,
            old(self).serves(ev) && old(self).nb_loop == 0 ==> final(self).nb_loop == 0,
    {
        match ev {
            LoopEvent::Called(Ok(())) => self.replied(),
            LoopEvent::Called(Err(e)) => self.failed(e),
            LoopEvent::Sent(Ok(())) => self.served(),
            LoopEvent::Sent(Err(e)) => {
                self.wait = LoopWait::Stopped;
                LoopAction::Fail(e)
            },
            LoopEvent::Received(Ok(true)) => {
                self.wait = LoopWait::Call;
                LoopAction::Call
            },
            LoopEvent::Received(Ok(false)) => {
                if self.restartable {
                    self.wait = LoopWait::Restart;
                    LoopAction::Restart
                } else {
                    self.wait = LoopWait::Yield;
                    LoopAction::Yield
                }
            },
            LoopEvent::Received(Err(e)) => {
                self.wait = LoopWait::Stopped;
                LoopAction::Fail(e)
            },
            LoopEvent::Restarted(true) => self.replied(),
            LoopEvent::Restarted(false) => {
                self.wait = LoopWait::Yield;
                LoopAction::Yield
            },
            LoopEvent::Yielded(YieldReturn::Return) => {
                self.wait = LoopWait::Stopped;
                LoopAction::Suspend
            },
            LoopEvent::Yielded(YieldReturn::Loop) => {
                self.wait = LoopWait::Recv;
                LoopAction::Recv
            },
        }
    }
}


impl SpawnLoop {
    /// Whether the loop, from this state, waits for each event of the run at its turn.
    pub open spec fn accepts_run(self, evs: Seq<LoopEvent>) -> bool
        decreases evs.len(),
    {
        if evs.len() == 0 {
            true
        } else {
            self.accepts(evs[0]) && self.spec_next(evs[0]).0.accepts_run(evs.drop_first())
        }
    }

    /// The state after a run.
    pub open spec fn run(self, evs: Seq<LoopEvent>) -> SpawnLoop
        decreases evs.len(),
    {
        if evs.len() == 0 {
            self
        } else {
            self.spec_next(evs[0]).0.run(evs.drop_first())
        }
    }

    /// The actions that a run asks for, one for each event.
    pub open spec fn actions(self, evs: Seq<LoopEvent>) -> Seq<LoopAction>
        decreases evs.len(),
    {
        if evs.len() == 0 {
            Seq::empty()
        } else {
            seq![self.spec_next(evs[0]).1] + self.spec_next(evs[0]).0.actions(evs.drop_first())
        }
    }

    /// The number of commands that a run serves.
    pub open spec fn served_in(self, evs: Seq<LoopEvent>) -> nat
        decreases evs.len(),
    {
        if evs.len() == 0 {
            0
        } else {
            (if self.serves(evs[0]) { 1nat } else { 0nat }) + self.spec_next(evs[0]).0.served_in(
                evs.drop_first(),
            )
        }
    }
}

proof fn lemma_actions_len(m: SpawnLoop, evs: Seq<LoopEvent>)
    ensures
        m.actions(evs).len() == evs.len(),
        evs.len() > 0 ==> m.actions(evs)[0] == m.spec_next(evs[0]).1,
        forall|i: int|
            0 < i < evs.len() ==> #[trigger] m.actions(evs)[i] == m.spec_next(evs[0]).0.actions(
                evs.drop_first(),
            )[i - 1],
    decreases evs.len(),
{
    if evs.len() > 0 {
        lemma_actions_len(m.spec_next(evs[0]).0, evs.drop_first());
    }
}

proof fn lemma_next_keeps(m: SpawnLoop, ev: LoopEvent)
    requires
        m.accepts(ev),
    ensures
        m.spec_next(ev).0.restartable == m.restartable,
        m.spec_next(ev).0.can_send == m.can_send,
        m.spec_next(ev).0.wait == wait_of(m.spec_next(ev).1),
        m.serves(ev) && m.nb_loop > 0 ==> m.spec_next(ev).0.nb_loop == m.nb_loop - 1,
        m.serves(ev) && m.nb_loop == 0 ==> m.spec_next(ev).0.nb_loop == 0,
        !m.serves(ev) ==> m.spec_next(ev).0.nb_loop == m.nb_loop,
        m.spec_next(ev).1 == LoopAction::End(Ok(())) ==> m.nb_loop == 1 && m.serves(ev),
        m.spec_next(ev).1 is Send ==> m.can_send,
        m.spec_next(ev).1 is Restart ==> m.restartable,
        m.nb_loop > 0 && m.spec_next(ev).0.nb_loop == 0 ==> m.spec_next(ev).0.wait == LoopWait::Stopped,
{
}

proof fn lemma_stopped_accepts_nothing(m: SpawnLoop, evs: Seq<LoopEvent>)
    requires
        m.wait == LoopWait::Stopped,
        m.accepts_run(evs),
    ensures
        evs.len() == 0,
{
    if evs.len() > 0 {
        assert(!m.accepts(evs[0]));
    }
}

/// The budget law: while a limited loop runs, the commands it served and the budget it has
/// left add up to the budget it started with.
pub proof fn lemma_budget(m: SpawnLoop, evs: Seq<LoopEvent>)
    requires
        m.accepts_run(evs),
        m.nb_loop > 0,
    ensures
        m.served_in(evs) + m.run(evs).nb_loop == m.nb_loop,
    decreases evs.len(),
{
    if evs.len() > 0 {
        let m2 = m.spec_next(evs[0]).0;
        lemma_next_keeps(m, evs[0]);
        lemma_actions_len(m, evs);
        assert(m2.accepts_run(evs.drop_first()));
        if m2.nb_loop > 0 {
            lemma_budget(m2, evs.drop_first());
        } else {
            lemma_stopped_accepts_nothing(m2, evs.drop_first());
            assert(m2.served_in(evs.drop_first()) == 0);
            assert(m2.run(evs.drop_first()) == m2);
        }
    }
}

/// A loop started with no limit keeps no limit, and never ends for having served its budget.
pub proof fn lemma_unlimited(m: SpawnLoop, evs: Seq<LoopEvent>)
    requires
        m.accepts_run(evs),
        m.nb_loop == 0,
    ensures
        m.run(evs).nb_loop == 0,
        forall|i: int| 0 <= i < evs.len() ==> m.actions(evs)[i] != LoopAction::End(Ok(())),
    decreases evs.len(),
{
    if evs.len() > 0 {
        let m2 = m.spec_next(evs[0]).0;
        lemma_next_keeps(m, evs[0]);
        lemma_actions_len(m, evs);
        lemma_unlimited(m2, evs.drop_first());
    }
}

/// Once the loop is left it waits for nothing: an exit can only be the last action of a run.
pub proof fn lemma_exit_is_last(m: SpawnLoop, evs: Seq<LoopEvent>, i: int)
    requires
        m.accepts_run(evs),
        0 <= i < evs.len(),
        is_exit(m.actions(evs)[i]),
    ensures
        i == evs.len() - 1,
        m.run(evs).wait == LoopWait::Stopped,
    decreases evs.len(),
{
    let m2 = m.spec_next(evs[0]).0;
    lemma_next_keeps(m, evs[0]);
    lemma_actions_len(m, evs);
    assert(m2.accepts_run(evs.drop_first()));
    if i == 0 {
        lemma_stopped_accepts_nothing(m2, evs.drop_first());
        assert(m2.run(evs.drop_first()) == m2);
    } else {
        lemma_exit_is_last(m2, evs.drop_first(), i - 1);
    }
}

/// A loop that ends for having served its budget was limited, and served exactly its budget.
pub proof fn lemma_end_serves_budget(m: SpawnLoop, evs: Seq<LoopEvent>)
    requires
        m.accepts_run(evs),
        evs.len() > 0,
        m.actions(evs).last() == LoopAction::End(Ok(())),
    ensures
        m.nb_loop > 0,
        m.served_in(evs) == m.nb_loop,
        m.run(evs).nb_loop == 0,
    decreases evs.len(),
{
    let m2 = m.spec_next(evs[0]).0;
    lemma_next_keeps(m, evs[0]);
    lemma_actions_len(m, evs);
    if m.nb_loop == 0 {
        lemma_unlimited(m, evs);
        assert(m.actions(evs)[evs.len() - 1] != LoopAction::End(Ok(())));
    } else if evs.len() == 1 {
        assert(evs.drop_first().len() == 0);
        assert(m2.served_in(evs.drop_first()) == 0);
        assert(m2.run(evs.drop_first()) == m2);
        assert(m.served_in(evs) == 1);
    } else {
        lemma_actions_len(m2, evs.drop_first());
        assert(m.actions(evs).last() == m2.actions(evs.drop_first()).last());
        lemma_end_serves_budget(m2, evs.drop_first());
        lemma_budget(m, evs);
    }
}

/// A loop whose output cannot send never asks for a send, and a loop whose service cannot
/// restart never asks for a restart.
pub proof fn lemma_only_enabled_actions(m: SpawnLoop, evs: Seq<LoopEvent>)
    requires
        m.accepts_run(evs),
    ensures
        forall|i: int| 0 <= i < evs.len() && !m.can_send ==> !(#[trigger] m.actions(evs)[i] is Send),
        forall|i: int| 0 <= i < evs.len() && !m.restartable ==> !(#[trigger] m.actions(evs)[i] is Restart),
        m.run(evs).can_send == m.can_send,
        m.run(evs).restartable == m.restartable,
    decreases evs.len(),
{
    if evs.len() > 0 {
        let m2 = m.spec_next(evs[0]).0;
        lemma_next_keeps(m, evs[0]);
        lemma_actions_len(m, evs);
        lemma_only_enabled_actions(m2, evs.drop_first());
    }
}

/// The state of a run when it reaches its event `i`.
pub open spec fn state_at(m: SpawnLoop, evs: Seq<LoopEvent>, i: int) -> SpawnLoop {
    m.run(evs.take(i))
}

proof fn lemma_run_split(m: SpawnLoop, evs: Seq<LoopEvent>, i: int)
    requires
        m.accepts_run(evs),
        0 <= i < evs.len(),
    ensures
        state_at(m, evs, i).accepts(evs[i]),
        m.actions(evs)[i] == state_at(m, evs, i).spec_next(evs[i]).1,
    decreases evs.len(),
{
    lemma_actions_len(m, evs);
    let m2 = m.spec_next(evs[0]).0;
    let rest = evs.drop_first();
    assert(m2.accepts_run(rest));
    if i == 0 {
        assert(evs.take(0).len() == 0);
        assert(state_at(m, evs, 0) == m);
    } else {
        lemma_run_split(m2, rest, i - 1);
        assert(evs.take(i).drop_first() =~= rest.take(i - 1));
        assert(evs.take(i)[0] == evs[0]);
        assert(state_at(m, evs, i) == m2.run(rest.take(i - 1)));
        assert(rest[i - 1] == evs[i]);
    }
}

/// What leaves a loop suspended: the service asked to yield, or the spawner's yield returned.
/// A spawner whose yield always loops only suspends when its service asks to yield.
pub proof fn lemma_suspend_cause(m: SpawnLoop, evs: Seq<LoopEvent>, i: int)
    requires
        m.accepts_run(evs),
        0 <= i < evs.len(),
        m.actions(evs)[i] is Suspend,
    ensures
        evs[i] == LoopEvent::Yielded(YieldReturn::Return) || (evs[i] matches LoopEvent::Called(Err(e))
            && e.spec_level() == ErrorLevel::Yield),
{
    lemma_run_split(m, evs, i);
}

/// A service ends with an error only with a shut action level error of its own, and the loop
/// aborts only on a panic level error of the service.
pub proof fn lemma_end_and_abort_cause(m: SpawnLoop, evs: Seq<LoopEvent>, i: int)
    requires
        m.accepts_run(evs),
        0 <= i < evs.len(),
    ensures
        m.actions(evs)[i] matches LoopAction::End(Err(e)) ==> e.spec_level() == ErrorLevel::ShutAction
            && evs[i] == LoopEvent::Called(Err(e)),
        m.actions(evs)[i] matches LoopAction::Abort(e) ==> e.spec_level() == ErrorLevel::Panic
            && evs[i] == LoopEvent::Called(Err(e)),
        m.actions(evs)[i] matches LoopAction::Fail(e) ==> evs[i] == LoopEvent::Sent(Err(e))
            || evs[i] == LoopEvent::Received(Err(e)),
{
    lemma_run_split(m, evs, i);
}

/// A loop whose input always has a command (as one with a default command) never yields nor
/// restarts, once it does not wait for a restart.
pub proof fn lemma_never_idle(m: SpawnLoop, evs: Seq<LoopEvent>)
    requires
        m.accepts_run(evs),
        m.wait != LoopWait::Restart,
        forall|i: int| 0 <= i < evs.len() ==> #[trigger] evs[i] != LoopEvent::Received(Ok(false)),
    ensures
        forall|i: int|
            0 <= i < evs.len() ==> !(#[trigger] m.actions(evs)[i] is Yield) && !(m.actions(evs)[i] is Restart),
    decreases evs.len(),
{
    if evs.len() > 0 {
        lemma_actions_len(m, evs);
        lemma_next_keeps(m, evs[0]);
        let m2 = m.spec_next(evs[0]).0;
        let rest = evs.drop_first();
        assert(m2.accepts_run(rest));
        assert forall|i: int| 0 <= i < rest.len() implies #[trigger] rest[i] != LoopEvent::Received(Ok(false)) by {
            assert(rest[i] == evs[i + 1]);
        }
        assert(evs[0] != LoopEvent::Received(Ok(false)));
        lemma_never_idle(m2, rest);
    }
}

/// What one call in a chain of pooled calls gives to the chain.
#[derive(Debug)]
pub enum ChainStep {
    /// the chain goes on with this result: `Ok`, or the failure of the service, after which
    /// the service is closed and no more calls are made
    Next(crate::error::Result<()>),
    /// the reply could not be sent: the chain fails with this error
    SendFailed(Error),
    /// a yield, which a pooled call cannot do: a bug of the implementation, the program ends
    YieldInPool(Error),
    /// a panic level error: the program ends
    Abort(Error),
}

/// What a failure of the service gives to the chain, by its level.
pub open spec fn failure_step(e: Error) -> ChainStep {
    match e.spec_level() {
        ErrorLevel::Yield => ChainStep::YieldInPool(e),
        ErrorLevel::Panic => ChainStep::Abort(e),
        ErrorLevel::ShutAction => ChainStep::Next(Err(e)),
    }
}

/// A failure of a pooled call is sorted by its level alone: an error that ends the action
/// closes the service and the chain goes on with it, whatever its kind; only a panic level
/// error ends the program, and a yield is a bug of the pool.
pub proof fn lemma_failure_step_by_level(e: Error)
    ensures
        e.spec_level() == ErrorLevel::ShutAction <==> failure_step(e) == ChainStep::Next(Err(e)),
        e.spec_level() == ErrorLevel::Panic <==> failure_step(e) == ChainStep::Abort(e),
        e.spec_level() == ErrorLevel::Yield <==> failure_step(e) == ChainStep::YieldInPool(e),
{
}

/// Sorts the failure of a call chained in a pool by its level.
pub fn chained_failure(e: Error) -> (f: ChainStep)
    ensures
        f == failure_step(e),
        e.spec_level() == ErrorLevel::ShutAction ==> f == ChainStep::Next(Err(e)),
        e.spec_level() == ErrorLevel::Panic ==> f == ChainStep::Abort(e),
        e.spec_level() == ErrorLevel::Yield ==> f == ChainStep::YieldInPool(e),
{
    match e.level() {
        ErrorLevel::Yield => ChainStep::YieldInPool(e),
        ErrorLevel::Panic => ChainStep::Abort(e),
        ErrorLevel::ShutAction => ChainStep::Next(Err(e)),
    }
}

/// One call in a chain of pooled calls, after the calls before it ended with `prev`: a service
/// that failed is closed, and the failure is passed on without a call; else the service is
/// called with the command, and its reply sent when the output can send.
pub fn chained_call<S: Service, D: SpawnSend<<S as Service>::CommandOut>, Y: SpawnerYield>(
    service: &mut S,
    spawn_out: &mut D,
    prev: crate::error::Result<()>,
    cin: <S as Service>::CommandIn,
    yiel: &mut Y,
) -> (r: ChainStep)
    requires
        prev is Ok ==> S::callable(),
    ensures
        prev is Err ==> r == ChainStep::Next(prev) && *final(service) == *old(service),
        prev is Err || !D::CAN_SEND ==> *final(spawn_out) == *old(spawn_out),
        prev is Ok ==> exists|r0: crate::error::Result<<S as Service>::CommandOut>|
            {
                &&& #[trigger] old(service).call_ensures(cin, r0)
                &&& (r0 matches Err(e) ==> r == failure_step(e))
                &&& (r0 matches Ok(o) ==> (if D::CAN_SEND {
                    exists|s0: crate::error::Result<()>|
                        {
                            &&& #[trigger] old(spawn_out).send_ensures(o, s0)
                            &&& (s0 is Ok ==> r == ChainStep::Next(Ok(())))
                            &&& (s0 matches Err(e) ==> r == ChainStep::SendFailed(e))
                        }
                } else {
                    r == ChainStep::Next(Ok(()))
                }))
            },
{
    match prev {
        Err(e) => ChainStep::Next(Err(e)),
        Ok(()) => match service.call(cin, yiel) {
            Ok(o) => {
                if D::CAN_SEND {
                    match spawn_out.send(o) {
                        Ok(()) => ChainStep::Next(Ok(())),
                        Err(e) => ChainStep::SendFailed(e),
                    }
                } else {
                    ChainStep::Next(Ok(()))
                }
            },
            Err(e) => chained_failure(e),
        },
    }
}

/// Takes the state that a finished service left for its handle. Asking it of a handle whose
/// service has not left it yet is a misuse, on which the handle panics: the caller checks first.
pub fn take_state<T>(slot: &mut Option<T>) -> (r: T)
    requires
        *old(slot) is Some,
    ensures
        Some(r) == *old(slot),
        *final(slot) == None::<T>,
{
    slot.take().unwrap()
}

/// What a poll of a service running elsewhere gave.
pub enum PollOutcome<T> {
    /// the service ended and left this state
    Ready(T),
    /// the service still runs
    NotReady,
    /// the service failed; the failure is reported when the state is asked for
    Failed,
}

/// Records a poll: a ready state is kept for the handle; a failed service counts as finished.
pub fn record_poll<T>(slot: &mut Option<T>, o: PollOutcome<T>) -> (finished: bool)
    ensures
        o matches PollOutcome::Ready(t) ==> finished && *final(slot) == Some(t),
        o is NotReady ==> !finished && *final(slot) == *old(slot),
        o is Failed ==> finished && *final(slot) == *old(slot),
{
    match o {
        PollOutcome::Ready(t) => {
            *slot = Some(t);
            true
        },
        PollOutcome::NotReady => false,
        PollOutcome::Failed => true,
    }
}

} // verus!
