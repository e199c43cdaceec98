//! One turn of the spawn loop: what the loop waits for is done with the service and its
//! channels, and the loop machine takes what came of it. The spawner repeats turns until the
//! loop is left.
use vstd::prelude::*;

use crate::error::Result;
use crate::error::ErrorLevel;
use crate::spawn::{wait_of, LoopAction, LoopEvent, LoopWait, SpawnLoop};
use crate::{Service, ServiceRestartable, SpawnRecv, SpawnSend, SpawnerYield, YieldEnsures, YieldReturn};

verus! {

/// The event that a reply of the service makes.
pub open spec fn called_event<T>(r: Result<T>) -> LoopEvent {
    match r {
        Ok(_) => LoopEvent::Called(Ok(())),
        Err(e) => LoopEvent::Called(Err(e)),
    }
}

/// A failed call is judged by the service's own error, by its level: an error that ends the
/// action ends the loop with that same error, a yield suspends the service, and a panic level
/// error aborts with it; a reply goes on to its send, or is served.
pub proof fn lemma_call_outcome<T>(m: SpawnLoop, r: Result<T>)
    requires
        m.wait == LoopWait::Call,
    ensures
        r matches Err(e) ==> (e.spec_level() == ErrorLevel::ShutAction <==> m.spec_next(
            called_event(r),
        ).1 == LoopAction::End(Err(e))),
        r matches Err(e) ==> (e.spec_level() == ErrorLevel::Yield <==> m.spec_next(called_event(r)).1
            is Suspend),
        r matches Err(e) ==> (e.spec_level() == ErrorLevel::Panic <==> m.spec_next(
            called_event(r),
        ).1 == LoopAction::Abort(e)),
        r is Ok ==> m.spec_next(called_event(r)) == m.spec_replied(),
{
}

/// The event that a poll of the input channel makes.
pub open spec fn received_event<T>(r: Result<Option<T>>) -> LoopEvent {
    match r {
        Ok(Some(_)) => LoopEvent::Received(Ok(true)),
        Ok(None) => LoopEvent::Received(Ok(false)),
        Err(e) => LoopEvent::Received(Err(e)),
    }
}

/// The event that a restart of the service makes: whether it gave a reply.
pub open spec fn restarted_event<T>(r: Result<Option<T>>) -> LoopEvent {
    LoopEvent::Restarted(r matches Ok(Some(_)))
}

/// The spawn loop of a service: the machine, the command waiting for the service and the reply
/// waiting to be sent.
pub struct SpawnState<S: Service> {
    pub machine: SpawnLoop,
    pub command: Option<<S as Service>::CommandIn>,
    pub reply: Option<<S as Service>::CommandOut>,
}

impl<S: Service> SpawnState<S> {
    /// A command waits exactly when the loop waits for the service's reply to it, and a reply
    /// waits exactly when the loop waits for its send.
    pub open spec fn wf(&self) -> bool {
        &&& (self.machine.wait == LoopWait::Call <==> self.command is Some)
        &&& (self.machine.wait == LoopWait::Send <==> self.reply is Some)
    }

    /// Starts the loop of a service on an output channel of type `D`, with a command or not,
    /// serving `nb_loop` commands (0 for no limit).
    pub fn start<D: SpawnSend<<S as Service>::CommandOut>>(
        nb_loop: usize,
        restartable: bool,
        ocin: Option<<S as Service>::CommandIn>,
    ) -> (r: (SpawnState<S>, LoopAction))
        ensures
            r.0.wf(),
            r.0.machine.nb_loop == nb_loop,
            r.0.machine.restartable == restartable,
            r.0.machine.can_send == D::CAN_SEND,
            r.0.machine.wait == wait_of(r.1),
            r.0.command == ocin,
            ocin is Some ==> r.1 is Call,
            ocin is None ==> r.1 is Recv,
    {
        let has_command = ocin.is_some();
        let (machine, a) = SpawnLoop::start(nb_loop, restartable, D::CAN_SEND, has_command);
        (SpawnState { machine, command: ocin, reply: None }, a)
    }

    /// One turn of the loop, for anything but a restart: call the service with the waiting
    /// command, send the waiting reply, poll the input channel, or yield.
    pub fn advance<D: SpawnSend<<S as Service>::CommandOut>, R: SpawnRecv<<S as Service>::CommandIn>, Y: SpawnerYield>(
        &mut self,
        service: &mut S,
        spawn_out: &mut D,
        recv: &mut R,
        yiel: &mut Y,
    ) -> (a: LoopAction)
        requires
            old(self).wf(),
            old(self).machine.can_send == D::CAN_SEND,
            old(self).machine.wait != LoopWait::Stopped,
            old(self).machine.wait != LoopWait::Restart,
            old(self).machine.wait == LoopWait::Call ==> S::callable(),
        ensures
            final(self).wf(),
            final(self).machine.can_send == D::CAN_SEND,
            final(self).machine.wait == wait_of(a),
            exists|ev: LoopEvent|
                {
                    &&& #[trigger] old(self).machine.accepts(ev)
                    &&& (final(self).machine, a) == old(self).machine.spec_next(ev)
                },
            old(self).machine.wait == LoopWait::Call ==> exists|r0: Result<<S as Service>::CommandOut>|
                {
                    &&& #[trigger] old(service).call_ensures(old(self).command->0, r0)
                    &&& (final(self).machine, a) == old(self).machine.spec_next(called_event(r0))
                    &&& (r0 matches Err(e) ==> (e.spec_level() == ErrorLevel::ShutAction ==> a
                        == LoopAction::End(Err(e))))
                    &&& (r0 matches Err(e) ==> (e.spec_level() == ErrorLevel::Panic ==> a
                        == LoopAction::Abort(e)))
                    &&& (r0 matches Err(e) ==> (e.spec_level() == ErrorLevel::Yield ==> a is Suspend))
                    &&& (r0 matches Ok(o) ==> (final(self).machine.wait == LoopWait::Send
                        ==> final(self).reply == Some(o)))
                },
            old(self).machine.wait == LoopWait::Send ==> exists|r0: Result<()>|
                {
                    &&& #[trigger] old(spawn_out).send_ensures(old(self).reply->0, r0)
                    &&& (final(self).machine, a) == old(self).machine.spec_next(LoopEvent::Sent(r0))
                },
            old(self).machine.wait == LoopWait::Recv ==> exists|r0: Result<Option<<S as Service>::CommandIn>>|
                {
                    &&& #[trigger] old(recv).recv_ensures(r0)
                    &&& (final(self).machine, a) == old(self).machine.spec_next(received_event(r0))
                    &&& (r0 matches Ok(Some(c)) ==> final(self).command == Some(c))
                },
            old(self).machine.wait == LoopWait::Yield ==> exists|y: YieldReturn|
                {
                    &&& #[trigger] (*old(yiel)).yield_ensures(y)
                    &&& (final(self).machine, a) == old(self).machine.spec_next(LoopEvent::Yielded(y))
                },
            old(self).machine.wait == LoopWait::Recv && final(self).command is Some ==> a is Call,
    {
        match self.machine.wait {
            LoopWait::Call => {
                let cin = self.command.take().unwrap();
                let res = service.call(cin, yiel);
                match res {
                    Ok(r) => {
                        let ev = LoopEvent::Called(Ok(()));
                        proof {
                            assert(self.machine.accepts(ev));
                        }
                        let a = self.machine.step(ev);
                        if self.machine.wait == LoopWait::Send {
                            self.reply = Some(r);
                        }
                        a
                    },
                    Err(e) => {
                        let ev = LoopEvent::Called(Err(e));
                        proof {
                            assert(self.machine.accepts(ev));
                        }
                        self.machine.step(ev)
                    },
                }
            },
            LoopWait::Send => {
                let r = self.reply.take().unwrap();
                let res = spawn_out.send(r);
                let ev = LoopEvent::Sent(res);
                proof {
                    assert(self.machine.accepts(ev));
                }
                self.machine.step(ev)
            },
            LoopWait::Recv => {
                match recv.recv() {
                    Ok(Some(c)) => {
                        let ev = LoopEvent::Received(Ok(true));
                        proof {
                            assert(self.machine.accepts(ev));
                        }
                        self.command = Some(c);
                        self.machine.step(ev)
                    },
                    Ok(None) => {
                        let ev = LoopEvent::Received(Ok(false));
                        proof {
                            assert(self.machine.accepts(ev));
                        }
                        self.machine.step(ev)
                    },
                    Err(e) => {
                        let ev = LoopEvent::Received(Err(e));
                        proof {
                            assert(self.machine.accepts(ev));
                        }
                        self.machine.step(ev)
                    },
                }
            },
            _ => {
                let yr = yiel.spawn_yield();
                let ev = LoopEvent::Yielded(yr);
                proof {
                    assert(self.machine.accepts(ev));
                }
                self.machine.step(ev)
            },
        }
    }
}

impl<S: Service> SpawnState<S> {
    /// One turn of a loop whose calls run elsewhere (in a pool): a pending command is handed
    /// out, for the caller to have it served, and counts as served; else the input channel is
    /// polled, or the spawner yields.
    pub fn dispatch<R: SpawnRecv<<S as Service>::CommandIn>, Y: SpawnerYield>(
        &mut self,
        recv: &mut R,
        yiel: &mut Y,
    ) -> (r: (LoopAction, Option<<S as Service>::CommandIn>))
        requires
            old(self).wf(),
            !old(self).machine.can_send,
            old(self).machine.wait == LoopWait::Call || old(self).machine.wait == LoopWait::Recv
                || old(self).machine.wait == LoopWait::Yield,
        ensures
            final(self).wf(),
            !final(self).machine.can_send,
            final(self).machine.wait == wait_of(r.0),
            old(self).machine.wait == LoopWait::Call ==> {
                &&& r.1 == old(self).command
                &&& (final(self).machine, r.0) == old(self).machine.spec_next(LoopEvent::Called(Ok(())))
            },
            old(self).machine.wait != LoopWait::Call ==> r.1 is None,
            old(self).machine.wait == LoopWait::Recv ==> exists|r0: Result<Option<<S as Service>::CommandIn>>|
                {
                    &&& #[trigger] old(recv).recv_ensures(r0)
                    &&& (final(self).machine, r.0) == old(self).machine.spec_next(received_event(r0))
                    &&& (r0 matches Ok(Some(c)) ==> final(self).command == Some(c))
                },
            old(self).machine.wait == LoopWait::Yield ==> exists|y: YieldReturn|
                {
                    &&& #[trigger] (*old(yiel)).yield_ensures(y)
                    &&& (final(self).machine, r.0) == old(self).machine.spec_next(LoopEvent::Yielded(y))
                },
    {
        match self.machine.wait {
            LoopWait::Call => {
                let cin = self.command.take();
                let a = self.machine.step(LoopEvent::Called(Ok(())));
                (a, cin)
            },
            LoopWait::Recv => {
                match recv.recv() {
                    Ok(Some(c)) => {
                        self.command = Some(c);
                        (self.machine.step(LoopEvent::Received(Ok(true))), None)
                    },
                    Ok(None) => (self.machine.step(LoopEvent::Received(Ok(false))), None),
                    Err(e) => (self.machine.step(LoopEvent::Received(Err(e))), None),
                }
            },
            _ => {
                let y = yiel.spawn_yield();
                (self.machine.step(LoopEvent::Yielded(y)), None)
            },
        }
    }
}

impl<S: ServiceRestartable> SpawnState<S> {
    /// One turn of the loop of a restartable service: a restart asks the service for a reply
    /// without a command; any other turn is that of `advance`.
    pub fn advance_restartable<D: SpawnSend<<S as Service>::CommandOut>, R: SpawnRecv<<S as Service>::CommandIn>, Y: SpawnerYield>(
        &mut self,
        service: &mut S,
        spawn_out: &mut D,
        recv: &mut R,
        yiel: &mut Y,
    ) -> (a: LoopAction)
        requires
            old(self).wf(),
            old(self).machine.can_send == D::CAN_SEND,
            old(self).machine.wait != LoopWait::Stopped,
            old(self).machine.wait == LoopWait::Call ==> S::callable(),
        ensures
            final(self).wf(),
            final(self).machine.can_send == D::CAN_SEND,
            final(self).machine.wait == wait_of(a),
            exists|ev: LoopEvent|
                {
                    &&& #[trigger] old(self).machine.accepts(ev)
                    &&& (final(self).machine, a) == old(self).machine.spec_next(ev)
                },
            old(self).machine.wait == LoopWait::Restart ==> exists|r0: Result<Option<<S as Service>::CommandOut>>|
                {
                    &&& #[trigger] old(service).restart_ensures(r0)
                    &&& (final(self).machine, a) == old(self).machine.spec_next(restarted_event(r0))
                    &&& (r0 matches Ok(Some(o)) ==> (final(self).machine.wait == LoopWait::Send
                        ==> final(self).reply == Some(o)))
                },
            old(self).machine.wait == LoopWait::Call ==> exists|r0: Result<<S as Service>::CommandOut>|
                {
                    &&& #[trigger] old(service).call_ensures(old(self).command->0, r0)
                    &&& (final(self).machine, a) == old(self).machine.spec_next(called_event(r0))
                    &&& (r0 matches Err(e) ==> (e.spec_level() == ErrorLevel::ShutAction ==> a
                        == LoopAction::End(Err(e))))
                    &&& (r0 matches Err(e) ==> (e.spec_level() == ErrorLevel::Panic ==> a
                        == LoopAction::Abort(e)))
                    &&& (r0 matches Err(e) ==> (e.spec_level() == ErrorLevel::Yield ==> a is Suspend))
                    &&& (r0 matches Ok(o) ==> (final(self).machine.wait == LoopWait::Send
                        ==> final(self).reply == Some(o)))
                },
            old(self).machine.wait == LoopWait::Send ==> exists|r0: Result<()>|
                {
                    &&& #[trigger] old(spawn_out).send_ensures(old(self).reply->0, r0)
                    &&& (final(self).machine, a) == old(self).machine.spec_next(LoopEvent::Sent(r0))
                },
            old(self).machine.wait == LoopWait::Recv ==> exists|r0: Result<Option<<S as Service>::CommandIn>>|
                {
                    &&& #[trigger] old(recv).recv_ensures(r0)
                    &&& (final(self).machine, a) == old(self).machine.spec_next(received_event(r0))
                    &&& (r0 matches Ok(Some(c)) ==> final(self).command == Some(c))
                },
            old(self).machine.wait == LoopWait::Yield ==> exists|y: YieldReturn|
                {
                    &&& #[trigger] (*old(yiel)).yield_ensures(y)
                    &&& (final(self).machine, a) == old(self).machine.spec_next(LoopEvent::Yielded(y))
                },
    {
        if self.machine.wait == LoopWait::Restart {
            let res = service.restart(yiel);
            proof {
                assert(old(service).restart_ensures(res));
            }
            match res {
                Ok(Some(r)) => {
                    let ev = LoopEvent::Restarted(true);
                    proof {
                        assert(self.machine.accepts(ev));
                    }
                    let a = self.machine.step(ev);
                    if self.machine.wait == LoopWait::Send {
                        self.reply = Some(r);
                    }
                    a
                },
                _ => {
                    let ev = LoopEvent::Restarted(false);
                    proof {
                        assert(self.machine.accepts(ev));
                    }
                    self.machine.step(ev)
                },
            }
        } else {
            self.advance(service, spawn_out, recv, yiel)
        }
    }
}

} // verus!
