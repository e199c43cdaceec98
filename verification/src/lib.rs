//! Services: a process (function call, thread, pool task...) that reads commands on a channel and
//! replies on another channel, and that can suspend and be resumed.
//!
//! A service failure is returned to the spawner: it should respawn or close. Command replies and
//! errors are sent on the output channel. A spawner can loop on its input channel, or stop and be
//! restarted later with the state it handed back.
use vstd::prelude::*;

pub mod channels;
pub mod error;
pub mod eventloop;
pub mod noservice;
pub mod spawn;
pub mod transport;

use crate::error::Result;

verus! {

/// A service: a query and an asynchronous reply. The service struct holds its own state.
pub trait Service {
    type CommandIn;
    type CommandOut;

    /// Whether the service may be called at all: any service but one that stands for no
    /// service.
    open spec fn callable() -> bool {
        true
    }

    /// What a service of this crate promises of its reply to `req`; nothing for other services.
    open spec fn call_ensures(&self, req: Self::CommandIn, r: Result<Self::CommandOut>) -> bool {
        true
    }

    /// Always returns a command out; an error is either a yield (the service would block) or an
    /// error that should shut the spawner.
    fn call<S: SpawnerYield>(&mut self, req: Self::CommandIn, async_yield: &mut S) -> (r: Result<
        Self::CommandOut,
    >)
        requires
            Self::callable(),
        ensures
            old(self).call_ensures(req, r),
    ;
}

/// Marker of a service that can be restarted with no request, from its own state.
pub trait ServiceRestartable: Service {
    /// What a restartable service of this crate promises of its reply to a restart; nothing
    /// for other services.
    open spec fn restart_ensures(&self, r: Result<Option<Self::CommandOut>>) -> bool {
        true
    }

    /// Same as `call` without a request; a service with nothing to restart replies without a
    /// command out (`Ok(None)`). Each service writes its own, so that what it replies can be
    /// stated through `restart_ensures` (a default body would have to meet the `restart_ensures`
    /// of every service).
    fn restart<S: SpawnerYield>(&mut self, async_yield: &mut S) -> (r: Result<
        Option<Self::CommandOut>,
    >)
        ensures
            old(self).restart_ensures(r),
    ;
}

/// Spawns a service on an input channel and an output channel.
pub trait Spawner<S: Service, D: SpawnSend<<S as Service>::CommandOut>, R: SpawnRecv<<S as Service>::CommandIn>> {
    type Handle: SpawnHandle<S, D, R>;
    type Yield: SpawnerYield;

    /// `nb_loop` is the number of commands to serve, 0 for no limit.
    fn spawn(
        &mut self,
        service: S,
        spawn_out: D,
        ocin: Option<<S as Service>::CommandIn>,
        rec: R,
        nb_loop: usize,
    ) -> Result<Self::Handle>;
}

/// Management of a spawned service from outside.
pub trait SpawnHandle<Service, Sen, Recv>: SpawnUnyield + SpawnWeakUnyield {
    /// Whether the handle can give its state back: any handle but one whose service never
    /// runs. Asked for the state of a service that has not finished, a handle waits for it or
    /// panics.
    open spec fn can_unwrap(&self) -> bool {
        true
    }

    /// Gives back the service, its channels and how the service ended.
    fn unwrap_state(self) -> Result<(Service, Sen, Recv, Result<()>)>
        requires
            self.can_unwrap(),
    ;
}

pub trait SpawnUnyield {
    /// What a handle of this crate promises of `is_finished`, which returns `r` and leaves the
    /// handle as `after`; nothing for other handles.
    open spec fn finished_ensures(&self, r: bool, after: &Self) -> bool {
        true
    }

    /// What a handle of this crate promises of `unyield`; nothing for other handles.
    open spec fn unyield_ensures(&self, r: Result<()>) -> bool {
        true
    }

    fn is_finished(&mut self) -> (r: bool)
        ensures
            old(self).finished_ensures(r, &*final(self)),
    ;

    /// Resumes a suspended service; called frequently, also when the service is not suspended.
    fn unyield(&mut self) -> (r: Result<()>)
        ensures
            old(self).unyield_ensures(r),
    ;
}

pub trait SpawnWeakUnyield {
    type WeakUnyield: SpawnUnyield + Send + Clone;

    /// not all implementation allow weakhandle
    fn get_weak_unyield(&self) -> Option<Self::WeakUnyield>;
}

/// Suspension of a service from inside.
/// What a yield promises of what it returns: nothing, unless its type says more. A trait of its
/// own, so that a yield behind a reference can say what the yield it refers to says.
pub trait YieldEnsures {
    open spec fn yield_ensures(&self, r: YieldReturn) -> bool {
        true
    }
}

impl<'a, A: YieldEnsures> YieldEnsures for &'a mut A {
    /// What the yield behind the reference promises.
    open spec fn yield_ensures(&self, r: YieldReturn) -> bool {
        (**self).yield_ensures(r)
    }
}

pub trait SpawnerYield: Sized + YieldEnsures {
    /// Suspends the service; what it returns tells the loop to end or to go on.
    fn spawn_yield(&mut self) -> (r: YieldReturn)
        ensures
            old(self).yield_ensures(r),
    ;

    /// spawner yield should be clone but not every implementation can
    fn opt_clone(&mut self) -> Option<Self>;
}

/// What a yield asks of the spawn loop.
#[derive(Clone, Copy, Debug, PartialEq, Eq, Structural)]
pub enum YieldReturn {
    /// end spawn, transmit state to handle
    Return,
    /// retry at the same point
    Loop,
}

/// Builder of a service's send and receive ends.
pub trait SpawnChannel<Command> {
    type WeakSend: SpawnSend<Command> + Send + Clone;
    type Send: SpawnSend<Command> + Clone;
    type Recv: SpawnRecv<Command>;

    /// What a channel builder of this crate promises of the ends it builds; nothing for other
    /// builders.
    open spec fn new_ensures(&self, r: Result<(Self::Send, Self::Recv)>) -> bool {
        true
    }

    /// What a channel builder of this crate promises of the weak send it gives for a send end;
    /// nothing for other builders.
    open spec fn weak_send_ensures(s: &Self::Send, r: Option<Self::WeakSend>) -> bool {
        true
    }

    fn new(&mut self) -> (r: Result<(Self::Send, Self::Recv)>)
        ensures
            old(self).new_ensures(r),
    ;

    fn get_weak_send(s: &Self::Send) -> (r: Option<Self::WeakSend>)
        ensures
            Self::weak_send_ensures(s, r),
    ;
}

/// Sends commands to a service.
pub trait SpawnSend<Command>: Sized {
    /// false when send is disabled; to test before calling `send`
    const CAN_SEND: bool;

    /// What a send end of this crate promises of the send of `c`; nothing for other send ends.
    open spec fn send_ensures(&self, c: Command, r: Result<()>) -> bool {
        true
    }

    fn send(&mut self, c: Command) -> (r: Result<()>)
        ensures
            old(self).send_ensures(c, r),
    ;
}

/// Non blocking receive of commands: `None` when nothing is ready.
pub trait SpawnRecv<Command>: Sized {
    /// What a receiver of this crate promises of what it receives; nothing for other
    /// receivers.
    open spec fn recv_ensures(&self, r: Result<Option<Command>>) -> bool {
        true
    }

    fn recv(&mut self) -> (r: Result<Option<Command>>)
        ensures
            old(self).recv_ensures(r),
    ;
}

impl<'a, A: SpawnerYield> SpawnerYield for &'a mut A {
    #[inline]
    fn spawn_yield(&mut self) -> YieldReturn {
        (**self).spawn_yield()
    }

    #[inline]
    fn opt_clone(&mut self) -> (r: Option<Self>)
        ensures
            r is None,
    {
        None
    }
}

} // verus!
