//! A channel whose receiver is registered on an event loop, and whose sender triggers the
//! registration's readiness on each send.
use vstd::prelude::*;

use crate::error::{Error, Result};
use crate::eventloop::{Ready, Registerable, Token, TriggerReady};
use crate::{SpawnRecv, SpawnSend};

verus! {

/// Event loop registrable channel receiver.
pub struct MioRecv<R, H> {
    pub mpsc: R,
    pub reg: H,
}

/// Event loop registrable channel sender.
#[derive(Clone)]
pub struct MioSend<S, T> {
    pub mpsc: S,
    pub set_ready: T,
}

impl<C, R: SpawnRecv<C>, H> SpawnRecv<C> for MioRecv<R, H> {
    /// What the inner receiver gives.
    open spec fn recv_ensures(&self, r: Result<Option<C>>) -> bool {
        self.mpsc.recv_ensures(r)
    }

    fn recv(&mut self) -> Result<Option<C>> {
        self.mpsc.recv()
    }
}

impl<C, S: SpawnSend<C>, T: TriggerReady> SpawnSend<C> for MioSend<S, T> {
    const CAN_SEND: bool = S::CAN_SEND;

    /// The command goes to the inner send end; when that send fails, its failure is the
    /// result; when it goes through, the result is that of setting the registration readable.
    open spec fn send_ensures(&self, c: C, r: Result<()>) -> bool {
        exists|r0: Result<()>|
            {
                &&& #[trigger] self.mpsc.send_ensures(c, r0)
                &&& (r0 matches Err(e) ==> r == Err::<(), Error>(e))
                &&& (r0 is Ok ==> self.set_ready.trigger_ensures(Ready::Readable, r))
            }
    }

    /// Sends, then sets the registration readable.
    fn send(&mut self, t: C) -> Result<()> {
        match self.mpsc.send(t) {
            Err(e) => Err(e),
            Ok(()) => self.set_ready.set_readiness(Ready::Readable),
        }
    }
}

impl<PO, R, H: Registerable<PO>> Registerable<PO> for MioRecv<R, H> {
    /// What the registration gives.
    open spec fn register_ensures(&self, r: Result<bool>) -> bool {
        self.reg.register_ensures(r)
    }

    /// What the registration gives.
    open spec fn deregister_ensures(&self, r: Result<()>) -> bool {
        self.reg.deregister_ensures(r)
    }

    fn register(&self, p: &PO, t: Token, r: Ready) -> Result<bool> {
        self.reg.register(p, t, r)
    }

    fn reregister(&self, p: &PO, t: Token, r: Ready) -> Result<bool> {
        self.reg.reregister(p, t, r)
    }

    fn deregister(&self, p: &PO) -> Result<()> {
        self.reg.deregister(p)
    }
}

/// A registrable send end can send exactly when its inner send end can.
pub proof fn lemma_mio_send_can_send<C, S: SpawnSend<C>, T: TriggerReady>()
    ensures
        <MioSend<S, T> as SpawnSend<C>>::CAN_SEND == <S as SpawnSend<C>>::CAN_SEND,
{
}

} // verus!
