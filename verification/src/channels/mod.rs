//! Channels that work with any spawner.
use vstd::prelude::*;

use crate::error::{Error, Result};
use crate::{SpawnSend, SpawnUnyield};

use std::collections::VecDeque;

pub mod default;
pub mod evented;
pub mod mio_channel;
pub mod mpsc;
pub mod rc;
pub mod void;

pub use self::default::{DefaultRecv, DefaultRecvChannel};
pub use self::evented::{MioRecv, MioSend};

verus! {

/// Local send, for a spawn on the same thread: the command is pushed at the front of the queue.
impl<'a, C> SpawnSend<C> for &'a mut VecDeque<C> {
    const CAN_SEND: bool = true;

    /// Pushing never fails.
    open spec fn send_ensures(&self, c: C, r: Result<()>) -> bool {
        r is Ok
    }

    fn send(&mut self, c: C) -> (r: Result<()>)
        ensures
            r is Ok,
            (**final(self))@ == seq![c] + (**old(self))@,
    {
        (**self).push_front(c);
        Ok(())
    }
}

/// A send end together with the handle of the service that reads it: each send resumes the
/// service.
#[derive(Clone)]
pub struct HandleSend<S, H: SpawnUnyield>(pub S, pub H);

impl<C, S: SpawnSend<C>, H: SpawnUnyield> SpawnSend<C> for HandleSend<S, H> {
    const CAN_SEND: bool = S::CAN_SEND;

    /// The command goes to the inner send end; when that send fails, its failure is the
    /// result and the service is not resumed; else the result is that of resuming the service.
    open spec fn send_ensures(&self, c: C, r: Result<()>) -> bool {
        exists|r0: Result<()>|
            {
                &&& #[trigger] self.0.send_ensures(c, r0)
                &&& (r0 matches Err(e) ==> r == Err::<(), Error>(e))
                &&& (r0 is Ok ==> self.1.unyield_ensures(r))
            }
    }

    fn send(&mut self, t: C) -> (r: Result<()>) {
        match self.0.send(t) {
            Err(e) => Err(e),
            Ok(()) => self.1.unyield(),
        }
    }
}

/// What `send_with_handle` does, given what the handle said of its service (`finished`), the
/// handle it then was (`h1`) and the handle it ends as (`h2`): give the command back when the
/// service is finished or the send end cannot send, with the handle left alone; else send it,
/// and when the send went through resume the service through `h1`. The result is the first
/// failure, or `Ok(None)`; after a failed send the handle is left alone.
pub open spec fn send_with_handle_ensures<S: SpawnSend<C>, H: SpawnUnyield, C>(
    s0: S,
    s1: S,
    finished: bool,
    h1: H,
    h2: H,
    command: C,
    r: Result<Option<C>>,
) -> bool {
    if finished || !S::CAN_SEND {
        r == Ok::<Option<C>, Error>(Some(command)) && s1 == s0 && h2 == h1
    } else {
        exists|r0: Result<()>|
            {
                &&& #[trigger] s0.send_ensures(command, r0)
                &&& (r0 matches Err(e) ==> r == Err::<Option<C>, Error>(e) && h2 == h1)
                &&& (r0 is Ok ==> exists|u: Result<()>|
                    {
                        &&& #[trigger] h1.unyield_ensures(u)
                        &&& (u matches Err(e) ==> r == Err::<Option<C>, Error>(e))
                        &&& (u is Ok ==> r == Ok::<Option<C>, Error>(None))
                    })
            }
    }
}

/// A finished service gets no command: whatever the send end, the command is given back and
/// nothing is sent nor resumed; a running service behind a send end that can send never gives
/// the command back (it is sent, or the send or the resume failed).
pub proof fn lemma_finished_gives_back<S: SpawnSend<C>, H: SpawnUnyield, C>(
    s0: S,
    s1: S,
    finished: bool,
    h1: H,
    h2: H,
    command: C,
    r: Result<Option<C>>,
)
    requires
        send_with_handle_ensures::<S, H, C>(s0, s1, finished, h1, h2, command, r),
    ensures
        finished ==> r == Ok::<Option<C>, Error>(Some(command)) && s1 == s0 && h2 == h1,
        !finished && S::CAN_SEND ==> !(r matches Ok(Some(_))),
{
}

/// Sends the command and resumes the service, or, when the service is finished or the send end
/// cannot send, gives the command back.
#[inline]
pub fn send_with_handle<S: SpawnSend<C>, H: SpawnUnyield, C>(s: &mut S, h: &mut H, command: C) -> (r:
    Result<Option<C>>)
    ensures
        exists|finished: bool, h1: H|
            {
                &&& #[trigger] old(h).finished_ensures(finished, &h1)
                &&& send_with_handle_ensures::<S, H, C>(*old(s), *final(s), finished, h1, *final(h), command, r)
                &&& (finished ==> r == Ok::<Option<C>, Error>(Some(command)) && *final(s) == *old(s)
                    && *final(h) == h1)
                &&& (!finished && S::CAN_SEND ==> !(r is Ok && r->Ok_0 is Some))
            },
        !S::CAN_SEND ==> r == Ok::<Option<C>, Error>(Some(command)),
        r matches Ok(Some(c)) ==> c == command,
        r matches Ok(None) ==> S::CAN_SEND,
{
    let finished = h.is_finished();
    let ghost h1 = *h;
    if finished || !S::CAN_SEND {
        Ok(Some(command))
    } else {
        let r0 = s.send(command);
        match r0 {
            Err(e) => Err(e),
            Ok(()) => {
                let u = h.unyield();
                assert(h1.unyield_ensures(u));
                match u {
                    Err(e) => Err(e),
                    Ok(()) => Ok(None),
                }
            },
        }
    }
}

/// Send with handle as a method, for a struct that holds both.
pub trait SpawnSendWithHandle<C> {
    fn send_with_handle(&mut self, c: C) -> Result<Option<C>>;
}

impl<C, S: SpawnSend<C>, H: SpawnUnyield> SpawnSendWithHandle<C> for HandleSend<S, H> {
    #[inline]
    fn send_with_handle(&mut self, command: C) -> (r: Result<Option<C>>)
        ensures
            exists|finished: bool, h1: H|
                {
                    &&& #[trigger] old(self).1.finished_ensures(finished, &h1)
                    &&& send_with_handle_ensures::<S, H, C>(old(self).0, final(self).0, finished, h1, final(self).1, command, r)
                    &&& (finished ==> r == Ok::<Option<C>, Error>(Some(command)) && final(self).0
                        == old(self).0 && final(self).1 == h1)
                    &&& (!finished && S::CAN_SEND ==> !(r is Ok && r->Ok_0 is Some))
                },
            !S::CAN_SEND ==> r == Ok::<Option<C>, Error>(Some(command)),
            r matches Ok(Some(c)) ==> c == command,
            r matches Ok(None) ==> S::CAN_SEND,
    {
        send_with_handle(&mut self.0, &mut self.1, command)
    }
}

/// A local queue can always send.
pub proof fn lemma_local_send_can_send<'a, C>()
    ensures
        <&'a mut VecDeque<C> as SpawnSend<C>>::CAN_SEND,
{
}

/// A send end with its handle can send exactly when its inner send end can.
pub proof fn lemma_handle_send_can_send<C, S: SpawnSend<C>, H: SpawnUnyield>()
    ensures
        <HandleSend<S, H> as SpawnSend<C>>::CAN_SEND == <S as SpawnSend<C>>::CAN_SEND,
{
}

} // verus!
