//! A receiver with a default command: a spawn loop on it never waits, it serves the default
//! command when nothing arrived.
use vstd::prelude::*;

use crate::error::Result;
use crate::{SpawnChannel, SpawnRecv};

verus! {

/// A channel builder whose receivers have a default command.
pub struct DefaultRecvChannel<C, CH>(pub CH, pub C);

/// A receiver with a default command.
pub struct DefaultRecv<C, SR>(pub SR, pub C);

/// What a receiver with a default command gives for what its inner receiver gave: a clone of
/// the default command in place of nothing, anything else as it came.
pub open spec fn filled<C: Clone>(r0: Result<Option<C>>, default: C, r: Result<Option<C>>) -> bool {
    match r0 {
        Ok(None) => r matches Ok(Some(c)) && cloned::<C>(default, c),
        _ => r == r0,
    }
}

impl<C: Clone, CH: SpawnChannel<C>> SpawnChannel<C> for DefaultRecvChannel<C, CH> {
    type WeakSend = CH::WeakSend;
    type Send = CH::Send;
    type Recv = DefaultRecv<C, CH::Recv>;

    /// The ends of the inner builder, the receiver with a clone of the default command; or the
    /// inner builder's failure.
    open spec fn new_ensures(&self, r: Result<(CH::Send, DefaultRecv<C, CH::Recv>)>) -> bool {
        match r {
            Ok(ends) => self.0.new_ensures(Ok((ends.0, ends.1.0))) && cloned::<C>(self.1, ends.1.1),
            Err(e) => self.0.new_ensures(Err(e)),
        }
    }

    /// The weak send of the inner builder.
    open spec fn weak_send_ensures(s: &CH::Send, r: Option<CH::WeakSend>) -> bool {
        CH::weak_send_ensures(s, r)
    }

    fn new(&mut self) -> Result<(CH::Send, DefaultRecv<C, CH::Recv>)> {
        match self.0.new() {
            Ok((s, r)) => Ok((s, DefaultRecv(r, self.1.clone()))),
            Err(e) => Err(e),
        }
    }

    fn get_weak_send(s: &CH::Send) -> Option<CH::WeakSend> {
        CH::get_weak_send(s)
    }
}

impl<C: Clone, SR: SpawnRecv<C>> SpawnRecv<C> for DefaultRecv<C, SR> {
    /// What the inner receiver gave, with a clone of the default command in place of nothing.
    open spec fn recv_ensures(&self, r: Result<Option<C>>) -> bool {
        exists|r0: Result<Option<C>>| #[trigger] self.0.recv_ensures(r0) && filled(r0, self.1, r)
    }

    #[inline]
    fn recv(&mut self) -> (r: Result<Option<C>>)
        ensures
            !(r matches Ok(None)),
    {
        let r = self.0.recv();
        if let Ok(None) = r {
            let c = self.1.clone();
            proof {
                assert(filled(r, self.1, Ok(Some(c))));
            }
            return Ok(Some(c));
        }
        proof {
            assert(filled(r, self.1, r));
        }
        r
    }
}

} // verus!
