//! A channel whose receiver can be registered on a mio poll: each send sets the registration
//! readable, so the loop that polls wakes up to read the channel.
use vstd::prelude::*;

use crate::channels::evented::{MioRecv, MioSend};
use crate::error::Result;
use crate::eventloop::mio_poll::mio_set_readiness_clone;
use crate::SpawnChannel;

verus! {

#[verifier::external_type_specification]
#[verifier::external_body]
pub struct ExRegistration(::mio::Registration);

/// Calls `mio::Registration::new2`: a new registration and the trigger of its readiness.
/// Nothing is claimed of them beyond their types.
#[verifier::external_body]
fn mio_registration_new2() -> (::mio::Registration, ::mio::SetReadiness) {
    ::mio::Registration::new2()
}

/// A channel builder whose channels are registrable on a mio poll.
pub struct MioChannel<CH>(pub CH);

impl<C, CH: SpawnChannel<C>> SpawnChannel<C> for MioChannel<CH> {
    type WeakSend = MioSend<CH::WeakSend, ::mio::SetReadiness>;
    type Send = MioSend<CH::Send, ::mio::SetReadiness>;
    type Recv = MioRecv<CH::Recv, ::mio::Registration>;

    /// The ends of the inner builder, with a new registration; or the inner builder's failure.
    open spec fn new_ensures(
        &self,
        r: Result<(MioSend<CH::Send, ::mio::SetReadiness>, MioRecv<CH::Recv, ::mio::Registration>)>,
    ) -> bool {
        match r {
            Ok(ends) => self.0.new_ensures(Ok((ends.0.mpsc, ends.1.mpsc))),
            Err(e) => self.0.new_ensures(Err(e)),
        }
    }

    /// The weak send of the inner builder, triggering the same registration; none when the
    /// inner builder has none.
    open spec fn weak_send_ensures(
        s: &MioSend<CH::Send, ::mio::SetReadiness>,
        r: Option<MioSend<CH::WeakSend, ::mio::SetReadiness>>,
    ) -> bool {
        match r {
            Some(w) => w.set_ready == s.set_ready && CH::weak_send_ensures(&s.mpsc, Some(w.mpsc)),
            None => CH::weak_send_ensures(&s.mpsc, None),
        }
    }

    fn new(&mut self) -> Result<(MioSend<CH::Send, ::mio::SetReadiness>, MioRecv<CH::Recv, ::mio::Registration>)> {
        match self.0.new() {
            Ok((s, r)) => {
                let (reg, sr) = mio_registration_new2();
                Ok((MioSend { mpsc: s, set_ready: sr }, MioRecv { mpsc: r, reg: reg }))
            },
            Err(e) => Err(e),
        }
    }

    fn get_weak_send(s: &MioSend<CH::Send, ::mio::SetReadiness>) -> Option<MioSend<CH::WeakSend, ::mio::SetReadiness>> {
        match CH::get_weak_send(&s.mpsc) {
            Some(ms) => Some(MioSend { mpsc: ms, set_ready: mio_set_readiness_clone(&s.set_ready) }),
            None => None,
        }
    }
}

} // verus!
