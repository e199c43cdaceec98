//! Event loop abstraction: what can be registered on a poll, and the events a poll gives.
use vstd::prelude::*;

use crate::error::Result;

use core::time::Duration;

pub mod mio_poll;

verus! {

/// Identifies a registration on a poll.
pub type Token = usize;

/// Kind of readiness.
#[derive(Copy, Clone, Eq, PartialEq, Debug, Structural)]
pub enum Ready {
    Readable,
    Writable,
}

/// Registration on an event loop of the corresponding poll, edge triggered.
pub trait Registerable<P> {
    /// What a registrable value of this crate promises of a registration or a reregistration;
    /// nothing for other values.
    open spec fn register_ensures(&self, r: Result<bool>) -> bool {
        true
    }

    /// What a registrable value of this crate promises of a deregistration; nothing for other
    /// values.
    open spec fn deregister_ensures(&self, r: Result<()>) -> bool {
        true
    }

    /// registration on main io loop when possible (if not return false)
    fn register(&self, p: &P, t: Token, r: Ready) -> (res: Result<bool>)
        ensures
            self.register_ensures(res),
    ;

    /// async reregister
    fn reregister(&self, p: &P, t: Token, r: Ready) -> (res: Result<bool>)
        ensures
            self.register_ensures(res),
    ;

    fn deregister(&self, poll: &P) -> (res: Result<()>)
        ensures
            self.deregister_ensures(res),
    ;
}

/// Triggers a readiness on a registration from another place.
pub trait TriggerReady: Clone {
    /// What a trigger of this crate promises of setting a readiness; nothing for other
    /// triggers.
    open spec fn trigger_ensures(&self, ready: Ready, r: Result<()>) -> bool {
        true
    }

    fn set_readiness(&self, ready: Ready) -> (r: Result<()>)
        ensures
            self.trigger_ensures(ready, r),
    ;
}

/// A poll of events.
pub trait Poll {
    type Events: Events;

    fn poll(&self, events: &mut Self::Events, timeout: Option<Duration>) -> Result<usize>;
}

/// The events a poll filled, read one after the other.
pub trait Events: Sized {
    fn with_capacity(s: usize) -> Self;

    /// The next event, `None` when every event was read.
    fn next_event(&mut self) -> Option<Event>;
}

/// An event: a readiness on a registration.
#[derive(Copy, Clone, Eq, PartialEq, Debug, Structural)]
pub struct Event {
    pub kind: Ready,
    pub token: Token,
}

} // verus!
