//! The mio event loop: its events read as events of this crate, and its readiness trigger.
use vstd::prelude::*;

use crate::error::{Error, Result};
use crate::eventloop::{Event, Events, Poll, Ready, Registerable, Token, TriggerReady};

use core::time::Duration;


verus! {

/// The events that a mio poll filled (`mio::Events`), held opaque.
#[verifier::external_body]
pub struct MioEventList {
    inner: ::mio::Events,
}

#[verifier::external_type_specification]
#[verifier::external_body]
pub struct ExSetReadiness(::mio::SetReadiness);

/// What a mio event list holds, in order: for each event whether it is readable, whether it is
/// writable, and its token.
pub uninterp spec fn mio_events_view(e: MioEventList) -> Seq<(bool, bool, usize)>;

/// Calls `mio::Events::with_capacity`: an empty list of events (its source allocates a vector
/// of that capacity and length 0).
#[verifier::external_body]
fn mio_events_with_capacity(s: usize) -> (e: MioEventList)
    ensures
        mio_events_view(e).len() == 0,
{
    MioEventList { inner: ::mio::Events::with_capacity(s) }
}

/// Calls `mio::Events::get`: the event at `idx` if there is one (its source reads the vector of
/// events), taken apart into its readability, its writability and its token.
#[verifier::external_body]
#[allow(deprecated)]
fn mio_events_get(e: &MioEventList, idx: usize) -> (r: Option<(bool, bool, usize)>)
    ensures
        r is Some ==> idx < usize::MAX,
        idx < mio_events_view(*e).len() ==> r == Some(mio_events_view(*e)[idx as int]),
        idx >= mio_events_view(*e).len() ==> r is None,
{
    e.inner.get(idx).map(|event| (event.readiness().is_readable(), event.readiness().is_writable(), event.token().0))
}

/// Calls `mio::SetReadiness::set_readiness` with the readiness. Nothing is claimed of the
/// result: it depends on the registration and on the poll, on any thread.
#[verifier::external_body]
fn mio_set_readiness(s: &::mio::SetReadiness, ready: Ready) -> std::io::Result<()> {
    let r = match ready {
        Ready::Readable => ::mio::Ready::readable(),
        Ready::Writable => ::mio::Ready::writable(),
    };
    s.set_readiness(r)
}

/// Calls `mio::SetReadiness::clone`: a trigger of the same registration. Its source copies the
/// pointer to the registration's node (after counting one more reference, and aborting the
/// process only past `isize::MAX` live references), so the clone equals the original.
#[verifier::external_body]
pub(crate) fn mio_set_readiness_clone(s: &::mio::SetReadiness) -> (res: ::mio::SetReadiness)
    ensures
        res == *s,
{
    s.clone()
}

/// Mio events read one after the other: the events, and the position of the next one to read.
pub struct MioEvents(pub MioEventList, pub usize);

/// Whether a mio event is one this crate reports: readable or writable.
pub open spec fn reported(ev: (bool, bool, usize)) -> bool {
    ev.0 || ev.1
}

/// The event of this crate for a reported mio event; readable wins over writable.
pub open spec fn as_event(ev: (bool, bool, usize)) -> Event {
    Event { kind: if ev.0 { Ready::Readable } else { Ready::Writable }, token: ev.2 }
}

impl Events for MioEvents {
    fn with_capacity(s: usize) -> (r: MioEvents)
        ensures
            mio_events_view(r.0).len() == 0,
            r.1 == 0,
    {
        MioEvents(mio_events_with_capacity(s), 0)
    }

    /// The next readable or writable event from the position on, skipping the others; the
    /// position moves past it, or past the last event when there is none.
    fn next_event(&mut self) -> (r: Option<Event>)
        ensures
            final(self).0 == old(self).0,
            ({
                let v = mio_events_view(old(self).0);
                let from = old(self).1 as int;
                match r {
                    Some(ev) => {
                        let i = final(self).1 - 1;
                        &&& from <= i < v.len()
                        &&& reported(v[i])
                        &&& ev == as_event(v[i])
                        &&& forall|j: int| from <= j < i ==> !reported(#[trigger] v[j])
                    },
                    None => {
                        &&& final(self).1 == (if from < v.len() { v.len() as int } else { from })
                        &&& forall|j: int| from <= j < v.len() ==> !reported(#[trigger] v[j])
                    },
                }
            }),
    {
        let ghost v = mio_events_view(self.0);
        let ghost from = self.1 as int;
        loop
            invariant
                self.0 == old(self).0,
                v == mio_events_view(self.0),
                from == old(self).1 as int,
                from <= self.1,
                self.1 > from ==> self.1 <= v.len(),
                forall|j: int| from <= j < self.1 ==> !reported(#[trigger] v[j]),
            decreases v.len() - self.1,
        {
            match mio_events_get(&self.0, self.1) {
                Some(event) => {
                    self.1 = self.1 + 1;
                    if event.0 {
                        return Some(Event { kind: Ready::Readable, token: event.2 });
                    } else if event.1 {
                        return Some(Event { kind: Ready::Writable, token: event.2 });
                    }
                },
                None => {
                    return None;
                },
            }
        }
    }
}

/// Sets the registration of a mio trigger readable or writable; a would block failure asks the
/// service to yield, any other failure is kept as an io error.
pub fn trigger_readiness(s: &::mio::SetReadiness, ready: Ready) -> (r: Result<()>)
    ensures
        r matches Err(e) ==> e.kind is Yield || e.kind is Io,
{
    match mio_set_readiness(s, ready) {
        Ok(()) => Ok(()),
        Err(e) => Err(Error::from_io(e)),
    }
}

impl TriggerReady for ::mio::SetReadiness {
    /// A failure is a would block, which asks the service to yield, or another io failure.
    open spec fn trigger_ensures(&self, ready: Ready, r: Result<()>) -> bool {
        r matches Err(e) ==> e.kind is Yield || e.kind is Io
    }

    fn set_readiness(&self, ready: Ready) -> Result<()> {
        trigger_readiness(self, ready)
    }
}

/// A mio poll (`mio::Poll`), held opaque.
#[verifier::external_body]
pub struct MioPoll(pub ::mio::Poll);

/// Calls `mio::Poll::new`. Nothing is claimed of the result: it depends on the system.
#[verifier::external_body]
fn mio_poll_new() -> std::io::Result<MioPoll> {
    ::mio::Poll::new().map(MioPoll)
}

/// Calls `mio::Poll::poll`, which fills the events with what the system reports. Nothing is
/// claimed of the result nor of the events: they depend on the system and on the time.
#[verifier::external_body]
fn mio_poll_poll(p: &MioPoll, events: &mut MioEventList, timeout: Option<Duration>) -> std::io::Result<usize> {
    p.0.poll(&mut events.inner, timeout)
}

impl MioPoll {
    /// A new mio poll.
    pub fn new() -> (r: Result<MioPoll>)
        ensures
            r matches Err(e) ==> e.kind is Yield || e.kind is Io,
    {
        match mio_poll_new() {
            Ok(p) => Ok(p),
            Err(e) => Err(Error::from_io(e)),
        }
    }
}

impl Poll for MioPoll {
    type Events = MioEvents;

    /// Polls into the events, whose reading starts again at the first one; a failure is a
    /// would block, which asks the service to yield, or another io failure.
    fn poll(&self, events: &mut MioEvents, timeout: Option<Duration>) -> (r: Result<usize>)
        ensures
            r is Ok ==> final(events).1 == 0,
            r is Err ==> final(events).1 == old(events).1,
            r matches Err(e) ==> e.kind is Yield || e.kind is Io,
    {
        let res = mio_poll_poll(self, &mut events.0, timeout);
        poll_outcome(res, &mut events.1)
    }
}

/// What a poll gives for what the system's poll gave (`res`): the count of events, with the
/// reading of the events started again at the first one (`pos` set to 0); or the io failure as
/// an error of this crate, a yield for a would block, with the reading position kept.
pub fn poll_outcome(res: std::io::Result<usize>, pos: &mut usize) -> (r: Result<usize>)
    ensures
        res matches Ok(n) ==> r == Ok::<usize, Error>(n) && *final(pos) == 0,
        res matches Err(x) ==> *final(pos) == *old(pos) && (r == Err::<usize, Error>(
            Error::spec_from_io(true, x),
        ) || r == Err::<usize, Error>(Error::spec_from_io(false, x))),
{
    match res {
        Ok(n) => {
            *pos = 0;
            Ok(n)
        },
        Err(e) => Err(Error::from_io(e)),
    }
}

#[verifier::external_type_specification]
#[verifier::external_body]
pub struct ExMioStream(::mio::net::TcpStream);

#[verifier::external_type_specification]
#[verifier::external_body]
pub struct ExPollOpt(::mio::PollOpt);

/// Calls `mio::PollOpt::edge`: the option of an edge triggered registration.
#[verifier::external_body]
fn mio_edge() -> ::mio::PollOpt {
    ::mio::PollOpt::edge()
}

/// Calls `mio::Poll::register` of the stream, with the token, the readiness and the option.
/// Nothing is claimed of the result: it depends on the system.
#[verifier::external_body]
fn mio_register_stream(p: &MioPoll, s: &::mio::net::TcpStream, t: usize, ready: Ready, opt: ::mio::PollOpt) -> std::io::Result<()> {
    let r = match ready {
        Ready::Readable => ::mio::Ready::readable(),
        Ready::Writable => ::mio::Ready::writable(),
    };
    p.0.register(s, ::mio::Token(t), r, opt)
}

/// Calls `mio::Poll::reregister` of the stream, with the token, the readiness and the option.
/// Nothing is claimed of the result: it depends on the system.
#[verifier::external_body]
fn mio_reregister_stream(p: &MioPoll, s: &::mio::net::TcpStream, t: usize, ready: Ready, opt: ::mio::PollOpt) -> std::io::Result<()> {
    let r = match ready {
        Ready::Readable => ::mio::Ready::readable(),
        Ready::Writable => ::mio::Ready::writable(),
    };
    p.0.reregister(s, ::mio::Token(t), r, opt)
}

/// Calls `mio::Poll::deregister` of the stream. Nothing is claimed of the result: it depends
/// on the system.
#[verifier::external_body]
fn mio_deregister_stream(p: &MioPoll, s: &::mio::net::TcpStream) -> std::io::Result<()> {
    p.0.deregister(s)
}

/// A stream is registered edge triggered: an event comes when its readiness changes.
impl Registerable<MioPoll> for ::mio::net::TcpStream {
    /// A stream can always be registered: a success says so; a failure is a would block or
    /// another io failure.
    open spec fn register_ensures(&self, r: Result<bool>) -> bool {
        &&& r matches Ok(b) ==> b
        &&& r matches Err(e) ==> e.kind is Yield || e.kind is Io
    }

    /// A failure is a would block or another io failure.
    open spec fn deregister_ensures(&self, r: Result<()>) -> bool {
        r matches Err(e) ==> e.kind is Yield || e.kind is Io
    }

    fn register(&self, p: &MioPoll, t: Token, r: Ready) -> (res: Result<bool>)
        ensures
            res matches Ok(b) ==> b,
    {
        match mio_register_stream(p, self, t, r, mio_edge()) {
            Ok(()) => Ok(true),
            Err(e) => Err(Error::from_io(e)),
        }
    }

    fn reregister(&self, p: &MioPoll, t: Token, r: Ready) -> (res: Result<bool>)
        ensures
            res matches Ok(b) ==> b,
    {
        match mio_reregister_stream(p, self, t, r, mio_edge()) {
            Ok(()) => Ok(true),
            Err(e) => Err(Error::from_io(e)),
        }
    }

    fn deregister(&self, p: &MioPoll) -> Result<()> {
        match mio_deregister_stream(p, self) {
            Ok(()) => Ok(()),
            Err(e) => Err(Error::from_io(e)),
        }
    }
}

} // verus!
