//! Reads and writes on an asynchronous transport that yield the service when the transport
//! would block: what to do after each attempt on the transport and after each yield.
use vstd::prelude::*;

use crate::YieldReturn;

verus! {

/// What an attempt to read, write or flush the transport gave.
#[derive(Clone, Copy, Debug, PartialEq, Eq, Structural)]
pub enum IoAttempt {
    /// that many bytes were read or written (0 for a flush)
    Done(usize),
    /// the transport would block
    WouldBlock,
    /// any other failure
    Failed,
}

/// What to do next.
#[derive(Clone, Copy, Debug, PartialEq, Eq, Structural)]
pub enum IoStep {
    /// try again
    Retry,
    /// yield the service, then do what the yield asks
    Yield,
    /// give this count to the caller
    Give(usize),
    /// give the last failure to the caller
    Fail,
}

/// After a read: an empty read is tried again (the transport is a stream that blocks rather
/// than ends), a would block yields, anything else is given to the caller.
pub fn read_step(a: IoAttempt) -> (s: IoStep)
    ensures
        a == IoAttempt::Done(0) ==> s == IoStep::Retry,
        a matches IoAttempt::Done(n) ==> (n > 0 ==> s == IoStep::Give(n)),
        a == IoAttempt::WouldBlock ==> s == IoStep::Yield,
        a == IoAttempt::Failed ==> s == IoStep::Fail,
        s matches IoStep::Give(n) ==> n > 0,
{
    match a {
        IoAttempt::Done(n) => if n == 0 {
            IoStep::Retry
        } else {
            IoStep::Give(n)
        },
        IoAttempt::WouldBlock => IoStep::Yield,
        IoAttempt::Failed => IoStep::Fail,
    }
}

/// After a write or a flush: a would block yields, anything else is given to the caller.
pub fn write_step(a: IoAttempt) -> (s: IoStep)
    ensures
        a matches IoAttempt::Done(n) ==> s == IoStep::Give(n),
        a == IoAttempt::WouldBlock ==> s == IoStep::Yield,
        a == IoAttempt::Failed ==> s == IoStep::Fail,
{
    match a {
        IoAttempt::Done(n) => IoStep::Give(n),
        IoAttempt::WouldBlock => IoStep::Yield,
        IoAttempt::Failed => IoStep::Fail,
    }
}

/// After a yield for a would block: a return gives the would block failure to the caller, a
/// loop tries again.
pub fn yield_step(y: YieldReturn) -> (s: IoStep)
    ensures
        y == YieldReturn::Return ==> s == IoStep::Fail,
        y == YieldReturn::Loop ==> s == IoStep::Retry,
{
    match y {
        YieldReturn::Return => IoStep::Fail,
        YieldReturn::Loop => IoStep::Retry,
    }
}

/// What a read gave while filling a buffer.
#[derive(Clone, Copy, Debug, PartialEq, Eq, Structural)]
pub enum FillEvent {
    /// that many bytes were read
    Read(usize),
    /// the read was interrupted
    Interrupted,
    /// any other failure
    Failed,
}

/// What to do next while filling a buffer.
#[derive(Clone, Copy, Debug, PartialEq, Eq, Structural)]
pub enum FillStep {
    /// read again into what is left of the buffer
    Continue,
    /// the buffer is full
    Done,
    /// give the failure to the caller
    Fail,
}

/// Starts filling a buffer of that length: an empty buffer is already full.
pub fn fill_start(len: usize) -> (s: FillStep)
    ensures
        s == (if len == 0 { FillStep::Done } else { FillStep::Continue }),
{
    if len == 0 {
        FillStep::Done
    } else {
        FillStep::Continue
    }
}

/// One read while filling a buffer with `remaining` bytes left: the bytes read are taken off,
/// an empty or interrupted read is tried again, any other failure is given to the caller.
pub fn fill_step(remaining: usize, ev: FillEvent) -> (r: (usize, FillStep))
    requires
        remaining > 0,
        ev matches FillEvent::Read(n) ==> n <= remaining,
    ensures
        ev matches FillEvent::Read(n) ==> r.0 == remaining - n,
        !(ev is Read) ==> r.0 == remaining,
        r.0 <= remaining,
        ev == FillEvent::Failed ==> r.1 == FillStep::Fail,
        ev != FillEvent::Failed ==> r.1 == (if r.0 == 0 { FillStep::Done } else { FillStep::Continue }),
{
    match ev {
        FillEvent::Read(n) => {
            let left = remaining - n;
            (left, if left == 0 { FillStep::Done } else { FillStep::Continue })
        },
        FillEvent::Interrupted => (remaining, FillStep::Continue),
        FillEvent::Failed => (remaining, FillStep::Fail),
    }
}

} // verus!
