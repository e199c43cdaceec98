//! A channel for services on the same thread: sender and receiver share one queue; a send
//! pushes at the front and a receive pops at the back, so commands come out in the order they
//! went in. That order is not stated in the contracts: the queue sits in a `RefCell` shared by
//! both ends and by every clone of them, which any holder can change or keep borrowed, so the
//! contracts say only that a send or a
//! receive can fail in one way: the queue is borrowed elsewhere at that time, which is reported
//! as a bug rather than a panic.
use vstd::prelude::*;

use crate::channels::void::NoSend;
use crate::error::{Error, ErrorKind, Result};
use crate::{SpawnChannel, SpawnRecv, SpawnSend};

use std::cell::RefCell;
use std::collections::VecDeque;
use std::rc::Rc;

verus! {

#[verifier::external_type_specification]
#[verifier::external_body]
#[verifier::reject_recursive_types(T)]
pub struct ExRefCell<T: ?Sized>(RefCell<T>);

/// Calls `RefCell::new`: a cell holding the value. Nothing is claimed of what it holds later:
/// every clone of the `Rc` around it can change it.
#[verifier::external_body]
fn refcell_new<T>(t: T) -> RefCell<T> {
    RefCell::new(t)
}

/// Calls `Rc::clone`: another pointer to the same allocation, equal to the one it clones.
#[verifier::external_body]
fn rc_clone<T>(r: &Rc<T>) -> (res: Rc<T>)
    ensures
        res == *r,
{
    r.clone()
}

#[verifier::external_type_specification]
#[verifier::external_body]
#[verifier::reject_recursive_types(T)]
pub struct ExRefMut<'b, T: ?Sized + 'b>(std::cell::RefMut<'b, T>);

/// Calls `RefCell::try_borrow_mut`: the queue to change, or `None` when the cell is already
/// borrowed (where `borrow_mut` would panic). Nothing is claimed of which: it depends on the
/// borrows that other holders of the `Rc` keep.
#[verifier::external_body]
fn try_borrow_queue<'b, C>(q: &'b RefCell<VecDeque<C>>) -> Option<std::cell::RefMut<'b, VecDeque<C>>> {
    q.try_borrow_mut().ok()
}

/// Calls `RefMut::deref_mut`: the queue behind the borrow. Nothing is claimed of what it holds.
#[verifier::external_body]
fn borrowed_queue<'a, 'b, C>(b: &'a mut std::cell::RefMut<'b, VecDeque<C>>) -> &'a mut VecDeque<C> {
    &mut **b
}

/// What a send or a receive on the local queue gives when the queue is borrowed elsewhere at
/// that time: a bug of the caller, which ends the program in a spawner.
pub open spec fn is_already_borrowed(e: Error) -> bool {
    e.kind matches ErrorKind::Bug(m) && m@ == "local queue already borrowed"@
}

fn already_borrowed() -> (e: Error)
    ensures
        is_already_borrowed(e),
{
    ErrorKind::Bug("local queue already borrowed".to_string()).into_error()
}

pub struct LocalRcChannel;

/// common send/recv for coroutine local usage (not Send, but clone)
pub type LocalRc<C> = Rc<RefCell<VecDeque<C>>>;

impl LocalRcChannel {
    /// The two ends of a new channel: one shared queue.
    pub fn new_ends<C>() -> (r: (LocalRc<C>, LocalRc<C>))
        ensures
            r.0 == r.1,
    {
        let lr = Rc::new(refcell_new(VecDeque::new()));
        (rc_clone(&lr), lr)
    }
}

impl<C> SpawnChannel<C> for LocalRcChannel {
    type WeakSend = NoSend;
    type Send = LocalRc<C>;
    type Recv = LocalRc<C>;

    /// Building never fails, and both ends share one queue.
    open spec fn new_ensures(&self, r: Result<(LocalRc<C>, LocalRc<C>)>) -> bool {
        r matches Ok(ends) && ends.0 == ends.1
    }

    fn new(&mut self) -> Result<(LocalRc<C>, LocalRc<C>)> {
        Ok(LocalRcChannel::new_ends())
    }

    /// There is no weak send: the queue is local to a thread.
    open spec fn weak_send_ensures(s: &LocalRc<C>, r: Option<NoSend>) -> bool {
        r is None
    }

    fn get_weak_send(s: &LocalRc<C>) -> (r: Option<NoSend>)
        ensures
            r is None,
    {
        None
    }
}

impl<C> SpawnSend<C> for LocalRc<C> {
    const CAN_SEND: bool = true;

    /// Pushing fails only when the queue is borrowed elsewhere at that time.
    open spec fn send_ensures(&self, c: C, r: Result<()>) -> bool {
        r is Ok || (r matches Err(e) && is_already_borrowed(e))
    }

    fn send(&mut self, c: C) -> (r: Result<()>)
        ensures
            r is Ok || (r matches Err(e) && is_already_borrowed(e)),
    {
        match try_borrow_queue(&**self) {
            Some(mut b) => {
                borrowed_queue(&mut b).push_front(c);
                Ok(())
            },
            None => Err(already_borrowed()),
        }
    }
}

impl<C> SpawnRecv<C> for LocalRc<C> {
    /// Popping fails only when the queue is borrowed elsewhere at that time.
    open spec fn recv_ensures(&self, r: Result<Option<C>>) -> bool {
        r is Ok || (r matches Err(e) && is_already_borrowed(e))
    }

    fn recv(&mut self) -> (r: Result<Option<C>>)
        ensures
            r is Ok || (r matches Err(e) && is_already_borrowed(e)),
    {
        match try_borrow_queue(&**self) {
            Some(mut b) => Ok(borrowed_queue(&mut b).pop_back()),
            None => Err(already_borrowed()),
        }
    }
}

/// A local shared queue can always send.
pub proof fn lemma_local_rc_can_send<C>()
    ensures
        <LocalRc<C> as SpawnSend<C>>::CAN_SEND,
{
}

} // verus!
