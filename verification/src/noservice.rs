//! A service that must never be called, for spawners that run nothing.
use vstd::prelude::*;

use crate::error::{ErrorKind, Result};
use crate::{Service, SpawnerYield};

use core::marker::PhantomData;

verus! {

pub struct NoService<I, O>(PhantomData<(I, O)>);

impl<CIN, COUT> NoService<CIN, COUT> {
    /// The one value of the type.
    pub closed spec fn spec_new() -> Self {
        NoService(PhantomData)
    }

    /// The service, which holds nothing.
    pub fn new() -> (r: Self)
        ensures
            r == Self::spec_new(),
    {
        NoService(PhantomData)
    }
}

impl<CIN, COUT> Clone for NoService<CIN, COUT> {
    fn clone(&self) -> (r: Self)
        ensures
            r == *self,
    {
        NoService(self.0)
    }
}

impl<CIN, COUT> Service for NoService<CIN, COUT> {
    type CommandIn = CIN;
    type CommandOut = COUT;

    /// No service may be called.
    open spec fn callable() -> bool {
        false
    }

    /// Calling it is a misuse: no caller can meet `callable`, so this never runs.
    fn call<S: SpawnerYield>(&mut self, req: CIN, async_yield: &mut S) -> (r: Result<COUT>) {
        proof {
            assert(false);
        }
        Err(ErrorKind::Panic("No service called : please use a dummy spawner with no service".to_string()).into_error())
    }
}

} // verus!
