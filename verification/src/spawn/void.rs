//! Spawner that spawns nothing, and the handle, yield and weak handle that go with it.
use vstd::prelude::*;

use crate::error::{ErrorKind, Result};
use crate::{YieldEnsures, 
    Service, SpawnHandle, SpawnRecv, SpawnSend, SpawnUnyield, SpawnWeakUnyield, Spawner,
    SpawnerYield, YieldReturn,
};

verus! {

/// A spawner that runs nothing: the service is dropped and never finishes.
#[derive(Clone, Debug)]
pub struct NoSpawn;

/// The handle of a service that was not run: never finished, nothing to resume.
#[derive(Clone, Debug)]
pub struct NoHandle;

/// A weak handle that no handle ever gives: no value of it exists.
pub struct NoWeakUnyield {
    never: (),
}

impl NoWeakUnyield {
    #[verifier::type_invariant]
    spec fn inhabited(self) -> bool {
        false
    }
}

impl Clone for NoWeakUnyield {
    fn clone(&self) -> Self {
        proof {
            use_type_invariant(self);
        }
        NoWeakUnyield { never: () }
    }
}

impl SpawnUnyield for NoWeakUnyield {
    fn is_finished(&mut self) -> bool {
        proof {
            use_type_invariant(&*self);
        }
        false
    }

    fn unyield(&mut self) -> Result<()> {
        proof {
            use_type_invariant(&*self);
        }
        Ok(())
    }
}

impl<S: Service, D: SpawnSend<<S as Service>::CommandOut>, R: SpawnRecv<<S as Service>::CommandIn>> Spawner<S, D, R> for NoSpawn {
    type Handle = NoHandle;
    type Yield = NoYield;

    fn spawn(
        &mut self,
        service: S,
        spawn_out: D,
        ocin: Option<<S as Service>::CommandIn>,
        rec: R,
        nb_loop: usize,
    ) -> (r: Result<NoHandle>)
        ensures
            r is Ok,
    {
        Ok(NoHandle)
    }
}

impl SpawnUnyield for NoHandle {
    /// A service that was not run is never finished, and asking leaves the handle as it is.
    open spec fn finished_ensures(&self, r: bool, after: &Self) -> bool {
        !r && *after == *self
    }

    /// There is nothing to resume, and that never fails.
    open spec fn unyield_ensures(&self, r: Result<()>) -> bool {
        r is Ok
    }

    fn is_finished(&mut self) -> (r: bool)
        ensures
            !r,
            *final(self) == *old(self),
    {
        false
    }

    fn unyield(&mut self) -> (r: Result<()>)
        ensures
            r is Ok,
    {
        Ok(())
    }
}

impl<S: Service, D: SpawnSend<<S as Service>::CommandOut>, R: SpawnRecv<<S as Service>::CommandIn>> SpawnHandle<S, D, R> for NoHandle {
    /// A service that was not run never finishes: its state is never given back.
    open spec fn can_unwrap(&self) -> bool {
        false
    }

    fn unwrap_state(self) -> Result<(S, D, R, Result<()>)> {
        Err(ErrorKind::Bug("check is_finished before : No spawn is never finished".to_string()).into_error())
    }
}

impl SpawnWeakUnyield for NoHandle {
    type WeakUnyield = NoHandle;

    fn get_weak_unyield(&self) -> (r: Option<NoHandle>)
        ensures
            r is Some,
    {
        Some(NoHandle)
    }
}

/// A yield that always returns the same answer.
#[derive(Clone, Copy, Debug)]
pub struct NoYield(pub YieldReturn);

impl YieldEnsures for NoYield {
    /// A yield returns what it was built with.
    open spec fn yield_ensures(&self, r: YieldReturn) -> bool {
        r == self.0
    }
}

impl SpawnerYield for NoYield {
    #[inline]
    fn spawn_yield(&mut self) -> (r: YieldReturn)
        ensures
            r == old(self).0,
            *final(self) == *old(self),
    {
        self.0
    }

    #[inline]
    fn opt_clone(&mut self) -> (r: Option<NoYield>)
        ensures
            r == Some(*old(self)),
            *final(self) == *old(self),
    {
        Some(*self)
    }
}

} // verus!
