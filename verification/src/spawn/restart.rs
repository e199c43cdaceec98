//! The state behind the handle of a spawner that restarts a suspended service on the same
//! thread: a restart is asked of the handle at any time, and only a suspended spawn is
//! restarted; any other state is left as it is, at no cost.
use vstd::prelude::*;

verus! {

/// What a restart handle holds: a suspended spawn to restart, the state that an ended service
/// left, or nothing while a restart runs.
pub enum RestartState<T, E> {
    /// a suspended spawn: what it needs to be spawned again
    ToRestart(T),
    /// the state that the ended service left
    Ended(E),
    /// nothing: a restart is running
    Empty,
}

impl<T, E> RestartState<T, E> {
    /// Whether the service has ended: exactly when its state is there.
    pub fn is_finished(&self) -> (r: bool)
        ensures
            r == self is Ended,
    {
        match self {
            RestartState::Ended(_) => true,
            _ => false,
        }
    }
}

/// Takes a suspended spawn out, leaving nothing in its place while it is restarted; any other
/// state is left as it is and nothing is taken.
pub fn take_to_restart<T, E>(st: &mut RestartState<T, E>) -> (r: Option<T>)
    ensures
        *old(st) matches RestartState::ToRestart(t) ==> r == Some(t) && *final(st)
            == RestartState::<T, E>::Empty,
        !(*old(st) is ToRestart) ==> r is None && *final(st) == *old(st),
{
    if let RestartState::ToRestart(_) = st {
        let mut taken = RestartState::Empty;
        std::mem::swap(st, &mut taken);
        match taken {
            RestartState::ToRestart(t) => Some(t),
            _ => None,
        }
    } else {
        None
    }
}

} // verus!
