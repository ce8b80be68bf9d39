//! Scoped access to the live event-loop context: a single slot that names
//! the context while a callback runs and is empty at every other time.

use vstd::prelude::*;
use crate::error::TaoError;

verus! {

/// The slot of one thread. It holds the address of the event-loop context
/// for the duration of one callback invocation.
#[derive(Debug)]
pub struct TargetSlot {
    current: Option<u64>,
}

impl TargetSlot {
    /// The context that is bound, if one is.
    pub closed spec fn target(&self) -> Option<u64> {
        self.current
    }

    /// Whether a context is bound.
    pub open spec fn bound(&self) -> bool {
        self.target() is Some
    }

    /// An empty slot.
    pub fn new() -> (slot: TargetSlot)
        ensures
            slot.target() is None,
    {
        TargetSlot { current: None }
    }

    /// Binds `target`. Whatever was bound before is forgotten.
    pub fn set(&mut self, target: u64)
        ensures
            final(self).target() == Some(target),
    {
        self.current = Some(target);
    }

    /// Empties the slot.
    pub fn clear(&mut self)
        ensures
            final(self).target() is None,
    {
        self.current = None;
    }

    pub fn is_bound(&self) -> (bound: bool)
        ensures
            bound == self.bound(),
    {
        self.current.is_some()
    }

    /// Runs `exec` on the bound context and returns what it returns. With
    /// no context bound, `exec` is not run and the result is `NotBound`.
    pub fn with_target<R, F>(&self, exec: F) -> (result: Result<R, TaoError>) where
        F: FnOnce(u64) -> R,

        requires
            self.target() matches Some(target) ==> call_requires(exec, (target,)),
        ensures
            match self.target() {
                Some(target) => result matches Ok(value) && call_ensures(exec, (target,), value),
                None => result matches Err(error) && error == TaoError::NotBound,
            },
    {
        match self.current {
            Some(target) => Ok(exec(target)),
            None => Err(TaoError::NotBound),
        }
    }
}

} // verus!
