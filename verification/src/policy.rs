//! When a resource is looked at again after a reconcile pass.

use vstd::prelude::*;

verus! {

/// Seconds until a resource is reconciled again after a pass that succeeded.
pub const REQUEUE_AFTER_SUCCESS_SECS: u64 = 300;

/// Seconds until a resource is reconciled again after a pass that failed.
pub const REQUEUE_AFTER_FAILURE_SECS: u64 = 30;

/// What the controller is asked to do with a resource once a pass is over.
#[derive(Clone, Copy, Debug, PartialEq, Eq, Structural)]
pub enum Action {
    /// Reconcile the resource again after this many seconds.
    Requeue { after_secs: u64 },
}

impl Action {
    /// The delay of the action, in seconds.
    pub fn delay_secs(&self) -> (secs: u64)
        ensures
            secs == self->after_secs,
    {
        match self {
            Action::Requeue { after_secs } => *after_secs,
        }
    }
}

} // verus!
