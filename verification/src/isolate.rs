//! The two one-way isolation transitions: first the filesystem root switch,
//! then the detach into a fresh process-ID namespace. The caller performs
//! the privileged operations; this machine dictates their order, never goes
//! backwards, and fails closed when the platform denies one.

use vstd::prelude::*;
use vstd::pervasive::unreached;
use crate::errors::RunError;

verus! {

/// How far the process has been isolated. Both transitions are irreversible
/// for the rest of the process's lifetime.
#[derive(Debug, Clone, Copy, PartialEq, Eq, Structural)]
pub enum IsolationState {
    /// The process still sees the host's filesystem and PID space.
    Unisolated,
    /// The filesystem root now points at the ephemeral root; all prior
    /// paths outside it are permanently unreachable.
    RootSwitched,
    /// The process is PID 1 of a fresh process-ID namespace.
    NamespaceIsolated,
}

/// The privileged operations, in the only order they may be applied.
#[derive(Debug, Clone, Copy, PartialEq, Eq, Structural)]
pub enum IsolationOp {
    /// Point the process's filesystem root at the ephemeral root.
    SwitchRoot,
    /// Detach into a new process-ID namespace.
    UnsharePidNamespace,
}

impl IsolationState {
    /// How many transitions have been committed.
    pub open spec fn rank(self) -> int {
        match self {
            IsolationState::Unisolated => 0,
            IsolationState::RootSwitched => 1,
            IsolationState::NamespaceIsolated => 2,
        }
    }

    /// The operation owed next, or nothing once fully isolated. The root
    /// switch always precedes the namespace detach, so materialization into
    /// the root can never be cut off halfway by it.
    pub fn pending_op(&self) -> (r: Option<IsolationOp>)
        ensures
            match *self {
                IsolationState::Unisolated => r == Some(IsolationOp::SwitchRoot),
                IsolationState::RootSwitched => r == Some(IsolationOp::UnsharePidNamespace),
                IsolationState::NamespaceIsolated => r is None,
            },
    {
        match self {
            IsolationState::Unisolated => Some(IsolationOp::SwitchRoot),
            IsolationState::RootSwitched => Some(IsolationOp::UnsharePidNamespace),
            IsolationState::NamespaceIsolated => None,
        }
    }

    /// Records the outcome of the pending operation. Success commits exactly
    /// one forward transition; denial leaves the state unchanged and fails
    /// closed with a privilege error — there is no degraded mode and no way
    /// back.
    pub fn advance(&mut self, succeeded: bool) -> (r: Result<(), RunError>)
        requires
            old(self).rank() < 2,
        ensures
            final(self).rank() >= old(self).rank(),
            succeeded ==> final(self).rank() == old(self).rank() + 1 && r is Ok,
            !succeeded ==> *final(self) == *old(self) && (r matches Err(e) && e
                is PrivilegeError),
    {
        if !succeeded {
            return Err(RunError::PrivilegeError);
        }
        match *self {
            IsolationState::Unisolated => {
                *self = IsolationState::RootSwitched;
            },
            IsolationState::RootSwitched => {
                *self = IsolationState::NamespaceIsolated;
            },
            IsolationState::NamespaceIsolated => unreached(),
        }
        Ok(())
    }
}

} // verus!
