//! Request lifecycle guards.
//!
//! Every in-flight request owns a scope guard that runs when its stream
//! ends. A persistent session's guard only releases the controller lock; an
//! ephemeral session's guard additionally asks the agent to cancel, whose
//! exit then evicts the session from the registry.
use vstd::prelude::*;

verus! {

/// What a request's scope guard does when the stream it belongs to ends.
#[derive(PartialEq, Eq, Structural, Clone, Copy, Debug)]
pub enum DropAction {
    /// Release the controller lock only; the session stays registered and
    /// reusable.
    ReleaseOnly,
    /// Ask the agent to cancel, then release the lock; the agent's exit
    /// evicts the session from the registry.
    CancelThenRelease,
}

/// Scope guard of one in-flight request against a session.
pub trait RequestLifecycle: Sized {
    /// Id of the session the guard belongs to.
    spec fn spec_session_id(&self) -> Seq<char>;

    /// What running the guard does.
    spec fn spec_action(&self) -> DropAction;

    /// What running the guard does, for the stream end that applies it.
    fn drop_action(&self) -> (r: DropAction)
        ensures
            r == self.spec_action(),
    ;
}

/// Guard for persistent sessions: the stream's end releases the controller
/// lock and nothing else, so the session stays registered for the next
/// caller.
pub struct BackgroundLifecycle {
    pub session_id: String,
}

impl BackgroundLifecycle {
    pub fn new(session_id: String) -> (r: Self)
        ensures
            r.session_id == session_id,
    {
        BackgroundLifecycle { session_id }
    }
}

impl RequestLifecycle for BackgroundLifecycle {
    open spec fn spec_session_id(&self) -> Seq<char> {
        self.session_id@
    }

    open spec fn spec_action(&self) -> DropAction {
        DropAction::ReleaseOnly
    }

    fn drop_action(&self) -> (r: DropAction) {
        DropAction::ReleaseOnly
    }
}

/// Guard for ephemeral sessions: the stream's end requests an agent cancel
/// (detached, since cancellation is asynchronous) and releases the lock;
/// the agent task's exit afterwards removes the session from the registry.
pub struct EphemeralLifecycle {
    pub session_id: String,
}

impl EphemeralLifecycle {
    pub fn new(session_id: String) -> (r: Self)
        ensures
            r.session_id == session_id,
    {
        EphemeralLifecycle { session_id }
    }
}

impl RequestLifecycle for EphemeralLifecycle {
    open spec fn spec_session_id(&self) -> Seq<char> {
        self.session_id@
    }

    open spec fn spec_action(&self) -> DropAction {
        DropAction::CancelThenRelease
    }

    fn drop_action(&self) -> (r: DropAction) {
        DropAction::CancelThenRelease
    }
}

/// The drop action a session's teardown policy calls for.
pub open spec fn spec_lifecycle_action(ephemeral: bool) -> DropAction {
    if ephemeral {
        DropAction::CancelThenRelease
    } else {
        DropAction::ReleaseOnly
    }
}

/// Choose the scope guard's action from the session's teardown policy.
pub fn lifecycle_action_for(ephemeral: bool) -> (r: DropAction)
    ensures
        r == spec_lifecycle_action(ephemeral),
{
    if ephemeral {
        DropAction::CancelThenRelease
    } else {
        DropAction::ReleaseOnly
    }
}

} // verus!
