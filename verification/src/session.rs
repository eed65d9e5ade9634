//! One agent session: exclusive-writer discipline and request handling.
//!
//! A session wraps a single agent instance. At most one request at a time
//! may write to it; the writer's scope guard releases the controller lock
//! when its stream ends. The asynchronous controller, event channel and
//! background task live outside the crate; the registry-visible state they
//! induce is modelled here and every transition on it is verified.
use vstd::prelude::*;

use crate::error::ErrorResponse;
use crate::lifecycle::{lifecycle_action_for, spec_lifecycle_action, DropAction};
use crate::messages::{extract_user_inputs, spec_user_inputs, ChatMessage};

verus! {

/// Configuration for creating one session.
pub struct SessionConfig {
    /// Agent identity to build; the default agent when absent.
    pub agent_name: Option<String>,
    /// Teardown policy: discard after one stream, or keep for reuse.
    pub ephemeral: bool,
}

impl Clone for SessionConfig {
    fn clone(&self) -> (r: Self)
        ensures
            r == *self,
    {
        SessionConfig {
            agent_name: match &self.agent_name {
                Some(n) => Some(n.clone()),
                None => None,
            },
            ephemeral: self.ephemeral,
        }
    }
}

/// Typed failure of a session or registry operation.
#[derive(PartialEq, Eq, Structural, Clone, Copy, Debug)]
pub enum SessionError {
    /// The id names no live session and the operation does not create.
    NotFound,
    /// Strict creation found the id already taken.
    AlreadyExists,
    /// The concurrency cap is reached and the id names no live session.
    AdmissionDenied,
    /// Creation is disabled for drain or shutdown.
    CreationDisabled,
    /// The agent could not be constructed.
    AgentBuildFailed,
    /// The session's single writer slot is taken.
    LockContention,
    /// The session's agent has been cancelled and takes no new input.
    Cancelled,
    /// The agent failed while executing.
    ExecutionError,
}

impl SessionError {
    /// The client-facing envelope for this error: missing ids map to
    /// `not_found`, everything else to `internal_error`.
    pub fn error_response(&self) -> (r: ErrorResponse)
        ensures
            *self == SessionError::NotFound ==> r.error.kind@ == "not_found"@,
            *self != SessionError::NotFound ==> r.error.kind@ == "internal_error"@,
    {
        match self {
            SessionError::NotFound => ErrorResponse::not_found("session not found".to_owned()),
            SessionError::AlreadyExists => ErrorResponse::internal_error(
                "session already exists".to_owned(),
            ),
            SessionError::AdmissionDenied => ErrorResponse::internal_error(
                "maximum number of sessions reached".to_owned(),
            ),
            SessionError::CreationDisabled => ErrorResponse::internal_error(
                "session creation disabled".to_owned(),
            ),
            SessionError::AgentBuildFailed => ErrorResponse::internal_error(
                "failed to create agent".to_owned(),
            ),
            SessionError::LockContention => ErrorResponse::internal_error(
                "session is busy".to_owned(),
            ),
            SessionError::Cancelled => ErrorResponse::internal_error(
                "session cancelled".to_owned(),
            ),
            SessionError::ExecutionError => ErrorResponse::internal_error(
                "agent execution error".to_owned(),
            ),
        }
    }
}

/// Registry-visible state of one live agent session.
#[derive(Debug)]
pub struct AgentSession {
    pub session_id: String,
    /// Display name echoed into protocol frames.
    pub agent_name: String,
    /// Teardown policy chosen at creation.
    pub ephemeral: bool,
    /// The single-writer controller lock is held by an open request.
    pub writer_active: bool,
    /// A cancel has been delivered to the agent's controller.
    pub cancel_requested: bool,
    /// Every user input replayed into the agent, in order.
    pub inputs: Vec<String>,
}

/// Mathematical model of a session's registry-visible state.
pub ghost struct SessionView {
    pub session_id: Seq<char>,
    pub agent_name: Seq<char>,
    pub ephemeral: bool,
    pub writer_active: bool,
    pub cancel_requested: bool,
    pub inputs: Seq<Seq<char>>,
}

impl View for AgentSession {
    type V = SessionView;

    open spec fn view(&self) -> SessionView {
        SessionView {
            session_id: self.session_id@,
            agent_name: self.agent_name@,
            ephemeral: self.ephemeral,
            writer_active: self.writer_active,
            cancel_requested: self.cancel_requested,
            inputs: self.inputs@.map_values(|s: String| s@),
        }
    }
}

/// One in-flight request against a session: the id it targets and the
/// teardown its scope guard performs when its stream ends.
#[derive(Debug)]
pub struct RequestSession {
    pub session_id: String,
    pub action: DropAction,
}

impl RequestSession {
    pub fn new(session_id: String, action: DropAction) -> (r: Self)
        ensures
            r.session_id == session_id,
            r.action == action,
    {
        RequestSession { session_id, action }
    }
}

impl AgentSession {
    /// A freshly created session: no writer, no cancel, no inputs yet; the
    /// display name defaults when the config names no agent.
    pub fn new(config: SessionConfig, session_id: String) -> (r: Self)
        ensures
            r@ == (SessionView {
                session_id: session_id@,
                agent_name: match config.agent_name {
                    Some(n) => n@,
                    None => "default"@,
                },
                ephemeral: config.ephemeral,
                writer_active: false,
                cancel_requested: false,
                inputs: Seq::empty(),
            }),
    {
        let agent_name = match config.agent_name {
            Some(n) => n,
            None => "default".to_owned(),
        };
        let r = AgentSession {
            session_id,
            agent_name,
            ephemeral: config.ephemeral,
            writer_active: false,
            cancel_requested: false,
            inputs: Vec::new(),
        };
        proof {
            assert(Seq::<String>::empty().map_values(|s: String| s@) =~= Seq::<Seq<char>>::empty());
        }
        r
    }

    pub fn is_ephemeral(&self) -> (r: bool)
        ensures
            r == self.ephemeral,
    {
        self.ephemeral
    }

    /// Deliver a cancel to the agent's controller. Cancelling is
    /// idempotent and never fails.
    pub fn cancel(&mut self, request_id: &String) -> (r: Result<(), SessionError>)
        ensures
            r is Ok,
            final(self)@ == (SessionView { cancel_requested: true, ..old(self)@ }),
    {
        self.cancel_requested = true;
        Ok(())
    }

    /// Open a request against this session: claim the single-writer slot,
    /// replay the trace's user inputs into the agent, and hand back the
    /// request session whose guard will release the slot. Contention
    /// blocks by design: this function is one attempt of that blocking
    /// acquire — a claim on a held slot reports `LockContention` and
    /// changes nothing, and the shell that drives the request waits and
    /// retries until the holder's stream end has released the slot, which
    /// `release_writer` alone does.
    pub fn handle_request(&mut self, request_id: &String, trace: &Vec<ChatMessage>) -> (r: Result<
        RequestSession,
        SessionError,
    >)
        ensures
            old(self).writer_active ==> r == Result::<RequestSession, SessionError>::Err(
                SessionError::LockContention,
            ) && *final(self) == *old(self),
            !old(self).writer_active && old(self).cancel_requested ==> r == Result::<
                RequestSession,
                SessionError,
            >::Err(SessionError::Cancelled) && *final(self) == *old(self),
            !old(self).writer_active && !old(self).cancel_requested ==> {
                &&& r is Ok
                &&& final(self)@ == (SessionView {
                    writer_active: true,
                    inputs: old(self)@.inputs + spec_user_inputs(trace@),
                    ..old(self)@
                })
                &&& r->Ok_0.session_id@ == old(self)@.session_id
                &&& r->Ok_0.action == spec_lifecycle_action(old(self).ephemeral)
            },
    {
        if self.writer_active {
            return Err(SessionError::LockContention);
        }
        if self.cancel_requested {
            return Err(SessionError::Cancelled);
        }
        let ghost pre_inputs = self.inputs@.map_values(|s: String| s@);
        let new_inputs = extract_user_inputs(trace);
        let ghost g_new = new_inputs@.map_values(|s: String| s@);
        let mut j: usize = 0;
        proof {
            assert(pre_inputs + g_new.take(0) =~= pre_inputs);
        }
        while j < new_inputs.len()
            invariant
                0 <= j <= new_inputs@.len(),
                g_new == new_inputs@.map_values(|s: String| s@),
                self.inputs@.map_values(|s: String| s@) == pre_inputs + g_new.take(j as int),
                self.session_id == old(self).session_id,
                self.agent_name == old(self).agent_name,
                self.ephemeral == old(self).ephemeral,
                self.writer_active == old(self).writer_active,
                self.cancel_requested == old(self).cancel_requested,
            decreases new_inputs@.len() - j,
        {
            let ghost pre = self.inputs@;
            self.inputs.push(new_inputs[j].clone());
            proof {
                assert(self.inputs@.map_values(|s: String| s@) =~= pre.map_values(|s: String| s@)
                    + seq![g_new[j as int]]);
                assert(g_new.take(j as int + 1) =~= g_new.take(j as int) + seq![g_new[j as int]]);
                assert(pre_inputs + (g_new.take(j as int) + seq![g_new[j as int]]) =~= (pre_inputs
                    + g_new.take(j as int)) + seq![g_new[j as int]]);
            }
            j = j + 1;
        }
        proof {
            assert(g_new.take(g_new.len() as int) =~= g_new);
        }
        self.writer_active = true;
        let action = lifecycle_action_for(self.ephemeral);
        Ok(RequestSession::new(self.session_id.clone(), action))
    }

    /// Release the single-writer slot: the request's stream has ended and
    /// its scope guard has run.
    pub fn release_writer(&mut self)
        ensures
            final(self)@ == (SessionView { writer_active: false, ..old(self)@ }),
    {
        self.writer_active = false;
    }
}

} // verus!
