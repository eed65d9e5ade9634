//! Session manager: a keyed registry of live agent sessions with admission
//! control, creation, lookup, cancellation and eviction.
//!
//! The registry holds at most one session per id and, when a cap is set,
//! never more than `max_sessions` sessions in total. Every operation is a
//! verified transition on the registry's mathematical model; the callers
//! that share the manager across tasks serialize these transitions under
//! their own lock.
use vstd::prelude::*;

use crate::ids::fresh_id;
use crate::lifecycle::{spec_lifecycle_action, DropAction};
use crate::messages::{spec_user_inputs, ChatMessage};
use crate::session::{AgentSession, RequestSession, SessionConfig, SessionError, SessionView};

verus! {

/// Configuration for the session manager.
pub struct SessionManagerConfig {
    /// Hard admission cap; unbounded when absent.
    pub max_sessions: Option<usize>,
    /// Default agent identity when a request names none.
    pub agent_name: Option<String>,
    /// Default teardown policy for newly created sessions.
    pub ephemeral: bool,
}

impl Clone for SessionManagerConfig {
    fn clone(&self) -> (r: Self)
        ensures
            r == *self,
    {
        SessionManagerConfig {
            max_sessions: self.max_sessions,
            agent_name: match &self.agent_name {
                Some(n) => Some(n.clone()),
                None => None,
            },
            ephemeral: self.ephemeral,
        }
    }
}

impl Default for SessionManagerConfig {
    /// A hundred concurrent sessions, the default agent, persistent
    /// teardown.
    fn default() -> (r: Self)
        ensures
            r.max_sessions == Some(100usize),
            r.agent_name is None,
            !r.ephemeral,
    {
        SessionManagerConfig { max_sessions: Some(100), agent_name: None, ephemeral: false }
    }
}

/// Mathematical model of the registry.
pub ghost struct ManagerView {
    pub sessions: Seq<SessionView>,
    pub max_sessions: Option<usize>,
    pub allow_creation: bool,
    pub default_agent_name: Option<Seq<char>>,
    pub default_ephemeral: bool,
}

/// The display name a new session gets from an optional configured name.
pub open spec fn spec_display_name(name: Option<Seq<char>>) -> Seq<char> {
    match name {
        Some(n) => n,
        None => "default"@,
    }
}

/// The state of a freshly created session record.
pub open spec fn spec_new_session_view(
    id: Seq<char>,
    agent_name: Option<Seq<char>>,
    ephemeral: bool,
    writer_active: bool,
    inputs: Seq<Seq<char>>,
) -> SessionView {
    SessionView {
        session_id: id,
        agent_name: spec_display_name(agent_name),
        ephemeral,
        writer_active,
        cancel_requested: false,
        inputs,
    }
}

impl ManagerView {
    /// The id names a live session.
    pub open spec fn has_session(self, id: Seq<char>) -> bool {
        exists|i: int| 0 <= i < self.sessions.len() && self.sessions[i].session_id == id
    }

    /// Index of the session with this id (meaningful under `wf` when
    /// `has_session` holds).
    pub open spec fn index_of(self, id: Seq<char>) -> int {
        choose|i: int| 0 <= i < self.sessions.len() && self.sessions[i].session_id == id
    }

    /// The session with this id.
    pub open spec fn session(self, id: Seq<char>) -> SessionView {
        self.sessions[self.index_of(id)]
    }

    /// Number of registered sessions.
    pub open spec fn count(self) -> nat {
        self.sessions.len()
    }

    /// Admission check: a session that does not exist yet may be created.
    pub open spec fn may_create(self) -> bool {
        self.allow_creation && match self.max_sessions {
            Some(m) => self.sessions.len() < m,
            None => true,
        }
    }

    /// Well-formed registry: ids are unique and, when a cap is set, the
    /// registry never exceeds it.
    pub open spec fn wf(self) -> bool {
        &&& forall|i: int, j: int|
            0 <= i < j < self.sessions.len() ==> self.sessions[i].session_id
                != self.sessions[j].session_id
        &&& match self.max_sessions {
            Some(m) => self.sessions.len() <= m,
            None => true,
        }
    }

    /// The registry with the session of this id replaced.
    pub open spec fn with_session(self, id: Seq<char>, s: SessionView) -> ManagerView {
        ManagerView { sessions: self.sessions.update(self.index_of(id), s), ..self }
    }

    /// The registry with a new session appended.
    pub open spec fn with_new_session(self, s: SessionView) -> ManagerView {
        ManagerView { sessions: self.sessions.push(s), ..self }
    }

    /// The registry with the session of this id removed.
    pub open spec fn without_session(self, id: Seq<char>) -> ManagerView {
        ManagerView { sessions: self.sessions.remove(self.index_of(id)), ..self }
    }
}

/// One `handle_request` transition over the resolved session id: reuse the
/// session if it exists, its writer slot is free and its agent has not
/// been cancelled; otherwise create it under the admission rules; in
/// either case the request claims the writer slot and replays its user
/// inputs. Contention blocks by design: a busy writer slot answers
/// `LockContention`, which tells the caller to wait and retry — the slot
/// is released exactly by the holder's `end_stream`, after which the
/// retry succeeds (`lemma_contention_resolves`). A cancelled agent
/// answers `Cancelled`.
pub open spec fn spec_handle_request(m: ManagerView, sid: Seq<char>, inputs: Seq<Seq<char>>) -> (
    ManagerView,
    Result<DropAction, SessionError>,
) {
    if m.has_session(sid) {
        let s = m.session(sid);
        if s.writer_active {
            (m, Err(SessionError::LockContention))
        } else if s.cancel_requested {
            (m, Err(SessionError::Cancelled))
        } else {
            (
                m.with_session(
                    sid,
                    SessionView { writer_active: true, inputs: s.inputs + inputs, ..s },
                ),
                Ok(spec_lifecycle_action(s.ephemeral)),
            )
        }
    } else if !m.allow_creation {
        (m, Err(SessionError::CreationDisabled))
    } else if !m.may_create() {
        (m, Err(SessionError::AdmissionDenied))
    } else {
        (
            m.with_new_session(
                spec_new_session_view(
                    sid,
                    m.default_agent_name,
                    m.default_ephemeral,
                    true,
                    inputs,
                ),
            ),
            Ok(spec_lifecycle_action(m.default_ephemeral)),
        )
    }
}

/// A `cancel_session` transition: deliver a cancel if the session exists;
/// a missing id changes nothing and is no error.
pub open spec fn spec_cancel(m: ManagerView, sid: Seq<char>) -> ManagerView {
    if m.has_session(sid) {
        m.with_session(sid, SessionView { cancel_requested: true, ..m.session(sid) })
    } else {
        m
    }
}

/// A `delete_session` transition: remove the mapping unconditionally.
pub open spec fn spec_delete(m: ManagerView, sid: Seq<char>) -> ManagerView {
    if m.has_session(sid) {
        m.without_session(sid)
    } else {
        m
    }
}

/// An `end_stream` transition: the request's stream ended and its scope
/// guard ran. Both guards release the writer slot; the ephemeral guard
/// additionally delivers a cancel to the agent.
pub open spec fn spec_end_stream(m: ManagerView, sid: Seq<char>, action: DropAction) -> ManagerView {
    if m.has_session(sid) {
        let s = m.session(sid);
        match action {
            DropAction::ReleaseOnly => m.with_session(
                sid,
                SessionView { writer_active: false, ..s },
            ),
            DropAction::CancelThenRelease => m.with_session(
                sid,
                SessionView { writer_active: false, cancel_requested: true, ..s },
            ),
        }
    } else {
        m
    }
}

/// An `on_agent_exit` transition: the background agent task finished.
/// Ephemeral sessions are evicted; persistent ones stay registered until
/// an explicit delete.
pub open spec fn spec_on_agent_exit(m: ManagerView, sid: Seq<char>) -> ManagerView {
    if m.has_session(sid) && m.session(sid).ephemeral {
        m.without_session(sid)
    } else {
        m
    }
}

/// Keyed registry of live agent sessions.
pub struct SessionManager {
    pub entries: Vec<AgentSession>,
    pub max_sessions: Option<usize>,
    pub allow_creation: bool,
    pub default_config: SessionConfig,
}

impl View for SessionManager {
    type V = ManagerView;

    open spec fn view(&self) -> ManagerView {
        ManagerView {
            sessions: self.entries@.map_values(|s: AgentSession| s@),
            max_sessions: self.max_sessions,
            allow_creation: self.allow_creation,
            default_agent_name: match self.default_config.agent_name {
                Some(n) => Some(n@),
                None => None,
            },
            default_ephemeral: self.default_config.ephemeral,
        }
    }
}

impl SessionManager {
    /// An empty registry with the given admission cap and default session
    /// configuration; creation starts enabled.
    pub fn new(config: SessionManagerConfig) -> (r: Self)
        ensures
            r@.sessions == Seq::<SessionView>::empty(),
            r@.max_sessions == config.max_sessions,
            r@.allow_creation,
            r@.default_agent_name == (match config.agent_name {
                Some(n) => Some(n@),
                None => None::<Seq<char>>,
            }),
            r@.default_ephemeral == config.ephemeral,
            r@.wf(),
    {
        let r = SessionManager {
            entries: Vec::new(),
            max_sessions: config.max_sessions,
            allow_creation: true,
            default_config: SessionConfig {
                agent_name: config.agent_name,
                ephemeral: config.ephemeral,
            },
        };
        proof {
            assert(r@.sessions =~= Seq::<SessionView>::empty());
        }
        r
    }

    /// Number of active sessions.
    pub fn session_count(&self) -> (r: usize)
        ensures
            r == self@.count(),
    {
        self.entries.len()
    }

    /// Open or close the global creation gate, used for drain and
    /// shutdown.
    pub fn set_allow_creation(&mut self, allow: bool)
        ensures
            final(self)@ == (ManagerView { allow_creation: allow, ..old(self)@ }),
    {
        self.allow_creation = allow;
    }

    /// Index of the session with this id, if registered.
    fn find_index(&self, session_id: &String) -> (r: Option<usize>)
        ensures
            match r {
                Some(k) => k < self@.sessions.len() && self@.sessions[k as int].session_id
                    == session_id@ && self@.has_session(session_id@),
                None => !self@.has_session(session_id@),
            },
    {
        let mut i: usize = 0;
        while i < self.entries.len()
            invariant
                0 <= i <= self@.sessions.len(),
                forall|j: int| 0 <= j < i ==> self@.sessions[j].session_id != session_id@,
            decreases self@.sessions.len() - i,
        {
            if self.entries[i].session_id == *session_id {
                proof {
                    assert(self@.sessions[i as int] == self.entries@[i as int]@);
                    assert(self@.sessions[i as int].session_id == session_id@);
                    assert(self@.has_session(session_id@));
                }
                return Some(i);
            }
            i = i + 1;
        }
        None
    }

    /// Strict lookup: the session with this id, or `NotFound` — never a
    /// creation.
    pub fn get_session(&self, request_id: &String, session_id: &String) -> (r: Result<
        &AgentSession,
        SessionError,
    >)
        requires
            self@.wf(),
        ensures
            self@.has_session(session_id@) ==> (r matches Ok(s) && s@ == self@.session(session_id@)),
            !self@.has_session(session_id@) ==> r === Err(SessionError::NotFound),
    {
        match self.find_index(session_id) {
            Some(k) => {
                proof {
                    lemma_unique_index(self@, session_id@, k as int);
                }
                Ok(&self.entries[k])
            },
            None => Err(SessionError::NotFound),
        }
    }

    /// Best-effort cancel: deliver a cancel to the session if present; a
    /// missing id is no error, and cancelling twice is the same as once.
    pub fn cancel_session(&mut self, request_id: &String, session_id: &String) -> (r: Result<
        (),
        SessionError,
    >)
        requires
            old(self)@.wf(),
        ensures
            r is Ok,
            final(self)@ == spec_cancel(old(self)@, session_id@),
            final(self)@.wf(),
    {
        match self.find_index(session_id) {
            Some(k) => {
                proof {
                    lemma_unique_index(old(self)@, session_id@, k as int);
                }
                self.entries[k].cancel_requested = true;
                proof {
                    assert(self@.sessions =~= old(self)@.sessions.update(
                        k as int,
                        SessionView { cancel_requested: true, ..old(self)@.sessions[k as int] },
                    ));
                    lemma_update_preserves_wf(
                        old(self)@,
                        session_id@,
                        SessionView { cancel_requested: true, ..old(self)@.sessions[k as int] },
                    );
                }
            },
            None => {},
        }
        Ok(())
    }

    /// Remove the mapping unconditionally; returns whether an entry was
    /// removed. The underlying session may still be draining.
    pub fn delete_session(&mut self, session_id: &String) -> (r: bool)
        requires
            old(self)@.wf(),
        ensures
            r == old(self)@.has_session(session_id@),
            final(self)@ == spec_delete(old(self)@, session_id@),
            final(self)@.wf(),
    {
        match self.find_index(session_id) {
            Some(k) => {
                proof {
                    lemma_unique_index(old(self)@, session_id@, k as int);
                }
                self.entries.remove(k);
                proof {
                    assert(self@.sessions =~= old(self)@.sessions.remove(k as int));
                    lemma_remove_preserves_wf(old(self)@, session_id@);
                }
                true
            },
            None => false,
        }
    }
}

/// Verdict of the admission check made under the registry lock, before
/// agent construction.
pub enum Admission {
    /// The id is taken; reuse the session at this index.
    Existing { index: usize },
    /// The id is free and a session may be created.
    Create,
    /// The cap is reached.
    Denied,
    /// Creation is disabled.
    Disabled,
}

/// Outcome of inserting a freshly constructed session after the registry
/// lock was re-acquired.
pub enum InsertOutcome {
    /// The session is registered at this index.
    Inserted { index: usize },
    /// Another caller raced and registered the id first; the fresh
    /// session is dropped and the winner is at this index.
    RacedExisting { index: usize },
    /// Creation was disabled or the cap was reached in the meantime.
    DeniedNow,
}

/// The result a `handle_request` caller sees, against the transition's
/// result: on success the request session targets the resolved id, its
/// guard matches the session's teardown policy, and the id is echoed back.
pub open spec fn spec_request_result_matches(
    r: Result<(RequestSession, String), SessionError>,
    t: Result<DropAction, SessionError>,
    sid: Seq<char>,
) -> bool {
    match t {
        Ok(action) => r matches Ok((rs, rid)) && rs.session_id@ == sid && rs.action == action
            && rid@ == sid,
        Err(e) => r matches Err(e2) && e2 == e,
    }
}

impl SessionManager {
    /// Strict create: a new session under this id with the given identity
    /// and teardown policy. Fails `AlreadyExists` when the id is taken,
    /// `CreationDisabled` in drain mode, `AdmissionDenied` at the cap; on
    /// success returns the new session's index.
    pub fn create_new_session(
        &mut self,
        request_id: &String,
        session_id: &String,
        agent_name: Option<String>,
        ephemeral: bool,
    ) -> (r: Result<usize, SessionError>)
        requires
            old(self)@.wf(),
        ensures
            final(self)@.wf(),
            old(self)@.has_session(session_id@) ==> r === Err(SessionError::AlreadyExists)
                && *final(self) == *old(self),
            !old(self)@.has_session(session_id@) && !old(self)@.allow_creation ==> r === Err(
                SessionError::CreationDisabled,
            ) && *final(self) == *old(self),
            !old(self)@.has_session(session_id@) && old(self)@.allow_creation && !old(
                self,
            )@.may_create() ==> r === Err(SessionError::AdmissionDenied) && *final(self) == *old(
                self,
            ),
            !old(self)@.has_session(session_id@) && old(self)@.may_create() ==> (r matches Ok(k)
                && k == old(self)@.count() && final(self)@ == old(self)@.with_new_session(
                spec_new_session_view(
                    session_id@,
                    match agent_name {
                        Some(n) => Some(n@),
                        None => None,
                    },
                    ephemeral,
                    false,
                    Seq::empty(),
                ))),
    {
        match self.find_index(session_id) {
            Some(k) => Err(SessionError::AlreadyExists),
            None => {
                if !self.allow_creation {
                    return Err(SessionError::CreationDisabled);
                }
                match self.max_sessions {
                    Some(m) => {
                        if self.entries.len() >= m {
                            return Err(SessionError::AdmissionDenied);
                        }
                    },
                    None => {},
                }
                let k = self.entries.len();
                let session = AgentSession::new(
                    SessionConfig { agent_name, ephemeral },
                    session_id.clone(),
                );
                let ghost sv = session@;
                self.entries.push(session);
                proof {
                    assert(self@.sessions =~= old(self)@.sessions.push(sv));
                    lemma_push_preserves_wf(old(self)@, sv);
                }
                Ok(k)
            },
        }
    }

    /// Reuse the session under this id, or create it under the admission
    /// rules with the given configuration (the manager's default when
    /// absent); on success returns the session's index.
    pub fn get_or_create_session(
        &mut self,
        request_id: &String,
        session_id: &String,
        config: Option<SessionConfig>,
    ) -> (r: Result<usize, SessionError>)
        requires
            old(self)@.wf(),
        ensures
            final(self)@.wf(),
            old(self)@.has_session(session_id@) ==> (r matches Ok(k) && k == old(self)@.index_of(
                session_id@,
            ) && *final(self) == *old(self)),
            !old(self)@.has_session(session_id@) && !old(self)@.allow_creation ==> r === Err(
                SessionError::CreationDisabled,
            ) && *final(self) == *old(self),
            !old(self)@.has_session(session_id@) && old(self)@.allow_creation && !old(
                self,
            )@.may_create() ==> r === Err(SessionError::AdmissionDenied) && *final(self) == *old(
                self,
            ),
            !old(self)@.has_session(session_id@) && old(self)@.may_create() ==> (r matches Ok(k)
                && k == old(self)@.count() && final(self)@ == old(self)@.with_new_session(
                spec_new_session_view(
                    session_id@,
                    match config {
                        Some(c) => match c.agent_name {
                            Some(n) => Some(n@),
                            None => None,
                        },
                        None => old(self)@.default_agent_name,
                    },
                    match config {
                        Some(c) => c.ephemeral,
                        None => old(self)@.default_ephemeral,
                    },
                    false,
                    Seq::empty(),
                ))),
    {
        match self.find_index(session_id) {
            Some(k) => {
                proof {
                    lemma_unique_index(old(self)@, session_id@, k as int);
                }
                Ok(k)
            },
            None => {
                if !self.allow_creation {
                    return Err(SessionError::CreationDisabled);
                }
                match self.max_sessions {
                    Some(m) => {
                        if self.entries.len() >= m {
                            return Err(SessionError::AdmissionDenied);
                        }
                    },
                    None => {},
                }
                let session_config = match config {
                    Some(c) => c,
                    None => self.default_config.clone(),
                };
                let k = self.entries.len();
                let session = AgentSession::new(session_config, session_id.clone());
                let ghost sv = session@;
                self.entries.push(session);
                proof {
                    assert(self@.sessions =~= old(self)@.sessions.push(sv));
                    lemma_push_preserves_wf(old(self)@, sv);
                }
                Ok(k)
            },
        }
    }

    /// Admission check, made under the registry lock before agent
    /// construction: an existing session is reused; otherwise creation
    /// must be enabled and below the cap.
    pub fn check_admission(&self, session_id: &String) -> (r: Admission)
        requires
            self@.wf(),
        ensures
            self@.has_session(session_id@) ==> (r matches Admission::Existing { index } && index
                == self@.index_of(session_id@)),
            !self@.has_session(session_id@) && !self@.allow_creation ==> r === Admission::Disabled,
            !self@.has_session(session_id@) && self@.allow_creation && !self@.may_create() ==> r
                === Admission::Denied,
            !self@.has_session(session_id@) && self@.may_create() ==> r === Admission::Create,
    {
        match self.find_index(session_id) {
            Some(k) => {
                proof {
                    lemma_unique_index(self@, session_id@, k as int);
                }
                Admission::Existing { index: k }
            },
            None => {
                if !self.allow_creation {
                    Admission::Disabled
                } else {
                    match self.max_sessions {
                        Some(m) => {
                            if self.entries.len() >= m {
                                Admission::Denied
                            } else {
                                Admission::Create
                            }
                        },
                        None => Admission::Create,
                    }
                }
            },
        }
    }

    /// Reconcile step of the single-flight creation discipline: the
    /// registry lock was released while the agent came up, so the world
    /// may have moved. If another caller raced and inserted the id first,
    /// the fresh session is dropped and the winner returned; if creation
    /// was disabled or the cap was reached meanwhile, the insert is
    /// refused, which
    /// keeps the registry within its cap; otherwise the session is
    /// registered.
    pub fn insert_session(&mut self, session: AgentSession) -> (r: InsertOutcome)
        requires
            old(self)@.wf(),
        ensures
            final(self)@.wf(),
            old(self)@.has_session(session@.session_id) ==> (r matches InsertOutcome::RacedExisting
                { index } && index == old(self)@.index_of(session@.session_id) && *final(self)
                == *old(self)),
            !old(self)@.has_session(session@.session_id) && !old(self)@.may_create() ==> r
                === InsertOutcome::DeniedNow && *final(self) == *old(self),
            !old(self)@.has_session(session@.session_id) && old(self)@.may_create() ==> (r matches
                InsertOutcome::Inserted { index } && index == old(self)@.count() && final(self)@
                == old(self)@.with_new_session(session@)),
    {
        match self.find_index(&session.session_id) {
            Some(k) => {
                proof {
                    lemma_unique_index(old(self)@, session.session_id@, k as int);
                }
                InsertOutcome::RacedExisting { index: k }
            },
            None => {
                if !self.allow_creation {
                    return InsertOutcome::DeniedNow;
                }
                match self.max_sessions {
                    Some(m) => {
                        if self.entries.len() >= m {
                            return InsertOutcome::DeniedNow;
                        }
                    },
                    None => {},
                }
                let k = self.entries.len();
                let ghost sv = session@;
                self.entries.push(session);
                proof {
                    assert(self@.sessions =~= old(self)@.sessions.push(sv));
                    lemma_push_preserves_wf(old(self)@, sv);
                }
                InsertOutcome::Inserted { index: k }
            },
        }
    }

    /// Handle an incoming request: resolve the session id (generating a
    /// fresh one when the client supplied none), reuse or create the
    /// session, claim its writer slot and replay the trace's user inputs.
    /// The resolved id is returned beside the request session so the
    /// handler can echo it to the client. One call is one attempt of the
    /// blocking acquire: on `LockContention` nothing has changed and the
    /// caller waits for the holder's `end_stream`, then retries with the
    /// same id — the retry succeeds (`lemma_contention_resolves`), so two
    /// back-to-back writers both succeed, the second only after the
    /// first's slot is released.
    pub fn handle_request(
        &mut self,
        trace: &Vec<ChatMessage>,
        session_id: Option<String>,
        request_id: String,
    ) -> (r: Result<(RequestSession, String), SessionError>)
        requires
            old(self)@.wf(),
        ensures
            final(self)@.wf(),
            match session_id {
                Some(sid) => final(self)@ == spec_handle_request(
                    old(self)@,
                    sid@,
                    spec_user_inputs(trace@),
                ).0 && spec_request_result_matches(
                    r,
                    spec_handle_request(old(self)@, sid@, spec_user_inputs(trace@)).1,
                    sid@,
                ),
                None => exists|gid: Seq<char>|
                    #![auto]
                    gid.len() == 36 && final(self)@ == spec_handle_request(
                        old(self)@,
                        gid,
                        spec_user_inputs(trace@),
                    ).0 && spec_request_result_matches(
                        r,
                        spec_handle_request(old(self)@, gid, spec_user_inputs(trace@)).1,
                        gid,
                    ),
            },
    {
        let sid: String = match session_id {
            Some(s) => s,
            None => fresh_id(),
        };
        let ghost g_sid = sid@;
        let ghost g_inputs = spec_user_inputs(trace@);
        let ghost t = spec_handle_request(old(self)@, g_sid, g_inputs);
        let k = match self.get_or_create_session(&request_id, &sid, None) {
            Ok(k) => k,
            Err(e) => {
                return Err(e);
            },
        };
        let ghost mid = self@;
        let ghost pre_entry = self.entries@[k as int]@;
        let hr = self.entries[k].handle_request(&request_id, trace);
        proof {
            if old(self)@.has_session(g_sid) {
                lemma_unique_index(old(self)@, g_sid, k as int);
            } else {
                assert(mid.sessions[k as int].session_id == g_sid);
                lemma_push_preserves_wf(
                    old(self)@,
                    spec_new_session_view(
                        g_sid,
                        old(self)@.default_agent_name,
                        old(self)@.default_ephemeral,
                        false,
                        Seq::empty(),
                    ),
                );
                lemma_unique_index(mid, g_sid, k as int);
            }
        }
        match hr {
            Ok(rs) => {
                proof {
                    assert(self@.sessions =~= mid.sessions.update(
                        k as int,
                        self.entries@[k as int]@,
                    ));
                    lemma_update_preserves_wf(mid, g_sid, self.entries@[k as int]@);
                    if old(self)@.has_session(g_sid) {
                        assert(self@.sessions =~= t.0.sessions);
                    } else {
                        assert(Seq::<Seq<char>>::empty() + g_inputs =~= g_inputs);
                        assert(self@.sessions =~= old(self)@.sessions.push(
                            spec_new_session_view(
                                g_sid,
                                old(self)@.default_agent_name,
                                old(self)@.default_ephemeral,
                                true,
                                g_inputs,
                            ),
                        ));
                        assert(self@.sessions =~= t.0.sessions);
                    }
                }
                Ok((rs, sid))
            },
            Err(e) => {
                proof {
                    assert(self@.sessions =~= mid.sessions.update(k as int, pre_entry));
                    assert(self@.sessions =~= mid.sessions);
                }
                Err(e)
            },
        }
    }

    /// A request's stream has ended and its scope guard has run: release
    /// the writer slot, and for an ephemeral request deliver the guard's
    /// detached cancel. A session already gone is a no-op.
    pub fn end_stream(&mut self, request_session: RequestSession)
        requires
            old(self)@.wf(),
        ensures
            final(self)@.wf(),
            final(self)@ == spec_end_stream(
                old(self)@,
                request_session.session_id@,
                request_session.action,
            ),
    {
        match self.find_index(&request_session.session_id) {
            Some(k) => {
                proof {
                    lemma_unique_index(old(self)@, request_session.session_id@, k as int);
                }
                match request_session.action {
                    DropAction::ReleaseOnly => {
                        self.entries[k].writer_active = false;
                    },
                    DropAction::CancelThenRelease => {
                        self.entries[k].writer_active = false;
                        self.entries[k].cancel_requested = true;
                    },
                }
                proof {
                    assert(self@.sessions =~= old(self)@.sessions.update(
                        k as int,
                        self.entries@[k as int]@,
                    ));
                    lemma_update_preserves_wf(
                        old(self)@,
                        request_session.session_id@,
                        self.entries@[k as int]@,
                    );
                }
            },
            None => {},
        }
    }

    /// The background agent task has exited. Ephemeral sessions are
    /// evicted from the registry; persistent ones stay until an explicit
    /// delete. Returns whether an entry was removed.
    pub fn on_agent_exit(&mut self, session_id: &String) -> (r: bool)
        requires
            old(self)@.wf(),
        ensures
            final(self)@.wf(),
            final(self)@ == spec_on_agent_exit(old(self)@, session_id@),
            r == (old(self)@.has_session(session_id@) && old(self)@.session(session_id@).ephemeral),
    {
        match self.find_index(session_id) {
            Some(k) => {
                proof {
                    lemma_unique_index(old(self)@, session_id@, k as int);
                }
                if self.entries[k].ephemeral {
                    self.entries.remove(k);
                    proof {
                        assert(self@.sessions =~= old(self)@.sessions.remove(k as int));
                        lemma_remove_preserves_wf(old(self)@, session_id@);
                    }
                    true
                } else {
                    false
                }
            },
            None => false,
        }
    }
}

/// Appending a session under a fresh id preserves well-formedness when the
/// registry is below its cap.
pub proof fn lemma_push_preserves_wf(m: ManagerView, s: SessionView)
    requires
        m.wf(),
        !m.has_session(s.session_id),
        match m.max_sessions {
            Some(mx) => m.count() < mx,
            None => true,
        },
    ensures
        m.with_new_session(s).wf(),
        m.with_new_session(s).has_session(s.session_id),
        m.with_new_session(s).index_of(s.session_id) == m.count(),
        m.with_new_session(s).session(s.session_id) == s,
        forall|x: Seq<char>|
            x != s.session_id ==> m.with_new_session(s).has_session(x) == m.has_session(x),
        m.with_new_session(s).count() == m.count() + 1,
{
    let m2 = m.with_new_session(s);
    let n = m.sessions.len() as int;
    assert(m2.sessions[n] == s);
    assert forall|i: int, j: int| 0 <= i < j < m2.sessions.len() implies m2.sessions[i].session_id
        != m2.sessions[j].session_id by {
        if j == n {
            assert(m2.sessions[i] == m.sessions[i]);
            if m.sessions[i].session_id == s.session_id {
                assert(m.has_session(s.session_id));
            }
        }
    }
    assert(m2.has_session(s.session_id));
    lemma_unique_index(m2, s.session_id, n);
    assert forall|x: Seq<char>| x != s.session_id && m.has_session(x) implies m2.has_session(
        x,
    ) by {
        let i = m.index_of(x);
        assert(m2.sessions[i].session_id == x);
    }
    assert forall|x: Seq<char>| x != s.session_id && m2.has_session(x) implies m.has_session(
        x,
    ) by {
        let i = choose|i: int| 0 <= i < m2.sessions.len() && m2.sessions[i].session_id == x;
        assert(i != n);
        assert(m.sessions[i].session_id == x);
    }
}

/// Under unique ids, any index holding the id is the chosen one.
pub proof fn lemma_unique_index(m: ManagerView, id: Seq<char>, k: int)
    requires
        m.wf(),
        0 <= k < m.sessions.len(),
        m.sessions[k].session_id == id,
    ensures
        m.has_session(id),
        m.index_of(id) == k,
        m.session(id) == m.sessions[k],
{
    assert(m.has_session(id));
    let i = m.index_of(id);
    assert(0 <= i < m.sessions.len() && m.sessions[i].session_id == id);
    if i != k {
        if i < k {
            assert(m.sessions[i].session_id != m.sessions[k].session_id);
        } else {
            assert(m.sessions[k].session_id != m.sessions[i].session_id);
        }
    }
}

/// Replacing a session without changing its id preserves well-formedness
/// and which ids are registered.
pub proof fn lemma_update_preserves_wf(m: ManagerView, id: Seq<char>, s: SessionView)
    requires
        m.wf(),
        m.has_session(id),
        s.session_id == m.session(id).session_id,
    ensures
        m.with_session(id, s).wf(),
        forall|x: Seq<char>| m.with_session(id, s).has_session(x) == m.has_session(x),
        m.with_session(id, s).count() == m.count(),
{
    let k = m.index_of(id);
    assert(0 <= k < m.sessions.len() && m.sessions[k].session_id == id);
    let m2 = m.with_session(id, s);
    assert forall|x: Seq<char>| m2.has_session(x) == m.has_session(x) by {
        if m.has_session(x) {
            let i = m.index_of(x);
            assert(0 <= i < m.sessions.len() && m.sessions[i].session_id == x);
            assert(m2.sessions[i].session_id == x);
        }
        if m2.has_session(x) {
            let i = choose|i: int|
                0 <= i < m2.sessions.len() && m2.sessions[i].session_id == x;
            assert(m.sessions[i].session_id == x);
        }
    }
}

/// Removing a session preserves well-formedness; its id is gone and every
/// other id stays.
pub proof fn lemma_remove_preserves_wf(m: ManagerView, id: Seq<char>)
    requires
        m.wf(),
        m.has_session(id),
    ensures
        m.without_session(id).wf(),
        !m.without_session(id).has_session(id),
        forall|x: Seq<char>|
            x != id ==> m.without_session(id).has_session(x) == m.has_session(x),
        m.without_session(id).count() == m.count() - 1,
{
    let k = m.index_of(id);
    assert(0 <= k < m.sessions.len() && m.sessions[k].session_id == id);
    let m2 = m.without_session(id);
    assert(m2.sessions.len() == m.sessions.len() - 1);
    assert forall|i: int| 0 <= i < m2.sessions.len() implies #[trigger] m2.sessions[i]
        == (if i < k {
        m.sessions[i]
    } else {
        m.sessions[i + 1]
    }) by {}
    assert forall|i: int, j: int| 0 <= i < j < m2.sessions.len() implies m2.sessions[i].session_id
        != m2.sessions[j].session_id by {}
    if m2.has_session(id) {
        let i = choose|i: int| 0 <= i < m2.sessions.len() && m2.sessions[i].session_id == id;
        if i < k {
            assert(m.sessions[i].session_id == id);
            assert(false);
        } else {
            assert(m.sessions[i + 1].session_id == id);
            assert(false);
        }
    }
    assert forall|x: Seq<char>| x != id && m.has_session(x) implies m2.has_session(x) by {
        let i = m.index_of(x);
        assert(0 <= i < m.sessions.len() && m.sessions[i].session_id == x);
        assert(i != k);
        if i < k {
            assert(m2.sessions[i].session_id == x);
        } else {
            assert(m2.sessions[i - 1].session_id == x);
        }
    }
    assert forall|x: Seq<char>| x != id && m2.has_session(x) implies m.has_session(x) by {
        let i = choose|i: int| 0 <= i < m2.sessions.len() && m2.sessions[i].session_id == x;
        if i < k {
            assert(m.sessions[i].session_id == x);
        } else {
            assert(m.sessions[i + 1].session_id == x);
        }
    }
}

/// Exclusive writer: once a request has claimed a session's writer slot,
/// a second request against the same id is refused with `LockContention`
/// and changes nothing — at most one request session writes to a session
/// at any moment, until its stream's end releases the slot.
pub proof fn lemma_exclusive_writer(
    m: ManagerView,
    sid: Seq<char>,
    inputs1: Seq<Seq<char>>,
    inputs2: Seq<Seq<char>>,
)
    requires
        m.wf(),
        spec_handle_request(m, sid, inputs1).1 is Ok,
    ensures
        ({
            let m1 = spec_handle_request(m, sid, inputs1).0;
            spec_handle_request(m1, sid, inputs2) == (
                m1,
                Err::<DropAction, SessionError>(SessionError::LockContention),
            )
        }),
{
    let m1 = spec_handle_request(m, sid, inputs1).0;
    if m.has_session(sid) {
        let s = m.session(sid);
        assert(!s.writer_active);
        let s2 = SessionView { writer_active: true, inputs: s.inputs + inputs1, ..s };
        lemma_update_preserves_wf(m, sid, s2);
        lemma_unique_index(m1, sid, m.index_of(sid));
        assert(m1.session(sid).writer_active);
    } else {
        let s2 = spec_new_session_view(sid, m.default_agent_name, m.default_ephemeral, true, inputs1);
        lemma_push_preserves_wf(m, s2);
        assert(m1.session(sid).writer_active);
    }
}

/// The registry never exceeds `max_sessions` when a cap is set: bounded
/// occupancy is part of well-formedness, which every registry transition
/// preserves.
pub proof fn lemma_registry_bounded(m: ManagerView, mx: usize)
    requires
        m.wf(),
        m.max_sessions == Some(mx),
    ensures
        m.count() <= mx,
{
}

/// Ephemeral teardown: when an ephemeral session's stream ends, its guard
/// cancels the agent, and the agent task's exit evicts the session — it is
/// absent from the registry afterwards.
pub proof fn lemma_ephemeral_evicted(m: ManagerView, sid: Seq<char>)
    requires
        m.wf(),
        m.has_session(sid),
        m.session(sid).ephemeral,
    ensures
        ({
            let m1 = spec_end_stream(m, sid, spec_lifecycle_action(true));
            &&& m1.session(sid).cancel_requested
            &&& !m1.session(sid).writer_active
            &&& !spec_on_agent_exit(m1, sid).has_session(sid)
        }),
{
    let s = m.session(sid);
    let s2 = SessionView { writer_active: false, cancel_requested: true, ..s };
    let m1 = spec_end_stream(m, sid, spec_lifecycle_action(true));
    lemma_update_preserves_wf(m, sid, s2);
    lemma_unique_index(m1, sid, m.index_of(sid));
    assert(m1.session(sid) == s2);
    lemma_remove_preserves_wf(m1, sid);
}

/// Persistent retention: a persistent session survives its stream's end
/// and even its agent's exit; it leaves the registry only through an
/// explicit delete.
pub proof fn lemma_persistent_retained(m: ManagerView, sid: Seq<char>)
    requires
        m.wf(),
        m.has_session(sid),
        !m.session(sid).ephemeral,
    ensures
        ({
            let m1 = spec_end_stream(m, sid, spec_lifecycle_action(false));
            &&& m1.has_session(sid)
            &&& !m1.session(sid).writer_active
            &&& m1.count() == m.count()
            &&& spec_on_agent_exit(m1, sid) == m1
            &&& !spec_delete(m1, sid).has_session(sid)
        }),
{
    let s = m.session(sid);
    let s2 = SessionView { writer_active: false, ..s };
    let m1 = spec_end_stream(m, sid, spec_lifecycle_action(false));
    lemma_update_preserves_wf(m, sid, s2);
    lemma_unique_index(m1, sid, m.index_of(sid));
    assert(m1.session(sid) == s2);
    lemma_remove_preserves_wf(m1, sid);
}

/// Cancel is idempotent: cancelling a missing session changes nothing,
/// and cancelling twice is the same as cancelling once.
pub proof fn lemma_cancel_idempotent(m: ManagerView, sid: Seq<char>)
    requires
        m.wf(),
    ensures
        !m.has_session(sid) ==> spec_cancel(m, sid) == m,
        spec_cancel(spec_cancel(m, sid), sid) == spec_cancel(m, sid),
{
    if m.has_session(sid) {
        let s = m.session(sid);
        let s2 = SessionView { cancel_requested: true, ..s };
        let m1 = spec_cancel(m, sid);
        lemma_update_preserves_wf(m, sid, s2);
        lemma_unique_index(m1, sid, m.index_of(sid));
        assert(m1.session(sid) == s2);
        let m2 = spec_cancel(m1, sid);
        assert(SessionView { cancel_requested: true, ..s2 } == s2);
        assert(m2.sessions =~= m1.sessions.update(m1.index_of(sid), s2));
        assert(m1.sessions.update(m1.index_of(sid), s2) =~= m1.sessions);
        assert(m2 == m1);
    }
}

/// Admission is exact: with the cap reached, a request for a fresh id is
/// denied and changes nothing.
pub proof fn lemma_admission_denied_at_cap(
    m: ManagerView,
    sid: Seq<char>,
    inputs: Seq<Seq<char>>,
    mx: usize,
)
    requires
        m.wf(),
        m.allow_creation,
        m.max_sessions == Some(mx),
        m.count() >= mx,
        !m.has_session(sid),
    ensures
        spec_handle_request(m, sid, inputs) == (
            m,
            Err::<DropAction, SessionError>(SessionError::AdmissionDenied),
        ),
{
}

/// Admission is exact: below the cap, a request for a fresh id succeeds
/// and registers exactly one new session under that id.
pub proof fn lemma_admission_granted(m: ManagerView, sid: Seq<char>, inputs: Seq<Seq<char>>)
    requires
        m.wf(),
        !m.has_session(sid),
        m.may_create(),
    ensures
        ({
            let t = spec_handle_request(m, sid, inputs);
            &&& t.1 is Ok
            &&& t.0.wf()
            &&& t.0.has_session(sid)
            &&& t.0.count() == m.count() + 1
            &&& t.0.session(sid).writer_active
            &&& t.0.session(sid).inputs == inputs
        }),
{
    let s2 = spec_new_session_view(sid, m.default_agent_name, m.default_ephemeral, true, inputs);
    lemma_push_preserves_wf(m, s2);
}

/// Echoed ids reach the same session, and a persistent session serves
/// turn after turn: a request without an id creates a session under the
/// generated id; when the manager's default policy is persistent, a later
/// request bearing that echoed id is served by the very same session after
/// the first stream ends — strict lookup finds it, nothing new is created,
/// and the inputs of both turns accumulate in order. A cancel on the id
/// after the second stream ends delivers the cancel while the session
/// stays registered.
pub proof fn lemma_echoed_id_reuses_session(
    m: ManagerView,
    sid: Seq<char>,
    inputs1: Seq<Seq<char>>,
    inputs2: Seq<Seq<char>>,
)
    requires
        m.wf(),
        !m.has_session(sid),
        m.may_create(),
        !m.default_ephemeral,
    ensures
        ({
            let m1 = spec_handle_request(m, sid, inputs1).0;
            let m2 = spec_end_stream(m1, sid, spec_lifecycle_action(m.default_ephemeral));
            let t3 = spec_handle_request(m2, sid, inputs2);
            let m4 = spec_end_stream(t3.0, sid, spec_lifecycle_action(m.default_ephemeral));
            let m5 = spec_cancel(m4, sid);
            &&& m2.has_session(sid)
            &&& t3.1 is Ok
            &&& t3.0.count() == m.count() + 1
            &&& t3.0.session(sid).inputs == inputs1 + inputs2
            &&& m5.has_session(sid)
            &&& m5.count() == m.count() + 1
            &&& m5.session(sid).cancel_requested
        }),
{
    let s1 = spec_new_session_view(sid, m.default_agent_name, m.default_ephemeral, true, inputs1);
    lemma_push_preserves_wf(m, s1);
    let m1 = spec_handle_request(m, sid, inputs1).0;
    assert(m1.session(sid) == s1);
    let s2 = SessionView { writer_active: false, ..s1 };
    let m2 = spec_end_stream(m1, sid, spec_lifecycle_action(m.default_ephemeral));
    lemma_update_preserves_wf(m1, sid, s2);
    lemma_unique_index(m2, sid, m1.index_of(sid));
    assert(m2.session(sid) == s2);
    let s3 = SessionView { writer_active: true, inputs: s2.inputs + inputs2, ..s2 };
    let t3 = spec_handle_request(m2, sid, inputs2);
    lemma_update_preserves_wf(m2, sid, s3);
    lemma_unique_index(t3.0, sid, m2.index_of(sid));
    assert(t3.0.session(sid) == s3);
    let s4 = SessionView { writer_active: false, ..s3 };
    let m4 = spec_end_stream(t3.0, sid, spec_lifecycle_action(m.default_ephemeral));
    lemma_update_preserves_wf(t3.0, sid, s4);
    lemma_unique_index(m4, sid, t3.0.index_of(sid));
    assert(m4.session(sid) == s4);
    let s5 = SessionView { cancel_requested: true, ..s4 };
    let m5 = spec_cancel(m4, sid);
    lemma_update_preserves_wf(m4, sid, s5);
    lemma_unique_index(m5, sid, m4.index_of(sid));
    assert(m5.session(sid) == s5);
}

/// Write contention resolves at release: while another request holds a
/// persistent session's writer slot, a new request is told to wait —
/// `LockContention`, with nothing changed — and the slot is released
/// exactly by the holder's stream end, after which the waiting request
/// succeeds on the very same session. Back-to-back writers both succeed;
/// the second begins only after the first's slot is released.
pub proof fn lemma_contention_resolves(m: ManagerView, sid: Seq<char>, inputs: Seq<Seq<char>>)
    requires
        m.wf(),
        m.has_session(sid),
        m.session(sid).writer_active,
        !m.session(sid).cancel_requested,
        !m.session(sid).ephemeral,
    ensures
        spec_handle_request(m, sid, inputs) == (
            m,
            Err::<DropAction, SessionError>(SessionError::LockContention),
        ),
        ({
            let m2 = spec_end_stream(m, sid, spec_lifecycle_action(false));
            let t = spec_handle_request(m2, sid, inputs);
            &&& !m2.session(sid).writer_active
            &&& t.1 == Ok::<DropAction, SessionError>(spec_lifecycle_action(false))
            &&& t.0.count() == m.count()
            &&& t.0.session(sid).inputs == m.session(sid).inputs + inputs
        }),
{
    let s = m.session(sid);
    let s2 = SessionView { writer_active: false, ..s };
    let m2 = spec_end_stream(m, sid, spec_lifecycle_action(false));
    lemma_update_preserves_wf(m, sid, s2);
    lemma_unique_index(m2, sid, m.index_of(sid));
    assert(m2.session(sid) == s2);
    let s3 = SessionView { writer_active: true, inputs: s2.inputs + inputs, ..s2 };
    let t = spec_handle_request(m2, sid, inputs);
    lemma_update_preserves_wf(m2, sid, s3);
    lemma_unique_index(t.0, sid, m2.index_of(sid));
    assert(t.0.session(sid) == s3);
}

/// Ephemeral single shot: a request under a fresh id on a manager whose
/// default policy is ephemeral creates the session, claims the writer slot
/// and replays the inputs; the stream's end delivers the guard's cancel,
/// and the agent's exit evicts the session — the registry holds what it
/// held before.
pub proof fn lemma_ephemeral_single_shot(m: ManagerView, sid: Seq<char>, inputs: Seq<Seq<char>>)
    requires
        m.wf(),
        !m.has_session(sid),
        m.may_create(),
        m.default_ephemeral,
    ensures
        ({
            let t = spec_handle_request(m, sid, inputs);
            let m2 = spec_end_stream(t.0, sid, spec_lifecycle_action(true));
            let m3 = spec_on_agent_exit(m2, sid);
            &&& t.1 == Ok::<DropAction, SessionError>(DropAction::CancelThenRelease)
            &&& t.0.session(sid).writer_active
            &&& t.0.session(sid).inputs == inputs
            &&& m2.session(sid).cancel_requested
            &&& !m3.has_session(sid)
            &&& m3.count() == m.count()
        }),
{
    let s1 = spec_new_session_view(sid, m.default_agent_name, m.default_ephemeral, true, inputs);
    lemma_push_preserves_wf(m, s1);
    let t = spec_handle_request(m, sid, inputs);
    assert(t.0.session(sid) == s1);
    let s2 = SessionView { writer_active: false, cancel_requested: true, ..s1 };
    let m2 = spec_end_stream(t.0, sid, spec_lifecycle_action(true));
    lemma_update_preserves_wf(t.0, sid, s2);
    lemma_unique_index(m2, sid, t.0.index_of(sid));
    assert(m2.session(sid) == s2);
    lemma_remove_preserves_wf(m2, sid);
}

} // verus!
