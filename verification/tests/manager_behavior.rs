use shai_http::lifecycle::DropAction;
use shai_http::manager::{Admission, InsertOutcome, SessionManager, SessionManagerConfig};
use shai_http::messages::{ChatMessage, MessageContent};
use shai_http::session::{AgentSession, SessionConfig, SessionError};

fn user(text: &str) -> ChatMessage {
    ChatMessage::User {
        content: MessageContent::Text { text: text.to_string() },
        name: None,
    }
}

fn config(max: Option<usize>, ephemeral: bool) -> SessionManagerConfig {
    SessionManagerConfig { max_sessions: max, agent_name: None, ephemeral }
}

fn rid() -> String {
    "req-1".to_string()
}

#[test]
fn session_id_is_echoed_for_generated_ids() {
    let mut m = SessionManager::new(config(None, false));
    let trace = vec![user("hi")];
    let (rs, id) = m.handle_request(&trace, None, rid()).unwrap();
    assert_eq!(rs.session_id, id);
    assert_eq!(id.len(), 36);
    assert_eq!(m.session_count(), 1);
}

#[test]
fn echoed_id_reuses_the_same_persistent_session() {
    let mut m = SessionManager::new(config(None, false));
    let (rs, id) = m.handle_request(&vec![user("a")], None, rid()).unwrap();
    assert_eq!(rs.action, DropAction::ReleaseOnly);
    m.end_stream(rs);
    let (rs2, id2) = m.handle_request(&vec![user("b")], Some(id.clone()), rid()).unwrap();
    assert_eq!(id2, id);
    assert_eq!(m.session_count(), 1);
    let s = m.get_session(&rid(), &id).unwrap();
    assert_eq!(s.inputs, vec!["a".to_string(), "b".to_string()]);
    m.end_stream(rs2);
}

#[test]
fn second_writer_waits_for_release_then_succeeds() {
    let mut m = SessionManager::new(config(None, false));
    let (rs, id) = m.handle_request(&vec![user("a")], None, rid()).unwrap();
    // Contention blocks: while the first stream is open, an attempt for
    // the second writer reports contention and changes nothing; the shell
    // waits on that signal.
    let waiting = m.handle_request(&vec![user("b")], Some(id.clone()), rid());
    assert_eq!(waiting.unwrap_err(), SessionError::LockContention);
    assert_eq!(m.session_count(), 1);
    assert_eq!(m.get_session(&rid(), &id).unwrap().inputs, vec!["a".to_string()]);
    // The holder's stream ends, releasing the slot; the retried request
    // succeeds on the very same session -- both writers succeed, the
    // second beginning only after the first's release.
    m.end_stream(rs);
    let (rs2, id2) = m.handle_request(&vec![user("b")], Some(id.clone()), rid()).unwrap();
    assert_eq!(id2, id);
    assert_eq!(m.session_count(), 1);
    let s = m.get_session(&rid(), &id).unwrap();
    assert_eq!(s.inputs, vec!["a".to_string(), "b".to_string()]);
    m.end_stream(rs2);
}

#[test]
fn ephemeral_session_is_evicted_after_stream_end_and_agent_exit() {
    let mut m = SessionManager::new(config(None, true));
    let (rs, id) = m.handle_request(&vec![user("hi")], None, rid()).unwrap();
    assert_eq!(rs.action, DropAction::CancelThenRelease);
    m.end_stream(rs);
    let s = m.get_session(&rid(), &id).unwrap();
    assert!(s.cancel_requested);
    assert!(!s.writer_active);
    assert!(m.on_agent_exit(&id));
    assert_eq!(m.session_count(), 0);
    assert_eq!(m.get_session(&rid(), &id).unwrap_err(), SessionError::NotFound);
}

#[test]
fn persistent_session_survives_stream_end_and_agent_exit() {
    let mut m = SessionManager::new(config(None, false));
    let (rs, id) = m.handle_request(&vec![user("hi")], None, rid()).unwrap();
    m.end_stream(rs);
    assert!(!m.on_agent_exit(&id));
    assert_eq!(m.session_count(), 1);
    assert!(m.delete_session(&id));
    assert_eq!(m.session_count(), 0);
    assert!(!m.delete_session(&id));
}

#[test]
fn admission_cap_is_exact() {
    let mut m = SessionManager::new(config(Some(2), false));
    let a = m.create_new_session(&rid(), &"a".to_string(), None, false);
    assert!(a.is_ok());
    let b = m.create_new_session(&rid(), &"b".to_string(), None, false);
    assert!(b.is_ok());
    let c = m.create_new_session(&rid(), &"c".to_string(), None, false);
    let err = c.unwrap_err();
    assert_eq!(err, SessionError::AdmissionDenied);
    let envelope = err.error_response();
    assert_eq!(envelope.error.kind, "internal_error");
    assert_eq!(envelope.status_code(), 500);
    assert_eq!(m.session_count(), 2);
}

#[test]
fn cap_of_one_rejects_second_id_but_reuses_first() {
    let mut m = SessionManager::new(config(Some(1), false));
    let (rs, id_a) = m.handle_request(&vec![user("a")], None, rid()).unwrap();
    m.end_stream(rs);
    let denied = m.handle_request(&vec![user("b")], Some("other".to_string()), rid());
    assert_eq!(denied.unwrap_err(), SessionError::AdmissionDenied);
    let reused = m.handle_request(&vec![user("b")], Some(id_a), rid());
    assert!(reused.is_ok());
    assert_eq!(m.session_count(), 1);
}

#[test]
fn create_new_session_is_strict_about_existing_ids() {
    let mut m = SessionManager::new(config(None, false));
    let id = "dup".to_string();
    assert!(m.create_new_session(&rid(), &id, Some("coder".to_string()), true).is_ok());
    let again = m.create_new_session(&rid(), &id, None, true);
    assert_eq!(again.unwrap_err(), SessionError::AlreadyExists);
    let s = m.get_session(&rid(), &id).unwrap();
    assert_eq!(s.agent_name, "coder");
    assert!(s.ephemeral);
}

#[test]
fn creation_disabled_refuses_new_sessions_but_serves_existing() {
    let mut m = SessionManager::new(config(None, false));
    let (rs, id) = m.handle_request(&vec![user("a")], None, rid()).unwrap();
    m.end_stream(rs);
    m.set_allow_creation(false);
    let refused = m.handle_request(&vec![user("b")], Some("fresh".to_string()), rid());
    assert_eq!(refused.unwrap_err(), SessionError::CreationDisabled);
    let served = m.handle_request(&vec![user("b")], Some(id), rid());
    assert!(served.is_ok());
}

#[test]
fn cancel_is_idempotent_on_missing_and_cancelled_sessions() {
    let mut m = SessionManager::new(config(None, false));
    assert!(m.cancel_session(&rid(), &"ghost".to_string()).is_ok());
    let (rs, id) = m.handle_request(&vec![user("a")], None, rid()).unwrap();
    m.end_stream(rs);
    assert!(m.cancel_session(&rid(), &id).is_ok());
    assert!(m.get_session(&rid(), &id).unwrap().cancel_requested);
    assert!(m.cancel_session(&rid(), &id).is_ok());
    assert!(m.get_session(&rid(), &id).unwrap().cancel_requested);
    assert_eq!(m.session_count(), 1);
}

#[test]
fn strict_lookup_of_vanished_ephemeral_session_is_not_found() {
    let mut m = SessionManager::new(config(None, true));
    let (rs, id) = m.handle_request(&vec![user("hi")], None, rid()).unwrap();
    m.end_stream(rs);
    m.on_agent_exit(&id);
    let err = m.get_session(&rid(), &id).unwrap_err();
    assert_eq!(err, SessionError::NotFound);
    let envelope = err.error_response();
    assert_eq!(envelope.error.kind, "not_found");
    assert_eq!(envelope.status_code(), 404);
}

#[test]
fn default_agent_name_is_used_when_none_is_configured() {
    let mut m = SessionManager::new(config(None, false));
    let (rs, id) = m.handle_request(&vec![user("a")], None, rid()).unwrap();
    let s = m.get_session(&rid(), &id).unwrap();
    assert_eq!(s.agent_name, "default");
    assert!(s.writer_active);
    m.end_stream(rs);
}

#[test]
fn empty_and_nonuser_messages_are_not_replayed() {
    let mut m = SessionManager::new(config(None, false));
    let trace = vec![
        user(""),
        ChatMessage::Tool { content: "out".to_string(), tool_call_id: "c1".to_string() },
        user("kept"),
        ChatMessage::Assistant {
            content: Some(MessageContent::Text { text: "prior".to_string() }),
            tool_calls: None,
            name: None,
            reasoning_content: None,
        },
    ];
    let (rs, id) = m.handle_request(&trace, None, rid()).unwrap();
    let s = m.get_session(&rid(), &id).unwrap();
    assert_eq!(s.inputs, vec!["kept".to_string()]);
    m.end_stream(rs);
}

#[test]
fn raced_insert_discards_the_fresh_session_and_returns_the_winner() {
    let mut m = SessionManager::new(config(Some(5), false));
    let id = "contested".to_string();
    match m.check_admission(&id) {
        Admission::Create => {}
        _ => panic!("a fresh id below the cap must be admitted"),
    }
    // Another caller builds and registers the same id while the registry
    // lock is released.
    let rival = AgentSession::new(
        SessionConfig { agent_name: Some("winner".to_string()), ephemeral: false },
        id.clone(),
    );
    match m.insert_session(rival) {
        InsertOutcome::Inserted { index } => assert_eq!(index, 0),
        _ => panic!("the first insert must register"),
    }
    let loser = AgentSession::new(
        SessionConfig { agent_name: Some("loser".to_string()), ephemeral: false },
        id.clone(),
    );
    match m.insert_session(loser) {
        InsertOutcome::RacedExisting { index } => assert_eq!(index, 0),
        _ => panic!("the raced insert must be discarded"),
    }
    assert_eq!(m.session_count(), 1);
    assert_eq!(m.get_session(&rid(), &id).unwrap().agent_name, "winner");
}

#[test]
fn insert_is_refused_when_the_cap_filled_during_the_build() {
    let mut m = SessionManager::new(config(Some(1), false));
    match m.check_admission(&"a".to_string()) {
        Admission::Create => {}
        _ => panic!("the first id must be admitted"),
    }
    let other = AgentSession::new(
        SessionConfig { agent_name: None, ephemeral: false },
        "b".to_string(),
    );
    assert!(matches!(m.insert_session(other), InsertOutcome::Inserted { .. }));
    let late = AgentSession::new(
        SessionConfig { agent_name: None, ephemeral: false },
        "a".to_string(),
    );
    assert!(matches!(m.insert_session(late), InsertOutcome::DeniedNow));
    assert_eq!(m.session_count(), 1);
    match m.check_admission(&"c".to_string()) {
        Admission::Denied => {}
        _ => panic!("the cap must deny further ids"),
    }
    m.set_allow_creation(false);
    match m.check_admission(&"c".to_string()) {
        Admission::Disabled => {}
        _ => panic!("the closed gate must refuse"),
    }
}

#[test]
fn cancelled_session_refuses_new_requests() {
    let mut m = SessionManager::new(config(None, false));
    let (rs, id) = m.handle_request(&vec![user("a")], None, rid()).unwrap();
    m.end_stream(rs);
    m.cancel_session(&rid(), &id).unwrap();
    let refused = m.handle_request(&vec![user("b")], Some(id), rid());
    assert_eq!(refused.unwrap_err(), SessionError::Cancelled);
}

#[test]
fn default_manager_config_caps_at_one_hundred() {
    let c = SessionManagerConfig::default();
    assert_eq!(c.max_sessions, Some(100));
    assert!(c.agent_name.is_none());
    assert!(!c.ephemeral);
}
