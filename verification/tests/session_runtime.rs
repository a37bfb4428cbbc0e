use sandbox_agent::agents::AgentId;
use sandbox_agent::driver::{handle_agent_line, handle_process_exit};
use sandbox_agent::errors::SandboxError;
use sandbox_agent::session::{
    CreateSessionRequest, Credentials, SendAction, SessionManager,
};
use sandbox_agent::universal::{
    QuestionInfo, QuestionOption, QuestionRequest, UniversalEventData,
};

fn request(agent: &str, agent_mode: Option<&str>, permission_mode: Option<&str>) -> CreateSessionRequest {
    CreateSessionRequest {
        agent: agent.to_string(),
        agent_mode: agent_mode.map(|s| s.to_string()),
        permission_mode: permission_mode.map(|s| s.to_string()),
        model: None,
        variant: None,
        agent_version: None,
    }
}

fn no_credentials() -> Credentials {
    Credentials { scribe_api_key: None, codex_api_key: None }
}

#[test]
fn create_send_poll_yields_contiguous_ids_and_a_final_error() {
    let mut manager = SessionManager::new();
    let response = manager
        .create_session("s1".to_string(), &request("scribe", None, None), None)
        .expect("create session");
    assert!(response.healthy);

    let action = manager
        .send_message("s1", "hi".to_string(), &no_credentials())
        .expect("send message");
    match action {
        SendAction::Subprocess { agent, options } => {
            assert_eq!(agent, AgentId::Scribe);
            assert_eq!(options.prompt, "hi");
        }
        _ => panic!("scribe sessions launch a subprocess"),
    }

    let line = b"{\"type\":\"result\",\"result\":\"hi from backend\",\"session_id\":\"native-7\"}";
    handle_agent_line(&mut manager, "s1", AgentId::Scribe, line);
    handle_process_exit(&mut manager, "s1", Some(2), false);

    let polled = manager.events("s1", 0, None).expect("poll events");
    assert_eq!(polled.events.len(), 3);
    for (k, event) in polled.events.iter().enumerate() {
        assert_eq!(event.id, (k + 1) as u64);
        assert_eq!(event.session_id, "s1");
    }
    assert!(matches!(polled.events[1].data, UniversalEventData::Message { .. }));
    match &polled.events[2].data {
        UniversalEventData::Error { error } => {
            assert_eq!(error.message, "agent exited with status 2");
            assert_eq!(error.kind.as_deref(), Some("process_exit"));
        }
        _ => panic!("a failed exit records an error event"),
    }
    assert!(!polled.has_more);

    let limited = manager.events("s1", 0, Some(2)).expect("poll limited");
    assert_eq!(limited.events.len(), 2);
    assert!(limited.has_more);
}

#[test]
fn subscribe_catch_up_covers_every_event_once() {
    let mut manager = SessionManager::new();
    manager
        .create_session("s2".to_string(), &request("scribe", None, None), None)
        .expect("create session");
    handle_agent_line(&mut manager, "s2", AgentId::Scribe, b"{\"type\":\"result\",\"result\":\"one\"}");
    handle_agent_line(&mut manager, "s2", AgentId::Scribe, b"{\"type\":\"result\",\"result\":\"two\"}");

    let subscription = manager.subscribe("s2", 0).expect("subscribe");
    assert_eq!(subscription.initial_events.len(), 3);
    assert_eq!(subscription.cursor, 3);

    handle_agent_line(&mut manager, "s2", AgentId::Scribe, b"{\"type\":\"result\",\"result\":\"three\"}");

    let live = manager
        .events("s2", subscription.cursor, None)
        .expect("live tail");
    let mut seen: Vec<u64> = subscription.initial_events.iter().map(|e| e.id).collect();
    seen.extend(live.events.iter().map(|e| e.id));

    let full = manager.events("s2", 0, None).expect("full log");
    let all: Vec<u64> = full.events.iter().map(|e| e.id).collect();
    assert_eq!(seen, all, "snapshot plus live tail is the whole log, nothing twice");
}

#[test]
fn question_reply_routes_once_and_refuses_a_second_reply() {
    let mut manager = SessionManager::new();
    manager
        .create_session("s3".to_string(), &request("scribe", None, None), None)
        .expect("create session");

    let question = QuestionRequest {
        id: "q1".to_string(),
        session_id: String::new(),
        questions: vec![QuestionInfo {
            question: "Proceed?".to_string(),
            header: None,
            options: vec![QuestionOption { label: "A".to_string(), description: None }],
            multi_select: None,
            custom: None,
        }],
        tool: None,
    };
    let event = manager
        .record_event(
            "s3",
            UniversalEventData::QuestionAsked { question_asked: question },
            None,
        )
        .expect("record question");
    match &event.data {
        UniversalEventData::QuestionAsked { question_asked } => {
            assert_eq!(question_asked.session_id, "s3", "the session id is stamped on");
        }
        _ => panic!("expected a question event"),
    }

    let route = manager.reply_question("s3", "q1").expect("first reply");
    assert_eq!(route.agent, AgentId::Scribe);

    let second = manager.reply_question("s3", "q1");
    assert!(
        matches!(second, Err(SandboxError::InvalidRequest { .. })),
        "a second reply to the same id is refused"
    );

    let missing = manager.reply_question("nope", "q1");
    assert!(matches!(missing, Err(SandboxError::SessionNotFound { .. })));
}

#[test]
fn permission_reply_consumes_the_pending_id() {
    let mut manager = SessionManager::new();
    manager
        .create_session("s4".to_string(), &request("scribe", None, None), None)
        .expect("create session");
    let permission = sandbox_agent::universal::PermissionRequest {
        id: "p1".to_string(),
        session_id: String::new(),
        permission: "write".to_string(),
        patterns: vec!["src/**".to_string()],
        metadata: vec![],
        always: vec![],
        tool: None,
    };
    manager
        .record_event(
            "s4",
            UniversalEventData::PermissionAsked { permission_asked: permission },
            None,
        )
        .expect("record permission");
    manager.reply_permission("s4", "p1").expect("first decision");
    let second = manager.reply_permission("s4", "p1");
    assert!(matches!(second, Err(SandboxError::InvalidRequest { .. })));
}

#[test]
fn plan_mode_forces_plan_permission_mode() {
    let mut manager = SessionManager::new();
    let refused = manager.create_session(
        "s5".to_string(),
        &request("scribe", Some("plan"), Some("default")),
        None,
    );
    assert!(
        matches!(refused, Err(SandboxError::InvalidRequest { .. })),
        "plan agent mode with a non-plan permission mode is refused"
    );

    let accepted = manager
        .create_session("s5".to_string(), &request("scribe", Some("plan"), Some("plan")), None)
        .expect("plan with plan permission is accepted");
    assert!(accepted.healthy);

    let implied = manager
        .create_session("s6".to_string(), &request("scribe", Some("plan"), None), None)
        .expect("plan with no permission mode is accepted");
    assert!(implied.healthy);
}

#[test]
fn ended_session_is_sticky_and_carries_the_exit_code() {
    let mut manager = SessionManager::new();
    manager
        .create_session("s7".to_string(), &request("codex", None, None), None)
        .expect("create session");
    handle_process_exit(&mut manager, "s7", Some(3), false);

    let refused = manager.send_message("s7", "again".to_string(), &no_credentials());
    match refused {
        Err(SandboxError::AgentProcessExited { agent, exit_code, .. }) => {
            assert_eq!(agent, "codex");
            assert_eq!(exit_code, Some(3));
        }
        other => panic!("an ended session refuses messages, got {:?}", other.is_ok()),
    }

    let also_refused = manager.reply_question("s7", "q9");
    assert!(matches!(also_refused, Err(SandboxError::AgentProcessExited { .. })));

    handle_process_exit(&mut manager, "s7", Some(9), false);
    let still = manager.send_message("s7", "again".to_string(), &no_credentials());
    match still {
        Err(SandboxError::AgentProcessExited { exit_code, .. }) => {
            assert_eq!(exit_code, Some(3), "the first exit details are kept");
        }
        _ => panic!("still ended"),
    }
}

#[test]
fn create_session_rejects_bad_requests() {
    let mut manager = SessionManager::new();
    let unknown = manager.create_session("x1".to_string(), &request("mystery", None, None), None);
    assert!(matches!(unknown, Err(SandboxError::UnsupportedAgent { .. })));

    manager
        .create_session("x2".to_string(), &request("amp", None, None), None)
        .expect("create amp session");
    let duplicate = manager.create_session("x2".to_string(), &request("amp", None, None), None);
    assert!(matches!(duplicate, Err(SandboxError::SessionAlreadyExists { .. })));

    let bad_permission = manager.create_session(
        "x3".to_string(),
        &request("scribe", None, Some("everything")),
        None,
    );
    assert!(matches!(bad_permission, Err(SandboxError::InvalidRequest { .. })));

    let unsupported_mode = manager.create_session(
        "x4".to_string(),
        &request("amp", Some("plan"), None),
        None,
    );
    assert!(matches!(unsupported_mode, Err(SandboxError::ModeNotSupported { .. })));

    let unsupported_permission = manager.create_session(
        "x5".to_string(),
        &request("opencode", None, Some("bypass")),
        None,
    );
    assert!(matches!(unsupported_permission, Err(SandboxError::ModeNotSupported { .. })));
}

#[test]
fn opencode_sessions_keep_the_native_id_and_route_prompts_to_the_sidecar() {
    let mut manager = SessionManager::new();
    let response = manager
        .create_session(
            "s8".to_string(),
            &request("opencode", None, None),
            Some("native-1".to_string()),
        )
        .expect("create opencode session");
    assert_eq!(response.agent_session_id.as_deref(), Some("native-1"));

    let first = manager.ensure_opencode_stream("s8").expect("claim stream");
    assert_eq!(first.as_deref(), Some("native-1"));
    let second = manager.ensure_opencode_stream("s8").expect("claim again");
    assert!(second.is_none(), "only the first caller starts the stream");

    let action = manager
        .send_message("s8", "hello".to_string(), &no_credentials())
        .expect("send prompt");
    match action {
        SendAction::SidecarPrompt { agent_session_id, agent_mode, .. } => {
            assert_eq!(agent_session_id, "native-1");
            assert_eq!(agent_mode, "build");
        }
        _ => panic!("opencode sessions prompt the sidecar"),
    }

    let blank = manager.events("s8", 0, None).expect("events");
    assert_eq!(blank.events[0].agent_session_id.as_deref(), Some("native-1"));
}

#[test]
fn unparsable_backend_lines_are_kept_raw() {
    let mut manager = SessionManager::new();
    manager
        .create_session("s9".to_string(), &request("amp", None, None), None)
        .expect("create session");
    handle_agent_line(&mut manager, "s9", AgentId::Amp, b"  not json at all  ");
    handle_agent_line(&mut manager, "s9", AgentId::Amp, b"   ");
    let polled = manager.events("s9", 0, None).expect("poll");
    assert_eq!(polled.events.len(), 2, "a blank line records nothing");
    match &polled.events[1].data {
        UniversalEventData::Message { message } => match message {
            sandbox_agent::universal::UniversalMessage::Unparsed { error, .. } => {
                assert!(error.is_some());
            }
            _ => panic!("expected an unparsed message"),
        },
        _ => panic!("expected a message event"),
    }
}
