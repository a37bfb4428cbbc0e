use sandbox_agent::agents::{AgentId, AgentManager, AmpFlags, Platform, SpawnOptions};
use sandbox_agent::driver::to_sse_frame;
use sandbox_agent::errors::SandboxError;
use sandbox_agent::json::Json;
use sandbox_agent::session::PermissionReply;
use sandbox_agent::sse::SseAccumulator;

#[test]
fn sse_accumulator_assembles_one_event() {
    let mut acc = SseAccumulator::new();
    let events = acc.push(b"data: {\"a\":1}\n\n");
    assert_eq!(events.len(), 1);
    assert_eq!(events[0], b"{\"a\":1}".to_vec());
}

#[test]
fn sse_accumulator_spans_chunk_boundaries() {
    let mut acc = SseAccumulator::new();
    assert!(acc.push(b"data: hel").is_empty());
    assert!(acc.push(b"lo\r\n").is_empty());
    assert!(acc.push(b"data: world\n").is_empty());
    let events = acc.push(b"\ndata: next\n\n");
    assert_eq!(events.len(), 2);
    assert_eq!(events[0], b"hello\nworld".to_vec());
    assert_eq!(events[1], b"next".to_vec());
}

#[test]
fn sse_accumulator_ignores_other_fields_and_keeps_the_tail() {
    let mut acc = SseAccumulator::new();
    let events = acc.push(b"event: ping\ndata: x\n\npartial");
    assert_eq!(events.len(), 1);
    assert_eq!(events[0], b"x".to_vec());
    let more = acc.push(b" line\n\n");
    assert!(more.is_empty(), "a tail without data lines closes no event");
}

#[test]
fn sse_frames_are_data_prefixed() {
    assert_eq!(to_sse_frame("{}"), "data: {}\n\n");
}

#[test]
fn scribe_spawn_args_carry_model_resume_and_plan() {
    let mut options = SpawnOptions::new("do it".to_string());
    options.model = Some("m-1".to_string());
    options.session_id = Some("native-3".to_string());
    options.permission_mode = Some("plan".to_string());
    let args = sandbox_agent::agents::spawn_args(AgentId::Scribe, &options);
    assert_eq!(
        args,
        vec![
            "--print".to_string(),
            "--output-format".to_string(),
            "stream-json".to_string(),
            "--verbose".to_string(),
            "--dangerously-skip-permissions".to_string(),
            "--model".to_string(),
            "m-1".to_string(),
            "--resume".to_string(),
            "native-3".to_string(),
            "--permission-mode".to_string(),
            "plan".to_string(),
            "do it".to_string(),
        ]
    );
}

#[test]
fn opencode_spawn_args_end_with_the_prompt() {
    let mut options = SpawnOptions::new("prompt".to_string());
    options.agent_mode = Some("build".to_string());
    let args = sandbox_agent::agents::spawn_args(AgentId::Opencode, &options);
    assert_eq!(args.first().map(|s| s.as_str()), Some("run"));
    assert_eq!(args.last().map(|s| s.as_str()), Some("prompt"));
    assert!(args.contains(&"--agent".to_string()));
}

#[test]
fn amp_args_follow_the_advertised_flags() {
    let options = SpawnOptions::new("p".to_string());
    let flags = AmpFlags {
        execute: true,
        print: true,
        output_format: true,
        dangerously_skip_permissions: false,
    };
    let args = sandbox_agent::agents::amp_args(flags, &options);
    assert_eq!(
        args,
        vec![
            "--execute".to_string(),
            "--output-format".to_string(),
            "stream-json".to_string(),
            "p".to_string(),
        ]
    );
}

#[test]
fn binary_paths_join_the_install_dir() {
    let manager = AgentManager::with_platform("/opt/agents".to_string(), Platform::LinuxX64);
    assert_eq!(manager.binary_path(AgentId::Scribe), "/opt/agents/scribe");
    assert_eq!(manager.binary_path(AgentId::Opencode), "/opt/agents/opencode");
}

#[test]
fn agent_ids_parse_and_print() {
    assert_eq!(AgentId::parse("scribe"), Some(AgentId::Scribe));
    assert_eq!(AgentId::parse("codex"), Some(AgentId::Codex));
    assert_eq!(AgentId::parse("opencode"), Some(AgentId::Opencode));
    assert_eq!(AgentId::parse("amp"), Some(AgentId::Amp));
    assert_eq!(AgentId::parse("gpt"), None);
    assert_eq!(AgentId::Codex.as_str(), "codex");
    assert_eq!(AgentId::Amp.binary_name(), "amp");
}

#[test]
fn permission_replies_parse_ignoring_case() {
    assert_eq!(PermissionReply::from_str("once"), Ok(PermissionReply::Once));
    assert_eq!(PermissionReply::from_str("ALWAYS"), Ok(PermissionReply::Always));
    assert_eq!(PermissionReply::from_str("Reject"), Ok(PermissionReply::Reject));
    assert!(PermissionReply::from_str("maybe").is_err());
    assert_eq!(PermissionReply::Once.as_str(), "once");
}

#[test]
fn error_statuses_and_slugs_are_stable() {
    let err = SandboxError::SessionNotFound { session_id: "s".to_string() };
    assert_eq!(err.status(), 404);
    assert_eq!(err.error_type(), "session-not-found");
    let problem = err.to_problem_details();
    assert_eq!(problem.status, 404);
    assert_eq!(problem.detail.as_deref(), Some("s"));

    assert_eq!(
        SandboxError::SessionAlreadyExists { session_id: "s".to_string() }.status(),
        409
    );
    assert_eq!(
        SandboxError::AgentNotInstalled { agent: "amp".to_string() }.status(),
        424
    );
    assert_eq!(
        SandboxError::AgentProcessExited {
            agent: "amp".to_string(),
            exit_code: Some(1),
            stderr: None
        }
        .status(),
        500
    );
    assert_eq!(
        SandboxError::StreamError { message: "x".to_string() }.status(),
        502
    );
    assert_eq!(
        SandboxError::TokenInvalid { message: None }.status(),
        401
    );
    assert_eq!(
        SandboxError::ModeNotSupported { agent: "amp".to_string(), mode: "plan".to_string() }
            .error_type(),
        "mode-not-supported"
    );
    assert_eq!(
        SandboxError::UnsupportedAgent { agent: "x".to_string() }.error_type(),
        "unsupported-agent"
    );
    assert_eq!(
        SandboxError::InstallFailed { agent: "x".to_string(), stderr: None }.status(),
        500
    );
    assert_eq!(
        SandboxError::InvalidRequest { message: "m".to_string() }.status(),
        400
    );
}

#[test]
fn numbers_render_in_decimal() {
    assert_eq!(sandbox_agent::text::u64_to_string(0), "0");
    assert_eq!(sandbox_agent::text::u64_to_string(12345), "12345");
    assert_eq!(sandbox_agent::text::i32_to_string(-7), "-7");
    assert_eq!(sandbox_agent::text::i32_to_string(42), "42");
}

#[test]
fn deltas_follow_the_longest_common_prefix_rule() {
    assert_eq!(sandbox_agent::text::delta_from_partial("foo", "foobar"), "bar");
    assert_eq!(sandbox_agent::text::delta_from_partial("", "foo"), "foo");
    assert_eq!(
        sandbox_agent::text::delta_from_partial("abc", "xyz"),
        "xyz",
        "a non-extending partial replaces the buffer"
    );
}

#[test]
fn trimming_strips_ascii_whitespace() {
    assert_eq!(sandbox_agent::text::str_trim("  a b \r\n"), "a b");
    assert_eq!(sandbox_agent::text::str_trim(""), "");
    assert_eq!(sandbox_agent::driver::trim_bytes(b"\t x \n"), b"x".to_vec());
}

#[test]
fn parsing_and_rendering_agree_on_documents() {
    let parsed = sandbox_agent::json::parse_json(b"{\"a\": 1, \"b\": [true, null, \"x\"]}")
        .expect("parses");
    match &parsed {
        Json::Obj(entries) => {
            assert_eq!(entries.len(), 2);
            assert!(matches!(entries[0].1, Json::Int(1)));
            match &entries[1].1 {
                Json::List(items) => {
                    assert!(matches!(items[0], Json::Bool(true)));
                    assert!(matches!(items[1], Json::Null));
                    assert!(matches!(&items[2], Json::Text(t) if t == "x"));
                }
                _ => panic!("expected a list"),
            }
        }
        _ => panic!("expected an object"),
    }
    assert!(sandbox_agent::json::parse_json(b"{nope").is_err());

    let rendered = sandbox_agent::json::json_render(&parsed);
    let reparsed = sandbox_agent::json::parse_json(rendered.as_bytes()).expect("round trip");
    assert_eq!(
        sandbox_agent::json::json_render(&reparsed),
        rendered,
        "rendering is stable across one round trip"
    );

    let text = Json::Text("plain".to_string());
    assert_eq!(sandbox_agent::json::value_to_string(&text), "plain");
    assert_eq!(
        sandbox_agent::json::value_to_string(&Json::Int(5)),
        "5",
        "a non-string renders as its document text"
    );
}

#[test]
fn json_lookup_finds_the_first_entry() {
    let doc = Json::Obj(vec![
        ("k".to_string(), Json::Int(1)),
        ("k".to_string(), Json::Int(2)),
    ]);
    assert!(matches!(doc.get("k"), Some(Json::Int(1))));
    assert!(doc.get("missing").is_none());
}

#[test]
fn model_strings_split_at_the_first_slash() {
    assert_eq!(
        sandbox_agent::text::split_model("prov/model-x"),
        (Some("prov".to_string()), "model-x".to_string())
    );
    assert_eq!(sandbox_agent::text::split_model("plain"), (None, "plain".to_string()));
    assert_eq!(
        sandbox_agent::text::split_model("a/b/c"),
        (Some("a".to_string()), "b/c".to_string())
    );
}

#[test]
fn native_session_ids_are_read_under_any_spelling() {
    let with_id = Json::Obj(vec![("id".to_string(), Json::Text("n1".to_string()))]);
    assert_eq!(
        sandbox_agent::driver::extract_native_session_id(&with_id).as_deref(),
        Some("n1")
    );
    let with_camel = Json::Obj(vec![
        ("other".to_string(), Json::Null),
        ("sessionId".to_string(), Json::Text("n2".to_string())),
    ]);
    assert_eq!(
        sandbox_agent::driver::extract_native_session_id(&with_camel).as_deref(),
        Some("n2")
    );
    let with_snake = Json::Obj(vec![("session_id".to_string(), Json::Text("n3".to_string()))]);
    assert_eq!(
        sandbox_agent::driver::extract_native_session_id(&with_snake).as_deref(),
        Some("n3")
    );
    assert!(sandbox_agent::driver::extract_native_session_id(&Json::Null).is_none());
}
