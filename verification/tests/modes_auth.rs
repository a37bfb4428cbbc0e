use sandbox_agent::agents::AgentId;
use sandbox_agent::auth::{extract_token, token_accepted, AuthConfig};
use sandbox_agent::errors::SandboxError;
use sandbox_agent::json::Json;
use sandbox_agent::modes::{
    agent_modes_for, ensure_custom_mode, normalize_agent_mode, normalize_modes,
    normalize_permission_mode, parse_opencode_modes,
};

fn mobj(entries: Vec<(&str, Json)>) -> Json {
    Json::Obj(entries.into_iter().map(|(k, v)| (k.to_string(), v)).collect())
}

fn mtext(s: &str) -> Json {
    Json::Text(s.to_string())
}

#[test]
fn fixed_mode_listings_match_the_declared_matrix() {
    let scribe = agent_modes_for(AgentId::Scribe);
    assert_eq!(scribe.len(), 2);
    assert_eq!(scribe[0].id, "build");
    assert_eq!(scribe[1].id, "plan");
    assert_eq!(agent_modes_for(AgentId::Amp).len(), 1);
    assert_eq!(agent_modes_for(AgentId::Opencode).len(), 3);
    assert_eq!(agent_modes_for(AgentId::Codex)[1].name, "Plan");
}

#[test]
fn agent_modes_default_to_build_and_are_checked() {
    assert_eq!(normalize_agent_mode(AgentId::Scribe, None).unwrap(), "build");
    assert_eq!(normalize_agent_mode(AgentId::Codex, Some("plan")).unwrap(), "plan");
    assert_eq!(
        normalize_agent_mode(AgentId::Opencode, Some("anything-custom")).unwrap(),
        "anything-custom"
    );
    assert!(matches!(
        normalize_agent_mode(AgentId::Amp, Some("plan")),
        Err(SandboxError::ModeNotSupported { .. })
    ));
}

#[test]
fn permission_modes_are_validated_then_checked() {
    assert_eq!(normalize_permission_mode(AgentId::Scribe, None).unwrap(), "default");
    assert_eq!(normalize_permission_mode(AgentId::Codex, Some("bypass")).unwrap(), "bypass");
    assert!(matches!(
        normalize_permission_mode(AgentId::Scribe, Some("everything")),
        Err(SandboxError::InvalidRequest { .. })
    ));
    assert!(matches!(
        normalize_permission_mode(AgentId::Opencode, Some("plan")),
        Err(SandboxError::ModeNotSupported { .. })
    ));
    assert!(matches!(
        normalize_permission_mode(AgentId::Amp, Some("plan")),
        Err(SandboxError::ModeNotSupported { .. })
    ));
}

#[test]
fn plan_mode_cross_constraint_holds() {
    assert!(matches!(
        normalize_modes(AgentId::Scribe, Some("plan"), Some("default")),
        Err(SandboxError::InvalidRequest { .. })
    ));
    assert_eq!(
        normalize_modes(AgentId::Scribe, Some("plan"), Some("plan")).unwrap(),
        ("plan".to_string(), "plan".to_string())
    );
    assert_eq!(
        normalize_modes(AgentId::Scribe, Some("plan"), None).unwrap(),
        ("plan".to_string(), "plan".to_string())
    );
    assert_eq!(
        normalize_modes(AgentId::Codex, Some("plan"), Some("default")).unwrap(),
        ("plan".to_string(), "default".to_string())
    );
}

#[test]
fn reported_mode_listings_deduplicate_by_first_identifier() {
    let listing = Json::List(vec![
        mobj(vec![("id", mtext("build")), ("name", mtext("Build"))]),
        mobj(vec![("slug", mtext("plan")), ("description", mtext("plans"))]),
        mobj(vec![("id", mtext("build")), ("name", mtext("Shadowed"))]),
        mobj(vec![("nothing", mtext("x"))]),
    ]);
    let modes = parse_opencode_modes(&listing);
    assert_eq!(modes.len(), 2);
    assert_eq!(modes[0].id, "build");
    assert_eq!(modes[0].name, "Build");
    assert_eq!(modes[1].id, "plan");
    assert_eq!(modes[1].name, "plan", "the name falls back to the identifier");
    assert_eq!(modes[1].description, "plans");

    let wrapped = mobj(vec![("agents", Json::List(vec![mobj(vec![("id", mtext("a"))])]))]);
    assert_eq!(parse_opencode_modes(&wrapped).len(), 1);
    assert_eq!(parse_opencode_modes(&mtext("no listing")).len(), 0);
}

#[test]
fn the_custom_mode_is_appended_once() {
    let mut modes = parse_opencode_modes(&Json::List(vec![mobj(vec![("id", mtext("build"))])]));
    ensure_custom_mode(&mut modes);
    assert_eq!(modes.len(), 2);
    assert_eq!(modes[1].id, "custom");
    ensure_custom_mode(&mut modes);
    assert_eq!(modes.len(), 2, "a listing that has custom keeps it");
}

#[test]
fn tokens_are_read_from_either_header() {
    assert_eq!(
        extract_token(Some("Bearer abc"), None).as_deref(),
        Some("abc")
    );
    assert_eq!(
        extract_token(Some("  Token xyz  "), None).as_deref(),
        Some("xyz")
    );
    assert_eq!(
        extract_token(Some("Basic zzz"), Some("fallback")).as_deref(),
        Some("fallback")
    );
    assert_eq!(extract_token(None, Some("side")).as_deref(), Some("side"));
    assert_eq!(extract_token(None, None), None);
}

#[test]
fn the_gate_passes_only_the_configured_token() {
    let open = AuthConfig::disabled();
    assert!(token_accepted(&open, None, None));

    let gated = AuthConfig::with_token("secret".to_string());
    assert!(token_accepted(&gated, Some("Bearer secret"), None));
    assert!(token_accepted(&gated, None, Some("secret")));
    assert!(!token_accepted(&gated, Some("Bearer wrong"), None));
    assert!(!token_accepted(&gated, None, None));
}
