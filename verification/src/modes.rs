use vstd::prelude::*;

use crate::agents::{spec_agent_name, AgentId};
use crate::errors::{SandboxError, SandboxErrorV};
use crate::json::{spec_text_at, Json, JsonV};

verus! {

/// One agent mode, as the mode listing shows it.
#[derive(Debug)]
pub struct AgentModeInfo {
    pub id: String,
    pub name: String,
    pub description: String,
}

#[verifier::ext_equal]
pub struct AgentModeInfoV {
    pub id: Seq<char>,
    pub name: Seq<char>,
    pub description: Seq<char>,
}

impl DeepView for AgentModeInfo {
    type V = AgentModeInfoV;

    open spec fn deep_view(&self) -> AgentModeInfoV {
        AgentModeInfoV { id: self.id@, name: self.name@, description: self.description@ }
    }
}

fn mode_info(id: &str, name: &str, description: &str) -> (r: AgentModeInfo)
    ensures
        r.deep_view() == (AgentModeInfoV { id: id@, name: name@, description: description@ }),
{
    AgentModeInfo {
        id: id.to_owned(),
        name: name.to_owned(),
        description: description.to_owned(),
    }
}

/// The fixed mode listing each backend declares.
pub open spec fn spec_agent_modes(agent: AgentId) -> Seq<AgentModeInfoV> {
    match agent {
        AgentId::Opencode => seq![
            AgentModeInfoV {
                id: "build"@,
                name: "Build"@,
                description: "Default build mode"@,
            },
            AgentModeInfoV { id: "plan"@, name: "Plan"@, description: "Planning mode"@ },
            AgentModeInfoV {
                id: "custom"@,
                name: "Custom"@,
                description: "Any user-defined OpenCode agent name"@,
            },
        ],
        AgentId::Codex => seq![
            AgentModeInfoV {
                id: "build"@,
                name: "Build"@,
                description: "Default build mode"@,
            },
            AgentModeInfoV {
                id: "plan"@,
                name: "Plan"@,
                description: "Planning mode via prompt prefix"@,
            },
        ],
        AgentId::Scribe => seq![
            AgentModeInfoV {
                id: "build"@,
                name: "Build"@,
                description: "Default build mode"@,
            },
            AgentModeInfoV {
                id: "plan"@,
                name: "Plan"@,
                description: "Plan mode (requires permissionMode=plan)"@,
            },
        ],
        AgentId::Amp => seq![
            AgentModeInfoV {
                id: "build"@,
                name: "Build"@,
                description: "Default build mode"@,
            },
        ],
    }
}

/// The fixed mode listing each backend declares.
pub fn agent_modes_for(agent: AgentId) -> (r: Vec<AgentModeInfo>)
    ensures
        r.deep_view() == spec_agent_modes(agent),
{
    let mut out: Vec<AgentModeInfo> = Vec::new();
    match agent {
        AgentId::Opencode => {
            out.push(mode_info("build", "Build", "Default build mode"));
            out.push(mode_info("plan", "Plan", "Planning mode"));
            out.push(mode_info("custom", "Custom", "Any user-defined OpenCode agent name"));
        }
        AgentId::Codex => {
            out.push(mode_info("build", "Build", "Default build mode"));
            out.push(mode_info("plan", "Plan", "Planning mode via prompt prefix"));
        }
        AgentId::Scribe => {
            out.push(mode_info("build", "Build", "Default build mode"));
            out.push(mode_info("plan", "Plan", "Plan mode (requires permissionMode=plan)"));
        }
        AgentId::Amp => {
            out.push(mode_info("build", "Build", "Default build mode"));
        }
    }
    proof {
        assert(out.deep_view() =~= spec_agent_modes(agent));
    }
    out
}

/// The agent mode asked for, with its default.
pub open spec fn spec_mode_or_build(m: Option<Seq<char>>) -> Seq<char> {
    match m {
        Some(s) => s,
        None => "build"@,
    }
}

/// The permission mode asked for, with its default.
pub open spec fn spec_mode_or_default(m: Option<Seq<char>>) -> Seq<char> {
    match m {
        Some(s) => s,
        None => "default"@,
    }
}

/// Which agent modes a backend accepts.
pub open spec fn spec_agent_mode_allowed(agent: AgentId, mode: Seq<char>) -> bool {
    match agent {
        AgentId::Opencode => true,
        AgentId::Codex => mode == "build"@ || mode == "plan"@,
        AgentId::Scribe => mode == "build"@ || mode == "plan"@,
        AgentId::Amp => mode == "build"@,
    }
}

/// Which permission modes exist at all.
pub open spec fn spec_permission_known(mode: Seq<char>) -> bool {
    mode == "default"@ || mode == "plan"@ || mode == "bypass"@
}

/// Which permission modes a backend accepts.
pub open spec fn spec_permission_allowed(agent: AgentId, mode: Seq<char>) -> bool {
    match agent {
        AgentId::Scribe => spec_permission_known(mode),
        AgentId::Codex => spec_permission_known(mode),
        AgentId::Amp => mode == "default"@ || mode == "bypass"@,
        AgentId::Opencode => mode == "default"@,
    }
}

/// What normalizing an agent mode yields.
pub open spec fn spec_normalize_agent_mode(agent: AgentId, m: Option<Seq<char>>) -> Result<
    Seq<char>,
    SandboxErrorV,
> {
    let mode = spec_mode_or_build(m);
    if spec_agent_mode_allowed(agent, mode) {
        Ok(mode)
    } else {
        Err(SandboxErrorV::ModeNotSupported { agent: spec_agent_name(agent), mode })
    }
}

/// Checks the agent mode against the backend's closed list; the default is
/// `build`.
pub fn normalize_agent_mode(agent: AgentId, agent_mode: Option<&str>) -> (r: Result<
    String,
    SandboxError,
>)
    ensures
        r matches Ok(s) ==> spec_normalize_agent_mode(agent, agent_mode.deep_view()) == Ok::<
            Seq<char>,
            SandboxErrorV,
        >(s@),
        r matches Err(e) ==> spec_normalize_agent_mode(agent, agent_mode.deep_view()) == Err::<
            Seq<char>,
            SandboxErrorV,
        >(e.deep_view()),
{
    let mode: &str = match agent_mode {
        Some(m) => m,
        None => "build",
    };
    let allowed = match agent {
        AgentId::Opencode => true,
        AgentId::Codex => crate::json::str_eq(mode, "build") || crate::json::str_eq(mode, "plan"),
        AgentId::Scribe => crate::json::str_eq(mode, "build") || crate::json::str_eq(mode, "plan"),
        AgentId::Amp => crate::json::str_eq(mode, "build"),
    };
    if allowed {
        Ok(mode.to_owned())
    } else {
        Err(
            SandboxError::ModeNotSupported {
                agent: agent.as_str().to_owned(),
                mode: mode.to_owned(),
            },
        )
    }
}

/// What normalizing a permission mode yields.
pub open spec fn spec_normalize_permission_mode(agent: AgentId, m: Option<Seq<char>>) -> Result<
    Seq<char>,
    SandboxErrorV,
> {
    let mode = spec_mode_or_default(m);
    if !spec_permission_known(mode) {
        Err(
            SandboxErrorV::InvalidRequest {
                message: "invalid permission mode: "@ + mode,
            },
        )
    } else if !spec_permission_allowed(agent, mode) {
        Err(SandboxErrorV::ModeNotSupported { agent: spec_agent_name(agent), mode })
    } else {
        Ok(mode)
    }
}

/// Checks the permission mode: it must exist at all, and the backend must
/// accept it; the default is `default`.
pub fn normalize_permission_mode(agent: AgentId, permission_mode: Option<&str>) -> (r: Result<
    String,
    SandboxError,
>)
    ensures
        r matches Ok(s) ==> spec_normalize_permission_mode(agent, permission_mode.deep_view())
            == Ok::<Seq<char>, SandboxErrorV>(s@),
        r matches Err(e) ==> spec_normalize_permission_mode(agent, permission_mode.deep_view())
            == Err::<Seq<char>, SandboxErrorV>(e.deep_view()),
{
    let mode: &str = match permission_mode {
        Some(m) => m,
        None => "default",
    };
    let known = crate::json::str_eq(mode, "default") || crate::json::str_eq(mode, "plan")
        || crate::json::str_eq(mode, "bypass");
    if !known {
        let mut message = String::from_str("invalid permission mode: ");
        message.append(mode);
        return Err(SandboxError::InvalidRequest { message });
    }
    let supported = match agent {
        AgentId::Scribe => true,
        AgentId::Codex => true,
        AgentId::Amp => crate::json::str_eq(mode, "default") || crate::json::str_eq(
            mode,
            "bypass",
        ),
        AgentId::Opencode => crate::json::str_eq(mode, "default"),
    };
    if !supported {
        return Err(
            SandboxError::ModeNotSupported {
                agent: agent.as_str().to_owned(),
                mode: mode.to_owned(),
            },
        );
    }
    Ok(mode.to_owned())
}

/// What normalizing the pair of modes yields. For the one plan-capable
/// backend, asking for plan mode forces the plan permission mode: any other
/// explicit permission mode is refused.
pub open spec fn spec_normalize_modes(
    agent: AgentId,
    am: Option<Seq<char>>,
    pm: Option<Seq<char>>,
) -> Result<(Seq<char>, Seq<char>), SandboxErrorV> {
    match spec_normalize_agent_mode(agent, am) {
        Err(e) => Err(e),
        Ok(mode) => if agent == AgentId::Scribe && mode == "plan"@ {
            match pm {
                Some(p) => if p != "plan"@ {
                    Err(
                        SandboxErrorV::InvalidRequest {
                            message: "Scribe agentMode=plan requires permissionMode=plan"@,
                        },
                    )
                } else {
                    Ok((mode, "plan"@))
                },
                None => Ok((mode, "plan"@)),
            }
        } else {
            match spec_normalize_permission_mode(agent, pm) {
                Ok(p) => Ok((mode, p)),
                Err(e) => Err(e),
            }
        },
    }
}

/// Normalizes the two modes together, with the plan-mode cross constraint.
pub fn normalize_modes(agent: AgentId, agent_mode: Option<&str>, permission_mode: Option<&str>)
    -> (r: Result<(String, String), SandboxError>)
    ensures
        r matches Ok(p) ==> spec_normalize_modes(
            agent,
            agent_mode.deep_view(),
            permission_mode.deep_view(),
        ) == Ok::<(Seq<char>, Seq<char>), SandboxErrorV>((p.0@, p.1@)),
        r matches Err(e) ==> spec_normalize_modes(
            agent,
            agent_mode.deep_view(),
            permission_mode.deep_view(),
        ) == Err::<(Seq<char>, Seq<char>), SandboxErrorV>(e.deep_view()),
{
    let mode = match normalize_agent_mode(agent, agent_mode) {
        Ok(m) => m,
        Err(e) => {
            return Err(e);
        }
    };
    if agent == AgentId::Scribe && crate::json::str_eq(mode.as_str(), "plan") {
        if let Some(p) = permission_mode {
            if !crate::json::str_eq(p, "plan") {
                return Err(
                    SandboxError::InvalidRequest {
                        message: String::from_str(
                            "Scribe agentMode=plan requires permissionMode=plan",
                        ),
                    },
                );
            }
        }
        let permission = String::from_str("plan");
        return Ok((mode, permission));
    }
    match normalize_permission_mode(agent, permission_mode) {
        Ok(p) => Ok((mode, p)),
        Err(e) => Err(e),
    }
}

// ---------------------------------------------------------------------------
// The mode listing a sidecar reports, normalized and de-duplicated.
// ---------------------------------------------------------------------------

/// The identifier of one reported mode: its `id`, else its `slug`, else its
/// `name`.
pub open spec fn spec_mode_id(item: JsonV) -> Option<Seq<char>> {
    if spec_text_at(item, "id"@) is Some {
        spec_text_at(item, "id"@)
    } else if spec_text_at(item, "slug"@) is Some {
        spec_text_at(item, "slug"@)
    } else {
        spec_text_at(item, "name"@)
    }
}

/// The shown name of one reported mode, falling back to its identifier.
pub open spec fn spec_mode_name(item: JsonV, id: Seq<char>) -> Seq<char> {
    match spec_text_at(item, "name"@) {
        Some(n) => n,
        None => id,
    }
}

/// The description of one reported mode, empty when absent.
pub open spec fn spec_mode_description(item: JsonV) -> Seq<char> {
    match spec_text_at(item, "description"@) {
        Some(d) => d,
        None => Seq::empty(),
    }
}

/// The reported modes, first occurrence of each identifier kept.
pub open spec fn spec_parse_modes(items: Seq<JsonV>, seen: Seq<Seq<char>>) -> Seq<AgentModeInfoV>
    decreases items.len(),
{
    if items.len() == 0 {
        Seq::empty()
    } else {
        match spec_mode_id(items[0]) {
            None => spec_parse_modes(items.skip(1), seen),
            Some(id) => if seen.contains(id) {
                spec_parse_modes(items.skip(1), seen)
            } else {
                seq![
                    AgentModeInfoV {
                        id,
                        name: spec_mode_name(items[0], id),
                        description: spec_mode_description(items[0]),
                    },
                ] + spec_parse_modes(items.skip(1), seen.push(id))
            },
        }
    }
}

/// Where a mode listing hides its items: the payload itself as an array, or
/// its `agents` member, or its `data` member.
pub open spec fn spec_list_at(v: JsonV, key: Seq<char>) -> Option<Seq<JsonV>> {
    match crate::json::json_get(v, key) {
        Some(JsonV::List(xs)) => Some(xs),
        _ => None,
    }
}

pub open spec fn spec_mode_items(v: JsonV) -> Option<Seq<JsonV>> {
    match v {
        JsonV::List(xs) => Some(xs),
        _ => if spec_list_at(v, "agents"@) is Some {
            spec_list_at(v, "agents"@)
        } else {
            spec_list_at(v, "data"@)
        },
    }
}

fn seen_contains(seen: &Vec<String>, id: &str) -> (r: bool)
    ensures
        r == seen.deep_view().contains(id@),
{
    let mut i: usize = 0;
    while i < seen.len()
        invariant
            0 <= i <= seen@.len(),
            forall|j: int| 0 <= j < i ==> seen.deep_view()[j] != id@,
        decreases seen@.len() - i,
    {
        if crate::json::str_eq(seen[i].as_str(), id) {
            proof {
                assert(seen.deep_view()[i as int] == id@);
            }
            return true;
        }
        i = i + 1;
    }
    proof {
        assert(forall|j: int|
            0 <= j < seen.deep_view().len() ==> seen.deep_view()[j] != id@);
    }
    false
}

fn mode_id_of(item: &Json) -> (r: Option<String>)
    ensures
        r matches Some(s) ==> spec_mode_id(item.deep_view()) == Some(s@),
        r is None ==> spec_mode_id(item.deep_view()) is None,
{
    if let Some(s) = item.get_text("id") {
        return Some(s);
    }
    if let Some(s) = item.get_text("slug") {
        return Some(s);
    }
    item.get_text("name")
}

/// Reads the mode listing a sidecar reported: each entry needs an
/// identifier; the first entry wins when identifiers repeat.
#[verifier::loop_isolation(false)]
pub fn parse_opencode_modes(value: &Json) -> (r: Vec<AgentModeInfo>)
    ensures
        match spec_mode_items(value.deep_view()) {
            Some(items) => r.deep_view() == spec_parse_modes(items, Seq::empty()),
            None => r.deep_view() == Seq::<AgentModeInfoV>::empty(),
        },
{
    let mut modes: Vec<AgentModeInfo> = Vec::new();
    let mut seen: Vec<String> = Vec::new();
    proof {
        assert(modes.deep_view() =~= Seq::<AgentModeInfoV>::empty());
        assert(seen.deep_view() =~= Seq::<Seq<char>>::empty());
    }

    let items: &Vec<Json> = match value.as_list() {
        Some(xs) => xs,
        None => {
            let under_agents = match value.get("agents") {
                Some(a) => a.as_list(),
                None => None,
            };
            match under_agents {
                Some(xs) => xs,
                None => {
                    let under_data = match value.get("data") {
                        Some(d) => d.as_list(),
                        None => None,
                    };
                    match under_data {
                        Some(xs) => xs,
                        None => {
                            return modes;
                        }
                    }
                }
            }
        }
    };
    let ghost items_v = spec_mode_items(value.deep_view())->Some_0;
    proof {
        crate::json::lemma_jv_list(items@);
        assert(items_v =~= crate::json::jv_list(items@));
        assert(items_v.skip(0) =~= items_v);
    }

    let mut i: usize = 0;
    while i < items.len()
        invariant
            0 <= i <= items@.len(),
            items_v.len() == items@.len(),
            forall|j: int| 0 <= j < items@.len() ==> items_v[j] == items@[j].deep_view(),
            spec_parse_modes(items_v, Seq::empty()) == modes.deep_view() + spec_parse_modes(
                items_v.skip(i as int),
                seen.deep_view(),
            ),
        decreases items@.len() - i,
    {
        let ghost seen0 = seen.deep_view();
        let ghost modes0 = modes.deep_view();
        proof {
            assert(items_v.skip(i as int)[0] == items_v[i as int]);
            assert(items_v.skip(i as int).skip(1) =~= items_v.skip(i as int + 1));
        }
        match mode_id_of(&items[i]) {
            None => {}
            Some(id) => {
                if !seen_contains(&seen, id.as_str()) {
                    let name = match items[i].get_text("name") {
                        Some(n) => n,
                        None => id.clone(),
                    };
                    let description = match items[i].get_text("description") {
                        Some(d) => d,
                        None => String::new(),
                    };
                    seen.push(id.clone());
                    modes.push(AgentModeInfo { id, name, description });
                    proof {
                        assert(seen.deep_view() =~= seen0.push(seen.deep_view().last()));
                        assert(seen.deep_view().last() == modes.deep_view().last().id);
                        assert(modes.deep_view() =~= modes0 + seq![modes.deep_view().last()]);
                    }
                }
            }
        }
        i = i + 1;
    }
    proof {
        assert(items_v.skip(items_v.len() as int) =~= Seq::<JsonV>::empty());
        assert(modes.deep_view() + Seq::<AgentModeInfoV>::empty() =~= modes.deep_view());
    }
    modes
}

/// Appends the synthetic `custom` mode when the listing lacks it.
#[verifier::loop_isolation(false)]
pub fn ensure_custom_mode(modes: &mut Vec<AgentModeInfo>)
    ensures
        (exists|i: int|
            0 <= i < old(modes).deep_view().len() && old(modes).deep_view()[i].id == "custom"@)
            ==> final(modes).deep_view() == old(modes).deep_view(),
        !(exists|i: int|
            0 <= i < old(modes).deep_view().len() && old(modes).deep_view()[i].id == "custom"@)
            ==> final(modes).deep_view() == old(modes).deep_view() + seq![
            AgentModeInfoV {
                id: "custom"@,
                name: "Custom"@,
                description: "Any user-defined OpenCode agent name"@,
            },
        ],
{
    let mut i: usize = 0;
    while i < modes.len()
        invariant
            0 <= i <= modes@.len(),
            modes.deep_view() == old(modes).deep_view(),
            forall|j: int| 0 <= j < i ==> modes.deep_view()[j].id != "custom"@,
        decreases modes@.len() - i,
    {
        if crate::json::str_eq(modes[i].id.as_str(), "custom") {
            proof {
                assert(old(modes).deep_view()[i as int].id == "custom"@);
            }
            return ;
        }
        i = i + 1;
    }
    let added = mode_info("custom", "Custom", "Any user-defined OpenCode agent name");
    modes.push(added);
    proof {
        assert(modes.deep_view() =~= old(modes).deep_view() + seq![
            AgentModeInfoV {
                id: "custom"@,
                name: "Custom"@,
                description: "Any user-defined OpenCode agent name"@,
            },
        ]);
    }
}

} // verus!
