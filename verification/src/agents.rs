use vstd::prelude::*;

verus! {

/// The closed family of supported backends.
#[derive(Debug, Clone, Copy, PartialEq, Eq, Structural, Hash)]
pub enum AgentId {
    Scribe,
    Codex,
    Opencode,
    Amp,
}

/// The stable name of each backend.
pub open spec fn spec_agent_name(a: AgentId) -> Seq<char> {
    match a {
        AgentId::Scribe => "scribe"@,
        AgentId::Codex => "codex"@,
        AgentId::Opencode => "opencode"@,
        AgentId::Amp => "amp"@,
    }
}

impl AgentId {
    /// The backend's stable identifier.
    pub fn as_str(self) -> (r: &'static str)
        ensures
            r@ == spec_agent_name(self),
    {
        match self {
            AgentId::Scribe => "scribe",
            AgentId::Codex => "codex",
            AgentId::Opencode => "opencode",
            AgentId::Amp => "amp",
        }
    }

    /// The name of the executable the backend is installed as.
    pub fn binary_name(self) -> (r: &'static str)
        ensures
            r@ == spec_agent_name(self),
    {
        match self {
            AgentId::Scribe => "scribe",
            AgentId::Codex => "codex",
            AgentId::Opencode => "opencode",
            AgentId::Amp => "amp",
        }
    }

    /// Reads a backend identifier; `None` for anything not in the family.
    pub fn parse(s: &str) -> (r: Option<AgentId>)
        ensures
            r matches Some(a) ==> s@ == spec_agent_name(a),
            r is None ==> forall|a: AgentId| s@ != spec_agent_name(a),
    {
        if crate::json::str_eq(s, "scribe") {
            Some(AgentId::Scribe)
        } else if crate::json::str_eq(s, "codex") {
            Some(AgentId::Codex)
        } else if crate::json::str_eq(s, "opencode") {
            Some(AgentId::Opencode)
        } else if crate::json::str_eq(s, "amp") {
            Some(AgentId::Amp)
        } else {
            proof {
                assert forall|a: AgentId| s@ != spec_agent_name(a) by {
                    match a {
                        AgentId::Scribe => {}
                        AgentId::Codex => {}
                        AgentId::Opencode => {}
                        AgentId::Amp => {}
                    }
                }
            }
            None
        }
    }
}


/// No two backends share a name.
pub proof fn lemma_agent_names_distinct()
    ensures
        forall|a: AgentId, b: AgentId| a != b ==> spec_agent_name(a) != spec_agent_name(b),
{
    reveal_strlit("scribe");
    reveal_strlit("codex");
    reveal_strlit("opencode");
    reveal_strlit("amp");
    assert forall|a: AgentId, b: AgentId| a != b implies spec_agent_name(a) != spec_agent_name(
        b,
    ) by {
        assert(spec_agent_name(AgentId::Scribe).len() == 6);
        assert(spec_agent_name(AgentId::Codex).len() == 5);
        assert(spec_agent_name(AgentId::Opencode).len() == 8);
        assert(spec_agent_name(AgentId::Amp).len() == 3);
    }
}

/// The four agents, in the order the agent list shows them.
pub fn all_agents() -> (r: [AgentId; 4])
    ensures
        r@ == seq![AgentId::Scribe, AgentId::Codex, AgentId::Opencode, AgentId::Amp],
{
    let r = [AgentId::Scribe, AgentId::Codex, AgentId::Opencode, AgentId::Amp];
    proof {
        assert(r@ =~= seq![AgentId::Scribe, AgentId::Codex, AgentId::Opencode, AgentId::Amp]);
    }
    r
}

/// The platforms a backend can be installed on.
#[derive(Debug, Clone, Copy, PartialEq, Eq, Structural)]
pub enum Platform {
    LinuxX64,
    LinuxX64Musl,
    LinuxArm64,
    MacosArm64,
    MacosX64,
}

/// How an install is asked for.
#[derive(Debug)]
pub struct InstallOptions {
    pub reinstall: bool,
    pub version: Option<String>,
}

impl Default for InstallOptions {
    fn default() -> (r: Self)
        ensures
            !r.reinstall,
            r.version is None,
    {
        InstallOptions { reinstall: false, version: None }
    }
}

/// Where an installed backend ended up, and its reported version.
#[derive(Debug)]
pub struct InstallResult {
    pub path: String,
    pub version: Option<String>,
}

/// Everything one backend launch needs.
#[derive(Debug)]
pub struct SpawnOptions {
    pub prompt: String,
    pub model: Option<String>,
    pub variant: Option<String>,
    pub agent_mode: Option<String>,
    pub permission_mode: Option<String>,
    pub session_id: Option<String>,
    pub working_dir: Option<String>,
    pub env: Vec<(String, String)>,
}

#[verifier::ext_equal]
pub struct SpawnOptionsV {
    pub prompt: Seq<char>,
    pub model: Option<Seq<char>>,
    pub variant: Option<Seq<char>>,
    pub agent_mode: Option<Seq<char>>,
    pub permission_mode: Option<Seq<char>>,
    pub session_id: Option<Seq<char>>,
    pub working_dir: Option<Seq<char>>,
    pub env: Seq<(Seq<char>, Seq<char>)>,
}

impl DeepView for SpawnOptions {
    type V = SpawnOptionsV;

    open spec fn deep_view(&self) -> SpawnOptionsV {
        SpawnOptionsV {
            prompt: self.prompt@,
            model: self.model.deep_view(),
            variant: self.variant.deep_view(),
            agent_mode: self.agent_mode.deep_view(),
            permission_mode: self.permission_mode.deep_view(),
            session_id: self.session_id.deep_view(),
            working_dir: self.working_dir.deep_view(),
            env: self.env.deep_view(),
        }
    }
}

impl SpawnOptions {
    /// Options that carry only the prompt.
    pub fn new(prompt: String) -> (r: SpawnOptions)
        ensures
            r.deep_view() == (SpawnOptionsV {
                prompt: prompt@,
                model: None,
                variant: None,
                agent_mode: None,
                permission_mode: None,
                session_id: None,
                working_dir: None,
                env: Seq::empty(),
            }),
    {
        let r = SpawnOptions {
            prompt,
            model: None,
            variant: None,
            agent_mode: None,
            permission_mode: None,
            session_id: None,
            working_dir: None,
            env: Vec::new(),
        };
        proof {
            assert(r.deep_view().env =~= Seq::<(Seq<char>, Seq<char>)>::empty());
        }
        r
    }
}

/// Knows where backends live on disk; the calls that touch the disk or the
/// network are made by the surrounding program, from these paths.
#[derive(Debug)]
pub struct AgentManager {
    pub install_dir: String,
    pub platform: Platform,
}

impl AgentManager {
    /// A manager rooted at the given directory, for the given platform.
    pub fn with_platform(install_dir: String, platform: Platform) -> (r: AgentManager)
        ensures
            r.install_dir@ == install_dir@,
            r.platform == platform,
    {
        AgentManager { install_dir, platform }
    }

    /// The path the backend is installed at: the install directory, a slash,
    /// and the executable's name.
    pub fn binary_path(&self, agent: AgentId) -> (r: String)
        ensures
            r@ == self.install_dir@ + "/"@ + spec_agent_name(agent),
    {
        let mut out = self.install_dir.clone();
        out.append("/");
        out.append(agent.binary_name());
        out
    }
}

// ---------------------------------------------------------------------------
// Command lines. Each backend is told the model, the permission mode, the
// session to resume where one is known, and the prompt as the trailing
// argument.
// ---------------------------------------------------------------------------

/// The argument list for a Scribe launch.
pub open spec fn spec_scribe_args(o: SpawnOptionsV) -> Seq<Seq<char>> {
    let base = seq![
        "--print"@,
        "--output-format"@,
        "stream-json"@,
        "--verbose"@,
        "--dangerously-skip-permissions"@,
    ];
    let with_model = match o.model {
        Some(m) => base + seq!["--model"@, m],
        None => base,
    };
    let with_resume = match o.session_id {
        Some(s) => with_model + seq!["--resume"@, s],
        None => with_model,
    };
    let with_permission = if o.permission_mode == Some("plan"@) {
        with_resume + seq!["--permission-mode"@, "plan"@]
    } else {
        with_resume
    };
    with_permission + seq![o.prompt]
}

/// The argument list for a Codex launch.
pub open spec fn spec_codex_args(o: SpawnOptionsV) -> Seq<Seq<char>> {
    let base = seq!["exec"@, "--json"@, "--dangerously-bypass-approvals-and-sandbox"@];
    let with_model = match o.model {
        Some(m) => base + seq!["-m"@, m],
        None => base,
    };
    with_model + seq![o.prompt]
}

/// The argument list for an OpenCode launch.
pub open spec fn spec_opencode_args(o: SpawnOptionsV) -> Seq<Seq<char>> {
    let base = seq!["run"@, "--format"@, "json"@];
    let a1 = match o.model {
        Some(m) => base + seq!["-m"@, m],
        None => base,
    };
    let a2 = match o.agent_mode {
        Some(m) => a1 + seq!["--agent"@, m],
        None => a1,
    };
    let a3 = match o.variant {
        Some(v) => a2 + seq!["--variant"@, v],
        None => a2,
    };
    let a4 = match o.session_id {
        Some(s) => a3 + seq!["-s"@, s],
        None => a3,
    };
    a4 + seq![o.prompt]
}

fn push_str(out: &mut Vec<String>, s: &str)
    ensures
        final(out).deep_view() == old(out).deep_view() + seq![s@],
{
    out.push(s.to_owned());
    proof {
        assert(out.deep_view() =~= old(out).deep_view() + seq![s@]);
    }
}

fn push_string(out: &mut Vec<String>, s: String)
    ensures
        final(out).deep_view() == old(out).deep_view() + seq![s@],
{
    out.push(s);
    proof {
        assert(out.deep_view() =~= old(out).deep_view() + seq![s@]);
    }
}

/// The argument list a subprocess launch uses, by backend. Amp launches
/// probe the executable's help text first and are assembled by `amp_args`.
pub fn spawn_args(agent: AgentId, options: &SpawnOptions) -> (r: Vec<String>)
    requires
        agent != AgentId::Amp,
    ensures
        agent == AgentId::Scribe ==> r.deep_view() == spec_scribe_args(options.deep_view()),
        agent == AgentId::Codex ==> r.deep_view() == spec_codex_args(options.deep_view()),
        agent == AgentId::Opencode ==> r.deep_view() == spec_opencode_args(options.deep_view()),
{
    let mut out: Vec<String> = Vec::new();
    proof {
        assert(out.deep_view() =~= Seq::<Seq<char>>::empty());
    }
    match agent {
        AgentId::Scribe => {
            push_str(&mut out, "--print");
            push_str(&mut out, "--output-format");
            push_str(&mut out, "stream-json");
            push_str(&mut out, "--verbose");
            push_str(&mut out, "--dangerously-skip-permissions");
            if let Some(model) = &options.model {
                push_str(&mut out, "--model");
                push_string(&mut out, model.clone());
            }
            if let Some(session_id) = &options.session_id {
                push_str(&mut out, "--resume");
                push_string(&mut out, session_id.clone());
            }
            if let Some(permission_mode) = &options.permission_mode {
                if crate::json::str_eq(permission_mode.as_str(), "plan") {
                    push_str(&mut out, "--permission-mode");
                    push_str(&mut out, "plan");
                }
            }
            push_string(&mut out, options.prompt.clone());
            proof {
                assert(out.deep_view() =~= spec_scribe_args(options.deep_view()));
            }
        }
        AgentId::Codex => {
            push_str(&mut out, "exec");
            push_str(&mut out, "--json");
            push_str(&mut out, "--dangerously-bypass-approvals-and-sandbox");
            if let Some(model) = &options.model {
                push_str(&mut out, "-m");
                push_string(&mut out, model.clone());
            }
            push_string(&mut out, options.prompt.clone());
            proof {
                assert(out.deep_view() =~= spec_codex_args(options.deep_view()));
            }
        }
        AgentId::Opencode => {
            push_str(&mut out, "run");
            push_str(&mut out, "--format");
            push_str(&mut out, "json");
            if let Some(model) = &options.model {
                push_str(&mut out, "-m");
                push_string(&mut out, model.clone());
            }
            if let Some(agent_mode) = &options.agent_mode {
                push_str(&mut out, "--agent");
                push_string(&mut out, agent_mode.clone());
            }
            if let Some(variant) = &options.variant {
                push_str(&mut out, "--variant");
                push_string(&mut out, variant.clone());
            }
            if let Some(session_id) = &options.session_id {
                push_str(&mut out, "-s");
                push_string(&mut out, session_id.clone());
            }
            push_string(&mut out, options.prompt.clone());
            proof {
                assert(out.deep_view() =~= spec_opencode_args(options.deep_view()));
            }
        }
        AgentId::Amp => {
        }
    }
    out
}

/// Which flags an Amp executable's help text advertises.
#[derive(Debug, Clone, Copy, PartialEq, Eq, Structural, Default)]
pub struct AmpFlags {
    pub execute: bool,
    pub print: bool,
    pub output_format: bool,
    pub dangerously_skip_permissions: bool,
}

/// The argument list for an Amp launch, given the advertised flags.
pub open spec fn spec_amp_args(flags: AmpFlags, o: SpawnOptionsV) -> Seq<Seq<char>> {
    let a0 = match o.model {
        Some(m) => seq!["--model"@, m],
        None => Seq::empty(),
    };
    let a1 = match o.session_id {
        Some(s) => a0 + seq!["--continue"@, s],
        None => a0,
    };
    let a2 = if flags.execute {
        a1 + seq!["--execute"@]
    } else if flags.print {
        a1 + seq!["--print"@]
    } else {
        a1
    };
    let a3 = if flags.output_format {
        a2 + seq!["--output-format"@, "stream-json"@]
    } else {
        a2
    };
    let a4 = if flags.dangerously_skip_permissions {
        a3 + seq!["--dangerously-skip-permissions"@]
    } else {
        a3
    };
    a4 + seq![o.prompt]
}

/// Assembles an Amp launch from the flags its help text advertised.
pub fn amp_args(flags: AmpFlags, options: &SpawnOptions) -> (r: Vec<String>)
    ensures
        r.deep_view() == spec_amp_args(flags, options.deep_view()),
{
    let mut out: Vec<String> = Vec::new();
    proof {
        assert(out.deep_view() =~= Seq::<Seq<char>>::empty());
    }
    if let Some(model) = &options.model {
        push_str(&mut out, "--model");
        push_string(&mut out, model.clone());
    }
    if let Some(session_id) = &options.session_id {
        push_str(&mut out, "--continue");
        push_string(&mut out, session_id.clone());
    }
    if flags.execute {
        push_str(&mut out, "--execute");
    } else if flags.print {
        push_str(&mut out, "--print");
    }
    if flags.output_format {
        push_str(&mut out, "--output-format");
        push_str(&mut out, "stream-json");
    }
    if flags.dangerously_skip_permissions {
        push_str(&mut out, "--dangerously-skip-permissions");
    }
    push_string(&mut out, options.prompt.clone());
    proof {
        assert(out.deep_view() =~= spec_amp_args(flags, options.deep_view()));
    }
    out
}

} // verus!
