use vstd::prelude::*;

verus! {

/// Every failure the gateway surfaces to a client.
#[derive(Debug)]
pub enum SandboxError {
    UnsupportedAgent { agent: String },
    InvalidRequest { message: String },
    SessionNotFound { session_id: String },
    SessionAlreadyExists { session_id: String },
    ModeNotSupported { agent: String, mode: String },
    AgentNotInstalled { agent: String },
    InstallFailed { agent: String, stderr: Option<String> },
    AgentProcessExited { agent: String, exit_code: Option<i32>, stderr: Option<String> },
    StreamError { message: String },
    TokenInvalid { message: Option<String> },
}

#[verifier::ext_equal]
pub enum SandboxErrorV {
    UnsupportedAgent { agent: Seq<char> },
    InvalidRequest { message: Seq<char> },
    SessionNotFound { session_id: Seq<char> },
    SessionAlreadyExists { session_id: Seq<char> },
    ModeNotSupported { agent: Seq<char>, mode: Seq<char> },
    AgentNotInstalled { agent: Seq<char> },
    InstallFailed { agent: Seq<char>, stderr: Option<Seq<char>> },
    AgentProcessExited { agent: Seq<char>, exit_code: Option<i32>, stderr: Option<Seq<char>> },
    StreamError { message: Seq<char> },
    TokenInvalid { message: Option<Seq<char>> },
}

impl DeepView for SandboxError {
    type V = SandboxErrorV;

    open spec fn deep_view(&self) -> SandboxErrorV {
        match self {
            SandboxError::UnsupportedAgent { agent } => SandboxErrorV::UnsupportedAgent {
                agent: agent@,
            },
            SandboxError::InvalidRequest { message } => SandboxErrorV::InvalidRequest {
                message: message@,
            },
            SandboxError::SessionNotFound { session_id } => SandboxErrorV::SessionNotFound {
                session_id: session_id@,
            },
            SandboxError::SessionAlreadyExists { session_id } => SandboxErrorV::SessionAlreadyExists {
                session_id: session_id@,
            },
            SandboxError::ModeNotSupported { agent, mode } => SandboxErrorV::ModeNotSupported {
                agent: agent@,
                mode: mode@,
            },
            SandboxError::AgentNotInstalled { agent } => SandboxErrorV::AgentNotInstalled {
                agent: agent@,
            },
            SandboxError::InstallFailed { agent, stderr } => SandboxErrorV::InstallFailed {
                agent: agent@,
                stderr: stderr.deep_view(),
            },
            SandboxError::AgentProcessExited { agent, exit_code, stderr } => {
                SandboxErrorV::AgentProcessExited {
                    agent: agent@,
                    exit_code: *exit_code,
                    stderr: stderr.deep_view(),
                }
            }
            SandboxError::StreamError { message } => SandboxErrorV::StreamError {
                message: message@,
            },
            SandboxError::TokenInvalid { message } => SandboxErrorV::TokenInvalid {
                message: message.deep_view(),
            },
        }
    }
}

/// The HTTP status each kind of failure answers with.
pub open spec fn spec_status(e: SandboxErrorV) -> u16 {
    match e {
        SandboxErrorV::UnsupportedAgent { .. } => 400,
        SandboxErrorV::InvalidRequest { .. } => 400,
        SandboxErrorV::SessionNotFound { .. } => 404,
        SandboxErrorV::SessionAlreadyExists { .. } => 409,
        SandboxErrorV::ModeNotSupported { .. } => 400,
        SandboxErrorV::AgentNotInstalled { .. } => 424,
        SandboxErrorV::InstallFailed { .. } => 500,
        SandboxErrorV::AgentProcessExited { .. } => 500,
        SandboxErrorV::StreamError { .. } => 502,
        SandboxErrorV::TokenInvalid { .. } => 401,
    }
}

/// The stable slug each kind of failure is labelled with.
pub open spec fn spec_error_type(e: SandboxErrorV) -> Seq<char> {
    match e {
        SandboxErrorV::UnsupportedAgent { .. } => "unsupported-agent"@,
        SandboxErrorV::InvalidRequest { .. } => "invalid-request"@,
        SandboxErrorV::SessionNotFound { .. } => "session-not-found"@,
        SandboxErrorV::SessionAlreadyExists { .. } => "session-already-exists"@,
        SandboxErrorV::ModeNotSupported { .. } => "mode-not-supported"@,
        SandboxErrorV::AgentNotInstalled { .. } => "agent-not-installed"@,
        SandboxErrorV::InstallFailed { .. } => "install-failed"@,
        SandboxErrorV::AgentProcessExited { .. } => "agent-process-exited"@,
        SandboxErrorV::StreamError { .. } => "stream-error"@,
        SandboxErrorV::TokenInvalid { .. } => "token-invalid"@,
    }
}

/// A problem-details body: `{type, title, status, detail?}`.
#[derive(Debug)]
pub struct ProblemDetails {
    pub error_type: String,
    pub title: String,
    pub status: u16,
    pub detail: Option<String>,
}

#[verifier::ext_equal]
pub struct ProblemDetailsV {
    pub error_type: Seq<char>,
    pub title: Seq<char>,
    pub status: u16,
    pub detail: Option<Seq<char>>,
}

impl DeepView for ProblemDetails {
    type V = ProblemDetailsV;

    open spec fn deep_view(&self) -> ProblemDetailsV {
        ProblemDetailsV {
            error_type: self.error_type@,
            title: self.title@,
            status: self.status,
            detail: self.detail.deep_view(),
        }
    }
}

/// The free-text detail carried beside the slug, where the failure has one.
pub open spec fn spec_error_detail(e: SandboxErrorV) -> Option<Seq<char>> {
    match e {
        SandboxErrorV::UnsupportedAgent { agent } => Some(agent),
        SandboxErrorV::InvalidRequest { message } => Some(message),
        SandboxErrorV::SessionNotFound { session_id } => Some(session_id),
        SandboxErrorV::SessionAlreadyExists { session_id } => Some(session_id),
        SandboxErrorV::ModeNotSupported { mode, .. } => Some(mode),
        SandboxErrorV::AgentNotInstalled { agent } => Some(agent),
        SandboxErrorV::InstallFailed { stderr, .. } => stderr,
        SandboxErrorV::AgentProcessExited { stderr, .. } => stderr,
        SandboxErrorV::StreamError { message } => Some(message),
        SandboxErrorV::TokenInvalid { message } => message,
    }
}

impl SandboxError {
    /// The HTTP status this failure answers with.
    pub fn status(&self) -> (s: u16)
        ensures
            s == spec_status(self.deep_view()),
    {
        match self {
            SandboxError::UnsupportedAgent { .. } => 400,
            SandboxError::InvalidRequest { .. } => 400,
            SandboxError::SessionNotFound { .. } => 404,
            SandboxError::SessionAlreadyExists { .. } => 409,
            SandboxError::ModeNotSupported { .. } => 400,
            SandboxError::AgentNotInstalled { .. } => 424,
            SandboxError::InstallFailed { .. } => 500,
            SandboxError::AgentProcessExited { .. } => 500,
            SandboxError::StreamError { .. } => 502,
            SandboxError::TokenInvalid { .. } => 401,
        }
    }

    /// The stable slug this failure is labelled with.
    pub fn error_type(&self) -> (r: String)
        ensures
            r@ == spec_error_type(self.deep_view()),
    {
        match self {
            SandboxError::UnsupportedAgent { .. } => String::from_str("unsupported-agent"),
            SandboxError::InvalidRequest { .. } => String::from_str("invalid-request"),
            SandboxError::SessionNotFound { .. } => String::from_str("session-not-found"),
            SandboxError::SessionAlreadyExists { .. } => String::from_str(
                "session-already-exists",
            ),
            SandboxError::ModeNotSupported { .. } => String::from_str("mode-not-supported"),
            SandboxError::AgentNotInstalled { .. } => String::from_str("agent-not-installed"),
            SandboxError::InstallFailed { .. } => String::from_str("install-failed"),
            SandboxError::AgentProcessExited { .. } => String::from_str("agent-process-exited"),
            SandboxError::StreamError { .. } => String::from_str("stream-error"),
            SandboxError::TokenInvalid { .. } => String::from_str("token-invalid"),
        }
    }

    /// The problem-details body this failure answers with.
    pub fn to_problem_details(&self) -> (r: ProblemDetails)
        ensures
            r.deep_view().error_type == spec_error_type(self.deep_view()),
            r.deep_view().title == spec_error_type(self.deep_view()),
            r.deep_view().status == spec_status(self.deep_view()),
            r.deep_view().detail == spec_error_detail(self.deep_view()),
    {
        let detail: Option<String> = match self {
            SandboxError::UnsupportedAgent { agent } => Some(agent.clone()),
            SandboxError::InvalidRequest { message } => Some(message.clone()),
            SandboxError::SessionNotFound { session_id } => Some(session_id.clone()),
            SandboxError::SessionAlreadyExists { session_id } => Some(session_id.clone()),
            SandboxError::ModeNotSupported { mode, .. } => Some(mode.clone()),
            SandboxError::AgentNotInstalled { agent } => Some(agent.clone()),
            SandboxError::InstallFailed { stderr, .. } => match stderr {
                Some(s) => Some(s.clone()),
                None => None,
            },
            SandboxError::AgentProcessExited { stderr, .. } => match stderr {
                Some(s) => Some(s.clone()),
                None => None,
            },
            SandboxError::StreamError { message } => Some(message.clone()),
            SandboxError::TokenInvalid { message } => match message {
                Some(s) => Some(s.clone()),
                None => None,
            },
        };
        ProblemDetails {
            error_type: self.error_type(),
            title: self.error_type(),
            status: self.status(),
            detail,
        }
    }
}

} // verus!
