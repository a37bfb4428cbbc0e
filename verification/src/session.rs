use vstd::prelude::*;

use crate::agents::{spec_agent_name, AgentId, SpawnOptions, SpawnOptionsV};
use crate::errors::{ProblemDetails, SandboxError, SandboxErrorV};
use crate::universal::{
    clone_opt_string, EventDataV, PermissionRequestV, QuestionRequestV, Started, StartedV,
    UniversalEvent, UniversalEventData, UniversalEventV,
};

verus! {

// ---------------------------------------------------------------------------
// Requests and responses.
// ---------------------------------------------------------------------------

/// How an install is asked for over the wire.
#[derive(Debug)]
pub struct AgentInstallRequest {
    pub reinstall: Option<bool>,
}

/// One row of the agent listing.
#[derive(Debug)]
pub struct AgentInfo {
    pub id: String,
    pub installed: bool,
    pub version: Option<String>,
    pub path: Option<String>,
}

/// The agent listing.
#[derive(Debug)]
pub struct AgentListResponse {
    pub agents: Vec<AgentInfo>,
}

/// The mode listing of one agent.
#[derive(Debug)]
pub struct AgentModesResponse {
    pub modes: Vec<crate::modes::AgentModeInfo>,
}

/// What a client sends to open a session.
#[derive(Debug)]
pub struct CreateSessionRequest {
    pub agent: String,
    pub agent_mode: Option<String>,
    pub permission_mode: Option<String>,
    pub model: Option<String>,
    pub variant: Option<String>,
    pub agent_version: Option<String>,
}

#[verifier::ext_equal]
pub struct CreateSessionRequestV {
    pub agent: Seq<char>,
    pub agent_mode: Option<Seq<char>>,
    pub permission_mode: Option<Seq<char>>,
    pub model: Option<Seq<char>>,
    pub variant: Option<Seq<char>>,
    pub agent_version: Option<Seq<char>>,
}

impl DeepView for CreateSessionRequest {
    type V = CreateSessionRequestV;

    open spec fn deep_view(&self) -> CreateSessionRequestV {
        CreateSessionRequestV {
            agent: self.agent@,
            agent_mode: self.agent_mode.deep_view(),
            permission_mode: self.permission_mode.deep_view(),
            model: self.model.deep_view(),
            variant: self.variant.deep_view(),
            agent_version: self.agent_version.deep_view(),
        }
    }
}

/// What opening a session answers.
#[derive(Debug)]
pub struct CreateSessionResponse {
    pub healthy: bool,
    pub error: Option<ProblemDetails>,
    pub agent_session_id: Option<String>,
}

/// A message posted into a session.
#[derive(Debug)]
pub struct MessageRequest {
    pub message: String,
}

/// The polling window a client asks for.
#[derive(Debug)]
pub struct EventsQuery {
    pub offset: Option<u64>,
    pub limit: Option<u64>,
}

/// The polled slice of a session's log.
#[derive(Debug)]
pub struct EventsResponse {
    pub events: Vec<UniversalEvent>,
    pub has_more: bool,
}

/// The answers a client gives to a question.
#[derive(Debug)]
pub struct QuestionReplyRequest {
    pub answers: Vec<Vec<String>>,
}

/// The decision a client gives on a permission request.
#[derive(Debug)]
pub struct PermissionReplyRequest {
    pub reply: PermissionReply,
}

/// The three permission decisions.
#[derive(Debug, Clone, Copy, PartialEq, Eq, Structural)]
pub enum PermissionReply {
    Once,
    Always,
    Reject,
}

/// Case-insensitive equality of two characters, over ASCII letters.
pub open spec fn spec_char_ieq(a: char, b: char) -> bool {
    spec_lower_u32(a) == spec_lower_u32(b)
}

pub open spec fn spec_lower_u32(c: char) -> u32 {
    if 'A' <= c && c <= 'Z' {
        (c as u32 + 32) as u32
    } else {
        c as u32
    }
}

/// Case-insensitive equality of two texts, over ASCII letters.
pub open spec fn spec_str_ieq(a: Seq<char>, b: Seq<char>) -> bool {
    a.len() == b.len() && forall|i: int| 0 <= i < a.len() ==> spec_char_ieq(a[i], b[i])
}

fn lower_u32(c: char) -> (r: u32)
    ensures
        r == spec_lower_u32(c),
{
    if 'A' <= c && c <= 'Z' {
        c as u32 + 32
    } else {
        c as u32
    }
}

/// Compares two texts ignoring ASCII case.
pub fn str_ieq(a: &str, b: &str) -> (r: bool)
    ensures
        r == spec_str_ieq(a@, b@),
{
    let alen = a.unicode_len();
    let blen = b.unicode_len();
    if alen != blen {
        return false;
    }
    let mut i: usize = 0;
    while i < alen
        invariant
            0 <= i <= alen,
            alen as int == a@.len(),
            blen as int == b@.len(),
            alen == blen,
            forall|j: int| 0 <= j < i ==> spec_char_ieq(a@[j], b@[j]),
        decreases alen - i,
    {
        let ca = a.get_char(i);
        let cb = b.get_char(i);
        if lower_u32(ca) != lower_u32(cb) {
            return false;
        }
        i = i + 1;
    }
    true
}

impl PermissionReply {
    /// Reads a permission decision, ignoring ASCII case; anything else is
    /// refused.
    pub fn from_str(value: &str) -> (r: Result<PermissionReply, String>)
        ensures
            r == Ok::<PermissionReply, String>(PermissionReply::Once) <==> spec_str_ieq(
                value@,
                "once"@,
            ),
            r == Ok::<PermissionReply, String>(PermissionReply::Always) <==> spec_str_ieq(
                value@,
                "always"@,
            ),
            r == Ok::<PermissionReply, String>(PermissionReply::Reject) <==> spec_str_ieq(
                value@,
                "reject"@,
            ),
    {
        if str_ieq(value, "once") {
            proof {
                crate::session::lemma_ieq_distinct(value@);
            }
            Ok(PermissionReply::Once)
        } else if str_ieq(value, "always") {
            proof {
                crate::session::lemma_ieq_distinct(value@);
            }
            Ok(PermissionReply::Always)
        } else if str_ieq(value, "reject") {
            proof {
                crate::session::lemma_ieq_distinct(value@);
            }
            Ok(PermissionReply::Reject)
        } else {
            let mut message = String::from_str("invalid permission reply: ");
            message.append(value);
            Err(message)
        }
    }

    /// The decision's wire label.
    pub fn as_str(self) -> (r: &'static str)
        ensures
            self == PermissionReply::Once ==> r@ == "once"@,
            self == PermissionReply::Always ==> r@ == "always"@,
            self == PermissionReply::Reject ==> r@ == "reject"@,
    {
        match self {
            PermissionReply::Once => "once",
            PermissionReply::Always => "always",
            PermissionReply::Reject => "reject",
        }
    }
}

/// A text is case-insensitively equal to at most one of the three decision
/// labels.
pub proof fn lemma_ieq_distinct(v: Seq<char>)
    ensures
        !(spec_str_ieq(v, "once"@) && spec_str_ieq(v, "always"@)),
        !(spec_str_ieq(v, "once"@) && spec_str_ieq(v, "reject"@)),
        !(spec_str_ieq(v, "always"@) && spec_str_ieq(v, "reject"@)),
{
    reveal_strlit("once");
    reveal_strlit("always");
    reveal_strlit("reject");
    if spec_str_ieq(v, "always"@) && spec_str_ieq(v, "reject"@) {
        assert(spec_char_ieq(v[0], "always"@[0]));
        assert(spec_char_ieq(v[0], "reject"@[0]));
        assert(false);
    }
}


/// Removing the one occurrence of an id from a duplicate-free list removes
/// exactly that id's membership and keeps the list duplicate-free.
pub proof fn lemma_remove_at(q0: Seq<Seq<char>>, i: int, id: Seq<char>, qf: Seq<Seq<char>>)
    requires
        spec_no_dups(q0),
        0 <= i < q0.len(),
        q0[i] == id,
        qf == q0.subrange(0, i) + q0.subrange(i + 1, q0.len() as int),
    ensures
        !qf.contains(id),
        forall|x: Seq<char>| x != id ==> qf.contains(x) == q0.contains(x),
        spec_no_dups(qf),
        qf.len() == q0.len() - 1,
{
    assert(qf.len() == q0.len() - 1);
    assert forall|k: int| 0 <= k < qf.len() implies #[trigger] qf[k] == (if k < i {
        q0[k]
    } else {
        q0[k + 1]
    }) by {}
    assert forall|k: int| 0 <= k < qf.len() implies qf[k] != id by {
        if k < i {
            assert(q0[k] != q0[i]);
        } else {
            assert(q0[k + 1] != q0[i]);
        }
    }
    assert(!qf.contains(id)) by {
        if qf.contains(id) {
            let k = choose|k: int| 0 <= k < qf.len() && qf[k] == id;
            assert(qf[k] != id);
        }
    }
    assert forall|x: Seq<char>| x != id implies qf.contains(x) == q0.contains(x) by {
        if q0.contains(x) {
            let k = choose|k: int| 0 <= k < q0.len() && q0[k] == x;
            if k < i {
                assert(qf[k] == x);
                assert(qf.contains(x));
            } else {
                assert(k != i);
                assert(qf[k - 1] == x);
                assert(qf.contains(x));
            }
        }
        if qf.contains(x) {
            let k = choose|k: int| 0 <= k < qf.len() && qf[k] == x;
            if k < i {
                assert(q0[k] == x);
                assert(q0.contains(x));
            } else {
                assert(q0[k + 1] == x);
                assert(q0.contains(x));
            }
        }
    }
    assert forall|a: int, b: int| 0 <= a < b < qf.len() implies qf[a] != qf[b] by {
        let ia = if a < i { a } else { a + 1 };
        let ib = if b < i { b } else { b + 1 };
        assert(qf[a] == q0[ia]);
        assert(qf[b] == q0[ib]);
        assert(ia < ib);
        assert(q0[ia] != q0[ib]);
    }
}

// ---------------------------------------------------------------------------
// One session's state.
// ---------------------------------------------------------------------------

/// The state one session carries between requests.
#[derive(Debug)]
pub struct SessionState {
    pub session_id: String,
    pub agent: AgentId,
    pub agent_mode: String,
    pub permission_mode: String,
    pub model: Option<String>,
    pub variant: Option<String>,
    pub agent_session_id: Option<String>,
    pub ended: bool,
    pub ended_exit_code: Option<i32>,
    pub ended_message: Option<String>,
    pub next_event_id: u64,
    pub events: Vec<UniversalEvent>,
    pub pending_questions: Vec<String>,
    pub pending_permissions: Vec<String>,
    pub opencode_stream_started: bool,
}

#[verifier::ext_equal]
pub struct SessionStateV {
    pub session_id: Seq<char>,
    pub agent: AgentId,
    pub agent_mode: Seq<char>,
    pub permission_mode: Seq<char>,
    pub model: Option<Seq<char>>,
    pub variant: Option<Seq<char>>,
    pub agent_session_id: Option<Seq<char>>,
    pub ended: bool,
    pub ended_exit_code: Option<i32>,
    pub ended_message: Option<Seq<char>>,
    pub next_event_id: u64,
    pub events: Seq<UniversalEventV>,
    pub pending_questions: Seq<Seq<char>>,
    pub pending_permissions: Seq<Seq<char>>,
    pub opencode_stream_started: bool,
}

impl DeepView for SessionState {
    type V = SessionStateV;

    open spec fn deep_view(&self) -> SessionStateV {
        SessionStateV {
            session_id: self.session_id@,
            agent: self.agent,
            agent_mode: self.agent_mode@,
            permission_mode: self.permission_mode@,
            model: self.model.deep_view(),
            variant: self.variant.deep_view(),
            agent_session_id: self.agent_session_id.deep_view(),
            ended: self.ended,
            ended_exit_code: self.ended_exit_code,
            ended_message: self.ended_message.deep_view(),
            next_event_id: self.next_event_id,
            events: self.events.deep_view(),
            pending_questions: self.pending_questions.deep_view(),
            pending_permissions: self.pending_permissions.deep_view(),
            opencode_stream_started: self.opencode_stream_started,
        }
    }
}

/// No text occurs twice.
pub open spec fn spec_no_dups(s: Seq<Seq<char>>) -> bool {
    forall|i: int, j: int| 0 <= i < j < s.len() ==> s[i] != s[j]
}

/// A session is well formed: event ids are contiguous from 1 in log order,
/// every event carries the session's id, the counter continues the log, and
/// the pending sets hold no id twice.
pub open spec fn spec_session_wf(sv: SessionStateV) -> bool {
    &&& sv.next_event_id as int == sv.events.len()
    &&& forall|i: int| 0 <= i < sv.events.len() ==> (#[trigger] sv.events[i]).id as int == i + 1
    &&& forall|i: int|
        0 <= i < sv.events.len() ==> (#[trigger] sv.events[i]).session_id == sv.session_id
    &&& spec_no_dups(sv.pending_questions)
    &&& spec_no_dups(sv.pending_permissions)
}

/// Question and permission events are stamped with the owning session's id;
/// everything else passes through unchanged.
pub open spec fn spec_normalize_data(sid: Seq<char>, d: EventDataV) -> EventDataV {
    match d {
        EventDataV::QuestionAsked { question_asked } => EventDataV::QuestionAsked {
            question_asked: QuestionRequestV { session_id: sid, ..question_asked },
        },
        EventDataV::PermissionAsked { permission_asked } => EventDataV::PermissionAsked {
            permission_asked: PermissionRequestV { session_id: sid, ..permission_asked },
        },
        _ => d,
    }
}

/// Inserts an id unless it is already present.
pub open spec fn spec_insert_id(s: Seq<Seq<char>>, id: Seq<char>) -> Seq<Seq<char>> {
    if s.contains(id) {
        s
    } else {
        s.push(id)
    }
}

/// The pending sets after recording a payload: a question event files its id
/// with the questions, a permission event with the permissions.
pub open spec fn spec_pending_after(
    d: EventDataV,
    q: Seq<Seq<char>>,
    p: Seq<Seq<char>>,
) -> (Seq<Seq<char>>, Seq<Seq<char>>) {
    match d {
        EventDataV::QuestionAsked { question_asked } => (
            spec_insert_id(q, question_asked.id),
            p,
        ),
        EventDataV::PermissionAsked { permission_asked } => (
            q,
            spec_insert_id(p, permission_asked.id),
        ),
        _ => (q, p),
    }
}

fn vec_contains_id(v: &Vec<String>, id: &str) -> (r: bool)
    ensures
        r == v.deep_view().contains(id@),
{
    let mut i: usize = 0;
    while i < v.len()
        invariant
            0 <= i <= v@.len(),
            forall|j: int| 0 <= j < i ==> v.deep_view()[j] != id@,
        decreases v@.len() - i,
    {
        if crate::json::str_eq(v[i].as_str(), id) {
            proof {
                assert(v.deep_view()[i as int] == id@);
            }
            return true;
        }
        i = i + 1;
    }
    false
}

impl SessionState {
    /// A fresh session for the given agent, with its modes normalized.
    pub fn new(session_id: String, agent: AgentId, request: &CreateSessionRequest) -> (r: Result<
        SessionState,
        SandboxError,
    >)
        ensures
            r matches Ok(st) ==> {
                &&& spec_session_wf(st.deep_view())
                &&& st.session_id@ == session_id@
                &&& st.agent == agent
                &&& crate::modes::spec_normalize_modes(
                    agent,
                    request.agent_mode.deep_view(),
                    request.permission_mode.deep_view(),
                ) == Ok::<(Seq<char>, Seq<char>), SandboxErrorV>((
                    st.agent_mode@,
                    st.permission_mode@,
                ))
                &&& st.model.deep_view() == request.model.deep_view()
                &&& st.variant.deep_view() == request.variant.deep_view()
                &&& st.agent_session_id is None
                &&& !st.ended
                &&& st.events.deep_view() == Seq::<UniversalEventV>::empty()
                &&& st.next_event_id == 0
                &&& st.pending_questions.deep_view() == Seq::<Seq<char>>::empty()
                &&& st.pending_permissions.deep_view() == Seq::<Seq<char>>::empty()
                &&& !st.opencode_stream_started
            },
            r matches Err(e) ==> crate::modes::spec_normalize_modes(
                agent,
                request.agent_mode.deep_view(),
                request.permission_mode.deep_view(),
            ) == Err::<(Seq<char>, Seq<char>), SandboxErrorV>(e.deep_view()),
    {
        let am: Option<&str> = match &request.agent_mode {
            Some(s) => Some(s.as_str()),
            None => None,
        };
        let pm: Option<&str> = match &request.permission_mode {
            Some(s) => Some(s.as_str()),
            None => None,
        };
        let (agent_mode, permission_mode) = match crate::modes::normalize_modes(agent, am, pm) {
            Ok(p) => p,
            Err(e) => {
                return Err(e);
            }
        };
        let st = SessionState {
            session_id,
            agent,
            agent_mode,
            permission_mode,
            model: clone_opt_string(&request.model),
            variant: clone_opt_string(&request.variant),
            agent_session_id: None,
            ended: false,
            ended_exit_code: None,
            ended_message: None,
            next_event_id: 0,
            events: Vec::new(),
            pending_questions: Vec::new(),
            pending_permissions: Vec::new(),
            opencode_stream_started: false,
        };
        proof {
            assert(st.events.deep_view() =~= Seq::<UniversalEventV>::empty());
            assert(st.pending_questions.deep_view() =~= Seq::<Seq<char>>::empty());
            assert(st.pending_permissions.deep_view() =~= Seq::<Seq<char>>::empty());
        }
        Ok(st)
    }

    /// Stamps question and permission payloads with this session's id.
    fn normalize_event_data(&self, data: UniversalEventData) -> (r: UniversalEventData)
        ensures
            r.deep_view() == spec_normalize_data(self.session_id@, data.deep_view()),
    {
        match data {
            UniversalEventData::QuestionAsked { question_asked } => {
                let stamped = crate::universal::QuestionRequest {
                    session_id: self.session_id.clone(),
                    ..question_asked
                };
                UniversalEventData::QuestionAsked { question_asked: stamped }
            }
            UniversalEventData::PermissionAsked { permission_asked } => {
                let stamped = crate::universal::PermissionRequest {
                    session_id: self.session_id.clone(),
                    ..permission_asked
                };
                UniversalEventData::PermissionAsked { permission_asked: stamped }
            }
            other => other,
        }
    }

    /// Files the id of a question or permission event with the pending sets.
    fn update_pending(&mut self, event: &UniversalEvent)
        requires
            spec_no_dups(old(self).pending_questions.deep_view()),
            spec_no_dups(old(self).pending_permissions.deep_view()),
        ensures
            (
                final(self).pending_questions.deep_view(),
                final(self).pending_permissions.deep_view(),
            ) == spec_pending_after(
                event.data.deep_view(),
                old(self).pending_questions.deep_view(),
                old(self).pending_permissions.deep_view(),
            ),
            spec_no_dups(final(self).pending_questions.deep_view()),
            spec_no_dups(final(self).pending_permissions.deep_view()),
            *final(self) == (SessionState {
                pending_questions: final(self).pending_questions,
                pending_permissions: final(self).pending_permissions,
                ..*old(self)
            }),
    {
        match &event.data {
            UniversalEventData::QuestionAsked { question_asked } => {
                if !vec_contains_id(&self.pending_questions, question_asked.id.as_str()) {
                    let ghost q0 = self.pending_questions.deep_view();
                    self.pending_questions.push(question_asked.id.clone());
                    proof {
                        assert(self.pending_questions.deep_view() =~= q0.push(
                            question_asked.id@,
                        ));
                    }
                }
            }
            UniversalEventData::PermissionAsked { permission_asked } => {
                if !vec_contains_id(&self.pending_permissions, permission_asked.id.as_str()) {
                    let ghost p0 = self.pending_permissions.deep_view();
                    self.pending_permissions.push(permission_asked.id.clone());
                    proof {
                        assert(self.pending_permissions.deep_view() =~= p0.push(
                            permission_asked.id@,
                        ));
                    }
                }
            }
            _ => {}
        }
    }

    /// The sole way an event enters the log: it gets the next id, the wall
    /// time, the session's ids, and is appended; question and permission ids
    /// join the pending sets; the backend's session id is learned from the
    /// first event that carries one.
    pub fn record_event(
        &mut self,
        data: UniversalEventData,
        agent_session_id: Option<String>,
    ) -> (r: UniversalEvent)
        requires
            spec_session_wf(old(self).deep_view()),
            old(self).next_event_id < u64::MAX,
        ensures
            spec_session_wf(final(self).deep_view()),
            final(self).events.deep_view().len() == old(self).events.deep_view().len() + 1,
            final(self).events.deep_view().subrange(
                0,
                old(self).events.deep_view().len() as int,
            ) == old(self).events.deep_view(),
            r.deep_view() == final(self).events.deep_view().last(),
            ({
                let ev = final(self).events.deep_view().last();
                &&& ev.id as int == old(self).events.deep_view().len() + 1
                &&& ev.session_id == old(self).session_id@
                &&& ev.agent == spec_agent_name(old(self).agent)
                &&& ev.agent_session_id == agent_session_id.deep_view()
                &&& ev.data == spec_normalize_data(old(self).session_id@, data.deep_view())
            }),
            (
                final(self).pending_questions.deep_view(),
                final(self).pending_permissions.deep_view(),
            ) == spec_pending_after(
                spec_normalize_data(old(self).session_id@, data.deep_view()),
                old(self).pending_questions.deep_view(),
                old(self).pending_permissions.deep_view(),
            ),
            final(self).agent_session_id.deep_view() == (if old(self).agent_session_id is Some {
                old(self).agent_session_id.deep_view()
            } else {
                agent_session_id.deep_view()
            }),
            final(self).session_id == old(self).session_id,
            final(self).agent == old(self).agent,
            final(self).agent_mode == old(self).agent_mode,
            final(self).permission_mode == old(self).permission_mode,
            final(self).model == old(self).model,
            final(self).variant == old(self).variant,
            final(self).ended == old(self).ended,
            final(self).ended_exit_code == old(self).ended_exit_code,
            final(self).ended_message == old(self).ended_message,
            final(self).opencode_stream_started == old(self).opencode_stream_started,
    {
        let data = self.normalize_event_data(data);
        let ghost ev0 = self.events.deep_view();
        self.next_event_id = self.next_event_id + 1;
        let event = UniversalEvent {
            id: self.next_event_id,
            timestamp: crate::clock::now_rfc3339(),
            session_id: self.session_id.clone(),
            agent: self.agent.as_str().to_owned(),
            agent_session_id: clone_opt_string(&agent_session_id),
            data,
        };
        self.update_pending(&event);
        let result = event.clone();
        self.events.push(event);
        if self.agent_session_id.is_none() {
            self.agent_session_id = agent_session_id;
        }
        proof {
            assert(self.events.deep_view() =~= ev0.push(self.events.deep_view().last()));
            assert(self.events.deep_view().subrange(0, ev0.len() as int) =~= ev0);
        }
        result
    }

    /// Records a translated backend event. The backend session id on the
    /// event is the conversion's, else the session's; the session learns the
    /// conversion's id if it had none.
    pub fn record_conversion(&mut self, conversion: crate::universal::EventConversion) -> (r:
        UniversalEvent)
        requires
            spec_session_wf(old(self).deep_view()),
            old(self).next_event_id < u64::MAX,
        ensures
            spec_session_wf(final(self).deep_view()),
            final(self).events.deep_view().len() == old(self).events.deep_view().len() + 1,
            final(self).events.deep_view().subrange(
                0,
                old(self).events.deep_view().len() as int,
            ) == old(self).events.deep_view(),
            r.deep_view() == final(self).events.deep_view().last(),
            ({
                let ev = final(self).events.deep_view().last();
                &&& ev.id as int == old(self).events.deep_view().len() + 1
                &&& ev.session_id == old(self).session_id@
                &&& ev.agent == spec_agent_name(old(self).agent)
                &&& ev.agent_session_id == (if conversion.agent_session_id is Some {
                    conversion.agent_session_id.deep_view()
                } else {
                    old(self).agent_session_id.deep_view()
                })
                &&& ev.data == spec_normalize_data(
                    old(self).session_id@,
                    conversion.data.deep_view(),
                )
            }),
            final(self).agent_session_id.deep_view() == (if old(self).agent_session_id is Some {
                old(self).agent_session_id.deep_view()
            } else {
                conversion.agent_session_id.deep_view()
            }),
            (
                final(self).pending_questions.deep_view(),
                final(self).pending_permissions.deep_view(),
            ) == spec_pending_after(
                spec_normalize_data(old(self).session_id@, conversion.data.deep_view()),
                old(self).pending_questions.deep_view(),
                old(self).pending_permissions.deep_view(),
            ),
            final(self).ended == old(self).ended,
            final(self).ended_exit_code == old(self).ended_exit_code,
            final(self).ended_message == old(self).ended_message,
            final(self).session_id == old(self).session_id,
            final(self).agent == old(self).agent,
    {
        let asid: Option<String> = match &conversion.agent_session_id {
            Some(s) => Some(s.clone()),
            None => clone_opt_string(&self.agent_session_id),
        };
        if self.agent_session_id.is_none() {
            self.agent_session_id = clone_opt_string(&conversion.agent_session_id);
        }
        self.record_event(conversion.data, asid)
    }

    /// Removes a question id from the pending set; reports whether it was
    /// there.
    #[verifier::loop_isolation(false)]
    pub fn take_question(&mut self, question_id: &str) -> (r: bool)
        requires
            spec_no_dups(old(self).pending_questions.deep_view()),
        ensures
            r == old(self).pending_questions.deep_view().contains(question_id@),
            !final(self).pending_questions.deep_view().contains(question_id@),
            forall|x: Seq<char>|
                x != question_id@ ==> final(self).pending_questions.deep_view().contains(x)
                    == old(self).pending_questions.deep_view().contains(x),
            spec_no_dups(final(self).pending_questions.deep_view()),
            *final(self) == (SessionState {
                pending_questions: final(self).pending_questions,
                ..*old(self)
            }),
            !r ==> *final(self) == *old(self),
    {
        let mut i: usize = 0;
        while i < self.pending_questions.len()
            invariant
                0 <= i <= self.pending_questions@.len(),
                forall|j: int| 0 <= j < i ==> self.pending_questions.deep_view()[j] != question_id@,
                self.pending_questions == old(self).pending_questions,
                *self == *old(self),
            decreases self.pending_questions@.len() - i,
        {
            if crate::json::str_eq(self.pending_questions[i].as_str(), question_id) {
                let ghost q0 = self.pending_questions.deep_view();
                proof {
                    assert(q0[i as int] == question_id@);
                    assert(q0.contains(question_id@));
                }
                self.pending_questions.remove(i);
                proof {
                    let qf = self.pending_questions.deep_view();
                    assert(qf =~= q0.subrange(0, i as int) + q0.subrange(
                        i as int + 1,
                        q0.len() as int,
                    ));
                    lemma_remove_at(q0, i as int, question_id@, qf);
                }
                return true;
            }
            i = i + 1;
        }
        proof {
            assert forall|j: int|
                0 <= j < self.pending_questions.deep_view().len() implies self
                .pending_questions
                .deep_view()[j] != question_id@ by {}
        }
        false
    }

    /// Removes a permission id from the pending set; reports whether it was
    /// there.
    #[verifier::loop_isolation(false)]
    pub fn take_permission(&mut self, permission_id: &str) -> (r: bool)
        requires
            spec_no_dups(old(self).pending_permissions.deep_view()),
        ensures
            r == old(self).pending_permissions.deep_view().contains(permission_id@),
            !final(self).pending_permissions.deep_view().contains(permission_id@),
            forall|x: Seq<char>|
                x != permission_id@ ==> final(self).pending_permissions.deep_view().contains(x)
                    == old(self).pending_permissions.deep_view().contains(x),
            spec_no_dups(final(self).pending_permissions.deep_view()),
            *final(self) == (SessionState {
                pending_permissions: final(self).pending_permissions,
                ..*old(self)
            }),
            !r ==> *final(self) == *old(self),
    {
        let mut i: usize = 0;
        while i < self.pending_permissions.len()
            invariant
                0 <= i <= self.pending_permissions@.len(),
                forall|j: int|
                    0 <= j < i ==> self.pending_permissions.deep_view()[j] != permission_id@,
                self.pending_permissions == old(self).pending_permissions,
                *self == *old(self),
            decreases self.pending_permissions@.len() - i,
        {
            if crate::json::str_eq(self.pending_permissions[i].as_str(), permission_id) {
                let ghost q0 = self.pending_permissions.deep_view();
                proof {
                    assert(q0[i as int] == permission_id@);
                    assert(q0.contains(permission_id@));
                }
                self.pending_permissions.remove(i);
                proof {
                    let qf = self.pending_permissions.deep_view();
                    assert(qf =~= q0.subrange(0, i as int) + q0.subrange(
                        i as int + 1,
                        q0.len() as int,
                    ));
                    lemma_remove_at(q0, i as int, permission_id@, qf);
                }
                return true;
            }
            i = i + 1;
        }
        false
    }

    /// Marks the session ended; the flag never reverts.
    pub fn mark_ended(&mut self, exit_code: Option<i32>, message: String)
        ensures
            final(self).ended,
            final(self).ended_exit_code == exit_code,
            final(self).ended_message.deep_view() == Some(message@),
            *final(self) == (SessionState {
                ended: true,
                ended_exit_code: exit_code,
                ended_message: final(self).ended_message,
                ..*old(self)
            }),
    {
        self.ended = true;
        self.ended_exit_code = exit_code;
        self.ended_message = Some(message);
    }

    /// The stable failure an ended session answers every mutation with.
    pub fn ended_error(&self) -> (r: Option<SandboxError>)
        ensures
            self.ended <==> r is Some,
            r matches Some(e) ==> e.deep_view() == (SandboxErrorV::AgentProcessExited {
                agent: spec_agent_name(self.agent),
                exit_code: self.ended_exit_code,
                stderr: self.ended_message.deep_view(),
            }),
    {
        if !self.ended {
            return None;
        }
        Some(
            SandboxError::AgentProcessExited {
                agent: self.agent.as_str().to_owned(),
                exit_code: self.ended_exit_code,
                stderr: clone_opt_string(&self.ended_message),
            },
        )
    }

    /// The fields a dispatch needs, copied out of the session.
    pub fn snapshot(&self) -> (r: SessionSnapshot)
        ensures
            r.deep_view() == (SessionSnapshotV {
                session_id: self.session_id@,
                agent: self.agent,
                agent_mode: self.agent_mode@,
                permission_mode: self.permission_mode@,
                model: self.model.deep_view(),
                variant: self.variant.deep_view(),
                agent_session_id: self.agent_session_id.deep_view(),
            }),
    {
        SessionSnapshot {
            session_id: self.session_id.clone(),
            agent: self.agent,
            agent_mode: self.agent_mode.clone(),
            permission_mode: self.permission_mode.clone(),
            model: clone_opt_string(&self.model),
            variant: clone_opt_string(&self.variant),
            agent_session_id: clone_opt_string(&self.agent_session_id),
        }
    }
}

// ---------------------------------------------------------------------------
// Snapshots and dispatch.
// ---------------------------------------------------------------------------

/// The fields a dispatch reads, frozen at one moment.
#[derive(Debug)]
pub struct SessionSnapshot {
    pub session_id: String,
    pub agent: AgentId,
    pub agent_mode: String,
    pub permission_mode: String,
    pub model: Option<String>,
    pub variant: Option<String>,
    pub agent_session_id: Option<String>,
}

#[verifier::ext_equal]
pub struct SessionSnapshotV {
    pub session_id: Seq<char>,
    pub agent: AgentId,
    pub agent_mode: Seq<char>,
    pub permission_mode: Seq<char>,
    pub model: Option<Seq<char>>,
    pub variant: Option<Seq<char>>,
    pub agent_session_id: Option<Seq<char>>,
}

impl DeepView for SessionSnapshot {
    type V = SessionSnapshotV;

    open spec fn deep_view(&self) -> SessionSnapshotV {
        SessionSnapshotV {
            session_id: self.session_id@,
            agent: self.agent,
            agent_mode: self.agent_mode@,
            permission_mode: self.permission_mode@,
            model: self.model.deep_view(),
            variant: self.variant.deep_view(),
            agent_session_id: self.agent_session_id.deep_view(),
        }
    }
}

/// The credentials the host handed over, as plain values.
#[derive(Debug)]
pub struct Credentials {
    pub scribe_api_key: Option<String>,
    pub codex_api_key: Option<String>,
}

/// The launch options a submission builds: the session's modes and ids, and
/// the credential environment, without overwriting anything already set.
pub open spec fn spec_build_spawn_options(
    s: SessionSnapshotV,
    prompt: Seq<char>,
    scribe: Option<Seq<char>>,
    codex: Option<Seq<char>>,
) -> SpawnOptionsV {
    let sid = if s.agent_session_id is Some {
        s.agent_session_id
    } else if s.agent == AgentId::Opencode {
        Some(s.session_id)
    } else {
        None
    };
    let env0 = Seq::<(Seq<char>, Seq<char>)>::empty();
    let env1 = match scribe {
        Some(key) => env0 + seq![("SCRIBE_API_KEY"@, key), ("SCRIBE_TOKEN"@, key)],
        None => env0,
    };
    let env2 = match codex {
        Some(key) => env1 + seq![("CODEX_API_KEY"@, key), ("CODEX_TOKEN"@, key)],
        None => env1,
    };
    SpawnOptionsV {
        prompt,
        model: s.model,
        variant: s.variant,
        agent_mode: Some(s.agent_mode),
        permission_mode: Some(s.permission_mode),
        session_id: sid,
        working_dir: None,
        env: env2,
    }
}

/// Builds the launch options for one message submission.
pub fn build_spawn_options(session: &SessionSnapshot, prompt: String, credentials: &Credentials)
    -> (r: SpawnOptions)
    ensures
        r.deep_view() == spec_build_spawn_options(
            session.deep_view(),
            prompt@,
            credentials.scribe_api_key.deep_view(),
            credentials.codex_api_key.deep_view(),
        ),
{
    let session_id: Option<String> = match &session.agent_session_id {
        Some(s) => Some(s.clone()),
        None => if session.agent == AgentId::Opencode {
            Some(session.session_id.clone())
        } else {
            None
        },
    };
    let mut env: Vec<(String, String)> = Vec::new();
    proof {
        assert(env.deep_view() =~= Seq::<(Seq<char>, Seq<char>)>::empty());
    }
    if let Some(key) = &credentials.scribe_api_key {
        let ghost e0 = env.deep_view();
        env.push((String::from_str("SCRIBE_API_KEY"), key.clone()));
        env.push((String::from_str("SCRIBE_TOKEN"), key.clone()));
        proof {
            assert(env.deep_view() =~= e0 + seq![
                ("SCRIBE_API_KEY"@, key@),
                ("SCRIBE_TOKEN"@, key@),
            ]);
        }
    }
    if let Some(key) = &credentials.codex_api_key {
        let ghost e1 = env.deep_view();
        env.push((String::from_str("CODEX_API_KEY"), key.clone()));
        env.push((String::from_str("CODEX_TOKEN"), key.clone()));
        proof {
            assert(env.deep_view() =~= e1 + seq![
                ("CODEX_API_KEY"@, key@),
                ("CODEX_TOKEN"@, key@),
            ]);
        }
    }
    SpawnOptions {
        prompt,
        model: clone_opt_string(&session.model),
        variant: clone_opt_string(&session.variant),
        agent_mode: Some(session.agent_mode.clone()),
        permission_mode: Some(session.permission_mode.clone()),
        session_id,
        working_dir: None,
        env,
    }
}

/// What a message submission asks the surrounding program to do.
#[derive(Debug)]
pub enum SendAction {
    Subprocess { agent: AgentId, options: SpawnOptions },
    SidecarPrompt {
        agent_session_id: String,
        prompt: String,
        agent_mode: String,
        model: Option<String>,
        variant: Option<String>,
    },
}

/// Where a reply or reject is forwarded.
#[derive(Debug)]
pub struct ReplyRoute {
    pub agent: AgentId,
    pub agent_session_id: Option<String>,
}

/// A subscriber's catch-up buffer, and the point the live tail starts from.
#[derive(Debug)]
pub struct SessionSubscription {
    pub initial_events: Vec<UniversalEvent>,
    pub cursor: u64,
}

// ---------------------------------------------------------------------------
// The session table.
// ---------------------------------------------------------------------------

/// The central state container: every session, keyed by its id.
#[derive(Debug)]
pub struct SessionManager {
    pub sessions: Vec<(String, SessionState)>,
}

/// The whole table is well formed: every session is, each sits under its own
/// id, and no id repeats.
pub open spec fn spec_mgr_wf(s: Seq<(Seq<char>, SessionStateV)>) -> bool {
    &&& forall|i: int| 0 <= i < s.len() ==> spec_session_wf((#[trigger] s[i]).1)
    &&& forall|i: int| 0 <= i < s.len() ==> (#[trigger] s[i]).1.session_id == s[i].0
    &&& forall|i: int, j: int| 0 <= i < j < s.len() ==> s[i].0 != s[j].0
}

pub open spec fn spec_has_session(s: Seq<(Seq<char>, SessionStateV)>, id: Seq<char>) -> bool {
    exists|i: int| 0 <= i < s.len() && (#[trigger] s[i]).0 == id
}

impl SessionManager {
    /// An empty table.
    pub fn new() -> (r: SessionManager)
        ensures
            r.sessions.deep_view() == Seq::<(Seq<char>, SessionStateV)>::empty(),
            spec_mgr_wf(r.sessions.deep_view()),
    {
        let r = SessionManager { sessions: Vec::new() };
        proof {
            assert(r.sessions.deep_view() =~= Seq::<(Seq<char>, SessionStateV)>::empty());
        }
        r
    }

    /// The position of a session in the table.
    fn find_session(&self, session_id: &str) -> (r: Option<usize>)
        ensures
            r matches Some(i) ==> i < self.sessions@.len() && self.sessions.deep_view()[
                i as int
            ].0 == session_id@,
            r is None ==> !spec_has_session(self.sessions.deep_view(), session_id@),
    {
        let mut i: usize = 0;
        while i < self.sessions.len()
            invariant
                0 <= i <= self.sessions@.len(),
                forall|j: int| 0 <= j < i ==> self.sessions.deep_view()[j].0 != session_id@,
            decreases self.sessions@.len() - i,
        {
            if crate::json::str_eq(self.sessions[i].0.as_str(), session_id) {
                proof {
                    assert(self.sessions.deep_view()[i as int].0 == session_id@);
                }
                return Some(i);
            }
            i = i + 1;
        }
        proof {
            assert(!spec_has_session(self.sessions.deep_view(), session_id@)) by {
                if spec_has_session(self.sessions.deep_view(), session_id@) {
                    let k = choose|k: int|
                        0 <= k < self.sessions.deep_view().len() && self.sessions.deep_view()[
                            k
                        ].0 == session_id@;
                    assert(self.sessions.deep_view()[k].0 != session_id@);
                }
            }
        }
        None
    }

    /// Whether a session can take one more event without exhausting its
    /// counter; the surrounding program checks this before feeding events
    /// in. A missing session can, vacuously: recording into it fails with
    /// its own error.
    pub fn can_record(&self, session_id: &str) -> (r: bool)
        requires
            spec_mgr_wf(self.sessions.deep_view()),
        ensures
            r == forall|i: int|
                0 <= i < self.sessions.deep_view().len() && (#[trigger] self.sessions.deep_view()[
                    i
                ]).0 == session_id@ ==> self.sessions.deep_view()[i].1.next_event_id < u64::MAX,
    {
        match self.find_session(session_id) {
            Some(i) => {
                let ok = self.sessions[i].1.next_event_id < u64::MAX;
                proof {
                    if ok {
                        assert forall|j: int|
                            0 <= j < self.sessions.deep_view().len() && (#[trigger] self.sessions.deep_view()[
                                j
                            ]).0 == session_id@ implies self.sessions.deep_view()[
                            j
                        ].1.next_event_id < u64::MAX by {
                            if j < i as int {
                                assert(self.sessions.deep_view()[j].0 != self.sessions.deep_view()[
                                    i as int
                                ].0);
                            } else if j > i as int {
                                assert(self.sessions.deep_view()[i as int].0
                                    != self.sessions.deep_view()[j].0);
                            }
                        }
                    }
                }
                ok
            }
            None => true,
        }
    }

    /// Whether a session with this id exists.
    pub fn has_session(&self, session_id: &str) -> (r: bool)
        ensures
            r == spec_has_session(self.sessions.deep_view(), session_id@),
    {
        match self.find_session(session_id) {
            Some(i) => {
                proof {
                    assert(spec_has_session(self.sessions.deep_view(), session_id@));
                }
                true
            }
            None => false,
        }
    }

    /// Opens a session: the id must be fresh, the agent known, the modes
    /// accepted. One synthetic start event is recorded. For the sidecar
    /// backend the caller passes the native session id it allocated.
    pub fn create_session(
        &mut self,
        session_id: String,
        request: &CreateSessionRequest,
        native_session_id: Option<String>,
    ) -> (r: Result<CreateSessionResponse, SandboxError>)
        requires
            spec_mgr_wf(old(self).sessions.deep_view()),
        ensures
            spec_mgr_wf(final(self).sessions.deep_view()),
            r is Err ==> final(self).sessions.deep_view() == old(self).sessions.deep_view(),
            (forall|a: AgentId| request.agent@ != spec_agent_name(a)) ==> (r matches Err(e)
                && e.deep_view() == (SandboxErrorV::UnsupportedAgent { agent: request.agent@ })),
            forall|a: AgentId|
                request.agent@ == spec_agent_name(a) && spec_has_session(
                    old(self).sessions.deep_view(),
                    session_id@,
                ) ==> (r matches Err(e) && e.deep_view() == (SandboxErrorV::SessionAlreadyExists {
                    session_id: session_id@,
                })),
            forall|a: AgentId|
                request.agent@ == spec_agent_name(a) && !spec_has_session(
                    old(self).sessions.deep_view(),
                    session_id@,
                ) ==> match crate::modes::spec_normalize_modes(
                    a,
                    request.agent_mode.deep_view(),
                    request.permission_mode.deep_view(),
                ) {
                    Err(me) => r matches Err(e) && e.deep_view() == me,
                    Ok(ms) => r matches Ok(resp) && {
                        let n = old(self).sessions.deep_view().len();
                        let ent = final(self).sessions.deep_view().last();
                        let asid = if a == AgentId::Opencode {
                            native_session_id.deep_view()
                        } else {
                            None
                        };
                        &&& final(self).sessions.deep_view().len() == n + 1
                        &&& final(self).sessions.deep_view().subrange(0, n as int) == old(self).sessions.deep_view()
                        &&& ent.0 == session_id@
                        &&& ent.1.session_id == session_id@
                        &&& ent.1.agent == a
                        &&& ent.1.agent_mode == ms.0
                        &&& ent.1.permission_mode == ms.1
                        &&& ent.1.model == request.model.deep_view()
                        &&& ent.1.variant == request.variant.deep_view()
                        &&& !ent.1.ended
                        &&& ent.1.agent_session_id == asid
                        &&& ent.1.events.len() == 1
                        &&& ent.1.events[0].id == 1
                        &&& ent.1.events[0].session_id == session_id@
                        &&& ent.1.events[0].agent_session_id == asid
                        &&& ent.1.events[0].data == (EventDataV::Started {
                            started: (StartedV {
                                message: Some("session.created"@),
                                details: None,
                            }),
                        })
                        &&& resp.healthy
                        &&& resp.agent_session_id.deep_view() == asid
                    },
                },
    {
        proof {
            crate::agents::lemma_agent_names_distinct();
        }
        let agent = match AgentId::parse(request.agent.as_str()) {
            Some(a) => a,
            None => {
                return Err(SandboxError::UnsupportedAgent { agent: request.agent.clone() });
            }
        };
        if self.has_session(session_id.as_str()) {
            return Err(SandboxError::SessionAlreadyExists { session_id });
        }
        let mut st = match SessionState::new(session_id.clone(), agent, request) {
            Ok(st) => st,
            Err(e) => {
                return Err(e);
            }
        };
        if agent == AgentId::Opencode {
            st.agent_session_id = native_session_id;
        }
        let started = Started { message: Some(String::from_str("session.created")), details: None };
        let asid = clone_opt_string(&st.agent_session_id);
        st.record_event(UniversalEventData::Started { started }, asid);
        let resp_asid = clone_opt_string(&st.agent_session_id);
        let ghost s0 = self.sessions.deep_view();
        self.sessions.push((session_id, st));
        proof {
            assert(self.sessions.deep_view() =~= s0.push(self.sessions.deep_view().last()));
            assert(self.sessions.deep_view().subrange(0, s0.len() as int) =~= s0);
        }
        Ok(CreateSessionResponse { healthy: true, error: None, agent_session_id: resp_asid })
    }

    /// Decides what a message submission does: an ended session refuses it
    /// with the recorded exit details; a sidecar session yields a prompt to
    /// post; anything else yields a subprocess launch.
    pub fn send_message(&self, session_id: &str, message: String, credentials: &Credentials)
        -> (r: Result<SendAction, SandboxError>)
        requires
            spec_mgr_wf(self.sessions.deep_view()),
        ensures
            !spec_has_session(self.sessions.deep_view(), session_id@) ==> (r matches Err(e)
                && e.deep_view() == (SandboxErrorV::SessionNotFound { session_id: session_id@ })),
            forall|i: int|
                0 <= i < self.sessions.deep_view().len() && (#[trigger] self.sessions.deep_view()[
                    i
                ]).0 == session_id@ ==> {
                    let st = self.sessions.deep_view()[i].1;
                    &&& st.ended ==> (r matches Err(e) && e.deep_view()
                        == (SandboxErrorV::AgentProcessExited {
                        agent: spec_agent_name(st.agent),
                        exit_code: st.ended_exit_code,
                        stderr: st.ended_message,
                    }))
                    &&& !st.ended && st.agent == AgentId::Opencode ==> match st.agent_session_id {
                        Some(asid) => r matches Ok(SendAction::SidecarPrompt {
                            agent_session_id,
                            prompt,
                            agent_mode,
                            model,
                            variant,
                        }) && agent_session_id@ == asid && prompt@ == message@ && agent_mode@
                            == st.agent_mode && model.deep_view() == st.model
                            && variant.deep_view() == st.variant,
                        None => r matches Err(e) && e.deep_view() matches
                            SandboxErrorV::InvalidRequest { .. },
                    }
                    &&& !st.ended && st.agent != AgentId::Opencode ==> (r matches Ok(
                        SendAction::Subprocess { agent, options },
                    ) && agent == st.agent && options.deep_view() == spec_build_spawn_options(
                        (SessionSnapshotV {
                            session_id: st.session_id,
                            agent: st.agent,
                            agent_mode: st.agent_mode,
                            permission_mode: st.permission_mode,
                            model: st.model,
                            variant: st.variant,
                            agent_session_id: st.agent_session_id,
                        }),
                        message@,
                        credentials.scribe_api_key.deep_view(),
                        credentials.codex_api_key.deep_view(),
                    ))
                },
    {
        let idx = match self.find_session(session_id) {
            Some(i) => i,
            None => {
                return Err(SandboxError::SessionNotFound { session_id: session_id.to_owned() });
            }
        };
        let st = &self.sessions[idx].1;
        if let Some(err) = st.ended_error() {
            return Err(err);
        }
        if st.agent == AgentId::Opencode {
            let asid = match &st.agent_session_id {
                Some(s) => s.clone(),
                None => {
                    return Err(
                        SandboxError::InvalidRequest {
                            message: String::from_str("missing OpenCode session id"),
                        },
                    );
                }
            };
            return Ok(
                SendAction::SidecarPrompt {
                    agent_session_id: asid,
                    prompt: message,
                    agent_mode: st.agent_mode.clone(),
                    model: clone_opt_string(&st.model),
                    variant: clone_opt_string(&st.variant),
                },
            );
        }
        let snapshot = st.snapshot();
        let options = build_spawn_options(&snapshot, message, credentials);
        Ok(SendAction::Subprocess { agent: st.agent, options })
    }

    /// The recorded events past `offset`, at most `limit` of them; says
    /// whether the cut dropped any.
    #[verifier::loop_isolation(false)]
    pub fn events(&self, session_id: &str, offset: u64, limit: Option<u64>) -> (r: Result<
        EventsResponse,
        SandboxError,
    >)
        requires
            spec_mgr_wf(self.sessions.deep_view()),
        ensures
            !spec_has_session(self.sessions.deep_view(), session_id@) ==> (r matches Err(e)
                && e.deep_view() == (SandboxErrorV::SessionNotFound { session_id: session_id@ })),
            spec_has_session(self.sessions.deep_view(), session_id@) ==> r is Ok,
            forall|i: int|
                0 <= i < self.sessions.deep_view().len() && (#[trigger] self.sessions.deep_view()[
                    i
                ]).0 == session_id@ ==> {
                    let evs = self.sessions.deep_view()[i].1.events;
                    let start = if offset as int <= evs.len() {
                        offset as int
                    } else {
                        evs.len() as int
                    };
                    let avail = evs.len() - start;
                    let take = match limit {
                        Some(l) => if l as int <= avail {
                            l as int
                        } else {
                            avail
                        },
                        None => avail,
                    };
                    r matches Ok(resp) && {
                        &&& resp.events.deep_view().len() == take
                        &&& forall|k: int|
                            0 <= k < take ==> resp.events.deep_view()[k] == evs[start + k]
                        &&& resp.has_more == (limit matches Some(l) && avail > l as int)
                    }
                },
    {
        let idx = match self.find_session(session_id) {
            Some(i) => i,
            None => {
                return Err(SandboxError::SessionNotFound { session_id: session_id.to_owned() });
            }
        };
        proof {
            assert(spec_has_session(self.sessions.deep_view(), session_id@));
        }
        let st = &self.sessions[idx].1;
        let total = st.events.len();
        let start: usize = if offset >= total as u64 {
            total
        } else {
            offset as usize
        };
        let avail = total - start;
        let take: usize = match limit {
            Some(l) => if l <= avail as u64 {
                l as usize
            } else {
                avail
            },
            None => avail,
        };
        let has_more = match limit {
            Some(l) => (avail as u64) > l,
            None => false,
        };
        let mut out: Vec<UniversalEvent> = Vec::new();
        let mut k: usize = 0;
        while k < take
            invariant
                0 <= k <= take,
                out@.len() == k as int,
                forall|j: int|
                    0 <= j < k ==> out.deep_view()[j] == st.events.deep_view()[start + j],
            decreases take - k,
        {
            let ev = st.events[start + k].clone();
            let ghost o0 = out.deep_view();
            out.push(ev);
            proof {
                assert(out.deep_view() =~= o0.push(out.deep_view().last()));
            }
            k = k + 1;
        }
        Ok(EventsResponse { events: out, has_more })
    }

    /// The catch-up buffer past `offset`, and the cursor from which the live
    /// tail continues. Everything recorded later has an id past the cursor.
    #[verifier::loop_isolation(false)]
    pub fn subscribe(&self, session_id: &str, offset: u64) -> (r: Result<
        SessionSubscription,
        SandboxError,
    >)
        requires
            spec_mgr_wf(self.sessions.deep_view()),
        ensures
            !spec_has_session(self.sessions.deep_view(), session_id@) ==> (r matches Err(e)
                && e.deep_view() == (SandboxErrorV::SessionNotFound { session_id: session_id@ })),
            spec_has_session(self.sessions.deep_view(), session_id@) ==> r is Ok,
            forall|i: int|
                0 <= i < self.sessions.deep_view().len() && (#[trigger] self.sessions.deep_view()[
                    i
                ]).0 == session_id@ ==> {
                    let evs = self.sessions.deep_view()[i].1.events;
                    let start = if offset as int <= evs.len() {
                        offset as int
                    } else {
                        evs.len() as int
                    };
                    r matches Ok(sub) && {
                        &&& sub.initial_events.deep_view() == evs.skip(start)
                        &&& sub.cursor as int == evs.len()
                    }
                },
    {
        let idx = match self.find_session(session_id) {
            Some(i) => i,
            None => {
                return Err(SandboxError::SessionNotFound { session_id: session_id.to_owned() });
            }
        };
        proof {
            assert(spec_has_session(self.sessions.deep_view(), session_id@));
        }
        let st = &self.sessions[idx].1;
        let total = st.events.len();
        let start: usize = if offset >= total as u64 {
            total
        } else {
            offset as usize
        };
        let mut out: Vec<UniversalEvent> = Vec::new();
        let mut k: usize = start;
        while k < total
            invariant
                start <= k <= total,
                out@.len() == k - start,
                forall|j: int|
                    0 <= j < k - start ==> out.deep_view()[j] == st.events.deep_view()[start + j],
            decreases total - k,
        {
            let ev = st.events[k].clone();
            let ghost o0 = out.deep_view();
            out.push(ev);
            proof {
                assert(out.deep_view() =~= o0.push(out.deep_view().last()));
            }
            k = k + 1;
        }
        proof {
            assert(out.deep_view() =~= st.events.deep_view().skip(start as int));
        }
        Ok(SessionSubscription { initial_events: out, cursor: st.next_event_id })
    }

    /// Shared reply routing: the session must exist and not be ended, and the
    /// question id must be pending; the id leaves the pending set exactly
    /// once.
    fn route_question(&mut self, session_id: &str, question_id: &str) -> (r: Result<
        ReplyRoute,
        SandboxError,
    >)
        requires
            spec_mgr_wf(old(self).sessions.deep_view()),
        ensures
            spec_mgr_wf(final(self).sessions.deep_view()),
            r is Err ==> final(self).sessions.deep_view() == old(self).sessions.deep_view(),
            !spec_has_session(old(self).sessions.deep_view(), session_id@) ==> (r matches Err(e)
                && e.deep_view() == (SandboxErrorV::SessionNotFound { session_id: session_id@ })),
            forall|i: int|
                0 <= i < old(self).sessions.deep_view().len() && (#[trigger] old(self).sessions.deep_view()[i]).0 == session_id@ ==> {
                    let st = old(self).sessions.deep_view()[i].1;
                    &&& st.ended ==> (r matches Err(e) && e.deep_view()
                        == (SandboxErrorV::AgentProcessExited {
                        agent: spec_agent_name(st.agent),
                        exit_code: st.ended_exit_code,
                        stderr: st.ended_message,
                    }))
                    &&& !st.ended && !st.pending_questions.contains(question_id@) ==> (r matches
                        Err(e) && e.deep_view() matches SandboxErrorV::InvalidRequest { .. })
                    &&& !st.ended && st.pending_questions.contains(question_id@) ==> (r matches Ok(
                        route,
                    ) && {
                        let stf = final(self).sessions.deep_view()[i].1;
                        &&& route.agent == st.agent
                        &&& route.agent_session_id.deep_view() == st.agent_session_id
                        &&& final(self).sessions.deep_view().len() == old(self).sessions.deep_view().len()
                        &&& forall|j: int|
                            0 <= j < old(self).sessions.deep_view().len() && j != i ==> final(self).sessions.deep_view()[j] == old(self).sessions.deep_view()[j]
                        &&& !stf.pending_questions.contains(question_id@)
                        &&& forall|x: Seq<char>|
                            x != question_id@ ==> stf.pending_questions.contains(x)
                                == st.pending_questions.contains(x)
                        &&& stf == (SessionStateV {
                            pending_questions: stf.pending_questions,
                            ..st
                        })
                    })
                },
    {
        let idx = match self.find_session(session_id) {
            Some(i) => i,
            None => {
                return Err(SandboxError::SessionNotFound { session_id: session_id.to_owned() });
            }
        };
        let ghost s0 = self.sessions.deep_view();
        let (key, mut st) = self.sessions.remove(idx);
        if let Some(err) = st.ended_error() {
            self.sessions.insert(idx, (key, st));
            proof {
                assert(self.sessions.deep_view() =~= s0);
            }
            return Err(err);
        }
        let had = st.take_question(question_id);
        let route = ReplyRoute {
            agent: st.agent,
            agent_session_id: clone_opt_string(&st.agent_session_id),
        };
        self.sessions.insert(idx, (key, st));
        proof {
            assert(self.sessions.deep_view() =~= s0.update(
                idx as int,
                self.sessions.deep_view()[idx as int],
            ));
        }
        if !had {
            proof {
                assert(self.sessions.deep_view() =~= s0);
            }
            let mut message = String::from_str("unknown question id: ");
            message.append(question_id);
            return Err(SandboxError::InvalidRequest { message });
        }
        Ok(route)
    }

    /// Answers a pending question and routes the answers to the owning
    /// backend. A second reply to the same id is refused.
    pub fn reply_question(&mut self, session_id: &str, question_id: &str) -> (r: Result<
        ReplyRoute,
        SandboxError,
    >)
        requires
            spec_mgr_wf(old(self).sessions.deep_view()),
        ensures
            spec_mgr_wf(final(self).sessions.deep_view()),
            r is Err ==> final(self).sessions.deep_view() == old(self).sessions.deep_view(),
            !spec_has_session(old(self).sessions.deep_view(), session_id@) ==> (r matches Err(e)
                && e.deep_view() == (SandboxErrorV::SessionNotFound { session_id: session_id@ })),
            forall|i: int|
                0 <= i < old(self).sessions.deep_view().len() && (#[trigger] old(self).sessions.deep_view()[i]).0 == session_id@ ==> {
                    let st = old(self).sessions.deep_view()[i].1;
                    &&& st.ended ==> (r matches Err(e) && e.deep_view()
                        == (SandboxErrorV::AgentProcessExited {
                        agent: spec_agent_name(st.agent),
                        exit_code: st.ended_exit_code,
                        stderr: st.ended_message,
                    }))
                    &&& !st.ended && !st.pending_questions.contains(question_id@) ==> (r matches
                        Err(e) && e.deep_view() matches SandboxErrorV::InvalidRequest { .. })
                    &&& !st.ended && st.pending_questions.contains(question_id@) ==> (r matches Ok(
                        route,
                    ) && {
                        let stf = final(self).sessions.deep_view()[i].1;
                        &&& route.agent == st.agent
                        &&& route.agent_session_id.deep_view() == st.agent_session_id
                        &&& final(self).sessions.deep_view().len() == old(self).sessions.deep_view().len()
                        &&& forall|j: int|
                            0 <= j < old(self).sessions.deep_view().len() && j != i ==> final(self).sessions.deep_view()[j] == old(self).sessions.deep_view()[j]
                        &&& !stf.pending_questions.contains(question_id@)
                        &&& forall|x: Seq<char>|
                            x != question_id@ ==> stf.pending_questions.contains(x)
                                == st.pending_questions.contains(x)
                        &&& stf == (SessionStateV {
                            pending_questions: stf.pending_questions,
                            ..st
                        })
                    })
                },
    {
        self.route_question(session_id, question_id)
    }

    /// Rejects a pending question; the id leaves the pending set exactly as a
    /// reply would have it.
    pub fn reject_question(&mut self, session_id: &str, question_id: &str) -> (r: Result<
        ReplyRoute,
        SandboxError,
    >)
        requires
            spec_mgr_wf(old(self).sessions.deep_view()),
        ensures
            spec_mgr_wf(final(self).sessions.deep_view()),
            r is Err ==> final(self).sessions.deep_view() == old(self).sessions.deep_view(),
            !spec_has_session(old(self).sessions.deep_view(), session_id@) ==> (r matches Err(e)
                && e.deep_view() == (SandboxErrorV::SessionNotFound { session_id: session_id@ })),
            forall|i: int|
                0 <= i < old(self).sessions.deep_view().len() && (#[trigger] old(self).sessions.deep_view()[i]).0 == session_id@ ==> {
                    let st = old(self).sessions.deep_view()[i].1;
                    &&& st.ended ==> (r matches Err(e) && e.deep_view()
                        == (SandboxErrorV::AgentProcessExited {
                        agent: spec_agent_name(st.agent),
                        exit_code: st.ended_exit_code,
                        stderr: st.ended_message,
                    }))
                    &&& !st.ended && !st.pending_questions.contains(question_id@) ==> (r matches
                        Err(e) && e.deep_view() matches SandboxErrorV::InvalidRequest { .. })
                    &&& !st.ended && st.pending_questions.contains(question_id@) ==> (r matches Ok(
                        route,
                    ) && {
                        let stf = final(self).sessions.deep_view()[i].1;
                        &&& route.agent == st.agent
                        &&& !stf.pending_questions.contains(question_id@)
                        &&& forall|x: Seq<char>|
                            x != question_id@ ==> stf.pending_questions.contains(x)
                                == st.pending_questions.contains(x)
                        &&& stf == (SessionStateV {
                            pending_questions: stf.pending_questions,
                            ..st
                        })
                    })
                },
    {
        self.route_question(session_id, question_id)
    }

    /// Decides a pending permission request and routes the decision to the
    /// owning backend. A second decision on the same id is refused.
    pub fn reply_permission(&mut self, session_id: &str, permission_id: &str) -> (r: Result<
        ReplyRoute,
        SandboxError,
    >)
        requires
            spec_mgr_wf(old(self).sessions.deep_view()),
        ensures
            spec_mgr_wf(final(self).sessions.deep_view()),
            r is Err ==> final(self).sessions.deep_view() == old(self).sessions.deep_view(),
            !spec_has_session(old(self).sessions.deep_view(), session_id@) ==> (r matches Err(e)
                && e.deep_view() == (SandboxErrorV::SessionNotFound { session_id: session_id@ })),
            forall|i: int|
                0 <= i < old(self).sessions.deep_view().len() && (#[trigger] old(self).sessions.deep_view()[i]).0 == session_id@ ==> {
                    let st = old(self).sessions.deep_view()[i].1;
                    &&& st.ended ==> (r matches Err(e) && e.deep_view()
                        == (SandboxErrorV::AgentProcessExited {
                        agent: spec_agent_name(st.agent),
                        exit_code: st.ended_exit_code,
                        stderr: st.ended_message,
                    }))
                    &&& !st.ended && !st.pending_permissions.contains(permission_id@) ==> (r
                        matches Err(e) && e.deep_view() matches SandboxErrorV::InvalidRequest {
                        ..
                    })
                    &&& !st.ended && st.pending_permissions.contains(permission_id@) ==> (r matches
                        Ok(route) && {
                        let stf = final(self).sessions.deep_view()[i].1;
                        &&& route.agent == st.agent
                        &&& route.agent_session_id.deep_view() == st.agent_session_id
                        &&& !stf.pending_permissions.contains(permission_id@)
                        &&& forall|x: Seq<char>|
                            x != permission_id@ ==> stf.pending_permissions.contains(x)
                                == st.pending_permissions.contains(x)
                        &&& stf == (SessionStateV {
                            pending_permissions: stf.pending_permissions,
                            ..st
                        })
                    })
                },
    {
        let idx = match self.find_session(session_id) {
            Some(i) => i,
            None => {
                return Err(SandboxError::SessionNotFound { session_id: session_id.to_owned() });
            }
        };
        let ghost s0 = self.sessions.deep_view();
        let (key, mut st) = self.sessions.remove(idx);
        if let Some(err) = st.ended_error() {
            self.sessions.insert(idx, (key, st));
            proof {
                assert(self.sessions.deep_view() =~= s0);
            }
            return Err(err);
        }
        let had = st.take_permission(permission_id);
        let route = ReplyRoute {
            agent: st.agent,
            agent_session_id: clone_opt_string(&st.agent_session_id),
        };
        self.sessions.insert(idx, (key, st));
        proof {
            assert(self.sessions.deep_view() =~= s0.update(
                idx as int,
                self.sessions.deep_view()[idx as int],
            ));
        }
        if !had {
            proof {
                assert(self.sessions.deep_view() =~= s0);
            }
            let mut message = String::from_str("unknown permission id: ");
            message.append(permission_id);
            return Err(SandboxError::InvalidRequest { message });
        }
        Ok(route)
    }

    /// Records a translated backend event in its session.
    pub fn record_conversion(
        &mut self,
        session_id: &str,
        conversion: crate::universal::EventConversion,
    ) -> (r: Result<UniversalEvent, SandboxError>)
        requires
            spec_mgr_wf(old(self).sessions.deep_view()),
            forall|i: int|
                0 <= i < old(self).sessions.deep_view().len() && (#[trigger] old(self).sessions.deep_view()[i]).0 == session_id@ ==> old(self).sessions.deep_view()[
                    i
                ].1.next_event_id < u64::MAX,
        ensures
            spec_mgr_wf(final(self).sessions.deep_view()),
            r is Err ==> final(self).sessions.deep_view() == old(self).sessions.deep_view(),
            !spec_has_session(old(self).sessions.deep_view(), session_id@) <==> (r matches Err(e)
                && e.deep_view() == (SandboxErrorV::SessionNotFound { session_id: session_id@ })),
            forall|i: int|
                0 <= i < old(self).sessions.deep_view().len() && (#[trigger] old(self).sessions.deep_view()[i]).0 == session_id@ ==> {
                    let st = old(self).sessions.deep_view()[i].1;
                    let stf = final(self).sessions.deep_view()[i].1;
                    r matches Ok(ev) && {
                        &&& final(self).sessions.deep_view()[i].0 == old(self).sessions.deep_view()[i].0
                        &&& final(self).sessions.deep_view().len() == old(self).sessions.deep_view().len()
                        &&& forall|j: int|
                            0 <= j < old(self).sessions.deep_view().len() && j != i ==> final(self).sessions.deep_view()[j] == old(self).sessions.deep_view()[j]
                        &&& stf.events.len() == st.events.len() + 1
                        &&& stf.events.subrange(0, st.events.len() as int) == st.events
                        &&& ev.deep_view() == stf.events.last()
                        &&& stf.events.last().data == spec_normalize_data(
                            st.session_id,
                            conversion.data.deep_view(),
                        )
                        &&& stf.events.last().id as int == st.events.len() + 1
                        &&& stf.ended == st.ended
                        &&& stf.ended_exit_code == st.ended_exit_code
                        &&& stf.ended_message == st.ended_message
                        &&& (
                        stf.pending_questions,
                        stf.pending_permissions,
                        ) == spec_pending_after(
                            spec_normalize_data(st.session_id, conversion.data.deep_view()),
                            st.pending_questions,
                            st.pending_permissions,
                        )
                    }
                },
    {
        let idx = match self.find_session(session_id) {
            Some(i) => i,
            None => {
                return Err(SandboxError::SessionNotFound { session_id: session_id.to_owned() });
            }
        };
        proof {
            assert(spec_has_session(self.sessions.deep_view(), session_id@));
        }
        let ghost s0 = self.sessions.deep_view();
        let (key, mut st) = self.sessions.remove(idx);
        let ev = st.record_conversion(conversion);
        self.sessions.insert(idx, (key, st));
        proof {
            assert(self.sessions.deep_view() =~= s0.update(
                idx as int,
                self.sessions.deep_view()[idx as int],
            ));
        }
        Ok(ev)
    }

    /// Records one event in its session.
    pub fn record_event(
        &mut self,
        session_id: &str,
        data: UniversalEventData,
        agent_session_id: Option<String>,
    ) -> (r: Result<UniversalEvent, SandboxError>)
        requires
            spec_mgr_wf(old(self).sessions.deep_view()),
            forall|i: int|
                0 <= i < old(self).sessions.deep_view().len() && (#[trigger] old(self).sessions.deep_view()[i]).0 == session_id@ ==> old(self).sessions.deep_view()[
                    i
                ].1.next_event_id < u64::MAX,
        ensures
            spec_mgr_wf(final(self).sessions.deep_view()),
            r is Err ==> final(self).sessions.deep_view() == old(self).sessions.deep_view(),
            !spec_has_session(old(self).sessions.deep_view(), session_id@) <==> (r matches Err(e)
                && e.deep_view() == (SandboxErrorV::SessionNotFound { session_id: session_id@ })),
            forall|i: int|
                0 <= i < old(self).sessions.deep_view().len() && (#[trigger] old(self).sessions.deep_view()[i]).0 == session_id@ ==> {
                    let st = old(self).sessions.deep_view()[i].1;
                    let stf = final(self).sessions.deep_view()[i].1;
                    r matches Ok(ev) && {
                        &&& final(self).sessions.deep_view()[i].0 == old(self).sessions.deep_view()[i].0
                        &&& final(self).sessions.deep_view().len() == old(self).sessions.deep_view().len()
                        &&& forall|j: int|
                            0 <= j < old(self).sessions.deep_view().len() && j != i ==> final(self).sessions.deep_view()[j] == old(self).sessions.deep_view()[j]
                        &&& stf.events.len() == st.events.len() + 1
                        &&& stf.events.subrange(0, st.events.len() as int) == st.events
                        &&& ev.deep_view() == stf.events.last()
                        &&& stf.events.last().data == spec_normalize_data(
                            st.session_id,
                            data.deep_view(),
                        )
                        &&& stf.events.last().id as int == st.events.len() + 1
                        &&& stf.ended == st.ended
                        &&& stf.ended_exit_code == st.ended_exit_code
                        &&& stf.ended_message == st.ended_message
                    }
                },
    {
        let idx = match self.find_session(session_id) {
            Some(i) => i,
            None => {
                return Err(SandboxError::SessionNotFound { session_id: session_id.to_owned() });
            }
        };
        proof {
            assert(spec_has_session(self.sessions.deep_view(), session_id@));
        }
        let ghost s0 = self.sessions.deep_view();
        let (key, mut st) = self.sessions.remove(idx);
        let ev = st.record_event(data, agent_session_id);
        self.sessions.insert(idx, (key, st));
        proof {
            assert(self.sessions.deep_view() =~= s0.update(
                idx as int,
                self.sessions.deep_view()[idx as int],
            ));
        }
        Ok(ev)
    }

    /// Records a failure as an error event; a missing session is ignored, as
    /// the ingest path races session teardown.
    pub fn record_error(
        &mut self,
        session_id: &str,
        message: String,
        kind: Option<String>,
        details: Option<crate::json::Json>,
    )
        requires
            spec_mgr_wf(old(self).sessions.deep_view()),
            forall|i: int|
                0 <= i < old(self).sessions.deep_view().len() && (#[trigger] old(self).sessions.deep_view()[i]).0 == session_id@ ==> old(self).sessions.deep_view()[
                    i
                ].1.next_event_id < u64::MAX,
        ensures
            spec_mgr_wf(final(self).sessions.deep_view()),
            final(self).sessions.deep_view().len() == old(self).sessions.deep_view().len(),
            !spec_has_session(old(self).sessions.deep_view(), session_id@) ==> final(self).sessions.deep_view() == old(self).sessions.deep_view(),
            forall|i: int|
                0 <= i < old(self).sessions.deep_view().len() && (#[trigger] old(self).sessions.deep_view()[i]).0 == session_id@ ==> {
                    let st = old(self).sessions.deep_view()[i].1;
                    let stf = final(self).sessions.deep_view()[i].1;
                    &&& final(self).sessions.deep_view().len() == old(self).sessions.deep_view().len()
                    &&& final(self).sessions.deep_view()[i].0 == old(self).sessions.deep_view()[i].0
                    &&& forall|j: int|
                        0 <= j < old(self).sessions.deep_view().len() && j != i ==> final(self).sessions.deep_view()[j] == old(self).sessions.deep_view()[j]
                    &&& stf.ended == st.ended
                    &&& stf.ended_exit_code == st.ended_exit_code
                    &&& stf.ended_message == st.ended_message
                    &&& stf.events.len() == st.events.len() + 1
                    &&& stf.events.subrange(0, st.events.len() as int) == st.events
                    &&& stf.events.last().data == (EventDataV::Error {
                        error: (crate::universal::CrashInfoV {
                            message: message@,
                            kind: kind.deep_view(),
                            details: details.deep_view(),
                        }),
                    })
                },
    {
        let error = crate::universal::CrashInfo { message, kind, details };
        let _ = self.record_event(session_id, UniversalEventData::Error { error }, None);
    }

    /// Marks a session ended with the exit details; once ended it stays so,
    /// and the first details are kept.
    pub fn mark_session_ended(&mut self, session_id: &str, exit_code: Option<i32>, message: &str)
        requires
            spec_mgr_wf(old(self).sessions.deep_view()),
        ensures
            spec_mgr_wf(final(self).sessions.deep_view()),
            final(self).sessions.deep_view().len() == old(self).sessions.deep_view().len(),
            !spec_has_session(old(self).sessions.deep_view(), session_id@) ==> final(self).sessions.deep_view() == old(self).sessions.deep_view(),
            forall|i: int|
                0 <= i < old(self).sessions.deep_view().len() && (#[trigger] old(self).sessions.deep_view()[i]).0 == session_id@ ==> {
                    let st = old(self).sessions.deep_view()[i].1;
                    let stf = final(self).sessions.deep_view()[i].1;
                    &&& stf.ended
                    &&& st.ended ==> stf == st
                    &&& !st.ended ==> stf == (SessionStateV {
                        ended: true,
                        ended_exit_code: exit_code,
                        ended_message: Some(message@),
                        ..st
                    })
                    &&& forall|j: int|
                        0 <= j < old(self).sessions.deep_view().len() && j != i ==> final(self).sessions.deep_view()[j] == old(self).sessions.deep_view()[j]
                },
    {
        let idx = match self.find_session(session_id) {
            Some(i) => i,
            None => {
                return ;
            }
        };
        let ghost s0 = self.sessions.deep_view();
        let (key, mut st) = self.sessions.remove(idx);
        if !st.ended {
            st.mark_ended(exit_code, message.to_owned());
        }
        self.sessions.insert(idx, (key, st));
        proof {
            assert(self.sessions.deep_view() =~= s0.update(
                idx as int,
                self.sessions.deep_view()[idx as int],
            ));
        }
    }

    /// Claims the right to start the sidecar event stream for a session: the
    /// first caller gets the native session id back, every later one gets
    /// nothing; a session without a native id is refused.
    pub fn ensure_opencode_stream(&mut self, session_id: &str) -> (r: Result<
        Option<String>,
        SandboxError,
    >)
        requires
            spec_mgr_wf(old(self).sessions.deep_view()),
        ensures
            spec_mgr_wf(final(self).sessions.deep_view()),
            r is Err ==> final(self).sessions.deep_view() == old(self).sessions.deep_view(),
            !spec_has_session(old(self).sessions.deep_view(), session_id@) ==> (r matches Err(e)
                && e.deep_view() == (SandboxErrorV::SessionNotFound { session_id: session_id@ })),
            forall|i: int|
                0 <= i < old(self).sessions.deep_view().len() && (#[trigger] old(self).sessions.deep_view()[i]).0 == session_id@ ==> {
                    let st = old(self).sessions.deep_view()[i].1;
                    let stf = final(self).sessions.deep_view()[i].1;
                    &&& st.opencode_stream_started ==> (r matches Ok(o) && o is None && final(self).sessions.deep_view() == old(self).sessions.deep_view())
                    &&& !st.opencode_stream_started && st.agent_session_id is None ==> (r matches
                        Err(e) && e.deep_view() matches SandboxErrorV::InvalidRequest { .. })
                    &&& !st.opencode_stream_started && st.agent_session_id is Some ==> (r matches
                        Ok(o) && o.deep_view() == st.agent_session_id && stf == (SessionStateV {
                        opencode_stream_started: true,
                        ..st
                    }) && forall|j: int|
                        0 <= j < old(self).sessions.deep_view().len() && j != i ==> final(self).sessions.deep_view()[j] == old(self).sessions.deep_view()[j])
                },
    {
        let idx = match self.find_session(session_id) {
            Some(i) => i,
            None => {
                return Err(SandboxError::SessionNotFound { session_id: session_id.to_owned() });
            }
        };
        let ghost s0 = self.sessions.deep_view();
        let (key, mut st) = self.sessions.remove(idx);
        if st.opencode_stream_started {
            self.sessions.insert(idx, (key, st));
            proof {
                assert(self.sessions.deep_view() =~= s0);
            }
            return Ok(None);
        }
        let asid = match &st.agent_session_id {
            Some(s) => s.clone(),
            None => {
                self.sessions.insert(idx, (key, st));
                proof {
                    assert(self.sessions.deep_view() =~= s0);
                }
                return Err(
                    SandboxError::InvalidRequest {
                        message: String::from_str("missing OpenCode session id"),
                    },
                );
            }
        };
        st.opencode_stream_started = true;
        self.sessions.insert(idx, (key, st));
        proof {
            assert(self.sessions.deep_view() =~= s0.update(
                idx as int,
                self.sessions.deep_view()[idx as int],
            ));
        }
        Ok(Some(asid))
    }

    /// The dispatch fields of a session; an ended session is refused unless
    /// asked for.
    pub fn session_snapshot(&self, session_id: &str, allow_ended: bool) -> (r: Result<
        SessionSnapshot,
        SandboxError,
    >)
        requires
            spec_mgr_wf(self.sessions.deep_view()),
        ensures
            !spec_has_session(self.sessions.deep_view(), session_id@) ==> (r matches Err(e)
                && e.deep_view() == (SandboxErrorV::SessionNotFound { session_id: session_id@ })),
            forall|i: int|
                0 <= i < self.sessions.deep_view().len() && (#[trigger] self.sessions.deep_view()[
                    i
                ]).0 == session_id@ ==> {
                    let st = self.sessions.deep_view()[i].1;
                    &&& st.ended && !allow_ended ==> (r matches Err(e) && e.deep_view()
                        == (SandboxErrorV::AgentProcessExited {
                        agent: spec_agent_name(st.agent),
                        exit_code: st.ended_exit_code,
                        stderr: st.ended_message,
                    }))
                    &&& (!st.ended || allow_ended) ==> (r matches Ok(snap) && snap.deep_view()
                        == (SessionSnapshotV {
                        session_id: st.session_id,
                        agent: st.agent,
                        agent_mode: st.agent_mode,
                        permission_mode: st.permission_mode,
                        model: st.model,
                        variant: st.variant,
                        agent_session_id: st.agent_session_id,
                    }))
                },
    {
        let idx = match self.find_session(session_id) {
            Some(i) => i,
            None => {
                return Err(SandboxError::SessionNotFound { session_id: session_id.to_owned() });
            }
        };
        let st = &self.sessions[idx].1;
        if !allow_ended {
            if let Some(err) = st.ended_error() {
                return Err(err);
            }
        }
        Ok(st.snapshot())
    }
}

// ---------------------------------------------------------------------------
// What the runtime promises its subscribers.
// ---------------------------------------------------------------------------

/// In a well-formed session the recorded ids are exactly 1, 2, ..., n in log
/// order, every event carries the session's id, and in particular no id
/// repeats.
pub proof fn lemma_log_ids(sv: SessionStateV)
    requires
        spec_session_wf(sv),
    ensures
        forall|i: int| 0 <= i < sv.events.len() ==> (#[trigger] sv.events[i]).id as int == i + 1,
        forall|i: int|
            0 <= i < sv.events.len() ==> (#[trigger] sv.events[i]).session_id == sv.session_id,
        forall|i: int, j: int|
            0 <= i < j < sv.events.len() ==> sv.events[i].id != sv.events[j].id,
{
    assert forall|i: int, j: int|
        0 <= i < j < sv.events.len() implies sv.events[i].id != sv.events[j].id by {
        assert(sv.events[i].id as int == i + 1);
        assert(sv.events[j].id as int == j + 1);
    }
}

/// A subscriber that snapshots the log past its offset and then follows every
/// event recorded after the snapshot sees exactly the events past its offset:
/// nothing missing, nothing twice. `s0` is the log at subscription, `s1` any
/// later log it has grown into.
pub proof fn lemma_snapshot_live_no_gap_no_dup(
    s0: Seq<UniversalEventV>,
    s1: Seq<UniversalEventV>,
    offset: int,
)
    requires
        0 <= offset <= s0.len(),
        s0.len() <= s1.len(),
        s0 == s1.subrange(0, s0.len() as int),
    ensures
        s0.skip(offset) + s1.skip(s0.len() as int) == s1.skip(offset),
{
    assert forall|k: int|
        0 <= k < s0.len() - offset implies (s0.skip(offset) + s1.skip(s0.len() as int))[k] == s1[
        offset + k
    ] by {
        assert(s0[offset + k] == s1.subrange(0, s0.len() as int)[offset + k]);
    }
    assert(s0.skip(offset) + s1.skip(s0.len() as int) =~= s1.skip(offset));
}


} // verus!
