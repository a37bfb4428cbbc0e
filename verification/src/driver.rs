use vstd::prelude::*;

use crate::agents::AgentId;
use crate::json::{json_get, json_of, spec_text_at, Json, JsonV};
use crate::session::SessionManager;
use crate::universal::{
    EventConversion, MessageV, UniversalEventData, UniversalEventType, UniversalMessage,
};

verus! {

// ---------------------------------------------------------------------------
// The line-by-line ingest path: one trimmed line of backend output becomes
// zero or one universal event, through the backend's adapter.
// ---------------------------------------------------------------------------

pub open spec fn spec_is_ws_byte(b: u8) -> bool {
    b == 32 || b == 9 || b == 13 || b == 10
}

pub open spec fn spec_trim_bytes_start(s: Seq<u8>) -> Seq<u8>
    decreases s.len(),
{
    if s.len() > 0 && spec_is_ws_byte(s[0]) {
        spec_trim_bytes_start(s.skip(1))
    } else {
        s
    }
}

pub open spec fn spec_trim_bytes_end(s: Seq<u8>) -> Seq<u8>
    decreases s.len(),
{
    if s.len() > 0 && spec_is_ws_byte(s[s.len() - 1]) {
        spec_trim_bytes_end(s.take(s.len() - 1))
    } else {
        s
    }
}

/// A line with its leading and trailing whitespace removed.
pub open spec fn spec_trim_bytes(s: Seq<u8>) -> Seq<u8> {
    spec_trim_bytes_end(spec_trim_bytes_start(s))
}

fn is_ws_byte(b: u8) -> (r: bool)
    ensures
        r == spec_is_ws_byte(b),
{
    b == 32 || b == 9 || b == 13 || b == 10
}

/// Trims a byte line.
#[verifier::loop_isolation(false)]
pub fn trim_bytes(s: &[u8]) -> (r: Vec<u8>)
    ensures
        r@ == spec_trim_bytes(s@),
{
    let len = s.len();
    let mut start: usize = 0;
    proof {
        assert(s@.skip(0) =~= s@);
    }
    while start < len && is_ws_byte(s[start])
        invariant
            0 <= start <= len,
            spec_trim_bytes_start(s@) == spec_trim_bytes_start(s@.skip(start as int)),
        decreases len - start,
    {
        proof {
            assert(s@.skip(start as int)[0] == s@[start as int]);
            assert(s@.skip(start as int).skip(1) =~= s@.skip(start as int + 1));
        }
        start = start + 1;
    }
    proof {
        if start < len {
            assert(s@.skip(start as int)[0] == s@[start as int]);
        }
        assert(spec_trim_bytes_start(s@) == s@.skip(start as int));
    }
    let mut end: usize = len;
    while end > start && is_ws_byte(s[end - 1])
        invariant
            start <= end <= len,
            spec_trim_bytes_end(s@.skip(start as int)) == spec_trim_bytes_end(
                s@.subrange(start as int, end as int),
            ),
        decreases end,
    {
        proof {
            let cur = s@.subrange(start as int, end as int);
            assert(cur[cur.len() - 1] == s@[end - 1]);
            assert(cur.take(cur.len() - 1) =~= s@.subrange(start as int, end as int - 1));
        }
        end = end - 1;
    }
    proof {
        let cur = s@.subrange(start as int, end as int);
        if end > start {
            assert(cur[cur.len() - 1] == s@[end - 1]);
        }
        assert(spec_trim_bytes_end(cur) == cur);
        assert(s@.skip(start as int) =~= s@.subrange(start as int, s@.len() as int));
    }
    let mut out: Vec<u8> = Vec::new();
    let mut i: usize = start;
    while i < end
        invariant
            start <= i <= end <= len,
            out@.len() == i - start,
            forall|j: int| 0 <= j < i - start ==> out@[j] == s@[start + j],
        decreases end - i,
    {
        out.push(s[i]);
        i = i + 1;
    }
    proof {
        assert(out@ =~= s@.subrange(start as int, end as int));
    }
    out
}

/// A raw line kept as an unparsed message, with the error that stopped
/// parsing.
pub fn unparsed_message(raw: Json, error: String) -> (r: UniversalEventData)
    ensures
        r.deep_view() == (crate::universal::EventDataV::Message {
            message: MessageV::Unparsed { raw: raw.deep_view(), error: Some(error@) },
        }),
{
    UniversalEventData::Message {
        message: UniversalMessage::Unparsed { raw, error: Some(error) },
    }
}

/// Translates one line of backend output: blank lines yield nothing; a line
/// that is not one JSON document is kept raw as an unparsed message; a
/// parsed document goes through the backend's own adapter, whose whole
/// translation the result satisfies.
pub fn parse_agent_line(agent: AgentId, line: &[u8], session_id: &str) -> (r: Option<
    EventConversion,
>)
    ensures
        spec_trim_bytes(line@).len() == 0 <==> r is None,
        spec_trim_bytes(line@).len() > 0 && json_of(spec_trim_bytes(line@)) is None ==> (r
            matches Some(conv) && (conv.data.deep_view() matches
            crate::universal::EventDataV::Message {
            message: MessageV::Unparsed { raw, error },
        } && raw == JsonV::Text(crate::json::lossy_text_of(spec_trim_bytes(line@))) && error
            is Some)),
        spec_trim_bytes(line@).len() > 0 ==> (json_of(spec_trim_bytes(line@)) matches Some(v)
            ==> (r matches Some(conv) && (match agent {
            AgentId::Scribe => crate::scribe::spec_scribe_conversion(
                v,
                session_id@,
                conv.deep_view(),
            ),
            AgentId::Codex => crate::codex::spec_codex_conversion(v, conv.deep_view()),
            AgentId::Opencode => crate::opencode::spec_opencode_conversion(v, conv.deep_view()),
            AgentId::Amp => crate::amp::spec_amp_conversion(v, conv.deep_view()),
        }))),
{
    let trimmed = trim_bytes(line);
    if trimmed.is_empty() {
        return None;
    }
    let value = match crate::json::parse_json(trimmed.as_slice()) {
        Ok(v) => v,
        Err(err) => {
            let raw = Json::Text(crate::json::utf8_lossy(trimmed.as_slice()));
            return Some(
                EventConversion::new(
                    UniversalEventType::Message,
                    unparsed_message(raw, err),
                ),
            );
        }
    };
    let conversion = match agent {
        AgentId::Scribe => crate::scribe::event_to_universal_with_session(
            &value,
            session_id.to_owned(),
        ),
        AgentId::Codex => crate::codex::event_to_universal(&value),
        AgentId::Opencode => crate::opencode::event_to_universal(&value),
        AgentId::Amp => crate::amp::event_to_universal(&value),
    };
    Some(conversion)
}

/// Feeds one line of backend output into its session.
pub fn handle_agent_line(
    manager: &mut SessionManager,
    session_id: &str,
    agent: AgentId,
    line: &[u8],
)
    requires
        crate::session::spec_mgr_wf(old(manager).sessions.deep_view()),
        forall|i: int|
            0 <= i < old(manager).sessions.deep_view().len() && (#[trigger] old(manager).sessions.deep_view()[i]).0 == session_id@ ==> old(manager).sessions.deep_view()[
                i
            ].1.next_event_id < u64::MAX,
    ensures
        crate::session::spec_mgr_wf(final(manager).sessions.deep_view()),
        spec_trim_bytes(line@).len() == 0 ==> final(manager).sessions.deep_view() == old(manager).sessions.deep_view(),
{
    match parse_agent_line(agent, line, session_id) {
        Some(conversion) => {
            let _ = manager.record_conversion(session_id, conversion);
        }
        None => {}
    }
}

/// The message a failed exit is reported with.
pub open spec fn spec_exit_message(exit_code: Option<i32>) -> Seq<char> {
    "agent exited with status "@ + (match exit_code {
        Some(code) => crate::text::spec_i32_digits(code),
        None => "unknown"@,
    })
}

/// Marks the end of a backend process: a clean exit ends nothing and later
/// turns stay possible; a failure appends exactly one error event naming the
/// exit, and the session ends with the exit code, for good — a session that
/// had already ended keeps its first exit details.
pub fn handle_process_exit(
    manager: &mut SessionManager,
    session_id: &str,
    exit_code: Option<i32>,
    success: bool,
)
    requires
        crate::session::spec_mgr_wf(old(manager).sessions.deep_view()),
        forall|i: int|
            0 <= i < old(manager).sessions.deep_view().len() && (#[trigger] old(manager).sessions.deep_view()[i]).0 == session_id@ ==> old(manager).sessions.deep_view()[
                i
            ].1.next_event_id < u64::MAX,
    ensures
        crate::session::spec_mgr_wf(final(manager).sessions.deep_view()),
        success ==> final(manager).sessions.deep_view() == old(manager).sessions.deep_view(),
        !success ==> final(manager).sessions.deep_view().len() == old(manager).sessions.deep_view().len(),
        !success ==> forall|i: int|
            0 <= i < old(manager).sessions.deep_view().len() && (#[trigger] old(manager).sessions.deep_view()[i]).0 == session_id@ ==> {
                let st = old(manager).sessions.deep_view()[i].1;
                let stf = final(manager).sessions.deep_view()[i].1;
                &&& stf.ended
                &&& stf.events.len() == st.events.len() + 1
                &&& stf.events.subrange(0, st.events.len() as int) == st.events
                &&& stf.events.last().data == (crate::universal::EventDataV::Error {
                    error: (crate::universal::CrashInfoV {
                        message: spec_exit_message(exit_code),
                        kind: Some("process_exit"@),
                        details: None,
                    }),
                })
                &&& !st.ended ==> stf.ended_exit_code == exit_code && stf.ended_message == Some(
                    spec_exit_message(exit_code),
                )
                &&& st.ended ==> stf.ended_exit_code == st.ended_exit_code && stf.ended_message
                    == st.ended_message
                &&& forall|j: int|
                    0 <= j < old(manager).sessions.deep_view().len() && j != i ==> final(manager).sessions.deep_view()[j] == old(manager).sessions.deep_view()[j]
            },
{
    if success {
        return ;
    }
    let mut message = String::from_str("agent exited with status ");
    match exit_code {
        Some(code) => {
            let digits = crate::text::i32_to_string(code);
            message.append(digits.as_str());
        }
        None => {
            message.append("unknown");
        }
    }
    proof {
        assert(message@ == spec_exit_message(exit_code));
    }
    manager.record_error(
        session_id,
        message.clone(),
        Some(String::from_str("process_exit")),
        None,
    );
    manager.mark_session_ended(session_id, exit_code, message.as_str());
}

// ---------------------------------------------------------------------------
// Demultiplexing the sidecar's shared event bus.
// ---------------------------------------------------------------------------

/// The backend session id a bus event carries, wherever the payload hides
/// it.
pub open spec fn spec_opencode_session_id(v: JsonV) -> Option<Seq<char>> {
    if spec_text_at(v, "session_id"@) is Some {
        spec_text_at(v, "session_id"@)
    } else if spec_text_at(v, "sessionID"@) is Some {
        spec_text_at(v, "sessionID"@)
    } else if spec_text_at(v, "sessionId"@) is Some {
        spec_text_at(v, "sessionId"@)
    } else if spec_nested_text(v, "properties"@, "sessionID"@) is Some {
        spec_nested_text(v, "properties"@, "sessionID"@)
    } else if spec_nested3_text(v, "properties"@, "part"@, "sessionID"@) is Some {
        spec_nested3_text(v, "properties"@, "part"@, "sessionID"@)
    } else if spec_nested_text(v, "session"@, "id"@) is Some {
        spec_nested_text(v, "session"@, "id"@)
    } else {
        spec_nested3_text(v, "properties"@, "session"@, "id"@)
    }
}

pub open spec fn spec_nested_text(v: JsonV, a: Seq<char>, b: Seq<char>) -> Option<Seq<char>> {
    match json_get(v, a) {
        Some(inner) => spec_text_at(inner, b),
        None => None,
    }
}

pub open spec fn spec_nested3_text(v: JsonV, a: Seq<char>, b: Seq<char>, c: Seq<char>) -> Option<
    Seq<char>,
> {
    match json_get(v, a) {
        Some(inner) => spec_nested_text(inner, b, c),
        None => None,
    }
}

fn nested_text(v: &Json, a: &str, b: &str) -> (r: Option<String>)
    ensures
        r.deep_view() == spec_nested_text(v.deep_view(), a@, b@),
{
    match v.get(a) {
        Some(inner) => inner.get_text(b),
        None => None,
    }
}

fn nested3_text(v: &Json, a: &str, b: &str, c: &str) -> (r: Option<String>)
    ensures
        r.deep_view() == spec_nested3_text(v.deep_view(), a@, b@, c@),
{
    match v.get(a) {
        Some(inner) => nested_text(inner, b, c),
        None => None,
    }
}

/// The backend session id a bus event carries.
pub fn extract_opencode_session_id(value: &Json) -> (r: Option<String>)
    ensures
        r.deep_view() == spec_opencode_session_id(value.deep_view()),
{
    if let Some(s) = value.get_text("session_id") {
        return Some(s);
    }
    if let Some(s) = value.get_text("sessionID") {
        return Some(s);
    }
    if let Some(s) = value.get_text("sessionId") {
        return Some(s);
    }
    if let Some(s) = nested_text(value, "properties", "sessionID") {
        return Some(s);
    }
    if let Some(s) = nested3_text(value, "properties", "part", "sessionID") {
        return Some(s);
    }
    if let Some(s) = nested_text(value, "session", "id") {
        return Some(s);
    }
    nested3_text(value, "properties", "session", "id")
}

/// Whether a bus event belongs to the given backend session; an event that
/// names no session belongs to none.
pub fn opencode_event_matches_session(value: &Json, session_id: &str) -> (r: bool)
    ensures
        r == (spec_opencode_session_id(value.deep_view()) == Some(session_id@)),
{
    match extract_opencode_session_id(value) {
        Some(id) => crate::json::str_eq(id.as_str(), session_id),
        None => false,
    }
}

/// The native session id a sidecar's session-creation answer names, under
/// any of the spellings its versions use.
pub open spec fn spec_native_session_id(v: JsonV) -> Option<Seq<char>> {
    if spec_text_at(v, "id"@) is Some {
        spec_text_at(v, "id"@)
    } else if spec_text_at(v, "sessionId"@) is Some {
        spec_text_at(v, "sessionId"@)
    } else {
        spec_text_at(v, "session_id"@)
    }
}

/// Reads the native session id out of a sidecar's session-creation answer.
pub fn extract_native_session_id(value: &Json) -> (r: Option<String>)
    ensures
        r.deep_view() == spec_native_session_id(value.deep_view()),
{
    if let Some(s) = value.get_text("id") {
        return Some(s);
    }
    if let Some(s) = value.get_text("sessionId") {
        return Some(s);
    }
    value.get_text("session_id")
}

/// One event payload framed for a server-sent-event stream.
pub fn to_sse_frame(payload: &str) -> (r: String)
    ensures
        r@ == "data: "@ + payload@ + "\n\n"@,
{
    let mut out = String::from_str("data: ");
    out.append(payload);
    out.append("\n\n");
    out
}

} // verus!
