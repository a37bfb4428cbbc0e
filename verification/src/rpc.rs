use vstd::prelude::*;

use crate::json::{json_get, spec_text_at, spec_value_to_string, Json, JsonV};
use crate::text::{is_prefix_of, spec_delta};
use crate::universal::{
    clone_opt_string, ContentPart, ContentPartV, EventConversion, EventConversionV, ItemDeltaData,
    ItemEventData, ItemKind, ItemRole, ItemStatus, ReasoningVisibility, UniversalEventData,
    UniversalEventType, UniversalItem,
};

verus! {

// ---------------------------------------------------------------------------
// What the wire events say, as spec functions over the raw payload.
// ---------------------------------------------------------------------------

/// The string under one key.
pub open spec fn spec_str_field(v: JsonV, key: Seq<char>) -> Option<Seq<char>> {
    spec_text_at(v, key)
}

/// The string under `a.b`.
pub open spec fn spec_str_field2(v: JsonV, a: Seq<char>, b: Seq<char>) -> Option<Seq<char>> {
    match json_get(v, a) {
        Some(inner) => spec_text_at(inner, b),
        None => None,
    }
}

/// The event's type tag.
pub open spec fn spec_event_type(v: JsonV) -> Option<Seq<char>> {
    spec_str_field(v, "type"@)
}

/// The backend session id an event carries.
pub open spec fn spec_session_id_of(v: JsonV) -> Option<Seq<char>> {
    if spec_str_field(v, "sessionId"@) is Some {
        spec_str_field(v, "sessionId"@)
    } else if spec_str_field(v, "session_id"@) is Some {
        spec_str_field(v, "session_id"@)
    } else if spec_str_field2(v, "session"@, "id"@) is Some {
        spec_str_field2(v, "session"@, "id"@)
    } else {
        spec_str_field2(v, "message"@, "sessionId"@)
    }
}

/// The message id an event names outright.
pub open spec fn spec_message_id_of(v: JsonV) -> Option<Seq<char>> {
    if spec_str_field(v, "messageId"@) is Some {
        spec_str_field(v, "messageId"@)
    } else if spec_str_field(v, "message_id"@) is Some {
        spec_str_field(v, "message_id"@)
    } else if spec_str_field2(v, "message"@, "id"@) is Some {
        spec_str_field2(v, "message"@, "id"@)
    } else if spec_str_field2(v, "message"@, "messageId"@) is Some {
        spec_str_field2(v, "message"@, "messageId"@)
    } else {
        spec_str_field2(v, "assistantMessageEvent"@, "messageId"@)
    }
}

/// The tool call id an event names.
pub open spec fn spec_tool_call_id_of(v: JsonV) -> Option<Seq<char>> {
    if spec_str_field(v, "toolCallId"@) is Some {
        spec_str_field(v, "toolCallId"@)
    } else {
        spec_str_field(v, "tool_call_id"@)
    }
}

/// The tool name an event names.
pub open spec fn spec_tool_name_of(v: JsonV) -> Option<Seq<char>> {
    if spec_str_field(v, "toolName"@) is Some {
        spec_str_field(v, "toolName"@)
    } else {
        spec_str_field(v, "tool_name"@)
    }
}

/// Whether the embedded message is the user's own, echoed back.
pub open spec fn spec_is_user_role(v: JsonV) -> bool {
    spec_str_field2(v, "message"@, "role"@) == Some("user"@)
}

/// The text a value stands for: itself when a string, else its `text` or
/// `content` member.
pub open spec fn spec_text_from_value(v: JsonV) -> Option<Seq<char>> {
    match v {
        JsonV::Text(t) => Some(t),
        _ => if spec_text_at(v, "text"@) is Some {
            spec_text_at(v, "text"@)
        } else {
            spec_text_at(v, "content"@)
        },
    }
}

/// The delta text of an assistant sub-event: its `delta` or `text` shown as
/// text, else the text of its `partial` or `content`.
pub open spec fn spec_delta_text(ev: JsonV) -> Option<Seq<char>> {
    match json_get(ev, "delta"@) {
        Some(d) => Some(spec_value_to_string(d)),
        None => match json_get(ev, "text"@) {
            Some(t) => Some(spec_value_to_string(t)),
            None => match json_get(ev, "partial"@) {
                Some(p) => spec_text_from_value(p),
                None => match json_get(ev, "content"@) {
                    Some(c) => spec_text_from_value(c),
                    None => None,
                },
            },
        },
    }
}

/// The output text a tool result carries: its `content` or `text` string,
/// else the whole value's rendering.
pub open spec fn spec_result_content(v: JsonV) -> Seq<char> {
    match spec_text_at(v, "content"@) {
        Some(c) => c,
        None => match spec_text_at(v, "text"@) {
            Some(t) => t,
            None => spec_value_to_string(v),
        },
    }
}

/// Whether the payload's stop reason marks the message failed.
pub open spec fn spec_message_failed(m: Option<JsonV>) -> bool {
    match m {
        Some(v) => {
            let reason = if spec_text_at(v, "stopReason"@) is Some {
                spec_text_at(v, "stopReason"@)
            } else {
                spec_text_at(v, "stop_reason"@)
            };
            reason == Some("error"@) || reason == Some("aborted"@)
        },
        None => false,
    }
}

/// The terminal status label: turn ends and agent ends get stable names,
/// everything else keeps its raw tag behind a fixed prefix.
pub open spec fn spec_pi_status_label(label: Seq<char>) -> Seq<char> {
    if label == "turn_end"@ {
        "turn.completed"@
    } else if label == "agent_end"@ {
        "session.idle"@
    } else {
        "pi."@ + label
    }
}

/// The terminal status label, computed.
pub fn pi_status_label(label: &str) -> (r: String)
    ensures
        r@ == spec_pi_status_label(label@),
{
    if crate::json::str_eq(label, "turn_end") {
        String::from_str("turn.completed")
    } else if crate::json::str_eq(label, "agent_end") {
        String::from_str("session.idle")
    } else {
        let mut out = String::from_str("pi.");
        out.append(label);
        out
    }
}

// ---------------------------------------------------------------------------
// Extraction helpers, each proved against its spec.
// ---------------------------------------------------------------------------

fn get_str_field(v: &Json, key: &str) -> (r: Option<String>)
    ensures
        r.deep_view() == spec_str_field(v.deep_view(), key@),
{
    v.get_text(key)
}

fn get_str_field2(v: &Json, a: &str, b: &str) -> (r: Option<String>)
    ensures
        r.deep_view() == spec_str_field2(v.deep_view(), a@, b@),
{
    match v.get(a) {
        Some(inner) => inner.get_text(b),
        None => None,
    }
}

/// The backend session id an event carries.
pub fn extract_session_id(v: &Json) -> (r: Option<String>)
    ensures
        r.deep_view() == spec_session_id_of(v.deep_view()),
{
    if let Some(s) = get_str_field(v, "sessionId") {
        return Some(s);
    }
    if let Some(s) = get_str_field(v, "session_id") {
        return Some(s);
    }
    if let Some(s) = get_str_field2(v, "session", "id") {
        return Some(s);
    }
    get_str_field2(v, "message", "sessionId")
}

/// The message id an event names outright.
pub fn extract_message_id(v: &Json) -> (r: Option<String>)
    ensures
        r.deep_view() == spec_message_id_of(v.deep_view()),
{
    if let Some(s) = get_str_field(v, "messageId") {
        return Some(s);
    }
    if let Some(s) = get_str_field(v, "message_id") {
        return Some(s);
    }
    if let Some(s) = get_str_field2(v, "message", "id") {
        return Some(s);
    }
    if let Some(s) = get_str_field2(v, "message", "messageId") {
        return Some(s);
    }
    get_str_field2(v, "assistantMessageEvent", "messageId")
}

fn extract_tool_call_id(v: &Json) -> (r: Option<String>)
    ensures
        r.deep_view() == spec_tool_call_id_of(v.deep_view()),
{
    if let Some(s) = get_str_field(v, "toolCallId") {
        return Some(s);
    }
    get_str_field(v, "tool_call_id")
}

fn extract_tool_name(v: &Json) -> (r: Option<String>)
    ensures
        r.deep_view() == spec_tool_name_of(v.deep_view()),
{
    if let Some(s) = get_str_field(v, "toolName") {
        return Some(s);
    }
    get_str_field(v, "tool_name")
}

fn is_user_role(v: &Json) -> (r: bool)
    ensures
        r == spec_is_user_role(v.deep_view()),
{
    match get_str_field2(v, "message", "role") {
        Some(role) => crate::json::str_eq(role.as_str(), "user"),
        None => false,
    }
}

fn extract_text_from_value(v: &Json) -> (r: Option<String>)
    ensures
        r.deep_view() == spec_text_from_value(v.deep_view()),
{
    if let Some(t) = v.as_text() {
        return Some(t.clone());
    }
    if let Some(t) = v.get_text("text") {
        return Some(t);
    }
    v.get_text("content")
}

fn extract_delta_text(ev: &Json) -> (r: Option<String>)
    ensures
        r.deep_view() == spec_delta_text(ev.deep_view()),
{
    if let Some(d) = ev.get("delta") {
        return Some(crate::json::value_to_string(d));
    }
    if let Some(t) = ev.get("text") {
        return Some(crate::json::value_to_string(t));
    }
    if let Some(p) = ev.get("partial") {
        return extract_text_from_value(p);
    }
    if let Some(c) = ev.get("content") {
        return extract_text_from_value(c);
    }
    None
}

fn extract_result_content(v: &Json) -> (r: String)
    ensures
        r@ == spec_result_content(v.deep_view()),
{
    if let Some(c) = v.get_text("content") {
        return c;
    }
    if let Some(t) = v.get_text("text") {
        return t;
    }
    crate::json::value_to_string(v)
}

fn message_is_failed(m: Option<&Json>) -> (r: bool)
    ensures
        r == spec_message_failed(match m {
            Some(v) => Some(v.deep_view()),
            None => None,
        }),
{
    match m {
        Some(v) => {
            let reason = match v.get_text("stopReason") {
                Some(s) => Some(s),
                None => v.get_text("stop_reason"),
            };
            match reason {
                Some(s) => crate::json::str_eq(s.as_str(), "error") || crate::json::str_eq(
                    s.as_str(),
                    "aborted",
                ),
                None => false,
            }
        }
        None => false,
    }
}

// ---------------------------------------------------------------------------
// Small association maps and sets over ids.
// ---------------------------------------------------------------------------

/// The value under the first entry with this key.
pub open spec fn spec_map_get(s: Seq<(Seq<char>, Seq<char>)>, k: Seq<char>) -> Option<Seq<char>>
    decreases s.len(),
{
    if s.len() == 0 {
        None
    } else if s[0].0 == k {
        Some(s[0].1)
    } else {
        spec_map_get(s.skip(1), k)
    }
}

/// The keys of an association list.
pub open spec fn spec_map_keys(s: Seq<(Seq<char>, Seq<char>)>) -> Seq<Seq<char>> {
    s.map_values(|p: (Seq<char>, Seq<char>)| p.0)
}

pub open spec fn spec_map_keys_distinct(s: Seq<(Seq<char>, Seq<char>)>) -> bool {
    forall|i: int, j: int| 0 <= i < j < s.len() ==> s[i].0 != s[j].0
}

proof fn lemma_map_get_index(s: Seq<(Seq<char>, Seq<char>)>, k: Seq<char>, i: int)
    requires
        spec_map_keys_distinct(s),
        0 <= i < s.len(),
        s[i].0 == k,
    ensures
        spec_map_get(s, k) == Some(s[i].1),
    decreases i,
{
    if i == 0 {
    } else {
        assert(s[0].0 != k);
        assert(s.skip(1)[i - 1] == s[i]);
        assert(spec_map_keys_distinct(s.skip(1))) by {
            assert(forall|a: int, b: int|
                0 <= a < b < s.skip(1).len() ==> s.skip(1)[a] == s[a + 1] && s.skip(1)[b] == s[b
                    + 1]);
        }
        lemma_map_get_index(s.skip(1), k, i - 1);
    }
}

proof fn lemma_map_get_absent(s: Seq<(Seq<char>, Seq<char>)>, k: Seq<char>)
    requires
        forall|i: int| 0 <= i < s.len() ==> (#[trigger] s[i]).0 != k,
    ensures
        spec_map_get(s, k) is None,
    decreases s.len(),
{
    if s.len() > 0 {
        assert(forall|i: int| 0 <= i < s.skip(1).len() ==> (#[trigger] s.skip(1)[i]) == s[i + 1]);
        lemma_map_get_absent(s.skip(1), k);
    }
}

/// Looks a key up in an association list.
fn map_get(s: &Vec<(String, String)>, k: &str) -> (r: Option<String>)
    requires
        spec_map_keys_distinct(s.deep_view()),
    ensures
        r.deep_view() == spec_map_get(s.deep_view(), k@),
{
    let mut i: usize = 0;
    while i < s.len()
        invariant
            0 <= i <= s@.len(),
            forall|j: int| 0 <= j < i ==> (#[trigger] s.deep_view()[j]).0 != k@,
            spec_map_keys_distinct(s.deep_view()),
        decreases s@.len() - i,
    {
        if crate::json::str_eq(s[i].0.as_str(), k) {
            proof {
                lemma_map_get_index(s.deep_view(), k@, i as int);
            }
            return Some(s[i].1.clone());
        }
        i = i + 1;
    }
    proof {
        lemma_map_get_absent(s.deep_view(), k@);
    }
    None
}

/// Sets a key's value, replacing an existing entry or appending a new one.
fn map_put(s: &mut Vec<(String, String)>, k: String, v: String)
    requires
        spec_map_keys_distinct(old(s).deep_view()),
    ensures
        spec_map_keys_distinct(final(s).deep_view()),
        spec_map_get(final(s).deep_view(), k@) == Some(v@),
        forall|x: Seq<char>|
            x != k@ ==> spec_map_get(final(s).deep_view(), x) == spec_map_get(
                old(s).deep_view(),
                x,
            ),
{
    let mut i: usize = 0;
    while i < s.len()
        invariant
            0 <= i <= s@.len(),
            forall|j: int| 0 <= j < i ==> (#[trigger] s.deep_view()[j]).0 != k@,
            spec_map_keys_distinct(s.deep_view()),
            s.deep_view() == old(s).deep_view(),
        decreases s@.len() - i,
    {
        if crate::json::str_eq(s[i].0.as_str(), k.as_str()) {
            let ghost s0 = s.deep_view();
            let entry = (k, v);
            s.set(i, entry);
            proof {
                let sf = s.deep_view();
                assert(sf =~= s0.update(i as int, (s0[i as int].0, sf[i as int].1)));
                assert(sf[i as int].0 == s0[i as int].0);
                assert(spec_map_keys_distinct(sf)) by {
                    assert(forall|a: int|
                        0 <= a < sf.len() ==> (#[trigger] sf[a]).0 == s0[a].0);
                }
                lemma_map_get_index(sf, sf[i as int].0, i as int);
                assert forall|x: Seq<char>|
                    x != sf[i as int].0 implies spec_map_get(sf, x) == spec_map_get(s0, x) by {
                    lemma_map_get_frame(s0, sf, x);
                }
            }
            return ;
        }
        i = i + 1;
    }
    let ghost s0 = s.deep_view();
    s.push((k, v));
    proof {
        let sf = s.deep_view();
        assert(sf =~= s0.push(sf.last()));
        assert(spec_map_keys_distinct(sf)) by {
            assert(forall|a: int| 0 <= a < s0.len() ==> sf[a] == s0[a]);
        }
        lemma_map_get_index(sf, sf.last().0, sf.len() - 1);
        assert forall|x: Seq<char>|
            x != sf.last().0 implies spec_map_get(sf, x) == spec_map_get(s0, x) by {
            lemma_map_get_frame(s0, sf, x);
        }
    }
}

/// Two lists that pair every shared index the same way, apart from entries of
/// other keys, look the same to every other key.
proof fn lemma_map_get_frame(
    s0: Seq<(Seq<char>, Seq<char>)>,
    s1: Seq<(Seq<char>, Seq<char>)>,
    x: Seq<char>,
)
    requires
        s0.len() <= s1.len() <= s0.len() + 1,
        forall|i: int| 0 <= i < s0.len() ==> (#[trigger] s1[i]) == s0[i] || (s1[i].0 == s0[i].0 && s0[i].0 != x && s1[i].0 != x),
        s1.len() > s0.len() ==> s1.last().0 != x,
    ensures
        spec_map_get(s1, x) == spec_map_get(s0, x),
    decreases s0.len(),
{
    if s0.len() == 0 {
        if s1.len() > 0 {
            assert(s1[0].0 != x);
            assert(s1.skip(1) =~= Seq::<(Seq<char>, Seq<char>)>::empty());
        }
    } else {
        if s0[0].0 == x {
            assert(s1[0] == s0[0]);
        } else {
            assert(s1[0].0 != x);
            assert(forall|i: int|
                0 <= i < s0.skip(1).len() ==> (#[trigger] s0.skip(1)[i]) == s0[i + 1]);
            assert(forall|i: int|
                0 <= i < s1.skip(1).len() ==> (#[trigger] s1.skip(1)[i]) == s1[i + 1]);
            assert(s1.len() > s0.len() ==> s1.skip(1).last() == s1.last());
            lemma_map_get_frame(s0.skip(1), s1.skip(1), x);
        }
    }
}

/// Drops a key's entry, if any.
fn map_remove(s: &mut Vec<(String, String)>, k: &str)
    requires
        spec_map_keys_distinct(old(s).deep_view()),
    ensures
        spec_map_keys_distinct(final(s).deep_view()),
        spec_map_get(final(s).deep_view(), k@) is None,
        forall|x: Seq<char>|
            x != k@ ==> spec_map_get(final(s).deep_view(), x) == spec_map_get(
                old(s).deep_view(),
                x,
            ),
{
    let mut i: usize = 0;
    while i < s.len()
        invariant
            0 <= i <= s@.len(),
            forall|j: int| 0 <= j < i ==> (#[trigger] s.deep_view()[j]).0 != k@,
            spec_map_keys_distinct(s.deep_view()),
            s.deep_view() == old(s).deep_view(),
        decreases s@.len() - i,
    {
        if crate::json::str_eq(s[i].0.as_str(), k) {
            let ghost s0 = s.deep_view();
            s.remove(i);
            proof {
                let sf = s.deep_view();
                assert(sf =~= s0.subrange(0, i as int) + s0.subrange(
                    i as int + 1,
                    s0.len() as int,
                ));
                lemma_map_remove_at(s0, i as int, k@, sf);
            }
            return ;
        }
        i = i + 1;
    }
    proof {
        lemma_map_get_absent(s.deep_view(), k@);
    }
}

/// Removing the one entry of a key makes lookups of that key fail and leaves
/// every other key alone.
proof fn lemma_map_remove_at(
    s0: Seq<(Seq<char>, Seq<char>)>,
    i: int,
    k: Seq<char>,
    sf: Seq<(Seq<char>, Seq<char>)>,
)
    requires
        spec_map_keys_distinct(s0),
        0 <= i < s0.len(),
        s0[i].0 == k,
        sf == s0.subrange(0, i) + s0.subrange(i + 1, s0.len() as int),
    ensures
        spec_map_keys_distinct(sf),
        spec_map_get(sf, k) is None,
        forall|x: Seq<char>| x != k ==> spec_map_get(sf, x) == spec_map_get(s0, x),
    decreases i,
{
    assert forall|a: int| 0 <= a < sf.len() implies #[trigger] sf[a] == (if a < i {
        s0[a]
    } else {
        s0[a + 1]
    }) by {}
    assert forall|a: int, b: int| 0 <= a < b < sf.len() implies sf[a].0 != sf[b].0 by {
        let ia = if a < i { a } else { a + 1 };
        let ib = if b < i { b } else { b + 1 };
        assert(s0[ia].0 != s0[ib].0);
    }
    if i == 0 {
        assert(sf =~= s0.skip(1));
        assert forall|a: int| 0 <= a < sf.len() implies (#[trigger] sf[a]).0 != k by {
            assert(s0[a + 1].0 != s0[0].0);
        }
        lemma_map_get_absent(sf, k);
        assert forall|x: Seq<char>| x != k implies spec_map_get(sf, x) == spec_map_get(
            s0,
            x,
        ) by {
            assert(s0[0].0 == k);
            assert(spec_map_get(s0, x) == spec_map_get(s0.skip(1), x));
        }
    } else {
        assert(sf[0] == s0[0]);
        let s0t = s0.skip(1);
        let sft = sf.skip(1);
        assert(spec_map_keys_distinct(s0t)) by {
            assert(forall|a: int|
                0 <= a < s0t.len() ==> (#[trigger] s0t[a]) == s0[a + 1]);
        }
        assert(s0t[i - 1].0 == k);
        assert(sft =~= s0t.subrange(0, i - 1) + s0t.subrange(i, s0t.len() as int)) by {
            assert(forall|a: int|
                0 <= a < sft.len() ==> (#[trigger] sft[a]) == sf[a + 1]);
        }
        lemma_map_remove_at(s0t, i - 1, k, sft);
        assert(s0[0].0 != k);
        assert(sf[0].0 != k);
        lemma_map_get_absent_head(sf, k);
        assert forall|x: Seq<char>| x != k implies spec_map_get(sf, x) == spec_map_get(
            s0,
            x,
        ) by {
            if sf[0].0 == x {
            } else {
                assert(spec_map_get(sf, x) == spec_map_get(sft, x));
                assert(spec_map_get(s0, x) == spec_map_get(s0t, x));
            }
        }
    }
}

proof fn lemma_map_get_absent_head(s: Seq<(Seq<char>, Seq<char>)>, k: Seq<char>)
    requires
        s.len() > 0,
        s[0].0 != k,
        spec_map_get(s.skip(1), k) is None,
    ensures
        spec_map_get(s, k) is None,
{
}

// ---------------------------------------------------------------------------
// Message content.
// ---------------------------------------------------------------------------

/// What one content block stands for: text and markdown keep their text,
/// thinking blocks become private reasoning, images keep path and mime type,
/// tool calls and results keep their ids and payloads, and anything else is
/// carried as raw data. A typed block whose text is missing stands for
/// nothing.
pub open spec fn spec_content_part(v: JsonV) -> Option<ContentPartV> {
    match v {
        JsonV::Text(t) => Some(ContentPartV::Text { text: t }),
        _ => {
            let pt = spec_text_at(v, "type"@);
            if pt == Some("text"@) || pt == Some("markdown"@) {
                match spec_text_from_value(v) {
                    Some(t) => Some(ContentPartV::Text { text: t }),
                    None => None,
                }
            } else if pt == Some("thinking"@) || pt == Some("reasoning"@) {
                match spec_text_from_value(v) {
                    Some(t) => Some(
                        ContentPartV::Reasoning {
                            text: t,
                            visibility: ReasoningVisibility::Private,
                        },
                    ),
                    None => None,
                }
            } else if pt == Some("image"@) {
                let path = if spec_text_at(v, "path"@) is Some {
                    spec_text_at(v, "path"@)
                } else {
                    spec_text_at(v, "url"@)
                };
                let mime = if spec_text_at(v, "mime"@) is Some {
                    spec_text_at(v, "mime"@)
                } else {
                    spec_text_at(v, "mimeType"@)
                };
                match path {
                    Some(p) => Some(ContentPartV::Image { path: p, mime }),
                    None => None,
                }
            } else if pt == Some("tool_call"@) || pt == Some("toolcall"@) {
                Some(
                    ContentPartV::ToolCall {
                        name: match spec_text_at(v, "name"@) {
                            Some(n) => n,
                            None => "tool"@,
                        },
                        arguments: match json_get(v, "arguments"@) {
                            Some(a) => spec_value_to_string(a),
                            None => match json_get(v, "args"@) {
                                Some(a) => spec_value_to_string(a),
                                None => "{}"@,
                            },
                        },
                        call_id: spec_call_id(v),
                    },
                )
            } else if pt == Some("tool_result"@) {
                Some(
                    ContentPartV::ToolResult {
                        call_id: spec_call_id(v),
                        output: match json_get(v, "output"@) {
                            Some(o) => spec_value_to_string(o),
                            None => match json_get(v, "content"@) {
                                Some(c) => spec_value_to_string(c),
                                None => Seq::empty(),
                            },
                        },
                    },
                )
            } else {
                Some(ContentPartV::Json { json: v })
            }
        },
    }
}

/// The call id a block names, under either spelling; empty when absent.
pub open spec fn spec_call_id(v: JsonV) -> Seq<char> {
    match spec_text_at(v, "call_id"@) {
        Some(c) => c,
        None => match spec_text_at(v, "callId"@) {
            Some(c) => c,
            None => Seq::empty(),
        },
    }
}

/// The blocks of a list, each translated, blocks that stand for nothing
/// dropped.
pub open spec fn spec_content_parts_list(items: Seq<JsonV>) -> Seq<ContentPartV>
    decreases items.len(),
{
    if items.len() == 0 {
        Seq::empty()
    } else {
        (match spec_content_part(items[0]) {
            Some(p) => seq![p],
            None => Seq::empty(),
        }) + spec_content_parts_list(items.skip(1))
    }
}

/// The content of a message payload: a bare string is one text block;
/// otherwise the `content`, `text` or `value` member holds a string, a list
/// of blocks, or one block. A message with none of these stands for nothing.
pub open spec fn spec_message_content(m: JsonV) -> Option<Seq<ContentPartV>> {
    match m {
        JsonV::Text(t) => Some(seq![ContentPartV::Text { text: t }]),
        _ => {
            let cv = if json_get(m, "content"@) is Some {
                json_get(m, "content"@)
            } else if json_get(m, "text"@) is Some {
                json_get(m, "text"@)
            } else {
                json_get(m, "value"@)
            };
            match cv {
                None => None,
                Some(JsonV::Text(t)) => Some(seq![ContentPartV::Text { text: t }]),
                Some(JsonV::List(items)) => Some(spec_content_parts_list(items)),
                Some(inner) => if inner is Obj {
                    match spec_content_part(inner) {
                        Some(p) => Some(seq![p]),
                        None => Some(Seq::empty()),
                    }
                } else {
                    Some(Seq::empty())
                },
            }
        },
    }
}

fn call_id_of(v: &Json) -> (r: String)
    ensures
        r@ == spec_call_id(v.deep_view()),
{
    if let Some(c) = v.get_text("call_id") {
        return c;
    }
    if let Some(c) = v.get_text("callId") {
        return c;
    }
    String::new()
}

fn content_part_from_value(v: &Json) -> (r: Option<ContentPart>)
    ensures
        match r {
            Some(p) => spec_content_part(v.deep_view()) == Some(p.deep_view()),
            None => spec_content_part(v.deep_view()) is None,
        },
{
    if let Some(t) = v.as_text() {
        return Some(ContentPart::Text { text: t.clone() });
    }
    let pt = match v.get_text("type") {
        Some(t) => t,
        None => {
            return Some(ContentPart::Json { json: v.clone() });
        }
    };
    if crate::json::str_eq(pt.as_str(), "text") || crate::json::str_eq(pt.as_str(), "markdown") {
        match extract_text_from_value(v) {
            Some(t) => Some(ContentPart::Text { text: t }),
            None => None,
        }
    } else if crate::json::str_eq(pt.as_str(), "thinking") || crate::json::str_eq(
        pt.as_str(),
        "reasoning",
    ) {
        match extract_text_from_value(v) {
            Some(t) => Some(
                ContentPart::Reasoning { text: t, visibility: ReasoningVisibility::Private },
            ),
            None => None,
        }
    } else if crate::json::str_eq(pt.as_str(), "image") {
        let path = match v.get_text("path") {
            Some(p) => Some(p),
            None => v.get_text("url"),
        };
        let mime = match v.get_text("mime") {
            Some(m) => Some(m),
            None => v.get_text("mimeType"),
        };
        match path {
            Some(p) => Some(ContentPart::Image { path: p, mime }),
            None => None,
        }
    } else if crate::json::str_eq(pt.as_str(), "tool_call") || crate::json::str_eq(
        pt.as_str(),
        "toolcall",
    ) {
        let name = match v.get_text("name") {
            Some(n) => n,
            None => String::from_str("tool"),
        };
        let arguments = match v.get("arguments") {
            Some(a) => crate::json::value_to_string(a),
            None => match v.get("args") {
                Some(a) => crate::json::value_to_string(a),
                None => String::from_str("{}"),
            },
        };
        Some(ContentPart::ToolCall { name, arguments, call_id: call_id_of(v) })
    } else if crate::json::str_eq(pt.as_str(), "tool_result") {
        let output = match v.get("output") {
            Some(o) => crate::json::value_to_string(o),
            None => match v.get("content") {
                Some(c) => crate::json::value_to_string(c),
                None => String::new(),
            },
        };
        Some(ContentPart::ToolResult { call_id: call_id_of(v), output })
    } else {
        Some(ContentPart::Json { json: v.clone() })
    }
}

#[verifier::loop_isolation(false)]
fn parse_message_content(m: &Json) -> (r: Option<Vec<ContentPart>>)
    ensures
        match r {
            Some(parts) => spec_message_content(m.deep_view()) == Some(parts.deep_view()),
            None => spec_message_content(m.deep_view()) is None,
        },
{
    if let Some(t) = m.as_text() {
        let parts = vec![ContentPart::Text { text: t.clone() }];
        proof {
            assert(parts.deep_view() =~= seq![ContentPartV::Text { text: t@ }]);
        }
        return Some(parts);
    }
    let cv: &Json = match m.get("content") {
        Some(c) => c,
        None => match m.get("text") {
            Some(t) => t,
            None => match m.get("value") {
                Some(v) => v,
                None => {
                    return None;
                }
            },
        },
    };
    let mut parts: Vec<ContentPart> = Vec::new();
    proof {
        assert(parts.deep_view() =~= Seq::<ContentPartV>::empty());
    }
    match cv {
        Json::Text(t) => {
            parts.push(ContentPart::Text { text: t.clone() });
            proof {
                assert(parts.deep_view() =~= seq![ContentPartV::Text { text: t@ }]);
            }
        }
        Json::List(items) => {
            let ghost items_v = crate::json::jv_list(items@);
            proof {
                crate::json::lemma_jv_list(items@);
                assert(items_v.skip(0) =~= items_v);
            }
            let mut i: usize = 0;
            while i < items.len()
                invariant
                    0 <= i <= items@.len(),
                    items_v.len() == items@.len(),
                    forall|j: int| 0 <= j < items@.len() ==> items_v[j] == items@[j].deep_view(),
                    spec_content_parts_list(items_v) == parts.deep_view()
                        + spec_content_parts_list(items_v.skip(i as int)),
                decreases items@.len() - i,
            {
                let ghost p0 = parts.deep_view();
                proof {
                    assert(items_v.skip(i as int)[0] == items_v[i as int]);
                    assert(items_v.skip(i as int).skip(1) =~= items_v.skip(i as int + 1));
                }
                match content_part_from_value(&items[i]) {
                    Some(p) => {
                        parts.push(p);
                        proof {
                            assert(parts.deep_view() =~= p0.push(parts.deep_view().last()));
                            assert(p0 + seq![parts.deep_view().last()] =~= parts.deep_view());
                        }
                    }
                    None => {}
                }
                i = i + 1;
            }
            proof {
                assert(items_v.skip(items_v.len() as int) =~= Seq::<JsonV>::empty());
                assert(parts.deep_view() + Seq::<ContentPartV>::empty() =~= parts.deep_view());
            }
        }
        Json::Obj(_) => {
            match content_part_from_value(cv) {
                Some(p) => {
                    let ghost pv = p.deep_view();
                    parts.push(p);
                    proof {
                        assert(parts.deep_view() =~= seq![pv]);
                    }
                }
                None => {}
            }
        }
        _ => {}
    }
    Some(parts)
}

/// Whether a set holds an id.
fn set_contains(s: &Vec<String>, id: &str) -> (r: bool)
    ensures
        r == s.deep_view().contains(id@),
{
    let mut i: usize = 0;
    while i < s.len()
        invariant
            0 <= i <= s@.len(),
            forall|j: int| 0 <= j < i ==> s.deep_view()[j] != id@,
        decreases s@.len() - i,
    {
        if crate::json::str_eq(s[i].as_str(), id) {
            proof {
                assert(s.deep_view()[i as int] == id@);
            }
            return true;
        }
        i = i + 1;
    }
    false
}

/// Adds an id to a set; reports whether it was new.
fn set_insert(s: &mut Vec<String>, id: String) -> (r: bool)
    requires
        crate::session::spec_no_dups(old(s).deep_view()),
    ensures
        crate::session::spec_no_dups(final(s).deep_view()),
        r == !old(s).deep_view().contains(id@),
        final(s).deep_view().contains(id@),
        forall|x: Seq<char>|
            x != id@ ==> final(s).deep_view().contains(x) == old(s).deep_view().contains(x),
        !r ==> final(s).deep_view() == old(s).deep_view(),
{
    if set_contains(s, id.as_str()) {
        return false;
    }
    let ghost s0 = s.deep_view();
    s.push(id);
    proof {
        let sf = s.deep_view();
        assert(sf =~= s0.push(sf.last()));
        assert(sf.contains(sf.last()));
        assert forall|x: Seq<char>| x != sf.last() implies sf.contains(x) == s0.contains(x) by {
            if s0.contains(x) {
                let k = choose|k: int| 0 <= k < s0.len() && s0[k] == x;
                assert(sf[k] == x);
            }
            if sf.contains(x) {
                let k = choose|k: int| 0 <= k < sf.len() && sf[k] == x;
                assert(k < s0.len());
                assert(s0[k] == x);
            }
        }
    }
    true
}

/// Drops an id from a set; reports whether it was there.
fn set_remove(s: &mut Vec<String>, id: &str) -> (r: bool)
    requires
        crate::session::spec_no_dups(old(s).deep_view()),
    ensures
        crate::session::spec_no_dups(final(s).deep_view()),
        r == old(s).deep_view().contains(id@),
        !final(s).deep_view().contains(id@),
        forall|x: Seq<char>|
            x != id@ ==> final(s).deep_view().contains(x) == old(s).deep_view().contains(x),
        !r ==> final(s).deep_view() == old(s).deep_view(),
{
    let mut i: usize = 0;
    while i < s.len()
        invariant
            0 <= i <= s@.len(),
            forall|j: int| 0 <= j < i ==> s.deep_view()[j] != id@,
            s.deep_view() == old(s).deep_view(),
            crate::session::spec_no_dups(s.deep_view()),
        decreases s@.len() - i,
    {
        if crate::json::str_eq(s[i].as_str(), id) {
            let ghost s0 = s.deep_view();
            proof {
                assert(s0[i as int] == id@);
                assert(s0.contains(id@));
            }
            s.remove(i);
            proof {
                let sf = s.deep_view();
                assert(sf =~= s0.subrange(0, i as int) + s0.subrange(
                    i as int + 1,
                    s0.len() as int,
                ));
                crate::session::lemma_remove_at(s0, i as int, id@, sf);
            }
            return true;
        }
        i = i + 1;
    }
    false
}

// ---------------------------------------------------------------------------
// Error text.
// ---------------------------------------------------------------------------

/// The error text a message payload carries: its own `errorMessage` (either
/// spelling) when its trim is non-empty, else the `error` member as a string
/// or through that member's `errorMessage` or `message`.
pub open spec fn spec_message_error_text(m: Option<JsonV>) -> Option<Seq<char>> {
    match m {
        None => None,
        Some(v) => {
            let direct = if spec_text_at(v, "errorMessage"@) is Some {
                spec_text_at(v, "errorMessage"@)
            } else {
                spec_text_at(v, "error_message"@)
            };
            match direct {
                Some(t) => match crate::text::spec_nonempty_trim(t) {
                    Some(x) => Some(x),
                    None => spec_error_member_text(v),
                },
                None => spec_error_member_text(v),
            }
        },
    }
}

pub open spec fn spec_error_member_text(v: JsonV) -> Option<Seq<char>> {
    match json_get(v, "error"@) {
        None => None,
        Some(e) => match e {
            JsonV::Text(t) => crate::text::spec_nonempty_trim(t),
            _ => {
                let sub = if spec_text_at(e, "errorMessage"@) is Some {
                    spec_text_at(e, "errorMessage"@)
                } else if spec_text_at(e, "error_message"@) is Some {
                    spec_text_at(e, "error_message"@)
                } else {
                    spec_text_at(e, "message"@)
                };
                match sub {
                    Some(t) => crate::text::spec_nonempty_trim(t),
                    None => None,
                }
            },
        },
    }
}

fn error_member_text(v: &Json) -> (r: Option<String>)
    ensures
        r.deep_view() == spec_error_member_text(v.deep_view()),
{
    let e = match v.get("error") {
        Some(e) => e,
        None => {
            return None;
        }
    };
    if let Some(t) = e.as_text() {
        return crate::text::nonempty_trim(t.as_str());
    }
    let sub = match e.get_text("errorMessage") {
        Some(t) => Some(t),
        None => match e.get_text("error_message") {
            Some(t) => Some(t),
            None => e.get_text("message"),
        },
    };
    match sub {
        Some(t) => crate::text::nonempty_trim(t.as_str()),
        None => None,
    }
}

fn extract_message_error_text(m: Option<&Json>) -> (r: Option<String>)
    ensures
        r.deep_view() == spec_message_error_text(match m {
            Some(v) => Some(v.deep_view()),
            None => None,
        }),
{
    let v = match m {
        Some(v) => v,
        None => {
            return None;
        }
    };
    let direct = match v.get_text("errorMessage") {
        Some(t) => Some(t),
        None => v.get_text("error_message"),
    };
    match direct {
        Some(t) => match crate::text::nonempty_trim(t.as_str()) {
            Some(x) => Some(x),
            None => error_member_text(v),
        },
        None => error_member_text(v),
    }
}

// ---------------------------------------------------------------------------
// The converter.
// ---------------------------------------------------------------------------

/// The per-session state of the streaming adapter: per message id the
/// accumulated text and reasoning and the started, completed and errored
/// marks; per tool call id the last partial result and the started and
/// completed marks; the last assistant message id seen; and a counter for
/// made-up message ids.
#[derive(Debug)]
pub struct PiEventConverter {
    pub tool_result_buffers: Vec<(String, String)>,
    pub tool_result_started: Vec<String>,
    pub tool_result_completed: Vec<String>,
    pub message_completed: Vec<String>,
    pub message_errors: Vec<String>,
    pub message_reasoning: Vec<(String, String)>,
    pub message_text: Vec<(String, String)>,
    pub last_message_id: Option<String>,
    pub message_started: Vec<String>,
    pub message_counter: u64,
}

impl PiEventConverter {
    /// The converter's bookkeeping is consistent: no map holds a key twice
    /// and no mark set holds an id twice.
    pub open spec fn wf(self) -> bool {
        &&& spec_map_keys_distinct(self.tool_result_buffers.deep_view())
        &&& spec_map_keys_distinct(self.message_reasoning.deep_view())
        &&& spec_map_keys_distinct(self.message_text.deep_view())
        &&& crate::session::spec_no_dups(self.tool_result_started.deep_view())
        &&& crate::session::spec_no_dups(self.tool_result_completed.deep_view())
        &&& crate::session::spec_no_dups(self.message_completed.deep_view())
        &&& crate::session::spec_no_dups(self.message_errors.deep_view())
        &&& crate::session::spec_no_dups(self.message_started.deep_view())
    }

    /// A fresh converter with nothing tracked.
    pub fn new() -> (r: PiEventConverter)
        ensures
            r.wf(),
            r.message_completed.deep_view() == Seq::<Seq<char>>::empty(),
            r.tool_result_buffers.deep_view() == Seq::<(Seq<char>, Seq<char>)>::empty(),
            r.tool_result_started.deep_view() == Seq::<Seq<char>>::empty(),
            r.tool_result_completed.deep_view() == Seq::<Seq<char>>::empty(),
            r.last_message_id is None,
            r.message_counter == 0,
    {
        let r = PiEventConverter {
            tool_result_buffers: Vec::new(),
            tool_result_started: Vec::new(),
            tool_result_completed: Vec::new(),
            message_completed: Vec::new(),
            message_errors: Vec::new(),
            message_reasoning: Vec::new(),
            message_text: Vec::new(),
            last_message_id: None,
            message_started: Vec::new(),
            message_counter: 0,
        };
        proof {
            assert(r.message_completed.deep_view() =~= Seq::<Seq<char>>::empty());
            assert(r.tool_result_buffers.deep_view() =~= Seq::<(Seq<char>, Seq<char>)>::empty());
            assert(r.tool_result_started.deep_view() =~= Seq::<Seq<char>>::empty());
            assert(r.tool_result_completed.deep_view() =~= Seq::<Seq<char>>::empty());
            assert(r.message_errors.deep_view() =~= Seq::<Seq<char>>::empty());
            assert(r.message_started.deep_view() =~= Seq::<Seq<char>>::empty());
            assert(r.message_reasoning.deep_view() =~= Seq::<(Seq<char>, Seq<char>)>::empty());
            assert(r.message_text.deep_view() =~= Seq::<(Seq<char>, Seq<char>)>::empty());
        }
        r
    }
}

impl Default for PiEventConverter {
    fn default() -> (r: Self)
        ensures
            r.wf(),
            r.message_completed.deep_view() == Seq::<Seq<char>>::empty(),
            r.tool_result_buffers.deep_view() == Seq::<(Seq<char>, Seq<char>)>::empty(),
            r.tool_result_started.deep_view() == Seq::<Seq<char>>::empty(),
            r.tool_result_completed.deep_view() == Seq::<Seq<char>>::empty(),
            r.last_message_id is None,
            r.message_counter == 0,
    {
        PiEventConverter::new()
    }
}

/// The made-up id the next synthetic message gets.
pub open spec fn spec_synthetic_id(counter: u64) -> Seq<char> {
    "pi_msg_"@ + crate::text::spec_u64_digits(counter)
}

/// An in-progress message item with the given content.
fn message_item(
    message_id: Option<String>,
    content: Vec<ContentPart>,
    status: ItemStatus,
) -> (r: UniversalItem)
    ensures
        r.deep_view().kind == ItemKind::Message,
        r.deep_view().role == Some(ItemRole::Assistant),
        r.deep_view().status == status,
        r.deep_view().native_item_id == message_id.deep_view(),
        r.deep_view().content == content.deep_view(),
{
    UniversalItem {
        item_id: String::new(),
        native_item_id: message_id,
        parent_id: None,
        kind: ItemKind::Message,
        role: Some(ItemRole::Assistant),
        content,
        status,
    }
}

fn item_delta(message_id: Option<String>, delta: String) -> (r: EventConversion)
    ensures
        r.event_type == UniversalEventType::ItemDelta,
        r.data.deep_view() == (crate::universal::EventDataV::ItemDelta(
            crate::universal::ItemDeltaDataV {
                item_id: Seq::empty(),
                native_item_id: message_id.deep_view(),
                delta: delta@,
            },
        )),
        r.agent_session_id is None,
{
    EventConversion::new(
        UniversalEventType::ItemDelta,
        UniversalEventData::ItemDelta(
            ItemDeltaData { item_id: String::new(), native_item_id: message_id, delta },
        ),
    )
}

/// A completed status item carrying a stable label.
fn status_event(label: &str, raw: &Json) -> (r: EventConversion)
    ensures
        r.event_type == UniversalEventType::ItemCompleted,
        r.data.deep_view() matches crate::universal::EventDataV::Item(d) && {
            &&& d.item.kind == ItemKind::Status
            &&& d.item.role == Some(ItemRole::System)
            &&& d.item.status == ItemStatus::Completed
            &&& d.item.content.len() == 1
            &&& d.item.content[0] matches ContentPartV::Status { label: l, detail } && l
                == spec_pi_status_label(label@) && detail == (match json_get(
                raw.deep_view(),
                "error"@,
            ) {
                Some(e) => Some(spec_value_to_string(e)),
                None => match json_get(raw.deep_view(), "message"@) {
                    Some(m) => Some(spec_value_to_string(m)),
                    None => None,
                },
            })
        },
{
    let detail: Option<String> = match raw.get("error") {
        Some(e) => Some(crate::json::value_to_string(e)),
        None => match raw.get("message") {
            Some(m) => Some(crate::json::value_to_string(m)),
            None => None,
        },
    };
    let content = vec![ContentPart::Status { label: pi_status_label(label), detail }];
    let item = UniversalItem {
        item_id: String::new(),
        native_item_id: None,
        parent_id: None,
        kind: ItemKind::Status,
        role: Some(ItemRole::System),
        content,
        status: ItemStatus::Completed,
    };
    EventConversion::new(
        UniversalEventType::ItemCompleted,
        UniversalEventData::Item(ItemEventData { item }),
    )
}

/// The texts of the text blocks, concatenated.
pub open spec fn spec_texts_of(parts: Seq<ContentPartV>) -> Seq<char>
    decreases parts.len(),
{
    if parts.len() == 0 {
        Seq::empty()
    } else {
        (match parts[0] {
            ContentPartV::Text { text } => text,
            _ => Seq::empty(),
        }) + spec_texts_of(parts.skip(1))
    }
}

#[verifier::loop_isolation(false)]
fn append_texts_of(out: &mut String, parts: &Vec<ContentPart>)
    ensures
        final(out)@ == old(out)@ + spec_texts_of(parts.deep_view()),
{
    let mut i: usize = 0;
    proof {
        assert(parts.deep_view().skip(0) =~= parts.deep_view());
    }
    while i < parts.len()
        invariant
            0 <= i <= parts@.len(),
            old(out)@ + spec_texts_of(parts.deep_view()) == out@ + spec_texts_of(
                parts.deep_view().skip(i as int),
            ),
        decreases parts@.len() - i,
    {
        proof {
            assert(parts.deep_view().skip(i as int)[0] == parts.deep_view()[i as int]);
            assert(parts.deep_view().skip(i as int).skip(1) =~= parts.deep_view().skip(
                i as int + 1,
            ));
        }
        match &parts[i] {
            ContentPart::Text { text } => {
                out.append(text.as_str());
            }
            _ => {}
        }
        i = i + 1;
    }
    proof {
        assert(spec_texts_of(parts.deep_view().skip(parts.deep_view().len() as int)) =~= Seq::<
            char,
        >::empty());
    }
}

/// Whether any block is reasoning.
pub open spec fn spec_has_reasoning(c: Seq<ContentPartV>) -> bool {
    exists|i: int| 0 <= i < c.len() && (#[trigger] c[i]) is Reasoning
}

fn has_reasoning(c: &Vec<ContentPart>) -> (r: bool)
    ensures
        r == spec_has_reasoning(c.deep_view()),
{
    let mut i: usize = 0;
    while i < c.len()
        invariant
            0 <= i <= c@.len(),
            forall|j: int| 0 <= j < i ==> !((#[trigger] c.deep_view()[j]) is Reasoning),
        decreases c@.len() - i,
    {
        match &c[i] {
            ContentPart::Reasoning { .. } => {
                proof {
                    assert(c.deep_view()[i as int] is Reasoning);
                }
                return true;
            }
            _ => {}
        }
        i = i + 1;
    }
    false
}

/// The content a completion carries: the payload's own blocks; where those
/// are empty, the accumulated text; the accumulated reasoning when none is
/// present yet; and, for a failed message with nothing else, the error text.
pub open spec fn spec_complete_content(
    content0: Seq<ContentPartV>,
    acc_text: Option<Seq<char>>,
    acc_reason: Option<Seq<char>>,
    failed: bool,
    err_text: Option<Seq<char>>,
) -> Seq<ContentPartV> {
    let c1 = if content0.len() == 0 {
        match acc_text {
            Some(t) => if t.len() > 0 {
                content0 + seq![ContentPartV::Text { text: t }]
            } else {
                content0
            },
            None => content0,
        }
    } else {
        content0
    };
    let c2 = match acc_reason {
        Some(rs) => if crate::text::spec_trim(rs).len() > 0 && !spec_has_reasoning(c1) {
            c1 + seq![
                ContentPartV::Reasoning { text: rs, visibility: ReasoningVisibility::Private },
            ]
        } else {
            c1
        },
        None => c1,
    };
    if failed && c2.len() == 0 {
        match err_text {
            Some(t) => c2 + seq![ContentPartV::Text { text: t }],
            None => c2,
        }
    } else {
        c2
    }
}

impl PiEventConverter {
    /// The next made-up message id.
    fn next_synthetic_message_id(&mut self) -> (r: String)
        requires
            old(self).message_counter < u64::MAX,
        ensures
            final(self).message_counter == old(self).message_counter + 1,
            r@ == spec_synthetic_id(final(self).message_counter),
            *final(self) == (PiEventConverter {
                message_counter: final(self).message_counter,
                ..*old(self)
            }),
    {
        self.message_counter = self.message_counter + 1;
        let mut out = String::from_str("pi_msg_");
        crate::text::append_u64(&mut out, self.message_counter);
        out
    }

    /// The message id an event resolves to: the explicit one, else the last
    /// seen, else a fresh made-up one; it becomes the last seen.
    fn ensure_message_id(&mut self, message_id: Option<String>) -> (r: String)
        requires
            old(self).message_counter < u64::MAX,
        ensures
            r@ == spec_resolved_id(
                old(self).last_message_id.deep_view(),
                old(self).message_counter,
                message_id.deep_view(),
            ),
            final(self).last_message_id.deep_view() == Some(r@),
            final(self).message_counter == (if message_id is None && old(self).last_message_id
                is None {
                (old(self).message_counter + 1) as u64
            } else {
                old(self).message_counter
            }),
            *final(self) == (PiEventConverter {
                last_message_id: final(self).last_message_id,
                message_counter: final(self).message_counter,
                ..*old(self)
            }),
    {
        match message_id {
            Some(id) => {
                self.last_message_id = Some(id.clone());
                id
            }
            None => match &self.last_message_id {
                Some(id) => id.clone(),
                None => {
                    let id = self.next_synthetic_message_id();
                    self.last_message_id = Some(id.clone());
                    id
                }
            },
        }
    }

    /// Emits the made-up start of a message seen first through its deltas.
    fn ensure_message_started(&mut self, message_id: &str) -> (r: Option<EventConversion>)
        requires
            old(self).wf(),
        ensures
            final(self).wf(),
            old(self).message_started.deep_view().contains(message_id@) ==> r is None
                && final(self).message_started.deep_view()
                == old(self).message_started.deep_view(),
            !old(self).message_started.deep_view().contains(message_id@) ==> {
                &&& r matches Some(conv)
                &&& conv.event_type == UniversalEventType::ItemStarted
                &&& conv.synthetic
                &&& conv.data.deep_view() matches crate::universal::EventDataV::Item(d)
                    && d.item.kind == ItemKind::Message && d.item.role == Some(ItemRole::Assistant)
                    && d.item.status == ItemStatus::InProgress && d.item.native_item_id == Some(
                    message_id@,
                ) && d.item.content.len() == 0
            },
            final(self).message_started.deep_view().contains(message_id@),
            forall|x: Seq<char>|
                x != message_id@ ==> final(self).message_started.deep_view().contains(x) == old(self).message_started.deep_view().contains(x),
            *final(self) == (PiEventConverter {
                message_started: final(self).message_started,
                ..*old(self)
            }),
    {
        if !set_insert(&mut self.message_started, message_id.to_owned()) {
            return None;
        }
        let item = message_item(Some(message_id.to_owned()), Vec::new(), ItemStatus::InProgress);
        proof {
            assert(item.content.deep_view() =~= Seq::<ContentPartV>::empty());
        }
        Some(
            EventConversion::new(
                UniversalEventType::ItemStarted,
                UniversalEventData::Item(ItemEventData { item }),
            ).synthetic(),
        )
    }

    /// Forgets the last message id when it is the one given, or when none is
    /// given.
    fn clear_last_message_id(&mut self, message_id: Option<&str>)
        ensures
            *final(self) == (PiEventConverter {
                last_message_id: final(self).last_message_id,
                ..*old(self)
            }),
            final(self).last_message_id == (match message_id {
                None => None::<String>,
                Some(id) => if old(self).last_message_id.deep_view() == Some(id@) {
                    None::<String>
                } else {
                    old(self).last_message_id
                },
            }),
    {
        match message_id {
            None => {
                self.last_message_id = None;
            }
            Some(id) => {
                let matches_last = match &self.last_message_id {
                    Some(last) => crate::json::str_eq(last.as_str(), id),
                    None => false,
                };
                if matches_last {
                    self.last_message_id = None;
                }
            }
        }
    }
}

/// The message id an event resolves to, as a function of the converter's
/// last-seen id and counter.
pub open spec fn spec_resolved_id(
    last: Option<Seq<char>>,
    counter: u64,
    given: Option<Seq<char>>,
) -> Seq<char> {
    match given {
        Some(id) => id,
        None => match last {
            Some(id) => id,
            None => spec_synthetic_id((counter + 1) as u64),
        },
    }
}

/// The payload's own blocks at a message start, empty when absent.
pub open spec fn spec_start_content(rv: JsonV) -> Seq<ContentPartV> {
    match json_get(rv, "message"@) {
        Some(m) => match spec_message_content(m) {
            Some(c) => c,
            None => Seq::empty(),
        },
        None => Seq::empty(),
    }
}

/// The assistant sub-event of an update, under either spelling.
pub open spec fn spec_assistant_event(rv: JsonV) -> Option<JsonV> {
    if json_get(rv, "assistantMessageEvent"@) is Some {
        json_get(rv, "assistantMessageEvent"@)
    } else {
        json_get(rv, "assistant_message_event"@)
    }
}

/// The stringified launch arguments of a tool call.
pub open spec fn spec_tool_args(rv: JsonV) -> Seq<char> {
    match json_get(rv, "args"@) {
        Some(a) => spec_value_to_string(a),
        None => match json_get(rv, "arguments"@) {
            Some(a) => spec_value_to_string(a),
            None => "{}"@,
        },
    }
}

/// The error text an assistant error sub-event surfaces: the sub-event's
/// own error, else the event's, else a fixed fallback.
pub open spec fn spec_update_error_text(ev: JsonV, rv: JsonV) -> Seq<char> {
    match json_get(ev, "error"@) {
        Some(e) => spec_value_to_string(e),
        None => match json_get(rv, "error"@) {
            Some(e) => spec_value_to_string(e),
            None => "Pi message error"@,
        },
    }
}

/// The content a completion for a message payload carries, given the
/// accumulated text and reasoning.
pub open spec fn spec_completion_content(
    msg: Option<JsonV>,
    acc_t: Option<Seq<char>>,
    acc_r: Option<Seq<char>>,
) -> Seq<ContentPartV> {
    spec_complete_content(
        (match msg {
            Some(m) => match spec_message_content(m) {
                Some(c) => c,
                None => Seq::empty(),
            },
            None => Seq::empty(),
        }),
        acc_t,
        acc_r,
        spec_message_failed(msg),
        spec_message_error_text(msg),
    )
}

impl PiEventConverter {
    /// Closes a message: the payload's blocks, else the accumulated text;
    /// accumulated reasoning is appended once; a failed close with nothing
    /// else carries the error text. The accumulators for the id are dropped.
    fn complete_message(&mut self, message_id: Option<String>, message: Option<&Json>) -> (r:
        EventConversion)
        requires
            old(self).wf(),
        ensures
            final(self).wf(),
            r.event_type == UniversalEventType::ItemCompleted,
            !r.synthetic,
            ({
                let mv = match message {
                    Some(m) => Some(m.deep_view()),
                    None => None,
                };
                let content0 = match mv {
                    Some(m) => match spec_message_content(m) {
                        Some(c) => c,
                        None => Seq::empty(),
                    },
                    None => Seq::empty(),
                };
                let failed = spec_message_failed(mv);
                let errt = spec_message_error_text(mv);
                let acc_t = match message_id.deep_view() {
                    Some(id) => spec_map_get(old(self).message_text.deep_view(), id),
                    None => None,
                };
                let acc_r = match message_id.deep_view() {
                    Some(id) => spec_map_get(old(self).message_reasoning.deep_view(), id),
                    None => None,
                };
                r.data.deep_view() matches crate::universal::EventDataV::Item(d) && {
                    &&& d.item.kind == ItemKind::Message
                    &&& d.item.role == Some(ItemRole::Assistant)
                    &&& d.item.native_item_id == message_id.deep_view()
                    &&& d.item.status == (if failed {
                        ItemStatus::Failed
                    } else {
                        ItemStatus::Completed
                    })
                    &&& d.item.content == spec_complete_content(content0, acc_t, acc_r, failed, errt)
                }
            }),
            message_id matches Some(id) ==> {
                &&& spec_map_get(final(self).message_text.deep_view(), id@) is None
                &&& spec_map_get(final(self).message_reasoning.deep_view(), id@) is None
                &&& !final(self).message_started.deep_view().contains(id@)
                &&& forall|x: Seq<char>|
                    x != id@ ==> spec_map_get(final(self).message_text.deep_view(), x)
                        == spec_map_get(old(self).message_text.deep_view(), x)
                &&& forall|x: Seq<char>|
                    x != id@ ==> spec_map_get(final(self).message_reasoning.deep_view(), x)
                        == spec_map_get(old(self).message_reasoning.deep_view(), x)
                &&& forall|x: Seq<char>|
                    x != id@ ==> final(self).message_started.deep_view().contains(x) == old(self).message_started.deep_view().contains(x)
            },
            *final(self) == (PiEventConverter {
                message_text: final(self).message_text,
                message_reasoning: final(self).message_reasoning,
                message_started: final(self).message_started,
                ..*old(self)
            }),
    {
        let mut content: Vec<ContentPart> = match message {
            Some(m) => match parse_message_content(m) {
                Some(c) => c,
                None => Vec::new(),
            },
            None => Vec::new(),
        };
        proof {
            if message is None {
                assert(content.deep_view() =~= Seq::<ContentPartV>::empty());
            }
        }
        let failed = message_is_failed(message);
        let err_text = extract_message_error_text(message);
        if let Some(id) = &message_id {
            let acc = map_get(&self.message_text, id.as_str());
            map_remove(&mut self.message_text, id.as_str());
            if content.is_empty() {
                if let Some(text) = acc {
                    if !text.as_str().is_empty() {
                        let ghost c0 = content.deep_view();
                        let ghost tv = text@;
                        content.push(ContentPart::Text { text });
                        proof {
                            assert(content.deep_view() =~= c0 + seq![
                                ContentPartV::Text { text: tv },
                            ]);
                        }
                    }
                }
            }
            let accr = map_get(&self.message_reasoning, id.as_str());
            map_remove(&mut self.message_reasoning, id.as_str());
            if let Some(reasoning) = accr {
                let trimmed = crate::text::str_trim(reasoning.as_str());
                if !trimmed.as_str().is_empty() && !has_reasoning(&content) {
                    let ghost c1 = content.deep_view();
                    let ghost rv = reasoning@;
                    content.push(
                        ContentPart::Reasoning {
                            text: reasoning,
                            visibility: ReasoningVisibility::Private,
                        },
                    );
                    proof {
                        assert(content.deep_view() =~= c1 + seq![
                            ContentPartV::Reasoning {
                                text: rv,
                                visibility: ReasoningVisibility::Private,
                            },
                        ]);
                    }
                }
            }
            set_remove(&mut self.message_started, id.as_str());
        }
        if failed && content.is_empty() {
            if let Some(t) = err_text {
                let ghost c2 = content.deep_view();
                let ghost tv = t@;
                content.push(ContentPart::Text { text: t });
                proof {
                    assert(content.deep_view() =~= c2 + seq![ContentPartV::Text { text: tv }]);
                }
            }
        }
        let status = if failed {
            ItemStatus::Failed
        } else {
            ItemStatus::Completed
        };
        let item = message_item(message_id, content, status);
        EventConversion::new(
            UniversalEventType::ItemCompleted,
            UniversalEventData::Item(ItemEventData { item }),
        )
    }

    /// A message begins: user echoes are dropped; an assistant message opens
    /// an in-progress item, clears any stale completion mark for its id, and
    /// seeds the text accumulator with the payload's text blocks.
    fn message_start(&mut self, raw: &Json) -> (r: Result<Vec<EventConversion>, String>)
        requires
            old(self).wf(),
            old(self).message_counter < u64::MAX,
        ensures
            final(self).wf(),
            r matches Ok(convs) ==> forall|k1: int, k2: int|
                0 <= k1 < k2 < convs@.len() ==> !((#[trigger] convs@[k1]).event_type
                    == UniversalEventType::ItemCompleted && (#[trigger] convs@[k2]).event_type
                    == UniversalEventType::ItemCompleted),
            r is Ok,
            spec_is_user_role(raw.deep_view()) ==> (r matches Ok(c) && c.deep_view().len() == 0
                && *final(self) == *old(self)),
            !spec_is_user_role(raw.deep_view()) ==> ({
                let rid = spec_resolved_id(
                    old(self).last_message_id.deep_view(),
                    old(self).message_counter,
                    spec_message_id_of(raw.deep_view()),
                );
                let content0 = spec_start_content(raw.deep_view());
                r matches Ok(convs) && {
                    &&& convs@.len() == 1
                    &&& convs@[0].event_type == UniversalEventType::ItemStarted
                    &&& convs@[0].data.deep_view() matches crate::universal::EventDataV::Item(d)
                        && d.item.kind == ItemKind::Message && d.item.role == Some(
                        ItemRole::Assistant,
                    ) && d.item.status == ItemStatus::InProgress && d.item.native_item_id == Some(
                        rid,
                    ) && d.item.content == content0
                    &&& !final(self).message_completed.deep_view().contains(rid)
                    &&& forall|x: Seq<char>|
                        x != rid ==> final(self).message_completed.deep_view().contains(x) == old(self).message_completed.deep_view().contains(x)
                    &&& final(self).message_started.deep_view().contains(rid)
                    &&& spec_map_get(final(self).message_text.deep_view(), rid) == Some(
                        (match spec_map_get(old(self).message_text.deep_view(), rid) {
                            Some(t) => t,
                            None => Seq::empty(),
                        }) + spec_texts_of(content0),
                    )
                }
            }),
    {
        if is_user_role(raw) {
            let empty: Vec<EventConversion> = Vec::new();
            proof {
                assert(empty.deep_view() =~= Seq::<EventConversionV>::empty());
            }
            return Ok(empty);
        }
        let message_id = self.ensure_message_id(extract_message_id(raw));
        set_remove(&mut self.message_completed, message_id.as_str());
        set_insert(&mut self.message_started, message_id.clone());
        let content: Vec<ContentPart> = match raw.get("message") {
            Some(m) => match parse_message_content(m) {
                Some(c) => c,
                None => Vec::new(),
            },
            None => Vec::new(),
        };
        proof {
            if json_get(raw.deep_view(), "message"@) is None {
                assert(content.deep_view() =~= Seq::<ContentPartV>::empty());
            }
        }
        let mut acc: String = match map_get(&self.message_text, message_id.as_str()) {
            Some(t) => t,
            None => String::new(),
        };
        append_texts_of(&mut acc, &content);
        map_put(&mut self.message_text, message_id.clone(), acc);
        let item = message_item(Some(message_id), content, ItemStatus::InProgress);
        let convs = vec![
            EventConversion::new(
                UniversalEventType::ItemStarted,
                UniversalEventData::Item(ItemEventData { item }),
            ),
        ];
        Ok(convs)
    }

    /// A message ends: user echoes are dropped; an errored or already
    /// completed id yields nothing more; otherwise the message closes once.
    fn message_end(&mut self, raw: &Json) -> (r: Result<Vec<EventConversion>, String>)
        requires
            old(self).wf(),
            old(self).message_counter < u64::MAX,
        ensures
            final(self).wf(),
            r matches Ok(convs) ==> forall|k1: int, k2: int|
                0 <= k1 < k2 < convs@.len() ==> !((#[trigger] convs@[k1]).event_type
                    == UniversalEventType::ItemCompleted && (#[trigger] convs@[k2]).event_type
                    == UniversalEventType::ItemCompleted),
            r is Ok,
            spec_is_user_role(raw.deep_view()) ==> (r matches Ok(c) && c.deep_view().len() == 0
                && *final(self) == *old(self)),
            !spec_is_user_role(raw.deep_view()) ==> ({
                let rid = spec_resolved_id(
                    old(self).last_message_id.deep_view(),
                    old(self).message_counter,
                    spec_message_id_of(raw.deep_view()),
                );
                &&& old(self).message_errors.deep_view().contains(rid) ==> (r matches Ok(c)
                    && c.deep_view().len() == 0 && !final(self).message_errors.deep_view().contains(
                    rid,
                ))
                &&& !old(self).message_errors.deep_view().contains(rid) && old(self).message_completed.deep_view().contains(rid) ==> (r matches Ok(c)
                    && c.deep_view().len() == 0 && final(self).message_completed.deep_view().contains(rid))
                &&& !old(self).message_errors.deep_view().contains(rid) && !old(self).message_completed.deep_view().contains(rid) ==> (r matches Ok(convs) && {
                    &&& convs@.len() == 1
                    &&& convs@[0].event_type == UniversalEventType::ItemCompleted
                    &&& final(self).message_completed.deep_view().contains(rid)
                    &&& convs@[0].data.deep_view() matches crate::universal::EventDataV::Item(d)
                        && d.item.kind == ItemKind::Message && d.item.native_item_id == Some(rid)
                        && d.item.status == (if spec_message_failed(
                        json_get(raw.deep_view(), "message"@),
                    ) {
                        ItemStatus::Failed
                    } else {
                        ItemStatus::Completed
                    }) && d.item.content == spec_completion_content(
                        json_get(raw.deep_view(), "message"@),
                        spec_map_get(old(self).message_text.deep_view(), rid),
                        spec_map_get(old(self).message_reasoning.deep_view(), rid),
                    )
                })
            }),
    {
        let message = raw.get("message");
        if is_user_role(raw) {
            let empty: Vec<EventConversion> = Vec::new();
            proof {
                assert(empty.deep_view() =~= Seq::<EventConversionV>::empty());
            }
            return Ok(empty);
        }
        let message_id = self.ensure_message_id(extract_message_id(raw));
        if set_remove(&mut self.message_errors, message_id.as_str()) {
            map_remove(&mut self.message_text, message_id.as_str());
            map_remove(&mut self.message_reasoning, message_id.as_str());
            set_remove(&mut self.message_started, message_id.as_str());
            self.clear_last_message_id(Some(message_id.as_str()));
            let empty: Vec<EventConversion> = Vec::new();
            proof {
                assert(empty.deep_view() =~= Seq::<EventConversionV>::empty());
            }
            return Ok(empty);
        }
        if set_contains(&self.message_completed, message_id.as_str()) {
            self.clear_last_message_id(Some(message_id.as_str()));
            let empty: Vec<EventConversion> = Vec::new();
            proof {
                assert(empty.deep_view() =~= Seq::<EventConversionV>::empty());
            }
            return Ok(empty);
        }
        let conversion = self.complete_message(Some(message_id.clone()), message);
        set_insert(&mut self.message_completed, message_id.clone());
        self.clear_last_message_id(Some(message_id.as_str()));
        Ok(vec![conversion])
    }

    /// A tool call begins: an in-progress tool-call item with the tool's
    /// name and stringified arguments; a stale completion mark for the id is
    /// cleared.
    fn tool_execution_start(&mut self, raw: &Json) -> (r: Result<Vec<EventConversion>, String>)
        requires
            old(self).wf(),
        ensures
            final(self).wf(),
            r matches Ok(convs) ==> forall|k1: int, k2: int|
                0 <= k1 < k2 < convs@.len() ==> !((#[trigger] convs@[k1]).event_type
                    == UniversalEventType::ItemCompleted && (#[trigger] convs@[k2]).event_type
                    == UniversalEventType::ItemCompleted),
            spec_tool_call_id_of(raw.deep_view()) is None ==> r is Err,
            spec_tool_call_id_of(raw.deep_view()) matches Some(tid) ==> (r matches Ok(convs) && {
                &&& convs@.len() == 1
                &&& convs@[0].event_type == UniversalEventType::ItemStarted
                &&& convs@[0].data.deep_view() matches crate::universal::EventDataV::Item(d)
                    && d.item.kind == ItemKind::ToolCall && d.item.role == Some(
                    ItemRole::Assistant,
                ) && d.item.status == ItemStatus::InProgress && d.item.native_item_id == Some(tid)
                    && d.item.content == seq![
                    ContentPartV::ToolCall {
                        name: (match spec_tool_name_of(raw.deep_view()) {
                            Some(n) => n,
                            None => "tool"@,
                        }),
                        arguments: spec_tool_args(raw.deep_view()),
                        call_id: tid,
                    },
                ]
                &&& !final(self).tool_result_completed.deep_view().contains(tid)
            }),
    {
        let tool_call_id = match extract_tool_call_id(raw) {
            Some(id) => id,
            None => {
                return Err(String::from_str("missing toolCallId"));
            }
        };
        set_remove(&mut self.tool_result_completed, tool_call_id.as_str());
        let tool_name = match extract_tool_name(raw) {
            Some(n) => n,
            None => String::from_str("tool"),
        };
        let arguments = match raw.get("args") {
            Some(a) => crate::json::value_to_string(a),
            None => match raw.get("arguments") {
                Some(a) => crate::json::value_to_string(a),
                None => String::from_str("{}"),
            },
        };
        let content = vec![
            ContentPart::ToolCall {
                name: tool_name,
                arguments,
                call_id: tool_call_id.clone(),
            },
        ];
        let item = UniversalItem {
            item_id: String::new(),
            native_item_id: Some(tool_call_id),
            parent_id: None,
            kind: ItemKind::ToolCall,
            role: Some(ItemRole::Assistant),
            content,
            status: ItemStatus::InProgress,
        };
        Ok(
            vec![
                EventConversion::new(
                    UniversalEventType::ItemStarted,
                    UniversalEventData::Item(ItemEventData { item }),
                ),
            ],
        )
    }

    /// A partial tool result arrives: the delta past the prior partial is
    /// emitted (the whole text when the prior is not its prefix), a made-up
    /// start precedes the first one, and the buffer remembers the partial.
    fn tool_execution_update(&mut self, raw: &Json) -> (r: Result<Vec<EventConversion>, String>)
        requires
            old(self).wf(),
        ensures
            final(self).wf(),
            r matches Ok(convs) ==> forall|k1: int, k2: int|
                0 <= k1 < k2 < convs@.len() ==> !((#[trigger] convs@[k1]).event_type
                    == UniversalEventType::ItemCompleted && (#[trigger] convs@[k2]).event_type
                    == UniversalEventType::ItemCompleted),
            r is Ok,
            spec_tool_call_id_of(raw.deep_view()) is None ==> (r matches Ok(c) && c.deep_view().len()
                == 0 && *final(self) == *old(self)),
            spec_tool_call_id_of(raw.deep_view()) matches Some(tid) ==> ({
                let partial = if json_get(raw.deep_view(), "partialResult"@) is Some {
                    json_get(raw.deep_view(), "partialResult"@)
                } else {
                    json_get(raw.deep_view(), "partial_result"@)
                };
                &&& partial is None ==> (r matches Ok(c) && c.deep_view().len() == 0 && *final(self)
                    == *old(self))
                &&& partial matches Some(pv) ==> ({
                    let p = spec_value_to_string(pv);
                    let prior = match spec_map_get(old(self).tool_result_buffers.deep_view(), tid) {
                        Some(b) => b,
                        None => Seq::empty(),
                    };
                    let d = crate::text::spec_delta(prior, p);
                    let started = old(self).tool_result_started.deep_view().contains(tid);
                    r matches Ok(convs) && {
                        &&& spec_map_get(final(self).tool_result_buffers.deep_view(), tid) == Some(
                            p,
                        )
                        &&& forall|x: Seq<char>|
                            x != tid ==> spec_map_get(
                                final(self).tool_result_buffers.deep_view(),
                                x,
                            ) == spec_map_get(old(self).tool_result_buffers.deep_view(), x)
                        &&& final(self).tool_result_started.deep_view().contains(tid)
                        &&& convs@.len() == (if started {
                            0int
                        } else {
                            1int
                        }) + (if d.len() == 0 {
                            0int
                        } else {
                            1int
                        })
                        &&& !started ==> convs@[0].event_type == UniversalEventType::ItemStarted
                            && convs@[0].synthetic && (convs@[0].data.deep_view() matches
                        crate::universal::EventDataV::Item(dd) && dd.item.kind
                            == ItemKind::ToolResult && dd.item.role == Some(ItemRole::Tool)
                            && dd.item.status == ItemStatus::InProgress && dd.item.native_item_id
                            == Some(tid))
                        &&& d.len() > 0 ==> convs@.last().event_type
                            == UniversalEventType::ItemDelta && (convs@.last().data.deep_view()
                        matches crate::universal::EventDataV::ItemDelta(dd) && dd.native_item_id
                            == Some(tid) && dd.delta == d)
                        &&& forall|k: int|
                            0 <= k < convs@.len() ==> (#[trigger] convs@[k]).event_type
                                != UniversalEventType::ItemCompleted
                    }
                })
            }),
    {
        let tool_call_id = match extract_tool_call_id(raw) {
            Some(id) => id,
            None => {
                let empty: Vec<EventConversion> = Vec::new();
                proof {
                    assert(empty.deep_view() =~= Seq::<EventConversionV>::empty());
                }
                return Ok(empty);
            }
        };
        let partial_value = match raw.get("partialResult") {
            Some(p) => Some(p),
            None => raw.get("partial_result"),
        };
        let partial = match partial_value {
            Some(p) => crate::json::value_to_string(p),
            None => {
                let empty: Vec<EventConversion> = Vec::new();
                proof {
                    assert(empty.deep_view() =~= Seq::<EventConversionV>::empty());
                }
                return Ok(empty);
            }
        };
        let prior = match map_get(&self.tool_result_buffers, tool_call_id.as_str()) {
            Some(b) => b,
            None => String::new(),
        };
        let delta = crate::text::delta_from_partial(prior.as_str(), partial.as_str());
        map_put(&mut self.tool_result_buffers, tool_call_id.clone(), partial);

        let mut conversions: Vec<EventConversion> = Vec::new();
        proof {
            assert(conversions.deep_view() =~= Seq::<EventConversionV>::empty());
        }
        if set_insert(&mut self.tool_result_started, tool_call_id.clone()) {
            let content = vec![
                ContentPart::ToolResult { call_id: tool_call_id.clone(), output: String::new() },
            ];
            let item = UniversalItem {
                item_id: String::new(),
                native_item_id: Some(tool_call_id.clone()),
                parent_id: None,
                kind: ItemKind::ToolResult,
                role: Some(ItemRole::Tool),
                content,
                status: ItemStatus::InProgress,
            };
            conversions.push(
                EventConversion::new(
                    UniversalEventType::ItemStarted,
                    UniversalEventData::Item(ItemEventData { item }),
                ).synthetic(),
            );
        }
        if !delta.as_str().is_empty() {
            conversions.push(
                EventConversion::new(
                    UniversalEventType::ItemDelta,
                    UniversalEventData::ItemDelta(
                        ItemDeltaData {
                            item_id: String::new(),
                            native_item_id: Some(tool_call_id),
                            delta,
                        },
                    ),
                ).synthetic(),
            );
        }
        Ok(conversions)
    }

    /// An update to an open message: text and thinking deltas accumulate and
    /// are passed on (none for an already completed id); `done` closes the
    /// message once; an error closes it once as failed; tool-call sub-events
    /// are dropped; an unknown sub-event is refused.
    fn message_update(&mut self, raw: &Json) -> (r: Result<Vec<EventConversion>, String>)
        requires
            old(self).wf(),
            old(self).message_counter < u64::MAX,
        ensures
            final(self).wf(),
            r matches Ok(convs) ==> forall|k1: int, k2: int|
                0 <= k1 < k2 < convs@.len() ==> !((#[trigger] convs@[k1]).event_type
                    == UniversalEventType::ItemCompleted && (#[trigger] convs@[k2]).event_type
                    == UniversalEventType::ItemCompleted),
            spec_assistant_event(raw.deep_view()) is None ==> r is Err,
            spec_assistant_event(raw.deep_view()) matches Some(ev) ==> ({
                let sub = spec_text_at(ev, "type"@);
                let given = if spec_message_id_of(raw.deep_view()) is Some {
                    spec_message_id_of(raw.deep_view())
                } else {
                    spec_message_id_of(ev)
                };
                &&& sub == Some("start"@) ==> (r matches Ok(c) && c.deep_view().len() == 0)
                &&& (sub == Some("text_start"@) || sub == Some("text_delta"@) || sub == Some(
                    "text_end"@,
                ) || sub == Some("thinking_start"@) || sub == Some("thinking_delta"@) || sub
                    == Some("thinking_end"@)) ==> ({
                    let rid = spec_resolved_id(
                        old(self).last_message_id.deep_view(),
                        old(self).message_counter,
                        given,
                    );
                    &&& spec_delta_text(ev) is None ==> (r matches Ok(c) && c.deep_view().len()
                        == 0 && *final(self) == *old(self))
                    &&& spec_delta_text(ev) matches Some(d) ==> (old(
                        self,
                    ).message_completed.deep_view().contains(rid) ==> (r matches Ok(c)
                        && c.deep_view().len() == 0 && final(self).message_completed.deep_view().contains(rid)))
                    &&& spec_delta_text(ev) matches Some(d) ==> (!old(
                        self,
                    ).message_completed.deep_view().contains(rid) ==> (r matches Ok(convs) && {
                        &&& convs@.len() == (if old(self).message_started.deep_view().contains(rid) {
                            1int
                        } else {
                            2int
                        })
                        &&& convs@.last().event_type == UniversalEventType::ItemDelta
                        &&& (convs@.last().data.deep_view() matches
                        crate::universal::EventDataV::ItemDelta(dd) && dd.native_item_id == Some(
                            rid,
                        ) && dd.delta == d)
                        &&& convs@.len() == 2 ==> convs@[0].event_type
                            == UniversalEventType::ItemStarted
                        &&& forall|k: int|
                            0 <= k < convs@.len() ==> (#[trigger] convs@[k]).event_type
                                != UniversalEventType::ItemCompleted
                        &&& (sub == Some("text_start"@) || sub == Some("text_delta"@) || sub
                            == Some("text_end"@)) ==> spec_map_get(
                            final(self).message_text.deep_view(),
                            rid,
                        ) == Some(
                            (match spec_map_get(old(self).message_text.deep_view(), rid) {
                                Some(t) => t,
                                None => Seq::empty(),
                            }) + d,
                        )
                    }))
                })
                &&& sub == Some("done"@) ==> ({
                    let rid = spec_resolved_id(
                        old(self).last_message_id.deep_view(),
                        old(self).message_counter,
                        given,
                    );
                    &&& old(self).message_errors.deep_view().contains(rid) ==> (r matches Ok(c)
                        && c.deep_view().len() == 0)
                    &&& !old(self).message_errors.deep_view().contains(rid) && old(self).message_completed.deep_view().contains(rid) ==> (r matches Ok(c)
                        && c.deep_view().len() == 0 && final(self).message_completed.deep_view().contains(rid))
                    &&& !old(self).message_errors.deep_view().contains(rid) && !old(self).message_completed.deep_view().contains(rid) ==> (r matches Ok(convs) && {
                        let done_msg = if json_get(raw.deep_view(), "message"@) is Some {
                            json_get(raw.deep_view(), "message"@)
                        } else {
                            json_get(ev, "message"@)
                        };
                        &&& convs@.len() == 1
                        &&& convs@[0].event_type == UniversalEventType::ItemCompleted
                        &&& final(self).message_completed.deep_view().contains(rid)
                        &&& (convs@[0].data.deep_view() matches
                        crate::universal::EventDataV::Item(d) && d.item.kind == ItemKind::Message
                            && d.item.native_item_id == Some(rid) && d.item.status == (if
                        spec_message_failed(done_msg) {
                            ItemStatus::Failed
                        } else {
                            ItemStatus::Completed
                        }) && d.item.content == spec_completion_content(
                            done_msg,
                            spec_map_get(old(self).message_text.deep_view(), rid),
                            spec_map_get(old(self).message_reasoning.deep_view(), rid),
                        ))
                    })
                })
                &&& sub == Some("error"@) ==> ({
                    let rid = spec_resolved_id(
                        old(self).last_message_id.deep_view(),
                        old(self).message_counter,
                        given,
                    );
                    &&& old(self).message_completed.deep_view().contains(rid) ==> (r matches Ok(c)
                        && c.deep_view().len() == 0 && final(self).message_completed.deep_view().contains(rid))
                    &&& !old(self).message_completed.deep_view().contains(rid) ==> (r matches Ok(
                        convs,
                    ) && {
                        &&& convs@.len() == 1
                        &&& convs@[0].event_type == UniversalEventType::ItemCompleted
                        &&& final(self).message_completed.deep_view().contains(rid)
                        &&& final(self).message_errors.deep_view().contains(rid)
                        &&& (convs@[0].data.deep_view() matches
                        crate::universal::EventDataV::Item(d) && d.item.kind == ItemKind::Message
                            && d.item.native_item_id == Some(rid) && d.item.status
                            == ItemStatus::Failed && d.item.content == seq![
                            ContentPartV::Text {
                                text: spec_update_error_text(ev, raw.deep_view()),
                            },
                        ])
                    })
                })
            }),
    {
        proof {
            lemma_update_labels_distinct();
        }
        let assistant_event = match raw.get("assistantMessageEvent") {
            Some(ev) => ev,
            None => match raw.get("assistant_message_event") {
                Some(ev) => ev,
                None => {
                    return Err(String::from_str("missing assistantMessageEvent"));
                }
            },
        };
        let sub = match assistant_event.get_text("type") {
            Some(t) => t,
            None => String::new(),
        };
        let given: Option<String> = match extract_message_id(raw) {
            Some(id) => Some(id),
            None => extract_message_id(assistant_event),
        };

        if crate::json::str_eq(sub.as_str(), "start") {
            if let Some(id) = given {
                self.last_message_id = Some(id);
            }
            let empty: Vec<EventConversion> = Vec::new();
            proof {
                assert(empty.deep_view() =~= Seq::<EventConversionV>::empty());
            }
            return Ok(empty);
        }

        let is_text = crate::json::str_eq(sub.as_str(), "text_start") || crate::json::str_eq(
            sub.as_str(),
            "text_delta",
        ) || crate::json::str_eq(sub.as_str(), "text_end");
        let is_thinking = crate::json::str_eq(sub.as_str(), "thinking_start")
            || crate::json::str_eq(sub.as_str(), "thinking_delta") || crate::json::str_eq(
            sub.as_str(),
            "thinking_end",
        );
        if is_text || is_thinking {
            let delta = match extract_delta_text(assistant_event) {
                Some(d) => d,
                None => {
                    let empty: Vec<EventConversion> = Vec::new();
                    proof {
                        assert(empty.deep_view() =~= Seq::<EventConversionV>::empty());
                    }
                    return Ok(empty);
                }
            };
            let message_id = self.ensure_message_id(given);
            if set_contains(&self.message_completed, message_id.as_str()) {
                let empty: Vec<EventConversion> = Vec::new();
                proof {
                    assert(empty.deep_view() =~= Seq::<EventConversionV>::empty());
                }
                return Ok(empty);
            }
            if is_text {
                let mut acc: String = match map_get(&self.message_text, message_id.as_str()) {
                    Some(t) => t,
                    None => String::new(),
                };
                acc.append(delta.as_str());
                map_put(&mut self.message_text, message_id.clone(), acc);
            } else {
                let mut acc: String = match map_get(
                    &self.message_reasoning,
                    message_id.as_str(),
                ) {
                    Some(t) => t,
                    None => String::new(),
                };
                acc.append(delta.as_str());
                map_put(&mut self.message_reasoning, message_id.clone(), acc);
            }
            let mut conversions: Vec<EventConversion> = Vec::new();
            proof {
                assert(conversions.deep_view() =~= Seq::<EventConversionV>::empty());
            }
            if let Some(start) = self.ensure_message_started(message_id.as_str()) {
                conversions.push(start);
            }
            conversions.push(item_delta(Some(message_id), delta));
            return Ok(conversions);
        }

        if crate::json::str_eq(sub.as_str(), "toolcall_start") || crate::json::str_eq(
            sub.as_str(),
            "toolcall_delta",
        ) || crate::json::str_eq(sub.as_str(), "toolcall_end") || crate::json::str_eq(
            sub.as_str(),
            "toolcall_args_start",
        ) || crate::json::str_eq(sub.as_str(), "toolcall_args_delta") || crate::json::str_eq(
            sub.as_str(),
            "toolcall_args_end",
        ) {
            let empty: Vec<EventConversion> = Vec::new();
            proof {
                assert(empty.deep_view() =~= Seq::<EventConversionV>::empty());
            }
            return Ok(empty);
        }

        if crate::json::str_eq(sub.as_str(), "done") {
            let message_id = self.ensure_message_id(given);
            if set_remove(&mut self.message_errors, message_id.as_str()) {
                map_remove(&mut self.message_text, message_id.as_str());
                map_remove(&mut self.message_reasoning, message_id.as_str());
                set_remove(&mut self.message_started, message_id.as_str());
                self.clear_last_message_id(Some(message_id.as_str()));
                let empty: Vec<EventConversion> = Vec::new();
                proof {
                    assert(empty.deep_view() =~= Seq::<EventConversionV>::empty());
                }
                return Ok(empty);
            }
            if set_contains(&self.message_completed, message_id.as_str()) {
                self.clear_last_message_id(Some(message_id.as_str()));
                let empty: Vec<EventConversion> = Vec::new();
                proof {
                    assert(empty.deep_view() =~= Seq::<EventConversionV>::empty());
                }
                return Ok(empty);
            }
            let message = match raw.get("message") {
                Some(m) => Some(m),
                None => assistant_event.get("message"),
            };
            let conversion = self.complete_message(Some(message_id.clone()), message);
            set_insert(&mut self.message_completed, message_id.clone());
            self.clear_last_message_id(Some(message_id.as_str()));
            return Ok(vec![conversion]);
        }

        if crate::json::str_eq(sub.as_str(), "error") {
            let message_id = self.ensure_message_id(given);
            if set_contains(&self.message_completed, message_id.as_str()) {
                self.clear_last_message_id(Some(message_id.as_str()));
                let empty: Vec<EventConversion> = Vec::new();
                proof {
                    assert(empty.deep_view() =~= Seq::<EventConversionV>::empty());
                }
                return Ok(empty);
            }
            let error_text = match assistant_event.get("error") {
                Some(e) => crate::json::value_to_string(e),
                None => match raw.get("error") {
                    Some(e) => crate::json::value_to_string(e),
                    None => String::from_str("Pi message error"),
                },
            };
            map_remove(&mut self.message_reasoning, message_id.as_str());
            map_remove(&mut self.message_text, message_id.as_str());
            set_insert(&mut self.message_errors, message_id.clone());
            set_remove(&mut self.message_started, message_id.as_str());
            set_insert(&mut self.message_completed, message_id.clone());
            self.clear_last_message_id(Some(message_id.as_str()));
            let content = vec![ContentPart::Text { text: error_text }];
            let item = message_item(Some(message_id), content, ItemStatus::Failed);
            return Ok(
                vec![
                    EventConversion::new(
                        UniversalEventType::ItemCompleted,
                        UniversalEventData::Item(ItemEventData { item }),
                    ),
                ],
            );
        }

        let mut msg = String::from_str("unsupported assistantMessageEvent: ");
        msg.append(sub.as_str());
        Err(msg)
    }

    /// A tool call ends: one completed tool-result item, failed when the
    /// payload says so; the buffers for the id are dropped. A second end for
    /// the same id yields nothing.
    fn tool_execution_end(&mut self, raw: &Json) -> (r: Result<Vec<EventConversion>, String>)
        requires
            old(self).wf(),
        ensures
            final(self).wf(),
            r matches Ok(convs) ==> forall|k1: int, k2: int|
                0 <= k1 < k2 < convs@.len() ==> !((#[trigger] convs@[k1]).event_type
                    == UniversalEventType::ItemCompleted && (#[trigger] convs@[k2]).event_type
                    == UniversalEventType::ItemCompleted),
            spec_tool_call_id_of(raw.deep_view()) is None ==> r is Err,
            spec_tool_call_id_of(raw.deep_view()) matches Some(tid) ==> ({
                &&& old(self).tool_result_completed.deep_view().contains(tid) ==> (r matches Ok(c)
                    && c.deep_view().len() == 0 && *final(self) == *old(self))
                &&& !old(self).tool_result_completed.deep_view().contains(tid) ==> (r matches Ok(
                    convs,
                ) && {
                    &&& convs@.len() == 1
                    &&& convs@[0].event_type == UniversalEventType::ItemCompleted
                    &&& convs@[0].data.deep_view() matches crate::universal::EventDataV::Item(d)
                        && d.item.kind == ItemKind::ToolResult && d.item.role == Some(
                        ItemRole::Tool,
                    ) && d.item.native_item_id == Some(tid) && d.item.status == (if json_get(
                        raw.deep_view(),
                        "isError"@,
                    ) == Some(JsonV::Bool(true)) {
                        ItemStatus::Failed
                    } else {
                        ItemStatus::Completed
                    }) && d.item.content == seq![
                        ContentPartV::ToolResult {
                            call_id: tid,
                            output: (match json_get(raw.deep_view(), "result"@) {
                                Some(res) => spec_result_content(res),
                                None => Seq::empty(),
                            }),
                        },
                    ]
                    &&& spec_map_get(final(self).tool_result_buffers.deep_view(), tid) is None
                    &&& !final(self).tool_result_started.deep_view().contains(tid)
                    &&& final(self).tool_result_completed.deep_view().contains(tid)
                })
            }),
    {
        let tool_call_id = match extract_tool_call_id(raw) {
            Some(id) => id,
            None => {
                return Err(String::from_str("missing toolCallId"));
            }
        };
        if set_contains(&self.tool_result_completed, tool_call_id.as_str()) {
            let empty: Vec<EventConversion> = Vec::new();
            proof {
                assert(empty.deep_view() =~= Seq::<EventConversionV>::empty());
            }
            return Ok(empty);
        }
        map_remove(&mut self.tool_result_buffers, tool_call_id.as_str());
        set_remove(&mut self.tool_result_started, tool_call_id.as_str());
        set_insert(&mut self.tool_result_completed, tool_call_id.clone());

        let output = match raw.get("result") {
            Some(res) => extract_result_content(res),
            None => String::new(),
        };
        let is_error = match raw.get("isError") {
            Some(v) => match v.as_bool() {
                Some(b) => b,
                None => false,
            },
            None => false,
        };
        let content = vec![
            ContentPart::ToolResult { call_id: tool_call_id.clone(), output },
        ];
        let item = UniversalItem {
            item_id: String::new(),
            native_item_id: Some(tool_call_id),
            parent_id: None,
            kind: ItemKind::ToolResult,
            role: Some(ItemRole::Tool),
            content,
            status: if is_error {
                ItemStatus::Failed
            } else {
                ItemStatus::Completed
            },
        };
        Ok(
            vec![
                EventConversion::new(
                    UniversalEventType::ItemCompleted,
                    UniversalEventData::Item(ItemEventData { item }),
                ),
            ],
        )
    }
}


/// The event types that yield a terminal status item.
pub open spec fn spec_is_status_type(ty: Seq<char>) -> bool {
    ||| ty == "agent_start"@
    ||| ty == "agent_end"@
    ||| ty == "turn_start"@
    ||| ty == "turn_end"@
    ||| ty == "auto_compaction"@
    ||| ty == "auto_compaction_start"@
    ||| ty == "auto_compaction_end"@
    ||| ty == "auto_retry"@
    ||| ty == "auto_retry_start"@
    ||| ty == "auto_retry_end"@
    ||| ty == "hook_error"@
    ||| ty == "extension_ui_request"@
    ||| ty == "extension_ui_response"@
    ||| ty == "extension_error"@
}

/// Every event type the adapter understands.
pub open spec fn spec_is_known_type(ty: Seq<char>) -> bool {
    ||| ty == "message_start"@
    ||| ty == "message_update"@
    ||| ty == "message_end"@
    ||| ty == "tool_execution_start"@
    ||| ty == "tool_execution_update"@
    ||| ty == "tool_execution_end"@
    ||| spec_is_status_type(ty)
}

impl PiEventConverter {
    /// Translates one wire event into zero or more universal events, each
    /// stamped with the backend session id the payload carries. At most one
    /// completion is ever emitted per event; a completed message or tool
    /// call id yields nothing further until it is started anew.
    #[verifier::rlimit(100)]
    pub fn event_value_to_universal(&mut self, raw: &Json) -> (r: Result<
        Vec<EventConversion>,
        String,
    >)
        requires
            old(self).wf(),
            old(self).message_counter < u64::MAX,
        ensures
            final(self).wf(),
            spec_event_type(raw.deep_view()) is None ==> r is Err,
            spec_event_type(raw.deep_view()) matches Some(ty) ==> (!spec_is_known_type(ty) ==> r
                is Err),
            r matches Ok(convs) ==> forall|k: int|
                0 <= k < convs@.len() ==> (#[trigger] convs@[k]).agent_session_id.deep_view()
                    == spec_session_id_of(raw.deep_view()),
            r matches Ok(convs) ==> forall|k1: int, k2: int|
                0 <= k1 < k2 < convs@.len() ==> !((#[trigger] convs@[k1]).event_type
                    == UniversalEventType::ItemCompleted && (#[trigger] convs@[k2]).event_type
                    == UniversalEventType::ItemCompleted),
            spec_event_type(raw.deep_view()) matches Some(ty) ==> (spec_is_status_type(ty) ==> (r
                matches Ok(convs) && convs@.len() == 1 && convs@[0].event_type
                == UniversalEventType::ItemCompleted && (convs@[0].data.deep_view() matches
            crate::universal::EventDataV::Item(d) && d.item.kind == ItemKind::Status
                && d.item.content.len() == 1 && (d.item.content[0] matches ContentPartV::Status {
                label,
                ..
            } && label == spec_pi_status_label(ty))))),
            spec_event_type(raw.deep_view()) == Some("message_start"@) ==> (r is Ok),
            spec_event_type(raw.deep_view()) == Some("message_start"@) ==> (spec_is_user_role(raw.deep_view()) ==> (r matches Ok(c) && c.deep_view().len() == 0
                && *final(self) == *old(self))),
            spec_event_type(raw.deep_view()) == Some("message_start"@) ==> (!spec_is_user_role(raw.deep_view()) ==> ({
                let rid = spec_resolved_id(
                    old(self).last_message_id.deep_view(),
                    old(self).message_counter,
                    spec_message_id_of(raw.deep_view()),
                );
                let content0 = spec_start_content(raw.deep_view());
                r matches Ok(convs) && {
                    &&& convs@.len() == 1
                    &&& convs@[0].event_type == UniversalEventType::ItemStarted
                    &&& convs@[0].data.deep_view() matches crate::universal::EventDataV::Item(d)
                        && d.item.kind == ItemKind::Message && d.item.role == Some(
                        ItemRole::Assistant,
                    ) && d.item.status == ItemStatus::InProgress && d.item.native_item_id == Some(
                        rid,
                    ) && d.item.content == content0
                    &&& !final(self).message_completed.deep_view().contains(rid)
                    &&& forall|x: Seq<char>|
                        x != rid ==> final(self).message_completed.deep_view().contains(x) == old(self).message_completed.deep_view().contains(x)
                    &&& final(self).message_started.deep_view().contains(rid)
                    &&& spec_map_get(final(self).message_text.deep_view(), rid) == Some(
                        (match spec_map_get(old(self).message_text.deep_view(), rid) {
                            Some(t) => t,
                            None => Seq::empty(),
                        }) + spec_texts_of(content0),
                    )
                }
            })),
            spec_event_type(raw.deep_view()) == Some("message_update"@) ==> (spec_assistant_event(raw.deep_view()) is None ==> r is Err),
            spec_event_type(raw.deep_view()) == Some("message_update"@) ==> (spec_assistant_event(raw.deep_view()) matches Some(ev) ==> ({
                let sub = spec_text_at(ev, "type"@);
                let given = if spec_message_id_of(raw.deep_view()) is Some {
                    spec_message_id_of(raw.deep_view())
                } else {
                    spec_message_id_of(ev)
                };
                &&& sub == Some("start"@) ==> (r matches Ok(c) && c.deep_view().len() == 0)
                &&& (sub == Some("text_start"@) || sub == Some("text_delta"@) || sub == Some(
                    "text_end"@,
                ) || sub == Some("thinking_start"@) || sub == Some("thinking_delta"@) || sub
                    == Some("thinking_end"@)) ==> ({
                    let rid = spec_resolved_id(
                        old(self).last_message_id.deep_view(),
                        old(self).message_counter,
                        given,
                    );
                    &&& spec_delta_text(ev) is None ==> (r matches Ok(c) && c.deep_view().len()
                        == 0 && *final(self) == *old(self))
                    &&& spec_delta_text(ev) matches Some(d) ==> (old(
                        self,
                    ).message_completed.deep_view().contains(rid) ==> (r matches Ok(c)
                        && c.deep_view().len() == 0 && final(self).message_completed.deep_view().contains(rid)))
                    &&& spec_delta_text(ev) matches Some(d) ==> (!old(
                        self,
                    ).message_completed.deep_view().contains(rid) ==> (r matches Ok(convs) && {
                        &&& convs@.len() == (if old(self).message_started.deep_view().contains(rid) {
                            1int
                        } else {
                            2int
                        })
                        &&& convs@.last().event_type == UniversalEventType::ItemDelta
                        &&& (convs@.last().data.deep_view() matches
                        crate::universal::EventDataV::ItemDelta(dd) && dd.native_item_id == Some(
                            rid,
                        ) && dd.delta == d)
                        &&& convs@.len() == 2 ==> convs@[0].event_type
                            == UniversalEventType::ItemStarted
                        &&& forall|k: int|
                            0 <= k < convs@.len() ==> (#[trigger] convs@[k]).event_type
                                != UniversalEventType::ItemCompleted
                        &&& (sub == Some("text_start"@) || sub == Some("text_delta"@) || sub
                            == Some("text_end"@)) ==> spec_map_get(
                            final(self).message_text.deep_view(),
                            rid,
                        ) == Some(
                            (match spec_map_get(old(self).message_text.deep_view(), rid) {
                                Some(t) => t,
                                None => Seq::empty(),
                            }) + d,
                        )
                    }))
                })
                &&& sub == Some("done"@) ==> ({
                    let rid = spec_resolved_id(
                        old(self).last_message_id.deep_view(),
                        old(self).message_counter,
                        given,
                    );
                    &&& old(self).message_errors.deep_view().contains(rid) ==> (r matches Ok(c)
                        && c.deep_view().len() == 0)
                    &&& !old(self).message_errors.deep_view().contains(rid) && old(self).message_completed.deep_view().contains(rid) ==> (r matches Ok(c)
                        && c.deep_view().len() == 0 && final(self).message_completed.deep_view().contains(rid))
                    &&& !old(self).message_errors.deep_view().contains(rid) && !old(self).message_completed.deep_view().contains(rid) ==> (r matches Ok(convs) && {
                        let done_msg = if json_get(raw.deep_view(), "message"@) is Some {
                            json_get(raw.deep_view(), "message"@)
                        } else {
                            json_get(ev, "message"@)
                        };
                        &&& convs@.len() == 1
                        &&& convs@[0].event_type == UniversalEventType::ItemCompleted
                        &&& final(self).message_completed.deep_view().contains(rid)
                        &&& (convs@[0].data.deep_view() matches
                        crate::universal::EventDataV::Item(d) && d.item.kind == ItemKind::Message
                            && d.item.native_item_id == Some(rid) && d.item.status == (if
                        spec_message_failed(done_msg) {
                            ItemStatus::Failed
                        } else {
                            ItemStatus::Completed
                        }) && d.item.content == spec_completion_content(
                            done_msg,
                            spec_map_get(old(self).message_text.deep_view(), rid),
                            spec_map_get(old(self).message_reasoning.deep_view(), rid),
                        ))
                    })
                })
                &&& sub == Some("error"@) ==> ({
                    let rid = spec_resolved_id(
                        old(self).last_message_id.deep_view(),
                        old(self).message_counter,
                        given,
                    );
                    &&& old(self).message_completed.deep_view().contains(rid) ==> (r matches Ok(c)
                        && c.deep_view().len() == 0 && final(self).message_completed.deep_view().contains(rid))
                    &&& !old(self).message_completed.deep_view().contains(rid) ==> (r matches Ok(
                        convs,
                    ) && {
                        &&& convs@.len() == 1
                        &&& convs@[0].event_type == UniversalEventType::ItemCompleted
                        &&& final(self).message_completed.deep_view().contains(rid)
                        &&& final(self).message_errors.deep_view().contains(rid)
                        &&& (convs@[0].data.deep_view() matches
                        crate::universal::EventDataV::Item(d) && d.item.kind == ItemKind::Message
                            && d.item.native_item_id == Some(rid) && d.item.status
                            == ItemStatus::Failed && d.item.content == seq![
                            ContentPartV::Text {
                                text: spec_update_error_text(ev, raw.deep_view()),
                            },
                        ])
                    })
                })
            })),
            spec_event_type(raw.deep_view()) == Some("message_end"@) ==> (r is Ok),
            spec_event_type(raw.deep_view()) == Some("message_end"@) ==> (spec_is_user_role(raw.deep_view()) ==> (r matches Ok(c) && c.deep_view().len() == 0
                && *final(self) == *old(self))),
            spec_event_type(raw.deep_view()) == Some("message_end"@) ==> (!spec_is_user_role(raw.deep_view()) ==> ({
                let rid = spec_resolved_id(
                    old(self).last_message_id.deep_view(),
                    old(self).message_counter,
                    spec_message_id_of(raw.deep_view()),
                );
                &&& old(self).message_errors.deep_view().contains(rid) ==> (r matches Ok(c)
                    && c.deep_view().len() == 0 && !final(self).message_errors.deep_view().contains(
                    rid,
                ))
                &&& !old(self).message_errors.deep_view().contains(rid) && old(self).message_completed.deep_view().contains(rid) ==> (r matches Ok(c)
                    && c.deep_view().len() == 0 && final(self).message_completed.deep_view().contains(rid))
                &&& !old(self).message_errors.deep_view().contains(rid) && !old(self).message_completed.deep_view().contains(rid) ==> (r matches Ok(convs) && {
                    &&& convs@.len() == 1
                    &&& convs@[0].event_type == UniversalEventType::ItemCompleted
                    &&& final(self).message_completed.deep_view().contains(rid)
                    &&& convs@[0].data.deep_view() matches crate::universal::EventDataV::Item(d)
                        && d.item.kind == ItemKind::Message && d.item.native_item_id == Some(rid)
                        && d.item.status == (if spec_message_failed(
                        json_get(raw.deep_view(), "message"@),
                    ) {
                        ItemStatus::Failed
                    } else {
                        ItemStatus::Completed
                    }) && d.item.content == spec_completion_content(
                        json_get(raw.deep_view(), "message"@),
                        spec_map_get(old(self).message_text.deep_view(), rid),
                        spec_map_get(old(self).message_reasoning.deep_view(), rid),
                    )
                })
            })),
            spec_event_type(raw.deep_view()) == Some("tool_execution_start"@) ==> (spec_tool_call_id_of(raw.deep_view()) is None ==> r is Err),
            spec_event_type(raw.deep_view()) == Some("tool_execution_start"@) ==> (spec_tool_call_id_of(raw.deep_view()) matches Some(tid) ==> (r matches Ok(convs) && {
                &&& convs@.len() == 1
                &&& convs@[0].event_type == UniversalEventType::ItemStarted
                &&& convs@[0].data.deep_view() matches crate::universal::EventDataV::Item(d)
                    && d.item.kind == ItemKind::ToolCall && d.item.role == Some(
                    ItemRole::Assistant,
                ) && d.item.status == ItemStatus::InProgress && d.item.native_item_id == Some(tid)
                    && d.item.content == seq![
                    ContentPartV::ToolCall {
                        name: (match spec_tool_name_of(raw.deep_view()) {
                            Some(n) => n,
                            None => "tool"@,
                        }),
                        arguments: spec_tool_args(raw.deep_view()),
                        call_id: tid,
                    },
                ]
                &&& !final(self).tool_result_completed.deep_view().contains(tid)
            })),
            spec_event_type(raw.deep_view()) == Some("tool_execution_update"@) ==> (r is Ok),
            spec_event_type(raw.deep_view()) == Some("tool_execution_update"@) ==> (spec_tool_call_id_of(raw.deep_view()) is None ==> (r matches Ok(c) && c.deep_view().len()
                == 0 && *final(self) == *old(self))),
            spec_event_type(raw.deep_view()) == Some("tool_execution_update"@) ==> (spec_tool_call_id_of(raw.deep_view()) matches Some(tid) ==> ({
                let partial = if json_get(raw.deep_view(), "partialResult"@) is Some {
                    json_get(raw.deep_view(), "partialResult"@)
                } else {
                    json_get(raw.deep_view(), "partial_result"@)
                };
                &&& partial is None ==> (r matches Ok(c) && c.deep_view().len() == 0 && *final(self)
                    == *old(self))
                &&& partial matches Some(pv) ==> ({
                    let p = spec_value_to_string(pv);
                    let prior = match spec_map_get(old(self).tool_result_buffers.deep_view(), tid) {
                        Some(b) => b,
                        None => Seq::empty(),
                    };
                    let d = crate::text::spec_delta(prior, p);
                    let started = old(self).tool_result_started.deep_view().contains(tid);
                    r matches Ok(convs) && {
                        &&& spec_map_get(final(self).tool_result_buffers.deep_view(), tid) == Some(
                            p,
                        )
                        &&& forall|x: Seq<char>|
                            x != tid ==> spec_map_get(
                                final(self).tool_result_buffers.deep_view(),
                                x,
                            ) == spec_map_get(old(self).tool_result_buffers.deep_view(), x)
                        &&& final(self).tool_result_started.deep_view().contains(tid)
                        &&& convs@.len() == (if started {
                            0int
                        } else {
                            1int
                        }) + (if d.len() == 0 {
                            0int
                        } else {
                            1int
                        })
                        &&& !started ==> convs@[0].event_type == UniversalEventType::ItemStarted
                            && convs@[0].synthetic && (convs@[0].data.deep_view() matches
                        crate::universal::EventDataV::Item(dd) && dd.item.kind
                            == ItemKind::ToolResult && dd.item.role == Some(ItemRole::Tool)
                            && dd.item.status == ItemStatus::InProgress && dd.item.native_item_id
                            == Some(tid))
                        &&& d.len() > 0 ==> convs@.last().event_type
                            == UniversalEventType::ItemDelta && (convs@.last().data.deep_view()
                        matches crate::universal::EventDataV::ItemDelta(dd) && dd.native_item_id
                            == Some(tid) && dd.delta == d)
                        &&& forall|k: int|
                            0 <= k < convs@.len() ==> (#[trigger] convs@[k]).event_type
                                != UniversalEventType::ItemCompleted
                    }
                })
            })),
            spec_event_type(raw.deep_view()) == Some("tool_execution_end"@) ==> (spec_tool_call_id_of(raw.deep_view()) is None ==> r is Err),
            spec_event_type(raw.deep_view()) == Some("tool_execution_end"@) ==> (spec_tool_call_id_of(raw.deep_view()) matches Some(tid) ==> ({
                &&& old(self).tool_result_completed.deep_view().contains(tid) ==> (r matches Ok(c)
                    && c.deep_view().len() == 0 && *final(self) == *old(self))
                &&& !old(self).tool_result_completed.deep_view().contains(tid) ==> (r matches Ok(
                    convs,
                ) && {
                    &&& convs@.len() == 1
                    &&& convs@[0].event_type == UniversalEventType::ItemCompleted
                    &&& convs@[0].data.deep_view() matches crate::universal::EventDataV::Item(d)
                        && d.item.kind == ItemKind::ToolResult && d.item.role == Some(
                        ItemRole::Tool,
                    ) && d.item.native_item_id == Some(tid) && d.item.status == (if json_get(
                        raw.deep_view(),
                        "isError"@,
                    ) == Some(JsonV::Bool(true)) {
                        ItemStatus::Failed
                    } else {
                        ItemStatus::Completed
                    }) && d.item.content == seq![
                        ContentPartV::ToolResult {
                            call_id: tid,
                            output: (match json_get(raw.deep_view(), "result"@) {
                                Some(res) => spec_result_content(res),
                                None => Seq::empty(),
                            }),
                        },
                    ]
                    &&& spec_map_get(final(self).tool_result_buffers.deep_view(), tid) is None
                    &&& !final(self).tool_result_started.deep_view().contains(tid)
                    &&& final(self).tool_result_completed.deep_view().contains(tid)
                })
            })),
    {
        proof {
            lemma_event_labels_distinct();
        }
        let ty = match raw.get_text("type") {
            Some(t) => t,
            None => {
                return Err(String::from_str("missing event type"));
            }
        };
        let native_session_id = extract_session_id(raw);

        let conversions = if crate::json::str_eq(ty.as_str(), "message_start") {
            self.message_start(raw)
        } else if crate::json::str_eq(ty.as_str(), "message_update") {
            self.message_update(raw)
        } else if crate::json::str_eq(ty.as_str(), "message_end") {
            self.message_end(raw)
        } else if crate::json::str_eq(ty.as_str(), "tool_execution_start") {
            self.tool_execution_start(raw)
        } else if crate::json::str_eq(ty.as_str(), "tool_execution_update") {
            self.tool_execution_update(raw)
        } else if crate::json::str_eq(ty.as_str(), "tool_execution_end") {
            self.tool_execution_end(raw)
        } else if crate::json::str_eq(ty.as_str(), "agent_start") || crate::json::str_eq(
            ty.as_str(),
            "agent_end",
        ) || crate::json::str_eq(ty.as_str(), "turn_start") || crate::json::str_eq(
            ty.as_str(),
            "turn_end",
        ) || crate::json::str_eq(ty.as_str(), "auto_compaction") || crate::json::str_eq(
            ty.as_str(),
            "auto_compaction_start",
        ) || crate::json::str_eq(ty.as_str(), "auto_compaction_end") || crate::json::str_eq(
            ty.as_str(),
            "auto_retry",
        ) || crate::json::str_eq(ty.as_str(), "auto_retry_start") || crate::json::str_eq(
            ty.as_str(),
            "auto_retry_end",
        ) || crate::json::str_eq(ty.as_str(), "hook_error") || crate::json::str_eq(
            ty.as_str(),
            "extension_ui_request",
        ) || crate::json::str_eq(ty.as_str(), "extension_ui_response") || crate::json::str_eq(
            ty.as_str(),
            "extension_error",
        ) {
            let one = vec![status_event(ty.as_str(), raw)];
            Ok(one)
        } else {
            let mut msg = String::from_str("unsupported Pi event type: ");
            msg.append(ty.as_str());
            Err(msg)
        };
        let conversions = match conversions {
            Ok(c) => c,
            Err(e) => {
                return Err(e);
            }
        };

        let mut out: Vec<EventConversion> = Vec::new();
        let mut i: usize = 0;
        proof {
            assert(out.deep_view() =~= Seq::<EventConversionV>::empty());
        }
        while i < conversions.len()
            invariant
                0 <= i <= conversions@.len(),
                out@.len() == i as int,
                forall|k: int|
                    0 <= k < i ==> (#[trigger] out@[k]).event_type == conversions@[k].event_type,
                forall|k: int|
                    0 <= k < i ==> (#[trigger] out@[k]).data.deep_view()
                        == conversions@[k].data.deep_view(),
                forall|k: int|
                    0 <= k < i ==> (#[trigger] out@[k]).agent_session_id.deep_view()
                        == native_session_id.deep_view(),
                forall|k: int| 0 <= k < i ==> (#[trigger] out@[k]).synthetic == conversions@[k].synthetic,
            decreases conversions@.len() - i,
        {
            let conv = conversions[i].clone().with_session(
                crate::universal::clone_opt_string(&native_session_id),
            );
            out.push(conv);
            i = i + 1;
        }
        Ok(out)
    }

    /// Translates one wire event held as a document.
    pub fn event_to_universal(&mut self, event: &Json) -> (r: Result<
        Vec<EventConversion>,
        String,
    >)
        requires
            old(self).wf(),
            old(self).message_counter < u64::MAX,
        ensures
            final(self).wf(),
            spec_event_type(event.deep_view()) is None ==> r is Err,
    {
        self.event_value_to_universal(event)
    }
}

/// Translates one wire event with a converter that has seen nothing yet.
pub fn event_value_to_universal(raw: &Json) -> (r: Result<Vec<EventConversion>, String>)
    ensures
        spec_event_type(raw.deep_view()) is None ==> r is Err,
{
    let mut converter = PiEventConverter::new();
    converter.event_value_to_universal(raw)
}

// ---------------------------------------------------------------------------
// The delta law.
// ---------------------------------------------------------------------------

/// The deltas a run of partial results emits, starting from a prior buffer.
pub open spec fn spec_deltas(prev: Seq<char>, ps: Seq<Seq<char>>) -> Seq<char>
    decreases ps.len(),
{
    if ps.len() == 0 {
        Seq::empty()
    } else {
        crate::text::spec_delta(prev, ps[0]) + spec_deltas(ps[0], ps.skip(1))
    }
}

/// Law: when every partial result in a run extends the one before it (and
/// the first extends the prior buffer), the emitted deltas concatenate to
/// exactly the last partial. With an empty prior buffer this says the deltas
/// reassemble the final result.
pub proof fn lemma_deltas_accumulate(prev: Seq<char>, ps: Seq<Seq<char>>)
    requires
        ps.len() > 0,
        is_prefix_of(prev, ps[0]),
        forall|i: int| 0 <= i < ps.len() - 1 ==> is_prefix_of(#[trigger] ps[i], ps[i + 1]),
    ensures
        prev + spec_deltas(prev, ps) == ps.last(),
    decreases ps.len(),
{
    assert(prev + crate::text::spec_delta(prev, ps[0]) =~= ps[0]);
    if ps.len() == 1 {
        assert(ps.skip(1) =~= Seq::<Seq<char>>::empty());
        assert(spec_deltas(ps[0], ps.skip(1)) =~= Seq::<char>::empty());
        assert(crate::text::spec_delta(prev, ps[0]) + Seq::<char>::empty() =~= crate::text::spec_delta(
            prev,
            ps[0],
        ));
        assert(prev + spec_deltas(prev, ps) =~= ps[0]);
    } else {
        let rest = ps.skip(1);
        assert(forall|i: int| 0 <= i < rest.len() ==> (#[trigger] rest[i]) == ps[i + 1]);
        assert(is_prefix_of(ps[0], rest[0]));
        lemma_deltas_accumulate(ps[0], rest);
        assert(rest.last() == ps.last());
        assert(prev + spec_deltas(prev, ps) =~= (prev + crate::text::spec_delta(prev, ps[0]))
            + spec_deltas(ps[0], rest));
        assert((prev + crate::text::spec_delta(prev, ps[0])) + spec_deltas(ps[0], rest) == ps[0]
            + spec_deltas(ps[0], rest));
    }
}


/// The handler event labels are pairwise distinct, and none of them is a
/// terminal status label.
proof fn lemma_event_labels_distinct()
    ensures
        "message_start"@ != "message_update"@,
        "message_start"@ != "message_end"@,
        "message_start"@ != "tool_execution_start"@,
        "message_start"@ != "tool_execution_update"@,
        "message_start"@ != "tool_execution_end"@,
        "message_update"@ != "message_end"@,
        "message_update"@ != "tool_execution_start"@,
        "message_update"@ != "tool_execution_update"@,
        "message_update"@ != "tool_execution_end"@,
        "message_end"@ != "tool_execution_start"@,
        "message_end"@ != "tool_execution_update"@,
        "message_end"@ != "tool_execution_end"@,
        "tool_execution_start"@ != "tool_execution_update"@,
        "tool_execution_start"@ != "tool_execution_end"@,
        "tool_execution_update"@ != "tool_execution_end"@,
        !spec_is_status_type("message_start"@),
        !spec_is_status_type("message_update"@),
        !spec_is_status_type("message_end"@),
        !spec_is_status_type("tool_execution_start"@),
        !spec_is_status_type("tool_execution_update"@),
        !spec_is_status_type("tool_execution_end"@),
{
    reveal_strlit("message_start");
    reveal_strlit("message_update");
    reveal_strlit("message_end");
    reveal_strlit("tool_execution_start");
    reveal_strlit("tool_execution_update");
    reveal_strlit("tool_execution_end");
    reveal_strlit("agent_start");
    reveal_strlit("agent_end");
    reveal_strlit("turn_start");
    reveal_strlit("turn_end");
    reveal_strlit("auto_compaction");
    reveal_strlit("auto_compaction_start");
    reveal_strlit("auto_compaction_end");
    reveal_strlit("auto_retry");
    reveal_strlit("auto_retry_start");
    reveal_strlit("auto_retry_end");
    reveal_strlit("hook_error");
    reveal_strlit("extension_ui_request");
    reveal_strlit("extension_ui_response");
    reveal_strlit("extension_error");
    assert("message_start"@.len() == 13);
    assert("message_update"@.len() == 14);
    assert("message_end"@.len() == 11);
    assert("tool_execution_start"@.len() == 20);
    assert("tool_execution_update"@.len() == 21);
    assert("tool_execution_end"@.len() == 18);
    assert("agent_start"@.len() == 11);
    assert("agent_end"@.len() == 9);
    assert("turn_start"@.len() == 10);
    assert("turn_end"@.len() == 8);
    assert("auto_compaction"@.len() == 15);
    assert("auto_compaction_start"@.len() == 21);
    assert("auto_compaction_end"@.len() == 19);
    assert("auto_retry"@.len() == 10);
    assert("auto_retry_start"@.len() == 16);
    assert("auto_retry_end"@.len() == 14);
    assert("hook_error"@.len() == 10);
    assert("extension_ui_request"@.len() == 20);
    assert("extension_ui_response"@.len() == 21);
    assert("extension_error"@.len() == 15);
    assert("message_end"@[0] == 'm');
    assert("agent_start"@[0] == 'a');
    assert("message_update"@[0] == 'm');
    assert("auto_retry_end"@[0] == 'a');
    assert("tool_execution_start"@[0] == 't');
    assert("extension_ui_request"@[0] == 'e');
    assert("tool_execution_update"@[0] == 't');
    assert("auto_compaction_start"@[0] == 'a');
    assert("extension_ui_response"@[0] == 'e');
}

/// The assistant sub-event labels are pairwise distinct where the update
/// handler's cases must tell them apart.
proof fn lemma_update_labels_distinct()
    ensures
        "start"@ != "text_start"@,
        "start"@ != "text_delta"@,
        "start"@ != "text_end"@,
        "start"@ != "thinking_start"@,
        "start"@ != "thinking_delta"@,
        "start"@ != "thinking_end"@,
        "start"@ != "done"@,
        "start"@ != "error"@,
        "done"@ != "error"@,
        "text_start"@ != "done"@,
        "text_delta"@ != "done"@,
        "text_end"@ != "done"@,
        "thinking_start"@ != "done"@,
        "thinking_delta"@ != "done"@,
        "thinking_end"@ != "done"@,
        "text_start"@ != "error"@,
        "text_delta"@ != "error"@,
        "text_end"@ != "error"@,
        "thinking_start"@ != "error"@,
        "thinking_delta"@ != "error"@,
        "thinking_end"@ != "error"@,
        "toolcall_start"@ != "done"@,
        "toolcall_delta"@ != "done"@,
        "toolcall_end"@ != "done"@,
        "toolcall_args_start"@ != "done"@,
        "toolcall_args_delta"@ != "done"@,
        "toolcall_args_end"@ != "done"@,
        "toolcall_start"@ != "error"@,
        "toolcall_delta"@ != "error"@,
        "toolcall_end"@ != "error"@,
        "toolcall_args_start"@ != "error"@,
        "toolcall_args_delta"@ != "error"@,
        "toolcall_args_end"@ != "error"@,
{
    reveal_strlit("start");
    reveal_strlit("text_start");
    reveal_strlit("text_delta");
    reveal_strlit("text_end");
    reveal_strlit("thinking_start");
    reveal_strlit("thinking_delta");
    reveal_strlit("thinking_end");
    reveal_strlit("done");
    reveal_strlit("error");
    assert("start"@.len() == 5);
    assert("text_start"@.len() == 10);
    assert("text_delta"@.len() == 10);
    assert("text_end"@.len() == 8);
    assert("thinking_start"@.len() == 14);
    assert("thinking_delta"@.len() == 14);
    assert("thinking_end"@.len() == 12);
    assert("done"@.len() == 4);
    assert("error"@.len() == 5);
    reveal_strlit("toolcall_start");
    reveal_strlit("toolcall_delta");
    reveal_strlit("toolcall_end");
    reveal_strlit("toolcall_args_start");
    reveal_strlit("toolcall_args_delta");
    reveal_strlit("toolcall_args_end");
    assert("toolcall_start"@.len() == 14);
    assert("toolcall_delta"@.len() == 14);
    assert("toolcall_end"@.len() == 12);
    assert("toolcall_args_start"@.len() == 19);
    assert("toolcall_args_delta"@.len() == 19);
    assert("toolcall_args_end"@.len() == 17);
    assert("start"@[0] == 's');
    assert("error"@[0] == 'e');
    assert("text_start"@[5] == 's');
    assert("text_delta"@[5] == 'd');
    assert("thinking_start"@[9] == 's');
    assert("thinking_delta"@[9] == 'd');
}

} // verus!
