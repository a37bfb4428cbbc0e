use vstd::prelude::*;

use crate::json::{json_get, spec_text_at, Json, JsonV};
use crate::universal::{
    extract_message_from_value, text_only_from_parts, AttachmentSource, AttachmentSourceV,
    ConversionError, CrashInfoV, EventConversion, MessageV, ParsedV, PartV, QuestionInfo,
    QuestionInfoV, QuestionOption, QuestionOptionV, QuestionRequest, QuestionRequestV,
    QuestionToolRef, PermissionRequest, PermissionRequestV, PermissionToolRef, StartedV,
    EventConversionV, UniversalEventData, UniversalEventType, UniversalMessage,
    UniversalMessageParsed, UniversalMessagePart,
};

verus! {

// ---------------------------------------------------------------------------
// Events arriving over the sidecar's event bus.
// ---------------------------------------------------------------------------

proof fn lemma_opencode_labels_distinct()
    ensures
        "message.updated"@ != "message.part.updated"@,
        "message.updated"@ != "question.asked"@,
        "message.updated"@ != "permission.asked"@,
        "message.updated"@ != "session.created"@,
        "message.updated"@ != "session.error"@,
        "message.part.updated"@ != "question.asked"@,
        "message.part.updated"@ != "permission.asked"@,
        "message.part.updated"@ != "session.created"@,
        "message.part.updated"@ != "session.error"@,
        "question.asked"@ != "permission.asked"@,
        "question.asked"@ != "session.created"@,
        "question.asked"@ != "session.error"@,
        "permission.asked"@ != "session.created"@,
        "permission.asked"@ != "session.error"@,
        "session.created"@ != "session.error"@,
        "text"@ != "file"@,
        "text"@ != "tool"@,
        "file"@ != "tool"@,
        "pending"@ != "running"@,
        "pending"@ != "completed"@,
        "pending"@ != "error"@,
        "running"@ != "completed"@,
        "running"@ != "error"@,
        "completed"@ != "error"@,
{
    reveal_strlit("message.updated");
    reveal_strlit("message.part.updated");
    reveal_strlit("question.asked");
    reveal_strlit("permission.asked");
    reveal_strlit("session.created");
    reveal_strlit("session.error");
    reveal_strlit("text");
    reveal_strlit("file");
    reveal_strlit("tool");
    reveal_strlit("pending");
    reveal_strlit("running");
    reveal_strlit("completed");
    reveal_strlit("error");
    assert("message.updated"@.len() == 15);
    assert("message.part.updated"@.len() == 20);
    assert("question.asked"@.len() == 14);
    assert("permission.asked"@.len() == 16);
    assert("session.created"@.len() == 15);
    assert("session.error"@.len() == 13);
    assert("message.updated"@[0] == 'm');
    assert("session.created"@[0] == 's');
    assert("text"@.len() == 4);
    assert("file"@.len() == 4);
    assert("tool"@.len() == 4);
    assert("text"@[0] == 't');
    assert("file"@[0] == 'f');
    assert("tool"@[1] == 'o');
    assert("text"@[1] == 'e');
    assert("pending"@.len() == 7);
    assert("running"@.len() == 7);
    assert("completed"@.len() == 9);
    assert("error"@.len() == 5);
    assert("pending"@[0] == 'p');
    assert("running"@[0] == 'r');
}

/// The metadata a message info carries: every member except its role, id and
/// session id.
pub open spec fn spec_info_metadata(entries: Seq<(Seq<char>, JsonV)>) -> Seq<(Seq<char>, JsonV)>
    decreases entries.len(),
{
    if entries.len() == 0 {
        Seq::empty()
    } else {
        (if entries[0].0 == "role"@ || entries[0].0 == "id"@ || entries[0].0 == "sessionID"@ {
            Seq::empty()
        } else {
            seq![entries[0]]
        }) + spec_info_metadata(entries.skip(1))
    }
}

/// A message info translated: its role and id kept, every other member as
/// metadata, and no parts of its own.
pub open spec fn spec_info_message(info: JsonV, p: ParsedV) -> bool {
    &&& p.role == (match spec_text_at(info, "role"@) {
        Some(x) => x,
        None => "assistant"@,
    })
    &&& p.id == spec_text_at(info, "id"@)
    &&& p.parts == Seq::<PartV>::empty()
    &&& (info matches JsonV::Obj(entries) ==> p.metadata == spec_info_metadata(entries))
}

/// A message info as a universal message: its role and id, with every other
/// member carried as metadata; the message's own parts arrive separately.
#[verifier::loop_isolation(false)]
pub fn message_from_opencode(info: &Json) -> (r: (UniversalMessage, Option<String>))
    ensures
        r.0.deep_view() matches MessageV::Parsed(p) && spec_info_message(info.deep_view(), p),
        r.1.deep_view() == spec_text_at(info.deep_view(), "sessionID"@),
{
    proof {
        lemma_meta_keys_distinct();
    }
    let role = match info.get_text("role") {
        Some(x) => x,
        None => String::from_str("assistant"),
    };
    let id = info.get_text("id");
    let session_id = info.get_text("sessionID");
    let mut metadata: Vec<(String, Json)> = Vec::new();
    proof {
        assert(metadata.deep_view() =~= Seq::<(Seq<char>, JsonV)>::empty());
    }
    match info {
        Json::Obj(entries) => {
            let ghost ev = crate::json::jv_obj(entries@);
            proof {
                crate::json::lemma_jv_obj(entries@);
                assert(ev.skip(0) =~= ev);
            }
            let mut i: usize = 0;
            while i < entries.len()
                invariant
                    0 <= i <= entries@.len(),
                    ev.len() == entries@.len(),
                    forall|j: int|
                        0 <= j < entries@.len() ==> ev[j] == (
                            entries@[j].0@,
                            entries@[j].1.deep_view(),
                        ),
                    spec_info_metadata(ev) == metadata.deep_view() + spec_info_metadata(
                        ev.skip(i as int),
                    ),
                decreases entries@.len() - i,
            {
                let ghost m0 = metadata.deep_view();
                proof {
                    assert(ev.skip(i as int)[0] == ev[i as int]);
                    assert(ev.skip(i as int).skip(1) =~= ev.skip(i as int + 1));
                }
                let key = &entries[i].0;
                let skip_key = crate::json::str_eq(key.as_str(), "role") || crate::json::str_eq(
                    key.as_str(),
                    "id",
                ) || crate::json::str_eq(key.as_str(), "sessionID");
                if !skip_key {
                    metadata.push((key.clone(), entries[i].1.clone()));
                    proof {
                        assert(metadata.deep_view() =~= m0 + seq![metadata.deep_view().last()]);
                    }
                }
                i = i + 1;
            }
            proof {
                assert(ev.skip(ev.len() as int) =~= Seq::<(Seq<char>, JsonV)>::empty());
                assert(metadata.deep_view() + Seq::<(Seq<char>, JsonV)>::empty()
                    =~= metadata.deep_view());
            }
        }
        _ => {}
    }
    let parts: Vec<UniversalMessagePart> = Vec::new();
    proof {
        assert(parts.deep_view() =~= Seq::<PartV>::empty());
    }
    let message = UniversalMessage::Parsed(
        UniversalMessageParsed { role, id, metadata, parts },
    );
    (message, session_id)
}

proof fn lemma_meta_keys_distinct()
    ensures
        "role"@ != "id"@,
        "role"@ != "sessionID"@,
        "id"@ != "sessionID"@,
{
    reveal_strlit("role");
    reveal_strlit("id");
    reveal_strlit("sessionID");
    assert("role"@.len() == 4);
    assert("id"@.len() == 2);
    assert("sessionID"@.len() == 9);
}

/// A file part as an attachment: an image part when its mime type says so,
/// else a plain file.
pub open spec fn spec_file_part(part: JsonV) -> PartV {
    let url = match spec_text_at(part, "url"@) {
        Some(u) => u,
        None => Seq::empty(),
    };
    let mime = match spec_text_at(part, "mime"@) {
        Some(m) => m,
        None => Seq::empty(),
    };
    if crate::text::is_prefix_of("image/"@, mime) {
        PartV::Image {
            source: AttachmentSourceV::Url { url },
            mime_type: Some(mime),
            alt: spec_text_at(part, "filename"@),
            raw: Some(part),
        }
    } else {
        PartV::File {
            source: AttachmentSourceV::Url { url },
            mime_type: Some(mime),
            filename: spec_text_at(part, "filename"@),
            raw: Some(part),
        }
    }
}

fn file_part_to_universal_part(part: &Json) -> (r: UniversalMessagePart)
    ensures
        r.deep_view() == spec_file_part(part.deep_view()),
{
    let url = match part.get_text("url") {
        Some(u) => u,
        None => String::new(),
    };
    let mime = match part.get_text("mime") {
        Some(m) => m,
        None => String::new(),
    };
    let filename = part.get_text("filename");
    let source = AttachmentSource::Url { url };
    if crate::text::str_starts_with(mime.as_str(), "image/") {
        UniversalMessagePart::Image {
            source,
            mime_type: Some(mime),
            alt: filename,
            raw: Some(part.clone()),
        }
    } else {
        UniversalMessagePart::File {
            source,
            mime_type: Some(mime),
            filename,
            raw: Some(part.clone()),
        }
    }
}

/// The parts a tool state stands for: a pending or running call keeps its
/// input; a completed call yields its result and any file attachments; a
/// failed call yields its error as an errored result. An unknown state
/// yields nothing.
pub open spec fn spec_tool_state_parts(call_id: Seq<char>, tool: Seq<char>, state: JsonV) -> Seq<
    PartV,
> {
    let status = spec_text_at(state, "status"@);
    if status == Some("pending"@) || status == Some("running"@) {
        seq![
            PartV::ToolCall {
                id: Some(call_id),
                name: tool,
                input: (match json_get(state, "input"@) {
                    Some(x) => x,
                    None => JsonV::Null,
                }),
            },
        ]
    } else if status == Some("completed"@) {
        seq![
            PartV::ToolResult {
                id: Some(call_id),
                name: Some(tool),
                output: JsonV::Text(
                    match spec_text_at(state, "output"@) {
                        Some(o) => o,
                        None => Seq::empty(),
                    },
                ),
                is_error: Some(false),
            },
        ] + spec_attachment_parts(state)
    } else if status == Some("error"@) {
        seq![
            PartV::ToolResult {
                id: Some(call_id),
                name: Some(tool),
                output: JsonV::Text(
                    match spec_text_at(state, "error"@) {
                        Some(e) => e,
                        None => Seq::empty(),
                    },
                ),
                is_error: Some(true),
            },
        ]
    } else {
        Seq::empty()
    }
}

/// The file attachments of a completed tool state.
pub open spec fn spec_attachment_parts(state: JsonV) -> Seq<PartV> {
    match json_get(state, "attachments"@) {
        Some(JsonV::List(items)) => spec_attachment_list(items),
        _ => Seq::empty(),
    }
}

pub open spec fn spec_attachment_list(items: Seq<JsonV>) -> Seq<PartV>
    decreases items.len(),
{
    if items.len() == 0 {
        Seq::empty()
    } else {
        seq![spec_file_part(items[0])] + spec_attachment_list(items.skip(1))
    }
}

#[verifier::loop_isolation(false)]
fn attachment_parts(state: &Json, out: &mut Vec<UniversalMessagePart>)
    ensures
        final(out).deep_view() == old(out).deep_view() + spec_attachment_parts(state.deep_view()),
{
    let items: &Vec<Json> = match state.get("attachments") {
        Some(a) => match a.as_list() {
            Some(xs) => xs,
            None => {
                proof {
                    assert(old(out).deep_view() + Seq::<PartV>::empty() =~= out.deep_view());
                }
                return ;
            }
        },
        None => {
            proof {
                assert(old(out).deep_view() + Seq::<PartV>::empty() =~= out.deep_view());
            }
            return ;
        }
    };
    let ghost items_v = crate::json::jv_list(items@);
    proof {
        crate::json::lemma_jv_list(items@);
        assert(items_v.skip(0) =~= items_v);
        assert(out.deep_view() + spec_attachment_list(Seq::<JsonV>::empty())
            =~= out.deep_view());
    }
    let mut i: usize = 0;
    while i < items.len()
        invariant
            0 <= i <= items@.len(),
            items_v.len() == items@.len(),
            forall|j: int| 0 <= j < items@.len() ==> items_v[j] == items@[j].deep_view(),
            old(out).deep_view() + spec_attachment_list(items_v) == out.deep_view()
                + spec_attachment_list(items_v.skip(i as int)),
        decreases items@.len() - i,
    {
        let ghost o0 = out.deep_view();
        proof {
            assert(items_v.skip(i as int)[0] == items_v[i as int]);
            assert(items_v.skip(i as int).skip(1) =~= items_v.skip(i as int + 1));
        }
        out.push(file_part_to_universal_part(&items[i]));
        proof {
            assert(out.deep_view() =~= o0 + seq![out.deep_view().last()]);
        }
        i = i + 1;
    }
    proof {
        assert(items_v.skip(items_v.len() as int) =~= Seq::<JsonV>::empty());
        assert(out.deep_view() + Seq::<PartV>::empty() =~= out.deep_view());
    }
}

/// The parts a tool state stands for.
pub fn tool_state_to_parts(call_id: &String, tool: &String, state: &Json) -> (r: Vec<
    UniversalMessagePart,
>)
    ensures
        r.deep_view() == spec_tool_state_parts(call_id@, tool@, state.deep_view()),
{
    proof {
        lemma_opencode_labels_distinct();
    }
    let mut out: Vec<UniversalMessagePart> = Vec::new();
    proof {
        assert(out.deep_view() =~= Seq::<PartV>::empty());
    }
    let status = match state.get_text("status") {
        Some(s) => s,
        None => {
            return out;
        }
    };
    if crate::json::str_eq(status.as_str(), "pending") || crate::json::str_eq(
        status.as_str(),
        "running",
    ) {
        let input: Json = match state.get("input") {
            Some(x) => x.clone(),
            None => Json::Null,
        };
        out.push(
            UniversalMessagePart::ToolCall {
                id: Some(call_id.clone()),
                name: tool.clone(),
                input,
            },
        );
        proof {
            assert(out.deep_view() =~= seq![out.deep_view().last()]);
        }
    } else if crate::json::str_eq(status.as_str(), "completed") {
        let output = match state.get_text("output") {
            Some(o) => o,
            None => String::new(),
        };
        out.push(
            UniversalMessagePart::ToolResult {
                id: Some(call_id.clone()),
                name: Some(tool.clone()),
                output: Json::Text(output),
                is_error: Some(false),
            },
        );
        proof {
            assert(out.deep_view() =~= seq![out.deep_view().last()]);
        }
        attachment_parts(state, &mut out);
    } else if crate::json::str_eq(status.as_str(), "error") {
        let error = match state.get_text("error") {
            Some(e) => e,
            None => String::new(),
        };
        out.push(
            UniversalMessagePart::ToolResult {
                id: Some(call_id.clone()),
                name: Some(tool.clone()),
                output: Json::Text(error),
                is_error: Some(true),
            },
        );
        proof {
            assert(out.deep_view() =~= seq![out.deep_view().last()]);
        }
    }
    out
}

/// The base metadata every part message carries: the message id, the part id
/// and the delta when one came along.
pub open spec fn spec_base_part_metadata(
    message_id: Seq<char>,
    part_id: Seq<char>,
    delta: Option<Seq<char>>,
) -> Seq<(Seq<char>, JsonV)> {
    (seq![
        ("messageId"@, JsonV::Text(message_id)),
        ("partId"@, JsonV::Text(part_id)),
    ]) + (match delta {
        Some(d) => seq![("delta"@, JsonV::Text(d))],
        None => Seq::empty(),
    })
}

fn base_part_metadata(message_id: &String, part_id: &String, delta: Option<&String>) -> (r: Vec<
    (String, Json),
>)
    ensures
        r.deep_view() == spec_base_part_metadata(
            message_id@,
            part_id@,
            match delta {
                Some(d) => Some(d@),
                None => None,
            },
        ),
{
    let mut metadata: Vec<(String, Json)> = Vec::new();
    metadata.push((String::from_str("messageId"), Json::Text(message_id.clone())));
    metadata.push((String::from_str("partId"), Json::Text(part_id.clone())));
    let ghost base = metadata.deep_view();
    proof {
        assert(base =~= seq![
            ("messageId"@, JsonV::Text(message_id@)),
            ("partId"@, JsonV::Text(part_id@)),
        ]);
    }
    if let Some(d) = delta {
        metadata.push((String::from_str("delta"), Json::Text(d.clone())));
        proof {
            assert(metadata.deep_view() =~= base + seq![("delta"@, JsonV::Text(d@))]);
        }
    }
    proof {
        if delta is None {
            assert(metadata.deep_view() =~= base + Seq::<(Seq<char>, JsonV)>::empty());
        }
    }
    metadata
}

/// The parts an updated message part stands for: a text part keeps its
/// text; a file part becomes an attachment; a tool part follows its state;
/// any other part is carried raw.
pub open spec fn spec_part_parts(part: JsonV) -> Seq<PartV> {
    let ty = spec_text_at(part, "type"@);
    if ty == Some("text"@) {
        seq![
            PartV::Text {
                text: (match spec_text_at(part, "text"@) {
                    Some(t) => t,
                    None => Seq::empty(),
                }),
            },
        ]
    } else if ty == Some("file"@) {
        seq![spec_file_part(part)]
    } else if ty == Some("tool"@) {
        spec_tool_state_parts(
            (match spec_text_at(part, "callID"@) {
                Some(c) => c,
                None => Seq::empty(),
            }),
            (match spec_text_at(part, "tool"@) {
                Some(t) => t,
                None => Seq::empty(),
            }),
            (match json_get(part, "state"@) {
                Some(s) => s,
                None => JsonV::Null,
            }),
        )
    } else {
        seq![PartV::Unknown { raw: part }]
    }
}

/// A part update translated: an assistant message addressed to the part's
/// message id, whose parts reflect the part.
pub open spec fn spec_part_message(part: JsonV, p: ParsedV) -> bool {
    &&& p.role == "assistant"@
    &&& p.id == Some(
        match spec_text_at(part, "messageID"@) {
            Some(m) => m,
            None => Seq::empty(),
        },
    )
    &&& p.parts == spec_part_parts(part)
}

/// An updated message part as a universal message addressed to its message
/// id, carrying the session id the part names.
#[verifier::rlimit(80)]
pub fn part_to_message(part: &Json, delta: Option<&String>) -> (r: (
    UniversalMessage,
    Option<String>,
))
    ensures
        r.0.deep_view() matches MessageV::Parsed(p) && spec_part_message(part.deep_view(), p),
        r.1.deep_view() == spec_text_at(part.deep_view(), "sessionID"@),
{
    proof {
        lemma_opencode_labels_distinct();
    }
    let message_id = match part.get_text("messageID") {
        Some(m) => m,
        None => String::new(),
    };
    let part_id = match part.get_text("id") {
        Some(i) => i,
        None => String::new(),
    };
    let session_id = part.get_text("sessionID");
    let mut metadata = base_part_metadata(&message_id, &part_id, delta);

    let ty = match part.get_text("type") {
        Some(t) => t,
        None => String::new(),
    };
    let had_type = match part.get_text("type") {
        Some(_) => true,
        None => false,
    };
    let mut parts: Vec<UniversalMessagePart> = Vec::new();
    proof {
        assert(parts.deep_view() =~= Seq::<PartV>::empty());
    }
    if had_type && crate::json::str_eq(ty.as_str(), "text") {
        metadata.push((String::from_str("type"), Json::Text(ty.clone())));
        let text = match part.get_text("text") {
            Some(t) => t,
            None => String::new(),
        };
        parts.push(UniversalMessagePart::Text { text });
        proof {
            assert(parts.deep_view() =~= seq![parts.deep_view().last()]);
            assert(parts.deep_view() =~= spec_part_parts(part.deep_view()));
        }
    } else if had_type && crate::json::str_eq(ty.as_str(), "file") {
        parts.push(file_part_to_universal_part(part));
        proof {
            assert(parts.deep_view() =~= seq![parts.deep_view().last()]);
            assert(parts.deep_view() =~= spec_part_parts(part.deep_view()));
        }
    } else if had_type && crate::json::str_eq(ty.as_str(), "tool") {
        metadata.push((String::from_str("type"), Json::Text(ty.clone())));
        let call_id = match part.get_text("callID") {
            Some(c) => c,
            None => String::new(),
        };
        let tool = match part.get_text("tool") {
            Some(t) => t,
            None => String::new(),
        };
        metadata.push((String::from_str("callId"), Json::Text(call_id.clone())));
        metadata.push((String::from_str("tool"), Json::Text(tool.clone())));
        let state: Json = match part.get("state") {
            Some(s) => s.clone(),
            None => Json::Null,
        };
        metadata.push((String::from_str("toolState"), state.clone()));
        let mut tool_parts = tool_state_to_parts(&call_id, &tool, &state);
        let ghost tpv = tool_parts.deep_view();
        parts.append(&mut tool_parts);
        proof {
            assert(parts.deep_view() =~= tpv);
            assert(parts.deep_view() =~= spec_part_parts(part.deep_view()));
        }
    } else {
        parts.push(UniversalMessagePart::Unknown { raw: part.clone() });
        proof {
            assert(parts.deep_view() =~= seq![parts.deep_view().last()]);
            assert(parts.deep_view() =~= spec_part_parts(part.deep_view()));
        }
    }
    let message = UniversalMessage::Parsed(
        UniversalMessageParsed { role: String::from_str("assistant"), id: Some(message_id), metadata, parts },
    );
    (message, session_id)
}

// ---------------------------------------------------------------------------
// Questions and permissions.
// ---------------------------------------------------------------------------

/// The options of one reported question, each with its label and
/// description.
pub open spec fn spec_oc_options(opts: Seq<JsonV>) -> Seq<QuestionOptionV>
    decreases opts.len(),
{
    if opts.len() == 0 {
        Seq::empty()
    } else {
        seq![
            QuestionOptionV {
                label: (match spec_text_at(opts[0], "label"@) {
                    Some(l) => l,
                    None => Seq::empty(),
                }),
                description: Some(
                    match spec_text_at(opts[0], "description"@) {
                        Some(d) => d,
                        None => Seq::empty(),
                    },
                ),
            },
        ] + spec_oc_options(opts.skip(1))
    }
}

/// One reported question with its options.
pub open spec fn spec_oc_question(q: JsonV) -> QuestionInfoV {
    QuestionInfoV {
        question: (match spec_text_at(q, "question"@) {
            Some(t) => t,
            None => Seq::empty(),
        }),
        header: Some(
            match spec_text_at(q, "header"@) {
                Some(h) => h,
                None => Seq::empty(),
            },
        ),
        options: (match json_get(q, "options"@) {
            Some(JsonV::List(opts)) => spec_oc_options(opts),
            _ => Seq::empty(),
        }),
        multi_select: (match json_get(q, "multiple"@) {
            Some(JsonV::Bool(b)) => Some(b),
            _ => None,
        }),
        custom: (match json_get(q, "custom"@) {
            Some(JsonV::Bool(b)) => Some(b),
            _ => None,
        }),
    }
}

pub open spec fn spec_oc_questions(qs: Seq<JsonV>) -> Seq<QuestionInfoV>
    decreases qs.len(),
{
    if qs.len() == 0 {
        Seq::empty()
    } else {
        seq![spec_oc_question(qs[0])] + spec_oc_questions(qs.skip(1))
    }
}

#[verifier::loop_isolation(false)]
fn oc_options(opts: &Vec<Json>) -> (r: Vec<QuestionOption>)
    ensures
        r.deep_view() == spec_oc_options(crate::json::jv_list(opts@)),
{
    let ghost opts_v = crate::json::jv_list(opts@);
    proof {
        crate::json::lemma_jv_list(opts@);
        assert(opts_v.skip(0) =~= opts_v);
    }
    let mut out: Vec<QuestionOption> = Vec::new();
    proof {
        assert(out.deep_view() =~= Seq::<QuestionOptionV>::empty());
    }
    let mut i: usize = 0;
    while i < opts.len()
        invariant
            0 <= i <= opts@.len(),
            opts_v.len() == opts@.len(),
            forall|j: int| 0 <= j < opts@.len() ==> opts_v[j] == opts@[j].deep_view(),
            spec_oc_options(opts_v) == out.deep_view() + spec_oc_options(opts_v.skip(i as int)),
        decreases opts@.len() - i,
    {
        let ghost o0 = out.deep_view();
        proof {
            assert(opts_v.skip(i as int)[0] == opts_v[i as int]);
            assert(opts_v.skip(i as int).skip(1) =~= opts_v.skip(i as int + 1));
        }
        let label = match opts[i].get_text("label") {
            Some(l) => l,
            None => String::new(),
        };
        let description = match opts[i].get_text("description") {
            Some(d) => d,
            None => String::new(),
        };
        out.push(QuestionOption { label, description: Some(description) });
        proof {
            assert(out.deep_view() =~= o0 + seq![out.deep_view().last()]);
        }
        i = i + 1;
    }
    proof {
        assert(opts_v.skip(opts_v.len() as int) =~= Seq::<JsonV>::empty());
        assert(out.deep_view() + Seq::<QuestionOptionV>::empty() =~= out.deep_view());
    }
    out
}

fn oc_question(q: &Json) -> (r: QuestionInfo)
    ensures
        r.deep_view() == spec_oc_question(q.deep_view()),
{
    let question = match q.get_text("question") {
        Some(t) => t,
        None => String::new(),
    };
    let header = match q.get_text("header") {
        Some(h) => h,
        None => String::new(),
    };
    let empty_opts: Vec<QuestionOption> = Vec::new();
    proof {
        assert(empty_opts.deep_view() =~= Seq::<QuestionOptionV>::empty());
    }
    let options = match q.get("options") {
        Some(o) => match o.as_list() {
            Some(xs) => oc_options(xs),
            None => empty_opts,
        },
        None => empty_opts,
    };
    let multi_select = match q.get("multiple") {
        Some(m) => m.as_bool(),
        None => None,
    };
    let custom = match q.get("custom") {
        Some(c) => c.as_bool(),
        None => None,
    };
    QuestionInfo { question, header: Some(header), options, multi_select, custom }
}

/// A reported question request read whole: id, owning session, every
/// question with its options, and the tool back-reference when present.
pub open spec fn spec_question_req(props: JsonV, q: QuestionRequestV) -> bool {
    &&& q.id == (match spec_text_at(props, "id"@) {
        Some(i) => i,
        None => Seq::empty(),
    })
    &&& q.session_id == (match spec_text_at(props, "sessionID"@) {
        Some(s) => s,
        None => Seq::empty(),
    })
    &&& (match json_get(props, "questions"@) {
        Some(JsonV::List(qs)) => q.questions == spec_oc_questions(qs),
        _ => q.questions == Seq::<QuestionInfoV>::empty(),
    })
    &&& (match json_get(props, "tool"@) {
        Some(tool) => q.tool == Some(
            crate::universal::QuestionToolRefV {
                message_id: (match spec_text_at(tool, "messageID"@) {
                    Some(m) => m,
                    None => Seq::empty(),
                }),
                call_id: (match spec_text_at(tool, "callID"@) {
                    Some(x) => x,
                    None => Seq::empty(),
                }),
            },
        ),
        None => q.tool is None,
    })
}

/// A reported question request, read whole.
#[verifier::loop_isolation(false)]
#[verifier::rlimit(60)]
pub fn question_request_from_opencode(request: &Json) -> (r: QuestionRequest)
    ensures
        spec_question_req(request.deep_view(), r.deep_view()),
{
    let id = match request.get_text("id") {
        Some(i) => i,
        None => String::new(),
    };
    let session_id = match request.get_text("sessionID") {
        Some(s) => s,
        None => String::new(),
    };
    let mut questions: Vec<QuestionInfo> = Vec::new();
    proof {
        assert(questions.deep_view() =~= Seq::<QuestionInfoV>::empty());
    }
    match request.get("questions") {
        Some(qv) => match qv.as_list() {
            Some(qs) => {
                let ghost qs_v = crate::json::jv_list(qs@);
                proof {
                    crate::json::lemma_jv_list(qs@);
                    assert(qs_v.skip(0) =~= qs_v);
                }
                let mut i: usize = 0;
                while i < qs.len()
                    invariant
                        0 <= i <= qs@.len(),
                        qs_v.len() == qs@.len(),
                        forall|j: int| 0 <= j < qs@.len() ==> qs_v[j] == qs@[j].deep_view(),
                        spec_oc_questions(qs_v) == questions.deep_view() + spec_oc_questions(
                            qs_v.skip(i as int),
                        ),
                    decreases qs@.len() - i,
                {
                    let ghost q0 = questions.deep_view();
                    proof {
                        assert(qs_v.skip(i as int)[0] == qs_v[i as int]);
                        assert(qs_v.skip(i as int).skip(1) =~= qs_v.skip(i as int + 1));
                    }
                    questions.push(oc_question(&qs[i]));
                    proof {
                        assert(questions.deep_view() =~= q0 + seq![
                            questions.deep_view().last(),
                        ]);
                    }
                    i = i + 1;
                }
                proof {
                    assert(qs_v.skip(qs_v.len() as int) =~= Seq::<JsonV>::empty());
                    assert(questions.deep_view() + Seq::<QuestionInfoV>::empty()
                        =~= questions.deep_view());
                }
            }
            None => {}
        },
        None => {}
    }
    let tool = match request.get("tool") {
        Some(t) => {
            let message_id = match t.get_text("messageID") {
                Some(m) => m,
                None => String::new(),
            };
            let call_id = match t.get_text("callID") {
                Some(c) => c,
                None => String::new(),
            };
            Some(QuestionToolRef { message_id, call_id })
        }
        None => None,
    };
    QuestionRequest { id, session_id, questions, tool }
}

/// A reported permission request read whole: id, owning session, the
/// permission string, patterns and always lists, metadata and the tool
/// back-reference when present.
pub open spec fn spec_permission_req(props: JsonV, p: PermissionRequestV) -> bool {
    &&& p.id == (match spec_text_at(props, "id"@) {
        Some(i) => i,
        None => Seq::empty(),
    })
    &&& p.session_id == (match spec_text_at(props, "sessionID"@) {
        Some(s) => s,
        None => Seq::empty(),
    })
    &&& p.permission == (match spec_text_at(props, "permission"@) {
        Some(x) => x,
        None => Seq::empty(),
    })
    &&& p.patterns == spec_text_list(props, "patterns"@)
    &&& p.always == spec_text_list(props, "always"@)
    &&& (match json_get(props, "metadata"@) {
        Some(JsonV::Obj(entries)) => p.metadata == entries,
        _ => p.metadata == Seq::<(Seq<char>, JsonV)>::empty(),
    })
    &&& (match json_get(props, "tool"@) {
        Some(tool) => p.tool == Some(
            crate::universal::PermissionToolRefV {
                message_id: (match spec_text_at(tool, "messageID"@) {
                    Some(m) => m,
                    None => Seq::empty(),
                }),
                call_id: (match spec_text_at(tool, "callID"@) {
                    Some(x) => x,
                    None => Seq::empty(),
                }),
            },
        ),
        None => p.tool is None,
    })
}

/// A reported permission request, read whole.
pub fn permission_request_from_opencode(request: &Json) -> (r: PermissionRequest)
    ensures
        spec_permission_req(request.deep_view(), r.deep_view()),
{
    let id = match request.get_text("id") {
        Some(i) => i,
        None => String::new(),
    };
    let session_id = match request.get_text("sessionID") {
        Some(s) => s,
        None => String::new(),
    };
    let permission = match request.get_text("permission") {
        Some(p) => p,
        None => String::new(),
    };
    let patterns = text_list(request, "patterns");
    let always = text_list(request, "always");
    let empty_meta: Vec<(String, Json)> = Vec::new();
    proof {
        assert(empty_meta.deep_view() =~= Seq::<(Seq<char>, JsonV)>::empty());
    }
    let metadata: Vec<(String, Json)> = match request.get("metadata") {
        Some(meta) => match meta {
            Json::Obj(m) => {
                let cloned = crate::universal::clone_metadata(m);
                proof {
                    crate::json::lemma_jv_obj(m@);
                    assert(cloned.deep_view() =~= crate::json::jv_obj(m@));
                }
                cloned
            }
            _ => empty_meta,
        },
        None => empty_meta,
    };
    let tool = match request.get("tool") {
        Some(t) => {
            let message_id = match t.get_text("messageID") {
                Some(m) => m,
                None => String::new(),
            };
            let call_id = match t.get_text("callID") {
                Some(c) => c,
                None => String::new(),
            };
            Some(PermissionToolRef { message_id, call_id })
        }
        None => None,
    };
    PermissionRequest { id, session_id, permission, patterns, metadata, always, tool }
}

/// The strings of a list of documents, non-strings dropped.
pub open spec fn spec_texts_filter(items: Seq<JsonV>) -> Seq<Seq<char>>
    decreases items.len(),
{
    if items.len() == 0 {
        Seq::empty()
    } else {
        (match items[0] {
            JsonV::Text(t) => seq![t],
            _ => Seq::empty(),
        }) + spec_texts_filter(items.skip(1))
    }
}

/// The strings of a list member, non-strings dropped; empty when the member
/// is missing or not a list.
pub open spec fn spec_text_list(v: JsonV, key: Seq<char>) -> Seq<Seq<char>> {
    match json_get(v, key) {
        Some(JsonV::List(items)) => spec_texts_filter(items),
        _ => Seq::empty(),
    }
}

/// The strings of a list member, non-strings dropped.
#[verifier::loop_isolation(false)]
fn text_list(v: &Json, key: &str) -> (r: Vec<String>)
    ensures
        r.deep_view() == spec_text_list(v.deep_view(), key@),
{
    let mut out: Vec<String> = Vec::new();
    proof {
        assert(out.deep_view() =~= Seq::<Seq<char>>::empty());
    }
    match v.get(key) {
        Some(member) => match member.as_list() {
            Some(items) => {
                let ghost items_v = crate::json::jv_list(items@);
                proof {
                    crate::json::lemma_jv_list(items@);
                    assert(items_v.skip(0) =~= items_v);
                }
                let mut i: usize = 0;
                while i < items.len()
                    invariant
                        0 <= i <= items@.len(),
                        items_v.len() == items@.len(),
                        forall|j: int|
                            0 <= j < items@.len() ==> items_v[j] == items@[j].deep_view(),
                        spec_texts_filter(items_v) == out.deep_view() + spec_texts_filter(
                            items_v.skip(i as int),
                        ),
                    decreases items@.len() - i,
                {
                    let ghost o0 = out.deep_view();
                    proof {
                        assert(items_v.skip(i as int)[0] == items_v[i as int]);
                        assert(items_v.skip(i as int).skip(1) =~= items_v.skip(i as int + 1));
                    }
                    if let Some(t) = items[i].as_text() {
                        out.push(t.clone());
                        proof {
                            assert(out.deep_view() =~= o0 + seq![out.deep_view().last()]);
                        }
                    }
                    i = i + 1;
                }
                proof {
                    assert(items_v.skip(items_v.len() as int) =~= Seq::<JsonV>::empty());
                    assert(out.deep_view() + Seq::<Seq<char>>::empty() =~= out.deep_view());
                }
            }
            None => {}
        },
        None => {}
    }
    out
}

// ---------------------------------------------------------------------------
// The bus event itself.
// ---------------------------------------------------------------------------

/// The whole adapter: what each bus event becomes. Message updates become
/// messages; part updates become messages reflecting the part; questions
/// and permissions become their typed events; a session start becomes a
/// start marker; a session error becomes a crash event and anything else is
/// passed through raw. An event whose properties are missing still gets its
/// event type, with nothing promised of the payload.
pub open spec fn spec_opencode_conversion(ev: JsonV, c: EventConversionV) -> bool {
    let ty = spec_text_at(ev, "type"@);
    let props_opt = json_get(ev, "properties"@);
    &&& ty == Some("message.updated"@) ==> c.event_type == UniversalEventType::Message && (
    match props_opt {
        Some(props) => ({
            let info = match json_get(props, "info"@) {
                Some(i) => i,
                None => props,
            };
            &&& (c.data matches crate::universal::EventDataV::Message {
                message: MessageV::Parsed(p),
            } && spec_info_message(info, p))
            &&& c.agent_session_id == spec_text_at(info, "sessionID"@)
        }),
        None => true,
    })
    &&& ty == Some("message.part.updated"@) ==> c.event_type == UniversalEventType::Message && (
    match props_opt {
        Some(props) => ({
            let part = match json_get(props, "part"@) {
                Some(x) => x,
                None => props,
            };
            &&& (c.data matches crate::universal::EventDataV::Message {
                message: MessageV::Parsed(p),
            } && spec_part_message(part, p))
            &&& c.agent_session_id == spec_text_at(part, "sessionID"@)
        }),
        None => true,
    })
    &&& ty == Some("question.asked"@) ==> c.event_type == UniversalEventType::QuestionAsked && (
    match props_opt {
        Some(props) => (c.data matches crate::universal::EventDataV::QuestionAsked {
            question_asked,
        } && spec_question_req(props, question_asked) && c.agent_session_id == Some(
            question_asked.session_id,
        )),
        None => true,
    })
    &&& ty == Some("permission.asked"@) ==> c.event_type == UniversalEventType::PermissionAsked
        && (match props_opt {
        Some(props) => (c.data matches crate::universal::EventDataV::PermissionAsked {
            permission_asked,
        } && spec_permission_req(props, permission_asked) && c.agent_session_id == Some(
            permission_asked.session_id,
        )),
        None => true,
    })
    &&& ty == Some("session.created"@) ==> c.event_type == UniversalEventType::Started && c.data
        == (crate::universal::EventDataV::Started {
        started: StartedV {
            message: Some("session.created"@),
            details: (match props_opt {
                Some(props) => match json_get(props, "info"@) {
                    Some(info) => Some(info),
                    None => None,
                },
                None => None,
            }),
        },
    })
    &&& ty == Some("session.error"@) ==> c.event_type == UniversalEventType::Error && (match
    props_opt {
        Some(props) => (c.data matches crate::universal::EventDataV::Error { error }
            && error.kind == Some("session.error"@) && error.details == Some(props))
            && c.agent_session_id == spec_text_at(props, "sessionID"@),
        None => true,
    })
    &&& (ty is None || (ty matches Some(t) && t != "message.updated"@ && t
        != "message.part.updated"@ && t != "question.asked"@ && t != "permission.asked"@ && t
        != "session.created"@ && t != "session.error"@)) ==> c.event_type
        == UniversalEventType::Unknown && c.data == (crate::universal::EventDataV::Unknown {
        raw: ev,
    })
}

/// Translates one bus event from the sidecar.
pub fn event_to_universal(event: &Json) -> (r: EventConversion)
    ensures
        spec_opencode_conversion(event.deep_view(), r.deep_view()),
{
    proof {
        lemma_opencode_labels_distinct();
    }
    let ty = match event.get_text("type") {
        Some(t) => t,
        None => {
            return EventConversion::new(
                UniversalEventType::Unknown,
                UniversalEventData::Unknown { raw: event.clone() },
            );
        }
    };
    let props: &Json = match event.get("properties") {
        Some(p) => p,
        None => {
            if crate::json::str_eq(ty.as_str(), "session.created") {
                let started = crate::universal::Started {
                    message: Some(String::from_str("session.created")),
                    details: None,
                };
                return EventConversion::new(
                    UniversalEventType::Started,
                    UniversalEventData::Started { started },
                );
            }
            if crate::json::str_eq(ty.as_str(), "message.updated") || crate::json::str_eq(
                ty.as_str(),
                "message.part.updated",
            ) {
                let (message, session_id) = part_to_message(&Json::Null, None);
                return EventConversion::new(
                    UniversalEventType::Message,
                    UniversalEventData::Message { message },
                ).with_session(session_id);
            }
            if crate::json::str_eq(ty.as_str(), "question.asked") {
                let question = question_request_from_opencode(&Json::Null);
                return EventConversion::new(
                    UniversalEventType::QuestionAsked,
                    UniversalEventData::QuestionAsked { question_asked: question },
                );
            }
            if crate::json::str_eq(ty.as_str(), "permission.asked") {
                let permission = permission_request_from_opencode(&Json::Null);
                return EventConversion::new(
                    UniversalEventType::PermissionAsked,
                    UniversalEventData::PermissionAsked { permission_asked: permission },
                );
            }
            if crate::json::str_eq(ty.as_str(), "session.error") {
                let crash = crate::universal::CrashInfo {
                    message: String::from_str("opencode session error"),
                    kind: Some(String::from_str("session.error")),
                    details: None,
                };
                return EventConversion::new(
                    UniversalEventType::Error,
                    UniversalEventData::Error { error: crash },
                );
            }
            return EventConversion::new(
                UniversalEventType::Unknown,
                UniversalEventData::Unknown { raw: event.clone() },
            );
        }
    };

    if crate::json::str_eq(ty.as_str(), "message.updated") {
        let info: &Json = match props.get("info") {
            Some(i) => i,
            None => props,
        };
        let (message, session_id) = message_from_opencode(info);
        EventConversion::new(
            UniversalEventType::Message,
            UniversalEventData::Message { message },
        ).with_session(session_id)
    } else if crate::json::str_eq(ty.as_str(), "message.part.updated") {
        let delta = props.get_text("delta");
        let part: &Json = match props.get("part") {
            Some(p) => p,
            None => props,
        };
        let (message, session_id) = part_to_message(part, delta.as_ref());
        EventConversion::new(
            UniversalEventType::Message,
            UniversalEventData::Message { message },
        ).with_session(session_id)
    } else if crate::json::str_eq(ty.as_str(), "question.asked") {
        let question = question_request_from_opencode(props);
        let session_id = Some(question.session_id.clone());
        EventConversion::new(
            UniversalEventType::QuestionAsked,
            UniversalEventData::QuestionAsked { question_asked: question },
        ).with_session(session_id)
    } else if crate::json::str_eq(ty.as_str(), "permission.asked") {
        let permission = permission_request_from_opencode(props);
        let session_id = Some(permission.session_id.clone());
        EventConversion::new(
            UniversalEventType::PermissionAsked,
            UniversalEventData::PermissionAsked { permission_asked: permission },
        ).with_session(session_id)
    } else if crate::json::str_eq(ty.as_str(), "session.created") {
        let details: Option<Json> = match props.get("info") {
            Some(info) => Some(info.clone()),
            None => None,
        };
        let started = crate::universal::Started {
            message: Some(String::from_str("session.created")),
            details,
        };
        EventConversion::new(
            UniversalEventType::Started,
            UniversalEventData::Started { started },
        )
    } else if crate::json::str_eq(ty.as_str(), "session.error") {
        let message = match extract_message_from_value(props) {
            Some(m) => m,
            None => String::from_str("opencode session error"),
        };
        let session_id = props.get_text("sessionID");
        let crash = crate::universal::CrashInfo {
            message,
            kind: Some(String::from_str("session.error")),
            details: Some(props.clone()),
        };
        EventConversion::new(
            UniversalEventType::Error,
            UniversalEventData::Error { error: crash },
        ).with_session(session_id)
    } else {
        EventConversion::new(
            UniversalEventType::Unknown,
            UniversalEventData::Unknown { raw: event.clone() },
        )
    }
}

// ---------------------------------------------------------------------------
// The reverse direction: values handed back to the sidecar.
// ---------------------------------------------------------------------------

/// Renders a question or permission event as one bus event; nothing else
/// can go back over the bus.
pub fn universal_event_to_opencode(event: &UniversalEventData) -> (r: Result<
    Json,
    ConversionError,
>)
    ensures
        (event.deep_view() is QuestionAsked || event.deep_view() is PermissionAsked) ==> r
            is Ok,
        !(event.deep_view() is QuestionAsked || event.deep_view() is PermissionAsked) ==> r
            is Err,
        r matches Ok(v) ==> (event.deep_view() is QuestionAsked ==> spec_text_at(
            v.deep_view(),
            "type"@,
        ) == Some("question.asked"@)),
        r matches Ok(v) ==> (event.deep_view() is PermissionAsked ==> spec_text_at(
            v.deep_view(),
            "type"@,
        ) == Some("permission.asked"@)),
{
    proof {
        lemma_back_keys_distinct();
        reveal_strlit("type");
        reveal_strlit("properties");
        assert("type"@.len() == 4);
        assert("properties"@.len() == 10);
    }
    match event {
        UniversalEventData::QuestionAsked { question_asked } => {
            let properties = question_request_to_opencode(question_asked);
            let mut entries: Vec<(String, Json)> = Vec::new();
            entries.push(
                (String::from_str("type"), Json::Text(String::from_str("question.asked"))),
            );
            entries.push((String::from_str("properties"), properties));
            let out = Json::Obj(entries);
            proof {
                crate::json::lemma_jv_obj(out->Obj_0@);
                lemma_lookup_first(crate::json::jv_obj(out->Obj_0@), "type"@, 0);
            }
            Ok(out)
        }
        UniversalEventData::PermissionAsked { permission_asked } => {
            let properties = permission_request_to_opencode(permission_asked);
            let mut entries: Vec<(String, Json)> = Vec::new();
            entries.push(
                (String::from_str("type"), Json::Text(String::from_str("permission.asked"))),
            );
            entries.push((String::from_str("properties"), properties));
            let out = Json::Obj(entries);
            proof {
                crate::json::lemma_jv_obj(out->Obj_0@);
                lemma_lookup_first(crate::json::jv_obj(out->Obj_0@), "type"@, 0);
            }
            Ok(out)
        }
        _ => Err(ConversionError::Unsupported(String::from_str("opencode event"))),
    }
}

/// A prompt part input, text or file.
#[derive(Debug)]
pub enum OpencodePartInput {
    Text(Json),
    File(Json),
}

fn text_part_input_from_text(text: &str) -> (r: Json)
    ensures
        r.deep_view() == (JsonV::Obj(
            seq![("type"@, JsonV::Text("text"@)), ("text"@, JsonV::Text(text@))],
        )),
{
    let mut entries: Vec<(String, Json)> = Vec::new();
    entries.push((String::from_str("type"), Json::Text(String::from_str("text"))));
    entries.push((String::from_str("text"), Json::Text(text.to_owned())));
    let out = Json::Obj(entries);
    proof {
        crate::json::lemma_jv_obj(out->Obj_0@);
        assert(crate::json::jv_obj(out->Obj_0@) =~= seq![
            ("type"@, JsonV::Text("text"@)),
            ("text"@, JsonV::Text(text@)),
        ]);
    }
    out
}

/// A text part input as a universal user message.
pub fn text_part_input_to_universal(part: &Json) -> (r: UniversalMessage)
    ensures
        r.deep_view() matches MessageV::Parsed(p) && p.role == "user"@ && p.parts == seq![
            PartV::Text {
                text: (match spec_text_at(part.deep_view(), "text"@) {
                    Some(t) => t,
                    None => Seq::empty(),
                }),
            },
        ],
{
    let text = match part.get_text("text") {
        Some(t) => t,
        None => String::new(),
    };
    let parts = vec![UniversalMessagePart::Text { text }];
    proof {
        assert(parts.deep_view() =~= seq![parts@[0].deep_view()]);
    }
    let r = UniversalMessage::Parsed(
        UniversalMessageParsed {
            role: String::from_str("user"),
            id: None,
            metadata: Vec::new(),
            parts,
        },
    );
    r
}

/// The text part inputs of a parsed, all-text message; any other part is
/// refused, and an empty list is refused.
#[verifier::loop_isolation(false)]
pub fn universal_message_to_parts(message: &UniversalMessage) -> (r: Result<
    Vec<Json>,
    ConversionError,
>)
    ensures
        message.deep_view() matches MessageV::Unparsed { .. } ==> r is Err,
        message.deep_view() matches MessageV::Parsed(p) ==> (r is Ok
            <==> crate::universal::all_text_parts(p.parts) && p.parts.len() > 0),
        r matches Ok(parts) ==> parts@.len() > 0,
{
    let parsed = match message {
        UniversalMessage::Parsed(parsed) => parsed,
        UniversalMessage::Unparsed { .. } => {
            return Err(ConversionError::Unsupported(String::from_str("unparsed message")));
        }
    };
    let mut parts: Vec<Json> = Vec::new();
    let mut i: usize = 0;
    while i < parsed.parts.len()
        invariant
            0 <= i <= parsed.parts@.len(),
            parts@.len() == i as int,
            forall|j: int| 0 <= j < i ==> (#[trigger] parsed.parts.deep_view()[j]) is Text,
        decreases parsed.parts@.len() - i,
    {
        match &parsed.parts[i] {
            UniversalMessagePart::Text { text } => {
                parts.push(text_part_input_from_text(text.as_str()));
            }
            _ => {
                proof {
                    assert(!(parsed.parts.deep_view()[i as int] is Text));
                }
                return Err(ConversionError::Unsupported(String::from_str("non-text part")));
            }
        }
        i = i + 1;
    }
    if parts.is_empty() {
        return Err(ConversionError::MissingField(String::from_str("parts")));
    }
    Ok(parts)
}

/// The prompt inputs of a parsed message, text and attachments allowed.
pub fn universal_message_to_part_inputs(message: &UniversalMessage) -> (r: Result<
    Vec<OpencodePartInput>,
    ConversionError,
>)
    ensures
        message.deep_view() matches MessageV::Unparsed { .. } ==> r is Err,
{
    let parsed = match message {
        UniversalMessage::Parsed(parsed) => parsed,
        UniversalMessage::Unparsed { .. } => {
            return Err(ConversionError::Unsupported(String::from_str("unparsed message")));
        }
    };
    universal_parts_to_part_inputs(&parsed.parts)
}

/// The prompt inputs of a part list; an empty list is refused.
pub fn universal_parts_to_part_inputs(parts: &Vec<UniversalMessagePart>) -> (r: Result<
    Vec<OpencodePartInput>,
    ConversionError,
>)
    ensures
        r matches Ok(inputs) ==> inputs@.len() == parts@.len() && parts@.len() > 0,
{
    let mut inputs: Vec<OpencodePartInput> = Vec::new();
    let mut i: usize = 0;
    while i < parts.len()
        invariant
            0 <= i <= parts@.len(),
            inputs@.len() == i as int,
        decreases parts@.len() - i,
    {
        match universal_part_to_opencode_input(&parts[i]) {
            Ok(input) => {
                inputs.push(input);
            }
            Err(e) => {
                return Err(e);
            }
        }
        i = i + 1;
    }
    if inputs.is_empty() {
        return Err(ConversionError::MissingField(String::from_str("parts")));
    }
    Ok(inputs)
}

/// One universal part as a prompt input: text stays text; files and images
/// become file inputs; anything else is refused.
pub fn universal_part_to_opencode_input(part: &UniversalMessagePart) -> (r: Result<
    OpencodePartInput,
    ConversionError,
>)
    ensures
        part.deep_view() matches PartV::Text { text } ==> (r matches Ok(
            OpencodePartInput::Text(v),
        ) && v.deep_view() == (JsonV::Obj(
            seq![("type"@, JsonV::Text("text"@)), ("text"@, JsonV::Text(text))],
        ))),
        (part.deep_view() is ToolCall || part.deep_view() is ToolResult || part.deep_view()
            is FunctionCall || part.deep_view() is FunctionResult || part.deep_view() is Error
            || part.deep_view() is Unknown) ==> r is Err,
{
    match part {
        UniversalMessagePart::Text { text } => Ok(
            OpencodePartInput::Text(text_part_input_from_text(text.as_str())),
        ),
        UniversalMessagePart::File { source, mime_type, filename, .. } => {
            let mime_ref: Option<&String> = match mime_type {
                Some(m) => Some(m),
                None => None,
            };
            let filename_ref: Option<&String> = match filename {
                Some(f) => Some(f),
                None => None,
            };
            match file_part_input_from_universal(source, mime_ref, filename_ref) {
                Ok(v) => Ok(OpencodePartInput::File(v)),
                Err(e) => Err(e),
            }
        }
        UniversalMessagePart::Image { source, mime_type, .. } => {
            let mime_ref: Option<&String> = match mime_type {
                Some(m) => Some(m),
                None => None,
            };
            match file_part_input_from_universal(source, mime_ref, None) {
                Ok(v) => Ok(OpencodePartInput::File(v)),
                Err(e) => Err(e),
            }
        }
        _ => Err(ConversionError::Unsupported(String::from_str("unsupported part"))),
    }
}

/// A file attachment as a file part input; a mime type is required.
pub fn file_part_input_from_universal(
    source: &AttachmentSource,
    mime_type: Option<&String>,
    filename: Option<&String>,
) -> (r: Result<Json, ConversionError>)
    ensures
        mime_type is None ==> r is Err,
{
    let mime = match mime_type {
        Some(m) => m,
        None => {
            return Err(ConversionError::MissingField(String::from_str("mime_type")));
        }
    };
    let url = match attachment_source_to_opencode_url(source, mime.as_str()) {
        Ok(u) => u,
        Err(e) => {
            return Err(e);
        }
    };
    let mut entries: Vec<(String, Json)> = Vec::new();
    entries.push((String::from_str("type"), Json::Text(String::from_str("file"))));
    entries.push((String::from_str("mime"), Json::Text(mime.clone())));
    entries.push((String::from_str("url"), Json::Text(url)));
    if let Some(f) = filename {
        entries.push((String::from_str("filename"), Json::Text(f.clone())));
    }
    Ok(Json::Obj(entries))
}

/// The sidecar url an attachment is carried as: a url stays itself, a path
/// becomes a file url, inline base64 data becomes a data url; data in
/// another encoding is refused.
pub fn attachment_source_to_opencode_url(source: &AttachmentSource, mime_type: &str) -> (r:
    Result<String, ConversionError>)
    ensures
        source.deep_view() matches AttachmentSourceV::Url { url } ==> (r matches Ok(u) && u@
            == url),
        source.deep_view() matches AttachmentSourceV::Path { path } ==> (r matches Ok(u) && u@
            == "file://"@ + path),
        source.deep_view() matches AttachmentSourceV::Data { data, encoding } ==> (match encoding {
            Some(e) => if e == "base64"@ {
                r matches Ok(u) && u@ == "data:"@ + mime_type@ + ";base64,"@ + data
            } else {
                r is Err
            },
            None => r matches Ok(u) && u@ == "data:"@ + mime_type@ + ";base64,"@ + data,
        }),
{
    match source {
        AttachmentSource::Url { url } => Ok(url.clone()),
        AttachmentSource::Path { path } => {
            let mut out = String::from_str("file://");
            out.append(path.as_str());
            Ok(out)
        }
        AttachmentSource::Data { data, encoding } => {
            if let Some(e) = encoding {
                if !crate::json::str_eq(e.as_str(), "base64") {
                    return Err(
                        ConversionError::Unsupported(
                            String::from_str("opencode data encoding"),
                        ),
                    );
                }
            }
            let mut out = String::from_str("data:");
            out.append(mime_type);
            out.append(";base64,");
            out.append(data.as_str());
            Ok(out)
        }
    }
}

/// One option rendered back: its label, and its description or empty.
pub open spec fn spec_render_option(o: QuestionOptionV) -> JsonV {
    JsonV::Obj(
        seq![
            ("label"@, JsonV::Text(o.label)),
            (
                "description"@,
                JsonV::Text(
                    match o.description {
                        Some(d) => d,
                        None => Seq::empty(),
                    },
                ),
            ),
        ],
    )
}

pub open spec fn spec_render_options(os: Seq<QuestionOptionV>) -> Seq<JsonV>
    decreases os.len(),
{
    if os.len() == 0 {
        Seq::empty()
    } else {
        seq![spec_render_option(os[0])] + spec_render_options(os.skip(1))
    }
}

proof fn lemma_render_options_pointwise(os: Seq<QuestionOptionV>)
    ensures
        spec_render_options(os).len() == os.len(),
        forall|i: int|
            0 <= i < os.len() ==> spec_render_options(os)[i] == spec_render_option(os[i]),
    decreases os.len(),
{
    if os.len() > 0 {
        lemma_render_options_pointwise(os.skip(1));
        assert(forall|i: int|
            1 <= i < os.len() ==> spec_render_options(os)[i] == spec_render_options(
                os.skip(1),
            )[i - 1]);
        assert(forall|i: int| 1 <= i < os.len() ==> os.skip(1)[i - 1] == os[i]);
    }
}

/// One question rendered back: its text, its header (with the default), its
/// options, and the optional flags only when they are set.
pub open spec fn spec_render_question(q: QuestionInfoV) -> JsonV {
    JsonV::Obj(
        (seq![
            ("question"@, JsonV::Text(q.question)),
            (
                "header"@,
                JsonV::Text(
                    match q.header {
                        Some(h) => h,
                        None => "Question"@,
                    },
                ),
            ),
            ("options"@, JsonV::List(spec_render_options(q.options))),
        ]) + (match q.multi_select {
            Some(m) => seq![("multiple"@, JsonV::Bool(m))],
            None => Seq::empty(),
        }) + (match q.custom {
            Some(x) => seq![("custom"@, JsonV::Bool(x))],
            None => Seq::empty(),
        }),
    )
}

pub open spec fn spec_render_questions(qs: Seq<QuestionInfoV>) -> Seq<JsonV>
    decreases qs.len(),
{
    if qs.len() == 0 {
        Seq::empty()
    } else {
        seq![spec_render_question(qs[0])] + spec_render_questions(qs.skip(1))
    }
}

proof fn lemma_render_questions_pointwise(qs: Seq<QuestionInfoV>)
    ensures
        spec_render_questions(qs).len() == qs.len(),
        forall|i: int|
            0 <= i < qs.len() ==> spec_render_questions(qs)[i] == spec_render_question(qs[i]),
    decreases qs.len(),
{
    if qs.len() > 0 {
        lemma_render_questions_pointwise(qs.skip(1));
        assert(forall|i: int|
            1 <= i < qs.len() ==> spec_render_questions(qs)[i] == spec_render_questions(
                qs.skip(1),
            )[i - 1]);
        assert(forall|i: int| 1 <= i < qs.len() ==> qs.skip(1)[i - 1] == qs[i]);
    }
}

/// Strings rendered back as string documents.
pub open spec fn spec_render_texts(ss: Seq<Seq<char>>) -> Seq<JsonV>
    decreases ss.len(),
{
    if ss.len() == 0 {
        Seq::empty()
    } else {
        seq![JsonV::Text(ss[0])] + spec_render_texts(ss.skip(1))
    }
}

proof fn lemma_render_texts_pointwise(ss: Seq<Seq<char>>)
    ensures
        spec_render_texts(ss).len() == ss.len(),
        forall|i: int| 0 <= i < ss.len() ==> spec_render_texts(ss)[i] == JsonV::Text(ss[i]),
    decreases ss.len(),
{
    if ss.len() > 0 {
        lemma_render_texts_pointwise(ss.skip(1));
        assert(forall|i: int|
            1 <= i < ss.len() ==> spec_render_texts(ss)[i] == spec_render_texts(ss.skip(1))[i
                - 1]);
        assert(forall|i: int| 1 <= i < ss.len() ==> ss.skip(1)[i - 1] == ss[i]);
    }
}

/// Looking a key up fails when no entry has it.
proof fn lemma_lookup_absent(entries: Seq<(Seq<char>, JsonV)>, key: Seq<char>)
    requires
        forall|j: int| 0 <= j < entries.len() ==> (#[trigger] entries[j]).0 != key,
    ensures
        crate::json::spec_lookup(entries, key) is None,
    decreases entries.len(),
{
    if entries.len() > 0 {
        assert(forall|j: int|
            0 <= j < entries.skip(1).len() ==> (#[trigger] entries.skip(1)[j]) == entries[j
                + 1]);
        lemma_lookup_absent(entries.skip(1), key);
    }
}

/// Renders a question request back to the sidecar's shape: its id, owning
/// session, every question with its options (headers and descriptions
/// defaulting where absent), and the tool back-reference when present.
#[verifier::loop_isolation(false)]
#[verifier::rlimit(60)]
pub fn question_request_to_opencode(request: &QuestionRequest) -> (r: Json)
    ensures
        spec_text_at(r.deep_view(), "id"@) == Some(request.deep_view().id),
        spec_text_at(r.deep_view(), "sessionID"@) == Some(request.deep_view().session_id),
        json_get(r.deep_view(), "questions"@) == Some(
            JsonV::List(spec_render_questions(request.deep_view().questions)),
        ),
        (match request.deep_view().tool {
            Some(tref) => json_get(r.deep_view(), "tool"@) == Some(
                JsonV::Obj(
                    seq![
                        ("messageID"@, JsonV::Text(tref.message_id)),
                        ("callID"@, JsonV::Text(tref.call_id)),
                    ],
                ),
            ),
            None => json_get(r.deep_view(), "tool"@) is None,
        }),
{
    proof {
        lemma_back_keys_distinct();
        reveal_strlit("Question");
    }
    let mut questions: Vec<Json> = Vec::new();
    let mut i: usize = 0;
    while i < request.questions.len()
        invariant
            0 <= i <= request.questions@.len(),
            questions@.len() == i as int,
            forall|j: int|
                0 <= j < i ==> crate::json::jv(#[trigger] questions@[j]) == spec_render_question(
                    request.questions.deep_view()[j],
                ),
        decreases request.questions@.len() - i,
    {
        let q = &request.questions[i];
        let mut opts: Vec<Json> = Vec::new();
        let mut k: usize = 0;
        while k < q.options.len()
            invariant
                0 <= k <= q.options@.len(),
                opts@.len() == k as int,
                forall|j: int|
                    0 <= j < k ==> crate::json::jv(#[trigger] opts@[j]) == spec_render_option(
                        q.options.deep_view()[j],
                    ),
            decreases q.options@.len() - k,
        {
            let o = &q.options[k];
            let mut oe: Vec<(String, Json)> = Vec::new();
            oe.push((String::from_str("label"), Json::Text(o.label.clone())));
            oe.push(
                (
                    String::from_str("description"),
                    Json::Text(
                        match &o.description {
                            Some(d) => d.clone(),
                            None => String::new(),
                        },
                    ),
                ),
            );
            let oobj = Json::Obj(oe);
            proof {
                crate::json::lemma_jv_obj(oobj->Obj_0@);
                assert(crate::json::jv_obj(oobj->Obj_0@) =~= spec_render_option(
                    o.deep_view(),
                )->Obj_0);
            }
            opts.push(oobj);
            k = k + 1;
        }
        proof {
            lemma_render_options_pointwise(q.options.deep_view());
            crate::json::lemma_jv_list(opts@);
            assert(crate::json::jv_list(opts@) =~= spec_render_options(q.options.deep_view()));
        }
        let mut qe: Vec<(String, Json)> = Vec::new();
        qe.push((String::from_str("question"), Json::Text(q.question.clone())));
        qe.push(
            (
                String::from_str("header"),
                Json::Text(
                    match &q.header {
                        Some(h) => h.clone(),
                        None => String::from_str("Question"),
                    },
                ),
            ),
        );
        qe.push((String::from_str("options"), Json::List(opts)));
        if let Some(m) = q.multi_select {
            qe.push((String::from_str("multiple"), Json::Bool(m)));
        }
        if let Some(x) = q.custom {
            qe.push((String::from_str("custom"), Json::Bool(x)));
        }
        let qobj = Json::Obj(qe);
        proof {
            crate::json::lemma_jv_obj(qobj->Obj_0@);
            assert(crate::json::jv_obj(qobj->Obj_0@) =~= spec_render_question(
                q.deep_view(),
            )->Obj_0);
        }
        questions.push(qobj);
        i = i + 1;
    }
    proof {
        lemma_render_questions_pointwise(request.questions.deep_view());
        crate::json::lemma_jv_list(questions@);
        assert(crate::json::jv_list(questions@) =~= spec_render_questions(
            request.questions.deep_view(),
        ));
    }
    let mut entries: Vec<(String, Json)> = Vec::new();
    entries.push((String::from_str("id"), Json::Text(request.id.clone())));
    entries.push((String::from_str("sessionID"), Json::Text(request.session_id.clone())));
    entries.push((String::from_str("questions"), Json::List(questions)));
    if let Some(tool) = &request.tool {
        let mut te: Vec<(String, Json)> = Vec::new();
        te.push((String::from_str("messageID"), Json::Text(tool.message_id.clone())));
        te.push((String::from_str("callID"), Json::Text(tool.call_id.clone())));
        let tobj = Json::Obj(te);
        proof {
            crate::json::lemma_jv_obj(tobj->Obj_0@);
            assert(crate::json::jv_obj(tobj->Obj_0@) =~= seq![
                ("messageID"@, JsonV::Text(tool.message_id@)),
                ("callID"@, JsonV::Text(tool.call_id@)),
            ]);
        }
        entries.push((String::from_str("tool"), tobj));
    }
    let out = Json::Obj(entries);
    proof {
        crate::json::lemma_jv_obj(out->Obj_0@);
        lemma_lookup_first(crate::json::jv_obj(out->Obj_0@), "id"@, 0);
        lemma_lookup_first(crate::json::jv_obj(out->Obj_0@), "sessionID"@, 1);
        lemma_lookup_first(crate::json::jv_obj(out->Obj_0@), "questions"@, 2);
        if request.tool is Some {
            lemma_lookup_first(crate::json::jv_obj(out->Obj_0@), "tool"@, 3);
        } else {
            lemma_lookup_absent(crate::json::jv_obj(out->Obj_0@), "tool"@);
        }
    }
    out
}

/// Renders a permission request back to the sidecar's shape: its id, owning
/// session, permission string, pattern and always lists, metadata, and the
/// tool back-reference when present.
#[verifier::loop_isolation(false)]
#[verifier::rlimit(60)]
pub fn permission_request_to_opencode(request: &PermissionRequest) -> (r: Json)
    ensures
        spec_text_at(r.deep_view(), "id"@) == Some(request.deep_view().id),
        spec_text_at(r.deep_view(), "sessionID"@) == Some(request.deep_view().session_id),
        spec_text_at(r.deep_view(), "permission"@) == Some(request.deep_view().permission),
        json_get(r.deep_view(), "patterns"@) == Some(
            JsonV::List(spec_render_texts(request.deep_view().patterns)),
        ),
        json_get(r.deep_view(), "always"@) == Some(
            JsonV::List(spec_render_texts(request.deep_view().always)),
        ),
        json_get(r.deep_view(), "metadata"@) == Some(JsonV::Obj(request.deep_view().metadata)),
        (match request.deep_view().tool {
            Some(tref) => json_get(r.deep_view(), "tool"@) == Some(
                JsonV::Obj(
                    seq![
                        ("messageID"@, JsonV::Text(tref.message_id)),
                        ("callID"@, JsonV::Text(tref.call_id)),
                    ],
                ),
            ),
            None => json_get(r.deep_view(), "tool"@) is None,
        }),
{
    proof {
        lemma_back_keys_distinct();
    }
    let mut entries: Vec<(String, Json)> = Vec::new();
    entries.push((String::from_str("id"), Json::Text(request.id.clone())));
    entries.push((String::from_str("sessionID"), Json::Text(request.session_id.clone())));
    entries.push((String::from_str("permission"), Json::Text(request.permission.clone())));
    let mut patterns: Vec<Json> = Vec::new();
    let mut i: usize = 0;
    while i < request.patterns.len()
        invariant
            0 <= i <= request.patterns@.len(),
            patterns@.len() == i as int,
            forall|j: int|
                0 <= j < i ==> crate::json::jv(#[trigger] patterns@[j]) == JsonV::Text(
                    request.patterns.deep_view()[j],
                ),
        decreases request.patterns@.len() - i,
    {
        patterns.push(Json::Text(request.patterns[i].clone()));
        i = i + 1;
    }
    proof {
        lemma_render_texts_pointwise(request.patterns.deep_view());
        crate::json::lemma_jv_list(patterns@);
        assert(crate::json::jv_list(patterns@) =~= spec_render_texts(
            request.patterns.deep_view(),
        ));
    }
    entries.push((String::from_str("patterns"), Json::List(patterns)));
    let mut always: Vec<Json> = Vec::new();
    let mut k: usize = 0;
    while k < request.always.len()
        invariant
            0 <= k <= request.always@.len(),
            always@.len() == k as int,
            forall|j: int|
                0 <= j < k ==> crate::json::jv(#[trigger] always@[j]) == JsonV::Text(
                    request.always.deep_view()[j],
                ),
        decreases request.always@.len() - k,
    {
        always.push(Json::Text(request.always[k].clone()));
        k = k + 1;
    }
    proof {
        lemma_render_texts_pointwise(request.always.deep_view());
        crate::json::lemma_jv_list(always@);
        assert(crate::json::jv_list(always@) =~= spec_render_texts(request.always.deep_view()));
    }
    entries.push((String::from_str("always"), Json::List(always)));
    let meta = crate::universal::clone_metadata(&request.metadata);
    proof {
        crate::json::lemma_jv_obj(meta@);
        assert(crate::json::jv_obj(meta@) =~= request.metadata.deep_view());
    }
    entries.push((String::from_str("metadata"), Json::Obj(meta)));
    if let Some(tool) = &request.tool {
        let mut te: Vec<(String, Json)> = Vec::new();
        te.push((String::from_str("messageID"), Json::Text(tool.message_id.clone())));
        te.push((String::from_str("callID"), Json::Text(tool.call_id.clone())));
        let tobj = Json::Obj(te);
        proof {
            crate::json::lemma_jv_obj(tobj->Obj_0@);
            assert(crate::json::jv_obj(tobj->Obj_0@) =~= seq![
                ("messageID"@, JsonV::Text(tool.message_id@)),
                ("callID"@, JsonV::Text(tool.call_id@)),
            ]);
        }
        entries.push((String::from_str("tool"), tobj));
    }
    let out = Json::Obj(entries);
    proof {
        crate::json::lemma_jv_obj(out->Obj_0@);
        lemma_lookup_first(crate::json::jv_obj(out->Obj_0@), "id"@, 0);
        lemma_lookup_first(crate::json::jv_obj(out->Obj_0@), "sessionID"@, 1);
        lemma_lookup_first(crate::json::jv_obj(out->Obj_0@), "permission"@, 2);
        lemma_lookup_first(crate::json::jv_obj(out->Obj_0@), "patterns"@, 3);
        lemma_lookup_first(crate::json::jv_obj(out->Obj_0@), "always"@, 4);
        lemma_lookup_first(crate::json::jv_obj(out->Obj_0@), "metadata"@, 5);
        if request.tool is Some {
            lemma_lookup_first(crate::json::jv_obj(out->Obj_0@), "tool"@, 6);
        } else {
            lemma_lookup_absent(crate::json::jv_obj(out->Obj_0@), "tool"@);
        }
    }
    out
}

proof fn lemma_back_keys_distinct()
    ensures
        "id"@ != "sessionID"@,
        "id"@ != "questions"@,
        "id"@ != "tool"@,
        "id"@ != "permission"@,
        "id"@ != "patterns"@,
        "id"@ != "always"@,
        "id"@ != "metadata"@,
        "sessionID"@ != "questions"@,
        "sessionID"@ != "tool"@,
        "sessionID"@ != "permission"@,
        "sessionID"@ != "patterns"@,
        "sessionID"@ != "always"@,
        "sessionID"@ != "metadata"@,
        "questions"@ != "tool"@,
        "permission"@ != "patterns"@,
        "permission"@ != "always"@,
        "permission"@ != "metadata"@,
        "permission"@ != "tool"@,
        "patterns"@ != "always"@,
        "patterns"@ != "metadata"@,
        "patterns"@ != "tool"@,
        "always"@ != "metadata"@,
        "always"@ != "tool"@,
        "metadata"@ != "tool"@,
{
    reveal_strlit("id");
    reveal_strlit("sessionID");
    reveal_strlit("questions");
    reveal_strlit("tool");
    reveal_strlit("permission");
    reveal_strlit("patterns");
    reveal_strlit("always");
    reveal_strlit("metadata");
    assert("id"@.len() == 2);
    assert("sessionID"@.len() == 9);
    assert("questions"@.len() == 9);
    assert("tool"@.len() == 4);
    assert("permission"@.len() == 10);
    assert("patterns"@.len() == 8);
    assert("always"@.len() == 6);
    assert("metadata"@.len() == 8);
    assert("sessionID"@[0] == 's');
    assert("questions"@[0] == 'q');
    assert("patterns"@[0] == 'p');
    assert("metadata"@[0] == 'm');
}

/// Looking the key of an entry up finds that entry when no earlier entry has
/// the key.
proof fn lemma_lookup_first(entries: Seq<(Seq<char>, JsonV)>, key: Seq<char>, i: int)
    requires
        0 <= i < entries.len(),
        entries[i].0 == key,
        forall|j: int| 0 <= j < i ==> (#[trigger] entries[j]).0 != key,
    ensures
        crate::json::spec_lookup(entries, key) == Some(entries[i].1),
    decreases i,
{
    if i > 0 {
        assert(forall|j: int|
            0 <= j < entries.skip(1).len() ==> (#[trigger] entries.skip(1)[j]) == entries[j + 1]);
        lemma_lookup_first(entries.skip(1), key, i - 1);
    }
}

} // verus!
