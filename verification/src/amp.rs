use vstd::prelude::*;

use crate::json::{json_get, spec_text_at, Json, JsonV};
use crate::universal::{
    message_from_parts, message_from_text, text_only_from_parts, ConversionError, CrashInfoV,
    EventConversion, EventConversionV, MessageV, ParsedV, PartV, UniversalEventData,
    UniversalEventType, UniversalMessage, UniversalMessagePart,
};

verus! {

// ---------------------------------------------------------------------------
// Wire events arriving line by line from the Amp backend: a flat record with
// a type tag, optional content, error, id and tool call.
// ---------------------------------------------------------------------------

proof fn lemma_amp_labels_distinct()
    ensures
        "message"@ != "tool_call"@,
        "message"@ != "tool_result"@,
        "message"@ != "error"@,
        "message"@ != "done"@,
        "tool_call"@ != "tool_result"@,
        "tool_call"@ != "error"@,
        "tool_call"@ != "done"@,
        "tool_result"@ != "error"@,
        "tool_result"@ != "done"@,
        "error"@ != "done"@,
{
    reveal_strlit("message");
    reveal_strlit("tool_call");
    reveal_strlit("tool_result");
    reveal_strlit("error");
    reveal_strlit("done");
    assert("message"@.len() == 7);
    assert("tool_call"@.len() == 9);
    assert("tool_result"@.len() == 11);
    assert("error"@.len() == 5);
    assert("done"@.len() == 4);
}

/// The tool-call part of a line event: its id, name and arguments as they
/// stand; an event without a tool call yields a raw marker.
pub open spec fn spec_amp_tool_part(ev: JsonV) -> PartV {
    match json_get(ev, "tool_call"@) {
        Some(tc) => PartV::ToolCall {
            id: spec_text_at(tc, "id"@),
            name: (match spec_text_at(tc, "name"@) {
                Some(n) => n,
                None => Seq::empty(),
            }),
            input: (match json_get(tc, "arguments"@) {
                Some(a) => a,
                None => JsonV::Null,
            }),
        },
        None => PartV::Unknown { raw: JsonV::Null },
    }
}

/// The whole adapter: what each line event of this backend becomes. A
/// message becomes an assistant text message carrying the event's id; a tool
/// call becomes a tool-call message; a tool result becomes a tool message;
/// an error becomes a crash event; a done marker or anything unrecognized is
/// passed through raw.
pub open spec fn spec_amp_conversion(ev: JsonV, c: EventConversionV) -> bool {
    let ty = spec_text_at(ev, "type"@);
    &&& ty == Some("message"@) ==> c.event_type == UniversalEventType::Message && c.data
        == (crate::universal::EventDataV::Message {
        message: MessageV::Parsed(
            ParsedV {
                role: "assistant"@,
                id: spec_text_at(ev, "id"@),
                metadata: Seq::empty(),
                parts: seq![
                    PartV::Text {
                        text: (match spec_text_at(ev, "content"@) {
                            Some(t) => t,
                            None => Seq::empty(),
                        }),
                    },
                ],
            },
        ),
    })
    &&& ty == Some("tool_call"@) ==> c.event_type == UniversalEventType::Message && c.data
        == (crate::universal::EventDataV::Message {
        message: MessageV::Parsed(
            ParsedV {
                role: "assistant"@,
                id: spec_text_at(ev, "id"@),
                metadata: Seq::empty(),
                parts: seq![spec_amp_tool_part(ev)],
            },
        ),
    })
    &&& ty == Some("tool_result"@) ==> c.event_type == UniversalEventType::Message && c.data
        == (crate::universal::EventDataV::Message {
        message: MessageV::Parsed(
            ParsedV {
                role: "tool"@,
                id: None,
                metadata: Seq::empty(),
                parts: seq![
                    PartV::ToolResult {
                        id: spec_text_at(ev, "id"@),
                        name: None,
                        output: (match spec_text_at(ev, "content"@) {
                            Some(t) => JsonV::Text(t),
                            None => JsonV::Null,
                        }),
                        is_error: None,
                    },
                ],
            },
        ),
    })
    &&& ty == Some("error"@) ==> c.event_type == UniversalEventType::Error && c.data
        == (crate::universal::EventDataV::Error {
        error: CrashInfoV {
            message: (match spec_text_at(ev, "error"@) {
                Some(m) => m,
                None => "amp error"@,
            }),
            kind: Some("amp"@),
            details: Some(ev),
        },
    })
    &&& ty == Some("done"@) ==> c.event_type == UniversalEventType::Unknown && c.data
        == (crate::universal::EventDataV::Unknown { raw: ev })
    &&& (ty is None || (ty matches Some(t) && t != "message"@ && t != "tool_call"@ && t
        != "tool_result"@ && t != "error"@ && t != "done"@)) ==> c.event_type
        == UniversalEventType::Unknown && c.data == (crate::universal::EventDataV::Unknown {
        raw: ev,
    })
    &&& c.agent_session_id is None
    &&& !c.synthetic
}

/// Translates one line event of this backend.
pub fn event_to_universal(event: &Json) -> (r: EventConversion)
    ensures
        spec_amp_conversion(event.deep_view(), r.deep_view()),
{
    proof {
        lemma_amp_labels_distinct();
    }
    let ty = match event.get_text("type") {
        Some(t) => t,
        None => {
            return EventConversion::new(
                UniversalEventType::Unknown,
                UniversalEventData::Unknown { raw: event.clone() },
            );
        }
    };
    if crate::json::str_eq(ty.as_str(), "message") {
        let text = match event.get_text("content") {
            Some(t) => t,
            None => String::new(),
        };
        let mut message = message_from_text("assistant", text);
        if let UniversalMessage::Parsed(parsed) = &mut message {
            parsed.id = event.get_text("id");
        }
        EventConversion::new(
            UniversalEventType::Message,
            UniversalEventData::Message { message },
        )
    } else if crate::json::str_eq(ty.as_str(), "tool_call") {
        let part: UniversalMessagePart = match event.get("tool_call") {
            Some(tc) => {
                let name = match tc.get_text("name") {
                    Some(n) => n,
                    None => String::new(),
                };
                let input = match tc.get("arguments") {
                    Some(a) => a.clone(),
                    None => Json::Null,
                };
                UniversalMessagePart::ToolCall { id: tc.get_text("id"), name, input }
            }
            None => UniversalMessagePart::Unknown { raw: Json::Null },
        };
        let parts = vec![part];
        proof {
            assert(parts.deep_view() =~= seq![parts@[0].deep_view()]);
        }
        let mut message = message_from_parts("assistant", parts);
        if let UniversalMessage::Parsed(parsed) = &mut message {
            parsed.id = event.get_text("id");
        }
        EventConversion::new(
            UniversalEventType::Message,
            UniversalEventData::Message { message },
        )
    } else if crate::json::str_eq(ty.as_str(), "tool_result") {
        let output: Json = match event.get_text("content") {
            Some(t) => Json::Text(t),
            None => Json::Null,
        };
        let part = UniversalMessagePart::ToolResult {
            id: event.get_text("id"),
            name: None,
            output,
            is_error: None,
        };
        let parts = vec![part];
        proof {
            assert(parts.deep_view() =~= seq![parts@[0].deep_view()]);
        }
        let message = message_from_parts("tool", parts);
        EventConversion::new(
            UniversalEventType::Message,
            UniversalEventData::Message { message },
        )
    } else if crate::json::str_eq(ty.as_str(), "error") {
        let message = match event.get_text("error") {
            Some(m) => m,
            None => String::from_str("amp error"),
        };
        let crash = crate::universal::CrashInfo {
            message,
            kind: Some(String::from_str("amp")),
            details: Some(event.clone()),
        };
        EventConversion::new(
            UniversalEventType::Error,
            UniversalEventData::Error { error: crash },
        )
    } else {
        EventConversion::new(
            UniversalEventType::Unknown,
            UniversalEventData::Unknown { raw: event.clone() },
        )
    }
}

/// Renders a universal message event as one line event; only a parsed,
/// all-text message can go back.
pub fn universal_event_to_amp(event: &UniversalEventData) -> (r: Result<Json, ConversionError>)
    ensures
        !(event.deep_view() matches crate::universal::EventDataV::Message {
            message: MessageV::Parsed(p),
        }) ==> r is Err,
        event.deep_view() matches crate::universal::EventDataV::Message {
            message: MessageV::Parsed(p),
        } ==> (r is Ok <==> crate::universal::all_text_parts(p.parts)
            && crate::universal::spec_join_texts(p.parts, Seq::empty()).len() > 0),
        r matches Ok(v) ==> event.deep_view() matches crate::universal::EventDataV::Message {
            message: MessageV::Parsed(p),
        } && v.deep_view() == (JsonV::Obj(
            (seq![
                ("type"@, JsonV::Text("message"@)),
                (
                    "content"@,
                    JsonV::Text(crate::universal::spec_join_texts(p.parts, Seq::empty())),
                ),
            ]) + (match p.id {
                Some(id) => seq![("id"@, JsonV::Text(id))],
                None => Seq::empty(),
            }),
        )),
{
    let parsed = match event {
        UniversalEventData::Message { message } => match message {
            UniversalMessage::Parsed(parsed) => parsed,
            UniversalMessage::Unparsed { .. } => {
                return Err(ConversionError::Unsupported(String::from_str("unparsed message")));
            }
        },
        _ => {
            return Err(ConversionError::Unsupported(String::from_str("amp event")));
        }
    };
    let content = match text_only_from_parts(&parsed.parts) {
        Ok(t) => t,
        Err(e) => {
            return Err(e);
        }
    };
    let ghost content_v = content@;
    let mut entries: Vec<(String, Json)> = Vec::new();
    entries.push((String::from_str("type"), Json::Text(String::from_str("message"))));
    entries.push((String::from_str("content"), Json::Text(content)));
    let ghost base = seq![
        ("type"@, JsonV::Text("message"@)),
        ("content"@, JsonV::Text(content_v)),
    ];
    if let Some(id) = &parsed.id {
        entries.push((String::from_str("id"), Json::Text(id.clone())));
    }
    let out = Json::Obj(entries);
    proof {
        crate::json::lemma_jv_obj(out->Obj_0@);
        match &parsed.id {
            Some(id) => {
                assert(crate::json::jv_obj(out->Obj_0@) =~= base + seq![
                    ("id"@, JsonV::Text(id@)),
                ]);
            }
            None => {
                assert(crate::json::jv_obj(out->Obj_0@) =~= base + Seq::<(
                    Seq<char>,
                    JsonV,
                )>::empty());
            }
        }
    }
    Ok(out)
}

/// A backend chat message as a universal message: its text, then each of its
/// tool calls.
pub fn message_to_universal(message: &Json) -> (r: UniversalMessage)
    ensures
        r.deep_view() matches MessageV::Parsed(p) && {
            &&& p.role == (match spec_text_at(message.deep_view(), "role"@) {
                Some(x) => x,
                None => "user"@,
            })
            &&& p.id is None
            &&& p.parts.len() >= 1
            &&& p.parts[0] == PartV::Text {
                text: (match spec_text_at(message.deep_view(), "content"@) {
                    Some(t) => t,
                    None => Seq::empty(),
                }),
            }
        },
{
    let role = match message.get_text("role") {
        Some(x) => x,
        None => String::from_str("user"),
    };
    let text = match message.get_text("content") {
        Some(t) => t,
        None => String::new(),
    };
    let mut parts: Vec<UniversalMessagePart> = Vec::new();
    let ghost first = UniversalMessagePart::Text { text: text }.deep_view();
    parts.push(UniversalMessagePart::Text { text });
    if let Some(calls) = message.get("tool_calls") {
        if let Some(items) = calls.as_list() {
            let mut i: usize = 0;
            while i < items.len()
                invariant
                    parts@.len() >= 1,
                    parts.deep_view()[0] == first,
                decreases items@.len() - i,
            {
                let tc = &items[i];
                let name = match tc.get_text("name") {
                    Some(n) => n,
                    None => String::new(),
                };
                let input = match tc.get("arguments") {
                    Some(a) => a.clone(),
                    None => Json::Null,
                };
                parts.push(UniversalMessagePart::ToolCall { id: tc.get_text("id"), name, input });
                i = i + 1;
            }
        }
    }
    let r = UniversalMessage::Parsed(
        crate::universal::UniversalMessageParsed {
            role,
            id: None,
            metadata: Vec::new(),
            parts,
        },
    );
    r
}

/// Renders a parsed, all-text universal message as one backend chat message
/// with a known role.
pub fn universal_message_to_message(message: &UniversalMessage) -> (r: Result<
    Json,
    ConversionError,
>)
    ensures
        message.deep_view() matches MessageV::Parsed(p2) ==> (r is Ok <==> crate::universal::all_text_parts(
            p2.parts,
        ) && crate::universal::spec_join_texts(p2.parts, Seq::empty()).len() > 0),
        message.deep_view() matches MessageV::Unparsed { .. } ==> r is Err,
        r matches Ok(v) ==> message.deep_view() matches MessageV::Parsed(p) && v.deep_view()
            == (JsonV::Obj(
            seq![
                (
                    "role"@,
                    JsonV::Text(
                        if p.role == "assistant"@ || p.role == "system"@ {
                            p.role
                        } else {
                            "user"@
                        },
                    ),
                ),
                (
                    "content"@,
                    JsonV::Text(crate::universal::spec_join_texts(p.parts, Seq::empty())),
                ),
            ],
        )),
{
    proof {
        lemma_amp_role_labels_distinct();
    }
    let parsed = match message {
        UniversalMessage::Parsed(parsed) => parsed,
        UniversalMessage::Unparsed { .. } => {
            return Err(ConversionError::Unsupported(String::from_str("unparsed message")));
        }
    };
    let content = match text_only_from_parts(&parsed.parts) {
        Ok(t) => t,
        Err(e) => {
            return Err(e);
        }
    };
    let ghost content_v = content@;
    let role: String = if crate::json::str_eq(parsed.role.as_str(), "assistant") {
        String::from_str("assistant")
    } else if crate::json::str_eq(parsed.role.as_str(), "system") {
        String::from_str("system")
    } else {
        String::from_str("user")
    };
    let ghost role_v = role@;
    let mut entries: Vec<(String, Json)> = Vec::new();
    entries.push((String::from_str("role"), Json::Text(role)));
    entries.push((String::from_str("content"), Json::Text(content)));
    let out = Json::Obj(entries);
    proof {
        crate::json::lemma_jv_obj(out->Obj_0@);
        assert(crate::json::jv_obj(out->Obj_0@) =~= seq![
            ("role"@, JsonV::Text(role_v)),
            ("content"@, JsonV::Text(content_v)),
        ]);
    }
    Ok(out)
}

proof fn lemma_amp_role_labels_distinct()
    ensures
        "assistant"@ != "system"@,
        "assistant"@ != "user"@,
        "system"@ != "user"@,
{
    reveal_strlit("assistant");
    reveal_strlit("system");
    reveal_strlit("user");
    assert("assistant"@.len() == 9);
    assert("system"@.len() == 6);
    assert("user"@.len() == 4);
}

} // verus!
