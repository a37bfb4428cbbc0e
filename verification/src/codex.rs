use vstd::prelude::*;

use crate::json::{json_get, spec_text_at, Json, JsonV};
use crate::universal::{
    extract_message_from_value, message_from_text, text_only_from_parts, AttachmentSource,
    ConversionError, CrashInfoV, EventConversion, EventConversionV, MessageV, ParsedV, PartV,
    StartedV, UniversalEventData, UniversalEventType, UniversalMessage, UniversalMessageParsed,
    UniversalMessagePart,
};

verus! {

// ---------------------------------------------------------------------------
// Wire events arriving line by line from the Codex backend: thread lifecycle
// markers and thread items.
// ---------------------------------------------------------------------------

proof fn lemma_codex_labels_distinct()
    ensures
        "thread.created"@ != "thread.updated"@,
        "thread.created"@ != "item.created"@,
        "thread.created"@ != "item.updated"@,
        "thread.created"@ != "error"@,
        "thread.updated"@ != "item.created"@,
        "thread.updated"@ != "item.updated"@,
        "thread.updated"@ != "error"@,
        "item.created"@ != "item.updated"@,
        "item.created"@ != "error"@,
        "item.updated"@ != "error"@,
        "message"@ != "function_call"@,
        "message"@ != "function_result"@,
        "function_call"@ != "function_result"@,
{
    reveal_strlit("thread.created");
    reveal_strlit("thread.updated");
    reveal_strlit("item.created");
    reveal_strlit("item.updated");
    reveal_strlit("error");
    reveal_strlit("message");
    reveal_strlit("function_call");
    reveal_strlit("function_result");
    assert("thread.created"@.len() == 14);
    assert("thread.updated"@.len() == 14);
    assert("item.created"@.len() == 12);
    assert("item.updated"@.len() == 12);
    assert("error"@.len() == 5);
    assert("message"@.len() == 7);
    assert("function_call"@.len() == 13);
    assert("function_result"@.len() == 15);
    assert("thread.created"@[7] == 'c');
    assert("thread.updated"@[7] == 'u');
    assert("item.created"@[5] == 'c');
    assert("item.updated"@[5] == 'u');
}

/// The role a thread item claims, assistant when it claims none.
pub open spec fn spec_item_role(item: JsonV) -> Seq<char> {
    match spec_text_at(item, "role"@) {
        Some(r) => r,
        None => "assistant"@,
    }
}

/// A thread item as a universal message: its id, its role, and parts chosen
/// by the item's own type.
pub fn thread_item_to_message(item: &Json) -> (r: UniversalMessage)
    ensures
        r.deep_view() matches MessageV::Parsed(p) && {
            &&& p.role == spec_item_role(item.deep_view())
            &&& p.id == spec_text_at(item.deep_view(), "id"@)
        },
{
    proof {
        lemma_codex_labels_distinct();
    }
    let id = item.get_text("id");
    let role = match item.get_text("role") {
        Some(x) => x,
        None => String::from_str("assistant"),
    };
    let item_type = match item.get_text("type") {
        Some(t) => t,
        None => String::new(),
    };
    let mut metadata: Vec<(String, Json)> = Vec::new();
    metadata.push((String::from_str("itemType"), Json::Text(item_type.clone())));
    if let Some(status) = item.get_text("status") {
        metadata.push((String::from_str("status"), Json::Text(status)));
    }

    let mut parts: Vec<UniversalMessagePart> = Vec::new();
    if crate::json::str_eq(item_type.as_str(), "function_call") {
        parts.push(function_call_part(id.as_ref(), item));
    } else if crate::json::str_eq(item_type.as_str(), "function_result") {
        parts.push(function_result_part(id.as_ref(), item));
    } else {
        match item.get("content") {
            Some(c) => match c.as_text() {
                Some(t) => {
                    parts.push(UniversalMessagePart::Text { text: t.clone() });
                }
                None => {
                    parts.push(UniversalMessagePart::Unknown { raw: c.clone() });
                }
            },
            None => {}
        }
    }
    UniversalMessage::Parsed(UniversalMessageParsed { role, id, metadata, parts })
}

fn function_call_part(item_id: Option<&String>, item: &Json) -> (r: UniversalMessagePart)
    ensures
        r.deep_view() is FunctionCall,
{
    let raw: Json = match item.get("content") {
        Some(c) => c.clone(),
        None => Json::Null,
    };
    let name = match item.get("content") {
        Some(c) => c.get_text("name"),
        None => None,
    };
    let arguments: Json = match item.get("content") {
        Some(c) => match c.get("arguments") {
            Some(a) => a.clone(),
            None => c.clone(),
        },
        None => Json::Null,
    };
    UniversalMessagePart::FunctionCall {
        id: match item_id {
            Some(s) => Some(s.clone()),
            None => None,
        },
        name,
        arguments,
        raw: Some(raw),
    }
}

fn function_result_part(item_id: Option<&String>, item: &Json) -> (r: UniversalMessagePart)
    ensures
        r.deep_view() is FunctionResult,
{
    let raw: Json = match item.get("content") {
        Some(c) => c.clone(),
        None => Json::Null,
    };
    let name = match item.get("content") {
        Some(c) => c.get_text("name"),
        None => None,
    };
    let result: Json = match item.get("content") {
        Some(c) => match c.get("result") {
            Some(x) => x.clone(),
            None => match c.get("output") {
                Some(x) => x.clone(),
                None => match c.get("content") {
                    Some(x) => x.clone(),
                    None => c.clone(),
                },
            },
        },
        None => Json::Null,
    };
    UniversalMessagePart::FunctionResult {
        id: match item_id {
            Some(s) => Some(s.clone()),
            None => None,
        },
        name,
        result,
        is_error: None,
        raw: Some(raw),
    }
}

/// The whole adapter: what each line event of this backend becomes. Thread
/// markers become start events carrying the thread id; items become
/// messages; an error becomes a crash event; anything else is passed
/// through raw.
pub open spec fn spec_codex_conversion(ev: JsonV, c: EventConversionV) -> bool {
    let ty = spec_text_at(ev, "type"@);
    &&& (ty == Some("thread.created"@) || ty == Some("thread.updated"@)) ==> c.event_type
        == UniversalEventType::Started && c.agent_session_id == spec_text_at(ev, "thread_id"@)
        && c.data == (crate::universal::EventDataV::Started {
        started: StartedV { message: ty, details: Some(ev) },
    })
    &&& (ty == Some("item.created"@) || ty == Some("item.updated"@)) ==> (match json_get(
        ev,
        "item"@,
    ) {
        Some(item) => c.event_type == UniversalEventType::Message && c.agent_session_id
            == spec_text_at(ev, "thread_id"@) && (c.data matches
        crate::universal::EventDataV::Message { message: MessageV::Parsed(p) } && p.role
            == spec_item_role(item) && p.id == spec_text_at(item, "id"@)),
        None => c.event_type == UniversalEventType::Unknown && c.data
            == (crate::universal::EventDataV::Unknown { raw: ev }),
    })
    &&& ty == Some("error"@) ==> c.event_type == UniversalEventType::Error
        && c.agent_session_id == spec_text_at(ev, "thread_id"@) && (c.data matches
    crate::universal::EventDataV::Error { error: crash } && crash.kind == Some("error"@))
    &&& (ty is None || (ty matches Some(t) && t != "thread.created"@ && t != "thread.updated"@
        && t != "item.created"@ && t != "item.updated"@ && t != "error"@)) ==> c.event_type
        == UniversalEventType::Unknown && c.data == (crate::universal::EventDataV::Unknown {
        raw: ev,
    })
    &&& !c.synthetic
}

/// Translates one line event of this backend.
pub fn event_to_universal(event: &Json) -> (r: EventConversion)
    ensures
        spec_codex_conversion(event.deep_view(), r.deep_view()),
{
    proof {
        lemma_codex_labels_distinct();
    }
    let ty = match event.get_text("type") {
        Some(t) => t,
        None => {
            return EventConversion::new(
                UniversalEventType::Unknown,
                UniversalEventData::Unknown { raw: event.clone() },
            );
        }
    };
    let thread_id = event.get_text("thread_id");
    if crate::json::str_eq(ty.as_str(), "thread.created") || crate::json::str_eq(
        ty.as_str(),
        "thread.updated",
    ) {
        let started = crate::universal::Started {
            message: Some(ty),
            details: Some(event.clone()),
        };
        EventConversion::new(
            UniversalEventType::Started,
            UniversalEventData::Started { started },
        ).with_session(thread_id)
    } else if crate::json::str_eq(ty.as_str(), "item.created") || crate::json::str_eq(
        ty.as_str(),
        "item.updated",
    ) {
        match event.get("item") {
            Some(item) => {
                let message = thread_item_to_message(item);
                EventConversion::new(
                    UniversalEventType::Message,
                    UniversalEventData::Message { message },
                ).with_session(thread_id)
            }
            None => EventConversion::new(
                UniversalEventType::Unknown,
                UniversalEventData::Unknown { raw: event.clone() },
            ),
        }
    } else if crate::json::str_eq(ty.as_str(), "error") {
        let error_obj: Json = match event.get("error") {
            Some(e) => e.clone(),
            None => Json::Null,
        };
        let message = match extract_message_from_value(&error_obj) {
            Some(m) => m,
            None => String::from_str("codex error"),
        };
        let crash = crate::universal::CrashInfo {
            message,
            kind: Some(String::from_str("error")),
            details: Some(error_obj),
        };
        EventConversion::new(
            UniversalEventType::Error,
            UniversalEventData::Error { error: crash },
        ).with_session(thread_id)
    } else {
        EventConversion::new(
            UniversalEventType::Unknown,
            UniversalEventData::Unknown { raw: event.clone() },
        )
    }
}

// ---------------------------------------------------------------------------
// The reverse direction: universal values handed back to the backend.
// ---------------------------------------------------------------------------

/// Renders a universal message event as one item-created line event; only a
/// parsed, all-text message with an id can go back.
pub fn universal_event_to_codex(event: &UniversalEventData) -> (r: Result<Json, ConversionError>)
    ensures
        event.deep_view() matches crate::universal::EventDataV::Message {
            message: MessageV::Parsed(p2),
        } ==> (r is Ok <==> p2.id is Some && crate::universal::all_text_parts(p2.parts)
            && crate::universal::spec_join_texts(p2.parts, Seq::empty()).len() > 0),
        !(event.deep_view() matches crate::universal::EventDataV::Message {
            message: MessageV::Parsed(p),
        }) ==> r is Err,
        r matches Ok(v) ==> (event.deep_view() matches crate::universal::EventDataV::Message {
            message: MessageV::Parsed(p),
        } && p.id is Some && (v.deep_view() matches JsonV::Obj(entries) && entries.len() == 2
            && entries[0] == ("type"@, JsonV::Text("item.created"@)))),
{
    let parsed = match event {
        UniversalEventData::Message { message } => match message {
            UniversalMessage::Parsed(parsed) => parsed,
            UniversalMessage::Unparsed { .. } => {
                return Err(ConversionError::Unsupported(String::from_str("unparsed message")));
            }
        },
        _ => {
            return Err(ConversionError::Unsupported(String::from_str("codex event")));
        }
    };
    let id = match &parsed.id {
        Some(id) => id.clone(),
        None => {
            return Err(ConversionError::MissingField(String::from_str("message.id")));
        }
    };
    let content = match text_only_from_parts(&parsed.parts) {
        Ok(t) => t,
        Err(e) => {
            return Err(e);
        }
    };
    let role = match item_role_back(parsed.role.as_str()) {
        Some(r) => Some(Json::Text(r)),
        None => None,
    };
    let mut item_entries: Vec<(String, Json)> = Vec::new();
    item_entries.push((String::from_str("id"), Json::Text(id)));
    item_entries.push((String::from_str("type"), Json::Text(String::from_str("message"))));
    item_entries.push((String::from_str("content"), Json::Text(content)));
    if let Some(role) = role {
        item_entries.push((String::from_str("role"), role));
    }
    let item = Json::Obj(item_entries);
    let mut entries: Vec<(String, Json)> = Vec::new();
    entries.push((String::from_str("type"), Json::Text(String::from_str("item.created"))));
    entries.push((String::from_str("item"), item));
    let out = Json::Obj(entries);
    proof {
        crate::json::lemma_jv_obj(out->Obj_0@);
    }
    Ok(out)
}

fn item_role_back(role: &str) -> (r: Option<String>)
    ensures
        r matches Some(s) ==> (s@ == role@ && (role@ == "user"@ || role@ == "assistant"@ || role@
            == "system"@)),
        r is None ==> role@ != "user"@ && role@ != "assistant"@ && role@ != "system"@,
{
    if crate::json::str_eq(role, "user") {
        Some(String::from_str("user"))
    } else if crate::json::str_eq(role, "assistant") {
        Some(String::from_str("assistant"))
    } else if crate::json::str_eq(role, "system") {
        Some(String::from_str("system"))
    } else {
        None
    }
}

/// A backend chat message as a universal text message.
pub fn message_to_universal(message: &Json) -> (r: UniversalMessage)
    ensures
        r.deep_view() == MessageV::Parsed(
            ParsedV {
                role: (match spec_text_at(message.deep_view(), "role"@) {
                    Some(x) => x,
                    None => "user"@,
                }),
                id: None,
                metadata: Seq::empty(),
                parts: seq![
                    PartV::Text {
                        text: (match spec_text_at(message.deep_view(), "content"@) {
                            Some(t) => t,
                            None => Seq::empty(),
                        }),
                    },
                ],
            },
        ),
{
    let role = match message.get_text("role") {
        Some(x) => x,
        None => String::from_str("user"),
    };
    let text = match message.get_text("content") {
        Some(t) => t,
        None => String::new(),
    };
    message_from_text(role.as_str(), text)
}

/// Renders a parsed, all-text universal message as one backend chat message.
pub fn universal_message_to_message(message: &UniversalMessage) -> (r: Result<
    Json,
    ConversionError,
>)
    ensures
        message.deep_view() matches MessageV::Parsed(p2) ==> (r is Ok <==> crate::universal::all_text_parts(
            p2.parts,
        ) && crate::universal::spec_join_texts(p2.parts, Seq::empty()).len() > 0),
        message.deep_view() matches MessageV::Unparsed { .. } ==> r is Err,
        r matches Ok(v) ==> message.deep_view() matches MessageV::Parsed(p) && (v.deep_view()
            matches JsonV::Obj(entries) && entries.len() == 2 && entries[1] == (
            "content"@,
            JsonV::Text(crate::universal::spec_join_texts(p.parts, Seq::empty())),
        )),
{
    let parsed = match message {
        UniversalMessage::Parsed(parsed) => parsed,
        UniversalMessage::Unparsed { .. } => {
            return Err(ConversionError::Unsupported(String::from_str("unparsed message")));
        }
    };
    let content = match text_only_from_parts(&parsed.parts) {
        Ok(t) => t,
        Err(e) => {
            return Err(e);
        }
    };
    let role = match item_role_back(parsed.role.as_str()) {
        Some(r) => r,
        None => String::from_str("user"),
    };
    let mut entries: Vec<(String, Json)> = Vec::new();
    entries.push((String::from_str("role"), Json::Text(role)));
    entries.push((String::from_str("content"), Json::Text(content)));
    let out = Json::Obj(entries);
    proof {
        crate::json::lemma_jv_obj(out->Obj_0@);
    }
    Ok(out)
}

/// The prompt inputs of a message, each as a universal part.
pub fn inputs_to_universal_message(inputs: &Vec<Json>, role: &str) -> (r: UniversalMessage)
    ensures
        r.deep_view() matches MessageV::Parsed(p) && p.role == role@ && p.id is None
            && p.parts.len() == inputs@.len(),
{
    let mut parts: Vec<UniversalMessagePart> = Vec::new();
    let mut i: usize = 0;
    while i < inputs.len()
        invariant
            0 <= i <= inputs@.len(),
            parts@.len() == i as int,
        decreases inputs@.len() - i,
    {
        parts.push(input_to_universal_part(&inputs[i]));
        i = i + 1;
    }
    let r = UniversalMessage::Parsed(
        UniversalMessageParsed { role: role.to_owned(), id: None, metadata: Vec::new(), parts },
    );
    r
}

/// The attachment source a prompt input carries: its path, else its inline
/// content; an input with neither carries nothing.
pub open spec fn spec_input_source(iv: JsonV) -> Option<
    crate::universal::AttachmentSourceV,
> {
    match spec_text_at(iv, "path"@) {
        Some(p) => Some(crate::universal::AttachmentSourceV::Path { path: p }),
        None => match spec_text_at(iv, "content"@) {
            Some(d) => Some(
                crate::universal::AttachmentSourceV::Data { data: d, encoding: None },
            ),
            None => None,
        },
    }
}

/// One prompt input as a universal part: text keeps its text; files and
/// images become attachments from a path or inline content; an attachment
/// without either, and anything else, is carried raw.
pub fn input_to_universal_part(input: &Json) -> (r: UniversalMessagePart)
    ensures
        ({
            let iv = input.deep_view();
            let ty = spec_text_at(iv, "type"@);
            let mime = spec_text_at(iv, "mime_type"@);
            &&& ty == Some("text"@) ==> (match spec_text_at(iv, "content"@) {
                Some(t) => r.deep_view() == PartV::Text { text: t },
                None => r.deep_view() == PartV::Unknown { raw: iv },
            })
            &&& ty == Some("file"@) ==> (match spec_input_source(iv) {
                Some(source) => r.deep_view() == (PartV::File {
                    source,
                    mime_type: mime,
                    filename: None,
                    raw: Some(iv),
                }),
                None => r.deep_view() == PartV::Unknown { raw: iv },
            })
            &&& ty == Some("image"@) ==> (match spec_input_source(iv) {
                Some(source) => r.deep_view() == (PartV::Image {
                    source,
                    mime_type: mime,
                    alt: None,
                    raw: Some(iv),
                }),
                None => r.deep_view() == PartV::Unknown { raw: iv },
            })
            &&& (ty is None || (ty matches Some(t) && t != "text"@ && t != "file"@ && t
                != "image"@)) ==> r.deep_view() == PartV::Unknown { raw: iv }
        }),
{
    proof {
        lemma_input_labels_distinct();
    }
    let ty = match input.get_text("type") {
        Some(t) => t,
        None => {
            return UniversalMessagePart::Unknown { raw: input.clone() };
        }
    };
    let mime_type = input.get_text("mime_type");
    if crate::json::str_eq(ty.as_str(), "text") {
        match input.get_text("content") {
            Some(t) => UniversalMessagePart::Text { text: t },
            None => UniversalMessagePart::Unknown { raw: input.clone() },
        }
    } else if crate::json::str_eq(ty.as_str(), "file") {
        match input_source(input) {
            Some(source) => UniversalMessagePart::File {
                source,
                mime_type,
                filename: None,
                raw: Some(input.clone()),
            },
            None => UniversalMessagePart::Unknown { raw: input.clone() },
        }
    } else if crate::json::str_eq(ty.as_str(), "image") {
        match input_source(input) {
            Some(source) => UniversalMessagePart::Image {
                source,
                mime_type,
                alt: None,
                raw: Some(input.clone()),
            },
            None => UniversalMessagePart::Unknown { raw: input.clone() },
        }
    } else {
        UniversalMessagePart::Unknown { raw: input.clone() }
    }
}

proof fn lemma_input_labels_distinct()
    ensures
        "text"@ != "file"@,
        "text"@ != "image"@,
        "file"@ != "image"@,
{
    reveal_strlit("text");
    reveal_strlit("file");
    reveal_strlit("image");
    assert("image"@.len() == 5);
    assert("text"@.len() == 4);
    assert("file"@.len() == 4);
    assert("text"@[0] == 't');
    assert("file"@[0] == 'f');
}

fn input_source(input: &Json) -> (r: Option<AttachmentSource>)
    ensures
        r.deep_view() == spec_input_source(input.deep_view()),
{
    if let Some(path) = input.get_text("path") {
        return Some(AttachmentSource::Path { path });
    }
    if let Some(content) = input.get_text("content") {
        return Some(AttachmentSource::Data { data: content, encoding: None });
    }
    None
}

/// The prompt inputs a parsed message renders to.
pub fn universal_message_to_inputs(message: &UniversalMessage) -> (r: Result<
    Vec<Json>,
    ConversionError,
>)
    ensures
        message.deep_view() matches MessageV::Unparsed { .. } ==> r is Err,
{
    let parsed = match message {
        UniversalMessage::Parsed(parsed) => parsed,
        UniversalMessage::Unparsed { .. } => {
            return Err(ConversionError::Unsupported(String::from_str("unparsed message")));
        }
    };
    universal_parts_to_inputs(&parsed.parts)
}

/// The prompt inputs a list of parts renders to: text stays text, files and
/// images become file and image inputs; any other part is refused, and an
/// empty list is refused.
pub fn universal_parts_to_inputs(parts: &Vec<UniversalMessagePart>) -> (r: Result<
    Vec<Json>,
    ConversionError,
>)
    ensures
        r matches Ok(inputs) ==> inputs@.len() == parts@.len() && parts@.len() > 0,
{
    let mut inputs: Vec<Json> = Vec::new();
    let mut i: usize = 0;
    while i < parts.len()
        invariant
            0 <= i <= parts@.len(),
            inputs@.len() == i as int,
        decreases parts@.len() - i,
    {
        match &parts[i] {
            UniversalMessagePart::Text { text } => {
                let mut entries: Vec<(String, Json)> = Vec::new();
                entries.push((String::from_str("type"), Json::Text(String::from_str("text"))));
                entries.push((String::from_str("content"), Json::Text(text.clone())));
                inputs.push(Json::Obj(entries));
            }
            UniversalMessagePart::File { source, mime_type, .. } => {
                match input_from_attachment(source, mime_type.as_ref(), "file") {
                    Ok(input) => {
                        inputs.push(input);
                    }
                    Err(e) => {
                        return Err(e);
                    }
                }
            }
            UniversalMessagePart::Image { source, mime_type, .. } => {
                match input_from_attachment(source, mime_type.as_ref(), "image") {
                    Ok(input) => {
                        inputs.push(input);
                    }
                    Err(e) => {
                        return Err(e);
                    }
                }
            }
            _ => {
                return Err(ConversionError::Unsupported(String::from_str("unsupported part")));
            }
        }
        i = i + 1;
    }
    if inputs.is_empty() {
        return Err(ConversionError::MissingField(String::from_str("parts")));
    }
    Ok(inputs)
}

/// One attachment as a prompt input: a path stays a path, inline base64 data
/// stays content; a url cannot go back, nor data in another encoding.
pub fn input_from_attachment(
    source: &AttachmentSource,
    mime_type: Option<&String>,
    input_type: &str,
) -> (r: Result<Json, ConversionError>)
    ensures
        source.deep_view() is Url ==> r is Err,
        source.deep_view() matches crate::universal::AttachmentSourceV::Data { encoding, .. } ==> (
        encoding matches Some(e) && e != "base64"@ ==> r is Err),
{
    match source {
        AttachmentSource::Path { path } => {
            let mut entries: Vec<(String, Json)> = Vec::new();
            entries.push((String::from_str("type"), Json::Text(input_type.to_owned())));
            entries.push((String::from_str("path"), Json::Text(path.clone())));
            if let Some(m) = mime_type {
                entries.push((String::from_str("mime_type"), Json::Text(m.clone())));
            }
            Ok(Json::Obj(entries))
        }
        AttachmentSource::Data { data, encoding } => {
            if let Some(e) = encoding {
                if !crate::json::str_eq(e.as_str(), "base64") {
                    return Err(
                        ConversionError::Unsupported(String::from_str("codex data encoding")),
                    );
                }
            }
            let mut entries: Vec<(String, Json)> = Vec::new();
            entries.push((String::from_str("type"), Json::Text(input_type.to_owned())));
            entries.push((String::from_str("content"), Json::Text(data.clone())));
            if let Some(m) = mime_type {
                entries.push((String::from_str("mime_type"), Json::Text(m.clone())));
            }
            Ok(Json::Obj(entries))
        }
        AttachmentSource::Url { .. } => Err(
            ConversionError::Unsupported(String::from_str("codex input url")),
        ),
    }
}

} // verus!
