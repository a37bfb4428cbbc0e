use vstd::prelude::*;

use crate::json::{json_get, spec_text_at, Json, JsonV};
use crate::universal::{
    message_from_parts, message_from_text, text_only_from_parts, ConversionError, EventConversion,
    EventConversionV, MessageV, ParsedV, PartV, QuestionInfo, QuestionInfoV, QuestionOption,
    QuestionOptionV, QuestionRequest, QuestionRequestV, UniversalEventData, UniversalEventType,
    UniversalMessage, UniversalMessagePart,
};

verus! {

// ---------------------------------------------------------------------------
// Wire events arriving line by line from the Scribe backend.
// ---------------------------------------------------------------------------

/// What one content block stands for: a text block keeps its text, a tool
/// use block its name, input and id; a text or tool block missing its core
/// field stands for nothing; any other block is carried raw.
pub open spec fn spec_scribe_block(b: JsonV) -> Option<PartV> {
    let bt = spec_text_at(b, "type"@);
    if bt == Some("text"@) {
        match spec_text_at(b, "text"@) {
            Some(t) => Some(PartV::Text { text: t }),
            None => None,
        }
    } else if bt == Some("tool_use"@) {
        match spec_text_at(b, "name"@) {
            Some(n) => Some(
                PartV::ToolCall {
                    id: spec_text_at(b, "id"@),
                    name: n,
                    input: match json_get(b, "input"@) {
                        Some(x) => x,
                        None => JsonV::Null,
                    },
                },
            ),
            None => None,
        }
    } else {
        Some(PartV::Unknown { raw: b })
    }
}

/// The blocks of a content list, each translated, silent blocks dropped.
pub open spec fn spec_scribe_blocks(items: Seq<JsonV>) -> Seq<PartV>
    decreases items.len(),
{
    if items.len() == 0 {
        Seq::empty()
    } else {
        (match spec_scribe_block(items[0]) {
            Some(p) => seq![p],
            None => Seq::empty(),
        }) + spec_scribe_blocks(items.skip(1))
    }
}

fn scribe_block(b: &Json) -> (r: Option<UniversalMessagePart>)
    ensures
        match r {
            Some(p) => spec_scribe_block(b.deep_view()) == Some(p.deep_view()),
            None => spec_scribe_block(b.deep_view()) is None,
        },
{
    let bt = match b.get_text("type") {
        Some(t) => t,
        None => {
            return Some(UniversalMessagePart::Unknown { raw: b.clone() });
        }
    };
    if crate::json::str_eq(bt.as_str(), "text") {
        match b.get_text("text") {
            Some(t) => Some(UniversalMessagePart::Text { text: t }),
            None => None,
        }
    } else if crate::json::str_eq(bt.as_str(), "tool_use") {
        match b.get_text("name") {
            Some(name) => {
                let input = match b.get("input") {
                    Some(x) => x.clone(),
                    None => Json::Null,
                };
                let id = b.get_text("id");
                Some(UniversalMessagePart::ToolCall { id, name, input })
            }
            None => None,
        }
    } else {
        Some(UniversalMessagePart::Unknown { raw: b.clone() })
    }
}

#[verifier::loop_isolation(false)]
fn scribe_blocks(items: &Vec<Json>) -> (r: Vec<UniversalMessagePart>)
    ensures
        r.deep_view() == spec_scribe_blocks(crate::json::jv_list(items@)),
{
    let ghost items_v = crate::json::jv_list(items@);
    proof {
        crate::json::lemma_jv_list(items@);
        assert(items_v.skip(0) =~= items_v);
    }
    let mut parts: Vec<UniversalMessagePart> = Vec::new();
    proof {
        assert(parts.deep_view() =~= Seq::<PartV>::empty());
    }
    let mut i: usize = 0;
    while i < items.len()
        invariant
            0 <= i <= items@.len(),
            items_v.len() == items@.len(),
            forall|j: int| 0 <= j < items@.len() ==> items_v[j] == items@[j].deep_view(),
            spec_scribe_blocks(items_v) == parts.deep_view() + spec_scribe_blocks(
                items_v.skip(i as int),
            ),
        decreases items@.len() - i,
    {
        let ghost p0 = parts.deep_view();
        proof {
            assert(items_v.skip(i as int)[0] == items_v[i as int]);
            assert(items_v.skip(i as int).skip(1) =~= items_v.skip(i as int + 1));
        }
        match scribe_block(&items[i]) {
            Some(p) => {
                parts.push(p);
                proof {
                    assert(parts.deep_view() =~= p0 + seq![parts.deep_view().last()]);
                }
            }
            None => {}
        }
        i = i + 1;
    }
    proof {
        assert(items_v.skip(items_v.len() as int) =~= Seq::<JsonV>::empty());
        assert(parts.deep_view() + Seq::<PartV>::empty() =~= parts.deep_view());
    }
    parts
}

/// The assistant message's content blocks, empty when absent.
pub open spec fn spec_assistant_blocks(ev: JsonV) -> Seq<PartV> {
    match json_get(ev, "message"@) {
        Some(m) => match json_get(m, "content"@) {
            Some(JsonV::List(items)) => spec_scribe_blocks(items),
            _ => Seq::empty(),
        },
        None => Seq::empty(),
    }
}

/// One question, when its text and options are complete.
pub open spec fn spec_scribe_question(q: JsonV) -> Option<QuestionInfoV> {
    match spec_text_at(q, "question"@) {
        None => None,
        Some(text) => match json_get(q, "options"@) {
            Some(JsonV::List(opts)) => Some(
                QuestionInfoV {
                    question: text,
                    header: spec_text_at(q, "header"@),
                    options: spec_scribe_options(opts),
                    multi_select: match json_get(q, "multiSelect"@) {
                        Some(JsonV::Bool(b)) => Some(b),
                        _ => None,
                    },
                    custom: None,
                },
            ),
            _ => None,
        },
    }
}

/// The options with a label, in order.
pub open spec fn spec_scribe_options(opts: Seq<JsonV>) -> Seq<QuestionOptionV>
    decreases opts.len(),
{
    if opts.len() == 0 {
        Seq::empty()
    } else {
        (match spec_text_at(opts[0], "label"@) {
            Some(l) => seq![
                QuestionOptionV { label: l, description: spec_text_at(opts[0], "description"@) },
            ],
            None => Seq::empty(),
        }) + spec_scribe_options(opts.skip(1))
    }
}

/// The full question list of an ask-user-question tool input, or nothing if
/// any question is incomplete.
pub open spec fn spec_scribe_questions(qs: Seq<JsonV>) -> Option<Seq<QuestionInfoV>>
    decreases qs.len(),
{
    if qs.len() == 0 {
        Some(Seq::empty())
    } else {
        match spec_scribe_question(qs[0]) {
            None => None,
            Some(qi) => match spec_scribe_questions(qs.skip(1)) {
                None => None,
                Some(rest) => Some(seq![qi] + rest),
            },
        }
    }
}

#[verifier::loop_isolation(false)]
fn scribe_options(opts: &Vec<Json>) -> (r: Vec<QuestionOption>)
    ensures
        r.deep_view() == spec_scribe_options(crate::json::jv_list(opts@)),
{
    let ghost opts_v = crate::json::jv_list(opts@);
    proof {
        crate::json::lemma_jv_list(opts@);
        assert(opts_v.skip(0) =~= opts_v);
    }
    let mut out: Vec<QuestionOption> = Vec::new();
    proof {
        assert(out.deep_view() =~= Seq::<QuestionOptionV>::empty());
    }
    let mut i: usize = 0;
    while i < opts.len()
        invariant
            0 <= i <= opts@.len(),
            opts_v.len() == opts@.len(),
            forall|j: int| 0 <= j < opts@.len() ==> opts_v[j] == opts@[j].deep_view(),
            spec_scribe_options(opts_v) == out.deep_view() + spec_scribe_options(
                opts_v.skip(i as int),
            ),
        decreases opts@.len() - i,
    {
        let ghost o0 = out.deep_view();
        proof {
            assert(opts_v.skip(i as int)[0] == opts_v[i as int]);
            assert(opts_v.skip(i as int).skip(1) =~= opts_v.skip(i as int + 1));
        }
        match opts[i].get_text("label") {
            Some(label) => {
                let description = opts[i].get_text("description");
                out.push(QuestionOption { label, description });
                proof {
                    assert(out.deep_view() =~= o0 + seq![out.deep_view().last()]);
                }
            }
            None => {}
        }
        i = i + 1;
    }
    proof {
        assert(opts_v.skip(opts_v.len() as int) =~= Seq::<JsonV>::empty());
        assert(out.deep_view() + Seq::<QuestionOptionV>::empty() =~= out.deep_view());
    }
    out
}

/// Reads an ask-user-question tool input into a question request; incomplete
/// input yields nothing and the tool call is passed through instead.
#[verifier::loop_isolation(false)]
#[verifier::rlimit(50)]
pub fn question_from_scribe_input(input: &Json, tool_id: Option<String>, session_id: String)
    -> (r: Option<QuestionRequest>)
    ensures
        match json_get(input.deep_view(), "questions"@) {
            Some(JsonV::List(qs)) => match spec_scribe_questions(qs) {
                Some(qis) => r matches Some(req) && req.deep_view() == (QuestionRequestV {
                    id: (match tool_id.deep_view() {
                        Some(t) => t,
                        None => "scribe-question"@,
                    }),
                    session_id: session_id@,
                    questions: qis,
                    tool: None,
                }),
                None => r is None,
            },
            _ => r is None,
        },
{
    let questions: &Vec<Json> = match input.get("questions") {
        Some(q) => match q.as_list() {
            Some(xs) => xs,
            None => {
                return None;
            }
        },
        None => {
            return None;
        }
    };
    let ghost qs_v = crate::json::jv_list(questions@);
    proof {
        crate::json::lemma_jv_list(questions@);
        assert(qs_v.skip(0) =~= qs_v);
    }
    let mut parsed: Vec<QuestionInfo> = Vec::new();
    proof {
        assert(parsed.deep_view() =~= Seq::<QuestionInfoV>::empty());
    }
    let mut i: usize = 0;
    while i < questions.len()
        invariant
            0 <= i <= questions@.len(),
            qs_v.len() == questions@.len(),
            forall|j: int| 0 <= j < questions@.len() ==> qs_v[j] == questions@[j].deep_view(),
            spec_scribe_questions(qs_v) == (match spec_scribe_questions(qs_v.skip(i as int)) {
                Some(rest) => Some(parsed.deep_view() + rest),
                None => None::<Seq<QuestionInfoV>>,
            }),
        decreases questions@.len() - i,
    {
        let ghost p0 = parsed.deep_view();
        proof {
            assert(qs_v.skip(i as int)[0] == qs_v[i as int]);
            assert(qs_v.skip(i as int).skip(1) =~= qs_v.skip(i as int + 1));
        }
        let q = &questions[i];
        let question_text = match q.get_text("question") {
            Some(t) => t,
            None => {
                return None;
            }
        };
        let options_list: &Vec<Json> = match q.get("options") {
            Some(o) => match o.as_list() {
                Some(xs) => xs,
                None => {
                    return None;
                }
            },
            None => {
                return None;
            }
        };
        let options = scribe_options(options_list);
        let header = q.get_text("header");
        let multi_select = match q.get("multiSelect") {
            Some(m) => m.as_bool(),
            None => None,
        };
        parsed.push(
            QuestionInfo { question: question_text, header, options, multi_select, custom: None },
        );
        proof {
            assert(parsed.deep_view() =~= p0 + seq![parsed.deep_view().last()]);
        }
        i = i + 1;
    }
    proof {
        assert(qs_v.skip(qs_v.len() as int) =~= Seq::<JsonV>::empty());
        assert(spec_scribe_questions(Seq::<JsonV>::empty()) == Some(Seq::<QuestionInfoV>::empty()));
        assert(parsed.deep_view() + Seq::<QuestionInfoV>::empty() =~= parsed.deep_view());
    }
    let id = match tool_id {
        Some(t) => t,
        None => String::from_str("scribe-question"),
    };
    Some(QuestionRequest { id, session_id, questions: parsed, tool: None })
}

/// What translating the tool input of an ask-user-question call yields.
pub open spec fn spec_tool_use_questions(input: JsonV) -> Option<Seq<QuestionInfoV>> {
    match json_get(input, "questions"@) {
        Some(JsonV::List(qs)) => spec_scribe_questions(qs),
        _ => None,
    }
}

/// An assistant event becomes a parsed assistant message holding its
/// translated content blocks.
pub open spec fn spec_assistant_conversion(ev: JsonV, c: EventConversionV) -> bool {
    &&& !c.synthetic
    &&& c.agent_session_id is None
    &&& c.event_type == UniversalEventType::Message
    &&& c.data == (crate::universal::EventDataV::Message {
        message: MessageV::Parsed(
            ParsedV {
                role: "assistant"@,
                id: None,
                metadata: Seq::empty(),
                parts: spec_assistant_blocks(ev),
            },
        ),
    })
}

/// A tool use becomes a question request when it is the ask-user-question
/// tool with complete input, else an assistant message holding one tool-call
/// part that keeps the call's id, name and input.
pub open spec fn spec_tool_use_conversion(ev: JsonV, sid: Seq<char>, c: EventConversionV) -> bool {
    let tu = match json_get(ev, "tool_use"@) {
        Some(t) => t,
        None => JsonV::Null,
    };
    let name = match spec_text_at(tu, "name"@) {
        Some(n) => n,
        None => Seq::empty(),
    };
    let input = match json_get(tu, "input"@) {
        Some(x) => x,
        None => JsonV::Null,
    };
    let tid = spec_text_at(tu, "id"@);
    let qs = spec_tool_use_questions(input);
    &&& !c.synthetic
    &&& c.agent_session_id is None
    &&& if name == "AskUserQuestion"@ && qs is Some {
        &&& c.event_type == UniversalEventType::QuestionAsked
        &&& c.data == (crate::universal::EventDataV::QuestionAsked {
            question_asked: QuestionRequestV {
                id: (match tid {
                    Some(t) => t,
                    None => "scribe-question"@,
                }),
                session_id: sid,
                questions: qs->Some_0,
                tool: None,
            },
        })
    } else {
        &&& c.event_type == UniversalEventType::Message
        &&& c.data == (crate::universal::EventDataV::Message {
            message: MessageV::Parsed(
                ParsedV {
                    role: "assistant"@,
                    id: None,
                    metadata: Seq::empty(),
                    parts: seq![PartV::ToolCall { id: tid, name, input }],
                },
            ),
        })
    }
}

/// A tool result becomes a tool message holding one tool-result part with
/// the result's id, content and error mark.
pub open spec fn spec_tool_result_conversion(ev: JsonV, c: EventConversionV) -> bool {
    let tr = json_get(ev, "tool_result"@);
    &&& !c.synthetic
    &&& c.agent_session_id is None
    &&& c.event_type == UniversalEventType::Message
    &&& c.data == (crate::universal::EventDataV::Message {
        message: MessageV::Parsed(
            ParsedV {
                role: "tool"@,
                id: None,
                metadata: Seq::empty(),
                parts: seq![
                    PartV::ToolResult {
                        id: (match tr {
                            Some(t) => spec_text_at(t, "id"@),
                            None => None,
                        }),
                        name: None,
                        output: (match tr {
                            Some(t) => match json_get(t, "content"@) {
                                Some(x) => x,
                                None => JsonV::Null,
                            },
                            None => JsonV::Null,
                        }),
                        is_error: (match tr {
                            Some(t) => match json_get(t, "is_error"@) {
                                Some(JsonV::Bool(b)) => Some(b),
                                _ => None,
                            },
                            None => None,
                        }),
                    },
                ],
            },
        ),
    })
}

/// A final result becomes an assistant text message carrying the backend's
/// own session id.
pub open spec fn spec_result_conversion(ev: JsonV, c: EventConversionV) -> bool {
    &&& !c.synthetic
    &&& c.agent_session_id == spec_text_at(ev, "session_id"@)
    &&& c.event_type == UniversalEventType::Message
    &&& c.data == (crate::universal::EventDataV::Message {
        message: MessageV::Parsed(
            ParsedV {
                role: "assistant"@,
                id: None,
                metadata: Seq::empty(),
                parts: seq![
                    PartV::Text {
                        text: (match spec_text_at(ev, "result"@) {
                            Some(t) => t,
                            None => Seq::empty(),
                        }),
                    },
                ],
            },
        ),
    })
}

/// Anything unrecognized is passed through raw.
pub open spec fn spec_unknown_conversion(ev: JsonV, c: EventConversionV) -> bool {
    &&& !c.synthetic
    &&& c.agent_session_id is None
    &&& c.event_type == UniversalEventType::Unknown
    &&& c.data == (crate::universal::EventDataV::Unknown { raw: ev })
}

/// The whole adapter: what each line event of this backend becomes.
pub open spec fn spec_scribe_conversion(ev: JsonV, sid: Seq<char>, c: EventConversionV) -> bool {
    let ty = spec_text_at(ev, "type"@);
    &&& ty == Some("assistant"@) ==> spec_assistant_conversion(ev, c)
    &&& ty == Some("tool_use"@) ==> spec_tool_use_conversion(ev, sid, c)
    &&& ty == Some("tool_result"@) ==> spec_tool_result_conversion(ev, c)
    &&& ty == Some("result"@) ==> spec_result_conversion(ev, c)
    &&& (ty is None || (ty matches Some(t) && t != "assistant"@ && t != "tool_use"@ && t
        != "tool_result"@ && t != "result"@)) ==> spec_unknown_conversion(ev, c)
}

/// Translates one line event: assistant content becomes a parsed message;
/// a tool use becomes a tool-call message, or a question request when it is
/// the ask-user-question tool with complete input; a tool result becomes a
/// tool message; a final result becomes an assistant text message carrying
/// the backend session id; anything else is passed through raw.
pub fn event_to_universal_with_session(event: &Json, session_id: String) -> (r: EventConversion)
    ensures
        spec_scribe_conversion(event.deep_view(), session_id@, r.deep_view()),
{
    proof {
        lemma_scribe_labels_distinct();
    }
    let ty = match event.get_text("type") {
        Some(t) => t,
        None => {
            return EventConversion::new(
                UniversalEventType::Unknown,
                UniversalEventData::Unknown { raw: event.clone() },
            );
        }
    };
    if crate::json::str_eq(ty.as_str(), "assistant") {
        assistant_event_to_universal(event)
    } else if crate::json::str_eq(ty.as_str(), "tool_use") {
        tool_use_event_to_universal(event, session_id)
    } else if crate::json::str_eq(ty.as_str(), "tool_result") {
        tool_result_event_to_universal(event)
    } else if crate::json::str_eq(ty.as_str(), "result") {
        result_event_to_universal(event)
    } else {
        EventConversion::new(
            UniversalEventType::Unknown,
            UniversalEventData::Unknown { raw: event.clone() },
        )
    }
}

proof fn lemma_scribe_labels_distinct()
    ensures
        "assistant"@ != "tool_use"@,
        "assistant"@ != "tool_result"@,
        "assistant"@ != "result"@,
        "tool_use"@ != "tool_result"@,
        "tool_use"@ != "result"@,
        "tool_result"@ != "result"@,
{
    reveal_strlit("assistant");
    reveal_strlit("tool_use");
    reveal_strlit("tool_result");
    reveal_strlit("result");
    assert("assistant"@.len() == 9);
    assert("tool_use"@.len() == 8);
    assert("tool_result"@.len() == 11);
    assert("result"@.len() == 6);
}

fn assistant_event_to_universal(event: &Json) -> (r: EventConversion)
    ensures
        spec_assistant_conversion(event.deep_view(), r.deep_view()),
{
    let empty_parts: Vec<UniversalMessagePart> = Vec::new();
    proof {
        assert(empty_parts.deep_view() =~= Seq::<PartV>::empty());
    }
    let parts: Vec<UniversalMessagePart> = match event.get("message") {
        Some(m) => match m.get("content") {
            Some(c) => match c.as_list() {
                Some(items) => scribe_blocks(items),
                None => empty_parts,
            },
            None => empty_parts,
        },
        None => empty_parts,
    };
    let message = message_from_parts("assistant", parts);
    EventConversion::new(
        UniversalEventType::Message,
        UniversalEventData::Message { message },
    )
}

fn tool_use_event_to_universal(event: &Json, session_id: String) -> (r: EventConversion)
    ensures
        spec_tool_use_conversion(event.deep_view(), session_id@, r.deep_view()),
{
    proof {
        reveal_strlit("AskUserQuestion");
        assert("AskUserQuestion"@.len() == 15);
    }
    let tool_use = event.get("tool_use");
    let name = match tool_use {
        Some(t) => match t.get_text("name") {
            Some(n) => n,
            None => String::new(),
        },
        None => String::new(),
    };
    let input: Json = match tool_use {
        Some(t) => match t.get("input") {
            Some(x) => x.clone(),
            None => Json::Null,
        },
        None => Json::Null,
    };
    let id: Option<String> = match tool_use {
        Some(t) => t.get_text("id"),
        None => None,
    };

    if crate::json::str_eq(name.as_str(), "AskUserQuestion") {
        let tool_id = match &id {
            Some(s) => Some(s.clone()),
            None => None,
        };
        if let Some(question) = question_from_scribe_input(&input, tool_id, session_id) {
            return EventConversion::new(
                UniversalEventType::QuestionAsked,
                UniversalEventData::QuestionAsked { question_asked: question },
            );
        }
    }

    let parts = vec![UniversalMessagePart::ToolCall { id, name, input }];
    proof {
        assert(parts.deep_view() =~= seq![parts@[0].deep_view()]);
    }
    let message = message_from_parts("assistant", parts);
    EventConversion::new(
        UniversalEventType::Message,
        UniversalEventData::Message { message },
    )
}

fn tool_result_event_to_universal(event: &Json) -> (r: EventConversion)
    ensures
        spec_tool_result_conversion(event.deep_view(), r.deep_view()),
{
    let tool_result = event.get("tool_result");
    let output: Json = match tool_result {
        Some(t) => match t.get("content") {
            Some(c) => c.clone(),
            None => Json::Null,
        },
        None => Json::Null,
    };
    let is_error: Option<bool> = match tool_result {
        Some(t) => match t.get("is_error") {
            Some(b) => b.as_bool(),
            None => None,
        },
        None => None,
    };
    let id: Option<String> = match tool_result {
        Some(t) => t.get_text("id"),
        None => None,
    };
    let parts = vec![UniversalMessagePart::ToolResult { id, name: None, output, is_error }];
    proof {
        assert(parts.deep_view() =~= seq![parts@[0].deep_view()]);
    }
    let message = message_from_parts("tool", parts);
    EventConversion::new(
        UniversalEventType::Message,
        UniversalEventData::Message { message },
    )
}

fn result_event_to_universal(event: &Json) -> (r: EventConversion)
    ensures
        spec_result_conversion(event.deep_view(), r.deep_view()),
{
    let result_text = match event.get_text("result") {
        Some(t) => t,
        None => String::new(),
    };
    let session_id = event.get_text("session_id");
    let message = message_from_text("assistant", result_text);
    EventConversion::new(
        UniversalEventType::Message,
        UniversalEventData::Message { message },
    ).with_session(session_id)
}

// ---------------------------------------------------------------------------
// The reverse direction: universal values handed back to the backend.
// ---------------------------------------------------------------------------

/// Renders a universal message event as one assistant line event; only a
/// parsed, all-text message can go back.
pub fn universal_event_to_scribe(event: &UniversalEventData) -> (r: Result<Json, ConversionError>)
    ensures
        event.deep_view() matches crate::universal::EventDataV::Message {
            message: MessageV::Parsed(p2),
        } ==> (r is Ok <==> crate::universal::all_text_parts(p2.parts)
            && crate::universal::spec_join_texts(p2.parts, Seq::empty()).len() > 0),
        r matches Ok(v) ==> event.deep_view() matches crate::universal::EventDataV::Message {
            message: MessageV::Parsed(p),
        } && v.deep_view() == (JsonV::Obj(
            seq![
                ("type"@, JsonV::Text("assistant"@)),
                (
                    "message"@,
                    JsonV::Obj(
                        seq![
                            (
                                "content"@,
                                JsonV::List(
                                    seq![
                                        JsonV::Obj(
                                            seq![
                                                ("type"@, JsonV::Text("text"@)),
                                                (
                                                    "text"@,
                                                    JsonV::Text(
                                                        crate::universal::spec_join_texts(
                                                            p.parts,
                                                            Seq::empty(),
                                                        ),
                                                    ),
                                                ),
                                            ],
                                        ),
                                    ],
                                ),
                            ),
                        ],
                    ),
                ),
            ],
        )),
        !(event.deep_view() matches crate::universal::EventDataV::Message {
            message: MessageV::Parsed(p),
        }) ==> r is Err,
{
    let parsed = match event {
        UniversalEventData::Message { message } => match message {
            UniversalMessage::Parsed(parsed) => parsed,
            UniversalMessage::Unparsed { .. } => {
                return Err(ConversionError::Unsupported(String::from_str("unparsed message")));
            }
        },
        _ => {
            return Err(ConversionError::Unsupported(String::from_str("scribe event")));
        }
    };
    let text = match text_only_from_parts(&parsed.parts) {
        Ok(t) => t,
        Err(e) => {
            return Err(e);
        }
    };
    let ghost text_v = text@;
    let mut tb_entries: Vec<(String, Json)> = Vec::new();
    tb_entries.push((String::from_str("type"), Json::Text(String::from_str("text"))));
    tb_entries.push((String::from_str("text"), Json::Text(text)));
    let text_block = Json::Obj(tb_entries);
    proof {
        crate::json::lemma_jv_obj(text_block->Obj_0@);
        assert(text_block->Obj_0@.len() == 2);
        assert(text_block->Obj_0@[0].0@ == "type"@);
        assert(text_block->Obj_0@[0].1@ == JsonV::Text("text"@));
        assert(text_block->Obj_0@[1].0@ == "text"@);
        assert(text_block->Obj_0@[1].1@ == JsonV::Text(text_v));
        assert(crate::json::jv_obj(text_block->Obj_0@) =~= seq![
            ("type"@, JsonV::Text("text"@)),
            ("text"@, JsonV::Text(text_v)),
        ]);
        assert(text_block@ == JsonV::Obj(
            seq![("type"@, JsonV::Text("text"@)), ("text"@, JsonV::Text(text_v))],
        ));
    }
    let ghost tbv = text_block@;
    let mut content_items: Vec<Json> = Vec::new();
    content_items.push(text_block);
    let content = Json::List(content_items);
    proof {
        crate::json::lemma_jv_list(content->List_0@);
        assert(crate::json::jv_list(content->List_0@) =~= seq![tbv]);
        assert(content@ == JsonV::List(seq![tbv]));
    }
    let ghost cv = content@;
    let mut mo_entries: Vec<(String, Json)> = Vec::new();
    mo_entries.push((String::from_str("content"), content));
    let message_obj = Json::Obj(mo_entries);
    proof {
        crate::json::lemma_jv_obj(message_obj->Obj_0@);
        assert(crate::json::jv_obj(message_obj->Obj_0@) =~= seq![("content"@, cv)]);
        assert(message_obj@ == JsonV::Obj(seq![("content"@, cv)]));
    }
    let ghost mv = message_obj@;
    let mut out_entries: Vec<(String, Json)> = Vec::new();
    out_entries.push((String::from_str("type"), Json::Text(String::from_str("assistant"))));
    out_entries.push((String::from_str("message"), message_obj));
    let out = Json::Obj(out_entries);
    proof {
        crate::json::lemma_jv_obj(out->Obj_0@);
        assert(crate::json::jv_obj(out->Obj_0@) =~= seq![
            ("type"@, JsonV::Text("assistant"@)),
            ("message"@, mv),
        ]);
        assert(out@ == JsonV::Obj(
            seq![("type"@, JsonV::Text("assistant"@)), ("message"@, mv)],
        ));
    }
    Ok(out)
}

/// A prompt as the user message it stands for.
pub fn prompt_to_universal(prompt: &str) -> (r: UniversalMessage)
    ensures
        r.deep_view() == MessageV::Parsed(
            ParsedV {
                role: "user"@,
                id: None,
                metadata: Seq::empty(),
                parts: seq![PartV::Text { text: prompt@ }],
            },
        ),
{
    message_from_text("user", prompt.to_owned())
}

/// The prompt text of a parsed, all-text message.
pub fn universal_message_to_prompt(message: &UniversalMessage) -> (r: Result<
    String,
    ConversionError,
>)
    ensures
        message.deep_view() matches MessageV::Parsed(p) ==> {
            &&& (r matches Ok(s) ==> s@ == crate::universal::spec_join_texts(
                p.parts,
                Seq::empty(),
            ))
            &&& (r is Ok <==> crate::universal::all_text_parts(p.parts)
                && crate::universal::spec_join_texts(p.parts, Seq::empty()).len() > 0)
        },
        message.deep_view() matches MessageV::Unparsed { .. } ==> r is Err,
{
    let parsed = match message {
        UniversalMessage::Parsed(parsed) => parsed,
        UniversalMessage::Unparsed { .. } => {
            return Err(ConversionError::Unsupported(String::from_str("unparsed message")));
        }
    };
    text_only_from_parts(&parsed.parts)
}

} // verus!
