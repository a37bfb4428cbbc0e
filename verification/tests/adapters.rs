use sandbox_agent::json::Json;
use sandbox_agent::universal::{
    AttachmentSource, ContentPart, QuestionInfo, QuestionOption, QuestionRequest,
    QuestionToolRef, UniversalEventData, UniversalEventType, UniversalMessage,
    UniversalMessagePart,
};

fn jobj(entries: Vec<(&str, Json)>) -> Json {
    Json::Obj(entries.into_iter().map(|(k, v)| (k.to_string(), v)).collect())
}

fn jtext(s: &str) -> Json {
    Json::Text(s.to_string())
}

#[test]
fn scribe_assistant_event_maps_text_and_tool_blocks() {
    let event = jobj(vec![
        ("type", jtext("assistant")),
        (
            "message",
            jobj(vec![(
                "content",
                Json::List(vec![
                    jobj(vec![("type", jtext("text")), ("text", jtext("hi"))]),
                    jobj(vec![
                        ("type", jtext("tool_use")),
                        ("name", jtext("bash")),
                        ("id", jtext("t1")),
                        ("input", jobj(vec![("command", jtext("ls"))])),
                    ]),
                    jobj(vec![("type", jtext("mystery"))]),
                ]),
            )]),
        ),
    ]);
    let conversion =
        sandbox_agent::scribe::event_to_universal_with_session(&event, "s1".to_string());
    assert_eq!(conversion.event_type, UniversalEventType::Message);
    match &conversion.data {
        UniversalEventData::Message { message } => match message {
            UniversalMessage::Parsed(parsed) => {
                assert_eq!(parsed.role, "assistant");
                assert_eq!(parsed.parts.len(), 3);
                assert!(matches!(&parsed.parts[0], UniversalMessagePart::Text { text } if text == "hi"));
                assert!(
                    matches!(&parsed.parts[1], UniversalMessagePart::ToolCall { name, id: Some(id), .. }
                        if name == "bash" && id == "t1")
                );
                assert!(matches!(&parsed.parts[2], UniversalMessagePart::Unknown { .. }));
            }
            _ => panic!("expected a parsed message"),
        },
        _ => panic!("expected a message event"),
    }
}

#[test]
fn scribe_ask_user_question_becomes_a_question_request() {
    let event = jobj(vec![
        ("type", jtext("tool_use")),
        (
            "tool_use",
            jobj(vec![
                ("name", jtext("AskUserQuestion")),
                ("id", jtext("q-tool-1")),
                (
                    "input",
                    jobj(vec![(
                        "questions",
                        Json::List(vec![jobj(vec![
                            ("question", jtext("Which one?")),
                            (
                                "options",
                                Json::List(vec![
                                    jobj(vec![("label", jtext("A"))]),
                                    jobj(vec![
                                        ("label", jtext("B")),
                                        ("description", jtext("second")),
                                    ]),
                                ]),
                            ),
                            ("multiSelect", Json::Bool(false)),
                        ])]),
                    )]),
                ),
            ]),
        ),
    ]);
    let conversion =
        sandbox_agent::scribe::event_to_universal_with_session(&event, "s1".to_string());
    assert_eq!(conversion.event_type, UniversalEventType::QuestionAsked);
    match &conversion.data {
        UniversalEventData::QuestionAsked { question_asked } => {
            assert_eq!(question_asked.id, "q-tool-1");
            assert_eq!(question_asked.session_id, "s1");
            assert_eq!(question_asked.questions.len(), 1);
            assert_eq!(question_asked.questions[0].question, "Which one?");
            assert_eq!(question_asked.questions[0].options.len(), 2);
            assert_eq!(question_asked.questions[0].options[1].label, "B");
        }
        _ => panic!("expected a question event"),
    }
}

#[test]
fn scribe_result_event_carries_the_native_session_id() {
    let event = jobj(vec![
        ("type", jtext("result")),
        ("result", jtext("all done")),
        ("session_id", jtext("native-9")),
    ]);
    let conversion =
        sandbox_agent::scribe::event_to_universal_with_session(&event, "s1".to_string());
    assert_eq!(conversion.agent_session_id.as_deref(), Some("native-9"));
    match &conversion.data {
        UniversalEventData::Message { message } => match message {
            UniversalMessage::Parsed(parsed) => {
                assert!(matches!(&parsed.parts[0], UniversalMessagePart::Text { text } if text == "all done"));
            }
            _ => panic!("expected a parsed message"),
        },
        _ => panic!("expected a message event"),
    }
}

#[test]
fn amp_error_event_becomes_a_crash() {
    let event = jobj(vec![("type", jtext("error")), ("error", jtext("boom"))]);
    let conversion = sandbox_agent::amp::event_to_universal(&event);
    assert_eq!(conversion.event_type, UniversalEventType::Error);
    match &conversion.data {
        UniversalEventData::Error { error } => {
            assert_eq!(error.message, "boom");
            assert_eq!(error.kind.as_deref(), Some("amp"));
        }
        _ => panic!("expected a crash event"),
    }
}

#[test]
fn amp_message_event_keeps_content_and_id() {
    let event = jobj(vec![
        ("type", jtext("message")),
        ("content", jtext("hello")),
        ("id", jtext("m-1")),
    ]);
    let conversion = sandbox_agent::amp::event_to_universal(&event);
    match &conversion.data {
        UniversalEventData::Message { message } => match message {
            UniversalMessage::Parsed(parsed) => {
                assert_eq!(parsed.id.as_deref(), Some("m-1"));
                assert!(matches!(&parsed.parts[0], UniversalMessagePart::Text { text } if text == "hello"));
            }
            _ => panic!("expected a parsed message"),
        },
        _ => panic!("expected a message event"),
    }
}

#[test]
fn codex_thread_created_becomes_a_start_marker() {
    let event = jobj(vec![
        ("type", jtext("thread.created")),
        ("thread_id", jtext("th-1")),
    ]);
    let conversion = sandbox_agent::codex::event_to_universal(&event);
    assert_eq!(conversion.event_type, UniversalEventType::Started);
    assert_eq!(conversion.agent_session_id.as_deref(), Some("th-1"));
}

#[test]
fn codex_item_becomes_a_message_with_its_role_and_id() {
    let event = jobj(vec![
        ("type", jtext("item.created")),
        ("thread_id", jtext("th-1")),
        (
            "item",
            jobj(vec![
                ("id", jtext("it-1")),
                ("type", jtext("message")),
                ("role", jtext("assistant")),
                ("content", jtext("hi there")),
            ]),
        ),
    ]);
    let conversion = sandbox_agent::codex::event_to_universal(&event);
    match &conversion.data {
        UniversalEventData::Message { message } => match message {
            UniversalMessage::Parsed(parsed) => {
                assert_eq!(parsed.id.as_deref(), Some("it-1"));
                assert_eq!(parsed.role, "assistant");
                assert!(matches!(&parsed.parts[0], UniversalMessagePart::Text { text } if text == "hi there"));
            }
            _ => panic!("expected a parsed message"),
        },
        _ => panic!("expected a message event"),
    }
}

#[test]
fn opencode_text_part_update_becomes_a_text_message() {
    let event = jobj(vec![
        ("type", jtext("message.part.updated")),
        (
            "properties",
            jobj(vec![(
                "part",
                jobj(vec![
                    ("type", jtext("text")),
                    ("id", jtext("p-1")),
                    ("messageID", jtext("m-1")),
                    ("sessionID", jtext("oc-1")),
                    ("text", jtext("streamed")),
                ]),
            )]),
        ),
    ]);
    let conversion = sandbox_agent::opencode::event_to_universal(&event);
    assert_eq!(conversion.event_type, UniversalEventType::Message);
    assert_eq!(conversion.agent_session_id.as_deref(), Some("oc-1"));
    match &conversion.data {
        UniversalEventData::Message { message } => match message {
            UniversalMessage::Parsed(parsed) => {
                assert_eq!(parsed.id.as_deref(), Some("m-1"));
                assert!(matches!(&parsed.parts[0], UniversalMessagePart::Text { text } if text == "streamed"));
            }
            _ => panic!("expected a parsed message"),
        },
        _ => panic!("expected a message event"),
    }
}

#[test]
fn opencode_completed_tool_state_yields_the_result() {
    let event = jobj(vec![
        ("type", jtext("message.part.updated")),
        (
            "properties",
            jobj(vec![(
                "part",
                jobj(vec![
                    ("type", jtext("tool")),
                    ("id", jtext("p-2")),
                    ("messageID", jtext("m-2")),
                    ("sessionID", jtext("oc-1")),
                    ("callID", jtext("c-1")),
                    ("tool", jtext("bash")),
                    (
                        "state",
                        jobj(vec![
                            ("status", jtext("completed")),
                            ("output", jtext("files listed")),
                        ]),
                    ),
                ]),
            )]),
        ),
    ]);
    let conversion = sandbox_agent::opencode::event_to_universal(&event);
    match &conversion.data {
        UniversalEventData::Message { message } => match message {
            UniversalMessage::Parsed(parsed) => match &parsed.parts[0] {
                UniversalMessagePart::ToolResult { id, name, output, is_error } => {
                    assert_eq!(id.as_deref(), Some("c-1"));
                    assert_eq!(name.as_deref(), Some("bash"));
                    assert!(matches!(output, Json::Text(t) if t == "files listed"));
                    assert_eq!(*is_error, Some(false));
                }
                _ => panic!("expected a tool result part"),
            },
            _ => panic!("expected a parsed message"),
        },
        _ => panic!("expected a message event"),
    }
}

#[test]
fn opencode_question_asked_is_typed() {
    let event = jobj(vec![
        ("type", jtext("question.asked")),
        (
            "properties",
            jobj(vec![
                ("id", jtext("q-7")),
                ("sessionID", jtext("oc-1")),
                (
                    "questions",
                    Json::List(vec![jobj(vec![
                        ("question", jtext("Continue?")),
                        ("header", jtext("Check")),
                        (
                            "options",
                            Json::List(vec![jobj(vec![
                                ("label", jtext("Yes")),
                                ("description", jtext("go on")),
                            ])]),
                        ),
                    ])]),
                ),
            ]),
        ),
    ]);
    let conversion = sandbox_agent::opencode::event_to_universal(&event);
    assert_eq!(conversion.event_type, UniversalEventType::QuestionAsked);
    match &conversion.data {
        UniversalEventData::QuestionAsked { question_asked } => {
            assert_eq!(question_asked.id, "q-7");
            assert_eq!(question_asked.session_id, "oc-1");
            assert_eq!(question_asked.questions[0].options[0].label, "Yes");
        }
        _ => panic!("expected a question event"),
    }
}

#[test]
fn attachment_sources_render_to_sidecar_urls() {
    let url = AttachmentSource::Url { url: "https://example.test/x.png".to_string() };
    assert_eq!(
        sandbox_agent::opencode::attachment_source_to_opencode_url(&url, "image/png").unwrap(),
        "https://example.test/x.png"
    );
    let path = AttachmentSource::Path { path: "/tmp/x.bin".to_string() };
    assert_eq!(
        sandbox_agent::opencode::attachment_source_to_opencode_url(&path, "text/plain").unwrap(),
        "file:///tmp/x.bin"
    );
    let data = AttachmentSource::Data { data: "QUJD".to_string(), encoding: None };
    assert_eq!(
        sandbox_agent::opencode::attachment_source_to_opencode_url(&data, "text/plain").unwrap(),
        "data:text/plain;base64,QUJD"
    );
    let odd = AttachmentSource::Data { data: "x".to_string(), encoding: Some("hex".to_string()) };
    assert!(sandbox_agent::opencode::attachment_source_to_opencode_url(&odd, "text/plain").is_err());
}

#[test]
fn universal_text_messages_round_trip_through_scribe() {
    let message = sandbox_agent::scribe::prompt_to_universal("run the tests");
    let text = sandbox_agent::scribe::universal_message_to_prompt(&message).unwrap();
    assert_eq!(text, "run the tests");

    let event = UniversalEventData::Message { message };
    let rendered = sandbox_agent::scribe::universal_event_to_scribe(&event).unwrap();
    let ty = match &rendered {
        Json::Obj(entries) => entries
            .iter()
            .find(|(k, _)| k == "type")
            .map(|(_, v)| v.clone()),
        _ => None,
    };
    assert!(matches!(ty, Some(Json::Text(t)) if t == "assistant"));
}

#[test]
fn question_requests_round_trip_through_the_sidecar_shape() {
    let request = QuestionRequest {
        id: "q-1".to_string(),
        session_id: "oc-2".to_string(),
        questions: vec![QuestionInfo {
            question: "Pick one".to_string(),
            header: Some("Choices".to_string()),
            options: vec![
                QuestionOption { label: "A".to_string(), description: Some("first".to_string()) },
                QuestionOption { label: "B".to_string(), description: Some(String::new()) },
            ],
            multi_select: Some(true),
            custom: Some(false),
        }],
        tool: Some(QuestionToolRef {
            message_id: "m-1".to_string(),
            call_id: "c-1".to_string(),
        }),
    };
    let rendered = sandbox_agent::opencode::question_request_to_opencode(&request);
    let back = sandbox_agent::opencode::question_request_from_opencode(&rendered);
    assert_eq!(back.id, request.id);
    assert_eq!(back.session_id, request.session_id);
    assert_eq!(back.questions.len(), 1);
    assert_eq!(back.questions[0].question, "Pick one");
    assert_eq!(back.questions[0].header.as_deref(), Some("Choices"));
    assert_eq!(back.questions[0].options.len(), 2);
    assert_eq!(back.questions[0].options[0].label, "A");
    assert_eq!(back.questions[0].options[0].description.as_deref(), Some("first"));
    assert_eq!(back.questions[0].multi_select, Some(true));
    assert_eq!(back.questions[0].custom, Some(false));
    let tool = back.tool.expect("tool reference survives");
    assert_eq!(tool.message_id, "m-1");
    assert_eq!(tool.call_id, "c-1");
}

#[test]
fn scribe_other_tools_become_tool_call_messages() {
    let event = jobj(vec![
        ("type", jtext("tool_use")),
        (
            "tool_use",
            jobj(vec![
                ("name", jtext("bash")),
                ("id", jtext("t-9")),
                ("input", jobj(vec![("command", jtext("ls"))])),
            ]),
        ),
    ]);
    let conversion =
        sandbox_agent::scribe::event_to_universal_with_session(&event, "s1".to_string());
    assert_eq!(conversion.event_type, UniversalEventType::Message);
    match &conversion.data {
        UniversalEventData::Message { message } => match message {
            UniversalMessage::Parsed(parsed) => {
                assert!(matches!(&parsed.parts[0], UniversalMessagePart::ToolCall { id: Some(id), name, .. }
                    if id == "t-9" && name == "bash"));
            }
            _ => panic!("expected a parsed message"),
        },
        _ => panic!("expected a message event"),
    }
}

#[test]
fn scribe_tool_result_events_map_to_tool_messages() {
    let event = jobj(vec![
        ("type", jtext("tool_result")),
        (
            "tool_result",
            jobj(vec![
                ("id", jtext("t-9")),
                ("content", jtext("listing")),
                ("is_error", Json::Bool(false)),
            ]),
        ),
    ]);
    let conversion =
        sandbox_agent::scribe::event_to_universal_with_session(&event, "s1".to_string());
    match &conversion.data {
        UniversalEventData::Message { message } => match message {
            UniversalMessage::Parsed(parsed) => {
                assert_eq!(parsed.role, "tool");
                assert!(matches!(&parsed.parts[0], UniversalMessagePart::ToolResult { id: Some(id), output, is_error, .. }
                    if id == "t-9" && matches!(output, Json::Text(t) if t == "listing") && *is_error == Some(false)));
            }
            _ => panic!("expected a parsed message"),
        },
        _ => panic!("expected a message event"),
    }
}
