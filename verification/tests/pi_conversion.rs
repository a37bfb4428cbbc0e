use sandbox_agent::json::Json;
use sandbox_agent::rpc::PiEventConverter;
use sandbox_agent::universal::{
    ContentPart, ItemKind, ItemRole, ItemStatus, UniversalEventData, UniversalEventType,
};

fn obj(entries: Vec<(&str, Json)>) -> Json {
    Json::Obj(entries.into_iter().map(|(k, v)| (k.to_string(), v)).collect())
}

fn text(s: &str) -> Json {
    Json::Text(s.to_string())
}

fn text_block(s: &str) -> Json {
    obj(vec![("type", text("text")), ("text", text(s))])
}

#[test]
fn pi_message_flow_converts() {
    let mut converter = PiEventConverter::default();

    let start_event = obj(vec![
        ("type", text("message_start")),
        ("sessionId", text("session-1")),
        ("messageId", text("msg-1")),
        (
            "message",
            obj(vec![
                ("role", text("assistant")),
                ("content", Json::List(vec![text_block("Hello")])),
            ]),
        ),
    ]);
    let start_events = converter
        .event_to_universal(&start_event)
        .expect("start conversions");
    assert_eq!(start_events[0].event_type, UniversalEventType::ItemStarted);
    if let UniversalEventData::Item(item) = &start_events[0].data {
        assert_eq!(item.item.kind, ItemKind::Message);
        assert_eq!(item.item.role, Some(ItemRole::Assistant));
        assert_eq!(item.item.status, ItemStatus::InProgress);
    } else {
        panic!("expected item event");
    }

    let update_event = obj(vec![
        ("type", text("message_update")),
        ("sessionId", text("session-1")),
        ("messageId", text("msg-1")),
        (
            "assistantMessageEvent",
            obj(vec![("type", text("text_delta")), ("delta", text(" world"))]),
        ),
    ]);
    let update_events = converter
        .event_to_universal(&update_event)
        .expect("update conversions");
    assert_eq!(update_events[0].event_type, UniversalEventType::ItemDelta);

    let end_event = obj(vec![
        ("type", text("message_end")),
        ("sessionId", text("session-1")),
        ("messageId", text("msg-1")),
        (
            "message",
            obj(vec![
                ("role", text("assistant")),
                ("content", Json::List(vec![text_block("Hello world")])),
            ]),
        ),
    ]);
    let end_events = converter
        .event_to_universal(&end_event)
        .expect("end conversions");
    assert_eq!(end_events[0].event_type, UniversalEventType::ItemCompleted);
    if let UniversalEventData::Item(item) = &end_events[0].data {
        assert_eq!(item.item.kind, ItemKind::Message);
        assert_eq!(item.item.role, Some(ItemRole::Assistant));
        assert_eq!(item.item.status, ItemStatus::Completed);
    } else {
        panic!("expected item event");
    }
}

#[test]
fn pi_user_message_echo_is_skipped() {
    let mut converter = PiEventConverter::default();

    let start_event = obj(vec![
        ("type", text("message_start")),
        ("sessionId", text("session-1")),
        ("messageId", text("user-msg-1")),
        (
            "message",
            obj(vec![
                ("role", text("user")),
                ("content", Json::List(vec![text_block("hello!")])),
            ]),
        ),
    ]);
    let events = converter
        .event_to_universal(&start_event)
        .expect("user message_start should not error");
    assert!(
        events.is_empty(),
        "user message_start should produce no events, got {}",
        events.len()
    );

    let end_event = obj(vec![
        ("type", text("message_end")),
        ("sessionId", text("session-1")),
        ("messageId", text("user-msg-1")),
        (
            "message",
            obj(vec![
                ("role", text("user")),
                ("content", Json::List(vec![text_block("hello!")])),
            ]),
        ),
    ]);
    let events = converter
        .event_to_universal(&end_event)
        .expect("user message_end should not error");
    assert!(
        events.is_empty(),
        "user message_end should produce no events, got {}",
        events.len()
    );

    let assistant_start = obj(vec![
        ("type", text("message_start")),
        ("sessionId", text("session-1")),
        ("messageId", text("msg-1")),
        (
            "message",
            obj(vec![
                ("role", text("assistant")),
                ("content", Json::List(vec![text_block("Hello! How can I help?")])),
            ]),
        ),
    ]);
    let events = converter
        .event_to_universal(&assistant_start)
        .expect("assistant message_start");
    assert_eq!(events.len(), 1);
    assert_eq!(events[0].event_type, UniversalEventType::ItemStarted);
    if let UniversalEventData::Item(item) = &events[0].data {
        assert_eq!(item.item.role, Some(ItemRole::Assistant));
    } else {
        panic!("expected item event");
    }
}

#[test]
fn pi_tool_execution_converts_with_partial_deltas() {
    let mut converter = PiEventConverter::default();

    let start_event = obj(vec![
        ("type", text("tool_execution_start")),
        ("sessionId", text("session-1")),
        ("toolCallId", text("call-1")),
        ("toolName", text("bash")),
        ("args", obj(vec![("command", text("ls"))])),
    ]);
    let start_events = converter
        .event_to_universal(&start_event)
        .expect("tool start");
    assert_eq!(start_events[0].event_type, UniversalEventType::ItemStarted);
    if let UniversalEventData::Item(item) = &start_events[0].data {
        assert_eq!(item.item.kind, ItemKind::ToolCall);
        assert_eq!(item.item.role, Some(ItemRole::Assistant));
        match &item.item.content[0] {
            ContentPart::ToolCall { name, .. } => assert_eq!(name, "bash"),
            _ => panic!("expected tool call content"),
        }
    }

    let update_event = obj(vec![
        ("type", text("tool_execution_update")),
        ("sessionId", text("session-1")),
        ("toolCallId", text("call-1")),
        ("partialResult", text("foo")),
    ]);
    let update_events = converter
        .event_to_universal(&update_event)
        .expect("tool update");
    assert!(update_events
        .iter()
        .any(|event| event.event_type == UniversalEventType::ItemDelta));

    let update_event2 = obj(vec![
        ("type", text("tool_execution_update")),
        ("sessionId", text("session-1")),
        ("toolCallId", text("call-1")),
        ("partialResult", text("foobar")),
    ]);
    let update_events2 = converter
        .event_to_universal(&update_event2)
        .expect("tool update 2");
    let delta = update_events2
        .iter()
        .find_map(|event| match &event.data {
            UniversalEventData::ItemDelta(data) => Some(data.delta.clone()),
            _ => None,
        })
        .unwrap_or_default();
    assert_eq!(delta, "bar");

    let end_event = obj(vec![
        ("type", text("tool_execution_end")),
        ("sessionId", text("session-1")),
        ("toolCallId", text("call-1")),
        ("result", obj(vec![("type", text("text")), ("content", text("done"))])),
        ("isError", Json::Bool(false)),
    ]);
    let end_events = converter.event_to_universal(&end_event).expect("tool end");
    assert_eq!(end_events[0].event_type, UniversalEventType::ItemCompleted);
    if let UniversalEventData::Item(item) = &end_events[0].data {
        assert_eq!(item.item.kind, ItemKind::ToolResult);
        assert_eq!(item.item.role, Some(ItemRole::Tool));
        match &item.item.content[0] {
            ContentPart::ToolResult { output, .. } => assert_eq!(output, "done"),
            _ => panic!("expected tool result content"),
        }
    }
}

#[test]
fn pi_unknown_event_returns_error() {
    let mut converter = PiEventConverter::default();
    let event = obj(vec![
        ("type", text("unknown_event")),
        ("sessionId", text("session-1")),
    ]);
    assert!(converter.event_to_universal(&event).is_err());
}

#[test]
fn pi_turn_and_agent_end_emit_terminal_status_labels() {
    let mut converter = PiEventConverter::default();

    let turn_end = obj(vec![
        ("type", text("turn_end")),
        ("sessionId", text("session-1")),
    ]);
    let turn_events = converter
        .event_to_universal(&turn_end)
        .expect("turn_end conversions");
    assert_eq!(turn_events[0].event_type, UniversalEventType::ItemCompleted);
    if let UniversalEventData::Item(item) = &turn_events[0].data {
        assert_eq!(item.item.kind, ItemKind::Status);
        assert!(
            matches!(
                item.item.content.first(),
                Some(ContentPart::Status { label, .. }) if label == "turn.completed"
            ),
            "turn_end should map to turn.completed status"
        );
    } else {
        panic!("expected item event");
    }

    let agent_end = obj(vec![
        ("type", text("agent_end")),
        ("sessionId", text("session-1")),
    ]);
    let agent_events = converter
        .event_to_universal(&agent_end)
        .expect("agent_end conversions");
    assert_eq!(agent_events[0].event_type, UniversalEventType::ItemCompleted);
    if let UniversalEventData::Item(item) = &agent_events[0].data {
        assert_eq!(item.item.kind, ItemKind::Status);
        assert!(
            matches!(
                item.item.content.first(),
                Some(ContentPart::Status { label, .. }) if label == "session.idle"
            ),
            "agent_end should map to session.idle status"
        );
    } else {
        panic!("expected item event");
    }
}

#[test]
fn pi_message_done_completes_without_message_end() {
    let mut converter = PiEventConverter::default();

    let start_event = obj(vec![
        ("type", text("message_start")),
        ("sessionId", text("session-1")),
        ("messageId", text("msg-1")),
        (
            "message",
            obj(vec![
                ("role", text("assistant")),
                ("content", Json::List(vec![text_block("Hello")])),
            ]),
        ),
    ]);
    let _start_events = converter
        .event_to_universal(&start_event)
        .expect("start conversions");

    let update_event = obj(vec![
        ("type", text("message_update")),
        ("sessionId", text("session-1")),
        ("messageId", text("msg-1")),
        (
            "assistantMessageEvent",
            obj(vec![("type", text("text_delta")), ("delta", text(" world"))]),
        ),
    ]);
    let _update_events = converter
        .event_to_universal(&update_event)
        .expect("update conversions");

    let done_event = obj(vec![
        ("type", text("message_update")),
        ("sessionId", text("session-1")),
        ("messageId", text("msg-1")),
        ("assistantMessageEvent", obj(vec![("type", text("done"))])),
    ]);
    let done_events = converter
        .event_to_universal(&done_event)
        .expect("done conversions");
    assert_eq!(done_events[0].event_type, UniversalEventType::ItemCompleted);
    if let UniversalEventData::Item(item) = &done_events[0].data {
        assert_eq!(item.item.status, ItemStatus::Completed);
        assert!(
            matches!(item.item.content.get(0), Some(ContentPart::Text { text }) if text == "Hello world")
        );
    } else {
        panic!("expected item event");
    }
}

#[test]
fn pi_message_done_then_message_end_does_not_double_complete() {
    let mut converter = PiEventConverter::default();

    let start_event = obj(vec![
        ("type", text("message_start")),
        ("sessionId", text("session-1")),
        ("messageId", text("msg-1")),
        (
            "message",
            obj(vec![
                ("role", text("assistant")),
                ("content", Json::List(vec![text_block("Hello")])),
            ]),
        ),
    ]);
    let _ = converter
        .event_to_universal(&start_event)
        .expect("start conversions");

    let update_event = obj(vec![
        ("type", text("message_update")),
        ("sessionId", text("session-1")),
        ("messageId", text("msg-1")),
        (
            "assistantMessageEvent",
            obj(vec![("type", text("text_delta")), ("delta", text(" world"))]),
        ),
    ]);
    let _ = converter
        .event_to_universal(&update_event)
        .expect("update conversions");

    let done_event = obj(vec![
        ("type", text("message_update")),
        ("sessionId", text("session-1")),
        ("messageId", text("msg-1")),
        ("assistantMessageEvent", obj(vec![("type", text("done"))])),
    ]);
    let done_events = converter
        .event_to_universal(&done_event)
        .expect("done conversions");
    assert_eq!(done_events.len(), 1);
    assert_eq!(done_events[0].event_type, UniversalEventType::ItemCompleted);

    let end_event = obj(vec![
        ("type", text("message_end")),
        ("sessionId", text("session-1")),
        ("messageId", text("msg-1")),
        (
            "message",
            obj(vec![
                ("role", text("assistant")),
                ("content", Json::List(vec![text_block("Hello world")])),
            ]),
        ),
    ]);
    let end_events = converter
        .event_to_universal(&end_event)
        .expect("end conversions");
    assert!(
        end_events.is_empty(),
        "message_end after done should not emit a second completion"
    );
}

#[test]
fn pi_message_end_error_surfaces_failed_status_and_error_text() {
    let mut converter = PiEventConverter::default();

    let start_event = obj(vec![
        ("type", text("message_start")),
        ("sessionId", text("session-1")),
        ("messageId", text("msg-err")),
        (
            "message",
            obj(vec![("role", text("assistant")), ("content", Json::List(vec![]))]),
        ),
    ]);
    let _ = converter
        .event_to_universal(&start_event)
        .expect("start conversions");

    let end_raw = obj(vec![
        ("type", text("message_end")),
        ("sessionId", text("session-1")),
        ("messageId", text("msg-err")),
        (
            "message",
            obj(vec![
                ("role", text("assistant")),
                ("content", Json::List(vec![])),
                ("stopReason", text("error")),
                ("errorMessage", text("Connection error.")),
            ]),
        ),
    ]);
    let end_events = converter
        .event_value_to_universal(&end_raw)
        .expect("end conversions");

    assert_eq!(end_events[0].event_type, UniversalEventType::ItemCompleted);
    if let UniversalEventData::Item(item) = &end_events[0].data {
        assert_eq!(item.item.status, ItemStatus::Failed);
        assert!(
            matches!(item.item.content.first(), Some(ContentPart::Text { text }) if text == "Connection error.")
        );
    } else {
        panic!("expected item event");
    }
}

#[test]
fn pi_tool_end_twice_is_a_no_op() {
    let mut converter = PiEventConverter::default();
    let end_event = obj(vec![
        ("type", text("tool_execution_end")),
        ("sessionId", text("session-1")),
        ("toolCallId", text("call-9")),
        ("result", obj(vec![("type", text("text")), ("content", text("done"))])),
        ("isError", Json::Bool(false)),
    ]);
    let first = converter.event_to_universal(&end_event).expect("tool end");
    assert_eq!(first.len(), 1);
    assert_eq!(first[0].event_type, UniversalEventType::ItemCompleted);
    let second = converter.event_to_universal(&end_event).expect("tool end again");
    assert!(second.is_empty(), "a second end for the same id is a no-op");
}

#[test]
fn pi_delta_accumulation_reassembles_the_final_partial() {
    let mut converter = PiEventConverter::default();
    let mut assembled = String::new();
    for partial in ["foo", "foobar", "foobarbaz"] {
        let update = obj(vec![
            ("type", text("tool_execution_update")),
            ("sessionId", text("session-1")),
            ("toolCallId", text("call-2")),
            ("partialResult", text(partial)),
        ]);
        let events = converter.event_to_universal(&update).expect("tool update");
        for event in &events {
            if let UniversalEventData::ItemDelta(data) = &event.data {
                assembled.push_str(&data.delta);
            }
        }
    }
    assert_eq!(assembled, "foobarbaz");

    let end_event = obj(vec![
        ("type", text("tool_execution_end")),
        ("sessionId", text("session-1")),
        ("toolCallId", text("call-2")),
        ("result", obj(vec![("type", text("text")), ("content", text("foobarbaz"))])),
        ("isError", Json::Bool(false)),
    ]);
    let end_events = converter.event_to_universal(&end_event).expect("tool end");
    if let UniversalEventData::Item(item) = &end_events[0].data {
        assert_eq!(item.item.status, ItemStatus::Completed);
    } else {
        panic!("expected item event");
    }
}

#[test]
fn pi_events_carry_the_native_session_id() {
    let mut converter = PiEventConverter::default();
    let turn_end = obj(vec![
        ("type", text("turn_end")),
        ("sessionId", text("session-42")),
    ]);
    let events = converter.event_to_universal(&turn_end).expect("turn end");
    assert_eq!(events[0].agent_session_id.as_deref(), Some("session-42"));
}

#[test]
fn pi_message_error_event_carries_the_error_text() {
    let mut converter = PiEventConverter::default();
    let update = obj(vec![
        ("type", text("message_update")),
        ("sessionId", text("session-1")),
        ("messageId", text("msg-3")),
        (
            "assistantMessageEvent",
            obj(vec![("type", text("error")), ("error", text("boom"))]),
        ),
    ]);
    let events = converter.event_to_universal(&update).expect("error conversions");
    assert_eq!(events.len(), 1);
    assert_eq!(events[0].event_type, UniversalEventType::ItemCompleted);
    if let UniversalEventData::Item(item) = &events[0].data {
        assert_eq!(item.item.status, ItemStatus::Failed);
        assert!(
            matches!(item.item.content.first(), Some(ContentPart::Text { text }) if text == "boom")
        );
    } else {
        panic!("expected item event");
    }
}
