use vstd::prelude::*;

use crate::json::{Json, JsonV};

verus! {

// ---------------------------------------------------------------------------
// The universal event schema: one normalized shape for every backend dialect.
// ---------------------------------------------------------------------------

/// Where an attachment's content comes from.
#[derive(Debug)]
pub enum AttachmentSource {
    Path { path: String },
    Url { url: String },
    Data { data: String, encoding: Option<String> },
}

#[verifier::ext_equal]
pub enum AttachmentSourceV {
    Path { path: Seq<char> },
    Url { url: Seq<char> },
    Data { data: Seq<char>, encoding: Option<Seq<char>> },
}

impl DeepView for AttachmentSource {
    type V = AttachmentSourceV;

    open spec fn deep_view(&self) -> AttachmentSourceV {
        match self {
            AttachmentSource::Path { path } => AttachmentSourceV::Path { path: path@ },
            AttachmentSource::Url { url } => AttachmentSourceV::Url { url: url@ },
            AttachmentSource::Data { data, encoding } => AttachmentSourceV::Data {
                data: data@,
                encoding: encoding.deep_view(),
            },
        }
    }
}

/// One piece of a message's content.
#[derive(Debug)]
pub enum UniversalMessagePart {
    Text { text: String },
    ToolCall { id: Option<String>, name: String, input: Json },
    ToolResult { id: Option<String>, name: Option<String>, output: Json, is_error: Option<bool> },
    FunctionCall { id: Option<String>, name: Option<String>, arguments: Json, raw: Option<Json> },
    FunctionResult {
        id: Option<String>,
        name: Option<String>,
        result: Json,
        is_error: Option<bool>,
        raw: Option<Json>,
    },
    File {
        source: AttachmentSource,
        mime_type: Option<String>,
        filename: Option<String>,
        raw: Option<Json>,
    },
    Image {
        source: AttachmentSource,
        mime_type: Option<String>,
        alt: Option<String>,
        raw: Option<Json>,
    },
    Error { message: String },
    Unknown { raw: Json },
}

#[verifier::ext_equal]
pub enum PartV {
    Text { text: Seq<char> },
    ToolCall { id: Option<Seq<char>>, name: Seq<char>, input: JsonV },
    ToolResult {
        id: Option<Seq<char>>,
        name: Option<Seq<char>>,
        output: JsonV,
        is_error: Option<bool>,
    },
    FunctionCall {
        id: Option<Seq<char>>,
        name: Option<Seq<char>>,
        arguments: JsonV,
        raw: Option<JsonV>,
    },
    FunctionResult {
        id: Option<Seq<char>>,
        name: Option<Seq<char>>,
        result: JsonV,
        is_error: Option<bool>,
        raw: Option<JsonV>,
    },
    File {
        source: AttachmentSourceV,
        mime_type: Option<Seq<char>>,
        filename: Option<Seq<char>>,
        raw: Option<JsonV>,
    },
    Image {
        source: AttachmentSourceV,
        mime_type: Option<Seq<char>>,
        alt: Option<Seq<char>>,
        raw: Option<JsonV>,
    },
    Error { message: Seq<char> },
    Unknown { raw: JsonV },
}

impl DeepView for UniversalMessagePart {
    type V = PartV;

    open spec fn deep_view(&self) -> PartV {
        match self {
            UniversalMessagePart::Text { text } => PartV::Text { text: text@ },
            UniversalMessagePart::ToolCall { id, name, input } => PartV::ToolCall {
                id: id.deep_view(),
                name: name@,
                input: input.deep_view(),
            },
            UniversalMessagePart::ToolResult { id, name, output, is_error } => PartV::ToolResult {
                id: id.deep_view(),
                name: name.deep_view(),
                output: output.deep_view(),
                is_error: *is_error,
            },
            UniversalMessagePart::FunctionCall { id, name, arguments, raw } => PartV::FunctionCall {
                id: id.deep_view(),
                name: name.deep_view(),
                arguments: arguments.deep_view(),
                raw: raw.deep_view(),
            },
            UniversalMessagePart::FunctionResult {
                id,
                name,
                result,
                is_error,
                raw,
            } => PartV::FunctionResult {
                id: id.deep_view(),
                name: name.deep_view(),
                result: result.deep_view(),
                is_error: *is_error,
                raw: raw.deep_view(),
            },
            UniversalMessagePart::File { source, mime_type, filename, raw } => PartV::File {
                source: source.deep_view(),
                mime_type: mime_type.deep_view(),
                filename: filename.deep_view(),
                raw: raw.deep_view(),
            },
            UniversalMessagePart::Image { source, mime_type, alt, raw } => PartV::Image {
                source: source.deep_view(),
                mime_type: mime_type.deep_view(),
                alt: alt.deep_view(),
                raw: raw.deep_view(),
            },
            UniversalMessagePart::Error { message } => PartV::Error { message: message@ },
            UniversalMessagePart::Unknown { raw } => PartV::Unknown { raw: raw.deep_view() },
        }
    }
}

/// A message whose shape was understood.
#[derive(Debug)]
pub struct UniversalMessageParsed {
    pub role: String,
    pub id: Option<String>,
    pub metadata: Vec<(String, Json)>,
    pub parts: Vec<UniversalMessagePart>,
}

#[verifier::ext_equal]
pub struct ParsedV {
    pub role: Seq<char>,
    pub id: Option<Seq<char>>,
    pub metadata: Seq<(Seq<char>, JsonV)>,
    pub parts: Seq<PartV>,
}

impl DeepView for UniversalMessageParsed {
    type V = ParsedV;

    open spec fn deep_view(&self) -> ParsedV {
        ParsedV {
            role: self.role@,
            id: self.id.deep_view(),
            metadata: self.metadata.deep_view(),
            parts: self.parts.deep_view(),
        }
    }
}

/// A message: parsed, or kept raw with the error that stopped parsing.
#[derive(Debug)]
pub enum UniversalMessage {
    Parsed(UniversalMessageParsed),
    Unparsed { raw: Json, error: Option<String> },
}

#[verifier::ext_equal]
pub enum MessageV {
    Parsed(ParsedV),
    Unparsed { raw: JsonV, error: Option<Seq<char>> },
}

impl DeepView for UniversalMessage {
    type V = MessageV;

    open spec fn deep_view(&self) -> MessageV {
        match self {
            UniversalMessage::Parsed(p) => MessageV::Parsed(p.deep_view()),
            UniversalMessage::Unparsed { raw, error } => MessageV::Unparsed {
                raw: raw.deep_view(),
                error: error.deep_view(),
            },
        }
    }
}

/// A lifecycle marker.
#[derive(Debug)]
pub struct Started {
    pub message: Option<String>,
    pub details: Option<Json>,
}

#[verifier::ext_equal]
pub struct StartedV {
    pub message: Option<Seq<char>>,
    pub details: Option<JsonV>,
}

impl DeepView for Started {
    type V = StartedV;

    open spec fn deep_view(&self) -> StartedV {
        StartedV { message: self.message.deep_view(), details: self.details.deep_view() }
    }
}

/// A backend failure surfaced as an event.
#[derive(Debug)]
pub struct CrashInfo {
    pub message: String,
    pub kind: Option<String>,
    pub details: Option<Json>,
}

#[verifier::ext_equal]
pub struct CrashInfoV {
    pub message: Seq<char>,
    pub kind: Option<Seq<char>>,
    pub details: Option<JsonV>,
}

impl DeepView for CrashInfo {
    type V = CrashInfoV;

    open spec fn deep_view(&self) -> CrashInfoV {
        CrashInfoV {
            message: self.message@,
            kind: self.kind.deep_view(),
            details: self.details.deep_view(),
        }
    }
}

/// One option a question offers.
#[derive(Debug)]
pub struct QuestionOption {
    pub label: String,
    pub description: Option<String>,
}

#[verifier::ext_equal]
pub struct QuestionOptionV {
    pub label: Seq<char>,
    pub description: Option<Seq<char>>,
}

impl DeepView for QuestionOption {
    type V = QuestionOptionV;

    open spec fn deep_view(&self) -> QuestionOptionV {
        QuestionOptionV { label: self.label@, description: self.description.deep_view() }
    }
}

/// One question put to the client.
#[derive(Debug)]
pub struct QuestionInfo {
    pub question: String,
    pub header: Option<String>,
    pub options: Vec<QuestionOption>,
    pub multi_select: Option<bool>,
    pub custom: Option<bool>,
}

#[verifier::ext_equal]
pub struct QuestionInfoV {
    pub question: Seq<char>,
    pub header: Option<Seq<char>>,
    pub options: Seq<QuestionOptionV>,
    pub multi_select: Option<bool>,
    pub custom: Option<bool>,
}

impl DeepView for QuestionInfo {
    type V = QuestionInfoV;

    open spec fn deep_view(&self) -> QuestionInfoV {
        QuestionInfoV {
            question: self.question@,
            header: self.header.deep_view(),
            options: self.options.deep_view(),
            multi_select: self.multi_select,
            custom: self.custom,
        }
    }
}

/// The tool call a question came from.
#[derive(Debug)]
pub struct QuestionToolRef {
    pub message_id: String,
    pub call_id: String,
}

#[verifier::ext_equal]
pub struct QuestionToolRefV {
    pub message_id: Seq<char>,
    pub call_id: Seq<char>,
}

impl DeepView for QuestionToolRef {
    type V = QuestionToolRefV;

    open spec fn deep_view(&self) -> QuestionToolRefV {
        QuestionToolRefV { message_id: self.message_id@, call_id: self.call_id@ }
    }
}

/// A request for the client to answer one or more questions.
#[derive(Debug)]
pub struct QuestionRequest {
    pub id: String,
    pub session_id: String,
    pub questions: Vec<QuestionInfo>,
    pub tool: Option<QuestionToolRef>,
}

#[verifier::ext_equal]
pub struct QuestionRequestV {
    pub id: Seq<char>,
    pub session_id: Seq<char>,
    pub questions: Seq<QuestionInfoV>,
    pub tool: Option<QuestionToolRefV>,
}

impl DeepView for QuestionRequest {
    type V = QuestionRequestV;

    open spec fn deep_view(&self) -> QuestionRequestV {
        QuestionRequestV {
            id: self.id@,
            session_id: self.session_id@,
            questions: self.questions.deep_view(),
            tool: self.tool.deep_view(),
        }
    }
}

/// The tool call a permission request came from.
#[derive(Debug)]
pub struct PermissionToolRef {
    pub message_id: String,
    pub call_id: String,
}

#[verifier::ext_equal]
pub struct PermissionToolRefV {
    pub message_id: Seq<char>,
    pub call_id: Seq<char>,
}

impl DeepView for PermissionToolRef {
    type V = PermissionToolRefV;

    open spec fn deep_view(&self) -> PermissionToolRefV {
        PermissionToolRefV { message_id: self.message_id@, call_id: self.call_id@ }
    }
}

/// A request for the client to allow or reject an action.
#[derive(Debug)]
pub struct PermissionRequest {
    pub id: String,
    pub session_id: String,
    pub permission: String,
    pub patterns: Vec<String>,
    pub metadata: Vec<(String, Json)>,
    pub always: Vec<String>,
    pub tool: Option<PermissionToolRef>,
}

#[verifier::ext_equal]
pub struct PermissionRequestV {
    pub id: Seq<char>,
    pub session_id: Seq<char>,
    pub permission: Seq<char>,
    pub patterns: Seq<Seq<char>>,
    pub metadata: Seq<(Seq<char>, JsonV)>,
    pub always: Seq<Seq<char>>,
    pub tool: Option<PermissionToolRefV>,
}

impl DeepView for PermissionRequest {
    type V = PermissionRequestV;

    open spec fn deep_view(&self) -> PermissionRequestV {
        PermissionRequestV {
            id: self.id@,
            session_id: self.session_id@,
            permission: self.permission@,
            patterns: self.patterns.deep_view(),
            metadata: self.metadata.deep_view(),
            always: self.always.deep_view(),
            tool: self.tool.deep_view(),
        }
    }
}

// ---------------------------------------------------------------------------
// Streaming items, produced by the remote-procedure-call adapter.
// ---------------------------------------------------------------------------

/// What kind of item a streaming event is about.
#[derive(Debug, Clone, Copy, PartialEq, Eq, Structural)]
pub enum ItemKind {
    Message,
    ToolCall,
    ToolResult,
    Status,
}

/// Who an item belongs to.
#[derive(Debug, Clone, Copy, PartialEq, Eq, Structural)]
pub enum ItemRole {
    Assistant,
    User,
    System,
    Tool,
}

/// How far an item has come.
#[derive(Debug, Clone, Copy, PartialEq, Eq, Structural)]
pub enum ItemStatus {
    InProgress,
    Completed,
    Failed,
}

/// Whether reasoning text is meant to be shown.
#[derive(Debug, Clone, Copy, PartialEq, Eq, Structural)]
pub enum ReasoningVisibility {
    Private,
    Public,
}

/// The kind of a universal event, as the stream labels it.
#[derive(Debug, Clone, Copy, PartialEq, Eq, Structural)]
pub enum UniversalEventType {
    Message,
    Started,
    Error,
    QuestionAsked,
    PermissionAsked,
    Unknown,
    ItemStarted,
    ItemDelta,
    ItemCompleted,
}

/// One piece of an item's content.
#[derive(Debug)]
pub enum ContentPart {
    Text { text: String },
    Reasoning { text: String, visibility: ReasoningVisibility },
    ToolCall { name: String, arguments: String, call_id: String },
    ToolResult { call_id: String, output: String },
    Status { label: String, detail: Option<String> },
    Image { path: String, mime: Option<String> },
    Json { json: Json },
}

#[verifier::ext_equal]
pub enum ContentPartV {
    Text { text: Seq<char> },
    Reasoning { text: Seq<char>, visibility: ReasoningVisibility },
    ToolCall { name: Seq<char>, arguments: Seq<char>, call_id: Seq<char> },
    ToolResult { call_id: Seq<char>, output: Seq<char> },
    Status { label: Seq<char>, detail: Option<Seq<char>> },
    Image { path: Seq<char>, mime: Option<Seq<char>> },
    Json { json: JsonV },
}

impl DeepView for ContentPart {
    type V = ContentPartV;

    open spec fn deep_view(&self) -> ContentPartV {
        match self {
            ContentPart::Text { text } => ContentPartV::Text { text: text@ },
            ContentPart::Reasoning { text, visibility } => ContentPartV::Reasoning {
                text: text@,
                visibility: *visibility,
            },
            ContentPart::ToolCall { name, arguments, call_id } => ContentPartV::ToolCall {
                name: name@,
                arguments: arguments@,
                call_id: call_id@,
            },
            ContentPart::ToolResult { call_id, output } => ContentPartV::ToolResult {
                call_id: call_id@,
                output: output@,
            },
            ContentPart::Status { label, detail } => ContentPartV::Status {
                label: label@,
                detail: detail.deep_view(),
            },
            ContentPart::Image { path, mime } => ContentPartV::Image {
                path: path@,
                mime: mime.deep_view(),
            },
            ContentPart::Json { json } => ContentPartV::Json { json: json.deep_view() },
        }
    }
}

/// One streaming item.
#[derive(Debug)]
pub struct UniversalItem {
    pub item_id: String,
    pub native_item_id: Option<String>,
    pub parent_id: Option<String>,
    pub kind: ItemKind,
    pub role: Option<ItemRole>,
    pub content: Vec<ContentPart>,
    pub status: ItemStatus,
}

#[verifier::ext_equal]
pub struct UniversalItemV {
    pub item_id: Seq<char>,
    pub native_item_id: Option<Seq<char>>,
    pub parent_id: Option<Seq<char>>,
    pub kind: ItemKind,
    pub role: Option<ItemRole>,
    pub content: Seq<ContentPartV>,
    pub status: ItemStatus,
}

impl DeepView for UniversalItem {
    type V = UniversalItemV;

    open spec fn deep_view(&self) -> UniversalItemV {
        UniversalItemV {
            item_id: self.item_id@,
            native_item_id: self.native_item_id.deep_view(),
            parent_id: self.parent_id.deep_view(),
            kind: self.kind,
            role: self.role,
            content: self.content.deep_view(),
            status: self.status,
        }
    }
}

/// The payload of an item-started or item-completed event.
#[derive(Debug)]
pub struct ItemEventData {
    pub item: UniversalItem,
}

#[verifier::ext_equal]
pub struct ItemEventDataV {
    pub item: UniversalItemV,
}

impl DeepView for ItemEventData {
    type V = ItemEventDataV;

    open spec fn deep_view(&self) -> ItemEventDataV {
        ItemEventDataV { item: self.item.deep_view() }
    }
}

/// The payload of an incremental delta event.
#[derive(Debug)]
pub struct ItemDeltaData {
    pub item_id: String,
    pub native_item_id: Option<String>,
    pub delta: String,
}

#[verifier::ext_equal]
pub struct ItemDeltaDataV {
    pub item_id: Seq<char>,
    pub native_item_id: Option<Seq<char>>,
    pub delta: Seq<char>,
}

impl DeepView for ItemDeltaData {
    type V = ItemDeltaDataV;

    open spec fn deep_view(&self) -> ItemDeltaDataV {
        ItemDeltaDataV {
            item_id: self.item_id@,
            native_item_id: self.native_item_id.deep_view(),
            delta: self.delta@,
        }
    }
}

// ---------------------------------------------------------------------------
// Events.
// ---------------------------------------------------------------------------

/// The tagged payload of a universal event.
#[derive(Debug)]
pub enum UniversalEventData {
    Message { message: UniversalMessage },
    Started { started: Started },
    Error { error: CrashInfo },
    QuestionAsked { question_asked: QuestionRequest },
    PermissionAsked { permission_asked: PermissionRequest },
    Unknown { raw: Json },
    Item(ItemEventData),
    ItemDelta(ItemDeltaData),
}

#[verifier::ext_equal]
pub enum EventDataV {
    Message { message: MessageV },
    Started { started: StartedV },
    Error { error: CrashInfoV },
    QuestionAsked { question_asked: QuestionRequestV },
    PermissionAsked { permission_asked: PermissionRequestV },
    Unknown { raw: JsonV },
    Item(ItemEventDataV),
    ItemDelta(ItemDeltaDataV),
}

impl DeepView for UniversalEventData {
    type V = EventDataV;

    open spec fn deep_view(&self) -> EventDataV {
        match self {
            UniversalEventData::Message { message } => EventDataV::Message {
                message: message.deep_view(),
            },
            UniversalEventData::Started { started } => EventDataV::Started {
                started: started.deep_view(),
            },
            UniversalEventData::Error { error } => EventDataV::Error { error: error.deep_view() },
            UniversalEventData::QuestionAsked { question_asked } => EventDataV::QuestionAsked {
                question_asked: question_asked.deep_view(),
            },
            UniversalEventData::PermissionAsked { permission_asked } => EventDataV::PermissionAsked {
                permission_asked: permission_asked.deep_view(),
            },
            UniversalEventData::Unknown { raw } => EventDataV::Unknown { raw: raw.deep_view() },
            UniversalEventData::Item(d) => EventDataV::Item(d.deep_view()),
            UniversalEventData::ItemDelta(d) => EventDataV::ItemDelta(d.deep_view()),
        }
    }
}

/// One normalized, sequence-numbered event.
#[derive(Debug)]
pub struct UniversalEvent {
    pub id: u64,
    pub timestamp: String,
    pub session_id: String,
    pub agent: String,
    pub agent_session_id: Option<String>,
    pub data: UniversalEventData,
}

#[verifier::ext_equal]
pub struct UniversalEventV {
    pub id: u64,
    pub timestamp: Seq<char>,
    pub session_id: Seq<char>,
    pub agent: Seq<char>,
    pub agent_session_id: Option<Seq<char>>,
    pub data: EventDataV,
}

impl DeepView for UniversalEvent {
    type V = UniversalEventV;

    open spec fn deep_view(&self) -> UniversalEventV {
        UniversalEventV {
            id: self.id,
            timestamp: self.timestamp@,
            session_id: self.session_id@,
            agent: self.agent@,
            agent_session_id: self.agent_session_id.deep_view(),
            data: self.data.deep_view(),
        }
    }
}

/// What translating one backend event yielded: the payload, its stream label,
/// and the backend's own session id if the payload revealed it.
#[derive(Debug)]
pub struct EventConversion {
    pub event_type: UniversalEventType,
    pub data: UniversalEventData,
    pub agent_session_id: Option<String>,
    pub synthetic: bool,
}

#[verifier::ext_equal]
pub struct EventConversionV {
    pub event_type: UniversalEventType,
    pub data: EventDataV,
    pub agent_session_id: Option<Seq<char>>,
    pub synthetic: bool,
}

impl DeepView for EventConversion {
    type V = EventConversionV;

    open spec fn deep_view(&self) -> EventConversionV {
        EventConversionV {
            event_type: self.event_type,
            data: self.data.deep_view(),
            agent_session_id: self.agent_session_id.deep_view(),
            synthetic: self.synthetic,
        }
    }
}

impl EventConversion {
    /// A conversion with no session hint.
    pub fn new(event_type: UniversalEventType, data: UniversalEventData) -> (r: EventConversion)
        ensures
            r.event_type == event_type,
            r.data == data,
            r.agent_session_id is None,
            !r.synthetic,
    {
        EventConversion { event_type, data, agent_session_id: None, synthetic: false }
    }

    /// The same conversion, carrying the backend's session id.
    pub fn with_session(self, session_id: Option<String>) -> (r: EventConversion)
        ensures
            r.event_type == self.event_type,
            r.data == self.data,
            r.agent_session_id == session_id,
            r.synthetic == self.synthetic,
    {
        EventConversion { agent_session_id: session_id, ..self }
    }

    /// The same conversion, marked as made up by the adapter rather than
    /// received from the backend.
    pub fn synthetic(self) -> (r: EventConversion)
        ensures
            r.event_type == self.event_type,
            r.data == self.data,
            r.agent_session_id == self.agent_session_id,
            r.synthetic,
    {
        EventConversion { synthetic: true, ..self }
    }
}

/// Why a value could not be translated.
#[derive(Debug)]
pub enum ConversionError {
    Unsupported(String),
    MissingField(String),
    InvalidValue(String),
    Serde(String),
}

// ---------------------------------------------------------------------------
// Shared constructors and extractors.
// ---------------------------------------------------------------------------

/// A parsed message of the given role holding one text part.
pub fn message_from_text(role: &str, text: String) -> (r: UniversalMessage)
    ensures
        r.deep_view() == MessageV::Parsed(
            ParsedV {
                role: role@,
                id: None,
                metadata: Seq::empty(),
                parts: seq![PartV::Text { text: text@ }],
            },
        ),
{
    let parts = vec![UniversalMessagePart::Text { text }];
    let r = UniversalMessage::Parsed(
        UniversalMessageParsed { role: role.to_owned(), id: None, metadata: Vec::new(), parts },
    );
    proof {
        assert(r.deep_view()->Parsed_0.parts =~= seq![PartV::Text { text: text@ }]);
        assert(r.deep_view()->Parsed_0.metadata =~= Seq::<(Seq<char>, JsonV)>::empty());
    }
    r
}

/// A parsed message of the given role holding the given parts.
pub fn message_from_parts(role: &str, parts: Vec<UniversalMessagePart>) -> (r: UniversalMessage)
    ensures
        r.deep_view() == MessageV::Parsed(
            ParsedV {
                role: role@,
                id: None,
                metadata: Seq::empty(),
                parts: parts.deep_view(),
            },
        ),
{
    let r = UniversalMessage::Parsed(
        UniversalMessageParsed { role: role.to_owned(), id: None, metadata: Vec::new(), parts },
    );
    proof {
        assert(r.deep_view()->Parsed_0.metadata =~= Seq::<(Seq<char>, JsonV)>::empty());
    }
    r
}

/// What joining the texts of a prefix of parts yields: texts are concatenated
/// with one newline between non-empty accumulations.
pub open spec fn spec_join_texts(parts: Seq<PartV>, acc: Seq<char>) -> Seq<char>
    decreases parts.len(),
{
    if parts.len() == 0 {
        acc
    } else {
        let t = parts[0]->Text_text;
        let next = if acc.len() > 0 {
            acc + seq!['\n'] + t
        } else {
            acc + t
        };
        spec_join_texts(parts.skip(1), next)
    }
}

pub open spec fn all_text_parts(parts: Seq<PartV>) -> bool {
    forall|i: int| 0 <= i < parts.len() ==> parts[i] is Text
}

/// Joins the text parts of a message into one string. Any part that is not
/// text is refused; a result with no text at all is refused too.
#[verifier::loop_isolation(false)]
pub fn text_only_from_parts(parts: &Vec<UniversalMessagePart>) -> (r: Result<
    String,
    ConversionError,
>)
    ensures
        r is Ok <==> (all_text_parts(parts.deep_view()) && spec_join_texts(
            parts.deep_view(),
            Seq::empty(),
        ).len() > 0),
        r matches Ok(s) ==> s@ == spec_join_texts(parts.deep_view(), Seq::empty()),
        r matches Err(e) ==> if all_text_parts(parts.deep_view()) {
            e is MissingField
        } else {
            e is Unsupported
        },
{
    let mut text = String::new();
    let mut i: usize = 0;
    proof {
        assert(parts.deep_view().skip(0) =~= parts.deep_view());
    }
    while i < parts.len()
        invariant
            0 <= i <= parts@.len(),
            forall|j: int| 0 <= j < i ==> parts.deep_view()[j] is Text,
            spec_join_texts(parts.deep_view(), Seq::empty()) == spec_join_texts(
                parts.deep_view().skip(i as int),
                text@,
            ),
        decreases parts@.len() - i,
    {
        match &parts[i] {
            UniversalMessagePart::Text { text: part_text } => {
                let ghost t0 = text@;
                let ghost pd = parts.deep_view();
                proof {
                    reveal_strlit("\n");
                    assert("\n"@ =~= seq!['\n']);
                    assert(pd.skip(i as int)[0] == pd[i as int]);
                    assert(pd.skip(i as int).skip(1) =~= pd.skip(i as int + 1));
                }
                if !text.as_str().is_empty() {
                    text.append("\n");
                }
                text.append(part_text.as_str());
                proof {
                    if t0.len() > 0 {
                        assert(text@ =~= t0 + seq!['\n'] + pd[i as int]->Text_text);
                    } else {
                        assert(text@ =~= t0 + pd[i as int]->Text_text);
                    }
                    assert(spec_join_texts(pd.skip(i as int), t0) == spec_join_texts(
                        pd.skip(i as int + 1),
                        text@,
                    ));
                }
            }
            UniversalMessagePart::ToolCall { .. } => {
                return Err(ConversionError::Unsupported(String::from_str("tool call part")));
            }
            UniversalMessagePart::ToolResult { .. } => {
                return Err(ConversionError::Unsupported(String::from_str("tool result part")));
            }
            UniversalMessagePart::FunctionCall { .. } => {
                return Err(
                    ConversionError::Unsupported(String::from_str("function call part")),
                );
            }
            UniversalMessagePart::FunctionResult { .. } => {
                return Err(
                    ConversionError::Unsupported(String::from_str("function result part")),
                );
            }
            UniversalMessagePart::File { .. } => {
                return Err(ConversionError::Unsupported(String::from_str("file part")));
            }
            UniversalMessagePart::Image { .. } => {
                return Err(ConversionError::Unsupported(String::from_str("image part")));
            }
            UniversalMessagePart::Error { .. } => {
                return Err(ConversionError::Unsupported(String::from_str("error part")));
            }
            UniversalMessagePart::Unknown { .. } => {
                return Err(ConversionError::Unsupported(String::from_str("unknown part")));
            }
        }
        i = i + 1;
    }
    if text.as_str().is_empty() {
        Err(ConversionError::MissingField(String::from_str("text part")))
    } else {
        Ok(text)
    }
}

// ---------------------------------------------------------------------------
// Copies. Every copy has the same mathematical value as its original.
// ---------------------------------------------------------------------------

pub fn clone_opt_string(o: &Option<String>) -> (r: Option<String>)
    ensures
        r.deep_view() == o.deep_view(),
{
    match o {
        Some(s) => Some(s.clone()),
        None => None,
    }
}

pub fn clone_opt_json(o: &Option<Json>) -> (r: Option<Json>)
    ensures
        r.deep_view() == o.deep_view(),
{
    match o {
        Some(v) => Some(v.clone()),
        None => None,
    }
}

pub fn clone_strings(v: &Vec<String>) -> (r: Vec<String>)
    ensures
        r.deep_view() == v.deep_view(),
{
    let mut out: Vec<String> = Vec::new();
    let mut i: usize = 0;
    while i < v.len()
        invariant
            0 <= i <= v@.len(),
            out@.len() == i as int,
            forall|j: int| 0 <= j < i ==> out.deep_view()[j] == v.deep_view()[j],
        decreases v@.len() - i,
    {
        out.push(v[i].clone());
        i = i + 1;
    }
    proof {
        assert(out.deep_view() =~= v.deep_view());
    }
    out
}

pub fn clone_metadata(v: &Vec<(String, Json)>) -> (r: Vec<(String, Json)>)
    ensures
        r.deep_view() == v.deep_view(),
{
    let mut out: Vec<(String, Json)> = Vec::new();
    let mut i: usize = 0;
    while i < v.len()
        invariant
            0 <= i <= v@.len(),
            out@.len() == i as int,
            forall|j: int| 0 <= j < i ==> out.deep_view()[j] == v.deep_view()[j],
        decreases v@.len() - i,
    {
        let key = v[i].0.clone();
        let val = v[i].1.clone();
        out.push((key, val));
        i = i + 1;
    }
    proof {
        assert(out.deep_view() =~= v.deep_view());
    }
    out
}

impl Clone for AttachmentSource {
    fn clone(&self) -> (r: Self)
        ensures
            r.deep_view() == self.deep_view(),
    {
        match self {
            AttachmentSource::Path { path } => AttachmentSource::Path { path: path.clone() },
            AttachmentSource::Url { url } => AttachmentSource::Url { url: url.clone() },
            AttachmentSource::Data { data, encoding } => AttachmentSource::Data {
                data: data.clone(),
                encoding: clone_opt_string(encoding),
            },
        }
    }
}

impl Clone for UniversalMessagePart {
    fn clone(&self) -> (r: Self)
        ensures
            r.deep_view() == self.deep_view(),
    {
        match self {
            UniversalMessagePart::Text { text } => UniversalMessagePart::Text {
                text: text.clone(),
            },
            UniversalMessagePart::ToolCall { id, name, input } => UniversalMessagePart::ToolCall {
                id: clone_opt_string(id),
                name: name.clone(),
                input: input.clone(),
            },
            UniversalMessagePart::ToolResult { id, name, output, is_error } => {
                UniversalMessagePart::ToolResult {
                    id: clone_opt_string(id),
                    name: clone_opt_string(name),
                    output: output.clone(),
                    is_error: *is_error,
                }
            }
            UniversalMessagePart::FunctionCall { id, name, arguments, raw } => {
                UniversalMessagePart::FunctionCall {
                    id: clone_opt_string(id),
                    name: clone_opt_string(name),
                    arguments: arguments.clone(),
                    raw: clone_opt_json(raw),
                }
            }
            UniversalMessagePart::FunctionResult { id, name, result, is_error, raw } => {
                UniversalMessagePart::FunctionResult {
                    id: clone_opt_string(id),
                    name: clone_opt_string(name),
                    result: result.clone(),
                    is_error: *is_error,
                    raw: clone_opt_json(raw),
                }
            }
            UniversalMessagePart::File { source, mime_type, filename, raw } => {
                UniversalMessagePart::File {
                    source: source.clone(),
                    mime_type: clone_opt_string(mime_type),
                    filename: clone_opt_string(filename),
                    raw: clone_opt_json(raw),
                }
            }
            UniversalMessagePart::Image { source, mime_type, alt, raw } => {
                UniversalMessagePart::Image {
                    source: source.clone(),
                    mime_type: clone_opt_string(mime_type),
                    alt: clone_opt_string(alt),
                    raw: clone_opt_json(raw),
                }
            }
            UniversalMessagePart::Error { message } => UniversalMessagePart::Error {
                message: message.clone(),
            },
            UniversalMessagePart::Unknown { raw } => UniversalMessagePart::Unknown {
                raw: raw.clone(),
            },
        }
    }
}

pub fn clone_parts(v: &Vec<UniversalMessagePart>) -> (r: Vec<UniversalMessagePart>)
    ensures
        r.deep_view() == v.deep_view(),
{
    let mut out: Vec<UniversalMessagePart> = Vec::new();
    let mut i: usize = 0;
    while i < v.len()
        invariant
            0 <= i <= v@.len(),
            out@.len() == i as int,
            forall|j: int| 0 <= j < i ==> out.deep_view()[j] == v.deep_view()[j],
        decreases v@.len() - i,
    {
        out.push(v[i].clone());
        i = i + 1;
    }
    proof {
        assert(out.deep_view() =~= v.deep_view());
    }
    out
}

impl Clone for UniversalMessageParsed {
    fn clone(&self) -> (r: Self)
        ensures
            r.deep_view() == self.deep_view(),
    {
        UniversalMessageParsed {
            role: self.role.clone(),
            id: clone_opt_string(&self.id),
            metadata: clone_metadata(&self.metadata),
            parts: clone_parts(&self.parts),
        }
    }
}

impl Clone for UniversalMessage {
    fn clone(&self) -> (r: Self)
        ensures
            r.deep_view() == self.deep_view(),
    {
        match self {
            UniversalMessage::Parsed(p) => UniversalMessage::Parsed(p.clone()),
            UniversalMessage::Unparsed { raw, error } => UniversalMessage::Unparsed {
                raw: raw.clone(),
                error: clone_opt_string(error),
            },
        }
    }
}

impl Clone for Started {
    fn clone(&self) -> (r: Self)
        ensures
            r.deep_view() == self.deep_view(),
    {
        Started {
            message: clone_opt_string(&self.message),
            details: clone_opt_json(&self.details),
        }
    }
}

impl Clone for CrashInfo {
    fn clone(&self) -> (r: Self)
        ensures
            r.deep_view() == self.deep_view(),
    {
        CrashInfo {
            message: self.message.clone(),
            kind: clone_opt_string(&self.kind),
            details: clone_opt_json(&self.details),
        }
    }
}

impl Clone for QuestionOption {
    fn clone(&self) -> (r: Self)
        ensures
            r.deep_view() == self.deep_view(),
    {
        QuestionOption {
            label: self.label.clone(),
            description: clone_opt_string(&self.description),
        }
    }
}

pub fn clone_question_options(v: &Vec<QuestionOption>) -> (r: Vec<QuestionOption>)
    ensures
        r.deep_view() == v.deep_view(),
{
    let mut out: Vec<QuestionOption> = Vec::new();
    let mut i: usize = 0;
    while i < v.len()
        invariant
            0 <= i <= v@.len(),
            out@.len() == i as int,
            forall|j: int| 0 <= j < i ==> out.deep_view()[j] == v.deep_view()[j],
        decreases v@.len() - i,
    {
        out.push(v[i].clone());
        i = i + 1;
    }
    proof {
        assert(out.deep_view() =~= v.deep_view());
    }
    out
}

impl Clone for QuestionInfo {
    fn clone(&self) -> (r: Self)
        ensures
            r.deep_view() == self.deep_view(),
    {
        QuestionInfo {
            question: self.question.clone(),
            header: clone_opt_string(&self.header),
            options: clone_question_options(&self.options),
            multi_select: self.multi_select,
            custom: self.custom,
        }
    }
}

pub fn clone_questions(v: &Vec<QuestionInfo>) -> (r: Vec<QuestionInfo>)
    ensures
        r.deep_view() == v.deep_view(),
{
    let mut out: Vec<QuestionInfo> = Vec::new();
    let mut i: usize = 0;
    while i < v.len()
        invariant
            0 <= i <= v@.len(),
            out@.len() == i as int,
            forall|j: int| 0 <= j < i ==> out.deep_view()[j] == v.deep_view()[j],
        decreases v@.len() - i,
    {
        out.push(v[i].clone());
        i = i + 1;
    }
    proof {
        assert(out.deep_view() =~= v.deep_view());
    }
    out
}

impl Clone for QuestionToolRef {
    fn clone(&self) -> (r: Self)
        ensures
            r.deep_view() == self.deep_view(),
    {
        QuestionToolRef {
            message_id: self.message_id.clone(),
            call_id: self.call_id.clone(),
        }
    }
}

impl Clone for QuestionRequest {
    fn clone(&self) -> (r: Self)
        ensures
            r.deep_view() == self.deep_view(),
    {
        QuestionRequest {
            id: self.id.clone(),
            session_id: self.session_id.clone(),
            questions: clone_questions(&self.questions),
            tool: match &self.tool {
                Some(t) => Some(t.clone()),
                None => None,
            },
        }
    }
}

impl Clone for PermissionToolRef {
    fn clone(&self) -> (r: Self)
        ensures
            r.deep_view() == self.deep_view(),
    {
        PermissionToolRef {
            message_id: self.message_id.clone(),
            call_id: self.call_id.clone(),
        }
    }
}

impl Clone for PermissionRequest {
    fn clone(&self) -> (r: Self)
        ensures
            r.deep_view() == self.deep_view(),
    {
        PermissionRequest {
            id: self.id.clone(),
            session_id: self.session_id.clone(),
            permission: self.permission.clone(),
            patterns: clone_strings(&self.patterns),
            metadata: clone_metadata(&self.metadata),
            always: clone_strings(&self.always),
            tool: match &self.tool {
                Some(t) => Some(t.clone()),
                None => None,
            },
        }
    }
}

impl Clone for ContentPart {
    fn clone(&self) -> (r: Self)
        ensures
            r.deep_view() == self.deep_view(),
    {
        match self {
            ContentPart::Text { text } => ContentPart::Text { text: text.clone() },
            ContentPart::Reasoning { text, visibility } => ContentPart::Reasoning {
                text: text.clone(),
                visibility: *visibility,
            },
            ContentPart::ToolCall { name, arguments, call_id } => ContentPart::ToolCall {
                name: name.clone(),
                arguments: arguments.clone(),
                call_id: call_id.clone(),
            },
            ContentPart::ToolResult { call_id, output } => ContentPart::ToolResult {
                call_id: call_id.clone(),
                output: output.clone(),
            },
            ContentPart::Status { label, detail } => ContentPart::Status {
                label: label.clone(),
                detail: clone_opt_string(detail),
            },
            ContentPart::Image { path, mime } => ContentPart::Image {
                path: path.clone(),
                mime: clone_opt_string(mime),
            },
            ContentPart::Json { json } => ContentPart::Json { json: json.clone() },
        }
    }
}

pub fn clone_content_parts(v: &Vec<ContentPart>) -> (r: Vec<ContentPart>)
    ensures
        r.deep_view() == v.deep_view(),
{
    let mut out: Vec<ContentPart> = Vec::new();
    let mut i: usize = 0;
    while i < v.len()
        invariant
            0 <= i <= v@.len(),
            out@.len() == i as int,
            forall|j: int| 0 <= j < i ==> out.deep_view()[j] == v.deep_view()[j],
        decreases v@.len() - i,
    {
        out.push(v[i].clone());
        i = i + 1;
    }
    proof {
        assert(out.deep_view() =~= v.deep_view());
    }
    out
}

impl Clone for UniversalItem {
    fn clone(&self) -> (r: Self)
        ensures
            r.deep_view() == self.deep_view(),
    {
        UniversalItem {
            item_id: self.item_id.clone(),
            native_item_id: clone_opt_string(&self.native_item_id),
            parent_id: clone_opt_string(&self.parent_id),
            kind: self.kind,
            role: self.role,
            content: clone_content_parts(&self.content),
            status: self.status,
        }
    }
}

impl Clone for ItemEventData {
    fn clone(&self) -> (r: Self)
        ensures
            r.deep_view() == self.deep_view(),
    {
        ItemEventData { item: self.item.clone() }
    }
}

impl Clone for ItemDeltaData {
    fn clone(&self) -> (r: Self)
        ensures
            r.deep_view() == self.deep_view(),
    {
        ItemDeltaData {
            item_id: self.item_id.clone(),
            native_item_id: clone_opt_string(&self.native_item_id),
            delta: self.delta.clone(),
        }
    }
}

impl Clone for UniversalEventData {
    fn clone(&self) -> (r: Self)
        ensures
            r.deep_view() == self.deep_view(),
    {
        match self {
            UniversalEventData::Message { message } => UniversalEventData::Message {
                message: message.clone(),
            },
            UniversalEventData::Started { started } => UniversalEventData::Started {
                started: started.clone(),
            },
            UniversalEventData::Error { error } => UniversalEventData::Error {
                error: error.clone(),
            },
            UniversalEventData::QuestionAsked { question_asked } => {
                UniversalEventData::QuestionAsked { question_asked: question_asked.clone() }
            }
            UniversalEventData::PermissionAsked { permission_asked } => {
                UniversalEventData::PermissionAsked {
                    permission_asked: permission_asked.clone(),
                }
            }
            UniversalEventData::Unknown { raw } => UniversalEventData::Unknown {
                raw: raw.clone(),
            },
            UniversalEventData::Item(d) => UniversalEventData::Item(d.clone()),
            UniversalEventData::ItemDelta(d) => UniversalEventData::ItemDelta(d.clone()),
        }
    }
}

impl Clone for UniversalEvent {
    fn clone(&self) -> (r: Self)
        ensures
            r.deep_view() == self.deep_view(),
    {
        UniversalEvent {
            id: self.id,
            timestamp: self.timestamp.clone(),
            session_id: self.session_id.clone(),
            agent: self.agent.clone(),
            agent_session_id: clone_opt_string(&self.agent_session_id),
            data: self.data.clone(),
        }
    }
}

impl Clone for EventConversion {
    fn clone(&self) -> (r: Self)
        ensures
            r.deep_view() == self.deep_view(),
    {
        EventConversion {
            event_type: self.event_type,
            data: self.data.clone(),
            agent_session_id: clone_opt_string(&self.agent_session_id),
            synthetic: self.synthetic,
        }
    }
}

/// The text under `<key>.message` of a payload, when that path holds one.
pub open spec fn spec_message_under(v: JsonV, key: Seq<char>) -> Option<Seq<char>> {
    match crate::json::json_get(v, key) {
        Some(e) => crate::json::spec_text_at(e, "message"@),
        None => None,
    }
}

/// A human-readable message found inside a raw payload: directly under
/// `message`, or under `error.message`, or under `data.message`.
pub open spec fn spec_extract_message(v: JsonV) -> Option<Seq<char>> {
    if crate::json::spec_text_at(v, "message"@) is Some {
        crate::json::spec_text_at(v, "message"@)
    } else if spec_message_under(v, "error"@) is Some {
        spec_message_under(v, "error"@)
    } else {
        spec_message_under(v, "data"@)
    }
}

/// Pulls a human-readable message out of a raw payload.
pub fn extract_message_from_value(v: &Json) -> (r: Option<String>)
    ensures
        r matches Some(s) ==> spec_extract_message(v.deep_view()) == Some(s@),
        r is None ==> spec_extract_message(v.deep_view()) is None,
{
    if let Some(s) = v.get_text("message") {
        return Some(s);
    }
    if let Some(e) = v.get("error") {
        if let Some(s) = e.get_text("message") {
            return Some(s);
        }
    }
    if let Some(d) = v.get("data") {
        if let Some(s) = d.get_text("message") {
            return Some(s);
        }
    }
    None
}

} // verus!
