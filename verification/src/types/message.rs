//! Message types: everything the data-message stream can yield. Free-form
//! JSON values (usage, events, tool results) are held as their JSON text.

use vstd::prelude::*;

use super::content::ContentBlock;

verus! {

/// Assistant message error types.
#[derive(Debug, Clone, Copy, PartialEq, Eq, Structural)]
pub enum AssistantMessageError {
    AuthenticationFailed,
    BillingError,
    RateLimit,
    InvalidRequest,
    ServerError,
    Unknown,
}

/// User message content: a plain string or a list of content blocks.
#[derive(Debug, Clone, PartialEq)]
pub enum UserMessageContent {
    Text(String),
    Blocks(Vec<ContentBlock>),
}

impl From<String> for UserMessageContent {
    fn from(text: String) -> (r: UserMessageContent) {
        UserMessageContent::Text(text)
    }
}

impl vstd::std_specs::convert::FromSpecImpl<String> for UserMessageContent {
    open spec fn obeys_from_spec() -> bool {
        true
    }

    open spec fn from_spec(text: String) -> UserMessageContent {
        UserMessageContent::Text(text)
    }
}

impl From<Vec<ContentBlock>> for UserMessageContent {
    fn from(blocks: Vec<ContentBlock>) -> (r: UserMessageContent) {
        UserMessageContent::Blocks(blocks)
    }
}

impl vstd::std_specs::convert::FromSpecImpl<Vec<ContentBlock>> for UserMessageContent {
    open spec fn obeys_from_spec() -> bool {
        true
    }

    open spec fn from_spec(blocks: Vec<ContentBlock>) -> UserMessageContent {
        UserMessageContent::Blocks(blocks)
    }
}

/// User message.
#[derive(Debug, Clone, PartialEq)]
pub struct UserMessage {
    pub content: UserMessageContent,
    pub uuid: Option<String>,
    pub parent_tool_use_id: Option<String>,
    /// Result of the tool use this message answers, as JSON text.
    pub tool_use_result: Option<String>,
}

impl UserMessage {
    pub fn new(content: UserMessageContent) -> (r: UserMessage)
        ensures
            r == (UserMessage { content, uuid: None, parent_tool_use_id: None, tool_use_result: None }),
    {
        UserMessage { content, uuid: None, parent_tool_use_id: None, tool_use_result: None }
    }

    pub fn with_uuid(self, uuid: &str) -> (r: UserMessage)
        ensures
            r.uuid matches Some(u) && u@ == uuid@,
            r.content == self.content,
            r.parent_tool_use_id == self.parent_tool_use_id,
            r.tool_use_result == self.tool_use_result,
    {
        UserMessage { uuid: Some(uuid.to_owned()), ..self }
    }

    pub fn with_parent_tool_use_id(self, id: &str) -> (r: UserMessage)
        ensures
            r.parent_tool_use_id matches Some(p) && p@ == id@,
            r.content == self.content,
            r.uuid == self.uuid,
            r.tool_use_result == self.tool_use_result,
    {
        UserMessage { parent_tool_use_id: Some(id.to_owned()), ..self }
    }

    pub fn with_tool_use_result(self, result: String) -> (r: UserMessage)
        ensures
            r == (UserMessage { tool_use_result: Some(result), ..self }),
    {
        UserMessage { tool_use_result: Some(result), ..self }
    }
}

/// The concatenated text of all text blocks in a content sequence.
pub open spec fn content_text(blocks: Seq<ContentBlock>) -> Seq<char>
    decreases blocks.len(),
{
    if blocks.len() == 0 {
        Seq::empty()
    } else {
        content_text(blocks.drop_last()) + (match blocks.last() {
            ContentBlock::Text { text } => text@,
            _ => Seq::<char>::empty(),
        })
    }
}

/// The tool use blocks of a content sequence, in order.
pub open spec fn content_tool_uses(blocks: Seq<ContentBlock>) -> Seq<ContentBlock>
    decreases blocks.len(),
{
    if blocks.len() == 0 {
        Seq::empty()
    } else {
        content_tool_uses(blocks.drop_last()) + (match blocks.last() {
            ContentBlock::ToolUse { .. } => seq![blocks.last()],
            _ => Seq::<ContentBlock>::empty(),
        })
    }
}

/// Assistant message with content blocks.
#[derive(Debug, Clone, PartialEq)]
pub struct AssistantMessage {
    pub content: Vec<ContentBlock>,
    pub model: String,
    pub parent_tool_use_id: Option<String>,
    pub error: Option<AssistantMessageError>,
}

impl AssistantMessage {
    pub fn new(content: Vec<ContentBlock>, model: &str) -> (r: AssistantMessage)
        ensures
            r.content == content,
            r.model@ == model@,
            r.parent_tool_use_id is None,
            r.error is None,
    {
        AssistantMessage {
            content,
            model: model.to_owned(),
            parent_tool_use_id: None,
            error: None,
        }
    }

    pub fn with_parent_tool_use_id(self, id: &str) -> (r: AssistantMessage)
        ensures
            r.parent_tool_use_id matches Some(p) && p@ == id@,
            r.content == self.content,
            r.model == self.model,
            r.error == self.error,
    {
        AssistantMessage { parent_tool_use_id: Some(id.to_owned()), ..self }
    }

    pub fn with_error(self, error: AssistantMessageError) -> (r: AssistantMessage)
        ensures
            r == (AssistantMessage { error: Some(error), ..self }),
    {
        AssistantMessage { error: Some(error), ..self }
    }

    /// Get all text content from this message, concatenated.
    pub fn text(&self) -> (r: String)
        ensures
            r@ == content_text(self.content@),
    {
        let mut s = String::new();
        let n = self.content.len();
        let mut i: usize = 0;
        while i < n
            invariant
                n == self.content.len(),
                i <= n,
                s@ == content_text(self.content@.subrange(0, i as int)),
            decreases n - i,
        {
            if let ContentBlock::Text { text } = &self.content[i] {
                s.append(text.as_str());
            }
            proof {
                let all = self.content@;
                assert(all.subrange(0, i as int + 1).drop_last() =~= all.subrange(0, i as int));
                assert(all.subrange(0, i as int + 1).last() == all[i as int]);
                assert(s@ =~= content_text(all.subrange(0, i as int + 1)));
            }
            i = i + 1;
        }
        proof {
            assert(self.content@.subrange(0, n as int) =~= self.content@);
        }
        s
    }

    /// Get all tool use blocks from this message.
    pub fn tool_uses(&self) -> (r: Vec<ContentBlock>)
        ensures
            r@ == content_tool_uses(self.content@),
    {
        let mut out: Vec<ContentBlock> = Vec::new();
        let n = self.content.len();
        let mut i: usize = 0;
        while i < n
            invariant
                n == self.content.len(),
                i <= n,
                out@ == content_tool_uses(self.content@.subrange(0, i as int)),
            decreases n - i,
        {
            if let ContentBlock::ToolUse { id, name, input } = &self.content[i] {
                out.push(
                    ContentBlock::ToolUse {
                        id: id.clone(),
                        name: name.clone(),
                        input: input.clone(),
                    },
                );
            }
            proof {
                let all = self.content@;
                assert(all.subrange(0, i as int + 1).drop_last() =~= all.subrange(0, i as int));
                assert(all.subrange(0, i as int + 1).last() == all[i as int]);
                assert(out@ =~= content_tool_uses(all.subrange(0, i as int + 1)));
            }
            i = i + 1;
        }
        proof {
            assert(self.content@.subrange(0, n as int) =~= self.content@);
        }
        out
    }
}

/// System message; `data` holds the whole raw message as JSON text.
#[derive(Debug, Clone, PartialEq)]
pub struct SystemMessage {
    pub subtype: String,
    pub data: String,
}

impl SystemMessage {
    pub fn new(subtype: &str, data: String) -> (r: SystemMessage)
        ensures
            r.subtype@ == subtype@,
            r.data == data,
    {
        SystemMessage { subtype: subtype.to_owned(), data }
    }
}

/// Result message with duration, cost and usage information. The cost is a
/// JSON number; it is held as its text so that no floating point value enters
/// the library.
#[derive(Debug, Clone, PartialEq)]
pub struct ResultMessage {
    pub subtype: String,
    pub duration_ms: i64,
    pub duration_api_ms: i64,
    pub is_error: bool,
    pub num_turns: i32,
    pub session_id: String,
    /// Total cost in USD as the JSON number's text.
    pub total_cost_usd: Option<String>,
    /// Usage object as JSON text.
    pub usage: Option<String>,
    pub result: Option<String>,
    /// Structured output as JSON text.
    pub structured_output: Option<String>,
}

impl ResultMessage {
    pub fn new(
        subtype: &str,
        duration_ms: i64,
        duration_api_ms: i64,
        is_error: bool,
        num_turns: i32,
        session_id: &str,
    ) -> (r: ResultMessage)
        ensures
            r.subtype@ == subtype@,
            r.duration_ms == duration_ms,
            r.duration_api_ms == duration_api_ms,
            r.is_error == is_error,
            r.num_turns == num_turns,
            r.session_id@ == session_id@,
            r.total_cost_usd is None,
            r.usage is None,
            r.result is None,
            r.structured_output is None,
    {
        ResultMessage {
            subtype: subtype.to_owned(),
            duration_ms,
            duration_api_ms,
            is_error,
            num_turns,
            session_id: session_id.to_owned(),
            total_cost_usd: None,
            usage: None,
            result: None,
            structured_output: None,
        }
    }

    pub fn with_usage(self, usage: String) -> (r: ResultMessage)
        ensures
            r == (ResultMessage { usage: Some(usage), ..self }),
    {
        ResultMessage { usage: Some(usage), ..self }
    }

    pub fn with_result(self, result: &str) -> (r: ResultMessage)
        ensures
            r.result matches Some(m) && m@ == result@,
            r.subtype == self.subtype,
            r.duration_ms == self.duration_ms,
            r.duration_api_ms == self.duration_api_ms,
            r.is_error == self.is_error,
            r.num_turns == self.num_turns,
            r.session_id == self.session_id,
            r.total_cost_usd == self.total_cost_usd,
            r.usage == self.usage,
            r.structured_output == self.structured_output,
    {
        ResultMessage { result: Some(result.to_owned()), ..self }
    }

    pub fn with_structured_output(self, output: String) -> (r: ResultMessage)
        ensures
            r == (ResultMessage { structured_output: Some(output), ..self }),
    {
        ResultMessage { structured_output: Some(output), ..self }
    }
}

/// Stream event for partial message updates; `event` is JSON text.
#[derive(Debug, Clone, PartialEq)]
pub struct StreamEvent {
    pub uuid: String,
    pub session_id: String,
    pub event: String,
    pub parent_tool_use_id: Option<String>,
}

impl StreamEvent {
    pub fn new(uuid: &str, session_id: &str, event: String) -> (r: StreamEvent)
        ensures
            r.uuid@ == uuid@,
            r.session_id@ == session_id@,
            r.event == event,
            r.parent_tool_use_id is None,
    {
        StreamEvent {
            uuid: uuid.to_owned(),
            session_id: session_id.to_owned(),
            event,
            parent_tool_use_id: None,
        }
    }

    pub fn with_parent_tool_use_id(self, id: &str) -> (r: StreamEvent)
        ensures
            r.parent_tool_use_id matches Some(p) && p@ == id@,
            r.uuid == self.uuid,
            r.session_id == self.session_id,
            r.event == self.event,
    {
        StreamEvent { parent_tool_use_id: Some(id.to_owned()), ..self }
    }
}

/// Message: every kind the data-message stream can yield.
#[derive(Debug, Clone, PartialEq)]
pub enum Message {
    User(UserMessage),
    Assistant(AssistantMessage),
    System(SystemMessage),
    Result(ResultMessage),
    StreamEvent(StreamEvent),
}

impl Message {
    /// Returns true if this is a user message.
    pub fn is_user(&self) -> (r: bool)
        ensures
            r == (self matches Message::User(_)),
    {
        matches!(self, Message::User(_))
    }

    /// Returns true if this is an assistant message.
    pub fn is_assistant(&self) -> (r: bool)
        ensures
            r == (self matches Message::Assistant(_)),
    {
        matches!(self, Message::Assistant(_))
    }

    /// Returns true if this is a system message.
    pub fn is_system(&self) -> (r: bool)
        ensures
            r == (self matches Message::System(_)),
    {
        matches!(self, Message::System(_))
    }

    /// Returns true if this is a result message.
    pub fn is_result(&self) -> (r: bool)
        ensures
            r == (self matches Message::Result(_)),
    {
        matches!(self, Message::Result(_))
    }

    /// Returns true if this is a stream event.
    pub fn is_stream_event(&self) -> (r: bool)
        ensures
            r == (self matches Message::StreamEvent(_)),
    {
        matches!(self, Message::StreamEvent(_))
    }

    /// Get as user message if applicable.
    pub fn as_user(&self) -> (r: Option<&UserMessage>)
        ensures
            match r {
                Some(m) => self matches Message::User(u) && u == *m,
                None => !(self matches Message::User(_)),
            },
    {
        match self {
            Message::User(msg) => Some(msg),
            _ => None,
        }
    }

    /// Get as assistant message if applicable.
    pub fn as_assistant(&self) -> (r: Option<&AssistantMessage>)
        ensures
            match r {
                Some(m) => self matches Message::Assistant(a) && a == *m,
                None => !(self matches Message::Assistant(_)),
            },
    {
        match self {
            Message::Assistant(msg) => Some(msg),
            _ => None,
        }
    }

    /// Get as system message if applicable.
    pub fn as_system(&self) -> (r: Option<&SystemMessage>)
        ensures
            match r {
                Some(m) => self matches Message::System(s) && s == *m,
                None => !(self matches Message::System(_)),
            },
    {
        match self {
            Message::System(msg) => Some(msg),
            _ => None,
        }
    }

    /// Get as result message if applicable.
    pub fn as_result(&self) -> (r: Option<&ResultMessage>)
        ensures
            match r {
                Some(m) => self matches Message::Result(x) && x == *m,
                None => !(self matches Message::Result(_)),
            },
    {
        match self {
            Message::Result(msg) => Some(msg),
            _ => None,
        }
    }

    /// Get as stream event if applicable.
    pub fn as_stream_event(&self) -> (r: Option<&StreamEvent>)
        ensures
            match r {
                Some(m) => self matches Message::StreamEvent(e) && e == *m,
                None => !(self matches Message::StreamEvent(_)),
            },
    {
        match self {
            Message::StreamEvent(event) => Some(event),
            _ => None,
        }
    }
}

impl From<UserMessage> for Message {
    fn from(msg: UserMessage) -> (r: Message) {
        Message::User(msg)
    }
}

impl vstd::std_specs::convert::FromSpecImpl<UserMessage> for Message {
    open spec fn obeys_from_spec() -> bool {
        true
    }

    open spec fn from_spec(msg: UserMessage) -> Message {
        Message::User(msg)
    }
}

impl From<AssistantMessage> for Message {
    fn from(msg: AssistantMessage) -> (r: Message) {
        Message::Assistant(msg)
    }
}

impl vstd::std_specs::convert::FromSpecImpl<AssistantMessage> for Message {
    open spec fn obeys_from_spec() -> bool {
        true
    }

    open spec fn from_spec(msg: AssistantMessage) -> Message {
        Message::Assistant(msg)
    }
}

impl From<SystemMessage> for Message {
    fn from(msg: SystemMessage) -> (r: Message) {
        Message::System(msg)
    }
}

impl vstd::std_specs::convert::FromSpecImpl<SystemMessage> for Message {
    open spec fn obeys_from_spec() -> bool {
        true
    }

    open spec fn from_spec(msg: SystemMessage) -> Message {
        Message::System(msg)
    }
}

impl From<ResultMessage> for Message {
    fn from(msg: ResultMessage) -> (r: Message) {
        Message::Result(msg)
    }
}

impl vstd::std_specs::convert::FromSpecImpl<ResultMessage> for Message {
    open spec fn obeys_from_spec() -> bool {
        true
    }

    open spec fn from_spec(msg: ResultMessage) -> Message {
        Message::Result(msg)
    }
}

impl From<StreamEvent> for Message {
    fn from(event: StreamEvent) -> (r: Message) {
        Message::StreamEvent(event)
    }
}

impl vstd::std_specs::convert::FromSpecImpl<StreamEvent> for Message {
    open spec fn obeys_from_spec() -> bool {
        true
    }

    open spec fn from_spec(event: StreamEvent) -> Message {
        Message::StreamEvent(event)
    }
}

} // verus!
