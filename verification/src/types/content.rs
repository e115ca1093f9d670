//! Content block types carried inside user and assistant messages. A tool's
//! input and a tool result's content are opaque JSON documents; they are held
//! here as their JSON text.

use vstd::prelude::*;

verus! {

/// Text content block.
#[derive(Debug, Clone, PartialEq)]
pub struct TextBlock {
    pub text: String,
}

impl TextBlock {
    pub fn new(text: &str) -> (r: TextBlock)
        ensures
            r.text@ == text@,
    {
        TextBlock { text: text.to_owned() }
    }
}

/// Thinking content block (internal reasoning with its signature).
#[derive(Debug, Clone, PartialEq)]
pub struct ThinkingBlock {
    pub thinking: String,
    pub signature: String,
}

impl ThinkingBlock {
    pub fn new(thinking: &str, signature: &str) -> (r: ThinkingBlock)
        ensures
            r.thinking@ == thinking@,
            r.signature@ == signature@,
    {
        ThinkingBlock { thinking: thinking.to_owned(), signature: signature.to_owned() }
    }
}

/// Tool use content block; `input` holds the tool input as JSON text.
#[derive(Debug, Clone, PartialEq)]
pub struct ToolUseBlock {
    pub id: String,
    pub name: String,
    pub input: String,
}

impl ToolUseBlock {
    pub fn new(id: &str, name: &str, input: &str) -> (r: ToolUseBlock)
        ensures
            r.id@ == id@,
            r.name@ == name@,
            r.input@ == input@,
    {
        ToolUseBlock { id: id.to_owned(), name: name.to_owned(), input: input.to_owned() }
    }
}

/// Tool result content block; `content` holds the result as JSON text.
#[derive(Debug, Clone, PartialEq)]
pub struct ToolResultBlock {
    pub tool_use_id: String,
    pub content: Option<String>,
    pub is_error: Option<bool>,
}

impl ToolResultBlock {
    pub fn new(tool_use_id: &str) -> (r: ToolResultBlock)
        ensures
            r.tool_use_id@ == tool_use_id@,
            r.content is None,
            r.is_error is None,
    {
        ToolResultBlock { tool_use_id: tool_use_id.to_owned(), content: None, is_error: None }
    }

    pub fn with_content(self, content: String) -> (r: ToolResultBlock)
        ensures
            r == (ToolResultBlock { content: Some(content), ..self }),
    {
        ToolResultBlock { content: Some(content), ..self }
    }

    pub fn with_error(self, is_error: bool) -> (r: ToolResultBlock)
        ensures
            r == (ToolResultBlock { is_error: Some(is_error), ..self }),
    {
        ToolResultBlock { is_error: Some(is_error), ..self }
    }
}

/// Content block: every kind of content a message can carry.
#[derive(Debug, Clone, PartialEq)]
pub enum ContentBlock {
    Text { text: String },
    Thinking { thinking: String, signature: String },
    ToolUse { id: String, name: String, input: String },
    ToolResult { tool_use_id: String, content: Option<String>, is_error: Option<bool> },
}

impl ContentBlock {
    /// Create a new text content block.
    pub fn text(text: &str) -> (r: ContentBlock)
        ensures
            r matches ContentBlock::Text { text: t } && t@ == text@,
    {
        ContentBlock::Text { text: text.to_owned() }
    }

    /// Create a new thinking content block.
    pub fn thinking(thinking: &str, signature: &str) -> (r: ContentBlock)
        ensures
            r matches ContentBlock::Thinking { thinking: t, signature: s } && t@ == thinking@
                && s@ == signature@,
    {
        ContentBlock::Thinking { thinking: thinking.to_owned(), signature: signature.to_owned() }
    }

    /// Create a new tool use content block.
    pub fn tool_use(id: &str, name: &str, input: &str) -> (r: ContentBlock)
        ensures
            r matches ContentBlock::ToolUse { id: i, name: n, input: p } && i@ == id@ && n@
                == name@ && p@ == input@,
    {
        ContentBlock::ToolUse { id: id.to_owned(), name: name.to_owned(), input: input.to_owned() }
    }

    /// Create a new tool result content block.
    pub fn tool_result(tool_use_id: &str, content: Option<String>, is_error: Option<bool>) -> (r:
        ContentBlock)
        ensures
            r matches ContentBlock::ToolResult { tool_use_id: t, content: c, is_error: e } && t@
                == tool_use_id@ && c == content && e == is_error,
    {
        ContentBlock::ToolResult { tool_use_id: tool_use_id.to_owned(), content, is_error }
    }

    /// Returns true if this is a text block.
    pub fn is_text(&self) -> (r: bool)
        ensures
            r == (self matches ContentBlock::Text { .. }),
    {
        matches!(self, ContentBlock::Text { .. })
    }

    /// Returns true if this is a thinking block.
    pub fn is_thinking(&self) -> (r: bool)
        ensures
            r == (self matches ContentBlock::Thinking { .. }),
    {
        matches!(self, ContentBlock::Thinking { .. })
    }

    /// Returns true if this is a tool use block.
    pub fn is_tool_use(&self) -> (r: bool)
        ensures
            r == (self matches ContentBlock::ToolUse { .. }),
    {
        matches!(self, ContentBlock::ToolUse { .. })
    }

    /// Returns true if this is a tool result block.
    pub fn is_tool_result(&self) -> (r: bool)
        ensures
            r == (self matches ContentBlock::ToolResult { .. }),
    {
        matches!(self, ContentBlock::ToolResult { .. })
    }

    /// Get the text content if this is a text block.
    pub fn as_text(&self) -> (r: Option<&str>)
        ensures
            match r {
                Some(t) => self matches ContentBlock::Text { text } && t@ == text@,
                None => !(self matches ContentBlock::Text { .. }),
            },
    {
        match self {
            ContentBlock::Text { text } => Some(text.as_str()),
            _ => None,
        }
    }
}

impl From<TextBlock> for ContentBlock {
    fn from(block: TextBlock) -> (r: ContentBlock) {
        ContentBlock::Text { text: block.text }
    }
}

impl vstd::std_specs::convert::FromSpecImpl<TextBlock> for ContentBlock {
    open spec fn obeys_from_spec() -> bool {
        true
    }

    open spec fn from_spec(block: TextBlock) -> ContentBlock {
        ContentBlock::Text { text: block.text }
    }
}

impl From<ThinkingBlock> for ContentBlock {
    fn from(block: ThinkingBlock) -> (r: ContentBlock) {
        ContentBlock::Thinking { thinking: block.thinking, signature: block.signature }
    }
}

impl vstd::std_specs::convert::FromSpecImpl<ThinkingBlock> for ContentBlock {
    open spec fn obeys_from_spec() -> bool {
        true
    }

    open spec fn from_spec(block: ThinkingBlock) -> ContentBlock {
        ContentBlock::Thinking { thinking: block.thinking, signature: block.signature }
    }
}

impl From<ToolUseBlock> for ContentBlock {
    fn from(block: ToolUseBlock) -> (r: ContentBlock) {
        ContentBlock::ToolUse { id: block.id, name: block.name, input: block.input }
    }
}

impl vstd::std_specs::convert::FromSpecImpl<ToolUseBlock> for ContentBlock {
    open spec fn obeys_from_spec() -> bool {
        true
    }

    open spec fn from_spec(block: ToolUseBlock) -> ContentBlock {
        ContentBlock::ToolUse { id: block.id, name: block.name, input: block.input }
    }
}

impl From<ToolResultBlock> for ContentBlock {
    fn from(block: ToolResultBlock) -> (r: ContentBlock) {
        ContentBlock::ToolResult {
            tool_use_id: block.tool_use_id,
            content: block.content,
            is_error: block.is_error,
        }
    }
}

impl vstd::std_specs::convert::FromSpecImpl<ToolResultBlock> for ContentBlock {
    open spec fn obeys_from_spec() -> bool {
        true
    }

    open spec fn from_spec(block: ToolResultBlock) -> ContentBlock {
        ContentBlock::ToolResult {
            tool_use_id: block.tool_use_id,
            content: block.content,
            is_error: block.is_error,
        }
    }
}

} // verus!
