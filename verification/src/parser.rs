//! Decoding one framed JSON document into a typed message. The rules mirror
//! the wire format: a discriminator field picks the message kind, required
//! fields make the parse fail with a message-parse error, optional fields
//! default. Content blocks that do not parse are skipped, not errors.

use vstd::prelude::*;

use crate::error::ClaudeSDKError;
use crate::json::get_array_items;
use crate::json::get_bool_field;
use crate::json::get_i64_field;
use crate::json::get_kind;
use crate::json::get_number_field;
use crate::json::get_raw_field;
use crate::json::get_string_field;
use crate::json::get_string_value;
use crate::json::json_array_items;
use crate::json::json_bool_field;
use crate::json::json_i64_field;
use crate::json::json_kind;
use crate::json::json_number_field;
use crate::json::json_raw_field;
use crate::json::json_string_field;
use crate::json::json_string_value;
use crate::strutil::str_eq;
use crate::types::AssistantMessage;
use crate::types::AssistantMessageError;
use crate::types::ContentBlock;
use crate::types::Message;
use crate::types::ResultMessage;
use crate::types::StreamEvent;
use crate::types::SystemMessage;
use crate::types::UserMessage;
use crate::types::UserMessageContent;

verus! {

/// The JSON kind of a document, with "invalid" for text that does not parse.
pub open spec fn kind_text(s: Seq<char>) -> Seq<char> {
    match json_kind(s) {
        Some(k) => k,
        None => "invalid"@,
    }
}

/// Whether one content block item fails to parse and is skipped: it is not
/// an object with a string `type` field naming a known block kind.
pub open spec fn block_parse_fails(b: Seq<char>) -> bool {
    match json_string_field(b, "type"@) {
        None => true,
        Some(t) => !(t == "text"@ || t == "thinking"@ || t == "tool_use"@ || t == "tool_result"@),
    }
}

/// Whether one content block item parses to exactly this block.
pub open spec fn block_parses_to(b: Seq<char>, cb: ContentBlock) -> bool {
    match json_string_field(b, "type"@) {
        None => false,
        Some(t) => {
            if t == "text"@ {
                cb matches ContentBlock::Text { text } && text@ == or_empty(
                    json_string_field(b, "text"@),
                )
            } else if t == "thinking"@ {
                cb matches ContentBlock::Thinking { thinking, signature } && thinking@ == or_empty(
                    json_string_field(b, "thinking"@),
                ) && signature@ == or_empty(json_string_field(b, "signature"@))
            } else if t == "tool_use"@ {
                cb matches ContentBlock::ToolUse { id, name, input } && id@ == or_empty(
                    json_string_field(b, "id"@),
                ) && name@ == or_empty(json_string_field(b, "name"@)) && input@ == or_null(
                    json_raw_field(b, "input"@),
                )
            } else if t == "tool_result"@ {
                cb matches ContentBlock::ToolResult { tool_use_id, content, is_error } && tool_use_id@
                    == or_empty(json_string_field(b, "tool_use_id"@)) && content.deep_view()
                    == json_raw_field(b, "content"@) && is_error == json_bool_field(b, "is_error"@)
            } else {
                false
            }
        },
    }
}

/// A field's text, or empty when absent.
pub open spec fn or_empty(v: Option<Seq<char>>) -> Seq<char> {
    match v {
        Some(t) => t,
        None => Seq::empty(),
    }
}

/// A field's raw JSON, or the null document when absent.
pub open spec fn or_null(v: Option<Seq<char>>) -> Seq<char> {
    match v {
        Some(t) => t,
        None => "null"@,
    }
}

/// Whether the items parse, in order and skipping failures, to exactly these
/// content blocks.
pub open spec fn blocks_parse_to(items: Seq<Seq<char>>, cbs: Seq<ContentBlock>) -> bool
    decreases items.len(),
{
    if items.len() == 0 {
        cbs.len() == 0
    } else if block_parse_fails(items.last()) {
        blocks_parse_to(items.drop_last(), cbs)
    } else {
        cbs.len() > 0 && block_parses_to(items.last(), cbs.last()) && blocks_parse_to(
            items.drop_last(),
            cbs.drop_last(),
        )
    }
}

/// Which assistant error variant an error string names.
pub open spec fn spec_assistant_error(e: Seq<char>) -> AssistantMessageError {
    if e == "authentication_failed"@ {
        AssistantMessageError::AuthenticationFailed
    } else if e == "billing_error"@ {
        AssistantMessageError::BillingError
    } else if e == "rate_limit"@ {
        AssistantMessageError::RateLimit
    } else if e == "invalid_request"@ {
        AssistantMessageError::InvalidRequest
    } else if e == "server_error"@ {
        AssistantMessageError::ServerError
    } else {
        AssistantMessageError::Unknown
    }
}

/// Classify an assistant error string into its variant; anything unknown is
/// still reported, as the Unknown variant.
pub fn parse_assistant_error(error: &str) -> (r: Option<AssistantMessageError>)
    ensures
        r == Some(spec_assistant_error(error@)),
{
    if str_eq(error, "authentication_failed") {
        Some(AssistantMessageError::AuthenticationFailed)
    } else if str_eq(error, "billing_error") {
        Some(AssistantMessageError::BillingError)
    } else if str_eq(error, "rate_limit") {
        Some(AssistantMessageError::RateLimit)
    } else if str_eq(error, "invalid_request") {
        Some(AssistantMessageError::InvalidRequest)
    } else if str_eq(error, "server_error") {
        Some(AssistantMessageError::ServerError)
    } else {
        Some(AssistantMessageError::Unknown)
    }
}

/// Whether the document fails to parse as a message, for each failure shape.
pub open spec fn message_parse_fails(s: Seq<char>) -> bool {
    if kind_text(s) != "object"@ {
        true
    } else {
        match json_string_field(s, "type"@) {
            None => true,
            Some(t) => {
                if t == "user"@ {
                    match json_raw_field(s, "message"@) {
                        None => true,
                        Some(msg) => json_raw_field(msg, "content"@) is None,
                    }
                } else if t == "assistant"@ {
                    match json_raw_field(s, "message"@) {
                        None => true,
                        Some(msg) => json_raw_field(msg, "content"@) is None,
                    }
                } else if t == "system"@ {
                    json_string_field(s, "subtype"@) is None
                } else if t == "result"@ {
                    json_i64_field(s, "duration_ms"@) is None || json_string_field(
                        s,
                        "session_id"@,
                    ) is None
                } else if t == "stream_event"@ {
                    json_string_field(s, "uuid"@) is None || json_string_field(
                        s,
                        "session_id"@,
                    ) is None
                } else {
                    true
                }
            },
        }
    }
}

/// Whether the user-message content field parses to this content value: a
/// JSON string becomes text, a JSON array becomes the blocks that parse, and
/// anything else stands as its raw text.
pub open spec fn content_parses_to(c: Seq<char>, content: UserMessageContent) -> bool {
    match json_string_value(c) {
        Some(text) => content matches UserMessageContent::Text(t) && t@ == text,
        None => match json_array_items(c) {
            Some(items) => content matches UserMessageContent::Blocks(cbs) && blocks_parse_to(
                items,
                cbs@,
            ),
            None => content matches UserMessageContent::Text(t) && t@ == c,
        },
    }
}

/// Whether the document parses to exactly this message.
pub open spec fn message_parses_to(s: Seq<char>, m: Message) -> bool {
    if kind_text(s) != "object"@ {
        false
    } else {
        match json_string_field(s, "type"@) {
            None => false,
            Some(t) => {
                if t == "user"@ {
                    m matches Message::User(u) && user_parses_to(s, u)
                } else if t == "assistant"@ {
                    m matches Message::Assistant(a) && assistant_parses_to(s, a)
                } else if t == "system"@ {
                    m matches Message::System(sys) && json_string_field(s, "subtype"@) == Some(
                        sys.subtype@,
                    ) && sys.data@ == s
                } else if t == "result"@ {
                    m matches Message::Result(res) && result_parses_to(s, res)
                } else if t == "stream_event"@ {
                    m matches Message::StreamEvent(ev) && stream_event_parses_to(s, ev)
                } else {
                    false
                }
            },
        }
    }
}

/// The fields of a user message, given the whole document.
pub open spec fn user_parses_to(s: Seq<char>, u: UserMessage) -> bool {
    match json_raw_field(s, "message"@) {
        None => false,
        Some(msg) => match json_raw_field(msg, "content"@) {
            None => false,
            Some(c) => {
                &&& content_parses_to(c, u.content)
                &&& u.uuid.deep_view() == json_string_field(s, "uuid"@)
                &&& u.parent_tool_use_id.deep_view() == json_string_field(
                    s,
                    "parent_tool_use_id"@,
                )
                &&& u.tool_use_result.deep_view() == json_raw_field(s, "tool_use_result"@)
            },
        },
    }
}

/// The fields of an assistant message, given the whole document.
pub open spec fn assistant_parses_to(s: Seq<char>, a: AssistantMessage) -> bool {
    match json_raw_field(s, "message"@) {
        None => false,
        Some(msg) => match json_raw_field(msg, "content"@) {
            None => false,
            Some(c) => {
                &&& match json_array_items(c) {
                    Some(items) => blocks_parse_to(items, a.content@),
                    None => a.content@.len() == 0,
                }
                &&& a.model@ == (match json_string_field(msg, "model"@) {
                    Some(mo) => mo,
                    None => "unknown"@,
                })
                &&& a.parent_tool_use_id.deep_view() == json_string_field(
                    s,
                    "parent_tool_use_id"@,
                )
                &&& match json_string_field(msg, "error"@) {
                    Some(e) => a.error == Some(spec_assistant_error(e)),
                    None => a.error is None,
                }
            },
        },
    }
}

/// The fields of a result message, given the whole document.
pub open spec fn result_parses_to(s: Seq<char>, r: ResultMessage) -> bool {
    &&& r.subtype@ == (match json_string_field(s, "subtype"@) {
        Some(st) => st,
        None => "unknown"@,
    })
    &&& Some(r.duration_ms) == json_i64_field(s, "duration_ms"@)
    &&& r.duration_api_ms == (match json_i64_field(s, "duration_api_ms"@) {
        Some(d) => d,
        None => 0,
    })
    &&& r.is_error == (match json_bool_field(s, "is_error"@) {
        Some(b) => b,
        None => false,
    })
    &&& {
        let turns = match json_i64_field(s, "num_turns"@) {
            Some(n) => n,
            None => 0,
        };
        i32::MIN <= turns <= i32::MAX ==> r.num_turns == turns
    }
    &&& Some(r.session_id@) == json_string_field(s, "session_id"@)
    &&& r.total_cost_usd.deep_view() == json_number_field(s, "total_cost_usd"@)
    &&& r.usage.deep_view() == json_raw_field(s, "usage"@)
    &&& r.result.deep_view() == json_string_field(s, "result"@)
    &&& r.structured_output.deep_view() == json_raw_field(s, "structured_output"@)
}

/// The fields of a stream event, given the whole document.
pub open spec fn stream_event_parses_to(s: Seq<char>, ev: StreamEvent) -> bool {
    &&& Some(ev.uuid@) == json_string_field(s, "uuid"@)
    &&& Some(ev.session_id@) == json_string_field(s, "session_id"@)
    &&& ev.event@ == or_null(json_raw_field(s, "event"@))
    &&& ev.parent_tool_use_id.deep_view() == json_string_field(s, "parent_tool_use_id"@)
}

/// The five message type names are pairwise distinct.
proof fn lemma_type_literals_distinct()
    ensures
        "user"@ != "assistant"@,
        "user"@ != "system"@,
        "user"@ != "result"@,
        "user"@ != "stream_event"@,
        "assistant"@ != "system"@,
        "assistant"@ != "result"@,
        "assistant"@ != "stream_event"@,
        "system"@ != "result"@,
        "system"@ != "stream_event"@,
        "result"@ != "stream_event"@,
{
    broadcast use vstd::string::group_string_axioms;

    reveal_strlit("user");
    reveal_strlit("assistant");
    reveal_strlit("system");
    reveal_strlit("result");
    reveal_strlit("stream_event");
    assert("user"@.len() == 4);
    assert("assistant"@.len() == 9);
    assert("system"@.len() == 6);
    assert("result"@.len() == 6);
    assert("stream_event"@.len() == 12);
    assert("system"@[0] == 's');
    assert("result"@[0] == 'r');
}

/// Parse one content block item.
fn parse_content_block(b: &str) -> (r: Option<ContentBlock>)
    ensures
        match r {
            Some(cb) => block_parses_to(b@, cb) && !block_parse_fails(b@),
            None => block_parse_fails(b@),
        },
{
    let t = match get_string_field(b, "type") {
        Some(t) => t,
        None => {
            return None;
        },
    };
    if str_eq(t.as_str(), "text") {
        let text = get_string_field(b, "text").unwrap_or(String::new());
        Some(ContentBlock::Text { text })
    } else if str_eq(t.as_str(), "thinking") {
        let thinking = get_string_field(b, "thinking").unwrap_or(String::new());
        let signature = get_string_field(b, "signature").unwrap_or(String::new());
        Some(ContentBlock::Thinking { thinking, signature })
    } else if str_eq(t.as_str(), "tool_use") {
        let id = get_string_field(b, "id").unwrap_or(String::new());
        let name = get_string_field(b, "name").unwrap_or(String::new());
        let input = get_raw_field(b, "input").unwrap_or(String::from_str("null"));
        Some(ContentBlock::ToolUse { id, name, input })
    } else if str_eq(t.as_str(), "tool_result") {
        let tool_use_id = get_string_field(b, "tool_use_id").unwrap_or(String::new());
        let content = get_raw_field(b, "content");
        let is_error = get_bool_field(b, "is_error");
        Some(ContentBlock::ToolResult { tool_use_id, content, is_error })
    } else {
        None
    }
}

/// Parse each item as a content block, keeping those that parse.
fn parse_blocks(items: &Vec<String>) -> (r: Vec<ContentBlock>)
    ensures
        blocks_parse_to(items.deep_view(), r@),
{
    let mut out: Vec<ContentBlock> = Vec::new();
    let n = items.len();
    let mut i: usize = 0;
    while i < n
        invariant
            n == items.len(),
            i <= n,
            blocks_parse_to(items.deep_view().subrange(0, i as int), out@),
        decreases n - i,
    {
        let ghost prev_out = out@;
        let parsed = parse_content_block(items[i].as_str());
        match parsed {
            Some(cb) => out.push(cb),
            None => (),
        }
        proof {
            let all = items.deep_view();
            assert(all.subrange(0, i as int + 1).drop_last() =~= all.subrange(0, i as int));
            assert(all.subrange(0, i as int + 1).last() == all[i as int]);
            if parsed is Some {
                assert(out@.drop_last() =~= prev_out);
            }
            assert(blocks_parse_to(all.subrange(0, i as int + 1), out@));
        }
        i = i + 1;
    }
    proof {
        assert(items.deep_view().subrange(0, n as int) =~= items.deep_view());
    }
    out
}

/// Build the message-parse error for a failing document, mirroring which
/// field was missing.
fn missing_field_error(message: &str) -> (r: ClaudeSDKError)
    ensures
        r matches ClaudeSDKError::MessageParse { message: m, data } && m@ == message@ && data
            is None,
{
    ClaudeSDKError::MessageParse { message: message.to_owned(), data: None }
}

/// Parse one framed JSON document into a typed message.
///
/// A document whose shape is not a message yields a message-parse error that
/// names what was wrong; the error carries the raw text when the failure is
/// about the document as a whole.
pub fn parse_message(data: &str) -> (r: Result<Message, ClaudeSDKError>)
    ensures
        match r {
            Ok(m) => message_parses_to(data@, m) && !message_parse_fails(data@),
            Err(e) => message_parse_fails(data@) && e matches ClaudeSDKError::MessageParse { .. },
        },
{
    let kind = match get_kind(data) {
        Some(k) => k,
        None => "invalid",
    };
    if !str_eq(kind, "object") {
        let mut m = String::from_str("Invalid message data type (expected object, got ");
        m.append(kind);
        m.append(")");
        return Err(
            ClaudeSDKError::MessageParse { message: m, data: Some(data.to_owned()) },
        );
    }
    let t = match get_string_field(data, "type") {
        Some(t) => t,
        None => {
            return Err(
                ClaudeSDKError::MessageParse {
                    message: String::from_str("Message missing 'type' field"),
                    data: Some(data.to_owned()),
                },
            );
        },
    };
    if str_eq(t.as_str(), "user") {
        parse_user_message(data)
    } else if str_eq(t.as_str(), "assistant") {
        parse_assistant_message(data)
    } else if str_eq(t.as_str(), "system") {
        parse_system_message(data)
    } else if str_eq(t.as_str(), "result") {
        parse_result_message(data)
    } else if str_eq(t.as_str(), "stream_event") {
        parse_stream_event(data)
    } else {
        let mut m = String::from_str("Unknown message type: ");
        m.append(t.as_str());
        Err(ClaudeSDKError::MessageParse { message: m, data: Some(data.to_owned()) })
    }
}

fn parse_user_message(data: &str) -> (r: Result<Message, ClaudeSDKError>)
    requires
        kind_text(data@) == "object"@,
        json_string_field(data@, "type"@) == Some("user"@),
    ensures
        match r {
            Ok(m) => message_parses_to(data@, m) && !message_parse_fails(data@),
            Err(e) => message_parse_fails(data@) && e matches ClaudeSDKError::MessageParse { .. },
        },
{
    proof {
        lemma_type_literals_distinct();
    }
    let msg = match get_raw_field(data, "message") {
        Some(msg) => msg,
        None => {
            return Err(missing_field_error("Missing 'message' field in user message"));
        },
    };
    let c = match get_raw_field(msg.as_str(), "content") {
        Some(c) => c,
        None => {
            return Err(missing_field_error("Missing 'content' field in user message"));
        },
    };
    let content = match get_string_value(c.as_str()) {
        Some(text) => UserMessageContent::Text(text),
        None => match get_array_items(c.as_str()) {
            Some(items) => UserMessageContent::Blocks(parse_blocks(&items)),
            None => UserMessageContent::Text(c),
        },
    };
    let um = UserMessage {
        content,
        uuid: get_string_field(data, "uuid"),
        parent_tool_use_id: get_string_field(data, "parent_tool_use_id"),
        tool_use_result: get_raw_field(data, "tool_use_result"),
    };
    proof {
        assert(user_parses_to(data@, um));
        assert(message_parses_to(data@, Message::User(um)));
        assert(!message_parse_fails(data@));
    }
    Ok(Message::User(um))
}

fn parse_assistant_message(data: &str) -> (r: Result<Message, ClaudeSDKError>)
    requires
        kind_text(data@) == "object"@,
        json_string_field(data@, "type"@) == Some("assistant"@),
    ensures
        match r {
            Ok(m) => message_parses_to(data@, m) && !message_parse_fails(data@),
            Err(e) => message_parse_fails(data@) && e matches ClaudeSDKError::MessageParse { .. },
        },
{
    proof {
        lemma_type_literals_distinct();
    }
    let msg = match get_raw_field(data, "message") {
        Some(msg) => msg,
        None => {
            return Err(missing_field_error("Missing 'message' field in assistant message"));
        },
    };
    let c = match get_raw_field(msg.as_str(), "content") {
        Some(c) => c,
        None => {
            return Err(missing_field_error("Missing 'content' field in assistant message"));
        },
    };
    let content = match get_array_items(c.as_str()) {
        Some(items) => parse_blocks(&items),
        None => Vec::new(),
    };
    proof {
        if json_array_items(c@) is None {
            assert(content@.len() == 0);
        }
    }
    let model = get_string_field(msg.as_str(), "model").unwrap_or(String::from_str("unknown"));
    let error = match get_string_field(msg.as_str(), "error") {
        Some(e) => parse_assistant_error(e.as_str()),
        None => None,
    };
    let am = AssistantMessage {
        content,
        model,
        parent_tool_use_id: get_string_field(data, "parent_tool_use_id"),
        error,
    };
    proof {
        assert(assistant_parses_to(data@, am));
        assert(message_parses_to(data@, Message::Assistant(am)));
        assert(!message_parse_fails(data@));
    }
    Ok(Message::Assistant(am))
}

fn parse_system_message(data: &str) -> (r: Result<Message, ClaudeSDKError>)
    requires
        kind_text(data@) == "object"@,
        json_string_field(data@, "type"@) == Some("system"@),
    ensures
        match r {
            Ok(m) => message_parses_to(data@, m) && !message_parse_fails(data@),
            Err(e) => message_parse_fails(data@) && e matches ClaudeSDKError::MessageParse { .. },
        },
{
    proof {
        lemma_type_literals_distinct();
    }
    let subtype = match get_string_field(data, "subtype") {
        Some(st) => st,
        None => {
            proof {
                assert(message_parse_fails(data@));
            }
            return Err(missing_field_error("Missing 'subtype' field in system message"));
        },
    };
    let sm = SystemMessage { subtype, data: data.to_owned() };
    proof {
        assert(message_parses_to(data@, Message::System(sm)));
        assert(!message_parse_fails(data@));
    }
    Ok(Message::System(sm))
}

fn parse_result_message(data: &str) -> (r: Result<Message, ClaudeSDKError>)
    requires
        kind_text(data@) == "object"@,
        json_string_field(data@, "type"@) == Some("result"@),
    ensures
        match r {
            Ok(m) => message_parses_to(data@, m) && !message_parse_fails(data@),
            Err(e) => message_parse_fails(data@) && e matches ClaudeSDKError::MessageParse { .. },
        },
{
    proof {
        lemma_type_literals_distinct();
    }
    let subtype = get_string_field(data, "subtype").unwrap_or(String::from_str("unknown"));
    let duration_ms = match get_i64_field(data, "duration_ms") {
        Some(d) => d,
        None => {
            return Err(missing_field_error("Missing 'duration_ms' field in result message"));
        },
    };
    let duration_api_ms = get_i64_field(data, "duration_api_ms").unwrap_or(0);
    let is_error = get_bool_field(data, "is_error").unwrap_or(false);
    let turns_i64 = get_i64_field(data, "num_turns").unwrap_or(0);
    let num_turns: i32 = if turns_i64 >= i32::MIN as i64 && turns_i64 <= i32::MAX as i64 {
        turns_i64 as i32
    } else {
        #[verifier::truncate]
        (turns_i64 as i32)
    };
    let session_id = match get_string_field(data, "session_id") {
        Some(sid) => sid,
        None => {
            return Err(missing_field_error("Missing 'session_id' field in result message"));
        },
    };
    let rm = ResultMessage {
        subtype,
        duration_ms,
        duration_api_ms,
        is_error,
        num_turns,
        session_id,
        total_cost_usd: get_number_field(data, "total_cost_usd"),
        usage: get_raw_field(data, "usage"),
        result: get_string_field(data, "result"),
        structured_output: get_raw_field(data, "structured_output"),
    };
    proof {
        assert(result_parses_to(data@, rm));
        assert(message_parses_to(data@, Message::Result(rm)));
        assert(!message_parse_fails(data@));
    }
    Ok(Message::Result(rm))
}

fn parse_stream_event(data: &str) -> (r: Result<Message, ClaudeSDKError>)
    requires
        kind_text(data@) == "object"@,
        json_string_field(data@, "type"@) == Some("stream_event"@),
    ensures
        match r {
            Ok(m) => message_parses_to(data@, m) && !message_parse_fails(data@),
            Err(e) => message_parse_fails(data@) && e matches ClaudeSDKError::MessageParse { .. },
        },
{
    proof {
        lemma_type_literals_distinct();
    }
    let uuid = match get_string_field(data, "uuid") {
        Some(u) => u,
        None => {
            return Err(missing_field_error("Missing 'uuid' field in stream_event"));
        },
    };
    let session_id = match get_string_field(data, "session_id") {
        Some(sid) => sid,
        None => {
            return Err(missing_field_error("Missing 'session_id' field in stream_event"));
        },
    };
    let event = get_raw_field(data, "event").unwrap_or(String::from_str("null"));
    let ev = StreamEvent {
        uuid,
        session_id,
        event,
        parent_tool_use_id: get_string_field(data, "parent_tool_use_id"),
    };
    proof {
        assert(stream_event_parses_to(data@, ev));
        assert(message_parses_to(data@, Message::StreamEvent(ev)));
        assert(!message_parse_fails(data@));
    }
    Ok(Message::StreamEvent(ev))
}

} // verus!

