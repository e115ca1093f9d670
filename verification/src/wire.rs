//! The wire format: exact JSON text for every line this side writes to the
//! child. Each builder's contract gives the produced text character for
//! character, so callers can reason about what actually crosses the pipe.

use vstd::prelude::*;

use crate::strutil::json_quoted;
use crate::strutil::push_char;
use crate::strutil::push_json_quoted;
use crate::strutil::push_string_array;
use crate::strutil::string_array_json;
use crate::types::ControlResponseVariant;
use crate::types::PermissionResult;
use crate::types::PermissionResultAllow;
use crate::types::PermissionResultDeny;
use crate::types::PermissionUpdate;
use crate::types::SDKControlRequest;
use crate::types::SDKControlRequestVariant;
use crate::types::SDKControlResponse;
use crate::types::permission_update_json;

verus! {

/// An optional entry: the given prefix (a comma, the quoted key and a colon)
/// followed by the quoted value, or nothing.
pub open spec fn opt_quoted_entry(prefix: Seq<char>, v: Option<String>) -> Seq<char> {
    match v {
        Some(s) => prefix + json_quoted(s@),
        None => Seq::empty(),
    }
}

/// The body object of a control request, keyed by its subtype.
pub open spec fn request_body_json(v: SDKControlRequestVariant) -> Seq<char> {
    match v {
        SDKControlRequestVariant::Interrupt => "{\"subtype\":\"interrupt\"}"@,
        SDKControlRequestVariant::CanUseTool {
            tool_name,
            input,
            permission_suggestions,
            blocked_path,
        } => "{\"subtype\":\"can_use_tool\",\"tool_name\":"@ + json_quoted(tool_name@)
            + ",\"input\":"@ + input@ + (match permission_suggestions {
            Some(s) => ",\"permission_suggestions\":"@ + string_array_json(s.deep_view()),
            None => Seq::empty(),
        }) + opt_quoted_entry(",\"blocked_path\":"@, blocked_path) + seq!['}'],
        SDKControlRequestVariant::Initialize { hooks } => "{\"subtype\":\"initialize\""@ + (
        match hooks {
            Some(h) => ",\"hooks\":"@ + h@,
            None => Seq::empty(),
        }) + seq!['}'],
        SDKControlRequestVariant::SetPermissionMode { mode } => {
            "{\"subtype\":\"set_permission_mode\",\"mode\":"@ + json_quoted(mode@) + seq!['}']
        },
        SDKControlRequestVariant::SetModel { model } => "{\"subtype\":\"set_model\""@
            + opt_quoted_entry(",\"model\":"@, model) + seq!['}'],
        SDKControlRequestVariant::HookCallback { callback_id, input, tool_use_id } => {
            "{\"subtype\":\"hook_callback\",\"callback_id\":"@ + json_quoted(callback_id@)
                + ",\"input\":"@ + input@ + opt_quoted_entry(",\"tool_use_id\":"@, tool_use_id)
                + seq!['}']
        },
        SDKControlRequestVariant::McpMessage { server_name, message } => {
            "{\"subtype\":\"mcp_message\",\"server_name\":"@ + json_quoted(server_name@)
                + ",\"message\":"@ + message@ + seq!['}']
        },
        SDKControlRequestVariant::RewindFiles { user_message_id } => {
            "{\"subtype\":\"rewind_files\",\"user_message_id\":"@ + json_quoted(user_message_id@)
                + seq!['}']
        },
        SDKControlRequestVariant::McpStatus => "{\"subtype\":\"mcp_status\"}"@,
    }
}

/// The full control request envelope.
pub open spec fn control_request_json(r: SDKControlRequest) -> Seq<char> {
    "{\"type\":\"control_request\",\"request_id\":"@ + json_quoted(r.request_id@)
        + ",\"request\":"@ + request_body_json(r.request) + seq!['}']
}

/// The full control response envelope.
pub open spec fn control_response_json(r: SDKControlResponse) -> Seq<char> {
    "{\"type\":\"control_response\",\"response\":"@ + response_body_json(r.response) + seq!['}']
}

/// The body object of a control response.
pub open spec fn response_body_json(v: ControlResponseVariant) -> Seq<char> {
    match v {
        ControlResponseVariant::Success { request_id, response } => {
            "{\"subtype\":\"success\",\"request_id\":"@ + json_quoted(request_id@) + (
            match response {
                Some(p) => ",\"response\":"@ + p@,
                None => Seq::empty(),
            }) + seq!['}']
        },
        ControlResponseVariant::Error { request_id, error } => {
            "{\"subtype\":\"error\",\"request_id\":"@ + json_quoted(request_id@) + ",\"error\":"@
                + json_quoted(error@) + seq!['}']
        },
    }
}

/// The body of a JSON array of permission update dictionaries.
pub open spec fn updates_array_body(items: Seq<PermissionUpdate>) -> Seq<char>
    decreases items.len(),
{
    if items.len() == 0 {
        Seq::empty()
    } else if items.len() == 1 {
        permission_update_json(items[0])
    } else {
        updates_array_body(items.drop_last()) + seq![','] + permission_update_json(items.last())
    }
}

/// A JSON array of permission update dictionaries.
pub open spec fn updates_array_json(items: Seq<PermissionUpdate>) -> Seq<char> {
    seq!['['] + updates_array_body(items) + seq![']']
}

/// The payload answering a permission request when the callback allows: the
/// updated input when the callback rewrote it, the original input otherwise,
/// and the permission updates when the callback proposed any.
pub open spec fn allow_payload_json(a: PermissionResultAllow, original_input: Seq<char>) -> Seq<
    char,
> {
    "{\"behavior\":\"allow\",\"updatedInput\":"@ + (match a.updated_input {
        Some(u) => u@,
        None => original_input,
    }) + (match a.updated_permissions {
        Some(ps) => ",\"updatedPermissions\":"@ + updates_array_json(ps@),
        None => Seq::empty(),
    }) + seq!['}']
}

/// The payload answering a permission request when the callback denies: the
/// message, and the interrupt flag exactly when it was requested.
pub open spec fn deny_payload_json(d: PermissionResultDeny) -> Seq<char> {
    "{\"behavior\":\"deny\",\"message\":"@ + json_quoted(d.message@) + (if d.interrupt {
        ",\"interrupt\":true"@
    } else {
        Seq::<char>::empty()
    }) + seq!['}']
}

/// The payload answering a permission request, for either outcome.
pub open spec fn permission_payload_json(r: PermissionResult, original_input: Seq<char>) -> Seq<
    char,
> {
    match r {
        PermissionResult::Allow(a) => allow_payload_json(a, original_input),
        PermissionResult::Deny(d) => deny_payload_json(d),
    }
}

/// The JSON-RPC error payload for an MCP message that cannot be routed
/// locally: a "method not found" error naming the missing server, echoing the
/// message id when it has one.
pub open spec fn mcp_unroutable_json(server_name: Seq<char>, id_raw: Option<Seq<char>>) -> Seq<char> {
    "{\"jsonrpc\":\"2.0\",\"id\":"@ + (match id_raw {
        Some(i) => i,
        None => "null"@,
    }) + ",\"error\":{\"code\":-32601,\"message\":"@ + json_quoted(
        "Server '"@ + server_name + "' not found"@,
    ) + "}}"@
}

/// The user message envelope written in streaming-input mode, keys in the
/// order the child sees from this side.
pub open spec fn user_message_line_json(text: Seq<char>) -> Seq<char> {
    "{\"message\":{\"content\":"@ + json_quoted(text) + ",\"role\":\"user\"},\"parent_tool_use_id\":null,\"session_id\":\"default\",\"type\":\"user\"}"@
}

impl SDKControlRequest {
    /// Render this request as its wire line (without the trailing newline).
    pub fn to_json(&self) -> (r: String)
        ensures
            r@ == control_request_json(*self),
    {
        let mut s = String::from_str("{\"type\":\"control_request\",\"request_id\":");
        push_json_quoted(&mut s, self.request_id.as_str());
        s.append(",\"request\":");
        push_request_body(&mut s, &self.request);
        push_char(&mut s, '}');
        assert(s@ =~= control_request_json(*self));
        s
    }
}

/// Append the body object of a control request.
#[verifier::rlimit(50)]
fn push_request_body(s: &mut String, v: &SDKControlRequestVariant)
    ensures
        final(s)@ == old(s)@ + request_body_json(*v),
{
    match v {
        SDKControlRequestVariant::Interrupt => {
            s.append("{\"subtype\":\"interrupt\"}");
            assert(final(s)@ =~= old(s)@ + request_body_json(*v));
        },
        SDKControlRequestVariant::CanUseTool {
            tool_name,
            input,
            permission_suggestions,
            blocked_path,
        } => {
            s.append("{\"subtype\":\"can_use_tool\",\"tool_name\":");
            push_json_quoted(s, tool_name.as_str());
            s.append(",\"input\":");
            s.append(input.as_str());
            if let Some(sugg) = permission_suggestions {
                s.append(",\"permission_suggestions\":");
                push_string_array(s, sugg);
            }
            if let Some(bp) = blocked_path {
                s.append(",\"blocked_path\":");
                push_json_quoted(s, bp.as_str());
            }
            push_char(s, '}');
            assert(final(s)@ =~= old(s)@ + request_body_json(*v));
        },
        SDKControlRequestVariant::Initialize { hooks } => {
            s.append("{\"subtype\":\"initialize\"");
            if let Some(h) = hooks {
                s.append(",\"hooks\":");
                s.append(h.as_str());
            }
            push_char(s, '}');
            assert(final(s)@ =~= old(s)@ + request_body_json(*v));
        },
        SDKControlRequestVariant::SetPermissionMode { mode } => {
            s.append("{\"subtype\":\"set_permission_mode\",\"mode\":");
            push_json_quoted(s, mode.as_str());
            push_char(s, '}');
            assert(final(s)@ =~= old(s)@ + request_body_json(*v));
        },
        SDKControlRequestVariant::SetModel { model } => {
            s.append("{\"subtype\":\"set_model\"");
            if let Some(m) = model {
                s.append(",\"model\":");
                push_json_quoted(s, m.as_str());
            }
            push_char(s, '}');
            assert(final(s)@ =~= old(s)@ + request_body_json(*v));
        },
        SDKControlRequestVariant::HookCallback { callback_id, input, tool_use_id } => {
            s.append("{\"subtype\":\"hook_callback\",\"callback_id\":");
            push_json_quoted(s, callback_id.as_str());
            s.append(",\"input\":");
            s.append(input.as_str());
            if let Some(t) = tool_use_id {
                s.append(",\"tool_use_id\":");
                push_json_quoted(s, t.as_str());
            }
            push_char(s, '}');
            assert(final(s)@ =~= old(s)@ + request_body_json(*v));
        },
        SDKControlRequestVariant::McpMessage { server_name, message } => {
            s.append("{\"subtype\":\"mcp_message\",\"server_name\":");
            push_json_quoted(s, server_name.as_str());
            s.append(",\"message\":");
            s.append(message.as_str());
            push_char(s, '}');
            assert(final(s)@ =~= old(s)@ + request_body_json(*v));
        },
        SDKControlRequestVariant::RewindFiles { user_message_id } => {
            s.append("{\"subtype\":\"rewind_files\",\"user_message_id\":");
            push_json_quoted(s, user_message_id.as_str());
            push_char(s, '}');
            assert(final(s)@ =~= old(s)@ + request_body_json(*v));
        },
        SDKControlRequestVariant::McpStatus => {
            s.append("{\"subtype\":\"mcp_status\"}");
            assert(final(s)@ =~= old(s)@ + request_body_json(*v));
        },
    }
}

impl SDKControlResponse {
    /// Render this response as its wire line (without the trailing newline).
    pub fn to_json(&self) -> (r: String)
        ensures
            r@ == control_response_json(*self),
    {
        let mut s = String::from_str("{\"type\":\"control_response\",\"response\":");
        match &self.response {
            ControlResponseVariant::Success { request_id, response } => {
                s.append("{\"subtype\":\"success\",\"request_id\":");
                push_json_quoted(&mut s, request_id.as_str());
                if let Some(p) = response {
                    s.append(",\"response\":");
                    s.append(p.as_str());
                }
                push_char(&mut s, '}');
            },
            ControlResponseVariant::Error { request_id, error } => {
                s.append("{\"subtype\":\"error\",\"request_id\":");
                push_json_quoted(&mut s, request_id.as_str());
                s.append(",\"error\":");
                push_json_quoted(&mut s, error.as_str());
                push_char(&mut s, '}');
            },
        }
        push_char(&mut s, '}');
        assert(s@ =~= control_response_json(*self));
        s
    }
}

/// Append a JSON array of permission update dictionaries.
fn push_updates_array(s: &mut String, items: &Vec<PermissionUpdate>)
    ensures
        final(s)@ == old(s)@ + updates_array_json(items@),
{
    push_char(s, '[');
    let n = items.len();
    let mut i: usize = 0;
    while i < n
        invariant
            n == items.len(),
            i <= n,
            s@ == old(s)@ + seq!['['] + updates_array_body(items@.subrange(0, i as int)),
        decreases n - i,
    {
        if i > 0 {
            push_char(s, ',');
        }
        let d = items[i].to_dict();
        s.append(d.as_str());
        proof {
            let all = items@;
            assert(all.subrange(0, i as int + 1).drop_last() =~= all.subrange(0, i as int));
            assert(all.subrange(0, i as int + 1).last() == all[i as int]);
            assert(s@ =~= old(s)@ + seq!['['] + updates_array_body(all.subrange(0, i as int + 1)));
        }
        i = i + 1;
    }
    push_char(s, ']');
    proof {
        assert(items@.subrange(0, n as int) =~= items@);
        assert(final(s)@ =~= old(s)@ + updates_array_json(items@));
    }
}

/// Build the payload answering a permission request. For an allow outcome the
/// tool input the child will use is the callback's updated input when given,
/// the original input otherwise.
pub fn permission_result_payload(result: &PermissionResult, original_input: &str) -> (r: String)
    ensures
        r@ == permission_payload_json(*result, original_input@),
{
    match result {
        PermissionResult::Allow(a) => {
            let mut s = String::from_str("{\"behavior\":\"allow\",\"updatedInput\":");
            match &a.updated_input {
                Some(u) => s.append(u.as_str()),
                None => s.append(original_input),
            }
            if let Some(ps) = &a.updated_permissions {
                s.append(",\"updatedPermissions\":");
                push_updates_array(&mut s, ps);
            }
            push_char(&mut s, '}');
            assert(s@ =~= permission_payload_json(*result, original_input@));
            s
        },
        PermissionResult::Deny(d) => {
            let mut s = String::from_str("{\"behavior\":\"deny\",\"message\":");
            push_json_quoted(&mut s, d.message.as_str());
            if d.interrupt {
                s.append(",\"interrupt\":true");
            }
            push_char(&mut s, '}');
            assert(s@ =~= permission_payload_json(*result, original_input@));
            s
        },
    }
}

/// Build the JSON-RPC "method not found" payload for an MCP message bound for
/// a server this side does not host.
pub fn mcp_unroutable_payload(server_name: &str, id_raw: Option<String>) -> (r: String)
    ensures
        r@ == mcp_unroutable_json(server_name@, id_raw.deep_view()),
{
    let mut s = String::from_str("{\"jsonrpc\":\"2.0\",\"id\":");
    match &id_raw {
        Some(i) => s.append(i.as_str()),
        None => s.append("null"),
    }
    s.append(",\"error\":{\"code\":-32601,\"message\":");
    let mut msg = String::from_str("Server '");
    msg.append(server_name);
    msg.append("' not found");
    push_json_quoted(&mut s, msg.as_str());
    s.append("}}");
    assert(s@ =~= mcp_unroutable_json(server_name@, id_raw.deep_view()));
    s
}

/// Build the user message envelope sent in streaming-input mode.
pub fn user_message_line(text: &str) -> (r: String)
    ensures
        r@ == user_message_line_json(text@),
{
    let mut s = String::from_str("{\"message\":{\"content\":");
    push_json_quoted(&mut s, text);
    s.append(",\"role\":\"user\"},\"parent_tool_use_id\":null,\"session_id\":\"default\",\"type\":\"user\"}");
    assert(s@ =~= user_message_line_json(text@));
    s
}


/// The full wire line (newline included) of a success control response.
pub open spec fn success_line(rid: Seq<char>, payload: Option<Seq<char>>) -> Seq<char> {
    "{\"type\":\"control_response\",\"response\":{\"subtype\":\"success\",\"request_id\":"@
        + json_quoted(rid) + (match payload {
        Some(p) => ",\"response\":"@ + p,
        None => Seq::empty(),
    }) + "}}\n"@
}

/// The full wire line (newline included) of an error control response.
pub open spec fn error_line(rid: Seq<char>, msg: Seq<char>) -> Seq<char> {
    "{\"type\":\"control_response\",\"response\":{\"subtype\":\"error\",\"request_id\":"@
        + json_quoted(rid) + ",\"error\":"@ + json_quoted(msg) + "}}\n"@
}

/// Build the wire line of a success control response.
pub fn success_response_line(rid: &str, payload: Option<&str>) -> (r: String)
    ensures
        r@ == success_line(
            rid@,
            match payload {
                Some(p) => Some(p@),
                None => None,
            },
        ),
{
    let mut s = String::from_str(
        "{\"type\":\"control_response\",\"response\":{\"subtype\":\"success\",\"request_id\":",
    );
    push_json_quoted(&mut s, rid);
    if let Some(p) = payload {
        s.append(",\"response\":");
        s.append(p);
    }
    s.append("}}\n");
    assert(s@ =~= success_line(
        rid@,
        match payload {
            Some(p) => Some(p@),
            None => None,
        },
    ));
    s
}

/// Build the wire line of an error control response.
pub fn error_response_line(rid: &str, msg: &str) -> (r: String)
    ensures
        r@ == error_line(rid@, msg@),
{
    let mut s = String::from_str(
        "{\"type\":\"control_response\",\"response\":{\"subtype\":\"error\",\"request_id\":",
    );
    push_json_quoted(&mut s, rid);
    s.append(",\"error\":");
    push_json_quoted(&mut s, msg);
    s.append("}}\n");
    assert(s@ =~= error_line(rid@, msg@));
    s
}

} // verus!
