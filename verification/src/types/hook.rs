//! Hook types: the events the child reports, the structured inputs it hands
//! to caller-supplied hooks, and the structured outputs a hook returns. Tool
//! inputs and responses are opaque JSON documents held as their text.

use vstd::prelude::*;

use crate::strutil::int_str;
use crate::strutil::json_quoted;
use crate::strutil::push_char;
use crate::strutil::push_dec_i64;
use crate::strutil::push_json_quoted;

verus! {

/// Supported hook event types.
#[derive(Debug, Clone, Copy, PartialEq, Eq, Hash, Structural)]
pub enum HookEvent {
    PreToolUse,
    PostToolUse,
    PostToolUseFailure,
    UserPromptSubmit,
    Stop,
    SubagentStop,
    PreCompact,
}

/// The wire rendering of a hook event name.
pub open spec fn hook_event_str(e: HookEvent) -> Seq<char> {
    match e {
        HookEvent::PreToolUse => "PreToolUse"@,
        HookEvent::PostToolUse => "PostToolUse"@,
        HookEvent::PostToolUseFailure => "PostToolUseFailure"@,
        HookEvent::UserPromptSubmit => "UserPromptSubmit"@,
        HookEvent::Stop => "Stop"@,
        HookEvent::SubagentStop => "SubagentStop"@,
        HookEvent::PreCompact => "PreCompact"@,
    }
}

impl HookEvent {
    pub fn as_str(&self) -> (r: &'static str)
        ensures
            r@ == hook_event_str(*self),
    {
        match self {
            HookEvent::PreToolUse => "PreToolUse",
            HookEvent::PostToolUse => "PostToolUse",
            HookEvent::PostToolUseFailure => "PostToolUseFailure",
            HookEvent::UserPromptSubmit => "UserPromptSubmit",
            HookEvent::Stop => "Stop",
            HookEvent::SubagentStop => "SubagentStop",
            HookEvent::PreCompact => "PreCompact",
        }
    }
}

/// Base hook input fields present across many hook events.
#[derive(Debug, Clone, PartialEq)]
pub struct BaseHookInput {
    pub session_id: String,
    pub transcript_path: String,
    pub cwd: String,
    pub permission_mode: Option<String>,
}

/// Input data for PreToolUse hook events; `tool_input` is JSON text.
#[derive(Debug, Clone, PartialEq)]
pub struct PreToolUseHookInput {
    pub base: BaseHookInput,
    pub hook_event_name: String,
    pub tool_name: String,
    pub tool_input: String,
}

/// Input data for PostToolUse hook events.
#[derive(Debug, Clone, PartialEq)]
pub struct PostToolUseHookInput {
    pub base: BaseHookInput,
    pub hook_event_name: String,
    pub tool_name: String,
    pub tool_input: String,
    pub tool_response: String,
}

/// Input data for PostToolUseFailure hook events.
#[derive(Debug, Clone, PartialEq)]
pub struct PostToolUseFailureHookInput {
    pub base: BaseHookInput,
    pub hook_event_name: String,
    pub tool_name: String,
    pub tool_input: String,
    pub tool_use_id: String,
    pub error: String,
    pub is_interrupt: Option<bool>,
}

/// Input data for UserPromptSubmit hook events.
#[derive(Debug, Clone, PartialEq)]
pub struct UserPromptSubmitHookInput {
    pub base: BaseHookInput,
    pub hook_event_name: String,
    pub prompt: String,
}

/// Input data for Stop hook events.
#[derive(Debug, Clone, PartialEq)]
pub struct StopHookInput {
    pub base: BaseHookInput,
    pub hook_event_name: String,
    pub stop_hook_active: bool,
}

/// Input data for SubagentStop hook events.
#[derive(Debug, Clone, PartialEq)]
pub struct SubagentStopHookInput {
    pub base: BaseHookInput,
    pub hook_event_name: String,
    pub stop_hook_active: bool,
}

/// Trigger type for PreCompact events.
#[derive(Debug, Clone, Copy, PartialEq, Eq, Structural)]
pub enum PreCompactTrigger {
    Manual,
    Auto,
}

/// Input data for PreCompact hook events.
#[derive(Debug, Clone, PartialEq)]
pub struct PreCompactHookInput {
    pub base: BaseHookInput,
    pub hook_event_name: String,
    pub trigger: PreCompactTrigger,
    pub custom_instructions: Option<String>,
}

/// Union type for all hook inputs.
#[derive(Debug, Clone, PartialEq)]
pub enum HookInput {
    PreToolUse(PreToolUseHookInput),
    PostToolUse(PostToolUseHookInput),
    PostToolUseFailure(PostToolUseFailureHookInput),
    UserPromptSubmit(UserPromptSubmitHookInput),
    Stop(StopHookInput),
    SubagentStop(SubagentStopHookInput),
    PreCompact(PreCompactHookInput),
}

/// The event-name field carried by a hook input.
pub open spec fn hook_input_event_name(input: HookInput) -> Seq<char> {
    match input {
        HookInput::PreToolUse(i) => i.hook_event_name@,
        HookInput::PostToolUse(i) => i.hook_event_name@,
        HookInput::PostToolUseFailure(i) => i.hook_event_name@,
        HookInput::UserPromptSubmit(i) => i.hook_event_name@,
        HookInput::Stop(i) => i.hook_event_name@,
        HookInput::SubagentStop(i) => i.hook_event_name@,
        HookInput::PreCompact(i) => i.hook_event_name@,
    }
}

/// The base fields carried by a hook input.
pub open spec fn hook_input_base(input: HookInput) -> BaseHookInput {
    match input {
        HookInput::PreToolUse(i) => i.base,
        HookInput::PostToolUse(i) => i.base,
        HookInput::PostToolUseFailure(i) => i.base,
        HookInput::UserPromptSubmit(i) => i.base,
        HookInput::Stop(i) => i.base,
        HookInput::SubagentStop(i) => i.base,
        HookInput::PreCompact(i) => i.base,
    }
}

impl HookInput {
    /// Get the hook event name.
    pub fn hook_event_name(&self) -> (r: &str)
        ensures
            r@ == hook_input_event_name(*self),
    {
        match self {
            HookInput::PreToolUse(i) => i.hook_event_name.as_str(),
            HookInput::PostToolUse(i) => i.hook_event_name.as_str(),
            HookInput::PostToolUseFailure(i) => i.hook_event_name.as_str(),
            HookInput::UserPromptSubmit(i) => i.hook_event_name.as_str(),
            HookInput::Stop(i) => i.hook_event_name.as_str(),
            HookInput::SubagentStop(i) => i.hook_event_name.as_str(),
            HookInput::PreCompact(i) => i.hook_event_name.as_str(),
        }
    }

    /// Get the base input.
    pub fn base(&self) -> (r: &BaseHookInput)
        ensures
            *r == hook_input_base(*self),
    {
        match self {
            HookInput::PreToolUse(i) => &i.base,
            HookInput::PostToolUse(i) => &i.base,
            HookInput::PostToolUseFailure(i) => &i.base,
            HookInput::UserPromptSubmit(i) => &i.base,
            HookInput::Stop(i) => &i.base,
            HookInput::SubagentStop(i) => &i.base,
            HookInput::PreCompact(i) => &i.base,
        }
    }
}

/// Permission decision for PreToolUse hooks.
#[derive(Debug, Clone, Copy, PartialEq, Eq, Structural)]
pub enum HookPermissionDecision {
    Allow,
    Deny,
    Ask,
}

/// Hook-specific output for PreToolUse events; `updated_input` is JSON text.
#[derive(Debug, Clone, PartialEq)]
pub struct PreToolUseHookSpecificOutput {
    pub hook_event_name: String,
    pub permission_decision: Option<HookPermissionDecision>,
    pub permission_decision_reason: Option<String>,
    pub updated_input: Option<String>,
}

impl PreToolUseHookSpecificOutput {
    pub fn new() -> (r: PreToolUseHookSpecificOutput)
        ensures
            r.hook_event_name@ == "PreToolUse"@,
            r.permission_decision is None,
            r.permission_decision_reason is None,
            r.updated_input is None,
    {
        PreToolUseHookSpecificOutput {
            hook_event_name: "PreToolUse".to_owned(),
            permission_decision: None,
            permission_decision_reason: None,
            updated_input: None,
        }
    }
}

/// Hook-specific output for PostToolUse events.
#[derive(Debug, Clone, PartialEq)]
pub struct PostToolUseHookSpecificOutput {
    pub hook_event_name: String,
    pub additional_context: Option<String>,
}

impl PostToolUseHookSpecificOutput {
    pub fn new() -> (r: PostToolUseHookSpecificOutput)
        ensures
            r.hook_event_name@ == "PostToolUse"@,
            r.additional_context is None,
    {
        PostToolUseHookSpecificOutput {
            hook_event_name: "PostToolUse".to_owned(),
            additional_context: None,
        }
    }
}

/// Hook-specific output for PostToolUseFailure events.
#[derive(Debug, Clone, PartialEq)]
pub struct PostToolUseFailureHookSpecificOutput {
    pub hook_event_name: String,
    pub additional_context: Option<String>,
}

impl PostToolUseFailureHookSpecificOutput {
    pub fn new() -> (r: PostToolUseFailureHookSpecificOutput)
        ensures
            r.hook_event_name@ == "PostToolUseFailure"@,
            r.additional_context is None,
    {
        PostToolUseFailureHookSpecificOutput {
            hook_event_name: "PostToolUseFailure".to_owned(),
            additional_context: None,
        }
    }
}

/// Hook-specific output for UserPromptSubmit events.
#[derive(Debug, Clone, PartialEq)]
pub struct UserPromptSubmitHookSpecificOutput {
    pub hook_event_name: String,
    pub additional_context: Option<String>,
}

impl UserPromptSubmitHookSpecificOutput {
    pub fn new() -> (r: UserPromptSubmitHookSpecificOutput)
        ensures
            r.hook_event_name@ == "UserPromptSubmit"@,
            r.additional_context is None,
    {
        UserPromptSubmitHookSpecificOutput {
            hook_event_name: "UserPromptSubmit".to_owned(),
            additional_context: None,
        }
    }
}

/// Union type for hook-specific outputs.
#[derive(Debug, Clone, PartialEq)]
pub enum HookSpecificOutput {
    PreToolUse(PreToolUseHookSpecificOutput),
    PostToolUse(PostToolUseHookSpecificOutput),
    PostToolUseFailure(PostToolUseFailureHookSpecificOutput),
    UserPromptSubmit(UserPromptSubmitHookSpecificOutput),
}

/// Structured output a hook returns to the child.
#[derive(Debug, Clone, PartialEq)]
pub struct HookJSONOutput {
    /// Whether to continue after hook execution.
    pub should_continue: Option<bool>,
    /// Whether this is an async hook.
    pub is_async: Option<bool>,
    /// Timeout for async operations in milliseconds.
    pub async_timeout: Option<i64>,
    /// Hide stdout from transcript mode.
    pub suppress_output: Option<bool>,
    /// Message shown when continue is false.
    pub stop_reason: Option<String>,
    /// Set to "block" to indicate blocking behavior.
    pub decision: Option<String>,
    /// Warning message displayed to the user.
    pub system_message: Option<String>,
    /// Feedback message about the decision.
    pub reason: Option<String>,
    /// Hook-specific outputs.
    pub hook_specific_output: Option<HookSpecificOutput>,
}

impl HookJSONOutput {
    pub fn new() -> (r: HookJSONOutput)
        ensures
            r == (HookJSONOutput {
                should_continue: None,
                is_async: None,
                async_timeout: None,
                suppress_output: None,
                stop_reason: None,
                decision: None,
                system_message: None,
                reason: None,
                hook_specific_output: None,
            }),
    {
        HookJSONOutput {
            should_continue: None,
            is_async: None,
            async_timeout: None,
            suppress_output: None,
            stop_reason: None,
            decision: None,
            system_message: None,
            reason: None,
            hook_specific_output: None,
        }
    }

    pub fn with_continue(self, should_continue: bool) -> (r: HookJSONOutput)
        ensures
            r == (HookJSONOutput { should_continue: Some(should_continue), ..self }),
    {
        HookJSONOutput { should_continue: Some(should_continue), ..self }
    }

    pub fn with_async(self, is_async: bool, timeout: Option<i64>) -> (r: HookJSONOutput)
        ensures
            r == (HookJSONOutput { is_async: Some(is_async), async_timeout: timeout, ..self }),
    {
        HookJSONOutput { is_async: Some(is_async), async_timeout: timeout, ..self }
    }

    pub fn with_stop_reason(self, reason: &str) -> (r: HookJSONOutput)
        ensures
            r.should_continue == Some(false),
            r.stop_reason matches Some(m) && m@ == reason@,
            r.is_async == self.is_async,
            r.async_timeout == self.async_timeout,
            r.suppress_output == self.suppress_output,
            r.decision == self.decision,
            r.system_message == self.system_message,
            r.reason == self.reason,
            r.hook_specific_output == self.hook_specific_output,
    {
        HookJSONOutput {
            should_continue: Some(false),
            stop_reason: Some(reason.to_owned()),
            ..self
        }
    }

    pub fn with_decision(self, decision: &str) -> (r: HookJSONOutput)
        ensures
            r.decision matches Some(d) && d@ == decision@,
            r.should_continue == self.should_continue,
            r.is_async == self.is_async,
            r.async_timeout == self.async_timeout,
            r.suppress_output == self.suppress_output,
            r.stop_reason == self.stop_reason,
            r.system_message == self.system_message,
            r.reason == self.reason,
            r.hook_specific_output == self.hook_specific_output,
    {
        HookJSONOutput { decision: Some(decision.to_owned()), ..self }
    }

    pub fn with_hook_specific_output(self, output: HookSpecificOutput) -> (r: HookJSONOutput)
        ensures
            r == (HookJSONOutput { hook_specific_output: Some(output), ..self }),
    {
        HookJSONOutput { hook_specific_output: Some(output), ..self }
    }
}

impl Default for HookJSONOutput {
    fn default() -> (r: HookJSONOutput)
        ensures
            r == (HookJSONOutput {
                should_continue: None,
                is_async: None,
                async_timeout: None,
                suppress_output: None,
                stop_reason: None,
                decision: None,
                system_message: None,
                reason: None,
                hook_specific_output: None,
            }),
    {
        HookJSONOutput::new()
    }
}

/// Context information for hook callbacks.
#[derive(Debug, Clone)]
pub struct HookContext {
    /// Reserved for future abort signal support.
    pub signal: Option<()>,
}

impl HookContext {
    pub fn new() -> (r: HookContext)
        ensures
            r.signal is None,
    {
        HookContext { signal: None }
    }
}

impl Default for HookContext {
    fn default() -> (r: HookContext)
        ensures
            r.signal is None,
    {
        HookContext::new()
    }
}

/// The shape of one hook matcher as the initialization handshake reports it:
/// a tool-name pattern, how many callbacks it holds, and an optional timeout
/// in seconds. The callbacks themselves live with the embedding application;
/// the engine only assigns them identifiers.
#[derive(Debug, Clone, PartialEq)]
pub struct HookMatcherConfig {
    /// Pattern to match tool names (for example "Bash" or "Write|Edit").
    pub matcher: Option<String>,
    /// Number of hook callbacks registered under this matcher.
    pub hook_count: usize,
    /// Timeout in seconds for all hooks in this matcher.
    pub timeout: Option<u64>,
}

impl HookMatcherConfig {
    pub fn new() -> (r: HookMatcherConfig)
        ensures
            r == (HookMatcherConfig { matcher: None, hook_count: 0, timeout: None }),
    {
        HookMatcherConfig { matcher: None, hook_count: 0, timeout: None }
    }

    pub fn with_matcher(self, matcher: &str) -> (r: HookMatcherConfig)
        ensures
            r.matcher matches Some(m) && m@ == matcher@,
            r.hook_count == self.hook_count,
            r.timeout == self.timeout,
    {
        HookMatcherConfig { matcher: Some(matcher.to_owned()), ..self }
    }

    pub fn with_hook_count(self, hook_count: usize) -> (r: HookMatcherConfig)
        ensures
            r == (HookMatcherConfig { hook_count, ..self }),
    {
        HookMatcherConfig { hook_count, ..self }
    }

    pub fn with_timeout(self, timeout: u64) -> (r: HookMatcherConfig)
        ensures
            r == (HookMatcherConfig { timeout: Some(timeout), ..self }),
    {
        HookMatcherConfig { timeout: Some(timeout), ..self }
    }
}

impl Default for HookMatcherConfig {
    fn default() -> (r: HookMatcherConfig)
        ensures
            r == (HookMatcherConfig { matcher: None, hook_count: 0, timeout: None }),
    {
        HookMatcherConfig::new()
    }
}


/// The wire rendering of a hook permission decision.
pub open spec fn decision_str(d: HookPermissionDecision) -> Seq<char> {
    match d {
        HookPermissionDecision::Allow => "allow"@,
        HookPermissionDecision::Deny => "deny"@,
        HookPermissionDecision::Ask => "ask"@,
    }
}

impl HookPermissionDecision {
    pub fn as_str(&self) -> (r: &'static str)
        ensures
            r@ == decision_str(*self),
    {
        match self {
            HookPermissionDecision::Allow => "allow",
            HookPermissionDecision::Deny => "deny",
            HookPermissionDecision::Ask => "ask",
        }
    }
}

/// An optional entry: the given prefix (a comma, the quoted key and a colon)
/// followed by the quoted value, or nothing.
pub open spec fn opt_text_entry(prefix: Seq<char>, v: Option<String>) -> Seq<char> {
    match v {
        Some(t) => prefix + json_quoted(t@),
        None => Seq::empty(),
    }
}

/// An optional entry with a boolean value.
pub open spec fn opt_bool_entry(prefix: Seq<char>, v: Option<bool>) -> Seq<char> {
    match v {
        Some(true) => prefix + "true"@,
        Some(false) => prefix + "false"@,
        None => Seq::empty(),
    }
}

/// The JSON object of a hook-specific output: the event name, then the
/// fields its kind carries.
pub open spec fn hook_specific_output_json(o: HookSpecificOutput) -> Seq<char> {
    match o {
        HookSpecificOutput::PreToolUse(p) => "{\"hookEventName\":"@ + json_quoted(
            p.hook_event_name@,
        ) + (match p.permission_decision {
            Some(d) => ",\"permissionDecision\":"@ + json_quoted(decision_str(d)),
            None => Seq::<char>::empty(),
        }) + opt_text_entry(",\"permissionDecisionReason\":"@, p.permission_decision_reason) + (
        match p.updated_input {
            Some(u) => ",\"updatedInput\":"@ + u@,
            None => Seq::<char>::empty(),
        }) + seq!['}'],
        HookSpecificOutput::PostToolUse(p) => "{\"hookEventName\":"@ + json_quoted(
            p.hook_event_name@,
        ) + opt_text_entry(",\"additionalContext\":"@, p.additional_context) + seq!['}'],
        HookSpecificOutput::PostToolUseFailure(p) => "{\"hookEventName\":"@ + json_quoted(
            p.hook_event_name@,
        ) + opt_text_entry(",\"additionalContext\":"@, p.additional_context) + seq!['}'],
        HookSpecificOutput::UserPromptSubmit(p) => "{\"hookEventName\":"@ + json_quoted(
            p.hook_event_name@,
        ) + opt_text_entry(",\"additionalContext\":"@, p.additional_context) + seq!['}'],
    }
}

/// The continue, async and timeout entries of a hook output, each with its
/// leading comma.
pub open spec fn flow_entries(o: HookJSONOutput) -> Seq<char> {
    opt_bool_entry(",\"continue\":"@, o.should_continue) + opt_bool_entry(
        ",\"async\":"@,
        o.is_async,
    ) + (match o.async_timeout {
        Some(t) => ",\"asyncTimeout\":"@ + int_str(t as int),
        None => Seq::<char>::empty(),
    })
}

/// The output-suppression, stop-reason and decision entries.
pub open spec fn message_entries(o: HookJSONOutput) -> Seq<char> {
    opt_bool_entry(",\"suppressOutput\":"@, o.suppress_output) + opt_text_entry(
        ",\"stopReason\":"@,
        o.stop_reason,
    ) + opt_text_entry(",\"decision\":"@, o.decision)
}

/// The system-message, reason and hook-specific entries.
pub open spec fn outcome_entries(o: HookJSONOutput) -> Seq<char> {
    opt_text_entry(",\"systemMessage\":"@, o.system_message) + opt_text_entry(
        ",\"reason\":"@,
        o.reason,
    ) + (match o.hook_specific_output {
        Some(so) => ",\"hookSpecificOutput\":"@ + hook_specific_output_json(so),
        None => Seq::<char>::empty(),
    })
}

/// Every present field of a hook output, in declaration order, each with its
/// leading comma.
pub open spec fn hook_output_body(o: HookJSONOutput) -> Seq<char> {
    flow_entries(o) + message_entries(o) + outcome_entries(o)
}

/// The JSON object of a hook's structured output: each present field, in
/// declaration order, under its wire name.
pub open spec fn hook_output_json(o: HookJSONOutput) -> Seq<char> {
    let body = hook_output_body(o);
    if body.len() == 0 {
        "{}"@
    } else {
        seq!['{'] + body.drop_first() + seq!['}']
    }
}

/// Append `,"key":value` for a present boolean.
fn push_bool_entry(s: &mut String, prefix: &str, v: bool)
    ensures
        final(s)@ == old(s)@ + opt_bool_entry(prefix@, Some(v)),
{
    s.append(prefix);
    if v {
        s.append("true");
    } else {
        s.append("false");
    }
}

impl HookSpecificOutput {
    /// Render this hook-specific output as its wire JSON object.
    pub fn to_json(&self) -> (r: String)
        ensures
            r@ == hook_specific_output_json(*self),
    {
        let mut s = String::from_str("{\"hookEventName\":");
        match self {
            HookSpecificOutput::PreToolUse(p) => {
                push_json_quoted(&mut s, p.hook_event_name.as_str());
                if let Some(d) = p.permission_decision {
                    s.append(",\"permissionDecision\":");
                    push_json_quoted(&mut s, d.as_str());
                }
                if let Some(reason) = &p.permission_decision_reason {
                    s.append(",\"permissionDecisionReason\":");
                    push_json_quoted(&mut s, reason.as_str());
                }
                if let Some(u) = &p.updated_input {
                    s.append(",\"updatedInput\":");
                    s.append(u.as_str());
                }
            },
            HookSpecificOutput::PostToolUse(p) => {
                push_json_quoted(&mut s, p.hook_event_name.as_str());
                if let Some(c) = &p.additional_context {
                    s.append(",\"additionalContext\":");
                    push_json_quoted(&mut s, c.as_str());
                }
            },
            HookSpecificOutput::PostToolUseFailure(p) => {
                push_json_quoted(&mut s, p.hook_event_name.as_str());
                if let Some(c) = &p.additional_context {
                    s.append(",\"additionalContext\":");
                    push_json_quoted(&mut s, c.as_str());
                }
            },
            HookSpecificOutput::UserPromptSubmit(p) => {
                push_json_quoted(&mut s, p.hook_event_name.as_str());
                if let Some(c) = &p.additional_context {
                    s.append(",\"additionalContext\":");
                    push_json_quoted(&mut s, c.as_str());
                }
            },
        }
        push_char(&mut s, '}');
        assert(s@ =~= hook_specific_output_json(*self));
        s
    }
}

impl HookJSONOutput {
    /// Render this structured output as its wire JSON object; this is the
    /// payload that answers a hook invocation.
    pub fn to_json(&self) -> (r: String)
        ensures
            r@ == hook_output_json(*self),
    {
        let mut body = String::new();
        self.push_flow_entries(&mut body);
        self.push_message_entries(&mut body);
        self.push_outcome_entries(&mut body);
        let ghost whole = hook_output_body(*self);
        let n = body.as_str().unicode_len();
        if n == 0 {
            let r = String::from_str("{}");
            proof {
                assert(r@ == hook_output_json(*self));
            }
            r
        } else {
            let mut r = String::new();
            push_char(&mut r, '{');
            let rest = body.as_str().substring_char(1, n);
            r.append(rest);
            push_char(&mut r, '}');
            proof {
                assert(rest@ =~= body@.drop_first());
                assert(r@ =~= seq!['{'] + whole.drop_first() + seq!['}']);
            }
            r
        }
    }

    /// Append the continue, async and timeout entries.
    fn push_flow_entries(&self, s: &mut String)
        ensures
            final(s)@ == old(s)@ + flow_entries(*self),
    {
        let ghost base = old(s)@;
        if let Some(v) = self.should_continue {
            push_bool_entry(s, ",\"continue\":", v);
        }
        if let Some(v) = self.is_async {
            push_bool_entry(s, ",\"async\":", v);
        }
        if let Some(t) = self.async_timeout {
            s.append(",\"asyncTimeout\":");
            push_dec_i64(s, t);
        }
        assert(final(s)@ =~= base + flow_entries(*self));
    }

    /// Append the output-suppression, stop-reason and decision entries.
    fn push_message_entries(&self, s: &mut String)
        ensures
            final(s)@ == old(s)@ + message_entries(*self),
    {
        let ghost base = old(s)@;
        if let Some(v) = self.suppress_output {
            push_bool_entry(s, ",\"suppressOutput\":", v);
        }
        if let Some(t) = &self.stop_reason {
            s.append(",\"stopReason\":");
            push_json_quoted(s, t.as_str());
        }
        if let Some(t) = &self.decision {
            s.append(",\"decision\":");
            push_json_quoted(s, t.as_str());
        }
        assert(final(s)@ =~= base + message_entries(*self));
    }

    /// Append the system-message, reason and hook-specific entries.
    fn push_outcome_entries(&self, s: &mut String)
        ensures
            final(s)@ == old(s)@ + outcome_entries(*self),
    {
        let ghost base = old(s)@;
        if let Some(t) = &self.system_message {
            s.append(",\"systemMessage\":");
            push_json_quoted(s, t.as_str());
        }
        if let Some(t) = &self.reason {
            s.append(",\"reason\":");
            push_json_quoted(s, t.as_str());
        }
        if let Some(so) = &self.hook_specific_output {
            s.append(",\"hookSpecificOutput\":");
            let rendered = so.to_json();
            s.append(rendered.as_str());
        }
        assert(final(s)@ =~= base + outcome_entries(*self));
    }
}

} // verus!
