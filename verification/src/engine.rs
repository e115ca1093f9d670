//! The control protocol engine: allocates request identifiers, prepares the
//! lines that carry control requests, classifies every inbound document as a
//! control response, an inbound control request, a cancel notice or a data
//! message, keeps the correlation table exact, and queues outbound control
//! responses so that writes never interleave with an in-progress read.
//!
//! The engine is purely a state machine over text: the embedding application
//! drives the pipes, the clocks and the callbacks, and hands every decision
//! to the engine.

use vstd::prelude::*;

use crate::correlation::CorrelationTable;
use crate::error::ClaudeSDKError;
use crate::json::get_raw_field;
use crate::json::get_string_field;
use crate::json::json_raw_field;
use crate::json::json_string_field;
use crate::parser::message_parse_fails;
use crate::parser::message_parses_to;
use crate::parser::parse_message;
use crate::strutil::dec_str;
use crate::strutil::dec_u64_string;
use crate::strutil::hex_str;
use crate::strutil::hex_u64_string;
use crate::strutil::str_eq;
use crate::types::Message;
use crate::types::SDKControlRequest;
use crate::types::SDKControlRequestVariant;
use crate::wire::error_line;
use crate::wire::error_response_line;
use crate::wire::mcp_unroutable_json;
use crate::wire::mcp_unroutable_payload;
use crate::wire::permission_payload_json;
use crate::wire::permission_result_payload;
use crate::wire::request_body_json;
use crate::wire::success_line;
use crate::wire::success_response_line;
use crate::strutil::json_quoted;
use crate::types::PermissionResult;
use crate::types::HookEvent;
use crate::types::HookMatcherConfig;
use crate::types::hook_event_str;
use crate::strutil::push_char;
use crate::strutil::push_json_quoted;
use crate::strutil::push_string_array;
use crate::strutil::string_array_json;
use crate::strutil::push_dec_u64;

verus! {

/// The outcome a control response reports for the request it answers.
#[derive(Debug, Clone, PartialEq)]
pub enum ControlOutcome {
    /// The child answered with a success payload (the JSON text, `null` when
    /// the response carried none).
    Success(String),
    /// The child reported an error with this message.
    Failure(String),
}

/// The spec-level view of a control outcome.
pub enum SpecOutcome {
    Success(Seq<char>),
    Failure(Seq<char>),
}

/// Whether an outcome value carries exactly this spec outcome.
pub open spec fn outcome_is(o: ControlOutcome, so: SpecOutcome) -> bool {
    match so {
        SpecOutcome::Success(p) => o matches ControlOutcome::Success(s) && s@ == p,
        SpecOutcome::Failure(e) => o matches ControlOutcome::Failure(f) && f@ == e,
    }
}

/// The `type` discriminator of an inbound document.
pub open spec fn line_type(s: Seq<char>) -> Option<Seq<char>> {
    json_string_field(s, "type"@)
}

/// How a `control_response` document reads: the request id it answers and
/// the outcome, or nothing when the document is not shaped as a response.
pub open spec fn classify_response(s: Seq<char>) -> Option<(Seq<char>, SpecOutcome)> {
    match json_raw_field(s, "response"@) {
        None => None,
        Some(resp) => match json_string_field(resp, "request_id"@) {
            None => None,
            Some(rid) => {
                let st = json_string_field(resp, "subtype"@);
                if st == Some("success"@) {
                    Some(
                        (
                            rid,
                            SpecOutcome::Success(
                                match json_raw_field(resp, "response"@) {
                                    Some(p) => p,
                                    None => "null"@,
                                },
                            ),
                        ),
                    )
                } else if st == Some("error"@) {
                    match json_string_field(resp, "error"@) {
                        None => None,
                        Some(e) => Some((rid, SpecOutcome::Failure(e))),
                    }
                } else {
                    None
                }
            },
        },
    }
}

/// How a `control_request` document reads.
pub enum SpecRequest {
    /// The child asks whether a tool may run.
    CanUse { rid: Seq<char>, tool_name: Seq<char>, input: Seq<char> },
    /// The child invokes a registered hook.
    Hook { rid: Seq<char>, callback_id: Seq<char>, input: Seq<char>, tool_use_id: Option<Seq<char>> },
    /// The child routes an MCP message to a server this side would host.
    Mcp { rid: Seq<char>, server_name: Seq<char>, message: Seq<char> },
    /// A recognized kind this side does not serve.
    Other { rid: Seq<char>, subtype: Seq<char> },
    /// Not shaped as any recognizable control request.
    Malformed,
}

/// Classify the body of a `control_request` document.
pub open spec fn classify_request(s: Seq<char>) -> SpecRequest {
    match json_string_field(s, "request_id"@) {
        None => SpecRequest::Malformed,
        Some(rid) => match json_raw_field(s, "request"@) {
            None => SpecRequest::Malformed,
            Some(req) => match json_string_field(req, "subtype"@) {
                None => SpecRequest::Malformed,
                Some(st) => {
                    if st == "can_use_tool"@ {
                        match (json_string_field(req, "tool_name"@), json_raw_field(
                            req,
                            "input"@,
                        )) {
                            (Some(t), Some(i)) => SpecRequest::CanUse {
                                rid,
                                tool_name: t,
                                input: i,
                            },
                            _ => SpecRequest::Malformed,
                        }
                    } else if st == "hook_callback"@ {
                        match (json_string_field(req, "callback_id"@), json_raw_field(
                            req,
                            "input"@,
                        )) {
                            (Some(c), Some(i)) => SpecRequest::Hook {
                                rid,
                                callback_id: c,
                                input: i,
                                tool_use_id: json_string_field(req, "tool_use_id"@),
                            },
                            _ => SpecRequest::Malformed,
                        }
                    } else if st == "mcp_message"@ {
                        match (json_string_field(req, "server_name"@), json_raw_field(
                            req,
                            "message"@,
                        )) {
                            (Some(n), Some(m)) => SpecRequest::Mcp {
                                rid,
                                server_name: n,
                                message: m,
                            },
                            _ => SpecRequest::Malformed,
                        }
                    } else if st == "interrupt"@ || st == "initialize"@ || st
                        == "set_permission_mode"@ || st == "set_model"@ || st == "rewind_files"@
                        || st == "mcp_status"@ {
                        SpecRequest::Other { rid, subtype: st }
                    } else {
                        SpecRequest::Malformed
                    }
                },
            },
        },
    }
}

/// What one inbound document is.
pub enum SpecInbound {
    /// A control response carrying this request id and outcome.
    Response(Seq<char>, SpecOutcome),
    /// A control response that cannot be read; dropped silently.
    ResponseMalformed,
    /// A control request.
    Request(SpecRequest),
    /// A cancel notice.
    Cancel,
    /// A data message for the caller.
    Data,
}

/// Classify one inbound document.
pub open spec fn classify_line(s: Seq<char>) -> SpecInbound {
    let t = line_type(s);
    if t == Some("control_response"@) {
        match classify_response(s) {
            Some((rid, o)) => SpecInbound::Response(rid, o),
            None => SpecInbound::ResponseMalformed,
        }
    } else if t == Some("control_request"@) {
        SpecInbound::Request(classify_request(s))
    } else if t == Some("control_cancel_request"@) {
        SpecInbound::Cancel
    } else {
        SpecInbound::Data
    }
}

/// The request identifier minted for the given counter value and suffix.
pub open spec fn request_id_text(counter: u64, suffix: Seq<char>) -> Seq<char> {
    "req_"@ + dec_str(counter as nat) + "_"@ + suffix
}

/// The callback identifier minted for the given counter value.
pub open spec fn callback_id_text(counter: u64) -> Seq<char> {
    "hook_"@ + dec_str(counter as nat)
}

/// The full wire line (newline included) of a control request.
pub open spec fn request_line(rid: Seq<char>, v: SDKControlRequestVariant) -> Seq<char> {
    "{\"type\":\"control_request\",\"request_id\":"@ + json_quoted(rid) + ",\"request\":"@
        + request_body_json(v) + seq!['}'] + "\n"@
}

/// The error text queued when the child asks a permission question and no
/// permission callback is registered.
pub open spec fn no_permission_callback_text() -> Seq<char> {
    "Control protocol error: canUseTool callback is not provided"@
}

/// The error text queued for an unknown hook callback identifier.
pub open spec fn unknown_hook_text(id: Seq<char>) -> Seq<char> {
    "Control protocol error: No hook callback found for ID: "@ + id
}

/// The error text queued for a recognized but unserved request kind.
pub open spec fn unsupported_request_text(subtype: Seq<char>) -> Seq<char> {
    "Control protocol error: Unsupported control request: "@ + subtype
}

/// The callback identifiers minted from `start`, `count` of them, in order.
pub open spec fn ids_from(start: int, count: int) -> Seq<Seq<char>>
    decreases count,
{
    if count <= 0 {
        Seq::empty()
    } else {
        ids_from(start, count - 1).push(callback_id_text((start + count - 1) as u64))
    }
}

/// The JSON object describing one hook matcher: its pattern (null when it
/// has none), the callback identifiers assigned to its hooks, and its
/// timeout when it has one.
pub open spec fn matcher_json(m: HookMatcherConfig, start: int) -> Seq<char> {
    "{\"matcher\":"@ + (match m.matcher {
        Some(p) => json_quoted(p@),
        None => "null"@,
    }) + ",\"hookCallbackIds\":"@ + string_array_json(ids_from(start, m.hook_count as int)) + (
    match m.timeout {
        Some(t) => ",\"timeout\":"@ + dec_str(t as nat),
        None => Seq::empty(),
    }) + seq!['}']
}

/// How many hook callbacks a matcher list holds in all.
pub open spec fn matchers_hook_total(ms: Seq<HookMatcherConfig>) -> int
    decreases ms.len(),
{
    if ms.len() == 0 {
        0
    } else {
        matchers_hook_total(ms.drop_last()) + ms.last().hook_count as int
    }
}

/// The body of the JSON array of matcher objects, identifiers assigned in
/// matcher order from `start`.
pub open spec fn matchers_body(ms: Seq<HookMatcherConfig>, start: int) -> Seq<char>
    decreases ms.len(),
{
    if ms.len() == 0 {
        Seq::empty()
    } else if ms.len() == 1 {
        matcher_json(ms[0], start)
    } else {
        matchers_body(ms.drop_last(), start) + seq![','] + matcher_json(
            ms.last(),
            start + matchers_hook_total(ms.drop_last()),
        )
    }
}

/// The JSON array of matcher objects.
pub open spec fn matchers_array(ms: Seq<HookMatcherConfig>, start: int) -> Seq<char> {
    seq!['['] + matchers_body(ms, start) + seq![']']
}

/// How many hook callbacks an event list holds in all.
pub open spec fn events_hook_total(evs: Seq<(HookEvent, Vec<HookMatcherConfig>)>) -> int
    decreases evs.len(),
{
    if evs.len() == 0 {
        0
    } else {
        events_hook_total(evs.drop_last()) + matchers_hook_total(evs.last().1@)
    }
}

/// The body of the hooks configuration object: one entry per event that has
/// matchers, identifiers assigned in order from `start`.
pub open spec fn events_body(evs: Seq<(HookEvent, Vec<HookMatcherConfig>)>, start: int) -> Seq<
    char,
>
    decreases evs.len(),
{
    if evs.len() == 0 {
        Seq::empty()
    } else {
        let rest = events_body(evs.drop_last(), start);
        let last = evs.last();
        if last.1@.len() == 0 {
            rest
        } else {
            let entry = json_quoted(hook_event_str(last.0)) + seq![':'] + matchers_array(
                last.1@,
                start + events_hook_total(evs.drop_last()),
            );
            if rest.len() == 0 {
                entry
            } else {
                rest + seq![','] + entry
            }
        }
    }
}

/// The hooks configuration object carried by the initialize request, or
/// nothing when no event has matchers.
pub open spec fn hooks_config_json(
    evs: Seq<(HookEvent, Vec<HookMatcherConfig>)>,
    start: int,
) -> Option<Seq<char>> {
    if events_body(evs, start).len() == 0 {
        None
    } else {
        Some(seq!['{'] + events_body(evs, start) + seq!['}'])
    }
}

/// What `handle_inbound` tells the embedding application to do.
#[derive(Debug, Clone, PartialEq)]
pub enum InboundDisposition {
    /// A pending control request was answered: deliver the outcome to its
    /// waiter.
    ResponseResolved { request_id: String, outcome: ControlOutcome },
    /// A control response with no pending waiter, or one that cannot be
    /// read: dropped silently, never an error.
    ResponseDropped,
    /// A control request that needs a caller-supplied callback: run it, then
    /// complete or fail the request.
    CallbackNeeded(CallbackRequest),
    /// A control request the engine answered by itself; the response is in
    /// the outgoing queue.
    Answered,
    /// A control request that cannot be read: dropped silently.
    RequestDropped,
    /// A cancel notice: acknowledged by being skipped.
    CancelAcknowledged,
    /// A data message for the caller.
    Data(Message),
}

/// A control request that needs caller-supplied logic.
#[derive(Debug, Clone, PartialEq)]
pub enum CallbackRequest {
    /// Ask the permission callback whether `tool_name` may run with `input`.
    Permission { request_id: String, tool_name: String, input: String },
    /// Invoke the hook registered under `callback_id` with `input`.
    Hook { request_id: String, callback_id: String, input: String, tool_use_id: Option<String> },
}

/// What starting the initialize handshake produced.
#[derive(Debug, Clone, PartialEq)]
pub enum InitializeStart {
    /// Not in streaming-input mode: the handshake is a no-op.
    NotStreaming,
    /// Write `line` and wait for the response to `request_id`.
    Send { request_id: String, line: String },
}

/// How one document read during the initialize handshake relates to it.
#[derive(Debug, Clone, PartialEq)]
pub enum InitCheck {
    /// Not the response to the handshake; keep reading.
    NotOurs,
    /// The handshake succeeded with this payload.
    Succeeded(String),
    /// The child failed the handshake with this error.
    Failed(String),
}

/// A prepared outbound control request: the identifier registered for
/// correlation and the line to write.
#[derive(Debug, Clone, PartialEq)]
pub struct PreparedRequest {
    pub request_id: String,
    pub line: String,
}

/// The control protocol engine's state.
pub struct ProtocolEngine {
    is_streaming: bool,
    has_permission_callback: bool,
    pending: CorrelationTable,
    hook_callback_ids: Vec<String>,
    outgoing: Vec<String>,
    request_counter: u64,
    next_callback_id: u64,
    initialized: bool,
    initialization_result: Option<String>,
}

impl ProtocolEngine {
    /// Whether the connection runs in streaming-input mode.
    pub closed spec fn streaming(&self) -> bool {
        self.is_streaming
    }

    /// Whether a permission callback is registered.
    pub closed spec fn has_permission(&self) -> bool {
        self.has_permission_callback
    }

    /// The request identifiers awaiting responses.
    pub closed spec fn pending_ids(&self) -> Seq<Seq<char>> {
        self.pending.pending()
    }

    /// Whether `id` awaits a response.
    pub open spec fn has_pending(&self, id: Seq<char>) -> bool {
        self.pending_ids().contains(id)
    }

    /// The registered hook callback identifiers.
    pub closed spec fn hook_ids(&self) -> Seq<Seq<char>> {
        self.hook_callback_ids.deep_view()
    }

    /// The outgoing control responses awaiting a flush, in order.
    pub closed spec fn queued(&self) -> Seq<Seq<char>> {
        self.outgoing.deep_view()
    }

    /// The next request counter value.
    pub closed spec fn counter(&self) -> u64 {
        self.request_counter
    }

    /// The next hook callback counter value.
    pub closed spec fn callback_counter(&self) -> u64 {
        self.next_callback_id
    }

    /// Whether the initialize handshake completed.
    pub closed spec fn is_initialized(&self) -> bool {
        self.initialized
    }

    /// The payload the initialize handshake returned.
    pub closed spec fn init_result(&self) -> Option<Seq<char>> {
        self.initialization_result.deep_view()
    }

    /// Well-formed: the correlation table holds each id at most once.
    pub closed spec fn wf(&self) -> bool {
        self.pending.wf()
    }

    /// Everything but the correlation table and the outgoing queue.
    pub open spec fn config_unchanged(&self, other: &ProtocolEngine) -> bool {
        &&& self.streaming() == other.streaming()
        &&& self.has_permission() == other.has_permission()
        &&& self.hook_ids() == other.hook_ids()
        &&& self.counter() == other.counter()
        &&& self.callback_counter() == other.callback_counter()
        &&& self.is_initialized() == other.is_initialized()
        &&& self.init_result() == other.init_result()
    }

    /// Create an engine for a connection.
    pub fn new(is_streaming: bool, has_permission_callback: bool) -> (r: ProtocolEngine)
        ensures
            r.streaming() == is_streaming,
            r.has_permission() == has_permission_callback,
            r.pending_ids() == Seq::<Seq<char>>::empty(),
            r.hook_ids() == Seq::<Seq<char>>::empty(),
            r.queued() == Seq::<Seq<char>>::empty(),
            r.counter() == 0,
            r.callback_counter() == 0,
            !r.is_initialized(),
            r.init_result() is None,
            r.wf(),
    {
        let r = ProtocolEngine {
            is_streaming,
            has_permission_callback,
            pending: CorrelationTable::new(),
            hook_callback_ids: Vec::new(),
            outgoing: Vec::new(),
            request_counter: 0,
            next_callback_id: 0,
            initialized: false,
            initialization_result: None,
        };
        proof {
            assert(r.hook_ids() =~= Seq::<Seq<char>>::empty());
            assert(r.queued() =~= Seq::<Seq<char>>::empty());
        }
        r
    }

    /// Mint the next request identifier from the counter and the given
    /// suffix, advancing the counter (wrapping at its limit, as the original
    /// shared counter does).
    fn next_request_id(&mut self, suffix: &str) -> (r: String)
        ensures
            r@ == request_id_text(old(self).counter(), suffix@),
            final(self).counter() == (if old(self).counter() == u64::MAX {
                0u64
            } else {
                (old(self).counter() + 1) as u64
            }),
            final(self).pending_ids() == old(self).pending_ids(),
            final(self).queued() == old(self).queued(),
            final(self).hook_ids() == old(self).hook_ids(),
            final(self).streaming() == old(self).streaming(),
            final(self).has_permission() == old(self).has_permission(),
            final(self).callback_counter() == old(self).callback_counter(),
            final(self).is_initialized() == old(self).is_initialized(),
            final(self).init_result() == old(self).init_result(),
    {
        let mut id = String::from_str("req_");
        let n = dec_u64_string(self.request_counter);
        id.append(n.as_str());
        id.append("_");
        id.append(suffix);
        if self.request_counter == u64::MAX {
            self.request_counter = 0;
        } else {
            self.request_counter = self.request_counter + 1;
        }
        proof {
            assert(id@ =~= request_id_text(old(self).counter(), suffix@));
        }
        id
    }

    /// Prepare a control request: refuse outside streaming mode, otherwise
    /// mint an identifier, register it for correlation, and produce the wire
    /// line. The caller writes the line and awaits the outcome under its own
    /// timeout.
    pub fn begin_control_request(
        &mut self,
        request: SDKControlRequestVariant,
        suffix: &str,
    ) -> (r: Result<PreparedRequest, ClaudeSDKError>)
        requires
            old(self).wf(),
        ensures
            final(self).wf(),
            !old(self).streaming() ==> {
                &&& r matches Err(ClaudeSDKError::ControlProtocol(m)) && m@
                    == "Control requests require streaming mode"@
                &&& *final(self) == *old(self)
            },
            old(self).streaming() ==> {
                &&& r matches Ok(p) && p.request_id@ == request_id_text(
                    old(self).counter(),
                    suffix@,
                ) && p.line@ == request_line(request_id_text(old(self).counter(), suffix@), request)
                &&& final(self).counter() == (if old(self).counter() == u64::MAX {
                    0u64
                } else {
                    (old(self).counter() + 1) as u64
                })
                &&& final(self).has_pending(request_id_text(old(self).counter(), suffix@))
                &&& (if old(self).has_pending(request_id_text(old(self).counter(), suffix@)) {
                    final(self).pending_ids() == old(self).pending_ids()
                } else {
                    final(self).pending_ids() == old(self).pending_ids().push(
                        request_id_text(old(self).counter(), suffix@),
                    )
                })
                &&& final(self).queued() == old(self).queued()
                &&& final(self).hook_ids() == old(self).hook_ids()
                &&& final(self).streaming() == old(self).streaming()
                &&& final(self).has_permission() == old(self).has_permission()
                &&& final(self).callback_counter() == old(self).callback_counter()
                &&& final(self).is_initialized() == old(self).is_initialized()
                &&& final(self).init_result() == old(self).init_result()
            },
    {
        if !self.is_streaming {
            return Err(
                ClaudeSDKError::ControlProtocol(
                    String::from_str("Control requests require streaming mode"),
                ),
            );
        }
        let request_id = self.next_request_id(suffix);
        self.pending.register(request_id.as_str());
        let envelope = SDKControlRequest::new(request_id.as_str(), request);
        let mut line = envelope.to_json();
        line.append("\n");
        proof {
            assert(line@ =~= request_line(request_id_text(old(self).counter(), suffix@), envelope.request));
        }
        Ok(PreparedRequest { request_id, line })
    }

    /// Start the initialize handshake: a no-op outside streaming mode,
    /// otherwise the initialize request line to write. The handshake reads
    /// responses directly, so the identifier is not registered for
    /// correlation.
    pub fn begin_initialize(&mut self, hooks_config: Option<String>, suffix: &str) -> (r:
        InitializeStart)
        requires
            old(self).wf(),
        ensures
            final(self).wf(),
            !old(self).streaming() ==> {
                &&& r == InitializeStart::NotStreaming
                &&& *final(self) == *old(self)
            },
            old(self).streaming() ==> {
                &&& r matches InitializeStart::Send { request_id, line } && request_id@
                    == request_id_text(old(self).counter(), suffix@) && line@ == request_line(
                    request_id_text(old(self).counter(), suffix@),
                    SDKControlRequestVariant::Initialize { hooks: hooks_config },
                )
                &&& final(self).counter() == (if old(self).counter() == u64::MAX {
                    0u64
                } else {
                    (old(self).counter() + 1) as u64
                })
                &&& final(self).pending_ids() == old(self).pending_ids()
                &&& final(self).queued() == old(self).queued()
                &&& final(self).hook_ids() == old(self).hook_ids()
                &&& final(self).streaming() == old(self).streaming()
                &&& final(self).has_permission() == old(self).has_permission()
                &&& final(self).callback_counter() == old(self).callback_counter()
                &&& final(self).is_initialized() == old(self).is_initialized()
                &&& final(self).init_result() == old(self).init_result()
            },
    {
        if !self.is_streaming {
            return InitializeStart::NotStreaming;
        }
        let request_id = self.next_request_id(suffix);
        let envelope = SDKControlRequest::new(
            request_id.as_str(),
            SDKControlRequestVariant::Initialize { hooks: hooks_config },
        );
        let mut line = envelope.to_json();
        line.append("\n");
        proof {
            assert(line@ =~= request_line(
                request_id_text(old(self).counter(), suffix@),
                envelope.request,
            ));
        }
        InitializeStart::Send { request_id, line }
    }

    /// Record that the initialize handshake succeeded with this payload.
    pub fn complete_initialize(&mut self, result: String)
        requires
            old(self).wf(),
        ensures
            final(self).wf(),
            final(self).is_initialized(),
            final(self).init_result() == Some(result@),
            final(self).pending_ids() == old(self).pending_ids(),
            final(self).queued() == old(self).queued(),
            final(self).hook_ids() == old(self).hook_ids(),
            final(self).streaming() == old(self).streaming(),
            final(self).has_permission() == old(self).has_permission(),
            final(self).counter() == old(self).counter(),
            final(self).callback_counter() == old(self).callback_counter(),
    {
        self.initialized = true;
        self.initialization_result = Some(result);
    }

    /// The payload the initialize handshake returned, if it completed.
    pub fn initialization_result(&self) -> (r: Option<&String>)
        ensures
            match r {
                Some(p) => self.init_result() == Some(p@),
                None => self.init_result() is None,
            },
    {
        self.initialization_result.as_ref()
    }

    /// Release the correlation slot of a request whose wait timed out. A
    /// response arriving later finds no waiter and is dropped.
    pub fn on_timeout(&mut self, request_id: &str)
        requires
            old(self).wf(),
        ensures
            final(self).wf(),
            !final(self).has_pending(request_id@),
            forall|x: Seq<char>|
                x != request_id@ ==> final(self).has_pending(x) == old(self).has_pending(x),
            final(self).queued() == old(self).queued(),
            final(self).config_unchanged(old(self)),
    {
        self.pending.resolve(request_id);
        proof {
            assert forall|x: Seq<char>| x != request_id@ implies self.has_pending(x) == old(
                self,
            ).has_pending(x) by {
                assert(self.pending.has_pending(x) == old(self).pending.has_pending(x));
            }
        }
    }

    /// Hand over the queued control responses, in enqueue order, leaving the
    /// queue empty. The caller writes each to the child.
    pub fn take_outgoing(&mut self) -> (r: Vec<String>)
        requires
            old(self).wf(),
        ensures
            final(self).wf(),
            r.deep_view() == old(self).queued(),
            final(self).queued() == Seq::<Seq<char>>::empty(),
            final(self).pending_ids() == old(self).pending_ids(),
            final(self).config_unchanged(old(self)),
    {
        let mut taken: Vec<String> = Vec::new();
        core::mem::swap(&mut taken, &mut self.outgoing);
        proof {
            assert(self.queued() =~= Seq::<Seq<char>>::empty());
        }
        taken
    }

    /// Queue the success response answering a permission request: the
    /// callback's decision rendered as the wire payload, against the
    /// original input.
    pub fn complete_permission(
        &mut self,
        request_id: &str,
        result: &PermissionResult,
        original_input: &str,
    )
        requires
            old(self).wf(),
        ensures
            final(self).wf(),
            final(self).queued() == old(self).queued().push(
                success_line(
                    request_id@,
                    Some(permission_payload_json(*result, original_input@)),
                ),
            ),
            final(self).pending_ids() == old(self).pending_ids(),
            final(self).config_unchanged(old(self)),
    {
        let payload = permission_result_payload(result, original_input);
        let line = success_response_line(request_id, Some(payload.as_str()));
        let ghost before = self.queued();
        self.outgoing.push(line);
        proof {
            assert(self.queued() =~= before.push(
                success_line(
                    request_id@,
                    Some(permission_payload_json(*result, original_input@)),
                ),
            ));
        }
    }

    /// Queue the success response answering a hook request: the hook's
    /// structured output stands as the payload unchanged.
    pub fn complete_hook(&mut self, request_id: &str, output_json: &str)
        requires
            old(self).wf(),
        ensures
            final(self).wf(),
            final(self).queued() == old(self).queued().push(
                success_line(request_id@, Some(output_json@)),
            ),
            final(self).pending_ids() == old(self).pending_ids(),
            final(self).config_unchanged(old(self)),
    {
        let line = success_response_line(request_id, Some(output_json));
        let ghost before = self.queued();
        self.outgoing.push(line);
        proof {
            assert(self.queued() =~= before.push(success_line(request_id@, Some(output_json@))));
        }
    }

    /// Queue the error response for a callback that failed: the failure is
    /// reported to the child, not to the caller, and the receive loop goes
    /// on.
    pub fn fail_callback(&mut self, request_id: &str, error: &str)
        requires
            old(self).wf(),
        ensures
            final(self).wf(),
            final(self).queued() == old(self).queued().push(error_line(request_id@, error@)),
            final(self).pending_ids() == old(self).pending_ids(),
            final(self).config_unchanged(old(self)),
    {
        let line = error_response_line(request_id, error);
        let ghost before = self.queued();
        self.outgoing.push(line);
        proof {
            assert(self.queued() =~= before.push(error_line(request_id@, error@)));
        }
    }

    /// Whether this document answers the initialize handshake for
    /// `request_id`, and how. Anything else, a response to another request
    /// included, is not ours and the handshake keeps reading.
    pub fn check_initialize_response(line: &str, request_id: &str) -> (r: InitCheck)
        ensures
            ({
                let c = classify_line(line@);
                match c {
                    SpecInbound::Response(rid, o) => {
                        if rid == request_id@ {
                            match o {
                                SpecOutcome::Success(p) => r matches InitCheck::Succeeded(s) && s@
                                    == p,
                                SpecOutcome::Failure(e) => r matches InitCheck::Failed(f) && f@
                                    == e,
                            }
                        } else {
                            r == InitCheck::NotOurs
                        }
                    },
                    _ => r == InitCheck::NotOurs,
                }
            }),
    {
        proof {
            lemma_envelope_literals_distinct();
        }
        let t = match get_string_field(line, "type") {
            Some(t) => t,
            None => {
                return InitCheck::NotOurs;
            },
        };
        if !str_eq(t.as_str(), "control_response") {
            return InitCheck::NotOurs;
        }
        match classify_response_exec(line) {
            Some((rid, outcome)) => {
                if str_eq(rid.as_str(), request_id) {
                    match outcome {
                        ControlOutcome::Success(p) => InitCheck::Succeeded(p),
                        ControlOutcome::Failure(e) => InitCheck::Failed(e),
                    }
                } else {
                    InitCheck::NotOurs
                }
            },
            None => InitCheck::NotOurs,
        }
    }

    /// Classify one inbound document and apply its effect: resolve a
    /// correlation, answer or hand over a control request, skip a cancel
    /// notice, or decode a data message. Only a data message that does not
    /// parse is an error; every control-shaped document is handled or
    /// dropped silently.
    pub fn handle_inbound(&mut self, line: &str) -> (r: Result<
        InboundDisposition,
        ClaudeSDKError,
    >)
        requires
            old(self).wf(),
        ensures
            final(self).wf(),
            final(self).config_unchanged(old(self)),
            match classify_line(line@) {
                SpecInbound::Response(rid, o) => {
                    &&& final(self).queued() == old(self).queued()
                    &&& if old(self).has_pending(rid) {
                        &&& r matches Ok(InboundDisposition::ResponseResolved { request_id, outcome })
                            && request_id@ == rid && outcome_is(outcome, o)
                        &&& !final(self).has_pending(rid)
                        &&& forall|x: Seq<char>|
                            x != rid ==> final(self).has_pending(x) == old(self).has_pending(x)
                    } else {
                        &&& r == Ok::<InboundDisposition, ClaudeSDKError>(InboundDisposition::ResponseDropped)
                        &&& final(self).pending_ids() == old(self).pending_ids()
                    }
                },
                SpecInbound::ResponseMalformed => {
                    &&& r == Ok::<InboundDisposition, ClaudeSDKError>(InboundDisposition::ResponseDropped)
                    &&& final(self).pending_ids() == old(self).pending_ids()
                    &&& final(self).queued() == old(self).queued()
                },
                SpecInbound::Request(req) => {
                    &&& final(self).pending_ids() == old(self).pending_ids()
                    &&& match req {
                        SpecRequest::CanUse { rid, tool_name, input } => {
                            if old(self).has_permission() {
                                &&& r matches Ok(
                                    InboundDisposition::CallbackNeeded(
                                        CallbackRequest::Permission {
                                            request_id,
                                            tool_name: t,
                                            input: i,
                                        },
                                    ),
                                ) && request_id@ == rid && t@ == tool_name && i@ == input
                                &&& final(self).queued() == old(self).queued()
                            } else {
                                &&& r == Ok::<InboundDisposition, ClaudeSDKError>(InboundDisposition::Answered)
                                &&& final(self).queued() == old(self).queued().push(
                                    error_line(rid, no_permission_callback_text()),
                                )
                            }
                        },
                        SpecRequest::Hook { rid, callback_id, input, tool_use_id } => {
                            if old(self).hook_ids().contains(callback_id) {
                                &&& r matches Ok(
                                    InboundDisposition::CallbackNeeded(
                                        CallbackRequest::Hook {
                                            request_id,
                                            callback_id: c,
                                            input: i,
                                            tool_use_id: tid,
                                        },
                                    ),
                                ) && request_id@ == rid && c@ == callback_id && i@ == input
                                    && tid.deep_view() == tool_use_id
                                &&& final(self).queued() == old(self).queued()
                            } else {
                                &&& r == Ok::<InboundDisposition, ClaudeSDKError>(InboundDisposition::Answered)
                                &&& final(self).queued() == old(self).queued().push(
                                    error_line(rid, unknown_hook_text(callback_id)),
                                )
                            }
                        },
                        SpecRequest::Mcp { rid, server_name, message } => {
                            &&& r == Ok::<InboundDisposition, ClaudeSDKError>(InboundDisposition::Answered)
                            &&& final(self).queued() == old(self).queued().push(
                                success_line(
                                    rid,
                                    Some(
                                        mcp_unroutable_json(
                                            server_name,
                                            json_raw_field(message, "id"@),
                                        ),
                                    ),
                                ),
                            )
                        },
                        SpecRequest::Other { rid, subtype } => {
                            &&& r == Ok::<InboundDisposition, ClaudeSDKError>(InboundDisposition::Answered)
                            &&& final(self).queued() == old(self).queued().push(
                                error_line(rid, unsupported_request_text(subtype)),
                            )
                        },
                        SpecRequest::Malformed => {
                            &&& r == Ok::<InboundDisposition, ClaudeSDKError>(InboundDisposition::RequestDropped)
                            &&& final(self).queued() == old(self).queued()
                        },
                    }
                },
                SpecInbound::Cancel => {
                    &&& r == Ok::<InboundDisposition, ClaudeSDKError>(InboundDisposition::CancelAcknowledged)
                    &&& final(self).pending_ids() == old(self).pending_ids()
                    &&& final(self).queued() == old(self).queued()
                },
                SpecInbound::Data => {
                    &&& final(self).pending_ids() == old(self).pending_ids()
                    &&& final(self).queued() == old(self).queued()
                    &&& match r {
                        Ok(InboundDisposition::Data(m)) => message_parses_to(line@, m)
                            && !message_parse_fails(line@),
                        Ok(_) => false,
                        Err(e) => message_parse_fails(line@) && e matches
                            ClaudeSDKError::MessageParse { .. },
                    }
                },
            },
    {
        proof {
            lemma_envelope_literals_distinct();
        }
        let t = get_string_field(line, "type");
        let is_response = match &t {
            Some(tv) => str_eq(tv.as_str(), "control_response"),
            None => false,
        };
        if is_response {
            match classify_response_exec(line) {
                Some((rid, outcome)) => {
                    if self.pending.resolve(rid.as_str()) {
                        proof {
                            assert forall|x: Seq<char>| x != rid@ implies self.has_pending(x)
                                == old(self).has_pending(x) by {
                                assert(self.pending.has_pending(x) == old(
                                    self,
                                ).pending.has_pending(x));
                            }
                        }
                        return Ok(
                            InboundDisposition::ResponseResolved { request_id: rid, outcome },
                        );
                    }
                    return Ok(InboundDisposition::ResponseDropped);
                },
                None => {
                    return Ok(InboundDisposition::ResponseDropped);
                },
            }
        }
        let is_request = match &t {
            Some(tv) => str_eq(tv.as_str(), "control_request"),
            None => false,
        };
        if is_request {
            return Ok(self.handle_control_request(line));
        }
        let is_cancel = match &t {
            Some(tv) => str_eq(tv.as_str(), "control_cancel_request"),
            None => false,
        };
        if is_cancel {
            return Ok(InboundDisposition::CancelAcknowledged);
        }
        match parse_message(line) {
            Ok(m) => Ok(InboundDisposition::Data(m)),
            Err(e) => Err(e),
        }
    }

    /// Dispatch one inbound control request: decide which callback it needs,
    /// or answer it directly into the outgoing queue.
    fn handle_control_request(&mut self, line: &str) -> (r: InboundDisposition)
        requires
            old(self).wf(),
        ensures
            final(self).wf(),
            final(self).config_unchanged(old(self)),
            final(self).pending_ids() == old(self).pending_ids(),
            match classify_request(line@) {
                SpecRequest::CanUse { rid, tool_name, input } => {
                    if old(self).has_permission() {
                        &&& r matches InboundDisposition::CallbackNeeded(
                            CallbackRequest::Permission { request_id, tool_name: t, input: i },
                        ) && request_id@ == rid && t@ == tool_name && i@ == input
                        &&& final(self).queued() == old(self).queued()
                    } else {
                        &&& r == InboundDisposition::Answered
                        &&& final(self).queued() == old(self).queued().push(
                            error_line(rid, no_permission_callback_text()),
                        )
                    }
                },
                SpecRequest::Hook { rid, callback_id, input, tool_use_id } => {
                    if old(self).hook_ids().contains(callback_id) {
                        &&& r matches InboundDisposition::CallbackNeeded(
                            CallbackRequest::Hook {
                                request_id,
                                callback_id: c,
                                input: i,
                                tool_use_id: tid,
                            },
                        ) && request_id@ == rid && c@ == callback_id && i@ == input
                            && tid.deep_view() == tool_use_id
                        &&& final(self).queued() == old(self).queued()
                    } else {
                        &&& r == InboundDisposition::Answered
                        &&& final(self).queued() == old(self).queued().push(
                            error_line(rid, unknown_hook_text(callback_id)),
                        )
                    }
                },
                SpecRequest::Mcp { rid, server_name, message } => {
                    &&& r == InboundDisposition::Answered
                    &&& final(self).queued() == old(self).queued().push(
                        success_line(
                            rid,
                            Some(mcp_unroutable_json(server_name, json_raw_field(message, "id"@))),
                        ),
                    )
                },
                SpecRequest::Other { rid, subtype } => {
                    &&& r == InboundDisposition::Answered
                    &&& final(self).queued() == old(self).queued().push(
                        error_line(rid, unsupported_request_text(subtype)),
                    )
                },
                SpecRequest::Malformed => {
                    &&& r == InboundDisposition::RequestDropped
                    &&& final(self).queued() == old(self).queued()
                },
            },
    {
        proof {
            lemma_subtype_literals_distinct();
        }
        let rid = match get_string_field(line, "request_id") {
            Some(rid) => rid,
            None => {
                return InboundDisposition::RequestDropped;
            },
        };
        let req = match get_raw_field(line, "request") {
            Some(req) => req,
            None => {
                return InboundDisposition::RequestDropped;
            },
        };
        let st = match get_string_field(req.as_str(), "subtype") {
            Some(st) => st,
            None => {
                return InboundDisposition::RequestDropped;
            },
        };
        if str_eq(st.as_str(), "can_use_tool") {
            let tool_name = match get_string_field(req.as_str(), "tool_name") {
                Some(t) => t,
                None => {
                    return InboundDisposition::RequestDropped;
                },
            };
            let input = match get_raw_field(req.as_str(), "input") {
                Some(i) => i,
                None => {
                    return InboundDisposition::RequestDropped;
                },
            };
            if self.has_permission_callback {
                InboundDisposition::CallbackNeeded(
                    CallbackRequest::Permission { request_id: rid, tool_name, input },
                )
            } else {
                let msg = "Control protocol error: canUseTool callback is not provided";
                let ghost before = self.queued();
                let response = error_response_line(rid.as_str(), msg);
                self.outgoing.push(response);
                proof {
                    assert(self.queued() =~= before.push(
                        error_line(rid@, no_permission_callback_text()),
                    ));
                }
                InboundDisposition::Answered
            }
        } else if str_eq(st.as_str(), "hook_callback") {
            let callback_id = match get_string_field(req.as_str(), "callback_id") {
                Some(c) => c,
                None => {
                    return InboundDisposition::RequestDropped;
                },
            };
            let input = match get_raw_field(req.as_str(), "input") {
                Some(i) => i,
                None => {
                    return InboundDisposition::RequestDropped;
                },
            };
            let tool_use_id = get_string_field(req.as_str(), "tool_use_id");
            if self.hook_id_registered(callback_id.as_str()) {
                InboundDisposition::CallbackNeeded(
                    CallbackRequest::Hook { request_id: rid, callback_id, input, tool_use_id },
                )
            } else {
                let mut msg = String::from_str(
                    "Control protocol error: No hook callback found for ID: ",
                );
                msg.append(callback_id.as_str());
                let ghost before = self.queued();
                let response = error_response_line(rid.as_str(), msg.as_str());
                self.outgoing.push(response);
                proof {
                    assert(msg@ =~= unknown_hook_text(callback_id@));
                    assert(self.queued() =~= before.push(
                        error_line(rid@, unknown_hook_text(callback_id@)),
                    ));
                }
                InboundDisposition::Answered
            }
        } else if str_eq(st.as_str(), "mcp_message") {
            let server_name = match get_string_field(req.as_str(), "server_name") {
                Some(n) => n,
                None => {
                    return InboundDisposition::RequestDropped;
                },
            };
            let message = match get_raw_field(req.as_str(), "message") {
                Some(m) => m,
                None => {
                    return InboundDisposition::RequestDropped;
                },
            };
            let id_raw = get_raw_field(message.as_str(), "id");
            let payload = mcp_unroutable_payload(server_name.as_str(), id_raw);
            let ghost before = self.queued();
            let response = success_response_line(rid.as_str(), Some(payload.as_str()));
            self.outgoing.push(response);
            proof {
                assert(self.queued() =~= before.push(
                    success_line(
                        rid@,
                        Some(mcp_unroutable_json(server_name@, json_raw_field(message@, "id"@))),
                    ),
                ));
            }
            InboundDisposition::Answered
        } else if str_eq(st.as_str(), "interrupt") || str_eq(st.as_str(), "initialize") || str_eq(
            st.as_str(),
            "set_permission_mode",
        ) || str_eq(st.as_str(), "set_model") || str_eq(st.as_str(), "rewind_files") || str_eq(
            st.as_str(),
            "mcp_status",
        ) {
            let mut msg = String::from_str("Control protocol error: Unsupported control request: ");
            msg.append(st.as_str());
            let ghost before = self.queued();
            let response = error_response_line(rid.as_str(), msg.as_str());
            self.outgoing.push(response);
            proof {
                assert(msg@ =~= unsupported_request_text(st@));
                assert(self.queued() =~= before.push(
                    error_line(rid@, unsupported_request_text(st@)),
                ));
            }
            InboundDisposition::Answered
        } else {
            InboundDisposition::RequestDropped
        }
    }

    /// Whether a hook callback identifier is registered.
    fn hook_id_registered(&self, id: &str) -> (r: bool)
        ensures
            r == self.hook_ids().contains(id@),
    {
        let n = self.hook_callback_ids.len();
        let mut k: usize = 0;
        while k < n
            invariant
                n == self.hook_ids().len(),
                k <= n,
                forall|j: int| 0 <= j < k ==> self.hook_ids()[j] != id@,
            decreases n - k,
        {
            if str_eq(self.hook_callback_ids[k].as_str(), id) {
                proof {
                    assert(self.hook_ids()[k as int] == id@);
                }
                return true;
            }
            k = k + 1;
        }
        false
    }
}

/// Read a `control_response` document into its request id and outcome.
fn classify_response_exec(line: &str) -> (r: Option<(String, ControlOutcome)>)
    ensures
        match r {
            Some((rid, o)) => classify_response(line@) matches Some((srid, so)) && rid@ == srid
                && outcome_is(o, so),
            None => classify_response(line@) is None,
        },
{
    proof {
        lemma_envelope_literals_distinct();
    }
    let resp = match get_raw_field(line, "response") {
        Some(resp) => resp,
        None => {
            return None;
        },
    };
    let rid = match get_string_field(resp.as_str(), "request_id") {
        Some(rid) => rid,
        None => {
            return None;
        },
    };
    let st = match get_string_field(resp.as_str(), "subtype") {
        Some(st) => st,
        None => {
            return None;
        },
    };
    if str_eq(st.as_str(), "success") {
        let payload = get_raw_field(resp.as_str(), "response").unwrap_or(
            String::from_str("null"),
        );
        Some((rid, ControlOutcome::Success(payload)))
    } else if str_eq(st.as_str(), "error") {
        match get_string_field(resp.as_str(), "error") {
            Some(e) => Some((rid, ControlOutcome::Failure(e))),
            None => None,
        }
    } else {
        None
    }
}

/// The envelope type names and response subtypes are pairwise distinct.
proof fn lemma_envelope_literals_distinct()
    ensures
        "control_response"@ != "control_request"@,
        "control_response"@ != "control_cancel_request"@,
        "control_request"@ != "control_cancel_request"@,
        "success"@ != "error"@,
{
    broadcast use vstd::string::group_string_axioms;

    reveal_strlit("control_response");
    reveal_strlit("control_request");
    reveal_strlit("control_cancel_request");
    reveal_strlit("success");
    reveal_strlit("error");
    assert("control_response"@.len() == 16);
    assert("control_request"@.len() == 15);
    assert("control_cancel_request"@.len() == 22);
    assert("success"@.len() == 7);
    assert("error"@.len() == 5);
}

/// The request subtype names are pairwise distinct.
proof fn lemma_subtype_literals_distinct()
    ensures
        "can_use_tool"@ != "hook_callback"@,
        "can_use_tool"@ != "mcp_message"@,
        "can_use_tool"@ != "interrupt"@,
        "can_use_tool"@ != "initialize"@,
        "can_use_tool"@ != "set_permission_mode"@,
        "can_use_tool"@ != "set_model"@,
        "can_use_tool"@ != "rewind_files"@,
        "can_use_tool"@ != "mcp_status"@,
        "hook_callback"@ != "mcp_message"@,
        "hook_callback"@ != "interrupt"@,
        "hook_callback"@ != "initialize"@,
        "hook_callback"@ != "set_permission_mode"@,
        "hook_callback"@ != "set_model"@,
        "hook_callback"@ != "rewind_files"@,
        "hook_callback"@ != "mcp_status"@,
        "mcp_message"@ != "interrupt"@,
        "mcp_message"@ != "initialize"@,
        "mcp_message"@ != "set_permission_mode"@,
        "mcp_message"@ != "set_model"@,
        "mcp_message"@ != "rewind_files"@,
        "mcp_message"@ != "mcp_status"@,
        "interrupt"@ != "initialize"@,
        "interrupt"@ != "set_permission_mode"@,
        "interrupt"@ != "set_model"@,
        "interrupt"@ != "rewind_files"@,
        "interrupt"@ != "mcp_status"@,
        "initialize"@ != "set_permission_mode"@,
        "initialize"@ != "set_model"@,
        "initialize"@ != "rewind_files"@,
        "initialize"@ != "mcp_status"@,
        "set_permission_mode"@ != "set_model"@,
        "set_permission_mode"@ != "rewind_files"@,
        "set_permission_mode"@ != "mcp_status"@,
        "set_model"@ != "rewind_files"@,
        "set_model"@ != "mcp_status"@,
        "rewind_files"@ != "mcp_status"@,
{
    broadcast use vstd::string::group_string_axioms;

    reveal_strlit("can_use_tool");
    reveal_strlit("hook_callback");
    reveal_strlit("mcp_message");
    reveal_strlit("interrupt");
    reveal_strlit("initialize");
    reveal_strlit("set_permission_mode");
    reveal_strlit("set_model");
    reveal_strlit("rewind_files");
    reveal_strlit("mcp_status");
    assert("can_use_tool"@.len() == 12);
    assert("hook_callback"@.len() == 13);
    assert("mcp_message"@.len() == 11);
    assert("interrupt"@.len() == 9);
    assert("initialize"@.len() == 10);
    assert("set_permission_mode"@.len() == 19);
    assert("set_model"@.len() == 9);
    assert("rewind_files"@.len() == 12);
    assert("mcp_status"@.len() == 10);
    assert("interrupt"@[0] == 'i');
    assert("set_model"@[0] == 's');
    assert("can_use_tool"@[0] == 'c');
    assert("rewind_files"@[0] == 'r');
    assert("initialize"@[0] == 'i');
    assert("mcp_status"@[0] == 'm');
    assert("initialize"@[1] == 'n');
    assert("mcp_status"@[1] == 'c');
}

/// The matcher list of one event entry.
pub open spec fn ms_of(e: (HookEvent, Vec<HookMatcherConfig>)) -> Seq<HookMatcherConfig> {
    e.1@
}

/// Minting identifiers for consecutive counters appends to the sequence.
proof fn lemma_ids_from_concat(start: int, a: int, b: int)
    requires
        a >= 0,
        b >= 0,
    ensures
        ids_from(start, a + b) == ids_from(start, a) + ids_from(start + a, b),
    decreases b,
{
    if b == 0 {
        assert(ids_from(start + a, 0) =~= Seq::<Seq<char>>::empty());
        assert(ids_from(start, a) + Seq::<Seq<char>>::empty() =~= ids_from(start, a));
    } else {
        lemma_ids_from_concat(start, a, b - 1);
        assert(ids_from(start, a + b) == ids_from(start, a + b - 1).push(
            callback_id_text((start + a + b - 1) as u64),
        ));
        assert((ids_from(start, a) + ids_from(start + a, b - 1)).push(
            callback_id_text((start + a + b - 1) as u64),
        ) =~= ids_from(start, a) + ids_from(start + a, b - 1).push(
            callback_id_text((start + a + b - 1) as u64),
        ));
    }
}

/// A matcher list's hook total is never negative.
proof fn lemma_matchers_total_nonneg(ms: Seq<HookMatcherConfig>)
    ensures
        matchers_hook_total(ms) >= 0,
    decreases ms.len(),
{
    if ms.len() > 0 {
        lemma_matchers_total_nonneg(ms.drop_last());
    }
}

/// A prefix of a matcher list holds at most the whole list's hooks.
proof fn lemma_matchers_total_prefix_bound(ms: Seq<HookMatcherConfig>, j: int)
    requires
        0 <= j <= ms.len(),
    ensures
        matchers_hook_total(ms.subrange(0, j)) <= matchers_hook_total(ms),
    decreases ms.len() - j,
{
    if j == ms.len() {
        assert(ms.subrange(0, j) =~= ms);
    } else {
        assert(ms.subrange(0, j + 1).drop_last() =~= ms.subrange(0, j));
        assert(ms.subrange(0, j + 1).last() == ms[j]);
        lemma_matchers_total_prefix_bound(ms, j + 1);
    }
}

/// An event list's hook total is never negative.
proof fn lemma_events_total_nonneg(evs: Seq<(HookEvent, Vec<HookMatcherConfig>)>)
    ensures
        events_hook_total(evs) >= 0,
    decreases evs.len(),
{
    if evs.len() > 0 {
        lemma_events_total_nonneg(evs.drop_last());
        lemma_matchers_total_nonneg(evs.last().1@);
    }
}

/// A prefix of an event list holds at most the whole list's hooks.
proof fn lemma_events_total_prefix_bound(evs: Seq<(HookEvent, Vec<HookMatcherConfig>)>, j: int)
    requires
        0 <= j <= evs.len(),
    ensures
        events_hook_total(evs.subrange(0, j)) <= events_hook_total(evs),
    decreases evs.len() - j,
{
    if j == evs.len() {
        assert(evs.subrange(0, j) =~= evs);
    } else {
        assert(evs.subrange(0, j + 1).drop_last() =~= evs.subrange(0, j));
        assert(evs.subrange(0, j + 1).last() == evs[j]);
        lemma_matchers_total_nonneg(evs[j].1@);
        lemma_events_total_prefix_bound(evs, j + 1);
    }
}

/// Append one matcher object built around already-minted identifiers.
fn push_matcher_with_ids(s: &mut String, m: &HookMatcherConfig, ids: &Vec<String>)
    ensures
        final(s)@ == old(s)@ + ("{\"matcher\":"@ + (match m.matcher {
            Some(p) => json_quoted(p@),
            None => "null"@,
        }) + ",\"hookCallbackIds\":"@ + string_array_json(ids.deep_view()) + (match m.timeout {
            Some(t) => ",\"timeout\":"@ + dec_str(t as nat),
            None => Seq::<char>::empty(),
        }) + seq!['}']),
{
    s.append("{\"matcher\":");
    match &m.matcher {
        Some(p) => push_json_quoted(s, p.as_str()),
        None => s.append("null"),
    }
    s.append(",\"hookCallbackIds\":");
    push_string_array(s, ids);
    if let Some(t) = m.timeout {
        s.append(",\"timeout\":");
        push_dec_u64(s, t);
    }
    push_char(s, '}');
    assert(final(s)@ =~= old(s)@ + ("{\"matcher\":"@ + (match m.matcher {
        Some(p) => json_quoted(p@),
        None => "null"@,
    }) + ",\"hookCallbackIds\":"@ + string_array_json(ids.deep_view()) + (match m.timeout {
        Some(t) => ",\"timeout\":"@ + dec_str(t as nat),
        None => Seq::<char>::empty(),
    }) + seq!['}']));
}

impl ProtocolEngine {
    /// Mint `count` fresh hook callback identifiers, registering each.
    fn mint_callback_ids(&mut self, count: usize) -> (r: Vec<String>)
        requires
            old(self).wf(),
            old(self).callback_counter() as int + count as int <= u64::MAX as int,
        ensures
            final(self).wf(),
            r.deep_view() == ids_from(old(self).callback_counter() as int, count as int),
            final(self).callback_counter() as int == old(self).callback_counter() as int
                + count as int,
            final(self).hook_ids() == old(self).hook_ids() + r.deep_view(),
            final(self).pending_ids() == old(self).pending_ids(),
            final(self).queued() == old(self).queued(),
            final(self).streaming() == old(self).streaming(),
            final(self).has_permission() == old(self).has_permission(),
            final(self).counter() == old(self).counter(),
            final(self).is_initialized() == old(self).is_initialized(),
            final(self).init_result() == old(self).init_result(),
    {
        let ghost start = old(self).callback_counter() as int;
        let mut out: Vec<String> = Vec::new();
        let mut j: usize = 0;
        proof {
            assert(out.deep_view() =~= ids_from(start, 0));
            assert(self.hook_ids() + out.deep_view() =~= self.hook_ids());
        }
        while j < count
            invariant
                j <= count,
                start + count as int <= u64::MAX as int,
                self.callback_counter() as int == start + j as int,
                out.deep_view() == ids_from(start, j as int),
                self.hook_ids() == old(self).hook_ids() + out.deep_view(),
                self.pending_ids() == old(self).pending_ids(),
                self.queued() == old(self).queued(),
                self.streaming() == old(self).streaming(),
                self.has_permission() == old(self).has_permission(),
                self.counter() == old(self).counter(),
                self.is_initialized() == old(self).is_initialized(),
                self.init_result() == old(self).init_result(),
                self.wf(),
            decreases count - j,
        {
            let mut id = String::from_str("hook_");
            let n = dec_u64_string(self.next_callback_id);
            id.append(n.as_str());
            proof {
                assert(id@ =~= callback_id_text((start + j as int) as u64));
            }
            let ghost prev_out = out.deep_view();
            let ghost prev_hooks = self.hook_ids();
            out.push(id.clone());
            self.hook_callback_ids.push(id);
            self.next_callback_id = self.next_callback_id + 1;
            proof {
                assert(out.deep_view() =~= prev_out.push(
                    callback_id_text((start + j as int) as u64),
                ));
                assert(self.hook_ids() =~= prev_hooks.push(
                    callback_id_text((start + j as int) as u64),
                ));
                assert(old(self).hook_ids() + out.deep_view() =~= prev_hooks.push(
                    callback_id_text((start + j as int) as u64),
                ));
            }
            j = j + 1;
        }
        out
    }

    /// Append one event's entry (the event name and its matcher array) to
    /// the configuration body, minting and registering the callback
    /// identifiers its hooks need.
    #[verifier::rlimit(100)]
    fn append_event(
        &mut self,
        body: &mut String,
        all_ids: &mut Vec<String>,
        event: HookEvent,
        matchers: &Vec<HookMatcherConfig>,
    )
        requires
            old(self).wf(),
            matchers@.len() > 0,
            old(self).callback_counter() as int + matchers_hook_total(matchers@) <= u64::MAX as int,
        ensures
            final(self).wf(),
            final(body)@ == old(body)@ + (if old(body)@.len() == 0 {
                Seq::<char>::empty()
            } else {
                seq![',']
            }) + json_quoted(hook_event_str(event)) + seq![':'] + matchers_array(
                matchers@,
                old(self).callback_counter() as int,
            ),
            final(all_ids).deep_view() == old(all_ids).deep_view() + ids_from(
                old(self).callback_counter() as int,
                matchers_hook_total(matchers@),
            ),
            final(self).callback_counter() as int == old(self).callback_counter() as int
                + matchers_hook_total(matchers@),
            final(self).hook_ids() == old(self).hook_ids() + ids_from(
                old(self).callback_counter() as int,
                matchers_hook_total(matchers@),
            ),
            final(self).pending_ids() == old(self).pending_ids(),
            final(self).queued() == old(self).queued(),
            final(self).streaming() == old(self).streaming(),
            final(self).has_permission() == old(self).has_permission(),
            final(self).counter() == old(self).counter(),
            final(self).is_initialized() == old(self).is_initialized(),
            final(self).init_result() == old(self).init_result(),
    {
        let ghost estart = old(self).callback_counter() as int;
        let ghost ms = matchers@;
        let ghost prev_body = old(body)@;
        if !body.as_str().is_empty() {
            push_char(body, ',');
        }
        push_json_quoted(body, event.as_str());
        push_char(body, ':');
        push_char(body, '[');
        let ghost entry_head = prev_body + (if prev_body.len() == 0 {
            Seq::<char>::empty()
        } else {
            seq![',']
        }) + json_quoted(hook_event_str(event)) + seq![':'] + seq!['['];
        proof {
            assert(body@ =~= entry_head);
            assert(ms.subrange(0, 0) =~= Seq::<HookMatcherConfig>::empty());
            lemma_matchers_total_nonneg(ms);
            assert(all_ids.deep_view() + ids_from(estart, 0) =~= all_ids.deep_view());
        }
        let mn = matchers.len();
        let mut k: usize = 0;
        while k < mn
            invariant
                k <= mn,
                mn == matchers.len(),
                ms == matchers@,
                estart + matchers_hook_total(ms) <= u64::MAX as int,
                self.callback_counter() as int == estart + matchers_hook_total(
                    ms.subrange(0, k as int),
                ),
                body@ == entry_head + matchers_body(ms.subrange(0, k as int), estart),
                all_ids.deep_view() == old(all_ids).deep_view() + ids_from(
                    estart,
                    matchers_hook_total(ms.subrange(0, k as int)),
                ),
                self.hook_ids() == old(self).hook_ids() + ids_from(
                    estart,
                    matchers_hook_total(ms.subrange(0, k as int)),
                ),
                self.pending_ids() == old(self).pending_ids(),
                self.queued() == old(self).queued(),
                self.streaming() == old(self).streaming(),
                self.has_permission() == old(self).has_permission(),
                self.counter() == old(self).counter(),
                self.is_initialized() == old(self).is_initialized(),
                self.init_result() == old(self).init_result(),
                self.wf(),
            decreases mn - k,
        {
            proof {
                assert(ms.subrange(0, k as int + 1).drop_last() =~= ms.subrange(0, k as int));
                assert(ms.subrange(0, k as int + 1).last() == ms[k as int]);
                lemma_matchers_total_prefix_bound(ms, k as int + 1);
                lemma_matchers_total_nonneg(ms.subrange(0, k as int));
            }
            if k > 0 {
                push_char(body, ',');
            }
            let ghost mstart = estart + matchers_hook_total(ms.subrange(0, k as int));
            let ghost hooks_before = self.hook_ids();
            let ids = self.mint_callback_ids(matchers[k].hook_count);
            push_matcher_with_ids(body, &matchers[k], &ids);
            let ghost prev_all = all_ids.deep_view();
            append_all(all_ids, &ids);
            proof {
                assert(ms[k as int] == matchers[k as int]);
                assert(ids.deep_view() == ids_from(mstart, matchers[k as int].hook_count as int));
                assert(matcher_json(ms[k as int], mstart) == "{\"matcher\":"@ + (
                match ms[k as int].matcher {
                    Some(p) => json_quoted(p@),
                    None => "null"@,
                }) + ",\"hookCallbackIds\":"@ + string_array_json(ids.deep_view()) + (
                match ms[k as int].timeout {
                    Some(t) => ",\"timeout\":"@ + dec_str(t as nat),
                    None => Seq::<char>::empty(),
                }) + seq!['}']);
                assert(body@ =~= entry_head + matchers_body(ms.subrange(0, k as int + 1), estart));
                lemma_ids_from_concat(
                    estart,
                    matchers_hook_total(ms.subrange(0, k as int)),
                    ms[k as int].hook_count as int,
                );
                assert(all_ids.deep_view() =~= old(all_ids).deep_view() + ids_from(
                    estart,
                    matchers_hook_total(ms.subrange(0, k as int + 1)),
                ));
                assert(self.hook_ids() =~= old(self).hook_ids() + ids_from(
                    estart,
                    matchers_hook_total(ms.subrange(0, k as int + 1)),
                ));
            }
            k = k + 1;
        }
        push_char(body, ']');
        proof {
            assert(ms.subrange(0, mn as int) =~= ms);
            assert(final(body)@ =~= old(body)@ + (if old(body)@.len() == 0 {
                Seq::<char>::empty()
            } else {
                seq![',']
            }) + json_quoted(hook_event_str(event)) + seq![':'] + matchers_array(ms, estart));
        }
    }

    /// Build the hooks configuration for the initialize handshake: one entry
    /// per event that has matchers, each hook assigned a fresh callback
    /// identifier, which is registered here and returned in order so the
    /// embedding application can attach its callbacks to the same names.
    /// Yields no configuration when no event has matchers.
    #[verifier::rlimit(100)]
    pub fn build_hooks_config(&mut self, hooks: &Vec<(HookEvent, Vec<HookMatcherConfig>)>) -> (r: (
        Option<String>,
        Vec<String>,
    ))
        requires
            old(self).wf(),
            old(self).callback_counter() as int + events_hook_total(hooks@)
                <= u64::MAX as int,
        ensures
            final(self).wf(),
            r.0.deep_view() == hooks_config_json(
                hooks@,
                old(self).callback_counter() as int,
            ),
            r.1.deep_view() == ids_from(
                old(self).callback_counter() as int,
                events_hook_total(hooks@),
            ),
            final(self).callback_counter() as int == old(self).callback_counter() as int
                + events_hook_total(hooks@),
            final(self).hook_ids() == old(self).hook_ids() + r.1.deep_view(),
            final(self).pending_ids() == old(self).pending_ids(),
            final(self).queued() == old(self).queued(),
            final(self).streaming() == old(self).streaming(),
            final(self).has_permission() == old(self).has_permission(),
            final(self).counter() == old(self).counter(),
            final(self).is_initialized() == old(self).is_initialized(),
            final(self).init_result() == old(self).init_result(),
    {
        let ghost evs = hooks@;
        let ghost start = old(self).callback_counter() as int;
        let mut body = String::new();
        let mut all_ids: Vec<String> = Vec::new();
        let n = hooks.len();
        let mut i: usize = 0;
        proof {
            assert(evs.subrange(0, 0) =~= Seq::<(HookEvent, Vec<HookMatcherConfig>)>::empty());
            assert(body@ =~= events_body(evs.subrange(0, 0), start));
            assert(all_ids.deep_view() =~= ids_from(start, 0));
            assert(self.hook_ids() + all_ids.deep_view() =~= self.hook_ids());
        }
        while i < n
            invariant
                i <= n,
                n == hooks.len(),
                evs == hooks@,
                start + events_hook_total(evs) <= u64::MAX as int,
                self.callback_counter() as int == start + events_hook_total(
                    evs.subrange(0, i as int),
                ),
                body@ == events_body(evs.subrange(0, i as int), start),
                all_ids.deep_view() == ids_from(
                    start,
                    events_hook_total(evs.subrange(0, i as int)),
                ),
                self.hook_ids() == old(self).hook_ids() + all_ids.deep_view(),
                self.pending_ids() == old(self).pending_ids(),
                self.queued() == old(self).queued(),
                self.streaming() == old(self).streaming(),
                self.has_permission() == old(self).has_permission(),
                self.counter() == old(self).counter(),
                self.is_initialized() == old(self).is_initialized(),
                self.init_result() == old(self).init_result(),
                self.wf(),
            decreases n - i,
        {
            proof {
                assert(evs.subrange(0, i as int + 1).drop_last() =~= evs.subrange(0, i as int));
                assert(evs.subrange(0, i as int + 1).last() == evs[i as int]);
                lemma_events_total_prefix_bound(evs, i as int + 1);
                lemma_events_total_nonneg(evs.subrange(0, i as int));
            }
            let matchers: &Vec<HookMatcherConfig> = &hooks[i].1;
            proof {
                assert(evs[i as int].1@ == matchers@);
            }
            if matchers.len() > 0 {
                let ghost prev_body = body@;
                let ghost prev_ids = all_ids.deep_view();
                let event = hooks[i].0;
                self.append_event(&mut body, &mut all_ids, event, matchers);
                proof {
                    assert(evs[i as int].0 == event);
                    assert(body@ =~= events_body(evs.subrange(0, i as int + 1), start));
                    lemma_events_total_nonneg(evs.subrange(0, i as int));
                    lemma_matchers_total_nonneg(ms_of(evs[i as int]));
                    lemma_ids_from_concat(
                        start,
                        events_hook_total(evs.subrange(0, i as int)),
                        matchers_hook_total(ms_of(evs[i as int])),
                    );
                    assert(all_ids.deep_view() =~= ids_from(
                        start,
                        events_hook_total(evs.subrange(0, i as int + 1)),
                    ));
                }
            } else {
                proof {
                    assert(evs[i as int].1@.len() == 0);
                    assert(events_body(evs.subrange(0, i as int + 1), start) == events_body(
                        evs.subrange(0, i as int),
                        start,
                    ));
                    assert(events_hook_total(evs.subrange(0, i as int + 1)) == events_hook_total(
                        evs.subrange(0, i as int),
                    ));
                }
            }
            i = i + 1;
        }
        proof {
            assert(evs.subrange(0, n as int) =~= evs);
        }
        if body.as_str().is_empty() {
            proof {
                assert(hooks_config_json(evs, start) is None);
            }
            (None, all_ids)
        } else {
            let mut cfg = String::new();
            push_char(&mut cfg, '{');
            cfg.append(body.as_str());
            push_char(&mut cfg, '}');
            proof {
                assert(cfg@ =~= seq!['{'] + events_body(evs, start) + seq!['}']);
            }
            (Some(cfg), all_ids)
        }
    }
}

/// Append every element of `extra` to `out`.
fn append_all(out: &mut Vec<String>, extra: &Vec<String>)
    ensures
        final(out).deep_view() == old(out).deep_view() + extra.deep_view(),
{
    let n = extra.len();
    let mut i: usize = 0;
    proof {
        assert(out.deep_view() + extra.deep_view().subrange(0, 0) =~= out.deep_view());
    }
    while i < n
        invariant
            i <= n,
            n == extra.len(),
            out.deep_view() == old(out).deep_view() + extra.deep_view().subrange(0, i as int),
        decreases n - i,
    {
        let ghost prev = out.deep_view();
        out.push(extra[i].clone());
        proof {
            assert(out.deep_view() =~= prev.push(extra.deep_view()[i as int]));
            assert(old(out).deep_view() + extra.deep_view().subrange(0, i as int + 1) =~= prev.push(
                extra.deep_view()[i as int],
            ));
        }
        i = i + 1;
    }
    proof {
        assert(extra.deep_view().subrange(0, n as int) =~= extra.deep_view());
    }
}

/// Relies on SystemTime::now and Duration::subsec_nanos: the sub-second part
/// of the wall clock, a value below one billion.
#[verifier::external_body]
fn clock_subsec_nanos() -> (r: u32)
    ensures
        r < 1000000000,
{
    std::time::SystemTime::now()
        .duration_since(std::time::UNIX_EPOCH)
        .unwrap_or_default()
        .subsec_nanos()
}

/// A short hexadecimal suffix drawn from the clock, used to keep request
/// identifiers from colliding across connections.
pub fn rand_hex() -> (r: String)
    ensures
        exists|n: nat| n < 1000000000 && r@ == hex_str(n),
{
    let nanos = clock_subsec_nanos();
    let r = hex_u64_string(nanos as u64);
    proof {
        assert((nanos as nat) < 1000000000);
        assert(r@ == hex_str(nanos as nat));
    }
    r
}

/// The timeout error reported when a control request exceeds its deadline.
pub fn control_timeout_error(timeout_secs: u64) -> (r: ClaudeSDKError)
    ensures
        r matches ClaudeSDKError::Timeout(m) && m@ == "Control request timed out after "@
            + dec_str(timeout_secs as nat) + " seconds"@,
{
    let mut m = String::from_str("Control request timed out after ");
    let n = dec_u64_string(timeout_secs);
    m.append(n.as_str());
    m.append(" seconds");
    proof {
        assert(m@ =~= "Control request timed out after "@ + dec_str(timeout_secs as nat)
            + " seconds"@);
    }
    ClaudeSDKError::Timeout(m)
}

/// The timeout error reported when the initialize handshake exceeds its
/// deadline.
pub fn initialize_timeout_error(timeout_secs: u64) -> (r: ClaudeSDKError)
    ensures
        r matches ClaudeSDKError::Timeout(m) && m@ == "Initialize request timed out after "@
            + dec_str(timeout_secs as nat) + " seconds"@,
{
    let mut m = String::from_str("Initialize request timed out after ");
    let n = dec_u64_string(timeout_secs);
    m.append(n.as_str());
    m.append(" seconds");
    proof {
        assert(m@ =~= "Initialize request timed out after "@ + dec_str(timeout_secs as nat)
            + " seconds"@);
    }
    ClaudeSDKError::Timeout(m)
}

/// The protocol error reported when a correlation's channel closes before a
/// response arrives.
pub fn channel_closed_error() -> (r: ClaudeSDKError)
    ensures
        r matches ClaudeSDKError::ControlProtocol(m) && m@ == "Response channel closed"@,
{
    ClaudeSDKError::ControlProtocol(String::from_str("Response channel closed"))
}

/// The protocol error reported when the stream ends before the initialize
/// handshake is answered.
pub fn stream_ended_error() -> (r: ClaudeSDKError)
    ensures
        r matches ClaudeSDKError::ControlProtocol(m) && m@
            == "Transport stream ended before initialize response received"@,
{
    ClaudeSDKError::ControlProtocol(
        String::from_str("Transport stream ended before initialize response received"),
    )
}

} // verus!
