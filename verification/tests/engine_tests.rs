use claude_agent_sdk::engine::rand_hex;
use claude_agent_sdk::engine::CallbackRequest;
use claude_agent_sdk::engine::ControlOutcome;
use claude_agent_sdk::engine::InboundDisposition;
use claude_agent_sdk::engine::InitCheck;
use claude_agent_sdk::engine::InitializeStart;
use claude_agent_sdk::engine::ProtocolEngine;
use claude_agent_sdk::correlation::CorrelationTable;
use claude_agent_sdk::HookEvent;
use claude_agent_sdk::HookMatcherConfig;
use claude_agent_sdk::PermissionResult;
use claude_agent_sdk::PermissionResultAllow;
use claude_agent_sdk::PermissionResultDeny;
use claude_agent_sdk::SDKControlRequestVariant;

fn success_response_for(request_id: &str, payload: &str) -> String {
    format!(
        "{{\"type\":\"control_response\",\"response\":{{\"subtype\":\"success\",\"request_id\":\"{}\",\"response\":{}}}}}",
        request_id, payload
    )
}

#[test]
fn test_rand_hex() {
    let hex1 = rand_hex();
    let _hex2 = rand_hex();
    // Should be non-empty
    assert!(!hex1.is_empty());
    // Might be different (depends on timing)
}

#[test]
fn test_rand_hex_is_valid_hex() {
    let hex = rand_hex();
    // Should only contain hex characters
    for c in hex.chars() {
        assert!(c.is_ascii_hexdigit());
    }
}

#[test]
fn test_rand_hex_produces_different_values() {
    // Call multiple times to ensure it works
    let results: Vec<String> = (0..10).map(|_| rand_hex()).collect();

    // All should be valid hex
    for hex in &results {
        assert!(!hex.is_empty());
        for c in hex.chars() {
            assert!(c.is_ascii_hexdigit());
        }
    }
}

#[test]
fn test_correlation_register_resolve() {
    let mut table = CorrelationTable::new();
    assert_eq!(table.len(), 0);
    table.register("req_0_ab");
    assert!(table.contains("req_0_ab"));
    assert_eq!(table.len(), 1);
    assert!(table.resolve("req_0_ab"));
    assert!(!table.contains("req_0_ab"));
    // A second response for the same id reports false, never an error.
    assert!(!table.resolve("req_0_ab"));
}

#[test]
fn test_correlation_resolve_unknown_is_noop() {
    let mut table = CorrelationTable::new();
    table.register("a");
    assert!(!table.resolve("b"));
    assert!(table.contains("a"));
}

#[test]
fn test_control_request_requires_streaming() {
    let mut engine = ProtocolEngine::new(false, false);
    let r = engine.begin_control_request(SDKControlRequestVariant::Interrupt, "ff");
    match r {
        Err(claude_agent_sdk::ClaudeSDKError::ControlProtocol(m)) => {
            assert_eq!(m, "Control requests require streaming mode")
        }
        other => panic!("expected protocol error, got {:?}", other),
    }
}

#[test]
fn test_control_request_line_and_id() {
    let mut engine = ProtocolEngine::new(true, false);
    let p = engine
        .begin_control_request(SDKControlRequestVariant::Interrupt, "ff")
        .unwrap();
    assert_eq!(p.request_id, "req_0_ff");
    assert!(p.line.ends_with('\n'));
    let v: serde_json::Value = serde_json::from_str(p.line.trim_end()).unwrap();
    assert_eq!(v["type"], "control_request");
    assert_eq!(v["request_id"], "req_0_ff");
    assert_eq!(v["request"]["subtype"], "interrupt");

    // The counter advances for the next request.
    let p2 = engine
        .begin_control_request(
            SDKControlRequestVariant::SetPermissionMode {
                mode: "acceptEdits".to_string(),
            },
            "ff",
        )
        .unwrap();
    assert_eq!(p2.request_id, "req_1_ff");
}

#[test]
fn test_matching_response_resolves_with_exact_outcome() {
    // A matching control_response with the same request id delivers exactly
    // that outcome to the awaiting call.
    let mut engine = ProtocolEngine::new(true, false);
    let p = engine
        .begin_control_request(SDKControlRequestVariant::McpStatus, "aa")
        .unwrap();

    let line = success_response_for(&p.request_id, "{\"status\":\"ok\"}");
    match engine.handle_inbound(&line).unwrap() {
        InboundDisposition::ResponseResolved {
            request_id,
            outcome,
        } => {
            assert_eq!(request_id, p.request_id);
            match outcome {
                ControlOutcome::Success(payload) => {
                    let v: serde_json::Value = serde_json::from_str(&payload).unwrap();
                    assert_eq!(v["status"], "ok");
                }
                other => panic!("expected success, got {:?}", other),
            }
        }
        other => panic!("expected resolution, got {:?}", other),
    }
}

#[test]
fn test_error_response_resolves_as_failure() {
    let mut engine = ProtocolEngine::new(true, false);
    let p = engine
        .begin_control_request(SDKControlRequestVariant::Interrupt, "aa")
        .unwrap();
    let line = format!(
        "{{\"type\":\"control_response\",\"response\":{{\"subtype\":\"error\",\"request_id\":\"{}\",\"error\":\"boom\"}}}}",
        p.request_id
    );
    match engine.handle_inbound(&line).unwrap() {
        InboundDisposition::ResponseResolved { outcome, .. } => {
            assert_eq!(outcome, ControlOutcome::Failure("boom".to_string()));
        }
        other => panic!("expected resolution, got {:?}", other),
    }
}

#[test]
fn test_timeout_releases_slot_and_late_response_is_dropped() {
    // After a timeout the correlation slot is gone; a late response for that
    // id is silently ignored, not delivered to a stale waiter.
    let mut engine = ProtocolEngine::new(true, false);
    let p = engine
        .begin_control_request(SDKControlRequestVariant::Interrupt, "aa")
        .unwrap();
    engine.on_timeout(&p.request_id);

    let line = success_response_for(&p.request_id, "null");
    match engine.handle_inbound(&line).unwrap() {
        InboundDisposition::ResponseDropped => (),
        other => panic!("expected drop, got {:?}", other),
    }
}

#[test]
fn test_unknown_response_id_is_dropped() {
    let mut engine = ProtocolEngine::new(true, false);
    let line = success_response_for("req_77_zz", "null");
    match engine.handle_inbound(&line).unwrap() {
        InboundDisposition::ResponseDropped => (),
        other => panic!("expected drop, got {:?}", other),
    }
}

#[test]
fn test_permission_request_without_callback_yields_error_response() {
    // A CanUseTool request with no permission callback registered yields a
    // control-response error naming the missing callback.
    let mut engine = ProtocolEngine::new(true, false);
    let line = "{\"type\":\"control_request\",\"request_id\":\"cli-1\",\"request\":{\"subtype\":\"can_use_tool\",\"tool_name\":\"Bash\",\"input\":{\"command\":\"ls\"}}}";
    match engine.handle_inbound(line).unwrap() {
        InboundDisposition::Answered => (),
        other => panic!("expected answered, got {:?}", other),
    }
    let out = engine.take_outgoing();
    assert_eq!(out.len(), 1);
    let v: serde_json::Value = serde_json::from_str(out[0].trim_end()).unwrap();
    assert_eq!(v["type"], "control_response");
    assert_eq!(v["response"]["subtype"], "error");
    assert_eq!(v["response"]["request_id"], "cli-1");
    assert!(v["response"]["error"]
        .as_str()
        .unwrap()
        .contains("canUseTool callback is not provided"));
}

#[test]
fn test_permission_allow_yields_allow_payload() {
    let mut engine = ProtocolEngine::new(true, true);
    let line = "{\"type\":\"control_request\",\"request_id\":\"cli-2\",\"request\":{\"subtype\":\"can_use_tool\",\"tool_name\":\"Bash\",\"input\":{\"command\":\"ls\"}}}";
    let (request_id, input) = match engine.handle_inbound(line).unwrap() {
        InboundDisposition::CallbackNeeded(CallbackRequest::Permission {
            request_id,
            tool_name,
            input,
        }) => {
            assert_eq!(tool_name, "Bash");
            (request_id, input)
        }
        other => panic!("expected permission callback, got {:?}", other),
    };
    let result = PermissionResult::Allow(PermissionResultAllow::new());
    engine.complete_permission(&request_id, &result, &input);
    let out = engine.take_outgoing();
    assert_eq!(out.len(), 1);
    let v: serde_json::Value = serde_json::from_str(out[0].trim_end()).unwrap();
    assert_eq!(v["response"]["subtype"], "success");
    assert_eq!(v["response"]["response"]["behavior"], "allow");
    assert_eq!(v["response"]["response"]["updatedInput"]["command"], "ls");
}

#[test]
fn test_permission_allow_with_updated_input() {
    let mut engine = ProtocolEngine::new(true, true);
    let line = "{\"type\":\"control_request\",\"request_id\":\"cli-3\",\"request\":{\"subtype\":\"can_use_tool\",\"tool_name\":\"Bash\",\"input\":{\"command\":\"ls\"}}}";
    let (request_id, input) = match engine.handle_inbound(line).unwrap() {
        InboundDisposition::CallbackNeeded(CallbackRequest::Permission {
            request_id,
            input,
            ..
        }) => (request_id, input),
        other => panic!("expected permission callback, got {:?}", other),
    };
    let result = PermissionResult::Allow(
        PermissionResultAllow::new().with_updated_input("{\"command\":\"ls -la\"}".to_string()),
    );
    engine.complete_permission(&request_id, &result, &input);
    let out = engine.take_outgoing();
    let v: serde_json::Value = serde_json::from_str(out[0].trim_end()).unwrap();
    assert_eq!(v["response"]["response"]["behavior"], "allow");
    assert_eq!(
        v["response"]["response"]["updatedInput"]["command"],
        "ls -la"
    );
}

#[test]
fn test_permission_deny_with_interrupt_flag() {
    let mut engine = ProtocolEngine::new(true, true);
    let line = "{\"type\":\"control_request\",\"request_id\":\"cli-4\",\"request\":{\"subtype\":\"can_use_tool\",\"tool_name\":\"Bash\",\"input\":{\"command\":\"rm -rf /\"}}}";
    let (request_id, input) = match engine.handle_inbound(line).unwrap() {
        InboundDisposition::CallbackNeeded(CallbackRequest::Permission {
            request_id,
            input,
            ..
        }) => (request_id, input),
        other => panic!("expected permission callback, got {:?}", other),
    };
    let result = PermissionResult::Deny(
        PermissionResultDeny::new()
            .with_message("Not allowed")
            .with_interrupt(true),
    );
    engine.complete_permission(&request_id, &result, &input);
    let out = engine.take_outgoing();
    let v: serde_json::Value = serde_json::from_str(out[0].trim_end()).unwrap();
    assert_eq!(v["response"]["response"]["behavior"], "deny");
    assert_eq!(v["response"]["response"]["message"], "Not allowed");
    assert_eq!(v["response"]["response"]["interrupt"], true);
}

#[test]
fn test_hook_callback_unknown_id_yields_error_naming_it() {
    // A HookCallback request with an unknown callback id yields an error
    // naming the missing id.
    let mut engine = ProtocolEngine::new(true, false);
    let line = "{\"type\":\"control_request\",\"request_id\":\"cli-5\",\"request\":{\"subtype\":\"hook_callback\",\"callback_id\":\"unknown-callback\",\"input\":{}}}";
    match engine.handle_inbound(line).unwrap() {
        InboundDisposition::Answered => (),
        other => panic!("expected answered, got {:?}", other),
    }
    let out = engine.take_outgoing();
    let v: serde_json::Value = serde_json::from_str(out[0].trim_end()).unwrap();
    assert_eq!(v["response"]["subtype"], "error");
    assert!(v["response"]["error"]
        .as_str()
        .unwrap()
        .contains("No hook callback found for ID: unknown-callback"));
}

#[test]
fn test_hook_output_round_trips_unchanged() {
    // A registered hook's structured output round-trips into the response
    // payload unchanged.
    let mut engine = ProtocolEngine::new(true, false);
    let hooks = vec![(
        HookEvent::PreToolUse,
        vec![HookMatcherConfig::new().with_matcher("Bash").with_hook_count(1)],
    )];
    let (config, ids) = engine.build_hooks_config(&hooks);
    assert_eq!(ids, vec!["hook_0".to_string()]);
    let cfg: serde_json::Value = serde_json::from_str(&config.unwrap()).unwrap();
    assert_eq!(cfg["PreToolUse"][0]["matcher"], "Bash");
    assert_eq!(cfg["PreToolUse"][0]["hookCallbackIds"][0], "hook_0");

    let line = "{\"type\":\"control_request\",\"request_id\":\"cli-6\",\"request\":{\"subtype\":\"hook_callback\",\"callback_id\":\"hook_0\",\"input\":{\"prompt\":\"hi\"},\"tool_use_id\":\"t1\"}}";
    let request_id = match engine.handle_inbound(line).unwrap() {
        InboundDisposition::CallbackNeeded(CallbackRequest::Hook {
            request_id,
            callback_id,
            tool_use_id,
            ..
        }) => {
            assert_eq!(callback_id, "hook_0");
            assert_eq!(tool_use_id, Some("t1".to_string()));
            request_id
        }
        other => panic!("expected hook callback, got {:?}", other),
    };
    let output = "{\"continue\":true,\"systemMessage\":\"done\"}";
    engine.complete_hook(&request_id, output);
    let out = engine.take_outgoing();
    let v: serde_json::Value = serde_json::from_str(out[0].trim_end()).unwrap();
    let expected: serde_json::Value = serde_json::from_str(output).unwrap();
    assert_eq!(v["response"]["response"], expected);
}

#[test]
fn test_hooks_config_empty_events_yield_none() {
    let mut engine = ProtocolEngine::new(true, false);
    let hooks = vec![(HookEvent::Stop, Vec::new())];
    let (config, ids) = engine.build_hooks_config(&hooks);
    assert!(config.is_none());
    assert!(ids.is_empty());
}

#[test]
fn test_mcp_message_answered_with_method_not_found() {
    let mut engine = ProtocolEngine::new(true, false);
    let line = "{\"type\":\"control_request\",\"request_id\":\"cli-7\",\"request\":{\"subtype\":\"mcp_message\",\"server_name\":\"unknown-server\",\"message\":{\"jsonrpc\":\"2.0\",\"method\":\"tools/list\",\"id\":1}}}";
    match engine.handle_inbound(line).unwrap() {
        InboundDisposition::Answered => (),
        other => panic!("expected answered, got {:?}", other),
    }
    let out = engine.take_outgoing();
    let v: serde_json::Value = serde_json::from_str(out[0].trim_end()).unwrap();
    assert_eq!(v["response"]["subtype"], "success");
    let payload = &v["response"]["response"];
    assert_eq!(payload["jsonrpc"], "2.0");
    assert_eq!(payload["id"], 1);
    assert_eq!(payload["error"]["code"], -32601);
    assert!(payload["error"]["message"]
        .as_str()
        .unwrap()
        .contains("not found"));
}

#[test]
fn test_unsupported_control_request_yields_error() {
    let mut engine = ProtocolEngine::new(true, false);
    let line = "{\"type\":\"control_request\",\"request_id\":\"cli-8\",\"request\":{\"subtype\":\"interrupt\"}}";
    match engine.handle_inbound(line).unwrap() {
        InboundDisposition::Answered => (),
        other => panic!("expected answered, got {:?}", other),
    }
    let out = engine.take_outgoing();
    let v: serde_json::Value = serde_json::from_str(out[0].trim_end()).unwrap();
    assert!(v["response"]["error"]
        .as_str()
        .unwrap()
        .contains("Unsupported control request"));
}

#[test]
fn test_initialize_handshake_and_data_flow() {
    // The handshake sends one initialize request and blocks until its
    // response; afterwards an assistant line then a result line yield
    // exactly two data messages and zero queued control responses.
    let mut engine = ProtocolEngine::new(true, false);
    let (request_id, line) = match engine.begin_initialize(None, "ee") {
        InitializeStart::Send { request_id, line } => (request_id, line),
        other => panic!("expected send, got {:?}", other),
    };
    let v: serde_json::Value = serde_json::from_str(line.trim_end()).unwrap();
    assert_eq!(v["request"]["subtype"], "initialize");

    // An unrelated line is not the handshake's answer.
    let unrelated = success_response_for("someone-else", "null");
    assert_eq!(
        ProtocolEngine::check_initialize_response(&unrelated, &request_id),
        InitCheck::NotOurs
    );

    let answer = success_response_for(&request_id, "{\"commands\":[]}");
    match ProtocolEngine::check_initialize_response(&answer, &request_id) {
        InitCheck::Succeeded(payload) => {
            engine.complete_initialize(payload);
        }
        other => panic!("expected success, got {:?}", other),
    }
    assert!(engine.initialization_result().is_some());

    let a = "{\"type\":\"assistant\",\"message\":{\"model\":\"m\",\"content\":[{\"type\":\"text\",\"text\":\"Hi\"}]}}";
    let r = "{\"type\":\"result\",\"subtype\":\"success\",\"duration_ms\":5,\"session_id\":\"s\"}";
    let mut data_count = 0;
    for l in [a, r] {
        match engine.handle_inbound(l).unwrap() {
            InboundDisposition::Data(_) => data_count += 1,
            other => panic!("expected data, got {:?}", other),
        }
    }
    assert_eq!(data_count, 2);
    assert!(engine.take_outgoing().is_empty());
}

#[test]
fn test_initialize_not_streaming_is_noop() {
    let mut engine = ProtocolEngine::new(false, false);
    assert_eq!(
        engine.begin_initialize(None, "ee"),
        InitializeStart::NotStreaming
    );
}

#[test]
fn test_initialize_error_response_fails_handshake() {
    let mut engine = ProtocolEngine::new(true, false);
    let (request_id, _line) = match engine.begin_initialize(None, "ee") {
        InitializeStart::Send { request_id, line } => (request_id, line),
        other => panic!("expected send, got {:?}", other),
    };
    let answer = format!(
        "{{\"type\":\"control_response\",\"response\":{{\"subtype\":\"error\",\"request_id\":\"{}\",\"error\":\"nope\"}}}}",
        request_id
    );
    assert_eq!(
        ProtocolEngine::check_initialize_response(&answer, &request_id),
        InitCheck::Failed("nope".to_string())
    );
}

#[test]
fn test_cancel_between_two_assistant_messages() {
    // A control_cancel_request interleaved between two assistant messages
    // produces exactly two yielded data messages; the cancel is skipped.
    let mut engine = ProtocolEngine::new(true, false);
    let a1 = "{\"type\":\"assistant\",\"message\":{\"model\":\"m\",\"content\":[{\"type\":\"text\",\"text\":\"one\"}]}}";
    let cancel = "{\"type\":\"control_cancel_request\",\"request_id\":\"x\"}";
    let a2 = "{\"type\":\"assistant\",\"message\":{\"model\":\"m\",\"content\":[{\"type\":\"text\",\"text\":\"two\"}]}}";

    let mut data = Vec::new();
    for l in [a1, cancel, a2] {
        match engine.handle_inbound(l).unwrap() {
            InboundDisposition::Data(m) => data.push(m),
            InboundDisposition::CancelAcknowledged => (),
            other => panic!("unexpected disposition: {:?}", other),
        }
    }
    assert_eq!(data.len(), 2);
    assert!(data[0].is_assistant());
    assert!(data[1].is_assistant());
    assert!(engine.take_outgoing().is_empty());
}

#[test]
fn test_outgoing_queue_preserves_enqueue_order() {
    let mut engine = ProtocolEngine::new(true, false);
    engine.fail_callback("r1", "first");
    engine.fail_callback("r2", "second");
    let out = engine.take_outgoing();
    assert_eq!(out.len(), 2);
    assert!(out[0].contains("\"request_id\":\"r1\""));
    assert!(out[1].contains("\"request_id\":\"r2\""));
    assert!(engine.take_outgoing().is_empty());
}

#[test]
fn test_malformed_control_request_is_dropped() {
    let mut engine = ProtocolEngine::new(true, false);
    // Unknown subtype: silently dropped, no response queued.
    let line = "{\"type\":\"control_request\",\"request_id\":\"cli-9\",\"request\":{\"subtype\":\"mystery\"}}";
    match engine.handle_inbound(line).unwrap() {
        InboundDisposition::RequestDropped => (),
        other => panic!("expected drop, got {:?}", other),
    }
    assert!(engine.take_outgoing().is_empty());
}

#[test]
fn test_data_message_parse_error_propagates() {
    let mut engine = ProtocolEngine::new(true, false);
    let line = "{\"type\":\"mystery\"}";
    assert!(engine.handle_inbound(line).is_err());
}

#[test]
fn test_success_response_without_payload_reads_as_null() {
    let mut engine = ProtocolEngine::new(true, false);
    let p = engine
        .begin_control_request(SDKControlRequestVariant::Interrupt, "aa")
        .unwrap();
    let line = format!(
        "{{\"type\":\"control_response\",\"response\":{{\"subtype\":\"success\",\"request_id\":\"{}\"}}}}",
        p.request_id
    );
    match engine.handle_inbound(&line).unwrap() {
        InboundDisposition::ResponseResolved { outcome, .. } => {
            assert_eq!(outcome, ControlOutcome::Success("null".to_string()));
        }
        other => panic!("expected resolution, got {:?}", other),
    }
}

#[test]
fn test_initialize_line_carries_hooks_config() {
    let mut engine = ProtocolEngine::new(true, false);
    let hooks = vec![(
        HookEvent::PreToolUse,
        vec![HookMatcherConfig::new().with_hook_count(2).with_timeout(30)],
    )];
    let (config, ids) = engine.build_hooks_config(&hooks);
    assert_eq!(ids, vec!["hook_0".to_string(), "hook_1".to_string()]);
    let line = match engine.begin_initialize(config, "cc") {
        InitializeStart::Send { line, .. } => line,
        other => panic!("expected send, got {:?}", other),
    };
    let v: serde_json::Value = serde_json::from_str(line.trim_end()).unwrap();
    assert_eq!(v["request"]["subtype"], "initialize");
    assert_eq!(v["request"]["hooks"]["PreToolUse"][0]["timeout"], 30);
    assert_eq!(
        v["request"]["hooks"]["PreToolUse"][0]["hookCallbackIds"][1],
        "hook_1"
    );
    assert!(v["request"]["hooks"]["PreToolUse"][0]["matcher"].is_null());
}
