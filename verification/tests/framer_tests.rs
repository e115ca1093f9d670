use claude_agent_sdk::framer::FrameStep;
use claude_agent_sdk::framer::LineFramer;

#[test]
fn test_framer_whole_document() {
    let mut framer = LineFramer::new(1024 * 1024);
    let step = framer.feed_line("{\"type\":\"assistant\"}");
    assert_eq!(
        step,
        FrameStep::Complete("{\"type\":\"assistant\"}".to_string())
    );
}

#[test]
fn test_framer_trims_line_endings() {
    let mut framer = LineFramer::new(1024 * 1024);
    let step = framer.feed_line("{\"a\":1}\r\n");
    assert_eq!(step, FrameStep::Complete("{\"a\":1}".to_string()));
}

#[test]
fn test_framer_skips_blank_lines() {
    let mut framer = LineFramer::new(1024 * 1024);
    assert_eq!(framer.feed_line(""), FrameStep::Skipped);
    assert_eq!(framer.feed_line("   \t  "), FrameStep::Skipped);
    assert_eq!(
        framer.feed_line("{\"a\":1}"),
        FrameStep::Complete("{\"a\":1}".to_string())
    );
}

#[test]
fn test_framer_split_document_two_pieces() {
    // Splitting one document across arbitrary boundaries yields the same
    // single decoded value as feeding it whole.
    let doc = "{\"type\":\"assistant\",\"message\":{\"content\":[]}}";
    let mut framer = LineFramer::new(1024 * 1024);
    assert_eq!(framer.feed_line("{\"type\":\"assi"), FrameStep::Incomplete);
    assert_eq!(
        framer.feed_line("stant\",\"message\":{\"content\":[]}}"),
        FrameStep::Complete(doc.to_string())
    );

    let mut whole = LineFramer::new(1024 * 1024);
    assert_eq!(framer.failed(), false);
    assert_eq!(whole.feed_line(doc), FrameStep::Complete(doc.to_string()));
}

#[test]
fn test_framer_split_document_per_byte() {
    // Feed one document one character at a time: exactly one completion, at
    // the last character, with the whole text.
    let doc = "{\"key\":\"value\"}";
    let mut framer = LineFramer::new(1024 * 1024);
    let chars: Vec<char> = doc.chars().collect();
    let mut emitted: Vec<String> = Vec::new();
    for c in &chars {
        let piece = c.to_string();
        match framer.feed_line(&piece) {
            FrameStep::Complete(d) => emitted.push(d),
            FrameStep::Incomplete => (),
            other => panic!("unexpected step: {:?}", other),
        }
    }
    assert_eq!(emitted, vec![doc.to_string()]);
}

#[test]
fn test_framer_buffer_limit_overflow() {
    // A single logical line whose accumulated length exceeds the maximum
    // produces exactly one fatal framing error and no partial value.
    let mut framer = LineFramer::new(8);
    let step = framer.feed_line("{\"aaaaaaaaaa\":1");
    match step {
        FrameStep::Overflow { size } => assert_eq!(size, 15),
        other => panic!("expected overflow, got {:?}", other),
    }
    assert!(framer.failed());
    // Nothing more is accepted after the overflow, and no value emerges.
    assert_eq!(framer.feed_line("{\"a\":1}"), FrameStep::Failed);
    assert_eq!(framer.feed_line("}"), FrameStep::Failed);
}

#[test]
fn test_framer_overflow_across_pieces() {
    let mut framer = LineFramer::new(10);
    assert_eq!(framer.feed_line("{\"abc\""), FrameStep::Incomplete);
    match framer.feed_line(":\"defgh\"}") {
        FrameStep::Overflow { size } => assert_eq!(size, 15),
        other => panic!("expected overflow, got {:?}", other),
    }
}

#[test]
fn test_framer_emits_consecutive_documents() {
    let mut framer = LineFramer::new(1024);
    assert_eq!(
        framer.feed_line("{\"a\":1}"),
        FrameStep::Complete("{\"a\":1}".to_string())
    );
    assert_eq!(
        framer.feed_line("{\"b\":2}"),
        FrameStep::Complete("{\"b\":2}".to_string())
    );
}

#[test]
fn test_framer_exactly_at_limit_is_not_overflow() {
    // Seven bytes against a limit of seven: the boundary is inclusive.
    let mut framer = LineFramer::new(7);
    assert_eq!(
        framer.feed_line("{\"a\":1}"),
        FrameStep::Complete("{\"a\":1}".to_string())
    );
    assert!(!framer.failed());
}
