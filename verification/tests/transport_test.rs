use mcp_sdk::error::McpError;
use mcp_sdk::protocol::RequestId;
use mcp_sdk::transport::stdio::{LineError, LineReader, LineStep};
use mcp_sdk::transport::{error_response, message_kind, LineAction, MessageKind};
use mcp_sdk::{HttpTransport, StdioTransport};

fn json(text: &str) -> serde_json::Value {
    serde_json::from_str(text).unwrap()
}

/// Reads one line from `input` starting at `*pos`, handing the reader chunks of at
/// most `chunk` bytes, as a buffered reader would.
fn read_line(input: &[u8], pos: &mut usize, chunk: usize, max: usize, buf: &mut Vec<u8>) -> Result<usize, LineError> {
    let mut reader = LineReader::new(max, buf);
    loop {
        if *pos >= input.len() {
            return reader.finish(buf);
        }
        let end = std::cmp::min(input.len(), *pos + chunk);
        let (used, step) = reader.feed(&input[*pos..end], buf);
        *pos += used;
        if let LineStep::Done(result) = step {
            return result;
        }
    }
}

#[test]
fn test_bounded_line_rejects_oversized() {
    let oversized = "x".repeat(100) + "\n";
    let mut pos = 0;
    let mut buf = Vec::new();
    let result = read_line(oversized.as_bytes(), &mut pos, 1024, 10, &mut buf);
    assert_eq!(result, Err(LineError::TooLong));
    assert!(buf.len() <= 10);
    assert_eq!(pos, oversized.len());
}

#[test]
fn test_bounded_line_accepts_within_limit() {
    let data = "{\"id\":1,\"method\":\"ping\"}\n";
    let mut pos = 0;
    let mut buf = Vec::new();
    let n = read_line(data.as_bytes(), &mut pos, 1024, 1024, &mut buf).unwrap();
    assert!(n > 0);
    assert!(!buf.is_empty());
    let parsed: serde_json::Value = serde_json::from_slice(&buf).unwrap();
    assert_eq!(parsed["method"], "ping");
}

#[test]
fn test_bounded_line_eof_returns_zero() {
    let mut pos = 0;
    let mut buf = vec![1, 2, 3];
    let n = read_line(b"", &mut pos, 1024, 1024, &mut buf).unwrap();
    assert_eq!(n, 0);
    assert!(buf.is_empty());
}

#[test]
fn test_bounded_line_rejects_oversized_no_newline() {
    let data = vec![b'x'; 200];
    let mut pos = 0;
    let mut buf = Vec::new();
    let result = read_line(&data, &mut pos, 1024, 10, &mut buf);
    assert_eq!(result, Err(LineError::UnterminatedTooLong));
}

#[test]
fn test_bounded_line_continues_after_oversized() {
    let data = b"xxxxxxxxxxxxxxxxxx\n{\"id\":1,\"method\":\"ping\"}\n";
    let mut pos = 0;
    let mut buf = Vec::new();
    assert!(read_line(data, &mut pos, 1024, 10, &mut buf).is_err());
    let n = read_line(data, &mut pos, 1024, 1024, &mut buf).unwrap();
    assert!(n > 0);
    let parsed: serde_json::Value = serde_json::from_slice(&buf).unwrap();
    assert_eq!(parsed["method"], "ping");
}

#[test]
fn test_bounded_line_exact_limit() {
    let mut pos = 0;
    let mut buf = Vec::new();
    let n = read_line(b"12345\n", &mut pos, 1024, 5, &mut buf).unwrap();
    assert_eq!(n, 6);
    assert_eq!(&buf[..], b"12345");
}

#[test]
fn test_bounded_line_empty_line() {
    let mut pos = 0;
    let mut buf = Vec::new();
    let n = read_line(b"\n", &mut pos, 1024, 1024, &mut buf).unwrap();
    assert_eq!(n, 1);
    assert!(buf.is_empty());
}

#[test]
fn test_bounded_line_multibyte_utf8() {
    let data = "{\"method\":\"你好\"}\n";
    let mut pos = 0;
    let mut buf = Vec::new();
    let n = read_line(data.as_bytes(), &mut pos, 1024, 1024, &mut buf).unwrap();
    assert!(n > 0);
    let parsed: serde_json::Value = serde_json::from_slice(&buf).unwrap();
    assert_eq!(parsed["method"], "你好");
}

#[test]
fn test_bounded_line_same_outcome_for_any_chunking() {
    let data = b"abc\nxxxxxxxxxxxxxxxxxxxxxxxx\nlast-without-newline";
    for chunk in 1..=data.len() {
        let mut pos = 0;
        let mut buf = Vec::new();
        assert_eq!(read_line(data, &mut pos, chunk, 10, &mut buf), Ok(4));
        assert_eq!(&buf[..], b"abc");
        assert_eq!(read_line(data, &mut pos, chunk, 10, &mut buf), Err(LineError::TooLong));
        assert_eq!(pos, 29);
        assert_eq!(read_line(data, &mut pos, chunk, 100, &mut buf), Ok(20));
        assert_eq!(&buf[..], b"last-without-newline");
        assert_eq!(read_line(data, &mut pos, chunk, 100, &mut buf), Ok(0));
    }
}

#[test]
fn test_handle_line_stops_at_eof() {
    assert!(matches!(StdioTransport::handle_line(Ok(0), b""), LineAction::Stop));
}

#[test]
fn test_handle_line_payload_too_large() {
    match StdioTransport::handle_line(Err(LineError::TooLong), b"") {
        LineAction::Reply(r) => {
            assert_eq!(r.id, RequestId::Number(0));
            let e = r.error.unwrap();
            assert_eq!(e.code, -32700);
            assert_eq!(e.message, "Payload too large");
        }
        other => panic!("unexpected {:?}", other),
    }
}

#[test]
fn test_handle_line_unterminated_fails() {
    match StdioTransport::handle_line(Err(LineError::UnterminatedTooLong), b"") {
        LineAction::Fail(McpError::Transport(m)) => assert_eq!(m, "Unterminated oversized line"),
        other => panic!("unexpected {:?}", other),
    }
}

#[test]
fn test_handle_line_invalid_utf8() {
    match StdioTransport::handle_line(Ok(3), &[0xff, 0xfe, 0x7b]) {
        LineAction::Reply(r) => {
            let e = r.error.unwrap();
            assert_eq!(e.code, -32700);
            assert_eq!(e.message, "Invalid UTF-8");
        }
        other => panic!("unexpected {:?}", other),
    }
}

#[test]
fn test_handle_line_blank_is_skipped() {
    assert!(matches!(StdioTransport::handle_line(Ok(1), b""), LineAction::Skip));
    assert!(matches!(StdioTransport::handle_line(Ok(5), " \t\r ".as_bytes()), LineAction::Skip));
    assert!(matches!(StdioTransport::handle_line(Ok(4), "\u{a0} ".as_bytes()), LineAction::Skip));
}

#[test]
fn test_handle_line_parse_error() {
    let parser_text = serde_json::from_slice::<serde_json::Value>(b"{not json").unwrap_err().to_string();
    match StdioTransport::handle_line(Ok(10), b"  {not json") {
        LineAction::Reply(r) => {
            assert_eq!(r.id, RequestId::Number(0));
            let e = r.error.unwrap();
            assert_eq!(e.code, -32700);
            assert_eq!(e.message, format!("Parse error: {}", parser_text));
        }
        other => panic!("unexpected {:?}", other),
    }
}

#[test]
fn test_handle_line_request_and_notification() {
    match StdioTransport::handle_line(Ok(30), b" {\"jsonrpc\":\"2.0\",\"id\":1,\"method\":\"ping\"} ") {
        LineAction::Request(v) => assert_eq!(v, json(r#"{"jsonrpc":"2.0","id":1,"method":"ping"}"#)),
        other => panic!("unexpected {:?}", other),
    }
    match StdioTransport::handle_line(Ok(30), b"{\"jsonrpc\":\"2.0\",\"method\":\"notifications/initialized\"}") {
        LineAction::Notification(v) => assert_eq!(v["method"], "notifications/initialized"),
        other => panic!("unexpected {:?}", other),
    }
}

#[test]
fn test_message_kind_by_id() {
    assert_eq!(message_kind(&json(r#"{"id": null, "method": "x"}"#)), MessageKind::Request);
    assert_eq!(message_kind(&json(r#"{"id": "a"}"#)), MessageKind::Request);
    assert_eq!(message_kind(&json(r#"{"method": "x"}"#)), MessageKind::Notification);
    assert_eq!(message_kind(&json(r#"[1, 2]"#)), MessageKind::Notification);
}

#[test]
fn test_error_response_carries_code_and_message() {
    let r = error_response(RequestId::String("abc".into()), &McpError::ToolNotFound("unknown".into()));
    assert_eq!(r.jsonrpc, "2.0");
    assert_eq!(r.id, RequestId::String("abc".into()));
    assert!(r.result.is_none());
    let e = r.error.unwrap();
    assert_eq!(e.code, -32601);
    assert_eq!(e.message, "Tool not found: unknown");
    assert!(e.data.is_none());
}

#[test]
fn test_http_notification_ack() {
    assert_eq!(HttpTransport::notification_ack(), json(r#"{"status": "ok"}"#));
}

#[test]
fn test_bounded_line_without_limit() {
    let input = b"hello\nworld";
    let mut pos = 0;
    let mut buf = b"stale".to_vec();
    assert_eq!(read_line(input, &mut pos, 3, usize::MAX, &mut buf), Ok(6));
    assert_eq!(buf, b"hello");
    assert_eq!(read_line(input, &mut pos, 3, usize::MAX, &mut buf), Ok(5));
    assert_eq!(buf, b"world");
}
