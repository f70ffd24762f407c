//! The transports' rules: which messages are requests and which are notifications,
//! how errors are answered, and (in `stdio`) how messages are cut from a byte stream.
//! Reading and writing the bytes, and awaiting the server, belong to the caller.

pub mod stdio;

use crate::error::McpError;
use crate::json::{has_key, json_object, json_object_value, json_string, json_string_value, json_has_key,
    json_parse, parse_json, serde_error_text};
use crate::protocol::{JsonRpcResponse, RequestId};
use crate::text::{trim, trim_spec, utf8_str};
use stdio::LineError;
use vstd::prelude::*;
use vstd::string::*;
use vstd::utf8::*;

verus! {

/// What an incoming JSON-RPC message is.
#[derive(Debug, Clone, Copy, PartialEq, Eq)]
pub enum MessageKind {
    /// It has an `id` member: a request, which is answered.
    Request,
    /// It has none: a notification, which is not answered.
    Notification,
}

/// A message with an `id` member is a request; any other is a notification.
pub fn message_kind(message: &serde_json::Value) -> (k: MessageKind)
    ensures
        k == (if json_has_key(*message, "id"@) { MessageKind::Request } else { MessageKind::Notification }),
{
    if has_key(message, "id") {
        MessageKind::Request
    } else {
        MessageKind::Notification
    }
}

/// The response that answers a request with an error: the error's code and message.
pub fn error_response(id: RequestId, error: &McpError) -> (r: JsonRpcResponse)
    ensures
        r.jsonrpc@ == "2.0"@,
        r.id == id,
        r.result is None,
        r.error matches Some(e) && e.code == error.code_spec() && e.data is None
            && error.message_prefix().is_prefix_of(e.message@) && (error.detail() matches Some(d)
            ==> e.message@ == error.message_prefix() + d),
{
    JsonRpcResponse::error(id, error.code(), error.to_string(), None)
}

/// A response that reports a malformed input with the parse-error code and the message.
fn parse_failure(message: String) -> (r: JsonRpcResponse)
    ensures
        r.id == RequestId::Number(0),
        r.result is None,
        r.error matches Some(e) && e.code == -32700 && e.message == message && e.data is None,
{
    JsonRpcResponse::error(RequestId::null(), -32700, message, None)
}

/// The response reports malformed input: the null identifier, no result, the
/// parse-error code and the message.
pub open spec fn is_parse_failure(r: JsonRpcResponse, message: Seq<char>) -> bool {
    &&& r.id == RequestId::Number(0)
    &&& r.result is None
    &&& r.error is Some
    &&& r.error->0.code == -32700
    &&& r.error->0.message@ == message
    &&& r.error->0.data is None
}

/// What the stdio transport does with one line that it has read.
#[derive(Debug)]
pub enum LineAction {
    /// The input has ended: stop serving.
    Stop,
    /// Nothing to do: the line is blank.
    Skip,
    /// Write this response.
    Reply(JsonRpcResponse),
    /// Stop serving with this error.
    Fail(McpError),
    /// Hand this message to the server as a request.
    Request(serde_json::Value),
    /// Hand this message to the server as a notification.
    Notification(serde_json::Value),
}

impl StdioTransport {
    /// Decides what to do with the outcome of reading one line into `buf`: end of input
    /// stops; an over-long line is answered with a parse error "Payload too large"; one
    /// that never ended fails the transport; bytes that are not UTF-8 are answered with
    /// "Invalid UTF-8"; a blank line is skipped; text that is not JSON is answered with
    /// "Parse error: " and the parser's message; a JSON message goes to the server, as
    /// a request when it has an `id` and as a notification when it has not.
    pub fn handle_line(read: Result<usize, LineError>, buf: &[u8]) -> (a: LineAction)
        ensures
            read == Ok::<usize, LineError>(0) ==> a is Stop,
            read == Err::<usize, LineError>(LineError::TooLong) ==> (a matches LineAction::Reply(r)
                && is_parse_failure(r, "Payload too large"@)),
            read == Err::<usize, LineError>(LineError::UnterminatedTooLong) ==> (a matches LineAction::Fail(
                McpError::Transport(m),
            ) && m@ == "Unterminated oversized line"@),
            read matches Ok(n) && n > 0 && !valid_utf8(buf@) ==> (a matches LineAction::Reply(r)
                && is_parse_failure(r, "Invalid UTF-8"@)),
            read matches Ok(n) && n > 0 && valid_utf8(buf@) ==> {
                let text = trim_spec(decode_utf8(buf@));
                let bytes = encode_utf8(text);
                &&& text.len() == 0 ==> a is Skip
                &&& text.len() > 0 ==> match json_parse(bytes) {
                    Err(_) => a matches LineAction::Reply(r) && is_parse_failure(r, r.error->0.message@)
                        && "Parse error: "@.is_prefix_of(r.error->0.message@),
                    Ok(v) => if json_has_key(v, "id"@) {
                        a == LineAction::Request(v)
                    } else {
                        a == LineAction::Notification(v)
                    },
                }
            },
    {
        match read {
            Ok(0) => LineAction::Stop,
            Err(LineError::TooLong) => LineAction::Reply(parse_failure(String::from_str("Payload too large"))),
            Err(LineError::UnterminatedTooLong) => LineAction::Fail(
                McpError::Transport(String::from_str("Unterminated oversized line")),
            ),
            Ok(_) => {
                let text = match utf8_str(buf) {
                    Some(s) => s,
                    None => {
                        return LineAction::Reply(parse_failure(String::from_str("Invalid UTF-8")));
                    },
                };
                proof {
                    encode_utf8_decode_utf8(text@);
                }
                let trimmed = trim(text);
                if trimmed.is_empty() {
                    return LineAction::Skip;
                }
                match parse_json(trimmed.as_bytes()) {
                    Err(e) => {
                        let detail = serde_error_text(&e);
                        let m = String::from_str("Parse error: ").concat(detail.as_str());
                        assert(m@.subrange(0, "Parse error: "@.len() as int) =~= "Parse error: "@);
                        LineAction::Reply(parse_failure(m))
                    },
                    Ok(v) => match message_kind(&v) {
                        MessageKind::Request => LineAction::Request(v),
                        MessageKind::Notification => LineAction::Notification(v),
                    },
                }
            },
        }
    }
}

impl HttpTransport {
    /// The body that acknowledges a notification: `{"status": "ok"}`.
    pub fn notification_ack() -> (v: serde_json::Value)
        ensures
            v == json_object_value(seq![("status"@, json_string_value("ok"@))]),
    {
        let mut entries: Vec<(String, serde_json::Value)> = Vec::new();
        entries.push((String::from_str("status"), json_string(String::from_str("ok"))));
        let v = json_object(entries);
        assert(entries@.map_values(|e: (String, serde_json::Value)| (e.0@, e.1)) =~= seq![
            ("status"@, json_string_value("ok"@)),
        ]);
        v
    }
}

pub struct StdioTransport;

pub struct HttpTransport;

} // verus!
