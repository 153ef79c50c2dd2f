//! JSON-RPC 2.0 messages of the server's line-delimited protocol.

use vstd::prelude::*;
use crate::json::JsonValue;

verus! {

pub const INTERNAL_ERROR: i32 = -32603;
pub const METHOD_NOT_FOUND: i32 = -32601;
pub const INVALID_PARAMS: i32 = -32602;
pub const CORE_ERROR: i32 = -32000;

/// A request from the client.
#[derive(Debug)]
pub struct JsonRpcRequest {
    pub id: u64,
    pub method: String,
    pub params: JsonValue,
}

/// The error member of a response.
#[derive(Debug)]
pub struct JsonRpcError {
    pub code: i32,
    pub message: String,
    pub data: Option<JsonValue>,
}

/// A response to a request: a result or an error.
#[derive(Debug)]
pub struct JsonRpcResponse {
    pub jsonrpc: &'static str,
    pub id: u64,
    pub result: Option<JsonValue>,
    pub error: Option<JsonRpcError>,
}

impl JsonRpcResponse {
    /// A successful response carrying `result`.
    pub fn success(id: u64, result: JsonValue) -> (r: Self)
        ensures
            r.jsonrpc@ == "2.0"@,
            r.id == id,
            r.result == Some(result),
            r.error is None,
    {
        JsonRpcResponse { jsonrpc: "2.0", id, result: Some(result), error: None }
    }

    /// An error response with `code` and `message` and no data.
    pub fn error(id: u64, code: i32, message: &str) -> (r: Self)
        ensures
            r.jsonrpc@ == "2.0"@,
            r.id == id,
            r.result is None,
            r.error matches Some(e) && e.code == code && e.message@ == message@ && e.data is None,
    {
        JsonRpcResponse {
            jsonrpc: "2.0",
            id,
            result: None,
            error: Some(JsonRpcError { code, message: message.to_owned(), data: None }),
        }
    }
}

/// A notification (a message without id).
#[derive(Debug)]
pub struct JsonRpcNotification {
    pub jsonrpc: &'static str,
    pub method: String,
    pub params: Option<JsonValue>,
}

impl JsonRpcNotification {
    pub fn new(method: &str, params: Option<JsonValue>) -> (r: Self)
        ensures
            r.jsonrpc@ == "2.0"@,
            r.method@ == method@,
            r.params == params,
    {
        JsonRpcNotification { jsonrpc: "2.0", method: method.to_owned(), params }
    }
}

/// Writes protocol messages, one JSON document per line, to standard output.
#[derive(Debug)]
pub struct NdjsonTransport;

impl NdjsonTransport {
    pub fn new() -> (r: Self) {
        NdjsonTransport
    }
}

impl Default for NdjsonTransport {
    fn default() -> (r: Self) {
        NdjsonTransport
    }
}

} // verus!
