//! Configuration and URL validation of the MCP HTTP transport.

use vstd::prelude::*;
use std::collections::HashMap;
use crate::mcp_error::McpError;
use crate::text::{seq_starts_with, str_starts_with, signed_decimal, i64_value, parse_i64, push_decimal_i64, push_decimal_u64, decimal};
use crate::json::{JsonValue, member_of};

verus! {

/// Configuration for connecting to an MCP server over HTTP.
#[derive(Debug, Clone)]
pub struct HttpTransportConfig {
    /// The URL of the MCP server (must be http:// or https://).
    pub url: String,
    /// Default timeout for HTTP requests (milliseconds).
    pub timeout_ms: u64,
    /// Additional HTTP headers to include in every request.
    pub headers: HashMap<String, String>,
    /// Client name sent during initialization.
    pub client_name: String,
    /// Client version sent during initialization.
    pub client_version: String,
}

impl Default for HttpTransportConfig {
    fn default() -> (r: Self)
        ensures
            r.url@ == Seq::<char>::empty(),
            r.headers@ == Map::<String, String>::empty(),
            r.timeout_ms == 60_000,
            r.client_name@ == "simse"@,
            r.client_version@ == "1.0.0"@,
    {
        HttpTransportConfig {
            url: String::new(),
            timeout_ms: 60_000,
            headers: HashMap::new(),
            client_name: "simse".to_owned(),
            client_version: "1.0.0".to_owned(),
        }
    }
}

/// A URL is accepted when it is non-empty and uses the http or https scheme.
pub fn validate_url(url: &str) -> (r: Result<(), McpError>)
    ensures
        url@.len() == 0 ==> (r matches Err(McpError::TransportConfigError(m)) && m@ == "URL must not be empty"@),
        url@.len() > 0 && !seq_starts_with(url@, "http://"@) && !seq_starts_with(url@, "https://"@) ==>
            (r matches Err(McpError::TransportConfigError(m))
                && m@ == "URL must use http:// or https:// scheme, got: "@ + url@),
        r is Ok <==> (url@.len() > 0 && (seq_starts_with(url@, "http://"@) || seq_starts_with(url@, "https://"@))),
{
    if url.is_empty() {
        return Err(McpError::TransportConfigError("URL must not be empty".to_owned()));
    }
    if !str_starts_with(url, "http://") && !str_starts_with(url, "https://") {
        let mut m = String::new();
        m.append("URL must use http:// or https:// scheme, got: ");
        m.append(url);
        return Err(McpError::TransportConfigError(m));
    }
    Ok(())
}

/// A handle on a notification subscription.
#[derive(Debug)]
pub struct SubscriptionHandle {
    active: bool,
}

impl SubscriptionHandle {
    pub closed spec fn active_spec(&self) -> bool {
        self.active
    }

    /// Whether notifications still reach the handler.
    pub fn is_active(&self) -> (r: bool)
        ensures
            r == self.active_spec(),
    {
        self.active
    }
}

/// The state of an MCP transport over HTTP: its configuration, whether it is
/// connected, and the id the next JSON-RPC request gets. (The HTTP client
/// itself is held by the caller that performs the requests.)
#[derive(Debug)]
pub struct HttpTransport {
    config: HttpTransportConfig,
    connected: bool,
    next_id: u64,
    /// Default timeout for requests (milliseconds).
    default_timeout_ms: u64,
}

impl HttpTransport {
    pub closed spec fn connected_spec(&self) -> bool {
        self.connected
    }

    pub closed spec fn next_id_spec(&self) -> u64 {
        self.next_id
    }

    pub closed spec fn config_spec(&self) -> HttpTransportConfig {
        self.config
    }

    pub closed spec fn timeout_spec(&self) -> u64 {
        self.default_timeout_ms
    }

    /// The configuration.
    pub fn config(&self) -> (r: &HttpTransportConfig)
        ensures
            *r == self.config_spec(),
    {
        &self.config
    }

    /// The default request timeout (milliseconds).
    pub fn default_timeout_ms(&self) -> (r: u64)
        ensures
            r == self.timeout_spec(),
    {
        self.default_timeout_ms
    }

    /// A transport for `config`; it is not connected until `begin_connect`.
    pub fn new(config: HttpTransportConfig) -> (r: Self)
        ensures
            !r.connected_spec(),
            r.next_id_spec() == 1,
            r.timeout_spec() == config.timeout_ms,
            r.config_spec() == config,
    {
        let default_timeout_ms = config.timeout_ms;
        HttpTransport { config, connected: false, next_id: 1, default_timeout_ms }
    }

    /// Whether the transport is connected.
    pub fn is_connected(&self) -> (r: bool)
        ensures
            r == self.connected_spec(),
    {
        self.connected
    }

    /// Start connecting: refused when already connected or when the URL is
    /// not an http(s) URL; otherwise the transport counts as connected while
    /// the handshake runs.
    pub fn begin_connect(&mut self) -> (r: Result<(), McpError>)
        ensures
            old(self).connected_spec() ==> (r matches Err(McpError::ConnectionFailed(m)) && m@ == "Already connected"@),
            !old(self).connected_spec() ==> match validate_url_spec(old(self).config_spec().url@) {
                Ok(()) => r is Ok,
                Err(m) => r matches Err(McpError::TransportConfigError(t)) && t@ == m,
            },
            r is Ok ==> final(self).connected_spec(),
            r is Err ==> final(self).connected_spec() == old(self).connected_spec(),
            final(self).next_id_spec() == old(self).next_id_spec(),
            final(self).config_spec() == old(self).config_spec(),
            final(self).timeout_spec() == old(self).timeout_spec(),
    {
        if self.connected {
            return Err(McpError::ConnectionFailed("Already connected".to_owned()));
        }
        validate_url(self.config.url.as_str())?;
        self.connected = true;
        Ok(())
    }

    /// The handshake failed: the transport is disconnected again.
    pub fn handshake_failed(&mut self)
        ensures
            !final(self).connected_spec(),
            final(self).next_id_spec() == old(self).next_id_spec(),
            final(self).config_spec() == old(self).config_spec(),
            final(self).timeout_spec() == old(self).timeout_spec(),
    {
        self.connected = false;
    }

    /// Close the transport.
    pub fn close(&mut self)
        ensures
            !final(self).connected_spec(),
            final(self).next_id_spec() == old(self).next_id_spec(),
            final(self).config_spec() == old(self).config_spec(),
            final(self).timeout_spec() == old(self).timeout_spec(),
    {
        self.connected = false;
    }

    /// A request may only be sent while connected.
    pub fn check_connected(&self) -> (r: Result<(), McpError>)
        ensures
            r is Ok <==> self.connected_spec(),
            r is Err ==> (r matches Err(McpError::ConnectionFailed(m)) && m@ == "HTTP transport is not connected"@),
    {
        if !self.connected {
            return Err(McpError::ConnectionFailed("HTTP transport is not connected".to_owned()));
        }
        Ok(())
    }

    /// Take the id of the next request; ids count up from 1 (wrapping).
    pub fn next_request_id(&mut self) -> (r: u64)
        ensures
            r == old(self).next_id_spec(),
            final(self).next_id_spec() == (if old(self).next_id_spec() == u64::MAX { 0 } else { old(self).next_id_spec() + 1 }),
            final(self).connected_spec() == old(self).connected_spec(),
            final(self).config_spec() == old(self).config_spec(),
            final(self).timeout_spec() == old(self).timeout_spec(),
    {
        let id = self.next_id;
        self.next_id = if id == u64::MAX { 0 } else { id + 1 };
        id
    }

    /// Server notifications are not carried over HTTP: the handle is born
    /// inactive.
    pub fn on_notification(&self, method: &str) -> (r: SubscriptionHandle)
        ensures
            !r.active_spec(),
    {
        SubscriptionHandle { active: false }
    }
}

/// The URL check as a value: the error message, if any.
pub open spec fn validate_url_spec(url: Seq<char>) -> Result<(), Seq<char>> {
    if url.len() == 0 {
        Err("URL must not be empty"@)
    } else if !seq_starts_with(url, "http://"@) && !seq_starts_with(url, "https://"@) {
        Err("URL must use http:// or https:// scheme, got: "@ + url)
    } else {
        Ok(())
    }
}

fn member(key: &str, value: JsonValue) -> (r: (String, JsonValue))
    ensures
        r.0@ == key@,
        r.1 == value,
{
    (key.to_owned(), value)
}

/// The body of a JSON-RPC 2.0 request.
pub fn rpc_request_body(id: u64, method: &str, params: JsonValue) -> (r: JsonValue)
    ensures
        r.str_field("jsonrpc"@) == Some("2.0"@),
        r.field("id"@) matches Some(JsonValue::Number(n)) && n@ == decimal(id as nat),
        r.str_field("method"@) == Some(method@),
        r.field("params"@) == Some(params),
        r matches JsonValue::Object(m) && m@.len() == 4 && m@[0].0@ == "jsonrpc"@ && m@[1].0@ == "id"@
            && m@[2].0@ == "method"@ && m@[3].0@ == "params"@,
{
    let mut n = String::new();
    push_decimal_u64(&mut n, id);
    let members = vec![
        member("jsonrpc", JsonValue::Str("2.0".to_owned())),
        member("id", JsonValue::Number(n)),
        member("method", JsonValue::Str(method.to_owned())),
        member("params", params),
    ];
    proof {
        reveal_strlit("jsonrpc");
        reveal_strlit("id");
        reveal_strlit("method");
        reveal_strlit("params");
        let m = members@;
        let m1 = m.drop_first();
        let m2 = m1.drop_first();
        let m3 = m2.drop_first();
        assert(m[0].0@ == "jsonrpc"@);
        assert(m1[0].0@ == "id"@);
        assert("jsonrpc"@.len() == 7 && "id"@.len() == 2 && "method"@.len() == 6 && "params"@.len() == 6);
        assert("method"@[0] != "params"@[0]);
        assert(m[0].0@ != "id"@ && m[0].0@ != "method"@ && m[0].0@ != "params"@);
        assert(m1[0].0@ != "method"@ && m1[0].0@ != "params"@);
        assert(m2[0].0@ == "method"@);
        assert(m2[0].0@ != "params"@);
        assert(member_of(m, "id"@) == member_of(m1, "id"@));
        assert(member_of(m, "method"@) == member_of(m1, "method"@));
        assert(member_of(m1, "method"@) == member_of(m2, "method"@));
        assert(member_of(m, "params"@) == member_of(m1, "params"@));
        assert(member_of(m1, "params"@) == member_of(m2, "params"@));
        assert(member_of(m2, "params"@) == member_of(m3, "params"@));
    }
    JsonValue::Object(members)
}

/// What came back for an HTTP request.
#[derive(Debug)]
pub enum HttpReply {
    /// The request could not be sent or timed out.
    Failed { timed_out: bool, detail: String },
    /// The server answered with a status other than success (its text, such
    /// as `404 Not Found`).
    Status { status: String },
    /// The body could not be read as JSON (the parser's message).
    Unreadable { detail: String },
    /// The JSON body.
    Body(JsonValue),
}

/// The integer value of a JSON number.
pub open spec fn json_i64(v: Option<JsonValue>) -> Option<i64> {
    match v {
        Some(JsonValue::Number(n)) => i64_value(n@),
        _ => None,
    }
}

/// The error code of a JSON-RPC error object (-1 when missing).
pub open spec fn rpc_error_code(e: JsonValue) -> i64 {
    match json_i64(e.field("code"@)) {
        Some(c) => c,
        None => -1i64,
    }
}

/// The message of a JSON-RPC error object.
pub open spec fn rpc_error_message(e: JsonValue) -> Seq<char> {
    match e.str_field("message"@) {
        Some(m) => m,
        None => "Unknown error"@,
    }
}

/// Read the JSON-RPC result out of an HTTP reply: transport failures,
/// unsuccessful statuses, unreadable bodies and JSON-RPC error objects are
/// errors; otherwise the `result` member (null when missing).
pub fn rpc_result(method: &str, timeout_ms: u64, reply: HttpReply) -> (r: Result<JsonValue, McpError>)
    ensures
        match reply {
            HttpReply::Failed { timed_out, detail } => if timed_out {
                r matches Err(McpError::Timeout { method: m, timeout_ms: t }) && m@ == method@ && t == timeout_ms
            } else {
                r matches Err(McpError::ConnectionFailed(m)) && m@ == "HTTP request failed: "@ + detail@
            },
            HttpReply::Status { status } => r matches Err(McpError::ProtocolError(m))
                && m@ == "HTTP "@ + status@ + " for method '"@ + method@ + "'"@,
            HttpReply::Unreadable { detail } => r matches Err(McpError::ProtocolError(m))
                && m@ == "Failed to parse response body: "@ + detail@,
            HttpReply::Body(body) => match body.field("error"@) {
                Some(e) => r matches Err(McpError::ProtocolError(m))
                    && m@ == "MCP error "@ + signed_decimal(rpc_error_code(e) as int) + ": "@ + rpc_error_message(e),
                None => match body.field("result"@) {
                    Some(v) => r == Ok::<JsonValue, McpError>(v),
                    None => r == Ok::<JsonValue, McpError>(JsonValue::Null),
                },
            },
        },
{
    match reply {
        HttpReply::Failed { timed_out, detail } => {
            if timed_out {
                Err(McpError::Timeout { method: method.to_owned(), timeout_ms })
            } else {
                let mut m = "HTTP request failed: ".to_owned();
                m.append(detail.as_str());
                Err(McpError::ConnectionFailed(m))
            }
        },
        HttpReply::Status { status } => {
            let mut m = "HTTP ".to_owned();
            m.append(status.as_str());
            m.append(" for method '");
            m.append(method);
            m.append("'");
            Err(McpError::ProtocolError(m))
        },
        HttpReply::Unreadable { detail } => {
            let mut m = "Failed to parse response body: ".to_owned();
            m.append(detail.as_str());
            Err(McpError::ProtocolError(m))
        },
        HttpReply::Body(body) => {
            let failure = match body.get("error") {
                Some(e) => {
                    let code: i64 = match e.get("code") {
                        Some(JsonValue::Number(n)) => match parse_i64(n.as_str()) {
                            Some(c) => c,
                            None => -1,
                        },
                        _ => -1,
                    };
                    let message = match e.get_str("message") {
                        Some(t) => t,
                        None => "Unknown error",
                    };
                    let mut m = "MCP error ".to_owned();
                    push_decimal_i64(&mut m, code);
                    m.append(": ");
                    m.append(message);
                    Some(m)
                },
                None => None,
            };
            match failure {
                Some(m) => Err(McpError::ProtocolError(m)),
                None => match body.into_field("result") {
                    Some(v) => Ok(v),
                    None => Ok(JsonValue::Null),
                },
            }
        },
    }
}

} // verus!
