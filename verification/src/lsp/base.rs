//! The base types of the language server protocol: JSON-RPC envelopes and
//! text document positions.

use std::collections::HashMap;

use vstd::prelude::*;

verus! {

/// Any JSON value (`LSPAny` in the protocol).
#[verifier::external_type_specification]
#[verifier::external_body]
pub struct ExJsonValue(serde_json::Value);

/// The data of the uncompacted-URI diagnostic: the prefix, the namespace it
/// stands for, and the compact URI.
#[derive(Debug, PartialEq, Clone)]
pub struct UncompactedUrisDiagnosticData(pub String, pub String, pub String);

/// The common part of every JSON-RPC message.
#[derive(Debug, PartialEq, Clone)]
pub struct Message {
    pub jsonrpc: String,
}

#[derive(Debug, PartialEq, Clone)]
pub enum RequestId {
    String(String),
    Integer(u32),
}

/// What a request id stands for.
pub enum RequestIdView {
    String(Seq<char>),
    Integer(u32),
}

impl View for RequestId {
    type V = RequestIdView;

    open spec fn view(&self) -> RequestIdView {
        match self {
            RequestId::String(s) => RequestIdView::String(s@),
            RequestId::Integer(n) => RequestIdView::Integer(*n),
        }
    }
}

impl RequestId {
    /// A copy of the id.
    pub fn duplicate(&self) -> (r: RequestId)
        ensures
            r@ == self@,
    {
        match self {
            RequestId::String(s) => RequestId::String(s.clone()),
            RequestId::Integer(n) => RequestId::Integer(*n),
        }
    }
}

/// The version of JSON-RPC that the server speaks.
pub open spec fn jsonrpc_version() -> Seq<char> {
    seq!['2', '.', '0']
}

fn jsonrpc_message() -> (m: Message)
    ensures
        m.jsonrpc@ == jsonrpc_version(),
{
    let mut s = String::new();
    s.append("2.0");
    proof {
        reveal_strlit("2.0");
    }
    assert(s@ =~= jsonrpc_version());
    Message { jsonrpc: s }
}

#[derive(Debug, PartialEq, Clone)]
pub struct RequestMessageBase {
    pub base: Message,
    pub method: String,
    pub id: RequestId,
}

#[derive(Debug, PartialEq, Clone)]
pub struct ResponseMessageBase {
    pub base: Message,
    pub id: RequestId,
}

impl ResponseMessageBase {
    /// The envelope of a successful response to the request with this id.
    pub fn success(id: &RequestId) -> (r: Self)
        ensures
            r.id@ == id@,
            r.base.jsonrpc@ == jsonrpc_version(),
    {
        ResponseMessageBase { base: jsonrpc_message(), id: id.duplicate() }
    }
}

#[derive(Debug, PartialEq, Clone)]
pub struct NotificationMessageBase {
    pub base: Message,
    pub method: String,
}

impl NotificationMessageBase {
    /// The envelope of a notification with this method.
    pub fn new(method: &str) -> (r: Self)
        ensures
            r.method@ == method@,
            r.base.jsonrpc@ == jsonrpc_version(),
    {
        let mut m = String::new();
        m.append(method);
        assert(m@ =~= method@);
        NotificationMessageBase { base: jsonrpc_message(), method: m }
    }
}

#[derive(Debug, PartialEq, Clone, Copy)]
pub struct Position {
    pub line: u32,
    pub character: u32,
}

#[derive(Debug, PartialEq, Clone, Copy)]
pub struct Range {
    pub start: Position,
    pub end: Position,
}

#[derive(Debug, PartialEq, Clone)]
pub struct TextEdit {
    pub range: Range,
    pub new_text: String,
}

#[derive(Debug, PartialEq, Clone)]
pub struct TextDocumentIdentifier {
    pub uri: String,
}

#[derive(Debug, PartialEq, Clone)]
pub struct VersionedTextDocumentIdentifier {
    pub base: TextDocumentIdentifier,
    pub version: u32,
}

#[derive(Debug, PartialEq, Clone)]
pub struct TextDocumentPositionParams {
    pub text_document: TextDocumentIdentifier,
    pub position: Position,
}

#[derive(Debug, PartialEq, Clone)]
pub struct Location {
    pub uri: String,
    pub range: Range,
}

#[derive(Debug, PartialEq, Clone)]
pub struct WorkspaceEdit {
    pub changes: Option<HashMap<String, Vec<TextEdit>>>,
}

#[derive(Debug, PartialEq, Clone)]
pub struct Command {
    pub title: String,
    pub command: String,
    pub arguments: Option<Vec<serde_json::Value>>,
}

#[derive(Debug, PartialEq, Clone)]
pub struct FormattingOptions {
    pub tab_size: u8,
    pub insert_spaces: bool,
}

#[derive(Debug, PartialEq, Clone)]
pub enum DiagnosticSeverity {
    Error,
    Warning,
    Information,
    Hint,
}

#[derive(Debug, PartialEq, Clone)]
pub struct Diagnostic {
    pub range: Range,
    pub severity: DiagnosticSeverity,
    pub code: Option<String>,
    pub source: Option<String>,
    pub message: String,
    pub data: Option<serde_json::Value>,
}

#[derive(Debug, PartialEq, Clone)]
pub enum ErrorCode {
    ParseError,
    InvalidRequest,
    MethodNotFound,
    InvalidParams,
    InternalError,
    ServerNotInitialized,
    UnknownErrorCode,
    RequestFailed,
    ServerCancelled,
    ContentModified,
    RequestCancelled,
}

#[derive(Debug, PartialEq, Clone)]
pub struct LSPError {
    pub code: ErrorCode,
    pub message: String,
    pub data: Option<serde_json::Value>,
}

/// A failed connection to a SPARQL endpoint.
#[derive(Debug, PartialEq, Clone)]
pub struct ConnectionError {
    pub query: String,
    pub status_text: String,
}

#[derive(Debug, PartialEq, Clone)]
pub struct LSPErrorBase {
    pub code: ErrorCode,
    pub message: String,
}

} // verus!
