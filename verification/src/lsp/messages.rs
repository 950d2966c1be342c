//! The messages of the language server protocol that the server handles,
//! and the custom `qlueLs/...` messages.

use std::collections::HashMap;

use vstd::prelude::*;

use crate::configuration::{BackendConfiguration, Settings};
use crate::lsp::base::{
    Command, ConnectionError, ErrorCode, Diagnostic, FormattingOptions, LSPError, LSPErrorBase, Location,
    NotificationMessageBase, Position, Range, RequestId, RequestMessageBase, ResponseMessageBase,
    TextDocumentIdentifier, TextDocumentPositionParams, TextEdit, VersionedTextDocumentIdentifier,
    WorkspaceEdit,
};
use crate::result_reader::PartialResult;
use crate::results::SparqlResult;

verus! {

pub type GetBackendError = LSPError;

pub type DefaultSettingsResult = Settings;

pub type ChangeSettingsParams = serde_json::Value;

pub type DocumentUri = String;

/* qlue_ls_execute.rs */

#[derive(Debug)]
pub struct ExecuteOperationRequest {
    pub base: RequestMessageBase,
    pub params: ExecuteOperationParams,
}

#[derive(Debug)]
pub struct ExecuteOperationParams {
    pub text_document: TextDocumentIdentifier,
    pub max_result_size: Option<usize>,
    pub result_offset: Option<usize>,
    pub query_id: Option<String>,
    pub lazy: Option<bool>,
    pub access_token: Option<String>,
}

#[derive(Debug)]
pub struct ExecuteOperationResponse {
    pub base: ResponseMessageBase,
    pub result: Option<ExecuteOperationResponseResult>,
    pub error: Option<ExecuteOperationError>,
}

#[derive(Debug)]
pub enum ExecuteOperationResponseResult {
    QueryResult(ExecuteQueryResponseResult),
    UpdateResult(ExecuteUpdateResponseResult),
}

#[derive(Debug)]
pub struct ExecuteQueryResponseResult {
    pub time_ms: u128,
    pub result: Option<SparqlResult>,
}

#[derive(Debug)]
pub struct ExecuteUpdateResponseResult {
    pub operations: Vec<ExecuteUpdateOperationResult>,
    pub time: ExecuteUpdateGlobalTimeInfo,
}

#[derive(Debug)]
pub struct ExecuteUpdateGlobalTimeInfo {
    pub total: u64,
    pub parsing: u64,
    pub waiting_for_update_thread: u64,
    pub acquiring_delta_triples_write_lock: u64,
    pub operations: u64,
    pub metadata_update_for_snapshot: u64,
    pub disk_writeback: u64,
    pub snapshot_creation: u64,
}

#[derive(Debug)]
pub struct ExecuteUpdateOperationResult {
    pub status: String,
    pub delta_triples: DeltaTiples,
    pub located_triples: LocatedTriplesStats,
    pub time: ExecuteUpdateOperationTimeInfo,
    pub update: String,
    pub warnings: Vec<String>,
}

#[derive(Debug)]
pub struct ExecuteUpdateOperationTimeInfo {
    pub execution: ExecutionTime,
    pub planning: u64,
    pub total: u64,
    pub update_metadata: u64,
}

#[derive(Debug)]
pub struct ExecutionTime {
    pub clear_cache: u64,
    pub compute_ids: ComputeIdsTime,
    pub delete_triples: TripleWriteTime,
    pub evaluate_where: u64,
    pub insert_triples: TripleWriteTime,
    pub total: u64,
}

#[derive(Debug)]
pub struct ComputeIdsTime {
    pub deduplication: u64,
    pub result_interpolation: u64,
    pub total: u64,
    pub vocab_lookup: u64,
}

#[derive(Debug)]
pub enum TripleWriteTime {
    Skipped(u64),
    Detailed(TripleWriteTimeDetails),
}

#[derive(Debug)]
pub struct TripleWriteTimeDetails {
    pub external_permutation: ExternalPermutationTime,
    pub internal_permutation: InternalPermutationTime,
    pub make_internal_triples: u64,
    pub total: u64,
}

#[derive(Debug)]
pub struct ExternalPermutationTime {
    pub located_and_add: ExternalLocatedAndAdd,
    pub mark_triples: u64,
    pub remove_existing_triples: u64,
    pub remove_inverse_triples: u64,
    pub rewrite_local_vocab_entries: u64,
    pub total: u64,
}

#[derive(Debug)]
pub struct ExternalLocatedAndAdd {
    pub spo: PermutationLocateAdd,
    pub sop: PermutationLocateAdd,
    pub pso: PermutationLocateAdd,
    pub pos: PermutationLocateAdd,
    pub osp: PermutationLocateAdd,
    pub ops: PermutationLocateAdd,
    pub total: u64,
    pub transform_handles: u64,
}

#[derive(Debug)]
pub struct InternalPermutationTime {
    pub located_and_add: InternalLocatedAndAdd,
    pub mark_triples: u64,
    pub remove_existing_triples: u64,
    pub remove_inverse_triples: u64,
    pub rewrite_local_vocab_entries: u64,
    pub total: u64,
}

#[derive(Debug)]
pub struct InternalLocatedAndAdd {
    pub pso: PermutationLocateAdd,
    pub pos: PermutationLocateAdd,
    pub total: u64,
    pub transform_handles: u64,
}

#[derive(Debug)]
pub struct PermutationLocateAdd {
    pub add_to_located_triples: AddToLocatedTriples,
    pub locate_triples: u64,
    pub total: u64,
}

#[derive(Debug)]
pub struct AddToLocatedTriples {
    pub adding: u64,
    pub total: u64,
}

#[derive(Debug)]
pub struct DeltaTiples {
    pub before: TripleDelta,
    pub after: TripleDelta,
    pub difference: TripleDelta,
    pub operation: TripleDelta,
}

#[derive(Debug)]
pub struct LocatedTriplesStats {
    pub spo: LocatedTriplesPermutationStats,
    pub sop: LocatedTriplesPermutationStats,
    pub pso: LocatedTriplesPermutationStats,
    pub pos: LocatedTriplesPermutationStats,
    pub osp: LocatedTriplesPermutationStats,
    pub ops: LocatedTriplesPermutationStats,
}

#[derive(Debug)]
pub struct LocatedTriplesPermutationStats {
    pub blocks_affected: u32,
    pub blocks_total: u32,
}

#[derive(Debug)]
pub struct TripleDelta {
    pub deleted: i64,
    pub inserted: i64,
    pub total: i64,
}

#[derive(Debug)]
pub struct ExecuteOperationError {
    pub base: LSPErrorBase,
    pub data: ExecuteOperationErrorData,
}

#[derive(Debug)]
pub enum ExecuteOperationErrorData {
    QLeverException(QLeverException),
    Connection(ConnectionError),
    Canceled(CanceledError),
    InvalidFormat { query: String, message: String },
    Deserialization { query: String, message: String },
    Unknown,
}

#[derive(Debug)]
pub struct CanceledError {
    pub query: String,
}

#[derive(Debug)]
pub struct QLeverException {
    pub exception: String,
    pub query: String,
    pub status: QLeverStatus,
    pub metadata: Option<Metadata>,
}

#[derive(Debug)]
pub struct Metadata {
    pub line: u32,
    pub position_in_line: u32,
    pub start_index: u32,
    pub stop_index: u32,
}

#[derive(Debug)]
pub enum QLeverStatus {
    Error,
}

#[derive(Debug)]
pub struct PartialSparqlResultNotification {
    pub base: NotificationMessageBase,
    pub params: PartialResult,
}

/* qluels_addbackend.rs */

#[derive(Debug, PartialEq)]
pub struct AddBackendRequest {
    pub base: RequestMessageBase,
    pub params: BackendConfiguration,
}

#[derive(Debug, PartialEq)]
pub struct AddBackendResponse {
    pub base: ResponseMessageBase,
    pub result: Option<serde_json::Value>,
}

#[derive(Debug, PartialEq, Clone)]
pub enum SparqlEngine {
    QLever,
    GraphDB,
    Virtuoso,
    MillenniumDB,
    Blazegraph,
    Jena,
}

/* qluels_completionquery.rs */

/// Reports a completion query that was just rendered and (attempted to be) executed.
///
/// Purely diagnostic: it lets the client show the rendered query, its result size and its
/// failure reason while a completion template is being edited.
#[derive(Debug)]
pub struct CompletionQueryNotification {
    pub base: NotificationMessageBase,
    pub params: CompletionQueryParams,
}

#[derive(Debug)]
pub struct CompletionQueryParams {
    /// Template name, as registered in tera: `"{backend}-{template}"`.
    pub template: String,
    /// The rendered query. Empty if rendering the template failed.
    pub query: String,
    pub url: String,
    pub duration_ms: u32,
    /// Number of bindings the endpoint returned, before search-term filtering.
    pub result_count: Option<usize>,
    pub error: Option<String>,
}

/* qluels_getbackend.rs */

#[derive(Debug, PartialEq)]
pub struct GetBackendRequest {
    pub base: RequestMessageBase,
}

#[derive(Debug, PartialEq)]
pub struct GetBackendResponse {
    pub base: ResponseMessageBase,
    pub result: Option<BackendConfiguration>,
    pub error: Option<GetBackendError>,
}

/* qluels_jump.rs */

#[derive(Debug, PartialEq)]
pub struct JumpRequest {
    pub base: RequestMessageBase,
    pub params: JumpParams,
}

#[derive(Debug, PartialEq)]
pub struct JumpParams {
    pub base: TextDocumentPositionParams,
    pub previous: Option<bool>,
    pub options: Option<FormattingOptions>,
}

#[derive(Debug, PartialEq)]
pub struct JumpResponse {
    pub base: ResponseMessageBase,
    pub result: Option<JumpResult>,
}

#[derive(Debug, PartialEq, Clone)]
pub struct JumpResult {
    pub edits: Vec<TextEdit>,
    pub position: Option<Position>,
}

/* qluels_listbackends.rs */

#[derive(Debug, PartialEq)]
pub struct ListBackendsRequest {
    pub base: RequestMessageBase,
}

#[derive(Debug, PartialEq)]
pub struct ListBackendsResponse {
    pub base: ResponseMessageBase,
    pub result: Vec<ListBackendsItem>,
}

#[derive(Debug, PartialEq)]
pub struct ListBackendsItem {
    pub name: String,
    pub url: String,
    pub default: bool,
}

/* qluels_operationType.rs */

#[derive(Debug, PartialEq)]
pub struct DetermineOperationTypeRequest {
    pub base: RequestMessageBase,
    pub params: DetermineOperationTypeParams,
}

#[derive(Debug, PartialEq)]
pub struct DetermineOperationTypeParams {
    pub text_document: TextDocumentIdentifier,
}

#[derive(Debug, PartialEq)]
pub struct DetermineOperationTypeResponse {
    pub base: ResponseMessageBase,
    pub result: DetermineOperationTypeResult,
}

#[derive(Debug, PartialEq)]
pub struct DetermineOperationTypeResult {
    pub operation_type: OperationType,
}

#[derive(Debug, PartialEq, Clone)]
pub enum OperationType {
    Query,
    Update,
    Unknown,
}

/* qluels_parsetree.rs */

#[derive(Debug, PartialEq)]
pub struct ParseTreeRequest {
    pub base: RequestMessageBase,
    pub params: ParseTreeParams,
}

#[derive(Debug, PartialEq)]
pub struct ParseTreeParams {
    pub text_document: TextDocumentIdentifier,
    pub skip_trivia: Option<bool>,
}

#[derive(Debug, PartialEq)]
pub struct ParseTreeResponse {
    pub base: ResponseMessageBase,
    pub result: ParseTreeElement,
}

#[derive(Debug, PartialEq)]
pub enum ParseTreeElement {
    Node {
        kind: String,
        range: Range,
        children: Vec<ParseTreeElement>,
    },
    Token {
        kind: String,
        range: Range,
        text: String,
    },
}

/* qluels_setbackend.rs */

#[derive(Debug, PartialEq)]
pub struct AddBackendNotification {
    pub base: NotificationMessageBase,
    pub params: SetBackendParams,
}

#[derive(Debug, PartialEq)]
pub struct SetBackendParams {
    pub backend: Backend,
    pub prefix_map: Option<HashMap<String, String>>,
    pub default: bool,
}

#[derive(Debug, PartialEq, Clone)]
pub struct Backend {
    pub name: String,
    pub url: String,
    pub health_check_url: Option<String>,
}

/* qluels_settings.rs */

#[derive(Debug, PartialEq)]
pub struct DefaultSettingsRequest {
    pub base: RequestMessageBase,
}

#[derive(Debug, PartialEq)]
pub struct DefaultSettingsResponse {
    pub base: ResponseMessageBase,
    pub result: DefaultSettingsResult,
}

#[derive(Debug, PartialEq)]
pub struct ChangeSettingsNotification {
    pub base: NotificationMessageBase,
    pub params: ChangeSettingsParams,
}

/* textdocument_completion.rs */

#[derive(Debug, PartialEq)]
pub struct CompletionRequest {
    pub base: RequestMessageBase,
    pub params: CompletionParams,
}

#[derive(Debug, PartialEq)]
pub struct CompletionParams {
    pub base: TextDocumentPositionParams,
    pub context: CompletionContext,
}

#[derive(Debug, PartialEq)]
pub struct CompletionContext {
    pub trigger_kind: CompletionTriggerKind,
    pub trigger_character: Option<String>,
}

#[derive(Debug, PartialEq, Clone)]
pub enum CompletionTriggerKind {
    Invoked,
    TriggerCharacter,
    TriggerForIncompleteCompletions,
}

#[derive(Debug, PartialEq)]
pub struct CompletionResponse {
    pub base: ResponseMessageBase,
    pub result: CompletionList,
}

#[derive(Debug, PartialEq, Default)]
pub struct CompletionList {
    pub is_incomplete: bool,
    pub item_defaults: Option<ItemDefaults>,
    pub items: Vec<CompletionItem>,
}

#[derive(Debug, PartialEq)]
pub struct ItemDefaults {
    /// A default commit character set.
    pub commit_characters: Option<Vec<String>>,

    /// A default edit range
    pub edit_range: Option<Range>,

    /// A default insert text format
    pub insert_text_format: Option<InsertTextFormat>,

    /// A default insert text mode
    pub insert_text_mode: Option<InsertTextMode>,

    /// A default data value.
    pub data: Option<serde_json::Value>,
}

/// https://microsoft.github.io/language-server-protocol/specifications/lsp/3.17/specification/#completionItem
#[derive(Debug, PartialEq)]
pub struct CompletionItem {
    pub label: String,
    pub label_details: Option<CompletionItemLabelDetails>,
    pub kind: Option<CompletionItemKind>,
    pub detail: Option<String>,
    pub documentation: Option<String>,
    pub sort_text: Option<String>,
    pub filter_text: Option<String>,
    pub insert_text: Option<String>,
    pub text_edit: Option<TextEdit>,
    pub insert_text_format: Option<InsertTextFormat>,
    pub additional_text_edits: Option<Vec<TextEdit>>,
    pub command: Option<Command>,
}

#[derive(Debug, PartialEq)]
pub struct CompletionItemLabelDetails {
    pub detail: String,
}

#[derive(Debug, PartialEq)]
pub enum CompletionItemKind {
    Text,
    Method,
    Function,
    Constructor,
    Field,
    Variable,
    Class,
    Interface,
    Module,
    Property,
    Unit,
    Value,
    Enum,
    Keyword,
    Snippet,
    Color,
    File,
    Reference,
    Folder,
    EnumMember,
    Constant,
    Struct,
    Event,
    Operator,
    TypeParameter,
}

#[derive(Debug, PartialEq)]
pub enum InsertTextFormat {
    PlainText,
    Snippet,
}

#[derive(Debug, PartialEq)]
pub enum InsertTextMode {
    AsIs,
    AdjustIndentation,
}

#[derive(Debug, Default)]
pub struct CompletionItemBuilder {
    pub label: Option<String>,
    pub label_details: Option<CompletionItemLabelDetails>,
    pub kind: Option<CompletionItemKind>,
    pub detail: Option<String>,
    pub documentation: Option<String>,
    pub sort_text: Option<String>,
    pub filter_text: Option<String>,
    pub insert_text: Option<String>,
    pub text_edit: Option<TextEdit>,
    pub insert_text_format: Option<InsertTextFormat>,
    pub additional_text_edits: Option<Vec<TextEdit>>,
    pub command: Option<Command>,
}

/* textdocument_diagnostic.rs */

#[derive(Debug, PartialEq)]
pub struct DiagnosticRequest {
    pub base: RequestMessageBase,
    pub params: DocumentDiagnosticParams,
}

#[derive(Debug, PartialEq)]
pub struct DocumentDiagnosticParams {
    pub text_document: TextDocumentIdentifier,
}

#[derive(Debug, PartialEq)]
pub struct DiagnosticResponse {
    pub base: ResponseMessageBase,
    pub result: DocumentDiagnosticReport,
}

#[derive(Debug, PartialEq)]
pub struct DocumentDiagnosticReport {
    pub kind: DocumentDiagnosticReportKind,
    pub items: Vec<Diagnostic>,
}

#[derive(Debug, PartialEq)]
pub enum DocumentDiagnosticReportKind {
    Full,
}

/// Notification sent from the server to the client to publish diagnostics.
///
/// See: https://microsoft.github.io/language-server-protocol/specifications/lsp/3.17/specification/#textDocument_publishDiagnostics
#[derive(Debug, PartialEq)]
pub struct PublishDiagnosticsNotification {
    pub base: NotificationMessageBase,
    pub params: PublishDiagnosticsParams,
}

#[derive(Debug, PartialEq)]
pub struct PublishDiagnosticsParams {
    /// The URI for which diagnostic information is reported.
    pub uri: DocumentUri,
    /// An array of diagnostic information items.
    pub diagnostics: Vec<Diagnostic>,
    /// Optional the version number of the document the diagnostics are published for.
    pub version: Option<u32>,
}

/* textdocument_didchange.rs */

#[derive(Debug, PartialEq)]
pub struct DidChangeTextDocumentNotification {
    pub base: NotificationMessageBase,
    pub params: DidChangeTextDocumentParams,
}

#[derive(Debug, PartialEq)]
pub struct DidChangeTextDocumentParams {
    pub text_document: VersionedTextDocumentIdentifier,
    pub content_changes: Vec<TextDocumentContentChangeEvent>,
}

#[derive(Debug, PartialEq)]
pub struct TextDocumentContentChangeEvent {
    pub range: Option<Range>,
    pub text: String,
}

/* textdocument_document_highlight.rs */

#[derive(Debug, PartialEq)]
pub struct DocumentHighlightRequest {
    pub base: RequestMessageBase,
    pub params: DocumentHighlightParams,
}

#[derive(Debug, PartialEq)]
pub struct DocumentHighlightParams {
    pub text_document_position: TextDocumentPositionParams,
}

#[derive(Debug, PartialEq, Clone)]
pub struct DocumentHighlight {
    /// The range this highlight applies to.
    pub range: Range,
    /// The highlight kind, default is `DocumentHighlightKind::Text`.
    pub kind: Option<DocumentHighlightKind>,
}

#[derive(Debug, PartialEq, Clone)]
pub enum DocumentHighlightKind {
    /// A textual occurrence.
    Text,
    /// Read-access of a symbol, like reading a variable.
    Read,
    /// Write-access of a symbol, like writing to a variable.
    Write,
}

#[derive(Debug, PartialEq)]
pub struct DocumentHighlightResponse {
    pub base: ResponseMessageBase,
    pub result: Option<Vec<DocumentHighlight>>,
}

/* textdocument_on_type_formatting.rs */

#[derive(Debug, PartialEq)]
pub struct OnTypeFormattingRequest {
    pub base: RequestMessageBase,
    pub params: DocumentOnTypeFormattingParams,
}

#[derive(Debug, PartialEq)]
pub struct DocumentOnTypeFormattingParams {
    pub text_document: TextDocumentIdentifier,
    pub position: Position,
    /// The character that has been typed that triggered the formatting on type request.
    pub ch: String,
    pub options: FormattingOptions,
}

#[derive(Debug, PartialEq)]
pub struct OnTypeFormattingResponse {
    pub base: ResponseMessageBase,
    pub result: Option<Vec<TextEdit>>,
}

/* textdocument_references.rs */

#[derive(Debug, PartialEq)]
pub struct ReferencesRequest {
    pub base: RequestMessageBase,
    pub params: ReferenceParams,
}

#[derive(Debug, PartialEq)]
pub struct ReferenceParams {
    pub text_document_position: TextDocumentPositionParams,
    pub context: ReferenceContext,
}

#[derive(Debug, PartialEq)]
pub struct ReferenceContext {
    /// Include the declaration of the current symbol.
    pub include_declaration: bool,
}

#[derive(Debug, PartialEq)]
pub struct ReferencesResponse {
    pub base: ResponseMessageBase,
    pub result: Option<Vec<Location>>,
}

/* textdocument_rename.rs */

#[derive(Debug, PartialEq)]
pub struct RenameRequest {
    pub base: RequestMessageBase,
    pub params: RenameParams,
}

#[derive(Debug, PartialEq)]
pub struct RenameParams {
    pub text_document_position: TextDocumentPositionParams,
    /// The new name of the symbol. If the given name is not valid the
    /// request must return a `ResponseError` with an
    /// appropriate message set.
    pub new_name: String,
}

#[derive(Debug, PartialEq)]
pub struct RenameResponse {
    pub base: ResponseMessageBase,
    pub result: Option<WorkspaceEdit>,
}

/* textdocument_semantic_tokens.rs */

#[derive(Debug, PartialEq)]
pub struct SemanticTokensFullRequest {
    pub base: RequestMessageBase,
    pub params: SemanticTokensParams,
}

#[derive(Debug, PartialEq)]
pub struct SemanticTokensParams {
    /// The text document.
    pub text_document: TextDocumentIdentifier,
}

#[derive(Debug, PartialEq)]
pub struct SemanticTokensRangeRequest {
    pub base: RequestMessageBase,
    pub params: SemanticTokensRangeParams,
}

#[derive(Debug, PartialEq)]
pub struct SemanticTokensRangeParams {
    /// The text document.
    pub text_document: TextDocumentIdentifier,

    /// The range the semantic tokens are requested for.
    pub range: Range,
}

#[derive(Debug, PartialEq)]
pub struct SemanticTokensFullResponse {
    pub base: ResponseMessageBase,
    pub result: Option<SemanticTokens>,
}

#[derive(Debug, PartialEq)]
pub struct SemanticTokens {
    /// An optional result id. If provided and clients support delta updating
    /// the client will include the result id in the next semantic token request.
    /// A server can then instead of computing all semantic tokens again simply
    /// send a delta.
    pub result_id: Option<String>,

    /// The actual tokens.
    pub data: Vec<u32>,
}

/* ---------------------------------------------------------------------------
   Constructors and accessors
   ------------------------------------------------------------------------ */

fn string_of(s: &str) -> (r: String)
    ensures
        r@ == s@,
{
    let mut r = String::new();
    r.append(s);
    assert(r@ =~= s@);
    r
}

/// The JSON value `null`, made by `serde_json::Value::Null`. The value is
/// opaque here, so the contract states nothing of it.
#[verifier::external_body]
fn json_null() -> serde_json::Value {
    serde_json::Value::Null
}

impl ExecuteOperationRequest {
    pub fn get_id(&self) -> (r: &RequestId)
        ensures
            *r == self.base.id,
    {
        &self.base.id
    }
}

/// The message of an error of an operation.
pub open spec fn operation_error_message(e: ExecuteOperationErrorData) -> Seq<char> {
    match e {
        ExecuteOperationErrorData::QLeverException(_) => "Qlever threw an error."@,
        ExecuteOperationErrorData::Connection(_) => "The connection to the endpoint failed."@,
        ExecuteOperationErrorData::Canceled(_) => "The query was canceled."@,
        ExecuteOperationErrorData::InvalidFormat { .. } => "Update result could not be deserialized."@,
        ExecuteOperationErrorData::Deserialization { .. } => "The result of the query could not be deserialized."@,
        ExecuteOperationErrorData::Unknown => "An unknown error occured"@,
    }
}

impl ExecuteOperationResponse {
    pub fn success(id: &RequestId, result: ExecuteOperationResponseResult) -> (r: Self)
        ensures
            r.base.id@ == id@,
            r.result == Some(result),
            r.error is None,
    {
        Self { base: ResponseMessageBase::success(id), result: Some(result), error: None }
    }

    pub fn error(id: &RequestId, error: ExecuteOperationErrorData) -> (r: Self)
        ensures
            r.base.id@ == id@,
            r.result is None,
            r.error matches Some(e) && e.data == error && e.base.code == ErrorCode::RequestFailed
                && e.base.message@ == operation_error_message(error),
    {
        let message = match &error {
            ExecuteOperationErrorData::QLeverException(_) => "Qlever threw an error.",
            ExecuteOperationErrorData::Connection(_) => "The connection to the endpoint failed.",
            ExecuteOperationErrorData::Canceled(_) => "The query was canceled.",
            ExecuteOperationErrorData::InvalidFormat { .. } => "Update result could not be deserialized.",
            ExecuteOperationErrorData::Deserialization { .. } => "The result of the query could not be deserialized.",
            ExecuteOperationErrorData::Unknown => "An unknown error occured",
        };
        Self {
            base: ResponseMessageBase::success(id),
            result: None,
            error: Some(
                ExecuteOperationError {
                    base: LSPErrorBase { code: ErrorCode::RequestFailed, message: string_of(message) },
                    data: error,
                },
            ),
        }
    }
}

impl PartialSparqlResultNotification {
    pub fn new(chunk: PartialResult) -> (r: Self)
        ensures
            r.base.method@ == "qlueLs/partialResult"@,
            r.params == chunk,
    {
        Self { base: NotificationMessageBase::new("qlueLs/partialResult"), params: chunk }
    }
}

impl AddBackendRequest {
    pub fn get_id(&self) -> (r: &RequestId)
        ensures
            *r == self.base.id,
    {
        &self.base.id
    }
}

impl AddBackendResponse {
    /// The answer to an added backend: the result `null`.
    pub fn new(id: &RequestId) -> (r: Self)
        ensures
            r.base.id@ == id@,
            r.result is Some,
    {
        Self { base: ResponseMessageBase::success(id), result: Some(json_null()) }
    }
}

impl CompletionQueryNotification {
    pub fn new(params: CompletionQueryParams) -> (r: Self)
        ensures
            r.base.method@ == "qlueLs/completionQuery"@,
            r.params == params,
    {
        Self { base: NotificationMessageBase::new("qlueLs/completionQuery"), params }
    }
}

impl GetBackendRequest {
    pub fn get_id(&self) -> (r: &RequestId)
        ensures
            *r == self.base.id,
    {
        &self.base.id
    }
}

impl GetBackendResponse {
    /// The configured default backend, or an error when there is none.
    pub fn new(id: &RequestId, backend: Option<&BackendConfiguration>) -> (r: Self)
        ensures
            r.base.id@ == id@,
            r.result is Some <==> backend is Some,
            r.error is Some <==> backend is None,
            r.error matches Some(e) ==> e.code == ErrorCode::InvalidParams && e.message@
                == "No default backend is configured."@ && e.data is None,
    {
        if let Some(backend) = backend {
            Self { base: ResponseMessageBase::success(id), result: Some(backend.clone()), error: None }
        } else {
            Self {
                base: ResponseMessageBase::success(id),
                result: None,
                error: Some(
                    LSPError {
                        code: ErrorCode::InvalidParams,
                        message: string_of("No default backend is configured."),
                        data: None,
                    },
                ),
            }
        }
    }
}

impl JumpRequest {
    pub fn get_id(&self) -> (r: &RequestId)
        ensures
            *r == self.base.id,
    {
        &self.base.id
    }
}

impl JumpResponse {
    pub fn new(id: &RequestId, result: Option<JumpResult>) -> (r: Self)
        ensures
            r.base.id@ == id@,
            r.result == result,
    {
        Self { base: ResponseMessageBase::success(id), result }
    }
}

impl ListBackendsRequest {
    pub fn get_id(&self) -> (r: &RequestId)
        ensures
            *r == self.base.id,
    {
        &self.base.id
    }
}

impl ListBackendsResponse {
    /// One item (name, url, default) per backend, in order.
    pub fn new(id: &RequestId, backends: Vec<&BackendConfiguration>) -> (r: Self)
        ensures
            r.base.id@ == id@,
            r.result.len() == backends.len(),
            forall|i: int|
                #![trigger r.result@[i]]
                0 <= i < backends.len() ==> r.result@[i].name@ == backends@[i].name@
                    && r.result@[i].url@ == backends@[i].url@ && r.result@[i].default
                    == backends@[i].default,
    {
        let mut items: Vec<ListBackendsItem> = Vec::new();
        let mut i: usize = 0;
        while i < backends.len()
            invariant
                i <= backends.len(),
                items.len() == i,
                forall|j: int|
                    #![trigger items@[j]]
                    0 <= j < i ==> items@[j].name@ == backends@[j].name@ && items@[j].url@
                        == backends@[j].url@ && items@[j].default == backends@[j].default,
            decreases backends.len() - i,
        {
            let backend = backends[i];
            items.push(
                ListBackendsItem {
                    name: backend.name.clone(),
                    url: backend.url.clone(),
                    default: backend.default,
                },
            );
            i = i + 1;
        }
        Self { base: ResponseMessageBase::success(id), result: items }
    }
}

impl DetermineOperationTypeResponse {
    pub fn new(id: RequestId, operation_type: OperationType) -> (r: Self)
        ensures
            r.base.id@ == id@,
            r.result.operation_type == operation_type,
    {
        Self {
            base: ResponseMessageBase::success(&id),
            result: DetermineOperationTypeResult { operation_type },
        }
    }
}

impl OperationType {
    /// The name of the operation type as sent to the client.
    pub fn name(&self) -> (r: &'static str)
        ensures
            r@ == match self {
                OperationType::Query => "Query"@,
                OperationType::Update => "Update"@,
                OperationType::Unknown => "Unknown"@,
            },
    {
        match self {
            OperationType::Query => "Query",
            OperationType::Update => "Update",
            OperationType::Unknown => "Unknown",
        }
    }
}

impl ParseTreeResponse {
    pub fn new(id: &RequestId, result: ParseTreeElement) -> (r: Self)
        ensures
            r.base.id@ == id@,
            r.result == result,
    {
        Self { base: ResponseMessageBase::success(id), result }
    }
}

impl DefaultSettingsResponse {
    pub fn new(id: RequestId, settings: DefaultSettingsResult) -> (r: Self)
        ensures
            r.base.id@ == id@,
            r.result == settings,
    {
        Self { base: ResponseMessageBase::success(&id), result: settings }
    }
}

impl CompletionRequest {
    pub fn get_text_position(&self) -> (r: &TextDocumentPositionParams)
        ensures
            *r == self.params.base,
    {
        &self.params.base
    }

    pub fn get_id(&self) -> (r: &RequestId)
        ensures
            *r == self.base.id,
    {
        &self.base.id
    }

    pub fn get_completion_context(&self) -> (r: &CompletionContext)
        ensures
            *r == self.params.context,
    {
        &self.params.context
    }
}

impl CompletionResponse {
    pub fn new(id: &RequestId, completion_list: CompletionList) -> (r: Self)
        ensures
            r.base.id@ == id@,
            r.result == completion_list,
    {
        CompletionResponse { base: ResponseMessageBase::success(id), result: completion_list }
    }
}

impl CompletionItem {
    pub fn new(
        label: &str,
        detail: Option<String>,
        sort_text: Option<String>,
        insert_text: &str,
        kind: CompletionItemKind,
        additional_text_edits: Option<Vec<TextEdit>>,
    ) -> (r: Self)
        ensures
            r.label@ == label@,
            r.label_details is None,
            r.kind == Some(kind),
            r.detail == detail,
            r.documentation is None,
            r.sort_text == sort_text,
            r.filter_text is None,
            r.insert_text matches Some(t) && t@ == insert_text@,
            r.text_edit is None,
            r.insert_text_format is None,
            r.additional_text_edits == additional_text_edits,
            r.command is None,
    {
        Self {
            label: string_of(label),
            label_details: None,
            kind: Some(kind),
            detail,
            documentation: None,
            sort_text,
            filter_text: None,
            insert_text: Some(string_of(insert_text)),
            text_edit: None,
            insert_text_format: None,
            additional_text_edits,
            command: None,
        }
    }
}

/// The builder with one field replaced keeps all others.
pub open spec fn same_except_label(a: CompletionItemBuilder, b: CompletionItemBuilder) -> bool {
    &&& a.label_details == b.label_details
    &&& a.kind == b.kind
    &&& a.detail == b.detail
    &&& a.documentation == b.documentation
    &&& a.sort_text == b.sort_text
    &&& a.filter_text == b.filter_text
    &&& a.insert_text == b.insert_text
    &&& a.text_edit == b.text_edit
    &&& a.insert_text_format == b.insert_text_format
    &&& a.additional_text_edits == b.additional_text_edits
    &&& a.command == b.command
}

impl CompletionItemBuilder {
    pub fn new() -> (r: Self)
        ensures
            r.label is None && r.label_details is None && r.kind is None && r.detail is None
                && r.documentation is None && r.sort_text is None && r.filter_text is None
                && r.insert_text is None && r.text_edit is None && r.insert_text_format is None
                && r.additional_text_edits is None && r.command is None,
    {
        Self {
            label: None,
            label_details: None,
            kind: None,
            detail: None,
            documentation: None,
            sort_text: None,
            filter_text: None,
            insert_text: None,
            text_edit: None,
            insert_text_format: None,
            additional_text_edits: None,
            command: None,
        }
    }

    /// Set the label of the completion.
    pub fn label(self, label: &str) -> (r: CompletionItemBuilder)
        ensures
            r.label matches Some(l) && l@ == label@,
            same_except_label(r, self),
    {
        CompletionItemBuilder { label: Some(string_of(label)), ..self }
    }

    /// Set the label details of the completion.
    pub fn label_details(self, detail: &str) -> (r: CompletionItemBuilder)
        ensures
            r.label_details matches Some(d) && d.detail@ == detail@,
            r == (CompletionItemBuilder { label_details: r.label_details, ..self }),
    {
        CompletionItemBuilder {
            label_details: Some(CompletionItemLabelDetails { detail: string_of(detail) }),
            ..self
        }
    }

    /// Set the kind of the completion.
    pub fn kind(self, kind: CompletionItemKind) -> (r: CompletionItemBuilder)
        ensures
            r == (CompletionItemBuilder { kind: Some(kind), ..self }),
    {
        CompletionItemBuilder { kind: Some(kind), ..self }
    }

    /// Set the detail of the completion.
    pub fn detail(self, detail: &str) -> (r: CompletionItemBuilder)
        ensures
            r.detail matches Some(d) && d@ == detail@,
            r == (CompletionItemBuilder { detail: r.detail, ..self }),
    {
        CompletionItemBuilder { detail: Some(string_of(detail)), ..self }
    }

    /// Set the documentation of the completion.
    pub fn documentation(self, documentation: &str) -> (r: CompletionItemBuilder)
        ensures
            r.documentation matches Some(d) && d@ == documentation@,
            r == (CompletionItemBuilder { documentation: r.documentation, ..self }),
    {
        CompletionItemBuilder { documentation: Some(string_of(documentation)), ..self }
    }

    /// Set the sort text of the completion.
    pub fn sort_text(self, sort_text: &str) -> (r: CompletionItemBuilder)
        ensures
            r.sort_text matches Some(d) && d@ == sort_text@,
            r == (CompletionItemBuilder { sort_text: r.sort_text, ..self }),
    {
        CompletionItemBuilder { sort_text: Some(string_of(sort_text)), ..self }
    }

    /// Set the filter text of the completion.
    pub fn filter_text(self, filter_text: &str) -> (r: CompletionItemBuilder)
        ensures
            r.filter_text matches Some(d) && d@ == filter_text@,
            r == (CompletionItemBuilder { filter_text: r.filter_text, ..self }),
    {
        CompletionItemBuilder { filter_text: Some(string_of(filter_text)), ..self }
    }

    /// Set the insert text of the completion.
    pub fn insert_text(self, insert_text: &str) -> (r: CompletionItemBuilder)
        ensures
            r.insert_text matches Some(d) && d@ == insert_text@,
            r == (CompletionItemBuilder { insert_text: r.insert_text, ..self }),
    {
        CompletionItemBuilder { insert_text: Some(string_of(insert_text)), ..self }
    }

    /// Set the text edit of the completion.
    pub fn text_edit(self, text_edit: TextEdit) -> (r: CompletionItemBuilder)
        ensures
            r == (CompletionItemBuilder { text_edit: Some(text_edit), ..self }),
    {
        CompletionItemBuilder { text_edit: Some(text_edit), ..self }
    }

    /// Set the insert text format of the completion.
    pub fn insert_text_format(self, insert_text_format: InsertTextFormat) -> (r: CompletionItemBuilder)
        ensures
            r == (CompletionItemBuilder { insert_text_format: Some(insert_text_format), ..self }),
    {
        CompletionItemBuilder { insert_text_format: Some(insert_text_format), ..self }
    }

    /// Set additional text edits of the completion.
    pub fn additional_text_edits(self, text_edits: Vec<TextEdit>) -> (r: CompletionItemBuilder)
        ensures
            r == (CompletionItemBuilder { additional_text_edits: Some(text_edits), ..self }),
    {
        CompletionItemBuilder { additional_text_edits: Some(text_edits), ..self }
    }

    /// Set the command of the completion.
    pub fn command(self, command: Command) -> (r: CompletionItemBuilder)
        ensures
            r == (CompletionItemBuilder { command: Some(command), ..self }),
    {
        CompletionItemBuilder { command: Some(command), ..self }
    }

    /// Build the completion item; the label must have been set.
    pub fn build(self) -> (r: CompletionItem)
        requires
            self.label is Some,
        ensures
            r == (CompletionItem {
                label: self.label.unwrap(),
                label_details: self.label_details,
                kind: self.kind,
                detail: self.detail,
                documentation: self.documentation,
                sort_text: self.sort_text,
                filter_text: self.filter_text,
                insert_text: self.insert_text,
                text_edit: self.text_edit,
                insert_text_format: self.insert_text_format,
                additional_text_edits: self.additional_text_edits,
                command: self.command,
            }),
    {
        CompletionItem {
            label: self.label.unwrap(),
            label_details: self.label_details,
            kind: self.kind,
            detail: self.detail,
            documentation: self.documentation,
            sort_text: self.sort_text,
            filter_text: self.filter_text,
            insert_text: self.insert_text,
            text_edit: self.text_edit,
            insert_text_format: self.insert_text_format,
            additional_text_edits: self.additional_text_edits,
            command: self.command,
        }
    }
}

impl DiagnosticRequest {
    pub fn get_id(&self) -> (r: &RequestId)
        ensures
            *r == self.base.id,
    {
        &self.base.id
    }
}

impl DiagnosticResponse {
    /// A full diagnostic report with these items.
    pub fn new(id: &RequestId, items: Vec<Diagnostic>) -> (r: Self)
        ensures
            r.base.id@ == id@,
            r.result.kind == DocumentDiagnosticReportKind::Full,
            r.result.items == items,
    {
        Self {
            base: ResponseMessageBase::success(id),
            result: DocumentDiagnosticReport { kind: DocumentDiagnosticReportKind::Full, items },
        }
    }
}

impl PublishDiagnosticsNotification {
    pub fn new(uri: DocumentUri, diagnostics: Vec<Diagnostic>, version: Option<u32>) -> (r: Self)
        ensures
            r.base.method@ == "textDocument/publishDiagnostics"@,
            r.params.uri == uri,
            r.params.diagnostics == diagnostics,
            r.params.version == version,
    {
        Self {
            base: NotificationMessageBase::new("textDocument/publishDiagnostics"),
            params: PublishDiagnosticsParams { uri, diagnostics, version },
        }
    }
}

impl DocumentHighlightRequest {
    pub fn get_id(&self) -> (r: &RequestId)
        ensures
            *r == self.base.id,
    {
        &self.base.id
    }

    pub fn get_document_uri(&self) -> (r: &String)
        ensures
            *r == self.params.text_document_position.text_document.uri,
    {
        &self.params.text_document_position.text_document.uri
    }

    pub fn get_position(&self) -> (r: &Position)
        ensures
            *r == self.params.text_document_position.position,
    {
        &self.params.text_document_position.position
    }
}

impl DocumentHighlightResponse {
    pub fn new(id: &RequestId) -> (r: Self)
        ensures
            r.base.id@ == id@,
            r.result is None,
    {
        DocumentHighlightResponse { base: ResponseMessageBase::success(id), result: None }
    }

    pub fn set_highlights(&mut self, highlights: Vec<DocumentHighlight>)
        ensures
            final(self).result == Some(highlights),
            final(self).base == old(self).base,
    {
        self.result = Some(highlights);
    }
}

impl OnTypeFormattingRequest {
    pub fn get_id(&self) -> (r: &RequestId)
        ensures
            *r == self.base.id,
    {
        &self.base.id
    }

    pub fn get_document_uri(&self) -> (r: &String)
        ensures
            *r == self.params.text_document.uri,
    {
        &self.params.text_document.uri
    }

    pub fn get_position(&self) -> (r: &Position)
        ensures
            *r == self.params.position,
    {
        &self.params.position
    }

    pub fn get_char(&self) -> (r: &str)
        ensures
            r@ == self.params.ch@,
    {
        self.params.ch.as_str()
    }

    pub fn get_options(&self) -> (r: &FormattingOptions)
        ensures
            *r == self.params.options,
    {
        &self.params.options
    }
}

impl OnTypeFormattingResponse {
    pub fn new(id: &RequestId, text_edits: Vec<TextEdit>) -> (r: Self)
        ensures
            r.base.id@ == id@,
            r.result == Some(text_edits),
    {
        Self { base: ResponseMessageBase::success(id), result: Some(text_edits) }
    }

    pub fn null(id: &RequestId) -> (r: Self)
        ensures
            r.base.id@ == id@,
            r.result is None,
    {
        Self { base: ResponseMessageBase::success(id), result: None }
    }
}

impl ReferencesRequest {
    pub fn get_id(&self) -> (r: &RequestId)
        ensures
            *r == self.base.id,
    {
        &self.base.id
    }

    pub fn get_document_uri(&self) -> (r: &String)
        ensures
            *r == self.params.text_document_position.text_document.uri,
    {
        &self.params.text_document_position.text_document.uri
    }

    pub fn get_position(&self) -> (r: &Position)
        ensures
            *r == self.params.text_document_position.position,
    {
        &self.params.text_document_position.position
    }
}

impl ReferencesResponse {
    pub fn new(id: &RequestId) -> (r: Self)
        ensures
            r.base.id@ == id@,
            r.result is None,
    {
        ReferencesResponse { base: ResponseMessageBase::success(id), result: None }
    }

    pub fn set_locations(&mut self, locations: Vec<Location>)
        ensures
            final(self).result == Some(locations),
            final(self).base == old(self).base,
    {
        self.result = Some(locations);
    }
}

impl RenameRequest {
    pub fn get_id(&self) -> (r: &RequestId)
        ensures
            *r == self.base.id,
    {
        &self.base.id
    }

    pub fn get_document_uri(&self) -> (r: &String)
        ensures
            *r == self.params.text_document_position.text_document.uri,
    {
        &self.params.text_document_position.text_document.uri
    }

    pub fn get_position(&self) -> (r: &Position)
        ensures
            *r == self.params.text_document_position.position,
    {
        &self.params.text_document_position.position
    }

    pub fn get_new_name(&self) -> (r: &String)
        ensures
            *r == self.params.new_name,
    {
        &self.params.new_name
    }
}

impl RenameResponse {
    pub fn new(id: &RequestId) -> (r: Self)
        ensures
            r.base.id@ == id@,
            r.result is None,
    {
        RenameResponse { base: ResponseMessageBase::success(id), result: None }
    }

    pub fn set_edit(&mut self, edit: WorkspaceEdit)
        ensures
            final(self).result == Some(edit),
            final(self).base == old(self).base,
    {
        self.result = Some(edit);
    }
}

impl SemanticTokensFullResponse {
    pub fn new(id: &RequestId, data: Vec<u32>) -> (r: Self)
        ensures
            r.base.id@ == id@,
            r.result matches Some(t) && t.result_id is None && t.data == data,
    {
        SemanticTokensFullResponse {
            base: ResponseMessageBase::success(id),
            result: Some(SemanticTokens { result_id: None, data }),
        }
    }
}

} // verus!
