//! The capabilities that client and server announce to each other.

use vstd::prelude::*;

verus! {

/// A capability that can be either a boolean or an empty object `{}`.
///
/// Used by both client and server semantic token options for the `range` field.
#[derive(Debug, PartialEq, Clone)]
pub enum BoolOrEmpty {
    Bool(bool),
    Object {},
}

/// A capability that can be either a boolean or an object with a `delta` field.
///
/// Used by both client and server semantic token options for the `full` field.
#[derive(Debug, PartialEq, Clone)]
pub enum FullCapability {
    Bool(bool),
    Object(FullCapabilityOptions),
}

#[derive(Debug, PartialEq, Clone)]
pub struct FullCapabilityOptions {
    /// The server/client supports deltas for full documents.
    pub delta: Option<bool>,
}

#[derive(Debug, PartialEq, Clone)]
pub struct ServerCapabilities {
    pub text_document_sync: TextDocumentSyncKind,
    pub hover_provider: bool,
    pub completion_provider: CompletionOptions,
    pub document_formatting_provider: DocumentFormattingOptions,
    pub document_on_type_formatting_provider: DocumentOnTypeFormattingOptions,
    pub diagnostic_provider: DiagnosticOptions,
    pub code_action_provider: bool,
    pub execute_command_provider: ExecuteCommandOptions,
    pub folding_range_provider: bool,
    pub semantic_tokens_provider: SemanticTokensOptions,
}

#[derive(Debug, PartialEq, Clone)]
pub struct ExecuteCommandOptions {
    pub work_done_progress_options: WorkDoneProgressOptions,
    pub commands: Vec<String>,
}

#[derive(Debug, PartialEq, Clone)]
pub struct WorkDoneProgressOptions {
    pub work_done_progress: bool,
}

#[derive(Debug, PartialEq, Clone)]
pub struct DiagnosticOptions {
    pub identifier: String,
    pub inter_file_dependencies: bool,
    pub workspace_diagnostics: bool,
}

#[derive(Debug, PartialEq, Clone)]
pub enum TextDocumentSyncKind {
    NoSync,
    Full,
    Incremental,
}

#[derive(Debug, PartialEq, Clone)]
pub struct CompletionOptions {
    pub trigger_characters: Vec<String>,
}

#[derive(Debug, PartialEq, Clone)]
pub struct DocumentFormattingOptions {
}

#[derive(Debug, PartialEq, Clone)]
pub struct DocumentOnTypeFormattingOptions {
    /// A character on which formatting should be triggered, like `{`.
    pub first_trigger_character: String,
    /// More trigger characters.
    pub more_trigger_character: Option<Vec<String>>,
}

/// https://microsoft.github.io/language-server-protocol/specifications/lsp/3.17/specification/#semanticTokensOptions
///
/// @since 3.16.0
#[derive(Debug, PartialEq, Clone)]
pub struct SemanticTokensOptions {
    pub work_done_progress_options: WorkDoneProgressOptions,

    /// The legend used by the server.
    pub legend: SemanticTokensLegend,

    /// Server supports providing semantic tokens for a specific range of a
    /// document.
    pub range: Option<BoolOrEmpty>,

    /// Server supports providing semantic tokens for a full document.
    pub full: Option<FullCapability>,
}

/// https://microsoft.github.io/language-server-protocol/specifications/lsp/3.17/specification/#semanticTokensLegend
#[derive(Debug, PartialEq, Clone)]
pub struct SemanticTokensLegend {
    /// The token types a server uses.
    pub token_types: Vec<SemanticTokenTypes>,
    /// The token modifiers a server uses.
    pub token_modifiers: Vec<SemanticTokenModifiers>,
}

/// Predefined semantic token types.
///
/// https://microsoft.github.io/language-server-protocol/specifications/lsp/3.17/specification/#semanticTokenTypes
#[derive(Debug, PartialEq, Clone, Hash, Eq)]
pub enum SemanticTokenTypes {
    Namespace,
    /// Represents a generic type. Acts as a fallback for types which
    /// can't be mapped to a specific type like class or enum.
    Type,
    Class,
    Enum,
    Interface,
    Struct,
    TypeParameter,
    Parameter,
    Variable,
    Property,
    EnumMember,
    Event,
    Function,
    Method,
    Macro,
    Keyword,
    Modifier,
    Comment,
    String,
    Number,
    Regexp,
    Operator,
    /// @since 3.17.0
    Decorator,
}

/// Predefined semantic token modifiers.
///
/// https://microsoft.github.io/language-server-protocol/specifications/lsp/3.17/specification/#semanticTokenModifiers
#[derive(Debug, PartialEq, Clone)]
pub enum SemanticTokenModifiers {
    Declaration,
    Definition,
    Readonly,
    Static,
    Deprecated,
    Abstract,
    Async,
    Modification,
    Documentation,
    DefaultLibrary,
}

#[derive(Debug, PartialEq, Clone)]
pub struct ClientCapabilities {
    pub workspace: Option<WorkspaceCapabilities>,
    pub text_document: Option<TextDocumentClientCapabilities>,
}

#[derive(Debug, PartialEq, Clone)]
pub struct WorkspaceCapabilities {
    pub apply_edit: Option<bool>,
    pub workspace_edit: Option<WorkspaceEditClientCapabilities>,
}

/// https://microsoft.github.io/language-server-protocol/specifications/lsp/3.17/specification/#workspaceEditClientCapabilities
#[derive(Debug, PartialEq, Clone)]
pub struct WorkspaceEditClientCapabilities {
    pub document_changes: Option<bool>,
}

/// Text document specific client capabilities.
///
/// https://microsoft.github.io/language-server-protocol/specifications/lsp/3.17/specification/#textDocumentClientCapabilities
#[derive(Debug, PartialEq, Clone)]
pub struct TextDocumentClientCapabilities {
    /// Capabilities specific to text document synchronization.
    pub synchronization: Option<TextDocumentSyncClientCapabilities>,

    /// Capabilities specific to the `textDocument/completion` request.
    pub completion: Option<CompletionClientCapabilities>,

    /// Capabilities specific to the `textDocument/hover` request.
    pub hover: Option<HoverClientCapabilities>,

    /// Capabilities specific to the `textDocument/signatureHelp` request.
    pub signature_help: Option<SignatureHelpClientCapabilities>,

    /// Capabilities specific to the `textDocument/declaration` request.
    ///
    /// @since 3.14.0
    pub declaration: Option<DeclarationClientCapabilities>,

    /// Capabilities specific to the `textDocument/definition` request.
    pub definition: Option<DefinitionClientCapabilities>,

    /// Capabilities specific to the `textDocument/typeDefinition` request.
    ///
    /// @since 3.6.0
    pub type_definition: Option<TypeDefinitionClientCapabilities>,

    /// Capabilities specific to the `textDocument/implementation` request.
    ///
    /// @since 3.6.0
    pub implementation: Option<ImplementationClientCapabilities>,

    /// Capabilities specific to the `textDocument/references` request.
    pub references: Option<ReferenceClientCapabilities>,

    /// Capabilities specific to the `textDocument/documentHighlight` request.
    pub document_highlight: Option<DocumentHighlightClientCapabilities>,

    /// Capabilities specific to the `textDocument/documentSymbol` request.
    pub document_symbol: Option<DocumentSymbolClientCapabilities>,

    /// Capabilities specific to the `textDocument/codeAction` request.
    pub code_action: Option<CodeActionClientCapabilities>,

    /// Capabilities specific to the `textDocument/codeLens` request.
    pub code_lens: Option<CodeLensClientCapabilities>,

    /// Capabilities specific to the `textDocument/documentLink` request.
    pub document_link: Option<DocumentLinkClientCapabilities>,

    /// Capabilities specific to the `textDocument/documentColor` and the
    /// `textDocument/colorPresentation` request.
    ///
    /// @since 3.6.0
    pub color_provider: Option<DocumentColorClientCapabilities>,

    /// Capabilities specific to the `textDocument/formatting` request.
    pub formatting: Option<DocumentFormattingClientCapabilities>,

    /// Capabilities specific to the `textDocument/rangeFormatting` request.
    pub range_formatting: Option<DocumentRangeFormattingClientCapabilities>,

    /// Capabilities specific to the `textDocument/onTypeFormatting` request.
    pub on_type_formatting: Option<DocumentOnTypeFormattingClientCapabilities>,

    /// Capabilities specific to the `textDocument/rename` request.
    pub rename: Option<RenameClientCapabilities>,

    /// Capabilities specific to the `textDocument/publishDiagnostics`
    /// notification.
    pub publish_diagnostics: Option<PublishDiagnosticsClientCapabilities>,

    /// Capabilities specific to the `textDocument/foldingRange` request.
    ///
    /// @since 3.10.0
    pub folding_range: Option<FoldingRangeClientCapabilities>,

    /// Capabilities specific to the `textDocument/selectionRange` request.
    ///
    /// @since 3.15.0
    pub selection_range: Option<SelectionRangeClientCapabilities>,

    /// Capabilities specific to the `textDocument/linkedEditingRange` request.
    ///
    /// @since 3.16.0
    pub linked_editing_range: Option<LinkedEditingRangeClientCapabilities>,

    /// Capabilities specific to the various call hierarchy requests.
    ///
    /// @since 3.16.0
    pub call_hierarchy: Option<CallHierarchyClientCapabilities>,

    /// Capabilities specific to the various semantic token requests.
    ///
    /// @since 3.16.0
    pub semantic_tokens: Option<SemanticTokensClientCapabilities>,

    /// Capabilities specific to the `textDocument/moniker` request.
    ///
    /// @since 3.16.0
    pub moniker: Option<MonikerClientCapabilities>,

    /// Capabilities specific to the various type hierarchy requests.
    ///
    /// @since 3.17.0
    pub type_hierarchy: Option<TypeHierarchyClientCapabilities>,

    /// Capabilities specific to the `textDocument/inlineValue` request.
    ///
    /// @since 3.17.0
    pub inline_value: Option<InlineValueClientCapabilities>,

    /// Capabilities specific to the `textDocument/inlayHint` request.
    ///
    /// @since 3.17.0
    pub inlay_hint: Option<InlayHintClientCapabilities>,

    /// Capabilities specific to the diagnostic pull model.
    ///
    /// @since 3.17.0
    pub diagnostic: Option<DiagnosticClientCapabilities>,
}

/// Describes the content type that a client supports in various result
/// literals like `Hover`, `ParameterInfo` or `CompletionItem`.
///
/// https://microsoft.github.io/language-server-protocol/specifications/lsp/3.17/specification/#markupContent
#[derive(Debug, PartialEq, Clone)]
pub enum MarkupKind {
    /// Plain text is supported as a content format.
    Plaintext,
    /// Markdown is supported as a content format.
    Markdown,
}

/// A value-set wrapper reused by capabilities that advertise supported tags.
#[derive(Debug, PartialEq, Clone)]
pub struct ValueSet<T> {
    pub value_set: Vec<T>,
}

/// A resolve-support object listing lazily resolvable properties.
#[derive(Debug, PartialEq, Clone)]
pub struct ResolveSupport {
    pub properties: Vec<String>,
}

/// https://microsoft.github.io/language-server-protocol/specifications/lsp/3.17/specification/#textDocumentSyncClientCapabilities
#[derive(Debug, PartialEq, Clone)]
pub struct TextDocumentSyncClientCapabilities {
    /// Whether text document synchronization supports dynamic registration.
    pub dynamic_registration: Option<bool>,
    /// The client supports sending will save notifications.
    pub will_save: Option<bool>,
    /// The client supports sending a will save request and waits for a
    /// response providing text edits which will be applied to the document
    /// before it is saved.
    pub will_save_wait_until: Option<bool>,
    /// The client supports did save notifications.
    pub did_save: Option<bool>,
}

/// https://microsoft.github.io/language-server-protocol/specifications/lsp/3.17/specification/#hoverClientCapabilities
#[derive(Debug, PartialEq, Clone)]
pub struct HoverClientCapabilities {
    /// Whether hover supports dynamic registration.
    pub dynamic_registration: Option<bool>,
    /// Client supports the following content formats if the content property
    /// refers to a `literal of type MarkupContent`. The order describes the
    /// preferred format of the client.
    pub content_format: Option<Vec<MarkupKind>>,
}

/// https://microsoft.github.io/language-server-protocol/specifications/lsp/3.17/specification/#declarationClientCapabilities
///
/// @since 3.14.0
#[derive(Debug, PartialEq, Clone)]
pub struct DeclarationClientCapabilities {
    /// Whether declaration supports dynamic registration. If this is set to
    /// `true` the client supports the new `DeclarationRegistrationOptions`
    /// return value for the corresponding server capability as well.
    pub dynamic_registration: Option<bool>,
    /// The client supports additional metadata in the form of declaration links.
    pub link_support: Option<bool>,
}

/// https://microsoft.github.io/language-server-protocol/specifications/lsp/3.17/specification/#definitionClientCapabilities
#[derive(Debug, PartialEq, Clone)]
pub struct DefinitionClientCapabilities {
    /// Whether definition supports dynamic registration.
    pub dynamic_registration: Option<bool>,
    /// The client supports additional metadata in the form of definition links.
    ///
    /// @since 3.14.0
    pub link_support: Option<bool>,
}

/// https://microsoft.github.io/language-server-protocol/specifications/lsp/3.17/specification/#typeDefinitionClientCapabilities
///
/// @since 3.6.0
#[derive(Debug, PartialEq, Clone)]
pub struct TypeDefinitionClientCapabilities {
    /// Whether implementation supports dynamic registration. If this is set to
    /// `true` the client supports the new `TypeDefinitionRegistrationOptions`
    /// return value for the corresponding server capability as well.
    pub dynamic_registration: Option<bool>,
    /// The client supports additional metadata in the form of definition links.
    ///
    /// @since 3.14.0
    pub link_support: Option<bool>,
}

/// https://microsoft.github.io/language-server-protocol/specifications/lsp/3.17/specification/#implementationClientCapabilities
///
/// @since 3.6.0
#[derive(Debug, PartialEq, Clone)]
pub struct ImplementationClientCapabilities {
    /// Whether implementation supports dynamic registration. If this is set to
    /// `true` the client supports the new `ImplementationRegistrationOptions`
    /// return value for the corresponding server capability as well.
    pub dynamic_registration: Option<bool>,
    /// The client supports additional metadata in the form of definition links.
    ///
    /// @since 3.14.0
    pub link_support: Option<bool>,
}

/// https://microsoft.github.io/language-server-protocol/specifications/lsp/3.17/specification/#referenceClientCapabilities
#[derive(Debug, PartialEq, Clone)]
pub struct ReferenceClientCapabilities {
    /// Whether references supports dynamic registration.
    pub dynamic_registration: Option<bool>,
}

/// https://microsoft.github.io/language-server-protocol/specifications/lsp/3.17/specification/#documentHighlightClientCapabilities
#[derive(Debug, PartialEq, Clone)]
pub struct DocumentHighlightClientCapabilities {
    /// Whether document highlight supports dynamic registration.
    pub dynamic_registration: Option<bool>,
}

/// https://microsoft.github.io/language-server-protocol/specifications/lsp/3.17/specification/#codeLensClientCapabilities
#[derive(Debug, PartialEq, Clone)]
pub struct CodeLensClientCapabilities {
    /// Whether code lens supports dynamic registration.
    pub dynamic_registration: Option<bool>,
}

/// https://microsoft.github.io/language-server-protocol/specifications/lsp/3.17/specification/#documentLinkClientCapabilities
#[derive(Debug, PartialEq, Clone)]
pub struct DocumentLinkClientCapabilities {
    /// Whether document link supports dynamic registration.
    pub dynamic_registration: Option<bool>,
    /// Whether the client supports the `tooltip` property on `DocumentLink`.
    ///
    /// @since 3.15.0
    pub tooltip_support: Option<bool>,
}

/// https://microsoft.github.io/language-server-protocol/specifications/lsp/3.17/specification/#documentColorClientCapabilities
///
/// @since 3.6.0
#[derive(Debug, PartialEq, Clone)]
pub struct DocumentColorClientCapabilities {
    /// Whether document color supports dynamic registration.
    pub dynamic_registration: Option<bool>,
}

/// https://microsoft.github.io/language-server-protocol/specifications/lsp/3.17/specification/#documentFormattingClientCapabilities
#[derive(Debug, PartialEq, Clone)]
pub struct DocumentFormattingClientCapabilities {
    /// Whether formatting supports dynamic registration.
    pub dynamic_registration: Option<bool>,
}

/// https://microsoft.github.io/language-server-protocol/specifications/lsp/3.17/specification/#documentRangeFormattingClientCapabilities
#[derive(Debug, PartialEq, Clone)]
pub struct DocumentRangeFormattingClientCapabilities {
    /// Whether range formatting supports dynamic registration.
    pub dynamic_registration: Option<bool>,
}

/// https://microsoft.github.io/language-server-protocol/specifications/lsp/3.17/specification/#documentOnTypeFormattingClientCapabilities
#[derive(Debug, PartialEq, Clone)]
pub struct DocumentOnTypeFormattingClientCapabilities {
    /// Whether on type formatting supports dynamic registration.
    pub dynamic_registration: Option<bool>,
}

/// https://microsoft.github.io/language-server-protocol/specifications/lsp/3.17/specification/#selectionRangeClientCapabilities
///
/// @since 3.15.0
#[derive(Debug, PartialEq, Clone)]
pub struct SelectionRangeClientCapabilities {
    /// Whether implementation supports dynamic registration for selection
    /// range providers. If this is set to `true` the client supports the new
    /// `SelectionRangeRegistrationOptions` return value for the corresponding
    /// server capability as well.
    pub dynamic_registration: Option<bool>,
}

/// https://microsoft.github.io/language-server-protocol/specifications/lsp/3.17/specification/#linkedEditingRangeClientCapabilities
///
/// @since 3.16.0
#[derive(Debug, PartialEq, Clone)]
pub struct LinkedEditingRangeClientCapabilities {
    /// Whether the implementation supports dynamic registration. If this is
    /// set to `true` the client supports the new
    /// `LinkedEditingRangeRegistrationOptions` return value for the
    /// corresponding server capability as well.
    pub dynamic_registration: Option<bool>,
}

/// https://microsoft.github.io/language-server-protocol/specifications/lsp/3.17/specification/#callHierarchyClientCapabilities
///
/// @since 3.16.0
#[derive(Debug, PartialEq, Clone)]
pub struct CallHierarchyClientCapabilities {
    /// Whether implementation supports dynamic registration. If this is set to
    /// `true` the client supports the new
    /// `(TextDocumentRegistrationOptions & StaticRegistrationOptions)` return
    /// value for the corresponding server capability as well.
    pub dynamic_registration: Option<bool>,
}

/// https://microsoft.github.io/language-server-protocol/specifications/lsp/3.17/specification/#monikerClientCapabilities
///
/// @since 3.16.0
#[derive(Debug, PartialEq, Clone)]
pub struct MonikerClientCapabilities {
    /// Whether implementation supports dynamic registration. If this is set to
    /// `true` the client supports the new
    /// `MonikerRegistrationOptions` return value for the corresponding server
    /// capability as well.
    pub dynamic_registration: Option<bool>,
}

/// https://microsoft.github.io/language-server-protocol/specifications/lsp/3.17/specification/#typeHierarchyClientCapabilities
///
/// @since 3.17.0
#[derive(Debug, PartialEq, Clone)]
pub struct TypeHierarchyClientCapabilities {
    /// Whether implementation supports dynamic registration. If this is set to
    /// `true` the client supports the new
    /// `TypeHierarchyRegistrationOptions` return value for the corresponding
    /// server capability as well.
    pub dynamic_registration: Option<bool>,
}

/// https://microsoft.github.io/language-server-protocol/specifications/lsp/3.17/specification/#inlineValueClientCapabilities
///
/// @since 3.17.0
#[derive(Debug, PartialEq, Clone)]
pub struct InlineValueClientCapabilities {
    /// Whether implementation supports dynamic registration for inline
    /// value providers.
    pub dynamic_registration: Option<bool>,
}

/// https://microsoft.github.io/language-server-protocol/specifications/lsp/3.17/specification/#signatureHelpClientCapabilities
#[derive(Debug, PartialEq, Clone)]
pub struct SignatureHelpClientCapabilities {
    /// Whether signature help supports dynamic registration.
    pub dynamic_registration: Option<bool>,

    /// The client supports the following `SignatureInformation` specific
    /// properties.
    pub signature_information: Option<SignatureHelpSignatureInformation>,

    /// The client supports to send additional context information for a
    /// `textDocument/signatureHelp` request. A client that opts into
    /// contextSupport will also support the `retriggerCharacters` on
    /// `SignatureHelpOptions`.
    ///
    /// @since 3.15.0
    pub context_support: Option<bool>,
}

/// Nested signature information capabilities.
#[derive(Debug, PartialEq, Clone)]
pub struct SignatureHelpSignatureInformation {
    /// Client supports the following content formats for the documentation
    /// property. The order describes the preferred format of the client.
    pub documentation_format: Option<Vec<MarkupKind>>,

    /// Client capabilities specific to parameter information.
    pub parameter_information: Option<SignatureHelpParameterInformation>,

    /// The client supports the `activeParameter` property on
    /// `SignatureInformation` literal.
    ///
    /// @since 3.16.0
    pub active_parameter_support: Option<bool>,
}

/// Nested parameter information capabilities.
#[derive(Debug, PartialEq, Clone)]
pub struct SignatureHelpParameterInformation {
    /// The client supports processing label offsets instead of a simple label
    /// string.
    ///
    /// @since 3.14.0
    pub label_offset_support: Option<bool>,
}

/// https://microsoft.github.io/language-server-protocol/specifications/lsp/3.17/specification/#documentSymbolClientCapabilities
#[derive(Debug, PartialEq, Clone)]
pub struct DocumentSymbolClientCapabilities {
    /// Whether document symbol supports dynamic registration.
    pub dynamic_registration: Option<bool>,

    /// Specific capabilities for the `SymbolKind` in the
    /// `textDocument/documentSymbol` request.
    pub symbol_kind: Option<DocumentSymbolKindCapabilities>,

    /// The client supports hierarchical document symbols.
    pub hierarchical_document_symbol_support: Option<bool>,

    /// The client supports tags on `SymbolInformation`. Tags are supported on
    /// `DocumentSymbol` if `hierarchicalDocumentSymbolSupport` is set to true.
    /// Clients supporting tags have to handle unknown tags gracefully.
    ///
    /// @since 3.16.0
    pub tag_support: Option<ValueSet<SymbolTag>>,

    /// The client supports an additional label presented in the symbol name
    /// of the `DocumentSymbol` to differentiate symbols with the same name.
    ///
    /// @since 3.16.0
    pub label_support: Option<bool>,
}

/// The `symbolKind` capabilities for document symbols.
#[derive(Debug, PartialEq, Clone)]
pub struct DocumentSymbolKindCapabilities {
    /// The symbol kind values the client supports. When this property exists
    /// the client also guarantees that it will handle values outside its set
    /// gracefully and falls back to a default value when unknown.
    ///
    /// If this property is not present the client only supports the symbol
    /// kinds from `File` to `Array` as defined in the initial version of the
    /// protocol.
    pub value_set: Option<Vec<SymbolKind>>,
}

/// A symbol kind.
///
/// https://microsoft.github.io/language-server-protocol/specifications/lsp/3.17/specification/#symbolKind
#[derive(Debug, PartialEq, Clone)]
pub enum SymbolKind {
    File,
    Module,
    Namespace,
    Package,
    Class,
    Method,
    Property,
    Field,
    Constructor,
    Enum,
    Interface,
    Function,
    Variable,
    Constant,
    String,
    Number,
    Boolean,
    Array,
    Object,
    Key,
    Null,
    EnumMember,
    Struct,
    Event,
    Operator,
    TypeParameter,
}

/// Symbol tags are extra annotations that tweak the rendering of a symbol.
///
/// @since 3.16.0
#[derive(Debug, PartialEq, Clone)]
pub enum SymbolTag {
    /// Render a symbol as obsolete, usually using a strike-out.
    Deprecated,
}

/// https://microsoft.github.io/language-server-protocol/specifications/lsp/3.17/specification/#codeActionClientCapabilities
#[derive(Debug, PartialEq, Clone)]
pub struct CodeActionClientCapabilities {
    /// Whether code action supports dynamic registration.
    pub dynamic_registration: Option<bool>,

    /// The client supports code action literals as a valid response of the
    /// `textDocument/codeAction` request.
    ///
    /// @since 3.8.0
    pub code_action_literal_support: Option<CodeActionLiteralSupport>,

    /// Whether code action supports the `isPreferred` property.
    ///
    /// @since 3.15.0
    pub is_preferred_support: Option<bool>,

    /// Whether code action supports the `disabled` property.
    ///
    /// @since 3.16.0
    pub disabled_support: Option<bool>,

    /// Whether code action supports the `data` property which is preserved
    /// between a `textDocument/codeAction` and a `codeAction/resolve` request.
    ///
    /// @since 3.16.0
    pub data_support: Option<bool>,

    /// Whether the client supports resolving additional code action properties
    /// via a separate `codeAction/resolve` request.
    ///
    /// @since 3.16.0
    pub resolve_support: Option<ResolveSupport>,

    /// Whether the client honors the change annotations in text edits and
    /// resource operations returned via the `CodeAction#edit` property by for
    /// example presenting the workspace edit in the user interface and asking
    /// for confirmation.
    ///
    /// @since 3.16.0
    pub honors_change_annotations: Option<bool>,
}

/// Code action literal support.
#[derive(Debug, PartialEq, Clone)]
pub struct CodeActionLiteralSupport {
    /// The code action kind is supported with the following value set.
    pub code_action_kind: CodeActionKindCapabilities,
}

/// The supported code action kind values.
#[derive(Debug, PartialEq, Clone)]
pub struct CodeActionKindCapabilities {
    /// The code action kind values the client supports. When this property
    /// exists the client also guarantees that it will handle values outside its
    /// set gracefully and falls back to a default value when unknown.
    pub value_set: Vec<String>,
}

/// https://microsoft.github.io/language-server-protocol/specifications/lsp/3.17/specification/#renameClientCapabilities
#[derive(Debug, PartialEq, Clone)]
pub struct RenameClientCapabilities {
    /// Whether rename supports dynamic registration.
    pub dynamic_registration: Option<bool>,

    /// Client supports testing for validity of rename operations before
    /// execution.
    ///
    /// @since version 3.12.0
    pub prepare_support: Option<bool>,

    /// Client supports the default behavior result
    /// (`{ defaultBehavior: boolean }`).
    ///
    /// The value indicates the default behavior used by the client.
    ///
    /// @since version 3.16.0
    pub prepare_support_default_behavior: Option<PrepareSupportDefaultBehavior>,

    /// Whether the client honors the change annotations in text edits and
    /// resource operations returned via the rename request's workspace edit by
    /// for example presenting the workspace edit in the user interface and
    /// asking for confirmation.
    ///
    /// @since 3.16.0
    pub honors_change_annotations: Option<bool>,
}

/// https://microsoft.github.io/language-server-protocol/specifications/lsp/3.17/specification/#prepareSupportDefaultBehavior
#[derive(Debug, PartialEq, Clone)]
pub enum PrepareSupportDefaultBehavior {
    /// The client's default behavior is to select the identifier according to
    /// the language's syntax rule.
    Identifier,
}

/// https://microsoft.github.io/language-server-protocol/specifications/lsp/3.17/specification/#publishDiagnosticsClientCapabilities
#[derive(Debug, PartialEq, Clone)]
pub struct PublishDiagnosticsClientCapabilities {
    /// Whether the clients accepts diagnostics with related information.
    pub related_information: Option<bool>,

    /// Client supports the tag property to provide meta data about a
    /// diagnostic. Clients supporting tags have to handle unknown tags
    /// gracefully.
    ///
    /// @since 3.15.0
    pub tag_support: Option<ValueSet<DiagnosticTag>>,

    /// Whether the client interprets the version property of the
    /// `textDocument/publishDiagnostics` notification's parameter.
    ///
    /// @since 3.15.0
    pub version_support: Option<bool>,

    /// Client supports a codeDescription property.
    ///
    /// @since 3.16.0
    pub code_description_support: Option<bool>,

    /// Whether code action supports the `data` property which is preserved
    /// between a `textDocument/publishDiagnostics` and
    /// `textDocument/codeAction` request.
    ///
    /// @since 3.16.0
    pub data_support: Option<bool>,
}

/// The diagnostic tags.
///
/// https://microsoft.github.io/language-server-protocol/specifications/lsp/3.17/specification/#diagnosticTag
#[derive(Debug, PartialEq, Clone)]
pub enum DiagnosticTag {
    /// Unused or unnecessary code.
    /// Clients are allowed to render diagnostics with this tag faded out
    /// instead of having an error squiggle.
    Unnecessary,
    /// Deprecated or obsolete code.
    /// Clients are allowed to rendered diagnostics with this tag strike through.
    Deprecated,
}

/// https://microsoft.github.io/language-server-protocol/specifications/lsp/3.17/specification/#foldingRangeClientCapabilities
///
/// @since 3.10.0
#[derive(Debug, PartialEq, Clone)]
pub struct FoldingRangeClientCapabilities {
    /// Whether implementation supports dynamic registration for folding range
    /// providers. If this is set to `true` the client supports the new
    /// `FoldingRangeRegistrationOptions` return value for the corresponding
    /// server capability as well.
    pub dynamic_registration: Option<bool>,

    /// The maximum number of folding ranges that the client prefers to receive
    /// per document. The value serves as a hint, servers are free to follow
    /// the limit.
    pub range_limit: Option<u32>,

    /// If set, the client signals that it only supports folding complete lines.
    /// If set, client will ignore specified `startCharacter` and `endCharacter`
    /// properties in a FoldingRange.
    pub line_folding_only: Option<bool>,

    /// Specific options for the folding range kind.
    ///
    /// @since 3.17.0
    pub folding_range_kind: Option<FoldingRangeKindCapabilities>,

    /// Specific options for the folding range.
    ///
    /// @since 3.17.0
    pub folding_range: Option<FoldingRangeCapabilities>,
}

/// The folding range kind capabilities.
#[derive(Debug, PartialEq, Clone)]
pub struct FoldingRangeKindCapabilities {
    /// The folding range kind values the client supports. When this property
    /// exists the client also guarantees that it will handle values outside its
    /// set gracefully and falls back to a default value when unknown.
    pub value_set: Option<Vec<FoldingRangeKind>>,
}

/// Known folding range kinds.
///
/// https://microsoft.github.io/language-server-protocol/specifications/lsp/3.17/specification/#foldingRangeKind
#[derive(Debug, PartialEq, Clone)]
pub enum FoldingRangeKind {
    /// Folding range for a comment.
    Comment,
    /// Folding range for imports or includes.
    Imports,
    /// Folding range for a region (e.g. `#region`).
    Region,
}

/// Specific folding range capabilities.
#[derive(Debug, PartialEq, Clone)]
pub struct FoldingRangeCapabilities {
    /// If set, the client signals that it supports setting `collapsedText` on
    /// folding ranges to display custom labels instead of a default text.
    ///
    /// @since 3.17.0
    pub collapsed_text: Option<bool>,
}

/// https://microsoft.github.io/language-server-protocol/specifications/lsp/3.17/specification/#inlayHintClientCapabilities
///
/// @since 3.17.0
#[derive(Debug, PartialEq, Clone)]
pub struct InlayHintClientCapabilities {
    /// Whether inlay hints support dynamic registration.
    pub dynamic_registration: Option<bool>,

    /// Indicates which properties a client can resolve lazily on an inlay hint.
    pub resolve_support: Option<ResolveSupport>,
}

/// https://microsoft.github.io/language-server-protocol/specifications/lsp/3.17/specification/#diagnosticClientCapabilities
///
/// @since 3.17.0
#[derive(Debug, PartialEq, Clone)]
pub struct DiagnosticClientCapabilities {
    /// Whether implementation supports dynamic registration. If this is set to
    /// `true` the client supports the new
    /// `(TextDocumentRegistrationOptions & StaticRegistrationOptions)` return
    /// value for the corresponding server capability as well.
    pub dynamic_registration: Option<bool>,

    /// Whether the clients supports related documents for document diagnostic
    /// pulls.
    pub related_document_support: Option<bool>,
}

/// Capabilities specific to the `textDocument/completion` request.
///
/// https://microsoft.github.io/language-server-protocol/specifications/lsp/3.17/specification/#completionClientCapabilities
#[derive(Debug, PartialEq, Clone)]
pub struct CompletionClientCapabilities {
    /// Whether completion supports dynamic registration.
    pub dynamic_registration: Option<bool>,

    /// The client supports the following `CompletionItem` specific capabilities.
    pub completion_item: Option<CompletionClientCapabilitiesCompletionItem>,

    /// Specific capabilities for the `CompletionItemKind` in the
    /// `textDocument/completion` request.
    pub completion_item_kind: Option<CompletionClientCapabilitiesCompletionItemKind>,

    /// The client supports to send additional context information for a
    /// `textDocument/completion` request.
    pub context_support: Option<bool>,

    /// The client's default when the completion item doesn't provide an
    /// `insertTextMode` property.
    ///
    /// @since 3.17.0
    pub insert_text_mode: Option<InsertTextMode>,

    /// The client supports the following `CompletionList` specific capabilities.
    ///
    /// @since 3.17.0
    pub completion_list: Option<CompletionClientCapabilitiesCompletionList>,
}

/// Additional properties that describe a completion item.
///
/// https://microsoft.github.io/language-server-protocol/specifications/lsp/3.17/specification/#completionClientCapabilities
#[derive(Debug, PartialEq, Clone)]
pub struct CompletionClientCapabilitiesCompletionItem {
    /// Client supports snippets as insert text.
    ///
    /// A snippet can define tab stops and placeholders with `$1`, `$2`
    /// and `${3:foo}`. `$0` defines the final tab stop, it defaults to
    /// the end of the snippet. Placeholders with equal identifiers are
    /// linked, that is typing in one will update others too.
    pub snippet_support: Option<bool>,

    /// Client supports commit characters on a completion item.
    pub commit_characters_support: Option<bool>,

    /// Client supports the following content formats for the documentation
    /// property. The order describes the preferred format of the client.
    pub documentation_format: Option<Vec<MarkupKind>>,

    /// Client supports the deprecated property on a completion item.
    pub deprecated_support: Option<bool>,

    /// Client supports the preselect property on a completion item.
    pub preselect_support: Option<bool>,

    /// Client supports the tag property on a completion item. Clients
    /// supporting tags have to handle unknown tags gracefully. Clients
    /// especially need to preserve unknown tags when sending a completion
    /// item back to the server in a `completionItem/resolve` request.
    ///
    /// @since 3.15.0
    pub tag_support: Option<CompletionItemTagSupport>,

    /// Client supports insert replace edit to control different behavior if
    /// a completion item is inserted in the text or should replace text.
    ///
    /// @since 3.16.0
    pub insert_replace_support: Option<bool>,

    /// Indicates which properties a client can resolve lazily on a
    /// completion item. Before version 3.16.0 only the predefined properties
    /// `documentation` and `detail` could be resolved lazily.
    ///
    /// @since 3.16.0
    pub resolve_support: Option<CompletionItemResolveSupport>,

    /// The client supports the `insertTextMode` property on a completion
    /// item to override the whitespace handling mode as defined by the client
    /// (see `insertTextMode`).
    ///
    /// @since 3.16.0
    pub insert_text_mode_support: Option<CompletionItemInsertTextModeSupport>,

    /// The client has support for completion item label details (see also
    /// `CompletionItemLabelDetails`).
    ///
    /// @since 3.17.0
    pub label_details_support: Option<bool>,
}

/// Tag support for completion items.
#[derive(Debug, PartialEq, Clone)]
pub struct CompletionItemTagSupport {
    /// The tags supported by the client.
    pub value_set: Vec<CompletionItemTag>,
}

/// Resolve support for completion items.
#[derive(Debug, PartialEq, Clone)]
pub struct CompletionItemResolveSupport {
    /// The properties that a client can resolve lazily.
    pub properties: Vec<String>,
}

/// Insert text mode support for completion items.
#[derive(Debug, PartialEq, Clone)]
pub struct CompletionItemInsertTextModeSupport {
    pub value_set: Vec<InsertTextMode>,
}

/// Specific capabilities for the `CompletionItemKind`.
#[derive(Debug, PartialEq, Clone)]
pub struct CompletionClientCapabilitiesCompletionItemKind {
    /// The completion item kind values the client supports. When this
    /// property exists the client also guarantees that it will
    /// handle values outside its set gracefully and falls back
    /// to a default value when unknown.
    ///
    /// If this property is not present the client only supports
    /// the completion items kinds from `Text` to `Reference` as defined in
    /// the initial version of the protocol.
    pub value_set: Option<Vec<CompletionItemKind>>,
}

/// Client supports the following `CompletionList` specific capabilities.
///
/// @since 3.17.0
#[derive(Debug, PartialEq, Clone)]
pub struct CompletionClientCapabilitiesCompletionList {
    /// The client supports the following itemDefaults on a completion list.
    ///
    /// The value lists the supported property names of the
    /// `CompletionList.itemDefaults` object. If omitted no properties are
    /// supported.
    ///
    /// @since 3.17.0
    pub item_defaults: Option<Vec<String>>,
}

/// Completion item tags are extra annotations that tweak the rendering of a
/// completion item.
///
/// @since 3.15.0
#[derive(Debug, PartialEq, Clone)]
pub enum CompletionItemTag {
    /// Render a completion as obsolete, usually using a strike-out.
    Deprecated,
}

/// How whitespace and indentation is handled during completion item insertion.
///
/// @since 3.16.0
#[derive(Debug, PartialEq, Clone)]
pub enum InsertTextMode {
    /// The insertion or replace strings are taken as-is. If the value is multi
    /// line the lines below the cursor will be inserted using the indentation
    /// defined in the string value. The client will not apply any kind of
    /// adjustments to the string.
    AsIs,

    /// The editor adjusts leading whitespace of new lines so that they match
    /// the indentation up to the cursor of the line for which the item is
    /// accepted.
    ///
    /// Consider a line like this: `<2tabs><cursor><3tabs>foo`. Accepting a
    /// multi line completion item is indented using 2 tabs and all following
    /// lines inserted will be indented using 2 tabs as well.
    AdjustIndentation,
}

/// The kind of a completion entry.
///
/// https://microsoft.github.io/language-server-protocol/specifications/lsp/3.17/specification/#completionItemKind
#[derive(Debug, PartialEq, Clone)]
pub enum CompletionItemKind {
    Text,
    Method,
    Function,
    Constructor,
    Field,
    Variable,
    Class,
    Interface,
    Module,
    Property,
    Unit,
    Value,
    Enum,
    Keyword,
    Snippet,
    Color,
    File,
    Reference,
    Folder,
    EnumMember,
    Constant,
    Struct,
    Event,
    Operator,
    TypeParameter,
}

/// Capabilities specific to the various semantic token requests.
///
/// https://microsoft.github.io/language-server-protocol/specifications/lsp/3.17/specification/#semanticTokensClientCapabilities
///
/// @since 3.16.0
#[derive(Debug, PartialEq, Clone)]
pub struct SemanticTokensClientCapabilities {
    /// Whether implementation supports dynamic registration. If this is set to
    /// `true` the client supports the new `(TextDocumentRegistrationOptions &
    /// StaticRegistrationOptions)` return value for the corresponding server
    /// capability as well.
    pub dynamic_registration: Option<bool>,

    /// Which requests the client supports and might send to the server
    /// depending on the server's capability. Please note that clients might not
    /// show semantic tokens or degrade some of the user experience if a range
    /// or full request is advertised by the client but not provided by the
    /// server. If for example the client capability `requests.full` and
    /// `request.range` are both set to true but the server only provides a
    /// range provider the client might not render a minimap correctly or might
    /// even decide to not show any semantic tokens at all.
    pub requests: SemanticTokensRequests,

    /// The token types that the client supports.
    pub token_types: Vec<String>,

    /// The token modifiers that the client supports.
    pub token_modifiers: Vec<String>,

    /// The formats the clients supports.
    pub formats: Vec<TokenFormat>,

    /// Whether the client supports tokens that can overlap each other.
    pub overlapping_token_support: Option<bool>,

    /// Whether the client supports tokens that can span multiple lines.
    pub multiline_token_support: Option<bool>,

    /// Whether the client allows the server to actively cancel a
    /// semantic token request, e.g. supports returning
    /// `ErrorCodes.ServerCancelled`. If a server does the client
    /// needs to retrigger the request.
    ///
    /// @since 3.17.0
    pub server_cancel_support: Option<bool>,

    /// Whether the client uses semantic tokens to augment existing
    /// syntax tokens. If set to `true` client side created syntax
    /// tokens and semantic tokens are both used for colorization. If
    /// set to `false` the client only uses the returned semantic tokens
    /// for colorization.
    ///
    /// If the value is `undefined` then the client behavior is not
    /// specified.
    ///
    /// @since 3.17.0
    pub augments_syntax_tokens: Option<bool>,
}

#[derive(Debug, PartialEq, Clone)]
pub struct SemanticTokensRequests {
    pub range: Option<BoolOrEmpty>,
    pub full: Option<FullCapability>,
}

#[derive(Debug, PartialEq, Clone)]
pub enum TokenFormat {
    Relative,
}

} // verus!
