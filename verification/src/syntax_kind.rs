//! The kinds of tokens and syntax tree nodes of SPARQL.

use vstd::prelude::*;

verus! {

/// Every kind of token produced by the lexer and every kind of node in the
/// concrete syntax tree built by the parser.
#[allow(non_camel_case_types)]
#[derive(Clone, Copy, Debug, PartialEq, Eq, Structural, Hash)]
pub enum SyntaxKind {
    Eof,
    Error,
    WHITESPACE,
    Comment,
    ABS,
    ADD,
    ALL,
    ANON,
    AS,
    ASC,
    ASK,
    AVG,
    BASE,
    BIND,
    BLANK_NODE_LABEL,
    BNODE,
    BOUND,
    BY,
    CEIL,
    CLEAR,
    COALESCE,
    CONCAT,
    CONSTRUCT,
    CONTAINS,
    COPY,
    COUNT,
    CREATE,
    Comma,
    DATA,
    DATATYPE,
    DAY,
    DECIMAL,
    DECIMAL_NEGATIVE,
    DECIMAL_POSITIVE,
    DEFAULT,
    DELETE,
    DELETE_DATA,
    DELETE_WHERE,
    DESC,
    DESCRIBE,
    DISTINCT,
    DOUBLE,
    DOUBLE_NEGATIVE,
    DOUBLE_POSITIVE,
    DROP,
    Dot,
    DoubleAnd,
    DoubleLess,
    DoubleLessLParen,
    DoubleMore,
    DoublePipe,
    DoubleZirkumflex,
    ENCODE_FOR_URI,
    EXISTS,
    Equals,
    ExclamationMark,
    ExclamationMarkEquals,
    FILTER,
    FLOOR,
    FROM,
    False,
    GRAPH,
    GROUP,
    GROUP_CONCAT,
    HAVING,
    HOURS,
    IF,
    IN,
    INSERT,
    INSERT_DATA,
    INTEGER,
    INTEGER_NEGATIVE,
    INTEGER_POSITIVE,
    INTO,
    IRI,
    IRIREF,
    LANG,
    LANGDIR,
    LANGMATCHES,
    LANGTAG,
    LANG_DIR,
    LBrack,
    LCASE,
    LCurly,
    LCurlyPipe,
    LIMIT,
    LOAD,
    LParen,
    Less,
    LessEquals,
    MAX,
    MD5,
    MIN,
    MINUS,
    MINUTES,
    MONTH,
    MOVE,
    Minus,
    More,
    MoreEquals,
    NAMED,
    NIL,
    NOT,
    NOW,
    OBJECT,
    OFFSET,
    OPTIONAL,
    ORDER,
    PNAME_LN,
    PNAME_NS,
    PREDICATE,
    PREFIX,
    Pipe,
    PipeRCurly,
    Plus,
    QuestionMark,
    RAND,
    RBrack,
    RCurly,
    REDUCED,
    REGEX,
    REPLACE,
    ROUND,
    RParen,
    RParenDoubleMore,
    SAMPLE,
    SECONDS,
    SELECT,
    SEPARATOR,
    SERVICE,
    SHA1,
    SHA256,
    SHA384,
    SHA512,
    SILENT,
    STR,
    STRAFTER,
    STRBEFORE,
    STRDT,
    STRENDS,
    STRING_LITERAL1,
    STRING_LITERAL2,
    STRING_LITERAL_LONG1,
    STRING_LITERAL_LONG2,
    STRLANG,
    STRLANGDIR,
    STRLEN,
    STRSTARTS,
    STRUUID,
    SUBJECT,
    SUBSTR,
    SUM,
    Semicolon,
    Slash,
    Star,
    TIMEZONE,
    TO,
    TRIPLE,
    TZ,
    Tilde,
    True,
    UCASE,
    UNDEF,
    UNION,
    URI,
    USING,
    UUID,
    VALUES,
    VAR1,
    VAR2,
    VERSION,
    WHERE,
    WITH,
    YEAR,
    Zirkumflex,
    a,
    hasLANG,
    hasLANGDIR,
    isBLANK,
    isIRI,
    isLITERAL,
    isNUMERIC,
    isTRIPLE,
    isURI,
    sameTerm,
    QueryUnit,
    Query,
    Prologue,
    SelectQuery,
    ConstructQuery,
    DescribeQuery,
    AskQuery,
    ValuesClause,
    UpdateUnit,
    Update,
    BaseDecl,
    PrefixDecl,
    VersionDecl,
    VersionSpecifier,
    SelectClause,
    DatasetClause,
    WhereClause,
    SolutionModifier,
    SubSelect,
    Var,
    Expression,
    ConstructTemplate,
    TriplesTemplate,
    VarOrIri,
    DefaultGraphClause,
    NamedGraphClause,
    SourceSelector,
    iri,
    GroupGraphPattern,
    GroupClause,
    HavingClause,
    OrderClause,
    LimitOffsetClauses,
    GroupCondition,
    BuiltInCall,
    FunctionCall,
    HavingCondition,
    Constraint,
    OrderCondition,
    BrackettedExpression,
    LimitClause,
    OffsetClause,
    DataBlock,
    UpdateOne,
    Load,
    Clear,
    Drop,
    Add,
    Move,
    Copy,
    Create,
    DeleteWhere,
    Modify,
    InsertData,
    DeleteData,
    GraphRef,
    GraphRefAll,
    GraphOrDefault,
    QuadData,
    QuadPattern,
    DeleteClause,
    InsertClause,
    UsingClause,
    Quads,
    QuadsNotTriples,
    TriplesSameSubject,
    GroupGraphPatternSub,
    TriplesBlock,
    GraphPatternNotTriples,
    TriplesSameSubjectPath,
    ReifiedTripleBlock,
    ReifiedTriple,
    PropertyList,
    ReifiedTripleBlockPath,
    PropertyListPath,
    GroupOrUnionGraphPattern,
    OptionalGraphPattern,
    MinusGraphPattern,
    GraphGraphPattern,
    ServiceGraphPattern,
    Filter,
    Bind,
    InlineData,
    InlineDataOneVar,
    InlineDataFull,
    DataBlockValue,
    RDFLiteral,
    NumericLiteral,
    BooleanLiteral,
    TripleTermData,
    Reifier,
    VarOrReifierId,
    BlankNode,
    ArgList,
    ExpressionList,
    ConstructTriples,
    VarOrTerm,
    PropertyListNotEmpty,
    TriplesNode,
    Verb,
    ObjectList,
    Object,
    GraphNode,
    Annotation,
    PropertyListPathNotEmpty,
    TriplesNodePath,
    VerbPath,
    VerbSimple,
    ObjectListPath,
    Path,
    ObjectPath,
    GraphNodePath,
    AnnotationPath,
    PathAlternative,
    PathSequence,
    PathEltOrInverse,
    PathElt,
    PathPrimary,
    PathMod,
    PathNegatedPropertySet,
    PathOneInPropertySet,
    Collection,
    BlankNodePropertyList,
    CollectionPath,
    BlankNodePropertyListPath,
    AnnotationBlockPath,
    AnnotationBlock,
    TripleTerm,
    ReifiedTripleSubject,
    ReifiedTripleObject,
    TripleTermSubject,
    TripleTermObject,
    TripleTermDataSubject,
    TripleTermDataObject,
    ConditionalOrExpression,
    ConditionalAndExpression,
    ValueLogical,
    RelationalExpression,
    NumericExpression,
    AdditiveExpression,
    MultiplicativeExpression,
    NumericLiteralPositive,
    NumericLiteralNegative,
    UnaryExpression,
    PrimaryExpression,
    iriOrFunction,
    ExprTripleTerm,
    ExprTripleTermSubject,
    ExprTripleTermObject,
    Aggregate,
    SubstringExpression,
    StrReplaceExpression,
    RegexExpression,
    ExistsFunc,
    NotExistsFunc,
    String,
    NumericLiteralUnsigned,
    PrefixedName,
}

impl SyntaxKind {
    /// Tokens without meaning for the grammar: whitespace and comments.
    pub fn is_trivia(&self) -> (r: bool)
        ensures
            r == (*self == SyntaxKind::WHITESPACE || *self == SyntaxKind::Comment),
    {
        matches!(self, SyntaxKind::WHITESPACE | SyntaxKind::Comment)
    }
}

/// The name of a kind, as its `Debug` form writes it.
pub open spec fn kind_name(k: SyntaxKind) -> Seq<char> {
    match k {
        SyntaxKind::Eof => "Eof"@,
        SyntaxKind::Error => "Error"@,
        SyntaxKind::WHITESPACE => "WHITESPACE"@,
        SyntaxKind::Comment => "Comment"@,
        SyntaxKind::ABS => "ABS"@,
        SyntaxKind::ADD => "ADD"@,
        SyntaxKind::ALL => "ALL"@,
        SyntaxKind::ANON => "ANON"@,
        SyntaxKind::AS => "AS"@,
        SyntaxKind::ASC => "ASC"@,
        SyntaxKind::ASK => "ASK"@,
        SyntaxKind::AVG => "AVG"@,
        SyntaxKind::BASE => "BASE"@,
        SyntaxKind::BIND => "BIND"@,
        SyntaxKind::BLANK_NODE_LABEL => "BLANK_NODE_LABEL"@,
        SyntaxKind::BNODE => "BNODE"@,
        SyntaxKind::BOUND => "BOUND"@,
        SyntaxKind::BY => "BY"@,
        SyntaxKind::CEIL => "CEIL"@,
        SyntaxKind::CLEAR => "CLEAR"@,
        SyntaxKind::COALESCE => "COALESCE"@,
        SyntaxKind::CONCAT => "CONCAT"@,
        SyntaxKind::CONSTRUCT => "CONSTRUCT"@,
        SyntaxKind::CONTAINS => "CONTAINS"@,
        SyntaxKind::COPY => "COPY"@,
        SyntaxKind::COUNT => "COUNT"@,
        SyntaxKind::CREATE => "CREATE"@,
        SyntaxKind::Comma => "Comma"@,
        SyntaxKind::DATA => "DATA"@,
        SyntaxKind::DATATYPE => "DATATYPE"@,
        SyntaxKind::DAY => "DAY"@,
        SyntaxKind::DECIMAL => "DECIMAL"@,
        SyntaxKind::DECIMAL_NEGATIVE => "DECIMAL_NEGATIVE"@,
        SyntaxKind::DECIMAL_POSITIVE => "DECIMAL_POSITIVE"@,
        SyntaxKind::DEFAULT => "DEFAULT"@,
        SyntaxKind::DELETE => "DELETE"@,
        SyntaxKind::DELETE_DATA => "DELETE_DATA"@,
        SyntaxKind::DELETE_WHERE => "DELETE_WHERE"@,
        SyntaxKind::DESC => "DESC"@,
        SyntaxKind::DESCRIBE => "DESCRIBE"@,
        SyntaxKind::DISTINCT => "DISTINCT"@,
        SyntaxKind::DOUBLE => "DOUBLE"@,
        SyntaxKind::DOUBLE_NEGATIVE => "DOUBLE_NEGATIVE"@,
        SyntaxKind::DOUBLE_POSITIVE => "DOUBLE_POSITIVE"@,
        SyntaxKind::DROP => "DROP"@,
        SyntaxKind::Dot => "Dot"@,
        SyntaxKind::DoubleAnd => "DoubleAnd"@,
        SyntaxKind::DoubleLess => "DoubleLess"@,
        SyntaxKind::DoubleLessLParen => "DoubleLessLParen"@,
        SyntaxKind::DoubleMore => "DoubleMore"@,
        SyntaxKind::DoublePipe => "DoublePipe"@,
        SyntaxKind::DoubleZirkumflex => "DoubleZirkumflex"@,
        SyntaxKind::ENCODE_FOR_URI => "ENCODE_FOR_URI"@,
        SyntaxKind::EXISTS => "EXISTS"@,
        SyntaxKind::Equals => "Equals"@,
        SyntaxKind::ExclamationMark => "ExclamationMark"@,
        SyntaxKind::ExclamationMarkEquals => "ExclamationMarkEquals"@,
        SyntaxKind::FILTER => "FILTER"@,
        SyntaxKind::FLOOR => "FLOOR"@,
        SyntaxKind::FROM => "FROM"@,
        SyntaxKind::False => "False"@,
        SyntaxKind::GRAPH => "GRAPH"@,
        SyntaxKind::GROUP => "GROUP"@,
        SyntaxKind::GROUP_CONCAT => "GROUP_CONCAT"@,
        SyntaxKind::HAVING => "HAVING"@,
        SyntaxKind::HOURS => "HOURS"@,
        SyntaxKind::IF => "IF"@,
        SyntaxKind::IN => "IN"@,
        SyntaxKind::INSERT => "INSERT"@,
        SyntaxKind::INSERT_DATA => "INSERT_DATA"@,
        SyntaxKind::INTEGER => "INTEGER"@,
        SyntaxKind::INTEGER_NEGATIVE => "INTEGER_NEGATIVE"@,
        SyntaxKind::INTEGER_POSITIVE => "INTEGER_POSITIVE"@,
        SyntaxKind::INTO => "INTO"@,
        SyntaxKind::IRI => "IRI"@,
        SyntaxKind::IRIREF => "IRIREF"@,
        SyntaxKind::LANG => "LANG"@,
        SyntaxKind::LANGDIR => "LANGDIR"@,
        SyntaxKind::LANGMATCHES => "LANGMATCHES"@,
        SyntaxKind::LANGTAG => "LANGTAG"@,
        SyntaxKind::LANG_DIR => "LANG_DIR"@,
        SyntaxKind::LBrack => "LBrack"@,
        SyntaxKind::LCASE => "LCASE"@,
        SyntaxKind::LCurly => "LCurly"@,
        SyntaxKind::LCurlyPipe => "LCurlyPipe"@,
        SyntaxKind::LIMIT => "LIMIT"@,
        SyntaxKind::LOAD => "LOAD"@,
        SyntaxKind::LParen => "LParen"@,
        SyntaxKind::Less => "Less"@,
        SyntaxKind::LessEquals => "LessEquals"@,
        SyntaxKind::MAX => "MAX"@,
        SyntaxKind::MD5 => "MD5"@,
        SyntaxKind::MIN => "MIN"@,
        SyntaxKind::MINUS => "MINUS"@,
        SyntaxKind::MINUTES => "MINUTES"@,
        SyntaxKind::MONTH => "MONTH"@,
        SyntaxKind::MOVE => "MOVE"@,
        SyntaxKind::Minus => "Minus"@,
        SyntaxKind::More => "More"@,
        SyntaxKind::MoreEquals => "MoreEquals"@,
        SyntaxKind::NAMED => "NAMED"@,
        SyntaxKind::NIL => "NIL"@,
        SyntaxKind::NOT => "NOT"@,
        SyntaxKind::NOW => "NOW"@,
        SyntaxKind::OBJECT => "OBJECT"@,
        SyntaxKind::OFFSET => "OFFSET"@,
        SyntaxKind::OPTIONAL => "OPTIONAL"@,
        SyntaxKind::ORDER => "ORDER"@,
        SyntaxKind::PNAME_LN => "PNAME_LN"@,
        SyntaxKind::PNAME_NS => "PNAME_NS"@,
        SyntaxKind::PREDICATE => "PREDICATE"@,
        SyntaxKind::PREFIX => "PREFIX"@,
        SyntaxKind::Pipe => "Pipe"@,
        SyntaxKind::PipeRCurly => "PipeRCurly"@,
        SyntaxKind::Plus => "Plus"@,
        SyntaxKind::QuestionMark => "QuestionMark"@,
        SyntaxKind::RAND => "RAND"@,
        SyntaxKind::RBrack => "RBrack"@,
        SyntaxKind::RCurly => "RCurly"@,
        SyntaxKind::REDUCED => "REDUCED"@,
        SyntaxKind::REGEX => "REGEX"@,
        SyntaxKind::REPLACE => "REPLACE"@,
        SyntaxKind::ROUND => "ROUND"@,
        SyntaxKind::RParen => "RParen"@,
        SyntaxKind::RParenDoubleMore => "RParenDoubleMore"@,
        SyntaxKind::SAMPLE => "SAMPLE"@,
        SyntaxKind::SECONDS => "SECONDS"@,
        SyntaxKind::SELECT => "SELECT"@,
        SyntaxKind::SEPARATOR => "SEPARATOR"@,
        SyntaxKind::SERVICE => "SERVICE"@,
        SyntaxKind::SHA1 => "SHA1"@,
        SyntaxKind::SHA256 => "SHA256"@,
        SyntaxKind::SHA384 => "SHA384"@,
        SyntaxKind::SHA512 => "SHA512"@,
        SyntaxKind::SILENT => "SILENT"@,
        SyntaxKind::STR => "STR"@,
        SyntaxKind::STRAFTER => "STRAFTER"@,
        SyntaxKind::STRBEFORE => "STRBEFORE"@,
        SyntaxKind::STRDT => "STRDT"@,
        SyntaxKind::STRENDS => "STRENDS"@,
        SyntaxKind::STRING_LITERAL1 => "STRING_LITERAL1"@,
        SyntaxKind::STRING_LITERAL2 => "STRING_LITERAL2"@,
        SyntaxKind::STRING_LITERAL_LONG1 => "STRING_LITERAL_LONG1"@,
        SyntaxKind::STRING_LITERAL_LONG2 => "STRING_LITERAL_LONG2"@,
        SyntaxKind::STRLANG => "STRLANG"@,
        SyntaxKind::STRLANGDIR => "STRLANGDIR"@,
        SyntaxKind::STRLEN => "STRLEN"@,
        SyntaxKind::STRSTARTS => "STRSTARTS"@,
        SyntaxKind::STRUUID => "STRUUID"@,
        SyntaxKind::SUBJECT => "SUBJECT"@,
        SyntaxKind::SUBSTR => "SUBSTR"@,
        SyntaxKind::SUM => "SUM"@,
        SyntaxKind::Semicolon => "Semicolon"@,
        SyntaxKind::Slash => "Slash"@,
        SyntaxKind::Star => "Star"@,
        SyntaxKind::TIMEZONE => "TIMEZONE"@,
        SyntaxKind::TO => "TO"@,
        SyntaxKind::TRIPLE => "TRIPLE"@,
        SyntaxKind::TZ => "TZ"@,
        SyntaxKind::Tilde => "Tilde"@,
        SyntaxKind::True => "True"@,
        SyntaxKind::UCASE => "UCASE"@,
        SyntaxKind::UNDEF => "UNDEF"@,
        SyntaxKind::UNION => "UNION"@,
        SyntaxKind::URI => "URI"@,
        SyntaxKind::USING => "USING"@,
        SyntaxKind::UUID => "UUID"@,
        SyntaxKind::VALUES => "VALUES"@,
        SyntaxKind::VAR1 => "VAR1"@,
        SyntaxKind::VAR2 => "VAR2"@,
        SyntaxKind::VERSION => "VERSION"@,
        SyntaxKind::WHERE => "WHERE"@,
        SyntaxKind::WITH => "WITH"@,
        SyntaxKind::YEAR => "YEAR"@,
        SyntaxKind::Zirkumflex => "Zirkumflex"@,
        SyntaxKind::a => "a"@,
        SyntaxKind::hasLANG => "hasLANG"@,
        SyntaxKind::hasLANGDIR => "hasLANGDIR"@,
        SyntaxKind::isBLANK => "isBLANK"@,
        SyntaxKind::isIRI => "isIRI"@,
        SyntaxKind::isLITERAL => "isLITERAL"@,
        SyntaxKind::isNUMERIC => "isNUMERIC"@,
        SyntaxKind::isTRIPLE => "isTRIPLE"@,
        SyntaxKind::isURI => "isURI"@,
        SyntaxKind::sameTerm => "sameTerm"@,
        SyntaxKind::QueryUnit => "QueryUnit"@,
        SyntaxKind::Query => "Query"@,
        SyntaxKind::Prologue => "Prologue"@,
        SyntaxKind::SelectQuery => "SelectQuery"@,
        SyntaxKind::ConstructQuery => "ConstructQuery"@,
        SyntaxKind::DescribeQuery => "DescribeQuery"@,
        SyntaxKind::AskQuery => "AskQuery"@,
        SyntaxKind::ValuesClause => "ValuesClause"@,
        SyntaxKind::UpdateUnit => "UpdateUnit"@,
        SyntaxKind::Update => "Update"@,
        SyntaxKind::BaseDecl => "BaseDecl"@,
        SyntaxKind::PrefixDecl => "PrefixDecl"@,
        SyntaxKind::VersionDecl => "VersionDecl"@,
        SyntaxKind::VersionSpecifier => "VersionSpecifier"@,
        SyntaxKind::SelectClause => "SelectClause"@,
        SyntaxKind::DatasetClause => "DatasetClause"@,
        SyntaxKind::WhereClause => "WhereClause"@,
        SyntaxKind::SolutionModifier => "SolutionModifier"@,
        SyntaxKind::SubSelect => "SubSelect"@,
        SyntaxKind::Var => "Var"@,
        SyntaxKind::Expression => "Expression"@,
        SyntaxKind::ConstructTemplate => "ConstructTemplate"@,
        SyntaxKind::TriplesTemplate => "TriplesTemplate"@,
        SyntaxKind::VarOrIri => "VarOrIri"@,
        SyntaxKind::DefaultGraphClause => "DefaultGraphClause"@,
        SyntaxKind::NamedGraphClause => "NamedGraphClause"@,
        SyntaxKind::SourceSelector => "SourceSelector"@,
        SyntaxKind::iri => "iri"@,
        SyntaxKind::GroupGraphPattern => "GroupGraphPattern"@,
        SyntaxKind::GroupClause => "GroupClause"@,
        SyntaxKind::HavingClause => "HavingClause"@,
        SyntaxKind::OrderClause => "OrderClause"@,
        SyntaxKind::LimitOffsetClauses => "LimitOffsetClauses"@,
        SyntaxKind::GroupCondition => "GroupCondition"@,
        SyntaxKind::BuiltInCall => "BuiltInCall"@,
        SyntaxKind::FunctionCall => "FunctionCall"@,
        SyntaxKind::HavingCondition => "HavingCondition"@,
        SyntaxKind::Constraint => "Constraint"@,
        SyntaxKind::OrderCondition => "OrderCondition"@,
        SyntaxKind::BrackettedExpression => "BrackettedExpression"@,
        SyntaxKind::LimitClause => "LimitClause"@,
        SyntaxKind::OffsetClause => "OffsetClause"@,
        SyntaxKind::DataBlock => "DataBlock"@,
        SyntaxKind::UpdateOne => "UpdateOne"@,
        SyntaxKind::Load => "Load"@,
        SyntaxKind::Clear => "Clear"@,
        SyntaxKind::Drop => "Drop"@,
        SyntaxKind::Add => "Add"@,
        SyntaxKind::Move => "Move"@,
        SyntaxKind::Copy => "Copy"@,
        SyntaxKind::Create => "Create"@,
        SyntaxKind::DeleteWhere => "DeleteWhere"@,
        SyntaxKind::Modify => "Modify"@,
        SyntaxKind::InsertData => "InsertData"@,
        SyntaxKind::DeleteData => "DeleteData"@,
        SyntaxKind::GraphRef => "GraphRef"@,
        SyntaxKind::GraphRefAll => "GraphRefAll"@,
        SyntaxKind::GraphOrDefault => "GraphOrDefault"@,
        SyntaxKind::QuadData => "QuadData"@,
        SyntaxKind::QuadPattern => "QuadPattern"@,
        SyntaxKind::DeleteClause => "DeleteClause"@,
        SyntaxKind::InsertClause => "InsertClause"@,
        SyntaxKind::UsingClause => "UsingClause"@,
        SyntaxKind::Quads => "Quads"@,
        SyntaxKind::QuadsNotTriples => "QuadsNotTriples"@,
        SyntaxKind::TriplesSameSubject => "TriplesSameSubject"@,
        SyntaxKind::GroupGraphPatternSub => "GroupGraphPatternSub"@,
        SyntaxKind::TriplesBlock => "TriplesBlock"@,
        SyntaxKind::GraphPatternNotTriples => "GraphPatternNotTriples"@,
        SyntaxKind::TriplesSameSubjectPath => "TriplesSameSubjectPath"@,
        SyntaxKind::ReifiedTripleBlock => "ReifiedTripleBlock"@,
        SyntaxKind::ReifiedTriple => "ReifiedTriple"@,
        SyntaxKind::PropertyList => "PropertyList"@,
        SyntaxKind::ReifiedTripleBlockPath => "ReifiedTripleBlockPath"@,
        SyntaxKind::PropertyListPath => "PropertyListPath"@,
        SyntaxKind::GroupOrUnionGraphPattern => "GroupOrUnionGraphPattern"@,
        SyntaxKind::OptionalGraphPattern => "OptionalGraphPattern"@,
        SyntaxKind::MinusGraphPattern => "MinusGraphPattern"@,
        SyntaxKind::GraphGraphPattern => "GraphGraphPattern"@,
        SyntaxKind::ServiceGraphPattern => "ServiceGraphPattern"@,
        SyntaxKind::Filter => "Filter"@,
        SyntaxKind::Bind => "Bind"@,
        SyntaxKind::InlineData => "InlineData"@,
        SyntaxKind::InlineDataOneVar => "InlineDataOneVar"@,
        SyntaxKind::InlineDataFull => "InlineDataFull"@,
        SyntaxKind::DataBlockValue => "DataBlockValue"@,
        SyntaxKind::RDFLiteral => "RDFLiteral"@,
        SyntaxKind::NumericLiteral => "NumericLiteral"@,
        SyntaxKind::BooleanLiteral => "BooleanLiteral"@,
        SyntaxKind::TripleTermData => "TripleTermData"@,
        SyntaxKind::Reifier => "Reifier"@,
        SyntaxKind::VarOrReifierId => "VarOrReifierId"@,
        SyntaxKind::BlankNode => "BlankNode"@,
        SyntaxKind::ArgList => "ArgList"@,
        SyntaxKind::ExpressionList => "ExpressionList"@,
        SyntaxKind::ConstructTriples => "ConstructTriples"@,
        SyntaxKind::VarOrTerm => "VarOrTerm"@,
        SyntaxKind::PropertyListNotEmpty => "PropertyListNotEmpty"@,
        SyntaxKind::TriplesNode => "TriplesNode"@,
        SyntaxKind::Verb => "Verb"@,
        SyntaxKind::ObjectList => "ObjectList"@,
        SyntaxKind::Object => "Object"@,
        SyntaxKind::GraphNode => "GraphNode"@,
        SyntaxKind::Annotation => "Annotation"@,
        SyntaxKind::PropertyListPathNotEmpty => "PropertyListPathNotEmpty"@,
        SyntaxKind::TriplesNodePath => "TriplesNodePath"@,
        SyntaxKind::VerbPath => "VerbPath"@,
        SyntaxKind::VerbSimple => "VerbSimple"@,
        SyntaxKind::ObjectListPath => "ObjectListPath"@,
        SyntaxKind::Path => "Path"@,
        SyntaxKind::ObjectPath => "ObjectPath"@,
        SyntaxKind::GraphNodePath => "GraphNodePath"@,
        SyntaxKind::AnnotationPath => "AnnotationPath"@,
        SyntaxKind::PathAlternative => "PathAlternative"@,
        SyntaxKind::PathSequence => "PathSequence"@,
        SyntaxKind::PathEltOrInverse => "PathEltOrInverse"@,
        SyntaxKind::PathElt => "PathElt"@,
        SyntaxKind::PathPrimary => "PathPrimary"@,
        SyntaxKind::PathMod => "PathMod"@,
        SyntaxKind::PathNegatedPropertySet => "PathNegatedPropertySet"@,
        SyntaxKind::PathOneInPropertySet => "PathOneInPropertySet"@,
        SyntaxKind::Collection => "Collection"@,
        SyntaxKind::BlankNodePropertyList => "BlankNodePropertyList"@,
        SyntaxKind::CollectionPath => "CollectionPath"@,
        SyntaxKind::BlankNodePropertyListPath => "BlankNodePropertyListPath"@,
        SyntaxKind::AnnotationBlockPath => "AnnotationBlockPath"@,
        SyntaxKind::AnnotationBlock => "AnnotationBlock"@,
        SyntaxKind::TripleTerm => "TripleTerm"@,
        SyntaxKind::ReifiedTripleSubject => "ReifiedTripleSubject"@,
        SyntaxKind::ReifiedTripleObject => "ReifiedTripleObject"@,
        SyntaxKind::TripleTermSubject => "TripleTermSubject"@,
        SyntaxKind::TripleTermObject => "TripleTermObject"@,
        SyntaxKind::TripleTermDataSubject => "TripleTermDataSubject"@,
        SyntaxKind::TripleTermDataObject => "TripleTermDataObject"@,
        SyntaxKind::ConditionalOrExpression => "ConditionalOrExpression"@,
        SyntaxKind::ConditionalAndExpression => "ConditionalAndExpression"@,
        SyntaxKind::ValueLogical => "ValueLogical"@,
        SyntaxKind::RelationalExpression => "RelationalExpression"@,
        SyntaxKind::NumericExpression => "NumericExpression"@,
        SyntaxKind::AdditiveExpression => "AdditiveExpression"@,
        SyntaxKind::MultiplicativeExpression => "MultiplicativeExpression"@,
        SyntaxKind::NumericLiteralPositive => "NumericLiteralPositive"@,
        SyntaxKind::NumericLiteralNegative => "NumericLiteralNegative"@,
        SyntaxKind::UnaryExpression => "UnaryExpression"@,
        SyntaxKind::PrimaryExpression => "PrimaryExpression"@,
        SyntaxKind::iriOrFunction => "iriOrFunction"@,
        SyntaxKind::ExprTripleTerm => "ExprTripleTerm"@,
        SyntaxKind::ExprTripleTermSubject => "ExprTripleTermSubject"@,
        SyntaxKind::ExprTripleTermObject => "ExprTripleTermObject"@,
        SyntaxKind::Aggregate => "Aggregate"@,
        SyntaxKind::SubstringExpression => "SubstringExpression"@,
        SyntaxKind::StrReplaceExpression => "StrReplaceExpression"@,
        SyntaxKind::RegexExpression => "RegexExpression"@,
        SyntaxKind::ExistsFunc => "ExistsFunc"@,
        SyntaxKind::NotExistsFunc => "NotExistsFunc"@,
        SyntaxKind::String => "String"@,
        SyntaxKind::NumericLiteralUnsigned => "NumericLiteralUnsigned"@,
        SyntaxKind::PrefixedName => "PrefixedName"@,
    }
}

impl SyntaxKind {
    /// The name of the kind, as in the grammar.
    pub fn name(&self) -> (r: &'static str)
        ensures
            r@ == kind_name(*self),
    {
        match self {
            SyntaxKind::Eof => "Eof",
            SyntaxKind::Error => "Error",
            SyntaxKind::WHITESPACE => "WHITESPACE",
            SyntaxKind::Comment => "Comment",
            SyntaxKind::ABS => "ABS",
            SyntaxKind::ADD => "ADD",
            SyntaxKind::ALL => "ALL",
            SyntaxKind::ANON => "ANON",
            SyntaxKind::AS => "AS",
            SyntaxKind::ASC => "ASC",
            SyntaxKind::ASK => "ASK",
            SyntaxKind::AVG => "AVG",
            SyntaxKind::BASE => "BASE",
            SyntaxKind::BIND => "BIND",
            SyntaxKind::BLANK_NODE_LABEL => "BLANK_NODE_LABEL",
            SyntaxKind::BNODE => "BNODE",
            SyntaxKind::BOUND => "BOUND",
            SyntaxKind::BY => "BY",
            SyntaxKind::CEIL => "CEIL",
            SyntaxKind::CLEAR => "CLEAR",
            SyntaxKind::COALESCE => "COALESCE",
            SyntaxKind::CONCAT => "CONCAT",
            SyntaxKind::CONSTRUCT => "CONSTRUCT",
            SyntaxKind::CONTAINS => "CONTAINS",
            SyntaxKind::COPY => "COPY",
            SyntaxKind::COUNT => "COUNT",
            SyntaxKind::CREATE => "CREATE",
            SyntaxKind::Comma => "Comma",
            SyntaxKind::DATA => "DATA",
            SyntaxKind::DATATYPE => "DATATYPE",
            SyntaxKind::DAY => "DAY",
            SyntaxKind::DECIMAL => "DECIMAL",
            SyntaxKind::DECIMAL_NEGATIVE => "DECIMAL_NEGATIVE",
            SyntaxKind::DECIMAL_POSITIVE => "DECIMAL_POSITIVE",
            SyntaxKind::DEFAULT => "DEFAULT",
            SyntaxKind::DELETE => "DELETE",
            SyntaxKind::DELETE_DATA => "DELETE_DATA",
            SyntaxKind::DELETE_WHERE => "DELETE_WHERE",
            SyntaxKind::DESC => "DESC",
            SyntaxKind::DESCRIBE => "DESCRIBE",
            SyntaxKind::DISTINCT => "DISTINCT",
            SyntaxKind::DOUBLE => "DOUBLE",
            SyntaxKind::DOUBLE_NEGATIVE => "DOUBLE_NEGATIVE",
            SyntaxKind::DOUBLE_POSITIVE => "DOUBLE_POSITIVE",
            SyntaxKind::DROP => "DROP",
            SyntaxKind::Dot => "Dot",
            SyntaxKind::DoubleAnd => "DoubleAnd",
            SyntaxKind::DoubleLess => "DoubleLess",
            SyntaxKind::DoubleLessLParen => "DoubleLessLParen",
            SyntaxKind::DoubleMore => "DoubleMore",
            SyntaxKind::DoublePipe => "DoublePipe",
            SyntaxKind::DoubleZirkumflex => "DoubleZirkumflex",
            SyntaxKind::ENCODE_FOR_URI => "ENCODE_FOR_URI",
            SyntaxKind::EXISTS => "EXISTS",
            SyntaxKind::Equals => "Equals",
            SyntaxKind::ExclamationMark => "ExclamationMark",
            SyntaxKind::ExclamationMarkEquals => "ExclamationMarkEquals",
            SyntaxKind::FILTER => "FILTER",
            SyntaxKind::FLOOR => "FLOOR",
            SyntaxKind::FROM => "FROM",
            SyntaxKind::False => "False",
            SyntaxKind::GRAPH => "GRAPH",
            SyntaxKind::GROUP => "GROUP",
            SyntaxKind::GROUP_CONCAT => "GROUP_CONCAT",
            SyntaxKind::HAVING => "HAVING",
            SyntaxKind::HOURS => "HOURS",
            SyntaxKind::IF => "IF",
            SyntaxKind::IN => "IN",
            SyntaxKind::INSERT => "INSERT",
            SyntaxKind::INSERT_DATA => "INSERT_DATA",
            SyntaxKind::INTEGER => "INTEGER",
            SyntaxKind::INTEGER_NEGATIVE => "INTEGER_NEGATIVE",
            SyntaxKind::INTEGER_POSITIVE => "INTEGER_POSITIVE",
            SyntaxKind::INTO => "INTO",
            SyntaxKind::IRI => "IRI",
            SyntaxKind::IRIREF => "IRIREF",
            SyntaxKind::LANG => "LANG",
            SyntaxKind::LANGDIR => "LANGDIR",
            SyntaxKind::LANGMATCHES => "LANGMATCHES",
            SyntaxKind::LANGTAG => "LANGTAG",
            SyntaxKind::LANG_DIR => "LANG_DIR",
            SyntaxKind::LBrack => "LBrack",
            SyntaxKind::LCASE => "LCASE",
            SyntaxKind::LCurly => "LCurly",
            SyntaxKind::LCurlyPipe => "LCurlyPipe",
            SyntaxKind::LIMIT => "LIMIT",
            SyntaxKind::LOAD => "LOAD",
            SyntaxKind::LParen => "LParen",
            SyntaxKind::Less => "Less",
            SyntaxKind::LessEquals => "LessEquals",
            SyntaxKind::MAX => "MAX",
            SyntaxKind::MD5 => "MD5",
            SyntaxKind::MIN => "MIN",
            SyntaxKind::MINUS => "MINUS",
            SyntaxKind::MINUTES => "MINUTES",
            SyntaxKind::MONTH => "MONTH",
            SyntaxKind::MOVE => "MOVE",
            SyntaxKind::Minus => "Minus",
            SyntaxKind::More => "More",
            SyntaxKind::MoreEquals => "MoreEquals",
            SyntaxKind::NAMED => "NAMED",
            SyntaxKind::NIL => "NIL",
            SyntaxKind::NOT => "NOT",
            SyntaxKind::NOW => "NOW",
            SyntaxKind::OBJECT => "OBJECT",
            SyntaxKind::OFFSET => "OFFSET",
            SyntaxKind::OPTIONAL => "OPTIONAL",
            SyntaxKind::ORDER => "ORDER",
            SyntaxKind::PNAME_LN => "PNAME_LN",
            SyntaxKind::PNAME_NS => "PNAME_NS",
            SyntaxKind::PREDICATE => "PREDICATE",
            SyntaxKind::PREFIX => "PREFIX",
            SyntaxKind::Pipe => "Pipe",
            SyntaxKind::PipeRCurly => "PipeRCurly",
            SyntaxKind::Plus => "Plus",
            SyntaxKind::QuestionMark => "QuestionMark",
            SyntaxKind::RAND => "RAND",
            SyntaxKind::RBrack => "RBrack",
            SyntaxKind::RCurly => "RCurly",
            SyntaxKind::REDUCED => "REDUCED",
            SyntaxKind::REGEX => "REGEX",
            SyntaxKind::REPLACE => "REPLACE",
            SyntaxKind::ROUND => "ROUND",
            SyntaxKind::RParen => "RParen",
            SyntaxKind::RParenDoubleMore => "RParenDoubleMore",
            SyntaxKind::SAMPLE => "SAMPLE",
            SyntaxKind::SECONDS => "SECONDS",
            SyntaxKind::SELECT => "SELECT",
            SyntaxKind::SEPARATOR => "SEPARATOR",
            SyntaxKind::SERVICE => "SERVICE",
            SyntaxKind::SHA1 => "SHA1",
            SyntaxKind::SHA256 => "SHA256",
            SyntaxKind::SHA384 => "SHA384",
            SyntaxKind::SHA512 => "SHA512",
            SyntaxKind::SILENT => "SILENT",
            SyntaxKind::STR => "STR",
            SyntaxKind::STRAFTER => "STRAFTER",
            SyntaxKind::STRBEFORE => "STRBEFORE",
            SyntaxKind::STRDT => "STRDT",
            SyntaxKind::STRENDS => "STRENDS",
            SyntaxKind::STRING_LITERAL1 => "STRING_LITERAL1",
            SyntaxKind::STRING_LITERAL2 => "STRING_LITERAL2",
            SyntaxKind::STRING_LITERAL_LONG1 => "STRING_LITERAL_LONG1",
            SyntaxKind::STRING_LITERAL_LONG2 => "STRING_LITERAL_LONG2",
            SyntaxKind::STRLANG => "STRLANG",
            SyntaxKind::STRLANGDIR => "STRLANGDIR",
            SyntaxKind::STRLEN => "STRLEN",
            SyntaxKind::STRSTARTS => "STRSTARTS",
            SyntaxKind::STRUUID => "STRUUID",
            SyntaxKind::SUBJECT => "SUBJECT",
            SyntaxKind::SUBSTR => "SUBSTR",
            SyntaxKind::SUM => "SUM",
            SyntaxKind::Semicolon => "Semicolon",
            SyntaxKind::Slash => "Slash",
            SyntaxKind::Star => "Star",
            SyntaxKind::TIMEZONE => "TIMEZONE",
            SyntaxKind::TO => "TO",
            SyntaxKind::TRIPLE => "TRIPLE",
            SyntaxKind::TZ => "TZ",
            SyntaxKind::Tilde => "Tilde",
            SyntaxKind::True => "True",
            SyntaxKind::UCASE => "UCASE",
            SyntaxKind::UNDEF => "UNDEF",
            SyntaxKind::UNION => "UNION",
            SyntaxKind::URI => "URI",
            SyntaxKind::USING => "USING",
            SyntaxKind::UUID => "UUID",
            SyntaxKind::VALUES => "VALUES",
            SyntaxKind::VAR1 => "VAR1",
            SyntaxKind::VAR2 => "VAR2",
            SyntaxKind::VERSION => "VERSION",
            SyntaxKind::WHERE => "WHERE",
            SyntaxKind::WITH => "WITH",
            SyntaxKind::YEAR => "YEAR",
            SyntaxKind::Zirkumflex => "Zirkumflex",
            SyntaxKind::a => "a",
            SyntaxKind::hasLANG => "hasLANG",
            SyntaxKind::hasLANGDIR => "hasLANGDIR",
            SyntaxKind::isBLANK => "isBLANK",
            SyntaxKind::isIRI => "isIRI",
            SyntaxKind::isLITERAL => "isLITERAL",
            SyntaxKind::isNUMERIC => "isNUMERIC",
            SyntaxKind::isTRIPLE => "isTRIPLE",
            SyntaxKind::isURI => "isURI",
            SyntaxKind::sameTerm => "sameTerm",
            SyntaxKind::QueryUnit => "QueryUnit",
            SyntaxKind::Query => "Query",
            SyntaxKind::Prologue => "Prologue",
            SyntaxKind::SelectQuery => "SelectQuery",
            SyntaxKind::ConstructQuery => "ConstructQuery",
            SyntaxKind::DescribeQuery => "DescribeQuery",
            SyntaxKind::AskQuery => "AskQuery",
            SyntaxKind::ValuesClause => "ValuesClause",
            SyntaxKind::UpdateUnit => "UpdateUnit",
            SyntaxKind::Update => "Update",
            SyntaxKind::BaseDecl => "BaseDecl",
            SyntaxKind::PrefixDecl => "PrefixDecl",
            SyntaxKind::VersionDecl => "VersionDecl",
            SyntaxKind::VersionSpecifier => "VersionSpecifier",
            SyntaxKind::SelectClause => "SelectClause",
            SyntaxKind::DatasetClause => "DatasetClause",
            SyntaxKind::WhereClause => "WhereClause",
            SyntaxKind::SolutionModifier => "SolutionModifier",
            SyntaxKind::SubSelect => "SubSelect",
            SyntaxKind::Var => "Var",
            SyntaxKind::Expression => "Expression",
            SyntaxKind::ConstructTemplate => "ConstructTemplate",
            SyntaxKind::TriplesTemplate => "TriplesTemplate",
            SyntaxKind::VarOrIri => "VarOrIri",
            SyntaxKind::DefaultGraphClause => "DefaultGraphClause",
            SyntaxKind::NamedGraphClause => "NamedGraphClause",
            SyntaxKind::SourceSelector => "SourceSelector",
            SyntaxKind::iri => "iri",
            SyntaxKind::GroupGraphPattern => "GroupGraphPattern",
            SyntaxKind::GroupClause => "GroupClause",
            SyntaxKind::HavingClause => "HavingClause",
            SyntaxKind::OrderClause => "OrderClause",
            SyntaxKind::LimitOffsetClauses => "LimitOffsetClauses",
            SyntaxKind::GroupCondition => "GroupCondition",
            SyntaxKind::BuiltInCall => "BuiltInCall",
            SyntaxKind::FunctionCall => "FunctionCall",
            SyntaxKind::HavingCondition => "HavingCondition",
            SyntaxKind::Constraint => "Constraint",
            SyntaxKind::OrderCondition => "OrderCondition",
            SyntaxKind::BrackettedExpression => "BrackettedExpression",
            SyntaxKind::LimitClause => "LimitClause",
            SyntaxKind::OffsetClause => "OffsetClause",
            SyntaxKind::DataBlock => "DataBlock",
            SyntaxKind::UpdateOne => "UpdateOne",
            SyntaxKind::Load => "Load",
            SyntaxKind::Clear => "Clear",
            SyntaxKind::Drop => "Drop",
            SyntaxKind::Add => "Add",
            SyntaxKind::Move => "Move",
            SyntaxKind::Copy => "Copy",
            SyntaxKind::Create => "Create",
            SyntaxKind::DeleteWhere => "DeleteWhere",
            SyntaxKind::Modify => "Modify",
            SyntaxKind::InsertData => "InsertData",
            SyntaxKind::DeleteData => "DeleteData",
            SyntaxKind::GraphRef => "GraphRef",
            SyntaxKind::GraphRefAll => "GraphRefAll",
            SyntaxKind::GraphOrDefault => "GraphOrDefault",
            SyntaxKind::QuadData => "QuadData",
            SyntaxKind::QuadPattern => "QuadPattern",
            SyntaxKind::DeleteClause => "DeleteClause",
            SyntaxKind::InsertClause => "InsertClause",
            SyntaxKind::UsingClause => "UsingClause",
            SyntaxKind::Quads => "Quads",
            SyntaxKind::QuadsNotTriples => "QuadsNotTriples",
            SyntaxKind::TriplesSameSubject => "TriplesSameSubject",
            SyntaxKind::GroupGraphPatternSub => "GroupGraphPatternSub",
            SyntaxKind::TriplesBlock => "TriplesBlock",
            SyntaxKind::GraphPatternNotTriples => "GraphPatternNotTriples",
            SyntaxKind::TriplesSameSubjectPath => "TriplesSameSubjectPath",
            SyntaxKind::ReifiedTripleBlock => "ReifiedTripleBlock",
            SyntaxKind::ReifiedTriple => "ReifiedTriple",
            SyntaxKind::PropertyList => "PropertyList",
            SyntaxKind::ReifiedTripleBlockPath => "ReifiedTripleBlockPath",
            SyntaxKind::PropertyListPath => "PropertyListPath",
            SyntaxKind::GroupOrUnionGraphPattern => "GroupOrUnionGraphPattern",
            SyntaxKind::OptionalGraphPattern => "OptionalGraphPattern",
            SyntaxKind::MinusGraphPattern => "MinusGraphPattern",
            SyntaxKind::GraphGraphPattern => "GraphGraphPattern",
            SyntaxKind::ServiceGraphPattern => "ServiceGraphPattern",
            SyntaxKind::Filter => "Filter",
            SyntaxKind::Bind => "Bind",
            SyntaxKind::InlineData => "InlineData",
            SyntaxKind::InlineDataOneVar => "InlineDataOneVar",
            SyntaxKind::InlineDataFull => "InlineDataFull",
            SyntaxKind::DataBlockValue => "DataBlockValue",
            SyntaxKind::RDFLiteral => "RDFLiteral",
            SyntaxKind::NumericLiteral => "NumericLiteral",
            SyntaxKind::BooleanLiteral => "BooleanLiteral",
            SyntaxKind::TripleTermData => "TripleTermData",
            SyntaxKind::Reifier => "Reifier",
            SyntaxKind::VarOrReifierId => "VarOrReifierId",
            SyntaxKind::BlankNode => "BlankNode",
            SyntaxKind::ArgList => "ArgList",
            SyntaxKind::ExpressionList => "ExpressionList",
            SyntaxKind::ConstructTriples => "ConstructTriples",
            SyntaxKind::VarOrTerm => "VarOrTerm",
            SyntaxKind::PropertyListNotEmpty => "PropertyListNotEmpty",
            SyntaxKind::TriplesNode => "TriplesNode",
            SyntaxKind::Verb => "Verb",
            SyntaxKind::ObjectList => "ObjectList",
            SyntaxKind::Object => "Object",
            SyntaxKind::GraphNode => "GraphNode",
            SyntaxKind::Annotation => "Annotation",
            SyntaxKind::PropertyListPathNotEmpty => "PropertyListPathNotEmpty",
            SyntaxKind::TriplesNodePath => "TriplesNodePath",
            SyntaxKind::VerbPath => "VerbPath",
            SyntaxKind::VerbSimple => "VerbSimple",
            SyntaxKind::ObjectListPath => "ObjectListPath",
            SyntaxKind::Path => "Path",
            SyntaxKind::ObjectPath => "ObjectPath",
            SyntaxKind::GraphNodePath => "GraphNodePath",
            SyntaxKind::AnnotationPath => "AnnotationPath",
            SyntaxKind::PathAlternative => "PathAlternative",
            SyntaxKind::PathSequence => "PathSequence",
            SyntaxKind::PathEltOrInverse => "PathEltOrInverse",
            SyntaxKind::PathElt => "PathElt",
            SyntaxKind::PathPrimary => "PathPrimary",
            SyntaxKind::PathMod => "PathMod",
            SyntaxKind::PathNegatedPropertySet => "PathNegatedPropertySet",
            SyntaxKind::PathOneInPropertySet => "PathOneInPropertySet",
            SyntaxKind::Collection => "Collection",
            SyntaxKind::BlankNodePropertyList => "BlankNodePropertyList",
            SyntaxKind::CollectionPath => "CollectionPath",
            SyntaxKind::BlankNodePropertyListPath => "BlankNodePropertyListPath",
            SyntaxKind::AnnotationBlockPath => "AnnotationBlockPath",
            SyntaxKind::AnnotationBlock => "AnnotationBlock",
            SyntaxKind::TripleTerm => "TripleTerm",
            SyntaxKind::ReifiedTripleSubject => "ReifiedTripleSubject",
            SyntaxKind::ReifiedTripleObject => "ReifiedTripleObject",
            SyntaxKind::TripleTermSubject => "TripleTermSubject",
            SyntaxKind::TripleTermObject => "TripleTermObject",
            SyntaxKind::TripleTermDataSubject => "TripleTermDataSubject",
            SyntaxKind::TripleTermDataObject => "TripleTermDataObject",
            SyntaxKind::ConditionalOrExpression => "ConditionalOrExpression",
            SyntaxKind::ConditionalAndExpression => "ConditionalAndExpression",
            SyntaxKind::ValueLogical => "ValueLogical",
            SyntaxKind::RelationalExpression => "RelationalExpression",
            SyntaxKind::NumericExpression => "NumericExpression",
            SyntaxKind::AdditiveExpression => "AdditiveExpression",
            SyntaxKind::MultiplicativeExpression => "MultiplicativeExpression",
            SyntaxKind::NumericLiteralPositive => "NumericLiteralPositive",
            SyntaxKind::NumericLiteralNegative => "NumericLiteralNegative",
            SyntaxKind::UnaryExpression => "UnaryExpression",
            SyntaxKind::PrimaryExpression => "PrimaryExpression",
            SyntaxKind::iriOrFunction => "iriOrFunction",
            SyntaxKind::ExprTripleTerm => "ExprTripleTerm",
            SyntaxKind::ExprTripleTermSubject => "ExprTripleTermSubject",
            SyntaxKind::ExprTripleTermObject => "ExprTripleTermObject",
            SyntaxKind::Aggregate => "Aggregate",
            SyntaxKind::SubstringExpression => "SubstringExpression",
            SyntaxKind::StrReplaceExpression => "StrReplaceExpression",
            SyntaxKind::RegexExpression => "RegexExpression",
            SyntaxKind::ExistsFunc => "ExistsFunc",
            SyntaxKind::NotExistsFunc => "NotExistsFunc",
            SyntaxKind::String => "String",
            SyntaxKind::NumericLiteralUnsigned => "NumericLiteralUnsigned",
            SyntaxKind::PrefixedName => "PrefixedName",
        }
    }
}

} // verus!
