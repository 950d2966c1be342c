//! Typed views of the nodes of a SPARQL syntax tree.
//!
//! Each type wraps a node of the kinds it stands for; `cast` checks the
//! kind. The accessors navigate the tree as stated over the tree's model in
//! [`crate::syntax_tree`].

use vstd::prelude::*;

use crate::syntax_kind::SyntaxKind;
use crate::syntax_tree::{
    child_matches, child_nodes, enclosing, first_child_element, first_child_matching,
    first_token_child, is_child, is_node, last_child_element, last_child_node,
    lemma_enclosing_starts, lemma_listed_all, lemma_lists_unique, lemma_well_formed_prefix,
    listed_upto, lists_children, lists_matching, lists_where, node_indices, node_kind, node_text,
    nodes_of_kind_within, Element, SyntaxNode, SyntaxToken,
};

verus! {

/// The position of an optional node.
pub open spec fn opt_pos<T: View<V = int>>(r: Option<T>) -> Option<int> {
    match r {
        Some(x) => Some(x@),
        None => None,
    }
}

/// The positions of nodes.
pub open spec fn positions<T: View<V = int>>(r: Seq<T>) -> Seq<usize> {
    Seq::new(r.len(), |k: int| r[k]@ as usize)
}

/// The first child node of the first child node of `i`, of the given kinds.
pub open spec fn first_in_first_child(es: Seq<Element>, i: int, kinds: Seq<SyntaxKind>) -> Option<int> {
    match first_child_matching(es, i, None) {
        Some(f) => first_child_matching(es, f, Some(kinds)),
        None => None,
    }
}

/// Whether a node of this kind is a [`QueryUnit`].
pub open spec fn is_query_unit_kind(k: SyntaxKind) -> bool {
    k == SyntaxKind::QueryUnit
}

/// A query: the root of a parsed query.
#[derive(Clone, Copy)]
pub struct QueryUnit<'a> {
    pub syntax: SyntaxNode<'a>,
}

impl<'a> View for QueryUnit<'a> {
    type V = int;

    open spec fn view(&self) -> int {
        self.syntax.index as int
    }
}

impl<'a> QueryUnit<'a> {
    pub open spec fn wf(&self) -> bool {
        self.syntax.wf() && is_query_unit_kind(node_kind(self.syntax.tree@, self@))
    }

    pub fn can_cast(kind: SyntaxKind) -> (r: bool)
        ensures
            r == is_query_unit_kind(kind),
    {
        kind == SyntaxKind::QueryUnit
    }

    pub fn cast(syntax: SyntaxNode<'a>) -> (r: Option<Self>)
        requires
            syntax.wf(),
        ensures
            r is Some <==> is_query_unit_kind(node_kind(syntax.tree@, syntax.index as int)),
            r matches Some(x) ==> x.syntax == syntax && x.wf(),
    {
        if Self::can_cast(syntax.kind()) {
            Some(Self { syntax })
        } else {
            None
        }
    }

    pub fn syntax(&self) -> (r: &SyntaxNode<'a>)
        ensures
            *r == self.syntax,
    {
        &self.syntax
    }

    /// The node's text.
    pub fn text(&self) -> (r: String)
        requires
            self.wf(),
        ensures
            r@ == node_text(self.syntax.tree@, self@),
    {
        self.syntax.text()
    }
}

/// Whether a node of this kind is a [`Prologue`].
pub open spec fn is_prologue_kind(k: SyntaxKind) -> bool {
    k == SyntaxKind::Prologue
}

/// The `BASE` and `PREFIX` declarations before a query.
#[derive(Clone, Copy)]
pub struct Prologue<'a> {
    pub syntax: SyntaxNode<'a>,
}

impl<'a> View for Prologue<'a> {
    type V = int;

    open spec fn view(&self) -> int {
        self.syntax.index as int
    }
}

impl<'a> Prologue<'a> {
    pub open spec fn wf(&self) -> bool {
        self.syntax.wf() && is_prologue_kind(node_kind(self.syntax.tree@, self@))
    }

    pub fn can_cast(kind: SyntaxKind) -> (r: bool)
        ensures
            r == is_prologue_kind(kind),
    {
        kind == SyntaxKind::Prologue
    }

    pub fn cast(syntax: SyntaxNode<'a>) -> (r: Option<Self>)
        requires
            syntax.wf(),
        ensures
            r is Some <==> is_prologue_kind(node_kind(syntax.tree@, syntax.index as int)),
            r matches Some(x) ==> x.syntax == syntax && x.wf(),
    {
        if Self::can_cast(syntax.kind()) {
            Some(Self { syntax })
        } else {
            None
        }
    }

    pub fn syntax(&self) -> (r: &SyntaxNode<'a>)
        ensures
            *r == self.syntax,
    {
        &self.syntax
    }

    /// The node's text.
    pub fn text(&self) -> (r: String)
        requires
            self.wf(),
        ensures
            r@ == node_text(self.syntax.tree@, self@),
    {
        self.syntax.text()
    }
}

/// Whether a node of this kind is a [`SolutionModifier`].
pub open spec fn is_solution_modifier_kind(k: SyntaxKind) -> bool {
    k == SyntaxKind::SolutionModifier
}

/// The modifiers after a `WHERE` clause.
#[derive(Clone, Copy)]
pub struct SolutionModifier<'a> {
    pub syntax: SyntaxNode<'a>,
}

impl<'a> View for SolutionModifier<'a> {
    type V = int;

    open spec fn view(&self) -> int {
        self.syntax.index as int
    }
}

impl<'a> SolutionModifier<'a> {
    pub open spec fn wf(&self) -> bool {
        self.syntax.wf() && is_solution_modifier_kind(node_kind(self.syntax.tree@, self@))
    }

    pub fn can_cast(kind: SyntaxKind) -> (r: bool)
        ensures
            r == is_solution_modifier_kind(kind),
    {
        kind == SyntaxKind::SolutionModifier
    }

    pub fn cast(syntax: SyntaxNode<'a>) -> (r: Option<Self>)
        requires
            syntax.wf(),
        ensures
            r is Some <==> is_solution_modifier_kind(node_kind(syntax.tree@, syntax.index as int)),
            r matches Some(x) ==> x.syntax == syntax && x.wf(),
    {
        if Self::can_cast(syntax.kind()) {
            Some(Self { syntax })
        } else {
            None
        }
    }

    pub fn syntax(&self) -> (r: &SyntaxNode<'a>)
        ensures
            *r == self.syntax,
    {
        &self.syntax
    }

    /// The node's text.
    pub fn text(&self) -> (r: String)
        requires
            self.wf(),
        ensures
            r@ == node_text(self.syntax.tree@, self@),
    {
        self.syntax.text()
    }
}

/// Whether a node of this kind is a [`PrefixDeclaration`].
pub open spec fn is_prefix_declaration_kind(k: SyntaxKind) -> bool {
    k == SyntaxKind::PrefixDecl
}

/// A `PREFIX` declaration.
#[derive(Clone, Copy)]
pub struct PrefixDeclaration<'a> {
    pub syntax: SyntaxNode<'a>,
}

impl<'a> View for PrefixDeclaration<'a> {
    type V = int;

    open spec fn view(&self) -> int {
        self.syntax.index as int
    }
}

impl<'a> PrefixDeclaration<'a> {
    pub open spec fn wf(&self) -> bool {
        self.syntax.wf() && is_prefix_declaration_kind(node_kind(self.syntax.tree@, self@))
    }

    pub fn can_cast(kind: SyntaxKind) -> (r: bool)
        ensures
            r == is_prefix_declaration_kind(kind),
    {
        kind == SyntaxKind::PrefixDecl
    }

    pub fn cast(syntax: SyntaxNode<'a>) -> (r: Option<Self>)
        requires
            syntax.wf(),
        ensures
            r is Some <==> is_prefix_declaration_kind(node_kind(syntax.tree@, syntax.index as int)),
            r matches Some(x) ==> x.syntax == syntax && x.wf(),
    {
        if Self::can_cast(syntax.kind()) {
            Some(Self { syntax })
        } else {
            None
        }
    }

    pub fn syntax(&self) -> (r: &SyntaxNode<'a>)
        ensures
            *r == self.syntax,
    {
        &self.syntax
    }

    /// The node's text.
    pub fn text(&self) -> (r: String)
        requires
            self.wf(),
        ensures
            r@ == node_text(self.syntax.tree@, self@),
    {
        self.syntax.text()
    }
}

/// Whether a node of this kind is a [`SelectQuery`].
pub open spec fn is_select_query_kind(k: SyntaxKind) -> bool {
    k == SyntaxKind::SelectQuery || k == SyntaxKind::SubSelect
}

/// A `SELECT` query or sub-select.
#[derive(Clone, Copy)]
pub struct SelectQuery<'a> {
    pub syntax: SyntaxNode<'a>,
}

impl<'a> View for SelectQuery<'a> {
    type V = int;

    open spec fn view(&self) -> int {
        self.syntax.index as int
    }
}

impl<'a> SelectQuery<'a> {
    pub open spec fn wf(&self) -> bool {
        self.syntax.wf() && is_select_query_kind(node_kind(self.syntax.tree@, self@))
    }

    pub fn can_cast(kind: SyntaxKind) -> (r: bool)
        ensures
            r == is_select_query_kind(kind),
    {
        matches!(kind, SyntaxKind::SelectQuery | SyntaxKind::SubSelect)
    }

    pub fn cast(syntax: SyntaxNode<'a>) -> (r: Option<Self>)
        requires
            syntax.wf(),
        ensures
            r is Some <==> is_select_query_kind(node_kind(syntax.tree@, syntax.index as int)),
            r matches Some(x) ==> x.syntax == syntax && x.wf(),
    {
        if Self::can_cast(syntax.kind()) {
            Some(Self { syntax })
        } else {
            None
        }
    }

    pub fn syntax(&self) -> (r: &SyntaxNode<'a>)
        ensures
            *r == self.syntax,
    {
        &self.syntax
    }

    /// The node's text.
    pub fn text(&self) -> (r: String)
        requires
            self.wf(),
        ensures
            r@ == node_text(self.syntax.tree@, self@),
    {
        self.syntax.text()
    }
}

/// Whether a node of this kind is a [`SelectClause`].
pub open spec fn is_select_clause_kind(k: SyntaxKind) -> bool {
    k == SyntaxKind::SelectClause
}

/// The `SELECT` clause with its projection.
#[derive(Clone, Copy)]
pub struct SelectClause<'a> {
    pub syntax: SyntaxNode<'a>,
}

impl<'a> View for SelectClause<'a> {
    type V = int;

    open spec fn view(&self) -> int {
        self.syntax.index as int
    }
}

impl<'a> SelectClause<'a> {
    pub open spec fn wf(&self) -> bool {
        self.syntax.wf() && is_select_clause_kind(node_kind(self.syntax.tree@, self@))
    }

    pub fn can_cast(kind: SyntaxKind) -> (r: bool)
        ensures
            r == is_select_clause_kind(kind),
    {
        kind == SyntaxKind::SelectClause
    }

    pub fn cast(syntax: SyntaxNode<'a>) -> (r: Option<Self>)
        requires
            syntax.wf(),
        ensures
            r is Some <==> is_select_clause_kind(node_kind(syntax.tree@, syntax.index as int)),
            r matches Some(x) ==> x.syntax == syntax && x.wf(),
    {
        if Self::can_cast(syntax.kind()) {
            Some(Self { syntax })
        } else {
            None
        }
    }

    pub fn syntax(&self) -> (r: &SyntaxNode<'a>)
        ensures
            *r == self.syntax,
    {
        &self.syntax
    }

    /// The node's text.
    pub fn text(&self) -> (r: String)
        requires
            self.wf(),
        ensures
            r@ == node_text(self.syntax.tree@, self@),
    {
        self.syntax.text()
    }
}

/// Whether a node of this kind is a [`GroupOrUnionGraphPattern`].
pub open spec fn is_group_or_union_graph_pattern_kind(k: SyntaxKind) -> bool {
    k == SyntaxKind::GroupOrUnionGraphPattern
}

/// Group graph patterns joined by `UNION`.
#[derive(Clone, Copy)]
pub struct GroupOrUnionGraphPattern<'a> {
    pub syntax: SyntaxNode<'a>,
}

impl<'a> View for GroupOrUnionGraphPattern<'a> {
    type V = int;

    open spec fn view(&self) -> int {
        self.syntax.index as int
    }
}

impl<'a> GroupOrUnionGraphPattern<'a> {
    pub open spec fn wf(&self) -> bool {
        self.syntax.wf() && is_group_or_union_graph_pattern_kind(node_kind(self.syntax.tree@, self@))
    }

    pub fn can_cast(kind: SyntaxKind) -> (r: bool)
        ensures
            r == is_group_or_union_graph_pattern_kind(kind),
    {
        kind == SyntaxKind::GroupOrUnionGraphPattern
    }

    pub fn cast(syntax: SyntaxNode<'a>) -> (r: Option<Self>)
        requires
            syntax.wf(),
        ensures
            r is Some <==> is_group_or_union_graph_pattern_kind(node_kind(syntax.tree@, syntax.index as int)),
            r matches Some(x) ==> x.syntax == syntax && x.wf(),
    {
        if Self::can_cast(syntax.kind()) {
            Some(Self { syntax })
        } else {
            None
        }
    }

    pub fn syntax(&self) -> (r: &SyntaxNode<'a>)
        ensures
            *r == self.syntax,
    {
        &self.syntax
    }

    /// The node's text.
    pub fn text(&self) -> (r: String)
        requires
            self.wf(),
        ensures
            r@ == node_text(self.syntax.tree@, self@),
    {
        self.syntax.text()
    }
}

/// Whether a node of this kind is a [`OptionalGraphPattern`].
pub open spec fn is_optional_graph_pattern_kind(k: SyntaxKind) -> bool {
    k == SyntaxKind::OptionalGraphPattern
}

/// An `OPTIONAL` pattern.
#[derive(Clone, Copy)]
pub struct OptionalGraphPattern<'a> {
    pub syntax: SyntaxNode<'a>,
}

impl<'a> View for OptionalGraphPattern<'a> {
    type V = int;

    open spec fn view(&self) -> int {
        self.syntax.index as int
    }
}

impl<'a> OptionalGraphPattern<'a> {
    pub open spec fn wf(&self) -> bool {
        self.syntax.wf() && is_optional_graph_pattern_kind(node_kind(self.syntax.tree@, self@))
    }

    pub fn can_cast(kind: SyntaxKind) -> (r: bool)
        ensures
            r == is_optional_graph_pattern_kind(kind),
    {
        kind == SyntaxKind::OptionalGraphPattern
    }

    pub fn cast(syntax: SyntaxNode<'a>) -> (r: Option<Self>)
        requires
            syntax.wf(),
        ensures
            r is Some <==> is_optional_graph_pattern_kind(node_kind(syntax.tree@, syntax.index as int)),
            r matches Some(x) ==> x.syntax == syntax && x.wf(),
    {
        if Self::can_cast(syntax.kind()) {
            Some(Self { syntax })
        } else {
            None
        }
    }

    pub fn syntax(&self) -> (r: &SyntaxNode<'a>)
        ensures
            *r == self.syntax,
    {
        &self.syntax
    }

    /// The node's text.
    pub fn text(&self) -> (r: String)
        requires
            self.wf(),
        ensures
            r@ == node_text(self.syntax.tree@, self@),
    {
        self.syntax.text()
    }
}

/// Whether a node of this kind is a [`MinusGraphPattern`].
pub open spec fn is_minus_graph_pattern_kind(k: SyntaxKind) -> bool {
    k == SyntaxKind::MinusGraphPattern
}

/// A `MINUS` pattern.
#[derive(Clone, Copy)]
pub struct MinusGraphPattern<'a> {
    pub syntax: SyntaxNode<'a>,
}

impl<'a> View for MinusGraphPattern<'a> {
    type V = int;

    open spec fn view(&self) -> int {
        self.syntax.index as int
    }
}

impl<'a> MinusGraphPattern<'a> {
    pub open spec fn wf(&self) -> bool {
        self.syntax.wf() && is_minus_graph_pattern_kind(node_kind(self.syntax.tree@, self@))
    }

    pub fn can_cast(kind: SyntaxKind) -> (r: bool)
        ensures
            r == is_minus_graph_pattern_kind(kind),
    {
        kind == SyntaxKind::MinusGraphPattern
    }

    pub fn cast(syntax: SyntaxNode<'a>) -> (r: Option<Self>)
        requires
            syntax.wf(),
        ensures
            r is Some <==> is_minus_graph_pattern_kind(node_kind(syntax.tree@, syntax.index as int)),
            r matches Some(x) ==> x.syntax == syntax && x.wf(),
    {
        if Self::can_cast(syntax.kind()) {
            Some(Self { syntax })
        } else {
            None
        }
    }

    pub fn syntax(&self) -> (r: &SyntaxNode<'a>)
        ensures
            *r == self.syntax,
    {
        &self.syntax
    }

    /// The node's text.
    pub fn text(&self) -> (r: String)
        requires
            self.wf(),
        ensures
            r@ == node_text(self.syntax.tree@, self@),
    {
        self.syntax.text()
    }
}

/// Whether a node of this kind is a [`GraphGraphPattern`].
pub open spec fn is_graph_graph_pattern_kind(k: SyntaxKind) -> bool {
    k == SyntaxKind::GraphGraphPattern
}

/// A `GRAPH` pattern.
#[derive(Clone, Copy)]
pub struct GraphGraphPattern<'a> {
    pub syntax: SyntaxNode<'a>,
}

impl<'a> View for GraphGraphPattern<'a> {
    type V = int;

    open spec fn view(&self) -> int {
        self.syntax.index as int
    }
}

impl<'a> GraphGraphPattern<'a> {
    pub open spec fn wf(&self) -> bool {
        self.syntax.wf() && is_graph_graph_pattern_kind(node_kind(self.syntax.tree@, self@))
    }

    pub fn can_cast(kind: SyntaxKind) -> (r: bool)
        ensures
            r == is_graph_graph_pattern_kind(kind),
    {
        kind == SyntaxKind::GraphGraphPattern
    }

    pub fn cast(syntax: SyntaxNode<'a>) -> (r: Option<Self>)
        requires
            syntax.wf(),
        ensures
            r is Some <==> is_graph_graph_pattern_kind(node_kind(syntax.tree@, syntax.index as int)),
            r matches Some(x) ==> x.syntax == syntax && x.wf(),
    {
        if Self::can_cast(syntax.kind()) {
            Some(Self { syntax })
        } else {
            None
        }
    }

    pub fn syntax(&self) -> (r: &SyntaxNode<'a>)
        ensures
            *r == self.syntax,
    {
        &self.syntax
    }

    /// The node's text.
    pub fn text(&self) -> (r: String)
        requires
            self.wf(),
        ensures
            r@ == node_text(self.syntax.tree@, self@),
    {
        self.syntax.text()
    }
}

/// Whether a node of this kind is a [`ServiceGraphPattern`].
pub open spec fn is_service_graph_pattern_kind(k: SyntaxKind) -> bool {
    k == SyntaxKind::ServiceGraphPattern
}

/// A `SERVICE` pattern.
#[derive(Clone, Copy)]
pub struct ServiceGraphPattern<'a> {
    pub syntax: SyntaxNode<'a>,
}

impl<'a> View for ServiceGraphPattern<'a> {
    type V = int;

    open spec fn view(&self) -> int {
        self.syntax.index as int
    }
}

impl<'a> ServiceGraphPattern<'a> {
    pub open spec fn wf(&self) -> bool {
        self.syntax.wf() && is_service_graph_pattern_kind(node_kind(self.syntax.tree@, self@))
    }

    pub fn can_cast(kind: SyntaxKind) -> (r: bool)
        ensures
            r == is_service_graph_pattern_kind(kind),
    {
        kind == SyntaxKind::ServiceGraphPattern
    }

    pub fn cast(syntax: SyntaxNode<'a>) -> (r: Option<Self>)
        requires
            syntax.wf(),
        ensures
            r is Some <==> is_service_graph_pattern_kind(node_kind(syntax.tree@, syntax.index as int)),
            r matches Some(x) ==> x.syntax == syntax && x.wf(),
    {
        if Self::can_cast(syntax.kind()) {
            Some(Self { syntax })
        } else {
            None
        }
    }

    pub fn syntax(&self) -> (r: &SyntaxNode<'a>)
        ensures
            *r == self.syntax,
    {
        &self.syntax
    }

    /// The node's text.
    pub fn text(&self) -> (r: String)
        requires
            self.wf(),
        ensures
            r@ == node_text(self.syntax.tree@, self@),
    {
        self.syntax.text()
    }
}

/// Whether a node of this kind is a [`Filter`].
pub open spec fn is_filter_kind(k: SyntaxKind) -> bool {
    k == SyntaxKind::Filter
}

/// A `FILTER`.
#[derive(Clone, Copy)]
pub struct Filter<'a> {
    pub syntax: SyntaxNode<'a>,
}

impl<'a> View for Filter<'a> {
    type V = int;

    open spec fn view(&self) -> int {
        self.syntax.index as int
    }
}

impl<'a> Filter<'a> {
    pub open spec fn wf(&self) -> bool {
        self.syntax.wf() && is_filter_kind(node_kind(self.syntax.tree@, self@))
    }

    pub fn can_cast(kind: SyntaxKind) -> (r: bool)
        ensures
            r == is_filter_kind(kind),
    {
        kind == SyntaxKind::Filter
    }

    pub fn cast(syntax: SyntaxNode<'a>) -> (r: Option<Self>)
        requires
            syntax.wf(),
        ensures
            r is Some <==> is_filter_kind(node_kind(syntax.tree@, syntax.index as int)),
            r matches Some(x) ==> x.syntax == syntax && x.wf(),
    {
        if Self::can_cast(syntax.kind()) {
            Some(Self { syntax })
        } else {
            None
        }
    }

    pub fn syntax(&self) -> (r: &SyntaxNode<'a>)
        ensures
            *r == self.syntax,
    {
        &self.syntax
    }

    /// The node's text.
    pub fn text(&self) -> (r: String)
        requires
            self.wf(),
        ensures
            r@ == node_text(self.syntax.tree@, self@),
    {
        self.syntax.text()
    }
}

/// Whether a node of this kind is a [`Bind`].
pub open spec fn is_bind_kind(k: SyntaxKind) -> bool {
    k == SyntaxKind::Bind
}

/// A `BIND`.
#[derive(Clone, Copy)]
pub struct Bind<'a> {
    pub syntax: SyntaxNode<'a>,
}

impl<'a> View for Bind<'a> {
    type V = int;

    open spec fn view(&self) -> int {
        self.syntax.index as int
    }
}

impl<'a> Bind<'a> {
    pub open spec fn wf(&self) -> bool {
        self.syntax.wf() && is_bind_kind(node_kind(self.syntax.tree@, self@))
    }

    pub fn can_cast(kind: SyntaxKind) -> (r: bool)
        ensures
            r == is_bind_kind(kind),
    {
        kind == SyntaxKind::Bind
    }

    pub fn cast(syntax: SyntaxNode<'a>) -> (r: Option<Self>)
        requires
            syntax.wf(),
        ensures
            r is Some <==> is_bind_kind(node_kind(syntax.tree@, syntax.index as int)),
            r matches Some(x) ==> x.syntax == syntax && x.wf(),
    {
        if Self::can_cast(syntax.kind()) {
            Some(Self { syntax })
        } else {
            None
        }
    }

    pub fn syntax(&self) -> (r: &SyntaxNode<'a>)
        ensures
            *r == self.syntax,
    {
        &self.syntax
    }

    /// The node's text.
    pub fn text(&self) -> (r: String)
        requires
            self.wf(),
        ensures
            r@ == node_text(self.syntax.tree@, self@),
    {
        self.syntax.text()
    }
}

/// Whether a node of this kind is a [`InlineData`].
pub open spec fn is_inline_data_kind(k: SyntaxKind) -> bool {
    k == SyntaxKind::InlineData
}

/// A `VALUES` block.
#[derive(Clone, Copy)]
pub struct InlineData<'a> {
    pub syntax: SyntaxNode<'a>,
}

impl<'a> View for InlineData<'a> {
    type V = int;

    open spec fn view(&self) -> int {
        self.syntax.index as int
    }
}

impl<'a> InlineData<'a> {
    pub open spec fn wf(&self) -> bool {
        self.syntax.wf() && is_inline_data_kind(node_kind(self.syntax.tree@, self@))
    }

    pub fn can_cast(kind: SyntaxKind) -> (r: bool)
        ensures
            r == is_inline_data_kind(kind),
    {
        kind == SyntaxKind::InlineData
    }

    pub fn cast(syntax: SyntaxNode<'a>) -> (r: Option<Self>)
        requires
            syntax.wf(),
        ensures
            r is Some <==> is_inline_data_kind(node_kind(syntax.tree@, syntax.index as int)),
            r matches Some(x) ==> x.syntax == syntax && x.wf(),
    {
        if Self::can_cast(syntax.kind()) {
            Some(Self { syntax })
        } else {
            None
        }
    }

    pub fn syntax(&self) -> (r: &SyntaxNode<'a>)
        ensures
            *r == self.syntax,
    {
        &self.syntax
    }

    /// The node's text.
    pub fn text(&self) -> (r: String)
        requires
            self.wf(),
        ensures
            r@ == node_text(self.syntax.tree@, self@),
    {
        self.syntax.text()
    }
}

/// Whether a node of this kind is a [`WhereClause`].
pub open spec fn is_where_clause_kind(k: SyntaxKind) -> bool {
    k == SyntaxKind::WhereClause
}

/// The `WHERE` clause.
#[derive(Clone, Copy)]
pub struct WhereClause<'a> {
    pub syntax: SyntaxNode<'a>,
}

impl<'a> View for WhereClause<'a> {
    type V = int;

    open spec fn view(&self) -> int {
        self.syntax.index as int
    }
}

impl<'a> WhereClause<'a> {
    pub open spec fn wf(&self) -> bool {
        self.syntax.wf() && is_where_clause_kind(node_kind(self.syntax.tree@, self@))
    }

    pub fn can_cast(kind: SyntaxKind) -> (r: bool)
        ensures
            r == is_where_clause_kind(kind),
    {
        kind == SyntaxKind::WhereClause
    }

    pub fn cast(syntax: SyntaxNode<'a>) -> (r: Option<Self>)
        requires
            syntax.wf(),
        ensures
            r is Some <==> is_where_clause_kind(node_kind(syntax.tree@, syntax.index as int)),
            r matches Some(x) ==> x.syntax == syntax && x.wf(),
    {
        if Self::can_cast(syntax.kind()) {
            Some(Self { syntax })
        } else {
            None
        }
    }

    pub fn syntax(&self) -> (r: &SyntaxNode<'a>)
        ensures
            *r == self.syntax,
    {
        &self.syntax
    }

    /// The node's text.
    pub fn text(&self) -> (r: String)
        requires
            self.wf(),
        ensures
            r@ == node_text(self.syntax.tree@, self@),
    {
        self.syntax.text()
    }
}

/// Whether a node of this kind is a [`GroupGraphPattern`].
pub open spec fn is_group_graph_pattern_kind(k: SyntaxKind) -> bool {
    k == SyntaxKind::GroupGraphPattern
}

/// A group graph pattern in braces.
#[derive(Clone, Copy)]
pub struct GroupGraphPattern<'a> {
    pub syntax: SyntaxNode<'a>,
}

impl<'a> View for GroupGraphPattern<'a> {
    type V = int;

    open spec fn view(&self) -> int {
        self.syntax.index as int
    }
}

impl<'a> GroupGraphPattern<'a> {
    pub open spec fn wf(&self) -> bool {
        self.syntax.wf() && is_group_graph_pattern_kind(node_kind(self.syntax.tree@, self@))
    }

    pub fn can_cast(kind: SyntaxKind) -> (r: bool)
        ensures
            r == is_group_graph_pattern_kind(kind),
    {
        kind == SyntaxKind::GroupGraphPattern
    }

    pub fn cast(syntax: SyntaxNode<'a>) -> (r: Option<Self>)
        requires
            syntax.wf(),
        ensures
            r is Some <==> is_group_graph_pattern_kind(node_kind(syntax.tree@, syntax.index as int)),
            r matches Some(x) ==> x.syntax == syntax && x.wf(),
    {
        if Self::can_cast(syntax.kind()) {
            Some(Self { syntax })
        } else {
            None
        }
    }

    pub fn syntax(&self) -> (r: &SyntaxNode<'a>)
        ensures
            *r == self.syntax,
    {
        &self.syntax
    }

    /// The node's text.
    pub fn text(&self) -> (r: String)
        requires
            self.wf(),
        ensures
            r@ == node_text(self.syntax.tree@, self@),
    {
        self.syntax.text()
    }
}

/// Whether a node of this kind is a [`TriplesBlock`].
pub open spec fn is_triples_block_kind(k: SyntaxKind) -> bool {
    k == SyntaxKind::TriplesBlock
}

/// Triples separated by dots.
#[derive(Clone, Copy)]
pub struct TriplesBlock<'a> {
    pub syntax: SyntaxNode<'a>,
}

impl<'a> View for TriplesBlock<'a> {
    type V = int;

    open spec fn view(&self) -> int {
        self.syntax.index as int
    }
}

impl<'a> TriplesBlock<'a> {
    pub open spec fn wf(&self) -> bool {
        self.syntax.wf() && is_triples_block_kind(node_kind(self.syntax.tree@, self@))
    }

    pub fn can_cast(kind: SyntaxKind) -> (r: bool)
        ensures
            r == is_triples_block_kind(kind),
    {
        kind == SyntaxKind::TriplesBlock
    }

    pub fn cast(syntax: SyntaxNode<'a>) -> (r: Option<Self>)
        requires
            syntax.wf(),
        ensures
            r is Some <==> is_triples_block_kind(node_kind(syntax.tree@, syntax.index as int)),
            r matches Some(x) ==> x.syntax == syntax && x.wf(),
    {
        if Self::can_cast(syntax.kind()) {
            Some(Self { syntax })
        } else {
            None
        }
    }

    pub fn syntax(&self) -> (r: &SyntaxNode<'a>)
        ensures
            *r == self.syntax,
    {
        &self.syntax
    }

    /// The node's text.
    pub fn text(&self) -> (r: String)
        requires
            self.wf(),
        ensures
            r@ == node_text(self.syntax.tree@, self@),
    {
        self.syntax.text()
    }
}

/// Whether a node of this kind is a [`Subject`].
pub open spec fn is_subject_kind(k: SyntaxKind) -> bool {
    k == SyntaxKind::VarOrTerm || k == SyntaxKind::TriplesNodePath
}

/// The subject of a triple.
#[derive(Clone, Copy)]
pub struct Subject<'a> {
    pub syntax: SyntaxNode<'a>,
}

impl<'a> View for Subject<'a> {
    type V = int;

    open spec fn view(&self) -> int {
        self.syntax.index as int
    }
}

impl<'a> Subject<'a> {
    pub open spec fn wf(&self) -> bool {
        self.syntax.wf() && is_subject_kind(node_kind(self.syntax.tree@, self@))
    }

    pub fn can_cast(kind: SyntaxKind) -> (r: bool)
        ensures
            r == is_subject_kind(kind),
    {
        matches!(kind, SyntaxKind::VarOrTerm | SyntaxKind::TriplesNodePath)
    }

    pub fn cast(syntax: SyntaxNode<'a>) -> (r: Option<Self>)
        requires
            syntax.wf(),
        ensures
            r is Some <==> is_subject_kind(node_kind(syntax.tree@, syntax.index as int)),
            r matches Some(x) ==> x.syntax == syntax && x.wf(),
    {
        if Self::can_cast(syntax.kind()) {
            Some(Self { syntax })
        } else {
            None
        }
    }

    pub fn syntax(&self) -> (r: &SyntaxNode<'a>)
        ensures
            *r == self.syntax,
    {
        &self.syntax
    }

    /// The node's text.
    pub fn text(&self) -> (r: String)
        requires
            self.wf(),
        ensures
            r@ == node_text(self.syntax.tree@, self@),
    {
        self.syntax.text()
    }
}

/// Whether a node of this kind is a [`Triple`].
pub open spec fn is_triple_kind(k: SyntaxKind) -> bool {
    k == SyntaxKind::TriplesSameSubjectPath
}

/// Triples that share a subject.
#[derive(Clone, Copy)]
pub struct Triple<'a> {
    pub syntax: SyntaxNode<'a>,
}

impl<'a> View for Triple<'a> {
    type V = int;

    open spec fn view(&self) -> int {
        self.syntax.index as int
    }
}

impl<'a> Triple<'a> {
    pub open spec fn wf(&self) -> bool {
        self.syntax.wf() && is_triple_kind(node_kind(self.syntax.tree@, self@))
    }

    pub fn can_cast(kind: SyntaxKind) -> (r: bool)
        ensures
            r == is_triple_kind(kind),
    {
        kind == SyntaxKind::TriplesSameSubjectPath
    }

    pub fn cast(syntax: SyntaxNode<'a>) -> (r: Option<Self>)
        requires
            syntax.wf(),
        ensures
            r is Some <==> is_triple_kind(node_kind(syntax.tree@, syntax.index as int)),
            r matches Some(x) ==> x.syntax == syntax && x.wf(),
    {
        if Self::can_cast(syntax.kind()) {
            Some(Self { syntax })
        } else {
            None
        }
    }

    pub fn syntax(&self) -> (r: &SyntaxNode<'a>)
        ensures
            *r == self.syntax,
    {
        &self.syntax
    }

    /// The node's text.
    pub fn text(&self) -> (r: String)
        requires
            self.wf(),
        ensures
            r@ == node_text(self.syntax.tree@, self@),
    {
        self.syntax.text()
    }
}

/// Whether a node of this kind is a [`Path`].
pub open spec fn is_path_kind(k: SyntaxKind) -> bool {
    k == SyntaxKind::Path || k == SyntaxKind::VerbPath || k == SyntaxKind::PathAlternative || k == SyntaxKind::PathSequence || k == SyntaxKind::PathElt || k == SyntaxKind::PathEltOrInverse || k == SyntaxKind::PathPrimary || k == SyntaxKind::PathNegatedPropertySet || k == SyntaxKind::PathOneInPropertySet
}

/// A property path.
#[derive(Clone, Copy)]
pub struct Path<'a> {
    pub syntax: SyntaxNode<'a>,
}

impl<'a> View for Path<'a> {
    type V = int;

    open spec fn view(&self) -> int {
        self.syntax.index as int
    }
}

impl<'a> Path<'a> {
    pub open spec fn wf(&self) -> bool {
        self.syntax.wf() && is_path_kind(node_kind(self.syntax.tree@, self@))
    }

    pub fn can_cast(kind: SyntaxKind) -> (r: bool)
        ensures
            r == is_path_kind(kind),
    {
        matches!(kind, SyntaxKind::Path | SyntaxKind::VerbPath | SyntaxKind::PathAlternative | SyntaxKind::PathSequence | SyntaxKind::PathElt | SyntaxKind::PathEltOrInverse | SyntaxKind::PathPrimary | SyntaxKind::PathNegatedPropertySet | SyntaxKind::PathOneInPropertySet)
    }

    pub fn cast(syntax: SyntaxNode<'a>) -> (r: Option<Self>)
        requires
            syntax.wf(),
        ensures
            r is Some <==> is_path_kind(node_kind(syntax.tree@, syntax.index as int)),
            r matches Some(x) ==> x.syntax == syntax && x.wf(),
    {
        if Self::can_cast(syntax.kind()) {
            Some(Self { syntax })
        } else {
            None
        }
    }

    pub fn syntax(&self) -> (r: &SyntaxNode<'a>)
        ensures
            *r == self.syntax,
    {
        &self.syntax
    }

    /// The node's text.
    pub fn text(&self) -> (r: String)
        requires
            self.wf(),
        ensures
            r@ == node_text(self.syntax.tree@, self@),
    {
        self.syntax.text()
    }
}

/// Whether a node of this kind is a [`ObjectList`].
pub open spec fn is_object_list_kind(k: SyntaxKind) -> bool {
    k == SyntaxKind::ObjectListPath || k == SyntaxKind::ObjectList
}

/// The objects of a property.
#[derive(Clone, Copy)]
pub struct ObjectList<'a> {
    pub syntax: SyntaxNode<'a>,
}

impl<'a> View for ObjectList<'a> {
    type V = int;

    open spec fn view(&self) -> int {
        self.syntax.index as int
    }
}

impl<'a> ObjectList<'a> {
    pub open spec fn wf(&self) -> bool {
        self.syntax.wf() && is_object_list_kind(node_kind(self.syntax.tree@, self@))
    }

    pub fn can_cast(kind: SyntaxKind) -> (r: bool)
        ensures
            r == is_object_list_kind(kind),
    {
        matches!(kind, SyntaxKind::ObjectListPath | SyntaxKind::ObjectList)
    }

    pub fn cast(syntax: SyntaxNode<'a>) -> (r: Option<Self>)
        requires
            syntax.wf(),
        ensures
            r is Some <==> is_object_list_kind(node_kind(syntax.tree@, syntax.index as int)),
            r matches Some(x) ==> x.syntax == syntax && x.wf(),
    {
        if Self::can_cast(syntax.kind()) {
            Some(Self { syntax })
        } else {
            None
        }
    }

    pub fn syntax(&self) -> (r: &SyntaxNode<'a>)
        ensures
            *r == self.syntax,
    {
        &self.syntax
    }

    /// The node's text.
    pub fn text(&self) -> (r: String)
        requires
            self.wf(),
        ensures
            r@ == node_text(self.syntax.tree@, self@),
    {
        self.syntax.text()
    }
}

/// Whether a node of this kind is a [`BlankPropertyList`].
pub open spec fn is_blank_property_list_kind(k: SyntaxKind) -> bool {
    k == SyntaxKind::BlankNodePropertyListPath || k == SyntaxKind::BlankNodePropertyList || k == SyntaxKind::BlankNode
}

/// A blank node, possibly with properties.
#[derive(Clone, Copy)]
pub struct BlankPropertyList<'a> {
    pub syntax: SyntaxNode<'a>,
}

impl<'a> View for BlankPropertyList<'a> {
    type V = int;

    open spec fn view(&self) -> int {
        self.syntax.index as int
    }
}

impl<'a> BlankPropertyList<'a> {
    pub open spec fn wf(&self) -> bool {
        self.syntax.wf() && is_blank_property_list_kind(node_kind(self.syntax.tree@, self@))
    }

    pub fn can_cast(kind: SyntaxKind) -> (r: bool)
        ensures
            r == is_blank_property_list_kind(kind),
    {
        matches!(kind, SyntaxKind::BlankNodePropertyListPath | SyntaxKind::BlankNodePropertyList | SyntaxKind::BlankNode)
    }

    pub fn cast(syntax: SyntaxNode<'a>) -> (r: Option<Self>)
        requires
            syntax.wf(),
        ensures
            r is Some <==> is_blank_property_list_kind(node_kind(syntax.tree@, syntax.index as int)),
            r matches Some(x) ==> x.syntax == syntax && x.wf(),
    {
        if Self::can_cast(syntax.kind()) {
            Some(Self { syntax })
        } else {
            None
        }
    }

    pub fn syntax(&self) -> (r: &SyntaxNode<'a>)
        ensures
            *r == self.syntax,
    {
        &self.syntax
    }

    /// The node's text.
    pub fn text(&self) -> (r: String)
        requires
            self.wf(),
        ensures
            r@ == node_text(self.syntax.tree@, self@),
    {
        self.syntax.text()
    }
}

/// Whether a node of this kind is a [`PropertyListPath`].
pub open spec fn is_property_list_path_kind(k: SyntaxKind) -> bool {
    k == SyntaxKind::PropertyListPath || k == SyntaxKind::PropertyListPathNotEmpty
}

/// The properties of a subject.
#[derive(Clone, Copy)]
pub struct PropertyListPath<'a> {
    pub syntax: SyntaxNode<'a>,
}

impl<'a> View for PropertyListPath<'a> {
    type V = int;

    open spec fn view(&self) -> int {
        self.syntax.index as int
    }
}

impl<'a> PropertyListPath<'a> {
    pub open spec fn wf(&self) -> bool {
        self.syntax.wf() && is_property_list_path_kind(node_kind(self.syntax.tree@, self@))
    }

    pub fn can_cast(kind: SyntaxKind) -> (r: bool)
        ensures
            r == is_property_list_path_kind(kind),
    {
        matches!(kind, SyntaxKind::PropertyListPath | SyntaxKind::PropertyListPathNotEmpty)
    }

    pub fn cast(syntax: SyntaxNode<'a>) -> (r: Option<Self>)
        requires
            syntax.wf(),
        ensures
            r is Some <==> is_property_list_path_kind(node_kind(syntax.tree@, syntax.index as int)),
            r matches Some(x) ==> x.syntax == syntax && x.wf(),
    {
        if Self::can_cast(syntax.kind()) {
            Some(Self { syntax })
        } else {
            None
        }
    }

    pub fn syntax(&self) -> (r: &SyntaxNode<'a>)
        ensures
            *r == self.syntax,
    {
        &self.syntax
    }

    /// The node's text.
    pub fn text(&self) -> (r: String)
        requires
            self.wf(),
        ensures
            r@ == node_text(self.syntax.tree@, self@),
    {
        self.syntax.text()
    }
}

/// Whether a node of this kind is a [`Iri`].
pub open spec fn is_iri_kind(k: SyntaxKind) -> bool {
    k == SyntaxKind::iri
}

/// An IRI, written out or prefixed.
#[derive(Clone, Copy)]
pub struct Iri<'a> {
    pub syntax: SyntaxNode<'a>,
}

impl<'a> View for Iri<'a> {
    type V = int;

    open spec fn view(&self) -> int {
        self.syntax.index as int
    }
}

impl<'a> Iri<'a> {
    pub open spec fn wf(&self) -> bool {
        self.syntax.wf() && is_iri_kind(node_kind(self.syntax.tree@, self@))
    }

    pub fn can_cast(kind: SyntaxKind) -> (r: bool)
        ensures
            r == is_iri_kind(kind),
    {
        kind == SyntaxKind::iri
    }

    pub fn cast(syntax: SyntaxNode<'a>) -> (r: Option<Self>)
        requires
            syntax.wf(),
        ensures
            r is Some <==> is_iri_kind(node_kind(syntax.tree@, syntax.index as int)),
            r matches Some(x) ==> x.syntax == syntax && x.wf(),
    {
        if Self::can_cast(syntax.kind()) {
            Some(Self { syntax })
        } else {
            None
        }
    }

    pub fn syntax(&self) -> (r: &SyntaxNode<'a>)
        ensures
            *r == self.syntax,
    {
        &self.syntax
    }

    /// The node's text.
    pub fn text(&self) -> (r: String)
        requires
            self.wf(),
        ensures
            r@ == node_text(self.syntax.tree@, self@),
    {
        self.syntax.text()
    }
}

/// Whether a node of this kind is a [`PrefixedName`].
pub open spec fn is_prefixed_name_kind(k: SyntaxKind) -> bool {
    k == SyntaxKind::PrefixedName
}

/// A prefixed name.
#[derive(Clone, Copy)]
pub struct PrefixedName<'a> {
    pub syntax: SyntaxNode<'a>,
}

impl<'a> View for PrefixedName<'a> {
    type V = int;

    open spec fn view(&self) -> int {
        self.syntax.index as int
    }
}

impl<'a> PrefixedName<'a> {
    pub open spec fn wf(&self) -> bool {
        self.syntax.wf() && is_prefixed_name_kind(node_kind(self.syntax.tree@, self@))
    }

    pub fn can_cast(kind: SyntaxKind) -> (r: bool)
        ensures
            r == is_prefixed_name_kind(kind),
    {
        kind == SyntaxKind::PrefixedName
    }

    pub fn cast(syntax: SyntaxNode<'a>) -> (r: Option<Self>)
        requires
            syntax.wf(),
        ensures
            r is Some <==> is_prefixed_name_kind(node_kind(syntax.tree@, syntax.index as int)),
            r matches Some(x) ==> x.syntax == syntax && x.wf(),
    {
        if Self::can_cast(syntax.kind()) {
            Some(Self { syntax })
        } else {
            None
        }
    }

    pub fn syntax(&self) -> (r: &SyntaxNode<'a>)
        ensures
            *r == self.syntax,
    {
        &self.syntax
    }

    /// The node's text.
    pub fn text(&self) -> (r: String)
        requires
            self.wf(),
        ensures
            r@ == node_text(self.syntax.tree@, self@),
    {
        self.syntax.text()
    }
}

/// Whether a node of this kind is a [`VarOrTerm`].
pub open spec fn is_var_or_term_kind(k: SyntaxKind) -> bool {
    k == SyntaxKind::VarOrTerm
}

/// A variable or an RDF term.
#[derive(Clone, Copy)]
pub struct VarOrTerm<'a> {
    pub syntax: SyntaxNode<'a>,
}

impl<'a> View for VarOrTerm<'a> {
    type V = int;

    open spec fn view(&self) -> int {
        self.syntax.index as int
    }
}

impl<'a> VarOrTerm<'a> {
    pub open spec fn wf(&self) -> bool {
        self.syntax.wf() && is_var_or_term_kind(node_kind(self.syntax.tree@, self@))
    }

    pub fn can_cast(kind: SyntaxKind) -> (r: bool)
        ensures
            r == is_var_or_term_kind(kind),
    {
        kind == SyntaxKind::VarOrTerm
    }

    pub fn cast(syntax: SyntaxNode<'a>) -> (r: Option<Self>)
        requires
            syntax.wf(),
        ensures
            r is Some <==> is_var_or_term_kind(node_kind(syntax.tree@, syntax.index as int)),
            r matches Some(x) ==> x.syntax == syntax && x.wf(),
    {
        if Self::can_cast(syntax.kind()) {
            Some(Self { syntax })
        } else {
            None
        }
    }

    pub fn syntax(&self) -> (r: &SyntaxNode<'a>)
        ensures
            *r == self.syntax,
    {
        &self.syntax
    }

    /// The node's text.
    pub fn text(&self) -> (r: String)
        requires
            self.wf(),
        ensures
            r@ == node_text(self.syntax.tree@, self@),
    {
        self.syntax.text()
    }
}

/// Whether a node of this kind is a [`Var`].
pub open spec fn is_var_kind(k: SyntaxKind) -> bool {
    k == SyntaxKind::Var
}

/// A variable.
#[derive(Clone, Copy)]
pub struct Var<'a> {
    pub syntax: SyntaxNode<'a>,
}

impl<'a> View for Var<'a> {
    type V = int;

    open spec fn view(&self) -> int {
        self.syntax.index as int
    }
}

impl<'a> Var<'a> {
    pub open spec fn wf(&self) -> bool {
        self.syntax.wf() && is_var_kind(node_kind(self.syntax.tree@, self@))
    }

    pub fn can_cast(kind: SyntaxKind) -> (r: bool)
        ensures
            r == is_var_kind(kind),
    {
        kind == SyntaxKind::Var
    }

    pub fn cast(syntax: SyntaxNode<'a>) -> (r: Option<Self>)
        requires
            syntax.wf(),
        ensures
            r is Some <==> is_var_kind(node_kind(syntax.tree@, syntax.index as int)),
            r matches Some(x) ==> x.syntax == syntax && x.wf(),
    {
        if Self::can_cast(syntax.kind()) {
            Some(Self { syntax })
        } else {
            None
        }
    }

    pub fn syntax(&self) -> (r: &SyntaxNode<'a>)
        ensures
            *r == self.syntax,
    {
        &self.syntax
    }

    /// The node's text.
    pub fn text(&self) -> (r: String)
        requires
            self.wf(),
        ensures
            r@ == node_text(self.syntax.tree@, self@),
    {
        self.syntax.text()
    }
}

/// Whether a node of this kind is a [`Triples`].
pub open spec fn is_triples_kind(k: SyntaxKind) -> bool {
    k == SyntaxKind::TriplesSameSubjectPath
}

/// Triples that share a subject, seen from their subject.
#[derive(Clone, Copy)]
pub struct Triples<'a> {
    pub syntax: SyntaxNode<'a>,
}

impl<'a> View for Triples<'a> {
    type V = int;

    open spec fn view(&self) -> int {
        self.syntax.index as int
    }
}

impl<'a> Triples<'a> {
    pub open spec fn wf(&self) -> bool {
        self.syntax.wf() && is_triples_kind(node_kind(self.syntax.tree@, self@))
    }

    pub fn can_cast(kind: SyntaxKind) -> (r: bool)
        ensures
            r == is_triples_kind(kind),
    {
        kind == SyntaxKind::TriplesSameSubjectPath
    }

    pub fn cast(syntax: SyntaxNode<'a>) -> (r: Option<Self>)
        requires
            syntax.wf(),
        ensures
            r is Some <==> is_triples_kind(node_kind(syntax.tree@, syntax.index as int)),
            r matches Some(x) ==> x.syntax == syntax && x.wf(),
    {
        if Self::can_cast(syntax.kind()) {
            Some(Self { syntax })
        } else {
            None
        }
    }

    pub fn syntax(&self) -> (r: &SyntaxNode<'a>)
        ensures
            *r == self.syntax,
    {
        &self.syntax
    }

    /// The node's text.
    pub fn text(&self) -> (r: String)
        requires
            self.wf(),
        ensures
            r@ == node_text(self.syntax.tree@, self@),
    {
        self.syntax.text()
    }
}

/// The node at `o`, if it has a kind that `ok` accepts.
pub open spec fn kind_filtered(es: Seq<Element>, o: Option<int>, ok: spec_fn(SyntaxKind) -> bool) -> Option<int> {
    match o {
        Some(c) => if ok(node_kind(es, c)) {
            Some(c)
        } else {
            None
        },
        None => None,
    }
}

/// The element at `o`, if it is a token of the kind.
pub open spec fn token_filtered(es: Seq<Element>, o: Option<int>, kind: SyntaxKind) -> Option<int> {
    match o {
        Some(c) => if es[c] matches Element::Token(t, _) && t.kind == kind {
            Some(c)
        } else {
            None
        },
        None => None,
    }
}

/// The node right above node `i`.
pub open spec fn parent_pos(es: Seq<Element>, i: int) -> Option<int> {
    if i > 0 {
        Some(enclosing(es, i).last())
    } else {
        None
    }
}

/// The text of a token element.
pub open spec fn token_text(es: Seq<Element>, c: int) -> Seq<char> {
    match es[c] {
        Element::Token(t, _) => t.text@,
        _ => Seq::empty(),
    }
}

/// The text before the first `:`, all of it when there is none.
pub open spec fn before_colon(s: Seq<char>) -> Seq<char>
    decreases s.len(),
{
    if s.len() == 0 || s[0] == ':' {
        Seq::empty()
    } else {
        seq![s[0]] + before_colon(s.drop_first())
    }
}

/// The text after the first `:`, empty when there is none.
pub open spec fn after_colon(s: Seq<char>) -> Seq<char>
    decreases s.len(),
{
    if s.len() == 0 {
        Seq::empty()
    } else if s[0] == ':' {
        s.drop_first()
    } else {
        after_colon(s.drop_first())
    }
}

proof fn lemma_colon_split(s: Seq<char>, i: int)
    requires
        0 <= i <= s.len(),
        forall|j: int| 0 <= j < i ==> s[j] != ':',
    ensures
        before_colon(s) == s.take(i) + before_colon(s.skip(i)),
        after_colon(s) == after_colon(s.skip(i)),
    decreases i,
{
    if i == 0 {
        assert(s.skip(0) =~= s);
        assert(s.take(0) + before_colon(s) =~= before_colon(s));
    } else {
        lemma_colon_split(s.drop_first(), i - 1);
        assert(s.drop_first().skip(i - 1) =~= s.skip(i));
        assert(seq![s[0]] + s.drop_first().take(i - 1) =~= s.take(i));
        assert(seq![s[0]] + (s.drop_first().take(i - 1) + before_colon(s.skip(i))) =~= s.take(i) + before_colon(
            s.skip(i),
        ));
    }
}

/// The characters `from..to` of a text.
fn substring(s: &str, from: usize, to: usize) -> (r: String)
    requires
        from <= to <= s@.len(),
    ensures
        r@ == s@.subrange(from as int, to as int),
{
    let cs = crate::lexer::chars_of(s);
    let mut r = String::new();
    let mut k: usize = from;
    while k < to
        invariant
            cs@ == s@,
            from <= k <= to <= cs@.len(),
            r@ == s@.subrange(from as int, k as int),
        decreases to - k,
    {
        crate::lexer::push_char(&mut r, cs[k]);
        proof {
            assert(s@.subrange(from as int, k + 1) =~= s@.subrange(from as int, k as int).push(s@[k as int]));
        }
        k = k + 1;
    }
    r
}

/// Splits a text at its first `:` into the part before and the part after;
/// without a `:` the text is all before.
fn split_colon(s: &str) -> (r: (String, String))
    ensures
        r.0@ == before_colon(s@),
        r.1@ == after_colon(s@),
{
    let cs = crate::lexer::chars_of(s);
    let mut k: usize = 0;
    while k < cs.len() && cs[k] != ':'
        invariant
            cs@ == s@,
            k <= cs@.len(),
            forall|j: int| 0 <= j < k ==> s@[j] != ':',
        decreases cs.len() - k,
    {
        k = k + 1;
    }
    proof {
        lemma_colon_split(s@, k as int);
        assert(s@.take(k as int) =~= s@.subrange(0, k as int));
        if k < cs.len() {
            assert(s@.skip(k as int)[0] == ':');
            assert(s@.skip(k as int).drop_first() =~= s@.subrange(k + 1, s@.len() as int));
            assert(before_colon(s@.skip(k as int)) == Seq::<char>::empty());
        } else {
            assert(s@.skip(k as int).len() == 0);
            assert(s@.subrange(k as int, s@.len() as int).len() == 0);
        }
    }
    if k < cs.len() {
        let before = substring(s, 0, k);
        let after = substring(s, k + 1, cs.len());
        proof {
            assert(s@.take(k as int) + Seq::<char>::empty() =~= s@.subrange(0, k as int));
        }
        (before, after)
    } else {
        let before = substring(s, 0, k);
        proof {
            assert(s@.take(k as int) + Seq::<char>::empty() =~= s@.subrange(0, k as int));
        }
        (before, String::new())
    }
}

impl<'a> QueryUnit<'a> {
    /// The `SELECT` query of the query, if it is one.
    pub fn select_query(&self) -> (r: Option<SelectQuery<'a>>)
        requires
            self.wf(),
        ensures
            opt_pos(r) == first_in_first_child(
                self.syntax.tree@,
                self@,
                seq![SyntaxKind::SelectQuery, SyntaxKind::SubSelect],
            ),
            r matches Some(x) ==> x.wf() && x.syntax.tree == self.syntax.tree,
            r matches Some(x) ==> self@ < x@,
    {
        let kinds = [SyntaxKind::SelectQuery, SyntaxKind::SubSelect];
        assert(kinds@ == seq![SyntaxKind::SelectQuery, SyntaxKind::SubSelect]);
        match self.syntax.first_child() {
            Some(query) => match query.first_child_by_kind(&kinds) {
                Some(n) => Some(SelectQuery { syntax: n }),
                None => None,
            },
            None => None,
        }
    }

    /// The prologue of the query.
    pub fn prologue(&self) -> (r: Option<Prologue<'a>>)
        requires
            self.wf(),
        ensures
            opt_pos(r) == first_in_first_child(self.syntax.tree@, self@, seq![SyntaxKind::Prologue]),
            r matches Some(x) ==> x.wf() && x.syntax.tree == self.syntax.tree,
            r matches Some(x) ==> self@ < x@,
    {
        let kinds = [SyntaxKind::Prologue];
        assert(kinds@ == seq![SyntaxKind::Prologue]);
        match self.syntax.first_child() {
            Some(query) => match query.first_child_by_kind(&kinds) {
                Some(n) => Some(Prologue { syntax: n }),
                None => None,
            },
            None => None,
        }
    }
}

impl<'a> Prologue<'a> {
    /// The prefix declarations, in order.
    pub fn prefix_declarations(&self) -> (r: Vec<PrefixDeclaration<'a>>)
        requires
            self.wf(),
        ensures
            lists_matching(self.syntax.tree@, self@, positions(r@), seq![SyntaxKind::PrefixDecl]),
            forall|k: int| 0 <= k < r@.len() ==> (#[trigger] r@[k]).wf() && r@[k].syntax.tree == self.syntax.tree,
    {
        let kinds = [SyntaxKind::PrefixDecl];
        assert(kinds@ == seq![SyntaxKind::PrefixDecl]);
        let ns = self.syntax.children_of_kinds(&kinds);
        let mut r: Vec<PrefixDeclaration<'a>> = Vec::new();
        let mut k: usize = 0;
        while k < ns.len()
            invariant
                k <= ns@.len(),
                r@.len() == k,
                forall|j: int| 0 <= j < k ==> (#[trigger] r@[j]).syntax == ns@[j],
                forall|j: int|
                    0 <= j < ns@.len() ==> (#[trigger] ns@[j]).tree == self.syntax.tree && ns@[j].wf()
                        && kinds@.contains(node_kind(ns@[j].tree@, ns@[j].index as int)),
            decreases ns.len() - k,
        {
            r.push(PrefixDeclaration { syntax: ns[k] });
            k = k + 1;
        }
        proof {
            assert(positions(r@) =~= node_indices(ns@));
        }
        r
    }
}

impl<'a> PrefixDeclaration<'a> {
    /// The declared prefix: the text of the `PNAME_NS` token before its `:`.
    /// That token holds a `:`, as every lexed one does.
    pub fn prefix(&self) -> (r: Option<String>)
        requires
            self.wf(),
            first_token_child(self.syntax.tree@, self@, SyntaxKind::PNAME_NS) matches Some(c)
                ==> token_text(self.syntax.tree@, c).contains(':'),
        ensures
            match first_token_child(self.syntax.tree@, self@, SyntaxKind::PNAME_NS) {
                Some(c) => r matches Some(s) && s@ == before_colon(token_text(self.syntax.tree@, c)),
                None => r is None,
            },
    {
        match self.syntax.first_token_of_kind(SyntaxKind::PNAME_NS) {
            Some(t) => {
                let text = t.text();
                let (before, _) = split_colon(text.as_str());
                Some(before)
            },
            None => None,
        }
    }

    /// The IRI the prefix stands for, with its angle brackets.
    pub fn uri_prefix(&self) -> (r: Option<String>)
        requires
            self.wf(),
        ensures
            match first_token_child(self.syntax.tree@, self@, SyntaxKind::IRIREF) {
                Some(c) => r matches Some(s) && s@ == token_text(self.syntax.tree@, c),
                None => r is None,
            },
    {
        match self.syntax.first_token_of_kind(SyntaxKind::IRIREF) {
            Some(t) => Some(t.text()),
            None => None,
        }
    }
}

impl<'a> SelectQuery<'a> {
    /// The `WHERE` clause.
    pub fn where_clause(&self) -> (r: Option<WhereClause<'a>>)
        requires
            self.wf(),
        ensures
            opt_pos(r) == first_child_matching(self.syntax.tree@, self@, Some(seq![SyntaxKind::WhereClause])),
            r matches Some(x) ==> x.wf() && x.syntax.tree == self.syntax.tree,
            r matches Some(x) ==> self@ < x@,
    {
        let kinds = [SyntaxKind::WhereClause];
        assert(kinds@ == seq![SyntaxKind::WhereClause]);
        match self.syntax.first_child_by_kind(&kinds) {
            Some(n) => Some(WhereClause { syntax: n }),
            None => None,
        }
    }

    /// The `SELECT` clause.
    pub fn select_clause(&self) -> (r: Option<SelectClause<'a>>)
        requires
            self.wf(),
        ensures
            opt_pos(r) == first_child_matching(self.syntax.tree@, self@, Some(seq![SyntaxKind::SelectClause])),
            r matches Some(x) ==> x.wf() && x.syntax.tree == self.syntax.tree,
            r matches Some(x) ==> self@ < x@,
    {
        let kinds = [SyntaxKind::SelectClause];
        assert(kinds@ == seq![SyntaxKind::SelectClause]);
        match self.syntax.first_child_by_kind(&kinds) {
            Some(n) => Some(SelectClause { syntax: n }),
            None => None,
        }
    }

    /// The solution modifier: the last child node, if it is one.
    pub fn soulution_modifier(&self) -> (r: Option<SolutionModifier<'a>>)
        requires
            self.wf(),
        ensures
            opt_pos(r) == kind_filtered(
                self.syntax.tree@,
                last_child_node(self.syntax.tree@, self@),
                |k: SyntaxKind| is_solution_modifier_kind(k),
            ),
            r matches Some(x) ==> x.wf() && x.syntax.tree == self.syntax.tree,
    {
        match self.syntax.last_child() {
            Some(n) => SolutionModifier::cast(n),
            None => None,
        }
    }
}

impl<'a> SelectClause<'a> {
    /// The projected variables, in order.
    pub fn variables(&self) -> (r: Vec<Var<'a>>)
        requires
            self.wf(),
        ensures
            lists_matching(self.syntax.tree@, self@, positions(r@), seq![SyntaxKind::Var]),
            forall|k: int| 0 <= k < r@.len() ==> (#[trigger] r@[k]).wf() && r@[k].syntax.tree == self.syntax.tree,
    {
        let kinds = [SyntaxKind::Var];
        assert(kinds@ == seq![SyntaxKind::Var]);
        let ns = self.syntax.children_of_kinds(&kinds);
        let mut r: Vec<Var<'a>> = Vec::new();
        let mut k: usize = 0;
        while k < ns.len()
            invariant
                k <= ns@.len(),
                r@.len() == k,
                forall|j: int| 0 <= j < k ==> (#[trigger] r@[j]).syntax == ns@[j],
                forall|j: int|
                    0 <= j < ns@.len() ==> (#[trigger] ns@[j]).tree == self.syntax.tree && ns@[j].wf()
                        && kinds@.contains(node_kind(ns@[j].tree@, ns@[j].index as int)),
            decreases ns.len() - k,
        {
            r.push(Var { syntax: ns[k] });
            k = k + 1;
        }
        proof {
            assert(positions(r@) =~= node_indices(ns@));
        }
        r
    }

    /// The query the clause belongs to: the parent, if it is one.
    pub fn select_query(&self) -> (r: Option<SelectQuery<'a>>)
        requires
            self.wf(),
        ensures
            opt_pos(r) == kind_filtered(
                self.syntax.tree@,
                parent_pos(self.syntax.tree@, self@),
                |k: SyntaxKind| is_select_query_kind(k),
            ),
            r matches Some(x) ==> x.wf() && x.syntax.tree == self.syntax.tree,
            r matches Some(x) ==> x@ < self@,
    {
        match self.syntax.parent() {
            Some(n) => SelectQuery::cast(n),
            None => None,
        }
    }
}

impl<'a> WhereClause<'a> {
    /// The group graph pattern: the first child node, if it is one.
    pub fn group_graph_pattern(&self) -> (r: Option<GroupGraphPattern<'a>>)
        requires
            self.wf(),
        ensures
            opt_pos(r) == kind_filtered(
                self.syntax.tree@,
                first_child_matching(self.syntax.tree@, self@, None),
                |k: SyntaxKind| is_group_graph_pattern_kind(k),
            ),
            r matches Some(x) ==> x.wf() && x.syntax.tree == self.syntax.tree,
            r matches Some(x) ==> self@ < x@,
    {
        match self.syntax.first_child() {
            Some(n) => GroupGraphPattern::cast(n),
            None => None,
        }
    }

    /// The `WHERE` keyword: the first child, if it is that token.
    pub fn where_token(&self) -> (r: Option<SyntaxToken<'a>>)
        requires
            self.wf(),
        ensures
            node_pos_of_token(r) == token_filtered(
                self.syntax.tree@,
                first_child_element(self.syntax.tree@, self@),
                SyntaxKind::WHERE,
            ),
            r matches Some(t) ==> t.wf() && t.tree == self.syntax.tree,
    {
        first_token_if(self.syntax, self.syntax.first_child_element(), SyntaxKind::WHERE)
    }
}

/// The position of an optional token.
pub open spec fn node_pos_of_token(r: Option<SyntaxToken>) -> Option<int> {
    match r {
        Some(t) => Some(t.index as int),
        None => None,
    }
}

/// The child at `c` of `node`, if it is a token of the kind.
fn first_token_if<'a>(node: SyntaxNode<'a>, c: Option<usize>, kind: SyntaxKind) -> (r: Option<SyntaxToken<'a>>)
    requires
        node.wf(),
        c matches Some(i) ==> is_child(node.tree@, node.index as int, i as int),
    ensures
        node_pos_of_token(r) == token_filtered(
            node.tree@,
            match c {
                Some(i) => Some(i as int),
                None => None,
            },
            kind,
        ),
        r matches Some(t) ==> t.wf() && t.tree == node.tree,
{
    match c {
        Some(i) => match &node.tree.elements[i] {
            Element::Token(t, _) => if t.kind == kind {
                Some(SyntaxToken { tree: node.tree, index: i })
            } else {
                None
            },
            _ => None,
        },
        None => None,
    }
}

impl<'a> GroupGraphPattern<'a> {
    /// The triples blocks directly inside the pattern, in order.
    pub fn triple_blocks(&self) -> (r: Vec<TriplesBlock<'a>>)
        requires
            self.wf(),
        ensures
            match first_child_matching(self.syntax.tree@, self@, Some(seq![SyntaxKind::GroupGraphPatternSub])) {
                Some(g) => lists_matching(self.syntax.tree@, g, positions(r@), seq![SyntaxKind::TriplesBlock]),
                None => r@.len() == 0,
            },
            forall|k: int| 0 <= k < r@.len() ==> (#[trigger] r@[k]).wf() && r@[k].syntax.tree == self.syntax.tree,
    {
        let sub_kinds = [SyntaxKind::GroupGraphPatternSub];
        assert(sub_kinds@ == seq![SyntaxKind::GroupGraphPatternSub]);
        let kinds = [SyntaxKind::TriplesBlock];
        assert(kinds@ == seq![SyntaxKind::TriplesBlock]);
        let mut r: Vec<TriplesBlock<'a>> = Vec::new();
        match self.syntax.first_child_by_kind(&sub_kinds) {
            Some(sub) => {
                let ns = sub.children_of_kinds(&kinds);
                let mut k: usize = 0;
                while k < ns.len()
                    invariant
                        k <= ns@.len(),
                        r@.len() == k,
                        forall|j: int| 0 <= j < k ==> (#[trigger] r@[j]).syntax == ns@[j],
                        forall|j: int|
                            0 <= j < ns@.len() ==> (#[trigger] ns@[j]).tree == self.syntax.tree && ns@[j].wf()
                                && kinds@.contains(node_kind(ns@[j].tree@, ns@[j].index as int)),
                    decreases ns.len() - k,
                {
                    r.push(TriplesBlock { syntax: ns[k] });
                    k = k + 1;
                }
                proof {
                    assert(positions(r@) =~= node_indices(ns@));
                }
                r
            },
            None => r,
        }
    }

    /// The sub-select: the first child node, if it is a query.
    pub fn sub_select(&self) -> (r: Option<SelectQuery<'a>>)
        requires
            self.wf(),
        ensures
            opt_pos(r) == kind_filtered(
                self.syntax.tree@,
                first_child_matching(self.syntax.tree@, self@, None),
                |k: SyntaxKind| is_select_query_kind(k),
            ),
            r matches Some(x) ==> x.wf() && x.syntax.tree == self.syntax.tree,
            r matches Some(x) ==> self@ < x@,
    {
        match self.syntax.first_child() {
            Some(n) => SelectQuery::cast(n),
            None => None,
        }
    }

    /// The opening brace: the first child, if it is that token.
    pub fn l_paren_token(&self) -> (r: Option<SyntaxToken<'a>>)
        requires
            self.wf(),
        ensures
            node_pos_of_token(r) == token_filtered(
                self.syntax.tree@,
                first_child_element(self.syntax.tree@, self@),
                SyntaxKind::LCurly,
            ),
            r matches Some(t) ==> t.wf() && t.tree == self.syntax.tree,
    {
        first_token_if(self.syntax, self.syntax.first_child_element(), SyntaxKind::LCurly)
    }

    /// The closing brace: the last child, if it is that token.
    pub fn r_paren_token(&self) -> (r: Option<SyntaxToken<'a>>)
        requires
            self.wf(),
        ensures
            node_pos_of_token(r) == token_filtered(
                self.syntax.tree@,
                last_child_element(self.syntax.tree@, self@),
                SyntaxKind::RCurly,
            ),
            r matches Some(t) ==> t.wf() && t.tree == self.syntax.tree,
    {
        first_token_if(self.syntax, self.syntax.last_child_element(), SyntaxKind::RCurly)
    }
}

impl<'a> TriplesBlock<'a> {
    /// The group graph pattern the block stands in: the node two levels up,
    /// if it is one.
    pub fn group_graph_pattern(&self) -> (r: Option<GroupGraphPattern<'a>>)
        requires
            self.wf(),
        ensures
            opt_pos(r) == kind_filtered(
                self.syntax.tree@,
                grandparent_pos(self.syntax.tree@, self@),
                |k: SyntaxKind| is_group_graph_pattern_kind(k),
            ),
            r matches Some(x) ==> x.wf() && x.syntax.tree == self.syntax.tree,
    {
        match self.syntax.parent() {
            Some(p) => match p.parent() {
                Some(g) => GroupGraphPattern::cast(g),
                None => None,
            },
            None => None,
        }
    }
}

/// A text without its first character.
pub open spec fn without_first(s: Seq<char>) -> Seq<char> {
    if s.len() == 0 {
        s
    } else {
        s.drop_first()
    }
}

/// The node two levels above node `i`.
pub open spec fn grandparent_pos(es: Seq<Element>, i: int) -> Option<int> {
    match parent_pos(es, i) {
        Some(p) => parent_pos(es, p),
        None => None,
    }
}

impl<'a> Triple<'a> {
    /// The subject: the first child node, if it is one.
    pub fn subject(&self) -> (r: Option<Subject<'a>>)
        requires
            self.wf(),
        ensures
            opt_pos(r) == kind_filtered(
                self.syntax.tree@,
                first_child_matching(self.syntax.tree@, self@, None),
                |k: SyntaxKind| is_subject_kind(k),
            ),
            r matches Some(x) ==> x.wf() && x.syntax.tree == self.syntax.tree,
    {
        match self.syntax.first_child() {
            Some(n) => Subject::cast(n),
            None => None,
        }
    }

    /// The properties: the second child node, if it is a property list.
    pub fn properties_list_path(&self) -> (r: Option<PropertyListPath<'a>>)
        requires
            self.wf(),
        ensures
            forall|cs: Seq<usize>|
                lists_children(self.syntax.tree@, self@, cs, true) ==> opt_pos(r) == (if cs.len() >= 2
                    && is_property_list_path_kind(node_kind(self.syntax.tree@, cs[1] as int)) {
                    Some(cs[1] as int)
                } else {
                    None
                }),
            r matches Some(x) ==> x.wf() && x.syntax.tree == self.syntax.tree,
    {
        let children = self.syntax.children();
        proof {
            assert forall|cs: Seq<usize>| lists_children(self.syntax.tree@, self@, cs, true) implies cs == node_indices(
                children@,
            ) by {
                lemma_listing_unique(self.syntax.tree@, self@, cs, node_indices(children@));
            }
        }
        if children.len() >= 2 {
            PropertyListPath::cast(children[1])
        } else {
            None
        }
    }
}

/// Two listings of the children of a node are the same.
pub proof fn lemma_listing_unique(es: Seq<Element>, i: int, a: Seq<usize>, b: Seq<usize>)
    requires
        lists_children(es, i, a, true),
        lists_children(es, i, b, true),
    ensures
        a == b,
{
    if a.len() > 0 {
        lemma_listing_prefix(es, i, a, b, a.len() - 1);
        assert(a[a.len() - 1] == b[a.len() - 1]);
    }
    if b.len() > 0 {
        lemma_listing_prefix(es, i, b, a, b.len() - 1);
        assert(b[b.len() - 1] == a[b.len() - 1]);
    }
    assert(a.len() == b.len());
    assert forall|t: int| 0 <= t < a.len() implies a[t] == b[t] by {
        assert(a[t] == b[t]);
    }
    assert(a =~= b);
}

/// Sorted listings of the same set agree on their first `k + 1` entries.
proof fn lemma_listing_prefix(es: Seq<Element>, i: int, a: Seq<usize>, b: Seq<usize>, k: int)
    requires
        lists_children(es, i, a, true),
        lists_children(es, i, b, true),
        0 <= k < a.len(),
    ensures
        forall|t: int| 0 <= t <= k ==> t < b.len() && #[trigger] a[t] == b[t],
    decreases k,
{
    if k > 0 {
        lemma_listing_prefix(es, i, a, b, k - 1);
    }
    assert(is_child(es, i, a[k] as int));
    let j = choose|j: int| 0 <= j < b.len() && b[j] == a[k];
    if j < k {
        assert(a[j] == b[j]);
        assert(a[j] < a[k]);
    } else if j > k {
        assert(is_child(es, i, b[k] as int));
        let q = choose|q: int| 0 <= q < a.len() && a[q] == b[k];
        assert(b[k] < b[j]);
        if q < k {
            assert(a[q] == b[q]);
            assert(b[q] < b[k]);
        } else if q > k {
            assert(a[k] < a[q]);
        }
    }
}

impl<'a> Var<'a> {
    /// The name of the variable: its text without the `?` or `$`. The text
    /// starts with a one-byte character, as every lexed variable does.
    pub fn var_name(&self) -> (r: String)
        requires
            self.wf(),
            node_text(self.syntax.tree@, self@).len() > 0,
            (node_text(self.syntax.tree@, self@)[0] as u32) < 128,
        ensures
            r@ == without_first(node_text(self.syntax.tree@, self@)),
    {
        let text = self.syntax.text();
        let cs = crate::lexer::chars_of(text.as_str());
        if cs.len() == 0 {
            return String::new();
        }
        let r = substring(text.as_str(), 1, cs.len());
        proof {
            assert(text@.subrange(1, text@.len() as int) =~= without_first(text@));
        }
        r
    }
}

impl<'a> VarOrTerm<'a> {
    /// The variable: the first child node, if it is one.
    pub fn var(&self) -> (r: Option<Var<'a>>)
        requires
            self.wf(),
        ensures
            opt_pos(r) == kind_filtered(
                self.syntax.tree@,
                first_child_matching(self.syntax.tree@, self@, None),
                |k: SyntaxKind| is_var_kind(k),
            ),
            r matches Some(x) ==> x.wf() && x.syntax.tree == self.syntax.tree,
    {
        match self.syntax.first_child() {
            Some(n) => Var::cast(n),
            None => None,
        }
    }

    /// Whether the first child node is a variable.
    pub fn is_var(&self) -> (r: bool)
        requires
            self.wf(),
        ensures
            r == (first_child_matching(self.syntax.tree@, self@, None) matches Some(c) && node_kind(
                self.syntax.tree@,
                c,
            ) == SyntaxKind::Var),
    {
        match self.syntax.first_child() {
            Some(n) => n.kind() == SyntaxKind::Var,
            None => false,
        }
    }

    /// Whether the first child node is no variable.
    pub fn is_term(&self) -> (r: bool)
        requires
            self.wf(),
        ensures
            r == !(first_child_matching(self.syntax.tree@, self@, None) matches Some(c) && node_kind(
                self.syntax.tree@,
                c,
            ) == SyntaxKind::Var),
    {
        !self.is_var()
    }
}

impl<'a> Iri<'a> {
    /// The prefixed name: the first child node, if it is one.
    pub fn prefixed_name(&self) -> (r: Option<PrefixedName<'a>>)
        requires
            self.wf(),
        ensures
            opt_pos(r) == kind_filtered(
                self.syntax.tree@,
                first_child_matching(self.syntax.tree@, self@, None),
                |k: SyntaxKind| is_prefixed_name_kind(k),
            ),
            r matches Some(x) ==> x.wf() && x.syntax.tree == self.syntax.tree,
    {
        match self.syntax.first_child() {
            Some(n) => PrefixedName::cast(n),
            None => None,
        }
    }

    /// The IRI of an `IRIREF` without its angle brackets; `None` for a
    /// prefixed name.
    pub fn raw_iri(&self) -> (r: Option<String>)
        requires
            self.wf(),
        ensures
            ({
                let es = self.syntax.tree@;
                let text = node_text(es, self@);
                if token_filtered(es, first_child_element(es, self@), SyntaxKind::IRIREF) is Some && text.len()
                    >= 2 {
                    r matches Some(s) && s@ == text.subrange(1, text.len() - 1)
                } else {
                    r is None
                }
            }),
    {
        let first = first_token_if(self.syntax, self.syntax.first_child_element(), SyntaxKind::IRIREF);
        let text = self.syntax.text();
        let cs = crate::lexer::chars_of(text.as_str());
        if first.is_some() && cs.len() >= 2 {
            Some(substring(text.as_str(), 1, cs.len() - 1))
        } else {
            None
        }
    }

    /// Whether the first child node is an `IRIREF`.
    pub fn is_uncompressed(&self) -> (r: bool)
        requires
            self.wf(),
        ensures
            r == (first_child_matching(self.syntax.tree@, self@, None) matches Some(c) && node_kind(
                self.syntax.tree@,
                c,
            ) == SyntaxKind::IRIREF),
    {
        match self.syntax.first_child() {
            Some(n) => n.kind() == SyntaxKind::IRIREF,
            None => false,
        }
    }
}

impl<'a> PrefixedName<'a> {
    /// The prefix: the text before the first `:`, which the name holds.
    pub fn prefix(&self) -> (r: String)
        requires
            self.wf(),
            node_text(self.syntax.tree@, self@).contains(':'),
        ensures
            r@ == before_colon(node_text(self.syntax.tree@, self@)),
    {
        let text = self.syntax.text();
        let (before, _) = split_colon(text.as_str());
        before
    }

    /// The local name: the text after the first `:`, which the name holds.
    pub fn name(&self) -> (r: String)
        requires
            self.wf(),
            node_text(self.syntax.tree@, self@).contains(':'),
        ensures
            r@ == after_colon(node_text(self.syntax.tree@, self@)),
    {
        let text = self.syntax.text();
        let (_, after) = split_colon(text.as_str());
        after
    }
}

impl<'a> ServiceGraphPattern<'a> {
    /// The pattern: the last child node, if it is a group graph pattern.
    pub fn group_graph_pattern(&self) -> (r: Option<GroupGraphPattern<'a>>)
        requires
            self.wf(),
        ensures
            opt_pos(r) == kind_filtered(
                self.syntax.tree@,
                last_child_node(self.syntax.tree@, self@),
                |k: SyntaxKind| is_group_graph_pattern_kind(k),
            ),
            r matches Some(x) ==> x.wf() && x.syntax.tree == self.syntax.tree,
            r matches Some(x) ==> self@ < x@,
    {
        match self.syntax.last_child() {
            Some(n) => GroupGraphPattern::cast(n),
            None => None,
        }
    }

    /// The service IRI: inside the first `VarOrIri` child, its first child
    /// node if that is an IRI.
    pub fn iri(&self) -> (r: Option<Iri<'a>>)
        requires
            self.wf(),
        ensures
            opt_pos(r) == match first_child_matching(self.syntax.tree@, self@, Some(seq![SyntaxKind::VarOrIri])) {
                Some(v) => kind_filtered(
                    self.syntax.tree@,
                    first_child_matching(self.syntax.tree@, v, None),
                    |k: SyntaxKind| is_iri_kind(k),
                ),
                None => None,
            },
            r matches Some(x) ==> x.wf() && x.syntax.tree == self.syntax.tree,
    {
        let kinds = [SyntaxKind::VarOrIri];
        assert(kinds@ == seq![SyntaxKind::VarOrIri]);
        match self.syntax.first_child_by_kind(&kinds) {
            Some(v) => match v.first_child() {
                Some(n) => Iri::cast(n),
                None => None,
            },
            None => None,
        }
    }
}

impl<'a> OptionalGraphPattern<'a> {
    /// The pattern: the last child node, if it is a group graph pattern.
    pub fn group_graph_pattern(&self) -> (r: Option<GroupGraphPattern<'a>>)
        requires
            self.wf(),
        ensures
            opt_pos(r) == kind_filtered(
                self.syntax.tree@,
                last_child_node(self.syntax.tree@, self@),
                |k: SyntaxKind| is_group_graph_pattern_kind(k),
            ),
            r matches Some(x) ==> x.wf() && x.syntax.tree == self.syntax.tree,
            r matches Some(x) ==> self@ < x@,
    {
        match self.syntax.last_child() {
            Some(n) => GroupGraphPattern::cast(n),
            None => None,
        }
    }
}

impl<'a> MinusGraphPattern<'a> {
    /// The pattern: the last child node, if it is a group graph pattern.
    pub fn group_graph_pattern(&self) -> (r: Option<GroupGraphPattern<'a>>)
        requires
            self.wf(),
        ensures
            opt_pos(r) == kind_filtered(
                self.syntax.tree@,
                last_child_node(self.syntax.tree@, self@),
                |k: SyntaxKind| is_group_graph_pattern_kind(k),
            ),
            r matches Some(x) ==> x.wf() && x.syntax.tree == self.syntax.tree,
            r matches Some(x) ==> self@ < x@,
    {
        match self.syntax.last_child() {
            Some(n) => GroupGraphPattern::cast(n),
            None => None,
        }
    }
}

impl<'a> GraphGraphPattern<'a> {
    /// The pattern: the last child node, if it is a group graph pattern.
    pub fn group_graph_pattern(&self) -> (r: Option<GroupGraphPattern<'a>>)
        requires
            self.wf(),
        ensures
            opt_pos(r) == kind_filtered(
                self.syntax.tree@,
                last_child_node(self.syntax.tree@, self@),
                |k: SyntaxKind| is_group_graph_pattern_kind(k),
            ),
            r matches Some(x) ==> x.wf() && x.syntax.tree == self.syntax.tree,
            r matches Some(x) ==> self@ < x@,
    {
        match self.syntax.last_child() {
            Some(n) => GroupGraphPattern::cast(n),
            None => None,
        }
    }
}

impl<'a> GroupOrUnionGraphPattern<'a> {
    /// The group graph patterns joined, in order.
    pub fn group_graph_patterns(&self) -> (r: Vec<GroupGraphPattern<'a>>)
        requires
            self.wf(),
        ensures
            lists_matching(self.syntax.tree@, self@, positions(r@), seq![SyntaxKind::GroupGraphPattern]),
            forall|k: int| 0 <= k < r@.len() ==> (#[trigger] r@[k]).wf() && r@[k].syntax.tree == self.syntax.tree,
    {
        let kinds = [SyntaxKind::GroupGraphPattern];
        assert(kinds@ == seq![SyntaxKind::GroupGraphPattern]);
        let ns = self.syntax.children_of_kinds(&kinds);
        let mut r: Vec<GroupGraphPattern<'a>> = Vec::new();
        let mut k: usize = 0;
        while k < ns.len()
            invariant
                k <= ns@.len(),
                r@.len() == k,
                forall|j: int| 0 <= j < k ==> (#[trigger] r@[j]).syntax == ns@[j],
                forall|j: int|
                    0 <= j < ns@.len() ==> (#[trigger] ns@[j]).tree == self.syntax.tree && ns@[j].wf()
                        && kinds@.contains(node_kind(ns@[j].tree@, ns@[j].index as int)),
            decreases ns.len() - k,
        {
            r.push(GroupGraphPattern { syntax: ns[k] });
            k = k + 1;
        }
        proof {
            assert(positions(r@) =~= node_indices(ns@));
        }
        r
    }
}

impl<'a> BlankPropertyList<'a> {
    /// The properties of a bracketed blank node: its first child node, if
    /// that is a property list; `None` for a plain blank node.
    pub fn property_list(&self) -> (r: Option<PropertyListPath<'a>>)
        requires
            self.wf(),
        ensures
            opt_pos(r) == (if node_kind(self.syntax.tree@, self@) == SyntaxKind::BlankNode {
                None
            } else {
                kind_filtered(
                    self.syntax.tree@,
                    first_child_matching(self.syntax.tree@, self@, None),
                    |k: SyntaxKind| is_property_list_path_kind(k),
                )
            }),
            r matches Some(x) ==> x.wf() && x.syntax.tree == self.syntax.tree,
    {
        match self.syntax.kind() {
            SyntaxKind::BlankNodePropertyListPath | SyntaxKind::BlankNodePropertyList => match self.syntax.first_child() {
                Some(n) => PropertyListPath::cast(n),
                None => None,
            },
            _ => None,
        }
    }
}

/// The triples of a triples block with children `cs`: each child triple,
/// and the triples of each nested block, in order.
pub open spec fn block_triples(es: Seq<Element>, tb: int, cs: Seq<usize>) -> Seq<usize>
    decreases es.len() - tb, cs.len(),
{
    if cs.len() == 0 {
        Seq::empty()
    } else {
        let rest = block_triples(es, tb, cs.drop_last());
        let c = cs.last() as int;
        if node_kind(es, c) == SyntaxKind::TriplesSameSubjectPath {
            rest.push(c as usize)
        } else if node_kind(es, c) == SyntaxKind::TriplesBlock && tb < c < es.len() {
            rest + block_triples(es, c, child_nodes(es, c))
        } else {
            rest
        }
    }
}

proof fn lemma_positions_append<T: View<V = int>>(a: Seq<T>, b: Seq<T>)
    ensures
        positions(a + b) == positions(a) + positions(b),
{
    assert(positions(a + b) =~= positions(a) + positions(b));
}

proof fn lemma_positions_push<T: View<V = int>>(a: Seq<T>, x: T)
    ensures
        positions(a.push(x)) == positions(a).push(x@ as usize),
{
    assert(positions(a.push(x)) =~= positions(a).push(x@ as usize));
}

impl<'a> TriplesBlock<'a> {
    /// The triples of the block, those of nested blocks included, in order.
    pub fn triples(&self) -> (r: Vec<Triple<'a>>)
        requires
            self.wf(),
        ensures
            positions(r@) == block_triples(self.syntax.tree@, self@, child_nodes(self.syntax.tree@, self@)),
            forall|k: int| 0 <= k < r@.len() ==> (#[trigger] r@[k]).wf() && r@[k].syntax.tree == self.syntax.tree,
        decreases self.syntax.tree@.len() - self@,
    {
        let ghost es = self.syntax.tree@;
        let children = self.syntax.children();
        let ghost cs = node_indices(children@);
        let mut r: Vec<Triple<'a>> = Vec::new();
        let mut k: usize = 0;
        proof {
            assert(cs.take(0) =~= Seq::<usize>::empty());
        }
        while k < children.len()
            invariant
                self.wf(),
                es == self.syntax.tree@,
                cs == node_indices(children@),
                cs == child_nodes(es, self@),
                lists_children(es, self@, cs, true),
                forall|j: int| 0 <= j < children@.len() ==> (#[trigger] children@[j]).tree == self.syntax.tree && children@[j].wf(),
                k <= children.len(),
                positions(r@) == block_triples(es, self@, cs.take(k as int)),
                forall|j: int| 0 <= j < r@.len() ==> (#[trigger] r@[j]).wf() && r@[j].syntax.tree == self.syntax.tree,
            decreases children.len() - k,
        {
            let c = children[k];
            proof {
                assert(cs.take(k + 1).drop_last() =~= cs.take(k as int));
                assert(cs[k as int] == c.index);
                assert(is_child(es, self@, c.index as int));
            }
            let kind = c.kind();
            if kind == SyntaxKind::TriplesSameSubjectPath {
                let ghost before = r@;
                r.push(Triple { syntax: c });
                proof {
                    lemma_positions_push(before, Triple { syntax: c });
                }
            } else if kind == SyntaxKind::TriplesBlock {
                let nested = TriplesBlock { syntax: c };
                let mut sub = nested.triples();
                let ghost before = r@;
                let ghost added = sub@;
                r.append(&mut sub);
                proof {
                    lemma_positions_append(before, added);
                    assert forall|j: int| 0 <= j < r@.len() implies (#[trigger] r@[j]).wf() && r@[j].syntax.tree
                        == self.syntax.tree by {
                        if j >= before.len() {
                            assert(r@[j] == added[j - before.len()]);
                        } else {
                            assert(r@[j] == before[j]);
                        }
                    }
                }
            }
            k = k + 1;
        }
        proof {
            assert(cs.take(k as int) =~= cs);
        }
        r
    }
}

/// Walking down a stack of nodes from position `j`, the lowest position from
/// which on all nodes are triples blocks.
pub open spec fn block_run_start(es: Seq<Element>, e: Seq<int>, j: int) -> int
    decreases j,
{
    if j > 0 && node_kind(es, e[j - 1]) == SyntaxKind::TriplesBlock {
        block_run_start(es, e, j - 1)
    } else {
        j
    }
}

/// The outermost of the triples blocks that directly nest around node `i`,
/// if its parent is a triples block.
pub open spec fn outermost_block(es: Seq<Element>, i: int) -> Option<int> {
    let e = enclosing(es, i);
    if e.len() > 0 && node_kind(es, e.last()) == SyntaxKind::TriplesBlock {
        Some(e[block_run_start(es, e, e.len() - 1)])
    } else {
        None
    }
}

/// Walking down a stack of nodes from below position `j`, the first node of
/// the kind.
pub open spec fn innermost_of_kind(es: Seq<Element>, e: Seq<int>, j: int, kind: SyntaxKind) -> Option<int>
    decreases j,
{
    if j <= 0 {
        None
    } else if node_kind(es, e[j - 1]) == kind {
        Some(e[j - 1])
    } else {
        innermost_of_kind(es, e, j - 1, kind)
    }
}

impl<'a> Triple<'a> {
    /// The triples block the triple is part of: the outermost of the blocks
    /// that directly nest around it.
    pub fn triples_block(&self) -> (r: Option<TriplesBlock<'a>>)
        requires
            self.wf(),
        ensures
            opt_pos(r) == outermost_block(self.syntax.tree@, self@),
            r matches Some(x) ==> x.wf() && x.syntax.tree == self.syntax.tree,
    {
        let ghost es = self.syntax.tree@;
        let ghost e = enclosing(es, self@);
        let stack = self.syntax.tree.enclosing_nodes(self.syntax.index);
        proof {
            lemma_well_formed_prefix(es, self@);
            lemma_enclosing_starts(es, self@);
        }
        if stack.len() == 0 {
            return None;
        }
        let top = stack.len() - 1;
        if self.syntax.tree.kind_of(stack[top]) != SyntaxKind::TriplesBlock {
            return None;
        }
        let mut j: usize = top;
        while j > 0 && self.syntax.tree.kind_of(stack[j - 1]) == SyntaxKind::TriplesBlock
            invariant
                e == enclosing(es, self@),
                es == self.syntax.tree@,
                stack@.len() == e.len(),
                forall|q: int| 0 <= q < stack@.len() ==> #[trigger] stack@[q] as int == e[q],
                forall|q: int| 0 <= q < e.len() ==> is_node(es, #[trigger] e[q]),
                j <= top,
                top == e.len() - 1,
                block_run_start(es, e, top as int) == block_run_start(es, e, j as int),
                node_kind(es, e[j as int]) == SyntaxKind::TriplesBlock,
            decreases j,
        {
            j = j - 1;
        }
        Some(TriplesBlock { syntax: SyntaxNode { tree: self.syntax.tree, index: stack[j] } })
    }

    /// The variables in the triple, in preorder.
    pub fn variables(&self) -> (r: Vec<Var<'a>>)
        requires
            self.wf(),
        ensures
            positions(r@) == nodes_of_kind_within(self.syntax.tree@, self@, SyntaxKind::Var),
            forall|k: int| 0 <= k < r@.len() ==> (#[trigger] r@[k]).wf() && r@[k].syntax.tree == self.syntax.tree,
    {
        let ns = self.syntax.preorder_find_kind(SyntaxKind::Var);
        let mut r: Vec<Var<'a>> = Vec::new();
        let mut k: usize = 0;
        while k < ns.len()
            invariant
                k <= ns@.len(),
                r@.len() == k,
                forall|j: int| 0 <= j < k ==> (#[trigger] r@[j]).syntax == ns@[j],
                forall|j: int|
                    0 <= j < ns@.len() ==> (#[trigger] ns@[j]).tree == self.syntax.tree && ns@[j].wf()
                        && node_kind(ns@[j].tree@, ns@[j].index as int) == SyntaxKind::Var,
            decreases ns.len() - k,
        {
            r.push(Var { syntax: ns[k] });
            k = k + 1;
        }
        proof {
            assert(positions(r@) =~= node_indices(ns@));
        }
        r
    }
}

impl<'a> Var<'a> {
    /// The innermost triple around the variable.
    pub fn triple(&self) -> (r: Option<Triple<'a>>)
        requires
            self.wf(),
        ensures
            opt_pos(r) == innermost_of_kind(
                self.syntax.tree@,
                enclosing(self.syntax.tree@, self@),
                enclosing(self.syntax.tree@, self@).len() as int,
                SyntaxKind::TriplesSameSubjectPath,
            ),
            r matches Some(x) ==> x.wf() && x.syntax.tree == self.syntax.tree,
    {
        let ghost es = self.syntax.tree@;
        let ghost e = enclosing(es, self@);
        let stack = self.syntax.tree.enclosing_nodes(self.syntax.index);
        proof {
            lemma_well_formed_prefix(es, self@);
            lemma_enclosing_starts(es, self@);
        }
        let mut j: usize = stack.len();
        while j > 0
            invariant
                e == enclosing(es, self@),
                es == self.syntax.tree@,
                self.wf(),
                stack@.len() == e.len(),
                forall|q: int| 0 <= q < stack@.len() ==> #[trigger] stack@[q] as int == e[q],
                forall|q: int| 0 <= q < e.len() ==> is_node(es, #[trigger] e[q]),
                j <= e.len(),
                innermost_of_kind(es, e, e.len() as int, SyntaxKind::TriplesSameSubjectPath) == innermost_of_kind(
                    es,
                    e,
                    j as int,
                    SyntaxKind::TriplesSameSubjectPath,
                ),
            decreases j,
        {
            let n = stack[j - 1];
            proof {
                assert(is_node(es, e[j - 1]));
            }
            if self.syntax.tree.kind_of(n) == SyntaxKind::TriplesSameSubjectPath {
                return Some(Triple { syntax: SyntaxNode { tree: self.syntax.tree, index: n } });
            }
            j = j - 1;
        }
        None
    }
}

/// The variables of the triples of the blocks, in order.
pub open spec fn block_variables(es: Seq<Element>, blocks: Seq<usize>) -> Seq<usize>
    decreases blocks.len(),
{
    if blocks.len() == 0 {
        Seq::empty()
    } else {
        let b = blocks.last() as int;
        block_variables(es, blocks.drop_last()) + triple_variables(
            es,
            block_triples(es, b, child_nodes(es, b)),
        )
    }
}

/// The variables of the triples, in order.
pub open spec fn triple_variables(es: Seq<Element>, triples: Seq<usize>) -> Seq<usize>
    decreases triples.len(),
{
    if triples.len() == 0 {
        Seq::empty()
    } else {
        triple_variables(es, triples.drop_last()) + nodes_of_kind_within(
            es,
            triples.last() as int,
            SyntaxKind::Var,
        )
    }
}

/// The child nodes of `i` of the kinds, in order.
pub open spec fn matching_children(es: Seq<Element>, i: int, kinds: Seq<SyntaxKind>) -> Seq<usize> {
    listed_upto(|m: int| child_matches(es, i, m, Some(kinds)), es.len() as int)
}

/// A listing of the matching children is `matching_children`.
pub proof fn lemma_matching_children(es: Seq<Element>, i: int, kinds: Seq<SyntaxKind>, r: Seq<usize>)
    requires
        lists_matching(es, i, r, kinds),
        es.len() <= usize::MAX,
    ensures
        r == matching_children(es, i, kinds),
{
    let p = |m: int| child_matches(es, i, m, Some(kinds));
    assert forall|k: int| 0 <= k < r.len() implies #[trigger] p(r[k] as int) by {
        assert(child_matches(es, i, r[k] as int, Some(kinds)));
    }
    assert forall|m: int| #[trigger] p(m) implies exists|k: int| 0 <= k < r.len() && r[k] == m by {
        assert(child_matches(es, i, m, Some(kinds)));
    }
    assert forall|m: int| #[trigger] p(m) implies 0 <= m < es.len() by {
        assert(child_matches(es, i, m, Some(kinds)));
    }
    assert(lists_where(r, p));
    lemma_listed_all(p, es.len() as int);
    lemma_lists_unique(p, r, matching_children(es, i, kinds));
}

/// The variables of a query's triples: those of the triples blocks directly
/// in the group graph pattern of its `WHERE` clause.
pub open spec fn query_variables(es: Seq<Element>, q: int) -> Seq<usize> {
    match first_child_matching(es, q, Some(seq![SyntaxKind::WhereClause])) {
        Some(w) => match kind_filtered(es, first_child_matching(es, w, None), |k: SyntaxKind| is_group_graph_pattern_kind(k)) {
            Some(g) => match first_child_matching(es, g, Some(seq![SyntaxKind::GroupGraphPatternSub])) {
                Some(sub) => block_variables(es, matching_children(es, sub, seq![SyntaxKind::TriplesBlock])),
                None => Seq::empty(),
            },
            None => Seq::empty(),
        },
        None => Seq::empty(),
    }
}

impl<'a> SelectQuery<'a> {
    /// The variables of the triples in the query's `WHERE` clause, in order.
    pub fn variables(&self) -> (r: Vec<Var<'a>>)
        requires
            self.wf(),
        ensures
            positions(r@) == query_variables(self.syntax.tree@, self@),
            forall|k: int| 0 <= k < r@.len() ==> (#[trigger] r@[k]).wf() && r@[k].syntax.tree == self.syntax.tree,
    {
        let ghost es = self.syntax.tree@;
        let n = self.syntax.tree.elements.len();
        let mut r: Vec<Var<'a>> = Vec::new();
        let where_clause = match self.where_clause() {
            Some(w) => w,
            None => return r,
        };
        let ggp = match where_clause.group_graph_pattern() {
            Some(g) => g,
            None => return r,
        };
        let sub_kinds = [SyntaxKind::GroupGraphPatternSub];
        assert(sub_kinds@ == seq![SyntaxKind::GroupGraphPatternSub]);
        let sub = ggp.syntax.first_child_by_kind(&sub_kinds);
        if sub.is_none() {
            return r;
        }
        let blocks = ggp.triple_blocks();
        let ghost bs = positions(blocks@);
        proof {
            let s = sub.unwrap();
            lemma_matching_children(es, s.index as int, seq![SyntaxKind::TriplesBlock], bs);
            assert(bs.take(0) =~= Seq::<usize>::empty());
        }
        let mut b: usize = 0;
        while b < blocks.len()
            invariant
                es == self.syntax.tree@,
                bs == positions(blocks@),
                forall|j: int| 0 <= j < blocks@.len() ==> (#[trigger] blocks@[j]).wf() && blocks@[j].syntax.tree == self.syntax.tree,
                b <= blocks.len(),
                positions(r@) == block_variables(es, bs.take(b as int)),
                forall|j: int| 0 <= j < r@.len() ==> (#[trigger] r@[j]).wf() && r@[j].syntax.tree == self.syntax.tree,
            decreases blocks.len() - b,
        {
            let triples = blocks[b].triples();
            let ghost ts = positions(triples@);
            let ghost start = r@;
            proof {
                assert(bs.take(b + 1).drop_last() =~= bs.take(b as int));
                assert(bs[b as int] as int == blocks@[b as int]@);
                assert(ts.take(0) =~= Seq::<usize>::empty());
                assert(triple_variables(es, ts.take(0)) =~= Seq::<usize>::empty());
                assert(start + Seq::<Var<'a>>::empty() =~= start);
            }
            let mut t: usize = 0;
            while t < triples.len()
                invariant
                    es == self.syntax.tree@,
                    ts == positions(triples@),
                    forall|j: int| 0 <= j < triples@.len() ==> (#[trigger] triples@[j]).wf() && triples@[j].syntax.tree == self.syntax.tree,
                    t <= triples.len(),
                    positions(r@) == positions(start) + triple_variables(es, ts.take(t as int)),
                    forall|j: int| 0 <= j < r@.len() ==> (#[trigger] r@[j]).wf() && r@[j].syntax.tree == self.syntax.tree,
                decreases triples.len() - t,
            {
                let mut vars = triples[t].variables();
                let ghost before = r@;
                let ghost added = vars@;
                proof {
                    assert(ts.take(t + 1).drop_last() =~= ts.take(t as int));
                    assert(ts[t as int] as int == triples@[t as int]@);
                }
                r.append(&mut vars);
                proof {
                    lemma_positions_append(before, added);
                    assert forall|j: int| 0 <= j < r@.len() implies (#[trigger] r@[j]).wf() && r@[j].syntax.tree
                        == self.syntax.tree by {
                        if j >= before.len() {
                            assert(r@[j] == added[j - before.len()]);
                        } else {
                            assert(r@[j] == before[j]);
                        }
                    }
                }
                t = t + 1;
            }
            proof {
                assert(ts.take(t as int) =~= ts);
            }
            b = b + 1;
        }
        proof {
            assert(bs.take(b as int) =~= bs);
        }
        r
    }
}

/// Whether a node of this kind is a [`GraphPatternNotTriples`].
pub open spec fn is_graph_pattern_not_triples_kind(k: SyntaxKind) -> bool {
    k == SyntaxKind::GroupOrUnionGraphPattern || k == SyntaxKind::OptionalGraphPattern || k
        == SyntaxKind::MinusGraphPattern || k == SyntaxKind::GraphGraphPattern || k
        == SyntaxKind::ServiceGraphPattern || k == SyntaxKind::Filter || k == SyntaxKind::Bind || k
        == SyntaxKind::InlineData
}

/// The node a `GraphPatternNotTriples` node stands for: its first child
/// node, when that is one of the patterns other than `InlineData`; for
/// `InlineData` the node itself, when it has that kind.
pub open spec fn pattern_cast(es: Seq<Element>, i: int) -> Option<int> {
    match first_child_matching(es, i, None) {
        Some(c) => if is_graph_pattern_not_triples_kind(node_kind(es, c)) && node_kind(es, c)
            != SyntaxKind::InlineData {
            Some(c)
        } else if node_kind(es, c) == SyntaxKind::InlineData && node_kind(es, i) == SyntaxKind::InlineData {
            Some(i)
        } else {
            None
        },
        None => None,
    }
}

/// A graph pattern that is no triples block.
#[derive(Clone, Copy)]
pub enum GraphPatternNotTriples<'a> {
    GroupOrUnionGraphPattern(GroupOrUnionGraphPattern<'a>),
    OptionalGraphPattern(OptionalGraphPattern<'a>),
    MinusGraphPattern(MinusGraphPattern<'a>),
    GraphGraphPattern(GraphGraphPattern<'a>),
    ServiceGraphPattern(ServiceGraphPattern<'a>),
    Filter(Filter<'a>),
    Bind(Bind<'a>),
    InlineData(InlineData<'a>),
}

impl<'a> View for GraphPatternNotTriples<'a> {
    type V = int;

    open spec fn view(&self) -> int {
        match self {
            GraphPatternNotTriples::GroupOrUnionGraphPattern(x) => x@,
            GraphPatternNotTriples::OptionalGraphPattern(x) => x@,
            GraphPatternNotTriples::MinusGraphPattern(x) => x@,
            GraphPatternNotTriples::GraphGraphPattern(x) => x@,
            GraphPatternNotTriples::ServiceGraphPattern(x) => x@,
            GraphPatternNotTriples::Filter(x) => x@,
            GraphPatternNotTriples::Bind(x) => x@,
            GraphPatternNotTriples::InlineData(x) => x@,
        }
    }
}

impl<'a> GraphPatternNotTriples<'a> {
    /// The node of the pattern.
    pub open spec fn node(&self) -> SyntaxNode<'a> {
        match self {
            GraphPatternNotTriples::GroupOrUnionGraphPattern(x) => x.syntax,
            GraphPatternNotTriples::OptionalGraphPattern(x) => x.syntax,
            GraphPatternNotTriples::MinusGraphPattern(x) => x.syntax,
            GraphPatternNotTriples::GraphGraphPattern(x) => x.syntax,
            GraphPatternNotTriples::ServiceGraphPattern(x) => x.syntax,
            GraphPatternNotTriples::Filter(x) => x.syntax,
            GraphPatternNotTriples::Bind(x) => x.syntax,
            GraphPatternNotTriples::InlineData(x) => x.syntax,
        }
    }

    pub open spec fn wf(&self) -> bool {
        match self {
            GraphPatternNotTriples::GroupOrUnionGraphPattern(x) => x.wf(),
            GraphPatternNotTriples::OptionalGraphPattern(x) => x.wf(),
            GraphPatternNotTriples::MinusGraphPattern(x) => x.wf(),
            GraphPatternNotTriples::GraphGraphPattern(x) => x.wf(),
            GraphPatternNotTriples::ServiceGraphPattern(x) => x.wf(),
            GraphPatternNotTriples::Filter(x) => x.wf(),
            GraphPatternNotTriples::Bind(x) => x.wf(),
            GraphPatternNotTriples::InlineData(x) => x.wf(),
        }
    }

    pub fn can_cast(kind: SyntaxKind) -> (r: bool)
        ensures
            r == is_graph_pattern_not_triples_kind(kind),
    {
        matches!(
            kind,
            SyntaxKind::GroupOrUnionGraphPattern | SyntaxKind::OptionalGraphPattern
                | SyntaxKind::MinusGraphPattern | SyntaxKind::GraphGraphPattern
                | SyntaxKind::ServiceGraphPattern | SyntaxKind::Filter | SyntaxKind::Bind
                | SyntaxKind::InlineData
        )
    }

    /// The pattern a `GraphPatternNotTriples` node stands for.
    pub fn cast(syntax: SyntaxNode<'a>) -> (r: Option<Self>)
        requires
            syntax.wf(),
        ensures
            opt_pos(r) == pattern_cast(syntax.tree@, syntax.index as int),
            r matches Some(x) ==> x.wf() && x.node().tree == syntax.tree,
            r matches Some(x) ==> syntax.index <= x@,
    {
        let child = match syntax.first_child() {
            Some(c) => c,
            None => return None,
        };
        match child.kind() {
            SyntaxKind::GroupOrUnionGraphPattern => Some(
                GraphPatternNotTriples::GroupOrUnionGraphPattern(GroupOrUnionGraphPattern { syntax: child }),
            ),
            SyntaxKind::OptionalGraphPattern => Some(
                GraphPatternNotTriples::OptionalGraphPattern(OptionalGraphPattern { syntax: child }),
            ),
            SyntaxKind::MinusGraphPattern => Some(
                GraphPatternNotTriples::MinusGraphPattern(MinusGraphPattern { syntax: child }),
            ),
            SyntaxKind::GraphGraphPattern => Some(
                GraphPatternNotTriples::GraphGraphPattern(GraphGraphPattern { syntax: child }),
            ),
            SyntaxKind::ServiceGraphPattern => Some(
                GraphPatternNotTriples::ServiceGraphPattern(ServiceGraphPattern { syntax: child }),
            ),
            SyntaxKind::Filter => Some(GraphPatternNotTriples::Filter(Filter { syntax: child })),
            SyntaxKind::Bind => Some(GraphPatternNotTriples::Bind(Bind { syntax: child })),
            SyntaxKind::InlineData => match InlineData::cast(syntax) {
                Some(x) => Some(GraphPatternNotTriples::InlineData(x)),
                None => None,
            },
            _ => None,
        }
    }

    pub fn syntax(&self) -> (r: &SyntaxNode<'a>)
        ensures
            *r == self.node(),
    {
        match self {
            GraphPatternNotTriples::GroupOrUnionGraphPattern(x) => &x.syntax,
            GraphPatternNotTriples::OptionalGraphPattern(x) => &x.syntax,
            GraphPatternNotTriples::MinusGraphPattern(x) => &x.syntax,
            GraphPatternNotTriples::GraphGraphPattern(x) => &x.syntax,
            GraphPatternNotTriples::ServiceGraphPattern(x) => &x.syntax,
            GraphPatternNotTriples::Filter(x) => &x.syntax,
            GraphPatternNotTriples::Bind(x) => &x.syntax,
            GraphPatternNotTriples::InlineData(x) => &x.syntax,
        }
    }
}

/// The patterns that the nodes `cs` stand for, skipping the others.
pub open spec fn patterns_of(es: Seq<Element>, cs: Seq<usize>) -> Seq<int>
    decreases cs.len(),
{
    if cs.len() == 0 {
        Seq::empty()
    } else {
        match pattern_cast(es, cs.last() as int) {
            Some(p) => patterns_of(es, cs.drop_last()).push(p),
            None => patterns_of(es, cs.drop_last()),
        }
    }
}

/// The positions of the patterns.
pub open spec fn pattern_positions(ps: Seq<GraphPatternNotTriples>) -> Seq<int> {
    Seq::new(ps.len(), |k: int| ps[k]@)
}

impl<'a> GroupGraphPattern<'a> {
    /// The patterns other than triples blocks directly inside the pattern,
    /// in order.
    pub fn group_pattern_not_triples(&self) -> (r: Vec<GraphPatternNotTriples<'a>>)
        requires
            self.wf(),
        ensures
            match first_child_matching(self.syntax.tree@, self@, Some(seq![SyntaxKind::GroupGraphPatternSub])) {
                Some(g) => pattern_positions(r@) == patterns_of(self.syntax.tree@, child_nodes(self.syntax.tree@, g)),
                None => r@.len() == 0,
            },
            forall|k: int| 0 <= k < r@.len() ==> (#[trigger] r@[k]).wf() && r@[k].node().tree == self.syntax.tree,
    {
        let ghost es = self.syntax.tree@;
        let sub_kinds = [SyntaxKind::GroupGraphPatternSub];
        assert(sub_kinds@ == seq![SyntaxKind::GroupGraphPatternSub]);
        let mut r: Vec<GraphPatternNotTriples<'a>> = Vec::new();
        let sub = match self.syntax.first_child_by_kind(&sub_kinds) {
            Some(g) => g,
            None => return r,
        };
        let children = sub.children();
        let ghost cs = node_indices(children@);
        let mut k: usize = 0;
        proof {
            assert(cs.take(0) =~= Seq::<usize>::empty());
            assert(pattern_positions(r@) =~= Seq::<int>::empty());
        }
        while k < children.len()
            invariant
                es == self.syntax.tree@,
                cs == node_indices(children@),
                cs == child_nodes(es, sub.index as int),
                forall|j: int| 0 <= j < children@.len() ==> (#[trigger] children@[j]).tree == self.syntax.tree && children@[j].wf(),
                k <= children.len(),
                pattern_positions(r@) == patterns_of(es, cs.take(k as int)),
                forall|j: int| 0 <= j < r@.len() ==> (#[trigger] r@[j]).wf() && r@[j].node().tree == self.syntax.tree,
            decreases children.len() - k,
        {
            let c = children[k];
            let ghost before = r@;
            proof {
                assert(cs.take(k + 1).drop_last() =~= cs.take(k as int));
                assert(cs[k as int] == c.index);
            }
            match GraphPatternNotTriples::cast(c) {
                Some(p) => {
                    r.push(p);
                    proof {
                        assert(pattern_positions(r@) =~= pattern_positions(before).push(p@));
                    }
                },
                None => {},
            }
            k = k + 1;
        }
        proof {
            assert(cs.take(k as int) =~= cs);
        }
        r
    }
}

/// The variables right below the `VerbSimple` children of the nodes `cs`:
/// for each, its first child node if that is a variable.
pub open spec fn verb_variables(es: Seq<Element>, cs: Seq<usize>) -> Seq<usize>
    decreases cs.len(),
{
    if cs.len() == 0 {
        Seq::empty()
    } else {
        let c = cs.last() as int;
        let rest = verb_variables(es, cs.drop_last());
        if node_kind(es, c) == SyntaxKind::VerbSimple {
            match kind_filtered(es, first_child_matching(es, c, None), |k: SyntaxKind| is_var_kind(k)) {
                Some(v) => rest.push(v as usize),
                None => rest,
            }
        } else {
            rest
        }
    }
}

/// A property with its objects.
pub struct PropertyPath<'a> {
    pub verb: Path<'a>,
    pub object: ObjectList<'a>,
}

impl<'a> PropertyPath<'a> {
    pub open spec fn wf(&self) -> bool {
        self.verb.wf() && self.object.wf() && self.verb.syntax.tree == self.object.syntax.tree
    }

    /// The property's text and its objects' text, separated by a space.
    pub fn text(&self) -> (r: String)
        requires
            self.wf(),
        ensures
            r@ == node_text(self.verb.syntax.tree@, self.verb@) + " "@ + node_text(
                self.object.syntax.tree@,
                self.object@,
            ),
    {
        let mut r = self.verb.text();
        r.append(" ");
        r.append(self.object.text().as_str());
        r
    }
}

/// The properties among the child nodes `cs`: each node at an even index
/// that is a path, followed by a node that is an object list.
pub open spec fn property_pairs(es: Seq<Element>, cs: Seq<usize>, k: int) -> Seq<(usize, usize)>
    decreases cs.len() + 1 - k,
{
    if k < 0 || k >= cs.len() {
        Seq::empty()
    } else if k + 1 < cs.len() && is_path_kind(node_kind(es, cs[k] as int)) && is_object_list_kind(
        node_kind(es, cs[k + 1] as int),
    ) {
        seq![(cs[k], cs[k + 1])] + property_pairs(es, cs, k + 2)
    } else {
        property_pairs(es, cs, k + 2)
    }
}

impl<'a> PropertyListPath<'a> {
    /// The variables that stand as properties, in order.
    pub fn variables(&self) -> (r: Vec<Var<'a>>)
        requires
            self.wf(),
        ensures
            positions(r@) == verb_variables(self.syntax.tree@, child_nodes(self.syntax.tree@, self@)),
            forall|k: int| 0 <= k < r@.len() ==> (#[trigger] r@[k]).wf() && r@[k].syntax.tree == self.syntax.tree,
    {
        let ghost es = self.syntax.tree@;
        let children = self.syntax.children();
        let ghost cs = node_indices(children@);
        let mut r: Vec<Var<'a>> = Vec::new();
        let mut k: usize = 0;
        proof {
            assert(cs.take(0) =~= Seq::<usize>::empty());
            assert(positions(r@) =~= Seq::<usize>::empty());
        }
        while k < children.len()
            invariant
                es == self.syntax.tree@,
                cs == node_indices(children@),
                forall|j: int| 0 <= j < children@.len() ==> (#[trigger] children@[j]).tree == self.syntax.tree && children@[j].wf(),
                k <= children.len(),
                positions(r@) == verb_variables(es, cs.take(k as int)),
                forall|j: int| 0 <= j < r@.len() ==> (#[trigger] r@[j]).wf() && r@[j].syntax.tree == self.syntax.tree,
            decreases children.len() - k,
        {
            let c = children[k];
            let ghost before = r@;
            proof {
                assert(cs.take(k + 1).drop_last() =~= cs.take(k as int));
                assert(cs[k as int] == c.index);
            }
            if c.kind() == SyntaxKind::VerbSimple {
                match c.first_child() {
                    Some(v) => match Var::cast(v) {
                        Some(var) => {
                            r.push(var);
                            proof {
                                lemma_positions_push(before, var);
                            }
                        },
                        None => {},
                    },
                    None => {},
                }
            }
            k = k + 1;
        }
        proof {
            assert(cs.take(k as int) =~= cs);
        }
        r
    }

    /// The properties with their objects: each child node at an even index
    /// that is a path and is followed by an object list.
    pub fn properties(&self) -> (r: Vec<PropertyPath<'a>>)
        requires
            self.wf(),
        ensures
            r@.len() == property_pairs(self.syntax.tree@, child_nodes(self.syntax.tree@, self@), 0).len(),
            forall|k: int|
                0 <= k < r@.len() ==> (#[trigger] r@[k]).wf() && r@[k].verb.syntax.tree == self.syntax.tree && (
                r@[k].verb@ as usize, r@[k].object@ as usize) == property_pairs(
                    self.syntax.tree@,
                    child_nodes(self.syntax.tree@, self@),
                    0,
                )[k],
    {
        let ghost es = self.syntax.tree@;
        let children = self.syntax.children();
        let ghost cs = node_indices(children@);
        let ghost all = property_pairs(es, cs, 0);
        let mut r: Vec<PropertyPath<'a>> = Vec::new();
        let mut k: usize = 0;
        proof {
            let f = |j: int| (r@[j].verb@ as usize, r@[j].object@ as usize);
            assert(Seq::new(r@.len(), f) + all =~= all);
        }
        while k < children.len() && children.len() - k >= 2
            invariant
                es == self.syntax.tree@,
                cs == node_indices(children@),
                all == property_pairs(es, cs, 0),
                forall|j: int| 0 <= j < children@.len() ==> (#[trigger] children@[j]).tree == self.syntax.tree && children@[j].wf(),
                k <= children.len(),
                all == Seq::new(r@.len(), |j: int| (r@[j].verb@ as usize, r@[j].object@ as usize)) + property_pairs(es, cs, k as int),
                forall|j: int| 0 <= j < r@.len() ==> (#[trigger] r@[j]).wf() && r@[j].verb.syntax.tree == self.syntax.tree,
            decreases children.len() - k,
        {
            let ghost before = r@;
            if Path::can_cast(children[k].kind()) && ObjectList::can_cast(children[k + 1].kind()) {
                r.push(PropertyPath { verb: Path { syntax: children[k] }, object: ObjectList { syntax: children[k + 1] } });
                proof {
                    let f = |j: int| (r@[j].verb@ as usize, r@[j].object@ as usize);
                    let g = |j: int| (before[j].verb@ as usize, before[j].object@ as usize);
                    assert(Seq::new(r@.len(), f) =~= Seq::new(before.len(), g) + seq![(cs[k as int], cs[k + 1])]);
                }
            }
            k = k + 2;
        }
        proof {
            if k < cs.len() {
                assert(property_pairs(es, cs, k + 2) =~= Seq::<(usize, usize)>::empty());
            }
            assert(property_pairs(es, cs, k as int) =~= Seq::<(usize, usize)>::empty());
            let f = |j: int| (r@[j].verb@ as usize, r@[j].object@ as usize);
            assert(all =~= Seq::new(r@.len(), f));
        }
        r
    }
}

impl<'a> Path<'a> {
    /// The child nodes that are paths, in order.
    pub fn sub_paths(&self) -> (r: Vec<Path<'a>>)
        requires
            self.wf(),
        ensures
            lists_matching(
                self.syntax.tree@,
                self@,
                positions(r@),
                seq![
                    SyntaxKind::Path,
                    SyntaxKind::VerbPath,
                    SyntaxKind::PathAlternative,
                    SyntaxKind::PathSequence,
                    SyntaxKind::PathElt,
                    SyntaxKind::PathEltOrInverse,
                    SyntaxKind::PathPrimary,
                    SyntaxKind::PathNegatedPropertySet,
                    SyntaxKind::PathOneInPropertySet,
                ],
            ),
            forall|k: int| 0 <= k < r@.len() ==> (#[trigger] r@[k]).wf() && r@[k].syntax.tree == self.syntax.tree,
    {
        let kinds = [
            SyntaxKind::Path,
            SyntaxKind::VerbPath,
            SyntaxKind::PathAlternative,
            SyntaxKind::PathSequence,
            SyntaxKind::PathElt,
            SyntaxKind::PathEltOrInverse,
            SyntaxKind::PathPrimary,
            SyntaxKind::PathNegatedPropertySet,
            SyntaxKind::PathOneInPropertySet,
        ];
        assert(kinds@ == seq![
            SyntaxKind::Path,
            SyntaxKind::VerbPath,
            SyntaxKind::PathAlternative,
            SyntaxKind::PathSequence,
            SyntaxKind::PathElt,
            SyntaxKind::PathEltOrInverse,
            SyntaxKind::PathPrimary,
            SyntaxKind::PathNegatedPropertySet,
            SyntaxKind::PathOneInPropertySet,
        ]);
        let ns = self.syntax.children_of_kinds(&kinds);
        let mut r: Vec<Path<'a>> = Vec::new();
        let mut k: usize = 0;
        while k < ns.len()
            invariant
                k <= ns@.len(),
                r@.len() == k,
                forall|j: int| 0 <= j < k ==> (#[trigger] r@[j]).syntax == ns@[j],
                forall|j: int|
                    0 <= j < ns@.len() ==> (#[trigger] ns@[j]).tree == self.syntax.tree && ns@[j].wf()
                        && kinds@.contains(node_kind(ns@[j].tree@, ns@[j].index as int)),
            decreases ns.len() - k,
        {
            proof {
                let kk = node_kind(ns@[k as int].tree@, ns@[k as int].index as int);
                assert(kinds@.contains(kk));
                let q = choose|q: int| 0 <= q < kinds@.len() && kinds@[q] == kk;
            }
            r.push(Path { syntax: ns[k] });
            k = k + 1;
        }
        proof {
            assert(positions(r@) =~= node_indices(ns@));
        }
        r
    }
}

impl<'a> BlankPropertyList<'a> {
    /// For a plain blank node: the node seven levels up, if it is a triple.
    pub fn triple(&self) -> (r: Option<Triple<'a>>)
        requires
            self.wf(),
            node_kind(self.syntax.tree@, self@) == SyntaxKind::BlankNode,
        ensures
            opt_pos(r) == (if enclosing(self.syntax.tree@, self@).len() >= 7 {
                kind_filtered(
                    self.syntax.tree@,
                    Some(enclosing(self.syntax.tree@, self@)[enclosing(self.syntax.tree@, self@).len() - 7]),
                    |k: SyntaxKind| is_triple_kind(k),
                )
            } else {
                None
            }),
            r matches Some(x) ==> x.wf() && x.syntax.tree == self.syntax.tree,
    {
        let ancestors = self.syntax.ancestors();
        if ancestors.len() >= 7 {
            Triple::cast(ancestors[6])
        } else {
            None
        }
    }
}

/// The prefixes of the prefixed names among node `i` and the nodes inside
/// it, in preorder.
pub open spec fn prefixes_used(es: Seq<Element>, ns: Seq<usize>) -> Seq<Seq<char>> {
    Seq::new(ns.len(), |k: int| before_colon(node_text(es, ns[k] as int)))
}

/// The prefixes used in the node: those of the prefixed names in it, in
/// preorder.
pub fn used_prefixes(node: &SyntaxNode) -> (r: Vec<String>)
    requires
        node.wf(),
        forall|k: int|
            0 <= k < nodes_of_kind_within(node.tree@, node.index as int, SyntaxKind::PrefixedName).len()
                ==> node_text(
                node.tree@,
                #[trigger] nodes_of_kind_within(node.tree@, node.index as int, SyntaxKind::PrefixedName)[k] as int,
            ).contains(':'),
    ensures
        r@.len() == nodes_of_kind_within(node.tree@, node.index as int, SyntaxKind::PrefixedName).len(),
        forall|k: int|
            0 <= k < r@.len() ==> (#[trigger] r@[k])@ == prefixes_used(
                node.tree@,
                nodes_of_kind_within(node.tree@, node.index as int, SyntaxKind::PrefixedName),
            )[k],
{
    let ns = node.preorder_find_kind(SyntaxKind::PrefixedName);
    proof {
        assert forall|j: int| 0 <= j < ns@.len() implies node_text(node.tree@, (#[trigger] ns@[j]).index as int).contains(
            ':',
        ) by {
            assert(node_indices(ns@)[j] == ns@[j].index);
        }
    }
    let mut r: Vec<String> = Vec::new();
    let mut k: usize = 0;
    while k < ns.len()
        invariant
            node_indices(ns@) == nodes_of_kind_within(node.tree@, node.index as int, SyntaxKind::PrefixedName),
            forall|j: int| 0 <= j < ns@.len() ==> node_text(node.tree@, (#[trigger] ns@[j]).index as int).contains(':'),
            forall|j: int|
                0 <= j < ns@.len() ==> (#[trigger] ns@[j]).tree == node.tree && ns@[j].wf() && node_kind(
                    node.tree@,
                    ns@[j].index as int,
                ) == SyntaxKind::PrefixedName,
            k <= ns.len(),
            r@.len() == k,
            forall|j: int|
                0 <= j < k ==> (#[trigger] r@[j])@ == before_colon(node_text(node.tree@, ns@[j].index as int)),
        decreases ns.len() - k,
    {
        let name = PrefixedName { syntax: ns[k] };
        r.push(name.prefix());
        k = k + 1;
    }
    r
}

/// The node at `o` as a one-element list, if it is a variable.
pub open spec fn var_at(es: Seq<Element>, o: Option<int>) -> Seq<usize> {
    match kind_filtered(es, o, |k: SyntaxKind| is_var_kind(k)) {
        Some(v) => seq![v as usize],
        None => Seq::empty(),
    }
}

/// The variables visible in node `i`, by its kind: a variable itself; for a
/// term the variable it is; nothing for names, paths and declarations; all
/// variables inside triples, property lists, filters and inline data; for a
/// group graph pattern those of its sub-select or else of its triples blocks
/// and other patterns; for the patterns around a group graph pattern those
/// of that pattern; for a `BIND` the variable bound; for a `SELECT` clause
/// the projected variables; for a query those of its `SELECT` query; for a
/// `SELECT` query the projected variables, or with `*` those of its `WHERE`
/// clause.
pub open spec fn visible(es: Seq<Element>, i: int) -> Seq<usize>
    decreases es.len() - i, 1int, 0int,
{
    let n = es.len() as int;
    let k = node_kind(es, i);
    let fc = first_child_matching(es, i, None);
    if !(0 <= i < n) {
        Seq::empty()
    } else if k == SyntaxKind::Var {
        seq![i as usize]
    } else if k == SyntaxKind::VarOrTerm || k == SyntaxKind::TriplesNodePath {
        var_at(es, fc)
    } else if is_object_list_kind(k) || is_blank_property_list_kind(k) || is_property_list_path_kind(k)
        || is_triple_kind(k) || is_triples_block_kind(k) || is_filter_kind(k) || is_inline_data_kind(k) {
        nodes_of_kind_within(es, i, SyntaxKind::Var)
    } else if is_group_graph_pattern_kind(k) {
        match kind_filtered(es, fc, |k: SyntaxKind| is_select_query_kind(k)) {
            Some(q) => if i < q < n {
                visible(es, q)
            } else {
                Seq::empty()
            },
            None => match fc {
                Some(f) => if i < f < n {
                    visible_all(es, f, child_nodes(es, f), true)
                } else {
                    Seq::empty()
                },
                None => Seq::empty(),
            },
        }
    } else if is_where_clause_kind(k) {
        match kind_filtered(es, fc, |k: SyntaxKind| is_group_graph_pattern_kind(k)) {
            Some(g) => if i < g < n {
                visible(es, g)
            } else {
                Seq::empty()
            },
            None => Seq::empty(),
        }
    } else if is_optional_graph_pattern_kind(k) || is_minus_graph_pattern_kind(k) || is_graph_graph_pattern_kind(k)
        || is_service_graph_pattern_kind(k) {
        match kind_filtered(es, last_child_node(es, i), |k: SyntaxKind| is_group_graph_pattern_kind(k)) {
            Some(g) => if i < g < n {
                visible(es, g)
            } else {
                Seq::empty()
            },
            None => Seq::empty(),
        }
    } else if is_group_or_union_graph_pattern_kind(k) {
        visible_all(es, i, matching_children(es, i, seq![SyntaxKind::GroupGraphPattern]), false)
    } else if is_bind_kind(k) {
        var_at(es, last_child_node(es, i))
    } else if is_select_clause_kind(k) {
        matching_children(es, i, seq![SyntaxKind::Var])
    } else if is_query_unit_kind(k) {
        match first_in_first_child(es, i, seq![SyntaxKind::SelectQuery, SyntaxKind::SubSelect]) {
            Some(q) => if i < q < n {
                visible(es, q)
            } else {
                Seq::empty()
            },
            None => Seq::empty(),
        }
    } else if is_select_query_kind(k) {
        match first_child_matching(es, i, Some(seq![SyntaxKind::SelectClause])) {
            Some(c) => if token_filtered(es, last_child_element(es, c), SyntaxKind::Star) is Some {
                match first_child_matching(es, i, Some(seq![SyntaxKind::WhereClause])) {
                    Some(w) => if i < w < n {
                        visible(es, w)
                    } else {
                        Seq::empty()
                    },
                    None => Seq::empty(),
                }
            } else {
                matching_children(es, c, seq![SyntaxKind::Var])
            },
            None => Seq::empty(),
        }
    } else {
        Seq::empty()
    }
}

/// A `BIND(expr AS ?v)` makes visible only the variable it binds: at most
/// one variable, a child node of the `BIND` that comes after every other
/// child node; variables that occur in the expression are not made visible.
pub proof fn law_bind_binds_only_its_variable(es: Seq<Element>, i: int)
    requires
        0 <= i < es.len() <= usize::MAX,
        node_kind(es, i) == SyntaxKind::Bind,
    ensures
        visible(es, i).len() <= 1,
        forall|j: int|
            0 <= j < visible(es, i).len() ==> {
                let v = (#[trigger] visible(es, i)[j]) as int;
                &&& child_matches(es, i, v, None)
                &&& node_kind(es, v) == SyntaxKind::Var
                &&& forall|d: int| child_matches(es, i, d, None) ==> d <= v
            },
{
    reveal(last_child_node);
    if exists|c: int| child_matches(es, i, c, None) {
        let c0 = choose|c: int| child_matches(es, i, c, None);
        lemma_last_child_below(es, i, c0, es.len() as int);
    }
}

/// Below any bound past one child node there is a last child node.
proof fn lemma_last_child_below(es: Seq<Element>, i: int, c0: int, n: int)
    requires
        child_matches(es, i, c0, None),
        c0 < n <= es.len(),
    ensures
        exists|c: int|
            child_matches(es, i, c, None) && forall|d: int| #[trigger]
                child_matches(es, i, d, None) && d < n ==> d <= c,
    decreases n,
{
    if child_matches(es, i, n - 1, None) {
        assert(forall|d: int| #[trigger] child_matches(es, i, d, None) && d < n ==> d <= n - 1);
    } else {
        lemma_last_child_below(es, i, c0, n - 1);
        let c = choose|c: int|
            child_matches(es, i, c, None) && forall|d: int| #[trigger]
                child_matches(es, i, d, None) && d < n - 1 ==> d <= c;
        assert forall|d: int| #[trigger] child_matches(es, i, d, None) && d < n implies d <= c by {
            if d == n - 1 {
            }
        }
    }
}

/// The variables visible in node `c` below node `p`. In a group graph
/// pattern (`in_group`) only triples blocks and the patterns that graph
/// pattern nodes stand for count.
pub open spec fn child_visible(es: Seq<Element>, p: int, c: int, in_group: bool) -> Seq<usize>
    decreases es.len() - p, 0int, 0int,
{
    let n = es.len() as int;
    if !in_group {
        if p < c < n {
            visible(es, c)
        } else {
            Seq::empty()
        }
    } else if node_kind(es, c) == SyntaxKind::TriplesBlock && p < c < n {
        visible(es, c)
    } else if node_kind(es, c) == SyntaxKind::GraphPatternNotTriples {
        match pattern_cast(es, c) {
            Some(g) => if p < g < n {
                visible(es, g)
            } else {
                Seq::empty()
            },
            None => Seq::empty(),
        }
    } else {
        Seq::empty()
    }
}

/// The variables visible in the nodes `cs` below node `p`, one after the
/// other.
pub open spec fn visible_all(es: Seq<Element>, p: int, cs: Seq<usize>, in_group: bool) -> Seq<usize>
    decreases es.len() - p, 0int, cs.len(),
{
    if cs.len() == 0 {
        Seq::empty()
    } else {
        visible_all(es, p, cs.drop_last(), in_group) + child_visible(es, p, cs.last() as int, in_group)
    }
}

/// The variables inside a node, in preorder, as variables.
fn vars_within<'a>(node: SyntaxNode<'a>) -> (r: Vec<Var<'a>>)
    requires
        node.wf(),
    ensures
        positions(r@) == nodes_of_kind_within(node.tree@, node.index as int, SyntaxKind::Var),
        forall|k: int| 0 <= k < r@.len() ==> (#[trigger] r@[k]).wf() && r@[k].syntax.tree == node.tree,
{
    let ns = node.preorder_find_kind(SyntaxKind::Var);
    let mut r: Vec<Var<'a>> = Vec::new();
    let mut k: usize = 0;
    while k < ns.len()
        invariant
            k <= ns@.len(),
            r@.len() == k,
            forall|j: int| 0 <= j < k ==> (#[trigger] r@[j]).syntax == ns@[j],
            forall|j: int|
                0 <= j < ns@.len() ==> (#[trigger] ns@[j]).tree == node.tree && ns@[j].wf() && node_kind(
                    ns@[j].tree@,
                    ns@[j].index as int,
                ) == SyntaxKind::Var,
        decreases ns.len() - k,
    {
        r.push(Var { syntax: ns[k] });
        k = k + 1;
    }
    proof {
        assert(positions(r@) =~= node_indices(ns@));
    }
    r
}

/// The variable at `n`, as a one-element list, if it is one.
fn var_list<'a>(n: Option<SyntaxNode<'a>>) -> (r: Vec<Var<'a>>)
    requires
        n matches Some(m) ==> m.wf(),
    ensures
        positions(r@) == match n {
            Some(m) => if is_var_kind(node_kind(m.tree@, m.index as int)) {
                seq![m.index]
            } else {
                Seq::empty()
            },
            None => Seq::empty(),
        },
        forall|k: int| 0 <= k < r@.len() ==> (#[trigger] r@[k]).wf() && (n matches Some(m) && r@[k].syntax.tree == m.tree),
{
    let mut r: Vec<Var<'a>> = Vec::new();
    match n {
        Some(m) => match Var::cast(m) {
            Some(v) => {
                r.push(v);
                proof {
                    assert(positions(r@) =~= seq![m.index]);
                }
            },
            None => {
                assert(positions(r@) =~= Seq::<usize>::empty());
            },
        },
        None => {
            assert(positions(r@) =~= Seq::<usize>::empty());
        },
    }
    r
}

impl<'a> Var<'a> {
    /// The variables visible in the node.
    pub fn visible_variables(&self) -> (r: Vec<Var<'a>>)
        requires
            self.wf(),
        ensures
            positions(r@) == visible(self.syntax.tree@, self@),
            forall|k: int| 0 <= k < r@.len() ==> (#[trigger] r@[k]).wf() && r@[k].syntax.tree == self.syntax.tree,
        decreases self.syntax.tree@.len() - self@, 1int,
    {
        let mut r: Vec<Var<'a>> = Vec::new();
        r.push(Var { syntax: self.syntax });
        assert(positions(r@) =~= seq![self.syntax.index]);
        r
    }
}

impl<'a> VarOrTerm<'a> {
    /// The variables visible in the node.
    pub fn visible_variables(&self) -> (r: Vec<Var<'a>>)
        requires
            self.wf(),
        ensures
            positions(r@) == visible(self.syntax.tree@, self@),
            forall|k: int| 0 <= k < r@.len() ==> (#[trigger] r@[k]).wf() && r@[k].syntax.tree == self.syntax.tree,
        decreases self.syntax.tree@.len() - self@, 1int,
    {
        var_list(self.syntax.first_child())
    }
}

impl<'a> Subject<'a> {
    /// The variables visible in the node.
    pub fn visible_variables(&self) -> (r: Vec<Var<'a>>)
        requires
            self.wf(),
        ensures
            positions(r@) == visible(self.syntax.tree@, self@),
            forall|k: int| 0 <= k < r@.len() ==> (#[trigger] r@[k]).wf() && r@[k].syntax.tree == self.syntax.tree,
        decreases self.syntax.tree@.len() - self@, 1int,
    {
        var_list(self.syntax.first_child())
    }
}

impl<'a> Iri<'a> {
    /// The variables visible in the node.
    pub fn visible_variables(&self) -> (r: Vec<Var<'a>>)
        requires
            self.wf(),
        ensures
            positions(r@) == visible(self.syntax.tree@, self@),
            forall|k: int| 0 <= k < r@.len() ==> (#[trigger] r@[k]).wf() && r@[k].syntax.tree == self.syntax.tree,
        decreases self.syntax.tree@.len() - self@, 1int,
    {
        let r: Vec<Var<'a>> = Vec::new();
        assert(positions(r@) =~= Seq::<usize>::empty());
        r
    }
}

impl<'a> PrefixedName<'a> {
    /// The variables visible in the node.
    pub fn visible_variables(&self) -> (r: Vec<Var<'a>>)
        requires
            self.wf(),
        ensures
            positions(r@) == visible(self.syntax.tree@, self@),
            forall|k: int| 0 <= k < r@.len() ==> (#[trigger] r@[k]).wf() && r@[k].syntax.tree == self.syntax.tree,
        decreases self.syntax.tree@.len() - self@, 1int,
    {
        let r: Vec<Var<'a>> = Vec::new();
        assert(positions(r@) =~= Seq::<usize>::empty());
        r
    }
}

impl<'a> Path<'a> {
    /// The variables visible in the node.
    pub fn visible_variables(&self) -> (r: Vec<Var<'a>>)
        requires
            self.wf(),
        ensures
            positions(r@) == visible(self.syntax.tree@, self@),
            forall|k: int| 0 <= k < r@.len() ==> (#[trigger] r@[k]).wf() && r@[k].syntax.tree == self.syntax.tree,
        decreases self.syntax.tree@.len() - self@, 1int,
    {
        let r: Vec<Var<'a>> = Vec::new();
        assert(positions(r@) =~= Seq::<usize>::empty());
        r
    }
}

impl<'a> Prologue<'a> {
    /// The variables visible in the node.
    pub fn visible_variables(&self) -> (r: Vec<Var<'a>>)
        requires
            self.wf(),
        ensures
            positions(r@) == visible(self.syntax.tree@, self@),
            forall|k: int| 0 <= k < r@.len() ==> (#[trigger] r@[k]).wf() && r@[k].syntax.tree == self.syntax.tree,
        decreases self.syntax.tree@.len() - self@, 1int,
    {
        let r: Vec<Var<'a>> = Vec::new();
        assert(positions(r@) =~= Seq::<usize>::empty());
        r
    }
}

impl<'a> SolutionModifier<'a> {
    /// The variables visible in the node.
    pub fn visible_variables(&self) -> (r: Vec<Var<'a>>)
        requires
            self.wf(),
        ensures
            positions(r@) == visible(self.syntax.tree@, self@),
            forall|k: int| 0 <= k < r@.len() ==> (#[trigger] r@[k]).wf() && r@[k].syntax.tree == self.syntax.tree,
        decreases self.syntax.tree@.len() - self@, 1int,
    {
        let r: Vec<Var<'a>> = Vec::new();
        assert(positions(r@) =~= Seq::<usize>::empty());
        r
    }
}

impl<'a> PrefixDeclaration<'a> {
    /// The variables visible in the node.
    pub fn visible_variables(&self) -> (r: Vec<Var<'a>>)
        requires
            self.wf(),
        ensures
            positions(r@) == visible(self.syntax.tree@, self@),
            forall|k: int| 0 <= k < r@.len() ==> (#[trigger] r@[k]).wf() && r@[k].syntax.tree == self.syntax.tree,
        decreases self.syntax.tree@.len() - self@, 1int,
    {
        let r: Vec<Var<'a>> = Vec::new();
        assert(positions(r@) =~= Seq::<usize>::empty());
        r
    }
}

impl<'a> ObjectList<'a> {
    /// The variables visible in the node.
    pub fn visible_variables(&self) -> (r: Vec<Var<'a>>)
        requires
            self.wf(),
        ensures
            positions(r@) == visible(self.syntax.tree@, self@),
            forall|k: int| 0 <= k < r@.len() ==> (#[trigger] r@[k]).wf() && r@[k].syntax.tree == self.syntax.tree,
        decreases self.syntax.tree@.len() - self@, 1int,
    {
        vars_within(self.syntax)
    }
}

impl<'a> BlankPropertyList<'a> {
    /// The variables visible in the node.
    pub fn visible_variables(&self) -> (r: Vec<Var<'a>>)
        requires
            self.wf(),
        ensures
            positions(r@) == visible(self.syntax.tree@, self@),
            forall|k: int| 0 <= k < r@.len() ==> (#[trigger] r@[k]).wf() && r@[k].syntax.tree == self.syntax.tree,
        decreases self.syntax.tree@.len() - self@, 1int,
    {
        vars_within(self.syntax)
    }
}

impl<'a> PropertyListPath<'a> {
    /// The variables visible in the node.
    pub fn visible_variables(&self) -> (r: Vec<Var<'a>>)
        requires
            self.wf(),
        ensures
            positions(r@) == visible(self.syntax.tree@, self@),
            forall|k: int| 0 <= k < r@.len() ==> (#[trigger] r@[k]).wf() && r@[k].syntax.tree == self.syntax.tree,
        decreases self.syntax.tree@.len() - self@, 1int,
    {
        vars_within(self.syntax)
    }
}

impl<'a> Triple<'a> {
    /// The variables visible in the node.
    pub fn visible_variables(&self) -> (r: Vec<Var<'a>>)
        requires
            self.wf(),
        ensures
            positions(r@) == visible(self.syntax.tree@, self@),
            forall|k: int| 0 <= k < r@.len() ==> (#[trigger] r@[k]).wf() && r@[k].syntax.tree == self.syntax.tree,
        decreases self.syntax.tree@.len() - self@, 1int,
    {
        vars_within(self.syntax)
    }
}

impl<'a> TriplesBlock<'a> {
    /// The variables visible in the node.
    pub fn visible_variables(&self) -> (r: Vec<Var<'a>>)
        requires
            self.wf(),
        ensures
            positions(r@) == visible(self.syntax.tree@, self@),
            forall|k: int| 0 <= k < r@.len() ==> (#[trigger] r@[k]).wf() && r@[k].syntax.tree == self.syntax.tree,
        decreases self.syntax.tree@.len() - self@, 1int,
    {
        vars_within(self.syntax)
    }
}

impl<'a> Filter<'a> {
    /// The variables visible in the node.
    pub fn visible_variables(&self) -> (r: Vec<Var<'a>>)
        requires
            self.wf(),
        ensures
            positions(r@) == visible(self.syntax.tree@, self@),
            forall|k: int| 0 <= k < r@.len() ==> (#[trigger] r@[k]).wf() && r@[k].syntax.tree == self.syntax.tree,
        decreases self.syntax.tree@.len() - self@, 1int,
    {
        vars_within(self.syntax)
    }
}

impl<'a> InlineData<'a> {
    /// The variables visible in the node.
    pub fn visible_variables(&self) -> (r: Vec<Var<'a>>)
        requires
            self.wf(),
        ensures
            positions(r@) == visible(self.syntax.tree@, self@),
            forall|k: int| 0 <= k < r@.len() ==> (#[trigger] r@[k]).wf() && r@[k].syntax.tree == self.syntax.tree,
        decreases self.syntax.tree@.len() - self@, 1int,
    {
        vars_within(self.syntax)
    }
}

impl<'a> Bind<'a> {
    /// The variables visible in the node.
    pub fn visible_variables(&self) -> (r: Vec<Var<'a>>)
        requires
            self.wf(),
        ensures
            positions(r@) == visible(self.syntax.tree@, self@),
            forall|k: int| 0 <= k < r@.len() ==> (#[trigger] r@[k]).wf() && r@[k].syntax.tree == self.syntax.tree,
        decreases self.syntax.tree@.len() - self@, 1int,
    {
        var_list(self.syntax.last_child())
    }
}

impl<'a> SelectClause<'a> {
    /// The variables visible in the node.
    pub fn visible_variables(&self) -> (r: Vec<Var<'a>>)
        requires
            self.wf(),
        ensures
            positions(r@) == visible(self.syntax.tree@, self@),
            forall|k: int| 0 <= k < r@.len() ==> (#[trigger] r@[k]).wf() && r@[k].syntax.tree == self.syntax.tree,
        decreases self.syntax.tree@.len() - self@, 1int,
    {
        let r = self.variables();
        proof {
            let n = self.syntax.tree.elements.len();
            lemma_matching_children(self.syntax.tree@, self@, seq![SyntaxKind::Var], positions(r@));
        }
        r
    }
}

impl<'a> WhereClause<'a> {
    /// The variables visible in the node.
    pub fn visible_variables(&self) -> (r: Vec<Var<'a>>)
        requires
            self.wf(),
        ensures
            positions(r@) == visible(self.syntax.tree@, self@),
            forall|k: int| 0 <= k < r@.len() ==> (#[trigger] r@[k]).wf() && r@[k].syntax.tree == self.syntax.tree,
        decreases self.syntax.tree@.len() - self@, 1int,
    {
        match self.group_graph_pattern() {
            Some(g) => g.visible_variables(),
            None => {
                let r: Vec<Var<'a>> = Vec::new();
                assert(positions(r@) =~= Seq::<usize>::empty());
                r
            },
        }
    }
}

impl<'a> OptionalGraphPattern<'a> {
    /// The variables visible in the node.
    pub fn visible_variables(&self) -> (r: Vec<Var<'a>>)
        requires
            self.wf(),
        ensures
            positions(r@) == visible(self.syntax.tree@, self@),
            forall|k: int| 0 <= k < r@.len() ==> (#[trigger] r@[k]).wf() && r@[k].syntax.tree == self.syntax.tree,
        decreases self.syntax.tree@.len() - self@, 1int,
    {
        match self.group_graph_pattern() {
            Some(g) => g.visible_variables(),
            None => {
                let r: Vec<Var<'a>> = Vec::new();
                assert(positions(r@) =~= Seq::<usize>::empty());
                r
            },
        }
    }
}

impl<'a> MinusGraphPattern<'a> {
    /// The variables visible in the node.
    pub fn visible_variables(&self) -> (r: Vec<Var<'a>>)
        requires
            self.wf(),
        ensures
            positions(r@) == visible(self.syntax.tree@, self@),
            forall|k: int| 0 <= k < r@.len() ==> (#[trigger] r@[k]).wf() && r@[k].syntax.tree == self.syntax.tree,
        decreases self.syntax.tree@.len() - self@, 1int,
    {
        match self.group_graph_pattern() {
            Some(g) => g.visible_variables(),
            None => {
                let r: Vec<Var<'a>> = Vec::new();
                assert(positions(r@) =~= Seq::<usize>::empty());
                r
            },
        }
    }
}

impl<'a> GraphGraphPattern<'a> {
    /// The variables visible in the node.
    pub fn visible_variables(&self) -> (r: Vec<Var<'a>>)
        requires
            self.wf(),
        ensures
            positions(r@) == visible(self.syntax.tree@, self@),
            forall|k: int| 0 <= k < r@.len() ==> (#[trigger] r@[k]).wf() && r@[k].syntax.tree == self.syntax.tree,
        decreases self.syntax.tree@.len() - self@, 1int,
    {
        match self.group_graph_pattern() {
            Some(g) => g.visible_variables(),
            None => {
                let r: Vec<Var<'a>> = Vec::new();
                assert(positions(r@) =~= Seq::<usize>::empty());
                r
            },
        }
    }
}

impl<'a> ServiceGraphPattern<'a> {
    /// The variables visible in the node.
    pub fn visible_variables(&self) -> (r: Vec<Var<'a>>)
        requires
            self.wf(),
        ensures
            positions(r@) == visible(self.syntax.tree@, self@),
            forall|k: int| 0 <= k < r@.len() ==> (#[trigger] r@[k]).wf() && r@[k].syntax.tree == self.syntax.tree,
        decreases self.syntax.tree@.len() - self@, 1int,
    {
        match self.group_graph_pattern() {
            Some(g) => g.visible_variables(),
            None => {
                let r: Vec<Var<'a>> = Vec::new();
                assert(positions(r@) =~= Seq::<usize>::empty());
                r
            },
        }
    }
}

impl<'a> QueryUnit<'a> {
    /// The variables visible in the node.
    pub fn visible_variables(&self) -> (r: Vec<Var<'a>>)
        requires
            self.wf(),
        ensures
            positions(r@) == visible(self.syntax.tree@, self@),
            forall|k: int| 0 <= k < r@.len() ==> (#[trigger] r@[k]).wf() && r@[k].syntax.tree == self.syntax.tree,
        decreases self.syntax.tree@.len() - self@, 1int,
    {
        match self.select_query() {
            Some(q) => q.visible_variables(),
            None => {
                let r: Vec<Var<'a>> = Vec::new();
                assert(positions(r@) =~= Seq::<usize>::empty());
                r
            },
        }
    }
}

impl<'a> SelectQuery<'a> {
    /// The variables visible in the node.
    pub fn visible_variables(&self) -> (r: Vec<Var<'a>>)
        requires
            self.wf(),
        ensures
            positions(r@) == visible(self.syntax.tree@, self@),
            forall|k: int| 0 <= k < r@.len() ==> (#[trigger] r@[k]).wf() && r@[k].syntax.tree == self.syntax.tree,
        decreases self.syntax.tree@.len() - self@, 1int,
    {
        let empty: Vec<Var<'a>> = Vec::new();
        assert(positions(empty@) =~= Seq::<usize>::empty());
        let clause = match self.select_clause() {
            Some(c) => c,
            None => return empty,
        };
        let last = first_token_if(clause.syntax, clause.syntax.last_child_element(), SyntaxKind::Star);
        if last.is_some() {
            match self.where_clause() {
                Some(w) => w.visible_variables(),
                None => empty,
            }
        } else {
            clause.visible_variables()
        }
    }
}

impl<'a> GroupOrUnionGraphPattern<'a> {
    /// The variables visible in the node.
    pub fn visible_variables(&self) -> (r: Vec<Var<'a>>)
        requires
            self.wf(),
        ensures
            positions(r@) == visible(self.syntax.tree@, self@),
            forall|k: int| 0 <= k < r@.len() ==> (#[trigger] r@[k]).wf() && r@[k].syntax.tree == self.syntax.tree,
        decreases self.syntax.tree@.len() - self@, 1int,
    {
        let ghost es = self.syntax.tree@;
        let n = self.syntax.tree.elements.len();
        let patterns = self.group_graph_patterns();
        let ghost cs = positions(patterns@);
        proof {
            lemma_matching_children(es, self@, seq![SyntaxKind::GroupGraphPattern], cs);
            assert(cs.take(0) =~= Seq::<usize>::empty());
        }
        let mut r: Vec<Var<'a>> = Vec::new();
        let mut k: usize = 0;
        assert(positions(r@) =~= Seq::<usize>::empty());
        while k < patterns.len()
            invariant
                self.wf(),
                es == self.syntax.tree@,
                cs == positions(patterns@),
                lists_matching(es, self@, cs, seq![SyntaxKind::GroupGraphPattern]),
                forall|j: int| 0 <= j < patterns@.len() ==> (#[trigger] patterns@[j]).wf() && patterns@[j].syntax.tree == self.syntax.tree,
                k <= patterns.len(),
                positions(r@) == visible_all(es, self@, cs.take(k as int), false),
                es.len() == n,
                forall|j: int| 0 <= j < r@.len() ==> (#[trigger] r@[j]).wf() && r@[j].syntax.tree == self.syntax.tree,
            decreases patterns.len() - k,
        {
            let g = patterns[k];
            proof {
                assert(cs.take(k + 1).drop_last() =~= cs.take(k as int));
                assert(cs.take(k + 1).last() == cs[k as int]);
                assert(cs[k as int] as int == g@);
                assert(child_matches(es, self@, cs[k as int] as int, Some(seq![SyntaxKind::GroupGraphPattern])));
            }
            let mut vars = g.visible_variables();
            let ghost before = r@;
            let ghost added = vars@;
            r.append(&mut vars);
            proof {
                let gp = cs[k as int] as int;
                assert(gp == g@);
                assert(is_child(es, self@, gp));
                assert(child_visible(es, self@, gp, false) == visible(es, gp));
                assert(visible_all(es, self@, cs.take(k + 1), false) == visible_all(es, self@, cs.take(k as int), false)
                    + child_visible(es, self@, gp, false));
                lemma_positions_append(before, added);
                assert forall|j: int| 0 <= j < r@.len() implies (#[trigger] r@[j]).wf() && r@[j].syntax.tree
                    == self.syntax.tree by {
                    if j >= before.len() {
                        assert(r@[j] == added[j - before.len()]);
                    } else {
                        assert(r@[j] == before[j]);
                    }
                }
            }
            k = k + 1;
        }
        proof {
            assert(cs.take(k as int) =~= cs);
        }
        r
    }
}

impl<'a> GroupGraphPattern<'a> {
    /// The variables visible in the node.
    pub fn visible_variables(&self) -> (r: Vec<Var<'a>>)
        requires
            self.wf(),
        ensures
            positions(r@) == visible(self.syntax.tree@, self@),
            forall|k: int| 0 <= k < r@.len() ==> (#[trigger] r@[k]).wf() && r@[k].syntax.tree == self.syntax.tree,
        decreases self.syntax.tree@.len() - self@, 1int,
    {
        let ghost es = self.syntax.tree@;
        match self.sub_select() {
            Some(q) => {
                return q.visible_variables();
            },
            None => {},
        }
        let mut r: Vec<Var<'a>> = Vec::new();
        assert(positions(r@) =~= Seq::<usize>::empty());
        let first = match self.syntax.first_child() {
            Some(f) => f,
            None => return r,
        };
        let children = first.children();
        let ghost cs = node_indices(children@);
        let mut k: usize = 0;
        proof {
            assert(cs.take(0) =~= Seq::<usize>::empty());
        }
        while k < children.len()
            invariant
                es == self.syntax.tree@,
                first.wf(),
                first.tree == self.syntax.tree,
                self@ < first.index,
                cs == node_indices(children@),
                lists_children(es, first.index as int, cs, true),
                forall|j: int| 0 <= j < children@.len() ==> (#[trigger] children@[j]).tree == self.syntax.tree && children@[j].wf(),
                k <= children.len(),
                positions(r@) == visible_all(es, first.index as int, cs.take(k as int), true),
                forall|j: int| 0 <= j < r@.len() ==> (#[trigger] r@[j]).wf() && r@[j].syntax.tree == self.syntax.tree,
            decreases children.len() - k,
        {
            let c = children[k];
            proof {
                assert(cs.take(k + 1).drop_last() =~= cs.take(k as int));
                assert(cs.take(k + 1).last() == cs[k as int]);
                assert(cs[k as int] == c.index);
                assert(is_child(es, first.index as int, c.index as int));
            }
            let ghost before = r@;
            let mut vars = group_child_variables(first, c);
            let ghost added = vars@;
            r.append(&mut vars);
            proof {
                lemma_positions_append(before, added);
                assert forall|j: int| 0 <= j < r@.len() implies (#[trigger] r@[j]).wf() && r@[j].syntax.tree
                    == self.syntax.tree by {
                    if j >= before.len() {
                        assert(r@[j] == added[j - before.len()]);
                    } else {
                        assert(r@[j] == before[j]);
                    }
                }
            }
            k = k + 1;
        }
        proof {
            assert(cs.take(k as int) =~= cs);
            assert(child_nodes(es, first.index as int) == cs);
        }
        r
    }
}

/// The variables visible in child `c` of the first child `first` of a group
/// graph pattern.
fn group_child_variables<'a>(first: SyntaxNode<'a>, c: SyntaxNode<'a>) -> (r: Vec<Var<'a>>)
    requires
        first.wf(),
        c.wf(),
        c.tree == first.tree,
        first.index < c.index,
    ensures
        positions(r@) == child_visible(first.tree@, first.index as int, c.index as int, true),
        forall|k: int| 0 <= k < r@.len() ==> (#[trigger] r@[k]).wf() && r@[k].syntax.tree == first.tree,
    decreases first.tree@.len() - first.index, 0int,
{
    let kind = c.kind();
    if kind == SyntaxKind::TriplesBlock {
        (TriplesBlock { syntax: c }).visible_variables()
    } else if kind == SyntaxKind::GraphPatternNotTriples {
        match GraphPatternNotTriples::cast(c) {
            Some(pattern) => pattern.visible_variables(),
            None => {
                let r: Vec<Var<'a>> = Vec::new();
                assert(positions(r@) =~= Seq::<usize>::empty());
                r
            },
        }
    } else {
        let r: Vec<Var<'a>> = Vec::new();
        assert(positions(r@) =~= Seq::<usize>::empty());
        r
    }
}


impl<'a> GraphPatternNotTriples<'a> {
    /// The variables visible in the node.
    pub fn visible_variables(&self) -> (r: Vec<Var<'a>>)
        requires
            self.wf(),
        ensures
            positions(r@) == visible(self.node().tree@, self@),
            forall|k: int| 0 <= k < r@.len() ==> (#[trigger] r@[k]).wf() && r@[k].syntax.tree == self.node().tree,
        decreases self.node().tree@.len() - self@, 2int,
    {
        match self {
            GraphPatternNotTriples::GroupOrUnionGraphPattern(x) => x.visible_variables(),
            GraphPatternNotTriples::OptionalGraphPattern(x) => x.visible_variables(),
            GraphPatternNotTriples::MinusGraphPattern(x) => x.visible_variables(),
            GraphPatternNotTriples::GraphGraphPattern(x) => x.visible_variables(),
            GraphPatternNotTriples::ServiceGraphPattern(x) => x.visible_variables(),
            GraphPatternNotTriples::Filter(x) => x.visible_variables(),
            GraphPatternNotTriples::Bind(x) => x.visible_variables(),
            GraphPatternNotTriples::InlineData(x) => x.visible_variables(),
        }
    }
}

impl<'a> Triples<'a> {
    /// The subject: the first child node, if it is a variable or term.
    pub fn subject(&self) -> (r: Option<VarOrTerm<'a>>)
        requires
            self.wf(),
        ensures
            opt_pos(r) == kind_filtered(
                self.syntax.tree@,
                first_child_matching(self.syntax.tree@, self@, None),
                |k: SyntaxKind| is_var_or_term_kind(k),
            ),
            r matches Some(x) ==> x.wf() && x.syntax.tree == self.syntax.tree,
    {
        match self.syntax.first_child() {
            Some(n) => VarOrTerm::cast(n),
            None => None,
        }
    }

    /// The triples block the triples are part of: the outermost of the
    /// blocks that directly nest around them.
    pub fn triples_block(&self) -> (r: Option<TriplesBlock<'a>>)
        requires
            self.wf(),
        ensures
            opt_pos(r) == outermost_block(self.syntax.tree@, self@),
            r matches Some(x) ==> x.wf() && x.syntax.tree == self.syntax.tree,
    {
        (Triple { syntax: self.syntax }).triples_block()
    }
}

impl<'a> GraphPatternNotTriples<'a> {
    /// The graph pattern inside: a filter, a bind or inline data has none.
    /// The other kinds of pattern are left out.
    pub fn group_graph_pattern(&self) -> (r: Option<GraphGraphPattern<'a>>)
        requires
            self is Filter || self is Bind || self is InlineData,
        ensures
            r is None,
    {
        None
    }
}

/// Whether the text holds a `:`.
fn has_colon(s: &str) -> (r: bool)
    ensures
        r == s@.contains(':'),
{
    let cs = crate::lexer::chars_of(s);
    let mut i: usize = 0;
    while i < cs.len()
        invariant
            cs@ == s@,
            i <= cs.len(),
            forall|j: int| 0 <= j < i ==> cs@[j] != ':',
        decreases cs.len() - i,
    {
        if cs[i] == ':' {
            assert(s@[i as int] == ':');
            return true;
        }
        i = i + 1;
    }
    false
}

impl<'a> Var<'a> {
    /// The name of the variable, if its text starts with a one-byte
    /// character, as every lexed variable does; `None` otherwise.
    pub fn checked_var_name(&self) -> (r: Option<String>)
        requires
            self.wf(),
        ensures
            (node_text(self.syntax.tree@, self@).len() > 0 && (node_text(self.syntax.tree@, self@)[0] as u32) < 128)
                ==> (r matches Some(n) && n@ == without_first(node_text(self.syntax.tree@, self@))),
            !(node_text(self.syntax.tree@, self@).len() > 0 && (node_text(self.syntax.tree@, self@)[0] as u32)
                < 128) ==> r is None,
    {
        let text = self.syntax.text();
        let cs = crate::lexer::chars_of(text.as_str());
        if cs.len() > 0 && (cs[0] as u32) < 128 {
            Some(self.var_name())
        } else {
            None
        }
    }
}

impl<'a> PrefixedName<'a> {
    /// The prefix and the local name, if the name holds a `:`, as every
    /// lexed prefixed name does; `None` otherwise.
    pub fn checked_parts(&self) -> (r: Option<(String, String)>)
        requires
            self.wf(),
        ensures
            node_text(self.syntax.tree@, self@).contains(':') ==> (r matches Some(x) && x.0@ == before_colon(
                node_text(self.syntax.tree@, self@),
            ) && x.1@ == after_colon(node_text(self.syntax.tree@, self@))),
            !node_text(self.syntax.tree@, self@).contains(':') ==> r is None,
    {
        let text = self.syntax.text();
        if has_colon(text.as_str()) {
            Some((self.prefix(), self.name()))
        } else {
            None
        }
    }
}

impl<'a> PrefixDeclaration<'a> {
    /// The declared prefix, if the declaration has a `PNAME_NS` token that
    /// holds a `:`, as every lexed one does; `None` otherwise.
    pub fn checked_prefix(&self) -> (r: Option<String>)
        requires
            self.wf(),
        ensures
            match first_token_child(self.syntax.tree@, self@, SyntaxKind::PNAME_NS) {
                Some(c) => if token_text(self.syntax.tree@, c).contains(':') {
                    r matches Some(x) && x@ == before_colon(token_text(self.syntax.tree@, c))
                } else {
                    r is None
                },
                None => r is None,
            },
    {
        match self.syntax.first_token_of_kind(SyntaxKind::PNAME_NS) {
            Some(t) => {
                let text = t.text();
                if has_colon(text.as_str()) {
                    self.prefix()
                } else {
                    None
                }
            },
            None => None,
        }
    }
}

} // verus!
