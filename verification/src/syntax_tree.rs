//! The concrete syntax tree.
//!
//! A tree is kept as the list of its elements in preorder: `Start` opens a
//! node of some kind, `Token` is a leaf, and `Finish` closes the innermost
//! node that is still open. A node is named by the index of its `Start`.
//! The tree is lossless: its tokens, in order, are all tokens of the input,
//! whitespace and comments included.

use vstd::prelude::*;

use crate::lexer::Span;
use crate::parser::Token;
use crate::syntax_kind::SyntaxKind;

verus! {

/// One element of a tree written out in preorder; a token comes with its
/// byte range in the input.
pub enum Element {
    Start(SyntaxKind),
    Token(Token, Span),
    Finish,
}

/// The open nodes after one more element at position `index`; `None` once a
/// `Finish` has no node to close.
pub open spec fn open_step(st: Option<Seq<int>>, e: Element, index: int) -> Option<Seq<int>> {
    match st {
        None => None,
        Some(s) => match e {
            Element::Start(_) => Some(s.push(index)),
            Element::Finish => if s.len() > 0 {
                Some(s.drop_last())
            } else {
                None
            },
            Element::Token(..) => Some(s),
        },
    }
}

/// The positions of the nodes that are still open after the elements,
/// outermost first.
pub open spec fn open_nodes(es: Seq<Element>) -> Option<Seq<int>>
    decreases es.len(),
{
    if es.len() == 0 {
        Some(Seq::empty())
    } else {
        open_step(open_nodes(es.drop_last()), es.last(), es.len() - 1)
    }
}

/// The nodes that enclose the element at position `m`, outermost first.
pub open spec fn enclosing(es: Seq<Element>, m: int) -> Seq<int> {
    open_nodes(es.take(m)).unwrap()
}

/// One root node that spans all elements; every `Finish` closes a node.
pub open spec fn well_formed(es: Seq<Element>) -> bool {
    &&& es.len() >= 2
    &&& es[0] is Start
    &&& open_nodes(es) == Some(Seq::<int>::empty())
    &&& forall|m: int|
        #![trigger open_nodes(es.take(m))]
        0 < m < es.len() ==> open_nodes(es.take(m)) is Some && enclosing(es, m).len() >= 1
            && enclosing(es, m)[0] == 0
}

/// Element `m` lies inside node `i` (its own `Finish` included).
pub open spec fn within(es: Seq<Element>, i: int, m: int) -> bool {
    i < m < es.len() && enclosing(es, m).contains(i)
}

/// Element `m` is a child of node `i`: a node or a token right below it.
pub open spec fn is_child(es: Seq<Element>, i: int, m: int) -> bool {
    &&& 0 <= i < m < es.len()
    &&& !(es[m] is Finish)
    &&& enclosing(es, m).len() > 0
    &&& enclosing(es, m).last() == i
}

/// Element `m` is a node.
pub open spec fn is_node(es: Seq<Element>, m: int) -> bool {
    0 <= m < es.len() && es[m] is Start
}

/// The kind of the node at `m`.
pub open spec fn node_kind(es: Seq<Element>, m: int) -> SyntaxKind {
    es[m]->Start_0
}

/// The text of an element that is a token, empty for the others.
pub open spec fn element_text(e: Element) -> Seq<char> {
    match e {
        Element::Token(t, _) => t.text@,
        _ => Seq::empty(),
    }
}

/// The texts of the tokens among the first `b` elements that lie inside
/// node `i`.
pub open spec fn text_upto(es: Seq<Element>, i: int, b: int) -> Seq<char>
    decreases b,
{
    if b <= 0 {
        Seq::empty()
    } else if within(es, i, b - 1) {
        text_upto(es, i, b - 1) + element_text(es[b - 1])
    } else {
        text_upto(es, i, b - 1)
    }
}

/// The text of node `i`: the texts of its tokens, in order.
pub open spec fn node_text(es: Seq<Element>, i: int) -> Seq<char> {
    text_upto(es, i, es.len() as int)
}

/// The texts of all tokens of the elements, in order.
pub open spec fn all_text(es: Seq<Element>) -> Seq<char>
    decreases es.len(),
{
    if es.len() == 0 {
        Seq::empty()
    } else {
        all_text(es.drop_last()) + element_text(es.last())
    }
}

pub proof fn lemma_open_nodes_push(es: Seq<Element>, e: Element)
    ensures
        open_nodes(es.push(e)) == open_step(open_nodes(es), e, es.len() as int),
        all_text(es.push(e)) == all_text(es) + element_text(e),
{
    assert(es.push(e).drop_last() =~= es);
}

pub proof fn lemma_take_next(es: Seq<Element>, m: int)
    requires
        0 <= m < es.len(),
    ensures
        open_nodes(es.take(m + 1)) == open_step(open_nodes(es.take(m)), es[m], m),
{
    assert(es.take(m + 1).drop_last() =~= es.take(m));
}

pub proof fn lemma_take_push(es: Seq<Element>, e: Element, m: int)
    requires
        0 <= m <= es.len(),
    ensures
        es.push(e).take(m) == es.take(m),
{
    assert(es.push(e).take(m) =~= es.take(m));
}

/// The open nodes are `Start` elements in increasing positions.
pub proof fn lemma_open_nodes_starts(es: Seq<Element>)
    requires
        open_nodes(es) is Some,
    ensures
        ({
            let s = open_nodes(es).unwrap();
            &&& forall|j: int| 0 <= j < s.len() ==> 0 <= #[trigger] s[j] < es.len() && es[s[j]] is Start
            &&& forall|j: int, k: int| 0 <= j < k < s.len() ==> #[trigger] s[j] < #[trigger] s[k]
        }),
    decreases es.len(),
{
    if es.len() > 0 {
        let p = es.drop_last();
        assert(open_nodes(p) is Some);
        lemma_open_nodes_starts(p);
    }
}

/// The nodes enclosing element `m` start before it.
pub proof fn lemma_enclosing_starts(es: Seq<Element>, m: int)
    requires
        0 <= m <= es.len(),
        open_nodes(es.take(m)) is Some,
    ensures
        forall|j: int|
            0 <= j < enclosing(es, m).len() ==> 0 <= #[trigger] enclosing(es, m)[j] < m
                && es[enclosing(es, m)[j]] is Start,
        forall|j: int, k: int|
            0 <= j < k < enclosing(es, m).len() ==> #[trigger] enclosing(es, m)[j]
                < #[trigger] enclosing(es, m)[k],
{
    lemma_open_nodes_starts(es.take(m));
    assert forall|j: int| 0 <= j < enclosing(es, m).len() implies 0 <= #[trigger] enclosing(es, m)[j] < m
        && es[enclosing(es, m)[j]] is Start by {
        assert(es.take(m)[enclosing(es, m)[j]] == es[enclosing(es, m)[j]]);
    }
}

/// Once a node has been closed it never encloses a later element.
pub proof fn lemma_closed_for_good(es: Seq<Element>, i: int, a: int, b: int)
    requires
        0 <= i < a <= b <= es.len(),
        open_nodes(es.take(b)) is Some,
        !enclosing(es, a).contains(i),
    ensures
        !enclosing(es, b).contains(i),
    decreases b - a,
{
    if a < b {
        lemma_take_next(es, b - 1);
        assert(open_nodes(es.take(b - 1)) is Some);
        lemma_closed_for_good(es, i, a, b - 1);
        let s = enclosing(es, b - 1);
        let t = enclosing(es, b);
        assert forall|j: int| 0 <= j < t.len() implies t[j] != i by {
            if j < s.len() {
                assert(t[j] == s[j]);
                assert(!s.contains(i));
                if s[j] == i {
                    assert(s.contains(i));
                }
            }
        }
    }
}

/// Every prefix of a well-formed tree nests properly.
pub proof fn lemma_well_formed_prefix(es: Seq<Element>, m: int)
    requires
        well_formed(es),
        0 <= m <= es.len(),
    ensures
        open_nodes(es.take(m)) is Some,
{
    if m == 0 {
        assert(es.take(0) =~= Seq::<Element>::empty());
    } else if m == es.len() {
        assert(es.take(m) =~= es);
    } else {
        assert(open_nodes(es.take(m)) is Some);
    }
}

/// `r` lists, in order, the children of node `i` (only the child nodes when
/// `nodes_only`).
pub open spec fn lists_children(es: Seq<Element>, i: int, r: Seq<usize>, nodes_only: bool) -> bool {
    &&& forall|k: int|
        0 <= k < r.len() ==> is_child(es, i, #[trigger] r[k] as int) && (nodes_only ==> es[r[k] as int] is Start)
    &&& forall|a: int, b: int| 0 <= a < b < r.len() ==> #[trigger] r[a] < #[trigger] r[b]
    &&& forall|m: int|
        #[trigger] is_child(es, i, m) && (nodes_only ==> es[m] is Start) ==> exists|k: int|
            0 <= k < r.len() && r[k] == m
}

/// Element `c` is a child node of `i` whose kind is among `kinds` (any kind
/// when `kinds` is `None`).
pub open spec fn child_matches(es: Seq<Element>, i: int, c: int, kinds: Option<Seq<SyntaxKind>>) -> bool {
    &&& is_child(es, i, c)
    &&& es[c] is Start
    &&& match kinds {
        None => true,
        Some(ks) => ks.contains(node_kind(es, c)),
    }
}

/// The kinds of a filter, `None` for no filter.
pub open spec fn kinds_view(kinds: Option<&[SyntaxKind]>) -> Option<Seq<SyntaxKind>> {
    match kinds {
        Some(ks) => Some(ks@),
        None => None,
    }
}

/// The first child node of `i` whose kind is among `kinds`.
#[verifier::opaque]
pub open spec fn first_child_matching(es: Seq<Element>, i: int, kinds: Option<Seq<SyntaxKind>>) -> Option<int> {
    if exists|c: int| child_matches(es, i, c, kinds) {
        Some(
            choose|c: int|
                child_matches(es, i, c, kinds) && forall|d: int| #[trigger]
                    child_matches(es, i, d, kinds) ==> c <= d,
        )
    } else {
        None
    }
}

/// The last child node of `i`.
#[verifier::opaque]
pub open spec fn last_child_node(es: Seq<Element>, i: int) -> Option<int> {
    if exists|c: int| child_matches(es, i, c, None) {
        Some(
            choose|c: int|
                child_matches(es, i, c, None) && forall|d: int| #[trigger]
                    child_matches(es, i, d, None) ==> d <= c,
        )
    } else {
        None
    }
}

/// Element `c` is a child token of `i` of the given kind.
pub open spec fn token_child(es: Seq<Element>, i: int, c: int, kind: SyntaxKind) -> bool {
    &&& is_child(es, i, c)
    &&& es[c] matches Element::Token(t, _) && t.kind == kind
}

/// The first child token of `i` of the given kind.
#[verifier::opaque]
pub open spec fn first_token_child(es: Seq<Element>, i: int, kind: SyntaxKind) -> Option<int> {
    if exists|c: int| token_child(es, i, c, kind) {
        Some(
            choose|c: int|
                token_child(es, i, c, kind) && forall|d: int| #[trigger] token_child(es, i, d, kind) ==> c <= d,
        )
    } else {
        None
    }
}

/// The first child of `i`, node or token.
#[verifier::opaque]
pub open spec fn first_child_element(es: Seq<Element>, i: int) -> Option<int> {
    if exists|c: int| is_child(es, i, c) {
        Some(choose|c: int| is_child(es, i, c) && forall|d: int| #[trigger] is_child(es, i, d) ==> c <= d)
    } else {
        None
    }
}

/// A syntax tree, as the list of its elements in preorder.
pub struct SyntaxTree {
    pub elements: Vec<Element>,
}

impl View for SyntaxTree {
    type V = Seq<Element>;

    open spec fn view(&self) -> Seq<Element> {
        self.elements@
    }
}

impl SyntaxTree {
    pub open spec fn wf(&self) -> bool {
        well_formed(self@)
    }

    /// The positions of the children of node `i`, in order; only those of
    /// the child nodes when `nodes_only`.
    pub fn child_positions(&self, i: usize, nodes_only: bool) -> (r: Vec<usize>)
        requires
            self.wf(),
            is_node(self@, i as int),
        ensures
            lists_children(self@, i as int, r@, nodes_only),
    {
        let ghost es = self@;
        proof {
            lemma_well_formed_prefix(es, i as int);
            lemma_well_formed_prefix(es, i + 1);
            lemma_take_next(es, i as int);
            lemma_enclosing_starts(es, i as int);
        }
        let ghost base = enclosing(es, i as int);
        assert(enclosing(es, i + 1) == base.push(i as int));
        assert(i < self.elements.len());
        let mut r: Vec<usize> = Vec::new();
        let mut m: usize = i + 1;
        let mut depth: usize = 0;
        while m < self.elements.len()
            invariant
                self.wf(),
                es == self@,
                base == enclosing(es, i as int),
                forall|j: int| 0 <= j < base.len() ==> #[trigger] base[j] < i,
                i < m <= es.len(),
                depth <= m - i - 1,
                open_nodes(es.take(m as int)) is Some,
                enclosing(es, m as int).len() == base.len() + 1 + depth,
                enclosing(es, m as int).take(base.len() as int + 1) == base.push(i as int),
                forall|k: int|
                    0 <= k < r@.len() ==> is_child(es, i as int, #[trigger] r@[k] as int) && r@[k] < m
                        && (nodes_only ==> es[r@[k] as int] is Start),
                forall|a: int, b: int| 0 <= a < b < r@.len() ==> #[trigger] r@[a] < #[trigger] r@[b],
                forall|c: int|
                    i < c < m && #[trigger] is_child(es, i as int, c) && (nodes_only ==> es[c] is Start)
                        ==> exists|k: int| 0 <= k < r@.len() && r@[k] == c,
            ensures
                lists_children(es, i as int, r@, nodes_only),
            decreases es.len() - m,
        {
            let ghost r0 = r@;
            let ghost d0 = depth;
            proof {
                lemma_take_next(es, m as int);
                lemma_enclosing_starts(es, m as int);
                let e = enclosing(es, m as int);
                assert(e[base.len() as int] == i) by {
                    assert(e.take(base.len() as int + 1)[base.len() as int] == e[base.len() as int]);
                }
                if depth == 0 {
                    assert(e =~= base.push(i as int)) by {
                        assert(e.take(base.len() as int + 1) =~= e);
                    }
                } else {
                    assert(e.last() > i);
                }
            }
            match &self.elements[m] {
                Element::Start(_) => {
                    if depth == 0 {
                        r.push(m);
                    }
                    depth = depth + 1;
                    proof {
                        let e = enclosing(es, m as int);
                        assert(enclosing(es, m + 1) == e.push(m as int));
                        assert(e.push(m as int).take(base.len() as int + 1) =~= e.take(base.len() as int + 1));
                    }
                },
                Element::Token(..) => {
                    if depth == 0 && !nodes_only {
                        r.push(m);
                    }
                },
                Element::Finish => {
                    if depth == 0 {
                        proof {
                            assert(enclosing(es, m + 1) =~= base);
                            assert(!base.contains(i as int)) by {
                                if base.contains(i as int) {
                                    let j = choose|j: int| 0 <= j < base.len() && base[j] == i;
                                    assert(base[j] < i);
                                }
                            }
                            assert forall|c: int| #[trigger] is_child(es, i as int, c) implies c < m by {
                                if c > m {
                                    lemma_well_formed_prefix(es, c);
                                    lemma_closed_for_good(es, i as int, m + 1, c);
                                    assert(enclosing(es, c).contains(enclosing(es, c).last()));
                                }
                            }
                        }
                        break;
                    }
                    depth = depth - 1;
                    proof {
                        let e = enclosing(es, m as int);
                        assert(enclosing(es, m + 1) == e.drop_last());
                        assert(e.drop_last().take(base.len() as int + 1) =~= e.take(base.len() as int + 1));
                    }
                },
            }
            proof {
                assert(d0 == 0 ==> enclosing(es, m as int).last() == i);
                assert(d0 > 0 ==> enclosing(es, m as int).last() != i);
                assert forall|c: int|
                    i < c < m + 1 && #[trigger] is_child(es, i as int, c) && (nodes_only ==> es[c] is Start)
                        implies exists|k: int| 0 <= k < r@.len() && r@[k] == c by {
                    if c < m {
                        let k = choose|k: int| 0 <= k < r0.len() && r0[k] == c;
                        assert(r@[k] == r0[k]);
                    } else {
                        assert(r@[r@.len() - 1] == c);
                    }
                }
            }
            m = m + 1;
        }
        proof {
            if m == es.len() {
                assert(es.take(m as int) =~= es);
            }
        }
        r
    }

    /// The kind of node `i`.
    pub fn kind_of(&self, i: usize) -> (r: SyntaxKind)
        requires
            is_node(self@, i as int),
        ensures
            r == node_kind(self@, i as int),
    {
        match &self.elements[i] {
            Element::Start(kind) => *kind,
            _ => SyntaxKind::Error,
        }
    }

    /// The first child node of `i` whose kind is among `kinds` (any child
    /// node when `kinds` is `None`).
    pub fn first_child_matching(&self, i: usize, kinds: Option<&[SyntaxKind]>) -> (r: Option<usize>)
        requires
            self.wf(),
            is_node(self@, i as int),
        ensures
            match r {
                Some(c) => first_child_matching(self@, i as int, kinds_view(kinds)) == Some(c as int),
                None => first_child_matching(self@, i as int, kinds_view(kinds)) is None,
            },
            r matches Some(c) ==> is_child(self@, i as int, c as int) && is_node(self@, c as int),
            r matches Some(c) ==> (kinds matches Some(ks) ==> ks@.contains(node_kind(self@, c as int))),
    {
        let ghost es = self@;
        let ghost ks = kinds_view(kinds);
        let cs = self.child_positions(i, true);
        let mut k: usize = 0;
        while k < cs.len()
            invariant
                lists_children(es, i as int, cs@, true),
                es == self@,
                ks == kinds_view(kinds),
                k <= cs.len(),
                forall|j: int| 0 <= j < k ==> !child_matches(es, i as int, #[trigger] cs@[j] as int, ks),
            decreases cs.len() - k,
        {
            let c = cs[k];
            let hit = match kinds {
                None => true,
                Some(ks) => contains_kind(ks, self.kind_of(c)),
            };
            if hit {
                proof {
                    lemma_first_in_listing(es, i as int, cs@, k as int, ks);
                }
                return Some(c);
            }
            k = k + 1;
        }
        proof {
            lemma_none_in_listing(es, i as int, cs@, ks);
        }
        None
    }
}


impl SyntaxTree {
    /// The last child node of `i`.
    pub fn last_child_node(&self, i: usize) -> (r: Option<usize>)
        requires
            self.wf(),
            is_node(self@, i as int),
        ensures
            match r {
                Some(c) => last_child_node(self@, i as int) == Some(c as int),
                None => last_child_node(self@, i as int) is None,
            },
            r matches Some(c) ==> is_child(self@, i as int, c as int) && is_node(self@, c as int),
    {
        let cs = self.child_positions(i, true);
        proof {
            lemma_last_in_listing(self@, i as int, cs@);
        }
        if cs.len() == 0 {
            None
        } else {
            Some(cs[cs.len() - 1])
        }
    }

    /// The first child token of `i` of the given kind.
    pub fn first_token_child(&self, i: usize, kind: SyntaxKind) -> (r: Option<usize>)
        requires
            self.wf(),
            is_node(self@, i as int),
        ensures
            match r {
                Some(c) => first_token_child(self@, i as int, kind) == Some(c as int),
                None => first_token_child(self@, i as int, kind) is None,
            },
            r matches Some(c) ==> token_child(self@, i as int, c as int, kind),
    {
        let ghost es = self@;
        let cs = self.child_positions(i, false);
        let mut k: usize = 0;
        while k < cs.len()
            invariant
                lists_children(es, i as int, cs@, false),
                es == self@,
                k <= cs.len(),
                forall|j: int| 0 <= j < k ==> !token_child(es, i as int, #[trigger] cs@[j] as int, kind),
            decreases cs.len() - k,
        {
            let c = cs[k];
            let hit = match &self.elements[c] {
                Element::Token(t, _) => t.kind == kind,
                _ => false,
            };
            if hit {
                proof {
                    lemma_first_token_in_listing(es, i as int, cs@, k as int, kind);
                }
                return Some(c);
            }
            k = k + 1;
        }
        proof {
            lemma_no_token_in_listing(es, i as int, cs@, kind);
        }
        None
    }

    /// The first child of `i`, node or token.
    pub fn first_child_element(&self, i: usize) -> (r: Option<usize>)
        requires
            self.wf(),
            is_node(self@, i as int),
        ensures
            match r {
                Some(c) => first_child_element(self@, i as int) == Some(c as int),
                None => first_child_element(self@, i as int) is None,
            },
            r matches Some(c) ==> is_child(self@, i as int, c as int),
    {
        let cs = self.child_positions(i, false);
        proof {
            lemma_first_element_in_listing(self@, i as int, cs@);
        }
        if cs.len() == 0 {
            None
        } else {
            Some(cs[0])
        }
    }
}

impl SyntaxTree {
    /// The nodes enclosing element `m`, outermost first.
    pub fn enclosing_nodes(&self, m: usize) -> (r: Vec<usize>)
        requires
            self.wf(),
            m < self@.len(),
        ensures
            r@.len() == enclosing(self@, m as int).len(),
            forall|j: int| 0 <= j < r@.len() ==> #[trigger] r@[j] as int == enclosing(self@, m as int)[j],
    {
        let ghost es = self@;
        let mut stack: Vec<usize> = Vec::new();
        let mut k: usize = 0;
        proof {
            assert(es.take(0) =~= Seq::<Element>::empty());
        }
        while k < m
            invariant
                self.wf(),
                es == self@,
                k <= m < es.len(),
                open_nodes(es.take(k as int)) is Some,
                stack@.len() == enclosing(es, k as int).len(),
                forall|j: int| 0 <= j < stack@.len() ==> #[trigger] stack@[j] as int == enclosing(es, k as int)[j],
            decreases m - k,
        {
            proof {
                lemma_take_next(es, k as int);
                lemma_well_formed_prefix(es, k + 1);
            }
            let ghost before = stack@;
            match &self.elements[k] {
                Element::Start(_) => {
                    stack.push(k);
                },
                Element::Token(..) => {},
                Element::Finish => {
                    stack.pop();
                },
            }
            proof {
                assert forall|j: int| 0 <= j < stack@.len() implies #[trigger] stack@[j] as int == enclosing(es, k + 1)[j] by {
                    if j < before.len() {
                        assert(stack@[j] == before[j]);
                    }
                }
            }
            k = k + 1;
        }
        stack
    }

    /// The text of node `i`: the texts of its tokens, in order.
    pub fn text_of(&self, i: usize) -> (r: String)
        requires
            self.wf(),
            is_node(self@, i as int),
        ensures
            r@ == node_text(self@, i as int),
    {
        let ghost es = self@;
        proof {
            lemma_well_formed_prefix(es, i as int);
            lemma_well_formed_prefix(es, i + 1);
            lemma_take_next(es, i as int);
            lemma_enclosing_starts(es, i as int);
            lemma_text_before(es, i as int, i + 1);
        }
        let ghost base = enclosing(es, i as int);
        assert(enclosing(es, i + 1) == base.push(i as int));
        assert(i < self.elements.len());
        let mut text = String::new();
        let mut m: usize = i + 1;
        let mut depth: usize = 0;
        while m < self.elements.len()
            invariant
                self.wf(),
                es == self@,
                base == enclosing(es, i as int),
                forall|j: int| 0 <= j < base.len() ==> #[trigger] base[j] < i,
                i < m <= es.len(),
                depth <= m - i - 1,
                open_nodes(es.take(m as int)) is Some,
                enclosing(es, m as int).len() == base.len() + 1 + depth,
                enclosing(es, m as int).take(base.len() as int + 1) == base.push(i as int),
                text@ == text_upto(es, i as int, m as int),
            ensures
                text@ == node_text(es, i as int),
            decreases es.len() - m,
        {
            proof {
                lemma_take_next(es, m as int);
                let e = enclosing(es, m as int);
                assert(e[base.len() as int] == i) by {
                    assert(e.take(base.len() as int + 1)[base.len() as int] == e[base.len() as int]);
                }
                assert(within(es, i as int, m as int));
            }
            match &self.elements[m] {
                Element::Start(_) => {
                    depth = depth + 1;
                    proof {
                        let e = enclosing(es, m as int);
                        assert(enclosing(es, m + 1) == e.push(m as int));
                        assert(e.push(m as int).take(base.len() as int + 1) =~= e.take(base.len() as int + 1));
                        assert(text_upto(es, i as int, m + 1) =~= text_upto(es, i as int, m as int));
                    }
                },
                Element::Token(t, _) => {
                    text.append(t.text.as_str());
                },
                Element::Finish => {
                    if depth == 0 {
                        proof {
                            let e = enclosing(es, m as int);
                            assert(e =~= base.push(i as int)) by {
                                assert(e.take(base.len() as int + 1) =~= e);
                            }
                            assert(enclosing(es, m + 1) =~= base);
                            assert(!base.contains(i as int)) by {
                                if base.contains(i as int) {
                                    let j = choose|j: int| 0 <= j < base.len() && base[j] == i;
                                    assert(base[j] < i);
                                }
                            }
                            assert(text_upto(es, i as int, m + 1) =~= text_upto(es, i as int, m as int));
                            lemma_text_after(es, i as int, m + 1, es.len() as int);
                        }
                        break;
                    }
                    depth = depth - 1;
                    proof {
                        let e = enclosing(es, m as int);
                        assert(enclosing(es, m + 1) == e.drop_last());
                        assert(e.drop_last().take(base.len() as int + 1) =~= e.take(base.len() as int + 1));
                        assert(text_upto(es, i as int, m + 1) =~= text_upto(es, i as int, m as int));
                    }
                },
            }
            m = m + 1;
        }
        proof {
            if m == es.len() {
                assert(es.take(m as int) =~= es);
            }
        }
        text
    }
}

/// No element up to node `i` lies inside it.
pub proof fn lemma_text_before(es: Seq<Element>, i: int, b: int)
    requires
        b <= i + 1,
    ensures
        text_upto(es, i, b) == Seq::<char>::empty(),
    decreases b,
{
    if b > 0 {
        lemma_text_before(es, i, b - 1);
    }
}

/// After node `i` is closed no element lies inside it.
pub proof fn lemma_text_after(es: Seq<Element>, i: int, a: int, b: int)
    requires
        well_formed(es),
        0 <= i < a <= b <= es.len(),
        !enclosing(es, a).contains(i),
    ensures
        text_upto(es, i, b) == text_upto(es, i, a),
    decreases b - a,
{
    if a < b {
        lemma_text_after(es, i, a, b - 1);
        lemma_well_formed_prefix(es, b - 1);
        lemma_closed_for_good(es, i, a, b - 1);
    }
}

/// The last entry of a listing of the child nodes is the last child node.
pub proof fn lemma_last_in_listing(es: Seq<Element>, i: int, cs: Seq<usize>)
    requires
        lists_children(es, i, cs, true),
    ensures
        cs.len() == 0 ==> last_child_node(es, i) is None,
        cs.len() > 0 ==> last_child_node(es, i) == Some(cs.last() as int),
{
    if cs.len() == 0 {
        assert forall|d: int| !child_matches(es, i, d, None) by {
            if child_matches(es, i, d, None) {
                assert(is_child(es, i, d));
            }
        }
        reveal(last_child_node);
    } else {
        let c = cs.last() as int;
        assert(is_child(es, i, c));
        assert forall|d: int| #[trigger] child_matches(es, i, d, None) implies d <= c by {
            assert(is_child(es, i, d));
            let j = choose|j: int| 0 <= j < cs.len() && cs[j] == d;
            if j < cs.len() - 1 {
                assert(cs[j] < cs[cs.len() - 1]);
            }
        }
        assert(child_matches(es, i, c, None));
        reveal(last_child_node);
        let f = choose|f: int| child_matches(es, i, f, None) && forall|d: int| #[trigger]
            child_matches(es, i, d, None) ==> d <= f;
        assert(f <= c && c <= f);
    }
}

/// The first entry of a listing of the children is the first child.
pub proof fn lemma_first_element_in_listing(es: Seq<Element>, i: int, cs: Seq<usize>)
    requires
        lists_children(es, i, cs, false),
    ensures
        cs.len() == 0 ==> first_child_element(es, i) is None,
        cs.len() > 0 ==> first_child_element(es, i) == Some(cs[0] as int),
{
    reveal(first_child_element);
    if cs.len() == 0 {
        assert forall|d: int| !is_child(es, i, d) by {
            if is_child(es, i, d) {
                let j = choose|j: int| 0 <= j < cs.len() && cs[j] == d;
            }
        }
    } else {
        let c = cs[0] as int;
        assert(is_child(es, i, c));
        assert forall|d: int| #[trigger] is_child(es, i, d) implies c <= d by {
            let j = choose|j: int| 0 <= j < cs.len() && cs[j] == d;
            if j > 0 {
                assert(cs[0] < cs[j]);
            }
        }
        let f = choose|f: int| is_child(es, i, f) && forall|d: int| #[trigger] is_child(es, i, d) ==> f <= d;
        assert(f <= c && c <= f);
    }
}

/// The first entry of a listing of the children that is a token of the kind
/// is the first such child.
pub proof fn lemma_first_token_in_listing(es: Seq<Element>, i: int, cs: Seq<usize>, k: int, kind: SyntaxKind)
    requires
        lists_children(es, i, cs, false),
        0 <= k < cs.len(),
        token_child(es, i, cs[k] as int, kind),
        forall|j: int| 0 <= j < k ==> !token_child(es, i, #[trigger] cs[j] as int, kind),
    ensures
        first_token_child(es, i, kind) == Some(cs[k] as int),
{
    reveal(first_token_child);
    let c = cs[k] as int;
    assert forall|d: int| #[trigger] token_child(es, i, d, kind) implies c <= d by {
        let j = choose|j: int| 0 <= j < cs.len() && cs[j] == d;
        if j < k {
            assert(!token_child(es, i, cs[j] as int, kind));
        } else if j > k {
            assert(cs[k] < cs[j]);
        }
    }
    let f = choose|f: int| token_child(es, i, f, kind) && forall|d: int| #[trigger]
        token_child(es, i, d, kind) ==> f <= d;
    assert(f <= c && c <= f);
}

/// When no entry of a listing of the children is a token of the kind, no
/// child is.
pub proof fn lemma_no_token_in_listing(es: Seq<Element>, i: int, cs: Seq<usize>, kind: SyntaxKind)
    requires
        lists_children(es, i, cs, false),
        forall|j: int| 0 <= j < cs.len() ==> !token_child(es, i, #[trigger] cs[j] as int, kind),
    ensures
        first_token_child(es, i, kind) is None,
{
    reveal(first_token_child);
    assert forall|d: int| !token_child(es, i, d, kind) by {
        if token_child(es, i, d, kind) {
            let j = choose|j: int| 0 <= j < cs.len() && cs[j] == d;
            assert(!token_child(es, i, cs[j] as int, kind));
        }
    }
}

/// The first entry of a listing of the children that matches is the first
/// matching child.
pub proof fn lemma_first_in_listing(
    es: Seq<Element>,
    i: int,
    cs: Seq<usize>,
    k: int,
    ks: Option<Seq<SyntaxKind>>,
)
    requires
        lists_children(es, i, cs, true),
        0 <= k < cs.len(),
        child_matches(es, i, cs[k] as int, ks),
        forall|j: int| 0 <= j < k ==> !child_matches(es, i, #[trigger] cs[j] as int, ks),
    ensures
        first_child_matching(es, i, ks) == Some(cs[k] as int),
{
    let c = cs[k] as int;
    assert forall|d: int| #[trigger] child_matches(es, i, d, ks) implies c <= d by {
        let j = choose|j: int| 0 <= j < cs.len() && cs[j] == d;
        if j < k {
            assert(!child_matches(es, i, cs[j] as int, ks));
        } else if j > k {
            assert(cs[k] < cs[j]);
        }
    }
    reveal(first_child_matching);
    let f = choose|f: int| child_matches(es, i, f, ks) && forall|d: int| #[trigger]
        child_matches(es, i, d, ks) ==> f <= d;
    assert(f <= c && c <= f);
}

/// When no entry of a listing of the children matches, no child matches.
pub proof fn lemma_none_in_listing(es: Seq<Element>, i: int, cs: Seq<usize>, ks: Option<Seq<SyntaxKind>>)
    requires
        lists_children(es, i, cs, true),
        forall|j: int| 0 <= j < cs.len() ==> !child_matches(es, i, #[trigger] cs[j] as int, ks),
    ensures
        first_child_matching(es, i, ks) is None,
{
    reveal(first_child_matching);
    assert forall|d: int| !child_matches(es, i, d, ks) by {
        if child_matches(es, i, d, ks) {
            let j = choose|j: int| 0 <= j < cs.len() && cs[j] == d;
            assert(!child_matches(es, i, cs[j] as int, ks));
        }
    }
}

/// Whether `kind` is among `kinds`.
pub fn contains_kind(kinds: &[SyntaxKind], kind: SyntaxKind) -> (r: bool)
    ensures
        r == kinds@.contains(kind),
{
    let mut i: usize = 0;
    while i < kinds.len()
        invariant
            i <= kinds.len(),
            forall|j: int| 0 <= j < i ==> kinds@[j] != kind,
        decreases kinds.len() - i,
    {
        if kinds[i] == kind {
            return true;
        }
        i = i + 1;
    }
    false
}

/// The text of the root of a well-formed tree is the text of all its
/// tokens.
pub proof fn lemma_root_text(es: Seq<Element>)
    requires
        well_formed(es),
    ensures
        node_text(es, 0) == all_text(es),
{
    lemma_root_text_upto(es, es.len() as int);
    assert(es.take(es.len() as int) =~= es);
}

proof fn lemma_root_text_upto(es: Seq<Element>, b: int)
    requires
        well_formed(es),
        1 <= b <= es.len(),
    ensures
        text_upto(es, 0, b) == all_text(es.take(b)),
    decreases b,
{
    if b == 1 {
        assert(es.take(1).drop_last() =~= Seq::<Element>::empty());
        assert(text_upto(es, 0, 0) == Seq::<char>::empty());
        assert(element_text(es[0]) == Seq::<char>::empty());
        assert(es.take(1).last() == es[0]);
        assert(all_text(Seq::<Element>::empty()) == Seq::<char>::empty());
        assert(all_text(es.take(1)) =~= Seq::<char>::empty());
    } else {
        lemma_root_text_upto(es, b - 1);
        assert(es.take(b).drop_last() =~= es.take(b - 1));
        let e = enclosing(es, b - 1);
        assert(e.contains(0)) by {
            assert(e[0] == 0);
        }
    }
}

/// A node of a syntax tree: the tree and the position of the node's
/// `Start`.
#[derive(Clone, Copy)]
pub struct SyntaxNode<'a> {
    pub tree: &'a SyntaxTree,
    pub index: usize,
}

/// The positions of the nodes.
pub open spec fn node_indices(ns: Seq<SyntaxNode>) -> Seq<usize> {
    Seq::new(ns.len(), |k: int| ns[k].index)
}

/// The position of the node, if any.
pub open spec fn node_position(n: Option<SyntaxNode>) -> Option<int> {
    match n {
        Some(node) => Some(node.index as int),
        None => None,
    }
}

impl SyntaxTree {
    /// The root node.
    pub fn root(&self) -> (r: SyntaxNode<'_>)
        requires
            self.wf(),
        ensures
            r.tree == self,
            r.index == 0,
            r.wf(),
    {
        SyntaxNode { tree: self, index: 0 }
    }
}

impl<'a> SyntaxNode<'a> {
    pub open spec fn wf(&self) -> bool {
        self.tree.wf() && is_node(self.tree@, self.index as int)
    }

    pub open spec fn in_same_tree(&self, n: Option<SyntaxNode<'a>>) -> bool {
        n matches Some(m) ==> m.tree == self.tree && m.wf()
    }

    /// The node's kind.
    pub fn kind(&self) -> (r: SyntaxKind)
        requires
            self.wf(),
        ensures
            r == node_kind(self.tree@, self.index as int),
    {
        self.tree.kind_of(self.index)
    }

    /// The node's text: the texts of its tokens.
    pub fn text(&self) -> (r: String)
        requires
            self.wf(),
        ensures
            r@ == node_text(self.tree@, self.index as int),
    {
        self.tree.text_of(self.index)
    }

    /// The child nodes, in order.
    pub fn children(&self) -> (r: Vec<SyntaxNode<'a>>)
        requires
            self.wf(),
        ensures
            lists_children(self.tree@, self.index as int, node_indices(r@), true),
            node_indices(r@) == child_nodes(self.tree@, self.index as int),
            forall|k: int| 0 <= k < r@.len() ==> (#[trigger] r@[k]).tree == self.tree && r@[k].wf(),
    {
        let n = self.tree.elements.len();
        let cs = self.tree.child_positions(self.index, true);
        let mut r: Vec<SyntaxNode<'a>> = Vec::new();
        let mut k: usize = 0;
        while k < cs.len()
            invariant
                self.wf(),
                lists_children(self.tree@, self.index as int, cs@, true),
                k <= cs.len(),
                r@.len() == k,
                forall|j: int| 0 <= j < k ==> (#[trigger] r@[j]).index == cs@[j],
                forall|j: int| 0 <= j < r@.len() ==> (#[trigger] r@[j]).tree == self.tree && r@[j].wf(),
            decreases cs.len() - k,
        {
            proof {
                assert(is_child(self.tree@, self.index as int, cs@[k as int] as int));
            }
            r.push(SyntaxNode { tree: self.tree, index: cs[k] });
            k = k + 1;
        }
        proof {
            assert(node_indices(r@) =~= cs@);
            lemma_child_nodes(self.tree@, self.index as int, cs@);
        }
        r
    }

    /// The first child node whose kind is among `kinds`.
    pub fn first_child_by_kind(&self, kinds: &[SyntaxKind]) -> (r: Option<SyntaxNode<'a>>)
        requires
            self.wf(),
        ensures
            node_position(r) == first_child_matching(self.tree@, self.index as int, Some(kinds@)),
            self.in_same_tree(r),
            r matches Some(n) ==> kinds@.contains(node_kind(self.tree@, n.index as int)) && is_child(
                self.tree@,
                self.index as int,
                n.index as int,
            ),
    {
        match self.tree.first_child_matching(self.index, Some(kinds)) {
            Some(c) => Some(SyntaxNode { tree: self.tree, index: c }),
            None => None,
        }
    }

    /// The first child node.
    pub fn first_child(&self) -> (r: Option<SyntaxNode<'a>>)
        requires
            self.wf(),
        ensures
            node_position(r) == first_child_matching(self.tree@, self.index as int, None),
            self.in_same_tree(r),
            r matches Some(n) ==> is_child(self.tree@, self.index as int, n.index as int),
    {
        match self.tree.first_child_matching(self.index, None) {
            Some(c) => Some(SyntaxNode { tree: self.tree, index: c }),
            None => None,
        }
    }

    /// The last child node.
    pub fn last_child(&self) -> (r: Option<SyntaxNode<'a>>)
        requires
            self.wf(),
        ensures
            node_position(r) == last_child_node(self.tree@, self.index as int),
            self.in_same_tree(r),
            r matches Some(n) ==> is_child(self.tree@, self.index as int, n.index as int),
    {
        match self.tree.last_child_node(self.index) {
            Some(c) => Some(SyntaxNode { tree: self.tree, index: c }),
            None => None,
        }
    }

    /// The node right above this one; the root has none.
    pub fn parent(&self) -> (r: Option<SyntaxNode<'a>>)
        requires
            self.wf(),
        ensures
            self.index == 0 ==> r is None,
            self.index > 0 ==> node_position(r) == Some(enclosing(self.tree@, self.index as int).last()),
            self.in_same_tree(r),
            r matches Some(p) ==> p.index < self.index,
    {
        if self.index == 0 {
            return None;
        }
        let stack = self.tree.enclosing_nodes(self.index);
        proof {
            lemma_well_formed_prefix(self.tree@, self.index as int);
            lemma_enclosing_starts(self.tree@, self.index as int);
            assert(enclosing(self.tree@, self.index as int).len() >= 1);
        }
        let p = stack[stack.len() - 1];
        Some(SyntaxNode { tree: self.tree, index: p })
    }
}

/// `r` lists, in order, the child nodes of `i` whose kind is among `kinds`.
pub open spec fn lists_matching(es: Seq<Element>, i: int, r: Seq<usize>, kinds: Seq<SyntaxKind>) -> bool {
    &&& forall|k: int| 0 <= k < r.len() ==> child_matches(es, i, #[trigger] r[k] as int, Some(kinds))
    &&& forall|a: int, b: int| 0 <= a < b < r.len() ==> #[trigger] r[a] < #[trigger] r[b]
    &&& forall|m: int| #[trigger] child_matches(es, i, m, Some(kinds)) ==> exists|k: int| 0 <= k < r.len() && r[k] == m
}

/// The last child of `i`, node or token.
#[verifier::opaque]
pub open spec fn last_child_element(es: Seq<Element>, i: int) -> Option<int> {
    if exists|c: int| is_child(es, i, c) {
        Some(choose|c: int| is_child(es, i, c) && forall|d: int| #[trigger] is_child(es, i, d) ==> d <= c)
    } else {
        None
    }
}

/// `r` lists, in order, node `i` and the nodes inside it (preorder).
pub open spec fn lists_descendants(es: Seq<Element>, i: int, r: Seq<usize>) -> bool {
    &&& forall|k: int|
        0 <= k < r.len() ==> is_node(es, #[trigger] r[k] as int) && (r[k] == i || within(es, i, r[k] as int))
    &&& forall|a: int, b: int| 0 <= a < b < r.len() ==> #[trigger] r[a] < #[trigger] r[b]
    &&& forall|m: int|
        #[trigger] is_node(es, m) && (m == i || within(es, i, m)) ==> exists|k: int| 0 <= k < r.len() && r[k] == m
}

impl SyntaxTree {
    /// The positions of the child nodes of `i` whose kind is among `kinds`,
    /// in order.
    pub fn children_matching(&self, i: usize, kinds: &[SyntaxKind]) -> (r: Vec<usize>)
        requires
            self.wf(),
            is_node(self@, i as int),
        ensures
            lists_matching(self@, i as int, r@, kinds@),
    {
        let ghost es = self@;
        let cs = self.child_positions(i, true);
        let mut r: Vec<usize> = Vec::new();
        let mut k: usize = 0;
        while k < cs.len()
            invariant
                es == self@,
                lists_children(es, i as int, cs@, true),
                k <= cs.len(),
                forall|j: int| 0 <= j < r@.len() ==> child_matches(es, i as int, #[trigger] r@[j] as int, Some(kinds@)),
                forall|a: int, b: int| 0 <= a < b < r@.len() ==> #[trigger] r@[a] < #[trigger] r@[b],
                forall|j: int| 0 <= j < r@.len() ==> exists|q: int| 0 <= q < k && cs@[q] == #[trigger] r@[j],
                forall|q: int|
                    0 <= q < k && child_matches(es, i as int, #[trigger] cs@[q] as int, Some(kinds@)) ==> exists|j: int|
                        0 <= j < r@.len() && r@[j] == cs@[q],
            decreases cs.len() - k,
        {
            let c = cs[k];
            let ghost before = r@;
            if contains_kind(kinds, self.kind_of(c)) {
                proof {
                    assert forall|j: int| 0 <= j < before.len() implies before[j] < c by {
                        let q = choose|q: int| 0 <= q < k && cs@[q] == before[j];
                        assert(cs@[q] < cs@[k as int]);
                    }
                }
                r.push(c);
                proof {
                    assert forall|j: int| 0 <= j < r@.len() implies exists|q: int| 0 <= q < k + 1 && cs@[q] == #[trigger] r@[j] by {
                        if j < before.len() {
                            let q = choose|q: int| 0 <= q < k && cs@[q] == before[j];
                            assert(r@[j] == before[j]);
                        } else {
                            assert(cs@[k as int] == r@[j]);
                        }
                    }
                    assert forall|q: int|
                        0 <= q < k + 1 && child_matches(es, i as int, #[trigger] cs@[q] as int, Some(kinds@)) implies exists|j: int|
                        0 <= j < r@.len() && r@[j] == cs@[q] by {
                        if q < k {
                            let j = choose|j: int| 0 <= j < before.len() && before[j] == cs@[q];
                            assert(r@[j] == before[j]);
                        } else {
                            assert(r@[r@.len() - 1] == cs@[q]);
                        }
                    }
                }
            }
            k = k + 1;
        }
        proof {
            assert forall|m: int| #[trigger] child_matches(es, i as int, m, Some(kinds@)) implies exists|j: int|
                0 <= j < r@.len() && r@[j] == m by {
                let q = choose|q: int| 0 <= q < cs@.len() && cs@[q] == m;
                assert(child_matches(es, i as int, cs@[q] as int, Some(kinds@)));
            }
        }
        r
    }

    /// The last child of `i`, node or token.
    pub fn last_child_element(&self, i: usize) -> (r: Option<usize>)
        requires
            self.wf(),
            is_node(self@, i as int),
        ensures
            match r {
                Some(c) => last_child_element(self@, i as int) == Some(c as int),
                None => last_child_element(self@, i as int) is None,
            },
            r matches Some(c) ==> is_child(self@, i as int, c as int),
    {
        let cs = self.child_positions(i, false);
        proof {
            lemma_last_element_in_listing(self@, i as int, cs@);
        }
        if cs.len() == 0 {
            None
        } else {
            Some(cs[cs.len() - 1])
        }
    }

    /// Node `i` and the nodes inside it, in preorder.
    pub fn descendant_positions(&self, i: usize) -> (r: Vec<usize>)
        requires
            self.wf(),
            is_node(self@, i as int),
        ensures
            lists_descendants(self@, i as int, r@),
    {
        let ghost es = self@;
        proof {
            lemma_well_formed_prefix(es, i as int);
            lemma_well_formed_prefix(es, i + 1);
            lemma_take_next(es, i as int);
            lemma_enclosing_starts(es, i as int);
        }
        let ghost base = enclosing(es, i as int);
        assert(enclosing(es, i + 1) == base.push(i as int));
        assert(i < self.elements.len());
        let mut r: Vec<usize> = Vec::new();
        r.push(i);
        let mut m: usize = i + 1;
        let mut depth: usize = 0;
        assert(r@[0] == i);
        while m < self.elements.len()
            invariant
                self.wf(),
                es == self@,
                base == enclosing(es, i as int),
                forall|j: int| 0 <= j < base.len() ==> #[trigger] base[j] < i,
                i < m <= es.len(),
                depth <= m - i - 1,
                open_nodes(es.take(m as int)) is Some,
                enclosing(es, m as int).len() == base.len() + 1 + depth,
                enclosing(es, m as int).take(base.len() as int + 1) == base.push(i as int),
                r@.len() >= 1,
                r@[0] == i,
                forall|k: int|
                    0 <= k < r@.len() ==> is_node(es, #[trigger] r@[k] as int) && (r@[k] == i || within(es, i as int, r@[k] as int))
                        && r@[k] < m,
                forall|a: int, b: int| 0 <= a < b < r@.len() ==> #[trigger] r@[a] < #[trigger] r@[b],
                forall|c: int|
                    i <= c < m && #[trigger] is_node(es, c) && (c == i || within(es, i as int, c))
                        ==> exists|k: int| 0 <= k < r@.len() && r@[k] == c,
            ensures
                lists_descendants(es, i as int, r@),
            decreases es.len() - m,
        {
            let ghost r0 = r@;
            proof {
                lemma_take_next(es, m as int);
                let e = enclosing(es, m as int);
                assert(e[base.len() as int] == i) by {
                    assert(e.take(base.len() as int + 1)[base.len() as int] == e[base.len() as int]);
                }
                assert(within(es, i as int, m as int));
            }
            match &self.elements[m] {
                Element::Start(_) => {
                    r.push(m);
                    depth = depth + 1;
                    proof {
                        let e = enclosing(es, m as int);
                        assert(enclosing(es, m + 1) == e.push(m as int));
                        assert(e.push(m as int).take(base.len() as int + 1) =~= e.take(base.len() as int + 1));
                    }
                },
                Element::Token(..) => {},
                Element::Finish => {
                    if depth == 0 {
                        proof {
                            let e = enclosing(es, m as int);
                            assert(enclosing(es, m + 1) =~= base);
                            assert(!base.contains(i as int)) by {
                                if base.contains(i as int) {
                                    let j = choose|j: int| 0 <= j < base.len() && base[j] == i;
                                    assert(base[j] < i);
                                }
                            }
                            assert forall|c: int| #[trigger] is_node(es, c) && (c == i || within(es, i as int, c)) implies c <= m by {
                                if c > m {
                                    lemma_well_formed_prefix(es, c);
                                    lemma_closed_for_good(es, i as int, m + 1, c);
                                }
                            }
                        }
                        break;
                    }
                    depth = depth - 1;
                    proof {
                        let e = enclosing(es, m as int);
                        assert(enclosing(es, m + 1) == e.drop_last());
                        assert(e.drop_last().take(base.len() as int + 1) =~= e.take(base.len() as int + 1));
                    }
                },
            }
            proof {
                assert forall|c: int|
                    i <= c < m + 1 && #[trigger] is_node(es, c) && (c == i || within(es, i as int, c))
                        implies exists|k: int| 0 <= k < r@.len() && r@[k] == c by {
                    if c < m {
                        let k = choose|k: int| 0 <= k < r0.len() && r0[k] == c;
                        assert(r@[k] == r0[k]);
                    } else {
                        assert(r@[r@.len() - 1] == c);
                    }
                }
            }
            m = m + 1;
        }
        proof {
            if m == es.len() {
                assert(es.take(m as int) =~= es);
            }
        }
        r
    }

    /// The last token of the tree.
    pub fn last_token(&self) -> (r: Option<SyntaxToken<'_>>)
        ensures
            r matches Some(t) ==> t.tree == self && t.wf() && forall|m: int|
                t.index < m < self@.len() ==> !(#[trigger] self@[m] is Token),
            r is None ==> forall|m: int| 0 <= m < self@.len() ==> !(#[trigger] self@[m] is Token),
    {
        match self.last_token_position() {
            Some(t) => Some(SyntaxToken { tree: self, index: t }),
            None => None,
        }
    }

    /// The position of the last token of the tree.
    pub fn last_token_position(&self) -> (r: Option<usize>)
        ensures
            r matches Some(t) ==> t < self@.len() && self@[t as int] is Token && forall|m: int|
                t < m < self@.len() ==> !(#[trigger] self@[m] is Token),
            r is None ==> forall|m: int| 0 <= m < self@.len() ==> !(#[trigger] self@[m] is Token),
    {
        let mut m: usize = self.elements.len();
        while m > 0
            invariant
                m <= self@.len(),
                forall|j: int| m <= j < self@.len() ==> !(#[trigger] self@[j] is Token),
            decreases m,
        {
            if matches!(&self.elements[m - 1], Element::Token(..)) {
                return Some(m - 1);
            }
            m = m - 1;
        }
        None
    }
}

/// The last entry of a listing of the children is the last child.
pub proof fn lemma_last_element_in_listing(es: Seq<Element>, i: int, cs: Seq<usize>)
    requires
        lists_children(es, i, cs, false),
    ensures
        cs.len() == 0 ==> last_child_element(es, i) is None,
        cs.len() > 0 ==> last_child_element(es, i) == Some(cs.last() as int),
{
    reveal(last_child_element);
    if cs.len() == 0 {
        assert forall|d: int| !is_child(es, i, d) by {
            if is_child(es, i, d) {
                let j = choose|j: int| 0 <= j < cs.len() && cs[j] == d;
            }
        }
    } else {
        let c = cs.last() as int;
        assert(is_child(es, i, c));
        assert forall|d: int| #[trigger] is_child(es, i, d) implies d <= c by {
            let j = choose|j: int| 0 <= j < cs.len() && cs[j] == d;
            if j < cs.len() - 1 {
                assert(cs[j] < cs[cs.len() - 1]);
            }
        }
        let f = choose|f: int| is_child(es, i, f) && forall|d: int| #[trigger] is_child(es, i, d) ==> d <= f;
        assert(f <= c && c <= f);
    }
}

/// A token of a syntax tree: the tree and the token's position.
#[derive(Clone, Copy)]
pub struct SyntaxToken<'a> {
    pub tree: &'a SyntaxTree,
    pub index: usize,
}

impl<'a> SyntaxToken<'a> {
    pub open spec fn wf(&self) -> bool {
        self.index < self.tree@.len() && self.tree@[self.index as int] is Token
    }

    /// The token's kind.
    pub fn kind(&self) -> (r: SyntaxKind)
        requires
            self.wf(),
        ensures
            self.tree@[self.index as int] matches Element::Token(t, _) && r == t.kind,
    {
        match &self.tree.elements[self.index] {
            Element::Token(t, _) => t.kind,
            _ => SyntaxKind::Error,
        }
    }

    /// The token's text.
    pub fn text(&self) -> (r: String)
        requires
            self.wf(),
        ensures
            self.tree@[self.index as int] matches Element::Token(t, _) && r@ == t.text@,
    {
        match &self.tree.elements[self.index] {
            Element::Token(t, _) => t.text.clone(),
            _ => String::new(),
        }
    }

    /// The token's byte range in the input.
    pub fn text_range(&self) -> (r: Span)
        requires
            self.wf(),
        ensures
            self.tree@[self.index as int] matches Element::Token(_, sp) && r == sp,
    {
        match &self.tree.elements[self.index] {
            Element::Token(_, sp) => Span { start: sp.start, end: sp.end },
            _ => Span { start: 0, end: 0 },
        }
    }
}

impl<'a> SyntaxNode<'a> {
    /// Whether this node or a node inside it is an `Error` node.
    pub fn has_error(&self) -> (r: bool)
        requires
            self.wf(),
        ensures
            r == (nodes_of_kind_within(self.tree@, self.index as int, SyntaxKind::Error).len() > 0),
    {
        let ps = self.tree.nodes_of_kind_within(self.index, SyntaxKind::Error);
        ps.len() > 0
    }

    /// This node, if it has the kind, and the nodes of the kind inside it, in
    /// preorder.
    pub fn preorder_find_kind(&self, kind: SyntaxKind) -> (r: Vec<SyntaxNode<'a>>)
        requires
            self.wf(),
        ensures
            node_indices(r@) == nodes_of_kind_within(self.tree@, self.index as int, kind),
            forall|k: int|
                0 <= k < r@.len() ==> (#[trigger] r@[k]).tree == self.tree && r@[k].wf() && node_kind(
                    self.tree@,
                    r@[k].index as int,
                ) == kind,
    {
        let ps = self.tree.nodes_of_kind_within(self.index, kind);
        let n = self.tree.elements.len();
        proof {
            lemma_listed_upto(|m: int| kind_within(self.tree@, self.index as int, kind, m), n as int);
        }
        let mut r: Vec<SyntaxNode<'a>> = Vec::new();
        let mut k: usize = 0;
        while k < ps.len()
            invariant
                self.wf(),
                n == self.tree@.len(),
                ps@ == nodes_of_kind_within(self.tree@, self.index as int, kind),
                forall|j: int|
                    0 <= j < ps@.len() ==> kind_within(self.tree@, self.index as int, kind, #[trigger] ps@[j] as int),
                k <= ps.len(),
                r@.len() == k,
                forall|j: int| 0 <= j < k ==> (#[trigger] r@[j]).index == ps@[j],
                forall|j: int|
                    0 <= j < r@.len() ==> (#[trigger] r@[j]).tree == self.tree && r@[j].wf() && node_kind(
                        self.tree@,
                        r@[j].index as int,
                    ) == kind,
            decreases ps.len() - k,
        {
            proof {
                assert(kind_within(self.tree@, self.index as int, kind, ps@[k as int] as int));
            }
            r.push(SyntaxNode { tree: self.tree, index: ps[k] });
            k = k + 1;
        }
        proof {
            assert(node_indices(r@) =~= ps@);
        }
        r
    }

    /// The child nodes whose kind is among `kinds`, in order.
    pub fn children_of_kinds(&self, kinds: &[SyntaxKind]) -> (r: Vec<SyntaxNode<'a>>)
        requires
            self.wf(),
        ensures
            lists_matching(self.tree@, self.index as int, node_indices(r@), kinds@),
            forall|k: int|
                0 <= k < r@.len() ==> (#[trigger] r@[k]).tree == self.tree && r@[k].wf() && kinds@.contains(
                    node_kind(self.tree@, r@[k].index as int),
                ),
    {
        let cs = self.tree.children_matching(self.index, kinds);
        let mut r: Vec<SyntaxNode<'a>> = Vec::new();
        let mut k: usize = 0;
        while k < cs.len()
            invariant
                self.wf(),
                lists_matching(self.tree@, self.index as int, cs@, kinds@),
                k <= cs.len(),
                r@.len() == k,
                forall|j: int| 0 <= j < k ==> (#[trigger] r@[j]).index == cs@[j],
                forall|j: int|
                    0 <= j < r@.len() ==> (#[trigger] r@[j]).tree == self.tree && r@[j].wf() && kinds@.contains(
                        node_kind(self.tree@, r@[j].index as int),
                    ),
            decreases cs.len() - k,
        {
            proof {
                assert(child_matches(self.tree@, self.index as int, cs@[k as int] as int, Some(kinds@)));
            }
            r.push(SyntaxNode { tree: self.tree, index: cs[k] });
            k = k + 1;
        }
        proof {
            assert(node_indices(r@) =~= cs@);
        }
        r
    }

    /// The first child, node or token.
    pub fn first_child_element(&self) -> (r: Option<usize>)
        requires
            self.wf(),
        ensures
            match r {
                Some(c) => first_child_element(self.tree@, self.index as int) == Some(c as int),
                None => first_child_element(self.tree@, self.index as int) is None,
            },
            r matches Some(c) ==> is_child(self.tree@, self.index as int, c as int),
    {
        self.tree.first_child_element(self.index)
    }

    /// The last child, node or token.
    pub fn last_child_element(&self) -> (r: Option<usize>)
        requires
            self.wf(),
        ensures
            match r {
                Some(c) => last_child_element(self.tree@, self.index as int) == Some(c as int),
                None => last_child_element(self.tree@, self.index as int) is None,
            },
            r matches Some(c) ==> is_child(self.tree@, self.index as int, c as int),
    {
        self.tree.last_child_element(self.index)
    }

    /// The first child token of the given kind.
    pub fn first_token_of_kind(&self, kind: SyntaxKind) -> (r: Option<SyntaxToken<'a>>)
        requires
            self.wf(),
        ensures
            match r {
                Some(t) => first_token_child(self.tree@, self.index as int, kind) == Some(t.index as int)
                    && t.tree == self.tree && t.wf(),
                None => first_token_child(self.tree@, self.index as int, kind) is None,
            },
    {
        match self.tree.first_token_child(self.index, kind) {
            Some(c) => Some(SyntaxToken { tree: self.tree, index: c }),
            None => None,
        }
    }

    /// The nodes that enclose this one, innermost first.
    pub fn ancestors(&self) -> (r: Vec<SyntaxNode<'a>>)
        requires
            self.wf(),
        ensures
            r@.len() == enclosing(self.tree@, self.index as int).len(),
            forall|k: int|
                0 <= k < r@.len() ==> (#[trigger] r@[k]).index == enclosing(self.tree@, self.index as int)[r@.len()
                    - 1 - k] && r@[k].tree == self.tree && r@[k].wf(),
    {
        let stack = self.tree.enclosing_nodes(self.index);
        proof {
            lemma_well_formed_prefix(self.tree@, self.index as int);
            lemma_enclosing_starts(self.tree@, self.index as int);
        }
        let mut r: Vec<SyntaxNode<'a>> = Vec::new();
        let mut k: usize = stack.len();
        while k > 0
            invariant
                self.wf(),
                k <= stack@.len(),
                stack@.len() == enclosing(self.tree@, self.index as int).len(),
                forall|j: int| 0 <= j < stack@.len() ==> #[trigger] stack@[j] as int == enclosing(self.tree@, self.index as int)[j],
                forall|j: int|
                    0 <= j < enclosing(self.tree@, self.index as int).len() ==> 0 <= #[trigger] enclosing(
                        self.tree@,
                        self.index as int,
                    )[j] < self.index && self.tree@[enclosing(self.tree@, self.index as int)[j]] is Start,
                r@.len() == stack@.len() - k,
                forall|j: int|
                    0 <= j < r@.len() ==> (#[trigger] r@[j]).index == stack@[stack@.len() - 1 - j] && r@[j].tree
                        == self.tree && r@[j].wf(),
            decreases k,
        {
            proof {
                assert(is_node(self.tree@, stack@[k - 1] as int));
            }
            r.push(SyntaxNode { tree: self.tree, index: stack[k - 1] });
            k = k - 1;
        }
        r
    }

    /// The node and all nodes inside it, in preorder.
    pub fn descendants(&self) -> (r: Vec<SyntaxNode<'a>>)
        requires
            self.wf(),
        ensures
            lists_descendants(self.tree@, self.index as int, node_indices(r@)),
            forall|k: int| 0 <= k < r@.len() ==> (#[trigger] r@[k]).tree == self.tree && r@[k].wf(),
    {
        let ds = self.tree.descendant_positions(self.index);
        let mut r: Vec<SyntaxNode<'a>> = Vec::new();
        let mut k: usize = 0;
        while k < ds.len()
            invariant
                self.wf(),
                lists_descendants(self.tree@, self.index as int, ds@),
                k <= ds.len(),
                r@.len() == k,
                forall|j: int| 0 <= j < k ==> (#[trigger] r@[j]).index == ds@[j],
                forall|j: int| 0 <= j < r@.len() ==> (#[trigger] r@[j]).tree == self.tree && r@[j].wf(),
            decreases ds.len() - k,
        {
            proof {
                assert(is_node(self.tree@, ds@[k as int] as int));
            }
            r.push(SyntaxNode { tree: self.tree, index: ds[k] });
            k = k + 1;
        }
        proof {
            assert(node_indices(r@) =~= ds@);
        }
        r
    }
}

/// `r` lists, in increasing order, exactly the positions that `p` accepts.
pub open spec fn lists_where(r: Seq<usize>, p: spec_fn(int) -> bool) -> bool {
    &&& forall|k: int| 0 <= k < r.len() ==> #[trigger] p(r[k] as int)
    &&& forall|a: int, b: int| 0 <= a < b < r.len() ==> #[trigger] r[a] < #[trigger] r[b]
    &&& forall|m: int| #[trigger] p(m) ==> exists|k: int| 0 <= k < r.len() && r[k] == m
}

/// The positions below `b` that `p` accepts, in increasing order.
pub open spec fn listed_upto(p: spec_fn(int) -> bool, b: int) -> Seq<usize>
    decreases b,
{
    if b <= 0 {
        Seq::empty()
    } else if p(b - 1) {
        listed_upto(p, b - 1).push((b - 1) as usize)
    } else {
        listed_upto(p, b - 1)
    }
}

/// `listed_upto` lists what `p` accepts below `n`.
pub proof fn lemma_listed_upto(p: spec_fn(int) -> bool, n: int)
    requires
        0 <= n <= usize::MAX,
    ensures
        forall|k: int|
            0 <= k < listed_upto(p, n).len() ==> p(#[trigger] listed_upto(p, n)[k] as int) && listed_upto(p, n)[k] < n,
        forall|a: int, b: int|
            0 <= a < b < listed_upto(p, n).len() ==> #[trigger] listed_upto(p, n)[a] < #[trigger] listed_upto(p, n)[b],
        forall|m: int| 0 <= m < n && #[trigger] p(m) ==> exists|k: int| 0 <= k < listed_upto(p, n).len() && listed_upto(p, n)[k] == m,
    decreases n,
{
    if n > 0 {
        lemma_listed_upto(p, n - 1);
        let r0 = listed_upto(p, n - 1);
        let r = listed_upto(p, n);
        assert forall|k: int| 0 <= k < r.len() implies #[trigger] p(r[k] as int) && r[k] < n by {
            if k < r0.len() {
                assert(r[k] == r0[k]);
                assert(p(r0[k] as int) && r0[k] < n - 1);
            } else {
                assert(r[k] == (n - 1) as usize);
            }
        }
        assert forall|a: int, b: int| 0 <= a < b < r.len() implies #[trigger] r[a] < #[trigger] r[b] by {
            assert(r[a] == r0[a]);
            assert(p(r0[a] as int) && r0[a] < n - 1);
            if b < r0.len() {
                assert(r[b] == r0[b]);
                assert(r0[a] < r0[b]);
            }
        }
        assert forall|m: int| 0 <= m < n && #[trigger] p(m) implies exists|k: int| 0 <= k < r.len() && r[k] == m by {
            if m < n - 1 {
                let k = choose|k: int| 0 <= k < r0.len() && r0[k] == m;
                assert(r[k] == r0[k]);
            } else {
                assert(r[r.len() - 1] == m);
            }
        }
    }
}

/// When everything `p` accepts lies below `n`, `listed_upto` lists it.
pub proof fn lemma_listed_all(p: spec_fn(int) -> bool, n: int)
    requires
        0 <= n <= usize::MAX,
        forall|m: int| #[trigger] p(m) ==> 0 <= m < n,
    ensures
        lists_where(listed_upto(p, n), p),
{
    lemma_listed_upto(p, n);
}

/// Two listings of what `p` accepts are the same.
pub proof fn lemma_lists_unique(p: spec_fn(int) -> bool, a: Seq<usize>, b: Seq<usize>)
    requires
        lists_where(a, p),
        lists_where(b, p),
    ensures
        a == b,
{
    if a.len() > 0 {
        lemma_lists_prefix(p, a, b, a.len() - 1);
        assert(a[a.len() - 1] == b[a.len() - 1]);
    }
    if b.len() > 0 {
        lemma_lists_prefix(p, b, a, b.len() - 1);
        assert(b[b.len() - 1] == a[b.len() - 1]);
    }
    assert(a.len() == b.len());
    assert forall|t: int| 0 <= t < a.len() implies a[t] == b[t] by {
        assert(a[t] == b[t]);
    }
    assert(a =~= b);
}

proof fn lemma_lists_prefix(p: spec_fn(int) -> bool, a: Seq<usize>, b: Seq<usize>, k: int)
    requires
        lists_where(a, p),
        lists_where(b, p),
        0 <= k < a.len(),
    ensures
        forall|t: int| 0 <= t <= k ==> t < b.len() && #[trigger] a[t] == b[t],
    decreases k,
{
    if k > 0 {
        lemma_lists_prefix(p, a, b, k - 1);
    }
    assert(p(a[k] as int));
    let j = choose|j: int| 0 <= j < b.len() && b[j] == a[k];
    if j < k {
        assert(a[j] == b[j]);
        assert(a[j] < a[k]);
    } else if j > k {
        assert(p(b[k] as int));
        let q = choose|q: int| 0 <= q < a.len() && a[q] == b[k];
        assert(b[k] < b[j]);
        if q < k {
            assert(a[q] == b[q]);
            assert(b[q] < b[k]);
        } else if q > k {
            assert(a[k] < a[q]);
        }
    }
}

/// The positions of the child nodes of `i`, in order.
pub open spec fn child_nodes(es: Seq<Element>, i: int) -> Seq<usize> {
    listed_upto(|m: int| is_child(es, i, m) && es[m] is Start, es.len() as int)
}

/// Node `m` has the kind and is node `i` or lies inside it.
pub open spec fn kind_within(es: Seq<Element>, i: int, kind: SyntaxKind, m: int) -> bool {
    is_node(es, m) && (m == i || within(es, i, m)) && node_kind(es, m) == kind
}

/// The positions of the nodes of the kind among `i` and the nodes inside
/// it, in preorder.
pub open spec fn nodes_of_kind_within(es: Seq<Element>, i: int, kind: SyntaxKind) -> Seq<usize> {
    listed_upto(|m: int| kind_within(es, i, kind, m), es.len() as int)
}

/// A listing of the child nodes is `child_nodes`.
pub proof fn lemma_child_nodes(es: Seq<Element>, i: int, r: Seq<usize>)
    requires
        lists_children(es, i, r, true),
        es.len() <= usize::MAX,
    ensures
        r == child_nodes(es, i),
{
    let p = |m: int| is_child(es, i, m) && es[m] is Start;
    lemma_listed_all(p, es.len() as int);
    assert forall|k: int| 0 <= k < r.len() implies #[trigger] p(r[k] as int) by {
        assert(is_child(es, i, r[k] as int));
    }
    assert forall|m: int| #[trigger] p(m) implies exists|k: int| 0 <= k < r.len() && r[k] == m by {
        assert(is_child(es, i, m));
    }
    assert(lists_where(r, p));
    lemma_lists_unique(p, r, child_nodes(es, i));
}

impl SyntaxTree {
    /// The positions of the nodes of the kind among `i` and the nodes inside
    /// it, in preorder.
    pub fn nodes_of_kind_within(&self, i: usize, kind: SyntaxKind) -> (r: Vec<usize>)
        requires
            self.wf(),
            is_node(self@, i as int),
        ensures
            r@ == nodes_of_kind_within(self@, i as int, kind),
    {
        let ghost es = self@;
        let n = self.elements.len();
        let ds = self.descendant_positions(i);
        let mut r: Vec<usize> = Vec::new();
        let mut k: usize = 0;
        while k < ds.len()
            invariant
                es == self@,
                n == es.len(),
                lists_descendants(es, i as int, ds@),
                k <= ds.len(),
                forall|j: int| 0 <= j < r@.len() ==> #[trigger] kind_within(es, i as int, kind, r@[j] as int),
                forall|a: int, b: int| 0 <= a < b < r@.len() ==> #[trigger] r@[a] < #[trigger] r@[b],
                forall|j: int| 0 <= j < r@.len() ==> exists|q: int| 0 <= q < k && ds@[q] == #[trigger] r@[j],
                forall|q: int|
                    0 <= q < k && #[trigger] kind_within(es, i as int, kind, ds@[q] as int) ==> exists|j: int|
                        0 <= j < r@.len() && r@[j] == ds@[q],
            decreases ds.len() - k,
        {
            let c = ds[k];
            let ghost before = r@;
            assert(is_node(es, c as int));
            if self.kind_of(c) == kind {
                proof {
                    assert forall|j: int| 0 <= j < before.len() implies before[j] < c by {
                        let q = choose|q: int| 0 <= q < k && ds@[q] == before[j];
                        assert(ds@[q] < ds@[k as int]);
                    }
                    assert(kind_within(es, i as int, kind, c as int));
                }
                r.push(c);
                proof {
                    assert forall|j: int| 0 <= j < r@.len() implies exists|q: int| 0 <= q < k + 1 && ds@[q] == #[trigger] r@[j] by {
                        if j < before.len() {
                            let q = choose|q: int| 0 <= q < k && ds@[q] == before[j];
                            assert(r@[j] == before[j]);
                        } else {
                            assert(ds@[k as int] == r@[j]);
                        }
                    }
                    assert forall|q: int|
                        0 <= q < k + 1 && #[trigger] kind_within(es, i as int, kind, ds@[q] as int) implies exists|j: int|
                        0 <= j < r@.len() && r@[j] == ds@[q] by {
                        if q < k {
                            let j = choose|j: int| 0 <= j < before.len() && before[j] == ds@[q];
                            assert(r@[j] == before[j]);
                        } else {
                            assert(r@[r@.len() - 1] == ds@[q]);
                        }
                    }
                }
            } else {
                proof {
                    assert(!kind_within(es, i as int, kind, c as int));
                }
            }
            k = k + 1;
        }
        proof {
            lemma_nodes_of_kind_listing(es, i as int, kind, ds@, r@);
        }
        r
    }
}

/// The listing that the scan finds is `nodes_of_kind_within`.
proof fn lemma_nodes_of_kind_listing(es: Seq<Element>, i: int, kind: SyntaxKind, ds: Seq<usize>, r: Seq<usize>)
    requires
        es.len() <= usize::MAX,
        lists_descendants(es, i, ds),
        forall|j: int| 0 <= j < r.len() ==> #[trigger] kind_within(es, i, kind, r[j] as int),
        forall|a: int, b: int| 0 <= a < b < r.len() ==> #[trigger] r[a] < #[trigger] r[b],
        forall|q: int|
            0 <= q < ds.len() && #[trigger] kind_within(es, i, kind, ds[q] as int) ==> exists|j: int|
                0 <= j < r.len() && r[j] == ds[q],
    ensures
        r == nodes_of_kind_within(es, i, kind),
{
    let p = |m: int| kind_within(es, i, kind, m);
    assert forall|m: int| #[trigger] p(m) implies exists|j: int| 0 <= j < r.len() && r[j] == m by {
        assert(is_node(es, m));
        let q = choose|q: int| 0 <= q < ds.len() && ds[q] == m;
        assert(kind_within(es, i, kind, ds[q] as int));
    }
    assert forall|k: int| 0 <= k < r.len() implies #[trigger] p(r[k] as int) by {
        assert(kind_within(es, i, kind, r[k] as int));
    }
    assert forall|m: int| #[trigger] p(m) implies 0 <= m < es.len() by {}
    assert(lists_where(r, p));
    lemma_listed_all(p, es.len() as int);
    lemma_lists_unique(p, r, nodes_of_kind_within(es, i, kind));
}

} // verus!
