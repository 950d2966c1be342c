//! From the parser's events to the lossless syntax tree, with the syntax
//! errors found on the way.

use vstd::prelude::*;

use super::{advance_count, entry_events, events_view, kinds_of, open_stack, Ev, Event, Token, TopEntryPoint};
use crate::lexer::{lex, texts, Span};
use crate::syntax_kind::{kind_name, SyntaxKind};
use crate::syntax_tree::{
    all_text, enclosing, lemma_open_nodes_push, lemma_take_push, open_nodes, open_step, Element,
    SyntaxTree,
};

verus! {

/// Whitespace and comments.
pub open spec fn trivia_kind(k: SyntaxKind) -> bool {
    k == SyntaxKind::WHITESPACE || k == SyntaxKind::Comment
}

/// The number of tokens that are no whitespace or comment.
pub open spec fn significant_count(ts: Seq<(Token, Span)>) -> nat
    decreases ts.len(),
{
    if ts.len() == 0 {
        0
    } else {
        significant_count(ts.drop_last()) + if trivia_kind(ts.last().0.kind) {
            0nat
        } else {
            1nat
        }
    }
}

/// The structure of a tree: `Open` where a node starts, `Close` where it
/// ends, `Advance` for each token that is no whitespace or comment.
pub open spec fn skeleton(es: Seq<Element>) -> Seq<Ev>
    decreases es.len(),
{
    if es.len() == 0 {
        Seq::empty()
    } else {
        skeleton(es.drop_last()) + match es.last() {
            Element::Start(k) => seq![Ev::Open(k)],
            Element::Finish => seq![Ev::Close],
            Element::Token(t, _) => if trivia_kind(t.kind) {
                Seq::empty()
            } else {
                seq![Ev::Advance]
            },
        }
    }
}

/// What building the tree makes of the first `k` events: the structure so
/// far and the number of open nodes. A `Close` that would close the root is
/// dropped, and errors leave no trace.
pub open spec fn built(v: Seq<Ev>, k: int) -> (Seq<Ev>, int)
    decreases k,
{
    if k <= 0 {
        (Seq::empty(), 0)
    } else {
        let (s, d) = built(v, k - 1);
        match v[k - 1] {
            Ev::Open(kind) => (s.push(Ev::Open(kind)), d + 1),
            Ev::Close => if d > 1 {
                (s.push(Ev::Close), d - 1)
            } else {
                (s, d)
            },
            Ev::Advance => (s.push(Ev::Advance), d),
            Ev::Error(_) => (s, d),
        }
    }
}

/// `n` times `Close`.
pub open spec fn closes_n(n: int) -> Seq<Ev> {
    Seq::new(if n > 0 { n as nat } else { 0 }, |i: int| Ev::Close)
}

/// The structure of the tree built from the events: that of all but the
/// last event, with the nodes still open closed at the end.
pub open spec fn built_skeleton(v: Seq<Ev>) -> Seq<Ev> {
    let (s, d) = built(v, v.len() - 1);
    s + closes_n(d - 1) + seq![Ev::Close]
}

proof fn lemma_skeleton_push(es: Seq<Element>, e: Element)
    ensures
        skeleton(es.push(e)) == skeleton(es) + match e {
            Element::Start(k) => seq![Ev::Open(k)],
            Element::Finish => seq![Ev::Close],
            Element::Token(t, _) => if trivia_kind(t.kind) {
                Seq::<Ev>::empty()
            } else {
                seq![Ev::Advance]
            },
        },
{
    assert(es.push(e).drop_last() =~= es);
}

/// The kinds and texts of the tokens.
pub open spec fn token_views(ts: Seq<(Token, Span)>) -> Seq<(SyntaxKind, Seq<char>, Span)> {
    ts.map_values(|t: (Token, Span)| (t.0.kind, t.0.text@, t.1))
}

/// The kinds and texts of the tokens among the elements of a tree.
pub open spec fn tree_tokens(es: Seq<Element>) -> Seq<(SyntaxKind, Seq<char>, Span)>
    decreases es.len(),
{
    if es.len() == 0 {
        Seq::empty()
    } else {
        match es.last() {
            Element::Token(t, sp) => tree_tokens(es.drop_last()).push((t.kind, t.text@, sp)),
            _ => tree_tokens(es.drop_last()),
        }
    }
}

/// The texts of tokens given by kind and text, one after the other.
pub open spec fn joined_texts(ts: Seq<(SyntaxKind, Seq<char>, Span)>) -> Seq<char>
    decreases ts.len(),
{
    if ts.len() == 0 {
        Seq::empty()
    } else {
        joined_texts(ts.drop_last()) + ts.last().1
    }
}

/// Token `idx` is no whitespace or comment, and `n` such tokens come before
/// it.
pub open spec fn is_nth_significant(ts: Seq<(Token, Span)>, n: nat, idx: int) -> bool {
    &&& 0 <= idx < ts.len()
    &&& !trivia_kind(ts[idx].0.kind)
    &&& significant_count(ts.take(idx)) == n
}

/// Where an error is reported once `n` significant tokens are consumed: on
/// the next significant token; when there is none, at the end of the last
/// one; when there is none either, at the start of the input.
pub open spec fn error_span(ts: Seq<(Token, Span)>, n: nat) -> Span {
    if exists|idx: int| is_nth_significant(ts, n, idx) {
        let idx = choose|idx: int| is_nth_significant(ts, n, idx);
        Span { start: ts[idx].1.start, end: ts[idx].1.end }
    } else if n > 0 && exists|idx: int| #[trigger] is_nth_significant(ts, (n - 1) as nat, idx) {
        let idx = choose|idx: int| #[trigger] is_nth_significant(ts, (n - 1) as nat, idx);
        Span { start: ts[idx].1.end, end: ts[idx].1.end }
    } else {
        Span { start: 0, end: 0 }
    }
}

/// The names of the kinds, separated by " or ".
pub open spec fn kind_names(ks: Seq<SyntaxKind>) -> Seq<char>
    decreases ks.len(),
{
    if ks.len() == 0 {
        Seq::empty()
    } else if ks.len() == 1 {
        kind_name(ks[0])
    } else {
        kind_names(ks.drop_last()) + " or "@ + kind_name(ks.last())
    }
}

/// The message of a syntax error that expected one of the kinds.
pub open spec fn error_message(expected: Seq<SyntaxKind>) -> Seq<char> {
    if expected.len() == 0 {
        "Syntax Error: unexpected token"@
    } else {
        "Syntax Error: expected "@ + kind_names(expected)
    }
}

/// A syntax error: where it is, as a byte range of the input, and what was
/// expected.
pub struct ParseError {
    pub span: Span,
    pub message: String,
}

/// The span and message of each error.
pub open spec fn error_views(errors: Seq<ParseError>) -> Seq<(Span, Seq<char>)> {
    errors.map_values(|e: ParseError| (e.span, e.message@))
}

/// The errors that the first `k` events report, with `ts` the tokens.
pub open spec fn reported_errors(events: Seq<Event>, ts: Seq<(Token, Span)>, k: int) -> Seq<(Span, Seq<char>)>
    decreases k,
{
    if k <= 0 {
        Seq::empty()
    } else {
        let rest = reported_errors(events, ts, k - 1);
        match events[k - 1] {
            Event::Error { expected } => rest.push(
                (error_span(ts, advance_count(events.take(k - 1))), error_message(expected@)),
            ),
            _ => rest,
        }
    }
}

pub proof fn lemma_significant_next(ts: Seq<(Token, Span)>, i: int)
    requires
        0 <= i < ts.len(),
    ensures
        significant_count(ts.take(i + 1)) == significant_count(ts.take(i)) + if trivia_kind(
            ts[i].0.kind,
        ) {
            0nat
        } else {
            1nat
        },
{
    assert(ts.take(i + 1).drop_last() =~= ts.take(i));
}

pub proof fn lemma_significant_monotone(ts: Seq<(Token, Span)>, i: int, j: int)
    requires
        0 <= i <= j <= ts.len(),
    ensures
        significant_count(ts.take(i)) <= significant_count(ts.take(j)),
    decreases j - i,
{
    if i < j {
        lemma_significant_monotone(ts, i, j - 1);
        lemma_significant_next(ts, j - 1);
    }
}

pub proof fn lemma_significant_all(ts: Seq<(Token, Span)>)
    ensures
        significant_count(ts.take(ts.len() as int)) == significant_count(ts),
{
    assert(ts.take(ts.len() as int) =~= ts);
}

/// At most one token is the `n`-th significant one.
pub proof fn lemma_nth_unique(ts: Seq<(Token, Span)>, n: nat, a: int, b: int)
    requires
        is_nth_significant(ts, n, a),
        is_nth_significant(ts, n, b),
    ensures
        a == b,
{
    if a < b {
        lemma_significant_next(ts, a);
        lemma_significant_monotone(ts, a + 1, b);
    } else if b < a {
        lemma_significant_next(ts, b);
        lemma_significant_monotone(ts, b + 1, a);
    }
}

pub proof fn lemma_advance_next(events: Seq<Event>, k: int)
    requires
        0 <= k < events.len(),
    ensures
        advance_count(events.take(k + 1)) == advance_count(events.take(k)) + if events[k] is Advance {
            1nat
        } else {
            0nat
        },
        open_stack(events.take(k + 1)) == super::stack_step(open_stack(events.take(k)), events[k], k),
{
    assert(events.take(k + 1).drop_last() =~= events.take(k));
}

pub proof fn lemma_advance_monotone(events: Seq<Event>, i: int, j: int)
    requires
        0 <= i <= j <= events.len(),
    ensures
        advance_count(events.take(i)) <= advance_count(events.take(j)),
    decreases j - i,
{
    if i < j {
        lemma_advance_monotone(events, i, j - 1);
        lemma_advance_next(events, j - 1);
    }
}

/// The tree's text is the text of its tokens.
pub proof fn lemma_all_text(es: Seq<Element>)
    ensures
        all_text(es) == joined_texts(tree_tokens(es)),
    decreases es.len(),
{
    if es.len() > 0 {
        lemma_all_text(es.drop_last());
        match es.last() {
            Element::Token(t, _) => {
                assert(tree_tokens(es).drop_last() =~= tree_tokens(es.drop_last()));
            },
            _ => {},
        }
    }
}

/// The texts of lexed tokens are the texts of their views.
pub proof fn lemma_texts(ts: Seq<(Token, Span)>)
    ensures
        crate::lexer::texts(ts) == joined_texts(token_views(ts)),
    decreases ts.len(),
{
    if ts.len() > 0 {
        lemma_texts(ts.drop_last());
        assert(token_views(ts).drop_last() =~= token_views(ts.drop_last()));
    }
}

/// Where to report an error with `cursor` tokens read.
fn error_span_at(tokens: &Vec<(Token, Span)>, cursor: usize) -> (r: Span)
    requires
        cursor <= tokens.len(),
    ensures
        r == error_span(tokens@, significant_count(tokens@.take(cursor as int))),
{
    let ghost ts = tokens@;
    let ghost n = significant_count(ts.take(cursor as int));
    let mut i: usize = cursor;
    while i < tokens.len()
        invariant
            ts == tokens@,
            cursor <= i <= ts.len(),
            n == significant_count(ts.take(cursor as int)),
            significant_count(ts.take(i as int)) == n,
        decreases ts.len() - i,
    {
        proof {
            lemma_significant_next(ts, i as int);
        }
        if !tokens[i].0.is_trivia() {
            proof {
                assert(is_nth_significant(ts, n, i as int));
                let c = choose|idx: int| is_nth_significant(ts, n, idx);
                lemma_nth_unique(ts, n, c, i as int);
                assert(error_span(ts, n) == Span { start: ts[i as int].1.start, end: ts[i as int].1.end });
            }
            return Span { start: tokens[i].1.start, end: tokens[i].1.end };
        }
        i = i + 1;
    }
    proof {
        lemma_significant_all(ts);
        assert forall|idx: int| !is_nth_significant(ts, n, idx) by {
            if is_nth_significant(ts, n, idx) {
                lemma_significant_next(ts, idx);
                lemma_significant_monotone(ts, idx + 1, ts.len() as int);
            }
        }
    }
    let mut j: usize = cursor;
    while j > 0
        invariant
            ts == tokens@,
            j <= cursor <= ts.len(),
            n == significant_count(ts.take(cursor as int)),
            significant_count(ts.take(j as int)) == n,
            significant_count(ts) == n,
            forall|idx: int| !is_nth_significant(ts, n, idx),
        decreases j,
    {
        proof {
            lemma_significant_next(ts, j - 1);
        }
        if !tokens[j - 1].0.is_trivia() {
            proof {
                assert(is_nth_significant(ts, (n - 1) as nat, j - 1));
                let c = choose|idx: int| #[trigger] is_nth_significant(ts, (n - 1) as nat, idx);
                lemma_nth_unique(ts, (n - 1) as nat, c, j - 1);
                assert(error_span(ts, n) == Span { start: ts[j - 1].1.end, end: ts[j - 1].1.end });
            }
            return Span { start: tokens[j - 1].1.end, end: tokens[j - 1].1.end };
        }
        j = j - 1;
    }
    proof {
        assert(ts.take(0) =~= Seq::<(Token, Span)>::empty());
    }
    Span { start: 0, end: 0 }
}

/// The message of an error that expected one of the kinds.
fn error_message_of(expected: &Vec<SyntaxKind>) -> (r: String)
    ensures
        r@ == error_message(expected@),
{
    let mut s = String::new();
    if expected.len() == 0 {
        s.append("Syntax Error: unexpected token");
        assert(s@ =~= "Syntax Error: unexpected token"@);
        return s;
    }
    s.append("Syntax Error: expected ");
    let mut i: usize = 0;
    while i < expected.len()
        invariant
            i <= expected.len(),
            s@ == "Syntax Error: expected "@ + kind_names(expected@.take(i as int)),
        decreases expected.len() - i,
    {
        let ghost before = s@;
        if i > 0 {
            s.append(" or ");
        }
        s.append(expected[i].name());
        proof {
            let t = expected@.take(i + 1);
            assert(t.drop_last() =~= expected@.take(i as int));
            if i == 0 {
                assert(expected@.take(0) =~= Seq::<SyntaxKind>::empty());
                assert(s@ =~= "Syntax Error: expected "@ + kind_names(t));
            } else {
                assert(s@ =~= "Syntax Error: expected "@ + kind_names(t));
            }
        }
        i = i + 1;
    }
    proof {
        assert(expected@.take(i as int) =~= expected@);
    }
    s
}

/// A tree under construction: its root is still open and every element
/// after the root lies inside it.
pub open spec fn building(es: Seq<Element>) -> bool {
    &&& es.len() > 0
    &&& es[0] is Start
    &&& open_nodes(es) is Some
    &&& open_nodes(es).unwrap().len() >= 1
    &&& open_nodes(es).unwrap()[0] == 0
    &&& forall|m: int|
        #![trigger open_nodes(es.take(m))]
        0 < m < es.len() ==> open_nodes(es.take(m)) is Some && enclosing(es, m).len() >= 1
            && enclosing(es, m)[0] == 0
}

pub proof fn lemma_tree_tokens_push(es: Seq<Element>, e: Element)
    ensures
        tree_tokens(es.push(e)) == (match e {
            Element::Token(t, sp) => tree_tokens(es).push((t.kind, t.text@, sp)),
            _ => tree_tokens(es),
        }),
{
    assert(es.push(e).drop_last() =~= es);
}

/// Adding an element keeps a tree under construction, unless it closes the
/// root.
pub proof fn lemma_building_push(es: Seq<Element>, e: Element)
    requires
        building(es),
        e is Finish ==> open_nodes(es).unwrap().len() >= 2,
    ensures
        building(es.push(e)),
        open_nodes(es.push(e)) == open_step(open_nodes(es), e, es.len() as int),
        es.push(e)[0] == es[0],
        tree_tokens(es.push(e)) == (match e {
            Element::Token(t, sp) => tree_tokens(es).push((t.kind, t.text@, sp)),
            _ => tree_tokens(es),
        }),
{
    lemma_open_nodes_push(es, e);
    lemma_tree_tokens_push(es, e);
    let n = es.push(e);
    assert forall|m: int| #![trigger open_nodes(n.take(m))] 0 < m < n.len() implies open_nodes(n.take(m)) is Some
        && enclosing(n, m).len() >= 1 && enclosing(n, m)[0] == 0 by {
        lemma_take_push(es, e, m);
        if m == es.len() {
            assert(es.take(m) =~= es);
        }
    }
}

/// Closing the root of a tree under construction completes it.
pub proof fn lemma_finish_root(es: Seq<Element>)
    requires
        building(es),
        open_nodes(es).unwrap().len() == 1,
    ensures
        crate::syntax_tree::well_formed(es.push(Element::Finish)),
        es.push(Element::Finish)[0] == es[0],
        tree_tokens(es.push(Element::Finish)) == tree_tokens(es),
{
    lemma_open_nodes_push(es, Element::Finish);
    lemma_tree_tokens_push(es, Element::Finish);
    let n = es.push(Element::Finish);
    assert(open_nodes(es).unwrap().drop_last() =~= Seq::<int>::empty());
    assert forall|m: int| #![trigger open_nodes(n.take(m))] 0 < m < n.len() implies open_nodes(n.take(m)) is Some
        && enclosing(n, m).len() >= 1 && enclosing(n, m)[0] == 0 by {
        lemma_take_push(es, Element::Finish, m);
        if m == es.len() {
            assert(es.take(m) =~= es);
        }
    }
}

/// A copy of a token.
fn copy_token(t: &Token) -> (r: Token)
    ensures
        r.kind == t.kind,
        r.text@ == t.text@,
{
    Token { kind: t.kind, text: t.text.clone() }
}

/// A copy of a span.
fn copy_span(s: &Span) -> (r: Span)
    ensures
        r == *s,
{
    Span { start: s.start, end: s.end }
}

/// Moves the whitespace and comment tokens at the cursor into the tree.
fn eat_trivia(tokens: &Vec<(Token, Span)>, cursor: &mut usize, out: &mut Vec<Element>)
    requires
        building(old(out)@),
        *old(cursor) <= tokens.len(),
        tree_tokens(old(out)@) == token_views(tokens@.take(*old(cursor) as int)),
    ensures
        building(final(out)@),
        final(out)@.len() >= old(out)@.len(),
        open_nodes(final(out)@) == open_nodes(old(out)@),
        final(out)@[0] == old(out)@[0],
        *old(cursor) <= *final(cursor) <= tokens.len(),
        tree_tokens(final(out)@) == token_views(tokens@.take(*final(cursor) as int)),
        significant_count(tokens@.take(*final(cursor) as int)) == significant_count(
            tokens@.take(*old(cursor) as int),
        ),
        *final(cursor) < tokens.len() ==> !trivia_kind(tokens@[*final(cursor) as int].0.kind),
        skeleton(final(out)@) == skeleton(old(out)@),
{
    while *cursor < tokens.len() && tokens[*cursor].0.is_trivia()
        invariant
            skeleton(out@) == skeleton(old(out)@),
            building(out@),
            out@.len() >= old(out)@.len(),
            open_nodes(out@) == open_nodes(old(out)@),
            out@[0] == old(out)@[0],
            *old(cursor) <= *cursor <= tokens.len(),
            tree_tokens(out@) == token_views(tokens@.take(*cursor as int)),
            significant_count(tokens@.take(*cursor as int)) == significant_count(
                tokens@.take(*old(cursor) as int),
            ),
        decreases tokens.len() - *cursor,
    {
        let c = *cursor;
        let e = Element::Token(copy_token(&tokens[c].0), copy_span(&tokens[c].1));
        proof {
            lemma_skeleton_push(out@, e);
            assert(skeleton(out@) + Seq::<Ev>::empty() =~= skeleton(out@));
            lemma_building_push(out@, e);
            lemma_significant_next(tokens@, c as int);
            assert(token_views(tokens@.take(c + 1)) =~= token_views(tokens@.take(c as int)).push(
                (tokens@[c as int].0.kind, tokens@[c as int].0.text@, tokens@[c as int].1),
            ));
        }
        out.push(e);
        *cursor = c + 1;
    }
}

/// Builds the syntax tree from the tokens (whitespace and comments
/// included) and the parser's events, and collects the reported errors.
///
/// Whitespace and comments go into the node that is open when they are
/// read, except that they are put after, not into, a node that starts right
/// after them. A `Close` that would close the root before the end is
/// ignored; the parser produces none.
pub fn build_tree(tokens: &Vec<(Token, Span)>, events: &Vec<Event>) -> (r: (SyntaxTree, Vec<ParseError>))
    requires
        events.len() >= 1,
        events@[0] == (Event::Open { kind: SyntaxKind::QueryUnit }) || events@[0] == (Event::Open {
            kind: SyntaxKind::UpdateUnit,
        }),
        events@.last() is Close,
        advance_count(events@) == significant_count(tokens@),
    ensures
        r.0.wf(),
        r.0@[0] == Element::Start(events@[0]->Open_kind),
        tree_tokens(r.0@) == token_views(tokens@),
        error_views(r.1@) == reported_errors(events@, tokens@, events.len() - 1),
        skeleton(r.0@) == built_skeleton(events_view(events@)),
{
    let ghost ts = tokens@;
    let ghost evs = events@;
    let ghost root = events@[0]->Open_kind;
    let mut out: Vec<Element> = Vec::new();
    let mut errors: Vec<ParseError> = Vec::new();
    let mut cursor: usize = 0;
    let mut depth: usize = 0;
    let mut k: usize = 0;
    let last = events.len() - 1;
    proof {
        assert(evs.take(0) =~= Seq::<Event>::empty());
        assert(ts.take(0) =~= Seq::<(Token, Span)>::empty());
        assert(token_views(ts.take(0)) =~= Seq::<(SyntaxKind, Seq<char>, Span)>::empty());
    }
    while k < last
        invariant
            ts == tokens@,
            evs == events@,
            last == evs.len() - 1,
            evs[0] == (Event::Open { kind: root }),
            root == SyntaxKind::QueryUnit || root == SyntaxKind::UpdateUnit,
            advance_count(evs) == significant_count(ts),
            k <= last,
            cursor <= ts.len(),
            significant_count(ts.take(cursor as int)) == advance_count(evs.take(k as int)),
            tree_tokens(out@) == token_views(ts.take(cursor as int)),
            k == 0 ==> out@.len() == 0 && depth == 0 && cursor == 0,
            depth <= out@.len(),
            k > 0 ==> building(out@) && out@[0] == Element::Start(root) && open_nodes(out@).unwrap().len()
                == depth,
            error_views(errors@) == reported_errors(evs, ts, k as int),
            skeleton(out@) == built(events_view(evs), k as int).0,
            depth == built(events_view(evs), k as int).1,
        decreases last - k,
    {
        proof {
            assert(events_view(evs)[k as int] == super::ev_view(evs[k as int]));
        }
        proof {
            lemma_advance_next(evs, k as int);
            lemma_advance_monotone(evs, k + 1, evs.len() as int);
            assert(evs.take(evs.len() as int) =~= evs);
        }
        match &events[k] {
            Event::Open { kind } => {
                if !matches!(kind, SyntaxKind::QueryUnit | SyntaxKind::UpdateUnit) {
                    eat_trivia(tokens, &mut cursor, &mut out);
                }
                let e = Element::Start(*kind);
                proof {
                    if k > 0 {
                        lemma_building_push(out@, e);
                    } else {
                        lemma_open_nodes_push(out@, e);
                        lemma_tree_tokens_push(out@, e);
                        assert(out@.push(e) =~= seq![e]);
                        assert(open_nodes(seq![e]) == Some(seq![0int]));
                    }
                }
                let ghost mid = out@;
                out.push(e);
                proof {
                    lemma_skeleton_push(mid, e);
                    assert(skeleton(mid) + seq![Ev::Open(*kind)] =~= skeleton(mid).push(Ev::Open(*kind)));
                }
                let size = out.len();
                assert(depth < size);
                depth = depth + 1;
            },
            Event::Error { expected } => {
                let span = error_span_at(tokens, cursor);
                let message = error_message_of(expected);
                let ghost before = errors@;
                errors.push(ParseError { span, message });
                proof {
                    assert(error_views(errors@) =~= error_views(before).push((span, message@)));
                }
            },
            Event::Close => {
                if depth > 1 {
                    proof {
                        lemma_building_push(out@, Element::Finish);
                        lemma_skeleton_push(out@, Element::Finish);
                        assert(skeleton(out@) + seq![Ev::Close] =~= skeleton(out@).push(Ev::Close));
                    }
                    out.push(Element::Finish);
                    depth = depth - 1;
                }
            },
            Event::Advance => {
                eat_trivia(tokens, &mut cursor, &mut out);
                proof {
                    lemma_significant_all(ts);
                    if cursor == ts.len() {
                        assert(false);
                    }
                    lemma_significant_next(ts, cursor as int);
                    lemma_significant_monotone(ts, cursor + 1, ts.len() as int);
                }
                let e = Element::Token(copy_token(&tokens[cursor].0), copy_span(&tokens[cursor].1));
                proof {
                    lemma_skeleton_push(out@, e);
                    assert(skeleton(out@) + seq![Ev::Advance] =~= skeleton(out@).push(Ev::Advance));
                    lemma_building_push(out@, e);
                    assert(token_views(ts.take(cursor + 1)) =~= token_views(ts.take(cursor as int)).push(
                        (ts[cursor as int].0.kind, ts[cursor as int].0.text@, ts[cursor as int].1),
                    ));
                }
                out.push(e);
                cursor = cursor + 1;
            },
        }
        k = k + 1;
    }
    proof {
        lemma_advance_next(evs, last as int);
        assert(evs.take(evs.len() as int) =~= evs);
    }
    eat_trivia(tokens, &mut cursor, &mut out);
    proof {
        lemma_significant_all(ts);
        if cursor < ts.len() {
            lemma_significant_next(ts, cursor as int);
            lemma_significant_monotone(ts, cursor + 1, ts.len() as int);
        }
        assert(ts.take(ts.len() as int) =~= ts);
    }
    let ghost d0 = depth;
    let ghost s0 = built(events_view(evs), last as int).0;
    proof {
        assert(s0 + closes_n(0) =~= s0);
    }
    while depth > 1
        invariant
            building(out@),
            out@[0] == Element::Start(root),
            open_nodes(out@).unwrap().len() == depth,
            tree_tokens(out@) == token_views(ts),
            depth <= d0,
            skeleton(out@) == s0 + closes_n(d0 - depth),
        decreases depth,
    {
        proof {
            lemma_building_push(out@, Element::Finish);
            lemma_skeleton_push(out@, Element::Finish);
            assert((s0 + closes_n(d0 - depth)) + seq![Ev::Close] =~= s0 + closes_n(d0 - depth + 1));
        }
        out.push(Element::Finish);
        depth = depth - 1;
    }
    proof {
        lemma_finish_root(out@);
        lemma_skeleton_push(out@, Element::Finish);
        assert(closes_n(d0 - depth) =~= closes_n(d0 - 1));
    }
    out.push(Element::Finish);
    (SyntaxTree { elements: out }, errors)
}

/// No token is consumed strictly between events `a` and `b`.
pub open spec fn no_advance_between(events: Seq<Event>, a: int, b: int) -> bool {
    forall|m: int| a < m < b ==> !(#[trigger] events[m] is Advance)
}

/// The `Close` at `c` ends a node that holds no token and lies inside
/// another node.
pub open spec fn closes_empty_inner(events: Seq<Event>, c: int) -> bool {
    &&& 0 <= c < events.len()
    &&& events[c] is Close
    &&& open_stack(events.take(c)) is Some
    &&& open_stack(events.take(c)).unwrap().len() >= 2
    &&& no_advance_between(events, open_stack(events.take(c)).unwrap().last(), c)
}

/// The `Close` at `c` ends the node opened at `o`.
pub open spec fn closes(events: Seq<Event>, o: int, c: int) -> bool {
    &&& 0 <= o < c < events.len()
    &&& events[c] is Close
    &&& open_stack(events.take(c)) is Some
    &&& open_stack(events.take(c)).unwrap().len() > 0
    &&& open_stack(events.take(c)).unwrap().last() == o
}

/// Event `k` belongs to a node that holds no token and lies inside another
/// node: its `Open` or its `Close`.
pub open spec fn in_empty_inner(events: Seq<Event>, k: int) -> bool {
    ||| closes_empty_inner(events, k)
    ||| (events[k] is Open && exists|c: int| #[trigger] closes(events, k, c) && closes_empty_inner(events, c))
}

/// The first `n` events without those of empty inner nodes.
pub open spec fn kept_events(events: Seq<Event>, n: int) -> Seq<Event>
    decreases n,
{
    if n <= 0 {
        Seq::empty()
    } else if in_empty_inner(events, n - 1) {
        kept_events(events, n - 1)
    } else {
        kept_events(events, n - 1).push(events[n - 1])
    }
}

/// The open nodes are `Open` events in increasing positions.
pub proof fn lemma_open_stack_opens(events: Seq<Event>)
    requires
        open_stack(events) is Some,
    ensures
        ({
            let s = open_stack(events).unwrap();
            &&& forall|j: int| 0 <= j < s.len() ==> 0 <= #[trigger] s[j] < events.len() && events[s[j]] is Open
            &&& forall|j: int, k: int| 0 <= j < k < s.len() ==> #[trigger] s[j] < #[trigger] s[k]
        }),
    decreases events.len(),
{
    if events.len() > 0 {
        assert(open_stack(events.drop_last()) is Some);
        lemma_open_stack_opens(events.drop_last());
    }
}

pub proof fn lemma_stack_prefix(events: Seq<Event>, i: int)
    requires
        open_stack(events) is Some,
        0 <= i <= events.len(),
    ensures
        open_stack(events.take(i)) is Some,
    decreases events.len() - i,
{
    if i == events.len() {
        assert(events.take(i) =~= events);
    } else {
        lemma_stack_prefix(events, i + 1);
        lemma_advance_next(events, i);
    }
}

/// A node that has been closed is not open again later.
pub proof fn lemma_closed_stays_closed(events: Seq<Event>, o: int, a: int, b: int)
    requires
        0 <= o < a <= b <= events.len(),
        open_stack(events.take(b)) is Some,
        !open_stack(events.take(a)).unwrap().contains(o),
    ensures
        !open_stack(events.take(b)).unwrap().contains(o),
    decreases b - a,
{
    if a < b {
        lemma_advance_next(events, b - 1);
        assert(open_stack(events.take(b - 1)) is Some);
        lemma_closed_stays_closed(events, o, a, b - 1);
        let s = open_stack(events.take(b - 1)).unwrap();
        let t = open_stack(events.take(b)).unwrap();
        assert forall|j: int| 0 <= j < t.len() implies t[j] != o by {
            if j < s.len() {
                assert(t[j] == s[j]);
                if s[j] == o {
                    assert(s.contains(o));
                }
            }
        }
    }
}

/// Every node is closed at most once.
pub proof fn lemma_closer_unique(events: Seq<Event>, o: int, c: int, d: int)
    requires
        open_stack(events) is Some,
        closes(events, o, c),
        closes(events, o, d),
    ensures
        c == d,
{
    if c < d {
        lemma_stack_prefix(events, d);
        lemma_advance_next(events, c);
        lemma_open_stack_opens(events.take(c));
        lemma_not_after_pop(events, o, c);
        lemma_closed_stays_closed(events, o, c + 1, d);
        assert(open_stack(events.take(d)).unwrap().contains(o));
    } else if d < c {
        lemma_stack_prefix(events, c);
        lemma_advance_next(events, d);
        lemma_open_stack_opens(events.take(d));
        lemma_not_after_pop(events, o, d);
        lemma_closed_stays_closed(events, o, d + 1, c);
        assert(open_stack(events.take(c)).unwrap().contains(o));
    }
}

/// Right after the `Close` of a node, the node is not open.
pub proof fn lemma_not_after_pop(events: Seq<Event>, o: int, c: int)
    requires
        closes(events, o, c),
        open_stack(events.take(c + 1)) is Some,
    ensures
        !open_stack(events.take(c + 1)).unwrap().contains(o),
{
    lemma_advance_next(events, c);
    lemma_open_stack_opens(events.take(c));
    let s = open_stack(events.take(c)).unwrap();
    let t = open_stack(events.take(c + 1)).unwrap();
    assert(t =~= s.drop_last());
    assert forall|j: int| 0 <= j < t.len() implies t[j] != o by {
        assert(t[j] == s[j]);
        assert(s[j] < s[s.len() - 1]);
    }
}

/// Drops the `Open`/`Close` pairs of nodes that hold no token and lie
/// inside another node; the parser leaves such nodes behind when it
/// recovers from errors. The outermost nodes are kept.
pub fn remove_empty_nodes(events: Vec<Event>) -> (r: Vec<Event>)
    requires
        open_stack(events@) is Some,
    ensures
        r@ == kept_events(events@, events@.len() as int),
{
    let ghost evs = events@;
    let n = events.len();
    let mut remove: Vec<bool> = Vec::new();
    let mut stack: Vec<(usize, bool)> = Vec::new();
    let mut i: usize = 0;
    proof {
        assert(evs.take(0) =~= Seq::<Event>::empty());
    }
    while i < n
        invariant
            evs == events@,
            n == evs.len(),
            open_stack(evs) is Some,
            i <= n,
            remove@.len() == i,
            open_stack(evs.take(i as int)) is Some,
            stack@.len() == open_stack(evs.take(i as int)).unwrap().len(),
            forall|j: int|
                0 <= j < stack@.len() ==> #[trigger] stack@[j].0 as int == open_stack(evs.take(i as int)).unwrap()[j],
            forall|j: int|
                0 <= j < stack@.len() ==> #[trigger] stack@[j].1 == !no_advance_between(
                    evs,
                    stack@[j].0 as int,
                    if j + 1 < stack@.len() {
                        stack@[j + 1].0 as int
                    } else {
                        i as int
                    },
                ),
            forall|m: int|
                0 <= m < i ==> #[trigger] remove@[m] == (closes_empty_inner(evs, m) || (evs[m] is Open
                    && exists|c: int| c < i && #[trigger] closes(evs, m, c) && closes_empty_inner(evs, c))),
        decreases n - i,
    {
        proof {
            lemma_stack_prefix(evs, i + 1);
            lemma_advance_next(evs, i as int);
            lemma_open_stack_opens(evs.take(i as int));
        }
        let ghost st0 = stack@;
        let ghost rm0 = remove@;
        let ghost s = open_stack(evs.take(i as int)).unwrap();
        match &events[i] {
            Event::Open { .. } => {
                stack.push((i, false));
                remove.push(false);
                proof {
                    assert forall|j: int| 0 <= j < stack@.len() implies #[trigger] stack@[j].0 as int == open_stack(
                        evs.take(i + 1),
                    ).unwrap()[j] by {}
                    assert forall|m: int| 0 <= m < i + 1 implies #[trigger] remove@[m] == (closes_empty_inner(evs, m)
                        || (evs[m] is Open && exists|c: int| c < i + 1 && #[trigger] closes(evs, m, c)
                        && closes_empty_inner(evs, c))) by {
                        if m < i {
                            assert(remove@[m] == rm0[m]);
                            assert(!closes(evs, m, i as int));
                        } else {
                            assert forall|c: int| c < i + 1 implies !#[trigger] closes(evs, m, c) by {}
                        }
                    }
                }
            },
            Event::Advance => {
                if stack.len() > 0 {
                    let top = stack.len() - 1;
                    let entry = stack[top];
                    stack.set(top, (entry.0, true));
                }
                remove.push(false);
                proof {
                    assert forall|m: int| 0 <= m < i + 1 implies #[trigger] remove@[m] == (closes_empty_inner(evs, m)
                        || (evs[m] is Open && exists|c: int| c < i + 1 && #[trigger] closes(evs, m, c)
                        && closes_empty_inner(evs, c))) by {
                        if m < i {
                            assert(remove@[m] == rm0[m]);
                            assert(!closes(evs, m, i as int));
                        }
                    }
                }
            },
            Event::Error { .. } => {
                remove.push(false);
                proof {
                    assert forall|m: int| 0 <= m < i + 1 implies #[trigger] remove@[m] == (closes_empty_inner(evs, m)
                        || (evs[m] is Open && exists|c: int| c < i + 1 && #[trigger] closes(evs, m, c)
                        && closes_empty_inner(evs, c))) by {
                        if m < i {
                            assert(remove@[m] == rm0[m]);
                            assert(!closes(evs, m, i as int));
                        }
                    }
                }
            },
            Event::Close => {
                let (open_index, has_tokens) = stack.pop().unwrap();
                remove.push(false);
                if !has_tokens && stack.len() > 0 {
                    remove.set(open_index, true);
                    remove.set(i, true);
                } else if has_tokens && stack.len() > 0 {
                    let top = stack.len() - 1;
                    let entry = stack[top];
                    stack.set(top, (entry.0, true));
                }
                proof {
                    assert(closes(evs, open_index as int, i as int));
                    assert(closes_empty_inner(evs, i as int) == (!has_tokens && stack@.len() > 0));
                    assert forall|m: int| 0 <= m < i + 1 implies #[trigger] remove@[m] == (closes_empty_inner(evs, m)
                        || (evs[m] is Open && exists|c: int| c < i + 1 && #[trigger] closes(evs, m, c)
                        && closes_empty_inner(evs, c))) by {
                        if m < i && m != open_index {
                            assert(remove@[m] == rm0[m]);
                            if closes(evs, m, i as int) {
                                assert(m == open_index);
                            }
                        } else if m == open_index {
                            assert(evs[m] is Open);
                            assert(!closes_empty_inner(evs, m));
                            assert forall|c: int| c < i && #[trigger] closes(evs, m, c) implies false by {
                                lemma_closer_unique(evs, m, c, i as int);
                            }
                        }
                    }
                }
            },
        }
        i = i + 1;
    }
    let mut rest = events;
    let mut out: Vec<Event> = Vec::new();
    let mut k: usize = 0;
    while k < n
        invariant
            n == evs.len(),
            k <= n,
            rest@.len() == n,
            remove@.len() == n,
            forall|m: int| k <= m < n ==> #[trigger] rest@[m] == evs[m],
            forall|m: int| 0 <= m < n ==> #[trigger] remove@[m] == in_empty_inner(evs, m),
            out@ == kept_events(evs, k as int),
        decreases n - k,
    {
        let mut e = Event::Advance;
        std::mem::swap(&mut e, &mut rest[k]);
        if !remove[k] {
            out.push(e);
        }
        k = k + 1;
    }
    out
}

/// Dropping empty inner nodes keeps the consumed tokens.
pub proof fn lemma_kept_advances(events: Seq<Event>, n: int)
    requires
        0 <= n <= events.len(),
    ensures
        advance_count(kept_events(events, n)) == advance_count(events.take(n)),
    decreases n,
{
    if n > 0 {
        lemma_kept_advances(events, n - 1);
        lemma_advance_next(events, n - 1);
        if !in_empty_inner(events, n - 1) {
            super::lemma_push(kept_events(events, n - 1), events[n - 1]);
        }
    } else {
        assert(events.take(0) =~= Seq::<Event>::empty());
    }
}

/// The first event, an `Open` at the bottom of every stack, is kept.
pub proof fn lemma_kept_first(events: Seq<Event>, n: int)
    requires
        open_stack(events) is Some,
        events.len() >= 1,
        events[0] is Open,
        1 <= n <= events.len(),
    ensures
        kept_events(events, n).len() >= 1,
        kept_events(events, n)[0] == events[0],
    decreases n,
{
    if n == 1 {
        assert(!in_empty_inner(events, 0)) by {
            if exists|c: int| #[trigger] closes(events, 0, c) && closes_empty_inner(events, c) {
                let c = choose|c: int| #[trigger] closes(events, 0, c) && closes_empty_inner(events, c);
                lemma_open_stack_opens(events.take(c));
                let s = open_stack(events.take(c)).unwrap();
                assert(s[0] < s[s.len() - 1]);
            }
        }
        assert(kept_events(events, 0) =~= Seq::<Event>::empty());
    } else {
        lemma_kept_first(events, n - 1);
    }
}

/// The last event, a `Close` that empties the stack, is kept.
pub proof fn lemma_kept_last(events: Seq<Event>)
    requires
        open_stack(events) == Some(Seq::<int>::empty()),
        events.len() >= 1,
        events.last() is Close,
    ensures
        kept_events(events, events.len() as int).len() >= 1,
        kept_events(events, events.len() as int).last() == events.last(),
{
    let n = events.len() as int;
    lemma_advance_next(events, n - 1);
    assert(events.take(n) =~= events);
    assert(open_stack(events.take(n)) == open_stack(events));
    assert(events[n - 1] is Close);
    assert(open_stack(events.take(n - 1)) is Some);
    let s = open_stack(events.take(n - 1)).unwrap();
    assert(s.len() > 0);
    assert(s.drop_last().len() == 0);
    assert(s.len() == 1);
}

/// The kinds of the tokens that are no whitespace or comment, in order.
pub open spec fn significant_token_kinds(ts: Seq<(Token, Span)>) -> Seq<SyntaxKind>
    decreases ts.len(),
{
    if ts.len() == 0 {
        Seq::empty()
    } else {
        let rest = significant_token_kinds(ts.drop_last());
        if trivia_kind(ts.last().0.kind) {
            rest
        } else {
            rest.push(ts.last().0.kind)
        }
    }
}

/// The tokens that the parser reads: those that are no whitespace or
/// comment.
fn significant_tokens(tokens: &Vec<(Token, Span)>) -> (r: Vec<Token>)
    requires
        forall|j: int| 0 <= j < tokens@.len() ==> (#[trigger] tokens@[j]).0.kind != SyntaxKind::Eof,
    ensures
        r@.len() == significant_count(tokens@),
        forall|j: int| 0 <= j < r@.len() ==> (#[trigger] r@[j]).kind != SyntaxKind::Eof,
        kinds_of(r@) == significant_token_kinds(tokens@),
{
    let mut r: Vec<Token> = Vec::new();
    let mut j: usize = 0;
    proof {
        assert(tokens@.take(0) =~= Seq::<(Token, Span)>::empty());
    }
    while j < tokens.len()
        invariant
            j <= tokens.len(),
            forall|m: int| 0 <= m < tokens@.len() ==> (#[trigger] tokens@[m]).0.kind != SyntaxKind::Eof,
            r@.len() == significant_count(tokens@.take(j as int)),
            forall|m: int| 0 <= m < r@.len() ==> (#[trigger] r@[m]).kind != SyntaxKind::Eof,
            kinds_of(r@) == significant_token_kinds(tokens@.take(j as int)),
        decreases tokens.len() - j,
    {
        proof {
            lemma_significant_next(tokens@, j as int);
            assert(tokens@.take(j + 1).drop_last() =~= tokens@.take(j as int));
        }
        let ghost before = r@;
        if !tokens[j].0.is_trivia() {
            r.push(copy_token(&tokens[j].0));
            proof {
                assert(kinds_of(r@) =~= kinds_of(before).push(tokens@[j as int].0.kind));
            }
        }
        j = j + 1;
    }
    proof {
        lemma_significant_all(tokens@);
        assert(tokens@.take(tokens@.len() as int) =~= tokens@);
    }
    r
}

/// Every span lies within `0..=bound` and starts no later than it ends.
pub open spec fn spans_within(ts: Seq<(Token, Span)>, bound: nat) -> bool {
    forall|j: int| 0 <= j < ts.len() ==> (#[trigger] ts[j]).1.start <= ts[j].1.end <= bound
}

/// Errors reported from tokens with spans within the bound lie within it.
pub proof fn lemma_error_spans_within(events: Seq<Event>, ts: Seq<(Token, Span)>, k: int, bound: nat)
    requires
        spans_within(ts, bound),
    ensures
        forall|j: int|
            0 <= j < reported_errors(events, ts, k).len() ==> (#[trigger] reported_errors(events, ts, k)[j]).0.start
                <= reported_errors(events, ts, k)[j].0.end <= bound,
    decreases k,
{
    if k > 0 {
        lemma_error_spans_within(events, ts, k - 1, bound);
        let n = advance_count(events.take(k - 1));
        let sp = error_span(ts, n);
        assert(sp.start <= sp.end <= bound) by {
            if exists|idx: int| is_nth_significant(ts, n, idx) {
                let idx = choose|idx: int| is_nth_significant(ts, n, idx);
                assert(ts[idx].1.start <= ts[idx].1.end <= bound);
            } else if n > 0 && exists|idx: int| #[trigger] is_nth_significant(ts, (n - 1) as nat, idx) {
                let idx = choose|idx: int| #[trigger] is_nth_significant(ts, (n - 1) as nat, idx);
                assert(ts[idx].1.start <= ts[idx].1.end <= bound);
            }
        }
        let rest = reported_errors(events, ts, k - 1);
        let all = reported_errors(events, ts, k);
        assert forall|j: int| 0 <= j < all.len() implies (#[trigger] all[j]).0.start <= all[j].0.end <= bound by {
            if j < rest.len() {
                assert(all[j] == rest[j]);
            } else {
                assert(all[j].0 == sp);
            }
        }
    }
}

/// The kind, text and byte range of each token of a text, in order.
pub open spec fn lexed_views(s: Seq<char>) -> Seq<(SyntaxKind, Seq<char>, Span)> {
    crate::lexer::tokens_from(s, 0).map_values(
        |t: (SyntaxKind, int, int)|
            (
                t.0,
                s.subrange(t.1, t.2),
                Span {
                    start: crate::lexer::byte_len(s.take(t.1)) as usize,
                    end: crate::lexer::byte_len(s.take(t.2)) as usize,
                },
            ),
    )
}

/// What a parse from the entry rule of `n` tokens gives: events that open
/// the entry's node first and close it last, nest properly and consume the
/// `n` tokens.
pub open spec fn entry_events_shape(e: Seq<Event>, entry: TopEntryPoint, n: nat) -> bool {
    &&& open_stack(e) == Some(Seq::<int>::empty())
    &&& advance_count(e) == n
    &&& e.len() >= 2
    &&& e[0] == (Event::Open { kind: entry.kind() })
    &&& e.last() is Close
}

/// The tree built and the errors reported from a parse's events: the tree's
/// structure is that of the events once the nodes that hold no token are
/// dropped, and the errors are those the events report.
pub open spec fn built_from(tree: Seq<Element>, errors: Seq<ParseError>, e: Seq<Event>, ts: Seq<(Token, Span)>) -> bool {
    let k = kept_events(e, e.len() as int);
    &&& skeleton(tree) == built_skeleton(events_view(k))
    &&& error_views(errors) == reported_errors(k, ts, k.len() - 1)
}

/// Parses the input from the entry rule into a lossless syntax tree: the
/// root has the entry's kind and the tree's tokens are the lexer's tokens of
/// the input, so that its text is the input. The errors are those the parser
/// reports.
pub fn parse_text(input: &str, entry: TopEntryPoint) -> (r: (SyntaxTree, Vec<ParseError>))
    ensures
        r.0.wf(),
        r.0@[0] == Element::Start(entry.kind()),
        tree_tokens(r.0@) == lexed_views(input@),
        all_text(r.0@) == input@,
        forall|j: int|
            0 <= j < r.1@.len() ==> (#[trigger] r.1@[j]).span.start <= r.1@[j].span.end <= crate::lexer::byte_len(
                input@,
            ),
        exists|ts: Seq<(Token, Span)>, e: Seq<Event>|
            token_views(ts) == lexed_views(input@) && entry_events_shape(e, entry, significant_count(ts))
                && events_view(e) == entry_events(entry, significant_token_kinds(ts)) && built_from(r.0@, r.1@, e, ts),
{
    let tokens = lex(input);
    let parse_input = significant_tokens(&tokens);
    let events = entry.parse(parse_input);
    let ghost parsed = events@;
    proof {
        assert(parsed.take(parsed.len() as int) =~= parsed);
    }
    let events = remove_empty_nodes(events);
    proof {
        lemma_kept_advances(parsed, parsed.len() as int);
        lemma_kept_first(parsed, parsed.len() as int);
        lemma_kept_last(parsed);
    }
    let (tree, errors) = build_tree(&tokens, &events);
    proof {
        lemma_all_text(tree@);
        lemma_texts(tokens@);
        crate::lexer::lemma_byte_len_utf8(input@);
        assert forall|j: int| 0 <= j < tokens@.len() implies #[trigger] token_views(tokens@)[j] == lexed_views(input@)[j] by {
            let (kind, start, end) = crate::lexer::tokens_from(input@, 0)[j];
            assert(tokens@[j].0.kind == kind);
        }
        assert(token_views(tokens@) =~= lexed_views(input@));
        assert forall|j: int| 0 <= j < tokens@.len() implies (#[trigger] tokens@[j]).1.start <= tokens@[j].1.end
            <= crate::lexer::byte_len(input@) by {
            let (kind, start, end) = crate::lexer::tokens_from(input@, 0)[j];
            crate::lexer::lemma_tokens_in_range(input@, j);
            crate::lexer::lemma_byte_len_monotone(input@, start, end);
            crate::lexer::lemma_byte_len_take(input@, end);
        }
        lemma_error_spans_within(events@, tokens@, events.len() - 1, crate::lexer::byte_len(input@));
        assert forall|j: int| 0 <= j < errors@.len() implies (#[trigger] errors@[j]).span.start <= errors@[j].span.end
            <= crate::lexer::byte_len(input@) by {
            assert(error_views(errors@)[j] == (errors@[j].span, errors@[j].message@));
        }
        assert(entry_events_shape(parsed, entry, significant_count(tokens@)));
        assert(built_from(tree@, errors@, parsed, tokens@));
    }
    (tree, errors)
}

} // verus!
