//! The event-based recursive-descent parser for SPARQL.
//!
//! The parser reads the non-trivia tokens and records a flat list of events:
//! `Open`/`Close` pairs delimit the nodes of the syntax tree, `Advance`
//! consumes one token and `Error` reports a syntax error.

pub mod grammar;
pub mod tree_builder;

use vstd::prelude::*;

use crate::lexer::{lex, tokens_from};
use crate::syntax_kind::SyntaxKind;
use crate::syntax_tree::{all_text, Element, SyntaxTree};
use grammar::{parse_QueryUnit, parse_UpdateUnit, rule_QueryUnit, rule_UpdateUnit};
pub use tree_builder::{lexed_views, parse_text, tree_tokens, ParseError};
use tree_builder::{built_from, entry_events_shape, significant_count, significant_token_kinds, token_views};
use crate::lexer::Span;

verus! {

/// A token handed to the parser: its kind and its text.
pub struct Token {
    pub kind: SyntaxKind,
    pub text: String,
}

impl Token {
    /// Whitespace and comments.
    pub fn is_trivia(&self) -> (r: bool)
        ensures
            r == (self.kind == SyntaxKind::WHITESPACE || self.kind == SyntaxKind::Comment),
    {
        matches!(self.kind, SyntaxKind::WHITESPACE | SyntaxKind::Comment)
    }

    pub fn kind(&self) -> (r: SyntaxKind)
        ensures
            r == self.kind,
    {
        self.kind
    }
}

/// One step of the parse.
pub enum Event {
    Open { kind: SyntaxKind },
    Error { expected: Vec<SyntaxKind> },
    Close,
    Advance,
}

/// The stack of still open nodes (indices of their `Open` events) after one
/// more event; `None` once a `Close` has no open node to close.
pub open spec fn stack_step(st: Option<Seq<int>>, e: Event, index: int) -> Option<Seq<int>> {
    match st {
        None => None,
        Some(s) => match e {
            Event::Open { .. } => Some(s.push(index)),
            Event::Close => if s.len() > 0 {
                Some(s.drop_last())
            } else {
                None
            },
            _ => Some(s),
        },
    }
}

/// The indices of the `Open` events that are not closed yet, or `None` when
/// the events close more nodes than they open.
pub open spec fn open_stack(events: Seq<Event>) -> Option<Seq<int>>
    decreases events.len(),
{
    if events.len() == 0 {
        Some(Seq::empty())
    } else {
        stack_step(open_stack(events.drop_last()), events.last(), events.len() - 1)
    }
}

/// The number of `Advance` events, i.e. of consumed tokens.
pub open spec fn advance_count(events: Seq<Event>) -> nat
    decreases events.len(),
{
    if events.len() == 0 {
        0
    } else {
        advance_count(events.drop_last()) + if events.last() is Advance {
            1nat
        } else {
            0nat
        }
    }
}

/// What an event says, as a plain value.
pub enum Ev {
    Open(SyntaxKind),
    Error(Seq<SyntaxKind>),
    Close,
    Advance,
}

pub open spec fn ev_view(e: Event) -> Ev {
    match e {
        Event::Open { kind } => Ev::Open(kind),
        Event::Error { expected } => Ev::Error(expected@),
        Event::Close => Ev::Close,
        Event::Advance => Ev::Advance,
    }
}

/// The events as plain values.
pub open spec fn events_view(es: Seq<Event>) -> Seq<Ev> {
    es.map_values(|e: Event| ev_view(e))
}

/// The parser's state as plain values: the events so far and the position
/// in the tokens.
pub struct St {
    pub evs: Seq<Ev>,
    pub pos: int,
}

/// The kinds of the tokens handed to the parser.
pub open spec fn kinds_of(ts: Seq<Token>) -> Seq<SyntaxKind> {
    ts.map_values(|t: Token| t.kind)
}

/// The kind of the token at `pos`, `Eof` past the end.
pub open spec fn peek_at(ts: Seq<SyntaxKind>, pos: int) -> SyntaxKind {
    if 0 <= pos < ts.len() {
        ts[pos]
    } else {
        SyntaxKind::Eof
    }
}

pub open spec fn st_push(s: St, e: Ev) -> St {
    St { evs: s.evs.push(e), ..s }
}

/// Opening a node: an `Open` that is named when the node is closed.
#[verifier::opaque]
pub open spec fn st_open(s: St) -> St {
    st_push(s, Ev::Open(SyntaxKind::Error))
}

/// Closing the node opened at `m` as a node of kind `k`.
#[verifier::opaque]
pub open spec fn st_close(s: St, m: int, k: SyntaxKind) -> St {
    St { evs: s.evs.update(m, Ev::Open(k)).push(Ev::Close), ..s }
}

/// Consuming the next token.
#[verifier::opaque]
pub open spec fn st_advance(s: St) -> St {
    St { evs: s.evs.push(Ev::Advance), pos: s.pos + 1, ..s }
}

/// Consuming a token of kind `k`, or reporting that one was expected.
#[verifier::opaque]
pub open spec fn st_expect(ts: Seq<SyntaxKind>, s: St, k: SyntaxKind) -> St {
    if peek_at(ts, s.pos) == k {
        st_advance(s)
    } else {
        st_push(s, Ev::Error(seq![k]))
    }
}

/// Reporting an error and, unless the next token is a recovery token,
/// wrapping it in an `Error` node.
#[verifier::opaque]
pub open spec fn st_advance_with_error(ts: Seq<SyntaxKind>, s: St, expected: Seq<SyntaxKind>) -> St {
    let s = st_push(s, Ev::Error(expected));
    if is_recovery(peek_at(ts, s.pos)) {
        s
    } else {
        st_close(st_advance(st_open(s)), s.evs.len() as int, SyntaxKind::Error)
    }
}

/// Consuming tokens up to the next one of the recovery kinds or the end.
pub open spec fn skip_until(ts: Seq<SyntaxKind>, recovery: Seq<SyntaxKind>, s: St) -> St
    decreases ts.len() - s.pos,
{
    if 0 <= s.pos < ts.len() && !recovery.contains(ts[s.pos]) {
        skip_until(ts, recovery, St { evs: s.evs.push(Ev::Advance), pos: s.pos + 1, ..s })
    } else {
        s
    }
}

/// Reporting an error and wrapping every token up to the next recovery
/// token in one `Error` node.
#[verifier::opaque]
pub open spec fn st_error_until(
    ts: Seq<SyntaxKind>,
    s: St,
    expected: Seq<SyntaxKind>,
    recovery: Seq<SyntaxKind>,
) -> St {
    let s = st_push(s, Ev::Error(expected));
    if recovery.contains(peek_at(ts, s.pos)) || s.pos == ts.len() {
        s
    } else {
        st_close(skip_until(ts, recovery, st_open(s)), s.evs.len() as int, SyntaxKind::Error)
    }
}

/// A rule entered at `start` may call the next rule at `s`: the input has
/// moved on since, or the callee ranks lower at the same place.
pub open spec fn call_ok(ts: Seq<SyntaxKind>, start: int, s: St, callee: nat, caller: nat) -> bool {
    &&& start <= s.pos <= ts.len()
    &&& (start < s.pos || callee < caller)
}

pub proof fn lemma_view_push(es: Seq<Event>, e: Event)
    ensures
        events_view(es.push(e)) == events_view(es).push(ev_view(e)),
{
    assert(events_view(es.push(e)) =~= events_view(es).push(ev_view(e)));
}

pub proof fn lemma_view_update(es: Seq<Event>, i: int, e: Event)
    requires
        0 <= i < es.len(),
    ensures
        events_view(es.update(i, e)) == events_view(es).update(i, ev_view(e)),
{
    assert(events_view(es.update(i, e)) =~= events_view(es).update(i, ev_view(e)));
}

/// Closing the node that was opened last gives back the stack before it.
pub broadcast proof fn lemma_push_drop_last(s: Seq<int>, x: int)
    ensures
        #[trigger] s.push(x).drop_last() == s,
{
    assert(s.push(x).drop_last() =~= s);
}

pub proof fn lemma_push(events: Seq<Event>, e: Event)
    ensures
        open_stack(events.push(e)) == stack_step(open_stack(events), e, events.len() as int),
        advance_count(events.push(e)) == advance_count(events) + if e is Advance {
            1nat
        } else {
            0nat
        },
{
    assert(events.push(e).drop_last() =~= events);
}

/// Renaming an open node keeps the nesting and the consumed tokens.
pub proof fn lemma_rename_open(events: Seq<Event>, i: int, kind: SyntaxKind)
    requires
        0 <= i < events.len(),
        events[i] is Open,
    ensures
        open_stack(events.update(i, Event::Open { kind })) == open_stack(events),
        advance_count(events.update(i, Event::Open { kind })) == advance_count(events),
    decreases events.len(),
{
    let updated = events.update(i, Event::Open { kind });
    if i == events.len() - 1 {
        assert(updated.drop_last() =~= events.drop_last());
    } else {
        assert(updated.drop_last() =~= events.drop_last().update(i, Event::Open { kind }));
        lemma_rename_open(events.drop_last(), i, kind);
    }
}

pub struct Parser {
    pub tokens: Vec<Token>,
    pub pos: usize,
    pub events: Vec<Event>,
}

/// The index of the `Open` event of a node that is still open.
#[derive(Clone, Copy)]
pub struct MarkOpened {
    pub index: usize,
}

/// Tokens at which error recovery stops: they mark the start or end of a
/// major construct and are left for an enclosing rule to consume.
pub open spec fn is_recovery(k: SyntaxKind) -> bool {
    k == SyntaxKind::WHERE || k == SyntaxKind::LCurly || k == SyntaxKind::RCurly
}

/// The usual places where a rule stops without consuming anything: the end of
/// the input and the recovery tokens.
pub open spec fn is_sync_point(k: SyntaxKind) -> bool {
    k == SyntaxKind::Eof || is_recovery(k)
}

impl Parser {
    /// The kind of the next token, `Eof` at the end of the input.
    pub open spec fn peek(&self) -> SyntaxKind {
        if self.pos < self.tokens.len() {
            self.tokens@[self.pos as int].kind
        } else {
            SyntaxKind::Eof
        }
    }

    /// The parser's state as plain values.
    #[verifier::opaque]
    pub open spec fn st(&self) -> St {
        St { evs: events_view(self.events@), pos: self.pos as int }
    }

    /// The kinds of the tokens.
    pub open spec fn kinds(&self) -> Seq<SyntaxKind> {
        kinds_of(self.tokens@)
    }

    pub open spec fn remaining(&self) -> nat {
        (self.tokens.len() - self.pos) as nat
    }

    pub open spec fn stack(&self) -> Seq<int> {
        open_stack(self.events@).unwrap()
    }

    pub open spec fn wf(&self) -> bool {
        &&& self.pos <= self.tokens.len()
        &&& open_stack(self.events@) is Some
        &&& advance_count(self.events@) == self.pos
        &&& forall|i: int| 0 <= i < self.tokens.len() ==> self.tokens@[i].kind != SyntaxKind::Eof
        &&& forall|j: int| 0 <= j < self.stack().len() ==> 0 <= #[trigger] self.stack()[j] < self.events.len()
        &&& forall|j: int| 0 <= j < self.stack().len() ==> self.events@[#[trigger] self.stack()[j]] is Open
        &&& self.st().pos == self.pos
        &&& self.st().evs.len() == self.events@.len()
    }

    /// What every grammar rule keeps: the input, the nesting of open nodes,
    /// and the consumed tokens, which only grow.
    pub open spec fn step(old: Parser, new: Parser) -> bool {
        &&& new.wf()
        &&& new.tokens@ == old.tokens@
        &&& old.pos <= new.pos
        &&& new.stack() == old.stack()
    }

    pub fn new(input: Vec<Token>) -> (p: Self)
        requires
            forall|i: int| 0 <= i < input.len() ==> input@[i].kind != SyntaxKind::Eof,
        ensures
            p.wf(),
            p.tokens@ == input@,
            p.pos == 0,
            p.events@ == Seq::<Event>::empty(),
    {
        reveal(Parser::st);
        Self { tokens: input, pos: 0, events: Vec::new() }
    }

    pub fn open(&mut self) -> (m: MarkOpened)
        requires
            old(self).wf(),
        ensures
            final(self).wf(),
            final(self).tokens@ == old(self).tokens@,
            final(self).pos == old(self).pos,
            m.index == old(self).events.len(),
            final(self).events@ == old(self).events@.push(Event::Open { kind: SyntaxKind::Error }),
            final(self).stack() == old(self).stack().push(m.index as int),
            final(self).st() == st_open(old(self).st()),
    {
        reveal(Parser::st);
        reveal(st_open);
        reveal(st_close);
        reveal(st_advance);
        let mark = MarkOpened { index: self.events.len() };
        proof {
            lemma_push(self.events@, Event::Open { kind: SyntaxKind::Error });
            lemma_view_push(self.events@, Event::Open { kind: SyntaxKind::Error });
        }
        self.events.push(Event::Open { kind: SyntaxKind::Error });
        mark
    }

    pub fn close(&mut self, m: MarkOpened, kind: SyntaxKind)
        requires
            old(self).wf(),
            old(self).stack().len() > 0,
            old(self).stack().last() == m.index,
        ensures
            final(self).wf(),
            final(self).tokens@ == old(self).tokens@,
            final(self).pos == old(self).pos,
            final(self).events@ == old(self).events@.update(m.index as int, Event::Open { kind }).push(
                Event::Close,
            ),
            final(self).stack() == old(self).stack().drop_last(),
            m.index < old(self).events@.len(),
            final(self).events@[m.index as int] == (Event::Open { kind }),
            final(self).events@.len() == old(self).events@.len() + 1,
            final(self).st() == st_close(old(self).st(), m.index as int, kind),
    {
        reveal(Parser::st);
        reveal(st_open);
        reveal(st_close);
        reveal(st_advance);
        let ghost st = self.stack();
        assert(st[st.len() - 1] < self.events@.len());
        assert(self.events@[st[st.len() - 1]] is Open);
        proof {
            lemma_rename_open(self.events@, m.index as int, kind);
            lemma_view_update(self.events@, m.index as int, Event::Open { kind });
        }
        self.events.set(m.index, Event::Open { kind });
        proof {
            lemma_push(self.events@, Event::Close);
            lemma_view_push(self.events@, Event::Close);
        }
        self.events.push(Event::Close);
        assert forall|j: int| 0 <= j < self.stack().len() implies self.events@[#[trigger] self.stack()[j]] is Open by {
            assert(self.stack()[j] == st[j]);
        }
    }

    pub fn advance(&mut self)
        requires
            old(self).wf(),
            old(self).pos < old(self).tokens.len(),
        ensures
            final(self).wf(),
            final(self).tokens@ == old(self).tokens@,
            final(self).pos == old(self).pos + 1,
            final(self).events@ == old(self).events@.push(Event::Advance),
            final(self).stack() == old(self).stack(),
            final(self).st() == st_advance(old(self).st()),
    {
        reveal(Parser::st);
        reveal(st_open);
        reveal(st_close);
        reveal(st_advance);
        proof {
            lemma_push(self.events@, Event::Advance);
            lemma_view_push(self.events@, Event::Advance);
        }
        self.events.push(Event::Advance);
        self.pos = self.pos + 1;
    }

    pub fn eof(&self) -> (r: bool)
        ensures
            r == (self.pos == self.tokens.len()),
    {
        self.pos == self.tokens.len()
    }

    pub fn nth(&self, lookahead: usize) -> (r: SyntaxKind)
        requires
            self.pos <= self.tokens.len(),
        ensures
            r == (if self.pos + lookahead < self.tokens.len() {
                self.tokens@[self.pos + lookahead].kind
            } else {
                SyntaxKind::Eof
            }),
    {
        if lookahead < self.tokens.len() - self.pos {
            self.tokens[self.pos + lookahead].kind
        } else {
            SyntaxKind::Eof
        }
    }

    pub fn at(&self, kind: SyntaxKind) -> (r: bool)
        requires
            self.pos <= self.tokens.len(),
        ensures
            r == (self.peek() == kind),
    {
        self.nth(0) == kind
    }

    pub fn at_any(&self, kinds: &[SyntaxKind]) -> (r: bool)
        requires
            self.pos <= self.tokens.len(),
        ensures
            r == kinds@.contains(self.peek()),
    {
        let current = self.nth(0);
        let mut i: usize = 0;
        while i < kinds.len()
            invariant
                0 <= i <= kinds.len(),
                current == self.peek(),
                forall|j: int| 0 <= j < i ==> kinds@[j] != current,
            decreases kinds.len() - i,
        {
            if kinds[i] == current {
                return true;
            }
            i = i + 1;
        }
        false
    }

    pub fn eat(&mut self, kind: SyntaxKind) -> (r: bool)
        requires
            old(self).wf(),
            kind != SyntaxKind::Eof,
        ensures
            final(self).wf(),
            final(self).tokens@ == old(self).tokens@,
            final(self).stack() == old(self).stack(),
            r == (old(self).peek() == kind),
            r ==> final(self).pos == old(self).pos + 1 && final(self).events@ == old(
                self,
            ).events@.push(Event::Advance),
            !r ==> *final(self) == *old(self),
    {
        if self.at(kind) {
            self.advance();
            true
        } else {
            false
        }
    }

    pub fn expect(&mut self, kind: SyntaxKind)
        requires
            old(self).wf(),
            kind != SyntaxKind::Eof,
        ensures
            Parser::step(*old(self), *final(self)),
            old(self).peek() == kind ==> final(self).pos == old(self).pos + 1
                && final(self).events@ == old(self).events@.push(Event::Advance),
            old(self).peek() != kind ==> final(self).pos == old(self).pos
                && final(self).events@.len() == old(self).events@.len() + 1
                && final(self).events@.last() is Error,
            old(self).events@.len() <= final(self).events@.len(),
            forall|i: int| 0 <= i < old(self).events@.len() ==> #[trigger] final(self).events@[i] == old(self).events@[i],
            final(self).st() == st_expect(old(self).kinds(), old(self).st(), kind),
    {
        reveal(Parser::st);
        reveal(st_open);
        reveal(st_close);
        reveal(st_advance);
        reveal(st_expect);
        if self.eat(kind) {
            proof {
                lemma_view_push(old(self).events@, Event::Advance);
            }
            return ;
        }
        let e = Event::Error { expected: vec![kind] };
        proof {
            lemma_push(self.events@, e);
            lemma_view_push(self.events@, e);
            assert(e->expected@ =~= seq![kind]);
        }
        self.events.push(e);
    }

    /// Reports an error and, unless the next token is a recovery token,
    /// wraps it in an `Error` node.
    pub fn advance_with_error(&mut self, expected: Vec<SyntaxKind>)
        requires
            old(self).wf(),
            old(self).peek() != SyntaxKind::Eof,
        ensures
            Parser::step(*old(self), *final(self)),
            is_recovery(old(self).peek()) ==> final(self).pos == old(self).pos,
            !is_recovery(old(self).peek()) ==> final(self).pos == old(self).pos + 1,
            old(self).events@.len() <= final(self).events@.len(),
            forall|i: int| 0 <= i < old(self).events@.len() ==> #[trigger] final(self).events@[i] == old(self).events@[i],
            final(self).st() == st_advance_with_error(old(self).kinds(), old(self).st(), expected@),
    {
        reveal(Parser::st);
        reveal(st_open);
        reveal(st_close);
        reveal(st_advance);
        reveal(st_advance_with_error);
        let e = Event::Error { expected };
        proof {
            lemma_push(self.events@, e);
            lemma_view_push(self.events@, e);
        }
        self.events.push(e);
        if self.at_any(&[SyntaxKind::WHERE, SyntaxKind::LCurly, SyntaxKind::RCurly]) {
            return ;
        }
        let ghost before = *self;
        let m = self.open();
        self.advance();
        self.close(m, SyntaxKind::Error);
        assert(self.stack() =~= before.stack());
    }

    /// Reports one error and wraps all tokens up to the next recovery token
    /// (or the end of the input) in one `Error` node.
    pub fn error_until(&mut self, expected: Vec<SyntaxKind>, recovery: &[SyntaxKind])
        requires
            old(self).wf(),
        ensures
            Parser::step(*old(self), *final(self)),
            recovery@.contains(old(self).peek()) || old(self).peek() == SyntaxKind::Eof
                ==> final(self).pos == old(self).pos,
            !(recovery@.contains(old(self).peek()) || old(self).peek() == SyntaxKind::Eof)
                ==> final(self).pos > old(self).pos,
            final(self).pos < final(self).tokens.len() ==> recovery@.contains(final(self).peek()),
            old(self).events@.len() <= final(self).events@.len(),
            forall|i: int| 0 <= i < old(self).events@.len() ==> #[trigger] final(self).events@[i] == old(self).events@[i],
            final(self).st() == st_error_until(old(self).kinds(), old(self).st(), expected@, recovery@),
    {
        reveal(Parser::st);
        reveal(st_open);
        reveal(st_close);
        reveal(st_advance);
        reveal(st_error_until);
        let e = Event::Error { expected };
        proof {
            lemma_push(self.events@, e);
            lemma_view_push(self.events@, e);
        }
        self.events.push(e);
        if self.at_any(recovery) || self.eof() {
            return ;
        }
        let ghost start = *self;
        let m = self.open();
        let ghost opened = self.st();
        while !self.at_any(recovery) && !self.eof()
            invariant
                self.wf(),
                self.tokens@ == start.tokens@,
                start.pos < self.pos || (start.pos == self.pos && !recovery@.contains(self.peek())),
                self.stack() == start.stack().push(m.index as int),
                start.events@.len() < self.events@.len(),
                m.index == start.events@.len(),
                forall|i: int| 0 <= i < start.events@.len() ==> #[trigger] self.events@[i] == start.events@[i],
                skip_until(self.kinds(), recovery@, self.st()) == skip_until(self.kinds(), recovery@, opened),
                self.kinds() == start.kinds(),
            decreases self.tokens.len() - self.pos,
        {
            let ghost before = self.st();
            let ghost ks = self.kinds();
            proof {
                reveal(Parser::st);
                assert(ks[self.pos as int] == self.tokens@[self.pos as int].kind);
                assert(!recovery@.contains(ks[before.pos]));
                assert(0 <= before.pos < ks.len());
            }
            self.advance();
            proof {
                reveal(Parser::st);
                reveal(st_advance);
                assert(self.kinds() == ks);
                assert(self.st() == St { evs: before.evs.push(Ev::Advance), pos: before.pos + 1, ..before });
                assert(skip_until(ks, recovery@, before) == skip_until(ks, recovery@, self.st()));
            }
        }
        self.close(m, SyntaxKind::Error);
        assert(self.stack() =~= start.stack());
    }

    pub fn pos(&self) -> (r: usize)
        ensures
            r == self.pos,
    {
        self.pos
    }
}

/// The rule a parse starts with.
#[derive(Debug, PartialEq, Eq, Structural, Clone, Copy)]
pub enum TopEntryPoint {
    QueryUnit,
    UpdateUnit,
}

impl TopEntryPoint {
    pub open spec fn kind(&self) -> SyntaxKind {
        match self {
            TopEntryPoint::QueryUnit => SyntaxKind::QueryUnit,
            TopEntryPoint::UpdateUnit => SyntaxKind::UpdateUnit,
        }
    }

    /// Parses the non-trivia tokens into events that form exactly one node
    /// of the entry kind and consume every token; the events are those that
    /// the grammar's rules give for the token kinds.
    pub fn parse(&self, input: Vec<Token>) -> (events: Vec<Event>)
        requires
            forall|i: int| 0 <= i < input.len() ==> input@[i].kind != SyntaxKind::Eof,
        ensures
            open_stack(events@) == Some(Seq::<int>::empty()),
            advance_count(events@) == input.len(),
            events.len() >= 2,
            events@[0] == (Event::Open { kind: self.kind() }),
            events@.last() is Close,
            events_view(events@) == entry_events(*self, kinds_of(input@)),
    {
        let mut parser = Parser::new(input);
        proof {
            reveal(Parser::st);
            assert(events_view(parser.events@) =~= Seq::<Ev>::empty());
        }
        match self {
            TopEntryPoint::QueryUnit => parse_QueryUnit(&mut parser),
            TopEntryPoint::UpdateUnit => parse_UpdateUnit(&mut parser),
        }
        proof {
            reveal(Parser::st);
        }
        parser.events
    }
}

/// The events that the entry rule gives for the token kinds, from an empty
/// parser state.
pub open spec fn entry_events(entry: TopEntryPoint, ks: Seq<SyntaxKind>) -> Seq<Ev> {
    let s0 = St { evs: Seq::empty(), pos: 0 };
    match entry {
        TopEntryPoint::QueryUnit => rule_QueryUnit(ks, s0).evs,
        TopEntryPoint::UpdateUnit => rule_UpdateUnit(ks, s0).evs,
    }
}

/// The kinds of the tokens of a text, in order.
pub open spec fn token_kinds(s: Seq<char>) -> Seq<SyntaxKind> {
    tokens_from(s, 0).map_values(|t: (SyntaxKind, int, int)| t.0)
}

/// What a keyword says of the operation: `SELECT`, `CONSTRUCT`, `ASK` and
/// `DESCRIBE` start a query, the update keywords an update.
pub open spec fn operation_of(k: SyntaxKind) -> Option<TopEntryPoint> {
    match k {
        SyntaxKind::SELECT | SyntaxKind::CONSTRUCT | SyntaxKind::ASK | SyntaxKind::DESCRIBE => Some(
            TopEntryPoint::QueryUnit,
        ),
        SyntaxKind::LOAD | SyntaxKind::CLEAR | SyntaxKind::DROP | SyntaxKind::CREATE | SyntaxKind::ADD
        | SyntaxKind::MOVE | SyntaxKind::COPY | SyntaxKind::INSERT | SyntaxKind::INSERT_DATA
        | SyntaxKind::DELETE | SyntaxKind::DELETE_DATA | SyntaxKind::DELETE_WHERE => Some(
            TopEntryPoint::UpdateUnit,
        ),
        _ => None,
    }
}

/// The operation named by the first token that names one.
pub open spec fn first_operation(ks: Seq<SyntaxKind>) -> Option<TopEntryPoint>
    decreases ks.len(),
{
    if ks.len() == 0 {
        None
    } else if operation_of(ks[0]) is Some {
        operation_of(ks[0])
    } else {
        first_operation(ks.drop_first())
    }
}

/// Guesses from its first keyword whether the input is a query or an
/// update; `None` when no keyword tells.
pub fn guess_operation_type(input: &str) -> (r: Option<TopEntryPoint>)
    ensures
        r == first_operation(token_kinds(input@)),
{
    let tokens = lex(input);
    let ghost ks = token_kinds(input@);
    let mut j: usize = 0;
    assert(ks.skip(0) =~= ks);
    while j < tokens.len()
        invariant
            j <= tokens.len(),
            tokens@.len() == ks.len(),
            ks == token_kinds(input@),
            forall|m: int| 0 <= m < tokens@.len() ==> (#[trigger] tokens@[m]).0.kind == ks[m],
            first_operation(ks) == first_operation(ks.skip(j as int)),
        decreases tokens.len() - j,
    {
        let kind = tokens[j].0.kind;
        proof {
            assert(ks.skip(j as int)[0] == kind);
            assert(ks.skip(j as int).drop_first() =~= ks.skip(j + 1));
        }
        let op = match kind {
            SyntaxKind::SELECT | SyntaxKind::CONSTRUCT | SyntaxKind::ASK | SyntaxKind::DESCRIBE => Some(
                TopEntryPoint::QueryUnit,
            ),
            SyntaxKind::LOAD | SyntaxKind::CLEAR | SyntaxKind::DROP | SyntaxKind::CREATE
            | SyntaxKind::ADD | SyntaxKind::MOVE | SyntaxKind::COPY | SyntaxKind::INSERT
            | SyntaxKind::INSERT_DATA | SyntaxKind::DELETE | SyntaxKind::DELETE_DATA
            | SyntaxKind::DELETE_WHERE => Some(TopEntryPoint::UpdateUnit),
            _ => None,
        };
        if op.is_some() {
            return op;
        }
        j = j + 1;
    }
    proof {
        assert(ks.skip(j as int).len() == 0);
    }
    None
}

/// The name of the guessed operation: `Query`, `Update` or `Unknown`.
pub open spec fn operation_name(op: Option<TopEntryPoint>) -> Seq<char> {
    match op {
        Some(TopEntryPoint::QueryUnit) => "Query"@,
        Some(TopEntryPoint::UpdateUnit) => "Update"@,
        None => "Unknown"@,
    }
}

/// Names the operation that [`guess_operation_type`] guesses.
pub fn determine_operation_type(input: &str) -> (r: String)
    ensures
        r@ == operation_name(first_operation(token_kinds(input@))),
{
    let name = match guess_operation_type(input) {
        Some(TopEntryPoint::QueryUnit) => "Query",
        Some(TopEntryPoint::UpdateUnit) => "Update",
        None => "Unknown",
    };
    let mut r = String::new();
    r.append(name);
    assert(r@ =~= name@);
    r
}

/// The four forms of a query.
#[derive(Debug, PartialEq, Eq, Structural, Clone, Copy)]
pub enum QueryType {
    SelectQuery,
    ConstructQuery,
    DescribeQuery,
    AskQuery,
}

/// The query form that a keyword starts.
pub open spec fn query_type_of(k: SyntaxKind) -> Option<QueryType> {
    match k {
        SyntaxKind::SELECT => Some(QueryType::SelectQuery),
        SyntaxKind::CONSTRUCT => Some(QueryType::ConstructQuery),
        SyntaxKind::ASK => Some(QueryType::AskQuery),
        SyntaxKind::DESCRIBE => Some(QueryType::DescribeQuery),
        _ => None,
    }
}

/// The query form named by the first token that names one.
pub open spec fn first_query_type(ks: Seq<SyntaxKind>) -> Option<QueryType>
    decreases ks.len(),
{
    if ks.len() == 0 {
        None
    } else if query_type_of(ks[0]) is Some {
        query_type_of(ks[0])
    } else {
        first_query_type(ks.drop_first())
    }
}

/// Guesses the query form from the first of the keywords `SELECT`,
/// `CONSTRUCT`, `ASK` and `DESCRIBE`.
pub fn guess_query_type(input: &str) -> (r: Option<QueryType>)
    ensures
        r == first_query_type(token_kinds(input@)),
{
    let tokens = lex(input);
    let ghost ks = token_kinds(input@);
    let mut j: usize = 0;
    assert(ks.skip(0) =~= ks);
    while j < tokens.len()
        invariant
            j <= tokens.len(),
            tokens@.len() == ks.len(),
            ks == token_kinds(input@),
            forall|m: int| 0 <= m < tokens@.len() ==> (#[trigger] tokens@[m]).0.kind == ks[m],
            first_query_type(ks) == first_query_type(ks.skip(j as int)),
        decreases tokens.len() - j,
    {
        let kind = tokens[j].0.kind;
        proof {
            assert(ks.skip(j as int)[0] == kind);
            assert(ks.skip(j as int).drop_first() =~= ks.skip(j + 1));
        }
        let found = match kind {
            SyntaxKind::SELECT => Some(QueryType::SelectQuery),
            SyntaxKind::CONSTRUCT => Some(QueryType::ConstructQuery),
            SyntaxKind::ASK => Some(QueryType::AskQuery),
            SyntaxKind::DESCRIBE => Some(QueryType::DescribeQuery),
            _ => None,
        };
        if found.is_some() {
            return found;
        }
        j = j + 1;
    }
    proof {
        assert(ks.skip(j as int).len() == 0);
    }
    None
}

/// The keywords that start a query.
pub open spec fn is_query_keyword(k: SyntaxKind) -> bool {
    k == SyntaxKind::SELECT || k == SyntaxKind::CONSTRUCT || k == SyntaxKind::ASK || k == SyntaxKind::DESCRIBE
}

/// The keywords that start an update operation.
pub open spec fn is_update_keyword(k: SyntaxKind) -> bool {
    k == SyntaxKind::LOAD || k == SyntaxKind::CLEAR || k == SyntaxKind::DROP || k == SyntaxKind::CREATE || k
        == SyntaxKind::ADD || k == SyntaxKind::MOVE || k == SyntaxKind::COPY || k == SyntaxKind::INSERT || k
        == SyntaxKind::INSERT_DATA || k == SyntaxKind::DELETE || k == SyntaxKind::DELETE_DATA || k
        == SyntaxKind::DELETE_WHERE
}

/// No token before `i` is a query or update keyword.
pub open spec fn no_operation_keyword_before(ks: Seq<SyntaxKind>, i: int) -> bool {
    forall|j: int| 0 <= j < i ==> !is_query_keyword(#[trigger] ks[j]) && !is_update_keyword(ks[j])
}

/// The operation guessed from the token kinds (what [`guess_operation_type`]
/// returns for a text) is that of the first keyword that names one: a query
/// when it is `SELECT`, `CONSTRUCT`, `ASK` or `DESCRIBE`, an update when it
/// is an update keyword; without such a keyword there is no guess.
pub proof fn law_operation_from_first_keyword(ks: Seq<SyntaxKind>)
    ensures
        no_operation_keyword_before(ks, ks.len() as int) ==> first_operation(ks) is None,
        forall|i: int|
            0 <= i < ks.len() && (is_query_keyword(#[trigger] ks[i]) || is_update_keyword(ks[i]))
                && no_operation_keyword_before(ks, i) ==> first_operation(ks) == if is_query_keyword(ks[i]) {
                Some(TopEntryPoint::QueryUnit)
            } else {
                Some(TopEntryPoint::UpdateUnit)
            },
    decreases ks.len(),
{
    if ks.len() > 0 {
        let rest = ks.drop_first();
        law_operation_from_first_keyword(rest);
        if operation_of(ks[0]) is None {
            assert(!is_query_keyword(ks[0]) && !is_update_keyword(ks[0]));
            if no_operation_keyword_before(ks, ks.len() as int) {
                assert forall|j: int| 0 <= j < rest.len() implies !is_query_keyword(#[trigger] rest[j])
                    && !is_update_keyword(rest[j]) by {
                    assert(rest[j] == ks[j + 1]);
                }
            }
            assert forall|i: int|
                0 <= i < ks.len() && (is_query_keyword(#[trigger] ks[i]) || is_update_keyword(ks[i]))
                    && no_operation_keyword_before(ks, i) implies first_operation(ks) == if is_query_keyword(ks[i]) {
                    Some(TopEntryPoint::QueryUnit)
                } else {
                    Some(TopEntryPoint::UpdateUnit)
                } by {
                assert(i > 0);
                assert(rest[i - 1] == ks[i]);
                assert forall|j: int| 0 <= j < i - 1 implies !is_query_keyword(#[trigger] rest[j])
                    && !is_update_keyword(rest[j]) by {
                    assert(rest[j] == ks[j + 1]);
                }
            }
        } else {
            assert(is_query_keyword(ks[0]) || is_update_keyword(ks[0]));
            assert forall|i: int|
                0 <= i < ks.len() && (is_query_keyword(#[trigger] ks[i]) || is_update_keyword(ks[i]))
                    && no_operation_keyword_before(ks, i) implies i == 0 by {
                if i > 0 {
                    assert(!is_query_keyword(ks[0]) && !is_update_keyword(ks[0]));
                }
            }
            if no_operation_keyword_before(ks, ks.len() as int) {
                assert(!is_query_keyword(ks[0]) && !is_update_keyword(ks[0]));
            }
        }
    }
}

/// No token before `i` is one of the query keywords.
pub open spec fn no_query_keyword_before(ks: Seq<SyntaxKind>, i: int) -> bool {
    forall|j: int| 0 <= j < i ==> !is_query_keyword(#[trigger] ks[j])
}

/// The query form guessed from the token kinds (what [`guess_query_type`]
/// returns for a text) is the one named by the first of the keywords
/// `SELECT`, `CONSTRUCT`, `ASK` and `DESCRIBE`; a text with none of them has
/// no query form, whatever other keywords it holds.
pub proof fn law_query_type_from_first_keyword(ks: Seq<SyntaxKind>)
    ensures
        no_query_keyword_before(ks, ks.len() as int) ==> first_query_type(ks) is None,
        forall|i: int|
            0 <= i < ks.len() && is_query_keyword(#[trigger] ks[i]) && no_query_keyword_before(ks, i)
                ==> first_query_type(ks) == Some(
                if ks[i] == SyntaxKind::SELECT {
                    QueryType::SelectQuery
                } else if ks[i] == SyntaxKind::CONSTRUCT {
                    QueryType::ConstructQuery
                } else if ks[i] == SyntaxKind::ASK {
                    QueryType::AskQuery
                } else {
                    QueryType::DescribeQuery
                },
            ),
    decreases ks.len(),
{
    if ks.len() > 0 {
        let rest = ks.drop_first();
        law_query_type_from_first_keyword(rest);
        if query_type_of(ks[0]) is None {
            assert(!is_query_keyword(ks[0]));
            if no_query_keyword_before(ks, ks.len() as int) {
                assert forall|j: int| 0 <= j < rest.len() implies !is_query_keyword(#[trigger] rest[j]) by {
                    assert(rest[j] == ks[j + 1]);
                }
            }
            assert forall|i: int|
                0 <= i < ks.len() && is_query_keyword(#[trigger] ks[i]) && no_query_keyword_before(ks, i)
                    implies first_query_type(ks) == Some(
                    if ks[i] == SyntaxKind::SELECT {
                        QueryType::SelectQuery
                    } else if ks[i] == SyntaxKind::CONSTRUCT {
                        QueryType::ConstructQuery
                    } else if ks[i] == SyntaxKind::ASK {
                        QueryType::AskQuery
                    } else {
                        QueryType::DescribeQuery
                    },
                ) by {
                assert(i > 0);
                assert(rest[i - 1] == ks[i]);
                assert forall|j: int| 0 <= j < i - 1 implies !is_query_keyword(#[trigger] rest[j]) by {
                    assert(rest[j] == ks[j + 1]);
                }
            }
        } else {
            assert(is_query_keyword(ks[0]));
            assert forall|i: int|
                0 <= i < ks.len() && is_query_keyword(#[trigger] ks[i]) && no_query_keyword_before(ks, i)
                    implies i == 0 by {
                if i > 0 {
                    assert(!is_query_keyword(ks[0]));
                }
            }
        }
    }
}

/// Parses the input as a query: a lossless tree with a `QueryUnit` root.
pub fn parse_query(input: &str) -> (r: (SyntaxTree, Vec<ParseError>))
    ensures
        r.0.wf(),
        r.0@[0] == Element::Start(SyntaxKind::QueryUnit),
        tree_tokens(r.0@) == lexed_views(input@),
        all_text(r.0@) == input@,
        crate::syntax_tree::node_text(r.0@, 0) == input@,
        forall|j: int|
            0 <= j < r.1@.len() ==> (#[trigger] r.1@[j]).span.start <= r.1@[j].span.end <= crate::lexer::byte_len(
                input@,
            ),
        exists|ts: Seq<(Token, Span)>, e: Seq<Event>|
            token_views(ts) == lexed_views(input@) && entry_events_shape(e, TopEntryPoint::QueryUnit, significant_count(ts))
                && events_view(e) == entry_events(TopEntryPoint::QueryUnit, significant_token_kinds(ts)) && built_from(r.0@, r.1@, e, ts),
{
    let r = parse_text(input, TopEntryPoint::QueryUnit);
    proof {
        crate::syntax_tree::lemma_root_text(r.0@);
    }
    r
}

/// Parses the input as an update: a lossless tree with an `UpdateUnit`
/// root.
pub fn parse_update(input: &str) -> (r: (SyntaxTree, Vec<ParseError>))
    ensures
        r.0.wf(),
        r.0@[0] == Element::Start(SyntaxKind::UpdateUnit),
        tree_tokens(r.0@) == lexed_views(input@),
        all_text(r.0@) == input@,
        crate::syntax_tree::node_text(r.0@, 0) == input@,
        forall|j: int|
            0 <= j < r.1@.len() ==> (#[trigger] r.1@[j]).span.start <= r.1@[j].span.end <= crate::lexer::byte_len(
                input@,
            ),
        exists|ts: Seq<(Token, Span)>, e: Seq<Event>|
            token_views(ts) == lexed_views(input@) && entry_events_shape(e, TopEntryPoint::UpdateUnit, significant_count(ts))
                && events_view(e) == entry_events(TopEntryPoint::UpdateUnit, significant_token_kinds(ts)) && built_from(r.0@, r.1@, e, ts),
{
    let r = parse_text(input, TopEntryPoint::UpdateUnit);
    proof {
        crate::syntax_tree::lemma_root_text(r.0@);
    }
    r
}

/// The entry rule that [`guess_operation_type`] picks for a text: an update
/// when its first operation keyword says so, else a query.
pub open spec fn guessed_entry(s: Seq<char>) -> TopEntryPoint {
    if first_operation(token_kinds(s)) == Some(TopEntryPoint::UpdateUnit) {
        TopEntryPoint::UpdateUnit
    } else {
        TopEntryPoint::QueryUnit
    }
}

/// Parses the input as what [`guess_operation_type`] guesses, as a query
/// when it cannot tell.
pub fn parse(input: &str) -> (r: (SyntaxTree, Vec<ParseError>))
    ensures
        r.0.wf(),
        r.0@[0] == Element::Start(
            if first_operation(token_kinds(input@)) == Some(TopEntryPoint::UpdateUnit) {
                SyntaxKind::UpdateUnit
            } else {
                SyntaxKind::QueryUnit
            },
        ),
        tree_tokens(r.0@) == lexed_views(input@),
        all_text(r.0@) == input@,
        crate::syntax_tree::node_text(r.0@, 0) == input@,
        forall|j: int|
            0 <= j < r.1@.len() ==> (#[trigger] r.1@[j]).span.start <= r.1@[j].span.end <= crate::lexer::byte_len(
                input@,
            ),
        exists|ts: Seq<(Token, Span)>, e: Seq<Event>|
            token_views(ts) == lexed_views(input@) && entry_events_shape(e, guessed_entry(input@), significant_count(ts))
                && events_view(e) == entry_events(guessed_entry(input@), significant_token_kinds(ts)) && built_from(r.0@, r.1@, e, ts),
{
    match guess_operation_type(input) {
        Some(TopEntryPoint::QueryUnit) | None => parse_query(input),
        Some(TopEntryPoint::UpdateUnit) => parse_update(input),
    }
}

} // verus!
