//! The rules of the SPARQL grammar, one function per rule.
//!
//! Each rule opens a node, parses its parts and closes the node again. A
//! rule never loses input: it keeps the tokens, the nesting of open nodes
//! and only moves forward; it consumes at least one token unless the next
//! token is one where the rule may stop, and every chain of rules that
//! consumes nothing is finite, which the `rank_` measures below show.
//!
//! Each rule also states exactly what it does: the parser state it leaves,
//! events and position, is the one that its `rule_` spec function computes
//! from the token kinds and the state it starts in. The spec functions
//! follow the rule's own structure, with one spec function for each loop,
//! loop body, choice and optional part; a choice or loop reports whether
//! the rule has already returned, which it does after closing an empty
//! `Error` node at the end of the input.
#![allow(non_snake_case)]

use vstd::prelude::*;

use super::{
    is_sync_point, lemma_push_drop_last, peek_at, st_advance, st_advance_with_error, st_close, st_error_until,
    st_expect, st_open, call_ok, is_recovery, Ev, Event, MarkOpened, Parser, St,
};
use crate::syntax_kind::SyntaxKind;

verus! {

broadcast use lemma_push_drop_last;

pub open spec fn rank_QueryUnit(t: SyntaxKind) -> nat {
    match t {
        SyntaxKind::BASE | SyntaxKind::PREFIX | SyntaxKind::SELECT | SyntaxKind::VERSION => 3,
        _ => 2,
    }
}

/// What [`parse_QueryUnit`] makes of the parser state.
#[verifier::opaque]
pub open spec fn rule_QueryUnit(ts: Seq<SyntaxKind>, s: St) -> St
    decreases ts.len() - s.pos, rank_QueryUnit(peek_at(ts, s.pos)), 32 * (ts.len() - s.pos) + 32,
{
    let start = s.pos;
    let s_in = s;
    let m_marker = s.evs.len() as int;
    let s = st_open(s);
    let s = if call_ok(ts, start, s, rank_Query(peek_at(ts, s.pos)), rank_QueryUnit(peek_at(ts, start))) {
        rule_Query(ts, s)
    } else {
        s
    };
    let s = if s_in.pos <= s.pos <= ts.len() {
        if_QueryUnit_1(ts, start, m_marker, s)
    } else {
        s
    };
    let s = st_close(s, m_marker, SyntaxKind::QueryUnit);
    s
}

#[verifier::opaque]
pub open spec fn loop_QueryUnit_2(ts: Seq<SyntaxKind>, start: int, m_marker: int, m_error_marker: int, s: St) -> St
    decreases ts.len() - start, rank_QueryUnit(peek_at(ts, start)), 32 * (ts.len() - s.pos) + 32 - 2,
{
    let s_in = s;
    if !(peek_at(ts, s.pos) == SyntaxKind::Eof) && s.pos <= ts.len() {
        let s1 = body_QueryUnit_3(ts, start, m_marker, m_error_marker, s);
        if s.pos < s1.pos <= ts.len() {
            loop_QueryUnit_2(ts, start, m_marker, m_error_marker, s1)
        } else {
            s1
        }
    } else {
        s
    }
}

#[verifier::opaque]
pub open spec fn body_QueryUnit_3(ts: Seq<SyntaxKind>, start: int, m_marker: int, m_error_marker: int, s: St) -> St
    decreases ts.len() - start, rank_QueryUnit(peek_at(ts, start)), 32 * (ts.len() - s.pos) + 32 - 3,
{
    let s_in = s;
    let s = st_advance(s);
    s
}

#[verifier::opaque]
pub open spec fn if_QueryUnit_1(ts: Seq<SyntaxKind>, start: int, m_marker: int, s: St) -> St
    decreases ts.len() - start, rank_QueryUnit(peek_at(ts, start)), 32 * (ts.len() - s.pos) + 32 - 1,
{
    let s_in = s;
    if !(peek_at(ts, s.pos) == SyntaxKind::Eof) {
        let m_error_marker = s.evs.len() as int;
        let s = st_open(s);
        let s = if s_in.pos <= s.pos <= ts.len() {
            loop_QueryUnit_2(ts, start, m_marker, m_error_marker, s)
        } else {
            s
        };
        let s = st_close(s, m_error_marker, SyntaxKind::Error);
        s
    } else {
        s
    }
}

/// [0] QueryUnit -> Query
pub(crate) fn parse_QueryUnit(p: &mut Parser)
    requires
        old(p).wf(),
    ensures
        Parser::step(*old(p), *final(p)),
        final(p).pos == old(p).pos ==> is_sync_point(old(p).peek()),
        final(p).pos == final(p).tokens.len(),
        old(p).events@.len() == 0 ==> final(p).events@.len() >= 2
            && final(p).events@[0] == (Event::Open { kind: SyntaxKind::QueryUnit })
            && final(p).events@.last() is Close,
        old(p).events@.len() < final(p).events@.len(),
        final(p).events@[old(p).events@.len() as int] == (Event::Open { kind: SyntaxKind::QueryUnit }),
        final(p).events@.last() is Close,
        final(p).st() == rule_QueryUnit(old(p).kinds(), old(p).st()),
    decreases old(p).remaining(), rank_QueryUnit(old(p).peek()), 1int,
{
    let ghost ks = p.kinds();
    let ghost s0 = p.st();
    let ghost start = p.pos as int;
    let marker = p.open();
    let ghost gm1 = marker.index as int;
    proof {
        assert(call_ok(ks, start, p.st(), rank_Query(peek_at(ks, p.st().pos)), rank_QueryUnit(peek_at(ks, start)))) by {
            reveal(Parser::st);
            assert(peek_at(ks, start) == old(p).peek());
            assert(peek_at(ks, p.pos as int) == p.peek());
        }
    }
    parse_Query(p);
    let ghost pre1 = p.st();
    if !p.at(SyntaxKind::Eof) {
        let error_marker = p.open();
        let ghost gm2 = error_marker.index as int;
        let ghost pre2 = p.st();
        proof {
            assert(p.st().pos == p.pos as int) by {
                reveal(Parser::st);
            }
            if !!(peek_at(ks, p.st().pos) == SyntaxKind::Eof) {
                assert(loop_QueryUnit_2(ks, start, gm1, gm2, pre2) == pre2) by {
                    reveal_with_fuel(loop_QueryUnit_2, 1); reveal_with_fuel(body_QueryUnit_3, 1);
                }
            }
        }
        while !p.at(SyntaxKind::Eof)
            invariant
                marker.index == old(p).events@.len(),
                p.wf(),
                p.tokens@ == old(p).tokens@,
                old(p).pos <= p.pos,
                p.stack() == old(p).stack().push(marker.index as int).push(error_marker.index as int),
                p.pos == old(p).pos ==> (old(p).peek() == SyntaxKind::LCurly || old(p).peek() == SyntaxKind::RCurly || old(p).peek() == SyntaxKind::WHERE),
                ks == p.kinds(),
                p.st().pos == p.pos as int,
                start == old(p).pos as int,
                gm1 == marker.index as int,
                gm2 == error_marker.index as int,
                pre2.pos <= p.pos,
                start <= pre2.pos,
                loop_QueryUnit_2(ks, start, gm1, gm2, p.st()) == loop_QueryUnit_2(ks, start, gm1, gm2, pre2),
                !!(peek_at(ks, p.st().pos) == SyntaxKind::Eof) ==> loop_QueryUnit_2(ks, start, gm1, gm2, p.st()) == p.st(),
            ensures
                (p.peek() == SyntaxKind::Eof),
                loop_QueryUnit_2(ks, start, gm1, gm2, pre2) == p.st(),
            decreases p.remaining(),
        {
            let ghost si2 = p.st();
            p.advance();
            proof {
                assert(body_QueryUnit_3(ks, start, gm1, gm2, si2) == p.st()) by {
                    reveal_with_fuel(body_QueryUnit_3, 1);
                }
            }
            proof {
                assert(p.st().pos == p.pos as int) by {
                    reveal(Parser::st);
                }
                assert(loop_QueryUnit_2(ks, start, gm1, gm2, si2) == loop_QueryUnit_2(ks, start, gm1, gm2, p.st())) by {
                    reveal_with_fuel(loop_QueryUnit_2, 1); reveal_with_fuel(body_QueryUnit_3, 1);
                    reveal(Parser::st);
                }
                if !!(peek_at(ks, p.st().pos) == SyntaxKind::Eof) {
                    assert(loop_QueryUnit_2(ks, start, gm1, gm2, p.st()) == p.st()) by {
                        reveal_with_fuel(loop_QueryUnit_2, 1); reveal_with_fuel(body_QueryUnit_3, 1);
                    }
                }
            }
        }
        p.close(error_marker, SyntaxKind::Error);
        proof {
            assert(if_QueryUnit_1(ks, start, gm1, pre1) == p.st()) by {
                reveal_with_fuel(if_QueryUnit_1, 1); reveal_with_fuel(loop_QueryUnit_2, 1);
            }
        }
    } else {
        proof {
            assert(if_QueryUnit_1(ks, start, gm1, pre1) == p.st()) by {
                reveal_with_fuel(if_QueryUnit_1, 1);
            }
        }
    }
    p.close(marker, SyntaxKind::QueryUnit);
    proof {
        assert(rule_QueryUnit(ks, s0) == p.st()) by {
            reveal_with_fuel(rule_QueryUnit, 1); reveal_with_fuel(if_QueryUnit_1, 1); reveal_with_fuel(rule_Query, 1);
        }
    }
}

pub open spec fn rank_Query(t: SyntaxKind) -> nat {
    match t {
        SyntaxKind::BASE | SyntaxKind::PREFIX | SyntaxKind::SELECT | SyntaxKind::VERSION => 2,
        _ => 1,
    }
}

/// What [`parse_Query`] makes of the parser state.
#[verifier::opaque]
pub open spec fn rule_Query(ts: Seq<SyntaxKind>, s: St) -> St
    decreases ts.len() - s.pos, rank_Query(peek_at(ts, s.pos)), 32 * (ts.len() - s.pos) + 32,
{
    let start = s.pos;
    let s_in = s;
    let m_marker = s.evs.len() as int;
    let s = st_open(s);
    let s = rule_Prologue(ts, s);
    let (s, r) = if s_in.pos <= s.pos <= ts.len() {
        match_Query_1(ts, start, m_marker, s)
    } else {
        (s, false)
    };
    if r {
        s
    } else {
        let s = if call_ok(ts, start, s, rank_ValuesClause(peek_at(ts, s.pos)), rank_Query(peek_at(ts, start))) {
            rule_ValuesClause(ts, s)
        } else {
            s
        };
        let s = st_close(s, m_marker, SyntaxKind::Query);
        s
    }
}

#[verifier::opaque]
pub open spec fn match_Query_1(ts: Seq<SyntaxKind>, start: int, m_marker: int, s: St) -> (St, bool)
    decreases ts.len() - start, rank_Query(peek_at(ts, start)), 32 * (ts.len() - s.pos) + 32 - 1,
{
    let s_in = s;
    if (peek_at(ts, s.pos) == SyntaxKind::SELECT) {
        let s = if call_ok(ts, start, s, rank_SelectQuery(peek_at(ts, s.pos)), rank_Query(peek_at(ts, start))) {
            rule_SelectQuery(ts, s)
        } else {
            s
        };
        (s, false)
    } else if (peek_at(ts, s.pos) == SyntaxKind::CONSTRUCT) {
        let s = if call_ok(ts, start, s, rank_ConstructQuery(peek_at(ts, s.pos)), rank_Query(peek_at(ts, start))) {
            rule_ConstructQuery(ts, s)
        } else {
            s
        };
        (s, false)
    } else if (peek_at(ts, s.pos) == SyntaxKind::DESCRIBE) {
        let s = if call_ok(ts, start, s, rank_DescribeQuery(peek_at(ts, s.pos)), rank_Query(peek_at(ts, start))) {
            rule_DescribeQuery(ts, s)
        } else {
            s
        };
        (s, false)
    } else if (peek_at(ts, s.pos) == SyntaxKind::ASK) {
        let s = if call_ok(ts, start, s, rank_AskQuery(peek_at(ts, s.pos)), rank_Query(peek_at(ts, start))) {
            rule_AskQuery(ts, s)
        } else {
            s
        };
        (s, false)
    } else if (peek_at(ts, s.pos) == SyntaxKind::Eof) {
        let s = st_close(s, m_marker, SyntaxKind::Query);
        let m_marker = s.evs.len() as int;
        let s = st_open(s);
        let s = st_close(s, m_marker, SyntaxKind::Error);
        (s, true)
    } else {
        let s = st_advance_with_error(ts, s, seq![SyntaxKind::SELECT, SyntaxKind::CONSTRUCT, SyntaxKind::DESCRIBE, SyntaxKind::ASK]);
        (s, false)
    }
}

/// [1] Query -> Prologue (SelectQuery | ConstructQuery | DescribeQuery | AskQuery) ValuesClause
pub(crate) fn parse_Query(p: &mut Parser)
    requires
        old(p).wf(),
    ensures
        Parser::step(*old(p), *final(p)),
        final(p).pos == old(p).pos ==> is_sync_point(old(p).peek()),
        old(p).events@.len() < final(p).events@.len(),
        final(p).events@[old(p).events@.len() as int] == (Event::Open { kind: SyntaxKind::Query }),
        final(p).events@.last() is Close,
        final(p).st() == rule_Query(old(p).kinds(), old(p).st()),
    decreases old(p).remaining(), rank_Query(old(p).peek()), 1int,
{
    let ghost ks = p.kinds();
    let ghost s0 = p.st();
    let ghost start = p.pos as int;
    let marker = p.open();
    let ghost gm1 = marker.index as int;
    parse_Prologue(p);
    let ghost pre1 = p.st();
    match p.nth(0) {
        SyntaxKind::SELECT => {
            proof {
                assert(call_ok(ks, start, p.st(), rank_SelectQuery(peek_at(ks, p.st().pos)), rank_Query(peek_at(ks, start)))) by {
                    reveal(Parser::st);
                    assert(peek_at(ks, start) == old(p).peek());
                    assert(peek_at(ks, p.pos as int) == p.peek());
                }
            }
            parse_SelectQuery(p);
            proof {
                assert(match_Query_1(ks, start, gm1, pre1) == (p.st(), false)) by {
                    reveal_with_fuel(match_Query_1, 1); reveal_with_fuel(rule_SelectQuery, 1);
                }
            }
        },
        SyntaxKind::CONSTRUCT => {
            proof {
                assert(call_ok(ks, start, p.st(), rank_ConstructQuery(peek_at(ks, p.st().pos)), rank_Query(peek_at(ks, start)))) by {
                    reveal(Parser::st);
                    assert(peek_at(ks, start) == old(p).peek());
                    assert(peek_at(ks, p.pos as int) == p.peek());
                }
            }
            parse_ConstructQuery(p);
            proof {
                assert(match_Query_1(ks, start, gm1, pre1) == (p.st(), false)) by {
                    reveal_with_fuel(match_Query_1, 1); reveal_with_fuel(rule_ConstructQuery, 1);
                }
            }
        },
        SyntaxKind::DESCRIBE => {
            proof {
                assert(call_ok(ks, start, p.st(), rank_DescribeQuery(peek_at(ks, p.st().pos)), rank_Query(peek_at(ks, start)))) by {
                    reveal(Parser::st);
                    assert(peek_at(ks, start) == old(p).peek());
                    assert(peek_at(ks, p.pos as int) == p.peek());
                }
            }
            parse_DescribeQuery(p);
            proof {
                assert(match_Query_1(ks, start, gm1, pre1) == (p.st(), false)) by {
                    reveal_with_fuel(match_Query_1, 1); reveal_with_fuel(rule_DescribeQuery, 1);
                }
            }
        },
        SyntaxKind::ASK => {
            proof {
                assert(call_ok(ks, start, p.st(), rank_AskQuery(peek_at(ks, p.st().pos)), rank_Query(peek_at(ks, start)))) by {
                    reveal(Parser::st);
                    assert(peek_at(ks, start) == old(p).peek());
                    assert(peek_at(ks, p.pos as int) == p.peek());
                }
            }
            parse_AskQuery(p);
            proof {
                assert(match_Query_1(ks, start, gm1, pre1) == (p.st(), false)) by {
                    reveal_with_fuel(match_Query_1, 1); reveal_with_fuel(rule_AskQuery, 1);
                }
            }
        },
        SyntaxKind::Eof => {
            p.close(marker, SyntaxKind::Query);
            let marker = p.open();
            let ghost gm2 = marker.index as int;
            p.close(marker, SyntaxKind::Error);
            proof {
                assert(match_Query_1(ks, start, gm1, pre1) == (p.st(), true)) by {
                    reveal_with_fuel(match_Query_1, 1);
                }
            }
            proof {
                assert(rule_Query(ks, s0) == p.st()) by {
                    reveal_with_fuel(rule_Query, 1); reveal_with_fuel(match_Query_1, 1); reveal_with_fuel(rule_ValuesClause, 1);
                }
            }
            return ;
        },
        _ => {
            p.advance_with_error(vec![SyntaxKind::SELECT, SyntaxKind::CONSTRUCT, SyntaxKind::DESCRIBE, SyntaxKind::ASK]);
            proof {
                assert(match_Query_1(ks, start, gm1, pre1) == (p.st(), false)) by {
                    reveal_with_fuel(match_Query_1, 1);
                }
            }
        },
    }
    proof {
        assert(call_ok(ks, start, p.st(), rank_ValuesClause(peek_at(ks, p.st().pos)), rank_Query(peek_at(ks, start)))) by {
            reveal(Parser::st);
            assert(peek_at(ks, start) == old(p).peek());
            assert(peek_at(ks, p.pos as int) == p.peek());
        }
    }
    parse_ValuesClause(p);
    p.close(marker, SyntaxKind::Query);
    proof {
        assert(rule_Query(ks, s0) == p.st()) by {
            reveal_with_fuel(rule_Query, 1); reveal_with_fuel(match_Query_1, 1); reveal_with_fuel(rule_ValuesClause, 1);
        }
    }
}

pub open spec fn rank_Prologue(t: SyntaxKind) -> nat {
    match t {
        SyntaxKind::BASE | SyntaxKind::PREFIX | SyntaxKind::VERSION => 1,
        _ => 0,
    }
}

/// What the loop of [`parse_Prologue`] makes of the parser state: one
/// declaration after the other while the next token starts one.
pub open spec fn loop_Prologue(ts: Seq<SyntaxKind>, s: St) -> St
    decreases ts.len() - s.pos,
{
    if (peek_at(ts, s.pos) == SyntaxKind::BASE || peek_at(ts, s.pos) == SyntaxKind::PREFIX || peek_at(ts, s.pos)
        == SyntaxKind::VERSION) {
        let s1 = if peek_at(ts, s.pos) == SyntaxKind::BASE {
            rule_BaseDecl(ts, s)
        } else if peek_at(ts, s.pos) == SyntaxKind::PREFIX {
            rule_PrefixDecl(ts, s)
        } else {
            rule_VersionDecl(ts, s)
        };
        if s.pos < s1.pos <= ts.len() {
            loop_Prologue(ts, s1)
        } else {
            s1
        }
    } else {
        s
    }
}

/// What [`parse_Prologue`] makes of the parser state.
#[verifier::opaque]
pub open spec fn rule_Prologue(ts: Seq<SyntaxKind>, s: St) -> St {
    if (peek_at(ts, s.pos) == SyntaxKind::BASE || peek_at(ts, s.pos) == SyntaxKind::PREFIX || peek_at(ts, s.pos)
        == SyntaxKind::VERSION) {
        let m_marker = s.evs.len() as int;
        let s = st_open(s);
        let s = loop_Prologue(ts, s);
        st_close(s, m_marker, SyntaxKind::Prologue)
    } else {
        s
    }
}

/// [2] Prologue -> (BaseDecl | PrefixDecl | VersionDecl)*
pub(crate) fn parse_Prologue(p: &mut Parser)
    requires
        old(p).wf(),
    ensures
        Parser::step(*old(p), *final(p)),
        final(p).pos == old(p).pos ==> !(old(p).peek() == SyntaxKind::BASE || old(p).peek() == SyntaxKind::PREFIX || old(p).peek() == SyntaxKind::VERSION),
        !(old(p).peek() == SyntaxKind::BASE || old(p).peek() == SyntaxKind::PREFIX || old(p).peek() == SyntaxKind::VERSION) ==> *final(p) == *old(p),
        old(p).events@.len() < final(p).events@.len() ==> final(p).events@[old(p).events@.len() as int] == (Event::Open {
            kind: SyntaxKind::Prologue,
        }) && final(p).events@.last() is Close,
        final(p).st() == rule_Prologue(old(p).kinds(), old(p).st()),
    decreases old(p).remaining(), rank_Prologue(old(p).peek()), 1int,
{
    let ghost ks = p.kinds();
    let ghost s0 = p.st();
    if !p.at_any(&[SyntaxKind::BASE, SyntaxKind::PREFIX, SyntaxKind::VERSION]) {
        proof {
            assert(p.st() == rule_Prologue(ks, s0)) by {
                reveal(rule_Prologue);
                reveal(Parser::st);
            }
        }
        return ;
    }
    let marker = p.open();
    let ghost entry = p.st();
    proof {
        reveal(Parser::st);
    }
    while p.at_any(&[SyntaxKind::BASE, SyntaxKind::PREFIX, SyntaxKind::VERSION])
        invariant
            marker.index == old(p).events@.len(),
            p.wf(),
            p.tokens@ == old(p).tokens@,
            old(p).pos <= p.pos,
            p.stack() == old(p).stack().push(marker.index as int),
            old(p).peek() == SyntaxKind::BASE || old(p).peek() == SyntaxKind::PREFIX || old(p).peek() == SyntaxKind::VERSION,
            ks == p.kinds(),
            p.st().pos == p.pos as int,
            loop_Prologue(ks, p.st()) == loop_Prologue(ks, entry),
        ensures
            p.pos > old(p).pos,
            p.st() == loop_Prologue(ks, entry),
        decreases p.remaining(),
    {
        let ghost si = p.st();
        let checkpoint1 = p.pos();
        match p.nth(0) {
            SyntaxKind::BASE => {
                parse_BaseDecl(p);
            },
            SyntaxKind::PREFIX => {
                parse_PrefixDecl(p);
            },
            SyntaxKind::VERSION => {
                parse_VersionDecl(p);
            },
            SyntaxKind::Eof => {
                p.close(marker, SyntaxKind::Prologue);
                let marker = p.open();
                p.close(marker, SyntaxKind::Error);
                return ;
            },
            _ => {
                p.advance_with_error(vec![SyntaxKind::BASE, SyntaxKind::PREFIX, SyntaxKind::VERSION]);
            },
        }
        proof {
            reveal(Parser::st);
            assert(loop_Prologue(ks, si) == if si.pos < p.st().pos <= ks.len() {
                loop_Prologue(ks, p.st())
            } else {
                p.st()
            });
        }
        if p.pos() == checkpoint1 {
            break;
        }
    }
    p.close(marker, SyntaxKind::Prologue);
    proof {
        assert(p.st() == rule_Prologue(ks, s0)) by {
            reveal(rule_Prologue);
            reveal(Parser::st);
        }
    }
}

pub open spec fn rank_SelectQuery(t: SyntaxKind) -> nat {
    match t {
        SyntaxKind::Eof | SyntaxKind::LCurly | SyntaxKind::VAR1 | SyntaxKind::VAR2 => 2,
        _ => 1,
    }
}

/// What [`parse_SelectQuery`] makes of the parser state.
#[verifier::opaque]
pub open spec fn rule_SelectQuery(ts: Seq<SyntaxKind>, s: St) -> St
    decreases ts.len() - s.pos, rank_SelectQuery(peek_at(ts, s.pos)), 32 * (ts.len() - s.pos) + 32,
{
    let start = s.pos;
    let s_in = s;
    let m_marker = s.evs.len() as int;
    let s = st_open(s);
    let s = if call_ok(ts, start, s, rank_SelectClause(peek_at(ts, s.pos)), rank_SelectQuery(peek_at(ts, start))) {
        rule_SelectClause(ts, s)
    } else {
        s
    };
    let s = if s_in.pos <= s.pos <= ts.len() {
        loop_SelectQuery_1(ts, start, m_marker, s)
    } else {
        s
    };
    let s = if s_in.pos <= s.pos <= ts.len() {
        if_SelectQuery_3(ts, start, m_marker, s)
    } else {
        s
    };
    let s = if call_ok(ts, start, s, rank_WhereClause(peek_at(ts, s.pos)), rank_SelectQuery(peek_at(ts, start))) {
        rule_WhereClause(ts, s)
    } else {
        s
    };
    let s = if call_ok(ts, start, s, rank_SolutionModifier(peek_at(ts, s.pos)), rank_SelectQuery(peek_at(ts, start))) {
        rule_SolutionModifier(ts, s)
    } else {
        s
    };
    let s = st_close(s, m_marker, SyntaxKind::SelectQuery);
    s
}

#[verifier::opaque]
pub open spec fn loop_SelectQuery_1(ts: Seq<SyntaxKind>, start: int, m_marker: int, s: St) -> St
    decreases ts.len() - start, rank_SelectQuery(peek_at(ts, start)), 32 * (ts.len() - s.pos) + 32 - 1,
{
    let s_in = s;
    if (peek_at(ts, s.pos) == SyntaxKind::FROM) && s.pos <= ts.len() {
        let s1 = body_SelectQuery_2(ts, start, m_marker, s);
        if s1.pos == s.pos {
            s1
        } else if s.pos < s1.pos <= ts.len() {
            loop_SelectQuery_1(ts, start, m_marker, s1)
        } else {
            s1
        }
    } else {
        s
    }
}

#[verifier::opaque]
pub open spec fn body_SelectQuery_2(ts: Seq<SyntaxKind>, start: int, m_marker: int, s: St) -> St
    decreases ts.len() - start, rank_SelectQuery(peek_at(ts, start)), 32 * (ts.len() - s.pos) + 32 - 2,
{
    let s_in = s;
    let s = rule_DatasetClause(ts, s);
    s
}

#[verifier::opaque]
pub open spec fn if_SelectQuery_3(ts: Seq<SyntaxKind>, start: int, m_marker: int, s: St) -> St
    decreases ts.len() - start, rank_SelectQuery(peek_at(ts, start)), 32 * (ts.len() - s.pos) + 32 - 1,
{
    let s_in = s;
    if (!(peek_at(ts, s.pos) == SyntaxKind::WHERE || peek_at(ts, s.pos) == SyntaxKind::LCurly) && s.pos != ts.len()) {
        let s = st_error_until(ts, s, seq![SyntaxKind::WHERE, SyntaxKind::LCurly], seq![SyntaxKind::WHERE, SyntaxKind::LCurly]);
        s
    } else {
        s
    }
}

/// [3] SelectQuery -> SelectClause DatasetClause* WhereClause SolutionModifier
pub(crate) fn parse_SelectQuery(p: &mut Parser)
    requires
        old(p).wf(),
    ensures
        Parser::step(*old(p), *final(p)),
        final(p).pos == old(p).pos ==> (old(p).peek() == SyntaxKind::Eof),
        old(p).events@.len() < final(p).events@.len(),
        final(p).events@[old(p).events@.len() as int] == (Event::Open { kind: SyntaxKind::SelectQuery }),
        final(p).events@.last() is Close,
        final(p).st() == rule_SelectQuery(old(p).kinds(), old(p).st()),
    decreases old(p).remaining(), rank_SelectQuery(old(p).peek()), 1int,
{
    let ghost ks = p.kinds();
    let ghost s0 = p.st();
    let ghost start = p.pos as int;
    let marker = p.open();
    let ghost gm1 = marker.index as int;
    proof {
        assert(call_ok(ks, start, p.st(), rank_SelectClause(peek_at(ks, p.st().pos)), rank_SelectQuery(peek_at(ks, start)))) by {
            reveal(Parser::st);
            assert(peek_at(ks, start) == old(p).peek());
            assert(peek_at(ks, p.pos as int) == p.peek());
        }
    }
    parse_SelectClause(p);
    let ghost pre1 = p.st();
    proof {
        assert(p.st().pos == p.pos as int) by {
            reveal(Parser::st);
        }
        if !(peek_at(ks, p.st().pos) == SyntaxKind::FROM) {
            assert(loop_SelectQuery_1(ks, start, gm1, pre1) == pre1) by {
                reveal_with_fuel(loop_SelectQuery_1, 1); reveal_with_fuel(body_SelectQuery_2, 1);
            }
        }
    }
    while p.at_any(&[SyntaxKind::FROM])
        invariant
            marker.index == old(p).events@.len(),
            p.wf(),
            p.tokens@ == old(p).tokens@,
            old(p).pos <= p.pos,
            p.stack() == old(p).stack().push(marker.index as int),
            p.pos == old(p).pos ==> is_sync_point(old(p).peek()),
            ks == p.kinds(),
            p.st().pos == p.pos as int,
            start == old(p).pos as int,
            gm1 == marker.index as int,
            pre1.pos <= p.pos,
            start <= pre1.pos,
            loop_SelectQuery_1(ks, start, gm1, p.st()) == loop_SelectQuery_1(ks, start, gm1, pre1),
            !(peek_at(ks, p.st().pos) == SyntaxKind::FROM) ==> loop_SelectQuery_1(ks, start, gm1, p.st()) == p.st(),
        ensures
            loop_SelectQuery_1(ks, start, gm1, pre1) == p.st(),
        decreases p.remaining(),
    {
        let ghost si1 = p.st();
        let checkpoint1 = p.pos();
        parse_DatasetClause(p);
        proof {
            assert(body_SelectQuery_2(ks, start, gm1, si1) == p.st()) by {
                reveal_with_fuel(body_SelectQuery_2, 1);
            }
        }
        if p.pos() == checkpoint1 {
            proof {
                assert(loop_SelectQuery_1(ks, start, gm1, si1) == p.st()) by {
                    reveal_with_fuel(loop_SelectQuery_1, 1); reveal_with_fuel(body_SelectQuery_2, 1);
                }
            }
            break;
        }
        proof {
            assert(p.st().pos == p.pos as int) by {
                reveal(Parser::st);
            }
            assert(loop_SelectQuery_1(ks, start, gm1, si1) == loop_SelectQuery_1(ks, start, gm1, p.st())) by {
                reveal_with_fuel(loop_SelectQuery_1, 1); reveal_with_fuel(body_SelectQuery_2, 1);
                reveal(Parser::st);
            }
            if !(peek_at(ks, p.st().pos) == SyntaxKind::FROM) {
                assert(loop_SelectQuery_1(ks, start, gm1, p.st()) == p.st()) by {
                    reveal_with_fuel(loop_SelectQuery_1, 1); reveal_with_fuel(body_SelectQuery_2, 1);
                }
            }
        }
    }
    let ghost pre2 = p.st();
    if !p.at_any(&[SyntaxKind::WHERE, SyntaxKind::LCurly]) && !p.eof() {
        let expected3 = vec![SyntaxKind::WHERE, SyntaxKind::LCurly];
        let recovery3 = vec![SyntaxKind::WHERE, SyntaxKind::LCurly];
        proof {
            assert(expected3@ =~= seq![SyntaxKind::WHERE, SyntaxKind::LCurly]);
            assert(recovery3@ =~= seq![SyntaxKind::WHERE, SyntaxKind::LCurly]);
        }
        p.error_until(expected3, recovery3.as_slice());
        proof {
            assert(if_SelectQuery_3(ks, start, gm1, pre2) == p.st()) by {
                reveal_with_fuel(if_SelectQuery_3, 1);
            }
        }
    } else {
        proof {
            assert(if_SelectQuery_3(ks, start, gm1, pre2) == p.st()) by {
                reveal_with_fuel(if_SelectQuery_3, 1);
            }
        }
    }
    proof {
        assert(call_ok(ks, start, p.st(), rank_WhereClause(peek_at(ks, p.st().pos)), rank_SelectQuery(peek_at(ks, start)))) by {
            reveal(Parser::st);
            assert(peek_at(ks, start) == old(p).peek());
            assert(peek_at(ks, p.pos as int) == p.peek());
        }
    }
    parse_WhereClause(p);
    proof {
        assert(call_ok(ks, start, p.st(), rank_SolutionModifier(peek_at(ks, p.st().pos)), rank_SelectQuery(peek_at(ks, start)))) by {
            reveal(Parser::st);
            assert(peek_at(ks, start) == old(p).peek());
            assert(peek_at(ks, p.pos as int) == p.peek());
        }
    }
    parse_SolutionModifier(p);
    p.close(marker, SyntaxKind::SelectQuery);
    proof {
        assert(rule_SelectQuery(ks, s0) == p.st()) by {
            reveal_with_fuel(rule_SelectQuery, 1); reveal_with_fuel(if_SelectQuery_3, 1); reveal_with_fuel(loop_SelectQuery_1, 1); reveal_with_fuel(rule_SelectClause, 1); reveal_with_fuel(rule_SolutionModifier, 1); reveal_with_fuel(rule_WhereClause, 1);
        }
    }
}

pub open spec fn rank_ConstructQuery(t: SyntaxKind) -> nat {
    match t {
        SyntaxKind::FROM | SyntaxKind::LCurly => 1,
        _ => 0,
    }
}

/// What [`parse_ConstructQuery`] makes of the parser state.
#[verifier::opaque]
pub open spec fn rule_ConstructQuery(ts: Seq<SyntaxKind>, s: St) -> St
    decreases ts.len() - s.pos, rank_ConstructQuery(peek_at(ts, s.pos)), 32 * (ts.len() - s.pos) + 32,
{
    let start = s.pos;
    let s_in = s;
    let m_marker = s.evs.len() as int;
    let s = st_open(s);
    let s = st_expect(ts, s, SyntaxKind::CONSTRUCT);
    let s = if s_in.pos <= s.pos <= ts.len() {
        if_ConstructQuery_1(ts, start, m_marker, s)
    } else {
        s
    };
    let (s, r) = if s_in.pos <= s.pos <= ts.len() {
        match_ConstructQuery_2(ts, start, m_marker, s)
    } else {
        (s, false)
    };
    if r {
        s
    } else {
        let s = st_close(s, m_marker, SyntaxKind::ConstructQuery);
        s
    }
}

#[verifier::opaque]
pub open spec fn if_ConstructQuery_1(ts: Seq<SyntaxKind>, start: int, m_marker: int, s: St) -> St
    decreases ts.len() - start, rank_ConstructQuery(peek_at(ts, start)), 32 * (ts.len() - s.pos) + 32 - 1,
{
    let s_in = s;
    if (!(peek_at(ts, s.pos) == SyntaxKind::WHERE || peek_at(ts, s.pos) == SyntaxKind::LCurly || peek_at(ts, s.pos) == SyntaxKind::FROM) && s.pos != ts.len()) {
        let s = st_error_until(ts, s, seq![SyntaxKind::WHERE, SyntaxKind::LCurly, SyntaxKind::FROM], seq![SyntaxKind::WHERE, SyntaxKind::LCurly, SyntaxKind::FROM]);
        s
    } else {
        s
    }
}

#[verifier::opaque]
pub open spec fn loop_ConstructQuery_3(ts: Seq<SyntaxKind>, start: int, m_marker: int, s: St) -> St
    decreases ts.len() - start, rank_ConstructQuery(peek_at(ts, start)), 32 * (ts.len() - s.pos) + 32 - 2,
{
    let s_in = s;
    if (peek_at(ts, s.pos) == SyntaxKind::FROM) && s.pos <= ts.len() {
        let s1 = body_ConstructQuery_4(ts, start, m_marker, s);
        if s1.pos == s.pos {
            s1
        } else if s.pos < s1.pos <= ts.len() {
            loop_ConstructQuery_3(ts, start, m_marker, s1)
        } else {
            s1
        }
    } else {
        s
    }
}

#[verifier::opaque]
pub open spec fn body_ConstructQuery_4(ts: Seq<SyntaxKind>, start: int, m_marker: int, s: St) -> St
    decreases ts.len() - start, rank_ConstructQuery(peek_at(ts, start)), 32 * (ts.len() - s.pos) + 32 - 3,
{
    let s_in = s;
    let s = rule_DatasetClause(ts, s);
    s
}

#[verifier::opaque]
pub open spec fn if_ConstructQuery_5(ts: Seq<SyntaxKind>, start: int, m_marker: int, s: St) -> St
    decreases ts.len() - start, rank_ConstructQuery(peek_at(ts, start)), 32 * (ts.len() - s.pos) + 32 - 2,
{
    let s_in = s;
    if (!(peek_at(ts, s.pos) == SyntaxKind::WHERE || peek_at(ts, s.pos) == SyntaxKind::LCurly) && s.pos != ts.len()) {
        let s = st_error_until(ts, s, seq![SyntaxKind::WHERE, SyntaxKind::LCurly], seq![SyntaxKind::WHERE, SyntaxKind::LCurly]);
        s
    } else {
        s
    }
}

#[verifier::opaque]
pub open spec fn loop_ConstructQuery_6(ts: Seq<SyntaxKind>, start: int, m_marker: int, s: St) -> St
    decreases ts.len() - start, rank_ConstructQuery(peek_at(ts, start)), 32 * (ts.len() - s.pos) + 32 - 2,
{
    let s_in = s;
    if (peek_at(ts, s.pos) == SyntaxKind::FROM) && s.pos <= ts.len() {
        let s1 = body_ConstructQuery_7(ts, start, m_marker, s);
        if s1.pos == s.pos {
            s1
        } else if s.pos < s1.pos <= ts.len() {
            loop_ConstructQuery_6(ts, start, m_marker, s1)
        } else {
            s1
        }
    } else {
        s
    }
}

#[verifier::opaque]
pub open spec fn body_ConstructQuery_7(ts: Seq<SyntaxKind>, start: int, m_marker: int, s: St) -> St
    decreases ts.len() - start, rank_ConstructQuery(peek_at(ts, start)), 32 * (ts.len() - s.pos) + 32 - 3,
{
    let s_in = s;
    let s = rule_DatasetClause(ts, s);
    s
}

#[verifier::opaque]
pub open spec fn if_ConstructQuery_8(ts: Seq<SyntaxKind>, start: int, m_marker: int, s: St) -> St
    decreases ts.len() - start, rank_ConstructQuery(peek_at(ts, start)), 32 * (ts.len() - s.pos) + 32 - 2,
{
    let s_in = s;
    if (!(peek_at(ts, s.pos) == SyntaxKind::WHERE) && s.pos != ts.len()) {
        let s = st_error_until(ts, s, seq![SyntaxKind::WHERE], seq![SyntaxKind::WHERE]);
        s
    } else {
        s
    }
}

#[verifier::opaque]
pub open spec fn if_ConstructQuery_9(ts: Seq<SyntaxKind>, start: int, m_marker: int, s: St) -> St
    decreases ts.len() - start, rank_ConstructQuery(peek_at(ts, start)), 32 * (ts.len() - s.pos) + 32 - 2,
{
    let s_in = s;
    if (!(peek_at(ts, s.pos) == SyntaxKind::LCurly) && s.pos != ts.len()) {
        let s = st_error_until(ts, s, seq![SyntaxKind::LCurly], seq![SyntaxKind::LCurly]);
        s
    } else {
        s
    }
}

#[verifier::opaque]
pub open spec fn if_ConstructQuery_10(ts: Seq<SyntaxKind>, start: int, m_marker: int, s: St) -> St
    decreases ts.len() - start, rank_ConstructQuery(peek_at(ts, start)), 32 * (ts.len() - s.pos) + 32 - 2,
{
    let s_in = s;
    if (peek_at(ts, s.pos) == SyntaxKind::IRIREF || peek_at(ts, s.pos) == SyntaxKind::PNAME_NS || peek_at(ts, s.pos) == SyntaxKind::STRING_LITERAL1 || peek_at(ts, s.pos) == SyntaxKind::STRING_LITERAL2 || peek_at(ts, s.pos) == SyntaxKind::LParen || peek_at(ts, s.pos) == SyntaxKind::INTEGER || peek_at(ts, s.pos) == SyntaxKind::NIL || peek_at(ts, s.pos) == SyntaxKind::LBrack || peek_at(ts, s.pos) == SyntaxKind::DoubleLess || peek_at(ts, s.pos) == SyntaxKind::DoubleLessLParen || peek_at(ts, s.pos) == SyntaxKind::VAR1 || peek_at(ts, s.pos) == SyntaxKind::VAR2 || peek_at(ts, s.pos) == SyntaxKind::DECIMAL || peek_at(ts, s.pos) == SyntaxKind::DOUBLE || peek_at(ts, s.pos) == SyntaxKind::INTEGER_POSITIVE || peek_at(ts, s.pos) == SyntaxKind::DECIMAL_POSITIVE || peek_at(ts, s.pos) == SyntaxKind::DOUBLE_POSITIVE || peek_at(ts, s.pos) == SyntaxKind::INTEGER_NEGATIVE || peek_at(ts, s.pos) == SyntaxKind::DECIMAL_NEGATIVE || peek_at(ts, s.pos) == SyntaxKind::DOUBLE_NEGATIVE || peek_at(ts, s.pos) == SyntaxKind::True || peek_at(ts, s.pos) == SyntaxKind::False || peek_at(ts, s.pos) == SyntaxKind::STRING_LITERAL_LONG1 || peek_at(ts, s.pos) == SyntaxKind::STRING_LITERAL_LONG2 || peek_at(ts, s.pos) == SyntaxKind::PNAME_LN || peek_at(ts, s.pos) == SyntaxKind::BLANK_NODE_LABEL || peek_at(ts, s.pos) == SyntaxKind::ANON) {
        let s = if call_ok(ts, start, s, rank_TriplesTemplate(peek_at(ts, s.pos)), rank_ConstructQuery(peek_at(ts, start))) {
            rule_TriplesTemplate(ts, s)
        } else {
            s
        };
        s
    } else {
        s
    }
}

#[verifier::opaque]
pub open spec fn if_ConstructQuery_11(ts: Seq<SyntaxKind>, start: int, m_marker: int, s: St) -> St
    decreases ts.len() - start, rank_ConstructQuery(peek_at(ts, start)), 32 * (ts.len() - s.pos) + 32 - 2,
{
    let s_in = s;
    if (!(peek_at(ts, s.pos) == SyntaxKind::RCurly) && s.pos != ts.len()) {
        let s = st_error_until(ts, s, seq![SyntaxKind::RCurly], seq![SyntaxKind::RCurly]);
        s
    } else {
        s
    }
}

#[verifier::opaque]
pub open spec fn match_ConstructQuery_2(ts: Seq<SyntaxKind>, start: int, m_marker: int, s: St) -> (St, bool)
    decreases ts.len() - start, rank_ConstructQuery(peek_at(ts, start)), 32 * (ts.len() - s.pos) + 32 - 1,
{
    let s_in = s;
    if (peek_at(ts, s.pos) == SyntaxKind::LCurly) {
        let s = if call_ok(ts, start, s, rank_ConstructTemplate(peek_at(ts, s.pos)), rank_ConstructQuery(peek_at(ts, start))) {
            rule_ConstructTemplate(ts, s)
        } else {
            s
        };
        let s = if s_in.pos <= s.pos <= ts.len() {
            loop_ConstructQuery_3(ts, start, m_marker, s)
        } else {
            s
        };
        let s = if s_in.pos <= s.pos <= ts.len() {
            if_ConstructQuery_5(ts, start, m_marker, s)
        } else {
            s
        };
        let s = if call_ok(ts, start, s, rank_WhereClause(peek_at(ts, s.pos)), rank_ConstructQuery(peek_at(ts, start))) {
            rule_WhereClause(ts, s)
        } else {
            s
        };
        let s = if call_ok(ts, start, s, rank_SolutionModifier(peek_at(ts, s.pos)), rank_ConstructQuery(peek_at(ts, start))) {
            rule_SolutionModifier(ts, s)
        } else {
            s
        };
        (s, false)
    } else if (peek_at(ts, s.pos) == SyntaxKind::WHERE || peek_at(ts, s.pos) == SyntaxKind::FROM) {
        let s = if s_in.pos <= s.pos <= ts.len() {
            loop_ConstructQuery_6(ts, start, m_marker, s)
        } else {
            s
        };
        let s = if s_in.pos <= s.pos <= ts.len() {
            if_ConstructQuery_8(ts, start, m_marker, s)
        } else {
            s
        };
        let s = st_expect(ts, s, SyntaxKind::WHERE);
        let s = if s_in.pos <= s.pos <= ts.len() {
            if_ConstructQuery_9(ts, start, m_marker, s)
        } else {
            s
        };
        let s = st_expect(ts, s, SyntaxKind::LCurly);
        let s = if s_in.pos <= s.pos <= ts.len() {
            if_ConstructQuery_10(ts, start, m_marker, s)
        } else {
            s
        };
        let s = if s_in.pos <= s.pos <= ts.len() {
            if_ConstructQuery_11(ts, start, m_marker, s)
        } else {
            s
        };
        let s = st_expect(ts, s, SyntaxKind::RCurly);
        let s = if call_ok(ts, start, s, rank_SolutionModifier(peek_at(ts, s.pos)), rank_ConstructQuery(peek_at(ts, start))) {
            rule_SolutionModifier(ts, s)
        } else {
            s
        };
        (s, false)
    } else if (peek_at(ts, s.pos) == SyntaxKind::Eof) {
        let s = st_close(s, m_marker, SyntaxKind::ConstructQuery);
        let m_marker = s.evs.len() as int;
        let s = st_open(s);
        let s = st_close(s, m_marker, SyntaxKind::Error);
        (s, true)
    } else {
        let s = st_advance_with_error(ts, s, seq![SyntaxKind::LCurly, SyntaxKind::WHERE, SyntaxKind::FROM]);
        (s, false)
    }
}

/// [4] ConstructQuery -> 'CONSTRUCT' (ConstructTemplate DatasetClause* WhereClause SolutionModifier | DatasetClause* 'WHERE' '{' TriplesTemplate? '}' SolutionModifier)
#[verifier::rlimit(100)]
#[verifier::spinoff_prover]
pub(crate) fn parse_ConstructQuery(p: &mut Parser)
    requires
        old(p).wf(),
    ensures
        Parser::step(*old(p), *final(p)),
        final(p).pos == old(p).pos ==> (old(p).peek() == SyntaxKind::Eof),
        old(p).events@.len() < final(p).events@.len(),
        final(p).events@[old(p).events@.len() as int] == (Event::Open { kind: SyntaxKind::ConstructQuery }),
        final(p).events@.last() is Close,
        final(p).st() == rule_ConstructQuery(old(p).kinds(), old(p).st()),
    decreases old(p).remaining(), rank_ConstructQuery(old(p).peek()), 1int,
{
    let ghost ks = p.kinds();
    let ghost s0 = p.st();
    let ghost start = p.pos as int;
    let marker = p.open();
    let ghost gm1 = marker.index as int;
    p.expect(SyntaxKind::CONSTRUCT);
    let ghost pre1 = p.st();
    if !p.at_any(&[SyntaxKind::WHERE, SyntaxKind::LCurly, SyntaxKind::FROM]) && !p.eof() {
        let expected2 = vec![SyntaxKind::WHERE, SyntaxKind::LCurly, SyntaxKind::FROM];
        let recovery2 = vec![SyntaxKind::WHERE, SyntaxKind::LCurly, SyntaxKind::FROM];
        proof {
            assert(expected2@ =~= seq![SyntaxKind::WHERE, SyntaxKind::LCurly, SyntaxKind::FROM]);
            assert(recovery2@ =~= seq![SyntaxKind::WHERE, SyntaxKind::LCurly, SyntaxKind::FROM]);
        }
        p.error_until(expected2, recovery2.as_slice());
        proof {
            assert(if_ConstructQuery_1(ks, start, gm1, pre1) == p.st()) by {
                reveal_with_fuel(if_ConstructQuery_1, 1);
            }
        }
    } else {
        proof {
            assert(if_ConstructQuery_1(ks, start, gm1, pre1) == p.st()) by {
                reveal_with_fuel(if_ConstructQuery_1, 1);
            }
        }
    }
    let ghost pre3 = p.st();
    match p.nth(0) {
        SyntaxKind::LCurly => {
            let r = parse_ConstructQuery_part1(p, marker, Ghost(*old(p)), Ghost(gm1));
            if r {
                proof {
                    assert(rule_ConstructQuery(ks, s0) == p.st()) by {
                        reveal_with_fuel(rule_ConstructQuery, 1); reveal_with_fuel(if_ConstructQuery_1, 1); reveal_with_fuel(match_ConstructQuery_2, 1);
                    }
                }
                return ;
            }
        },
        SyntaxKind::WHERE | SyntaxKind::FROM => {
            let r = parse_ConstructQuery_part2(p, marker, Ghost(*old(p)), Ghost(gm1));
            if r {
                proof {
                    assert(rule_ConstructQuery(ks, s0) == p.st()) by {
                        reveal_with_fuel(rule_ConstructQuery, 1); reveal_with_fuel(if_ConstructQuery_1, 1); reveal_with_fuel(match_ConstructQuery_2, 1);
                    }
                }
                return ;
            }
        },
        SyntaxKind::Eof => {
            p.close(marker, SyntaxKind::ConstructQuery);
            let marker = p.open();
            let ghost gm2 = marker.index as int;
            p.close(marker, SyntaxKind::Error);
            proof {
                assert(match_ConstructQuery_2(ks, start, gm1, pre3) == (p.st(), true)) by {
                    reveal_with_fuel(match_ConstructQuery_2, 1);
                }
            }
            proof {
                assert(rule_ConstructQuery(ks, s0) == p.st()) by {
                    reveal_with_fuel(rule_ConstructQuery, 1); reveal_with_fuel(if_ConstructQuery_1, 1); reveal_with_fuel(match_ConstructQuery_2, 1);
                }
            }
            return ;
        },
        _ => {
            p.advance_with_error(vec![SyntaxKind::LCurly, SyntaxKind::WHERE, SyntaxKind::FROM]);
            proof {
                assert(match_ConstructQuery_2(ks, start, gm1, pre3) == (p.st(), false)) by {
                    reveal_with_fuel(match_ConstructQuery_2, 1);
                }
            }
        },
    }
    p.close(marker, SyntaxKind::ConstructQuery);
    proof {
        assert(rule_ConstructQuery(ks, s0) == p.st()) by {
            reveal_with_fuel(rule_ConstructQuery, 1); reveal_with_fuel(if_ConstructQuery_1, 1); reveal_with_fuel(match_ConstructQuery_2, 1);
        }
    }
}

/// One group of the alternatives of [`parse_ConstructQuery`].
#[verifier::rlimit(100)]
#[verifier::spinoff_prover]
fn parse_ConstructQuery_part1(p: &mut Parser, marker: MarkOpened, Ghost(co): Ghost<Parser>, Ghost(gm1): Ghost<int>) -> (r: bool)
    requires
        old(p).wf(),
        co.wf(),
        old(p).tokens@ == co.tokens@,
        co.pos <= old(p).pos,
        marker.index == co.events@.len(),
        gm1 == marker.index as int,
        old(p).stack() == co.stack().push(marker.index as int),
        old(p).events@.len() > marker.index,
        old(p).peek() == SyntaxKind::LCurly,
    ensures
        final(p).wf(),
        final(p).tokens@ == old(p).tokens@,
        old(p).pos <= final(p).pos,
        !r ==> final(p).stack() == old(p).stack(),
        !r ==> final(p).pos > old(p).pos,
        match_ConstructQuery_2(co.kinds(), co.pos as int, gm1, old(p).st()) == (final(p).st(), r),
        r ==> (Parser::step(co, *final(p))),
        r ==> (final(p).pos == co.pos ==> (co.peek() == SyntaxKind::Eof)),
        r ==> (co.events@.len() < final(p).events@.len()),
        r ==> (final(p).events@[co.events@.len() as int] == (Event::Open { kind: SyntaxKind::ConstructQuery })),
        r ==> (final(p).events@.last() is Close),
    decreases co.remaining(), rank_ConstructQuery(co.peek()), 0int,
{
    let ghost ks = p.kinds();
    let ghost start = co.pos as int;
    assert(ks == co.kinds());
    let ghost pre1 = p.st();
    match p.nth(0) {
        SyntaxKind::LCurly => {
            proof {
                assert(call_ok(ks, start, p.st(), rank_ConstructTemplate(peek_at(ks, p.st().pos)), rank_ConstructQuery(peek_at(ks, start)))) by {
                    reveal(Parser::st);
                    assert(peek_at(ks, start) == co.peek());
                    assert(peek_at(ks, p.pos as int) == p.peek());
                }
            }
            parse_ConstructTemplate(p);
            let ghost pre4 = p.st();
            proof {
                assert(p.st().pos == p.pos as int) by {
                    reveal(Parser::st);
                }
                if !(peek_at(ks, p.st().pos) == SyntaxKind::FROM) {
                    assert(loop_ConstructQuery_3(ks, start, gm1, pre4) == pre4) by {
                        reveal_with_fuel(loop_ConstructQuery_3, 1); reveal_with_fuel(body_ConstructQuery_4, 1);
                    }
                }
            }
            while p.at_any(&[SyntaxKind::FROM])
                invariant
                    marker.index == co.events@.len(),
                    p.wf(),
                    p.tokens@ == co.tokens@,
                    co.pos <= p.pos,
                    p.stack() == co.stack().push(marker.index as int),
                    p.pos == co.pos ==> false,
                    ks == p.kinds(),
                    p.st().pos == p.pos as int,
                    start == co.pos as int,
                    gm1 == marker.index as int,
                    pre4.pos <= p.pos,
                    start <= pre4.pos,
                    loop_ConstructQuery_3(ks, start, gm1, p.st()) == loop_ConstructQuery_3(ks, start, gm1, pre4),
                    !(peek_at(ks, p.st().pos) == SyntaxKind::FROM) ==> loop_ConstructQuery_3(ks, start, gm1, p.st()) == p.st(),
                ensures
                    loop_ConstructQuery_3(ks, start, gm1, pre4) == p.st(),
                decreases p.remaining(),
            {
                let ghost si4 = p.st();
                let checkpoint1 = p.pos();
                parse_DatasetClause(p);
                proof {
                    assert(body_ConstructQuery_4(ks, start, gm1, si4) == p.st()) by {
                        reveal_with_fuel(body_ConstructQuery_4, 1);
                    }
                }
                if p.pos() == checkpoint1 {
                    proof {
                        assert(loop_ConstructQuery_3(ks, start, gm1, si4) == p.st()) by {
                            reveal_with_fuel(loop_ConstructQuery_3, 1); reveal_with_fuel(body_ConstructQuery_4, 1);
                        }
                    }
                    break;
                }
                proof {
                    assert(p.st().pos == p.pos as int) by {
                        reveal(Parser::st);
                    }
                    assert(loop_ConstructQuery_3(ks, start, gm1, si4) == loop_ConstructQuery_3(ks, start, gm1, p.st())) by {
                        reveal_with_fuel(loop_ConstructQuery_3, 1); reveal_with_fuel(body_ConstructQuery_4, 1);
                        reveal(Parser::st);
                    }
                    if !(peek_at(ks, p.st().pos) == SyntaxKind::FROM) {
                        assert(loop_ConstructQuery_3(ks, start, gm1, p.st()) == p.st()) by {
                            reveal_with_fuel(loop_ConstructQuery_3, 1); reveal_with_fuel(body_ConstructQuery_4, 1);
                        }
                    }
                }
            }
            let ghost pre5 = p.st();
            if !p.at_any(&[SyntaxKind::WHERE, SyntaxKind::LCurly]) && !p.eof() {
                let expected6 = vec![SyntaxKind::WHERE, SyntaxKind::LCurly];
                let recovery6 = vec![SyntaxKind::WHERE, SyntaxKind::LCurly];
                proof {
                    assert(expected6@ =~= seq![SyntaxKind::WHERE, SyntaxKind::LCurly]);
                    assert(recovery6@ =~= seq![SyntaxKind::WHERE, SyntaxKind::LCurly]);
                }
                p.error_until(expected6, recovery6.as_slice());
                proof {
                    assert(if_ConstructQuery_5(ks, start, gm1, pre5) == p.st()) by {
                        reveal_with_fuel(if_ConstructQuery_5, 1);
                    }
                }
            } else {
                proof {
                    assert(if_ConstructQuery_5(ks, start, gm1, pre5) == p.st()) by {
                        reveal_with_fuel(if_ConstructQuery_5, 1);
                    }
                }
            }
            proof {
                assert(call_ok(ks, start, p.st(), rank_WhereClause(peek_at(ks, p.st().pos)), rank_ConstructQuery(peek_at(ks, start)))) by {
                    reveal(Parser::st);
                    assert(peek_at(ks, start) == co.peek());
                    assert(peek_at(ks, p.pos as int) == p.peek());
                }
            }
            parse_WhereClause(p);
            proof {
                assert(call_ok(ks, start, p.st(), rank_SolutionModifier(peek_at(ks, p.st().pos)), rank_ConstructQuery(peek_at(ks, start)))) by {
                    reveal(Parser::st);
                    assert(peek_at(ks, start) == co.peek());
                    assert(peek_at(ks, p.pos as int) == p.peek());
                }
            }
            parse_SolutionModifier(p);
            proof {
                assert(match_ConstructQuery_2(ks, start, gm1, pre1) == (p.st(), false)) by {
                    reveal_with_fuel(match_ConstructQuery_2, 1); reveal_with_fuel(if_ConstructQuery_5, 1); reveal_with_fuel(loop_ConstructQuery_3, 1); reveal_with_fuel(rule_ConstructTemplate, 1); reveal_with_fuel(rule_SolutionModifier, 1); reveal_with_fuel(rule_WhereClause, 1);
                }
            }
        },
        _ => {
            proof {
                assert(false);
            }
        },
    }
    false
}


/// One group of the alternatives of [`parse_ConstructQuery`].
#[verifier::rlimit(100)]
#[verifier::spinoff_prover]
fn parse_ConstructQuery_part2(p: &mut Parser, marker: MarkOpened, Ghost(co): Ghost<Parser>, Ghost(gm1): Ghost<int>) -> (r: bool)
    requires
        old(p).wf(),
        co.wf(),
        old(p).tokens@ == co.tokens@,
        co.pos <= old(p).pos,
        marker.index == co.events@.len(),
        gm1 == marker.index as int,
        old(p).stack() == co.stack().push(marker.index as int),
        old(p).events@.len() > marker.index,
        old(p).peek() == SyntaxKind::WHERE || old(p).peek() == SyntaxKind::FROM,
    ensures
        final(p).wf(),
        final(p).tokens@ == old(p).tokens@,
        old(p).pos <= final(p).pos,
        !r ==> final(p).stack() == old(p).stack(),
        !r ==> final(p).pos > old(p).pos,
        match_ConstructQuery_2(co.kinds(), co.pos as int, gm1, old(p).st()) == (final(p).st(), r),
        r ==> (Parser::step(co, *final(p))),
        r ==> (final(p).pos == co.pos ==> (co.peek() == SyntaxKind::Eof)),
        r ==> (co.events@.len() < final(p).events@.len()),
        r ==> (final(p).events@[co.events@.len() as int] == (Event::Open { kind: SyntaxKind::ConstructQuery })),
        r ==> (final(p).events@.last() is Close),
    decreases co.remaining(), rank_ConstructQuery(co.peek()), 0int,
{
    let ghost ks = p.kinds();
    let ghost start = co.pos as int;
    assert(ks == co.kinds());
    let ghost pre1 = p.st();
    match p.nth(0) {
        SyntaxKind::WHERE | SyntaxKind::FROM => {
            let ghost pre7 = p.st();
            proof {
                assert(p.st().pos == p.pos as int) by {
                    reveal(Parser::st);
                }
                if !(peek_at(ks, p.st().pos) == SyntaxKind::FROM) {
                    assert(loop_ConstructQuery_6(ks, start, gm1, pre7) == pre7) by {
                        reveal_with_fuel(loop_ConstructQuery_6, 1); reveal_with_fuel(body_ConstructQuery_7, 1);
                    }
                }
            }
            while p.at_any(&[SyntaxKind::FROM])
                invariant
                    marker.index == co.events@.len(),
                    p.wf(),
                    p.tokens@ == co.tokens@,
                    co.pos <= p.pos,
                    p.stack() == co.stack().push(marker.index as int),
                    p.pos == co.pos ==> (co.peek() == SyntaxKind::FROM || co.peek() == SyntaxKind::WHERE),
                    ks == p.kinds(),
                    p.st().pos == p.pos as int,
                    start == co.pos as int,
                    gm1 == marker.index as int,
                    pre7.pos <= p.pos,
                    start <= pre7.pos,
                    loop_ConstructQuery_6(ks, start, gm1, p.st()) == loop_ConstructQuery_6(ks, start, gm1, pre7),
                    !(peek_at(ks, p.st().pos) == SyntaxKind::FROM) ==> loop_ConstructQuery_6(ks, start, gm1, p.st()) == p.st(),
                ensures
                    loop_ConstructQuery_6(ks, start, gm1, pre7) == p.st(),
                decreases p.remaining(),
            {
                let ghost si7 = p.st();
                let checkpoint1 = p.pos();
                parse_DatasetClause(p);
                proof {
                    assert(body_ConstructQuery_7(ks, start, gm1, si7) == p.st()) by {
                        reveal_with_fuel(body_ConstructQuery_7, 1);
                    }
                }
                if p.pos() == checkpoint1 {
                    proof {
                        assert(loop_ConstructQuery_6(ks, start, gm1, si7) == p.st()) by {
                            reveal_with_fuel(loop_ConstructQuery_6, 1); reveal_with_fuel(body_ConstructQuery_7, 1);
                        }
                    }
                    break;
                }
                proof {
                    assert(p.st().pos == p.pos as int) by {
                        reveal(Parser::st);
                    }
                    assert(loop_ConstructQuery_6(ks, start, gm1, si7) == loop_ConstructQuery_6(ks, start, gm1, p.st())) by {
                        reveal_with_fuel(loop_ConstructQuery_6, 1); reveal_with_fuel(body_ConstructQuery_7, 1);
                        reveal(Parser::st);
                    }
                    if !(peek_at(ks, p.st().pos) == SyntaxKind::FROM) {
                        assert(loop_ConstructQuery_6(ks, start, gm1, p.st()) == p.st()) by {
                            reveal_with_fuel(loop_ConstructQuery_6, 1); reveal_with_fuel(body_ConstructQuery_7, 1);
                        }
                    }
                }
            }
            let ghost pre8 = p.st();
            if !p.at_any(&[SyntaxKind::WHERE]) && !p.eof() {
                let expected9 = vec![SyntaxKind::WHERE];
                let recovery9 = vec![SyntaxKind::WHERE];
                proof {
                    assert(expected9@ =~= seq![SyntaxKind::WHERE]);
                    assert(recovery9@ =~= seq![SyntaxKind::WHERE]);
                }
                p.error_until(expected9, recovery9.as_slice());
                proof {
                    assert(if_ConstructQuery_8(ks, start, gm1, pre8) == p.st()) by {
                        reveal_with_fuel(if_ConstructQuery_8, 1);
                    }
                }
            } else {
                proof {
                    assert(if_ConstructQuery_8(ks, start, gm1, pre8) == p.st()) by {
                        reveal_with_fuel(if_ConstructQuery_8, 1);
                    }
                }
            }
            p.expect(SyntaxKind::WHERE);
            let ghost pre10 = p.st();
            if !p.at_any(&[SyntaxKind::LCurly]) && !p.eof() {
                let expected11 = vec![SyntaxKind::LCurly];
                let recovery11 = vec![SyntaxKind::LCurly];
                proof {
                    assert(expected11@ =~= seq![SyntaxKind::LCurly]);
                    assert(recovery11@ =~= seq![SyntaxKind::LCurly]);
                }
                p.error_until(expected11, recovery11.as_slice());
                proof {
                    assert(if_ConstructQuery_9(ks, start, gm1, pre10) == p.st()) by {
                        reveal_with_fuel(if_ConstructQuery_9, 1);
                    }
                }
            } else {
                proof {
                    assert(if_ConstructQuery_9(ks, start, gm1, pre10) == p.st()) by {
                        reveal_with_fuel(if_ConstructQuery_9, 1);
                    }
                }
            }
            p.expect(SyntaxKind::LCurly);
            let ghost pre12 = p.st();
            if p.at_any(&[SyntaxKind::IRIREF, SyntaxKind::PNAME_NS, SyntaxKind::STRING_LITERAL1, SyntaxKind::STRING_LITERAL2, SyntaxKind::LParen, SyntaxKind::INTEGER, SyntaxKind::NIL, SyntaxKind::LBrack, SyntaxKind::DoubleLess, SyntaxKind::DoubleLessLParen, SyntaxKind::VAR1, SyntaxKind::VAR2, SyntaxKind::DECIMAL, SyntaxKind::DOUBLE, SyntaxKind::INTEGER_POSITIVE, SyntaxKind::DECIMAL_POSITIVE, SyntaxKind::DOUBLE_POSITIVE, SyntaxKind::INTEGER_NEGATIVE, SyntaxKind::DECIMAL_NEGATIVE, SyntaxKind::DOUBLE_NEGATIVE, SyntaxKind::True, SyntaxKind::False, SyntaxKind::STRING_LITERAL_LONG1, SyntaxKind::STRING_LITERAL_LONG2, SyntaxKind::PNAME_LN, SyntaxKind::BLANK_NODE_LABEL, SyntaxKind::ANON]) {
                proof {
                    assert(call_ok(ks, start, p.st(), rank_TriplesTemplate(peek_at(ks, p.st().pos)), rank_ConstructQuery(peek_at(ks, start)))) by {
                        reveal(Parser::st);
                        assert(peek_at(ks, start) == co.peek());
                        assert(peek_at(ks, p.pos as int) == p.peek());
                    }
                }
                parse_TriplesTemplate(p);
                proof {
                    assert(if_ConstructQuery_10(ks, start, gm1, pre12) == p.st()) by {
                        reveal_with_fuel(if_ConstructQuery_10, 1); reveal_with_fuel(rule_TriplesTemplate, 1);
                    }
                }
            } else {
                proof {
                    assert(if_ConstructQuery_10(ks, start, gm1, pre12) == p.st()) by {
                        reveal_with_fuel(if_ConstructQuery_10, 1);
                    }
                }
            }
            let ghost pre13 = p.st();
            if !p.at_any(&[SyntaxKind::RCurly]) && !p.eof() {
                let expected14 = vec![SyntaxKind::RCurly];
                let recovery14 = vec![SyntaxKind::RCurly];
                proof {
                    assert(expected14@ =~= seq![SyntaxKind::RCurly]);
                    assert(recovery14@ =~= seq![SyntaxKind::RCurly]);
                }
                p.error_until(expected14, recovery14.as_slice());
                proof {
                    assert(if_ConstructQuery_11(ks, start, gm1, pre13) == p.st()) by {
                        reveal_with_fuel(if_ConstructQuery_11, 1);
                    }
                }
            } else {
                proof {
                    assert(if_ConstructQuery_11(ks, start, gm1, pre13) == p.st()) by {
                        reveal_with_fuel(if_ConstructQuery_11, 1);
                    }
                }
            }
            p.expect(SyntaxKind::RCurly);
            proof {
                assert(call_ok(ks, start, p.st(), rank_SolutionModifier(peek_at(ks, p.st().pos)), rank_ConstructQuery(peek_at(ks, start)))) by {
                    reveal(Parser::st);
                    assert(peek_at(ks, start) == co.peek());
                    assert(peek_at(ks, p.pos as int) == p.peek());
                }
            }
            parse_SolutionModifier(p);
            proof {
                assert(match_ConstructQuery_2(ks, start, gm1, pre1) == (p.st(), false)) by {
                    reveal_with_fuel(match_ConstructQuery_2, 1); reveal_with_fuel(if_ConstructQuery_10, 1); reveal_with_fuel(if_ConstructQuery_11, 1); reveal_with_fuel(if_ConstructQuery_8, 1); reveal_with_fuel(if_ConstructQuery_9, 1); reveal_with_fuel(loop_ConstructQuery_6, 1); reveal_with_fuel(rule_SolutionModifier, 1);
                }
            }
        },
        _ => {
            proof {
                assert(false);
            }
        },
    }
    false
}


pub open spec fn rank_DescribeQuery(t: SyntaxKind) -> nat {
    match t {
        SyntaxKind::IRIREF | SyntaxKind::VAR1 | SyntaxKind::VAR2 => 2,
        SyntaxKind::PNAME_LN | SyntaxKind::PNAME_NS => 3,
        _ => 0,
    }
}

/// What [`parse_DescribeQuery`] makes of the parser state.
#[verifier::opaque]
pub open spec fn rule_DescribeQuery(ts: Seq<SyntaxKind>, s: St) -> St
    decreases ts.len() - s.pos, rank_DescribeQuery(peek_at(ts, s.pos)), 32 * (ts.len() - s.pos) + 32,
{
    let start = s.pos;
    let s_in = s;
    let m_marker = s.evs.len() as int;
    let s = st_open(s);
    let s = st_expect(ts, s, SyntaxKind::DESCRIBE);
    let s = if s_in.pos <= s.pos <= ts.len() {
        if_DescribeQuery_1(ts, start, m_marker, s)
    } else {
        s
    };
    let (s, r) = if s_in.pos <= s.pos <= ts.len() {
        match_DescribeQuery_2(ts, start, m_marker, s)
    } else {
        (s, false)
    };
    if r {
        s
    } else {
        let s = if s_in.pos <= s.pos <= ts.len() {
            loop_DescribeQuery_5(ts, start, m_marker, s)
        } else {
            s
        };
        let s = if s_in.pos <= s.pos <= ts.len() {
            if_DescribeQuery_7(ts, start, m_marker, s)
        } else {
            s
        };
        let s = if call_ok(ts, start, s, rank_SolutionModifier(peek_at(ts, s.pos)), rank_DescribeQuery(peek_at(ts, start))) {
            rule_SolutionModifier(ts, s)
        } else {
            s
        };
        let s = st_close(s, m_marker, SyntaxKind::DescribeQuery);
        s
    }
}

#[verifier::opaque]
pub open spec fn if_DescribeQuery_1(ts: Seq<SyntaxKind>, start: int, m_marker: int, s: St) -> St
    decreases ts.len() - start, rank_DescribeQuery(peek_at(ts, start)), 32 * (ts.len() - s.pos) + 32 - 1,
{
    let s_in = s;
    if (!(peek_at(ts, s.pos) == SyntaxKind::IRIREF || peek_at(ts, s.pos) == SyntaxKind::PNAME_NS || peek_at(ts, s.pos) == SyntaxKind::Star || peek_at(ts, s.pos) == SyntaxKind::VAR1 || peek_at(ts, s.pos) == SyntaxKind::VAR2 || peek_at(ts, s.pos) == SyntaxKind::PNAME_LN) && s.pos != ts.len()) {
        let s = st_error_until(ts, s, seq![SyntaxKind::IRIREF, SyntaxKind::PNAME_NS, SyntaxKind::Star, SyntaxKind::VAR1, SyntaxKind::VAR2, SyntaxKind::PNAME_LN], seq![SyntaxKind::IRIREF, SyntaxKind::PNAME_NS, SyntaxKind::Star, SyntaxKind::VAR1, SyntaxKind::VAR2, SyntaxKind::PNAME_LN]);
        s
    } else {
        s
    }
}

#[verifier::opaque]
pub open spec fn loop_DescribeQuery_3(ts: Seq<SyntaxKind>, start: int, m_marker: int, s: St) -> St
    decreases ts.len() - start, rank_DescribeQuery(peek_at(ts, start)), 32 * (ts.len() - s.pos) + 32 - 2,
{
    let s_in = s;
    if (peek_at(ts, s.pos) == SyntaxKind::IRIREF || peek_at(ts, s.pos) == SyntaxKind::PNAME_NS || peek_at(ts, s.pos) == SyntaxKind::VAR1 || peek_at(ts, s.pos) == SyntaxKind::VAR2 || peek_at(ts, s.pos) == SyntaxKind::PNAME_LN) && s.pos <= ts.len() {
        let s1 = body_DescribeQuery_4(ts, start, m_marker, s);
        if s1.pos == s.pos {
            s1
        } else if s.pos < s1.pos <= ts.len() {
            loop_DescribeQuery_3(ts, start, m_marker, s1)
        } else {
            s1
        }
    } else {
        s
    }
}

#[verifier::opaque]
pub open spec fn body_DescribeQuery_4(ts: Seq<SyntaxKind>, start: int, m_marker: int, s: St) -> St
    decreases ts.len() - start, rank_DescribeQuery(peek_at(ts, start)), 32 * (ts.len() - s.pos) + 32 - 3,
{
    let s_in = s;
    let s = rule_VarOrIri(ts, s);
    s
}

#[verifier::opaque]
pub open spec fn match_DescribeQuery_2(ts: Seq<SyntaxKind>, start: int, m_marker: int, s: St) -> (St, bool)
    decreases ts.len() - start, rank_DescribeQuery(peek_at(ts, start)), 32 * (ts.len() - s.pos) + 32 - 1,
{
    let s_in = s;
    if (peek_at(ts, s.pos) == SyntaxKind::IRIREF || peek_at(ts, s.pos) == SyntaxKind::PNAME_NS || peek_at(ts, s.pos) == SyntaxKind::VAR1 || peek_at(ts, s.pos) == SyntaxKind::VAR2 || peek_at(ts, s.pos) == SyntaxKind::PNAME_LN) {
        let s = rule_VarOrIri(ts, s);
        let s = if s_in.pos <= s.pos <= ts.len() {
            loop_DescribeQuery_3(ts, start, m_marker, s)
        } else {
            s
        };
        (s, false)
    } else if (peek_at(ts, s.pos) == SyntaxKind::Star) {
        let s = st_expect(ts, s, SyntaxKind::Star);
        (s, false)
    } else if (peek_at(ts, s.pos) == SyntaxKind::Eof) {
        let s = st_close(s, m_marker, SyntaxKind::DescribeQuery);
        let m_marker = s.evs.len() as int;
        let s = st_open(s);
        let s = st_close(s, m_marker, SyntaxKind::Error);
        (s, true)
    } else {
        let s = st_advance_with_error(ts, s, seq![SyntaxKind::IRIREF, SyntaxKind::PNAME_NS, SyntaxKind::VAR1, SyntaxKind::VAR2, SyntaxKind::PNAME_LN, SyntaxKind::Star]);
        (s, false)
    }
}

#[verifier::opaque]
pub open spec fn loop_DescribeQuery_5(ts: Seq<SyntaxKind>, start: int, m_marker: int, s: St) -> St
    decreases ts.len() - start, rank_DescribeQuery(peek_at(ts, start)), 32 * (ts.len() - s.pos) + 32 - 1,
{
    let s_in = s;
    if (peek_at(ts, s.pos) == SyntaxKind::FROM) && s.pos <= ts.len() {
        let s1 = body_DescribeQuery_6(ts, start, m_marker, s);
        if s1.pos == s.pos {
            s1
        } else if s.pos < s1.pos <= ts.len() {
            loop_DescribeQuery_5(ts, start, m_marker, s1)
        } else {
            s1
        }
    } else {
        s
    }
}

#[verifier::opaque]
pub open spec fn body_DescribeQuery_6(ts: Seq<SyntaxKind>, start: int, m_marker: int, s: St) -> St
    decreases ts.len() - start, rank_DescribeQuery(peek_at(ts, start)), 32 * (ts.len() - s.pos) + 32 - 2,
{
    let s_in = s;
    let s = rule_DatasetClause(ts, s);
    s
}

#[verifier::opaque]
pub open spec fn if_DescribeQuery_7(ts: Seq<SyntaxKind>, start: int, m_marker: int, s: St) -> St
    decreases ts.len() - start, rank_DescribeQuery(peek_at(ts, start)), 32 * (ts.len() - s.pos) + 32 - 1,
{
    let s_in = s;
    if (peek_at(ts, s.pos) == SyntaxKind::WHERE || peek_at(ts, s.pos) == SyntaxKind::LCurly) {
        let s = if call_ok(ts, start, s, rank_WhereClause(peek_at(ts, s.pos)), rank_DescribeQuery(peek_at(ts, start))) {
            rule_WhereClause(ts, s)
        } else {
            s
        };
        s
    } else {
        s
    }
}

/// [5] DescribeQuery -> 'DESCRIBE' (VarOrIri VarOrIri* | '*') DatasetClause* WhereClause? SolutionModifier
#[verifier::rlimit(100)]
#[verifier::spinoff_prover]
pub(crate) fn parse_DescribeQuery(p: &mut Parser)
    requires
        old(p).wf(),
    ensures
        Parser::step(*old(p), *final(p)),
        final(p).pos == old(p).pos ==> (old(p).peek() == SyntaxKind::Eof),
        old(p).events@.len() < final(p).events@.len(),
        final(p).events@[old(p).events@.len() as int] == (Event::Open { kind: SyntaxKind::DescribeQuery }),
        final(p).events@.last() is Close,
        final(p).st() == rule_DescribeQuery(old(p).kinds(), old(p).st()),
    decreases old(p).remaining(), rank_DescribeQuery(old(p).peek()), 1int,
{
    let ghost ks = p.kinds();
    let ghost s0 = p.st();
    let ghost start = p.pos as int;
    let marker = p.open();
    let ghost gm1 = marker.index as int;
    p.expect(SyntaxKind::DESCRIBE);
    let ghost pre1 = p.st();
    if !p.at_any(&[SyntaxKind::IRIREF, SyntaxKind::PNAME_NS, SyntaxKind::Star, SyntaxKind::VAR1, SyntaxKind::VAR2, SyntaxKind::PNAME_LN]) && !p.eof() {
        let expected2 = vec![SyntaxKind::IRIREF, SyntaxKind::PNAME_NS, SyntaxKind::Star, SyntaxKind::VAR1, SyntaxKind::VAR2, SyntaxKind::PNAME_LN];
        let recovery2 = vec![SyntaxKind::IRIREF, SyntaxKind::PNAME_NS, SyntaxKind::Star, SyntaxKind::VAR1, SyntaxKind::VAR2, SyntaxKind::PNAME_LN];
        proof {
            assert(expected2@ =~= seq![SyntaxKind::IRIREF, SyntaxKind::PNAME_NS, SyntaxKind::Star, SyntaxKind::VAR1, SyntaxKind::VAR2, SyntaxKind::PNAME_LN]);
            assert(recovery2@ =~= seq![SyntaxKind::IRIREF, SyntaxKind::PNAME_NS, SyntaxKind::Star, SyntaxKind::VAR1, SyntaxKind::VAR2, SyntaxKind::PNAME_LN]);
        }
        p.error_until(expected2, recovery2.as_slice());
        proof {
            assert(if_DescribeQuery_1(ks, start, gm1, pre1) == p.st()) by {
                reveal_with_fuel(if_DescribeQuery_1, 1);
            }
        }
    } else {
        proof {
            assert(if_DescribeQuery_1(ks, start, gm1, pre1) == p.st()) by {
                reveal_with_fuel(if_DescribeQuery_1, 1);
            }
        }
    }
    let ghost pre3 = p.st();
    match p.nth(0) {
        SyntaxKind::IRIREF | SyntaxKind::PNAME_NS | SyntaxKind::VAR1 | SyntaxKind::VAR2 | SyntaxKind::PNAME_LN => {
            parse_VarOrIri(p);
            let ghost pre4 = p.st();
            proof {
                assert(p.st().pos == p.pos as int) by {
                    reveal(Parser::st);
                }
                if !(peek_at(ks, p.st().pos) == SyntaxKind::IRIREF || peek_at(ks, p.st().pos) == SyntaxKind::PNAME_NS || peek_at(ks, p.st().pos) == SyntaxKind::VAR1 || peek_at(ks, p.st().pos) == SyntaxKind::VAR2 || peek_at(ks, p.st().pos) == SyntaxKind::PNAME_LN) {
                    assert(loop_DescribeQuery_3(ks, start, gm1, pre4) == pre4) by {
                        reveal_with_fuel(loop_DescribeQuery_3, 1); reveal_with_fuel(body_DescribeQuery_4, 1);
                    }
                }
            }
            while p.at_any(&[SyntaxKind::IRIREF, SyntaxKind::PNAME_NS, SyntaxKind::VAR1, SyntaxKind::VAR2, SyntaxKind::PNAME_LN])
                invariant
                    marker.index == old(p).events@.len(),
                    p.wf(),
                    p.tokens@ == old(p).tokens@,
                    old(p).pos <= p.pos,
                    p.stack() == old(p).stack().push(marker.index as int),
                    p.pos == old(p).pos ==> false,
                    ks == p.kinds(),
                    p.st().pos == p.pos as int,
                    start == old(p).pos as int,
                    gm1 == marker.index as int,
                    pre4.pos <= p.pos,
                    start <= pre4.pos,
                    loop_DescribeQuery_3(ks, start, gm1, p.st()) == loop_DescribeQuery_3(ks, start, gm1, pre4),
                    !(peek_at(ks, p.st().pos) == SyntaxKind::IRIREF || peek_at(ks, p.st().pos) == SyntaxKind::PNAME_NS || peek_at(ks, p.st().pos) == SyntaxKind::VAR1 || peek_at(ks, p.st().pos) == SyntaxKind::VAR2 || peek_at(ks, p.st().pos) == SyntaxKind::PNAME_LN) ==> loop_DescribeQuery_3(ks, start, gm1, p.st()) == p.st(),
                ensures
                    loop_DescribeQuery_3(ks, start, gm1, pre4) == p.st(),
                decreases p.remaining(),
            {
                let ghost si4 = p.st();
                let checkpoint1 = p.pos();
                parse_VarOrIri(p);
                proof {
                    assert(body_DescribeQuery_4(ks, start, gm1, si4) == p.st()) by {
                        reveal_with_fuel(body_DescribeQuery_4, 1);
                    }
                }
                if p.pos() == checkpoint1 {
                    proof {
                        assert(loop_DescribeQuery_3(ks, start, gm1, si4) == p.st()) by {
                            reveal_with_fuel(loop_DescribeQuery_3, 1); reveal_with_fuel(body_DescribeQuery_4, 1);
                        }
                    }
                    break;
                }
                proof {
                    assert(p.st().pos == p.pos as int) by {
                        reveal(Parser::st);
                    }
                    assert(loop_DescribeQuery_3(ks, start, gm1, si4) == loop_DescribeQuery_3(ks, start, gm1, p.st())) by {
                        reveal_with_fuel(loop_DescribeQuery_3, 1); reveal_with_fuel(body_DescribeQuery_4, 1);
                        reveal(Parser::st);
                    }
                    if !(peek_at(ks, p.st().pos) == SyntaxKind::IRIREF || peek_at(ks, p.st().pos) == SyntaxKind::PNAME_NS || peek_at(ks, p.st().pos) == SyntaxKind::VAR1 || peek_at(ks, p.st().pos) == SyntaxKind::VAR2 || peek_at(ks, p.st().pos) == SyntaxKind::PNAME_LN) {
                        assert(loop_DescribeQuery_3(ks, start, gm1, p.st()) == p.st()) by {
                            reveal_with_fuel(loop_DescribeQuery_3, 1); reveal_with_fuel(body_DescribeQuery_4, 1);
                        }
                    }
                }
            }
            proof {
                assert(match_DescribeQuery_2(ks, start, gm1, pre3) == (p.st(), false)) by {
                    reveal_with_fuel(match_DescribeQuery_2, 1); reveal_with_fuel(loop_DescribeQuery_3, 1);
                }
            }
        },
        SyntaxKind::Star => {
            p.expect(SyntaxKind::Star);
            proof {
                assert(match_DescribeQuery_2(ks, start, gm1, pre3) == (p.st(), false)) by {
                    reveal_with_fuel(match_DescribeQuery_2, 1);
                }
            }
        },
        SyntaxKind::Eof => {
            p.close(marker, SyntaxKind::DescribeQuery);
            let marker = p.open();
            let ghost gm2 = marker.index as int;
            p.close(marker, SyntaxKind::Error);
            proof {
                assert(match_DescribeQuery_2(ks, start, gm1, pre3) == (p.st(), true)) by {
                    reveal_with_fuel(match_DescribeQuery_2, 1);
                }
            }
            proof {
                assert(rule_DescribeQuery(ks, s0) == p.st()) by {
                    reveal_with_fuel(rule_DescribeQuery, 1); reveal_with_fuel(if_DescribeQuery_1, 1); reveal_with_fuel(if_DescribeQuery_7, 1); reveal_with_fuel(loop_DescribeQuery_5, 1); reveal_with_fuel(match_DescribeQuery_2, 1); reveal_with_fuel(rule_SolutionModifier, 1);
                }
            }
            return ;
        },
        _ => {
            p.advance_with_error(vec![SyntaxKind::IRIREF, SyntaxKind::PNAME_NS, SyntaxKind::VAR1, SyntaxKind::VAR2, SyntaxKind::PNAME_LN, SyntaxKind::Star]);
            proof {
                assert(match_DescribeQuery_2(ks, start, gm1, pre3) == (p.st(), false)) by {
                    reveal_with_fuel(match_DescribeQuery_2, 1);
                }
            }
        },
    }
    let ghost pre5 = p.st();
    proof {
        assert(p.st().pos == p.pos as int) by {
            reveal(Parser::st);
        }
        if !(peek_at(ks, p.st().pos) == SyntaxKind::FROM) {
            assert(loop_DescribeQuery_5(ks, start, gm1, pre5) == pre5) by {
                reveal_with_fuel(loop_DescribeQuery_5, 1); reveal_with_fuel(body_DescribeQuery_6, 1);
            }
        }
    }
    while p.at_any(&[SyntaxKind::FROM])
        invariant
            marker.index == old(p).events@.len(),
            p.wf(),
            p.tokens@ == old(p).tokens@,
            old(p).pos <= p.pos,
            p.stack() == old(p).stack().push(marker.index as int),
            p.pos == old(p).pos ==> false,
            ks == p.kinds(),
            p.st().pos == p.pos as int,
            start == old(p).pos as int,
            gm1 == marker.index as int,
            pre5.pos <= p.pos,
            start <= pre5.pos,
            loop_DescribeQuery_5(ks, start, gm1, p.st()) == loop_DescribeQuery_5(ks, start, gm1, pre5),
            !(peek_at(ks, p.st().pos) == SyntaxKind::FROM) ==> loop_DescribeQuery_5(ks, start, gm1, p.st()) == p.st(),
        ensures
            loop_DescribeQuery_5(ks, start, gm1, pre5) == p.st(),
        decreases p.remaining(),
    {
        let ghost si5 = p.st();
        let checkpoint1 = p.pos();
        parse_DatasetClause(p);
        proof {
            assert(body_DescribeQuery_6(ks, start, gm1, si5) == p.st()) by {
                reveal_with_fuel(body_DescribeQuery_6, 1);
            }
        }
        if p.pos() == checkpoint1 {
            proof {
                assert(loop_DescribeQuery_5(ks, start, gm1, si5) == p.st()) by {
                    reveal_with_fuel(loop_DescribeQuery_5, 1); reveal_with_fuel(body_DescribeQuery_6, 1);
                }
            }
            break;
        }
        proof {
            assert(p.st().pos == p.pos as int) by {
                reveal(Parser::st);
            }
            assert(loop_DescribeQuery_5(ks, start, gm1, si5) == loop_DescribeQuery_5(ks, start, gm1, p.st())) by {
                reveal_with_fuel(loop_DescribeQuery_5, 1); reveal_with_fuel(body_DescribeQuery_6, 1);
                reveal(Parser::st);
            }
            if !(peek_at(ks, p.st().pos) == SyntaxKind::FROM) {
                assert(loop_DescribeQuery_5(ks, start, gm1, p.st()) == p.st()) by {
                    reveal_with_fuel(loop_DescribeQuery_5, 1); reveal_with_fuel(body_DescribeQuery_6, 1);
                }
            }
        }
    }
    let ghost pre6 = p.st();
    if p.at_any(&[SyntaxKind::WHERE, SyntaxKind::LCurly]) {
        proof {
            assert(call_ok(ks, start, p.st(), rank_WhereClause(peek_at(ks, p.st().pos)), rank_DescribeQuery(peek_at(ks, start)))) by {
                reveal(Parser::st);
                assert(peek_at(ks, start) == old(p).peek());
                assert(peek_at(ks, p.pos as int) == p.peek());
            }
        }
        parse_WhereClause(p);
        proof {
            assert(if_DescribeQuery_7(ks, start, gm1, pre6) == p.st()) by {
                reveal_with_fuel(if_DescribeQuery_7, 1); reveal_with_fuel(rule_WhereClause, 1);
            }
        }
    } else {
        proof {
            assert(if_DescribeQuery_7(ks, start, gm1, pre6) == p.st()) by {
                reveal_with_fuel(if_DescribeQuery_7, 1);
            }
        }
    }
    proof {
        assert(call_ok(ks, start, p.st(), rank_SolutionModifier(peek_at(ks, p.st().pos)), rank_DescribeQuery(peek_at(ks, start)))) by {
            reveal(Parser::st);
            assert(peek_at(ks, start) == old(p).peek());
            assert(peek_at(ks, p.pos as int) == p.peek());
        }
    }
    parse_SolutionModifier(p);
    p.close(marker, SyntaxKind::DescribeQuery);
    proof {
        assert(rule_DescribeQuery(ks, s0) == p.st()) by {
            reveal_with_fuel(rule_DescribeQuery, 1); reveal_with_fuel(if_DescribeQuery_1, 1); reveal_with_fuel(if_DescribeQuery_7, 1); reveal_with_fuel(loop_DescribeQuery_5, 1); reveal_with_fuel(match_DescribeQuery_2, 1); reveal_with_fuel(rule_SolutionModifier, 1);
        }
    }
}

pub open spec fn rank_AskQuery(t: SyntaxKind) -> nat {
    match t {
        SyntaxKind::FROM | SyntaxKind::WHERE => 1,
        SyntaxKind::Eof | SyntaxKind::LCurly => 2,
        _ => 0,
    }
}

/// What [`parse_AskQuery`] makes of the parser state.
#[verifier::opaque]
pub open spec fn rule_AskQuery(ts: Seq<SyntaxKind>, s: St) -> St
    decreases ts.len() - s.pos, rank_AskQuery(peek_at(ts, s.pos)), 32 * (ts.len() - s.pos) + 32,
{
    let start = s.pos;
    let s_in = s;
    let m_marker = s.evs.len() as int;
    let s = st_open(s);
    let s = st_expect(ts, s, SyntaxKind::ASK);
    let s = if s_in.pos <= s.pos <= ts.len() {
        loop_AskQuery_1(ts, start, m_marker, s)
    } else {
        s
    };
    let s = if s_in.pos <= s.pos <= ts.len() {
        if_AskQuery_3(ts, start, m_marker, s)
    } else {
        s
    };
    let s = if call_ok(ts, start, s, rank_WhereClause(peek_at(ts, s.pos)), rank_AskQuery(peek_at(ts, start))) {
        rule_WhereClause(ts, s)
    } else {
        s
    };
    let s = if call_ok(ts, start, s, rank_SolutionModifier(peek_at(ts, s.pos)), rank_AskQuery(peek_at(ts, start))) {
        rule_SolutionModifier(ts, s)
    } else {
        s
    };
    let s = st_close(s, m_marker, SyntaxKind::AskQuery);
    s
}

#[verifier::opaque]
pub open spec fn loop_AskQuery_1(ts: Seq<SyntaxKind>, start: int, m_marker: int, s: St) -> St
    decreases ts.len() - start, rank_AskQuery(peek_at(ts, start)), 32 * (ts.len() - s.pos) + 32 - 1,
{
    let s_in = s;
    if (peek_at(ts, s.pos) == SyntaxKind::FROM) && s.pos <= ts.len() {
        let s1 = body_AskQuery_2(ts, start, m_marker, s);
        if s1.pos == s.pos {
            s1
        } else if s.pos < s1.pos <= ts.len() {
            loop_AskQuery_1(ts, start, m_marker, s1)
        } else {
            s1
        }
    } else {
        s
    }
}

#[verifier::opaque]
pub open spec fn body_AskQuery_2(ts: Seq<SyntaxKind>, start: int, m_marker: int, s: St) -> St
    decreases ts.len() - start, rank_AskQuery(peek_at(ts, start)), 32 * (ts.len() - s.pos) + 32 - 2,
{
    let s_in = s;
    let s = rule_DatasetClause(ts, s);
    s
}

#[verifier::opaque]
pub open spec fn if_AskQuery_3(ts: Seq<SyntaxKind>, start: int, m_marker: int, s: St) -> St
    decreases ts.len() - start, rank_AskQuery(peek_at(ts, start)), 32 * (ts.len() - s.pos) + 32 - 1,
{
    let s_in = s;
    if (!(peek_at(ts, s.pos) == SyntaxKind::WHERE || peek_at(ts, s.pos) == SyntaxKind::LCurly) && s.pos != ts.len()) {
        let s = st_error_until(ts, s, seq![SyntaxKind::WHERE, SyntaxKind::LCurly], seq![SyntaxKind::WHERE, SyntaxKind::LCurly]);
        s
    } else {
        s
    }
}

/// [6] AskQuery -> 'ASK' DatasetClause* WhereClause SolutionModifier
pub(crate) fn parse_AskQuery(p: &mut Parser)
    requires
        old(p).wf(),
    ensures
        Parser::step(*old(p), *final(p)),
        final(p).pos == old(p).pos ==> (old(p).peek() == SyntaxKind::Eof),
        old(p).events@.len() < final(p).events@.len(),
        final(p).events@[old(p).events@.len() as int] == (Event::Open { kind: SyntaxKind::AskQuery }),
        final(p).events@.last() is Close,
        final(p).st() == rule_AskQuery(old(p).kinds(), old(p).st()),
    decreases old(p).remaining(), rank_AskQuery(old(p).peek()), 1int,
{
    let ghost ks = p.kinds();
    let ghost s0 = p.st();
    let ghost start = p.pos as int;
    let marker = p.open();
    let ghost gm1 = marker.index as int;
    p.expect(SyntaxKind::ASK);
    let ghost pre1 = p.st();
    proof {
        assert(p.st().pos == p.pos as int) by {
            reveal(Parser::st);
        }
        if !(peek_at(ks, p.st().pos) == SyntaxKind::FROM) {
            assert(loop_AskQuery_1(ks, start, gm1, pre1) == pre1) by {
                reveal_with_fuel(loop_AskQuery_1, 1); reveal_with_fuel(body_AskQuery_2, 1);
            }
        }
    }
    while p.at_any(&[SyntaxKind::FROM])
        invariant
            marker.index == old(p).events@.len(),
            p.wf(),
            p.tokens@ == old(p).tokens@,
            old(p).pos <= p.pos,
            p.stack() == old(p).stack().push(marker.index as int),
            p.pos == old(p).pos ==> !(old(p).peek() == SyntaxKind::ASK),
            ks == p.kinds(),
            p.st().pos == p.pos as int,
            start == old(p).pos as int,
            gm1 == marker.index as int,
            pre1.pos <= p.pos,
            start <= pre1.pos,
            loop_AskQuery_1(ks, start, gm1, p.st()) == loop_AskQuery_1(ks, start, gm1, pre1),
            !(peek_at(ks, p.st().pos) == SyntaxKind::FROM) ==> loop_AskQuery_1(ks, start, gm1, p.st()) == p.st(),
        ensures
            loop_AskQuery_1(ks, start, gm1, pre1) == p.st(),
        decreases p.remaining(),
    {
        let ghost si1 = p.st();
        let checkpoint1 = p.pos();
        parse_DatasetClause(p);
        proof {
            assert(body_AskQuery_2(ks, start, gm1, si1) == p.st()) by {
                reveal_with_fuel(body_AskQuery_2, 1);
            }
        }
        if p.pos() == checkpoint1 {
            proof {
                assert(loop_AskQuery_1(ks, start, gm1, si1) == p.st()) by {
                    reveal_with_fuel(loop_AskQuery_1, 1); reveal_with_fuel(body_AskQuery_2, 1);
                }
            }
            break;
        }
        proof {
            assert(p.st().pos == p.pos as int) by {
                reveal(Parser::st);
            }
            assert(loop_AskQuery_1(ks, start, gm1, si1) == loop_AskQuery_1(ks, start, gm1, p.st())) by {
                reveal_with_fuel(loop_AskQuery_1, 1); reveal_with_fuel(body_AskQuery_2, 1);
                reveal(Parser::st);
            }
            if !(peek_at(ks, p.st().pos) == SyntaxKind::FROM) {
                assert(loop_AskQuery_1(ks, start, gm1, p.st()) == p.st()) by {
                    reveal_with_fuel(loop_AskQuery_1, 1); reveal_with_fuel(body_AskQuery_2, 1);
                }
            }
        }
    }
    let ghost pre2 = p.st();
    if !p.at_any(&[SyntaxKind::WHERE, SyntaxKind::LCurly]) && !p.eof() {
        let expected3 = vec![SyntaxKind::WHERE, SyntaxKind::LCurly];
        let recovery3 = vec![SyntaxKind::WHERE, SyntaxKind::LCurly];
        proof {
            assert(expected3@ =~= seq![SyntaxKind::WHERE, SyntaxKind::LCurly]);
            assert(recovery3@ =~= seq![SyntaxKind::WHERE, SyntaxKind::LCurly]);
        }
        p.error_until(expected3, recovery3.as_slice());
        proof {
            assert(if_AskQuery_3(ks, start, gm1, pre2) == p.st()) by {
                reveal_with_fuel(if_AskQuery_3, 1);
            }
        }
    } else {
        proof {
            assert(if_AskQuery_3(ks, start, gm1, pre2) == p.st()) by {
                reveal_with_fuel(if_AskQuery_3, 1);
            }
        }
    }
    proof {
        assert(call_ok(ks, start, p.st(), rank_WhereClause(peek_at(ks, p.st().pos)), rank_AskQuery(peek_at(ks, start)))) by {
            reveal(Parser::st);
            assert(peek_at(ks, start) == old(p).peek());
            assert(peek_at(ks, p.pos as int) == p.peek());
        }
    }
    parse_WhereClause(p);
    proof {
        assert(call_ok(ks, start, p.st(), rank_SolutionModifier(peek_at(ks, p.st().pos)), rank_AskQuery(peek_at(ks, start)))) by {
            reveal(Parser::st);
            assert(peek_at(ks, start) == old(p).peek());
            assert(peek_at(ks, p.pos as int) == p.peek());
        }
    }
    parse_SolutionModifier(p);
    p.close(marker, SyntaxKind::AskQuery);
    proof {
        assert(rule_AskQuery(ks, s0) == p.st()) by {
            reveal_with_fuel(rule_AskQuery, 1); reveal_with_fuel(if_AskQuery_3, 1); reveal_with_fuel(loop_AskQuery_1, 1); reveal_with_fuel(rule_SolutionModifier, 1); reveal_with_fuel(rule_WhereClause, 1);
        }
    }
}

pub open spec fn rank_ValuesClause(t: SyntaxKind) -> nat {
    0
}

/// What [`parse_ValuesClause`] makes of the parser state.
#[verifier::opaque]
pub open spec fn rule_ValuesClause(ts: Seq<SyntaxKind>, s: St) -> St
    decreases ts.len() - s.pos, rank_ValuesClause(peek_at(ts, s.pos)), 32 * (ts.len() - s.pos) + 32,
{
    let start = s.pos;
    let s_in = s;
    let (s, r) = if s_in.pos <= s.pos <= ts.len() {
        if_ValuesClause_1(ts, start, s)
    } else {
        (s, false)
    };
    if r {
        s
    } else {
        let m_marker = s.evs.len() as int;
        let s = st_open(s);
        let s = if s_in.pos <= s.pos <= ts.len() {
            if_ValuesClause_2(ts, start, m_marker, s)
        } else {
            s
        };
        let s = st_close(s, m_marker, SyntaxKind::ValuesClause);
        s
    }
}

#[verifier::opaque]
pub open spec fn if_ValuesClause_1(ts: Seq<SyntaxKind>, start: int, s: St) -> (St, bool)
    decreases ts.len() - start, rank_ValuesClause(peek_at(ts, start)), 32 * (ts.len() - s.pos) + 32 - 1,
{
    let s_in = s;
    if !(peek_at(ts, s.pos) == SyntaxKind::VALUES) {
        (s, true)
    } else {
        (s, false)
    }
}

#[verifier::opaque]
pub open spec fn if_ValuesClause_2(ts: Seq<SyntaxKind>, start: int, m_marker: int, s: St) -> St
    decreases ts.len() - start, rank_ValuesClause(peek_at(ts, start)), 32 * (ts.len() - s.pos) + 32 - 1,
{
    let s_in = s;
    if (peek_at(ts, s.pos) == SyntaxKind::VALUES) {
        let s = st_expect(ts, s, SyntaxKind::VALUES);
        let s = if call_ok(ts, start, s, rank_DataBlock(peek_at(ts, s.pos)), rank_ValuesClause(peek_at(ts, start))) {
            rule_DataBlock(ts, s)
        } else {
            s
        };
        s
    } else {
        s
    }
}

/// [7] ValuesClause -> ('VALUES' DataBlock)?
pub(crate) fn parse_ValuesClause(p: &mut Parser)
    requires
        old(p).wf(),
    ensures
        Parser::step(*old(p), *final(p)),
        final(p).pos == old(p).pos ==> !(old(p).peek() == SyntaxKind::VALUES),
        old(p).events@.len() < final(p).events@.len() ==> final(p).events@[old(p).events@.len() as int] == (Event::Open {
            kind: SyntaxKind::ValuesClause,
        }) && final(p).events@.last() is Close,
        final(p).st() == rule_ValuesClause(old(p).kinds(), old(p).st()),
    decreases old(p).remaining(), rank_ValuesClause(old(p).peek()), 1int,
{
    let ghost ks = p.kinds();
    let ghost s0 = p.st();
    let ghost start = p.pos as int;
    let ghost pre1 = p.st();
    if !p.at_any(&[SyntaxKind::VALUES]) {
        proof {
            assert(if_ValuesClause_1(ks, start, pre1) == (p.st(), true)) by {
                reveal_with_fuel(if_ValuesClause_1, 1);
            }
        }
        proof {
            assert(rule_ValuesClause(ks, s0) == p.st()) by {
                reveal_with_fuel(rule_ValuesClause, 1); reveal_with_fuel(if_ValuesClause_1, 1); reveal_with_fuel(if_ValuesClause_2, 1);
            }
        }
        return ;
    } else {
        proof {
            assert(if_ValuesClause_1(ks, start, pre1) == (p.st(), false)) by {
                reveal_with_fuel(if_ValuesClause_1, 1);
            }
        }
    }
    let marker = p.open();
    let ghost gm1 = marker.index as int;
    let ghost pre2 = p.st();
    if p.at_any(&[SyntaxKind::VALUES]) {
        p.expect(SyntaxKind::VALUES);
        proof {
            assert(call_ok(ks, start, p.st(), rank_DataBlock(peek_at(ks, p.st().pos)), rank_ValuesClause(peek_at(ks, start)))) by {
                reveal(Parser::st);
                assert(peek_at(ks, start) == old(p).peek());
                assert(peek_at(ks, p.pos as int) == p.peek());
            }
        }
        parse_DataBlock(p);
        proof {
            assert(if_ValuesClause_2(ks, start, gm1, pre2) == p.st()) by {
                reveal_with_fuel(if_ValuesClause_2, 1); reveal_with_fuel(rule_DataBlock, 1);
            }
        }
    } else {
        proof {
            assert(if_ValuesClause_2(ks, start, gm1, pre2) == p.st()) by {
                reveal_with_fuel(if_ValuesClause_2, 1);
            }
        }
    }
    p.close(marker, SyntaxKind::ValuesClause);
    proof {
        assert(rule_ValuesClause(ks, s0) == p.st()) by {
            reveal_with_fuel(rule_ValuesClause, 1); reveal_with_fuel(if_ValuesClause_1, 1); reveal_with_fuel(if_ValuesClause_2, 1);
        }
    }
}

pub open spec fn rank_UpdateUnit(t: SyntaxKind) -> nat {
    match t {
        SyntaxKind::ADD | SyntaxKind::BASE | SyntaxKind::CLEAR | SyntaxKind::COPY | SyntaxKind::CREATE | SyntaxKind::DELETE_DATA | SyntaxKind::DELETE_WHERE | SyntaxKind::DROP | SyntaxKind::INSERT_DATA | SyntaxKind::LOAD | SyntaxKind::MOVE | SyntaxKind::PREFIX | SyntaxKind::VERSION | SyntaxKind::WITH => 3,
        SyntaxKind::DELETE | SyntaxKind::INSERT => 4,
        _ => 1,
    }
}

/// What [`parse_UpdateUnit`] makes of the parser state.
#[verifier::opaque]
pub open spec fn rule_UpdateUnit(ts: Seq<SyntaxKind>, s: St) -> St
    decreases ts.len() - s.pos, rank_UpdateUnit(peek_at(ts, s.pos)), 32 * (ts.len() - s.pos) + 32,
{
    let start = s.pos;
    let s_in = s;
    let m_marker = s.evs.len() as int;
    let s = st_open(s);
    let s = if call_ok(ts, start, s, rank_Update(peek_at(ts, s.pos)), rank_UpdateUnit(peek_at(ts, start))) {
        rule_Update(ts, s)
    } else {
        s
    };
    let s = if s_in.pos <= s.pos <= ts.len() {
        if_UpdateUnit_1(ts, start, m_marker, s)
    } else {
        s
    };
    let s = st_close(s, m_marker, SyntaxKind::UpdateUnit);
    s
}

#[verifier::opaque]
pub open spec fn loop_UpdateUnit_2(ts: Seq<SyntaxKind>, start: int, m_marker: int, m_error_marker: int, s: St) -> St
    decreases ts.len() - start, rank_UpdateUnit(peek_at(ts, start)), 32 * (ts.len() - s.pos) + 32 - 2,
{
    let s_in = s;
    if !(peek_at(ts, s.pos) == SyntaxKind::Eof) && s.pos <= ts.len() {
        let s1 = body_UpdateUnit_3(ts, start, m_marker, m_error_marker, s);
        if s.pos < s1.pos <= ts.len() {
            loop_UpdateUnit_2(ts, start, m_marker, m_error_marker, s1)
        } else {
            s1
        }
    } else {
        s
    }
}

#[verifier::opaque]
pub open spec fn body_UpdateUnit_3(ts: Seq<SyntaxKind>, start: int, m_marker: int, m_error_marker: int, s: St) -> St
    decreases ts.len() - start, rank_UpdateUnit(peek_at(ts, start)), 32 * (ts.len() - s.pos) + 32 - 3,
{
    let s_in = s;
    let s = st_advance(s);
    s
}

#[verifier::opaque]
pub open spec fn if_UpdateUnit_1(ts: Seq<SyntaxKind>, start: int, m_marker: int, s: St) -> St
    decreases ts.len() - start, rank_UpdateUnit(peek_at(ts, start)), 32 * (ts.len() - s.pos) + 32 - 1,
{
    let s_in = s;
    if !(peek_at(ts, s.pos) == SyntaxKind::Eof) {
        let m_error_marker = s.evs.len() as int;
        let s = st_open(s);
        let s = if s_in.pos <= s.pos <= ts.len() {
            loop_UpdateUnit_2(ts, start, m_marker, m_error_marker, s)
        } else {
            s
        };
        let s = st_close(s, m_error_marker, SyntaxKind::Error);
        s
    } else {
        s
    }
}

/// [8] UpdateUnit -> Update
pub(crate) fn parse_UpdateUnit(p: &mut Parser)
    requires
        old(p).wf(),
    ensures
        Parser::step(*old(p), *final(p)),
        final(p).pos == old(p).pos ==> !(old(p).peek() == SyntaxKind::ADD || old(p).peek() == SyntaxKind::CLEAR || old(p).peek() == SyntaxKind::COPY || old(p).peek() == SyntaxKind::CREATE || old(p).peek() == SyntaxKind::DELETE || old(p).peek() == SyntaxKind::DELETE_DATA || old(p).peek() == SyntaxKind::DELETE_WHERE || old(p).peek() == SyntaxKind::DROP || old(p).peek() == SyntaxKind::INSERT || old(p).peek() == SyntaxKind::INSERT_DATA || old(p).peek() == SyntaxKind::LOAD || old(p).peek() == SyntaxKind::MOVE || old(p).peek() == SyntaxKind::WITH),
        final(p).pos == final(p).tokens.len(),
        old(p).events@.len() == 0 ==> final(p).events@.len() >= 2
            && final(p).events@[0] == (Event::Open { kind: SyntaxKind::UpdateUnit })
            && final(p).events@.last() is Close,
        old(p).events@.len() < final(p).events@.len(),
        final(p).events@[old(p).events@.len() as int] == (Event::Open { kind: SyntaxKind::UpdateUnit }),
        final(p).events@.last() is Close,
        final(p).st() == rule_UpdateUnit(old(p).kinds(), old(p).st()),
    decreases old(p).remaining(), rank_UpdateUnit(old(p).peek()), 1int,
{
    let ghost ks = p.kinds();
    let ghost s0 = p.st();
    let ghost start = p.pos as int;
    let marker = p.open();
    let ghost gm1 = marker.index as int;
    proof {
        assert(call_ok(ks, start, p.st(), rank_Update(peek_at(ks, p.st().pos)), rank_UpdateUnit(peek_at(ks, start)))) by {
            reveal(Parser::st);
            assert(peek_at(ks, start) == old(p).peek());
            assert(peek_at(ks, p.pos as int) == p.peek());
        }
    }
    parse_Update(p);
    let ghost pre1 = p.st();
    if !p.at(SyntaxKind::Eof) {
        let error_marker = p.open();
        let ghost gm2 = error_marker.index as int;
        let ghost pre2 = p.st();
        proof {
            assert(p.st().pos == p.pos as int) by {
                reveal(Parser::st);
            }
            if !!(peek_at(ks, p.st().pos) == SyntaxKind::Eof) {
                assert(loop_UpdateUnit_2(ks, start, gm1, gm2, pre2) == pre2) by {
                    reveal_with_fuel(loop_UpdateUnit_2, 1); reveal_with_fuel(body_UpdateUnit_3, 1);
                }
            }
        }
        while !p.at(SyntaxKind::Eof)
            invariant
                marker.index == old(p).events@.len(),
                p.wf(),
                p.tokens@ == old(p).tokens@,
                old(p).pos <= p.pos,
                p.stack() == old(p).stack().push(marker.index as int).push(error_marker.index as int),
                p.pos == old(p).pos ==> !(old(p).peek() == SyntaxKind::Eof || old(p).peek() == SyntaxKind::ADD || old(p).peek() == SyntaxKind::CLEAR || old(p).peek() == SyntaxKind::COPY || old(p).peek() == SyntaxKind::CREATE || old(p).peek() == SyntaxKind::DELETE || old(p).peek() == SyntaxKind::DELETE_DATA || old(p).peek() == SyntaxKind::DELETE_WHERE || old(p).peek() == SyntaxKind::DROP || old(p).peek() == SyntaxKind::INSERT || old(p).peek() == SyntaxKind::INSERT_DATA || old(p).peek() == SyntaxKind::LOAD || old(p).peek() == SyntaxKind::MOVE || old(p).peek() == SyntaxKind::WITH),
                ks == p.kinds(),
                p.st().pos == p.pos as int,
                start == old(p).pos as int,
                gm1 == marker.index as int,
                gm2 == error_marker.index as int,
                pre2.pos <= p.pos,
                start <= pre2.pos,
                loop_UpdateUnit_2(ks, start, gm1, gm2, p.st()) == loop_UpdateUnit_2(ks, start, gm1, gm2, pre2),
                !!(peek_at(ks, p.st().pos) == SyntaxKind::Eof) ==> loop_UpdateUnit_2(ks, start, gm1, gm2, p.st()) == p.st(),
            ensures
                (p.peek() == SyntaxKind::Eof),
                loop_UpdateUnit_2(ks, start, gm1, gm2, pre2) == p.st(),
            decreases p.remaining(),
        {
            let ghost si2 = p.st();
            p.advance();
            proof {
                assert(body_UpdateUnit_3(ks, start, gm1, gm2, si2) == p.st()) by {
                    reveal_with_fuel(body_UpdateUnit_3, 1);
                }
            }
            proof {
                assert(p.st().pos == p.pos as int) by {
                    reveal(Parser::st);
                }
                assert(loop_UpdateUnit_2(ks, start, gm1, gm2, si2) == loop_UpdateUnit_2(ks, start, gm1, gm2, p.st())) by {
                    reveal_with_fuel(loop_UpdateUnit_2, 1); reveal_with_fuel(body_UpdateUnit_3, 1);
                    reveal(Parser::st);
                }
                if !!(peek_at(ks, p.st().pos) == SyntaxKind::Eof) {
                    assert(loop_UpdateUnit_2(ks, start, gm1, gm2, p.st()) == p.st()) by {
                        reveal_with_fuel(loop_UpdateUnit_2, 1); reveal_with_fuel(body_UpdateUnit_3, 1);
                    }
                }
            }
        }
        p.close(error_marker, SyntaxKind::Error);
        proof {
            assert(if_UpdateUnit_1(ks, start, gm1, pre1) == p.st()) by {
                reveal_with_fuel(if_UpdateUnit_1, 1); reveal_with_fuel(loop_UpdateUnit_2, 1);
            }
        }
    } else {
        proof {
            assert(if_UpdateUnit_1(ks, start, gm1, pre1) == p.st()) by {
                reveal_with_fuel(if_UpdateUnit_1, 1);
            }
        }
    }
    p.close(marker, SyntaxKind::UpdateUnit);
    proof {
        assert(rule_UpdateUnit(ks, s0) == p.st()) by {
            reveal_with_fuel(rule_UpdateUnit, 1); reveal_with_fuel(if_UpdateUnit_1, 1); reveal_with_fuel(rule_Update, 1);
        }
    }
}

pub open spec fn rank_Update(t: SyntaxKind) -> nat {
    match t {
        SyntaxKind::ADD | SyntaxKind::BASE | SyntaxKind::CLEAR | SyntaxKind::COPY | SyntaxKind::CREATE | SyntaxKind::DELETE_DATA | SyntaxKind::DELETE_WHERE | SyntaxKind::DROP | SyntaxKind::INSERT_DATA | SyntaxKind::LOAD | SyntaxKind::MOVE | SyntaxKind::PREFIX | SyntaxKind::VERSION | SyntaxKind::WITH => 2,
        SyntaxKind::DELETE | SyntaxKind::INSERT => 3,
        _ => 0,
    }
}

/// What [`parse_Update`] makes of the parser state.
#[verifier::opaque]
pub open spec fn rule_Update(ts: Seq<SyntaxKind>, s: St) -> St
    decreases ts.len() - s.pos, rank_Update(peek_at(ts, s.pos)), 32 * (ts.len() - s.pos) + 32,
{
    let start = s.pos;
    let s_in = s;
    let (s, r) = if s_in.pos <= s.pos <= ts.len() {
        if_Update_1(ts, start, s)
    } else {
        (s, false)
    };
    if r {
        s
    } else {
        let m_marker = s.evs.len() as int;
        let s = st_open(s);
        let s = rule_Prologue(ts, s);
        let s = if s_in.pos <= s.pos <= ts.len() {
            if_Update_2(ts, start, m_marker, s)
        } else {
            s
        };
        let s = st_close(s, m_marker, SyntaxKind::Update);
        s
    }
}

#[verifier::opaque]
pub open spec fn if_Update_1(ts: Seq<SyntaxKind>, start: int, s: St) -> (St, bool)
    decreases ts.len() - start, rank_Update(peek_at(ts, start)), 32 * (ts.len() - s.pos) + 32 - 1,
{
    let s_in = s;
    if !(peek_at(ts, s.pos) == SyntaxKind::BASE || peek_at(ts, s.pos) == SyntaxKind::PREFIX || peek_at(ts, s.pos) == SyntaxKind::VERSION || peek_at(ts, s.pos) == SyntaxKind::LOAD || peek_at(ts, s.pos) == SyntaxKind::CLEAR || peek_at(ts, s.pos) == SyntaxKind::DROP || peek_at(ts, s.pos) == SyntaxKind::CREATE || peek_at(ts, s.pos) == SyntaxKind::ADD || peek_at(ts, s.pos) == SyntaxKind::MOVE || peek_at(ts, s.pos) == SyntaxKind::COPY || peek_at(ts, s.pos) == SyntaxKind::INSERT_DATA || peek_at(ts, s.pos) == SyntaxKind::DELETE_DATA || peek_at(ts, s.pos) == SyntaxKind::DELETE_WHERE || peek_at(ts, s.pos) == SyntaxKind::WITH || peek_at(ts, s.pos) == SyntaxKind::DELETE || peek_at(ts, s.pos) == SyntaxKind::INSERT) {
        (s, true)
    } else {
        (s, false)
    }
}

#[verifier::opaque]
pub open spec fn if_Update_3(ts: Seq<SyntaxKind>, start: int, m_marker: int, s: St) -> St
    decreases ts.len() - start, rank_Update(peek_at(ts, start)), 32 * (ts.len() - s.pos) + 32 - 2,
{
    let s_in = s;
    if (peek_at(ts, s.pos) == SyntaxKind::Semicolon) {
        let s = st_expect(ts, s, SyntaxKind::Semicolon);
        let s = if call_ok(ts, start, s, rank_Update(peek_at(ts, s.pos)), rank_Update(peek_at(ts, start))) {
            rule_Update(ts, s)
        } else {
            s
        };
        s
    } else {
        s
    }
}

#[verifier::opaque]
pub open spec fn if_Update_2(ts: Seq<SyntaxKind>, start: int, m_marker: int, s: St) -> St
    decreases ts.len() - start, rank_Update(peek_at(ts, start)), 32 * (ts.len() - s.pos) + 32 - 1,
{
    let s_in = s;
    if (peek_at(ts, s.pos) == SyntaxKind::LOAD || peek_at(ts, s.pos) == SyntaxKind::CLEAR || peek_at(ts, s.pos) == SyntaxKind::DROP || peek_at(ts, s.pos) == SyntaxKind::CREATE || peek_at(ts, s.pos) == SyntaxKind::ADD || peek_at(ts, s.pos) == SyntaxKind::MOVE || peek_at(ts, s.pos) == SyntaxKind::COPY || peek_at(ts, s.pos) == SyntaxKind::INSERT_DATA || peek_at(ts, s.pos) == SyntaxKind::DELETE_DATA || peek_at(ts, s.pos) == SyntaxKind::DELETE_WHERE || peek_at(ts, s.pos) == SyntaxKind::WITH || peek_at(ts, s.pos) == SyntaxKind::DELETE || peek_at(ts, s.pos) == SyntaxKind::INSERT) {
        let s = if call_ok(ts, start, s, rank_UpdateOne(peek_at(ts, s.pos)), rank_Update(peek_at(ts, start))) {
            rule_UpdateOne(ts, s)
        } else {
            s
        };
        let s = if s_in.pos <= s.pos <= ts.len() {
            if_Update_3(ts, start, m_marker, s)
        } else {
            s
        };
        s
    } else {
        s
    }
}

/// [9] Update -> Prologue (UpdateOne (';' Update)?)?
pub(crate) fn parse_Update(p: &mut Parser)
    requires
        old(p).wf(),
    ensures
        Parser::step(*old(p), *final(p)),
        final(p).pos == old(p).pos ==> !(old(p).peek() == SyntaxKind::ADD || old(p).peek() == SyntaxKind::CLEAR || old(p).peek() == SyntaxKind::COPY || old(p).peek() == SyntaxKind::CREATE || old(p).peek() == SyntaxKind::DELETE || old(p).peek() == SyntaxKind::DELETE_DATA || old(p).peek() == SyntaxKind::DELETE_WHERE || old(p).peek() == SyntaxKind::DROP || old(p).peek() == SyntaxKind::INSERT || old(p).peek() == SyntaxKind::INSERT_DATA || old(p).peek() == SyntaxKind::LOAD || old(p).peek() == SyntaxKind::MOVE || old(p).peek() == SyntaxKind::WITH),
        old(p).events@.len() < final(p).events@.len() ==> final(p).events@[old(p).events@.len() as int] == (Event::Open {
            kind: SyntaxKind::Update,
        }) && final(p).events@.last() is Close,
        final(p).st() == rule_Update(old(p).kinds(), old(p).st()),
    decreases old(p).remaining(), rank_Update(old(p).peek()), 1int,
{
    let ghost ks = p.kinds();
    let ghost s0 = p.st();
    let ghost start = p.pos as int;
    let ghost pre1 = p.st();
    if !p.at_any(&[SyntaxKind::BASE, SyntaxKind::PREFIX, SyntaxKind::VERSION, SyntaxKind::LOAD, SyntaxKind::CLEAR, SyntaxKind::DROP, SyntaxKind::CREATE, SyntaxKind::ADD, SyntaxKind::MOVE, SyntaxKind::COPY, SyntaxKind::INSERT_DATA, SyntaxKind::DELETE_DATA, SyntaxKind::DELETE_WHERE, SyntaxKind::WITH, SyntaxKind::DELETE, SyntaxKind::INSERT]) {
        proof {
            assert(if_Update_1(ks, start, pre1) == (p.st(), true)) by {
                reveal_with_fuel(if_Update_1, 1);
            }
        }
        proof {
            assert(rule_Update(ks, s0) == p.st()) by {
                reveal_with_fuel(rule_Update, 1); reveal_with_fuel(if_Update_1, 1); reveal_with_fuel(if_Update_2, 1);
            }
        }
        return ;
    } else {
        proof {
            assert(if_Update_1(ks, start, pre1) == (p.st(), false)) by {
                reveal_with_fuel(if_Update_1, 1);
            }
        }
    }
    let marker = p.open();
    let ghost gm1 = marker.index as int;
    parse_Prologue(p);
    let ghost pre2 = p.st();
    if p.at_any(&[SyntaxKind::LOAD, SyntaxKind::CLEAR, SyntaxKind::DROP, SyntaxKind::CREATE, SyntaxKind::ADD, SyntaxKind::MOVE, SyntaxKind::COPY, SyntaxKind::INSERT_DATA, SyntaxKind::DELETE_DATA, SyntaxKind::DELETE_WHERE, SyntaxKind::WITH, SyntaxKind::DELETE, SyntaxKind::INSERT]) {
        proof {
            assert(call_ok(ks, start, p.st(), rank_UpdateOne(peek_at(ks, p.st().pos)), rank_Update(peek_at(ks, start)))) by {
                reveal(Parser::st);
                assert(peek_at(ks, start) == old(p).peek());
                assert(peek_at(ks, p.pos as int) == p.peek());
            }
        }
        parse_UpdateOne(p);
        let ghost pre3 = p.st();
        if p.at_any(&[SyntaxKind::Semicolon]) {
            p.expect(SyntaxKind::Semicolon);
            proof {
                assert(call_ok(ks, start, p.st(), rank_Update(peek_at(ks, p.st().pos)), rank_Update(peek_at(ks, start)))) by {
                    reveal(Parser::st);
                    assert(peek_at(ks, start) == old(p).peek());
                    assert(peek_at(ks, p.pos as int) == p.peek());
                }
            }
            parse_Update(p);
            proof {
                assert(if_Update_3(ks, start, gm1, pre3) == p.st()) by {
                    reveal_with_fuel(if_Update_3, 1); reveal_with_fuel(rule_Update, 1);
                }
            }
        } else {
            proof {
                assert(if_Update_3(ks, start, gm1, pre3) == p.st()) by {
                    reveal_with_fuel(if_Update_3, 1);
                }
            }
        }
        proof {
            assert(if_Update_2(ks, start, gm1, pre2) == p.st()) by {
                reveal_with_fuel(if_Update_2, 1); reveal_with_fuel(if_Update_3, 1); reveal_with_fuel(rule_UpdateOne, 1);
            }
        }
    } else {
        proof {
            assert(if_Update_2(ks, start, gm1, pre2) == p.st()) by {
                reveal_with_fuel(if_Update_2, 1);
            }
        }
    }
    p.close(marker, SyntaxKind::Update);
    proof {
        assert(rule_Update(ks, s0) == p.st()) by {
            reveal_with_fuel(rule_Update, 1); reveal_with_fuel(if_Update_1, 1); reveal_with_fuel(if_Update_2, 1);
        }
    }
}

pub open spec fn rank_BaseDecl(t: SyntaxKind) -> nat {
    0
}

/// What [`parse_BaseDecl`] makes of the parser state.
#[verifier::opaque]
pub open spec fn rule_BaseDecl(ts: Seq<SyntaxKind>, s: St) -> St {
    let m_marker = s.evs.len() as int;
    let s = st_open(s);
    let s = st_expect(ts, s, SyntaxKind::BASE);
    let s = st_expect(ts, s, SyntaxKind::IRIREF);
    let s = st_close(s, m_marker, SyntaxKind::BaseDecl);
    s
}

/// [10] BaseDecl -> 'BASE' 'IRIREF'
pub(crate) fn parse_BaseDecl(p: &mut Parser)
    requires
        old(p).wf(),
    ensures
        Parser::step(*old(p), *final(p)),
        final(p).pos == old(p).pos ==> !(old(p).peek() == SyntaxKind::BASE || old(p).peek() == SyntaxKind::IRIREF),
        old(p).events@.len() < final(p).events@.len(),
        final(p).events@[old(p).events@.len() as int] == (Event::Open { kind: SyntaxKind::BaseDecl }),
        final(p).events@.last() is Close,
        final(p).st() == rule_BaseDecl(old(p).kinds(), old(p).st()),
    decreases old(p).remaining(), rank_BaseDecl(old(p).peek()), 1int,
{
    let ghost ks = p.kinds();
    let ghost s0 = p.st();
    let marker = p.open();
    p.expect(SyntaxKind::BASE);
    p.expect(SyntaxKind::IRIREF);
    p.close(marker, SyntaxKind::BaseDecl);
    proof {
        assert(p.st() == rule_BaseDecl(ks, s0)) by {
            reveal(rule_BaseDecl);
            reveal(Parser::st);
        }
    }
}

pub open spec fn rank_PrefixDecl(t: SyntaxKind) -> nat {
    0
}

/// What [`parse_PrefixDecl`] makes of the parser state.
#[verifier::opaque]
pub open spec fn rule_PrefixDecl(ts: Seq<SyntaxKind>, s: St) -> St {
    let m_marker = s.evs.len() as int;
    let s = st_open(s);
    let s = st_expect(ts, s, SyntaxKind::PREFIX);
    let s = st_expect(ts, s, SyntaxKind::PNAME_NS);
    let s = st_expect(ts, s, SyntaxKind::IRIREF);
    let s = st_close(s, m_marker, SyntaxKind::PrefixDecl);
    s
}

/// [11] PrefixDecl -> 'PREFIX' 'PNAME_NS' 'IRIREF'
pub(crate) fn parse_PrefixDecl(p: &mut Parser)
    requires
        old(p).wf(),
    ensures
        Parser::step(*old(p), *final(p)),
        final(p).pos == old(p).pos ==> !(old(p).peek() == SyntaxKind::IRIREF || old(p).peek() == SyntaxKind::PNAME_NS || old(p).peek() == SyntaxKind::PREFIX),
        old(p).events@.len() < final(p).events@.len(),
        final(p).events@[old(p).events@.len() as int] == (Event::Open { kind: SyntaxKind::PrefixDecl }),
        final(p).events@.last() is Close,
        final(p).st() == rule_PrefixDecl(old(p).kinds(), old(p).st()),
    decreases old(p).remaining(), rank_PrefixDecl(old(p).peek()), 1int,
{
    let ghost ks = p.kinds();
    let ghost s0 = p.st();
    let marker = p.open();
    p.expect(SyntaxKind::PREFIX);
    p.expect(SyntaxKind::PNAME_NS);
    p.expect(SyntaxKind::IRIREF);
    p.close(marker, SyntaxKind::PrefixDecl);
    proof {
        assert(p.st() == rule_PrefixDecl(ks, s0)) by {
            reveal(rule_PrefixDecl);
            reveal(Parser::st);
        }
    }
}

pub open spec fn rank_VersionDecl(t: SyntaxKind) -> nat {
    match t {
        SyntaxKind::VERSION => 0,
        _ => 1,
    }
}

/// What [`parse_VersionDecl`] makes of the parser state.
#[verifier::opaque]
pub open spec fn rule_VersionDecl(ts: Seq<SyntaxKind>, s: St) -> St {
    let m_marker = s.evs.len() as int;
    let s = st_open(s);
    let s = st_expect(ts, s, SyntaxKind::VERSION);
    let s = rule_VersionSpecifier(ts, s);
    let s = st_close(s, m_marker, SyntaxKind::VersionDecl);
    s
}

/// [12] VersionDecl -> 'VERSION' VersionSpecifier
pub(crate) fn parse_VersionDecl(p: &mut Parser)
    requires
        old(p).wf(),
    ensures
        Parser::step(*old(p), *final(p)),
        final(p).pos == old(p).pos ==> is_sync_point(old(p).peek()),
        old(p).events@.len() < final(p).events@.len(),
        final(p).events@[old(p).events@.len() as int] == (Event::Open { kind: SyntaxKind::VersionDecl }),
        final(p).events@.last() is Close,
        final(p).st() == rule_VersionDecl(old(p).kinds(), old(p).st()),
    decreases old(p).remaining(), rank_VersionDecl(old(p).peek()), 1int,
{
    let ghost ks = p.kinds();
    let ghost s0 = p.st();
    let marker = p.open();
    p.expect(SyntaxKind::VERSION);
    parse_VersionSpecifier(p);
    p.close(marker, SyntaxKind::VersionDecl);
    proof {
        assert(p.st() == rule_VersionDecl(ks, s0)) by {
            reveal(rule_VersionDecl);
            reveal(Parser::st);
        }
    }
}

pub open spec fn rank_VersionSpecifier(t: SyntaxKind) -> nat {
    0
}

/// What [`parse_VersionSpecifier`] makes of the parser state.
#[verifier::opaque]
pub open spec fn rule_VersionSpecifier(ts: Seq<SyntaxKind>, s: St) -> St {
    let m_marker = s.evs.len() as int;
    let s = st_open(s);
    if (peek_at(ts, s.pos) == SyntaxKind::STRING_LITERAL1) {
        let s = st_expect(ts, s, SyntaxKind::STRING_LITERAL1);
        let s = st_close(s, m_marker, SyntaxKind::VersionSpecifier);
        s
    } else if (peek_at(ts, s.pos) == SyntaxKind::STRING_LITERAL2) {
        let s = st_expect(ts, s, SyntaxKind::STRING_LITERAL2);
        let s = st_close(s, m_marker, SyntaxKind::VersionSpecifier);
        s
    } else if (peek_at(ts, s.pos) == SyntaxKind::Eof) {
        let s = st_close(s, m_marker, SyntaxKind::VersionSpecifier);
        let m_marker = s.evs.len() as int;
        let s = st_open(s);
        let s = st_close(s, m_marker, SyntaxKind::Error);
        s
    } else {
        let s = st_advance_with_error(ts, s, seq![SyntaxKind::STRING_LITERAL1, SyntaxKind::STRING_LITERAL2]);
        let s = st_close(s, m_marker, SyntaxKind::VersionSpecifier);
        s
    }
}

/// [13] VersionSpecifier -> 'STRING_LITERAL1' | 'STRING_LITERAL2'
pub(crate) fn parse_VersionSpecifier(p: &mut Parser)
    requires
        old(p).wf(),
    ensures
        Parser::step(*old(p), *final(p)),
        final(p).pos == old(p).pos ==> is_sync_point(old(p).peek()),
        old(p).events@.len() < final(p).events@.len(),
        final(p).events@[old(p).events@.len() as int] == (Event::Open { kind: SyntaxKind::VersionSpecifier }),
        final(p).events@.last() is Close,
        final(p).st() == rule_VersionSpecifier(old(p).kinds(), old(p).st()),
    decreases old(p).remaining(), rank_VersionSpecifier(old(p).peek()), 1int,
{
    let ghost ks = p.kinds();
    let ghost s0 = p.st();
    let marker = p.open();
    match p.nth(0) {
        SyntaxKind::STRING_LITERAL1 => {
            p.expect(SyntaxKind::STRING_LITERAL1);
        },
        SyntaxKind::STRING_LITERAL2 => {
            p.expect(SyntaxKind::STRING_LITERAL2);
        },
        SyntaxKind::Eof => {
            p.close(marker, SyntaxKind::VersionSpecifier);
            let marker = p.open();
            p.close(marker, SyntaxKind::Error);
            proof {
                assert(p.st() == rule_VersionSpecifier(ks, s0)) by {
                    reveal(rule_VersionSpecifier);
                    reveal(Parser::st);
                }
            }
            return ;
        },
        _ => {
            p.advance_with_error(vec![SyntaxKind::STRING_LITERAL1, SyntaxKind::STRING_LITERAL2]);
        },
    }
    p.close(marker, SyntaxKind::VersionSpecifier);
    proof {
        assert(p.st() == rule_VersionSpecifier(ks, s0)) by {
            reveal(rule_VersionSpecifier);
            reveal(Parser::st);
        }
    }
}

pub open spec fn rank_SelectClause(t: SyntaxKind) -> nat {
    match t {
        SyntaxKind::VAR1 | SyntaxKind::VAR2 => 1,
        _ => 0,
    }
}

/// What [`parse_SelectClause`] makes of the parser state.
#[verifier::opaque]
pub open spec fn rule_SelectClause(ts: Seq<SyntaxKind>, s: St) -> St
    decreases ts.len() - s.pos, rank_SelectClause(peek_at(ts, s.pos)), 32 * (ts.len() - s.pos) + 32,
{
    let start = s.pos;
    let s_in = s;
    let m_marker = s.evs.len() as int;
    let s = st_open(s);
    let s = st_expect(ts, s, SyntaxKind::SELECT);
    let (s, r) = if s_in.pos <= s.pos <= ts.len() {
        if_SelectClause_1(ts, start, m_marker, s)
    } else {
        (s, false)
    };
    if r {
        s
    } else {
        let (s, r) = if s_in.pos <= s.pos <= ts.len() {
            match_SelectClause_3(ts, start, m_marker, s)
        } else {
            (s, false)
        };
        if r {
            s
        } else {
            let s = st_close(s, m_marker, SyntaxKind::SelectClause);
            s
        }
    }
}

#[verifier::opaque]
pub open spec fn match_SelectClause_2(ts: Seq<SyntaxKind>, start: int, m_marker: int, s: St) -> (St, bool)
    decreases ts.len() - start, rank_SelectClause(peek_at(ts, start)), 32 * (ts.len() - s.pos) + 32 - 2,
{
    let s_in = s;
    if (peek_at(ts, s.pos) == SyntaxKind::DISTINCT) {
        let s = st_expect(ts, s, SyntaxKind::DISTINCT);
        (s, false)
    } else if (peek_at(ts, s.pos) == SyntaxKind::REDUCED) {
        let s = st_expect(ts, s, SyntaxKind::REDUCED);
        (s, false)
    } else if (peek_at(ts, s.pos) == SyntaxKind::Eof) {
        let s = st_close(s, m_marker, SyntaxKind::SelectClause);
        let m_marker = s.evs.len() as int;
        let s = st_open(s);
        let s = st_close(s, m_marker, SyntaxKind::Error);
        (s, true)
    } else {
        let s = st_advance_with_error(ts, s, seq![SyntaxKind::DISTINCT, SyntaxKind::REDUCED]);
        (s, false)
    }
}

#[verifier::opaque]
pub open spec fn if_SelectClause_1(ts: Seq<SyntaxKind>, start: int, m_marker: int, s: St) -> (St, bool)
    decreases ts.len() - start, rank_SelectClause(peek_at(ts, start)), 32 * (ts.len() - s.pos) + 32 - 1,
{
    let s_in = s;
    if (peek_at(ts, s.pos) == SyntaxKind::DISTINCT || peek_at(ts, s.pos) == SyntaxKind::REDUCED) {
        let (s, r) = if s_in.pos <= s.pos <= ts.len() {
            match_SelectClause_2(ts, start, m_marker, s)
        } else {
            (s, false)
        };
        if r {
            (s, true)
        } else {
            (s, false)
        }
    } else {
        (s, false)
    }
}

#[verifier::opaque]
pub open spec fn match_SelectClause_4(ts: Seq<SyntaxKind>, start: int, m_marker: int, s: St) -> (St, bool)
    decreases ts.len() - start, rank_SelectClause(peek_at(ts, start)), 32 * (ts.len() - s.pos) + 32 - 2,
{
    let s_in = s;
    if (peek_at(ts, s.pos) == SyntaxKind::VAR1 || peek_at(ts, s.pos) == SyntaxKind::VAR2) {
        let s = rule_Var(ts, s);
        (s, false)
    } else if (peek_at(ts, s.pos) == SyntaxKind::LParen) {
        let s = st_expect(ts, s, SyntaxKind::LParen);
        let s = if call_ok(ts, start, s, rank_Expression(peek_at(ts, s.pos)), rank_SelectClause(peek_at(ts, start))) {
            rule_Expression(ts, s)
        } else {
            s
        };
        let s = st_expect(ts, s, SyntaxKind::AS);
        let s = rule_Var(ts, s);
        let s = st_expect(ts, s, SyntaxKind::RParen);
        (s, false)
    } else if (peek_at(ts, s.pos) == SyntaxKind::Eof) {
        let s = st_close(s, m_marker, SyntaxKind::SelectClause);
        let m_marker = s.evs.len() as int;
        let s = st_open(s);
        let s = st_close(s, m_marker, SyntaxKind::Error);
        (s, true)
    } else {
        let s = st_advance_with_error(ts, s, seq![SyntaxKind::VAR1, SyntaxKind::VAR2, SyntaxKind::LParen]);
        (s, false)
    }
}

#[verifier::opaque]
pub open spec fn match_SelectClause_7(ts: Seq<SyntaxKind>, start: int, m_marker: int, s: St) -> (St, bool)
    decreases ts.len() - start, rank_SelectClause(peek_at(ts, start)), 32 * (ts.len() - s.pos) + 32 - 4,
{
    let s_in = s;
    if (peek_at(ts, s.pos) == SyntaxKind::VAR1 || peek_at(ts, s.pos) == SyntaxKind::VAR2) {
        let s = rule_Var(ts, s);
        (s, false)
    } else if (peek_at(ts, s.pos) == SyntaxKind::LParen) {
        let s = st_expect(ts, s, SyntaxKind::LParen);
        let s = if call_ok(ts, start, s, rank_Expression(peek_at(ts, s.pos)), rank_SelectClause(peek_at(ts, start))) {
            rule_Expression(ts, s)
        } else {
            s
        };
        let s = st_expect(ts, s, SyntaxKind::AS);
        let s = rule_Var(ts, s);
        let s = st_expect(ts, s, SyntaxKind::RParen);
        (s, false)
    } else if (peek_at(ts, s.pos) == SyntaxKind::Eof) {
        let s = st_close(s, m_marker, SyntaxKind::SelectClause);
        let m_marker = s.evs.len() as int;
        let s = st_open(s);
        let s = st_close(s, m_marker, SyntaxKind::Error);
        (s, true)
    } else {
        let s = st_advance_with_error(ts, s, seq![SyntaxKind::VAR1, SyntaxKind::VAR2, SyntaxKind::LParen]);
        (s, false)
    }
}

#[verifier::opaque]
pub open spec fn loop_SelectClause_5(ts: Seq<SyntaxKind>, start: int, m_marker: int, s: St) -> (St, bool)
    decreases ts.len() - start, rank_SelectClause(peek_at(ts, start)), 32 * (ts.len() - s.pos) + 32 - 2,
{
    let s_in = s;
    if (peek_at(ts, s.pos) == SyntaxKind::LParen || peek_at(ts, s.pos) == SyntaxKind::VAR1 || peek_at(ts, s.pos) == SyntaxKind::VAR2) && s.pos <= ts.len() {
        let (s1, r) = body_SelectClause_6(ts, start, m_marker, s);
        if r {
            (s1, true)
        } else if s1.pos == s.pos {
            (s1, false)
        } else if s.pos < s1.pos <= ts.len() {
            loop_SelectClause_5(ts, start, m_marker, s1)
        } else {
            (s1, false)
        }
    } else {
        (s, false)
    }
}

#[verifier::opaque]
pub open spec fn body_SelectClause_6(ts: Seq<SyntaxKind>, start: int, m_marker: int, s: St) -> (St, bool)
    decreases ts.len() - start, rank_SelectClause(peek_at(ts, start)), 32 * (ts.len() - s.pos) + 32 - 3,
{
    let s_in = s;
    let (s, r) = if s_in.pos <= s.pos <= ts.len() {
        match_SelectClause_7(ts, start, m_marker, s)
    } else {
        (s, false)
    };
    if r {
        (s, true)
    } else {
        (s, false)
    }
}

#[verifier::opaque]
pub open spec fn match_SelectClause_3(ts: Seq<SyntaxKind>, start: int, m_marker: int, s: St) -> (St, bool)
    decreases ts.len() - start, rank_SelectClause(peek_at(ts, start)), 32 * (ts.len() - s.pos) + 32 - 1,
{
    let s_in = s;
    if (peek_at(ts, s.pos) == SyntaxKind::LParen || peek_at(ts, s.pos) == SyntaxKind::VAR1 || peek_at(ts, s.pos) == SyntaxKind::VAR2) {
        let (s, r) = if s_in.pos <= s.pos <= ts.len() {
            match_SelectClause_4(ts, start, m_marker, s)
        } else {
            (s, false)
        };
        if r {
            (s, true)
        } else {
            let (s, r) = if s_in.pos <= s.pos <= ts.len() {
                loop_SelectClause_5(ts, start, m_marker, s)
            } else {
                (s, false)
            };
            if r {
                (s, true)
            } else {
                (s, false)
            }
        }
    } else if (peek_at(ts, s.pos) == SyntaxKind::Star) {
        let s = st_expect(ts, s, SyntaxKind::Star);
        (s, false)
    } else if (peek_at(ts, s.pos) == SyntaxKind::Eof) {
        let s = st_close(s, m_marker, SyntaxKind::SelectClause);
        let m_marker = s.evs.len() as int;
        let s = st_open(s);
        let s = st_close(s, m_marker, SyntaxKind::Error);
        (s, true)
    } else {
        let s = st_advance_with_error(ts, s, seq![SyntaxKind::LParen, SyntaxKind::VAR1, SyntaxKind::VAR2, SyntaxKind::Star]);
        (s, false)
    }
}

/// [14] SelectClause -> 'SELECT' ('DISTINCT' | 'REDUCED')? ((Var | '(' Expression 'AS' Var ')') (Var | '(' Expression 'AS' Var ')')* | '*')
#[verifier::rlimit(100)]
#[verifier::spinoff_prover]
pub(crate) fn parse_SelectClause(p: &mut Parser)
    requires
        old(p).wf(),
    ensures
        Parser::step(*old(p), *final(p)),
        final(p).pos == old(p).pos ==> is_sync_point(old(p).peek()),
        old(p).events@.len() < final(p).events@.len(),
        final(p).events@[old(p).events@.len() as int] == (Event::Open { kind: SyntaxKind::SelectClause }),
        final(p).events@.last() is Close,
        final(p).st() == rule_SelectClause(old(p).kinds(), old(p).st()),
    decreases old(p).remaining(), rank_SelectClause(old(p).peek()), 1int,
{
    let ghost ks = p.kinds();
    let ghost s0 = p.st();
    let ghost start = p.pos as int;
    let mut returned: bool = false;
    let marker = p.open();
    let ghost gm1 = marker.index as int;
    p.expect(SyntaxKind::SELECT);
    let ghost pre1 = p.st();
    if p.at_any(&[SyntaxKind::DISTINCT, SyntaxKind::REDUCED]) {
        let ghost pre2 = p.st();
        match p.nth(0) {
            SyntaxKind::DISTINCT => {
                p.expect(SyntaxKind::DISTINCT);
                proof {
                    assert(match_SelectClause_2(ks, start, gm1, pre2) == (p.st(), false)) by {
                        reveal_with_fuel(match_SelectClause_2, 1);
                    }
                }
            },
            SyntaxKind::REDUCED => {
                p.expect(SyntaxKind::REDUCED);
                proof {
                    assert(match_SelectClause_2(ks, start, gm1, pre2) == (p.st(), false)) by {
                        reveal_with_fuel(match_SelectClause_2, 1);
                    }
                }
            },
            SyntaxKind::Eof => {
                p.close(marker, SyntaxKind::SelectClause);
                let marker = p.open();
                let ghost gm2 = marker.index as int;
                p.close(marker, SyntaxKind::Error);
                proof {
                    assert(match_SelectClause_2(ks, start, gm1, pre2) == (p.st(), true)) by {
                        reveal_with_fuel(match_SelectClause_2, 1);
                    }
                }
                proof {
                    assert(if_SelectClause_1(ks, start, gm1, pre1) == (p.st(), true)) by {
                        reveal_with_fuel(if_SelectClause_1, 1); reveal_with_fuel(match_SelectClause_2, 1);
                    }
                }
                proof {
                    assert(rule_SelectClause(ks, s0) == p.st()) by {
                        reveal_with_fuel(rule_SelectClause, 1); reveal_with_fuel(if_SelectClause_1, 1); reveal_with_fuel(match_SelectClause_3, 1);
                    }
                }
                return ;
            },
            _ => {
                p.advance_with_error(vec![SyntaxKind::DISTINCT, SyntaxKind::REDUCED]);
                proof {
                    assert(match_SelectClause_2(ks, start, gm1, pre2) == (p.st(), false)) by {
                        reveal_with_fuel(match_SelectClause_2, 1);
                    }
                }
            },
        }
        proof {
            assert(if_SelectClause_1(ks, start, gm1, pre1) == (p.st(), false)) by {
                reveal_with_fuel(if_SelectClause_1, 1); reveal_with_fuel(match_SelectClause_2, 1);
            }
        }
    } else {
        proof {
            assert(if_SelectClause_1(ks, start, gm1, pre1) == (p.st(), false)) by {
                reveal_with_fuel(if_SelectClause_1, 1);
            }
        }
    }
    let ghost pre3 = p.st();
    match p.nth(0) {
        SyntaxKind::LParen | SyntaxKind::VAR1 | SyntaxKind::VAR2 => {
            let ghost pre4 = p.st();
            match p.nth(0) {
                SyntaxKind::VAR1 | SyntaxKind::VAR2 => {
                    parse_Var(p);
                    proof {
                        assert(match_SelectClause_4(ks, start, gm1, pre4) == (p.st(), false)) by {
                            reveal_with_fuel(match_SelectClause_4, 1);
                        }
                    }
                },
                SyntaxKind::LParen => {
                    p.expect(SyntaxKind::LParen);
                    proof {
                        assert(call_ok(ks, start, p.st(), rank_Expression(peek_at(ks, p.st().pos)), rank_SelectClause(peek_at(ks, start)))) by {
                            reveal(Parser::st);
                            assert(peek_at(ks, start) == old(p).peek());
                            assert(peek_at(ks, p.pos as int) == p.peek());
                        }
                    }
                    parse_Expression(p);
                    p.expect(SyntaxKind::AS);
                    parse_Var(p);
                    p.expect(SyntaxKind::RParen);
                    proof {
                        assert(match_SelectClause_4(ks, start, gm1, pre4) == (p.st(), false)) by {
                            reveal_with_fuel(match_SelectClause_4, 1); reveal_with_fuel(rule_Expression, 1);
                        }
                    }
                },
                SyntaxKind::Eof => {
                    p.close(marker, SyntaxKind::SelectClause);
                    let marker = p.open();
                    let ghost gm3 = marker.index as int;
                    p.close(marker, SyntaxKind::Error);
                    proof {
                        assert(match_SelectClause_4(ks, start, gm1, pre4) == (p.st(), true)) by {
                            reveal_with_fuel(match_SelectClause_4, 1);
                        }
                    }
                    proof {
                        assert(match_SelectClause_3(ks, start, gm1, pre3) == (p.st(), true)) by {
                            reveal_with_fuel(match_SelectClause_3, 1); reveal_with_fuel(loop_SelectClause_5, 1); reveal_with_fuel(match_SelectClause_4, 1);
                        }
                    }
                    proof {
                        assert(rule_SelectClause(ks, s0) == p.st()) by {
                            reveal_with_fuel(rule_SelectClause, 1); reveal_with_fuel(if_SelectClause_1, 1); reveal_with_fuel(match_SelectClause_3, 1);
                        }
                    }
                    return ;
                },
                _ => {
                    p.advance_with_error(vec![SyntaxKind::VAR1, SyntaxKind::VAR2, SyntaxKind::LParen]);
                    proof {
                        assert(match_SelectClause_4(ks, start, gm1, pre4) == (p.st(), false)) by {
                            reveal_with_fuel(match_SelectClause_4, 1);
                        }
                    }
                },
            }
            let ghost pre5 = p.st();
            proof {
                assert(p.st().pos == p.pos as int) by {
                    reveal(Parser::st);
                }
                if !(peek_at(ks, p.st().pos) == SyntaxKind::LParen || peek_at(ks, p.st().pos) == SyntaxKind::VAR1 || peek_at(ks, p.st().pos) == SyntaxKind::VAR2) {
                    assert(loop_SelectClause_5(ks, start, gm1, pre5) == (pre5, false)) by {
                        reveal_with_fuel(loop_SelectClause_5, 1); reveal_with_fuel(body_SelectClause_6, 1);
                    }
                }
            }
            while p.at_any(&[SyntaxKind::LParen, SyntaxKind::VAR1, SyntaxKind::VAR2])
                invariant_except_break
                    !returned,
                invariant
                    marker.index == old(p).events@.len(),
                    p.wf(),
                    p.tokens@ == old(p).tokens@,
                    old(p).pos <= p.pos,
                    p.stack() == old(p).stack().push(marker.index as int),
                    p.pos == old(p).pos ==> false,
                    ks == p.kinds(),
                    p.st().pos == p.pos as int,
                    start == old(p).pos as int,
                    gm1 == marker.index as int,
                    pre5.pos <= p.pos,
                    start <= pre5.pos,
                    loop_SelectClause_5(ks, start, gm1, p.st()) == loop_SelectClause_5(ks, start, gm1, pre5),
                    !(peek_at(ks, p.st().pos) == SyntaxKind::LParen || peek_at(ks, p.st().pos) == SyntaxKind::VAR1 || peek_at(ks, p.st().pos) == SyntaxKind::VAR2) ==> loop_SelectClause_5(ks, start, gm1, p.st()) == (p.st(), false),
                ensures
                    returned ==> (Parser::step(*old(p), *p)),
                    returned ==> (p.pos == old(p).pos ==> is_sync_point(old(p).peek())),
                    returned ==> (old(p).events@.len() < p.events@.len()),
                    returned ==> (p.events@[old(p).events@.len() as int] == (Event::Open { kind: SyntaxKind::SelectClause })),
                    returned ==> (p.events@.last() is Close),
                    loop_SelectClause_5(ks, start, gm1, pre5) == (p.st(), returned),
                decreases p.remaining(),
            {
                let ghost si5 = p.st();
                let checkpoint1 = p.pos();
                let ghost pre6 = p.st();
                match p.nth(0) {
                    SyntaxKind::VAR1 | SyntaxKind::VAR2 => {
                        parse_Var(p);
                        proof {
                            assert(match_SelectClause_7(ks, start, gm1, pre6) == (p.st(), false)) by {
                                reveal_with_fuel(match_SelectClause_7, 1);
                            }
                        }
                    },
                    SyntaxKind::LParen => {
                        p.expect(SyntaxKind::LParen);
                        proof {
                            assert(call_ok(ks, start, p.st(), rank_Expression(peek_at(ks, p.st().pos)), rank_SelectClause(peek_at(ks, start)))) by {
                                reveal(Parser::st);
                                assert(peek_at(ks, start) == old(p).peek());
                                assert(peek_at(ks, p.pos as int) == p.peek());
                            }
                        }
                        parse_Expression(p);
                        p.expect(SyntaxKind::AS);
                        parse_Var(p);
                        p.expect(SyntaxKind::RParen);
                        proof {
                            assert(match_SelectClause_7(ks, start, gm1, pre6) == (p.st(), false)) by {
                                reveal_with_fuel(match_SelectClause_7, 1); reveal_with_fuel(rule_Expression, 1);
                            }
                        }
                    },
                    SyntaxKind::Eof => {
                        p.close(marker, SyntaxKind::SelectClause);
                        let marker = p.open();
                        let ghost gm4 = marker.index as int;
                        p.close(marker, SyntaxKind::Error);
                        proof {
                            assert(match_SelectClause_7(ks, start, gm1, pre6) == (p.st(), true)) by {
                                reveal_with_fuel(match_SelectClause_7, 1);
                            }
                        }
                        proof {
                            assert(body_SelectClause_6(ks, start, gm1, si5) == (p.st(), true)) by {
                                reveal_with_fuel(body_SelectClause_6, 1); reveal_with_fuel(match_SelectClause_7, 1);
                            }
                        }
                        proof {
                            assert(loop_SelectClause_5(ks, start, gm1, si5) == (p.st(), true)) by {
                                reveal_with_fuel(loop_SelectClause_5, 1); reveal_with_fuel(body_SelectClause_6, 1);
                            }
                        }
                        returned = true;
                        break;
                    },
                    _ => {
                        p.advance_with_error(vec![SyntaxKind::VAR1, SyntaxKind::VAR2, SyntaxKind::LParen]);
                        proof {
                            assert(match_SelectClause_7(ks, start, gm1, pre6) == (p.st(), false)) by {
                                reveal_with_fuel(match_SelectClause_7, 1);
                            }
                        }
                    },
                }
                proof {
                    assert(body_SelectClause_6(ks, start, gm1, si5) == (p.st(), false)) by {
                        reveal_with_fuel(body_SelectClause_6, 1); reveal_with_fuel(match_SelectClause_7, 1);
                    }
                }
                if p.pos() == checkpoint1 {
                    proof {
                        assert(loop_SelectClause_5(ks, start, gm1, si5) == (p.st(), false)) by {
                            reveal_with_fuel(loop_SelectClause_5, 1); reveal_with_fuel(body_SelectClause_6, 1);
                        }
                    }
                    break;
                }
                proof {
                    assert(p.st().pos == p.pos as int) by {
                        reveal(Parser::st);
                    }
                    assert(loop_SelectClause_5(ks, start, gm1, si5) == loop_SelectClause_5(ks, start, gm1, p.st())) by {
                        reveal_with_fuel(loop_SelectClause_5, 1); reveal_with_fuel(body_SelectClause_6, 1);
                        reveal(Parser::st);
                    }
                    if !(peek_at(ks, p.st().pos) == SyntaxKind::LParen || peek_at(ks, p.st().pos) == SyntaxKind::VAR1 || peek_at(ks, p.st().pos) == SyntaxKind::VAR2) {
                        assert(loop_SelectClause_5(ks, start, gm1, p.st()) == (p.st(), false)) by {
                            reveal_with_fuel(loop_SelectClause_5, 1); reveal_with_fuel(body_SelectClause_6, 1);
                        }
                    }
                }
            }
            if returned {
                proof {
                    assert(match_SelectClause_3(ks, start, gm1, pre3) == (p.st(), true)) by {
                        reveal_with_fuel(match_SelectClause_3, 1); reveal_with_fuel(loop_SelectClause_5, 1); reveal_with_fuel(match_SelectClause_4, 1);
                    }
                }
                proof {
                    assert(rule_SelectClause(ks, s0) == p.st()) by {
                        reveal_with_fuel(rule_SelectClause, 1); reveal_with_fuel(if_SelectClause_1, 1); reveal_with_fuel(match_SelectClause_3, 1);
                    }
                }
                return ;
            }
            proof {
                assert(match_SelectClause_3(ks, start, gm1, pre3) == (p.st(), false)) by {
                    reveal_with_fuel(match_SelectClause_3, 1); reveal_with_fuel(loop_SelectClause_5, 1); reveal_with_fuel(match_SelectClause_4, 1);
                }
            }
        },
        SyntaxKind::Star => {
            p.expect(SyntaxKind::Star);
            proof {
                assert(match_SelectClause_3(ks, start, gm1, pre3) == (p.st(), false)) by {
                    reveal_with_fuel(match_SelectClause_3, 1);
                }
            }
        },
        SyntaxKind::Eof => {
            p.close(marker, SyntaxKind::SelectClause);
            let marker = p.open();
            let ghost gm5 = marker.index as int;
            p.close(marker, SyntaxKind::Error);
            proof {
                assert(match_SelectClause_3(ks, start, gm1, pre3) == (p.st(), true)) by {
                    reveal_with_fuel(match_SelectClause_3, 1);
                }
            }
            proof {
                assert(rule_SelectClause(ks, s0) == p.st()) by {
                    reveal_with_fuel(rule_SelectClause, 1); reveal_with_fuel(if_SelectClause_1, 1); reveal_with_fuel(match_SelectClause_3, 1);
                }
            }
            return ;
        },
        _ => {
            p.advance_with_error(vec![SyntaxKind::LParen, SyntaxKind::VAR1, SyntaxKind::VAR2, SyntaxKind::Star]);
            proof {
                assert(match_SelectClause_3(ks, start, gm1, pre3) == (p.st(), false)) by {
                    reveal_with_fuel(match_SelectClause_3, 1);
                }
            }
        },
    }
    p.close(marker, SyntaxKind::SelectClause);
    proof {
        assert(rule_SelectClause(ks, s0) == p.st()) by {
            reveal_with_fuel(rule_SelectClause, 1); reveal_with_fuel(if_SelectClause_1, 1); reveal_with_fuel(match_SelectClause_3, 1);
        }
    }
}

pub open spec fn rank_DatasetClause(t: SyntaxKind) -> nat {
    match t {
        SyntaxKind::NAMED => 1,
        SyntaxKind::IRIREF => 3,
        SyntaxKind::PNAME_LN | SyntaxKind::PNAME_NS => 4,
        _ => 0,
    }
}

/// What [`parse_DatasetClause`] makes of the parser state.
#[verifier::opaque]
pub open spec fn rule_DatasetClause(ts: Seq<SyntaxKind>, s: St) -> St {
    let m_marker = s.evs.len() as int;
    let s = st_open(s);
    let s = st_expect(ts, s, SyntaxKind::FROM);
    if (peek_at(ts, s.pos) == SyntaxKind::IRIREF || peek_at(ts, s.pos) == SyntaxKind::PNAME_NS || peek_at(ts, s.pos) == SyntaxKind::PNAME_LN) {
        let s = rule_DefaultGraphClause(ts, s);
        let s = st_close(s, m_marker, SyntaxKind::DatasetClause);
        s
    } else if (peek_at(ts, s.pos) == SyntaxKind::NAMED) {
        let s = rule_NamedGraphClause(ts, s);
        let s = st_close(s, m_marker, SyntaxKind::DatasetClause);
        s
    } else if (peek_at(ts, s.pos) == SyntaxKind::Eof) {
        let s = st_close(s, m_marker, SyntaxKind::DatasetClause);
        let m_marker = s.evs.len() as int;
        let s = st_open(s);
        let s = st_close(s, m_marker, SyntaxKind::Error);
        s
    } else {
        let s = st_advance_with_error(ts, s, seq![SyntaxKind::IRIREF, SyntaxKind::PNAME_NS, SyntaxKind::PNAME_LN, SyntaxKind::NAMED]);
        let s = st_close(s, m_marker, SyntaxKind::DatasetClause);
        s
    }
}

/// [15] DatasetClause -> 'FROM' (DefaultGraphClause | NamedGraphClause)
pub(crate) fn parse_DatasetClause(p: &mut Parser)
    requires
        old(p).wf(),
    ensures
        Parser::step(*old(p), *final(p)),
        final(p).pos == old(p).pos ==> is_sync_point(old(p).peek()),
        old(p).events@.len() < final(p).events@.len(),
        final(p).events@[old(p).events@.len() as int] == (Event::Open { kind: SyntaxKind::DatasetClause }),
        final(p).events@.last() is Close,
        final(p).st() == rule_DatasetClause(old(p).kinds(), old(p).st()),
    decreases old(p).remaining(), rank_DatasetClause(old(p).peek()), 1int,
{
    let ghost ks = p.kinds();
    let ghost s0 = p.st();
    let marker = p.open();
    p.expect(SyntaxKind::FROM);
    match p.nth(0) {
        SyntaxKind::IRIREF | SyntaxKind::PNAME_NS | SyntaxKind::PNAME_LN => {
            parse_DefaultGraphClause(p);
        },
        SyntaxKind::NAMED => {
            parse_NamedGraphClause(p);
        },
        SyntaxKind::Eof => {
            p.close(marker, SyntaxKind::DatasetClause);
            let marker = p.open();
            p.close(marker, SyntaxKind::Error);
            proof {
                assert(p.st() == rule_DatasetClause(ks, s0)) by {
                    reveal(rule_DatasetClause);
                    reveal(Parser::st);
                }
            }
            return ;
        },
        _ => {
            p.advance_with_error(vec![SyntaxKind::IRIREF, SyntaxKind::PNAME_NS, SyntaxKind::PNAME_LN, SyntaxKind::NAMED]);
        },
    }
    p.close(marker, SyntaxKind::DatasetClause);
    proof {
        assert(p.st() == rule_DatasetClause(ks, s0)) by {
            reveal(rule_DatasetClause);
            reveal(Parser::st);
        }
    }
}

pub open spec fn rank_WhereClause(t: SyntaxKind) -> nat {
    match t {
        SyntaxKind::WHERE => 0,
        SyntaxKind::SELECT => 3,
        SyntaxKind::BIND | SyntaxKind::FILTER | SyntaxKind::GRAPH | SyntaxKind::MINUS | SyntaxKind::OPTIONAL | SyntaxKind::SERVICE | SyntaxKind::VALUES => 4,
        SyntaxKind::NIL => 5,
        SyntaxKind::ANON | SyntaxKind::BLANK_NODE_LABEL | SyntaxKind::DoubleLess | SyntaxKind::DoubleLessLParen | SyntaxKind::False | SyntaxKind::IRIREF | SyntaxKind::LBrack | SyntaxKind::LParen | SyntaxKind::True | SyntaxKind::VAR1 | SyntaxKind::VAR2 => 6,
        SyntaxKind::DECIMAL | SyntaxKind::DECIMAL_NEGATIVE | SyntaxKind::DECIMAL_POSITIVE | SyntaxKind::DOUBLE | SyntaxKind::DOUBLE_NEGATIVE | SyntaxKind::DOUBLE_POSITIVE | SyntaxKind::INTEGER | SyntaxKind::INTEGER_NEGATIVE | SyntaxKind::INTEGER_POSITIVE | SyntaxKind::PNAME_LN | SyntaxKind::PNAME_NS | SyntaxKind::STRING_LITERAL1 | SyntaxKind::STRING_LITERAL2 | SyntaxKind::STRING_LITERAL_LONG1 | SyntaxKind::STRING_LITERAL_LONG2 => 7,
        _ => 1,
    }
}

/// What [`parse_WhereClause`] makes of the parser state.
#[verifier::opaque]
pub open spec fn rule_WhereClause(ts: Seq<SyntaxKind>, s: St) -> St
    decreases ts.len() - s.pos, rank_WhereClause(peek_at(ts, s.pos)), 32 * (ts.len() - s.pos) + 32,
{
    let start = s.pos;
    let s_in = s;
    let m_marker = s.evs.len() as int;
    let s = st_open(s);
    let s = if s_in.pos <= s.pos <= ts.len() {
        if_WhereClause_1(ts, start, m_marker, s)
    } else {
        s
    };
    let s = if call_ok(ts, start, s, rank_GroupGraphPattern(peek_at(ts, s.pos)), rank_WhereClause(peek_at(ts, start))) {
        rule_GroupGraphPattern(ts, s)
    } else {
        s
    };
    let s = st_close(s, m_marker, SyntaxKind::WhereClause);
    s
}

#[verifier::opaque]
pub open spec fn if_WhereClause_1(ts: Seq<SyntaxKind>, start: int, m_marker: int, s: St) -> St
    decreases ts.len() - start, rank_WhereClause(peek_at(ts, start)), 32 * (ts.len() - s.pos) + 32 - 1,
{
    let s_in = s;
    if (peek_at(ts, s.pos) == SyntaxKind::WHERE) {
        let s = st_expect(ts, s, SyntaxKind::WHERE);
        s
    } else {
        s
    }
}

/// [16] WhereClause -> 'WHERE'? GroupGraphPattern
pub(crate) fn parse_WhereClause(p: &mut Parser)
    requires
        old(p).wf(),
    ensures
        Parser::step(*old(p), *final(p)),
        final(p).pos == old(p).pos ==> (old(p).peek() == SyntaxKind::Eof),
        old(p).events@.len() < final(p).events@.len(),
        final(p).events@[old(p).events@.len() as int] == (Event::Open { kind: SyntaxKind::WhereClause }),
        final(p).events@.last() is Close,
        final(p).st() == rule_WhereClause(old(p).kinds(), old(p).st()),
    decreases old(p).remaining(), rank_WhereClause(old(p).peek()), 1int,
{
    let ghost ks = p.kinds();
    let ghost s0 = p.st();
    let ghost start = p.pos as int;
    let marker = p.open();
    let ghost gm1 = marker.index as int;
    let ghost pre1 = p.st();
    if p.at_any(&[SyntaxKind::WHERE]) {
        p.expect(SyntaxKind::WHERE);
        proof {
            assert(if_WhereClause_1(ks, start, gm1, pre1) == p.st()) by {
                reveal_with_fuel(if_WhereClause_1, 1);
            }
        }
    } else {
        proof {
            assert(if_WhereClause_1(ks, start, gm1, pre1) == p.st()) by {
                reveal_with_fuel(if_WhereClause_1, 1);
            }
        }
    }
    proof {
        assert(call_ok(ks, start, p.st(), rank_GroupGraphPattern(peek_at(ks, p.st().pos)), rank_WhereClause(peek_at(ks, start)))) by {
            reveal(Parser::st);
            assert(peek_at(ks, start) == old(p).peek());
            assert(peek_at(ks, p.pos as int) == p.peek());
        }
    }
    parse_GroupGraphPattern(p);
    p.close(marker, SyntaxKind::WhereClause);
    proof {
        assert(rule_WhereClause(ks, s0) == p.st()) by {
            reveal_with_fuel(rule_WhereClause, 1); reveal_with_fuel(if_WhereClause_1, 1); reveal_with_fuel(rule_GroupGraphPattern, 1);
        }
    }
}

pub open spec fn rank_SolutionModifier(t: SyntaxKind) -> nat {
    match t {
        SyntaxKind::GROUP | SyntaxKind::HAVING | SyntaxKind::ORDER => 1,
        SyntaxKind::LIMIT | SyntaxKind::OFFSET => 2,
        _ => 0,
    }
}

/// What [`parse_SolutionModifier`] makes of the parser state.
#[verifier::opaque]
pub open spec fn rule_SolutionModifier(ts: Seq<SyntaxKind>, s: St) -> St
    decreases ts.len() - s.pos, rank_SolutionModifier(peek_at(ts, s.pos)), 32 * (ts.len() - s.pos) + 32,
{
    let start = s.pos;
    let s_in = s;
    let (s, r) = if s_in.pos <= s.pos <= ts.len() {
        if_SolutionModifier_1(ts, start, s)
    } else {
        (s, false)
    };
    if r {
        s
    } else {
        let m_marker = s.evs.len() as int;
        let s = st_open(s);
        let s = if s_in.pos <= s.pos <= ts.len() {
            if_SolutionModifier_2(ts, start, m_marker, s)
        } else {
            s
        };
        let s = if s_in.pos <= s.pos <= ts.len() {
            if_SolutionModifier_3(ts, start, m_marker, s)
        } else {
            s
        };
        let s = if s_in.pos <= s.pos <= ts.len() {
            if_SolutionModifier_4(ts, start, m_marker, s)
        } else {
            s
        };
        let s = if s_in.pos <= s.pos <= ts.len() {
            if_SolutionModifier_5(ts, start, m_marker, s)
        } else {
            s
        };
        let s = st_close(s, m_marker, SyntaxKind::SolutionModifier);
        s
    }
}

#[verifier::opaque]
pub open spec fn if_SolutionModifier_1(ts: Seq<SyntaxKind>, start: int, s: St) -> (St, bool)
    decreases ts.len() - start, rank_SolutionModifier(peek_at(ts, start)), 32 * (ts.len() - s.pos) + 32 - 1,
{
    let s_in = s;
    if !(peek_at(ts, s.pos) == SyntaxKind::GROUP || peek_at(ts, s.pos) == SyntaxKind::HAVING || peek_at(ts, s.pos) == SyntaxKind::ORDER || peek_at(ts, s.pos) == SyntaxKind::LIMIT || peek_at(ts, s.pos) == SyntaxKind::OFFSET) {
        (s, true)
    } else {
        (s, false)
    }
}

#[verifier::opaque]
pub open spec fn if_SolutionModifier_2(ts: Seq<SyntaxKind>, start: int, m_marker: int, s: St) -> St
    decreases ts.len() - start, rank_SolutionModifier(peek_at(ts, start)), 32 * (ts.len() - s.pos) + 32 - 1,
{
    let s_in = s;
    if (peek_at(ts, s.pos) == SyntaxKind::GROUP) {
        let s = if call_ok(ts, start, s, rank_GroupClause(peek_at(ts, s.pos)), rank_SolutionModifier(peek_at(ts, start))) {
            rule_GroupClause(ts, s)
        } else {
            s
        };
        s
    } else {
        s
    }
}

#[verifier::opaque]
pub open spec fn if_SolutionModifier_3(ts: Seq<SyntaxKind>, start: int, m_marker: int, s: St) -> St
    decreases ts.len() - start, rank_SolutionModifier(peek_at(ts, start)), 32 * (ts.len() - s.pos) + 32 - 1,
{
    let s_in = s;
    if (peek_at(ts, s.pos) == SyntaxKind::HAVING) {
        let s = if call_ok(ts, start, s, rank_HavingClause(peek_at(ts, s.pos)), rank_SolutionModifier(peek_at(ts, start))) {
            rule_HavingClause(ts, s)
        } else {
            s
        };
        s
    } else {
        s
    }
}

#[verifier::opaque]
pub open spec fn if_SolutionModifier_4(ts: Seq<SyntaxKind>, start: int, m_marker: int, s: St) -> St
    decreases ts.len() - start, rank_SolutionModifier(peek_at(ts, start)), 32 * (ts.len() - s.pos) + 32 - 1,
{
    let s_in = s;
    if (peek_at(ts, s.pos) == SyntaxKind::ORDER) {
        let s = if call_ok(ts, start, s, rank_OrderClause(peek_at(ts, s.pos)), rank_SolutionModifier(peek_at(ts, start))) {
            rule_OrderClause(ts, s)
        } else {
            s
        };
        s
    } else {
        s
    }
}

#[verifier::opaque]
pub open spec fn if_SolutionModifier_5(ts: Seq<SyntaxKind>, start: int, m_marker: int, s: St) -> St
    decreases ts.len() - start, rank_SolutionModifier(peek_at(ts, start)), 32 * (ts.len() - s.pos) + 32 - 1,
{
    let s_in = s;
    if (peek_at(ts, s.pos) == SyntaxKind::LIMIT || peek_at(ts, s.pos) == SyntaxKind::OFFSET) {
        let s = rule_LimitOffsetClauses(ts, s);
        s
    } else {
        s
    }
}

/// [17] SolutionModifier -> GroupClause? HavingClause? OrderClause? LimitOffsetClauses?
pub(crate) fn parse_SolutionModifier(p: &mut Parser)
    requires
        old(p).wf(),
    ensures
        Parser::step(*old(p), *final(p)),
        final(p).pos == old(p).pos ==> !(old(p).peek() == SyntaxKind::GROUP || old(p).peek() == SyntaxKind::HAVING || old(p).peek() == SyntaxKind::LIMIT || old(p).peek() == SyntaxKind::OFFSET || old(p).peek() == SyntaxKind::ORDER),
        old(p).events@.len() < final(p).events@.len() ==> final(p).events@[old(p).events@.len() as int] == (Event::Open {
            kind: SyntaxKind::SolutionModifier,
        }) && final(p).events@.last() is Close,
        final(p).st() == rule_SolutionModifier(old(p).kinds(), old(p).st()),
    decreases old(p).remaining(), rank_SolutionModifier(old(p).peek()), 1int,
{
    let ghost ks = p.kinds();
    let ghost s0 = p.st();
    let ghost start = p.pos as int;
    let ghost pre1 = p.st();
    if !p.at_any(&[SyntaxKind::GROUP, SyntaxKind::HAVING, SyntaxKind::ORDER, SyntaxKind::LIMIT, SyntaxKind::OFFSET]) {
        proof {
            assert(if_SolutionModifier_1(ks, start, pre1) == (p.st(), true)) by {
                reveal_with_fuel(if_SolutionModifier_1, 1);
            }
        }
        proof {
            assert(rule_SolutionModifier(ks, s0) == p.st()) by {
                reveal_with_fuel(rule_SolutionModifier, 1); reveal_with_fuel(if_SolutionModifier_1, 1); reveal_with_fuel(if_SolutionModifier_2, 1); reveal_with_fuel(if_SolutionModifier_3, 1); reveal_with_fuel(if_SolutionModifier_4, 1); reveal_with_fuel(if_SolutionModifier_5, 1);
            }
        }
        return ;
    } else {
        proof {
            assert(if_SolutionModifier_1(ks, start, pre1) == (p.st(), false)) by {
                reveal_with_fuel(if_SolutionModifier_1, 1);
            }
        }
    }
    let marker = p.open();
    let ghost gm1 = marker.index as int;
    let ghost pre2 = p.st();
    if p.at_any(&[SyntaxKind::GROUP]) {
        proof {
            assert(call_ok(ks, start, p.st(), rank_GroupClause(peek_at(ks, p.st().pos)), rank_SolutionModifier(peek_at(ks, start)))) by {
                reveal(Parser::st);
                assert(peek_at(ks, start) == old(p).peek());
                assert(peek_at(ks, p.pos as int) == p.peek());
            }
        }
        parse_GroupClause(p);
        proof {
            assert(if_SolutionModifier_2(ks, start, gm1, pre2) == p.st()) by {
                reveal_with_fuel(if_SolutionModifier_2, 1); reveal_with_fuel(rule_GroupClause, 1);
            }
        }
    } else {
        proof {
            assert(if_SolutionModifier_2(ks, start, gm1, pre2) == p.st()) by {
                reveal_with_fuel(if_SolutionModifier_2, 1);
            }
        }
    }
    let ghost pre3 = p.st();
    if p.at_any(&[SyntaxKind::HAVING]) {
        proof {
            assert(call_ok(ks, start, p.st(), rank_HavingClause(peek_at(ks, p.st().pos)), rank_SolutionModifier(peek_at(ks, start)))) by {
                reveal(Parser::st);
                assert(peek_at(ks, start) == old(p).peek());
                assert(peek_at(ks, p.pos as int) == p.peek());
            }
        }
        parse_HavingClause(p);
        proof {
            assert(if_SolutionModifier_3(ks, start, gm1, pre3) == p.st()) by {
                reveal_with_fuel(if_SolutionModifier_3, 1); reveal_with_fuel(rule_HavingClause, 1);
            }
        }
    } else {
        proof {
            assert(if_SolutionModifier_3(ks, start, gm1, pre3) == p.st()) by {
                reveal_with_fuel(if_SolutionModifier_3, 1);
            }
        }
    }
    let ghost pre4 = p.st();
    if p.at_any(&[SyntaxKind::ORDER]) {
        proof {
            assert(call_ok(ks, start, p.st(), rank_OrderClause(peek_at(ks, p.st().pos)), rank_SolutionModifier(peek_at(ks, start)))) by {
                reveal(Parser::st);
                assert(peek_at(ks, start) == old(p).peek());
                assert(peek_at(ks, p.pos as int) == p.peek());
            }
        }
        parse_OrderClause(p);
        proof {
            assert(if_SolutionModifier_4(ks, start, gm1, pre4) == p.st()) by {
                reveal_with_fuel(if_SolutionModifier_4, 1); reveal_with_fuel(rule_OrderClause, 1);
            }
        }
    } else {
        proof {
            assert(if_SolutionModifier_4(ks, start, gm1, pre4) == p.st()) by {
                reveal_with_fuel(if_SolutionModifier_4, 1);
            }
        }
    }
    let ghost pre5 = p.st();
    if p.at_any(&[SyntaxKind::LIMIT, SyntaxKind::OFFSET]) {
        parse_LimitOffsetClauses(p);
        proof {
            assert(if_SolutionModifier_5(ks, start, gm1, pre5) == p.st()) by {
                reveal_with_fuel(if_SolutionModifier_5, 1);
            }
        }
    } else {
        proof {
            assert(if_SolutionModifier_5(ks, start, gm1, pre5) == p.st()) by {
                reveal_with_fuel(if_SolutionModifier_5, 1);
            }
        }
    }
    p.close(marker, SyntaxKind::SolutionModifier);
    proof {
        assert(rule_SolutionModifier(ks, s0) == p.st()) by {
            reveal_with_fuel(rule_SolutionModifier, 1); reveal_with_fuel(if_SolutionModifier_1, 1); reveal_with_fuel(if_SolutionModifier_2, 1); reveal_with_fuel(if_SolutionModifier_3, 1); reveal_with_fuel(if_SolutionModifier_4, 1); reveal_with_fuel(if_SolutionModifier_5, 1);
        }
    }
}

pub open spec fn rank_SubSelect(t: SyntaxKind) -> nat {
    match t {
        SyntaxKind::Eof | SyntaxKind::LCurly | SyntaxKind::RCurly | SyntaxKind::VAR1 | SyntaxKind::VAR2 => 2,
        _ => 1,
    }
}

/// What [`parse_SubSelect`] makes of the parser state.
#[verifier::opaque]
pub open spec fn rule_SubSelect(ts: Seq<SyntaxKind>, s: St) -> St
    decreases ts.len() - s.pos, rank_SubSelect(peek_at(ts, s.pos)), 32 * (ts.len() - s.pos) + 32,
{
    let start = s.pos;
    let s_in = s;
    let m_marker = s.evs.len() as int;
    let s = st_open(s);
    let s = if call_ok(ts, start, s, rank_SelectClause(peek_at(ts, s.pos)), rank_SubSelect(peek_at(ts, start))) {
        rule_SelectClause(ts, s)
    } else {
        s
    };
    let s = if call_ok(ts, start, s, rank_WhereClause(peek_at(ts, s.pos)), rank_SubSelect(peek_at(ts, start))) {
        rule_WhereClause(ts, s)
    } else {
        s
    };
    let s = if call_ok(ts, start, s, rank_SolutionModifier(peek_at(ts, s.pos)), rank_SubSelect(peek_at(ts, start))) {
        rule_SolutionModifier(ts, s)
    } else {
        s
    };
    let s = if call_ok(ts, start, s, rank_ValuesClause(peek_at(ts, s.pos)), rank_SubSelect(peek_at(ts, start))) {
        rule_ValuesClause(ts, s)
    } else {
        s
    };
    let s = st_close(s, m_marker, SyntaxKind::SubSelect);
    s
}


/// [18] SubSelect -> SelectClause WhereClause SolutionModifier ValuesClause
pub(crate) fn parse_SubSelect(p: &mut Parser)
    requires
        old(p).wf(),
    ensures
        Parser::step(*old(p), *final(p)),
        final(p).pos == old(p).pos ==> (old(p).peek() == SyntaxKind::Eof),
        old(p).events@.len() < final(p).events@.len(),
        final(p).events@[old(p).events@.len() as int] == (Event::Open { kind: SyntaxKind::SubSelect }),
        final(p).events@.last() is Close,
        final(p).st() == rule_SubSelect(old(p).kinds(), old(p).st()),
    decreases old(p).remaining(), rank_SubSelect(old(p).peek()), 1int,
{
    let ghost ks = p.kinds();
    let ghost s0 = p.st();
    let ghost start = p.pos as int;
    let marker = p.open();
    let ghost gm1 = marker.index as int;
    proof {
        assert(call_ok(ks, start, p.st(), rank_SelectClause(peek_at(ks, p.st().pos)), rank_SubSelect(peek_at(ks, start)))) by {
            reveal(Parser::st);
            assert(peek_at(ks, start) == old(p).peek());
            assert(peek_at(ks, p.pos as int) == p.peek());
        }
    }
    parse_SelectClause(p);
    proof {
        assert(call_ok(ks, start, p.st(), rank_WhereClause(peek_at(ks, p.st().pos)), rank_SubSelect(peek_at(ks, start)))) by {
            reveal(Parser::st);
            assert(peek_at(ks, start) == old(p).peek());
            assert(peek_at(ks, p.pos as int) == p.peek());
        }
    }
    parse_WhereClause(p);
    proof {
        assert(call_ok(ks, start, p.st(), rank_SolutionModifier(peek_at(ks, p.st().pos)), rank_SubSelect(peek_at(ks, start)))) by {
            reveal(Parser::st);
            assert(peek_at(ks, start) == old(p).peek());
            assert(peek_at(ks, p.pos as int) == p.peek());
        }
    }
    parse_SolutionModifier(p);
    proof {
        assert(call_ok(ks, start, p.st(), rank_ValuesClause(peek_at(ks, p.st().pos)), rank_SubSelect(peek_at(ks, start)))) by {
            reveal(Parser::st);
            assert(peek_at(ks, start) == old(p).peek());
            assert(peek_at(ks, p.pos as int) == p.peek());
        }
    }
    parse_ValuesClause(p);
    p.close(marker, SyntaxKind::SubSelect);
    proof {
        assert(rule_SubSelect(ks, s0) == p.st()) by {
            reveal_with_fuel(rule_SubSelect, 1); reveal_with_fuel(rule_SelectClause, 1); reveal_with_fuel(rule_SolutionModifier, 1); reveal_with_fuel(rule_ValuesClause, 1); reveal_with_fuel(rule_WhereClause, 1);
        }
    }
}

pub open spec fn rank_Var(t: SyntaxKind) -> nat {
    0
}

/// What [`parse_Var`] makes of the parser state.
#[verifier::opaque]
pub open spec fn rule_Var(ts: Seq<SyntaxKind>, s: St) -> St {
    let m_marker = s.evs.len() as int;
    let s = st_open(s);
    if (peek_at(ts, s.pos) == SyntaxKind::VAR1) {
        let s = st_expect(ts, s, SyntaxKind::VAR1);
        let s = st_close(s, m_marker, SyntaxKind::Var);
        s
    } else if (peek_at(ts, s.pos) == SyntaxKind::VAR2) {
        let s = st_expect(ts, s, SyntaxKind::VAR2);
        let s = st_close(s, m_marker, SyntaxKind::Var);
        s
    } else if (peek_at(ts, s.pos) == SyntaxKind::Eof) {
        let s = st_close(s, m_marker, SyntaxKind::Var);
        let m_marker = s.evs.len() as int;
        let s = st_open(s);
        let s = st_close(s, m_marker, SyntaxKind::Error);
        s
    } else {
        let s = st_advance_with_error(ts, s, seq![SyntaxKind::VAR1, SyntaxKind::VAR2]);
        let s = st_close(s, m_marker, SyntaxKind::Var);
        s
    }
}

/// [19] Var -> 'VAR1' | 'VAR2'
pub(crate) fn parse_Var(p: &mut Parser)
    requires
        old(p).wf(),
    ensures
        Parser::step(*old(p), *final(p)),
        final(p).pos == old(p).pos ==> is_sync_point(old(p).peek()),
        old(p).events@.len() < final(p).events@.len(),
        final(p).events@[old(p).events@.len() as int] == (Event::Open { kind: SyntaxKind::Var }),
        final(p).events@.last() is Close,
        final(p).st() == rule_Var(old(p).kinds(), old(p).st()),
    decreases old(p).remaining(), rank_Var(old(p).peek()), 1int,
{
    let ghost ks = p.kinds();
    let ghost s0 = p.st();
    let marker = p.open();
    match p.nth(0) {
        SyntaxKind::VAR1 => {
            p.expect(SyntaxKind::VAR1);
        },
        SyntaxKind::VAR2 => {
            p.expect(SyntaxKind::VAR2);
        },
        SyntaxKind::Eof => {
            p.close(marker, SyntaxKind::Var);
            let marker = p.open();
            p.close(marker, SyntaxKind::Error);
            proof {
                assert(p.st() == rule_Var(ks, s0)) by {
                    reveal(rule_Var);
                    reveal(Parser::st);
                }
            }
            return ;
        },
        _ => {
            p.advance_with_error(vec![SyntaxKind::VAR1, SyntaxKind::VAR2]);
        },
    }
    p.close(marker, SyntaxKind::Var);
    proof {
        assert(p.st() == rule_Var(ks, s0)) by {
            reveal(rule_Var);
            reveal(Parser::st);
        }
    }
}

pub open spec fn rank_Expression(t: SyntaxKind) -> nat {
    match t {
        SyntaxKind::ABS | SyntaxKind::BNODE | SyntaxKind::BOUND | SyntaxKind::CEIL | SyntaxKind::COALESCE | SyntaxKind::CONCAT | SyntaxKind::CONTAINS | SyntaxKind::DATATYPE | SyntaxKind::DAY | SyntaxKind::DoubleLessLParen | SyntaxKind::ENCODE_FOR_URI | SyntaxKind::FLOOR | SyntaxKind::False | SyntaxKind::HOURS | SyntaxKind::IF | SyntaxKind::IRI | SyntaxKind::LANG | SyntaxKind::LANGDIR | SyntaxKind::LANGMATCHES | SyntaxKind::LCASE | SyntaxKind::LParen | SyntaxKind::MD5 | SyntaxKind::MINUTES | SyntaxKind::MONTH | SyntaxKind::NOW | SyntaxKind::OBJECT | SyntaxKind::PREDICATE | SyntaxKind::RAND | SyntaxKind::ROUND | SyntaxKind::SECONDS | SyntaxKind::SHA1 | SyntaxKind::SHA256 | SyntaxKind::SHA384 | SyntaxKind::SHA512 | SyntaxKind::STR | SyntaxKind::STRAFTER | SyntaxKind::STRBEFORE | SyntaxKind::STRDT | SyntaxKind::STRENDS | SyntaxKind::STRLANG | SyntaxKind::STRLANGDIR | SyntaxKind::STRLEN | SyntaxKind::STRSTARTS | SyntaxKind::STRUUID | SyntaxKind::SUBJECT | SyntaxKind::TIMEZONE | SyntaxKind::TRIPLE | SyntaxKind::TZ | SyntaxKind::True | SyntaxKind::UCASE | SyntaxKind::URI | SyntaxKind::UUID | SyntaxKind::VAR1 | SyntaxKind::VAR2 | SyntaxKind::YEAR | SyntaxKind::hasLANG | SyntaxKind::hasLANGDIR | SyntaxKind::isBLANK | SyntaxKind::isIRI | SyntaxKind::isLITERAL | SyntaxKind::isNUMERIC | SyntaxKind::isTRIPLE | SyntaxKind::isURI | SyntaxKind::sameTerm => 10,
        SyntaxKind::AVG | SyntaxKind::COUNT | SyntaxKind::DECIMAL | SyntaxKind::DECIMAL_NEGATIVE | SyntaxKind::DECIMAL_POSITIVE | SyntaxKind::DOUBLE | SyntaxKind::DOUBLE_NEGATIVE | SyntaxKind::DOUBLE_POSITIVE | SyntaxKind::EXISTS | SyntaxKind::GROUP_CONCAT | SyntaxKind::INTEGER | SyntaxKind::INTEGER_NEGATIVE | SyntaxKind::INTEGER_POSITIVE | SyntaxKind::IRIREF | SyntaxKind::MAX | SyntaxKind::MIN | SyntaxKind::NOT | SyntaxKind::REGEX | SyntaxKind::REPLACE | SyntaxKind::SAMPLE | SyntaxKind::STRING_LITERAL1 | SyntaxKind::STRING_LITERAL2 | SyntaxKind::STRING_LITERAL_LONG1 | SyntaxKind::STRING_LITERAL_LONG2 | SyntaxKind::SUBSTR | SyntaxKind::SUM => 11,
        SyntaxKind::PNAME_LN | SyntaxKind::PNAME_NS => 12,
        _ => 8,
    }
}

/// What [`parse_Expression`] makes of the parser state.
#[verifier::opaque]
pub open spec fn rule_Expression(ts: Seq<SyntaxKind>, s: St) -> St
    decreases ts.len() - s.pos, rank_Expression(peek_at(ts, s.pos)), 32 * (ts.len() - s.pos) + 32,
{
    let start = s.pos;
    let s_in = s;
    let m_marker = s.evs.len() as int;
    let s = st_open(s);
    let s = if call_ok(ts, start, s, rank_ConditionalOrExpression(peek_at(ts, s.pos)), rank_Expression(peek_at(ts, start))) {
        rule_ConditionalOrExpression(ts, s)
    } else {
        s
    };
    let s = st_close(s, m_marker, SyntaxKind::Expression);
    s
}


/// [20] Expression -> ConditionalOrExpression
pub(crate) fn parse_Expression(p: &mut Parser)
    requires
        old(p).wf(),
    ensures
        Parser::step(*old(p), *final(p)),
        final(p).pos == old(p).pos ==> is_sync_point(old(p).peek()),
        old(p).events@.len() < final(p).events@.len(),
        final(p).events@[old(p).events@.len() as int] == (Event::Open { kind: SyntaxKind::Expression }),
        final(p).events@.last() is Close,
        final(p).st() == rule_Expression(old(p).kinds(), old(p).st()),
    decreases old(p).remaining(), rank_Expression(old(p).peek()), 1int,
{
    let ghost ks = p.kinds();
    let ghost s0 = p.st();
    let ghost start = p.pos as int;
    let marker = p.open();
    let ghost gm1 = marker.index as int;
    proof {
        assert(call_ok(ks, start, p.st(), rank_ConditionalOrExpression(peek_at(ks, p.st().pos)), rank_Expression(peek_at(ks, start)))) by {
            reveal(Parser::st);
            assert(peek_at(ks, start) == old(p).peek());
            assert(peek_at(ks, p.pos as int) == p.peek());
        }
    }
    parse_ConditionalOrExpression(p);
    p.close(marker, SyntaxKind::Expression);
    proof {
        assert(rule_Expression(ks, s0) == p.st()) by {
            reveal_with_fuel(rule_Expression, 1); reveal_with_fuel(rule_ConditionalOrExpression, 1);
        }
    }
}

pub open spec fn rank_ConstructTemplate(t: SyntaxKind) -> nat {
    match t {
        SyntaxKind::NIL => 3,
        SyntaxKind::ANON | SyntaxKind::BLANK_NODE_LABEL | SyntaxKind::DoubleLess | SyntaxKind::DoubleLessLParen | SyntaxKind::False | SyntaxKind::IRIREF | SyntaxKind::LBrack | SyntaxKind::LParen | SyntaxKind::True | SyntaxKind::VAR1 | SyntaxKind::VAR2 => 4,
        SyntaxKind::DECIMAL | SyntaxKind::DECIMAL_NEGATIVE | SyntaxKind::DECIMAL_POSITIVE | SyntaxKind::DOUBLE | SyntaxKind::DOUBLE_NEGATIVE | SyntaxKind::DOUBLE_POSITIVE | SyntaxKind::INTEGER | SyntaxKind::INTEGER_NEGATIVE | SyntaxKind::INTEGER_POSITIVE | SyntaxKind::PNAME_LN | SyntaxKind::PNAME_NS | SyntaxKind::STRING_LITERAL1 | SyntaxKind::STRING_LITERAL2 | SyntaxKind::STRING_LITERAL_LONG1 | SyntaxKind::STRING_LITERAL_LONG2 => 5,
        _ => 0,
    }
}

/// What [`parse_ConstructTemplate`] makes of the parser state.
#[verifier::opaque]
pub open spec fn rule_ConstructTemplate(ts: Seq<SyntaxKind>, s: St) -> St
    decreases ts.len() - s.pos, rank_ConstructTemplate(peek_at(ts, s.pos)), 32 * (ts.len() - s.pos) + 32,
{
    let start = s.pos;
    let s_in = s;
    let m_marker = s.evs.len() as int;
    let s = st_open(s);
    let s = st_expect(ts, s, SyntaxKind::LCurly);
    let s = if s_in.pos <= s.pos <= ts.len() {
        if_ConstructTemplate_1(ts, start, m_marker, s)
    } else {
        s
    };
    let s = st_expect(ts, s, SyntaxKind::RCurly);
    let s = st_close(s, m_marker, SyntaxKind::ConstructTemplate);
    s
}

#[verifier::opaque]
pub open spec fn if_ConstructTemplate_1(ts: Seq<SyntaxKind>, start: int, m_marker: int, s: St) -> St
    decreases ts.len() - start, rank_ConstructTemplate(peek_at(ts, start)), 32 * (ts.len() - s.pos) + 32 - 1,
{
    let s_in = s;
    if (peek_at(ts, s.pos) == SyntaxKind::IRIREF || peek_at(ts, s.pos) == SyntaxKind::PNAME_NS || peek_at(ts, s.pos) == SyntaxKind::STRING_LITERAL1 || peek_at(ts, s.pos) == SyntaxKind::STRING_LITERAL2 || peek_at(ts, s.pos) == SyntaxKind::LParen || peek_at(ts, s.pos) == SyntaxKind::INTEGER || peek_at(ts, s.pos) == SyntaxKind::NIL || peek_at(ts, s.pos) == SyntaxKind::LBrack || peek_at(ts, s.pos) == SyntaxKind::DoubleLess || peek_at(ts, s.pos) == SyntaxKind::DoubleLessLParen || peek_at(ts, s.pos) == SyntaxKind::VAR1 || peek_at(ts, s.pos) == SyntaxKind::VAR2 || peek_at(ts, s.pos) == SyntaxKind::DECIMAL || peek_at(ts, s.pos) == SyntaxKind::DOUBLE || peek_at(ts, s.pos) == SyntaxKind::INTEGER_POSITIVE || peek_at(ts, s.pos) == SyntaxKind::DECIMAL_POSITIVE || peek_at(ts, s.pos) == SyntaxKind::DOUBLE_POSITIVE || peek_at(ts, s.pos) == SyntaxKind::INTEGER_NEGATIVE || peek_at(ts, s.pos) == SyntaxKind::DECIMAL_NEGATIVE || peek_at(ts, s.pos) == SyntaxKind::DOUBLE_NEGATIVE || peek_at(ts, s.pos) == SyntaxKind::True || peek_at(ts, s.pos) == SyntaxKind::False || peek_at(ts, s.pos) == SyntaxKind::STRING_LITERAL_LONG1 || peek_at(ts, s.pos) == SyntaxKind::STRING_LITERAL_LONG2 || peek_at(ts, s.pos) == SyntaxKind::PNAME_LN || peek_at(ts, s.pos) == SyntaxKind::BLANK_NODE_LABEL || peek_at(ts, s.pos) == SyntaxKind::ANON) {
        let s = if call_ok(ts, start, s, rank_ConstructTriples(peek_at(ts, s.pos)), rank_ConstructTemplate(peek_at(ts, start))) {
            rule_ConstructTriples(ts, s)
        } else {
            s
        };
        s
    } else {
        s
    }
}

/// [21] ConstructTemplate -> '{' ConstructTriples? '}'
pub(crate) fn parse_ConstructTemplate(p: &mut Parser)
    requires
        old(p).wf(),
    ensures
        Parser::step(*old(p), *final(p)),
        final(p).pos == old(p).pos ==> !(old(p).peek() == SyntaxKind::ANON || old(p).peek() == SyntaxKind::BLANK_NODE_LABEL || old(p).peek() == SyntaxKind::DECIMAL || old(p).peek() == SyntaxKind::DECIMAL_NEGATIVE || old(p).peek() == SyntaxKind::DECIMAL_POSITIVE || old(p).peek() == SyntaxKind::DOUBLE || old(p).peek() == SyntaxKind::DOUBLE_NEGATIVE || old(p).peek() == SyntaxKind::DOUBLE_POSITIVE || old(p).peek() == SyntaxKind::DoubleLess || old(p).peek() == SyntaxKind::DoubleLessLParen || old(p).peek() == SyntaxKind::False || old(p).peek() == SyntaxKind::INTEGER || old(p).peek() == SyntaxKind::INTEGER_NEGATIVE || old(p).peek() == SyntaxKind::INTEGER_POSITIVE || old(p).peek() == SyntaxKind::IRIREF || old(p).peek() == SyntaxKind::LBrack || old(p).peek() == SyntaxKind::LCurly || old(p).peek() == SyntaxKind::LParen || old(p).peek() == SyntaxKind::NIL || old(p).peek() == SyntaxKind::PNAME_LN || old(p).peek() == SyntaxKind::PNAME_NS || old(p).peek() == SyntaxKind::RCurly || old(p).peek() == SyntaxKind::STRING_LITERAL1 || old(p).peek() == SyntaxKind::STRING_LITERAL2 || old(p).peek() == SyntaxKind::STRING_LITERAL_LONG1 || old(p).peek() == SyntaxKind::STRING_LITERAL_LONG2 || old(p).peek() == SyntaxKind::True || old(p).peek() == SyntaxKind::VAR1 || old(p).peek() == SyntaxKind::VAR2),
        old(p).events@.len() < final(p).events@.len(),
        final(p).events@[old(p).events@.len() as int] == (Event::Open { kind: SyntaxKind::ConstructTemplate }),
        final(p).events@.last() is Close,
        final(p).st() == rule_ConstructTemplate(old(p).kinds(), old(p).st()),
    decreases old(p).remaining(), rank_ConstructTemplate(old(p).peek()), 1int,
{
    let ghost ks = p.kinds();
    let ghost s0 = p.st();
    let ghost start = p.pos as int;
    let marker = p.open();
    let ghost gm1 = marker.index as int;
    p.expect(SyntaxKind::LCurly);
    let ghost pre1 = p.st();
    if p.at_any(&[SyntaxKind::IRIREF, SyntaxKind::PNAME_NS, SyntaxKind::STRING_LITERAL1, SyntaxKind::STRING_LITERAL2, SyntaxKind::LParen, SyntaxKind::INTEGER, SyntaxKind::NIL, SyntaxKind::LBrack, SyntaxKind::DoubleLess, SyntaxKind::DoubleLessLParen, SyntaxKind::VAR1, SyntaxKind::VAR2, SyntaxKind::DECIMAL, SyntaxKind::DOUBLE, SyntaxKind::INTEGER_POSITIVE, SyntaxKind::DECIMAL_POSITIVE, SyntaxKind::DOUBLE_POSITIVE, SyntaxKind::INTEGER_NEGATIVE, SyntaxKind::DECIMAL_NEGATIVE, SyntaxKind::DOUBLE_NEGATIVE, SyntaxKind::True, SyntaxKind::False, SyntaxKind::STRING_LITERAL_LONG1, SyntaxKind::STRING_LITERAL_LONG2, SyntaxKind::PNAME_LN, SyntaxKind::BLANK_NODE_LABEL, SyntaxKind::ANON]) {
        proof {
            assert(call_ok(ks, start, p.st(), rank_ConstructTriples(peek_at(ks, p.st().pos)), rank_ConstructTemplate(peek_at(ks, start)))) by {
                reveal(Parser::st);
                assert(peek_at(ks, start) == old(p).peek());
                assert(peek_at(ks, p.pos as int) == p.peek());
            }
        }
        parse_ConstructTriples(p);
        proof {
            assert(if_ConstructTemplate_1(ks, start, gm1, pre1) == p.st()) by {
                reveal_with_fuel(if_ConstructTemplate_1, 1); reveal_with_fuel(rule_ConstructTriples, 1);
            }
        }
    } else {
        proof {
            assert(if_ConstructTemplate_1(ks, start, gm1, pre1) == p.st()) by {
                reveal_with_fuel(if_ConstructTemplate_1, 1);
            }
        }
    }
    p.expect(SyntaxKind::RCurly);
    p.close(marker, SyntaxKind::ConstructTemplate);
    proof {
        assert(rule_ConstructTemplate(ks, s0) == p.st()) by {
            reveal_with_fuel(rule_ConstructTemplate, 1); reveal_with_fuel(if_ConstructTemplate_1, 1);
        }
    }
}

pub open spec fn rank_TriplesTemplate(t: SyntaxKind) -> nat {
    match t {
        SyntaxKind::NIL => 2,
        SyntaxKind::ANON | SyntaxKind::BLANK_NODE_LABEL | SyntaxKind::DoubleLess | SyntaxKind::DoubleLessLParen | SyntaxKind::False | SyntaxKind::IRIREF | SyntaxKind::LBrack | SyntaxKind::LParen | SyntaxKind::True | SyntaxKind::VAR1 | SyntaxKind::VAR2 => 3,
        SyntaxKind::DECIMAL | SyntaxKind::DECIMAL_NEGATIVE | SyntaxKind::DECIMAL_POSITIVE | SyntaxKind::DOUBLE | SyntaxKind::DOUBLE_NEGATIVE | SyntaxKind::DOUBLE_POSITIVE | SyntaxKind::INTEGER | SyntaxKind::INTEGER_NEGATIVE | SyntaxKind::INTEGER_POSITIVE | SyntaxKind::PNAME_LN | SyntaxKind::PNAME_NS | SyntaxKind::STRING_LITERAL1 | SyntaxKind::STRING_LITERAL2 | SyntaxKind::STRING_LITERAL_LONG1 | SyntaxKind::STRING_LITERAL_LONG2 => 4,
        _ => 1,
    }
}

/// What [`parse_TriplesTemplate`] makes of the parser state.
#[verifier::opaque]
pub open spec fn rule_TriplesTemplate(ts: Seq<SyntaxKind>, s: St) -> St
    decreases ts.len() - s.pos, rank_TriplesTemplate(peek_at(ts, s.pos)), 32 * (ts.len() - s.pos) + 32,
{
    let start = s.pos;
    let s_in = s;
    let m_marker = s.evs.len() as int;
    let s = st_open(s);
    let s = if call_ok(ts, start, s, rank_TriplesSameSubject(peek_at(ts, s.pos)), rank_TriplesTemplate(peek_at(ts, start))) {
        rule_TriplesSameSubject(ts, s)
    } else {
        s
    };
    let s = if s_in.pos <= s.pos <= ts.len() {
        if_TriplesTemplate_1(ts, start, m_marker, s)
    } else {
        s
    };
    let s = st_close(s, m_marker, SyntaxKind::TriplesTemplate);
    s
}

#[verifier::opaque]
pub open spec fn if_TriplesTemplate_2(ts: Seq<SyntaxKind>, start: int, m_marker: int, s: St) -> St
    decreases ts.len() - start, rank_TriplesTemplate(peek_at(ts, start)), 32 * (ts.len() - s.pos) + 32 - 2,
{
    let s_in = s;
    if (peek_at(ts, s.pos) == SyntaxKind::IRIREF || peek_at(ts, s.pos) == SyntaxKind::PNAME_NS || peek_at(ts, s.pos) == SyntaxKind::STRING_LITERAL1 || peek_at(ts, s.pos) == SyntaxKind::STRING_LITERAL2 || peek_at(ts, s.pos) == SyntaxKind::LParen || peek_at(ts, s.pos) == SyntaxKind::INTEGER || peek_at(ts, s.pos) == SyntaxKind::NIL || peek_at(ts, s.pos) == SyntaxKind::LBrack || peek_at(ts, s.pos) == SyntaxKind::DoubleLess || peek_at(ts, s.pos) == SyntaxKind::DoubleLessLParen || peek_at(ts, s.pos) == SyntaxKind::VAR1 || peek_at(ts, s.pos) == SyntaxKind::VAR2 || peek_at(ts, s.pos) == SyntaxKind::DECIMAL || peek_at(ts, s.pos) == SyntaxKind::DOUBLE || peek_at(ts, s.pos) == SyntaxKind::INTEGER_POSITIVE || peek_at(ts, s.pos) == SyntaxKind::DECIMAL_POSITIVE || peek_at(ts, s.pos) == SyntaxKind::DOUBLE_POSITIVE || peek_at(ts, s.pos) == SyntaxKind::INTEGER_NEGATIVE || peek_at(ts, s.pos) == SyntaxKind::DECIMAL_NEGATIVE || peek_at(ts, s.pos) == SyntaxKind::DOUBLE_NEGATIVE || peek_at(ts, s.pos) == SyntaxKind::True || peek_at(ts, s.pos) == SyntaxKind::False || peek_at(ts, s.pos) == SyntaxKind::STRING_LITERAL_LONG1 || peek_at(ts, s.pos) == SyntaxKind::STRING_LITERAL_LONG2 || peek_at(ts, s.pos) == SyntaxKind::PNAME_LN || peek_at(ts, s.pos) == SyntaxKind::BLANK_NODE_LABEL || peek_at(ts, s.pos) == SyntaxKind::ANON) {
        let s = if call_ok(ts, start, s, rank_TriplesTemplate(peek_at(ts, s.pos)), rank_TriplesTemplate(peek_at(ts, start))) {
            rule_TriplesTemplate(ts, s)
        } else {
            s
        };
        s
    } else {
        s
    }
}

#[verifier::opaque]
pub open spec fn if_TriplesTemplate_1(ts: Seq<SyntaxKind>, start: int, m_marker: int, s: St) -> St
    decreases ts.len() - start, rank_TriplesTemplate(peek_at(ts, start)), 32 * (ts.len() - s.pos) + 32 - 1,
{
    let s_in = s;
    if (peek_at(ts, s.pos) == SyntaxKind::Dot) {
        let s = st_expect(ts, s, SyntaxKind::Dot);
        let s = if s_in.pos <= s.pos <= ts.len() {
            if_TriplesTemplate_2(ts, start, m_marker, s)
        } else {
            s
        };
        s
    } else {
        s
    }
}

/// [22] TriplesTemplate -> TriplesSameSubject ('.' TriplesTemplate?)?
pub(crate) fn parse_TriplesTemplate(p: &mut Parser)
    requires
        old(p).wf(),
    ensures
        Parser::step(*old(p), *final(p)),
        final(p).pos == old(p).pos ==> is_sync_point(old(p).peek()),
        old(p).events@.len() < final(p).events@.len(),
        final(p).events@[old(p).events@.len() as int] == (Event::Open { kind: SyntaxKind::TriplesTemplate }),
        final(p).events@.last() is Close,
        final(p).st() == rule_TriplesTemplate(old(p).kinds(), old(p).st()),
    decreases old(p).remaining(), rank_TriplesTemplate(old(p).peek()), 1int,
{
    let ghost ks = p.kinds();
    let ghost s0 = p.st();
    let ghost start = p.pos as int;
    let marker = p.open();
    let ghost gm1 = marker.index as int;
    proof {
        assert(call_ok(ks, start, p.st(), rank_TriplesSameSubject(peek_at(ks, p.st().pos)), rank_TriplesTemplate(peek_at(ks, start)))) by {
            reveal(Parser::st);
            assert(peek_at(ks, start) == old(p).peek());
            assert(peek_at(ks, p.pos as int) == p.peek());
        }
    }
    parse_TriplesSameSubject(p);
    let ghost pre1 = p.st();
    if p.at_any(&[SyntaxKind::Dot]) {
        p.expect(SyntaxKind::Dot);
        let ghost pre2 = p.st();
        if p.at_any(&[SyntaxKind::IRIREF, SyntaxKind::PNAME_NS, SyntaxKind::STRING_LITERAL1, SyntaxKind::STRING_LITERAL2, SyntaxKind::LParen, SyntaxKind::INTEGER, SyntaxKind::NIL, SyntaxKind::LBrack, SyntaxKind::DoubleLess, SyntaxKind::DoubleLessLParen, SyntaxKind::VAR1, SyntaxKind::VAR2, SyntaxKind::DECIMAL, SyntaxKind::DOUBLE, SyntaxKind::INTEGER_POSITIVE, SyntaxKind::DECIMAL_POSITIVE, SyntaxKind::DOUBLE_POSITIVE, SyntaxKind::INTEGER_NEGATIVE, SyntaxKind::DECIMAL_NEGATIVE, SyntaxKind::DOUBLE_NEGATIVE, SyntaxKind::True, SyntaxKind::False, SyntaxKind::STRING_LITERAL_LONG1, SyntaxKind::STRING_LITERAL_LONG2, SyntaxKind::PNAME_LN, SyntaxKind::BLANK_NODE_LABEL, SyntaxKind::ANON]) {
            proof {
                assert(call_ok(ks, start, p.st(), rank_TriplesTemplate(peek_at(ks, p.st().pos)), rank_TriplesTemplate(peek_at(ks, start)))) by {
                    reveal(Parser::st);
                    assert(peek_at(ks, start) == old(p).peek());
                    assert(peek_at(ks, p.pos as int) == p.peek());
                }
            }
            parse_TriplesTemplate(p);
            proof {
                assert(if_TriplesTemplate_2(ks, start, gm1, pre2) == p.st()) by {
                    reveal_with_fuel(if_TriplesTemplate_2, 1); reveal_with_fuel(rule_TriplesTemplate, 1);
                }
            }
        } else {
            proof {
                assert(if_TriplesTemplate_2(ks, start, gm1, pre2) == p.st()) by {
                    reveal_with_fuel(if_TriplesTemplate_2, 1);
                }
            }
        }
        proof {
            assert(if_TriplesTemplate_1(ks, start, gm1, pre1) == p.st()) by {
                reveal_with_fuel(if_TriplesTemplate_1, 1); reveal_with_fuel(if_TriplesTemplate_2, 1);
            }
        }
    } else {
        proof {
            assert(if_TriplesTemplate_1(ks, start, gm1, pre1) == p.st()) by {
                reveal_with_fuel(if_TriplesTemplate_1, 1);
            }
        }
    }
    p.close(marker, SyntaxKind::TriplesTemplate);
    proof {
        assert(rule_TriplesTemplate(ks, s0) == p.st()) by {
            reveal_with_fuel(rule_TriplesTemplate, 1); reveal_with_fuel(if_TriplesTemplate_1, 1); reveal_with_fuel(rule_TriplesSameSubject, 1);
        }
    }
}

pub open spec fn rank_VarOrIri(t: SyntaxKind) -> nat {
    match t {
        SyntaxKind::IRIREF | SyntaxKind::VAR1 | SyntaxKind::VAR2 => 1,
        SyntaxKind::PNAME_LN | SyntaxKind::PNAME_NS => 2,
        _ => 0,
    }
}

/// What [`parse_VarOrIri`] makes of the parser state.
#[verifier::opaque]
pub open spec fn rule_VarOrIri(ts: Seq<SyntaxKind>, s: St) -> St {
    let m_marker = s.evs.len() as int;
    let s = st_open(s);
    if (peek_at(ts, s.pos) == SyntaxKind::VAR1 || peek_at(ts, s.pos) == SyntaxKind::VAR2) {
        let s = rule_Var(ts, s);
        let s = st_close(s, m_marker, SyntaxKind::VarOrIri);
        s
    } else if (peek_at(ts, s.pos) == SyntaxKind::IRIREF || peek_at(ts, s.pos) == SyntaxKind::PNAME_NS || peek_at(ts, s.pos) == SyntaxKind::PNAME_LN) {
        let s = rule_iri(ts, s);
        let s = st_close(s, m_marker, SyntaxKind::VarOrIri);
        s
    } else if (peek_at(ts, s.pos) == SyntaxKind::Eof) {
        let s = st_close(s, m_marker, SyntaxKind::VarOrIri);
        let m_marker = s.evs.len() as int;
        let s = st_open(s);
        let s = st_close(s, m_marker, SyntaxKind::Error);
        s
    } else {
        let s = st_advance_with_error(ts, s, seq![SyntaxKind::VAR1, SyntaxKind::VAR2, SyntaxKind::IRIREF, SyntaxKind::PNAME_NS, SyntaxKind::PNAME_LN]);
        let s = st_close(s, m_marker, SyntaxKind::VarOrIri);
        s
    }
}

/// [23] VarOrIri -> Var | iri
pub(crate) fn parse_VarOrIri(p: &mut Parser)
    requires
        old(p).wf(),
    ensures
        Parser::step(*old(p), *final(p)),
        final(p).pos == old(p).pos ==> is_sync_point(old(p).peek()),
        old(p).events@.len() < final(p).events@.len(),
        final(p).events@[old(p).events@.len() as int] == (Event::Open { kind: SyntaxKind::VarOrIri }),
        final(p).events@.last() is Close,
        final(p).st() == rule_VarOrIri(old(p).kinds(), old(p).st()),
    decreases old(p).remaining(), rank_VarOrIri(old(p).peek()), 1int,
{
    let ghost ks = p.kinds();
    let ghost s0 = p.st();
    let marker = p.open();
    match p.nth(0) {
        SyntaxKind::VAR1 | SyntaxKind::VAR2 => {
            parse_Var(p);
        },
        SyntaxKind::IRIREF | SyntaxKind::PNAME_NS | SyntaxKind::PNAME_LN => {
            parse_iri(p);
        },
        SyntaxKind::Eof => {
            p.close(marker, SyntaxKind::VarOrIri);
            let marker = p.open();
            p.close(marker, SyntaxKind::Error);
            proof {
                assert(p.st() == rule_VarOrIri(ks, s0)) by {
                    reveal(rule_VarOrIri);
                    reveal(Parser::st);
                }
            }
            return ;
        },
        _ => {
            p.advance_with_error(vec![SyntaxKind::VAR1, SyntaxKind::VAR2, SyntaxKind::IRIREF, SyntaxKind::PNAME_NS, SyntaxKind::PNAME_LN]);
        },
    }
    p.close(marker, SyntaxKind::VarOrIri);
    proof {
        assert(p.st() == rule_VarOrIri(ks, s0)) by {
            reveal(rule_VarOrIri);
            reveal(Parser::st);
        }
    }
}

pub open spec fn rank_DefaultGraphClause(t: SyntaxKind) -> nat {
    match t {
        SyntaxKind::PNAME_LN | SyntaxKind::PNAME_NS => 3,
        _ => 2,
    }
}

/// What [`parse_DefaultGraphClause`] makes of the parser state.
#[verifier::opaque]
pub open spec fn rule_DefaultGraphClause(ts: Seq<SyntaxKind>, s: St) -> St {
    let m_marker = s.evs.len() as int;
    let s = st_open(s);
    let s = rule_SourceSelector(ts, s);
    let s = st_close(s, m_marker, SyntaxKind::DefaultGraphClause);
    s
}

/// [24] DefaultGraphClause -> SourceSelector
pub(crate) fn parse_DefaultGraphClause(p: &mut Parser)
    requires
        old(p).wf(),
    ensures
        Parser::step(*old(p), *final(p)),
        final(p).pos == old(p).pos ==> is_sync_point(old(p).peek()),
        old(p).events@.len() < final(p).events@.len(),
        final(p).events@[old(p).events@.len() as int] == (Event::Open { kind: SyntaxKind::DefaultGraphClause }),
        final(p).events@.last() is Close,
        final(p).st() == rule_DefaultGraphClause(old(p).kinds(), old(p).st()),
    decreases old(p).remaining(), rank_DefaultGraphClause(old(p).peek()), 1int,
{
    let ghost ks = p.kinds();
    let ghost s0 = p.st();
    let marker = p.open();
    parse_SourceSelector(p);
    p.close(marker, SyntaxKind::DefaultGraphClause);
    proof {
        assert(p.st() == rule_DefaultGraphClause(ks, s0)) by {
            reveal(rule_DefaultGraphClause);
            reveal(Parser::st);
        }
    }
}

pub open spec fn rank_NamedGraphClause(t: SyntaxKind) -> nat {
    match t {
        SyntaxKind::NAMED => 0,
        SyntaxKind::PNAME_LN | SyntaxKind::PNAME_NS => 3,
        _ => 2,
    }
}

/// What [`parse_NamedGraphClause`] makes of the parser state.
#[verifier::opaque]
pub open spec fn rule_NamedGraphClause(ts: Seq<SyntaxKind>, s: St) -> St {
    let m_marker = s.evs.len() as int;
    let s = st_open(s);
    let s = st_expect(ts, s, SyntaxKind::NAMED);
    let s = rule_SourceSelector(ts, s);
    let s = st_close(s, m_marker, SyntaxKind::NamedGraphClause);
    s
}

/// [25] NamedGraphClause -> 'NAMED' SourceSelector
pub(crate) fn parse_NamedGraphClause(p: &mut Parser)
    requires
        old(p).wf(),
    ensures
        Parser::step(*old(p), *final(p)),
        final(p).pos == old(p).pos ==> is_sync_point(old(p).peek()),
        old(p).events@.len() < final(p).events@.len(),
        final(p).events@[old(p).events@.len() as int] == (Event::Open { kind: SyntaxKind::NamedGraphClause }),
        final(p).events@.last() is Close,
        final(p).st() == rule_NamedGraphClause(old(p).kinds(), old(p).st()),
    decreases old(p).remaining(), rank_NamedGraphClause(old(p).peek()), 1int,
{
    let ghost ks = p.kinds();
    let ghost s0 = p.st();
    let marker = p.open();
    p.expect(SyntaxKind::NAMED);
    parse_SourceSelector(p);
    p.close(marker, SyntaxKind::NamedGraphClause);
    proof {
        assert(p.st() == rule_NamedGraphClause(ks, s0)) by {
            reveal(rule_NamedGraphClause);
            reveal(Parser::st);
        }
    }
}

pub open spec fn rank_SourceSelector(t: SyntaxKind) -> nat {
    match t {
        SyntaxKind::PNAME_LN | SyntaxKind::PNAME_NS => 2,
        _ => 1,
    }
}

/// What [`parse_SourceSelector`] makes of the parser state.
#[verifier::opaque]
pub open spec fn rule_SourceSelector(ts: Seq<SyntaxKind>, s: St) -> St {
    let m_marker = s.evs.len() as int;
    let s = st_open(s);
    let s = rule_iri(ts, s);
    let s = st_close(s, m_marker, SyntaxKind::SourceSelector);
    s
}

/// [26] SourceSelector -> iri
pub(crate) fn parse_SourceSelector(p: &mut Parser)
    requires
        old(p).wf(),
    ensures
        Parser::step(*old(p), *final(p)),
        final(p).pos == old(p).pos ==> is_sync_point(old(p).peek()),
        old(p).events@.len() < final(p).events@.len(),
        final(p).events@[old(p).events@.len() as int] == (Event::Open { kind: SyntaxKind::SourceSelector }),
        final(p).events@.last() is Close,
        final(p).st() == rule_SourceSelector(old(p).kinds(), old(p).st()),
    decreases old(p).remaining(), rank_SourceSelector(old(p).peek()), 1int,
{
    let ghost ks = p.kinds();
    let ghost s0 = p.st();
    let marker = p.open();
    parse_iri(p);
    p.close(marker, SyntaxKind::SourceSelector);
    proof {
        assert(p.st() == rule_SourceSelector(ks, s0)) by {
            reveal(rule_SourceSelector);
            reveal(Parser::st);
        }
    }
}

pub open spec fn rank_iri(t: SyntaxKind) -> nat {
    match t {
        SyntaxKind::PNAME_LN | SyntaxKind::PNAME_NS => 1,
        _ => 0,
    }
}

/// What [`parse_iri`] makes of the parser state.
#[verifier::opaque]
pub open spec fn rule_iri(ts: Seq<SyntaxKind>, s: St) -> St {
    let m_marker = s.evs.len() as int;
    let s = st_open(s);
    if (peek_at(ts, s.pos) == SyntaxKind::IRIREF) {
        let s = st_expect(ts, s, SyntaxKind::IRIREF);
        let s = st_close(s, m_marker, SyntaxKind::iri);
        s
    } else if (peek_at(ts, s.pos) == SyntaxKind::PNAME_NS || peek_at(ts, s.pos) == SyntaxKind::PNAME_LN) {
        let s = rule_PrefixedName(ts, s);
        let s = st_close(s, m_marker, SyntaxKind::iri);
        s
    } else if (peek_at(ts, s.pos) == SyntaxKind::Eof) {
        let s = st_close(s, m_marker, SyntaxKind::iri);
        let m_marker = s.evs.len() as int;
        let s = st_open(s);
        let s = st_close(s, m_marker, SyntaxKind::Error);
        s
    } else {
        let s = st_advance_with_error(ts, s, seq![SyntaxKind::IRIREF, SyntaxKind::PNAME_NS, SyntaxKind::PNAME_LN]);
        let s = st_close(s, m_marker, SyntaxKind::iri);
        s
    }
}

/// [27] iri -> 'IRIREF' | PrefixedName
pub(crate) fn parse_iri(p: &mut Parser)
    requires
        old(p).wf(),
    ensures
        Parser::step(*old(p), *final(p)),
        final(p).pos == old(p).pos ==> is_sync_point(old(p).peek()),
        old(p).events@.len() < final(p).events@.len(),
        final(p).events@[old(p).events@.len() as int] == (Event::Open { kind: SyntaxKind::iri }),
        final(p).events@.last() is Close,
        final(p).st() == rule_iri(old(p).kinds(), old(p).st()),
    decreases old(p).remaining(), rank_iri(old(p).peek()), 1int,
{
    let ghost ks = p.kinds();
    let ghost s0 = p.st();
    let marker = p.open();
    match p.nth(0) {
        SyntaxKind::IRIREF => {
            p.expect(SyntaxKind::IRIREF);
        },
        SyntaxKind::PNAME_NS | SyntaxKind::PNAME_LN => {
            parse_PrefixedName(p);
        },
        SyntaxKind::Eof => {
            p.close(marker, SyntaxKind::iri);
            let marker = p.open();
            p.close(marker, SyntaxKind::Error);
            proof {
                assert(p.st() == rule_iri(ks, s0)) by {
                    reveal(rule_iri);
                    reveal(Parser::st);
                }
            }
            return ;
        },
        _ => {
            p.advance_with_error(vec![SyntaxKind::IRIREF, SyntaxKind::PNAME_NS, SyntaxKind::PNAME_LN]);
        },
    }
    p.close(marker, SyntaxKind::iri);
    proof {
        assert(p.st() == rule_iri(ks, s0)) by {
            reveal(rule_iri);
            reveal(Parser::st);
        }
    }
}

pub open spec fn rank_GroupGraphPattern(t: SyntaxKind) -> nat {
    match t {
        SyntaxKind::SELECT => 2,
        SyntaxKind::BIND | SyntaxKind::FILTER | SyntaxKind::GRAPH | SyntaxKind::MINUS | SyntaxKind::OPTIONAL | SyntaxKind::SERVICE | SyntaxKind::VALUES => 3,
        SyntaxKind::NIL => 4,
        SyntaxKind::ANON | SyntaxKind::BLANK_NODE_LABEL | SyntaxKind::DoubleLess | SyntaxKind::DoubleLessLParen | SyntaxKind::False | SyntaxKind::IRIREF | SyntaxKind::LBrack | SyntaxKind::LParen | SyntaxKind::True | SyntaxKind::VAR1 | SyntaxKind::VAR2 => 5,
        SyntaxKind::DECIMAL | SyntaxKind::DECIMAL_NEGATIVE | SyntaxKind::DECIMAL_POSITIVE | SyntaxKind::DOUBLE | SyntaxKind::DOUBLE_NEGATIVE | SyntaxKind::DOUBLE_POSITIVE | SyntaxKind::INTEGER | SyntaxKind::INTEGER_NEGATIVE | SyntaxKind::INTEGER_POSITIVE | SyntaxKind::PNAME_LN | SyntaxKind::PNAME_NS | SyntaxKind::STRING_LITERAL1 | SyntaxKind::STRING_LITERAL2 | SyntaxKind::STRING_LITERAL_LONG1 | SyntaxKind::STRING_LITERAL_LONG2 => 6,
        _ => 0,
    }
}

/// What [`parse_GroupGraphPattern`] makes of the parser state.
#[verifier::opaque]
pub open spec fn rule_GroupGraphPattern(ts: Seq<SyntaxKind>, s: St) -> St
    decreases ts.len() - s.pos, rank_GroupGraphPattern(peek_at(ts, s.pos)), 32 * (ts.len() - s.pos) + 32,
{
    let start = s.pos;
    let s_in = s;
    let m_marker = s.evs.len() as int;
    let s = st_open(s);
    let s = st_expect(ts, s, SyntaxKind::LCurly);
    let (s, r) = if s_in.pos <= s.pos <= ts.len() {
        match_GroupGraphPattern_1(ts, start, m_marker, s)
    } else {
        (s, false)
    };
    if r {
        s
    } else {
        let s = if s_in.pos <= s.pos <= ts.len() {
            if_GroupGraphPattern_2(ts, start, m_marker, s)
        } else {
            s
        };
        let s = st_expect(ts, s, SyntaxKind::RCurly);
        let s = st_close(s, m_marker, SyntaxKind::GroupGraphPattern);
        s
    }
}

#[verifier::opaque]
pub open spec fn match_GroupGraphPattern_1(ts: Seq<SyntaxKind>, start: int, m_marker: int, s: St) -> (St, bool)
    decreases ts.len() - start, rank_GroupGraphPattern(peek_at(ts, start)), 32 * (ts.len() - s.pos) + 32 - 1,
{
    let s_in = s;
    if (peek_at(ts, s.pos) == SyntaxKind::SELECT) {
        let s = if call_ok(ts, start, s, rank_SubSelect(peek_at(ts, s.pos)), rank_GroupGraphPattern(peek_at(ts, start))) {
            rule_SubSelect(ts, s)
        } else {
            s
        };
        (s, false)
    } else if (peek_at(ts, s.pos) == SyntaxKind::IRIREF || peek_at(ts, s.pos) == SyntaxKind::PNAME_NS || peek_at(ts, s.pos) == SyntaxKind::STRING_LITERAL1 || peek_at(ts, s.pos) == SyntaxKind::STRING_LITERAL2 || peek_at(ts, s.pos) == SyntaxKind::LParen || peek_at(ts, s.pos) == SyntaxKind::LCurly || peek_at(ts, s.pos) == SyntaxKind::INTEGER || peek_at(ts, s.pos) == SyntaxKind::VALUES || peek_at(ts, s.pos) == SyntaxKind::GRAPH || peek_at(ts, s.pos) == SyntaxKind::OPTIONAL || peek_at(ts, s.pos) == SyntaxKind::SERVICE || peek_at(ts, s.pos) == SyntaxKind::BIND || peek_at(ts, s.pos) == SyntaxKind::NIL || peek_at(ts, s.pos) == SyntaxKind::MINUS || peek_at(ts, s.pos) == SyntaxKind::FILTER || peek_at(ts, s.pos) == SyntaxKind::LBrack || peek_at(ts, s.pos) == SyntaxKind::DoubleLess || peek_at(ts, s.pos) == SyntaxKind::DoubleLessLParen || peek_at(ts, s.pos) == SyntaxKind::VAR1 || peek_at(ts, s.pos) == SyntaxKind::VAR2 || peek_at(ts, s.pos) == SyntaxKind::DECIMAL || peek_at(ts, s.pos) == SyntaxKind::DOUBLE || peek_at(ts, s.pos) == SyntaxKind::INTEGER_POSITIVE || peek_at(ts, s.pos) == SyntaxKind::DECIMAL_POSITIVE || peek_at(ts, s.pos) == SyntaxKind::DOUBLE_POSITIVE || peek_at(ts, s.pos) == SyntaxKind::INTEGER_NEGATIVE || peek_at(ts, s.pos) == SyntaxKind::DECIMAL_NEGATIVE || peek_at(ts, s.pos) == SyntaxKind::DOUBLE_NEGATIVE || peek_at(ts, s.pos) == SyntaxKind::True || peek_at(ts, s.pos) == SyntaxKind::False || peek_at(ts, s.pos) == SyntaxKind::STRING_LITERAL_LONG1 || peek_at(ts, s.pos) == SyntaxKind::STRING_LITERAL_LONG2 || peek_at(ts, s.pos) == SyntaxKind::PNAME_LN || peek_at(ts, s.pos) == SyntaxKind::BLANK_NODE_LABEL || peek_at(ts, s.pos) == SyntaxKind::ANON) {
        let s = if call_ok(ts, start, s, rank_GroupGraphPatternSub(peek_at(ts, s.pos)), rank_GroupGraphPattern(peek_at(ts, start))) {
            rule_GroupGraphPatternSub(ts, s)
        } else {
            s
        };
        (s, false)
    } else if (peek_at(ts, s.pos) == SyntaxKind::Eof) {
        let s = st_close(s, m_marker, SyntaxKind::GroupGraphPattern);
        let m_marker = s.evs.len() as int;
        let s = st_open(s);
        let s = st_close(s, m_marker, SyntaxKind::Error);
        (s, true)
    } else {
        (s, false)
    }
}

#[verifier::opaque]
pub open spec fn if_GroupGraphPattern_2(ts: Seq<SyntaxKind>, start: int, m_marker: int, s: St) -> St
    decreases ts.len() - start, rank_GroupGraphPattern(peek_at(ts, start)), 32 * (ts.len() - s.pos) + 32 - 1,
{
    let s_in = s;
    if (!(peek_at(ts, s.pos) == SyntaxKind::RCurly) && s.pos != ts.len()) {
        let s = st_error_until(ts, s, seq![SyntaxKind::RCurly], seq![SyntaxKind::RCurly]);
        s
    } else {
        s
    }
}

/// [28] GroupGraphPattern -> '{' (SubSelect | GroupGraphPatternSub) '}'
pub(crate) fn parse_GroupGraphPattern(p: &mut Parser)
    requires
        old(p).wf(),
    ensures
        Parser::step(*old(p), *final(p)),
        final(p).pos == old(p).pos ==> (old(p).peek() == SyntaxKind::Eof),
        old(p).events@.len() < final(p).events@.len(),
        final(p).events@[old(p).events@.len() as int] == (Event::Open { kind: SyntaxKind::GroupGraphPattern }),
        final(p).events@.last() is Close,
        final(p).st() == rule_GroupGraphPattern(old(p).kinds(), old(p).st()),
    decreases old(p).remaining(), rank_GroupGraphPattern(old(p).peek()), 1int,
{
    let ghost ks = p.kinds();
    let ghost s0 = p.st();
    let ghost start = p.pos as int;
    let marker = p.open();
    let ghost gm1 = marker.index as int;
    p.expect(SyntaxKind::LCurly);
    let ghost pre1 = p.st();
    match p.nth(0) {
        SyntaxKind::SELECT => {
            proof {
                assert(call_ok(ks, start, p.st(), rank_SubSelect(peek_at(ks, p.st().pos)), rank_GroupGraphPattern(peek_at(ks, start)))) by {
                    reveal(Parser::st);
                    assert(peek_at(ks, start) == old(p).peek());
                    assert(peek_at(ks, p.pos as int) == p.peek());
                }
            }
            parse_SubSelect(p);
            proof {
                assert(match_GroupGraphPattern_1(ks, start, gm1, pre1) == (p.st(), false)) by {
                    reveal_with_fuel(match_GroupGraphPattern_1, 1); reveal_with_fuel(rule_SubSelect, 1);
                }
            }
        },
        SyntaxKind::IRIREF | SyntaxKind::PNAME_NS | SyntaxKind::STRING_LITERAL1 | SyntaxKind::STRING_LITERAL2 | SyntaxKind::LParen | SyntaxKind::LCurly | SyntaxKind::INTEGER | SyntaxKind::VALUES | SyntaxKind::GRAPH | SyntaxKind::OPTIONAL | SyntaxKind::SERVICE | SyntaxKind::BIND | SyntaxKind::NIL | SyntaxKind::MINUS | SyntaxKind::FILTER | SyntaxKind::LBrack | SyntaxKind::DoubleLess | SyntaxKind::DoubleLessLParen | SyntaxKind::VAR1 | SyntaxKind::VAR2 | SyntaxKind::DECIMAL | SyntaxKind::DOUBLE | SyntaxKind::INTEGER_POSITIVE | SyntaxKind::DECIMAL_POSITIVE | SyntaxKind::DOUBLE_POSITIVE | SyntaxKind::INTEGER_NEGATIVE | SyntaxKind::DECIMAL_NEGATIVE | SyntaxKind::DOUBLE_NEGATIVE | SyntaxKind::True | SyntaxKind::False | SyntaxKind::STRING_LITERAL_LONG1 | SyntaxKind::STRING_LITERAL_LONG2 | SyntaxKind::PNAME_LN | SyntaxKind::BLANK_NODE_LABEL | SyntaxKind::ANON => {
            proof {
                assert(call_ok(ks, start, p.st(), rank_GroupGraphPatternSub(peek_at(ks, p.st().pos)), rank_GroupGraphPattern(peek_at(ks, start)))) by {
                    reveal(Parser::st);
                    assert(peek_at(ks, start) == old(p).peek());
                    assert(peek_at(ks, p.pos as int) == p.peek());
                }
            }
            parse_GroupGraphPatternSub(p);
            proof {
                assert(match_GroupGraphPattern_1(ks, start, gm1, pre1) == (p.st(), false)) by {
                    reveal_with_fuel(match_GroupGraphPattern_1, 1); reveal_with_fuel(rule_GroupGraphPatternSub, 1);
                }
            }
        },
        SyntaxKind::Eof => {
            p.close(marker, SyntaxKind::GroupGraphPattern);
            let marker = p.open();
            let ghost gm2 = marker.index as int;
            p.close(marker, SyntaxKind::Error);
            proof {
                assert(match_GroupGraphPattern_1(ks, start, gm1, pre1) == (p.st(), true)) by {
                    reveal_with_fuel(match_GroupGraphPattern_1, 1);
                }
            }
            proof {
                assert(rule_GroupGraphPattern(ks, s0) == p.st()) by {
                    reveal_with_fuel(rule_GroupGraphPattern, 1); reveal_with_fuel(if_GroupGraphPattern_2, 1); reveal_with_fuel(match_GroupGraphPattern_1, 1);
                }
            }
            return ;
        },
        _ => {
            proof {
                assert(match_GroupGraphPattern_1(ks, start, gm1, pre1) == (p.st(), false)) by {
                    reveal_with_fuel(match_GroupGraphPattern_1, 1);
                }
            }
        },
    }
    let ghost pre2 = p.st();
    if !p.at_any(&[SyntaxKind::RCurly]) && !p.eof() {
        let expected3 = vec![SyntaxKind::RCurly];
        let recovery3 = vec![SyntaxKind::RCurly];
        proof {
            assert(expected3@ =~= seq![SyntaxKind::RCurly]);
            assert(recovery3@ =~= seq![SyntaxKind::RCurly]);
        }
        p.error_until(expected3, recovery3.as_slice());
        proof {
            assert(if_GroupGraphPattern_2(ks, start, gm1, pre2) == p.st()) by {
                reveal_with_fuel(if_GroupGraphPattern_2, 1);
            }
        }
    } else {
        proof {
            assert(if_GroupGraphPattern_2(ks, start, gm1, pre2) == p.st()) by {
                reveal_with_fuel(if_GroupGraphPattern_2, 1);
            }
        }
    }
    p.expect(SyntaxKind::RCurly);
    p.close(marker, SyntaxKind::GroupGraphPattern);
    proof {
        assert(rule_GroupGraphPattern(ks, s0) == p.st()) by {
            reveal_with_fuel(rule_GroupGraphPattern, 1); reveal_with_fuel(if_GroupGraphPattern_2, 1); reveal_with_fuel(match_GroupGraphPattern_1, 1);
        }
    }
}

pub open spec fn rank_GroupClause(t: SyntaxKind) -> nat {
    match t {
        SyntaxKind::BY | SyntaxKind::GROUP => 0,
        SyntaxKind::ABS | SyntaxKind::BNODE | SyntaxKind::BOUND | SyntaxKind::CEIL | SyntaxKind::COALESCE | SyntaxKind::CONCAT | SyntaxKind::CONTAINS | SyntaxKind::DATATYPE | SyntaxKind::DAY | SyntaxKind::ENCODE_FOR_URI | SyntaxKind::FLOOR | SyntaxKind::HOURS | SyntaxKind::IF | SyntaxKind::IRI | SyntaxKind::LANG | SyntaxKind::LANGDIR | SyntaxKind::LANGMATCHES | SyntaxKind::LCASE | SyntaxKind::MD5 | SyntaxKind::MINUTES | SyntaxKind::MONTH | SyntaxKind::NOW | SyntaxKind::OBJECT | SyntaxKind::PREDICATE | SyntaxKind::RAND | SyntaxKind::ROUND | SyntaxKind::SECONDS | SyntaxKind::SHA1 | SyntaxKind::SHA256 | SyntaxKind::SHA384 | SyntaxKind::SHA512 | SyntaxKind::STR | SyntaxKind::STRAFTER | SyntaxKind::STRBEFORE | SyntaxKind::STRDT | SyntaxKind::STRENDS | SyntaxKind::STRLANG | SyntaxKind::STRLANGDIR | SyntaxKind::STRLEN | SyntaxKind::STRSTARTS | SyntaxKind::STRUUID | SyntaxKind::SUBJECT | SyntaxKind::TIMEZONE | SyntaxKind::TRIPLE | SyntaxKind::TZ | SyntaxKind::UCASE | SyntaxKind::URI | SyntaxKind::UUID | SyntaxKind::VAR1 | SyntaxKind::VAR2 | SyntaxKind::YEAR | SyntaxKind::hasLANG | SyntaxKind::hasLANGDIR | SyntaxKind::isBLANK | SyntaxKind::isIRI | SyntaxKind::isLITERAL | SyntaxKind::isNUMERIC | SyntaxKind::isTRIPLE | SyntaxKind::isURI | SyntaxKind::sameTerm => 2,
        SyntaxKind::AVG | SyntaxKind::COUNT | SyntaxKind::EXISTS | SyntaxKind::GROUP_CONCAT | SyntaxKind::IRIREF | SyntaxKind::MAX | SyntaxKind::MIN | SyntaxKind::NOT | SyntaxKind::REGEX | SyntaxKind::REPLACE | SyntaxKind::SAMPLE | SyntaxKind::SUBSTR | SyntaxKind::SUM => 3,
        SyntaxKind::PNAME_LN | SyntaxKind::PNAME_NS => 4,
        _ => 1,
    }
}

/// What [`parse_GroupClause`] makes of the parser state.
#[verifier::opaque]
pub open spec fn rule_GroupClause(ts: Seq<SyntaxKind>, s: St) -> St
    decreases ts.len() - s.pos, rank_GroupClause(peek_at(ts, s.pos)), 32 * (ts.len() - s.pos) + 32,
{
    let start = s.pos;
    let s_in = s;
    let m_marker = s.evs.len() as int;
    let s = st_open(s);
    let s = st_expect(ts, s, SyntaxKind::GROUP);
    let s = st_expect(ts, s, SyntaxKind::BY);
    let s = if call_ok(ts, start, s, rank_GroupCondition(peek_at(ts, s.pos)), rank_GroupClause(peek_at(ts, start))) {
        rule_GroupCondition(ts, s)
    } else {
        s
    };
    let s = if s_in.pos <= s.pos <= ts.len() {
        loop_GroupClause_1(ts, start, m_marker, s)
    } else {
        s
    };
    let s = st_close(s, m_marker, SyntaxKind::GroupClause);
    s
}

#[verifier::opaque]
pub open spec fn loop_GroupClause_1(ts: Seq<SyntaxKind>, start: int, m_marker: int, s: St) -> St
    decreases ts.len() - start, rank_GroupClause(peek_at(ts, start)), 32 * (ts.len() - s.pos) + 32 - 1,
{
    let s_in = s;
    if (peek_at(ts, s.pos) == SyntaxKind::IRIREF || peek_at(ts, s.pos) == SyntaxKind::PNAME_NS || peek_at(ts, s.pos) == SyntaxKind::LParen || peek_at(ts, s.pos) == SyntaxKind::VAR1 || peek_at(ts, s.pos) == SyntaxKind::VAR2 || peek_at(ts, s.pos) == SyntaxKind::NOT || peek_at(ts, s.pos) == SyntaxKind::STR || peek_at(ts, s.pos) == SyntaxKind::LANG || peek_at(ts, s.pos) == SyntaxKind::LANGMATCHES || peek_at(ts, s.pos) == SyntaxKind::LANGDIR || peek_at(ts, s.pos) == SyntaxKind::DATATYPE || peek_at(ts, s.pos) == SyntaxKind::BOUND || peek_at(ts, s.pos) == SyntaxKind::IRI || peek_at(ts, s.pos) == SyntaxKind::URI || peek_at(ts, s.pos) == SyntaxKind::BNODE || peek_at(ts, s.pos) == SyntaxKind::RAND || peek_at(ts, s.pos) == SyntaxKind::ABS || peek_at(ts, s.pos) == SyntaxKind::CEIL || peek_at(ts, s.pos) == SyntaxKind::FLOOR || peek_at(ts, s.pos) == SyntaxKind::ROUND || peek_at(ts, s.pos) == SyntaxKind::CONCAT || peek_at(ts, s.pos) == SyntaxKind::STRLEN || peek_at(ts, s.pos) == SyntaxKind::UCASE || peek_at(ts, s.pos) == SyntaxKind::LCASE || peek_at(ts, s.pos) == SyntaxKind::ENCODE_FOR_URI || peek_at(ts, s.pos) == SyntaxKind::CONTAINS || peek_at(ts, s.pos) == SyntaxKind::STRSTARTS || peek_at(ts, s.pos) == SyntaxKind::STRENDS || peek_at(ts, s.pos) == SyntaxKind::STRBEFORE || peek_at(ts, s.pos) == SyntaxKind::STRAFTER || peek_at(ts, s.pos) == SyntaxKind::YEAR || peek_at(ts, s.pos) == SyntaxKind::MONTH || peek_at(ts, s.pos) == SyntaxKind::DAY || peek_at(ts, s.pos) == SyntaxKind::HOURS || peek_at(ts, s.pos) == SyntaxKind::MINUTES || peek_at(ts, s.pos) == SyntaxKind::SECONDS || peek_at(ts, s.pos) == SyntaxKind::TIMEZONE || peek_at(ts, s.pos) == SyntaxKind::TZ || peek_at(ts, s.pos) == SyntaxKind::NOW || peek_at(ts, s.pos) == SyntaxKind::UUID || peek_at(ts, s.pos) == SyntaxKind::STRUUID || peek_at(ts, s.pos) == SyntaxKind::MD5 || peek_at(ts, s.pos) == SyntaxKind::SHA1 || peek_at(ts, s.pos) == SyntaxKind::SHA256 || peek_at(ts, s.pos) == SyntaxKind::SHA384 || peek_at(ts, s.pos) == SyntaxKind::SHA512 || peek_at(ts, s.pos) == SyntaxKind::COALESCE || peek_at(ts, s.pos) == SyntaxKind::IF || peek_at(ts, s.pos) == SyntaxKind::STRLANG || peek_at(ts, s.pos) == SyntaxKind::STRLANGDIR || peek_at(ts, s.pos) == SyntaxKind::STRDT || peek_at(ts, s.pos) == SyntaxKind::sameTerm || peek_at(ts, s.pos) == SyntaxKind::isIRI || peek_at(ts, s.pos) == SyntaxKind::isURI || peek_at(ts, s.pos) == SyntaxKind::isBLANK || peek_at(ts, s.pos) == SyntaxKind::isLITERAL || peek_at(ts, s.pos) == SyntaxKind::isNUMERIC || peek_at(ts, s.pos) == SyntaxKind::hasLANG || peek_at(ts, s.pos) == SyntaxKind::hasLANGDIR || peek_at(ts, s.pos) == SyntaxKind::isTRIPLE || peek_at(ts, s.pos) == SyntaxKind::TRIPLE || peek_at(ts, s.pos) == SyntaxKind::SUBJECT || peek_at(ts, s.pos) == SyntaxKind::PREDICATE || peek_at(ts, s.pos) == SyntaxKind::OBJECT || peek_at(ts, s.pos) == SyntaxKind::REGEX || peek_at(ts, s.pos) == SyntaxKind::SUBSTR || peek_at(ts, s.pos) == SyntaxKind::REPLACE || peek_at(ts, s.pos) == SyntaxKind::EXISTS || peek_at(ts, s.pos) == SyntaxKind::COUNT || peek_at(ts, s.pos) == SyntaxKind::SUM || peek_at(ts, s.pos) == SyntaxKind::MIN || peek_at(ts, s.pos) == SyntaxKind::MAX || peek_at(ts, s.pos) == SyntaxKind::AVG || peek_at(ts, s.pos) == SyntaxKind::SAMPLE || peek_at(ts, s.pos) == SyntaxKind::GROUP_CONCAT || peek_at(ts, s.pos) == SyntaxKind::PNAME_LN) && s.pos <= ts.len() {
        let s1 = body_GroupClause_2(ts, start, m_marker, s);
        if s1.pos == s.pos {
            s1
        } else if s.pos < s1.pos <= ts.len() {
            loop_GroupClause_1(ts, start, m_marker, s1)
        } else {
            s1
        }
    } else {
        s
    }
}

#[verifier::opaque]
pub open spec fn body_GroupClause_2(ts: Seq<SyntaxKind>, start: int, m_marker: int, s: St) -> St
    decreases ts.len() - start, rank_GroupClause(peek_at(ts, start)), 32 * (ts.len() - s.pos) + 32 - 2,
{
    let s_in = s;
    let s = if call_ok(ts, start, s, rank_GroupCondition(peek_at(ts, s.pos)), rank_GroupClause(peek_at(ts, start))) {
        rule_GroupCondition(ts, s)
    } else {
        s
    };
    s
}

/// [29] GroupClause -> 'GROUP' 'BY' GroupCondition GroupCondition*
pub(crate) fn parse_GroupClause(p: &mut Parser)
    requires
        old(p).wf(),
    ensures
        Parser::step(*old(p), *final(p)),
        final(p).pos == old(p).pos ==> is_sync_point(old(p).peek()),
        old(p).events@.len() < final(p).events@.len(),
        final(p).events@[old(p).events@.len() as int] == (Event::Open { kind: SyntaxKind::GroupClause }),
        final(p).events@.last() is Close,
        final(p).st() == rule_GroupClause(old(p).kinds(), old(p).st()),
    decreases old(p).remaining(), rank_GroupClause(old(p).peek()), 1int,
{
    let ghost ks = p.kinds();
    let ghost s0 = p.st();
    let ghost start = p.pos as int;
    let marker = p.open();
    let ghost gm1 = marker.index as int;
    p.expect(SyntaxKind::GROUP);
    p.expect(SyntaxKind::BY);
    proof {
        assert(call_ok(ks, start, p.st(), rank_GroupCondition(peek_at(ks, p.st().pos)), rank_GroupClause(peek_at(ks, start)))) by {
            reveal(Parser::st);
            assert(peek_at(ks, start) == old(p).peek());
            assert(peek_at(ks, p.pos as int) == p.peek());
        }
    }
    parse_GroupCondition(p);
    let ghost pre1 = p.st();
    proof {
        assert(p.st().pos == p.pos as int) by {
            reveal(Parser::st);
        }
        if !(peek_at(ks, p.st().pos) == SyntaxKind::IRIREF || peek_at(ks, p.st().pos) == SyntaxKind::PNAME_NS || peek_at(ks, p.st().pos) == SyntaxKind::LParen || peek_at(ks, p.st().pos) == SyntaxKind::VAR1 || peek_at(ks, p.st().pos) == SyntaxKind::VAR2 || peek_at(ks, p.st().pos) == SyntaxKind::NOT || peek_at(ks, p.st().pos) == SyntaxKind::STR || peek_at(ks, p.st().pos) == SyntaxKind::LANG || peek_at(ks, p.st().pos) == SyntaxKind::LANGMATCHES || peek_at(ks, p.st().pos) == SyntaxKind::LANGDIR || peek_at(ks, p.st().pos) == SyntaxKind::DATATYPE || peek_at(ks, p.st().pos) == SyntaxKind::BOUND || peek_at(ks, p.st().pos) == SyntaxKind::IRI || peek_at(ks, p.st().pos) == SyntaxKind::URI || peek_at(ks, p.st().pos) == SyntaxKind::BNODE || peek_at(ks, p.st().pos) == SyntaxKind::RAND || peek_at(ks, p.st().pos) == SyntaxKind::ABS || peek_at(ks, p.st().pos) == SyntaxKind::CEIL || peek_at(ks, p.st().pos) == SyntaxKind::FLOOR || peek_at(ks, p.st().pos) == SyntaxKind::ROUND || peek_at(ks, p.st().pos) == SyntaxKind::CONCAT || peek_at(ks, p.st().pos) == SyntaxKind::STRLEN || peek_at(ks, p.st().pos) == SyntaxKind::UCASE || peek_at(ks, p.st().pos) == SyntaxKind::LCASE || peek_at(ks, p.st().pos) == SyntaxKind::ENCODE_FOR_URI || peek_at(ks, p.st().pos) == SyntaxKind::CONTAINS || peek_at(ks, p.st().pos) == SyntaxKind::STRSTARTS || peek_at(ks, p.st().pos) == SyntaxKind::STRENDS || peek_at(ks, p.st().pos) == SyntaxKind::STRBEFORE || peek_at(ks, p.st().pos) == SyntaxKind::STRAFTER || peek_at(ks, p.st().pos) == SyntaxKind::YEAR || peek_at(ks, p.st().pos) == SyntaxKind::MONTH || peek_at(ks, p.st().pos) == SyntaxKind::DAY || peek_at(ks, p.st().pos) == SyntaxKind::HOURS || peek_at(ks, p.st().pos) == SyntaxKind::MINUTES || peek_at(ks, p.st().pos) == SyntaxKind::SECONDS || peek_at(ks, p.st().pos) == SyntaxKind::TIMEZONE || peek_at(ks, p.st().pos) == SyntaxKind::TZ || peek_at(ks, p.st().pos) == SyntaxKind::NOW || peek_at(ks, p.st().pos) == SyntaxKind::UUID || peek_at(ks, p.st().pos) == SyntaxKind::STRUUID || peek_at(ks, p.st().pos) == SyntaxKind::MD5 || peek_at(ks, p.st().pos) == SyntaxKind::SHA1 || peek_at(ks, p.st().pos) == SyntaxKind::SHA256 || peek_at(ks, p.st().pos) == SyntaxKind::SHA384 || peek_at(ks, p.st().pos) == SyntaxKind::SHA512 || peek_at(ks, p.st().pos) == SyntaxKind::COALESCE || peek_at(ks, p.st().pos) == SyntaxKind::IF || peek_at(ks, p.st().pos) == SyntaxKind::STRLANG || peek_at(ks, p.st().pos) == SyntaxKind::STRLANGDIR || peek_at(ks, p.st().pos) == SyntaxKind::STRDT || peek_at(ks, p.st().pos) == SyntaxKind::sameTerm || peek_at(ks, p.st().pos) == SyntaxKind::isIRI || peek_at(ks, p.st().pos) == SyntaxKind::isURI || peek_at(ks, p.st().pos) == SyntaxKind::isBLANK || peek_at(ks, p.st().pos) == SyntaxKind::isLITERAL || peek_at(ks, p.st().pos) == SyntaxKind::isNUMERIC || peek_at(ks, p.st().pos) == SyntaxKind::hasLANG || peek_at(ks, p.st().pos) == SyntaxKind::hasLANGDIR || peek_at(ks, p.st().pos) == SyntaxKind::isTRIPLE || peek_at(ks, p.st().pos) == SyntaxKind::TRIPLE || peek_at(ks, p.st().pos) == SyntaxKind::SUBJECT || peek_at(ks, p.st().pos) == SyntaxKind::PREDICATE || peek_at(ks, p.st().pos) == SyntaxKind::OBJECT || peek_at(ks, p.st().pos) == SyntaxKind::REGEX || peek_at(ks, p.st().pos) == SyntaxKind::SUBSTR || peek_at(ks, p.st().pos) == SyntaxKind::REPLACE || peek_at(ks, p.st().pos) == SyntaxKind::EXISTS || peek_at(ks, p.st().pos) == SyntaxKind::COUNT || peek_at(ks, p.st().pos) == SyntaxKind::SUM || peek_at(ks, p.st().pos) == SyntaxKind::MIN || peek_at(ks, p.st().pos) == SyntaxKind::MAX || peek_at(ks, p.st().pos) == SyntaxKind::AVG || peek_at(ks, p.st().pos) == SyntaxKind::SAMPLE || peek_at(ks, p.st().pos) == SyntaxKind::GROUP_CONCAT || peek_at(ks, p.st().pos) == SyntaxKind::PNAME_LN) {
            assert(loop_GroupClause_1(ks, start, gm1, pre1) == pre1) by {
                reveal_with_fuel(loop_GroupClause_1, 1); reveal_with_fuel(body_GroupClause_2, 1);
            }
        }
    }
    while p.at_any(&[SyntaxKind::IRIREF, SyntaxKind::PNAME_NS, SyntaxKind::LParen, SyntaxKind::VAR1, SyntaxKind::VAR2, SyntaxKind::NOT, SyntaxKind::STR, SyntaxKind::LANG, SyntaxKind::LANGMATCHES, SyntaxKind::LANGDIR, SyntaxKind::DATATYPE, SyntaxKind::BOUND, SyntaxKind::IRI, SyntaxKind::URI, SyntaxKind::BNODE, SyntaxKind::RAND, SyntaxKind::ABS, SyntaxKind::CEIL, SyntaxKind::FLOOR, SyntaxKind::ROUND, SyntaxKind::CONCAT, SyntaxKind::STRLEN, SyntaxKind::UCASE, SyntaxKind::LCASE, SyntaxKind::ENCODE_FOR_URI, SyntaxKind::CONTAINS, SyntaxKind::STRSTARTS, SyntaxKind::STRENDS, SyntaxKind::STRBEFORE, SyntaxKind::STRAFTER, SyntaxKind::YEAR, SyntaxKind::MONTH, SyntaxKind::DAY, SyntaxKind::HOURS, SyntaxKind::MINUTES, SyntaxKind::SECONDS, SyntaxKind::TIMEZONE, SyntaxKind::TZ, SyntaxKind::NOW, SyntaxKind::UUID, SyntaxKind::STRUUID, SyntaxKind::MD5, SyntaxKind::SHA1, SyntaxKind::SHA256, SyntaxKind::SHA384, SyntaxKind::SHA512, SyntaxKind::COALESCE, SyntaxKind::IF, SyntaxKind::STRLANG, SyntaxKind::STRLANGDIR, SyntaxKind::STRDT, SyntaxKind::sameTerm, SyntaxKind::isIRI, SyntaxKind::isURI, SyntaxKind::isBLANK, SyntaxKind::isLITERAL, SyntaxKind::isNUMERIC, SyntaxKind::hasLANG, SyntaxKind::hasLANGDIR, SyntaxKind::isTRIPLE, SyntaxKind::TRIPLE, SyntaxKind::SUBJECT, SyntaxKind::PREDICATE, SyntaxKind::OBJECT, SyntaxKind::REGEX, SyntaxKind::SUBSTR, SyntaxKind::REPLACE, SyntaxKind::EXISTS, SyntaxKind::COUNT, SyntaxKind::SUM, SyntaxKind::MIN, SyntaxKind::MAX, SyntaxKind::AVG, SyntaxKind::SAMPLE, SyntaxKind::GROUP_CONCAT, SyntaxKind::PNAME_LN])
        invariant
            marker.index == old(p).events@.len(),
            p.wf(),
            p.tokens@ == old(p).tokens@,
            old(p).pos <= p.pos,
            p.stack() == old(p).stack().push(marker.index as int),
            p.pos == old(p).pos ==> is_sync_point(old(p).peek()),
            ks == p.kinds(),
            p.st().pos == p.pos as int,
            start == old(p).pos as int,
            gm1 == marker.index as int,
            pre1.pos <= p.pos,
            start <= pre1.pos,
            loop_GroupClause_1(ks, start, gm1, p.st()) == loop_GroupClause_1(ks, start, gm1, pre1),
            !(peek_at(ks, p.st().pos) == SyntaxKind::IRIREF || peek_at(ks, p.st().pos) == SyntaxKind::PNAME_NS || peek_at(ks, p.st().pos) == SyntaxKind::LParen || peek_at(ks, p.st().pos) == SyntaxKind::VAR1 || peek_at(ks, p.st().pos) == SyntaxKind::VAR2 || peek_at(ks, p.st().pos) == SyntaxKind::NOT || peek_at(ks, p.st().pos) == SyntaxKind::STR || peek_at(ks, p.st().pos) == SyntaxKind::LANG || peek_at(ks, p.st().pos) == SyntaxKind::LANGMATCHES || peek_at(ks, p.st().pos) == SyntaxKind::LANGDIR || peek_at(ks, p.st().pos) == SyntaxKind::DATATYPE || peek_at(ks, p.st().pos) == SyntaxKind::BOUND || peek_at(ks, p.st().pos) == SyntaxKind::IRI || peek_at(ks, p.st().pos) == SyntaxKind::URI || peek_at(ks, p.st().pos) == SyntaxKind::BNODE || peek_at(ks, p.st().pos) == SyntaxKind::RAND || peek_at(ks, p.st().pos) == SyntaxKind::ABS || peek_at(ks, p.st().pos) == SyntaxKind::CEIL || peek_at(ks, p.st().pos) == SyntaxKind::FLOOR || peek_at(ks, p.st().pos) == SyntaxKind::ROUND || peek_at(ks, p.st().pos) == SyntaxKind::CONCAT || peek_at(ks, p.st().pos) == SyntaxKind::STRLEN || peek_at(ks, p.st().pos) == SyntaxKind::UCASE || peek_at(ks, p.st().pos) == SyntaxKind::LCASE || peek_at(ks, p.st().pos) == SyntaxKind::ENCODE_FOR_URI || peek_at(ks, p.st().pos) == SyntaxKind::CONTAINS || peek_at(ks, p.st().pos) == SyntaxKind::STRSTARTS || peek_at(ks, p.st().pos) == SyntaxKind::STRENDS || peek_at(ks, p.st().pos) == SyntaxKind::STRBEFORE || peek_at(ks, p.st().pos) == SyntaxKind::STRAFTER || peek_at(ks, p.st().pos) == SyntaxKind::YEAR || peek_at(ks, p.st().pos) == SyntaxKind::MONTH || peek_at(ks, p.st().pos) == SyntaxKind::DAY || peek_at(ks, p.st().pos) == SyntaxKind::HOURS || peek_at(ks, p.st().pos) == SyntaxKind::MINUTES || peek_at(ks, p.st().pos) == SyntaxKind::SECONDS || peek_at(ks, p.st().pos) == SyntaxKind::TIMEZONE || peek_at(ks, p.st().pos) == SyntaxKind::TZ || peek_at(ks, p.st().pos) == SyntaxKind::NOW || peek_at(ks, p.st().pos) == SyntaxKind::UUID || peek_at(ks, p.st().pos) == SyntaxKind::STRUUID || peek_at(ks, p.st().pos) == SyntaxKind::MD5 || peek_at(ks, p.st().pos) == SyntaxKind::SHA1 || peek_at(ks, p.st().pos) == SyntaxKind::SHA256 || peek_at(ks, p.st().pos) == SyntaxKind::SHA384 || peek_at(ks, p.st().pos) == SyntaxKind::SHA512 || peek_at(ks, p.st().pos) == SyntaxKind::COALESCE || peek_at(ks, p.st().pos) == SyntaxKind::IF || peek_at(ks, p.st().pos) == SyntaxKind::STRLANG || peek_at(ks, p.st().pos) == SyntaxKind::STRLANGDIR || peek_at(ks, p.st().pos) == SyntaxKind::STRDT || peek_at(ks, p.st().pos) == SyntaxKind::sameTerm || peek_at(ks, p.st().pos) == SyntaxKind::isIRI || peek_at(ks, p.st().pos) == SyntaxKind::isURI || peek_at(ks, p.st().pos) == SyntaxKind::isBLANK || peek_at(ks, p.st().pos) == SyntaxKind::isLITERAL || peek_at(ks, p.st().pos) == SyntaxKind::isNUMERIC || peek_at(ks, p.st().pos) == SyntaxKind::hasLANG || peek_at(ks, p.st().pos) == SyntaxKind::hasLANGDIR || peek_at(ks, p.st().pos) == SyntaxKind::isTRIPLE || peek_at(ks, p.st().pos) == SyntaxKind::TRIPLE || peek_at(ks, p.st().pos) == SyntaxKind::SUBJECT || peek_at(ks, p.st().pos) == SyntaxKind::PREDICATE || peek_at(ks, p.st().pos) == SyntaxKind::OBJECT || peek_at(ks, p.st().pos) == SyntaxKind::REGEX || peek_at(ks, p.st().pos) == SyntaxKind::SUBSTR || peek_at(ks, p.st().pos) == SyntaxKind::REPLACE || peek_at(ks, p.st().pos) == SyntaxKind::EXISTS || peek_at(ks, p.st().pos) == SyntaxKind::COUNT || peek_at(ks, p.st().pos) == SyntaxKind::SUM || peek_at(ks, p.st().pos) == SyntaxKind::MIN || peek_at(ks, p.st().pos) == SyntaxKind::MAX || peek_at(ks, p.st().pos) == SyntaxKind::AVG || peek_at(ks, p.st().pos) == SyntaxKind::SAMPLE || peek_at(ks, p.st().pos) == SyntaxKind::GROUP_CONCAT || peek_at(ks, p.st().pos) == SyntaxKind::PNAME_LN) ==> loop_GroupClause_1(ks, start, gm1, p.st()) == p.st(),
        ensures
            loop_GroupClause_1(ks, start, gm1, pre1) == p.st(),
        decreases p.remaining(),
    {
        let ghost si1 = p.st();
        let checkpoint1 = p.pos();
        proof {
            assert(call_ok(ks, start, p.st(), rank_GroupCondition(peek_at(ks, p.st().pos)), rank_GroupClause(peek_at(ks, start)))) by {
                reveal(Parser::st);
                assert(peek_at(ks, start) == old(p).peek());
                assert(peek_at(ks, p.pos as int) == p.peek());
            }
        }
        parse_GroupCondition(p);
        proof {
            assert(body_GroupClause_2(ks, start, gm1, si1) == p.st()) by {
                reveal_with_fuel(body_GroupClause_2, 1); reveal_with_fuel(rule_GroupCondition, 1);
            }
        }
        if p.pos() == checkpoint1 {
            proof {
                assert(loop_GroupClause_1(ks, start, gm1, si1) == p.st()) by {
                    reveal_with_fuel(loop_GroupClause_1, 1); reveal_with_fuel(body_GroupClause_2, 1);
                }
            }
            break;
        }
        proof {
            assert(p.st().pos == p.pos as int) by {
                reveal(Parser::st);
            }
            assert(loop_GroupClause_1(ks, start, gm1, si1) == loop_GroupClause_1(ks, start, gm1, p.st())) by {
                reveal_with_fuel(loop_GroupClause_1, 1); reveal_with_fuel(body_GroupClause_2, 1);
                reveal(Parser::st);
            }
            if !(peek_at(ks, p.st().pos) == SyntaxKind::IRIREF || peek_at(ks, p.st().pos) == SyntaxKind::PNAME_NS || peek_at(ks, p.st().pos) == SyntaxKind::LParen || peek_at(ks, p.st().pos) == SyntaxKind::VAR1 || peek_at(ks, p.st().pos) == SyntaxKind::VAR2 || peek_at(ks, p.st().pos) == SyntaxKind::NOT || peek_at(ks, p.st().pos) == SyntaxKind::STR || peek_at(ks, p.st().pos) == SyntaxKind::LANG || peek_at(ks, p.st().pos) == SyntaxKind::LANGMATCHES || peek_at(ks, p.st().pos) == SyntaxKind::LANGDIR || peek_at(ks, p.st().pos) == SyntaxKind::DATATYPE || peek_at(ks, p.st().pos) == SyntaxKind::BOUND || peek_at(ks, p.st().pos) == SyntaxKind::IRI || peek_at(ks, p.st().pos) == SyntaxKind::URI || peek_at(ks, p.st().pos) == SyntaxKind::BNODE || peek_at(ks, p.st().pos) == SyntaxKind::RAND || peek_at(ks, p.st().pos) == SyntaxKind::ABS || peek_at(ks, p.st().pos) == SyntaxKind::CEIL || peek_at(ks, p.st().pos) == SyntaxKind::FLOOR || peek_at(ks, p.st().pos) == SyntaxKind::ROUND || peek_at(ks, p.st().pos) == SyntaxKind::CONCAT || peek_at(ks, p.st().pos) == SyntaxKind::STRLEN || peek_at(ks, p.st().pos) == SyntaxKind::UCASE || peek_at(ks, p.st().pos) == SyntaxKind::LCASE || peek_at(ks, p.st().pos) == SyntaxKind::ENCODE_FOR_URI || peek_at(ks, p.st().pos) == SyntaxKind::CONTAINS || peek_at(ks, p.st().pos) == SyntaxKind::STRSTARTS || peek_at(ks, p.st().pos) == SyntaxKind::STRENDS || peek_at(ks, p.st().pos) == SyntaxKind::STRBEFORE || peek_at(ks, p.st().pos) == SyntaxKind::STRAFTER || peek_at(ks, p.st().pos) == SyntaxKind::YEAR || peek_at(ks, p.st().pos) == SyntaxKind::MONTH || peek_at(ks, p.st().pos) == SyntaxKind::DAY || peek_at(ks, p.st().pos) == SyntaxKind::HOURS || peek_at(ks, p.st().pos) == SyntaxKind::MINUTES || peek_at(ks, p.st().pos) == SyntaxKind::SECONDS || peek_at(ks, p.st().pos) == SyntaxKind::TIMEZONE || peek_at(ks, p.st().pos) == SyntaxKind::TZ || peek_at(ks, p.st().pos) == SyntaxKind::NOW || peek_at(ks, p.st().pos) == SyntaxKind::UUID || peek_at(ks, p.st().pos) == SyntaxKind::STRUUID || peek_at(ks, p.st().pos) == SyntaxKind::MD5 || peek_at(ks, p.st().pos) == SyntaxKind::SHA1 || peek_at(ks, p.st().pos) == SyntaxKind::SHA256 || peek_at(ks, p.st().pos) == SyntaxKind::SHA384 || peek_at(ks, p.st().pos) == SyntaxKind::SHA512 || peek_at(ks, p.st().pos) == SyntaxKind::COALESCE || peek_at(ks, p.st().pos) == SyntaxKind::IF || peek_at(ks, p.st().pos) == SyntaxKind::STRLANG || peek_at(ks, p.st().pos) == SyntaxKind::STRLANGDIR || peek_at(ks, p.st().pos) == SyntaxKind::STRDT || peek_at(ks, p.st().pos) == SyntaxKind::sameTerm || peek_at(ks, p.st().pos) == SyntaxKind::isIRI || peek_at(ks, p.st().pos) == SyntaxKind::isURI || peek_at(ks, p.st().pos) == SyntaxKind::isBLANK || peek_at(ks, p.st().pos) == SyntaxKind::isLITERAL || peek_at(ks, p.st().pos) == SyntaxKind::isNUMERIC || peek_at(ks, p.st().pos) == SyntaxKind::hasLANG || peek_at(ks, p.st().pos) == SyntaxKind::hasLANGDIR || peek_at(ks, p.st().pos) == SyntaxKind::isTRIPLE || peek_at(ks, p.st().pos) == SyntaxKind::TRIPLE || peek_at(ks, p.st().pos) == SyntaxKind::SUBJECT || peek_at(ks, p.st().pos) == SyntaxKind::PREDICATE || peek_at(ks, p.st().pos) == SyntaxKind::OBJECT || peek_at(ks, p.st().pos) == SyntaxKind::REGEX || peek_at(ks, p.st().pos) == SyntaxKind::SUBSTR || peek_at(ks, p.st().pos) == SyntaxKind::REPLACE || peek_at(ks, p.st().pos) == SyntaxKind::EXISTS || peek_at(ks, p.st().pos) == SyntaxKind::COUNT || peek_at(ks, p.st().pos) == SyntaxKind::SUM || peek_at(ks, p.st().pos) == SyntaxKind::MIN || peek_at(ks, p.st().pos) == SyntaxKind::MAX || peek_at(ks, p.st().pos) == SyntaxKind::AVG || peek_at(ks, p.st().pos) == SyntaxKind::SAMPLE || peek_at(ks, p.st().pos) == SyntaxKind::GROUP_CONCAT || peek_at(ks, p.st().pos) == SyntaxKind::PNAME_LN) {
                assert(loop_GroupClause_1(ks, start, gm1, p.st()) == p.st()) by {
                    reveal_with_fuel(loop_GroupClause_1, 1); reveal_with_fuel(body_GroupClause_2, 1);
                }
            }
        }
    }
    p.close(marker, SyntaxKind::GroupClause);
    proof {
        assert(rule_GroupClause(ks, s0) == p.st()) by {
            reveal_with_fuel(rule_GroupClause, 1); reveal_with_fuel(loop_GroupClause_1, 1); reveal_with_fuel(rule_GroupCondition, 1);
        }
    }
}

pub open spec fn rank_HavingClause(t: SyntaxKind) -> nat {
    match t {
        SyntaxKind::HAVING => 0,
        SyntaxKind::ABS | SyntaxKind::BNODE | SyntaxKind::BOUND | SyntaxKind::CEIL | SyntaxKind::COALESCE | SyntaxKind::CONCAT | SyntaxKind::CONTAINS | SyntaxKind::DATATYPE | SyntaxKind::DAY | SyntaxKind::ENCODE_FOR_URI | SyntaxKind::FLOOR | SyntaxKind::HOURS | SyntaxKind::IF | SyntaxKind::IRI | SyntaxKind::LANG | SyntaxKind::LANGDIR | SyntaxKind::LANGMATCHES | SyntaxKind::LCASE | SyntaxKind::LParen | SyntaxKind::MD5 | SyntaxKind::MINUTES | SyntaxKind::MONTH | SyntaxKind::NOW | SyntaxKind::OBJECT | SyntaxKind::PREDICATE | SyntaxKind::RAND | SyntaxKind::ROUND | SyntaxKind::SECONDS | SyntaxKind::SHA1 | SyntaxKind::SHA256 | SyntaxKind::SHA384 | SyntaxKind::SHA512 | SyntaxKind::STR | SyntaxKind::STRAFTER | SyntaxKind::STRBEFORE | SyntaxKind::STRDT | SyntaxKind::STRENDS | SyntaxKind::STRLANG | SyntaxKind::STRLANGDIR | SyntaxKind::STRLEN | SyntaxKind::STRSTARTS | SyntaxKind::STRUUID | SyntaxKind::SUBJECT | SyntaxKind::TIMEZONE | SyntaxKind::TRIPLE | SyntaxKind::TZ | SyntaxKind::UCASE | SyntaxKind::URI | SyntaxKind::UUID | SyntaxKind::YEAR | SyntaxKind::hasLANG | SyntaxKind::hasLANGDIR | SyntaxKind::isBLANK | SyntaxKind::isIRI | SyntaxKind::isLITERAL | SyntaxKind::isNUMERIC | SyntaxKind::isTRIPLE | SyntaxKind::isURI | SyntaxKind::sameTerm => 3,
        SyntaxKind::AVG | SyntaxKind::COUNT | SyntaxKind::EXISTS | SyntaxKind::GROUP_CONCAT | SyntaxKind::IRIREF | SyntaxKind::MAX | SyntaxKind::MIN | SyntaxKind::NOT | SyntaxKind::REGEX | SyntaxKind::REPLACE | SyntaxKind::SAMPLE | SyntaxKind::SUBSTR | SyntaxKind::SUM => 4,
        SyntaxKind::PNAME_LN | SyntaxKind::PNAME_NS => 5,
        _ => 2,
    }
}

/// What [`parse_HavingClause`] makes of the parser state.
#[verifier::opaque]
pub open spec fn rule_HavingClause(ts: Seq<SyntaxKind>, s: St) -> St
    decreases ts.len() - s.pos, rank_HavingClause(peek_at(ts, s.pos)), 32 * (ts.len() - s.pos) + 32,
{
    let start = s.pos;
    let s_in = s;
    let m_marker = s.evs.len() as int;
    let s = st_open(s);
    let s = st_expect(ts, s, SyntaxKind::HAVING);
    let s = if call_ok(ts, start, s, rank_HavingCondition(peek_at(ts, s.pos)), rank_HavingClause(peek_at(ts, start))) {
        rule_HavingCondition(ts, s)
    } else {
        s
    };
    let s = if s_in.pos <= s.pos <= ts.len() {
        loop_HavingClause_1(ts, start, m_marker, s)
    } else {
        s
    };
    let s = st_close(s, m_marker, SyntaxKind::HavingClause);
    s
}

#[verifier::opaque]
pub open spec fn loop_HavingClause_1(ts: Seq<SyntaxKind>, start: int, m_marker: int, s: St) -> St
    decreases ts.len() - start, rank_HavingClause(peek_at(ts, start)), 32 * (ts.len() - s.pos) + 32 - 1,
{
    let s_in = s;
    if (peek_at(ts, s.pos) == SyntaxKind::IRIREF || peek_at(ts, s.pos) == SyntaxKind::PNAME_NS || peek_at(ts, s.pos) == SyntaxKind::LParen || peek_at(ts, s.pos) == SyntaxKind::NOT || peek_at(ts, s.pos) == SyntaxKind::STR || peek_at(ts, s.pos) == SyntaxKind::LANG || peek_at(ts, s.pos) == SyntaxKind::LANGMATCHES || peek_at(ts, s.pos) == SyntaxKind::LANGDIR || peek_at(ts, s.pos) == SyntaxKind::DATATYPE || peek_at(ts, s.pos) == SyntaxKind::BOUND || peek_at(ts, s.pos) == SyntaxKind::IRI || peek_at(ts, s.pos) == SyntaxKind::URI || peek_at(ts, s.pos) == SyntaxKind::BNODE || peek_at(ts, s.pos) == SyntaxKind::RAND || peek_at(ts, s.pos) == SyntaxKind::ABS || peek_at(ts, s.pos) == SyntaxKind::CEIL || peek_at(ts, s.pos) == SyntaxKind::FLOOR || peek_at(ts, s.pos) == SyntaxKind::ROUND || peek_at(ts, s.pos) == SyntaxKind::CONCAT || peek_at(ts, s.pos) == SyntaxKind::STRLEN || peek_at(ts, s.pos) == SyntaxKind::UCASE || peek_at(ts, s.pos) == SyntaxKind::LCASE || peek_at(ts, s.pos) == SyntaxKind::ENCODE_FOR_URI || peek_at(ts, s.pos) == SyntaxKind::CONTAINS || peek_at(ts, s.pos) == SyntaxKind::STRSTARTS || peek_at(ts, s.pos) == SyntaxKind::STRENDS || peek_at(ts, s.pos) == SyntaxKind::STRBEFORE || peek_at(ts, s.pos) == SyntaxKind::STRAFTER || peek_at(ts, s.pos) == SyntaxKind::YEAR || peek_at(ts, s.pos) == SyntaxKind::MONTH || peek_at(ts, s.pos) == SyntaxKind::DAY || peek_at(ts, s.pos) == SyntaxKind::HOURS || peek_at(ts, s.pos) == SyntaxKind::MINUTES || peek_at(ts, s.pos) == SyntaxKind::SECONDS || peek_at(ts, s.pos) == SyntaxKind::TIMEZONE || peek_at(ts, s.pos) == SyntaxKind::TZ || peek_at(ts, s.pos) == SyntaxKind::NOW || peek_at(ts, s.pos) == SyntaxKind::UUID || peek_at(ts, s.pos) == SyntaxKind::STRUUID || peek_at(ts, s.pos) == SyntaxKind::MD5 || peek_at(ts, s.pos) == SyntaxKind::SHA1 || peek_at(ts, s.pos) == SyntaxKind::SHA256 || peek_at(ts, s.pos) == SyntaxKind::SHA384 || peek_at(ts, s.pos) == SyntaxKind::SHA512 || peek_at(ts, s.pos) == SyntaxKind::COALESCE || peek_at(ts, s.pos) == SyntaxKind::IF || peek_at(ts, s.pos) == SyntaxKind::STRLANG || peek_at(ts, s.pos) == SyntaxKind::STRLANGDIR || peek_at(ts, s.pos) == SyntaxKind::STRDT || peek_at(ts, s.pos) == SyntaxKind::sameTerm || peek_at(ts, s.pos) == SyntaxKind::isIRI || peek_at(ts, s.pos) == SyntaxKind::isURI || peek_at(ts, s.pos) == SyntaxKind::isBLANK || peek_at(ts, s.pos) == SyntaxKind::isLITERAL || peek_at(ts, s.pos) == SyntaxKind::isNUMERIC || peek_at(ts, s.pos) == SyntaxKind::hasLANG || peek_at(ts, s.pos) == SyntaxKind::hasLANGDIR || peek_at(ts, s.pos) == SyntaxKind::isTRIPLE || peek_at(ts, s.pos) == SyntaxKind::TRIPLE || peek_at(ts, s.pos) == SyntaxKind::SUBJECT || peek_at(ts, s.pos) == SyntaxKind::PREDICATE || peek_at(ts, s.pos) == SyntaxKind::OBJECT || peek_at(ts, s.pos) == SyntaxKind::REGEX || peek_at(ts, s.pos) == SyntaxKind::SUBSTR || peek_at(ts, s.pos) == SyntaxKind::REPLACE || peek_at(ts, s.pos) == SyntaxKind::EXISTS || peek_at(ts, s.pos) == SyntaxKind::COUNT || peek_at(ts, s.pos) == SyntaxKind::SUM || peek_at(ts, s.pos) == SyntaxKind::MIN || peek_at(ts, s.pos) == SyntaxKind::MAX || peek_at(ts, s.pos) == SyntaxKind::AVG || peek_at(ts, s.pos) == SyntaxKind::SAMPLE || peek_at(ts, s.pos) == SyntaxKind::GROUP_CONCAT || peek_at(ts, s.pos) == SyntaxKind::PNAME_LN) && s.pos <= ts.len() {
        let s1 = body_HavingClause_2(ts, start, m_marker, s);
        if s1.pos == s.pos {
            s1
        } else if s.pos < s1.pos <= ts.len() {
            loop_HavingClause_1(ts, start, m_marker, s1)
        } else {
            s1
        }
    } else {
        s
    }
}

#[verifier::opaque]
pub open spec fn body_HavingClause_2(ts: Seq<SyntaxKind>, start: int, m_marker: int, s: St) -> St
    decreases ts.len() - start, rank_HavingClause(peek_at(ts, start)), 32 * (ts.len() - s.pos) + 32 - 2,
{
    let s_in = s;
    let s = if call_ok(ts, start, s, rank_HavingCondition(peek_at(ts, s.pos)), rank_HavingClause(peek_at(ts, start))) {
        rule_HavingCondition(ts, s)
    } else {
        s
    };
    s
}

/// [30] HavingClause -> 'HAVING' HavingCondition HavingCondition*
pub(crate) fn parse_HavingClause(p: &mut Parser)
    requires
        old(p).wf(),
    ensures
        Parser::step(*old(p), *final(p)),
        final(p).pos == old(p).pos ==> is_sync_point(old(p).peek()),
        old(p).events@.len() < final(p).events@.len(),
        final(p).events@[old(p).events@.len() as int] == (Event::Open { kind: SyntaxKind::HavingClause }),
        final(p).events@.last() is Close,
        final(p).st() == rule_HavingClause(old(p).kinds(), old(p).st()),
    decreases old(p).remaining(), rank_HavingClause(old(p).peek()), 1int,
{
    let ghost ks = p.kinds();
    let ghost s0 = p.st();
    let ghost start = p.pos as int;
    let marker = p.open();
    let ghost gm1 = marker.index as int;
    p.expect(SyntaxKind::HAVING);
    proof {
        assert(call_ok(ks, start, p.st(), rank_HavingCondition(peek_at(ks, p.st().pos)), rank_HavingClause(peek_at(ks, start)))) by {
            reveal(Parser::st);
            assert(peek_at(ks, start) == old(p).peek());
            assert(peek_at(ks, p.pos as int) == p.peek());
        }
    }
    parse_HavingCondition(p);
    let ghost pre1 = p.st();
    proof {
        assert(p.st().pos == p.pos as int) by {
            reveal(Parser::st);
        }
        if !(peek_at(ks, p.st().pos) == SyntaxKind::IRIREF || peek_at(ks, p.st().pos) == SyntaxKind::PNAME_NS || peek_at(ks, p.st().pos) == SyntaxKind::LParen || peek_at(ks, p.st().pos) == SyntaxKind::NOT || peek_at(ks, p.st().pos) == SyntaxKind::STR || peek_at(ks, p.st().pos) == SyntaxKind::LANG || peek_at(ks, p.st().pos) == SyntaxKind::LANGMATCHES || peek_at(ks, p.st().pos) == SyntaxKind::LANGDIR || peek_at(ks, p.st().pos) == SyntaxKind::DATATYPE || peek_at(ks, p.st().pos) == SyntaxKind::BOUND || peek_at(ks, p.st().pos) == SyntaxKind::IRI || peek_at(ks, p.st().pos) == SyntaxKind::URI || peek_at(ks, p.st().pos) == SyntaxKind::BNODE || peek_at(ks, p.st().pos) == SyntaxKind::RAND || peek_at(ks, p.st().pos) == SyntaxKind::ABS || peek_at(ks, p.st().pos) == SyntaxKind::CEIL || peek_at(ks, p.st().pos) == SyntaxKind::FLOOR || peek_at(ks, p.st().pos) == SyntaxKind::ROUND || peek_at(ks, p.st().pos) == SyntaxKind::CONCAT || peek_at(ks, p.st().pos) == SyntaxKind::STRLEN || peek_at(ks, p.st().pos) == SyntaxKind::UCASE || peek_at(ks, p.st().pos) == SyntaxKind::LCASE || peek_at(ks, p.st().pos) == SyntaxKind::ENCODE_FOR_URI || peek_at(ks, p.st().pos) == SyntaxKind::CONTAINS || peek_at(ks, p.st().pos) == SyntaxKind::STRSTARTS || peek_at(ks, p.st().pos) == SyntaxKind::STRENDS || peek_at(ks, p.st().pos) == SyntaxKind::STRBEFORE || peek_at(ks, p.st().pos) == SyntaxKind::STRAFTER || peek_at(ks, p.st().pos) == SyntaxKind::YEAR || peek_at(ks, p.st().pos) == SyntaxKind::MONTH || peek_at(ks, p.st().pos) == SyntaxKind::DAY || peek_at(ks, p.st().pos) == SyntaxKind::HOURS || peek_at(ks, p.st().pos) == SyntaxKind::MINUTES || peek_at(ks, p.st().pos) == SyntaxKind::SECONDS || peek_at(ks, p.st().pos) == SyntaxKind::TIMEZONE || peek_at(ks, p.st().pos) == SyntaxKind::TZ || peek_at(ks, p.st().pos) == SyntaxKind::NOW || peek_at(ks, p.st().pos) == SyntaxKind::UUID || peek_at(ks, p.st().pos) == SyntaxKind::STRUUID || peek_at(ks, p.st().pos) == SyntaxKind::MD5 || peek_at(ks, p.st().pos) == SyntaxKind::SHA1 || peek_at(ks, p.st().pos) == SyntaxKind::SHA256 || peek_at(ks, p.st().pos) == SyntaxKind::SHA384 || peek_at(ks, p.st().pos) == SyntaxKind::SHA512 || peek_at(ks, p.st().pos) == SyntaxKind::COALESCE || peek_at(ks, p.st().pos) == SyntaxKind::IF || peek_at(ks, p.st().pos) == SyntaxKind::STRLANG || peek_at(ks, p.st().pos) == SyntaxKind::STRLANGDIR || peek_at(ks, p.st().pos) == SyntaxKind::STRDT || peek_at(ks, p.st().pos) == SyntaxKind::sameTerm || peek_at(ks, p.st().pos) == SyntaxKind::isIRI || peek_at(ks, p.st().pos) == SyntaxKind::isURI || peek_at(ks, p.st().pos) == SyntaxKind::isBLANK || peek_at(ks, p.st().pos) == SyntaxKind::isLITERAL || peek_at(ks, p.st().pos) == SyntaxKind::isNUMERIC || peek_at(ks, p.st().pos) == SyntaxKind::hasLANG || peek_at(ks, p.st().pos) == SyntaxKind::hasLANGDIR || peek_at(ks, p.st().pos) == SyntaxKind::isTRIPLE || peek_at(ks, p.st().pos) == SyntaxKind::TRIPLE || peek_at(ks, p.st().pos) == SyntaxKind::SUBJECT || peek_at(ks, p.st().pos) == SyntaxKind::PREDICATE || peek_at(ks, p.st().pos) == SyntaxKind::OBJECT || peek_at(ks, p.st().pos) == SyntaxKind::REGEX || peek_at(ks, p.st().pos) == SyntaxKind::SUBSTR || peek_at(ks, p.st().pos) == SyntaxKind::REPLACE || peek_at(ks, p.st().pos) == SyntaxKind::EXISTS || peek_at(ks, p.st().pos) == SyntaxKind::COUNT || peek_at(ks, p.st().pos) == SyntaxKind::SUM || peek_at(ks, p.st().pos) == SyntaxKind::MIN || peek_at(ks, p.st().pos) == SyntaxKind::MAX || peek_at(ks, p.st().pos) == SyntaxKind::AVG || peek_at(ks, p.st().pos) == SyntaxKind::SAMPLE || peek_at(ks, p.st().pos) == SyntaxKind::GROUP_CONCAT || peek_at(ks, p.st().pos) == SyntaxKind::PNAME_LN) {
            assert(loop_HavingClause_1(ks, start, gm1, pre1) == pre1) by {
                reveal_with_fuel(loop_HavingClause_1, 1); reveal_with_fuel(body_HavingClause_2, 1);
            }
        }
    }
    while p.at_any(&[SyntaxKind::IRIREF, SyntaxKind::PNAME_NS, SyntaxKind::LParen, SyntaxKind::NOT, SyntaxKind::STR, SyntaxKind::LANG, SyntaxKind::LANGMATCHES, SyntaxKind::LANGDIR, SyntaxKind::DATATYPE, SyntaxKind::BOUND, SyntaxKind::IRI, SyntaxKind::URI, SyntaxKind::BNODE, SyntaxKind::RAND, SyntaxKind::ABS, SyntaxKind::CEIL, SyntaxKind::FLOOR, SyntaxKind::ROUND, SyntaxKind::CONCAT, SyntaxKind::STRLEN, SyntaxKind::UCASE, SyntaxKind::LCASE, SyntaxKind::ENCODE_FOR_URI, SyntaxKind::CONTAINS, SyntaxKind::STRSTARTS, SyntaxKind::STRENDS, SyntaxKind::STRBEFORE, SyntaxKind::STRAFTER, SyntaxKind::YEAR, SyntaxKind::MONTH, SyntaxKind::DAY, SyntaxKind::HOURS, SyntaxKind::MINUTES, SyntaxKind::SECONDS, SyntaxKind::TIMEZONE, SyntaxKind::TZ, SyntaxKind::NOW, SyntaxKind::UUID, SyntaxKind::STRUUID, SyntaxKind::MD5, SyntaxKind::SHA1, SyntaxKind::SHA256, SyntaxKind::SHA384, SyntaxKind::SHA512, SyntaxKind::COALESCE, SyntaxKind::IF, SyntaxKind::STRLANG, SyntaxKind::STRLANGDIR, SyntaxKind::STRDT, SyntaxKind::sameTerm, SyntaxKind::isIRI, SyntaxKind::isURI, SyntaxKind::isBLANK, SyntaxKind::isLITERAL, SyntaxKind::isNUMERIC, SyntaxKind::hasLANG, SyntaxKind::hasLANGDIR, SyntaxKind::isTRIPLE, SyntaxKind::TRIPLE, SyntaxKind::SUBJECT, SyntaxKind::PREDICATE, SyntaxKind::OBJECT, SyntaxKind::REGEX, SyntaxKind::SUBSTR, SyntaxKind::REPLACE, SyntaxKind::EXISTS, SyntaxKind::COUNT, SyntaxKind::SUM, SyntaxKind::MIN, SyntaxKind::MAX, SyntaxKind::AVG, SyntaxKind::SAMPLE, SyntaxKind::GROUP_CONCAT, SyntaxKind::PNAME_LN])
        invariant
            marker.index == old(p).events@.len(),
            p.wf(),
            p.tokens@ == old(p).tokens@,
            old(p).pos <= p.pos,
            p.stack() == old(p).stack().push(marker.index as int),
            p.pos == old(p).pos ==> is_sync_point(old(p).peek()),
            ks == p.kinds(),
            p.st().pos == p.pos as int,
            start == old(p).pos as int,
            gm1 == marker.index as int,
            pre1.pos <= p.pos,
            start <= pre1.pos,
            loop_HavingClause_1(ks, start, gm1, p.st()) == loop_HavingClause_1(ks, start, gm1, pre1),
            !(peek_at(ks, p.st().pos) == SyntaxKind::IRIREF || peek_at(ks, p.st().pos) == SyntaxKind::PNAME_NS || peek_at(ks, p.st().pos) == SyntaxKind::LParen || peek_at(ks, p.st().pos) == SyntaxKind::NOT || peek_at(ks, p.st().pos) == SyntaxKind::STR || peek_at(ks, p.st().pos) == SyntaxKind::LANG || peek_at(ks, p.st().pos) == SyntaxKind::LANGMATCHES || peek_at(ks, p.st().pos) == SyntaxKind::LANGDIR || peek_at(ks, p.st().pos) == SyntaxKind::DATATYPE || peek_at(ks, p.st().pos) == SyntaxKind::BOUND || peek_at(ks, p.st().pos) == SyntaxKind::IRI || peek_at(ks, p.st().pos) == SyntaxKind::URI || peek_at(ks, p.st().pos) == SyntaxKind::BNODE || peek_at(ks, p.st().pos) == SyntaxKind::RAND || peek_at(ks, p.st().pos) == SyntaxKind::ABS || peek_at(ks, p.st().pos) == SyntaxKind::CEIL || peek_at(ks, p.st().pos) == SyntaxKind::FLOOR || peek_at(ks, p.st().pos) == SyntaxKind::ROUND || peek_at(ks, p.st().pos) == SyntaxKind::CONCAT || peek_at(ks, p.st().pos) == SyntaxKind::STRLEN || peek_at(ks, p.st().pos) == SyntaxKind::UCASE || peek_at(ks, p.st().pos) == SyntaxKind::LCASE || peek_at(ks, p.st().pos) == SyntaxKind::ENCODE_FOR_URI || peek_at(ks, p.st().pos) == SyntaxKind::CONTAINS || peek_at(ks, p.st().pos) == SyntaxKind::STRSTARTS || peek_at(ks, p.st().pos) == SyntaxKind::STRENDS || peek_at(ks, p.st().pos) == SyntaxKind::STRBEFORE || peek_at(ks, p.st().pos) == SyntaxKind::STRAFTER || peek_at(ks, p.st().pos) == SyntaxKind::YEAR || peek_at(ks, p.st().pos) == SyntaxKind::MONTH || peek_at(ks, p.st().pos) == SyntaxKind::DAY || peek_at(ks, p.st().pos) == SyntaxKind::HOURS || peek_at(ks, p.st().pos) == SyntaxKind::MINUTES || peek_at(ks, p.st().pos) == SyntaxKind::SECONDS || peek_at(ks, p.st().pos) == SyntaxKind::TIMEZONE || peek_at(ks, p.st().pos) == SyntaxKind::TZ || peek_at(ks, p.st().pos) == SyntaxKind::NOW || peek_at(ks, p.st().pos) == SyntaxKind::UUID || peek_at(ks, p.st().pos) == SyntaxKind::STRUUID || peek_at(ks, p.st().pos) == SyntaxKind::MD5 || peek_at(ks, p.st().pos) == SyntaxKind::SHA1 || peek_at(ks, p.st().pos) == SyntaxKind::SHA256 || peek_at(ks, p.st().pos) == SyntaxKind::SHA384 || peek_at(ks, p.st().pos) == SyntaxKind::SHA512 || peek_at(ks, p.st().pos) == SyntaxKind::COALESCE || peek_at(ks, p.st().pos) == SyntaxKind::IF || peek_at(ks, p.st().pos) == SyntaxKind::STRLANG || peek_at(ks, p.st().pos) == SyntaxKind::STRLANGDIR || peek_at(ks, p.st().pos) == SyntaxKind::STRDT || peek_at(ks, p.st().pos) == SyntaxKind::sameTerm || peek_at(ks, p.st().pos) == SyntaxKind::isIRI || peek_at(ks, p.st().pos) == SyntaxKind::isURI || peek_at(ks, p.st().pos) == SyntaxKind::isBLANK || peek_at(ks, p.st().pos) == SyntaxKind::isLITERAL || peek_at(ks, p.st().pos) == SyntaxKind::isNUMERIC || peek_at(ks, p.st().pos) == SyntaxKind::hasLANG || peek_at(ks, p.st().pos) == SyntaxKind::hasLANGDIR || peek_at(ks, p.st().pos) == SyntaxKind::isTRIPLE || peek_at(ks, p.st().pos) == SyntaxKind::TRIPLE || peek_at(ks, p.st().pos) == SyntaxKind::SUBJECT || peek_at(ks, p.st().pos) == SyntaxKind::PREDICATE || peek_at(ks, p.st().pos) == SyntaxKind::OBJECT || peek_at(ks, p.st().pos) == SyntaxKind::REGEX || peek_at(ks, p.st().pos) == SyntaxKind::SUBSTR || peek_at(ks, p.st().pos) == SyntaxKind::REPLACE || peek_at(ks, p.st().pos) == SyntaxKind::EXISTS || peek_at(ks, p.st().pos) == SyntaxKind::COUNT || peek_at(ks, p.st().pos) == SyntaxKind::SUM || peek_at(ks, p.st().pos) == SyntaxKind::MIN || peek_at(ks, p.st().pos) == SyntaxKind::MAX || peek_at(ks, p.st().pos) == SyntaxKind::AVG || peek_at(ks, p.st().pos) == SyntaxKind::SAMPLE || peek_at(ks, p.st().pos) == SyntaxKind::GROUP_CONCAT || peek_at(ks, p.st().pos) == SyntaxKind::PNAME_LN) ==> loop_HavingClause_1(ks, start, gm1, p.st()) == p.st(),
        ensures
            loop_HavingClause_1(ks, start, gm1, pre1) == p.st(),
        decreases p.remaining(),
    {
        let ghost si1 = p.st();
        let checkpoint1 = p.pos();
        proof {
            assert(call_ok(ks, start, p.st(), rank_HavingCondition(peek_at(ks, p.st().pos)), rank_HavingClause(peek_at(ks, start)))) by {
                reveal(Parser::st);
                assert(peek_at(ks, start) == old(p).peek());
                assert(peek_at(ks, p.pos as int) == p.peek());
            }
        }
        parse_HavingCondition(p);
        proof {
            assert(body_HavingClause_2(ks, start, gm1, si1) == p.st()) by {
                reveal_with_fuel(body_HavingClause_2, 1); reveal_with_fuel(rule_HavingCondition, 1);
            }
        }
        if p.pos() == checkpoint1 {
            proof {
                assert(loop_HavingClause_1(ks, start, gm1, si1) == p.st()) by {
                    reveal_with_fuel(loop_HavingClause_1, 1); reveal_with_fuel(body_HavingClause_2, 1);
                }
            }
            break;
        }
        proof {
            assert(p.st().pos == p.pos as int) by {
                reveal(Parser::st);
            }
            assert(loop_HavingClause_1(ks, start, gm1, si1) == loop_HavingClause_1(ks, start, gm1, p.st())) by {
                reveal_with_fuel(loop_HavingClause_1, 1); reveal_with_fuel(body_HavingClause_2, 1);
                reveal(Parser::st);
            }
            if !(peek_at(ks, p.st().pos) == SyntaxKind::IRIREF || peek_at(ks, p.st().pos) == SyntaxKind::PNAME_NS || peek_at(ks, p.st().pos) == SyntaxKind::LParen || peek_at(ks, p.st().pos) == SyntaxKind::NOT || peek_at(ks, p.st().pos) == SyntaxKind::STR || peek_at(ks, p.st().pos) == SyntaxKind::LANG || peek_at(ks, p.st().pos) == SyntaxKind::LANGMATCHES || peek_at(ks, p.st().pos) == SyntaxKind::LANGDIR || peek_at(ks, p.st().pos) == SyntaxKind::DATATYPE || peek_at(ks, p.st().pos) == SyntaxKind::BOUND || peek_at(ks, p.st().pos) == SyntaxKind::IRI || peek_at(ks, p.st().pos) == SyntaxKind::URI || peek_at(ks, p.st().pos) == SyntaxKind::BNODE || peek_at(ks, p.st().pos) == SyntaxKind::RAND || peek_at(ks, p.st().pos) == SyntaxKind::ABS || peek_at(ks, p.st().pos) == SyntaxKind::CEIL || peek_at(ks, p.st().pos) == SyntaxKind::FLOOR || peek_at(ks, p.st().pos) == SyntaxKind::ROUND || peek_at(ks, p.st().pos) == SyntaxKind::CONCAT || peek_at(ks, p.st().pos) == SyntaxKind::STRLEN || peek_at(ks, p.st().pos) == SyntaxKind::UCASE || peek_at(ks, p.st().pos) == SyntaxKind::LCASE || peek_at(ks, p.st().pos) == SyntaxKind::ENCODE_FOR_URI || peek_at(ks, p.st().pos) == SyntaxKind::CONTAINS || peek_at(ks, p.st().pos) == SyntaxKind::STRSTARTS || peek_at(ks, p.st().pos) == SyntaxKind::STRENDS || peek_at(ks, p.st().pos) == SyntaxKind::STRBEFORE || peek_at(ks, p.st().pos) == SyntaxKind::STRAFTER || peek_at(ks, p.st().pos) == SyntaxKind::YEAR || peek_at(ks, p.st().pos) == SyntaxKind::MONTH || peek_at(ks, p.st().pos) == SyntaxKind::DAY || peek_at(ks, p.st().pos) == SyntaxKind::HOURS || peek_at(ks, p.st().pos) == SyntaxKind::MINUTES || peek_at(ks, p.st().pos) == SyntaxKind::SECONDS || peek_at(ks, p.st().pos) == SyntaxKind::TIMEZONE || peek_at(ks, p.st().pos) == SyntaxKind::TZ || peek_at(ks, p.st().pos) == SyntaxKind::NOW || peek_at(ks, p.st().pos) == SyntaxKind::UUID || peek_at(ks, p.st().pos) == SyntaxKind::STRUUID || peek_at(ks, p.st().pos) == SyntaxKind::MD5 || peek_at(ks, p.st().pos) == SyntaxKind::SHA1 || peek_at(ks, p.st().pos) == SyntaxKind::SHA256 || peek_at(ks, p.st().pos) == SyntaxKind::SHA384 || peek_at(ks, p.st().pos) == SyntaxKind::SHA512 || peek_at(ks, p.st().pos) == SyntaxKind::COALESCE || peek_at(ks, p.st().pos) == SyntaxKind::IF || peek_at(ks, p.st().pos) == SyntaxKind::STRLANG || peek_at(ks, p.st().pos) == SyntaxKind::STRLANGDIR || peek_at(ks, p.st().pos) == SyntaxKind::STRDT || peek_at(ks, p.st().pos) == SyntaxKind::sameTerm || peek_at(ks, p.st().pos) == SyntaxKind::isIRI || peek_at(ks, p.st().pos) == SyntaxKind::isURI || peek_at(ks, p.st().pos) == SyntaxKind::isBLANK || peek_at(ks, p.st().pos) == SyntaxKind::isLITERAL || peek_at(ks, p.st().pos) == SyntaxKind::isNUMERIC || peek_at(ks, p.st().pos) == SyntaxKind::hasLANG || peek_at(ks, p.st().pos) == SyntaxKind::hasLANGDIR || peek_at(ks, p.st().pos) == SyntaxKind::isTRIPLE || peek_at(ks, p.st().pos) == SyntaxKind::TRIPLE || peek_at(ks, p.st().pos) == SyntaxKind::SUBJECT || peek_at(ks, p.st().pos) == SyntaxKind::PREDICATE || peek_at(ks, p.st().pos) == SyntaxKind::OBJECT || peek_at(ks, p.st().pos) == SyntaxKind::REGEX || peek_at(ks, p.st().pos) == SyntaxKind::SUBSTR || peek_at(ks, p.st().pos) == SyntaxKind::REPLACE || peek_at(ks, p.st().pos) == SyntaxKind::EXISTS || peek_at(ks, p.st().pos) == SyntaxKind::COUNT || peek_at(ks, p.st().pos) == SyntaxKind::SUM || peek_at(ks, p.st().pos) == SyntaxKind::MIN || peek_at(ks, p.st().pos) == SyntaxKind::MAX || peek_at(ks, p.st().pos) == SyntaxKind::AVG || peek_at(ks, p.st().pos) == SyntaxKind::SAMPLE || peek_at(ks, p.st().pos) == SyntaxKind::GROUP_CONCAT || peek_at(ks, p.st().pos) == SyntaxKind::PNAME_LN) {
                assert(loop_HavingClause_1(ks, start, gm1, p.st()) == p.st()) by {
                    reveal_with_fuel(loop_HavingClause_1, 1); reveal_with_fuel(body_HavingClause_2, 1);
                }
            }
        }
    }
    p.close(marker, SyntaxKind::HavingClause);
    proof {
        assert(rule_HavingClause(ks, s0) == p.st()) by {
            reveal_with_fuel(rule_HavingClause, 1); reveal_with_fuel(loop_HavingClause_1, 1); reveal_with_fuel(rule_HavingCondition, 1);
        }
    }
}

pub open spec fn rank_OrderClause(t: SyntaxKind) -> nat {
    match t {
        SyntaxKind::BY | SyntaxKind::ORDER => 0,
        SyntaxKind::VAR1 | SyntaxKind::VAR2 => 2,
        SyntaxKind::ABS | SyntaxKind::BNODE | SyntaxKind::BOUND | SyntaxKind::CEIL | SyntaxKind::COALESCE | SyntaxKind::CONCAT | SyntaxKind::CONTAINS | SyntaxKind::DATATYPE | SyntaxKind::DAY | SyntaxKind::ENCODE_FOR_URI | SyntaxKind::FLOOR | SyntaxKind::HOURS | SyntaxKind::IF | SyntaxKind::IRI | SyntaxKind::LANG | SyntaxKind::LANGDIR | SyntaxKind::LANGMATCHES | SyntaxKind::LCASE | SyntaxKind::LParen | SyntaxKind::MD5 | SyntaxKind::MINUTES | SyntaxKind::MONTH | SyntaxKind::NOW | SyntaxKind::OBJECT | SyntaxKind::PREDICATE | SyntaxKind::RAND | SyntaxKind::ROUND | SyntaxKind::SECONDS | SyntaxKind::SHA1 | SyntaxKind::SHA256 | SyntaxKind::SHA384 | SyntaxKind::SHA512 | SyntaxKind::STR | SyntaxKind::STRAFTER | SyntaxKind::STRBEFORE | SyntaxKind::STRDT | SyntaxKind::STRENDS | SyntaxKind::STRLANG | SyntaxKind::STRLANGDIR | SyntaxKind::STRLEN | SyntaxKind::STRSTARTS | SyntaxKind::STRUUID | SyntaxKind::SUBJECT | SyntaxKind::TIMEZONE | SyntaxKind::TRIPLE | SyntaxKind::TZ | SyntaxKind::UCASE | SyntaxKind::URI | SyntaxKind::UUID | SyntaxKind::YEAR | SyntaxKind::hasLANG | SyntaxKind::hasLANGDIR | SyntaxKind::isBLANK | SyntaxKind::isIRI | SyntaxKind::isLITERAL | SyntaxKind::isNUMERIC | SyntaxKind::isTRIPLE | SyntaxKind::isURI | SyntaxKind::sameTerm => 3,
        SyntaxKind::AVG | SyntaxKind::COUNT | SyntaxKind::EXISTS | SyntaxKind::GROUP_CONCAT | SyntaxKind::IRIREF | SyntaxKind::MAX | SyntaxKind::MIN | SyntaxKind::NOT | SyntaxKind::REGEX | SyntaxKind::REPLACE | SyntaxKind::SAMPLE | SyntaxKind::SUBSTR | SyntaxKind::SUM => 4,
        SyntaxKind::PNAME_LN | SyntaxKind::PNAME_NS => 5,
        _ => 1,
    }
}

/// What [`parse_OrderClause`] makes of the parser state.
#[verifier::opaque]
pub open spec fn rule_OrderClause(ts: Seq<SyntaxKind>, s: St) -> St
    decreases ts.len() - s.pos, rank_OrderClause(peek_at(ts, s.pos)), 32 * (ts.len() - s.pos) + 32,
{
    let start = s.pos;
    let s_in = s;
    let m_marker = s.evs.len() as int;
    let s = st_open(s);
    let s = st_expect(ts, s, SyntaxKind::ORDER);
    let s = st_expect(ts, s, SyntaxKind::BY);
    let s = if call_ok(ts, start, s, rank_OrderCondition(peek_at(ts, s.pos)), rank_OrderClause(peek_at(ts, start))) {
        rule_OrderCondition(ts, s)
    } else {
        s
    };
    let s = if s_in.pos <= s.pos <= ts.len() {
        loop_OrderClause_1(ts, start, m_marker, s)
    } else {
        s
    };
    let s = st_close(s, m_marker, SyntaxKind::OrderClause);
    s
}

#[verifier::opaque]
pub open spec fn loop_OrderClause_1(ts: Seq<SyntaxKind>, start: int, m_marker: int, s: St) -> St
    decreases ts.len() - start, rank_OrderClause(peek_at(ts, start)), 32 * (ts.len() - s.pos) + 32 - 1,
{
    let s_in = s;
    if (peek_at(ts, s.pos) == SyntaxKind::IRIREF || peek_at(ts, s.pos) == SyntaxKind::PNAME_NS || peek_at(ts, s.pos) == SyntaxKind::LParen || peek_at(ts, s.pos) == SyntaxKind::ASC || peek_at(ts, s.pos) == SyntaxKind::DESC || peek_at(ts, s.pos) == SyntaxKind::VAR1 || peek_at(ts, s.pos) == SyntaxKind::VAR2 || peek_at(ts, s.pos) == SyntaxKind::NOT || peek_at(ts, s.pos) == SyntaxKind::STR || peek_at(ts, s.pos) == SyntaxKind::LANG || peek_at(ts, s.pos) == SyntaxKind::LANGMATCHES || peek_at(ts, s.pos) == SyntaxKind::LANGDIR || peek_at(ts, s.pos) == SyntaxKind::DATATYPE || peek_at(ts, s.pos) == SyntaxKind::BOUND || peek_at(ts, s.pos) == SyntaxKind::IRI || peek_at(ts, s.pos) == SyntaxKind::URI || peek_at(ts, s.pos) == SyntaxKind::BNODE || peek_at(ts, s.pos) == SyntaxKind::RAND || peek_at(ts, s.pos) == SyntaxKind::ABS || peek_at(ts, s.pos) == SyntaxKind::CEIL || peek_at(ts, s.pos) == SyntaxKind::FLOOR || peek_at(ts, s.pos) == SyntaxKind::ROUND || peek_at(ts, s.pos) == SyntaxKind::CONCAT || peek_at(ts, s.pos) == SyntaxKind::STRLEN || peek_at(ts, s.pos) == SyntaxKind::UCASE || peek_at(ts, s.pos) == SyntaxKind::LCASE || peek_at(ts, s.pos) == SyntaxKind::ENCODE_FOR_URI || peek_at(ts, s.pos) == SyntaxKind::CONTAINS || peek_at(ts, s.pos) == SyntaxKind::STRSTARTS || peek_at(ts, s.pos) == SyntaxKind::STRENDS || peek_at(ts, s.pos) == SyntaxKind::STRBEFORE || peek_at(ts, s.pos) == SyntaxKind::STRAFTER || peek_at(ts, s.pos) == SyntaxKind::YEAR || peek_at(ts, s.pos) == SyntaxKind::MONTH || peek_at(ts, s.pos) == SyntaxKind::DAY || peek_at(ts, s.pos) == SyntaxKind::HOURS || peek_at(ts, s.pos) == SyntaxKind::MINUTES || peek_at(ts, s.pos) == SyntaxKind::SECONDS || peek_at(ts, s.pos) == SyntaxKind::TIMEZONE || peek_at(ts, s.pos) == SyntaxKind::TZ || peek_at(ts, s.pos) == SyntaxKind::NOW || peek_at(ts, s.pos) == SyntaxKind::UUID || peek_at(ts, s.pos) == SyntaxKind::STRUUID || peek_at(ts, s.pos) == SyntaxKind::MD5 || peek_at(ts, s.pos) == SyntaxKind::SHA1 || peek_at(ts, s.pos) == SyntaxKind::SHA256 || peek_at(ts, s.pos) == SyntaxKind::SHA384 || peek_at(ts, s.pos) == SyntaxKind::SHA512 || peek_at(ts, s.pos) == SyntaxKind::COALESCE || peek_at(ts, s.pos) == SyntaxKind::IF || peek_at(ts, s.pos) == SyntaxKind::STRLANG || peek_at(ts, s.pos) == SyntaxKind::STRLANGDIR || peek_at(ts, s.pos) == SyntaxKind::STRDT || peek_at(ts, s.pos) == SyntaxKind::sameTerm || peek_at(ts, s.pos) == SyntaxKind::isIRI || peek_at(ts, s.pos) == SyntaxKind::isURI || peek_at(ts, s.pos) == SyntaxKind::isBLANK || peek_at(ts, s.pos) == SyntaxKind::isLITERAL || peek_at(ts, s.pos) == SyntaxKind::isNUMERIC || peek_at(ts, s.pos) == SyntaxKind::hasLANG || peek_at(ts, s.pos) == SyntaxKind::hasLANGDIR || peek_at(ts, s.pos) == SyntaxKind::isTRIPLE || peek_at(ts, s.pos) == SyntaxKind::TRIPLE || peek_at(ts, s.pos) == SyntaxKind::SUBJECT || peek_at(ts, s.pos) == SyntaxKind::PREDICATE || peek_at(ts, s.pos) == SyntaxKind::OBJECT || peek_at(ts, s.pos) == SyntaxKind::REGEX || peek_at(ts, s.pos) == SyntaxKind::SUBSTR || peek_at(ts, s.pos) == SyntaxKind::REPLACE || peek_at(ts, s.pos) == SyntaxKind::EXISTS || peek_at(ts, s.pos) == SyntaxKind::COUNT || peek_at(ts, s.pos) == SyntaxKind::SUM || peek_at(ts, s.pos) == SyntaxKind::MIN || peek_at(ts, s.pos) == SyntaxKind::MAX || peek_at(ts, s.pos) == SyntaxKind::AVG || peek_at(ts, s.pos) == SyntaxKind::SAMPLE || peek_at(ts, s.pos) == SyntaxKind::GROUP_CONCAT || peek_at(ts, s.pos) == SyntaxKind::PNAME_LN) && s.pos <= ts.len() {
        let s1 = body_OrderClause_2(ts, start, m_marker, s);
        if s1.pos == s.pos {
            s1
        } else if s.pos < s1.pos <= ts.len() {
            loop_OrderClause_1(ts, start, m_marker, s1)
        } else {
            s1
        }
    } else {
        s
    }
}

#[verifier::opaque]
pub open spec fn body_OrderClause_2(ts: Seq<SyntaxKind>, start: int, m_marker: int, s: St) -> St
    decreases ts.len() - start, rank_OrderClause(peek_at(ts, start)), 32 * (ts.len() - s.pos) + 32 - 2,
{
    let s_in = s;
    let s = if call_ok(ts, start, s, rank_OrderCondition(peek_at(ts, s.pos)), rank_OrderClause(peek_at(ts, start))) {
        rule_OrderCondition(ts, s)
    } else {
        s
    };
    s
}

/// [31] OrderClause -> 'ORDER' 'BY' OrderCondition OrderCondition*
pub(crate) fn parse_OrderClause(p: &mut Parser)
    requires
        old(p).wf(),
    ensures
        Parser::step(*old(p), *final(p)),
        final(p).pos == old(p).pos ==> is_sync_point(old(p).peek()),
        old(p).events@.len() < final(p).events@.len(),
        final(p).events@[old(p).events@.len() as int] == (Event::Open { kind: SyntaxKind::OrderClause }),
        final(p).events@.last() is Close,
        final(p).st() == rule_OrderClause(old(p).kinds(), old(p).st()),
    decreases old(p).remaining(), rank_OrderClause(old(p).peek()), 1int,
{
    let ghost ks = p.kinds();
    let ghost s0 = p.st();
    let ghost start = p.pos as int;
    let marker = p.open();
    let ghost gm1 = marker.index as int;
    p.expect(SyntaxKind::ORDER);
    p.expect(SyntaxKind::BY);
    proof {
        assert(call_ok(ks, start, p.st(), rank_OrderCondition(peek_at(ks, p.st().pos)), rank_OrderClause(peek_at(ks, start)))) by {
            reveal(Parser::st);
            assert(peek_at(ks, start) == old(p).peek());
            assert(peek_at(ks, p.pos as int) == p.peek());
        }
    }
    parse_OrderCondition(p);
    let ghost pre1 = p.st();
    proof {
        assert(p.st().pos == p.pos as int) by {
            reveal(Parser::st);
        }
        if !(peek_at(ks, p.st().pos) == SyntaxKind::IRIREF || peek_at(ks, p.st().pos) == SyntaxKind::PNAME_NS || peek_at(ks, p.st().pos) == SyntaxKind::LParen || peek_at(ks, p.st().pos) == SyntaxKind::ASC || peek_at(ks, p.st().pos) == SyntaxKind::DESC || peek_at(ks, p.st().pos) == SyntaxKind::VAR1 || peek_at(ks, p.st().pos) == SyntaxKind::VAR2 || peek_at(ks, p.st().pos) == SyntaxKind::NOT || peek_at(ks, p.st().pos) == SyntaxKind::STR || peek_at(ks, p.st().pos) == SyntaxKind::LANG || peek_at(ks, p.st().pos) == SyntaxKind::LANGMATCHES || peek_at(ks, p.st().pos) == SyntaxKind::LANGDIR || peek_at(ks, p.st().pos) == SyntaxKind::DATATYPE || peek_at(ks, p.st().pos) == SyntaxKind::BOUND || peek_at(ks, p.st().pos) == SyntaxKind::IRI || peek_at(ks, p.st().pos) == SyntaxKind::URI || peek_at(ks, p.st().pos) == SyntaxKind::BNODE || peek_at(ks, p.st().pos) == SyntaxKind::RAND || peek_at(ks, p.st().pos) == SyntaxKind::ABS || peek_at(ks, p.st().pos) == SyntaxKind::CEIL || peek_at(ks, p.st().pos) == SyntaxKind::FLOOR || peek_at(ks, p.st().pos) == SyntaxKind::ROUND || peek_at(ks, p.st().pos) == SyntaxKind::CONCAT || peek_at(ks, p.st().pos) == SyntaxKind::STRLEN || peek_at(ks, p.st().pos) == SyntaxKind::UCASE || peek_at(ks, p.st().pos) == SyntaxKind::LCASE || peek_at(ks, p.st().pos) == SyntaxKind::ENCODE_FOR_URI || peek_at(ks, p.st().pos) == SyntaxKind::CONTAINS || peek_at(ks, p.st().pos) == SyntaxKind::STRSTARTS || peek_at(ks, p.st().pos) == SyntaxKind::STRENDS || peek_at(ks, p.st().pos) == SyntaxKind::STRBEFORE || peek_at(ks, p.st().pos) == SyntaxKind::STRAFTER || peek_at(ks, p.st().pos) == SyntaxKind::YEAR || peek_at(ks, p.st().pos) == SyntaxKind::MONTH || peek_at(ks, p.st().pos) == SyntaxKind::DAY || peek_at(ks, p.st().pos) == SyntaxKind::HOURS || peek_at(ks, p.st().pos) == SyntaxKind::MINUTES || peek_at(ks, p.st().pos) == SyntaxKind::SECONDS || peek_at(ks, p.st().pos) == SyntaxKind::TIMEZONE || peek_at(ks, p.st().pos) == SyntaxKind::TZ || peek_at(ks, p.st().pos) == SyntaxKind::NOW || peek_at(ks, p.st().pos) == SyntaxKind::UUID || peek_at(ks, p.st().pos) == SyntaxKind::STRUUID || peek_at(ks, p.st().pos) == SyntaxKind::MD5 || peek_at(ks, p.st().pos) == SyntaxKind::SHA1 || peek_at(ks, p.st().pos) == SyntaxKind::SHA256 || peek_at(ks, p.st().pos) == SyntaxKind::SHA384 || peek_at(ks, p.st().pos) == SyntaxKind::SHA512 || peek_at(ks, p.st().pos) == SyntaxKind::COALESCE || peek_at(ks, p.st().pos) == SyntaxKind::IF || peek_at(ks, p.st().pos) == SyntaxKind::STRLANG || peek_at(ks, p.st().pos) == SyntaxKind::STRLANGDIR || peek_at(ks, p.st().pos) == SyntaxKind::STRDT || peek_at(ks, p.st().pos) == SyntaxKind::sameTerm || peek_at(ks, p.st().pos) == SyntaxKind::isIRI || peek_at(ks, p.st().pos) == SyntaxKind::isURI || peek_at(ks, p.st().pos) == SyntaxKind::isBLANK || peek_at(ks, p.st().pos) == SyntaxKind::isLITERAL || peek_at(ks, p.st().pos) == SyntaxKind::isNUMERIC || peek_at(ks, p.st().pos) == SyntaxKind::hasLANG || peek_at(ks, p.st().pos) == SyntaxKind::hasLANGDIR || peek_at(ks, p.st().pos) == SyntaxKind::isTRIPLE || peek_at(ks, p.st().pos) == SyntaxKind::TRIPLE || peek_at(ks, p.st().pos) == SyntaxKind::SUBJECT || peek_at(ks, p.st().pos) == SyntaxKind::PREDICATE || peek_at(ks, p.st().pos) == SyntaxKind::OBJECT || peek_at(ks, p.st().pos) == SyntaxKind::REGEX || peek_at(ks, p.st().pos) == SyntaxKind::SUBSTR || peek_at(ks, p.st().pos) == SyntaxKind::REPLACE || peek_at(ks, p.st().pos) == SyntaxKind::EXISTS || peek_at(ks, p.st().pos) == SyntaxKind::COUNT || peek_at(ks, p.st().pos) == SyntaxKind::SUM || peek_at(ks, p.st().pos) == SyntaxKind::MIN || peek_at(ks, p.st().pos) == SyntaxKind::MAX || peek_at(ks, p.st().pos) == SyntaxKind::AVG || peek_at(ks, p.st().pos) == SyntaxKind::SAMPLE || peek_at(ks, p.st().pos) == SyntaxKind::GROUP_CONCAT || peek_at(ks, p.st().pos) == SyntaxKind::PNAME_LN) {
            assert(loop_OrderClause_1(ks, start, gm1, pre1) == pre1) by {
                reveal_with_fuel(loop_OrderClause_1, 1); reveal_with_fuel(body_OrderClause_2, 1);
            }
        }
    }
    while p.at_any(&[SyntaxKind::IRIREF, SyntaxKind::PNAME_NS, SyntaxKind::LParen, SyntaxKind::ASC, SyntaxKind::DESC, SyntaxKind::VAR1, SyntaxKind::VAR2, SyntaxKind::NOT, SyntaxKind::STR, SyntaxKind::LANG, SyntaxKind::LANGMATCHES, SyntaxKind::LANGDIR, SyntaxKind::DATATYPE, SyntaxKind::BOUND, SyntaxKind::IRI, SyntaxKind::URI, SyntaxKind::BNODE, SyntaxKind::RAND, SyntaxKind::ABS, SyntaxKind::CEIL, SyntaxKind::FLOOR, SyntaxKind::ROUND, SyntaxKind::CONCAT, SyntaxKind::STRLEN, SyntaxKind::UCASE, SyntaxKind::LCASE, SyntaxKind::ENCODE_FOR_URI, SyntaxKind::CONTAINS, SyntaxKind::STRSTARTS, SyntaxKind::STRENDS, SyntaxKind::STRBEFORE, SyntaxKind::STRAFTER, SyntaxKind::YEAR, SyntaxKind::MONTH, SyntaxKind::DAY, SyntaxKind::HOURS, SyntaxKind::MINUTES, SyntaxKind::SECONDS, SyntaxKind::TIMEZONE, SyntaxKind::TZ, SyntaxKind::NOW, SyntaxKind::UUID, SyntaxKind::STRUUID, SyntaxKind::MD5, SyntaxKind::SHA1, SyntaxKind::SHA256, SyntaxKind::SHA384, SyntaxKind::SHA512, SyntaxKind::COALESCE, SyntaxKind::IF, SyntaxKind::STRLANG, SyntaxKind::STRLANGDIR, SyntaxKind::STRDT, SyntaxKind::sameTerm, SyntaxKind::isIRI, SyntaxKind::isURI, SyntaxKind::isBLANK, SyntaxKind::isLITERAL, SyntaxKind::isNUMERIC, SyntaxKind::hasLANG, SyntaxKind::hasLANGDIR, SyntaxKind::isTRIPLE, SyntaxKind::TRIPLE, SyntaxKind::SUBJECT, SyntaxKind::PREDICATE, SyntaxKind::OBJECT, SyntaxKind::REGEX, SyntaxKind::SUBSTR, SyntaxKind::REPLACE, SyntaxKind::EXISTS, SyntaxKind::COUNT, SyntaxKind::SUM, SyntaxKind::MIN, SyntaxKind::MAX, SyntaxKind::AVG, SyntaxKind::SAMPLE, SyntaxKind::GROUP_CONCAT, SyntaxKind::PNAME_LN])
        invariant
            marker.index == old(p).events@.len(),
            p.wf(),
            p.tokens@ == old(p).tokens@,
            old(p).pos <= p.pos,
            p.stack() == old(p).stack().push(marker.index as int),
            p.pos == old(p).pos ==> is_sync_point(old(p).peek()),
            ks == p.kinds(),
            p.st().pos == p.pos as int,
            start == old(p).pos as int,
            gm1 == marker.index as int,
            pre1.pos <= p.pos,
            start <= pre1.pos,
            loop_OrderClause_1(ks, start, gm1, p.st()) == loop_OrderClause_1(ks, start, gm1, pre1),
            !(peek_at(ks, p.st().pos) == SyntaxKind::IRIREF || peek_at(ks, p.st().pos) == SyntaxKind::PNAME_NS || peek_at(ks, p.st().pos) == SyntaxKind::LParen || peek_at(ks, p.st().pos) == SyntaxKind::ASC || peek_at(ks, p.st().pos) == SyntaxKind::DESC || peek_at(ks, p.st().pos) == SyntaxKind::VAR1 || peek_at(ks, p.st().pos) == SyntaxKind::VAR2 || peek_at(ks, p.st().pos) == SyntaxKind::NOT || peek_at(ks, p.st().pos) == SyntaxKind::STR || peek_at(ks, p.st().pos) == SyntaxKind::LANG || peek_at(ks, p.st().pos) == SyntaxKind::LANGMATCHES || peek_at(ks, p.st().pos) == SyntaxKind::LANGDIR || peek_at(ks, p.st().pos) == SyntaxKind::DATATYPE || peek_at(ks, p.st().pos) == SyntaxKind::BOUND || peek_at(ks, p.st().pos) == SyntaxKind::IRI || peek_at(ks, p.st().pos) == SyntaxKind::URI || peek_at(ks, p.st().pos) == SyntaxKind::BNODE || peek_at(ks, p.st().pos) == SyntaxKind::RAND || peek_at(ks, p.st().pos) == SyntaxKind::ABS || peek_at(ks, p.st().pos) == SyntaxKind::CEIL || peek_at(ks, p.st().pos) == SyntaxKind::FLOOR || peek_at(ks, p.st().pos) == SyntaxKind::ROUND || peek_at(ks, p.st().pos) == SyntaxKind::CONCAT || peek_at(ks, p.st().pos) == SyntaxKind::STRLEN || peek_at(ks, p.st().pos) == SyntaxKind::UCASE || peek_at(ks, p.st().pos) == SyntaxKind::LCASE || peek_at(ks, p.st().pos) == SyntaxKind::ENCODE_FOR_URI || peek_at(ks, p.st().pos) == SyntaxKind::CONTAINS || peek_at(ks, p.st().pos) == SyntaxKind::STRSTARTS || peek_at(ks, p.st().pos) == SyntaxKind::STRENDS || peek_at(ks, p.st().pos) == SyntaxKind::STRBEFORE || peek_at(ks, p.st().pos) == SyntaxKind::STRAFTER || peek_at(ks, p.st().pos) == SyntaxKind::YEAR || peek_at(ks, p.st().pos) == SyntaxKind::MONTH || peek_at(ks, p.st().pos) == SyntaxKind::DAY || peek_at(ks, p.st().pos) == SyntaxKind::HOURS || peek_at(ks, p.st().pos) == SyntaxKind::MINUTES || peek_at(ks, p.st().pos) == SyntaxKind::SECONDS || peek_at(ks, p.st().pos) == SyntaxKind::TIMEZONE || peek_at(ks, p.st().pos) == SyntaxKind::TZ || peek_at(ks, p.st().pos) == SyntaxKind::NOW || peek_at(ks, p.st().pos) == SyntaxKind::UUID || peek_at(ks, p.st().pos) == SyntaxKind::STRUUID || peek_at(ks, p.st().pos) == SyntaxKind::MD5 || peek_at(ks, p.st().pos) == SyntaxKind::SHA1 || peek_at(ks, p.st().pos) == SyntaxKind::SHA256 || peek_at(ks, p.st().pos) == SyntaxKind::SHA384 || peek_at(ks, p.st().pos) == SyntaxKind::SHA512 || peek_at(ks, p.st().pos) == SyntaxKind::COALESCE || peek_at(ks, p.st().pos) == SyntaxKind::IF || peek_at(ks, p.st().pos) == SyntaxKind::STRLANG || peek_at(ks, p.st().pos) == SyntaxKind::STRLANGDIR || peek_at(ks, p.st().pos) == SyntaxKind::STRDT || peek_at(ks, p.st().pos) == SyntaxKind::sameTerm || peek_at(ks, p.st().pos) == SyntaxKind::isIRI || peek_at(ks, p.st().pos) == SyntaxKind::isURI || peek_at(ks, p.st().pos) == SyntaxKind::isBLANK || peek_at(ks, p.st().pos) == SyntaxKind::isLITERAL || peek_at(ks, p.st().pos) == SyntaxKind::isNUMERIC || peek_at(ks, p.st().pos) == SyntaxKind::hasLANG || peek_at(ks, p.st().pos) == SyntaxKind::hasLANGDIR || peek_at(ks, p.st().pos) == SyntaxKind::isTRIPLE || peek_at(ks, p.st().pos) == SyntaxKind::TRIPLE || peek_at(ks, p.st().pos) == SyntaxKind::SUBJECT || peek_at(ks, p.st().pos) == SyntaxKind::PREDICATE || peek_at(ks, p.st().pos) == SyntaxKind::OBJECT || peek_at(ks, p.st().pos) == SyntaxKind::REGEX || peek_at(ks, p.st().pos) == SyntaxKind::SUBSTR || peek_at(ks, p.st().pos) == SyntaxKind::REPLACE || peek_at(ks, p.st().pos) == SyntaxKind::EXISTS || peek_at(ks, p.st().pos) == SyntaxKind::COUNT || peek_at(ks, p.st().pos) == SyntaxKind::SUM || peek_at(ks, p.st().pos) == SyntaxKind::MIN || peek_at(ks, p.st().pos) == SyntaxKind::MAX || peek_at(ks, p.st().pos) == SyntaxKind::AVG || peek_at(ks, p.st().pos) == SyntaxKind::SAMPLE || peek_at(ks, p.st().pos) == SyntaxKind::GROUP_CONCAT || peek_at(ks, p.st().pos) == SyntaxKind::PNAME_LN) ==> loop_OrderClause_1(ks, start, gm1, p.st()) == p.st(),
        ensures
            loop_OrderClause_1(ks, start, gm1, pre1) == p.st(),
        decreases p.remaining(),
    {
        let ghost si1 = p.st();
        let checkpoint1 = p.pos();
        proof {
            assert(call_ok(ks, start, p.st(), rank_OrderCondition(peek_at(ks, p.st().pos)), rank_OrderClause(peek_at(ks, start)))) by {
                reveal(Parser::st);
                assert(peek_at(ks, start) == old(p).peek());
                assert(peek_at(ks, p.pos as int) == p.peek());
            }
        }
        parse_OrderCondition(p);
        proof {
            assert(body_OrderClause_2(ks, start, gm1, si1) == p.st()) by {
                reveal_with_fuel(body_OrderClause_2, 1); reveal_with_fuel(rule_OrderCondition, 1);
            }
        }
        if p.pos() == checkpoint1 {
            proof {
                assert(loop_OrderClause_1(ks, start, gm1, si1) == p.st()) by {
                    reveal_with_fuel(loop_OrderClause_1, 1); reveal_with_fuel(body_OrderClause_2, 1);
                }
            }
            break;
        }
        proof {
            assert(p.st().pos == p.pos as int) by {
                reveal(Parser::st);
            }
            assert(loop_OrderClause_1(ks, start, gm1, si1) == loop_OrderClause_1(ks, start, gm1, p.st())) by {
                reveal_with_fuel(loop_OrderClause_1, 1); reveal_with_fuel(body_OrderClause_2, 1);
                reveal(Parser::st);
            }
            if !(peek_at(ks, p.st().pos) == SyntaxKind::IRIREF || peek_at(ks, p.st().pos) == SyntaxKind::PNAME_NS || peek_at(ks, p.st().pos) == SyntaxKind::LParen || peek_at(ks, p.st().pos) == SyntaxKind::ASC || peek_at(ks, p.st().pos) == SyntaxKind::DESC || peek_at(ks, p.st().pos) == SyntaxKind::VAR1 || peek_at(ks, p.st().pos) == SyntaxKind::VAR2 || peek_at(ks, p.st().pos) == SyntaxKind::NOT || peek_at(ks, p.st().pos) == SyntaxKind::STR || peek_at(ks, p.st().pos) == SyntaxKind::LANG || peek_at(ks, p.st().pos) == SyntaxKind::LANGMATCHES || peek_at(ks, p.st().pos) == SyntaxKind::LANGDIR || peek_at(ks, p.st().pos) == SyntaxKind::DATATYPE || peek_at(ks, p.st().pos) == SyntaxKind::BOUND || peek_at(ks, p.st().pos) == SyntaxKind::IRI || peek_at(ks, p.st().pos) == SyntaxKind::URI || peek_at(ks, p.st().pos) == SyntaxKind::BNODE || peek_at(ks, p.st().pos) == SyntaxKind::RAND || peek_at(ks, p.st().pos) == SyntaxKind::ABS || peek_at(ks, p.st().pos) == SyntaxKind::CEIL || peek_at(ks, p.st().pos) == SyntaxKind::FLOOR || peek_at(ks, p.st().pos) == SyntaxKind::ROUND || peek_at(ks, p.st().pos) == SyntaxKind::CONCAT || peek_at(ks, p.st().pos) == SyntaxKind::STRLEN || peek_at(ks, p.st().pos) == SyntaxKind::UCASE || peek_at(ks, p.st().pos) == SyntaxKind::LCASE || peek_at(ks, p.st().pos) == SyntaxKind::ENCODE_FOR_URI || peek_at(ks, p.st().pos) == SyntaxKind::CONTAINS || peek_at(ks, p.st().pos) == SyntaxKind::STRSTARTS || peek_at(ks, p.st().pos) == SyntaxKind::STRENDS || peek_at(ks, p.st().pos) == SyntaxKind::STRBEFORE || peek_at(ks, p.st().pos) == SyntaxKind::STRAFTER || peek_at(ks, p.st().pos) == SyntaxKind::YEAR || peek_at(ks, p.st().pos) == SyntaxKind::MONTH || peek_at(ks, p.st().pos) == SyntaxKind::DAY || peek_at(ks, p.st().pos) == SyntaxKind::HOURS || peek_at(ks, p.st().pos) == SyntaxKind::MINUTES || peek_at(ks, p.st().pos) == SyntaxKind::SECONDS || peek_at(ks, p.st().pos) == SyntaxKind::TIMEZONE || peek_at(ks, p.st().pos) == SyntaxKind::TZ || peek_at(ks, p.st().pos) == SyntaxKind::NOW || peek_at(ks, p.st().pos) == SyntaxKind::UUID || peek_at(ks, p.st().pos) == SyntaxKind::STRUUID || peek_at(ks, p.st().pos) == SyntaxKind::MD5 || peek_at(ks, p.st().pos) == SyntaxKind::SHA1 || peek_at(ks, p.st().pos) == SyntaxKind::SHA256 || peek_at(ks, p.st().pos) == SyntaxKind::SHA384 || peek_at(ks, p.st().pos) == SyntaxKind::SHA512 || peek_at(ks, p.st().pos) == SyntaxKind::COALESCE || peek_at(ks, p.st().pos) == SyntaxKind::IF || peek_at(ks, p.st().pos) == SyntaxKind::STRLANG || peek_at(ks, p.st().pos) == SyntaxKind::STRLANGDIR || peek_at(ks, p.st().pos) == SyntaxKind::STRDT || peek_at(ks, p.st().pos) == SyntaxKind::sameTerm || peek_at(ks, p.st().pos) == SyntaxKind::isIRI || peek_at(ks, p.st().pos) == SyntaxKind::isURI || peek_at(ks, p.st().pos) == SyntaxKind::isBLANK || peek_at(ks, p.st().pos) == SyntaxKind::isLITERAL || peek_at(ks, p.st().pos) == SyntaxKind::isNUMERIC || peek_at(ks, p.st().pos) == SyntaxKind::hasLANG || peek_at(ks, p.st().pos) == SyntaxKind::hasLANGDIR || peek_at(ks, p.st().pos) == SyntaxKind::isTRIPLE || peek_at(ks, p.st().pos) == SyntaxKind::TRIPLE || peek_at(ks, p.st().pos) == SyntaxKind::SUBJECT || peek_at(ks, p.st().pos) == SyntaxKind::PREDICATE || peek_at(ks, p.st().pos) == SyntaxKind::OBJECT || peek_at(ks, p.st().pos) == SyntaxKind::REGEX || peek_at(ks, p.st().pos) == SyntaxKind::SUBSTR || peek_at(ks, p.st().pos) == SyntaxKind::REPLACE || peek_at(ks, p.st().pos) == SyntaxKind::EXISTS || peek_at(ks, p.st().pos) == SyntaxKind::COUNT || peek_at(ks, p.st().pos) == SyntaxKind::SUM || peek_at(ks, p.st().pos) == SyntaxKind::MIN || peek_at(ks, p.st().pos) == SyntaxKind::MAX || peek_at(ks, p.st().pos) == SyntaxKind::AVG || peek_at(ks, p.st().pos) == SyntaxKind::SAMPLE || peek_at(ks, p.st().pos) == SyntaxKind::GROUP_CONCAT || peek_at(ks, p.st().pos) == SyntaxKind::PNAME_LN) {
                assert(loop_OrderClause_1(ks, start, gm1, p.st()) == p.st()) by {
                    reveal_with_fuel(loop_OrderClause_1, 1); reveal_with_fuel(body_OrderClause_2, 1);
                }
            }
        }
    }
    p.close(marker, SyntaxKind::OrderClause);
    proof {
        assert(rule_OrderClause(ks, s0) == p.st()) by {
            reveal_with_fuel(rule_OrderClause, 1); reveal_with_fuel(loop_OrderClause_1, 1); reveal_with_fuel(rule_OrderCondition, 1);
        }
    }
}

pub open spec fn rank_LimitOffsetClauses(t: SyntaxKind) -> nat {
    match t {
        SyntaxKind::LIMIT | SyntaxKind::OFFSET => 1,
        _ => 0,
    }
}

/// What [`parse_LimitOffsetClauses`] makes of the parser state.
#[verifier::opaque]
pub open spec fn rule_LimitOffsetClauses(ts: Seq<SyntaxKind>, s: St) -> St {
    let m_marker = s.evs.len() as int;
    let s = st_open(s);
    if (peek_at(ts, s.pos) == SyntaxKind::LIMIT) {
        let s = rule_LimitClause(ts, s);
        if (peek_at(ts, s.pos) == SyntaxKind::OFFSET) {
            let s = rule_OffsetClause(ts, s);
            let s = st_close(s, m_marker, SyntaxKind::LimitOffsetClauses);
            s
        } else {
            let s = st_close(s, m_marker, SyntaxKind::LimitOffsetClauses);
            s
        }
    } else if (peek_at(ts, s.pos) == SyntaxKind::OFFSET) {
        let s = rule_OffsetClause(ts, s);
        if (peek_at(ts, s.pos) == SyntaxKind::LIMIT) {
            let s = rule_LimitClause(ts, s);
            let s = st_close(s, m_marker, SyntaxKind::LimitOffsetClauses);
            s
        } else {
            let s = st_close(s, m_marker, SyntaxKind::LimitOffsetClauses);
            s
        }
    } else if (peek_at(ts, s.pos) == SyntaxKind::Eof) {
        let s = st_close(s, m_marker, SyntaxKind::LimitOffsetClauses);
        let m_marker = s.evs.len() as int;
        let s = st_open(s);
        let s = st_close(s, m_marker, SyntaxKind::Error);
        s
    } else {
        let s = st_advance_with_error(ts, s, seq![SyntaxKind::LIMIT, SyntaxKind::OFFSET]);
        let s = st_close(s, m_marker, SyntaxKind::LimitOffsetClauses);
        s
    }
}

/// [32] LimitOffsetClauses -> LimitClause OffsetClause? | OffsetClause LimitClause?
pub(crate) fn parse_LimitOffsetClauses(p: &mut Parser)
    requires
        old(p).wf(),
    ensures
        Parser::step(*old(p), *final(p)),
        final(p).pos == old(p).pos ==> is_sync_point(old(p).peek()),
        old(p).events@.len() < final(p).events@.len(),
        final(p).events@[old(p).events@.len() as int] == (Event::Open { kind: SyntaxKind::LimitOffsetClauses }),
        final(p).events@.last() is Close,
        final(p).st() == rule_LimitOffsetClauses(old(p).kinds(), old(p).st()),
    decreases old(p).remaining(), rank_LimitOffsetClauses(old(p).peek()), 1int,
{
    let ghost ks = p.kinds();
    let ghost s0 = p.st();
    let marker = p.open();
    match p.nth(0) {
        SyntaxKind::LIMIT => {
            parse_LimitClause(p);
            if p.at_any(&[SyntaxKind::OFFSET]) {
                parse_OffsetClause(p);
            }
        },
        SyntaxKind::OFFSET => {
            parse_OffsetClause(p);
            if p.at_any(&[SyntaxKind::LIMIT]) {
                parse_LimitClause(p);
            }
        },
        SyntaxKind::Eof => {
            p.close(marker, SyntaxKind::LimitOffsetClauses);
            let marker = p.open();
            p.close(marker, SyntaxKind::Error);
            proof {
                assert(p.st() == rule_LimitOffsetClauses(ks, s0)) by {
                    reveal(rule_LimitOffsetClauses);
                    reveal(Parser::st);
                }
            }
            return ;
        },
        _ => {
            p.advance_with_error(vec![SyntaxKind::LIMIT, SyntaxKind::OFFSET]);
        },
    }
    p.close(marker, SyntaxKind::LimitOffsetClauses);
    proof {
        assert(p.st() == rule_LimitOffsetClauses(ks, s0)) by {
            reveal(rule_LimitOffsetClauses);
            reveal(Parser::st);
        }
    }
}

pub open spec fn rank_GroupCondition(t: SyntaxKind) -> nat {
    match t {
        SyntaxKind::ABS | SyntaxKind::BNODE | SyntaxKind::BOUND | SyntaxKind::CEIL | SyntaxKind::COALESCE | SyntaxKind::CONCAT | SyntaxKind::CONTAINS | SyntaxKind::DATATYPE | SyntaxKind::DAY | SyntaxKind::ENCODE_FOR_URI | SyntaxKind::FLOOR | SyntaxKind::HOURS | SyntaxKind::IF | SyntaxKind::IRI | SyntaxKind::LANG | SyntaxKind::LANGDIR | SyntaxKind::LANGMATCHES | SyntaxKind::LCASE | SyntaxKind::MD5 | SyntaxKind::MINUTES | SyntaxKind::MONTH | SyntaxKind::NOW | SyntaxKind::OBJECT | SyntaxKind::PREDICATE | SyntaxKind::RAND | SyntaxKind::ROUND | SyntaxKind::SECONDS | SyntaxKind::SHA1 | SyntaxKind::SHA256 | SyntaxKind::SHA384 | SyntaxKind::SHA512 | SyntaxKind::STR | SyntaxKind::STRAFTER | SyntaxKind::STRBEFORE | SyntaxKind::STRDT | SyntaxKind::STRENDS | SyntaxKind::STRLANG | SyntaxKind::STRLANGDIR | SyntaxKind::STRLEN | SyntaxKind::STRSTARTS | SyntaxKind::STRUUID | SyntaxKind::SUBJECT | SyntaxKind::TIMEZONE | SyntaxKind::TRIPLE | SyntaxKind::TZ | SyntaxKind::UCASE | SyntaxKind::URI | SyntaxKind::UUID | SyntaxKind::VAR1 | SyntaxKind::VAR2 | SyntaxKind::YEAR | SyntaxKind::hasLANG | SyntaxKind::hasLANGDIR | SyntaxKind::isBLANK | SyntaxKind::isIRI | SyntaxKind::isLITERAL | SyntaxKind::isNUMERIC | SyntaxKind::isTRIPLE | SyntaxKind::isURI | SyntaxKind::sameTerm => 1,
        SyntaxKind::AVG | SyntaxKind::COUNT | SyntaxKind::EXISTS | SyntaxKind::GROUP_CONCAT | SyntaxKind::IRIREF | SyntaxKind::MAX | SyntaxKind::MIN | SyntaxKind::NOT | SyntaxKind::REGEX | SyntaxKind::REPLACE | SyntaxKind::SAMPLE | SyntaxKind::SUBSTR | SyntaxKind::SUM => 2,
        SyntaxKind::PNAME_LN | SyntaxKind::PNAME_NS => 3,
        _ => 0,
    }
}

/// What [`parse_GroupCondition`] makes of the parser state.
#[verifier::opaque]
pub open spec fn rule_GroupCondition(ts: Seq<SyntaxKind>, s: St) -> St
    decreases ts.len() - s.pos, rank_GroupCondition(peek_at(ts, s.pos)), 32 * (ts.len() - s.pos) + 32,
{
    let start = s.pos;
    let s_in = s;
    let m_marker = s.evs.len() as int;
    let s = st_open(s);
    let (s, r) = if s_in.pos <= s.pos <= ts.len() {
        match_GroupCondition_1(ts, start, m_marker, s)
    } else {
        (s, false)
    };
    if r {
        s
    } else {
        let s = st_close(s, m_marker, SyntaxKind::GroupCondition);
        s
    }
}

#[verifier::opaque]
pub open spec fn if_GroupCondition_2(ts: Seq<SyntaxKind>, start: int, m_marker: int, s: St) -> St
    decreases ts.len() - start, rank_GroupCondition(peek_at(ts, start)), 32 * (ts.len() - s.pos) + 32 - 2,
{
    let s_in = s;
    if (peek_at(ts, s.pos) == SyntaxKind::AS) {
        let s = st_expect(ts, s, SyntaxKind::AS);
        let s = rule_Var(ts, s);
        s
    } else {
        s
    }
}

#[verifier::opaque]
pub open spec fn match_GroupCondition_1(ts: Seq<SyntaxKind>, start: int, m_marker: int, s: St) -> (St, bool)
    decreases ts.len() - start, rank_GroupCondition(peek_at(ts, start)), 32 * (ts.len() - s.pos) + 32 - 1,
{
    let s_in = s;
    if (peek_at(ts, s.pos) == SyntaxKind::NOT || peek_at(ts, s.pos) == SyntaxKind::STR || peek_at(ts, s.pos) == SyntaxKind::LANG || peek_at(ts, s.pos) == SyntaxKind::LANGMATCHES || peek_at(ts, s.pos) == SyntaxKind::LANGDIR || peek_at(ts, s.pos) == SyntaxKind::DATATYPE || peek_at(ts, s.pos) == SyntaxKind::BOUND || peek_at(ts, s.pos) == SyntaxKind::IRI || peek_at(ts, s.pos) == SyntaxKind::URI || peek_at(ts, s.pos) == SyntaxKind::BNODE || peek_at(ts, s.pos) == SyntaxKind::RAND || peek_at(ts, s.pos) == SyntaxKind::ABS || peek_at(ts, s.pos) == SyntaxKind::CEIL || peek_at(ts, s.pos) == SyntaxKind::FLOOR || peek_at(ts, s.pos) == SyntaxKind::ROUND || peek_at(ts, s.pos) == SyntaxKind::CONCAT || peek_at(ts, s.pos) == SyntaxKind::STRLEN || peek_at(ts, s.pos) == SyntaxKind::UCASE || peek_at(ts, s.pos) == SyntaxKind::LCASE || peek_at(ts, s.pos) == SyntaxKind::ENCODE_FOR_URI || peek_at(ts, s.pos) == SyntaxKind::CONTAINS || peek_at(ts, s.pos) == SyntaxKind::STRSTARTS || peek_at(ts, s.pos) == SyntaxKind::STRENDS || peek_at(ts, s.pos) == SyntaxKind::STRBEFORE || peek_at(ts, s.pos) == SyntaxKind::STRAFTER || peek_at(ts, s.pos) == SyntaxKind::YEAR || peek_at(ts, s.pos) == SyntaxKind::MONTH || peek_at(ts, s.pos) == SyntaxKind::DAY || peek_at(ts, s.pos) == SyntaxKind::HOURS || peek_at(ts, s.pos) == SyntaxKind::MINUTES || peek_at(ts, s.pos) == SyntaxKind::SECONDS || peek_at(ts, s.pos) == SyntaxKind::TIMEZONE || peek_at(ts, s.pos) == SyntaxKind::TZ || peek_at(ts, s.pos) == SyntaxKind::NOW || peek_at(ts, s.pos) == SyntaxKind::UUID || peek_at(ts, s.pos) == SyntaxKind::STRUUID || peek_at(ts, s.pos) == SyntaxKind::MD5 || peek_at(ts, s.pos) == SyntaxKind::SHA1 || peek_at(ts, s.pos) == SyntaxKind::SHA256 || peek_at(ts, s.pos) == SyntaxKind::SHA384 || peek_at(ts, s.pos) == SyntaxKind::SHA512 || peek_at(ts, s.pos) == SyntaxKind::COALESCE || peek_at(ts, s.pos) == SyntaxKind::IF || peek_at(ts, s.pos) == SyntaxKind::STRLANG || peek_at(ts, s.pos) == SyntaxKind::STRLANGDIR || peek_at(ts, s.pos) == SyntaxKind::STRDT || peek_at(ts, s.pos) == SyntaxKind::sameTerm || peek_at(ts, s.pos) == SyntaxKind::isIRI || peek_at(ts, s.pos) == SyntaxKind::isURI || peek_at(ts, s.pos) == SyntaxKind::isBLANK || peek_at(ts, s.pos) == SyntaxKind::isLITERAL || peek_at(ts, s.pos) == SyntaxKind::isNUMERIC || peek_at(ts, s.pos) == SyntaxKind::hasLANG || peek_at(ts, s.pos) == SyntaxKind::hasLANGDIR || peek_at(ts, s.pos) == SyntaxKind::isTRIPLE || peek_at(ts, s.pos) == SyntaxKind::TRIPLE || peek_at(ts, s.pos) == SyntaxKind::SUBJECT || peek_at(ts, s.pos) == SyntaxKind::PREDICATE || peek_at(ts, s.pos) == SyntaxKind::OBJECT || peek_at(ts, s.pos) == SyntaxKind::REGEX || peek_at(ts, s.pos) == SyntaxKind::SUBSTR || peek_at(ts, s.pos) == SyntaxKind::REPLACE || peek_at(ts, s.pos) == SyntaxKind::EXISTS || peek_at(ts, s.pos) == SyntaxKind::COUNT || peek_at(ts, s.pos) == SyntaxKind::SUM || peek_at(ts, s.pos) == SyntaxKind::MIN || peek_at(ts, s.pos) == SyntaxKind::MAX || peek_at(ts, s.pos) == SyntaxKind::AVG || peek_at(ts, s.pos) == SyntaxKind::SAMPLE || peek_at(ts, s.pos) == SyntaxKind::GROUP_CONCAT) {
        let s = if call_ok(ts, start, s, rank_BuiltInCall(peek_at(ts, s.pos)), rank_GroupCondition(peek_at(ts, start))) {
            rule_BuiltInCall(ts, s)
        } else {
            s
        };
        (s, false)
    } else if (peek_at(ts, s.pos) == SyntaxKind::IRIREF || peek_at(ts, s.pos) == SyntaxKind::PNAME_NS || peek_at(ts, s.pos) == SyntaxKind::PNAME_LN) {
        let s = if call_ok(ts, start, s, rank_FunctionCall(peek_at(ts, s.pos)), rank_GroupCondition(peek_at(ts, start))) {
            rule_FunctionCall(ts, s)
        } else {
            s
        };
        (s, false)
    } else if (peek_at(ts, s.pos) == SyntaxKind::LParen) {
        let s = st_expect(ts, s, SyntaxKind::LParen);
        let s = if call_ok(ts, start, s, rank_Expression(peek_at(ts, s.pos)), rank_GroupCondition(peek_at(ts, start))) {
            rule_Expression(ts, s)
        } else {
            s
        };
        let s = if s_in.pos <= s.pos <= ts.len() {
            if_GroupCondition_2(ts, start, m_marker, s)
        } else {
            s
        };
        let s = st_expect(ts, s, SyntaxKind::RParen);
        (s, false)
    } else if (peek_at(ts, s.pos) == SyntaxKind::VAR1 || peek_at(ts, s.pos) == SyntaxKind::VAR2) {
        let s = rule_Var(ts, s);
        (s, false)
    } else if (peek_at(ts, s.pos) == SyntaxKind::Eof) {
        let s = st_close(s, m_marker, SyntaxKind::GroupCondition);
        let m_marker = s.evs.len() as int;
        let s = st_open(s);
        let s = st_close(s, m_marker, SyntaxKind::Error);
        (s, true)
    } else {
        let s = st_advance_with_error(ts, s, seq![SyntaxKind::NOT, SyntaxKind::STR, SyntaxKind::LANG, SyntaxKind::LANGMATCHES, SyntaxKind::LANGDIR, SyntaxKind::DATATYPE, SyntaxKind::BOUND, SyntaxKind::IRI, SyntaxKind::URI, SyntaxKind::BNODE, SyntaxKind::RAND, SyntaxKind::ABS, SyntaxKind::CEIL, SyntaxKind::FLOOR, SyntaxKind::ROUND, SyntaxKind::CONCAT, SyntaxKind::STRLEN, SyntaxKind::UCASE, SyntaxKind::LCASE, SyntaxKind::ENCODE_FOR_URI, SyntaxKind::CONTAINS, SyntaxKind::STRSTARTS, SyntaxKind::STRENDS, SyntaxKind::STRBEFORE, SyntaxKind::STRAFTER, SyntaxKind::YEAR, SyntaxKind::MONTH, SyntaxKind::DAY, SyntaxKind::HOURS, SyntaxKind::MINUTES, SyntaxKind::SECONDS, SyntaxKind::TIMEZONE, SyntaxKind::TZ, SyntaxKind::NOW, SyntaxKind::UUID, SyntaxKind::STRUUID, SyntaxKind::MD5, SyntaxKind::SHA1, SyntaxKind::SHA256, SyntaxKind::SHA384, SyntaxKind::SHA512, SyntaxKind::COALESCE, SyntaxKind::IF, SyntaxKind::STRLANG, SyntaxKind::STRLANGDIR, SyntaxKind::STRDT, SyntaxKind::sameTerm, SyntaxKind::isIRI, SyntaxKind::isURI, SyntaxKind::isBLANK, SyntaxKind::isLITERAL, SyntaxKind::isNUMERIC, SyntaxKind::hasLANG, SyntaxKind::hasLANGDIR, SyntaxKind::isTRIPLE, SyntaxKind::TRIPLE, SyntaxKind::SUBJECT, SyntaxKind::PREDICATE, SyntaxKind::OBJECT, SyntaxKind::REGEX, SyntaxKind::SUBSTR, SyntaxKind::REPLACE, SyntaxKind::EXISTS, SyntaxKind::COUNT, SyntaxKind::SUM, SyntaxKind::MIN, SyntaxKind::MAX, SyntaxKind::AVG, SyntaxKind::SAMPLE, SyntaxKind::GROUP_CONCAT, SyntaxKind::IRIREF, SyntaxKind::PNAME_NS, SyntaxKind::PNAME_LN, SyntaxKind::LParen, SyntaxKind::VAR1, SyntaxKind::VAR2]);
        (s, false)
    }
}

/// [33] GroupCondition -> BuiltInCall | FunctionCall | '(' Expression ('AS' Var)? ')' | Var
pub(crate) fn parse_GroupCondition(p: &mut Parser)
    requires
        old(p).wf(),
    ensures
        Parser::step(*old(p), *final(p)),
        final(p).pos == old(p).pos ==> is_sync_point(old(p).peek()),
        old(p).events@.len() < final(p).events@.len(),
        final(p).events@[old(p).events@.len() as int] == (Event::Open { kind: SyntaxKind::GroupCondition }),
        final(p).events@.last() is Close,
        final(p).st() == rule_GroupCondition(old(p).kinds(), old(p).st()),
    decreases old(p).remaining(), rank_GroupCondition(old(p).peek()), 1int,
{
    let ghost ks = p.kinds();
    let ghost s0 = p.st();
    let ghost start = p.pos as int;
    let marker = p.open();
    let ghost gm1 = marker.index as int;
    let ghost pre1 = p.st();
    match p.nth(0) {
        SyntaxKind::NOT | SyntaxKind::STR | SyntaxKind::LANG | SyntaxKind::LANGMATCHES | SyntaxKind::LANGDIR | SyntaxKind::DATATYPE | SyntaxKind::BOUND | SyntaxKind::IRI | SyntaxKind::URI | SyntaxKind::BNODE | SyntaxKind::RAND | SyntaxKind::ABS | SyntaxKind::CEIL | SyntaxKind::FLOOR | SyntaxKind::ROUND | SyntaxKind::CONCAT | SyntaxKind::STRLEN | SyntaxKind::UCASE | SyntaxKind::LCASE | SyntaxKind::ENCODE_FOR_URI | SyntaxKind::CONTAINS | SyntaxKind::STRSTARTS | SyntaxKind::STRENDS | SyntaxKind::STRBEFORE | SyntaxKind::STRAFTER | SyntaxKind::YEAR | SyntaxKind::MONTH | SyntaxKind::DAY | SyntaxKind::HOURS | SyntaxKind::MINUTES | SyntaxKind::SECONDS | SyntaxKind::TIMEZONE | SyntaxKind::TZ | SyntaxKind::NOW | SyntaxKind::UUID | SyntaxKind::STRUUID | SyntaxKind::MD5 | SyntaxKind::SHA1 | SyntaxKind::SHA256 | SyntaxKind::SHA384 | SyntaxKind::SHA512 | SyntaxKind::COALESCE | SyntaxKind::IF | SyntaxKind::STRLANG | SyntaxKind::STRLANGDIR | SyntaxKind::STRDT | SyntaxKind::sameTerm | SyntaxKind::isIRI | SyntaxKind::isURI | SyntaxKind::isBLANK | SyntaxKind::isLITERAL | SyntaxKind::isNUMERIC | SyntaxKind::hasLANG | SyntaxKind::hasLANGDIR | SyntaxKind::isTRIPLE | SyntaxKind::TRIPLE | SyntaxKind::SUBJECT | SyntaxKind::PREDICATE | SyntaxKind::OBJECT | SyntaxKind::REGEX | SyntaxKind::SUBSTR | SyntaxKind::REPLACE | SyntaxKind::EXISTS | SyntaxKind::COUNT | SyntaxKind::SUM | SyntaxKind::MIN | SyntaxKind::MAX | SyntaxKind::AVG | SyntaxKind::SAMPLE | SyntaxKind::GROUP_CONCAT => {
            proof {
                assert(call_ok(ks, start, p.st(), rank_BuiltInCall(peek_at(ks, p.st().pos)), rank_GroupCondition(peek_at(ks, start)))) by {
                    reveal(Parser::st);
                    assert(peek_at(ks, start) == old(p).peek());
                    assert(peek_at(ks, p.pos as int) == p.peek());
                }
            }
            parse_BuiltInCall(p);
            proof {
                assert(match_GroupCondition_1(ks, start, gm1, pre1) == (p.st(), false)) by {
                    reveal_with_fuel(match_GroupCondition_1, 1); reveal_with_fuel(rule_BuiltInCall, 1);
                }
            }
        },
        SyntaxKind::IRIREF | SyntaxKind::PNAME_NS | SyntaxKind::PNAME_LN => {
            proof {
                assert(call_ok(ks, start, p.st(), rank_FunctionCall(peek_at(ks, p.st().pos)), rank_GroupCondition(peek_at(ks, start)))) by {
                    reveal(Parser::st);
                    assert(peek_at(ks, start) == old(p).peek());
                    assert(peek_at(ks, p.pos as int) == p.peek());
                }
            }
            parse_FunctionCall(p);
            proof {
                assert(match_GroupCondition_1(ks, start, gm1, pre1) == (p.st(), false)) by {
                    reveal_with_fuel(match_GroupCondition_1, 1); reveal_with_fuel(rule_FunctionCall, 1);
                }
            }
        },
        SyntaxKind::LParen => {
            p.expect(SyntaxKind::LParen);
            proof {
                assert(call_ok(ks, start, p.st(), rank_Expression(peek_at(ks, p.st().pos)), rank_GroupCondition(peek_at(ks, start)))) by {
                    reveal(Parser::st);
                    assert(peek_at(ks, start) == old(p).peek());
                    assert(peek_at(ks, p.pos as int) == p.peek());
                }
            }
            parse_Expression(p);
            let ghost pre2 = p.st();
            if p.at_any(&[SyntaxKind::AS]) {
                p.expect(SyntaxKind::AS);
                parse_Var(p);
                proof {
                    assert(if_GroupCondition_2(ks, start, gm1, pre2) == p.st()) by {
                        reveal_with_fuel(if_GroupCondition_2, 1);
                    }
                }
            } else {
                proof {
                    assert(if_GroupCondition_2(ks, start, gm1, pre2) == p.st()) by {
                        reveal_with_fuel(if_GroupCondition_2, 1);
                    }
                }
            }
            p.expect(SyntaxKind::RParen);
            proof {
                assert(match_GroupCondition_1(ks, start, gm1, pre1) == (p.st(), false)) by {
                    reveal_with_fuel(match_GroupCondition_1, 1); reveal_with_fuel(if_GroupCondition_2, 1); reveal_with_fuel(rule_Expression, 1);
                }
            }
        },
        SyntaxKind::VAR1 | SyntaxKind::VAR2 => {
            parse_Var(p);
            proof {
                assert(match_GroupCondition_1(ks, start, gm1, pre1) == (p.st(), false)) by {
                    reveal_with_fuel(match_GroupCondition_1, 1);
                }
            }
        },
        SyntaxKind::Eof => {
            p.close(marker, SyntaxKind::GroupCondition);
            let marker = p.open();
            let ghost gm2 = marker.index as int;
            p.close(marker, SyntaxKind::Error);
            proof {
                assert(match_GroupCondition_1(ks, start, gm1, pre1) == (p.st(), true)) by {
                    reveal_with_fuel(match_GroupCondition_1, 1);
                }
            }
            proof {
                assert(rule_GroupCondition(ks, s0) == p.st()) by {
                    reveal_with_fuel(rule_GroupCondition, 1); reveal_with_fuel(match_GroupCondition_1, 1);
                }
            }
            return ;
        },
        _ => {
            p.advance_with_error(vec![SyntaxKind::NOT, SyntaxKind::STR, SyntaxKind::LANG, SyntaxKind::LANGMATCHES, SyntaxKind::LANGDIR, SyntaxKind::DATATYPE, SyntaxKind::BOUND, SyntaxKind::IRI, SyntaxKind::URI, SyntaxKind::BNODE, SyntaxKind::RAND, SyntaxKind::ABS, SyntaxKind::CEIL, SyntaxKind::FLOOR, SyntaxKind::ROUND, SyntaxKind::CONCAT, SyntaxKind::STRLEN, SyntaxKind::UCASE, SyntaxKind::LCASE, SyntaxKind::ENCODE_FOR_URI, SyntaxKind::CONTAINS, SyntaxKind::STRSTARTS, SyntaxKind::STRENDS, SyntaxKind::STRBEFORE, SyntaxKind::STRAFTER, SyntaxKind::YEAR, SyntaxKind::MONTH, SyntaxKind::DAY, SyntaxKind::HOURS, SyntaxKind::MINUTES, SyntaxKind::SECONDS, SyntaxKind::TIMEZONE, SyntaxKind::TZ, SyntaxKind::NOW, SyntaxKind::UUID, SyntaxKind::STRUUID, SyntaxKind::MD5, SyntaxKind::SHA1, SyntaxKind::SHA256, SyntaxKind::SHA384, SyntaxKind::SHA512, SyntaxKind::COALESCE, SyntaxKind::IF, SyntaxKind::STRLANG, SyntaxKind::STRLANGDIR, SyntaxKind::STRDT, SyntaxKind::sameTerm, SyntaxKind::isIRI, SyntaxKind::isURI, SyntaxKind::isBLANK, SyntaxKind::isLITERAL, SyntaxKind::isNUMERIC, SyntaxKind::hasLANG, SyntaxKind::hasLANGDIR, SyntaxKind::isTRIPLE, SyntaxKind::TRIPLE, SyntaxKind::SUBJECT, SyntaxKind::PREDICATE, SyntaxKind::OBJECT, SyntaxKind::REGEX, SyntaxKind::SUBSTR, SyntaxKind::REPLACE, SyntaxKind::EXISTS, SyntaxKind::COUNT, SyntaxKind::SUM, SyntaxKind::MIN, SyntaxKind::MAX, SyntaxKind::AVG, SyntaxKind::SAMPLE, SyntaxKind::GROUP_CONCAT, SyntaxKind::IRIREF, SyntaxKind::PNAME_NS, SyntaxKind::PNAME_LN, SyntaxKind::LParen, SyntaxKind::VAR1, SyntaxKind::VAR2]);
            proof {
                assert(match_GroupCondition_1(ks, start, gm1, pre1) == (p.st(), false)) by {
                    reveal_with_fuel(match_GroupCondition_1, 1);
                }
            }
        },
    }
    p.close(marker, SyntaxKind::GroupCondition);
    proof {
        assert(rule_GroupCondition(ks, s0) == p.st()) by {
            reveal_with_fuel(rule_GroupCondition, 1); reveal_with_fuel(match_GroupCondition_1, 1);
        }
    }
}

pub open spec fn rank_BuiltInCall(t: SyntaxKind) -> nat {
    match t {
        SyntaxKind::AVG | SyntaxKind::COUNT | SyntaxKind::EXISTS | SyntaxKind::GROUP_CONCAT | SyntaxKind::MAX | SyntaxKind::MIN | SyntaxKind::NOT | SyntaxKind::REGEX | SyntaxKind::REPLACE | SyntaxKind::SAMPLE | SyntaxKind::SUBSTR | SyntaxKind::SUM => 1,
        _ => 0,
    }
}

/// What [`parse_BuiltInCall`] makes of the parser state.
#[verifier::opaque]
pub open spec fn rule_BuiltInCall(ts: Seq<SyntaxKind>, s: St) -> St
    decreases ts.len() - s.pos, rank_BuiltInCall(peek_at(ts, s.pos)), 32 * (ts.len() - s.pos) + 32,
{
    let start = s.pos;
    let s_in = s;
    let m_marker = s.evs.len() as int;
    let s = st_open(s);
    let (s, r) = if s_in.pos <= s.pos <= ts.len() {
        match_BuiltInCall_1(ts, start, m_marker, s)
    } else {
        (s, false)
    };
    if r {
        s
    } else {
        let s = st_close(s, m_marker, SyntaxKind::BuiltInCall);
        s
    }
}

#[verifier::opaque]
pub open spec fn arm_BuiltInCall_2(ts: Seq<SyntaxKind>, start: int, m_marker: int, s: St) -> (St, bool)
    decreases ts.len() - start, rank_BuiltInCall(peek_at(ts, start)), 32 * (ts.len() - s.pos) + 32 - 2,
{
    let s_in = s;
    let s = if call_ok(ts, start, s, rank_Aggregate(peek_at(ts, s.pos)), rank_BuiltInCall(peek_at(ts, start))) {
        rule_Aggregate(ts, s)
    } else {
        s
    };
    (s, false)
}

#[verifier::opaque]
pub open spec fn arm_BuiltInCall_3(ts: Seq<SyntaxKind>, start: int, m_marker: int, s: St) -> (St, bool)
    decreases ts.len() - start, rank_BuiltInCall(peek_at(ts, start)), 32 * (ts.len() - s.pos) + 32 - 2,
{
    let s_in = s;
    let s = st_expect(ts, s, SyntaxKind::STR);
    let s = st_expect(ts, s, SyntaxKind::LParen);
    let s = if call_ok(ts, start, s, rank_Expression(peek_at(ts, s.pos)), rank_BuiltInCall(peek_at(ts, start))) {
        rule_Expression(ts, s)
    } else {
        s
    };
    let s = st_expect(ts, s, SyntaxKind::RParen);
    (s, false)
}

#[verifier::opaque]
pub open spec fn arm_BuiltInCall_4(ts: Seq<SyntaxKind>, start: int, m_marker: int, s: St) -> (St, bool)
    decreases ts.len() - start, rank_BuiltInCall(peek_at(ts, start)), 32 * (ts.len() - s.pos) + 32 - 2,
{
    let s_in = s;
    let s = st_expect(ts, s, SyntaxKind::LANG);
    let s = st_expect(ts, s, SyntaxKind::LParen);
    let s = if call_ok(ts, start, s, rank_Expression(peek_at(ts, s.pos)), rank_BuiltInCall(peek_at(ts, start))) {
        rule_Expression(ts, s)
    } else {
        s
    };
    let s = st_expect(ts, s, SyntaxKind::RParen);
    (s, false)
}

#[verifier::opaque]
pub open spec fn arm_BuiltInCall_5(ts: Seq<SyntaxKind>, start: int, m_marker: int, s: St) -> (St, bool)
    decreases ts.len() - start, rank_BuiltInCall(peek_at(ts, start)), 32 * (ts.len() - s.pos) + 32 - 2,
{
    let s_in = s;
    let s = st_expect(ts, s, SyntaxKind::LANGMATCHES);
    let s = st_expect(ts, s, SyntaxKind::LParen);
    let s = if call_ok(ts, start, s, rank_Expression(peek_at(ts, s.pos)), rank_BuiltInCall(peek_at(ts, start))) {
        rule_Expression(ts, s)
    } else {
        s
    };
    let s = st_expect(ts, s, SyntaxKind::Comma);
    let s = if call_ok(ts, start, s, rank_Expression(peek_at(ts, s.pos)), rank_BuiltInCall(peek_at(ts, start))) {
        rule_Expression(ts, s)
    } else {
        s
    };
    let s = st_expect(ts, s, SyntaxKind::RParen);
    (s, false)
}

#[verifier::opaque]
pub open spec fn arm_BuiltInCall_6(ts: Seq<SyntaxKind>, start: int, m_marker: int, s: St) -> (St, bool)
    decreases ts.len() - start, rank_BuiltInCall(peek_at(ts, start)), 32 * (ts.len() - s.pos) + 32 - 2,
{
    let s_in = s;
    let s = st_expect(ts, s, SyntaxKind::LANGDIR);
    let s = st_expect(ts, s, SyntaxKind::LParen);
    let s = if call_ok(ts, start, s, rank_Expression(peek_at(ts, s.pos)), rank_BuiltInCall(peek_at(ts, start))) {
        rule_Expression(ts, s)
    } else {
        s
    };
    let s = st_expect(ts, s, SyntaxKind::RParen);
    (s, false)
}

#[verifier::opaque]
pub open spec fn arm_BuiltInCall_7(ts: Seq<SyntaxKind>, start: int, m_marker: int, s: St) -> (St, bool)
    decreases ts.len() - start, rank_BuiltInCall(peek_at(ts, start)), 32 * (ts.len() - s.pos) + 32 - 2,
{
    let s_in = s;
    let s = st_expect(ts, s, SyntaxKind::DATATYPE);
    let s = st_expect(ts, s, SyntaxKind::LParen);
    let s = if call_ok(ts, start, s, rank_Expression(peek_at(ts, s.pos)), rank_BuiltInCall(peek_at(ts, start))) {
        rule_Expression(ts, s)
    } else {
        s
    };
    let s = st_expect(ts, s, SyntaxKind::RParen);
    (s, false)
}

#[verifier::opaque]
pub open spec fn arm_BuiltInCall_8(ts: Seq<SyntaxKind>, start: int, m_marker: int, s: St) -> (St, bool)
    decreases ts.len() - start, rank_BuiltInCall(peek_at(ts, start)), 32 * (ts.len() - s.pos) + 32 - 2,
{
    let s_in = s;
    let s = st_expect(ts, s, SyntaxKind::BOUND);
    let s = st_expect(ts, s, SyntaxKind::LParen);
    let s = rule_Var(ts, s);
    let s = st_expect(ts, s, SyntaxKind::RParen);
    (s, false)
}

#[verifier::opaque]
pub open spec fn arm_BuiltInCall_9(ts: Seq<SyntaxKind>, start: int, m_marker: int, s: St) -> (St, bool)
    decreases ts.len() - start, rank_BuiltInCall(peek_at(ts, start)), 32 * (ts.len() - s.pos) + 32 - 2,
{
    let s_in = s;
    let s = st_expect(ts, s, SyntaxKind::IRI);
    let s = st_expect(ts, s, SyntaxKind::LParen);
    let s = if call_ok(ts, start, s, rank_Expression(peek_at(ts, s.pos)), rank_BuiltInCall(peek_at(ts, start))) {
        rule_Expression(ts, s)
    } else {
        s
    };
    let s = st_expect(ts, s, SyntaxKind::RParen);
    (s, false)
}

#[verifier::opaque]
pub open spec fn arm_BuiltInCall_10(ts: Seq<SyntaxKind>, start: int, m_marker: int, s: St) -> (St, bool)
    decreases ts.len() - start, rank_BuiltInCall(peek_at(ts, start)), 32 * (ts.len() - s.pos) + 32 - 2,
{
    let s_in = s;
    let s = st_expect(ts, s, SyntaxKind::URI);
    let s = st_expect(ts, s, SyntaxKind::LParen);
    let s = if call_ok(ts, start, s, rank_Expression(peek_at(ts, s.pos)), rank_BuiltInCall(peek_at(ts, start))) {
        rule_Expression(ts, s)
    } else {
        s
    };
    let s = st_expect(ts, s, SyntaxKind::RParen);
    (s, false)
}

#[verifier::opaque]
pub open spec fn match_BuiltInCall_12(ts: Seq<SyntaxKind>, start: int, m_marker: int, s: St) -> (St, bool)
    decreases ts.len() - start, rank_BuiltInCall(peek_at(ts, start)), 32 * (ts.len() - s.pos) + 32 - 3,
{
    let s_in = s;
    if (peek_at(ts, s.pos) == SyntaxKind::LParen) {
        let s = st_expect(ts, s, SyntaxKind::LParen);
        let s = if call_ok(ts, start, s, rank_Expression(peek_at(ts, s.pos)), rank_BuiltInCall(peek_at(ts, start))) {
            rule_Expression(ts, s)
        } else {
            s
        };
        let s = st_expect(ts, s, SyntaxKind::RParen);
        (s, false)
    } else if (peek_at(ts, s.pos) == SyntaxKind::NIL) {
        let s = st_expect(ts, s, SyntaxKind::NIL);
        (s, false)
    } else if (peek_at(ts, s.pos) == SyntaxKind::Eof) {
        let s = st_close(s, m_marker, SyntaxKind::BuiltInCall);
        let m_marker = s.evs.len() as int;
        let s = st_open(s);
        let s = st_close(s, m_marker, SyntaxKind::Error);
        (s, true)
    } else {
        let s = st_advance_with_error(ts, s, seq![SyntaxKind::LParen, SyntaxKind::NIL]);
        (s, false)
    }
}

#[verifier::opaque]
pub open spec fn arm_BuiltInCall_11(ts: Seq<SyntaxKind>, start: int, m_marker: int, s: St) -> (St, bool)
    decreases ts.len() - start, rank_BuiltInCall(peek_at(ts, start)), 32 * (ts.len() - s.pos) + 32 - 2,
{
    let s_in = s;
    let s = st_expect(ts, s, SyntaxKind::BNODE);
    let (s, r) = if s_in.pos <= s.pos <= ts.len() {
        match_BuiltInCall_12(ts, start, m_marker, s)
    } else {
        (s, false)
    };
    if r {
        (s, true)
    } else {
        (s, false)
    }
}

#[verifier::opaque]
pub open spec fn arm_BuiltInCall_13(ts: Seq<SyntaxKind>, start: int, m_marker: int, s: St) -> (St, bool)
    decreases ts.len() - start, rank_BuiltInCall(peek_at(ts, start)), 32 * (ts.len() - s.pos) + 32 - 2,
{
    let s_in = s;
    let s = st_expect(ts, s, SyntaxKind::RAND);
    let s = st_expect(ts, s, SyntaxKind::NIL);
    (s, false)
}

#[verifier::opaque]
pub open spec fn arm_BuiltInCall_14(ts: Seq<SyntaxKind>, start: int, m_marker: int, s: St) -> (St, bool)
    decreases ts.len() - start, rank_BuiltInCall(peek_at(ts, start)), 32 * (ts.len() - s.pos) + 32 - 2,
{
    let s_in = s;
    let s = st_expect(ts, s, SyntaxKind::ABS);
    let s = st_expect(ts, s, SyntaxKind::LParen);
    let s = if call_ok(ts, start, s, rank_Expression(peek_at(ts, s.pos)), rank_BuiltInCall(peek_at(ts, start))) {
        rule_Expression(ts, s)
    } else {
        s
    };
    let s = st_expect(ts, s, SyntaxKind::RParen);
    (s, false)
}

#[verifier::opaque]
pub open spec fn arm_BuiltInCall_15(ts: Seq<SyntaxKind>, start: int, m_marker: int, s: St) -> (St, bool)
    decreases ts.len() - start, rank_BuiltInCall(peek_at(ts, start)), 32 * (ts.len() - s.pos) + 32 - 2,
{
    let s_in = s;
    let s = st_expect(ts, s, SyntaxKind::CEIL);
    let s = st_expect(ts, s, SyntaxKind::LParen);
    let s = if call_ok(ts, start, s, rank_Expression(peek_at(ts, s.pos)), rank_BuiltInCall(peek_at(ts, start))) {
        rule_Expression(ts, s)
    } else {
        s
    };
    let s = st_expect(ts, s, SyntaxKind::RParen);
    (s, false)
}

#[verifier::opaque]
pub open spec fn arm_BuiltInCall_16(ts: Seq<SyntaxKind>, start: int, m_marker: int, s: St) -> (St, bool)
    decreases ts.len() - start, rank_BuiltInCall(peek_at(ts, start)), 32 * (ts.len() - s.pos) + 32 - 2,
{
    let s_in = s;
    let s = st_expect(ts, s, SyntaxKind::FLOOR);
    let s = st_expect(ts, s, SyntaxKind::LParen);
    let s = if call_ok(ts, start, s, rank_Expression(peek_at(ts, s.pos)), rank_BuiltInCall(peek_at(ts, start))) {
        rule_Expression(ts, s)
    } else {
        s
    };
    let s = st_expect(ts, s, SyntaxKind::RParen);
    (s, false)
}

#[verifier::opaque]
pub open spec fn arm_BuiltInCall_17(ts: Seq<SyntaxKind>, start: int, m_marker: int, s: St) -> (St, bool)
    decreases ts.len() - start, rank_BuiltInCall(peek_at(ts, start)), 32 * (ts.len() - s.pos) + 32 - 2,
{
    let s_in = s;
    let s = st_expect(ts, s, SyntaxKind::ROUND);
    let s = st_expect(ts, s, SyntaxKind::LParen);
    let s = if call_ok(ts, start, s, rank_Expression(peek_at(ts, s.pos)), rank_BuiltInCall(peek_at(ts, start))) {
        rule_Expression(ts, s)
    } else {
        s
    };
    let s = st_expect(ts, s, SyntaxKind::RParen);
    (s, false)
}

#[verifier::opaque]
pub open spec fn arm_BuiltInCall_18(ts: Seq<SyntaxKind>, start: int, m_marker: int, s: St) -> (St, bool)
    decreases ts.len() - start, rank_BuiltInCall(peek_at(ts, start)), 32 * (ts.len() - s.pos) + 32 - 2,
{
    let s_in = s;
    let s = st_expect(ts, s, SyntaxKind::CONCAT);
    let s = if call_ok(ts, start, s, rank_ExpressionList(peek_at(ts, s.pos)), rank_BuiltInCall(peek_at(ts, start))) {
        rule_ExpressionList(ts, s)
    } else {
        s
    };
    (s, false)
}

#[verifier::opaque]
pub open spec fn arm_BuiltInCall_19(ts: Seq<SyntaxKind>, start: int, m_marker: int, s: St) -> (St, bool)
    decreases ts.len() - start, rank_BuiltInCall(peek_at(ts, start)), 32 * (ts.len() - s.pos) + 32 - 2,
{
    let s_in = s;
    let s = if call_ok(ts, start, s, rank_SubstringExpression(peek_at(ts, s.pos)), rank_BuiltInCall(peek_at(ts, start))) {
        rule_SubstringExpression(ts, s)
    } else {
        s
    };
    (s, false)
}

#[verifier::opaque]
pub open spec fn arm_BuiltInCall_20(ts: Seq<SyntaxKind>, start: int, m_marker: int, s: St) -> (St, bool)
    decreases ts.len() - start, rank_BuiltInCall(peek_at(ts, start)), 32 * (ts.len() - s.pos) + 32 - 2,
{
    let s_in = s;
    let s = st_expect(ts, s, SyntaxKind::STRLEN);
    let s = st_expect(ts, s, SyntaxKind::LParen);
    let s = if call_ok(ts, start, s, rank_Expression(peek_at(ts, s.pos)), rank_BuiltInCall(peek_at(ts, start))) {
        rule_Expression(ts, s)
    } else {
        s
    };
    let s = st_expect(ts, s, SyntaxKind::RParen);
    (s, false)
}

#[verifier::opaque]
pub open spec fn arm_BuiltInCall_21(ts: Seq<SyntaxKind>, start: int, m_marker: int, s: St) -> (St, bool)
    decreases ts.len() - start, rank_BuiltInCall(peek_at(ts, start)), 32 * (ts.len() - s.pos) + 32 - 2,
{
    let s_in = s;
    let s = if call_ok(ts, start, s, rank_StrReplaceExpression(peek_at(ts, s.pos)), rank_BuiltInCall(peek_at(ts, start))) {
        rule_StrReplaceExpression(ts, s)
    } else {
        s
    };
    (s, false)
}

#[verifier::opaque]
pub open spec fn arm_BuiltInCall_22(ts: Seq<SyntaxKind>, start: int, m_marker: int, s: St) -> (St, bool)
    decreases ts.len() - start, rank_BuiltInCall(peek_at(ts, start)), 32 * (ts.len() - s.pos) + 32 - 2,
{
    let s_in = s;
    let s = st_expect(ts, s, SyntaxKind::UCASE);
    let s = st_expect(ts, s, SyntaxKind::LParen);
    let s = if call_ok(ts, start, s, rank_Expression(peek_at(ts, s.pos)), rank_BuiltInCall(peek_at(ts, start))) {
        rule_Expression(ts, s)
    } else {
        s
    };
    let s = st_expect(ts, s, SyntaxKind::RParen);
    (s, false)
}

#[verifier::opaque]
pub open spec fn arm_BuiltInCall_23(ts: Seq<SyntaxKind>, start: int, m_marker: int, s: St) -> (St, bool)
    decreases ts.len() - start, rank_BuiltInCall(peek_at(ts, start)), 32 * (ts.len() - s.pos) + 32 - 2,
{
    let s_in = s;
    let s = st_expect(ts, s, SyntaxKind::LCASE);
    let s = st_expect(ts, s, SyntaxKind::LParen);
    let s = if call_ok(ts, start, s, rank_Expression(peek_at(ts, s.pos)), rank_BuiltInCall(peek_at(ts, start))) {
        rule_Expression(ts, s)
    } else {
        s
    };
    let s = st_expect(ts, s, SyntaxKind::RParen);
    (s, false)
}

#[verifier::opaque]
pub open spec fn arm_BuiltInCall_24(ts: Seq<SyntaxKind>, start: int, m_marker: int, s: St) -> (St, bool)
    decreases ts.len() - start, rank_BuiltInCall(peek_at(ts, start)), 32 * (ts.len() - s.pos) + 32 - 2,
{
    let s_in = s;
    let s = st_expect(ts, s, SyntaxKind::ENCODE_FOR_URI);
    let s = st_expect(ts, s, SyntaxKind::LParen);
    let s = if call_ok(ts, start, s, rank_Expression(peek_at(ts, s.pos)), rank_BuiltInCall(peek_at(ts, start))) {
        rule_Expression(ts, s)
    } else {
        s
    };
    let s = st_expect(ts, s, SyntaxKind::RParen);
    (s, false)
}

#[verifier::opaque]
pub open spec fn arm_BuiltInCall_25(ts: Seq<SyntaxKind>, start: int, m_marker: int, s: St) -> (St, bool)
    decreases ts.len() - start, rank_BuiltInCall(peek_at(ts, start)), 32 * (ts.len() - s.pos) + 32 - 2,
{
    let s_in = s;
    let s = st_expect(ts, s, SyntaxKind::CONTAINS);
    let s = st_expect(ts, s, SyntaxKind::LParen);
    let s = if call_ok(ts, start, s, rank_Expression(peek_at(ts, s.pos)), rank_BuiltInCall(peek_at(ts, start))) {
        rule_Expression(ts, s)
    } else {
        s
    };
    let s = st_expect(ts, s, SyntaxKind::Comma);
    let s = if call_ok(ts, start, s, rank_Expression(peek_at(ts, s.pos)), rank_BuiltInCall(peek_at(ts, start))) {
        rule_Expression(ts, s)
    } else {
        s
    };
    let s = st_expect(ts, s, SyntaxKind::RParen);
    (s, false)
}

#[verifier::opaque]
pub open spec fn arm_BuiltInCall_26(ts: Seq<SyntaxKind>, start: int, m_marker: int, s: St) -> (St, bool)
    decreases ts.len() - start, rank_BuiltInCall(peek_at(ts, start)), 32 * (ts.len() - s.pos) + 32 - 2,
{
    let s_in = s;
    let s = st_expect(ts, s, SyntaxKind::STRSTARTS);
    let s = st_expect(ts, s, SyntaxKind::LParen);
    let s = if call_ok(ts, start, s, rank_Expression(peek_at(ts, s.pos)), rank_BuiltInCall(peek_at(ts, start))) {
        rule_Expression(ts, s)
    } else {
        s
    };
    let s = st_expect(ts, s, SyntaxKind::Comma);
    let s = if call_ok(ts, start, s, rank_Expression(peek_at(ts, s.pos)), rank_BuiltInCall(peek_at(ts, start))) {
        rule_Expression(ts, s)
    } else {
        s
    };
    let s = st_expect(ts, s, SyntaxKind::RParen);
    (s, false)
}

#[verifier::opaque]
pub open spec fn arm_BuiltInCall_27(ts: Seq<SyntaxKind>, start: int, m_marker: int, s: St) -> (St, bool)
    decreases ts.len() - start, rank_BuiltInCall(peek_at(ts, start)), 32 * (ts.len() - s.pos) + 32 - 2,
{
    let s_in = s;
    let s = st_expect(ts, s, SyntaxKind::STRENDS);
    let s = st_expect(ts, s, SyntaxKind::LParen);
    let s = if call_ok(ts, start, s, rank_Expression(peek_at(ts, s.pos)), rank_BuiltInCall(peek_at(ts, start))) {
        rule_Expression(ts, s)
    } else {
        s
    };
    let s = st_expect(ts, s, SyntaxKind::Comma);
    let s = if call_ok(ts, start, s, rank_Expression(peek_at(ts, s.pos)), rank_BuiltInCall(peek_at(ts, start))) {
        rule_Expression(ts, s)
    } else {
        s
    };
    let s = st_expect(ts, s, SyntaxKind::RParen);
    (s, false)
}

#[verifier::opaque]
pub open spec fn arm_BuiltInCall_28(ts: Seq<SyntaxKind>, start: int, m_marker: int, s: St) -> (St, bool)
    decreases ts.len() - start, rank_BuiltInCall(peek_at(ts, start)), 32 * (ts.len() - s.pos) + 32 - 2,
{
    let s_in = s;
    let s = st_expect(ts, s, SyntaxKind::STRBEFORE);
    let s = st_expect(ts, s, SyntaxKind::LParen);
    let s = if call_ok(ts, start, s, rank_Expression(peek_at(ts, s.pos)), rank_BuiltInCall(peek_at(ts, start))) {
        rule_Expression(ts, s)
    } else {
        s
    };
    let s = st_expect(ts, s, SyntaxKind::Comma);
    let s = if call_ok(ts, start, s, rank_Expression(peek_at(ts, s.pos)), rank_BuiltInCall(peek_at(ts, start))) {
        rule_Expression(ts, s)
    } else {
        s
    };
    let s = st_expect(ts, s, SyntaxKind::RParen);
    (s, false)
}

#[verifier::opaque]
pub open spec fn arm_BuiltInCall_29(ts: Seq<SyntaxKind>, start: int, m_marker: int, s: St) -> (St, bool)
    decreases ts.len() - start, rank_BuiltInCall(peek_at(ts, start)), 32 * (ts.len() - s.pos) + 32 - 2,
{
    let s_in = s;
    let s = st_expect(ts, s, SyntaxKind::STRAFTER);
    let s = st_expect(ts, s, SyntaxKind::LParen);
    let s = if call_ok(ts, start, s, rank_Expression(peek_at(ts, s.pos)), rank_BuiltInCall(peek_at(ts, start))) {
        rule_Expression(ts, s)
    } else {
        s
    };
    let s = st_expect(ts, s, SyntaxKind::Comma);
    let s = if call_ok(ts, start, s, rank_Expression(peek_at(ts, s.pos)), rank_BuiltInCall(peek_at(ts, start))) {
        rule_Expression(ts, s)
    } else {
        s
    };
    let s = st_expect(ts, s, SyntaxKind::RParen);
    (s, false)
}

#[verifier::opaque]
pub open spec fn arm_BuiltInCall_30(ts: Seq<SyntaxKind>, start: int, m_marker: int, s: St) -> (St, bool)
    decreases ts.len() - start, rank_BuiltInCall(peek_at(ts, start)), 32 * (ts.len() - s.pos) + 32 - 2,
{
    let s_in = s;
    let s = st_expect(ts, s, SyntaxKind::YEAR);
    let s = st_expect(ts, s, SyntaxKind::LParen);
    let s = if call_ok(ts, start, s, rank_Expression(peek_at(ts, s.pos)), rank_BuiltInCall(peek_at(ts, start))) {
        rule_Expression(ts, s)
    } else {
        s
    };
    let s = st_expect(ts, s, SyntaxKind::RParen);
    (s, false)
}

#[verifier::opaque]
pub open spec fn arm_BuiltInCall_31(ts: Seq<SyntaxKind>, start: int, m_marker: int, s: St) -> (St, bool)
    decreases ts.len() - start, rank_BuiltInCall(peek_at(ts, start)), 32 * (ts.len() - s.pos) + 32 - 2,
{
    let s_in = s;
    let s = st_expect(ts, s, SyntaxKind::MONTH);
    let s = st_expect(ts, s, SyntaxKind::LParen);
    let s = if call_ok(ts, start, s, rank_Expression(peek_at(ts, s.pos)), rank_BuiltInCall(peek_at(ts, start))) {
        rule_Expression(ts, s)
    } else {
        s
    };
    let s = st_expect(ts, s, SyntaxKind::RParen);
    (s, false)
}

#[verifier::opaque]
pub open spec fn arm_BuiltInCall_32(ts: Seq<SyntaxKind>, start: int, m_marker: int, s: St) -> (St, bool)
    decreases ts.len() - start, rank_BuiltInCall(peek_at(ts, start)), 32 * (ts.len() - s.pos) + 32 - 2,
{
    let s_in = s;
    let s = st_expect(ts, s, SyntaxKind::DAY);
    let s = st_expect(ts, s, SyntaxKind::LParen);
    let s = if call_ok(ts, start, s, rank_Expression(peek_at(ts, s.pos)), rank_BuiltInCall(peek_at(ts, start))) {
        rule_Expression(ts, s)
    } else {
        s
    };
    let s = st_expect(ts, s, SyntaxKind::RParen);
    (s, false)
}

#[verifier::opaque]
pub open spec fn arm_BuiltInCall_33(ts: Seq<SyntaxKind>, start: int, m_marker: int, s: St) -> (St, bool)
    decreases ts.len() - start, rank_BuiltInCall(peek_at(ts, start)), 32 * (ts.len() - s.pos) + 32 - 2,
{
    let s_in = s;
    let s = st_expect(ts, s, SyntaxKind::HOURS);
    let s = st_expect(ts, s, SyntaxKind::LParen);
    let s = if call_ok(ts, start, s, rank_Expression(peek_at(ts, s.pos)), rank_BuiltInCall(peek_at(ts, start))) {
        rule_Expression(ts, s)
    } else {
        s
    };
    let s = st_expect(ts, s, SyntaxKind::RParen);
    (s, false)
}

#[verifier::opaque]
pub open spec fn arm_BuiltInCall_34(ts: Seq<SyntaxKind>, start: int, m_marker: int, s: St) -> (St, bool)
    decreases ts.len() - start, rank_BuiltInCall(peek_at(ts, start)), 32 * (ts.len() - s.pos) + 32 - 2,
{
    let s_in = s;
    let s = st_expect(ts, s, SyntaxKind::MINUTES);
    let s = st_expect(ts, s, SyntaxKind::LParen);
    let s = if call_ok(ts, start, s, rank_Expression(peek_at(ts, s.pos)), rank_BuiltInCall(peek_at(ts, start))) {
        rule_Expression(ts, s)
    } else {
        s
    };
    let s = st_expect(ts, s, SyntaxKind::RParen);
    (s, false)
}

#[verifier::opaque]
pub open spec fn arm_BuiltInCall_35(ts: Seq<SyntaxKind>, start: int, m_marker: int, s: St) -> (St, bool)
    decreases ts.len() - start, rank_BuiltInCall(peek_at(ts, start)), 32 * (ts.len() - s.pos) + 32 - 2,
{
    let s_in = s;
    let s = st_expect(ts, s, SyntaxKind::SECONDS);
    let s = st_expect(ts, s, SyntaxKind::LParen);
    let s = if call_ok(ts, start, s, rank_Expression(peek_at(ts, s.pos)), rank_BuiltInCall(peek_at(ts, start))) {
        rule_Expression(ts, s)
    } else {
        s
    };
    let s = st_expect(ts, s, SyntaxKind::RParen);
    (s, false)
}

#[verifier::opaque]
pub open spec fn arm_BuiltInCall_36(ts: Seq<SyntaxKind>, start: int, m_marker: int, s: St) -> (St, bool)
    decreases ts.len() - start, rank_BuiltInCall(peek_at(ts, start)), 32 * (ts.len() - s.pos) + 32 - 2,
{
    let s_in = s;
    let s = st_expect(ts, s, SyntaxKind::TIMEZONE);
    let s = st_expect(ts, s, SyntaxKind::LParen);
    let s = if call_ok(ts, start, s, rank_Expression(peek_at(ts, s.pos)), rank_BuiltInCall(peek_at(ts, start))) {
        rule_Expression(ts, s)
    } else {
        s
    };
    let s = st_expect(ts, s, SyntaxKind::RParen);
    (s, false)
}

#[verifier::opaque]
pub open spec fn arm_BuiltInCall_37(ts: Seq<SyntaxKind>, start: int, m_marker: int, s: St) -> (St, bool)
    decreases ts.len() - start, rank_BuiltInCall(peek_at(ts, start)), 32 * (ts.len() - s.pos) + 32 - 2,
{
    let s_in = s;
    let s = st_expect(ts, s, SyntaxKind::TZ);
    let s = st_expect(ts, s, SyntaxKind::LParen);
    let s = if call_ok(ts, start, s, rank_Expression(peek_at(ts, s.pos)), rank_BuiltInCall(peek_at(ts, start))) {
        rule_Expression(ts, s)
    } else {
        s
    };
    let s = st_expect(ts, s, SyntaxKind::RParen);
    (s, false)
}

#[verifier::opaque]
pub open spec fn arm_BuiltInCall_38(ts: Seq<SyntaxKind>, start: int, m_marker: int, s: St) -> (St, bool)
    decreases ts.len() - start, rank_BuiltInCall(peek_at(ts, start)), 32 * (ts.len() - s.pos) + 32 - 2,
{
    let s_in = s;
    let s = st_expect(ts, s, SyntaxKind::NOW);
    let s = st_expect(ts, s, SyntaxKind::NIL);
    (s, false)
}

#[verifier::opaque]
pub open spec fn arm_BuiltInCall_39(ts: Seq<SyntaxKind>, start: int, m_marker: int, s: St) -> (St, bool)
    decreases ts.len() - start, rank_BuiltInCall(peek_at(ts, start)), 32 * (ts.len() - s.pos) + 32 - 2,
{
    let s_in = s;
    let s = st_expect(ts, s, SyntaxKind::UUID);
    let s = st_expect(ts, s, SyntaxKind::NIL);
    (s, false)
}

#[verifier::opaque]
pub open spec fn arm_BuiltInCall_40(ts: Seq<SyntaxKind>, start: int, m_marker: int, s: St) -> (St, bool)
    decreases ts.len() - start, rank_BuiltInCall(peek_at(ts, start)), 32 * (ts.len() - s.pos) + 32 - 2,
{
    let s_in = s;
    let s = st_expect(ts, s, SyntaxKind::STRUUID);
    let s = st_expect(ts, s, SyntaxKind::NIL);
    (s, false)
}

#[verifier::opaque]
pub open spec fn arm_BuiltInCall_41(ts: Seq<SyntaxKind>, start: int, m_marker: int, s: St) -> (St, bool)
    decreases ts.len() - start, rank_BuiltInCall(peek_at(ts, start)), 32 * (ts.len() - s.pos) + 32 - 2,
{
    let s_in = s;
    let s = st_expect(ts, s, SyntaxKind::MD5);
    let s = st_expect(ts, s, SyntaxKind::LParen);
    let s = if call_ok(ts, start, s, rank_Expression(peek_at(ts, s.pos)), rank_BuiltInCall(peek_at(ts, start))) {
        rule_Expression(ts, s)
    } else {
        s
    };
    let s = st_expect(ts, s, SyntaxKind::RParen);
    (s, false)
}

#[verifier::opaque]
pub open spec fn arm_BuiltInCall_42(ts: Seq<SyntaxKind>, start: int, m_marker: int, s: St) -> (St, bool)
    decreases ts.len() - start, rank_BuiltInCall(peek_at(ts, start)), 32 * (ts.len() - s.pos) + 32 - 2,
{
    let s_in = s;
    let s = st_expect(ts, s, SyntaxKind::SHA1);
    let s = st_expect(ts, s, SyntaxKind::LParen);
    let s = if call_ok(ts, start, s, rank_Expression(peek_at(ts, s.pos)), rank_BuiltInCall(peek_at(ts, start))) {
        rule_Expression(ts, s)
    } else {
        s
    };
    let s = st_expect(ts, s, SyntaxKind::RParen);
    (s, false)
}

#[verifier::opaque]
pub open spec fn arm_BuiltInCall_43(ts: Seq<SyntaxKind>, start: int, m_marker: int, s: St) -> (St, bool)
    decreases ts.len() - start, rank_BuiltInCall(peek_at(ts, start)), 32 * (ts.len() - s.pos) + 32 - 2,
{
    let s_in = s;
    let s = st_expect(ts, s, SyntaxKind::SHA256);
    let s = st_expect(ts, s, SyntaxKind::LParen);
    let s = if call_ok(ts, start, s, rank_Expression(peek_at(ts, s.pos)), rank_BuiltInCall(peek_at(ts, start))) {
        rule_Expression(ts, s)
    } else {
        s
    };
    let s = st_expect(ts, s, SyntaxKind::RParen);
    (s, false)
}

#[verifier::opaque]
pub open spec fn arm_BuiltInCall_44(ts: Seq<SyntaxKind>, start: int, m_marker: int, s: St) -> (St, bool)
    decreases ts.len() - start, rank_BuiltInCall(peek_at(ts, start)), 32 * (ts.len() - s.pos) + 32 - 2,
{
    let s_in = s;
    let s = st_expect(ts, s, SyntaxKind::SHA384);
    let s = st_expect(ts, s, SyntaxKind::LParen);
    let s = if call_ok(ts, start, s, rank_Expression(peek_at(ts, s.pos)), rank_BuiltInCall(peek_at(ts, start))) {
        rule_Expression(ts, s)
    } else {
        s
    };
    let s = st_expect(ts, s, SyntaxKind::RParen);
    (s, false)
}

#[verifier::opaque]
pub open spec fn arm_BuiltInCall_45(ts: Seq<SyntaxKind>, start: int, m_marker: int, s: St) -> (St, bool)
    decreases ts.len() - start, rank_BuiltInCall(peek_at(ts, start)), 32 * (ts.len() - s.pos) + 32 - 2,
{
    let s_in = s;
    let s = st_expect(ts, s, SyntaxKind::SHA512);
    let s = st_expect(ts, s, SyntaxKind::LParen);
    let s = if call_ok(ts, start, s, rank_Expression(peek_at(ts, s.pos)), rank_BuiltInCall(peek_at(ts, start))) {
        rule_Expression(ts, s)
    } else {
        s
    };
    let s = st_expect(ts, s, SyntaxKind::RParen);
    (s, false)
}

#[verifier::opaque]
pub open spec fn arm_BuiltInCall_46(ts: Seq<SyntaxKind>, start: int, m_marker: int, s: St) -> (St, bool)
    decreases ts.len() - start, rank_BuiltInCall(peek_at(ts, start)), 32 * (ts.len() - s.pos) + 32 - 2,
{
    let s_in = s;
    let s = st_expect(ts, s, SyntaxKind::COALESCE);
    let s = if call_ok(ts, start, s, rank_ExpressionList(peek_at(ts, s.pos)), rank_BuiltInCall(peek_at(ts, start))) {
        rule_ExpressionList(ts, s)
    } else {
        s
    };
    (s, false)
}

#[verifier::opaque]
pub open spec fn arm_BuiltInCall_47(ts: Seq<SyntaxKind>, start: int, m_marker: int, s: St) -> (St, bool)
    decreases ts.len() - start, rank_BuiltInCall(peek_at(ts, start)), 32 * (ts.len() - s.pos) + 32 - 2,
{
    let s_in = s;
    let s = st_expect(ts, s, SyntaxKind::IF);
    let s = st_expect(ts, s, SyntaxKind::LParen);
    let s = if call_ok(ts, start, s, rank_Expression(peek_at(ts, s.pos)), rank_BuiltInCall(peek_at(ts, start))) {
        rule_Expression(ts, s)
    } else {
        s
    };
    let s = st_expect(ts, s, SyntaxKind::Comma);
    let s = if call_ok(ts, start, s, rank_Expression(peek_at(ts, s.pos)), rank_BuiltInCall(peek_at(ts, start))) {
        rule_Expression(ts, s)
    } else {
        s
    };
    let s = st_expect(ts, s, SyntaxKind::Comma);
    let s = if call_ok(ts, start, s, rank_Expression(peek_at(ts, s.pos)), rank_BuiltInCall(peek_at(ts, start))) {
        rule_Expression(ts, s)
    } else {
        s
    };
    let s = st_expect(ts, s, SyntaxKind::RParen);
    (s, false)
}

#[verifier::opaque]
pub open spec fn arm_BuiltInCall_48(ts: Seq<SyntaxKind>, start: int, m_marker: int, s: St) -> (St, bool)
    decreases ts.len() - start, rank_BuiltInCall(peek_at(ts, start)), 32 * (ts.len() - s.pos) + 32 - 2,
{
    let s_in = s;
    let s = st_expect(ts, s, SyntaxKind::STRLANG);
    let s = st_expect(ts, s, SyntaxKind::LParen);
    let s = if call_ok(ts, start, s, rank_Expression(peek_at(ts, s.pos)), rank_BuiltInCall(peek_at(ts, start))) {
        rule_Expression(ts, s)
    } else {
        s
    };
    let s = st_expect(ts, s, SyntaxKind::Comma);
    let s = if call_ok(ts, start, s, rank_Expression(peek_at(ts, s.pos)), rank_BuiltInCall(peek_at(ts, start))) {
        rule_Expression(ts, s)
    } else {
        s
    };
    let s = st_expect(ts, s, SyntaxKind::RParen);
    (s, false)
}

#[verifier::opaque]
pub open spec fn arm_BuiltInCall_49(ts: Seq<SyntaxKind>, start: int, m_marker: int, s: St) -> (St, bool)
    decreases ts.len() - start, rank_BuiltInCall(peek_at(ts, start)), 32 * (ts.len() - s.pos) + 32 - 2,
{
    let s_in = s;
    let s = st_expect(ts, s, SyntaxKind::STRLANGDIR);
    let s = st_expect(ts, s, SyntaxKind::LParen);
    let s = if call_ok(ts, start, s, rank_Expression(peek_at(ts, s.pos)), rank_BuiltInCall(peek_at(ts, start))) {
        rule_Expression(ts, s)
    } else {
        s
    };
    let s = st_expect(ts, s, SyntaxKind::Comma);
    let s = if call_ok(ts, start, s, rank_Expression(peek_at(ts, s.pos)), rank_BuiltInCall(peek_at(ts, start))) {
        rule_Expression(ts, s)
    } else {
        s
    };
    let s = st_expect(ts, s, SyntaxKind::Comma);
    let s = if call_ok(ts, start, s, rank_Expression(peek_at(ts, s.pos)), rank_BuiltInCall(peek_at(ts, start))) {
        rule_Expression(ts, s)
    } else {
        s
    };
    let s = st_expect(ts, s, SyntaxKind::RParen);
    (s, false)
}

#[verifier::opaque]
pub open spec fn arm_BuiltInCall_50(ts: Seq<SyntaxKind>, start: int, m_marker: int, s: St) -> (St, bool)
    decreases ts.len() - start, rank_BuiltInCall(peek_at(ts, start)), 32 * (ts.len() - s.pos) + 32 - 2,
{
    let s_in = s;
    let s = st_expect(ts, s, SyntaxKind::STRDT);
    let s = st_expect(ts, s, SyntaxKind::LParen);
    let s = if call_ok(ts, start, s, rank_Expression(peek_at(ts, s.pos)), rank_BuiltInCall(peek_at(ts, start))) {
        rule_Expression(ts, s)
    } else {
        s
    };
    let s = st_expect(ts, s, SyntaxKind::Comma);
    let s = if call_ok(ts, start, s, rank_Expression(peek_at(ts, s.pos)), rank_BuiltInCall(peek_at(ts, start))) {
        rule_Expression(ts, s)
    } else {
        s
    };
    let s = st_expect(ts, s, SyntaxKind::RParen);
    (s, false)
}

#[verifier::opaque]
pub open spec fn arm_BuiltInCall_51(ts: Seq<SyntaxKind>, start: int, m_marker: int, s: St) -> (St, bool)
    decreases ts.len() - start, rank_BuiltInCall(peek_at(ts, start)), 32 * (ts.len() - s.pos) + 32 - 2,
{
    let s_in = s;
    let s = st_expect(ts, s, SyntaxKind::sameTerm);
    let s = st_expect(ts, s, SyntaxKind::LParen);
    let s = if call_ok(ts, start, s, rank_Expression(peek_at(ts, s.pos)), rank_BuiltInCall(peek_at(ts, start))) {
        rule_Expression(ts, s)
    } else {
        s
    };
    let s = st_expect(ts, s, SyntaxKind::Comma);
    let s = if call_ok(ts, start, s, rank_Expression(peek_at(ts, s.pos)), rank_BuiltInCall(peek_at(ts, start))) {
        rule_Expression(ts, s)
    } else {
        s
    };
    let s = st_expect(ts, s, SyntaxKind::RParen);
    (s, false)
}

#[verifier::opaque]
pub open spec fn arm_BuiltInCall_52(ts: Seq<SyntaxKind>, start: int, m_marker: int, s: St) -> (St, bool)
    decreases ts.len() - start, rank_BuiltInCall(peek_at(ts, start)), 32 * (ts.len() - s.pos) + 32 - 2,
{
    let s_in = s;
    let s = st_expect(ts, s, SyntaxKind::isIRI);
    let s = st_expect(ts, s, SyntaxKind::LParen);
    let s = if call_ok(ts, start, s, rank_Expression(peek_at(ts, s.pos)), rank_BuiltInCall(peek_at(ts, start))) {
        rule_Expression(ts, s)
    } else {
        s
    };
    let s = st_expect(ts, s, SyntaxKind::RParen);
    (s, false)
}

#[verifier::opaque]
pub open spec fn arm_BuiltInCall_53(ts: Seq<SyntaxKind>, start: int, m_marker: int, s: St) -> (St, bool)
    decreases ts.len() - start, rank_BuiltInCall(peek_at(ts, start)), 32 * (ts.len() - s.pos) + 32 - 2,
{
    let s_in = s;
    let s = st_expect(ts, s, SyntaxKind::isURI);
    let s = st_expect(ts, s, SyntaxKind::LParen);
    let s = if call_ok(ts, start, s, rank_Expression(peek_at(ts, s.pos)), rank_BuiltInCall(peek_at(ts, start))) {
        rule_Expression(ts, s)
    } else {
        s
    };
    let s = st_expect(ts, s, SyntaxKind::RParen);
    (s, false)
}

#[verifier::opaque]
pub open spec fn arm_BuiltInCall_54(ts: Seq<SyntaxKind>, start: int, m_marker: int, s: St) -> (St, bool)
    decreases ts.len() - start, rank_BuiltInCall(peek_at(ts, start)), 32 * (ts.len() - s.pos) + 32 - 2,
{
    let s_in = s;
    let s = st_expect(ts, s, SyntaxKind::isBLANK);
    let s = st_expect(ts, s, SyntaxKind::LParen);
    let s = if call_ok(ts, start, s, rank_Expression(peek_at(ts, s.pos)), rank_BuiltInCall(peek_at(ts, start))) {
        rule_Expression(ts, s)
    } else {
        s
    };
    let s = st_expect(ts, s, SyntaxKind::RParen);
    (s, false)
}

#[verifier::opaque]
pub open spec fn arm_BuiltInCall_55(ts: Seq<SyntaxKind>, start: int, m_marker: int, s: St) -> (St, bool)
    decreases ts.len() - start, rank_BuiltInCall(peek_at(ts, start)), 32 * (ts.len() - s.pos) + 32 - 2,
{
    let s_in = s;
    let s = st_expect(ts, s, SyntaxKind::isLITERAL);
    let s = st_expect(ts, s, SyntaxKind::LParen);
    let s = if call_ok(ts, start, s, rank_Expression(peek_at(ts, s.pos)), rank_BuiltInCall(peek_at(ts, start))) {
        rule_Expression(ts, s)
    } else {
        s
    };
    let s = st_expect(ts, s, SyntaxKind::RParen);
    (s, false)
}

#[verifier::opaque]
pub open spec fn arm_BuiltInCall_56(ts: Seq<SyntaxKind>, start: int, m_marker: int, s: St) -> (St, bool)
    decreases ts.len() - start, rank_BuiltInCall(peek_at(ts, start)), 32 * (ts.len() - s.pos) + 32 - 2,
{
    let s_in = s;
    let s = st_expect(ts, s, SyntaxKind::isNUMERIC);
    let s = st_expect(ts, s, SyntaxKind::LParen);
    let s = if call_ok(ts, start, s, rank_Expression(peek_at(ts, s.pos)), rank_BuiltInCall(peek_at(ts, start))) {
        rule_Expression(ts, s)
    } else {
        s
    };
    let s = st_expect(ts, s, SyntaxKind::RParen);
    (s, false)
}

#[verifier::opaque]
pub open spec fn arm_BuiltInCall_57(ts: Seq<SyntaxKind>, start: int, m_marker: int, s: St) -> (St, bool)
    decreases ts.len() - start, rank_BuiltInCall(peek_at(ts, start)), 32 * (ts.len() - s.pos) + 32 - 2,
{
    let s_in = s;
    let s = st_expect(ts, s, SyntaxKind::hasLANG);
    let s = st_expect(ts, s, SyntaxKind::LParen);
    let s = if call_ok(ts, start, s, rank_Expression(peek_at(ts, s.pos)), rank_BuiltInCall(peek_at(ts, start))) {
        rule_Expression(ts, s)
    } else {
        s
    };
    let s = st_expect(ts, s, SyntaxKind::RParen);
    (s, false)
}

#[verifier::opaque]
pub open spec fn arm_BuiltInCall_58(ts: Seq<SyntaxKind>, start: int, m_marker: int, s: St) -> (St, bool)
    decreases ts.len() - start, rank_BuiltInCall(peek_at(ts, start)), 32 * (ts.len() - s.pos) + 32 - 2,
{
    let s_in = s;
    let s = st_expect(ts, s, SyntaxKind::hasLANGDIR);
    let s = st_expect(ts, s, SyntaxKind::LParen);
    let s = if call_ok(ts, start, s, rank_Expression(peek_at(ts, s.pos)), rank_BuiltInCall(peek_at(ts, start))) {
        rule_Expression(ts, s)
    } else {
        s
    };
    let s = st_expect(ts, s, SyntaxKind::RParen);
    (s, false)
}

#[verifier::opaque]
pub open spec fn arm_BuiltInCall_59(ts: Seq<SyntaxKind>, start: int, m_marker: int, s: St) -> (St, bool)
    decreases ts.len() - start, rank_BuiltInCall(peek_at(ts, start)), 32 * (ts.len() - s.pos) + 32 - 2,
{
    let s_in = s;
    let s = if call_ok(ts, start, s, rank_RegexExpression(peek_at(ts, s.pos)), rank_BuiltInCall(peek_at(ts, start))) {
        rule_RegexExpression(ts, s)
    } else {
        s
    };
    (s, false)
}

#[verifier::opaque]
pub open spec fn arm_BuiltInCall_60(ts: Seq<SyntaxKind>, start: int, m_marker: int, s: St) -> (St, bool)
    decreases ts.len() - start, rank_BuiltInCall(peek_at(ts, start)), 32 * (ts.len() - s.pos) + 32 - 2,
{
    let s_in = s;
    let s = if call_ok(ts, start, s, rank_ExistsFunc(peek_at(ts, s.pos)), rank_BuiltInCall(peek_at(ts, start))) {
        rule_ExistsFunc(ts, s)
    } else {
        s
    };
    (s, false)
}

#[verifier::opaque]
pub open spec fn arm_BuiltInCall_61(ts: Seq<SyntaxKind>, start: int, m_marker: int, s: St) -> (St, bool)
    decreases ts.len() - start, rank_BuiltInCall(peek_at(ts, start)), 32 * (ts.len() - s.pos) + 32 - 2,
{
    let s_in = s;
    let s = if call_ok(ts, start, s, rank_NotExistsFunc(peek_at(ts, s.pos)), rank_BuiltInCall(peek_at(ts, start))) {
        rule_NotExistsFunc(ts, s)
    } else {
        s
    };
    (s, false)
}

#[verifier::opaque]
pub open spec fn arm_BuiltInCall_62(ts: Seq<SyntaxKind>, start: int, m_marker: int, s: St) -> (St, bool)
    decreases ts.len() - start, rank_BuiltInCall(peek_at(ts, start)), 32 * (ts.len() - s.pos) + 32 - 2,
{
    let s_in = s;
    let s = st_expect(ts, s, SyntaxKind::isTRIPLE);
    let s = st_expect(ts, s, SyntaxKind::LParen);
    let s = if call_ok(ts, start, s, rank_Expression(peek_at(ts, s.pos)), rank_BuiltInCall(peek_at(ts, start))) {
        rule_Expression(ts, s)
    } else {
        s
    };
    let s = st_expect(ts, s, SyntaxKind::RParen);
    (s, false)
}

#[verifier::opaque]
pub open spec fn arm_BuiltInCall_63(ts: Seq<SyntaxKind>, start: int, m_marker: int, s: St) -> (St, bool)
    decreases ts.len() - start, rank_BuiltInCall(peek_at(ts, start)), 32 * (ts.len() - s.pos) + 32 - 2,
{
    let s_in = s;
    let s = st_expect(ts, s, SyntaxKind::TRIPLE);
    let s = st_expect(ts, s, SyntaxKind::LParen);
    let s = if call_ok(ts, start, s, rank_Expression(peek_at(ts, s.pos)), rank_BuiltInCall(peek_at(ts, start))) {
        rule_Expression(ts, s)
    } else {
        s
    };
    let s = st_expect(ts, s, SyntaxKind::Comma);
    let s = if call_ok(ts, start, s, rank_Expression(peek_at(ts, s.pos)), rank_BuiltInCall(peek_at(ts, start))) {
        rule_Expression(ts, s)
    } else {
        s
    };
    let s = st_expect(ts, s, SyntaxKind::Comma);
    let s = if call_ok(ts, start, s, rank_Expression(peek_at(ts, s.pos)), rank_BuiltInCall(peek_at(ts, start))) {
        rule_Expression(ts, s)
    } else {
        s
    };
    let s = st_expect(ts, s, SyntaxKind::RParen);
    (s, false)
}

#[verifier::opaque]
pub open spec fn arm_BuiltInCall_64(ts: Seq<SyntaxKind>, start: int, m_marker: int, s: St) -> (St, bool)
    decreases ts.len() - start, rank_BuiltInCall(peek_at(ts, start)), 32 * (ts.len() - s.pos) + 32 - 2,
{
    let s_in = s;
    let s = st_expect(ts, s, SyntaxKind::SUBJECT);
    let s = st_expect(ts, s, SyntaxKind::LParen);
    let s = if call_ok(ts, start, s, rank_Expression(peek_at(ts, s.pos)), rank_BuiltInCall(peek_at(ts, start))) {
        rule_Expression(ts, s)
    } else {
        s
    };
    let s = st_expect(ts, s, SyntaxKind::RParen);
    (s, false)
}

#[verifier::opaque]
pub open spec fn arm_BuiltInCall_65(ts: Seq<SyntaxKind>, start: int, m_marker: int, s: St) -> (St, bool)
    decreases ts.len() - start, rank_BuiltInCall(peek_at(ts, start)), 32 * (ts.len() - s.pos) + 32 - 2,
{
    let s_in = s;
    let s = st_expect(ts, s, SyntaxKind::PREDICATE);
    let s = st_expect(ts, s, SyntaxKind::LParen);
    let s = if call_ok(ts, start, s, rank_Expression(peek_at(ts, s.pos)), rank_BuiltInCall(peek_at(ts, start))) {
        rule_Expression(ts, s)
    } else {
        s
    };
    let s = st_expect(ts, s, SyntaxKind::RParen);
    (s, false)
}

#[verifier::opaque]
pub open spec fn arm_BuiltInCall_66(ts: Seq<SyntaxKind>, start: int, m_marker: int, s: St) -> (St, bool)
    decreases ts.len() - start, rank_BuiltInCall(peek_at(ts, start)), 32 * (ts.len() - s.pos) + 32 - 2,
{
    let s_in = s;
    let s = st_expect(ts, s, SyntaxKind::OBJECT);
    let s = st_expect(ts, s, SyntaxKind::LParen);
    let s = if call_ok(ts, start, s, rank_Expression(peek_at(ts, s.pos)), rank_BuiltInCall(peek_at(ts, start))) {
        rule_Expression(ts, s)
    } else {
        s
    };
    let s = st_expect(ts, s, SyntaxKind::RParen);
    (s, false)
}

#[verifier::opaque]
pub open spec fn arm_BuiltInCall_67(ts: Seq<SyntaxKind>, start: int, m_marker: int, s: St) -> (St, bool)
    decreases ts.len() - start, rank_BuiltInCall(peek_at(ts, start)), 32 * (ts.len() - s.pos) + 32 - 2,
{
    let s_in = s;
    let s = st_close(s, m_marker, SyntaxKind::BuiltInCall);
    let m_marker = s.evs.len() as int;
    let s = st_open(s);
    let s = st_close(s, m_marker, SyntaxKind::Error);
    (s, true)
}

#[verifier::opaque]
pub open spec fn arm_BuiltInCall_68(ts: Seq<SyntaxKind>, start: int, m_marker: int, s: St) -> (St, bool)
    decreases ts.len() - start, rank_BuiltInCall(peek_at(ts, start)), 32 * (ts.len() - s.pos) + 32 - 2,
{
    let s_in = s;
    let s = st_advance_with_error(ts, s, seq![SyntaxKind::COUNT, SyntaxKind::SUM, SyntaxKind::MIN, SyntaxKind::MAX, SyntaxKind::AVG, SyntaxKind::SAMPLE, SyntaxKind::GROUP_CONCAT, SyntaxKind::STR, SyntaxKind::LANG, SyntaxKind::LANGMATCHES, SyntaxKind::LANGDIR, SyntaxKind::DATATYPE, SyntaxKind::BOUND, SyntaxKind::IRI, SyntaxKind::URI, SyntaxKind::BNODE, SyntaxKind::RAND, SyntaxKind::ABS, SyntaxKind::CEIL, SyntaxKind::FLOOR, SyntaxKind::ROUND, SyntaxKind::CONCAT, SyntaxKind::SUBSTR, SyntaxKind::STRLEN, SyntaxKind::REPLACE, SyntaxKind::UCASE, SyntaxKind::LCASE, SyntaxKind::ENCODE_FOR_URI, SyntaxKind::CONTAINS, SyntaxKind::STRSTARTS, SyntaxKind::STRENDS, SyntaxKind::STRBEFORE, SyntaxKind::STRAFTER, SyntaxKind::YEAR, SyntaxKind::MONTH, SyntaxKind::DAY, SyntaxKind::HOURS, SyntaxKind::MINUTES, SyntaxKind::SECONDS, SyntaxKind::TIMEZONE, SyntaxKind::TZ, SyntaxKind::NOW, SyntaxKind::UUID, SyntaxKind::STRUUID, SyntaxKind::MD5, SyntaxKind::SHA1, SyntaxKind::SHA256, SyntaxKind::SHA384, SyntaxKind::SHA512, SyntaxKind::COALESCE, SyntaxKind::IF, SyntaxKind::STRLANG, SyntaxKind::STRLANGDIR, SyntaxKind::STRDT, SyntaxKind::sameTerm, SyntaxKind::isIRI, SyntaxKind::isURI, SyntaxKind::isBLANK, SyntaxKind::isLITERAL, SyntaxKind::isNUMERIC, SyntaxKind::hasLANG, SyntaxKind::hasLANGDIR, SyntaxKind::REGEX, SyntaxKind::EXISTS, SyntaxKind::NOT, SyntaxKind::isTRIPLE, SyntaxKind::TRIPLE, SyntaxKind::SUBJECT, SyntaxKind::PREDICATE, SyntaxKind::OBJECT]);
    (s, false)
}

#[verifier::opaque]
pub open spec fn match_BuiltInCall_1(ts: Seq<SyntaxKind>, start: int, m_marker: int, s: St) -> (St, bool)
    decreases ts.len() - start, rank_BuiltInCall(peek_at(ts, start)), 32 * (ts.len() - s.pos) + 32 - 1,
{
    let s_in = s;
    if (peek_at(ts, s.pos) == SyntaxKind::COUNT || peek_at(ts, s.pos) == SyntaxKind::SUM || peek_at(ts, s.pos) == SyntaxKind::MIN || peek_at(ts, s.pos) == SyntaxKind::MAX || peek_at(ts, s.pos) == SyntaxKind::AVG || peek_at(ts, s.pos) == SyntaxKind::SAMPLE || peek_at(ts, s.pos) == SyntaxKind::GROUP_CONCAT) {
        if s.pos <= ts.len() {
            arm_BuiltInCall_2(ts, start, m_marker, s)
        } else {
            (s, false)
        }
    } else if (peek_at(ts, s.pos) == SyntaxKind::STR) {
        if s.pos <= ts.len() {
            arm_BuiltInCall_3(ts, start, m_marker, s)
        } else {
            (s, false)
        }
    } else if (peek_at(ts, s.pos) == SyntaxKind::LANG) {
        if s.pos <= ts.len() {
            arm_BuiltInCall_4(ts, start, m_marker, s)
        } else {
            (s, false)
        }
    } else if (peek_at(ts, s.pos) == SyntaxKind::LANGMATCHES) {
        if s.pos <= ts.len() {
            arm_BuiltInCall_5(ts, start, m_marker, s)
        } else {
            (s, false)
        }
    } else if (peek_at(ts, s.pos) == SyntaxKind::LANGDIR) {
        if s.pos <= ts.len() {
            arm_BuiltInCall_6(ts, start, m_marker, s)
        } else {
            (s, false)
        }
    } else if (peek_at(ts, s.pos) == SyntaxKind::DATATYPE) {
        if s.pos <= ts.len() {
            arm_BuiltInCall_7(ts, start, m_marker, s)
        } else {
            (s, false)
        }
    } else if (peek_at(ts, s.pos) == SyntaxKind::BOUND) {
        if s.pos <= ts.len() {
            arm_BuiltInCall_8(ts, start, m_marker, s)
        } else {
            (s, false)
        }
    } else if (peek_at(ts, s.pos) == SyntaxKind::IRI) {
        if s.pos <= ts.len() {
            arm_BuiltInCall_9(ts, start, m_marker, s)
        } else {
            (s, false)
        }
    } else if (peek_at(ts, s.pos) == SyntaxKind::URI) {
        if s.pos <= ts.len() {
            arm_BuiltInCall_10(ts, start, m_marker, s)
        } else {
            (s, false)
        }
    } else if (peek_at(ts, s.pos) == SyntaxKind::BNODE) {
        if s.pos <= ts.len() {
            arm_BuiltInCall_11(ts, start, m_marker, s)
        } else {
            (s, false)
        }
    } else if (peek_at(ts, s.pos) == SyntaxKind::RAND) {
        if s.pos <= ts.len() {
            arm_BuiltInCall_13(ts, start, m_marker, s)
        } else {
            (s, false)
        }
    } else if (peek_at(ts, s.pos) == SyntaxKind::ABS) {
        if s.pos <= ts.len() {
            arm_BuiltInCall_14(ts, start, m_marker, s)
        } else {
            (s, false)
        }
    } else if (peek_at(ts, s.pos) == SyntaxKind::CEIL) {
        if s.pos <= ts.len() {
            arm_BuiltInCall_15(ts, start, m_marker, s)
        } else {
            (s, false)
        }
    } else if (peek_at(ts, s.pos) == SyntaxKind::FLOOR) {
        if s.pos <= ts.len() {
            arm_BuiltInCall_16(ts, start, m_marker, s)
        } else {
            (s, false)
        }
    } else if (peek_at(ts, s.pos) == SyntaxKind::ROUND) {
        if s.pos <= ts.len() {
            arm_BuiltInCall_17(ts, start, m_marker, s)
        } else {
            (s, false)
        }
    } else if (peek_at(ts, s.pos) == SyntaxKind::CONCAT) {
        if s.pos <= ts.len() {
            arm_BuiltInCall_18(ts, start, m_marker, s)
        } else {
            (s, false)
        }
    } else if (peek_at(ts, s.pos) == SyntaxKind::SUBSTR) {
        if s.pos <= ts.len() {
            arm_BuiltInCall_19(ts, start, m_marker, s)
        } else {
            (s, false)
        }
    } else if (peek_at(ts, s.pos) == SyntaxKind::STRLEN) {
        if s.pos <= ts.len() {
            arm_BuiltInCall_20(ts, start, m_marker, s)
        } else {
            (s, false)
        }
    } else if (peek_at(ts, s.pos) == SyntaxKind::REPLACE) {
        if s.pos <= ts.len() {
            arm_BuiltInCall_21(ts, start, m_marker, s)
        } else {
            (s, false)
        }
    } else if (peek_at(ts, s.pos) == SyntaxKind::UCASE) {
        if s.pos <= ts.len() {
            arm_BuiltInCall_22(ts, start, m_marker, s)
        } else {
            (s, false)
        }
    } else if (peek_at(ts, s.pos) == SyntaxKind::LCASE) {
        if s.pos <= ts.len() {
            arm_BuiltInCall_23(ts, start, m_marker, s)
        } else {
            (s, false)
        }
    } else if (peek_at(ts, s.pos) == SyntaxKind::ENCODE_FOR_URI) {
        if s.pos <= ts.len() {
            arm_BuiltInCall_24(ts, start, m_marker, s)
        } else {
            (s, false)
        }
    } else if (peek_at(ts, s.pos) == SyntaxKind::CONTAINS) {
        if s.pos <= ts.len() {
            arm_BuiltInCall_25(ts, start, m_marker, s)
        } else {
            (s, false)
        }
    } else if (peek_at(ts, s.pos) == SyntaxKind::STRSTARTS) {
        if s.pos <= ts.len() {
            arm_BuiltInCall_26(ts, start, m_marker, s)
        } else {
            (s, false)
        }
    } else if (peek_at(ts, s.pos) == SyntaxKind::STRENDS) {
        if s.pos <= ts.len() {
            arm_BuiltInCall_27(ts, start, m_marker, s)
        } else {
            (s, false)
        }
    } else if (peek_at(ts, s.pos) == SyntaxKind::STRBEFORE) {
        if s.pos <= ts.len() {
            arm_BuiltInCall_28(ts, start, m_marker, s)
        } else {
            (s, false)
        }
    } else if (peek_at(ts, s.pos) == SyntaxKind::STRAFTER) {
        if s.pos <= ts.len() {
            arm_BuiltInCall_29(ts, start, m_marker, s)
        } else {
            (s, false)
        }
    } else if (peek_at(ts, s.pos) == SyntaxKind::YEAR) {
        if s.pos <= ts.len() {
            arm_BuiltInCall_30(ts, start, m_marker, s)
        } else {
            (s, false)
        }
    } else if (peek_at(ts, s.pos) == SyntaxKind::MONTH) {
        if s.pos <= ts.len() {
            arm_BuiltInCall_31(ts, start, m_marker, s)
        } else {
            (s, false)
        }
    } else if (peek_at(ts, s.pos) == SyntaxKind::DAY) {
        if s.pos <= ts.len() {
            arm_BuiltInCall_32(ts, start, m_marker, s)
        } else {
            (s, false)
        }
    } else if (peek_at(ts, s.pos) == SyntaxKind::HOURS) {
        if s.pos <= ts.len() {
            arm_BuiltInCall_33(ts, start, m_marker, s)
        } else {
            (s, false)
        }
    } else if (peek_at(ts, s.pos) == SyntaxKind::MINUTES) {
        if s.pos <= ts.len() {
            arm_BuiltInCall_34(ts, start, m_marker, s)
        } else {
            (s, false)
        }
    } else if (peek_at(ts, s.pos) == SyntaxKind::SECONDS) {
        if s.pos <= ts.len() {
            arm_BuiltInCall_35(ts, start, m_marker, s)
        } else {
            (s, false)
        }
    } else if (peek_at(ts, s.pos) == SyntaxKind::TIMEZONE) {
        if s.pos <= ts.len() {
            arm_BuiltInCall_36(ts, start, m_marker, s)
        } else {
            (s, false)
        }
    } else if (peek_at(ts, s.pos) == SyntaxKind::TZ) {
        if s.pos <= ts.len() {
            arm_BuiltInCall_37(ts, start, m_marker, s)
        } else {
            (s, false)
        }
    } else if (peek_at(ts, s.pos) == SyntaxKind::NOW) {
        if s.pos <= ts.len() {
            arm_BuiltInCall_38(ts, start, m_marker, s)
        } else {
            (s, false)
        }
    } else if (peek_at(ts, s.pos) == SyntaxKind::UUID) {
        if s.pos <= ts.len() {
            arm_BuiltInCall_39(ts, start, m_marker, s)
        } else {
            (s, false)
        }
    } else if (peek_at(ts, s.pos) == SyntaxKind::STRUUID) {
        if s.pos <= ts.len() {
            arm_BuiltInCall_40(ts, start, m_marker, s)
        } else {
            (s, false)
        }
    } else if (peek_at(ts, s.pos) == SyntaxKind::MD5) {
        if s.pos <= ts.len() {
            arm_BuiltInCall_41(ts, start, m_marker, s)
        } else {
            (s, false)
        }
    } else if (peek_at(ts, s.pos) == SyntaxKind::SHA1) {
        if s.pos <= ts.len() {
            arm_BuiltInCall_42(ts, start, m_marker, s)
        } else {
            (s, false)
        }
    } else if (peek_at(ts, s.pos) == SyntaxKind::SHA256) {
        if s.pos <= ts.len() {
            arm_BuiltInCall_43(ts, start, m_marker, s)
        } else {
            (s, false)
        }
    } else if (peek_at(ts, s.pos) == SyntaxKind::SHA384) {
        if s.pos <= ts.len() {
            arm_BuiltInCall_44(ts, start, m_marker, s)
        } else {
            (s, false)
        }
    } else if (peek_at(ts, s.pos) == SyntaxKind::SHA512) {
        if s.pos <= ts.len() {
            arm_BuiltInCall_45(ts, start, m_marker, s)
        } else {
            (s, false)
        }
    } else if (peek_at(ts, s.pos) == SyntaxKind::COALESCE) {
        if s.pos <= ts.len() {
            arm_BuiltInCall_46(ts, start, m_marker, s)
        } else {
            (s, false)
        }
    } else if (peek_at(ts, s.pos) == SyntaxKind::IF) {
        if s.pos <= ts.len() {
            arm_BuiltInCall_47(ts, start, m_marker, s)
        } else {
            (s, false)
        }
    } else if (peek_at(ts, s.pos) == SyntaxKind::STRLANG) {
        if s.pos <= ts.len() {
            arm_BuiltInCall_48(ts, start, m_marker, s)
        } else {
            (s, false)
        }
    } else if (peek_at(ts, s.pos) == SyntaxKind::STRLANGDIR) {
        if s.pos <= ts.len() {
            arm_BuiltInCall_49(ts, start, m_marker, s)
        } else {
            (s, false)
        }
    } else if (peek_at(ts, s.pos) == SyntaxKind::STRDT) {
        if s.pos <= ts.len() {
            arm_BuiltInCall_50(ts, start, m_marker, s)
        } else {
            (s, false)
        }
    } else if (peek_at(ts, s.pos) == SyntaxKind::sameTerm) {
        if s.pos <= ts.len() {
            arm_BuiltInCall_51(ts, start, m_marker, s)
        } else {
            (s, false)
        }
    } else if (peek_at(ts, s.pos) == SyntaxKind::isIRI) {
        if s.pos <= ts.len() {
            arm_BuiltInCall_52(ts, start, m_marker, s)
        } else {
            (s, false)
        }
    } else if (peek_at(ts, s.pos) == SyntaxKind::isURI) {
        if s.pos <= ts.len() {
            arm_BuiltInCall_53(ts, start, m_marker, s)
        } else {
            (s, false)
        }
    } else if (peek_at(ts, s.pos) == SyntaxKind::isBLANK) {
        if s.pos <= ts.len() {
            arm_BuiltInCall_54(ts, start, m_marker, s)
        } else {
            (s, false)
        }
    } else if (peek_at(ts, s.pos) == SyntaxKind::isLITERAL) {
        if s.pos <= ts.len() {
            arm_BuiltInCall_55(ts, start, m_marker, s)
        } else {
            (s, false)
        }
    } else if (peek_at(ts, s.pos) == SyntaxKind::isNUMERIC) {
        if s.pos <= ts.len() {
            arm_BuiltInCall_56(ts, start, m_marker, s)
        } else {
            (s, false)
        }
    } else if (peek_at(ts, s.pos) == SyntaxKind::hasLANG) {
        if s.pos <= ts.len() {
            arm_BuiltInCall_57(ts, start, m_marker, s)
        } else {
            (s, false)
        }
    } else if (peek_at(ts, s.pos) == SyntaxKind::hasLANGDIR) {
        if s.pos <= ts.len() {
            arm_BuiltInCall_58(ts, start, m_marker, s)
        } else {
            (s, false)
        }
    } else if (peek_at(ts, s.pos) == SyntaxKind::REGEX) {
        if s.pos <= ts.len() {
            arm_BuiltInCall_59(ts, start, m_marker, s)
        } else {
            (s, false)
        }
    } else if (peek_at(ts, s.pos) == SyntaxKind::EXISTS) {
        if s.pos <= ts.len() {
            arm_BuiltInCall_60(ts, start, m_marker, s)
        } else {
            (s, false)
        }
    } else if (peek_at(ts, s.pos) == SyntaxKind::NOT) {
        if s.pos <= ts.len() {
            arm_BuiltInCall_61(ts, start, m_marker, s)
        } else {
            (s, false)
        }
    } else if (peek_at(ts, s.pos) == SyntaxKind::isTRIPLE) {
        if s.pos <= ts.len() {
            arm_BuiltInCall_62(ts, start, m_marker, s)
        } else {
            (s, false)
        }
    } else if (peek_at(ts, s.pos) == SyntaxKind::TRIPLE) {
        if s.pos <= ts.len() {
            arm_BuiltInCall_63(ts, start, m_marker, s)
        } else {
            (s, false)
        }
    } else if (peek_at(ts, s.pos) == SyntaxKind::SUBJECT) {
        if s.pos <= ts.len() {
            arm_BuiltInCall_64(ts, start, m_marker, s)
        } else {
            (s, false)
        }
    } else if (peek_at(ts, s.pos) == SyntaxKind::PREDICATE) {
        if s.pos <= ts.len() {
            arm_BuiltInCall_65(ts, start, m_marker, s)
        } else {
            (s, false)
        }
    } else if (peek_at(ts, s.pos) == SyntaxKind::OBJECT) {
        if s.pos <= ts.len() {
            arm_BuiltInCall_66(ts, start, m_marker, s)
        } else {
            (s, false)
        }
    } else if (peek_at(ts, s.pos) == SyntaxKind::Eof) {
        if s.pos <= ts.len() {
            arm_BuiltInCall_67(ts, start, m_marker, s)
        } else {
            (s, false)
        }
    } else {
        if s.pos <= ts.len() {
            arm_BuiltInCall_68(ts, start, m_marker, s)
        } else {
            (s, false)
        }
    }
}

proof fn lemma_arm_BuiltInCall_2(ts: Seq<SyntaxKind>, start: int, m_marker: int, s: St)
    requires
        (peek_at(ts, s.pos) == SyntaxKind::COUNT || peek_at(ts, s.pos) == SyntaxKind::SUM || peek_at(ts, s.pos) == SyntaxKind::MIN || peek_at(ts, s.pos) == SyntaxKind::MAX || peek_at(ts, s.pos) == SyntaxKind::AVG || peek_at(ts, s.pos) == SyntaxKind::SAMPLE || peek_at(ts, s.pos) == SyntaxKind::GROUP_CONCAT),
    ensures
        match_BuiltInCall_1(ts, start, m_marker, s) == if s.pos <= ts.len() {
            arm_BuiltInCall_2(ts, start, m_marker, s)
        } else {
            (s, false)
        },
{
    reveal_with_fuel(match_BuiltInCall_1, 1);
    reveal_with_fuel(arm_BuiltInCall_2, 1);
}

proof fn lemma_arm_BuiltInCall_3(ts: Seq<SyntaxKind>, start: int, m_marker: int, s: St)
    requires
        (peek_at(ts, s.pos) == SyntaxKind::STR),
    ensures
        match_BuiltInCall_1(ts, start, m_marker, s) == if s.pos <= ts.len() {
            arm_BuiltInCall_3(ts, start, m_marker, s)
        } else {
            (s, false)
        },
{
    reveal_with_fuel(match_BuiltInCall_1, 1);
    reveal_with_fuel(arm_BuiltInCall_3, 1);
}

proof fn lemma_arm_BuiltInCall_4(ts: Seq<SyntaxKind>, start: int, m_marker: int, s: St)
    requires
        (peek_at(ts, s.pos) == SyntaxKind::LANG),
    ensures
        match_BuiltInCall_1(ts, start, m_marker, s) == if s.pos <= ts.len() {
            arm_BuiltInCall_4(ts, start, m_marker, s)
        } else {
            (s, false)
        },
{
    reveal_with_fuel(match_BuiltInCall_1, 1);
    reveal_with_fuel(arm_BuiltInCall_4, 1);
}

proof fn lemma_arm_BuiltInCall_5(ts: Seq<SyntaxKind>, start: int, m_marker: int, s: St)
    requires
        (peek_at(ts, s.pos) == SyntaxKind::LANGMATCHES),
    ensures
        match_BuiltInCall_1(ts, start, m_marker, s) == if s.pos <= ts.len() {
            arm_BuiltInCall_5(ts, start, m_marker, s)
        } else {
            (s, false)
        },
{
    reveal_with_fuel(match_BuiltInCall_1, 1);
    reveal_with_fuel(arm_BuiltInCall_5, 1);
}

proof fn lemma_arm_BuiltInCall_6(ts: Seq<SyntaxKind>, start: int, m_marker: int, s: St)
    requires
        (peek_at(ts, s.pos) == SyntaxKind::LANGDIR),
    ensures
        match_BuiltInCall_1(ts, start, m_marker, s) == if s.pos <= ts.len() {
            arm_BuiltInCall_6(ts, start, m_marker, s)
        } else {
            (s, false)
        },
{
    reveal_with_fuel(match_BuiltInCall_1, 1);
    reveal_with_fuel(arm_BuiltInCall_6, 1);
}

proof fn lemma_arm_BuiltInCall_7(ts: Seq<SyntaxKind>, start: int, m_marker: int, s: St)
    requires
        (peek_at(ts, s.pos) == SyntaxKind::DATATYPE),
    ensures
        match_BuiltInCall_1(ts, start, m_marker, s) == if s.pos <= ts.len() {
            arm_BuiltInCall_7(ts, start, m_marker, s)
        } else {
            (s, false)
        },
{
    reveal_with_fuel(match_BuiltInCall_1, 1);
    reveal_with_fuel(arm_BuiltInCall_7, 1);
}

proof fn lemma_arm_BuiltInCall_8(ts: Seq<SyntaxKind>, start: int, m_marker: int, s: St)
    requires
        (peek_at(ts, s.pos) == SyntaxKind::BOUND),
    ensures
        match_BuiltInCall_1(ts, start, m_marker, s) == if s.pos <= ts.len() {
            arm_BuiltInCall_8(ts, start, m_marker, s)
        } else {
            (s, false)
        },
{
    reveal_with_fuel(match_BuiltInCall_1, 1);
    reveal_with_fuel(arm_BuiltInCall_8, 1);
}

proof fn lemma_arm_BuiltInCall_9(ts: Seq<SyntaxKind>, start: int, m_marker: int, s: St)
    requires
        (peek_at(ts, s.pos) == SyntaxKind::IRI),
    ensures
        match_BuiltInCall_1(ts, start, m_marker, s) == if s.pos <= ts.len() {
            arm_BuiltInCall_9(ts, start, m_marker, s)
        } else {
            (s, false)
        },
{
    reveal_with_fuel(match_BuiltInCall_1, 1);
    reveal_with_fuel(arm_BuiltInCall_9, 1);
}

proof fn lemma_arm_BuiltInCall_10(ts: Seq<SyntaxKind>, start: int, m_marker: int, s: St)
    requires
        (peek_at(ts, s.pos) == SyntaxKind::URI),
    ensures
        match_BuiltInCall_1(ts, start, m_marker, s) == if s.pos <= ts.len() {
            arm_BuiltInCall_10(ts, start, m_marker, s)
        } else {
            (s, false)
        },
{
    reveal_with_fuel(match_BuiltInCall_1, 1);
    reveal_with_fuel(arm_BuiltInCall_10, 1);
}

proof fn lemma_arm_BuiltInCall_11(ts: Seq<SyntaxKind>, start: int, m_marker: int, s: St)
    requires
        (peek_at(ts, s.pos) == SyntaxKind::BNODE),
    ensures
        match_BuiltInCall_1(ts, start, m_marker, s) == if s.pos <= ts.len() {
            arm_BuiltInCall_11(ts, start, m_marker, s)
        } else {
            (s, false)
        },
{
    reveal_with_fuel(match_BuiltInCall_1, 1);
    reveal_with_fuel(arm_BuiltInCall_11, 1);
}

proof fn lemma_arm_BuiltInCall_13(ts: Seq<SyntaxKind>, start: int, m_marker: int, s: St)
    requires
        (peek_at(ts, s.pos) == SyntaxKind::RAND),
    ensures
        match_BuiltInCall_1(ts, start, m_marker, s) == if s.pos <= ts.len() {
            arm_BuiltInCall_13(ts, start, m_marker, s)
        } else {
            (s, false)
        },
{
    reveal_with_fuel(match_BuiltInCall_1, 1);
    reveal_with_fuel(arm_BuiltInCall_13, 1);
}

proof fn lemma_arm_BuiltInCall_14(ts: Seq<SyntaxKind>, start: int, m_marker: int, s: St)
    requires
        (peek_at(ts, s.pos) == SyntaxKind::ABS),
    ensures
        match_BuiltInCall_1(ts, start, m_marker, s) == if s.pos <= ts.len() {
            arm_BuiltInCall_14(ts, start, m_marker, s)
        } else {
            (s, false)
        },
{
    reveal_with_fuel(match_BuiltInCall_1, 1);
    reveal_with_fuel(arm_BuiltInCall_14, 1);
}

proof fn lemma_arm_BuiltInCall_15(ts: Seq<SyntaxKind>, start: int, m_marker: int, s: St)
    requires
        (peek_at(ts, s.pos) == SyntaxKind::CEIL),
    ensures
        match_BuiltInCall_1(ts, start, m_marker, s) == if s.pos <= ts.len() {
            arm_BuiltInCall_15(ts, start, m_marker, s)
        } else {
            (s, false)
        },
{
    reveal_with_fuel(match_BuiltInCall_1, 1);
    reveal_with_fuel(arm_BuiltInCall_15, 1);
}

proof fn lemma_arm_BuiltInCall_16(ts: Seq<SyntaxKind>, start: int, m_marker: int, s: St)
    requires
        (peek_at(ts, s.pos) == SyntaxKind::FLOOR),
    ensures
        match_BuiltInCall_1(ts, start, m_marker, s) == if s.pos <= ts.len() {
            arm_BuiltInCall_16(ts, start, m_marker, s)
        } else {
            (s, false)
        },
{
    reveal_with_fuel(match_BuiltInCall_1, 1);
    reveal_with_fuel(arm_BuiltInCall_16, 1);
}

proof fn lemma_arm_BuiltInCall_17(ts: Seq<SyntaxKind>, start: int, m_marker: int, s: St)
    requires
        (peek_at(ts, s.pos) == SyntaxKind::ROUND),
    ensures
        match_BuiltInCall_1(ts, start, m_marker, s) == if s.pos <= ts.len() {
            arm_BuiltInCall_17(ts, start, m_marker, s)
        } else {
            (s, false)
        },
{
    reveal_with_fuel(match_BuiltInCall_1, 1);
    reveal_with_fuel(arm_BuiltInCall_17, 1);
}

proof fn lemma_arm_BuiltInCall_18(ts: Seq<SyntaxKind>, start: int, m_marker: int, s: St)
    requires
        (peek_at(ts, s.pos) == SyntaxKind::CONCAT),
    ensures
        match_BuiltInCall_1(ts, start, m_marker, s) == if s.pos <= ts.len() {
            arm_BuiltInCall_18(ts, start, m_marker, s)
        } else {
            (s, false)
        },
{
    reveal_with_fuel(match_BuiltInCall_1, 1);
    reveal_with_fuel(arm_BuiltInCall_18, 1);
}

proof fn lemma_arm_BuiltInCall_19(ts: Seq<SyntaxKind>, start: int, m_marker: int, s: St)
    requires
        (peek_at(ts, s.pos) == SyntaxKind::SUBSTR),
    ensures
        match_BuiltInCall_1(ts, start, m_marker, s) == if s.pos <= ts.len() {
            arm_BuiltInCall_19(ts, start, m_marker, s)
        } else {
            (s, false)
        },
{
    reveal_with_fuel(match_BuiltInCall_1, 1);
    reveal_with_fuel(arm_BuiltInCall_19, 1);
}

proof fn lemma_arm_BuiltInCall_20(ts: Seq<SyntaxKind>, start: int, m_marker: int, s: St)
    requires
        (peek_at(ts, s.pos) == SyntaxKind::STRLEN),
    ensures
        match_BuiltInCall_1(ts, start, m_marker, s) == if s.pos <= ts.len() {
            arm_BuiltInCall_20(ts, start, m_marker, s)
        } else {
            (s, false)
        },
{
    reveal_with_fuel(match_BuiltInCall_1, 1);
    reveal_with_fuel(arm_BuiltInCall_20, 1);
}

proof fn lemma_arm_BuiltInCall_21(ts: Seq<SyntaxKind>, start: int, m_marker: int, s: St)
    requires
        (peek_at(ts, s.pos) == SyntaxKind::REPLACE),
    ensures
        match_BuiltInCall_1(ts, start, m_marker, s) == if s.pos <= ts.len() {
            arm_BuiltInCall_21(ts, start, m_marker, s)
        } else {
            (s, false)
        },
{
    reveal_with_fuel(match_BuiltInCall_1, 1);
    reveal_with_fuel(arm_BuiltInCall_21, 1);
}

proof fn lemma_arm_BuiltInCall_22(ts: Seq<SyntaxKind>, start: int, m_marker: int, s: St)
    requires
        (peek_at(ts, s.pos) == SyntaxKind::UCASE),
    ensures
        match_BuiltInCall_1(ts, start, m_marker, s) == if s.pos <= ts.len() {
            arm_BuiltInCall_22(ts, start, m_marker, s)
        } else {
            (s, false)
        },
{
    reveal_with_fuel(match_BuiltInCall_1, 1);
    reveal_with_fuel(arm_BuiltInCall_22, 1);
}

proof fn lemma_arm_BuiltInCall_23(ts: Seq<SyntaxKind>, start: int, m_marker: int, s: St)
    requires
        (peek_at(ts, s.pos) == SyntaxKind::LCASE),
    ensures
        match_BuiltInCall_1(ts, start, m_marker, s) == if s.pos <= ts.len() {
            arm_BuiltInCall_23(ts, start, m_marker, s)
        } else {
            (s, false)
        },
{
    reveal_with_fuel(match_BuiltInCall_1, 1);
    reveal_with_fuel(arm_BuiltInCall_23, 1);
}

proof fn lemma_arm_BuiltInCall_24(ts: Seq<SyntaxKind>, start: int, m_marker: int, s: St)
    requires
        (peek_at(ts, s.pos) == SyntaxKind::ENCODE_FOR_URI),
    ensures
        match_BuiltInCall_1(ts, start, m_marker, s) == if s.pos <= ts.len() {
            arm_BuiltInCall_24(ts, start, m_marker, s)
        } else {
            (s, false)
        },
{
    reveal_with_fuel(match_BuiltInCall_1, 1);
    reveal_with_fuel(arm_BuiltInCall_24, 1);
}

proof fn lemma_arm_BuiltInCall_25(ts: Seq<SyntaxKind>, start: int, m_marker: int, s: St)
    requires
        (peek_at(ts, s.pos) == SyntaxKind::CONTAINS),
    ensures
        match_BuiltInCall_1(ts, start, m_marker, s) == if s.pos <= ts.len() {
            arm_BuiltInCall_25(ts, start, m_marker, s)
        } else {
            (s, false)
        },
{
    reveal_with_fuel(match_BuiltInCall_1, 1);
    reveal_with_fuel(arm_BuiltInCall_25, 1);
}

proof fn lemma_arm_BuiltInCall_26(ts: Seq<SyntaxKind>, start: int, m_marker: int, s: St)
    requires
        (peek_at(ts, s.pos) == SyntaxKind::STRSTARTS),
    ensures
        match_BuiltInCall_1(ts, start, m_marker, s) == if s.pos <= ts.len() {
            arm_BuiltInCall_26(ts, start, m_marker, s)
        } else {
            (s, false)
        },
{
    reveal_with_fuel(match_BuiltInCall_1, 1);
    reveal_with_fuel(arm_BuiltInCall_26, 1);
}

proof fn lemma_arm_BuiltInCall_27(ts: Seq<SyntaxKind>, start: int, m_marker: int, s: St)
    requires
        (peek_at(ts, s.pos) == SyntaxKind::STRENDS),
    ensures
        match_BuiltInCall_1(ts, start, m_marker, s) == if s.pos <= ts.len() {
            arm_BuiltInCall_27(ts, start, m_marker, s)
        } else {
            (s, false)
        },
{
    reveal_with_fuel(match_BuiltInCall_1, 1);
    reveal_with_fuel(arm_BuiltInCall_27, 1);
}

proof fn lemma_arm_BuiltInCall_28(ts: Seq<SyntaxKind>, start: int, m_marker: int, s: St)
    requires
        (peek_at(ts, s.pos) == SyntaxKind::STRBEFORE),
    ensures
        match_BuiltInCall_1(ts, start, m_marker, s) == if s.pos <= ts.len() {
            arm_BuiltInCall_28(ts, start, m_marker, s)
        } else {
            (s, false)
        },
{
    reveal_with_fuel(match_BuiltInCall_1, 1);
    reveal_with_fuel(arm_BuiltInCall_28, 1);
}

proof fn lemma_arm_BuiltInCall_29(ts: Seq<SyntaxKind>, start: int, m_marker: int, s: St)
    requires
        (peek_at(ts, s.pos) == SyntaxKind::STRAFTER),
    ensures
        match_BuiltInCall_1(ts, start, m_marker, s) == if s.pos <= ts.len() {
            arm_BuiltInCall_29(ts, start, m_marker, s)
        } else {
            (s, false)
        },
{
    reveal_with_fuel(match_BuiltInCall_1, 1);
    reveal_with_fuel(arm_BuiltInCall_29, 1);
}

proof fn lemma_arm_BuiltInCall_30(ts: Seq<SyntaxKind>, start: int, m_marker: int, s: St)
    requires
        (peek_at(ts, s.pos) == SyntaxKind::YEAR),
    ensures
        match_BuiltInCall_1(ts, start, m_marker, s) == if s.pos <= ts.len() {
            arm_BuiltInCall_30(ts, start, m_marker, s)
        } else {
            (s, false)
        },
{
    reveal_with_fuel(match_BuiltInCall_1, 1);
    reveal_with_fuel(arm_BuiltInCall_30, 1);
}

proof fn lemma_arm_BuiltInCall_31(ts: Seq<SyntaxKind>, start: int, m_marker: int, s: St)
    requires
        (peek_at(ts, s.pos) == SyntaxKind::MONTH),
    ensures
        match_BuiltInCall_1(ts, start, m_marker, s) == if s.pos <= ts.len() {
            arm_BuiltInCall_31(ts, start, m_marker, s)
        } else {
            (s, false)
        },
{
    reveal_with_fuel(match_BuiltInCall_1, 1);
    reveal_with_fuel(arm_BuiltInCall_31, 1);
}

proof fn lemma_arm_BuiltInCall_32(ts: Seq<SyntaxKind>, start: int, m_marker: int, s: St)
    requires
        (peek_at(ts, s.pos) == SyntaxKind::DAY),
    ensures
        match_BuiltInCall_1(ts, start, m_marker, s) == if s.pos <= ts.len() {
            arm_BuiltInCall_32(ts, start, m_marker, s)
        } else {
            (s, false)
        },
{
    reveal_with_fuel(match_BuiltInCall_1, 1);
    reveal_with_fuel(arm_BuiltInCall_32, 1);
}

proof fn lemma_arm_BuiltInCall_33(ts: Seq<SyntaxKind>, start: int, m_marker: int, s: St)
    requires
        (peek_at(ts, s.pos) == SyntaxKind::HOURS),
    ensures
        match_BuiltInCall_1(ts, start, m_marker, s) == if s.pos <= ts.len() {
            arm_BuiltInCall_33(ts, start, m_marker, s)
        } else {
            (s, false)
        },
{
    reveal_with_fuel(match_BuiltInCall_1, 1);
    reveal_with_fuel(arm_BuiltInCall_33, 1);
}

proof fn lemma_arm_BuiltInCall_34(ts: Seq<SyntaxKind>, start: int, m_marker: int, s: St)
    requires
        (peek_at(ts, s.pos) == SyntaxKind::MINUTES),
    ensures
        match_BuiltInCall_1(ts, start, m_marker, s) == if s.pos <= ts.len() {
            arm_BuiltInCall_34(ts, start, m_marker, s)
        } else {
            (s, false)
        },
{
    reveal_with_fuel(match_BuiltInCall_1, 1);
    reveal_with_fuel(arm_BuiltInCall_34, 1);
}

proof fn lemma_arm_BuiltInCall_35(ts: Seq<SyntaxKind>, start: int, m_marker: int, s: St)
    requires
        (peek_at(ts, s.pos) == SyntaxKind::SECONDS),
    ensures
        match_BuiltInCall_1(ts, start, m_marker, s) == if s.pos <= ts.len() {
            arm_BuiltInCall_35(ts, start, m_marker, s)
        } else {
            (s, false)
        },
{
    reveal_with_fuel(match_BuiltInCall_1, 1);
    reveal_with_fuel(arm_BuiltInCall_35, 1);
}

proof fn lemma_arm_BuiltInCall_36(ts: Seq<SyntaxKind>, start: int, m_marker: int, s: St)
    requires
        (peek_at(ts, s.pos) == SyntaxKind::TIMEZONE),
    ensures
        match_BuiltInCall_1(ts, start, m_marker, s) == if s.pos <= ts.len() {
            arm_BuiltInCall_36(ts, start, m_marker, s)
        } else {
            (s, false)
        },
{
    reveal_with_fuel(match_BuiltInCall_1, 1);
    reveal_with_fuel(arm_BuiltInCall_36, 1);
}

proof fn lemma_arm_BuiltInCall_37(ts: Seq<SyntaxKind>, start: int, m_marker: int, s: St)
    requires
        (peek_at(ts, s.pos) == SyntaxKind::TZ),
    ensures
        match_BuiltInCall_1(ts, start, m_marker, s) == if s.pos <= ts.len() {
            arm_BuiltInCall_37(ts, start, m_marker, s)
        } else {
            (s, false)
        },
{
    reveal_with_fuel(match_BuiltInCall_1, 1);
    reveal_with_fuel(arm_BuiltInCall_37, 1);
}

proof fn lemma_arm_BuiltInCall_38(ts: Seq<SyntaxKind>, start: int, m_marker: int, s: St)
    requires
        (peek_at(ts, s.pos) == SyntaxKind::NOW),
    ensures
        match_BuiltInCall_1(ts, start, m_marker, s) == if s.pos <= ts.len() {
            arm_BuiltInCall_38(ts, start, m_marker, s)
        } else {
            (s, false)
        },
{
    reveal_with_fuel(match_BuiltInCall_1, 1);
    reveal_with_fuel(arm_BuiltInCall_38, 1);
}

proof fn lemma_arm_BuiltInCall_39(ts: Seq<SyntaxKind>, start: int, m_marker: int, s: St)
    requires
        (peek_at(ts, s.pos) == SyntaxKind::UUID),
    ensures
        match_BuiltInCall_1(ts, start, m_marker, s) == if s.pos <= ts.len() {
            arm_BuiltInCall_39(ts, start, m_marker, s)
        } else {
            (s, false)
        },
{
    reveal_with_fuel(match_BuiltInCall_1, 1);
    reveal_with_fuel(arm_BuiltInCall_39, 1);
}

proof fn lemma_arm_BuiltInCall_40(ts: Seq<SyntaxKind>, start: int, m_marker: int, s: St)
    requires
        (peek_at(ts, s.pos) == SyntaxKind::STRUUID),
    ensures
        match_BuiltInCall_1(ts, start, m_marker, s) == if s.pos <= ts.len() {
            arm_BuiltInCall_40(ts, start, m_marker, s)
        } else {
            (s, false)
        },
{
    reveal_with_fuel(match_BuiltInCall_1, 1);
    reveal_with_fuel(arm_BuiltInCall_40, 1);
}

proof fn lemma_arm_BuiltInCall_41(ts: Seq<SyntaxKind>, start: int, m_marker: int, s: St)
    requires
        (peek_at(ts, s.pos) == SyntaxKind::MD5),
    ensures
        match_BuiltInCall_1(ts, start, m_marker, s) == if s.pos <= ts.len() {
            arm_BuiltInCall_41(ts, start, m_marker, s)
        } else {
            (s, false)
        },
{
    reveal_with_fuel(match_BuiltInCall_1, 1);
    reveal_with_fuel(arm_BuiltInCall_41, 1);
}

proof fn lemma_arm_BuiltInCall_42(ts: Seq<SyntaxKind>, start: int, m_marker: int, s: St)
    requires
        (peek_at(ts, s.pos) == SyntaxKind::SHA1),
    ensures
        match_BuiltInCall_1(ts, start, m_marker, s) == if s.pos <= ts.len() {
            arm_BuiltInCall_42(ts, start, m_marker, s)
        } else {
            (s, false)
        },
{
    reveal_with_fuel(match_BuiltInCall_1, 1);
    reveal_with_fuel(arm_BuiltInCall_42, 1);
}

proof fn lemma_arm_BuiltInCall_43(ts: Seq<SyntaxKind>, start: int, m_marker: int, s: St)
    requires
        (peek_at(ts, s.pos) == SyntaxKind::SHA256),
    ensures
        match_BuiltInCall_1(ts, start, m_marker, s) == if s.pos <= ts.len() {
            arm_BuiltInCall_43(ts, start, m_marker, s)
        } else {
            (s, false)
        },
{
    reveal_with_fuel(match_BuiltInCall_1, 1);
    reveal_with_fuel(arm_BuiltInCall_43, 1);
}

proof fn lemma_arm_BuiltInCall_44(ts: Seq<SyntaxKind>, start: int, m_marker: int, s: St)
    requires
        (peek_at(ts, s.pos) == SyntaxKind::SHA384),
    ensures
        match_BuiltInCall_1(ts, start, m_marker, s) == if s.pos <= ts.len() {
            arm_BuiltInCall_44(ts, start, m_marker, s)
        } else {
            (s, false)
        },
{
    reveal_with_fuel(match_BuiltInCall_1, 1);
    reveal_with_fuel(arm_BuiltInCall_44, 1);
}

proof fn lemma_arm_BuiltInCall_45(ts: Seq<SyntaxKind>, start: int, m_marker: int, s: St)
    requires
        (peek_at(ts, s.pos) == SyntaxKind::SHA512),
    ensures
        match_BuiltInCall_1(ts, start, m_marker, s) == if s.pos <= ts.len() {
            arm_BuiltInCall_45(ts, start, m_marker, s)
        } else {
            (s, false)
        },
{
    reveal_with_fuel(match_BuiltInCall_1, 1);
    reveal_with_fuel(arm_BuiltInCall_45, 1);
}

proof fn lemma_arm_BuiltInCall_46(ts: Seq<SyntaxKind>, start: int, m_marker: int, s: St)
    requires
        (peek_at(ts, s.pos) == SyntaxKind::COALESCE),
    ensures
        match_BuiltInCall_1(ts, start, m_marker, s) == if s.pos <= ts.len() {
            arm_BuiltInCall_46(ts, start, m_marker, s)
        } else {
            (s, false)
        },
{
    reveal_with_fuel(match_BuiltInCall_1, 1);
    reveal_with_fuel(arm_BuiltInCall_46, 1);
}

proof fn lemma_arm_BuiltInCall_47(ts: Seq<SyntaxKind>, start: int, m_marker: int, s: St)
    requires
        (peek_at(ts, s.pos) == SyntaxKind::IF),
    ensures
        match_BuiltInCall_1(ts, start, m_marker, s) == if s.pos <= ts.len() {
            arm_BuiltInCall_47(ts, start, m_marker, s)
        } else {
            (s, false)
        },
{
    reveal_with_fuel(match_BuiltInCall_1, 1);
    reveal_with_fuel(arm_BuiltInCall_47, 1);
}

proof fn lemma_arm_BuiltInCall_48(ts: Seq<SyntaxKind>, start: int, m_marker: int, s: St)
    requires
        (peek_at(ts, s.pos) == SyntaxKind::STRLANG),
    ensures
        match_BuiltInCall_1(ts, start, m_marker, s) == if s.pos <= ts.len() {
            arm_BuiltInCall_48(ts, start, m_marker, s)
        } else {
            (s, false)
        },
{
    reveal_with_fuel(match_BuiltInCall_1, 1);
    reveal_with_fuel(arm_BuiltInCall_48, 1);
}

proof fn lemma_arm_BuiltInCall_49(ts: Seq<SyntaxKind>, start: int, m_marker: int, s: St)
    requires
        (peek_at(ts, s.pos) == SyntaxKind::STRLANGDIR),
    ensures
        match_BuiltInCall_1(ts, start, m_marker, s) == if s.pos <= ts.len() {
            arm_BuiltInCall_49(ts, start, m_marker, s)
        } else {
            (s, false)
        },
{
    reveal_with_fuel(match_BuiltInCall_1, 1);
    reveal_with_fuel(arm_BuiltInCall_49, 1);
}

proof fn lemma_arm_BuiltInCall_50(ts: Seq<SyntaxKind>, start: int, m_marker: int, s: St)
    requires
        (peek_at(ts, s.pos) == SyntaxKind::STRDT),
    ensures
        match_BuiltInCall_1(ts, start, m_marker, s) == if s.pos <= ts.len() {
            arm_BuiltInCall_50(ts, start, m_marker, s)
        } else {
            (s, false)
        },
{
    reveal_with_fuel(match_BuiltInCall_1, 1);
    reveal_with_fuel(arm_BuiltInCall_50, 1);
}

proof fn lemma_arm_BuiltInCall_51(ts: Seq<SyntaxKind>, start: int, m_marker: int, s: St)
    requires
        (peek_at(ts, s.pos) == SyntaxKind::sameTerm),
    ensures
        match_BuiltInCall_1(ts, start, m_marker, s) == if s.pos <= ts.len() {
            arm_BuiltInCall_51(ts, start, m_marker, s)
        } else {
            (s, false)
        },
{
    reveal_with_fuel(match_BuiltInCall_1, 1);
    reveal_with_fuel(arm_BuiltInCall_51, 1);
}

proof fn lemma_arm_BuiltInCall_52(ts: Seq<SyntaxKind>, start: int, m_marker: int, s: St)
    requires
        (peek_at(ts, s.pos) == SyntaxKind::isIRI),
    ensures
        match_BuiltInCall_1(ts, start, m_marker, s) == if s.pos <= ts.len() {
            arm_BuiltInCall_52(ts, start, m_marker, s)
        } else {
            (s, false)
        },
{
    reveal_with_fuel(match_BuiltInCall_1, 1);
    reveal_with_fuel(arm_BuiltInCall_52, 1);
}

proof fn lemma_arm_BuiltInCall_53(ts: Seq<SyntaxKind>, start: int, m_marker: int, s: St)
    requires
        (peek_at(ts, s.pos) == SyntaxKind::isURI),
    ensures
        match_BuiltInCall_1(ts, start, m_marker, s) == if s.pos <= ts.len() {
            arm_BuiltInCall_53(ts, start, m_marker, s)
        } else {
            (s, false)
        },
{
    reveal_with_fuel(match_BuiltInCall_1, 1);
    reveal_with_fuel(arm_BuiltInCall_53, 1);
}

proof fn lemma_arm_BuiltInCall_54(ts: Seq<SyntaxKind>, start: int, m_marker: int, s: St)
    requires
        (peek_at(ts, s.pos) == SyntaxKind::isBLANK),
    ensures
        match_BuiltInCall_1(ts, start, m_marker, s) == if s.pos <= ts.len() {
            arm_BuiltInCall_54(ts, start, m_marker, s)
        } else {
            (s, false)
        },
{
    reveal_with_fuel(match_BuiltInCall_1, 1);
    reveal_with_fuel(arm_BuiltInCall_54, 1);
}

proof fn lemma_arm_BuiltInCall_55(ts: Seq<SyntaxKind>, start: int, m_marker: int, s: St)
    requires
        (peek_at(ts, s.pos) == SyntaxKind::isLITERAL),
    ensures
        match_BuiltInCall_1(ts, start, m_marker, s) == if s.pos <= ts.len() {
            arm_BuiltInCall_55(ts, start, m_marker, s)
        } else {
            (s, false)
        },
{
    reveal_with_fuel(match_BuiltInCall_1, 1);
    reveal_with_fuel(arm_BuiltInCall_55, 1);
}

proof fn lemma_arm_BuiltInCall_56(ts: Seq<SyntaxKind>, start: int, m_marker: int, s: St)
    requires
        (peek_at(ts, s.pos) == SyntaxKind::isNUMERIC),
    ensures
        match_BuiltInCall_1(ts, start, m_marker, s) == if s.pos <= ts.len() {
            arm_BuiltInCall_56(ts, start, m_marker, s)
        } else {
            (s, false)
        },
{
    reveal_with_fuel(match_BuiltInCall_1, 1);
    reveal_with_fuel(arm_BuiltInCall_56, 1);
}

proof fn lemma_arm_BuiltInCall_57(ts: Seq<SyntaxKind>, start: int, m_marker: int, s: St)
    requires
        (peek_at(ts, s.pos) == SyntaxKind::hasLANG),
    ensures
        match_BuiltInCall_1(ts, start, m_marker, s) == if s.pos <= ts.len() {
            arm_BuiltInCall_57(ts, start, m_marker, s)
        } else {
            (s, false)
        },
{
    reveal_with_fuel(match_BuiltInCall_1, 1);
    reveal_with_fuel(arm_BuiltInCall_57, 1);
}

proof fn lemma_arm_BuiltInCall_58(ts: Seq<SyntaxKind>, start: int, m_marker: int, s: St)
    requires
        (peek_at(ts, s.pos) == SyntaxKind::hasLANGDIR),
    ensures
        match_BuiltInCall_1(ts, start, m_marker, s) == if s.pos <= ts.len() {
            arm_BuiltInCall_58(ts, start, m_marker, s)
        } else {
            (s, false)
        },
{
    reveal_with_fuel(match_BuiltInCall_1, 1);
    reveal_with_fuel(arm_BuiltInCall_58, 1);
}

proof fn lemma_arm_BuiltInCall_59(ts: Seq<SyntaxKind>, start: int, m_marker: int, s: St)
    requires
        (peek_at(ts, s.pos) == SyntaxKind::REGEX),
    ensures
        match_BuiltInCall_1(ts, start, m_marker, s) == if s.pos <= ts.len() {
            arm_BuiltInCall_59(ts, start, m_marker, s)
        } else {
            (s, false)
        },
{
    reveal_with_fuel(match_BuiltInCall_1, 1);
    reveal_with_fuel(arm_BuiltInCall_59, 1);
}

proof fn lemma_arm_BuiltInCall_60(ts: Seq<SyntaxKind>, start: int, m_marker: int, s: St)
    requires
        (peek_at(ts, s.pos) == SyntaxKind::EXISTS),
    ensures
        match_BuiltInCall_1(ts, start, m_marker, s) == if s.pos <= ts.len() {
            arm_BuiltInCall_60(ts, start, m_marker, s)
        } else {
            (s, false)
        },
{
    reveal_with_fuel(match_BuiltInCall_1, 1);
    reveal_with_fuel(arm_BuiltInCall_60, 1);
}

proof fn lemma_arm_BuiltInCall_61(ts: Seq<SyntaxKind>, start: int, m_marker: int, s: St)
    requires
        (peek_at(ts, s.pos) == SyntaxKind::NOT),
    ensures
        match_BuiltInCall_1(ts, start, m_marker, s) == if s.pos <= ts.len() {
            arm_BuiltInCall_61(ts, start, m_marker, s)
        } else {
            (s, false)
        },
{
    reveal_with_fuel(match_BuiltInCall_1, 1);
    reveal_with_fuel(arm_BuiltInCall_61, 1);
}

proof fn lemma_arm_BuiltInCall_62(ts: Seq<SyntaxKind>, start: int, m_marker: int, s: St)
    requires
        (peek_at(ts, s.pos) == SyntaxKind::isTRIPLE),
    ensures
        match_BuiltInCall_1(ts, start, m_marker, s) == if s.pos <= ts.len() {
            arm_BuiltInCall_62(ts, start, m_marker, s)
        } else {
            (s, false)
        },
{
    reveal_with_fuel(match_BuiltInCall_1, 1);
    reveal_with_fuel(arm_BuiltInCall_62, 1);
}

proof fn lemma_arm_BuiltInCall_63(ts: Seq<SyntaxKind>, start: int, m_marker: int, s: St)
    requires
        (peek_at(ts, s.pos) == SyntaxKind::TRIPLE),
    ensures
        match_BuiltInCall_1(ts, start, m_marker, s) == if s.pos <= ts.len() {
            arm_BuiltInCall_63(ts, start, m_marker, s)
        } else {
            (s, false)
        },
{
    reveal_with_fuel(match_BuiltInCall_1, 1);
    reveal_with_fuel(arm_BuiltInCall_63, 1);
}

proof fn lemma_arm_BuiltInCall_64(ts: Seq<SyntaxKind>, start: int, m_marker: int, s: St)
    requires
        (peek_at(ts, s.pos) == SyntaxKind::SUBJECT),
    ensures
        match_BuiltInCall_1(ts, start, m_marker, s) == if s.pos <= ts.len() {
            arm_BuiltInCall_64(ts, start, m_marker, s)
        } else {
            (s, false)
        },
{
    reveal_with_fuel(match_BuiltInCall_1, 1);
    reveal_with_fuel(arm_BuiltInCall_64, 1);
}

proof fn lemma_arm_BuiltInCall_65(ts: Seq<SyntaxKind>, start: int, m_marker: int, s: St)
    requires
        (peek_at(ts, s.pos) == SyntaxKind::PREDICATE),
    ensures
        match_BuiltInCall_1(ts, start, m_marker, s) == if s.pos <= ts.len() {
            arm_BuiltInCall_65(ts, start, m_marker, s)
        } else {
            (s, false)
        },
{
    reveal_with_fuel(match_BuiltInCall_1, 1);
    reveal_with_fuel(arm_BuiltInCall_65, 1);
}

proof fn lemma_arm_BuiltInCall_66(ts: Seq<SyntaxKind>, start: int, m_marker: int, s: St)
    requires
        (peek_at(ts, s.pos) == SyntaxKind::OBJECT),
    ensures
        match_BuiltInCall_1(ts, start, m_marker, s) == if s.pos <= ts.len() {
            arm_BuiltInCall_66(ts, start, m_marker, s)
        } else {
            (s, false)
        },
{
    reveal_with_fuel(match_BuiltInCall_1, 1);
    reveal_with_fuel(arm_BuiltInCall_66, 1);
}

proof fn lemma_arm_BuiltInCall_67(ts: Seq<SyntaxKind>, start: int, m_marker: int, s: St)
    requires
        (peek_at(ts, s.pos) == SyntaxKind::Eof),
    ensures
        match_BuiltInCall_1(ts, start, m_marker, s) == if s.pos <= ts.len() {
            arm_BuiltInCall_67(ts, start, m_marker, s)
        } else {
            (s, false)
        },
{
    reveal_with_fuel(match_BuiltInCall_1, 1);
    reveal_with_fuel(arm_BuiltInCall_67, 1);
}

proof fn lemma_arm_BuiltInCall_68(ts: Seq<SyntaxKind>, start: int, m_marker: int, s: St)
    requires
        !(peek_at(ts, s.pos) == SyntaxKind::COUNT || peek_at(ts, s.pos) == SyntaxKind::SUM || peek_at(ts, s.pos) == SyntaxKind::MIN || peek_at(ts, s.pos) == SyntaxKind::MAX || peek_at(ts, s.pos) == SyntaxKind::AVG || peek_at(ts, s.pos) == SyntaxKind::SAMPLE || peek_at(ts, s.pos) == SyntaxKind::GROUP_CONCAT) && !(peek_at(ts, s.pos) == SyntaxKind::STR) && !(peek_at(ts, s.pos) == SyntaxKind::LANG) && !(peek_at(ts, s.pos) == SyntaxKind::LANGMATCHES) && !(peek_at(ts, s.pos) == SyntaxKind::LANGDIR) && !(peek_at(ts, s.pos) == SyntaxKind::DATATYPE) && !(peek_at(ts, s.pos) == SyntaxKind::BOUND) && !(peek_at(ts, s.pos) == SyntaxKind::IRI) && !(peek_at(ts, s.pos) == SyntaxKind::URI) && !(peek_at(ts, s.pos) == SyntaxKind::BNODE) && !(peek_at(ts, s.pos) == SyntaxKind::RAND) && !(peek_at(ts, s.pos) == SyntaxKind::ABS) && !(peek_at(ts, s.pos) == SyntaxKind::CEIL) && !(peek_at(ts, s.pos) == SyntaxKind::FLOOR) && !(peek_at(ts, s.pos) == SyntaxKind::ROUND) && !(peek_at(ts, s.pos) == SyntaxKind::CONCAT) && !(peek_at(ts, s.pos) == SyntaxKind::SUBSTR) && !(peek_at(ts, s.pos) == SyntaxKind::STRLEN) && !(peek_at(ts, s.pos) == SyntaxKind::REPLACE) && !(peek_at(ts, s.pos) == SyntaxKind::UCASE) && !(peek_at(ts, s.pos) == SyntaxKind::LCASE) && !(peek_at(ts, s.pos) == SyntaxKind::ENCODE_FOR_URI) && !(peek_at(ts, s.pos) == SyntaxKind::CONTAINS) && !(peek_at(ts, s.pos) == SyntaxKind::STRSTARTS) && !(peek_at(ts, s.pos) == SyntaxKind::STRENDS) && !(peek_at(ts, s.pos) == SyntaxKind::STRBEFORE) && !(peek_at(ts, s.pos) == SyntaxKind::STRAFTER) && !(peek_at(ts, s.pos) == SyntaxKind::YEAR) && !(peek_at(ts, s.pos) == SyntaxKind::MONTH) && !(peek_at(ts, s.pos) == SyntaxKind::DAY) && !(peek_at(ts, s.pos) == SyntaxKind::HOURS) && !(peek_at(ts, s.pos) == SyntaxKind::MINUTES) && !(peek_at(ts, s.pos) == SyntaxKind::SECONDS) && !(peek_at(ts, s.pos) == SyntaxKind::TIMEZONE) && !(peek_at(ts, s.pos) == SyntaxKind::TZ) && !(peek_at(ts, s.pos) == SyntaxKind::NOW) && !(peek_at(ts, s.pos) == SyntaxKind::UUID) && !(peek_at(ts, s.pos) == SyntaxKind::STRUUID) && !(peek_at(ts, s.pos) == SyntaxKind::MD5) && !(peek_at(ts, s.pos) == SyntaxKind::SHA1) && !(peek_at(ts, s.pos) == SyntaxKind::SHA256) && !(peek_at(ts, s.pos) == SyntaxKind::SHA384) && !(peek_at(ts, s.pos) == SyntaxKind::SHA512) && !(peek_at(ts, s.pos) == SyntaxKind::COALESCE) && !(peek_at(ts, s.pos) == SyntaxKind::IF) && !(peek_at(ts, s.pos) == SyntaxKind::STRLANG) && !(peek_at(ts, s.pos) == SyntaxKind::STRLANGDIR) && !(peek_at(ts, s.pos) == SyntaxKind::STRDT) && !(peek_at(ts, s.pos) == SyntaxKind::sameTerm) && !(peek_at(ts, s.pos) == SyntaxKind::isIRI) && !(peek_at(ts, s.pos) == SyntaxKind::isURI) && !(peek_at(ts, s.pos) == SyntaxKind::isBLANK) && !(peek_at(ts, s.pos) == SyntaxKind::isLITERAL) && !(peek_at(ts, s.pos) == SyntaxKind::isNUMERIC) && !(peek_at(ts, s.pos) == SyntaxKind::hasLANG) && !(peek_at(ts, s.pos) == SyntaxKind::hasLANGDIR) && !(peek_at(ts, s.pos) == SyntaxKind::REGEX) && !(peek_at(ts, s.pos) == SyntaxKind::EXISTS) && !(peek_at(ts, s.pos) == SyntaxKind::NOT) && !(peek_at(ts, s.pos) == SyntaxKind::isTRIPLE) && !(peek_at(ts, s.pos) == SyntaxKind::TRIPLE) && !(peek_at(ts, s.pos) == SyntaxKind::SUBJECT) && !(peek_at(ts, s.pos) == SyntaxKind::PREDICATE) && !(peek_at(ts, s.pos) == SyntaxKind::OBJECT) && !(peek_at(ts, s.pos) == SyntaxKind::Eof),
    ensures
        match_BuiltInCall_1(ts, start, m_marker, s) == if s.pos <= ts.len() {
            arm_BuiltInCall_68(ts, start, m_marker, s)
        } else {
            (s, false)
        },
{
    reveal_with_fuel(match_BuiltInCall_1, 1);
    reveal_with_fuel(arm_BuiltInCall_68, 1);
}
/// Finishing a `BuiltInCall` node after its one part.
proof fn lemma_finish_BuiltInCall(ts: Seq<SyntaxKind>, s0: St, mid: St, r: bool)
    requires
        s0.pos <= ts.len(),
        match_BuiltInCall_1(ts, s0.pos, s0.evs.len() as int, st_open(s0)) == (mid, r),
    ensures
        rule_BuiltInCall(ts, s0) == if r {
            mid
        } else {
            st_close(mid, s0.evs.len() as int, SyntaxKind::BuiltInCall)
        },
{
    reveal(st_open);
    reveal_with_fuel(rule_BuiltInCall, 1);
    reveal_with_fuel(match_BuiltInCall_1, 1);
}


/// [34] BuiltInCall -> Aggregate | 'STR' '(' Expression ')' | 'LANG' '(' Expression ')' | 'LANGMATCHES' '(' Expression ',' Expression ')' | 'LANGDIR' '(' Expression ')' | 'DATATYPE' '(' Expression ')' | 'BOUND' '(' Var ')' | 'IRI' '(' Expression ')' | 'URI' '(' Expression ')' | 'BNODE' ('(' Expression ')' | 'NIL') | 'RAND' 'NIL' | 'ABS' '(' Expression ')' | 'CEIL' '(' Expression ')' | 'FLOOR' '(' Expression ')' | 'ROUND' '(' Expression ')' | 'CONCAT' ExpressionList | SubstringExpression | 'STRLEN' '(' Expression ')' | StrReplaceExpression | 'UCASE' '(' Expression ')' | 'LCASE' '(' Expression ')' | 'ENCODE_FOR_URI' '(' Expression ')' | 'CONTAINS' '(' Expression ',' Expression ')' | 'STRSTARTS' '(' Expression ',' Expression ')' | 'STRENDS' '(' Expression ',' Expression ')' | 'STRBEFORE' '(' Expression ',' Expression ')' | 'STRAFTER' '(' Expression ',' Expression ')' | 'YEAR' '(' Expression ')' | 'MONTH' '(' Expression ')' | 'DAY' '(' Expression ')' | 'HOURS' '(' Expression ')' | 'MINUTES' '(' Expression ')' | 'SECONDS' '(' Expression ')' | 'TIMEZONE' '(' Expression ')' | 'TZ' '(' Expression ')' | 'NOW' 'NIL' | 'UUID' 'NIL' | 'STRUUID' 'NIL' | 'MD5' '(' Expression ')' | 'SHA1' '(' Expression ')' | 'SHA256' '(' Expression ')' | 'SHA384' '(' Expression ')' | 'SHA512' '(' Expression ')' | 'COALESCE' ExpressionList | 'IF' '(' Expression ',' Expression ',' Expression ')' | 'STRLANG' '(' Expression ',' Expression ')' | 'STRLANGDIR' '(' Expression ',' Expression ',' Expression ')' | 'STRDT' '(' Expression ',' Expression ')' | 'sameTerm' '(' Expression ',' Expression ')' | 'isIRI' '(' Expression ')' | 'isURI' '(' Expression ')' | 'isBLANK' '(' Expression ')' | 'isLITERAL' '(' Expression ')' | 'isNUMERIC' '(' Expression ')' | 'hasLANG' '(' Expression ')' | 'hasLANGDIR' '(' Expression ')' | RegexExpression | ExistsFunc | NotExistsFunc | 'isTRIPLE' '(' Expression ')' | 'TRIPLE' '(' Expression ',' Expression ',' Expression ')' | 'SUBJECT' '(' Expression ')' | 'PREDICATE' '(' Expression ')' | 'OBJECT' '(' Expression ')'
#[verifier::rlimit(100)]
#[verifier::spinoff_prover]
pub(crate) fn parse_BuiltInCall(p: &mut Parser)
    requires
        old(p).wf(),
    ensures
        Parser::step(*old(p), *final(p)),
        final(p).pos == old(p).pos ==> is_sync_point(old(p).peek()),
        old(p).events@.len() < final(p).events@.len(),
        final(p).events@[old(p).events@.len() as int] == (Event::Open { kind: SyntaxKind::BuiltInCall }),
        final(p).events@.last() is Close,
        final(p).st() == rule_BuiltInCall(old(p).kinds(), old(p).st()),
    decreases old(p).remaining(), rank_BuiltInCall(old(p).peek()), 1int,
{
    let ghost ks = p.kinds();
    let ghost s0 = p.st();
    let ghost start = p.pos as int;
    let marker = p.open();
    let ghost gm1 = marker.index as int;
    let ghost pre1 = p.st();
    match p.nth(0) {
        SyntaxKind::COUNT | SyntaxKind::SUM | SyntaxKind::MIN | SyntaxKind::MAX | SyntaxKind::AVG | SyntaxKind::SAMPLE | SyntaxKind::GROUP_CONCAT | SyntaxKind::STR | SyntaxKind::LANG | SyntaxKind::LANGMATCHES | SyntaxKind::LANGDIR | SyntaxKind::DATATYPE | SyntaxKind::BOUND | SyntaxKind::IRI => {
            let r = parse_BuiltInCall_part1(p, marker, Ghost(*old(p)), Ghost(gm1));
            if r {
                proof {
                    reveal(Parser::st);
                    lemma_finish_BuiltInCall(ks, s0, p.st(), true);
                }
                return ;
            }
        },
        SyntaxKind::URI | SyntaxKind::BNODE | SyntaxKind::RAND | SyntaxKind::ABS | SyntaxKind::CEIL | SyntaxKind::FLOOR | SyntaxKind::ROUND | SyntaxKind::CONCAT => {
            let r = parse_BuiltInCall_part2(p, marker, Ghost(*old(p)), Ghost(gm1));
            if r {
                proof {
                    reveal(Parser::st);
                    lemma_finish_BuiltInCall(ks, s0, p.st(), true);
                }
                return ;
            }
        },
        SyntaxKind::SUBSTR | SyntaxKind::STRLEN | SyntaxKind::REPLACE | SyntaxKind::UCASE | SyntaxKind::LCASE | SyntaxKind::ENCODE_FOR_URI | SyntaxKind::CONTAINS | SyntaxKind::STRSTARTS => {
            let r = parse_BuiltInCall_part3(p, marker, Ghost(*old(p)), Ghost(gm1));
            if r {
                proof {
                    reveal(Parser::st);
                    lemma_finish_BuiltInCall(ks, s0, p.st(), true);
                }
                return ;
            }
        },
        SyntaxKind::STRENDS | SyntaxKind::STRBEFORE | SyntaxKind::STRAFTER | SyntaxKind::YEAR | SyntaxKind::MONTH | SyntaxKind::DAY | SyntaxKind::HOURS | SyntaxKind::MINUTES => {
            let r = parse_BuiltInCall_part4(p, marker, Ghost(*old(p)), Ghost(gm1));
            if r {
                proof {
                    reveal(Parser::st);
                    lemma_finish_BuiltInCall(ks, s0, p.st(), true);
                }
                return ;
            }
        },
        SyntaxKind::SECONDS | SyntaxKind::TIMEZONE | SyntaxKind::TZ | SyntaxKind::NOW | SyntaxKind::UUID | SyntaxKind::STRUUID | SyntaxKind::MD5 | SyntaxKind::SHA1 => {
            let r = parse_BuiltInCall_part5(p, marker, Ghost(*old(p)), Ghost(gm1));
            if r {
                proof {
                    reveal(Parser::st);
                    lemma_finish_BuiltInCall(ks, s0, p.st(), true);
                }
                return ;
            }
        },
        SyntaxKind::SHA256 | SyntaxKind::SHA384 | SyntaxKind::SHA512 | SyntaxKind::COALESCE | SyntaxKind::IF | SyntaxKind::STRLANG | SyntaxKind::STRLANGDIR | SyntaxKind::STRDT => {
            let r = parse_BuiltInCall_part6(p, marker, Ghost(*old(p)), Ghost(gm1));
            if r {
                proof {
                    reveal(Parser::st);
                    lemma_finish_BuiltInCall(ks, s0, p.st(), true);
                }
                return ;
            }
        },
        SyntaxKind::sameTerm | SyntaxKind::isIRI | SyntaxKind::isURI | SyntaxKind::isBLANK | SyntaxKind::isLITERAL | SyntaxKind::isNUMERIC | SyntaxKind::hasLANG | SyntaxKind::hasLANGDIR => {
            let r = parse_BuiltInCall_part7(p, marker, Ghost(*old(p)), Ghost(gm1));
            if r {
                proof {
                    reveal(Parser::st);
                    lemma_finish_BuiltInCall(ks, s0, p.st(), true);
                }
                return ;
            }
        },
        SyntaxKind::REGEX | SyntaxKind::EXISTS | SyntaxKind::NOT | SyntaxKind::isTRIPLE | SyntaxKind::TRIPLE | SyntaxKind::SUBJECT | SyntaxKind::PREDICATE | SyntaxKind::OBJECT => {
            let r = parse_BuiltInCall_part8(p, marker, Ghost(*old(p)), Ghost(gm1));
            if r {
                proof {
                    reveal(Parser::st);
                    lemma_finish_BuiltInCall(ks, s0, p.st(), true);
                }
                return ;
            }
        },
        SyntaxKind::Eof => {
            p.close(marker, SyntaxKind::BuiltInCall);
            let marker = p.open();
            let ghost gm3 = marker.index as int;
            p.close(marker, SyntaxKind::Error);
            proof {
                assert(arm_BuiltInCall_67(ks, start, gm1, pre1) == (p.st(), true)) by {
                    reveal_with_fuel(arm_BuiltInCall_67, 1);
                }
            }
            proof {
                lemma_arm_BuiltInCall_67(ks, start, gm1, pre1);
            }
            proof {
                reveal(Parser::st);
                lemma_finish_BuiltInCall(ks, s0, p.st(), true);
            }
            return ;
        },
        _ => {
            p.advance_with_error(vec![SyntaxKind::COUNT, SyntaxKind::SUM, SyntaxKind::MIN, SyntaxKind::MAX, SyntaxKind::AVG, SyntaxKind::SAMPLE, SyntaxKind::GROUP_CONCAT, SyntaxKind::STR, SyntaxKind::LANG, SyntaxKind::LANGMATCHES, SyntaxKind::LANGDIR, SyntaxKind::DATATYPE, SyntaxKind::BOUND, SyntaxKind::IRI, SyntaxKind::URI, SyntaxKind::BNODE, SyntaxKind::RAND, SyntaxKind::ABS, SyntaxKind::CEIL, SyntaxKind::FLOOR, SyntaxKind::ROUND, SyntaxKind::CONCAT, SyntaxKind::SUBSTR, SyntaxKind::STRLEN, SyntaxKind::REPLACE, SyntaxKind::UCASE, SyntaxKind::LCASE, SyntaxKind::ENCODE_FOR_URI, SyntaxKind::CONTAINS, SyntaxKind::STRSTARTS, SyntaxKind::STRENDS, SyntaxKind::STRBEFORE, SyntaxKind::STRAFTER, SyntaxKind::YEAR, SyntaxKind::MONTH, SyntaxKind::DAY, SyntaxKind::HOURS, SyntaxKind::MINUTES, SyntaxKind::SECONDS, SyntaxKind::TIMEZONE, SyntaxKind::TZ, SyntaxKind::NOW, SyntaxKind::UUID, SyntaxKind::STRUUID, SyntaxKind::MD5, SyntaxKind::SHA1, SyntaxKind::SHA256, SyntaxKind::SHA384, SyntaxKind::SHA512, SyntaxKind::COALESCE, SyntaxKind::IF, SyntaxKind::STRLANG, SyntaxKind::STRLANGDIR, SyntaxKind::STRDT, SyntaxKind::sameTerm, SyntaxKind::isIRI, SyntaxKind::isURI, SyntaxKind::isBLANK, SyntaxKind::isLITERAL, SyntaxKind::isNUMERIC, SyntaxKind::hasLANG, SyntaxKind::hasLANGDIR, SyntaxKind::REGEX, SyntaxKind::EXISTS, SyntaxKind::NOT, SyntaxKind::isTRIPLE, SyntaxKind::TRIPLE, SyntaxKind::SUBJECT, SyntaxKind::PREDICATE, SyntaxKind::OBJECT]);
            proof {
                assert(arm_BuiltInCall_68(ks, start, gm1, pre1) == (p.st(), false)) by {
                    reveal_with_fuel(arm_BuiltInCall_68, 1);
                }
            }
            proof {
                lemma_arm_BuiltInCall_68(ks, start, gm1, pre1);
            }
        },
    }
    proof {
        reveal(Parser::st);
        lemma_finish_BuiltInCall(ks, s0, p.st(), false);
    }
    p.close(marker, SyntaxKind::BuiltInCall);
    assert(rule_BuiltInCall(ks, s0) == p.st());
}

/// One group of the alternatives of [`parse_BuiltInCall`].
#[verifier::rlimit(100)]
#[verifier::spinoff_prover]
fn parse_BuiltInCall_part1(p: &mut Parser, marker: MarkOpened, Ghost(co): Ghost<Parser>, Ghost(gm1): Ghost<int>) -> (r: bool)
    requires
        old(p).wf(),
        co.wf(),
        old(p).tokens@ == co.tokens@,
        co.pos <= old(p).pos,
        marker.index == co.events@.len(),
        gm1 == marker.index as int,
        old(p).stack() == co.stack().push(marker.index as int),
        old(p).events@.len() > marker.index,
        old(p).peek() == SyntaxKind::COUNT || old(p).peek() == SyntaxKind::SUM || old(p).peek() == SyntaxKind::MIN || old(p).peek() == SyntaxKind::MAX || old(p).peek() == SyntaxKind::AVG || old(p).peek() == SyntaxKind::SAMPLE || old(p).peek() == SyntaxKind::GROUP_CONCAT || old(p).peek() == SyntaxKind::STR || old(p).peek() == SyntaxKind::LANG || old(p).peek() == SyntaxKind::LANGMATCHES || old(p).peek() == SyntaxKind::LANGDIR || old(p).peek() == SyntaxKind::DATATYPE || old(p).peek() == SyntaxKind::BOUND || old(p).peek() == SyntaxKind::IRI,
    ensures
        final(p).wf(),
        final(p).tokens@ == old(p).tokens@,
        old(p).pos <= final(p).pos,
        !r ==> final(p).stack() == old(p).stack(),
        !r ==> final(p).pos > old(p).pos,
        match_BuiltInCall_1(co.kinds(), co.pos as int, gm1, old(p).st()) == (final(p).st(), r),
        r ==> (Parser::step(co, *final(p))),
        r ==> (final(p).pos == co.pos ==> is_sync_point(co.peek())),
        r ==> (co.events@.len() < final(p).events@.len()),
        r ==> (final(p).events@[co.events@.len() as int] == (Event::Open { kind: SyntaxKind::BuiltInCall })),
        r ==> (final(p).events@.last() is Close),
    decreases co.remaining(), rank_BuiltInCall(co.peek()), 0int,
{
    let ghost ks = p.kinds();
    let ghost start = co.pos as int;
    assert(ks == co.kinds());
    let ghost pre1 = p.st();
    match p.nth(0) {
        SyntaxKind::COUNT | SyntaxKind::SUM | SyntaxKind::MIN | SyntaxKind::MAX | SyntaxKind::AVG | SyntaxKind::SAMPLE | SyntaxKind::GROUP_CONCAT => {
            proof {
                assert(call_ok(ks, start, p.st(), rank_Aggregate(peek_at(ks, p.st().pos)), rank_BuiltInCall(peek_at(ks, start)))) by {
                    reveal(Parser::st);
                    assert(peek_at(ks, start) == co.peek());
                    assert(peek_at(ks, p.pos as int) == p.peek());
                }
            }
            parse_Aggregate(p);
            proof {
                assert(arm_BuiltInCall_2(ks, start, gm1, pre1) == (p.st(), false)) by {
                    reveal_with_fuel(arm_BuiltInCall_2, 1); reveal_with_fuel(rule_Aggregate, 1);
                }
            }
            proof {
                lemma_arm_BuiltInCall_2(ks, start, gm1, pre1);
            }
        },
        SyntaxKind::STR => {
            p.expect(SyntaxKind::STR);
            p.expect(SyntaxKind::LParen);
            proof {
                assert(call_ok(ks, start, p.st(), rank_Expression(peek_at(ks, p.st().pos)), rank_BuiltInCall(peek_at(ks, start)))) by {
                    reveal(Parser::st);
                    assert(peek_at(ks, start) == co.peek());
                    assert(peek_at(ks, p.pos as int) == p.peek());
                }
            }
            parse_Expression(p);
            p.expect(SyntaxKind::RParen);
            proof {
                assert(arm_BuiltInCall_3(ks, start, gm1, pre1) == (p.st(), false)) by {
                    reveal_with_fuel(arm_BuiltInCall_3, 1); reveal_with_fuel(rule_Expression, 1);
                }
            }
            proof {
                lemma_arm_BuiltInCall_3(ks, start, gm1, pre1);
            }
        },
        SyntaxKind::LANG => {
            p.expect(SyntaxKind::LANG);
            p.expect(SyntaxKind::LParen);
            proof {
                assert(call_ok(ks, start, p.st(), rank_Expression(peek_at(ks, p.st().pos)), rank_BuiltInCall(peek_at(ks, start)))) by {
                    reveal(Parser::st);
                    assert(peek_at(ks, start) == co.peek());
                    assert(peek_at(ks, p.pos as int) == p.peek());
                }
            }
            parse_Expression(p);
            p.expect(SyntaxKind::RParen);
            proof {
                assert(arm_BuiltInCall_4(ks, start, gm1, pre1) == (p.st(), false)) by {
                    reveal_with_fuel(arm_BuiltInCall_4, 1); reveal_with_fuel(rule_Expression, 1);
                }
            }
            proof {
                lemma_arm_BuiltInCall_4(ks, start, gm1, pre1);
            }
        },
        SyntaxKind::LANGMATCHES => {
            p.expect(SyntaxKind::LANGMATCHES);
            p.expect(SyntaxKind::LParen);
            proof {
                assert(call_ok(ks, start, p.st(), rank_Expression(peek_at(ks, p.st().pos)), rank_BuiltInCall(peek_at(ks, start)))) by {
                    reveal(Parser::st);
                    assert(peek_at(ks, start) == co.peek());
                    assert(peek_at(ks, p.pos as int) == p.peek());
                }
            }
            parse_Expression(p);
            p.expect(SyntaxKind::Comma);
            proof {
                assert(call_ok(ks, start, p.st(), rank_Expression(peek_at(ks, p.st().pos)), rank_BuiltInCall(peek_at(ks, start)))) by {
                    reveal(Parser::st);
                    assert(peek_at(ks, start) == co.peek());
                    assert(peek_at(ks, p.pos as int) == p.peek());
                }
            }
            parse_Expression(p);
            p.expect(SyntaxKind::RParen);
            proof {
                assert(arm_BuiltInCall_5(ks, start, gm1, pre1) == (p.st(), false)) by {
                    reveal_with_fuel(arm_BuiltInCall_5, 1); reveal_with_fuel(rule_Expression, 1);
                }
            }
            proof {
                lemma_arm_BuiltInCall_5(ks, start, gm1, pre1);
            }
        },
        SyntaxKind::LANGDIR => {
            p.expect(SyntaxKind::LANGDIR);
            p.expect(SyntaxKind::LParen);
            proof {
                assert(call_ok(ks, start, p.st(), rank_Expression(peek_at(ks, p.st().pos)), rank_BuiltInCall(peek_at(ks, start)))) by {
                    reveal(Parser::st);
                    assert(peek_at(ks, start) == co.peek());
                    assert(peek_at(ks, p.pos as int) == p.peek());
                }
            }
            parse_Expression(p);
            p.expect(SyntaxKind::RParen);
            proof {
                assert(arm_BuiltInCall_6(ks, start, gm1, pre1) == (p.st(), false)) by {
                    reveal_with_fuel(arm_BuiltInCall_6, 1); reveal_with_fuel(rule_Expression, 1);
                }
            }
            proof {
                lemma_arm_BuiltInCall_6(ks, start, gm1, pre1);
            }
        },
        SyntaxKind::DATATYPE => {
            p.expect(SyntaxKind::DATATYPE);
            p.expect(SyntaxKind::LParen);
            proof {
                assert(call_ok(ks, start, p.st(), rank_Expression(peek_at(ks, p.st().pos)), rank_BuiltInCall(peek_at(ks, start)))) by {
                    reveal(Parser::st);
                    assert(peek_at(ks, start) == co.peek());
                    assert(peek_at(ks, p.pos as int) == p.peek());
                }
            }
            parse_Expression(p);
            p.expect(SyntaxKind::RParen);
            proof {
                assert(arm_BuiltInCall_7(ks, start, gm1, pre1) == (p.st(), false)) by {
                    reveal_with_fuel(arm_BuiltInCall_7, 1); reveal_with_fuel(rule_Expression, 1);
                }
            }
            proof {
                lemma_arm_BuiltInCall_7(ks, start, gm1, pre1);
            }
        },
        SyntaxKind::BOUND => {
            p.expect(SyntaxKind::BOUND);
            p.expect(SyntaxKind::LParen);
            parse_Var(p);
            p.expect(SyntaxKind::RParen);
            proof {
                assert(arm_BuiltInCall_8(ks, start, gm1, pre1) == (p.st(), false)) by {
                    reveal_with_fuel(arm_BuiltInCall_8, 1);
                }
            }
            proof {
                lemma_arm_BuiltInCall_8(ks, start, gm1, pre1);
            }
        },
        SyntaxKind::IRI => {
            p.expect(SyntaxKind::IRI);
            p.expect(SyntaxKind::LParen);
            proof {
                assert(call_ok(ks, start, p.st(), rank_Expression(peek_at(ks, p.st().pos)), rank_BuiltInCall(peek_at(ks, start)))) by {
                    reveal(Parser::st);
                    assert(peek_at(ks, start) == co.peek());
                    assert(peek_at(ks, p.pos as int) == p.peek());
                }
            }
            parse_Expression(p);
            p.expect(SyntaxKind::RParen);
            proof {
                assert(arm_BuiltInCall_9(ks, start, gm1, pre1) == (p.st(), false)) by {
                    reveal_with_fuel(arm_BuiltInCall_9, 1); reveal_with_fuel(rule_Expression, 1);
                }
            }
            proof {
                lemma_arm_BuiltInCall_9(ks, start, gm1, pre1);
            }
        },
        _ => {
            proof {
                assert(false);
            }
        },
    }
    false
}


/// One group of the alternatives of [`parse_BuiltInCall`].
#[verifier::rlimit(100)]
#[verifier::spinoff_prover]
fn parse_BuiltInCall_part2(p: &mut Parser, marker: MarkOpened, Ghost(co): Ghost<Parser>, Ghost(gm1): Ghost<int>) -> (r: bool)
    requires
        old(p).wf(),
        co.wf(),
        old(p).tokens@ == co.tokens@,
        co.pos <= old(p).pos,
        marker.index == co.events@.len(),
        gm1 == marker.index as int,
        old(p).stack() == co.stack().push(marker.index as int),
        old(p).events@.len() > marker.index,
        old(p).peek() == SyntaxKind::URI || old(p).peek() == SyntaxKind::BNODE || old(p).peek() == SyntaxKind::RAND || old(p).peek() == SyntaxKind::ABS || old(p).peek() == SyntaxKind::CEIL || old(p).peek() == SyntaxKind::FLOOR || old(p).peek() == SyntaxKind::ROUND || old(p).peek() == SyntaxKind::CONCAT,
    ensures
        final(p).wf(),
        final(p).tokens@ == old(p).tokens@,
        old(p).pos <= final(p).pos,
        !r ==> final(p).stack() == old(p).stack(),
        !r ==> final(p).pos > old(p).pos,
        match_BuiltInCall_1(co.kinds(), co.pos as int, gm1, old(p).st()) == (final(p).st(), r),
        r ==> (Parser::step(co, *final(p))),
        r ==> (final(p).pos == co.pos ==> is_sync_point(co.peek())),
        r ==> (co.events@.len() < final(p).events@.len()),
        r ==> (final(p).events@[co.events@.len() as int] == (Event::Open { kind: SyntaxKind::BuiltInCall })),
        r ==> (final(p).events@.last() is Close),
    decreases co.remaining(), rank_BuiltInCall(co.peek()), 0int,
{
    let ghost ks = p.kinds();
    let ghost start = co.pos as int;
    assert(ks == co.kinds());
    let ghost pre1 = p.st();
    match p.nth(0) {
        SyntaxKind::URI => {
            p.expect(SyntaxKind::URI);
            p.expect(SyntaxKind::LParen);
            proof {
                assert(call_ok(ks, start, p.st(), rank_Expression(peek_at(ks, p.st().pos)), rank_BuiltInCall(peek_at(ks, start)))) by {
                    reveal(Parser::st);
                    assert(peek_at(ks, start) == co.peek());
                    assert(peek_at(ks, p.pos as int) == p.peek());
                }
            }
            parse_Expression(p);
            p.expect(SyntaxKind::RParen);
            proof {
                assert(arm_BuiltInCall_10(ks, start, gm1, pre1) == (p.st(), false)) by {
                    reveal_with_fuel(arm_BuiltInCall_10, 1); reveal_with_fuel(rule_Expression, 1);
                }
            }
            proof {
                lemma_arm_BuiltInCall_10(ks, start, gm1, pre1);
            }
        },
        SyntaxKind::BNODE => {
            p.expect(SyntaxKind::BNODE);
            let ghost pre2 = p.st();
            match p.nth(0) {
                SyntaxKind::LParen => {
                    p.expect(SyntaxKind::LParen);
                    proof {
                        assert(call_ok(ks, start, p.st(), rank_Expression(peek_at(ks, p.st().pos)), rank_BuiltInCall(peek_at(ks, start)))) by {
                            reveal(Parser::st);
                            assert(peek_at(ks, start) == co.peek());
                            assert(peek_at(ks, p.pos as int) == p.peek());
                        }
                    }
                    parse_Expression(p);
                    p.expect(SyntaxKind::RParen);
                    proof {
                        assert(match_BuiltInCall_12(ks, start, gm1, pre2) == (p.st(), false)) by {
                            reveal_with_fuel(match_BuiltInCall_12, 1); reveal_with_fuel(rule_Expression, 1);
                        }
                    }
                },
                SyntaxKind::NIL => {
                    p.expect(SyntaxKind::NIL);
                    proof {
                        assert(match_BuiltInCall_12(ks, start, gm1, pre2) == (p.st(), false)) by {
                            reveal_with_fuel(match_BuiltInCall_12, 1);
                        }
                    }
                },
                SyntaxKind::Eof => {
                    p.close(marker, SyntaxKind::BuiltInCall);
                    let marker = p.open();
                    let ghost gm2 = marker.index as int;
                    p.close(marker, SyntaxKind::Error);
                    proof {
                        assert(match_BuiltInCall_12(ks, start, gm1, pre2) == (p.st(), true)) by {
                            reveal_with_fuel(match_BuiltInCall_12, 1);
                        }
                    }
                    proof {
                        assert(arm_BuiltInCall_11(ks, start, gm1, pre1) == (p.st(), true)) by {
                            reveal_with_fuel(arm_BuiltInCall_11, 1); reveal_with_fuel(match_BuiltInCall_12, 1);
                        }
                    }
                    proof {
                        lemma_arm_BuiltInCall_11(ks, start, gm1, pre1);
                    }
                    return true;
                },
                _ => {
                    p.advance_with_error(vec![SyntaxKind::LParen, SyntaxKind::NIL]);
                    proof {
                        assert(match_BuiltInCall_12(ks, start, gm1, pre2) == (p.st(), false)) by {
                            reveal_with_fuel(match_BuiltInCall_12, 1);
                        }
                    }
                },
            }
            proof {
                assert(arm_BuiltInCall_11(ks, start, gm1, pre1) == (p.st(), false)) by {
                    reveal_with_fuel(arm_BuiltInCall_11, 1); reveal_with_fuel(match_BuiltInCall_12, 1);
                }
            }
            proof {
                lemma_arm_BuiltInCall_11(ks, start, gm1, pre1);
            }
        },
        SyntaxKind::RAND => {
            p.expect(SyntaxKind::RAND);
            p.expect(SyntaxKind::NIL);
            proof {
                assert(arm_BuiltInCall_13(ks, start, gm1, pre1) == (p.st(), false)) by {
                    reveal_with_fuel(arm_BuiltInCall_13, 1);
                }
            }
            proof {
                lemma_arm_BuiltInCall_13(ks, start, gm1, pre1);
            }
        },
        SyntaxKind::ABS => {
            p.expect(SyntaxKind::ABS);
            p.expect(SyntaxKind::LParen);
            proof {
                assert(call_ok(ks, start, p.st(), rank_Expression(peek_at(ks, p.st().pos)), rank_BuiltInCall(peek_at(ks, start)))) by {
                    reveal(Parser::st);
                    assert(peek_at(ks, start) == co.peek());
                    assert(peek_at(ks, p.pos as int) == p.peek());
                }
            }
            parse_Expression(p);
            p.expect(SyntaxKind::RParen);
            proof {
                assert(arm_BuiltInCall_14(ks, start, gm1, pre1) == (p.st(), false)) by {
                    reveal_with_fuel(arm_BuiltInCall_14, 1); reveal_with_fuel(rule_Expression, 1);
                }
            }
            proof {
                lemma_arm_BuiltInCall_14(ks, start, gm1, pre1);
            }
        },
        SyntaxKind::CEIL => {
            p.expect(SyntaxKind::CEIL);
            p.expect(SyntaxKind::LParen);
            proof {
                assert(call_ok(ks, start, p.st(), rank_Expression(peek_at(ks, p.st().pos)), rank_BuiltInCall(peek_at(ks, start)))) by {
                    reveal(Parser::st);
                    assert(peek_at(ks, start) == co.peek());
                    assert(peek_at(ks, p.pos as int) == p.peek());
                }
            }
            parse_Expression(p);
            p.expect(SyntaxKind::RParen);
            proof {
                assert(arm_BuiltInCall_15(ks, start, gm1, pre1) == (p.st(), false)) by {
                    reveal_with_fuel(arm_BuiltInCall_15, 1); reveal_with_fuel(rule_Expression, 1);
                }
            }
            proof {
                lemma_arm_BuiltInCall_15(ks, start, gm1, pre1);
            }
        },
        SyntaxKind::FLOOR => {
            p.expect(SyntaxKind::FLOOR);
            p.expect(SyntaxKind::LParen);
            proof {
                assert(call_ok(ks, start, p.st(), rank_Expression(peek_at(ks, p.st().pos)), rank_BuiltInCall(peek_at(ks, start)))) by {
                    reveal(Parser::st);
                    assert(peek_at(ks, start) == co.peek());
                    assert(peek_at(ks, p.pos as int) == p.peek());
                }
            }
            parse_Expression(p);
            p.expect(SyntaxKind::RParen);
            proof {
                assert(arm_BuiltInCall_16(ks, start, gm1, pre1) == (p.st(), false)) by {
                    reveal_with_fuel(arm_BuiltInCall_16, 1); reveal_with_fuel(rule_Expression, 1);
                }
            }
            proof {
                lemma_arm_BuiltInCall_16(ks, start, gm1, pre1);
            }
        },
        SyntaxKind::ROUND => {
            p.expect(SyntaxKind::ROUND);
            p.expect(SyntaxKind::LParen);
            proof {
                assert(call_ok(ks, start, p.st(), rank_Expression(peek_at(ks, p.st().pos)), rank_BuiltInCall(peek_at(ks, start)))) by {
                    reveal(Parser::st);
                    assert(peek_at(ks, start) == co.peek());
                    assert(peek_at(ks, p.pos as int) == p.peek());
                }
            }
            parse_Expression(p);
            p.expect(SyntaxKind::RParen);
            proof {
                assert(arm_BuiltInCall_17(ks, start, gm1, pre1) == (p.st(), false)) by {
                    reveal_with_fuel(arm_BuiltInCall_17, 1); reveal_with_fuel(rule_Expression, 1);
                }
            }
            proof {
                lemma_arm_BuiltInCall_17(ks, start, gm1, pre1);
            }
        },
        SyntaxKind::CONCAT => {
            p.expect(SyntaxKind::CONCAT);
            proof {
                assert(call_ok(ks, start, p.st(), rank_ExpressionList(peek_at(ks, p.st().pos)), rank_BuiltInCall(peek_at(ks, start)))) by {
                    reveal(Parser::st);
                    assert(peek_at(ks, start) == co.peek());
                    assert(peek_at(ks, p.pos as int) == p.peek());
                }
            }
            parse_ExpressionList(p);
            proof {
                assert(arm_BuiltInCall_18(ks, start, gm1, pre1) == (p.st(), false)) by {
                    reveal_with_fuel(arm_BuiltInCall_18, 1); reveal_with_fuel(rule_ExpressionList, 1);
                }
            }
            proof {
                lemma_arm_BuiltInCall_18(ks, start, gm1, pre1);
            }
        },
        _ => {
            proof {
                assert(false);
            }
        },
    }
    false
}


/// One group of the alternatives of [`parse_BuiltInCall`].
#[verifier::rlimit(100)]
#[verifier::spinoff_prover]
fn parse_BuiltInCall_part3(p: &mut Parser, marker: MarkOpened, Ghost(co): Ghost<Parser>, Ghost(gm1): Ghost<int>) -> (r: bool)
    requires
        old(p).wf(),
        co.wf(),
        old(p).tokens@ == co.tokens@,
        co.pos <= old(p).pos,
        marker.index == co.events@.len(),
        gm1 == marker.index as int,
        old(p).stack() == co.stack().push(marker.index as int),
        old(p).events@.len() > marker.index,
        old(p).peek() == SyntaxKind::SUBSTR || old(p).peek() == SyntaxKind::STRLEN || old(p).peek() == SyntaxKind::REPLACE || old(p).peek() == SyntaxKind::UCASE || old(p).peek() == SyntaxKind::LCASE || old(p).peek() == SyntaxKind::ENCODE_FOR_URI || old(p).peek() == SyntaxKind::CONTAINS || old(p).peek() == SyntaxKind::STRSTARTS,
    ensures
        final(p).wf(),
        final(p).tokens@ == old(p).tokens@,
        old(p).pos <= final(p).pos,
        !r ==> final(p).stack() == old(p).stack(),
        !r ==> final(p).pos > old(p).pos,
        match_BuiltInCall_1(co.kinds(), co.pos as int, gm1, old(p).st()) == (final(p).st(), r),
        r ==> (Parser::step(co, *final(p))),
        r ==> (final(p).pos == co.pos ==> is_sync_point(co.peek())),
        r ==> (co.events@.len() < final(p).events@.len()),
        r ==> (final(p).events@[co.events@.len() as int] == (Event::Open { kind: SyntaxKind::BuiltInCall })),
        r ==> (final(p).events@.last() is Close),
    decreases co.remaining(), rank_BuiltInCall(co.peek()), 0int,
{
    let ghost ks = p.kinds();
    let ghost start = co.pos as int;
    assert(ks == co.kinds());
    let ghost pre1 = p.st();
    match p.nth(0) {
        SyntaxKind::SUBSTR => {
            proof {
                assert(call_ok(ks, start, p.st(), rank_SubstringExpression(peek_at(ks, p.st().pos)), rank_BuiltInCall(peek_at(ks, start)))) by {
                    reveal(Parser::st);
                    assert(peek_at(ks, start) == co.peek());
                    assert(peek_at(ks, p.pos as int) == p.peek());
                }
            }
            parse_SubstringExpression(p);
            proof {
                assert(arm_BuiltInCall_19(ks, start, gm1, pre1) == (p.st(), false)) by {
                    reveal_with_fuel(arm_BuiltInCall_19, 1); reveal_with_fuel(rule_SubstringExpression, 1);
                }
            }
            proof {
                lemma_arm_BuiltInCall_19(ks, start, gm1, pre1);
            }
        },
        SyntaxKind::STRLEN => {
            p.expect(SyntaxKind::STRLEN);
            p.expect(SyntaxKind::LParen);
            proof {
                assert(call_ok(ks, start, p.st(), rank_Expression(peek_at(ks, p.st().pos)), rank_BuiltInCall(peek_at(ks, start)))) by {
                    reveal(Parser::st);
                    assert(peek_at(ks, start) == co.peek());
                    assert(peek_at(ks, p.pos as int) == p.peek());
                }
            }
            parse_Expression(p);
            p.expect(SyntaxKind::RParen);
            proof {
                assert(arm_BuiltInCall_20(ks, start, gm1, pre1) == (p.st(), false)) by {
                    reveal_with_fuel(arm_BuiltInCall_20, 1); reveal_with_fuel(rule_Expression, 1);
                }
            }
            proof {
                lemma_arm_BuiltInCall_20(ks, start, gm1, pre1);
            }
        },
        SyntaxKind::REPLACE => {
            proof {
                assert(call_ok(ks, start, p.st(), rank_StrReplaceExpression(peek_at(ks, p.st().pos)), rank_BuiltInCall(peek_at(ks, start)))) by {
                    reveal(Parser::st);
                    assert(peek_at(ks, start) == co.peek());
                    assert(peek_at(ks, p.pos as int) == p.peek());
                }
            }
            parse_StrReplaceExpression(p);
            proof {
                assert(arm_BuiltInCall_21(ks, start, gm1, pre1) == (p.st(), false)) by {
                    reveal_with_fuel(arm_BuiltInCall_21, 1); reveal_with_fuel(rule_StrReplaceExpression, 1);
                }
            }
            proof {
                lemma_arm_BuiltInCall_21(ks, start, gm1, pre1);
            }
        },
        SyntaxKind::UCASE => {
            p.expect(SyntaxKind::UCASE);
            p.expect(SyntaxKind::LParen);
            proof {
                assert(call_ok(ks, start, p.st(), rank_Expression(peek_at(ks, p.st().pos)), rank_BuiltInCall(peek_at(ks, start)))) by {
                    reveal(Parser::st);
                    assert(peek_at(ks, start) == co.peek());
                    assert(peek_at(ks, p.pos as int) == p.peek());
                }
            }
            parse_Expression(p);
            p.expect(SyntaxKind::RParen);
            proof {
                assert(arm_BuiltInCall_22(ks, start, gm1, pre1) == (p.st(), false)) by {
                    reveal_with_fuel(arm_BuiltInCall_22, 1); reveal_with_fuel(rule_Expression, 1);
                }
            }
            proof {
                lemma_arm_BuiltInCall_22(ks, start, gm1, pre1);
            }
        },
        SyntaxKind::LCASE => {
            p.expect(SyntaxKind::LCASE);
            p.expect(SyntaxKind::LParen);
            proof {
                assert(call_ok(ks, start, p.st(), rank_Expression(peek_at(ks, p.st().pos)), rank_BuiltInCall(peek_at(ks, start)))) by {
                    reveal(Parser::st);
                    assert(peek_at(ks, start) == co.peek());
                    assert(peek_at(ks, p.pos as int) == p.peek());
                }
            }
            parse_Expression(p);
            p.expect(SyntaxKind::RParen);
            proof {
                assert(arm_BuiltInCall_23(ks, start, gm1, pre1) == (p.st(), false)) by {
                    reveal_with_fuel(arm_BuiltInCall_23, 1); reveal_with_fuel(rule_Expression, 1);
                }
            }
            proof {
                lemma_arm_BuiltInCall_23(ks, start, gm1, pre1);
            }
        },
        SyntaxKind::ENCODE_FOR_URI => {
            p.expect(SyntaxKind::ENCODE_FOR_URI);
            p.expect(SyntaxKind::LParen);
            proof {
                assert(call_ok(ks, start, p.st(), rank_Expression(peek_at(ks, p.st().pos)), rank_BuiltInCall(peek_at(ks, start)))) by {
                    reveal(Parser::st);
                    assert(peek_at(ks, start) == co.peek());
                    assert(peek_at(ks, p.pos as int) == p.peek());
                }
            }
            parse_Expression(p);
            p.expect(SyntaxKind::RParen);
            proof {
                assert(arm_BuiltInCall_24(ks, start, gm1, pre1) == (p.st(), false)) by {
                    reveal_with_fuel(arm_BuiltInCall_24, 1); reveal_with_fuel(rule_Expression, 1);
                }
            }
            proof {
                lemma_arm_BuiltInCall_24(ks, start, gm1, pre1);
            }
        },
        SyntaxKind::CONTAINS => {
            p.expect(SyntaxKind::CONTAINS);
            p.expect(SyntaxKind::LParen);
            proof {
                assert(call_ok(ks, start, p.st(), rank_Expression(peek_at(ks, p.st().pos)), rank_BuiltInCall(peek_at(ks, start)))) by {
                    reveal(Parser::st);
                    assert(peek_at(ks, start) == co.peek());
                    assert(peek_at(ks, p.pos as int) == p.peek());
                }
            }
            parse_Expression(p);
            p.expect(SyntaxKind::Comma);
            proof {
                assert(call_ok(ks, start, p.st(), rank_Expression(peek_at(ks, p.st().pos)), rank_BuiltInCall(peek_at(ks, start)))) by {
                    reveal(Parser::st);
                    assert(peek_at(ks, start) == co.peek());
                    assert(peek_at(ks, p.pos as int) == p.peek());
                }
            }
            parse_Expression(p);
            p.expect(SyntaxKind::RParen);
            proof {
                assert(arm_BuiltInCall_25(ks, start, gm1, pre1) == (p.st(), false)) by {
                    reveal_with_fuel(arm_BuiltInCall_25, 1); reveal_with_fuel(rule_Expression, 1);
                }
            }
            proof {
                lemma_arm_BuiltInCall_25(ks, start, gm1, pre1);
            }
        },
        SyntaxKind::STRSTARTS => {
            p.expect(SyntaxKind::STRSTARTS);
            p.expect(SyntaxKind::LParen);
            proof {
                assert(call_ok(ks, start, p.st(), rank_Expression(peek_at(ks, p.st().pos)), rank_BuiltInCall(peek_at(ks, start)))) by {
                    reveal(Parser::st);
                    assert(peek_at(ks, start) == co.peek());
                    assert(peek_at(ks, p.pos as int) == p.peek());
                }
            }
            parse_Expression(p);
            p.expect(SyntaxKind::Comma);
            proof {
                assert(call_ok(ks, start, p.st(), rank_Expression(peek_at(ks, p.st().pos)), rank_BuiltInCall(peek_at(ks, start)))) by {
                    reveal(Parser::st);
                    assert(peek_at(ks, start) == co.peek());
                    assert(peek_at(ks, p.pos as int) == p.peek());
                }
            }
            parse_Expression(p);
            p.expect(SyntaxKind::RParen);
            proof {
                assert(arm_BuiltInCall_26(ks, start, gm1, pre1) == (p.st(), false)) by {
                    reveal_with_fuel(arm_BuiltInCall_26, 1); reveal_with_fuel(rule_Expression, 1);
                }
            }
            proof {
                lemma_arm_BuiltInCall_26(ks, start, gm1, pre1);
            }
        },
        _ => {
            proof {
                assert(false);
            }
        },
    }
    false
}


/// One group of the alternatives of [`parse_BuiltInCall`].
#[verifier::rlimit(100)]
#[verifier::spinoff_prover]
fn parse_BuiltInCall_part4(p: &mut Parser, marker: MarkOpened, Ghost(co): Ghost<Parser>, Ghost(gm1): Ghost<int>) -> (r: bool)
    requires
        old(p).wf(),
        co.wf(),
        old(p).tokens@ == co.tokens@,
        co.pos <= old(p).pos,
        marker.index == co.events@.len(),
        gm1 == marker.index as int,
        old(p).stack() == co.stack().push(marker.index as int),
        old(p).events@.len() > marker.index,
        old(p).peek() == SyntaxKind::STRENDS || old(p).peek() == SyntaxKind::STRBEFORE || old(p).peek() == SyntaxKind::STRAFTER || old(p).peek() == SyntaxKind::YEAR || old(p).peek() == SyntaxKind::MONTH || old(p).peek() == SyntaxKind::DAY || old(p).peek() == SyntaxKind::HOURS || old(p).peek() == SyntaxKind::MINUTES,
    ensures
        final(p).wf(),
        final(p).tokens@ == old(p).tokens@,
        old(p).pos <= final(p).pos,
        !r ==> final(p).stack() == old(p).stack(),
        !r ==> final(p).pos > old(p).pos,
        match_BuiltInCall_1(co.kinds(), co.pos as int, gm1, old(p).st()) == (final(p).st(), r),
        r ==> (Parser::step(co, *final(p))),
        r ==> (final(p).pos == co.pos ==> is_sync_point(co.peek())),
        r ==> (co.events@.len() < final(p).events@.len()),
        r ==> (final(p).events@[co.events@.len() as int] == (Event::Open { kind: SyntaxKind::BuiltInCall })),
        r ==> (final(p).events@.last() is Close),
    decreases co.remaining(), rank_BuiltInCall(co.peek()), 0int,
{
    let ghost ks = p.kinds();
    let ghost start = co.pos as int;
    assert(ks == co.kinds());
    let ghost pre1 = p.st();
    match p.nth(0) {
        SyntaxKind::STRENDS => {
            p.expect(SyntaxKind::STRENDS);
            p.expect(SyntaxKind::LParen);
            proof {
                assert(call_ok(ks, start, p.st(), rank_Expression(peek_at(ks, p.st().pos)), rank_BuiltInCall(peek_at(ks, start)))) by {
                    reveal(Parser::st);
                    assert(peek_at(ks, start) == co.peek());
                    assert(peek_at(ks, p.pos as int) == p.peek());
                }
            }
            parse_Expression(p);
            p.expect(SyntaxKind::Comma);
            proof {
                assert(call_ok(ks, start, p.st(), rank_Expression(peek_at(ks, p.st().pos)), rank_BuiltInCall(peek_at(ks, start)))) by {
                    reveal(Parser::st);
                    assert(peek_at(ks, start) == co.peek());
                    assert(peek_at(ks, p.pos as int) == p.peek());
                }
            }
            parse_Expression(p);
            p.expect(SyntaxKind::RParen);
            proof {
                assert(arm_BuiltInCall_27(ks, start, gm1, pre1) == (p.st(), false)) by {
                    reveal_with_fuel(arm_BuiltInCall_27, 1); reveal_with_fuel(rule_Expression, 1);
                }
            }
            proof {
                lemma_arm_BuiltInCall_27(ks, start, gm1, pre1);
            }
        },
        SyntaxKind::STRBEFORE => {
            p.expect(SyntaxKind::STRBEFORE);
            p.expect(SyntaxKind::LParen);
            proof {
                assert(call_ok(ks, start, p.st(), rank_Expression(peek_at(ks, p.st().pos)), rank_BuiltInCall(peek_at(ks, start)))) by {
                    reveal(Parser::st);
                    assert(peek_at(ks, start) == co.peek());
                    assert(peek_at(ks, p.pos as int) == p.peek());
                }
            }
            parse_Expression(p);
            p.expect(SyntaxKind::Comma);
            proof {
                assert(call_ok(ks, start, p.st(), rank_Expression(peek_at(ks, p.st().pos)), rank_BuiltInCall(peek_at(ks, start)))) by {
                    reveal(Parser::st);
                    assert(peek_at(ks, start) == co.peek());
                    assert(peek_at(ks, p.pos as int) == p.peek());
                }
            }
            parse_Expression(p);
            p.expect(SyntaxKind::RParen);
            proof {
                assert(arm_BuiltInCall_28(ks, start, gm1, pre1) == (p.st(), false)) by {
                    reveal_with_fuel(arm_BuiltInCall_28, 1); reveal_with_fuel(rule_Expression, 1);
                }
            }
            proof {
                lemma_arm_BuiltInCall_28(ks, start, gm1, pre1);
            }
        },
        SyntaxKind::STRAFTER => {
            p.expect(SyntaxKind::STRAFTER);
            p.expect(SyntaxKind::LParen);
            proof {
                assert(call_ok(ks, start, p.st(), rank_Expression(peek_at(ks, p.st().pos)), rank_BuiltInCall(peek_at(ks, start)))) by {
                    reveal(Parser::st);
                    assert(peek_at(ks, start) == co.peek());
                    assert(peek_at(ks, p.pos as int) == p.peek());
                }
            }
            parse_Expression(p);
            p.expect(SyntaxKind::Comma);
            proof {
                assert(call_ok(ks, start, p.st(), rank_Expression(peek_at(ks, p.st().pos)), rank_BuiltInCall(peek_at(ks, start)))) by {
                    reveal(Parser::st);
                    assert(peek_at(ks, start) == co.peek());
                    assert(peek_at(ks, p.pos as int) == p.peek());
                }
            }
            parse_Expression(p);
            p.expect(SyntaxKind::RParen);
            proof {
                assert(arm_BuiltInCall_29(ks, start, gm1, pre1) == (p.st(), false)) by {
                    reveal_with_fuel(arm_BuiltInCall_29, 1); reveal_with_fuel(rule_Expression, 1);
                }
            }
            proof {
                lemma_arm_BuiltInCall_29(ks, start, gm1, pre1);
            }
        },
        SyntaxKind::YEAR => {
            p.expect(SyntaxKind::YEAR);
            p.expect(SyntaxKind::LParen);
            proof {
                assert(call_ok(ks, start, p.st(), rank_Expression(peek_at(ks, p.st().pos)), rank_BuiltInCall(peek_at(ks, start)))) by {
                    reveal(Parser::st);
                    assert(peek_at(ks, start) == co.peek());
                    assert(peek_at(ks, p.pos as int) == p.peek());
                }
            }
            parse_Expression(p);
            p.expect(SyntaxKind::RParen);
            proof {
                assert(arm_BuiltInCall_30(ks, start, gm1, pre1) == (p.st(), false)) by {
                    reveal_with_fuel(arm_BuiltInCall_30, 1); reveal_with_fuel(rule_Expression, 1);
                }
            }
            proof {
                lemma_arm_BuiltInCall_30(ks, start, gm1, pre1);
            }
        },
        SyntaxKind::MONTH => {
            p.expect(SyntaxKind::MONTH);
            p.expect(SyntaxKind::LParen);
            proof {
                assert(call_ok(ks, start, p.st(), rank_Expression(peek_at(ks, p.st().pos)), rank_BuiltInCall(peek_at(ks, start)))) by {
                    reveal(Parser::st);
                    assert(peek_at(ks, start) == co.peek());
                    assert(peek_at(ks, p.pos as int) == p.peek());
                }
            }
            parse_Expression(p);
            p.expect(SyntaxKind::RParen);
            proof {
                assert(arm_BuiltInCall_31(ks, start, gm1, pre1) == (p.st(), false)) by {
                    reveal_with_fuel(arm_BuiltInCall_31, 1); reveal_with_fuel(rule_Expression, 1);
                }
            }
            proof {
                lemma_arm_BuiltInCall_31(ks, start, gm1, pre1);
            }
        },
        SyntaxKind::DAY => {
            p.expect(SyntaxKind::DAY);
            p.expect(SyntaxKind::LParen);
            proof {
                assert(call_ok(ks, start, p.st(), rank_Expression(peek_at(ks, p.st().pos)), rank_BuiltInCall(peek_at(ks, start)))) by {
                    reveal(Parser::st);
                    assert(peek_at(ks, start) == co.peek());
                    assert(peek_at(ks, p.pos as int) == p.peek());
                }
            }
            parse_Expression(p);
            p.expect(SyntaxKind::RParen);
            proof {
                assert(arm_BuiltInCall_32(ks, start, gm1, pre1) == (p.st(), false)) by {
                    reveal_with_fuel(arm_BuiltInCall_32, 1); reveal_with_fuel(rule_Expression, 1);
                }
            }
            proof {
                lemma_arm_BuiltInCall_32(ks, start, gm1, pre1);
            }
        },
        SyntaxKind::HOURS => {
            p.expect(SyntaxKind::HOURS);
            p.expect(SyntaxKind::LParen);
            proof {
                assert(call_ok(ks, start, p.st(), rank_Expression(peek_at(ks, p.st().pos)), rank_BuiltInCall(peek_at(ks, start)))) by {
                    reveal(Parser::st);
                    assert(peek_at(ks, start) == co.peek());
                    assert(peek_at(ks, p.pos as int) == p.peek());
                }
            }
            parse_Expression(p);
            p.expect(SyntaxKind::RParen);
            proof {
                assert(arm_BuiltInCall_33(ks, start, gm1, pre1) == (p.st(), false)) by {
                    reveal_with_fuel(arm_BuiltInCall_33, 1); reveal_with_fuel(rule_Expression, 1);
                }
            }
            proof {
                lemma_arm_BuiltInCall_33(ks, start, gm1, pre1);
            }
        },
        SyntaxKind::MINUTES => {
            p.expect(SyntaxKind::MINUTES);
            p.expect(SyntaxKind::LParen);
            proof {
                assert(call_ok(ks, start, p.st(), rank_Expression(peek_at(ks, p.st().pos)), rank_BuiltInCall(peek_at(ks, start)))) by {
                    reveal(Parser::st);
                    assert(peek_at(ks, start) == co.peek());
                    assert(peek_at(ks, p.pos as int) == p.peek());
                }
            }
            parse_Expression(p);
            p.expect(SyntaxKind::RParen);
            proof {
                assert(arm_BuiltInCall_34(ks, start, gm1, pre1) == (p.st(), false)) by {
                    reveal_with_fuel(arm_BuiltInCall_34, 1); reveal_with_fuel(rule_Expression, 1);
                }
            }
            proof {
                lemma_arm_BuiltInCall_34(ks, start, gm1, pre1);
            }
        },
        _ => {
            proof {
                assert(false);
            }
        },
    }
    false
}


/// One group of the alternatives of [`parse_BuiltInCall`].
#[verifier::rlimit(100)]
#[verifier::spinoff_prover]
fn parse_BuiltInCall_part5(p: &mut Parser, marker: MarkOpened, Ghost(co): Ghost<Parser>, Ghost(gm1): Ghost<int>) -> (r: bool)
    requires
        old(p).wf(),
        co.wf(),
        old(p).tokens@ == co.tokens@,
        co.pos <= old(p).pos,
        marker.index == co.events@.len(),
        gm1 == marker.index as int,
        old(p).stack() == co.stack().push(marker.index as int),
        old(p).events@.len() > marker.index,
        old(p).peek() == SyntaxKind::SECONDS || old(p).peek() == SyntaxKind::TIMEZONE || old(p).peek() == SyntaxKind::TZ || old(p).peek() == SyntaxKind::NOW || old(p).peek() == SyntaxKind::UUID || old(p).peek() == SyntaxKind::STRUUID || old(p).peek() == SyntaxKind::MD5 || old(p).peek() == SyntaxKind::SHA1,
    ensures
        final(p).wf(),
        final(p).tokens@ == old(p).tokens@,
        old(p).pos <= final(p).pos,
        !r ==> final(p).stack() == old(p).stack(),
        !r ==> final(p).pos > old(p).pos,
        match_BuiltInCall_1(co.kinds(), co.pos as int, gm1, old(p).st()) == (final(p).st(), r),
        r ==> (Parser::step(co, *final(p))),
        r ==> (final(p).pos == co.pos ==> is_sync_point(co.peek())),
        r ==> (co.events@.len() < final(p).events@.len()),
        r ==> (final(p).events@[co.events@.len() as int] == (Event::Open { kind: SyntaxKind::BuiltInCall })),
        r ==> (final(p).events@.last() is Close),
    decreases co.remaining(), rank_BuiltInCall(co.peek()), 0int,
{
    let ghost ks = p.kinds();
    let ghost start = co.pos as int;
    assert(ks == co.kinds());
    let ghost pre1 = p.st();
    match p.nth(0) {
        SyntaxKind::SECONDS => {
            p.expect(SyntaxKind::SECONDS);
            p.expect(SyntaxKind::LParen);
            proof {
                assert(call_ok(ks, start, p.st(), rank_Expression(peek_at(ks, p.st().pos)), rank_BuiltInCall(peek_at(ks, start)))) by {
                    reveal(Parser::st);
                    assert(peek_at(ks, start) == co.peek());
                    assert(peek_at(ks, p.pos as int) == p.peek());
                }
            }
            parse_Expression(p);
            p.expect(SyntaxKind::RParen);
            proof {
                assert(arm_BuiltInCall_35(ks, start, gm1, pre1) == (p.st(), false)) by {
                    reveal_with_fuel(arm_BuiltInCall_35, 1); reveal_with_fuel(rule_Expression, 1);
                }
            }
            proof {
                lemma_arm_BuiltInCall_35(ks, start, gm1, pre1);
            }
        },
        SyntaxKind::TIMEZONE => {
            p.expect(SyntaxKind::TIMEZONE);
            p.expect(SyntaxKind::LParen);
            proof {
                assert(call_ok(ks, start, p.st(), rank_Expression(peek_at(ks, p.st().pos)), rank_BuiltInCall(peek_at(ks, start)))) by {
                    reveal(Parser::st);
                    assert(peek_at(ks, start) == co.peek());
                    assert(peek_at(ks, p.pos as int) == p.peek());
                }
            }
            parse_Expression(p);
            p.expect(SyntaxKind::RParen);
            proof {
                assert(arm_BuiltInCall_36(ks, start, gm1, pre1) == (p.st(), false)) by {
                    reveal_with_fuel(arm_BuiltInCall_36, 1); reveal_with_fuel(rule_Expression, 1);
                }
            }
            proof {
                lemma_arm_BuiltInCall_36(ks, start, gm1, pre1);
            }
        },
        SyntaxKind::TZ => {
            p.expect(SyntaxKind::TZ);
            p.expect(SyntaxKind::LParen);
            proof {
                assert(call_ok(ks, start, p.st(), rank_Expression(peek_at(ks, p.st().pos)), rank_BuiltInCall(peek_at(ks, start)))) by {
                    reveal(Parser::st);
                    assert(peek_at(ks, start) == co.peek());
                    assert(peek_at(ks, p.pos as int) == p.peek());
                }
            }
            parse_Expression(p);
            p.expect(SyntaxKind::RParen);
            proof {
                assert(arm_BuiltInCall_37(ks, start, gm1, pre1) == (p.st(), false)) by {
                    reveal_with_fuel(arm_BuiltInCall_37, 1); reveal_with_fuel(rule_Expression, 1);
                }
            }
            proof {
                lemma_arm_BuiltInCall_37(ks, start, gm1, pre1);
            }
        },
        SyntaxKind::NOW => {
            p.expect(SyntaxKind::NOW);
            p.expect(SyntaxKind::NIL);
            proof {
                assert(arm_BuiltInCall_38(ks, start, gm1, pre1) == (p.st(), false)) by {
                    reveal_with_fuel(arm_BuiltInCall_38, 1);
                }
            }
            proof {
                lemma_arm_BuiltInCall_38(ks, start, gm1, pre1);
            }
        },
        SyntaxKind::UUID => {
            p.expect(SyntaxKind::UUID);
            p.expect(SyntaxKind::NIL);
            proof {
                assert(arm_BuiltInCall_39(ks, start, gm1, pre1) == (p.st(), false)) by {
                    reveal_with_fuel(arm_BuiltInCall_39, 1);
                }
            }
            proof {
                lemma_arm_BuiltInCall_39(ks, start, gm1, pre1);
            }
        },
        SyntaxKind::STRUUID => {
            p.expect(SyntaxKind::STRUUID);
            p.expect(SyntaxKind::NIL);
            proof {
                assert(arm_BuiltInCall_40(ks, start, gm1, pre1) == (p.st(), false)) by {
                    reveal_with_fuel(arm_BuiltInCall_40, 1);
                }
            }
            proof {
                lemma_arm_BuiltInCall_40(ks, start, gm1, pre1);
            }
        },
        SyntaxKind::MD5 => {
            p.expect(SyntaxKind::MD5);
            p.expect(SyntaxKind::LParen);
            proof {
                assert(call_ok(ks, start, p.st(), rank_Expression(peek_at(ks, p.st().pos)), rank_BuiltInCall(peek_at(ks, start)))) by {
                    reveal(Parser::st);
                    assert(peek_at(ks, start) == co.peek());
                    assert(peek_at(ks, p.pos as int) == p.peek());
                }
            }
            parse_Expression(p);
            p.expect(SyntaxKind::RParen);
            proof {
                assert(arm_BuiltInCall_41(ks, start, gm1, pre1) == (p.st(), false)) by {
                    reveal_with_fuel(arm_BuiltInCall_41, 1); reveal_with_fuel(rule_Expression, 1);
                }
            }
            proof {
                lemma_arm_BuiltInCall_41(ks, start, gm1, pre1);
            }
        },
        SyntaxKind::SHA1 => {
            p.expect(SyntaxKind::SHA1);
            p.expect(SyntaxKind::LParen);
            proof {
                assert(call_ok(ks, start, p.st(), rank_Expression(peek_at(ks, p.st().pos)), rank_BuiltInCall(peek_at(ks, start)))) by {
                    reveal(Parser::st);
                    assert(peek_at(ks, start) == co.peek());
                    assert(peek_at(ks, p.pos as int) == p.peek());
                }
            }
            parse_Expression(p);
            p.expect(SyntaxKind::RParen);
            proof {
                assert(arm_BuiltInCall_42(ks, start, gm1, pre1) == (p.st(), false)) by {
                    reveal_with_fuel(arm_BuiltInCall_42, 1); reveal_with_fuel(rule_Expression, 1);
                }
            }
            proof {
                lemma_arm_BuiltInCall_42(ks, start, gm1, pre1);
            }
        },
        _ => {
            proof {
                assert(false);
            }
        },
    }
    false
}


/// One group of the alternatives of [`parse_BuiltInCall`].
#[verifier::rlimit(100)]
#[verifier::spinoff_prover]
fn parse_BuiltInCall_part6(p: &mut Parser, marker: MarkOpened, Ghost(co): Ghost<Parser>, Ghost(gm1): Ghost<int>) -> (r: bool)
    requires
        old(p).wf(),
        co.wf(),
        old(p).tokens@ == co.tokens@,
        co.pos <= old(p).pos,
        marker.index == co.events@.len(),
        gm1 == marker.index as int,
        old(p).stack() == co.stack().push(marker.index as int),
        old(p).events@.len() > marker.index,
        old(p).peek() == SyntaxKind::SHA256 || old(p).peek() == SyntaxKind::SHA384 || old(p).peek() == SyntaxKind::SHA512 || old(p).peek() == SyntaxKind::COALESCE || old(p).peek() == SyntaxKind::IF || old(p).peek() == SyntaxKind::STRLANG || old(p).peek() == SyntaxKind::STRLANGDIR || old(p).peek() == SyntaxKind::STRDT,
    ensures
        final(p).wf(),
        final(p).tokens@ == old(p).tokens@,
        old(p).pos <= final(p).pos,
        !r ==> final(p).stack() == old(p).stack(),
        !r ==> final(p).pos > old(p).pos,
        match_BuiltInCall_1(co.kinds(), co.pos as int, gm1, old(p).st()) == (final(p).st(), r),
        r ==> (Parser::step(co, *final(p))),
        r ==> (final(p).pos == co.pos ==> is_sync_point(co.peek())),
        r ==> (co.events@.len() < final(p).events@.len()),
        r ==> (final(p).events@[co.events@.len() as int] == (Event::Open { kind: SyntaxKind::BuiltInCall })),
        r ==> (final(p).events@.last() is Close),
    decreases co.remaining(), rank_BuiltInCall(co.peek()), 0int,
{
    let ghost ks = p.kinds();
    let ghost start = co.pos as int;
    assert(ks == co.kinds());
    let ghost pre1 = p.st();
    match p.nth(0) {
        SyntaxKind::SHA256 => {
            p.expect(SyntaxKind::SHA256);
            p.expect(SyntaxKind::LParen);
            proof {
                assert(call_ok(ks, start, p.st(), rank_Expression(peek_at(ks, p.st().pos)), rank_BuiltInCall(peek_at(ks, start)))) by {
                    reveal(Parser::st);
                    assert(peek_at(ks, start) == co.peek());
                    assert(peek_at(ks, p.pos as int) == p.peek());
                }
            }
            parse_Expression(p);
            p.expect(SyntaxKind::RParen);
            proof {
                assert(arm_BuiltInCall_43(ks, start, gm1, pre1) == (p.st(), false)) by {
                    reveal_with_fuel(arm_BuiltInCall_43, 1); reveal_with_fuel(rule_Expression, 1);
                }
            }
            proof {
                lemma_arm_BuiltInCall_43(ks, start, gm1, pre1);
            }
        },
        SyntaxKind::SHA384 => {
            p.expect(SyntaxKind::SHA384);
            p.expect(SyntaxKind::LParen);
            proof {
                assert(call_ok(ks, start, p.st(), rank_Expression(peek_at(ks, p.st().pos)), rank_BuiltInCall(peek_at(ks, start)))) by {
                    reveal(Parser::st);
                    assert(peek_at(ks, start) == co.peek());
                    assert(peek_at(ks, p.pos as int) == p.peek());
                }
            }
            parse_Expression(p);
            p.expect(SyntaxKind::RParen);
            proof {
                assert(arm_BuiltInCall_44(ks, start, gm1, pre1) == (p.st(), false)) by {
                    reveal_with_fuel(arm_BuiltInCall_44, 1); reveal_with_fuel(rule_Expression, 1);
                }
            }
            proof {
                lemma_arm_BuiltInCall_44(ks, start, gm1, pre1);
            }
        },
        SyntaxKind::SHA512 => {
            p.expect(SyntaxKind::SHA512);
            p.expect(SyntaxKind::LParen);
            proof {
                assert(call_ok(ks, start, p.st(), rank_Expression(peek_at(ks, p.st().pos)), rank_BuiltInCall(peek_at(ks, start)))) by {
                    reveal(Parser::st);
                    assert(peek_at(ks, start) == co.peek());
                    assert(peek_at(ks, p.pos as int) == p.peek());
                }
            }
            parse_Expression(p);
            p.expect(SyntaxKind::RParen);
            proof {
                assert(arm_BuiltInCall_45(ks, start, gm1, pre1) == (p.st(), false)) by {
                    reveal_with_fuel(arm_BuiltInCall_45, 1); reveal_with_fuel(rule_Expression, 1);
                }
            }
            proof {
                lemma_arm_BuiltInCall_45(ks, start, gm1, pre1);
            }
        },
        SyntaxKind::COALESCE => {
            p.expect(SyntaxKind::COALESCE);
            proof {
                assert(call_ok(ks, start, p.st(), rank_ExpressionList(peek_at(ks, p.st().pos)), rank_BuiltInCall(peek_at(ks, start)))) by {
                    reveal(Parser::st);
                    assert(peek_at(ks, start) == co.peek());
                    assert(peek_at(ks, p.pos as int) == p.peek());
                }
            }
            parse_ExpressionList(p);
            proof {
                assert(arm_BuiltInCall_46(ks, start, gm1, pre1) == (p.st(), false)) by {
                    reveal_with_fuel(arm_BuiltInCall_46, 1); reveal_with_fuel(rule_ExpressionList, 1);
                }
            }
            proof {
                lemma_arm_BuiltInCall_46(ks, start, gm1, pre1);
            }
        },
        SyntaxKind::IF => {
            p.expect(SyntaxKind::IF);
            p.expect(SyntaxKind::LParen);
            proof {
                assert(call_ok(ks, start, p.st(), rank_Expression(peek_at(ks, p.st().pos)), rank_BuiltInCall(peek_at(ks, start)))) by {
                    reveal(Parser::st);
                    assert(peek_at(ks, start) == co.peek());
                    assert(peek_at(ks, p.pos as int) == p.peek());
                }
            }
            parse_Expression(p);
            p.expect(SyntaxKind::Comma);
            proof {
                assert(call_ok(ks, start, p.st(), rank_Expression(peek_at(ks, p.st().pos)), rank_BuiltInCall(peek_at(ks, start)))) by {
                    reveal(Parser::st);
                    assert(peek_at(ks, start) == co.peek());
                    assert(peek_at(ks, p.pos as int) == p.peek());
                }
            }
            parse_Expression(p);
            p.expect(SyntaxKind::Comma);
            proof {
                assert(call_ok(ks, start, p.st(), rank_Expression(peek_at(ks, p.st().pos)), rank_BuiltInCall(peek_at(ks, start)))) by {
                    reveal(Parser::st);
                    assert(peek_at(ks, start) == co.peek());
                    assert(peek_at(ks, p.pos as int) == p.peek());
                }
            }
            parse_Expression(p);
            p.expect(SyntaxKind::RParen);
            proof {
                assert(arm_BuiltInCall_47(ks, start, gm1, pre1) == (p.st(), false)) by {
                    reveal_with_fuel(arm_BuiltInCall_47, 1); reveal_with_fuel(rule_Expression, 1);
                }
            }
            proof {
                lemma_arm_BuiltInCall_47(ks, start, gm1, pre1);
            }
        },
        SyntaxKind::STRLANG => {
            p.expect(SyntaxKind::STRLANG);
            p.expect(SyntaxKind::LParen);
            proof {
                assert(call_ok(ks, start, p.st(), rank_Expression(peek_at(ks, p.st().pos)), rank_BuiltInCall(peek_at(ks, start)))) by {
                    reveal(Parser::st);
                    assert(peek_at(ks, start) == co.peek());
                    assert(peek_at(ks, p.pos as int) == p.peek());
                }
            }
            parse_Expression(p);
            p.expect(SyntaxKind::Comma);
            proof {
                assert(call_ok(ks, start, p.st(), rank_Expression(peek_at(ks, p.st().pos)), rank_BuiltInCall(peek_at(ks, start)))) by {
                    reveal(Parser::st);
                    assert(peek_at(ks, start) == co.peek());
                    assert(peek_at(ks, p.pos as int) == p.peek());
                }
            }
            parse_Expression(p);
            p.expect(SyntaxKind::RParen);
            proof {
                assert(arm_BuiltInCall_48(ks, start, gm1, pre1) == (p.st(), false)) by {
                    reveal_with_fuel(arm_BuiltInCall_48, 1); reveal_with_fuel(rule_Expression, 1);
                }
            }
            proof {
                lemma_arm_BuiltInCall_48(ks, start, gm1, pre1);
            }
        },
        SyntaxKind::STRLANGDIR => {
            p.expect(SyntaxKind::STRLANGDIR);
            p.expect(SyntaxKind::LParen);
            proof {
                assert(call_ok(ks, start, p.st(), rank_Expression(peek_at(ks, p.st().pos)), rank_BuiltInCall(peek_at(ks, start)))) by {
                    reveal(Parser::st);
                    assert(peek_at(ks, start) == co.peek());
                    assert(peek_at(ks, p.pos as int) == p.peek());
                }
            }
            parse_Expression(p);
            p.expect(SyntaxKind::Comma);
            proof {
                assert(call_ok(ks, start, p.st(), rank_Expression(peek_at(ks, p.st().pos)), rank_BuiltInCall(peek_at(ks, start)))) by {
                    reveal(Parser::st);
                    assert(peek_at(ks, start) == co.peek());
                    assert(peek_at(ks, p.pos as int) == p.peek());
                }
            }
            parse_Expression(p);
            p.expect(SyntaxKind::Comma);
            proof {
                assert(call_ok(ks, start, p.st(), rank_Expression(peek_at(ks, p.st().pos)), rank_BuiltInCall(peek_at(ks, start)))) by {
                    reveal(Parser::st);
                    assert(peek_at(ks, start) == co.peek());
                    assert(peek_at(ks, p.pos as int) == p.peek());
                }
            }
            parse_Expression(p);
            p.expect(SyntaxKind::RParen);
            proof {
                assert(arm_BuiltInCall_49(ks, start, gm1, pre1) == (p.st(), false)) by {
                    reveal_with_fuel(arm_BuiltInCall_49, 1); reveal_with_fuel(rule_Expression, 1);
                }
            }
            proof {
                lemma_arm_BuiltInCall_49(ks, start, gm1, pre1);
            }
        },
        SyntaxKind::STRDT => {
            p.expect(SyntaxKind::STRDT);
            p.expect(SyntaxKind::LParen);
            proof {
                assert(call_ok(ks, start, p.st(), rank_Expression(peek_at(ks, p.st().pos)), rank_BuiltInCall(peek_at(ks, start)))) by {
                    reveal(Parser::st);
                    assert(peek_at(ks, start) == co.peek());
                    assert(peek_at(ks, p.pos as int) == p.peek());
                }
            }
            parse_Expression(p);
            p.expect(SyntaxKind::Comma);
            proof {
                assert(call_ok(ks, start, p.st(), rank_Expression(peek_at(ks, p.st().pos)), rank_BuiltInCall(peek_at(ks, start)))) by {
                    reveal(Parser::st);
                    assert(peek_at(ks, start) == co.peek());
                    assert(peek_at(ks, p.pos as int) == p.peek());
                }
            }
            parse_Expression(p);
            p.expect(SyntaxKind::RParen);
            proof {
                assert(arm_BuiltInCall_50(ks, start, gm1, pre1) == (p.st(), false)) by {
                    reveal_with_fuel(arm_BuiltInCall_50, 1); reveal_with_fuel(rule_Expression, 1);
                }
            }
            proof {
                lemma_arm_BuiltInCall_50(ks, start, gm1, pre1);
            }
        },
        _ => {
            proof {
                assert(false);
            }
        },
    }
    false
}


/// One group of the alternatives of [`parse_BuiltInCall`].
#[verifier::rlimit(100)]
#[verifier::spinoff_prover]
fn parse_BuiltInCall_part7(p: &mut Parser, marker: MarkOpened, Ghost(co): Ghost<Parser>, Ghost(gm1): Ghost<int>) -> (r: bool)
    requires
        old(p).wf(),
        co.wf(),
        old(p).tokens@ == co.tokens@,
        co.pos <= old(p).pos,
        marker.index == co.events@.len(),
        gm1 == marker.index as int,
        old(p).stack() == co.stack().push(marker.index as int),
        old(p).events@.len() > marker.index,
        old(p).peek() == SyntaxKind::sameTerm || old(p).peek() == SyntaxKind::isIRI || old(p).peek() == SyntaxKind::isURI || old(p).peek() == SyntaxKind::isBLANK || old(p).peek() == SyntaxKind::isLITERAL || old(p).peek() == SyntaxKind::isNUMERIC || old(p).peek() == SyntaxKind::hasLANG || old(p).peek() == SyntaxKind::hasLANGDIR,
    ensures
        final(p).wf(),
        final(p).tokens@ == old(p).tokens@,
        old(p).pos <= final(p).pos,
        !r ==> final(p).stack() == old(p).stack(),
        !r ==> final(p).pos > old(p).pos,
        match_BuiltInCall_1(co.kinds(), co.pos as int, gm1, old(p).st()) == (final(p).st(), r),
        r ==> (Parser::step(co, *final(p))),
        r ==> (final(p).pos == co.pos ==> is_sync_point(co.peek())),
        r ==> (co.events@.len() < final(p).events@.len()),
        r ==> (final(p).events@[co.events@.len() as int] == (Event::Open { kind: SyntaxKind::BuiltInCall })),
        r ==> (final(p).events@.last() is Close),
    decreases co.remaining(), rank_BuiltInCall(co.peek()), 0int,
{
    let ghost ks = p.kinds();
    let ghost start = co.pos as int;
    assert(ks == co.kinds());
    let ghost pre1 = p.st();
    match p.nth(0) {
        SyntaxKind::sameTerm => {
            p.expect(SyntaxKind::sameTerm);
            p.expect(SyntaxKind::LParen);
            proof {
                assert(call_ok(ks, start, p.st(), rank_Expression(peek_at(ks, p.st().pos)), rank_BuiltInCall(peek_at(ks, start)))) by {
                    reveal(Parser::st);
                    assert(peek_at(ks, start) == co.peek());
                    assert(peek_at(ks, p.pos as int) == p.peek());
                }
            }
            parse_Expression(p);
            p.expect(SyntaxKind::Comma);
            proof {
                assert(call_ok(ks, start, p.st(), rank_Expression(peek_at(ks, p.st().pos)), rank_BuiltInCall(peek_at(ks, start)))) by {
                    reveal(Parser::st);
                    assert(peek_at(ks, start) == co.peek());
                    assert(peek_at(ks, p.pos as int) == p.peek());
                }
            }
            parse_Expression(p);
            p.expect(SyntaxKind::RParen);
            proof {
                assert(arm_BuiltInCall_51(ks, start, gm1, pre1) == (p.st(), false)) by {
                    reveal_with_fuel(arm_BuiltInCall_51, 1); reveal_with_fuel(rule_Expression, 1);
                }
            }
            proof {
                lemma_arm_BuiltInCall_51(ks, start, gm1, pre1);
            }
        },
        SyntaxKind::isIRI => {
            p.expect(SyntaxKind::isIRI);
            p.expect(SyntaxKind::LParen);
            proof {
                assert(call_ok(ks, start, p.st(), rank_Expression(peek_at(ks, p.st().pos)), rank_BuiltInCall(peek_at(ks, start)))) by {
                    reveal(Parser::st);
                    assert(peek_at(ks, start) == co.peek());
                    assert(peek_at(ks, p.pos as int) == p.peek());
                }
            }
            parse_Expression(p);
            p.expect(SyntaxKind::RParen);
            proof {
                assert(arm_BuiltInCall_52(ks, start, gm1, pre1) == (p.st(), false)) by {
                    reveal_with_fuel(arm_BuiltInCall_52, 1); reveal_with_fuel(rule_Expression, 1);
                }
            }
            proof {
                lemma_arm_BuiltInCall_52(ks, start, gm1, pre1);
            }
        },
        SyntaxKind::isURI => {
            p.expect(SyntaxKind::isURI);
            p.expect(SyntaxKind::LParen);
            proof {
                assert(call_ok(ks, start, p.st(), rank_Expression(peek_at(ks, p.st().pos)), rank_BuiltInCall(peek_at(ks, start)))) by {
                    reveal(Parser::st);
                    assert(peek_at(ks, start) == co.peek());
                    assert(peek_at(ks, p.pos as int) == p.peek());
                }
            }
            parse_Expression(p);
            p.expect(SyntaxKind::RParen);
            proof {
                assert(arm_BuiltInCall_53(ks, start, gm1, pre1) == (p.st(), false)) by {
                    reveal_with_fuel(arm_BuiltInCall_53, 1); reveal_with_fuel(rule_Expression, 1);
                }
            }
            proof {
                lemma_arm_BuiltInCall_53(ks, start, gm1, pre1);
            }
        },
        SyntaxKind::isBLANK => {
            p.expect(SyntaxKind::isBLANK);
            p.expect(SyntaxKind::LParen);
            proof {
                assert(call_ok(ks, start, p.st(), rank_Expression(peek_at(ks, p.st().pos)), rank_BuiltInCall(peek_at(ks, start)))) by {
                    reveal(Parser::st);
                    assert(peek_at(ks, start) == co.peek());
                    assert(peek_at(ks, p.pos as int) == p.peek());
                }
            }
            parse_Expression(p);
            p.expect(SyntaxKind::RParen);
            proof {
                assert(arm_BuiltInCall_54(ks, start, gm1, pre1) == (p.st(), false)) by {
                    reveal_with_fuel(arm_BuiltInCall_54, 1); reveal_with_fuel(rule_Expression, 1);
                }
            }
            proof {
                lemma_arm_BuiltInCall_54(ks, start, gm1, pre1);
            }
        },
        SyntaxKind::isLITERAL => {
            p.expect(SyntaxKind::isLITERAL);
            p.expect(SyntaxKind::LParen);
            proof {
                assert(call_ok(ks, start, p.st(), rank_Expression(peek_at(ks, p.st().pos)), rank_BuiltInCall(peek_at(ks, start)))) by {
                    reveal(Parser::st);
                    assert(peek_at(ks, start) == co.peek());
                    assert(peek_at(ks, p.pos as int) == p.peek());
                }
            }
            parse_Expression(p);
            p.expect(SyntaxKind::RParen);
            proof {
                assert(arm_BuiltInCall_55(ks, start, gm1, pre1) == (p.st(), false)) by {
                    reveal_with_fuel(arm_BuiltInCall_55, 1); reveal_with_fuel(rule_Expression, 1);
                }
            }
            proof {
                lemma_arm_BuiltInCall_55(ks, start, gm1, pre1);
            }
        },
        SyntaxKind::isNUMERIC => {
            p.expect(SyntaxKind::isNUMERIC);
            p.expect(SyntaxKind::LParen);
            proof {
                assert(call_ok(ks, start, p.st(), rank_Expression(peek_at(ks, p.st().pos)), rank_BuiltInCall(peek_at(ks, start)))) by {
                    reveal(Parser::st);
                    assert(peek_at(ks, start) == co.peek());
                    assert(peek_at(ks, p.pos as int) == p.peek());
                }
            }
            parse_Expression(p);
            p.expect(SyntaxKind::RParen);
            proof {
                assert(arm_BuiltInCall_56(ks, start, gm1, pre1) == (p.st(), false)) by {
                    reveal_with_fuel(arm_BuiltInCall_56, 1); reveal_with_fuel(rule_Expression, 1);
                }
            }
            proof {
                lemma_arm_BuiltInCall_56(ks, start, gm1, pre1);
            }
        },
        SyntaxKind::hasLANG => {
            p.expect(SyntaxKind::hasLANG);
            p.expect(SyntaxKind::LParen);
            proof {
                assert(call_ok(ks, start, p.st(), rank_Expression(peek_at(ks, p.st().pos)), rank_BuiltInCall(peek_at(ks, start)))) by {
                    reveal(Parser::st);
                    assert(peek_at(ks, start) == co.peek());
                    assert(peek_at(ks, p.pos as int) == p.peek());
                }
            }
            parse_Expression(p);
            p.expect(SyntaxKind::RParen);
            proof {
                assert(arm_BuiltInCall_57(ks, start, gm1, pre1) == (p.st(), false)) by {
                    reveal_with_fuel(arm_BuiltInCall_57, 1); reveal_with_fuel(rule_Expression, 1);
                }
            }
            proof {
                lemma_arm_BuiltInCall_57(ks, start, gm1, pre1);
            }
        },
        SyntaxKind::hasLANGDIR => {
            p.expect(SyntaxKind::hasLANGDIR);
            p.expect(SyntaxKind::LParen);
            proof {
                assert(call_ok(ks, start, p.st(), rank_Expression(peek_at(ks, p.st().pos)), rank_BuiltInCall(peek_at(ks, start)))) by {
                    reveal(Parser::st);
                    assert(peek_at(ks, start) == co.peek());
                    assert(peek_at(ks, p.pos as int) == p.peek());
                }
            }
            parse_Expression(p);
            p.expect(SyntaxKind::RParen);
            proof {
                assert(arm_BuiltInCall_58(ks, start, gm1, pre1) == (p.st(), false)) by {
                    reveal_with_fuel(arm_BuiltInCall_58, 1); reveal_with_fuel(rule_Expression, 1);
                }
            }
            proof {
                lemma_arm_BuiltInCall_58(ks, start, gm1, pre1);
            }
        },
        _ => {
            proof {
                assert(false);
            }
        },
    }
    false
}


/// One group of the alternatives of [`parse_BuiltInCall`].
#[verifier::rlimit(100)]
#[verifier::spinoff_prover]
fn parse_BuiltInCall_part8(p: &mut Parser, marker: MarkOpened, Ghost(co): Ghost<Parser>, Ghost(gm1): Ghost<int>) -> (r: bool)
    requires
        old(p).wf(),
        co.wf(),
        old(p).tokens@ == co.tokens@,
        co.pos <= old(p).pos,
        marker.index == co.events@.len(),
        gm1 == marker.index as int,
        old(p).stack() == co.stack().push(marker.index as int),
        old(p).events@.len() > marker.index,
        old(p).peek() == SyntaxKind::REGEX || old(p).peek() == SyntaxKind::EXISTS || old(p).peek() == SyntaxKind::NOT || old(p).peek() == SyntaxKind::isTRIPLE || old(p).peek() == SyntaxKind::TRIPLE || old(p).peek() == SyntaxKind::SUBJECT || old(p).peek() == SyntaxKind::PREDICATE || old(p).peek() == SyntaxKind::OBJECT,
    ensures
        final(p).wf(),
        final(p).tokens@ == old(p).tokens@,
        old(p).pos <= final(p).pos,
        !r ==> final(p).stack() == old(p).stack(),
        !r ==> final(p).pos > old(p).pos,
        match_BuiltInCall_1(co.kinds(), co.pos as int, gm1, old(p).st()) == (final(p).st(), r),
        r ==> (Parser::step(co, *final(p))),
        r ==> (final(p).pos == co.pos ==> is_sync_point(co.peek())),
        r ==> (co.events@.len() < final(p).events@.len()),
        r ==> (final(p).events@[co.events@.len() as int] == (Event::Open { kind: SyntaxKind::BuiltInCall })),
        r ==> (final(p).events@.last() is Close),
    decreases co.remaining(), rank_BuiltInCall(co.peek()), 0int,
{
    let ghost ks = p.kinds();
    let ghost start = co.pos as int;
    assert(ks == co.kinds());
    let ghost pre1 = p.st();
    match p.nth(0) {
        SyntaxKind::REGEX => {
            proof {
                assert(call_ok(ks, start, p.st(), rank_RegexExpression(peek_at(ks, p.st().pos)), rank_BuiltInCall(peek_at(ks, start)))) by {
                    reveal(Parser::st);
                    assert(peek_at(ks, start) == co.peek());
                    assert(peek_at(ks, p.pos as int) == p.peek());
                }
            }
            parse_RegexExpression(p);
            proof {
                assert(arm_BuiltInCall_59(ks, start, gm1, pre1) == (p.st(), false)) by {
                    reveal_with_fuel(arm_BuiltInCall_59, 1); reveal_with_fuel(rule_RegexExpression, 1);
                }
            }
            proof {
                lemma_arm_BuiltInCall_59(ks, start, gm1, pre1);
            }
        },
        SyntaxKind::EXISTS => {
            proof {
                assert(call_ok(ks, start, p.st(), rank_ExistsFunc(peek_at(ks, p.st().pos)), rank_BuiltInCall(peek_at(ks, start)))) by {
                    reveal(Parser::st);
                    assert(peek_at(ks, start) == co.peek());
                    assert(peek_at(ks, p.pos as int) == p.peek());
                }
            }
            parse_ExistsFunc(p);
            proof {
                assert(arm_BuiltInCall_60(ks, start, gm1, pre1) == (p.st(), false)) by {
                    reveal_with_fuel(arm_BuiltInCall_60, 1); reveal_with_fuel(rule_ExistsFunc, 1);
                }
            }
            proof {
                lemma_arm_BuiltInCall_60(ks, start, gm1, pre1);
            }
        },
        SyntaxKind::NOT => {
            proof {
                assert(call_ok(ks, start, p.st(), rank_NotExistsFunc(peek_at(ks, p.st().pos)), rank_BuiltInCall(peek_at(ks, start)))) by {
                    reveal(Parser::st);
                    assert(peek_at(ks, start) == co.peek());
                    assert(peek_at(ks, p.pos as int) == p.peek());
                }
            }
            parse_NotExistsFunc(p);
            proof {
                assert(arm_BuiltInCall_61(ks, start, gm1, pre1) == (p.st(), false)) by {
                    reveal_with_fuel(arm_BuiltInCall_61, 1); reveal_with_fuel(rule_NotExistsFunc, 1);
                }
            }
            proof {
                lemma_arm_BuiltInCall_61(ks, start, gm1, pre1);
            }
        },
        SyntaxKind::isTRIPLE => {
            p.expect(SyntaxKind::isTRIPLE);
            p.expect(SyntaxKind::LParen);
            proof {
                assert(call_ok(ks, start, p.st(), rank_Expression(peek_at(ks, p.st().pos)), rank_BuiltInCall(peek_at(ks, start)))) by {
                    reveal(Parser::st);
                    assert(peek_at(ks, start) == co.peek());
                    assert(peek_at(ks, p.pos as int) == p.peek());
                }
            }
            parse_Expression(p);
            p.expect(SyntaxKind::RParen);
            proof {
                assert(arm_BuiltInCall_62(ks, start, gm1, pre1) == (p.st(), false)) by {
                    reveal_with_fuel(arm_BuiltInCall_62, 1); reveal_with_fuel(rule_Expression, 1);
                }
            }
            proof {
                lemma_arm_BuiltInCall_62(ks, start, gm1, pre1);
            }
        },
        SyntaxKind::TRIPLE => {
            p.expect(SyntaxKind::TRIPLE);
            p.expect(SyntaxKind::LParen);
            proof {
                assert(call_ok(ks, start, p.st(), rank_Expression(peek_at(ks, p.st().pos)), rank_BuiltInCall(peek_at(ks, start)))) by {
                    reveal(Parser::st);
                    assert(peek_at(ks, start) == co.peek());
                    assert(peek_at(ks, p.pos as int) == p.peek());
                }
            }
            parse_Expression(p);
            p.expect(SyntaxKind::Comma);
            proof {
                assert(call_ok(ks, start, p.st(), rank_Expression(peek_at(ks, p.st().pos)), rank_BuiltInCall(peek_at(ks, start)))) by {
                    reveal(Parser::st);
                    assert(peek_at(ks, start) == co.peek());
                    assert(peek_at(ks, p.pos as int) == p.peek());
                }
            }
            parse_Expression(p);
            p.expect(SyntaxKind::Comma);
            proof {
                assert(call_ok(ks, start, p.st(), rank_Expression(peek_at(ks, p.st().pos)), rank_BuiltInCall(peek_at(ks, start)))) by {
                    reveal(Parser::st);
                    assert(peek_at(ks, start) == co.peek());
                    assert(peek_at(ks, p.pos as int) == p.peek());
                }
            }
            parse_Expression(p);
            p.expect(SyntaxKind::RParen);
            proof {
                assert(arm_BuiltInCall_63(ks, start, gm1, pre1) == (p.st(), false)) by {
                    reveal_with_fuel(arm_BuiltInCall_63, 1); reveal_with_fuel(rule_Expression, 1);
                }
            }
            proof {
                lemma_arm_BuiltInCall_63(ks, start, gm1, pre1);
            }
        },
        SyntaxKind::SUBJECT => {
            p.expect(SyntaxKind::SUBJECT);
            p.expect(SyntaxKind::LParen);
            proof {
                assert(call_ok(ks, start, p.st(), rank_Expression(peek_at(ks, p.st().pos)), rank_BuiltInCall(peek_at(ks, start)))) by {
                    reveal(Parser::st);
                    assert(peek_at(ks, start) == co.peek());
                    assert(peek_at(ks, p.pos as int) == p.peek());
                }
            }
            parse_Expression(p);
            p.expect(SyntaxKind::RParen);
            proof {
                assert(arm_BuiltInCall_64(ks, start, gm1, pre1) == (p.st(), false)) by {
                    reveal_with_fuel(arm_BuiltInCall_64, 1); reveal_with_fuel(rule_Expression, 1);
                }
            }
            proof {
                lemma_arm_BuiltInCall_64(ks, start, gm1, pre1);
            }
        },
        SyntaxKind::PREDICATE => {
            p.expect(SyntaxKind::PREDICATE);
            p.expect(SyntaxKind::LParen);
            proof {
                assert(call_ok(ks, start, p.st(), rank_Expression(peek_at(ks, p.st().pos)), rank_BuiltInCall(peek_at(ks, start)))) by {
                    reveal(Parser::st);
                    assert(peek_at(ks, start) == co.peek());
                    assert(peek_at(ks, p.pos as int) == p.peek());
                }
            }
            parse_Expression(p);
            p.expect(SyntaxKind::RParen);
            proof {
                assert(arm_BuiltInCall_65(ks, start, gm1, pre1) == (p.st(), false)) by {
                    reveal_with_fuel(arm_BuiltInCall_65, 1); reveal_with_fuel(rule_Expression, 1);
                }
            }
            proof {
                lemma_arm_BuiltInCall_65(ks, start, gm1, pre1);
            }
        },
        SyntaxKind::OBJECT => {
            p.expect(SyntaxKind::OBJECT);
            p.expect(SyntaxKind::LParen);
            proof {
                assert(call_ok(ks, start, p.st(), rank_Expression(peek_at(ks, p.st().pos)), rank_BuiltInCall(peek_at(ks, start)))) by {
                    reveal(Parser::st);
                    assert(peek_at(ks, start) == co.peek());
                    assert(peek_at(ks, p.pos as int) == p.peek());
                }
            }
            parse_Expression(p);
            p.expect(SyntaxKind::RParen);
            proof {
                assert(arm_BuiltInCall_66(ks, start, gm1, pre1) == (p.st(), false)) by {
                    reveal_with_fuel(arm_BuiltInCall_66, 1); reveal_with_fuel(rule_Expression, 1);
                }
            }
            proof {
                lemma_arm_BuiltInCall_66(ks, start, gm1, pre1);
            }
        },
        _ => {
            proof {
                assert(false);
            }
        },
    }
    false
}


pub open spec fn rank_FunctionCall(t: SyntaxKind) -> nat {
    match t {
        SyntaxKind::PNAME_LN | SyntaxKind::PNAME_NS => 2,
        _ => 1,
    }
}

/// What [`parse_FunctionCall`] makes of the parser state.
#[verifier::opaque]
pub open spec fn rule_FunctionCall(ts: Seq<SyntaxKind>, s: St) -> St
    decreases ts.len() - s.pos, rank_FunctionCall(peek_at(ts, s.pos)), 32 * (ts.len() - s.pos) + 32,
{
    let start = s.pos;
    let s_in = s;
    let m_marker = s.evs.len() as int;
    let s = st_open(s);
    let s = rule_iri(ts, s);
    let s = if call_ok(ts, start, s, rank_ArgList(peek_at(ts, s.pos)), rank_FunctionCall(peek_at(ts, start))) {
        rule_ArgList(ts, s)
    } else {
        s
    };
    let s = st_close(s, m_marker, SyntaxKind::FunctionCall);
    s
}


/// [35] FunctionCall -> iri ArgList
pub(crate) fn parse_FunctionCall(p: &mut Parser)
    requires
        old(p).wf(),
    ensures
        Parser::step(*old(p), *final(p)),
        final(p).pos == old(p).pos ==> is_sync_point(old(p).peek()),
        old(p).events@.len() < final(p).events@.len(),
        final(p).events@[old(p).events@.len() as int] == (Event::Open { kind: SyntaxKind::FunctionCall }),
        final(p).events@.last() is Close,
        final(p).st() == rule_FunctionCall(old(p).kinds(), old(p).st()),
    decreases old(p).remaining(), rank_FunctionCall(old(p).peek()), 1int,
{
    let ghost ks = p.kinds();
    let ghost s0 = p.st();
    let ghost start = p.pos as int;
    let marker = p.open();
    let ghost gm1 = marker.index as int;
    parse_iri(p);
    proof {
        assert(call_ok(ks, start, p.st(), rank_ArgList(peek_at(ks, p.st().pos)), rank_FunctionCall(peek_at(ks, start)))) by {
            reveal(Parser::st);
            assert(peek_at(ks, start) == old(p).peek());
            assert(peek_at(ks, p.pos as int) == p.peek());
        }
    }
    parse_ArgList(p);
    p.close(marker, SyntaxKind::FunctionCall);
    proof {
        assert(rule_FunctionCall(ks, s0) == p.st()) by {
            reveal_with_fuel(rule_FunctionCall, 1); reveal_with_fuel(rule_ArgList, 1);
        }
    }
}

pub open spec fn rank_HavingCondition(t: SyntaxKind) -> nat {
    match t {
        SyntaxKind::ABS | SyntaxKind::BNODE | SyntaxKind::BOUND | SyntaxKind::CEIL | SyntaxKind::COALESCE | SyntaxKind::CONCAT | SyntaxKind::CONTAINS | SyntaxKind::DATATYPE | SyntaxKind::DAY | SyntaxKind::ENCODE_FOR_URI | SyntaxKind::FLOOR | SyntaxKind::HOURS | SyntaxKind::IF | SyntaxKind::IRI | SyntaxKind::LANG | SyntaxKind::LANGDIR | SyntaxKind::LANGMATCHES | SyntaxKind::LCASE | SyntaxKind::LParen | SyntaxKind::MD5 | SyntaxKind::MINUTES | SyntaxKind::MONTH | SyntaxKind::NOW | SyntaxKind::OBJECT | SyntaxKind::PREDICATE | SyntaxKind::RAND | SyntaxKind::ROUND | SyntaxKind::SECONDS | SyntaxKind::SHA1 | SyntaxKind::SHA256 | SyntaxKind::SHA384 | SyntaxKind::SHA512 | SyntaxKind::STR | SyntaxKind::STRAFTER | SyntaxKind::STRBEFORE | SyntaxKind::STRDT | SyntaxKind::STRENDS | SyntaxKind::STRLANG | SyntaxKind::STRLANGDIR | SyntaxKind::STRLEN | SyntaxKind::STRSTARTS | SyntaxKind::STRUUID | SyntaxKind::SUBJECT | SyntaxKind::TIMEZONE | SyntaxKind::TRIPLE | SyntaxKind::TZ | SyntaxKind::UCASE | SyntaxKind::URI | SyntaxKind::UUID | SyntaxKind::YEAR | SyntaxKind::hasLANG | SyntaxKind::hasLANGDIR | SyntaxKind::isBLANK | SyntaxKind::isIRI | SyntaxKind::isLITERAL | SyntaxKind::isNUMERIC | SyntaxKind::isTRIPLE | SyntaxKind::isURI | SyntaxKind::sameTerm => 2,
        SyntaxKind::AVG | SyntaxKind::COUNT | SyntaxKind::EXISTS | SyntaxKind::GROUP_CONCAT | SyntaxKind::IRIREF | SyntaxKind::MAX | SyntaxKind::MIN | SyntaxKind::NOT | SyntaxKind::REGEX | SyntaxKind::REPLACE | SyntaxKind::SAMPLE | SyntaxKind::SUBSTR | SyntaxKind::SUM => 3,
        SyntaxKind::PNAME_LN | SyntaxKind::PNAME_NS => 4,
        _ => 1,
    }
}

/// What [`parse_HavingCondition`] makes of the parser state.
#[verifier::opaque]
pub open spec fn rule_HavingCondition(ts: Seq<SyntaxKind>, s: St) -> St
    decreases ts.len() - s.pos, rank_HavingCondition(peek_at(ts, s.pos)), 32 * (ts.len() - s.pos) + 32,
{
    let start = s.pos;
    let s_in = s;
    let m_marker = s.evs.len() as int;
    let s = st_open(s);
    let s = if call_ok(ts, start, s, rank_Constraint(peek_at(ts, s.pos)), rank_HavingCondition(peek_at(ts, start))) {
        rule_Constraint(ts, s)
    } else {
        s
    };
    let s = st_close(s, m_marker, SyntaxKind::HavingCondition);
    s
}


/// [36] HavingCondition -> Constraint
pub(crate) fn parse_HavingCondition(p: &mut Parser)
    requires
        old(p).wf(),
    ensures
        Parser::step(*old(p), *final(p)),
        final(p).pos == old(p).pos ==> is_sync_point(old(p).peek()),
        old(p).events@.len() < final(p).events@.len(),
        final(p).events@[old(p).events@.len() as int] == (Event::Open { kind: SyntaxKind::HavingCondition }),
        final(p).events@.last() is Close,
        final(p).st() == rule_HavingCondition(old(p).kinds(), old(p).st()),
    decreases old(p).remaining(), rank_HavingCondition(old(p).peek()), 1int,
{
    let ghost ks = p.kinds();
    let ghost s0 = p.st();
    let ghost start = p.pos as int;
    let marker = p.open();
    let ghost gm1 = marker.index as int;
    proof {
        assert(call_ok(ks, start, p.st(), rank_Constraint(peek_at(ks, p.st().pos)), rank_HavingCondition(peek_at(ks, start)))) by {
            reveal(Parser::st);
            assert(peek_at(ks, start) == old(p).peek());
            assert(peek_at(ks, p.pos as int) == p.peek());
        }
    }
    parse_Constraint(p);
    p.close(marker, SyntaxKind::HavingCondition);
    proof {
        assert(rule_HavingCondition(ks, s0) == p.st()) by {
            reveal_with_fuel(rule_HavingCondition, 1); reveal_with_fuel(rule_Constraint, 1);
        }
    }
}

pub open spec fn rank_Constraint(t: SyntaxKind) -> nat {
    match t {
        SyntaxKind::ABS | SyntaxKind::BNODE | SyntaxKind::BOUND | SyntaxKind::CEIL | SyntaxKind::COALESCE | SyntaxKind::CONCAT | SyntaxKind::CONTAINS | SyntaxKind::DATATYPE | SyntaxKind::DAY | SyntaxKind::ENCODE_FOR_URI | SyntaxKind::FLOOR | SyntaxKind::HOURS | SyntaxKind::IF | SyntaxKind::IRI | SyntaxKind::LANG | SyntaxKind::LANGDIR | SyntaxKind::LANGMATCHES | SyntaxKind::LCASE | SyntaxKind::LParen | SyntaxKind::MD5 | SyntaxKind::MINUTES | SyntaxKind::MONTH | SyntaxKind::NOW | SyntaxKind::OBJECT | SyntaxKind::PREDICATE | SyntaxKind::RAND | SyntaxKind::ROUND | SyntaxKind::SECONDS | SyntaxKind::SHA1 | SyntaxKind::SHA256 | SyntaxKind::SHA384 | SyntaxKind::SHA512 | SyntaxKind::STR | SyntaxKind::STRAFTER | SyntaxKind::STRBEFORE | SyntaxKind::STRDT | SyntaxKind::STRENDS | SyntaxKind::STRLANG | SyntaxKind::STRLANGDIR | SyntaxKind::STRLEN | SyntaxKind::STRSTARTS | SyntaxKind::STRUUID | SyntaxKind::SUBJECT | SyntaxKind::TIMEZONE | SyntaxKind::TRIPLE | SyntaxKind::TZ | SyntaxKind::UCASE | SyntaxKind::URI | SyntaxKind::UUID | SyntaxKind::YEAR | SyntaxKind::hasLANG | SyntaxKind::hasLANGDIR | SyntaxKind::isBLANK | SyntaxKind::isIRI | SyntaxKind::isLITERAL | SyntaxKind::isNUMERIC | SyntaxKind::isTRIPLE | SyntaxKind::isURI | SyntaxKind::sameTerm => 1,
        SyntaxKind::AVG | SyntaxKind::COUNT | SyntaxKind::EXISTS | SyntaxKind::GROUP_CONCAT | SyntaxKind::IRIREF | SyntaxKind::MAX | SyntaxKind::MIN | SyntaxKind::NOT | SyntaxKind::REGEX | SyntaxKind::REPLACE | SyntaxKind::SAMPLE | SyntaxKind::SUBSTR | SyntaxKind::SUM => 2,
        SyntaxKind::PNAME_LN | SyntaxKind::PNAME_NS => 3,
        _ => 0,
    }
}

/// What [`parse_Constraint`] makes of the parser state.
#[verifier::opaque]
pub open spec fn rule_Constraint(ts: Seq<SyntaxKind>, s: St) -> St
    decreases ts.len() - s.pos, rank_Constraint(peek_at(ts, s.pos)), 32 * (ts.len() - s.pos) + 32,
{
    let start = s.pos;
    let s_in = s;
    let m_marker = s.evs.len() as int;
    let s = st_open(s);
    let (s, r) = if s_in.pos <= s.pos <= ts.len() {
        match_Constraint_1(ts, start, m_marker, s)
    } else {
        (s, false)
    };
    if r {
        s
    } else {
        let s = st_close(s, m_marker, SyntaxKind::Constraint);
        s
    }
}

#[verifier::opaque]
pub open spec fn match_Constraint_1(ts: Seq<SyntaxKind>, start: int, m_marker: int, s: St) -> (St, bool)
    decreases ts.len() - start, rank_Constraint(peek_at(ts, start)), 32 * (ts.len() - s.pos) + 32 - 1,
{
    let s_in = s;
    if (peek_at(ts, s.pos) == SyntaxKind::LParen) {
        let s = if call_ok(ts, start, s, rank_BrackettedExpression(peek_at(ts, s.pos)), rank_Constraint(peek_at(ts, start))) {
            rule_BrackettedExpression(ts, s)
        } else {
            s
        };
        (s, false)
    } else if (peek_at(ts, s.pos) == SyntaxKind::NOT || peek_at(ts, s.pos) == SyntaxKind::STR || peek_at(ts, s.pos) == SyntaxKind::LANG || peek_at(ts, s.pos) == SyntaxKind::LANGMATCHES || peek_at(ts, s.pos) == SyntaxKind::LANGDIR || peek_at(ts, s.pos) == SyntaxKind::DATATYPE || peek_at(ts, s.pos) == SyntaxKind::BOUND || peek_at(ts, s.pos) == SyntaxKind::IRI || peek_at(ts, s.pos) == SyntaxKind::URI || peek_at(ts, s.pos) == SyntaxKind::BNODE || peek_at(ts, s.pos) == SyntaxKind::RAND || peek_at(ts, s.pos) == SyntaxKind::ABS || peek_at(ts, s.pos) == SyntaxKind::CEIL || peek_at(ts, s.pos) == SyntaxKind::FLOOR || peek_at(ts, s.pos) == SyntaxKind::ROUND || peek_at(ts, s.pos) == SyntaxKind::CONCAT || peek_at(ts, s.pos) == SyntaxKind::STRLEN || peek_at(ts, s.pos) == SyntaxKind::UCASE || peek_at(ts, s.pos) == SyntaxKind::LCASE || peek_at(ts, s.pos) == SyntaxKind::ENCODE_FOR_URI || peek_at(ts, s.pos) == SyntaxKind::CONTAINS || peek_at(ts, s.pos) == SyntaxKind::STRSTARTS || peek_at(ts, s.pos) == SyntaxKind::STRENDS || peek_at(ts, s.pos) == SyntaxKind::STRBEFORE || peek_at(ts, s.pos) == SyntaxKind::STRAFTER || peek_at(ts, s.pos) == SyntaxKind::YEAR || peek_at(ts, s.pos) == SyntaxKind::MONTH || peek_at(ts, s.pos) == SyntaxKind::DAY || peek_at(ts, s.pos) == SyntaxKind::HOURS || peek_at(ts, s.pos) == SyntaxKind::MINUTES || peek_at(ts, s.pos) == SyntaxKind::SECONDS || peek_at(ts, s.pos) == SyntaxKind::TIMEZONE || peek_at(ts, s.pos) == SyntaxKind::TZ || peek_at(ts, s.pos) == SyntaxKind::NOW || peek_at(ts, s.pos) == SyntaxKind::UUID || peek_at(ts, s.pos) == SyntaxKind::STRUUID || peek_at(ts, s.pos) == SyntaxKind::MD5 || peek_at(ts, s.pos) == SyntaxKind::SHA1 || peek_at(ts, s.pos) == SyntaxKind::SHA256 || peek_at(ts, s.pos) == SyntaxKind::SHA384 || peek_at(ts, s.pos) == SyntaxKind::SHA512 || peek_at(ts, s.pos) == SyntaxKind::COALESCE || peek_at(ts, s.pos) == SyntaxKind::IF || peek_at(ts, s.pos) == SyntaxKind::STRLANG || peek_at(ts, s.pos) == SyntaxKind::STRLANGDIR || peek_at(ts, s.pos) == SyntaxKind::STRDT || peek_at(ts, s.pos) == SyntaxKind::sameTerm || peek_at(ts, s.pos) == SyntaxKind::isIRI || peek_at(ts, s.pos) == SyntaxKind::isURI || peek_at(ts, s.pos) == SyntaxKind::isBLANK || peek_at(ts, s.pos) == SyntaxKind::isLITERAL || peek_at(ts, s.pos) == SyntaxKind::isNUMERIC || peek_at(ts, s.pos) == SyntaxKind::hasLANG || peek_at(ts, s.pos) == SyntaxKind::hasLANGDIR || peek_at(ts, s.pos) == SyntaxKind::isTRIPLE || peek_at(ts, s.pos) == SyntaxKind::TRIPLE || peek_at(ts, s.pos) == SyntaxKind::SUBJECT || peek_at(ts, s.pos) == SyntaxKind::PREDICATE || peek_at(ts, s.pos) == SyntaxKind::OBJECT || peek_at(ts, s.pos) == SyntaxKind::REGEX || peek_at(ts, s.pos) == SyntaxKind::SUBSTR || peek_at(ts, s.pos) == SyntaxKind::REPLACE || peek_at(ts, s.pos) == SyntaxKind::EXISTS || peek_at(ts, s.pos) == SyntaxKind::COUNT || peek_at(ts, s.pos) == SyntaxKind::SUM || peek_at(ts, s.pos) == SyntaxKind::MIN || peek_at(ts, s.pos) == SyntaxKind::MAX || peek_at(ts, s.pos) == SyntaxKind::AVG || peek_at(ts, s.pos) == SyntaxKind::SAMPLE || peek_at(ts, s.pos) == SyntaxKind::GROUP_CONCAT) {
        let s = if call_ok(ts, start, s, rank_BuiltInCall(peek_at(ts, s.pos)), rank_Constraint(peek_at(ts, start))) {
            rule_BuiltInCall(ts, s)
        } else {
            s
        };
        (s, false)
    } else if (peek_at(ts, s.pos) == SyntaxKind::IRIREF || peek_at(ts, s.pos) == SyntaxKind::PNAME_NS || peek_at(ts, s.pos) == SyntaxKind::PNAME_LN) {
        let s = if call_ok(ts, start, s, rank_FunctionCall(peek_at(ts, s.pos)), rank_Constraint(peek_at(ts, start))) {
            rule_FunctionCall(ts, s)
        } else {
            s
        };
        (s, false)
    } else if (peek_at(ts, s.pos) == SyntaxKind::Eof) {
        let s = st_close(s, m_marker, SyntaxKind::Constraint);
        let m_marker = s.evs.len() as int;
        let s = st_open(s);
        let s = st_close(s, m_marker, SyntaxKind::Error);
        (s, true)
    } else {
        let s = st_advance_with_error(ts, s, seq![SyntaxKind::LParen, SyntaxKind::NOT, SyntaxKind::STR, SyntaxKind::LANG, SyntaxKind::LANGMATCHES, SyntaxKind::LANGDIR, SyntaxKind::DATATYPE, SyntaxKind::BOUND, SyntaxKind::IRI, SyntaxKind::URI, SyntaxKind::BNODE, SyntaxKind::RAND, SyntaxKind::ABS, SyntaxKind::CEIL, SyntaxKind::FLOOR, SyntaxKind::ROUND, SyntaxKind::CONCAT, SyntaxKind::STRLEN, SyntaxKind::UCASE, SyntaxKind::LCASE, SyntaxKind::ENCODE_FOR_URI, SyntaxKind::CONTAINS, SyntaxKind::STRSTARTS, SyntaxKind::STRENDS, SyntaxKind::STRBEFORE, SyntaxKind::STRAFTER, SyntaxKind::YEAR, SyntaxKind::MONTH, SyntaxKind::DAY, SyntaxKind::HOURS, SyntaxKind::MINUTES, SyntaxKind::SECONDS, SyntaxKind::TIMEZONE, SyntaxKind::TZ, SyntaxKind::NOW, SyntaxKind::UUID, SyntaxKind::STRUUID, SyntaxKind::MD5, SyntaxKind::SHA1, SyntaxKind::SHA256, SyntaxKind::SHA384, SyntaxKind::SHA512, SyntaxKind::COALESCE, SyntaxKind::IF, SyntaxKind::STRLANG, SyntaxKind::STRLANGDIR, SyntaxKind::STRDT, SyntaxKind::sameTerm, SyntaxKind::isIRI, SyntaxKind::isURI, SyntaxKind::isBLANK, SyntaxKind::isLITERAL, SyntaxKind::isNUMERIC, SyntaxKind::hasLANG, SyntaxKind::hasLANGDIR, SyntaxKind::isTRIPLE, SyntaxKind::TRIPLE, SyntaxKind::SUBJECT, SyntaxKind::PREDICATE, SyntaxKind::OBJECT, SyntaxKind::REGEX, SyntaxKind::SUBSTR, SyntaxKind::REPLACE, SyntaxKind::EXISTS, SyntaxKind::COUNT, SyntaxKind::SUM, SyntaxKind::MIN, SyntaxKind::MAX, SyntaxKind::AVG, SyntaxKind::SAMPLE, SyntaxKind::GROUP_CONCAT, SyntaxKind::IRIREF, SyntaxKind::PNAME_NS, SyntaxKind::PNAME_LN]);
        (s, false)
    }
}

/// [37] Constraint -> BrackettedExpression | BuiltInCall | FunctionCall
pub(crate) fn parse_Constraint(p: &mut Parser)
    requires
        old(p).wf(),
    ensures
        Parser::step(*old(p), *final(p)),
        final(p).pos == old(p).pos ==> is_sync_point(old(p).peek()),
        old(p).events@.len() < final(p).events@.len(),
        final(p).events@[old(p).events@.len() as int] == (Event::Open { kind: SyntaxKind::Constraint }),
        final(p).events@.last() is Close,
        final(p).st() == rule_Constraint(old(p).kinds(), old(p).st()),
    decreases old(p).remaining(), rank_Constraint(old(p).peek()), 1int,
{
    let ghost ks = p.kinds();
    let ghost s0 = p.st();
    let ghost start = p.pos as int;
    let marker = p.open();
    let ghost gm1 = marker.index as int;
    let ghost pre1 = p.st();
    match p.nth(0) {
        SyntaxKind::LParen => {
            proof {
                assert(call_ok(ks, start, p.st(), rank_BrackettedExpression(peek_at(ks, p.st().pos)), rank_Constraint(peek_at(ks, start)))) by {
                    reveal(Parser::st);
                    assert(peek_at(ks, start) == old(p).peek());
                    assert(peek_at(ks, p.pos as int) == p.peek());
                }
            }
            parse_BrackettedExpression(p);
            proof {
                assert(match_Constraint_1(ks, start, gm1, pre1) == (p.st(), false)) by {
                    reveal_with_fuel(match_Constraint_1, 1); reveal_with_fuel(rule_BrackettedExpression, 1);
                }
            }
        },
        SyntaxKind::NOT | SyntaxKind::STR | SyntaxKind::LANG | SyntaxKind::LANGMATCHES | SyntaxKind::LANGDIR | SyntaxKind::DATATYPE | SyntaxKind::BOUND | SyntaxKind::IRI | SyntaxKind::URI | SyntaxKind::BNODE | SyntaxKind::RAND | SyntaxKind::ABS | SyntaxKind::CEIL | SyntaxKind::FLOOR | SyntaxKind::ROUND | SyntaxKind::CONCAT | SyntaxKind::STRLEN | SyntaxKind::UCASE | SyntaxKind::LCASE | SyntaxKind::ENCODE_FOR_URI | SyntaxKind::CONTAINS | SyntaxKind::STRSTARTS | SyntaxKind::STRENDS | SyntaxKind::STRBEFORE | SyntaxKind::STRAFTER | SyntaxKind::YEAR | SyntaxKind::MONTH | SyntaxKind::DAY | SyntaxKind::HOURS | SyntaxKind::MINUTES | SyntaxKind::SECONDS | SyntaxKind::TIMEZONE | SyntaxKind::TZ | SyntaxKind::NOW | SyntaxKind::UUID | SyntaxKind::STRUUID | SyntaxKind::MD5 | SyntaxKind::SHA1 | SyntaxKind::SHA256 | SyntaxKind::SHA384 | SyntaxKind::SHA512 | SyntaxKind::COALESCE | SyntaxKind::IF | SyntaxKind::STRLANG | SyntaxKind::STRLANGDIR | SyntaxKind::STRDT | SyntaxKind::sameTerm | SyntaxKind::isIRI | SyntaxKind::isURI | SyntaxKind::isBLANK | SyntaxKind::isLITERAL | SyntaxKind::isNUMERIC | SyntaxKind::hasLANG | SyntaxKind::hasLANGDIR | SyntaxKind::isTRIPLE | SyntaxKind::TRIPLE | SyntaxKind::SUBJECT | SyntaxKind::PREDICATE | SyntaxKind::OBJECT | SyntaxKind::REGEX | SyntaxKind::SUBSTR | SyntaxKind::REPLACE | SyntaxKind::EXISTS | SyntaxKind::COUNT | SyntaxKind::SUM | SyntaxKind::MIN | SyntaxKind::MAX | SyntaxKind::AVG | SyntaxKind::SAMPLE | SyntaxKind::GROUP_CONCAT => {
            proof {
                assert(call_ok(ks, start, p.st(), rank_BuiltInCall(peek_at(ks, p.st().pos)), rank_Constraint(peek_at(ks, start)))) by {
                    reveal(Parser::st);
                    assert(peek_at(ks, start) == old(p).peek());
                    assert(peek_at(ks, p.pos as int) == p.peek());
                }
            }
            parse_BuiltInCall(p);
            proof {
                assert(match_Constraint_1(ks, start, gm1, pre1) == (p.st(), false)) by {
                    reveal_with_fuel(match_Constraint_1, 1); reveal_with_fuel(rule_BuiltInCall, 1);
                }
            }
        },
        SyntaxKind::IRIREF | SyntaxKind::PNAME_NS | SyntaxKind::PNAME_LN => {
            proof {
                assert(call_ok(ks, start, p.st(), rank_FunctionCall(peek_at(ks, p.st().pos)), rank_Constraint(peek_at(ks, start)))) by {
                    reveal(Parser::st);
                    assert(peek_at(ks, start) == old(p).peek());
                    assert(peek_at(ks, p.pos as int) == p.peek());
                }
            }
            parse_FunctionCall(p);
            proof {
                assert(match_Constraint_1(ks, start, gm1, pre1) == (p.st(), false)) by {
                    reveal_with_fuel(match_Constraint_1, 1); reveal_with_fuel(rule_FunctionCall, 1);
                }
            }
        },
        SyntaxKind::Eof => {
            p.close(marker, SyntaxKind::Constraint);
            let marker = p.open();
            let ghost gm2 = marker.index as int;
            p.close(marker, SyntaxKind::Error);
            proof {
                assert(match_Constraint_1(ks, start, gm1, pre1) == (p.st(), true)) by {
                    reveal_with_fuel(match_Constraint_1, 1);
                }
            }
            proof {
                assert(rule_Constraint(ks, s0) == p.st()) by {
                    reveal_with_fuel(rule_Constraint, 1); reveal_with_fuel(match_Constraint_1, 1);
                }
            }
            return ;
        },
        _ => {
            p.advance_with_error(vec![SyntaxKind::LParen, SyntaxKind::NOT, SyntaxKind::STR, SyntaxKind::LANG, SyntaxKind::LANGMATCHES, SyntaxKind::LANGDIR, SyntaxKind::DATATYPE, SyntaxKind::BOUND, SyntaxKind::IRI, SyntaxKind::URI, SyntaxKind::BNODE, SyntaxKind::RAND, SyntaxKind::ABS, SyntaxKind::CEIL, SyntaxKind::FLOOR, SyntaxKind::ROUND, SyntaxKind::CONCAT, SyntaxKind::STRLEN, SyntaxKind::UCASE, SyntaxKind::LCASE, SyntaxKind::ENCODE_FOR_URI, SyntaxKind::CONTAINS, SyntaxKind::STRSTARTS, SyntaxKind::STRENDS, SyntaxKind::STRBEFORE, SyntaxKind::STRAFTER, SyntaxKind::YEAR, SyntaxKind::MONTH, SyntaxKind::DAY, SyntaxKind::HOURS, SyntaxKind::MINUTES, SyntaxKind::SECONDS, SyntaxKind::TIMEZONE, SyntaxKind::TZ, SyntaxKind::NOW, SyntaxKind::UUID, SyntaxKind::STRUUID, SyntaxKind::MD5, SyntaxKind::SHA1, SyntaxKind::SHA256, SyntaxKind::SHA384, SyntaxKind::SHA512, SyntaxKind::COALESCE, SyntaxKind::IF, SyntaxKind::STRLANG, SyntaxKind::STRLANGDIR, SyntaxKind::STRDT, SyntaxKind::sameTerm, SyntaxKind::isIRI, SyntaxKind::isURI, SyntaxKind::isBLANK, SyntaxKind::isLITERAL, SyntaxKind::isNUMERIC, SyntaxKind::hasLANG, SyntaxKind::hasLANGDIR, SyntaxKind::isTRIPLE, SyntaxKind::TRIPLE, SyntaxKind::SUBJECT, SyntaxKind::PREDICATE, SyntaxKind::OBJECT, SyntaxKind::REGEX, SyntaxKind::SUBSTR, SyntaxKind::REPLACE, SyntaxKind::EXISTS, SyntaxKind::COUNT, SyntaxKind::SUM, SyntaxKind::MIN, SyntaxKind::MAX, SyntaxKind::AVG, SyntaxKind::SAMPLE, SyntaxKind::GROUP_CONCAT, SyntaxKind::IRIREF, SyntaxKind::PNAME_NS, SyntaxKind::PNAME_LN]);
            proof {
                assert(match_Constraint_1(ks, start, gm1, pre1) == (p.st(), false)) by {
                    reveal_with_fuel(match_Constraint_1, 1);
                }
            }
        },
    }
    p.close(marker, SyntaxKind::Constraint);
    proof {
        assert(rule_Constraint(ks, s0) == p.st()) by {
            reveal_with_fuel(rule_Constraint, 1); reveal_with_fuel(match_Constraint_1, 1);
        }
    }
}

pub open spec fn rank_OrderCondition(t: SyntaxKind) -> nat {
    match t {
        SyntaxKind::VAR1 | SyntaxKind::VAR2 => 1,
        SyntaxKind::ABS | SyntaxKind::BNODE | SyntaxKind::BOUND | SyntaxKind::CEIL | SyntaxKind::COALESCE | SyntaxKind::CONCAT | SyntaxKind::CONTAINS | SyntaxKind::DATATYPE | SyntaxKind::DAY | SyntaxKind::ENCODE_FOR_URI | SyntaxKind::FLOOR | SyntaxKind::HOURS | SyntaxKind::IF | SyntaxKind::IRI | SyntaxKind::LANG | SyntaxKind::LANGDIR | SyntaxKind::LANGMATCHES | SyntaxKind::LCASE | SyntaxKind::LParen | SyntaxKind::MD5 | SyntaxKind::MINUTES | SyntaxKind::MONTH | SyntaxKind::NOW | SyntaxKind::OBJECT | SyntaxKind::PREDICATE | SyntaxKind::RAND | SyntaxKind::ROUND | SyntaxKind::SECONDS | SyntaxKind::SHA1 | SyntaxKind::SHA256 | SyntaxKind::SHA384 | SyntaxKind::SHA512 | SyntaxKind::STR | SyntaxKind::STRAFTER | SyntaxKind::STRBEFORE | SyntaxKind::STRDT | SyntaxKind::STRENDS | SyntaxKind::STRLANG | SyntaxKind::STRLANGDIR | SyntaxKind::STRLEN | SyntaxKind::STRSTARTS | SyntaxKind::STRUUID | SyntaxKind::SUBJECT | SyntaxKind::TIMEZONE | SyntaxKind::TRIPLE | SyntaxKind::TZ | SyntaxKind::UCASE | SyntaxKind::URI | SyntaxKind::UUID | SyntaxKind::YEAR | SyntaxKind::hasLANG | SyntaxKind::hasLANGDIR | SyntaxKind::isBLANK | SyntaxKind::isIRI | SyntaxKind::isLITERAL | SyntaxKind::isNUMERIC | SyntaxKind::isTRIPLE | SyntaxKind::isURI | SyntaxKind::sameTerm => 2,
        SyntaxKind::AVG | SyntaxKind::COUNT | SyntaxKind::EXISTS | SyntaxKind::GROUP_CONCAT | SyntaxKind::IRIREF | SyntaxKind::MAX | SyntaxKind::MIN | SyntaxKind::NOT | SyntaxKind::REGEX | SyntaxKind::REPLACE | SyntaxKind::SAMPLE | SyntaxKind::SUBSTR | SyntaxKind::SUM => 3,
        SyntaxKind::PNAME_LN | SyntaxKind::PNAME_NS => 4,
        _ => 0,
    }
}

/// What [`parse_OrderCondition`] makes of the parser state.
#[verifier::opaque]
pub open spec fn rule_OrderCondition(ts: Seq<SyntaxKind>, s: St) -> St
    decreases ts.len() - s.pos, rank_OrderCondition(peek_at(ts, s.pos)), 32 * (ts.len() - s.pos) + 32,
{
    let start = s.pos;
    let s_in = s;
    let m_marker = s.evs.len() as int;
    let s = st_open(s);
    let (s, r) = if s_in.pos <= s.pos <= ts.len() {
        match_OrderCondition_1(ts, start, m_marker, s)
    } else {
        (s, false)
    };
    if r {
        s
    } else {
        let s = st_close(s, m_marker, SyntaxKind::OrderCondition);
        s
    }
}

#[verifier::opaque]
pub open spec fn match_OrderCondition_2(ts: Seq<SyntaxKind>, start: int, m_marker: int, s: St) -> (St, bool)
    decreases ts.len() - start, rank_OrderCondition(peek_at(ts, start)), 32 * (ts.len() - s.pos) + 32 - 2,
{
    let s_in = s;
    if (peek_at(ts, s.pos) == SyntaxKind::ASC) {
        let s = st_expect(ts, s, SyntaxKind::ASC);
        (s, false)
    } else if (peek_at(ts, s.pos) == SyntaxKind::DESC) {
        let s = st_expect(ts, s, SyntaxKind::DESC);
        (s, false)
    } else if (peek_at(ts, s.pos) == SyntaxKind::Eof) {
        let s = st_close(s, m_marker, SyntaxKind::OrderCondition);
        let m_marker = s.evs.len() as int;
        let s = st_open(s);
        let s = st_close(s, m_marker, SyntaxKind::Error);
        (s, true)
    } else {
        let s = st_advance_with_error(ts, s, seq![SyntaxKind::ASC, SyntaxKind::DESC]);
        (s, false)
    }
}

#[verifier::opaque]
pub open spec fn match_OrderCondition_3(ts: Seq<SyntaxKind>, start: int, m_marker: int, s: St) -> (St, bool)
    decreases ts.len() - start, rank_OrderCondition(peek_at(ts, start)), 32 * (ts.len() - s.pos) + 32 - 2,
{
    let s_in = s;
    if (peek_at(ts, s.pos) == SyntaxKind::IRIREF || peek_at(ts, s.pos) == SyntaxKind::PNAME_NS || peek_at(ts, s.pos) == SyntaxKind::LParen || peek_at(ts, s.pos) == SyntaxKind::NOT || peek_at(ts, s.pos) == SyntaxKind::STR || peek_at(ts, s.pos) == SyntaxKind::LANG || peek_at(ts, s.pos) == SyntaxKind::LANGMATCHES || peek_at(ts, s.pos) == SyntaxKind::LANGDIR || peek_at(ts, s.pos) == SyntaxKind::DATATYPE || peek_at(ts, s.pos) == SyntaxKind::BOUND || peek_at(ts, s.pos) == SyntaxKind::IRI || peek_at(ts, s.pos) == SyntaxKind::URI || peek_at(ts, s.pos) == SyntaxKind::BNODE || peek_at(ts, s.pos) == SyntaxKind::RAND || peek_at(ts, s.pos) == SyntaxKind::ABS || peek_at(ts, s.pos) == SyntaxKind::CEIL || peek_at(ts, s.pos) == SyntaxKind::FLOOR || peek_at(ts, s.pos) == SyntaxKind::ROUND || peek_at(ts, s.pos) == SyntaxKind::CONCAT || peek_at(ts, s.pos) == SyntaxKind::STRLEN || peek_at(ts, s.pos) == SyntaxKind::UCASE || peek_at(ts, s.pos) == SyntaxKind::LCASE || peek_at(ts, s.pos) == SyntaxKind::ENCODE_FOR_URI || peek_at(ts, s.pos) == SyntaxKind::CONTAINS || peek_at(ts, s.pos) == SyntaxKind::STRSTARTS || peek_at(ts, s.pos) == SyntaxKind::STRENDS || peek_at(ts, s.pos) == SyntaxKind::STRBEFORE || peek_at(ts, s.pos) == SyntaxKind::STRAFTER || peek_at(ts, s.pos) == SyntaxKind::YEAR || peek_at(ts, s.pos) == SyntaxKind::MONTH || peek_at(ts, s.pos) == SyntaxKind::DAY || peek_at(ts, s.pos) == SyntaxKind::HOURS || peek_at(ts, s.pos) == SyntaxKind::MINUTES || peek_at(ts, s.pos) == SyntaxKind::SECONDS || peek_at(ts, s.pos) == SyntaxKind::TIMEZONE || peek_at(ts, s.pos) == SyntaxKind::TZ || peek_at(ts, s.pos) == SyntaxKind::NOW || peek_at(ts, s.pos) == SyntaxKind::UUID || peek_at(ts, s.pos) == SyntaxKind::STRUUID || peek_at(ts, s.pos) == SyntaxKind::MD5 || peek_at(ts, s.pos) == SyntaxKind::SHA1 || peek_at(ts, s.pos) == SyntaxKind::SHA256 || peek_at(ts, s.pos) == SyntaxKind::SHA384 || peek_at(ts, s.pos) == SyntaxKind::SHA512 || peek_at(ts, s.pos) == SyntaxKind::COALESCE || peek_at(ts, s.pos) == SyntaxKind::IF || peek_at(ts, s.pos) == SyntaxKind::STRLANG || peek_at(ts, s.pos) == SyntaxKind::STRLANGDIR || peek_at(ts, s.pos) == SyntaxKind::STRDT || peek_at(ts, s.pos) == SyntaxKind::sameTerm || peek_at(ts, s.pos) == SyntaxKind::isIRI || peek_at(ts, s.pos) == SyntaxKind::isURI || peek_at(ts, s.pos) == SyntaxKind::isBLANK || peek_at(ts, s.pos) == SyntaxKind::isLITERAL || peek_at(ts, s.pos) == SyntaxKind::isNUMERIC || peek_at(ts, s.pos) == SyntaxKind::hasLANG || peek_at(ts, s.pos) == SyntaxKind::hasLANGDIR || peek_at(ts, s.pos) == SyntaxKind::isTRIPLE || peek_at(ts, s.pos) == SyntaxKind::TRIPLE || peek_at(ts, s.pos) == SyntaxKind::SUBJECT || peek_at(ts, s.pos) == SyntaxKind::PREDICATE || peek_at(ts, s.pos) == SyntaxKind::OBJECT || peek_at(ts, s.pos) == SyntaxKind::REGEX || peek_at(ts, s.pos) == SyntaxKind::SUBSTR || peek_at(ts, s.pos) == SyntaxKind::REPLACE || peek_at(ts, s.pos) == SyntaxKind::EXISTS || peek_at(ts, s.pos) == SyntaxKind::COUNT || peek_at(ts, s.pos) == SyntaxKind::SUM || peek_at(ts, s.pos) == SyntaxKind::MIN || peek_at(ts, s.pos) == SyntaxKind::MAX || peek_at(ts, s.pos) == SyntaxKind::AVG || peek_at(ts, s.pos) == SyntaxKind::SAMPLE || peek_at(ts, s.pos) == SyntaxKind::GROUP_CONCAT || peek_at(ts, s.pos) == SyntaxKind::PNAME_LN) {
        let s = if call_ok(ts, start, s, rank_Constraint(peek_at(ts, s.pos)), rank_OrderCondition(peek_at(ts, start))) {
            rule_Constraint(ts, s)
        } else {
            s
        };
        (s, false)
    } else if (peek_at(ts, s.pos) == SyntaxKind::VAR1 || peek_at(ts, s.pos) == SyntaxKind::VAR2) {
        let s = rule_Var(ts, s);
        (s, false)
    } else if (peek_at(ts, s.pos) == SyntaxKind::Eof) {
        let s = st_close(s, m_marker, SyntaxKind::OrderCondition);
        let m_marker = s.evs.len() as int;
        let s = st_open(s);
        let s = st_close(s, m_marker, SyntaxKind::Error);
        (s, true)
    } else {
        let s = st_advance_with_error(ts, s, seq![SyntaxKind::IRIREF, SyntaxKind::PNAME_NS, SyntaxKind::LParen, SyntaxKind::NOT, SyntaxKind::STR, SyntaxKind::LANG, SyntaxKind::LANGMATCHES, SyntaxKind::LANGDIR, SyntaxKind::DATATYPE, SyntaxKind::BOUND, SyntaxKind::IRI, SyntaxKind::URI, SyntaxKind::BNODE, SyntaxKind::RAND, SyntaxKind::ABS, SyntaxKind::CEIL, SyntaxKind::FLOOR, SyntaxKind::ROUND, SyntaxKind::CONCAT, SyntaxKind::STRLEN, SyntaxKind::UCASE, SyntaxKind::LCASE, SyntaxKind::ENCODE_FOR_URI, SyntaxKind::CONTAINS, SyntaxKind::STRSTARTS, SyntaxKind::STRENDS, SyntaxKind::STRBEFORE, SyntaxKind::STRAFTER, SyntaxKind::YEAR, SyntaxKind::MONTH, SyntaxKind::DAY, SyntaxKind::HOURS, SyntaxKind::MINUTES, SyntaxKind::SECONDS, SyntaxKind::TIMEZONE, SyntaxKind::TZ, SyntaxKind::NOW, SyntaxKind::UUID, SyntaxKind::STRUUID, SyntaxKind::MD5, SyntaxKind::SHA1, SyntaxKind::SHA256, SyntaxKind::SHA384, SyntaxKind::SHA512, SyntaxKind::COALESCE, SyntaxKind::IF, SyntaxKind::STRLANG, SyntaxKind::STRLANGDIR, SyntaxKind::STRDT, SyntaxKind::sameTerm, SyntaxKind::isIRI, SyntaxKind::isURI, SyntaxKind::isBLANK, SyntaxKind::isLITERAL, SyntaxKind::isNUMERIC, SyntaxKind::hasLANG, SyntaxKind::hasLANGDIR, SyntaxKind::isTRIPLE, SyntaxKind::TRIPLE, SyntaxKind::SUBJECT, SyntaxKind::PREDICATE, SyntaxKind::OBJECT, SyntaxKind::REGEX, SyntaxKind::SUBSTR, SyntaxKind::REPLACE, SyntaxKind::EXISTS, SyntaxKind::COUNT, SyntaxKind::SUM, SyntaxKind::MIN, SyntaxKind::MAX, SyntaxKind::AVG, SyntaxKind::SAMPLE, SyntaxKind::GROUP_CONCAT, SyntaxKind::PNAME_LN, SyntaxKind::VAR1, SyntaxKind::VAR2]);
        (s, false)
    }
}

#[verifier::opaque]
pub open spec fn match_OrderCondition_1(ts: Seq<SyntaxKind>, start: int, m_marker: int, s: St) -> (St, bool)
    decreases ts.len() - start, rank_OrderCondition(peek_at(ts, start)), 32 * (ts.len() - s.pos) + 32 - 1,
{
    let s_in = s;
    if (peek_at(ts, s.pos) == SyntaxKind::ASC || peek_at(ts, s.pos) == SyntaxKind::DESC) {
        let (s, r) = if s_in.pos <= s.pos <= ts.len() {
            match_OrderCondition_2(ts, start, m_marker, s)
        } else {
            (s, false)
        };
        if r {
            (s, true)
        } else {
            let s = if call_ok(ts, start, s, rank_BrackettedExpression(peek_at(ts, s.pos)), rank_OrderCondition(peek_at(ts, start))) {
                rule_BrackettedExpression(ts, s)
            } else {
                s
            };
            (s, false)
        }
    } else if (peek_at(ts, s.pos) == SyntaxKind::IRIREF || peek_at(ts, s.pos) == SyntaxKind::PNAME_NS || peek_at(ts, s.pos) == SyntaxKind::LParen || peek_at(ts, s.pos) == SyntaxKind::VAR1 || peek_at(ts, s.pos) == SyntaxKind::VAR2 || peek_at(ts, s.pos) == SyntaxKind::NOT || peek_at(ts, s.pos) == SyntaxKind::STR || peek_at(ts, s.pos) == SyntaxKind::LANG || peek_at(ts, s.pos) == SyntaxKind::LANGMATCHES || peek_at(ts, s.pos) == SyntaxKind::LANGDIR || peek_at(ts, s.pos) == SyntaxKind::DATATYPE || peek_at(ts, s.pos) == SyntaxKind::BOUND || peek_at(ts, s.pos) == SyntaxKind::IRI || peek_at(ts, s.pos) == SyntaxKind::URI || peek_at(ts, s.pos) == SyntaxKind::BNODE || peek_at(ts, s.pos) == SyntaxKind::RAND || peek_at(ts, s.pos) == SyntaxKind::ABS || peek_at(ts, s.pos) == SyntaxKind::CEIL || peek_at(ts, s.pos) == SyntaxKind::FLOOR || peek_at(ts, s.pos) == SyntaxKind::ROUND || peek_at(ts, s.pos) == SyntaxKind::CONCAT || peek_at(ts, s.pos) == SyntaxKind::STRLEN || peek_at(ts, s.pos) == SyntaxKind::UCASE || peek_at(ts, s.pos) == SyntaxKind::LCASE || peek_at(ts, s.pos) == SyntaxKind::ENCODE_FOR_URI || peek_at(ts, s.pos) == SyntaxKind::CONTAINS || peek_at(ts, s.pos) == SyntaxKind::STRSTARTS || peek_at(ts, s.pos) == SyntaxKind::STRENDS || peek_at(ts, s.pos) == SyntaxKind::STRBEFORE || peek_at(ts, s.pos) == SyntaxKind::STRAFTER || peek_at(ts, s.pos) == SyntaxKind::YEAR || peek_at(ts, s.pos) == SyntaxKind::MONTH || peek_at(ts, s.pos) == SyntaxKind::DAY || peek_at(ts, s.pos) == SyntaxKind::HOURS || peek_at(ts, s.pos) == SyntaxKind::MINUTES || peek_at(ts, s.pos) == SyntaxKind::SECONDS || peek_at(ts, s.pos) == SyntaxKind::TIMEZONE || peek_at(ts, s.pos) == SyntaxKind::TZ || peek_at(ts, s.pos) == SyntaxKind::NOW || peek_at(ts, s.pos) == SyntaxKind::UUID || peek_at(ts, s.pos) == SyntaxKind::STRUUID || peek_at(ts, s.pos) == SyntaxKind::MD5 || peek_at(ts, s.pos) == SyntaxKind::SHA1 || peek_at(ts, s.pos) == SyntaxKind::SHA256 || peek_at(ts, s.pos) == SyntaxKind::SHA384 || peek_at(ts, s.pos) == SyntaxKind::SHA512 || peek_at(ts, s.pos) == SyntaxKind::COALESCE || peek_at(ts, s.pos) == SyntaxKind::IF || peek_at(ts, s.pos) == SyntaxKind::STRLANG || peek_at(ts, s.pos) == SyntaxKind::STRLANGDIR || peek_at(ts, s.pos) == SyntaxKind::STRDT || peek_at(ts, s.pos) == SyntaxKind::sameTerm || peek_at(ts, s.pos) == SyntaxKind::isIRI || peek_at(ts, s.pos) == SyntaxKind::isURI || peek_at(ts, s.pos) == SyntaxKind::isBLANK || peek_at(ts, s.pos) == SyntaxKind::isLITERAL || peek_at(ts, s.pos) == SyntaxKind::isNUMERIC || peek_at(ts, s.pos) == SyntaxKind::hasLANG || peek_at(ts, s.pos) == SyntaxKind::hasLANGDIR || peek_at(ts, s.pos) == SyntaxKind::isTRIPLE || peek_at(ts, s.pos) == SyntaxKind::TRIPLE || peek_at(ts, s.pos) == SyntaxKind::SUBJECT || peek_at(ts, s.pos) == SyntaxKind::PREDICATE || peek_at(ts, s.pos) == SyntaxKind::OBJECT || peek_at(ts, s.pos) == SyntaxKind::REGEX || peek_at(ts, s.pos) == SyntaxKind::SUBSTR || peek_at(ts, s.pos) == SyntaxKind::REPLACE || peek_at(ts, s.pos) == SyntaxKind::EXISTS || peek_at(ts, s.pos) == SyntaxKind::COUNT || peek_at(ts, s.pos) == SyntaxKind::SUM || peek_at(ts, s.pos) == SyntaxKind::MIN || peek_at(ts, s.pos) == SyntaxKind::MAX || peek_at(ts, s.pos) == SyntaxKind::AVG || peek_at(ts, s.pos) == SyntaxKind::SAMPLE || peek_at(ts, s.pos) == SyntaxKind::GROUP_CONCAT || peek_at(ts, s.pos) == SyntaxKind::PNAME_LN) {
        let (s, r) = if s_in.pos <= s.pos <= ts.len() {
            match_OrderCondition_3(ts, start, m_marker, s)
        } else {
            (s, false)
        };
        if r {
            (s, true)
        } else {
            (s, false)
        }
    } else if (peek_at(ts, s.pos) == SyntaxKind::Eof) {
        let s = st_close(s, m_marker, SyntaxKind::OrderCondition);
        let m_marker = s.evs.len() as int;
        let s = st_open(s);
        let s = st_close(s, m_marker, SyntaxKind::Error);
        (s, true)
    } else {
        let s = st_advance_with_error(ts, s, seq![SyntaxKind::ASC, SyntaxKind::DESC, SyntaxKind::IRIREF, SyntaxKind::PNAME_NS, SyntaxKind::LParen, SyntaxKind::VAR1, SyntaxKind::VAR2, SyntaxKind::NOT, SyntaxKind::STR, SyntaxKind::LANG, SyntaxKind::LANGMATCHES, SyntaxKind::LANGDIR, SyntaxKind::DATATYPE, SyntaxKind::BOUND, SyntaxKind::IRI, SyntaxKind::URI, SyntaxKind::BNODE, SyntaxKind::RAND, SyntaxKind::ABS, SyntaxKind::CEIL, SyntaxKind::FLOOR, SyntaxKind::ROUND, SyntaxKind::CONCAT, SyntaxKind::STRLEN, SyntaxKind::UCASE, SyntaxKind::LCASE, SyntaxKind::ENCODE_FOR_URI, SyntaxKind::CONTAINS, SyntaxKind::STRSTARTS, SyntaxKind::STRENDS, SyntaxKind::STRBEFORE, SyntaxKind::STRAFTER, SyntaxKind::YEAR, SyntaxKind::MONTH, SyntaxKind::DAY, SyntaxKind::HOURS, SyntaxKind::MINUTES, SyntaxKind::SECONDS, SyntaxKind::TIMEZONE, SyntaxKind::TZ, SyntaxKind::NOW, SyntaxKind::UUID, SyntaxKind::STRUUID, SyntaxKind::MD5, SyntaxKind::SHA1, SyntaxKind::SHA256, SyntaxKind::SHA384, SyntaxKind::SHA512, SyntaxKind::COALESCE, SyntaxKind::IF, SyntaxKind::STRLANG, SyntaxKind::STRLANGDIR, SyntaxKind::STRDT, SyntaxKind::sameTerm, SyntaxKind::isIRI, SyntaxKind::isURI, SyntaxKind::isBLANK, SyntaxKind::isLITERAL, SyntaxKind::isNUMERIC, SyntaxKind::hasLANG, SyntaxKind::hasLANGDIR, SyntaxKind::isTRIPLE, SyntaxKind::TRIPLE, SyntaxKind::SUBJECT, SyntaxKind::PREDICATE, SyntaxKind::OBJECT, SyntaxKind::REGEX, SyntaxKind::SUBSTR, SyntaxKind::REPLACE, SyntaxKind::EXISTS, SyntaxKind::COUNT, SyntaxKind::SUM, SyntaxKind::MIN, SyntaxKind::MAX, SyntaxKind::AVG, SyntaxKind::SAMPLE, SyntaxKind::GROUP_CONCAT, SyntaxKind::PNAME_LN]);
        (s, false)
    }
}

/// [38] OrderCondition -> ('ASC' | 'DESC') BrackettedExpression | Constraint | Var
pub(crate) fn parse_OrderCondition(p: &mut Parser)
    requires
        old(p).wf(),
    ensures
        Parser::step(*old(p), *final(p)),
        final(p).pos == old(p).pos ==> is_sync_point(old(p).peek()),
        old(p).events@.len() < final(p).events@.len(),
        final(p).events@[old(p).events@.len() as int] == (Event::Open { kind: SyntaxKind::OrderCondition }),
        final(p).events@.last() is Close,
        final(p).st() == rule_OrderCondition(old(p).kinds(), old(p).st()),
    decreases old(p).remaining(), rank_OrderCondition(old(p).peek()), 1int,
{
    let ghost ks = p.kinds();
    let ghost s0 = p.st();
    let ghost start = p.pos as int;
    let marker = p.open();
    let ghost gm1 = marker.index as int;
    let ghost pre1 = p.st();
    match p.nth(0) {
        SyntaxKind::ASC | SyntaxKind::DESC => {
            let ghost pre2 = p.st();
            match p.nth(0) {
                SyntaxKind::ASC => {
                    p.expect(SyntaxKind::ASC);
                    proof {
                        assert(match_OrderCondition_2(ks, start, gm1, pre2) == (p.st(), false)) by {
                            reveal_with_fuel(match_OrderCondition_2, 1);
                        }
                    }
                },
                SyntaxKind::DESC => {
                    p.expect(SyntaxKind::DESC);
                    proof {
                        assert(match_OrderCondition_2(ks, start, gm1, pre2) == (p.st(), false)) by {
                            reveal_with_fuel(match_OrderCondition_2, 1);
                        }
                    }
                },
                SyntaxKind::Eof => {
                    p.close(marker, SyntaxKind::OrderCondition);
                    let marker = p.open();
                    let ghost gm2 = marker.index as int;
                    p.close(marker, SyntaxKind::Error);
                    proof {
                        assert(match_OrderCondition_2(ks, start, gm1, pre2) == (p.st(), true)) by {
                            reveal_with_fuel(match_OrderCondition_2, 1);
                        }
                    }
                    proof {
                        assert(match_OrderCondition_1(ks, start, gm1, pre1) == (p.st(), true)) by {
                            reveal_with_fuel(match_OrderCondition_1, 1); reveal_with_fuel(match_OrderCondition_2, 1); reveal_with_fuel(rule_BrackettedExpression, 1);
                        }
                    }
                    proof {
                        assert(rule_OrderCondition(ks, s0) == p.st()) by {
                            reveal_with_fuel(rule_OrderCondition, 1); reveal_with_fuel(match_OrderCondition_1, 1);
                        }
                    }
                    return ;
                },
                _ => {
                    p.advance_with_error(vec![SyntaxKind::ASC, SyntaxKind::DESC]);
                    proof {
                        assert(match_OrderCondition_2(ks, start, gm1, pre2) == (p.st(), false)) by {
                            reveal_with_fuel(match_OrderCondition_2, 1);
                        }
                    }
                },
            }
            proof {
                assert(call_ok(ks, start, p.st(), rank_BrackettedExpression(peek_at(ks, p.st().pos)), rank_OrderCondition(peek_at(ks, start)))) by {
                    reveal(Parser::st);
                    assert(peek_at(ks, start) == old(p).peek());
                    assert(peek_at(ks, p.pos as int) == p.peek());
                }
            }
            parse_BrackettedExpression(p);
            proof {
                assert(match_OrderCondition_1(ks, start, gm1, pre1) == (p.st(), false)) by {
                    reveal_with_fuel(match_OrderCondition_1, 1); reveal_with_fuel(match_OrderCondition_2, 1); reveal_with_fuel(rule_BrackettedExpression, 1);
                }
            }
        },
        SyntaxKind::IRIREF | SyntaxKind::PNAME_NS | SyntaxKind::LParen | SyntaxKind::VAR1 | SyntaxKind::VAR2 | SyntaxKind::NOT | SyntaxKind::STR | SyntaxKind::LANG | SyntaxKind::LANGMATCHES | SyntaxKind::LANGDIR | SyntaxKind::DATATYPE | SyntaxKind::BOUND | SyntaxKind::IRI | SyntaxKind::URI | SyntaxKind::BNODE | SyntaxKind::RAND | SyntaxKind::ABS | SyntaxKind::CEIL | SyntaxKind::FLOOR | SyntaxKind::ROUND | SyntaxKind::CONCAT | SyntaxKind::STRLEN | SyntaxKind::UCASE | SyntaxKind::LCASE | SyntaxKind::ENCODE_FOR_URI | SyntaxKind::CONTAINS | SyntaxKind::STRSTARTS | SyntaxKind::STRENDS | SyntaxKind::STRBEFORE | SyntaxKind::STRAFTER | SyntaxKind::YEAR | SyntaxKind::MONTH | SyntaxKind::DAY | SyntaxKind::HOURS | SyntaxKind::MINUTES | SyntaxKind::SECONDS | SyntaxKind::TIMEZONE | SyntaxKind::TZ | SyntaxKind::NOW | SyntaxKind::UUID | SyntaxKind::STRUUID | SyntaxKind::MD5 | SyntaxKind::SHA1 | SyntaxKind::SHA256 | SyntaxKind::SHA384 | SyntaxKind::SHA512 | SyntaxKind::COALESCE | SyntaxKind::IF | SyntaxKind::STRLANG | SyntaxKind::STRLANGDIR | SyntaxKind::STRDT | SyntaxKind::sameTerm | SyntaxKind::isIRI | SyntaxKind::isURI | SyntaxKind::isBLANK | SyntaxKind::isLITERAL | SyntaxKind::isNUMERIC | SyntaxKind::hasLANG | SyntaxKind::hasLANGDIR | SyntaxKind::isTRIPLE | SyntaxKind::TRIPLE | SyntaxKind::SUBJECT | SyntaxKind::PREDICATE | SyntaxKind::OBJECT | SyntaxKind::REGEX | SyntaxKind::SUBSTR | SyntaxKind::REPLACE | SyntaxKind::EXISTS | SyntaxKind::COUNT | SyntaxKind::SUM | SyntaxKind::MIN | SyntaxKind::MAX | SyntaxKind::AVG | SyntaxKind::SAMPLE | SyntaxKind::GROUP_CONCAT | SyntaxKind::PNAME_LN => {
            let ghost pre3 = p.st();
            match p.nth(0) {
                SyntaxKind::IRIREF | SyntaxKind::PNAME_NS | SyntaxKind::LParen | SyntaxKind::NOT | SyntaxKind::STR | SyntaxKind::LANG | SyntaxKind::LANGMATCHES | SyntaxKind::LANGDIR | SyntaxKind::DATATYPE | SyntaxKind::BOUND | SyntaxKind::IRI | SyntaxKind::URI | SyntaxKind::BNODE | SyntaxKind::RAND | SyntaxKind::ABS | SyntaxKind::CEIL | SyntaxKind::FLOOR | SyntaxKind::ROUND | SyntaxKind::CONCAT | SyntaxKind::STRLEN | SyntaxKind::UCASE | SyntaxKind::LCASE | SyntaxKind::ENCODE_FOR_URI | SyntaxKind::CONTAINS | SyntaxKind::STRSTARTS | SyntaxKind::STRENDS | SyntaxKind::STRBEFORE | SyntaxKind::STRAFTER | SyntaxKind::YEAR | SyntaxKind::MONTH | SyntaxKind::DAY | SyntaxKind::HOURS | SyntaxKind::MINUTES | SyntaxKind::SECONDS | SyntaxKind::TIMEZONE | SyntaxKind::TZ | SyntaxKind::NOW | SyntaxKind::UUID | SyntaxKind::STRUUID | SyntaxKind::MD5 | SyntaxKind::SHA1 | SyntaxKind::SHA256 | SyntaxKind::SHA384 | SyntaxKind::SHA512 | SyntaxKind::COALESCE | SyntaxKind::IF | SyntaxKind::STRLANG | SyntaxKind::STRLANGDIR | SyntaxKind::STRDT | SyntaxKind::sameTerm | SyntaxKind::isIRI | SyntaxKind::isURI | SyntaxKind::isBLANK | SyntaxKind::isLITERAL | SyntaxKind::isNUMERIC | SyntaxKind::hasLANG | SyntaxKind::hasLANGDIR | SyntaxKind::isTRIPLE | SyntaxKind::TRIPLE | SyntaxKind::SUBJECT | SyntaxKind::PREDICATE | SyntaxKind::OBJECT | SyntaxKind::REGEX | SyntaxKind::SUBSTR | SyntaxKind::REPLACE | SyntaxKind::EXISTS | SyntaxKind::COUNT | SyntaxKind::SUM | SyntaxKind::MIN | SyntaxKind::MAX | SyntaxKind::AVG | SyntaxKind::SAMPLE | SyntaxKind::GROUP_CONCAT | SyntaxKind::PNAME_LN => {
                    proof {
                        assert(call_ok(ks, start, p.st(), rank_Constraint(peek_at(ks, p.st().pos)), rank_OrderCondition(peek_at(ks, start)))) by {
                            reveal(Parser::st);
                            assert(peek_at(ks, start) == old(p).peek());
                            assert(peek_at(ks, p.pos as int) == p.peek());
                        }
                    }
                    parse_Constraint(p);
                    proof {
                        assert(match_OrderCondition_3(ks, start, gm1, pre3) == (p.st(), false)) by {
                            reveal_with_fuel(match_OrderCondition_3, 1); reveal_with_fuel(rule_Constraint, 1);
                        }
                    }
                },
                SyntaxKind::VAR1 | SyntaxKind::VAR2 => {
                    parse_Var(p);
                    proof {
                        assert(match_OrderCondition_3(ks, start, gm1, pre3) == (p.st(), false)) by {
                            reveal_with_fuel(match_OrderCondition_3, 1);
                        }
                    }
                },
                SyntaxKind::Eof => {
                    p.close(marker, SyntaxKind::OrderCondition);
                    let marker = p.open();
                    let ghost gm3 = marker.index as int;
                    p.close(marker, SyntaxKind::Error);
                    proof {
                        assert(match_OrderCondition_3(ks, start, gm1, pre3) == (p.st(), true)) by {
                            reveal_with_fuel(match_OrderCondition_3, 1);
                        }
                    }
                    proof {
                        assert(match_OrderCondition_1(ks, start, gm1, pre1) == (p.st(), true)) by {
                            reveal_with_fuel(match_OrderCondition_1, 1); reveal_with_fuel(match_OrderCondition_3, 1);
                        }
                    }
                    proof {
                        assert(rule_OrderCondition(ks, s0) == p.st()) by {
                            reveal_with_fuel(rule_OrderCondition, 1); reveal_with_fuel(match_OrderCondition_1, 1);
                        }
                    }
                    return ;
                },
                _ => {
                    p.advance_with_error(vec![SyntaxKind::IRIREF, SyntaxKind::PNAME_NS, SyntaxKind::LParen, SyntaxKind::NOT, SyntaxKind::STR, SyntaxKind::LANG, SyntaxKind::LANGMATCHES, SyntaxKind::LANGDIR, SyntaxKind::DATATYPE, SyntaxKind::BOUND, SyntaxKind::IRI, SyntaxKind::URI, SyntaxKind::BNODE, SyntaxKind::RAND, SyntaxKind::ABS, SyntaxKind::CEIL, SyntaxKind::FLOOR, SyntaxKind::ROUND, SyntaxKind::CONCAT, SyntaxKind::STRLEN, SyntaxKind::UCASE, SyntaxKind::LCASE, SyntaxKind::ENCODE_FOR_URI, SyntaxKind::CONTAINS, SyntaxKind::STRSTARTS, SyntaxKind::STRENDS, SyntaxKind::STRBEFORE, SyntaxKind::STRAFTER, SyntaxKind::YEAR, SyntaxKind::MONTH, SyntaxKind::DAY, SyntaxKind::HOURS, SyntaxKind::MINUTES, SyntaxKind::SECONDS, SyntaxKind::TIMEZONE, SyntaxKind::TZ, SyntaxKind::NOW, SyntaxKind::UUID, SyntaxKind::STRUUID, SyntaxKind::MD5, SyntaxKind::SHA1, SyntaxKind::SHA256, SyntaxKind::SHA384, SyntaxKind::SHA512, SyntaxKind::COALESCE, SyntaxKind::IF, SyntaxKind::STRLANG, SyntaxKind::STRLANGDIR, SyntaxKind::STRDT, SyntaxKind::sameTerm, SyntaxKind::isIRI, SyntaxKind::isURI, SyntaxKind::isBLANK, SyntaxKind::isLITERAL, SyntaxKind::isNUMERIC, SyntaxKind::hasLANG, SyntaxKind::hasLANGDIR, SyntaxKind::isTRIPLE, SyntaxKind::TRIPLE, SyntaxKind::SUBJECT, SyntaxKind::PREDICATE, SyntaxKind::OBJECT, SyntaxKind::REGEX, SyntaxKind::SUBSTR, SyntaxKind::REPLACE, SyntaxKind::EXISTS, SyntaxKind::COUNT, SyntaxKind::SUM, SyntaxKind::MIN, SyntaxKind::MAX, SyntaxKind::AVG, SyntaxKind::SAMPLE, SyntaxKind::GROUP_CONCAT, SyntaxKind::PNAME_LN, SyntaxKind::VAR1, SyntaxKind::VAR2]);
                    proof {
                        assert(match_OrderCondition_3(ks, start, gm1, pre3) == (p.st(), false)) by {
                            reveal_with_fuel(match_OrderCondition_3, 1);
                        }
                    }
                },
            }
            proof {
                assert(match_OrderCondition_1(ks, start, gm1, pre1) == (p.st(), false)) by {
                    reveal_with_fuel(match_OrderCondition_1, 1); reveal_with_fuel(match_OrderCondition_3, 1);
                }
            }
        },
        SyntaxKind::Eof => {
            p.close(marker, SyntaxKind::OrderCondition);
            let marker = p.open();
            let ghost gm4 = marker.index as int;
            p.close(marker, SyntaxKind::Error);
            proof {
                assert(match_OrderCondition_1(ks, start, gm1, pre1) == (p.st(), true)) by {
                    reveal_with_fuel(match_OrderCondition_1, 1);
                }
            }
            proof {
                assert(rule_OrderCondition(ks, s0) == p.st()) by {
                    reveal_with_fuel(rule_OrderCondition, 1); reveal_with_fuel(match_OrderCondition_1, 1);
                }
            }
            return ;
        },
        _ => {
            p.advance_with_error(vec![SyntaxKind::ASC, SyntaxKind::DESC, SyntaxKind::IRIREF, SyntaxKind::PNAME_NS, SyntaxKind::LParen, SyntaxKind::VAR1, SyntaxKind::VAR2, SyntaxKind::NOT, SyntaxKind::STR, SyntaxKind::LANG, SyntaxKind::LANGMATCHES, SyntaxKind::LANGDIR, SyntaxKind::DATATYPE, SyntaxKind::BOUND, SyntaxKind::IRI, SyntaxKind::URI, SyntaxKind::BNODE, SyntaxKind::RAND, SyntaxKind::ABS, SyntaxKind::CEIL, SyntaxKind::FLOOR, SyntaxKind::ROUND, SyntaxKind::CONCAT, SyntaxKind::STRLEN, SyntaxKind::UCASE, SyntaxKind::LCASE, SyntaxKind::ENCODE_FOR_URI, SyntaxKind::CONTAINS, SyntaxKind::STRSTARTS, SyntaxKind::STRENDS, SyntaxKind::STRBEFORE, SyntaxKind::STRAFTER, SyntaxKind::YEAR, SyntaxKind::MONTH, SyntaxKind::DAY, SyntaxKind::HOURS, SyntaxKind::MINUTES, SyntaxKind::SECONDS, SyntaxKind::TIMEZONE, SyntaxKind::TZ, SyntaxKind::NOW, SyntaxKind::UUID, SyntaxKind::STRUUID, SyntaxKind::MD5, SyntaxKind::SHA1, SyntaxKind::SHA256, SyntaxKind::SHA384, SyntaxKind::SHA512, SyntaxKind::COALESCE, SyntaxKind::IF, SyntaxKind::STRLANG, SyntaxKind::STRLANGDIR, SyntaxKind::STRDT, SyntaxKind::sameTerm, SyntaxKind::isIRI, SyntaxKind::isURI, SyntaxKind::isBLANK, SyntaxKind::isLITERAL, SyntaxKind::isNUMERIC, SyntaxKind::hasLANG, SyntaxKind::hasLANGDIR, SyntaxKind::isTRIPLE, SyntaxKind::TRIPLE, SyntaxKind::SUBJECT, SyntaxKind::PREDICATE, SyntaxKind::OBJECT, SyntaxKind::REGEX, SyntaxKind::SUBSTR, SyntaxKind::REPLACE, SyntaxKind::EXISTS, SyntaxKind::COUNT, SyntaxKind::SUM, SyntaxKind::MIN, SyntaxKind::MAX, SyntaxKind::AVG, SyntaxKind::SAMPLE, SyntaxKind::GROUP_CONCAT, SyntaxKind::PNAME_LN]);
            proof {
                assert(match_OrderCondition_1(ks, start, gm1, pre1) == (p.st(), false)) by {
                    reveal_with_fuel(match_OrderCondition_1, 1);
                }
            }
        },
    }
    p.close(marker, SyntaxKind::OrderCondition);
    proof {
        assert(rule_OrderCondition(ks, s0) == p.st()) by {
            reveal_with_fuel(rule_OrderCondition, 1); reveal_with_fuel(match_OrderCondition_1, 1);
        }
    }
}

pub open spec fn rank_BrackettedExpression(t: SyntaxKind) -> nat {
    match t {
        SyntaxKind::LParen => 0,
        SyntaxKind::ABS | SyntaxKind::BNODE | SyntaxKind::BOUND | SyntaxKind::CEIL | SyntaxKind::COALESCE | SyntaxKind::CONCAT | SyntaxKind::CONTAINS | SyntaxKind::DATATYPE | SyntaxKind::DAY | SyntaxKind::DoubleLessLParen | SyntaxKind::ENCODE_FOR_URI | SyntaxKind::FLOOR | SyntaxKind::False | SyntaxKind::HOURS | SyntaxKind::IF | SyntaxKind::IRI | SyntaxKind::LANG | SyntaxKind::LANGDIR | SyntaxKind::LANGMATCHES | SyntaxKind::LCASE | SyntaxKind::MD5 | SyntaxKind::MINUTES | SyntaxKind::MONTH | SyntaxKind::NOW | SyntaxKind::OBJECT | SyntaxKind::PREDICATE | SyntaxKind::RAND | SyntaxKind::ROUND | SyntaxKind::SECONDS | SyntaxKind::SHA1 | SyntaxKind::SHA256 | SyntaxKind::SHA384 | SyntaxKind::SHA512 | SyntaxKind::STR | SyntaxKind::STRAFTER | SyntaxKind::STRBEFORE | SyntaxKind::STRDT | SyntaxKind::STRENDS | SyntaxKind::STRLANG | SyntaxKind::STRLANGDIR | SyntaxKind::STRLEN | SyntaxKind::STRSTARTS | SyntaxKind::STRUUID | SyntaxKind::SUBJECT | SyntaxKind::TIMEZONE | SyntaxKind::TRIPLE | SyntaxKind::TZ | SyntaxKind::True | SyntaxKind::UCASE | SyntaxKind::URI | SyntaxKind::UUID | SyntaxKind::VAR1 | SyntaxKind::VAR2 | SyntaxKind::YEAR | SyntaxKind::hasLANG | SyntaxKind::hasLANGDIR | SyntaxKind::isBLANK | SyntaxKind::isIRI | SyntaxKind::isLITERAL | SyntaxKind::isNUMERIC | SyntaxKind::isTRIPLE | SyntaxKind::isURI | SyntaxKind::sameTerm => 11,
        SyntaxKind::AVG | SyntaxKind::COUNT | SyntaxKind::DECIMAL | SyntaxKind::DECIMAL_NEGATIVE | SyntaxKind::DECIMAL_POSITIVE | SyntaxKind::DOUBLE | SyntaxKind::DOUBLE_NEGATIVE | SyntaxKind::DOUBLE_POSITIVE | SyntaxKind::EXISTS | SyntaxKind::GROUP_CONCAT | SyntaxKind::INTEGER | SyntaxKind::INTEGER_NEGATIVE | SyntaxKind::INTEGER_POSITIVE | SyntaxKind::IRIREF | SyntaxKind::MAX | SyntaxKind::MIN | SyntaxKind::NOT | SyntaxKind::REGEX | SyntaxKind::REPLACE | SyntaxKind::SAMPLE | SyntaxKind::STRING_LITERAL1 | SyntaxKind::STRING_LITERAL2 | SyntaxKind::STRING_LITERAL_LONG1 | SyntaxKind::STRING_LITERAL_LONG2 | SyntaxKind::SUBSTR | SyntaxKind::SUM => 12,
        SyntaxKind::PNAME_LN | SyntaxKind::PNAME_NS => 13,
        _ => 9,
    }
}

/// What [`parse_BrackettedExpression`] makes of the parser state.
#[verifier::opaque]
pub open spec fn rule_BrackettedExpression(ts: Seq<SyntaxKind>, s: St) -> St
    decreases ts.len() - s.pos, rank_BrackettedExpression(peek_at(ts, s.pos)), 32 * (ts.len() - s.pos) + 32,
{
    let start = s.pos;
    let s_in = s;
    let m_marker = s.evs.len() as int;
    let s = st_open(s);
    let s = st_expect(ts, s, SyntaxKind::LParen);
    let s = if call_ok(ts, start, s, rank_Expression(peek_at(ts, s.pos)), rank_BrackettedExpression(peek_at(ts, start))) {
        rule_Expression(ts, s)
    } else {
        s
    };
    let s = st_expect(ts, s, SyntaxKind::RParen);
    let s = st_close(s, m_marker, SyntaxKind::BrackettedExpression);
    s
}


/// [39] BrackettedExpression -> '(' Expression ')'
pub(crate) fn parse_BrackettedExpression(p: &mut Parser)
    requires
        old(p).wf(),
    ensures
        Parser::step(*old(p), *final(p)),
        final(p).pos == old(p).pos ==> is_sync_point(old(p).peek()),
        old(p).events@.len() < final(p).events@.len(),
        final(p).events@[old(p).events@.len() as int] == (Event::Open { kind: SyntaxKind::BrackettedExpression }),
        final(p).events@.last() is Close,
        final(p).st() == rule_BrackettedExpression(old(p).kinds(), old(p).st()),
    decreases old(p).remaining(), rank_BrackettedExpression(old(p).peek()), 1int,
{
    let ghost ks = p.kinds();
    let ghost s0 = p.st();
    let ghost start = p.pos as int;
    let marker = p.open();
    let ghost gm1 = marker.index as int;
    p.expect(SyntaxKind::LParen);
    proof {
        assert(call_ok(ks, start, p.st(), rank_Expression(peek_at(ks, p.st().pos)), rank_BrackettedExpression(peek_at(ks, start)))) by {
            reveal(Parser::st);
            assert(peek_at(ks, start) == old(p).peek());
            assert(peek_at(ks, p.pos as int) == p.peek());
        }
    }
    parse_Expression(p);
    p.expect(SyntaxKind::RParen);
    p.close(marker, SyntaxKind::BrackettedExpression);
    proof {
        assert(rule_BrackettedExpression(ks, s0) == p.st()) by {
            reveal_with_fuel(rule_BrackettedExpression, 1); reveal_with_fuel(rule_Expression, 1);
        }
    }
}

pub open spec fn rank_LimitClause(t: SyntaxKind) -> nat {
    0
}

/// What [`parse_LimitClause`] makes of the parser state.
#[verifier::opaque]
pub open spec fn rule_LimitClause(ts: Seq<SyntaxKind>, s: St) -> St {
    let m_marker = s.evs.len() as int;
    let s = st_open(s);
    let s = st_expect(ts, s, SyntaxKind::LIMIT);
    let s = st_expect(ts, s, SyntaxKind::INTEGER);
    let s = st_close(s, m_marker, SyntaxKind::LimitClause);
    s
}

/// [40] LimitClause -> 'LIMIT' 'INTEGER'
pub(crate) fn parse_LimitClause(p: &mut Parser)
    requires
        old(p).wf(),
    ensures
        Parser::step(*old(p), *final(p)),
        final(p).pos == old(p).pos ==> !(old(p).peek() == SyntaxKind::INTEGER || old(p).peek() == SyntaxKind::LIMIT),
        old(p).events@.len() < final(p).events@.len(),
        final(p).events@[old(p).events@.len() as int] == (Event::Open { kind: SyntaxKind::LimitClause }),
        final(p).events@.last() is Close,
        final(p).st() == rule_LimitClause(old(p).kinds(), old(p).st()),
    decreases old(p).remaining(), rank_LimitClause(old(p).peek()), 1int,
{
    let ghost ks = p.kinds();
    let ghost s0 = p.st();
    let marker = p.open();
    p.expect(SyntaxKind::LIMIT);
    p.expect(SyntaxKind::INTEGER);
    p.close(marker, SyntaxKind::LimitClause);
    proof {
        assert(p.st() == rule_LimitClause(ks, s0)) by {
            reveal(rule_LimitClause);
            reveal(Parser::st);
        }
    }
}

pub open spec fn rank_OffsetClause(t: SyntaxKind) -> nat {
    0
}

/// What [`parse_OffsetClause`] makes of the parser state.
#[verifier::opaque]
pub open spec fn rule_OffsetClause(ts: Seq<SyntaxKind>, s: St) -> St {
    let m_marker = s.evs.len() as int;
    let s = st_open(s);
    let s = st_expect(ts, s, SyntaxKind::OFFSET);
    let s = st_expect(ts, s, SyntaxKind::INTEGER);
    let s = st_close(s, m_marker, SyntaxKind::OffsetClause);
    s
}

/// [41] OffsetClause -> 'OFFSET' 'INTEGER'
pub(crate) fn parse_OffsetClause(p: &mut Parser)
    requires
        old(p).wf(),
    ensures
        Parser::step(*old(p), *final(p)),
        final(p).pos == old(p).pos ==> !(old(p).peek() == SyntaxKind::INTEGER || old(p).peek() == SyntaxKind::OFFSET),
        old(p).events@.len() < final(p).events@.len(),
        final(p).events@[old(p).events@.len() as int] == (Event::Open { kind: SyntaxKind::OffsetClause }),
        final(p).events@.last() is Close,
        final(p).st() == rule_OffsetClause(old(p).kinds(), old(p).st()),
    decreases old(p).remaining(), rank_OffsetClause(old(p).peek()), 1int,
{
    let ghost ks = p.kinds();
    let ghost s0 = p.st();
    let marker = p.open();
    p.expect(SyntaxKind::OFFSET);
    p.expect(SyntaxKind::INTEGER);
    p.close(marker, SyntaxKind::OffsetClause);
    proof {
        assert(p.st() == rule_OffsetClause(ks, s0)) by {
            reveal(rule_OffsetClause);
            reveal(Parser::st);
        }
    }
}

pub open spec fn rank_DataBlock(t: SyntaxKind) -> nat {
    match t {
        SyntaxKind::LParen | SyntaxKind::NIL => 1,
        SyntaxKind::VAR1 | SyntaxKind::VAR2 => 2,
        _ => 0,
    }
}

/// What [`parse_DataBlock`] makes of the parser state.
#[verifier::opaque]
pub open spec fn rule_DataBlock(ts: Seq<SyntaxKind>, s: St) -> St
    decreases ts.len() - s.pos, rank_DataBlock(peek_at(ts, s.pos)), 32 * (ts.len() - s.pos) + 32,
{
    let start = s.pos;
    let s_in = s;
    let m_marker = s.evs.len() as int;
    let s = st_open(s);
    let (s, r) = if s_in.pos <= s.pos <= ts.len() {
        match_DataBlock_1(ts, start, m_marker, s)
    } else {
        (s, false)
    };
    if r {
        s
    } else {
        let s = st_close(s, m_marker, SyntaxKind::DataBlock);
        s
    }
}

#[verifier::opaque]
pub open spec fn match_DataBlock_1(ts: Seq<SyntaxKind>, start: int, m_marker: int, s: St) -> (St, bool)
    decreases ts.len() - start, rank_DataBlock(peek_at(ts, start)), 32 * (ts.len() - s.pos) + 32 - 1,
{
    let s_in = s;
    if (peek_at(ts, s.pos) == SyntaxKind::VAR1 || peek_at(ts, s.pos) == SyntaxKind::VAR2) {
        let s = if call_ok(ts, start, s, rank_InlineDataOneVar(peek_at(ts, s.pos)), rank_DataBlock(peek_at(ts, start))) {
            rule_InlineDataOneVar(ts, s)
        } else {
            s
        };
        (s, false)
    } else if (peek_at(ts, s.pos) == SyntaxKind::LParen || peek_at(ts, s.pos) == SyntaxKind::NIL) {
        let s = if call_ok(ts, start, s, rank_InlineDataFull(peek_at(ts, s.pos)), rank_DataBlock(peek_at(ts, start))) {
            rule_InlineDataFull(ts, s)
        } else {
            s
        };
        (s, false)
    } else if (peek_at(ts, s.pos) == SyntaxKind::Eof) {
        let s = st_close(s, m_marker, SyntaxKind::DataBlock);
        let m_marker = s.evs.len() as int;
        let s = st_open(s);
        let s = st_close(s, m_marker, SyntaxKind::Error);
        (s, true)
    } else {
        let s = st_advance_with_error(ts, s, seq![SyntaxKind::VAR1, SyntaxKind::VAR2, SyntaxKind::LParen, SyntaxKind::NIL]);
        (s, false)
    }
}

/// [42] DataBlock -> InlineDataOneVar | InlineDataFull
pub(crate) fn parse_DataBlock(p: &mut Parser)
    requires
        old(p).wf(),
    ensures
        Parser::step(*old(p), *final(p)),
        final(p).pos == old(p).pos ==> is_sync_point(old(p).peek()),
        old(p).events@.len() < final(p).events@.len(),
        final(p).events@[old(p).events@.len() as int] == (Event::Open { kind: SyntaxKind::DataBlock }),
        final(p).events@.last() is Close,
        final(p).st() == rule_DataBlock(old(p).kinds(), old(p).st()),
    decreases old(p).remaining(), rank_DataBlock(old(p).peek()), 1int,
{
    let ghost ks = p.kinds();
    let ghost s0 = p.st();
    let ghost start = p.pos as int;
    let marker = p.open();
    let ghost gm1 = marker.index as int;
    let ghost pre1 = p.st();
    match p.nth(0) {
        SyntaxKind::VAR1 | SyntaxKind::VAR2 => {
            proof {
                assert(call_ok(ks, start, p.st(), rank_InlineDataOneVar(peek_at(ks, p.st().pos)), rank_DataBlock(peek_at(ks, start)))) by {
                    reveal(Parser::st);
                    assert(peek_at(ks, start) == old(p).peek());
                    assert(peek_at(ks, p.pos as int) == p.peek());
                }
            }
            parse_InlineDataOneVar(p);
            proof {
                assert(match_DataBlock_1(ks, start, gm1, pre1) == (p.st(), false)) by {
                    reveal_with_fuel(match_DataBlock_1, 1); reveal_with_fuel(rule_InlineDataOneVar, 1);
                }
            }
        },
        SyntaxKind::LParen | SyntaxKind::NIL => {
            proof {
                assert(call_ok(ks, start, p.st(), rank_InlineDataFull(peek_at(ks, p.st().pos)), rank_DataBlock(peek_at(ks, start)))) by {
                    reveal(Parser::st);
                    assert(peek_at(ks, start) == old(p).peek());
                    assert(peek_at(ks, p.pos as int) == p.peek());
                }
            }
            parse_InlineDataFull(p);
            proof {
                assert(match_DataBlock_1(ks, start, gm1, pre1) == (p.st(), false)) by {
                    reveal_with_fuel(match_DataBlock_1, 1); reveal_with_fuel(rule_InlineDataFull, 1);
                }
            }
        },
        SyntaxKind::Eof => {
            p.close(marker, SyntaxKind::DataBlock);
            let marker = p.open();
            let ghost gm2 = marker.index as int;
            p.close(marker, SyntaxKind::Error);
            proof {
                assert(match_DataBlock_1(ks, start, gm1, pre1) == (p.st(), true)) by {
                    reveal_with_fuel(match_DataBlock_1, 1);
                }
            }
            proof {
                assert(rule_DataBlock(ks, s0) == p.st()) by {
                    reveal_with_fuel(rule_DataBlock, 1); reveal_with_fuel(match_DataBlock_1, 1);
                }
            }
            return ;
        },
        _ => {
            p.advance_with_error(vec![SyntaxKind::VAR1, SyntaxKind::VAR2, SyntaxKind::LParen, SyntaxKind::NIL]);
            proof {
                assert(match_DataBlock_1(ks, start, gm1, pre1) == (p.st(), false)) by {
                    reveal_with_fuel(match_DataBlock_1, 1);
                }
            }
        },
    }
    p.close(marker, SyntaxKind::DataBlock);
    proof {
        assert(rule_DataBlock(ks, s0) == p.st()) by {
            reveal_with_fuel(rule_DataBlock, 1); reveal_with_fuel(match_DataBlock_1, 1);
        }
    }
}

pub open spec fn rank_UpdateOne(t: SyntaxKind) -> nat {
    match t {
        SyntaxKind::ADD | SyntaxKind::CLEAR | SyntaxKind::COPY | SyntaxKind::CREATE | SyntaxKind::DELETE_DATA | SyntaxKind::DELETE_WHERE | SyntaxKind::DROP | SyntaxKind::INSERT_DATA | SyntaxKind::LOAD | SyntaxKind::MOVE | SyntaxKind::WITH => 1,
        SyntaxKind::DELETE | SyntaxKind::INSERT => 2,
        _ => 0,
    }
}

/// What [`parse_UpdateOne`] makes of the parser state.
#[verifier::opaque]
pub open spec fn rule_UpdateOne(ts: Seq<SyntaxKind>, s: St) -> St
    decreases ts.len() - s.pos, rank_UpdateOne(peek_at(ts, s.pos)), 32 * (ts.len() - s.pos) + 32,
{
    let start = s.pos;
    let s_in = s;
    let m_marker = s.evs.len() as int;
    let s = st_open(s);
    let (s, r) = if s_in.pos <= s.pos <= ts.len() {
        match_UpdateOne_1(ts, start, m_marker, s)
    } else {
        (s, false)
    };
    if r {
        s
    } else {
        let s = st_close(s, m_marker, SyntaxKind::UpdateOne);
        s
    }
}

#[verifier::opaque]
pub open spec fn match_UpdateOne_1(ts: Seq<SyntaxKind>, start: int, m_marker: int, s: St) -> (St, bool)
    decreases ts.len() - start, rank_UpdateOne(peek_at(ts, start)), 32 * (ts.len() - s.pos) + 32 - 1,
{
    let s_in = s;
    if (peek_at(ts, s.pos) == SyntaxKind::LOAD) {
        let s = rule_Load(ts, s);
        (s, false)
    } else if (peek_at(ts, s.pos) == SyntaxKind::CLEAR) {
        let s = rule_Clear(ts, s);
        (s, false)
    } else if (peek_at(ts, s.pos) == SyntaxKind::DROP) {
        let s = rule_Drop(ts, s);
        (s, false)
    } else if (peek_at(ts, s.pos) == SyntaxKind::ADD) {
        let s = rule_Add(ts, s);
        (s, false)
    } else if (peek_at(ts, s.pos) == SyntaxKind::MOVE) {
        let s = rule_Move(ts, s);
        (s, false)
    } else if (peek_at(ts, s.pos) == SyntaxKind::COPY) {
        let s = rule_Copy(ts, s);
        (s, false)
    } else if (peek_at(ts, s.pos) == SyntaxKind::CREATE) {
        let s = rule_Create(ts, s);
        (s, false)
    } else if (peek_at(ts, s.pos) == SyntaxKind::DELETE_WHERE) {
        let s = if call_ok(ts, start, s, rank_DeleteWhere(peek_at(ts, s.pos)), rank_UpdateOne(peek_at(ts, start))) {
            rule_DeleteWhere(ts, s)
        } else {
            s
        };
        (s, false)
    } else if (peek_at(ts, s.pos) == SyntaxKind::WITH || peek_at(ts, s.pos) == SyntaxKind::DELETE || peek_at(ts, s.pos) == SyntaxKind::INSERT) {
        let s = if call_ok(ts, start, s, rank_Modify(peek_at(ts, s.pos)), rank_UpdateOne(peek_at(ts, start))) {
            rule_Modify(ts, s)
        } else {
            s
        };
        (s, false)
    } else if (peek_at(ts, s.pos) == SyntaxKind::INSERT_DATA) {
        let s = if call_ok(ts, start, s, rank_InsertData(peek_at(ts, s.pos)), rank_UpdateOne(peek_at(ts, start))) {
            rule_InsertData(ts, s)
        } else {
            s
        };
        (s, false)
    } else if (peek_at(ts, s.pos) == SyntaxKind::DELETE_DATA) {
        let s = if call_ok(ts, start, s, rank_DeleteData(peek_at(ts, s.pos)), rank_UpdateOne(peek_at(ts, start))) {
            rule_DeleteData(ts, s)
        } else {
            s
        };
        (s, false)
    } else if (peek_at(ts, s.pos) == SyntaxKind::Eof) {
        let s = st_close(s, m_marker, SyntaxKind::UpdateOne);
        let m_marker = s.evs.len() as int;
        let s = st_open(s);
        let s = st_close(s, m_marker, SyntaxKind::Error);
        (s, true)
    } else {
        let s = st_advance_with_error(ts, s, seq![SyntaxKind::LOAD, SyntaxKind::CLEAR, SyntaxKind::DROP, SyntaxKind::ADD, SyntaxKind::MOVE, SyntaxKind::COPY, SyntaxKind::CREATE, SyntaxKind::DELETE_WHERE, SyntaxKind::WITH, SyntaxKind::DELETE, SyntaxKind::INSERT, SyntaxKind::INSERT_DATA, SyntaxKind::DELETE_DATA]);
        (s, false)
    }
}

/// [43] UpdateOne -> Load | Clear | Drop | Add | Move | Copy | Create | DeleteWhere | Modify | InsertData | DeleteData
pub(crate) fn parse_UpdateOne(p: &mut Parser)
    requires
        old(p).wf(),
    ensures
        Parser::step(*old(p), *final(p)),
        final(p).pos == old(p).pos ==> is_sync_point(old(p).peek()),
        old(p).events@.len() < final(p).events@.len(),
        final(p).events@[old(p).events@.len() as int] == (Event::Open { kind: SyntaxKind::UpdateOne }),
        final(p).events@.last() is Close,
        final(p).st() == rule_UpdateOne(old(p).kinds(), old(p).st()),
    decreases old(p).remaining(), rank_UpdateOne(old(p).peek()), 1int,
{
    let ghost ks = p.kinds();
    let ghost s0 = p.st();
    let ghost start = p.pos as int;
    let marker = p.open();
    let ghost gm1 = marker.index as int;
    let ghost pre1 = p.st();
    match p.nth(0) {
        SyntaxKind::LOAD => {
            parse_Load(p);
            proof {
                assert(match_UpdateOne_1(ks, start, gm1, pre1) == (p.st(), false)) by {
                    reveal_with_fuel(match_UpdateOne_1, 1);
                }
            }
        },
        SyntaxKind::CLEAR => {
            parse_Clear(p);
            proof {
                assert(match_UpdateOne_1(ks, start, gm1, pre1) == (p.st(), false)) by {
                    reveal_with_fuel(match_UpdateOne_1, 1);
                }
            }
        },
        SyntaxKind::DROP => {
            parse_Drop(p);
            proof {
                assert(match_UpdateOne_1(ks, start, gm1, pre1) == (p.st(), false)) by {
                    reveal_with_fuel(match_UpdateOne_1, 1);
                }
            }
        },
        SyntaxKind::ADD => {
            parse_Add(p);
            proof {
                assert(match_UpdateOne_1(ks, start, gm1, pre1) == (p.st(), false)) by {
                    reveal_with_fuel(match_UpdateOne_1, 1);
                }
            }
        },
        SyntaxKind::MOVE => {
            parse_Move(p);
            proof {
                assert(match_UpdateOne_1(ks, start, gm1, pre1) == (p.st(), false)) by {
                    reveal_with_fuel(match_UpdateOne_1, 1);
                }
            }
        },
        SyntaxKind::COPY => {
            parse_Copy(p);
            proof {
                assert(match_UpdateOne_1(ks, start, gm1, pre1) == (p.st(), false)) by {
                    reveal_with_fuel(match_UpdateOne_1, 1);
                }
            }
        },
        SyntaxKind::CREATE => {
            parse_Create(p);
            proof {
                assert(match_UpdateOne_1(ks, start, gm1, pre1) == (p.st(), false)) by {
                    reveal_with_fuel(match_UpdateOne_1, 1);
                }
            }
        },
        SyntaxKind::DELETE_WHERE => {
            proof {
                assert(call_ok(ks, start, p.st(), rank_DeleteWhere(peek_at(ks, p.st().pos)), rank_UpdateOne(peek_at(ks, start)))) by {
                    reveal(Parser::st);
                    assert(peek_at(ks, start) == old(p).peek());
                    assert(peek_at(ks, p.pos as int) == p.peek());
                }
            }
            parse_DeleteWhere(p);
            proof {
                assert(match_UpdateOne_1(ks, start, gm1, pre1) == (p.st(), false)) by {
                    reveal_with_fuel(match_UpdateOne_1, 1); reveal_with_fuel(rule_DeleteWhere, 1);
                }
            }
        },
        SyntaxKind::WITH | SyntaxKind::DELETE | SyntaxKind::INSERT => {
            proof {
                assert(call_ok(ks, start, p.st(), rank_Modify(peek_at(ks, p.st().pos)), rank_UpdateOne(peek_at(ks, start)))) by {
                    reveal(Parser::st);
                    assert(peek_at(ks, start) == old(p).peek());
                    assert(peek_at(ks, p.pos as int) == p.peek());
                }
            }
            parse_Modify(p);
            proof {
                assert(match_UpdateOne_1(ks, start, gm1, pre1) == (p.st(), false)) by {
                    reveal_with_fuel(match_UpdateOne_1, 1); reveal_with_fuel(rule_Modify, 1);
                }
            }
        },
        SyntaxKind::INSERT_DATA => {
            proof {
                assert(call_ok(ks, start, p.st(), rank_InsertData(peek_at(ks, p.st().pos)), rank_UpdateOne(peek_at(ks, start)))) by {
                    reveal(Parser::st);
                    assert(peek_at(ks, start) == old(p).peek());
                    assert(peek_at(ks, p.pos as int) == p.peek());
                }
            }
            parse_InsertData(p);
            proof {
                assert(match_UpdateOne_1(ks, start, gm1, pre1) == (p.st(), false)) by {
                    reveal_with_fuel(match_UpdateOne_1, 1); reveal_with_fuel(rule_InsertData, 1);
                }
            }
        },
        SyntaxKind::DELETE_DATA => {
            proof {
                assert(call_ok(ks, start, p.st(), rank_DeleteData(peek_at(ks, p.st().pos)), rank_UpdateOne(peek_at(ks, start)))) by {
                    reveal(Parser::st);
                    assert(peek_at(ks, start) == old(p).peek());
                    assert(peek_at(ks, p.pos as int) == p.peek());
                }
            }
            parse_DeleteData(p);
            proof {
                assert(match_UpdateOne_1(ks, start, gm1, pre1) == (p.st(), false)) by {
                    reveal_with_fuel(match_UpdateOne_1, 1); reveal_with_fuel(rule_DeleteData, 1);
                }
            }
        },
        SyntaxKind::Eof => {
            p.close(marker, SyntaxKind::UpdateOne);
            let marker = p.open();
            let ghost gm2 = marker.index as int;
            p.close(marker, SyntaxKind::Error);
            proof {
                assert(match_UpdateOne_1(ks, start, gm1, pre1) == (p.st(), true)) by {
                    reveal_with_fuel(match_UpdateOne_1, 1);
                }
            }
            proof {
                assert(rule_UpdateOne(ks, s0) == p.st()) by {
                    reveal_with_fuel(rule_UpdateOne, 1); reveal_with_fuel(match_UpdateOne_1, 1);
                }
            }
            return ;
        },
        _ => {
            p.advance_with_error(vec![SyntaxKind::LOAD, SyntaxKind::CLEAR, SyntaxKind::DROP, SyntaxKind::ADD, SyntaxKind::MOVE, SyntaxKind::COPY, SyntaxKind::CREATE, SyntaxKind::DELETE_WHERE, SyntaxKind::WITH, SyntaxKind::DELETE, SyntaxKind::INSERT, SyntaxKind::INSERT_DATA, SyntaxKind::DELETE_DATA]);
            proof {
                assert(match_UpdateOne_1(ks, start, gm1, pre1) == (p.st(), false)) by {
                    reveal_with_fuel(match_UpdateOne_1, 1);
                }
            }
        },
    }
    p.close(marker, SyntaxKind::UpdateOne);
    proof {
        assert(rule_UpdateOne(ks, s0) == p.st()) by {
            reveal_with_fuel(rule_UpdateOne, 1); reveal_with_fuel(match_UpdateOne_1, 1);
        }
    }
}

pub open spec fn rank_Load(t: SyntaxKind) -> nat {
    match t {
        SyntaxKind::LOAD | SyntaxKind::SILENT => 0,
        SyntaxKind::PNAME_LN | SyntaxKind::PNAME_NS => 2,
        _ => 1,
    }
}

/// What [`parse_Load`] makes of the parser state.
#[verifier::opaque]
pub open spec fn rule_Load(ts: Seq<SyntaxKind>, s: St) -> St {
    let m_marker = s.evs.len() as int;
    let s = st_open(s);
    let s = st_expect(ts, s, SyntaxKind::LOAD);
    if (peek_at(ts, s.pos) == SyntaxKind::SILENT) {
        let s = st_expect(ts, s, SyntaxKind::SILENT);
        let s = rule_iri(ts, s);
        if (peek_at(ts, s.pos) == SyntaxKind::INTO) {
            let s = st_expect(ts, s, SyntaxKind::INTO);
            let s = rule_GraphRef(ts, s);
            let s = st_close(s, m_marker, SyntaxKind::Load);
            s
        } else {
            let s = st_close(s, m_marker, SyntaxKind::Load);
            s
        }
    } else {
        let s = rule_iri(ts, s);
        if (peek_at(ts, s.pos) == SyntaxKind::INTO) {
            let s = st_expect(ts, s, SyntaxKind::INTO);
            let s = rule_GraphRef(ts, s);
            let s = st_close(s, m_marker, SyntaxKind::Load);
            s
        } else {
            let s = st_close(s, m_marker, SyntaxKind::Load);
            s
        }
    }
}

/// [44] Load -> 'LOAD' 'SILENT'? iri ('INTO' GraphRef)?
pub(crate) fn parse_Load(p: &mut Parser)
    requires
        old(p).wf(),
    ensures
        Parser::step(*old(p), *final(p)),
        final(p).pos == old(p).pos ==> is_sync_point(old(p).peek()),
        old(p).events@.len() < final(p).events@.len(),
        final(p).events@[old(p).events@.len() as int] == (Event::Open { kind: SyntaxKind::Load }),
        final(p).events@.last() is Close,
        final(p).st() == rule_Load(old(p).kinds(), old(p).st()),
    decreases old(p).remaining(), rank_Load(old(p).peek()), 1int,
{
    let ghost ks = p.kinds();
    let ghost s0 = p.st();
    let marker = p.open();
    p.expect(SyntaxKind::LOAD);
    if p.at_any(&[SyntaxKind::SILENT]) {
        p.expect(SyntaxKind::SILENT);
    }
    parse_iri(p);
    if p.at_any(&[SyntaxKind::INTO]) {
        p.expect(SyntaxKind::INTO);
        parse_GraphRef(p);
    }
    p.close(marker, SyntaxKind::Load);
    proof {
        assert(p.st() == rule_Load(ks, s0)) by {
            reveal(rule_Load);
            reveal(Parser::st);
        }
    }
}

pub open spec fn rank_Clear(t: SyntaxKind) -> nat {
    match t {
        SyntaxKind::CLEAR | SyntaxKind::SILENT => 0,
        SyntaxKind::GRAPH => 2,
        _ => 1,
    }
}

/// What [`parse_Clear`] makes of the parser state.
#[verifier::opaque]
pub open spec fn rule_Clear(ts: Seq<SyntaxKind>, s: St) -> St {
    let m_marker = s.evs.len() as int;
    let s = st_open(s);
    let s = st_expect(ts, s, SyntaxKind::CLEAR);
    if (peek_at(ts, s.pos) == SyntaxKind::SILENT) {
        let s = st_expect(ts, s, SyntaxKind::SILENT);
        let s = rule_GraphRefAll(ts, s);
        let s = st_close(s, m_marker, SyntaxKind::Clear);
        s
    } else {
        let s = rule_GraphRefAll(ts, s);
        let s = st_close(s, m_marker, SyntaxKind::Clear);
        s
    }
}

/// [45] Clear -> 'CLEAR' 'SILENT'? GraphRefAll
pub(crate) fn parse_Clear(p: &mut Parser)
    requires
        old(p).wf(),
    ensures
        Parser::step(*old(p), *final(p)),
        final(p).pos == old(p).pos ==> is_sync_point(old(p).peek()),
        old(p).events@.len() < final(p).events@.len(),
        final(p).events@[old(p).events@.len() as int] == (Event::Open { kind: SyntaxKind::Clear }),
        final(p).events@.last() is Close,
        final(p).st() == rule_Clear(old(p).kinds(), old(p).st()),
    decreases old(p).remaining(), rank_Clear(old(p).peek()), 1int,
{
    let ghost ks = p.kinds();
    let ghost s0 = p.st();
    let marker = p.open();
    p.expect(SyntaxKind::CLEAR);
    if p.at_any(&[SyntaxKind::SILENT]) {
        p.expect(SyntaxKind::SILENT);
    }
    parse_GraphRefAll(p);
    p.close(marker, SyntaxKind::Clear);
    proof {
        assert(p.st() == rule_Clear(ks, s0)) by {
            reveal(rule_Clear);
            reveal(Parser::st);
        }
    }
}

pub open spec fn rank_Drop(t: SyntaxKind) -> nat {
    match t {
        SyntaxKind::DROP | SyntaxKind::SILENT => 0,
        SyntaxKind::GRAPH => 2,
        _ => 1,
    }
}

/// What [`parse_Drop`] makes of the parser state.
#[verifier::opaque]
pub open spec fn rule_Drop(ts: Seq<SyntaxKind>, s: St) -> St {
    let m_marker = s.evs.len() as int;
    let s = st_open(s);
    let s = st_expect(ts, s, SyntaxKind::DROP);
    if (peek_at(ts, s.pos) == SyntaxKind::SILENT) {
        let s = st_expect(ts, s, SyntaxKind::SILENT);
        let s = rule_GraphRefAll(ts, s);
        let s = st_close(s, m_marker, SyntaxKind::Drop);
        s
    } else {
        let s = rule_GraphRefAll(ts, s);
        let s = st_close(s, m_marker, SyntaxKind::Drop);
        s
    }
}

/// [46] Drop -> 'DROP' 'SILENT'? GraphRefAll
pub(crate) fn parse_Drop(p: &mut Parser)
    requires
        old(p).wf(),
    ensures
        Parser::step(*old(p), *final(p)),
        final(p).pos == old(p).pos ==> is_sync_point(old(p).peek()),
        old(p).events@.len() < final(p).events@.len(),
        final(p).events@[old(p).events@.len() as int] == (Event::Open { kind: SyntaxKind::Drop }),
        final(p).events@.last() is Close,
        final(p).st() == rule_Drop(old(p).kinds(), old(p).st()),
    decreases old(p).remaining(), rank_Drop(old(p).peek()), 1int,
{
    let ghost ks = p.kinds();
    let ghost s0 = p.st();
    let marker = p.open();
    p.expect(SyntaxKind::DROP);
    if p.at_any(&[SyntaxKind::SILENT]) {
        p.expect(SyntaxKind::SILENT);
    }
    parse_GraphRefAll(p);
    p.close(marker, SyntaxKind::Drop);
    proof {
        assert(p.st() == rule_Drop(ks, s0)) by {
            reveal(rule_Drop);
            reveal(Parser::st);
        }
    }
}

pub open spec fn rank_Add(t: SyntaxKind) -> nat {
    match t {
        SyntaxKind::ADD | SyntaxKind::SILENT => 0,
        SyntaxKind::IRIREF => 2,
        SyntaxKind::PNAME_LN | SyntaxKind::PNAME_NS => 3,
        _ => 1,
    }
}

/// What [`parse_Add`] makes of the parser state.
#[verifier::opaque]
pub open spec fn rule_Add(ts: Seq<SyntaxKind>, s: St) -> St {
    let m_marker = s.evs.len() as int;
    let s = st_open(s);
    let s = st_expect(ts, s, SyntaxKind::ADD);
    if (peek_at(ts, s.pos) == SyntaxKind::SILENT) {
        let s = st_expect(ts, s, SyntaxKind::SILENT);
        let s = rule_GraphOrDefault(ts, s);
        let s = st_expect(ts, s, SyntaxKind::TO);
        let s = rule_GraphOrDefault(ts, s);
        let s = st_close(s, m_marker, SyntaxKind::Add);
        s
    } else {
        let s = rule_GraphOrDefault(ts, s);
        let s = st_expect(ts, s, SyntaxKind::TO);
        let s = rule_GraphOrDefault(ts, s);
        let s = st_close(s, m_marker, SyntaxKind::Add);
        s
    }
}

/// [47] Add -> 'ADD' 'SILENT'? GraphOrDefault 'TO' GraphOrDefault
pub(crate) fn parse_Add(p: &mut Parser)
    requires
        old(p).wf(),
    ensures
        Parser::step(*old(p), *final(p)),
        final(p).pos == old(p).pos ==> is_sync_point(old(p).peek()),
        old(p).events@.len() < final(p).events@.len(),
        final(p).events@[old(p).events@.len() as int] == (Event::Open { kind: SyntaxKind::Add }),
        final(p).events@.last() is Close,
        final(p).st() == rule_Add(old(p).kinds(), old(p).st()),
    decreases old(p).remaining(), rank_Add(old(p).peek()), 1int,
{
    let ghost ks = p.kinds();
    let ghost s0 = p.st();
    let marker = p.open();
    p.expect(SyntaxKind::ADD);
    if p.at_any(&[SyntaxKind::SILENT]) {
        p.expect(SyntaxKind::SILENT);
    }
    parse_GraphOrDefault(p);
    p.expect(SyntaxKind::TO);
    parse_GraphOrDefault(p);
    p.close(marker, SyntaxKind::Add);
    proof {
        assert(p.st() == rule_Add(ks, s0)) by {
            reveal(rule_Add);
            reveal(Parser::st);
        }
    }
}

pub open spec fn rank_Move(t: SyntaxKind) -> nat {
    match t {
        SyntaxKind::MOVE | SyntaxKind::SILENT => 0,
        SyntaxKind::IRIREF => 2,
        SyntaxKind::PNAME_LN | SyntaxKind::PNAME_NS => 3,
        _ => 1,
    }
}

/// What [`parse_Move`] makes of the parser state.
#[verifier::opaque]
pub open spec fn rule_Move(ts: Seq<SyntaxKind>, s: St) -> St {
    let m_marker = s.evs.len() as int;
    let s = st_open(s);
    let s = st_expect(ts, s, SyntaxKind::MOVE);
    if (peek_at(ts, s.pos) == SyntaxKind::SILENT) {
        let s = st_expect(ts, s, SyntaxKind::SILENT);
        let s = rule_GraphOrDefault(ts, s);
        let s = st_expect(ts, s, SyntaxKind::TO);
        let s = rule_GraphOrDefault(ts, s);
        let s = st_close(s, m_marker, SyntaxKind::Move);
        s
    } else {
        let s = rule_GraphOrDefault(ts, s);
        let s = st_expect(ts, s, SyntaxKind::TO);
        let s = rule_GraphOrDefault(ts, s);
        let s = st_close(s, m_marker, SyntaxKind::Move);
        s
    }
}

/// [48] Move -> 'MOVE' 'SILENT'? GraphOrDefault 'TO' GraphOrDefault
pub(crate) fn parse_Move(p: &mut Parser)
    requires
        old(p).wf(),
    ensures
        Parser::step(*old(p), *final(p)),
        final(p).pos == old(p).pos ==> is_sync_point(old(p).peek()),
        old(p).events@.len() < final(p).events@.len(),
        final(p).events@[old(p).events@.len() as int] == (Event::Open { kind: SyntaxKind::Move }),
        final(p).events@.last() is Close,
        final(p).st() == rule_Move(old(p).kinds(), old(p).st()),
    decreases old(p).remaining(), rank_Move(old(p).peek()), 1int,
{
    let ghost ks = p.kinds();
    let ghost s0 = p.st();
    let marker = p.open();
    p.expect(SyntaxKind::MOVE);
    if p.at_any(&[SyntaxKind::SILENT]) {
        p.expect(SyntaxKind::SILENT);
    }
    parse_GraphOrDefault(p);
    p.expect(SyntaxKind::TO);
    parse_GraphOrDefault(p);
    p.close(marker, SyntaxKind::Move);
    proof {
        assert(p.st() == rule_Move(ks, s0)) by {
            reveal(rule_Move);
            reveal(Parser::st);
        }
    }
}

pub open spec fn rank_Copy(t: SyntaxKind) -> nat {
    match t {
        SyntaxKind::COPY | SyntaxKind::SILENT => 0,
        SyntaxKind::IRIREF => 2,
        SyntaxKind::PNAME_LN | SyntaxKind::PNAME_NS => 3,
        _ => 1,
    }
}

/// What [`parse_Copy`] makes of the parser state.
#[verifier::opaque]
pub open spec fn rule_Copy(ts: Seq<SyntaxKind>, s: St) -> St {
    let m_marker = s.evs.len() as int;
    let s = st_open(s);
    let s = st_expect(ts, s, SyntaxKind::COPY);
    if (peek_at(ts, s.pos) == SyntaxKind::SILENT) {
        let s = st_expect(ts, s, SyntaxKind::SILENT);
        let s = rule_GraphOrDefault(ts, s);
        let s = st_expect(ts, s, SyntaxKind::TO);
        let s = rule_GraphOrDefault(ts, s);
        let s = st_close(s, m_marker, SyntaxKind::Copy);
        s
    } else {
        let s = rule_GraphOrDefault(ts, s);
        let s = st_expect(ts, s, SyntaxKind::TO);
        let s = rule_GraphOrDefault(ts, s);
        let s = st_close(s, m_marker, SyntaxKind::Copy);
        s
    }
}

/// [49] Copy -> 'COPY' 'SILENT'? GraphOrDefault 'TO' GraphOrDefault
pub(crate) fn parse_Copy(p: &mut Parser)
    requires
        old(p).wf(),
    ensures
        Parser::step(*old(p), *final(p)),
        final(p).pos == old(p).pos ==> is_sync_point(old(p).peek()),
        old(p).events@.len() < final(p).events@.len(),
        final(p).events@[old(p).events@.len() as int] == (Event::Open { kind: SyntaxKind::Copy }),
        final(p).events@.last() is Close,
        final(p).st() == rule_Copy(old(p).kinds(), old(p).st()),
    decreases old(p).remaining(), rank_Copy(old(p).peek()), 1int,
{
    let ghost ks = p.kinds();
    let ghost s0 = p.st();
    let marker = p.open();
    p.expect(SyntaxKind::COPY);
    if p.at_any(&[SyntaxKind::SILENT]) {
        p.expect(SyntaxKind::SILENT);
    }
    parse_GraphOrDefault(p);
    p.expect(SyntaxKind::TO);
    parse_GraphOrDefault(p);
    p.close(marker, SyntaxKind::Copy);
    proof {
        assert(p.st() == rule_Copy(ks, s0)) by {
            reveal(rule_Copy);
            reveal(Parser::st);
        }
    }
}

pub open spec fn rank_Create(t: SyntaxKind) -> nat {
    match t {
        SyntaxKind::CREATE | SyntaxKind::SILENT => 0,
        SyntaxKind::GRAPH => 1,
        SyntaxKind::PNAME_LN | SyntaxKind::PNAME_NS => 3,
        _ => 2,
    }
}

/// What [`parse_Create`] makes of the parser state.
#[verifier::opaque]
pub open spec fn rule_Create(ts: Seq<SyntaxKind>, s: St) -> St {
    let m_marker = s.evs.len() as int;
    let s = st_open(s);
    let s = st_expect(ts, s, SyntaxKind::CREATE);
    if (peek_at(ts, s.pos) == SyntaxKind::SILENT) {
        let s = st_expect(ts, s, SyntaxKind::SILENT);
        let s = rule_GraphRef(ts, s);
        let s = st_close(s, m_marker, SyntaxKind::Create);
        s
    } else {
        let s = rule_GraphRef(ts, s);
        let s = st_close(s, m_marker, SyntaxKind::Create);
        s
    }
}

/// [50] Create -> 'CREATE' 'SILENT'? GraphRef
pub(crate) fn parse_Create(p: &mut Parser)
    requires
        old(p).wf(),
    ensures
        Parser::step(*old(p), *final(p)),
        final(p).pos == old(p).pos ==> is_sync_point(old(p).peek()),
        old(p).events@.len() < final(p).events@.len(),
        final(p).events@[old(p).events@.len() as int] == (Event::Open { kind: SyntaxKind::Create }),
        final(p).events@.last() is Close,
        final(p).st() == rule_Create(old(p).kinds(), old(p).st()),
    decreases old(p).remaining(), rank_Create(old(p).peek()), 1int,
{
    let ghost ks = p.kinds();
    let ghost s0 = p.st();
    let marker = p.open();
    p.expect(SyntaxKind::CREATE);
    if p.at_any(&[SyntaxKind::SILENT]) {
        p.expect(SyntaxKind::SILENT);
    }
    parse_GraphRef(p);
    p.close(marker, SyntaxKind::Create);
    proof {
        assert(p.st() == rule_Create(ks, s0)) by {
            reveal(rule_Create);
            reveal(Parser::st);
        }
    }
}

pub open spec fn rank_DeleteWhere(t: SyntaxKind) -> nat {
    match t {
        SyntaxKind::DELETE_WHERE => 0,
        SyntaxKind::LCurly => 1,
        SyntaxKind::GRAPH => 3,
        SyntaxKind::NIL => 5,
        SyntaxKind::ANON | SyntaxKind::BLANK_NODE_LABEL | SyntaxKind::DoubleLess | SyntaxKind::DoubleLessLParen | SyntaxKind::False | SyntaxKind::IRIREF | SyntaxKind::LBrack | SyntaxKind::LParen | SyntaxKind::True | SyntaxKind::VAR1 | SyntaxKind::VAR2 => 6,
        SyntaxKind::DECIMAL | SyntaxKind::DECIMAL_NEGATIVE | SyntaxKind::DECIMAL_POSITIVE | SyntaxKind::DOUBLE | SyntaxKind::DOUBLE_NEGATIVE | SyntaxKind::DOUBLE_POSITIVE | SyntaxKind::INTEGER | SyntaxKind::INTEGER_NEGATIVE | SyntaxKind::INTEGER_POSITIVE | SyntaxKind::PNAME_LN | SyntaxKind::PNAME_NS | SyntaxKind::STRING_LITERAL1 | SyntaxKind::STRING_LITERAL2 | SyntaxKind::STRING_LITERAL_LONG1 | SyntaxKind::STRING_LITERAL_LONG2 => 7,
        _ => 2,
    }
}

/// What [`parse_DeleteWhere`] makes of the parser state.
#[verifier::opaque]
pub open spec fn rule_DeleteWhere(ts: Seq<SyntaxKind>, s: St) -> St
    decreases ts.len() - s.pos, rank_DeleteWhere(peek_at(ts, s.pos)), 32 * (ts.len() - s.pos) + 32,
{
    let start = s.pos;
    let s_in = s;
    let m_marker = s.evs.len() as int;
    let s = st_open(s);
    let s = st_expect(ts, s, SyntaxKind::DELETE_WHERE);
    let s = if call_ok(ts, start, s, rank_QuadPattern(peek_at(ts, s.pos)), rank_DeleteWhere(peek_at(ts, start))) {
        rule_QuadPattern(ts, s)
    } else {
        s
    };
    let s = st_close(s, m_marker, SyntaxKind::DeleteWhere);
    s
}


/// [51] DeleteWhere -> 'DELETE_WHERE' QuadPattern
pub(crate) fn parse_DeleteWhere(p: &mut Parser)
    requires
        old(p).wf(),
    ensures
        Parser::step(*old(p), *final(p)),
        final(p).pos == old(p).pos ==> !(old(p).peek() == SyntaxKind::ANON || old(p).peek() == SyntaxKind::BLANK_NODE_LABEL || old(p).peek() == SyntaxKind::DECIMAL || old(p).peek() == SyntaxKind::DECIMAL_NEGATIVE || old(p).peek() == SyntaxKind::DECIMAL_POSITIVE || old(p).peek() == SyntaxKind::DELETE_WHERE || old(p).peek() == SyntaxKind::DOUBLE || old(p).peek() == SyntaxKind::DOUBLE_NEGATIVE || old(p).peek() == SyntaxKind::DOUBLE_POSITIVE || old(p).peek() == SyntaxKind::DoubleLess || old(p).peek() == SyntaxKind::DoubleLessLParen || old(p).peek() == SyntaxKind::False || old(p).peek() == SyntaxKind::INTEGER || old(p).peek() == SyntaxKind::INTEGER_NEGATIVE || old(p).peek() == SyntaxKind::INTEGER_POSITIVE || old(p).peek() == SyntaxKind::IRIREF || old(p).peek() == SyntaxKind::LBrack || old(p).peek() == SyntaxKind::LCurly || old(p).peek() == SyntaxKind::LParen || old(p).peek() == SyntaxKind::NIL || old(p).peek() == SyntaxKind::PNAME_LN || old(p).peek() == SyntaxKind::PNAME_NS || old(p).peek() == SyntaxKind::RCurly || old(p).peek() == SyntaxKind::STRING_LITERAL1 || old(p).peek() == SyntaxKind::STRING_LITERAL2 || old(p).peek() == SyntaxKind::STRING_LITERAL_LONG1 || old(p).peek() == SyntaxKind::STRING_LITERAL_LONG2 || old(p).peek() == SyntaxKind::True || old(p).peek() == SyntaxKind::VAR1 || old(p).peek() == SyntaxKind::VAR2),
        old(p).events@.len() < final(p).events@.len(),
        final(p).events@[old(p).events@.len() as int] == (Event::Open { kind: SyntaxKind::DeleteWhere }),
        final(p).events@.last() is Close,
        final(p).st() == rule_DeleteWhere(old(p).kinds(), old(p).st()),
    decreases old(p).remaining(), rank_DeleteWhere(old(p).peek()), 1int,
{
    let ghost ks = p.kinds();
    let ghost s0 = p.st();
    let ghost start = p.pos as int;
    let marker = p.open();
    let ghost gm1 = marker.index as int;
    p.expect(SyntaxKind::DELETE_WHERE);
    proof {
        assert(call_ok(ks, start, p.st(), rank_QuadPattern(peek_at(ks, p.st().pos)), rank_DeleteWhere(peek_at(ks, start)))) by {
            reveal(Parser::st);
            assert(peek_at(ks, start) == old(p).peek());
            assert(peek_at(ks, p.pos as int) == p.peek());
        }
    }
    parse_QuadPattern(p);
    p.close(marker, SyntaxKind::DeleteWhere);
    proof {
        assert(rule_DeleteWhere(ks, s0) == p.st()) by {
            reveal_with_fuel(rule_DeleteWhere, 1); reveal_with_fuel(rule_QuadPattern, 1);
        }
    }
}

pub open spec fn rank_Modify(t: SyntaxKind) -> nat {
    match t {
        SyntaxKind::DELETE | SyntaxKind::INSERT | SyntaxKind::LCurly | SyntaxKind::RCurly => 1,
        _ => 0,
    }
}

/// What [`parse_Modify`] makes of the parser state.
#[verifier::opaque]
pub open spec fn rule_Modify(ts: Seq<SyntaxKind>, s: St) -> St
    decreases ts.len() - s.pos, rank_Modify(peek_at(ts, s.pos)), 32 * (ts.len() - s.pos) + 32,
{
    let start = s.pos;
    let s_in = s;
    let m_marker = s.evs.len() as int;
    let s = st_open(s);
    let s = if s_in.pos <= s.pos <= ts.len() {
        if_Modify_1(ts, start, m_marker, s)
    } else {
        s
    };
    let (s, r) = if s_in.pos <= s.pos <= ts.len() {
        match_Modify_2(ts, start, m_marker, s)
    } else {
        (s, false)
    };
    if r {
        s
    } else {
        let s = if s_in.pos <= s.pos <= ts.len() {
            loop_Modify_4(ts, start, m_marker, s)
        } else {
            s
        };
        let s = st_expect(ts, s, SyntaxKind::WHERE);
        let s = if call_ok(ts, start, s, rank_GroupGraphPattern(peek_at(ts, s.pos)), rank_Modify(peek_at(ts, start))) {
            rule_GroupGraphPattern(ts, s)
        } else {
            s
        };
        let s = st_close(s, m_marker, SyntaxKind::Modify);
        s
    }
}

#[verifier::opaque]
pub open spec fn if_Modify_1(ts: Seq<SyntaxKind>, start: int, m_marker: int, s: St) -> St
    decreases ts.len() - start, rank_Modify(peek_at(ts, start)), 32 * (ts.len() - s.pos) + 32 - 1,
{
    let s_in = s;
    if (peek_at(ts, s.pos) == SyntaxKind::WITH) {
        let s = st_expect(ts, s, SyntaxKind::WITH);
        let s = rule_iri(ts, s);
        s
    } else {
        s
    }
}

#[verifier::opaque]
pub open spec fn if_Modify_3(ts: Seq<SyntaxKind>, start: int, m_marker: int, s: St) -> St
    decreases ts.len() - start, rank_Modify(peek_at(ts, start)), 32 * (ts.len() - s.pos) + 32 - 2,
{
    let s_in = s;
    if (peek_at(ts, s.pos) == SyntaxKind::INSERT) {
        let s = if call_ok(ts, start, s, rank_InsertClause(peek_at(ts, s.pos)), rank_Modify(peek_at(ts, start))) {
            rule_InsertClause(ts, s)
        } else {
            s
        };
        s
    } else {
        s
    }
}

#[verifier::opaque]
pub open spec fn match_Modify_2(ts: Seq<SyntaxKind>, start: int, m_marker: int, s: St) -> (St, bool)
    decreases ts.len() - start, rank_Modify(peek_at(ts, start)), 32 * (ts.len() - s.pos) + 32 - 1,
{
    let s_in = s;
    if (peek_at(ts, s.pos) == SyntaxKind::DELETE) {
        let s = if call_ok(ts, start, s, rank_DeleteClause(peek_at(ts, s.pos)), rank_Modify(peek_at(ts, start))) {
            rule_DeleteClause(ts, s)
        } else {
            s
        };
        let s = if s_in.pos <= s.pos <= ts.len() {
            if_Modify_3(ts, start, m_marker, s)
        } else {
            s
        };
        (s, false)
    } else if (peek_at(ts, s.pos) == SyntaxKind::INSERT) {
        let s = if call_ok(ts, start, s, rank_InsertClause(peek_at(ts, s.pos)), rank_Modify(peek_at(ts, start))) {
            rule_InsertClause(ts, s)
        } else {
            s
        };
        (s, false)
    } else if (peek_at(ts, s.pos) == SyntaxKind::Eof) {
        let s = st_close(s, m_marker, SyntaxKind::Modify);
        let m_marker = s.evs.len() as int;
        let s = st_open(s);
        let s = st_close(s, m_marker, SyntaxKind::Error);
        (s, true)
    } else {
        let s = st_advance_with_error(ts, s, seq![SyntaxKind::DELETE, SyntaxKind::INSERT]);
        (s, false)
    }
}

#[verifier::opaque]
pub open spec fn loop_Modify_4(ts: Seq<SyntaxKind>, start: int, m_marker: int, s: St) -> St
    decreases ts.len() - start, rank_Modify(peek_at(ts, start)), 32 * (ts.len() - s.pos) + 32 - 1,
{
    let s_in = s;
    if (peek_at(ts, s.pos) == SyntaxKind::USING) && s.pos <= ts.len() {
        let s1 = body_Modify_5(ts, start, m_marker, s);
        if s1.pos == s.pos {
            s1
        } else if s.pos < s1.pos <= ts.len() {
            loop_Modify_4(ts, start, m_marker, s1)
        } else {
            s1
        }
    } else {
        s
    }
}

#[verifier::opaque]
pub open spec fn body_Modify_5(ts: Seq<SyntaxKind>, start: int, m_marker: int, s: St) -> St
    decreases ts.len() - start, rank_Modify(peek_at(ts, start)), 32 * (ts.len() - s.pos) + 32 - 2,
{
    let s_in = s;
    let s = rule_UsingClause(ts, s);
    s
}

/// [52] Modify -> ('WITH' iri)? (DeleteClause InsertClause? | InsertClause) UsingClause* 'WHERE' GroupGraphPattern
#[verifier::rlimit(100)]
#[verifier::spinoff_prover]
pub(crate) fn parse_Modify(p: &mut Parser)
    requires
        old(p).wf(),
    ensures
        Parser::step(*old(p), *final(p)),
        final(p).pos == old(p).pos ==> (old(p).peek() == SyntaxKind::Eof),
        old(p).events@.len() < final(p).events@.len(),
        final(p).events@[old(p).events@.len() as int] == (Event::Open { kind: SyntaxKind::Modify }),
        final(p).events@.last() is Close,
        final(p).st() == rule_Modify(old(p).kinds(), old(p).st()),
    decreases old(p).remaining(), rank_Modify(old(p).peek()), 1int,
{
    let ghost ks = p.kinds();
    let ghost s0 = p.st();
    let ghost start = p.pos as int;
    let marker = p.open();
    let ghost gm1 = marker.index as int;
    let ghost pre1 = p.st();
    if p.at_any(&[SyntaxKind::WITH]) {
        p.expect(SyntaxKind::WITH);
        parse_iri(p);
        proof {
            assert(if_Modify_1(ks, start, gm1, pre1) == p.st()) by {
                reveal_with_fuel(if_Modify_1, 1);
            }
        }
    } else {
        proof {
            assert(if_Modify_1(ks, start, gm1, pre1) == p.st()) by {
                reveal_with_fuel(if_Modify_1, 1);
            }
        }
    }
    let ghost pre2 = p.st();
    match p.nth(0) {
        SyntaxKind::DELETE => {
            proof {
                assert(call_ok(ks, start, p.st(), rank_DeleteClause(peek_at(ks, p.st().pos)), rank_Modify(peek_at(ks, start)))) by {
                    reveal(Parser::st);
                    assert(peek_at(ks, start) == old(p).peek());
                    assert(peek_at(ks, p.pos as int) == p.peek());
                }
            }
            parse_DeleteClause(p);
            let ghost pre3 = p.st();
            if p.at_any(&[SyntaxKind::INSERT]) {
                proof {
                    assert(call_ok(ks, start, p.st(), rank_InsertClause(peek_at(ks, p.st().pos)), rank_Modify(peek_at(ks, start)))) by {
                        reveal(Parser::st);
                        assert(peek_at(ks, start) == old(p).peek());
                        assert(peek_at(ks, p.pos as int) == p.peek());
                    }
                }
                parse_InsertClause(p);
                proof {
                    assert(if_Modify_3(ks, start, gm1, pre3) == p.st()) by {
                        reveal_with_fuel(if_Modify_3, 1); reveal_with_fuel(rule_InsertClause, 1);
                    }
                }
            } else {
                proof {
                    assert(if_Modify_3(ks, start, gm1, pre3) == p.st()) by {
                        reveal_with_fuel(if_Modify_3, 1);
                    }
                }
            }
            proof {
                assert(match_Modify_2(ks, start, gm1, pre2) == (p.st(), false)) by {
                    reveal_with_fuel(match_Modify_2, 1); reveal_with_fuel(if_Modify_3, 1); reveal_with_fuel(rule_DeleteClause, 1);
                }
            }
        },
        SyntaxKind::INSERT => {
            proof {
                assert(call_ok(ks, start, p.st(), rank_InsertClause(peek_at(ks, p.st().pos)), rank_Modify(peek_at(ks, start)))) by {
                    reveal(Parser::st);
                    assert(peek_at(ks, start) == old(p).peek());
                    assert(peek_at(ks, p.pos as int) == p.peek());
                }
            }
            parse_InsertClause(p);
            proof {
                assert(match_Modify_2(ks, start, gm1, pre2) == (p.st(), false)) by {
                    reveal_with_fuel(match_Modify_2, 1); reveal_with_fuel(rule_InsertClause, 1);
                }
            }
        },
        SyntaxKind::Eof => {
            p.close(marker, SyntaxKind::Modify);
            let marker = p.open();
            let ghost gm2 = marker.index as int;
            p.close(marker, SyntaxKind::Error);
            proof {
                assert(match_Modify_2(ks, start, gm1, pre2) == (p.st(), true)) by {
                    reveal_with_fuel(match_Modify_2, 1);
                }
            }
            proof {
                assert(rule_Modify(ks, s0) == p.st()) by {
                    reveal_with_fuel(rule_Modify, 1); reveal_with_fuel(if_Modify_1, 1); reveal_with_fuel(loop_Modify_4, 1); reveal_with_fuel(match_Modify_2, 1); reveal_with_fuel(rule_GroupGraphPattern, 1);
                }
            }
            return ;
        },
        _ => {
            p.advance_with_error(vec![SyntaxKind::DELETE, SyntaxKind::INSERT]);
            proof {
                assert(match_Modify_2(ks, start, gm1, pre2) == (p.st(), false)) by {
                    reveal_with_fuel(match_Modify_2, 1);
                }
            }
        },
    }
    let ghost pre4 = p.st();
    proof {
        assert(p.st().pos == p.pos as int) by {
            reveal(Parser::st);
        }
        if !(peek_at(ks, p.st().pos) == SyntaxKind::USING) {
            assert(loop_Modify_4(ks, start, gm1, pre4) == pre4) by {
                reveal_with_fuel(loop_Modify_4, 1); reveal_with_fuel(body_Modify_5, 1);
            }
        }
    }
    while p.at_any(&[SyntaxKind::USING])
        invariant
            marker.index == old(p).events@.len(),
            p.wf(),
            p.tokens@ == old(p).tokens@,
            old(p).pos <= p.pos,
            p.stack() == old(p).stack().push(marker.index as int),
            p.pos == old(p).pos ==> (old(p).peek() == SyntaxKind::LCurly || old(p).peek() == SyntaxKind::RCurly || old(p).peek() == SyntaxKind::WHERE),
            ks == p.kinds(),
            p.st().pos == p.pos as int,
            start == old(p).pos as int,
            gm1 == marker.index as int,
            pre4.pos <= p.pos,
            start <= pre4.pos,
            loop_Modify_4(ks, start, gm1, p.st()) == loop_Modify_4(ks, start, gm1, pre4),
            !(peek_at(ks, p.st().pos) == SyntaxKind::USING) ==> loop_Modify_4(ks, start, gm1, p.st()) == p.st(),
        ensures
            loop_Modify_4(ks, start, gm1, pre4) == p.st(),
        decreases p.remaining(),
    {
        let ghost si4 = p.st();
        let checkpoint1 = p.pos();
        parse_UsingClause(p);
        proof {
            assert(body_Modify_5(ks, start, gm1, si4) == p.st()) by {
                reveal_with_fuel(body_Modify_5, 1);
            }
        }
        if p.pos() == checkpoint1 {
            proof {
                assert(loop_Modify_4(ks, start, gm1, si4) == p.st()) by {
                    reveal_with_fuel(loop_Modify_4, 1); reveal_with_fuel(body_Modify_5, 1);
                }
            }
            break;
        }
        proof {
            assert(p.st().pos == p.pos as int) by {
                reveal(Parser::st);
            }
            assert(loop_Modify_4(ks, start, gm1, si4) == loop_Modify_4(ks, start, gm1, p.st())) by {
                reveal_with_fuel(loop_Modify_4, 1); reveal_with_fuel(body_Modify_5, 1);
                reveal(Parser::st);
            }
            if !(peek_at(ks, p.st().pos) == SyntaxKind::USING) {
                assert(loop_Modify_4(ks, start, gm1, p.st()) == p.st()) by {
                    reveal_with_fuel(loop_Modify_4, 1); reveal_with_fuel(body_Modify_5, 1);
                }
            }
        }
    }
    p.expect(SyntaxKind::WHERE);
    proof {
        assert(call_ok(ks, start, p.st(), rank_GroupGraphPattern(peek_at(ks, p.st().pos)), rank_Modify(peek_at(ks, start)))) by {
            reveal(Parser::st);
            assert(peek_at(ks, start) == old(p).peek());
            assert(peek_at(ks, p.pos as int) == p.peek());
        }
    }
    parse_GroupGraphPattern(p);
    p.close(marker, SyntaxKind::Modify);
    proof {
        assert(rule_Modify(ks, s0) == p.st()) by {
            reveal_with_fuel(rule_Modify, 1); reveal_with_fuel(if_Modify_1, 1); reveal_with_fuel(loop_Modify_4, 1); reveal_with_fuel(match_Modify_2, 1); reveal_with_fuel(rule_GroupGraphPattern, 1);
        }
    }
}

pub open spec fn rank_InsertData(t: SyntaxKind) -> nat {
    match t {
        SyntaxKind::INSERT_DATA => 0,
        SyntaxKind::LCurly => 1,
        SyntaxKind::GRAPH => 3,
        SyntaxKind::NIL => 5,
        SyntaxKind::ANON | SyntaxKind::BLANK_NODE_LABEL | SyntaxKind::DoubleLess | SyntaxKind::DoubleLessLParen | SyntaxKind::False | SyntaxKind::IRIREF | SyntaxKind::LBrack | SyntaxKind::LParen | SyntaxKind::True | SyntaxKind::VAR1 | SyntaxKind::VAR2 => 6,
        SyntaxKind::DECIMAL | SyntaxKind::DECIMAL_NEGATIVE | SyntaxKind::DECIMAL_POSITIVE | SyntaxKind::DOUBLE | SyntaxKind::DOUBLE_NEGATIVE | SyntaxKind::DOUBLE_POSITIVE | SyntaxKind::INTEGER | SyntaxKind::INTEGER_NEGATIVE | SyntaxKind::INTEGER_POSITIVE | SyntaxKind::PNAME_LN | SyntaxKind::PNAME_NS | SyntaxKind::STRING_LITERAL1 | SyntaxKind::STRING_LITERAL2 | SyntaxKind::STRING_LITERAL_LONG1 | SyntaxKind::STRING_LITERAL_LONG2 => 7,
        _ => 2,
    }
}

/// What [`parse_InsertData`] makes of the parser state.
#[verifier::opaque]
pub open spec fn rule_InsertData(ts: Seq<SyntaxKind>, s: St) -> St
    decreases ts.len() - s.pos, rank_InsertData(peek_at(ts, s.pos)), 32 * (ts.len() - s.pos) + 32,
{
    let start = s.pos;
    let s_in = s;
    let m_marker = s.evs.len() as int;
    let s = st_open(s);
    let s = st_expect(ts, s, SyntaxKind::INSERT_DATA);
    let s = if call_ok(ts, start, s, rank_QuadData(peek_at(ts, s.pos)), rank_InsertData(peek_at(ts, start))) {
        rule_QuadData(ts, s)
    } else {
        s
    };
    let s = st_close(s, m_marker, SyntaxKind::InsertData);
    s
}


/// [53] InsertData -> 'INSERT_DATA' QuadData
pub(crate) fn parse_InsertData(p: &mut Parser)
    requires
        old(p).wf(),
    ensures
        Parser::step(*old(p), *final(p)),
        final(p).pos == old(p).pos ==> !(old(p).peek() == SyntaxKind::ANON || old(p).peek() == SyntaxKind::BLANK_NODE_LABEL || old(p).peek() == SyntaxKind::DECIMAL || old(p).peek() == SyntaxKind::DECIMAL_NEGATIVE || old(p).peek() == SyntaxKind::DECIMAL_POSITIVE || old(p).peek() == SyntaxKind::DOUBLE || old(p).peek() == SyntaxKind::DOUBLE_NEGATIVE || old(p).peek() == SyntaxKind::DOUBLE_POSITIVE || old(p).peek() == SyntaxKind::DoubleLess || old(p).peek() == SyntaxKind::DoubleLessLParen || old(p).peek() == SyntaxKind::False || old(p).peek() == SyntaxKind::INSERT_DATA || old(p).peek() == SyntaxKind::INTEGER || old(p).peek() == SyntaxKind::INTEGER_NEGATIVE || old(p).peek() == SyntaxKind::INTEGER_POSITIVE || old(p).peek() == SyntaxKind::IRIREF || old(p).peek() == SyntaxKind::LBrack || old(p).peek() == SyntaxKind::LCurly || old(p).peek() == SyntaxKind::LParen || old(p).peek() == SyntaxKind::NIL || old(p).peek() == SyntaxKind::PNAME_LN || old(p).peek() == SyntaxKind::PNAME_NS || old(p).peek() == SyntaxKind::RCurly || old(p).peek() == SyntaxKind::STRING_LITERAL1 || old(p).peek() == SyntaxKind::STRING_LITERAL2 || old(p).peek() == SyntaxKind::STRING_LITERAL_LONG1 || old(p).peek() == SyntaxKind::STRING_LITERAL_LONG2 || old(p).peek() == SyntaxKind::True || old(p).peek() == SyntaxKind::VAR1 || old(p).peek() == SyntaxKind::VAR2),
        old(p).events@.len() < final(p).events@.len(),
        final(p).events@[old(p).events@.len() as int] == (Event::Open { kind: SyntaxKind::InsertData }),
        final(p).events@.last() is Close,
        final(p).st() == rule_InsertData(old(p).kinds(), old(p).st()),
    decreases old(p).remaining(), rank_InsertData(old(p).peek()), 1int,
{
    let ghost ks = p.kinds();
    let ghost s0 = p.st();
    let ghost start = p.pos as int;
    let marker = p.open();
    let ghost gm1 = marker.index as int;
    p.expect(SyntaxKind::INSERT_DATA);
    proof {
        assert(call_ok(ks, start, p.st(), rank_QuadData(peek_at(ks, p.st().pos)), rank_InsertData(peek_at(ks, start)))) by {
            reveal(Parser::st);
            assert(peek_at(ks, start) == old(p).peek());
            assert(peek_at(ks, p.pos as int) == p.peek());
        }
    }
    parse_QuadData(p);
    p.close(marker, SyntaxKind::InsertData);
    proof {
        assert(rule_InsertData(ks, s0) == p.st()) by {
            reveal_with_fuel(rule_InsertData, 1); reveal_with_fuel(rule_QuadData, 1);
        }
    }
}

pub open spec fn rank_DeleteData(t: SyntaxKind) -> nat {
    match t {
        SyntaxKind::DELETE_DATA => 0,
        SyntaxKind::LCurly => 1,
        SyntaxKind::GRAPH => 3,
        SyntaxKind::NIL => 5,
        SyntaxKind::ANON | SyntaxKind::BLANK_NODE_LABEL | SyntaxKind::DoubleLess | SyntaxKind::DoubleLessLParen | SyntaxKind::False | SyntaxKind::IRIREF | SyntaxKind::LBrack | SyntaxKind::LParen | SyntaxKind::True | SyntaxKind::VAR1 | SyntaxKind::VAR2 => 6,
        SyntaxKind::DECIMAL | SyntaxKind::DECIMAL_NEGATIVE | SyntaxKind::DECIMAL_POSITIVE | SyntaxKind::DOUBLE | SyntaxKind::DOUBLE_NEGATIVE | SyntaxKind::DOUBLE_POSITIVE | SyntaxKind::INTEGER | SyntaxKind::INTEGER_NEGATIVE | SyntaxKind::INTEGER_POSITIVE | SyntaxKind::PNAME_LN | SyntaxKind::PNAME_NS | SyntaxKind::STRING_LITERAL1 | SyntaxKind::STRING_LITERAL2 | SyntaxKind::STRING_LITERAL_LONG1 | SyntaxKind::STRING_LITERAL_LONG2 => 7,
        _ => 2,
    }
}

/// What [`parse_DeleteData`] makes of the parser state.
#[verifier::opaque]
pub open spec fn rule_DeleteData(ts: Seq<SyntaxKind>, s: St) -> St
    decreases ts.len() - s.pos, rank_DeleteData(peek_at(ts, s.pos)), 32 * (ts.len() - s.pos) + 32,
{
    let start = s.pos;
    let s_in = s;
    let m_marker = s.evs.len() as int;
    let s = st_open(s);
    let s = st_expect(ts, s, SyntaxKind::DELETE_DATA);
    let s = if call_ok(ts, start, s, rank_QuadData(peek_at(ts, s.pos)), rank_DeleteData(peek_at(ts, start))) {
        rule_QuadData(ts, s)
    } else {
        s
    };
    let s = st_close(s, m_marker, SyntaxKind::DeleteData);
    s
}


/// [54] DeleteData -> 'DELETE_DATA' QuadData
pub(crate) fn parse_DeleteData(p: &mut Parser)
    requires
        old(p).wf(),
    ensures
        Parser::step(*old(p), *final(p)),
        final(p).pos == old(p).pos ==> !(old(p).peek() == SyntaxKind::ANON || old(p).peek() == SyntaxKind::BLANK_NODE_LABEL || old(p).peek() == SyntaxKind::DECIMAL || old(p).peek() == SyntaxKind::DECIMAL_NEGATIVE || old(p).peek() == SyntaxKind::DECIMAL_POSITIVE || old(p).peek() == SyntaxKind::DELETE_DATA || old(p).peek() == SyntaxKind::DOUBLE || old(p).peek() == SyntaxKind::DOUBLE_NEGATIVE || old(p).peek() == SyntaxKind::DOUBLE_POSITIVE || old(p).peek() == SyntaxKind::DoubleLess || old(p).peek() == SyntaxKind::DoubleLessLParen || old(p).peek() == SyntaxKind::False || old(p).peek() == SyntaxKind::INTEGER || old(p).peek() == SyntaxKind::INTEGER_NEGATIVE || old(p).peek() == SyntaxKind::INTEGER_POSITIVE || old(p).peek() == SyntaxKind::IRIREF || old(p).peek() == SyntaxKind::LBrack || old(p).peek() == SyntaxKind::LCurly || old(p).peek() == SyntaxKind::LParen || old(p).peek() == SyntaxKind::NIL || old(p).peek() == SyntaxKind::PNAME_LN || old(p).peek() == SyntaxKind::PNAME_NS || old(p).peek() == SyntaxKind::RCurly || old(p).peek() == SyntaxKind::STRING_LITERAL1 || old(p).peek() == SyntaxKind::STRING_LITERAL2 || old(p).peek() == SyntaxKind::STRING_LITERAL_LONG1 || old(p).peek() == SyntaxKind::STRING_LITERAL_LONG2 || old(p).peek() == SyntaxKind::True || old(p).peek() == SyntaxKind::VAR1 || old(p).peek() == SyntaxKind::VAR2),
        old(p).events@.len() < final(p).events@.len(),
        final(p).events@[old(p).events@.len() as int] == (Event::Open { kind: SyntaxKind::DeleteData }),
        final(p).events@.last() is Close,
        final(p).st() == rule_DeleteData(old(p).kinds(), old(p).st()),
    decreases old(p).remaining(), rank_DeleteData(old(p).peek()), 1int,
{
    let ghost ks = p.kinds();
    let ghost s0 = p.st();
    let ghost start = p.pos as int;
    let marker = p.open();
    let ghost gm1 = marker.index as int;
    p.expect(SyntaxKind::DELETE_DATA);
    proof {
        assert(call_ok(ks, start, p.st(), rank_QuadData(peek_at(ks, p.st().pos)), rank_DeleteData(peek_at(ks, start)))) by {
            reveal(Parser::st);
            assert(peek_at(ks, start) == old(p).peek());
            assert(peek_at(ks, p.pos as int) == p.peek());
        }
    }
    parse_QuadData(p);
    p.close(marker, SyntaxKind::DeleteData);
    proof {
        assert(rule_DeleteData(ks, s0) == p.st()) by {
            reveal_with_fuel(rule_DeleteData, 1); reveal_with_fuel(rule_QuadData, 1);
        }
    }
}

pub open spec fn rank_GraphRef(t: SyntaxKind) -> nat {
    match t {
        SyntaxKind::GRAPH => 0,
        SyntaxKind::PNAME_LN | SyntaxKind::PNAME_NS => 2,
        _ => 1,
    }
}

/// What [`parse_GraphRef`] makes of the parser state.
#[verifier::opaque]
pub open spec fn rule_GraphRef(ts: Seq<SyntaxKind>, s: St) -> St {
    let m_marker = s.evs.len() as int;
    let s = st_open(s);
    let s = st_expect(ts, s, SyntaxKind::GRAPH);
    let s = rule_iri(ts, s);
    let s = st_close(s, m_marker, SyntaxKind::GraphRef);
    s
}

/// [55] GraphRef -> 'GRAPH' iri
pub(crate) fn parse_GraphRef(p: &mut Parser)
    requires
        old(p).wf(),
    ensures
        Parser::step(*old(p), *final(p)),
        final(p).pos == old(p).pos ==> is_sync_point(old(p).peek()),
        old(p).events@.len() < final(p).events@.len(),
        final(p).events@[old(p).events@.len() as int] == (Event::Open { kind: SyntaxKind::GraphRef }),
        final(p).events@.last() is Close,
        final(p).st() == rule_GraphRef(old(p).kinds(), old(p).st()),
    decreases old(p).remaining(), rank_GraphRef(old(p).peek()), 1int,
{
    let ghost ks = p.kinds();
    let ghost s0 = p.st();
    let marker = p.open();
    p.expect(SyntaxKind::GRAPH);
    parse_iri(p);
    p.close(marker, SyntaxKind::GraphRef);
    proof {
        assert(p.st() == rule_GraphRef(ks, s0)) by {
            reveal(rule_GraphRef);
            reveal(Parser::st);
        }
    }
}

pub open spec fn rank_GraphRefAll(t: SyntaxKind) -> nat {
    match t {
        SyntaxKind::GRAPH => 1,
        _ => 0,
    }
}

/// What [`parse_GraphRefAll`] makes of the parser state.
#[verifier::opaque]
pub open spec fn rule_GraphRefAll(ts: Seq<SyntaxKind>, s: St) -> St {
    let m_marker = s.evs.len() as int;
    let s = st_open(s);
    if (peek_at(ts, s.pos) == SyntaxKind::GRAPH) {
        let s = rule_GraphRef(ts, s);
        let s = st_close(s, m_marker, SyntaxKind::GraphRefAll);
        s
    } else if (peek_at(ts, s.pos) == SyntaxKind::DEFAULT) {
        let s = st_expect(ts, s, SyntaxKind::DEFAULT);
        let s = st_close(s, m_marker, SyntaxKind::GraphRefAll);
        s
    } else if (peek_at(ts, s.pos) == SyntaxKind::NAMED) {
        let s = st_expect(ts, s, SyntaxKind::NAMED);
        let s = st_close(s, m_marker, SyntaxKind::GraphRefAll);
        s
    } else if (peek_at(ts, s.pos) == SyntaxKind::ALL) {
        let s = st_expect(ts, s, SyntaxKind::ALL);
        let s = st_close(s, m_marker, SyntaxKind::GraphRefAll);
        s
    } else if (peek_at(ts, s.pos) == SyntaxKind::Eof) {
        let s = st_close(s, m_marker, SyntaxKind::GraphRefAll);
        let m_marker = s.evs.len() as int;
        let s = st_open(s);
        let s = st_close(s, m_marker, SyntaxKind::Error);
        s
    } else {
        let s = st_advance_with_error(ts, s, seq![SyntaxKind::GRAPH, SyntaxKind::DEFAULT, SyntaxKind::NAMED, SyntaxKind::ALL]);
        let s = st_close(s, m_marker, SyntaxKind::GraphRefAll);
        s
    }
}

/// [56] GraphRefAll -> GraphRef | 'DEFAULT' | 'NAMED' | 'ALL'
pub(crate) fn parse_GraphRefAll(p: &mut Parser)
    requires
        old(p).wf(),
    ensures
        Parser::step(*old(p), *final(p)),
        final(p).pos == old(p).pos ==> is_sync_point(old(p).peek()),
        old(p).events@.len() < final(p).events@.len(),
        final(p).events@[old(p).events@.len() as int] == (Event::Open { kind: SyntaxKind::GraphRefAll }),
        final(p).events@.last() is Close,
        final(p).st() == rule_GraphRefAll(old(p).kinds(), old(p).st()),
    decreases old(p).remaining(), rank_GraphRefAll(old(p).peek()), 1int,
{
    let ghost ks = p.kinds();
    let ghost s0 = p.st();
    let marker = p.open();
    match p.nth(0) {
        SyntaxKind::GRAPH => {
            parse_GraphRef(p);
        },
        SyntaxKind::DEFAULT => {
            p.expect(SyntaxKind::DEFAULT);
        },
        SyntaxKind::NAMED => {
            p.expect(SyntaxKind::NAMED);
        },
        SyntaxKind::ALL => {
            p.expect(SyntaxKind::ALL);
        },
        SyntaxKind::Eof => {
            p.close(marker, SyntaxKind::GraphRefAll);
            let marker = p.open();
            p.close(marker, SyntaxKind::Error);
            proof {
                assert(p.st() == rule_GraphRefAll(ks, s0)) by {
                    reveal(rule_GraphRefAll);
                    reveal(Parser::st);
                }
            }
            return ;
        },
        _ => {
            p.advance_with_error(vec![SyntaxKind::GRAPH, SyntaxKind::DEFAULT, SyntaxKind::NAMED, SyntaxKind::ALL]);
        },
    }
    p.close(marker, SyntaxKind::GraphRefAll);
    proof {
        assert(p.st() == rule_GraphRefAll(ks, s0)) by {
            reveal(rule_GraphRefAll);
            reveal(Parser::st);
        }
    }
}

pub open spec fn rank_GraphOrDefault(t: SyntaxKind) -> nat {
    match t {
        SyntaxKind::IRIREF => 1,
        SyntaxKind::PNAME_LN | SyntaxKind::PNAME_NS => 2,
        _ => 0,
    }
}

/// What [`parse_GraphOrDefault`] makes of the parser state.
#[verifier::opaque]
pub open spec fn rule_GraphOrDefault(ts: Seq<SyntaxKind>, s: St) -> St {
    let m_marker = s.evs.len() as int;
    let s = st_open(s);
    if (peek_at(ts, s.pos) == SyntaxKind::DEFAULT) {
        let s = st_expect(ts, s, SyntaxKind::DEFAULT);
        let s = st_close(s, m_marker, SyntaxKind::GraphOrDefault);
        s
    } else if (peek_at(ts, s.pos) == SyntaxKind::IRIREF || peek_at(ts, s.pos) == SyntaxKind::PNAME_NS || peek_at(ts, s.pos) == SyntaxKind::GRAPH || peek_at(ts, s.pos) == SyntaxKind::PNAME_LN) {
        if (peek_at(ts, s.pos) == SyntaxKind::GRAPH) {
            let s = st_expect(ts, s, SyntaxKind::GRAPH);
            let s = rule_iri(ts, s);
            let s = st_close(s, m_marker, SyntaxKind::GraphOrDefault);
            s
        } else {
            let s = rule_iri(ts, s);
            let s = st_close(s, m_marker, SyntaxKind::GraphOrDefault);
            s
        }
    } else if (peek_at(ts, s.pos) == SyntaxKind::Eof) {
        let s = st_close(s, m_marker, SyntaxKind::GraphOrDefault);
        let m_marker = s.evs.len() as int;
        let s = st_open(s);
        let s = st_close(s, m_marker, SyntaxKind::Error);
        s
    } else {
        let s = st_advance_with_error(ts, s, seq![SyntaxKind::DEFAULT, SyntaxKind::IRIREF, SyntaxKind::PNAME_NS, SyntaxKind::GRAPH, SyntaxKind::PNAME_LN]);
        let s = st_close(s, m_marker, SyntaxKind::GraphOrDefault);
        s
    }
}

/// [57] GraphOrDefault -> 'DEFAULT' | 'GRAPH'? iri
pub(crate) fn parse_GraphOrDefault(p: &mut Parser)
    requires
        old(p).wf(),
    ensures
        Parser::step(*old(p), *final(p)),
        final(p).pos == old(p).pos ==> is_sync_point(old(p).peek()),
        old(p).events@.len() < final(p).events@.len(),
        final(p).events@[old(p).events@.len() as int] == (Event::Open { kind: SyntaxKind::GraphOrDefault }),
        final(p).events@.last() is Close,
        final(p).st() == rule_GraphOrDefault(old(p).kinds(), old(p).st()),
    decreases old(p).remaining(), rank_GraphOrDefault(old(p).peek()), 1int,
{
    let ghost ks = p.kinds();
    let ghost s0 = p.st();
    let marker = p.open();
    match p.nth(0) {
        SyntaxKind::DEFAULT => {
            p.expect(SyntaxKind::DEFAULT);
        },
        SyntaxKind::IRIREF | SyntaxKind::PNAME_NS | SyntaxKind::GRAPH | SyntaxKind::PNAME_LN => {
            if p.at_any(&[SyntaxKind::GRAPH]) {
                p.expect(SyntaxKind::GRAPH);
            }
            parse_iri(p);
        },
        SyntaxKind::Eof => {
            p.close(marker, SyntaxKind::GraphOrDefault);
            let marker = p.open();
            p.close(marker, SyntaxKind::Error);
            proof {
                assert(p.st() == rule_GraphOrDefault(ks, s0)) by {
                    reveal(rule_GraphOrDefault);
                    reveal(Parser::st);
                }
            }
            return ;
        },
        _ => {
            p.advance_with_error(vec![SyntaxKind::DEFAULT, SyntaxKind::IRIREF, SyntaxKind::PNAME_NS, SyntaxKind::GRAPH, SyntaxKind::PNAME_LN]);
        },
    }
    p.close(marker, SyntaxKind::GraphOrDefault);
    proof {
        assert(p.st() == rule_GraphOrDefault(ks, s0)) by {
            reveal(rule_GraphOrDefault);
            reveal(Parser::st);
        }
    }
}

pub open spec fn rank_QuadData(t: SyntaxKind) -> nat {
    match t {
        SyntaxKind::LCurly => 0,
        SyntaxKind::GRAPH => 2,
        SyntaxKind::NIL => 4,
        SyntaxKind::ANON | SyntaxKind::BLANK_NODE_LABEL | SyntaxKind::DoubleLess | SyntaxKind::DoubleLessLParen | SyntaxKind::False | SyntaxKind::IRIREF | SyntaxKind::LBrack | SyntaxKind::LParen | SyntaxKind::True | SyntaxKind::VAR1 | SyntaxKind::VAR2 => 5,
        SyntaxKind::DECIMAL | SyntaxKind::DECIMAL_NEGATIVE | SyntaxKind::DECIMAL_POSITIVE | SyntaxKind::DOUBLE | SyntaxKind::DOUBLE_NEGATIVE | SyntaxKind::DOUBLE_POSITIVE | SyntaxKind::INTEGER | SyntaxKind::INTEGER_NEGATIVE | SyntaxKind::INTEGER_POSITIVE | SyntaxKind::PNAME_LN | SyntaxKind::PNAME_NS | SyntaxKind::STRING_LITERAL1 | SyntaxKind::STRING_LITERAL2 | SyntaxKind::STRING_LITERAL_LONG1 | SyntaxKind::STRING_LITERAL_LONG2 => 6,
        _ => 1,
    }
}

/// What [`parse_QuadData`] makes of the parser state.
#[verifier::opaque]
pub open spec fn rule_QuadData(ts: Seq<SyntaxKind>, s: St) -> St
    decreases ts.len() - s.pos, rank_QuadData(peek_at(ts, s.pos)), 32 * (ts.len() - s.pos) + 32,
{
    let start = s.pos;
    let s_in = s;
    let m_marker = s.evs.len() as int;
    let s = st_open(s);
    let s = st_expect(ts, s, SyntaxKind::LCurly);
    let s = if call_ok(ts, start, s, rank_Quads(peek_at(ts, s.pos)), rank_QuadData(peek_at(ts, start))) {
        rule_Quads(ts, s)
    } else {
        s
    };
    let s = st_expect(ts, s, SyntaxKind::RCurly);
    let s = st_close(s, m_marker, SyntaxKind::QuadData);
    s
}


/// [58] QuadData -> '{' Quads '}'
pub(crate) fn parse_QuadData(p: &mut Parser)
    requires
        old(p).wf(),
    ensures
        Parser::step(*old(p), *final(p)),
        final(p).pos == old(p).pos ==> !(old(p).peek() == SyntaxKind::ANON || old(p).peek() == SyntaxKind::BLANK_NODE_LABEL || old(p).peek() == SyntaxKind::DECIMAL || old(p).peek() == SyntaxKind::DECIMAL_NEGATIVE || old(p).peek() == SyntaxKind::DECIMAL_POSITIVE || old(p).peek() == SyntaxKind::DOUBLE || old(p).peek() == SyntaxKind::DOUBLE_NEGATIVE || old(p).peek() == SyntaxKind::DOUBLE_POSITIVE || old(p).peek() == SyntaxKind::DoubleLess || old(p).peek() == SyntaxKind::DoubleLessLParen || old(p).peek() == SyntaxKind::False || old(p).peek() == SyntaxKind::INTEGER || old(p).peek() == SyntaxKind::INTEGER_NEGATIVE || old(p).peek() == SyntaxKind::INTEGER_POSITIVE || old(p).peek() == SyntaxKind::IRIREF || old(p).peek() == SyntaxKind::LBrack || old(p).peek() == SyntaxKind::LCurly || old(p).peek() == SyntaxKind::LParen || old(p).peek() == SyntaxKind::NIL || old(p).peek() == SyntaxKind::PNAME_LN || old(p).peek() == SyntaxKind::PNAME_NS || old(p).peek() == SyntaxKind::RCurly || old(p).peek() == SyntaxKind::STRING_LITERAL1 || old(p).peek() == SyntaxKind::STRING_LITERAL2 || old(p).peek() == SyntaxKind::STRING_LITERAL_LONG1 || old(p).peek() == SyntaxKind::STRING_LITERAL_LONG2 || old(p).peek() == SyntaxKind::True || old(p).peek() == SyntaxKind::VAR1 || old(p).peek() == SyntaxKind::VAR2),
        old(p).events@.len() < final(p).events@.len(),
        final(p).events@[old(p).events@.len() as int] == (Event::Open { kind: SyntaxKind::QuadData }),
        final(p).events@.last() is Close,
        final(p).st() == rule_QuadData(old(p).kinds(), old(p).st()),
    decreases old(p).remaining(), rank_QuadData(old(p).peek()), 1int,
{
    let ghost ks = p.kinds();
    let ghost s0 = p.st();
    let ghost start = p.pos as int;
    let marker = p.open();
    let ghost gm1 = marker.index as int;
    p.expect(SyntaxKind::LCurly);
    proof {
        assert(call_ok(ks, start, p.st(), rank_Quads(peek_at(ks, p.st().pos)), rank_QuadData(peek_at(ks, start)))) by {
            reveal(Parser::st);
            assert(peek_at(ks, start) == old(p).peek());
            assert(peek_at(ks, p.pos as int) == p.peek());
        }
    }
    parse_Quads(p);
    p.expect(SyntaxKind::RCurly);
    p.close(marker, SyntaxKind::QuadData);
    proof {
        assert(rule_QuadData(ks, s0) == p.st()) by {
            reveal_with_fuel(rule_QuadData, 1); reveal_with_fuel(rule_Quads, 1);
        }
    }
}

pub open spec fn rank_QuadPattern(t: SyntaxKind) -> nat {
    match t {
        SyntaxKind::LCurly => 0,
        SyntaxKind::GRAPH => 2,
        SyntaxKind::NIL => 4,
        SyntaxKind::ANON | SyntaxKind::BLANK_NODE_LABEL | SyntaxKind::DoubleLess | SyntaxKind::DoubleLessLParen | SyntaxKind::False | SyntaxKind::IRIREF | SyntaxKind::LBrack | SyntaxKind::LParen | SyntaxKind::True | SyntaxKind::VAR1 | SyntaxKind::VAR2 => 5,
        SyntaxKind::DECIMAL | SyntaxKind::DECIMAL_NEGATIVE | SyntaxKind::DECIMAL_POSITIVE | SyntaxKind::DOUBLE | SyntaxKind::DOUBLE_NEGATIVE | SyntaxKind::DOUBLE_POSITIVE | SyntaxKind::INTEGER | SyntaxKind::INTEGER_NEGATIVE | SyntaxKind::INTEGER_POSITIVE | SyntaxKind::PNAME_LN | SyntaxKind::PNAME_NS | SyntaxKind::STRING_LITERAL1 | SyntaxKind::STRING_LITERAL2 | SyntaxKind::STRING_LITERAL_LONG1 | SyntaxKind::STRING_LITERAL_LONG2 => 6,
        _ => 1,
    }
}

/// What [`parse_QuadPattern`] makes of the parser state.
#[verifier::opaque]
pub open spec fn rule_QuadPattern(ts: Seq<SyntaxKind>, s: St) -> St
    decreases ts.len() - s.pos, rank_QuadPattern(peek_at(ts, s.pos)), 32 * (ts.len() - s.pos) + 32,
{
    let start = s.pos;
    let s_in = s;
    let m_marker = s.evs.len() as int;
    let s = st_open(s);
    let s = st_expect(ts, s, SyntaxKind::LCurly);
    let s = if call_ok(ts, start, s, rank_Quads(peek_at(ts, s.pos)), rank_QuadPattern(peek_at(ts, start))) {
        rule_Quads(ts, s)
    } else {
        s
    };
    let s = st_expect(ts, s, SyntaxKind::RCurly);
    let s = st_close(s, m_marker, SyntaxKind::QuadPattern);
    s
}


/// [59] QuadPattern -> '{' Quads '}'
pub(crate) fn parse_QuadPattern(p: &mut Parser)
    requires
        old(p).wf(),
    ensures
        Parser::step(*old(p), *final(p)),
        final(p).pos == old(p).pos ==> !(old(p).peek() == SyntaxKind::ANON || old(p).peek() == SyntaxKind::BLANK_NODE_LABEL || old(p).peek() == SyntaxKind::DECIMAL || old(p).peek() == SyntaxKind::DECIMAL_NEGATIVE || old(p).peek() == SyntaxKind::DECIMAL_POSITIVE || old(p).peek() == SyntaxKind::DOUBLE || old(p).peek() == SyntaxKind::DOUBLE_NEGATIVE || old(p).peek() == SyntaxKind::DOUBLE_POSITIVE || old(p).peek() == SyntaxKind::DoubleLess || old(p).peek() == SyntaxKind::DoubleLessLParen || old(p).peek() == SyntaxKind::False || old(p).peek() == SyntaxKind::INTEGER || old(p).peek() == SyntaxKind::INTEGER_NEGATIVE || old(p).peek() == SyntaxKind::INTEGER_POSITIVE || old(p).peek() == SyntaxKind::IRIREF || old(p).peek() == SyntaxKind::LBrack || old(p).peek() == SyntaxKind::LCurly || old(p).peek() == SyntaxKind::LParen || old(p).peek() == SyntaxKind::NIL || old(p).peek() == SyntaxKind::PNAME_LN || old(p).peek() == SyntaxKind::PNAME_NS || old(p).peek() == SyntaxKind::RCurly || old(p).peek() == SyntaxKind::STRING_LITERAL1 || old(p).peek() == SyntaxKind::STRING_LITERAL2 || old(p).peek() == SyntaxKind::STRING_LITERAL_LONG1 || old(p).peek() == SyntaxKind::STRING_LITERAL_LONG2 || old(p).peek() == SyntaxKind::True || old(p).peek() == SyntaxKind::VAR1 || old(p).peek() == SyntaxKind::VAR2),
        old(p).events@.len() < final(p).events@.len(),
        final(p).events@[old(p).events@.len() as int] == (Event::Open { kind: SyntaxKind::QuadPattern }),
        final(p).events@.last() is Close,
        final(p).st() == rule_QuadPattern(old(p).kinds(), old(p).st()),
    decreases old(p).remaining(), rank_QuadPattern(old(p).peek()), 1int,
{
    let ghost ks = p.kinds();
    let ghost s0 = p.st();
    let ghost start = p.pos as int;
    let marker = p.open();
    let ghost gm1 = marker.index as int;
    p.expect(SyntaxKind::LCurly);
    proof {
        assert(call_ok(ks, start, p.st(), rank_Quads(peek_at(ks, p.st().pos)), rank_QuadPattern(peek_at(ks, start)))) by {
            reveal(Parser::st);
            assert(peek_at(ks, start) == old(p).peek());
            assert(peek_at(ks, p.pos as int) == p.peek());
        }
    }
    parse_Quads(p);
    p.expect(SyntaxKind::RCurly);
    p.close(marker, SyntaxKind::QuadPattern);
    proof {
        assert(rule_QuadPattern(ks, s0) == p.st()) by {
            reveal_with_fuel(rule_QuadPattern, 1); reveal_with_fuel(rule_Quads, 1);
        }
    }
}

pub open spec fn rank_DeleteClause(t: SyntaxKind) -> nat {
    match t {
        SyntaxKind::DELETE => 0,
        SyntaxKind::LCurly => 1,
        SyntaxKind::GRAPH => 3,
        SyntaxKind::NIL => 5,
        SyntaxKind::ANON | SyntaxKind::BLANK_NODE_LABEL | SyntaxKind::DoubleLess | SyntaxKind::DoubleLessLParen | SyntaxKind::False | SyntaxKind::IRIREF | SyntaxKind::LBrack | SyntaxKind::LParen | SyntaxKind::True | SyntaxKind::VAR1 | SyntaxKind::VAR2 => 6,
        SyntaxKind::DECIMAL | SyntaxKind::DECIMAL_NEGATIVE | SyntaxKind::DECIMAL_POSITIVE | SyntaxKind::DOUBLE | SyntaxKind::DOUBLE_NEGATIVE | SyntaxKind::DOUBLE_POSITIVE | SyntaxKind::INTEGER | SyntaxKind::INTEGER_NEGATIVE | SyntaxKind::INTEGER_POSITIVE | SyntaxKind::PNAME_LN | SyntaxKind::PNAME_NS | SyntaxKind::STRING_LITERAL1 | SyntaxKind::STRING_LITERAL2 | SyntaxKind::STRING_LITERAL_LONG1 | SyntaxKind::STRING_LITERAL_LONG2 => 7,
        _ => 2,
    }
}

/// What [`parse_DeleteClause`] makes of the parser state.
#[verifier::opaque]
pub open spec fn rule_DeleteClause(ts: Seq<SyntaxKind>, s: St) -> St
    decreases ts.len() - s.pos, rank_DeleteClause(peek_at(ts, s.pos)), 32 * (ts.len() - s.pos) + 32,
{
    let start = s.pos;
    let s_in = s;
    let m_marker = s.evs.len() as int;
    let s = st_open(s);
    let s = st_expect(ts, s, SyntaxKind::DELETE);
    let s = if call_ok(ts, start, s, rank_QuadPattern(peek_at(ts, s.pos)), rank_DeleteClause(peek_at(ts, start))) {
        rule_QuadPattern(ts, s)
    } else {
        s
    };
    let s = st_close(s, m_marker, SyntaxKind::DeleteClause);
    s
}


/// [60] DeleteClause -> 'DELETE' QuadPattern
pub(crate) fn parse_DeleteClause(p: &mut Parser)
    requires
        old(p).wf(),
    ensures
        Parser::step(*old(p), *final(p)),
        final(p).pos == old(p).pos ==> !(old(p).peek() == SyntaxKind::ANON || old(p).peek() == SyntaxKind::BLANK_NODE_LABEL || old(p).peek() == SyntaxKind::DECIMAL || old(p).peek() == SyntaxKind::DECIMAL_NEGATIVE || old(p).peek() == SyntaxKind::DECIMAL_POSITIVE || old(p).peek() == SyntaxKind::DELETE || old(p).peek() == SyntaxKind::DOUBLE || old(p).peek() == SyntaxKind::DOUBLE_NEGATIVE || old(p).peek() == SyntaxKind::DOUBLE_POSITIVE || old(p).peek() == SyntaxKind::DoubleLess || old(p).peek() == SyntaxKind::DoubleLessLParen || old(p).peek() == SyntaxKind::False || old(p).peek() == SyntaxKind::INTEGER || old(p).peek() == SyntaxKind::INTEGER_NEGATIVE || old(p).peek() == SyntaxKind::INTEGER_POSITIVE || old(p).peek() == SyntaxKind::IRIREF || old(p).peek() == SyntaxKind::LBrack || old(p).peek() == SyntaxKind::LCurly || old(p).peek() == SyntaxKind::LParen || old(p).peek() == SyntaxKind::NIL || old(p).peek() == SyntaxKind::PNAME_LN || old(p).peek() == SyntaxKind::PNAME_NS || old(p).peek() == SyntaxKind::RCurly || old(p).peek() == SyntaxKind::STRING_LITERAL1 || old(p).peek() == SyntaxKind::STRING_LITERAL2 || old(p).peek() == SyntaxKind::STRING_LITERAL_LONG1 || old(p).peek() == SyntaxKind::STRING_LITERAL_LONG2 || old(p).peek() == SyntaxKind::True || old(p).peek() == SyntaxKind::VAR1 || old(p).peek() == SyntaxKind::VAR2),
        old(p).events@.len() < final(p).events@.len(),
        final(p).events@[old(p).events@.len() as int] == (Event::Open { kind: SyntaxKind::DeleteClause }),
        final(p).events@.last() is Close,
        final(p).st() == rule_DeleteClause(old(p).kinds(), old(p).st()),
    decreases old(p).remaining(), rank_DeleteClause(old(p).peek()), 1int,
{
    let ghost ks = p.kinds();
    let ghost s0 = p.st();
    let ghost start = p.pos as int;
    let marker = p.open();
    let ghost gm1 = marker.index as int;
    p.expect(SyntaxKind::DELETE);
    proof {
        assert(call_ok(ks, start, p.st(), rank_QuadPattern(peek_at(ks, p.st().pos)), rank_DeleteClause(peek_at(ks, start)))) by {
            reveal(Parser::st);
            assert(peek_at(ks, start) == old(p).peek());
            assert(peek_at(ks, p.pos as int) == p.peek());
        }
    }
    parse_QuadPattern(p);
    p.close(marker, SyntaxKind::DeleteClause);
    proof {
        assert(rule_DeleteClause(ks, s0) == p.st()) by {
            reveal_with_fuel(rule_DeleteClause, 1); reveal_with_fuel(rule_QuadPattern, 1);
        }
    }
}

pub open spec fn rank_InsertClause(t: SyntaxKind) -> nat {
    match t {
        SyntaxKind::INSERT => 0,
        SyntaxKind::LCurly => 1,
        SyntaxKind::GRAPH => 3,
        SyntaxKind::NIL => 5,
        SyntaxKind::ANON | SyntaxKind::BLANK_NODE_LABEL | SyntaxKind::DoubleLess | SyntaxKind::DoubleLessLParen | SyntaxKind::False | SyntaxKind::IRIREF | SyntaxKind::LBrack | SyntaxKind::LParen | SyntaxKind::True | SyntaxKind::VAR1 | SyntaxKind::VAR2 => 6,
        SyntaxKind::DECIMAL | SyntaxKind::DECIMAL_NEGATIVE | SyntaxKind::DECIMAL_POSITIVE | SyntaxKind::DOUBLE | SyntaxKind::DOUBLE_NEGATIVE | SyntaxKind::DOUBLE_POSITIVE | SyntaxKind::INTEGER | SyntaxKind::INTEGER_NEGATIVE | SyntaxKind::INTEGER_POSITIVE | SyntaxKind::PNAME_LN | SyntaxKind::PNAME_NS | SyntaxKind::STRING_LITERAL1 | SyntaxKind::STRING_LITERAL2 | SyntaxKind::STRING_LITERAL_LONG1 | SyntaxKind::STRING_LITERAL_LONG2 => 7,
        _ => 2,
    }
}

/// What [`parse_InsertClause`] makes of the parser state.
#[verifier::opaque]
pub open spec fn rule_InsertClause(ts: Seq<SyntaxKind>, s: St) -> St
    decreases ts.len() - s.pos, rank_InsertClause(peek_at(ts, s.pos)), 32 * (ts.len() - s.pos) + 32,
{
    let start = s.pos;
    let s_in = s;
    let m_marker = s.evs.len() as int;
    let s = st_open(s);
    let s = st_expect(ts, s, SyntaxKind::INSERT);
    let s = if call_ok(ts, start, s, rank_QuadPattern(peek_at(ts, s.pos)), rank_InsertClause(peek_at(ts, start))) {
        rule_QuadPattern(ts, s)
    } else {
        s
    };
    let s = st_close(s, m_marker, SyntaxKind::InsertClause);
    s
}


/// [61] InsertClause -> 'INSERT' QuadPattern
pub(crate) fn parse_InsertClause(p: &mut Parser)
    requires
        old(p).wf(),
    ensures
        Parser::step(*old(p), *final(p)),
        final(p).pos == old(p).pos ==> !(old(p).peek() == SyntaxKind::ANON || old(p).peek() == SyntaxKind::BLANK_NODE_LABEL || old(p).peek() == SyntaxKind::DECIMAL || old(p).peek() == SyntaxKind::DECIMAL_NEGATIVE || old(p).peek() == SyntaxKind::DECIMAL_POSITIVE || old(p).peek() == SyntaxKind::DOUBLE || old(p).peek() == SyntaxKind::DOUBLE_NEGATIVE || old(p).peek() == SyntaxKind::DOUBLE_POSITIVE || old(p).peek() == SyntaxKind::DoubleLess || old(p).peek() == SyntaxKind::DoubleLessLParen || old(p).peek() == SyntaxKind::False || old(p).peek() == SyntaxKind::INSERT || old(p).peek() == SyntaxKind::INTEGER || old(p).peek() == SyntaxKind::INTEGER_NEGATIVE || old(p).peek() == SyntaxKind::INTEGER_POSITIVE || old(p).peek() == SyntaxKind::IRIREF || old(p).peek() == SyntaxKind::LBrack || old(p).peek() == SyntaxKind::LCurly || old(p).peek() == SyntaxKind::LParen || old(p).peek() == SyntaxKind::NIL || old(p).peek() == SyntaxKind::PNAME_LN || old(p).peek() == SyntaxKind::PNAME_NS || old(p).peek() == SyntaxKind::RCurly || old(p).peek() == SyntaxKind::STRING_LITERAL1 || old(p).peek() == SyntaxKind::STRING_LITERAL2 || old(p).peek() == SyntaxKind::STRING_LITERAL_LONG1 || old(p).peek() == SyntaxKind::STRING_LITERAL_LONG2 || old(p).peek() == SyntaxKind::True || old(p).peek() == SyntaxKind::VAR1 || old(p).peek() == SyntaxKind::VAR2),
        old(p).events@.len() < final(p).events@.len(),
        final(p).events@[old(p).events@.len() as int] == (Event::Open { kind: SyntaxKind::InsertClause }),
        final(p).events@.last() is Close,
        final(p).st() == rule_InsertClause(old(p).kinds(), old(p).st()),
    decreases old(p).remaining(), rank_InsertClause(old(p).peek()), 1int,
{
    let ghost ks = p.kinds();
    let ghost s0 = p.st();
    let ghost start = p.pos as int;
    let marker = p.open();
    let ghost gm1 = marker.index as int;
    p.expect(SyntaxKind::INSERT);
    proof {
        assert(call_ok(ks, start, p.st(), rank_QuadPattern(peek_at(ks, p.st().pos)), rank_InsertClause(peek_at(ks, start)))) by {
            reveal(Parser::st);
            assert(peek_at(ks, start) == old(p).peek());
            assert(peek_at(ks, p.pos as int) == p.peek());
        }
    }
    parse_QuadPattern(p);
    p.close(marker, SyntaxKind::InsertClause);
    proof {
        assert(rule_InsertClause(ks, s0) == p.st()) by {
            reveal_with_fuel(rule_InsertClause, 1); reveal_with_fuel(rule_QuadPattern, 1);
        }
    }
}

pub open spec fn rank_UsingClause(t: SyntaxKind) -> nat {
    match t {
        SyntaxKind::IRIREF => 1,
        SyntaxKind::PNAME_LN | SyntaxKind::PNAME_NS => 2,
        _ => 0,
    }
}

/// What [`parse_UsingClause`] makes of the parser state.
#[verifier::opaque]
pub open spec fn rule_UsingClause(ts: Seq<SyntaxKind>, s: St) -> St {
    let m_marker = s.evs.len() as int;
    let s = st_open(s);
    let s = st_expect(ts, s, SyntaxKind::USING);
    if (peek_at(ts, s.pos) == SyntaxKind::IRIREF || peek_at(ts, s.pos) == SyntaxKind::PNAME_NS || peek_at(ts, s.pos) == SyntaxKind::PNAME_LN) {
        let s = rule_iri(ts, s);
        let s = st_close(s, m_marker, SyntaxKind::UsingClause);
        s
    } else if (peek_at(ts, s.pos) == SyntaxKind::NAMED) {
        let s = st_expect(ts, s, SyntaxKind::NAMED);
        let s = rule_iri(ts, s);
        let s = st_close(s, m_marker, SyntaxKind::UsingClause);
        s
    } else if (peek_at(ts, s.pos) == SyntaxKind::Eof) {
        let s = st_close(s, m_marker, SyntaxKind::UsingClause);
        let m_marker = s.evs.len() as int;
        let s = st_open(s);
        let s = st_close(s, m_marker, SyntaxKind::Error);
        s
    } else {
        let s = st_advance_with_error(ts, s, seq![SyntaxKind::IRIREF, SyntaxKind::PNAME_NS, SyntaxKind::PNAME_LN, SyntaxKind::NAMED]);
        let s = st_close(s, m_marker, SyntaxKind::UsingClause);
        s
    }
}

/// [62] UsingClause -> 'USING' (iri | 'NAMED' iri)
pub(crate) fn parse_UsingClause(p: &mut Parser)
    requires
        old(p).wf(),
    ensures
        Parser::step(*old(p), *final(p)),
        final(p).pos == old(p).pos ==> is_sync_point(old(p).peek()),
        old(p).events@.len() < final(p).events@.len(),
        final(p).events@[old(p).events@.len() as int] == (Event::Open { kind: SyntaxKind::UsingClause }),
        final(p).events@.last() is Close,
        final(p).st() == rule_UsingClause(old(p).kinds(), old(p).st()),
    decreases old(p).remaining(), rank_UsingClause(old(p).peek()), 1int,
{
    let ghost ks = p.kinds();
    let ghost s0 = p.st();
    let marker = p.open();
    p.expect(SyntaxKind::USING);
    match p.nth(0) {
        SyntaxKind::IRIREF | SyntaxKind::PNAME_NS | SyntaxKind::PNAME_LN => {
            parse_iri(p);
        },
        SyntaxKind::NAMED => {
            p.expect(SyntaxKind::NAMED);
            parse_iri(p);
        },
        SyntaxKind::Eof => {
            p.close(marker, SyntaxKind::UsingClause);
            let marker = p.open();
            p.close(marker, SyntaxKind::Error);
            proof {
                assert(p.st() == rule_UsingClause(ks, s0)) by {
                    reveal(rule_UsingClause);
                    reveal(Parser::st);
                }
            }
            return ;
        },
        _ => {
            p.advance_with_error(vec![SyntaxKind::IRIREF, SyntaxKind::PNAME_NS, SyntaxKind::PNAME_LN, SyntaxKind::NAMED]);
        },
    }
    p.close(marker, SyntaxKind::UsingClause);
    proof {
        assert(p.st() == rule_UsingClause(ks, s0)) by {
            reveal(rule_UsingClause);
            reveal(Parser::st);
        }
    }
}

pub open spec fn rank_Quads(t: SyntaxKind) -> nat {
    match t {
        SyntaxKind::GRAPH => 1,
        SyntaxKind::NIL => 3,
        SyntaxKind::ANON | SyntaxKind::BLANK_NODE_LABEL | SyntaxKind::DoubleLess | SyntaxKind::DoubleLessLParen | SyntaxKind::False | SyntaxKind::IRIREF | SyntaxKind::LBrack | SyntaxKind::LParen | SyntaxKind::True | SyntaxKind::VAR1 | SyntaxKind::VAR2 => 4,
        SyntaxKind::DECIMAL | SyntaxKind::DECIMAL_NEGATIVE | SyntaxKind::DECIMAL_POSITIVE | SyntaxKind::DOUBLE | SyntaxKind::DOUBLE_NEGATIVE | SyntaxKind::DOUBLE_POSITIVE | SyntaxKind::INTEGER | SyntaxKind::INTEGER_NEGATIVE | SyntaxKind::INTEGER_POSITIVE | SyntaxKind::PNAME_LN | SyntaxKind::PNAME_NS | SyntaxKind::STRING_LITERAL1 | SyntaxKind::STRING_LITERAL2 | SyntaxKind::STRING_LITERAL_LONG1 | SyntaxKind::STRING_LITERAL_LONG2 => 5,
        _ => 0,
    }
}

/// What [`parse_Quads`] makes of the parser state.
#[verifier::opaque]
pub open spec fn rule_Quads(ts: Seq<SyntaxKind>, s: St) -> St
    decreases ts.len() - s.pos, rank_Quads(peek_at(ts, s.pos)), 32 * (ts.len() - s.pos) + 32,
{
    let start = s.pos;
    let s_in = s;
    let (s, r) = if s_in.pos <= s.pos <= ts.len() {
        if_Quads_1(ts, start, s)
    } else {
        (s, false)
    };
    if r {
        s
    } else {
        let m_marker = s.evs.len() as int;
        let s = st_open(s);
        let s = if s_in.pos <= s.pos <= ts.len() {
            if_Quads_2(ts, start, m_marker, s)
        } else {
            s
        };
        let s = if s_in.pos <= s.pos <= ts.len() {
            loop_Quads_3(ts, start, m_marker, s)
        } else {
            s
        };
        let s = st_close(s, m_marker, SyntaxKind::Quads);
        s
    }
}

#[verifier::opaque]
pub open spec fn if_Quads_1(ts: Seq<SyntaxKind>, start: int, s: St) -> (St, bool)
    decreases ts.len() - start, rank_Quads(peek_at(ts, start)), 32 * (ts.len() - s.pos) + 32 - 1,
{
    let s_in = s;
    if !(peek_at(ts, s.pos) == SyntaxKind::IRIREF || peek_at(ts, s.pos) == SyntaxKind::PNAME_NS || peek_at(ts, s.pos) == SyntaxKind::STRING_LITERAL1 || peek_at(ts, s.pos) == SyntaxKind::STRING_LITERAL2 || peek_at(ts, s.pos) == SyntaxKind::LParen || peek_at(ts, s.pos) == SyntaxKind::INTEGER || peek_at(ts, s.pos) == SyntaxKind::GRAPH || peek_at(ts, s.pos) == SyntaxKind::NIL || peek_at(ts, s.pos) == SyntaxKind::LBrack || peek_at(ts, s.pos) == SyntaxKind::DoubleLess || peek_at(ts, s.pos) == SyntaxKind::DoubleLessLParen || peek_at(ts, s.pos) == SyntaxKind::VAR1 || peek_at(ts, s.pos) == SyntaxKind::VAR2 || peek_at(ts, s.pos) == SyntaxKind::DECIMAL || peek_at(ts, s.pos) == SyntaxKind::DOUBLE || peek_at(ts, s.pos) == SyntaxKind::INTEGER_POSITIVE || peek_at(ts, s.pos) == SyntaxKind::DECIMAL_POSITIVE || peek_at(ts, s.pos) == SyntaxKind::DOUBLE_POSITIVE || peek_at(ts, s.pos) == SyntaxKind::INTEGER_NEGATIVE || peek_at(ts, s.pos) == SyntaxKind::DECIMAL_NEGATIVE || peek_at(ts, s.pos) == SyntaxKind::DOUBLE_NEGATIVE || peek_at(ts, s.pos) == SyntaxKind::True || peek_at(ts, s.pos) == SyntaxKind::False || peek_at(ts, s.pos) == SyntaxKind::STRING_LITERAL_LONG1 || peek_at(ts, s.pos) == SyntaxKind::STRING_LITERAL_LONG2 || peek_at(ts, s.pos) == SyntaxKind::PNAME_LN || peek_at(ts, s.pos) == SyntaxKind::BLANK_NODE_LABEL || peek_at(ts, s.pos) == SyntaxKind::ANON) {
        (s, true)
    } else {
        (s, false)
    }
}

#[verifier::opaque]
pub open spec fn if_Quads_2(ts: Seq<SyntaxKind>, start: int, m_marker: int, s: St) -> St
    decreases ts.len() - start, rank_Quads(peek_at(ts, start)), 32 * (ts.len() - s.pos) + 32 - 1,
{
    let s_in = s;
    if (peek_at(ts, s.pos) == SyntaxKind::IRIREF || peek_at(ts, s.pos) == SyntaxKind::PNAME_NS || peek_at(ts, s.pos) == SyntaxKind::STRING_LITERAL1 || peek_at(ts, s.pos) == SyntaxKind::STRING_LITERAL2 || peek_at(ts, s.pos) == SyntaxKind::LParen || peek_at(ts, s.pos) == SyntaxKind::INTEGER || peek_at(ts, s.pos) == SyntaxKind::NIL || peek_at(ts, s.pos) == SyntaxKind::LBrack || peek_at(ts, s.pos) == SyntaxKind::DoubleLess || peek_at(ts, s.pos) == SyntaxKind::DoubleLessLParen || peek_at(ts, s.pos) == SyntaxKind::VAR1 || peek_at(ts, s.pos) == SyntaxKind::VAR2 || peek_at(ts, s.pos) == SyntaxKind::DECIMAL || peek_at(ts, s.pos) == SyntaxKind::DOUBLE || peek_at(ts, s.pos) == SyntaxKind::INTEGER_POSITIVE || peek_at(ts, s.pos) == SyntaxKind::DECIMAL_POSITIVE || peek_at(ts, s.pos) == SyntaxKind::DOUBLE_POSITIVE || peek_at(ts, s.pos) == SyntaxKind::INTEGER_NEGATIVE || peek_at(ts, s.pos) == SyntaxKind::DECIMAL_NEGATIVE || peek_at(ts, s.pos) == SyntaxKind::DOUBLE_NEGATIVE || peek_at(ts, s.pos) == SyntaxKind::True || peek_at(ts, s.pos) == SyntaxKind::False || peek_at(ts, s.pos) == SyntaxKind::STRING_LITERAL_LONG1 || peek_at(ts, s.pos) == SyntaxKind::STRING_LITERAL_LONG2 || peek_at(ts, s.pos) == SyntaxKind::PNAME_LN || peek_at(ts, s.pos) == SyntaxKind::BLANK_NODE_LABEL || peek_at(ts, s.pos) == SyntaxKind::ANON) {
        let s = if call_ok(ts, start, s, rank_TriplesTemplate(peek_at(ts, s.pos)), rank_Quads(peek_at(ts, start))) {
            rule_TriplesTemplate(ts, s)
        } else {
            s
        };
        s
    } else {
        s
    }
}

#[verifier::opaque]
pub open spec fn if_Quads_5(ts: Seq<SyntaxKind>, start: int, m_marker: int, s: St) -> St
    decreases ts.len() - start, rank_Quads(peek_at(ts, start)), 32 * (ts.len() - s.pos) + 32 - 3,
{
    let s_in = s;
    if (peek_at(ts, s.pos) == SyntaxKind::Dot) {
        let s = st_expect(ts, s, SyntaxKind::Dot);
        s
    } else {
        s
    }
}

#[verifier::opaque]
pub open spec fn if_Quads_6(ts: Seq<SyntaxKind>, start: int, m_marker: int, s: St) -> St
    decreases ts.len() - start, rank_Quads(peek_at(ts, start)), 32 * (ts.len() - s.pos) + 32 - 3,
{
    let s_in = s;
    if (peek_at(ts, s.pos) == SyntaxKind::IRIREF || peek_at(ts, s.pos) == SyntaxKind::PNAME_NS || peek_at(ts, s.pos) == SyntaxKind::STRING_LITERAL1 || peek_at(ts, s.pos) == SyntaxKind::STRING_LITERAL2 || peek_at(ts, s.pos) == SyntaxKind::LParen || peek_at(ts, s.pos) == SyntaxKind::INTEGER || peek_at(ts, s.pos) == SyntaxKind::NIL || peek_at(ts, s.pos) == SyntaxKind::LBrack || peek_at(ts, s.pos) == SyntaxKind::DoubleLess || peek_at(ts, s.pos) == SyntaxKind::DoubleLessLParen || peek_at(ts, s.pos) == SyntaxKind::VAR1 || peek_at(ts, s.pos) == SyntaxKind::VAR2 || peek_at(ts, s.pos) == SyntaxKind::DECIMAL || peek_at(ts, s.pos) == SyntaxKind::DOUBLE || peek_at(ts, s.pos) == SyntaxKind::INTEGER_POSITIVE || peek_at(ts, s.pos) == SyntaxKind::DECIMAL_POSITIVE || peek_at(ts, s.pos) == SyntaxKind::DOUBLE_POSITIVE || peek_at(ts, s.pos) == SyntaxKind::INTEGER_NEGATIVE || peek_at(ts, s.pos) == SyntaxKind::DECIMAL_NEGATIVE || peek_at(ts, s.pos) == SyntaxKind::DOUBLE_NEGATIVE || peek_at(ts, s.pos) == SyntaxKind::True || peek_at(ts, s.pos) == SyntaxKind::False || peek_at(ts, s.pos) == SyntaxKind::STRING_LITERAL_LONG1 || peek_at(ts, s.pos) == SyntaxKind::STRING_LITERAL_LONG2 || peek_at(ts, s.pos) == SyntaxKind::PNAME_LN || peek_at(ts, s.pos) == SyntaxKind::BLANK_NODE_LABEL || peek_at(ts, s.pos) == SyntaxKind::ANON) {
        let s = if call_ok(ts, start, s, rank_TriplesTemplate(peek_at(ts, s.pos)), rank_Quads(peek_at(ts, start))) {
            rule_TriplesTemplate(ts, s)
        } else {
            s
        };
        s
    } else {
        s
    }
}

#[verifier::opaque]
pub open spec fn loop_Quads_3(ts: Seq<SyntaxKind>, start: int, m_marker: int, s: St) -> St
    decreases ts.len() - start, rank_Quads(peek_at(ts, start)), 32 * (ts.len() - s.pos) + 32 - 1,
{
    let s_in = s;
    if (peek_at(ts, s.pos) == SyntaxKind::GRAPH) && s.pos <= ts.len() {
        let s1 = body_Quads_4(ts, start, m_marker, s);
        if s1.pos == s.pos {
            s1
        } else if s.pos < s1.pos <= ts.len() {
            loop_Quads_3(ts, start, m_marker, s1)
        } else {
            s1
        }
    } else {
        s
    }
}

#[verifier::opaque]
pub open spec fn body_Quads_4(ts: Seq<SyntaxKind>, start: int, m_marker: int, s: St) -> St
    decreases ts.len() - start, rank_Quads(peek_at(ts, start)), 32 * (ts.len() - s.pos) + 32 - 2,
{
    let s_in = s;
    let s = if call_ok(ts, start, s, rank_QuadsNotTriples(peek_at(ts, s.pos)), rank_Quads(peek_at(ts, start))) {
        rule_QuadsNotTriples(ts, s)
    } else {
        s
    };
    let s = if s_in.pos <= s.pos <= ts.len() {
        if_Quads_5(ts, start, m_marker, s)
    } else {
        s
    };
    let s = if s_in.pos <= s.pos <= ts.len() {
        if_Quads_6(ts, start, m_marker, s)
    } else {
        s
    };
    s
}

/// [63] Quads -> TriplesTemplate? (QuadsNotTriples '.'? TriplesTemplate?)*
pub(crate) fn parse_Quads(p: &mut Parser)
    requires
        old(p).wf(),
    ensures
        Parser::step(*old(p), *final(p)),
        final(p).pos == old(p).pos ==> !(old(p).peek() == SyntaxKind::ANON || old(p).peek() == SyntaxKind::BLANK_NODE_LABEL || old(p).peek() == SyntaxKind::DECIMAL || old(p).peek() == SyntaxKind::DECIMAL_NEGATIVE || old(p).peek() == SyntaxKind::DECIMAL_POSITIVE || old(p).peek() == SyntaxKind::DOUBLE || old(p).peek() == SyntaxKind::DOUBLE_NEGATIVE || old(p).peek() == SyntaxKind::DOUBLE_POSITIVE || old(p).peek() == SyntaxKind::DoubleLess || old(p).peek() == SyntaxKind::DoubleLessLParen || old(p).peek() == SyntaxKind::False || old(p).peek() == SyntaxKind::INTEGER || old(p).peek() == SyntaxKind::INTEGER_NEGATIVE || old(p).peek() == SyntaxKind::INTEGER_POSITIVE || old(p).peek() == SyntaxKind::IRIREF || old(p).peek() == SyntaxKind::LBrack || old(p).peek() == SyntaxKind::LParen || old(p).peek() == SyntaxKind::NIL || old(p).peek() == SyntaxKind::PNAME_LN || old(p).peek() == SyntaxKind::PNAME_NS || old(p).peek() == SyntaxKind::STRING_LITERAL1 || old(p).peek() == SyntaxKind::STRING_LITERAL2 || old(p).peek() == SyntaxKind::STRING_LITERAL_LONG1 || old(p).peek() == SyntaxKind::STRING_LITERAL_LONG2 || old(p).peek() == SyntaxKind::True || old(p).peek() == SyntaxKind::VAR1 || old(p).peek() == SyntaxKind::VAR2),
        old(p).events@.len() < final(p).events@.len() ==> final(p).events@[old(p).events@.len() as int] == (Event::Open {
            kind: SyntaxKind::Quads,
        }) && final(p).events@.last() is Close,
        final(p).st() == rule_Quads(old(p).kinds(), old(p).st()),
    decreases old(p).remaining(), rank_Quads(old(p).peek()), 1int,
{
    let ghost ks = p.kinds();
    let ghost s0 = p.st();
    let ghost start = p.pos as int;
    let ghost pre1 = p.st();
    if !p.at_any(&[SyntaxKind::IRIREF, SyntaxKind::PNAME_NS, SyntaxKind::STRING_LITERAL1, SyntaxKind::STRING_LITERAL2, SyntaxKind::LParen, SyntaxKind::INTEGER, SyntaxKind::GRAPH, SyntaxKind::NIL, SyntaxKind::LBrack, SyntaxKind::DoubleLess, SyntaxKind::DoubleLessLParen, SyntaxKind::VAR1, SyntaxKind::VAR2, SyntaxKind::DECIMAL, SyntaxKind::DOUBLE, SyntaxKind::INTEGER_POSITIVE, SyntaxKind::DECIMAL_POSITIVE, SyntaxKind::DOUBLE_POSITIVE, SyntaxKind::INTEGER_NEGATIVE, SyntaxKind::DECIMAL_NEGATIVE, SyntaxKind::DOUBLE_NEGATIVE, SyntaxKind::True, SyntaxKind::False, SyntaxKind::STRING_LITERAL_LONG1, SyntaxKind::STRING_LITERAL_LONG2, SyntaxKind::PNAME_LN, SyntaxKind::BLANK_NODE_LABEL, SyntaxKind::ANON]) {
        proof {
            assert(if_Quads_1(ks, start, pre1) == (p.st(), true)) by {
                reveal_with_fuel(if_Quads_1, 1);
            }
        }
        proof {
            assert(rule_Quads(ks, s0) == p.st()) by {
                reveal_with_fuel(rule_Quads, 1); reveal_with_fuel(if_Quads_1, 1); reveal_with_fuel(if_Quads_2, 1); reveal_with_fuel(loop_Quads_3, 1);
            }
        }
        return ;
    } else {
        proof {
            assert(if_Quads_1(ks, start, pre1) == (p.st(), false)) by {
                reveal_with_fuel(if_Quads_1, 1);
            }
        }
    }
    let marker = p.open();
    let ghost gm1 = marker.index as int;
    let ghost pre2 = p.st();
    if p.at_any(&[SyntaxKind::IRIREF, SyntaxKind::PNAME_NS, SyntaxKind::STRING_LITERAL1, SyntaxKind::STRING_LITERAL2, SyntaxKind::LParen, SyntaxKind::INTEGER, SyntaxKind::NIL, SyntaxKind::LBrack, SyntaxKind::DoubleLess, SyntaxKind::DoubleLessLParen, SyntaxKind::VAR1, SyntaxKind::VAR2, SyntaxKind::DECIMAL, SyntaxKind::DOUBLE, SyntaxKind::INTEGER_POSITIVE, SyntaxKind::DECIMAL_POSITIVE, SyntaxKind::DOUBLE_POSITIVE, SyntaxKind::INTEGER_NEGATIVE, SyntaxKind::DECIMAL_NEGATIVE, SyntaxKind::DOUBLE_NEGATIVE, SyntaxKind::True, SyntaxKind::False, SyntaxKind::STRING_LITERAL_LONG1, SyntaxKind::STRING_LITERAL_LONG2, SyntaxKind::PNAME_LN, SyntaxKind::BLANK_NODE_LABEL, SyntaxKind::ANON]) {
        proof {
            assert(call_ok(ks, start, p.st(), rank_TriplesTemplate(peek_at(ks, p.st().pos)), rank_Quads(peek_at(ks, start)))) by {
                reveal(Parser::st);
                assert(peek_at(ks, start) == old(p).peek());
                assert(peek_at(ks, p.pos as int) == p.peek());
            }
        }
        parse_TriplesTemplate(p);
        proof {
            assert(if_Quads_2(ks, start, gm1, pre2) == p.st()) by {
                reveal_with_fuel(if_Quads_2, 1); reveal_with_fuel(rule_TriplesTemplate, 1);
            }
        }
    } else {
        proof {
            assert(if_Quads_2(ks, start, gm1, pre2) == p.st()) by {
                reveal_with_fuel(if_Quads_2, 1);
            }
        }
    }
    let ghost pre3 = p.st();
    proof {
        assert(p.st().pos == p.pos as int) by {
            reveal(Parser::st);
        }
        if !(peek_at(ks, p.st().pos) == SyntaxKind::GRAPH) {
            assert(loop_Quads_3(ks, start, gm1, pre3) == pre3) by {
                reveal_with_fuel(loop_Quads_3, 1); reveal_with_fuel(body_Quads_4, 1);
            }
        }
    }
    while p.at_any(&[SyntaxKind::GRAPH])
        invariant
            marker.index == old(p).events@.len(),
            p.wf(),
            p.tokens@ == old(p).tokens@,
            old(p).pos <= p.pos,
            p.stack() == old(p).stack().push(marker.index as int),
            p.pos == old(p).pos ==> (old(p).peek() == SyntaxKind::GRAPH),
            ks == p.kinds(),
            p.st().pos == p.pos as int,
            start == old(p).pos as int,
            gm1 == marker.index as int,
            pre3.pos <= p.pos,
            start <= pre3.pos,
            loop_Quads_3(ks, start, gm1, p.st()) == loop_Quads_3(ks, start, gm1, pre3),
            !(peek_at(ks, p.st().pos) == SyntaxKind::GRAPH) ==> loop_Quads_3(ks, start, gm1, p.st()) == p.st(),
        ensures
            loop_Quads_3(ks, start, gm1, pre3) == p.st(),
        decreases p.remaining(),
    {
        let ghost si3 = p.st();
        let checkpoint1 = p.pos();
        proof {
            assert(call_ok(ks, start, p.st(), rank_QuadsNotTriples(peek_at(ks, p.st().pos)), rank_Quads(peek_at(ks, start)))) by {
                reveal(Parser::st);
                assert(peek_at(ks, start) == old(p).peek());
                assert(peek_at(ks, p.pos as int) == p.peek());
            }
        }
        parse_QuadsNotTriples(p);
        let ghost pre4 = p.st();
        if p.at_any(&[SyntaxKind::Dot]) {
            p.expect(SyntaxKind::Dot);
            proof {
                assert(if_Quads_5(ks, start, gm1, pre4) == p.st()) by {
                    reveal_with_fuel(if_Quads_5, 1);
                }
            }
        } else {
            proof {
                assert(if_Quads_5(ks, start, gm1, pre4) == p.st()) by {
                    reveal_with_fuel(if_Quads_5, 1);
                }
            }
        }
        let ghost pre5 = p.st();
        if p.at_any(&[SyntaxKind::IRIREF, SyntaxKind::PNAME_NS, SyntaxKind::STRING_LITERAL1, SyntaxKind::STRING_LITERAL2, SyntaxKind::LParen, SyntaxKind::INTEGER, SyntaxKind::NIL, SyntaxKind::LBrack, SyntaxKind::DoubleLess, SyntaxKind::DoubleLessLParen, SyntaxKind::VAR1, SyntaxKind::VAR2, SyntaxKind::DECIMAL, SyntaxKind::DOUBLE, SyntaxKind::INTEGER_POSITIVE, SyntaxKind::DECIMAL_POSITIVE, SyntaxKind::DOUBLE_POSITIVE, SyntaxKind::INTEGER_NEGATIVE, SyntaxKind::DECIMAL_NEGATIVE, SyntaxKind::DOUBLE_NEGATIVE, SyntaxKind::True, SyntaxKind::False, SyntaxKind::STRING_LITERAL_LONG1, SyntaxKind::STRING_LITERAL_LONG2, SyntaxKind::PNAME_LN, SyntaxKind::BLANK_NODE_LABEL, SyntaxKind::ANON]) {
            proof {
                assert(call_ok(ks, start, p.st(), rank_TriplesTemplate(peek_at(ks, p.st().pos)), rank_Quads(peek_at(ks, start)))) by {
                    reveal(Parser::st);
                    assert(peek_at(ks, start) == old(p).peek());
                    assert(peek_at(ks, p.pos as int) == p.peek());
                }
            }
            parse_TriplesTemplate(p);
            proof {
                assert(if_Quads_6(ks, start, gm1, pre5) == p.st()) by {
                    reveal_with_fuel(if_Quads_6, 1); reveal_with_fuel(rule_TriplesTemplate, 1);
                }
            }
        } else {
            proof {
                assert(if_Quads_6(ks, start, gm1, pre5) == p.st()) by {
                    reveal_with_fuel(if_Quads_6, 1);
                }
            }
        }
        proof {
            assert(body_Quads_4(ks, start, gm1, si3) == p.st()) by {
                reveal_with_fuel(body_Quads_4, 1); reveal_with_fuel(if_Quads_5, 1); reveal_with_fuel(if_Quads_6, 1); reveal_with_fuel(rule_QuadsNotTriples, 1);
            }
        }
        if p.pos() == checkpoint1 {
            proof {
                assert(loop_Quads_3(ks, start, gm1, si3) == p.st()) by {
                    reveal_with_fuel(loop_Quads_3, 1); reveal_with_fuel(body_Quads_4, 1);
                }
            }
            break;
        }
        proof {
            assert(p.st().pos == p.pos as int) by {
                reveal(Parser::st);
            }
            assert(loop_Quads_3(ks, start, gm1, si3) == loop_Quads_3(ks, start, gm1, p.st())) by {
                reveal_with_fuel(loop_Quads_3, 1); reveal_with_fuel(body_Quads_4, 1);
                reveal(Parser::st);
            }
            if !(peek_at(ks, p.st().pos) == SyntaxKind::GRAPH) {
                assert(loop_Quads_3(ks, start, gm1, p.st()) == p.st()) by {
                    reveal_with_fuel(loop_Quads_3, 1); reveal_with_fuel(body_Quads_4, 1);
                }
            }
        }
    }
    p.close(marker, SyntaxKind::Quads);
    proof {
        assert(rule_Quads(ks, s0) == p.st()) by {
            reveal_with_fuel(rule_Quads, 1); reveal_with_fuel(if_Quads_1, 1); reveal_with_fuel(if_Quads_2, 1); reveal_with_fuel(loop_Quads_3, 1);
        }
    }
}

pub open spec fn rank_QuadsNotTriples(t: SyntaxKind) -> nat {
    match t {
        SyntaxKind::GRAPH => 0,
        SyntaxKind::IRIREF | SyntaxKind::VAR1 | SyntaxKind::VAR2 => 2,
        SyntaxKind::PNAME_LN | SyntaxKind::PNAME_NS => 3,
        _ => 1,
    }
}

/// What [`parse_QuadsNotTriples`] makes of the parser state.
#[verifier::opaque]
pub open spec fn rule_QuadsNotTriples(ts: Seq<SyntaxKind>, s: St) -> St
    decreases ts.len() - s.pos, rank_QuadsNotTriples(peek_at(ts, s.pos)), 32 * (ts.len() - s.pos) + 32,
{
    let start = s.pos;
    let s_in = s;
    let m_marker = s.evs.len() as int;
    let s = st_open(s);
    let s = st_expect(ts, s, SyntaxKind::GRAPH);
    let s = rule_VarOrIri(ts, s);
    let s = st_expect(ts, s, SyntaxKind::LCurly);
    let s = if s_in.pos <= s.pos <= ts.len() {
        if_QuadsNotTriples_1(ts, start, m_marker, s)
    } else {
        s
    };
    let s = st_expect(ts, s, SyntaxKind::RCurly);
    let s = st_close(s, m_marker, SyntaxKind::QuadsNotTriples);
    s
}

#[verifier::opaque]
pub open spec fn if_QuadsNotTriples_1(ts: Seq<SyntaxKind>, start: int, m_marker: int, s: St) -> St
    decreases ts.len() - start, rank_QuadsNotTriples(peek_at(ts, start)), 32 * (ts.len() - s.pos) + 32 - 1,
{
    let s_in = s;
    if (peek_at(ts, s.pos) == SyntaxKind::IRIREF || peek_at(ts, s.pos) == SyntaxKind::PNAME_NS || peek_at(ts, s.pos) == SyntaxKind::STRING_LITERAL1 || peek_at(ts, s.pos) == SyntaxKind::STRING_LITERAL2 || peek_at(ts, s.pos) == SyntaxKind::LParen || peek_at(ts, s.pos) == SyntaxKind::INTEGER || peek_at(ts, s.pos) == SyntaxKind::NIL || peek_at(ts, s.pos) == SyntaxKind::LBrack || peek_at(ts, s.pos) == SyntaxKind::DoubleLess || peek_at(ts, s.pos) == SyntaxKind::DoubleLessLParen || peek_at(ts, s.pos) == SyntaxKind::VAR1 || peek_at(ts, s.pos) == SyntaxKind::VAR2 || peek_at(ts, s.pos) == SyntaxKind::DECIMAL || peek_at(ts, s.pos) == SyntaxKind::DOUBLE || peek_at(ts, s.pos) == SyntaxKind::INTEGER_POSITIVE || peek_at(ts, s.pos) == SyntaxKind::DECIMAL_POSITIVE || peek_at(ts, s.pos) == SyntaxKind::DOUBLE_POSITIVE || peek_at(ts, s.pos) == SyntaxKind::INTEGER_NEGATIVE || peek_at(ts, s.pos) == SyntaxKind::DECIMAL_NEGATIVE || peek_at(ts, s.pos) == SyntaxKind::DOUBLE_NEGATIVE || peek_at(ts, s.pos) == SyntaxKind::True || peek_at(ts, s.pos) == SyntaxKind::False || peek_at(ts, s.pos) == SyntaxKind::STRING_LITERAL_LONG1 || peek_at(ts, s.pos) == SyntaxKind::STRING_LITERAL_LONG2 || peek_at(ts, s.pos) == SyntaxKind::PNAME_LN || peek_at(ts, s.pos) == SyntaxKind::BLANK_NODE_LABEL || peek_at(ts, s.pos) == SyntaxKind::ANON) {
        let s = if call_ok(ts, start, s, rank_TriplesTemplate(peek_at(ts, s.pos)), rank_QuadsNotTriples(peek_at(ts, start))) {
            rule_TriplesTemplate(ts, s)
        } else {
            s
        };
        s
    } else {
        s
    }
}

/// [64] QuadsNotTriples -> 'GRAPH' VarOrIri '{' TriplesTemplate? '}'
pub(crate) fn parse_QuadsNotTriples(p: &mut Parser)
    requires
        old(p).wf(),
    ensures
        Parser::step(*old(p), *final(p)),
        final(p).pos == old(p).pos ==> (old(p).peek() == SyntaxKind::Eof || old(p).peek() == SyntaxKind::WHERE),
        old(p).events@.len() < final(p).events@.len(),
        final(p).events@[old(p).events@.len() as int] == (Event::Open { kind: SyntaxKind::QuadsNotTriples }),
        final(p).events@.last() is Close,
        final(p).st() == rule_QuadsNotTriples(old(p).kinds(), old(p).st()),
    decreases old(p).remaining(), rank_QuadsNotTriples(old(p).peek()), 1int,
{
    let ghost ks = p.kinds();
    let ghost s0 = p.st();
    let ghost start = p.pos as int;
    let marker = p.open();
    let ghost gm1 = marker.index as int;
    p.expect(SyntaxKind::GRAPH);
    parse_VarOrIri(p);
    p.expect(SyntaxKind::LCurly);
    let ghost pre1 = p.st();
    if p.at_any(&[SyntaxKind::IRIREF, SyntaxKind::PNAME_NS, SyntaxKind::STRING_LITERAL1, SyntaxKind::STRING_LITERAL2, SyntaxKind::LParen, SyntaxKind::INTEGER, SyntaxKind::NIL, SyntaxKind::LBrack, SyntaxKind::DoubleLess, SyntaxKind::DoubleLessLParen, SyntaxKind::VAR1, SyntaxKind::VAR2, SyntaxKind::DECIMAL, SyntaxKind::DOUBLE, SyntaxKind::INTEGER_POSITIVE, SyntaxKind::DECIMAL_POSITIVE, SyntaxKind::DOUBLE_POSITIVE, SyntaxKind::INTEGER_NEGATIVE, SyntaxKind::DECIMAL_NEGATIVE, SyntaxKind::DOUBLE_NEGATIVE, SyntaxKind::True, SyntaxKind::False, SyntaxKind::STRING_LITERAL_LONG1, SyntaxKind::STRING_LITERAL_LONG2, SyntaxKind::PNAME_LN, SyntaxKind::BLANK_NODE_LABEL, SyntaxKind::ANON]) {
        proof {
            assert(call_ok(ks, start, p.st(), rank_TriplesTemplate(peek_at(ks, p.st().pos)), rank_QuadsNotTriples(peek_at(ks, start)))) by {
                reveal(Parser::st);
                assert(peek_at(ks, start) == old(p).peek());
                assert(peek_at(ks, p.pos as int) == p.peek());
            }
        }
        parse_TriplesTemplate(p);
        proof {
            assert(if_QuadsNotTriples_1(ks, start, gm1, pre1) == p.st()) by {
                reveal_with_fuel(if_QuadsNotTriples_1, 1); reveal_with_fuel(rule_TriplesTemplate, 1);
            }
        }
    } else {
        proof {
            assert(if_QuadsNotTriples_1(ks, start, gm1, pre1) == p.st()) by {
                reveal_with_fuel(if_QuadsNotTriples_1, 1);
            }
        }
    }
    p.expect(SyntaxKind::RCurly);
    p.close(marker, SyntaxKind::QuadsNotTriples);
    proof {
        assert(rule_QuadsNotTriples(ks, s0) == p.st()) by {
            reveal_with_fuel(rule_QuadsNotTriples, 1); reveal_with_fuel(if_QuadsNotTriples_1, 1);
        }
    }
}

pub open spec fn rank_TriplesSameSubject(t: SyntaxKind) -> nat {
    match t {
        SyntaxKind::NIL => 1,
        SyntaxKind::ANON | SyntaxKind::BLANK_NODE_LABEL | SyntaxKind::DoubleLess | SyntaxKind::DoubleLessLParen | SyntaxKind::False | SyntaxKind::IRIREF | SyntaxKind::LBrack | SyntaxKind::LParen | SyntaxKind::True | SyntaxKind::VAR1 | SyntaxKind::VAR2 => 2,
        SyntaxKind::DECIMAL | SyntaxKind::DECIMAL_NEGATIVE | SyntaxKind::DECIMAL_POSITIVE | SyntaxKind::DOUBLE | SyntaxKind::DOUBLE_NEGATIVE | SyntaxKind::DOUBLE_POSITIVE | SyntaxKind::INTEGER | SyntaxKind::INTEGER_NEGATIVE | SyntaxKind::INTEGER_POSITIVE | SyntaxKind::PNAME_LN | SyntaxKind::PNAME_NS | SyntaxKind::STRING_LITERAL1 | SyntaxKind::STRING_LITERAL2 | SyntaxKind::STRING_LITERAL_LONG1 | SyntaxKind::STRING_LITERAL_LONG2 => 3,
        _ => 0,
    }
}

/// What [`parse_TriplesSameSubject`] makes of the parser state.
#[verifier::opaque]
pub open spec fn rule_TriplesSameSubject(ts: Seq<SyntaxKind>, s: St) -> St
    decreases ts.len() - s.pos, rank_TriplesSameSubject(peek_at(ts, s.pos)), 32 * (ts.len() - s.pos) + 32,
{
    let start = s.pos;
    let s_in = s;
    let m_marker = s.evs.len() as int;
    let s = st_open(s);
    let (s, r) = if s_in.pos <= s.pos <= ts.len() {
        match_TriplesSameSubject_1(ts, start, m_marker, s)
    } else {
        (s, false)
    };
    if r {
        s
    } else {
        let s = st_close(s, m_marker, SyntaxKind::TriplesSameSubject);
        s
    }
}

#[verifier::opaque]
pub open spec fn match_TriplesSameSubject_1(ts: Seq<SyntaxKind>, start: int, m_marker: int, s: St) -> (St, bool)
    decreases ts.len() - start, rank_TriplesSameSubject(peek_at(ts, start)), 32 * (ts.len() - s.pos) + 32 - 1,
{
    let s_in = s;
    if (peek_at(ts, s.pos) == SyntaxKind::IRIREF || peek_at(ts, s.pos) == SyntaxKind::PNAME_NS || peek_at(ts, s.pos) == SyntaxKind::STRING_LITERAL1 || peek_at(ts, s.pos) == SyntaxKind::STRING_LITERAL2 || peek_at(ts, s.pos) == SyntaxKind::INTEGER || peek_at(ts, s.pos) == SyntaxKind::NIL || peek_at(ts, s.pos) == SyntaxKind::DoubleLessLParen || peek_at(ts, s.pos) == SyntaxKind::VAR1 || peek_at(ts, s.pos) == SyntaxKind::VAR2 || peek_at(ts, s.pos) == SyntaxKind::DECIMAL || peek_at(ts, s.pos) == SyntaxKind::DOUBLE || peek_at(ts, s.pos) == SyntaxKind::INTEGER_POSITIVE || peek_at(ts, s.pos) == SyntaxKind::DECIMAL_POSITIVE || peek_at(ts, s.pos) == SyntaxKind::DOUBLE_POSITIVE || peek_at(ts, s.pos) == SyntaxKind::INTEGER_NEGATIVE || peek_at(ts, s.pos) == SyntaxKind::DECIMAL_NEGATIVE || peek_at(ts, s.pos) == SyntaxKind::DOUBLE_NEGATIVE || peek_at(ts, s.pos) == SyntaxKind::True || peek_at(ts, s.pos) == SyntaxKind::False || peek_at(ts, s.pos) == SyntaxKind::STRING_LITERAL_LONG1 || peek_at(ts, s.pos) == SyntaxKind::STRING_LITERAL_LONG2 || peek_at(ts, s.pos) == SyntaxKind::PNAME_LN || peek_at(ts, s.pos) == SyntaxKind::BLANK_NODE_LABEL || peek_at(ts, s.pos) == SyntaxKind::ANON) {
        let s = if call_ok(ts, start, s, rank_VarOrTerm(peek_at(ts, s.pos)), rank_TriplesSameSubject(peek_at(ts, start))) {
            rule_VarOrTerm(ts, s)
        } else {
            s
        };
        let s = if call_ok(ts, start, s, rank_PropertyListNotEmpty(peek_at(ts, s.pos)), rank_TriplesSameSubject(peek_at(ts, start))) {
            rule_PropertyListNotEmpty(ts, s)
        } else {
            s
        };
        (s, false)
    } else if (peek_at(ts, s.pos) == SyntaxKind::LParen || peek_at(ts, s.pos) == SyntaxKind::LBrack) {
        let s = if call_ok(ts, start, s, rank_TriplesNode(peek_at(ts, s.pos)), rank_TriplesSameSubject(peek_at(ts, start))) {
            rule_TriplesNode(ts, s)
        } else {
            s
        };
        let s = if call_ok(ts, start, s, rank_PropertyList(peek_at(ts, s.pos)), rank_TriplesSameSubject(peek_at(ts, start))) {
            rule_PropertyList(ts, s)
        } else {
            s
        };
        (s, false)
    } else if (peek_at(ts, s.pos) == SyntaxKind::DoubleLess) {
        let s = if call_ok(ts, start, s, rank_ReifiedTripleBlock(peek_at(ts, s.pos)), rank_TriplesSameSubject(peek_at(ts, start))) {
            rule_ReifiedTripleBlock(ts, s)
        } else {
            s
        };
        (s, false)
    } else if (peek_at(ts, s.pos) == SyntaxKind::Eof) {
        let s = st_close(s, m_marker, SyntaxKind::TriplesSameSubject);
        let m_marker = s.evs.len() as int;
        let s = st_open(s);
        let s = st_close(s, m_marker, SyntaxKind::Error);
        (s, true)
    } else {
        let s = st_advance_with_error(ts, s, seq![SyntaxKind::IRIREF, SyntaxKind::PNAME_NS, SyntaxKind::STRING_LITERAL1, SyntaxKind::STRING_LITERAL2, SyntaxKind::INTEGER, SyntaxKind::NIL, SyntaxKind::DoubleLessLParen, SyntaxKind::VAR1, SyntaxKind::VAR2, SyntaxKind::DECIMAL, SyntaxKind::DOUBLE, SyntaxKind::INTEGER_POSITIVE, SyntaxKind::DECIMAL_POSITIVE, SyntaxKind::DOUBLE_POSITIVE, SyntaxKind::INTEGER_NEGATIVE, SyntaxKind::DECIMAL_NEGATIVE, SyntaxKind::DOUBLE_NEGATIVE, SyntaxKind::True, SyntaxKind::False, SyntaxKind::STRING_LITERAL_LONG1, SyntaxKind::STRING_LITERAL_LONG2, SyntaxKind::PNAME_LN, SyntaxKind::BLANK_NODE_LABEL, SyntaxKind::ANON, SyntaxKind::LParen, SyntaxKind::LBrack, SyntaxKind::DoubleLess]);
        (s, false)
    }
}

/// [65] TriplesSameSubject -> VarOrTerm PropertyListNotEmpty | TriplesNode PropertyList | ReifiedTripleBlock
pub(crate) fn parse_TriplesSameSubject(p: &mut Parser)
    requires
        old(p).wf(),
    ensures
        Parser::step(*old(p), *final(p)),
        final(p).pos == old(p).pos ==> is_sync_point(old(p).peek()),
        old(p).events@.len() < final(p).events@.len(),
        final(p).events@[old(p).events@.len() as int] == (Event::Open { kind: SyntaxKind::TriplesSameSubject }),
        final(p).events@.last() is Close,
        final(p).st() == rule_TriplesSameSubject(old(p).kinds(), old(p).st()),
    decreases old(p).remaining(), rank_TriplesSameSubject(old(p).peek()), 1int,
{
    let ghost ks = p.kinds();
    let ghost s0 = p.st();
    let ghost start = p.pos as int;
    let marker = p.open();
    let ghost gm1 = marker.index as int;
    let ghost pre1 = p.st();
    match p.nth(0) {
        SyntaxKind::IRIREF | SyntaxKind::PNAME_NS | SyntaxKind::STRING_LITERAL1 | SyntaxKind::STRING_LITERAL2 | SyntaxKind::INTEGER | SyntaxKind::NIL | SyntaxKind::DoubleLessLParen | SyntaxKind::VAR1 | SyntaxKind::VAR2 | SyntaxKind::DECIMAL | SyntaxKind::DOUBLE | SyntaxKind::INTEGER_POSITIVE | SyntaxKind::DECIMAL_POSITIVE | SyntaxKind::DOUBLE_POSITIVE | SyntaxKind::INTEGER_NEGATIVE | SyntaxKind::DECIMAL_NEGATIVE | SyntaxKind::DOUBLE_NEGATIVE | SyntaxKind::True | SyntaxKind::False | SyntaxKind::STRING_LITERAL_LONG1 | SyntaxKind::STRING_LITERAL_LONG2 | SyntaxKind::PNAME_LN | SyntaxKind::BLANK_NODE_LABEL | SyntaxKind::ANON => {
            proof {
                assert(call_ok(ks, start, p.st(), rank_VarOrTerm(peek_at(ks, p.st().pos)), rank_TriplesSameSubject(peek_at(ks, start)))) by {
                    reveal(Parser::st);
                    assert(peek_at(ks, start) == old(p).peek());
                    assert(peek_at(ks, p.pos as int) == p.peek());
                }
            }
            parse_VarOrTerm(p);
            proof {
                assert(call_ok(ks, start, p.st(), rank_PropertyListNotEmpty(peek_at(ks, p.st().pos)), rank_TriplesSameSubject(peek_at(ks, start)))) by {
                    reveal(Parser::st);
                    assert(peek_at(ks, start) == old(p).peek());
                    assert(peek_at(ks, p.pos as int) == p.peek());
                }
            }
            parse_PropertyListNotEmpty(p);
            proof {
                assert(match_TriplesSameSubject_1(ks, start, gm1, pre1) == (p.st(), false)) by {
                    reveal_with_fuel(match_TriplesSameSubject_1, 1); reveal_with_fuel(rule_PropertyListNotEmpty, 1); reveal_with_fuel(rule_VarOrTerm, 1);
                }
            }
        },
        SyntaxKind::LParen | SyntaxKind::LBrack => {
            proof {
                assert(call_ok(ks, start, p.st(), rank_TriplesNode(peek_at(ks, p.st().pos)), rank_TriplesSameSubject(peek_at(ks, start)))) by {
                    reveal(Parser::st);
                    assert(peek_at(ks, start) == old(p).peek());
                    assert(peek_at(ks, p.pos as int) == p.peek());
                }
            }
            parse_TriplesNode(p);
            proof {
                assert(call_ok(ks, start, p.st(), rank_PropertyList(peek_at(ks, p.st().pos)), rank_TriplesSameSubject(peek_at(ks, start)))) by {
                    reveal(Parser::st);
                    assert(peek_at(ks, start) == old(p).peek());
                    assert(peek_at(ks, p.pos as int) == p.peek());
                }
            }
            parse_PropertyList(p);
            proof {
                assert(match_TriplesSameSubject_1(ks, start, gm1, pre1) == (p.st(), false)) by {
                    reveal_with_fuel(match_TriplesSameSubject_1, 1); reveal_with_fuel(rule_PropertyList, 1); reveal_with_fuel(rule_TriplesNode, 1);
                }
            }
        },
        SyntaxKind::DoubleLess => {
            proof {
                assert(call_ok(ks, start, p.st(), rank_ReifiedTripleBlock(peek_at(ks, p.st().pos)), rank_TriplesSameSubject(peek_at(ks, start)))) by {
                    reveal(Parser::st);
                    assert(peek_at(ks, start) == old(p).peek());
                    assert(peek_at(ks, p.pos as int) == p.peek());
                }
            }
            parse_ReifiedTripleBlock(p);
            proof {
                assert(match_TriplesSameSubject_1(ks, start, gm1, pre1) == (p.st(), false)) by {
                    reveal_with_fuel(match_TriplesSameSubject_1, 1); reveal_with_fuel(rule_ReifiedTripleBlock, 1);
                }
            }
        },
        SyntaxKind::Eof => {
            p.close(marker, SyntaxKind::TriplesSameSubject);
            let marker = p.open();
            let ghost gm2 = marker.index as int;
            p.close(marker, SyntaxKind::Error);
            proof {
                assert(match_TriplesSameSubject_1(ks, start, gm1, pre1) == (p.st(), true)) by {
                    reveal_with_fuel(match_TriplesSameSubject_1, 1);
                }
            }
            proof {
                assert(rule_TriplesSameSubject(ks, s0) == p.st()) by {
                    reveal_with_fuel(rule_TriplesSameSubject, 1); reveal_with_fuel(match_TriplesSameSubject_1, 1);
                }
            }
            return ;
        },
        _ => {
            p.advance_with_error(vec![SyntaxKind::IRIREF, SyntaxKind::PNAME_NS, SyntaxKind::STRING_LITERAL1, SyntaxKind::STRING_LITERAL2, SyntaxKind::INTEGER, SyntaxKind::NIL, SyntaxKind::DoubleLessLParen, SyntaxKind::VAR1, SyntaxKind::VAR2, SyntaxKind::DECIMAL, SyntaxKind::DOUBLE, SyntaxKind::INTEGER_POSITIVE, SyntaxKind::DECIMAL_POSITIVE, SyntaxKind::DOUBLE_POSITIVE, SyntaxKind::INTEGER_NEGATIVE, SyntaxKind::DECIMAL_NEGATIVE, SyntaxKind::DOUBLE_NEGATIVE, SyntaxKind::True, SyntaxKind::False, SyntaxKind::STRING_LITERAL_LONG1, SyntaxKind::STRING_LITERAL_LONG2, SyntaxKind::PNAME_LN, SyntaxKind::BLANK_NODE_LABEL, SyntaxKind::ANON, SyntaxKind::LParen, SyntaxKind::LBrack, SyntaxKind::DoubleLess]);
            proof {
                assert(match_TriplesSameSubject_1(ks, start, gm1, pre1) == (p.st(), false)) by {
                    reveal_with_fuel(match_TriplesSameSubject_1, 1);
                }
            }
        },
    }
    p.close(marker, SyntaxKind::TriplesSameSubject);
    proof {
        assert(rule_TriplesSameSubject(ks, s0) == p.st()) by {
            reveal_with_fuel(rule_TriplesSameSubject, 1); reveal_with_fuel(match_TriplesSameSubject_1, 1);
        }
    }
}

pub open spec fn rank_GroupGraphPatternSub(t: SyntaxKind) -> nat {
    match t {
        SyntaxKind::BIND | SyntaxKind::FILTER | SyntaxKind::GRAPH | SyntaxKind::MINUS | SyntaxKind::OPTIONAL | SyntaxKind::SERVICE | SyntaxKind::VALUES => 2,
        SyntaxKind::LCurly | SyntaxKind::NIL => 3,
        SyntaxKind::ANON | SyntaxKind::BLANK_NODE_LABEL | SyntaxKind::DoubleLess | SyntaxKind::DoubleLessLParen | SyntaxKind::False | SyntaxKind::IRIREF | SyntaxKind::LBrack | SyntaxKind::LParen | SyntaxKind::True | SyntaxKind::VAR1 | SyntaxKind::VAR2 => 4,
        SyntaxKind::DECIMAL | SyntaxKind::DECIMAL_NEGATIVE | SyntaxKind::DECIMAL_POSITIVE | SyntaxKind::DOUBLE | SyntaxKind::DOUBLE_NEGATIVE | SyntaxKind::DOUBLE_POSITIVE | SyntaxKind::INTEGER | SyntaxKind::INTEGER_NEGATIVE | SyntaxKind::INTEGER_POSITIVE | SyntaxKind::PNAME_LN | SyntaxKind::PNAME_NS | SyntaxKind::STRING_LITERAL1 | SyntaxKind::STRING_LITERAL2 | SyntaxKind::STRING_LITERAL_LONG1 | SyntaxKind::STRING_LITERAL_LONG2 => 5,
        _ => 0,
    }
}

/// What [`parse_GroupGraphPatternSub`] makes of the parser state.
#[verifier::opaque]
pub open spec fn rule_GroupGraphPatternSub(ts: Seq<SyntaxKind>, s: St) -> St
    decreases ts.len() - s.pos, rank_GroupGraphPatternSub(peek_at(ts, s.pos)), 32 * (ts.len() - s.pos) + 32,
{
    let start = s.pos;
    let s_in = s;
    let (s, r) = if s_in.pos <= s.pos <= ts.len() {
        if_GroupGraphPatternSub_1(ts, start, s)
    } else {
        (s, false)
    };
    if r {
        s
    } else {
        let m_marker = s.evs.len() as int;
        let s = st_open(s);
        let s = if s_in.pos <= s.pos <= ts.len() {
            if_GroupGraphPatternSub_2(ts, start, m_marker, s)
        } else {
            s
        };
        let s = if s_in.pos <= s.pos <= ts.len() {
            loop_GroupGraphPatternSub_3(ts, start, m_marker, s)
        } else {
            s
        };
        let s = st_close(s, m_marker, SyntaxKind::GroupGraphPatternSub);
        s
    }
}

#[verifier::opaque]
pub open spec fn if_GroupGraphPatternSub_1(ts: Seq<SyntaxKind>, start: int, s: St) -> (St, bool)
    decreases ts.len() - start, rank_GroupGraphPatternSub(peek_at(ts, start)), 32 * (ts.len() - s.pos) + 32 - 1,
{
    let s_in = s;
    if !(peek_at(ts, s.pos) == SyntaxKind::IRIREF || peek_at(ts, s.pos) == SyntaxKind::PNAME_NS || peek_at(ts, s.pos) == SyntaxKind::STRING_LITERAL1 || peek_at(ts, s.pos) == SyntaxKind::STRING_LITERAL2 || peek_at(ts, s.pos) == SyntaxKind::LParen || peek_at(ts, s.pos) == SyntaxKind::LCurly || peek_at(ts, s.pos) == SyntaxKind::INTEGER || peek_at(ts, s.pos) == SyntaxKind::VALUES || peek_at(ts, s.pos) == SyntaxKind::GRAPH || peek_at(ts, s.pos) == SyntaxKind::OPTIONAL || peek_at(ts, s.pos) == SyntaxKind::SERVICE || peek_at(ts, s.pos) == SyntaxKind::BIND || peek_at(ts, s.pos) == SyntaxKind::NIL || peek_at(ts, s.pos) == SyntaxKind::MINUS || peek_at(ts, s.pos) == SyntaxKind::FILTER || peek_at(ts, s.pos) == SyntaxKind::LBrack || peek_at(ts, s.pos) == SyntaxKind::DoubleLess || peek_at(ts, s.pos) == SyntaxKind::DoubleLessLParen || peek_at(ts, s.pos) == SyntaxKind::VAR1 || peek_at(ts, s.pos) == SyntaxKind::VAR2 || peek_at(ts, s.pos) == SyntaxKind::DECIMAL || peek_at(ts, s.pos) == SyntaxKind::DOUBLE || peek_at(ts, s.pos) == SyntaxKind::INTEGER_POSITIVE || peek_at(ts, s.pos) == SyntaxKind::DECIMAL_POSITIVE || peek_at(ts, s.pos) == SyntaxKind::DOUBLE_POSITIVE || peek_at(ts, s.pos) == SyntaxKind::INTEGER_NEGATIVE || peek_at(ts, s.pos) == SyntaxKind::DECIMAL_NEGATIVE || peek_at(ts, s.pos) == SyntaxKind::DOUBLE_NEGATIVE || peek_at(ts, s.pos) == SyntaxKind::True || peek_at(ts, s.pos) == SyntaxKind::False || peek_at(ts, s.pos) == SyntaxKind::STRING_LITERAL_LONG1 || peek_at(ts, s.pos) == SyntaxKind::STRING_LITERAL_LONG2 || peek_at(ts, s.pos) == SyntaxKind::PNAME_LN || peek_at(ts, s.pos) == SyntaxKind::BLANK_NODE_LABEL || peek_at(ts, s.pos) == SyntaxKind::ANON) {
        (s, true)
    } else {
        (s, false)
    }
}

#[verifier::opaque]
pub open spec fn if_GroupGraphPatternSub_2(ts: Seq<SyntaxKind>, start: int, m_marker: int, s: St) -> St
    decreases ts.len() - start, rank_GroupGraphPatternSub(peek_at(ts, start)), 32 * (ts.len() - s.pos) + 32 - 1,
{
    let s_in = s;
    if (peek_at(ts, s.pos) == SyntaxKind::IRIREF || peek_at(ts, s.pos) == SyntaxKind::PNAME_NS || peek_at(ts, s.pos) == SyntaxKind::STRING_LITERAL1 || peek_at(ts, s.pos) == SyntaxKind::STRING_LITERAL2 || peek_at(ts, s.pos) == SyntaxKind::LParen || peek_at(ts, s.pos) == SyntaxKind::INTEGER || peek_at(ts, s.pos) == SyntaxKind::NIL || peek_at(ts, s.pos) == SyntaxKind::LBrack || peek_at(ts, s.pos) == SyntaxKind::DoubleLess || peek_at(ts, s.pos) == SyntaxKind::DoubleLessLParen || peek_at(ts, s.pos) == SyntaxKind::VAR1 || peek_at(ts, s.pos) == SyntaxKind::VAR2 || peek_at(ts, s.pos) == SyntaxKind::DECIMAL || peek_at(ts, s.pos) == SyntaxKind::DOUBLE || peek_at(ts, s.pos) == SyntaxKind::INTEGER_POSITIVE || peek_at(ts, s.pos) == SyntaxKind::DECIMAL_POSITIVE || peek_at(ts, s.pos) == SyntaxKind::DOUBLE_POSITIVE || peek_at(ts, s.pos) == SyntaxKind::INTEGER_NEGATIVE || peek_at(ts, s.pos) == SyntaxKind::DECIMAL_NEGATIVE || peek_at(ts, s.pos) == SyntaxKind::DOUBLE_NEGATIVE || peek_at(ts, s.pos) == SyntaxKind::True || peek_at(ts, s.pos) == SyntaxKind::False || peek_at(ts, s.pos) == SyntaxKind::STRING_LITERAL_LONG1 || peek_at(ts, s.pos) == SyntaxKind::STRING_LITERAL_LONG2 || peek_at(ts, s.pos) == SyntaxKind::PNAME_LN || peek_at(ts, s.pos) == SyntaxKind::BLANK_NODE_LABEL || peek_at(ts, s.pos) == SyntaxKind::ANON) {
        let s = if call_ok(ts, start, s, rank_TriplesBlock(peek_at(ts, s.pos)), rank_GroupGraphPatternSub(peek_at(ts, start))) {
            rule_TriplesBlock(ts, s)
        } else {
            s
        };
        s
    } else {
        s
    }
}

#[verifier::opaque]
pub open spec fn if_GroupGraphPatternSub_5(ts: Seq<SyntaxKind>, start: int, m_marker: int, s: St) -> St
    decreases ts.len() - start, rank_GroupGraphPatternSub(peek_at(ts, start)), 32 * (ts.len() - s.pos) + 32 - 3,
{
    let s_in = s;
    if (peek_at(ts, s.pos) == SyntaxKind::Dot) {
        let s = st_expect(ts, s, SyntaxKind::Dot);
        s
    } else {
        s
    }
}

#[verifier::opaque]
pub open spec fn if_GroupGraphPatternSub_6(ts: Seq<SyntaxKind>, start: int, m_marker: int, s: St) -> St
    decreases ts.len() - start, rank_GroupGraphPatternSub(peek_at(ts, start)), 32 * (ts.len() - s.pos) + 32 - 3,
{
    let s_in = s;
    if (peek_at(ts, s.pos) == SyntaxKind::IRIREF || peek_at(ts, s.pos) == SyntaxKind::PNAME_NS || peek_at(ts, s.pos) == SyntaxKind::STRING_LITERAL1 || peek_at(ts, s.pos) == SyntaxKind::STRING_LITERAL2 || peek_at(ts, s.pos) == SyntaxKind::LParen || peek_at(ts, s.pos) == SyntaxKind::INTEGER || peek_at(ts, s.pos) == SyntaxKind::NIL || peek_at(ts, s.pos) == SyntaxKind::LBrack || peek_at(ts, s.pos) == SyntaxKind::DoubleLess || peek_at(ts, s.pos) == SyntaxKind::DoubleLessLParen || peek_at(ts, s.pos) == SyntaxKind::VAR1 || peek_at(ts, s.pos) == SyntaxKind::VAR2 || peek_at(ts, s.pos) == SyntaxKind::DECIMAL || peek_at(ts, s.pos) == SyntaxKind::DOUBLE || peek_at(ts, s.pos) == SyntaxKind::INTEGER_POSITIVE || peek_at(ts, s.pos) == SyntaxKind::DECIMAL_POSITIVE || peek_at(ts, s.pos) == SyntaxKind::DOUBLE_POSITIVE || peek_at(ts, s.pos) == SyntaxKind::INTEGER_NEGATIVE || peek_at(ts, s.pos) == SyntaxKind::DECIMAL_NEGATIVE || peek_at(ts, s.pos) == SyntaxKind::DOUBLE_NEGATIVE || peek_at(ts, s.pos) == SyntaxKind::True || peek_at(ts, s.pos) == SyntaxKind::False || peek_at(ts, s.pos) == SyntaxKind::STRING_LITERAL_LONG1 || peek_at(ts, s.pos) == SyntaxKind::STRING_LITERAL_LONG2 || peek_at(ts, s.pos) == SyntaxKind::PNAME_LN || peek_at(ts, s.pos) == SyntaxKind::BLANK_NODE_LABEL || peek_at(ts, s.pos) == SyntaxKind::ANON) {
        let s = if call_ok(ts, start, s, rank_TriplesBlock(peek_at(ts, s.pos)), rank_GroupGraphPatternSub(peek_at(ts, start))) {
            rule_TriplesBlock(ts, s)
        } else {
            s
        };
        s
    } else {
        s
    }
}

#[verifier::opaque]
pub open spec fn loop_GroupGraphPatternSub_3(ts: Seq<SyntaxKind>, start: int, m_marker: int, s: St) -> St
    decreases ts.len() - start, rank_GroupGraphPatternSub(peek_at(ts, start)), 32 * (ts.len() - s.pos) + 32 - 1,
{
    let s_in = s;
    if (peek_at(ts, s.pos) == SyntaxKind::LCurly || peek_at(ts, s.pos) == SyntaxKind::VALUES || peek_at(ts, s.pos) == SyntaxKind::GRAPH || peek_at(ts, s.pos) == SyntaxKind::OPTIONAL || peek_at(ts, s.pos) == SyntaxKind::SERVICE || peek_at(ts, s.pos) == SyntaxKind::BIND || peek_at(ts, s.pos) == SyntaxKind::MINUS || peek_at(ts, s.pos) == SyntaxKind::FILTER) && s.pos <= ts.len() {
        let s1 = body_GroupGraphPatternSub_4(ts, start, m_marker, s);
        if s1.pos == s.pos {
            s1
        } else if s.pos < s1.pos <= ts.len() {
            loop_GroupGraphPatternSub_3(ts, start, m_marker, s1)
        } else {
            s1
        }
    } else {
        s
    }
}

#[verifier::opaque]
pub open spec fn body_GroupGraphPatternSub_4(ts: Seq<SyntaxKind>, start: int, m_marker: int, s: St) -> St
    decreases ts.len() - start, rank_GroupGraphPatternSub(peek_at(ts, start)), 32 * (ts.len() - s.pos) + 32 - 2,
{
    let s_in = s;
    let s = if call_ok(ts, start, s, rank_GraphPatternNotTriples(peek_at(ts, s.pos)), rank_GroupGraphPatternSub(peek_at(ts, start))) {
        rule_GraphPatternNotTriples(ts, s)
    } else {
        s
    };
    let s = if s_in.pos <= s.pos <= ts.len() {
        if_GroupGraphPatternSub_5(ts, start, m_marker, s)
    } else {
        s
    };
    let s = if s_in.pos <= s.pos <= ts.len() {
        if_GroupGraphPatternSub_6(ts, start, m_marker, s)
    } else {
        s
    };
    s
}

/// [66] GroupGraphPatternSub -> TriplesBlock? (GraphPatternNotTriples '.'? TriplesBlock?)*
pub(crate) fn parse_GroupGraphPatternSub(p: &mut Parser)
    requires
        old(p).wf(),
    ensures
        Parser::step(*old(p), *final(p)),
        final(p).pos == old(p).pos ==> !(old(p).peek() == SyntaxKind::ANON || old(p).peek() == SyntaxKind::BLANK_NODE_LABEL || old(p).peek() == SyntaxKind::DECIMAL || old(p).peek() == SyntaxKind::DECIMAL_NEGATIVE || old(p).peek() == SyntaxKind::DECIMAL_POSITIVE || old(p).peek() == SyntaxKind::DOUBLE || old(p).peek() == SyntaxKind::DOUBLE_NEGATIVE || old(p).peek() == SyntaxKind::DOUBLE_POSITIVE || old(p).peek() == SyntaxKind::DoubleLess || old(p).peek() == SyntaxKind::DoubleLessLParen || old(p).peek() == SyntaxKind::False || old(p).peek() == SyntaxKind::INTEGER || old(p).peek() == SyntaxKind::INTEGER_NEGATIVE || old(p).peek() == SyntaxKind::INTEGER_POSITIVE || old(p).peek() == SyntaxKind::IRIREF || old(p).peek() == SyntaxKind::LBrack || old(p).peek() == SyntaxKind::LParen || old(p).peek() == SyntaxKind::NIL || old(p).peek() == SyntaxKind::PNAME_LN || old(p).peek() == SyntaxKind::PNAME_NS || old(p).peek() == SyntaxKind::STRING_LITERAL1 || old(p).peek() == SyntaxKind::STRING_LITERAL2 || old(p).peek() == SyntaxKind::STRING_LITERAL_LONG1 || old(p).peek() == SyntaxKind::STRING_LITERAL_LONG2 || old(p).peek() == SyntaxKind::True || old(p).peek() == SyntaxKind::VAR1 || old(p).peek() == SyntaxKind::VAR2),
        old(p).events@.len() < final(p).events@.len() ==> final(p).events@[old(p).events@.len() as int] == (Event::Open {
            kind: SyntaxKind::GroupGraphPatternSub,
        }) && final(p).events@.last() is Close,
        final(p).st() == rule_GroupGraphPatternSub(old(p).kinds(), old(p).st()),
    decreases old(p).remaining(), rank_GroupGraphPatternSub(old(p).peek()), 1int,
{
    let ghost ks = p.kinds();
    let ghost s0 = p.st();
    let ghost start = p.pos as int;
    let ghost pre1 = p.st();
    if !p.at_any(&[SyntaxKind::IRIREF, SyntaxKind::PNAME_NS, SyntaxKind::STRING_LITERAL1, SyntaxKind::STRING_LITERAL2, SyntaxKind::LParen, SyntaxKind::LCurly, SyntaxKind::INTEGER, SyntaxKind::VALUES, SyntaxKind::GRAPH, SyntaxKind::OPTIONAL, SyntaxKind::SERVICE, SyntaxKind::BIND, SyntaxKind::NIL, SyntaxKind::MINUS, SyntaxKind::FILTER, SyntaxKind::LBrack, SyntaxKind::DoubleLess, SyntaxKind::DoubleLessLParen, SyntaxKind::VAR1, SyntaxKind::VAR2, SyntaxKind::DECIMAL, SyntaxKind::DOUBLE, SyntaxKind::INTEGER_POSITIVE, SyntaxKind::DECIMAL_POSITIVE, SyntaxKind::DOUBLE_POSITIVE, SyntaxKind::INTEGER_NEGATIVE, SyntaxKind::DECIMAL_NEGATIVE, SyntaxKind::DOUBLE_NEGATIVE, SyntaxKind::True, SyntaxKind::False, SyntaxKind::STRING_LITERAL_LONG1, SyntaxKind::STRING_LITERAL_LONG2, SyntaxKind::PNAME_LN, SyntaxKind::BLANK_NODE_LABEL, SyntaxKind::ANON]) {
        proof {
            assert(if_GroupGraphPatternSub_1(ks, start, pre1) == (p.st(), true)) by {
                reveal_with_fuel(if_GroupGraphPatternSub_1, 1);
            }
        }
        proof {
            assert(rule_GroupGraphPatternSub(ks, s0) == p.st()) by {
                reveal_with_fuel(rule_GroupGraphPatternSub, 1); reveal_with_fuel(if_GroupGraphPatternSub_1, 1); reveal_with_fuel(if_GroupGraphPatternSub_2, 1); reveal_with_fuel(loop_GroupGraphPatternSub_3, 1);
            }
        }
        return ;
    } else {
        proof {
            assert(if_GroupGraphPatternSub_1(ks, start, pre1) == (p.st(), false)) by {
                reveal_with_fuel(if_GroupGraphPatternSub_1, 1);
            }
        }
    }
    let marker = p.open();
    let ghost gm1 = marker.index as int;
    let ghost pre2 = p.st();
    if p.at_any(&[SyntaxKind::IRIREF, SyntaxKind::PNAME_NS, SyntaxKind::STRING_LITERAL1, SyntaxKind::STRING_LITERAL2, SyntaxKind::LParen, SyntaxKind::INTEGER, SyntaxKind::NIL, SyntaxKind::LBrack, SyntaxKind::DoubleLess, SyntaxKind::DoubleLessLParen, SyntaxKind::VAR1, SyntaxKind::VAR2, SyntaxKind::DECIMAL, SyntaxKind::DOUBLE, SyntaxKind::INTEGER_POSITIVE, SyntaxKind::DECIMAL_POSITIVE, SyntaxKind::DOUBLE_POSITIVE, SyntaxKind::INTEGER_NEGATIVE, SyntaxKind::DECIMAL_NEGATIVE, SyntaxKind::DOUBLE_NEGATIVE, SyntaxKind::True, SyntaxKind::False, SyntaxKind::STRING_LITERAL_LONG1, SyntaxKind::STRING_LITERAL_LONG2, SyntaxKind::PNAME_LN, SyntaxKind::BLANK_NODE_LABEL, SyntaxKind::ANON]) {
        proof {
            assert(call_ok(ks, start, p.st(), rank_TriplesBlock(peek_at(ks, p.st().pos)), rank_GroupGraphPatternSub(peek_at(ks, start)))) by {
                reveal(Parser::st);
                assert(peek_at(ks, start) == old(p).peek());
                assert(peek_at(ks, p.pos as int) == p.peek());
            }
        }
        parse_TriplesBlock(p);
        proof {
            assert(if_GroupGraphPatternSub_2(ks, start, gm1, pre2) == p.st()) by {
                reveal_with_fuel(if_GroupGraphPatternSub_2, 1); reveal_with_fuel(rule_TriplesBlock, 1);
            }
        }
    } else {
        proof {
            assert(if_GroupGraphPatternSub_2(ks, start, gm1, pre2) == p.st()) by {
                reveal_with_fuel(if_GroupGraphPatternSub_2, 1);
            }
        }
    }
    let ghost pre3 = p.st();
    proof {
        assert(p.st().pos == p.pos as int) by {
            reveal(Parser::st);
        }
        if !(peek_at(ks, p.st().pos) == SyntaxKind::LCurly || peek_at(ks, p.st().pos) == SyntaxKind::VALUES || peek_at(ks, p.st().pos) == SyntaxKind::GRAPH || peek_at(ks, p.st().pos) == SyntaxKind::OPTIONAL || peek_at(ks, p.st().pos) == SyntaxKind::SERVICE || peek_at(ks, p.st().pos) == SyntaxKind::BIND || peek_at(ks, p.st().pos) == SyntaxKind::MINUS || peek_at(ks, p.st().pos) == SyntaxKind::FILTER) {
            assert(loop_GroupGraphPatternSub_3(ks, start, gm1, pre3) == pre3) by {
                reveal_with_fuel(loop_GroupGraphPatternSub_3, 1); reveal_with_fuel(body_GroupGraphPatternSub_4, 1);
            }
        }
    }
    while p.at_any(&[SyntaxKind::LCurly, SyntaxKind::VALUES, SyntaxKind::GRAPH, SyntaxKind::OPTIONAL, SyntaxKind::SERVICE, SyntaxKind::BIND, SyntaxKind::MINUS, SyntaxKind::FILTER])
        invariant
            marker.index == old(p).events@.len(),
            p.wf(),
            p.tokens@ == old(p).tokens@,
            old(p).pos <= p.pos,
            p.stack() == old(p).stack().push(marker.index as int),
            p.pos == old(p).pos ==> (old(p).peek() == SyntaxKind::BIND || old(p).peek() == SyntaxKind::FILTER || old(p).peek() == SyntaxKind::GRAPH || old(p).peek() == SyntaxKind::LCurly || old(p).peek() == SyntaxKind::MINUS || old(p).peek() == SyntaxKind::OPTIONAL || old(p).peek() == SyntaxKind::SERVICE || old(p).peek() == SyntaxKind::VALUES),
            ks == p.kinds(),
            p.st().pos == p.pos as int,
            start == old(p).pos as int,
            gm1 == marker.index as int,
            pre3.pos <= p.pos,
            start <= pre3.pos,
            loop_GroupGraphPatternSub_3(ks, start, gm1, p.st()) == loop_GroupGraphPatternSub_3(ks, start, gm1, pre3),
            !(peek_at(ks, p.st().pos) == SyntaxKind::LCurly || peek_at(ks, p.st().pos) == SyntaxKind::VALUES || peek_at(ks, p.st().pos) == SyntaxKind::GRAPH || peek_at(ks, p.st().pos) == SyntaxKind::OPTIONAL || peek_at(ks, p.st().pos) == SyntaxKind::SERVICE || peek_at(ks, p.st().pos) == SyntaxKind::BIND || peek_at(ks, p.st().pos) == SyntaxKind::MINUS || peek_at(ks, p.st().pos) == SyntaxKind::FILTER) ==> loop_GroupGraphPatternSub_3(ks, start, gm1, p.st()) == p.st(),
        ensures
            loop_GroupGraphPatternSub_3(ks, start, gm1, pre3) == p.st(),
        decreases p.remaining(),
    {
        let ghost si3 = p.st();
        let checkpoint1 = p.pos();
        proof {
            assert(call_ok(ks, start, p.st(), rank_GraphPatternNotTriples(peek_at(ks, p.st().pos)), rank_GroupGraphPatternSub(peek_at(ks, start)))) by {
                reveal(Parser::st);
                assert(peek_at(ks, start) == old(p).peek());
                assert(peek_at(ks, p.pos as int) == p.peek());
            }
        }
        parse_GraphPatternNotTriples(p);
        let ghost pre4 = p.st();
        if p.at_any(&[SyntaxKind::Dot]) {
            p.expect(SyntaxKind::Dot);
            proof {
                assert(if_GroupGraphPatternSub_5(ks, start, gm1, pre4) == p.st()) by {
                    reveal_with_fuel(if_GroupGraphPatternSub_5, 1);
                }
            }
        } else {
            proof {
                assert(if_GroupGraphPatternSub_5(ks, start, gm1, pre4) == p.st()) by {
                    reveal_with_fuel(if_GroupGraphPatternSub_5, 1);
                }
            }
        }
        let ghost pre5 = p.st();
        if p.at_any(&[SyntaxKind::IRIREF, SyntaxKind::PNAME_NS, SyntaxKind::STRING_LITERAL1, SyntaxKind::STRING_LITERAL2, SyntaxKind::LParen, SyntaxKind::INTEGER, SyntaxKind::NIL, SyntaxKind::LBrack, SyntaxKind::DoubleLess, SyntaxKind::DoubleLessLParen, SyntaxKind::VAR1, SyntaxKind::VAR2, SyntaxKind::DECIMAL, SyntaxKind::DOUBLE, SyntaxKind::INTEGER_POSITIVE, SyntaxKind::DECIMAL_POSITIVE, SyntaxKind::DOUBLE_POSITIVE, SyntaxKind::INTEGER_NEGATIVE, SyntaxKind::DECIMAL_NEGATIVE, SyntaxKind::DOUBLE_NEGATIVE, SyntaxKind::True, SyntaxKind::False, SyntaxKind::STRING_LITERAL_LONG1, SyntaxKind::STRING_LITERAL_LONG2, SyntaxKind::PNAME_LN, SyntaxKind::BLANK_NODE_LABEL, SyntaxKind::ANON]) {
            proof {
                assert(call_ok(ks, start, p.st(), rank_TriplesBlock(peek_at(ks, p.st().pos)), rank_GroupGraphPatternSub(peek_at(ks, start)))) by {
                    reveal(Parser::st);
                    assert(peek_at(ks, start) == old(p).peek());
                    assert(peek_at(ks, p.pos as int) == p.peek());
                }
            }
            parse_TriplesBlock(p);
            proof {
                assert(if_GroupGraphPatternSub_6(ks, start, gm1, pre5) == p.st()) by {
                    reveal_with_fuel(if_GroupGraphPatternSub_6, 1); reveal_with_fuel(rule_TriplesBlock, 1);
                }
            }
        } else {
            proof {
                assert(if_GroupGraphPatternSub_6(ks, start, gm1, pre5) == p.st()) by {
                    reveal_with_fuel(if_GroupGraphPatternSub_6, 1);
                }
            }
        }
        proof {
            assert(body_GroupGraphPatternSub_4(ks, start, gm1, si3) == p.st()) by {
                reveal_with_fuel(body_GroupGraphPatternSub_4, 1); reveal_with_fuel(if_GroupGraphPatternSub_5, 1); reveal_with_fuel(if_GroupGraphPatternSub_6, 1); reveal_with_fuel(rule_GraphPatternNotTriples, 1);
            }
        }
        if p.pos() == checkpoint1 {
            proof {
                assert(loop_GroupGraphPatternSub_3(ks, start, gm1, si3) == p.st()) by {
                    reveal_with_fuel(loop_GroupGraphPatternSub_3, 1); reveal_with_fuel(body_GroupGraphPatternSub_4, 1);
                }
            }
            break;
        }
        proof {
            assert(p.st().pos == p.pos as int) by {
                reveal(Parser::st);
            }
            assert(loop_GroupGraphPatternSub_3(ks, start, gm1, si3) == loop_GroupGraphPatternSub_3(ks, start, gm1, p.st())) by {
                reveal_with_fuel(loop_GroupGraphPatternSub_3, 1); reveal_with_fuel(body_GroupGraphPatternSub_4, 1);
                reveal(Parser::st);
            }
            if !(peek_at(ks, p.st().pos) == SyntaxKind::LCurly || peek_at(ks, p.st().pos) == SyntaxKind::VALUES || peek_at(ks, p.st().pos) == SyntaxKind::GRAPH || peek_at(ks, p.st().pos) == SyntaxKind::OPTIONAL || peek_at(ks, p.st().pos) == SyntaxKind::SERVICE || peek_at(ks, p.st().pos) == SyntaxKind::BIND || peek_at(ks, p.st().pos) == SyntaxKind::MINUS || peek_at(ks, p.st().pos) == SyntaxKind::FILTER) {
                assert(loop_GroupGraphPatternSub_3(ks, start, gm1, p.st()) == p.st()) by {
                    reveal_with_fuel(loop_GroupGraphPatternSub_3, 1); reveal_with_fuel(body_GroupGraphPatternSub_4, 1);
                }
            }
        }
    }
    p.close(marker, SyntaxKind::GroupGraphPatternSub);
    proof {
        assert(rule_GroupGraphPatternSub(ks, s0) == p.st()) by {
            reveal_with_fuel(rule_GroupGraphPatternSub, 1); reveal_with_fuel(if_GroupGraphPatternSub_1, 1); reveal_with_fuel(if_GroupGraphPatternSub_2, 1); reveal_with_fuel(loop_GroupGraphPatternSub_3, 1);
        }
    }
}

pub open spec fn rank_TriplesBlock(t: SyntaxKind) -> nat {
    match t {
        SyntaxKind::NIL => 2,
        SyntaxKind::ANON | SyntaxKind::BLANK_NODE_LABEL | SyntaxKind::DoubleLess | SyntaxKind::DoubleLessLParen | SyntaxKind::False | SyntaxKind::IRIREF | SyntaxKind::LBrack | SyntaxKind::LParen | SyntaxKind::True | SyntaxKind::VAR1 | SyntaxKind::VAR2 => 3,
        SyntaxKind::DECIMAL | SyntaxKind::DECIMAL_NEGATIVE | SyntaxKind::DECIMAL_POSITIVE | SyntaxKind::DOUBLE | SyntaxKind::DOUBLE_NEGATIVE | SyntaxKind::DOUBLE_POSITIVE | SyntaxKind::INTEGER | SyntaxKind::INTEGER_NEGATIVE | SyntaxKind::INTEGER_POSITIVE | SyntaxKind::PNAME_LN | SyntaxKind::PNAME_NS | SyntaxKind::STRING_LITERAL1 | SyntaxKind::STRING_LITERAL2 | SyntaxKind::STRING_LITERAL_LONG1 | SyntaxKind::STRING_LITERAL_LONG2 => 4,
        _ => 1,
    }
}

/// What [`parse_TriplesBlock`] makes of the parser state.
#[verifier::opaque]
pub open spec fn rule_TriplesBlock(ts: Seq<SyntaxKind>, s: St) -> St
    decreases ts.len() - s.pos, rank_TriplesBlock(peek_at(ts, s.pos)), 32 * (ts.len() - s.pos) + 32,
{
    let start = s.pos;
    let s_in = s;
    let m_marker = s.evs.len() as int;
    let s = st_open(s);
    let s = if call_ok(ts, start, s, rank_TriplesSameSubjectPath(peek_at(ts, s.pos)), rank_TriplesBlock(peek_at(ts, start))) {
        rule_TriplesSameSubjectPath(ts, s)
    } else {
        s
    };
    let s = if s_in.pos <= s.pos <= ts.len() {
        if_TriplesBlock_1(ts, start, m_marker, s)
    } else {
        s
    };
    let s = st_close(s, m_marker, SyntaxKind::TriplesBlock);
    s
}

#[verifier::opaque]
pub open spec fn if_TriplesBlock_2(ts: Seq<SyntaxKind>, start: int, m_marker: int, s: St) -> St
    decreases ts.len() - start, rank_TriplesBlock(peek_at(ts, start)), 32 * (ts.len() - s.pos) + 32 - 2,
{
    let s_in = s;
    if (peek_at(ts, s.pos) == SyntaxKind::IRIREF || peek_at(ts, s.pos) == SyntaxKind::PNAME_NS || peek_at(ts, s.pos) == SyntaxKind::STRING_LITERAL1 || peek_at(ts, s.pos) == SyntaxKind::STRING_LITERAL2 || peek_at(ts, s.pos) == SyntaxKind::LParen || peek_at(ts, s.pos) == SyntaxKind::INTEGER || peek_at(ts, s.pos) == SyntaxKind::NIL || peek_at(ts, s.pos) == SyntaxKind::LBrack || peek_at(ts, s.pos) == SyntaxKind::DoubleLess || peek_at(ts, s.pos) == SyntaxKind::DoubleLessLParen || peek_at(ts, s.pos) == SyntaxKind::VAR1 || peek_at(ts, s.pos) == SyntaxKind::VAR2 || peek_at(ts, s.pos) == SyntaxKind::DECIMAL || peek_at(ts, s.pos) == SyntaxKind::DOUBLE || peek_at(ts, s.pos) == SyntaxKind::INTEGER_POSITIVE || peek_at(ts, s.pos) == SyntaxKind::DECIMAL_POSITIVE || peek_at(ts, s.pos) == SyntaxKind::DOUBLE_POSITIVE || peek_at(ts, s.pos) == SyntaxKind::INTEGER_NEGATIVE || peek_at(ts, s.pos) == SyntaxKind::DECIMAL_NEGATIVE || peek_at(ts, s.pos) == SyntaxKind::DOUBLE_NEGATIVE || peek_at(ts, s.pos) == SyntaxKind::True || peek_at(ts, s.pos) == SyntaxKind::False || peek_at(ts, s.pos) == SyntaxKind::STRING_LITERAL_LONG1 || peek_at(ts, s.pos) == SyntaxKind::STRING_LITERAL_LONG2 || peek_at(ts, s.pos) == SyntaxKind::PNAME_LN || peek_at(ts, s.pos) == SyntaxKind::BLANK_NODE_LABEL || peek_at(ts, s.pos) == SyntaxKind::ANON) {
        let s = if call_ok(ts, start, s, rank_TriplesBlock(peek_at(ts, s.pos)), rank_TriplesBlock(peek_at(ts, start))) {
            rule_TriplesBlock(ts, s)
        } else {
            s
        };
        s
    } else {
        s
    }
}

#[verifier::opaque]
pub open spec fn if_TriplesBlock_1(ts: Seq<SyntaxKind>, start: int, m_marker: int, s: St) -> St
    decreases ts.len() - start, rank_TriplesBlock(peek_at(ts, start)), 32 * (ts.len() - s.pos) + 32 - 1,
{
    let s_in = s;
    if (peek_at(ts, s.pos) == SyntaxKind::Dot) {
        let s = st_expect(ts, s, SyntaxKind::Dot);
        let s = if s_in.pos <= s.pos <= ts.len() {
            if_TriplesBlock_2(ts, start, m_marker, s)
        } else {
            s
        };
        s
    } else {
        s
    }
}

/// [67] TriplesBlock -> TriplesSameSubjectPath ('.' TriplesBlock?)?
pub(crate) fn parse_TriplesBlock(p: &mut Parser)
    requires
        old(p).wf(),
    ensures
        Parser::step(*old(p), *final(p)),
        final(p).pos == old(p).pos ==> is_sync_point(old(p).peek()),
        old(p).events@.len() < final(p).events@.len(),
        final(p).events@[old(p).events@.len() as int] == (Event::Open { kind: SyntaxKind::TriplesBlock }),
        final(p).events@.last() is Close,
        final(p).st() == rule_TriplesBlock(old(p).kinds(), old(p).st()),
    decreases old(p).remaining(), rank_TriplesBlock(old(p).peek()), 1int,
{
    let ghost ks = p.kinds();
    let ghost s0 = p.st();
    let ghost start = p.pos as int;
    let marker = p.open();
    let ghost gm1 = marker.index as int;
    proof {
        assert(call_ok(ks, start, p.st(), rank_TriplesSameSubjectPath(peek_at(ks, p.st().pos)), rank_TriplesBlock(peek_at(ks, start)))) by {
            reveal(Parser::st);
            assert(peek_at(ks, start) == old(p).peek());
            assert(peek_at(ks, p.pos as int) == p.peek());
        }
    }
    parse_TriplesSameSubjectPath(p);
    let ghost pre1 = p.st();
    if p.at_any(&[SyntaxKind::Dot]) {
        p.expect(SyntaxKind::Dot);
        let ghost pre2 = p.st();
        if p.at_any(&[SyntaxKind::IRIREF, SyntaxKind::PNAME_NS, SyntaxKind::STRING_LITERAL1, SyntaxKind::STRING_LITERAL2, SyntaxKind::LParen, SyntaxKind::INTEGER, SyntaxKind::NIL, SyntaxKind::LBrack, SyntaxKind::DoubleLess, SyntaxKind::DoubleLessLParen, SyntaxKind::VAR1, SyntaxKind::VAR2, SyntaxKind::DECIMAL, SyntaxKind::DOUBLE, SyntaxKind::INTEGER_POSITIVE, SyntaxKind::DECIMAL_POSITIVE, SyntaxKind::DOUBLE_POSITIVE, SyntaxKind::INTEGER_NEGATIVE, SyntaxKind::DECIMAL_NEGATIVE, SyntaxKind::DOUBLE_NEGATIVE, SyntaxKind::True, SyntaxKind::False, SyntaxKind::STRING_LITERAL_LONG1, SyntaxKind::STRING_LITERAL_LONG2, SyntaxKind::PNAME_LN, SyntaxKind::BLANK_NODE_LABEL, SyntaxKind::ANON]) {
            proof {
                assert(call_ok(ks, start, p.st(), rank_TriplesBlock(peek_at(ks, p.st().pos)), rank_TriplesBlock(peek_at(ks, start)))) by {
                    reveal(Parser::st);
                    assert(peek_at(ks, start) == old(p).peek());
                    assert(peek_at(ks, p.pos as int) == p.peek());
                }
            }
            parse_TriplesBlock(p);
            proof {
                assert(if_TriplesBlock_2(ks, start, gm1, pre2) == p.st()) by {
                    reveal_with_fuel(if_TriplesBlock_2, 1); reveal_with_fuel(rule_TriplesBlock, 1);
                }
            }
        } else {
            proof {
                assert(if_TriplesBlock_2(ks, start, gm1, pre2) == p.st()) by {
                    reveal_with_fuel(if_TriplesBlock_2, 1);
                }
            }
        }
        proof {
            assert(if_TriplesBlock_1(ks, start, gm1, pre1) == p.st()) by {
                reveal_with_fuel(if_TriplesBlock_1, 1); reveal_with_fuel(if_TriplesBlock_2, 1);
            }
        }
    } else {
        proof {
            assert(if_TriplesBlock_1(ks, start, gm1, pre1) == p.st()) by {
                reveal_with_fuel(if_TriplesBlock_1, 1);
            }
        }
    }
    p.close(marker, SyntaxKind::TriplesBlock);
    proof {
        assert(rule_TriplesBlock(ks, s0) == p.st()) by {
            reveal_with_fuel(rule_TriplesBlock, 1); reveal_with_fuel(if_TriplesBlock_1, 1); reveal_with_fuel(rule_TriplesSameSubjectPath, 1);
        }
    }
}

pub open spec fn rank_GraphPatternNotTriples(t: SyntaxKind) -> nat {
    match t {
        SyntaxKind::BIND | SyntaxKind::FILTER | SyntaxKind::GRAPH | SyntaxKind::MINUS | SyntaxKind::OPTIONAL | SyntaxKind::SERVICE | SyntaxKind::VALUES => 1,
        SyntaxKind::LCurly => 2,
        _ => 0,
    }
}

/// What [`parse_GraphPatternNotTriples`] makes of the parser state.
#[verifier::opaque]
pub open spec fn rule_GraphPatternNotTriples(ts: Seq<SyntaxKind>, s: St) -> St
    decreases ts.len() - s.pos, rank_GraphPatternNotTriples(peek_at(ts, s.pos)), 32 * (ts.len() - s.pos) + 32,
{
    let start = s.pos;
    let s_in = s;
    let m_marker = s.evs.len() as int;
    let s = st_open(s);
    let (s, r) = if s_in.pos <= s.pos <= ts.len() {
        match_GraphPatternNotTriples_1(ts, start, m_marker, s)
    } else {
        (s, false)
    };
    if r {
        s
    } else {
        let s = st_close(s, m_marker, SyntaxKind::GraphPatternNotTriples);
        s
    }
}

#[verifier::opaque]
pub open spec fn match_GraphPatternNotTriples_1(ts: Seq<SyntaxKind>, start: int, m_marker: int, s: St) -> (St, bool)
    decreases ts.len() - start, rank_GraphPatternNotTriples(peek_at(ts, start)), 32 * (ts.len() - s.pos) + 32 - 1,
{
    let s_in = s;
    if (peek_at(ts, s.pos) == SyntaxKind::LCurly) {
        let s = if call_ok(ts, start, s, rank_GroupOrUnionGraphPattern(peek_at(ts, s.pos)), rank_GraphPatternNotTriples(peek_at(ts, start))) {
            rule_GroupOrUnionGraphPattern(ts, s)
        } else {
            s
        };
        (s, false)
    } else if (peek_at(ts, s.pos) == SyntaxKind::OPTIONAL) {
        let s = if call_ok(ts, start, s, rank_OptionalGraphPattern(peek_at(ts, s.pos)), rank_GraphPatternNotTriples(peek_at(ts, start))) {
            rule_OptionalGraphPattern(ts, s)
        } else {
            s
        };
        (s, false)
    } else if (peek_at(ts, s.pos) == SyntaxKind::MINUS) {
        let s = if call_ok(ts, start, s, rank_MinusGraphPattern(peek_at(ts, s.pos)), rank_GraphPatternNotTriples(peek_at(ts, start))) {
            rule_MinusGraphPattern(ts, s)
        } else {
            s
        };
        (s, false)
    } else if (peek_at(ts, s.pos) == SyntaxKind::GRAPH) {
        let s = if call_ok(ts, start, s, rank_GraphGraphPattern(peek_at(ts, s.pos)), rank_GraphPatternNotTriples(peek_at(ts, start))) {
            rule_GraphGraphPattern(ts, s)
        } else {
            s
        };
        (s, false)
    } else if (peek_at(ts, s.pos) == SyntaxKind::SERVICE) {
        let s = if call_ok(ts, start, s, rank_ServiceGraphPattern(peek_at(ts, s.pos)), rank_GraphPatternNotTriples(peek_at(ts, start))) {
            rule_ServiceGraphPattern(ts, s)
        } else {
            s
        };
        (s, false)
    } else if (peek_at(ts, s.pos) == SyntaxKind::FILTER) {
        let s = if call_ok(ts, start, s, rank_Filter(peek_at(ts, s.pos)), rank_GraphPatternNotTriples(peek_at(ts, start))) {
            rule_Filter(ts, s)
        } else {
            s
        };
        (s, false)
    } else if (peek_at(ts, s.pos) == SyntaxKind::BIND) {
        let s = if call_ok(ts, start, s, rank_Bind(peek_at(ts, s.pos)), rank_GraphPatternNotTriples(peek_at(ts, start))) {
            rule_Bind(ts, s)
        } else {
            s
        };
        (s, false)
    } else if (peek_at(ts, s.pos) == SyntaxKind::VALUES) {
        let s = if call_ok(ts, start, s, rank_InlineData(peek_at(ts, s.pos)), rank_GraphPatternNotTriples(peek_at(ts, start))) {
            rule_InlineData(ts, s)
        } else {
            s
        };
        (s, false)
    } else if (peek_at(ts, s.pos) == SyntaxKind::Eof) {
        let s = st_close(s, m_marker, SyntaxKind::GraphPatternNotTriples);
        let m_marker = s.evs.len() as int;
        let s = st_open(s);
        let s = st_close(s, m_marker, SyntaxKind::Error);
        (s, true)
    } else {
        let s = st_advance_with_error(ts, s, seq![SyntaxKind::LCurly, SyntaxKind::OPTIONAL, SyntaxKind::MINUS, SyntaxKind::GRAPH, SyntaxKind::SERVICE, SyntaxKind::FILTER, SyntaxKind::BIND, SyntaxKind::VALUES]);
        (s, false)
    }
}

/// [68] GraphPatternNotTriples -> GroupOrUnionGraphPattern | OptionalGraphPattern | MinusGraphPattern | GraphGraphPattern | ServiceGraphPattern | Filter | Bind | InlineData
pub(crate) fn parse_GraphPatternNotTriples(p: &mut Parser)
    requires
        old(p).wf(),
    ensures
        Parser::step(*old(p), *final(p)),
        final(p).pos == old(p).pos ==> (old(p).peek() == SyntaxKind::Eof || old(p).peek() == SyntaxKind::RCurly || old(p).peek() == SyntaxKind::WHERE),
        old(p).events@.len() < final(p).events@.len(),
        final(p).events@[old(p).events@.len() as int] == (Event::Open { kind: SyntaxKind::GraphPatternNotTriples }),
        final(p).events@.last() is Close,
        final(p).st() == rule_GraphPatternNotTriples(old(p).kinds(), old(p).st()),
    decreases old(p).remaining(), rank_GraphPatternNotTriples(old(p).peek()), 1int,
{
    let ghost ks = p.kinds();
    let ghost s0 = p.st();
    let ghost start = p.pos as int;
    let marker = p.open();
    let ghost gm1 = marker.index as int;
    let ghost pre1 = p.st();
    match p.nth(0) {
        SyntaxKind::LCurly => {
            proof {
                assert(call_ok(ks, start, p.st(), rank_GroupOrUnionGraphPattern(peek_at(ks, p.st().pos)), rank_GraphPatternNotTriples(peek_at(ks, start)))) by {
                    reveal(Parser::st);
                    assert(peek_at(ks, start) == old(p).peek());
                    assert(peek_at(ks, p.pos as int) == p.peek());
                }
            }
            parse_GroupOrUnionGraphPattern(p);
            proof {
                assert(match_GraphPatternNotTriples_1(ks, start, gm1, pre1) == (p.st(), false)) by {
                    reveal_with_fuel(match_GraphPatternNotTriples_1, 1); reveal_with_fuel(rule_GroupOrUnionGraphPattern, 1);
                }
            }
        },
        SyntaxKind::OPTIONAL => {
            proof {
                assert(call_ok(ks, start, p.st(), rank_OptionalGraphPattern(peek_at(ks, p.st().pos)), rank_GraphPatternNotTriples(peek_at(ks, start)))) by {
                    reveal(Parser::st);
                    assert(peek_at(ks, start) == old(p).peek());
                    assert(peek_at(ks, p.pos as int) == p.peek());
                }
            }
            parse_OptionalGraphPattern(p);
            proof {
                assert(match_GraphPatternNotTriples_1(ks, start, gm1, pre1) == (p.st(), false)) by {
                    reveal_with_fuel(match_GraphPatternNotTriples_1, 1); reveal_with_fuel(rule_OptionalGraphPattern, 1);
                }
            }
        },
        SyntaxKind::MINUS => {
            proof {
                assert(call_ok(ks, start, p.st(), rank_MinusGraphPattern(peek_at(ks, p.st().pos)), rank_GraphPatternNotTriples(peek_at(ks, start)))) by {
                    reveal(Parser::st);
                    assert(peek_at(ks, start) == old(p).peek());
                    assert(peek_at(ks, p.pos as int) == p.peek());
                }
            }
            parse_MinusGraphPattern(p);
            proof {
                assert(match_GraphPatternNotTriples_1(ks, start, gm1, pre1) == (p.st(), false)) by {
                    reveal_with_fuel(match_GraphPatternNotTriples_1, 1); reveal_with_fuel(rule_MinusGraphPattern, 1);
                }
            }
        },
        SyntaxKind::GRAPH => {
            proof {
                assert(call_ok(ks, start, p.st(), rank_GraphGraphPattern(peek_at(ks, p.st().pos)), rank_GraphPatternNotTriples(peek_at(ks, start)))) by {
                    reveal(Parser::st);
                    assert(peek_at(ks, start) == old(p).peek());
                    assert(peek_at(ks, p.pos as int) == p.peek());
                }
            }
            parse_GraphGraphPattern(p);
            proof {
                assert(match_GraphPatternNotTriples_1(ks, start, gm1, pre1) == (p.st(), false)) by {
                    reveal_with_fuel(match_GraphPatternNotTriples_1, 1); reveal_with_fuel(rule_GraphGraphPattern, 1);
                }
            }
        },
        SyntaxKind::SERVICE => {
            proof {
                assert(call_ok(ks, start, p.st(), rank_ServiceGraphPattern(peek_at(ks, p.st().pos)), rank_GraphPatternNotTriples(peek_at(ks, start)))) by {
                    reveal(Parser::st);
                    assert(peek_at(ks, start) == old(p).peek());
                    assert(peek_at(ks, p.pos as int) == p.peek());
                }
            }
            parse_ServiceGraphPattern(p);
            proof {
                assert(match_GraphPatternNotTriples_1(ks, start, gm1, pre1) == (p.st(), false)) by {
                    reveal_with_fuel(match_GraphPatternNotTriples_1, 1); reveal_with_fuel(rule_ServiceGraphPattern, 1);
                }
            }
        },
        SyntaxKind::FILTER => {
            proof {
                assert(call_ok(ks, start, p.st(), rank_Filter(peek_at(ks, p.st().pos)), rank_GraphPatternNotTriples(peek_at(ks, start)))) by {
                    reveal(Parser::st);
                    assert(peek_at(ks, start) == old(p).peek());
                    assert(peek_at(ks, p.pos as int) == p.peek());
                }
            }
            parse_Filter(p);
            proof {
                assert(match_GraphPatternNotTriples_1(ks, start, gm1, pre1) == (p.st(), false)) by {
                    reveal_with_fuel(match_GraphPatternNotTriples_1, 1); reveal_with_fuel(rule_Filter, 1);
                }
            }
        },
        SyntaxKind::BIND => {
            proof {
                assert(call_ok(ks, start, p.st(), rank_Bind(peek_at(ks, p.st().pos)), rank_GraphPatternNotTriples(peek_at(ks, start)))) by {
                    reveal(Parser::st);
                    assert(peek_at(ks, start) == old(p).peek());
                    assert(peek_at(ks, p.pos as int) == p.peek());
                }
            }
            parse_Bind(p);
            proof {
                assert(match_GraphPatternNotTriples_1(ks, start, gm1, pre1) == (p.st(), false)) by {
                    reveal_with_fuel(match_GraphPatternNotTriples_1, 1); reveal_with_fuel(rule_Bind, 1);
                }
            }
        },
        SyntaxKind::VALUES => {
            proof {
                assert(call_ok(ks, start, p.st(), rank_InlineData(peek_at(ks, p.st().pos)), rank_GraphPatternNotTriples(peek_at(ks, start)))) by {
                    reveal(Parser::st);
                    assert(peek_at(ks, start) == old(p).peek());
                    assert(peek_at(ks, p.pos as int) == p.peek());
                }
            }
            parse_InlineData(p);
            proof {
                assert(match_GraphPatternNotTriples_1(ks, start, gm1, pre1) == (p.st(), false)) by {
                    reveal_with_fuel(match_GraphPatternNotTriples_1, 1); reveal_with_fuel(rule_InlineData, 1);
                }
            }
        },
        SyntaxKind::Eof => {
            p.close(marker, SyntaxKind::GraphPatternNotTriples);
            let marker = p.open();
            let ghost gm2 = marker.index as int;
            p.close(marker, SyntaxKind::Error);
            proof {
                assert(match_GraphPatternNotTriples_1(ks, start, gm1, pre1) == (p.st(), true)) by {
                    reveal_with_fuel(match_GraphPatternNotTriples_1, 1);
                }
            }
            proof {
                assert(rule_GraphPatternNotTriples(ks, s0) == p.st()) by {
                    reveal_with_fuel(rule_GraphPatternNotTriples, 1); reveal_with_fuel(match_GraphPatternNotTriples_1, 1);
                }
            }
            return ;
        },
        _ => {
            p.advance_with_error(vec![SyntaxKind::LCurly, SyntaxKind::OPTIONAL, SyntaxKind::MINUS, SyntaxKind::GRAPH, SyntaxKind::SERVICE, SyntaxKind::FILTER, SyntaxKind::BIND, SyntaxKind::VALUES]);
            proof {
                assert(match_GraphPatternNotTriples_1(ks, start, gm1, pre1) == (p.st(), false)) by {
                    reveal_with_fuel(match_GraphPatternNotTriples_1, 1);
                }
            }
        },
    }
    p.close(marker, SyntaxKind::GraphPatternNotTriples);
    proof {
        assert(rule_GraphPatternNotTriples(ks, s0) == p.st()) by {
            reveal_with_fuel(rule_GraphPatternNotTriples, 1); reveal_with_fuel(match_GraphPatternNotTriples_1, 1);
        }
    }
}

pub open spec fn rank_TriplesSameSubjectPath(t: SyntaxKind) -> nat {
    match t {
        SyntaxKind::NIL => 1,
        SyntaxKind::ANON | SyntaxKind::BLANK_NODE_LABEL | SyntaxKind::DoubleLess | SyntaxKind::DoubleLessLParen | SyntaxKind::False | SyntaxKind::IRIREF | SyntaxKind::LBrack | SyntaxKind::LParen | SyntaxKind::True | SyntaxKind::VAR1 | SyntaxKind::VAR2 => 2,
        SyntaxKind::DECIMAL | SyntaxKind::DECIMAL_NEGATIVE | SyntaxKind::DECIMAL_POSITIVE | SyntaxKind::DOUBLE | SyntaxKind::DOUBLE_NEGATIVE | SyntaxKind::DOUBLE_POSITIVE | SyntaxKind::INTEGER | SyntaxKind::INTEGER_NEGATIVE | SyntaxKind::INTEGER_POSITIVE | SyntaxKind::PNAME_LN | SyntaxKind::PNAME_NS | SyntaxKind::STRING_LITERAL1 | SyntaxKind::STRING_LITERAL2 | SyntaxKind::STRING_LITERAL_LONG1 | SyntaxKind::STRING_LITERAL_LONG2 => 3,
        _ => 0,
    }
}

/// What [`parse_TriplesSameSubjectPath`] makes of the parser state.
#[verifier::opaque]
pub open spec fn rule_TriplesSameSubjectPath(ts: Seq<SyntaxKind>, s: St) -> St
    decreases ts.len() - s.pos, rank_TriplesSameSubjectPath(peek_at(ts, s.pos)), 32 * (ts.len() - s.pos) + 32,
{
    let start = s.pos;
    let s_in = s;
    let m_marker = s.evs.len() as int;
    let s = st_open(s);
    let (s, r) = if s_in.pos <= s.pos <= ts.len() {
        match_TriplesSameSubjectPath_1(ts, start, m_marker, s)
    } else {
        (s, false)
    };
    if r {
        s
    } else {
        let s = st_close(s, m_marker, SyntaxKind::TriplesSameSubjectPath);
        s
    }
}

#[verifier::opaque]
pub open spec fn match_TriplesSameSubjectPath_1(ts: Seq<SyntaxKind>, start: int, m_marker: int, s: St) -> (St, bool)
    decreases ts.len() - start, rank_TriplesSameSubjectPath(peek_at(ts, start)), 32 * (ts.len() - s.pos) + 32 - 1,
{
    let s_in = s;
    if (peek_at(ts, s.pos) == SyntaxKind::IRIREF || peek_at(ts, s.pos) == SyntaxKind::PNAME_NS || peek_at(ts, s.pos) == SyntaxKind::STRING_LITERAL1 || peek_at(ts, s.pos) == SyntaxKind::STRING_LITERAL2 || peek_at(ts, s.pos) == SyntaxKind::INTEGER || peek_at(ts, s.pos) == SyntaxKind::NIL || peek_at(ts, s.pos) == SyntaxKind::DoubleLessLParen || peek_at(ts, s.pos) == SyntaxKind::VAR1 || peek_at(ts, s.pos) == SyntaxKind::VAR2 || peek_at(ts, s.pos) == SyntaxKind::DECIMAL || peek_at(ts, s.pos) == SyntaxKind::DOUBLE || peek_at(ts, s.pos) == SyntaxKind::INTEGER_POSITIVE || peek_at(ts, s.pos) == SyntaxKind::DECIMAL_POSITIVE || peek_at(ts, s.pos) == SyntaxKind::DOUBLE_POSITIVE || peek_at(ts, s.pos) == SyntaxKind::INTEGER_NEGATIVE || peek_at(ts, s.pos) == SyntaxKind::DECIMAL_NEGATIVE || peek_at(ts, s.pos) == SyntaxKind::DOUBLE_NEGATIVE || peek_at(ts, s.pos) == SyntaxKind::True || peek_at(ts, s.pos) == SyntaxKind::False || peek_at(ts, s.pos) == SyntaxKind::STRING_LITERAL_LONG1 || peek_at(ts, s.pos) == SyntaxKind::STRING_LITERAL_LONG2 || peek_at(ts, s.pos) == SyntaxKind::PNAME_LN || peek_at(ts, s.pos) == SyntaxKind::BLANK_NODE_LABEL || peek_at(ts, s.pos) == SyntaxKind::ANON) {
        let s = if call_ok(ts, start, s, rank_VarOrTerm(peek_at(ts, s.pos)), rank_TriplesSameSubjectPath(peek_at(ts, start))) {
            rule_VarOrTerm(ts, s)
        } else {
            s
        };
        let s = if call_ok(ts, start, s, rank_PropertyListPathNotEmpty(peek_at(ts, s.pos)), rank_TriplesSameSubjectPath(peek_at(ts, start))) {
            rule_PropertyListPathNotEmpty(ts, s)
        } else {
            s
        };
        (s, false)
    } else if (peek_at(ts, s.pos) == SyntaxKind::LParen || peek_at(ts, s.pos) == SyntaxKind::LBrack) {
        let s = if call_ok(ts, start, s, rank_TriplesNodePath(peek_at(ts, s.pos)), rank_TriplesSameSubjectPath(peek_at(ts, start))) {
            rule_TriplesNodePath(ts, s)
        } else {
            s
        };
        let s = if call_ok(ts, start, s, rank_PropertyListPath(peek_at(ts, s.pos)), rank_TriplesSameSubjectPath(peek_at(ts, start))) {
            rule_PropertyListPath(ts, s)
        } else {
            s
        };
        (s, false)
    } else if (peek_at(ts, s.pos) == SyntaxKind::DoubleLess) {
        let s = if call_ok(ts, start, s, rank_ReifiedTripleBlockPath(peek_at(ts, s.pos)), rank_TriplesSameSubjectPath(peek_at(ts, start))) {
            rule_ReifiedTripleBlockPath(ts, s)
        } else {
            s
        };
        (s, false)
    } else if (peek_at(ts, s.pos) == SyntaxKind::Eof) {
        let s = st_close(s, m_marker, SyntaxKind::TriplesSameSubjectPath);
        let m_marker = s.evs.len() as int;
        let s = st_open(s);
        let s = st_close(s, m_marker, SyntaxKind::Error);
        (s, true)
    } else {
        let s = st_advance_with_error(ts, s, seq![SyntaxKind::IRIREF, SyntaxKind::PNAME_NS, SyntaxKind::STRING_LITERAL1, SyntaxKind::STRING_LITERAL2, SyntaxKind::INTEGER, SyntaxKind::NIL, SyntaxKind::DoubleLessLParen, SyntaxKind::VAR1, SyntaxKind::VAR2, SyntaxKind::DECIMAL, SyntaxKind::DOUBLE, SyntaxKind::INTEGER_POSITIVE, SyntaxKind::DECIMAL_POSITIVE, SyntaxKind::DOUBLE_POSITIVE, SyntaxKind::INTEGER_NEGATIVE, SyntaxKind::DECIMAL_NEGATIVE, SyntaxKind::DOUBLE_NEGATIVE, SyntaxKind::True, SyntaxKind::False, SyntaxKind::STRING_LITERAL_LONG1, SyntaxKind::STRING_LITERAL_LONG2, SyntaxKind::PNAME_LN, SyntaxKind::BLANK_NODE_LABEL, SyntaxKind::ANON, SyntaxKind::LParen, SyntaxKind::LBrack, SyntaxKind::DoubleLess]);
        (s, false)
    }
}

/// [69] TriplesSameSubjectPath -> VarOrTerm PropertyListPathNotEmpty | TriplesNodePath PropertyListPath | ReifiedTripleBlockPath
pub(crate) fn parse_TriplesSameSubjectPath(p: &mut Parser)
    requires
        old(p).wf(),
    ensures
        Parser::step(*old(p), *final(p)),
        final(p).pos == old(p).pos ==> is_sync_point(old(p).peek()),
        old(p).events@.len() < final(p).events@.len(),
        final(p).events@[old(p).events@.len() as int] == (Event::Open { kind: SyntaxKind::TriplesSameSubjectPath }),
        final(p).events@.last() is Close,
        final(p).st() == rule_TriplesSameSubjectPath(old(p).kinds(), old(p).st()),
    decreases old(p).remaining(), rank_TriplesSameSubjectPath(old(p).peek()), 1int,
{
    let ghost ks = p.kinds();
    let ghost s0 = p.st();
    let ghost start = p.pos as int;
    let marker = p.open();
    let ghost gm1 = marker.index as int;
    let ghost pre1 = p.st();
    match p.nth(0) {
        SyntaxKind::IRIREF | SyntaxKind::PNAME_NS | SyntaxKind::STRING_LITERAL1 | SyntaxKind::STRING_LITERAL2 | SyntaxKind::INTEGER | SyntaxKind::NIL | SyntaxKind::DoubleLessLParen | SyntaxKind::VAR1 | SyntaxKind::VAR2 | SyntaxKind::DECIMAL | SyntaxKind::DOUBLE | SyntaxKind::INTEGER_POSITIVE | SyntaxKind::DECIMAL_POSITIVE | SyntaxKind::DOUBLE_POSITIVE | SyntaxKind::INTEGER_NEGATIVE | SyntaxKind::DECIMAL_NEGATIVE | SyntaxKind::DOUBLE_NEGATIVE | SyntaxKind::True | SyntaxKind::False | SyntaxKind::STRING_LITERAL_LONG1 | SyntaxKind::STRING_LITERAL_LONG2 | SyntaxKind::PNAME_LN | SyntaxKind::BLANK_NODE_LABEL | SyntaxKind::ANON => {
            proof {
                assert(call_ok(ks, start, p.st(), rank_VarOrTerm(peek_at(ks, p.st().pos)), rank_TriplesSameSubjectPath(peek_at(ks, start)))) by {
                    reveal(Parser::st);
                    assert(peek_at(ks, start) == old(p).peek());
                    assert(peek_at(ks, p.pos as int) == p.peek());
                }
            }
            parse_VarOrTerm(p);
            proof {
                assert(call_ok(ks, start, p.st(), rank_PropertyListPathNotEmpty(peek_at(ks, p.st().pos)), rank_TriplesSameSubjectPath(peek_at(ks, start)))) by {
                    reveal(Parser::st);
                    assert(peek_at(ks, start) == old(p).peek());
                    assert(peek_at(ks, p.pos as int) == p.peek());
                }
            }
            parse_PropertyListPathNotEmpty(p);
            proof {
                assert(match_TriplesSameSubjectPath_1(ks, start, gm1, pre1) == (p.st(), false)) by {
                    reveal_with_fuel(match_TriplesSameSubjectPath_1, 1); reveal_with_fuel(rule_PropertyListPathNotEmpty, 1); reveal_with_fuel(rule_VarOrTerm, 1);
                }
            }
        },
        SyntaxKind::LParen | SyntaxKind::LBrack => {
            proof {
                assert(call_ok(ks, start, p.st(), rank_TriplesNodePath(peek_at(ks, p.st().pos)), rank_TriplesSameSubjectPath(peek_at(ks, start)))) by {
                    reveal(Parser::st);
                    assert(peek_at(ks, start) == old(p).peek());
                    assert(peek_at(ks, p.pos as int) == p.peek());
                }
            }
            parse_TriplesNodePath(p);
            proof {
                assert(call_ok(ks, start, p.st(), rank_PropertyListPath(peek_at(ks, p.st().pos)), rank_TriplesSameSubjectPath(peek_at(ks, start)))) by {
                    reveal(Parser::st);
                    assert(peek_at(ks, start) == old(p).peek());
                    assert(peek_at(ks, p.pos as int) == p.peek());
                }
            }
            parse_PropertyListPath(p);
            proof {
                assert(match_TriplesSameSubjectPath_1(ks, start, gm1, pre1) == (p.st(), false)) by {
                    reveal_with_fuel(match_TriplesSameSubjectPath_1, 1); reveal_with_fuel(rule_PropertyListPath, 1); reveal_with_fuel(rule_TriplesNodePath, 1);
                }
            }
        },
        SyntaxKind::DoubleLess => {
            proof {
                assert(call_ok(ks, start, p.st(), rank_ReifiedTripleBlockPath(peek_at(ks, p.st().pos)), rank_TriplesSameSubjectPath(peek_at(ks, start)))) by {
                    reveal(Parser::st);
                    assert(peek_at(ks, start) == old(p).peek());
                    assert(peek_at(ks, p.pos as int) == p.peek());
                }
            }
            parse_ReifiedTripleBlockPath(p);
            proof {
                assert(match_TriplesSameSubjectPath_1(ks, start, gm1, pre1) == (p.st(), false)) by {
                    reveal_with_fuel(match_TriplesSameSubjectPath_1, 1); reveal_with_fuel(rule_ReifiedTripleBlockPath, 1);
                }
            }
        },
        SyntaxKind::Eof => {
            p.close(marker, SyntaxKind::TriplesSameSubjectPath);
            let marker = p.open();
            let ghost gm2 = marker.index as int;
            p.close(marker, SyntaxKind::Error);
            proof {
                assert(match_TriplesSameSubjectPath_1(ks, start, gm1, pre1) == (p.st(), true)) by {
                    reveal_with_fuel(match_TriplesSameSubjectPath_1, 1);
                }
            }
            proof {
                assert(rule_TriplesSameSubjectPath(ks, s0) == p.st()) by {
                    reveal_with_fuel(rule_TriplesSameSubjectPath, 1); reveal_with_fuel(match_TriplesSameSubjectPath_1, 1);
                }
            }
            return ;
        },
        _ => {
            p.advance_with_error(vec![SyntaxKind::IRIREF, SyntaxKind::PNAME_NS, SyntaxKind::STRING_LITERAL1, SyntaxKind::STRING_LITERAL2, SyntaxKind::INTEGER, SyntaxKind::NIL, SyntaxKind::DoubleLessLParen, SyntaxKind::VAR1, SyntaxKind::VAR2, SyntaxKind::DECIMAL, SyntaxKind::DOUBLE, SyntaxKind::INTEGER_POSITIVE, SyntaxKind::DECIMAL_POSITIVE, SyntaxKind::DOUBLE_POSITIVE, SyntaxKind::INTEGER_NEGATIVE, SyntaxKind::DECIMAL_NEGATIVE, SyntaxKind::DOUBLE_NEGATIVE, SyntaxKind::True, SyntaxKind::False, SyntaxKind::STRING_LITERAL_LONG1, SyntaxKind::STRING_LITERAL_LONG2, SyntaxKind::PNAME_LN, SyntaxKind::BLANK_NODE_LABEL, SyntaxKind::ANON, SyntaxKind::LParen, SyntaxKind::LBrack, SyntaxKind::DoubleLess]);
            proof {
                assert(match_TriplesSameSubjectPath_1(ks, start, gm1, pre1) == (p.st(), false)) by {
                    reveal_with_fuel(match_TriplesSameSubjectPath_1, 1);
                }
            }
        },
    }
    p.close(marker, SyntaxKind::TriplesSameSubjectPath);
    proof {
        assert(rule_TriplesSameSubjectPath(ks, s0) == p.st()) by {
            reveal_with_fuel(rule_TriplesSameSubjectPath, 1); reveal_with_fuel(match_TriplesSameSubjectPath_1, 1);
        }
    }
}

pub open spec fn rank_ReifiedTripleBlock(t: SyntaxKind) -> nat {
    match t {
        SyntaxKind::DoubleLess => 1,
        SyntaxKind::ANON | SyntaxKind::BLANK_NODE_LABEL | SyntaxKind::DoubleLessLParen | SyntaxKind::False | SyntaxKind::IRIREF | SyntaxKind::True | SyntaxKind::VAR1 | SyntaxKind::VAR2 => 3,
        SyntaxKind::DECIMAL | SyntaxKind::DECIMAL_NEGATIVE | SyntaxKind::DECIMAL_POSITIVE | SyntaxKind::DOUBLE | SyntaxKind::DOUBLE_NEGATIVE | SyntaxKind::DOUBLE_POSITIVE | SyntaxKind::INTEGER | SyntaxKind::INTEGER_NEGATIVE | SyntaxKind::INTEGER_POSITIVE | SyntaxKind::PNAME_LN | SyntaxKind::PNAME_NS | SyntaxKind::STRING_LITERAL1 | SyntaxKind::STRING_LITERAL2 | SyntaxKind::STRING_LITERAL_LONG1 | SyntaxKind::STRING_LITERAL_LONG2 => 4,
        _ => 2,
    }
}

/// What [`parse_ReifiedTripleBlock`] makes of the parser state.
#[verifier::opaque]
pub open spec fn rule_ReifiedTripleBlock(ts: Seq<SyntaxKind>, s: St) -> St
    decreases ts.len() - s.pos, rank_ReifiedTripleBlock(peek_at(ts, s.pos)), 32 * (ts.len() - s.pos) + 32,
{
    let start = s.pos;
    let s_in = s;
    let m_marker = s.evs.len() as int;
    let s = st_open(s);
    let s = if call_ok(ts, start, s, rank_ReifiedTriple(peek_at(ts, s.pos)), rank_ReifiedTripleBlock(peek_at(ts, start))) {
        rule_ReifiedTriple(ts, s)
    } else {
        s
    };
    let s = if call_ok(ts, start, s, rank_PropertyList(peek_at(ts, s.pos)), rank_ReifiedTripleBlock(peek_at(ts, start))) {
        rule_PropertyList(ts, s)
    } else {
        s
    };
    let s = st_close(s, m_marker, SyntaxKind::ReifiedTripleBlock);
    s
}


/// [70] ReifiedTripleBlock -> ReifiedTriple PropertyList
pub(crate) fn parse_ReifiedTripleBlock(p: &mut Parser)
    requires
        old(p).wf(),
    ensures
        Parser::step(*old(p), *final(p)),
        final(p).pos == old(p).pos ==> is_sync_point(old(p).peek()),
        old(p).events@.len() < final(p).events@.len(),
        final(p).events@[old(p).events@.len() as int] == (Event::Open { kind: SyntaxKind::ReifiedTripleBlock }),
        final(p).events@.last() is Close,
        final(p).st() == rule_ReifiedTripleBlock(old(p).kinds(), old(p).st()),
    decreases old(p).remaining(), rank_ReifiedTripleBlock(old(p).peek()), 1int,
{
    let ghost ks = p.kinds();
    let ghost s0 = p.st();
    let ghost start = p.pos as int;
    let marker = p.open();
    let ghost gm1 = marker.index as int;
    proof {
        assert(call_ok(ks, start, p.st(), rank_ReifiedTriple(peek_at(ks, p.st().pos)), rank_ReifiedTripleBlock(peek_at(ks, start)))) by {
            reveal(Parser::st);
            assert(peek_at(ks, start) == old(p).peek());
            assert(peek_at(ks, p.pos as int) == p.peek());
        }
    }
    parse_ReifiedTriple(p);
    proof {
        assert(call_ok(ks, start, p.st(), rank_PropertyList(peek_at(ks, p.st().pos)), rank_ReifiedTripleBlock(peek_at(ks, start)))) by {
            reveal(Parser::st);
            assert(peek_at(ks, start) == old(p).peek());
            assert(peek_at(ks, p.pos as int) == p.peek());
        }
    }
    parse_PropertyList(p);
    p.close(marker, SyntaxKind::ReifiedTripleBlock);
    proof {
        assert(rule_ReifiedTripleBlock(ks, s0) == p.st()) by {
            reveal_with_fuel(rule_ReifiedTripleBlock, 1); reveal_with_fuel(rule_PropertyList, 1); reveal_with_fuel(rule_ReifiedTriple, 1);
        }
    }
}

pub open spec fn rank_ReifiedTriple(t: SyntaxKind) -> nat {
    match t {
        SyntaxKind::DoubleLess => 0,
        SyntaxKind::ANON | SyntaxKind::BLANK_NODE_LABEL | SyntaxKind::DoubleLessLParen | SyntaxKind::False | SyntaxKind::IRIREF | SyntaxKind::True | SyntaxKind::VAR1 | SyntaxKind::VAR2 => 2,
        SyntaxKind::DECIMAL | SyntaxKind::DECIMAL_NEGATIVE | SyntaxKind::DECIMAL_POSITIVE | SyntaxKind::DOUBLE | SyntaxKind::DOUBLE_NEGATIVE | SyntaxKind::DOUBLE_POSITIVE | SyntaxKind::INTEGER | SyntaxKind::INTEGER_NEGATIVE | SyntaxKind::INTEGER_POSITIVE | SyntaxKind::PNAME_LN | SyntaxKind::PNAME_NS | SyntaxKind::STRING_LITERAL1 | SyntaxKind::STRING_LITERAL2 | SyntaxKind::STRING_LITERAL_LONG1 | SyntaxKind::STRING_LITERAL_LONG2 => 3,
        _ => 1,
    }
}

/// What [`parse_ReifiedTriple`] makes of the parser state.
#[verifier::opaque]
pub open spec fn rule_ReifiedTriple(ts: Seq<SyntaxKind>, s: St) -> St
    decreases ts.len() - s.pos, rank_ReifiedTriple(peek_at(ts, s.pos)), 32 * (ts.len() - s.pos) + 32,
{
    let start = s.pos;
    let s_in = s;
    let m_marker = s.evs.len() as int;
    let s = st_open(s);
    let s = st_expect(ts, s, SyntaxKind::DoubleLess);
    let s = if call_ok(ts, start, s, rank_ReifiedTripleSubject(peek_at(ts, s.pos)), rank_ReifiedTriple(peek_at(ts, start))) {
        rule_ReifiedTripleSubject(ts, s)
    } else {
        s
    };
    let s = rule_Verb(ts, s);
    let s = if call_ok(ts, start, s, rank_ReifiedTripleObject(peek_at(ts, s.pos)), rank_ReifiedTriple(peek_at(ts, start))) {
        rule_ReifiedTripleObject(ts, s)
    } else {
        s
    };
    let s = if s_in.pos <= s.pos <= ts.len() {
        if_ReifiedTriple_1(ts, start, m_marker, s)
    } else {
        s
    };
    let s = st_expect(ts, s, SyntaxKind::DoubleMore);
    let s = st_close(s, m_marker, SyntaxKind::ReifiedTriple);
    s
}

#[verifier::opaque]
pub open spec fn if_ReifiedTriple_1(ts: Seq<SyntaxKind>, start: int, m_marker: int, s: St) -> St
    decreases ts.len() - start, rank_ReifiedTriple(peek_at(ts, start)), 32 * (ts.len() - s.pos) + 32 - 1,
{
    let s_in = s;
    if (peek_at(ts, s.pos) == SyntaxKind::Tilde) {
        let s = rule_Reifier(ts, s);
        s
    } else {
        s
    }
}

/// [71] ReifiedTriple -> '<<' ReifiedTripleSubject Verb ReifiedTripleObject Reifier? '>>'
pub(crate) fn parse_ReifiedTriple(p: &mut Parser)
    requires
        old(p).wf(),
    ensures
        Parser::step(*old(p), *final(p)),
        final(p).pos == old(p).pos ==> is_sync_point(old(p).peek()),
        old(p).events@.len() < final(p).events@.len(),
        final(p).events@[old(p).events@.len() as int] == (Event::Open { kind: SyntaxKind::ReifiedTriple }),
        final(p).events@.last() is Close,
        final(p).st() == rule_ReifiedTriple(old(p).kinds(), old(p).st()),
    decreases old(p).remaining(), rank_ReifiedTriple(old(p).peek()), 1int,
{
    let ghost ks = p.kinds();
    let ghost s0 = p.st();
    let ghost start = p.pos as int;
    let marker = p.open();
    let ghost gm1 = marker.index as int;
    p.expect(SyntaxKind::DoubleLess);
    proof {
        assert(call_ok(ks, start, p.st(), rank_ReifiedTripleSubject(peek_at(ks, p.st().pos)), rank_ReifiedTriple(peek_at(ks, start)))) by {
            reveal(Parser::st);
            assert(peek_at(ks, start) == old(p).peek());
            assert(peek_at(ks, p.pos as int) == p.peek());
        }
    }
    parse_ReifiedTripleSubject(p);
    parse_Verb(p);
    proof {
        assert(call_ok(ks, start, p.st(), rank_ReifiedTripleObject(peek_at(ks, p.st().pos)), rank_ReifiedTriple(peek_at(ks, start)))) by {
            reveal(Parser::st);
            assert(peek_at(ks, start) == old(p).peek());
            assert(peek_at(ks, p.pos as int) == p.peek());
        }
    }
    parse_ReifiedTripleObject(p);
    let ghost pre1 = p.st();
    if p.at_any(&[SyntaxKind::Tilde]) {
        parse_Reifier(p);
        proof {
            assert(if_ReifiedTriple_1(ks, start, gm1, pre1) == p.st()) by {
                reveal_with_fuel(if_ReifiedTriple_1, 1);
            }
        }
    } else {
        proof {
            assert(if_ReifiedTriple_1(ks, start, gm1, pre1) == p.st()) by {
                reveal_with_fuel(if_ReifiedTriple_1, 1);
            }
        }
    }
    p.expect(SyntaxKind::DoubleMore);
    p.close(marker, SyntaxKind::ReifiedTriple);
    proof {
        assert(rule_ReifiedTriple(ks, s0) == p.st()) by {
            reveal_with_fuel(rule_ReifiedTriple, 1); reveal_with_fuel(if_ReifiedTriple_1, 1); reveal_with_fuel(rule_ReifiedTripleObject, 1); reveal_with_fuel(rule_ReifiedTripleSubject, 1);
        }
    }
}

pub open spec fn rank_PropertyList(t: SyntaxKind) -> nat {
    match t {
        SyntaxKind::a => 2,
        SyntaxKind::IRIREF | SyntaxKind::VAR1 | SyntaxKind::VAR2 => 4,
        SyntaxKind::PNAME_LN | SyntaxKind::PNAME_NS => 5,
        _ => 0,
    }
}

/// What [`parse_PropertyList`] makes of the parser state.
#[verifier::opaque]
pub open spec fn rule_PropertyList(ts: Seq<SyntaxKind>, s: St) -> St
    decreases ts.len() - s.pos, rank_PropertyList(peek_at(ts, s.pos)), 32 * (ts.len() - s.pos) + 32,
{
    let start = s.pos;
    let s_in = s;
    let (s, r) = if s_in.pos <= s.pos <= ts.len() {
        if_PropertyList_1(ts, start, s)
    } else {
        (s, false)
    };
    if r {
        s
    } else {
        let m_marker = s.evs.len() as int;
        let s = st_open(s);
        let s = if s_in.pos <= s.pos <= ts.len() {
            if_PropertyList_2(ts, start, m_marker, s)
        } else {
            s
        };
        let s = st_close(s, m_marker, SyntaxKind::PropertyList);
        s
    }
}

#[verifier::opaque]
pub open spec fn if_PropertyList_1(ts: Seq<SyntaxKind>, start: int, s: St) -> (St, bool)
    decreases ts.len() - start, rank_PropertyList(peek_at(ts, start)), 32 * (ts.len() - s.pos) + 32 - 1,
{
    let s_in = s;
    if !(peek_at(ts, s.pos) == SyntaxKind::IRIREF || peek_at(ts, s.pos) == SyntaxKind::PNAME_NS || peek_at(ts, s.pos) == SyntaxKind::a || peek_at(ts, s.pos) == SyntaxKind::VAR1 || peek_at(ts, s.pos) == SyntaxKind::VAR2 || peek_at(ts, s.pos) == SyntaxKind::PNAME_LN) {
        (s, true)
    } else {
        (s, false)
    }
}

#[verifier::opaque]
pub open spec fn if_PropertyList_2(ts: Seq<SyntaxKind>, start: int, m_marker: int, s: St) -> St
    decreases ts.len() - start, rank_PropertyList(peek_at(ts, start)), 32 * (ts.len() - s.pos) + 32 - 1,
{
    let s_in = s;
    if (peek_at(ts, s.pos) == SyntaxKind::IRIREF || peek_at(ts, s.pos) == SyntaxKind::PNAME_NS || peek_at(ts, s.pos) == SyntaxKind::a || peek_at(ts, s.pos) == SyntaxKind::VAR1 || peek_at(ts, s.pos) == SyntaxKind::VAR2 || peek_at(ts, s.pos) == SyntaxKind::PNAME_LN) {
        let s = if call_ok(ts, start, s, rank_PropertyListNotEmpty(peek_at(ts, s.pos)), rank_PropertyList(peek_at(ts, start))) {
            rule_PropertyListNotEmpty(ts, s)
        } else {
            s
        };
        s
    } else {
        s
    }
}

/// [72] PropertyList -> PropertyListNotEmpty?
pub(crate) fn parse_PropertyList(p: &mut Parser)
    requires
        old(p).wf(),
    ensures
        Parser::step(*old(p), *final(p)),
        final(p).pos == old(p).pos ==> !(old(p).peek() == SyntaxKind::IRIREF || old(p).peek() == SyntaxKind::PNAME_LN || old(p).peek() == SyntaxKind::PNAME_NS || old(p).peek() == SyntaxKind::VAR1 || old(p).peek() == SyntaxKind::VAR2 || old(p).peek() == SyntaxKind::a),
        old(p).events@.len() < final(p).events@.len() ==> final(p).events@[old(p).events@.len() as int] == (Event::Open {
            kind: SyntaxKind::PropertyList,
        }) && final(p).events@.last() is Close,
        final(p).st() == rule_PropertyList(old(p).kinds(), old(p).st()),
    decreases old(p).remaining(), rank_PropertyList(old(p).peek()), 1int,
{
    let ghost ks = p.kinds();
    let ghost s0 = p.st();
    let ghost start = p.pos as int;
    let ghost pre1 = p.st();
    if !p.at_any(&[SyntaxKind::IRIREF, SyntaxKind::PNAME_NS, SyntaxKind::a, SyntaxKind::VAR1, SyntaxKind::VAR2, SyntaxKind::PNAME_LN]) {
        proof {
            assert(if_PropertyList_1(ks, start, pre1) == (p.st(), true)) by {
                reveal_with_fuel(if_PropertyList_1, 1);
            }
        }
        proof {
            assert(rule_PropertyList(ks, s0) == p.st()) by {
                reveal_with_fuel(rule_PropertyList, 1); reveal_with_fuel(if_PropertyList_1, 1); reveal_with_fuel(if_PropertyList_2, 1);
            }
        }
        return ;
    } else {
        proof {
            assert(if_PropertyList_1(ks, start, pre1) == (p.st(), false)) by {
                reveal_with_fuel(if_PropertyList_1, 1);
            }
        }
    }
    let marker = p.open();
    let ghost gm1 = marker.index as int;
    let ghost pre2 = p.st();
    if p.at_any(&[SyntaxKind::IRIREF, SyntaxKind::PNAME_NS, SyntaxKind::a, SyntaxKind::VAR1, SyntaxKind::VAR2, SyntaxKind::PNAME_LN]) {
        proof {
            assert(call_ok(ks, start, p.st(), rank_PropertyListNotEmpty(peek_at(ks, p.st().pos)), rank_PropertyList(peek_at(ks, start)))) by {
                reveal(Parser::st);
                assert(peek_at(ks, start) == old(p).peek());
                assert(peek_at(ks, p.pos as int) == p.peek());
            }
        }
        parse_PropertyListNotEmpty(p);
        proof {
            assert(if_PropertyList_2(ks, start, gm1, pre2) == p.st()) by {
                reveal_with_fuel(if_PropertyList_2, 1); reveal_with_fuel(rule_PropertyListNotEmpty, 1);
            }
        }
    } else {
        proof {
            assert(if_PropertyList_2(ks, start, gm1, pre2) == p.st()) by {
                reveal_with_fuel(if_PropertyList_2, 1);
            }
        }
    }
    p.close(marker, SyntaxKind::PropertyList);
    proof {
        assert(rule_PropertyList(ks, s0) == p.st()) by {
            reveal_with_fuel(rule_PropertyList, 1); reveal_with_fuel(if_PropertyList_1, 1); reveal_with_fuel(if_PropertyList_2, 1);
        }
    }
}

pub open spec fn rank_ReifiedTripleBlockPath(t: SyntaxKind) -> nat {
    match t {
        SyntaxKind::DoubleLess => 1,
        SyntaxKind::ANON | SyntaxKind::BLANK_NODE_LABEL | SyntaxKind::DoubleLessLParen | SyntaxKind::False | SyntaxKind::IRIREF | SyntaxKind::True | SyntaxKind::VAR1 | SyntaxKind::VAR2 => 3,
        SyntaxKind::DECIMAL | SyntaxKind::DECIMAL_NEGATIVE | SyntaxKind::DECIMAL_POSITIVE | SyntaxKind::DOUBLE | SyntaxKind::DOUBLE_NEGATIVE | SyntaxKind::DOUBLE_POSITIVE | SyntaxKind::INTEGER | SyntaxKind::INTEGER_NEGATIVE | SyntaxKind::INTEGER_POSITIVE | SyntaxKind::PNAME_LN | SyntaxKind::PNAME_NS | SyntaxKind::STRING_LITERAL1 | SyntaxKind::STRING_LITERAL2 | SyntaxKind::STRING_LITERAL_LONG1 | SyntaxKind::STRING_LITERAL_LONG2 => 4,
        _ => 2,
    }
}

/// What [`parse_ReifiedTripleBlockPath`] makes of the parser state.
#[verifier::opaque]
pub open spec fn rule_ReifiedTripleBlockPath(ts: Seq<SyntaxKind>, s: St) -> St
    decreases ts.len() - s.pos, rank_ReifiedTripleBlockPath(peek_at(ts, s.pos)), 32 * (ts.len() - s.pos) + 32,
{
    let start = s.pos;
    let s_in = s;
    let m_marker = s.evs.len() as int;
    let s = st_open(s);
    let s = if call_ok(ts, start, s, rank_ReifiedTriple(peek_at(ts, s.pos)), rank_ReifiedTripleBlockPath(peek_at(ts, start))) {
        rule_ReifiedTriple(ts, s)
    } else {
        s
    };
    let s = if call_ok(ts, start, s, rank_PropertyListPath(peek_at(ts, s.pos)), rank_ReifiedTripleBlockPath(peek_at(ts, start))) {
        rule_PropertyListPath(ts, s)
    } else {
        s
    };
    let s = st_close(s, m_marker, SyntaxKind::ReifiedTripleBlockPath);
    s
}


/// [73] ReifiedTripleBlockPath -> ReifiedTriple PropertyListPath
pub(crate) fn parse_ReifiedTripleBlockPath(p: &mut Parser)
    requires
        old(p).wf(),
    ensures
        Parser::step(*old(p), *final(p)),
        final(p).pos == old(p).pos ==> is_sync_point(old(p).peek()),
        old(p).events@.len() < final(p).events@.len(),
        final(p).events@[old(p).events@.len() as int] == (Event::Open { kind: SyntaxKind::ReifiedTripleBlockPath }),
        final(p).events@.last() is Close,
        final(p).st() == rule_ReifiedTripleBlockPath(old(p).kinds(), old(p).st()),
    decreases old(p).remaining(), rank_ReifiedTripleBlockPath(old(p).peek()), 1int,
{
    let ghost ks = p.kinds();
    let ghost s0 = p.st();
    let ghost start = p.pos as int;
    let marker = p.open();
    let ghost gm1 = marker.index as int;
    proof {
        assert(call_ok(ks, start, p.st(), rank_ReifiedTriple(peek_at(ks, p.st().pos)), rank_ReifiedTripleBlockPath(peek_at(ks, start)))) by {
            reveal(Parser::st);
            assert(peek_at(ks, start) == old(p).peek());
            assert(peek_at(ks, p.pos as int) == p.peek());
        }
    }
    parse_ReifiedTriple(p);
    proof {
        assert(call_ok(ks, start, p.st(), rank_PropertyListPath(peek_at(ks, p.st().pos)), rank_ReifiedTripleBlockPath(peek_at(ks, start)))) by {
            reveal(Parser::st);
            assert(peek_at(ks, start) == old(p).peek());
            assert(peek_at(ks, p.pos as int) == p.peek());
        }
    }
    parse_PropertyListPath(p);
    p.close(marker, SyntaxKind::ReifiedTripleBlockPath);
    proof {
        assert(rule_ReifiedTripleBlockPath(ks, s0) == p.st()) by {
            reveal_with_fuel(rule_ReifiedTripleBlockPath, 1); reveal_with_fuel(rule_PropertyListPath, 1); reveal_with_fuel(rule_ReifiedTriple, 1);
        }
    }
}

pub open spec fn rank_PropertyListPath(t: SyntaxKind) -> nat {
    match t {
        SyntaxKind::VAR1 | SyntaxKind::VAR2 => 3,
        SyntaxKind::Zirkumflex => 6,
        SyntaxKind::ExclamationMark | SyntaxKind::LParen | SyntaxKind::a => 8,
        SyntaxKind::IRIREF => 9,
        SyntaxKind::PNAME_LN | SyntaxKind::PNAME_NS => 10,
        _ => 0,
    }
}

/// What [`parse_PropertyListPath`] makes of the parser state.
#[verifier::opaque]
pub open spec fn rule_PropertyListPath(ts: Seq<SyntaxKind>, s: St) -> St
    decreases ts.len() - s.pos, rank_PropertyListPath(peek_at(ts, s.pos)), 32 * (ts.len() - s.pos) + 32,
{
    let start = s.pos;
    let s_in = s;
    let (s, r) = if s_in.pos <= s.pos <= ts.len() {
        if_PropertyListPath_1(ts, start, s)
    } else {
        (s, false)
    };
    if r {
        s
    } else {
        let m_marker = s.evs.len() as int;
        let s = st_open(s);
        let s = if s_in.pos <= s.pos <= ts.len() {
            if_PropertyListPath_2(ts, start, m_marker, s)
        } else {
            s
        };
        let s = st_close(s, m_marker, SyntaxKind::PropertyListPath);
        s
    }
}

#[verifier::opaque]
pub open spec fn if_PropertyListPath_1(ts: Seq<SyntaxKind>, start: int, s: St) -> (St, bool)
    decreases ts.len() - start, rank_PropertyListPath(peek_at(ts, start)), 32 * (ts.len() - s.pos) + 32 - 1,
{
    let s_in = s;
    if !(peek_at(ts, s.pos) == SyntaxKind::IRIREF || peek_at(ts, s.pos) == SyntaxKind::PNAME_NS || peek_at(ts, s.pos) == SyntaxKind::LParen || peek_at(ts, s.pos) == SyntaxKind::a || peek_at(ts, s.pos) == SyntaxKind::Zirkumflex || peek_at(ts, s.pos) == SyntaxKind::ExclamationMark || peek_at(ts, s.pos) == SyntaxKind::VAR1 || peek_at(ts, s.pos) == SyntaxKind::VAR2 || peek_at(ts, s.pos) == SyntaxKind::PNAME_LN) {
        (s, true)
    } else {
        (s, false)
    }
}

#[verifier::opaque]
pub open spec fn if_PropertyListPath_2(ts: Seq<SyntaxKind>, start: int, m_marker: int, s: St) -> St
    decreases ts.len() - start, rank_PropertyListPath(peek_at(ts, start)), 32 * (ts.len() - s.pos) + 32 - 1,
{
    let s_in = s;
    if (peek_at(ts, s.pos) == SyntaxKind::IRIREF || peek_at(ts, s.pos) == SyntaxKind::PNAME_NS || peek_at(ts, s.pos) == SyntaxKind::LParen || peek_at(ts, s.pos) == SyntaxKind::a || peek_at(ts, s.pos) == SyntaxKind::Zirkumflex || peek_at(ts, s.pos) == SyntaxKind::ExclamationMark || peek_at(ts, s.pos) == SyntaxKind::VAR1 || peek_at(ts, s.pos) == SyntaxKind::VAR2 || peek_at(ts, s.pos) == SyntaxKind::PNAME_LN) {
        let s = if call_ok(ts, start, s, rank_PropertyListPathNotEmpty(peek_at(ts, s.pos)), rank_PropertyListPath(peek_at(ts, start))) {
            rule_PropertyListPathNotEmpty(ts, s)
        } else {
            s
        };
        s
    } else {
        s
    }
}

/// [74] PropertyListPath -> PropertyListPathNotEmpty?
pub(crate) fn parse_PropertyListPath(p: &mut Parser)
    requires
        old(p).wf(),
    ensures
        Parser::step(*old(p), *final(p)),
        final(p).pos == old(p).pos ==> !(old(p).peek() == SyntaxKind::ExclamationMark || old(p).peek() == SyntaxKind::IRIREF || old(p).peek() == SyntaxKind::LParen || old(p).peek() == SyntaxKind::PNAME_LN || old(p).peek() == SyntaxKind::PNAME_NS || old(p).peek() == SyntaxKind::VAR1 || old(p).peek() == SyntaxKind::VAR2 || old(p).peek() == SyntaxKind::Zirkumflex || old(p).peek() == SyntaxKind::a),
        old(p).events@.len() < final(p).events@.len() ==> final(p).events@[old(p).events@.len() as int] == (Event::Open {
            kind: SyntaxKind::PropertyListPath,
        }) && final(p).events@.last() is Close,
        final(p).st() == rule_PropertyListPath(old(p).kinds(), old(p).st()),
    decreases old(p).remaining(), rank_PropertyListPath(old(p).peek()), 1int,
{
    let ghost ks = p.kinds();
    let ghost s0 = p.st();
    let ghost start = p.pos as int;
    let ghost pre1 = p.st();
    if !p.at_any(&[SyntaxKind::IRIREF, SyntaxKind::PNAME_NS, SyntaxKind::LParen, SyntaxKind::a, SyntaxKind::Zirkumflex, SyntaxKind::ExclamationMark, SyntaxKind::VAR1, SyntaxKind::VAR2, SyntaxKind::PNAME_LN]) {
        proof {
            assert(if_PropertyListPath_1(ks, start, pre1) == (p.st(), true)) by {
                reveal_with_fuel(if_PropertyListPath_1, 1);
            }
        }
        proof {
            assert(rule_PropertyListPath(ks, s0) == p.st()) by {
                reveal_with_fuel(rule_PropertyListPath, 1); reveal_with_fuel(if_PropertyListPath_1, 1); reveal_with_fuel(if_PropertyListPath_2, 1);
            }
        }
        return ;
    } else {
        proof {
            assert(if_PropertyListPath_1(ks, start, pre1) == (p.st(), false)) by {
                reveal_with_fuel(if_PropertyListPath_1, 1);
            }
        }
    }
    let marker = p.open();
    let ghost gm1 = marker.index as int;
    let ghost pre2 = p.st();
    if p.at_any(&[SyntaxKind::IRIREF, SyntaxKind::PNAME_NS, SyntaxKind::LParen, SyntaxKind::a, SyntaxKind::Zirkumflex, SyntaxKind::ExclamationMark, SyntaxKind::VAR1, SyntaxKind::VAR2, SyntaxKind::PNAME_LN]) {
        proof {
            assert(call_ok(ks, start, p.st(), rank_PropertyListPathNotEmpty(peek_at(ks, p.st().pos)), rank_PropertyListPath(peek_at(ks, start)))) by {
                reveal(Parser::st);
                assert(peek_at(ks, start) == old(p).peek());
                assert(peek_at(ks, p.pos as int) == p.peek());
            }
        }
        parse_PropertyListPathNotEmpty(p);
        proof {
            assert(if_PropertyListPath_2(ks, start, gm1, pre2) == p.st()) by {
                reveal_with_fuel(if_PropertyListPath_2, 1); reveal_with_fuel(rule_PropertyListPathNotEmpty, 1);
            }
        }
    } else {
        proof {
            assert(if_PropertyListPath_2(ks, start, gm1, pre2) == p.st()) by {
                reveal_with_fuel(if_PropertyListPath_2, 1);
            }
        }
    }
    p.close(marker, SyntaxKind::PropertyListPath);
    proof {
        assert(rule_PropertyListPath(ks, s0) == p.st()) by {
            reveal_with_fuel(rule_PropertyListPath, 1); reveal_with_fuel(if_PropertyListPath_1, 1); reveal_with_fuel(if_PropertyListPath_2, 1);
        }
    }
}

pub open spec fn rank_GroupOrUnionGraphPattern(t: SyntaxKind) -> nat {
    match t {
        SyntaxKind::SELECT => 3,
        SyntaxKind::BIND | SyntaxKind::FILTER | SyntaxKind::GRAPH | SyntaxKind::MINUS | SyntaxKind::OPTIONAL | SyntaxKind::SERVICE | SyntaxKind::VALUES => 4,
        SyntaxKind::NIL => 5,
        SyntaxKind::ANON | SyntaxKind::BLANK_NODE_LABEL | SyntaxKind::DoubleLess | SyntaxKind::DoubleLessLParen | SyntaxKind::False | SyntaxKind::IRIREF | SyntaxKind::LBrack | SyntaxKind::LParen | SyntaxKind::True | SyntaxKind::VAR1 | SyntaxKind::VAR2 => 6,
        SyntaxKind::DECIMAL | SyntaxKind::DECIMAL_NEGATIVE | SyntaxKind::DECIMAL_POSITIVE | SyntaxKind::DOUBLE | SyntaxKind::DOUBLE_NEGATIVE | SyntaxKind::DOUBLE_POSITIVE | SyntaxKind::INTEGER | SyntaxKind::INTEGER_NEGATIVE | SyntaxKind::INTEGER_POSITIVE | SyntaxKind::PNAME_LN | SyntaxKind::PNAME_NS | SyntaxKind::STRING_LITERAL1 | SyntaxKind::STRING_LITERAL2 | SyntaxKind::STRING_LITERAL_LONG1 | SyntaxKind::STRING_LITERAL_LONG2 => 7,
        _ => 1,
    }
}

/// What [`parse_GroupOrUnionGraphPattern`] makes of the parser state.
#[verifier::opaque]
pub open spec fn rule_GroupOrUnionGraphPattern(ts: Seq<SyntaxKind>, s: St) -> St
    decreases ts.len() - s.pos, rank_GroupOrUnionGraphPattern(peek_at(ts, s.pos)), 32 * (ts.len() - s.pos) + 32,
{
    let start = s.pos;
    let s_in = s;
    let m_marker = s.evs.len() as int;
    let s = st_open(s);
    let s = if call_ok(ts, start, s, rank_GroupGraphPattern(peek_at(ts, s.pos)), rank_GroupOrUnionGraphPattern(peek_at(ts, start))) {
        rule_GroupGraphPattern(ts, s)
    } else {
        s
    };
    let s = if s_in.pos <= s.pos <= ts.len() {
        loop_GroupOrUnionGraphPattern_1(ts, start, m_marker, s)
    } else {
        s
    };
    let s = st_close(s, m_marker, SyntaxKind::GroupOrUnionGraphPattern);
    s
}

#[verifier::opaque]
pub open spec fn loop_GroupOrUnionGraphPattern_1(ts: Seq<SyntaxKind>, start: int, m_marker: int, s: St) -> St
    decreases ts.len() - start, rank_GroupOrUnionGraphPattern(peek_at(ts, start)), 32 * (ts.len() - s.pos) + 32 - 1,
{
    let s_in = s;
    if (peek_at(ts, s.pos) == SyntaxKind::UNION) && s.pos <= ts.len() {
        let s1 = body_GroupOrUnionGraphPattern_2(ts, start, m_marker, s);
        if s1.pos == s.pos {
            s1
        } else if s.pos < s1.pos <= ts.len() {
            loop_GroupOrUnionGraphPattern_1(ts, start, m_marker, s1)
        } else {
            s1
        }
    } else {
        s
    }
}

#[verifier::opaque]
pub open spec fn body_GroupOrUnionGraphPattern_2(ts: Seq<SyntaxKind>, start: int, m_marker: int, s: St) -> St
    decreases ts.len() - start, rank_GroupOrUnionGraphPattern(peek_at(ts, start)), 32 * (ts.len() - s.pos) + 32 - 2,
{
    let s_in = s;
    let s = st_expect(ts, s, SyntaxKind::UNION);
    let s = if call_ok(ts, start, s, rank_GroupGraphPattern(peek_at(ts, s.pos)), rank_GroupOrUnionGraphPattern(peek_at(ts, start))) {
        rule_GroupGraphPattern(ts, s)
    } else {
        s
    };
    s
}

/// [75] GroupOrUnionGraphPattern -> GroupGraphPattern ('UNION' GroupGraphPattern)*
pub(crate) fn parse_GroupOrUnionGraphPattern(p: &mut Parser)
    requires
        old(p).wf(),
    ensures
        Parser::step(*old(p), *final(p)),
        final(p).pos == old(p).pos ==> (old(p).peek() == SyntaxKind::Eof),
        old(p).events@.len() < final(p).events@.len(),
        final(p).events@[old(p).events@.len() as int] == (Event::Open { kind: SyntaxKind::GroupOrUnionGraphPattern }),
        final(p).events@.last() is Close,
        final(p).st() == rule_GroupOrUnionGraphPattern(old(p).kinds(), old(p).st()),
    decreases old(p).remaining(), rank_GroupOrUnionGraphPattern(old(p).peek()), 1int,
{
    let ghost ks = p.kinds();
    let ghost s0 = p.st();
    let ghost start = p.pos as int;
    let marker = p.open();
    let ghost gm1 = marker.index as int;
    proof {
        assert(call_ok(ks, start, p.st(), rank_GroupGraphPattern(peek_at(ks, p.st().pos)), rank_GroupOrUnionGraphPattern(peek_at(ks, start)))) by {
            reveal(Parser::st);
            assert(peek_at(ks, start) == old(p).peek());
            assert(peek_at(ks, p.pos as int) == p.peek());
        }
    }
    parse_GroupGraphPattern(p);
    let ghost pre1 = p.st();
    proof {
        assert(p.st().pos == p.pos as int) by {
            reveal(Parser::st);
        }
        if !(peek_at(ks, p.st().pos) == SyntaxKind::UNION) {
            assert(loop_GroupOrUnionGraphPattern_1(ks, start, gm1, pre1) == pre1) by {
                reveal_with_fuel(loop_GroupOrUnionGraphPattern_1, 1); reveal_with_fuel(body_GroupOrUnionGraphPattern_2, 1);
            }
        }
    }
    while p.at_any(&[SyntaxKind::UNION])
        invariant
            marker.index == old(p).events@.len(),
            p.wf(),
            p.tokens@ == old(p).tokens@,
            old(p).pos <= p.pos,
            p.stack() == old(p).stack().push(marker.index as int),
            p.pos == old(p).pos ==> (old(p).peek() == SyntaxKind::Eof),
            ks == p.kinds(),
            p.st().pos == p.pos as int,
            start == old(p).pos as int,
            gm1 == marker.index as int,
            pre1.pos <= p.pos,
            start <= pre1.pos,
            loop_GroupOrUnionGraphPattern_1(ks, start, gm1, p.st()) == loop_GroupOrUnionGraphPattern_1(ks, start, gm1, pre1),
            !(peek_at(ks, p.st().pos) == SyntaxKind::UNION) ==> loop_GroupOrUnionGraphPattern_1(ks, start, gm1, p.st()) == p.st(),
        ensures
            loop_GroupOrUnionGraphPattern_1(ks, start, gm1, pre1) == p.st(),
        decreases p.remaining(),
    {
        let ghost si1 = p.st();
        let checkpoint1 = p.pos();
        p.expect(SyntaxKind::UNION);
        proof {
            assert(call_ok(ks, start, p.st(), rank_GroupGraphPattern(peek_at(ks, p.st().pos)), rank_GroupOrUnionGraphPattern(peek_at(ks, start)))) by {
                reveal(Parser::st);
                assert(peek_at(ks, start) == old(p).peek());
                assert(peek_at(ks, p.pos as int) == p.peek());
            }
        }
        parse_GroupGraphPattern(p);
        proof {
            assert(body_GroupOrUnionGraphPattern_2(ks, start, gm1, si1) == p.st()) by {
                reveal_with_fuel(body_GroupOrUnionGraphPattern_2, 1); reveal_with_fuel(rule_GroupGraphPattern, 1);
            }
        }
        if p.pos() == checkpoint1 {
            proof {
                assert(loop_GroupOrUnionGraphPattern_1(ks, start, gm1, si1) == p.st()) by {
                    reveal_with_fuel(loop_GroupOrUnionGraphPattern_1, 1); reveal_with_fuel(body_GroupOrUnionGraphPattern_2, 1);
                }
            }
            break;
        }
        proof {
            assert(p.st().pos == p.pos as int) by {
                reveal(Parser::st);
            }
            assert(loop_GroupOrUnionGraphPattern_1(ks, start, gm1, si1) == loop_GroupOrUnionGraphPattern_1(ks, start, gm1, p.st())) by {
                reveal_with_fuel(loop_GroupOrUnionGraphPattern_1, 1); reveal_with_fuel(body_GroupOrUnionGraphPattern_2, 1);
                reveal(Parser::st);
            }
            if !(peek_at(ks, p.st().pos) == SyntaxKind::UNION) {
                assert(loop_GroupOrUnionGraphPattern_1(ks, start, gm1, p.st()) == p.st()) by {
                    reveal_with_fuel(loop_GroupOrUnionGraphPattern_1, 1); reveal_with_fuel(body_GroupOrUnionGraphPattern_2, 1);
                }
            }
        }
    }
    p.close(marker, SyntaxKind::GroupOrUnionGraphPattern);
    proof {
        assert(rule_GroupOrUnionGraphPattern(ks, s0) == p.st()) by {
            reveal_with_fuel(rule_GroupOrUnionGraphPattern, 1); reveal_with_fuel(loop_GroupOrUnionGraphPattern_1, 1); reveal_with_fuel(rule_GroupGraphPattern, 1);
        }
    }
}

pub open spec fn rank_OptionalGraphPattern(t: SyntaxKind) -> nat {
    match t {
        SyntaxKind::OPTIONAL => 0,
        SyntaxKind::SELECT => 3,
        SyntaxKind::BIND | SyntaxKind::FILTER | SyntaxKind::GRAPH | SyntaxKind::MINUS | SyntaxKind::SERVICE | SyntaxKind::VALUES => 4,
        SyntaxKind::NIL => 5,
        SyntaxKind::ANON | SyntaxKind::BLANK_NODE_LABEL | SyntaxKind::DoubleLess | SyntaxKind::DoubleLessLParen | SyntaxKind::False | SyntaxKind::IRIREF | SyntaxKind::LBrack | SyntaxKind::LParen | SyntaxKind::True | SyntaxKind::VAR1 | SyntaxKind::VAR2 => 6,
        SyntaxKind::DECIMAL | SyntaxKind::DECIMAL_NEGATIVE | SyntaxKind::DECIMAL_POSITIVE | SyntaxKind::DOUBLE | SyntaxKind::DOUBLE_NEGATIVE | SyntaxKind::DOUBLE_POSITIVE | SyntaxKind::INTEGER | SyntaxKind::INTEGER_NEGATIVE | SyntaxKind::INTEGER_POSITIVE | SyntaxKind::PNAME_LN | SyntaxKind::PNAME_NS | SyntaxKind::STRING_LITERAL1 | SyntaxKind::STRING_LITERAL2 | SyntaxKind::STRING_LITERAL_LONG1 | SyntaxKind::STRING_LITERAL_LONG2 => 7,
        _ => 1,
    }
}

/// What [`parse_OptionalGraphPattern`] makes of the parser state.
#[verifier::opaque]
pub open spec fn rule_OptionalGraphPattern(ts: Seq<SyntaxKind>, s: St) -> St
    decreases ts.len() - s.pos, rank_OptionalGraphPattern(peek_at(ts, s.pos)), 32 * (ts.len() - s.pos) + 32,
{
    let start = s.pos;
    let s_in = s;
    let m_marker = s.evs.len() as int;
    let s = st_open(s);
    let s = st_expect(ts, s, SyntaxKind::OPTIONAL);
    let s = if call_ok(ts, start, s, rank_GroupGraphPattern(peek_at(ts, s.pos)), rank_OptionalGraphPattern(peek_at(ts, start))) {
        rule_GroupGraphPattern(ts, s)
    } else {
        s
    };
    let s = st_close(s, m_marker, SyntaxKind::OptionalGraphPattern);
    s
}


/// [76] OptionalGraphPattern -> 'OPTIONAL' GroupGraphPattern
pub(crate) fn parse_OptionalGraphPattern(p: &mut Parser)
    requires
        old(p).wf(),
    ensures
        Parser::step(*old(p), *final(p)),
        final(p).pos == old(p).pos ==> (old(p).peek() == SyntaxKind::Eof),
        old(p).events@.len() < final(p).events@.len(),
        final(p).events@[old(p).events@.len() as int] == (Event::Open { kind: SyntaxKind::OptionalGraphPattern }),
        final(p).events@.last() is Close,
        final(p).st() == rule_OptionalGraphPattern(old(p).kinds(), old(p).st()),
    decreases old(p).remaining(), rank_OptionalGraphPattern(old(p).peek()), 1int,
{
    let ghost ks = p.kinds();
    let ghost s0 = p.st();
    let ghost start = p.pos as int;
    let marker = p.open();
    let ghost gm1 = marker.index as int;
    p.expect(SyntaxKind::OPTIONAL);
    proof {
        assert(call_ok(ks, start, p.st(), rank_GroupGraphPattern(peek_at(ks, p.st().pos)), rank_OptionalGraphPattern(peek_at(ks, start)))) by {
            reveal(Parser::st);
            assert(peek_at(ks, start) == old(p).peek());
            assert(peek_at(ks, p.pos as int) == p.peek());
        }
    }
    parse_GroupGraphPattern(p);
    p.close(marker, SyntaxKind::OptionalGraphPattern);
    proof {
        assert(rule_OptionalGraphPattern(ks, s0) == p.st()) by {
            reveal_with_fuel(rule_OptionalGraphPattern, 1); reveal_with_fuel(rule_GroupGraphPattern, 1);
        }
    }
}

pub open spec fn rank_MinusGraphPattern(t: SyntaxKind) -> nat {
    match t {
        SyntaxKind::MINUS => 0,
        SyntaxKind::SELECT => 3,
        SyntaxKind::BIND | SyntaxKind::FILTER | SyntaxKind::GRAPH | SyntaxKind::OPTIONAL | SyntaxKind::SERVICE | SyntaxKind::VALUES => 4,
        SyntaxKind::NIL => 5,
        SyntaxKind::ANON | SyntaxKind::BLANK_NODE_LABEL | SyntaxKind::DoubleLess | SyntaxKind::DoubleLessLParen | SyntaxKind::False | SyntaxKind::IRIREF | SyntaxKind::LBrack | SyntaxKind::LParen | SyntaxKind::True | SyntaxKind::VAR1 | SyntaxKind::VAR2 => 6,
        SyntaxKind::DECIMAL | SyntaxKind::DECIMAL_NEGATIVE | SyntaxKind::DECIMAL_POSITIVE | SyntaxKind::DOUBLE | SyntaxKind::DOUBLE_NEGATIVE | SyntaxKind::DOUBLE_POSITIVE | SyntaxKind::INTEGER | SyntaxKind::INTEGER_NEGATIVE | SyntaxKind::INTEGER_POSITIVE | SyntaxKind::PNAME_LN | SyntaxKind::PNAME_NS | SyntaxKind::STRING_LITERAL1 | SyntaxKind::STRING_LITERAL2 | SyntaxKind::STRING_LITERAL_LONG1 | SyntaxKind::STRING_LITERAL_LONG2 => 7,
        _ => 1,
    }
}

/// What [`parse_MinusGraphPattern`] makes of the parser state.
#[verifier::opaque]
pub open spec fn rule_MinusGraphPattern(ts: Seq<SyntaxKind>, s: St) -> St
    decreases ts.len() - s.pos, rank_MinusGraphPattern(peek_at(ts, s.pos)), 32 * (ts.len() - s.pos) + 32,
{
    let start = s.pos;
    let s_in = s;
    let m_marker = s.evs.len() as int;
    let s = st_open(s);
    let s = st_expect(ts, s, SyntaxKind::MINUS);
    let s = if call_ok(ts, start, s, rank_GroupGraphPattern(peek_at(ts, s.pos)), rank_MinusGraphPattern(peek_at(ts, start))) {
        rule_GroupGraphPattern(ts, s)
    } else {
        s
    };
    let s = st_close(s, m_marker, SyntaxKind::MinusGraphPattern);
    s
}


/// [77] MinusGraphPattern -> 'MINUS' GroupGraphPattern
pub(crate) fn parse_MinusGraphPattern(p: &mut Parser)
    requires
        old(p).wf(),
    ensures
        Parser::step(*old(p), *final(p)),
        final(p).pos == old(p).pos ==> (old(p).peek() == SyntaxKind::Eof),
        old(p).events@.len() < final(p).events@.len(),
        final(p).events@[old(p).events@.len() as int] == (Event::Open { kind: SyntaxKind::MinusGraphPattern }),
        final(p).events@.last() is Close,
        final(p).st() == rule_MinusGraphPattern(old(p).kinds(), old(p).st()),
    decreases old(p).remaining(), rank_MinusGraphPattern(old(p).peek()), 1int,
{
    let ghost ks = p.kinds();
    let ghost s0 = p.st();
    let ghost start = p.pos as int;
    let marker = p.open();
    let ghost gm1 = marker.index as int;
    p.expect(SyntaxKind::MINUS);
    proof {
        assert(call_ok(ks, start, p.st(), rank_GroupGraphPattern(peek_at(ks, p.st().pos)), rank_MinusGraphPattern(peek_at(ks, start)))) by {
            reveal(Parser::st);
            assert(peek_at(ks, start) == old(p).peek());
            assert(peek_at(ks, p.pos as int) == p.peek());
        }
    }
    parse_GroupGraphPattern(p);
    p.close(marker, SyntaxKind::MinusGraphPattern);
    proof {
        assert(rule_MinusGraphPattern(ks, s0) == p.st()) by {
            reveal_with_fuel(rule_MinusGraphPattern, 1); reveal_with_fuel(rule_GroupGraphPattern, 1);
        }
    }
}

pub open spec fn rank_GraphGraphPattern(t: SyntaxKind) -> nat {
    match t {
        SyntaxKind::GRAPH => 0,
        SyntaxKind::IRIREF | SyntaxKind::VAR1 | SyntaxKind::VAR2 => 2,
        SyntaxKind::PNAME_LN | SyntaxKind::PNAME_NS => 3,
        _ => 1,
    }
}

/// What [`parse_GraphGraphPattern`] makes of the parser state.
#[verifier::opaque]
pub open spec fn rule_GraphGraphPattern(ts: Seq<SyntaxKind>, s: St) -> St
    decreases ts.len() - s.pos, rank_GraphGraphPattern(peek_at(ts, s.pos)), 32 * (ts.len() - s.pos) + 32,
{
    let start = s.pos;
    let s_in = s;
    let m_marker = s.evs.len() as int;
    let s = st_open(s);
    let s = st_expect(ts, s, SyntaxKind::GRAPH);
    let s = rule_VarOrIri(ts, s);
    let s = if call_ok(ts, start, s, rank_GroupGraphPattern(peek_at(ts, s.pos)), rank_GraphGraphPattern(peek_at(ts, start))) {
        rule_GroupGraphPattern(ts, s)
    } else {
        s
    };
    let s = st_close(s, m_marker, SyntaxKind::GraphGraphPattern);
    s
}


/// [78] GraphGraphPattern -> 'GRAPH' VarOrIri GroupGraphPattern
pub(crate) fn parse_GraphGraphPattern(p: &mut Parser)
    requires
        old(p).wf(),
    ensures
        Parser::step(*old(p), *final(p)),
        final(p).pos == old(p).pos ==> (old(p).peek() == SyntaxKind::Eof),
        old(p).events@.len() < final(p).events@.len(),
        final(p).events@[old(p).events@.len() as int] == (Event::Open { kind: SyntaxKind::GraphGraphPattern }),
        final(p).events@.last() is Close,
        final(p).st() == rule_GraphGraphPattern(old(p).kinds(), old(p).st()),
    decreases old(p).remaining(), rank_GraphGraphPattern(old(p).peek()), 1int,
{
    let ghost ks = p.kinds();
    let ghost s0 = p.st();
    let ghost start = p.pos as int;
    let marker = p.open();
    let ghost gm1 = marker.index as int;
    p.expect(SyntaxKind::GRAPH);
    parse_VarOrIri(p);
    proof {
        assert(call_ok(ks, start, p.st(), rank_GroupGraphPattern(peek_at(ks, p.st().pos)), rank_GraphGraphPattern(peek_at(ks, start)))) by {
            reveal(Parser::st);
            assert(peek_at(ks, start) == old(p).peek());
            assert(peek_at(ks, p.pos as int) == p.peek());
        }
    }
    parse_GroupGraphPattern(p);
    p.close(marker, SyntaxKind::GraphGraphPattern);
    proof {
        assert(rule_GraphGraphPattern(ks, s0) == p.st()) by {
            reveal_with_fuel(rule_GraphGraphPattern, 1); reveal_with_fuel(rule_GroupGraphPattern, 1);
        }
    }
}

pub open spec fn rank_ServiceGraphPattern(t: SyntaxKind) -> nat {
    match t {
        SyntaxKind::SERVICE | SyntaxKind::SILENT => 0,
        SyntaxKind::IRIREF | SyntaxKind::VAR1 | SyntaxKind::VAR2 => 2,
        SyntaxKind::PNAME_LN | SyntaxKind::PNAME_NS => 3,
        _ => 1,
    }
}

/// What [`parse_ServiceGraphPattern`] makes of the parser state.
#[verifier::opaque]
pub open spec fn rule_ServiceGraphPattern(ts: Seq<SyntaxKind>, s: St) -> St
    decreases ts.len() - s.pos, rank_ServiceGraphPattern(peek_at(ts, s.pos)), 32 * (ts.len() - s.pos) + 32,
{
    let start = s.pos;
    let s_in = s;
    let m_marker = s.evs.len() as int;
    let s = st_open(s);
    let s = st_expect(ts, s, SyntaxKind::SERVICE);
    let s = if s_in.pos <= s.pos <= ts.len() {
        if_ServiceGraphPattern_1(ts, start, m_marker, s)
    } else {
        s
    };
    let s = rule_VarOrIri(ts, s);
    let s = if call_ok(ts, start, s, rank_GroupGraphPattern(peek_at(ts, s.pos)), rank_ServiceGraphPattern(peek_at(ts, start))) {
        rule_GroupGraphPattern(ts, s)
    } else {
        s
    };
    let s = st_close(s, m_marker, SyntaxKind::ServiceGraphPattern);
    s
}

#[verifier::opaque]
pub open spec fn if_ServiceGraphPattern_1(ts: Seq<SyntaxKind>, start: int, m_marker: int, s: St) -> St
    decreases ts.len() - start, rank_ServiceGraphPattern(peek_at(ts, start)), 32 * (ts.len() - s.pos) + 32 - 1,
{
    let s_in = s;
    if (peek_at(ts, s.pos) == SyntaxKind::SILENT) {
        let s = st_expect(ts, s, SyntaxKind::SILENT);
        s
    } else {
        s
    }
}

/// [79] ServiceGraphPattern -> 'SERVICE' 'SILENT'? VarOrIri GroupGraphPattern
pub(crate) fn parse_ServiceGraphPattern(p: &mut Parser)
    requires
        old(p).wf(),
    ensures
        Parser::step(*old(p), *final(p)),
        final(p).pos == old(p).pos ==> (old(p).peek() == SyntaxKind::Eof),
        old(p).events@.len() < final(p).events@.len(),
        final(p).events@[old(p).events@.len() as int] == (Event::Open { kind: SyntaxKind::ServiceGraphPattern }),
        final(p).events@.last() is Close,
        final(p).st() == rule_ServiceGraphPattern(old(p).kinds(), old(p).st()),
    decreases old(p).remaining(), rank_ServiceGraphPattern(old(p).peek()), 1int,
{
    let ghost ks = p.kinds();
    let ghost s0 = p.st();
    let ghost start = p.pos as int;
    let marker = p.open();
    let ghost gm1 = marker.index as int;
    p.expect(SyntaxKind::SERVICE);
    let ghost pre1 = p.st();
    if p.at_any(&[SyntaxKind::SILENT]) {
        p.expect(SyntaxKind::SILENT);
        proof {
            assert(if_ServiceGraphPattern_1(ks, start, gm1, pre1) == p.st()) by {
                reveal_with_fuel(if_ServiceGraphPattern_1, 1);
            }
        }
    } else {
        proof {
            assert(if_ServiceGraphPattern_1(ks, start, gm1, pre1) == p.st()) by {
                reveal_with_fuel(if_ServiceGraphPattern_1, 1);
            }
        }
    }
    parse_VarOrIri(p);
    proof {
        assert(call_ok(ks, start, p.st(), rank_GroupGraphPattern(peek_at(ks, p.st().pos)), rank_ServiceGraphPattern(peek_at(ks, start)))) by {
            reveal(Parser::st);
            assert(peek_at(ks, start) == old(p).peek());
            assert(peek_at(ks, p.pos as int) == p.peek());
        }
    }
    parse_GroupGraphPattern(p);
    p.close(marker, SyntaxKind::ServiceGraphPattern);
    proof {
        assert(rule_ServiceGraphPattern(ks, s0) == p.st()) by {
            reveal_with_fuel(rule_ServiceGraphPattern, 1); reveal_with_fuel(if_ServiceGraphPattern_1, 1); reveal_with_fuel(rule_GroupGraphPattern, 1);
        }
    }
}

pub open spec fn rank_Filter(t: SyntaxKind) -> nat {
    match t {
        SyntaxKind::FILTER => 0,
        SyntaxKind::ABS | SyntaxKind::BNODE | SyntaxKind::BOUND | SyntaxKind::CEIL | SyntaxKind::COALESCE | SyntaxKind::CONCAT | SyntaxKind::CONTAINS | SyntaxKind::DATATYPE | SyntaxKind::DAY | SyntaxKind::ENCODE_FOR_URI | SyntaxKind::FLOOR | SyntaxKind::HOURS | SyntaxKind::IF | SyntaxKind::IRI | SyntaxKind::LANG | SyntaxKind::LANGDIR | SyntaxKind::LANGMATCHES | SyntaxKind::LCASE | SyntaxKind::LParen | SyntaxKind::MD5 | SyntaxKind::MINUTES | SyntaxKind::MONTH | SyntaxKind::NOW | SyntaxKind::OBJECT | SyntaxKind::PREDICATE | SyntaxKind::RAND | SyntaxKind::ROUND | SyntaxKind::SECONDS | SyntaxKind::SHA1 | SyntaxKind::SHA256 | SyntaxKind::SHA384 | SyntaxKind::SHA512 | SyntaxKind::STR | SyntaxKind::STRAFTER | SyntaxKind::STRBEFORE | SyntaxKind::STRDT | SyntaxKind::STRENDS | SyntaxKind::STRLANG | SyntaxKind::STRLANGDIR | SyntaxKind::STRLEN | SyntaxKind::STRSTARTS | SyntaxKind::STRUUID | SyntaxKind::SUBJECT | SyntaxKind::TIMEZONE | SyntaxKind::TRIPLE | SyntaxKind::TZ | SyntaxKind::UCASE | SyntaxKind::URI | SyntaxKind::UUID | SyntaxKind::YEAR | SyntaxKind::hasLANG | SyntaxKind::hasLANGDIR | SyntaxKind::isBLANK | SyntaxKind::isIRI | SyntaxKind::isLITERAL | SyntaxKind::isNUMERIC | SyntaxKind::isTRIPLE | SyntaxKind::isURI | SyntaxKind::sameTerm => 2,
        SyntaxKind::AVG | SyntaxKind::COUNT | SyntaxKind::EXISTS | SyntaxKind::GROUP_CONCAT | SyntaxKind::IRIREF | SyntaxKind::MAX | SyntaxKind::MIN | SyntaxKind::NOT | SyntaxKind::REGEX | SyntaxKind::REPLACE | SyntaxKind::SAMPLE | SyntaxKind::SUBSTR | SyntaxKind::SUM => 3,
        SyntaxKind::PNAME_LN | SyntaxKind::PNAME_NS => 4,
        _ => 1,
    }
}

/// What [`parse_Filter`] makes of the parser state.
#[verifier::opaque]
pub open spec fn rule_Filter(ts: Seq<SyntaxKind>, s: St) -> St
    decreases ts.len() - s.pos, rank_Filter(peek_at(ts, s.pos)), 32 * (ts.len() - s.pos) + 32,
{
    let start = s.pos;
    let s_in = s;
    let m_marker = s.evs.len() as int;
    let s = st_open(s);
    let s = st_expect(ts, s, SyntaxKind::FILTER);
    let s = if call_ok(ts, start, s, rank_Constraint(peek_at(ts, s.pos)), rank_Filter(peek_at(ts, start))) {
        rule_Constraint(ts, s)
    } else {
        s
    };
    let s = st_close(s, m_marker, SyntaxKind::Filter);
    s
}


/// [80] Filter -> 'FILTER' Constraint
pub(crate) fn parse_Filter(p: &mut Parser)
    requires
        old(p).wf(),
    ensures
        Parser::step(*old(p), *final(p)),
        final(p).pos == old(p).pos ==> is_sync_point(old(p).peek()),
        old(p).events@.len() < final(p).events@.len(),
        final(p).events@[old(p).events@.len() as int] == (Event::Open { kind: SyntaxKind::Filter }),
        final(p).events@.last() is Close,
        final(p).st() == rule_Filter(old(p).kinds(), old(p).st()),
    decreases old(p).remaining(), rank_Filter(old(p).peek()), 1int,
{
    let ghost ks = p.kinds();
    let ghost s0 = p.st();
    let ghost start = p.pos as int;
    let marker = p.open();
    let ghost gm1 = marker.index as int;
    p.expect(SyntaxKind::FILTER);
    proof {
        assert(call_ok(ks, start, p.st(), rank_Constraint(peek_at(ks, p.st().pos)), rank_Filter(peek_at(ks, start)))) by {
            reveal(Parser::st);
            assert(peek_at(ks, start) == old(p).peek());
            assert(peek_at(ks, p.pos as int) == p.peek());
        }
    }
    parse_Constraint(p);
    p.close(marker, SyntaxKind::Filter);
    proof {
        assert(rule_Filter(ks, s0) == p.st()) by {
            reveal_with_fuel(rule_Filter, 1); reveal_with_fuel(rule_Constraint, 1);
        }
    }
}

pub open spec fn rank_Bind(t: SyntaxKind) -> nat {
    match t {
        SyntaxKind::BIND | SyntaxKind::LParen => 0,
        SyntaxKind::ABS | SyntaxKind::BNODE | SyntaxKind::BOUND | SyntaxKind::CEIL | SyntaxKind::COALESCE | SyntaxKind::CONCAT | SyntaxKind::CONTAINS | SyntaxKind::DATATYPE | SyntaxKind::DAY | SyntaxKind::DoubleLessLParen | SyntaxKind::ENCODE_FOR_URI | SyntaxKind::FLOOR | SyntaxKind::False | SyntaxKind::HOURS | SyntaxKind::IF | SyntaxKind::IRI | SyntaxKind::LANG | SyntaxKind::LANGDIR | SyntaxKind::LANGMATCHES | SyntaxKind::LCASE | SyntaxKind::MD5 | SyntaxKind::MINUTES | SyntaxKind::MONTH | SyntaxKind::NOW | SyntaxKind::OBJECT | SyntaxKind::PREDICATE | SyntaxKind::RAND | SyntaxKind::ROUND | SyntaxKind::SECONDS | SyntaxKind::SHA1 | SyntaxKind::SHA256 | SyntaxKind::SHA384 | SyntaxKind::SHA512 | SyntaxKind::STR | SyntaxKind::STRAFTER | SyntaxKind::STRBEFORE | SyntaxKind::STRDT | SyntaxKind::STRENDS | SyntaxKind::STRLANG | SyntaxKind::STRLANGDIR | SyntaxKind::STRLEN | SyntaxKind::STRSTARTS | SyntaxKind::STRUUID | SyntaxKind::SUBJECT | SyntaxKind::TIMEZONE | SyntaxKind::TRIPLE | SyntaxKind::TZ | SyntaxKind::True | SyntaxKind::UCASE | SyntaxKind::URI | SyntaxKind::UUID | SyntaxKind::VAR1 | SyntaxKind::VAR2 | SyntaxKind::YEAR | SyntaxKind::hasLANG | SyntaxKind::hasLANGDIR | SyntaxKind::isBLANK | SyntaxKind::isIRI | SyntaxKind::isLITERAL | SyntaxKind::isNUMERIC | SyntaxKind::isTRIPLE | SyntaxKind::isURI | SyntaxKind::sameTerm => 11,
        SyntaxKind::AVG | SyntaxKind::COUNT | SyntaxKind::DECIMAL | SyntaxKind::DECIMAL_NEGATIVE | SyntaxKind::DECIMAL_POSITIVE | SyntaxKind::DOUBLE | SyntaxKind::DOUBLE_NEGATIVE | SyntaxKind::DOUBLE_POSITIVE | SyntaxKind::EXISTS | SyntaxKind::GROUP_CONCAT | SyntaxKind::INTEGER | SyntaxKind::INTEGER_NEGATIVE | SyntaxKind::INTEGER_POSITIVE | SyntaxKind::IRIREF | SyntaxKind::MAX | SyntaxKind::MIN | SyntaxKind::NOT | SyntaxKind::REGEX | SyntaxKind::REPLACE | SyntaxKind::SAMPLE | SyntaxKind::STRING_LITERAL1 | SyntaxKind::STRING_LITERAL2 | SyntaxKind::STRING_LITERAL_LONG1 | SyntaxKind::STRING_LITERAL_LONG2 | SyntaxKind::SUBSTR | SyntaxKind::SUM => 12,
        SyntaxKind::PNAME_LN | SyntaxKind::PNAME_NS => 13,
        _ => 9,
    }
}

/// What [`parse_Bind`] makes of the parser state.
#[verifier::opaque]
pub open spec fn rule_Bind(ts: Seq<SyntaxKind>, s: St) -> St
    decreases ts.len() - s.pos, rank_Bind(peek_at(ts, s.pos)), 32 * (ts.len() - s.pos) + 32,
{
    let start = s.pos;
    let s_in = s;
    let m_marker = s.evs.len() as int;
    let s = st_open(s);
    let s = st_expect(ts, s, SyntaxKind::BIND);
    let s = st_expect(ts, s, SyntaxKind::LParen);
    let s = if call_ok(ts, start, s, rank_Expression(peek_at(ts, s.pos)), rank_Bind(peek_at(ts, start))) {
        rule_Expression(ts, s)
    } else {
        s
    };
    let s = st_expect(ts, s, SyntaxKind::AS);
    let s = rule_Var(ts, s);
    let s = st_expect(ts, s, SyntaxKind::RParen);
    let s = st_close(s, m_marker, SyntaxKind::Bind);
    s
}


/// [81] Bind -> 'BIND' '(' Expression 'AS' Var ')'
pub(crate) fn parse_Bind(p: &mut Parser)
    requires
        old(p).wf(),
    ensures
        Parser::step(*old(p), *final(p)),
        final(p).pos == old(p).pos ==> is_sync_point(old(p).peek()),
        old(p).events@.len() < final(p).events@.len(),
        final(p).events@[old(p).events@.len() as int] == (Event::Open { kind: SyntaxKind::Bind }),
        final(p).events@.last() is Close,
        final(p).st() == rule_Bind(old(p).kinds(), old(p).st()),
    decreases old(p).remaining(), rank_Bind(old(p).peek()), 1int,
{
    let ghost ks = p.kinds();
    let ghost s0 = p.st();
    let ghost start = p.pos as int;
    let marker = p.open();
    let ghost gm1 = marker.index as int;
    p.expect(SyntaxKind::BIND);
    p.expect(SyntaxKind::LParen);
    proof {
        assert(call_ok(ks, start, p.st(), rank_Expression(peek_at(ks, p.st().pos)), rank_Bind(peek_at(ks, start)))) by {
            reveal(Parser::st);
            assert(peek_at(ks, start) == old(p).peek());
            assert(peek_at(ks, p.pos as int) == p.peek());
        }
    }
    parse_Expression(p);
    p.expect(SyntaxKind::AS);
    parse_Var(p);
    p.expect(SyntaxKind::RParen);
    p.close(marker, SyntaxKind::Bind);
    proof {
        assert(rule_Bind(ks, s0) == p.st()) by {
            reveal_with_fuel(rule_Bind, 1); reveal_with_fuel(rule_Expression, 1);
        }
    }
}

pub open spec fn rank_InlineData(t: SyntaxKind) -> nat {
    match t {
        SyntaxKind::VALUES => 0,
        SyntaxKind::LParen | SyntaxKind::NIL => 2,
        SyntaxKind::VAR1 | SyntaxKind::VAR2 => 3,
        _ => 1,
    }
}

/// What [`parse_InlineData`] makes of the parser state.
#[verifier::opaque]
pub open spec fn rule_InlineData(ts: Seq<SyntaxKind>, s: St) -> St
    decreases ts.len() - s.pos, rank_InlineData(peek_at(ts, s.pos)), 32 * (ts.len() - s.pos) + 32,
{
    let start = s.pos;
    let s_in = s;
    let m_marker = s.evs.len() as int;
    let s = st_open(s);
    let s = st_expect(ts, s, SyntaxKind::VALUES);
    let s = if call_ok(ts, start, s, rank_DataBlock(peek_at(ts, s.pos)), rank_InlineData(peek_at(ts, start))) {
        rule_DataBlock(ts, s)
    } else {
        s
    };
    let s = st_close(s, m_marker, SyntaxKind::InlineData);
    s
}


/// [82] InlineData -> 'VALUES' DataBlock
pub(crate) fn parse_InlineData(p: &mut Parser)
    requires
        old(p).wf(),
    ensures
        Parser::step(*old(p), *final(p)),
        final(p).pos == old(p).pos ==> is_sync_point(old(p).peek()),
        old(p).events@.len() < final(p).events@.len(),
        final(p).events@[old(p).events@.len() as int] == (Event::Open { kind: SyntaxKind::InlineData }),
        final(p).events@.last() is Close,
        final(p).st() == rule_InlineData(old(p).kinds(), old(p).st()),
    decreases old(p).remaining(), rank_InlineData(old(p).peek()), 1int,
{
    let ghost ks = p.kinds();
    let ghost s0 = p.st();
    let ghost start = p.pos as int;
    let marker = p.open();
    let ghost gm1 = marker.index as int;
    p.expect(SyntaxKind::VALUES);
    proof {
        assert(call_ok(ks, start, p.st(), rank_DataBlock(peek_at(ks, p.st().pos)), rank_InlineData(peek_at(ks, start)))) by {
            reveal(Parser::st);
            assert(peek_at(ks, start) == old(p).peek());
            assert(peek_at(ks, p.pos as int) == p.peek());
        }
    }
    parse_DataBlock(p);
    p.close(marker, SyntaxKind::InlineData);
    proof {
        assert(rule_InlineData(ks, s0) == p.st()) by {
            reveal_with_fuel(rule_InlineData, 1); reveal_with_fuel(rule_DataBlock, 1);
        }
    }
}

pub open spec fn rank_InlineDataOneVar(t: SyntaxKind) -> nat {
    1
}

/// What [`parse_InlineDataOneVar`] makes of the parser state.
#[verifier::opaque]
pub open spec fn rule_InlineDataOneVar(ts: Seq<SyntaxKind>, s: St) -> St
    decreases ts.len() - s.pos, rank_InlineDataOneVar(peek_at(ts, s.pos)), 32 * (ts.len() - s.pos) + 32,
{
    let start = s.pos;
    let s_in = s;
    let m_marker = s.evs.len() as int;
    let s = st_open(s);
    let s = rule_Var(ts, s);
    let s = st_expect(ts, s, SyntaxKind::LCurly);
    let s = if s_in.pos <= s.pos <= ts.len() {
        loop_InlineDataOneVar_1(ts, start, m_marker, s)
    } else {
        s
    };
    let s = st_expect(ts, s, SyntaxKind::RCurly);
    let s = st_close(s, m_marker, SyntaxKind::InlineDataOneVar);
    s
}

#[verifier::opaque]
pub open spec fn loop_InlineDataOneVar_1(ts: Seq<SyntaxKind>, start: int, m_marker: int, s: St) -> St
    decreases ts.len() - start, rank_InlineDataOneVar(peek_at(ts, start)), 32 * (ts.len() - s.pos) + 32 - 1,
{
    let s_in = s;
    if (peek_at(ts, s.pos) == SyntaxKind::IRIREF || peek_at(ts, s.pos) == SyntaxKind::PNAME_NS || peek_at(ts, s.pos) == SyntaxKind::STRING_LITERAL1 || peek_at(ts, s.pos) == SyntaxKind::STRING_LITERAL2 || peek_at(ts, s.pos) == SyntaxKind::INTEGER || peek_at(ts, s.pos) == SyntaxKind::UNDEF || peek_at(ts, s.pos) == SyntaxKind::DoubleLessLParen || peek_at(ts, s.pos) == SyntaxKind::DECIMAL || peek_at(ts, s.pos) == SyntaxKind::DOUBLE || peek_at(ts, s.pos) == SyntaxKind::INTEGER_POSITIVE || peek_at(ts, s.pos) == SyntaxKind::DECIMAL_POSITIVE || peek_at(ts, s.pos) == SyntaxKind::DOUBLE_POSITIVE || peek_at(ts, s.pos) == SyntaxKind::INTEGER_NEGATIVE || peek_at(ts, s.pos) == SyntaxKind::DECIMAL_NEGATIVE || peek_at(ts, s.pos) == SyntaxKind::DOUBLE_NEGATIVE || peek_at(ts, s.pos) == SyntaxKind::True || peek_at(ts, s.pos) == SyntaxKind::False || peek_at(ts, s.pos) == SyntaxKind::STRING_LITERAL_LONG1 || peek_at(ts, s.pos) == SyntaxKind::STRING_LITERAL_LONG2 || peek_at(ts, s.pos) == SyntaxKind::PNAME_LN) && s.pos <= ts.len() {
        let s1 = body_InlineDataOneVar_2(ts, start, m_marker, s);
        if s1.pos == s.pos {
            s1
        } else if s.pos < s1.pos <= ts.len() {
            loop_InlineDataOneVar_1(ts, start, m_marker, s1)
        } else {
            s1
        }
    } else {
        s
    }
}

#[verifier::opaque]
pub open spec fn body_InlineDataOneVar_2(ts: Seq<SyntaxKind>, start: int, m_marker: int, s: St) -> St
    decreases ts.len() - start, rank_InlineDataOneVar(peek_at(ts, start)), 32 * (ts.len() - s.pos) + 32 - 2,
{
    let s_in = s;
    let s = if call_ok(ts, start, s, rank_DataBlockValue(peek_at(ts, s.pos)), rank_InlineDataOneVar(peek_at(ts, start))) {
        rule_DataBlockValue(ts, s)
    } else {
        s
    };
    s
}

/// [83] InlineDataOneVar -> Var '{' DataBlockValue* '}'
pub(crate) fn parse_InlineDataOneVar(p: &mut Parser)
    requires
        old(p).wf(),
    ensures
        Parser::step(*old(p), *final(p)),
        final(p).pos == old(p).pos ==> (old(p).peek() == SyntaxKind::Eof || old(p).peek() == SyntaxKind::WHERE),
        old(p).events@.len() < final(p).events@.len(),
        final(p).events@[old(p).events@.len() as int] == (Event::Open { kind: SyntaxKind::InlineDataOneVar }),
        final(p).events@.last() is Close,
        final(p).st() == rule_InlineDataOneVar(old(p).kinds(), old(p).st()),
    decreases old(p).remaining(), rank_InlineDataOneVar(old(p).peek()), 1int,
{
    let ghost ks = p.kinds();
    let ghost s0 = p.st();
    let ghost start = p.pos as int;
    let marker = p.open();
    let ghost gm1 = marker.index as int;
    parse_Var(p);
    p.expect(SyntaxKind::LCurly);
    let ghost pre1 = p.st();
    proof {
        assert(p.st().pos == p.pos as int) by {
            reveal(Parser::st);
        }
        if !(peek_at(ks, p.st().pos) == SyntaxKind::IRIREF || peek_at(ks, p.st().pos) == SyntaxKind::PNAME_NS || peek_at(ks, p.st().pos) == SyntaxKind::STRING_LITERAL1 || peek_at(ks, p.st().pos) == SyntaxKind::STRING_LITERAL2 || peek_at(ks, p.st().pos) == SyntaxKind::INTEGER || peek_at(ks, p.st().pos) == SyntaxKind::UNDEF || peek_at(ks, p.st().pos) == SyntaxKind::DoubleLessLParen || peek_at(ks, p.st().pos) == SyntaxKind::DECIMAL || peek_at(ks, p.st().pos) == SyntaxKind::DOUBLE || peek_at(ks, p.st().pos) == SyntaxKind::INTEGER_POSITIVE || peek_at(ks, p.st().pos) == SyntaxKind::DECIMAL_POSITIVE || peek_at(ks, p.st().pos) == SyntaxKind::DOUBLE_POSITIVE || peek_at(ks, p.st().pos) == SyntaxKind::INTEGER_NEGATIVE || peek_at(ks, p.st().pos) == SyntaxKind::DECIMAL_NEGATIVE || peek_at(ks, p.st().pos) == SyntaxKind::DOUBLE_NEGATIVE || peek_at(ks, p.st().pos) == SyntaxKind::True || peek_at(ks, p.st().pos) == SyntaxKind::False || peek_at(ks, p.st().pos) == SyntaxKind::STRING_LITERAL_LONG1 || peek_at(ks, p.st().pos) == SyntaxKind::STRING_LITERAL_LONG2 || peek_at(ks, p.st().pos) == SyntaxKind::PNAME_LN) {
            assert(loop_InlineDataOneVar_1(ks, start, gm1, pre1) == pre1) by {
                reveal_with_fuel(loop_InlineDataOneVar_1, 1); reveal_with_fuel(body_InlineDataOneVar_2, 1);
            }
        }
    }
    while p.at_any(&[SyntaxKind::IRIREF, SyntaxKind::PNAME_NS, SyntaxKind::STRING_LITERAL1, SyntaxKind::STRING_LITERAL2, SyntaxKind::INTEGER, SyntaxKind::UNDEF, SyntaxKind::DoubleLessLParen, SyntaxKind::DECIMAL, SyntaxKind::DOUBLE, SyntaxKind::INTEGER_POSITIVE, SyntaxKind::DECIMAL_POSITIVE, SyntaxKind::DOUBLE_POSITIVE, SyntaxKind::INTEGER_NEGATIVE, SyntaxKind::DECIMAL_NEGATIVE, SyntaxKind::DOUBLE_NEGATIVE, SyntaxKind::True, SyntaxKind::False, SyntaxKind::STRING_LITERAL_LONG1, SyntaxKind::STRING_LITERAL_LONG2, SyntaxKind::PNAME_LN])
        invariant
            marker.index == old(p).events@.len(),
            p.wf(),
            p.tokens@ == old(p).tokens@,
            old(p).pos <= p.pos,
            p.stack() == old(p).stack().push(marker.index as int),
            p.pos == old(p).pos ==> (old(p).peek() == SyntaxKind::Eof || old(p).peek() == SyntaxKind::RCurly || old(p).peek() == SyntaxKind::WHERE),
            ks == p.kinds(),
            p.st().pos == p.pos as int,
            start == old(p).pos as int,
            gm1 == marker.index as int,
            pre1.pos <= p.pos,
            start <= pre1.pos,
            loop_InlineDataOneVar_1(ks, start, gm1, p.st()) == loop_InlineDataOneVar_1(ks, start, gm1, pre1),
            !(peek_at(ks, p.st().pos) == SyntaxKind::IRIREF || peek_at(ks, p.st().pos) == SyntaxKind::PNAME_NS || peek_at(ks, p.st().pos) == SyntaxKind::STRING_LITERAL1 || peek_at(ks, p.st().pos) == SyntaxKind::STRING_LITERAL2 || peek_at(ks, p.st().pos) == SyntaxKind::INTEGER || peek_at(ks, p.st().pos) == SyntaxKind::UNDEF || peek_at(ks, p.st().pos) == SyntaxKind::DoubleLessLParen || peek_at(ks, p.st().pos) == SyntaxKind::DECIMAL || peek_at(ks, p.st().pos) == SyntaxKind::DOUBLE || peek_at(ks, p.st().pos) == SyntaxKind::INTEGER_POSITIVE || peek_at(ks, p.st().pos) == SyntaxKind::DECIMAL_POSITIVE || peek_at(ks, p.st().pos) == SyntaxKind::DOUBLE_POSITIVE || peek_at(ks, p.st().pos) == SyntaxKind::INTEGER_NEGATIVE || peek_at(ks, p.st().pos) == SyntaxKind::DECIMAL_NEGATIVE || peek_at(ks, p.st().pos) == SyntaxKind::DOUBLE_NEGATIVE || peek_at(ks, p.st().pos) == SyntaxKind::True || peek_at(ks, p.st().pos) == SyntaxKind::False || peek_at(ks, p.st().pos) == SyntaxKind::STRING_LITERAL_LONG1 || peek_at(ks, p.st().pos) == SyntaxKind::STRING_LITERAL_LONG2 || peek_at(ks, p.st().pos) == SyntaxKind::PNAME_LN) ==> loop_InlineDataOneVar_1(ks, start, gm1, p.st()) == p.st(),
        ensures
            loop_InlineDataOneVar_1(ks, start, gm1, pre1) == p.st(),
        decreases p.remaining(),
    {
        let ghost si1 = p.st();
        let checkpoint1 = p.pos();
        proof {
            assert(call_ok(ks, start, p.st(), rank_DataBlockValue(peek_at(ks, p.st().pos)), rank_InlineDataOneVar(peek_at(ks, start)))) by {
                reveal(Parser::st);
                assert(peek_at(ks, start) == old(p).peek());
                assert(peek_at(ks, p.pos as int) == p.peek());
            }
        }
        parse_DataBlockValue(p);
        proof {
            assert(body_InlineDataOneVar_2(ks, start, gm1, si1) == p.st()) by {
                reveal_with_fuel(body_InlineDataOneVar_2, 1); reveal_with_fuel(rule_DataBlockValue, 1);
            }
        }
        if p.pos() == checkpoint1 {
            proof {
                assert(loop_InlineDataOneVar_1(ks, start, gm1, si1) == p.st()) by {
                    reveal_with_fuel(loop_InlineDataOneVar_1, 1); reveal_with_fuel(body_InlineDataOneVar_2, 1);
                }
            }
            break;
        }
        proof {
            assert(p.st().pos == p.pos as int) by {
                reveal(Parser::st);
            }
            assert(loop_InlineDataOneVar_1(ks, start, gm1, si1) == loop_InlineDataOneVar_1(ks, start, gm1, p.st())) by {
                reveal_with_fuel(loop_InlineDataOneVar_1, 1); reveal_with_fuel(body_InlineDataOneVar_2, 1);
                reveal(Parser::st);
            }
            if !(peek_at(ks, p.st().pos) == SyntaxKind::IRIREF || peek_at(ks, p.st().pos) == SyntaxKind::PNAME_NS || peek_at(ks, p.st().pos) == SyntaxKind::STRING_LITERAL1 || peek_at(ks, p.st().pos) == SyntaxKind::STRING_LITERAL2 || peek_at(ks, p.st().pos) == SyntaxKind::INTEGER || peek_at(ks, p.st().pos) == SyntaxKind::UNDEF || peek_at(ks, p.st().pos) == SyntaxKind::DoubleLessLParen || peek_at(ks, p.st().pos) == SyntaxKind::DECIMAL || peek_at(ks, p.st().pos) == SyntaxKind::DOUBLE || peek_at(ks, p.st().pos) == SyntaxKind::INTEGER_POSITIVE || peek_at(ks, p.st().pos) == SyntaxKind::DECIMAL_POSITIVE || peek_at(ks, p.st().pos) == SyntaxKind::DOUBLE_POSITIVE || peek_at(ks, p.st().pos) == SyntaxKind::INTEGER_NEGATIVE || peek_at(ks, p.st().pos) == SyntaxKind::DECIMAL_NEGATIVE || peek_at(ks, p.st().pos) == SyntaxKind::DOUBLE_NEGATIVE || peek_at(ks, p.st().pos) == SyntaxKind::True || peek_at(ks, p.st().pos) == SyntaxKind::False || peek_at(ks, p.st().pos) == SyntaxKind::STRING_LITERAL_LONG1 || peek_at(ks, p.st().pos) == SyntaxKind::STRING_LITERAL_LONG2 || peek_at(ks, p.st().pos) == SyntaxKind::PNAME_LN) {
                assert(loop_InlineDataOneVar_1(ks, start, gm1, p.st()) == p.st()) by {
                    reveal_with_fuel(loop_InlineDataOneVar_1, 1); reveal_with_fuel(body_InlineDataOneVar_2, 1);
                }
            }
        }
    }
    p.expect(SyntaxKind::RCurly);
    p.close(marker, SyntaxKind::InlineDataOneVar);
    proof {
        assert(rule_InlineDataOneVar(ks, s0) == p.st()) by {
            reveal_with_fuel(rule_InlineDataOneVar, 1); reveal_with_fuel(loop_InlineDataOneVar_1, 1);
        }
    }
}

pub open spec fn rank_InlineDataFull(t: SyntaxKind) -> nat {
    0
}

/// What [`parse_InlineDataFull`] makes of the parser state.
#[verifier::opaque]
pub open spec fn rule_InlineDataFull(ts: Seq<SyntaxKind>, s: St) -> St
    decreases ts.len() - s.pos, rank_InlineDataFull(peek_at(ts, s.pos)), 32 * (ts.len() - s.pos) + 32,
{
    let start = s.pos;
    let s_in = s;
    let m_marker = s.evs.len() as int;
    let s = st_open(s);
    let (s, r) = if s_in.pos <= s.pos <= ts.len() {
        match_InlineDataFull_1(ts, start, m_marker, s)
    } else {
        (s, false)
    };
    if r {
        s
    } else {
        let s = st_expect(ts, s, SyntaxKind::LCurly);
        let (s, r) = if s_in.pos <= s.pos <= ts.len() {
            loop_InlineDataFull_4(ts, start, m_marker, s)
        } else {
            (s, false)
        };
        if r {
            s
        } else {
            let s = st_expect(ts, s, SyntaxKind::RCurly);
            let s = st_close(s, m_marker, SyntaxKind::InlineDataFull);
            s
        }
    }
}

#[verifier::opaque]
pub open spec fn loop_InlineDataFull_2(ts: Seq<SyntaxKind>, start: int, m_marker: int, s: St) -> St
    decreases ts.len() - start, rank_InlineDataFull(peek_at(ts, start)), 32 * (ts.len() - s.pos) + 32 - 2,
{
    let s_in = s;
    if (peek_at(ts, s.pos) == SyntaxKind::VAR1 || peek_at(ts, s.pos) == SyntaxKind::VAR2) && s.pos <= ts.len() {
        let s1 = body_InlineDataFull_3(ts, start, m_marker, s);
        if s1.pos == s.pos {
            s1
        } else if s.pos < s1.pos <= ts.len() {
            loop_InlineDataFull_2(ts, start, m_marker, s1)
        } else {
            s1
        }
    } else {
        s
    }
}

#[verifier::opaque]
pub open spec fn body_InlineDataFull_3(ts: Seq<SyntaxKind>, start: int, m_marker: int, s: St) -> St
    decreases ts.len() - start, rank_InlineDataFull(peek_at(ts, start)), 32 * (ts.len() - s.pos) + 32 - 3,
{
    let s_in = s;
    let s = rule_Var(ts, s);
    s
}

#[verifier::opaque]
pub open spec fn match_InlineDataFull_1(ts: Seq<SyntaxKind>, start: int, m_marker: int, s: St) -> (St, bool)
    decreases ts.len() - start, rank_InlineDataFull(peek_at(ts, start)), 32 * (ts.len() - s.pos) + 32 - 1,
{
    let s_in = s;
    if (peek_at(ts, s.pos) == SyntaxKind::NIL) {
        let s = st_expect(ts, s, SyntaxKind::NIL);
        (s, false)
    } else if (peek_at(ts, s.pos) == SyntaxKind::LParen) {
        let s = st_expect(ts, s, SyntaxKind::LParen);
        let s = if s_in.pos <= s.pos <= ts.len() {
            loop_InlineDataFull_2(ts, start, m_marker, s)
        } else {
            s
        };
        let s = st_expect(ts, s, SyntaxKind::RParen);
        (s, false)
    } else if (peek_at(ts, s.pos) == SyntaxKind::Eof) {
        let s = st_close(s, m_marker, SyntaxKind::InlineDataFull);
        let m_marker = s.evs.len() as int;
        let s = st_open(s);
        let s = st_close(s, m_marker, SyntaxKind::Error);
        (s, true)
    } else {
        let s = st_advance_with_error(ts, s, seq![SyntaxKind::NIL, SyntaxKind::LParen]);
        (s, false)
    }
}

#[verifier::opaque]
pub open spec fn loop_InlineDataFull_7(ts: Seq<SyntaxKind>, start: int, m_marker: int, s: St) -> St
    decreases ts.len() - start, rank_InlineDataFull(peek_at(ts, start)), 32 * (ts.len() - s.pos) + 32 - 4,
{
    let s_in = s;
    if (peek_at(ts, s.pos) == SyntaxKind::IRIREF || peek_at(ts, s.pos) == SyntaxKind::PNAME_NS || peek_at(ts, s.pos) == SyntaxKind::STRING_LITERAL1 || peek_at(ts, s.pos) == SyntaxKind::STRING_LITERAL2 || peek_at(ts, s.pos) == SyntaxKind::INTEGER || peek_at(ts, s.pos) == SyntaxKind::UNDEF || peek_at(ts, s.pos) == SyntaxKind::DoubleLessLParen || peek_at(ts, s.pos) == SyntaxKind::DECIMAL || peek_at(ts, s.pos) == SyntaxKind::DOUBLE || peek_at(ts, s.pos) == SyntaxKind::INTEGER_POSITIVE || peek_at(ts, s.pos) == SyntaxKind::DECIMAL_POSITIVE || peek_at(ts, s.pos) == SyntaxKind::DOUBLE_POSITIVE || peek_at(ts, s.pos) == SyntaxKind::INTEGER_NEGATIVE || peek_at(ts, s.pos) == SyntaxKind::DECIMAL_NEGATIVE || peek_at(ts, s.pos) == SyntaxKind::DOUBLE_NEGATIVE || peek_at(ts, s.pos) == SyntaxKind::True || peek_at(ts, s.pos) == SyntaxKind::False || peek_at(ts, s.pos) == SyntaxKind::STRING_LITERAL_LONG1 || peek_at(ts, s.pos) == SyntaxKind::STRING_LITERAL_LONG2 || peek_at(ts, s.pos) == SyntaxKind::PNAME_LN) && s.pos <= ts.len() {
        let s1 = body_InlineDataFull_8(ts, start, m_marker, s);
        if s1.pos == s.pos {
            s1
        } else if s.pos < s1.pos <= ts.len() {
            loop_InlineDataFull_7(ts, start, m_marker, s1)
        } else {
            s1
        }
    } else {
        s
    }
}

#[verifier::opaque]
pub open spec fn body_InlineDataFull_8(ts: Seq<SyntaxKind>, start: int, m_marker: int, s: St) -> St
    decreases ts.len() - start, rank_InlineDataFull(peek_at(ts, start)), 32 * (ts.len() - s.pos) + 32 - 5,
{
    let s_in = s;
    let s = if call_ok(ts, start, s, rank_DataBlockValue(peek_at(ts, s.pos)), rank_InlineDataFull(peek_at(ts, start))) {
        rule_DataBlockValue(ts, s)
    } else {
        s
    };
    s
}

#[verifier::opaque]
pub open spec fn match_InlineDataFull_6(ts: Seq<SyntaxKind>, start: int, m_marker: int, s: St) -> (St, bool)
    decreases ts.len() - start, rank_InlineDataFull(peek_at(ts, start)), 32 * (ts.len() - s.pos) + 32 - 3,
{
    let s_in = s;
    if (peek_at(ts, s.pos) == SyntaxKind::LParen) {
        let s = st_expect(ts, s, SyntaxKind::LParen);
        let s = if s_in.pos <= s.pos <= ts.len() {
            loop_InlineDataFull_7(ts, start, m_marker, s)
        } else {
            s
        };
        let s = st_expect(ts, s, SyntaxKind::RParen);
        (s, false)
    } else if (peek_at(ts, s.pos) == SyntaxKind::NIL) {
        let s = st_expect(ts, s, SyntaxKind::NIL);
        (s, false)
    } else if (peek_at(ts, s.pos) == SyntaxKind::Eof) {
        let s = st_close(s, m_marker, SyntaxKind::InlineDataFull);
        let m_marker = s.evs.len() as int;
        let s = st_open(s);
        let s = st_close(s, m_marker, SyntaxKind::Error);
        (s, true)
    } else {
        let s = st_advance_with_error(ts, s, seq![SyntaxKind::LParen, SyntaxKind::NIL]);
        (s, false)
    }
}

#[verifier::opaque]
pub open spec fn loop_InlineDataFull_4(ts: Seq<SyntaxKind>, start: int, m_marker: int, s: St) -> (St, bool)
    decreases ts.len() - start, rank_InlineDataFull(peek_at(ts, start)), 32 * (ts.len() - s.pos) + 32 - 1,
{
    let s_in = s;
    if (peek_at(ts, s.pos) == SyntaxKind::LParen || peek_at(ts, s.pos) == SyntaxKind::NIL) && s.pos <= ts.len() {
        let (s1, r) = body_InlineDataFull_5(ts, start, m_marker, s);
        if r {
            (s1, true)
        } else if s1.pos == s.pos {
            (s1, false)
        } else if s.pos < s1.pos <= ts.len() {
            loop_InlineDataFull_4(ts, start, m_marker, s1)
        } else {
            (s1, false)
        }
    } else {
        (s, false)
    }
}

#[verifier::opaque]
pub open spec fn body_InlineDataFull_5(ts: Seq<SyntaxKind>, start: int, m_marker: int, s: St) -> (St, bool)
    decreases ts.len() - start, rank_InlineDataFull(peek_at(ts, start)), 32 * (ts.len() - s.pos) + 32 - 2,
{
    let s_in = s;
    let (s, r) = if s_in.pos <= s.pos <= ts.len() {
        match_InlineDataFull_6(ts, start, m_marker, s)
    } else {
        (s, false)
    };
    if r {
        (s, true)
    } else {
        (s, false)
    }
}

/// [84] InlineDataFull -> ('NIL' | '(' Var* ')') '{' ('(' DataBlockValue* ')' | 'NIL')* '}'
pub(crate) fn parse_InlineDataFull(p: &mut Parser)
    requires
        old(p).wf(),
    ensures
        Parser::step(*old(p), *final(p)),
        final(p).pos == old(p).pos ==> (old(p).peek() == SyntaxKind::Eof || old(p).peek() == SyntaxKind::WHERE),
        old(p).events@.len() < final(p).events@.len(),
        final(p).events@[old(p).events@.len() as int] == (Event::Open { kind: SyntaxKind::InlineDataFull }),
        final(p).events@.last() is Close,
        final(p).st() == rule_InlineDataFull(old(p).kinds(), old(p).st()),
    decreases old(p).remaining(), rank_InlineDataFull(old(p).peek()), 1int,
{
    let ghost ks = p.kinds();
    let ghost s0 = p.st();
    let ghost start = p.pos as int;
    let mut returned: bool = false;
    let marker = p.open();
    let ghost gm1 = marker.index as int;
    let ghost pre1 = p.st();
    match p.nth(0) {
        SyntaxKind::NIL => {
            p.expect(SyntaxKind::NIL);
            proof {
                assert(match_InlineDataFull_1(ks, start, gm1, pre1) == (p.st(), false)) by {
                    reveal_with_fuel(match_InlineDataFull_1, 1);
                }
            }
        },
        SyntaxKind::LParen => {
            p.expect(SyntaxKind::LParen);
            let ghost pre2 = p.st();
            proof {
                assert(p.st().pos == p.pos as int) by {
                    reveal(Parser::st);
                }
                if !(peek_at(ks, p.st().pos) == SyntaxKind::VAR1 || peek_at(ks, p.st().pos) == SyntaxKind::VAR2) {
                    assert(loop_InlineDataFull_2(ks, start, gm1, pre2) == pre2) by {
                        reveal_with_fuel(loop_InlineDataFull_2, 1); reveal_with_fuel(body_InlineDataFull_3, 1);
                    }
                }
            }
            while p.at_any(&[SyntaxKind::VAR1, SyntaxKind::VAR2])
                invariant
                    marker.index == old(p).events@.len(),
                    p.wf(),
                    p.tokens@ == old(p).tokens@,
                    old(p).pos <= p.pos,
                    p.stack() == old(p).stack().push(marker.index as int),
                    p.pos == old(p).pos ==> false,
                    ks == p.kinds(),
                    p.st().pos == p.pos as int,
                    start == old(p).pos as int,
                    gm1 == marker.index as int,
                    pre2.pos <= p.pos,
                    start <= pre2.pos,
                    loop_InlineDataFull_2(ks, start, gm1, p.st()) == loop_InlineDataFull_2(ks, start, gm1, pre2),
                    !(peek_at(ks, p.st().pos) == SyntaxKind::VAR1 || peek_at(ks, p.st().pos) == SyntaxKind::VAR2) ==> loop_InlineDataFull_2(ks, start, gm1, p.st()) == p.st(),
                ensures
                    loop_InlineDataFull_2(ks, start, gm1, pre2) == p.st(),
                decreases p.remaining(),
            {
                let ghost si2 = p.st();
                let checkpoint1 = p.pos();
                parse_Var(p);
                proof {
                    assert(body_InlineDataFull_3(ks, start, gm1, si2) == p.st()) by {
                        reveal_with_fuel(body_InlineDataFull_3, 1);
                    }
                }
                if p.pos() == checkpoint1 {
                    proof {
                        assert(loop_InlineDataFull_2(ks, start, gm1, si2) == p.st()) by {
                            reveal_with_fuel(loop_InlineDataFull_2, 1); reveal_with_fuel(body_InlineDataFull_3, 1);
                        }
                    }
                    break;
                }
                proof {
                    assert(p.st().pos == p.pos as int) by {
                        reveal(Parser::st);
                    }
                    assert(loop_InlineDataFull_2(ks, start, gm1, si2) == loop_InlineDataFull_2(ks, start, gm1, p.st())) by {
                        reveal_with_fuel(loop_InlineDataFull_2, 1); reveal_with_fuel(body_InlineDataFull_3, 1);
                        reveal(Parser::st);
                    }
                    if !(peek_at(ks, p.st().pos) == SyntaxKind::VAR1 || peek_at(ks, p.st().pos) == SyntaxKind::VAR2) {
                        assert(loop_InlineDataFull_2(ks, start, gm1, p.st()) == p.st()) by {
                            reveal_with_fuel(loop_InlineDataFull_2, 1); reveal_with_fuel(body_InlineDataFull_3, 1);
                        }
                    }
                }
            }
            p.expect(SyntaxKind::RParen);
            proof {
                assert(match_InlineDataFull_1(ks, start, gm1, pre1) == (p.st(), false)) by {
                    reveal_with_fuel(match_InlineDataFull_1, 1); reveal_with_fuel(loop_InlineDataFull_2, 1);
                }
            }
        },
        SyntaxKind::Eof => {
            p.close(marker, SyntaxKind::InlineDataFull);
            let marker = p.open();
            let ghost gm2 = marker.index as int;
            p.close(marker, SyntaxKind::Error);
            proof {
                assert(match_InlineDataFull_1(ks, start, gm1, pre1) == (p.st(), true)) by {
                    reveal_with_fuel(match_InlineDataFull_1, 1);
                }
            }
            proof {
                assert(rule_InlineDataFull(ks, s0) == p.st()) by {
                    reveal_with_fuel(rule_InlineDataFull, 1); reveal_with_fuel(loop_InlineDataFull_4, 1); reveal_with_fuel(match_InlineDataFull_1, 1);
                }
            }
            return ;
        },
        _ => {
            p.advance_with_error(vec![SyntaxKind::NIL, SyntaxKind::LParen]);
            proof {
                assert(match_InlineDataFull_1(ks, start, gm1, pre1) == (p.st(), false)) by {
                    reveal_with_fuel(match_InlineDataFull_1, 1);
                }
            }
        },
    }
    p.expect(SyntaxKind::LCurly);
    let ghost pre3 = p.st();
    proof {
        assert(p.st().pos == p.pos as int) by {
            reveal(Parser::st);
        }
        if !(peek_at(ks, p.st().pos) == SyntaxKind::LParen || peek_at(ks, p.st().pos) == SyntaxKind::NIL) {
            assert(loop_InlineDataFull_4(ks, start, gm1, pre3) == (pre3, false)) by {
                reveal_with_fuel(loop_InlineDataFull_4, 1); reveal_with_fuel(body_InlineDataFull_5, 1);
            }
        }
    }
    while p.at_any(&[SyntaxKind::LParen, SyntaxKind::NIL])
        invariant_except_break
            !returned,
        invariant
            marker.index == old(p).events@.len(),
            p.wf(),
            p.tokens@ == old(p).tokens@,
            old(p).pos <= p.pos,
            p.stack() == old(p).stack().push(marker.index as int),
            p.pos == old(p).pos ==> (old(p).peek() == SyntaxKind::RCurly || old(p).peek() == SyntaxKind::WHERE),
            ks == p.kinds(),
            p.st().pos == p.pos as int,
            start == old(p).pos as int,
            gm1 == marker.index as int,
            pre3.pos <= p.pos,
            start <= pre3.pos,
            loop_InlineDataFull_4(ks, start, gm1, p.st()) == loop_InlineDataFull_4(ks, start, gm1, pre3),
            !(peek_at(ks, p.st().pos) == SyntaxKind::LParen || peek_at(ks, p.st().pos) == SyntaxKind::NIL) ==> loop_InlineDataFull_4(ks, start, gm1, p.st()) == (p.st(), false),
        ensures
            returned ==> (Parser::step(*old(p), *p)),
            returned ==> (p.pos == old(p).pos ==> (old(p).peek() == SyntaxKind::Eof || old(p).peek() == SyntaxKind::WHERE)),
            returned ==> (old(p).events@.len() < p.events@.len()),
            returned ==> (p.events@[old(p).events@.len() as int] == (Event::Open { kind: SyntaxKind::InlineDataFull })),
            returned ==> (p.events@.last() is Close),
            loop_InlineDataFull_4(ks, start, gm1, pre3) == (p.st(), returned),
        decreases p.remaining(),
    {
        let ghost si3 = p.st();
        let checkpoint1 = p.pos();
        let ghost pre4 = p.st();
        match p.nth(0) {
            SyntaxKind::LParen => {
                p.expect(SyntaxKind::LParen);
                let ghost pre5 = p.st();
                proof {
                    assert(p.st().pos == p.pos as int) by {
                        reveal(Parser::st);
                    }
                    if !(peek_at(ks, p.st().pos) == SyntaxKind::IRIREF || peek_at(ks, p.st().pos) == SyntaxKind::PNAME_NS || peek_at(ks, p.st().pos) == SyntaxKind::STRING_LITERAL1 || peek_at(ks, p.st().pos) == SyntaxKind::STRING_LITERAL2 || peek_at(ks, p.st().pos) == SyntaxKind::INTEGER || peek_at(ks, p.st().pos) == SyntaxKind::UNDEF || peek_at(ks, p.st().pos) == SyntaxKind::DoubleLessLParen || peek_at(ks, p.st().pos) == SyntaxKind::DECIMAL || peek_at(ks, p.st().pos) == SyntaxKind::DOUBLE || peek_at(ks, p.st().pos) == SyntaxKind::INTEGER_POSITIVE || peek_at(ks, p.st().pos) == SyntaxKind::DECIMAL_POSITIVE || peek_at(ks, p.st().pos) == SyntaxKind::DOUBLE_POSITIVE || peek_at(ks, p.st().pos) == SyntaxKind::INTEGER_NEGATIVE || peek_at(ks, p.st().pos) == SyntaxKind::DECIMAL_NEGATIVE || peek_at(ks, p.st().pos) == SyntaxKind::DOUBLE_NEGATIVE || peek_at(ks, p.st().pos) == SyntaxKind::True || peek_at(ks, p.st().pos) == SyntaxKind::False || peek_at(ks, p.st().pos) == SyntaxKind::STRING_LITERAL_LONG1 || peek_at(ks, p.st().pos) == SyntaxKind::STRING_LITERAL_LONG2 || peek_at(ks, p.st().pos) == SyntaxKind::PNAME_LN) {
                        assert(loop_InlineDataFull_7(ks, start, gm1, pre5) == pre5) by {
                            reveal_with_fuel(loop_InlineDataFull_7, 1); reveal_with_fuel(body_InlineDataFull_8, 1);
                        }
                    }
                }
                while p.at_any(&[SyntaxKind::IRIREF, SyntaxKind::PNAME_NS, SyntaxKind::STRING_LITERAL1, SyntaxKind::STRING_LITERAL2, SyntaxKind::INTEGER, SyntaxKind::UNDEF, SyntaxKind::DoubleLessLParen, SyntaxKind::DECIMAL, SyntaxKind::DOUBLE, SyntaxKind::INTEGER_POSITIVE, SyntaxKind::DECIMAL_POSITIVE, SyntaxKind::DOUBLE_POSITIVE, SyntaxKind::INTEGER_NEGATIVE, SyntaxKind::DECIMAL_NEGATIVE, SyntaxKind::DOUBLE_NEGATIVE, SyntaxKind::True, SyntaxKind::False, SyntaxKind::STRING_LITERAL_LONG1, SyntaxKind::STRING_LITERAL_LONG2, SyntaxKind::PNAME_LN])
                    invariant
                        marker.index == old(p).events@.len(),
                        p.wf(),
                        p.tokens@ == old(p).tokens@,
                        old(p).pos <= p.pos,
                        p.stack() == old(p).stack().push(marker.index as int),
                        p.pos == old(p).pos ==> false,
                        checkpoint1 <= p.pos,
                        ks == p.kinds(),
                        p.st().pos == p.pos as int,
                        start == old(p).pos as int,
                        gm1 == marker.index as int,
                        pre5.pos <= p.pos,
                        start <= pre5.pos,
                        loop_InlineDataFull_7(ks, start, gm1, p.st()) == loop_InlineDataFull_7(ks, start, gm1, pre5),
                        !(peek_at(ks, p.st().pos) == SyntaxKind::IRIREF || peek_at(ks, p.st().pos) == SyntaxKind::PNAME_NS || peek_at(ks, p.st().pos) == SyntaxKind::STRING_LITERAL1 || peek_at(ks, p.st().pos) == SyntaxKind::STRING_LITERAL2 || peek_at(ks, p.st().pos) == SyntaxKind::INTEGER || peek_at(ks, p.st().pos) == SyntaxKind::UNDEF || peek_at(ks, p.st().pos) == SyntaxKind::DoubleLessLParen || peek_at(ks, p.st().pos) == SyntaxKind::DECIMAL || peek_at(ks, p.st().pos) == SyntaxKind::DOUBLE || peek_at(ks, p.st().pos) == SyntaxKind::INTEGER_POSITIVE || peek_at(ks, p.st().pos) == SyntaxKind::DECIMAL_POSITIVE || peek_at(ks, p.st().pos) == SyntaxKind::DOUBLE_POSITIVE || peek_at(ks, p.st().pos) == SyntaxKind::INTEGER_NEGATIVE || peek_at(ks, p.st().pos) == SyntaxKind::DECIMAL_NEGATIVE || peek_at(ks, p.st().pos) == SyntaxKind::DOUBLE_NEGATIVE || peek_at(ks, p.st().pos) == SyntaxKind::True || peek_at(ks, p.st().pos) == SyntaxKind::False || peek_at(ks, p.st().pos) == SyntaxKind::STRING_LITERAL_LONG1 || peek_at(ks, p.st().pos) == SyntaxKind::STRING_LITERAL_LONG2 || peek_at(ks, p.st().pos) == SyntaxKind::PNAME_LN) ==> loop_InlineDataFull_7(ks, start, gm1, p.st()) == p.st(),
                    ensures
                        loop_InlineDataFull_7(ks, start, gm1, pre5) == p.st(),
                    decreases p.remaining(),
                {
                    let ghost si5 = p.st();
                    let checkpoint2 = p.pos();
                    proof {
                        assert(call_ok(ks, start, p.st(), rank_DataBlockValue(peek_at(ks, p.st().pos)), rank_InlineDataFull(peek_at(ks, start)))) by {
                            reveal(Parser::st);
                            assert(peek_at(ks, start) == old(p).peek());
                            assert(peek_at(ks, p.pos as int) == p.peek());
                        }
                    }
                    parse_DataBlockValue(p);
                    proof {
                        assert(body_InlineDataFull_8(ks, start, gm1, si5) == p.st()) by {
                            reveal_with_fuel(body_InlineDataFull_8, 1); reveal_with_fuel(rule_DataBlockValue, 1);
                        }
                    }
                    if p.pos() == checkpoint2 {
                        proof {
                            assert(loop_InlineDataFull_7(ks, start, gm1, si5) == p.st()) by {
                                reveal_with_fuel(loop_InlineDataFull_7, 1); reveal_with_fuel(body_InlineDataFull_8, 1);
                            }
                        }
                        break;
                    }
                    proof {
                        assert(p.st().pos == p.pos as int) by {
                            reveal(Parser::st);
                        }
                        assert(loop_InlineDataFull_7(ks, start, gm1, si5) == loop_InlineDataFull_7(ks, start, gm1, p.st())) by {
                            reveal_with_fuel(loop_InlineDataFull_7, 1); reveal_with_fuel(body_InlineDataFull_8, 1);
                            reveal(Parser::st);
                        }
                        if !(peek_at(ks, p.st().pos) == SyntaxKind::IRIREF || peek_at(ks, p.st().pos) == SyntaxKind::PNAME_NS || peek_at(ks, p.st().pos) == SyntaxKind::STRING_LITERAL1 || peek_at(ks, p.st().pos) == SyntaxKind::STRING_LITERAL2 || peek_at(ks, p.st().pos) == SyntaxKind::INTEGER || peek_at(ks, p.st().pos) == SyntaxKind::UNDEF || peek_at(ks, p.st().pos) == SyntaxKind::DoubleLessLParen || peek_at(ks, p.st().pos) == SyntaxKind::DECIMAL || peek_at(ks, p.st().pos) == SyntaxKind::DOUBLE || peek_at(ks, p.st().pos) == SyntaxKind::INTEGER_POSITIVE || peek_at(ks, p.st().pos) == SyntaxKind::DECIMAL_POSITIVE || peek_at(ks, p.st().pos) == SyntaxKind::DOUBLE_POSITIVE || peek_at(ks, p.st().pos) == SyntaxKind::INTEGER_NEGATIVE || peek_at(ks, p.st().pos) == SyntaxKind::DECIMAL_NEGATIVE || peek_at(ks, p.st().pos) == SyntaxKind::DOUBLE_NEGATIVE || peek_at(ks, p.st().pos) == SyntaxKind::True || peek_at(ks, p.st().pos) == SyntaxKind::False || peek_at(ks, p.st().pos) == SyntaxKind::STRING_LITERAL_LONG1 || peek_at(ks, p.st().pos) == SyntaxKind::STRING_LITERAL_LONG2 || peek_at(ks, p.st().pos) == SyntaxKind::PNAME_LN) {
                            assert(loop_InlineDataFull_7(ks, start, gm1, p.st()) == p.st()) by {
                                reveal_with_fuel(loop_InlineDataFull_7, 1); reveal_with_fuel(body_InlineDataFull_8, 1);
                            }
                        }
                    }
                }
                p.expect(SyntaxKind::RParen);
                proof {
                    assert(match_InlineDataFull_6(ks, start, gm1, pre4) == (p.st(), false)) by {
                        reveal_with_fuel(match_InlineDataFull_6, 1); reveal_with_fuel(loop_InlineDataFull_7, 1);
                    }
                }
            },
            SyntaxKind::NIL => {
                p.expect(SyntaxKind::NIL);
                proof {
                    assert(match_InlineDataFull_6(ks, start, gm1, pre4) == (p.st(), false)) by {
                        reveal_with_fuel(match_InlineDataFull_6, 1);
                    }
                }
            },
            SyntaxKind::Eof => {
                p.close(marker, SyntaxKind::InlineDataFull);
                let marker = p.open();
                let ghost gm3 = marker.index as int;
                p.close(marker, SyntaxKind::Error);
                proof {
                    assert(match_InlineDataFull_6(ks, start, gm1, pre4) == (p.st(), true)) by {
                        reveal_with_fuel(match_InlineDataFull_6, 1);
                    }
                }
                proof {
                    assert(body_InlineDataFull_5(ks, start, gm1, si3) == (p.st(), true)) by {
                        reveal_with_fuel(body_InlineDataFull_5, 1); reveal_with_fuel(match_InlineDataFull_6, 1);
                    }
                }
                proof {
                    assert(loop_InlineDataFull_4(ks, start, gm1, si3) == (p.st(), true)) by {
                        reveal_with_fuel(loop_InlineDataFull_4, 1); reveal_with_fuel(body_InlineDataFull_5, 1);
                    }
                }
                returned = true;
                break;
            },
            _ => {
                p.advance_with_error(vec![SyntaxKind::LParen, SyntaxKind::NIL]);
                proof {
                    assert(match_InlineDataFull_6(ks, start, gm1, pre4) == (p.st(), false)) by {
                        reveal_with_fuel(match_InlineDataFull_6, 1);
                    }
                }
            },
        }
        proof {
            assert(body_InlineDataFull_5(ks, start, gm1, si3) == (p.st(), false)) by {
                reveal_with_fuel(body_InlineDataFull_5, 1); reveal_with_fuel(match_InlineDataFull_6, 1);
            }
        }
        if p.pos() == checkpoint1 {
            proof {
                assert(loop_InlineDataFull_4(ks, start, gm1, si3) == (p.st(), false)) by {
                    reveal_with_fuel(loop_InlineDataFull_4, 1); reveal_with_fuel(body_InlineDataFull_5, 1);
                }
            }
            break;
        }
        proof {
            assert(p.st().pos == p.pos as int) by {
                reveal(Parser::st);
            }
            assert(loop_InlineDataFull_4(ks, start, gm1, si3) == loop_InlineDataFull_4(ks, start, gm1, p.st())) by {
                reveal_with_fuel(loop_InlineDataFull_4, 1); reveal_with_fuel(body_InlineDataFull_5, 1);
                reveal(Parser::st);
            }
            if !(peek_at(ks, p.st().pos) == SyntaxKind::LParen || peek_at(ks, p.st().pos) == SyntaxKind::NIL) {
                assert(loop_InlineDataFull_4(ks, start, gm1, p.st()) == (p.st(), false)) by {
                    reveal_with_fuel(loop_InlineDataFull_4, 1); reveal_with_fuel(body_InlineDataFull_5, 1);
                }
            }
        }
    }
    if returned {
        proof {
            assert(rule_InlineDataFull(ks, s0) == p.st()) by {
                reveal_with_fuel(rule_InlineDataFull, 1); reveal_with_fuel(loop_InlineDataFull_4, 1); reveal_with_fuel(match_InlineDataFull_1, 1);
            }
        }
        return ;
    }
    p.expect(SyntaxKind::RCurly);
    p.close(marker, SyntaxKind::InlineDataFull);
    proof {
        assert(rule_InlineDataFull(ks, s0) == p.st()) by {
            reveal_with_fuel(rule_InlineDataFull, 1); reveal_with_fuel(loop_InlineDataFull_4, 1); reveal_with_fuel(match_InlineDataFull_1, 1);
        }
    }
}

pub open spec fn rank_DataBlockValue(t: SyntaxKind) -> nat {
    match t {
        SyntaxKind::DoubleLessLParen | SyntaxKind::False | SyntaxKind::IRIREF | SyntaxKind::True => 1,
        SyntaxKind::DECIMAL | SyntaxKind::DECIMAL_NEGATIVE | SyntaxKind::DECIMAL_POSITIVE | SyntaxKind::DOUBLE | SyntaxKind::DOUBLE_NEGATIVE | SyntaxKind::DOUBLE_POSITIVE | SyntaxKind::INTEGER | SyntaxKind::INTEGER_NEGATIVE | SyntaxKind::INTEGER_POSITIVE | SyntaxKind::PNAME_LN | SyntaxKind::PNAME_NS | SyntaxKind::STRING_LITERAL1 | SyntaxKind::STRING_LITERAL2 | SyntaxKind::STRING_LITERAL_LONG1 | SyntaxKind::STRING_LITERAL_LONG2 => 2,
        _ => 0,
    }
}

/// What [`parse_DataBlockValue`] makes of the parser state.
#[verifier::opaque]
pub open spec fn rule_DataBlockValue(ts: Seq<SyntaxKind>, s: St) -> St
    decreases ts.len() - s.pos, rank_DataBlockValue(peek_at(ts, s.pos)), 32 * (ts.len() - s.pos) + 32,
{
    let start = s.pos;
    let s_in = s;
    let m_marker = s.evs.len() as int;
    let s = st_open(s);
    let (s, r) = if s_in.pos <= s.pos <= ts.len() {
        match_DataBlockValue_1(ts, start, m_marker, s)
    } else {
        (s, false)
    };
    if r {
        s
    } else {
        let s = st_close(s, m_marker, SyntaxKind::DataBlockValue);
        s
    }
}

#[verifier::opaque]
pub open spec fn match_DataBlockValue_1(ts: Seq<SyntaxKind>, start: int, m_marker: int, s: St) -> (St, bool)
    decreases ts.len() - start, rank_DataBlockValue(peek_at(ts, start)), 32 * (ts.len() - s.pos) + 32 - 1,
{
    let s_in = s;
    if (peek_at(ts, s.pos) == SyntaxKind::IRIREF || peek_at(ts, s.pos) == SyntaxKind::PNAME_NS || peek_at(ts, s.pos) == SyntaxKind::PNAME_LN) {
        let s = rule_iri(ts, s);
        (s, false)
    } else if (peek_at(ts, s.pos) == SyntaxKind::STRING_LITERAL1 || peek_at(ts, s.pos) == SyntaxKind::STRING_LITERAL2 || peek_at(ts, s.pos) == SyntaxKind::STRING_LITERAL_LONG1 || peek_at(ts, s.pos) == SyntaxKind::STRING_LITERAL_LONG2) {
        let s = rule_RDFLiteral(ts, s);
        (s, false)
    } else if (peek_at(ts, s.pos) == SyntaxKind::INTEGER || peek_at(ts, s.pos) == SyntaxKind::DECIMAL || peek_at(ts, s.pos) == SyntaxKind::DOUBLE || peek_at(ts, s.pos) == SyntaxKind::INTEGER_POSITIVE || peek_at(ts, s.pos) == SyntaxKind::DECIMAL_POSITIVE || peek_at(ts, s.pos) == SyntaxKind::DOUBLE_POSITIVE || peek_at(ts, s.pos) == SyntaxKind::INTEGER_NEGATIVE || peek_at(ts, s.pos) == SyntaxKind::DECIMAL_NEGATIVE || peek_at(ts, s.pos) == SyntaxKind::DOUBLE_NEGATIVE) {
        let s = rule_NumericLiteral(ts, s);
        (s, false)
    } else if (peek_at(ts, s.pos) == SyntaxKind::True || peek_at(ts, s.pos) == SyntaxKind::False) {
        let s = rule_BooleanLiteral(ts, s);
        (s, false)
    } else if (peek_at(ts, s.pos) == SyntaxKind::UNDEF) {
        let s = st_expect(ts, s, SyntaxKind::UNDEF);
        (s, false)
    } else if (peek_at(ts, s.pos) == SyntaxKind::DoubleLessLParen) {
        let s = if call_ok(ts, start, s, rank_TripleTermData(peek_at(ts, s.pos)), rank_DataBlockValue(peek_at(ts, start))) {
            rule_TripleTermData(ts, s)
        } else {
            s
        };
        (s, false)
    } else if (peek_at(ts, s.pos) == SyntaxKind::Eof) {
        let s = st_close(s, m_marker, SyntaxKind::DataBlockValue);
        let m_marker = s.evs.len() as int;
        let s = st_open(s);
        let s = st_close(s, m_marker, SyntaxKind::Error);
        (s, true)
    } else {
        let s = st_advance_with_error(ts, s, seq![SyntaxKind::IRIREF, SyntaxKind::PNAME_NS, SyntaxKind::PNAME_LN, SyntaxKind::STRING_LITERAL1, SyntaxKind::STRING_LITERAL2, SyntaxKind::STRING_LITERAL_LONG1, SyntaxKind::STRING_LITERAL_LONG2, SyntaxKind::INTEGER, SyntaxKind::DECIMAL, SyntaxKind::DOUBLE, SyntaxKind::INTEGER_POSITIVE, SyntaxKind::DECIMAL_POSITIVE, SyntaxKind::DOUBLE_POSITIVE, SyntaxKind::INTEGER_NEGATIVE, SyntaxKind::DECIMAL_NEGATIVE, SyntaxKind::DOUBLE_NEGATIVE, SyntaxKind::True, SyntaxKind::False, SyntaxKind::UNDEF, SyntaxKind::DoubleLessLParen]);
        (s, false)
    }
}

/// [85] DataBlockValue -> iri | RDFLiteral | NumericLiteral | BooleanLiteral | 'UNDEF' | TripleTermData
pub(crate) fn parse_DataBlockValue(p: &mut Parser)
    requires
        old(p).wf(),
    ensures
        Parser::step(*old(p), *final(p)),
        final(p).pos == old(p).pos ==> is_sync_point(old(p).peek()),
        old(p).events@.len() < final(p).events@.len(),
        final(p).events@[old(p).events@.len() as int] == (Event::Open { kind: SyntaxKind::DataBlockValue }),
        final(p).events@.last() is Close,
        final(p).st() == rule_DataBlockValue(old(p).kinds(), old(p).st()),
    decreases old(p).remaining(), rank_DataBlockValue(old(p).peek()), 1int,
{
    let ghost ks = p.kinds();
    let ghost s0 = p.st();
    let ghost start = p.pos as int;
    let marker = p.open();
    let ghost gm1 = marker.index as int;
    let ghost pre1 = p.st();
    match p.nth(0) {
        SyntaxKind::IRIREF | SyntaxKind::PNAME_NS | SyntaxKind::PNAME_LN => {
            parse_iri(p);
            proof {
                assert(match_DataBlockValue_1(ks, start, gm1, pre1) == (p.st(), false)) by {
                    reveal_with_fuel(match_DataBlockValue_1, 1);
                }
            }
        },
        SyntaxKind::STRING_LITERAL1 | SyntaxKind::STRING_LITERAL2 | SyntaxKind::STRING_LITERAL_LONG1 | SyntaxKind::STRING_LITERAL_LONG2 => {
            parse_RDFLiteral(p);
            proof {
                assert(match_DataBlockValue_1(ks, start, gm1, pre1) == (p.st(), false)) by {
                    reveal_with_fuel(match_DataBlockValue_1, 1);
                }
            }
        },
        SyntaxKind::INTEGER | SyntaxKind::DECIMAL | SyntaxKind::DOUBLE | SyntaxKind::INTEGER_POSITIVE | SyntaxKind::DECIMAL_POSITIVE | SyntaxKind::DOUBLE_POSITIVE | SyntaxKind::INTEGER_NEGATIVE | SyntaxKind::DECIMAL_NEGATIVE | SyntaxKind::DOUBLE_NEGATIVE => {
            parse_NumericLiteral(p);
            proof {
                assert(match_DataBlockValue_1(ks, start, gm1, pre1) == (p.st(), false)) by {
                    reveal_with_fuel(match_DataBlockValue_1, 1);
                }
            }
        },
        SyntaxKind::True | SyntaxKind::False => {
            parse_BooleanLiteral(p);
            proof {
                assert(match_DataBlockValue_1(ks, start, gm1, pre1) == (p.st(), false)) by {
                    reveal_with_fuel(match_DataBlockValue_1, 1);
                }
            }
        },
        SyntaxKind::UNDEF => {
            p.expect(SyntaxKind::UNDEF);
            proof {
                assert(match_DataBlockValue_1(ks, start, gm1, pre1) == (p.st(), false)) by {
                    reveal_with_fuel(match_DataBlockValue_1, 1);
                }
            }
        },
        SyntaxKind::DoubleLessLParen => {
            proof {
                assert(call_ok(ks, start, p.st(), rank_TripleTermData(peek_at(ks, p.st().pos)), rank_DataBlockValue(peek_at(ks, start)))) by {
                    reveal(Parser::st);
                    assert(peek_at(ks, start) == old(p).peek());
                    assert(peek_at(ks, p.pos as int) == p.peek());
                }
            }
            parse_TripleTermData(p);
            proof {
                assert(match_DataBlockValue_1(ks, start, gm1, pre1) == (p.st(), false)) by {
                    reveal_with_fuel(match_DataBlockValue_1, 1); reveal_with_fuel(rule_TripleTermData, 1);
                }
            }
        },
        SyntaxKind::Eof => {
            p.close(marker, SyntaxKind::DataBlockValue);
            let marker = p.open();
            let ghost gm2 = marker.index as int;
            p.close(marker, SyntaxKind::Error);
            proof {
                assert(match_DataBlockValue_1(ks, start, gm1, pre1) == (p.st(), true)) by {
                    reveal_with_fuel(match_DataBlockValue_1, 1);
                }
            }
            proof {
                assert(rule_DataBlockValue(ks, s0) == p.st()) by {
                    reveal_with_fuel(rule_DataBlockValue, 1); reveal_with_fuel(match_DataBlockValue_1, 1);
                }
            }
            return ;
        },
        _ => {
            p.advance_with_error(vec![SyntaxKind::IRIREF, SyntaxKind::PNAME_NS, SyntaxKind::PNAME_LN, SyntaxKind::STRING_LITERAL1, SyntaxKind::STRING_LITERAL2, SyntaxKind::STRING_LITERAL_LONG1, SyntaxKind::STRING_LITERAL_LONG2, SyntaxKind::INTEGER, SyntaxKind::DECIMAL, SyntaxKind::DOUBLE, SyntaxKind::INTEGER_POSITIVE, SyntaxKind::DECIMAL_POSITIVE, SyntaxKind::DOUBLE_POSITIVE, SyntaxKind::INTEGER_NEGATIVE, SyntaxKind::DECIMAL_NEGATIVE, SyntaxKind::DOUBLE_NEGATIVE, SyntaxKind::True, SyntaxKind::False, SyntaxKind::UNDEF, SyntaxKind::DoubleLessLParen]);
            proof {
                assert(match_DataBlockValue_1(ks, start, gm1, pre1) == (p.st(), false)) by {
                    reveal_with_fuel(match_DataBlockValue_1, 1);
                }
            }
        },
    }
    p.close(marker, SyntaxKind::DataBlockValue);
    proof {
        assert(rule_DataBlockValue(ks, s0) == p.st()) by {
            reveal_with_fuel(rule_DataBlockValue, 1); reveal_with_fuel(match_DataBlockValue_1, 1);
        }
    }
}

pub open spec fn rank_RDFLiteral(t: SyntaxKind) -> nat {
    1
}

/// What [`parse_RDFLiteral`] makes of the parser state.
#[verifier::opaque]
pub open spec fn rule_RDFLiteral(ts: Seq<SyntaxKind>, s: St) -> St {
    let m_marker = s.evs.len() as int;
    let s = st_open(s);
    let s = rule_String(ts, s);
    if (peek_at(ts, s.pos) == SyntaxKind::LANG_DIR || peek_at(ts, s.pos) == SyntaxKind::DoubleZirkumflex) {
        if (peek_at(ts, s.pos) == SyntaxKind::LANG_DIR) {
            let s = st_expect(ts, s, SyntaxKind::LANG_DIR);
            let s = st_close(s, m_marker, SyntaxKind::RDFLiteral);
            s
        } else if (peek_at(ts, s.pos) == SyntaxKind::DoubleZirkumflex) {
            let s = st_expect(ts, s, SyntaxKind::DoubleZirkumflex);
            let s = rule_iri(ts, s);
            let s = st_close(s, m_marker, SyntaxKind::RDFLiteral);
            s
        } else if (peek_at(ts, s.pos) == SyntaxKind::Eof) {
            let s = st_close(s, m_marker, SyntaxKind::RDFLiteral);
            let m_marker = s.evs.len() as int;
            let s = st_open(s);
            let s = st_close(s, m_marker, SyntaxKind::Error);
            s
        } else {
            let s = st_advance_with_error(ts, s, seq![SyntaxKind::LANG_DIR, SyntaxKind::DoubleZirkumflex]);
            let s = st_close(s, m_marker, SyntaxKind::RDFLiteral);
            s
        }
    } else {
        let s = st_close(s, m_marker, SyntaxKind::RDFLiteral);
        s
    }
}

/// [86] RDFLiteral -> String ('LANG_DIR' | '^^' iri)?
pub(crate) fn parse_RDFLiteral(p: &mut Parser)
    requires
        old(p).wf(),
    ensures
        Parser::step(*old(p), *final(p)),
        final(p).pos == old(p).pos ==> is_sync_point(old(p).peek()),
        old(p).events@.len() < final(p).events@.len(),
        final(p).events@[old(p).events@.len() as int] == (Event::Open { kind: SyntaxKind::RDFLiteral }),
        final(p).events@.last() is Close,
        final(p).st() == rule_RDFLiteral(old(p).kinds(), old(p).st()),
    decreases old(p).remaining(), rank_RDFLiteral(old(p).peek()), 1int,
{
    let ghost ks = p.kinds();
    let ghost s0 = p.st();
    let marker = p.open();
    parse_String(p);
    if p.at_any(&[SyntaxKind::LANG_DIR, SyntaxKind::DoubleZirkumflex]) {
        match p.nth(0) {
            SyntaxKind::LANG_DIR => {
                p.expect(SyntaxKind::LANG_DIR);
            },
            SyntaxKind::DoubleZirkumflex => {
                p.expect(SyntaxKind::DoubleZirkumflex);
                parse_iri(p);
            },
            SyntaxKind::Eof => {
                p.close(marker, SyntaxKind::RDFLiteral);
                let marker = p.open();
                p.close(marker, SyntaxKind::Error);
                proof {
                    assert(p.st() == rule_RDFLiteral(ks, s0)) by {
                        reveal(rule_RDFLiteral);
                        reveal(Parser::st);
                    }
                }
                return ;
            },
            _ => {
                p.advance_with_error(vec![SyntaxKind::LANG_DIR, SyntaxKind::DoubleZirkumflex]);
            },
        }
    }
    p.close(marker, SyntaxKind::RDFLiteral);
    proof {
        assert(p.st() == rule_RDFLiteral(ks, s0)) by {
            reveal(rule_RDFLiteral);
            reveal(Parser::st);
        }
    }
}

pub open spec fn rank_NumericLiteral(t: SyntaxKind) -> nat {
    match t {
        SyntaxKind::DECIMAL | SyntaxKind::DECIMAL_NEGATIVE | SyntaxKind::DECIMAL_POSITIVE | SyntaxKind::DOUBLE | SyntaxKind::DOUBLE_NEGATIVE | SyntaxKind::DOUBLE_POSITIVE | SyntaxKind::INTEGER | SyntaxKind::INTEGER_NEGATIVE | SyntaxKind::INTEGER_POSITIVE => 1,
        _ => 0,
    }
}

/// What [`parse_NumericLiteral`] makes of the parser state.
#[verifier::opaque]
pub open spec fn rule_NumericLiteral(ts: Seq<SyntaxKind>, s: St) -> St {
    let m_marker = s.evs.len() as int;
    let s = st_open(s);
    if (peek_at(ts, s.pos) == SyntaxKind::INTEGER || peek_at(ts, s.pos) == SyntaxKind::DECIMAL || peek_at(ts, s.pos) == SyntaxKind::DOUBLE) {
        let s = rule_NumericLiteralUnsigned(ts, s);
        let s = st_close(s, m_marker, SyntaxKind::NumericLiteral);
        s
    } else if (peek_at(ts, s.pos) == SyntaxKind::INTEGER_POSITIVE || peek_at(ts, s.pos) == SyntaxKind::DECIMAL_POSITIVE || peek_at(ts, s.pos) == SyntaxKind::DOUBLE_POSITIVE) {
        let s = rule_NumericLiteralPositive(ts, s);
        let s = st_close(s, m_marker, SyntaxKind::NumericLiteral);
        s
    } else if (peek_at(ts, s.pos) == SyntaxKind::INTEGER_NEGATIVE || peek_at(ts, s.pos) == SyntaxKind::DECIMAL_NEGATIVE || peek_at(ts, s.pos) == SyntaxKind::DOUBLE_NEGATIVE) {
        let s = rule_NumericLiteralNegative(ts, s);
        let s = st_close(s, m_marker, SyntaxKind::NumericLiteral);
        s
    } else if (peek_at(ts, s.pos) == SyntaxKind::Eof) {
        let s = st_close(s, m_marker, SyntaxKind::NumericLiteral);
        let m_marker = s.evs.len() as int;
        let s = st_open(s);
        let s = st_close(s, m_marker, SyntaxKind::Error);
        s
    } else {
        let s = st_advance_with_error(ts, s, seq![SyntaxKind::INTEGER, SyntaxKind::DECIMAL, SyntaxKind::DOUBLE, SyntaxKind::INTEGER_POSITIVE, SyntaxKind::DECIMAL_POSITIVE, SyntaxKind::DOUBLE_POSITIVE, SyntaxKind::INTEGER_NEGATIVE, SyntaxKind::DECIMAL_NEGATIVE, SyntaxKind::DOUBLE_NEGATIVE]);
        let s = st_close(s, m_marker, SyntaxKind::NumericLiteral);
        s
    }
}

/// [87] NumericLiteral -> NumericLiteralUnsigned | NumericLiteralPositive | NumericLiteralNegative
pub(crate) fn parse_NumericLiteral(p: &mut Parser)
    requires
        old(p).wf(),
    ensures
        Parser::step(*old(p), *final(p)),
        final(p).pos == old(p).pos ==> is_sync_point(old(p).peek()),
        old(p).events@.len() < final(p).events@.len(),
        final(p).events@[old(p).events@.len() as int] == (Event::Open { kind: SyntaxKind::NumericLiteral }),
        final(p).events@.last() is Close,
        final(p).st() == rule_NumericLiteral(old(p).kinds(), old(p).st()),
    decreases old(p).remaining(), rank_NumericLiteral(old(p).peek()), 1int,
{
    let ghost ks = p.kinds();
    let ghost s0 = p.st();
    let marker = p.open();
    match p.nth(0) {
        SyntaxKind::INTEGER | SyntaxKind::DECIMAL | SyntaxKind::DOUBLE => {
            parse_NumericLiteralUnsigned(p);
        },
        SyntaxKind::INTEGER_POSITIVE | SyntaxKind::DECIMAL_POSITIVE | SyntaxKind::DOUBLE_POSITIVE => {
            parse_NumericLiteralPositive(p);
        },
        SyntaxKind::INTEGER_NEGATIVE | SyntaxKind::DECIMAL_NEGATIVE | SyntaxKind::DOUBLE_NEGATIVE => {
            parse_NumericLiteralNegative(p);
        },
        SyntaxKind::Eof => {
            p.close(marker, SyntaxKind::NumericLiteral);
            let marker = p.open();
            p.close(marker, SyntaxKind::Error);
            proof {
                assert(p.st() == rule_NumericLiteral(ks, s0)) by {
                    reveal(rule_NumericLiteral);
                    reveal(Parser::st);
                }
            }
            return ;
        },
        _ => {
            p.advance_with_error(vec![SyntaxKind::INTEGER, SyntaxKind::DECIMAL, SyntaxKind::DOUBLE, SyntaxKind::INTEGER_POSITIVE, SyntaxKind::DECIMAL_POSITIVE, SyntaxKind::DOUBLE_POSITIVE, SyntaxKind::INTEGER_NEGATIVE, SyntaxKind::DECIMAL_NEGATIVE, SyntaxKind::DOUBLE_NEGATIVE]);
        },
    }
    p.close(marker, SyntaxKind::NumericLiteral);
    proof {
        assert(p.st() == rule_NumericLiteral(ks, s0)) by {
            reveal(rule_NumericLiteral);
            reveal(Parser::st);
        }
    }
}

pub open spec fn rank_BooleanLiteral(t: SyntaxKind) -> nat {
    0
}

/// What [`parse_BooleanLiteral`] makes of the parser state.
#[verifier::opaque]
pub open spec fn rule_BooleanLiteral(ts: Seq<SyntaxKind>, s: St) -> St {
    let m_marker = s.evs.len() as int;
    let s = st_open(s);
    if (peek_at(ts, s.pos) == SyntaxKind::True) {
        let s = st_expect(ts, s, SyntaxKind::True);
        let s = st_close(s, m_marker, SyntaxKind::BooleanLiteral);
        s
    } else if (peek_at(ts, s.pos) == SyntaxKind::False) {
        let s = st_expect(ts, s, SyntaxKind::False);
        let s = st_close(s, m_marker, SyntaxKind::BooleanLiteral);
        s
    } else if (peek_at(ts, s.pos) == SyntaxKind::Eof) {
        let s = st_close(s, m_marker, SyntaxKind::BooleanLiteral);
        let m_marker = s.evs.len() as int;
        let s = st_open(s);
        let s = st_close(s, m_marker, SyntaxKind::Error);
        s
    } else {
        let s = st_advance_with_error(ts, s, seq![SyntaxKind::True, SyntaxKind::False]);
        let s = st_close(s, m_marker, SyntaxKind::BooleanLiteral);
        s
    }
}

/// [88] BooleanLiteral -> 'true' | 'false'
pub(crate) fn parse_BooleanLiteral(p: &mut Parser)
    requires
        old(p).wf(),
    ensures
        Parser::step(*old(p), *final(p)),
        final(p).pos == old(p).pos ==> is_sync_point(old(p).peek()),
        old(p).events@.len() < final(p).events@.len(),
        final(p).events@[old(p).events@.len() as int] == (Event::Open { kind: SyntaxKind::BooleanLiteral }),
        final(p).events@.last() is Close,
        final(p).st() == rule_BooleanLiteral(old(p).kinds(), old(p).st()),
    decreases old(p).remaining(), rank_BooleanLiteral(old(p).peek()), 1int,
{
    let ghost ks = p.kinds();
    let ghost s0 = p.st();
    let marker = p.open();
    match p.nth(0) {
        SyntaxKind::True => {
            p.expect(SyntaxKind::True);
        },
        SyntaxKind::False => {
            p.expect(SyntaxKind::False);
        },
        SyntaxKind::Eof => {
            p.close(marker, SyntaxKind::BooleanLiteral);
            let marker = p.open();
            p.close(marker, SyntaxKind::Error);
            proof {
                assert(p.st() == rule_BooleanLiteral(ks, s0)) by {
                    reveal(rule_BooleanLiteral);
                    reveal(Parser::st);
                }
            }
            return ;
        },
        _ => {
            p.advance_with_error(vec![SyntaxKind::True, SyntaxKind::False]);
        },
    }
    p.close(marker, SyntaxKind::BooleanLiteral);
    proof {
        assert(p.st() == rule_BooleanLiteral(ks, s0)) by {
            reveal(rule_BooleanLiteral);
            reveal(Parser::st);
        }
    }
}

pub open spec fn rank_TripleTermData(t: SyntaxKind) -> nat {
    match t {
        SyntaxKind::DoubleLessLParen => 0,
        SyntaxKind::PNAME_LN | SyntaxKind::PNAME_NS => 3,
        _ => 2,
    }
}

/// What [`parse_TripleTermData`] makes of the parser state.
#[verifier::opaque]
pub open spec fn rule_TripleTermData(ts: Seq<SyntaxKind>, s: St) -> St
    decreases ts.len() - s.pos, rank_TripleTermData(peek_at(ts, s.pos)), 32 * (ts.len() - s.pos) + 32,
{
    let start = s.pos;
    let s_in = s;
    let m_marker = s.evs.len() as int;
    let s = st_open(s);
    let s = st_expect(ts, s, SyntaxKind::DoubleLessLParen);
    let s = rule_TripleTermDataSubject(ts, s);
    let (s, r) = if s_in.pos <= s.pos <= ts.len() {
        match_TripleTermData_1(ts, start, m_marker, s)
    } else {
        (s, false)
    };
    if r {
        s
    } else {
        let s = if call_ok(ts, start, s, rank_TripleTermDataObject(peek_at(ts, s.pos)), rank_TripleTermData(peek_at(ts, start))) {
            rule_TripleTermDataObject(ts, s)
        } else {
            s
        };
        let s = st_expect(ts, s, SyntaxKind::RParenDoubleMore);
        let s = st_close(s, m_marker, SyntaxKind::TripleTermData);
        s
    }
}

#[verifier::opaque]
pub open spec fn match_TripleTermData_1(ts: Seq<SyntaxKind>, start: int, m_marker: int, s: St) -> (St, bool)
    decreases ts.len() - start, rank_TripleTermData(peek_at(ts, start)), 32 * (ts.len() - s.pos) + 32 - 1,
{
    let s_in = s;
    if (peek_at(ts, s.pos) == SyntaxKind::IRIREF || peek_at(ts, s.pos) == SyntaxKind::PNAME_NS || peek_at(ts, s.pos) == SyntaxKind::PNAME_LN) {
        let s = rule_iri(ts, s);
        (s, false)
    } else if (peek_at(ts, s.pos) == SyntaxKind::a) {
        let s = st_expect(ts, s, SyntaxKind::a);
        (s, false)
    } else if (peek_at(ts, s.pos) == SyntaxKind::Eof) {
        let s = st_close(s, m_marker, SyntaxKind::TripleTermData);
        let m_marker = s.evs.len() as int;
        let s = st_open(s);
        let s = st_close(s, m_marker, SyntaxKind::Error);
        (s, true)
    } else {
        let s = st_advance_with_error(ts, s, seq![SyntaxKind::IRIREF, SyntaxKind::PNAME_NS, SyntaxKind::PNAME_LN, SyntaxKind::a]);
        (s, false)
    }
}

/// [89] TripleTermData -> '<<(' TripleTermDataSubject (iri | 'a') TripleTermDataObject ')>>'
pub(crate) fn parse_TripleTermData(p: &mut Parser)
    requires
        old(p).wf(),
    ensures
        Parser::step(*old(p), *final(p)),
        final(p).pos == old(p).pos ==> is_sync_point(old(p).peek()),
        old(p).events@.len() < final(p).events@.len(),
        final(p).events@[old(p).events@.len() as int] == (Event::Open { kind: SyntaxKind::TripleTermData }),
        final(p).events@.last() is Close,
        final(p).st() == rule_TripleTermData(old(p).kinds(), old(p).st()),
    decreases old(p).remaining(), rank_TripleTermData(old(p).peek()), 1int,
{
    let ghost ks = p.kinds();
    let ghost s0 = p.st();
    let ghost start = p.pos as int;
    let marker = p.open();
    let ghost gm1 = marker.index as int;
    p.expect(SyntaxKind::DoubleLessLParen);
    parse_TripleTermDataSubject(p);
    let ghost pre1 = p.st();
    match p.nth(0) {
        SyntaxKind::IRIREF | SyntaxKind::PNAME_NS | SyntaxKind::PNAME_LN => {
            parse_iri(p);
            proof {
                assert(match_TripleTermData_1(ks, start, gm1, pre1) == (p.st(), false)) by {
                    reveal_with_fuel(match_TripleTermData_1, 1);
                }
            }
        },
        SyntaxKind::a => {
            p.expect(SyntaxKind::a);
            proof {
                assert(match_TripleTermData_1(ks, start, gm1, pre1) == (p.st(), false)) by {
                    reveal_with_fuel(match_TripleTermData_1, 1);
                }
            }
        },
        SyntaxKind::Eof => {
            p.close(marker, SyntaxKind::TripleTermData);
            let marker = p.open();
            let ghost gm2 = marker.index as int;
            p.close(marker, SyntaxKind::Error);
            proof {
                assert(match_TripleTermData_1(ks, start, gm1, pre1) == (p.st(), true)) by {
                    reveal_with_fuel(match_TripleTermData_1, 1);
                }
            }
            proof {
                assert(rule_TripleTermData(ks, s0) == p.st()) by {
                    reveal_with_fuel(rule_TripleTermData, 1); reveal_with_fuel(match_TripleTermData_1, 1); reveal_with_fuel(rule_TripleTermDataObject, 1);
                }
            }
            return ;
        },
        _ => {
            p.advance_with_error(vec![SyntaxKind::IRIREF, SyntaxKind::PNAME_NS, SyntaxKind::PNAME_LN, SyntaxKind::a]);
            proof {
                assert(match_TripleTermData_1(ks, start, gm1, pre1) == (p.st(), false)) by {
                    reveal_with_fuel(match_TripleTermData_1, 1);
                }
            }
        },
    }
    proof {
        assert(call_ok(ks, start, p.st(), rank_TripleTermDataObject(peek_at(ks, p.st().pos)), rank_TripleTermData(peek_at(ks, start)))) by {
            reveal(Parser::st);
            assert(peek_at(ks, start) == old(p).peek());
            assert(peek_at(ks, p.pos as int) == p.peek());
        }
    }
    parse_TripleTermDataObject(p);
    p.expect(SyntaxKind::RParenDoubleMore);
    p.close(marker, SyntaxKind::TripleTermData);
    proof {
        assert(rule_TripleTermData(ks, s0) == p.st()) by {
            reveal_with_fuel(rule_TripleTermData, 1); reveal_with_fuel(match_TripleTermData_1, 1); reveal_with_fuel(rule_TripleTermDataObject, 1);
        }
    }
}

pub open spec fn rank_Reifier(t: SyntaxKind) -> nat {
    match t {
        SyntaxKind::ANON | SyntaxKind::BLANK_NODE_LABEL | SyntaxKind::IRIREF | SyntaxKind::VAR1 | SyntaxKind::VAR2 => 2,
        SyntaxKind::PNAME_LN | SyntaxKind::PNAME_NS => 3,
        _ => 0,
    }
}

/// What [`parse_Reifier`] makes of the parser state.
#[verifier::opaque]
pub open spec fn rule_Reifier(ts: Seq<SyntaxKind>, s: St) -> St {
    let m_marker = s.evs.len() as int;
    let s = st_open(s);
    let s = st_expect(ts, s, SyntaxKind::Tilde);
    if (peek_at(ts, s.pos) == SyntaxKind::IRIREF || peek_at(ts, s.pos) == SyntaxKind::PNAME_NS || peek_at(ts, s.pos) == SyntaxKind::VAR1 || peek_at(ts, s.pos) == SyntaxKind::VAR2 || peek_at(ts, s.pos) == SyntaxKind::PNAME_LN || peek_at(ts, s.pos) == SyntaxKind::BLANK_NODE_LABEL || peek_at(ts, s.pos) == SyntaxKind::ANON) {
        let s = rule_VarOrReifierId(ts, s);
        let s = st_close(s, m_marker, SyntaxKind::Reifier);
        s
    } else {
        let s = st_close(s, m_marker, SyntaxKind::Reifier);
        s
    }
}

/// [90] Reifier -> '~' VarOrReifierId?
pub(crate) fn parse_Reifier(p: &mut Parser)
    requires
        old(p).wf(),
    ensures
        Parser::step(*old(p), *final(p)),
        final(p).pos == old(p).pos ==> !(old(p).peek() == SyntaxKind::ANON || old(p).peek() == SyntaxKind::BLANK_NODE_LABEL || old(p).peek() == SyntaxKind::IRIREF || old(p).peek() == SyntaxKind::PNAME_LN || old(p).peek() == SyntaxKind::PNAME_NS || old(p).peek() == SyntaxKind::Tilde || old(p).peek() == SyntaxKind::VAR1 || old(p).peek() == SyntaxKind::VAR2),
        old(p).events@.len() < final(p).events@.len(),
        final(p).events@[old(p).events@.len() as int] == (Event::Open { kind: SyntaxKind::Reifier }),
        final(p).events@.last() is Close,
        final(p).st() == rule_Reifier(old(p).kinds(), old(p).st()),
    decreases old(p).remaining(), rank_Reifier(old(p).peek()), 1int,
{
    let ghost ks = p.kinds();
    let ghost s0 = p.st();
    let marker = p.open();
    p.expect(SyntaxKind::Tilde);
    if p.at_any(&[SyntaxKind::IRIREF, SyntaxKind::PNAME_NS, SyntaxKind::VAR1, SyntaxKind::VAR2, SyntaxKind::PNAME_LN, SyntaxKind::BLANK_NODE_LABEL, SyntaxKind::ANON]) {
        parse_VarOrReifierId(p);
    }
    p.close(marker, SyntaxKind::Reifier);
    proof {
        assert(p.st() == rule_Reifier(ks, s0)) by {
            reveal(rule_Reifier);
            reveal(Parser::st);
        }
    }
}

pub open spec fn rank_VarOrReifierId(t: SyntaxKind) -> nat {
    match t {
        SyntaxKind::ANON | SyntaxKind::BLANK_NODE_LABEL | SyntaxKind::IRIREF | SyntaxKind::VAR1 | SyntaxKind::VAR2 => 1,
        SyntaxKind::PNAME_LN | SyntaxKind::PNAME_NS => 2,
        _ => 0,
    }
}

/// What [`parse_VarOrReifierId`] makes of the parser state.
#[verifier::opaque]
pub open spec fn rule_VarOrReifierId(ts: Seq<SyntaxKind>, s: St) -> St {
    let m_marker = s.evs.len() as int;
    let s = st_open(s);
    if (peek_at(ts, s.pos) == SyntaxKind::VAR1 || peek_at(ts, s.pos) == SyntaxKind::VAR2) {
        let s = rule_Var(ts, s);
        let s = st_close(s, m_marker, SyntaxKind::VarOrReifierId);
        s
    } else if (peek_at(ts, s.pos) == SyntaxKind::IRIREF || peek_at(ts, s.pos) == SyntaxKind::PNAME_NS || peek_at(ts, s.pos) == SyntaxKind::PNAME_LN) {
        let s = rule_iri(ts, s);
        let s = st_close(s, m_marker, SyntaxKind::VarOrReifierId);
        s
    } else if (peek_at(ts, s.pos) == SyntaxKind::BLANK_NODE_LABEL || peek_at(ts, s.pos) == SyntaxKind::ANON) {
        let s = rule_BlankNode(ts, s);
        let s = st_close(s, m_marker, SyntaxKind::VarOrReifierId);
        s
    } else if (peek_at(ts, s.pos) == SyntaxKind::Eof) {
        let s = st_close(s, m_marker, SyntaxKind::VarOrReifierId);
        let m_marker = s.evs.len() as int;
        let s = st_open(s);
        let s = st_close(s, m_marker, SyntaxKind::Error);
        s
    } else {
        let s = st_advance_with_error(ts, s, seq![SyntaxKind::VAR1, SyntaxKind::VAR2, SyntaxKind::IRIREF, SyntaxKind::PNAME_NS, SyntaxKind::PNAME_LN, SyntaxKind::BLANK_NODE_LABEL, SyntaxKind::ANON]);
        let s = st_close(s, m_marker, SyntaxKind::VarOrReifierId);
        s
    }
}

/// [91] VarOrReifierId -> Var | iri | BlankNode
pub(crate) fn parse_VarOrReifierId(p: &mut Parser)
    requires
        old(p).wf(),
    ensures
        Parser::step(*old(p), *final(p)),
        final(p).pos == old(p).pos ==> is_sync_point(old(p).peek()),
        old(p).events@.len() < final(p).events@.len(),
        final(p).events@[old(p).events@.len() as int] == (Event::Open { kind: SyntaxKind::VarOrReifierId }),
        final(p).events@.last() is Close,
        final(p).st() == rule_VarOrReifierId(old(p).kinds(), old(p).st()),
    decreases old(p).remaining(), rank_VarOrReifierId(old(p).peek()), 1int,
{
    let ghost ks = p.kinds();
    let ghost s0 = p.st();
    let marker = p.open();
    match p.nth(0) {
        SyntaxKind::VAR1 | SyntaxKind::VAR2 => {
            parse_Var(p);
        },
        SyntaxKind::IRIREF | SyntaxKind::PNAME_NS | SyntaxKind::PNAME_LN => {
            parse_iri(p);
        },
        SyntaxKind::BLANK_NODE_LABEL | SyntaxKind::ANON => {
            parse_BlankNode(p);
        },
        SyntaxKind::Eof => {
            p.close(marker, SyntaxKind::VarOrReifierId);
            let marker = p.open();
            p.close(marker, SyntaxKind::Error);
            proof {
                assert(p.st() == rule_VarOrReifierId(ks, s0)) by {
                    reveal(rule_VarOrReifierId);
                    reveal(Parser::st);
                }
            }
            return ;
        },
        _ => {
            p.advance_with_error(vec![SyntaxKind::VAR1, SyntaxKind::VAR2, SyntaxKind::IRIREF, SyntaxKind::PNAME_NS, SyntaxKind::PNAME_LN, SyntaxKind::BLANK_NODE_LABEL, SyntaxKind::ANON]);
        },
    }
    p.close(marker, SyntaxKind::VarOrReifierId);
    proof {
        assert(p.st() == rule_VarOrReifierId(ks, s0)) by {
            reveal(rule_VarOrReifierId);
            reveal(Parser::st);
        }
    }
}

pub open spec fn rank_BlankNode(t: SyntaxKind) -> nat {
    0
}

/// What [`parse_BlankNode`] makes of the parser state.
#[verifier::opaque]
pub open spec fn rule_BlankNode(ts: Seq<SyntaxKind>, s: St) -> St {
    let m_marker = s.evs.len() as int;
    let s = st_open(s);
    if (peek_at(ts, s.pos) == SyntaxKind::BLANK_NODE_LABEL) {
        let s = st_expect(ts, s, SyntaxKind::BLANK_NODE_LABEL);
        let s = st_close(s, m_marker, SyntaxKind::BlankNode);
        s
    } else if (peek_at(ts, s.pos) == SyntaxKind::ANON) {
        let s = st_expect(ts, s, SyntaxKind::ANON);
        let s = st_close(s, m_marker, SyntaxKind::BlankNode);
        s
    } else if (peek_at(ts, s.pos) == SyntaxKind::Eof) {
        let s = st_close(s, m_marker, SyntaxKind::BlankNode);
        let m_marker = s.evs.len() as int;
        let s = st_open(s);
        let s = st_close(s, m_marker, SyntaxKind::Error);
        s
    } else {
        let s = st_advance_with_error(ts, s, seq![SyntaxKind::BLANK_NODE_LABEL, SyntaxKind::ANON]);
        let s = st_close(s, m_marker, SyntaxKind::BlankNode);
        s
    }
}

/// [92] BlankNode -> 'BLANK_NODE_LABEL' | 'ANON'
pub(crate) fn parse_BlankNode(p: &mut Parser)
    requires
        old(p).wf(),
    ensures
        Parser::step(*old(p), *final(p)),
        final(p).pos == old(p).pos ==> is_sync_point(old(p).peek()),
        old(p).events@.len() < final(p).events@.len(),
        final(p).events@[old(p).events@.len() as int] == (Event::Open { kind: SyntaxKind::BlankNode }),
        final(p).events@.last() is Close,
        final(p).st() == rule_BlankNode(old(p).kinds(), old(p).st()),
    decreases old(p).remaining(), rank_BlankNode(old(p).peek()), 1int,
{
    let ghost ks = p.kinds();
    let ghost s0 = p.st();
    let marker = p.open();
    match p.nth(0) {
        SyntaxKind::BLANK_NODE_LABEL => {
            p.expect(SyntaxKind::BLANK_NODE_LABEL);
        },
        SyntaxKind::ANON => {
            p.expect(SyntaxKind::ANON);
        },
        SyntaxKind::Eof => {
            p.close(marker, SyntaxKind::BlankNode);
            let marker = p.open();
            p.close(marker, SyntaxKind::Error);
            proof {
                assert(p.st() == rule_BlankNode(ks, s0)) by {
                    reveal(rule_BlankNode);
                    reveal(Parser::st);
                }
            }
            return ;
        },
        _ => {
            p.advance_with_error(vec![SyntaxKind::BLANK_NODE_LABEL, SyntaxKind::ANON]);
        },
    }
    p.close(marker, SyntaxKind::BlankNode);
    proof {
        assert(p.st() == rule_BlankNode(ks, s0)) by {
            reveal(rule_BlankNode);
            reveal(Parser::st);
        }
    }
}

pub open spec fn rank_ArgList(t: SyntaxKind) -> nat {
    0
}

/// What [`parse_ArgList`] makes of the parser state.
#[verifier::opaque]
pub open spec fn rule_ArgList(ts: Seq<SyntaxKind>, s: St) -> St
    decreases ts.len() - s.pos, rank_ArgList(peek_at(ts, s.pos)), 32 * (ts.len() - s.pos) + 32,
{
    let start = s.pos;
    let s_in = s;
    let m_marker = s.evs.len() as int;
    let s = st_open(s);
    let (s, r) = if s_in.pos <= s.pos <= ts.len() {
        match_ArgList_1(ts, start, m_marker, s)
    } else {
        (s, false)
    };
    if r {
        s
    } else {
        let s = st_close(s, m_marker, SyntaxKind::ArgList);
        s
    }
}

#[verifier::opaque]
pub open spec fn if_ArgList_2(ts: Seq<SyntaxKind>, start: int, m_marker: int, s: St) -> St
    decreases ts.len() - start, rank_ArgList(peek_at(ts, start)), 32 * (ts.len() - s.pos) + 32 - 2,
{
    let s_in = s;
    if (peek_at(ts, s.pos) == SyntaxKind::DISTINCT) {
        let s = st_expect(ts, s, SyntaxKind::DISTINCT);
        s
    } else {
        s
    }
}

#[verifier::opaque]
pub open spec fn loop_ArgList_3(ts: Seq<SyntaxKind>, start: int, m_marker: int, s: St) -> St
    decreases ts.len() - start, rank_ArgList(peek_at(ts, start)), 32 * (ts.len() - s.pos) + 32 - 2,
{
    let s_in = s;
    if (peek_at(ts, s.pos) == SyntaxKind::Comma) && s.pos <= ts.len() {
        let s1 = body_ArgList_4(ts, start, m_marker, s);
        if s1.pos == s.pos {
            s1
        } else if s.pos < s1.pos <= ts.len() {
            loop_ArgList_3(ts, start, m_marker, s1)
        } else {
            s1
        }
    } else {
        s
    }
}

#[verifier::opaque]
pub open spec fn body_ArgList_4(ts: Seq<SyntaxKind>, start: int, m_marker: int, s: St) -> St
    decreases ts.len() - start, rank_ArgList(peek_at(ts, start)), 32 * (ts.len() - s.pos) + 32 - 3,
{
    let s_in = s;
    let s = st_expect(ts, s, SyntaxKind::Comma);
    let s = if call_ok(ts, start, s, rank_Expression(peek_at(ts, s.pos)), rank_ArgList(peek_at(ts, start))) {
        rule_Expression(ts, s)
    } else {
        s
    };
    s
}

#[verifier::opaque]
pub open spec fn match_ArgList_1(ts: Seq<SyntaxKind>, start: int, m_marker: int, s: St) -> (St, bool)
    decreases ts.len() - start, rank_ArgList(peek_at(ts, start)), 32 * (ts.len() - s.pos) + 32 - 1,
{
    let s_in = s;
    if (peek_at(ts, s.pos) == SyntaxKind::NIL) {
        let s = st_expect(ts, s, SyntaxKind::NIL);
        (s, false)
    } else if (peek_at(ts, s.pos) == SyntaxKind::LParen) {
        let s = st_expect(ts, s, SyntaxKind::LParen);
        let s = if s_in.pos <= s.pos <= ts.len() {
            if_ArgList_2(ts, start, m_marker, s)
        } else {
            s
        };
        let s = if call_ok(ts, start, s, rank_Expression(peek_at(ts, s.pos)), rank_ArgList(peek_at(ts, start))) {
            rule_Expression(ts, s)
        } else {
            s
        };
        let s = if s_in.pos <= s.pos <= ts.len() {
            loop_ArgList_3(ts, start, m_marker, s)
        } else {
            s
        };
        let s = st_expect(ts, s, SyntaxKind::RParen);
        (s, false)
    } else if (peek_at(ts, s.pos) == SyntaxKind::Eof) {
        let s = st_close(s, m_marker, SyntaxKind::ArgList);
        let m_marker = s.evs.len() as int;
        let s = st_open(s);
        let s = st_close(s, m_marker, SyntaxKind::Error);
        (s, true)
    } else {
        let s = st_advance_with_error(ts, s, seq![SyntaxKind::NIL, SyntaxKind::LParen]);
        (s, false)
    }
}

/// [93] ArgList -> 'NIL' | '(' 'DISTINCT'? Expression (',' Expression)* ')'
pub(crate) fn parse_ArgList(p: &mut Parser)
    requires
        old(p).wf(),
    ensures
        Parser::step(*old(p), *final(p)),
        final(p).pos == old(p).pos ==> is_sync_point(old(p).peek()),
        old(p).events@.len() < final(p).events@.len(),
        final(p).events@[old(p).events@.len() as int] == (Event::Open { kind: SyntaxKind::ArgList }),
        final(p).events@.last() is Close,
        final(p).st() == rule_ArgList(old(p).kinds(), old(p).st()),
    decreases old(p).remaining(), rank_ArgList(old(p).peek()), 1int,
{
    let ghost ks = p.kinds();
    let ghost s0 = p.st();
    let ghost start = p.pos as int;
    let marker = p.open();
    let ghost gm1 = marker.index as int;
    let ghost pre1 = p.st();
    match p.nth(0) {
        SyntaxKind::NIL => {
            p.expect(SyntaxKind::NIL);
            proof {
                assert(match_ArgList_1(ks, start, gm1, pre1) == (p.st(), false)) by {
                    reveal_with_fuel(match_ArgList_1, 1);
                }
            }
        },
        SyntaxKind::LParen => {
            p.expect(SyntaxKind::LParen);
            let ghost pre2 = p.st();
            if p.at_any(&[SyntaxKind::DISTINCT]) {
                p.expect(SyntaxKind::DISTINCT);
                proof {
                    assert(if_ArgList_2(ks, start, gm1, pre2) == p.st()) by {
                        reveal_with_fuel(if_ArgList_2, 1);
                    }
                }
            } else {
                proof {
                    assert(if_ArgList_2(ks, start, gm1, pre2) == p.st()) by {
                        reveal_with_fuel(if_ArgList_2, 1);
                    }
                }
            }
            proof {
                assert(call_ok(ks, start, p.st(), rank_Expression(peek_at(ks, p.st().pos)), rank_ArgList(peek_at(ks, start)))) by {
                    reveal(Parser::st);
                    assert(peek_at(ks, start) == old(p).peek());
                    assert(peek_at(ks, p.pos as int) == p.peek());
                }
            }
            parse_Expression(p);
            let ghost pre3 = p.st();
            proof {
                assert(p.st().pos == p.pos as int) by {
                    reveal(Parser::st);
                }
                if !(peek_at(ks, p.st().pos) == SyntaxKind::Comma) {
                    assert(loop_ArgList_3(ks, start, gm1, pre3) == pre3) by {
                        reveal_with_fuel(loop_ArgList_3, 1); reveal_with_fuel(body_ArgList_4, 1);
                    }
                }
            }
            while p.at_any(&[SyntaxKind::Comma])
                invariant
                    marker.index == old(p).events@.len(),
                    p.wf(),
                    p.tokens@ == old(p).tokens@,
                    old(p).pos <= p.pos,
                    p.stack() == old(p).stack().push(marker.index as int),
                    p.pos == old(p).pos ==> false,
                    ks == p.kinds(),
                    p.st().pos == p.pos as int,
                    start == old(p).pos as int,
                    gm1 == marker.index as int,
                    pre3.pos <= p.pos,
                    start <= pre3.pos,
                    loop_ArgList_3(ks, start, gm1, p.st()) == loop_ArgList_3(ks, start, gm1, pre3),
                    !(peek_at(ks, p.st().pos) == SyntaxKind::Comma) ==> loop_ArgList_3(ks, start, gm1, p.st()) == p.st(),
                ensures
                    loop_ArgList_3(ks, start, gm1, pre3) == p.st(),
                decreases p.remaining(),
            {
                let ghost si3 = p.st();
                let checkpoint1 = p.pos();
                p.expect(SyntaxKind::Comma);
                proof {
                    assert(call_ok(ks, start, p.st(), rank_Expression(peek_at(ks, p.st().pos)), rank_ArgList(peek_at(ks, start)))) by {
                        reveal(Parser::st);
                        assert(peek_at(ks, start) == old(p).peek());
                        assert(peek_at(ks, p.pos as int) == p.peek());
                    }
                }
                parse_Expression(p);
                proof {
                    assert(body_ArgList_4(ks, start, gm1, si3) == p.st()) by {
                        reveal_with_fuel(body_ArgList_4, 1); reveal_with_fuel(rule_Expression, 1);
                    }
                }
                if p.pos() == checkpoint1 {
                    proof {
                        assert(loop_ArgList_3(ks, start, gm1, si3) == p.st()) by {
                            reveal_with_fuel(loop_ArgList_3, 1); reveal_with_fuel(body_ArgList_4, 1);
                        }
                    }
                    break;
                }
                proof {
                    assert(p.st().pos == p.pos as int) by {
                        reveal(Parser::st);
                    }
                    assert(loop_ArgList_3(ks, start, gm1, si3) == loop_ArgList_3(ks, start, gm1, p.st())) by {
                        reveal_with_fuel(loop_ArgList_3, 1); reveal_with_fuel(body_ArgList_4, 1);
                        reveal(Parser::st);
                    }
                    if !(peek_at(ks, p.st().pos) == SyntaxKind::Comma) {
                        assert(loop_ArgList_3(ks, start, gm1, p.st()) == p.st()) by {
                            reveal_with_fuel(loop_ArgList_3, 1); reveal_with_fuel(body_ArgList_4, 1);
                        }
                    }
                }
            }
            p.expect(SyntaxKind::RParen);
            proof {
                assert(match_ArgList_1(ks, start, gm1, pre1) == (p.st(), false)) by {
                    reveal_with_fuel(match_ArgList_1, 1); reveal_with_fuel(if_ArgList_2, 1); reveal_with_fuel(loop_ArgList_3, 1); reveal_with_fuel(rule_Expression, 1);
                }
            }
        },
        SyntaxKind::Eof => {
            p.close(marker, SyntaxKind::ArgList);
            let marker = p.open();
            let ghost gm2 = marker.index as int;
            p.close(marker, SyntaxKind::Error);
            proof {
                assert(match_ArgList_1(ks, start, gm1, pre1) == (p.st(), true)) by {
                    reveal_with_fuel(match_ArgList_1, 1);
                }
            }
            proof {
                assert(rule_ArgList(ks, s0) == p.st()) by {
                    reveal_with_fuel(rule_ArgList, 1); reveal_with_fuel(match_ArgList_1, 1);
                }
            }
            return ;
        },
        _ => {
            p.advance_with_error(vec![SyntaxKind::NIL, SyntaxKind::LParen]);
            proof {
                assert(match_ArgList_1(ks, start, gm1, pre1) == (p.st(), false)) by {
                    reveal_with_fuel(match_ArgList_1, 1);
                }
            }
        },
    }
    p.close(marker, SyntaxKind::ArgList);
    proof {
        assert(rule_ArgList(ks, s0) == p.st()) by {
            reveal_with_fuel(rule_ArgList, 1); reveal_with_fuel(match_ArgList_1, 1);
        }
    }
}

pub open spec fn rank_ExpressionList(t: SyntaxKind) -> nat {
    0
}

/// What [`parse_ExpressionList`] makes of the parser state.
#[verifier::opaque]
pub open spec fn rule_ExpressionList(ts: Seq<SyntaxKind>, s: St) -> St
    decreases ts.len() - s.pos, rank_ExpressionList(peek_at(ts, s.pos)), 32 * (ts.len() - s.pos) + 32,
{
    let start = s.pos;
    let s_in = s;
    let m_marker = s.evs.len() as int;
    let s = st_open(s);
    let (s, r) = if s_in.pos <= s.pos <= ts.len() {
        match_ExpressionList_1(ts, start, m_marker, s)
    } else {
        (s, false)
    };
    if r {
        s
    } else {
        let s = st_close(s, m_marker, SyntaxKind::ExpressionList);
        s
    }
}

#[verifier::opaque]
pub open spec fn loop_ExpressionList_2(ts: Seq<SyntaxKind>, start: int, m_marker: int, s: St) -> St
    decreases ts.len() - start, rank_ExpressionList(peek_at(ts, start)), 32 * (ts.len() - s.pos) + 32 - 2,
{
    let s_in = s;
    if (peek_at(ts, s.pos) == SyntaxKind::Comma) && s.pos <= ts.len() {
        let s1 = body_ExpressionList_3(ts, start, m_marker, s);
        if s1.pos == s.pos {
            s1
        } else if s.pos < s1.pos <= ts.len() {
            loop_ExpressionList_2(ts, start, m_marker, s1)
        } else {
            s1
        }
    } else {
        s
    }
}

#[verifier::opaque]
pub open spec fn body_ExpressionList_3(ts: Seq<SyntaxKind>, start: int, m_marker: int, s: St) -> St
    decreases ts.len() - start, rank_ExpressionList(peek_at(ts, start)), 32 * (ts.len() - s.pos) + 32 - 3,
{
    let s_in = s;
    let s = st_expect(ts, s, SyntaxKind::Comma);
    let s = if call_ok(ts, start, s, rank_Expression(peek_at(ts, s.pos)), rank_ExpressionList(peek_at(ts, start))) {
        rule_Expression(ts, s)
    } else {
        s
    };
    s
}

#[verifier::opaque]
pub open spec fn match_ExpressionList_1(ts: Seq<SyntaxKind>, start: int, m_marker: int, s: St) -> (St, bool)
    decreases ts.len() - start, rank_ExpressionList(peek_at(ts, start)), 32 * (ts.len() - s.pos) + 32 - 1,
{
    let s_in = s;
    if (peek_at(ts, s.pos) == SyntaxKind::NIL) {
        let s = st_expect(ts, s, SyntaxKind::NIL);
        (s, false)
    } else if (peek_at(ts, s.pos) == SyntaxKind::LParen) {
        let s = st_expect(ts, s, SyntaxKind::LParen);
        let s = if call_ok(ts, start, s, rank_Expression(peek_at(ts, s.pos)), rank_ExpressionList(peek_at(ts, start))) {
            rule_Expression(ts, s)
        } else {
            s
        };
        let s = if s_in.pos <= s.pos <= ts.len() {
            loop_ExpressionList_2(ts, start, m_marker, s)
        } else {
            s
        };
        let s = st_expect(ts, s, SyntaxKind::RParen);
        (s, false)
    } else if (peek_at(ts, s.pos) == SyntaxKind::Eof) {
        let s = st_close(s, m_marker, SyntaxKind::ExpressionList);
        let m_marker = s.evs.len() as int;
        let s = st_open(s);
        let s = st_close(s, m_marker, SyntaxKind::Error);
        (s, true)
    } else {
        let s = st_advance_with_error(ts, s, seq![SyntaxKind::NIL, SyntaxKind::LParen]);
        (s, false)
    }
}

/// [94] ExpressionList -> 'NIL' | '(' Expression (',' Expression)* ')'
pub(crate) fn parse_ExpressionList(p: &mut Parser)
    requires
        old(p).wf(),
    ensures
        Parser::step(*old(p), *final(p)),
        final(p).pos == old(p).pos ==> is_sync_point(old(p).peek()),
        old(p).events@.len() < final(p).events@.len(),
        final(p).events@[old(p).events@.len() as int] == (Event::Open { kind: SyntaxKind::ExpressionList }),
        final(p).events@.last() is Close,
        final(p).st() == rule_ExpressionList(old(p).kinds(), old(p).st()),
    decreases old(p).remaining(), rank_ExpressionList(old(p).peek()), 1int,
{
    let ghost ks = p.kinds();
    let ghost s0 = p.st();
    let ghost start = p.pos as int;
    let marker = p.open();
    let ghost gm1 = marker.index as int;
    let ghost pre1 = p.st();
    match p.nth(0) {
        SyntaxKind::NIL => {
            p.expect(SyntaxKind::NIL);
            proof {
                assert(match_ExpressionList_1(ks, start, gm1, pre1) == (p.st(), false)) by {
                    reveal_with_fuel(match_ExpressionList_1, 1);
                }
            }
        },
        SyntaxKind::LParen => {
            p.expect(SyntaxKind::LParen);
            proof {
                assert(call_ok(ks, start, p.st(), rank_Expression(peek_at(ks, p.st().pos)), rank_ExpressionList(peek_at(ks, start)))) by {
                    reveal(Parser::st);
                    assert(peek_at(ks, start) == old(p).peek());
                    assert(peek_at(ks, p.pos as int) == p.peek());
                }
            }
            parse_Expression(p);
            let ghost pre2 = p.st();
            proof {
                assert(p.st().pos == p.pos as int) by {
                    reveal(Parser::st);
                }
                if !(peek_at(ks, p.st().pos) == SyntaxKind::Comma) {
                    assert(loop_ExpressionList_2(ks, start, gm1, pre2) == pre2) by {
                        reveal_with_fuel(loop_ExpressionList_2, 1); reveal_with_fuel(body_ExpressionList_3, 1);
                    }
                }
            }
            while p.at_any(&[SyntaxKind::Comma])
                invariant
                    marker.index == old(p).events@.len(),
                    p.wf(),
                    p.tokens@ == old(p).tokens@,
                    old(p).pos <= p.pos,
                    p.stack() == old(p).stack().push(marker.index as int),
                    p.pos == old(p).pos ==> false,
                    ks == p.kinds(),
                    p.st().pos == p.pos as int,
                    start == old(p).pos as int,
                    gm1 == marker.index as int,
                    pre2.pos <= p.pos,
                    start <= pre2.pos,
                    loop_ExpressionList_2(ks, start, gm1, p.st()) == loop_ExpressionList_2(ks, start, gm1, pre2),
                    !(peek_at(ks, p.st().pos) == SyntaxKind::Comma) ==> loop_ExpressionList_2(ks, start, gm1, p.st()) == p.st(),
                ensures
                    loop_ExpressionList_2(ks, start, gm1, pre2) == p.st(),
                decreases p.remaining(),
            {
                let ghost si2 = p.st();
                let checkpoint1 = p.pos();
                p.expect(SyntaxKind::Comma);
                proof {
                    assert(call_ok(ks, start, p.st(), rank_Expression(peek_at(ks, p.st().pos)), rank_ExpressionList(peek_at(ks, start)))) by {
                        reveal(Parser::st);
                        assert(peek_at(ks, start) == old(p).peek());
                        assert(peek_at(ks, p.pos as int) == p.peek());
                    }
                }
                parse_Expression(p);
                proof {
                    assert(body_ExpressionList_3(ks, start, gm1, si2) == p.st()) by {
                        reveal_with_fuel(body_ExpressionList_3, 1); reveal_with_fuel(rule_Expression, 1);
                    }
                }
                if p.pos() == checkpoint1 {
                    proof {
                        assert(loop_ExpressionList_2(ks, start, gm1, si2) == p.st()) by {
                            reveal_with_fuel(loop_ExpressionList_2, 1); reveal_with_fuel(body_ExpressionList_3, 1);
                        }
                    }
                    break;
                }
                proof {
                    assert(p.st().pos == p.pos as int) by {
                        reveal(Parser::st);
                    }
                    assert(loop_ExpressionList_2(ks, start, gm1, si2) == loop_ExpressionList_2(ks, start, gm1, p.st())) by {
                        reveal_with_fuel(loop_ExpressionList_2, 1); reveal_with_fuel(body_ExpressionList_3, 1);
                        reveal(Parser::st);
                    }
                    if !(peek_at(ks, p.st().pos) == SyntaxKind::Comma) {
                        assert(loop_ExpressionList_2(ks, start, gm1, p.st()) == p.st()) by {
                            reveal_with_fuel(loop_ExpressionList_2, 1); reveal_with_fuel(body_ExpressionList_3, 1);
                        }
                    }
                }
            }
            p.expect(SyntaxKind::RParen);
            proof {
                assert(match_ExpressionList_1(ks, start, gm1, pre1) == (p.st(), false)) by {
                    reveal_with_fuel(match_ExpressionList_1, 1); reveal_with_fuel(loop_ExpressionList_2, 1); reveal_with_fuel(rule_Expression, 1);
                }
            }
        },
        SyntaxKind::Eof => {
            p.close(marker, SyntaxKind::ExpressionList);
            let marker = p.open();
            let ghost gm2 = marker.index as int;
            p.close(marker, SyntaxKind::Error);
            proof {
                assert(match_ExpressionList_1(ks, start, gm1, pre1) == (p.st(), true)) by {
                    reveal_with_fuel(match_ExpressionList_1, 1);
                }
            }
            proof {
                assert(rule_ExpressionList(ks, s0) == p.st()) by {
                    reveal_with_fuel(rule_ExpressionList, 1); reveal_with_fuel(match_ExpressionList_1, 1);
                }
            }
            return ;
        },
        _ => {
            p.advance_with_error(vec![SyntaxKind::NIL, SyntaxKind::LParen]);
            proof {
                assert(match_ExpressionList_1(ks, start, gm1, pre1) == (p.st(), false)) by {
                    reveal_with_fuel(match_ExpressionList_1, 1);
                }
            }
        },
    }
    p.close(marker, SyntaxKind::ExpressionList);
    proof {
        assert(rule_ExpressionList(ks, s0) == p.st()) by {
            reveal_with_fuel(rule_ExpressionList, 1); reveal_with_fuel(match_ExpressionList_1, 1);
        }
    }
}

pub open spec fn rank_ConstructTriples(t: SyntaxKind) -> nat {
    match t {
        SyntaxKind::NIL => 2,
        SyntaxKind::ANON | SyntaxKind::BLANK_NODE_LABEL | SyntaxKind::DoubleLess | SyntaxKind::DoubleLessLParen | SyntaxKind::False | SyntaxKind::IRIREF | SyntaxKind::LBrack | SyntaxKind::LParen | SyntaxKind::True | SyntaxKind::VAR1 | SyntaxKind::VAR2 => 3,
        SyntaxKind::DECIMAL | SyntaxKind::DECIMAL_NEGATIVE | SyntaxKind::DECIMAL_POSITIVE | SyntaxKind::DOUBLE | SyntaxKind::DOUBLE_NEGATIVE | SyntaxKind::DOUBLE_POSITIVE | SyntaxKind::INTEGER | SyntaxKind::INTEGER_NEGATIVE | SyntaxKind::INTEGER_POSITIVE | SyntaxKind::PNAME_LN | SyntaxKind::PNAME_NS | SyntaxKind::STRING_LITERAL1 | SyntaxKind::STRING_LITERAL2 | SyntaxKind::STRING_LITERAL_LONG1 | SyntaxKind::STRING_LITERAL_LONG2 => 4,
        _ => 1,
    }
}

/// What [`parse_ConstructTriples`] makes of the parser state.
#[verifier::opaque]
pub open spec fn rule_ConstructTriples(ts: Seq<SyntaxKind>, s: St) -> St
    decreases ts.len() - s.pos, rank_ConstructTriples(peek_at(ts, s.pos)), 32 * (ts.len() - s.pos) + 32,
{
    let start = s.pos;
    let s_in = s;
    let m_marker = s.evs.len() as int;
    let s = st_open(s);
    let s = if call_ok(ts, start, s, rank_TriplesSameSubject(peek_at(ts, s.pos)), rank_ConstructTriples(peek_at(ts, start))) {
        rule_TriplesSameSubject(ts, s)
    } else {
        s
    };
    let s = if s_in.pos <= s.pos <= ts.len() {
        if_ConstructTriples_1(ts, start, m_marker, s)
    } else {
        s
    };
    let s = st_close(s, m_marker, SyntaxKind::ConstructTriples);
    s
}

#[verifier::opaque]
pub open spec fn if_ConstructTriples_2(ts: Seq<SyntaxKind>, start: int, m_marker: int, s: St) -> St
    decreases ts.len() - start, rank_ConstructTriples(peek_at(ts, start)), 32 * (ts.len() - s.pos) + 32 - 2,
{
    let s_in = s;
    if (peek_at(ts, s.pos) == SyntaxKind::IRIREF || peek_at(ts, s.pos) == SyntaxKind::PNAME_NS || peek_at(ts, s.pos) == SyntaxKind::STRING_LITERAL1 || peek_at(ts, s.pos) == SyntaxKind::STRING_LITERAL2 || peek_at(ts, s.pos) == SyntaxKind::LParen || peek_at(ts, s.pos) == SyntaxKind::INTEGER || peek_at(ts, s.pos) == SyntaxKind::NIL || peek_at(ts, s.pos) == SyntaxKind::LBrack || peek_at(ts, s.pos) == SyntaxKind::DoubleLess || peek_at(ts, s.pos) == SyntaxKind::DoubleLessLParen || peek_at(ts, s.pos) == SyntaxKind::VAR1 || peek_at(ts, s.pos) == SyntaxKind::VAR2 || peek_at(ts, s.pos) == SyntaxKind::DECIMAL || peek_at(ts, s.pos) == SyntaxKind::DOUBLE || peek_at(ts, s.pos) == SyntaxKind::INTEGER_POSITIVE || peek_at(ts, s.pos) == SyntaxKind::DECIMAL_POSITIVE || peek_at(ts, s.pos) == SyntaxKind::DOUBLE_POSITIVE || peek_at(ts, s.pos) == SyntaxKind::INTEGER_NEGATIVE || peek_at(ts, s.pos) == SyntaxKind::DECIMAL_NEGATIVE || peek_at(ts, s.pos) == SyntaxKind::DOUBLE_NEGATIVE || peek_at(ts, s.pos) == SyntaxKind::True || peek_at(ts, s.pos) == SyntaxKind::False || peek_at(ts, s.pos) == SyntaxKind::STRING_LITERAL_LONG1 || peek_at(ts, s.pos) == SyntaxKind::STRING_LITERAL_LONG2 || peek_at(ts, s.pos) == SyntaxKind::PNAME_LN || peek_at(ts, s.pos) == SyntaxKind::BLANK_NODE_LABEL || peek_at(ts, s.pos) == SyntaxKind::ANON) {
        let s = if call_ok(ts, start, s, rank_ConstructTriples(peek_at(ts, s.pos)), rank_ConstructTriples(peek_at(ts, start))) {
            rule_ConstructTriples(ts, s)
        } else {
            s
        };
        s
    } else {
        s
    }
}

#[verifier::opaque]
pub open spec fn if_ConstructTriples_1(ts: Seq<SyntaxKind>, start: int, m_marker: int, s: St) -> St
    decreases ts.len() - start, rank_ConstructTriples(peek_at(ts, start)), 32 * (ts.len() - s.pos) + 32 - 1,
{
    let s_in = s;
    if (peek_at(ts, s.pos) == SyntaxKind::Dot) {
        let s = st_expect(ts, s, SyntaxKind::Dot);
        let s = if s_in.pos <= s.pos <= ts.len() {
            if_ConstructTriples_2(ts, start, m_marker, s)
        } else {
            s
        };
        s
    } else {
        s
    }
}

/// [95] ConstructTriples -> TriplesSameSubject ('.' ConstructTriples?)?
pub(crate) fn parse_ConstructTriples(p: &mut Parser)
    requires
        old(p).wf(),
    ensures
        Parser::step(*old(p), *final(p)),
        final(p).pos == old(p).pos ==> is_sync_point(old(p).peek()),
        old(p).events@.len() < final(p).events@.len(),
        final(p).events@[old(p).events@.len() as int] == (Event::Open { kind: SyntaxKind::ConstructTriples }),
        final(p).events@.last() is Close,
        final(p).st() == rule_ConstructTriples(old(p).kinds(), old(p).st()),
    decreases old(p).remaining(), rank_ConstructTriples(old(p).peek()), 1int,
{
    let ghost ks = p.kinds();
    let ghost s0 = p.st();
    let ghost start = p.pos as int;
    let marker = p.open();
    let ghost gm1 = marker.index as int;
    proof {
        assert(call_ok(ks, start, p.st(), rank_TriplesSameSubject(peek_at(ks, p.st().pos)), rank_ConstructTriples(peek_at(ks, start)))) by {
            reveal(Parser::st);
            assert(peek_at(ks, start) == old(p).peek());
            assert(peek_at(ks, p.pos as int) == p.peek());
        }
    }
    parse_TriplesSameSubject(p);
    let ghost pre1 = p.st();
    if p.at_any(&[SyntaxKind::Dot]) {
        p.expect(SyntaxKind::Dot);
        let ghost pre2 = p.st();
        if p.at_any(&[SyntaxKind::IRIREF, SyntaxKind::PNAME_NS, SyntaxKind::STRING_LITERAL1, SyntaxKind::STRING_LITERAL2, SyntaxKind::LParen, SyntaxKind::INTEGER, SyntaxKind::NIL, SyntaxKind::LBrack, SyntaxKind::DoubleLess, SyntaxKind::DoubleLessLParen, SyntaxKind::VAR1, SyntaxKind::VAR2, SyntaxKind::DECIMAL, SyntaxKind::DOUBLE, SyntaxKind::INTEGER_POSITIVE, SyntaxKind::DECIMAL_POSITIVE, SyntaxKind::DOUBLE_POSITIVE, SyntaxKind::INTEGER_NEGATIVE, SyntaxKind::DECIMAL_NEGATIVE, SyntaxKind::DOUBLE_NEGATIVE, SyntaxKind::True, SyntaxKind::False, SyntaxKind::STRING_LITERAL_LONG1, SyntaxKind::STRING_LITERAL_LONG2, SyntaxKind::PNAME_LN, SyntaxKind::BLANK_NODE_LABEL, SyntaxKind::ANON]) {
            proof {
                assert(call_ok(ks, start, p.st(), rank_ConstructTriples(peek_at(ks, p.st().pos)), rank_ConstructTriples(peek_at(ks, start)))) by {
                    reveal(Parser::st);
                    assert(peek_at(ks, start) == old(p).peek());
                    assert(peek_at(ks, p.pos as int) == p.peek());
                }
            }
            parse_ConstructTriples(p);
            proof {
                assert(if_ConstructTriples_2(ks, start, gm1, pre2) == p.st()) by {
                    reveal_with_fuel(if_ConstructTriples_2, 1); reveal_with_fuel(rule_ConstructTriples, 1);
                }
            }
        } else {
            proof {
                assert(if_ConstructTriples_2(ks, start, gm1, pre2) == p.st()) by {
                    reveal_with_fuel(if_ConstructTriples_2, 1);
                }
            }
        }
        proof {
            assert(if_ConstructTriples_1(ks, start, gm1, pre1) == p.st()) by {
                reveal_with_fuel(if_ConstructTriples_1, 1); reveal_with_fuel(if_ConstructTriples_2, 1);
            }
        }
    } else {
        proof {
            assert(if_ConstructTriples_1(ks, start, gm1, pre1) == p.st()) by {
                reveal_with_fuel(if_ConstructTriples_1, 1);
            }
        }
    }
    p.close(marker, SyntaxKind::ConstructTriples);
    proof {
        assert(rule_ConstructTriples(ks, s0) == p.st()) by {
            reveal_with_fuel(rule_ConstructTriples, 1); reveal_with_fuel(if_ConstructTriples_1, 1); reveal_with_fuel(rule_TriplesSameSubject, 1);
        }
    }
}

pub open spec fn rank_VarOrTerm(t: SyntaxKind) -> nat {
    match t {
        SyntaxKind::ANON | SyntaxKind::BLANK_NODE_LABEL | SyntaxKind::DoubleLessLParen | SyntaxKind::False | SyntaxKind::IRIREF | SyntaxKind::True | SyntaxKind::VAR1 | SyntaxKind::VAR2 => 1,
        SyntaxKind::DECIMAL | SyntaxKind::DECIMAL_NEGATIVE | SyntaxKind::DECIMAL_POSITIVE | SyntaxKind::DOUBLE | SyntaxKind::DOUBLE_NEGATIVE | SyntaxKind::DOUBLE_POSITIVE | SyntaxKind::INTEGER | SyntaxKind::INTEGER_NEGATIVE | SyntaxKind::INTEGER_POSITIVE | SyntaxKind::PNAME_LN | SyntaxKind::PNAME_NS | SyntaxKind::STRING_LITERAL1 | SyntaxKind::STRING_LITERAL2 | SyntaxKind::STRING_LITERAL_LONG1 | SyntaxKind::STRING_LITERAL_LONG2 => 2,
        _ => 0,
    }
}

/// What [`parse_VarOrTerm`] makes of the parser state.
#[verifier::opaque]
pub open spec fn rule_VarOrTerm(ts: Seq<SyntaxKind>, s: St) -> St
    decreases ts.len() - s.pos, rank_VarOrTerm(peek_at(ts, s.pos)), 32 * (ts.len() - s.pos) + 32,
{
    let start = s.pos;
    let s_in = s;
    let m_marker = s.evs.len() as int;
    let s = st_open(s);
    let (s, r) = if s_in.pos <= s.pos <= ts.len() {
        match_VarOrTerm_1(ts, start, m_marker, s)
    } else {
        (s, false)
    };
    if r {
        s
    } else {
        let s = st_close(s, m_marker, SyntaxKind::VarOrTerm);
        s
    }
}

#[verifier::opaque]
pub open spec fn match_VarOrTerm_1(ts: Seq<SyntaxKind>, start: int, m_marker: int, s: St) -> (St, bool)
    decreases ts.len() - start, rank_VarOrTerm(peek_at(ts, start)), 32 * (ts.len() - s.pos) + 32 - 1,
{
    let s_in = s;
    if (peek_at(ts, s.pos) == SyntaxKind::VAR1 || peek_at(ts, s.pos) == SyntaxKind::VAR2) {
        let s = rule_Var(ts, s);
        (s, false)
    } else if (peek_at(ts, s.pos) == SyntaxKind::IRIREF || peek_at(ts, s.pos) == SyntaxKind::PNAME_NS || peek_at(ts, s.pos) == SyntaxKind::PNAME_LN) {
        let s = rule_iri(ts, s);
        (s, false)
    } else if (peek_at(ts, s.pos) == SyntaxKind::STRING_LITERAL1 || peek_at(ts, s.pos) == SyntaxKind::STRING_LITERAL2 || peek_at(ts, s.pos) == SyntaxKind::STRING_LITERAL_LONG1 || peek_at(ts, s.pos) == SyntaxKind::STRING_LITERAL_LONG2) {
        let s = rule_RDFLiteral(ts, s);
        (s, false)
    } else if (peek_at(ts, s.pos) == SyntaxKind::INTEGER || peek_at(ts, s.pos) == SyntaxKind::DECIMAL || peek_at(ts, s.pos) == SyntaxKind::DOUBLE || peek_at(ts, s.pos) == SyntaxKind::INTEGER_POSITIVE || peek_at(ts, s.pos) == SyntaxKind::DECIMAL_POSITIVE || peek_at(ts, s.pos) == SyntaxKind::DOUBLE_POSITIVE || peek_at(ts, s.pos) == SyntaxKind::INTEGER_NEGATIVE || peek_at(ts, s.pos) == SyntaxKind::DECIMAL_NEGATIVE || peek_at(ts, s.pos) == SyntaxKind::DOUBLE_NEGATIVE) {
        let s = rule_NumericLiteral(ts, s);
        (s, false)
    } else if (peek_at(ts, s.pos) == SyntaxKind::True || peek_at(ts, s.pos) == SyntaxKind::False) {
        let s = rule_BooleanLiteral(ts, s);
        (s, false)
    } else if (peek_at(ts, s.pos) == SyntaxKind::BLANK_NODE_LABEL || peek_at(ts, s.pos) == SyntaxKind::ANON) {
        let s = rule_BlankNode(ts, s);
        (s, false)
    } else if (peek_at(ts, s.pos) == SyntaxKind::NIL) {
        let s = st_expect(ts, s, SyntaxKind::NIL);
        (s, false)
    } else if (peek_at(ts, s.pos) == SyntaxKind::DoubleLessLParen) {
        let s = if call_ok(ts, start, s, rank_TripleTerm(peek_at(ts, s.pos)), rank_VarOrTerm(peek_at(ts, start))) {
            rule_TripleTerm(ts, s)
        } else {
            s
        };
        (s, false)
    } else if (peek_at(ts, s.pos) == SyntaxKind::Eof) {
        let s = st_close(s, m_marker, SyntaxKind::VarOrTerm);
        let m_marker = s.evs.len() as int;
        let s = st_open(s);
        let s = st_close(s, m_marker, SyntaxKind::Error);
        (s, true)
    } else {
        let s = st_advance_with_error(ts, s, seq![SyntaxKind::VAR1, SyntaxKind::VAR2, SyntaxKind::IRIREF, SyntaxKind::PNAME_NS, SyntaxKind::PNAME_LN, SyntaxKind::STRING_LITERAL1, SyntaxKind::STRING_LITERAL2, SyntaxKind::STRING_LITERAL_LONG1, SyntaxKind::STRING_LITERAL_LONG2, SyntaxKind::INTEGER, SyntaxKind::DECIMAL, SyntaxKind::DOUBLE, SyntaxKind::INTEGER_POSITIVE, SyntaxKind::DECIMAL_POSITIVE, SyntaxKind::DOUBLE_POSITIVE, SyntaxKind::INTEGER_NEGATIVE, SyntaxKind::DECIMAL_NEGATIVE, SyntaxKind::DOUBLE_NEGATIVE, SyntaxKind::True, SyntaxKind::False, SyntaxKind::BLANK_NODE_LABEL, SyntaxKind::ANON, SyntaxKind::NIL, SyntaxKind::DoubleLessLParen]);
        (s, false)
    }
}

/// [96] VarOrTerm -> Var | iri | RDFLiteral | NumericLiteral | BooleanLiteral | BlankNode | 'NIL' | TripleTerm
pub(crate) fn parse_VarOrTerm(p: &mut Parser)
    requires
        old(p).wf(),
    ensures
        Parser::step(*old(p), *final(p)),
        final(p).pos == old(p).pos ==> is_sync_point(old(p).peek()),
        old(p).events@.len() < final(p).events@.len(),
        final(p).events@[old(p).events@.len() as int] == (Event::Open { kind: SyntaxKind::VarOrTerm }),
        final(p).events@.last() is Close,
        final(p).st() == rule_VarOrTerm(old(p).kinds(), old(p).st()),
    decreases old(p).remaining(), rank_VarOrTerm(old(p).peek()), 1int,
{
    let ghost ks = p.kinds();
    let ghost s0 = p.st();
    let ghost start = p.pos as int;
    let marker = p.open();
    let ghost gm1 = marker.index as int;
    let ghost pre1 = p.st();
    match p.nth(0) {
        SyntaxKind::VAR1 | SyntaxKind::VAR2 => {
            parse_Var(p);
            proof {
                assert(match_VarOrTerm_1(ks, start, gm1, pre1) == (p.st(), false)) by {
                    reveal_with_fuel(match_VarOrTerm_1, 1);
                }
            }
        },
        SyntaxKind::IRIREF | SyntaxKind::PNAME_NS | SyntaxKind::PNAME_LN => {
            parse_iri(p);
            proof {
                assert(match_VarOrTerm_1(ks, start, gm1, pre1) == (p.st(), false)) by {
                    reveal_with_fuel(match_VarOrTerm_1, 1);
                }
            }
        },
        SyntaxKind::STRING_LITERAL1 | SyntaxKind::STRING_LITERAL2 | SyntaxKind::STRING_LITERAL_LONG1 | SyntaxKind::STRING_LITERAL_LONG2 => {
            parse_RDFLiteral(p);
            proof {
                assert(match_VarOrTerm_1(ks, start, gm1, pre1) == (p.st(), false)) by {
                    reveal_with_fuel(match_VarOrTerm_1, 1);
                }
            }
        },
        SyntaxKind::INTEGER | SyntaxKind::DECIMAL | SyntaxKind::DOUBLE | SyntaxKind::INTEGER_POSITIVE | SyntaxKind::DECIMAL_POSITIVE | SyntaxKind::DOUBLE_POSITIVE | SyntaxKind::INTEGER_NEGATIVE | SyntaxKind::DECIMAL_NEGATIVE | SyntaxKind::DOUBLE_NEGATIVE => {
            parse_NumericLiteral(p);
            proof {
                assert(match_VarOrTerm_1(ks, start, gm1, pre1) == (p.st(), false)) by {
                    reveal_with_fuel(match_VarOrTerm_1, 1);
                }
            }
        },
        SyntaxKind::True | SyntaxKind::False => {
            parse_BooleanLiteral(p);
            proof {
                assert(match_VarOrTerm_1(ks, start, gm1, pre1) == (p.st(), false)) by {
                    reveal_with_fuel(match_VarOrTerm_1, 1);
                }
            }
        },
        SyntaxKind::BLANK_NODE_LABEL | SyntaxKind::ANON => {
            parse_BlankNode(p);
            proof {
                assert(match_VarOrTerm_1(ks, start, gm1, pre1) == (p.st(), false)) by {
                    reveal_with_fuel(match_VarOrTerm_1, 1);
                }
            }
        },
        SyntaxKind::NIL => {
            p.expect(SyntaxKind::NIL);
            proof {
                assert(match_VarOrTerm_1(ks, start, gm1, pre1) == (p.st(), false)) by {
                    reveal_with_fuel(match_VarOrTerm_1, 1);
                }
            }
        },
        SyntaxKind::DoubleLessLParen => {
            proof {
                assert(call_ok(ks, start, p.st(), rank_TripleTerm(peek_at(ks, p.st().pos)), rank_VarOrTerm(peek_at(ks, start)))) by {
                    reveal(Parser::st);
                    assert(peek_at(ks, start) == old(p).peek());
                    assert(peek_at(ks, p.pos as int) == p.peek());
                }
            }
            parse_TripleTerm(p);
            proof {
                assert(match_VarOrTerm_1(ks, start, gm1, pre1) == (p.st(), false)) by {
                    reveal_with_fuel(match_VarOrTerm_1, 1); reveal_with_fuel(rule_TripleTerm, 1);
                }
            }
        },
        SyntaxKind::Eof => {
            p.close(marker, SyntaxKind::VarOrTerm);
            let marker = p.open();
            let ghost gm2 = marker.index as int;
            p.close(marker, SyntaxKind::Error);
            proof {
                assert(match_VarOrTerm_1(ks, start, gm1, pre1) == (p.st(), true)) by {
                    reveal_with_fuel(match_VarOrTerm_1, 1);
                }
            }
            proof {
                assert(rule_VarOrTerm(ks, s0) == p.st()) by {
                    reveal_with_fuel(rule_VarOrTerm, 1); reveal_with_fuel(match_VarOrTerm_1, 1);
                }
            }
            return ;
        },
        _ => {
            p.advance_with_error(vec![SyntaxKind::VAR1, SyntaxKind::VAR2, SyntaxKind::IRIREF, SyntaxKind::PNAME_NS, SyntaxKind::PNAME_LN, SyntaxKind::STRING_LITERAL1, SyntaxKind::STRING_LITERAL2, SyntaxKind::STRING_LITERAL_LONG1, SyntaxKind::STRING_LITERAL_LONG2, SyntaxKind::INTEGER, SyntaxKind::DECIMAL, SyntaxKind::DOUBLE, SyntaxKind::INTEGER_POSITIVE, SyntaxKind::DECIMAL_POSITIVE, SyntaxKind::DOUBLE_POSITIVE, SyntaxKind::INTEGER_NEGATIVE, SyntaxKind::DECIMAL_NEGATIVE, SyntaxKind::DOUBLE_NEGATIVE, SyntaxKind::True, SyntaxKind::False, SyntaxKind::BLANK_NODE_LABEL, SyntaxKind::ANON, SyntaxKind::NIL, SyntaxKind::DoubleLessLParen]);
            proof {
                assert(match_VarOrTerm_1(ks, start, gm1, pre1) == (p.st(), false)) by {
                    reveal_with_fuel(match_VarOrTerm_1, 1);
                }
            }
        },
    }
    p.close(marker, SyntaxKind::VarOrTerm);
    proof {
        assert(rule_VarOrTerm(ks, s0) == p.st()) by {
            reveal_with_fuel(rule_VarOrTerm, 1); reveal_with_fuel(match_VarOrTerm_1, 1);
        }
    }
}

pub open spec fn rank_PropertyListNotEmpty(t: SyntaxKind) -> nat {
    match t {
        SyntaxKind::Eof | SyntaxKind::IRIREF | SyntaxKind::LCurly | SyntaxKind::RCurly | SyntaxKind::VAR1 | SyntaxKind::VAR2 | SyntaxKind::WHERE => 3,
        SyntaxKind::PNAME_LN | SyntaxKind::PNAME_NS => 4,
        _ => 1,
    }
}

/// What [`parse_PropertyListNotEmpty`] makes of the parser state.
#[verifier::opaque]
pub open spec fn rule_PropertyListNotEmpty(ts: Seq<SyntaxKind>, s: St) -> St
    decreases ts.len() - s.pos, rank_PropertyListNotEmpty(peek_at(ts, s.pos)), 32 * (ts.len() - s.pos) + 32,
{
    let start = s.pos;
    let s_in = s;
    let m_marker = s.evs.len() as int;
    let s = st_open(s);
    let s = rule_Verb(ts, s);
    let s = if call_ok(ts, start, s, rank_ObjectList(peek_at(ts, s.pos)), rank_PropertyListNotEmpty(peek_at(ts, start))) {
        rule_ObjectList(ts, s)
    } else {
        s
    };
    let s = if s_in.pos <= s.pos <= ts.len() {
        loop_PropertyListNotEmpty_1(ts, start, m_marker, s)
    } else {
        s
    };
    let s = st_close(s, m_marker, SyntaxKind::PropertyListNotEmpty);
    s
}

#[verifier::opaque]
pub open spec fn if_PropertyListNotEmpty_3(ts: Seq<SyntaxKind>, start: int, m_marker: int, s: St) -> St
    decreases ts.len() - start, rank_PropertyListNotEmpty(peek_at(ts, start)), 32 * (ts.len() - s.pos) + 32 - 3,
{
    let s_in = s;
    if (peek_at(ts, s.pos) == SyntaxKind::IRIREF || peek_at(ts, s.pos) == SyntaxKind::PNAME_NS || peek_at(ts, s.pos) == SyntaxKind::a || peek_at(ts, s.pos) == SyntaxKind::VAR1 || peek_at(ts, s.pos) == SyntaxKind::VAR2 || peek_at(ts, s.pos) == SyntaxKind::PNAME_LN) {
        let s = rule_Verb(ts, s);
        let s = if call_ok(ts, start, s, rank_ObjectList(peek_at(ts, s.pos)), rank_PropertyListNotEmpty(peek_at(ts, start))) {
            rule_ObjectList(ts, s)
        } else {
            s
        };
        s
    } else {
        s
    }
}

#[verifier::opaque]
pub open spec fn loop_PropertyListNotEmpty_1(ts: Seq<SyntaxKind>, start: int, m_marker: int, s: St) -> St
    decreases ts.len() - start, rank_PropertyListNotEmpty(peek_at(ts, start)), 32 * (ts.len() - s.pos) + 32 - 1,
{
    let s_in = s;
    if (peek_at(ts, s.pos) == SyntaxKind::Semicolon) && s.pos <= ts.len() {
        let s1 = body_PropertyListNotEmpty_2(ts, start, m_marker, s);
        if s1.pos == s.pos {
            s1
        } else if s.pos < s1.pos <= ts.len() {
            loop_PropertyListNotEmpty_1(ts, start, m_marker, s1)
        } else {
            s1
        }
    } else {
        s
    }
}

#[verifier::opaque]
pub open spec fn body_PropertyListNotEmpty_2(ts: Seq<SyntaxKind>, start: int, m_marker: int, s: St) -> St
    decreases ts.len() - start, rank_PropertyListNotEmpty(peek_at(ts, start)), 32 * (ts.len() - s.pos) + 32 - 2,
{
    let s_in = s;
    let s = st_expect(ts, s, SyntaxKind::Semicolon);
    let s = if s_in.pos <= s.pos <= ts.len() {
        if_PropertyListNotEmpty_3(ts, start, m_marker, s)
    } else {
        s
    };
    s
}

/// [97] PropertyListNotEmpty -> Verb ObjectList (';' (Verb ObjectList)?)*
pub(crate) fn parse_PropertyListNotEmpty(p: &mut Parser)
    requires
        old(p).wf(),
    ensures
        Parser::step(*old(p), *final(p)),
        final(p).pos == old(p).pos ==> is_sync_point(old(p).peek()),
        old(p).events@.len() < final(p).events@.len(),
        final(p).events@[old(p).events@.len() as int] == (Event::Open { kind: SyntaxKind::PropertyListNotEmpty }),
        final(p).events@.last() is Close,
        final(p).st() == rule_PropertyListNotEmpty(old(p).kinds(), old(p).st()),
    decreases old(p).remaining(), rank_PropertyListNotEmpty(old(p).peek()), 1int,
{
    let ghost ks = p.kinds();
    let ghost s0 = p.st();
    let ghost start = p.pos as int;
    let marker = p.open();
    let ghost gm1 = marker.index as int;
    parse_Verb(p);
    proof {
        assert(call_ok(ks, start, p.st(), rank_ObjectList(peek_at(ks, p.st().pos)), rank_PropertyListNotEmpty(peek_at(ks, start)))) by {
            reveal(Parser::st);
            assert(peek_at(ks, start) == old(p).peek());
            assert(peek_at(ks, p.pos as int) == p.peek());
        }
    }
    parse_ObjectList(p);
    let ghost pre1 = p.st();
    proof {
        assert(p.st().pos == p.pos as int) by {
            reveal(Parser::st);
        }
        if !(peek_at(ks, p.st().pos) == SyntaxKind::Semicolon) {
            assert(loop_PropertyListNotEmpty_1(ks, start, gm1, pre1) == pre1) by {
                reveal_with_fuel(loop_PropertyListNotEmpty_1, 1); reveal_with_fuel(body_PropertyListNotEmpty_2, 1);
            }
        }
    }
    while p.at_any(&[SyntaxKind::Semicolon])
        invariant
            marker.index == old(p).events@.len(),
            p.wf(),
            p.tokens@ == old(p).tokens@,
            old(p).pos <= p.pos,
            p.stack() == old(p).stack().push(marker.index as int),
            p.pos == old(p).pos ==> is_sync_point(old(p).peek()),
            ks == p.kinds(),
            p.st().pos == p.pos as int,
            start == old(p).pos as int,
            gm1 == marker.index as int,
            pre1.pos <= p.pos,
            start <= pre1.pos,
            loop_PropertyListNotEmpty_1(ks, start, gm1, p.st()) == loop_PropertyListNotEmpty_1(ks, start, gm1, pre1),
            !(peek_at(ks, p.st().pos) == SyntaxKind::Semicolon) ==> loop_PropertyListNotEmpty_1(ks, start, gm1, p.st()) == p.st(),
        ensures
            loop_PropertyListNotEmpty_1(ks, start, gm1, pre1) == p.st(),
        decreases p.remaining(),
    {
        let ghost si1 = p.st();
        let checkpoint1 = p.pos();
        p.expect(SyntaxKind::Semicolon);
        let ghost pre2 = p.st();
        if p.at_any(&[SyntaxKind::IRIREF, SyntaxKind::PNAME_NS, SyntaxKind::a, SyntaxKind::VAR1, SyntaxKind::VAR2, SyntaxKind::PNAME_LN]) {
            parse_Verb(p);
            proof {
                assert(call_ok(ks, start, p.st(), rank_ObjectList(peek_at(ks, p.st().pos)), rank_PropertyListNotEmpty(peek_at(ks, start)))) by {
                    reveal(Parser::st);
                    assert(peek_at(ks, start) == old(p).peek());
                    assert(peek_at(ks, p.pos as int) == p.peek());
                }
            }
            parse_ObjectList(p);
            proof {
                assert(if_PropertyListNotEmpty_3(ks, start, gm1, pre2) == p.st()) by {
                    reveal_with_fuel(if_PropertyListNotEmpty_3, 1); reveal_with_fuel(rule_ObjectList, 1);
                }
            }
        } else {
            proof {
                assert(if_PropertyListNotEmpty_3(ks, start, gm1, pre2) == p.st()) by {
                    reveal_with_fuel(if_PropertyListNotEmpty_3, 1);
                }
            }
        }
        proof {
            assert(body_PropertyListNotEmpty_2(ks, start, gm1, si1) == p.st()) by {
                reveal_with_fuel(body_PropertyListNotEmpty_2, 1); reveal_with_fuel(if_PropertyListNotEmpty_3, 1);
            }
        }
        if p.pos() == checkpoint1 {
            proof {
                assert(loop_PropertyListNotEmpty_1(ks, start, gm1, si1) == p.st()) by {
                    reveal_with_fuel(loop_PropertyListNotEmpty_1, 1); reveal_with_fuel(body_PropertyListNotEmpty_2, 1);
                }
            }
            break;
        }
        proof {
            assert(p.st().pos == p.pos as int) by {
                reveal(Parser::st);
            }
            assert(loop_PropertyListNotEmpty_1(ks, start, gm1, si1) == loop_PropertyListNotEmpty_1(ks, start, gm1, p.st())) by {
                reveal_with_fuel(loop_PropertyListNotEmpty_1, 1); reveal_with_fuel(body_PropertyListNotEmpty_2, 1);
                reveal(Parser::st);
            }
            if !(peek_at(ks, p.st().pos) == SyntaxKind::Semicolon) {
                assert(loop_PropertyListNotEmpty_1(ks, start, gm1, p.st()) == p.st()) by {
                    reveal_with_fuel(loop_PropertyListNotEmpty_1, 1); reveal_with_fuel(body_PropertyListNotEmpty_2, 1);
                }
            }
        }
    }
    p.close(marker, SyntaxKind::PropertyListNotEmpty);
    proof {
        assert(rule_PropertyListNotEmpty(ks, s0) == p.st()) by {
            reveal_with_fuel(rule_PropertyListNotEmpty, 1); reveal_with_fuel(loop_PropertyListNotEmpty_1, 1); reveal_with_fuel(rule_ObjectList, 1);
        }
    }
}

pub open spec fn rank_TriplesNode(t: SyntaxKind) -> nat {
    match t {
        SyntaxKind::LBrack | SyntaxKind::LParen => 1,
        _ => 0,
    }
}

/// What [`parse_TriplesNode`] makes of the parser state.
#[verifier::opaque]
pub open spec fn rule_TriplesNode(ts: Seq<SyntaxKind>, s: St) -> St
    decreases ts.len() - s.pos, rank_TriplesNode(peek_at(ts, s.pos)), 32 * (ts.len() - s.pos) + 32,
{
    let start = s.pos;
    let s_in = s;
    let m_marker = s.evs.len() as int;
    let s = st_open(s);
    let (s, r) = if s_in.pos <= s.pos <= ts.len() {
        match_TriplesNode_1(ts, start, m_marker, s)
    } else {
        (s, false)
    };
    if r {
        s
    } else {
        let s = st_close(s, m_marker, SyntaxKind::TriplesNode);
        s
    }
}

#[verifier::opaque]
pub open spec fn match_TriplesNode_1(ts: Seq<SyntaxKind>, start: int, m_marker: int, s: St) -> (St, bool)
    decreases ts.len() - start, rank_TriplesNode(peek_at(ts, start)), 32 * (ts.len() - s.pos) + 32 - 1,
{
    let s_in = s;
    if (peek_at(ts, s.pos) == SyntaxKind::LParen) {
        let s = if call_ok(ts, start, s, rank_Collection(peek_at(ts, s.pos)), rank_TriplesNode(peek_at(ts, start))) {
            rule_Collection(ts, s)
        } else {
            s
        };
        (s, false)
    } else if (peek_at(ts, s.pos) == SyntaxKind::LBrack) {
        let s = if call_ok(ts, start, s, rank_BlankNodePropertyList(peek_at(ts, s.pos)), rank_TriplesNode(peek_at(ts, start))) {
            rule_BlankNodePropertyList(ts, s)
        } else {
            s
        };
        (s, false)
    } else if (peek_at(ts, s.pos) == SyntaxKind::Eof) {
        let s = st_close(s, m_marker, SyntaxKind::TriplesNode);
        let m_marker = s.evs.len() as int;
        let s = st_open(s);
        let s = st_close(s, m_marker, SyntaxKind::Error);
        (s, true)
    } else {
        let s = st_advance_with_error(ts, s, seq![SyntaxKind::LParen, SyntaxKind::LBrack]);
        (s, false)
    }
}

/// [98] TriplesNode -> Collection | BlankNodePropertyList
pub(crate) fn parse_TriplesNode(p: &mut Parser)
    requires
        old(p).wf(),
    ensures
        Parser::step(*old(p), *final(p)),
        final(p).pos == old(p).pos ==> is_sync_point(old(p).peek()),
        old(p).events@.len() < final(p).events@.len(),
        final(p).events@[old(p).events@.len() as int] == (Event::Open { kind: SyntaxKind::TriplesNode }),
        final(p).events@.last() is Close,
        final(p).st() == rule_TriplesNode(old(p).kinds(), old(p).st()),
    decreases old(p).remaining(), rank_TriplesNode(old(p).peek()), 1int,
{
    let ghost ks = p.kinds();
    let ghost s0 = p.st();
    let ghost start = p.pos as int;
    let marker = p.open();
    let ghost gm1 = marker.index as int;
    let ghost pre1 = p.st();
    match p.nth(0) {
        SyntaxKind::LParen => {
            proof {
                assert(call_ok(ks, start, p.st(), rank_Collection(peek_at(ks, p.st().pos)), rank_TriplesNode(peek_at(ks, start)))) by {
                    reveal(Parser::st);
                    assert(peek_at(ks, start) == old(p).peek());
                    assert(peek_at(ks, p.pos as int) == p.peek());
                }
            }
            parse_Collection(p);
            proof {
                assert(match_TriplesNode_1(ks, start, gm1, pre1) == (p.st(), false)) by {
                    reveal_with_fuel(match_TriplesNode_1, 1); reveal_with_fuel(rule_Collection, 1);
                }
            }
        },
        SyntaxKind::LBrack => {
            proof {
                assert(call_ok(ks, start, p.st(), rank_BlankNodePropertyList(peek_at(ks, p.st().pos)), rank_TriplesNode(peek_at(ks, start)))) by {
                    reveal(Parser::st);
                    assert(peek_at(ks, start) == old(p).peek());
                    assert(peek_at(ks, p.pos as int) == p.peek());
                }
            }
            parse_BlankNodePropertyList(p);
            proof {
                assert(match_TriplesNode_1(ks, start, gm1, pre1) == (p.st(), false)) by {
                    reveal_with_fuel(match_TriplesNode_1, 1); reveal_with_fuel(rule_BlankNodePropertyList, 1);
                }
            }
        },
        SyntaxKind::Eof => {
            p.close(marker, SyntaxKind::TriplesNode);
            let marker = p.open();
            let ghost gm2 = marker.index as int;
            p.close(marker, SyntaxKind::Error);
            proof {
                assert(match_TriplesNode_1(ks, start, gm1, pre1) == (p.st(), true)) by {
                    reveal_with_fuel(match_TriplesNode_1, 1);
                }
            }
            proof {
                assert(rule_TriplesNode(ks, s0) == p.st()) by {
                    reveal_with_fuel(rule_TriplesNode, 1); reveal_with_fuel(match_TriplesNode_1, 1);
                }
            }
            return ;
        },
        _ => {
            p.advance_with_error(vec![SyntaxKind::LParen, SyntaxKind::LBrack]);
            proof {
                assert(match_TriplesNode_1(ks, start, gm1, pre1) == (p.st(), false)) by {
                    reveal_with_fuel(match_TriplesNode_1, 1);
                }
            }
        },
    }
    p.close(marker, SyntaxKind::TriplesNode);
    proof {
        assert(rule_TriplesNode(ks, s0) == p.st()) by {
            reveal_with_fuel(rule_TriplesNode, 1); reveal_with_fuel(match_TriplesNode_1, 1);
        }
    }
}

pub open spec fn rank_Verb(t: SyntaxKind) -> nat {
    match t {
        SyntaxKind::IRIREF | SyntaxKind::VAR1 | SyntaxKind::VAR2 => 2,
        SyntaxKind::PNAME_LN | SyntaxKind::PNAME_NS => 3,
        _ => 0,
    }
}

/// What [`parse_Verb`] makes of the parser state.
#[verifier::opaque]
pub open spec fn rule_Verb(ts: Seq<SyntaxKind>, s: St) -> St {
    let m_marker = s.evs.len() as int;
    let s = st_open(s);
    if (peek_at(ts, s.pos) == SyntaxKind::IRIREF || peek_at(ts, s.pos) == SyntaxKind::PNAME_NS || peek_at(ts, s.pos) == SyntaxKind::VAR1 || peek_at(ts, s.pos) == SyntaxKind::VAR2 || peek_at(ts, s.pos) == SyntaxKind::PNAME_LN) {
        let s = rule_VarOrIri(ts, s);
        let s = st_close(s, m_marker, SyntaxKind::Verb);
        s
    } else if (peek_at(ts, s.pos) == SyntaxKind::a) {
        let s = st_expect(ts, s, SyntaxKind::a);
        let s = st_close(s, m_marker, SyntaxKind::Verb);
        s
    } else if (peek_at(ts, s.pos) == SyntaxKind::Eof) {
        let s = st_close(s, m_marker, SyntaxKind::Verb);
        let m_marker = s.evs.len() as int;
        let s = st_open(s);
        let s = st_close(s, m_marker, SyntaxKind::Error);
        s
    } else {
        let s = st_advance_with_error(ts, s, seq![SyntaxKind::IRIREF, SyntaxKind::PNAME_NS, SyntaxKind::VAR1, SyntaxKind::VAR2, SyntaxKind::PNAME_LN, SyntaxKind::a]);
        let s = st_close(s, m_marker, SyntaxKind::Verb);
        s
    }
}

/// [99] Verb -> VarOrIri | 'a'
pub(crate) fn parse_Verb(p: &mut Parser)
    requires
        old(p).wf(),
    ensures
        Parser::step(*old(p), *final(p)),
        final(p).pos == old(p).pos ==> is_sync_point(old(p).peek()),
        old(p).events@.len() < final(p).events@.len(),
        final(p).events@[old(p).events@.len() as int] == (Event::Open { kind: SyntaxKind::Verb }),
        final(p).events@.last() is Close,
        final(p).st() == rule_Verb(old(p).kinds(), old(p).st()),
    decreases old(p).remaining(), rank_Verb(old(p).peek()), 1int,
{
    let ghost ks = p.kinds();
    let ghost s0 = p.st();
    let marker = p.open();
    match p.nth(0) {
        SyntaxKind::IRIREF | SyntaxKind::PNAME_NS | SyntaxKind::VAR1 | SyntaxKind::VAR2 | SyntaxKind::PNAME_LN => {
            parse_VarOrIri(p);
        },
        SyntaxKind::a => {
            p.expect(SyntaxKind::a);
        },
        SyntaxKind::Eof => {
            p.close(marker, SyntaxKind::Verb);
            let marker = p.open();
            p.close(marker, SyntaxKind::Error);
            proof {
                assert(p.st() == rule_Verb(ks, s0)) by {
                    reveal(rule_Verb);
                    reveal(Parser::st);
                }
            }
            return ;
        },
        _ => {
            p.advance_with_error(vec![SyntaxKind::IRIREF, SyntaxKind::PNAME_NS, SyntaxKind::VAR1, SyntaxKind::VAR2, SyntaxKind::PNAME_LN, SyntaxKind::a]);
        },
    }
    p.close(marker, SyntaxKind::Verb);
    proof {
        assert(p.st() == rule_Verb(ks, s0)) by {
            reveal(rule_Verb);
            reveal(Parser::st);
        }
    }
}

pub open spec fn rank_ObjectList(t: SyntaxKind) -> nat {
    match t {
        SyntaxKind::DoubleLess | SyntaxKind::NIL => 3,
        SyntaxKind::ANON | SyntaxKind::BLANK_NODE_LABEL | SyntaxKind::DoubleLessLParen | SyntaxKind::False | SyntaxKind::IRIREF | SyntaxKind::LBrack | SyntaxKind::LParen | SyntaxKind::True | SyntaxKind::VAR1 | SyntaxKind::VAR2 => 4,
        SyntaxKind::DECIMAL | SyntaxKind::DECIMAL_NEGATIVE | SyntaxKind::DECIMAL_POSITIVE | SyntaxKind::DOUBLE | SyntaxKind::DOUBLE_NEGATIVE | SyntaxKind::DOUBLE_POSITIVE | SyntaxKind::INTEGER | SyntaxKind::INTEGER_NEGATIVE | SyntaxKind::INTEGER_POSITIVE | SyntaxKind::PNAME_LN | SyntaxKind::PNAME_NS | SyntaxKind::STRING_LITERAL1 | SyntaxKind::STRING_LITERAL2 | SyntaxKind::STRING_LITERAL_LONG1 | SyntaxKind::STRING_LITERAL_LONG2 => 5,
        _ => 2,
    }
}

/// What [`parse_ObjectList`] makes of the parser state.
#[verifier::opaque]
pub open spec fn rule_ObjectList(ts: Seq<SyntaxKind>, s: St) -> St
    decreases ts.len() - s.pos, rank_ObjectList(peek_at(ts, s.pos)), 32 * (ts.len() - s.pos) + 32,
{
    let start = s.pos;
    let s_in = s;
    let m_marker = s.evs.len() as int;
    let s = st_open(s);
    let s = if call_ok(ts, start, s, rank_Object(peek_at(ts, s.pos)), rank_ObjectList(peek_at(ts, start))) {
        rule_Object(ts, s)
    } else {
        s
    };
    let s = if s_in.pos <= s.pos <= ts.len() {
        loop_ObjectList_1(ts, start, m_marker, s)
    } else {
        s
    };
    let s = st_close(s, m_marker, SyntaxKind::ObjectList);
    s
}

#[verifier::opaque]
pub open spec fn loop_ObjectList_1(ts: Seq<SyntaxKind>, start: int, m_marker: int, s: St) -> St
    decreases ts.len() - start, rank_ObjectList(peek_at(ts, start)), 32 * (ts.len() - s.pos) + 32 - 1,
{
    let s_in = s;
    if (peek_at(ts, s.pos) == SyntaxKind::Comma) && s.pos <= ts.len() {
        let s1 = body_ObjectList_2(ts, start, m_marker, s);
        if s1.pos == s.pos {
            s1
        } else if s.pos < s1.pos <= ts.len() {
            loop_ObjectList_1(ts, start, m_marker, s1)
        } else {
            s1
        }
    } else {
        s
    }
}

#[verifier::opaque]
pub open spec fn body_ObjectList_2(ts: Seq<SyntaxKind>, start: int, m_marker: int, s: St) -> St
    decreases ts.len() - start, rank_ObjectList(peek_at(ts, start)), 32 * (ts.len() - s.pos) + 32 - 2,
{
    let s_in = s;
    let s = st_expect(ts, s, SyntaxKind::Comma);
    let s = if call_ok(ts, start, s, rank_Object(peek_at(ts, s.pos)), rank_ObjectList(peek_at(ts, start))) {
        rule_Object(ts, s)
    } else {
        s
    };
    s
}

/// [100] ObjectList -> Object (',' Object)*
pub(crate) fn parse_ObjectList(p: &mut Parser)
    requires
        old(p).wf(),
    ensures
        Parser::step(*old(p), *final(p)),
        final(p).pos == old(p).pos ==> is_sync_point(old(p).peek()),
        old(p).events@.len() < final(p).events@.len(),
        final(p).events@[old(p).events@.len() as int] == (Event::Open { kind: SyntaxKind::ObjectList }),
        final(p).events@.last() is Close,
        final(p).st() == rule_ObjectList(old(p).kinds(), old(p).st()),
    decreases old(p).remaining(), rank_ObjectList(old(p).peek()), 1int,
{
    let ghost ks = p.kinds();
    let ghost s0 = p.st();
    let ghost start = p.pos as int;
    let marker = p.open();
    let ghost gm1 = marker.index as int;
    proof {
        assert(call_ok(ks, start, p.st(), rank_Object(peek_at(ks, p.st().pos)), rank_ObjectList(peek_at(ks, start)))) by {
            reveal(Parser::st);
            assert(peek_at(ks, start) == old(p).peek());
            assert(peek_at(ks, p.pos as int) == p.peek());
        }
    }
    parse_Object(p);
    let ghost pre1 = p.st();
    proof {
        assert(p.st().pos == p.pos as int) by {
            reveal(Parser::st);
        }
        if !(peek_at(ks, p.st().pos) == SyntaxKind::Comma) {
            assert(loop_ObjectList_1(ks, start, gm1, pre1) == pre1) by {
                reveal_with_fuel(loop_ObjectList_1, 1); reveal_with_fuel(body_ObjectList_2, 1);
            }
        }
    }
    while p.at_any(&[SyntaxKind::Comma])
        invariant
            marker.index == old(p).events@.len(),
            p.wf(),
            p.tokens@ == old(p).tokens@,
            old(p).pos <= p.pos,
            p.stack() == old(p).stack().push(marker.index as int),
            p.pos == old(p).pos ==> is_sync_point(old(p).peek()),
            ks == p.kinds(),
            p.st().pos == p.pos as int,
            start == old(p).pos as int,
            gm1 == marker.index as int,
            pre1.pos <= p.pos,
            start <= pre1.pos,
            loop_ObjectList_1(ks, start, gm1, p.st()) == loop_ObjectList_1(ks, start, gm1, pre1),
            !(peek_at(ks, p.st().pos) == SyntaxKind::Comma) ==> loop_ObjectList_1(ks, start, gm1, p.st()) == p.st(),
        ensures
            loop_ObjectList_1(ks, start, gm1, pre1) == p.st(),
        decreases p.remaining(),
    {
        let ghost si1 = p.st();
        let checkpoint1 = p.pos();
        p.expect(SyntaxKind::Comma);
        proof {
            assert(call_ok(ks, start, p.st(), rank_Object(peek_at(ks, p.st().pos)), rank_ObjectList(peek_at(ks, start)))) by {
                reveal(Parser::st);
                assert(peek_at(ks, start) == old(p).peek());
                assert(peek_at(ks, p.pos as int) == p.peek());
            }
        }
        parse_Object(p);
        proof {
            assert(body_ObjectList_2(ks, start, gm1, si1) == p.st()) by {
                reveal_with_fuel(body_ObjectList_2, 1); reveal_with_fuel(rule_Object, 1);
            }
        }
        if p.pos() == checkpoint1 {
            proof {
                assert(loop_ObjectList_1(ks, start, gm1, si1) == p.st()) by {
                    reveal_with_fuel(loop_ObjectList_1, 1); reveal_with_fuel(body_ObjectList_2, 1);
                }
            }
            break;
        }
        proof {
            assert(p.st().pos == p.pos as int) by {
                reveal(Parser::st);
            }
            assert(loop_ObjectList_1(ks, start, gm1, si1) == loop_ObjectList_1(ks, start, gm1, p.st())) by {
                reveal_with_fuel(loop_ObjectList_1, 1); reveal_with_fuel(body_ObjectList_2, 1);
                reveal(Parser::st);
            }
            if !(peek_at(ks, p.st().pos) == SyntaxKind::Comma) {
                assert(loop_ObjectList_1(ks, start, gm1, p.st()) == p.st()) by {
                    reveal_with_fuel(loop_ObjectList_1, 1); reveal_with_fuel(body_ObjectList_2, 1);
                }
            }
        }
    }
    p.close(marker, SyntaxKind::ObjectList);
    proof {
        assert(rule_ObjectList(ks, s0) == p.st()) by {
            reveal_with_fuel(rule_ObjectList, 1); reveal_with_fuel(loop_ObjectList_1, 1); reveal_with_fuel(rule_Object, 1);
        }
    }
}

pub open spec fn rank_Object(t: SyntaxKind) -> nat {
    match t {
        SyntaxKind::DoubleLess | SyntaxKind::NIL => 2,
        SyntaxKind::ANON | SyntaxKind::BLANK_NODE_LABEL | SyntaxKind::DoubleLessLParen | SyntaxKind::False | SyntaxKind::IRIREF | SyntaxKind::LBrack | SyntaxKind::LParen | SyntaxKind::True | SyntaxKind::VAR1 | SyntaxKind::VAR2 => 3,
        SyntaxKind::DECIMAL | SyntaxKind::DECIMAL_NEGATIVE | SyntaxKind::DECIMAL_POSITIVE | SyntaxKind::DOUBLE | SyntaxKind::DOUBLE_NEGATIVE | SyntaxKind::DOUBLE_POSITIVE | SyntaxKind::INTEGER | SyntaxKind::INTEGER_NEGATIVE | SyntaxKind::INTEGER_POSITIVE | SyntaxKind::PNAME_LN | SyntaxKind::PNAME_NS | SyntaxKind::STRING_LITERAL1 | SyntaxKind::STRING_LITERAL2 | SyntaxKind::STRING_LITERAL_LONG1 | SyntaxKind::STRING_LITERAL_LONG2 => 4,
        _ => 1,
    }
}

/// What [`parse_Object`] makes of the parser state.
#[verifier::opaque]
pub open spec fn rule_Object(ts: Seq<SyntaxKind>, s: St) -> St
    decreases ts.len() - s.pos, rank_Object(peek_at(ts, s.pos)), 32 * (ts.len() - s.pos) + 32,
{
    let start = s.pos;
    let s_in = s;
    let m_marker = s.evs.len() as int;
    let s = st_open(s);
    let s = if call_ok(ts, start, s, rank_GraphNode(peek_at(ts, s.pos)), rank_Object(peek_at(ts, start))) {
        rule_GraphNode(ts, s)
    } else {
        s
    };
    let s = if call_ok(ts, start, s, rank_Annotation(peek_at(ts, s.pos)), rank_Object(peek_at(ts, start))) {
        rule_Annotation(ts, s)
    } else {
        s
    };
    let s = st_close(s, m_marker, SyntaxKind::Object);
    s
}


/// [101] Object -> GraphNode Annotation
pub(crate) fn parse_Object(p: &mut Parser)
    requires
        old(p).wf(),
    ensures
        Parser::step(*old(p), *final(p)),
        final(p).pos == old(p).pos ==> is_sync_point(old(p).peek()),
        old(p).events@.len() < final(p).events@.len(),
        final(p).events@[old(p).events@.len() as int] == (Event::Open { kind: SyntaxKind::Object }),
        final(p).events@.last() is Close,
        final(p).st() == rule_Object(old(p).kinds(), old(p).st()),
    decreases old(p).remaining(), rank_Object(old(p).peek()), 1int,
{
    let ghost ks = p.kinds();
    let ghost s0 = p.st();
    let ghost start = p.pos as int;
    let marker = p.open();
    let ghost gm1 = marker.index as int;
    proof {
        assert(call_ok(ks, start, p.st(), rank_GraphNode(peek_at(ks, p.st().pos)), rank_Object(peek_at(ks, start)))) by {
            reveal(Parser::st);
            assert(peek_at(ks, start) == old(p).peek());
            assert(peek_at(ks, p.pos as int) == p.peek());
        }
    }
    parse_GraphNode(p);
    proof {
        assert(call_ok(ks, start, p.st(), rank_Annotation(peek_at(ks, p.st().pos)), rank_Object(peek_at(ks, start)))) by {
            reveal(Parser::st);
            assert(peek_at(ks, start) == old(p).peek());
            assert(peek_at(ks, p.pos as int) == p.peek());
        }
    }
    parse_Annotation(p);
    p.close(marker, SyntaxKind::Object);
    proof {
        assert(rule_Object(ks, s0) == p.st()) by {
            reveal_with_fuel(rule_Object, 1); reveal_with_fuel(rule_Annotation, 1); reveal_with_fuel(rule_GraphNode, 1);
        }
    }
}

pub open spec fn rank_GraphNode(t: SyntaxKind) -> nat {
    match t {
        SyntaxKind::DoubleLess | SyntaxKind::NIL => 1,
        SyntaxKind::ANON | SyntaxKind::BLANK_NODE_LABEL | SyntaxKind::DoubleLessLParen | SyntaxKind::False | SyntaxKind::IRIREF | SyntaxKind::LBrack | SyntaxKind::LParen | SyntaxKind::True | SyntaxKind::VAR1 | SyntaxKind::VAR2 => 2,
        SyntaxKind::DECIMAL | SyntaxKind::DECIMAL_NEGATIVE | SyntaxKind::DECIMAL_POSITIVE | SyntaxKind::DOUBLE | SyntaxKind::DOUBLE_NEGATIVE | SyntaxKind::DOUBLE_POSITIVE | SyntaxKind::INTEGER | SyntaxKind::INTEGER_NEGATIVE | SyntaxKind::INTEGER_POSITIVE | SyntaxKind::PNAME_LN | SyntaxKind::PNAME_NS | SyntaxKind::STRING_LITERAL1 | SyntaxKind::STRING_LITERAL2 | SyntaxKind::STRING_LITERAL_LONG1 | SyntaxKind::STRING_LITERAL_LONG2 => 3,
        _ => 0,
    }
}

/// What [`parse_GraphNode`] makes of the parser state.
#[verifier::opaque]
pub open spec fn rule_GraphNode(ts: Seq<SyntaxKind>, s: St) -> St
    decreases ts.len() - s.pos, rank_GraphNode(peek_at(ts, s.pos)), 32 * (ts.len() - s.pos) + 32,
{
    let start = s.pos;
    let s_in = s;
    let m_marker = s.evs.len() as int;
    let s = st_open(s);
    let (s, r) = if s_in.pos <= s.pos <= ts.len() {
        match_GraphNode_1(ts, start, m_marker, s)
    } else {
        (s, false)
    };
    if r {
        s
    } else {
        let s = st_close(s, m_marker, SyntaxKind::GraphNode);
        s
    }
}

#[verifier::opaque]
pub open spec fn match_GraphNode_1(ts: Seq<SyntaxKind>, start: int, m_marker: int, s: St) -> (St, bool)
    decreases ts.len() - start, rank_GraphNode(peek_at(ts, start)), 32 * (ts.len() - s.pos) + 32 - 1,
{
    let s_in = s;
    if (peek_at(ts, s.pos) == SyntaxKind::IRIREF || peek_at(ts, s.pos) == SyntaxKind::PNAME_NS || peek_at(ts, s.pos) == SyntaxKind::STRING_LITERAL1 || peek_at(ts, s.pos) == SyntaxKind::STRING_LITERAL2 || peek_at(ts, s.pos) == SyntaxKind::INTEGER || peek_at(ts, s.pos) == SyntaxKind::NIL || peek_at(ts, s.pos) == SyntaxKind::DoubleLessLParen || peek_at(ts, s.pos) == SyntaxKind::VAR1 || peek_at(ts, s.pos) == SyntaxKind::VAR2 || peek_at(ts, s.pos) == SyntaxKind::DECIMAL || peek_at(ts, s.pos) == SyntaxKind::DOUBLE || peek_at(ts, s.pos) == SyntaxKind::INTEGER_POSITIVE || peek_at(ts, s.pos) == SyntaxKind::DECIMAL_POSITIVE || peek_at(ts, s.pos) == SyntaxKind::DOUBLE_POSITIVE || peek_at(ts, s.pos) == SyntaxKind::INTEGER_NEGATIVE || peek_at(ts, s.pos) == SyntaxKind::DECIMAL_NEGATIVE || peek_at(ts, s.pos) == SyntaxKind::DOUBLE_NEGATIVE || peek_at(ts, s.pos) == SyntaxKind::True || peek_at(ts, s.pos) == SyntaxKind::False || peek_at(ts, s.pos) == SyntaxKind::STRING_LITERAL_LONG1 || peek_at(ts, s.pos) == SyntaxKind::STRING_LITERAL_LONG2 || peek_at(ts, s.pos) == SyntaxKind::PNAME_LN || peek_at(ts, s.pos) == SyntaxKind::BLANK_NODE_LABEL || peek_at(ts, s.pos) == SyntaxKind::ANON) {
        let s = if call_ok(ts, start, s, rank_VarOrTerm(peek_at(ts, s.pos)), rank_GraphNode(peek_at(ts, start))) {
            rule_VarOrTerm(ts, s)
        } else {
            s
        };
        (s, false)
    } else if (peek_at(ts, s.pos) == SyntaxKind::LParen || peek_at(ts, s.pos) == SyntaxKind::LBrack) {
        let s = if call_ok(ts, start, s, rank_TriplesNode(peek_at(ts, s.pos)), rank_GraphNode(peek_at(ts, start))) {
            rule_TriplesNode(ts, s)
        } else {
            s
        };
        (s, false)
    } else if (peek_at(ts, s.pos) == SyntaxKind::DoubleLess) {
        let s = if call_ok(ts, start, s, rank_ReifiedTriple(peek_at(ts, s.pos)), rank_GraphNode(peek_at(ts, start))) {
            rule_ReifiedTriple(ts, s)
        } else {
            s
        };
        (s, false)
    } else if (peek_at(ts, s.pos) == SyntaxKind::Eof) {
        let s = st_close(s, m_marker, SyntaxKind::GraphNode);
        let m_marker = s.evs.len() as int;
        let s = st_open(s);
        let s = st_close(s, m_marker, SyntaxKind::Error);
        (s, true)
    } else {
        let s = st_advance_with_error(ts, s, seq![SyntaxKind::IRIREF, SyntaxKind::PNAME_NS, SyntaxKind::STRING_LITERAL1, SyntaxKind::STRING_LITERAL2, SyntaxKind::INTEGER, SyntaxKind::NIL, SyntaxKind::DoubleLessLParen, SyntaxKind::VAR1, SyntaxKind::VAR2, SyntaxKind::DECIMAL, SyntaxKind::DOUBLE, SyntaxKind::INTEGER_POSITIVE, SyntaxKind::DECIMAL_POSITIVE, SyntaxKind::DOUBLE_POSITIVE, SyntaxKind::INTEGER_NEGATIVE, SyntaxKind::DECIMAL_NEGATIVE, SyntaxKind::DOUBLE_NEGATIVE, SyntaxKind::True, SyntaxKind::False, SyntaxKind::STRING_LITERAL_LONG1, SyntaxKind::STRING_LITERAL_LONG2, SyntaxKind::PNAME_LN, SyntaxKind::BLANK_NODE_LABEL, SyntaxKind::ANON, SyntaxKind::LParen, SyntaxKind::LBrack, SyntaxKind::DoubleLess]);
        (s, false)
    }
}

/// [102] GraphNode -> VarOrTerm | TriplesNode | ReifiedTriple
pub(crate) fn parse_GraphNode(p: &mut Parser)
    requires
        old(p).wf(),
    ensures
        Parser::step(*old(p), *final(p)),
        final(p).pos == old(p).pos ==> is_sync_point(old(p).peek()),
        old(p).events@.len() < final(p).events@.len(),
        final(p).events@[old(p).events@.len() as int] == (Event::Open { kind: SyntaxKind::GraphNode }),
        final(p).events@.last() is Close,
        final(p).st() == rule_GraphNode(old(p).kinds(), old(p).st()),
    decreases old(p).remaining(), rank_GraphNode(old(p).peek()), 1int,
{
    let ghost ks = p.kinds();
    let ghost s0 = p.st();
    let ghost start = p.pos as int;
    let marker = p.open();
    let ghost gm1 = marker.index as int;
    let ghost pre1 = p.st();
    match p.nth(0) {
        SyntaxKind::IRIREF | SyntaxKind::PNAME_NS | SyntaxKind::STRING_LITERAL1 | SyntaxKind::STRING_LITERAL2 | SyntaxKind::INTEGER | SyntaxKind::NIL | SyntaxKind::DoubleLessLParen | SyntaxKind::VAR1 | SyntaxKind::VAR2 | SyntaxKind::DECIMAL | SyntaxKind::DOUBLE | SyntaxKind::INTEGER_POSITIVE | SyntaxKind::DECIMAL_POSITIVE | SyntaxKind::DOUBLE_POSITIVE | SyntaxKind::INTEGER_NEGATIVE | SyntaxKind::DECIMAL_NEGATIVE | SyntaxKind::DOUBLE_NEGATIVE | SyntaxKind::True | SyntaxKind::False | SyntaxKind::STRING_LITERAL_LONG1 | SyntaxKind::STRING_LITERAL_LONG2 | SyntaxKind::PNAME_LN | SyntaxKind::BLANK_NODE_LABEL | SyntaxKind::ANON => {
            proof {
                assert(call_ok(ks, start, p.st(), rank_VarOrTerm(peek_at(ks, p.st().pos)), rank_GraphNode(peek_at(ks, start)))) by {
                    reveal(Parser::st);
                    assert(peek_at(ks, start) == old(p).peek());
                    assert(peek_at(ks, p.pos as int) == p.peek());
                }
            }
            parse_VarOrTerm(p);
            proof {
                assert(match_GraphNode_1(ks, start, gm1, pre1) == (p.st(), false)) by {
                    reveal_with_fuel(match_GraphNode_1, 1); reveal_with_fuel(rule_VarOrTerm, 1);
                }
            }
        },
        SyntaxKind::LParen | SyntaxKind::LBrack => {
            proof {
                assert(call_ok(ks, start, p.st(), rank_TriplesNode(peek_at(ks, p.st().pos)), rank_GraphNode(peek_at(ks, start)))) by {
                    reveal(Parser::st);
                    assert(peek_at(ks, start) == old(p).peek());
                    assert(peek_at(ks, p.pos as int) == p.peek());
                }
            }
            parse_TriplesNode(p);
            proof {
                assert(match_GraphNode_1(ks, start, gm1, pre1) == (p.st(), false)) by {
                    reveal_with_fuel(match_GraphNode_1, 1); reveal_with_fuel(rule_TriplesNode, 1);
                }
            }
        },
        SyntaxKind::DoubleLess => {
            proof {
                assert(call_ok(ks, start, p.st(), rank_ReifiedTriple(peek_at(ks, p.st().pos)), rank_GraphNode(peek_at(ks, start)))) by {
                    reveal(Parser::st);
                    assert(peek_at(ks, start) == old(p).peek());
                    assert(peek_at(ks, p.pos as int) == p.peek());
                }
            }
            parse_ReifiedTriple(p);
            proof {
                assert(match_GraphNode_1(ks, start, gm1, pre1) == (p.st(), false)) by {
                    reveal_with_fuel(match_GraphNode_1, 1); reveal_with_fuel(rule_ReifiedTriple, 1);
                }
            }
        },
        SyntaxKind::Eof => {
            p.close(marker, SyntaxKind::GraphNode);
            let marker = p.open();
            let ghost gm2 = marker.index as int;
            p.close(marker, SyntaxKind::Error);
            proof {
                assert(match_GraphNode_1(ks, start, gm1, pre1) == (p.st(), true)) by {
                    reveal_with_fuel(match_GraphNode_1, 1);
                }
            }
            proof {
                assert(rule_GraphNode(ks, s0) == p.st()) by {
                    reveal_with_fuel(rule_GraphNode, 1); reveal_with_fuel(match_GraphNode_1, 1);
                }
            }
            return ;
        },
        _ => {
            p.advance_with_error(vec![SyntaxKind::IRIREF, SyntaxKind::PNAME_NS, SyntaxKind::STRING_LITERAL1, SyntaxKind::STRING_LITERAL2, SyntaxKind::INTEGER, SyntaxKind::NIL, SyntaxKind::DoubleLessLParen, SyntaxKind::VAR1, SyntaxKind::VAR2, SyntaxKind::DECIMAL, SyntaxKind::DOUBLE, SyntaxKind::INTEGER_POSITIVE, SyntaxKind::DECIMAL_POSITIVE, SyntaxKind::DOUBLE_POSITIVE, SyntaxKind::INTEGER_NEGATIVE, SyntaxKind::DECIMAL_NEGATIVE, SyntaxKind::DOUBLE_NEGATIVE, SyntaxKind::True, SyntaxKind::False, SyntaxKind::STRING_LITERAL_LONG1, SyntaxKind::STRING_LITERAL_LONG2, SyntaxKind::PNAME_LN, SyntaxKind::BLANK_NODE_LABEL, SyntaxKind::ANON, SyntaxKind::LParen, SyntaxKind::LBrack, SyntaxKind::DoubleLess]);
            proof {
                assert(match_GraphNode_1(ks, start, gm1, pre1) == (p.st(), false)) by {
                    reveal_with_fuel(match_GraphNode_1, 1);
                }
            }
        },
    }
    p.close(marker, SyntaxKind::GraphNode);
    proof {
        assert(rule_GraphNode(ks, s0) == p.st()) by {
            reveal_with_fuel(rule_GraphNode, 1); reveal_with_fuel(match_GraphNode_1, 1);
        }
    }
}

pub open spec fn rank_Annotation(t: SyntaxKind) -> nat {
    match t {
        SyntaxKind::LCurlyPipe | SyntaxKind::Tilde => 1,
        _ => 0,
    }
}

/// What [`parse_Annotation`] makes of the parser state.
#[verifier::opaque]
pub open spec fn rule_Annotation(ts: Seq<SyntaxKind>, s: St) -> St
    decreases ts.len() - s.pos, rank_Annotation(peek_at(ts, s.pos)), 32 * (ts.len() - s.pos) + 32,
{
    let start = s.pos;
    let s_in = s;
    let (s, r) = if s_in.pos <= s.pos <= ts.len() {
        if_Annotation_1(ts, start, s)
    } else {
        (s, false)
    };
    if r {
        s
    } else {
        let m_marker = s.evs.len() as int;
        let s = st_open(s);
        let (s, r) = if s_in.pos <= s.pos <= ts.len() {
            loop_Annotation_2(ts, start, m_marker, s)
        } else {
            (s, false)
        };
        if r {
            s
        } else {
            let s = st_close(s, m_marker, SyntaxKind::Annotation);
            s
        }
    }
}

#[verifier::opaque]
pub open spec fn if_Annotation_1(ts: Seq<SyntaxKind>, start: int, s: St) -> (St, bool)
    decreases ts.len() - start, rank_Annotation(peek_at(ts, start)), 32 * (ts.len() - s.pos) + 32 - 1,
{
    let s_in = s;
    if !(peek_at(ts, s.pos) == SyntaxKind::Tilde || peek_at(ts, s.pos) == SyntaxKind::LCurlyPipe) {
        (s, true)
    } else {
        (s, false)
    }
}

#[verifier::opaque]
pub open spec fn match_Annotation_4(ts: Seq<SyntaxKind>, start: int, m_marker: int, s: St) -> (St, bool)
    decreases ts.len() - start, rank_Annotation(peek_at(ts, start)), 32 * (ts.len() - s.pos) + 32 - 3,
{
    let s_in = s;
    if (peek_at(ts, s.pos) == SyntaxKind::Tilde) {
        let s = rule_Reifier(ts, s);
        (s, false)
    } else if (peek_at(ts, s.pos) == SyntaxKind::LCurlyPipe) {
        let s = if call_ok(ts, start, s, rank_AnnotationBlock(peek_at(ts, s.pos)), rank_Annotation(peek_at(ts, start))) {
            rule_AnnotationBlock(ts, s)
        } else {
            s
        };
        (s, false)
    } else if (peek_at(ts, s.pos) == SyntaxKind::Eof) {
        let s = st_close(s, m_marker, SyntaxKind::Annotation);
        let m_marker = s.evs.len() as int;
        let s = st_open(s);
        let s = st_close(s, m_marker, SyntaxKind::Error);
        (s, true)
    } else {
        let s = st_advance_with_error(ts, s, seq![SyntaxKind::Tilde, SyntaxKind::LCurlyPipe]);
        (s, false)
    }
}

#[verifier::opaque]
pub open spec fn loop_Annotation_2(ts: Seq<SyntaxKind>, start: int, m_marker: int, s: St) -> (St, bool)
    decreases ts.len() - start, rank_Annotation(peek_at(ts, start)), 32 * (ts.len() - s.pos) + 32 - 1,
{
    let s_in = s;
    if (peek_at(ts, s.pos) == SyntaxKind::Tilde || peek_at(ts, s.pos) == SyntaxKind::LCurlyPipe) && s.pos <= ts.len() {
        let (s1, r) = body_Annotation_3(ts, start, m_marker, s);
        if r {
            (s1, true)
        } else if s1.pos == s.pos {
            (s1, false)
        } else if s.pos < s1.pos <= ts.len() {
            loop_Annotation_2(ts, start, m_marker, s1)
        } else {
            (s1, false)
        }
    } else {
        (s, false)
    }
}

#[verifier::opaque]
pub open spec fn body_Annotation_3(ts: Seq<SyntaxKind>, start: int, m_marker: int, s: St) -> (St, bool)
    decreases ts.len() - start, rank_Annotation(peek_at(ts, start)), 32 * (ts.len() - s.pos) + 32 - 2,
{
    let s_in = s;
    let (s, r) = if s_in.pos <= s.pos <= ts.len() {
        match_Annotation_4(ts, start, m_marker, s)
    } else {
        (s, false)
    };
    if r {
        (s, true)
    } else {
        (s, false)
    }
}

/// [103] Annotation -> (Reifier | AnnotationBlock)*
pub(crate) fn parse_Annotation(p: &mut Parser)
    requires
        old(p).wf(),
    ensures
        Parser::step(*old(p), *final(p)),
        final(p).pos == old(p).pos ==> !(old(p).peek() == SyntaxKind::Tilde || old(p).peek() == SyntaxKind::LCurlyPipe),
        !(old(p).peek() == SyntaxKind::Tilde || old(p).peek() == SyntaxKind::LCurlyPipe) ==> *final(p) == *old(p),
        old(p).events@.len() < final(p).events@.len() ==> final(p).events@[old(p).events@.len() as int] == (Event::Open {
            kind: SyntaxKind::Annotation,
        }) && final(p).events@.last() is Close,
        final(p).st() == rule_Annotation(old(p).kinds(), old(p).st()),
    decreases old(p).remaining(), rank_Annotation(old(p).peek()), 1int,
{
    let ghost ks = p.kinds();
    let ghost s0 = p.st();
    let ghost start = p.pos as int;
    let mut returned: bool = false;
    let ghost pre1 = p.st();
    if !p.at_any(&[SyntaxKind::Tilde, SyntaxKind::LCurlyPipe]) {
        proof {
            assert(if_Annotation_1(ks, start, pre1) == (p.st(), true)) by {
                reveal_with_fuel(if_Annotation_1, 1);
            }
        }
        proof {
            assert(rule_Annotation(ks, s0) == p.st()) by {
                reveal_with_fuel(rule_Annotation, 1); reveal_with_fuel(if_Annotation_1, 1); reveal_with_fuel(loop_Annotation_2, 1);
            }
        }
        return ;
    } else {
        proof {
            assert(if_Annotation_1(ks, start, pre1) == (p.st(), false)) by {
                reveal_with_fuel(if_Annotation_1, 1);
            }
        }
    }
    let marker = p.open();
    let ghost gm1 = marker.index as int;
    let ghost pre2 = p.st();
    proof {
        assert(p.st().pos == p.pos as int) by {
            reveal(Parser::st);
        }
        if !(peek_at(ks, p.st().pos) == SyntaxKind::Tilde || peek_at(ks, p.st().pos) == SyntaxKind::LCurlyPipe) {
            assert(loop_Annotation_2(ks, start, gm1, pre2) == (pre2, false)) by {
                reveal_with_fuel(loop_Annotation_2, 1); reveal_with_fuel(body_Annotation_3, 1);
            }
        }
    }
    while p.at_any(&[SyntaxKind::Tilde, SyntaxKind::LCurlyPipe])
        invariant_except_break
            !returned,
        invariant
            marker.index == old(p).events@.len(),
            p.wf(),
            p.tokens@ == old(p).tokens@,
            old(p).pos <= p.pos,
            p.stack() == old(p).stack().push(marker.index as int),
            old(p).peek() == SyntaxKind::LCurlyPipe || old(p).peek() == SyntaxKind::Tilde,
            ks == p.kinds(),
            p.st().pos == p.pos as int,
            start == old(p).pos as int,
            gm1 == marker.index as int,
            pre2.pos <= p.pos,
            start <= pre2.pos,
            loop_Annotation_2(ks, start, gm1, p.st()) == loop_Annotation_2(ks, start, gm1, pre2),
            !(peek_at(ks, p.st().pos) == SyntaxKind::Tilde || peek_at(ks, p.st().pos) == SyntaxKind::LCurlyPipe) ==> loop_Annotation_2(ks, start, gm1, p.st()) == (p.st(), false),
        ensures
            p.pos > old(p).pos,
            returned ==> (Parser::step(*old(p), *p)),
            returned ==> (p.pos == old(p).pos ==> !(old(p).peek() == SyntaxKind::Tilde || old(p).peek() == SyntaxKind::LCurlyPipe)),
            returned ==> (!(old(p).peek() == SyntaxKind::Tilde || old(p).peek() == SyntaxKind::LCurlyPipe) ==> *p == *old(p)),
            returned ==> (old(p).events@.len() < p.events@.len() ==> p.events@[old(p).events@.len() as int] == (Event::Open { kind: SyntaxKind::Annotation, }) && p.events@.last() is Close),
            loop_Annotation_2(ks, start, gm1, pre2) == (p.st(), returned),
        decreases p.remaining(),
    {
        let ghost si2 = p.st();
        let checkpoint1 = p.pos();
        let ghost pre3 = p.st();
        match p.nth(0) {
            SyntaxKind::Tilde => {
                parse_Reifier(p);
                proof {
                    assert(match_Annotation_4(ks, start, gm1, pre3) == (p.st(), false)) by {
                        reveal_with_fuel(match_Annotation_4, 1);
                    }
                }
            },
            SyntaxKind::LCurlyPipe => {
                proof {
                    assert(call_ok(ks, start, p.st(), rank_AnnotationBlock(peek_at(ks, p.st().pos)), rank_Annotation(peek_at(ks, start)))) by {
                        reveal(Parser::st);
                        assert(peek_at(ks, start) == old(p).peek());
                        assert(peek_at(ks, p.pos as int) == p.peek());
                    }
                }
                parse_AnnotationBlock(p);
                proof {
                    assert(match_Annotation_4(ks, start, gm1, pre3) == (p.st(), false)) by {
                        reveal_with_fuel(match_Annotation_4, 1); reveal_with_fuel(rule_AnnotationBlock, 1);
                    }
                }
            },
            SyntaxKind::Eof => {
                p.close(marker, SyntaxKind::Annotation);
                let marker = p.open();
                let ghost gm2 = marker.index as int;
                p.close(marker, SyntaxKind::Error);
                proof {
                    assert(match_Annotation_4(ks, start, gm1, pre3) == (p.st(), true)) by {
                        reveal_with_fuel(match_Annotation_4, 1);
                    }
                }
                proof {
                    assert(body_Annotation_3(ks, start, gm1, si2) == (p.st(), true)) by {
                        reveal_with_fuel(body_Annotation_3, 1); reveal_with_fuel(match_Annotation_4, 1);
                    }
                }
                proof {
                    assert(loop_Annotation_2(ks, start, gm1, si2) == (p.st(), true)) by {
                        reveal_with_fuel(loop_Annotation_2, 1); reveal_with_fuel(body_Annotation_3, 1);
                    }
                }
                returned = true;
                break;
            },
            _ => {
                p.advance_with_error(vec![SyntaxKind::Tilde, SyntaxKind::LCurlyPipe]);
                proof {
                    assert(match_Annotation_4(ks, start, gm1, pre3) == (p.st(), false)) by {
                        reveal_with_fuel(match_Annotation_4, 1);
                    }
                }
            },
        }
        proof {
            assert(body_Annotation_3(ks, start, gm1, si2) == (p.st(), false)) by {
                reveal_with_fuel(body_Annotation_3, 1); reveal_with_fuel(match_Annotation_4, 1);
            }
        }
        if p.pos() == checkpoint1 {
            proof {
                assert(loop_Annotation_2(ks, start, gm1, si2) == (p.st(), false)) by {
                    reveal_with_fuel(loop_Annotation_2, 1); reveal_with_fuel(body_Annotation_3, 1);
                }
            }
            break;
        }
        proof {
            assert(p.st().pos == p.pos as int) by {
                reveal(Parser::st);
            }
            assert(loop_Annotation_2(ks, start, gm1, si2) == loop_Annotation_2(ks, start, gm1, p.st())) by {
                reveal_with_fuel(loop_Annotation_2, 1); reveal_with_fuel(body_Annotation_3, 1);
                reveal(Parser::st);
            }
            if !(peek_at(ks, p.st().pos) == SyntaxKind::Tilde || peek_at(ks, p.st().pos) == SyntaxKind::LCurlyPipe) {
                assert(loop_Annotation_2(ks, start, gm1, p.st()) == (p.st(), false)) by {
                    reveal_with_fuel(loop_Annotation_2, 1); reveal_with_fuel(body_Annotation_3, 1);
                }
            }
        }
    }
    if returned {
        proof {
            assert(rule_Annotation(ks, s0) == p.st()) by {
                reveal_with_fuel(rule_Annotation, 1); reveal_with_fuel(if_Annotation_1, 1); reveal_with_fuel(loop_Annotation_2, 1);
            }
        }
        return ;
    }
    p.close(marker, SyntaxKind::Annotation);
    proof {
        assert(rule_Annotation(ks, s0) == p.st()) by {
            reveal_with_fuel(rule_Annotation, 1); reveal_with_fuel(if_Annotation_1, 1); reveal_with_fuel(loop_Annotation_2, 1);
        }
    }
}

pub open spec fn rank_PropertyListPathNotEmpty(t: SyntaxKind) -> nat {
    match t {
        SyntaxKind::VAR1 | SyntaxKind::VAR2 => 2,
        SyntaxKind::LCurly | SyntaxKind::RCurly | SyntaxKind::WHERE => 3,
        SyntaxKind::Zirkumflex => 5,
        SyntaxKind::ExclamationMark | SyntaxKind::LParen | SyntaxKind::a => 7,
        SyntaxKind::IRIREF => 8,
        SyntaxKind::PNAME_LN | SyntaxKind::PNAME_NS => 9,
        _ => 0,
    }
}

/// What [`parse_PropertyListPathNotEmpty`] makes of the parser state.
#[verifier::opaque]
pub open spec fn rule_PropertyListPathNotEmpty(ts: Seq<SyntaxKind>, s: St) -> St
    decreases ts.len() - s.pos, rank_PropertyListPathNotEmpty(peek_at(ts, s.pos)), 32 * (ts.len() - s.pos) + 32,
{
    let start = s.pos;
    let s_in = s;
    let m_marker = s.evs.len() as int;
    let s = st_open(s);
    let (s, r) = if s_in.pos <= s.pos <= ts.len() {
        match_PropertyListPathNotEmpty_1(ts, start, m_marker, s)
    } else {
        (s, false)
    };
    if r {
        s
    } else {
        let s = if call_ok(ts, start, s, rank_ObjectListPath(peek_at(ts, s.pos)), rank_PropertyListPathNotEmpty(peek_at(ts, start))) {
            rule_ObjectListPath(ts, s)
        } else {
            s
        };
        let (s, r) = if s_in.pos <= s.pos <= ts.len() {
            loop_PropertyListPathNotEmpty_2(ts, start, m_marker, s)
        } else {
            (s, false)
        };
        if r {
            s
        } else {
            let s = st_close(s, m_marker, SyntaxKind::PropertyListPathNotEmpty);
            s
        }
    }
}

#[verifier::opaque]
pub open spec fn match_PropertyListPathNotEmpty_1(ts: Seq<SyntaxKind>, start: int, m_marker: int, s: St) -> (St, bool)
    decreases ts.len() - start, rank_PropertyListPathNotEmpty(peek_at(ts, start)), 32 * (ts.len() - s.pos) + 32 - 1,
{
    let s_in = s;
    if (peek_at(ts, s.pos) == SyntaxKind::IRIREF || peek_at(ts, s.pos) == SyntaxKind::PNAME_NS || peek_at(ts, s.pos) == SyntaxKind::LParen || peek_at(ts, s.pos) == SyntaxKind::a || peek_at(ts, s.pos) == SyntaxKind::Zirkumflex || peek_at(ts, s.pos) == SyntaxKind::ExclamationMark || peek_at(ts, s.pos) == SyntaxKind::PNAME_LN) {
        let s = if call_ok(ts, start, s, rank_VerbPath(peek_at(ts, s.pos)), rank_PropertyListPathNotEmpty(peek_at(ts, start))) {
            rule_VerbPath(ts, s)
        } else {
            s
        };
        (s, false)
    } else if (peek_at(ts, s.pos) == SyntaxKind::VAR1 || peek_at(ts, s.pos) == SyntaxKind::VAR2) {
        let s = rule_VerbSimple(ts, s);
        (s, false)
    } else if (peek_at(ts, s.pos) == SyntaxKind::Eof) {
        let s = st_close(s, m_marker, SyntaxKind::PropertyListPathNotEmpty);
        let m_marker = s.evs.len() as int;
        let s = st_open(s);
        let s = st_close(s, m_marker, SyntaxKind::Error);
        (s, true)
    } else {
        let s = st_advance_with_error(ts, s, seq![SyntaxKind::IRIREF, SyntaxKind::PNAME_NS, SyntaxKind::LParen, SyntaxKind::a, SyntaxKind::Zirkumflex, SyntaxKind::ExclamationMark, SyntaxKind::PNAME_LN, SyntaxKind::VAR1, SyntaxKind::VAR2]);
        (s, false)
    }
}

#[verifier::opaque]
pub open spec fn match_PropertyListPathNotEmpty_5(ts: Seq<SyntaxKind>, start: int, m_marker: int, s: St) -> (St, bool)
    decreases ts.len() - start, rank_PropertyListPathNotEmpty(peek_at(ts, start)), 32 * (ts.len() - s.pos) + 32 - 4,
{
    let s_in = s;
    if (peek_at(ts, s.pos) == SyntaxKind::IRIREF || peek_at(ts, s.pos) == SyntaxKind::PNAME_NS || peek_at(ts, s.pos) == SyntaxKind::LParen || peek_at(ts, s.pos) == SyntaxKind::a || peek_at(ts, s.pos) == SyntaxKind::Zirkumflex || peek_at(ts, s.pos) == SyntaxKind::ExclamationMark || peek_at(ts, s.pos) == SyntaxKind::PNAME_LN) {
        let s = if call_ok(ts, start, s, rank_VerbPath(peek_at(ts, s.pos)), rank_PropertyListPathNotEmpty(peek_at(ts, start))) {
            rule_VerbPath(ts, s)
        } else {
            s
        };
        (s, false)
    } else if (peek_at(ts, s.pos) == SyntaxKind::VAR1 || peek_at(ts, s.pos) == SyntaxKind::VAR2) {
        let s = rule_VerbSimple(ts, s);
        (s, false)
    } else if (peek_at(ts, s.pos) == SyntaxKind::Eof) {
        let s = st_close(s, m_marker, SyntaxKind::PropertyListPathNotEmpty);
        let m_marker = s.evs.len() as int;
        let s = st_open(s);
        let s = st_close(s, m_marker, SyntaxKind::Error);
        (s, true)
    } else {
        let s = st_advance_with_error(ts, s, seq![SyntaxKind::IRIREF, SyntaxKind::PNAME_NS, SyntaxKind::LParen, SyntaxKind::a, SyntaxKind::Zirkumflex, SyntaxKind::ExclamationMark, SyntaxKind::PNAME_LN, SyntaxKind::VAR1, SyntaxKind::VAR2]);
        (s, false)
    }
}

#[verifier::opaque]
pub open spec fn if_PropertyListPathNotEmpty_4(ts: Seq<SyntaxKind>, start: int, m_marker: int, s: St) -> (St, bool)
    decreases ts.len() - start, rank_PropertyListPathNotEmpty(peek_at(ts, start)), 32 * (ts.len() - s.pos) + 32 - 3,
{
    let s_in = s;
    if (peek_at(ts, s.pos) == SyntaxKind::IRIREF || peek_at(ts, s.pos) == SyntaxKind::PNAME_NS || peek_at(ts, s.pos) == SyntaxKind::LParen || peek_at(ts, s.pos) == SyntaxKind::a || peek_at(ts, s.pos) == SyntaxKind::Zirkumflex || peek_at(ts, s.pos) == SyntaxKind::ExclamationMark || peek_at(ts, s.pos) == SyntaxKind::VAR1 || peek_at(ts, s.pos) == SyntaxKind::VAR2 || peek_at(ts, s.pos) == SyntaxKind::PNAME_LN) {
        let (s, r) = if s_in.pos <= s.pos <= ts.len() {
            match_PropertyListPathNotEmpty_5(ts, start, m_marker, s)
        } else {
            (s, false)
        };
        if r {
            (s, true)
        } else {
            let s = if call_ok(ts, start, s, rank_ObjectListPath(peek_at(ts, s.pos)), rank_PropertyListPathNotEmpty(peek_at(ts, start))) {
                rule_ObjectListPath(ts, s)
            } else {
                s
            };
            (s, false)
        }
    } else {
        (s, false)
    }
}

#[verifier::opaque]
pub open spec fn loop_PropertyListPathNotEmpty_2(ts: Seq<SyntaxKind>, start: int, m_marker: int, s: St) -> (St, bool)
    decreases ts.len() - start, rank_PropertyListPathNotEmpty(peek_at(ts, start)), 32 * (ts.len() - s.pos) + 32 - 1,
{
    let s_in = s;
    if (peek_at(ts, s.pos) == SyntaxKind::Semicolon) && s.pos <= ts.len() {
        let (s1, r) = body_PropertyListPathNotEmpty_3(ts, start, m_marker, s);
        if r {
            (s1, true)
        } else if s1.pos == s.pos {
            (s1, false)
        } else if s.pos < s1.pos <= ts.len() {
            loop_PropertyListPathNotEmpty_2(ts, start, m_marker, s1)
        } else {
            (s1, false)
        }
    } else {
        (s, false)
    }
}

#[verifier::opaque]
pub open spec fn body_PropertyListPathNotEmpty_3(ts: Seq<SyntaxKind>, start: int, m_marker: int, s: St) -> (St, bool)
    decreases ts.len() - start, rank_PropertyListPathNotEmpty(peek_at(ts, start)), 32 * (ts.len() - s.pos) + 32 - 2,
{
    let s_in = s;
    let s = st_expect(ts, s, SyntaxKind::Semicolon);
    let (s, r) = if s_in.pos <= s.pos <= ts.len() {
        if_PropertyListPathNotEmpty_4(ts, start, m_marker, s)
    } else {
        (s, false)
    };
    if r {
        (s, true)
    } else {
        (s, false)
    }
}

/// [104] PropertyListPathNotEmpty -> (VerbPath | VerbSimple) ObjectListPath (';' ((VerbPath | VerbSimple) ObjectListPath)?)*
pub(crate) fn parse_PropertyListPathNotEmpty(p: &mut Parser)
    requires
        old(p).wf(),
    ensures
        Parser::step(*old(p), *final(p)),
        final(p).pos == old(p).pos ==> is_sync_point(old(p).peek()),
        old(p).events@.len() < final(p).events@.len(),
        final(p).events@[old(p).events@.len() as int] == (Event::Open { kind: SyntaxKind::PropertyListPathNotEmpty }),
        final(p).events@.last() is Close,
        final(p).st() == rule_PropertyListPathNotEmpty(old(p).kinds(), old(p).st()),
    decreases old(p).remaining(), rank_PropertyListPathNotEmpty(old(p).peek()), 1int,
{
    let ghost ks = p.kinds();
    let ghost s0 = p.st();
    let ghost start = p.pos as int;
    let mut returned: bool = false;
    let marker = p.open();
    let ghost gm1 = marker.index as int;
    let ghost pre1 = p.st();
    match p.nth(0) {
        SyntaxKind::IRIREF | SyntaxKind::PNAME_NS | SyntaxKind::LParen | SyntaxKind::a | SyntaxKind::Zirkumflex | SyntaxKind::ExclamationMark | SyntaxKind::PNAME_LN => {
            proof {
                assert(call_ok(ks, start, p.st(), rank_VerbPath(peek_at(ks, p.st().pos)), rank_PropertyListPathNotEmpty(peek_at(ks, start)))) by {
                    reveal(Parser::st);
                    assert(peek_at(ks, start) == old(p).peek());
                    assert(peek_at(ks, p.pos as int) == p.peek());
                }
            }
            parse_VerbPath(p);
            proof {
                assert(match_PropertyListPathNotEmpty_1(ks, start, gm1, pre1) == (p.st(), false)) by {
                    reveal_with_fuel(match_PropertyListPathNotEmpty_1, 1); reveal_with_fuel(rule_VerbPath, 1);
                }
            }
        },
        SyntaxKind::VAR1 | SyntaxKind::VAR2 => {
            parse_VerbSimple(p);
            proof {
                assert(match_PropertyListPathNotEmpty_1(ks, start, gm1, pre1) == (p.st(), false)) by {
                    reveal_with_fuel(match_PropertyListPathNotEmpty_1, 1);
                }
            }
        },
        SyntaxKind::Eof => {
            p.close(marker, SyntaxKind::PropertyListPathNotEmpty);
            let marker = p.open();
            let ghost gm2 = marker.index as int;
            p.close(marker, SyntaxKind::Error);
            proof {
                assert(match_PropertyListPathNotEmpty_1(ks, start, gm1, pre1) == (p.st(), true)) by {
                    reveal_with_fuel(match_PropertyListPathNotEmpty_1, 1);
                }
            }
            proof {
                assert(rule_PropertyListPathNotEmpty(ks, s0) == p.st()) by {
                    reveal_with_fuel(rule_PropertyListPathNotEmpty, 1); reveal_with_fuel(loop_PropertyListPathNotEmpty_2, 1); reveal_with_fuel(match_PropertyListPathNotEmpty_1, 1); reveal_with_fuel(rule_ObjectListPath, 1);
                }
            }
            return ;
        },
        _ => {
            p.advance_with_error(vec![SyntaxKind::IRIREF, SyntaxKind::PNAME_NS, SyntaxKind::LParen, SyntaxKind::a, SyntaxKind::Zirkumflex, SyntaxKind::ExclamationMark, SyntaxKind::PNAME_LN, SyntaxKind::VAR1, SyntaxKind::VAR2]);
            proof {
                assert(match_PropertyListPathNotEmpty_1(ks, start, gm1, pre1) == (p.st(), false)) by {
                    reveal_with_fuel(match_PropertyListPathNotEmpty_1, 1);
                }
            }
        },
    }
    proof {
        assert(call_ok(ks, start, p.st(), rank_ObjectListPath(peek_at(ks, p.st().pos)), rank_PropertyListPathNotEmpty(peek_at(ks, start)))) by {
            reveal(Parser::st);
            assert(peek_at(ks, start) == old(p).peek());
            assert(peek_at(ks, p.pos as int) == p.peek());
        }
    }
    parse_ObjectListPath(p);
    let ghost pre2 = p.st();
    proof {
        assert(p.st().pos == p.pos as int) by {
            reveal(Parser::st);
        }
        if !(peek_at(ks, p.st().pos) == SyntaxKind::Semicolon) {
            assert(loop_PropertyListPathNotEmpty_2(ks, start, gm1, pre2) == (pre2, false)) by {
                reveal_with_fuel(loop_PropertyListPathNotEmpty_2, 1); reveal_with_fuel(body_PropertyListPathNotEmpty_3, 1);
            }
        }
    }
    while p.at_any(&[SyntaxKind::Semicolon])
        invariant_except_break
            !returned,
        invariant
            marker.index == old(p).events@.len(),
            p.wf(),
            p.tokens@ == old(p).tokens@,
            old(p).pos <= p.pos,
            p.stack() == old(p).stack().push(marker.index as int),
            p.pos == old(p).pos ==> (old(p).peek() == SyntaxKind::LCurly || old(p).peek() == SyntaxKind::RCurly || old(p).peek() == SyntaxKind::WHERE),
            ks == p.kinds(),
            p.st().pos == p.pos as int,
            start == old(p).pos as int,
            gm1 == marker.index as int,
            pre2.pos <= p.pos,
            start <= pre2.pos,
            loop_PropertyListPathNotEmpty_2(ks, start, gm1, p.st()) == loop_PropertyListPathNotEmpty_2(ks, start, gm1, pre2),
            !(peek_at(ks, p.st().pos) == SyntaxKind::Semicolon) ==> loop_PropertyListPathNotEmpty_2(ks, start, gm1, p.st()) == (p.st(), false),
        ensures
            returned ==> (Parser::step(*old(p), *p)),
            returned ==> (p.pos == old(p).pos ==> is_sync_point(old(p).peek())),
            returned ==> (old(p).events@.len() < p.events@.len()),
            returned ==> (p.events@[old(p).events@.len() as int] == (Event::Open { kind: SyntaxKind::PropertyListPathNotEmpty })),
            returned ==> (p.events@.last() is Close),
            loop_PropertyListPathNotEmpty_2(ks, start, gm1, pre2) == (p.st(), returned),
        decreases p.remaining(),
    {
        let ghost si2 = p.st();
        let checkpoint1 = p.pos();
        p.expect(SyntaxKind::Semicolon);
        let ghost pre3 = p.st();
        if p.at_any(&[SyntaxKind::IRIREF, SyntaxKind::PNAME_NS, SyntaxKind::LParen, SyntaxKind::a, SyntaxKind::Zirkumflex, SyntaxKind::ExclamationMark, SyntaxKind::VAR1, SyntaxKind::VAR2, SyntaxKind::PNAME_LN]) {
            let ghost pre4 = p.st();
            match p.nth(0) {
                SyntaxKind::IRIREF | SyntaxKind::PNAME_NS | SyntaxKind::LParen | SyntaxKind::a | SyntaxKind::Zirkumflex | SyntaxKind::ExclamationMark | SyntaxKind::PNAME_LN => {
                    proof {
                        assert(call_ok(ks, start, p.st(), rank_VerbPath(peek_at(ks, p.st().pos)), rank_PropertyListPathNotEmpty(peek_at(ks, start)))) by {
                            reveal(Parser::st);
                            assert(peek_at(ks, start) == old(p).peek());
                            assert(peek_at(ks, p.pos as int) == p.peek());
                        }
                    }
                    parse_VerbPath(p);
                    proof {
                        assert(match_PropertyListPathNotEmpty_5(ks, start, gm1, pre4) == (p.st(), false)) by {
                            reveal_with_fuel(match_PropertyListPathNotEmpty_5, 1); reveal_with_fuel(rule_VerbPath, 1);
                        }
                    }
                },
                SyntaxKind::VAR1 | SyntaxKind::VAR2 => {
                    parse_VerbSimple(p);
                    proof {
                        assert(match_PropertyListPathNotEmpty_5(ks, start, gm1, pre4) == (p.st(), false)) by {
                            reveal_with_fuel(match_PropertyListPathNotEmpty_5, 1);
                        }
                    }
                },
                SyntaxKind::Eof => {
                    p.close(marker, SyntaxKind::PropertyListPathNotEmpty);
                    let marker = p.open();
                    let ghost gm3 = marker.index as int;
                    p.close(marker, SyntaxKind::Error);
                    proof {
                        assert(match_PropertyListPathNotEmpty_5(ks, start, gm1, pre4) == (p.st(), true)) by {
                            reveal_with_fuel(match_PropertyListPathNotEmpty_5, 1);
                        }
                    }
                    proof {
                        assert(if_PropertyListPathNotEmpty_4(ks, start, gm1, pre3) == (p.st(), true)) by {
                            reveal_with_fuel(if_PropertyListPathNotEmpty_4, 1); reveal_with_fuel(match_PropertyListPathNotEmpty_5, 1); reveal_with_fuel(rule_ObjectListPath, 1);
                        }
                    }
                    proof {
                        assert(body_PropertyListPathNotEmpty_3(ks, start, gm1, si2) == (p.st(), true)) by {
                            reveal_with_fuel(body_PropertyListPathNotEmpty_3, 1); reveal_with_fuel(if_PropertyListPathNotEmpty_4, 1);
                        }
                    }
                    proof {
                        assert(loop_PropertyListPathNotEmpty_2(ks, start, gm1, si2) == (p.st(), true)) by {
                            reveal_with_fuel(loop_PropertyListPathNotEmpty_2, 1); reveal_with_fuel(body_PropertyListPathNotEmpty_3, 1);
                        }
                    }
                    returned = true;
                    break;
                },
                _ => {
                    p.advance_with_error(vec![SyntaxKind::IRIREF, SyntaxKind::PNAME_NS, SyntaxKind::LParen, SyntaxKind::a, SyntaxKind::Zirkumflex, SyntaxKind::ExclamationMark, SyntaxKind::PNAME_LN, SyntaxKind::VAR1, SyntaxKind::VAR2]);
                    proof {
                        assert(match_PropertyListPathNotEmpty_5(ks, start, gm1, pre4) == (p.st(), false)) by {
                            reveal_with_fuel(match_PropertyListPathNotEmpty_5, 1);
                        }
                    }
                },
            }
            proof {
                assert(call_ok(ks, start, p.st(), rank_ObjectListPath(peek_at(ks, p.st().pos)), rank_PropertyListPathNotEmpty(peek_at(ks, start)))) by {
                    reveal(Parser::st);
                    assert(peek_at(ks, start) == old(p).peek());
                    assert(peek_at(ks, p.pos as int) == p.peek());
                }
            }
            parse_ObjectListPath(p);
            proof {
                assert(if_PropertyListPathNotEmpty_4(ks, start, gm1, pre3) == (p.st(), false)) by {
                    reveal_with_fuel(if_PropertyListPathNotEmpty_4, 1); reveal_with_fuel(match_PropertyListPathNotEmpty_5, 1); reveal_with_fuel(rule_ObjectListPath, 1);
                }
            }
        } else {
            proof {
                assert(if_PropertyListPathNotEmpty_4(ks, start, gm1, pre3) == (p.st(), false)) by {
                    reveal_with_fuel(if_PropertyListPathNotEmpty_4, 1);
                }
            }
        }
        proof {
            assert(body_PropertyListPathNotEmpty_3(ks, start, gm1, si2) == (p.st(), false)) by {
                reveal_with_fuel(body_PropertyListPathNotEmpty_3, 1); reveal_with_fuel(if_PropertyListPathNotEmpty_4, 1);
            }
        }
        if p.pos() == checkpoint1 {
            proof {
                assert(loop_PropertyListPathNotEmpty_2(ks, start, gm1, si2) == (p.st(), false)) by {
                    reveal_with_fuel(loop_PropertyListPathNotEmpty_2, 1); reveal_with_fuel(body_PropertyListPathNotEmpty_3, 1);
                }
            }
            break;
        }
        proof {
            assert(p.st().pos == p.pos as int) by {
                reveal(Parser::st);
            }
            assert(loop_PropertyListPathNotEmpty_2(ks, start, gm1, si2) == loop_PropertyListPathNotEmpty_2(ks, start, gm1, p.st())) by {
                reveal_with_fuel(loop_PropertyListPathNotEmpty_2, 1); reveal_with_fuel(body_PropertyListPathNotEmpty_3, 1);
                reveal(Parser::st);
            }
            if !(peek_at(ks, p.st().pos) == SyntaxKind::Semicolon) {
                assert(loop_PropertyListPathNotEmpty_2(ks, start, gm1, p.st()) == (p.st(), false)) by {
                    reveal_with_fuel(loop_PropertyListPathNotEmpty_2, 1); reveal_with_fuel(body_PropertyListPathNotEmpty_3, 1);
                }
            }
        }
    }
    if returned {
        proof {
            assert(rule_PropertyListPathNotEmpty(ks, s0) == p.st()) by {
                reveal_with_fuel(rule_PropertyListPathNotEmpty, 1); reveal_with_fuel(loop_PropertyListPathNotEmpty_2, 1); reveal_with_fuel(match_PropertyListPathNotEmpty_1, 1); reveal_with_fuel(rule_ObjectListPath, 1);
            }
        }
        return ;
    }
    p.close(marker, SyntaxKind::PropertyListPathNotEmpty);
    proof {
        assert(rule_PropertyListPathNotEmpty(ks, s0) == p.st()) by {
            reveal_with_fuel(rule_PropertyListPathNotEmpty, 1); reveal_with_fuel(loop_PropertyListPathNotEmpty_2, 1); reveal_with_fuel(match_PropertyListPathNotEmpty_1, 1); reveal_with_fuel(rule_ObjectListPath, 1);
        }
    }
}

pub open spec fn rank_TriplesNodePath(t: SyntaxKind) -> nat {
    match t {
        SyntaxKind::LBrack | SyntaxKind::LParen => 1,
        _ => 0,
    }
}

/// What [`parse_TriplesNodePath`] makes of the parser state.
#[verifier::opaque]
pub open spec fn rule_TriplesNodePath(ts: Seq<SyntaxKind>, s: St) -> St
    decreases ts.len() - s.pos, rank_TriplesNodePath(peek_at(ts, s.pos)), 32 * (ts.len() - s.pos) + 32,
{
    let start = s.pos;
    let s_in = s;
    let m_marker = s.evs.len() as int;
    let s = st_open(s);
    let (s, r) = if s_in.pos <= s.pos <= ts.len() {
        match_TriplesNodePath_1(ts, start, m_marker, s)
    } else {
        (s, false)
    };
    if r {
        s
    } else {
        let s = st_close(s, m_marker, SyntaxKind::TriplesNodePath);
        s
    }
}

#[verifier::opaque]
pub open spec fn match_TriplesNodePath_1(ts: Seq<SyntaxKind>, start: int, m_marker: int, s: St) -> (St, bool)
    decreases ts.len() - start, rank_TriplesNodePath(peek_at(ts, start)), 32 * (ts.len() - s.pos) + 32 - 1,
{
    let s_in = s;
    if (peek_at(ts, s.pos) == SyntaxKind::LParen) {
        let s = if call_ok(ts, start, s, rank_CollectionPath(peek_at(ts, s.pos)), rank_TriplesNodePath(peek_at(ts, start))) {
            rule_CollectionPath(ts, s)
        } else {
            s
        };
        (s, false)
    } else if (peek_at(ts, s.pos) == SyntaxKind::LBrack) {
        let s = if call_ok(ts, start, s, rank_BlankNodePropertyListPath(peek_at(ts, s.pos)), rank_TriplesNodePath(peek_at(ts, start))) {
            rule_BlankNodePropertyListPath(ts, s)
        } else {
            s
        };
        (s, false)
    } else if (peek_at(ts, s.pos) == SyntaxKind::Eof) {
        let s = st_close(s, m_marker, SyntaxKind::TriplesNodePath);
        let m_marker = s.evs.len() as int;
        let s = st_open(s);
        let s = st_close(s, m_marker, SyntaxKind::Error);
        (s, true)
    } else {
        let s = st_advance_with_error(ts, s, seq![SyntaxKind::LParen, SyntaxKind::LBrack]);
        (s, false)
    }
}

/// [105] TriplesNodePath -> CollectionPath | BlankNodePropertyListPath
pub(crate) fn parse_TriplesNodePath(p: &mut Parser)
    requires
        old(p).wf(),
    ensures
        Parser::step(*old(p), *final(p)),
        final(p).pos == old(p).pos ==> is_sync_point(old(p).peek()),
        old(p).events@.len() < final(p).events@.len(),
        final(p).events@[old(p).events@.len() as int] == (Event::Open { kind: SyntaxKind::TriplesNodePath }),
        final(p).events@.last() is Close,
        final(p).st() == rule_TriplesNodePath(old(p).kinds(), old(p).st()),
    decreases old(p).remaining(), rank_TriplesNodePath(old(p).peek()), 1int,
{
    let ghost ks = p.kinds();
    let ghost s0 = p.st();
    let ghost start = p.pos as int;
    let marker = p.open();
    let ghost gm1 = marker.index as int;
    let ghost pre1 = p.st();
    match p.nth(0) {
        SyntaxKind::LParen => {
            proof {
                assert(call_ok(ks, start, p.st(), rank_CollectionPath(peek_at(ks, p.st().pos)), rank_TriplesNodePath(peek_at(ks, start)))) by {
                    reveal(Parser::st);
                    assert(peek_at(ks, start) == old(p).peek());
                    assert(peek_at(ks, p.pos as int) == p.peek());
                }
            }
            parse_CollectionPath(p);
            proof {
                assert(match_TriplesNodePath_1(ks, start, gm1, pre1) == (p.st(), false)) by {
                    reveal_with_fuel(match_TriplesNodePath_1, 1); reveal_with_fuel(rule_CollectionPath, 1);
                }
            }
        },
        SyntaxKind::LBrack => {
            proof {
                assert(call_ok(ks, start, p.st(), rank_BlankNodePropertyListPath(peek_at(ks, p.st().pos)), rank_TriplesNodePath(peek_at(ks, start)))) by {
                    reveal(Parser::st);
                    assert(peek_at(ks, start) == old(p).peek());
                    assert(peek_at(ks, p.pos as int) == p.peek());
                }
            }
            parse_BlankNodePropertyListPath(p);
            proof {
                assert(match_TriplesNodePath_1(ks, start, gm1, pre1) == (p.st(), false)) by {
                    reveal_with_fuel(match_TriplesNodePath_1, 1); reveal_with_fuel(rule_BlankNodePropertyListPath, 1);
                }
            }
        },
        SyntaxKind::Eof => {
            p.close(marker, SyntaxKind::TriplesNodePath);
            let marker = p.open();
            let ghost gm2 = marker.index as int;
            p.close(marker, SyntaxKind::Error);
            proof {
                assert(match_TriplesNodePath_1(ks, start, gm1, pre1) == (p.st(), true)) by {
                    reveal_with_fuel(match_TriplesNodePath_1, 1);
                }
            }
            proof {
                assert(rule_TriplesNodePath(ks, s0) == p.st()) by {
                    reveal_with_fuel(rule_TriplesNodePath, 1); reveal_with_fuel(match_TriplesNodePath_1, 1);
                }
            }
            return ;
        },
        _ => {
            p.advance_with_error(vec![SyntaxKind::LParen, SyntaxKind::LBrack]);
            proof {
                assert(match_TriplesNodePath_1(ks, start, gm1, pre1) == (p.st(), false)) by {
                    reveal_with_fuel(match_TriplesNodePath_1, 1);
                }
            }
        },
    }
    p.close(marker, SyntaxKind::TriplesNodePath);
    proof {
        assert(rule_TriplesNodePath(ks, s0) == p.st()) by {
            reveal_with_fuel(rule_TriplesNodePath, 1); reveal_with_fuel(match_TriplesNodePath_1, 1);
        }
    }
}

pub open spec fn rank_VerbPath(t: SyntaxKind) -> nat {
    match t {
        SyntaxKind::ExclamationMark | SyntaxKind::LParen | SyntaxKind::a => 6,
        SyntaxKind::IRIREF => 7,
        SyntaxKind::PNAME_LN | SyntaxKind::PNAME_NS => 8,
        _ => 4,
    }
}

/// What [`parse_VerbPath`] makes of the parser state.
#[verifier::opaque]
pub open spec fn rule_VerbPath(ts: Seq<SyntaxKind>, s: St) -> St
    decreases ts.len() - s.pos, rank_VerbPath(peek_at(ts, s.pos)), 32 * (ts.len() - s.pos) + 32,
{
    let start = s.pos;
    let s_in = s;
    let m_marker = s.evs.len() as int;
    let s = st_open(s);
    let s = if call_ok(ts, start, s, rank_Path(peek_at(ts, s.pos)), rank_VerbPath(peek_at(ts, start))) {
        rule_Path(ts, s)
    } else {
        s
    };
    let s = st_close(s, m_marker, SyntaxKind::VerbPath);
    s
}


/// [106] VerbPath -> Path
pub(crate) fn parse_VerbPath(p: &mut Parser)
    requires
        old(p).wf(),
    ensures
        Parser::step(*old(p), *final(p)),
        final(p).pos == old(p).pos ==> is_sync_point(old(p).peek()),
        old(p).events@.len() < final(p).events@.len(),
        final(p).events@[old(p).events@.len() as int] == (Event::Open { kind: SyntaxKind::VerbPath }),
        final(p).events@.last() is Close,
        final(p).st() == rule_VerbPath(old(p).kinds(), old(p).st()),
    decreases old(p).remaining(), rank_VerbPath(old(p).peek()), 1int,
{
    let ghost ks = p.kinds();
    let ghost s0 = p.st();
    let ghost start = p.pos as int;
    let marker = p.open();
    let ghost gm1 = marker.index as int;
    proof {
        assert(call_ok(ks, start, p.st(), rank_Path(peek_at(ks, p.st().pos)), rank_VerbPath(peek_at(ks, start)))) by {
            reveal(Parser::st);
            assert(peek_at(ks, start) == old(p).peek());
            assert(peek_at(ks, p.pos as int) == p.peek());
        }
    }
    parse_Path(p);
    p.close(marker, SyntaxKind::VerbPath);
    proof {
        assert(rule_VerbPath(ks, s0) == p.st()) by {
            reveal_with_fuel(rule_VerbPath, 1); reveal_with_fuel(rule_Path, 1);
        }
    }
}

pub open spec fn rank_VerbSimple(t: SyntaxKind) -> nat {
    1
}

/// What [`parse_VerbSimple`] makes of the parser state.
#[verifier::opaque]
pub open spec fn rule_VerbSimple(ts: Seq<SyntaxKind>, s: St) -> St {
    let m_marker = s.evs.len() as int;
    let s = st_open(s);
    let s = rule_Var(ts, s);
    let s = st_close(s, m_marker, SyntaxKind::VerbSimple);
    s
}

/// [107] VerbSimple -> Var
pub(crate) fn parse_VerbSimple(p: &mut Parser)
    requires
        old(p).wf(),
    ensures
        Parser::step(*old(p), *final(p)),
        final(p).pos == old(p).pos ==> is_sync_point(old(p).peek()),
        old(p).events@.len() < final(p).events@.len(),
        final(p).events@[old(p).events@.len() as int] == (Event::Open { kind: SyntaxKind::VerbSimple }),
        final(p).events@.last() is Close,
        final(p).st() == rule_VerbSimple(old(p).kinds(), old(p).st()),
    decreases old(p).remaining(), rank_VerbSimple(old(p).peek()), 1int,
{
    let ghost ks = p.kinds();
    let ghost s0 = p.st();
    let marker = p.open();
    parse_Var(p);
    p.close(marker, SyntaxKind::VerbSimple);
    proof {
        assert(p.st() == rule_VerbSimple(ks, s0)) by {
            reveal(rule_VerbSimple);
            reveal(Parser::st);
        }
    }
}

pub open spec fn rank_ObjectListPath(t: SyntaxKind) -> nat {
    match t {
        SyntaxKind::DoubleLess | SyntaxKind::NIL => 3,
        SyntaxKind::ANON | SyntaxKind::BLANK_NODE_LABEL | SyntaxKind::DoubleLessLParen | SyntaxKind::False | SyntaxKind::IRIREF | SyntaxKind::LBrack | SyntaxKind::LParen | SyntaxKind::True | SyntaxKind::VAR1 | SyntaxKind::VAR2 => 4,
        SyntaxKind::DECIMAL | SyntaxKind::DECIMAL_NEGATIVE | SyntaxKind::DECIMAL_POSITIVE | SyntaxKind::DOUBLE | SyntaxKind::DOUBLE_NEGATIVE | SyntaxKind::DOUBLE_POSITIVE | SyntaxKind::INTEGER | SyntaxKind::INTEGER_NEGATIVE | SyntaxKind::INTEGER_POSITIVE | SyntaxKind::PNAME_LN | SyntaxKind::PNAME_NS | SyntaxKind::STRING_LITERAL1 | SyntaxKind::STRING_LITERAL2 | SyntaxKind::STRING_LITERAL_LONG1 | SyntaxKind::STRING_LITERAL_LONG2 => 5,
        _ => 2,
    }
}

/// What [`parse_ObjectListPath`] makes of the parser state.
#[verifier::opaque]
pub open spec fn rule_ObjectListPath(ts: Seq<SyntaxKind>, s: St) -> St
    decreases ts.len() - s.pos, rank_ObjectListPath(peek_at(ts, s.pos)), 32 * (ts.len() - s.pos) + 32,
{
    let start = s.pos;
    let s_in = s;
    let m_marker = s.evs.len() as int;
    let s = st_open(s);
    let s = if call_ok(ts, start, s, rank_ObjectPath(peek_at(ts, s.pos)), rank_ObjectListPath(peek_at(ts, start))) {
        rule_ObjectPath(ts, s)
    } else {
        s
    };
    let s = if s_in.pos <= s.pos <= ts.len() {
        loop_ObjectListPath_1(ts, start, m_marker, s)
    } else {
        s
    };
    let s = st_close(s, m_marker, SyntaxKind::ObjectListPath);
    s
}

#[verifier::opaque]
pub open spec fn loop_ObjectListPath_1(ts: Seq<SyntaxKind>, start: int, m_marker: int, s: St) -> St
    decreases ts.len() - start, rank_ObjectListPath(peek_at(ts, start)), 32 * (ts.len() - s.pos) + 32 - 1,
{
    let s_in = s;
    if (peek_at(ts, s.pos) == SyntaxKind::Comma) && s.pos <= ts.len() {
        let s1 = body_ObjectListPath_2(ts, start, m_marker, s);
        if s1.pos == s.pos {
            s1
        } else if s.pos < s1.pos <= ts.len() {
            loop_ObjectListPath_1(ts, start, m_marker, s1)
        } else {
            s1
        }
    } else {
        s
    }
}

#[verifier::opaque]
pub open spec fn body_ObjectListPath_2(ts: Seq<SyntaxKind>, start: int, m_marker: int, s: St) -> St
    decreases ts.len() - start, rank_ObjectListPath(peek_at(ts, start)), 32 * (ts.len() - s.pos) + 32 - 2,
{
    let s_in = s;
    let s = st_expect(ts, s, SyntaxKind::Comma);
    let s = if call_ok(ts, start, s, rank_ObjectPath(peek_at(ts, s.pos)), rank_ObjectListPath(peek_at(ts, start))) {
        rule_ObjectPath(ts, s)
    } else {
        s
    };
    s
}

/// [108] ObjectListPath -> ObjectPath (',' ObjectPath)*
pub(crate) fn parse_ObjectListPath(p: &mut Parser)
    requires
        old(p).wf(),
    ensures
        Parser::step(*old(p), *final(p)),
        final(p).pos == old(p).pos ==> is_sync_point(old(p).peek()),
        old(p).events@.len() < final(p).events@.len(),
        final(p).events@[old(p).events@.len() as int] == (Event::Open { kind: SyntaxKind::ObjectListPath }),
        final(p).events@.last() is Close,
        final(p).st() == rule_ObjectListPath(old(p).kinds(), old(p).st()),
    decreases old(p).remaining(), rank_ObjectListPath(old(p).peek()), 1int,
{
    let ghost ks = p.kinds();
    let ghost s0 = p.st();
    let ghost start = p.pos as int;
    let marker = p.open();
    let ghost gm1 = marker.index as int;
    proof {
        assert(call_ok(ks, start, p.st(), rank_ObjectPath(peek_at(ks, p.st().pos)), rank_ObjectListPath(peek_at(ks, start)))) by {
            reveal(Parser::st);
            assert(peek_at(ks, start) == old(p).peek());
            assert(peek_at(ks, p.pos as int) == p.peek());
        }
    }
    parse_ObjectPath(p);
    let ghost pre1 = p.st();
    proof {
        assert(p.st().pos == p.pos as int) by {
            reveal(Parser::st);
        }
        if !(peek_at(ks, p.st().pos) == SyntaxKind::Comma) {
            assert(loop_ObjectListPath_1(ks, start, gm1, pre1) == pre1) by {
                reveal_with_fuel(loop_ObjectListPath_1, 1); reveal_with_fuel(body_ObjectListPath_2, 1);
            }
        }
    }
    while p.at_any(&[SyntaxKind::Comma])
        invariant
            marker.index == old(p).events@.len(),
            p.wf(),
            p.tokens@ == old(p).tokens@,
            old(p).pos <= p.pos,
            p.stack() == old(p).stack().push(marker.index as int),
            p.pos == old(p).pos ==> is_sync_point(old(p).peek()),
            ks == p.kinds(),
            p.st().pos == p.pos as int,
            start == old(p).pos as int,
            gm1 == marker.index as int,
            pre1.pos <= p.pos,
            start <= pre1.pos,
            loop_ObjectListPath_1(ks, start, gm1, p.st()) == loop_ObjectListPath_1(ks, start, gm1, pre1),
            !(peek_at(ks, p.st().pos) == SyntaxKind::Comma) ==> loop_ObjectListPath_1(ks, start, gm1, p.st()) == p.st(),
        ensures
            loop_ObjectListPath_1(ks, start, gm1, pre1) == p.st(),
        decreases p.remaining(),
    {
        let ghost si1 = p.st();
        let checkpoint1 = p.pos();
        p.expect(SyntaxKind::Comma);
        proof {
            assert(call_ok(ks, start, p.st(), rank_ObjectPath(peek_at(ks, p.st().pos)), rank_ObjectListPath(peek_at(ks, start)))) by {
                reveal(Parser::st);
                assert(peek_at(ks, start) == old(p).peek());
                assert(peek_at(ks, p.pos as int) == p.peek());
            }
        }
        parse_ObjectPath(p);
        proof {
            assert(body_ObjectListPath_2(ks, start, gm1, si1) == p.st()) by {
                reveal_with_fuel(body_ObjectListPath_2, 1); reveal_with_fuel(rule_ObjectPath, 1);
            }
        }
        if p.pos() == checkpoint1 {
            proof {
                assert(loop_ObjectListPath_1(ks, start, gm1, si1) == p.st()) by {
                    reveal_with_fuel(loop_ObjectListPath_1, 1); reveal_with_fuel(body_ObjectListPath_2, 1);
                }
            }
            break;
        }
        proof {
            assert(p.st().pos == p.pos as int) by {
                reveal(Parser::st);
            }
            assert(loop_ObjectListPath_1(ks, start, gm1, si1) == loop_ObjectListPath_1(ks, start, gm1, p.st())) by {
                reveal_with_fuel(loop_ObjectListPath_1, 1); reveal_with_fuel(body_ObjectListPath_2, 1);
                reveal(Parser::st);
            }
            if !(peek_at(ks, p.st().pos) == SyntaxKind::Comma) {
                assert(loop_ObjectListPath_1(ks, start, gm1, p.st()) == p.st()) by {
                    reveal_with_fuel(loop_ObjectListPath_1, 1); reveal_with_fuel(body_ObjectListPath_2, 1);
                }
            }
        }
    }
    p.close(marker, SyntaxKind::ObjectListPath);
    proof {
        assert(rule_ObjectListPath(ks, s0) == p.st()) by {
            reveal_with_fuel(rule_ObjectListPath, 1); reveal_with_fuel(loop_ObjectListPath_1, 1); reveal_with_fuel(rule_ObjectPath, 1);
        }
    }
}

pub open spec fn rank_Path(t: SyntaxKind) -> nat {
    match t {
        SyntaxKind::ExclamationMark | SyntaxKind::LParen | SyntaxKind::a => 5,
        SyntaxKind::IRIREF => 6,
        SyntaxKind::PNAME_LN | SyntaxKind::PNAME_NS => 7,
        _ => 3,
    }
}

/// What [`parse_Path`] makes of the parser state.
#[verifier::opaque]
pub open spec fn rule_Path(ts: Seq<SyntaxKind>, s: St) -> St
    decreases ts.len() - s.pos, rank_Path(peek_at(ts, s.pos)), 32 * (ts.len() - s.pos) + 32,
{
    let start = s.pos;
    let s_in = s;
    let m_marker = s.evs.len() as int;
    let s = st_open(s);
    let s = if call_ok(ts, start, s, rank_PathAlternative(peek_at(ts, s.pos)), rank_Path(peek_at(ts, start))) {
        rule_PathAlternative(ts, s)
    } else {
        s
    };
    let s = st_close(s, m_marker, SyntaxKind::Path);
    s
}


/// [109] Path -> PathAlternative
pub(crate) fn parse_Path(p: &mut Parser)
    requires
        old(p).wf(),
    ensures
        Parser::step(*old(p), *final(p)),
        final(p).pos == old(p).pos ==> is_sync_point(old(p).peek()),
        old(p).events@.len() < final(p).events@.len(),
        final(p).events@[old(p).events@.len() as int] == (Event::Open { kind: SyntaxKind::Path }),
        final(p).events@.last() is Close,
        final(p).st() == rule_Path(old(p).kinds(), old(p).st()),
    decreases old(p).remaining(), rank_Path(old(p).peek()), 1int,
{
    let ghost ks = p.kinds();
    let ghost s0 = p.st();
    let ghost start = p.pos as int;
    let marker = p.open();
    let ghost gm1 = marker.index as int;
    proof {
        assert(call_ok(ks, start, p.st(), rank_PathAlternative(peek_at(ks, p.st().pos)), rank_Path(peek_at(ks, start)))) by {
            reveal(Parser::st);
            assert(peek_at(ks, start) == old(p).peek());
            assert(peek_at(ks, p.pos as int) == p.peek());
        }
    }
    parse_PathAlternative(p);
    p.close(marker, SyntaxKind::Path);
    proof {
        assert(rule_Path(ks, s0) == p.st()) by {
            reveal_with_fuel(rule_Path, 1); reveal_with_fuel(rule_PathAlternative, 1);
        }
    }
}

pub open spec fn rank_ObjectPath(t: SyntaxKind) -> nat {
    match t {
        SyntaxKind::DoubleLess | SyntaxKind::NIL => 2,
        SyntaxKind::ANON | SyntaxKind::BLANK_NODE_LABEL | SyntaxKind::DoubleLessLParen | SyntaxKind::False | SyntaxKind::IRIREF | SyntaxKind::LBrack | SyntaxKind::LParen | SyntaxKind::True | SyntaxKind::VAR1 | SyntaxKind::VAR2 => 3,
        SyntaxKind::DECIMAL | SyntaxKind::DECIMAL_NEGATIVE | SyntaxKind::DECIMAL_POSITIVE | SyntaxKind::DOUBLE | SyntaxKind::DOUBLE_NEGATIVE | SyntaxKind::DOUBLE_POSITIVE | SyntaxKind::INTEGER | SyntaxKind::INTEGER_NEGATIVE | SyntaxKind::INTEGER_POSITIVE | SyntaxKind::PNAME_LN | SyntaxKind::PNAME_NS | SyntaxKind::STRING_LITERAL1 | SyntaxKind::STRING_LITERAL2 | SyntaxKind::STRING_LITERAL_LONG1 | SyntaxKind::STRING_LITERAL_LONG2 => 4,
        _ => 1,
    }
}

/// What [`parse_ObjectPath`] makes of the parser state.
#[verifier::opaque]
pub open spec fn rule_ObjectPath(ts: Seq<SyntaxKind>, s: St) -> St
    decreases ts.len() - s.pos, rank_ObjectPath(peek_at(ts, s.pos)), 32 * (ts.len() - s.pos) + 32,
{
    let start = s.pos;
    let s_in = s;
    let m_marker = s.evs.len() as int;
    let s = st_open(s);
    let s = if call_ok(ts, start, s, rank_GraphNodePath(peek_at(ts, s.pos)), rank_ObjectPath(peek_at(ts, start))) {
        rule_GraphNodePath(ts, s)
    } else {
        s
    };
    let s = if call_ok(ts, start, s, rank_AnnotationPath(peek_at(ts, s.pos)), rank_ObjectPath(peek_at(ts, start))) {
        rule_AnnotationPath(ts, s)
    } else {
        s
    };
    let s = st_close(s, m_marker, SyntaxKind::ObjectPath);
    s
}


/// [110] ObjectPath -> GraphNodePath AnnotationPath
pub(crate) fn parse_ObjectPath(p: &mut Parser)
    requires
        old(p).wf(),
    ensures
        Parser::step(*old(p), *final(p)),
        final(p).pos == old(p).pos ==> is_sync_point(old(p).peek()),
        old(p).events@.len() < final(p).events@.len(),
        final(p).events@[old(p).events@.len() as int] == (Event::Open { kind: SyntaxKind::ObjectPath }),
        final(p).events@.last() is Close,
        final(p).st() == rule_ObjectPath(old(p).kinds(), old(p).st()),
    decreases old(p).remaining(), rank_ObjectPath(old(p).peek()), 1int,
{
    let ghost ks = p.kinds();
    let ghost s0 = p.st();
    let ghost start = p.pos as int;
    let marker = p.open();
    let ghost gm1 = marker.index as int;
    proof {
        assert(call_ok(ks, start, p.st(), rank_GraphNodePath(peek_at(ks, p.st().pos)), rank_ObjectPath(peek_at(ks, start)))) by {
            reveal(Parser::st);
            assert(peek_at(ks, start) == old(p).peek());
            assert(peek_at(ks, p.pos as int) == p.peek());
        }
    }
    parse_GraphNodePath(p);
    proof {
        assert(call_ok(ks, start, p.st(), rank_AnnotationPath(peek_at(ks, p.st().pos)), rank_ObjectPath(peek_at(ks, start)))) by {
            reveal(Parser::st);
            assert(peek_at(ks, start) == old(p).peek());
            assert(peek_at(ks, p.pos as int) == p.peek());
        }
    }
    parse_AnnotationPath(p);
    p.close(marker, SyntaxKind::ObjectPath);
    proof {
        assert(rule_ObjectPath(ks, s0) == p.st()) by {
            reveal_with_fuel(rule_ObjectPath, 1); reveal_with_fuel(rule_AnnotationPath, 1); reveal_with_fuel(rule_GraphNodePath, 1);
        }
    }
}

pub open spec fn rank_GraphNodePath(t: SyntaxKind) -> nat {
    match t {
        SyntaxKind::DoubleLess | SyntaxKind::NIL => 1,
        SyntaxKind::ANON | SyntaxKind::BLANK_NODE_LABEL | SyntaxKind::DoubleLessLParen | SyntaxKind::False | SyntaxKind::IRIREF | SyntaxKind::LBrack | SyntaxKind::LParen | SyntaxKind::True | SyntaxKind::VAR1 | SyntaxKind::VAR2 => 2,
        SyntaxKind::DECIMAL | SyntaxKind::DECIMAL_NEGATIVE | SyntaxKind::DECIMAL_POSITIVE | SyntaxKind::DOUBLE | SyntaxKind::DOUBLE_NEGATIVE | SyntaxKind::DOUBLE_POSITIVE | SyntaxKind::INTEGER | SyntaxKind::INTEGER_NEGATIVE | SyntaxKind::INTEGER_POSITIVE | SyntaxKind::PNAME_LN | SyntaxKind::PNAME_NS | SyntaxKind::STRING_LITERAL1 | SyntaxKind::STRING_LITERAL2 | SyntaxKind::STRING_LITERAL_LONG1 | SyntaxKind::STRING_LITERAL_LONG2 => 3,
        _ => 0,
    }
}

/// What [`parse_GraphNodePath`] makes of the parser state.
#[verifier::opaque]
pub open spec fn rule_GraphNodePath(ts: Seq<SyntaxKind>, s: St) -> St
    decreases ts.len() - s.pos, rank_GraphNodePath(peek_at(ts, s.pos)), 32 * (ts.len() - s.pos) + 32,
{
    let start = s.pos;
    let s_in = s;
    let m_marker = s.evs.len() as int;
    let s = st_open(s);
    let (s, r) = if s_in.pos <= s.pos <= ts.len() {
        match_GraphNodePath_1(ts, start, m_marker, s)
    } else {
        (s, false)
    };
    if r {
        s
    } else {
        let s = st_close(s, m_marker, SyntaxKind::GraphNodePath);
        s
    }
}

#[verifier::opaque]
pub open spec fn match_GraphNodePath_1(ts: Seq<SyntaxKind>, start: int, m_marker: int, s: St) -> (St, bool)
    decreases ts.len() - start, rank_GraphNodePath(peek_at(ts, start)), 32 * (ts.len() - s.pos) + 32 - 1,
{
    let s_in = s;
    if (peek_at(ts, s.pos) == SyntaxKind::IRIREF || peek_at(ts, s.pos) == SyntaxKind::PNAME_NS || peek_at(ts, s.pos) == SyntaxKind::STRING_LITERAL1 || peek_at(ts, s.pos) == SyntaxKind::STRING_LITERAL2 || peek_at(ts, s.pos) == SyntaxKind::INTEGER || peek_at(ts, s.pos) == SyntaxKind::NIL || peek_at(ts, s.pos) == SyntaxKind::DoubleLessLParen || peek_at(ts, s.pos) == SyntaxKind::VAR1 || peek_at(ts, s.pos) == SyntaxKind::VAR2 || peek_at(ts, s.pos) == SyntaxKind::DECIMAL || peek_at(ts, s.pos) == SyntaxKind::DOUBLE || peek_at(ts, s.pos) == SyntaxKind::INTEGER_POSITIVE || peek_at(ts, s.pos) == SyntaxKind::DECIMAL_POSITIVE || peek_at(ts, s.pos) == SyntaxKind::DOUBLE_POSITIVE || peek_at(ts, s.pos) == SyntaxKind::INTEGER_NEGATIVE || peek_at(ts, s.pos) == SyntaxKind::DECIMAL_NEGATIVE || peek_at(ts, s.pos) == SyntaxKind::DOUBLE_NEGATIVE || peek_at(ts, s.pos) == SyntaxKind::True || peek_at(ts, s.pos) == SyntaxKind::False || peek_at(ts, s.pos) == SyntaxKind::STRING_LITERAL_LONG1 || peek_at(ts, s.pos) == SyntaxKind::STRING_LITERAL_LONG2 || peek_at(ts, s.pos) == SyntaxKind::PNAME_LN || peek_at(ts, s.pos) == SyntaxKind::BLANK_NODE_LABEL || peek_at(ts, s.pos) == SyntaxKind::ANON) {
        let s = if call_ok(ts, start, s, rank_VarOrTerm(peek_at(ts, s.pos)), rank_GraphNodePath(peek_at(ts, start))) {
            rule_VarOrTerm(ts, s)
        } else {
            s
        };
        (s, false)
    } else if (peek_at(ts, s.pos) == SyntaxKind::LParen || peek_at(ts, s.pos) == SyntaxKind::LBrack) {
        let s = if call_ok(ts, start, s, rank_TriplesNodePath(peek_at(ts, s.pos)), rank_GraphNodePath(peek_at(ts, start))) {
            rule_TriplesNodePath(ts, s)
        } else {
            s
        };
        (s, false)
    } else if (peek_at(ts, s.pos) == SyntaxKind::DoubleLess) {
        let s = if call_ok(ts, start, s, rank_ReifiedTriple(peek_at(ts, s.pos)), rank_GraphNodePath(peek_at(ts, start))) {
            rule_ReifiedTriple(ts, s)
        } else {
            s
        };
        (s, false)
    } else if (peek_at(ts, s.pos) == SyntaxKind::Eof) {
        let s = st_close(s, m_marker, SyntaxKind::GraphNodePath);
        let m_marker = s.evs.len() as int;
        let s = st_open(s);
        let s = st_close(s, m_marker, SyntaxKind::Error);
        (s, true)
    } else {
        let s = st_advance_with_error(ts, s, seq![SyntaxKind::IRIREF, SyntaxKind::PNAME_NS, SyntaxKind::STRING_LITERAL1, SyntaxKind::STRING_LITERAL2, SyntaxKind::INTEGER, SyntaxKind::NIL, SyntaxKind::DoubleLessLParen, SyntaxKind::VAR1, SyntaxKind::VAR2, SyntaxKind::DECIMAL, SyntaxKind::DOUBLE, SyntaxKind::INTEGER_POSITIVE, SyntaxKind::DECIMAL_POSITIVE, SyntaxKind::DOUBLE_POSITIVE, SyntaxKind::INTEGER_NEGATIVE, SyntaxKind::DECIMAL_NEGATIVE, SyntaxKind::DOUBLE_NEGATIVE, SyntaxKind::True, SyntaxKind::False, SyntaxKind::STRING_LITERAL_LONG1, SyntaxKind::STRING_LITERAL_LONG2, SyntaxKind::PNAME_LN, SyntaxKind::BLANK_NODE_LABEL, SyntaxKind::ANON, SyntaxKind::LParen, SyntaxKind::LBrack, SyntaxKind::DoubleLess]);
        (s, false)
    }
}

/// [111] GraphNodePath -> VarOrTerm | TriplesNodePath | ReifiedTriple
pub(crate) fn parse_GraphNodePath(p: &mut Parser)
    requires
        old(p).wf(),
    ensures
        Parser::step(*old(p), *final(p)),
        final(p).pos == old(p).pos ==> is_sync_point(old(p).peek()),
        old(p).events@.len() < final(p).events@.len(),
        final(p).events@[old(p).events@.len() as int] == (Event::Open { kind: SyntaxKind::GraphNodePath }),
        final(p).events@.last() is Close,
        final(p).st() == rule_GraphNodePath(old(p).kinds(), old(p).st()),
    decreases old(p).remaining(), rank_GraphNodePath(old(p).peek()), 1int,
{
    let ghost ks = p.kinds();
    let ghost s0 = p.st();
    let ghost start = p.pos as int;
    let marker = p.open();
    let ghost gm1 = marker.index as int;
    let ghost pre1 = p.st();
    match p.nth(0) {
        SyntaxKind::IRIREF | SyntaxKind::PNAME_NS | SyntaxKind::STRING_LITERAL1 | SyntaxKind::STRING_LITERAL2 | SyntaxKind::INTEGER | SyntaxKind::NIL | SyntaxKind::DoubleLessLParen | SyntaxKind::VAR1 | SyntaxKind::VAR2 | SyntaxKind::DECIMAL | SyntaxKind::DOUBLE | SyntaxKind::INTEGER_POSITIVE | SyntaxKind::DECIMAL_POSITIVE | SyntaxKind::DOUBLE_POSITIVE | SyntaxKind::INTEGER_NEGATIVE | SyntaxKind::DECIMAL_NEGATIVE | SyntaxKind::DOUBLE_NEGATIVE | SyntaxKind::True | SyntaxKind::False | SyntaxKind::STRING_LITERAL_LONG1 | SyntaxKind::STRING_LITERAL_LONG2 | SyntaxKind::PNAME_LN | SyntaxKind::BLANK_NODE_LABEL | SyntaxKind::ANON => {
            proof {
                assert(call_ok(ks, start, p.st(), rank_VarOrTerm(peek_at(ks, p.st().pos)), rank_GraphNodePath(peek_at(ks, start)))) by {
                    reveal(Parser::st);
                    assert(peek_at(ks, start) == old(p).peek());
                    assert(peek_at(ks, p.pos as int) == p.peek());
                }
            }
            parse_VarOrTerm(p);
            proof {
                assert(match_GraphNodePath_1(ks, start, gm1, pre1) == (p.st(), false)) by {
                    reveal_with_fuel(match_GraphNodePath_1, 1); reveal_with_fuel(rule_VarOrTerm, 1);
                }
            }
        },
        SyntaxKind::LParen | SyntaxKind::LBrack => {
            proof {
                assert(call_ok(ks, start, p.st(), rank_TriplesNodePath(peek_at(ks, p.st().pos)), rank_GraphNodePath(peek_at(ks, start)))) by {
                    reveal(Parser::st);
                    assert(peek_at(ks, start) == old(p).peek());
                    assert(peek_at(ks, p.pos as int) == p.peek());
                }
            }
            parse_TriplesNodePath(p);
            proof {
                assert(match_GraphNodePath_1(ks, start, gm1, pre1) == (p.st(), false)) by {
                    reveal_with_fuel(match_GraphNodePath_1, 1); reveal_with_fuel(rule_TriplesNodePath, 1);
                }
            }
        },
        SyntaxKind::DoubleLess => {
            proof {
                assert(call_ok(ks, start, p.st(), rank_ReifiedTriple(peek_at(ks, p.st().pos)), rank_GraphNodePath(peek_at(ks, start)))) by {
                    reveal(Parser::st);
                    assert(peek_at(ks, start) == old(p).peek());
                    assert(peek_at(ks, p.pos as int) == p.peek());
                }
            }
            parse_ReifiedTriple(p);
            proof {
                assert(match_GraphNodePath_1(ks, start, gm1, pre1) == (p.st(), false)) by {
                    reveal_with_fuel(match_GraphNodePath_1, 1); reveal_with_fuel(rule_ReifiedTriple, 1);
                }
            }
        },
        SyntaxKind::Eof => {
            p.close(marker, SyntaxKind::GraphNodePath);
            let marker = p.open();
            let ghost gm2 = marker.index as int;
            p.close(marker, SyntaxKind::Error);
            proof {
                assert(match_GraphNodePath_1(ks, start, gm1, pre1) == (p.st(), true)) by {
                    reveal_with_fuel(match_GraphNodePath_1, 1);
                }
            }
            proof {
                assert(rule_GraphNodePath(ks, s0) == p.st()) by {
                    reveal_with_fuel(rule_GraphNodePath, 1); reveal_with_fuel(match_GraphNodePath_1, 1);
                }
            }
            return ;
        },
        _ => {
            p.advance_with_error(vec![SyntaxKind::IRIREF, SyntaxKind::PNAME_NS, SyntaxKind::STRING_LITERAL1, SyntaxKind::STRING_LITERAL2, SyntaxKind::INTEGER, SyntaxKind::NIL, SyntaxKind::DoubleLessLParen, SyntaxKind::VAR1, SyntaxKind::VAR2, SyntaxKind::DECIMAL, SyntaxKind::DOUBLE, SyntaxKind::INTEGER_POSITIVE, SyntaxKind::DECIMAL_POSITIVE, SyntaxKind::DOUBLE_POSITIVE, SyntaxKind::INTEGER_NEGATIVE, SyntaxKind::DECIMAL_NEGATIVE, SyntaxKind::DOUBLE_NEGATIVE, SyntaxKind::True, SyntaxKind::False, SyntaxKind::STRING_LITERAL_LONG1, SyntaxKind::STRING_LITERAL_LONG2, SyntaxKind::PNAME_LN, SyntaxKind::BLANK_NODE_LABEL, SyntaxKind::ANON, SyntaxKind::LParen, SyntaxKind::LBrack, SyntaxKind::DoubleLess]);
            proof {
                assert(match_GraphNodePath_1(ks, start, gm1, pre1) == (p.st(), false)) by {
                    reveal_with_fuel(match_GraphNodePath_1, 1);
                }
            }
        },
    }
    p.close(marker, SyntaxKind::GraphNodePath);
    proof {
        assert(rule_GraphNodePath(ks, s0) == p.st()) by {
            reveal_with_fuel(rule_GraphNodePath, 1); reveal_with_fuel(match_GraphNodePath_1, 1);
        }
    }
}

pub open spec fn rank_AnnotationPath(t: SyntaxKind) -> nat {
    match t {
        SyntaxKind::LCurlyPipe | SyntaxKind::Tilde => 1,
        _ => 0,
    }
}

/// What [`parse_AnnotationPath`] makes of the parser state.
#[verifier::opaque]
pub open spec fn rule_AnnotationPath(ts: Seq<SyntaxKind>, s: St) -> St
    decreases ts.len() - s.pos, rank_AnnotationPath(peek_at(ts, s.pos)), 32 * (ts.len() - s.pos) + 32,
{
    let start = s.pos;
    let s_in = s;
    let (s, r) = if s_in.pos <= s.pos <= ts.len() {
        if_AnnotationPath_1(ts, start, s)
    } else {
        (s, false)
    };
    if r {
        s
    } else {
        let m_marker = s.evs.len() as int;
        let s = st_open(s);
        let (s, r) = if s_in.pos <= s.pos <= ts.len() {
            loop_AnnotationPath_2(ts, start, m_marker, s)
        } else {
            (s, false)
        };
        if r {
            s
        } else {
            let s = st_close(s, m_marker, SyntaxKind::AnnotationPath);
            s
        }
    }
}

#[verifier::opaque]
pub open spec fn if_AnnotationPath_1(ts: Seq<SyntaxKind>, start: int, s: St) -> (St, bool)
    decreases ts.len() - start, rank_AnnotationPath(peek_at(ts, start)), 32 * (ts.len() - s.pos) + 32 - 1,
{
    let s_in = s;
    if !(peek_at(ts, s.pos) == SyntaxKind::Tilde || peek_at(ts, s.pos) == SyntaxKind::LCurlyPipe) {
        (s, true)
    } else {
        (s, false)
    }
}

#[verifier::opaque]
pub open spec fn match_AnnotationPath_4(ts: Seq<SyntaxKind>, start: int, m_marker: int, s: St) -> (St, bool)
    decreases ts.len() - start, rank_AnnotationPath(peek_at(ts, start)), 32 * (ts.len() - s.pos) + 32 - 3,
{
    let s_in = s;
    if (peek_at(ts, s.pos) == SyntaxKind::Tilde) {
        let s = rule_Reifier(ts, s);
        (s, false)
    } else if (peek_at(ts, s.pos) == SyntaxKind::LCurlyPipe) {
        let s = if call_ok(ts, start, s, rank_AnnotationBlockPath(peek_at(ts, s.pos)), rank_AnnotationPath(peek_at(ts, start))) {
            rule_AnnotationBlockPath(ts, s)
        } else {
            s
        };
        (s, false)
    } else if (peek_at(ts, s.pos) == SyntaxKind::Eof) {
        let s = st_close(s, m_marker, SyntaxKind::AnnotationPath);
        let m_marker = s.evs.len() as int;
        let s = st_open(s);
        let s = st_close(s, m_marker, SyntaxKind::Error);
        (s, true)
    } else {
        let s = st_advance_with_error(ts, s, seq![SyntaxKind::Tilde, SyntaxKind::LCurlyPipe]);
        (s, false)
    }
}

#[verifier::opaque]
pub open spec fn loop_AnnotationPath_2(ts: Seq<SyntaxKind>, start: int, m_marker: int, s: St) -> (St, bool)
    decreases ts.len() - start, rank_AnnotationPath(peek_at(ts, start)), 32 * (ts.len() - s.pos) + 32 - 1,
{
    let s_in = s;
    if (peek_at(ts, s.pos) == SyntaxKind::Tilde || peek_at(ts, s.pos) == SyntaxKind::LCurlyPipe) && s.pos <= ts.len() {
        let (s1, r) = body_AnnotationPath_3(ts, start, m_marker, s);
        if r {
            (s1, true)
        } else if s1.pos == s.pos {
            (s1, false)
        } else if s.pos < s1.pos <= ts.len() {
            loop_AnnotationPath_2(ts, start, m_marker, s1)
        } else {
            (s1, false)
        }
    } else {
        (s, false)
    }
}

#[verifier::opaque]
pub open spec fn body_AnnotationPath_3(ts: Seq<SyntaxKind>, start: int, m_marker: int, s: St) -> (St, bool)
    decreases ts.len() - start, rank_AnnotationPath(peek_at(ts, start)), 32 * (ts.len() - s.pos) + 32 - 2,
{
    let s_in = s;
    let (s, r) = if s_in.pos <= s.pos <= ts.len() {
        match_AnnotationPath_4(ts, start, m_marker, s)
    } else {
        (s, false)
    };
    if r {
        (s, true)
    } else {
        (s, false)
    }
}

/// [112] AnnotationPath -> (Reifier | AnnotationBlockPath)*
pub(crate) fn parse_AnnotationPath(p: &mut Parser)
    requires
        old(p).wf(),
    ensures
        Parser::step(*old(p), *final(p)),
        final(p).pos == old(p).pos ==> !(old(p).peek() == SyntaxKind::Tilde || old(p).peek() == SyntaxKind::LCurlyPipe),
        !(old(p).peek() == SyntaxKind::Tilde || old(p).peek() == SyntaxKind::LCurlyPipe) ==> *final(p) == *old(p),
        old(p).events@.len() < final(p).events@.len() ==> final(p).events@[old(p).events@.len() as int] == (Event::Open {
            kind: SyntaxKind::AnnotationPath,
        }) && final(p).events@.last() is Close,
        final(p).st() == rule_AnnotationPath(old(p).kinds(), old(p).st()),
    decreases old(p).remaining(), rank_AnnotationPath(old(p).peek()), 1int,
{
    let ghost ks = p.kinds();
    let ghost s0 = p.st();
    let ghost start = p.pos as int;
    let mut returned: bool = false;
    let ghost pre1 = p.st();
    if !p.at_any(&[SyntaxKind::Tilde, SyntaxKind::LCurlyPipe]) {
        proof {
            assert(if_AnnotationPath_1(ks, start, pre1) == (p.st(), true)) by {
                reveal_with_fuel(if_AnnotationPath_1, 1);
            }
        }
        proof {
            assert(rule_AnnotationPath(ks, s0) == p.st()) by {
                reveal_with_fuel(rule_AnnotationPath, 1); reveal_with_fuel(if_AnnotationPath_1, 1); reveal_with_fuel(loop_AnnotationPath_2, 1);
            }
        }
        return ;
    } else {
        proof {
            assert(if_AnnotationPath_1(ks, start, pre1) == (p.st(), false)) by {
                reveal_with_fuel(if_AnnotationPath_1, 1);
            }
        }
    }
    let marker = p.open();
    let ghost gm1 = marker.index as int;
    let ghost pre2 = p.st();
    proof {
        assert(p.st().pos == p.pos as int) by {
            reveal(Parser::st);
        }
        if !(peek_at(ks, p.st().pos) == SyntaxKind::Tilde || peek_at(ks, p.st().pos) == SyntaxKind::LCurlyPipe) {
            assert(loop_AnnotationPath_2(ks, start, gm1, pre2) == (pre2, false)) by {
                reveal_with_fuel(loop_AnnotationPath_2, 1); reveal_with_fuel(body_AnnotationPath_3, 1);
            }
        }
    }
    while p.at_any(&[SyntaxKind::Tilde, SyntaxKind::LCurlyPipe])
        invariant_except_break
            !returned,
        invariant
            marker.index == old(p).events@.len(),
            p.wf(),
            p.tokens@ == old(p).tokens@,
            old(p).pos <= p.pos,
            p.stack() == old(p).stack().push(marker.index as int),
            old(p).peek() == SyntaxKind::LCurlyPipe || old(p).peek() == SyntaxKind::Tilde,
            ks == p.kinds(),
            p.st().pos == p.pos as int,
            start == old(p).pos as int,
            gm1 == marker.index as int,
            pre2.pos <= p.pos,
            start <= pre2.pos,
            loop_AnnotationPath_2(ks, start, gm1, p.st()) == loop_AnnotationPath_2(ks, start, gm1, pre2),
            !(peek_at(ks, p.st().pos) == SyntaxKind::Tilde || peek_at(ks, p.st().pos) == SyntaxKind::LCurlyPipe) ==> loop_AnnotationPath_2(ks, start, gm1, p.st()) == (p.st(), false),
        ensures
            p.pos > old(p).pos,
            returned ==> (Parser::step(*old(p), *p)),
            returned ==> (p.pos == old(p).pos ==> !(old(p).peek() == SyntaxKind::Tilde || old(p).peek() == SyntaxKind::LCurlyPipe)),
            returned ==> (!(old(p).peek() == SyntaxKind::Tilde || old(p).peek() == SyntaxKind::LCurlyPipe) ==> *p == *old(p)),
            returned ==> (old(p).events@.len() < p.events@.len() ==> p.events@[old(p).events@.len() as int] == (Event::Open { kind: SyntaxKind::AnnotationPath, }) && p.events@.last() is Close),
            loop_AnnotationPath_2(ks, start, gm1, pre2) == (p.st(), returned),
        decreases p.remaining(),
    {
        let ghost si2 = p.st();
        let checkpoint1 = p.pos();
        let ghost pre3 = p.st();
        match p.nth(0) {
            SyntaxKind::Tilde => {
                parse_Reifier(p);
                proof {
                    assert(match_AnnotationPath_4(ks, start, gm1, pre3) == (p.st(), false)) by {
                        reveal_with_fuel(match_AnnotationPath_4, 1);
                    }
                }
            },
            SyntaxKind::LCurlyPipe => {
                proof {
                    assert(call_ok(ks, start, p.st(), rank_AnnotationBlockPath(peek_at(ks, p.st().pos)), rank_AnnotationPath(peek_at(ks, start)))) by {
                        reveal(Parser::st);
                        assert(peek_at(ks, start) == old(p).peek());
                        assert(peek_at(ks, p.pos as int) == p.peek());
                    }
                }
                parse_AnnotationBlockPath(p);
                proof {
                    assert(match_AnnotationPath_4(ks, start, gm1, pre3) == (p.st(), false)) by {
                        reveal_with_fuel(match_AnnotationPath_4, 1); reveal_with_fuel(rule_AnnotationBlockPath, 1);
                    }
                }
            },
            SyntaxKind::Eof => {
                p.close(marker, SyntaxKind::AnnotationPath);
                let marker = p.open();
                let ghost gm2 = marker.index as int;
                p.close(marker, SyntaxKind::Error);
                proof {
                    assert(match_AnnotationPath_4(ks, start, gm1, pre3) == (p.st(), true)) by {
                        reveal_with_fuel(match_AnnotationPath_4, 1);
                    }
                }
                proof {
                    assert(body_AnnotationPath_3(ks, start, gm1, si2) == (p.st(), true)) by {
                        reveal_with_fuel(body_AnnotationPath_3, 1); reveal_with_fuel(match_AnnotationPath_4, 1);
                    }
                }
                proof {
                    assert(loop_AnnotationPath_2(ks, start, gm1, si2) == (p.st(), true)) by {
                        reveal_with_fuel(loop_AnnotationPath_2, 1); reveal_with_fuel(body_AnnotationPath_3, 1);
                    }
                }
                returned = true;
                break;
            },
            _ => {
                p.advance_with_error(vec![SyntaxKind::Tilde, SyntaxKind::LCurlyPipe]);
                proof {
                    assert(match_AnnotationPath_4(ks, start, gm1, pre3) == (p.st(), false)) by {
                        reveal_with_fuel(match_AnnotationPath_4, 1);
                    }
                }
            },
        }
        proof {
            assert(body_AnnotationPath_3(ks, start, gm1, si2) == (p.st(), false)) by {
                reveal_with_fuel(body_AnnotationPath_3, 1); reveal_with_fuel(match_AnnotationPath_4, 1);
            }
        }
        if p.pos() == checkpoint1 {
            proof {
                assert(loop_AnnotationPath_2(ks, start, gm1, si2) == (p.st(), false)) by {
                    reveal_with_fuel(loop_AnnotationPath_2, 1); reveal_with_fuel(body_AnnotationPath_3, 1);
                }
            }
            break;
        }
        proof {
            assert(p.st().pos == p.pos as int) by {
                reveal(Parser::st);
            }
            assert(loop_AnnotationPath_2(ks, start, gm1, si2) == loop_AnnotationPath_2(ks, start, gm1, p.st())) by {
                reveal_with_fuel(loop_AnnotationPath_2, 1); reveal_with_fuel(body_AnnotationPath_3, 1);
                reveal(Parser::st);
            }
            if !(peek_at(ks, p.st().pos) == SyntaxKind::Tilde || peek_at(ks, p.st().pos) == SyntaxKind::LCurlyPipe) {
                assert(loop_AnnotationPath_2(ks, start, gm1, p.st()) == (p.st(), false)) by {
                    reveal_with_fuel(loop_AnnotationPath_2, 1); reveal_with_fuel(body_AnnotationPath_3, 1);
                }
            }
        }
    }
    if returned {
        proof {
            assert(rule_AnnotationPath(ks, s0) == p.st()) by {
                reveal_with_fuel(rule_AnnotationPath, 1); reveal_with_fuel(if_AnnotationPath_1, 1); reveal_with_fuel(loop_AnnotationPath_2, 1);
            }
        }
        return ;
    }
    p.close(marker, SyntaxKind::AnnotationPath);
    proof {
        assert(rule_AnnotationPath(ks, s0) == p.st()) by {
            reveal_with_fuel(rule_AnnotationPath, 1); reveal_with_fuel(if_AnnotationPath_1, 1); reveal_with_fuel(loop_AnnotationPath_2, 1);
        }
    }
}

pub open spec fn rank_PathAlternative(t: SyntaxKind) -> nat {
    match t {
        SyntaxKind::ExclamationMark | SyntaxKind::LParen | SyntaxKind::a => 4,
        SyntaxKind::IRIREF => 5,
        SyntaxKind::PNAME_LN | SyntaxKind::PNAME_NS => 6,
        _ => 2,
    }
}

/// What [`parse_PathAlternative`] makes of the parser state.
#[verifier::opaque]
pub open spec fn rule_PathAlternative(ts: Seq<SyntaxKind>, s: St) -> St
    decreases ts.len() - s.pos, rank_PathAlternative(peek_at(ts, s.pos)), 32 * (ts.len() - s.pos) + 32,
{
    let start = s.pos;
    let s_in = s;
    let m_marker = s.evs.len() as int;
    let s = st_open(s);
    let s = if call_ok(ts, start, s, rank_PathSequence(peek_at(ts, s.pos)), rank_PathAlternative(peek_at(ts, start))) {
        rule_PathSequence(ts, s)
    } else {
        s
    };
    let s = if s_in.pos <= s.pos <= ts.len() {
        loop_PathAlternative_1(ts, start, m_marker, s)
    } else {
        s
    };
    let s = st_close(s, m_marker, SyntaxKind::PathAlternative);
    s
}

#[verifier::opaque]
pub open spec fn loop_PathAlternative_1(ts: Seq<SyntaxKind>, start: int, m_marker: int, s: St) -> St
    decreases ts.len() - start, rank_PathAlternative(peek_at(ts, start)), 32 * (ts.len() - s.pos) + 32 - 1,
{
    let s_in = s;
    if (peek_at(ts, s.pos) == SyntaxKind::Pipe) && s.pos <= ts.len() {
        let s1 = body_PathAlternative_2(ts, start, m_marker, s);
        if s1.pos == s.pos {
            s1
        } else if s.pos < s1.pos <= ts.len() {
            loop_PathAlternative_1(ts, start, m_marker, s1)
        } else {
            s1
        }
    } else {
        s
    }
}

#[verifier::opaque]
pub open spec fn body_PathAlternative_2(ts: Seq<SyntaxKind>, start: int, m_marker: int, s: St) -> St
    decreases ts.len() - start, rank_PathAlternative(peek_at(ts, start)), 32 * (ts.len() - s.pos) + 32 - 2,
{
    let s_in = s;
    let s = st_expect(ts, s, SyntaxKind::Pipe);
    let s = if call_ok(ts, start, s, rank_PathSequence(peek_at(ts, s.pos)), rank_PathAlternative(peek_at(ts, start))) {
        rule_PathSequence(ts, s)
    } else {
        s
    };
    s
}

/// [113] PathAlternative -> PathSequence ('|' PathSequence)*
pub(crate) fn parse_PathAlternative(p: &mut Parser)
    requires
        old(p).wf(),
    ensures
        Parser::step(*old(p), *final(p)),
        final(p).pos == old(p).pos ==> is_sync_point(old(p).peek()),
        old(p).events@.len() < final(p).events@.len(),
        final(p).events@[old(p).events@.len() as int] == (Event::Open { kind: SyntaxKind::PathAlternative }),
        final(p).events@.last() is Close,
        final(p).st() == rule_PathAlternative(old(p).kinds(), old(p).st()),
    decreases old(p).remaining(), rank_PathAlternative(old(p).peek()), 1int,
{
    let ghost ks = p.kinds();
    let ghost s0 = p.st();
    let ghost start = p.pos as int;
    let marker = p.open();
    let ghost gm1 = marker.index as int;
    proof {
        assert(call_ok(ks, start, p.st(), rank_PathSequence(peek_at(ks, p.st().pos)), rank_PathAlternative(peek_at(ks, start)))) by {
            reveal(Parser::st);
            assert(peek_at(ks, start) == old(p).peek());
            assert(peek_at(ks, p.pos as int) == p.peek());
        }
    }
    parse_PathSequence(p);
    let ghost pre1 = p.st();
    proof {
        assert(p.st().pos == p.pos as int) by {
            reveal(Parser::st);
        }
        if !(peek_at(ks, p.st().pos) == SyntaxKind::Pipe) {
            assert(loop_PathAlternative_1(ks, start, gm1, pre1) == pre1) by {
                reveal_with_fuel(loop_PathAlternative_1, 1); reveal_with_fuel(body_PathAlternative_2, 1);
            }
        }
    }
    while p.at_any(&[SyntaxKind::Pipe])
        invariant
            marker.index == old(p).events@.len(),
            p.wf(),
            p.tokens@ == old(p).tokens@,
            old(p).pos <= p.pos,
            p.stack() == old(p).stack().push(marker.index as int),
            p.pos == old(p).pos ==> is_sync_point(old(p).peek()),
            ks == p.kinds(),
            p.st().pos == p.pos as int,
            start == old(p).pos as int,
            gm1 == marker.index as int,
            pre1.pos <= p.pos,
            start <= pre1.pos,
            loop_PathAlternative_1(ks, start, gm1, p.st()) == loop_PathAlternative_1(ks, start, gm1, pre1),
            !(peek_at(ks, p.st().pos) == SyntaxKind::Pipe) ==> loop_PathAlternative_1(ks, start, gm1, p.st()) == p.st(),
        ensures
            loop_PathAlternative_1(ks, start, gm1, pre1) == p.st(),
        decreases p.remaining(),
    {
        let ghost si1 = p.st();
        let checkpoint1 = p.pos();
        p.expect(SyntaxKind::Pipe);
        proof {
            assert(call_ok(ks, start, p.st(), rank_PathSequence(peek_at(ks, p.st().pos)), rank_PathAlternative(peek_at(ks, start)))) by {
                reveal(Parser::st);
                assert(peek_at(ks, start) == old(p).peek());
                assert(peek_at(ks, p.pos as int) == p.peek());
            }
        }
        parse_PathSequence(p);
        proof {
            assert(body_PathAlternative_2(ks, start, gm1, si1) == p.st()) by {
                reveal_with_fuel(body_PathAlternative_2, 1); reveal_with_fuel(rule_PathSequence, 1);
            }
        }
        if p.pos() == checkpoint1 {
            proof {
                assert(loop_PathAlternative_1(ks, start, gm1, si1) == p.st()) by {
                    reveal_with_fuel(loop_PathAlternative_1, 1); reveal_with_fuel(body_PathAlternative_2, 1);
                }
            }
            break;
        }
        proof {
            assert(p.st().pos == p.pos as int) by {
                reveal(Parser::st);
            }
            assert(loop_PathAlternative_1(ks, start, gm1, si1) == loop_PathAlternative_1(ks, start, gm1, p.st())) by {
                reveal_with_fuel(loop_PathAlternative_1, 1); reveal_with_fuel(body_PathAlternative_2, 1);
                reveal(Parser::st);
            }
            if !(peek_at(ks, p.st().pos) == SyntaxKind::Pipe) {
                assert(loop_PathAlternative_1(ks, start, gm1, p.st()) == p.st()) by {
                    reveal_with_fuel(loop_PathAlternative_1, 1); reveal_with_fuel(body_PathAlternative_2, 1);
                }
            }
        }
    }
    p.close(marker, SyntaxKind::PathAlternative);
    proof {
        assert(rule_PathAlternative(ks, s0) == p.st()) by {
            reveal_with_fuel(rule_PathAlternative, 1); reveal_with_fuel(loop_PathAlternative_1, 1); reveal_with_fuel(rule_PathSequence, 1);
        }
    }
}

pub open spec fn rank_PathSequence(t: SyntaxKind) -> nat {
    match t {
        SyntaxKind::ExclamationMark | SyntaxKind::LParen | SyntaxKind::a => 3,
        SyntaxKind::IRIREF => 4,
        SyntaxKind::PNAME_LN | SyntaxKind::PNAME_NS => 5,
        _ => 1,
    }
}

/// What [`parse_PathSequence`] makes of the parser state.
#[verifier::opaque]
pub open spec fn rule_PathSequence(ts: Seq<SyntaxKind>, s: St) -> St
    decreases ts.len() - s.pos, rank_PathSequence(peek_at(ts, s.pos)), 32 * (ts.len() - s.pos) + 32,
{
    let start = s.pos;
    let s_in = s;
    let m_marker = s.evs.len() as int;
    let s = st_open(s);
    let s = if call_ok(ts, start, s, rank_PathEltOrInverse(peek_at(ts, s.pos)), rank_PathSequence(peek_at(ts, start))) {
        rule_PathEltOrInverse(ts, s)
    } else {
        s
    };
    let s = if s_in.pos <= s.pos <= ts.len() {
        loop_PathSequence_1(ts, start, m_marker, s)
    } else {
        s
    };
    let s = st_close(s, m_marker, SyntaxKind::PathSequence);
    s
}

#[verifier::opaque]
pub open spec fn loop_PathSequence_1(ts: Seq<SyntaxKind>, start: int, m_marker: int, s: St) -> St
    decreases ts.len() - start, rank_PathSequence(peek_at(ts, start)), 32 * (ts.len() - s.pos) + 32 - 1,
{
    let s_in = s;
    if (peek_at(ts, s.pos) == SyntaxKind::Slash) && s.pos <= ts.len() {
        let s1 = body_PathSequence_2(ts, start, m_marker, s);
        if s1.pos == s.pos {
            s1
        } else if s.pos < s1.pos <= ts.len() {
            loop_PathSequence_1(ts, start, m_marker, s1)
        } else {
            s1
        }
    } else {
        s
    }
}

#[verifier::opaque]
pub open spec fn body_PathSequence_2(ts: Seq<SyntaxKind>, start: int, m_marker: int, s: St) -> St
    decreases ts.len() - start, rank_PathSequence(peek_at(ts, start)), 32 * (ts.len() - s.pos) + 32 - 2,
{
    let s_in = s;
    let s = st_expect(ts, s, SyntaxKind::Slash);
    let s = if call_ok(ts, start, s, rank_PathEltOrInverse(peek_at(ts, s.pos)), rank_PathSequence(peek_at(ts, start))) {
        rule_PathEltOrInverse(ts, s)
    } else {
        s
    };
    s
}

/// [114] PathSequence -> PathEltOrInverse ('/' PathEltOrInverse)*
pub(crate) fn parse_PathSequence(p: &mut Parser)
    requires
        old(p).wf(),
    ensures
        Parser::step(*old(p), *final(p)),
        final(p).pos == old(p).pos ==> is_sync_point(old(p).peek()),
        old(p).events@.len() < final(p).events@.len(),
        final(p).events@[old(p).events@.len() as int] == (Event::Open { kind: SyntaxKind::PathSequence }),
        final(p).events@.last() is Close,
        final(p).st() == rule_PathSequence(old(p).kinds(), old(p).st()),
    decreases old(p).remaining(), rank_PathSequence(old(p).peek()), 1int,
{
    let ghost ks = p.kinds();
    let ghost s0 = p.st();
    let ghost start = p.pos as int;
    let marker = p.open();
    let ghost gm1 = marker.index as int;
    proof {
        assert(call_ok(ks, start, p.st(), rank_PathEltOrInverse(peek_at(ks, p.st().pos)), rank_PathSequence(peek_at(ks, start)))) by {
            reveal(Parser::st);
            assert(peek_at(ks, start) == old(p).peek());
            assert(peek_at(ks, p.pos as int) == p.peek());
        }
    }
    parse_PathEltOrInverse(p);
    let ghost pre1 = p.st();
    proof {
        assert(p.st().pos == p.pos as int) by {
            reveal(Parser::st);
        }
        if !(peek_at(ks, p.st().pos) == SyntaxKind::Slash) {
            assert(loop_PathSequence_1(ks, start, gm1, pre1) == pre1) by {
                reveal_with_fuel(loop_PathSequence_1, 1); reveal_with_fuel(body_PathSequence_2, 1);
            }
        }
    }
    while p.at_any(&[SyntaxKind::Slash])
        invariant
            marker.index == old(p).events@.len(),
            p.wf(),
            p.tokens@ == old(p).tokens@,
            old(p).pos <= p.pos,
            p.stack() == old(p).stack().push(marker.index as int),
            p.pos == old(p).pos ==> is_sync_point(old(p).peek()),
            ks == p.kinds(),
            p.st().pos == p.pos as int,
            start == old(p).pos as int,
            gm1 == marker.index as int,
            pre1.pos <= p.pos,
            start <= pre1.pos,
            loop_PathSequence_1(ks, start, gm1, p.st()) == loop_PathSequence_1(ks, start, gm1, pre1),
            !(peek_at(ks, p.st().pos) == SyntaxKind::Slash) ==> loop_PathSequence_1(ks, start, gm1, p.st()) == p.st(),
        ensures
            loop_PathSequence_1(ks, start, gm1, pre1) == p.st(),
        decreases p.remaining(),
    {
        let ghost si1 = p.st();
        let checkpoint1 = p.pos();
        p.expect(SyntaxKind::Slash);
        proof {
            assert(call_ok(ks, start, p.st(), rank_PathEltOrInverse(peek_at(ks, p.st().pos)), rank_PathSequence(peek_at(ks, start)))) by {
                reveal(Parser::st);
                assert(peek_at(ks, start) == old(p).peek());
                assert(peek_at(ks, p.pos as int) == p.peek());
            }
        }
        parse_PathEltOrInverse(p);
        proof {
            assert(body_PathSequence_2(ks, start, gm1, si1) == p.st()) by {
                reveal_with_fuel(body_PathSequence_2, 1); reveal_with_fuel(rule_PathEltOrInverse, 1);
            }
        }
        if p.pos() == checkpoint1 {
            proof {
                assert(loop_PathSequence_1(ks, start, gm1, si1) == p.st()) by {
                    reveal_with_fuel(loop_PathSequence_1, 1); reveal_with_fuel(body_PathSequence_2, 1);
                }
            }
            break;
        }
        proof {
            assert(p.st().pos == p.pos as int) by {
                reveal(Parser::st);
            }
            assert(loop_PathSequence_1(ks, start, gm1, si1) == loop_PathSequence_1(ks, start, gm1, p.st())) by {
                reveal_with_fuel(loop_PathSequence_1, 1); reveal_with_fuel(body_PathSequence_2, 1);
                reveal(Parser::st);
            }
            if !(peek_at(ks, p.st().pos) == SyntaxKind::Slash) {
                assert(loop_PathSequence_1(ks, start, gm1, p.st()) == p.st()) by {
                    reveal_with_fuel(loop_PathSequence_1, 1); reveal_with_fuel(body_PathSequence_2, 1);
                }
            }
        }
    }
    p.close(marker, SyntaxKind::PathSequence);
    proof {
        assert(rule_PathSequence(ks, s0) == p.st()) by {
            reveal_with_fuel(rule_PathSequence, 1); reveal_with_fuel(loop_PathSequence_1, 1); reveal_with_fuel(rule_PathEltOrInverse, 1);
        }
    }
}

pub open spec fn rank_PathEltOrInverse(t: SyntaxKind) -> nat {
    match t {
        SyntaxKind::ExclamationMark | SyntaxKind::LParen | SyntaxKind::a => 2,
        SyntaxKind::IRIREF => 3,
        SyntaxKind::PNAME_LN | SyntaxKind::PNAME_NS => 4,
        _ => 0,
    }
}

/// What [`parse_PathEltOrInverse`] makes of the parser state.
#[verifier::opaque]
pub open spec fn rule_PathEltOrInverse(ts: Seq<SyntaxKind>, s: St) -> St
    decreases ts.len() - s.pos, rank_PathEltOrInverse(peek_at(ts, s.pos)), 32 * (ts.len() - s.pos) + 32,
{
    let start = s.pos;
    let s_in = s;
    let m_marker = s.evs.len() as int;
    let s = st_open(s);
    let (s, r) = if s_in.pos <= s.pos <= ts.len() {
        match_PathEltOrInverse_1(ts, start, m_marker, s)
    } else {
        (s, false)
    };
    if r {
        s
    } else {
        let s = st_close(s, m_marker, SyntaxKind::PathEltOrInverse);
        s
    }
}

#[verifier::opaque]
pub open spec fn match_PathEltOrInverse_1(ts: Seq<SyntaxKind>, start: int, m_marker: int, s: St) -> (St, bool)
    decreases ts.len() - start, rank_PathEltOrInverse(peek_at(ts, start)), 32 * (ts.len() - s.pos) + 32 - 1,
{
    let s_in = s;
    if (peek_at(ts, s.pos) == SyntaxKind::IRIREF || peek_at(ts, s.pos) == SyntaxKind::PNAME_NS || peek_at(ts, s.pos) == SyntaxKind::LParen || peek_at(ts, s.pos) == SyntaxKind::a || peek_at(ts, s.pos) == SyntaxKind::ExclamationMark || peek_at(ts, s.pos) == SyntaxKind::PNAME_LN) {
        let s = if call_ok(ts, start, s, rank_PathElt(peek_at(ts, s.pos)), rank_PathEltOrInverse(peek_at(ts, start))) {
            rule_PathElt(ts, s)
        } else {
            s
        };
        (s, false)
    } else if (peek_at(ts, s.pos) == SyntaxKind::Zirkumflex) {
        let s = st_expect(ts, s, SyntaxKind::Zirkumflex);
        let s = if call_ok(ts, start, s, rank_PathElt(peek_at(ts, s.pos)), rank_PathEltOrInverse(peek_at(ts, start))) {
            rule_PathElt(ts, s)
        } else {
            s
        };
        (s, false)
    } else if (peek_at(ts, s.pos) == SyntaxKind::Eof) {
        let s = st_close(s, m_marker, SyntaxKind::PathEltOrInverse);
        let m_marker = s.evs.len() as int;
        let s = st_open(s);
        let s = st_close(s, m_marker, SyntaxKind::Error);
        (s, true)
    } else {
        let s = st_advance_with_error(ts, s, seq![SyntaxKind::IRIREF, SyntaxKind::PNAME_NS, SyntaxKind::LParen, SyntaxKind::a, SyntaxKind::ExclamationMark, SyntaxKind::PNAME_LN, SyntaxKind::Zirkumflex]);
        (s, false)
    }
}

/// [115] PathEltOrInverse -> PathElt | '^' PathElt
pub(crate) fn parse_PathEltOrInverse(p: &mut Parser)
    requires
        old(p).wf(),
    ensures
        Parser::step(*old(p), *final(p)),
        final(p).pos == old(p).pos ==> is_sync_point(old(p).peek()),
        old(p).events@.len() < final(p).events@.len(),
        final(p).events@[old(p).events@.len() as int] == (Event::Open { kind: SyntaxKind::PathEltOrInverse }),
        final(p).events@.last() is Close,
        final(p).st() == rule_PathEltOrInverse(old(p).kinds(), old(p).st()),
    decreases old(p).remaining(), rank_PathEltOrInverse(old(p).peek()), 1int,
{
    let ghost ks = p.kinds();
    let ghost s0 = p.st();
    let ghost start = p.pos as int;
    let marker = p.open();
    let ghost gm1 = marker.index as int;
    let ghost pre1 = p.st();
    match p.nth(0) {
        SyntaxKind::IRIREF | SyntaxKind::PNAME_NS | SyntaxKind::LParen | SyntaxKind::a | SyntaxKind::ExclamationMark | SyntaxKind::PNAME_LN => {
            proof {
                assert(call_ok(ks, start, p.st(), rank_PathElt(peek_at(ks, p.st().pos)), rank_PathEltOrInverse(peek_at(ks, start)))) by {
                    reveal(Parser::st);
                    assert(peek_at(ks, start) == old(p).peek());
                    assert(peek_at(ks, p.pos as int) == p.peek());
                }
            }
            parse_PathElt(p);
            proof {
                assert(match_PathEltOrInverse_1(ks, start, gm1, pre1) == (p.st(), false)) by {
                    reveal_with_fuel(match_PathEltOrInverse_1, 1); reveal_with_fuel(rule_PathElt, 1);
                }
            }
        },
        SyntaxKind::Zirkumflex => {
            p.expect(SyntaxKind::Zirkumflex);
            proof {
                assert(call_ok(ks, start, p.st(), rank_PathElt(peek_at(ks, p.st().pos)), rank_PathEltOrInverse(peek_at(ks, start)))) by {
                    reveal(Parser::st);
                    assert(peek_at(ks, start) == old(p).peek());
                    assert(peek_at(ks, p.pos as int) == p.peek());
                }
            }
            parse_PathElt(p);
            proof {
                assert(match_PathEltOrInverse_1(ks, start, gm1, pre1) == (p.st(), false)) by {
                    reveal_with_fuel(match_PathEltOrInverse_1, 1); reveal_with_fuel(rule_PathElt, 1);
                }
            }
        },
        SyntaxKind::Eof => {
            p.close(marker, SyntaxKind::PathEltOrInverse);
            let marker = p.open();
            let ghost gm2 = marker.index as int;
            p.close(marker, SyntaxKind::Error);
            proof {
                assert(match_PathEltOrInverse_1(ks, start, gm1, pre1) == (p.st(), true)) by {
                    reveal_with_fuel(match_PathEltOrInverse_1, 1);
                }
            }
            proof {
                assert(rule_PathEltOrInverse(ks, s0) == p.st()) by {
                    reveal_with_fuel(rule_PathEltOrInverse, 1); reveal_with_fuel(match_PathEltOrInverse_1, 1);
                }
            }
            return ;
        },
        _ => {
            p.advance_with_error(vec![SyntaxKind::IRIREF, SyntaxKind::PNAME_NS, SyntaxKind::LParen, SyntaxKind::a, SyntaxKind::ExclamationMark, SyntaxKind::PNAME_LN, SyntaxKind::Zirkumflex]);
            proof {
                assert(match_PathEltOrInverse_1(ks, start, gm1, pre1) == (p.st(), false)) by {
                    reveal_with_fuel(match_PathEltOrInverse_1, 1);
                }
            }
        },
    }
    p.close(marker, SyntaxKind::PathEltOrInverse);
    proof {
        assert(rule_PathEltOrInverse(ks, s0) == p.st()) by {
            reveal_with_fuel(rule_PathEltOrInverse, 1); reveal_with_fuel(match_PathEltOrInverse_1, 1);
        }
    }
}

pub open spec fn rank_PathElt(t: SyntaxKind) -> nat {
    match t {
        SyntaxKind::IRIREF => 2,
        SyntaxKind::PNAME_LN | SyntaxKind::PNAME_NS => 3,
        _ => 1,
    }
}

/// What [`parse_PathElt`] makes of the parser state.
#[verifier::opaque]
pub open spec fn rule_PathElt(ts: Seq<SyntaxKind>, s: St) -> St
    decreases ts.len() - s.pos, rank_PathElt(peek_at(ts, s.pos)), 32 * (ts.len() - s.pos) + 32,
{
    let start = s.pos;
    let s_in = s;
    let m_marker = s.evs.len() as int;
    let s = st_open(s);
    let s = if call_ok(ts, start, s, rank_PathPrimary(peek_at(ts, s.pos)), rank_PathElt(peek_at(ts, start))) {
        rule_PathPrimary(ts, s)
    } else {
        s
    };
    let s = if s_in.pos <= s.pos <= ts.len() {
        if_PathElt_1(ts, start, m_marker, s)
    } else {
        s
    };
    let s = st_close(s, m_marker, SyntaxKind::PathElt);
    s
}

#[verifier::opaque]
pub open spec fn if_PathElt_1(ts: Seq<SyntaxKind>, start: int, m_marker: int, s: St) -> St
    decreases ts.len() - start, rank_PathElt(peek_at(ts, start)), 32 * (ts.len() - s.pos) + 32 - 1,
{
    let s_in = s;
    if (peek_at(ts, s.pos) == SyntaxKind::Star || peek_at(ts, s.pos) == SyntaxKind::QuestionMark || peek_at(ts, s.pos) == SyntaxKind::Plus) {
        let s = rule_PathMod(ts, s);
        s
    } else {
        s
    }
}

/// [116] PathElt -> PathPrimary PathMod?
pub(crate) fn parse_PathElt(p: &mut Parser)
    requires
        old(p).wf(),
    ensures
        Parser::step(*old(p), *final(p)),
        final(p).pos == old(p).pos ==> is_sync_point(old(p).peek()),
        old(p).events@.len() < final(p).events@.len(),
        final(p).events@[old(p).events@.len() as int] == (Event::Open { kind: SyntaxKind::PathElt }),
        final(p).events@.last() is Close,
        final(p).st() == rule_PathElt(old(p).kinds(), old(p).st()),
    decreases old(p).remaining(), rank_PathElt(old(p).peek()), 1int,
{
    let ghost ks = p.kinds();
    let ghost s0 = p.st();
    let ghost start = p.pos as int;
    let marker = p.open();
    let ghost gm1 = marker.index as int;
    proof {
        assert(call_ok(ks, start, p.st(), rank_PathPrimary(peek_at(ks, p.st().pos)), rank_PathElt(peek_at(ks, start)))) by {
            reveal(Parser::st);
            assert(peek_at(ks, start) == old(p).peek());
            assert(peek_at(ks, p.pos as int) == p.peek());
        }
    }
    parse_PathPrimary(p);
    let ghost pre1 = p.st();
    if p.at_any(&[SyntaxKind::Star, SyntaxKind::QuestionMark, SyntaxKind::Plus]) {
        parse_PathMod(p);
        proof {
            assert(if_PathElt_1(ks, start, gm1, pre1) == p.st()) by {
                reveal_with_fuel(if_PathElt_1, 1);
            }
        }
    } else {
        proof {
            assert(if_PathElt_1(ks, start, gm1, pre1) == p.st()) by {
                reveal_with_fuel(if_PathElt_1, 1);
            }
        }
    }
    p.close(marker, SyntaxKind::PathElt);
    proof {
        assert(rule_PathElt(ks, s0) == p.st()) by {
            reveal_with_fuel(rule_PathElt, 1); reveal_with_fuel(if_PathElt_1, 1); reveal_with_fuel(rule_PathPrimary, 1);
        }
    }
}

pub open spec fn rank_PathPrimary(t: SyntaxKind) -> nat {
    match t {
        SyntaxKind::IRIREF => 1,
        SyntaxKind::PNAME_LN | SyntaxKind::PNAME_NS => 2,
        _ => 0,
    }
}

/// What [`parse_PathPrimary`] makes of the parser state.
#[verifier::opaque]
pub open spec fn rule_PathPrimary(ts: Seq<SyntaxKind>, s: St) -> St
    decreases ts.len() - s.pos, rank_PathPrimary(peek_at(ts, s.pos)), 32 * (ts.len() - s.pos) + 32,
{
    let start = s.pos;
    let s_in = s;
    let m_marker = s.evs.len() as int;
    let s = st_open(s);
    let (s, r) = if s_in.pos <= s.pos <= ts.len() {
        match_PathPrimary_1(ts, start, m_marker, s)
    } else {
        (s, false)
    };
    if r {
        s
    } else {
        let s = st_close(s, m_marker, SyntaxKind::PathPrimary);
        s
    }
}

#[verifier::opaque]
pub open spec fn match_PathPrimary_1(ts: Seq<SyntaxKind>, start: int, m_marker: int, s: St) -> (St, bool)
    decreases ts.len() - start, rank_PathPrimary(peek_at(ts, start)), 32 * (ts.len() - s.pos) + 32 - 1,
{
    let s_in = s;
    if (peek_at(ts, s.pos) == SyntaxKind::IRIREF || peek_at(ts, s.pos) == SyntaxKind::PNAME_NS || peek_at(ts, s.pos) == SyntaxKind::PNAME_LN) {
        let s = rule_iri(ts, s);
        (s, false)
    } else if (peek_at(ts, s.pos) == SyntaxKind::a) {
        let s = st_expect(ts, s, SyntaxKind::a);
        (s, false)
    } else if (peek_at(ts, s.pos) == SyntaxKind::ExclamationMark) {
        let s = st_expect(ts, s, SyntaxKind::ExclamationMark);
        let s = if call_ok(ts, start, s, rank_PathNegatedPropertySet(peek_at(ts, s.pos)), rank_PathPrimary(peek_at(ts, start))) {
            rule_PathNegatedPropertySet(ts, s)
        } else {
            s
        };
        (s, false)
    } else if (peek_at(ts, s.pos) == SyntaxKind::LParen) {
        let s = st_expect(ts, s, SyntaxKind::LParen);
        let s = if call_ok(ts, start, s, rank_Path(peek_at(ts, s.pos)), rank_PathPrimary(peek_at(ts, start))) {
            rule_Path(ts, s)
        } else {
            s
        };
        let s = st_expect(ts, s, SyntaxKind::RParen);
        (s, false)
    } else if (peek_at(ts, s.pos) == SyntaxKind::Eof) {
        let s = st_close(s, m_marker, SyntaxKind::PathPrimary);
        let m_marker = s.evs.len() as int;
        let s = st_open(s);
        let s = st_close(s, m_marker, SyntaxKind::Error);
        (s, true)
    } else {
        let s = st_advance_with_error(ts, s, seq![SyntaxKind::IRIREF, SyntaxKind::PNAME_NS, SyntaxKind::PNAME_LN, SyntaxKind::a, SyntaxKind::ExclamationMark, SyntaxKind::LParen]);
        (s, false)
    }
}

/// [117] PathPrimary -> iri | 'a' | '!' PathNegatedPropertySet | '(' Path ')'
pub(crate) fn parse_PathPrimary(p: &mut Parser)
    requires
        old(p).wf(),
    ensures
        Parser::step(*old(p), *final(p)),
        final(p).pos == old(p).pos ==> is_sync_point(old(p).peek()),
        old(p).events@.len() < final(p).events@.len(),
        final(p).events@[old(p).events@.len() as int] == (Event::Open { kind: SyntaxKind::PathPrimary }),
        final(p).events@.last() is Close,
        final(p).st() == rule_PathPrimary(old(p).kinds(), old(p).st()),
    decreases old(p).remaining(), rank_PathPrimary(old(p).peek()), 1int,
{
    let ghost ks = p.kinds();
    let ghost s0 = p.st();
    let ghost start = p.pos as int;
    let marker = p.open();
    let ghost gm1 = marker.index as int;
    let ghost pre1 = p.st();
    match p.nth(0) {
        SyntaxKind::IRIREF | SyntaxKind::PNAME_NS | SyntaxKind::PNAME_LN => {
            parse_iri(p);
            proof {
                assert(match_PathPrimary_1(ks, start, gm1, pre1) == (p.st(), false)) by {
                    reveal_with_fuel(match_PathPrimary_1, 1);
                }
            }
        },
        SyntaxKind::a => {
            p.expect(SyntaxKind::a);
            proof {
                assert(match_PathPrimary_1(ks, start, gm1, pre1) == (p.st(), false)) by {
                    reveal_with_fuel(match_PathPrimary_1, 1);
                }
            }
        },
        SyntaxKind::ExclamationMark => {
            p.expect(SyntaxKind::ExclamationMark);
            proof {
                assert(call_ok(ks, start, p.st(), rank_PathNegatedPropertySet(peek_at(ks, p.st().pos)), rank_PathPrimary(peek_at(ks, start)))) by {
                    reveal(Parser::st);
                    assert(peek_at(ks, start) == old(p).peek());
                    assert(peek_at(ks, p.pos as int) == p.peek());
                }
            }
            parse_PathNegatedPropertySet(p);
            proof {
                assert(match_PathPrimary_1(ks, start, gm1, pre1) == (p.st(), false)) by {
                    reveal_with_fuel(match_PathPrimary_1, 1); reveal_with_fuel(rule_PathNegatedPropertySet, 1);
                }
            }
        },
        SyntaxKind::LParen => {
            p.expect(SyntaxKind::LParen);
            proof {
                assert(call_ok(ks, start, p.st(), rank_Path(peek_at(ks, p.st().pos)), rank_PathPrimary(peek_at(ks, start)))) by {
                    reveal(Parser::st);
                    assert(peek_at(ks, start) == old(p).peek());
                    assert(peek_at(ks, p.pos as int) == p.peek());
                }
            }
            parse_Path(p);
            p.expect(SyntaxKind::RParen);
            proof {
                assert(match_PathPrimary_1(ks, start, gm1, pre1) == (p.st(), false)) by {
                    reveal_with_fuel(match_PathPrimary_1, 1); reveal_with_fuel(rule_Path, 1);
                }
            }
        },
        SyntaxKind::Eof => {
            p.close(marker, SyntaxKind::PathPrimary);
            let marker = p.open();
            let ghost gm2 = marker.index as int;
            p.close(marker, SyntaxKind::Error);
            proof {
                assert(match_PathPrimary_1(ks, start, gm1, pre1) == (p.st(), true)) by {
                    reveal_with_fuel(match_PathPrimary_1, 1);
                }
            }
            proof {
                assert(rule_PathPrimary(ks, s0) == p.st()) by {
                    reveal_with_fuel(rule_PathPrimary, 1); reveal_with_fuel(match_PathPrimary_1, 1);
                }
            }
            return ;
        },
        _ => {
            p.advance_with_error(vec![SyntaxKind::IRIREF, SyntaxKind::PNAME_NS, SyntaxKind::PNAME_LN, SyntaxKind::a, SyntaxKind::ExclamationMark, SyntaxKind::LParen]);
            proof {
                assert(match_PathPrimary_1(ks, start, gm1, pre1) == (p.st(), false)) by {
                    reveal_with_fuel(match_PathPrimary_1, 1);
                }
            }
        },
    }
    p.close(marker, SyntaxKind::PathPrimary);
    proof {
        assert(rule_PathPrimary(ks, s0) == p.st()) by {
            reveal_with_fuel(rule_PathPrimary, 1); reveal_with_fuel(match_PathPrimary_1, 1);
        }
    }
}

pub open spec fn rank_PathMod(t: SyntaxKind) -> nat {
    0
}

/// What [`parse_PathMod`] makes of the parser state.
#[verifier::opaque]
pub open spec fn rule_PathMod(ts: Seq<SyntaxKind>, s: St) -> St {
    let m_marker = s.evs.len() as int;
    let s = st_open(s);
    if (peek_at(ts, s.pos) == SyntaxKind::QuestionMark) {
        let s = st_expect(ts, s, SyntaxKind::QuestionMark);
        let s = st_close(s, m_marker, SyntaxKind::PathMod);
        s
    } else if (peek_at(ts, s.pos) == SyntaxKind::Star) {
        let s = st_expect(ts, s, SyntaxKind::Star);
        let s = st_close(s, m_marker, SyntaxKind::PathMod);
        s
    } else if (peek_at(ts, s.pos) == SyntaxKind::Plus) {
        let s = st_expect(ts, s, SyntaxKind::Plus);
        let s = st_close(s, m_marker, SyntaxKind::PathMod);
        s
    } else if (peek_at(ts, s.pos) == SyntaxKind::Eof) {
        let s = st_close(s, m_marker, SyntaxKind::PathMod);
        let m_marker = s.evs.len() as int;
        let s = st_open(s);
        let s = st_close(s, m_marker, SyntaxKind::Error);
        s
    } else {
        let s = st_advance_with_error(ts, s, seq![SyntaxKind::QuestionMark, SyntaxKind::Star, SyntaxKind::Plus]);
        let s = st_close(s, m_marker, SyntaxKind::PathMod);
        s
    }
}

/// [118] PathMod -> '?' | '*' | '+'
pub(crate) fn parse_PathMod(p: &mut Parser)
    requires
        old(p).wf(),
    ensures
        Parser::step(*old(p), *final(p)),
        final(p).pos == old(p).pos ==> is_sync_point(old(p).peek()),
        old(p).events@.len() < final(p).events@.len(),
        final(p).events@[old(p).events@.len() as int] == (Event::Open { kind: SyntaxKind::PathMod }),
        final(p).events@.last() is Close,
        final(p).st() == rule_PathMod(old(p).kinds(), old(p).st()),
    decreases old(p).remaining(), rank_PathMod(old(p).peek()), 1int,
{
    let ghost ks = p.kinds();
    let ghost s0 = p.st();
    let marker = p.open();
    match p.nth(0) {
        SyntaxKind::QuestionMark => {
            p.expect(SyntaxKind::QuestionMark);
        },
        SyntaxKind::Star => {
            p.expect(SyntaxKind::Star);
        },
        SyntaxKind::Plus => {
            p.expect(SyntaxKind::Plus);
        },
        SyntaxKind::Eof => {
            p.close(marker, SyntaxKind::PathMod);
            let marker = p.open();
            p.close(marker, SyntaxKind::Error);
            proof {
                assert(p.st() == rule_PathMod(ks, s0)) by {
                    reveal(rule_PathMod);
                    reveal(Parser::st);
                }
            }
            return ;
        },
        _ => {
            p.advance_with_error(vec![SyntaxKind::QuestionMark, SyntaxKind::Star, SyntaxKind::Plus]);
        },
    }
    p.close(marker, SyntaxKind::PathMod);
    proof {
        assert(p.st() == rule_PathMod(ks, s0)) by {
            reveal(rule_PathMod);
            reveal(Parser::st);
        }
    }
}

pub open spec fn rank_PathNegatedPropertySet(t: SyntaxKind) -> nat {
    match t {
        SyntaxKind::Zirkumflex | SyntaxKind::a => 1,
        SyntaxKind::IRIREF => 2,
        SyntaxKind::PNAME_LN | SyntaxKind::PNAME_NS => 3,
        _ => 0,
    }
}

/// What [`parse_PathNegatedPropertySet`] makes of the parser state.
#[verifier::opaque]
pub open spec fn rule_PathNegatedPropertySet(ts: Seq<SyntaxKind>, s: St) -> St
    decreases ts.len() - s.pos, rank_PathNegatedPropertySet(peek_at(ts, s.pos)), 32 * (ts.len() - s.pos) + 32,
{
    let start = s.pos;
    let s_in = s;
    let m_marker = s.evs.len() as int;
    let s = st_open(s);
    let (s, r) = if s_in.pos <= s.pos <= ts.len() {
        match_PathNegatedPropertySet_1(ts, start, m_marker, s)
    } else {
        (s, false)
    };
    if r {
        s
    } else {
        let s = st_close(s, m_marker, SyntaxKind::PathNegatedPropertySet);
        s
    }
}

#[verifier::opaque]
pub open spec fn loop_PathNegatedPropertySet_3(ts: Seq<SyntaxKind>, start: int, m_marker: int, s: St) -> St
    decreases ts.len() - start, rank_PathNegatedPropertySet(peek_at(ts, start)), 32 * (ts.len() - s.pos) + 32 - 3,
{
    let s_in = s;
    if (peek_at(ts, s.pos) == SyntaxKind::Pipe) && s.pos <= ts.len() {
        let s1 = body_PathNegatedPropertySet_4(ts, start, m_marker, s);
        if s1.pos == s.pos {
            s1
        } else if s.pos < s1.pos <= ts.len() {
            loop_PathNegatedPropertySet_3(ts, start, m_marker, s1)
        } else {
            s1
        }
    } else {
        s
    }
}

#[verifier::opaque]
pub open spec fn body_PathNegatedPropertySet_4(ts: Seq<SyntaxKind>, start: int, m_marker: int, s: St) -> St
    decreases ts.len() - start, rank_PathNegatedPropertySet(peek_at(ts, start)), 32 * (ts.len() - s.pos) + 32 - 4,
{
    let s_in = s;
    let s = st_expect(ts, s, SyntaxKind::Pipe);
    let s = rule_PathOneInPropertySet(ts, s);
    s
}

#[verifier::opaque]
pub open spec fn if_PathNegatedPropertySet_2(ts: Seq<SyntaxKind>, start: int, m_marker: int, s: St) -> St
    decreases ts.len() - start, rank_PathNegatedPropertySet(peek_at(ts, start)), 32 * (ts.len() - s.pos) + 32 - 2,
{
    let s_in = s;
    if (peek_at(ts, s.pos) == SyntaxKind::IRIREF || peek_at(ts, s.pos) == SyntaxKind::PNAME_NS || peek_at(ts, s.pos) == SyntaxKind::a || peek_at(ts, s.pos) == SyntaxKind::Zirkumflex || peek_at(ts, s.pos) == SyntaxKind::PNAME_LN) {
        let s = rule_PathOneInPropertySet(ts, s);
        let s = if s_in.pos <= s.pos <= ts.len() {
            loop_PathNegatedPropertySet_3(ts, start, m_marker, s)
        } else {
            s
        };
        s
    } else {
        s
    }
}

#[verifier::opaque]
pub open spec fn match_PathNegatedPropertySet_1(ts: Seq<SyntaxKind>, start: int, m_marker: int, s: St) -> (St, bool)
    decreases ts.len() - start, rank_PathNegatedPropertySet(peek_at(ts, start)), 32 * (ts.len() - s.pos) + 32 - 1,
{
    let s_in = s;
    if (peek_at(ts, s.pos) == SyntaxKind::IRIREF || peek_at(ts, s.pos) == SyntaxKind::PNAME_NS || peek_at(ts, s.pos) == SyntaxKind::a || peek_at(ts, s.pos) == SyntaxKind::Zirkumflex || peek_at(ts, s.pos) == SyntaxKind::PNAME_LN) {
        let s = rule_PathOneInPropertySet(ts, s);
        (s, false)
    } else if (peek_at(ts, s.pos) == SyntaxKind::LParen) {
        let s = st_expect(ts, s, SyntaxKind::LParen);
        let s = if s_in.pos <= s.pos <= ts.len() {
            if_PathNegatedPropertySet_2(ts, start, m_marker, s)
        } else {
            s
        };
        let s = st_expect(ts, s, SyntaxKind::RParen);
        (s, false)
    } else if (peek_at(ts, s.pos) == SyntaxKind::Eof) {
        let s = st_close(s, m_marker, SyntaxKind::PathNegatedPropertySet);
        let m_marker = s.evs.len() as int;
        let s = st_open(s);
        let s = st_close(s, m_marker, SyntaxKind::Error);
        (s, true)
    } else {
        let s = st_advance_with_error(ts, s, seq![SyntaxKind::IRIREF, SyntaxKind::PNAME_NS, SyntaxKind::a, SyntaxKind::Zirkumflex, SyntaxKind::PNAME_LN, SyntaxKind::LParen]);
        (s, false)
    }
}

/// [119] PathNegatedPropertySet -> PathOneInPropertySet | '(' (PathOneInPropertySet ('|' PathOneInPropertySet)*)? ')'
pub(crate) fn parse_PathNegatedPropertySet(p: &mut Parser)
    requires
        old(p).wf(),
    ensures
        Parser::step(*old(p), *final(p)),
        final(p).pos == old(p).pos ==> is_sync_point(old(p).peek()),
        old(p).events@.len() < final(p).events@.len(),
        final(p).events@[old(p).events@.len() as int] == (Event::Open { kind: SyntaxKind::PathNegatedPropertySet }),
        final(p).events@.last() is Close,
        final(p).st() == rule_PathNegatedPropertySet(old(p).kinds(), old(p).st()),
    decreases old(p).remaining(), rank_PathNegatedPropertySet(old(p).peek()), 1int,
{
    let ghost ks = p.kinds();
    let ghost s0 = p.st();
    let ghost start = p.pos as int;
    let marker = p.open();
    let ghost gm1 = marker.index as int;
    let ghost pre1 = p.st();
    match p.nth(0) {
        SyntaxKind::IRIREF | SyntaxKind::PNAME_NS | SyntaxKind::a | SyntaxKind::Zirkumflex | SyntaxKind::PNAME_LN => {
            parse_PathOneInPropertySet(p);
            proof {
                assert(match_PathNegatedPropertySet_1(ks, start, gm1, pre1) == (p.st(), false)) by {
                    reveal_with_fuel(match_PathNegatedPropertySet_1, 1);
                }
            }
        },
        SyntaxKind::LParen => {
            p.expect(SyntaxKind::LParen);
            let ghost pre2 = p.st();
            if p.at_any(&[SyntaxKind::IRIREF, SyntaxKind::PNAME_NS, SyntaxKind::a, SyntaxKind::Zirkumflex, SyntaxKind::PNAME_LN]) {
                parse_PathOneInPropertySet(p);
                let ghost pre3 = p.st();
                proof {
                    assert(p.st().pos == p.pos as int) by {
                        reveal(Parser::st);
                    }
                    if !(peek_at(ks, p.st().pos) == SyntaxKind::Pipe) {
                        assert(loop_PathNegatedPropertySet_3(ks, start, gm1, pre3) == pre3) by {
                            reveal_with_fuel(loop_PathNegatedPropertySet_3, 1); reveal_with_fuel(body_PathNegatedPropertySet_4, 1);
                        }
                    }
                }
                while p.at_any(&[SyntaxKind::Pipe])
                    invariant
                        marker.index == old(p).events@.len(),
                        p.wf(),
                        p.tokens@ == old(p).tokens@,
                        old(p).pos <= p.pos,
                        p.stack() == old(p).stack().push(marker.index as int),
                        p.pos == old(p).pos ==> false,
                        ks == p.kinds(),
                        p.st().pos == p.pos as int,
                        start == old(p).pos as int,
                        gm1 == marker.index as int,
                        pre3.pos <= p.pos,
                        start <= pre3.pos,
                        loop_PathNegatedPropertySet_3(ks, start, gm1, p.st()) == loop_PathNegatedPropertySet_3(ks, start, gm1, pre3),
                        !(peek_at(ks, p.st().pos) == SyntaxKind::Pipe) ==> loop_PathNegatedPropertySet_3(ks, start, gm1, p.st()) == p.st(),
                    ensures
                        loop_PathNegatedPropertySet_3(ks, start, gm1, pre3) == p.st(),
                    decreases p.remaining(),
                {
                    let ghost si3 = p.st();
                    let checkpoint1 = p.pos();
                    p.expect(SyntaxKind::Pipe);
                    parse_PathOneInPropertySet(p);
                    proof {
                        assert(body_PathNegatedPropertySet_4(ks, start, gm1, si3) == p.st()) by {
                            reveal_with_fuel(body_PathNegatedPropertySet_4, 1);
                        }
                    }
                    if p.pos() == checkpoint1 {
                        proof {
                            assert(loop_PathNegatedPropertySet_3(ks, start, gm1, si3) == p.st()) by {
                                reveal_with_fuel(loop_PathNegatedPropertySet_3, 1); reveal_with_fuel(body_PathNegatedPropertySet_4, 1);
                            }
                        }
                        break;
                    }
                    proof {
                        assert(p.st().pos == p.pos as int) by {
                            reveal(Parser::st);
                        }
                        assert(loop_PathNegatedPropertySet_3(ks, start, gm1, si3) == loop_PathNegatedPropertySet_3(ks, start, gm1, p.st())) by {
                            reveal_with_fuel(loop_PathNegatedPropertySet_3, 1); reveal_with_fuel(body_PathNegatedPropertySet_4, 1);
                            reveal(Parser::st);
                        }
                        if !(peek_at(ks, p.st().pos) == SyntaxKind::Pipe) {
                            assert(loop_PathNegatedPropertySet_3(ks, start, gm1, p.st()) == p.st()) by {
                                reveal_with_fuel(loop_PathNegatedPropertySet_3, 1); reveal_with_fuel(body_PathNegatedPropertySet_4, 1);
                            }
                        }
                    }
                }
                proof {
                    assert(if_PathNegatedPropertySet_2(ks, start, gm1, pre2) == p.st()) by {
                        reveal_with_fuel(if_PathNegatedPropertySet_2, 1); reveal_with_fuel(loop_PathNegatedPropertySet_3, 1);
                    }
                }
            } else {
                proof {
                    assert(if_PathNegatedPropertySet_2(ks, start, gm1, pre2) == p.st()) by {
                        reveal_with_fuel(if_PathNegatedPropertySet_2, 1);
                    }
                }
            }
            p.expect(SyntaxKind::RParen);
            proof {
                assert(match_PathNegatedPropertySet_1(ks, start, gm1, pre1) == (p.st(), false)) by {
                    reveal_with_fuel(match_PathNegatedPropertySet_1, 1); reveal_with_fuel(if_PathNegatedPropertySet_2, 1);
                }
            }
        },
        SyntaxKind::Eof => {
            p.close(marker, SyntaxKind::PathNegatedPropertySet);
            let marker = p.open();
            let ghost gm2 = marker.index as int;
            p.close(marker, SyntaxKind::Error);
            proof {
                assert(match_PathNegatedPropertySet_1(ks, start, gm1, pre1) == (p.st(), true)) by {
                    reveal_with_fuel(match_PathNegatedPropertySet_1, 1);
                }
            }
            proof {
                assert(rule_PathNegatedPropertySet(ks, s0) == p.st()) by {
                    reveal_with_fuel(rule_PathNegatedPropertySet, 1); reveal_with_fuel(match_PathNegatedPropertySet_1, 1);
                }
            }
            return ;
        },
        _ => {
            p.advance_with_error(vec![SyntaxKind::IRIREF, SyntaxKind::PNAME_NS, SyntaxKind::a, SyntaxKind::Zirkumflex, SyntaxKind::PNAME_LN, SyntaxKind::LParen]);
            proof {
                assert(match_PathNegatedPropertySet_1(ks, start, gm1, pre1) == (p.st(), false)) by {
                    reveal_with_fuel(match_PathNegatedPropertySet_1, 1);
                }
            }
        },
    }
    p.close(marker, SyntaxKind::PathNegatedPropertySet);
    proof {
        assert(rule_PathNegatedPropertySet(ks, s0) == p.st()) by {
            reveal_with_fuel(rule_PathNegatedPropertySet, 1); reveal_with_fuel(match_PathNegatedPropertySet_1, 1);
        }
    }
}

pub open spec fn rank_PathOneInPropertySet(t: SyntaxKind) -> nat {
    match t {
        SyntaxKind::IRIREF => 1,
        SyntaxKind::PNAME_LN | SyntaxKind::PNAME_NS => 2,
        _ => 0,
    }
}

/// What [`parse_PathOneInPropertySet`] makes of the parser state.
#[verifier::opaque]
pub open spec fn rule_PathOneInPropertySet(ts: Seq<SyntaxKind>, s: St) -> St {
    let m_marker = s.evs.len() as int;
    let s = st_open(s);
    if (peek_at(ts, s.pos) == SyntaxKind::IRIREF || peek_at(ts, s.pos) == SyntaxKind::PNAME_NS || peek_at(ts, s.pos) == SyntaxKind::PNAME_LN) {
        let s = rule_iri(ts, s);
        let s = st_close(s, m_marker, SyntaxKind::PathOneInPropertySet);
        s
    } else if (peek_at(ts, s.pos) == SyntaxKind::a) {
        let s = st_expect(ts, s, SyntaxKind::a);
        let s = st_close(s, m_marker, SyntaxKind::PathOneInPropertySet);
        s
    } else if (peek_at(ts, s.pos) == SyntaxKind::Zirkumflex) {
        let s = st_expect(ts, s, SyntaxKind::Zirkumflex);
        if (peek_at(ts, s.pos) == SyntaxKind::IRIREF || peek_at(ts, s.pos) == SyntaxKind::PNAME_NS || peek_at(ts, s.pos) == SyntaxKind::PNAME_LN) {
            let s = rule_iri(ts, s);
            let s = st_close(s, m_marker, SyntaxKind::PathOneInPropertySet);
            s
        } else if (peek_at(ts, s.pos) == SyntaxKind::a) {
            let s = st_expect(ts, s, SyntaxKind::a);
            let s = st_close(s, m_marker, SyntaxKind::PathOneInPropertySet);
            s
        } else if (peek_at(ts, s.pos) == SyntaxKind::Eof) {
            let s = st_close(s, m_marker, SyntaxKind::PathOneInPropertySet);
            let m_marker = s.evs.len() as int;
            let s = st_open(s);
            let s = st_close(s, m_marker, SyntaxKind::Error);
            s
        } else {
            let s = st_advance_with_error(ts, s, seq![SyntaxKind::IRIREF, SyntaxKind::PNAME_NS, SyntaxKind::PNAME_LN, SyntaxKind::a]);
            let s = st_close(s, m_marker, SyntaxKind::PathOneInPropertySet);
            s
        }
    } else if (peek_at(ts, s.pos) == SyntaxKind::Eof) {
        let s = st_close(s, m_marker, SyntaxKind::PathOneInPropertySet);
        let m_marker = s.evs.len() as int;
        let s = st_open(s);
        let s = st_close(s, m_marker, SyntaxKind::Error);
        s
    } else {
        let s = st_advance_with_error(ts, s, seq![SyntaxKind::IRIREF, SyntaxKind::PNAME_NS, SyntaxKind::PNAME_LN, SyntaxKind::a, SyntaxKind::Zirkumflex]);
        let s = st_close(s, m_marker, SyntaxKind::PathOneInPropertySet);
        s
    }
}

/// [120] PathOneInPropertySet -> iri | 'a' | '^' (iri | 'a')
pub(crate) fn parse_PathOneInPropertySet(p: &mut Parser)
    requires
        old(p).wf(),
    ensures
        Parser::step(*old(p), *final(p)),
        final(p).pos == old(p).pos ==> is_sync_point(old(p).peek()),
        old(p).events@.len() < final(p).events@.len(),
        final(p).events@[old(p).events@.len() as int] == (Event::Open { kind: SyntaxKind::PathOneInPropertySet }),
        final(p).events@.last() is Close,
        final(p).st() == rule_PathOneInPropertySet(old(p).kinds(), old(p).st()),
    decreases old(p).remaining(), rank_PathOneInPropertySet(old(p).peek()), 1int,
{
    let ghost ks = p.kinds();
    let ghost s0 = p.st();
    let marker = p.open();
    match p.nth(0) {
        SyntaxKind::IRIREF | SyntaxKind::PNAME_NS | SyntaxKind::PNAME_LN => {
            parse_iri(p);
        },
        SyntaxKind::a => {
            p.expect(SyntaxKind::a);
        },
        SyntaxKind::Zirkumflex => {
            p.expect(SyntaxKind::Zirkumflex);
            match p.nth(0) {
                SyntaxKind::IRIREF | SyntaxKind::PNAME_NS | SyntaxKind::PNAME_LN => {
                    parse_iri(p);
                },
                SyntaxKind::a => {
                    p.expect(SyntaxKind::a);
                },
                SyntaxKind::Eof => {
                    p.close(marker, SyntaxKind::PathOneInPropertySet);
                    let marker = p.open();
                    p.close(marker, SyntaxKind::Error);
                    proof {
                        assert(p.st() == rule_PathOneInPropertySet(ks, s0)) by {
                            reveal(rule_PathOneInPropertySet);
                            reveal(Parser::st);
                        }
                    }
                    return ;
                },
                _ => {
                    p.advance_with_error(vec![SyntaxKind::IRIREF, SyntaxKind::PNAME_NS, SyntaxKind::PNAME_LN, SyntaxKind::a]);
                },
            }
        },
        SyntaxKind::Eof => {
            p.close(marker, SyntaxKind::PathOneInPropertySet);
            let marker = p.open();
            p.close(marker, SyntaxKind::Error);
            proof {
                assert(p.st() == rule_PathOneInPropertySet(ks, s0)) by {
                    reveal(rule_PathOneInPropertySet);
                    reveal(Parser::st);
                }
            }
            return ;
        },
        _ => {
            p.advance_with_error(vec![SyntaxKind::IRIREF, SyntaxKind::PNAME_NS, SyntaxKind::PNAME_LN, SyntaxKind::a, SyntaxKind::Zirkumflex]);
        },
    }
    p.close(marker, SyntaxKind::PathOneInPropertySet);
    proof {
        assert(p.st() == rule_PathOneInPropertySet(ks, s0)) by {
            reveal(rule_PathOneInPropertySet);
            reveal(Parser::st);
        }
    }
}

pub open spec fn rank_Collection(t: SyntaxKind) -> nat {
    match t {
        SyntaxKind::LParen => 0,
        SyntaxKind::DoubleLess | SyntaxKind::NIL => 2,
        SyntaxKind::ANON | SyntaxKind::BLANK_NODE_LABEL | SyntaxKind::DoubleLessLParen | SyntaxKind::False | SyntaxKind::IRIREF | SyntaxKind::LBrack | SyntaxKind::True | SyntaxKind::VAR1 | SyntaxKind::VAR2 => 3,
        SyntaxKind::DECIMAL | SyntaxKind::DECIMAL_NEGATIVE | SyntaxKind::DECIMAL_POSITIVE | SyntaxKind::DOUBLE | SyntaxKind::DOUBLE_NEGATIVE | SyntaxKind::DOUBLE_POSITIVE | SyntaxKind::INTEGER | SyntaxKind::INTEGER_NEGATIVE | SyntaxKind::INTEGER_POSITIVE | SyntaxKind::PNAME_LN | SyntaxKind::PNAME_NS | SyntaxKind::STRING_LITERAL1 | SyntaxKind::STRING_LITERAL2 | SyntaxKind::STRING_LITERAL_LONG1 | SyntaxKind::STRING_LITERAL_LONG2 => 4,
        _ => 1,
    }
}

/// What [`parse_Collection`] makes of the parser state.
#[verifier::opaque]
pub open spec fn rule_Collection(ts: Seq<SyntaxKind>, s: St) -> St
    decreases ts.len() - s.pos, rank_Collection(peek_at(ts, s.pos)), 32 * (ts.len() - s.pos) + 32,
{
    let start = s.pos;
    let s_in = s;
    let m_marker = s.evs.len() as int;
    let s = st_open(s);
    let s = st_expect(ts, s, SyntaxKind::LParen);
    let s = if call_ok(ts, start, s, rank_GraphNode(peek_at(ts, s.pos)), rank_Collection(peek_at(ts, start))) {
        rule_GraphNode(ts, s)
    } else {
        s
    };
    let s = if s_in.pos <= s.pos <= ts.len() {
        loop_Collection_1(ts, start, m_marker, s)
    } else {
        s
    };
    let s = st_expect(ts, s, SyntaxKind::RParen);
    let s = st_close(s, m_marker, SyntaxKind::Collection);
    s
}

#[verifier::opaque]
pub open spec fn loop_Collection_1(ts: Seq<SyntaxKind>, start: int, m_marker: int, s: St) -> St
    decreases ts.len() - start, rank_Collection(peek_at(ts, start)), 32 * (ts.len() - s.pos) + 32 - 1,
{
    let s_in = s;
    if (peek_at(ts, s.pos) == SyntaxKind::IRIREF || peek_at(ts, s.pos) == SyntaxKind::PNAME_NS || peek_at(ts, s.pos) == SyntaxKind::STRING_LITERAL1 || peek_at(ts, s.pos) == SyntaxKind::STRING_LITERAL2 || peek_at(ts, s.pos) == SyntaxKind::LParen || peek_at(ts, s.pos) == SyntaxKind::INTEGER || peek_at(ts, s.pos) == SyntaxKind::NIL || peek_at(ts, s.pos) == SyntaxKind::LBrack || peek_at(ts, s.pos) == SyntaxKind::DoubleLess || peek_at(ts, s.pos) == SyntaxKind::DoubleLessLParen || peek_at(ts, s.pos) == SyntaxKind::VAR1 || peek_at(ts, s.pos) == SyntaxKind::VAR2 || peek_at(ts, s.pos) == SyntaxKind::DECIMAL || peek_at(ts, s.pos) == SyntaxKind::DOUBLE || peek_at(ts, s.pos) == SyntaxKind::INTEGER_POSITIVE || peek_at(ts, s.pos) == SyntaxKind::DECIMAL_POSITIVE || peek_at(ts, s.pos) == SyntaxKind::DOUBLE_POSITIVE || peek_at(ts, s.pos) == SyntaxKind::INTEGER_NEGATIVE || peek_at(ts, s.pos) == SyntaxKind::DECIMAL_NEGATIVE || peek_at(ts, s.pos) == SyntaxKind::DOUBLE_NEGATIVE || peek_at(ts, s.pos) == SyntaxKind::True || peek_at(ts, s.pos) == SyntaxKind::False || peek_at(ts, s.pos) == SyntaxKind::STRING_LITERAL_LONG1 || peek_at(ts, s.pos) == SyntaxKind::STRING_LITERAL_LONG2 || peek_at(ts, s.pos) == SyntaxKind::PNAME_LN || peek_at(ts, s.pos) == SyntaxKind::BLANK_NODE_LABEL || peek_at(ts, s.pos) == SyntaxKind::ANON) && s.pos <= ts.len() {
        let s1 = body_Collection_2(ts, start, m_marker, s);
        if s1.pos == s.pos {
            s1
        } else if s.pos < s1.pos <= ts.len() {
            loop_Collection_1(ts, start, m_marker, s1)
        } else {
            s1
        }
    } else {
        s
    }
}

#[verifier::opaque]
pub open spec fn body_Collection_2(ts: Seq<SyntaxKind>, start: int, m_marker: int, s: St) -> St
    decreases ts.len() - start, rank_Collection(peek_at(ts, start)), 32 * (ts.len() - s.pos) + 32 - 2,
{
    let s_in = s;
    let s = if call_ok(ts, start, s, rank_GraphNode(peek_at(ts, s.pos)), rank_Collection(peek_at(ts, start))) {
        rule_GraphNode(ts, s)
    } else {
        s
    };
    s
}

/// [121] Collection -> '(' GraphNode GraphNode* ')'
pub(crate) fn parse_Collection(p: &mut Parser)
    requires
        old(p).wf(),
    ensures
        Parser::step(*old(p), *final(p)),
        final(p).pos == old(p).pos ==> is_sync_point(old(p).peek()),
        old(p).events@.len() < final(p).events@.len(),
        final(p).events@[old(p).events@.len() as int] == (Event::Open { kind: SyntaxKind::Collection }),
        final(p).events@.last() is Close,
        final(p).st() == rule_Collection(old(p).kinds(), old(p).st()),
    decreases old(p).remaining(), rank_Collection(old(p).peek()), 1int,
{
    let ghost ks = p.kinds();
    let ghost s0 = p.st();
    let ghost start = p.pos as int;
    let marker = p.open();
    let ghost gm1 = marker.index as int;
    p.expect(SyntaxKind::LParen);
    proof {
        assert(call_ok(ks, start, p.st(), rank_GraphNode(peek_at(ks, p.st().pos)), rank_Collection(peek_at(ks, start)))) by {
            reveal(Parser::st);
            assert(peek_at(ks, start) == old(p).peek());
            assert(peek_at(ks, p.pos as int) == p.peek());
        }
    }
    parse_GraphNode(p);
    let ghost pre1 = p.st();
    proof {
        assert(p.st().pos == p.pos as int) by {
            reveal(Parser::st);
        }
        if !(peek_at(ks, p.st().pos) == SyntaxKind::IRIREF || peek_at(ks, p.st().pos) == SyntaxKind::PNAME_NS || peek_at(ks, p.st().pos) == SyntaxKind::STRING_LITERAL1 || peek_at(ks, p.st().pos) == SyntaxKind::STRING_LITERAL2 || peek_at(ks, p.st().pos) == SyntaxKind::LParen || peek_at(ks, p.st().pos) == SyntaxKind::INTEGER || peek_at(ks, p.st().pos) == SyntaxKind::NIL || peek_at(ks, p.st().pos) == SyntaxKind::LBrack || peek_at(ks, p.st().pos) == SyntaxKind::DoubleLess || peek_at(ks, p.st().pos) == SyntaxKind::DoubleLessLParen || peek_at(ks, p.st().pos) == SyntaxKind::VAR1 || peek_at(ks, p.st().pos) == SyntaxKind::VAR2 || peek_at(ks, p.st().pos) == SyntaxKind::DECIMAL || peek_at(ks, p.st().pos) == SyntaxKind::DOUBLE || peek_at(ks, p.st().pos) == SyntaxKind::INTEGER_POSITIVE || peek_at(ks, p.st().pos) == SyntaxKind::DECIMAL_POSITIVE || peek_at(ks, p.st().pos) == SyntaxKind::DOUBLE_POSITIVE || peek_at(ks, p.st().pos) == SyntaxKind::INTEGER_NEGATIVE || peek_at(ks, p.st().pos) == SyntaxKind::DECIMAL_NEGATIVE || peek_at(ks, p.st().pos) == SyntaxKind::DOUBLE_NEGATIVE || peek_at(ks, p.st().pos) == SyntaxKind::True || peek_at(ks, p.st().pos) == SyntaxKind::False || peek_at(ks, p.st().pos) == SyntaxKind::STRING_LITERAL_LONG1 || peek_at(ks, p.st().pos) == SyntaxKind::STRING_LITERAL_LONG2 || peek_at(ks, p.st().pos) == SyntaxKind::PNAME_LN || peek_at(ks, p.st().pos) == SyntaxKind::BLANK_NODE_LABEL || peek_at(ks, p.st().pos) == SyntaxKind::ANON) {
            assert(loop_Collection_1(ks, start, gm1, pre1) == pre1) by {
                reveal_with_fuel(loop_Collection_1, 1); reveal_with_fuel(body_Collection_2, 1);
            }
        }
    }
    while p.at_any(&[SyntaxKind::IRIREF, SyntaxKind::PNAME_NS, SyntaxKind::STRING_LITERAL1, SyntaxKind::STRING_LITERAL2, SyntaxKind::LParen, SyntaxKind::INTEGER, SyntaxKind::NIL, SyntaxKind::LBrack, SyntaxKind::DoubleLess, SyntaxKind::DoubleLessLParen, SyntaxKind::VAR1, SyntaxKind::VAR2, SyntaxKind::DECIMAL, SyntaxKind::DOUBLE, SyntaxKind::INTEGER_POSITIVE, SyntaxKind::DECIMAL_POSITIVE, SyntaxKind::DOUBLE_POSITIVE, SyntaxKind::INTEGER_NEGATIVE, SyntaxKind::DECIMAL_NEGATIVE, SyntaxKind::DOUBLE_NEGATIVE, SyntaxKind::True, SyntaxKind::False, SyntaxKind::STRING_LITERAL_LONG1, SyntaxKind::STRING_LITERAL_LONG2, SyntaxKind::PNAME_LN, SyntaxKind::BLANK_NODE_LABEL, SyntaxKind::ANON])
        invariant
            marker.index == old(p).events@.len(),
            p.wf(),
            p.tokens@ == old(p).tokens@,
            old(p).pos <= p.pos,
            p.stack() == old(p).stack().push(marker.index as int),
            p.pos == old(p).pos ==> is_sync_point(old(p).peek()),
            ks == p.kinds(),
            p.st().pos == p.pos as int,
            start == old(p).pos as int,
            gm1 == marker.index as int,
            pre1.pos <= p.pos,
            start <= pre1.pos,
            loop_Collection_1(ks, start, gm1, p.st()) == loop_Collection_1(ks, start, gm1, pre1),
            !(peek_at(ks, p.st().pos) == SyntaxKind::IRIREF || peek_at(ks, p.st().pos) == SyntaxKind::PNAME_NS || peek_at(ks, p.st().pos) == SyntaxKind::STRING_LITERAL1 || peek_at(ks, p.st().pos) == SyntaxKind::STRING_LITERAL2 || peek_at(ks, p.st().pos) == SyntaxKind::LParen || peek_at(ks, p.st().pos) == SyntaxKind::INTEGER || peek_at(ks, p.st().pos) == SyntaxKind::NIL || peek_at(ks, p.st().pos) == SyntaxKind::LBrack || peek_at(ks, p.st().pos) == SyntaxKind::DoubleLess || peek_at(ks, p.st().pos) == SyntaxKind::DoubleLessLParen || peek_at(ks, p.st().pos) == SyntaxKind::VAR1 || peek_at(ks, p.st().pos) == SyntaxKind::VAR2 || peek_at(ks, p.st().pos) == SyntaxKind::DECIMAL || peek_at(ks, p.st().pos) == SyntaxKind::DOUBLE || peek_at(ks, p.st().pos) == SyntaxKind::INTEGER_POSITIVE || peek_at(ks, p.st().pos) == SyntaxKind::DECIMAL_POSITIVE || peek_at(ks, p.st().pos) == SyntaxKind::DOUBLE_POSITIVE || peek_at(ks, p.st().pos) == SyntaxKind::INTEGER_NEGATIVE || peek_at(ks, p.st().pos) == SyntaxKind::DECIMAL_NEGATIVE || peek_at(ks, p.st().pos) == SyntaxKind::DOUBLE_NEGATIVE || peek_at(ks, p.st().pos) == SyntaxKind::True || peek_at(ks, p.st().pos) == SyntaxKind::False || peek_at(ks, p.st().pos) == SyntaxKind::STRING_LITERAL_LONG1 || peek_at(ks, p.st().pos) == SyntaxKind::STRING_LITERAL_LONG2 || peek_at(ks, p.st().pos) == SyntaxKind::PNAME_LN || peek_at(ks, p.st().pos) == SyntaxKind::BLANK_NODE_LABEL || peek_at(ks, p.st().pos) == SyntaxKind::ANON) ==> loop_Collection_1(ks, start, gm1, p.st()) == p.st(),
        ensures
            loop_Collection_1(ks, start, gm1, pre1) == p.st(),
        decreases p.remaining(),
    {
        let ghost si1 = p.st();
        let checkpoint1 = p.pos();
        proof {
            assert(call_ok(ks, start, p.st(), rank_GraphNode(peek_at(ks, p.st().pos)), rank_Collection(peek_at(ks, start)))) by {
                reveal(Parser::st);
                assert(peek_at(ks, start) == old(p).peek());
                assert(peek_at(ks, p.pos as int) == p.peek());
            }
        }
        parse_GraphNode(p);
        proof {
            assert(body_Collection_2(ks, start, gm1, si1) == p.st()) by {
                reveal_with_fuel(body_Collection_2, 1); reveal_with_fuel(rule_GraphNode, 1);
            }
        }
        if p.pos() == checkpoint1 {
            proof {
                assert(loop_Collection_1(ks, start, gm1, si1) == p.st()) by {
                    reveal_with_fuel(loop_Collection_1, 1); reveal_with_fuel(body_Collection_2, 1);
                }
            }
            break;
        }
        proof {
            assert(p.st().pos == p.pos as int) by {
                reveal(Parser::st);
            }
            assert(loop_Collection_1(ks, start, gm1, si1) == loop_Collection_1(ks, start, gm1, p.st())) by {
                reveal_with_fuel(loop_Collection_1, 1); reveal_with_fuel(body_Collection_2, 1);
                reveal(Parser::st);
            }
            if !(peek_at(ks, p.st().pos) == SyntaxKind::IRIREF || peek_at(ks, p.st().pos) == SyntaxKind::PNAME_NS || peek_at(ks, p.st().pos) == SyntaxKind::STRING_LITERAL1 || peek_at(ks, p.st().pos) == SyntaxKind::STRING_LITERAL2 || peek_at(ks, p.st().pos) == SyntaxKind::LParen || peek_at(ks, p.st().pos) == SyntaxKind::INTEGER || peek_at(ks, p.st().pos) == SyntaxKind::NIL || peek_at(ks, p.st().pos) == SyntaxKind::LBrack || peek_at(ks, p.st().pos) == SyntaxKind::DoubleLess || peek_at(ks, p.st().pos) == SyntaxKind::DoubleLessLParen || peek_at(ks, p.st().pos) == SyntaxKind::VAR1 || peek_at(ks, p.st().pos) == SyntaxKind::VAR2 || peek_at(ks, p.st().pos) == SyntaxKind::DECIMAL || peek_at(ks, p.st().pos) == SyntaxKind::DOUBLE || peek_at(ks, p.st().pos) == SyntaxKind::INTEGER_POSITIVE || peek_at(ks, p.st().pos) == SyntaxKind::DECIMAL_POSITIVE || peek_at(ks, p.st().pos) == SyntaxKind::DOUBLE_POSITIVE || peek_at(ks, p.st().pos) == SyntaxKind::INTEGER_NEGATIVE || peek_at(ks, p.st().pos) == SyntaxKind::DECIMAL_NEGATIVE || peek_at(ks, p.st().pos) == SyntaxKind::DOUBLE_NEGATIVE || peek_at(ks, p.st().pos) == SyntaxKind::True || peek_at(ks, p.st().pos) == SyntaxKind::False || peek_at(ks, p.st().pos) == SyntaxKind::STRING_LITERAL_LONG1 || peek_at(ks, p.st().pos) == SyntaxKind::STRING_LITERAL_LONG2 || peek_at(ks, p.st().pos) == SyntaxKind::PNAME_LN || peek_at(ks, p.st().pos) == SyntaxKind::BLANK_NODE_LABEL || peek_at(ks, p.st().pos) == SyntaxKind::ANON) {
                assert(loop_Collection_1(ks, start, gm1, p.st()) == p.st()) by {
                    reveal_with_fuel(loop_Collection_1, 1); reveal_with_fuel(body_Collection_2, 1);
                }
            }
        }
    }
    p.expect(SyntaxKind::RParen);
    p.close(marker, SyntaxKind::Collection);
    proof {
        assert(rule_Collection(ks, s0) == p.st()) by {
            reveal_with_fuel(rule_Collection, 1); reveal_with_fuel(loop_Collection_1, 1); reveal_with_fuel(rule_GraphNode, 1);
        }
    }
}

pub open spec fn rank_BlankNodePropertyList(t: SyntaxKind) -> nat {
    match t {
        SyntaxKind::LBrack => 0,
        SyntaxKind::Eof | SyntaxKind::IRIREF | SyntaxKind::LCurly | SyntaxKind::RCurly | SyntaxKind::VAR1 | SyntaxKind::VAR2 | SyntaxKind::WHERE => 4,
        SyntaxKind::PNAME_LN | SyntaxKind::PNAME_NS => 5,
        _ => 2,
    }
}

/// What [`parse_BlankNodePropertyList`] makes of the parser state.
#[verifier::opaque]
pub open spec fn rule_BlankNodePropertyList(ts: Seq<SyntaxKind>, s: St) -> St
    decreases ts.len() - s.pos, rank_BlankNodePropertyList(peek_at(ts, s.pos)), 32 * (ts.len() - s.pos) + 32,
{
    let start = s.pos;
    let s_in = s;
    let m_marker = s.evs.len() as int;
    let s = st_open(s);
    let s = st_expect(ts, s, SyntaxKind::LBrack);
    let s = if call_ok(ts, start, s, rank_PropertyListNotEmpty(peek_at(ts, s.pos)), rank_BlankNodePropertyList(peek_at(ts, start))) {
        rule_PropertyListNotEmpty(ts, s)
    } else {
        s
    };
    let s = st_expect(ts, s, SyntaxKind::RBrack);
    let s = st_close(s, m_marker, SyntaxKind::BlankNodePropertyList);
    s
}


/// [122] BlankNodePropertyList -> '[' PropertyListNotEmpty ']'
pub(crate) fn parse_BlankNodePropertyList(p: &mut Parser)
    requires
        old(p).wf(),
    ensures
        Parser::step(*old(p), *final(p)),
        final(p).pos == old(p).pos ==> is_sync_point(old(p).peek()),
        old(p).events@.len() < final(p).events@.len(),
        final(p).events@[old(p).events@.len() as int] == (Event::Open { kind: SyntaxKind::BlankNodePropertyList }),
        final(p).events@.last() is Close,
        final(p).st() == rule_BlankNodePropertyList(old(p).kinds(), old(p).st()),
    decreases old(p).remaining(), rank_BlankNodePropertyList(old(p).peek()), 1int,
{
    let ghost ks = p.kinds();
    let ghost s0 = p.st();
    let ghost start = p.pos as int;
    let marker = p.open();
    let ghost gm1 = marker.index as int;
    p.expect(SyntaxKind::LBrack);
    proof {
        assert(call_ok(ks, start, p.st(), rank_PropertyListNotEmpty(peek_at(ks, p.st().pos)), rank_BlankNodePropertyList(peek_at(ks, start)))) by {
            reveal(Parser::st);
            assert(peek_at(ks, start) == old(p).peek());
            assert(peek_at(ks, p.pos as int) == p.peek());
        }
    }
    parse_PropertyListNotEmpty(p);
    p.expect(SyntaxKind::RBrack);
    p.close(marker, SyntaxKind::BlankNodePropertyList);
    proof {
        assert(rule_BlankNodePropertyList(ks, s0) == p.st()) by {
            reveal_with_fuel(rule_BlankNodePropertyList, 1); reveal_with_fuel(rule_PropertyListNotEmpty, 1);
        }
    }
}

pub open spec fn rank_CollectionPath(t: SyntaxKind) -> nat {
    match t {
        SyntaxKind::LParen => 0,
        SyntaxKind::DoubleLess | SyntaxKind::NIL => 2,
        SyntaxKind::ANON | SyntaxKind::BLANK_NODE_LABEL | SyntaxKind::DoubleLessLParen | SyntaxKind::False | SyntaxKind::IRIREF | SyntaxKind::LBrack | SyntaxKind::True | SyntaxKind::VAR1 | SyntaxKind::VAR2 => 3,
        SyntaxKind::DECIMAL | SyntaxKind::DECIMAL_NEGATIVE | SyntaxKind::DECIMAL_POSITIVE | SyntaxKind::DOUBLE | SyntaxKind::DOUBLE_NEGATIVE | SyntaxKind::DOUBLE_POSITIVE | SyntaxKind::INTEGER | SyntaxKind::INTEGER_NEGATIVE | SyntaxKind::INTEGER_POSITIVE | SyntaxKind::PNAME_LN | SyntaxKind::PNAME_NS | SyntaxKind::STRING_LITERAL1 | SyntaxKind::STRING_LITERAL2 | SyntaxKind::STRING_LITERAL_LONG1 | SyntaxKind::STRING_LITERAL_LONG2 => 4,
        _ => 1,
    }
}

/// What [`parse_CollectionPath`] makes of the parser state.
#[verifier::opaque]
pub open spec fn rule_CollectionPath(ts: Seq<SyntaxKind>, s: St) -> St
    decreases ts.len() - s.pos, rank_CollectionPath(peek_at(ts, s.pos)), 32 * (ts.len() - s.pos) + 32,
{
    let start = s.pos;
    let s_in = s;
    let m_marker = s.evs.len() as int;
    let s = st_open(s);
    let s = st_expect(ts, s, SyntaxKind::LParen);
    let s = if call_ok(ts, start, s, rank_GraphNodePath(peek_at(ts, s.pos)), rank_CollectionPath(peek_at(ts, start))) {
        rule_GraphNodePath(ts, s)
    } else {
        s
    };
    let s = if s_in.pos <= s.pos <= ts.len() {
        loop_CollectionPath_1(ts, start, m_marker, s)
    } else {
        s
    };
    let s = st_expect(ts, s, SyntaxKind::RParen);
    let s = st_close(s, m_marker, SyntaxKind::CollectionPath);
    s
}

#[verifier::opaque]
pub open spec fn loop_CollectionPath_1(ts: Seq<SyntaxKind>, start: int, m_marker: int, s: St) -> St
    decreases ts.len() - start, rank_CollectionPath(peek_at(ts, start)), 32 * (ts.len() - s.pos) + 32 - 1,
{
    let s_in = s;
    if (peek_at(ts, s.pos) == SyntaxKind::IRIREF || peek_at(ts, s.pos) == SyntaxKind::PNAME_NS || peek_at(ts, s.pos) == SyntaxKind::STRING_LITERAL1 || peek_at(ts, s.pos) == SyntaxKind::STRING_LITERAL2 || peek_at(ts, s.pos) == SyntaxKind::LParen || peek_at(ts, s.pos) == SyntaxKind::INTEGER || peek_at(ts, s.pos) == SyntaxKind::NIL || peek_at(ts, s.pos) == SyntaxKind::LBrack || peek_at(ts, s.pos) == SyntaxKind::DoubleLess || peek_at(ts, s.pos) == SyntaxKind::DoubleLessLParen || peek_at(ts, s.pos) == SyntaxKind::VAR1 || peek_at(ts, s.pos) == SyntaxKind::VAR2 || peek_at(ts, s.pos) == SyntaxKind::DECIMAL || peek_at(ts, s.pos) == SyntaxKind::DOUBLE || peek_at(ts, s.pos) == SyntaxKind::INTEGER_POSITIVE || peek_at(ts, s.pos) == SyntaxKind::DECIMAL_POSITIVE || peek_at(ts, s.pos) == SyntaxKind::DOUBLE_POSITIVE || peek_at(ts, s.pos) == SyntaxKind::INTEGER_NEGATIVE || peek_at(ts, s.pos) == SyntaxKind::DECIMAL_NEGATIVE || peek_at(ts, s.pos) == SyntaxKind::DOUBLE_NEGATIVE || peek_at(ts, s.pos) == SyntaxKind::True || peek_at(ts, s.pos) == SyntaxKind::False || peek_at(ts, s.pos) == SyntaxKind::STRING_LITERAL_LONG1 || peek_at(ts, s.pos) == SyntaxKind::STRING_LITERAL_LONG2 || peek_at(ts, s.pos) == SyntaxKind::PNAME_LN || peek_at(ts, s.pos) == SyntaxKind::BLANK_NODE_LABEL || peek_at(ts, s.pos) == SyntaxKind::ANON) && s.pos <= ts.len() {
        let s1 = body_CollectionPath_2(ts, start, m_marker, s);
        if s1.pos == s.pos {
            s1
        } else if s.pos < s1.pos <= ts.len() {
            loop_CollectionPath_1(ts, start, m_marker, s1)
        } else {
            s1
        }
    } else {
        s
    }
}

#[verifier::opaque]
pub open spec fn body_CollectionPath_2(ts: Seq<SyntaxKind>, start: int, m_marker: int, s: St) -> St
    decreases ts.len() - start, rank_CollectionPath(peek_at(ts, start)), 32 * (ts.len() - s.pos) + 32 - 2,
{
    let s_in = s;
    let s = if call_ok(ts, start, s, rank_GraphNodePath(peek_at(ts, s.pos)), rank_CollectionPath(peek_at(ts, start))) {
        rule_GraphNodePath(ts, s)
    } else {
        s
    };
    s
}

/// [123] CollectionPath -> '(' GraphNodePath GraphNodePath* ')'
pub(crate) fn parse_CollectionPath(p: &mut Parser)
    requires
        old(p).wf(),
    ensures
        Parser::step(*old(p), *final(p)),
        final(p).pos == old(p).pos ==> is_sync_point(old(p).peek()),
        old(p).events@.len() < final(p).events@.len(),
        final(p).events@[old(p).events@.len() as int] == (Event::Open { kind: SyntaxKind::CollectionPath }),
        final(p).events@.last() is Close,
        final(p).st() == rule_CollectionPath(old(p).kinds(), old(p).st()),
    decreases old(p).remaining(), rank_CollectionPath(old(p).peek()), 1int,
{
    let ghost ks = p.kinds();
    let ghost s0 = p.st();
    let ghost start = p.pos as int;
    let marker = p.open();
    let ghost gm1 = marker.index as int;
    p.expect(SyntaxKind::LParen);
    proof {
        assert(call_ok(ks, start, p.st(), rank_GraphNodePath(peek_at(ks, p.st().pos)), rank_CollectionPath(peek_at(ks, start)))) by {
            reveal(Parser::st);
            assert(peek_at(ks, start) == old(p).peek());
            assert(peek_at(ks, p.pos as int) == p.peek());
        }
    }
    parse_GraphNodePath(p);
    let ghost pre1 = p.st();
    proof {
        assert(p.st().pos == p.pos as int) by {
            reveal(Parser::st);
        }
        if !(peek_at(ks, p.st().pos) == SyntaxKind::IRIREF || peek_at(ks, p.st().pos) == SyntaxKind::PNAME_NS || peek_at(ks, p.st().pos) == SyntaxKind::STRING_LITERAL1 || peek_at(ks, p.st().pos) == SyntaxKind::STRING_LITERAL2 || peek_at(ks, p.st().pos) == SyntaxKind::LParen || peek_at(ks, p.st().pos) == SyntaxKind::INTEGER || peek_at(ks, p.st().pos) == SyntaxKind::NIL || peek_at(ks, p.st().pos) == SyntaxKind::LBrack || peek_at(ks, p.st().pos) == SyntaxKind::DoubleLess || peek_at(ks, p.st().pos) == SyntaxKind::DoubleLessLParen || peek_at(ks, p.st().pos) == SyntaxKind::VAR1 || peek_at(ks, p.st().pos) == SyntaxKind::VAR2 || peek_at(ks, p.st().pos) == SyntaxKind::DECIMAL || peek_at(ks, p.st().pos) == SyntaxKind::DOUBLE || peek_at(ks, p.st().pos) == SyntaxKind::INTEGER_POSITIVE || peek_at(ks, p.st().pos) == SyntaxKind::DECIMAL_POSITIVE || peek_at(ks, p.st().pos) == SyntaxKind::DOUBLE_POSITIVE || peek_at(ks, p.st().pos) == SyntaxKind::INTEGER_NEGATIVE || peek_at(ks, p.st().pos) == SyntaxKind::DECIMAL_NEGATIVE || peek_at(ks, p.st().pos) == SyntaxKind::DOUBLE_NEGATIVE || peek_at(ks, p.st().pos) == SyntaxKind::True || peek_at(ks, p.st().pos) == SyntaxKind::False || peek_at(ks, p.st().pos) == SyntaxKind::STRING_LITERAL_LONG1 || peek_at(ks, p.st().pos) == SyntaxKind::STRING_LITERAL_LONG2 || peek_at(ks, p.st().pos) == SyntaxKind::PNAME_LN || peek_at(ks, p.st().pos) == SyntaxKind::BLANK_NODE_LABEL || peek_at(ks, p.st().pos) == SyntaxKind::ANON) {
            assert(loop_CollectionPath_1(ks, start, gm1, pre1) == pre1) by {
                reveal_with_fuel(loop_CollectionPath_1, 1); reveal_with_fuel(body_CollectionPath_2, 1);
            }
        }
    }
    while p.at_any(&[SyntaxKind::IRIREF, SyntaxKind::PNAME_NS, SyntaxKind::STRING_LITERAL1, SyntaxKind::STRING_LITERAL2, SyntaxKind::LParen, SyntaxKind::INTEGER, SyntaxKind::NIL, SyntaxKind::LBrack, SyntaxKind::DoubleLess, SyntaxKind::DoubleLessLParen, SyntaxKind::VAR1, SyntaxKind::VAR2, SyntaxKind::DECIMAL, SyntaxKind::DOUBLE, SyntaxKind::INTEGER_POSITIVE, SyntaxKind::DECIMAL_POSITIVE, SyntaxKind::DOUBLE_POSITIVE, SyntaxKind::INTEGER_NEGATIVE, SyntaxKind::DECIMAL_NEGATIVE, SyntaxKind::DOUBLE_NEGATIVE, SyntaxKind::True, SyntaxKind::False, SyntaxKind::STRING_LITERAL_LONG1, SyntaxKind::STRING_LITERAL_LONG2, SyntaxKind::PNAME_LN, SyntaxKind::BLANK_NODE_LABEL, SyntaxKind::ANON])
        invariant
            marker.index == old(p).events@.len(),
            p.wf(),
            p.tokens@ == old(p).tokens@,
            old(p).pos <= p.pos,
            p.stack() == old(p).stack().push(marker.index as int),
            p.pos == old(p).pos ==> is_sync_point(old(p).peek()),
            ks == p.kinds(),
            p.st().pos == p.pos as int,
            start == old(p).pos as int,
            gm1 == marker.index as int,
            pre1.pos <= p.pos,
            start <= pre1.pos,
            loop_CollectionPath_1(ks, start, gm1, p.st()) == loop_CollectionPath_1(ks, start, gm1, pre1),
            !(peek_at(ks, p.st().pos) == SyntaxKind::IRIREF || peek_at(ks, p.st().pos) == SyntaxKind::PNAME_NS || peek_at(ks, p.st().pos) == SyntaxKind::STRING_LITERAL1 || peek_at(ks, p.st().pos) == SyntaxKind::STRING_LITERAL2 || peek_at(ks, p.st().pos) == SyntaxKind::LParen || peek_at(ks, p.st().pos) == SyntaxKind::INTEGER || peek_at(ks, p.st().pos) == SyntaxKind::NIL || peek_at(ks, p.st().pos) == SyntaxKind::LBrack || peek_at(ks, p.st().pos) == SyntaxKind::DoubleLess || peek_at(ks, p.st().pos) == SyntaxKind::DoubleLessLParen || peek_at(ks, p.st().pos) == SyntaxKind::VAR1 || peek_at(ks, p.st().pos) == SyntaxKind::VAR2 || peek_at(ks, p.st().pos) == SyntaxKind::DECIMAL || peek_at(ks, p.st().pos) == SyntaxKind::DOUBLE || peek_at(ks, p.st().pos) == SyntaxKind::INTEGER_POSITIVE || peek_at(ks, p.st().pos) == SyntaxKind::DECIMAL_POSITIVE || peek_at(ks, p.st().pos) == SyntaxKind::DOUBLE_POSITIVE || peek_at(ks, p.st().pos) == SyntaxKind::INTEGER_NEGATIVE || peek_at(ks, p.st().pos) == SyntaxKind::DECIMAL_NEGATIVE || peek_at(ks, p.st().pos) == SyntaxKind::DOUBLE_NEGATIVE || peek_at(ks, p.st().pos) == SyntaxKind::True || peek_at(ks, p.st().pos) == SyntaxKind::False || peek_at(ks, p.st().pos) == SyntaxKind::STRING_LITERAL_LONG1 || peek_at(ks, p.st().pos) == SyntaxKind::STRING_LITERAL_LONG2 || peek_at(ks, p.st().pos) == SyntaxKind::PNAME_LN || peek_at(ks, p.st().pos) == SyntaxKind::BLANK_NODE_LABEL || peek_at(ks, p.st().pos) == SyntaxKind::ANON) ==> loop_CollectionPath_1(ks, start, gm1, p.st()) == p.st(),
        ensures
            loop_CollectionPath_1(ks, start, gm1, pre1) == p.st(),
        decreases p.remaining(),
    {
        let ghost si1 = p.st();
        let checkpoint1 = p.pos();
        proof {
            assert(call_ok(ks, start, p.st(), rank_GraphNodePath(peek_at(ks, p.st().pos)), rank_CollectionPath(peek_at(ks, start)))) by {
                reveal(Parser::st);
                assert(peek_at(ks, start) == old(p).peek());
                assert(peek_at(ks, p.pos as int) == p.peek());
            }
        }
        parse_GraphNodePath(p);
        proof {
            assert(body_CollectionPath_2(ks, start, gm1, si1) == p.st()) by {
                reveal_with_fuel(body_CollectionPath_2, 1); reveal_with_fuel(rule_GraphNodePath, 1);
            }
        }
        if p.pos() == checkpoint1 {
            proof {
                assert(loop_CollectionPath_1(ks, start, gm1, si1) == p.st()) by {
                    reveal_with_fuel(loop_CollectionPath_1, 1); reveal_with_fuel(body_CollectionPath_2, 1);
                }
            }
            break;
        }
        proof {
            assert(p.st().pos == p.pos as int) by {
                reveal(Parser::st);
            }
            assert(loop_CollectionPath_1(ks, start, gm1, si1) == loop_CollectionPath_1(ks, start, gm1, p.st())) by {
                reveal_with_fuel(loop_CollectionPath_1, 1); reveal_with_fuel(body_CollectionPath_2, 1);
                reveal(Parser::st);
            }
            if !(peek_at(ks, p.st().pos) == SyntaxKind::IRIREF || peek_at(ks, p.st().pos) == SyntaxKind::PNAME_NS || peek_at(ks, p.st().pos) == SyntaxKind::STRING_LITERAL1 || peek_at(ks, p.st().pos) == SyntaxKind::STRING_LITERAL2 || peek_at(ks, p.st().pos) == SyntaxKind::LParen || peek_at(ks, p.st().pos) == SyntaxKind::INTEGER || peek_at(ks, p.st().pos) == SyntaxKind::NIL || peek_at(ks, p.st().pos) == SyntaxKind::LBrack || peek_at(ks, p.st().pos) == SyntaxKind::DoubleLess || peek_at(ks, p.st().pos) == SyntaxKind::DoubleLessLParen || peek_at(ks, p.st().pos) == SyntaxKind::VAR1 || peek_at(ks, p.st().pos) == SyntaxKind::VAR2 || peek_at(ks, p.st().pos) == SyntaxKind::DECIMAL || peek_at(ks, p.st().pos) == SyntaxKind::DOUBLE || peek_at(ks, p.st().pos) == SyntaxKind::INTEGER_POSITIVE || peek_at(ks, p.st().pos) == SyntaxKind::DECIMAL_POSITIVE || peek_at(ks, p.st().pos) == SyntaxKind::DOUBLE_POSITIVE || peek_at(ks, p.st().pos) == SyntaxKind::INTEGER_NEGATIVE || peek_at(ks, p.st().pos) == SyntaxKind::DECIMAL_NEGATIVE || peek_at(ks, p.st().pos) == SyntaxKind::DOUBLE_NEGATIVE || peek_at(ks, p.st().pos) == SyntaxKind::True || peek_at(ks, p.st().pos) == SyntaxKind::False || peek_at(ks, p.st().pos) == SyntaxKind::STRING_LITERAL_LONG1 || peek_at(ks, p.st().pos) == SyntaxKind::STRING_LITERAL_LONG2 || peek_at(ks, p.st().pos) == SyntaxKind::PNAME_LN || peek_at(ks, p.st().pos) == SyntaxKind::BLANK_NODE_LABEL || peek_at(ks, p.st().pos) == SyntaxKind::ANON) {
                assert(loop_CollectionPath_1(ks, start, gm1, p.st()) == p.st()) by {
                    reveal_with_fuel(loop_CollectionPath_1, 1); reveal_with_fuel(body_CollectionPath_2, 1);
                }
            }
        }
    }
    p.expect(SyntaxKind::RParen);
    p.close(marker, SyntaxKind::CollectionPath);
    proof {
        assert(rule_CollectionPath(ks, s0) == p.st()) by {
            reveal_with_fuel(rule_CollectionPath, 1); reveal_with_fuel(loop_CollectionPath_1, 1); reveal_with_fuel(rule_GraphNodePath, 1);
        }
    }
}

pub open spec fn rank_BlankNodePropertyListPath(t: SyntaxKind) -> nat {
    match t {
        SyntaxKind::LBrack => 0,
        SyntaxKind::VAR1 | SyntaxKind::VAR2 => 3,
        SyntaxKind::LCurly | SyntaxKind::RCurly | SyntaxKind::WHERE => 4,
        SyntaxKind::Zirkumflex => 6,
        SyntaxKind::ExclamationMark | SyntaxKind::LParen | SyntaxKind::a => 8,
        SyntaxKind::IRIREF => 9,
        SyntaxKind::PNAME_LN | SyntaxKind::PNAME_NS => 10,
        _ => 1,
    }
}

/// What [`parse_BlankNodePropertyListPath`] makes of the parser state.
#[verifier::opaque]
pub open spec fn rule_BlankNodePropertyListPath(ts: Seq<SyntaxKind>, s: St) -> St
    decreases ts.len() - s.pos, rank_BlankNodePropertyListPath(peek_at(ts, s.pos)), 32 * (ts.len() - s.pos) + 32,
{
    let start = s.pos;
    let s_in = s;
    let m_marker = s.evs.len() as int;
    let s = st_open(s);
    let s = st_expect(ts, s, SyntaxKind::LBrack);
    let s = if call_ok(ts, start, s, rank_PropertyListPathNotEmpty(peek_at(ts, s.pos)), rank_BlankNodePropertyListPath(peek_at(ts, start))) {
        rule_PropertyListPathNotEmpty(ts, s)
    } else {
        s
    };
    let s = st_expect(ts, s, SyntaxKind::RBrack);
    let s = st_close(s, m_marker, SyntaxKind::BlankNodePropertyListPath);
    s
}


/// [124] BlankNodePropertyListPath -> '[' PropertyListPathNotEmpty ']'
pub(crate) fn parse_BlankNodePropertyListPath(p: &mut Parser)
    requires
        old(p).wf(),
    ensures
        Parser::step(*old(p), *final(p)),
        final(p).pos == old(p).pos ==> is_sync_point(old(p).peek()),
        old(p).events@.len() < final(p).events@.len(),
        final(p).events@[old(p).events@.len() as int] == (Event::Open { kind: SyntaxKind::BlankNodePropertyListPath }),
        final(p).events@.last() is Close,
        final(p).st() == rule_BlankNodePropertyListPath(old(p).kinds(), old(p).st()),
    decreases old(p).remaining(), rank_BlankNodePropertyListPath(old(p).peek()), 1int,
{
    let ghost ks = p.kinds();
    let ghost s0 = p.st();
    let ghost start = p.pos as int;
    let marker = p.open();
    let ghost gm1 = marker.index as int;
    p.expect(SyntaxKind::LBrack);
    proof {
        assert(call_ok(ks, start, p.st(), rank_PropertyListPathNotEmpty(peek_at(ks, p.st().pos)), rank_BlankNodePropertyListPath(peek_at(ks, start)))) by {
            reveal(Parser::st);
            assert(peek_at(ks, start) == old(p).peek());
            assert(peek_at(ks, p.pos as int) == p.peek());
        }
    }
    parse_PropertyListPathNotEmpty(p);
    p.expect(SyntaxKind::RBrack);
    p.close(marker, SyntaxKind::BlankNodePropertyListPath);
    proof {
        assert(rule_BlankNodePropertyListPath(ks, s0) == p.st()) by {
            reveal_with_fuel(rule_BlankNodePropertyListPath, 1); reveal_with_fuel(rule_PropertyListPathNotEmpty, 1);
        }
    }
}

pub open spec fn rank_AnnotationBlockPath(t: SyntaxKind) -> nat {
    match t {
        SyntaxKind::LCurlyPipe => 0,
        SyntaxKind::VAR1 | SyntaxKind::VAR2 => 3,
        SyntaxKind::LCurly | SyntaxKind::RCurly | SyntaxKind::WHERE => 4,
        SyntaxKind::Zirkumflex => 6,
        SyntaxKind::ExclamationMark | SyntaxKind::LParen | SyntaxKind::a => 8,
        SyntaxKind::IRIREF => 9,
        SyntaxKind::PNAME_LN | SyntaxKind::PNAME_NS => 10,
        _ => 1,
    }
}

/// What [`parse_AnnotationBlockPath`] makes of the parser state.
#[verifier::opaque]
pub open spec fn rule_AnnotationBlockPath(ts: Seq<SyntaxKind>, s: St) -> St
    decreases ts.len() - s.pos, rank_AnnotationBlockPath(peek_at(ts, s.pos)), 32 * (ts.len() - s.pos) + 32,
{
    let start = s.pos;
    let s_in = s;
    let m_marker = s.evs.len() as int;
    let s = st_open(s);
    let s = st_expect(ts, s, SyntaxKind::LCurlyPipe);
    let s = if call_ok(ts, start, s, rank_PropertyListPathNotEmpty(peek_at(ts, s.pos)), rank_AnnotationBlockPath(peek_at(ts, start))) {
        rule_PropertyListPathNotEmpty(ts, s)
    } else {
        s
    };
    let s = st_expect(ts, s, SyntaxKind::PipeRCurly);
    let s = st_close(s, m_marker, SyntaxKind::AnnotationBlockPath);
    s
}


/// [125] AnnotationBlockPath -> '{|' PropertyListPathNotEmpty '|}'
pub(crate) fn parse_AnnotationBlockPath(p: &mut Parser)
    requires
        old(p).wf(),
    ensures
        Parser::step(*old(p), *final(p)),
        final(p).pos == old(p).pos ==> is_sync_point(old(p).peek()),
        old(p).events@.len() < final(p).events@.len(),
        final(p).events@[old(p).events@.len() as int] == (Event::Open { kind: SyntaxKind::AnnotationBlockPath }),
        final(p).events@.last() is Close,
        final(p).st() == rule_AnnotationBlockPath(old(p).kinds(), old(p).st()),
    decreases old(p).remaining(), rank_AnnotationBlockPath(old(p).peek()), 1int,
{
    let ghost ks = p.kinds();
    let ghost s0 = p.st();
    let ghost start = p.pos as int;
    let marker = p.open();
    let ghost gm1 = marker.index as int;
    p.expect(SyntaxKind::LCurlyPipe);
    proof {
        assert(call_ok(ks, start, p.st(), rank_PropertyListPathNotEmpty(peek_at(ks, p.st().pos)), rank_AnnotationBlockPath(peek_at(ks, start)))) by {
            reveal(Parser::st);
            assert(peek_at(ks, start) == old(p).peek());
            assert(peek_at(ks, p.pos as int) == p.peek());
        }
    }
    parse_PropertyListPathNotEmpty(p);
    p.expect(SyntaxKind::PipeRCurly);
    p.close(marker, SyntaxKind::AnnotationBlockPath);
    proof {
        assert(rule_AnnotationBlockPath(ks, s0) == p.st()) by {
            reveal_with_fuel(rule_AnnotationBlockPath, 1); reveal_with_fuel(rule_PropertyListPathNotEmpty, 1);
        }
    }
}

pub open spec fn rank_AnnotationBlock(t: SyntaxKind) -> nat {
    match t {
        SyntaxKind::LCurlyPipe => 0,
        SyntaxKind::Eof | SyntaxKind::IRIREF | SyntaxKind::LCurly | SyntaxKind::RCurly | SyntaxKind::VAR1 | SyntaxKind::VAR2 | SyntaxKind::WHERE => 4,
        SyntaxKind::PNAME_LN | SyntaxKind::PNAME_NS => 5,
        _ => 2,
    }
}

/// What [`parse_AnnotationBlock`] makes of the parser state.
#[verifier::opaque]
pub open spec fn rule_AnnotationBlock(ts: Seq<SyntaxKind>, s: St) -> St
    decreases ts.len() - s.pos, rank_AnnotationBlock(peek_at(ts, s.pos)), 32 * (ts.len() - s.pos) + 32,
{
    let start = s.pos;
    let s_in = s;
    let m_marker = s.evs.len() as int;
    let s = st_open(s);
    let s = st_expect(ts, s, SyntaxKind::LCurlyPipe);
    let s = if call_ok(ts, start, s, rank_PropertyListNotEmpty(peek_at(ts, s.pos)), rank_AnnotationBlock(peek_at(ts, start))) {
        rule_PropertyListNotEmpty(ts, s)
    } else {
        s
    };
    let s = st_expect(ts, s, SyntaxKind::PipeRCurly);
    let s = st_close(s, m_marker, SyntaxKind::AnnotationBlock);
    s
}


/// [126] AnnotationBlock -> '{|' PropertyListNotEmpty '|}'
pub(crate) fn parse_AnnotationBlock(p: &mut Parser)
    requires
        old(p).wf(),
    ensures
        Parser::step(*old(p), *final(p)),
        final(p).pos == old(p).pos ==> is_sync_point(old(p).peek()),
        old(p).events@.len() < final(p).events@.len(),
        final(p).events@[old(p).events@.len() as int] == (Event::Open { kind: SyntaxKind::AnnotationBlock }),
        final(p).events@.last() is Close,
        final(p).st() == rule_AnnotationBlock(old(p).kinds(), old(p).st()),
    decreases old(p).remaining(), rank_AnnotationBlock(old(p).peek()), 1int,
{
    let ghost ks = p.kinds();
    let ghost s0 = p.st();
    let ghost start = p.pos as int;
    let marker = p.open();
    let ghost gm1 = marker.index as int;
    p.expect(SyntaxKind::LCurlyPipe);
    proof {
        assert(call_ok(ks, start, p.st(), rank_PropertyListNotEmpty(peek_at(ks, p.st().pos)), rank_AnnotationBlock(peek_at(ks, start)))) by {
            reveal(Parser::st);
            assert(peek_at(ks, start) == old(p).peek());
            assert(peek_at(ks, p.pos as int) == p.peek());
        }
    }
    parse_PropertyListNotEmpty(p);
    p.expect(SyntaxKind::PipeRCurly);
    p.close(marker, SyntaxKind::AnnotationBlock);
    proof {
        assert(rule_AnnotationBlock(ks, s0) == p.st()) by {
            reveal_with_fuel(rule_AnnotationBlock, 1); reveal_with_fuel(rule_PropertyListNotEmpty, 1);
        }
    }
}

pub open spec fn rank_TripleTerm(t: SyntaxKind) -> nat {
    match t {
        SyntaxKind::DoubleLessLParen => 0,
        SyntaxKind::ANON | SyntaxKind::BLANK_NODE_LABEL | SyntaxKind::False | SyntaxKind::IRIREF | SyntaxKind::True | SyntaxKind::VAR1 | SyntaxKind::VAR2 => 2,
        SyntaxKind::DECIMAL | SyntaxKind::DECIMAL_NEGATIVE | SyntaxKind::DECIMAL_POSITIVE | SyntaxKind::DOUBLE | SyntaxKind::DOUBLE_NEGATIVE | SyntaxKind::DOUBLE_POSITIVE | SyntaxKind::INTEGER | SyntaxKind::INTEGER_NEGATIVE | SyntaxKind::INTEGER_POSITIVE | SyntaxKind::PNAME_LN | SyntaxKind::PNAME_NS | SyntaxKind::STRING_LITERAL1 | SyntaxKind::STRING_LITERAL2 | SyntaxKind::STRING_LITERAL_LONG1 | SyntaxKind::STRING_LITERAL_LONG2 => 3,
        _ => 1,
    }
}

/// What [`parse_TripleTerm`] makes of the parser state.
#[verifier::opaque]
pub open spec fn rule_TripleTerm(ts: Seq<SyntaxKind>, s: St) -> St
    decreases ts.len() - s.pos, rank_TripleTerm(peek_at(ts, s.pos)), 32 * (ts.len() - s.pos) + 32,
{
    let start = s.pos;
    let s_in = s;
    let m_marker = s.evs.len() as int;
    let s = st_open(s);
    let s = st_expect(ts, s, SyntaxKind::DoubleLessLParen);
    let s = if call_ok(ts, start, s, rank_TripleTermSubject(peek_at(ts, s.pos)), rank_TripleTerm(peek_at(ts, start))) {
        rule_TripleTermSubject(ts, s)
    } else {
        s
    };
    let s = rule_Verb(ts, s);
    let s = if call_ok(ts, start, s, rank_TripleTermObject(peek_at(ts, s.pos)), rank_TripleTerm(peek_at(ts, start))) {
        rule_TripleTermObject(ts, s)
    } else {
        s
    };
    let s = st_expect(ts, s, SyntaxKind::RParenDoubleMore);
    let s = st_close(s, m_marker, SyntaxKind::TripleTerm);
    s
}


/// [127] TripleTerm -> '<<(' TripleTermSubject Verb TripleTermObject ')>>'
pub(crate) fn parse_TripleTerm(p: &mut Parser)
    requires
        old(p).wf(),
    ensures
        Parser::step(*old(p), *final(p)),
        final(p).pos == old(p).pos ==> is_sync_point(old(p).peek()),
        old(p).events@.len() < final(p).events@.len(),
        final(p).events@[old(p).events@.len() as int] == (Event::Open { kind: SyntaxKind::TripleTerm }),
        final(p).events@.last() is Close,
        final(p).st() == rule_TripleTerm(old(p).kinds(), old(p).st()),
    decreases old(p).remaining(), rank_TripleTerm(old(p).peek()), 1int,
{
    let ghost ks = p.kinds();
    let ghost s0 = p.st();
    let ghost start = p.pos as int;
    let marker = p.open();
    let ghost gm1 = marker.index as int;
    p.expect(SyntaxKind::DoubleLessLParen);
    proof {
        assert(call_ok(ks, start, p.st(), rank_TripleTermSubject(peek_at(ks, p.st().pos)), rank_TripleTerm(peek_at(ks, start)))) by {
            reveal(Parser::st);
            assert(peek_at(ks, start) == old(p).peek());
            assert(peek_at(ks, p.pos as int) == p.peek());
        }
    }
    parse_TripleTermSubject(p);
    parse_Verb(p);
    proof {
        assert(call_ok(ks, start, p.st(), rank_TripleTermObject(peek_at(ks, p.st().pos)), rank_TripleTerm(peek_at(ks, start)))) by {
            reveal(Parser::st);
            assert(peek_at(ks, start) == old(p).peek());
            assert(peek_at(ks, p.pos as int) == p.peek());
        }
    }
    parse_TripleTermObject(p);
    p.expect(SyntaxKind::RParenDoubleMore);
    p.close(marker, SyntaxKind::TripleTerm);
    proof {
        assert(rule_TripleTerm(ks, s0) == p.st()) by {
            reveal_with_fuel(rule_TripleTerm, 1); reveal_with_fuel(rule_TripleTermObject, 1); reveal_with_fuel(rule_TripleTermSubject, 1);
        }
    }
}

pub open spec fn rank_ReifiedTripleSubject(t: SyntaxKind) -> nat {
    match t {
        SyntaxKind::ANON | SyntaxKind::BLANK_NODE_LABEL | SyntaxKind::DoubleLess | SyntaxKind::DoubleLessLParen | SyntaxKind::False | SyntaxKind::IRIREF | SyntaxKind::True | SyntaxKind::VAR1 | SyntaxKind::VAR2 => 1,
        SyntaxKind::DECIMAL | SyntaxKind::DECIMAL_NEGATIVE | SyntaxKind::DECIMAL_POSITIVE | SyntaxKind::DOUBLE | SyntaxKind::DOUBLE_NEGATIVE | SyntaxKind::DOUBLE_POSITIVE | SyntaxKind::INTEGER | SyntaxKind::INTEGER_NEGATIVE | SyntaxKind::INTEGER_POSITIVE | SyntaxKind::PNAME_LN | SyntaxKind::PNAME_NS | SyntaxKind::STRING_LITERAL1 | SyntaxKind::STRING_LITERAL2 | SyntaxKind::STRING_LITERAL_LONG1 | SyntaxKind::STRING_LITERAL_LONG2 => 2,
        _ => 0,
    }
}

/// What [`parse_ReifiedTripleSubject`] makes of the parser state.
#[verifier::opaque]
pub open spec fn rule_ReifiedTripleSubject(ts: Seq<SyntaxKind>, s: St) -> St
    decreases ts.len() - s.pos, rank_ReifiedTripleSubject(peek_at(ts, s.pos)), 32 * (ts.len() - s.pos) + 32,
{
    let start = s.pos;
    let s_in = s;
    let m_marker = s.evs.len() as int;
    let s = st_open(s);
    let (s, r) = if s_in.pos <= s.pos <= ts.len() {
        match_ReifiedTripleSubject_1(ts, start, m_marker, s)
    } else {
        (s, false)
    };
    if r {
        s
    } else {
        let s = st_close(s, m_marker, SyntaxKind::ReifiedTripleSubject);
        s
    }
}

#[verifier::opaque]
pub open spec fn match_ReifiedTripleSubject_1(ts: Seq<SyntaxKind>, start: int, m_marker: int, s: St) -> (St, bool)
    decreases ts.len() - start, rank_ReifiedTripleSubject(peek_at(ts, start)), 32 * (ts.len() - s.pos) + 32 - 1,
{
    let s_in = s;
    if (peek_at(ts, s.pos) == SyntaxKind::VAR1 || peek_at(ts, s.pos) == SyntaxKind::VAR2) {
        let s = rule_Var(ts, s);
        (s, false)
    } else if (peek_at(ts, s.pos) == SyntaxKind::IRIREF || peek_at(ts, s.pos) == SyntaxKind::PNAME_NS || peek_at(ts, s.pos) == SyntaxKind::PNAME_LN) {
        let s = rule_iri(ts, s);
        (s, false)
    } else if (peek_at(ts, s.pos) == SyntaxKind::STRING_LITERAL1 || peek_at(ts, s.pos) == SyntaxKind::STRING_LITERAL2 || peek_at(ts, s.pos) == SyntaxKind::STRING_LITERAL_LONG1 || peek_at(ts, s.pos) == SyntaxKind::STRING_LITERAL_LONG2) {
        let s = rule_RDFLiteral(ts, s);
        (s, false)
    } else if (peek_at(ts, s.pos) == SyntaxKind::INTEGER || peek_at(ts, s.pos) == SyntaxKind::DECIMAL || peek_at(ts, s.pos) == SyntaxKind::DOUBLE || peek_at(ts, s.pos) == SyntaxKind::INTEGER_POSITIVE || peek_at(ts, s.pos) == SyntaxKind::DECIMAL_POSITIVE || peek_at(ts, s.pos) == SyntaxKind::DOUBLE_POSITIVE || peek_at(ts, s.pos) == SyntaxKind::INTEGER_NEGATIVE || peek_at(ts, s.pos) == SyntaxKind::DECIMAL_NEGATIVE || peek_at(ts, s.pos) == SyntaxKind::DOUBLE_NEGATIVE) {
        let s = rule_NumericLiteral(ts, s);
        (s, false)
    } else if (peek_at(ts, s.pos) == SyntaxKind::True || peek_at(ts, s.pos) == SyntaxKind::False) {
        let s = rule_BooleanLiteral(ts, s);
        (s, false)
    } else if (peek_at(ts, s.pos) == SyntaxKind::BLANK_NODE_LABEL || peek_at(ts, s.pos) == SyntaxKind::ANON) {
        let s = rule_BlankNode(ts, s);
        (s, false)
    } else if (peek_at(ts, s.pos) == SyntaxKind::DoubleLess) {
        let s = if call_ok(ts, start, s, rank_ReifiedTriple(peek_at(ts, s.pos)), rank_ReifiedTripleSubject(peek_at(ts, start))) {
            rule_ReifiedTriple(ts, s)
        } else {
            s
        };
        (s, false)
    } else if (peek_at(ts, s.pos) == SyntaxKind::DoubleLessLParen) {
        let s = if call_ok(ts, start, s, rank_TripleTerm(peek_at(ts, s.pos)), rank_ReifiedTripleSubject(peek_at(ts, start))) {
            rule_TripleTerm(ts, s)
        } else {
            s
        };
        (s, false)
    } else if (peek_at(ts, s.pos) == SyntaxKind::Eof) {
        let s = st_close(s, m_marker, SyntaxKind::ReifiedTripleSubject);
        let m_marker = s.evs.len() as int;
        let s = st_open(s);
        let s = st_close(s, m_marker, SyntaxKind::Error);
        (s, true)
    } else {
        let s = st_advance_with_error(ts, s, seq![SyntaxKind::VAR1, SyntaxKind::VAR2, SyntaxKind::IRIREF, SyntaxKind::PNAME_NS, SyntaxKind::PNAME_LN, SyntaxKind::STRING_LITERAL1, SyntaxKind::STRING_LITERAL2, SyntaxKind::STRING_LITERAL_LONG1, SyntaxKind::STRING_LITERAL_LONG2, SyntaxKind::INTEGER, SyntaxKind::DECIMAL, SyntaxKind::DOUBLE, SyntaxKind::INTEGER_POSITIVE, SyntaxKind::DECIMAL_POSITIVE, SyntaxKind::DOUBLE_POSITIVE, SyntaxKind::INTEGER_NEGATIVE, SyntaxKind::DECIMAL_NEGATIVE, SyntaxKind::DOUBLE_NEGATIVE, SyntaxKind::True, SyntaxKind::False, SyntaxKind::BLANK_NODE_LABEL, SyntaxKind::ANON, SyntaxKind::DoubleLess, SyntaxKind::DoubleLessLParen]);
        (s, false)
    }
}

/// [128] ReifiedTripleSubject -> Var | iri | RDFLiteral | NumericLiteral | BooleanLiteral | BlankNode | ReifiedTriple | TripleTerm
pub(crate) fn parse_ReifiedTripleSubject(p: &mut Parser)
    requires
        old(p).wf(),
    ensures
        Parser::step(*old(p), *final(p)),
        final(p).pos == old(p).pos ==> is_sync_point(old(p).peek()),
        old(p).events@.len() < final(p).events@.len(),
        final(p).events@[old(p).events@.len() as int] == (Event::Open { kind: SyntaxKind::ReifiedTripleSubject }),
        final(p).events@.last() is Close,
        final(p).st() == rule_ReifiedTripleSubject(old(p).kinds(), old(p).st()),
    decreases old(p).remaining(), rank_ReifiedTripleSubject(old(p).peek()), 1int,
{
    let ghost ks = p.kinds();
    let ghost s0 = p.st();
    let ghost start = p.pos as int;
    let marker = p.open();
    let ghost gm1 = marker.index as int;
    let ghost pre1 = p.st();
    match p.nth(0) {
        SyntaxKind::VAR1 | SyntaxKind::VAR2 => {
            parse_Var(p);
            proof {
                assert(match_ReifiedTripleSubject_1(ks, start, gm1, pre1) == (p.st(), false)) by {
                    reveal_with_fuel(match_ReifiedTripleSubject_1, 1);
                }
            }
        },
        SyntaxKind::IRIREF | SyntaxKind::PNAME_NS | SyntaxKind::PNAME_LN => {
            parse_iri(p);
            proof {
                assert(match_ReifiedTripleSubject_1(ks, start, gm1, pre1) == (p.st(), false)) by {
                    reveal_with_fuel(match_ReifiedTripleSubject_1, 1);
                }
            }
        },
        SyntaxKind::STRING_LITERAL1 | SyntaxKind::STRING_LITERAL2 | SyntaxKind::STRING_LITERAL_LONG1 | SyntaxKind::STRING_LITERAL_LONG2 => {
            parse_RDFLiteral(p);
            proof {
                assert(match_ReifiedTripleSubject_1(ks, start, gm1, pre1) == (p.st(), false)) by {
                    reveal_with_fuel(match_ReifiedTripleSubject_1, 1);
                }
            }
        },
        SyntaxKind::INTEGER | SyntaxKind::DECIMAL | SyntaxKind::DOUBLE | SyntaxKind::INTEGER_POSITIVE | SyntaxKind::DECIMAL_POSITIVE | SyntaxKind::DOUBLE_POSITIVE | SyntaxKind::INTEGER_NEGATIVE | SyntaxKind::DECIMAL_NEGATIVE | SyntaxKind::DOUBLE_NEGATIVE => {
            parse_NumericLiteral(p);
            proof {
                assert(match_ReifiedTripleSubject_1(ks, start, gm1, pre1) == (p.st(), false)) by {
                    reveal_with_fuel(match_ReifiedTripleSubject_1, 1);
                }
            }
        },
        SyntaxKind::True | SyntaxKind::False => {
            parse_BooleanLiteral(p);
            proof {
                assert(match_ReifiedTripleSubject_1(ks, start, gm1, pre1) == (p.st(), false)) by {
                    reveal_with_fuel(match_ReifiedTripleSubject_1, 1);
                }
            }
        },
        SyntaxKind::BLANK_NODE_LABEL | SyntaxKind::ANON => {
            parse_BlankNode(p);
            proof {
                assert(match_ReifiedTripleSubject_1(ks, start, gm1, pre1) == (p.st(), false)) by {
                    reveal_with_fuel(match_ReifiedTripleSubject_1, 1);
                }
            }
        },
        SyntaxKind::DoubleLess => {
            proof {
                assert(call_ok(ks, start, p.st(), rank_ReifiedTriple(peek_at(ks, p.st().pos)), rank_ReifiedTripleSubject(peek_at(ks, start)))) by {
                    reveal(Parser::st);
                    assert(peek_at(ks, start) == old(p).peek());
                    assert(peek_at(ks, p.pos as int) == p.peek());
                }
            }
            parse_ReifiedTriple(p);
            proof {
                assert(match_ReifiedTripleSubject_1(ks, start, gm1, pre1) == (p.st(), false)) by {
                    reveal_with_fuel(match_ReifiedTripleSubject_1, 1); reveal_with_fuel(rule_ReifiedTriple, 1);
                }
            }
        },
        SyntaxKind::DoubleLessLParen => {
            proof {
                assert(call_ok(ks, start, p.st(), rank_TripleTerm(peek_at(ks, p.st().pos)), rank_ReifiedTripleSubject(peek_at(ks, start)))) by {
                    reveal(Parser::st);
                    assert(peek_at(ks, start) == old(p).peek());
                    assert(peek_at(ks, p.pos as int) == p.peek());
                }
            }
            parse_TripleTerm(p);
            proof {
                assert(match_ReifiedTripleSubject_1(ks, start, gm1, pre1) == (p.st(), false)) by {
                    reveal_with_fuel(match_ReifiedTripleSubject_1, 1); reveal_with_fuel(rule_TripleTerm, 1);
                }
            }
        },
        SyntaxKind::Eof => {
            p.close(marker, SyntaxKind::ReifiedTripleSubject);
            let marker = p.open();
            let ghost gm2 = marker.index as int;
            p.close(marker, SyntaxKind::Error);
            proof {
                assert(match_ReifiedTripleSubject_1(ks, start, gm1, pre1) == (p.st(), true)) by {
                    reveal_with_fuel(match_ReifiedTripleSubject_1, 1);
                }
            }
            proof {
                assert(rule_ReifiedTripleSubject(ks, s0) == p.st()) by {
                    reveal_with_fuel(rule_ReifiedTripleSubject, 1); reveal_with_fuel(match_ReifiedTripleSubject_1, 1);
                }
            }
            return ;
        },
        _ => {
            p.advance_with_error(vec![SyntaxKind::VAR1, SyntaxKind::VAR2, SyntaxKind::IRIREF, SyntaxKind::PNAME_NS, SyntaxKind::PNAME_LN, SyntaxKind::STRING_LITERAL1, SyntaxKind::STRING_LITERAL2, SyntaxKind::STRING_LITERAL_LONG1, SyntaxKind::STRING_LITERAL_LONG2, SyntaxKind::INTEGER, SyntaxKind::DECIMAL, SyntaxKind::DOUBLE, SyntaxKind::INTEGER_POSITIVE, SyntaxKind::DECIMAL_POSITIVE, SyntaxKind::DOUBLE_POSITIVE, SyntaxKind::INTEGER_NEGATIVE, SyntaxKind::DECIMAL_NEGATIVE, SyntaxKind::DOUBLE_NEGATIVE, SyntaxKind::True, SyntaxKind::False, SyntaxKind::BLANK_NODE_LABEL, SyntaxKind::ANON, SyntaxKind::DoubleLess, SyntaxKind::DoubleLessLParen]);
            proof {
                assert(match_ReifiedTripleSubject_1(ks, start, gm1, pre1) == (p.st(), false)) by {
                    reveal_with_fuel(match_ReifiedTripleSubject_1, 1);
                }
            }
        },
    }
    p.close(marker, SyntaxKind::ReifiedTripleSubject);
    proof {
        assert(rule_ReifiedTripleSubject(ks, s0) == p.st()) by {
            reveal_with_fuel(rule_ReifiedTripleSubject, 1); reveal_with_fuel(match_ReifiedTripleSubject_1, 1);
        }
    }
}

pub open spec fn rank_ReifiedTripleObject(t: SyntaxKind) -> nat {
    match t {
        SyntaxKind::ANON | SyntaxKind::BLANK_NODE_LABEL | SyntaxKind::DoubleLess | SyntaxKind::DoubleLessLParen | SyntaxKind::False | SyntaxKind::IRIREF | SyntaxKind::True | SyntaxKind::VAR1 | SyntaxKind::VAR2 => 1,
        SyntaxKind::DECIMAL | SyntaxKind::DECIMAL_NEGATIVE | SyntaxKind::DECIMAL_POSITIVE | SyntaxKind::DOUBLE | SyntaxKind::DOUBLE_NEGATIVE | SyntaxKind::DOUBLE_POSITIVE | SyntaxKind::INTEGER | SyntaxKind::INTEGER_NEGATIVE | SyntaxKind::INTEGER_POSITIVE | SyntaxKind::PNAME_LN | SyntaxKind::PNAME_NS | SyntaxKind::STRING_LITERAL1 | SyntaxKind::STRING_LITERAL2 | SyntaxKind::STRING_LITERAL_LONG1 | SyntaxKind::STRING_LITERAL_LONG2 => 2,
        _ => 0,
    }
}

/// What [`parse_ReifiedTripleObject`] makes of the parser state.
#[verifier::opaque]
pub open spec fn rule_ReifiedTripleObject(ts: Seq<SyntaxKind>, s: St) -> St
    decreases ts.len() - s.pos, rank_ReifiedTripleObject(peek_at(ts, s.pos)), 32 * (ts.len() - s.pos) + 32,
{
    let start = s.pos;
    let s_in = s;
    let m_marker = s.evs.len() as int;
    let s = st_open(s);
    let (s, r) = if s_in.pos <= s.pos <= ts.len() {
        match_ReifiedTripleObject_1(ts, start, m_marker, s)
    } else {
        (s, false)
    };
    if r {
        s
    } else {
        let s = st_close(s, m_marker, SyntaxKind::ReifiedTripleObject);
        s
    }
}

#[verifier::opaque]
pub open spec fn match_ReifiedTripleObject_1(ts: Seq<SyntaxKind>, start: int, m_marker: int, s: St) -> (St, bool)
    decreases ts.len() - start, rank_ReifiedTripleObject(peek_at(ts, start)), 32 * (ts.len() - s.pos) + 32 - 1,
{
    let s_in = s;
    if (peek_at(ts, s.pos) == SyntaxKind::VAR1 || peek_at(ts, s.pos) == SyntaxKind::VAR2) {
        let s = rule_Var(ts, s);
        (s, false)
    } else if (peek_at(ts, s.pos) == SyntaxKind::IRIREF || peek_at(ts, s.pos) == SyntaxKind::PNAME_NS || peek_at(ts, s.pos) == SyntaxKind::PNAME_LN) {
        let s = rule_iri(ts, s);
        (s, false)
    } else if (peek_at(ts, s.pos) == SyntaxKind::STRING_LITERAL1 || peek_at(ts, s.pos) == SyntaxKind::STRING_LITERAL2 || peek_at(ts, s.pos) == SyntaxKind::STRING_LITERAL_LONG1 || peek_at(ts, s.pos) == SyntaxKind::STRING_LITERAL_LONG2) {
        let s = rule_RDFLiteral(ts, s);
        (s, false)
    } else if (peek_at(ts, s.pos) == SyntaxKind::INTEGER || peek_at(ts, s.pos) == SyntaxKind::DECIMAL || peek_at(ts, s.pos) == SyntaxKind::DOUBLE || peek_at(ts, s.pos) == SyntaxKind::INTEGER_POSITIVE || peek_at(ts, s.pos) == SyntaxKind::DECIMAL_POSITIVE || peek_at(ts, s.pos) == SyntaxKind::DOUBLE_POSITIVE || peek_at(ts, s.pos) == SyntaxKind::INTEGER_NEGATIVE || peek_at(ts, s.pos) == SyntaxKind::DECIMAL_NEGATIVE || peek_at(ts, s.pos) == SyntaxKind::DOUBLE_NEGATIVE) {
        let s = rule_NumericLiteral(ts, s);
        (s, false)
    } else if (peek_at(ts, s.pos) == SyntaxKind::True || peek_at(ts, s.pos) == SyntaxKind::False) {
        let s = rule_BooleanLiteral(ts, s);
        (s, false)
    } else if (peek_at(ts, s.pos) == SyntaxKind::BLANK_NODE_LABEL || peek_at(ts, s.pos) == SyntaxKind::ANON) {
        let s = rule_BlankNode(ts, s);
        (s, false)
    } else if (peek_at(ts, s.pos) == SyntaxKind::DoubleLess) {
        let s = if call_ok(ts, start, s, rank_ReifiedTriple(peek_at(ts, s.pos)), rank_ReifiedTripleObject(peek_at(ts, start))) {
            rule_ReifiedTriple(ts, s)
        } else {
            s
        };
        (s, false)
    } else if (peek_at(ts, s.pos) == SyntaxKind::DoubleLessLParen) {
        let s = if call_ok(ts, start, s, rank_TripleTerm(peek_at(ts, s.pos)), rank_ReifiedTripleObject(peek_at(ts, start))) {
            rule_TripleTerm(ts, s)
        } else {
            s
        };
        (s, false)
    } else if (peek_at(ts, s.pos) == SyntaxKind::Eof) {
        let s = st_close(s, m_marker, SyntaxKind::ReifiedTripleObject);
        let m_marker = s.evs.len() as int;
        let s = st_open(s);
        let s = st_close(s, m_marker, SyntaxKind::Error);
        (s, true)
    } else {
        let s = st_advance_with_error(ts, s, seq![SyntaxKind::VAR1, SyntaxKind::VAR2, SyntaxKind::IRIREF, SyntaxKind::PNAME_NS, SyntaxKind::PNAME_LN, SyntaxKind::STRING_LITERAL1, SyntaxKind::STRING_LITERAL2, SyntaxKind::STRING_LITERAL_LONG1, SyntaxKind::STRING_LITERAL_LONG2, SyntaxKind::INTEGER, SyntaxKind::DECIMAL, SyntaxKind::DOUBLE, SyntaxKind::INTEGER_POSITIVE, SyntaxKind::DECIMAL_POSITIVE, SyntaxKind::DOUBLE_POSITIVE, SyntaxKind::INTEGER_NEGATIVE, SyntaxKind::DECIMAL_NEGATIVE, SyntaxKind::DOUBLE_NEGATIVE, SyntaxKind::True, SyntaxKind::False, SyntaxKind::BLANK_NODE_LABEL, SyntaxKind::ANON, SyntaxKind::DoubleLess, SyntaxKind::DoubleLessLParen]);
        (s, false)
    }
}

/// [129] ReifiedTripleObject -> Var | iri | RDFLiteral | NumericLiteral | BooleanLiteral | BlankNode | ReifiedTriple | TripleTerm
pub(crate) fn parse_ReifiedTripleObject(p: &mut Parser)
    requires
        old(p).wf(),
    ensures
        Parser::step(*old(p), *final(p)),
        final(p).pos == old(p).pos ==> is_sync_point(old(p).peek()),
        old(p).events@.len() < final(p).events@.len(),
        final(p).events@[old(p).events@.len() as int] == (Event::Open { kind: SyntaxKind::ReifiedTripleObject }),
        final(p).events@.last() is Close,
        final(p).st() == rule_ReifiedTripleObject(old(p).kinds(), old(p).st()),
    decreases old(p).remaining(), rank_ReifiedTripleObject(old(p).peek()), 1int,
{
    let ghost ks = p.kinds();
    let ghost s0 = p.st();
    let ghost start = p.pos as int;
    let marker = p.open();
    let ghost gm1 = marker.index as int;
    let ghost pre1 = p.st();
    match p.nth(0) {
        SyntaxKind::VAR1 | SyntaxKind::VAR2 => {
            parse_Var(p);
            proof {
                assert(match_ReifiedTripleObject_1(ks, start, gm1, pre1) == (p.st(), false)) by {
                    reveal_with_fuel(match_ReifiedTripleObject_1, 1);
                }
            }
        },
        SyntaxKind::IRIREF | SyntaxKind::PNAME_NS | SyntaxKind::PNAME_LN => {
            parse_iri(p);
            proof {
                assert(match_ReifiedTripleObject_1(ks, start, gm1, pre1) == (p.st(), false)) by {
                    reveal_with_fuel(match_ReifiedTripleObject_1, 1);
                }
            }
        },
        SyntaxKind::STRING_LITERAL1 | SyntaxKind::STRING_LITERAL2 | SyntaxKind::STRING_LITERAL_LONG1 | SyntaxKind::STRING_LITERAL_LONG2 => {
            parse_RDFLiteral(p);
            proof {
                assert(match_ReifiedTripleObject_1(ks, start, gm1, pre1) == (p.st(), false)) by {
                    reveal_with_fuel(match_ReifiedTripleObject_1, 1);
                }
            }
        },
        SyntaxKind::INTEGER | SyntaxKind::DECIMAL | SyntaxKind::DOUBLE | SyntaxKind::INTEGER_POSITIVE | SyntaxKind::DECIMAL_POSITIVE | SyntaxKind::DOUBLE_POSITIVE | SyntaxKind::INTEGER_NEGATIVE | SyntaxKind::DECIMAL_NEGATIVE | SyntaxKind::DOUBLE_NEGATIVE => {
            parse_NumericLiteral(p);
            proof {
                assert(match_ReifiedTripleObject_1(ks, start, gm1, pre1) == (p.st(), false)) by {
                    reveal_with_fuel(match_ReifiedTripleObject_1, 1);
                }
            }
        },
        SyntaxKind::True | SyntaxKind::False => {
            parse_BooleanLiteral(p);
            proof {
                assert(match_ReifiedTripleObject_1(ks, start, gm1, pre1) == (p.st(), false)) by {
                    reveal_with_fuel(match_ReifiedTripleObject_1, 1);
                }
            }
        },
        SyntaxKind::BLANK_NODE_LABEL | SyntaxKind::ANON => {
            parse_BlankNode(p);
            proof {
                assert(match_ReifiedTripleObject_1(ks, start, gm1, pre1) == (p.st(), false)) by {
                    reveal_with_fuel(match_ReifiedTripleObject_1, 1);
                }
            }
        },
        SyntaxKind::DoubleLess => {
            proof {
                assert(call_ok(ks, start, p.st(), rank_ReifiedTriple(peek_at(ks, p.st().pos)), rank_ReifiedTripleObject(peek_at(ks, start)))) by {
                    reveal(Parser::st);
                    assert(peek_at(ks, start) == old(p).peek());
                    assert(peek_at(ks, p.pos as int) == p.peek());
                }
            }
            parse_ReifiedTriple(p);
            proof {
                assert(match_ReifiedTripleObject_1(ks, start, gm1, pre1) == (p.st(), false)) by {
                    reveal_with_fuel(match_ReifiedTripleObject_1, 1); reveal_with_fuel(rule_ReifiedTriple, 1);
                }
            }
        },
        SyntaxKind::DoubleLessLParen => {
            proof {
                assert(call_ok(ks, start, p.st(), rank_TripleTerm(peek_at(ks, p.st().pos)), rank_ReifiedTripleObject(peek_at(ks, start)))) by {
                    reveal(Parser::st);
                    assert(peek_at(ks, start) == old(p).peek());
                    assert(peek_at(ks, p.pos as int) == p.peek());
                }
            }
            parse_TripleTerm(p);
            proof {
                assert(match_ReifiedTripleObject_1(ks, start, gm1, pre1) == (p.st(), false)) by {
                    reveal_with_fuel(match_ReifiedTripleObject_1, 1); reveal_with_fuel(rule_TripleTerm, 1);
                }
            }
        },
        SyntaxKind::Eof => {
            p.close(marker, SyntaxKind::ReifiedTripleObject);
            let marker = p.open();
            let ghost gm2 = marker.index as int;
            p.close(marker, SyntaxKind::Error);
            proof {
                assert(match_ReifiedTripleObject_1(ks, start, gm1, pre1) == (p.st(), true)) by {
                    reveal_with_fuel(match_ReifiedTripleObject_1, 1);
                }
            }
            proof {
                assert(rule_ReifiedTripleObject(ks, s0) == p.st()) by {
                    reveal_with_fuel(rule_ReifiedTripleObject, 1); reveal_with_fuel(match_ReifiedTripleObject_1, 1);
                }
            }
            return ;
        },
        _ => {
            p.advance_with_error(vec![SyntaxKind::VAR1, SyntaxKind::VAR2, SyntaxKind::IRIREF, SyntaxKind::PNAME_NS, SyntaxKind::PNAME_LN, SyntaxKind::STRING_LITERAL1, SyntaxKind::STRING_LITERAL2, SyntaxKind::STRING_LITERAL_LONG1, SyntaxKind::STRING_LITERAL_LONG2, SyntaxKind::INTEGER, SyntaxKind::DECIMAL, SyntaxKind::DOUBLE, SyntaxKind::INTEGER_POSITIVE, SyntaxKind::DECIMAL_POSITIVE, SyntaxKind::DOUBLE_POSITIVE, SyntaxKind::INTEGER_NEGATIVE, SyntaxKind::DECIMAL_NEGATIVE, SyntaxKind::DOUBLE_NEGATIVE, SyntaxKind::True, SyntaxKind::False, SyntaxKind::BLANK_NODE_LABEL, SyntaxKind::ANON, SyntaxKind::DoubleLess, SyntaxKind::DoubleLessLParen]);
            proof {
                assert(match_ReifiedTripleObject_1(ks, start, gm1, pre1) == (p.st(), false)) by {
                    reveal_with_fuel(match_ReifiedTripleObject_1, 1);
                }
            }
        },
    }
    p.close(marker, SyntaxKind::ReifiedTripleObject);
    proof {
        assert(rule_ReifiedTripleObject(ks, s0) == p.st()) by {
            reveal_with_fuel(rule_ReifiedTripleObject, 1); reveal_with_fuel(match_ReifiedTripleObject_1, 1);
        }
    }
}

pub open spec fn rank_TripleTermSubject(t: SyntaxKind) -> nat {
    match t {
        SyntaxKind::ANON | SyntaxKind::BLANK_NODE_LABEL | SyntaxKind::DoubleLessLParen | SyntaxKind::False | SyntaxKind::IRIREF | SyntaxKind::True | SyntaxKind::VAR1 | SyntaxKind::VAR2 => 1,
        SyntaxKind::DECIMAL | SyntaxKind::DECIMAL_NEGATIVE | SyntaxKind::DECIMAL_POSITIVE | SyntaxKind::DOUBLE | SyntaxKind::DOUBLE_NEGATIVE | SyntaxKind::DOUBLE_POSITIVE | SyntaxKind::INTEGER | SyntaxKind::INTEGER_NEGATIVE | SyntaxKind::INTEGER_POSITIVE | SyntaxKind::PNAME_LN | SyntaxKind::PNAME_NS | SyntaxKind::STRING_LITERAL1 | SyntaxKind::STRING_LITERAL2 | SyntaxKind::STRING_LITERAL_LONG1 | SyntaxKind::STRING_LITERAL_LONG2 => 2,
        _ => 0,
    }
}

/// What [`parse_TripleTermSubject`] makes of the parser state.
#[verifier::opaque]
pub open spec fn rule_TripleTermSubject(ts: Seq<SyntaxKind>, s: St) -> St
    decreases ts.len() - s.pos, rank_TripleTermSubject(peek_at(ts, s.pos)), 32 * (ts.len() - s.pos) + 32,
{
    let start = s.pos;
    let s_in = s;
    let m_marker = s.evs.len() as int;
    let s = st_open(s);
    let (s, r) = if s_in.pos <= s.pos <= ts.len() {
        match_TripleTermSubject_1(ts, start, m_marker, s)
    } else {
        (s, false)
    };
    if r {
        s
    } else {
        let s = st_close(s, m_marker, SyntaxKind::TripleTermSubject);
        s
    }
}

#[verifier::opaque]
pub open spec fn match_TripleTermSubject_1(ts: Seq<SyntaxKind>, start: int, m_marker: int, s: St) -> (St, bool)
    decreases ts.len() - start, rank_TripleTermSubject(peek_at(ts, start)), 32 * (ts.len() - s.pos) + 32 - 1,
{
    let s_in = s;
    if (peek_at(ts, s.pos) == SyntaxKind::VAR1 || peek_at(ts, s.pos) == SyntaxKind::VAR2) {
        let s = rule_Var(ts, s);
        (s, false)
    } else if (peek_at(ts, s.pos) == SyntaxKind::IRIREF || peek_at(ts, s.pos) == SyntaxKind::PNAME_NS || peek_at(ts, s.pos) == SyntaxKind::PNAME_LN) {
        let s = rule_iri(ts, s);
        (s, false)
    } else if (peek_at(ts, s.pos) == SyntaxKind::STRING_LITERAL1 || peek_at(ts, s.pos) == SyntaxKind::STRING_LITERAL2 || peek_at(ts, s.pos) == SyntaxKind::STRING_LITERAL_LONG1 || peek_at(ts, s.pos) == SyntaxKind::STRING_LITERAL_LONG2) {
        let s = rule_RDFLiteral(ts, s);
        (s, false)
    } else if (peek_at(ts, s.pos) == SyntaxKind::INTEGER || peek_at(ts, s.pos) == SyntaxKind::DECIMAL || peek_at(ts, s.pos) == SyntaxKind::DOUBLE || peek_at(ts, s.pos) == SyntaxKind::INTEGER_POSITIVE || peek_at(ts, s.pos) == SyntaxKind::DECIMAL_POSITIVE || peek_at(ts, s.pos) == SyntaxKind::DOUBLE_POSITIVE || peek_at(ts, s.pos) == SyntaxKind::INTEGER_NEGATIVE || peek_at(ts, s.pos) == SyntaxKind::DECIMAL_NEGATIVE || peek_at(ts, s.pos) == SyntaxKind::DOUBLE_NEGATIVE) {
        let s = rule_NumericLiteral(ts, s);
        (s, false)
    } else if (peek_at(ts, s.pos) == SyntaxKind::True || peek_at(ts, s.pos) == SyntaxKind::False) {
        let s = rule_BooleanLiteral(ts, s);
        (s, false)
    } else if (peek_at(ts, s.pos) == SyntaxKind::BLANK_NODE_LABEL || peek_at(ts, s.pos) == SyntaxKind::ANON) {
        let s = rule_BlankNode(ts, s);
        (s, false)
    } else if (peek_at(ts, s.pos) == SyntaxKind::DoubleLessLParen) {
        let s = if call_ok(ts, start, s, rank_TripleTerm(peek_at(ts, s.pos)), rank_TripleTermSubject(peek_at(ts, start))) {
            rule_TripleTerm(ts, s)
        } else {
            s
        };
        (s, false)
    } else if (peek_at(ts, s.pos) == SyntaxKind::Eof) {
        let s = st_close(s, m_marker, SyntaxKind::TripleTermSubject);
        let m_marker = s.evs.len() as int;
        let s = st_open(s);
        let s = st_close(s, m_marker, SyntaxKind::Error);
        (s, true)
    } else {
        let s = st_advance_with_error(ts, s, seq![SyntaxKind::VAR1, SyntaxKind::VAR2, SyntaxKind::IRIREF, SyntaxKind::PNAME_NS, SyntaxKind::PNAME_LN, SyntaxKind::STRING_LITERAL1, SyntaxKind::STRING_LITERAL2, SyntaxKind::STRING_LITERAL_LONG1, SyntaxKind::STRING_LITERAL_LONG2, SyntaxKind::INTEGER, SyntaxKind::DECIMAL, SyntaxKind::DOUBLE, SyntaxKind::INTEGER_POSITIVE, SyntaxKind::DECIMAL_POSITIVE, SyntaxKind::DOUBLE_POSITIVE, SyntaxKind::INTEGER_NEGATIVE, SyntaxKind::DECIMAL_NEGATIVE, SyntaxKind::DOUBLE_NEGATIVE, SyntaxKind::True, SyntaxKind::False, SyntaxKind::BLANK_NODE_LABEL, SyntaxKind::ANON, SyntaxKind::DoubleLessLParen]);
        (s, false)
    }
}

/// [130] TripleTermSubject -> Var | iri | RDFLiteral | NumericLiteral | BooleanLiteral | BlankNode | TripleTerm
pub(crate) fn parse_TripleTermSubject(p: &mut Parser)
    requires
        old(p).wf(),
    ensures
        Parser::step(*old(p), *final(p)),
        final(p).pos == old(p).pos ==> is_sync_point(old(p).peek()),
        old(p).events@.len() < final(p).events@.len(),
        final(p).events@[old(p).events@.len() as int] == (Event::Open { kind: SyntaxKind::TripleTermSubject }),
        final(p).events@.last() is Close,
        final(p).st() == rule_TripleTermSubject(old(p).kinds(), old(p).st()),
    decreases old(p).remaining(), rank_TripleTermSubject(old(p).peek()), 1int,
{
    let ghost ks = p.kinds();
    let ghost s0 = p.st();
    let ghost start = p.pos as int;
    let marker = p.open();
    let ghost gm1 = marker.index as int;
    let ghost pre1 = p.st();
    match p.nth(0) {
        SyntaxKind::VAR1 | SyntaxKind::VAR2 => {
            parse_Var(p);
            proof {
                assert(match_TripleTermSubject_1(ks, start, gm1, pre1) == (p.st(), false)) by {
                    reveal_with_fuel(match_TripleTermSubject_1, 1);
                }
            }
        },
        SyntaxKind::IRIREF | SyntaxKind::PNAME_NS | SyntaxKind::PNAME_LN => {
            parse_iri(p);
            proof {
                assert(match_TripleTermSubject_1(ks, start, gm1, pre1) == (p.st(), false)) by {
                    reveal_with_fuel(match_TripleTermSubject_1, 1);
                }
            }
        },
        SyntaxKind::STRING_LITERAL1 | SyntaxKind::STRING_LITERAL2 | SyntaxKind::STRING_LITERAL_LONG1 | SyntaxKind::STRING_LITERAL_LONG2 => {
            parse_RDFLiteral(p);
            proof {
                assert(match_TripleTermSubject_1(ks, start, gm1, pre1) == (p.st(), false)) by {
                    reveal_with_fuel(match_TripleTermSubject_1, 1);
                }
            }
        },
        SyntaxKind::INTEGER | SyntaxKind::DECIMAL | SyntaxKind::DOUBLE | SyntaxKind::INTEGER_POSITIVE | SyntaxKind::DECIMAL_POSITIVE | SyntaxKind::DOUBLE_POSITIVE | SyntaxKind::INTEGER_NEGATIVE | SyntaxKind::DECIMAL_NEGATIVE | SyntaxKind::DOUBLE_NEGATIVE => {
            parse_NumericLiteral(p);
            proof {
                assert(match_TripleTermSubject_1(ks, start, gm1, pre1) == (p.st(), false)) by {
                    reveal_with_fuel(match_TripleTermSubject_1, 1);
                }
            }
        },
        SyntaxKind::True | SyntaxKind::False => {
            parse_BooleanLiteral(p);
            proof {
                assert(match_TripleTermSubject_1(ks, start, gm1, pre1) == (p.st(), false)) by {
                    reveal_with_fuel(match_TripleTermSubject_1, 1);
                }
            }
        },
        SyntaxKind::BLANK_NODE_LABEL | SyntaxKind::ANON => {
            parse_BlankNode(p);
            proof {
                assert(match_TripleTermSubject_1(ks, start, gm1, pre1) == (p.st(), false)) by {
                    reveal_with_fuel(match_TripleTermSubject_1, 1);
                }
            }
        },
        SyntaxKind::DoubleLessLParen => {
            proof {
                assert(call_ok(ks, start, p.st(), rank_TripleTerm(peek_at(ks, p.st().pos)), rank_TripleTermSubject(peek_at(ks, start)))) by {
                    reveal(Parser::st);
                    assert(peek_at(ks, start) == old(p).peek());
                    assert(peek_at(ks, p.pos as int) == p.peek());
                }
            }
            parse_TripleTerm(p);
            proof {
                assert(match_TripleTermSubject_1(ks, start, gm1, pre1) == (p.st(), false)) by {
                    reveal_with_fuel(match_TripleTermSubject_1, 1); reveal_with_fuel(rule_TripleTerm, 1);
                }
            }
        },
        SyntaxKind::Eof => {
            p.close(marker, SyntaxKind::TripleTermSubject);
            let marker = p.open();
            let ghost gm2 = marker.index as int;
            p.close(marker, SyntaxKind::Error);
            proof {
                assert(match_TripleTermSubject_1(ks, start, gm1, pre1) == (p.st(), true)) by {
                    reveal_with_fuel(match_TripleTermSubject_1, 1);
                }
            }
            proof {
                assert(rule_TripleTermSubject(ks, s0) == p.st()) by {
                    reveal_with_fuel(rule_TripleTermSubject, 1); reveal_with_fuel(match_TripleTermSubject_1, 1);
                }
            }
            return ;
        },
        _ => {
            p.advance_with_error(vec![SyntaxKind::VAR1, SyntaxKind::VAR2, SyntaxKind::IRIREF, SyntaxKind::PNAME_NS, SyntaxKind::PNAME_LN, SyntaxKind::STRING_LITERAL1, SyntaxKind::STRING_LITERAL2, SyntaxKind::STRING_LITERAL_LONG1, SyntaxKind::STRING_LITERAL_LONG2, SyntaxKind::INTEGER, SyntaxKind::DECIMAL, SyntaxKind::DOUBLE, SyntaxKind::INTEGER_POSITIVE, SyntaxKind::DECIMAL_POSITIVE, SyntaxKind::DOUBLE_POSITIVE, SyntaxKind::INTEGER_NEGATIVE, SyntaxKind::DECIMAL_NEGATIVE, SyntaxKind::DOUBLE_NEGATIVE, SyntaxKind::True, SyntaxKind::False, SyntaxKind::BLANK_NODE_LABEL, SyntaxKind::ANON, SyntaxKind::DoubleLessLParen]);
            proof {
                assert(match_TripleTermSubject_1(ks, start, gm1, pre1) == (p.st(), false)) by {
                    reveal_with_fuel(match_TripleTermSubject_1, 1);
                }
            }
        },
    }
    p.close(marker, SyntaxKind::TripleTermSubject);
    proof {
        assert(rule_TripleTermSubject(ks, s0) == p.st()) by {
            reveal_with_fuel(rule_TripleTermSubject, 1); reveal_with_fuel(match_TripleTermSubject_1, 1);
        }
    }
}

pub open spec fn rank_TripleTermObject(t: SyntaxKind) -> nat {
    match t {
        SyntaxKind::ANON | SyntaxKind::BLANK_NODE_LABEL | SyntaxKind::DoubleLessLParen | SyntaxKind::False | SyntaxKind::IRIREF | SyntaxKind::True | SyntaxKind::VAR1 | SyntaxKind::VAR2 => 1,
        SyntaxKind::DECIMAL | SyntaxKind::DECIMAL_NEGATIVE | SyntaxKind::DECIMAL_POSITIVE | SyntaxKind::DOUBLE | SyntaxKind::DOUBLE_NEGATIVE | SyntaxKind::DOUBLE_POSITIVE | SyntaxKind::INTEGER | SyntaxKind::INTEGER_NEGATIVE | SyntaxKind::INTEGER_POSITIVE | SyntaxKind::PNAME_LN | SyntaxKind::PNAME_NS | SyntaxKind::STRING_LITERAL1 | SyntaxKind::STRING_LITERAL2 | SyntaxKind::STRING_LITERAL_LONG1 | SyntaxKind::STRING_LITERAL_LONG2 => 2,
        _ => 0,
    }
}

/// What [`parse_TripleTermObject`] makes of the parser state.
#[verifier::opaque]
pub open spec fn rule_TripleTermObject(ts: Seq<SyntaxKind>, s: St) -> St
    decreases ts.len() - s.pos, rank_TripleTermObject(peek_at(ts, s.pos)), 32 * (ts.len() - s.pos) + 32,
{
    let start = s.pos;
    let s_in = s;
    let m_marker = s.evs.len() as int;
    let s = st_open(s);
    let (s, r) = if s_in.pos <= s.pos <= ts.len() {
        match_TripleTermObject_1(ts, start, m_marker, s)
    } else {
        (s, false)
    };
    if r {
        s
    } else {
        let s = st_close(s, m_marker, SyntaxKind::TripleTermObject);
        s
    }
}

#[verifier::opaque]
pub open spec fn match_TripleTermObject_1(ts: Seq<SyntaxKind>, start: int, m_marker: int, s: St) -> (St, bool)
    decreases ts.len() - start, rank_TripleTermObject(peek_at(ts, start)), 32 * (ts.len() - s.pos) + 32 - 1,
{
    let s_in = s;
    if (peek_at(ts, s.pos) == SyntaxKind::VAR1 || peek_at(ts, s.pos) == SyntaxKind::VAR2) {
        let s = rule_Var(ts, s);
        (s, false)
    } else if (peek_at(ts, s.pos) == SyntaxKind::IRIREF || peek_at(ts, s.pos) == SyntaxKind::PNAME_NS || peek_at(ts, s.pos) == SyntaxKind::PNAME_LN) {
        let s = rule_iri(ts, s);
        (s, false)
    } else if (peek_at(ts, s.pos) == SyntaxKind::STRING_LITERAL1 || peek_at(ts, s.pos) == SyntaxKind::STRING_LITERAL2 || peek_at(ts, s.pos) == SyntaxKind::STRING_LITERAL_LONG1 || peek_at(ts, s.pos) == SyntaxKind::STRING_LITERAL_LONG2) {
        let s = rule_RDFLiteral(ts, s);
        (s, false)
    } else if (peek_at(ts, s.pos) == SyntaxKind::INTEGER || peek_at(ts, s.pos) == SyntaxKind::DECIMAL || peek_at(ts, s.pos) == SyntaxKind::DOUBLE || peek_at(ts, s.pos) == SyntaxKind::INTEGER_POSITIVE || peek_at(ts, s.pos) == SyntaxKind::DECIMAL_POSITIVE || peek_at(ts, s.pos) == SyntaxKind::DOUBLE_POSITIVE || peek_at(ts, s.pos) == SyntaxKind::INTEGER_NEGATIVE || peek_at(ts, s.pos) == SyntaxKind::DECIMAL_NEGATIVE || peek_at(ts, s.pos) == SyntaxKind::DOUBLE_NEGATIVE) {
        let s = rule_NumericLiteral(ts, s);
        (s, false)
    } else if (peek_at(ts, s.pos) == SyntaxKind::True || peek_at(ts, s.pos) == SyntaxKind::False) {
        let s = rule_BooleanLiteral(ts, s);
        (s, false)
    } else if (peek_at(ts, s.pos) == SyntaxKind::BLANK_NODE_LABEL || peek_at(ts, s.pos) == SyntaxKind::ANON) {
        let s = rule_BlankNode(ts, s);
        (s, false)
    } else if (peek_at(ts, s.pos) == SyntaxKind::DoubleLessLParen) {
        let s = if call_ok(ts, start, s, rank_TripleTerm(peek_at(ts, s.pos)), rank_TripleTermObject(peek_at(ts, start))) {
            rule_TripleTerm(ts, s)
        } else {
            s
        };
        (s, false)
    } else if (peek_at(ts, s.pos) == SyntaxKind::Eof) {
        let s = st_close(s, m_marker, SyntaxKind::TripleTermObject);
        let m_marker = s.evs.len() as int;
        let s = st_open(s);
        let s = st_close(s, m_marker, SyntaxKind::Error);
        (s, true)
    } else {
        let s = st_advance_with_error(ts, s, seq![SyntaxKind::VAR1, SyntaxKind::VAR2, SyntaxKind::IRIREF, SyntaxKind::PNAME_NS, SyntaxKind::PNAME_LN, SyntaxKind::STRING_LITERAL1, SyntaxKind::STRING_LITERAL2, SyntaxKind::STRING_LITERAL_LONG1, SyntaxKind::STRING_LITERAL_LONG2, SyntaxKind::INTEGER, SyntaxKind::DECIMAL, SyntaxKind::DOUBLE, SyntaxKind::INTEGER_POSITIVE, SyntaxKind::DECIMAL_POSITIVE, SyntaxKind::DOUBLE_POSITIVE, SyntaxKind::INTEGER_NEGATIVE, SyntaxKind::DECIMAL_NEGATIVE, SyntaxKind::DOUBLE_NEGATIVE, SyntaxKind::True, SyntaxKind::False, SyntaxKind::BLANK_NODE_LABEL, SyntaxKind::ANON, SyntaxKind::DoubleLessLParen]);
        (s, false)
    }
}

/// [131] TripleTermObject -> Var | iri | RDFLiteral | NumericLiteral | BooleanLiteral | BlankNode | TripleTerm
pub(crate) fn parse_TripleTermObject(p: &mut Parser)
    requires
        old(p).wf(),
    ensures
        Parser::step(*old(p), *final(p)),
        final(p).pos == old(p).pos ==> is_sync_point(old(p).peek()),
        old(p).events@.len() < final(p).events@.len(),
        final(p).events@[old(p).events@.len() as int] == (Event::Open { kind: SyntaxKind::TripleTermObject }),
        final(p).events@.last() is Close,
        final(p).st() == rule_TripleTermObject(old(p).kinds(), old(p).st()),
    decreases old(p).remaining(), rank_TripleTermObject(old(p).peek()), 1int,
{
    let ghost ks = p.kinds();
    let ghost s0 = p.st();
    let ghost start = p.pos as int;
    let marker = p.open();
    let ghost gm1 = marker.index as int;
    let ghost pre1 = p.st();
    match p.nth(0) {
        SyntaxKind::VAR1 | SyntaxKind::VAR2 => {
            parse_Var(p);
            proof {
                assert(match_TripleTermObject_1(ks, start, gm1, pre1) == (p.st(), false)) by {
                    reveal_with_fuel(match_TripleTermObject_1, 1);
                }
            }
        },
        SyntaxKind::IRIREF | SyntaxKind::PNAME_NS | SyntaxKind::PNAME_LN => {
            parse_iri(p);
            proof {
                assert(match_TripleTermObject_1(ks, start, gm1, pre1) == (p.st(), false)) by {
                    reveal_with_fuel(match_TripleTermObject_1, 1);
                }
            }
        },
        SyntaxKind::STRING_LITERAL1 | SyntaxKind::STRING_LITERAL2 | SyntaxKind::STRING_LITERAL_LONG1 | SyntaxKind::STRING_LITERAL_LONG2 => {
            parse_RDFLiteral(p);
            proof {
                assert(match_TripleTermObject_1(ks, start, gm1, pre1) == (p.st(), false)) by {
                    reveal_with_fuel(match_TripleTermObject_1, 1);
                }
            }
        },
        SyntaxKind::INTEGER | SyntaxKind::DECIMAL | SyntaxKind::DOUBLE | SyntaxKind::INTEGER_POSITIVE | SyntaxKind::DECIMAL_POSITIVE | SyntaxKind::DOUBLE_POSITIVE | SyntaxKind::INTEGER_NEGATIVE | SyntaxKind::DECIMAL_NEGATIVE | SyntaxKind::DOUBLE_NEGATIVE => {
            parse_NumericLiteral(p);
            proof {
                assert(match_TripleTermObject_1(ks, start, gm1, pre1) == (p.st(), false)) by {
                    reveal_with_fuel(match_TripleTermObject_1, 1);
                }
            }
        },
        SyntaxKind::True | SyntaxKind::False => {
            parse_BooleanLiteral(p);
            proof {
                assert(match_TripleTermObject_1(ks, start, gm1, pre1) == (p.st(), false)) by {
                    reveal_with_fuel(match_TripleTermObject_1, 1);
                }
            }
        },
        SyntaxKind::BLANK_NODE_LABEL | SyntaxKind::ANON => {
            parse_BlankNode(p);
            proof {
                assert(match_TripleTermObject_1(ks, start, gm1, pre1) == (p.st(), false)) by {
                    reveal_with_fuel(match_TripleTermObject_1, 1);
                }
            }
        },
        SyntaxKind::DoubleLessLParen => {
            proof {
                assert(call_ok(ks, start, p.st(), rank_TripleTerm(peek_at(ks, p.st().pos)), rank_TripleTermObject(peek_at(ks, start)))) by {
                    reveal(Parser::st);
                    assert(peek_at(ks, start) == old(p).peek());
                    assert(peek_at(ks, p.pos as int) == p.peek());
                }
            }
            parse_TripleTerm(p);
            proof {
                assert(match_TripleTermObject_1(ks, start, gm1, pre1) == (p.st(), false)) by {
                    reveal_with_fuel(match_TripleTermObject_1, 1); reveal_with_fuel(rule_TripleTerm, 1);
                }
            }
        },
        SyntaxKind::Eof => {
            p.close(marker, SyntaxKind::TripleTermObject);
            let marker = p.open();
            let ghost gm2 = marker.index as int;
            p.close(marker, SyntaxKind::Error);
            proof {
                assert(match_TripleTermObject_1(ks, start, gm1, pre1) == (p.st(), true)) by {
                    reveal_with_fuel(match_TripleTermObject_1, 1);
                }
            }
            proof {
                assert(rule_TripleTermObject(ks, s0) == p.st()) by {
                    reveal_with_fuel(rule_TripleTermObject, 1); reveal_with_fuel(match_TripleTermObject_1, 1);
                }
            }
            return ;
        },
        _ => {
            p.advance_with_error(vec![SyntaxKind::VAR1, SyntaxKind::VAR2, SyntaxKind::IRIREF, SyntaxKind::PNAME_NS, SyntaxKind::PNAME_LN, SyntaxKind::STRING_LITERAL1, SyntaxKind::STRING_LITERAL2, SyntaxKind::STRING_LITERAL_LONG1, SyntaxKind::STRING_LITERAL_LONG2, SyntaxKind::INTEGER, SyntaxKind::DECIMAL, SyntaxKind::DOUBLE, SyntaxKind::INTEGER_POSITIVE, SyntaxKind::DECIMAL_POSITIVE, SyntaxKind::DOUBLE_POSITIVE, SyntaxKind::INTEGER_NEGATIVE, SyntaxKind::DECIMAL_NEGATIVE, SyntaxKind::DOUBLE_NEGATIVE, SyntaxKind::True, SyntaxKind::False, SyntaxKind::BLANK_NODE_LABEL, SyntaxKind::ANON, SyntaxKind::DoubleLessLParen]);
            proof {
                assert(match_TripleTermObject_1(ks, start, gm1, pre1) == (p.st(), false)) by {
                    reveal_with_fuel(match_TripleTermObject_1, 1);
                }
            }
        },
    }
    p.close(marker, SyntaxKind::TripleTermObject);
    proof {
        assert(rule_TripleTermObject(ks, s0) == p.st()) by {
            reveal_with_fuel(rule_TripleTermObject, 1); reveal_with_fuel(match_TripleTermObject_1, 1);
        }
    }
}

pub open spec fn rank_TripleTermDataSubject(t: SyntaxKind) -> nat {
    match t {
        SyntaxKind::PNAME_LN | SyntaxKind::PNAME_NS => 2,
        _ => 1,
    }
}

/// What [`parse_TripleTermDataSubject`] makes of the parser state.
#[verifier::opaque]
pub open spec fn rule_TripleTermDataSubject(ts: Seq<SyntaxKind>, s: St) -> St {
    let m_marker = s.evs.len() as int;
    let s = st_open(s);
    let s = rule_iri(ts, s);
    let s = st_close(s, m_marker, SyntaxKind::TripleTermDataSubject);
    s
}

/// [132] TripleTermDataSubject -> iri
pub(crate) fn parse_TripleTermDataSubject(p: &mut Parser)
    requires
        old(p).wf(),
    ensures
        Parser::step(*old(p), *final(p)),
        final(p).pos == old(p).pos ==> is_sync_point(old(p).peek()),
        old(p).events@.len() < final(p).events@.len(),
        final(p).events@[old(p).events@.len() as int] == (Event::Open { kind: SyntaxKind::TripleTermDataSubject }),
        final(p).events@.last() is Close,
        final(p).st() == rule_TripleTermDataSubject(old(p).kinds(), old(p).st()),
    decreases old(p).remaining(), rank_TripleTermDataSubject(old(p).peek()), 1int,
{
    let ghost ks = p.kinds();
    let ghost s0 = p.st();
    let marker = p.open();
    parse_iri(p);
    p.close(marker, SyntaxKind::TripleTermDataSubject);
    proof {
        assert(p.st() == rule_TripleTermDataSubject(ks, s0)) by {
            reveal(rule_TripleTermDataSubject);
            reveal(Parser::st);
        }
    }
}

pub open spec fn rank_TripleTermDataObject(t: SyntaxKind) -> nat {
    match t {
        SyntaxKind::DoubleLessLParen | SyntaxKind::False | SyntaxKind::IRIREF | SyntaxKind::True => 1,
        SyntaxKind::DECIMAL | SyntaxKind::DECIMAL_NEGATIVE | SyntaxKind::DECIMAL_POSITIVE | SyntaxKind::DOUBLE | SyntaxKind::DOUBLE_NEGATIVE | SyntaxKind::DOUBLE_POSITIVE | SyntaxKind::INTEGER | SyntaxKind::INTEGER_NEGATIVE | SyntaxKind::INTEGER_POSITIVE | SyntaxKind::PNAME_LN | SyntaxKind::PNAME_NS | SyntaxKind::STRING_LITERAL1 | SyntaxKind::STRING_LITERAL2 | SyntaxKind::STRING_LITERAL_LONG1 | SyntaxKind::STRING_LITERAL_LONG2 => 2,
        _ => 0,
    }
}

/// What [`parse_TripleTermDataObject`] makes of the parser state.
#[verifier::opaque]
pub open spec fn rule_TripleTermDataObject(ts: Seq<SyntaxKind>, s: St) -> St
    decreases ts.len() - s.pos, rank_TripleTermDataObject(peek_at(ts, s.pos)), 32 * (ts.len() - s.pos) + 32,
{
    let start = s.pos;
    let s_in = s;
    let m_marker = s.evs.len() as int;
    let s = st_open(s);
    let (s, r) = if s_in.pos <= s.pos <= ts.len() {
        match_TripleTermDataObject_1(ts, start, m_marker, s)
    } else {
        (s, false)
    };
    if r {
        s
    } else {
        let s = st_close(s, m_marker, SyntaxKind::TripleTermDataObject);
        s
    }
}

#[verifier::opaque]
pub open spec fn match_TripleTermDataObject_1(ts: Seq<SyntaxKind>, start: int, m_marker: int, s: St) -> (St, bool)
    decreases ts.len() - start, rank_TripleTermDataObject(peek_at(ts, start)), 32 * (ts.len() - s.pos) + 32 - 1,
{
    let s_in = s;
    if (peek_at(ts, s.pos) == SyntaxKind::IRIREF || peek_at(ts, s.pos) == SyntaxKind::PNAME_NS || peek_at(ts, s.pos) == SyntaxKind::PNAME_LN) {
        let s = rule_iri(ts, s);
        (s, false)
    } else if (peek_at(ts, s.pos) == SyntaxKind::STRING_LITERAL1 || peek_at(ts, s.pos) == SyntaxKind::STRING_LITERAL2 || peek_at(ts, s.pos) == SyntaxKind::STRING_LITERAL_LONG1 || peek_at(ts, s.pos) == SyntaxKind::STRING_LITERAL_LONG2) {
        let s = rule_RDFLiteral(ts, s);
        (s, false)
    } else if (peek_at(ts, s.pos) == SyntaxKind::INTEGER || peek_at(ts, s.pos) == SyntaxKind::DECIMAL || peek_at(ts, s.pos) == SyntaxKind::DOUBLE || peek_at(ts, s.pos) == SyntaxKind::INTEGER_POSITIVE || peek_at(ts, s.pos) == SyntaxKind::DECIMAL_POSITIVE || peek_at(ts, s.pos) == SyntaxKind::DOUBLE_POSITIVE || peek_at(ts, s.pos) == SyntaxKind::INTEGER_NEGATIVE || peek_at(ts, s.pos) == SyntaxKind::DECIMAL_NEGATIVE || peek_at(ts, s.pos) == SyntaxKind::DOUBLE_NEGATIVE) {
        let s = rule_NumericLiteral(ts, s);
        (s, false)
    } else if (peek_at(ts, s.pos) == SyntaxKind::True || peek_at(ts, s.pos) == SyntaxKind::False) {
        let s = rule_BooleanLiteral(ts, s);
        (s, false)
    } else if (peek_at(ts, s.pos) == SyntaxKind::DoubleLessLParen) {
        let s = if call_ok(ts, start, s, rank_TripleTermData(peek_at(ts, s.pos)), rank_TripleTermDataObject(peek_at(ts, start))) {
            rule_TripleTermData(ts, s)
        } else {
            s
        };
        (s, false)
    } else if (peek_at(ts, s.pos) == SyntaxKind::Eof) {
        let s = st_close(s, m_marker, SyntaxKind::TripleTermDataObject);
        let m_marker = s.evs.len() as int;
        let s = st_open(s);
        let s = st_close(s, m_marker, SyntaxKind::Error);
        (s, true)
    } else {
        let s = st_advance_with_error(ts, s, seq![SyntaxKind::IRIREF, SyntaxKind::PNAME_NS, SyntaxKind::PNAME_LN, SyntaxKind::STRING_LITERAL1, SyntaxKind::STRING_LITERAL2, SyntaxKind::STRING_LITERAL_LONG1, SyntaxKind::STRING_LITERAL_LONG2, SyntaxKind::INTEGER, SyntaxKind::DECIMAL, SyntaxKind::DOUBLE, SyntaxKind::INTEGER_POSITIVE, SyntaxKind::DECIMAL_POSITIVE, SyntaxKind::DOUBLE_POSITIVE, SyntaxKind::INTEGER_NEGATIVE, SyntaxKind::DECIMAL_NEGATIVE, SyntaxKind::DOUBLE_NEGATIVE, SyntaxKind::True, SyntaxKind::False, SyntaxKind::DoubleLessLParen]);
        (s, false)
    }
}

/// [133] TripleTermDataObject -> iri | RDFLiteral | NumericLiteral | BooleanLiteral | TripleTermData
pub(crate) fn parse_TripleTermDataObject(p: &mut Parser)
    requires
        old(p).wf(),
    ensures
        Parser::step(*old(p), *final(p)),
        final(p).pos == old(p).pos ==> is_sync_point(old(p).peek()),
        old(p).events@.len() < final(p).events@.len(),
        final(p).events@[old(p).events@.len() as int] == (Event::Open { kind: SyntaxKind::TripleTermDataObject }),
        final(p).events@.last() is Close,
        final(p).st() == rule_TripleTermDataObject(old(p).kinds(), old(p).st()),
    decreases old(p).remaining(), rank_TripleTermDataObject(old(p).peek()), 1int,
{
    let ghost ks = p.kinds();
    let ghost s0 = p.st();
    let ghost start = p.pos as int;
    let marker = p.open();
    let ghost gm1 = marker.index as int;
    let ghost pre1 = p.st();
    match p.nth(0) {
        SyntaxKind::IRIREF | SyntaxKind::PNAME_NS | SyntaxKind::PNAME_LN => {
            parse_iri(p);
            proof {
                assert(match_TripleTermDataObject_1(ks, start, gm1, pre1) == (p.st(), false)) by {
                    reveal_with_fuel(match_TripleTermDataObject_1, 1);
                }
            }
        },
        SyntaxKind::STRING_LITERAL1 | SyntaxKind::STRING_LITERAL2 | SyntaxKind::STRING_LITERAL_LONG1 | SyntaxKind::STRING_LITERAL_LONG2 => {
            parse_RDFLiteral(p);
            proof {
                assert(match_TripleTermDataObject_1(ks, start, gm1, pre1) == (p.st(), false)) by {
                    reveal_with_fuel(match_TripleTermDataObject_1, 1);
                }
            }
        },
        SyntaxKind::INTEGER | SyntaxKind::DECIMAL | SyntaxKind::DOUBLE | SyntaxKind::INTEGER_POSITIVE | SyntaxKind::DECIMAL_POSITIVE | SyntaxKind::DOUBLE_POSITIVE | SyntaxKind::INTEGER_NEGATIVE | SyntaxKind::DECIMAL_NEGATIVE | SyntaxKind::DOUBLE_NEGATIVE => {
            parse_NumericLiteral(p);
            proof {
                assert(match_TripleTermDataObject_1(ks, start, gm1, pre1) == (p.st(), false)) by {
                    reveal_with_fuel(match_TripleTermDataObject_1, 1);
                }
            }
        },
        SyntaxKind::True | SyntaxKind::False => {
            parse_BooleanLiteral(p);
            proof {
                assert(match_TripleTermDataObject_1(ks, start, gm1, pre1) == (p.st(), false)) by {
                    reveal_with_fuel(match_TripleTermDataObject_1, 1);
                }
            }
        },
        SyntaxKind::DoubleLessLParen => {
            proof {
                assert(call_ok(ks, start, p.st(), rank_TripleTermData(peek_at(ks, p.st().pos)), rank_TripleTermDataObject(peek_at(ks, start)))) by {
                    reveal(Parser::st);
                    assert(peek_at(ks, start) == old(p).peek());
                    assert(peek_at(ks, p.pos as int) == p.peek());
                }
            }
            parse_TripleTermData(p);
            proof {
                assert(match_TripleTermDataObject_1(ks, start, gm1, pre1) == (p.st(), false)) by {
                    reveal_with_fuel(match_TripleTermDataObject_1, 1); reveal_with_fuel(rule_TripleTermData, 1);
                }
            }
        },
        SyntaxKind::Eof => {
            p.close(marker, SyntaxKind::TripleTermDataObject);
            let marker = p.open();
            let ghost gm2 = marker.index as int;
            p.close(marker, SyntaxKind::Error);
            proof {
                assert(match_TripleTermDataObject_1(ks, start, gm1, pre1) == (p.st(), true)) by {
                    reveal_with_fuel(match_TripleTermDataObject_1, 1);
                }
            }
            proof {
                assert(rule_TripleTermDataObject(ks, s0) == p.st()) by {
                    reveal_with_fuel(rule_TripleTermDataObject, 1); reveal_with_fuel(match_TripleTermDataObject_1, 1);
                }
            }
            return ;
        },
        _ => {
            p.advance_with_error(vec![SyntaxKind::IRIREF, SyntaxKind::PNAME_NS, SyntaxKind::PNAME_LN, SyntaxKind::STRING_LITERAL1, SyntaxKind::STRING_LITERAL2, SyntaxKind::STRING_LITERAL_LONG1, SyntaxKind::STRING_LITERAL_LONG2, SyntaxKind::INTEGER, SyntaxKind::DECIMAL, SyntaxKind::DOUBLE, SyntaxKind::INTEGER_POSITIVE, SyntaxKind::DECIMAL_POSITIVE, SyntaxKind::DOUBLE_POSITIVE, SyntaxKind::INTEGER_NEGATIVE, SyntaxKind::DECIMAL_NEGATIVE, SyntaxKind::DOUBLE_NEGATIVE, SyntaxKind::True, SyntaxKind::False, SyntaxKind::DoubleLessLParen]);
            proof {
                assert(match_TripleTermDataObject_1(ks, start, gm1, pre1) == (p.st(), false)) by {
                    reveal_with_fuel(match_TripleTermDataObject_1, 1);
                }
            }
        },
    }
    p.close(marker, SyntaxKind::TripleTermDataObject);
    proof {
        assert(rule_TripleTermDataObject(ks, s0) == p.st()) by {
            reveal_with_fuel(rule_TripleTermDataObject, 1); reveal_with_fuel(match_TripleTermDataObject_1, 1);
        }
    }
}

pub open spec fn rank_ConditionalOrExpression(t: SyntaxKind) -> nat {
    match t {
        SyntaxKind::ABS | SyntaxKind::BNODE | SyntaxKind::BOUND | SyntaxKind::CEIL | SyntaxKind::COALESCE | SyntaxKind::CONCAT | SyntaxKind::CONTAINS | SyntaxKind::DATATYPE | SyntaxKind::DAY | SyntaxKind::DoubleLessLParen | SyntaxKind::ENCODE_FOR_URI | SyntaxKind::FLOOR | SyntaxKind::False | SyntaxKind::HOURS | SyntaxKind::IF | SyntaxKind::IRI | SyntaxKind::LANG | SyntaxKind::LANGDIR | SyntaxKind::LANGMATCHES | SyntaxKind::LCASE | SyntaxKind::LParen | SyntaxKind::MD5 | SyntaxKind::MINUTES | SyntaxKind::MONTH | SyntaxKind::NOW | SyntaxKind::OBJECT | SyntaxKind::PREDICATE | SyntaxKind::RAND | SyntaxKind::ROUND | SyntaxKind::SECONDS | SyntaxKind::SHA1 | SyntaxKind::SHA256 | SyntaxKind::SHA384 | SyntaxKind::SHA512 | SyntaxKind::STR | SyntaxKind::STRAFTER | SyntaxKind::STRBEFORE | SyntaxKind::STRDT | SyntaxKind::STRENDS | SyntaxKind::STRLANG | SyntaxKind::STRLANGDIR | SyntaxKind::STRLEN | SyntaxKind::STRSTARTS | SyntaxKind::STRUUID | SyntaxKind::SUBJECT | SyntaxKind::TIMEZONE | SyntaxKind::TRIPLE | SyntaxKind::TZ | SyntaxKind::True | SyntaxKind::UCASE | SyntaxKind::URI | SyntaxKind::UUID | SyntaxKind::VAR1 | SyntaxKind::VAR2 | SyntaxKind::YEAR | SyntaxKind::hasLANG | SyntaxKind::hasLANGDIR | SyntaxKind::isBLANK | SyntaxKind::isIRI | SyntaxKind::isLITERAL | SyntaxKind::isNUMERIC | SyntaxKind::isTRIPLE | SyntaxKind::isURI | SyntaxKind::sameTerm => 9,
        SyntaxKind::AVG | SyntaxKind::COUNT | SyntaxKind::DECIMAL | SyntaxKind::DECIMAL_NEGATIVE | SyntaxKind::DECIMAL_POSITIVE | SyntaxKind::DOUBLE | SyntaxKind::DOUBLE_NEGATIVE | SyntaxKind::DOUBLE_POSITIVE | SyntaxKind::EXISTS | SyntaxKind::GROUP_CONCAT | SyntaxKind::INTEGER | SyntaxKind::INTEGER_NEGATIVE | SyntaxKind::INTEGER_POSITIVE | SyntaxKind::IRIREF | SyntaxKind::MAX | SyntaxKind::MIN | SyntaxKind::NOT | SyntaxKind::REGEX | SyntaxKind::REPLACE | SyntaxKind::SAMPLE | SyntaxKind::STRING_LITERAL1 | SyntaxKind::STRING_LITERAL2 | SyntaxKind::STRING_LITERAL_LONG1 | SyntaxKind::STRING_LITERAL_LONG2 | SyntaxKind::SUBSTR | SyntaxKind::SUM => 10,
        SyntaxKind::PNAME_LN | SyntaxKind::PNAME_NS => 11,
        _ => 7,
    }
}

/// What [`parse_ConditionalOrExpression`] makes of the parser state.
#[verifier::opaque]
pub open spec fn rule_ConditionalOrExpression(ts: Seq<SyntaxKind>, s: St) -> St
    decreases ts.len() - s.pos, rank_ConditionalOrExpression(peek_at(ts, s.pos)), 32 * (ts.len() - s.pos) + 32,
{
    let start = s.pos;
    let s_in = s;
    let m_marker = s.evs.len() as int;
    let s = st_open(s);
    let s = if call_ok(ts, start, s, rank_ConditionalAndExpression(peek_at(ts, s.pos)), rank_ConditionalOrExpression(peek_at(ts, start))) {
        rule_ConditionalAndExpression(ts, s)
    } else {
        s
    };
    let s = if s_in.pos <= s.pos <= ts.len() {
        loop_ConditionalOrExpression_1(ts, start, m_marker, s)
    } else {
        s
    };
    let s = st_close(s, m_marker, SyntaxKind::ConditionalOrExpression);
    s
}

#[verifier::opaque]
pub open spec fn loop_ConditionalOrExpression_1(ts: Seq<SyntaxKind>, start: int, m_marker: int, s: St) -> St
    decreases ts.len() - start, rank_ConditionalOrExpression(peek_at(ts, start)), 32 * (ts.len() - s.pos) + 32 - 1,
{
    let s_in = s;
    if (peek_at(ts, s.pos) == SyntaxKind::DoublePipe) && s.pos <= ts.len() {
        let s1 = body_ConditionalOrExpression_2(ts, start, m_marker, s);
        if s1.pos == s.pos {
            s1
        } else if s.pos < s1.pos <= ts.len() {
            loop_ConditionalOrExpression_1(ts, start, m_marker, s1)
        } else {
            s1
        }
    } else {
        s
    }
}

#[verifier::opaque]
pub open spec fn body_ConditionalOrExpression_2(ts: Seq<SyntaxKind>, start: int, m_marker: int, s: St) -> St
    decreases ts.len() - start, rank_ConditionalOrExpression(peek_at(ts, start)), 32 * (ts.len() - s.pos) + 32 - 2,
{
    let s_in = s;
    let s = st_expect(ts, s, SyntaxKind::DoublePipe);
    let s = if call_ok(ts, start, s, rank_ConditionalAndExpression(peek_at(ts, s.pos)), rank_ConditionalOrExpression(peek_at(ts, start))) {
        rule_ConditionalAndExpression(ts, s)
    } else {
        s
    };
    s
}

/// [134] ConditionalOrExpression -> ConditionalAndExpression ('||' ConditionalAndExpression)*
pub(crate) fn parse_ConditionalOrExpression(p: &mut Parser)
    requires
        old(p).wf(),
    ensures
        Parser::step(*old(p), *final(p)),
        final(p).pos == old(p).pos ==> is_sync_point(old(p).peek()),
        old(p).events@.len() < final(p).events@.len(),
        final(p).events@[old(p).events@.len() as int] == (Event::Open { kind: SyntaxKind::ConditionalOrExpression }),
        final(p).events@.last() is Close,
        final(p).st() == rule_ConditionalOrExpression(old(p).kinds(), old(p).st()),
    decreases old(p).remaining(), rank_ConditionalOrExpression(old(p).peek()), 1int,
{
    let ghost ks = p.kinds();
    let ghost s0 = p.st();
    let ghost start = p.pos as int;
    let marker = p.open();
    let ghost gm1 = marker.index as int;
    proof {
        assert(call_ok(ks, start, p.st(), rank_ConditionalAndExpression(peek_at(ks, p.st().pos)), rank_ConditionalOrExpression(peek_at(ks, start)))) by {
            reveal(Parser::st);
            assert(peek_at(ks, start) == old(p).peek());
            assert(peek_at(ks, p.pos as int) == p.peek());
        }
    }
    parse_ConditionalAndExpression(p);
    let ghost pre1 = p.st();
    proof {
        assert(p.st().pos == p.pos as int) by {
            reveal(Parser::st);
        }
        if !(peek_at(ks, p.st().pos) == SyntaxKind::DoublePipe) {
            assert(loop_ConditionalOrExpression_1(ks, start, gm1, pre1) == pre1) by {
                reveal_with_fuel(loop_ConditionalOrExpression_1, 1); reveal_with_fuel(body_ConditionalOrExpression_2, 1);
            }
        }
    }
    while p.at_any(&[SyntaxKind::DoublePipe])
        invariant
            marker.index == old(p).events@.len(),
            p.wf(),
            p.tokens@ == old(p).tokens@,
            old(p).pos <= p.pos,
            p.stack() == old(p).stack().push(marker.index as int),
            p.pos == old(p).pos ==> is_sync_point(old(p).peek()),
            ks == p.kinds(),
            p.st().pos == p.pos as int,
            start == old(p).pos as int,
            gm1 == marker.index as int,
            pre1.pos <= p.pos,
            start <= pre1.pos,
            loop_ConditionalOrExpression_1(ks, start, gm1, p.st()) == loop_ConditionalOrExpression_1(ks, start, gm1, pre1),
            !(peek_at(ks, p.st().pos) == SyntaxKind::DoublePipe) ==> loop_ConditionalOrExpression_1(ks, start, gm1, p.st()) == p.st(),
        ensures
            loop_ConditionalOrExpression_1(ks, start, gm1, pre1) == p.st(),
        decreases p.remaining(),
    {
        let ghost si1 = p.st();
        let checkpoint1 = p.pos();
        p.expect(SyntaxKind::DoublePipe);
        proof {
            assert(call_ok(ks, start, p.st(), rank_ConditionalAndExpression(peek_at(ks, p.st().pos)), rank_ConditionalOrExpression(peek_at(ks, start)))) by {
                reveal(Parser::st);
                assert(peek_at(ks, start) == old(p).peek());
                assert(peek_at(ks, p.pos as int) == p.peek());
            }
        }
        parse_ConditionalAndExpression(p);
        proof {
            assert(body_ConditionalOrExpression_2(ks, start, gm1, si1) == p.st()) by {
                reveal_with_fuel(body_ConditionalOrExpression_2, 1); reveal_with_fuel(rule_ConditionalAndExpression, 1);
            }
        }
        if p.pos() == checkpoint1 {
            proof {
                assert(loop_ConditionalOrExpression_1(ks, start, gm1, si1) == p.st()) by {
                    reveal_with_fuel(loop_ConditionalOrExpression_1, 1); reveal_with_fuel(body_ConditionalOrExpression_2, 1);
                }
            }
            break;
        }
        proof {
            assert(p.st().pos == p.pos as int) by {
                reveal(Parser::st);
            }
            assert(loop_ConditionalOrExpression_1(ks, start, gm1, si1) == loop_ConditionalOrExpression_1(ks, start, gm1, p.st())) by {
                reveal_with_fuel(loop_ConditionalOrExpression_1, 1); reveal_with_fuel(body_ConditionalOrExpression_2, 1);
                reveal(Parser::st);
            }
            if !(peek_at(ks, p.st().pos) == SyntaxKind::DoublePipe) {
                assert(loop_ConditionalOrExpression_1(ks, start, gm1, p.st()) == p.st()) by {
                    reveal_with_fuel(loop_ConditionalOrExpression_1, 1); reveal_with_fuel(body_ConditionalOrExpression_2, 1);
                }
            }
        }
    }
    p.close(marker, SyntaxKind::ConditionalOrExpression);
    proof {
        assert(rule_ConditionalOrExpression(ks, s0) == p.st()) by {
            reveal_with_fuel(rule_ConditionalOrExpression, 1); reveal_with_fuel(loop_ConditionalOrExpression_1, 1); reveal_with_fuel(rule_ConditionalAndExpression, 1);
        }
    }
}

pub open spec fn rank_ConditionalAndExpression(t: SyntaxKind) -> nat {
    match t {
        SyntaxKind::ABS | SyntaxKind::BNODE | SyntaxKind::BOUND | SyntaxKind::CEIL | SyntaxKind::COALESCE | SyntaxKind::CONCAT | SyntaxKind::CONTAINS | SyntaxKind::DATATYPE | SyntaxKind::DAY | SyntaxKind::DoubleLessLParen | SyntaxKind::ENCODE_FOR_URI | SyntaxKind::FLOOR | SyntaxKind::False | SyntaxKind::HOURS | SyntaxKind::IF | SyntaxKind::IRI | SyntaxKind::LANG | SyntaxKind::LANGDIR | SyntaxKind::LANGMATCHES | SyntaxKind::LCASE | SyntaxKind::LParen | SyntaxKind::MD5 | SyntaxKind::MINUTES | SyntaxKind::MONTH | SyntaxKind::NOW | SyntaxKind::OBJECT | SyntaxKind::PREDICATE | SyntaxKind::RAND | SyntaxKind::ROUND | SyntaxKind::SECONDS | SyntaxKind::SHA1 | SyntaxKind::SHA256 | SyntaxKind::SHA384 | SyntaxKind::SHA512 | SyntaxKind::STR | SyntaxKind::STRAFTER | SyntaxKind::STRBEFORE | SyntaxKind::STRDT | SyntaxKind::STRENDS | SyntaxKind::STRLANG | SyntaxKind::STRLANGDIR | SyntaxKind::STRLEN | SyntaxKind::STRSTARTS | SyntaxKind::STRUUID | SyntaxKind::SUBJECT | SyntaxKind::TIMEZONE | SyntaxKind::TRIPLE | SyntaxKind::TZ | SyntaxKind::True | SyntaxKind::UCASE | SyntaxKind::URI | SyntaxKind::UUID | SyntaxKind::VAR1 | SyntaxKind::VAR2 | SyntaxKind::YEAR | SyntaxKind::hasLANG | SyntaxKind::hasLANGDIR | SyntaxKind::isBLANK | SyntaxKind::isIRI | SyntaxKind::isLITERAL | SyntaxKind::isNUMERIC | SyntaxKind::isTRIPLE | SyntaxKind::isURI | SyntaxKind::sameTerm => 8,
        SyntaxKind::AVG | SyntaxKind::COUNT | SyntaxKind::DECIMAL | SyntaxKind::DECIMAL_NEGATIVE | SyntaxKind::DECIMAL_POSITIVE | SyntaxKind::DOUBLE | SyntaxKind::DOUBLE_NEGATIVE | SyntaxKind::DOUBLE_POSITIVE | SyntaxKind::EXISTS | SyntaxKind::GROUP_CONCAT | SyntaxKind::INTEGER | SyntaxKind::INTEGER_NEGATIVE | SyntaxKind::INTEGER_POSITIVE | SyntaxKind::IRIREF | SyntaxKind::MAX | SyntaxKind::MIN | SyntaxKind::NOT | SyntaxKind::REGEX | SyntaxKind::REPLACE | SyntaxKind::SAMPLE | SyntaxKind::STRING_LITERAL1 | SyntaxKind::STRING_LITERAL2 | SyntaxKind::STRING_LITERAL_LONG1 | SyntaxKind::STRING_LITERAL_LONG2 | SyntaxKind::SUBSTR | SyntaxKind::SUM => 9,
        SyntaxKind::PNAME_LN | SyntaxKind::PNAME_NS => 10,
        _ => 6,
    }
}

/// What [`parse_ConditionalAndExpression`] makes of the parser state.
#[verifier::opaque]
pub open spec fn rule_ConditionalAndExpression(ts: Seq<SyntaxKind>, s: St) -> St
    decreases ts.len() - s.pos, rank_ConditionalAndExpression(peek_at(ts, s.pos)), 32 * (ts.len() - s.pos) + 32,
{
    let start = s.pos;
    let s_in = s;
    let m_marker = s.evs.len() as int;
    let s = st_open(s);
    let s = if call_ok(ts, start, s, rank_ValueLogical(peek_at(ts, s.pos)), rank_ConditionalAndExpression(peek_at(ts, start))) {
        rule_ValueLogical(ts, s)
    } else {
        s
    };
    let s = if s_in.pos <= s.pos <= ts.len() {
        loop_ConditionalAndExpression_1(ts, start, m_marker, s)
    } else {
        s
    };
    let s = st_close(s, m_marker, SyntaxKind::ConditionalAndExpression);
    s
}

#[verifier::opaque]
pub open spec fn loop_ConditionalAndExpression_1(ts: Seq<SyntaxKind>, start: int, m_marker: int, s: St) -> St
    decreases ts.len() - start, rank_ConditionalAndExpression(peek_at(ts, start)), 32 * (ts.len() - s.pos) + 32 - 1,
{
    let s_in = s;
    if (peek_at(ts, s.pos) == SyntaxKind::DoubleAnd) && s.pos <= ts.len() {
        let s1 = body_ConditionalAndExpression_2(ts, start, m_marker, s);
        if s1.pos == s.pos {
            s1
        } else if s.pos < s1.pos <= ts.len() {
            loop_ConditionalAndExpression_1(ts, start, m_marker, s1)
        } else {
            s1
        }
    } else {
        s
    }
}

#[verifier::opaque]
pub open spec fn body_ConditionalAndExpression_2(ts: Seq<SyntaxKind>, start: int, m_marker: int, s: St) -> St
    decreases ts.len() - start, rank_ConditionalAndExpression(peek_at(ts, start)), 32 * (ts.len() - s.pos) + 32 - 2,
{
    let s_in = s;
    let s = st_expect(ts, s, SyntaxKind::DoubleAnd);
    let s = if call_ok(ts, start, s, rank_ValueLogical(peek_at(ts, s.pos)), rank_ConditionalAndExpression(peek_at(ts, start))) {
        rule_ValueLogical(ts, s)
    } else {
        s
    };
    s
}

/// [135] ConditionalAndExpression -> ValueLogical ('&&' ValueLogical)*
pub(crate) fn parse_ConditionalAndExpression(p: &mut Parser)
    requires
        old(p).wf(),
    ensures
        Parser::step(*old(p), *final(p)),
        final(p).pos == old(p).pos ==> is_sync_point(old(p).peek()),
        old(p).events@.len() < final(p).events@.len(),
        final(p).events@[old(p).events@.len() as int] == (Event::Open { kind: SyntaxKind::ConditionalAndExpression }),
        final(p).events@.last() is Close,
        final(p).st() == rule_ConditionalAndExpression(old(p).kinds(), old(p).st()),
    decreases old(p).remaining(), rank_ConditionalAndExpression(old(p).peek()), 1int,
{
    let ghost ks = p.kinds();
    let ghost s0 = p.st();
    let ghost start = p.pos as int;
    let marker = p.open();
    let ghost gm1 = marker.index as int;
    proof {
        assert(call_ok(ks, start, p.st(), rank_ValueLogical(peek_at(ks, p.st().pos)), rank_ConditionalAndExpression(peek_at(ks, start)))) by {
            reveal(Parser::st);
            assert(peek_at(ks, start) == old(p).peek());
            assert(peek_at(ks, p.pos as int) == p.peek());
        }
    }
    parse_ValueLogical(p);
    let ghost pre1 = p.st();
    proof {
        assert(p.st().pos == p.pos as int) by {
            reveal(Parser::st);
        }
        if !(peek_at(ks, p.st().pos) == SyntaxKind::DoubleAnd) {
            assert(loop_ConditionalAndExpression_1(ks, start, gm1, pre1) == pre1) by {
                reveal_with_fuel(loop_ConditionalAndExpression_1, 1); reveal_with_fuel(body_ConditionalAndExpression_2, 1);
            }
        }
    }
    while p.at_any(&[SyntaxKind::DoubleAnd])
        invariant
            marker.index == old(p).events@.len(),
            p.wf(),
            p.tokens@ == old(p).tokens@,
            old(p).pos <= p.pos,
            p.stack() == old(p).stack().push(marker.index as int),
            p.pos == old(p).pos ==> is_sync_point(old(p).peek()),
            ks == p.kinds(),
            p.st().pos == p.pos as int,
            start == old(p).pos as int,
            gm1 == marker.index as int,
            pre1.pos <= p.pos,
            start <= pre1.pos,
            loop_ConditionalAndExpression_1(ks, start, gm1, p.st()) == loop_ConditionalAndExpression_1(ks, start, gm1, pre1),
            !(peek_at(ks, p.st().pos) == SyntaxKind::DoubleAnd) ==> loop_ConditionalAndExpression_1(ks, start, gm1, p.st()) == p.st(),
        ensures
            loop_ConditionalAndExpression_1(ks, start, gm1, pre1) == p.st(),
        decreases p.remaining(),
    {
        let ghost si1 = p.st();
        let checkpoint1 = p.pos();
        p.expect(SyntaxKind::DoubleAnd);
        proof {
            assert(call_ok(ks, start, p.st(), rank_ValueLogical(peek_at(ks, p.st().pos)), rank_ConditionalAndExpression(peek_at(ks, start)))) by {
                reveal(Parser::st);
                assert(peek_at(ks, start) == old(p).peek());
                assert(peek_at(ks, p.pos as int) == p.peek());
            }
        }
        parse_ValueLogical(p);
        proof {
            assert(body_ConditionalAndExpression_2(ks, start, gm1, si1) == p.st()) by {
                reveal_with_fuel(body_ConditionalAndExpression_2, 1); reveal_with_fuel(rule_ValueLogical, 1);
            }
        }
        if p.pos() == checkpoint1 {
            proof {
                assert(loop_ConditionalAndExpression_1(ks, start, gm1, si1) == p.st()) by {
                    reveal_with_fuel(loop_ConditionalAndExpression_1, 1); reveal_with_fuel(body_ConditionalAndExpression_2, 1);
                }
            }
            break;
        }
        proof {
            assert(p.st().pos == p.pos as int) by {
                reveal(Parser::st);
            }
            assert(loop_ConditionalAndExpression_1(ks, start, gm1, si1) == loop_ConditionalAndExpression_1(ks, start, gm1, p.st())) by {
                reveal_with_fuel(loop_ConditionalAndExpression_1, 1); reveal_with_fuel(body_ConditionalAndExpression_2, 1);
                reveal(Parser::st);
            }
            if !(peek_at(ks, p.st().pos) == SyntaxKind::DoubleAnd) {
                assert(loop_ConditionalAndExpression_1(ks, start, gm1, p.st()) == p.st()) by {
                    reveal_with_fuel(loop_ConditionalAndExpression_1, 1); reveal_with_fuel(body_ConditionalAndExpression_2, 1);
                }
            }
        }
    }
    p.close(marker, SyntaxKind::ConditionalAndExpression);
    proof {
        assert(rule_ConditionalAndExpression(ks, s0) == p.st()) by {
            reveal_with_fuel(rule_ConditionalAndExpression, 1); reveal_with_fuel(loop_ConditionalAndExpression_1, 1); reveal_with_fuel(rule_ValueLogical, 1);
        }
    }
}

pub open spec fn rank_ValueLogical(t: SyntaxKind) -> nat {
    match t {
        SyntaxKind::ABS | SyntaxKind::BNODE | SyntaxKind::BOUND | SyntaxKind::CEIL | SyntaxKind::COALESCE | SyntaxKind::CONCAT | SyntaxKind::CONTAINS | SyntaxKind::DATATYPE | SyntaxKind::DAY | SyntaxKind::DoubleLessLParen | SyntaxKind::ENCODE_FOR_URI | SyntaxKind::FLOOR | SyntaxKind::False | SyntaxKind::HOURS | SyntaxKind::IF | SyntaxKind::IRI | SyntaxKind::LANG | SyntaxKind::LANGDIR | SyntaxKind::LANGMATCHES | SyntaxKind::LCASE | SyntaxKind::LParen | SyntaxKind::MD5 | SyntaxKind::MINUTES | SyntaxKind::MONTH | SyntaxKind::NOW | SyntaxKind::OBJECT | SyntaxKind::PREDICATE | SyntaxKind::RAND | SyntaxKind::ROUND | SyntaxKind::SECONDS | SyntaxKind::SHA1 | SyntaxKind::SHA256 | SyntaxKind::SHA384 | SyntaxKind::SHA512 | SyntaxKind::STR | SyntaxKind::STRAFTER | SyntaxKind::STRBEFORE | SyntaxKind::STRDT | SyntaxKind::STRENDS | SyntaxKind::STRLANG | SyntaxKind::STRLANGDIR | SyntaxKind::STRLEN | SyntaxKind::STRSTARTS | SyntaxKind::STRUUID | SyntaxKind::SUBJECT | SyntaxKind::TIMEZONE | SyntaxKind::TRIPLE | SyntaxKind::TZ | SyntaxKind::True | SyntaxKind::UCASE | SyntaxKind::URI | SyntaxKind::UUID | SyntaxKind::VAR1 | SyntaxKind::VAR2 | SyntaxKind::YEAR | SyntaxKind::hasLANG | SyntaxKind::hasLANGDIR | SyntaxKind::isBLANK | SyntaxKind::isIRI | SyntaxKind::isLITERAL | SyntaxKind::isNUMERIC | SyntaxKind::isTRIPLE | SyntaxKind::isURI | SyntaxKind::sameTerm => 7,
        SyntaxKind::AVG | SyntaxKind::COUNT | SyntaxKind::DECIMAL | SyntaxKind::DECIMAL_NEGATIVE | SyntaxKind::DECIMAL_POSITIVE | SyntaxKind::DOUBLE | SyntaxKind::DOUBLE_NEGATIVE | SyntaxKind::DOUBLE_POSITIVE | SyntaxKind::EXISTS | SyntaxKind::GROUP_CONCAT | SyntaxKind::INTEGER | SyntaxKind::INTEGER_NEGATIVE | SyntaxKind::INTEGER_POSITIVE | SyntaxKind::IRIREF | SyntaxKind::MAX | SyntaxKind::MIN | SyntaxKind::NOT | SyntaxKind::REGEX | SyntaxKind::REPLACE | SyntaxKind::SAMPLE | SyntaxKind::STRING_LITERAL1 | SyntaxKind::STRING_LITERAL2 | SyntaxKind::STRING_LITERAL_LONG1 | SyntaxKind::STRING_LITERAL_LONG2 | SyntaxKind::SUBSTR | SyntaxKind::SUM => 8,
        SyntaxKind::PNAME_LN | SyntaxKind::PNAME_NS => 9,
        _ => 5,
    }
}

/// What [`parse_ValueLogical`] makes of the parser state.
#[verifier::opaque]
pub open spec fn rule_ValueLogical(ts: Seq<SyntaxKind>, s: St) -> St
    decreases ts.len() - s.pos, rank_ValueLogical(peek_at(ts, s.pos)), 32 * (ts.len() - s.pos) + 32,
{
    let start = s.pos;
    let s_in = s;
    let m_marker = s.evs.len() as int;
    let s = st_open(s);
    let s = if call_ok(ts, start, s, rank_RelationalExpression(peek_at(ts, s.pos)), rank_ValueLogical(peek_at(ts, start))) {
        rule_RelationalExpression(ts, s)
    } else {
        s
    };
    let s = st_close(s, m_marker, SyntaxKind::ValueLogical);
    s
}


/// [136] ValueLogical -> RelationalExpression
pub(crate) fn parse_ValueLogical(p: &mut Parser)
    requires
        old(p).wf(),
    ensures
        Parser::step(*old(p), *final(p)),
        final(p).pos == old(p).pos ==> is_sync_point(old(p).peek()),
        old(p).events@.len() < final(p).events@.len(),
        final(p).events@[old(p).events@.len() as int] == (Event::Open { kind: SyntaxKind::ValueLogical }),
        final(p).events@.last() is Close,
        final(p).st() == rule_ValueLogical(old(p).kinds(), old(p).st()),
    decreases old(p).remaining(), rank_ValueLogical(old(p).peek()), 1int,
{
    let ghost ks = p.kinds();
    let ghost s0 = p.st();
    let ghost start = p.pos as int;
    let marker = p.open();
    let ghost gm1 = marker.index as int;
    proof {
        assert(call_ok(ks, start, p.st(), rank_RelationalExpression(peek_at(ks, p.st().pos)), rank_ValueLogical(peek_at(ks, start)))) by {
            reveal(Parser::st);
            assert(peek_at(ks, start) == old(p).peek());
            assert(peek_at(ks, p.pos as int) == p.peek());
        }
    }
    parse_RelationalExpression(p);
    p.close(marker, SyntaxKind::ValueLogical);
    proof {
        assert(rule_ValueLogical(ks, s0) == p.st()) by {
            reveal_with_fuel(rule_ValueLogical, 1); reveal_with_fuel(rule_RelationalExpression, 1);
        }
    }
}

pub open spec fn rank_RelationalExpression(t: SyntaxKind) -> nat {
    match t {
        SyntaxKind::ABS | SyntaxKind::BNODE | SyntaxKind::BOUND | SyntaxKind::CEIL | SyntaxKind::COALESCE | SyntaxKind::CONCAT | SyntaxKind::CONTAINS | SyntaxKind::DATATYPE | SyntaxKind::DAY | SyntaxKind::DoubleLessLParen | SyntaxKind::ENCODE_FOR_URI | SyntaxKind::FLOOR | SyntaxKind::False | SyntaxKind::HOURS | SyntaxKind::IF | SyntaxKind::IRI | SyntaxKind::LANG | SyntaxKind::LANGDIR | SyntaxKind::LANGMATCHES | SyntaxKind::LCASE | SyntaxKind::LParen | SyntaxKind::MD5 | SyntaxKind::MINUTES | SyntaxKind::MONTH | SyntaxKind::NOW | SyntaxKind::OBJECT | SyntaxKind::PREDICATE | SyntaxKind::RAND | SyntaxKind::ROUND | SyntaxKind::SECONDS | SyntaxKind::SHA1 | SyntaxKind::SHA256 | SyntaxKind::SHA384 | SyntaxKind::SHA512 | SyntaxKind::STR | SyntaxKind::STRAFTER | SyntaxKind::STRBEFORE | SyntaxKind::STRDT | SyntaxKind::STRENDS | SyntaxKind::STRLANG | SyntaxKind::STRLANGDIR | SyntaxKind::STRLEN | SyntaxKind::STRSTARTS | SyntaxKind::STRUUID | SyntaxKind::SUBJECT | SyntaxKind::TIMEZONE | SyntaxKind::TRIPLE | SyntaxKind::TZ | SyntaxKind::True | SyntaxKind::UCASE | SyntaxKind::URI | SyntaxKind::UUID | SyntaxKind::VAR1 | SyntaxKind::VAR2 | SyntaxKind::YEAR | SyntaxKind::hasLANG | SyntaxKind::hasLANGDIR | SyntaxKind::isBLANK | SyntaxKind::isIRI | SyntaxKind::isLITERAL | SyntaxKind::isNUMERIC | SyntaxKind::isTRIPLE | SyntaxKind::isURI | SyntaxKind::sameTerm => 6,
        SyntaxKind::AVG | SyntaxKind::COUNT | SyntaxKind::DECIMAL | SyntaxKind::DECIMAL_NEGATIVE | SyntaxKind::DECIMAL_POSITIVE | SyntaxKind::DOUBLE | SyntaxKind::DOUBLE_NEGATIVE | SyntaxKind::DOUBLE_POSITIVE | SyntaxKind::EXISTS | SyntaxKind::GROUP_CONCAT | SyntaxKind::INTEGER | SyntaxKind::INTEGER_NEGATIVE | SyntaxKind::INTEGER_POSITIVE | SyntaxKind::IRIREF | SyntaxKind::MAX | SyntaxKind::MIN | SyntaxKind::NOT | SyntaxKind::REGEX | SyntaxKind::REPLACE | SyntaxKind::SAMPLE | SyntaxKind::STRING_LITERAL1 | SyntaxKind::STRING_LITERAL2 | SyntaxKind::STRING_LITERAL_LONG1 | SyntaxKind::STRING_LITERAL_LONG2 | SyntaxKind::SUBSTR | SyntaxKind::SUM => 7,
        SyntaxKind::PNAME_LN | SyntaxKind::PNAME_NS => 8,
        _ => 4,
    }
}

/// What [`parse_RelationalExpression`] makes of the parser state.
#[verifier::opaque]
pub open spec fn rule_RelationalExpression(ts: Seq<SyntaxKind>, s: St) -> St
    decreases ts.len() - s.pos, rank_RelationalExpression(peek_at(ts, s.pos)), 32 * (ts.len() - s.pos) + 32,
{
    let start = s.pos;
    let s_in = s;
    let m_marker = s.evs.len() as int;
    let s = st_open(s);
    let s = if call_ok(ts, start, s, rank_NumericExpression(peek_at(ts, s.pos)), rank_RelationalExpression(peek_at(ts, start))) {
        rule_NumericExpression(ts, s)
    } else {
        s
    };
    let (s, r) = if s_in.pos <= s.pos <= ts.len() {
        if_RelationalExpression_1(ts, start, m_marker, s)
    } else {
        (s, false)
    };
    if r {
        s
    } else {
        let s = st_close(s, m_marker, SyntaxKind::RelationalExpression);
        s
    }
}

#[verifier::opaque]
pub open spec fn match_RelationalExpression_2(ts: Seq<SyntaxKind>, start: int, m_marker: int, s: St) -> (St, bool)
    decreases ts.len() - start, rank_RelationalExpression(peek_at(ts, start)), 32 * (ts.len() - s.pos) + 32 - 2,
{
    let s_in = s;
    if (peek_at(ts, s.pos) == SyntaxKind::Equals) {
        let s = st_expect(ts, s, SyntaxKind::Equals);
        let s = if call_ok(ts, start, s, rank_NumericExpression(peek_at(ts, s.pos)), rank_RelationalExpression(peek_at(ts, start))) {
            rule_NumericExpression(ts, s)
        } else {
            s
        };
        (s, false)
    } else if (peek_at(ts, s.pos) == SyntaxKind::ExclamationMarkEquals) {
        let s = st_expect(ts, s, SyntaxKind::ExclamationMarkEquals);
        let s = if call_ok(ts, start, s, rank_NumericExpression(peek_at(ts, s.pos)), rank_RelationalExpression(peek_at(ts, start))) {
            rule_NumericExpression(ts, s)
        } else {
            s
        };
        (s, false)
    } else if (peek_at(ts, s.pos) == SyntaxKind::Less) {
        let s = st_expect(ts, s, SyntaxKind::Less);
        let s = if call_ok(ts, start, s, rank_NumericExpression(peek_at(ts, s.pos)), rank_RelationalExpression(peek_at(ts, start))) {
            rule_NumericExpression(ts, s)
        } else {
            s
        };
        (s, false)
    } else if (peek_at(ts, s.pos) == SyntaxKind::More) {
        let s = st_expect(ts, s, SyntaxKind::More);
        let s = if call_ok(ts, start, s, rank_NumericExpression(peek_at(ts, s.pos)), rank_RelationalExpression(peek_at(ts, start))) {
            rule_NumericExpression(ts, s)
        } else {
            s
        };
        (s, false)
    } else if (peek_at(ts, s.pos) == SyntaxKind::LessEquals) {
        let s = st_expect(ts, s, SyntaxKind::LessEquals);
        let s = if call_ok(ts, start, s, rank_NumericExpression(peek_at(ts, s.pos)), rank_RelationalExpression(peek_at(ts, start))) {
            rule_NumericExpression(ts, s)
        } else {
            s
        };
        (s, false)
    } else if (peek_at(ts, s.pos) == SyntaxKind::MoreEquals) {
        let s = st_expect(ts, s, SyntaxKind::MoreEquals);
        let s = if call_ok(ts, start, s, rank_NumericExpression(peek_at(ts, s.pos)), rank_RelationalExpression(peek_at(ts, start))) {
            rule_NumericExpression(ts, s)
        } else {
            s
        };
        (s, false)
    } else if (peek_at(ts, s.pos) == SyntaxKind::IN) {
        let s = st_expect(ts, s, SyntaxKind::IN);
        let s = if call_ok(ts, start, s, rank_ExpressionList(peek_at(ts, s.pos)), rank_RelationalExpression(peek_at(ts, start))) {
            rule_ExpressionList(ts, s)
        } else {
            s
        };
        (s, false)
    } else if (peek_at(ts, s.pos) == SyntaxKind::NOT) {
        let s = st_expect(ts, s, SyntaxKind::NOT);
        let s = st_expect(ts, s, SyntaxKind::IN);
        let s = if call_ok(ts, start, s, rank_ExpressionList(peek_at(ts, s.pos)), rank_RelationalExpression(peek_at(ts, start))) {
            rule_ExpressionList(ts, s)
        } else {
            s
        };
        (s, false)
    } else if (peek_at(ts, s.pos) == SyntaxKind::Eof) {
        let s = st_close(s, m_marker, SyntaxKind::RelationalExpression);
        let m_marker = s.evs.len() as int;
        let s = st_open(s);
        let s = st_close(s, m_marker, SyntaxKind::Error);
        (s, true)
    } else {
        let s = st_advance_with_error(ts, s, seq![SyntaxKind::Equals, SyntaxKind::ExclamationMarkEquals, SyntaxKind::Less, SyntaxKind::More, SyntaxKind::LessEquals, SyntaxKind::MoreEquals, SyntaxKind::IN, SyntaxKind::NOT]);
        (s, false)
    }
}

#[verifier::opaque]
pub open spec fn if_RelationalExpression_1(ts: Seq<SyntaxKind>, start: int, m_marker: int, s: St) -> (St, bool)
    decreases ts.len() - start, rank_RelationalExpression(peek_at(ts, start)), 32 * (ts.len() - s.pos) + 32 - 1,
{
    let s_in = s;
    if (peek_at(ts, s.pos) == SyntaxKind::Equals || peek_at(ts, s.pos) == SyntaxKind::ExclamationMarkEquals || peek_at(ts, s.pos) == SyntaxKind::Less || peek_at(ts, s.pos) == SyntaxKind::More || peek_at(ts, s.pos) == SyntaxKind::LessEquals || peek_at(ts, s.pos) == SyntaxKind::MoreEquals || peek_at(ts, s.pos) == SyntaxKind::IN || peek_at(ts, s.pos) == SyntaxKind::NOT) {
        let (s, r) = if s_in.pos <= s.pos <= ts.len() {
            match_RelationalExpression_2(ts, start, m_marker, s)
        } else {
            (s, false)
        };
        if r {
            (s, true)
        } else {
            (s, false)
        }
    } else {
        (s, false)
    }
}

/// [137] RelationalExpression -> NumericExpression ('=' NumericExpression | '!=' NumericExpression | '<' NumericExpression | '>' NumericExpression | '<=' NumericExpression | '>=' NumericExpression | 'IN' ExpressionList | 'NOT' 'IN' ExpressionList)?
pub(crate) fn parse_RelationalExpression(p: &mut Parser)
    requires
        old(p).wf(),
    ensures
        Parser::step(*old(p), *final(p)),
        final(p).pos == old(p).pos ==> is_sync_point(old(p).peek()),
        old(p).events@.len() < final(p).events@.len(),
        final(p).events@[old(p).events@.len() as int] == (Event::Open { kind: SyntaxKind::RelationalExpression }),
        final(p).events@.last() is Close,
        final(p).st() == rule_RelationalExpression(old(p).kinds(), old(p).st()),
    decreases old(p).remaining(), rank_RelationalExpression(old(p).peek()), 1int,
{
    let ghost ks = p.kinds();
    let ghost s0 = p.st();
    let ghost start = p.pos as int;
    let marker = p.open();
    let ghost gm1 = marker.index as int;
    proof {
        assert(call_ok(ks, start, p.st(), rank_NumericExpression(peek_at(ks, p.st().pos)), rank_RelationalExpression(peek_at(ks, start)))) by {
            reveal(Parser::st);
            assert(peek_at(ks, start) == old(p).peek());
            assert(peek_at(ks, p.pos as int) == p.peek());
        }
    }
    parse_NumericExpression(p);
    let ghost pre1 = p.st();
    if p.at_any(&[SyntaxKind::Equals, SyntaxKind::ExclamationMarkEquals, SyntaxKind::Less, SyntaxKind::More, SyntaxKind::LessEquals, SyntaxKind::MoreEquals, SyntaxKind::IN, SyntaxKind::NOT]) {
        let ghost pre2 = p.st();
        match p.nth(0) {
            SyntaxKind::Equals => {
                p.expect(SyntaxKind::Equals);
                proof {
                    assert(call_ok(ks, start, p.st(), rank_NumericExpression(peek_at(ks, p.st().pos)), rank_RelationalExpression(peek_at(ks, start)))) by {
                        reveal(Parser::st);
                        assert(peek_at(ks, start) == old(p).peek());
                        assert(peek_at(ks, p.pos as int) == p.peek());
                    }
                }
                parse_NumericExpression(p);
                proof {
                    assert(match_RelationalExpression_2(ks, start, gm1, pre2) == (p.st(), false)) by {
                        reveal_with_fuel(match_RelationalExpression_2, 1); reveal_with_fuel(rule_NumericExpression, 1);
                    }
                }
            },
            SyntaxKind::ExclamationMarkEquals => {
                p.expect(SyntaxKind::ExclamationMarkEquals);
                proof {
                    assert(call_ok(ks, start, p.st(), rank_NumericExpression(peek_at(ks, p.st().pos)), rank_RelationalExpression(peek_at(ks, start)))) by {
                        reveal(Parser::st);
                        assert(peek_at(ks, start) == old(p).peek());
                        assert(peek_at(ks, p.pos as int) == p.peek());
                    }
                }
                parse_NumericExpression(p);
                proof {
                    assert(match_RelationalExpression_2(ks, start, gm1, pre2) == (p.st(), false)) by {
                        reveal_with_fuel(match_RelationalExpression_2, 1); reveal_with_fuel(rule_NumericExpression, 1);
                    }
                }
            },
            SyntaxKind::Less => {
                p.expect(SyntaxKind::Less);
                proof {
                    assert(call_ok(ks, start, p.st(), rank_NumericExpression(peek_at(ks, p.st().pos)), rank_RelationalExpression(peek_at(ks, start)))) by {
                        reveal(Parser::st);
                        assert(peek_at(ks, start) == old(p).peek());
                        assert(peek_at(ks, p.pos as int) == p.peek());
                    }
                }
                parse_NumericExpression(p);
                proof {
                    assert(match_RelationalExpression_2(ks, start, gm1, pre2) == (p.st(), false)) by {
                        reveal_with_fuel(match_RelationalExpression_2, 1); reveal_with_fuel(rule_NumericExpression, 1);
                    }
                }
            },
            SyntaxKind::More => {
                p.expect(SyntaxKind::More);
                proof {
                    assert(call_ok(ks, start, p.st(), rank_NumericExpression(peek_at(ks, p.st().pos)), rank_RelationalExpression(peek_at(ks, start)))) by {
                        reveal(Parser::st);
                        assert(peek_at(ks, start) == old(p).peek());
                        assert(peek_at(ks, p.pos as int) == p.peek());
                    }
                }
                parse_NumericExpression(p);
                proof {
                    assert(match_RelationalExpression_2(ks, start, gm1, pre2) == (p.st(), false)) by {
                        reveal_with_fuel(match_RelationalExpression_2, 1); reveal_with_fuel(rule_NumericExpression, 1);
                    }
                }
            },
            SyntaxKind::LessEquals => {
                p.expect(SyntaxKind::LessEquals);
                proof {
                    assert(call_ok(ks, start, p.st(), rank_NumericExpression(peek_at(ks, p.st().pos)), rank_RelationalExpression(peek_at(ks, start)))) by {
                        reveal(Parser::st);
                        assert(peek_at(ks, start) == old(p).peek());
                        assert(peek_at(ks, p.pos as int) == p.peek());
                    }
                }
                parse_NumericExpression(p);
                proof {
                    assert(match_RelationalExpression_2(ks, start, gm1, pre2) == (p.st(), false)) by {
                        reveal_with_fuel(match_RelationalExpression_2, 1); reveal_with_fuel(rule_NumericExpression, 1);
                    }
                }
            },
            SyntaxKind::MoreEquals => {
                p.expect(SyntaxKind::MoreEquals);
                proof {
                    assert(call_ok(ks, start, p.st(), rank_NumericExpression(peek_at(ks, p.st().pos)), rank_RelationalExpression(peek_at(ks, start)))) by {
                        reveal(Parser::st);
                        assert(peek_at(ks, start) == old(p).peek());
                        assert(peek_at(ks, p.pos as int) == p.peek());
                    }
                }
                parse_NumericExpression(p);
                proof {
                    assert(match_RelationalExpression_2(ks, start, gm1, pre2) == (p.st(), false)) by {
                        reveal_with_fuel(match_RelationalExpression_2, 1); reveal_with_fuel(rule_NumericExpression, 1);
                    }
                }
            },
            SyntaxKind::IN => {
                p.expect(SyntaxKind::IN);
                proof {
                    assert(call_ok(ks, start, p.st(), rank_ExpressionList(peek_at(ks, p.st().pos)), rank_RelationalExpression(peek_at(ks, start)))) by {
                        reveal(Parser::st);
                        assert(peek_at(ks, start) == old(p).peek());
                        assert(peek_at(ks, p.pos as int) == p.peek());
                    }
                }
                parse_ExpressionList(p);
                proof {
                    assert(match_RelationalExpression_2(ks, start, gm1, pre2) == (p.st(), false)) by {
                        reveal_with_fuel(match_RelationalExpression_2, 1); reveal_with_fuel(rule_ExpressionList, 1);
                    }
                }
            },
            SyntaxKind::NOT => {
                p.expect(SyntaxKind::NOT);
                p.expect(SyntaxKind::IN);
                proof {
                    assert(call_ok(ks, start, p.st(), rank_ExpressionList(peek_at(ks, p.st().pos)), rank_RelationalExpression(peek_at(ks, start)))) by {
                        reveal(Parser::st);
                        assert(peek_at(ks, start) == old(p).peek());
                        assert(peek_at(ks, p.pos as int) == p.peek());
                    }
                }
                parse_ExpressionList(p);
                proof {
                    assert(match_RelationalExpression_2(ks, start, gm1, pre2) == (p.st(), false)) by {
                        reveal_with_fuel(match_RelationalExpression_2, 1); reveal_with_fuel(rule_ExpressionList, 1);
                    }
                }
            },
            SyntaxKind::Eof => {
                p.close(marker, SyntaxKind::RelationalExpression);
                let marker = p.open();
                let ghost gm2 = marker.index as int;
                p.close(marker, SyntaxKind::Error);
                proof {
                    assert(match_RelationalExpression_2(ks, start, gm1, pre2) == (p.st(), true)) by {
                        reveal_with_fuel(match_RelationalExpression_2, 1);
                    }
                }
                proof {
                    assert(if_RelationalExpression_1(ks, start, gm1, pre1) == (p.st(), true)) by {
                        reveal_with_fuel(if_RelationalExpression_1, 1); reveal_with_fuel(match_RelationalExpression_2, 1);
                    }
                }
                proof {
                    assert(rule_RelationalExpression(ks, s0) == p.st()) by {
                        reveal_with_fuel(rule_RelationalExpression, 1); reveal_with_fuel(if_RelationalExpression_1, 1); reveal_with_fuel(rule_NumericExpression, 1);
                    }
                }
                return ;
            },
            _ => {
                p.advance_with_error(vec![SyntaxKind::Equals, SyntaxKind::ExclamationMarkEquals, SyntaxKind::Less, SyntaxKind::More, SyntaxKind::LessEquals, SyntaxKind::MoreEquals, SyntaxKind::IN, SyntaxKind::NOT]);
                proof {
                    assert(match_RelationalExpression_2(ks, start, gm1, pre2) == (p.st(), false)) by {
                        reveal_with_fuel(match_RelationalExpression_2, 1);
                    }
                }
            },
        }
        proof {
            assert(if_RelationalExpression_1(ks, start, gm1, pre1) == (p.st(), false)) by {
                reveal_with_fuel(if_RelationalExpression_1, 1); reveal_with_fuel(match_RelationalExpression_2, 1);
            }
        }
    } else {
        proof {
            assert(if_RelationalExpression_1(ks, start, gm1, pre1) == (p.st(), false)) by {
                reveal_with_fuel(if_RelationalExpression_1, 1);
            }
        }
    }
    p.close(marker, SyntaxKind::RelationalExpression);
    proof {
        assert(rule_RelationalExpression(ks, s0) == p.st()) by {
            reveal_with_fuel(rule_RelationalExpression, 1); reveal_with_fuel(if_RelationalExpression_1, 1); reveal_with_fuel(rule_NumericExpression, 1);
        }
    }
}

pub open spec fn rank_NumericExpression(t: SyntaxKind) -> nat {
    match t {
        SyntaxKind::ABS | SyntaxKind::BNODE | SyntaxKind::BOUND | SyntaxKind::CEIL | SyntaxKind::COALESCE | SyntaxKind::CONCAT | SyntaxKind::CONTAINS | SyntaxKind::DATATYPE | SyntaxKind::DAY | SyntaxKind::DoubleLessLParen | SyntaxKind::ENCODE_FOR_URI | SyntaxKind::FLOOR | SyntaxKind::False | SyntaxKind::HOURS | SyntaxKind::IF | SyntaxKind::IRI | SyntaxKind::LANG | SyntaxKind::LANGDIR | SyntaxKind::LANGMATCHES | SyntaxKind::LCASE | SyntaxKind::LParen | SyntaxKind::MD5 | SyntaxKind::MINUTES | SyntaxKind::MONTH | SyntaxKind::NOW | SyntaxKind::OBJECT | SyntaxKind::PREDICATE | SyntaxKind::RAND | SyntaxKind::ROUND | SyntaxKind::SECONDS | SyntaxKind::SHA1 | SyntaxKind::SHA256 | SyntaxKind::SHA384 | SyntaxKind::SHA512 | SyntaxKind::STR | SyntaxKind::STRAFTER | SyntaxKind::STRBEFORE | SyntaxKind::STRDT | SyntaxKind::STRENDS | SyntaxKind::STRLANG | SyntaxKind::STRLANGDIR | SyntaxKind::STRLEN | SyntaxKind::STRSTARTS | SyntaxKind::STRUUID | SyntaxKind::SUBJECT | SyntaxKind::TIMEZONE | SyntaxKind::TRIPLE | SyntaxKind::TZ | SyntaxKind::True | SyntaxKind::UCASE | SyntaxKind::URI | SyntaxKind::UUID | SyntaxKind::VAR1 | SyntaxKind::VAR2 | SyntaxKind::YEAR | SyntaxKind::hasLANG | SyntaxKind::hasLANGDIR | SyntaxKind::isBLANK | SyntaxKind::isIRI | SyntaxKind::isLITERAL | SyntaxKind::isNUMERIC | SyntaxKind::isTRIPLE | SyntaxKind::isURI | SyntaxKind::sameTerm => 5,
        SyntaxKind::AVG | SyntaxKind::COUNT | SyntaxKind::DECIMAL | SyntaxKind::DECIMAL_NEGATIVE | SyntaxKind::DECIMAL_POSITIVE | SyntaxKind::DOUBLE | SyntaxKind::DOUBLE_NEGATIVE | SyntaxKind::DOUBLE_POSITIVE | SyntaxKind::EXISTS | SyntaxKind::GROUP_CONCAT | SyntaxKind::INTEGER | SyntaxKind::INTEGER_NEGATIVE | SyntaxKind::INTEGER_POSITIVE | SyntaxKind::IRIREF | SyntaxKind::MAX | SyntaxKind::MIN | SyntaxKind::NOT | SyntaxKind::REGEX | SyntaxKind::REPLACE | SyntaxKind::SAMPLE | SyntaxKind::STRING_LITERAL1 | SyntaxKind::STRING_LITERAL2 | SyntaxKind::STRING_LITERAL_LONG1 | SyntaxKind::STRING_LITERAL_LONG2 | SyntaxKind::SUBSTR | SyntaxKind::SUM => 6,
        SyntaxKind::PNAME_LN | SyntaxKind::PNAME_NS => 7,
        _ => 3,
    }
}

/// What [`parse_NumericExpression`] makes of the parser state.
#[verifier::opaque]
pub open spec fn rule_NumericExpression(ts: Seq<SyntaxKind>, s: St) -> St
    decreases ts.len() - s.pos, rank_NumericExpression(peek_at(ts, s.pos)), 32 * (ts.len() - s.pos) + 32,
{
    let start = s.pos;
    let s_in = s;
    let m_marker = s.evs.len() as int;
    let s = st_open(s);
    let s = if call_ok(ts, start, s, rank_AdditiveExpression(peek_at(ts, s.pos)), rank_NumericExpression(peek_at(ts, start))) {
        rule_AdditiveExpression(ts, s)
    } else {
        s
    };
    let s = st_close(s, m_marker, SyntaxKind::NumericExpression);
    s
}


/// [138] NumericExpression -> AdditiveExpression
pub(crate) fn parse_NumericExpression(p: &mut Parser)
    requires
        old(p).wf(),
    ensures
        Parser::step(*old(p), *final(p)),
        final(p).pos == old(p).pos ==> is_sync_point(old(p).peek()),
        old(p).events@.len() < final(p).events@.len(),
        final(p).events@[old(p).events@.len() as int] == (Event::Open { kind: SyntaxKind::NumericExpression }),
        final(p).events@.last() is Close,
        final(p).st() == rule_NumericExpression(old(p).kinds(), old(p).st()),
    decreases old(p).remaining(), rank_NumericExpression(old(p).peek()), 1int,
{
    let ghost ks = p.kinds();
    let ghost s0 = p.st();
    let ghost start = p.pos as int;
    let marker = p.open();
    let ghost gm1 = marker.index as int;
    proof {
        assert(call_ok(ks, start, p.st(), rank_AdditiveExpression(peek_at(ks, p.st().pos)), rank_NumericExpression(peek_at(ks, start)))) by {
            reveal(Parser::st);
            assert(peek_at(ks, start) == old(p).peek());
            assert(peek_at(ks, p.pos as int) == p.peek());
        }
    }
    parse_AdditiveExpression(p);
    p.close(marker, SyntaxKind::NumericExpression);
    proof {
        assert(rule_NumericExpression(ks, s0) == p.st()) by {
            reveal_with_fuel(rule_NumericExpression, 1); reveal_with_fuel(rule_AdditiveExpression, 1);
        }
    }
}

pub open spec fn rank_AdditiveExpression(t: SyntaxKind) -> nat {
    match t {
        SyntaxKind::ABS | SyntaxKind::BNODE | SyntaxKind::BOUND | SyntaxKind::CEIL | SyntaxKind::COALESCE | SyntaxKind::CONCAT | SyntaxKind::CONTAINS | SyntaxKind::DATATYPE | SyntaxKind::DAY | SyntaxKind::DoubleLessLParen | SyntaxKind::ENCODE_FOR_URI | SyntaxKind::FLOOR | SyntaxKind::False | SyntaxKind::HOURS | SyntaxKind::IF | SyntaxKind::IRI | SyntaxKind::LANG | SyntaxKind::LANGDIR | SyntaxKind::LANGMATCHES | SyntaxKind::LCASE | SyntaxKind::LParen | SyntaxKind::MD5 | SyntaxKind::MINUTES | SyntaxKind::MONTH | SyntaxKind::NOW | SyntaxKind::OBJECT | SyntaxKind::PREDICATE | SyntaxKind::RAND | SyntaxKind::ROUND | SyntaxKind::SECONDS | SyntaxKind::SHA1 | SyntaxKind::SHA256 | SyntaxKind::SHA384 | SyntaxKind::SHA512 | SyntaxKind::STR | SyntaxKind::STRAFTER | SyntaxKind::STRBEFORE | SyntaxKind::STRDT | SyntaxKind::STRENDS | SyntaxKind::STRLANG | SyntaxKind::STRLANGDIR | SyntaxKind::STRLEN | SyntaxKind::STRSTARTS | SyntaxKind::STRUUID | SyntaxKind::SUBJECT | SyntaxKind::TIMEZONE | SyntaxKind::TRIPLE | SyntaxKind::TZ | SyntaxKind::True | SyntaxKind::UCASE | SyntaxKind::URI | SyntaxKind::UUID | SyntaxKind::VAR1 | SyntaxKind::VAR2 | SyntaxKind::YEAR | SyntaxKind::hasLANG | SyntaxKind::hasLANGDIR | SyntaxKind::isBLANK | SyntaxKind::isIRI | SyntaxKind::isLITERAL | SyntaxKind::isNUMERIC | SyntaxKind::isTRIPLE | SyntaxKind::isURI | SyntaxKind::sameTerm => 4,
        SyntaxKind::AVG | SyntaxKind::COUNT | SyntaxKind::DECIMAL | SyntaxKind::DECIMAL_NEGATIVE | SyntaxKind::DECIMAL_POSITIVE | SyntaxKind::DOUBLE | SyntaxKind::DOUBLE_NEGATIVE | SyntaxKind::DOUBLE_POSITIVE | SyntaxKind::EXISTS | SyntaxKind::GROUP_CONCAT | SyntaxKind::INTEGER | SyntaxKind::INTEGER_NEGATIVE | SyntaxKind::INTEGER_POSITIVE | SyntaxKind::IRIREF | SyntaxKind::MAX | SyntaxKind::MIN | SyntaxKind::NOT | SyntaxKind::REGEX | SyntaxKind::REPLACE | SyntaxKind::SAMPLE | SyntaxKind::STRING_LITERAL1 | SyntaxKind::STRING_LITERAL2 | SyntaxKind::STRING_LITERAL_LONG1 | SyntaxKind::STRING_LITERAL_LONG2 | SyntaxKind::SUBSTR | SyntaxKind::SUM => 5,
        SyntaxKind::PNAME_LN | SyntaxKind::PNAME_NS => 6,
        _ => 2,
    }
}

/// What [`parse_AdditiveExpression`] makes of the parser state.
#[verifier::opaque]
pub open spec fn rule_AdditiveExpression(ts: Seq<SyntaxKind>, s: St) -> St
    decreases ts.len() - s.pos, rank_AdditiveExpression(peek_at(ts, s.pos)), 32 * (ts.len() - s.pos) + 32,
{
    let start = s.pos;
    let s_in = s;
    let m_marker = s.evs.len() as int;
    let s = st_open(s);
    let s = if call_ok(ts, start, s, rank_MultiplicativeExpression(peek_at(ts, s.pos)), rank_AdditiveExpression(peek_at(ts, start))) {
        rule_MultiplicativeExpression(ts, s)
    } else {
        s
    };
    let (s, r) = if s_in.pos <= s.pos <= ts.len() {
        loop_AdditiveExpression_1(ts, start, m_marker, s)
    } else {
        (s, false)
    };
    if r {
        s
    } else {
        let s = st_close(s, m_marker, SyntaxKind::AdditiveExpression);
        s
    }
}

#[verifier::opaque]
pub open spec fn match_AdditiveExpression_4(ts: Seq<SyntaxKind>, start: int, m_marker: int, s: St) -> (St, bool)
    decreases ts.len() - start, rank_AdditiveExpression(peek_at(ts, start)), 32 * (ts.len() - s.pos) + 32 - 4,
{
    let s_in = s;
    if (peek_at(ts, s.pos) == SyntaxKind::INTEGER_POSITIVE || peek_at(ts, s.pos) == SyntaxKind::DECIMAL_POSITIVE || peek_at(ts, s.pos) == SyntaxKind::DOUBLE_POSITIVE) {
        let s = rule_NumericLiteralPositive(ts, s);
        (s, false)
    } else if (peek_at(ts, s.pos) == SyntaxKind::INTEGER_NEGATIVE || peek_at(ts, s.pos) == SyntaxKind::DECIMAL_NEGATIVE || peek_at(ts, s.pos) == SyntaxKind::DOUBLE_NEGATIVE) {
        let s = rule_NumericLiteralNegative(ts, s);
        (s, false)
    } else if (peek_at(ts, s.pos) == SyntaxKind::Eof) {
        let s = st_close(s, m_marker, SyntaxKind::AdditiveExpression);
        let m_marker = s.evs.len() as int;
        let s = st_open(s);
        let s = st_close(s, m_marker, SyntaxKind::Error);
        (s, true)
    } else {
        let s = st_advance_with_error(ts, s, seq![SyntaxKind::INTEGER_POSITIVE, SyntaxKind::DECIMAL_POSITIVE, SyntaxKind::DOUBLE_POSITIVE, SyntaxKind::INTEGER_NEGATIVE, SyntaxKind::DECIMAL_NEGATIVE, SyntaxKind::DOUBLE_NEGATIVE]);
        (s, false)
    }
}

#[verifier::opaque]
pub open spec fn match_AdditiveExpression_7(ts: Seq<SyntaxKind>, start: int, m_marker: int, s: St) -> (St, bool)
    decreases ts.len() - start, rank_AdditiveExpression(peek_at(ts, start)), 32 * (ts.len() - s.pos) + 32 - 6,
{
    let s_in = s;
    if (peek_at(ts, s.pos) == SyntaxKind::Star) {
        let s = st_expect(ts, s, SyntaxKind::Star);
        let s = if call_ok(ts, start, s, rank_UnaryExpression(peek_at(ts, s.pos)), rank_AdditiveExpression(peek_at(ts, start))) {
            rule_UnaryExpression(ts, s)
        } else {
            s
        };
        (s, false)
    } else if (peek_at(ts, s.pos) == SyntaxKind::Slash) {
        let s = st_expect(ts, s, SyntaxKind::Slash);
        let s = if call_ok(ts, start, s, rank_UnaryExpression(peek_at(ts, s.pos)), rank_AdditiveExpression(peek_at(ts, start))) {
            rule_UnaryExpression(ts, s)
        } else {
            s
        };
        (s, false)
    } else if (peek_at(ts, s.pos) == SyntaxKind::Eof) {
        let s = st_close(s, m_marker, SyntaxKind::AdditiveExpression);
        let m_marker = s.evs.len() as int;
        let s = st_open(s);
        let s = st_close(s, m_marker, SyntaxKind::Error);
        (s, true)
    } else {
        let s = st_advance_with_error(ts, s, seq![SyntaxKind::Star, SyntaxKind::Slash]);
        (s, false)
    }
}

#[verifier::opaque]
pub open spec fn loop_AdditiveExpression_5(ts: Seq<SyntaxKind>, start: int, m_marker: int, s: St) -> (St, bool)
    decreases ts.len() - start, rank_AdditiveExpression(peek_at(ts, start)), 32 * (ts.len() - s.pos) + 32 - 4,
{
    let s_in = s;
    if (peek_at(ts, s.pos) == SyntaxKind::Star || peek_at(ts, s.pos) == SyntaxKind::Slash) && s.pos <= ts.len() {
        let (s1, r) = body_AdditiveExpression_6(ts, start, m_marker, s);
        if r {
            (s1, true)
        } else if s1.pos == s.pos {
            (s1, false)
        } else if s.pos < s1.pos <= ts.len() {
            loop_AdditiveExpression_5(ts, start, m_marker, s1)
        } else {
            (s1, false)
        }
    } else {
        (s, false)
    }
}

#[verifier::opaque]
pub open spec fn body_AdditiveExpression_6(ts: Seq<SyntaxKind>, start: int, m_marker: int, s: St) -> (St, bool)
    decreases ts.len() - start, rank_AdditiveExpression(peek_at(ts, start)), 32 * (ts.len() - s.pos) + 32 - 5,
{
    let s_in = s;
    let (s, r) = if s_in.pos <= s.pos <= ts.len() {
        match_AdditiveExpression_7(ts, start, m_marker, s)
    } else {
        (s, false)
    };
    if r {
        (s, true)
    } else {
        (s, false)
    }
}

#[verifier::opaque]
pub open spec fn match_AdditiveExpression_3(ts: Seq<SyntaxKind>, start: int, m_marker: int, s: St) -> (St, bool)
    decreases ts.len() - start, rank_AdditiveExpression(peek_at(ts, start)), 32 * (ts.len() - s.pos) + 32 - 3,
{
    let s_in = s;
    if (peek_at(ts, s.pos) == SyntaxKind::Plus) {
        let s = st_expect(ts, s, SyntaxKind::Plus);
        let s = if call_ok(ts, start, s, rank_MultiplicativeExpression(peek_at(ts, s.pos)), rank_AdditiveExpression(peek_at(ts, start))) {
            rule_MultiplicativeExpression(ts, s)
        } else {
            s
        };
        (s, false)
    } else if (peek_at(ts, s.pos) == SyntaxKind::Minus) {
        let s = st_expect(ts, s, SyntaxKind::Minus);
        let s = if call_ok(ts, start, s, rank_MultiplicativeExpression(peek_at(ts, s.pos)), rank_AdditiveExpression(peek_at(ts, start))) {
            rule_MultiplicativeExpression(ts, s)
        } else {
            s
        };
        (s, false)
    } else if (peek_at(ts, s.pos) == SyntaxKind::INTEGER_POSITIVE || peek_at(ts, s.pos) == SyntaxKind::DECIMAL_POSITIVE || peek_at(ts, s.pos) == SyntaxKind::DOUBLE_POSITIVE || peek_at(ts, s.pos) == SyntaxKind::INTEGER_NEGATIVE || peek_at(ts, s.pos) == SyntaxKind::DECIMAL_NEGATIVE || peek_at(ts, s.pos) == SyntaxKind::DOUBLE_NEGATIVE) {
        let (s, r) = if s_in.pos <= s.pos <= ts.len() {
            match_AdditiveExpression_4(ts, start, m_marker, s)
        } else {
            (s, false)
        };
        if r {
            (s, true)
        } else {
            let (s, r) = if s_in.pos <= s.pos <= ts.len() {
                loop_AdditiveExpression_5(ts, start, m_marker, s)
            } else {
                (s, false)
            };
            if r {
                (s, true)
            } else {
                (s, false)
            }
        }
    } else if (peek_at(ts, s.pos) == SyntaxKind::Eof) {
        let s = st_close(s, m_marker, SyntaxKind::AdditiveExpression);
        let m_marker = s.evs.len() as int;
        let s = st_open(s);
        let s = st_close(s, m_marker, SyntaxKind::Error);
        (s, true)
    } else {
        let s = st_advance_with_error(ts, s, seq![SyntaxKind::Plus, SyntaxKind::Minus, SyntaxKind::INTEGER_POSITIVE, SyntaxKind::DECIMAL_POSITIVE, SyntaxKind::DOUBLE_POSITIVE, SyntaxKind::INTEGER_NEGATIVE, SyntaxKind::DECIMAL_NEGATIVE, SyntaxKind::DOUBLE_NEGATIVE]);
        (s, false)
    }
}

#[verifier::opaque]
pub open spec fn loop_AdditiveExpression_1(ts: Seq<SyntaxKind>, start: int, m_marker: int, s: St) -> (St, bool)
    decreases ts.len() - start, rank_AdditiveExpression(peek_at(ts, start)), 32 * (ts.len() - s.pos) + 32 - 1,
{
    let s_in = s;
    if (peek_at(ts, s.pos) == SyntaxKind::Plus || peek_at(ts, s.pos) == SyntaxKind::Minus || peek_at(ts, s.pos) == SyntaxKind::INTEGER_POSITIVE || peek_at(ts, s.pos) == SyntaxKind::DECIMAL_POSITIVE || peek_at(ts, s.pos) == SyntaxKind::DOUBLE_POSITIVE || peek_at(ts, s.pos) == SyntaxKind::INTEGER_NEGATIVE || peek_at(ts, s.pos) == SyntaxKind::DECIMAL_NEGATIVE || peek_at(ts, s.pos) == SyntaxKind::DOUBLE_NEGATIVE) && s.pos <= ts.len() {
        let (s1, r) = body_AdditiveExpression_2(ts, start, m_marker, s);
        if r {
            (s1, true)
        } else if s1.pos == s.pos {
            (s1, false)
        } else if s.pos < s1.pos <= ts.len() {
            loop_AdditiveExpression_1(ts, start, m_marker, s1)
        } else {
            (s1, false)
        }
    } else {
        (s, false)
    }
}

#[verifier::opaque]
pub open spec fn body_AdditiveExpression_2(ts: Seq<SyntaxKind>, start: int, m_marker: int, s: St) -> (St, bool)
    decreases ts.len() - start, rank_AdditiveExpression(peek_at(ts, start)), 32 * (ts.len() - s.pos) + 32 - 2,
{
    let s_in = s;
    let (s, r) = if s_in.pos <= s.pos <= ts.len() {
        match_AdditiveExpression_3(ts, start, m_marker, s)
    } else {
        (s, false)
    };
    if r {
        (s, true)
    } else {
        (s, false)
    }
}

/// [139] AdditiveExpression -> MultiplicativeExpression ('+' MultiplicativeExpression | '-' MultiplicativeExpression | (NumericLiteralPositive | NumericLiteralNegative) ('*' UnaryExpression | '/' UnaryExpression)*)*
pub(crate) fn parse_AdditiveExpression(p: &mut Parser)
    requires
        old(p).wf(),
    ensures
        Parser::step(*old(p), *final(p)),
        final(p).pos == old(p).pos ==> is_sync_point(old(p).peek()),
        old(p).events@.len() < final(p).events@.len(),
        final(p).events@[old(p).events@.len() as int] == (Event::Open { kind: SyntaxKind::AdditiveExpression }),
        final(p).events@.last() is Close,
        final(p).st() == rule_AdditiveExpression(old(p).kinds(), old(p).st()),
    decreases old(p).remaining(), rank_AdditiveExpression(old(p).peek()), 1int,
{
    let ghost ks = p.kinds();
    let ghost s0 = p.st();
    let ghost start = p.pos as int;
    let mut returned: bool = false;
    let marker = p.open();
    let ghost gm1 = marker.index as int;
    proof {
        assert(call_ok(ks, start, p.st(), rank_MultiplicativeExpression(peek_at(ks, p.st().pos)), rank_AdditiveExpression(peek_at(ks, start)))) by {
            reveal(Parser::st);
            assert(peek_at(ks, start) == old(p).peek());
            assert(peek_at(ks, p.pos as int) == p.peek());
        }
    }
    parse_MultiplicativeExpression(p);
    let ghost pre1 = p.st();
    proof {
        assert(p.st().pos == p.pos as int) by {
            reveal(Parser::st);
        }
        if !(peek_at(ks, p.st().pos) == SyntaxKind::Plus || peek_at(ks, p.st().pos) == SyntaxKind::Minus || peek_at(ks, p.st().pos) == SyntaxKind::INTEGER_POSITIVE || peek_at(ks, p.st().pos) == SyntaxKind::DECIMAL_POSITIVE || peek_at(ks, p.st().pos) == SyntaxKind::DOUBLE_POSITIVE || peek_at(ks, p.st().pos) == SyntaxKind::INTEGER_NEGATIVE || peek_at(ks, p.st().pos) == SyntaxKind::DECIMAL_NEGATIVE || peek_at(ks, p.st().pos) == SyntaxKind::DOUBLE_NEGATIVE) {
            assert(loop_AdditiveExpression_1(ks, start, gm1, pre1) == (pre1, false)) by {
                reveal_with_fuel(loop_AdditiveExpression_1, 1); reveal_with_fuel(body_AdditiveExpression_2, 1);
            }
        }
    }
    while p.at_any(&[SyntaxKind::Plus, SyntaxKind::Minus, SyntaxKind::INTEGER_POSITIVE, SyntaxKind::DECIMAL_POSITIVE, SyntaxKind::DOUBLE_POSITIVE, SyntaxKind::INTEGER_NEGATIVE, SyntaxKind::DECIMAL_NEGATIVE, SyntaxKind::DOUBLE_NEGATIVE])
        invariant_except_break
            !returned,
        invariant
            marker.index == old(p).events@.len(),
            p.wf(),
            p.tokens@ == old(p).tokens@,
            old(p).pos <= p.pos,
            p.stack() == old(p).stack().push(marker.index as int),
            p.pos == old(p).pos ==> is_sync_point(old(p).peek()),
            ks == p.kinds(),
            p.st().pos == p.pos as int,
            start == old(p).pos as int,
            gm1 == marker.index as int,
            pre1.pos <= p.pos,
            start <= pre1.pos,
            loop_AdditiveExpression_1(ks, start, gm1, p.st()) == loop_AdditiveExpression_1(ks, start, gm1, pre1),
            !(peek_at(ks, p.st().pos) == SyntaxKind::Plus || peek_at(ks, p.st().pos) == SyntaxKind::Minus || peek_at(ks, p.st().pos) == SyntaxKind::INTEGER_POSITIVE || peek_at(ks, p.st().pos) == SyntaxKind::DECIMAL_POSITIVE || peek_at(ks, p.st().pos) == SyntaxKind::DOUBLE_POSITIVE || peek_at(ks, p.st().pos) == SyntaxKind::INTEGER_NEGATIVE || peek_at(ks, p.st().pos) == SyntaxKind::DECIMAL_NEGATIVE || peek_at(ks, p.st().pos) == SyntaxKind::DOUBLE_NEGATIVE) ==> loop_AdditiveExpression_1(ks, start, gm1, p.st()) == (p.st(), false),
        ensures
            returned ==> (Parser::step(*old(p), *p)),
            returned ==> (p.pos == old(p).pos ==> is_sync_point(old(p).peek())),
            returned ==> (old(p).events@.len() < p.events@.len()),
            returned ==> (p.events@[old(p).events@.len() as int] == (Event::Open { kind: SyntaxKind::AdditiveExpression })),
            returned ==> (p.events@.last() is Close),
            loop_AdditiveExpression_1(ks, start, gm1, pre1) == (p.st(), returned),
        decreases p.remaining(),
    {
        let ghost si1 = p.st();
        let checkpoint1 = p.pos();
        let ghost pre2 = p.st();
        match p.nth(0) {
            SyntaxKind::Plus => {
                p.expect(SyntaxKind::Plus);
                proof {
                    assert(call_ok(ks, start, p.st(), rank_MultiplicativeExpression(peek_at(ks, p.st().pos)), rank_AdditiveExpression(peek_at(ks, start)))) by {
                        reveal(Parser::st);
                        assert(peek_at(ks, start) == old(p).peek());
                        assert(peek_at(ks, p.pos as int) == p.peek());
                    }
                }
                parse_MultiplicativeExpression(p);
                proof {
                    assert(match_AdditiveExpression_3(ks, start, gm1, pre2) == (p.st(), false)) by {
                        reveal_with_fuel(match_AdditiveExpression_3, 1); reveal_with_fuel(rule_MultiplicativeExpression, 1);
                    }
                }
            },
            SyntaxKind::Minus => {
                p.expect(SyntaxKind::Minus);
                proof {
                    assert(call_ok(ks, start, p.st(), rank_MultiplicativeExpression(peek_at(ks, p.st().pos)), rank_AdditiveExpression(peek_at(ks, start)))) by {
                        reveal(Parser::st);
                        assert(peek_at(ks, start) == old(p).peek());
                        assert(peek_at(ks, p.pos as int) == p.peek());
                    }
                }
                parse_MultiplicativeExpression(p);
                proof {
                    assert(match_AdditiveExpression_3(ks, start, gm1, pre2) == (p.st(), false)) by {
                        reveal_with_fuel(match_AdditiveExpression_3, 1); reveal_with_fuel(rule_MultiplicativeExpression, 1);
                    }
                }
            },
            SyntaxKind::INTEGER_POSITIVE | SyntaxKind::DECIMAL_POSITIVE | SyntaxKind::DOUBLE_POSITIVE | SyntaxKind::INTEGER_NEGATIVE | SyntaxKind::DECIMAL_NEGATIVE | SyntaxKind::DOUBLE_NEGATIVE => {
                let ghost pre3 = p.st();
                match p.nth(0) {
                    SyntaxKind::INTEGER_POSITIVE | SyntaxKind::DECIMAL_POSITIVE | SyntaxKind::DOUBLE_POSITIVE => {
                        parse_NumericLiteralPositive(p);
                        proof {
                            assert(match_AdditiveExpression_4(ks, start, gm1, pre3) == (p.st(), false)) by {
                                reveal_with_fuel(match_AdditiveExpression_4, 1);
                            }
                        }
                    },
                    SyntaxKind::INTEGER_NEGATIVE | SyntaxKind::DECIMAL_NEGATIVE | SyntaxKind::DOUBLE_NEGATIVE => {
                        parse_NumericLiteralNegative(p);
                        proof {
                            assert(match_AdditiveExpression_4(ks, start, gm1, pre3) == (p.st(), false)) by {
                                reveal_with_fuel(match_AdditiveExpression_4, 1);
                            }
                        }
                    },
                    SyntaxKind::Eof => {
                        p.close(marker, SyntaxKind::AdditiveExpression);
                        let marker = p.open();
                        let ghost gm2 = marker.index as int;
                        p.close(marker, SyntaxKind::Error);
                        proof {
                            assert(match_AdditiveExpression_4(ks, start, gm1, pre3) == (p.st(), true)) by {
                                reveal_with_fuel(match_AdditiveExpression_4, 1);
                            }
                        }
                        proof {
                            assert(match_AdditiveExpression_3(ks, start, gm1, pre2) == (p.st(), true)) by {
                                reveal_with_fuel(match_AdditiveExpression_3, 1); reveal_with_fuel(loop_AdditiveExpression_5, 1); reveal_with_fuel(match_AdditiveExpression_4, 1);
                            }
                        }
                        proof {
                            assert(body_AdditiveExpression_2(ks, start, gm1, si1) == (p.st(), true)) by {
                                reveal_with_fuel(body_AdditiveExpression_2, 1); reveal_with_fuel(match_AdditiveExpression_3, 1);
                            }
                        }
                        proof {
                            assert(loop_AdditiveExpression_1(ks, start, gm1, si1) == (p.st(), true)) by {
                                reveal_with_fuel(loop_AdditiveExpression_1, 1); reveal_with_fuel(body_AdditiveExpression_2, 1);
                            }
                        }
                        returned = true;
                        break;
                    },
                    _ => {
                        p.advance_with_error(vec![SyntaxKind::INTEGER_POSITIVE, SyntaxKind::DECIMAL_POSITIVE, SyntaxKind::DOUBLE_POSITIVE, SyntaxKind::INTEGER_NEGATIVE, SyntaxKind::DECIMAL_NEGATIVE, SyntaxKind::DOUBLE_NEGATIVE]);
                        proof {
                            assert(match_AdditiveExpression_4(ks, start, gm1, pre3) == (p.st(), false)) by {
                                reveal_with_fuel(match_AdditiveExpression_4, 1);
                            }
                        }
                    },
                }
                let ghost pre4 = p.st();
                proof {
                    assert(p.st().pos == p.pos as int) by {
                        reveal(Parser::st);
                    }
                    if !(peek_at(ks, p.st().pos) == SyntaxKind::Star || peek_at(ks, p.st().pos) == SyntaxKind::Slash) {
                        assert(loop_AdditiveExpression_5(ks, start, gm1, pre4) == (pre4, false)) by {
                            reveal_with_fuel(loop_AdditiveExpression_5, 1); reveal_with_fuel(body_AdditiveExpression_6, 1);
                        }
                    }
                }
                while p.at_any(&[SyntaxKind::Star, SyntaxKind::Slash])
                    invariant_except_break
                        !returned,
                    invariant
                        marker.index == old(p).events@.len(),
                        p.wf(),
                        p.tokens@ == old(p).tokens@,
                        old(p).pos <= p.pos,
                        p.stack() == old(p).stack().push(marker.index as int),
                        p.pos == old(p).pos ==> false,
                        checkpoint1 <= p.pos,
                        ks == p.kinds(),
                        p.st().pos == p.pos as int,
                        start == old(p).pos as int,
                        gm1 == marker.index as int,
                        pre4.pos <= p.pos,
                        start <= pre4.pos,
                        loop_AdditiveExpression_5(ks, start, gm1, p.st()) == loop_AdditiveExpression_5(ks, start, gm1, pre4),
                        !(peek_at(ks, p.st().pos) == SyntaxKind::Star || peek_at(ks, p.st().pos) == SyntaxKind::Slash) ==> loop_AdditiveExpression_5(ks, start, gm1, p.st()) == (p.st(), false),
                    ensures
                        returned ==> (Parser::step(*old(p), *p)),
                        returned ==> (p.pos == old(p).pos ==> is_sync_point(old(p).peek())),
                        returned ==> (old(p).events@.len() < p.events@.len()),
                        returned ==> (p.events@[old(p).events@.len() as int] == (Event::Open { kind: SyntaxKind::AdditiveExpression })),
                        returned ==> (p.events@.last() is Close),
                        loop_AdditiveExpression_5(ks, start, gm1, pre4) == (p.st(), returned),
                    decreases p.remaining(),
                {
                    let ghost si4 = p.st();
                    let checkpoint2 = p.pos();
                    let ghost pre5 = p.st();
                    match p.nth(0) {
                        SyntaxKind::Star => {
                            p.expect(SyntaxKind::Star);
                            proof {
                                assert(call_ok(ks, start, p.st(), rank_UnaryExpression(peek_at(ks, p.st().pos)), rank_AdditiveExpression(peek_at(ks, start)))) by {
                                    reveal(Parser::st);
                                    assert(peek_at(ks, start) == old(p).peek());
                                    assert(peek_at(ks, p.pos as int) == p.peek());
                                }
                            }
                            parse_UnaryExpression(p);
                            proof {
                                assert(match_AdditiveExpression_7(ks, start, gm1, pre5) == (p.st(), false)) by {
                                    reveal_with_fuel(match_AdditiveExpression_7, 1); reveal_with_fuel(rule_UnaryExpression, 1);
                                }
                            }
                        },
                        SyntaxKind::Slash => {
                            p.expect(SyntaxKind::Slash);
                            proof {
                                assert(call_ok(ks, start, p.st(), rank_UnaryExpression(peek_at(ks, p.st().pos)), rank_AdditiveExpression(peek_at(ks, start)))) by {
                                    reveal(Parser::st);
                                    assert(peek_at(ks, start) == old(p).peek());
                                    assert(peek_at(ks, p.pos as int) == p.peek());
                                }
                            }
                            parse_UnaryExpression(p);
                            proof {
                                assert(match_AdditiveExpression_7(ks, start, gm1, pre5) == (p.st(), false)) by {
                                    reveal_with_fuel(match_AdditiveExpression_7, 1); reveal_with_fuel(rule_UnaryExpression, 1);
                                }
                            }
                        },
                        SyntaxKind::Eof => {
                            p.close(marker, SyntaxKind::AdditiveExpression);
                            let marker = p.open();
                            let ghost gm3 = marker.index as int;
                            p.close(marker, SyntaxKind::Error);
                            proof {
                                assert(match_AdditiveExpression_7(ks, start, gm1, pre5) == (p.st(), true)) by {
                                    reveal_with_fuel(match_AdditiveExpression_7, 1);
                                }
                            }
                            proof {
                                assert(body_AdditiveExpression_6(ks, start, gm1, si4) == (p.st(), true)) by {
                                    reveal_with_fuel(body_AdditiveExpression_6, 1); reveal_with_fuel(match_AdditiveExpression_7, 1);
                                }
                            }
                            proof {
                                assert(loop_AdditiveExpression_5(ks, start, gm1, si4) == (p.st(), true)) by {
                                    reveal_with_fuel(loop_AdditiveExpression_5, 1); reveal_with_fuel(body_AdditiveExpression_6, 1);
                                }
                            }
                            returned = true;
                            break;
                        },
                        _ => {
                            p.advance_with_error(vec![SyntaxKind::Star, SyntaxKind::Slash]);
                            proof {
                                assert(match_AdditiveExpression_7(ks, start, gm1, pre5) == (p.st(), false)) by {
                                    reveal_with_fuel(match_AdditiveExpression_7, 1);
                                }
                            }
                        },
                    }
                    proof {
                        assert(body_AdditiveExpression_6(ks, start, gm1, si4) == (p.st(), false)) by {
                            reveal_with_fuel(body_AdditiveExpression_6, 1); reveal_with_fuel(match_AdditiveExpression_7, 1);
                        }
                    }
                    if p.pos() == checkpoint2 {
                        proof {
                            assert(loop_AdditiveExpression_5(ks, start, gm1, si4) == (p.st(), false)) by {
                                reveal_with_fuel(loop_AdditiveExpression_5, 1); reveal_with_fuel(body_AdditiveExpression_6, 1);
                            }
                        }
                        break;
                    }
                    proof {
                        assert(p.st().pos == p.pos as int) by {
                            reveal(Parser::st);
                        }
                        assert(loop_AdditiveExpression_5(ks, start, gm1, si4) == loop_AdditiveExpression_5(ks, start, gm1, p.st())) by {
                            reveal_with_fuel(loop_AdditiveExpression_5, 1); reveal_with_fuel(body_AdditiveExpression_6, 1);
                            reveal(Parser::st);
                        }
                        if !(peek_at(ks, p.st().pos) == SyntaxKind::Star || peek_at(ks, p.st().pos) == SyntaxKind::Slash) {
                            assert(loop_AdditiveExpression_5(ks, start, gm1, p.st()) == (p.st(), false)) by {
                                reveal_with_fuel(loop_AdditiveExpression_5, 1); reveal_with_fuel(body_AdditiveExpression_6, 1);
                            }
                        }
                    }
                }
                if returned {
                    proof {
                        assert(match_AdditiveExpression_3(ks, start, gm1, pre2) == (p.st(), true)) by {
                            reveal_with_fuel(match_AdditiveExpression_3, 1); reveal_with_fuel(loop_AdditiveExpression_5, 1); reveal_with_fuel(match_AdditiveExpression_4, 1);
                        }
                    }
                    proof {
                        assert(body_AdditiveExpression_2(ks, start, gm1, si1) == (p.st(), true)) by {
                            reveal_with_fuel(body_AdditiveExpression_2, 1); reveal_with_fuel(match_AdditiveExpression_3, 1);
                        }
                    }
                    proof {
                        assert(loop_AdditiveExpression_1(ks, start, gm1, si1) == (p.st(), true)) by {
                            reveal_with_fuel(loop_AdditiveExpression_1, 1); reveal_with_fuel(body_AdditiveExpression_2, 1);
                        }
                    }
                    returned = true;
                    break;
                }
                proof {
                    assert(match_AdditiveExpression_3(ks, start, gm1, pre2) == (p.st(), false)) by {
                        reveal_with_fuel(match_AdditiveExpression_3, 1); reveal_with_fuel(loop_AdditiveExpression_5, 1); reveal_with_fuel(match_AdditiveExpression_4, 1);
                    }
                }
            },
            SyntaxKind::Eof => {
                p.close(marker, SyntaxKind::AdditiveExpression);
                let marker = p.open();
                let ghost gm4 = marker.index as int;
                p.close(marker, SyntaxKind::Error);
                proof {
                    assert(match_AdditiveExpression_3(ks, start, gm1, pre2) == (p.st(), true)) by {
                        reveal_with_fuel(match_AdditiveExpression_3, 1);
                    }
                }
                proof {
                    assert(body_AdditiveExpression_2(ks, start, gm1, si1) == (p.st(), true)) by {
                        reveal_with_fuel(body_AdditiveExpression_2, 1); reveal_with_fuel(match_AdditiveExpression_3, 1);
                    }
                }
                proof {
                    assert(loop_AdditiveExpression_1(ks, start, gm1, si1) == (p.st(), true)) by {
                        reveal_with_fuel(loop_AdditiveExpression_1, 1); reveal_with_fuel(body_AdditiveExpression_2, 1);
                    }
                }
                returned = true;
                break;
            },
            _ => {
                p.advance_with_error(vec![SyntaxKind::Plus, SyntaxKind::Minus, SyntaxKind::INTEGER_POSITIVE, SyntaxKind::DECIMAL_POSITIVE, SyntaxKind::DOUBLE_POSITIVE, SyntaxKind::INTEGER_NEGATIVE, SyntaxKind::DECIMAL_NEGATIVE, SyntaxKind::DOUBLE_NEGATIVE]);
                proof {
                    assert(match_AdditiveExpression_3(ks, start, gm1, pre2) == (p.st(), false)) by {
                        reveal_with_fuel(match_AdditiveExpression_3, 1);
                    }
                }
            },
        }
        proof {
            assert(body_AdditiveExpression_2(ks, start, gm1, si1) == (p.st(), false)) by {
                reveal_with_fuel(body_AdditiveExpression_2, 1); reveal_with_fuel(match_AdditiveExpression_3, 1);
            }
        }
        if p.pos() == checkpoint1 {
            proof {
                assert(loop_AdditiveExpression_1(ks, start, gm1, si1) == (p.st(), false)) by {
                    reveal_with_fuel(loop_AdditiveExpression_1, 1); reveal_with_fuel(body_AdditiveExpression_2, 1);
                }
            }
            break;
        }
        proof {
            assert(p.st().pos == p.pos as int) by {
                reveal(Parser::st);
            }
            assert(loop_AdditiveExpression_1(ks, start, gm1, si1) == loop_AdditiveExpression_1(ks, start, gm1, p.st())) by {
                reveal_with_fuel(loop_AdditiveExpression_1, 1); reveal_with_fuel(body_AdditiveExpression_2, 1);
                reveal(Parser::st);
            }
            if !(peek_at(ks, p.st().pos) == SyntaxKind::Plus || peek_at(ks, p.st().pos) == SyntaxKind::Minus || peek_at(ks, p.st().pos) == SyntaxKind::INTEGER_POSITIVE || peek_at(ks, p.st().pos) == SyntaxKind::DECIMAL_POSITIVE || peek_at(ks, p.st().pos) == SyntaxKind::DOUBLE_POSITIVE || peek_at(ks, p.st().pos) == SyntaxKind::INTEGER_NEGATIVE || peek_at(ks, p.st().pos) == SyntaxKind::DECIMAL_NEGATIVE || peek_at(ks, p.st().pos) == SyntaxKind::DOUBLE_NEGATIVE) {
                assert(loop_AdditiveExpression_1(ks, start, gm1, p.st()) == (p.st(), false)) by {
                    reveal_with_fuel(loop_AdditiveExpression_1, 1); reveal_with_fuel(body_AdditiveExpression_2, 1);
                }
            }
        }
    }
    if returned {
        proof {
            assert(rule_AdditiveExpression(ks, s0) == p.st()) by {
                reveal_with_fuel(rule_AdditiveExpression, 1); reveal_with_fuel(loop_AdditiveExpression_1, 1); reveal_with_fuel(rule_MultiplicativeExpression, 1);
            }
        }
        return ;
    }
    p.close(marker, SyntaxKind::AdditiveExpression);
    proof {
        assert(rule_AdditiveExpression(ks, s0) == p.st()) by {
            reveal_with_fuel(rule_AdditiveExpression, 1); reveal_with_fuel(loop_AdditiveExpression_1, 1); reveal_with_fuel(rule_MultiplicativeExpression, 1);
        }
    }
}

pub open spec fn rank_MultiplicativeExpression(t: SyntaxKind) -> nat {
    match t {
        SyntaxKind::ABS | SyntaxKind::BNODE | SyntaxKind::BOUND | SyntaxKind::CEIL | SyntaxKind::COALESCE | SyntaxKind::CONCAT | SyntaxKind::CONTAINS | SyntaxKind::DATATYPE | SyntaxKind::DAY | SyntaxKind::DoubleLessLParen | SyntaxKind::ENCODE_FOR_URI | SyntaxKind::FLOOR | SyntaxKind::False | SyntaxKind::HOURS | SyntaxKind::IF | SyntaxKind::IRI | SyntaxKind::LANG | SyntaxKind::LANGDIR | SyntaxKind::LANGMATCHES | SyntaxKind::LCASE | SyntaxKind::LParen | SyntaxKind::MD5 | SyntaxKind::MINUTES | SyntaxKind::MONTH | SyntaxKind::NOW | SyntaxKind::OBJECT | SyntaxKind::PREDICATE | SyntaxKind::RAND | SyntaxKind::ROUND | SyntaxKind::SECONDS | SyntaxKind::SHA1 | SyntaxKind::SHA256 | SyntaxKind::SHA384 | SyntaxKind::SHA512 | SyntaxKind::STR | SyntaxKind::STRAFTER | SyntaxKind::STRBEFORE | SyntaxKind::STRDT | SyntaxKind::STRENDS | SyntaxKind::STRLANG | SyntaxKind::STRLANGDIR | SyntaxKind::STRLEN | SyntaxKind::STRSTARTS | SyntaxKind::STRUUID | SyntaxKind::SUBJECT | SyntaxKind::TIMEZONE | SyntaxKind::TRIPLE | SyntaxKind::TZ | SyntaxKind::True | SyntaxKind::UCASE | SyntaxKind::URI | SyntaxKind::UUID | SyntaxKind::VAR1 | SyntaxKind::VAR2 | SyntaxKind::YEAR | SyntaxKind::hasLANG | SyntaxKind::hasLANGDIR | SyntaxKind::isBLANK | SyntaxKind::isIRI | SyntaxKind::isLITERAL | SyntaxKind::isNUMERIC | SyntaxKind::isTRIPLE | SyntaxKind::isURI | SyntaxKind::sameTerm => 3,
        SyntaxKind::AVG | SyntaxKind::COUNT | SyntaxKind::DECIMAL | SyntaxKind::DECIMAL_NEGATIVE | SyntaxKind::DECIMAL_POSITIVE | SyntaxKind::DOUBLE | SyntaxKind::DOUBLE_NEGATIVE | SyntaxKind::DOUBLE_POSITIVE | SyntaxKind::EXISTS | SyntaxKind::GROUP_CONCAT | SyntaxKind::INTEGER | SyntaxKind::INTEGER_NEGATIVE | SyntaxKind::INTEGER_POSITIVE | SyntaxKind::IRIREF | SyntaxKind::MAX | SyntaxKind::MIN | SyntaxKind::NOT | SyntaxKind::REGEX | SyntaxKind::REPLACE | SyntaxKind::SAMPLE | SyntaxKind::STRING_LITERAL1 | SyntaxKind::STRING_LITERAL2 | SyntaxKind::STRING_LITERAL_LONG1 | SyntaxKind::STRING_LITERAL_LONG2 | SyntaxKind::SUBSTR | SyntaxKind::SUM => 4,
        SyntaxKind::PNAME_LN | SyntaxKind::PNAME_NS => 5,
        _ => 1,
    }
}

/// What [`parse_MultiplicativeExpression`] makes of the parser state.
#[verifier::opaque]
pub open spec fn rule_MultiplicativeExpression(ts: Seq<SyntaxKind>, s: St) -> St
    decreases ts.len() - s.pos, rank_MultiplicativeExpression(peek_at(ts, s.pos)), 32 * (ts.len() - s.pos) + 32,
{
    let start = s.pos;
    let s_in = s;
    let m_marker = s.evs.len() as int;
    let s = st_open(s);
    let s = if call_ok(ts, start, s, rank_UnaryExpression(peek_at(ts, s.pos)), rank_MultiplicativeExpression(peek_at(ts, start))) {
        rule_UnaryExpression(ts, s)
    } else {
        s
    };
    let (s, r) = if s_in.pos <= s.pos <= ts.len() {
        loop_MultiplicativeExpression_1(ts, start, m_marker, s)
    } else {
        (s, false)
    };
    if r {
        s
    } else {
        let s = st_close(s, m_marker, SyntaxKind::MultiplicativeExpression);
        s
    }
}

#[verifier::opaque]
pub open spec fn match_MultiplicativeExpression_3(ts: Seq<SyntaxKind>, start: int, m_marker: int, s: St) -> (St, bool)
    decreases ts.len() - start, rank_MultiplicativeExpression(peek_at(ts, start)), 32 * (ts.len() - s.pos) + 32 - 3,
{
    let s_in = s;
    if (peek_at(ts, s.pos) == SyntaxKind::Star) {
        let s = st_expect(ts, s, SyntaxKind::Star);
        let s = if call_ok(ts, start, s, rank_UnaryExpression(peek_at(ts, s.pos)), rank_MultiplicativeExpression(peek_at(ts, start))) {
            rule_UnaryExpression(ts, s)
        } else {
            s
        };
        (s, false)
    } else if (peek_at(ts, s.pos) == SyntaxKind::Slash) {
        let s = st_expect(ts, s, SyntaxKind::Slash);
        let s = if call_ok(ts, start, s, rank_UnaryExpression(peek_at(ts, s.pos)), rank_MultiplicativeExpression(peek_at(ts, start))) {
            rule_UnaryExpression(ts, s)
        } else {
            s
        };
        (s, false)
    } else if (peek_at(ts, s.pos) == SyntaxKind::Eof) {
        let s = st_close(s, m_marker, SyntaxKind::MultiplicativeExpression);
        let m_marker = s.evs.len() as int;
        let s = st_open(s);
        let s = st_close(s, m_marker, SyntaxKind::Error);
        (s, true)
    } else {
        let s = st_advance_with_error(ts, s, seq![SyntaxKind::Star, SyntaxKind::Slash]);
        (s, false)
    }
}

#[verifier::opaque]
pub open spec fn loop_MultiplicativeExpression_1(ts: Seq<SyntaxKind>, start: int, m_marker: int, s: St) -> (St, bool)
    decreases ts.len() - start, rank_MultiplicativeExpression(peek_at(ts, start)), 32 * (ts.len() - s.pos) + 32 - 1,
{
    let s_in = s;
    if (peek_at(ts, s.pos) == SyntaxKind::Star || peek_at(ts, s.pos) == SyntaxKind::Slash) && s.pos <= ts.len() {
        let (s1, r) = body_MultiplicativeExpression_2(ts, start, m_marker, s);
        if r {
            (s1, true)
        } else if s1.pos == s.pos {
            (s1, false)
        } else if s.pos < s1.pos <= ts.len() {
            loop_MultiplicativeExpression_1(ts, start, m_marker, s1)
        } else {
            (s1, false)
        }
    } else {
        (s, false)
    }
}

#[verifier::opaque]
pub open spec fn body_MultiplicativeExpression_2(ts: Seq<SyntaxKind>, start: int, m_marker: int, s: St) -> (St, bool)
    decreases ts.len() - start, rank_MultiplicativeExpression(peek_at(ts, start)), 32 * (ts.len() - s.pos) + 32 - 2,
{
    let s_in = s;
    let (s, r) = if s_in.pos <= s.pos <= ts.len() {
        match_MultiplicativeExpression_3(ts, start, m_marker, s)
    } else {
        (s, false)
    };
    if r {
        (s, true)
    } else {
        (s, false)
    }
}

/// [140] MultiplicativeExpression -> UnaryExpression ('*' UnaryExpression | '/' UnaryExpression)*
pub(crate) fn parse_MultiplicativeExpression(p: &mut Parser)
    requires
        old(p).wf(),
    ensures
        Parser::step(*old(p), *final(p)),
        final(p).pos == old(p).pos ==> is_sync_point(old(p).peek()),
        old(p).events@.len() < final(p).events@.len(),
        final(p).events@[old(p).events@.len() as int] == (Event::Open { kind: SyntaxKind::MultiplicativeExpression }),
        final(p).events@.last() is Close,
        final(p).st() == rule_MultiplicativeExpression(old(p).kinds(), old(p).st()),
    decreases old(p).remaining(), rank_MultiplicativeExpression(old(p).peek()), 1int,
{
    let ghost ks = p.kinds();
    let ghost s0 = p.st();
    let ghost start = p.pos as int;
    let mut returned: bool = false;
    let marker = p.open();
    let ghost gm1 = marker.index as int;
    proof {
        assert(call_ok(ks, start, p.st(), rank_UnaryExpression(peek_at(ks, p.st().pos)), rank_MultiplicativeExpression(peek_at(ks, start)))) by {
            reveal(Parser::st);
            assert(peek_at(ks, start) == old(p).peek());
            assert(peek_at(ks, p.pos as int) == p.peek());
        }
    }
    parse_UnaryExpression(p);
    let ghost pre1 = p.st();
    proof {
        assert(p.st().pos == p.pos as int) by {
            reveal(Parser::st);
        }
        if !(peek_at(ks, p.st().pos) == SyntaxKind::Star || peek_at(ks, p.st().pos) == SyntaxKind::Slash) {
            assert(loop_MultiplicativeExpression_1(ks, start, gm1, pre1) == (pre1, false)) by {
                reveal_with_fuel(loop_MultiplicativeExpression_1, 1); reveal_with_fuel(body_MultiplicativeExpression_2, 1);
            }
        }
    }
    while p.at_any(&[SyntaxKind::Star, SyntaxKind::Slash])
        invariant_except_break
            !returned,
        invariant
            marker.index == old(p).events@.len(),
            p.wf(),
            p.tokens@ == old(p).tokens@,
            old(p).pos <= p.pos,
            p.stack() == old(p).stack().push(marker.index as int),
            p.pos == old(p).pos ==> is_sync_point(old(p).peek()),
            ks == p.kinds(),
            p.st().pos == p.pos as int,
            start == old(p).pos as int,
            gm1 == marker.index as int,
            pre1.pos <= p.pos,
            start <= pre1.pos,
            loop_MultiplicativeExpression_1(ks, start, gm1, p.st()) == loop_MultiplicativeExpression_1(ks, start, gm1, pre1),
            !(peek_at(ks, p.st().pos) == SyntaxKind::Star || peek_at(ks, p.st().pos) == SyntaxKind::Slash) ==> loop_MultiplicativeExpression_1(ks, start, gm1, p.st()) == (p.st(), false),
        ensures
            returned ==> (Parser::step(*old(p), *p)),
            returned ==> (p.pos == old(p).pos ==> is_sync_point(old(p).peek())),
            returned ==> (old(p).events@.len() < p.events@.len()),
            returned ==> (p.events@[old(p).events@.len() as int] == (Event::Open { kind: SyntaxKind::MultiplicativeExpression })),
            returned ==> (p.events@.last() is Close),
            loop_MultiplicativeExpression_1(ks, start, gm1, pre1) == (p.st(), returned),
        decreases p.remaining(),
    {
        let ghost si1 = p.st();
        let checkpoint1 = p.pos();
        let ghost pre2 = p.st();
        match p.nth(0) {
            SyntaxKind::Star => {
                p.expect(SyntaxKind::Star);
                proof {
                    assert(call_ok(ks, start, p.st(), rank_UnaryExpression(peek_at(ks, p.st().pos)), rank_MultiplicativeExpression(peek_at(ks, start)))) by {
                        reveal(Parser::st);
                        assert(peek_at(ks, start) == old(p).peek());
                        assert(peek_at(ks, p.pos as int) == p.peek());
                    }
                }
                parse_UnaryExpression(p);
                proof {
                    assert(match_MultiplicativeExpression_3(ks, start, gm1, pre2) == (p.st(), false)) by {
                        reveal_with_fuel(match_MultiplicativeExpression_3, 1); reveal_with_fuel(rule_UnaryExpression, 1);
                    }
                }
            },
            SyntaxKind::Slash => {
                p.expect(SyntaxKind::Slash);
                proof {
                    assert(call_ok(ks, start, p.st(), rank_UnaryExpression(peek_at(ks, p.st().pos)), rank_MultiplicativeExpression(peek_at(ks, start)))) by {
                        reveal(Parser::st);
                        assert(peek_at(ks, start) == old(p).peek());
                        assert(peek_at(ks, p.pos as int) == p.peek());
                    }
                }
                parse_UnaryExpression(p);
                proof {
                    assert(match_MultiplicativeExpression_3(ks, start, gm1, pre2) == (p.st(), false)) by {
                        reveal_with_fuel(match_MultiplicativeExpression_3, 1); reveal_with_fuel(rule_UnaryExpression, 1);
                    }
                }
            },
            SyntaxKind::Eof => {
                p.close(marker, SyntaxKind::MultiplicativeExpression);
                let marker = p.open();
                let ghost gm2 = marker.index as int;
                p.close(marker, SyntaxKind::Error);
                proof {
                    assert(match_MultiplicativeExpression_3(ks, start, gm1, pre2) == (p.st(), true)) by {
                        reveal_with_fuel(match_MultiplicativeExpression_3, 1);
                    }
                }
                proof {
                    assert(body_MultiplicativeExpression_2(ks, start, gm1, si1) == (p.st(), true)) by {
                        reveal_with_fuel(body_MultiplicativeExpression_2, 1); reveal_with_fuel(match_MultiplicativeExpression_3, 1);
                    }
                }
                proof {
                    assert(loop_MultiplicativeExpression_1(ks, start, gm1, si1) == (p.st(), true)) by {
                        reveal_with_fuel(loop_MultiplicativeExpression_1, 1); reveal_with_fuel(body_MultiplicativeExpression_2, 1);
                    }
                }
                returned = true;
                break;
            },
            _ => {
                p.advance_with_error(vec![SyntaxKind::Star, SyntaxKind::Slash]);
                proof {
                    assert(match_MultiplicativeExpression_3(ks, start, gm1, pre2) == (p.st(), false)) by {
                        reveal_with_fuel(match_MultiplicativeExpression_3, 1);
                    }
                }
            },
        }
        proof {
            assert(body_MultiplicativeExpression_2(ks, start, gm1, si1) == (p.st(), false)) by {
                reveal_with_fuel(body_MultiplicativeExpression_2, 1); reveal_with_fuel(match_MultiplicativeExpression_3, 1);
            }
        }
        if p.pos() == checkpoint1 {
            proof {
                assert(loop_MultiplicativeExpression_1(ks, start, gm1, si1) == (p.st(), false)) by {
                    reveal_with_fuel(loop_MultiplicativeExpression_1, 1); reveal_with_fuel(body_MultiplicativeExpression_2, 1);
                }
            }
            break;
        }
        proof {
            assert(p.st().pos == p.pos as int) by {
                reveal(Parser::st);
            }
            assert(loop_MultiplicativeExpression_1(ks, start, gm1, si1) == loop_MultiplicativeExpression_1(ks, start, gm1, p.st())) by {
                reveal_with_fuel(loop_MultiplicativeExpression_1, 1); reveal_with_fuel(body_MultiplicativeExpression_2, 1);
                reveal(Parser::st);
            }
            if !(peek_at(ks, p.st().pos) == SyntaxKind::Star || peek_at(ks, p.st().pos) == SyntaxKind::Slash) {
                assert(loop_MultiplicativeExpression_1(ks, start, gm1, p.st()) == (p.st(), false)) by {
                    reveal_with_fuel(loop_MultiplicativeExpression_1, 1); reveal_with_fuel(body_MultiplicativeExpression_2, 1);
                }
            }
        }
    }
    if returned {
        proof {
            assert(rule_MultiplicativeExpression(ks, s0) == p.st()) by {
                reveal_with_fuel(rule_MultiplicativeExpression, 1); reveal_with_fuel(loop_MultiplicativeExpression_1, 1); reveal_with_fuel(rule_UnaryExpression, 1);
            }
        }
        return ;
    }
    p.close(marker, SyntaxKind::MultiplicativeExpression);
    proof {
        assert(rule_MultiplicativeExpression(ks, s0) == p.st()) by {
            reveal_with_fuel(rule_MultiplicativeExpression, 1); reveal_with_fuel(loop_MultiplicativeExpression_1, 1); reveal_with_fuel(rule_UnaryExpression, 1);
        }
    }
}

pub open spec fn rank_NumericLiteralPositive(t: SyntaxKind) -> nat {
    0
}

/// What [`parse_NumericLiteralPositive`] makes of the parser state.
#[verifier::opaque]
pub open spec fn rule_NumericLiteralPositive(ts: Seq<SyntaxKind>, s: St) -> St {
    let m_marker = s.evs.len() as int;
    let s = st_open(s);
    if (peek_at(ts, s.pos) == SyntaxKind::INTEGER_POSITIVE) {
        let s = st_expect(ts, s, SyntaxKind::INTEGER_POSITIVE);
        let s = st_close(s, m_marker, SyntaxKind::NumericLiteralPositive);
        s
    } else if (peek_at(ts, s.pos) == SyntaxKind::DECIMAL_POSITIVE) {
        let s = st_expect(ts, s, SyntaxKind::DECIMAL_POSITIVE);
        let s = st_close(s, m_marker, SyntaxKind::NumericLiteralPositive);
        s
    } else if (peek_at(ts, s.pos) == SyntaxKind::DOUBLE_POSITIVE) {
        let s = st_expect(ts, s, SyntaxKind::DOUBLE_POSITIVE);
        let s = st_close(s, m_marker, SyntaxKind::NumericLiteralPositive);
        s
    } else if (peek_at(ts, s.pos) == SyntaxKind::Eof) {
        let s = st_close(s, m_marker, SyntaxKind::NumericLiteralPositive);
        let m_marker = s.evs.len() as int;
        let s = st_open(s);
        let s = st_close(s, m_marker, SyntaxKind::Error);
        s
    } else {
        let s = st_advance_with_error(ts, s, seq![SyntaxKind::INTEGER_POSITIVE, SyntaxKind::DECIMAL_POSITIVE, SyntaxKind::DOUBLE_POSITIVE]);
        let s = st_close(s, m_marker, SyntaxKind::NumericLiteralPositive);
        s
    }
}

/// [141] NumericLiteralPositive -> 'INTEGER_POSITIVE' | 'DECIMAL_POSITIVE' | 'DOUBLE_POSITIVE'
pub(crate) fn parse_NumericLiteralPositive(p: &mut Parser)
    requires
        old(p).wf(),
    ensures
        Parser::step(*old(p), *final(p)),
        final(p).pos == old(p).pos ==> is_sync_point(old(p).peek()),
        old(p).events@.len() < final(p).events@.len(),
        final(p).events@[old(p).events@.len() as int] == (Event::Open { kind: SyntaxKind::NumericLiteralPositive }),
        final(p).events@.last() is Close,
        final(p).st() == rule_NumericLiteralPositive(old(p).kinds(), old(p).st()),
    decreases old(p).remaining(), rank_NumericLiteralPositive(old(p).peek()), 1int,
{
    let ghost ks = p.kinds();
    let ghost s0 = p.st();
    let marker = p.open();
    match p.nth(0) {
        SyntaxKind::INTEGER_POSITIVE => {
            p.expect(SyntaxKind::INTEGER_POSITIVE);
        },
        SyntaxKind::DECIMAL_POSITIVE => {
            p.expect(SyntaxKind::DECIMAL_POSITIVE);
        },
        SyntaxKind::DOUBLE_POSITIVE => {
            p.expect(SyntaxKind::DOUBLE_POSITIVE);
        },
        SyntaxKind::Eof => {
            p.close(marker, SyntaxKind::NumericLiteralPositive);
            let marker = p.open();
            p.close(marker, SyntaxKind::Error);
            proof {
                assert(p.st() == rule_NumericLiteralPositive(ks, s0)) by {
                    reveal(rule_NumericLiteralPositive);
                    reveal(Parser::st);
                }
            }
            return ;
        },
        _ => {
            p.advance_with_error(vec![SyntaxKind::INTEGER_POSITIVE, SyntaxKind::DECIMAL_POSITIVE, SyntaxKind::DOUBLE_POSITIVE]);
        },
    }
    p.close(marker, SyntaxKind::NumericLiteralPositive);
    proof {
        assert(p.st() == rule_NumericLiteralPositive(ks, s0)) by {
            reveal(rule_NumericLiteralPositive);
            reveal(Parser::st);
        }
    }
}

pub open spec fn rank_NumericLiteralNegative(t: SyntaxKind) -> nat {
    0
}

/// What [`parse_NumericLiteralNegative`] makes of the parser state.
#[verifier::opaque]
pub open spec fn rule_NumericLiteralNegative(ts: Seq<SyntaxKind>, s: St) -> St {
    let m_marker = s.evs.len() as int;
    let s = st_open(s);
    if (peek_at(ts, s.pos) == SyntaxKind::INTEGER_NEGATIVE) {
        let s = st_expect(ts, s, SyntaxKind::INTEGER_NEGATIVE);
        let s = st_close(s, m_marker, SyntaxKind::NumericLiteralNegative);
        s
    } else if (peek_at(ts, s.pos) == SyntaxKind::DECIMAL_NEGATIVE) {
        let s = st_expect(ts, s, SyntaxKind::DECIMAL_NEGATIVE);
        let s = st_close(s, m_marker, SyntaxKind::NumericLiteralNegative);
        s
    } else if (peek_at(ts, s.pos) == SyntaxKind::DOUBLE_NEGATIVE) {
        let s = st_expect(ts, s, SyntaxKind::DOUBLE_NEGATIVE);
        let s = st_close(s, m_marker, SyntaxKind::NumericLiteralNegative);
        s
    } else if (peek_at(ts, s.pos) == SyntaxKind::Eof) {
        let s = st_close(s, m_marker, SyntaxKind::NumericLiteralNegative);
        let m_marker = s.evs.len() as int;
        let s = st_open(s);
        let s = st_close(s, m_marker, SyntaxKind::Error);
        s
    } else {
        let s = st_advance_with_error(ts, s, seq![SyntaxKind::INTEGER_NEGATIVE, SyntaxKind::DECIMAL_NEGATIVE, SyntaxKind::DOUBLE_NEGATIVE]);
        let s = st_close(s, m_marker, SyntaxKind::NumericLiteralNegative);
        s
    }
}

/// [142] NumericLiteralNegative -> 'INTEGER_NEGATIVE' | 'DECIMAL_NEGATIVE' | 'DOUBLE_NEGATIVE'
pub(crate) fn parse_NumericLiteralNegative(p: &mut Parser)
    requires
        old(p).wf(),
    ensures
        Parser::step(*old(p), *final(p)),
        final(p).pos == old(p).pos ==> is_sync_point(old(p).peek()),
        old(p).events@.len() < final(p).events@.len(),
        final(p).events@[old(p).events@.len() as int] == (Event::Open { kind: SyntaxKind::NumericLiteralNegative }),
        final(p).events@.last() is Close,
        final(p).st() == rule_NumericLiteralNegative(old(p).kinds(), old(p).st()),
    decreases old(p).remaining(), rank_NumericLiteralNegative(old(p).peek()), 1int,
{
    let ghost ks = p.kinds();
    let ghost s0 = p.st();
    let marker = p.open();
    match p.nth(0) {
        SyntaxKind::INTEGER_NEGATIVE => {
            p.expect(SyntaxKind::INTEGER_NEGATIVE);
        },
        SyntaxKind::DECIMAL_NEGATIVE => {
            p.expect(SyntaxKind::DECIMAL_NEGATIVE);
        },
        SyntaxKind::DOUBLE_NEGATIVE => {
            p.expect(SyntaxKind::DOUBLE_NEGATIVE);
        },
        SyntaxKind::Eof => {
            p.close(marker, SyntaxKind::NumericLiteralNegative);
            let marker = p.open();
            p.close(marker, SyntaxKind::Error);
            proof {
                assert(p.st() == rule_NumericLiteralNegative(ks, s0)) by {
                    reveal(rule_NumericLiteralNegative);
                    reveal(Parser::st);
                }
            }
            return ;
        },
        _ => {
            p.advance_with_error(vec![SyntaxKind::INTEGER_NEGATIVE, SyntaxKind::DECIMAL_NEGATIVE, SyntaxKind::DOUBLE_NEGATIVE]);
        },
    }
    p.close(marker, SyntaxKind::NumericLiteralNegative);
    proof {
        assert(p.st() == rule_NumericLiteralNegative(ks, s0)) by {
            reveal(rule_NumericLiteralNegative);
            reveal(Parser::st);
        }
    }
}

pub open spec fn rank_UnaryExpression(t: SyntaxKind) -> nat {
    match t {
        SyntaxKind::ABS | SyntaxKind::BNODE | SyntaxKind::BOUND | SyntaxKind::CEIL | SyntaxKind::COALESCE | SyntaxKind::CONCAT | SyntaxKind::CONTAINS | SyntaxKind::DATATYPE | SyntaxKind::DAY | SyntaxKind::DoubleLessLParen | SyntaxKind::ENCODE_FOR_URI | SyntaxKind::FLOOR | SyntaxKind::False | SyntaxKind::HOURS | SyntaxKind::IF | SyntaxKind::IRI | SyntaxKind::LANG | SyntaxKind::LANGDIR | SyntaxKind::LANGMATCHES | SyntaxKind::LCASE | SyntaxKind::LParen | SyntaxKind::MD5 | SyntaxKind::MINUTES | SyntaxKind::MONTH | SyntaxKind::NOW | SyntaxKind::OBJECT | SyntaxKind::PREDICATE | SyntaxKind::RAND | SyntaxKind::ROUND | SyntaxKind::SECONDS | SyntaxKind::SHA1 | SyntaxKind::SHA256 | SyntaxKind::SHA384 | SyntaxKind::SHA512 | SyntaxKind::STR | SyntaxKind::STRAFTER | SyntaxKind::STRBEFORE | SyntaxKind::STRDT | SyntaxKind::STRENDS | SyntaxKind::STRLANG | SyntaxKind::STRLANGDIR | SyntaxKind::STRLEN | SyntaxKind::STRSTARTS | SyntaxKind::STRUUID | SyntaxKind::SUBJECT | SyntaxKind::TIMEZONE | SyntaxKind::TRIPLE | SyntaxKind::TZ | SyntaxKind::True | SyntaxKind::UCASE | SyntaxKind::URI | SyntaxKind::UUID | SyntaxKind::VAR1 | SyntaxKind::VAR2 | SyntaxKind::YEAR | SyntaxKind::hasLANG | SyntaxKind::hasLANGDIR | SyntaxKind::isBLANK | SyntaxKind::isIRI | SyntaxKind::isLITERAL | SyntaxKind::isNUMERIC | SyntaxKind::isTRIPLE | SyntaxKind::isURI | SyntaxKind::sameTerm => 2,
        SyntaxKind::AVG | SyntaxKind::COUNT | SyntaxKind::DECIMAL | SyntaxKind::DECIMAL_NEGATIVE | SyntaxKind::DECIMAL_POSITIVE | SyntaxKind::DOUBLE | SyntaxKind::DOUBLE_NEGATIVE | SyntaxKind::DOUBLE_POSITIVE | SyntaxKind::EXISTS | SyntaxKind::GROUP_CONCAT | SyntaxKind::INTEGER | SyntaxKind::INTEGER_NEGATIVE | SyntaxKind::INTEGER_POSITIVE | SyntaxKind::IRIREF | SyntaxKind::MAX | SyntaxKind::MIN | SyntaxKind::NOT | SyntaxKind::REGEX | SyntaxKind::REPLACE | SyntaxKind::SAMPLE | SyntaxKind::STRING_LITERAL1 | SyntaxKind::STRING_LITERAL2 | SyntaxKind::STRING_LITERAL_LONG1 | SyntaxKind::STRING_LITERAL_LONG2 | SyntaxKind::SUBSTR | SyntaxKind::SUM => 3,
        SyntaxKind::PNAME_LN | SyntaxKind::PNAME_NS => 4,
        _ => 0,
    }
}

/// What [`parse_UnaryExpression`] makes of the parser state.
#[verifier::opaque]
pub open spec fn rule_UnaryExpression(ts: Seq<SyntaxKind>, s: St) -> St
    decreases ts.len() - s.pos, rank_UnaryExpression(peek_at(ts, s.pos)), 32 * (ts.len() - s.pos) + 32,
{
    let start = s.pos;
    let s_in = s;
    let m_marker = s.evs.len() as int;
    let s = st_open(s);
    let (s, r) = if s_in.pos <= s.pos <= ts.len() {
        match_UnaryExpression_1(ts, start, m_marker, s)
    } else {
        (s, false)
    };
    if r {
        s
    } else {
        let s = st_close(s, m_marker, SyntaxKind::UnaryExpression);
        s
    }
}

#[verifier::opaque]
pub open spec fn match_UnaryExpression_1(ts: Seq<SyntaxKind>, start: int, m_marker: int, s: St) -> (St, bool)
    decreases ts.len() - start, rank_UnaryExpression(peek_at(ts, start)), 32 * (ts.len() - s.pos) + 32 - 1,
{
    let s_in = s;
    if (peek_at(ts, s.pos) == SyntaxKind::ExclamationMark) {
        let s = st_expect(ts, s, SyntaxKind::ExclamationMark);
        let s = if call_ok(ts, start, s, rank_UnaryExpression(peek_at(ts, s.pos)), rank_UnaryExpression(peek_at(ts, start))) {
            rule_UnaryExpression(ts, s)
        } else {
            s
        };
        (s, false)
    } else if (peek_at(ts, s.pos) == SyntaxKind::Plus) {
        let s = st_expect(ts, s, SyntaxKind::Plus);
        let s = if call_ok(ts, start, s, rank_PrimaryExpression(peek_at(ts, s.pos)), rank_UnaryExpression(peek_at(ts, start))) {
            rule_PrimaryExpression(ts, s)
        } else {
            s
        };
        (s, false)
    } else if (peek_at(ts, s.pos) == SyntaxKind::Minus) {
        let s = st_expect(ts, s, SyntaxKind::Minus);
        let s = if call_ok(ts, start, s, rank_PrimaryExpression(peek_at(ts, s.pos)), rank_UnaryExpression(peek_at(ts, start))) {
            rule_PrimaryExpression(ts, s)
        } else {
            s
        };
        (s, false)
    } else if (peek_at(ts, s.pos) == SyntaxKind::IRIREF || peek_at(ts, s.pos) == SyntaxKind::PNAME_NS || peek_at(ts, s.pos) == SyntaxKind::STRING_LITERAL1 || peek_at(ts, s.pos) == SyntaxKind::STRING_LITERAL2 || peek_at(ts, s.pos) == SyntaxKind::LParen || peek_at(ts, s.pos) == SyntaxKind::INTEGER || peek_at(ts, s.pos) == SyntaxKind::DoubleLessLParen || peek_at(ts, s.pos) == SyntaxKind::VAR1 || peek_at(ts, s.pos) == SyntaxKind::VAR2 || peek_at(ts, s.pos) == SyntaxKind::NOT || peek_at(ts, s.pos) == SyntaxKind::STR || peek_at(ts, s.pos) == SyntaxKind::LANG || peek_at(ts, s.pos) == SyntaxKind::LANGMATCHES || peek_at(ts, s.pos) == SyntaxKind::LANGDIR || peek_at(ts, s.pos) == SyntaxKind::DATATYPE || peek_at(ts, s.pos) == SyntaxKind::BOUND || peek_at(ts, s.pos) == SyntaxKind::IRI || peek_at(ts, s.pos) == SyntaxKind::URI || peek_at(ts, s.pos) == SyntaxKind::BNODE || peek_at(ts, s.pos) == SyntaxKind::RAND || peek_at(ts, s.pos) == SyntaxKind::ABS || peek_at(ts, s.pos) == SyntaxKind::CEIL || peek_at(ts, s.pos) == SyntaxKind::FLOOR || peek_at(ts, s.pos) == SyntaxKind::ROUND || peek_at(ts, s.pos) == SyntaxKind::CONCAT || peek_at(ts, s.pos) == SyntaxKind::STRLEN || peek_at(ts, s.pos) == SyntaxKind::UCASE || peek_at(ts, s.pos) == SyntaxKind::LCASE || peek_at(ts, s.pos) == SyntaxKind::ENCODE_FOR_URI || peek_at(ts, s.pos) == SyntaxKind::CONTAINS || peek_at(ts, s.pos) == SyntaxKind::STRSTARTS || peek_at(ts, s.pos) == SyntaxKind::STRENDS || peek_at(ts, s.pos) == SyntaxKind::STRBEFORE || peek_at(ts, s.pos) == SyntaxKind::STRAFTER || peek_at(ts, s.pos) == SyntaxKind::YEAR || peek_at(ts, s.pos) == SyntaxKind::MONTH || peek_at(ts, s.pos) == SyntaxKind::DAY || peek_at(ts, s.pos) == SyntaxKind::HOURS || peek_at(ts, s.pos) == SyntaxKind::MINUTES || peek_at(ts, s.pos) == SyntaxKind::SECONDS || peek_at(ts, s.pos) == SyntaxKind::TIMEZONE || peek_at(ts, s.pos) == SyntaxKind::TZ || peek_at(ts, s.pos) == SyntaxKind::NOW || peek_at(ts, s.pos) == SyntaxKind::UUID || peek_at(ts, s.pos) == SyntaxKind::STRUUID || peek_at(ts, s.pos) == SyntaxKind::MD5 || peek_at(ts, s.pos) == SyntaxKind::SHA1 || peek_at(ts, s.pos) == SyntaxKind::SHA256 || peek_at(ts, s.pos) == SyntaxKind::SHA384 || peek_at(ts, s.pos) == SyntaxKind::SHA512 || peek_at(ts, s.pos) == SyntaxKind::COALESCE || peek_at(ts, s.pos) == SyntaxKind::IF || peek_at(ts, s.pos) == SyntaxKind::STRLANG || peek_at(ts, s.pos) == SyntaxKind::STRLANGDIR || peek_at(ts, s.pos) == SyntaxKind::STRDT || peek_at(ts, s.pos) == SyntaxKind::sameTerm || peek_at(ts, s.pos) == SyntaxKind::isIRI || peek_at(ts, s.pos) == SyntaxKind::isURI || peek_at(ts, s.pos) == SyntaxKind::isBLANK || peek_at(ts, s.pos) == SyntaxKind::isLITERAL || peek_at(ts, s.pos) == SyntaxKind::isNUMERIC || peek_at(ts, s.pos) == SyntaxKind::hasLANG || peek_at(ts, s.pos) == SyntaxKind::hasLANGDIR || peek_at(ts, s.pos) == SyntaxKind::isTRIPLE || peek_at(ts, s.pos) == SyntaxKind::TRIPLE || peek_at(ts, s.pos) == SyntaxKind::SUBJECT || peek_at(ts, s.pos) == SyntaxKind::PREDICATE || peek_at(ts, s.pos) == SyntaxKind::OBJECT || peek_at(ts, s.pos) == SyntaxKind::REGEX || peek_at(ts, s.pos) == SyntaxKind::SUBSTR || peek_at(ts, s.pos) == SyntaxKind::REPLACE || peek_at(ts, s.pos) == SyntaxKind::EXISTS || peek_at(ts, s.pos) == SyntaxKind::COUNT || peek_at(ts, s.pos) == SyntaxKind::SUM || peek_at(ts, s.pos) == SyntaxKind::MIN || peek_at(ts, s.pos) == SyntaxKind::MAX || peek_at(ts, s.pos) == SyntaxKind::AVG || peek_at(ts, s.pos) == SyntaxKind::SAMPLE || peek_at(ts, s.pos) == SyntaxKind::GROUP_CONCAT || peek_at(ts, s.pos) == SyntaxKind::DECIMAL || peek_at(ts, s.pos) == SyntaxKind::DOUBLE || peek_at(ts, s.pos) == SyntaxKind::INTEGER_POSITIVE || peek_at(ts, s.pos) == SyntaxKind::DECIMAL_POSITIVE || peek_at(ts, s.pos) == SyntaxKind::DOUBLE_POSITIVE || peek_at(ts, s.pos) == SyntaxKind::INTEGER_NEGATIVE || peek_at(ts, s.pos) == SyntaxKind::DECIMAL_NEGATIVE || peek_at(ts, s.pos) == SyntaxKind::DOUBLE_NEGATIVE || peek_at(ts, s.pos) == SyntaxKind::True || peek_at(ts, s.pos) == SyntaxKind::False || peek_at(ts, s.pos) == SyntaxKind::STRING_LITERAL_LONG1 || peek_at(ts, s.pos) == SyntaxKind::STRING_LITERAL_LONG2 || peek_at(ts, s.pos) == SyntaxKind::PNAME_LN) {
        let s = if call_ok(ts, start, s, rank_PrimaryExpression(peek_at(ts, s.pos)), rank_UnaryExpression(peek_at(ts, start))) {
            rule_PrimaryExpression(ts, s)
        } else {
            s
        };
        (s, false)
    } else if (peek_at(ts, s.pos) == SyntaxKind::Eof) {
        let s = st_close(s, m_marker, SyntaxKind::UnaryExpression);
        let m_marker = s.evs.len() as int;
        let s = st_open(s);
        let s = st_close(s, m_marker, SyntaxKind::Error);
        (s, true)
    } else {
        let s = st_advance_with_error(ts, s, seq![SyntaxKind::ExclamationMark, SyntaxKind::Plus, SyntaxKind::Minus, SyntaxKind::IRIREF, SyntaxKind::PNAME_NS, SyntaxKind::STRING_LITERAL1, SyntaxKind::STRING_LITERAL2, SyntaxKind::LParen, SyntaxKind::INTEGER, SyntaxKind::DoubleLessLParen, SyntaxKind::VAR1, SyntaxKind::VAR2, SyntaxKind::NOT, SyntaxKind::STR, SyntaxKind::LANG, SyntaxKind::LANGMATCHES, SyntaxKind::LANGDIR, SyntaxKind::DATATYPE, SyntaxKind::BOUND, SyntaxKind::IRI, SyntaxKind::URI, SyntaxKind::BNODE, SyntaxKind::RAND, SyntaxKind::ABS, SyntaxKind::CEIL, SyntaxKind::FLOOR, SyntaxKind::ROUND, SyntaxKind::CONCAT, SyntaxKind::STRLEN, SyntaxKind::UCASE, SyntaxKind::LCASE, SyntaxKind::ENCODE_FOR_URI, SyntaxKind::CONTAINS, SyntaxKind::STRSTARTS, SyntaxKind::STRENDS, SyntaxKind::STRBEFORE, SyntaxKind::STRAFTER, SyntaxKind::YEAR, SyntaxKind::MONTH, SyntaxKind::DAY, SyntaxKind::HOURS, SyntaxKind::MINUTES, SyntaxKind::SECONDS, SyntaxKind::TIMEZONE, SyntaxKind::TZ, SyntaxKind::NOW, SyntaxKind::UUID, SyntaxKind::STRUUID, SyntaxKind::MD5, SyntaxKind::SHA1, SyntaxKind::SHA256, SyntaxKind::SHA384, SyntaxKind::SHA512, SyntaxKind::COALESCE, SyntaxKind::IF, SyntaxKind::STRLANG, SyntaxKind::STRLANGDIR, SyntaxKind::STRDT, SyntaxKind::sameTerm, SyntaxKind::isIRI, SyntaxKind::isURI, SyntaxKind::isBLANK, SyntaxKind::isLITERAL, SyntaxKind::isNUMERIC, SyntaxKind::hasLANG, SyntaxKind::hasLANGDIR, SyntaxKind::isTRIPLE, SyntaxKind::TRIPLE, SyntaxKind::SUBJECT, SyntaxKind::PREDICATE, SyntaxKind::OBJECT, SyntaxKind::REGEX, SyntaxKind::SUBSTR, SyntaxKind::REPLACE, SyntaxKind::EXISTS, SyntaxKind::COUNT, SyntaxKind::SUM, SyntaxKind::MIN, SyntaxKind::MAX, SyntaxKind::AVG, SyntaxKind::SAMPLE, SyntaxKind::GROUP_CONCAT, SyntaxKind::DECIMAL, SyntaxKind::DOUBLE, SyntaxKind::INTEGER_POSITIVE, SyntaxKind::DECIMAL_POSITIVE, SyntaxKind::DOUBLE_POSITIVE, SyntaxKind::INTEGER_NEGATIVE, SyntaxKind::DECIMAL_NEGATIVE, SyntaxKind::DOUBLE_NEGATIVE, SyntaxKind::True, SyntaxKind::False, SyntaxKind::STRING_LITERAL_LONG1, SyntaxKind::STRING_LITERAL_LONG2, SyntaxKind::PNAME_LN]);
        (s, false)
    }
}

/// [143] UnaryExpression -> '!' UnaryExpression | '+' PrimaryExpression | '-' PrimaryExpression | PrimaryExpression
pub(crate) fn parse_UnaryExpression(p: &mut Parser)
    requires
        old(p).wf(),
    ensures
        Parser::step(*old(p), *final(p)),
        final(p).pos == old(p).pos ==> is_sync_point(old(p).peek()),
        old(p).events@.len() < final(p).events@.len(),
        final(p).events@[old(p).events@.len() as int] == (Event::Open { kind: SyntaxKind::UnaryExpression }),
        final(p).events@.last() is Close,
        final(p).st() == rule_UnaryExpression(old(p).kinds(), old(p).st()),
    decreases old(p).remaining(), rank_UnaryExpression(old(p).peek()), 1int,
{
    let ghost ks = p.kinds();
    let ghost s0 = p.st();
    let ghost start = p.pos as int;
    let marker = p.open();
    let ghost gm1 = marker.index as int;
    let ghost pre1 = p.st();
    match p.nth(0) {
        SyntaxKind::ExclamationMark => {
            p.expect(SyntaxKind::ExclamationMark);
            proof {
                assert(call_ok(ks, start, p.st(), rank_UnaryExpression(peek_at(ks, p.st().pos)), rank_UnaryExpression(peek_at(ks, start)))) by {
                    reveal(Parser::st);
                    assert(peek_at(ks, start) == old(p).peek());
                    assert(peek_at(ks, p.pos as int) == p.peek());
                }
            }
            parse_UnaryExpression(p);
            proof {
                assert(match_UnaryExpression_1(ks, start, gm1, pre1) == (p.st(), false)) by {
                    reveal_with_fuel(match_UnaryExpression_1, 1); reveal_with_fuel(rule_UnaryExpression, 1);
                }
            }
        },
        SyntaxKind::Plus => {
            p.expect(SyntaxKind::Plus);
            proof {
                assert(call_ok(ks, start, p.st(), rank_PrimaryExpression(peek_at(ks, p.st().pos)), rank_UnaryExpression(peek_at(ks, start)))) by {
                    reveal(Parser::st);
                    assert(peek_at(ks, start) == old(p).peek());
                    assert(peek_at(ks, p.pos as int) == p.peek());
                }
            }
            parse_PrimaryExpression(p);
            proof {
                assert(match_UnaryExpression_1(ks, start, gm1, pre1) == (p.st(), false)) by {
                    reveal_with_fuel(match_UnaryExpression_1, 1); reveal_with_fuel(rule_PrimaryExpression, 1);
                }
            }
        },
        SyntaxKind::Minus => {
            p.expect(SyntaxKind::Minus);
            proof {
                assert(call_ok(ks, start, p.st(), rank_PrimaryExpression(peek_at(ks, p.st().pos)), rank_UnaryExpression(peek_at(ks, start)))) by {
                    reveal(Parser::st);
                    assert(peek_at(ks, start) == old(p).peek());
                    assert(peek_at(ks, p.pos as int) == p.peek());
                }
            }
            parse_PrimaryExpression(p);
            proof {
                assert(match_UnaryExpression_1(ks, start, gm1, pre1) == (p.st(), false)) by {
                    reveal_with_fuel(match_UnaryExpression_1, 1); reveal_with_fuel(rule_PrimaryExpression, 1);
                }
            }
        },
        SyntaxKind::IRIREF | SyntaxKind::PNAME_NS | SyntaxKind::STRING_LITERAL1 | SyntaxKind::STRING_LITERAL2 | SyntaxKind::LParen | SyntaxKind::INTEGER | SyntaxKind::DoubleLessLParen | SyntaxKind::VAR1 | SyntaxKind::VAR2 | SyntaxKind::NOT | SyntaxKind::STR | SyntaxKind::LANG | SyntaxKind::LANGMATCHES | SyntaxKind::LANGDIR | SyntaxKind::DATATYPE | SyntaxKind::BOUND | SyntaxKind::IRI | SyntaxKind::URI | SyntaxKind::BNODE | SyntaxKind::RAND | SyntaxKind::ABS | SyntaxKind::CEIL | SyntaxKind::FLOOR | SyntaxKind::ROUND | SyntaxKind::CONCAT | SyntaxKind::STRLEN | SyntaxKind::UCASE | SyntaxKind::LCASE | SyntaxKind::ENCODE_FOR_URI | SyntaxKind::CONTAINS | SyntaxKind::STRSTARTS | SyntaxKind::STRENDS | SyntaxKind::STRBEFORE | SyntaxKind::STRAFTER | SyntaxKind::YEAR | SyntaxKind::MONTH | SyntaxKind::DAY | SyntaxKind::HOURS | SyntaxKind::MINUTES | SyntaxKind::SECONDS | SyntaxKind::TIMEZONE | SyntaxKind::TZ | SyntaxKind::NOW | SyntaxKind::UUID | SyntaxKind::STRUUID | SyntaxKind::MD5 | SyntaxKind::SHA1 | SyntaxKind::SHA256 | SyntaxKind::SHA384 | SyntaxKind::SHA512 | SyntaxKind::COALESCE | SyntaxKind::IF | SyntaxKind::STRLANG | SyntaxKind::STRLANGDIR | SyntaxKind::STRDT | SyntaxKind::sameTerm | SyntaxKind::isIRI | SyntaxKind::isURI | SyntaxKind::isBLANK | SyntaxKind::isLITERAL | SyntaxKind::isNUMERIC | SyntaxKind::hasLANG | SyntaxKind::hasLANGDIR | SyntaxKind::isTRIPLE | SyntaxKind::TRIPLE | SyntaxKind::SUBJECT | SyntaxKind::PREDICATE | SyntaxKind::OBJECT | SyntaxKind::REGEX | SyntaxKind::SUBSTR | SyntaxKind::REPLACE | SyntaxKind::EXISTS | SyntaxKind::COUNT | SyntaxKind::SUM | SyntaxKind::MIN | SyntaxKind::MAX | SyntaxKind::AVG | SyntaxKind::SAMPLE | SyntaxKind::GROUP_CONCAT | SyntaxKind::DECIMAL | SyntaxKind::DOUBLE | SyntaxKind::INTEGER_POSITIVE | SyntaxKind::DECIMAL_POSITIVE | SyntaxKind::DOUBLE_POSITIVE | SyntaxKind::INTEGER_NEGATIVE | SyntaxKind::DECIMAL_NEGATIVE | SyntaxKind::DOUBLE_NEGATIVE | SyntaxKind::True | SyntaxKind::False | SyntaxKind::STRING_LITERAL_LONG1 | SyntaxKind::STRING_LITERAL_LONG2 | SyntaxKind::PNAME_LN => {
            proof {
                assert(call_ok(ks, start, p.st(), rank_PrimaryExpression(peek_at(ks, p.st().pos)), rank_UnaryExpression(peek_at(ks, start)))) by {
                    reveal(Parser::st);
                    assert(peek_at(ks, start) == old(p).peek());
                    assert(peek_at(ks, p.pos as int) == p.peek());
                }
            }
            parse_PrimaryExpression(p);
            proof {
                assert(match_UnaryExpression_1(ks, start, gm1, pre1) == (p.st(), false)) by {
                    reveal_with_fuel(match_UnaryExpression_1, 1); reveal_with_fuel(rule_PrimaryExpression, 1);
                }
            }
        },
        SyntaxKind::Eof => {
            p.close(marker, SyntaxKind::UnaryExpression);
            let marker = p.open();
            let ghost gm2 = marker.index as int;
            p.close(marker, SyntaxKind::Error);
            proof {
                assert(match_UnaryExpression_1(ks, start, gm1, pre1) == (p.st(), true)) by {
                    reveal_with_fuel(match_UnaryExpression_1, 1);
                }
            }
            proof {
                assert(rule_UnaryExpression(ks, s0) == p.st()) by {
                    reveal_with_fuel(rule_UnaryExpression, 1); reveal_with_fuel(match_UnaryExpression_1, 1);
                }
            }
            return ;
        },
        _ => {
            p.advance_with_error(vec![SyntaxKind::ExclamationMark, SyntaxKind::Plus, SyntaxKind::Minus, SyntaxKind::IRIREF, SyntaxKind::PNAME_NS, SyntaxKind::STRING_LITERAL1, SyntaxKind::STRING_LITERAL2, SyntaxKind::LParen, SyntaxKind::INTEGER, SyntaxKind::DoubleLessLParen, SyntaxKind::VAR1, SyntaxKind::VAR2, SyntaxKind::NOT, SyntaxKind::STR, SyntaxKind::LANG, SyntaxKind::LANGMATCHES, SyntaxKind::LANGDIR, SyntaxKind::DATATYPE, SyntaxKind::BOUND, SyntaxKind::IRI, SyntaxKind::URI, SyntaxKind::BNODE, SyntaxKind::RAND, SyntaxKind::ABS, SyntaxKind::CEIL, SyntaxKind::FLOOR, SyntaxKind::ROUND, SyntaxKind::CONCAT, SyntaxKind::STRLEN, SyntaxKind::UCASE, SyntaxKind::LCASE, SyntaxKind::ENCODE_FOR_URI, SyntaxKind::CONTAINS, SyntaxKind::STRSTARTS, SyntaxKind::STRENDS, SyntaxKind::STRBEFORE, SyntaxKind::STRAFTER, SyntaxKind::YEAR, SyntaxKind::MONTH, SyntaxKind::DAY, SyntaxKind::HOURS, SyntaxKind::MINUTES, SyntaxKind::SECONDS, SyntaxKind::TIMEZONE, SyntaxKind::TZ, SyntaxKind::NOW, SyntaxKind::UUID, SyntaxKind::STRUUID, SyntaxKind::MD5, SyntaxKind::SHA1, SyntaxKind::SHA256, SyntaxKind::SHA384, SyntaxKind::SHA512, SyntaxKind::COALESCE, SyntaxKind::IF, SyntaxKind::STRLANG, SyntaxKind::STRLANGDIR, SyntaxKind::STRDT, SyntaxKind::sameTerm, SyntaxKind::isIRI, SyntaxKind::isURI, SyntaxKind::isBLANK, SyntaxKind::isLITERAL, SyntaxKind::isNUMERIC, SyntaxKind::hasLANG, SyntaxKind::hasLANGDIR, SyntaxKind::isTRIPLE, SyntaxKind::TRIPLE, SyntaxKind::SUBJECT, SyntaxKind::PREDICATE, SyntaxKind::OBJECT, SyntaxKind::REGEX, SyntaxKind::SUBSTR, SyntaxKind::REPLACE, SyntaxKind::EXISTS, SyntaxKind::COUNT, SyntaxKind::SUM, SyntaxKind::MIN, SyntaxKind::MAX, SyntaxKind::AVG, SyntaxKind::SAMPLE, SyntaxKind::GROUP_CONCAT, SyntaxKind::DECIMAL, SyntaxKind::DOUBLE, SyntaxKind::INTEGER_POSITIVE, SyntaxKind::DECIMAL_POSITIVE, SyntaxKind::DOUBLE_POSITIVE, SyntaxKind::INTEGER_NEGATIVE, SyntaxKind::DECIMAL_NEGATIVE, SyntaxKind::DOUBLE_NEGATIVE, SyntaxKind::True, SyntaxKind::False, SyntaxKind::STRING_LITERAL_LONG1, SyntaxKind::STRING_LITERAL_LONG2, SyntaxKind::PNAME_LN]);
            proof {
                assert(match_UnaryExpression_1(ks, start, gm1, pre1) == (p.st(), false)) by {
                    reveal_with_fuel(match_UnaryExpression_1, 1);
                }
            }
        },
    }
    p.close(marker, SyntaxKind::UnaryExpression);
    proof {
        assert(rule_UnaryExpression(ks, s0) == p.st()) by {
            reveal_with_fuel(rule_UnaryExpression, 1); reveal_with_fuel(match_UnaryExpression_1, 1);
        }
    }
}

pub open spec fn rank_PrimaryExpression(t: SyntaxKind) -> nat {
    match t {
        SyntaxKind::ABS | SyntaxKind::BNODE | SyntaxKind::BOUND | SyntaxKind::CEIL | SyntaxKind::COALESCE | SyntaxKind::CONCAT | SyntaxKind::CONTAINS | SyntaxKind::DATATYPE | SyntaxKind::DAY | SyntaxKind::DoubleLessLParen | SyntaxKind::ENCODE_FOR_URI | SyntaxKind::FLOOR | SyntaxKind::False | SyntaxKind::HOURS | SyntaxKind::IF | SyntaxKind::IRI | SyntaxKind::LANG | SyntaxKind::LANGDIR | SyntaxKind::LANGMATCHES | SyntaxKind::LCASE | SyntaxKind::LParen | SyntaxKind::MD5 | SyntaxKind::MINUTES | SyntaxKind::MONTH | SyntaxKind::NOW | SyntaxKind::OBJECT | SyntaxKind::PREDICATE | SyntaxKind::RAND | SyntaxKind::ROUND | SyntaxKind::SECONDS | SyntaxKind::SHA1 | SyntaxKind::SHA256 | SyntaxKind::SHA384 | SyntaxKind::SHA512 | SyntaxKind::STR | SyntaxKind::STRAFTER | SyntaxKind::STRBEFORE | SyntaxKind::STRDT | SyntaxKind::STRENDS | SyntaxKind::STRLANG | SyntaxKind::STRLANGDIR | SyntaxKind::STRLEN | SyntaxKind::STRSTARTS | SyntaxKind::STRUUID | SyntaxKind::SUBJECT | SyntaxKind::TIMEZONE | SyntaxKind::TRIPLE | SyntaxKind::TZ | SyntaxKind::True | SyntaxKind::UCASE | SyntaxKind::URI | SyntaxKind::UUID | SyntaxKind::VAR1 | SyntaxKind::VAR2 | SyntaxKind::YEAR | SyntaxKind::hasLANG | SyntaxKind::hasLANGDIR | SyntaxKind::isBLANK | SyntaxKind::isIRI | SyntaxKind::isLITERAL | SyntaxKind::isNUMERIC | SyntaxKind::isTRIPLE | SyntaxKind::isURI | SyntaxKind::sameTerm => 1,
        SyntaxKind::AVG | SyntaxKind::COUNT | SyntaxKind::DECIMAL | SyntaxKind::DECIMAL_NEGATIVE | SyntaxKind::DECIMAL_POSITIVE | SyntaxKind::DOUBLE | SyntaxKind::DOUBLE_NEGATIVE | SyntaxKind::DOUBLE_POSITIVE | SyntaxKind::EXISTS | SyntaxKind::GROUP_CONCAT | SyntaxKind::INTEGER | SyntaxKind::INTEGER_NEGATIVE | SyntaxKind::INTEGER_POSITIVE | SyntaxKind::IRIREF | SyntaxKind::MAX | SyntaxKind::MIN | SyntaxKind::NOT | SyntaxKind::REGEX | SyntaxKind::REPLACE | SyntaxKind::SAMPLE | SyntaxKind::STRING_LITERAL1 | SyntaxKind::STRING_LITERAL2 | SyntaxKind::STRING_LITERAL_LONG1 | SyntaxKind::STRING_LITERAL_LONG2 | SyntaxKind::SUBSTR | SyntaxKind::SUM => 2,
        SyntaxKind::PNAME_LN | SyntaxKind::PNAME_NS => 3,
        _ => 0,
    }
}

/// What [`parse_PrimaryExpression`] makes of the parser state.
#[verifier::opaque]
pub open spec fn rule_PrimaryExpression(ts: Seq<SyntaxKind>, s: St) -> St
    decreases ts.len() - s.pos, rank_PrimaryExpression(peek_at(ts, s.pos)), 32 * (ts.len() - s.pos) + 32,
{
    let start = s.pos;
    let s_in = s;
    let m_marker = s.evs.len() as int;
    let s = st_open(s);
    let (s, r) = if s_in.pos <= s.pos <= ts.len() {
        match_PrimaryExpression_1(ts, start, m_marker, s)
    } else {
        (s, false)
    };
    if r {
        s
    } else {
        let s = st_close(s, m_marker, SyntaxKind::PrimaryExpression);
        s
    }
}

#[verifier::opaque]
pub open spec fn match_PrimaryExpression_1(ts: Seq<SyntaxKind>, start: int, m_marker: int, s: St) -> (St, bool)
    decreases ts.len() - start, rank_PrimaryExpression(peek_at(ts, start)), 32 * (ts.len() - s.pos) + 32 - 1,
{
    let s_in = s;
    if (peek_at(ts, s.pos) == SyntaxKind::LParen) {
        let s = if call_ok(ts, start, s, rank_BrackettedExpression(peek_at(ts, s.pos)), rank_PrimaryExpression(peek_at(ts, start))) {
            rule_BrackettedExpression(ts, s)
        } else {
            s
        };
        (s, false)
    } else if (peek_at(ts, s.pos) == SyntaxKind::NOT || peek_at(ts, s.pos) == SyntaxKind::STR || peek_at(ts, s.pos) == SyntaxKind::LANG || peek_at(ts, s.pos) == SyntaxKind::LANGMATCHES || peek_at(ts, s.pos) == SyntaxKind::LANGDIR || peek_at(ts, s.pos) == SyntaxKind::DATATYPE || peek_at(ts, s.pos) == SyntaxKind::BOUND || peek_at(ts, s.pos) == SyntaxKind::IRI || peek_at(ts, s.pos) == SyntaxKind::URI || peek_at(ts, s.pos) == SyntaxKind::BNODE || peek_at(ts, s.pos) == SyntaxKind::RAND || peek_at(ts, s.pos) == SyntaxKind::ABS || peek_at(ts, s.pos) == SyntaxKind::CEIL || peek_at(ts, s.pos) == SyntaxKind::FLOOR || peek_at(ts, s.pos) == SyntaxKind::ROUND || peek_at(ts, s.pos) == SyntaxKind::CONCAT || peek_at(ts, s.pos) == SyntaxKind::STRLEN || peek_at(ts, s.pos) == SyntaxKind::UCASE || peek_at(ts, s.pos) == SyntaxKind::LCASE || peek_at(ts, s.pos) == SyntaxKind::ENCODE_FOR_URI || peek_at(ts, s.pos) == SyntaxKind::CONTAINS || peek_at(ts, s.pos) == SyntaxKind::STRSTARTS || peek_at(ts, s.pos) == SyntaxKind::STRENDS || peek_at(ts, s.pos) == SyntaxKind::STRBEFORE || peek_at(ts, s.pos) == SyntaxKind::STRAFTER || peek_at(ts, s.pos) == SyntaxKind::YEAR || peek_at(ts, s.pos) == SyntaxKind::MONTH || peek_at(ts, s.pos) == SyntaxKind::DAY || peek_at(ts, s.pos) == SyntaxKind::HOURS || peek_at(ts, s.pos) == SyntaxKind::MINUTES || peek_at(ts, s.pos) == SyntaxKind::SECONDS || peek_at(ts, s.pos) == SyntaxKind::TIMEZONE || peek_at(ts, s.pos) == SyntaxKind::TZ || peek_at(ts, s.pos) == SyntaxKind::NOW || peek_at(ts, s.pos) == SyntaxKind::UUID || peek_at(ts, s.pos) == SyntaxKind::STRUUID || peek_at(ts, s.pos) == SyntaxKind::MD5 || peek_at(ts, s.pos) == SyntaxKind::SHA1 || peek_at(ts, s.pos) == SyntaxKind::SHA256 || peek_at(ts, s.pos) == SyntaxKind::SHA384 || peek_at(ts, s.pos) == SyntaxKind::SHA512 || peek_at(ts, s.pos) == SyntaxKind::COALESCE || peek_at(ts, s.pos) == SyntaxKind::IF || peek_at(ts, s.pos) == SyntaxKind::STRLANG || peek_at(ts, s.pos) == SyntaxKind::STRLANGDIR || peek_at(ts, s.pos) == SyntaxKind::STRDT || peek_at(ts, s.pos) == SyntaxKind::sameTerm || peek_at(ts, s.pos) == SyntaxKind::isIRI || peek_at(ts, s.pos) == SyntaxKind::isURI || peek_at(ts, s.pos) == SyntaxKind::isBLANK || peek_at(ts, s.pos) == SyntaxKind::isLITERAL || peek_at(ts, s.pos) == SyntaxKind::isNUMERIC || peek_at(ts, s.pos) == SyntaxKind::hasLANG || peek_at(ts, s.pos) == SyntaxKind::hasLANGDIR || peek_at(ts, s.pos) == SyntaxKind::isTRIPLE || peek_at(ts, s.pos) == SyntaxKind::TRIPLE || peek_at(ts, s.pos) == SyntaxKind::SUBJECT || peek_at(ts, s.pos) == SyntaxKind::PREDICATE || peek_at(ts, s.pos) == SyntaxKind::OBJECT || peek_at(ts, s.pos) == SyntaxKind::REGEX || peek_at(ts, s.pos) == SyntaxKind::SUBSTR || peek_at(ts, s.pos) == SyntaxKind::REPLACE || peek_at(ts, s.pos) == SyntaxKind::EXISTS || peek_at(ts, s.pos) == SyntaxKind::COUNT || peek_at(ts, s.pos) == SyntaxKind::SUM || peek_at(ts, s.pos) == SyntaxKind::MIN || peek_at(ts, s.pos) == SyntaxKind::MAX || peek_at(ts, s.pos) == SyntaxKind::AVG || peek_at(ts, s.pos) == SyntaxKind::SAMPLE || peek_at(ts, s.pos) == SyntaxKind::GROUP_CONCAT) {
        let s = if call_ok(ts, start, s, rank_BuiltInCall(peek_at(ts, s.pos)), rank_PrimaryExpression(peek_at(ts, start))) {
            rule_BuiltInCall(ts, s)
        } else {
            s
        };
        (s, false)
    } else if (peek_at(ts, s.pos) == SyntaxKind::IRIREF || peek_at(ts, s.pos) == SyntaxKind::PNAME_NS || peek_at(ts, s.pos) == SyntaxKind::PNAME_LN) {
        let s = if call_ok(ts, start, s, rank_iriOrFunction(peek_at(ts, s.pos)), rank_PrimaryExpression(peek_at(ts, start))) {
            rule_iriOrFunction(ts, s)
        } else {
            s
        };
        (s, false)
    } else if (peek_at(ts, s.pos) == SyntaxKind::STRING_LITERAL1 || peek_at(ts, s.pos) == SyntaxKind::STRING_LITERAL2 || peek_at(ts, s.pos) == SyntaxKind::STRING_LITERAL_LONG1 || peek_at(ts, s.pos) == SyntaxKind::STRING_LITERAL_LONG2) {
        let s = rule_RDFLiteral(ts, s);
        (s, false)
    } else if (peek_at(ts, s.pos) == SyntaxKind::INTEGER || peek_at(ts, s.pos) == SyntaxKind::DECIMAL || peek_at(ts, s.pos) == SyntaxKind::DOUBLE || peek_at(ts, s.pos) == SyntaxKind::INTEGER_POSITIVE || peek_at(ts, s.pos) == SyntaxKind::DECIMAL_POSITIVE || peek_at(ts, s.pos) == SyntaxKind::DOUBLE_POSITIVE || peek_at(ts, s.pos) == SyntaxKind::INTEGER_NEGATIVE || peek_at(ts, s.pos) == SyntaxKind::DECIMAL_NEGATIVE || peek_at(ts, s.pos) == SyntaxKind::DOUBLE_NEGATIVE) {
        let s = rule_NumericLiteral(ts, s);
        (s, false)
    } else if (peek_at(ts, s.pos) == SyntaxKind::True || peek_at(ts, s.pos) == SyntaxKind::False) {
        let s = rule_BooleanLiteral(ts, s);
        (s, false)
    } else if (peek_at(ts, s.pos) == SyntaxKind::VAR1 || peek_at(ts, s.pos) == SyntaxKind::VAR2) {
        let s = rule_Var(ts, s);
        (s, false)
    } else if (peek_at(ts, s.pos) == SyntaxKind::DoubleLessLParen) {
        let s = if call_ok(ts, start, s, rank_ExprTripleTerm(peek_at(ts, s.pos)), rank_PrimaryExpression(peek_at(ts, start))) {
            rule_ExprTripleTerm(ts, s)
        } else {
            s
        };
        (s, false)
    } else if (peek_at(ts, s.pos) == SyntaxKind::Eof) {
        let s = st_close(s, m_marker, SyntaxKind::PrimaryExpression);
        let m_marker = s.evs.len() as int;
        let s = st_open(s);
        let s = st_close(s, m_marker, SyntaxKind::Error);
        (s, true)
    } else {
        let s = st_advance_with_error(ts, s, seq![SyntaxKind::LParen, SyntaxKind::NOT, SyntaxKind::STR, SyntaxKind::LANG, SyntaxKind::LANGMATCHES, SyntaxKind::LANGDIR, SyntaxKind::DATATYPE, SyntaxKind::BOUND, SyntaxKind::IRI, SyntaxKind::URI, SyntaxKind::BNODE, SyntaxKind::RAND, SyntaxKind::ABS, SyntaxKind::CEIL, SyntaxKind::FLOOR, SyntaxKind::ROUND, SyntaxKind::CONCAT, SyntaxKind::STRLEN, SyntaxKind::UCASE, SyntaxKind::LCASE, SyntaxKind::ENCODE_FOR_URI, SyntaxKind::CONTAINS, SyntaxKind::STRSTARTS, SyntaxKind::STRENDS, SyntaxKind::STRBEFORE, SyntaxKind::STRAFTER, SyntaxKind::YEAR, SyntaxKind::MONTH, SyntaxKind::DAY, SyntaxKind::HOURS, SyntaxKind::MINUTES, SyntaxKind::SECONDS, SyntaxKind::TIMEZONE, SyntaxKind::TZ, SyntaxKind::NOW, SyntaxKind::UUID, SyntaxKind::STRUUID, SyntaxKind::MD5, SyntaxKind::SHA1, SyntaxKind::SHA256, SyntaxKind::SHA384, SyntaxKind::SHA512, SyntaxKind::COALESCE, SyntaxKind::IF, SyntaxKind::STRLANG, SyntaxKind::STRLANGDIR, SyntaxKind::STRDT, SyntaxKind::sameTerm, SyntaxKind::isIRI, SyntaxKind::isURI, SyntaxKind::isBLANK, SyntaxKind::isLITERAL, SyntaxKind::isNUMERIC, SyntaxKind::hasLANG, SyntaxKind::hasLANGDIR, SyntaxKind::isTRIPLE, SyntaxKind::TRIPLE, SyntaxKind::SUBJECT, SyntaxKind::PREDICATE, SyntaxKind::OBJECT, SyntaxKind::REGEX, SyntaxKind::SUBSTR, SyntaxKind::REPLACE, SyntaxKind::EXISTS, SyntaxKind::COUNT, SyntaxKind::SUM, SyntaxKind::MIN, SyntaxKind::MAX, SyntaxKind::AVG, SyntaxKind::SAMPLE, SyntaxKind::GROUP_CONCAT, SyntaxKind::IRIREF, SyntaxKind::PNAME_NS, SyntaxKind::PNAME_LN, SyntaxKind::STRING_LITERAL1, SyntaxKind::STRING_LITERAL2, SyntaxKind::STRING_LITERAL_LONG1, SyntaxKind::STRING_LITERAL_LONG2, SyntaxKind::INTEGER, SyntaxKind::DECIMAL, SyntaxKind::DOUBLE, SyntaxKind::INTEGER_POSITIVE, SyntaxKind::DECIMAL_POSITIVE, SyntaxKind::DOUBLE_POSITIVE, SyntaxKind::INTEGER_NEGATIVE, SyntaxKind::DECIMAL_NEGATIVE, SyntaxKind::DOUBLE_NEGATIVE, SyntaxKind::True, SyntaxKind::False, SyntaxKind::VAR1, SyntaxKind::VAR2, SyntaxKind::DoubleLessLParen]);
        (s, false)
    }
}

/// [144] PrimaryExpression -> BrackettedExpression | BuiltInCall | iriOrFunction | RDFLiteral | NumericLiteral | BooleanLiteral | Var | ExprTripleTerm
pub(crate) fn parse_PrimaryExpression(p: &mut Parser)
    requires
        old(p).wf(),
    ensures
        Parser::step(*old(p), *final(p)),
        final(p).pos == old(p).pos ==> is_sync_point(old(p).peek()),
        old(p).events@.len() < final(p).events@.len(),
        final(p).events@[old(p).events@.len() as int] == (Event::Open { kind: SyntaxKind::PrimaryExpression }),
        final(p).events@.last() is Close,
        final(p).st() == rule_PrimaryExpression(old(p).kinds(), old(p).st()),
    decreases old(p).remaining(), rank_PrimaryExpression(old(p).peek()), 1int,
{
    let ghost ks = p.kinds();
    let ghost s0 = p.st();
    let ghost start = p.pos as int;
    let marker = p.open();
    let ghost gm1 = marker.index as int;
    let ghost pre1 = p.st();
    match p.nth(0) {
        SyntaxKind::LParen => {
            proof {
                assert(call_ok(ks, start, p.st(), rank_BrackettedExpression(peek_at(ks, p.st().pos)), rank_PrimaryExpression(peek_at(ks, start)))) by {
                    reveal(Parser::st);
                    assert(peek_at(ks, start) == old(p).peek());
                    assert(peek_at(ks, p.pos as int) == p.peek());
                }
            }
            parse_BrackettedExpression(p);
            proof {
                assert(match_PrimaryExpression_1(ks, start, gm1, pre1) == (p.st(), false)) by {
                    reveal_with_fuel(match_PrimaryExpression_1, 1); reveal_with_fuel(rule_BrackettedExpression, 1);
                }
            }
        },
        SyntaxKind::NOT | SyntaxKind::STR | SyntaxKind::LANG | SyntaxKind::LANGMATCHES | SyntaxKind::LANGDIR | SyntaxKind::DATATYPE | SyntaxKind::BOUND | SyntaxKind::IRI | SyntaxKind::URI | SyntaxKind::BNODE | SyntaxKind::RAND | SyntaxKind::ABS | SyntaxKind::CEIL | SyntaxKind::FLOOR | SyntaxKind::ROUND | SyntaxKind::CONCAT | SyntaxKind::STRLEN | SyntaxKind::UCASE | SyntaxKind::LCASE | SyntaxKind::ENCODE_FOR_URI | SyntaxKind::CONTAINS | SyntaxKind::STRSTARTS | SyntaxKind::STRENDS | SyntaxKind::STRBEFORE | SyntaxKind::STRAFTER | SyntaxKind::YEAR | SyntaxKind::MONTH | SyntaxKind::DAY | SyntaxKind::HOURS | SyntaxKind::MINUTES | SyntaxKind::SECONDS | SyntaxKind::TIMEZONE | SyntaxKind::TZ | SyntaxKind::NOW | SyntaxKind::UUID | SyntaxKind::STRUUID | SyntaxKind::MD5 | SyntaxKind::SHA1 | SyntaxKind::SHA256 | SyntaxKind::SHA384 | SyntaxKind::SHA512 | SyntaxKind::COALESCE | SyntaxKind::IF | SyntaxKind::STRLANG | SyntaxKind::STRLANGDIR | SyntaxKind::STRDT | SyntaxKind::sameTerm | SyntaxKind::isIRI | SyntaxKind::isURI | SyntaxKind::isBLANK | SyntaxKind::isLITERAL | SyntaxKind::isNUMERIC | SyntaxKind::hasLANG | SyntaxKind::hasLANGDIR | SyntaxKind::isTRIPLE | SyntaxKind::TRIPLE | SyntaxKind::SUBJECT | SyntaxKind::PREDICATE | SyntaxKind::OBJECT | SyntaxKind::REGEX | SyntaxKind::SUBSTR | SyntaxKind::REPLACE | SyntaxKind::EXISTS | SyntaxKind::COUNT | SyntaxKind::SUM | SyntaxKind::MIN | SyntaxKind::MAX | SyntaxKind::AVG | SyntaxKind::SAMPLE | SyntaxKind::GROUP_CONCAT => {
            proof {
                assert(call_ok(ks, start, p.st(), rank_BuiltInCall(peek_at(ks, p.st().pos)), rank_PrimaryExpression(peek_at(ks, start)))) by {
                    reveal(Parser::st);
                    assert(peek_at(ks, start) == old(p).peek());
                    assert(peek_at(ks, p.pos as int) == p.peek());
                }
            }
            parse_BuiltInCall(p);
            proof {
                assert(match_PrimaryExpression_1(ks, start, gm1, pre1) == (p.st(), false)) by {
                    reveal_with_fuel(match_PrimaryExpression_1, 1); reveal_with_fuel(rule_BuiltInCall, 1);
                }
            }
        },
        SyntaxKind::IRIREF | SyntaxKind::PNAME_NS | SyntaxKind::PNAME_LN => {
            proof {
                assert(call_ok(ks, start, p.st(), rank_iriOrFunction(peek_at(ks, p.st().pos)), rank_PrimaryExpression(peek_at(ks, start)))) by {
                    reveal(Parser::st);
                    assert(peek_at(ks, start) == old(p).peek());
                    assert(peek_at(ks, p.pos as int) == p.peek());
                }
            }
            parse_iriOrFunction(p);
            proof {
                assert(match_PrimaryExpression_1(ks, start, gm1, pre1) == (p.st(), false)) by {
                    reveal_with_fuel(match_PrimaryExpression_1, 1); reveal_with_fuel(rule_iriOrFunction, 1);
                }
            }
        },
        SyntaxKind::STRING_LITERAL1 | SyntaxKind::STRING_LITERAL2 | SyntaxKind::STRING_LITERAL_LONG1 | SyntaxKind::STRING_LITERAL_LONG2 => {
            parse_RDFLiteral(p);
            proof {
                assert(match_PrimaryExpression_1(ks, start, gm1, pre1) == (p.st(), false)) by {
                    reveal_with_fuel(match_PrimaryExpression_1, 1);
                }
            }
        },
        SyntaxKind::INTEGER | SyntaxKind::DECIMAL | SyntaxKind::DOUBLE | SyntaxKind::INTEGER_POSITIVE | SyntaxKind::DECIMAL_POSITIVE | SyntaxKind::DOUBLE_POSITIVE | SyntaxKind::INTEGER_NEGATIVE | SyntaxKind::DECIMAL_NEGATIVE | SyntaxKind::DOUBLE_NEGATIVE => {
            parse_NumericLiteral(p);
            proof {
                assert(match_PrimaryExpression_1(ks, start, gm1, pre1) == (p.st(), false)) by {
                    reveal_with_fuel(match_PrimaryExpression_1, 1);
                }
            }
        },
        SyntaxKind::True | SyntaxKind::False => {
            parse_BooleanLiteral(p);
            proof {
                assert(match_PrimaryExpression_1(ks, start, gm1, pre1) == (p.st(), false)) by {
                    reveal_with_fuel(match_PrimaryExpression_1, 1);
                }
            }
        },
        SyntaxKind::VAR1 | SyntaxKind::VAR2 => {
            parse_Var(p);
            proof {
                assert(match_PrimaryExpression_1(ks, start, gm1, pre1) == (p.st(), false)) by {
                    reveal_with_fuel(match_PrimaryExpression_1, 1);
                }
            }
        },
        SyntaxKind::DoubleLessLParen => {
            proof {
                assert(call_ok(ks, start, p.st(), rank_ExprTripleTerm(peek_at(ks, p.st().pos)), rank_PrimaryExpression(peek_at(ks, start)))) by {
                    reveal(Parser::st);
                    assert(peek_at(ks, start) == old(p).peek());
                    assert(peek_at(ks, p.pos as int) == p.peek());
                }
            }
            parse_ExprTripleTerm(p);
            proof {
                assert(match_PrimaryExpression_1(ks, start, gm1, pre1) == (p.st(), false)) by {
                    reveal_with_fuel(match_PrimaryExpression_1, 1); reveal_with_fuel(rule_ExprTripleTerm, 1);
                }
            }
        },
        SyntaxKind::Eof => {
            p.close(marker, SyntaxKind::PrimaryExpression);
            let marker = p.open();
            let ghost gm2 = marker.index as int;
            p.close(marker, SyntaxKind::Error);
            proof {
                assert(match_PrimaryExpression_1(ks, start, gm1, pre1) == (p.st(), true)) by {
                    reveal_with_fuel(match_PrimaryExpression_1, 1);
                }
            }
            proof {
                assert(rule_PrimaryExpression(ks, s0) == p.st()) by {
                    reveal_with_fuel(rule_PrimaryExpression, 1); reveal_with_fuel(match_PrimaryExpression_1, 1);
                }
            }
            return ;
        },
        _ => {
            p.advance_with_error(vec![SyntaxKind::LParen, SyntaxKind::NOT, SyntaxKind::STR, SyntaxKind::LANG, SyntaxKind::LANGMATCHES, SyntaxKind::LANGDIR, SyntaxKind::DATATYPE, SyntaxKind::BOUND, SyntaxKind::IRI, SyntaxKind::URI, SyntaxKind::BNODE, SyntaxKind::RAND, SyntaxKind::ABS, SyntaxKind::CEIL, SyntaxKind::FLOOR, SyntaxKind::ROUND, SyntaxKind::CONCAT, SyntaxKind::STRLEN, SyntaxKind::UCASE, SyntaxKind::LCASE, SyntaxKind::ENCODE_FOR_URI, SyntaxKind::CONTAINS, SyntaxKind::STRSTARTS, SyntaxKind::STRENDS, SyntaxKind::STRBEFORE, SyntaxKind::STRAFTER, SyntaxKind::YEAR, SyntaxKind::MONTH, SyntaxKind::DAY, SyntaxKind::HOURS, SyntaxKind::MINUTES, SyntaxKind::SECONDS, SyntaxKind::TIMEZONE, SyntaxKind::TZ, SyntaxKind::NOW, SyntaxKind::UUID, SyntaxKind::STRUUID, SyntaxKind::MD5, SyntaxKind::SHA1, SyntaxKind::SHA256, SyntaxKind::SHA384, SyntaxKind::SHA512, SyntaxKind::COALESCE, SyntaxKind::IF, SyntaxKind::STRLANG, SyntaxKind::STRLANGDIR, SyntaxKind::STRDT, SyntaxKind::sameTerm, SyntaxKind::isIRI, SyntaxKind::isURI, SyntaxKind::isBLANK, SyntaxKind::isLITERAL, SyntaxKind::isNUMERIC, SyntaxKind::hasLANG, SyntaxKind::hasLANGDIR, SyntaxKind::isTRIPLE, SyntaxKind::TRIPLE, SyntaxKind::SUBJECT, SyntaxKind::PREDICATE, SyntaxKind::OBJECT, SyntaxKind::REGEX, SyntaxKind::SUBSTR, SyntaxKind::REPLACE, SyntaxKind::EXISTS, SyntaxKind::COUNT, SyntaxKind::SUM, SyntaxKind::MIN, SyntaxKind::MAX, SyntaxKind::AVG, SyntaxKind::SAMPLE, SyntaxKind::GROUP_CONCAT, SyntaxKind::IRIREF, SyntaxKind::PNAME_NS, SyntaxKind::PNAME_LN, SyntaxKind::STRING_LITERAL1, SyntaxKind::STRING_LITERAL2, SyntaxKind::STRING_LITERAL_LONG1, SyntaxKind::STRING_LITERAL_LONG2, SyntaxKind::INTEGER, SyntaxKind::DECIMAL, SyntaxKind::DOUBLE, SyntaxKind::INTEGER_POSITIVE, SyntaxKind::DECIMAL_POSITIVE, SyntaxKind::DOUBLE_POSITIVE, SyntaxKind::INTEGER_NEGATIVE, SyntaxKind::DECIMAL_NEGATIVE, SyntaxKind::DOUBLE_NEGATIVE, SyntaxKind::True, SyntaxKind::False, SyntaxKind::VAR1, SyntaxKind::VAR2, SyntaxKind::DoubleLessLParen]);
            proof {
                assert(match_PrimaryExpression_1(ks, start, gm1, pre1) == (p.st(), false)) by {
                    reveal_with_fuel(match_PrimaryExpression_1, 1);
                }
            }
        },
    }
    p.close(marker, SyntaxKind::PrimaryExpression);
    proof {
        assert(rule_PrimaryExpression(ks, s0) == p.st()) by {
            reveal_with_fuel(rule_PrimaryExpression, 1); reveal_with_fuel(match_PrimaryExpression_1, 1);
        }
    }
}

pub open spec fn rank_iriOrFunction(t: SyntaxKind) -> nat {
    match t {
        SyntaxKind::PNAME_LN | SyntaxKind::PNAME_NS => 2,
        _ => 1,
    }
}

/// What [`parse_iriOrFunction`] makes of the parser state.
#[verifier::opaque]
pub open spec fn rule_iriOrFunction(ts: Seq<SyntaxKind>, s: St) -> St
    decreases ts.len() - s.pos, rank_iriOrFunction(peek_at(ts, s.pos)), 32 * (ts.len() - s.pos) + 32,
{
    let start = s.pos;
    let s_in = s;
    let m_marker = s.evs.len() as int;
    let s = st_open(s);
    let s = rule_iri(ts, s);
    let s = if s_in.pos <= s.pos <= ts.len() {
        if_iriOrFunction_1(ts, start, m_marker, s)
    } else {
        s
    };
    let s = st_close(s, m_marker, SyntaxKind::iriOrFunction);
    s
}

#[verifier::opaque]
pub open spec fn if_iriOrFunction_1(ts: Seq<SyntaxKind>, start: int, m_marker: int, s: St) -> St
    decreases ts.len() - start, rank_iriOrFunction(peek_at(ts, start)), 32 * (ts.len() - s.pos) + 32 - 1,
{
    let s_in = s;
    if (peek_at(ts, s.pos) == SyntaxKind::LParen || peek_at(ts, s.pos) == SyntaxKind::NIL) {
        let s = if call_ok(ts, start, s, rank_ArgList(peek_at(ts, s.pos)), rank_iriOrFunction(peek_at(ts, start))) {
            rule_ArgList(ts, s)
        } else {
            s
        };
        s
    } else {
        s
    }
}

/// [145] iriOrFunction -> iri ArgList?
pub(crate) fn parse_iriOrFunction(p: &mut Parser)
    requires
        old(p).wf(),
    ensures
        Parser::step(*old(p), *final(p)),
        final(p).pos == old(p).pos ==> is_sync_point(old(p).peek()),
        old(p).events@.len() < final(p).events@.len(),
        final(p).events@[old(p).events@.len() as int] == (Event::Open { kind: SyntaxKind::iriOrFunction }),
        final(p).events@.last() is Close,
        final(p).st() == rule_iriOrFunction(old(p).kinds(), old(p).st()),
    decreases old(p).remaining(), rank_iriOrFunction(old(p).peek()), 1int,
{
    let ghost ks = p.kinds();
    let ghost s0 = p.st();
    let ghost start = p.pos as int;
    let marker = p.open();
    let ghost gm1 = marker.index as int;
    parse_iri(p);
    let ghost pre1 = p.st();
    if p.at_any(&[SyntaxKind::LParen, SyntaxKind::NIL]) {
        proof {
            assert(call_ok(ks, start, p.st(), rank_ArgList(peek_at(ks, p.st().pos)), rank_iriOrFunction(peek_at(ks, start)))) by {
                reveal(Parser::st);
                assert(peek_at(ks, start) == old(p).peek());
                assert(peek_at(ks, p.pos as int) == p.peek());
            }
        }
        parse_ArgList(p);
        proof {
            assert(if_iriOrFunction_1(ks, start, gm1, pre1) == p.st()) by {
                reveal_with_fuel(if_iriOrFunction_1, 1); reveal_with_fuel(rule_ArgList, 1);
            }
        }
    } else {
        proof {
            assert(if_iriOrFunction_1(ks, start, gm1, pre1) == p.st()) by {
                reveal_with_fuel(if_iriOrFunction_1, 1);
            }
        }
    }
    p.close(marker, SyntaxKind::iriOrFunction);
    proof {
        assert(rule_iriOrFunction(ks, s0) == p.st()) by {
            reveal_with_fuel(rule_iriOrFunction, 1); reveal_with_fuel(if_iriOrFunction_1, 1);
        }
    }
}

pub open spec fn rank_ExprTripleTerm(t: SyntaxKind) -> nat {
    match t {
        SyntaxKind::DoubleLessLParen => 0,
        SyntaxKind::IRIREF | SyntaxKind::VAR1 | SyntaxKind::VAR2 => 2,
        SyntaxKind::PNAME_LN | SyntaxKind::PNAME_NS => 3,
        _ => 1,
    }
}

/// What [`parse_ExprTripleTerm`] makes of the parser state.
#[verifier::opaque]
pub open spec fn rule_ExprTripleTerm(ts: Seq<SyntaxKind>, s: St) -> St
    decreases ts.len() - s.pos, rank_ExprTripleTerm(peek_at(ts, s.pos)), 32 * (ts.len() - s.pos) + 32,
{
    let start = s.pos;
    let s_in = s;
    let m_marker = s.evs.len() as int;
    let s = st_open(s);
    let s = st_expect(ts, s, SyntaxKind::DoubleLessLParen);
    let s = rule_ExprTripleTermSubject(ts, s);
    let s = rule_Verb(ts, s);
    let s = if call_ok(ts, start, s, rank_ExprTripleTermObject(peek_at(ts, s.pos)), rank_ExprTripleTerm(peek_at(ts, start))) {
        rule_ExprTripleTermObject(ts, s)
    } else {
        s
    };
    let s = st_expect(ts, s, SyntaxKind::RParenDoubleMore);
    let s = st_close(s, m_marker, SyntaxKind::ExprTripleTerm);
    s
}


/// [146] ExprTripleTerm -> '<<(' ExprTripleTermSubject Verb ExprTripleTermObject ')>>'
pub(crate) fn parse_ExprTripleTerm(p: &mut Parser)
    requires
        old(p).wf(),
    ensures
        Parser::step(*old(p), *final(p)),
        final(p).pos == old(p).pos ==> is_sync_point(old(p).peek()),
        old(p).events@.len() < final(p).events@.len(),
        final(p).events@[old(p).events@.len() as int] == (Event::Open { kind: SyntaxKind::ExprTripleTerm }),
        final(p).events@.last() is Close,
        final(p).st() == rule_ExprTripleTerm(old(p).kinds(), old(p).st()),
    decreases old(p).remaining(), rank_ExprTripleTerm(old(p).peek()), 1int,
{
    let ghost ks = p.kinds();
    let ghost s0 = p.st();
    let ghost start = p.pos as int;
    let marker = p.open();
    let ghost gm1 = marker.index as int;
    p.expect(SyntaxKind::DoubleLessLParen);
    parse_ExprTripleTermSubject(p);
    parse_Verb(p);
    proof {
        assert(call_ok(ks, start, p.st(), rank_ExprTripleTermObject(peek_at(ks, p.st().pos)), rank_ExprTripleTerm(peek_at(ks, start)))) by {
            reveal(Parser::st);
            assert(peek_at(ks, start) == old(p).peek());
            assert(peek_at(ks, p.pos as int) == p.peek());
        }
    }
    parse_ExprTripleTermObject(p);
    p.expect(SyntaxKind::RParenDoubleMore);
    p.close(marker, SyntaxKind::ExprTripleTerm);
    proof {
        assert(rule_ExprTripleTerm(ks, s0) == p.st()) by {
            reveal_with_fuel(rule_ExprTripleTerm, 1); reveal_with_fuel(rule_ExprTripleTermObject, 1);
        }
    }
}

pub open spec fn rank_ExprTripleTermSubject(t: SyntaxKind) -> nat {
    match t {
        SyntaxKind::IRIREF | SyntaxKind::VAR1 | SyntaxKind::VAR2 => 1,
        SyntaxKind::PNAME_LN | SyntaxKind::PNAME_NS => 2,
        _ => 0,
    }
}

/// What [`parse_ExprTripleTermSubject`] makes of the parser state.
#[verifier::opaque]
pub open spec fn rule_ExprTripleTermSubject(ts: Seq<SyntaxKind>, s: St) -> St {
    let m_marker = s.evs.len() as int;
    let s = st_open(s);
    if (peek_at(ts, s.pos) == SyntaxKind::IRIREF || peek_at(ts, s.pos) == SyntaxKind::PNAME_NS || peek_at(ts, s.pos) == SyntaxKind::PNAME_LN) {
        let s = rule_iri(ts, s);
        let s = st_close(s, m_marker, SyntaxKind::ExprTripleTermSubject);
        s
    } else if (peek_at(ts, s.pos) == SyntaxKind::VAR1 || peek_at(ts, s.pos) == SyntaxKind::VAR2) {
        let s = rule_Var(ts, s);
        let s = st_close(s, m_marker, SyntaxKind::ExprTripleTermSubject);
        s
    } else if (peek_at(ts, s.pos) == SyntaxKind::Eof) {
        let s = st_close(s, m_marker, SyntaxKind::ExprTripleTermSubject);
        let m_marker = s.evs.len() as int;
        let s = st_open(s);
        let s = st_close(s, m_marker, SyntaxKind::Error);
        s
    } else {
        let s = st_advance_with_error(ts, s, seq![SyntaxKind::IRIREF, SyntaxKind::PNAME_NS, SyntaxKind::PNAME_LN, SyntaxKind::VAR1, SyntaxKind::VAR2]);
        let s = st_close(s, m_marker, SyntaxKind::ExprTripleTermSubject);
        s
    }
}

/// [147] ExprTripleTermSubject -> iri | Var
pub(crate) fn parse_ExprTripleTermSubject(p: &mut Parser)
    requires
        old(p).wf(),
    ensures
        Parser::step(*old(p), *final(p)),
        final(p).pos == old(p).pos ==> is_sync_point(old(p).peek()),
        old(p).events@.len() < final(p).events@.len(),
        final(p).events@[old(p).events@.len() as int] == (Event::Open { kind: SyntaxKind::ExprTripleTermSubject }),
        final(p).events@.last() is Close,
        final(p).st() == rule_ExprTripleTermSubject(old(p).kinds(), old(p).st()),
    decreases old(p).remaining(), rank_ExprTripleTermSubject(old(p).peek()), 1int,
{
    let ghost ks = p.kinds();
    let ghost s0 = p.st();
    let marker = p.open();
    match p.nth(0) {
        SyntaxKind::IRIREF | SyntaxKind::PNAME_NS | SyntaxKind::PNAME_LN => {
            parse_iri(p);
        },
        SyntaxKind::VAR1 | SyntaxKind::VAR2 => {
            parse_Var(p);
        },
        SyntaxKind::Eof => {
            p.close(marker, SyntaxKind::ExprTripleTermSubject);
            let marker = p.open();
            p.close(marker, SyntaxKind::Error);
            proof {
                assert(p.st() == rule_ExprTripleTermSubject(ks, s0)) by {
                    reveal(rule_ExprTripleTermSubject);
                    reveal(Parser::st);
                }
            }
            return ;
        },
        _ => {
            p.advance_with_error(vec![SyntaxKind::IRIREF, SyntaxKind::PNAME_NS, SyntaxKind::PNAME_LN, SyntaxKind::VAR1, SyntaxKind::VAR2]);
        },
    }
    p.close(marker, SyntaxKind::ExprTripleTermSubject);
    proof {
        assert(p.st() == rule_ExprTripleTermSubject(ks, s0)) by {
            reveal(rule_ExprTripleTermSubject);
            reveal(Parser::st);
        }
    }
}

pub open spec fn rank_ExprTripleTermObject(t: SyntaxKind) -> nat {
    match t {
        SyntaxKind::DoubleLessLParen | SyntaxKind::False | SyntaxKind::IRIREF | SyntaxKind::True | SyntaxKind::VAR1 | SyntaxKind::VAR2 => 1,
        SyntaxKind::DECIMAL | SyntaxKind::DECIMAL_NEGATIVE | SyntaxKind::DECIMAL_POSITIVE | SyntaxKind::DOUBLE | SyntaxKind::DOUBLE_NEGATIVE | SyntaxKind::DOUBLE_POSITIVE | SyntaxKind::INTEGER | SyntaxKind::INTEGER_NEGATIVE | SyntaxKind::INTEGER_POSITIVE | SyntaxKind::PNAME_LN | SyntaxKind::PNAME_NS | SyntaxKind::STRING_LITERAL1 | SyntaxKind::STRING_LITERAL2 | SyntaxKind::STRING_LITERAL_LONG1 | SyntaxKind::STRING_LITERAL_LONG2 => 2,
        _ => 0,
    }
}

/// What [`parse_ExprTripleTermObject`] makes of the parser state.
#[verifier::opaque]
pub open spec fn rule_ExprTripleTermObject(ts: Seq<SyntaxKind>, s: St) -> St
    decreases ts.len() - s.pos, rank_ExprTripleTermObject(peek_at(ts, s.pos)), 32 * (ts.len() - s.pos) + 32,
{
    let start = s.pos;
    let s_in = s;
    let m_marker = s.evs.len() as int;
    let s = st_open(s);
    let (s, r) = if s_in.pos <= s.pos <= ts.len() {
        match_ExprTripleTermObject_1(ts, start, m_marker, s)
    } else {
        (s, false)
    };
    if r {
        s
    } else {
        let s = st_close(s, m_marker, SyntaxKind::ExprTripleTermObject);
        s
    }
}

#[verifier::opaque]
pub open spec fn match_ExprTripleTermObject_1(ts: Seq<SyntaxKind>, start: int, m_marker: int, s: St) -> (St, bool)
    decreases ts.len() - start, rank_ExprTripleTermObject(peek_at(ts, start)), 32 * (ts.len() - s.pos) + 32 - 1,
{
    let s_in = s;
    if (peek_at(ts, s.pos) == SyntaxKind::IRIREF || peek_at(ts, s.pos) == SyntaxKind::PNAME_NS || peek_at(ts, s.pos) == SyntaxKind::PNAME_LN) {
        let s = rule_iri(ts, s);
        (s, false)
    } else if (peek_at(ts, s.pos) == SyntaxKind::STRING_LITERAL1 || peek_at(ts, s.pos) == SyntaxKind::STRING_LITERAL2 || peek_at(ts, s.pos) == SyntaxKind::STRING_LITERAL_LONG1 || peek_at(ts, s.pos) == SyntaxKind::STRING_LITERAL_LONG2) {
        let s = rule_RDFLiteral(ts, s);
        (s, false)
    } else if (peek_at(ts, s.pos) == SyntaxKind::INTEGER || peek_at(ts, s.pos) == SyntaxKind::DECIMAL || peek_at(ts, s.pos) == SyntaxKind::DOUBLE || peek_at(ts, s.pos) == SyntaxKind::INTEGER_POSITIVE || peek_at(ts, s.pos) == SyntaxKind::DECIMAL_POSITIVE || peek_at(ts, s.pos) == SyntaxKind::DOUBLE_POSITIVE || peek_at(ts, s.pos) == SyntaxKind::INTEGER_NEGATIVE || peek_at(ts, s.pos) == SyntaxKind::DECIMAL_NEGATIVE || peek_at(ts, s.pos) == SyntaxKind::DOUBLE_NEGATIVE) {
        let s = rule_NumericLiteral(ts, s);
        (s, false)
    } else if (peek_at(ts, s.pos) == SyntaxKind::True || peek_at(ts, s.pos) == SyntaxKind::False) {
        let s = rule_BooleanLiteral(ts, s);
        (s, false)
    } else if (peek_at(ts, s.pos) == SyntaxKind::VAR1 || peek_at(ts, s.pos) == SyntaxKind::VAR2) {
        let s = rule_Var(ts, s);
        (s, false)
    } else if (peek_at(ts, s.pos) == SyntaxKind::DoubleLessLParen) {
        let s = if call_ok(ts, start, s, rank_ExprTripleTerm(peek_at(ts, s.pos)), rank_ExprTripleTermObject(peek_at(ts, start))) {
            rule_ExprTripleTerm(ts, s)
        } else {
            s
        };
        (s, false)
    } else if (peek_at(ts, s.pos) == SyntaxKind::Eof) {
        let s = st_close(s, m_marker, SyntaxKind::ExprTripleTermObject);
        let m_marker = s.evs.len() as int;
        let s = st_open(s);
        let s = st_close(s, m_marker, SyntaxKind::Error);
        (s, true)
    } else {
        let s = st_advance_with_error(ts, s, seq![SyntaxKind::IRIREF, SyntaxKind::PNAME_NS, SyntaxKind::PNAME_LN, SyntaxKind::STRING_LITERAL1, SyntaxKind::STRING_LITERAL2, SyntaxKind::STRING_LITERAL_LONG1, SyntaxKind::STRING_LITERAL_LONG2, SyntaxKind::INTEGER, SyntaxKind::DECIMAL, SyntaxKind::DOUBLE, SyntaxKind::INTEGER_POSITIVE, SyntaxKind::DECIMAL_POSITIVE, SyntaxKind::DOUBLE_POSITIVE, SyntaxKind::INTEGER_NEGATIVE, SyntaxKind::DECIMAL_NEGATIVE, SyntaxKind::DOUBLE_NEGATIVE, SyntaxKind::True, SyntaxKind::False, SyntaxKind::VAR1, SyntaxKind::VAR2, SyntaxKind::DoubleLessLParen]);
        (s, false)
    }
}

/// [148] ExprTripleTermObject -> iri | RDFLiteral | NumericLiteral | BooleanLiteral | Var | ExprTripleTerm
pub(crate) fn parse_ExprTripleTermObject(p: &mut Parser)
    requires
        old(p).wf(),
    ensures
        Parser::step(*old(p), *final(p)),
        final(p).pos == old(p).pos ==> is_sync_point(old(p).peek()),
        old(p).events@.len() < final(p).events@.len(),
        final(p).events@[old(p).events@.len() as int] == (Event::Open { kind: SyntaxKind::ExprTripleTermObject }),
        final(p).events@.last() is Close,
        final(p).st() == rule_ExprTripleTermObject(old(p).kinds(), old(p).st()),
    decreases old(p).remaining(), rank_ExprTripleTermObject(old(p).peek()), 1int,
{
    let ghost ks = p.kinds();
    let ghost s0 = p.st();
    let ghost start = p.pos as int;
    let marker = p.open();
    let ghost gm1 = marker.index as int;
    let ghost pre1 = p.st();
    match p.nth(0) {
        SyntaxKind::IRIREF | SyntaxKind::PNAME_NS | SyntaxKind::PNAME_LN => {
            parse_iri(p);
            proof {
                assert(match_ExprTripleTermObject_1(ks, start, gm1, pre1) == (p.st(), false)) by {
                    reveal_with_fuel(match_ExprTripleTermObject_1, 1);
                }
            }
        },
        SyntaxKind::STRING_LITERAL1 | SyntaxKind::STRING_LITERAL2 | SyntaxKind::STRING_LITERAL_LONG1 | SyntaxKind::STRING_LITERAL_LONG2 => {
            parse_RDFLiteral(p);
            proof {
                assert(match_ExprTripleTermObject_1(ks, start, gm1, pre1) == (p.st(), false)) by {
                    reveal_with_fuel(match_ExprTripleTermObject_1, 1);
                }
            }
        },
        SyntaxKind::INTEGER | SyntaxKind::DECIMAL | SyntaxKind::DOUBLE | SyntaxKind::INTEGER_POSITIVE | SyntaxKind::DECIMAL_POSITIVE | SyntaxKind::DOUBLE_POSITIVE | SyntaxKind::INTEGER_NEGATIVE | SyntaxKind::DECIMAL_NEGATIVE | SyntaxKind::DOUBLE_NEGATIVE => {
            parse_NumericLiteral(p);
            proof {
                assert(match_ExprTripleTermObject_1(ks, start, gm1, pre1) == (p.st(), false)) by {
                    reveal_with_fuel(match_ExprTripleTermObject_1, 1);
                }
            }
        },
        SyntaxKind::True | SyntaxKind::False => {
            parse_BooleanLiteral(p);
            proof {
                assert(match_ExprTripleTermObject_1(ks, start, gm1, pre1) == (p.st(), false)) by {
                    reveal_with_fuel(match_ExprTripleTermObject_1, 1);
                }
            }
        },
        SyntaxKind::VAR1 | SyntaxKind::VAR2 => {
            parse_Var(p);
            proof {
                assert(match_ExprTripleTermObject_1(ks, start, gm1, pre1) == (p.st(), false)) by {
                    reveal_with_fuel(match_ExprTripleTermObject_1, 1);
                }
            }
        },
        SyntaxKind::DoubleLessLParen => {
            proof {
                assert(call_ok(ks, start, p.st(), rank_ExprTripleTerm(peek_at(ks, p.st().pos)), rank_ExprTripleTermObject(peek_at(ks, start)))) by {
                    reveal(Parser::st);
                    assert(peek_at(ks, start) == old(p).peek());
                    assert(peek_at(ks, p.pos as int) == p.peek());
                }
            }
            parse_ExprTripleTerm(p);
            proof {
                assert(match_ExprTripleTermObject_1(ks, start, gm1, pre1) == (p.st(), false)) by {
                    reveal_with_fuel(match_ExprTripleTermObject_1, 1); reveal_with_fuel(rule_ExprTripleTerm, 1);
                }
            }
        },
        SyntaxKind::Eof => {
            p.close(marker, SyntaxKind::ExprTripleTermObject);
            let marker = p.open();
            let ghost gm2 = marker.index as int;
            p.close(marker, SyntaxKind::Error);
            proof {
                assert(match_ExprTripleTermObject_1(ks, start, gm1, pre1) == (p.st(), true)) by {
                    reveal_with_fuel(match_ExprTripleTermObject_1, 1);
                }
            }
            proof {
                assert(rule_ExprTripleTermObject(ks, s0) == p.st()) by {
                    reveal_with_fuel(rule_ExprTripleTermObject, 1); reveal_with_fuel(match_ExprTripleTermObject_1, 1);
                }
            }
            return ;
        },
        _ => {
            p.advance_with_error(vec![SyntaxKind::IRIREF, SyntaxKind::PNAME_NS, SyntaxKind::PNAME_LN, SyntaxKind::STRING_LITERAL1, SyntaxKind::STRING_LITERAL2, SyntaxKind::STRING_LITERAL_LONG1, SyntaxKind::STRING_LITERAL_LONG2, SyntaxKind::INTEGER, SyntaxKind::DECIMAL, SyntaxKind::DOUBLE, SyntaxKind::INTEGER_POSITIVE, SyntaxKind::DECIMAL_POSITIVE, SyntaxKind::DOUBLE_POSITIVE, SyntaxKind::INTEGER_NEGATIVE, SyntaxKind::DECIMAL_NEGATIVE, SyntaxKind::DOUBLE_NEGATIVE, SyntaxKind::True, SyntaxKind::False, SyntaxKind::VAR1, SyntaxKind::VAR2, SyntaxKind::DoubleLessLParen]);
            proof {
                assert(match_ExprTripleTermObject_1(ks, start, gm1, pre1) == (p.st(), false)) by {
                    reveal_with_fuel(match_ExprTripleTermObject_1, 1);
                }
            }
        },
    }
    p.close(marker, SyntaxKind::ExprTripleTermObject);
    proof {
        assert(rule_ExprTripleTermObject(ks, s0) == p.st()) by {
            reveal_with_fuel(rule_ExprTripleTermObject, 1); reveal_with_fuel(match_ExprTripleTermObject_1, 1);
        }
    }
}

pub open spec fn rank_Aggregate(t: SyntaxKind) -> nat {
    0
}

/// What [`parse_Aggregate`] makes of the parser state.
#[verifier::opaque]
pub open spec fn rule_Aggregate(ts: Seq<SyntaxKind>, s: St) -> St
    decreases ts.len() - s.pos, rank_Aggregate(peek_at(ts, s.pos)), 32 * (ts.len() - s.pos) + 32,
{
    let start = s.pos;
    let s_in = s;
    let m_marker = s.evs.len() as int;
    let s = st_open(s);
    let (s, r) = if s_in.pos <= s.pos <= ts.len() {
        match_Aggregate_1(ts, start, m_marker, s)
    } else {
        (s, false)
    };
    if r {
        s
    } else {
        let s = st_close(s, m_marker, SyntaxKind::Aggregate);
        s
    }
}

#[verifier::opaque]
pub open spec fn if_Aggregate_2(ts: Seq<SyntaxKind>, start: int, m_marker: int, s: St) -> St
    decreases ts.len() - start, rank_Aggregate(peek_at(ts, start)), 32 * (ts.len() - s.pos) + 32 - 2,
{
    let s_in = s;
    if (peek_at(ts, s.pos) == SyntaxKind::DISTINCT) {
        let s = st_expect(ts, s, SyntaxKind::DISTINCT);
        s
    } else {
        s
    }
}

#[verifier::opaque]
pub open spec fn match_Aggregate_3(ts: Seq<SyntaxKind>, start: int, m_marker: int, s: St) -> (St, bool)
    decreases ts.len() - start, rank_Aggregate(peek_at(ts, start)), 32 * (ts.len() - s.pos) + 32 - 2,
{
    let s_in = s;
    if (peek_at(ts, s.pos) == SyntaxKind::Star) {
        let s = st_expect(ts, s, SyntaxKind::Star);
        (s, false)
    } else if (peek_at(ts, s.pos) == SyntaxKind::IRIREF || peek_at(ts, s.pos) == SyntaxKind::PNAME_NS || peek_at(ts, s.pos) == SyntaxKind::STRING_LITERAL1 || peek_at(ts, s.pos) == SyntaxKind::STRING_LITERAL2 || peek_at(ts, s.pos) == SyntaxKind::LParen || peek_at(ts, s.pos) == SyntaxKind::INTEGER || peek_at(ts, s.pos) == SyntaxKind::Plus || peek_at(ts, s.pos) == SyntaxKind::ExclamationMark || peek_at(ts, s.pos) == SyntaxKind::DoubleLessLParen || peek_at(ts, s.pos) == SyntaxKind::VAR1 || peek_at(ts, s.pos) == SyntaxKind::VAR2 || peek_at(ts, s.pos) == SyntaxKind::NOT || peek_at(ts, s.pos) == SyntaxKind::Minus || peek_at(ts, s.pos) == SyntaxKind::STR || peek_at(ts, s.pos) == SyntaxKind::LANG || peek_at(ts, s.pos) == SyntaxKind::LANGMATCHES || peek_at(ts, s.pos) == SyntaxKind::LANGDIR || peek_at(ts, s.pos) == SyntaxKind::DATATYPE || peek_at(ts, s.pos) == SyntaxKind::BOUND || peek_at(ts, s.pos) == SyntaxKind::IRI || peek_at(ts, s.pos) == SyntaxKind::URI || peek_at(ts, s.pos) == SyntaxKind::BNODE || peek_at(ts, s.pos) == SyntaxKind::RAND || peek_at(ts, s.pos) == SyntaxKind::ABS || peek_at(ts, s.pos) == SyntaxKind::CEIL || peek_at(ts, s.pos) == SyntaxKind::FLOOR || peek_at(ts, s.pos) == SyntaxKind::ROUND || peek_at(ts, s.pos) == SyntaxKind::CONCAT || peek_at(ts, s.pos) == SyntaxKind::STRLEN || peek_at(ts, s.pos) == SyntaxKind::UCASE || peek_at(ts, s.pos) == SyntaxKind::LCASE || peek_at(ts, s.pos) == SyntaxKind::ENCODE_FOR_URI || peek_at(ts, s.pos) == SyntaxKind::CONTAINS || peek_at(ts, s.pos) == SyntaxKind::STRSTARTS || peek_at(ts, s.pos) == SyntaxKind::STRENDS || peek_at(ts, s.pos) == SyntaxKind::STRBEFORE || peek_at(ts, s.pos) == SyntaxKind::STRAFTER || peek_at(ts, s.pos) == SyntaxKind::YEAR || peek_at(ts, s.pos) == SyntaxKind::MONTH || peek_at(ts, s.pos) == SyntaxKind::DAY || peek_at(ts, s.pos) == SyntaxKind::HOURS || peek_at(ts, s.pos) == SyntaxKind::MINUTES || peek_at(ts, s.pos) == SyntaxKind::SECONDS || peek_at(ts, s.pos) == SyntaxKind::TIMEZONE || peek_at(ts, s.pos) == SyntaxKind::TZ || peek_at(ts, s.pos) == SyntaxKind::NOW || peek_at(ts, s.pos) == SyntaxKind::UUID || peek_at(ts, s.pos) == SyntaxKind::STRUUID || peek_at(ts, s.pos) == SyntaxKind::MD5 || peek_at(ts, s.pos) == SyntaxKind::SHA1 || peek_at(ts, s.pos) == SyntaxKind::SHA256 || peek_at(ts, s.pos) == SyntaxKind::SHA384 || peek_at(ts, s.pos) == SyntaxKind::SHA512 || peek_at(ts, s.pos) == SyntaxKind::COALESCE || peek_at(ts, s.pos) == SyntaxKind::IF || peek_at(ts, s.pos) == SyntaxKind::STRLANG || peek_at(ts, s.pos) == SyntaxKind::STRLANGDIR || peek_at(ts, s.pos) == SyntaxKind::STRDT || peek_at(ts, s.pos) == SyntaxKind::sameTerm || peek_at(ts, s.pos) == SyntaxKind::isIRI || peek_at(ts, s.pos) == SyntaxKind::isURI || peek_at(ts, s.pos) == SyntaxKind::isBLANK || peek_at(ts, s.pos) == SyntaxKind::isLITERAL || peek_at(ts, s.pos) == SyntaxKind::isNUMERIC || peek_at(ts, s.pos) == SyntaxKind::hasLANG || peek_at(ts, s.pos) == SyntaxKind::hasLANGDIR || peek_at(ts, s.pos) == SyntaxKind::isTRIPLE || peek_at(ts, s.pos) == SyntaxKind::TRIPLE || peek_at(ts, s.pos) == SyntaxKind::SUBJECT || peek_at(ts, s.pos) == SyntaxKind::PREDICATE || peek_at(ts, s.pos) == SyntaxKind::OBJECT || peek_at(ts, s.pos) == SyntaxKind::REGEX || peek_at(ts, s.pos) == SyntaxKind::SUBSTR || peek_at(ts, s.pos) == SyntaxKind::REPLACE || peek_at(ts, s.pos) == SyntaxKind::EXISTS || peek_at(ts, s.pos) == SyntaxKind::COUNT || peek_at(ts, s.pos) == SyntaxKind::SUM || peek_at(ts, s.pos) == SyntaxKind::MIN || peek_at(ts, s.pos) == SyntaxKind::MAX || peek_at(ts, s.pos) == SyntaxKind::AVG || peek_at(ts, s.pos) == SyntaxKind::SAMPLE || peek_at(ts, s.pos) == SyntaxKind::GROUP_CONCAT || peek_at(ts, s.pos) == SyntaxKind::DECIMAL || peek_at(ts, s.pos) == SyntaxKind::DOUBLE || peek_at(ts, s.pos) == SyntaxKind::INTEGER_POSITIVE || peek_at(ts, s.pos) == SyntaxKind::DECIMAL_POSITIVE || peek_at(ts, s.pos) == SyntaxKind::DOUBLE_POSITIVE || peek_at(ts, s.pos) == SyntaxKind::INTEGER_NEGATIVE || peek_at(ts, s.pos) == SyntaxKind::DECIMAL_NEGATIVE || peek_at(ts, s.pos) == SyntaxKind::DOUBLE_NEGATIVE || peek_at(ts, s.pos) == SyntaxKind::True || peek_at(ts, s.pos) == SyntaxKind::False || peek_at(ts, s.pos) == SyntaxKind::STRING_LITERAL_LONG1 || peek_at(ts, s.pos) == SyntaxKind::STRING_LITERAL_LONG2 || peek_at(ts, s.pos) == SyntaxKind::PNAME_LN) {
        let s = if call_ok(ts, start, s, rank_Expression(peek_at(ts, s.pos)), rank_Aggregate(peek_at(ts, start))) {
            rule_Expression(ts, s)
        } else {
            s
        };
        (s, false)
    } else if (peek_at(ts, s.pos) == SyntaxKind::Eof) {
        let s = st_close(s, m_marker, SyntaxKind::Aggregate);
        let m_marker = s.evs.len() as int;
        let s = st_open(s);
        let s = st_close(s, m_marker, SyntaxKind::Error);
        (s, true)
    } else {
        let s = st_advance_with_error(ts, s, seq![SyntaxKind::Star, SyntaxKind::IRIREF, SyntaxKind::PNAME_NS, SyntaxKind::STRING_LITERAL1, SyntaxKind::STRING_LITERAL2, SyntaxKind::LParen, SyntaxKind::INTEGER, SyntaxKind::Plus, SyntaxKind::ExclamationMark, SyntaxKind::DoubleLessLParen, SyntaxKind::VAR1, SyntaxKind::VAR2, SyntaxKind::NOT, SyntaxKind::Minus, SyntaxKind::STR, SyntaxKind::LANG, SyntaxKind::LANGMATCHES, SyntaxKind::LANGDIR, SyntaxKind::DATATYPE, SyntaxKind::BOUND, SyntaxKind::IRI, SyntaxKind::URI, SyntaxKind::BNODE, SyntaxKind::RAND, SyntaxKind::ABS, SyntaxKind::CEIL, SyntaxKind::FLOOR, SyntaxKind::ROUND, SyntaxKind::CONCAT, SyntaxKind::STRLEN, SyntaxKind::UCASE, SyntaxKind::LCASE, SyntaxKind::ENCODE_FOR_URI, SyntaxKind::CONTAINS, SyntaxKind::STRSTARTS, SyntaxKind::STRENDS, SyntaxKind::STRBEFORE, SyntaxKind::STRAFTER, SyntaxKind::YEAR, SyntaxKind::MONTH, SyntaxKind::DAY, SyntaxKind::HOURS, SyntaxKind::MINUTES, SyntaxKind::SECONDS, SyntaxKind::TIMEZONE, SyntaxKind::TZ, SyntaxKind::NOW, SyntaxKind::UUID, SyntaxKind::STRUUID, SyntaxKind::MD5, SyntaxKind::SHA1, SyntaxKind::SHA256, SyntaxKind::SHA384, SyntaxKind::SHA512, SyntaxKind::COALESCE, SyntaxKind::IF, SyntaxKind::STRLANG, SyntaxKind::STRLANGDIR, SyntaxKind::STRDT, SyntaxKind::sameTerm, SyntaxKind::isIRI, SyntaxKind::isURI, SyntaxKind::isBLANK, SyntaxKind::isLITERAL, SyntaxKind::isNUMERIC, SyntaxKind::hasLANG, SyntaxKind::hasLANGDIR, SyntaxKind::isTRIPLE, SyntaxKind::TRIPLE, SyntaxKind::SUBJECT, SyntaxKind::PREDICATE, SyntaxKind::OBJECT, SyntaxKind::REGEX, SyntaxKind::SUBSTR, SyntaxKind::REPLACE, SyntaxKind::EXISTS, SyntaxKind::COUNT, SyntaxKind::SUM, SyntaxKind::MIN, SyntaxKind::MAX, SyntaxKind::AVG, SyntaxKind::SAMPLE, SyntaxKind::GROUP_CONCAT, SyntaxKind::DECIMAL, SyntaxKind::DOUBLE, SyntaxKind::INTEGER_POSITIVE, SyntaxKind::DECIMAL_POSITIVE, SyntaxKind::DOUBLE_POSITIVE, SyntaxKind::INTEGER_NEGATIVE, SyntaxKind::DECIMAL_NEGATIVE, SyntaxKind::DOUBLE_NEGATIVE, SyntaxKind::True, SyntaxKind::False, SyntaxKind::STRING_LITERAL_LONG1, SyntaxKind::STRING_LITERAL_LONG2, SyntaxKind::PNAME_LN]);
        (s, false)
    }
}

#[verifier::opaque]
pub open spec fn if_Aggregate_4(ts: Seq<SyntaxKind>, start: int, m_marker: int, s: St) -> St
    decreases ts.len() - start, rank_Aggregate(peek_at(ts, start)), 32 * (ts.len() - s.pos) + 32 - 2,
{
    let s_in = s;
    if (peek_at(ts, s.pos) == SyntaxKind::DISTINCT) {
        let s = st_expect(ts, s, SyntaxKind::DISTINCT);
        s
    } else {
        s
    }
}

#[verifier::opaque]
pub open spec fn if_Aggregate_5(ts: Seq<SyntaxKind>, start: int, m_marker: int, s: St) -> St
    decreases ts.len() - start, rank_Aggregate(peek_at(ts, start)), 32 * (ts.len() - s.pos) + 32 - 2,
{
    let s_in = s;
    if (peek_at(ts, s.pos) == SyntaxKind::DISTINCT) {
        let s = st_expect(ts, s, SyntaxKind::DISTINCT);
        s
    } else {
        s
    }
}

#[verifier::opaque]
pub open spec fn if_Aggregate_6(ts: Seq<SyntaxKind>, start: int, m_marker: int, s: St) -> St
    decreases ts.len() - start, rank_Aggregate(peek_at(ts, start)), 32 * (ts.len() - s.pos) + 32 - 2,
{
    let s_in = s;
    if (peek_at(ts, s.pos) == SyntaxKind::DISTINCT) {
        let s = st_expect(ts, s, SyntaxKind::DISTINCT);
        s
    } else {
        s
    }
}

#[verifier::opaque]
pub open spec fn if_Aggregate_7(ts: Seq<SyntaxKind>, start: int, m_marker: int, s: St) -> St
    decreases ts.len() - start, rank_Aggregate(peek_at(ts, start)), 32 * (ts.len() - s.pos) + 32 - 2,
{
    let s_in = s;
    if (peek_at(ts, s.pos) == SyntaxKind::DISTINCT) {
        let s = st_expect(ts, s, SyntaxKind::DISTINCT);
        s
    } else {
        s
    }
}

#[verifier::opaque]
pub open spec fn if_Aggregate_8(ts: Seq<SyntaxKind>, start: int, m_marker: int, s: St) -> St
    decreases ts.len() - start, rank_Aggregate(peek_at(ts, start)), 32 * (ts.len() - s.pos) + 32 - 2,
{
    let s_in = s;
    if (peek_at(ts, s.pos) == SyntaxKind::DISTINCT) {
        let s = st_expect(ts, s, SyntaxKind::DISTINCT);
        s
    } else {
        s
    }
}

#[verifier::opaque]
pub open spec fn if_Aggregate_9(ts: Seq<SyntaxKind>, start: int, m_marker: int, s: St) -> St
    decreases ts.len() - start, rank_Aggregate(peek_at(ts, start)), 32 * (ts.len() - s.pos) + 32 - 2,
{
    let s_in = s;
    if (peek_at(ts, s.pos) == SyntaxKind::DISTINCT) {
        let s = st_expect(ts, s, SyntaxKind::DISTINCT);
        s
    } else {
        s
    }
}

#[verifier::opaque]
pub open spec fn if_Aggregate_10(ts: Seq<SyntaxKind>, start: int, m_marker: int, s: St) -> St
    decreases ts.len() - start, rank_Aggregate(peek_at(ts, start)), 32 * (ts.len() - s.pos) + 32 - 2,
{
    let s_in = s;
    if (peek_at(ts, s.pos) == SyntaxKind::Semicolon) {
        let s = st_expect(ts, s, SyntaxKind::Semicolon);
        let s = st_expect(ts, s, SyntaxKind::SEPARATOR);
        let s = st_expect(ts, s, SyntaxKind::Equals);
        let s = rule_String(ts, s);
        s
    } else {
        s
    }
}

#[verifier::opaque]
pub open spec fn match_Aggregate_1(ts: Seq<SyntaxKind>, start: int, m_marker: int, s: St) -> (St, bool)
    decreases ts.len() - start, rank_Aggregate(peek_at(ts, start)), 32 * (ts.len() - s.pos) + 32 - 1,
{
    let s_in = s;
    if (peek_at(ts, s.pos) == SyntaxKind::COUNT) {
        let s = st_expect(ts, s, SyntaxKind::COUNT);
        let s = st_expect(ts, s, SyntaxKind::LParen);
        let s = if s_in.pos <= s.pos <= ts.len() {
            if_Aggregate_2(ts, start, m_marker, s)
        } else {
            s
        };
        let (s, r) = if s_in.pos <= s.pos <= ts.len() {
            match_Aggregate_3(ts, start, m_marker, s)
        } else {
            (s, false)
        };
        if r {
            (s, true)
        } else {
            let s = st_expect(ts, s, SyntaxKind::RParen);
            (s, false)
        }
    } else if (peek_at(ts, s.pos) == SyntaxKind::SUM) {
        let s = st_expect(ts, s, SyntaxKind::SUM);
        let s = st_expect(ts, s, SyntaxKind::LParen);
        let s = if s_in.pos <= s.pos <= ts.len() {
            if_Aggregate_4(ts, start, m_marker, s)
        } else {
            s
        };
        let s = if call_ok(ts, start, s, rank_Expression(peek_at(ts, s.pos)), rank_Aggregate(peek_at(ts, start))) {
            rule_Expression(ts, s)
        } else {
            s
        };
        let s = st_expect(ts, s, SyntaxKind::RParen);
        (s, false)
    } else if (peek_at(ts, s.pos) == SyntaxKind::MIN) {
        let s = st_expect(ts, s, SyntaxKind::MIN);
        let s = st_expect(ts, s, SyntaxKind::LParen);
        let s = if s_in.pos <= s.pos <= ts.len() {
            if_Aggregate_5(ts, start, m_marker, s)
        } else {
            s
        };
        let s = if call_ok(ts, start, s, rank_Expression(peek_at(ts, s.pos)), rank_Aggregate(peek_at(ts, start))) {
            rule_Expression(ts, s)
        } else {
            s
        };
        let s = st_expect(ts, s, SyntaxKind::RParen);
        (s, false)
    } else if (peek_at(ts, s.pos) == SyntaxKind::MAX) {
        let s = st_expect(ts, s, SyntaxKind::MAX);
        let s = st_expect(ts, s, SyntaxKind::LParen);
        let s = if s_in.pos <= s.pos <= ts.len() {
            if_Aggregate_6(ts, start, m_marker, s)
        } else {
            s
        };
        let s = if call_ok(ts, start, s, rank_Expression(peek_at(ts, s.pos)), rank_Aggregate(peek_at(ts, start))) {
            rule_Expression(ts, s)
        } else {
            s
        };
        let s = st_expect(ts, s, SyntaxKind::RParen);
        (s, false)
    } else if (peek_at(ts, s.pos) == SyntaxKind::AVG) {
        let s = st_expect(ts, s, SyntaxKind::AVG);
        let s = st_expect(ts, s, SyntaxKind::LParen);
        let s = if s_in.pos <= s.pos <= ts.len() {
            if_Aggregate_7(ts, start, m_marker, s)
        } else {
            s
        };
        let s = if call_ok(ts, start, s, rank_Expression(peek_at(ts, s.pos)), rank_Aggregate(peek_at(ts, start))) {
            rule_Expression(ts, s)
        } else {
            s
        };
        let s = st_expect(ts, s, SyntaxKind::RParen);
        (s, false)
    } else if (peek_at(ts, s.pos) == SyntaxKind::SAMPLE) {
        let s = st_expect(ts, s, SyntaxKind::SAMPLE);
        let s = st_expect(ts, s, SyntaxKind::LParen);
        let s = if s_in.pos <= s.pos <= ts.len() {
            if_Aggregate_8(ts, start, m_marker, s)
        } else {
            s
        };
        let s = if call_ok(ts, start, s, rank_Expression(peek_at(ts, s.pos)), rank_Aggregate(peek_at(ts, start))) {
            rule_Expression(ts, s)
        } else {
            s
        };
        let s = st_expect(ts, s, SyntaxKind::RParen);
        (s, false)
    } else if (peek_at(ts, s.pos) == SyntaxKind::GROUP_CONCAT) {
        let s = st_expect(ts, s, SyntaxKind::GROUP_CONCAT);
        let s = st_expect(ts, s, SyntaxKind::LParen);
        let s = if s_in.pos <= s.pos <= ts.len() {
            if_Aggregate_9(ts, start, m_marker, s)
        } else {
            s
        };
        let s = if call_ok(ts, start, s, rank_Expression(peek_at(ts, s.pos)), rank_Aggregate(peek_at(ts, start))) {
            rule_Expression(ts, s)
        } else {
            s
        };
        let s = if s_in.pos <= s.pos <= ts.len() {
            if_Aggregate_10(ts, start, m_marker, s)
        } else {
            s
        };
        let s = st_expect(ts, s, SyntaxKind::RParen);
        (s, false)
    } else if (peek_at(ts, s.pos) == SyntaxKind::Eof) {
        let s = st_close(s, m_marker, SyntaxKind::Aggregate);
        let m_marker = s.evs.len() as int;
        let s = st_open(s);
        let s = st_close(s, m_marker, SyntaxKind::Error);
        (s, true)
    } else {
        let s = st_advance_with_error(ts, s, seq![SyntaxKind::COUNT, SyntaxKind::SUM, SyntaxKind::MIN, SyntaxKind::MAX, SyntaxKind::AVG, SyntaxKind::SAMPLE, SyntaxKind::GROUP_CONCAT]);
        (s, false)
    }
}

/// [149] Aggregate -> 'COUNT' '(' 'DISTINCT'? ('*' | Expression) ')' | 'SUM' '(' 'DISTINCT'? Expression ')' | 'MIN' '(' 'DISTINCT'? Expression ')' | 'MAX' '(' 'DISTINCT'? Expression ')' | 'AVG' '(' 'DISTINCT'? Expression ')' | 'SAMPLE' '(' 'DISTINCT'? Expression ')' | 'GROUP_CONCAT' '(' 'DISTINCT'? Expression (';' 'SEPARATOR' '=' String)? ')'
#[verifier::rlimit(100)]
#[verifier::spinoff_prover]
pub(crate) fn parse_Aggregate(p: &mut Parser)
    requires
        old(p).wf(),
    ensures
        Parser::step(*old(p), *final(p)),
        final(p).pos == old(p).pos ==> is_sync_point(old(p).peek()),
        old(p).events@.len() < final(p).events@.len(),
        final(p).events@[old(p).events@.len() as int] == (Event::Open { kind: SyntaxKind::Aggregate }),
        final(p).events@.last() is Close,
        final(p).st() == rule_Aggregate(old(p).kinds(), old(p).st()),
    decreases old(p).remaining(), rank_Aggregate(old(p).peek()), 1int,
{
    let ghost ks = p.kinds();
    let ghost s0 = p.st();
    let ghost start = p.pos as int;
    let marker = p.open();
    let ghost gm1 = marker.index as int;
    let ghost pre1 = p.st();
    match p.nth(0) {
        SyntaxKind::COUNT => {
            let r = parse_Aggregate_part1(p, marker, Ghost(*old(p)), Ghost(gm1));
            if r {
                proof {
                    assert(rule_Aggregate(ks, s0) == p.st()) by {
                        reveal_with_fuel(rule_Aggregate, 1); reveal_with_fuel(match_Aggregate_1, 1);
                    }
                }
                return ;
            }
        },
        SyntaxKind::SUM => {
            let r = parse_Aggregate_part2(p, marker, Ghost(*old(p)), Ghost(gm1));
            if r {
                proof {
                    assert(rule_Aggregate(ks, s0) == p.st()) by {
                        reveal_with_fuel(rule_Aggregate, 1); reveal_with_fuel(match_Aggregate_1, 1);
                    }
                }
                return ;
            }
        },
        SyntaxKind::MIN => {
            let r = parse_Aggregate_part3(p, marker, Ghost(*old(p)), Ghost(gm1));
            if r {
                proof {
                    assert(rule_Aggregate(ks, s0) == p.st()) by {
                        reveal_with_fuel(rule_Aggregate, 1); reveal_with_fuel(match_Aggregate_1, 1);
                    }
                }
                return ;
            }
        },
        SyntaxKind::MAX => {
            let r = parse_Aggregate_part4(p, marker, Ghost(*old(p)), Ghost(gm1));
            if r {
                proof {
                    assert(rule_Aggregate(ks, s0) == p.st()) by {
                        reveal_with_fuel(rule_Aggregate, 1); reveal_with_fuel(match_Aggregate_1, 1);
                    }
                }
                return ;
            }
        },
        SyntaxKind::AVG => {
            let r = parse_Aggregate_part5(p, marker, Ghost(*old(p)), Ghost(gm1));
            if r {
                proof {
                    assert(rule_Aggregate(ks, s0) == p.st()) by {
                        reveal_with_fuel(rule_Aggregate, 1); reveal_with_fuel(match_Aggregate_1, 1);
                    }
                }
                return ;
            }
        },
        SyntaxKind::SAMPLE => {
            let r = parse_Aggregate_part6(p, marker, Ghost(*old(p)), Ghost(gm1));
            if r {
                proof {
                    assert(rule_Aggregate(ks, s0) == p.st()) by {
                        reveal_with_fuel(rule_Aggregate, 1); reveal_with_fuel(match_Aggregate_1, 1);
                    }
                }
                return ;
            }
        },
        SyntaxKind::GROUP_CONCAT => {
            let r = parse_Aggregate_part7(p, marker, Ghost(*old(p)), Ghost(gm1));
            if r {
                proof {
                    assert(rule_Aggregate(ks, s0) == p.st()) by {
                        reveal_with_fuel(rule_Aggregate, 1); reveal_with_fuel(match_Aggregate_1, 1);
                    }
                }
                return ;
            }
        },
        SyntaxKind::Eof => {
            p.close(marker, SyntaxKind::Aggregate);
            let marker = p.open();
            let ghost gm3 = marker.index as int;
            p.close(marker, SyntaxKind::Error);
            proof {
                assert(match_Aggregate_1(ks, start, gm1, pre1) == (p.st(), true)) by {
                    reveal_with_fuel(match_Aggregate_1, 1);
                }
            }
            proof {
                assert(rule_Aggregate(ks, s0) == p.st()) by {
                    reveal_with_fuel(rule_Aggregate, 1); reveal_with_fuel(match_Aggregate_1, 1);
                }
            }
            return ;
        },
        _ => {
            p.advance_with_error(vec![SyntaxKind::COUNT, SyntaxKind::SUM, SyntaxKind::MIN, SyntaxKind::MAX, SyntaxKind::AVG, SyntaxKind::SAMPLE, SyntaxKind::GROUP_CONCAT]);
            proof {
                assert(match_Aggregate_1(ks, start, gm1, pre1) == (p.st(), false)) by {
                    reveal_with_fuel(match_Aggregate_1, 1);
                }
            }
        },
    }
    p.close(marker, SyntaxKind::Aggregate);
    proof {
        assert(rule_Aggregate(ks, s0) == p.st()) by {
            reveal_with_fuel(rule_Aggregate, 1); reveal_with_fuel(match_Aggregate_1, 1);
        }
    }
}

/// One group of the alternatives of [`parse_Aggregate`].
#[verifier::rlimit(100)]
#[verifier::spinoff_prover]
fn parse_Aggregate_part1(p: &mut Parser, marker: MarkOpened, Ghost(co): Ghost<Parser>, Ghost(gm1): Ghost<int>) -> (r: bool)
    requires
        old(p).wf(),
        co.wf(),
        old(p).tokens@ == co.tokens@,
        co.pos <= old(p).pos,
        marker.index == co.events@.len(),
        gm1 == marker.index as int,
        old(p).stack() == co.stack().push(marker.index as int),
        old(p).events@.len() > marker.index,
        old(p).peek() == SyntaxKind::COUNT,
    ensures
        final(p).wf(),
        final(p).tokens@ == old(p).tokens@,
        old(p).pos <= final(p).pos,
        !r ==> final(p).stack() == old(p).stack(),
        !r ==> final(p).pos > old(p).pos,
        match_Aggregate_1(co.kinds(), co.pos as int, gm1, old(p).st()) == (final(p).st(), r),
        r ==> (Parser::step(co, *final(p))),
        r ==> (final(p).pos == co.pos ==> is_sync_point(co.peek())),
        r ==> (co.events@.len() < final(p).events@.len()),
        r ==> (final(p).events@[co.events@.len() as int] == (Event::Open { kind: SyntaxKind::Aggregate })),
        r ==> (final(p).events@.last() is Close),
    decreases co.remaining(), rank_Aggregate(co.peek()), 0int,
{
    let ghost ks = p.kinds();
    let ghost start = co.pos as int;
    assert(ks == co.kinds());
    let ghost pre1 = p.st();
    match p.nth(0) {
        SyntaxKind::COUNT => {
            p.expect(SyntaxKind::COUNT);
            p.expect(SyntaxKind::LParen);
            let ghost pre2 = p.st();
            if p.at_any(&[SyntaxKind::DISTINCT]) {
                p.expect(SyntaxKind::DISTINCT);
                proof {
                    assert(if_Aggregate_2(ks, start, gm1, pre2) == p.st()) by {
                        reveal_with_fuel(if_Aggregate_2, 1);
                    }
                }
            } else {
                proof {
                    assert(if_Aggregate_2(ks, start, gm1, pre2) == p.st()) by {
                        reveal_with_fuel(if_Aggregate_2, 1);
                    }
                }
            }
            let ghost pre3 = p.st();
            match p.nth(0) {
                SyntaxKind::Star => {
                    p.expect(SyntaxKind::Star);
                    proof {
                        assert(match_Aggregate_3(ks, start, gm1, pre3) == (p.st(), false)) by {
                            reveal_with_fuel(match_Aggregate_3, 1);
                        }
                    }
                },
                SyntaxKind::IRIREF | SyntaxKind::PNAME_NS | SyntaxKind::STRING_LITERAL1 | SyntaxKind::STRING_LITERAL2 | SyntaxKind::LParen | SyntaxKind::INTEGER | SyntaxKind::Plus | SyntaxKind::ExclamationMark | SyntaxKind::DoubleLessLParen | SyntaxKind::VAR1 | SyntaxKind::VAR2 | SyntaxKind::NOT | SyntaxKind::Minus | SyntaxKind::STR | SyntaxKind::LANG | SyntaxKind::LANGMATCHES | SyntaxKind::LANGDIR | SyntaxKind::DATATYPE | SyntaxKind::BOUND | SyntaxKind::IRI | SyntaxKind::URI | SyntaxKind::BNODE | SyntaxKind::RAND | SyntaxKind::ABS | SyntaxKind::CEIL | SyntaxKind::FLOOR | SyntaxKind::ROUND | SyntaxKind::CONCAT | SyntaxKind::STRLEN | SyntaxKind::UCASE | SyntaxKind::LCASE | SyntaxKind::ENCODE_FOR_URI | SyntaxKind::CONTAINS | SyntaxKind::STRSTARTS | SyntaxKind::STRENDS | SyntaxKind::STRBEFORE | SyntaxKind::STRAFTER | SyntaxKind::YEAR | SyntaxKind::MONTH | SyntaxKind::DAY | SyntaxKind::HOURS | SyntaxKind::MINUTES | SyntaxKind::SECONDS | SyntaxKind::TIMEZONE | SyntaxKind::TZ | SyntaxKind::NOW | SyntaxKind::UUID | SyntaxKind::STRUUID | SyntaxKind::MD5 | SyntaxKind::SHA1 | SyntaxKind::SHA256 | SyntaxKind::SHA384 | SyntaxKind::SHA512 | SyntaxKind::COALESCE | SyntaxKind::IF | SyntaxKind::STRLANG | SyntaxKind::STRLANGDIR | SyntaxKind::STRDT | SyntaxKind::sameTerm | SyntaxKind::isIRI | SyntaxKind::isURI | SyntaxKind::isBLANK | SyntaxKind::isLITERAL | SyntaxKind::isNUMERIC | SyntaxKind::hasLANG | SyntaxKind::hasLANGDIR | SyntaxKind::isTRIPLE | SyntaxKind::TRIPLE | SyntaxKind::SUBJECT | SyntaxKind::PREDICATE | SyntaxKind::OBJECT | SyntaxKind::REGEX | SyntaxKind::SUBSTR | SyntaxKind::REPLACE | SyntaxKind::EXISTS | SyntaxKind::COUNT | SyntaxKind::SUM | SyntaxKind::MIN | SyntaxKind::MAX | SyntaxKind::AVG | SyntaxKind::SAMPLE | SyntaxKind::GROUP_CONCAT | SyntaxKind::DECIMAL | SyntaxKind::DOUBLE | SyntaxKind::INTEGER_POSITIVE | SyntaxKind::DECIMAL_POSITIVE | SyntaxKind::DOUBLE_POSITIVE | SyntaxKind::INTEGER_NEGATIVE | SyntaxKind::DECIMAL_NEGATIVE | SyntaxKind::DOUBLE_NEGATIVE | SyntaxKind::True | SyntaxKind::False | SyntaxKind::STRING_LITERAL_LONG1 | SyntaxKind::STRING_LITERAL_LONG2 | SyntaxKind::PNAME_LN => {
                    proof {
                        assert(call_ok(ks, start, p.st(), rank_Expression(peek_at(ks, p.st().pos)), rank_Aggregate(peek_at(ks, start)))) by {
                            reveal(Parser::st);
                            assert(peek_at(ks, start) == co.peek());
                            assert(peek_at(ks, p.pos as int) == p.peek());
                        }
                    }
                    parse_Expression(p);
                    proof {
                        assert(match_Aggregate_3(ks, start, gm1, pre3) == (p.st(), false)) by {
                            reveal_with_fuel(match_Aggregate_3, 1); reveal_with_fuel(rule_Expression, 1);
                        }
                    }
                },
                SyntaxKind::Eof => {
                    p.close(marker, SyntaxKind::Aggregate);
                    let marker = p.open();
                    let ghost gm2 = marker.index as int;
                    p.close(marker, SyntaxKind::Error);
                    proof {
                        assert(match_Aggregate_3(ks, start, gm1, pre3) == (p.st(), true)) by {
                            reveal_with_fuel(match_Aggregate_3, 1);
                        }
                    }
                    proof {
                        assert(match_Aggregate_1(ks, start, gm1, pre1) == (p.st(), true)) by {
                            reveal_with_fuel(match_Aggregate_1, 1); reveal_with_fuel(if_Aggregate_2, 1); reveal_with_fuel(match_Aggregate_3, 1);
                        }
                    }
                    return true;
                },
                _ => {
                    p.advance_with_error(vec![SyntaxKind::Star, SyntaxKind::IRIREF, SyntaxKind::PNAME_NS, SyntaxKind::STRING_LITERAL1, SyntaxKind::STRING_LITERAL2, SyntaxKind::LParen, SyntaxKind::INTEGER, SyntaxKind::Plus, SyntaxKind::ExclamationMark, SyntaxKind::DoubleLessLParen, SyntaxKind::VAR1, SyntaxKind::VAR2, SyntaxKind::NOT, SyntaxKind::Minus, SyntaxKind::STR, SyntaxKind::LANG, SyntaxKind::LANGMATCHES, SyntaxKind::LANGDIR, SyntaxKind::DATATYPE, SyntaxKind::BOUND, SyntaxKind::IRI, SyntaxKind::URI, SyntaxKind::BNODE, SyntaxKind::RAND, SyntaxKind::ABS, SyntaxKind::CEIL, SyntaxKind::FLOOR, SyntaxKind::ROUND, SyntaxKind::CONCAT, SyntaxKind::STRLEN, SyntaxKind::UCASE, SyntaxKind::LCASE, SyntaxKind::ENCODE_FOR_URI, SyntaxKind::CONTAINS, SyntaxKind::STRSTARTS, SyntaxKind::STRENDS, SyntaxKind::STRBEFORE, SyntaxKind::STRAFTER, SyntaxKind::YEAR, SyntaxKind::MONTH, SyntaxKind::DAY, SyntaxKind::HOURS, SyntaxKind::MINUTES, SyntaxKind::SECONDS, SyntaxKind::TIMEZONE, SyntaxKind::TZ, SyntaxKind::NOW, SyntaxKind::UUID, SyntaxKind::STRUUID, SyntaxKind::MD5, SyntaxKind::SHA1, SyntaxKind::SHA256, SyntaxKind::SHA384, SyntaxKind::SHA512, SyntaxKind::COALESCE, SyntaxKind::IF, SyntaxKind::STRLANG, SyntaxKind::STRLANGDIR, SyntaxKind::STRDT, SyntaxKind::sameTerm, SyntaxKind::isIRI, SyntaxKind::isURI, SyntaxKind::isBLANK, SyntaxKind::isLITERAL, SyntaxKind::isNUMERIC, SyntaxKind::hasLANG, SyntaxKind::hasLANGDIR, SyntaxKind::isTRIPLE, SyntaxKind::TRIPLE, SyntaxKind::SUBJECT, SyntaxKind::PREDICATE, SyntaxKind::OBJECT, SyntaxKind::REGEX, SyntaxKind::SUBSTR, SyntaxKind::REPLACE, SyntaxKind::EXISTS, SyntaxKind::COUNT, SyntaxKind::SUM, SyntaxKind::MIN, SyntaxKind::MAX, SyntaxKind::AVG, SyntaxKind::SAMPLE, SyntaxKind::GROUP_CONCAT, SyntaxKind::DECIMAL, SyntaxKind::DOUBLE, SyntaxKind::INTEGER_POSITIVE, SyntaxKind::DECIMAL_POSITIVE, SyntaxKind::DOUBLE_POSITIVE, SyntaxKind::INTEGER_NEGATIVE, SyntaxKind::DECIMAL_NEGATIVE, SyntaxKind::DOUBLE_NEGATIVE, SyntaxKind::True, SyntaxKind::False, SyntaxKind::STRING_LITERAL_LONG1, SyntaxKind::STRING_LITERAL_LONG2, SyntaxKind::PNAME_LN]);
                    proof {
                        assert(match_Aggregate_3(ks, start, gm1, pre3) == (p.st(), false)) by {
                            reveal_with_fuel(match_Aggregate_3, 1);
                        }
                    }
                },
            }
            p.expect(SyntaxKind::RParen);
            proof {
                assert(match_Aggregate_1(ks, start, gm1, pre1) == (p.st(), false)) by {
                    reveal_with_fuel(match_Aggregate_1, 1); reveal_with_fuel(if_Aggregate_2, 1); reveal_with_fuel(match_Aggregate_3, 1);
                }
            }
        },
        _ => {
            proof {
                assert(false);
            }
        },
    }
    false
}


/// One group of the alternatives of [`parse_Aggregate`].
#[verifier::rlimit(100)]
#[verifier::spinoff_prover]
fn parse_Aggregate_part2(p: &mut Parser, marker: MarkOpened, Ghost(co): Ghost<Parser>, Ghost(gm1): Ghost<int>) -> (r: bool)
    requires
        old(p).wf(),
        co.wf(),
        old(p).tokens@ == co.tokens@,
        co.pos <= old(p).pos,
        marker.index == co.events@.len(),
        gm1 == marker.index as int,
        old(p).stack() == co.stack().push(marker.index as int),
        old(p).events@.len() > marker.index,
        old(p).peek() == SyntaxKind::SUM,
    ensures
        final(p).wf(),
        final(p).tokens@ == old(p).tokens@,
        old(p).pos <= final(p).pos,
        !r ==> final(p).stack() == old(p).stack(),
        !r ==> final(p).pos > old(p).pos,
        match_Aggregate_1(co.kinds(), co.pos as int, gm1, old(p).st()) == (final(p).st(), r),
        r ==> (Parser::step(co, *final(p))),
        r ==> (final(p).pos == co.pos ==> is_sync_point(co.peek())),
        r ==> (co.events@.len() < final(p).events@.len()),
        r ==> (final(p).events@[co.events@.len() as int] == (Event::Open { kind: SyntaxKind::Aggregate })),
        r ==> (final(p).events@.last() is Close),
    decreases co.remaining(), rank_Aggregate(co.peek()), 0int,
{
    let ghost ks = p.kinds();
    let ghost start = co.pos as int;
    assert(ks == co.kinds());
    let ghost pre1 = p.st();
    match p.nth(0) {
        SyntaxKind::SUM => {
            p.expect(SyntaxKind::SUM);
            p.expect(SyntaxKind::LParen);
            let ghost pre4 = p.st();
            if p.at_any(&[SyntaxKind::DISTINCT]) {
                p.expect(SyntaxKind::DISTINCT);
                proof {
                    assert(if_Aggregate_4(ks, start, gm1, pre4) == p.st()) by {
                        reveal_with_fuel(if_Aggregate_4, 1);
                    }
                }
            } else {
                proof {
                    assert(if_Aggregate_4(ks, start, gm1, pre4) == p.st()) by {
                        reveal_with_fuel(if_Aggregate_4, 1);
                    }
                }
            }
            proof {
                assert(call_ok(ks, start, p.st(), rank_Expression(peek_at(ks, p.st().pos)), rank_Aggregate(peek_at(ks, start)))) by {
                    reveal(Parser::st);
                    assert(peek_at(ks, start) == co.peek());
                    assert(peek_at(ks, p.pos as int) == p.peek());
                }
            }
            parse_Expression(p);
            p.expect(SyntaxKind::RParen);
            proof {
                assert(match_Aggregate_1(ks, start, gm1, pre1) == (p.st(), false)) by {
                    reveal_with_fuel(match_Aggregate_1, 1); reveal_with_fuel(if_Aggregate_4, 1); reveal_with_fuel(rule_Expression, 1);
                }
            }
        },
        _ => {
            proof {
                assert(false);
            }
        },
    }
    false
}


/// One group of the alternatives of [`parse_Aggregate`].
#[verifier::rlimit(100)]
#[verifier::spinoff_prover]
fn parse_Aggregate_part3(p: &mut Parser, marker: MarkOpened, Ghost(co): Ghost<Parser>, Ghost(gm1): Ghost<int>) -> (r: bool)
    requires
        old(p).wf(),
        co.wf(),
        old(p).tokens@ == co.tokens@,
        co.pos <= old(p).pos,
        marker.index == co.events@.len(),
        gm1 == marker.index as int,
        old(p).stack() == co.stack().push(marker.index as int),
        old(p).events@.len() > marker.index,
        old(p).peek() == SyntaxKind::MIN,
    ensures
        final(p).wf(),
        final(p).tokens@ == old(p).tokens@,
        old(p).pos <= final(p).pos,
        !r ==> final(p).stack() == old(p).stack(),
        !r ==> final(p).pos > old(p).pos,
        match_Aggregate_1(co.kinds(), co.pos as int, gm1, old(p).st()) == (final(p).st(), r),
        r ==> (Parser::step(co, *final(p))),
        r ==> (final(p).pos == co.pos ==> is_sync_point(co.peek())),
        r ==> (co.events@.len() < final(p).events@.len()),
        r ==> (final(p).events@[co.events@.len() as int] == (Event::Open { kind: SyntaxKind::Aggregate })),
        r ==> (final(p).events@.last() is Close),
    decreases co.remaining(), rank_Aggregate(co.peek()), 0int,
{
    let ghost ks = p.kinds();
    let ghost start = co.pos as int;
    assert(ks == co.kinds());
    let ghost pre1 = p.st();
    match p.nth(0) {
        SyntaxKind::MIN => {
            p.expect(SyntaxKind::MIN);
            p.expect(SyntaxKind::LParen);
            let ghost pre5 = p.st();
            if p.at_any(&[SyntaxKind::DISTINCT]) {
                p.expect(SyntaxKind::DISTINCT);
                proof {
                    assert(if_Aggregate_5(ks, start, gm1, pre5) == p.st()) by {
                        reveal_with_fuel(if_Aggregate_5, 1);
                    }
                }
            } else {
                proof {
                    assert(if_Aggregate_5(ks, start, gm1, pre5) == p.st()) by {
                        reveal_with_fuel(if_Aggregate_5, 1);
                    }
                }
            }
            proof {
                assert(call_ok(ks, start, p.st(), rank_Expression(peek_at(ks, p.st().pos)), rank_Aggregate(peek_at(ks, start)))) by {
                    reveal(Parser::st);
                    assert(peek_at(ks, start) == co.peek());
                    assert(peek_at(ks, p.pos as int) == p.peek());
                }
            }
            parse_Expression(p);
            p.expect(SyntaxKind::RParen);
            proof {
                assert(match_Aggregate_1(ks, start, gm1, pre1) == (p.st(), false)) by {
                    reveal_with_fuel(match_Aggregate_1, 1); reveal_with_fuel(if_Aggregate_5, 1); reveal_with_fuel(rule_Expression, 1);
                }
            }
        },
        _ => {
            proof {
                assert(false);
            }
        },
    }
    false
}


/// One group of the alternatives of [`parse_Aggregate`].
#[verifier::rlimit(100)]
#[verifier::spinoff_prover]
fn parse_Aggregate_part4(p: &mut Parser, marker: MarkOpened, Ghost(co): Ghost<Parser>, Ghost(gm1): Ghost<int>) -> (r: bool)
    requires
        old(p).wf(),
        co.wf(),
        old(p).tokens@ == co.tokens@,
        co.pos <= old(p).pos,
        marker.index == co.events@.len(),
        gm1 == marker.index as int,
        old(p).stack() == co.stack().push(marker.index as int),
        old(p).events@.len() > marker.index,
        old(p).peek() == SyntaxKind::MAX,
    ensures
        final(p).wf(),
        final(p).tokens@ == old(p).tokens@,
        old(p).pos <= final(p).pos,
        !r ==> final(p).stack() == old(p).stack(),
        !r ==> final(p).pos > old(p).pos,
        match_Aggregate_1(co.kinds(), co.pos as int, gm1, old(p).st()) == (final(p).st(), r),
        r ==> (Parser::step(co, *final(p))),
        r ==> (final(p).pos == co.pos ==> is_sync_point(co.peek())),
        r ==> (co.events@.len() < final(p).events@.len()),
        r ==> (final(p).events@[co.events@.len() as int] == (Event::Open { kind: SyntaxKind::Aggregate })),
        r ==> (final(p).events@.last() is Close),
    decreases co.remaining(), rank_Aggregate(co.peek()), 0int,
{
    let ghost ks = p.kinds();
    let ghost start = co.pos as int;
    assert(ks == co.kinds());
    let ghost pre1 = p.st();
    match p.nth(0) {
        SyntaxKind::MAX => {
            p.expect(SyntaxKind::MAX);
            p.expect(SyntaxKind::LParen);
            let ghost pre6 = p.st();
            if p.at_any(&[SyntaxKind::DISTINCT]) {
                p.expect(SyntaxKind::DISTINCT);
                proof {
                    assert(if_Aggregate_6(ks, start, gm1, pre6) == p.st()) by {
                        reveal_with_fuel(if_Aggregate_6, 1);
                    }
                }
            } else {
                proof {
                    assert(if_Aggregate_6(ks, start, gm1, pre6) == p.st()) by {
                        reveal_with_fuel(if_Aggregate_6, 1);
                    }
                }
            }
            proof {
                assert(call_ok(ks, start, p.st(), rank_Expression(peek_at(ks, p.st().pos)), rank_Aggregate(peek_at(ks, start)))) by {
                    reveal(Parser::st);
                    assert(peek_at(ks, start) == co.peek());
                    assert(peek_at(ks, p.pos as int) == p.peek());
                }
            }
            parse_Expression(p);
            p.expect(SyntaxKind::RParen);
            proof {
                assert(match_Aggregate_1(ks, start, gm1, pre1) == (p.st(), false)) by {
                    reveal_with_fuel(match_Aggregate_1, 1); reveal_with_fuel(if_Aggregate_6, 1); reveal_with_fuel(rule_Expression, 1);
                }
            }
        },
        _ => {
            proof {
                assert(false);
            }
        },
    }
    false
}


/// One group of the alternatives of [`parse_Aggregate`].
#[verifier::rlimit(100)]
#[verifier::spinoff_prover]
fn parse_Aggregate_part5(p: &mut Parser, marker: MarkOpened, Ghost(co): Ghost<Parser>, Ghost(gm1): Ghost<int>) -> (r: bool)
    requires
        old(p).wf(),
        co.wf(),
        old(p).tokens@ == co.tokens@,
        co.pos <= old(p).pos,
        marker.index == co.events@.len(),
        gm1 == marker.index as int,
        old(p).stack() == co.stack().push(marker.index as int),
        old(p).events@.len() > marker.index,
        old(p).peek() == SyntaxKind::AVG,
    ensures
        final(p).wf(),
        final(p).tokens@ == old(p).tokens@,
        old(p).pos <= final(p).pos,
        !r ==> final(p).stack() == old(p).stack(),
        !r ==> final(p).pos > old(p).pos,
        match_Aggregate_1(co.kinds(), co.pos as int, gm1, old(p).st()) == (final(p).st(), r),
        r ==> (Parser::step(co, *final(p))),
        r ==> (final(p).pos == co.pos ==> is_sync_point(co.peek())),
        r ==> (co.events@.len() < final(p).events@.len()),
        r ==> (final(p).events@[co.events@.len() as int] == (Event::Open { kind: SyntaxKind::Aggregate })),
        r ==> (final(p).events@.last() is Close),
    decreases co.remaining(), rank_Aggregate(co.peek()), 0int,
{
    let ghost ks = p.kinds();
    let ghost start = co.pos as int;
    assert(ks == co.kinds());
    let ghost pre1 = p.st();
    match p.nth(0) {
        SyntaxKind::AVG => {
            p.expect(SyntaxKind::AVG);
            p.expect(SyntaxKind::LParen);
            let ghost pre7 = p.st();
            if p.at_any(&[SyntaxKind::DISTINCT]) {
                p.expect(SyntaxKind::DISTINCT);
                proof {
                    assert(if_Aggregate_7(ks, start, gm1, pre7) == p.st()) by {
                        reveal_with_fuel(if_Aggregate_7, 1);
                    }
                }
            } else {
                proof {
                    assert(if_Aggregate_7(ks, start, gm1, pre7) == p.st()) by {
                        reveal_with_fuel(if_Aggregate_7, 1);
                    }
                }
            }
            proof {
                assert(call_ok(ks, start, p.st(), rank_Expression(peek_at(ks, p.st().pos)), rank_Aggregate(peek_at(ks, start)))) by {
                    reveal(Parser::st);
                    assert(peek_at(ks, start) == co.peek());
                    assert(peek_at(ks, p.pos as int) == p.peek());
                }
            }
            parse_Expression(p);
            p.expect(SyntaxKind::RParen);
            proof {
                assert(match_Aggregate_1(ks, start, gm1, pre1) == (p.st(), false)) by {
                    reveal_with_fuel(match_Aggregate_1, 1); reveal_with_fuel(if_Aggregate_7, 1); reveal_with_fuel(rule_Expression, 1);
                }
            }
        },
        _ => {
            proof {
                assert(false);
            }
        },
    }
    false
}


/// One group of the alternatives of [`parse_Aggregate`].
#[verifier::rlimit(100)]
#[verifier::spinoff_prover]
fn parse_Aggregate_part6(p: &mut Parser, marker: MarkOpened, Ghost(co): Ghost<Parser>, Ghost(gm1): Ghost<int>) -> (r: bool)
    requires
        old(p).wf(),
        co.wf(),
        old(p).tokens@ == co.tokens@,
        co.pos <= old(p).pos,
        marker.index == co.events@.len(),
        gm1 == marker.index as int,
        old(p).stack() == co.stack().push(marker.index as int),
        old(p).events@.len() > marker.index,
        old(p).peek() == SyntaxKind::SAMPLE,
    ensures
        final(p).wf(),
        final(p).tokens@ == old(p).tokens@,
        old(p).pos <= final(p).pos,
        !r ==> final(p).stack() == old(p).stack(),
        !r ==> final(p).pos > old(p).pos,
        match_Aggregate_1(co.kinds(), co.pos as int, gm1, old(p).st()) == (final(p).st(), r),
        r ==> (Parser::step(co, *final(p))),
        r ==> (final(p).pos == co.pos ==> is_sync_point(co.peek())),
        r ==> (co.events@.len() < final(p).events@.len()),
        r ==> (final(p).events@[co.events@.len() as int] == (Event::Open { kind: SyntaxKind::Aggregate })),
        r ==> (final(p).events@.last() is Close),
    decreases co.remaining(), rank_Aggregate(co.peek()), 0int,
{
    let ghost ks = p.kinds();
    let ghost start = co.pos as int;
    assert(ks == co.kinds());
    let ghost pre1 = p.st();
    match p.nth(0) {
        SyntaxKind::SAMPLE => {
            p.expect(SyntaxKind::SAMPLE);
            p.expect(SyntaxKind::LParen);
            let ghost pre8 = p.st();
            if p.at_any(&[SyntaxKind::DISTINCT]) {
                p.expect(SyntaxKind::DISTINCT);
                proof {
                    assert(if_Aggregate_8(ks, start, gm1, pre8) == p.st()) by {
                        reveal_with_fuel(if_Aggregate_8, 1);
                    }
                }
            } else {
                proof {
                    assert(if_Aggregate_8(ks, start, gm1, pre8) == p.st()) by {
                        reveal_with_fuel(if_Aggregate_8, 1);
                    }
                }
            }
            proof {
                assert(call_ok(ks, start, p.st(), rank_Expression(peek_at(ks, p.st().pos)), rank_Aggregate(peek_at(ks, start)))) by {
                    reveal(Parser::st);
                    assert(peek_at(ks, start) == co.peek());
                    assert(peek_at(ks, p.pos as int) == p.peek());
                }
            }
            parse_Expression(p);
            p.expect(SyntaxKind::RParen);
            proof {
                assert(match_Aggregate_1(ks, start, gm1, pre1) == (p.st(), false)) by {
                    reveal_with_fuel(match_Aggregate_1, 1); reveal_with_fuel(if_Aggregate_8, 1); reveal_with_fuel(rule_Expression, 1);
                }
            }
        },
        _ => {
            proof {
                assert(false);
            }
        },
    }
    false
}


/// One group of the alternatives of [`parse_Aggregate`].
#[verifier::rlimit(100)]
#[verifier::spinoff_prover]
fn parse_Aggregate_part7(p: &mut Parser, marker: MarkOpened, Ghost(co): Ghost<Parser>, Ghost(gm1): Ghost<int>) -> (r: bool)
    requires
        old(p).wf(),
        co.wf(),
        old(p).tokens@ == co.tokens@,
        co.pos <= old(p).pos,
        marker.index == co.events@.len(),
        gm1 == marker.index as int,
        old(p).stack() == co.stack().push(marker.index as int),
        old(p).events@.len() > marker.index,
        old(p).peek() == SyntaxKind::GROUP_CONCAT,
    ensures
        final(p).wf(),
        final(p).tokens@ == old(p).tokens@,
        old(p).pos <= final(p).pos,
        !r ==> final(p).stack() == old(p).stack(),
        !r ==> final(p).pos > old(p).pos,
        match_Aggregate_1(co.kinds(), co.pos as int, gm1, old(p).st()) == (final(p).st(), r),
        r ==> (Parser::step(co, *final(p))),
        r ==> (final(p).pos == co.pos ==> is_sync_point(co.peek())),
        r ==> (co.events@.len() < final(p).events@.len()),
        r ==> (final(p).events@[co.events@.len() as int] == (Event::Open { kind: SyntaxKind::Aggregate })),
        r ==> (final(p).events@.last() is Close),
    decreases co.remaining(), rank_Aggregate(co.peek()), 0int,
{
    let ghost ks = p.kinds();
    let ghost start = co.pos as int;
    assert(ks == co.kinds());
    let ghost pre1 = p.st();
    match p.nth(0) {
        SyntaxKind::GROUP_CONCAT => {
            p.expect(SyntaxKind::GROUP_CONCAT);
            p.expect(SyntaxKind::LParen);
            let ghost pre9 = p.st();
            if p.at_any(&[SyntaxKind::DISTINCT]) {
                p.expect(SyntaxKind::DISTINCT);
                proof {
                    assert(if_Aggregate_9(ks, start, gm1, pre9) == p.st()) by {
                        reveal_with_fuel(if_Aggregate_9, 1);
                    }
                }
            } else {
                proof {
                    assert(if_Aggregate_9(ks, start, gm1, pre9) == p.st()) by {
                        reveal_with_fuel(if_Aggregate_9, 1);
                    }
                }
            }
            proof {
                assert(call_ok(ks, start, p.st(), rank_Expression(peek_at(ks, p.st().pos)), rank_Aggregate(peek_at(ks, start)))) by {
                    reveal(Parser::st);
                    assert(peek_at(ks, start) == co.peek());
                    assert(peek_at(ks, p.pos as int) == p.peek());
                }
            }
            parse_Expression(p);
            let ghost pre10 = p.st();
            if p.at_any(&[SyntaxKind::Semicolon]) {
                p.expect(SyntaxKind::Semicolon);
                p.expect(SyntaxKind::SEPARATOR);
                p.expect(SyntaxKind::Equals);
                parse_String(p);
                proof {
                    assert(if_Aggregate_10(ks, start, gm1, pre10) == p.st()) by {
                        reveal_with_fuel(if_Aggregate_10, 1);
                    }
                }
            } else {
                proof {
                    assert(if_Aggregate_10(ks, start, gm1, pre10) == p.st()) by {
                        reveal_with_fuel(if_Aggregate_10, 1);
                    }
                }
            }
            p.expect(SyntaxKind::RParen);
            proof {
                assert(match_Aggregate_1(ks, start, gm1, pre1) == (p.st(), false)) by {
                    reveal_with_fuel(match_Aggregate_1, 1); reveal_with_fuel(if_Aggregate_10, 1); reveal_with_fuel(if_Aggregate_9, 1); reveal_with_fuel(rule_Expression, 1);
                }
            }
        },
        _ => {
            proof {
                assert(false);
            }
        },
    }
    false
}


pub open spec fn rank_SubstringExpression(t: SyntaxKind) -> nat {
    match t {
        SyntaxKind::LParen | SyntaxKind::SUBSTR => 0,
        SyntaxKind::ABS | SyntaxKind::BNODE | SyntaxKind::BOUND | SyntaxKind::CEIL | SyntaxKind::COALESCE | SyntaxKind::CONCAT | SyntaxKind::CONTAINS | SyntaxKind::DATATYPE | SyntaxKind::DAY | SyntaxKind::DoubleLessLParen | SyntaxKind::ENCODE_FOR_URI | SyntaxKind::FLOOR | SyntaxKind::False | SyntaxKind::HOURS | SyntaxKind::IF | SyntaxKind::IRI | SyntaxKind::LANG | SyntaxKind::LANGDIR | SyntaxKind::LANGMATCHES | SyntaxKind::LCASE | SyntaxKind::MD5 | SyntaxKind::MINUTES | SyntaxKind::MONTH | SyntaxKind::NOW | SyntaxKind::OBJECT | SyntaxKind::PREDICATE | SyntaxKind::RAND | SyntaxKind::ROUND | SyntaxKind::SECONDS | SyntaxKind::SHA1 | SyntaxKind::SHA256 | SyntaxKind::SHA384 | SyntaxKind::SHA512 | SyntaxKind::STR | SyntaxKind::STRAFTER | SyntaxKind::STRBEFORE | SyntaxKind::STRDT | SyntaxKind::STRENDS | SyntaxKind::STRLANG | SyntaxKind::STRLANGDIR | SyntaxKind::STRLEN | SyntaxKind::STRSTARTS | SyntaxKind::STRUUID | SyntaxKind::SUBJECT | SyntaxKind::TIMEZONE | SyntaxKind::TRIPLE | SyntaxKind::TZ | SyntaxKind::True | SyntaxKind::UCASE | SyntaxKind::URI | SyntaxKind::UUID | SyntaxKind::VAR1 | SyntaxKind::VAR2 | SyntaxKind::YEAR | SyntaxKind::hasLANG | SyntaxKind::hasLANGDIR | SyntaxKind::isBLANK | SyntaxKind::isIRI | SyntaxKind::isLITERAL | SyntaxKind::isNUMERIC | SyntaxKind::isTRIPLE | SyntaxKind::isURI | SyntaxKind::sameTerm => 11,
        SyntaxKind::AVG | SyntaxKind::COUNT | SyntaxKind::DECIMAL | SyntaxKind::DECIMAL_NEGATIVE | SyntaxKind::DECIMAL_POSITIVE | SyntaxKind::DOUBLE | SyntaxKind::DOUBLE_NEGATIVE | SyntaxKind::DOUBLE_POSITIVE | SyntaxKind::EXISTS | SyntaxKind::GROUP_CONCAT | SyntaxKind::INTEGER | SyntaxKind::INTEGER_NEGATIVE | SyntaxKind::INTEGER_POSITIVE | SyntaxKind::IRIREF | SyntaxKind::MAX | SyntaxKind::MIN | SyntaxKind::NOT | SyntaxKind::REGEX | SyntaxKind::REPLACE | SyntaxKind::SAMPLE | SyntaxKind::STRING_LITERAL1 | SyntaxKind::STRING_LITERAL2 | SyntaxKind::STRING_LITERAL_LONG1 | SyntaxKind::STRING_LITERAL_LONG2 | SyntaxKind::SUM => 12,
        SyntaxKind::PNAME_LN | SyntaxKind::PNAME_NS => 13,
        _ => 9,
    }
}

/// What [`parse_SubstringExpression`] makes of the parser state.
#[verifier::opaque]
pub open spec fn rule_SubstringExpression(ts: Seq<SyntaxKind>, s: St) -> St
    decreases ts.len() - s.pos, rank_SubstringExpression(peek_at(ts, s.pos)), 32 * (ts.len() - s.pos) + 32,
{
    let start = s.pos;
    let s_in = s;
    let m_marker = s.evs.len() as int;
    let s = st_open(s);
    let s = st_expect(ts, s, SyntaxKind::SUBSTR);
    let s = st_expect(ts, s, SyntaxKind::LParen);
    let s = if call_ok(ts, start, s, rank_Expression(peek_at(ts, s.pos)), rank_SubstringExpression(peek_at(ts, start))) {
        rule_Expression(ts, s)
    } else {
        s
    };
    let s = st_expect(ts, s, SyntaxKind::Comma);
    let s = if call_ok(ts, start, s, rank_Expression(peek_at(ts, s.pos)), rank_SubstringExpression(peek_at(ts, start))) {
        rule_Expression(ts, s)
    } else {
        s
    };
    let s = if s_in.pos <= s.pos <= ts.len() {
        if_SubstringExpression_1(ts, start, m_marker, s)
    } else {
        s
    };
    let s = st_expect(ts, s, SyntaxKind::RParen);
    let s = st_close(s, m_marker, SyntaxKind::SubstringExpression);
    s
}

#[verifier::opaque]
pub open spec fn if_SubstringExpression_1(ts: Seq<SyntaxKind>, start: int, m_marker: int, s: St) -> St
    decreases ts.len() - start, rank_SubstringExpression(peek_at(ts, start)), 32 * (ts.len() - s.pos) + 32 - 1,
{
    let s_in = s;
    if (peek_at(ts, s.pos) == SyntaxKind::Comma) {
        let s = st_expect(ts, s, SyntaxKind::Comma);
        let s = if call_ok(ts, start, s, rank_Expression(peek_at(ts, s.pos)), rank_SubstringExpression(peek_at(ts, start))) {
            rule_Expression(ts, s)
        } else {
            s
        };
        s
    } else {
        s
    }
}

/// [150] SubstringExpression -> 'SUBSTR' '(' Expression ',' Expression (',' Expression)? ')'
pub(crate) fn parse_SubstringExpression(p: &mut Parser)
    requires
        old(p).wf(),
    ensures
        Parser::step(*old(p), *final(p)),
        final(p).pos == old(p).pos ==> is_sync_point(old(p).peek()),
        old(p).events@.len() < final(p).events@.len(),
        final(p).events@[old(p).events@.len() as int] == (Event::Open { kind: SyntaxKind::SubstringExpression }),
        final(p).events@.last() is Close,
        final(p).st() == rule_SubstringExpression(old(p).kinds(), old(p).st()),
    decreases old(p).remaining(), rank_SubstringExpression(old(p).peek()), 1int,
{
    let ghost ks = p.kinds();
    let ghost s0 = p.st();
    let ghost start = p.pos as int;
    let marker = p.open();
    let ghost gm1 = marker.index as int;
    p.expect(SyntaxKind::SUBSTR);
    p.expect(SyntaxKind::LParen);
    proof {
        assert(call_ok(ks, start, p.st(), rank_Expression(peek_at(ks, p.st().pos)), rank_SubstringExpression(peek_at(ks, start)))) by {
            reveal(Parser::st);
            assert(peek_at(ks, start) == old(p).peek());
            assert(peek_at(ks, p.pos as int) == p.peek());
        }
    }
    parse_Expression(p);
    p.expect(SyntaxKind::Comma);
    proof {
        assert(call_ok(ks, start, p.st(), rank_Expression(peek_at(ks, p.st().pos)), rank_SubstringExpression(peek_at(ks, start)))) by {
            reveal(Parser::st);
            assert(peek_at(ks, start) == old(p).peek());
            assert(peek_at(ks, p.pos as int) == p.peek());
        }
    }
    parse_Expression(p);
    let ghost pre1 = p.st();
    if p.at_any(&[SyntaxKind::Comma]) {
        p.expect(SyntaxKind::Comma);
        proof {
            assert(call_ok(ks, start, p.st(), rank_Expression(peek_at(ks, p.st().pos)), rank_SubstringExpression(peek_at(ks, start)))) by {
                reveal(Parser::st);
                assert(peek_at(ks, start) == old(p).peek());
                assert(peek_at(ks, p.pos as int) == p.peek());
            }
        }
        parse_Expression(p);
        proof {
            assert(if_SubstringExpression_1(ks, start, gm1, pre1) == p.st()) by {
                reveal_with_fuel(if_SubstringExpression_1, 1); reveal_with_fuel(rule_Expression, 1);
            }
        }
    } else {
        proof {
            assert(if_SubstringExpression_1(ks, start, gm1, pre1) == p.st()) by {
                reveal_with_fuel(if_SubstringExpression_1, 1);
            }
        }
    }
    p.expect(SyntaxKind::RParen);
    p.close(marker, SyntaxKind::SubstringExpression);
    proof {
        assert(rule_SubstringExpression(ks, s0) == p.st()) by {
            reveal_with_fuel(rule_SubstringExpression, 1); reveal_with_fuel(if_SubstringExpression_1, 1); reveal_with_fuel(rule_Expression, 1);
        }
    }
}

pub open spec fn rank_StrReplaceExpression(t: SyntaxKind) -> nat {
    match t {
        SyntaxKind::LParen | SyntaxKind::REPLACE => 0,
        SyntaxKind::ABS | SyntaxKind::BNODE | SyntaxKind::BOUND | SyntaxKind::CEIL | SyntaxKind::COALESCE | SyntaxKind::CONCAT | SyntaxKind::CONTAINS | SyntaxKind::DATATYPE | SyntaxKind::DAY | SyntaxKind::DoubleLessLParen | SyntaxKind::ENCODE_FOR_URI | SyntaxKind::FLOOR | SyntaxKind::False | SyntaxKind::HOURS | SyntaxKind::IF | SyntaxKind::IRI | SyntaxKind::LANG | SyntaxKind::LANGDIR | SyntaxKind::LANGMATCHES | SyntaxKind::LCASE | SyntaxKind::MD5 | SyntaxKind::MINUTES | SyntaxKind::MONTH | SyntaxKind::NOW | SyntaxKind::OBJECT | SyntaxKind::PREDICATE | SyntaxKind::RAND | SyntaxKind::ROUND | SyntaxKind::SECONDS | SyntaxKind::SHA1 | SyntaxKind::SHA256 | SyntaxKind::SHA384 | SyntaxKind::SHA512 | SyntaxKind::STR | SyntaxKind::STRAFTER | SyntaxKind::STRBEFORE | SyntaxKind::STRDT | SyntaxKind::STRENDS | SyntaxKind::STRLANG | SyntaxKind::STRLANGDIR | SyntaxKind::STRLEN | SyntaxKind::STRSTARTS | SyntaxKind::STRUUID | SyntaxKind::SUBJECT | SyntaxKind::TIMEZONE | SyntaxKind::TRIPLE | SyntaxKind::TZ | SyntaxKind::True | SyntaxKind::UCASE | SyntaxKind::URI | SyntaxKind::UUID | SyntaxKind::VAR1 | SyntaxKind::VAR2 | SyntaxKind::YEAR | SyntaxKind::hasLANG | SyntaxKind::hasLANGDIR | SyntaxKind::isBLANK | SyntaxKind::isIRI | SyntaxKind::isLITERAL | SyntaxKind::isNUMERIC | SyntaxKind::isTRIPLE | SyntaxKind::isURI | SyntaxKind::sameTerm => 11,
        SyntaxKind::AVG | SyntaxKind::COUNT | SyntaxKind::DECIMAL | SyntaxKind::DECIMAL_NEGATIVE | SyntaxKind::DECIMAL_POSITIVE | SyntaxKind::DOUBLE | SyntaxKind::DOUBLE_NEGATIVE | SyntaxKind::DOUBLE_POSITIVE | SyntaxKind::EXISTS | SyntaxKind::GROUP_CONCAT | SyntaxKind::INTEGER | SyntaxKind::INTEGER_NEGATIVE | SyntaxKind::INTEGER_POSITIVE | SyntaxKind::IRIREF | SyntaxKind::MAX | SyntaxKind::MIN | SyntaxKind::NOT | SyntaxKind::REGEX | SyntaxKind::SAMPLE | SyntaxKind::STRING_LITERAL1 | SyntaxKind::STRING_LITERAL2 | SyntaxKind::STRING_LITERAL_LONG1 | SyntaxKind::STRING_LITERAL_LONG2 | SyntaxKind::SUBSTR | SyntaxKind::SUM => 12,
        SyntaxKind::PNAME_LN | SyntaxKind::PNAME_NS => 13,
        _ => 9,
    }
}

/// What [`parse_StrReplaceExpression`] makes of the parser state.
#[verifier::opaque]
pub open spec fn rule_StrReplaceExpression(ts: Seq<SyntaxKind>, s: St) -> St
    decreases ts.len() - s.pos, rank_StrReplaceExpression(peek_at(ts, s.pos)), 32 * (ts.len() - s.pos) + 32,
{
    let start = s.pos;
    let s_in = s;
    let m_marker = s.evs.len() as int;
    let s = st_open(s);
    let s = st_expect(ts, s, SyntaxKind::REPLACE);
    let s = st_expect(ts, s, SyntaxKind::LParen);
    let s = if call_ok(ts, start, s, rank_Expression(peek_at(ts, s.pos)), rank_StrReplaceExpression(peek_at(ts, start))) {
        rule_Expression(ts, s)
    } else {
        s
    };
    let s = st_expect(ts, s, SyntaxKind::Comma);
    let s = if call_ok(ts, start, s, rank_Expression(peek_at(ts, s.pos)), rank_StrReplaceExpression(peek_at(ts, start))) {
        rule_Expression(ts, s)
    } else {
        s
    };
    let s = st_expect(ts, s, SyntaxKind::Comma);
    let s = if call_ok(ts, start, s, rank_Expression(peek_at(ts, s.pos)), rank_StrReplaceExpression(peek_at(ts, start))) {
        rule_Expression(ts, s)
    } else {
        s
    };
    let s = if s_in.pos <= s.pos <= ts.len() {
        if_StrReplaceExpression_1(ts, start, m_marker, s)
    } else {
        s
    };
    let s = st_expect(ts, s, SyntaxKind::RParen);
    let s = st_close(s, m_marker, SyntaxKind::StrReplaceExpression);
    s
}

#[verifier::opaque]
pub open spec fn if_StrReplaceExpression_1(ts: Seq<SyntaxKind>, start: int, m_marker: int, s: St) -> St
    decreases ts.len() - start, rank_StrReplaceExpression(peek_at(ts, start)), 32 * (ts.len() - s.pos) + 32 - 1,
{
    let s_in = s;
    if (peek_at(ts, s.pos) == SyntaxKind::Comma) {
        let s = st_expect(ts, s, SyntaxKind::Comma);
        let s = if call_ok(ts, start, s, rank_Expression(peek_at(ts, s.pos)), rank_StrReplaceExpression(peek_at(ts, start))) {
            rule_Expression(ts, s)
        } else {
            s
        };
        s
    } else {
        s
    }
}

/// [151] StrReplaceExpression -> 'REPLACE' '(' Expression ',' Expression ',' Expression (',' Expression)? ')'
pub(crate) fn parse_StrReplaceExpression(p: &mut Parser)
    requires
        old(p).wf(),
    ensures
        Parser::step(*old(p), *final(p)),
        final(p).pos == old(p).pos ==> is_sync_point(old(p).peek()),
        old(p).events@.len() < final(p).events@.len(),
        final(p).events@[old(p).events@.len() as int] == (Event::Open { kind: SyntaxKind::StrReplaceExpression }),
        final(p).events@.last() is Close,
        final(p).st() == rule_StrReplaceExpression(old(p).kinds(), old(p).st()),
    decreases old(p).remaining(), rank_StrReplaceExpression(old(p).peek()), 1int,
{
    let ghost ks = p.kinds();
    let ghost s0 = p.st();
    let ghost start = p.pos as int;
    let marker = p.open();
    let ghost gm1 = marker.index as int;
    p.expect(SyntaxKind::REPLACE);
    p.expect(SyntaxKind::LParen);
    proof {
        assert(call_ok(ks, start, p.st(), rank_Expression(peek_at(ks, p.st().pos)), rank_StrReplaceExpression(peek_at(ks, start)))) by {
            reveal(Parser::st);
            assert(peek_at(ks, start) == old(p).peek());
            assert(peek_at(ks, p.pos as int) == p.peek());
        }
    }
    parse_Expression(p);
    p.expect(SyntaxKind::Comma);
    proof {
        assert(call_ok(ks, start, p.st(), rank_Expression(peek_at(ks, p.st().pos)), rank_StrReplaceExpression(peek_at(ks, start)))) by {
            reveal(Parser::st);
            assert(peek_at(ks, start) == old(p).peek());
            assert(peek_at(ks, p.pos as int) == p.peek());
        }
    }
    parse_Expression(p);
    p.expect(SyntaxKind::Comma);
    proof {
        assert(call_ok(ks, start, p.st(), rank_Expression(peek_at(ks, p.st().pos)), rank_StrReplaceExpression(peek_at(ks, start)))) by {
            reveal(Parser::st);
            assert(peek_at(ks, start) == old(p).peek());
            assert(peek_at(ks, p.pos as int) == p.peek());
        }
    }
    parse_Expression(p);
    let ghost pre1 = p.st();
    if p.at_any(&[SyntaxKind::Comma]) {
        p.expect(SyntaxKind::Comma);
        proof {
            assert(call_ok(ks, start, p.st(), rank_Expression(peek_at(ks, p.st().pos)), rank_StrReplaceExpression(peek_at(ks, start)))) by {
                reveal(Parser::st);
                assert(peek_at(ks, start) == old(p).peek());
                assert(peek_at(ks, p.pos as int) == p.peek());
            }
        }
        parse_Expression(p);
        proof {
            assert(if_StrReplaceExpression_1(ks, start, gm1, pre1) == p.st()) by {
                reveal_with_fuel(if_StrReplaceExpression_1, 1); reveal_with_fuel(rule_Expression, 1);
            }
        }
    } else {
        proof {
            assert(if_StrReplaceExpression_1(ks, start, gm1, pre1) == p.st()) by {
                reveal_with_fuel(if_StrReplaceExpression_1, 1);
            }
        }
    }
    p.expect(SyntaxKind::RParen);
    p.close(marker, SyntaxKind::StrReplaceExpression);
    proof {
        assert(rule_StrReplaceExpression(ks, s0) == p.st()) by {
            reveal_with_fuel(rule_StrReplaceExpression, 1); reveal_with_fuel(if_StrReplaceExpression_1, 1); reveal_with_fuel(rule_Expression, 1);
        }
    }
}

pub open spec fn rank_RegexExpression(t: SyntaxKind) -> nat {
    match t {
        SyntaxKind::LParen | SyntaxKind::REGEX => 0,
        SyntaxKind::ABS | SyntaxKind::BNODE | SyntaxKind::BOUND | SyntaxKind::CEIL | SyntaxKind::COALESCE | SyntaxKind::CONCAT | SyntaxKind::CONTAINS | SyntaxKind::DATATYPE | SyntaxKind::DAY | SyntaxKind::DoubleLessLParen | SyntaxKind::ENCODE_FOR_URI | SyntaxKind::FLOOR | SyntaxKind::False | SyntaxKind::HOURS | SyntaxKind::IF | SyntaxKind::IRI | SyntaxKind::LANG | SyntaxKind::LANGDIR | SyntaxKind::LANGMATCHES | SyntaxKind::LCASE | SyntaxKind::MD5 | SyntaxKind::MINUTES | SyntaxKind::MONTH | SyntaxKind::NOW | SyntaxKind::OBJECT | SyntaxKind::PREDICATE | SyntaxKind::RAND | SyntaxKind::ROUND | SyntaxKind::SECONDS | SyntaxKind::SHA1 | SyntaxKind::SHA256 | SyntaxKind::SHA384 | SyntaxKind::SHA512 | SyntaxKind::STR | SyntaxKind::STRAFTER | SyntaxKind::STRBEFORE | SyntaxKind::STRDT | SyntaxKind::STRENDS | SyntaxKind::STRLANG | SyntaxKind::STRLANGDIR | SyntaxKind::STRLEN | SyntaxKind::STRSTARTS | SyntaxKind::STRUUID | SyntaxKind::SUBJECT | SyntaxKind::TIMEZONE | SyntaxKind::TRIPLE | SyntaxKind::TZ | SyntaxKind::True | SyntaxKind::UCASE | SyntaxKind::URI | SyntaxKind::UUID | SyntaxKind::VAR1 | SyntaxKind::VAR2 | SyntaxKind::YEAR | SyntaxKind::hasLANG | SyntaxKind::hasLANGDIR | SyntaxKind::isBLANK | SyntaxKind::isIRI | SyntaxKind::isLITERAL | SyntaxKind::isNUMERIC | SyntaxKind::isTRIPLE | SyntaxKind::isURI | SyntaxKind::sameTerm => 11,
        SyntaxKind::AVG | SyntaxKind::COUNT | SyntaxKind::DECIMAL | SyntaxKind::DECIMAL_NEGATIVE | SyntaxKind::DECIMAL_POSITIVE | SyntaxKind::DOUBLE | SyntaxKind::DOUBLE_NEGATIVE | SyntaxKind::DOUBLE_POSITIVE | SyntaxKind::EXISTS | SyntaxKind::GROUP_CONCAT | SyntaxKind::INTEGER | SyntaxKind::INTEGER_NEGATIVE | SyntaxKind::INTEGER_POSITIVE | SyntaxKind::IRIREF | SyntaxKind::MAX | SyntaxKind::MIN | SyntaxKind::NOT | SyntaxKind::REPLACE | SyntaxKind::SAMPLE | SyntaxKind::STRING_LITERAL1 | SyntaxKind::STRING_LITERAL2 | SyntaxKind::STRING_LITERAL_LONG1 | SyntaxKind::STRING_LITERAL_LONG2 | SyntaxKind::SUBSTR | SyntaxKind::SUM => 12,
        SyntaxKind::PNAME_LN | SyntaxKind::PNAME_NS => 13,
        _ => 9,
    }
}

/// What [`parse_RegexExpression`] makes of the parser state.
#[verifier::opaque]
pub open spec fn rule_RegexExpression(ts: Seq<SyntaxKind>, s: St) -> St
    decreases ts.len() - s.pos, rank_RegexExpression(peek_at(ts, s.pos)), 32 * (ts.len() - s.pos) + 32,
{
    let start = s.pos;
    let s_in = s;
    let m_marker = s.evs.len() as int;
    let s = st_open(s);
    let s = st_expect(ts, s, SyntaxKind::REGEX);
    let s = st_expect(ts, s, SyntaxKind::LParen);
    let s = if call_ok(ts, start, s, rank_Expression(peek_at(ts, s.pos)), rank_RegexExpression(peek_at(ts, start))) {
        rule_Expression(ts, s)
    } else {
        s
    };
    let s = st_expect(ts, s, SyntaxKind::Comma);
    let s = if call_ok(ts, start, s, rank_Expression(peek_at(ts, s.pos)), rank_RegexExpression(peek_at(ts, start))) {
        rule_Expression(ts, s)
    } else {
        s
    };
    let s = if s_in.pos <= s.pos <= ts.len() {
        if_RegexExpression_1(ts, start, m_marker, s)
    } else {
        s
    };
    let s = st_expect(ts, s, SyntaxKind::RParen);
    let s = st_close(s, m_marker, SyntaxKind::RegexExpression);
    s
}

#[verifier::opaque]
pub open spec fn if_RegexExpression_1(ts: Seq<SyntaxKind>, start: int, m_marker: int, s: St) -> St
    decreases ts.len() - start, rank_RegexExpression(peek_at(ts, start)), 32 * (ts.len() - s.pos) + 32 - 1,
{
    let s_in = s;
    if (peek_at(ts, s.pos) == SyntaxKind::Comma) {
        let s = st_expect(ts, s, SyntaxKind::Comma);
        let s = if call_ok(ts, start, s, rank_Expression(peek_at(ts, s.pos)), rank_RegexExpression(peek_at(ts, start))) {
            rule_Expression(ts, s)
        } else {
            s
        };
        s
    } else {
        s
    }
}

/// [152] RegexExpression -> 'REGEX' '(' Expression ',' Expression (',' Expression)? ')'
pub(crate) fn parse_RegexExpression(p: &mut Parser)
    requires
        old(p).wf(),
    ensures
        Parser::step(*old(p), *final(p)),
        final(p).pos == old(p).pos ==> is_sync_point(old(p).peek()),
        old(p).events@.len() < final(p).events@.len(),
        final(p).events@[old(p).events@.len() as int] == (Event::Open { kind: SyntaxKind::RegexExpression }),
        final(p).events@.last() is Close,
        final(p).st() == rule_RegexExpression(old(p).kinds(), old(p).st()),
    decreases old(p).remaining(), rank_RegexExpression(old(p).peek()), 1int,
{
    let ghost ks = p.kinds();
    let ghost s0 = p.st();
    let ghost start = p.pos as int;
    let marker = p.open();
    let ghost gm1 = marker.index as int;
    p.expect(SyntaxKind::REGEX);
    p.expect(SyntaxKind::LParen);
    proof {
        assert(call_ok(ks, start, p.st(), rank_Expression(peek_at(ks, p.st().pos)), rank_RegexExpression(peek_at(ks, start)))) by {
            reveal(Parser::st);
            assert(peek_at(ks, start) == old(p).peek());
            assert(peek_at(ks, p.pos as int) == p.peek());
        }
    }
    parse_Expression(p);
    p.expect(SyntaxKind::Comma);
    proof {
        assert(call_ok(ks, start, p.st(), rank_Expression(peek_at(ks, p.st().pos)), rank_RegexExpression(peek_at(ks, start)))) by {
            reveal(Parser::st);
            assert(peek_at(ks, start) == old(p).peek());
            assert(peek_at(ks, p.pos as int) == p.peek());
        }
    }
    parse_Expression(p);
    let ghost pre1 = p.st();
    if p.at_any(&[SyntaxKind::Comma]) {
        p.expect(SyntaxKind::Comma);
        proof {
            assert(call_ok(ks, start, p.st(), rank_Expression(peek_at(ks, p.st().pos)), rank_RegexExpression(peek_at(ks, start)))) by {
                reveal(Parser::st);
                assert(peek_at(ks, start) == old(p).peek());
                assert(peek_at(ks, p.pos as int) == p.peek());
            }
        }
        parse_Expression(p);
        proof {
            assert(if_RegexExpression_1(ks, start, gm1, pre1) == p.st()) by {
                reveal_with_fuel(if_RegexExpression_1, 1); reveal_with_fuel(rule_Expression, 1);
            }
        }
    } else {
        proof {
            assert(if_RegexExpression_1(ks, start, gm1, pre1) == p.st()) by {
                reveal_with_fuel(if_RegexExpression_1, 1);
            }
        }
    }
    p.expect(SyntaxKind::RParen);
    p.close(marker, SyntaxKind::RegexExpression);
    proof {
        assert(rule_RegexExpression(ks, s0) == p.st()) by {
            reveal_with_fuel(rule_RegexExpression, 1); reveal_with_fuel(if_RegexExpression_1, 1); reveal_with_fuel(rule_Expression, 1);
        }
    }
}

pub open spec fn rank_ExistsFunc(t: SyntaxKind) -> nat {
    match t {
        SyntaxKind::EXISTS => 0,
        SyntaxKind::SELECT => 3,
        SyntaxKind::BIND | SyntaxKind::FILTER | SyntaxKind::GRAPH | SyntaxKind::MINUS | SyntaxKind::OPTIONAL | SyntaxKind::SERVICE | SyntaxKind::VALUES => 4,
        SyntaxKind::NIL => 5,
        SyntaxKind::ANON | SyntaxKind::BLANK_NODE_LABEL | SyntaxKind::DoubleLess | SyntaxKind::DoubleLessLParen | SyntaxKind::False | SyntaxKind::IRIREF | SyntaxKind::LBrack | SyntaxKind::LParen | SyntaxKind::True | SyntaxKind::VAR1 | SyntaxKind::VAR2 => 6,
        SyntaxKind::DECIMAL | SyntaxKind::DECIMAL_NEGATIVE | SyntaxKind::DECIMAL_POSITIVE | SyntaxKind::DOUBLE | SyntaxKind::DOUBLE_NEGATIVE | SyntaxKind::DOUBLE_POSITIVE | SyntaxKind::INTEGER | SyntaxKind::INTEGER_NEGATIVE | SyntaxKind::INTEGER_POSITIVE | SyntaxKind::PNAME_LN | SyntaxKind::PNAME_NS | SyntaxKind::STRING_LITERAL1 | SyntaxKind::STRING_LITERAL2 | SyntaxKind::STRING_LITERAL_LONG1 | SyntaxKind::STRING_LITERAL_LONG2 => 7,
        _ => 1,
    }
}

/// What [`parse_ExistsFunc`] makes of the parser state.
#[verifier::opaque]
pub open spec fn rule_ExistsFunc(ts: Seq<SyntaxKind>, s: St) -> St
    decreases ts.len() - s.pos, rank_ExistsFunc(peek_at(ts, s.pos)), 32 * (ts.len() - s.pos) + 32,
{
    let start = s.pos;
    let s_in = s;
    let m_marker = s.evs.len() as int;
    let s = st_open(s);
    let s = st_expect(ts, s, SyntaxKind::EXISTS);
    let s = if call_ok(ts, start, s, rank_GroupGraphPattern(peek_at(ts, s.pos)), rank_ExistsFunc(peek_at(ts, start))) {
        rule_GroupGraphPattern(ts, s)
    } else {
        s
    };
    let s = st_close(s, m_marker, SyntaxKind::ExistsFunc);
    s
}


/// [153] ExistsFunc -> 'EXISTS' GroupGraphPattern
pub(crate) fn parse_ExistsFunc(p: &mut Parser)
    requires
        old(p).wf(),
    ensures
        Parser::step(*old(p), *final(p)),
        final(p).pos == old(p).pos ==> (old(p).peek() == SyntaxKind::Eof),
        old(p).events@.len() < final(p).events@.len(),
        final(p).events@[old(p).events@.len() as int] == (Event::Open { kind: SyntaxKind::ExistsFunc }),
        final(p).events@.last() is Close,
        final(p).st() == rule_ExistsFunc(old(p).kinds(), old(p).st()),
    decreases old(p).remaining(), rank_ExistsFunc(old(p).peek()), 1int,
{
    let ghost ks = p.kinds();
    let ghost s0 = p.st();
    let ghost start = p.pos as int;
    let marker = p.open();
    let ghost gm1 = marker.index as int;
    p.expect(SyntaxKind::EXISTS);
    proof {
        assert(call_ok(ks, start, p.st(), rank_GroupGraphPattern(peek_at(ks, p.st().pos)), rank_ExistsFunc(peek_at(ks, start)))) by {
            reveal(Parser::st);
            assert(peek_at(ks, start) == old(p).peek());
            assert(peek_at(ks, p.pos as int) == p.peek());
        }
    }
    parse_GroupGraphPattern(p);
    p.close(marker, SyntaxKind::ExistsFunc);
    proof {
        assert(rule_ExistsFunc(ks, s0) == p.st()) by {
            reveal_with_fuel(rule_ExistsFunc, 1); reveal_with_fuel(rule_GroupGraphPattern, 1);
        }
    }
}

pub open spec fn rank_NotExistsFunc(t: SyntaxKind) -> nat {
    match t {
        SyntaxKind::EXISTS | SyntaxKind::NOT => 0,
        SyntaxKind::SELECT => 3,
        SyntaxKind::BIND | SyntaxKind::FILTER | SyntaxKind::GRAPH | SyntaxKind::MINUS | SyntaxKind::OPTIONAL | SyntaxKind::SERVICE | SyntaxKind::VALUES => 4,
        SyntaxKind::NIL => 5,
        SyntaxKind::ANON | SyntaxKind::BLANK_NODE_LABEL | SyntaxKind::DoubleLess | SyntaxKind::DoubleLessLParen | SyntaxKind::False | SyntaxKind::IRIREF | SyntaxKind::LBrack | SyntaxKind::LParen | SyntaxKind::True | SyntaxKind::VAR1 | SyntaxKind::VAR2 => 6,
        SyntaxKind::DECIMAL | SyntaxKind::DECIMAL_NEGATIVE | SyntaxKind::DECIMAL_POSITIVE | SyntaxKind::DOUBLE | SyntaxKind::DOUBLE_NEGATIVE | SyntaxKind::DOUBLE_POSITIVE | SyntaxKind::INTEGER | SyntaxKind::INTEGER_NEGATIVE | SyntaxKind::INTEGER_POSITIVE | SyntaxKind::PNAME_LN | SyntaxKind::PNAME_NS | SyntaxKind::STRING_LITERAL1 | SyntaxKind::STRING_LITERAL2 | SyntaxKind::STRING_LITERAL_LONG1 | SyntaxKind::STRING_LITERAL_LONG2 => 7,
        _ => 1,
    }
}

/// What [`parse_NotExistsFunc`] makes of the parser state.
#[verifier::opaque]
pub open spec fn rule_NotExistsFunc(ts: Seq<SyntaxKind>, s: St) -> St
    decreases ts.len() - s.pos, rank_NotExistsFunc(peek_at(ts, s.pos)), 32 * (ts.len() - s.pos) + 32,
{
    let start = s.pos;
    let s_in = s;
    let m_marker = s.evs.len() as int;
    let s = st_open(s);
    let s = st_expect(ts, s, SyntaxKind::NOT);
    let s = st_expect(ts, s, SyntaxKind::EXISTS);
    let s = if call_ok(ts, start, s, rank_GroupGraphPattern(peek_at(ts, s.pos)), rank_NotExistsFunc(peek_at(ts, start))) {
        rule_GroupGraphPattern(ts, s)
    } else {
        s
    };
    let s = st_close(s, m_marker, SyntaxKind::NotExistsFunc);
    s
}


/// [154] NotExistsFunc -> 'NOT' 'EXISTS' GroupGraphPattern
pub(crate) fn parse_NotExistsFunc(p: &mut Parser)
    requires
        old(p).wf(),
    ensures
        Parser::step(*old(p), *final(p)),
        final(p).pos == old(p).pos ==> (old(p).peek() == SyntaxKind::Eof),
        old(p).events@.len() < final(p).events@.len(),
        final(p).events@[old(p).events@.len() as int] == (Event::Open { kind: SyntaxKind::NotExistsFunc }),
        final(p).events@.last() is Close,
        final(p).st() == rule_NotExistsFunc(old(p).kinds(), old(p).st()),
    decreases old(p).remaining(), rank_NotExistsFunc(old(p).peek()), 1int,
{
    let ghost ks = p.kinds();
    let ghost s0 = p.st();
    let ghost start = p.pos as int;
    let marker = p.open();
    let ghost gm1 = marker.index as int;
    p.expect(SyntaxKind::NOT);
    p.expect(SyntaxKind::EXISTS);
    proof {
        assert(call_ok(ks, start, p.st(), rank_GroupGraphPattern(peek_at(ks, p.st().pos)), rank_NotExistsFunc(peek_at(ks, start)))) by {
            reveal(Parser::st);
            assert(peek_at(ks, start) == old(p).peek());
            assert(peek_at(ks, p.pos as int) == p.peek());
        }
    }
    parse_GroupGraphPattern(p);
    p.close(marker, SyntaxKind::NotExistsFunc);
    proof {
        assert(rule_NotExistsFunc(ks, s0) == p.st()) by {
            reveal_with_fuel(rule_NotExistsFunc, 1); reveal_with_fuel(rule_GroupGraphPattern, 1);
        }
    }
}

pub open spec fn rank_String(t: SyntaxKind) -> nat {
    0
}

/// What [`parse_String`] makes of the parser state.
#[verifier::opaque]
pub open spec fn rule_String(ts: Seq<SyntaxKind>, s: St) -> St {
    let m_marker = s.evs.len() as int;
    let s = st_open(s);
    if (peek_at(ts, s.pos) == SyntaxKind::STRING_LITERAL1) {
        let s = st_expect(ts, s, SyntaxKind::STRING_LITERAL1);
        let s = st_close(s, m_marker, SyntaxKind::String);
        s
    } else if (peek_at(ts, s.pos) == SyntaxKind::STRING_LITERAL2) {
        let s = st_expect(ts, s, SyntaxKind::STRING_LITERAL2);
        let s = st_close(s, m_marker, SyntaxKind::String);
        s
    } else if (peek_at(ts, s.pos) == SyntaxKind::STRING_LITERAL_LONG1) {
        let s = st_expect(ts, s, SyntaxKind::STRING_LITERAL_LONG1);
        let s = st_close(s, m_marker, SyntaxKind::String);
        s
    } else if (peek_at(ts, s.pos) == SyntaxKind::STRING_LITERAL_LONG2) {
        let s = st_expect(ts, s, SyntaxKind::STRING_LITERAL_LONG2);
        let s = st_close(s, m_marker, SyntaxKind::String);
        s
    } else if (peek_at(ts, s.pos) == SyntaxKind::Eof) {
        let s = st_close(s, m_marker, SyntaxKind::String);
        let m_marker = s.evs.len() as int;
        let s = st_open(s);
        let s = st_close(s, m_marker, SyntaxKind::Error);
        s
    } else {
        let s = st_advance_with_error(ts, s, seq![SyntaxKind::STRING_LITERAL1, SyntaxKind::STRING_LITERAL2, SyntaxKind::STRING_LITERAL_LONG1, SyntaxKind::STRING_LITERAL_LONG2]);
        let s = st_close(s, m_marker, SyntaxKind::String);
        s
    }
}

/// [155] String -> 'STRING_LITERAL1' | 'STRING_LITERAL2' | 'STRING_LITERAL_LONG1' | 'STRING_LITERAL_LONG2'
pub(crate) fn parse_String(p: &mut Parser)
    requires
        old(p).wf(),
    ensures
        Parser::step(*old(p), *final(p)),
        final(p).pos == old(p).pos ==> is_sync_point(old(p).peek()),
        old(p).events@.len() < final(p).events@.len(),
        final(p).events@[old(p).events@.len() as int] == (Event::Open { kind: SyntaxKind::String }),
        final(p).events@.last() is Close,
        final(p).st() == rule_String(old(p).kinds(), old(p).st()),
    decreases old(p).remaining(), rank_String(old(p).peek()), 1int,
{
    let ghost ks = p.kinds();
    let ghost s0 = p.st();
    let marker = p.open();
    match p.nth(0) {
        SyntaxKind::STRING_LITERAL1 => {
            p.expect(SyntaxKind::STRING_LITERAL1);
        },
        SyntaxKind::STRING_LITERAL2 => {
            p.expect(SyntaxKind::STRING_LITERAL2);
        },
        SyntaxKind::STRING_LITERAL_LONG1 => {
            p.expect(SyntaxKind::STRING_LITERAL_LONG1);
        },
        SyntaxKind::STRING_LITERAL_LONG2 => {
            p.expect(SyntaxKind::STRING_LITERAL_LONG2);
        },
        SyntaxKind::Eof => {
            p.close(marker, SyntaxKind::String);
            let marker = p.open();
            p.close(marker, SyntaxKind::Error);
            proof {
                assert(p.st() == rule_String(ks, s0)) by {
                    reveal(rule_String);
                    reveal(Parser::st);
                }
            }
            return ;
        },
        _ => {
            p.advance_with_error(vec![SyntaxKind::STRING_LITERAL1, SyntaxKind::STRING_LITERAL2, SyntaxKind::STRING_LITERAL_LONG1, SyntaxKind::STRING_LITERAL_LONG2]);
        },
    }
    p.close(marker, SyntaxKind::String);
    proof {
        assert(p.st() == rule_String(ks, s0)) by {
            reveal(rule_String);
            reveal(Parser::st);
        }
    }
}

pub open spec fn rank_NumericLiteralUnsigned(t: SyntaxKind) -> nat {
    0
}

/// What [`parse_NumericLiteralUnsigned`] makes of the parser state.
#[verifier::opaque]
pub open spec fn rule_NumericLiteralUnsigned(ts: Seq<SyntaxKind>, s: St) -> St {
    let m_marker = s.evs.len() as int;
    let s = st_open(s);
    if (peek_at(ts, s.pos) == SyntaxKind::INTEGER) {
        let s = st_expect(ts, s, SyntaxKind::INTEGER);
        let s = st_close(s, m_marker, SyntaxKind::NumericLiteralUnsigned);
        s
    } else if (peek_at(ts, s.pos) == SyntaxKind::DECIMAL) {
        let s = st_expect(ts, s, SyntaxKind::DECIMAL);
        let s = st_close(s, m_marker, SyntaxKind::NumericLiteralUnsigned);
        s
    } else if (peek_at(ts, s.pos) == SyntaxKind::DOUBLE) {
        let s = st_expect(ts, s, SyntaxKind::DOUBLE);
        let s = st_close(s, m_marker, SyntaxKind::NumericLiteralUnsigned);
        s
    } else if (peek_at(ts, s.pos) == SyntaxKind::Eof) {
        let s = st_close(s, m_marker, SyntaxKind::NumericLiteralUnsigned);
        let m_marker = s.evs.len() as int;
        let s = st_open(s);
        let s = st_close(s, m_marker, SyntaxKind::Error);
        s
    } else {
        let s = st_advance_with_error(ts, s, seq![SyntaxKind::INTEGER, SyntaxKind::DECIMAL, SyntaxKind::DOUBLE]);
        let s = st_close(s, m_marker, SyntaxKind::NumericLiteralUnsigned);
        s
    }
}

/// [156] NumericLiteralUnsigned -> 'INTEGER' | 'DECIMAL' | 'DOUBLE'
pub(crate) fn parse_NumericLiteralUnsigned(p: &mut Parser)
    requires
        old(p).wf(),
    ensures
        Parser::step(*old(p), *final(p)),
        final(p).pos == old(p).pos ==> is_sync_point(old(p).peek()),
        old(p).events@.len() < final(p).events@.len(),
        final(p).events@[old(p).events@.len() as int] == (Event::Open { kind: SyntaxKind::NumericLiteralUnsigned }),
        final(p).events@.last() is Close,
        final(p).st() == rule_NumericLiteralUnsigned(old(p).kinds(), old(p).st()),
    decreases old(p).remaining(), rank_NumericLiteralUnsigned(old(p).peek()), 1int,
{
    let ghost ks = p.kinds();
    let ghost s0 = p.st();
    let marker = p.open();
    match p.nth(0) {
        SyntaxKind::INTEGER => {
            p.expect(SyntaxKind::INTEGER);
        },
        SyntaxKind::DECIMAL => {
            p.expect(SyntaxKind::DECIMAL);
        },
        SyntaxKind::DOUBLE => {
            p.expect(SyntaxKind::DOUBLE);
        },
        SyntaxKind::Eof => {
            p.close(marker, SyntaxKind::NumericLiteralUnsigned);
            let marker = p.open();
            p.close(marker, SyntaxKind::Error);
            proof {
                assert(p.st() == rule_NumericLiteralUnsigned(ks, s0)) by {
                    reveal(rule_NumericLiteralUnsigned);
                    reveal(Parser::st);
                }
            }
            return ;
        },
        _ => {
            p.advance_with_error(vec![SyntaxKind::INTEGER, SyntaxKind::DECIMAL, SyntaxKind::DOUBLE]);
        },
    }
    p.close(marker, SyntaxKind::NumericLiteralUnsigned);
    proof {
        assert(p.st() == rule_NumericLiteralUnsigned(ks, s0)) by {
            reveal(rule_NumericLiteralUnsigned);
            reveal(Parser::st);
        }
    }
}

pub open spec fn rank_PrefixedName(t: SyntaxKind) -> nat {
    0
}

/// What [`parse_PrefixedName`] makes of the parser state.
#[verifier::opaque]
pub open spec fn rule_PrefixedName(ts: Seq<SyntaxKind>, s: St) -> St {
    let m_marker = s.evs.len() as int;
    let s = st_open(s);
    if (peek_at(ts, s.pos) == SyntaxKind::PNAME_LN) {
        let s = st_expect(ts, s, SyntaxKind::PNAME_LN);
        let s = st_close(s, m_marker, SyntaxKind::PrefixedName);
        s
    } else if (peek_at(ts, s.pos) == SyntaxKind::PNAME_NS) {
        let s = st_expect(ts, s, SyntaxKind::PNAME_NS);
        let s = st_close(s, m_marker, SyntaxKind::PrefixedName);
        s
    } else if (peek_at(ts, s.pos) == SyntaxKind::Eof) {
        let s = st_close(s, m_marker, SyntaxKind::PrefixedName);
        let m_marker = s.evs.len() as int;
        let s = st_open(s);
        let s = st_close(s, m_marker, SyntaxKind::Error);
        s
    } else {
        let s = st_advance_with_error(ts, s, seq![SyntaxKind::PNAME_LN, SyntaxKind::PNAME_NS]);
        let s = st_close(s, m_marker, SyntaxKind::PrefixedName);
        s
    }
}

/// [157] PrefixedName -> 'PNAME_LN' | 'PNAME_NS'
pub(crate) fn parse_PrefixedName(p: &mut Parser)
    requires
        old(p).wf(),
    ensures
        Parser::step(*old(p), *final(p)),
        final(p).pos == old(p).pos ==> is_sync_point(old(p).peek()),
        old(p).events@.len() < final(p).events@.len(),
        final(p).events@[old(p).events@.len() as int] == (Event::Open { kind: SyntaxKind::PrefixedName }),
        final(p).events@.last() is Close,
        final(p).st() == rule_PrefixedName(old(p).kinds(), old(p).st()),
    decreases old(p).remaining(), rank_PrefixedName(old(p).peek()), 1int,
{
    let ghost ks = p.kinds();
    let ghost s0 = p.st();
    let marker = p.open();
    match p.nth(0) {
        SyntaxKind::PNAME_LN => {
            p.expect(SyntaxKind::PNAME_LN);
        },
        SyntaxKind::PNAME_NS => {
            p.expect(SyntaxKind::PNAME_NS);
        },
        SyntaxKind::Eof => {
            p.close(marker, SyntaxKind::PrefixedName);
            let marker = p.open();
            p.close(marker, SyntaxKind::Error);
            proof {
                assert(p.st() == rule_PrefixedName(ks, s0)) by {
                    reveal(rule_PrefixedName);
                    reveal(Parser::st);
                }
            }
            return ;
        },
        _ => {
            p.advance_with_error(vec![SyntaxKind::PNAME_LN, SyntaxKind::PNAME_NS]);
        },
    }
    p.close(marker, SyntaxKind::PrefixedName);
    proof {
        assert(p.st() == rule_PrefixedName(ks, s0)) by {
            reveal(rule_PrefixedName);
            reveal(Parser::st);
        }
    }
}

/// On the tokens `ADD` `DEFAULT` `TO` `DEFAULT` a `Add` node holds them, in this order, with the
/// nodes the grammar gives them and no error.
pub proof fn law_Add_1(ts: Seq<SyntaxKind>, s: St)
    requires
        peek_at(ts, s.pos + 0) == SyntaxKind::ADD,
        peek_at(ts, s.pos + 1) == SyntaxKind::DEFAULT,
        peek_at(ts, s.pos + 2) == SyntaxKind::TO,
        peek_at(ts, s.pos + 3) == SyntaxKind::DEFAULT,
    ensures
        rule_Add(ts, s) == (St { evs: s.evs + seq![Ev::Open(SyntaxKind::Add), Ev::Advance, Ev::Open(SyntaxKind::GraphOrDefault), Ev::Advance, Ev::Close, Ev::Advance, Ev::Open(SyntaxKind::GraphOrDefault), Ev::Advance, Ev::Close, Ev::Close], pos: s.pos + 4 }),
{
    reveal(rule_Add);
    reveal(rule_GraphOrDefault);
    reveal(st_open);
    reveal(st_close);
    reveal(st_advance);
    reveal(st_expect);
    assert(rule_Add(ts, s).evs =~= s.evs + seq![Ev::Open(SyntaxKind::Add), Ev::Advance, Ev::Open(SyntaxKind::GraphOrDefault), Ev::Advance, Ev::Close, Ev::Advance, Ev::Open(SyntaxKind::GraphOrDefault), Ev::Advance, Ev::Close, Ev::Close]);
}

/// On the tokens `ADD` `DEFAULT` `TO` `IRIREF` a `Add` node holds them, in this order, with the
/// nodes the grammar gives them and no error.
pub proof fn law_Add_2(ts: Seq<SyntaxKind>, s: St)
    requires
        peek_at(ts, s.pos + 0) == SyntaxKind::ADD,
        peek_at(ts, s.pos + 1) == SyntaxKind::DEFAULT,
        peek_at(ts, s.pos + 2) == SyntaxKind::TO,
        peek_at(ts, s.pos + 3) == SyntaxKind::IRIREF,
    ensures
        rule_Add(ts, s) == (St { evs: s.evs + seq![Ev::Open(SyntaxKind::Add), Ev::Advance, Ev::Open(SyntaxKind::GraphOrDefault), Ev::Advance, Ev::Close, Ev::Advance, Ev::Open(SyntaxKind::GraphOrDefault), Ev::Open(SyntaxKind::iri), Ev::Advance, Ev::Close, Ev::Close, Ev::Close], pos: s.pos + 4 }),
{
    reveal(rule_Add);
    reveal(rule_GraphOrDefault);
    reveal(rule_iri);
    reveal(st_open);
    reveal(st_close);
    reveal(st_advance);
    reveal(st_expect);
    assert(rule_Add(ts, s).evs =~= s.evs + seq![Ev::Open(SyntaxKind::Add), Ev::Advance, Ev::Open(SyntaxKind::GraphOrDefault), Ev::Advance, Ev::Close, Ev::Advance, Ev::Open(SyntaxKind::GraphOrDefault), Ev::Open(SyntaxKind::iri), Ev::Advance, Ev::Close, Ev::Close, Ev::Close]);
}

/// On the tokens `ADD` `DEFAULT` `TO` `PNAME_LN` a `Add` node holds them, in this order, with the
/// nodes the grammar gives them and no error.
pub proof fn law_Add_3(ts: Seq<SyntaxKind>, s: St)
    requires
        peek_at(ts, s.pos + 0) == SyntaxKind::ADD,
        peek_at(ts, s.pos + 1) == SyntaxKind::DEFAULT,
        peek_at(ts, s.pos + 2) == SyntaxKind::TO,
        peek_at(ts, s.pos + 3) == SyntaxKind::PNAME_LN,
    ensures
        rule_Add(ts, s) == (St { evs: s.evs + seq![Ev::Open(SyntaxKind::Add), Ev::Advance, Ev::Open(SyntaxKind::GraphOrDefault), Ev::Advance, Ev::Close, Ev::Advance, Ev::Open(SyntaxKind::GraphOrDefault), Ev::Open(SyntaxKind::iri), Ev::Open(SyntaxKind::PrefixedName), Ev::Advance, Ev::Close, Ev::Close, Ev::Close, Ev::Close], pos: s.pos + 4 }),
{
    reveal(rule_Add);
    reveal(rule_GraphOrDefault);
    reveal(rule_PrefixedName);
    reveal(rule_iri);
    reveal(st_open);
    reveal(st_close);
    reveal(st_advance);
    reveal(st_expect);
    assert(rule_Add(ts, s).evs =~= s.evs + seq![Ev::Open(SyntaxKind::Add), Ev::Advance, Ev::Open(SyntaxKind::GraphOrDefault), Ev::Advance, Ev::Close, Ev::Advance, Ev::Open(SyntaxKind::GraphOrDefault), Ev::Open(SyntaxKind::iri), Ev::Open(SyntaxKind::PrefixedName), Ev::Advance, Ev::Close, Ev::Close, Ev::Close, Ev::Close]);
}

/// On the tokens `ADD` `DEFAULT` `TO` `PNAME_NS` a `Add` node holds them, in this order, with the
/// nodes the grammar gives them and no error.
pub proof fn law_Add_4(ts: Seq<SyntaxKind>, s: St)
    requires
        peek_at(ts, s.pos + 0) == SyntaxKind::ADD,
        peek_at(ts, s.pos + 1) == SyntaxKind::DEFAULT,
        peek_at(ts, s.pos + 2) == SyntaxKind::TO,
        peek_at(ts, s.pos + 3) == SyntaxKind::PNAME_NS,
    ensures
        rule_Add(ts, s) == (St { evs: s.evs + seq![Ev::Open(SyntaxKind::Add), Ev::Advance, Ev::Open(SyntaxKind::GraphOrDefault), Ev::Advance, Ev::Close, Ev::Advance, Ev::Open(SyntaxKind::GraphOrDefault), Ev::Open(SyntaxKind::iri), Ev::Open(SyntaxKind::PrefixedName), Ev::Advance, Ev::Close, Ev::Close, Ev::Close, Ev::Close], pos: s.pos + 4 }),
{
    reveal(rule_Add);
    reveal(rule_GraphOrDefault);
    reveal(rule_PrefixedName);
    reveal(rule_iri);
    reveal(st_open);
    reveal(st_close);
    reveal(st_advance);
    reveal(st_expect);
    assert(rule_Add(ts, s).evs =~= s.evs + seq![Ev::Open(SyntaxKind::Add), Ev::Advance, Ev::Open(SyntaxKind::GraphOrDefault), Ev::Advance, Ev::Close, Ev::Advance, Ev::Open(SyntaxKind::GraphOrDefault), Ev::Open(SyntaxKind::iri), Ev::Open(SyntaxKind::PrefixedName), Ev::Advance, Ev::Close, Ev::Close, Ev::Close, Ev::Close]);
}

/// On the tokens `ADD` `IRIREF` `TO` `DEFAULT` a `Add` node holds them, in this order, with the
/// nodes the grammar gives them and no error.
pub proof fn law_Add_5(ts: Seq<SyntaxKind>, s: St)
    requires
        peek_at(ts, s.pos + 0) == SyntaxKind::ADD,
        peek_at(ts, s.pos + 1) == SyntaxKind::IRIREF,
        peek_at(ts, s.pos + 2) == SyntaxKind::TO,
        peek_at(ts, s.pos + 3) == SyntaxKind::DEFAULT,
    ensures
        rule_Add(ts, s) == (St { evs: s.evs + seq![Ev::Open(SyntaxKind::Add), Ev::Advance, Ev::Open(SyntaxKind::GraphOrDefault), Ev::Open(SyntaxKind::iri), Ev::Advance, Ev::Close, Ev::Close, Ev::Advance, Ev::Open(SyntaxKind::GraphOrDefault), Ev::Advance, Ev::Close, Ev::Close], pos: s.pos + 4 }),
{
    reveal(rule_Add);
    reveal(rule_GraphOrDefault);
    reveal(rule_iri);
    reveal(st_open);
    reveal(st_close);
    reveal(st_advance);
    reveal(st_expect);
    assert(rule_Add(ts, s).evs =~= s.evs + seq![Ev::Open(SyntaxKind::Add), Ev::Advance, Ev::Open(SyntaxKind::GraphOrDefault), Ev::Open(SyntaxKind::iri), Ev::Advance, Ev::Close, Ev::Close, Ev::Advance, Ev::Open(SyntaxKind::GraphOrDefault), Ev::Advance, Ev::Close, Ev::Close]);
}

/// On the tokens `ADD` `IRIREF` `TO` `IRIREF` a `Add` node holds them, in this order, with the
/// nodes the grammar gives them and no error.
pub proof fn law_Add_6(ts: Seq<SyntaxKind>, s: St)
    requires
        peek_at(ts, s.pos + 0) == SyntaxKind::ADD,
        peek_at(ts, s.pos + 1) == SyntaxKind::IRIREF,
        peek_at(ts, s.pos + 2) == SyntaxKind::TO,
        peek_at(ts, s.pos + 3) == SyntaxKind::IRIREF,
    ensures
        rule_Add(ts, s) == (St { evs: s.evs + seq![Ev::Open(SyntaxKind::Add), Ev::Advance, Ev::Open(SyntaxKind::GraphOrDefault), Ev::Open(SyntaxKind::iri), Ev::Advance, Ev::Close, Ev::Close, Ev::Advance, Ev::Open(SyntaxKind::GraphOrDefault), Ev::Open(SyntaxKind::iri), Ev::Advance, Ev::Close, Ev::Close, Ev::Close], pos: s.pos + 4 }),
{
    reveal(rule_Add);
    reveal(rule_GraphOrDefault);
    reveal(rule_iri);
    reveal(st_open);
    reveal(st_close);
    reveal(st_advance);
    reveal(st_expect);
    assert(rule_Add(ts, s).evs =~= s.evs + seq![Ev::Open(SyntaxKind::Add), Ev::Advance, Ev::Open(SyntaxKind::GraphOrDefault), Ev::Open(SyntaxKind::iri), Ev::Advance, Ev::Close, Ev::Close, Ev::Advance, Ev::Open(SyntaxKind::GraphOrDefault), Ev::Open(SyntaxKind::iri), Ev::Advance, Ev::Close, Ev::Close, Ev::Close]);
}

/// On the tokens `BASE` `IRIREF` a `BaseDecl` node holds them, in this order, with the
/// nodes the grammar gives them and no error.
pub proof fn law_BaseDecl_1(ts: Seq<SyntaxKind>, s: St)
    requires
        peek_at(ts, s.pos + 0) == SyntaxKind::BASE,
        peek_at(ts, s.pos + 1) == SyntaxKind::IRIREF,
    ensures
        rule_BaseDecl(ts, s) == (St { evs: s.evs + seq![Ev::Open(SyntaxKind::BaseDecl), Ev::Advance, Ev::Advance, Ev::Close], pos: s.pos + 2 }),
{
    reveal(rule_BaseDecl);
    reveal(st_open);
    reveal(st_close);
    reveal(st_advance);
    reveal(st_expect);
    assert(rule_BaseDecl(ts, s).evs =~= s.evs + seq![Ev::Open(SyntaxKind::BaseDecl), Ev::Advance, Ev::Advance, Ev::Close]);
}

/// On the tokens `ANON` a `BlankNode` node holds them, in this order, with the
/// nodes the grammar gives them and no error.
pub proof fn law_BlankNode_1(ts: Seq<SyntaxKind>, s: St)
    requires
        peek_at(ts, s.pos + 0) == SyntaxKind::ANON,
    ensures
        rule_BlankNode(ts, s) == (St { evs: s.evs + seq![Ev::Open(SyntaxKind::BlankNode), Ev::Advance, Ev::Close], pos: s.pos + 1 }),
{
    reveal(rule_BlankNode);
    reveal(st_open);
    reveal(st_close);
    reveal(st_advance);
    reveal(st_expect);
    assert(rule_BlankNode(ts, s).evs =~= s.evs + seq![Ev::Open(SyntaxKind::BlankNode), Ev::Advance, Ev::Close]);
}

/// On the tokens `BLANK_NODE_LABEL` a `BlankNode` node holds them, in this order, with the
/// nodes the grammar gives them and no error.
pub proof fn law_BlankNode_2(ts: Seq<SyntaxKind>, s: St)
    requires
        peek_at(ts, s.pos + 0) == SyntaxKind::BLANK_NODE_LABEL,
    ensures
        rule_BlankNode(ts, s) == (St { evs: s.evs + seq![Ev::Open(SyntaxKind::BlankNode), Ev::Advance, Ev::Close], pos: s.pos + 1 }),
{
    reveal(rule_BlankNode);
    reveal(st_open);
    reveal(st_close);
    reveal(st_advance);
    reveal(st_expect);
    assert(rule_BlankNode(ts, s).evs =~= s.evs + seq![Ev::Open(SyntaxKind::BlankNode), Ev::Advance, Ev::Close]);
}

/// On the tokens `False` a `BooleanLiteral` node holds them, in this order, with the
/// nodes the grammar gives them and no error.
pub proof fn law_BooleanLiteral_1(ts: Seq<SyntaxKind>, s: St)
    requires
        peek_at(ts, s.pos + 0) == SyntaxKind::False,
    ensures
        rule_BooleanLiteral(ts, s) == (St { evs: s.evs + seq![Ev::Open(SyntaxKind::BooleanLiteral), Ev::Advance, Ev::Close], pos: s.pos + 1 }),
{
    reveal(rule_BooleanLiteral);
    reveal(st_open);
    reveal(st_close);
    reveal(st_advance);
    reveal(st_expect);
    assert(rule_BooleanLiteral(ts, s).evs =~= s.evs + seq![Ev::Open(SyntaxKind::BooleanLiteral), Ev::Advance, Ev::Close]);
}

/// On the tokens `True` a `BooleanLiteral` node holds them, in this order, with the
/// nodes the grammar gives them and no error.
pub proof fn law_BooleanLiteral_2(ts: Seq<SyntaxKind>, s: St)
    requires
        peek_at(ts, s.pos + 0) == SyntaxKind::True,
    ensures
        rule_BooleanLiteral(ts, s) == (St { evs: s.evs + seq![Ev::Open(SyntaxKind::BooleanLiteral), Ev::Advance, Ev::Close], pos: s.pos + 1 }),
{
    reveal(rule_BooleanLiteral);
    reveal(st_open);
    reveal(st_close);
    reveal(st_advance);
    reveal(st_expect);
    assert(rule_BooleanLiteral(ts, s).evs =~= s.evs + seq![Ev::Open(SyntaxKind::BooleanLiteral), Ev::Advance, Ev::Close]);
}

/// On the tokens `CLEAR` `ALL` a `Clear` node holds them, in this order, with the
/// nodes the grammar gives them and no error.
pub proof fn law_Clear_1(ts: Seq<SyntaxKind>, s: St)
    requires
        peek_at(ts, s.pos + 0) == SyntaxKind::CLEAR,
        peek_at(ts, s.pos + 1) == SyntaxKind::ALL,
    ensures
        rule_Clear(ts, s) == (St { evs: s.evs + seq![Ev::Open(SyntaxKind::Clear), Ev::Advance, Ev::Open(SyntaxKind::GraphRefAll), Ev::Advance, Ev::Close, Ev::Close], pos: s.pos + 2 }),
{
    reveal(rule_Clear);
    reveal(rule_GraphRefAll);
    reveal(st_open);
    reveal(st_close);
    reveal(st_advance);
    reveal(st_expect);
    assert(rule_Clear(ts, s).evs =~= s.evs + seq![Ev::Open(SyntaxKind::Clear), Ev::Advance, Ev::Open(SyntaxKind::GraphRefAll), Ev::Advance, Ev::Close, Ev::Close]);
}

/// On the tokens `CLEAR` `DEFAULT` a `Clear` node holds them, in this order, with the
/// nodes the grammar gives them and no error.
pub proof fn law_Clear_2(ts: Seq<SyntaxKind>, s: St)
    requires
        peek_at(ts, s.pos + 0) == SyntaxKind::CLEAR,
        peek_at(ts, s.pos + 1) == SyntaxKind::DEFAULT,
    ensures
        rule_Clear(ts, s) == (St { evs: s.evs + seq![Ev::Open(SyntaxKind::Clear), Ev::Advance, Ev::Open(SyntaxKind::GraphRefAll), Ev::Advance, Ev::Close, Ev::Close], pos: s.pos + 2 }),
{
    reveal(rule_Clear);
    reveal(rule_GraphRefAll);
    reveal(st_open);
    reveal(st_close);
    reveal(st_advance);
    reveal(st_expect);
    assert(rule_Clear(ts, s).evs =~= s.evs + seq![Ev::Open(SyntaxKind::Clear), Ev::Advance, Ev::Open(SyntaxKind::GraphRefAll), Ev::Advance, Ev::Close, Ev::Close]);
}

/// On the tokens `CLEAR` `NAMED` a `Clear` node holds them, in this order, with the
/// nodes the grammar gives them and no error.
pub proof fn law_Clear_3(ts: Seq<SyntaxKind>, s: St)
    requires
        peek_at(ts, s.pos + 0) == SyntaxKind::CLEAR,
        peek_at(ts, s.pos + 1) == SyntaxKind::NAMED,
    ensures
        rule_Clear(ts, s) == (St { evs: s.evs + seq![Ev::Open(SyntaxKind::Clear), Ev::Advance, Ev::Open(SyntaxKind::GraphRefAll), Ev::Advance, Ev::Close, Ev::Close], pos: s.pos + 2 }),
{
    reveal(rule_Clear);
    reveal(rule_GraphRefAll);
    reveal(st_open);
    reveal(st_close);
    reveal(st_advance);
    reveal(st_expect);
    assert(rule_Clear(ts, s).evs =~= s.evs + seq![Ev::Open(SyntaxKind::Clear), Ev::Advance, Ev::Open(SyntaxKind::GraphRefAll), Ev::Advance, Ev::Close, Ev::Close]);
}

/// On the tokens `CLEAR` `GRAPH` `IRIREF` a `Clear` node holds them, in this order, with the
/// nodes the grammar gives them and no error.
pub proof fn law_Clear_4(ts: Seq<SyntaxKind>, s: St)
    requires
        peek_at(ts, s.pos + 0) == SyntaxKind::CLEAR,
        peek_at(ts, s.pos + 1) == SyntaxKind::GRAPH,
        peek_at(ts, s.pos + 2) == SyntaxKind::IRIREF,
    ensures
        rule_Clear(ts, s) == (St { evs: s.evs + seq![Ev::Open(SyntaxKind::Clear), Ev::Advance, Ev::Open(SyntaxKind::GraphRefAll), Ev::Open(SyntaxKind::GraphRef), Ev::Advance, Ev::Open(SyntaxKind::iri), Ev::Advance, Ev::Close, Ev::Close, Ev::Close, Ev::Close], pos: s.pos + 3 }),
{
    reveal(rule_Clear);
    reveal(rule_GraphRef);
    reveal(rule_GraphRefAll);
    reveal(rule_iri);
    reveal(st_open);
    reveal(st_close);
    reveal(st_advance);
    reveal(st_expect);
    assert(rule_Clear(ts, s).evs =~= s.evs + seq![Ev::Open(SyntaxKind::Clear), Ev::Advance, Ev::Open(SyntaxKind::GraphRefAll), Ev::Open(SyntaxKind::GraphRef), Ev::Advance, Ev::Open(SyntaxKind::iri), Ev::Advance, Ev::Close, Ev::Close, Ev::Close, Ev::Close]);
}

/// On the tokens `CLEAR` `GRAPH` `PNAME_LN` a `Clear` node holds them, in this order, with the
/// nodes the grammar gives them and no error.
pub proof fn law_Clear_5(ts: Seq<SyntaxKind>, s: St)
    requires
        peek_at(ts, s.pos + 0) == SyntaxKind::CLEAR,
        peek_at(ts, s.pos + 1) == SyntaxKind::GRAPH,
        peek_at(ts, s.pos + 2) == SyntaxKind::PNAME_LN,
    ensures
        rule_Clear(ts, s) == (St { evs: s.evs + seq![Ev::Open(SyntaxKind::Clear), Ev::Advance, Ev::Open(SyntaxKind::GraphRefAll), Ev::Open(SyntaxKind::GraphRef), Ev::Advance, Ev::Open(SyntaxKind::iri), Ev::Open(SyntaxKind::PrefixedName), Ev::Advance, Ev::Close, Ev::Close, Ev::Close, Ev::Close, Ev::Close], pos: s.pos + 3 }),
{
    reveal(rule_Clear);
    reveal(rule_GraphRef);
    reveal(rule_GraphRefAll);
    reveal(rule_PrefixedName);
    reveal(rule_iri);
    reveal(st_open);
    reveal(st_close);
    reveal(st_advance);
    reveal(st_expect);
    assert(rule_Clear(ts, s).evs =~= s.evs + seq![Ev::Open(SyntaxKind::Clear), Ev::Advance, Ev::Open(SyntaxKind::GraphRefAll), Ev::Open(SyntaxKind::GraphRef), Ev::Advance, Ev::Open(SyntaxKind::iri), Ev::Open(SyntaxKind::PrefixedName), Ev::Advance, Ev::Close, Ev::Close, Ev::Close, Ev::Close, Ev::Close]);
}

/// On the tokens `CLEAR` `GRAPH` `PNAME_NS` a `Clear` node holds them, in this order, with the
/// nodes the grammar gives them and no error.
pub proof fn law_Clear_6(ts: Seq<SyntaxKind>, s: St)
    requires
        peek_at(ts, s.pos + 0) == SyntaxKind::CLEAR,
        peek_at(ts, s.pos + 1) == SyntaxKind::GRAPH,
        peek_at(ts, s.pos + 2) == SyntaxKind::PNAME_NS,
    ensures
        rule_Clear(ts, s) == (St { evs: s.evs + seq![Ev::Open(SyntaxKind::Clear), Ev::Advance, Ev::Open(SyntaxKind::GraphRefAll), Ev::Open(SyntaxKind::GraphRef), Ev::Advance, Ev::Open(SyntaxKind::iri), Ev::Open(SyntaxKind::PrefixedName), Ev::Advance, Ev::Close, Ev::Close, Ev::Close, Ev::Close, Ev::Close], pos: s.pos + 3 }),
{
    reveal(rule_Clear);
    reveal(rule_GraphRef);
    reveal(rule_GraphRefAll);
    reveal(rule_PrefixedName);
    reveal(rule_iri);
    reveal(st_open);
    reveal(st_close);
    reveal(st_advance);
    reveal(st_expect);
    assert(rule_Clear(ts, s).evs =~= s.evs + seq![Ev::Open(SyntaxKind::Clear), Ev::Advance, Ev::Open(SyntaxKind::GraphRefAll), Ev::Open(SyntaxKind::GraphRef), Ev::Advance, Ev::Open(SyntaxKind::iri), Ev::Open(SyntaxKind::PrefixedName), Ev::Advance, Ev::Close, Ev::Close, Ev::Close, Ev::Close, Ev::Close]);
}

/// On the tokens `COPY` `DEFAULT` `TO` `DEFAULT` a `Copy` node holds them, in this order, with the
/// nodes the grammar gives them and no error.
pub proof fn law_Copy_1(ts: Seq<SyntaxKind>, s: St)
    requires
        peek_at(ts, s.pos + 0) == SyntaxKind::COPY,
        peek_at(ts, s.pos + 1) == SyntaxKind::DEFAULT,
        peek_at(ts, s.pos + 2) == SyntaxKind::TO,
        peek_at(ts, s.pos + 3) == SyntaxKind::DEFAULT,
    ensures
        rule_Copy(ts, s) == (St { evs: s.evs + seq![Ev::Open(SyntaxKind::Copy), Ev::Advance, Ev::Open(SyntaxKind::GraphOrDefault), Ev::Advance, Ev::Close, Ev::Advance, Ev::Open(SyntaxKind::GraphOrDefault), Ev::Advance, Ev::Close, Ev::Close], pos: s.pos + 4 }),
{
    reveal(rule_Copy);
    reveal(rule_GraphOrDefault);
    reveal(st_open);
    reveal(st_close);
    reveal(st_advance);
    reveal(st_expect);
    assert(rule_Copy(ts, s).evs =~= s.evs + seq![Ev::Open(SyntaxKind::Copy), Ev::Advance, Ev::Open(SyntaxKind::GraphOrDefault), Ev::Advance, Ev::Close, Ev::Advance, Ev::Open(SyntaxKind::GraphOrDefault), Ev::Advance, Ev::Close, Ev::Close]);
}

/// On the tokens `COPY` `DEFAULT` `TO` `IRIREF` a `Copy` node holds them, in this order, with the
/// nodes the grammar gives them and no error.
pub proof fn law_Copy_2(ts: Seq<SyntaxKind>, s: St)
    requires
        peek_at(ts, s.pos + 0) == SyntaxKind::COPY,
        peek_at(ts, s.pos + 1) == SyntaxKind::DEFAULT,
        peek_at(ts, s.pos + 2) == SyntaxKind::TO,
        peek_at(ts, s.pos + 3) == SyntaxKind::IRIREF,
    ensures
        rule_Copy(ts, s) == (St { evs: s.evs + seq![Ev::Open(SyntaxKind::Copy), Ev::Advance, Ev::Open(SyntaxKind::GraphOrDefault), Ev::Advance, Ev::Close, Ev::Advance, Ev::Open(SyntaxKind::GraphOrDefault), Ev::Open(SyntaxKind::iri), Ev::Advance, Ev::Close, Ev::Close, Ev::Close], pos: s.pos + 4 }),
{
    reveal(rule_Copy);
    reveal(rule_GraphOrDefault);
    reveal(rule_iri);
    reveal(st_open);
    reveal(st_close);
    reveal(st_advance);
    reveal(st_expect);
    assert(rule_Copy(ts, s).evs =~= s.evs + seq![Ev::Open(SyntaxKind::Copy), Ev::Advance, Ev::Open(SyntaxKind::GraphOrDefault), Ev::Advance, Ev::Close, Ev::Advance, Ev::Open(SyntaxKind::GraphOrDefault), Ev::Open(SyntaxKind::iri), Ev::Advance, Ev::Close, Ev::Close, Ev::Close]);
}

/// On the tokens `COPY` `DEFAULT` `TO` `PNAME_LN` a `Copy` node holds them, in this order, with the
/// nodes the grammar gives them and no error.
pub proof fn law_Copy_3(ts: Seq<SyntaxKind>, s: St)
    requires
        peek_at(ts, s.pos + 0) == SyntaxKind::COPY,
        peek_at(ts, s.pos + 1) == SyntaxKind::DEFAULT,
        peek_at(ts, s.pos + 2) == SyntaxKind::TO,
        peek_at(ts, s.pos + 3) == SyntaxKind::PNAME_LN,
    ensures
        rule_Copy(ts, s) == (St { evs: s.evs + seq![Ev::Open(SyntaxKind::Copy), Ev::Advance, Ev::Open(SyntaxKind::GraphOrDefault), Ev::Advance, Ev::Close, Ev::Advance, Ev::Open(SyntaxKind::GraphOrDefault), Ev::Open(SyntaxKind::iri), Ev::Open(SyntaxKind::PrefixedName), Ev::Advance, Ev::Close, Ev::Close, Ev::Close, Ev::Close], pos: s.pos + 4 }),
{
    reveal(rule_Copy);
    reveal(rule_GraphOrDefault);
    reveal(rule_PrefixedName);
    reveal(rule_iri);
    reveal(st_open);
    reveal(st_close);
    reveal(st_advance);
    reveal(st_expect);
    assert(rule_Copy(ts, s).evs =~= s.evs + seq![Ev::Open(SyntaxKind::Copy), Ev::Advance, Ev::Open(SyntaxKind::GraphOrDefault), Ev::Advance, Ev::Close, Ev::Advance, Ev::Open(SyntaxKind::GraphOrDefault), Ev::Open(SyntaxKind::iri), Ev::Open(SyntaxKind::PrefixedName), Ev::Advance, Ev::Close, Ev::Close, Ev::Close, Ev::Close]);
}

/// On the tokens `COPY` `DEFAULT` `TO` `PNAME_NS` a `Copy` node holds them, in this order, with the
/// nodes the grammar gives them and no error.
pub proof fn law_Copy_4(ts: Seq<SyntaxKind>, s: St)
    requires
        peek_at(ts, s.pos + 0) == SyntaxKind::COPY,
        peek_at(ts, s.pos + 1) == SyntaxKind::DEFAULT,
        peek_at(ts, s.pos + 2) == SyntaxKind::TO,
        peek_at(ts, s.pos + 3) == SyntaxKind::PNAME_NS,
    ensures
        rule_Copy(ts, s) == (St { evs: s.evs + seq![Ev::Open(SyntaxKind::Copy), Ev::Advance, Ev::Open(SyntaxKind::GraphOrDefault), Ev::Advance, Ev::Close, Ev::Advance, Ev::Open(SyntaxKind::GraphOrDefault), Ev::Open(SyntaxKind::iri), Ev::Open(SyntaxKind::PrefixedName), Ev::Advance, Ev::Close, Ev::Close, Ev::Close, Ev::Close], pos: s.pos + 4 }),
{
    reveal(rule_Copy);
    reveal(rule_GraphOrDefault);
    reveal(rule_PrefixedName);
    reveal(rule_iri);
    reveal(st_open);
    reveal(st_close);
    reveal(st_advance);
    reveal(st_expect);
    assert(rule_Copy(ts, s).evs =~= s.evs + seq![Ev::Open(SyntaxKind::Copy), Ev::Advance, Ev::Open(SyntaxKind::GraphOrDefault), Ev::Advance, Ev::Close, Ev::Advance, Ev::Open(SyntaxKind::GraphOrDefault), Ev::Open(SyntaxKind::iri), Ev::Open(SyntaxKind::PrefixedName), Ev::Advance, Ev::Close, Ev::Close, Ev::Close, Ev::Close]);
}

/// On the tokens `COPY` `IRIREF` `TO` `DEFAULT` a `Copy` node holds them, in this order, with the
/// nodes the grammar gives them and no error.
pub proof fn law_Copy_5(ts: Seq<SyntaxKind>, s: St)
    requires
        peek_at(ts, s.pos + 0) == SyntaxKind::COPY,
        peek_at(ts, s.pos + 1) == SyntaxKind::IRIREF,
        peek_at(ts, s.pos + 2) == SyntaxKind::TO,
        peek_at(ts, s.pos + 3) == SyntaxKind::DEFAULT,
    ensures
        rule_Copy(ts, s) == (St { evs: s.evs + seq![Ev::Open(SyntaxKind::Copy), Ev::Advance, Ev::Open(SyntaxKind::GraphOrDefault), Ev::Open(SyntaxKind::iri), Ev::Advance, Ev::Close, Ev::Close, Ev::Advance, Ev::Open(SyntaxKind::GraphOrDefault), Ev::Advance, Ev::Close, Ev::Close], pos: s.pos + 4 }),
{
    reveal(rule_Copy);
    reveal(rule_GraphOrDefault);
    reveal(rule_iri);
    reveal(st_open);
    reveal(st_close);
    reveal(st_advance);
    reveal(st_expect);
    assert(rule_Copy(ts, s).evs =~= s.evs + seq![Ev::Open(SyntaxKind::Copy), Ev::Advance, Ev::Open(SyntaxKind::GraphOrDefault), Ev::Open(SyntaxKind::iri), Ev::Advance, Ev::Close, Ev::Close, Ev::Advance, Ev::Open(SyntaxKind::GraphOrDefault), Ev::Advance, Ev::Close, Ev::Close]);
}

/// On the tokens `COPY` `IRIREF` `TO` `IRIREF` a `Copy` node holds them, in this order, with the
/// nodes the grammar gives them and no error.
pub proof fn law_Copy_6(ts: Seq<SyntaxKind>, s: St)
    requires
        peek_at(ts, s.pos + 0) == SyntaxKind::COPY,
        peek_at(ts, s.pos + 1) == SyntaxKind::IRIREF,
        peek_at(ts, s.pos + 2) == SyntaxKind::TO,
        peek_at(ts, s.pos + 3) == SyntaxKind::IRIREF,
    ensures
        rule_Copy(ts, s) == (St { evs: s.evs + seq![Ev::Open(SyntaxKind::Copy), Ev::Advance, Ev::Open(SyntaxKind::GraphOrDefault), Ev::Open(SyntaxKind::iri), Ev::Advance, Ev::Close, Ev::Close, Ev::Advance, Ev::Open(SyntaxKind::GraphOrDefault), Ev::Open(SyntaxKind::iri), Ev::Advance, Ev::Close, Ev::Close, Ev::Close], pos: s.pos + 4 }),
{
    reveal(rule_Copy);
    reveal(rule_GraphOrDefault);
    reveal(rule_iri);
    reveal(st_open);
    reveal(st_close);
    reveal(st_advance);
    reveal(st_expect);
    assert(rule_Copy(ts, s).evs =~= s.evs + seq![Ev::Open(SyntaxKind::Copy), Ev::Advance, Ev::Open(SyntaxKind::GraphOrDefault), Ev::Open(SyntaxKind::iri), Ev::Advance, Ev::Close, Ev::Close, Ev::Advance, Ev::Open(SyntaxKind::GraphOrDefault), Ev::Open(SyntaxKind::iri), Ev::Advance, Ev::Close, Ev::Close, Ev::Close]);
}

/// On the tokens `CREATE` `GRAPH` `IRIREF` a `Create` node holds them, in this order, with the
/// nodes the grammar gives them and no error.
pub proof fn law_Create_1(ts: Seq<SyntaxKind>, s: St)
    requires
        peek_at(ts, s.pos + 0) == SyntaxKind::CREATE,
        peek_at(ts, s.pos + 1) == SyntaxKind::GRAPH,
        peek_at(ts, s.pos + 2) == SyntaxKind::IRIREF,
    ensures
        rule_Create(ts, s) == (St { evs: s.evs + seq![Ev::Open(SyntaxKind::Create), Ev::Advance, Ev::Open(SyntaxKind::GraphRef), Ev::Advance, Ev::Open(SyntaxKind::iri), Ev::Advance, Ev::Close, Ev::Close, Ev::Close], pos: s.pos + 3 }),
{
    reveal(rule_Create);
    reveal(rule_GraphRef);
    reveal(rule_iri);
    reveal(st_open);
    reveal(st_close);
    reveal(st_advance);
    reveal(st_expect);
    assert(rule_Create(ts, s).evs =~= s.evs + seq![Ev::Open(SyntaxKind::Create), Ev::Advance, Ev::Open(SyntaxKind::GraphRef), Ev::Advance, Ev::Open(SyntaxKind::iri), Ev::Advance, Ev::Close, Ev::Close, Ev::Close]);
}

/// On the tokens `CREATE` `GRAPH` `PNAME_LN` a `Create` node holds them, in this order, with the
/// nodes the grammar gives them and no error.
pub proof fn law_Create_2(ts: Seq<SyntaxKind>, s: St)
    requires
        peek_at(ts, s.pos + 0) == SyntaxKind::CREATE,
        peek_at(ts, s.pos + 1) == SyntaxKind::GRAPH,
        peek_at(ts, s.pos + 2) == SyntaxKind::PNAME_LN,
    ensures
        rule_Create(ts, s) == (St { evs: s.evs + seq![Ev::Open(SyntaxKind::Create), Ev::Advance, Ev::Open(SyntaxKind::GraphRef), Ev::Advance, Ev::Open(SyntaxKind::iri), Ev::Open(SyntaxKind::PrefixedName), Ev::Advance, Ev::Close, Ev::Close, Ev::Close, Ev::Close], pos: s.pos + 3 }),
{
    reveal(rule_Create);
    reveal(rule_GraphRef);
    reveal(rule_PrefixedName);
    reveal(rule_iri);
    reveal(st_open);
    reveal(st_close);
    reveal(st_advance);
    reveal(st_expect);
    assert(rule_Create(ts, s).evs =~= s.evs + seq![Ev::Open(SyntaxKind::Create), Ev::Advance, Ev::Open(SyntaxKind::GraphRef), Ev::Advance, Ev::Open(SyntaxKind::iri), Ev::Open(SyntaxKind::PrefixedName), Ev::Advance, Ev::Close, Ev::Close, Ev::Close, Ev::Close]);
}

/// On the tokens `CREATE` `GRAPH` `PNAME_NS` a `Create` node holds them, in this order, with the
/// nodes the grammar gives them and no error.
pub proof fn law_Create_3(ts: Seq<SyntaxKind>, s: St)
    requires
        peek_at(ts, s.pos + 0) == SyntaxKind::CREATE,
        peek_at(ts, s.pos + 1) == SyntaxKind::GRAPH,
        peek_at(ts, s.pos + 2) == SyntaxKind::PNAME_NS,
    ensures
        rule_Create(ts, s) == (St { evs: s.evs + seq![Ev::Open(SyntaxKind::Create), Ev::Advance, Ev::Open(SyntaxKind::GraphRef), Ev::Advance, Ev::Open(SyntaxKind::iri), Ev::Open(SyntaxKind::PrefixedName), Ev::Advance, Ev::Close, Ev::Close, Ev::Close, Ev::Close], pos: s.pos + 3 }),
{
    reveal(rule_Create);
    reveal(rule_GraphRef);
    reveal(rule_PrefixedName);
    reveal(rule_iri);
    reveal(st_open);
    reveal(st_close);
    reveal(st_advance);
    reveal(st_expect);
    assert(rule_Create(ts, s).evs =~= s.evs + seq![Ev::Open(SyntaxKind::Create), Ev::Advance, Ev::Open(SyntaxKind::GraphRef), Ev::Advance, Ev::Open(SyntaxKind::iri), Ev::Open(SyntaxKind::PrefixedName), Ev::Advance, Ev::Close, Ev::Close, Ev::Close, Ev::Close]);
}

/// On the tokens `CREATE` `SILENT` `GRAPH` `IRIREF` a `Create` node holds them, in this order, with the
/// nodes the grammar gives them and no error.
pub proof fn law_Create_4(ts: Seq<SyntaxKind>, s: St)
    requires
        peek_at(ts, s.pos + 0) == SyntaxKind::CREATE,
        peek_at(ts, s.pos + 1) == SyntaxKind::SILENT,
        peek_at(ts, s.pos + 2) == SyntaxKind::GRAPH,
        peek_at(ts, s.pos + 3) == SyntaxKind::IRIREF,
    ensures
        rule_Create(ts, s) == (St { evs: s.evs + seq![Ev::Open(SyntaxKind::Create), Ev::Advance, Ev::Advance, Ev::Open(SyntaxKind::GraphRef), Ev::Advance, Ev::Open(SyntaxKind::iri), Ev::Advance, Ev::Close, Ev::Close, Ev::Close], pos: s.pos + 4 }),
{
    reveal(rule_Create);
    reveal(rule_GraphRef);
    reveal(rule_iri);
    reveal(st_open);
    reveal(st_close);
    reveal(st_advance);
    reveal(st_expect);
    assert(rule_Create(ts, s).evs =~= s.evs + seq![Ev::Open(SyntaxKind::Create), Ev::Advance, Ev::Advance, Ev::Open(SyntaxKind::GraphRef), Ev::Advance, Ev::Open(SyntaxKind::iri), Ev::Advance, Ev::Close, Ev::Close, Ev::Close]);
}

/// On the tokens `CREATE` `SILENT` `GRAPH` `PNAME_LN` a `Create` node holds them, in this order, with the
/// nodes the grammar gives them and no error.
pub proof fn law_Create_5(ts: Seq<SyntaxKind>, s: St)
    requires
        peek_at(ts, s.pos + 0) == SyntaxKind::CREATE,
        peek_at(ts, s.pos + 1) == SyntaxKind::SILENT,
        peek_at(ts, s.pos + 2) == SyntaxKind::GRAPH,
        peek_at(ts, s.pos + 3) == SyntaxKind::PNAME_LN,
    ensures
        rule_Create(ts, s) == (St { evs: s.evs + seq![Ev::Open(SyntaxKind::Create), Ev::Advance, Ev::Advance, Ev::Open(SyntaxKind::GraphRef), Ev::Advance, Ev::Open(SyntaxKind::iri), Ev::Open(SyntaxKind::PrefixedName), Ev::Advance, Ev::Close, Ev::Close, Ev::Close, Ev::Close], pos: s.pos + 4 }),
{
    reveal(rule_Create);
    reveal(rule_GraphRef);
    reveal(rule_PrefixedName);
    reveal(rule_iri);
    reveal(st_open);
    reveal(st_close);
    reveal(st_advance);
    reveal(st_expect);
    assert(rule_Create(ts, s).evs =~= s.evs + seq![Ev::Open(SyntaxKind::Create), Ev::Advance, Ev::Advance, Ev::Open(SyntaxKind::GraphRef), Ev::Advance, Ev::Open(SyntaxKind::iri), Ev::Open(SyntaxKind::PrefixedName), Ev::Advance, Ev::Close, Ev::Close, Ev::Close, Ev::Close]);
}

/// On the tokens `CREATE` `SILENT` `GRAPH` `PNAME_NS` a `Create` node holds them, in this order, with the
/// nodes the grammar gives them and no error.
pub proof fn law_Create_6(ts: Seq<SyntaxKind>, s: St)
    requires
        peek_at(ts, s.pos + 0) == SyntaxKind::CREATE,
        peek_at(ts, s.pos + 1) == SyntaxKind::SILENT,
        peek_at(ts, s.pos + 2) == SyntaxKind::GRAPH,
        peek_at(ts, s.pos + 3) == SyntaxKind::PNAME_NS,
    ensures
        rule_Create(ts, s) == (St { evs: s.evs + seq![Ev::Open(SyntaxKind::Create), Ev::Advance, Ev::Advance, Ev::Open(SyntaxKind::GraphRef), Ev::Advance, Ev::Open(SyntaxKind::iri), Ev::Open(SyntaxKind::PrefixedName), Ev::Advance, Ev::Close, Ev::Close, Ev::Close, Ev::Close], pos: s.pos + 4 }),
{
    reveal(rule_Create);
    reveal(rule_GraphRef);
    reveal(rule_PrefixedName);
    reveal(rule_iri);
    reveal(st_open);
    reveal(st_close);
    reveal(st_advance);
    reveal(st_expect);
    assert(rule_Create(ts, s).evs =~= s.evs + seq![Ev::Open(SyntaxKind::Create), Ev::Advance, Ev::Advance, Ev::Open(SyntaxKind::GraphRef), Ev::Advance, Ev::Open(SyntaxKind::iri), Ev::Open(SyntaxKind::PrefixedName), Ev::Advance, Ev::Close, Ev::Close, Ev::Close, Ev::Close]);
}

/// On the tokens `FROM` `IRIREF` a `DatasetClause` node holds them, in this order, with the
/// nodes the grammar gives them and no error.
pub proof fn law_DatasetClause_1(ts: Seq<SyntaxKind>, s: St)
    requires
        peek_at(ts, s.pos + 0) == SyntaxKind::FROM,
        peek_at(ts, s.pos + 1) == SyntaxKind::IRIREF,
    ensures
        rule_DatasetClause(ts, s) == (St { evs: s.evs + seq![Ev::Open(SyntaxKind::DatasetClause), Ev::Advance, Ev::Open(SyntaxKind::DefaultGraphClause), Ev::Open(SyntaxKind::SourceSelector), Ev::Open(SyntaxKind::iri), Ev::Advance, Ev::Close, Ev::Close, Ev::Close, Ev::Close], pos: s.pos + 2 }),
{
    reveal(rule_DatasetClause);
    reveal(rule_DefaultGraphClause);
    reveal(rule_SourceSelector);
    reveal(rule_iri);
    reveal(st_open);
    reveal(st_close);
    reveal(st_advance);
    reveal(st_expect);
    assert(rule_DatasetClause(ts, s).evs =~= s.evs + seq![Ev::Open(SyntaxKind::DatasetClause), Ev::Advance, Ev::Open(SyntaxKind::DefaultGraphClause), Ev::Open(SyntaxKind::SourceSelector), Ev::Open(SyntaxKind::iri), Ev::Advance, Ev::Close, Ev::Close, Ev::Close, Ev::Close]);
}

/// On the tokens `FROM` `PNAME_LN` a `DatasetClause` node holds them, in this order, with the
/// nodes the grammar gives them and no error.
pub proof fn law_DatasetClause_2(ts: Seq<SyntaxKind>, s: St)
    requires
        peek_at(ts, s.pos + 0) == SyntaxKind::FROM,
        peek_at(ts, s.pos + 1) == SyntaxKind::PNAME_LN,
    ensures
        rule_DatasetClause(ts, s) == (St { evs: s.evs + seq![Ev::Open(SyntaxKind::DatasetClause), Ev::Advance, Ev::Open(SyntaxKind::DefaultGraphClause), Ev::Open(SyntaxKind::SourceSelector), Ev::Open(SyntaxKind::iri), Ev::Open(SyntaxKind::PrefixedName), Ev::Advance, Ev::Close, Ev::Close, Ev::Close, Ev::Close, Ev::Close], pos: s.pos + 2 }),
{
    reveal(rule_DatasetClause);
    reveal(rule_DefaultGraphClause);
    reveal(rule_PrefixedName);
    reveal(rule_SourceSelector);
    reveal(rule_iri);
    reveal(st_open);
    reveal(st_close);
    reveal(st_advance);
    reveal(st_expect);
    assert(rule_DatasetClause(ts, s).evs =~= s.evs + seq![Ev::Open(SyntaxKind::DatasetClause), Ev::Advance, Ev::Open(SyntaxKind::DefaultGraphClause), Ev::Open(SyntaxKind::SourceSelector), Ev::Open(SyntaxKind::iri), Ev::Open(SyntaxKind::PrefixedName), Ev::Advance, Ev::Close, Ev::Close, Ev::Close, Ev::Close, Ev::Close]);
}

/// On the tokens `FROM` `PNAME_NS` a `DatasetClause` node holds them, in this order, with the
/// nodes the grammar gives them and no error.
pub proof fn law_DatasetClause_3(ts: Seq<SyntaxKind>, s: St)
    requires
        peek_at(ts, s.pos + 0) == SyntaxKind::FROM,
        peek_at(ts, s.pos + 1) == SyntaxKind::PNAME_NS,
    ensures
        rule_DatasetClause(ts, s) == (St { evs: s.evs + seq![Ev::Open(SyntaxKind::DatasetClause), Ev::Advance, Ev::Open(SyntaxKind::DefaultGraphClause), Ev::Open(SyntaxKind::SourceSelector), Ev::Open(SyntaxKind::iri), Ev::Open(SyntaxKind::PrefixedName), Ev::Advance, Ev::Close, Ev::Close, Ev::Close, Ev::Close, Ev::Close], pos: s.pos + 2 }),
{
    reveal(rule_DatasetClause);
    reveal(rule_DefaultGraphClause);
    reveal(rule_PrefixedName);
    reveal(rule_SourceSelector);
    reveal(rule_iri);
    reveal(st_open);
    reveal(st_close);
    reveal(st_advance);
    reveal(st_expect);
    assert(rule_DatasetClause(ts, s).evs =~= s.evs + seq![Ev::Open(SyntaxKind::DatasetClause), Ev::Advance, Ev::Open(SyntaxKind::DefaultGraphClause), Ev::Open(SyntaxKind::SourceSelector), Ev::Open(SyntaxKind::iri), Ev::Open(SyntaxKind::PrefixedName), Ev::Advance, Ev::Close, Ev::Close, Ev::Close, Ev::Close, Ev::Close]);
}

/// On the tokens `FROM` `NAMED` `IRIREF` a `DatasetClause` node holds them, in this order, with the
/// nodes the grammar gives them and no error.
pub proof fn law_DatasetClause_4(ts: Seq<SyntaxKind>, s: St)
    requires
        peek_at(ts, s.pos + 0) == SyntaxKind::FROM,
        peek_at(ts, s.pos + 1) == SyntaxKind::NAMED,
        peek_at(ts, s.pos + 2) == SyntaxKind::IRIREF,
    ensures
        rule_DatasetClause(ts, s) == (St { evs: s.evs + seq![Ev::Open(SyntaxKind::DatasetClause), Ev::Advance, Ev::Open(SyntaxKind::NamedGraphClause), Ev::Advance, Ev::Open(SyntaxKind::SourceSelector), Ev::Open(SyntaxKind::iri), Ev::Advance, Ev::Close, Ev::Close, Ev::Close, Ev::Close], pos: s.pos + 3 }),
{
    reveal(rule_DatasetClause);
    reveal(rule_NamedGraphClause);
    reveal(rule_SourceSelector);
    reveal(rule_iri);
    reveal(st_open);
    reveal(st_close);
    reveal(st_advance);
    reveal(st_expect);
    assert(rule_DatasetClause(ts, s).evs =~= s.evs + seq![Ev::Open(SyntaxKind::DatasetClause), Ev::Advance, Ev::Open(SyntaxKind::NamedGraphClause), Ev::Advance, Ev::Open(SyntaxKind::SourceSelector), Ev::Open(SyntaxKind::iri), Ev::Advance, Ev::Close, Ev::Close, Ev::Close, Ev::Close]);
}

/// On the tokens `FROM` `NAMED` `PNAME_LN` a `DatasetClause` node holds them, in this order, with the
/// nodes the grammar gives them and no error.
pub proof fn law_DatasetClause_5(ts: Seq<SyntaxKind>, s: St)
    requires
        peek_at(ts, s.pos + 0) == SyntaxKind::FROM,
        peek_at(ts, s.pos + 1) == SyntaxKind::NAMED,
        peek_at(ts, s.pos + 2) == SyntaxKind::PNAME_LN,
    ensures
        rule_DatasetClause(ts, s) == (St { evs: s.evs + seq![Ev::Open(SyntaxKind::DatasetClause), Ev::Advance, Ev::Open(SyntaxKind::NamedGraphClause), Ev::Advance, Ev::Open(SyntaxKind::SourceSelector), Ev::Open(SyntaxKind::iri), Ev::Open(SyntaxKind::PrefixedName), Ev::Advance, Ev::Close, Ev::Close, Ev::Close, Ev::Close, Ev::Close], pos: s.pos + 3 }),
{
    reveal(rule_DatasetClause);
    reveal(rule_NamedGraphClause);
    reveal(rule_PrefixedName);
    reveal(rule_SourceSelector);
    reveal(rule_iri);
    reveal(st_open);
    reveal(st_close);
    reveal(st_advance);
    reveal(st_expect);
    assert(rule_DatasetClause(ts, s).evs =~= s.evs + seq![Ev::Open(SyntaxKind::DatasetClause), Ev::Advance, Ev::Open(SyntaxKind::NamedGraphClause), Ev::Advance, Ev::Open(SyntaxKind::SourceSelector), Ev::Open(SyntaxKind::iri), Ev::Open(SyntaxKind::PrefixedName), Ev::Advance, Ev::Close, Ev::Close, Ev::Close, Ev::Close, Ev::Close]);
}

/// On the tokens `FROM` `NAMED` `PNAME_NS` a `DatasetClause` node holds them, in this order, with the
/// nodes the grammar gives them and no error.
pub proof fn law_DatasetClause_6(ts: Seq<SyntaxKind>, s: St)
    requires
        peek_at(ts, s.pos + 0) == SyntaxKind::FROM,
        peek_at(ts, s.pos + 1) == SyntaxKind::NAMED,
        peek_at(ts, s.pos + 2) == SyntaxKind::PNAME_NS,
    ensures
        rule_DatasetClause(ts, s) == (St { evs: s.evs + seq![Ev::Open(SyntaxKind::DatasetClause), Ev::Advance, Ev::Open(SyntaxKind::NamedGraphClause), Ev::Advance, Ev::Open(SyntaxKind::SourceSelector), Ev::Open(SyntaxKind::iri), Ev::Open(SyntaxKind::PrefixedName), Ev::Advance, Ev::Close, Ev::Close, Ev::Close, Ev::Close, Ev::Close], pos: s.pos + 3 }),
{
    reveal(rule_DatasetClause);
    reveal(rule_NamedGraphClause);
    reveal(rule_PrefixedName);
    reveal(rule_SourceSelector);
    reveal(rule_iri);
    reveal(st_open);
    reveal(st_close);
    reveal(st_advance);
    reveal(st_expect);
    assert(rule_DatasetClause(ts, s).evs =~= s.evs + seq![Ev::Open(SyntaxKind::DatasetClause), Ev::Advance, Ev::Open(SyntaxKind::NamedGraphClause), Ev::Advance, Ev::Open(SyntaxKind::SourceSelector), Ev::Open(SyntaxKind::iri), Ev::Open(SyntaxKind::PrefixedName), Ev::Advance, Ev::Close, Ev::Close, Ev::Close, Ev::Close, Ev::Close]);
}

/// On the tokens `IRIREF` a `DefaultGraphClause` node holds them, in this order, with the
/// nodes the grammar gives them and no error.
pub proof fn law_DefaultGraphClause_1(ts: Seq<SyntaxKind>, s: St)
    requires
        peek_at(ts, s.pos + 0) == SyntaxKind::IRIREF,
    ensures
        rule_DefaultGraphClause(ts, s) == (St { evs: s.evs + seq![Ev::Open(SyntaxKind::DefaultGraphClause), Ev::Open(SyntaxKind::SourceSelector), Ev::Open(SyntaxKind::iri), Ev::Advance, Ev::Close, Ev::Close, Ev::Close], pos: s.pos + 1 }),
{
    reveal(rule_DefaultGraphClause);
    reveal(rule_SourceSelector);
    reveal(rule_iri);
    reveal(st_open);
    reveal(st_close);
    reveal(st_advance);
    reveal(st_expect);
    assert(rule_DefaultGraphClause(ts, s).evs =~= s.evs + seq![Ev::Open(SyntaxKind::DefaultGraphClause), Ev::Open(SyntaxKind::SourceSelector), Ev::Open(SyntaxKind::iri), Ev::Advance, Ev::Close, Ev::Close, Ev::Close]);
}

/// On the tokens `PNAME_LN` a `DefaultGraphClause` node holds them, in this order, with the
/// nodes the grammar gives them and no error.
pub proof fn law_DefaultGraphClause_2(ts: Seq<SyntaxKind>, s: St)
    requires
        peek_at(ts, s.pos + 0) == SyntaxKind::PNAME_LN,
    ensures
        rule_DefaultGraphClause(ts, s) == (St { evs: s.evs + seq![Ev::Open(SyntaxKind::DefaultGraphClause), Ev::Open(SyntaxKind::SourceSelector), Ev::Open(SyntaxKind::iri), Ev::Open(SyntaxKind::PrefixedName), Ev::Advance, Ev::Close, Ev::Close, Ev::Close, Ev::Close], pos: s.pos + 1 }),
{
    reveal(rule_DefaultGraphClause);
    reveal(rule_PrefixedName);
    reveal(rule_SourceSelector);
    reveal(rule_iri);
    reveal(st_open);
    reveal(st_close);
    reveal(st_advance);
    reveal(st_expect);
    assert(rule_DefaultGraphClause(ts, s).evs =~= s.evs + seq![Ev::Open(SyntaxKind::DefaultGraphClause), Ev::Open(SyntaxKind::SourceSelector), Ev::Open(SyntaxKind::iri), Ev::Open(SyntaxKind::PrefixedName), Ev::Advance, Ev::Close, Ev::Close, Ev::Close, Ev::Close]);
}

/// On the tokens `PNAME_NS` a `DefaultGraphClause` node holds them, in this order, with the
/// nodes the grammar gives them and no error.
pub proof fn law_DefaultGraphClause_3(ts: Seq<SyntaxKind>, s: St)
    requires
        peek_at(ts, s.pos + 0) == SyntaxKind::PNAME_NS,
    ensures
        rule_DefaultGraphClause(ts, s) == (St { evs: s.evs + seq![Ev::Open(SyntaxKind::DefaultGraphClause), Ev::Open(SyntaxKind::SourceSelector), Ev::Open(SyntaxKind::iri), Ev::Open(SyntaxKind::PrefixedName), Ev::Advance, Ev::Close, Ev::Close, Ev::Close, Ev::Close], pos: s.pos + 1 }),
{
    reveal(rule_DefaultGraphClause);
    reveal(rule_PrefixedName);
    reveal(rule_SourceSelector);
    reveal(rule_iri);
    reveal(st_open);
    reveal(st_close);
    reveal(st_advance);
    reveal(st_expect);
    assert(rule_DefaultGraphClause(ts, s).evs =~= s.evs + seq![Ev::Open(SyntaxKind::DefaultGraphClause), Ev::Open(SyntaxKind::SourceSelector), Ev::Open(SyntaxKind::iri), Ev::Open(SyntaxKind::PrefixedName), Ev::Advance, Ev::Close, Ev::Close, Ev::Close, Ev::Close]);
}

/// On the tokens `DROP` `ALL` a `Drop` node holds them, in this order, with the
/// nodes the grammar gives them and no error.
pub proof fn law_Drop_1(ts: Seq<SyntaxKind>, s: St)
    requires
        peek_at(ts, s.pos + 0) == SyntaxKind::DROP,
        peek_at(ts, s.pos + 1) == SyntaxKind::ALL,
    ensures
        rule_Drop(ts, s) == (St { evs: s.evs + seq![Ev::Open(SyntaxKind::Drop), Ev::Advance, Ev::Open(SyntaxKind::GraphRefAll), Ev::Advance, Ev::Close, Ev::Close], pos: s.pos + 2 }),
{
    reveal(rule_Drop);
    reveal(rule_GraphRefAll);
    reveal(st_open);
    reveal(st_close);
    reveal(st_advance);
    reveal(st_expect);
    assert(rule_Drop(ts, s).evs =~= s.evs + seq![Ev::Open(SyntaxKind::Drop), Ev::Advance, Ev::Open(SyntaxKind::GraphRefAll), Ev::Advance, Ev::Close, Ev::Close]);
}

/// On the tokens `DROP` `DEFAULT` a `Drop` node holds them, in this order, with the
/// nodes the grammar gives them and no error.
pub proof fn law_Drop_2(ts: Seq<SyntaxKind>, s: St)
    requires
        peek_at(ts, s.pos + 0) == SyntaxKind::DROP,
        peek_at(ts, s.pos + 1) == SyntaxKind::DEFAULT,
    ensures
        rule_Drop(ts, s) == (St { evs: s.evs + seq![Ev::Open(SyntaxKind::Drop), Ev::Advance, Ev::Open(SyntaxKind::GraphRefAll), Ev::Advance, Ev::Close, Ev::Close], pos: s.pos + 2 }),
{
    reveal(rule_Drop);
    reveal(rule_GraphRefAll);
    reveal(st_open);
    reveal(st_close);
    reveal(st_advance);
    reveal(st_expect);
    assert(rule_Drop(ts, s).evs =~= s.evs + seq![Ev::Open(SyntaxKind::Drop), Ev::Advance, Ev::Open(SyntaxKind::GraphRefAll), Ev::Advance, Ev::Close, Ev::Close]);
}

/// On the tokens `DROP` `NAMED` a `Drop` node holds them, in this order, with the
/// nodes the grammar gives them and no error.
pub proof fn law_Drop_3(ts: Seq<SyntaxKind>, s: St)
    requires
        peek_at(ts, s.pos + 0) == SyntaxKind::DROP,
        peek_at(ts, s.pos + 1) == SyntaxKind::NAMED,
    ensures
        rule_Drop(ts, s) == (St { evs: s.evs + seq![Ev::Open(SyntaxKind::Drop), Ev::Advance, Ev::Open(SyntaxKind::GraphRefAll), Ev::Advance, Ev::Close, Ev::Close], pos: s.pos + 2 }),
{
    reveal(rule_Drop);
    reveal(rule_GraphRefAll);
    reveal(st_open);
    reveal(st_close);
    reveal(st_advance);
    reveal(st_expect);
    assert(rule_Drop(ts, s).evs =~= s.evs + seq![Ev::Open(SyntaxKind::Drop), Ev::Advance, Ev::Open(SyntaxKind::GraphRefAll), Ev::Advance, Ev::Close, Ev::Close]);
}

/// On the tokens `DROP` `GRAPH` `IRIREF` a `Drop` node holds them, in this order, with the
/// nodes the grammar gives them and no error.
pub proof fn law_Drop_4(ts: Seq<SyntaxKind>, s: St)
    requires
        peek_at(ts, s.pos + 0) == SyntaxKind::DROP,
        peek_at(ts, s.pos + 1) == SyntaxKind::GRAPH,
        peek_at(ts, s.pos + 2) == SyntaxKind::IRIREF,
    ensures
        rule_Drop(ts, s) == (St { evs: s.evs + seq![Ev::Open(SyntaxKind::Drop), Ev::Advance, Ev::Open(SyntaxKind::GraphRefAll), Ev::Open(SyntaxKind::GraphRef), Ev::Advance, Ev::Open(SyntaxKind::iri), Ev::Advance, Ev::Close, Ev::Close, Ev::Close, Ev::Close], pos: s.pos + 3 }),
{
    reveal(rule_Drop);
    reveal(rule_GraphRef);
    reveal(rule_GraphRefAll);
    reveal(rule_iri);
    reveal(st_open);
    reveal(st_close);
    reveal(st_advance);
    reveal(st_expect);
    assert(rule_Drop(ts, s).evs =~= s.evs + seq![Ev::Open(SyntaxKind::Drop), Ev::Advance, Ev::Open(SyntaxKind::GraphRefAll), Ev::Open(SyntaxKind::GraphRef), Ev::Advance, Ev::Open(SyntaxKind::iri), Ev::Advance, Ev::Close, Ev::Close, Ev::Close, Ev::Close]);
}

/// On the tokens `DROP` `GRAPH` `PNAME_LN` a `Drop` node holds them, in this order, with the
/// nodes the grammar gives them and no error.
pub proof fn law_Drop_5(ts: Seq<SyntaxKind>, s: St)
    requires
        peek_at(ts, s.pos + 0) == SyntaxKind::DROP,
        peek_at(ts, s.pos + 1) == SyntaxKind::GRAPH,
        peek_at(ts, s.pos + 2) == SyntaxKind::PNAME_LN,
    ensures
        rule_Drop(ts, s) == (St { evs: s.evs + seq![Ev::Open(SyntaxKind::Drop), Ev::Advance, Ev::Open(SyntaxKind::GraphRefAll), Ev::Open(SyntaxKind::GraphRef), Ev::Advance, Ev::Open(SyntaxKind::iri), Ev::Open(SyntaxKind::PrefixedName), Ev::Advance, Ev::Close, Ev::Close, Ev::Close, Ev::Close, Ev::Close], pos: s.pos + 3 }),
{
    reveal(rule_Drop);
    reveal(rule_GraphRef);
    reveal(rule_GraphRefAll);
    reveal(rule_PrefixedName);
    reveal(rule_iri);
    reveal(st_open);
    reveal(st_close);
    reveal(st_advance);
    reveal(st_expect);
    assert(rule_Drop(ts, s).evs =~= s.evs + seq![Ev::Open(SyntaxKind::Drop), Ev::Advance, Ev::Open(SyntaxKind::GraphRefAll), Ev::Open(SyntaxKind::GraphRef), Ev::Advance, Ev::Open(SyntaxKind::iri), Ev::Open(SyntaxKind::PrefixedName), Ev::Advance, Ev::Close, Ev::Close, Ev::Close, Ev::Close, Ev::Close]);
}

/// On the tokens `DROP` `GRAPH` `PNAME_NS` a `Drop` node holds them, in this order, with the
/// nodes the grammar gives them and no error.
pub proof fn law_Drop_6(ts: Seq<SyntaxKind>, s: St)
    requires
        peek_at(ts, s.pos + 0) == SyntaxKind::DROP,
        peek_at(ts, s.pos + 1) == SyntaxKind::GRAPH,
        peek_at(ts, s.pos + 2) == SyntaxKind::PNAME_NS,
    ensures
        rule_Drop(ts, s) == (St { evs: s.evs + seq![Ev::Open(SyntaxKind::Drop), Ev::Advance, Ev::Open(SyntaxKind::GraphRefAll), Ev::Open(SyntaxKind::GraphRef), Ev::Advance, Ev::Open(SyntaxKind::iri), Ev::Open(SyntaxKind::PrefixedName), Ev::Advance, Ev::Close, Ev::Close, Ev::Close, Ev::Close, Ev::Close], pos: s.pos + 3 }),
{
    reveal(rule_Drop);
    reveal(rule_GraphRef);
    reveal(rule_GraphRefAll);
    reveal(rule_PrefixedName);
    reveal(rule_iri);
    reveal(st_open);
    reveal(st_close);
    reveal(st_advance);
    reveal(st_expect);
    assert(rule_Drop(ts, s).evs =~= s.evs + seq![Ev::Open(SyntaxKind::Drop), Ev::Advance, Ev::Open(SyntaxKind::GraphRefAll), Ev::Open(SyntaxKind::GraphRef), Ev::Advance, Ev::Open(SyntaxKind::iri), Ev::Open(SyntaxKind::PrefixedName), Ev::Advance, Ev::Close, Ev::Close, Ev::Close, Ev::Close, Ev::Close]);
}

/// On the tokens `IRIREF` a `ExprTripleTermSubject` node holds them, in this order, with the
/// nodes the grammar gives them and no error.
pub proof fn law_ExprTripleTermSubject_1(ts: Seq<SyntaxKind>, s: St)
    requires
        peek_at(ts, s.pos + 0) == SyntaxKind::IRIREF,
    ensures
        rule_ExprTripleTermSubject(ts, s) == (St { evs: s.evs + seq![Ev::Open(SyntaxKind::ExprTripleTermSubject), Ev::Open(SyntaxKind::iri), Ev::Advance, Ev::Close, Ev::Close], pos: s.pos + 1 }),
{
    reveal(rule_ExprTripleTermSubject);
    reveal(rule_iri);
    reveal(st_open);
    reveal(st_close);
    reveal(st_advance);
    reveal(st_expect);
    assert(rule_ExprTripleTermSubject(ts, s).evs =~= s.evs + seq![Ev::Open(SyntaxKind::ExprTripleTermSubject), Ev::Open(SyntaxKind::iri), Ev::Advance, Ev::Close, Ev::Close]);
}

/// On the tokens `PNAME_LN` a `ExprTripleTermSubject` node holds them, in this order, with the
/// nodes the grammar gives them and no error.
pub proof fn law_ExprTripleTermSubject_2(ts: Seq<SyntaxKind>, s: St)
    requires
        peek_at(ts, s.pos + 0) == SyntaxKind::PNAME_LN,
    ensures
        rule_ExprTripleTermSubject(ts, s) == (St { evs: s.evs + seq![Ev::Open(SyntaxKind::ExprTripleTermSubject), Ev::Open(SyntaxKind::iri), Ev::Open(SyntaxKind::PrefixedName), Ev::Advance, Ev::Close, Ev::Close, Ev::Close], pos: s.pos + 1 }),
{
    reveal(rule_ExprTripleTermSubject);
    reveal(rule_PrefixedName);
    reveal(rule_iri);
    reveal(st_open);
    reveal(st_close);
    reveal(st_advance);
    reveal(st_expect);
    assert(rule_ExprTripleTermSubject(ts, s).evs =~= s.evs + seq![Ev::Open(SyntaxKind::ExprTripleTermSubject), Ev::Open(SyntaxKind::iri), Ev::Open(SyntaxKind::PrefixedName), Ev::Advance, Ev::Close, Ev::Close, Ev::Close]);
}

/// On the tokens `PNAME_NS` a `ExprTripleTermSubject` node holds them, in this order, with the
/// nodes the grammar gives them and no error.
pub proof fn law_ExprTripleTermSubject_3(ts: Seq<SyntaxKind>, s: St)
    requires
        peek_at(ts, s.pos + 0) == SyntaxKind::PNAME_NS,
    ensures
        rule_ExprTripleTermSubject(ts, s) == (St { evs: s.evs + seq![Ev::Open(SyntaxKind::ExprTripleTermSubject), Ev::Open(SyntaxKind::iri), Ev::Open(SyntaxKind::PrefixedName), Ev::Advance, Ev::Close, Ev::Close, Ev::Close], pos: s.pos + 1 }),
{
    reveal(rule_ExprTripleTermSubject);
    reveal(rule_PrefixedName);
    reveal(rule_iri);
    reveal(st_open);
    reveal(st_close);
    reveal(st_advance);
    reveal(st_expect);
    assert(rule_ExprTripleTermSubject(ts, s).evs =~= s.evs + seq![Ev::Open(SyntaxKind::ExprTripleTermSubject), Ev::Open(SyntaxKind::iri), Ev::Open(SyntaxKind::PrefixedName), Ev::Advance, Ev::Close, Ev::Close, Ev::Close]);
}

/// On the tokens `VAR1` a `ExprTripleTermSubject` node holds them, in this order, with the
/// nodes the grammar gives them and no error.
pub proof fn law_ExprTripleTermSubject_4(ts: Seq<SyntaxKind>, s: St)
    requires
        peek_at(ts, s.pos + 0) == SyntaxKind::VAR1,
    ensures
        rule_ExprTripleTermSubject(ts, s) == (St { evs: s.evs + seq![Ev::Open(SyntaxKind::ExprTripleTermSubject), Ev::Open(SyntaxKind::Var), Ev::Advance, Ev::Close, Ev::Close], pos: s.pos + 1 }),
{
    reveal(rule_ExprTripleTermSubject);
    reveal(rule_Var);
    reveal(st_open);
    reveal(st_close);
    reveal(st_advance);
    reveal(st_expect);
    assert(rule_ExprTripleTermSubject(ts, s).evs =~= s.evs + seq![Ev::Open(SyntaxKind::ExprTripleTermSubject), Ev::Open(SyntaxKind::Var), Ev::Advance, Ev::Close, Ev::Close]);
}

/// On the tokens `VAR2` a `ExprTripleTermSubject` node holds them, in this order, with the
/// nodes the grammar gives them and no error.
pub proof fn law_ExprTripleTermSubject_5(ts: Seq<SyntaxKind>, s: St)
    requires
        peek_at(ts, s.pos + 0) == SyntaxKind::VAR2,
    ensures
        rule_ExprTripleTermSubject(ts, s) == (St { evs: s.evs + seq![Ev::Open(SyntaxKind::ExprTripleTermSubject), Ev::Open(SyntaxKind::Var), Ev::Advance, Ev::Close, Ev::Close], pos: s.pos + 1 }),
{
    reveal(rule_ExprTripleTermSubject);
    reveal(rule_Var);
    reveal(st_open);
    reveal(st_close);
    reveal(st_advance);
    reveal(st_expect);
    assert(rule_ExprTripleTermSubject(ts, s).evs =~= s.evs + seq![Ev::Open(SyntaxKind::ExprTripleTermSubject), Ev::Open(SyntaxKind::Var), Ev::Advance, Ev::Close, Ev::Close]);
}

/// On the tokens `DEFAULT` a `GraphOrDefault` node holds them, in this order, with the
/// nodes the grammar gives them and no error.
pub proof fn law_GraphOrDefault_1(ts: Seq<SyntaxKind>, s: St)
    requires
        peek_at(ts, s.pos + 0) == SyntaxKind::DEFAULT,
    ensures
        rule_GraphOrDefault(ts, s) == (St { evs: s.evs + seq![Ev::Open(SyntaxKind::GraphOrDefault), Ev::Advance, Ev::Close], pos: s.pos + 1 }),
{
    reveal(rule_GraphOrDefault);
    reveal(st_open);
    reveal(st_close);
    reveal(st_advance);
    reveal(st_expect);
    assert(rule_GraphOrDefault(ts, s).evs =~= s.evs + seq![Ev::Open(SyntaxKind::GraphOrDefault), Ev::Advance, Ev::Close]);
}

/// On the tokens `IRIREF` a `GraphOrDefault` node holds them, in this order, with the
/// nodes the grammar gives them and no error.
pub proof fn law_GraphOrDefault_2(ts: Seq<SyntaxKind>, s: St)
    requires
        peek_at(ts, s.pos + 0) == SyntaxKind::IRIREF,
    ensures
        rule_GraphOrDefault(ts, s) == (St { evs: s.evs + seq![Ev::Open(SyntaxKind::GraphOrDefault), Ev::Open(SyntaxKind::iri), Ev::Advance, Ev::Close, Ev::Close], pos: s.pos + 1 }),
{
    reveal(rule_GraphOrDefault);
    reveal(rule_iri);
    reveal(st_open);
    reveal(st_close);
    reveal(st_advance);
    reveal(st_expect);
    assert(rule_GraphOrDefault(ts, s).evs =~= s.evs + seq![Ev::Open(SyntaxKind::GraphOrDefault), Ev::Open(SyntaxKind::iri), Ev::Advance, Ev::Close, Ev::Close]);
}

/// On the tokens `PNAME_LN` a `GraphOrDefault` node holds them, in this order, with the
/// nodes the grammar gives them and no error.
pub proof fn law_GraphOrDefault_3(ts: Seq<SyntaxKind>, s: St)
    requires
        peek_at(ts, s.pos + 0) == SyntaxKind::PNAME_LN,
    ensures
        rule_GraphOrDefault(ts, s) == (St { evs: s.evs + seq![Ev::Open(SyntaxKind::GraphOrDefault), Ev::Open(SyntaxKind::iri), Ev::Open(SyntaxKind::PrefixedName), Ev::Advance, Ev::Close, Ev::Close, Ev::Close], pos: s.pos + 1 }),
{
    reveal(rule_GraphOrDefault);
    reveal(rule_PrefixedName);
    reveal(rule_iri);
    reveal(st_open);
    reveal(st_close);
    reveal(st_advance);
    reveal(st_expect);
    assert(rule_GraphOrDefault(ts, s).evs =~= s.evs + seq![Ev::Open(SyntaxKind::GraphOrDefault), Ev::Open(SyntaxKind::iri), Ev::Open(SyntaxKind::PrefixedName), Ev::Advance, Ev::Close, Ev::Close, Ev::Close]);
}

/// On the tokens `PNAME_NS` a `GraphOrDefault` node holds them, in this order, with the
/// nodes the grammar gives them and no error.
pub proof fn law_GraphOrDefault_4(ts: Seq<SyntaxKind>, s: St)
    requires
        peek_at(ts, s.pos + 0) == SyntaxKind::PNAME_NS,
    ensures
        rule_GraphOrDefault(ts, s) == (St { evs: s.evs + seq![Ev::Open(SyntaxKind::GraphOrDefault), Ev::Open(SyntaxKind::iri), Ev::Open(SyntaxKind::PrefixedName), Ev::Advance, Ev::Close, Ev::Close, Ev::Close], pos: s.pos + 1 }),
{
    reveal(rule_GraphOrDefault);
    reveal(rule_PrefixedName);
    reveal(rule_iri);
    reveal(st_open);
    reveal(st_close);
    reveal(st_advance);
    reveal(st_expect);
    assert(rule_GraphOrDefault(ts, s).evs =~= s.evs + seq![Ev::Open(SyntaxKind::GraphOrDefault), Ev::Open(SyntaxKind::iri), Ev::Open(SyntaxKind::PrefixedName), Ev::Advance, Ev::Close, Ev::Close, Ev::Close]);
}

/// On the tokens `GRAPH` `IRIREF` a `GraphOrDefault` node holds them, in this order, with the
/// nodes the grammar gives them and no error.
pub proof fn law_GraphOrDefault_5(ts: Seq<SyntaxKind>, s: St)
    requires
        peek_at(ts, s.pos + 0) == SyntaxKind::GRAPH,
        peek_at(ts, s.pos + 1) == SyntaxKind::IRIREF,
    ensures
        rule_GraphOrDefault(ts, s) == (St { evs: s.evs + seq![Ev::Open(SyntaxKind::GraphOrDefault), Ev::Advance, Ev::Open(SyntaxKind::iri), Ev::Advance, Ev::Close, Ev::Close], pos: s.pos + 2 }),
{
    reveal(rule_GraphOrDefault);
    reveal(rule_iri);
    reveal(st_open);
    reveal(st_close);
    reveal(st_advance);
    reveal(st_expect);
    assert(rule_GraphOrDefault(ts, s).evs =~= s.evs + seq![Ev::Open(SyntaxKind::GraphOrDefault), Ev::Advance, Ev::Open(SyntaxKind::iri), Ev::Advance, Ev::Close, Ev::Close]);
}

/// On the tokens `GRAPH` `PNAME_LN` a `GraphOrDefault` node holds them, in this order, with the
/// nodes the grammar gives them and no error.
pub proof fn law_GraphOrDefault_6(ts: Seq<SyntaxKind>, s: St)
    requires
        peek_at(ts, s.pos + 0) == SyntaxKind::GRAPH,
        peek_at(ts, s.pos + 1) == SyntaxKind::PNAME_LN,
    ensures
        rule_GraphOrDefault(ts, s) == (St { evs: s.evs + seq![Ev::Open(SyntaxKind::GraphOrDefault), Ev::Advance, Ev::Open(SyntaxKind::iri), Ev::Open(SyntaxKind::PrefixedName), Ev::Advance, Ev::Close, Ev::Close, Ev::Close], pos: s.pos + 2 }),
{
    reveal(rule_GraphOrDefault);
    reveal(rule_PrefixedName);
    reveal(rule_iri);
    reveal(st_open);
    reveal(st_close);
    reveal(st_advance);
    reveal(st_expect);
    assert(rule_GraphOrDefault(ts, s).evs =~= s.evs + seq![Ev::Open(SyntaxKind::GraphOrDefault), Ev::Advance, Ev::Open(SyntaxKind::iri), Ev::Open(SyntaxKind::PrefixedName), Ev::Advance, Ev::Close, Ev::Close, Ev::Close]);
}

/// On the tokens `GRAPH` `IRIREF` a `GraphRef` node holds them, in this order, with the
/// nodes the grammar gives them and no error.
pub proof fn law_GraphRef_1(ts: Seq<SyntaxKind>, s: St)
    requires
        peek_at(ts, s.pos + 0) == SyntaxKind::GRAPH,
        peek_at(ts, s.pos + 1) == SyntaxKind::IRIREF,
    ensures
        rule_GraphRef(ts, s) == (St { evs: s.evs + seq![Ev::Open(SyntaxKind::GraphRef), Ev::Advance, Ev::Open(SyntaxKind::iri), Ev::Advance, Ev::Close, Ev::Close], pos: s.pos + 2 }),
{
    reveal(rule_GraphRef);
    reveal(rule_iri);
    reveal(st_open);
    reveal(st_close);
    reveal(st_advance);
    reveal(st_expect);
    assert(rule_GraphRef(ts, s).evs =~= s.evs + seq![Ev::Open(SyntaxKind::GraphRef), Ev::Advance, Ev::Open(SyntaxKind::iri), Ev::Advance, Ev::Close, Ev::Close]);
}

/// On the tokens `GRAPH` `PNAME_LN` a `GraphRef` node holds them, in this order, with the
/// nodes the grammar gives them and no error.
pub proof fn law_GraphRef_2(ts: Seq<SyntaxKind>, s: St)
    requires
        peek_at(ts, s.pos + 0) == SyntaxKind::GRAPH,
        peek_at(ts, s.pos + 1) == SyntaxKind::PNAME_LN,
    ensures
        rule_GraphRef(ts, s) == (St { evs: s.evs + seq![Ev::Open(SyntaxKind::GraphRef), Ev::Advance, Ev::Open(SyntaxKind::iri), Ev::Open(SyntaxKind::PrefixedName), Ev::Advance, Ev::Close, Ev::Close, Ev::Close], pos: s.pos + 2 }),
{
    reveal(rule_GraphRef);
    reveal(rule_PrefixedName);
    reveal(rule_iri);
    reveal(st_open);
    reveal(st_close);
    reveal(st_advance);
    reveal(st_expect);
    assert(rule_GraphRef(ts, s).evs =~= s.evs + seq![Ev::Open(SyntaxKind::GraphRef), Ev::Advance, Ev::Open(SyntaxKind::iri), Ev::Open(SyntaxKind::PrefixedName), Ev::Advance, Ev::Close, Ev::Close, Ev::Close]);
}

/// On the tokens `GRAPH` `PNAME_NS` a `GraphRef` node holds them, in this order, with the
/// nodes the grammar gives them and no error.
pub proof fn law_GraphRef_3(ts: Seq<SyntaxKind>, s: St)
    requires
        peek_at(ts, s.pos + 0) == SyntaxKind::GRAPH,
        peek_at(ts, s.pos + 1) == SyntaxKind::PNAME_NS,
    ensures
        rule_GraphRef(ts, s) == (St { evs: s.evs + seq![Ev::Open(SyntaxKind::GraphRef), Ev::Advance, Ev::Open(SyntaxKind::iri), Ev::Open(SyntaxKind::PrefixedName), Ev::Advance, Ev::Close, Ev::Close, Ev::Close], pos: s.pos + 2 }),
{
    reveal(rule_GraphRef);
    reveal(rule_PrefixedName);
    reveal(rule_iri);
    reveal(st_open);
    reveal(st_close);
    reveal(st_advance);
    reveal(st_expect);
    assert(rule_GraphRef(ts, s).evs =~= s.evs + seq![Ev::Open(SyntaxKind::GraphRef), Ev::Advance, Ev::Open(SyntaxKind::iri), Ev::Open(SyntaxKind::PrefixedName), Ev::Advance, Ev::Close, Ev::Close, Ev::Close]);
}

/// On the tokens `ALL` a `GraphRefAll` node holds them, in this order, with the
/// nodes the grammar gives them and no error.
pub proof fn law_GraphRefAll_1(ts: Seq<SyntaxKind>, s: St)
    requires
        peek_at(ts, s.pos + 0) == SyntaxKind::ALL,
    ensures
        rule_GraphRefAll(ts, s) == (St { evs: s.evs + seq![Ev::Open(SyntaxKind::GraphRefAll), Ev::Advance, Ev::Close], pos: s.pos + 1 }),
{
    reveal(rule_GraphRefAll);
    reveal(st_open);
    reveal(st_close);
    reveal(st_advance);
    reveal(st_expect);
    assert(rule_GraphRefAll(ts, s).evs =~= s.evs + seq![Ev::Open(SyntaxKind::GraphRefAll), Ev::Advance, Ev::Close]);
}

/// On the tokens `DEFAULT` a `GraphRefAll` node holds them, in this order, with the
/// nodes the grammar gives them and no error.
pub proof fn law_GraphRefAll_2(ts: Seq<SyntaxKind>, s: St)
    requires
        peek_at(ts, s.pos + 0) == SyntaxKind::DEFAULT,
    ensures
        rule_GraphRefAll(ts, s) == (St { evs: s.evs + seq![Ev::Open(SyntaxKind::GraphRefAll), Ev::Advance, Ev::Close], pos: s.pos + 1 }),
{
    reveal(rule_GraphRefAll);
    reveal(st_open);
    reveal(st_close);
    reveal(st_advance);
    reveal(st_expect);
    assert(rule_GraphRefAll(ts, s).evs =~= s.evs + seq![Ev::Open(SyntaxKind::GraphRefAll), Ev::Advance, Ev::Close]);
}

/// On the tokens `NAMED` a `GraphRefAll` node holds them, in this order, with the
/// nodes the grammar gives them and no error.
pub proof fn law_GraphRefAll_3(ts: Seq<SyntaxKind>, s: St)
    requires
        peek_at(ts, s.pos + 0) == SyntaxKind::NAMED,
    ensures
        rule_GraphRefAll(ts, s) == (St { evs: s.evs + seq![Ev::Open(SyntaxKind::GraphRefAll), Ev::Advance, Ev::Close], pos: s.pos + 1 }),
{
    reveal(rule_GraphRefAll);
    reveal(st_open);
    reveal(st_close);
    reveal(st_advance);
    reveal(st_expect);
    assert(rule_GraphRefAll(ts, s).evs =~= s.evs + seq![Ev::Open(SyntaxKind::GraphRefAll), Ev::Advance, Ev::Close]);
}

/// On the tokens `GRAPH` `IRIREF` a `GraphRefAll` node holds them, in this order, with the
/// nodes the grammar gives them and no error.
pub proof fn law_GraphRefAll_4(ts: Seq<SyntaxKind>, s: St)
    requires
        peek_at(ts, s.pos + 0) == SyntaxKind::GRAPH,
        peek_at(ts, s.pos + 1) == SyntaxKind::IRIREF,
    ensures
        rule_GraphRefAll(ts, s) == (St { evs: s.evs + seq![Ev::Open(SyntaxKind::GraphRefAll), Ev::Open(SyntaxKind::GraphRef), Ev::Advance, Ev::Open(SyntaxKind::iri), Ev::Advance, Ev::Close, Ev::Close, Ev::Close], pos: s.pos + 2 }),
{
    reveal(rule_GraphRef);
    reveal(rule_GraphRefAll);
    reveal(rule_iri);
    reveal(st_open);
    reveal(st_close);
    reveal(st_advance);
    reveal(st_expect);
    assert(rule_GraphRefAll(ts, s).evs =~= s.evs + seq![Ev::Open(SyntaxKind::GraphRefAll), Ev::Open(SyntaxKind::GraphRef), Ev::Advance, Ev::Open(SyntaxKind::iri), Ev::Advance, Ev::Close, Ev::Close, Ev::Close]);
}

/// On the tokens `GRAPH` `PNAME_LN` a `GraphRefAll` node holds them, in this order, with the
/// nodes the grammar gives them and no error.
pub proof fn law_GraphRefAll_5(ts: Seq<SyntaxKind>, s: St)
    requires
        peek_at(ts, s.pos + 0) == SyntaxKind::GRAPH,
        peek_at(ts, s.pos + 1) == SyntaxKind::PNAME_LN,
    ensures
        rule_GraphRefAll(ts, s) == (St { evs: s.evs + seq![Ev::Open(SyntaxKind::GraphRefAll), Ev::Open(SyntaxKind::GraphRef), Ev::Advance, Ev::Open(SyntaxKind::iri), Ev::Open(SyntaxKind::PrefixedName), Ev::Advance, Ev::Close, Ev::Close, Ev::Close, Ev::Close], pos: s.pos + 2 }),
{
    reveal(rule_GraphRef);
    reveal(rule_GraphRefAll);
    reveal(rule_PrefixedName);
    reveal(rule_iri);
    reveal(st_open);
    reveal(st_close);
    reveal(st_advance);
    reveal(st_expect);
    assert(rule_GraphRefAll(ts, s).evs =~= s.evs + seq![Ev::Open(SyntaxKind::GraphRefAll), Ev::Open(SyntaxKind::GraphRef), Ev::Advance, Ev::Open(SyntaxKind::iri), Ev::Open(SyntaxKind::PrefixedName), Ev::Advance, Ev::Close, Ev::Close, Ev::Close, Ev::Close]);
}

/// On the tokens `GRAPH` `PNAME_NS` a `GraphRefAll` node holds them, in this order, with the
/// nodes the grammar gives them and no error.
pub proof fn law_GraphRefAll_6(ts: Seq<SyntaxKind>, s: St)
    requires
        peek_at(ts, s.pos + 0) == SyntaxKind::GRAPH,
        peek_at(ts, s.pos + 1) == SyntaxKind::PNAME_NS,
    ensures
        rule_GraphRefAll(ts, s) == (St { evs: s.evs + seq![Ev::Open(SyntaxKind::GraphRefAll), Ev::Open(SyntaxKind::GraphRef), Ev::Advance, Ev::Open(SyntaxKind::iri), Ev::Open(SyntaxKind::PrefixedName), Ev::Advance, Ev::Close, Ev::Close, Ev::Close, Ev::Close], pos: s.pos + 2 }),
{
    reveal(rule_GraphRef);
    reveal(rule_GraphRefAll);
    reveal(rule_PrefixedName);
    reveal(rule_iri);
    reveal(st_open);
    reveal(st_close);
    reveal(st_advance);
    reveal(st_expect);
    assert(rule_GraphRefAll(ts, s).evs =~= s.evs + seq![Ev::Open(SyntaxKind::GraphRefAll), Ev::Open(SyntaxKind::GraphRef), Ev::Advance, Ev::Open(SyntaxKind::iri), Ev::Open(SyntaxKind::PrefixedName), Ev::Advance, Ev::Close, Ev::Close, Ev::Close, Ev::Close]);
}

/// On the tokens `LIMIT` `INTEGER` a `LimitClause` node holds them, in this order, with the
/// nodes the grammar gives them and no error.
pub proof fn law_LimitClause_1(ts: Seq<SyntaxKind>, s: St)
    requires
        peek_at(ts, s.pos + 0) == SyntaxKind::LIMIT,
        peek_at(ts, s.pos + 1) == SyntaxKind::INTEGER,
    ensures
        rule_LimitClause(ts, s) == (St { evs: s.evs + seq![Ev::Open(SyntaxKind::LimitClause), Ev::Advance, Ev::Advance, Ev::Close], pos: s.pos + 2 }),
{
    reveal(rule_LimitClause);
    reveal(st_open);
    reveal(st_close);
    reveal(st_advance);
    reveal(st_expect);
    assert(rule_LimitClause(ts, s).evs =~= s.evs + seq![Ev::Open(SyntaxKind::LimitClause), Ev::Advance, Ev::Advance, Ev::Close]);
}

/// On the tokens `LIMIT` `INTEGER` a `LimitOffsetClauses` node holds them, in this order, with the
/// nodes the grammar gives them and no error.
pub proof fn law_LimitOffsetClauses_1(ts: Seq<SyntaxKind>, s: St)
    requires
        peek_at(ts, s.pos + 0) == SyntaxKind::LIMIT,
        peek_at(ts, s.pos + 1) == SyntaxKind::INTEGER,
        !(peek_at(ts, s.pos + 2) == SyntaxKind::OFFSET),
    ensures
        rule_LimitOffsetClauses(ts, s) == (St { evs: s.evs + seq![Ev::Open(SyntaxKind::LimitOffsetClauses), Ev::Open(SyntaxKind::LimitClause), Ev::Advance, Ev::Advance, Ev::Close, Ev::Close], pos: s.pos + 2 }),
{
    reveal(rule_LimitClause);
    reveal(rule_LimitOffsetClauses);
    reveal(st_open);
    reveal(st_close);
    reveal(st_advance);
    reveal(st_expect);
    assert(rule_LimitOffsetClauses(ts, s).evs =~= s.evs + seq![Ev::Open(SyntaxKind::LimitOffsetClauses), Ev::Open(SyntaxKind::LimitClause), Ev::Advance, Ev::Advance, Ev::Close, Ev::Close]);
}

/// On the tokens `OFFSET` `INTEGER` a `LimitOffsetClauses` node holds them, in this order, with the
/// nodes the grammar gives them and no error.
pub proof fn law_LimitOffsetClauses_2(ts: Seq<SyntaxKind>, s: St)
    requires
        peek_at(ts, s.pos + 0) == SyntaxKind::OFFSET,
        peek_at(ts, s.pos + 1) == SyntaxKind::INTEGER,
        !(peek_at(ts, s.pos + 2) == SyntaxKind::LIMIT),
    ensures
        rule_LimitOffsetClauses(ts, s) == (St { evs: s.evs + seq![Ev::Open(SyntaxKind::LimitOffsetClauses), Ev::Open(SyntaxKind::OffsetClause), Ev::Advance, Ev::Advance, Ev::Close, Ev::Close], pos: s.pos + 2 }),
{
    reveal(rule_LimitOffsetClauses);
    reveal(rule_OffsetClause);
    reveal(st_open);
    reveal(st_close);
    reveal(st_advance);
    reveal(st_expect);
    assert(rule_LimitOffsetClauses(ts, s).evs =~= s.evs + seq![Ev::Open(SyntaxKind::LimitOffsetClauses), Ev::Open(SyntaxKind::OffsetClause), Ev::Advance, Ev::Advance, Ev::Close, Ev::Close]);
}

/// On the tokens `LIMIT` `INTEGER` `OFFSET` `INTEGER` a `LimitOffsetClauses` node holds them, in this order, with the
/// nodes the grammar gives them and no error.
pub proof fn law_LimitOffsetClauses_3(ts: Seq<SyntaxKind>, s: St)
    requires
        peek_at(ts, s.pos + 0) == SyntaxKind::LIMIT,
        peek_at(ts, s.pos + 1) == SyntaxKind::INTEGER,
        peek_at(ts, s.pos + 2) == SyntaxKind::OFFSET,
        peek_at(ts, s.pos + 3) == SyntaxKind::INTEGER,
    ensures
        rule_LimitOffsetClauses(ts, s) == (St { evs: s.evs + seq![Ev::Open(SyntaxKind::LimitOffsetClauses), Ev::Open(SyntaxKind::LimitClause), Ev::Advance, Ev::Advance, Ev::Close, Ev::Open(SyntaxKind::OffsetClause), Ev::Advance, Ev::Advance, Ev::Close, Ev::Close], pos: s.pos + 4 }),
{
    reveal(rule_LimitClause);
    reveal(rule_LimitOffsetClauses);
    reveal(rule_OffsetClause);
    reveal(st_open);
    reveal(st_close);
    reveal(st_advance);
    reveal(st_expect);
    assert(rule_LimitOffsetClauses(ts, s).evs =~= s.evs + seq![Ev::Open(SyntaxKind::LimitOffsetClauses), Ev::Open(SyntaxKind::LimitClause), Ev::Advance, Ev::Advance, Ev::Close, Ev::Open(SyntaxKind::OffsetClause), Ev::Advance, Ev::Advance, Ev::Close, Ev::Close]);
}

/// On the tokens `OFFSET` `INTEGER` `LIMIT` `INTEGER` a `LimitOffsetClauses` node holds them, in this order, with the
/// nodes the grammar gives them and no error.
pub proof fn law_LimitOffsetClauses_4(ts: Seq<SyntaxKind>, s: St)
    requires
        peek_at(ts, s.pos + 0) == SyntaxKind::OFFSET,
        peek_at(ts, s.pos + 1) == SyntaxKind::INTEGER,
        peek_at(ts, s.pos + 2) == SyntaxKind::LIMIT,
        peek_at(ts, s.pos + 3) == SyntaxKind::INTEGER,
    ensures
        rule_LimitOffsetClauses(ts, s) == (St { evs: s.evs + seq![Ev::Open(SyntaxKind::LimitOffsetClauses), Ev::Open(SyntaxKind::OffsetClause), Ev::Advance, Ev::Advance, Ev::Close, Ev::Open(SyntaxKind::LimitClause), Ev::Advance, Ev::Advance, Ev::Close, Ev::Close], pos: s.pos + 4 }),
{
    reveal(rule_LimitClause);
    reveal(rule_LimitOffsetClauses);
    reveal(rule_OffsetClause);
    reveal(st_open);
    reveal(st_close);
    reveal(st_advance);
    reveal(st_expect);
    assert(rule_LimitOffsetClauses(ts, s).evs =~= s.evs + seq![Ev::Open(SyntaxKind::LimitOffsetClauses), Ev::Open(SyntaxKind::OffsetClause), Ev::Advance, Ev::Advance, Ev::Close, Ev::Open(SyntaxKind::LimitClause), Ev::Advance, Ev::Advance, Ev::Close, Ev::Close]);
}

/// On the tokens `LOAD` `IRIREF` a `Load` node holds them, in this order, with the
/// nodes the grammar gives them and no error.
pub proof fn law_Load_1(ts: Seq<SyntaxKind>, s: St)
    requires
        peek_at(ts, s.pos + 0) == SyntaxKind::LOAD,
        peek_at(ts, s.pos + 1) == SyntaxKind::IRIREF,
        !(peek_at(ts, s.pos + 2) == SyntaxKind::INTO),
    ensures
        rule_Load(ts, s) == (St { evs: s.evs + seq![Ev::Open(SyntaxKind::Load), Ev::Advance, Ev::Open(SyntaxKind::iri), Ev::Advance, Ev::Close, Ev::Close], pos: s.pos + 2 }),
{
    reveal(rule_Load);
    reveal(rule_iri);
    reveal(st_open);
    reveal(st_close);
    reveal(st_advance);
    reveal(st_expect);
    assert(rule_Load(ts, s).evs =~= s.evs + seq![Ev::Open(SyntaxKind::Load), Ev::Advance, Ev::Open(SyntaxKind::iri), Ev::Advance, Ev::Close, Ev::Close]);
}

/// On the tokens `LOAD` `PNAME_LN` a `Load` node holds them, in this order, with the
/// nodes the grammar gives them and no error.
pub proof fn law_Load_2(ts: Seq<SyntaxKind>, s: St)
    requires
        peek_at(ts, s.pos + 0) == SyntaxKind::LOAD,
        peek_at(ts, s.pos + 1) == SyntaxKind::PNAME_LN,
        !(peek_at(ts, s.pos + 2) == SyntaxKind::INTO),
    ensures
        rule_Load(ts, s) == (St { evs: s.evs + seq![Ev::Open(SyntaxKind::Load), Ev::Advance, Ev::Open(SyntaxKind::iri), Ev::Open(SyntaxKind::PrefixedName), Ev::Advance, Ev::Close, Ev::Close, Ev::Close], pos: s.pos + 2 }),
{
    reveal(rule_Load);
    reveal(rule_PrefixedName);
    reveal(rule_iri);
    reveal(st_open);
    reveal(st_close);
    reveal(st_advance);
    reveal(st_expect);
    assert(rule_Load(ts, s).evs =~= s.evs + seq![Ev::Open(SyntaxKind::Load), Ev::Advance, Ev::Open(SyntaxKind::iri), Ev::Open(SyntaxKind::PrefixedName), Ev::Advance, Ev::Close, Ev::Close, Ev::Close]);
}

/// On the tokens `LOAD` `PNAME_NS` a `Load` node holds them, in this order, with the
/// nodes the grammar gives them and no error.
pub proof fn law_Load_3(ts: Seq<SyntaxKind>, s: St)
    requires
        peek_at(ts, s.pos + 0) == SyntaxKind::LOAD,
        peek_at(ts, s.pos + 1) == SyntaxKind::PNAME_NS,
        !(peek_at(ts, s.pos + 2) == SyntaxKind::INTO),
    ensures
        rule_Load(ts, s) == (St { evs: s.evs + seq![Ev::Open(SyntaxKind::Load), Ev::Advance, Ev::Open(SyntaxKind::iri), Ev::Open(SyntaxKind::PrefixedName), Ev::Advance, Ev::Close, Ev::Close, Ev::Close], pos: s.pos + 2 }),
{
    reveal(rule_Load);
    reveal(rule_PrefixedName);
    reveal(rule_iri);
    reveal(st_open);
    reveal(st_close);
    reveal(st_advance);
    reveal(st_expect);
    assert(rule_Load(ts, s).evs =~= s.evs + seq![Ev::Open(SyntaxKind::Load), Ev::Advance, Ev::Open(SyntaxKind::iri), Ev::Open(SyntaxKind::PrefixedName), Ev::Advance, Ev::Close, Ev::Close, Ev::Close]);
}

/// On the tokens `LOAD` `SILENT` `IRIREF` a `Load` node holds them, in this order, with the
/// nodes the grammar gives them and no error.
pub proof fn law_Load_4(ts: Seq<SyntaxKind>, s: St)
    requires
        peek_at(ts, s.pos + 0) == SyntaxKind::LOAD,
        peek_at(ts, s.pos + 1) == SyntaxKind::SILENT,
        peek_at(ts, s.pos + 2) == SyntaxKind::IRIREF,
        !(peek_at(ts, s.pos + 3) == SyntaxKind::INTO),
    ensures
        rule_Load(ts, s) == (St { evs: s.evs + seq![Ev::Open(SyntaxKind::Load), Ev::Advance, Ev::Advance, Ev::Open(SyntaxKind::iri), Ev::Advance, Ev::Close, Ev::Close], pos: s.pos + 3 }),
{
    reveal(rule_Load);
    reveal(rule_iri);
    reveal(st_open);
    reveal(st_close);
    reveal(st_advance);
    reveal(st_expect);
    assert(rule_Load(ts, s).evs =~= s.evs + seq![Ev::Open(SyntaxKind::Load), Ev::Advance, Ev::Advance, Ev::Open(SyntaxKind::iri), Ev::Advance, Ev::Close, Ev::Close]);
}

/// On the tokens `LOAD` `SILENT` `PNAME_LN` a `Load` node holds them, in this order, with the
/// nodes the grammar gives them and no error.
pub proof fn law_Load_5(ts: Seq<SyntaxKind>, s: St)
    requires
        peek_at(ts, s.pos + 0) == SyntaxKind::LOAD,
        peek_at(ts, s.pos + 1) == SyntaxKind::SILENT,
        peek_at(ts, s.pos + 2) == SyntaxKind::PNAME_LN,
        !(peek_at(ts, s.pos + 3) == SyntaxKind::INTO),
    ensures
        rule_Load(ts, s) == (St { evs: s.evs + seq![Ev::Open(SyntaxKind::Load), Ev::Advance, Ev::Advance, Ev::Open(SyntaxKind::iri), Ev::Open(SyntaxKind::PrefixedName), Ev::Advance, Ev::Close, Ev::Close, Ev::Close], pos: s.pos + 3 }),
{
    reveal(rule_Load);
    reveal(rule_PrefixedName);
    reveal(rule_iri);
    reveal(st_open);
    reveal(st_close);
    reveal(st_advance);
    reveal(st_expect);
    assert(rule_Load(ts, s).evs =~= s.evs + seq![Ev::Open(SyntaxKind::Load), Ev::Advance, Ev::Advance, Ev::Open(SyntaxKind::iri), Ev::Open(SyntaxKind::PrefixedName), Ev::Advance, Ev::Close, Ev::Close, Ev::Close]);
}

/// On the tokens `LOAD` `SILENT` `PNAME_NS` a `Load` node holds them, in this order, with the
/// nodes the grammar gives them and no error.
pub proof fn law_Load_6(ts: Seq<SyntaxKind>, s: St)
    requires
        peek_at(ts, s.pos + 0) == SyntaxKind::LOAD,
        peek_at(ts, s.pos + 1) == SyntaxKind::SILENT,
        peek_at(ts, s.pos + 2) == SyntaxKind::PNAME_NS,
        !(peek_at(ts, s.pos + 3) == SyntaxKind::INTO),
    ensures
        rule_Load(ts, s) == (St { evs: s.evs + seq![Ev::Open(SyntaxKind::Load), Ev::Advance, Ev::Advance, Ev::Open(SyntaxKind::iri), Ev::Open(SyntaxKind::PrefixedName), Ev::Advance, Ev::Close, Ev::Close, Ev::Close], pos: s.pos + 3 }),
{
    reveal(rule_Load);
    reveal(rule_PrefixedName);
    reveal(rule_iri);
    reveal(st_open);
    reveal(st_close);
    reveal(st_advance);
    reveal(st_expect);
    assert(rule_Load(ts, s).evs =~= s.evs + seq![Ev::Open(SyntaxKind::Load), Ev::Advance, Ev::Advance, Ev::Open(SyntaxKind::iri), Ev::Open(SyntaxKind::PrefixedName), Ev::Advance, Ev::Close, Ev::Close, Ev::Close]);
}

/// On the tokens `MOVE` `DEFAULT` `TO` `DEFAULT` a `Move` node holds them, in this order, with the
/// nodes the grammar gives them and no error.
pub proof fn law_Move_1(ts: Seq<SyntaxKind>, s: St)
    requires
        peek_at(ts, s.pos + 0) == SyntaxKind::MOVE,
        peek_at(ts, s.pos + 1) == SyntaxKind::DEFAULT,
        peek_at(ts, s.pos + 2) == SyntaxKind::TO,
        peek_at(ts, s.pos + 3) == SyntaxKind::DEFAULT,
    ensures
        rule_Move(ts, s) == (St { evs: s.evs + seq![Ev::Open(SyntaxKind::Move), Ev::Advance, Ev::Open(SyntaxKind::GraphOrDefault), Ev::Advance, Ev::Close, Ev::Advance, Ev::Open(SyntaxKind::GraphOrDefault), Ev::Advance, Ev::Close, Ev::Close], pos: s.pos + 4 }),
{
    reveal(rule_GraphOrDefault);
    reveal(rule_Move);
    reveal(st_open);
    reveal(st_close);
    reveal(st_advance);
    reveal(st_expect);
    assert(rule_Move(ts, s).evs =~= s.evs + seq![Ev::Open(SyntaxKind::Move), Ev::Advance, Ev::Open(SyntaxKind::GraphOrDefault), Ev::Advance, Ev::Close, Ev::Advance, Ev::Open(SyntaxKind::GraphOrDefault), Ev::Advance, Ev::Close, Ev::Close]);
}

/// On the tokens `MOVE` `DEFAULT` `TO` `IRIREF` a `Move` node holds them, in this order, with the
/// nodes the grammar gives them and no error.
pub proof fn law_Move_2(ts: Seq<SyntaxKind>, s: St)
    requires
        peek_at(ts, s.pos + 0) == SyntaxKind::MOVE,
        peek_at(ts, s.pos + 1) == SyntaxKind::DEFAULT,
        peek_at(ts, s.pos + 2) == SyntaxKind::TO,
        peek_at(ts, s.pos + 3) == SyntaxKind::IRIREF,
    ensures
        rule_Move(ts, s) == (St { evs: s.evs + seq![Ev::Open(SyntaxKind::Move), Ev::Advance, Ev::Open(SyntaxKind::GraphOrDefault), Ev::Advance, Ev::Close, Ev::Advance, Ev::Open(SyntaxKind::GraphOrDefault), Ev::Open(SyntaxKind::iri), Ev::Advance, Ev::Close, Ev::Close, Ev::Close], pos: s.pos + 4 }),
{
    reveal(rule_GraphOrDefault);
    reveal(rule_Move);
    reveal(rule_iri);
    reveal(st_open);
    reveal(st_close);
    reveal(st_advance);
    reveal(st_expect);
    assert(rule_Move(ts, s).evs =~= s.evs + seq![Ev::Open(SyntaxKind::Move), Ev::Advance, Ev::Open(SyntaxKind::GraphOrDefault), Ev::Advance, Ev::Close, Ev::Advance, Ev::Open(SyntaxKind::GraphOrDefault), Ev::Open(SyntaxKind::iri), Ev::Advance, Ev::Close, Ev::Close, Ev::Close]);
}

/// On the tokens `MOVE` `DEFAULT` `TO` `PNAME_LN` a `Move` node holds them, in this order, with the
/// nodes the grammar gives them and no error.
pub proof fn law_Move_3(ts: Seq<SyntaxKind>, s: St)
    requires
        peek_at(ts, s.pos + 0) == SyntaxKind::MOVE,
        peek_at(ts, s.pos + 1) == SyntaxKind::DEFAULT,
        peek_at(ts, s.pos + 2) == SyntaxKind::TO,
        peek_at(ts, s.pos + 3) == SyntaxKind::PNAME_LN,
    ensures
        rule_Move(ts, s) == (St { evs: s.evs + seq![Ev::Open(SyntaxKind::Move), Ev::Advance, Ev::Open(SyntaxKind::GraphOrDefault), Ev::Advance, Ev::Close, Ev::Advance, Ev::Open(SyntaxKind::GraphOrDefault), Ev::Open(SyntaxKind::iri), Ev::Open(SyntaxKind::PrefixedName), Ev::Advance, Ev::Close, Ev::Close, Ev::Close, Ev::Close], pos: s.pos + 4 }),
{
    reveal(rule_GraphOrDefault);
    reveal(rule_Move);
    reveal(rule_PrefixedName);
    reveal(rule_iri);
    reveal(st_open);
    reveal(st_close);
    reveal(st_advance);
    reveal(st_expect);
    assert(rule_Move(ts, s).evs =~= s.evs + seq![Ev::Open(SyntaxKind::Move), Ev::Advance, Ev::Open(SyntaxKind::GraphOrDefault), Ev::Advance, Ev::Close, Ev::Advance, Ev::Open(SyntaxKind::GraphOrDefault), Ev::Open(SyntaxKind::iri), Ev::Open(SyntaxKind::PrefixedName), Ev::Advance, Ev::Close, Ev::Close, Ev::Close, Ev::Close]);
}

/// On the tokens `MOVE` `DEFAULT` `TO` `PNAME_NS` a `Move` node holds them, in this order, with the
/// nodes the grammar gives them and no error.
pub proof fn law_Move_4(ts: Seq<SyntaxKind>, s: St)
    requires
        peek_at(ts, s.pos + 0) == SyntaxKind::MOVE,
        peek_at(ts, s.pos + 1) == SyntaxKind::DEFAULT,
        peek_at(ts, s.pos + 2) == SyntaxKind::TO,
        peek_at(ts, s.pos + 3) == SyntaxKind::PNAME_NS,
    ensures
        rule_Move(ts, s) == (St { evs: s.evs + seq![Ev::Open(SyntaxKind::Move), Ev::Advance, Ev::Open(SyntaxKind::GraphOrDefault), Ev::Advance, Ev::Close, Ev::Advance, Ev::Open(SyntaxKind::GraphOrDefault), Ev::Open(SyntaxKind::iri), Ev::Open(SyntaxKind::PrefixedName), Ev::Advance, Ev::Close, Ev::Close, Ev::Close, Ev::Close], pos: s.pos + 4 }),
{
    reveal(rule_GraphOrDefault);
    reveal(rule_Move);
    reveal(rule_PrefixedName);
    reveal(rule_iri);
    reveal(st_open);
    reveal(st_close);
    reveal(st_advance);
    reveal(st_expect);
    assert(rule_Move(ts, s).evs =~= s.evs + seq![Ev::Open(SyntaxKind::Move), Ev::Advance, Ev::Open(SyntaxKind::GraphOrDefault), Ev::Advance, Ev::Close, Ev::Advance, Ev::Open(SyntaxKind::GraphOrDefault), Ev::Open(SyntaxKind::iri), Ev::Open(SyntaxKind::PrefixedName), Ev::Advance, Ev::Close, Ev::Close, Ev::Close, Ev::Close]);
}

/// On the tokens `MOVE` `IRIREF` `TO` `DEFAULT` a `Move` node holds them, in this order, with the
/// nodes the grammar gives them and no error.
pub proof fn law_Move_5(ts: Seq<SyntaxKind>, s: St)
    requires
        peek_at(ts, s.pos + 0) == SyntaxKind::MOVE,
        peek_at(ts, s.pos + 1) == SyntaxKind::IRIREF,
        peek_at(ts, s.pos + 2) == SyntaxKind::TO,
        peek_at(ts, s.pos + 3) == SyntaxKind::DEFAULT,
    ensures
        rule_Move(ts, s) == (St { evs: s.evs + seq![Ev::Open(SyntaxKind::Move), Ev::Advance, Ev::Open(SyntaxKind::GraphOrDefault), Ev::Open(SyntaxKind::iri), Ev::Advance, Ev::Close, Ev::Close, Ev::Advance, Ev::Open(SyntaxKind::GraphOrDefault), Ev::Advance, Ev::Close, Ev::Close], pos: s.pos + 4 }),
{
    reveal(rule_GraphOrDefault);
    reveal(rule_Move);
    reveal(rule_iri);
    reveal(st_open);
    reveal(st_close);
    reveal(st_advance);
    reveal(st_expect);
    assert(rule_Move(ts, s).evs =~= s.evs + seq![Ev::Open(SyntaxKind::Move), Ev::Advance, Ev::Open(SyntaxKind::GraphOrDefault), Ev::Open(SyntaxKind::iri), Ev::Advance, Ev::Close, Ev::Close, Ev::Advance, Ev::Open(SyntaxKind::GraphOrDefault), Ev::Advance, Ev::Close, Ev::Close]);
}

/// On the tokens `MOVE` `IRIREF` `TO` `IRIREF` a `Move` node holds them, in this order, with the
/// nodes the grammar gives them and no error.
pub proof fn law_Move_6(ts: Seq<SyntaxKind>, s: St)
    requires
        peek_at(ts, s.pos + 0) == SyntaxKind::MOVE,
        peek_at(ts, s.pos + 1) == SyntaxKind::IRIREF,
        peek_at(ts, s.pos + 2) == SyntaxKind::TO,
        peek_at(ts, s.pos + 3) == SyntaxKind::IRIREF,
    ensures
        rule_Move(ts, s) == (St { evs: s.evs + seq![Ev::Open(SyntaxKind::Move), Ev::Advance, Ev::Open(SyntaxKind::GraphOrDefault), Ev::Open(SyntaxKind::iri), Ev::Advance, Ev::Close, Ev::Close, Ev::Advance, Ev::Open(SyntaxKind::GraphOrDefault), Ev::Open(SyntaxKind::iri), Ev::Advance, Ev::Close, Ev::Close, Ev::Close], pos: s.pos + 4 }),
{
    reveal(rule_GraphOrDefault);
    reveal(rule_Move);
    reveal(rule_iri);
    reveal(st_open);
    reveal(st_close);
    reveal(st_advance);
    reveal(st_expect);
    assert(rule_Move(ts, s).evs =~= s.evs + seq![Ev::Open(SyntaxKind::Move), Ev::Advance, Ev::Open(SyntaxKind::GraphOrDefault), Ev::Open(SyntaxKind::iri), Ev::Advance, Ev::Close, Ev::Close, Ev::Advance, Ev::Open(SyntaxKind::GraphOrDefault), Ev::Open(SyntaxKind::iri), Ev::Advance, Ev::Close, Ev::Close, Ev::Close]);
}

/// On the tokens `NAMED` `IRIREF` a `NamedGraphClause` node holds them, in this order, with the
/// nodes the grammar gives them and no error.
pub proof fn law_NamedGraphClause_1(ts: Seq<SyntaxKind>, s: St)
    requires
        peek_at(ts, s.pos + 0) == SyntaxKind::NAMED,
        peek_at(ts, s.pos + 1) == SyntaxKind::IRIREF,
    ensures
        rule_NamedGraphClause(ts, s) == (St { evs: s.evs + seq![Ev::Open(SyntaxKind::NamedGraphClause), Ev::Advance, Ev::Open(SyntaxKind::SourceSelector), Ev::Open(SyntaxKind::iri), Ev::Advance, Ev::Close, Ev::Close, Ev::Close], pos: s.pos + 2 }),
{
    reveal(rule_NamedGraphClause);
    reveal(rule_SourceSelector);
    reveal(rule_iri);
    reveal(st_open);
    reveal(st_close);
    reveal(st_advance);
    reveal(st_expect);
    assert(rule_NamedGraphClause(ts, s).evs =~= s.evs + seq![Ev::Open(SyntaxKind::NamedGraphClause), Ev::Advance, Ev::Open(SyntaxKind::SourceSelector), Ev::Open(SyntaxKind::iri), Ev::Advance, Ev::Close, Ev::Close, Ev::Close]);
}

/// On the tokens `NAMED` `PNAME_LN` a `NamedGraphClause` node holds them, in this order, with the
/// nodes the grammar gives them and no error.
pub proof fn law_NamedGraphClause_2(ts: Seq<SyntaxKind>, s: St)
    requires
        peek_at(ts, s.pos + 0) == SyntaxKind::NAMED,
        peek_at(ts, s.pos + 1) == SyntaxKind::PNAME_LN,
    ensures
        rule_NamedGraphClause(ts, s) == (St { evs: s.evs + seq![Ev::Open(SyntaxKind::NamedGraphClause), Ev::Advance, Ev::Open(SyntaxKind::SourceSelector), Ev::Open(SyntaxKind::iri), Ev::Open(SyntaxKind::PrefixedName), Ev::Advance, Ev::Close, Ev::Close, Ev::Close, Ev::Close], pos: s.pos + 2 }),
{
    reveal(rule_NamedGraphClause);
    reveal(rule_PrefixedName);
    reveal(rule_SourceSelector);
    reveal(rule_iri);
    reveal(st_open);
    reveal(st_close);
    reveal(st_advance);
    reveal(st_expect);
    assert(rule_NamedGraphClause(ts, s).evs =~= s.evs + seq![Ev::Open(SyntaxKind::NamedGraphClause), Ev::Advance, Ev::Open(SyntaxKind::SourceSelector), Ev::Open(SyntaxKind::iri), Ev::Open(SyntaxKind::PrefixedName), Ev::Advance, Ev::Close, Ev::Close, Ev::Close, Ev::Close]);
}

/// On the tokens `NAMED` `PNAME_NS` a `NamedGraphClause` node holds them, in this order, with the
/// nodes the grammar gives them and no error.
pub proof fn law_NamedGraphClause_3(ts: Seq<SyntaxKind>, s: St)
    requires
        peek_at(ts, s.pos + 0) == SyntaxKind::NAMED,
        peek_at(ts, s.pos + 1) == SyntaxKind::PNAME_NS,
    ensures
        rule_NamedGraphClause(ts, s) == (St { evs: s.evs + seq![Ev::Open(SyntaxKind::NamedGraphClause), Ev::Advance, Ev::Open(SyntaxKind::SourceSelector), Ev::Open(SyntaxKind::iri), Ev::Open(SyntaxKind::PrefixedName), Ev::Advance, Ev::Close, Ev::Close, Ev::Close, Ev::Close], pos: s.pos + 2 }),
{
    reveal(rule_NamedGraphClause);
    reveal(rule_PrefixedName);
    reveal(rule_SourceSelector);
    reveal(rule_iri);
    reveal(st_open);
    reveal(st_close);
    reveal(st_advance);
    reveal(st_expect);
    assert(rule_NamedGraphClause(ts, s).evs =~= s.evs + seq![Ev::Open(SyntaxKind::NamedGraphClause), Ev::Advance, Ev::Open(SyntaxKind::SourceSelector), Ev::Open(SyntaxKind::iri), Ev::Open(SyntaxKind::PrefixedName), Ev::Advance, Ev::Close, Ev::Close, Ev::Close, Ev::Close]);
}

/// On the tokens `DECIMAL` a `NumericLiteral` node holds them, in this order, with the
/// nodes the grammar gives them and no error.
pub proof fn law_NumericLiteral_1(ts: Seq<SyntaxKind>, s: St)
    requires
        peek_at(ts, s.pos + 0) == SyntaxKind::DECIMAL,
    ensures
        rule_NumericLiteral(ts, s) == (St { evs: s.evs + seq![Ev::Open(SyntaxKind::NumericLiteral), Ev::Open(SyntaxKind::NumericLiteralUnsigned), Ev::Advance, Ev::Close, Ev::Close], pos: s.pos + 1 }),
{
    reveal(rule_NumericLiteral);
    reveal(rule_NumericLiteralUnsigned);
    reveal(st_open);
    reveal(st_close);
    reveal(st_advance);
    reveal(st_expect);
    assert(rule_NumericLiteral(ts, s).evs =~= s.evs + seq![Ev::Open(SyntaxKind::NumericLiteral), Ev::Open(SyntaxKind::NumericLiteralUnsigned), Ev::Advance, Ev::Close, Ev::Close]);
}

/// On the tokens `DECIMAL_NEGATIVE` a `NumericLiteral` node holds them, in this order, with the
/// nodes the grammar gives them and no error.
pub proof fn law_NumericLiteral_2(ts: Seq<SyntaxKind>, s: St)
    requires
        peek_at(ts, s.pos + 0) == SyntaxKind::DECIMAL_NEGATIVE,
    ensures
        rule_NumericLiteral(ts, s) == (St { evs: s.evs + seq![Ev::Open(SyntaxKind::NumericLiteral), Ev::Open(SyntaxKind::NumericLiteralNegative), Ev::Advance, Ev::Close, Ev::Close], pos: s.pos + 1 }),
{
    reveal(rule_NumericLiteral);
    reveal(rule_NumericLiteralNegative);
    reveal(st_open);
    reveal(st_close);
    reveal(st_advance);
    reveal(st_expect);
    assert(rule_NumericLiteral(ts, s).evs =~= s.evs + seq![Ev::Open(SyntaxKind::NumericLiteral), Ev::Open(SyntaxKind::NumericLiteralNegative), Ev::Advance, Ev::Close, Ev::Close]);
}

/// On the tokens `DECIMAL_POSITIVE` a `NumericLiteral` node holds them, in this order, with the
/// nodes the grammar gives them and no error.
pub proof fn law_NumericLiteral_3(ts: Seq<SyntaxKind>, s: St)
    requires
        peek_at(ts, s.pos + 0) == SyntaxKind::DECIMAL_POSITIVE,
    ensures
        rule_NumericLiteral(ts, s) == (St { evs: s.evs + seq![Ev::Open(SyntaxKind::NumericLiteral), Ev::Open(SyntaxKind::NumericLiteralPositive), Ev::Advance, Ev::Close, Ev::Close], pos: s.pos + 1 }),
{
    reveal(rule_NumericLiteral);
    reveal(rule_NumericLiteralPositive);
    reveal(st_open);
    reveal(st_close);
    reveal(st_advance);
    reveal(st_expect);
    assert(rule_NumericLiteral(ts, s).evs =~= s.evs + seq![Ev::Open(SyntaxKind::NumericLiteral), Ev::Open(SyntaxKind::NumericLiteralPositive), Ev::Advance, Ev::Close, Ev::Close]);
}

/// On the tokens `DOUBLE` a `NumericLiteral` node holds them, in this order, with the
/// nodes the grammar gives them and no error.
pub proof fn law_NumericLiteral_4(ts: Seq<SyntaxKind>, s: St)
    requires
        peek_at(ts, s.pos + 0) == SyntaxKind::DOUBLE,
    ensures
        rule_NumericLiteral(ts, s) == (St { evs: s.evs + seq![Ev::Open(SyntaxKind::NumericLiteral), Ev::Open(SyntaxKind::NumericLiteralUnsigned), Ev::Advance, Ev::Close, Ev::Close], pos: s.pos + 1 }),
{
    reveal(rule_NumericLiteral);
    reveal(rule_NumericLiteralUnsigned);
    reveal(st_open);
    reveal(st_close);
    reveal(st_advance);
    reveal(st_expect);
    assert(rule_NumericLiteral(ts, s).evs =~= s.evs + seq![Ev::Open(SyntaxKind::NumericLiteral), Ev::Open(SyntaxKind::NumericLiteralUnsigned), Ev::Advance, Ev::Close, Ev::Close]);
}

/// On the tokens `DOUBLE_NEGATIVE` a `NumericLiteral` node holds them, in this order, with the
/// nodes the grammar gives them and no error.
pub proof fn law_NumericLiteral_5(ts: Seq<SyntaxKind>, s: St)
    requires
        peek_at(ts, s.pos + 0) == SyntaxKind::DOUBLE_NEGATIVE,
    ensures
        rule_NumericLiteral(ts, s) == (St { evs: s.evs + seq![Ev::Open(SyntaxKind::NumericLiteral), Ev::Open(SyntaxKind::NumericLiteralNegative), Ev::Advance, Ev::Close, Ev::Close], pos: s.pos + 1 }),
{
    reveal(rule_NumericLiteral);
    reveal(rule_NumericLiteralNegative);
    reveal(st_open);
    reveal(st_close);
    reveal(st_advance);
    reveal(st_expect);
    assert(rule_NumericLiteral(ts, s).evs =~= s.evs + seq![Ev::Open(SyntaxKind::NumericLiteral), Ev::Open(SyntaxKind::NumericLiteralNegative), Ev::Advance, Ev::Close, Ev::Close]);
}

/// On the tokens `DOUBLE_POSITIVE` a `NumericLiteral` node holds them, in this order, with the
/// nodes the grammar gives them and no error.
pub proof fn law_NumericLiteral_6(ts: Seq<SyntaxKind>, s: St)
    requires
        peek_at(ts, s.pos + 0) == SyntaxKind::DOUBLE_POSITIVE,
    ensures
        rule_NumericLiteral(ts, s) == (St { evs: s.evs + seq![Ev::Open(SyntaxKind::NumericLiteral), Ev::Open(SyntaxKind::NumericLiteralPositive), Ev::Advance, Ev::Close, Ev::Close], pos: s.pos + 1 }),
{
    reveal(rule_NumericLiteral);
    reveal(rule_NumericLiteralPositive);
    reveal(st_open);
    reveal(st_close);
    reveal(st_advance);
    reveal(st_expect);
    assert(rule_NumericLiteral(ts, s).evs =~= s.evs + seq![Ev::Open(SyntaxKind::NumericLiteral), Ev::Open(SyntaxKind::NumericLiteralPositive), Ev::Advance, Ev::Close, Ev::Close]);
}

/// On the tokens `INTEGER` a `NumericLiteral` node holds them, in this order, with the
/// nodes the grammar gives them and no error.
pub proof fn law_NumericLiteral_7(ts: Seq<SyntaxKind>, s: St)
    requires
        peek_at(ts, s.pos + 0) == SyntaxKind::INTEGER,
    ensures
        rule_NumericLiteral(ts, s) == (St { evs: s.evs + seq![Ev::Open(SyntaxKind::NumericLiteral), Ev::Open(SyntaxKind::NumericLiteralUnsigned), Ev::Advance, Ev::Close, Ev::Close], pos: s.pos + 1 }),
{
    reveal(rule_NumericLiteral);
    reveal(rule_NumericLiteralUnsigned);
    reveal(st_open);
    reveal(st_close);
    reveal(st_advance);
    reveal(st_expect);
    assert(rule_NumericLiteral(ts, s).evs =~= s.evs + seq![Ev::Open(SyntaxKind::NumericLiteral), Ev::Open(SyntaxKind::NumericLiteralUnsigned), Ev::Advance, Ev::Close, Ev::Close]);
}

/// On the tokens `INTEGER_NEGATIVE` a `NumericLiteral` node holds them, in this order, with the
/// nodes the grammar gives them and no error.
pub proof fn law_NumericLiteral_8(ts: Seq<SyntaxKind>, s: St)
    requires
        peek_at(ts, s.pos + 0) == SyntaxKind::INTEGER_NEGATIVE,
    ensures
        rule_NumericLiteral(ts, s) == (St { evs: s.evs + seq![Ev::Open(SyntaxKind::NumericLiteral), Ev::Open(SyntaxKind::NumericLiteralNegative), Ev::Advance, Ev::Close, Ev::Close], pos: s.pos + 1 }),
{
    reveal(rule_NumericLiteral);
    reveal(rule_NumericLiteralNegative);
    reveal(st_open);
    reveal(st_close);
    reveal(st_advance);
    reveal(st_expect);
    assert(rule_NumericLiteral(ts, s).evs =~= s.evs + seq![Ev::Open(SyntaxKind::NumericLiteral), Ev::Open(SyntaxKind::NumericLiteralNegative), Ev::Advance, Ev::Close, Ev::Close]);
}

/// On the tokens `INTEGER_POSITIVE` a `NumericLiteral` node holds them, in this order, with the
/// nodes the grammar gives them and no error.
pub proof fn law_NumericLiteral_9(ts: Seq<SyntaxKind>, s: St)
    requires
        peek_at(ts, s.pos + 0) == SyntaxKind::INTEGER_POSITIVE,
    ensures
        rule_NumericLiteral(ts, s) == (St { evs: s.evs + seq![Ev::Open(SyntaxKind::NumericLiteral), Ev::Open(SyntaxKind::NumericLiteralPositive), Ev::Advance, Ev::Close, Ev::Close], pos: s.pos + 1 }),
{
    reveal(rule_NumericLiteral);
    reveal(rule_NumericLiteralPositive);
    reveal(st_open);
    reveal(st_close);
    reveal(st_advance);
    reveal(st_expect);
    assert(rule_NumericLiteral(ts, s).evs =~= s.evs + seq![Ev::Open(SyntaxKind::NumericLiteral), Ev::Open(SyntaxKind::NumericLiteralPositive), Ev::Advance, Ev::Close, Ev::Close]);
}

/// On the tokens `DECIMAL_NEGATIVE` a `NumericLiteralNegative` node holds them, in this order, with the
/// nodes the grammar gives them and no error.
pub proof fn law_NumericLiteralNegative_1(ts: Seq<SyntaxKind>, s: St)
    requires
        peek_at(ts, s.pos + 0) == SyntaxKind::DECIMAL_NEGATIVE,
    ensures
        rule_NumericLiteralNegative(ts, s) == (St { evs: s.evs + seq![Ev::Open(SyntaxKind::NumericLiteralNegative), Ev::Advance, Ev::Close], pos: s.pos + 1 }),
{
    reveal(rule_NumericLiteralNegative);
    reveal(st_open);
    reveal(st_close);
    reveal(st_advance);
    reveal(st_expect);
    assert(rule_NumericLiteralNegative(ts, s).evs =~= s.evs + seq![Ev::Open(SyntaxKind::NumericLiteralNegative), Ev::Advance, Ev::Close]);
}

/// On the tokens `DOUBLE_NEGATIVE` a `NumericLiteralNegative` node holds them, in this order, with the
/// nodes the grammar gives them and no error.
pub proof fn law_NumericLiteralNegative_2(ts: Seq<SyntaxKind>, s: St)
    requires
        peek_at(ts, s.pos + 0) == SyntaxKind::DOUBLE_NEGATIVE,
    ensures
        rule_NumericLiteralNegative(ts, s) == (St { evs: s.evs + seq![Ev::Open(SyntaxKind::NumericLiteralNegative), Ev::Advance, Ev::Close], pos: s.pos + 1 }),
{
    reveal(rule_NumericLiteralNegative);
    reveal(st_open);
    reveal(st_close);
    reveal(st_advance);
    reveal(st_expect);
    assert(rule_NumericLiteralNegative(ts, s).evs =~= s.evs + seq![Ev::Open(SyntaxKind::NumericLiteralNegative), Ev::Advance, Ev::Close]);
}

/// On the tokens `INTEGER_NEGATIVE` a `NumericLiteralNegative` node holds them, in this order, with the
/// nodes the grammar gives them and no error.
pub proof fn law_NumericLiteralNegative_3(ts: Seq<SyntaxKind>, s: St)
    requires
        peek_at(ts, s.pos + 0) == SyntaxKind::INTEGER_NEGATIVE,
    ensures
        rule_NumericLiteralNegative(ts, s) == (St { evs: s.evs + seq![Ev::Open(SyntaxKind::NumericLiteralNegative), Ev::Advance, Ev::Close], pos: s.pos + 1 }),
{
    reveal(rule_NumericLiteralNegative);
    reveal(st_open);
    reveal(st_close);
    reveal(st_advance);
    reveal(st_expect);
    assert(rule_NumericLiteralNegative(ts, s).evs =~= s.evs + seq![Ev::Open(SyntaxKind::NumericLiteralNegative), Ev::Advance, Ev::Close]);
}

/// On the tokens `DECIMAL_POSITIVE` a `NumericLiteralPositive` node holds them, in this order, with the
/// nodes the grammar gives them and no error.
pub proof fn law_NumericLiteralPositive_1(ts: Seq<SyntaxKind>, s: St)
    requires
        peek_at(ts, s.pos + 0) == SyntaxKind::DECIMAL_POSITIVE,
    ensures
        rule_NumericLiteralPositive(ts, s) == (St { evs: s.evs + seq![Ev::Open(SyntaxKind::NumericLiteralPositive), Ev::Advance, Ev::Close], pos: s.pos + 1 }),
{
    reveal(rule_NumericLiteralPositive);
    reveal(st_open);
    reveal(st_close);
    reveal(st_advance);
    reveal(st_expect);
    assert(rule_NumericLiteralPositive(ts, s).evs =~= s.evs + seq![Ev::Open(SyntaxKind::NumericLiteralPositive), Ev::Advance, Ev::Close]);
}

/// On the tokens `DOUBLE_POSITIVE` a `NumericLiteralPositive` node holds them, in this order, with the
/// nodes the grammar gives them and no error.
pub proof fn law_NumericLiteralPositive_2(ts: Seq<SyntaxKind>, s: St)
    requires
        peek_at(ts, s.pos + 0) == SyntaxKind::DOUBLE_POSITIVE,
    ensures
        rule_NumericLiteralPositive(ts, s) == (St { evs: s.evs + seq![Ev::Open(SyntaxKind::NumericLiteralPositive), Ev::Advance, Ev::Close], pos: s.pos + 1 }),
{
    reveal(rule_NumericLiteralPositive);
    reveal(st_open);
    reveal(st_close);
    reveal(st_advance);
    reveal(st_expect);
    assert(rule_NumericLiteralPositive(ts, s).evs =~= s.evs + seq![Ev::Open(SyntaxKind::NumericLiteralPositive), Ev::Advance, Ev::Close]);
}

/// On the tokens `INTEGER_POSITIVE` a `NumericLiteralPositive` node holds them, in this order, with the
/// nodes the grammar gives them and no error.
pub proof fn law_NumericLiteralPositive_3(ts: Seq<SyntaxKind>, s: St)
    requires
        peek_at(ts, s.pos + 0) == SyntaxKind::INTEGER_POSITIVE,
    ensures
        rule_NumericLiteralPositive(ts, s) == (St { evs: s.evs + seq![Ev::Open(SyntaxKind::NumericLiteralPositive), Ev::Advance, Ev::Close], pos: s.pos + 1 }),
{
    reveal(rule_NumericLiteralPositive);
    reveal(st_open);
    reveal(st_close);
    reveal(st_advance);
    reveal(st_expect);
    assert(rule_NumericLiteralPositive(ts, s).evs =~= s.evs + seq![Ev::Open(SyntaxKind::NumericLiteralPositive), Ev::Advance, Ev::Close]);
}

/// On the tokens `DECIMAL` a `NumericLiteralUnsigned` node holds them, in this order, with the
/// nodes the grammar gives them and no error.
pub proof fn law_NumericLiteralUnsigned_1(ts: Seq<SyntaxKind>, s: St)
    requires
        peek_at(ts, s.pos + 0) == SyntaxKind::DECIMAL,
    ensures
        rule_NumericLiteralUnsigned(ts, s) == (St { evs: s.evs + seq![Ev::Open(SyntaxKind::NumericLiteralUnsigned), Ev::Advance, Ev::Close], pos: s.pos + 1 }),
{
    reveal(rule_NumericLiteralUnsigned);
    reveal(st_open);
    reveal(st_close);
    reveal(st_advance);
    reveal(st_expect);
    assert(rule_NumericLiteralUnsigned(ts, s).evs =~= s.evs + seq![Ev::Open(SyntaxKind::NumericLiteralUnsigned), Ev::Advance, Ev::Close]);
}

/// On the tokens `DOUBLE` a `NumericLiteralUnsigned` node holds them, in this order, with the
/// nodes the grammar gives them and no error.
pub proof fn law_NumericLiteralUnsigned_2(ts: Seq<SyntaxKind>, s: St)
    requires
        peek_at(ts, s.pos + 0) == SyntaxKind::DOUBLE,
    ensures
        rule_NumericLiteralUnsigned(ts, s) == (St { evs: s.evs + seq![Ev::Open(SyntaxKind::NumericLiteralUnsigned), Ev::Advance, Ev::Close], pos: s.pos + 1 }),
{
    reveal(rule_NumericLiteralUnsigned);
    reveal(st_open);
    reveal(st_close);
    reveal(st_advance);
    reveal(st_expect);
    assert(rule_NumericLiteralUnsigned(ts, s).evs =~= s.evs + seq![Ev::Open(SyntaxKind::NumericLiteralUnsigned), Ev::Advance, Ev::Close]);
}

/// On the tokens `INTEGER` a `NumericLiteralUnsigned` node holds them, in this order, with the
/// nodes the grammar gives them and no error.
pub proof fn law_NumericLiteralUnsigned_3(ts: Seq<SyntaxKind>, s: St)
    requires
        peek_at(ts, s.pos + 0) == SyntaxKind::INTEGER,
    ensures
        rule_NumericLiteralUnsigned(ts, s) == (St { evs: s.evs + seq![Ev::Open(SyntaxKind::NumericLiteralUnsigned), Ev::Advance, Ev::Close], pos: s.pos + 1 }),
{
    reveal(rule_NumericLiteralUnsigned);
    reveal(st_open);
    reveal(st_close);
    reveal(st_advance);
    reveal(st_expect);
    assert(rule_NumericLiteralUnsigned(ts, s).evs =~= s.evs + seq![Ev::Open(SyntaxKind::NumericLiteralUnsigned), Ev::Advance, Ev::Close]);
}

/// On the tokens `OFFSET` `INTEGER` a `OffsetClause` node holds them, in this order, with the
/// nodes the grammar gives them and no error.
pub proof fn law_OffsetClause_1(ts: Seq<SyntaxKind>, s: St)
    requires
        peek_at(ts, s.pos + 0) == SyntaxKind::OFFSET,
        peek_at(ts, s.pos + 1) == SyntaxKind::INTEGER,
    ensures
        rule_OffsetClause(ts, s) == (St { evs: s.evs + seq![Ev::Open(SyntaxKind::OffsetClause), Ev::Advance, Ev::Advance, Ev::Close], pos: s.pos + 2 }),
{
    reveal(rule_OffsetClause);
    reveal(st_open);
    reveal(st_close);
    reveal(st_advance);
    reveal(st_expect);
    assert(rule_OffsetClause(ts, s).evs =~= s.evs + seq![Ev::Open(SyntaxKind::OffsetClause), Ev::Advance, Ev::Advance, Ev::Close]);
}

/// On the tokens `Plus` a `PathMod` node holds them, in this order, with the
/// nodes the grammar gives them and no error.
pub proof fn law_PathMod_1(ts: Seq<SyntaxKind>, s: St)
    requires
        peek_at(ts, s.pos + 0) == SyntaxKind::Plus,
    ensures
        rule_PathMod(ts, s) == (St { evs: s.evs + seq![Ev::Open(SyntaxKind::PathMod), Ev::Advance, Ev::Close], pos: s.pos + 1 }),
{
    reveal(rule_PathMod);
    reveal(st_open);
    reveal(st_close);
    reveal(st_advance);
    reveal(st_expect);
    assert(rule_PathMod(ts, s).evs =~= s.evs + seq![Ev::Open(SyntaxKind::PathMod), Ev::Advance, Ev::Close]);
}

/// On the tokens `QuestionMark` a `PathMod` node holds them, in this order, with the
/// nodes the grammar gives them and no error.
pub proof fn law_PathMod_2(ts: Seq<SyntaxKind>, s: St)
    requires
        peek_at(ts, s.pos + 0) == SyntaxKind::QuestionMark,
    ensures
        rule_PathMod(ts, s) == (St { evs: s.evs + seq![Ev::Open(SyntaxKind::PathMod), Ev::Advance, Ev::Close], pos: s.pos + 1 }),
{
    reveal(rule_PathMod);
    reveal(st_open);
    reveal(st_close);
    reveal(st_advance);
    reveal(st_expect);
    assert(rule_PathMod(ts, s).evs =~= s.evs + seq![Ev::Open(SyntaxKind::PathMod), Ev::Advance, Ev::Close]);
}

/// On the tokens `Star` a `PathMod` node holds them, in this order, with the
/// nodes the grammar gives them and no error.
pub proof fn law_PathMod_3(ts: Seq<SyntaxKind>, s: St)
    requires
        peek_at(ts, s.pos + 0) == SyntaxKind::Star,
    ensures
        rule_PathMod(ts, s) == (St { evs: s.evs + seq![Ev::Open(SyntaxKind::PathMod), Ev::Advance, Ev::Close], pos: s.pos + 1 }),
{
    reveal(rule_PathMod);
    reveal(st_open);
    reveal(st_close);
    reveal(st_advance);
    reveal(st_expect);
    assert(rule_PathMod(ts, s).evs =~= s.evs + seq![Ev::Open(SyntaxKind::PathMod), Ev::Advance, Ev::Close]);
}

/// On the tokens `IRIREF` a `PathOneInPropertySet` node holds them, in this order, with the
/// nodes the grammar gives them and no error.
pub proof fn law_PathOneInPropertySet_1(ts: Seq<SyntaxKind>, s: St)
    requires
        peek_at(ts, s.pos + 0) == SyntaxKind::IRIREF,
    ensures
        rule_PathOneInPropertySet(ts, s) == (St { evs: s.evs + seq![Ev::Open(SyntaxKind::PathOneInPropertySet), Ev::Open(SyntaxKind::iri), Ev::Advance, Ev::Close, Ev::Close], pos: s.pos + 1 }),
{
    reveal(rule_PathOneInPropertySet);
    reveal(rule_iri);
    reveal(st_open);
    reveal(st_close);
    reveal(st_advance);
    reveal(st_expect);
    assert(rule_PathOneInPropertySet(ts, s).evs =~= s.evs + seq![Ev::Open(SyntaxKind::PathOneInPropertySet), Ev::Open(SyntaxKind::iri), Ev::Advance, Ev::Close, Ev::Close]);
}

/// On the tokens `PNAME_LN` a `PathOneInPropertySet` node holds them, in this order, with the
/// nodes the grammar gives them and no error.
pub proof fn law_PathOneInPropertySet_2(ts: Seq<SyntaxKind>, s: St)
    requires
        peek_at(ts, s.pos + 0) == SyntaxKind::PNAME_LN,
    ensures
        rule_PathOneInPropertySet(ts, s) == (St { evs: s.evs + seq![Ev::Open(SyntaxKind::PathOneInPropertySet), Ev::Open(SyntaxKind::iri), Ev::Open(SyntaxKind::PrefixedName), Ev::Advance, Ev::Close, Ev::Close, Ev::Close], pos: s.pos + 1 }),
{
    reveal(rule_PathOneInPropertySet);
    reveal(rule_PrefixedName);
    reveal(rule_iri);
    reveal(st_open);
    reveal(st_close);
    reveal(st_advance);
    reveal(st_expect);
    assert(rule_PathOneInPropertySet(ts, s).evs =~= s.evs + seq![Ev::Open(SyntaxKind::PathOneInPropertySet), Ev::Open(SyntaxKind::iri), Ev::Open(SyntaxKind::PrefixedName), Ev::Advance, Ev::Close, Ev::Close, Ev::Close]);
}

/// On the tokens `PNAME_NS` a `PathOneInPropertySet` node holds them, in this order, with the
/// nodes the grammar gives them and no error.
pub proof fn law_PathOneInPropertySet_3(ts: Seq<SyntaxKind>, s: St)
    requires
        peek_at(ts, s.pos + 0) == SyntaxKind::PNAME_NS,
    ensures
        rule_PathOneInPropertySet(ts, s) == (St { evs: s.evs + seq![Ev::Open(SyntaxKind::PathOneInPropertySet), Ev::Open(SyntaxKind::iri), Ev::Open(SyntaxKind::PrefixedName), Ev::Advance, Ev::Close, Ev::Close, Ev::Close], pos: s.pos + 1 }),
{
    reveal(rule_PathOneInPropertySet);
    reveal(rule_PrefixedName);
    reveal(rule_iri);
    reveal(st_open);
    reveal(st_close);
    reveal(st_advance);
    reveal(st_expect);
    assert(rule_PathOneInPropertySet(ts, s).evs =~= s.evs + seq![Ev::Open(SyntaxKind::PathOneInPropertySet), Ev::Open(SyntaxKind::iri), Ev::Open(SyntaxKind::PrefixedName), Ev::Advance, Ev::Close, Ev::Close, Ev::Close]);
}

/// On the tokens `a` a `PathOneInPropertySet` node holds them, in this order, with the
/// nodes the grammar gives them and no error.
pub proof fn law_PathOneInPropertySet_4(ts: Seq<SyntaxKind>, s: St)
    requires
        peek_at(ts, s.pos + 0) == SyntaxKind::a,
    ensures
        rule_PathOneInPropertySet(ts, s) == (St { evs: s.evs + seq![Ev::Open(SyntaxKind::PathOneInPropertySet), Ev::Advance, Ev::Close], pos: s.pos + 1 }),
{
    reveal(rule_PathOneInPropertySet);
    reveal(st_open);
    reveal(st_close);
    reveal(st_advance);
    reveal(st_expect);
    assert(rule_PathOneInPropertySet(ts, s).evs =~= s.evs + seq![Ev::Open(SyntaxKind::PathOneInPropertySet), Ev::Advance, Ev::Close]);
}

/// On the tokens `Zirkumflex` `IRIREF` a `PathOneInPropertySet` node holds them, in this order, with the
/// nodes the grammar gives them and no error.
pub proof fn law_PathOneInPropertySet_5(ts: Seq<SyntaxKind>, s: St)
    requires
        peek_at(ts, s.pos + 0) == SyntaxKind::Zirkumflex,
        peek_at(ts, s.pos + 1) == SyntaxKind::IRIREF,
    ensures
        rule_PathOneInPropertySet(ts, s) == (St { evs: s.evs + seq![Ev::Open(SyntaxKind::PathOneInPropertySet), Ev::Advance, Ev::Open(SyntaxKind::iri), Ev::Advance, Ev::Close, Ev::Close], pos: s.pos + 2 }),
{
    reveal(rule_PathOneInPropertySet);
    reveal(rule_iri);
    reveal(st_open);
    reveal(st_close);
    reveal(st_advance);
    reveal(st_expect);
    assert(rule_PathOneInPropertySet(ts, s).evs =~= s.evs + seq![Ev::Open(SyntaxKind::PathOneInPropertySet), Ev::Advance, Ev::Open(SyntaxKind::iri), Ev::Advance, Ev::Close, Ev::Close]);
}

/// On the tokens `Zirkumflex` `PNAME_LN` a `PathOneInPropertySet` node holds them, in this order, with the
/// nodes the grammar gives them and no error.
pub proof fn law_PathOneInPropertySet_6(ts: Seq<SyntaxKind>, s: St)
    requires
        peek_at(ts, s.pos + 0) == SyntaxKind::Zirkumflex,
        peek_at(ts, s.pos + 1) == SyntaxKind::PNAME_LN,
    ensures
        rule_PathOneInPropertySet(ts, s) == (St { evs: s.evs + seq![Ev::Open(SyntaxKind::PathOneInPropertySet), Ev::Advance, Ev::Open(SyntaxKind::iri), Ev::Open(SyntaxKind::PrefixedName), Ev::Advance, Ev::Close, Ev::Close, Ev::Close], pos: s.pos + 2 }),
{
    reveal(rule_PathOneInPropertySet);
    reveal(rule_PrefixedName);
    reveal(rule_iri);
    reveal(st_open);
    reveal(st_close);
    reveal(st_advance);
    reveal(st_expect);
    assert(rule_PathOneInPropertySet(ts, s).evs =~= s.evs + seq![Ev::Open(SyntaxKind::PathOneInPropertySet), Ev::Advance, Ev::Open(SyntaxKind::iri), Ev::Open(SyntaxKind::PrefixedName), Ev::Advance, Ev::Close, Ev::Close, Ev::Close]);
}

/// On the tokens `STRING_LITERAL1` a `RDFLiteral` node holds them, in this order, with the
/// nodes the grammar gives them and no error.
pub proof fn law_RDFLiteral_1(ts: Seq<SyntaxKind>, s: St)
    requires
        peek_at(ts, s.pos + 0) == SyntaxKind::STRING_LITERAL1,
        !(peek_at(ts, s.pos + 1) == SyntaxKind::DoubleZirkumflex || peek_at(ts, s.pos + 1) == SyntaxKind::LANG_DIR),
    ensures
        rule_RDFLiteral(ts, s) == (St { evs: s.evs + seq![Ev::Open(SyntaxKind::RDFLiteral), Ev::Open(SyntaxKind::String), Ev::Advance, Ev::Close, Ev::Close], pos: s.pos + 1 }),
{
    reveal(rule_RDFLiteral);
    reveal(rule_String);
    reveal(st_open);
    reveal(st_close);
    reveal(st_advance);
    reveal(st_expect);
    assert(rule_RDFLiteral(ts, s).evs =~= s.evs + seq![Ev::Open(SyntaxKind::RDFLiteral), Ev::Open(SyntaxKind::String), Ev::Advance, Ev::Close, Ev::Close]);
}

/// On the tokens `STRING_LITERAL2` a `RDFLiteral` node holds them, in this order, with the
/// nodes the grammar gives them and no error.
pub proof fn law_RDFLiteral_2(ts: Seq<SyntaxKind>, s: St)
    requires
        peek_at(ts, s.pos + 0) == SyntaxKind::STRING_LITERAL2,
        !(peek_at(ts, s.pos + 1) == SyntaxKind::DoubleZirkumflex || peek_at(ts, s.pos + 1) == SyntaxKind::LANG_DIR),
    ensures
        rule_RDFLiteral(ts, s) == (St { evs: s.evs + seq![Ev::Open(SyntaxKind::RDFLiteral), Ev::Open(SyntaxKind::String), Ev::Advance, Ev::Close, Ev::Close], pos: s.pos + 1 }),
{
    reveal(rule_RDFLiteral);
    reveal(rule_String);
    reveal(st_open);
    reveal(st_close);
    reveal(st_advance);
    reveal(st_expect);
    assert(rule_RDFLiteral(ts, s).evs =~= s.evs + seq![Ev::Open(SyntaxKind::RDFLiteral), Ev::Open(SyntaxKind::String), Ev::Advance, Ev::Close, Ev::Close]);
}

/// On the tokens `STRING_LITERAL_LONG1` a `RDFLiteral` node holds them, in this order, with the
/// nodes the grammar gives them and no error.
pub proof fn law_RDFLiteral_3(ts: Seq<SyntaxKind>, s: St)
    requires
        peek_at(ts, s.pos + 0) == SyntaxKind::STRING_LITERAL_LONG1,
        !(peek_at(ts, s.pos + 1) == SyntaxKind::DoubleZirkumflex || peek_at(ts, s.pos + 1) == SyntaxKind::LANG_DIR),
    ensures
        rule_RDFLiteral(ts, s) == (St { evs: s.evs + seq![Ev::Open(SyntaxKind::RDFLiteral), Ev::Open(SyntaxKind::String), Ev::Advance, Ev::Close, Ev::Close], pos: s.pos + 1 }),
{
    reveal(rule_RDFLiteral);
    reveal(rule_String);
    reveal(st_open);
    reveal(st_close);
    reveal(st_advance);
    reveal(st_expect);
    assert(rule_RDFLiteral(ts, s).evs =~= s.evs + seq![Ev::Open(SyntaxKind::RDFLiteral), Ev::Open(SyntaxKind::String), Ev::Advance, Ev::Close, Ev::Close]);
}

/// On the tokens `STRING_LITERAL_LONG2` a `RDFLiteral` node holds them, in this order, with the
/// nodes the grammar gives them and no error.
pub proof fn law_RDFLiteral_4(ts: Seq<SyntaxKind>, s: St)
    requires
        peek_at(ts, s.pos + 0) == SyntaxKind::STRING_LITERAL_LONG2,
        !(peek_at(ts, s.pos + 1) == SyntaxKind::DoubleZirkumflex || peek_at(ts, s.pos + 1) == SyntaxKind::LANG_DIR),
    ensures
        rule_RDFLiteral(ts, s) == (St { evs: s.evs + seq![Ev::Open(SyntaxKind::RDFLiteral), Ev::Open(SyntaxKind::String), Ev::Advance, Ev::Close, Ev::Close], pos: s.pos + 1 }),
{
    reveal(rule_RDFLiteral);
    reveal(rule_String);
    reveal(st_open);
    reveal(st_close);
    reveal(st_advance);
    reveal(st_expect);
    assert(rule_RDFLiteral(ts, s).evs =~= s.evs + seq![Ev::Open(SyntaxKind::RDFLiteral), Ev::Open(SyntaxKind::String), Ev::Advance, Ev::Close, Ev::Close]);
}

/// On the tokens `STRING_LITERAL1` `LANG_DIR` a `RDFLiteral` node holds them, in this order, with the
/// nodes the grammar gives them and no error.
pub proof fn law_RDFLiteral_5(ts: Seq<SyntaxKind>, s: St)
    requires
        peek_at(ts, s.pos + 0) == SyntaxKind::STRING_LITERAL1,
        peek_at(ts, s.pos + 1) == SyntaxKind::LANG_DIR,
    ensures
        rule_RDFLiteral(ts, s) == (St { evs: s.evs + seq![Ev::Open(SyntaxKind::RDFLiteral), Ev::Open(SyntaxKind::String), Ev::Advance, Ev::Close, Ev::Advance, Ev::Close], pos: s.pos + 2 }),
{
    reveal(rule_RDFLiteral);
    reveal(rule_String);
    reveal(st_open);
    reveal(st_close);
    reveal(st_advance);
    reveal(st_expect);
    assert(rule_RDFLiteral(ts, s).evs =~= s.evs + seq![Ev::Open(SyntaxKind::RDFLiteral), Ev::Open(SyntaxKind::String), Ev::Advance, Ev::Close, Ev::Advance, Ev::Close]);
}

/// On the tokens `STRING_LITERAL2` `LANG_DIR` a `RDFLiteral` node holds them, in this order, with the
/// nodes the grammar gives them and no error.
pub proof fn law_RDFLiteral_6(ts: Seq<SyntaxKind>, s: St)
    requires
        peek_at(ts, s.pos + 0) == SyntaxKind::STRING_LITERAL2,
        peek_at(ts, s.pos + 1) == SyntaxKind::LANG_DIR,
    ensures
        rule_RDFLiteral(ts, s) == (St { evs: s.evs + seq![Ev::Open(SyntaxKind::RDFLiteral), Ev::Open(SyntaxKind::String), Ev::Advance, Ev::Close, Ev::Advance, Ev::Close], pos: s.pos + 2 }),
{
    reveal(rule_RDFLiteral);
    reveal(rule_String);
    reveal(st_open);
    reveal(st_close);
    reveal(st_advance);
    reveal(st_expect);
    assert(rule_RDFLiteral(ts, s).evs =~= s.evs + seq![Ev::Open(SyntaxKind::RDFLiteral), Ev::Open(SyntaxKind::String), Ev::Advance, Ev::Close, Ev::Advance, Ev::Close]);
}

/// On the tokens `Tilde` a `Reifier` node holds them, in this order, with the
/// nodes the grammar gives them and no error.
pub proof fn law_Reifier_1(ts: Seq<SyntaxKind>, s: St)
    requires
        peek_at(ts, s.pos + 0) == SyntaxKind::Tilde,
        !(peek_at(ts, s.pos + 1) == SyntaxKind::ANON || peek_at(ts, s.pos + 1) == SyntaxKind::BLANK_NODE_LABEL || peek_at(ts, s.pos + 1) == SyntaxKind::IRIREF || peek_at(ts, s.pos + 1) == SyntaxKind::PNAME_LN || peek_at(ts, s.pos + 1) == SyntaxKind::PNAME_NS || peek_at(ts, s.pos + 1) == SyntaxKind::VAR1 || peek_at(ts, s.pos + 1) == SyntaxKind::VAR2),
    ensures
        rule_Reifier(ts, s) == (St { evs: s.evs + seq![Ev::Open(SyntaxKind::Reifier), Ev::Advance, Ev::Close], pos: s.pos + 1 }),
{
    reveal(rule_Reifier);
    reveal(st_open);
    reveal(st_close);
    reveal(st_advance);
    reveal(st_expect);
    assert(rule_Reifier(ts, s).evs =~= s.evs + seq![Ev::Open(SyntaxKind::Reifier), Ev::Advance, Ev::Close]);
}

/// On the tokens `Tilde` `ANON` a `Reifier` node holds them, in this order, with the
/// nodes the grammar gives them and no error.
pub proof fn law_Reifier_2(ts: Seq<SyntaxKind>, s: St)
    requires
        peek_at(ts, s.pos + 0) == SyntaxKind::Tilde,
        peek_at(ts, s.pos + 1) == SyntaxKind::ANON,
    ensures
        rule_Reifier(ts, s) == (St { evs: s.evs + seq![Ev::Open(SyntaxKind::Reifier), Ev::Advance, Ev::Open(SyntaxKind::VarOrReifierId), Ev::Open(SyntaxKind::BlankNode), Ev::Advance, Ev::Close, Ev::Close, Ev::Close], pos: s.pos + 2 }),
{
    reveal(rule_BlankNode);
    reveal(rule_Reifier);
    reveal(rule_VarOrReifierId);
    reveal(st_open);
    reveal(st_close);
    reveal(st_advance);
    reveal(st_expect);
    assert(rule_Reifier(ts, s).evs =~= s.evs + seq![Ev::Open(SyntaxKind::Reifier), Ev::Advance, Ev::Open(SyntaxKind::VarOrReifierId), Ev::Open(SyntaxKind::BlankNode), Ev::Advance, Ev::Close, Ev::Close, Ev::Close]);
}

/// On the tokens `Tilde` `BLANK_NODE_LABEL` a `Reifier` node holds them, in this order, with the
/// nodes the grammar gives them and no error.
pub proof fn law_Reifier_3(ts: Seq<SyntaxKind>, s: St)
    requires
        peek_at(ts, s.pos + 0) == SyntaxKind::Tilde,
        peek_at(ts, s.pos + 1) == SyntaxKind::BLANK_NODE_LABEL,
    ensures
        rule_Reifier(ts, s) == (St { evs: s.evs + seq![Ev::Open(SyntaxKind::Reifier), Ev::Advance, Ev::Open(SyntaxKind::VarOrReifierId), Ev::Open(SyntaxKind::BlankNode), Ev::Advance, Ev::Close, Ev::Close, Ev::Close], pos: s.pos + 2 }),
{
    reveal(rule_BlankNode);
    reveal(rule_Reifier);
    reveal(rule_VarOrReifierId);
    reveal(st_open);
    reveal(st_close);
    reveal(st_advance);
    reveal(st_expect);
    assert(rule_Reifier(ts, s).evs =~= s.evs + seq![Ev::Open(SyntaxKind::Reifier), Ev::Advance, Ev::Open(SyntaxKind::VarOrReifierId), Ev::Open(SyntaxKind::BlankNode), Ev::Advance, Ev::Close, Ev::Close, Ev::Close]);
}

/// On the tokens `Tilde` `IRIREF` a `Reifier` node holds them, in this order, with the
/// nodes the grammar gives them and no error.
pub proof fn law_Reifier_4(ts: Seq<SyntaxKind>, s: St)
    requires
        peek_at(ts, s.pos + 0) == SyntaxKind::Tilde,
        peek_at(ts, s.pos + 1) == SyntaxKind::IRIREF,
    ensures
        rule_Reifier(ts, s) == (St { evs: s.evs + seq![Ev::Open(SyntaxKind::Reifier), Ev::Advance, Ev::Open(SyntaxKind::VarOrReifierId), Ev::Open(SyntaxKind::iri), Ev::Advance, Ev::Close, Ev::Close, Ev::Close], pos: s.pos + 2 }),
{
    reveal(rule_Reifier);
    reveal(rule_VarOrReifierId);
    reveal(rule_iri);
    reveal(st_open);
    reveal(st_close);
    reveal(st_advance);
    reveal(st_expect);
    assert(rule_Reifier(ts, s).evs =~= s.evs + seq![Ev::Open(SyntaxKind::Reifier), Ev::Advance, Ev::Open(SyntaxKind::VarOrReifierId), Ev::Open(SyntaxKind::iri), Ev::Advance, Ev::Close, Ev::Close, Ev::Close]);
}

/// On the tokens `Tilde` `PNAME_LN` a `Reifier` node holds them, in this order, with the
/// nodes the grammar gives them and no error.
pub proof fn law_Reifier_5(ts: Seq<SyntaxKind>, s: St)
    requires
        peek_at(ts, s.pos + 0) == SyntaxKind::Tilde,
        peek_at(ts, s.pos + 1) == SyntaxKind::PNAME_LN,
    ensures
        rule_Reifier(ts, s) == (St { evs: s.evs + seq![Ev::Open(SyntaxKind::Reifier), Ev::Advance, Ev::Open(SyntaxKind::VarOrReifierId), Ev::Open(SyntaxKind::iri), Ev::Open(SyntaxKind::PrefixedName), Ev::Advance, Ev::Close, Ev::Close, Ev::Close, Ev::Close], pos: s.pos + 2 }),
{
    reveal(rule_PrefixedName);
    reveal(rule_Reifier);
    reveal(rule_VarOrReifierId);
    reveal(rule_iri);
    reveal(st_open);
    reveal(st_close);
    reveal(st_advance);
    reveal(st_expect);
    assert(rule_Reifier(ts, s).evs =~= s.evs + seq![Ev::Open(SyntaxKind::Reifier), Ev::Advance, Ev::Open(SyntaxKind::VarOrReifierId), Ev::Open(SyntaxKind::iri), Ev::Open(SyntaxKind::PrefixedName), Ev::Advance, Ev::Close, Ev::Close, Ev::Close, Ev::Close]);
}

/// On the tokens `Tilde` `PNAME_NS` a `Reifier` node holds them, in this order, with the
/// nodes the grammar gives them and no error.
pub proof fn law_Reifier_6(ts: Seq<SyntaxKind>, s: St)
    requires
        peek_at(ts, s.pos + 0) == SyntaxKind::Tilde,
        peek_at(ts, s.pos + 1) == SyntaxKind::PNAME_NS,
    ensures
        rule_Reifier(ts, s) == (St { evs: s.evs + seq![Ev::Open(SyntaxKind::Reifier), Ev::Advance, Ev::Open(SyntaxKind::VarOrReifierId), Ev::Open(SyntaxKind::iri), Ev::Open(SyntaxKind::PrefixedName), Ev::Advance, Ev::Close, Ev::Close, Ev::Close, Ev::Close], pos: s.pos + 2 }),
{
    reveal(rule_PrefixedName);
    reveal(rule_Reifier);
    reveal(rule_VarOrReifierId);
    reveal(rule_iri);
    reveal(st_open);
    reveal(st_close);
    reveal(st_advance);
    reveal(st_expect);
    assert(rule_Reifier(ts, s).evs =~= s.evs + seq![Ev::Open(SyntaxKind::Reifier), Ev::Advance, Ev::Open(SyntaxKind::VarOrReifierId), Ev::Open(SyntaxKind::iri), Ev::Open(SyntaxKind::PrefixedName), Ev::Advance, Ev::Close, Ev::Close, Ev::Close, Ev::Close]);
}

/// On the tokens `IRIREF` a `SourceSelector` node holds them, in this order, with the
/// nodes the grammar gives them and no error.
pub proof fn law_SourceSelector_1(ts: Seq<SyntaxKind>, s: St)
    requires
        peek_at(ts, s.pos + 0) == SyntaxKind::IRIREF,
    ensures
        rule_SourceSelector(ts, s) == (St { evs: s.evs + seq![Ev::Open(SyntaxKind::SourceSelector), Ev::Open(SyntaxKind::iri), Ev::Advance, Ev::Close, Ev::Close], pos: s.pos + 1 }),
{
    reveal(rule_SourceSelector);
    reveal(rule_iri);
    reveal(st_open);
    reveal(st_close);
    reveal(st_advance);
    reveal(st_expect);
    assert(rule_SourceSelector(ts, s).evs =~= s.evs + seq![Ev::Open(SyntaxKind::SourceSelector), Ev::Open(SyntaxKind::iri), Ev::Advance, Ev::Close, Ev::Close]);
}

/// On the tokens `PNAME_LN` a `SourceSelector` node holds them, in this order, with the
/// nodes the grammar gives them and no error.
pub proof fn law_SourceSelector_2(ts: Seq<SyntaxKind>, s: St)
    requires
        peek_at(ts, s.pos + 0) == SyntaxKind::PNAME_LN,
    ensures
        rule_SourceSelector(ts, s) == (St { evs: s.evs + seq![Ev::Open(SyntaxKind::SourceSelector), Ev::Open(SyntaxKind::iri), Ev::Open(SyntaxKind::PrefixedName), Ev::Advance, Ev::Close, Ev::Close, Ev::Close], pos: s.pos + 1 }),
{
    reveal(rule_PrefixedName);
    reveal(rule_SourceSelector);
    reveal(rule_iri);
    reveal(st_open);
    reveal(st_close);
    reveal(st_advance);
    reveal(st_expect);
    assert(rule_SourceSelector(ts, s).evs =~= s.evs + seq![Ev::Open(SyntaxKind::SourceSelector), Ev::Open(SyntaxKind::iri), Ev::Open(SyntaxKind::PrefixedName), Ev::Advance, Ev::Close, Ev::Close, Ev::Close]);
}

/// On the tokens `PNAME_NS` a `SourceSelector` node holds them, in this order, with the
/// nodes the grammar gives them and no error.
pub proof fn law_SourceSelector_3(ts: Seq<SyntaxKind>, s: St)
    requires
        peek_at(ts, s.pos + 0) == SyntaxKind::PNAME_NS,
    ensures
        rule_SourceSelector(ts, s) == (St { evs: s.evs + seq![Ev::Open(SyntaxKind::SourceSelector), Ev::Open(SyntaxKind::iri), Ev::Open(SyntaxKind::PrefixedName), Ev::Advance, Ev::Close, Ev::Close, Ev::Close], pos: s.pos + 1 }),
{
    reveal(rule_PrefixedName);
    reveal(rule_SourceSelector);
    reveal(rule_iri);
    reveal(st_open);
    reveal(st_close);
    reveal(st_advance);
    reveal(st_expect);
    assert(rule_SourceSelector(ts, s).evs =~= s.evs + seq![Ev::Open(SyntaxKind::SourceSelector), Ev::Open(SyntaxKind::iri), Ev::Open(SyntaxKind::PrefixedName), Ev::Advance, Ev::Close, Ev::Close, Ev::Close]);
}

/// On the tokens `STRING_LITERAL1` a `String` node holds them, in this order, with the
/// nodes the grammar gives them and no error.
pub proof fn law_String_1(ts: Seq<SyntaxKind>, s: St)
    requires
        peek_at(ts, s.pos + 0) == SyntaxKind::STRING_LITERAL1,
    ensures
        rule_String(ts, s) == (St { evs: s.evs + seq![Ev::Open(SyntaxKind::String), Ev::Advance, Ev::Close], pos: s.pos + 1 }),
{
    reveal(rule_String);
    reveal(st_open);
    reveal(st_close);
    reveal(st_advance);
    reveal(st_expect);
    assert(rule_String(ts, s).evs =~= s.evs + seq![Ev::Open(SyntaxKind::String), Ev::Advance, Ev::Close]);
}

/// On the tokens `STRING_LITERAL2` a `String` node holds them, in this order, with the
/// nodes the grammar gives them and no error.
pub proof fn law_String_2(ts: Seq<SyntaxKind>, s: St)
    requires
        peek_at(ts, s.pos + 0) == SyntaxKind::STRING_LITERAL2,
    ensures
        rule_String(ts, s) == (St { evs: s.evs + seq![Ev::Open(SyntaxKind::String), Ev::Advance, Ev::Close], pos: s.pos + 1 }),
{
    reveal(rule_String);
    reveal(st_open);
    reveal(st_close);
    reveal(st_advance);
    reveal(st_expect);
    assert(rule_String(ts, s).evs =~= s.evs + seq![Ev::Open(SyntaxKind::String), Ev::Advance, Ev::Close]);
}

/// On the tokens `STRING_LITERAL_LONG1` a `String` node holds them, in this order, with the
/// nodes the grammar gives them and no error.
pub proof fn law_String_3(ts: Seq<SyntaxKind>, s: St)
    requires
        peek_at(ts, s.pos + 0) == SyntaxKind::STRING_LITERAL_LONG1,
    ensures
        rule_String(ts, s) == (St { evs: s.evs + seq![Ev::Open(SyntaxKind::String), Ev::Advance, Ev::Close], pos: s.pos + 1 }),
{
    reveal(rule_String);
    reveal(st_open);
    reveal(st_close);
    reveal(st_advance);
    reveal(st_expect);
    assert(rule_String(ts, s).evs =~= s.evs + seq![Ev::Open(SyntaxKind::String), Ev::Advance, Ev::Close]);
}

/// On the tokens `STRING_LITERAL_LONG2` a `String` node holds them, in this order, with the
/// nodes the grammar gives them and no error.
pub proof fn law_String_4(ts: Seq<SyntaxKind>, s: St)
    requires
        peek_at(ts, s.pos + 0) == SyntaxKind::STRING_LITERAL_LONG2,
    ensures
        rule_String(ts, s) == (St { evs: s.evs + seq![Ev::Open(SyntaxKind::String), Ev::Advance, Ev::Close], pos: s.pos + 1 }),
{
    reveal(rule_String);
    reveal(st_open);
    reveal(st_close);
    reveal(st_advance);
    reveal(st_expect);
    assert(rule_String(ts, s).evs =~= s.evs + seq![Ev::Open(SyntaxKind::String), Ev::Advance, Ev::Close]);
}

/// On the tokens `IRIREF` a `TripleTermDataSubject` node holds them, in this order, with the
/// nodes the grammar gives them and no error.
pub proof fn law_TripleTermDataSubject_1(ts: Seq<SyntaxKind>, s: St)
    requires
        peek_at(ts, s.pos + 0) == SyntaxKind::IRIREF,
    ensures
        rule_TripleTermDataSubject(ts, s) == (St { evs: s.evs + seq![Ev::Open(SyntaxKind::TripleTermDataSubject), Ev::Open(SyntaxKind::iri), Ev::Advance, Ev::Close, Ev::Close], pos: s.pos + 1 }),
{
    reveal(rule_TripleTermDataSubject);
    reveal(rule_iri);
    reveal(st_open);
    reveal(st_close);
    reveal(st_advance);
    reveal(st_expect);
    assert(rule_TripleTermDataSubject(ts, s).evs =~= s.evs + seq![Ev::Open(SyntaxKind::TripleTermDataSubject), Ev::Open(SyntaxKind::iri), Ev::Advance, Ev::Close, Ev::Close]);
}

/// On the tokens `PNAME_LN` a `TripleTermDataSubject` node holds them, in this order, with the
/// nodes the grammar gives them and no error.
pub proof fn law_TripleTermDataSubject_2(ts: Seq<SyntaxKind>, s: St)
    requires
        peek_at(ts, s.pos + 0) == SyntaxKind::PNAME_LN,
    ensures
        rule_TripleTermDataSubject(ts, s) == (St { evs: s.evs + seq![Ev::Open(SyntaxKind::TripleTermDataSubject), Ev::Open(SyntaxKind::iri), Ev::Open(SyntaxKind::PrefixedName), Ev::Advance, Ev::Close, Ev::Close, Ev::Close], pos: s.pos + 1 }),
{
    reveal(rule_PrefixedName);
    reveal(rule_TripleTermDataSubject);
    reveal(rule_iri);
    reveal(st_open);
    reveal(st_close);
    reveal(st_advance);
    reveal(st_expect);
    assert(rule_TripleTermDataSubject(ts, s).evs =~= s.evs + seq![Ev::Open(SyntaxKind::TripleTermDataSubject), Ev::Open(SyntaxKind::iri), Ev::Open(SyntaxKind::PrefixedName), Ev::Advance, Ev::Close, Ev::Close, Ev::Close]);
}

/// On the tokens `PNAME_NS` a `TripleTermDataSubject` node holds them, in this order, with the
/// nodes the grammar gives them and no error.
pub proof fn law_TripleTermDataSubject_3(ts: Seq<SyntaxKind>, s: St)
    requires
        peek_at(ts, s.pos + 0) == SyntaxKind::PNAME_NS,
    ensures
        rule_TripleTermDataSubject(ts, s) == (St { evs: s.evs + seq![Ev::Open(SyntaxKind::TripleTermDataSubject), Ev::Open(SyntaxKind::iri), Ev::Open(SyntaxKind::PrefixedName), Ev::Advance, Ev::Close, Ev::Close, Ev::Close], pos: s.pos + 1 }),
{
    reveal(rule_PrefixedName);
    reveal(rule_TripleTermDataSubject);
    reveal(rule_iri);
    reveal(st_open);
    reveal(st_close);
    reveal(st_advance);
    reveal(st_expect);
    assert(rule_TripleTermDataSubject(ts, s).evs =~= s.evs + seq![Ev::Open(SyntaxKind::TripleTermDataSubject), Ev::Open(SyntaxKind::iri), Ev::Open(SyntaxKind::PrefixedName), Ev::Advance, Ev::Close, Ev::Close, Ev::Close]);
}

/// On the tokens `USING` `IRIREF` a `UsingClause` node holds them, in this order, with the
/// nodes the grammar gives them and no error.
pub proof fn law_UsingClause_1(ts: Seq<SyntaxKind>, s: St)
    requires
        peek_at(ts, s.pos + 0) == SyntaxKind::USING,
        peek_at(ts, s.pos + 1) == SyntaxKind::IRIREF,
    ensures
        rule_UsingClause(ts, s) == (St { evs: s.evs + seq![Ev::Open(SyntaxKind::UsingClause), Ev::Advance, Ev::Open(SyntaxKind::iri), Ev::Advance, Ev::Close, Ev::Close], pos: s.pos + 2 }),
{
    reveal(rule_UsingClause);
    reveal(rule_iri);
    reveal(st_open);
    reveal(st_close);
    reveal(st_advance);
    reveal(st_expect);
    assert(rule_UsingClause(ts, s).evs =~= s.evs + seq![Ev::Open(SyntaxKind::UsingClause), Ev::Advance, Ev::Open(SyntaxKind::iri), Ev::Advance, Ev::Close, Ev::Close]);
}

/// On the tokens `USING` `PNAME_LN` a `UsingClause` node holds them, in this order, with the
/// nodes the grammar gives them and no error.
pub proof fn law_UsingClause_2(ts: Seq<SyntaxKind>, s: St)
    requires
        peek_at(ts, s.pos + 0) == SyntaxKind::USING,
        peek_at(ts, s.pos + 1) == SyntaxKind::PNAME_LN,
    ensures
        rule_UsingClause(ts, s) == (St { evs: s.evs + seq![Ev::Open(SyntaxKind::UsingClause), Ev::Advance, Ev::Open(SyntaxKind::iri), Ev::Open(SyntaxKind::PrefixedName), Ev::Advance, Ev::Close, Ev::Close, Ev::Close], pos: s.pos + 2 }),
{
    reveal(rule_PrefixedName);
    reveal(rule_UsingClause);
    reveal(rule_iri);
    reveal(st_open);
    reveal(st_close);
    reveal(st_advance);
    reveal(st_expect);
    assert(rule_UsingClause(ts, s).evs =~= s.evs + seq![Ev::Open(SyntaxKind::UsingClause), Ev::Advance, Ev::Open(SyntaxKind::iri), Ev::Open(SyntaxKind::PrefixedName), Ev::Advance, Ev::Close, Ev::Close, Ev::Close]);
}

/// On the tokens `USING` `PNAME_NS` a `UsingClause` node holds them, in this order, with the
/// nodes the grammar gives them and no error.
pub proof fn law_UsingClause_3(ts: Seq<SyntaxKind>, s: St)
    requires
        peek_at(ts, s.pos + 0) == SyntaxKind::USING,
        peek_at(ts, s.pos + 1) == SyntaxKind::PNAME_NS,
    ensures
        rule_UsingClause(ts, s) == (St { evs: s.evs + seq![Ev::Open(SyntaxKind::UsingClause), Ev::Advance, Ev::Open(SyntaxKind::iri), Ev::Open(SyntaxKind::PrefixedName), Ev::Advance, Ev::Close, Ev::Close, Ev::Close], pos: s.pos + 2 }),
{
    reveal(rule_PrefixedName);
    reveal(rule_UsingClause);
    reveal(rule_iri);
    reveal(st_open);
    reveal(st_close);
    reveal(st_advance);
    reveal(st_expect);
    assert(rule_UsingClause(ts, s).evs =~= s.evs + seq![Ev::Open(SyntaxKind::UsingClause), Ev::Advance, Ev::Open(SyntaxKind::iri), Ev::Open(SyntaxKind::PrefixedName), Ev::Advance, Ev::Close, Ev::Close, Ev::Close]);
}

/// On the tokens `USING` `NAMED` `IRIREF` a `UsingClause` node holds them, in this order, with the
/// nodes the grammar gives them and no error.
pub proof fn law_UsingClause_4(ts: Seq<SyntaxKind>, s: St)
    requires
        peek_at(ts, s.pos + 0) == SyntaxKind::USING,
        peek_at(ts, s.pos + 1) == SyntaxKind::NAMED,
        peek_at(ts, s.pos + 2) == SyntaxKind::IRIREF,
    ensures
        rule_UsingClause(ts, s) == (St { evs: s.evs + seq![Ev::Open(SyntaxKind::UsingClause), Ev::Advance, Ev::Advance, Ev::Open(SyntaxKind::iri), Ev::Advance, Ev::Close, Ev::Close], pos: s.pos + 3 }),
{
    reveal(rule_UsingClause);
    reveal(rule_iri);
    reveal(st_open);
    reveal(st_close);
    reveal(st_advance);
    reveal(st_expect);
    assert(rule_UsingClause(ts, s).evs =~= s.evs + seq![Ev::Open(SyntaxKind::UsingClause), Ev::Advance, Ev::Advance, Ev::Open(SyntaxKind::iri), Ev::Advance, Ev::Close, Ev::Close]);
}

/// On the tokens `USING` `NAMED` `PNAME_LN` a `UsingClause` node holds them, in this order, with the
/// nodes the grammar gives them and no error.
pub proof fn law_UsingClause_5(ts: Seq<SyntaxKind>, s: St)
    requires
        peek_at(ts, s.pos + 0) == SyntaxKind::USING,
        peek_at(ts, s.pos + 1) == SyntaxKind::NAMED,
        peek_at(ts, s.pos + 2) == SyntaxKind::PNAME_LN,
    ensures
        rule_UsingClause(ts, s) == (St { evs: s.evs + seq![Ev::Open(SyntaxKind::UsingClause), Ev::Advance, Ev::Advance, Ev::Open(SyntaxKind::iri), Ev::Open(SyntaxKind::PrefixedName), Ev::Advance, Ev::Close, Ev::Close, Ev::Close], pos: s.pos + 3 }),
{
    reveal(rule_PrefixedName);
    reveal(rule_UsingClause);
    reveal(rule_iri);
    reveal(st_open);
    reveal(st_close);
    reveal(st_advance);
    reveal(st_expect);
    assert(rule_UsingClause(ts, s).evs =~= s.evs + seq![Ev::Open(SyntaxKind::UsingClause), Ev::Advance, Ev::Advance, Ev::Open(SyntaxKind::iri), Ev::Open(SyntaxKind::PrefixedName), Ev::Advance, Ev::Close, Ev::Close, Ev::Close]);
}

/// On the tokens `USING` `NAMED` `PNAME_NS` a `UsingClause` node holds them, in this order, with the
/// nodes the grammar gives them and no error.
pub proof fn law_UsingClause_6(ts: Seq<SyntaxKind>, s: St)
    requires
        peek_at(ts, s.pos + 0) == SyntaxKind::USING,
        peek_at(ts, s.pos + 1) == SyntaxKind::NAMED,
        peek_at(ts, s.pos + 2) == SyntaxKind::PNAME_NS,
    ensures
        rule_UsingClause(ts, s) == (St { evs: s.evs + seq![Ev::Open(SyntaxKind::UsingClause), Ev::Advance, Ev::Advance, Ev::Open(SyntaxKind::iri), Ev::Open(SyntaxKind::PrefixedName), Ev::Advance, Ev::Close, Ev::Close, Ev::Close], pos: s.pos + 3 }),
{
    reveal(rule_PrefixedName);
    reveal(rule_UsingClause);
    reveal(rule_iri);
    reveal(st_open);
    reveal(st_close);
    reveal(st_advance);
    reveal(st_expect);
    assert(rule_UsingClause(ts, s).evs =~= s.evs + seq![Ev::Open(SyntaxKind::UsingClause), Ev::Advance, Ev::Advance, Ev::Open(SyntaxKind::iri), Ev::Open(SyntaxKind::PrefixedName), Ev::Advance, Ev::Close, Ev::Close, Ev::Close]);
}

/// On the tokens `IRIREF` a `VarOrIri` node holds them, in this order, with the
/// nodes the grammar gives them and no error.
pub proof fn law_VarOrIri_1(ts: Seq<SyntaxKind>, s: St)
    requires
        peek_at(ts, s.pos + 0) == SyntaxKind::IRIREF,
    ensures
        rule_VarOrIri(ts, s) == (St { evs: s.evs + seq![Ev::Open(SyntaxKind::VarOrIri), Ev::Open(SyntaxKind::iri), Ev::Advance, Ev::Close, Ev::Close], pos: s.pos + 1 }),
{
    reveal(rule_VarOrIri);
    reveal(rule_iri);
    reveal(st_open);
    reveal(st_close);
    reveal(st_advance);
    reveal(st_expect);
    assert(rule_VarOrIri(ts, s).evs =~= s.evs + seq![Ev::Open(SyntaxKind::VarOrIri), Ev::Open(SyntaxKind::iri), Ev::Advance, Ev::Close, Ev::Close]);
}

/// On the tokens `PNAME_LN` a `VarOrIri` node holds them, in this order, with the
/// nodes the grammar gives them and no error.
pub proof fn law_VarOrIri_2(ts: Seq<SyntaxKind>, s: St)
    requires
        peek_at(ts, s.pos + 0) == SyntaxKind::PNAME_LN,
    ensures
        rule_VarOrIri(ts, s) == (St { evs: s.evs + seq![Ev::Open(SyntaxKind::VarOrIri), Ev::Open(SyntaxKind::iri), Ev::Open(SyntaxKind::PrefixedName), Ev::Advance, Ev::Close, Ev::Close, Ev::Close], pos: s.pos + 1 }),
{
    reveal(rule_PrefixedName);
    reveal(rule_VarOrIri);
    reveal(rule_iri);
    reveal(st_open);
    reveal(st_close);
    reveal(st_advance);
    reveal(st_expect);
    assert(rule_VarOrIri(ts, s).evs =~= s.evs + seq![Ev::Open(SyntaxKind::VarOrIri), Ev::Open(SyntaxKind::iri), Ev::Open(SyntaxKind::PrefixedName), Ev::Advance, Ev::Close, Ev::Close, Ev::Close]);
}

/// On the tokens `PNAME_NS` a `VarOrIri` node holds them, in this order, with the
/// nodes the grammar gives them and no error.
pub proof fn law_VarOrIri_3(ts: Seq<SyntaxKind>, s: St)
    requires
        peek_at(ts, s.pos + 0) == SyntaxKind::PNAME_NS,
    ensures
        rule_VarOrIri(ts, s) == (St { evs: s.evs + seq![Ev::Open(SyntaxKind::VarOrIri), Ev::Open(SyntaxKind::iri), Ev::Open(SyntaxKind::PrefixedName), Ev::Advance, Ev::Close, Ev::Close, Ev::Close], pos: s.pos + 1 }),
{
    reveal(rule_PrefixedName);
    reveal(rule_VarOrIri);
    reveal(rule_iri);
    reveal(st_open);
    reveal(st_close);
    reveal(st_advance);
    reveal(st_expect);
    assert(rule_VarOrIri(ts, s).evs =~= s.evs + seq![Ev::Open(SyntaxKind::VarOrIri), Ev::Open(SyntaxKind::iri), Ev::Open(SyntaxKind::PrefixedName), Ev::Advance, Ev::Close, Ev::Close, Ev::Close]);
}

/// On the tokens `VAR1` a `VarOrIri` node holds them, in this order, with the
/// nodes the grammar gives them and no error.
pub proof fn law_VarOrIri_4(ts: Seq<SyntaxKind>, s: St)
    requires
        peek_at(ts, s.pos + 0) == SyntaxKind::VAR1,
    ensures
        rule_VarOrIri(ts, s) == (St { evs: s.evs + seq![Ev::Open(SyntaxKind::VarOrIri), Ev::Open(SyntaxKind::Var), Ev::Advance, Ev::Close, Ev::Close], pos: s.pos + 1 }),
{
    reveal(rule_Var);
    reveal(rule_VarOrIri);
    reveal(st_open);
    reveal(st_close);
    reveal(st_advance);
    reveal(st_expect);
    assert(rule_VarOrIri(ts, s).evs =~= s.evs + seq![Ev::Open(SyntaxKind::VarOrIri), Ev::Open(SyntaxKind::Var), Ev::Advance, Ev::Close, Ev::Close]);
}

/// On the tokens `VAR2` a `VarOrIri` node holds them, in this order, with the
/// nodes the grammar gives them and no error.
pub proof fn law_VarOrIri_5(ts: Seq<SyntaxKind>, s: St)
    requires
        peek_at(ts, s.pos + 0) == SyntaxKind::VAR2,
    ensures
        rule_VarOrIri(ts, s) == (St { evs: s.evs + seq![Ev::Open(SyntaxKind::VarOrIri), Ev::Open(SyntaxKind::Var), Ev::Advance, Ev::Close, Ev::Close], pos: s.pos + 1 }),
{
    reveal(rule_Var);
    reveal(rule_VarOrIri);
    reveal(st_open);
    reveal(st_close);
    reveal(st_advance);
    reveal(st_expect);
    assert(rule_VarOrIri(ts, s).evs =~= s.evs + seq![Ev::Open(SyntaxKind::VarOrIri), Ev::Open(SyntaxKind::Var), Ev::Advance, Ev::Close, Ev::Close]);
}

/// On the tokens `ANON` a `VarOrReifierId` node holds them, in this order, with the
/// nodes the grammar gives them and no error.
pub proof fn law_VarOrReifierId_1(ts: Seq<SyntaxKind>, s: St)
    requires
        peek_at(ts, s.pos + 0) == SyntaxKind::ANON,
    ensures
        rule_VarOrReifierId(ts, s) == (St { evs: s.evs + seq![Ev::Open(SyntaxKind::VarOrReifierId), Ev::Open(SyntaxKind::BlankNode), Ev::Advance, Ev::Close, Ev::Close], pos: s.pos + 1 }),
{
    reveal(rule_BlankNode);
    reveal(rule_VarOrReifierId);
    reveal(st_open);
    reveal(st_close);
    reveal(st_advance);
    reveal(st_expect);
    assert(rule_VarOrReifierId(ts, s).evs =~= s.evs + seq![Ev::Open(SyntaxKind::VarOrReifierId), Ev::Open(SyntaxKind::BlankNode), Ev::Advance, Ev::Close, Ev::Close]);
}

/// On the tokens `BLANK_NODE_LABEL` a `VarOrReifierId` node holds them, in this order, with the
/// nodes the grammar gives them and no error.
pub proof fn law_VarOrReifierId_2(ts: Seq<SyntaxKind>, s: St)
    requires
        peek_at(ts, s.pos + 0) == SyntaxKind::BLANK_NODE_LABEL,
    ensures
        rule_VarOrReifierId(ts, s) == (St { evs: s.evs + seq![Ev::Open(SyntaxKind::VarOrReifierId), Ev::Open(SyntaxKind::BlankNode), Ev::Advance, Ev::Close, Ev::Close], pos: s.pos + 1 }),
{
    reveal(rule_BlankNode);
    reveal(rule_VarOrReifierId);
    reveal(st_open);
    reveal(st_close);
    reveal(st_advance);
    reveal(st_expect);
    assert(rule_VarOrReifierId(ts, s).evs =~= s.evs + seq![Ev::Open(SyntaxKind::VarOrReifierId), Ev::Open(SyntaxKind::BlankNode), Ev::Advance, Ev::Close, Ev::Close]);
}

/// On the tokens `IRIREF` a `VarOrReifierId` node holds them, in this order, with the
/// nodes the grammar gives them and no error.
pub proof fn law_VarOrReifierId_3(ts: Seq<SyntaxKind>, s: St)
    requires
        peek_at(ts, s.pos + 0) == SyntaxKind::IRIREF,
    ensures
        rule_VarOrReifierId(ts, s) == (St { evs: s.evs + seq![Ev::Open(SyntaxKind::VarOrReifierId), Ev::Open(SyntaxKind::iri), Ev::Advance, Ev::Close, Ev::Close], pos: s.pos + 1 }),
{
    reveal(rule_VarOrReifierId);
    reveal(rule_iri);
    reveal(st_open);
    reveal(st_close);
    reveal(st_advance);
    reveal(st_expect);
    assert(rule_VarOrReifierId(ts, s).evs =~= s.evs + seq![Ev::Open(SyntaxKind::VarOrReifierId), Ev::Open(SyntaxKind::iri), Ev::Advance, Ev::Close, Ev::Close]);
}

/// On the tokens `PNAME_LN` a `VarOrReifierId` node holds them, in this order, with the
/// nodes the grammar gives them and no error.
pub proof fn law_VarOrReifierId_4(ts: Seq<SyntaxKind>, s: St)
    requires
        peek_at(ts, s.pos + 0) == SyntaxKind::PNAME_LN,
    ensures
        rule_VarOrReifierId(ts, s) == (St { evs: s.evs + seq![Ev::Open(SyntaxKind::VarOrReifierId), Ev::Open(SyntaxKind::iri), Ev::Open(SyntaxKind::PrefixedName), Ev::Advance, Ev::Close, Ev::Close, Ev::Close], pos: s.pos + 1 }),
{
    reveal(rule_PrefixedName);
    reveal(rule_VarOrReifierId);
    reveal(rule_iri);
    reveal(st_open);
    reveal(st_close);
    reveal(st_advance);
    reveal(st_expect);
    assert(rule_VarOrReifierId(ts, s).evs =~= s.evs + seq![Ev::Open(SyntaxKind::VarOrReifierId), Ev::Open(SyntaxKind::iri), Ev::Open(SyntaxKind::PrefixedName), Ev::Advance, Ev::Close, Ev::Close, Ev::Close]);
}

/// On the tokens `PNAME_NS` a `VarOrReifierId` node holds them, in this order, with the
/// nodes the grammar gives them and no error.
pub proof fn law_VarOrReifierId_5(ts: Seq<SyntaxKind>, s: St)
    requires
        peek_at(ts, s.pos + 0) == SyntaxKind::PNAME_NS,
    ensures
        rule_VarOrReifierId(ts, s) == (St { evs: s.evs + seq![Ev::Open(SyntaxKind::VarOrReifierId), Ev::Open(SyntaxKind::iri), Ev::Open(SyntaxKind::PrefixedName), Ev::Advance, Ev::Close, Ev::Close, Ev::Close], pos: s.pos + 1 }),
{
    reveal(rule_PrefixedName);
    reveal(rule_VarOrReifierId);
    reveal(rule_iri);
    reveal(st_open);
    reveal(st_close);
    reveal(st_advance);
    reveal(st_expect);
    assert(rule_VarOrReifierId(ts, s).evs =~= s.evs + seq![Ev::Open(SyntaxKind::VarOrReifierId), Ev::Open(SyntaxKind::iri), Ev::Open(SyntaxKind::PrefixedName), Ev::Advance, Ev::Close, Ev::Close, Ev::Close]);
}

/// On the tokens `VAR1` a `VarOrReifierId` node holds them, in this order, with the
/// nodes the grammar gives them and no error.
pub proof fn law_VarOrReifierId_6(ts: Seq<SyntaxKind>, s: St)
    requires
        peek_at(ts, s.pos + 0) == SyntaxKind::VAR1,
    ensures
        rule_VarOrReifierId(ts, s) == (St { evs: s.evs + seq![Ev::Open(SyntaxKind::VarOrReifierId), Ev::Open(SyntaxKind::Var), Ev::Advance, Ev::Close, Ev::Close], pos: s.pos + 1 }),
{
    reveal(rule_Var);
    reveal(rule_VarOrReifierId);
    reveal(st_open);
    reveal(st_close);
    reveal(st_advance);
    reveal(st_expect);
    assert(rule_VarOrReifierId(ts, s).evs =~= s.evs + seq![Ev::Open(SyntaxKind::VarOrReifierId), Ev::Open(SyntaxKind::Var), Ev::Advance, Ev::Close, Ev::Close]);
}

/// On the tokens `VAR2` a `VarOrReifierId` node holds them, in this order, with the
/// nodes the grammar gives them and no error.
pub proof fn law_VarOrReifierId_7(ts: Seq<SyntaxKind>, s: St)
    requires
        peek_at(ts, s.pos + 0) == SyntaxKind::VAR2,
    ensures
        rule_VarOrReifierId(ts, s) == (St { evs: s.evs + seq![Ev::Open(SyntaxKind::VarOrReifierId), Ev::Open(SyntaxKind::Var), Ev::Advance, Ev::Close, Ev::Close], pos: s.pos + 1 }),
{
    reveal(rule_Var);
    reveal(rule_VarOrReifierId);
    reveal(st_open);
    reveal(st_close);
    reveal(st_advance);
    reveal(st_expect);
    assert(rule_VarOrReifierId(ts, s).evs =~= s.evs + seq![Ev::Open(SyntaxKind::VarOrReifierId), Ev::Open(SyntaxKind::Var), Ev::Advance, Ev::Close, Ev::Close]);
}

/// On the tokens `IRIREF` a `Verb` node holds them, in this order, with the
/// nodes the grammar gives them and no error.
pub proof fn law_Verb_1(ts: Seq<SyntaxKind>, s: St)
    requires
        peek_at(ts, s.pos + 0) == SyntaxKind::IRIREF,
    ensures
        rule_Verb(ts, s) == (St { evs: s.evs + seq![Ev::Open(SyntaxKind::Verb), Ev::Open(SyntaxKind::VarOrIri), Ev::Open(SyntaxKind::iri), Ev::Advance, Ev::Close, Ev::Close, Ev::Close], pos: s.pos + 1 }),
{
    reveal(rule_VarOrIri);
    reveal(rule_Verb);
    reveal(rule_iri);
    reveal(st_open);
    reveal(st_close);
    reveal(st_advance);
    reveal(st_expect);
    assert(rule_Verb(ts, s).evs =~= s.evs + seq![Ev::Open(SyntaxKind::Verb), Ev::Open(SyntaxKind::VarOrIri), Ev::Open(SyntaxKind::iri), Ev::Advance, Ev::Close, Ev::Close, Ev::Close]);
}

/// On the tokens `PNAME_LN` a `Verb` node holds them, in this order, with the
/// nodes the grammar gives them and no error.
pub proof fn law_Verb_2(ts: Seq<SyntaxKind>, s: St)
    requires
        peek_at(ts, s.pos + 0) == SyntaxKind::PNAME_LN,
    ensures
        rule_Verb(ts, s) == (St { evs: s.evs + seq![Ev::Open(SyntaxKind::Verb), Ev::Open(SyntaxKind::VarOrIri), Ev::Open(SyntaxKind::iri), Ev::Open(SyntaxKind::PrefixedName), Ev::Advance, Ev::Close, Ev::Close, Ev::Close, Ev::Close], pos: s.pos + 1 }),
{
    reveal(rule_PrefixedName);
    reveal(rule_VarOrIri);
    reveal(rule_Verb);
    reveal(rule_iri);
    reveal(st_open);
    reveal(st_close);
    reveal(st_advance);
    reveal(st_expect);
    assert(rule_Verb(ts, s).evs =~= s.evs + seq![Ev::Open(SyntaxKind::Verb), Ev::Open(SyntaxKind::VarOrIri), Ev::Open(SyntaxKind::iri), Ev::Open(SyntaxKind::PrefixedName), Ev::Advance, Ev::Close, Ev::Close, Ev::Close, Ev::Close]);
}

/// On the tokens `PNAME_NS` a `Verb` node holds them, in this order, with the
/// nodes the grammar gives them and no error.
pub proof fn law_Verb_3(ts: Seq<SyntaxKind>, s: St)
    requires
        peek_at(ts, s.pos + 0) == SyntaxKind::PNAME_NS,
    ensures
        rule_Verb(ts, s) == (St { evs: s.evs + seq![Ev::Open(SyntaxKind::Verb), Ev::Open(SyntaxKind::VarOrIri), Ev::Open(SyntaxKind::iri), Ev::Open(SyntaxKind::PrefixedName), Ev::Advance, Ev::Close, Ev::Close, Ev::Close, Ev::Close], pos: s.pos + 1 }),
{
    reveal(rule_PrefixedName);
    reveal(rule_VarOrIri);
    reveal(rule_Verb);
    reveal(rule_iri);
    reveal(st_open);
    reveal(st_close);
    reveal(st_advance);
    reveal(st_expect);
    assert(rule_Verb(ts, s).evs =~= s.evs + seq![Ev::Open(SyntaxKind::Verb), Ev::Open(SyntaxKind::VarOrIri), Ev::Open(SyntaxKind::iri), Ev::Open(SyntaxKind::PrefixedName), Ev::Advance, Ev::Close, Ev::Close, Ev::Close, Ev::Close]);
}

/// On the tokens `VAR1` a `Verb` node holds them, in this order, with the
/// nodes the grammar gives them and no error.
pub proof fn law_Verb_4(ts: Seq<SyntaxKind>, s: St)
    requires
        peek_at(ts, s.pos + 0) == SyntaxKind::VAR1,
    ensures
        rule_Verb(ts, s) == (St { evs: s.evs + seq![Ev::Open(SyntaxKind::Verb), Ev::Open(SyntaxKind::VarOrIri), Ev::Open(SyntaxKind::Var), Ev::Advance, Ev::Close, Ev::Close, Ev::Close], pos: s.pos + 1 }),
{
    reveal(rule_Var);
    reveal(rule_VarOrIri);
    reveal(rule_Verb);
    reveal(st_open);
    reveal(st_close);
    reveal(st_advance);
    reveal(st_expect);
    assert(rule_Verb(ts, s).evs =~= s.evs + seq![Ev::Open(SyntaxKind::Verb), Ev::Open(SyntaxKind::VarOrIri), Ev::Open(SyntaxKind::Var), Ev::Advance, Ev::Close, Ev::Close, Ev::Close]);
}

/// On the tokens `VAR2` a `Verb` node holds them, in this order, with the
/// nodes the grammar gives them and no error.
pub proof fn law_Verb_5(ts: Seq<SyntaxKind>, s: St)
    requires
        peek_at(ts, s.pos + 0) == SyntaxKind::VAR2,
    ensures
        rule_Verb(ts, s) == (St { evs: s.evs + seq![Ev::Open(SyntaxKind::Verb), Ev::Open(SyntaxKind::VarOrIri), Ev::Open(SyntaxKind::Var), Ev::Advance, Ev::Close, Ev::Close, Ev::Close], pos: s.pos + 1 }),
{
    reveal(rule_Var);
    reveal(rule_VarOrIri);
    reveal(rule_Verb);
    reveal(st_open);
    reveal(st_close);
    reveal(st_advance);
    reveal(st_expect);
    assert(rule_Verb(ts, s).evs =~= s.evs + seq![Ev::Open(SyntaxKind::Verb), Ev::Open(SyntaxKind::VarOrIri), Ev::Open(SyntaxKind::Var), Ev::Advance, Ev::Close, Ev::Close, Ev::Close]);
}

/// On the tokens `a` a `Verb` node holds them, in this order, with the
/// nodes the grammar gives them and no error.
pub proof fn law_Verb_6(ts: Seq<SyntaxKind>, s: St)
    requires
        peek_at(ts, s.pos + 0) == SyntaxKind::a,
    ensures
        rule_Verb(ts, s) == (St { evs: s.evs + seq![Ev::Open(SyntaxKind::Verb), Ev::Advance, Ev::Close], pos: s.pos + 1 }),
{
    reveal(rule_Verb);
    reveal(st_open);
    reveal(st_close);
    reveal(st_advance);
    reveal(st_expect);
    assert(rule_Verb(ts, s).evs =~= s.evs + seq![Ev::Open(SyntaxKind::Verb), Ev::Advance, Ev::Close]);
}

/// On the tokens `VAR1` a `VerbSimple` node holds them, in this order, with the
/// nodes the grammar gives them and no error.
pub proof fn law_VerbSimple_1(ts: Seq<SyntaxKind>, s: St)
    requires
        peek_at(ts, s.pos + 0) == SyntaxKind::VAR1,
    ensures
        rule_VerbSimple(ts, s) == (St { evs: s.evs + seq![Ev::Open(SyntaxKind::VerbSimple), Ev::Open(SyntaxKind::Var), Ev::Advance, Ev::Close, Ev::Close], pos: s.pos + 1 }),
{
    reveal(rule_Var);
    reveal(rule_VerbSimple);
    reveal(st_open);
    reveal(st_close);
    reveal(st_advance);
    reveal(st_expect);
    assert(rule_VerbSimple(ts, s).evs =~= s.evs + seq![Ev::Open(SyntaxKind::VerbSimple), Ev::Open(SyntaxKind::Var), Ev::Advance, Ev::Close, Ev::Close]);
}

/// On the tokens `VAR2` a `VerbSimple` node holds them, in this order, with the
/// nodes the grammar gives them and no error.
pub proof fn law_VerbSimple_2(ts: Seq<SyntaxKind>, s: St)
    requires
        peek_at(ts, s.pos + 0) == SyntaxKind::VAR2,
    ensures
        rule_VerbSimple(ts, s) == (St { evs: s.evs + seq![Ev::Open(SyntaxKind::VerbSimple), Ev::Open(SyntaxKind::Var), Ev::Advance, Ev::Close, Ev::Close], pos: s.pos + 1 }),
{
    reveal(rule_Var);
    reveal(rule_VerbSimple);
    reveal(st_open);
    reveal(st_close);
    reveal(st_advance);
    reveal(st_expect);
    assert(rule_VerbSimple(ts, s).evs =~= s.evs + seq![Ev::Open(SyntaxKind::VerbSimple), Ev::Open(SyntaxKind::Var), Ev::Advance, Ev::Close, Ev::Close]);
}

/// On the tokens `VERSION` `STRING_LITERAL1` a `VersionDecl` node holds them, in this order, with the
/// nodes the grammar gives them and no error.
pub proof fn law_VersionDecl_1(ts: Seq<SyntaxKind>, s: St)
    requires
        peek_at(ts, s.pos + 0) == SyntaxKind::VERSION,
        peek_at(ts, s.pos + 1) == SyntaxKind::STRING_LITERAL1,
    ensures
        rule_VersionDecl(ts, s) == (St { evs: s.evs + seq![Ev::Open(SyntaxKind::VersionDecl), Ev::Advance, Ev::Open(SyntaxKind::VersionSpecifier), Ev::Advance, Ev::Close, Ev::Close], pos: s.pos + 2 }),
{
    reveal(rule_VersionDecl);
    reveal(rule_VersionSpecifier);
    reveal(st_open);
    reveal(st_close);
    reveal(st_advance);
    reveal(st_expect);
    assert(rule_VersionDecl(ts, s).evs =~= s.evs + seq![Ev::Open(SyntaxKind::VersionDecl), Ev::Advance, Ev::Open(SyntaxKind::VersionSpecifier), Ev::Advance, Ev::Close, Ev::Close]);
}

/// On the tokens `VERSION` `STRING_LITERAL2` a `VersionDecl` node holds them, in this order, with the
/// nodes the grammar gives them and no error.
pub proof fn law_VersionDecl_2(ts: Seq<SyntaxKind>, s: St)
    requires
        peek_at(ts, s.pos + 0) == SyntaxKind::VERSION,
        peek_at(ts, s.pos + 1) == SyntaxKind::STRING_LITERAL2,
    ensures
        rule_VersionDecl(ts, s) == (St { evs: s.evs + seq![Ev::Open(SyntaxKind::VersionDecl), Ev::Advance, Ev::Open(SyntaxKind::VersionSpecifier), Ev::Advance, Ev::Close, Ev::Close], pos: s.pos + 2 }),
{
    reveal(rule_VersionDecl);
    reveal(rule_VersionSpecifier);
    reveal(st_open);
    reveal(st_close);
    reveal(st_advance);
    reveal(st_expect);
    assert(rule_VersionDecl(ts, s).evs =~= s.evs + seq![Ev::Open(SyntaxKind::VersionDecl), Ev::Advance, Ev::Open(SyntaxKind::VersionSpecifier), Ev::Advance, Ev::Close, Ev::Close]);
}

/// On the tokens `STRING_LITERAL1` a `VersionSpecifier` node holds them, in this order, with the
/// nodes the grammar gives them and no error.
pub proof fn law_VersionSpecifier_1(ts: Seq<SyntaxKind>, s: St)
    requires
        peek_at(ts, s.pos + 0) == SyntaxKind::STRING_LITERAL1,
    ensures
        rule_VersionSpecifier(ts, s) == (St { evs: s.evs + seq![Ev::Open(SyntaxKind::VersionSpecifier), Ev::Advance, Ev::Close], pos: s.pos + 1 }),
{
    reveal(rule_VersionSpecifier);
    reveal(st_open);
    reveal(st_close);
    reveal(st_advance);
    reveal(st_expect);
    assert(rule_VersionSpecifier(ts, s).evs =~= s.evs + seq![Ev::Open(SyntaxKind::VersionSpecifier), Ev::Advance, Ev::Close]);
}

/// On the tokens `STRING_LITERAL2` a `VersionSpecifier` node holds them, in this order, with the
/// nodes the grammar gives them and no error.
pub proof fn law_VersionSpecifier_2(ts: Seq<SyntaxKind>, s: St)
    requires
        peek_at(ts, s.pos + 0) == SyntaxKind::STRING_LITERAL2,
    ensures
        rule_VersionSpecifier(ts, s) == (St { evs: s.evs + seq![Ev::Open(SyntaxKind::VersionSpecifier), Ev::Advance, Ev::Close], pos: s.pos + 1 }),
{
    reveal(rule_VersionSpecifier);
    reveal(st_open);
    reveal(st_close);
    reveal(st_advance);
    reveal(st_expect);
    assert(rule_VersionSpecifier(ts, s).evs =~= s.evs + seq![Ev::Open(SyntaxKind::VersionSpecifier), Ev::Advance, Ev::Close]);
}

/// On the tokens `VAR1` a `Var` node holds them, in this order, with the
/// nodes the grammar gives them and no error.
pub proof fn law_Var_1(ts: Seq<SyntaxKind>, s: St)
    requires
        peek_at(ts, s.pos + 0) == SyntaxKind::VAR1,
    ensures
        rule_Var(ts, s) == (St { evs: s.evs + seq![Ev::Open(SyntaxKind::Var), Ev::Advance, Ev::Close], pos: s.pos + 1 }),
{
    reveal(rule_Var);
    reveal(st_open);
    reveal(st_close);
    reveal(st_advance);
    reveal(st_expect);
    assert(rule_Var(ts, s).evs =~= s.evs + seq![Ev::Open(SyntaxKind::Var), Ev::Advance, Ev::Close]);
}

/// On the tokens `VAR2` a `Var` node holds them, in this order, with the
/// nodes the grammar gives them and no error.
pub proof fn law_Var_2(ts: Seq<SyntaxKind>, s: St)
    requires
        peek_at(ts, s.pos + 0) == SyntaxKind::VAR2,
    ensures
        rule_Var(ts, s) == (St { evs: s.evs + seq![Ev::Open(SyntaxKind::Var), Ev::Advance, Ev::Close], pos: s.pos + 1 }),
{
    reveal(rule_Var);
    reveal(st_open);
    reveal(st_close);
    reveal(st_advance);
    reveal(st_expect);
    assert(rule_Var(ts, s).evs =~= s.evs + seq![Ev::Open(SyntaxKind::Var), Ev::Advance, Ev::Close]);
}

/// On the tokens `IRIREF` a `iri` node holds them, in this order, with the
/// nodes the grammar gives them and no error.
pub proof fn law_iri_1(ts: Seq<SyntaxKind>, s: St)
    requires
        peek_at(ts, s.pos + 0) == SyntaxKind::IRIREF,
    ensures
        rule_iri(ts, s) == (St { evs: s.evs + seq![Ev::Open(SyntaxKind::iri), Ev::Advance, Ev::Close], pos: s.pos + 1 }),
{
    reveal(rule_iri);
    reveal(st_open);
    reveal(st_close);
    reveal(st_advance);
    reveal(st_expect);
    assert(rule_iri(ts, s).evs =~= s.evs + seq![Ev::Open(SyntaxKind::iri), Ev::Advance, Ev::Close]);
}

/// On the tokens `PNAME_LN` a `iri` node holds them, in this order, with the
/// nodes the grammar gives them and no error.
pub proof fn law_iri_2(ts: Seq<SyntaxKind>, s: St)
    requires
        peek_at(ts, s.pos + 0) == SyntaxKind::PNAME_LN,
    ensures
        rule_iri(ts, s) == (St { evs: s.evs + seq![Ev::Open(SyntaxKind::iri), Ev::Open(SyntaxKind::PrefixedName), Ev::Advance, Ev::Close, Ev::Close], pos: s.pos + 1 }),
{
    reveal(rule_PrefixedName);
    reveal(rule_iri);
    reveal(st_open);
    reveal(st_close);
    reveal(st_advance);
    reveal(st_expect);
    assert(rule_iri(ts, s).evs =~= s.evs + seq![Ev::Open(SyntaxKind::iri), Ev::Open(SyntaxKind::PrefixedName), Ev::Advance, Ev::Close, Ev::Close]);
}

/// On the tokens `PNAME_NS` a `iri` node holds them, in this order, with the
/// nodes the grammar gives them and no error.
pub proof fn law_iri_3(ts: Seq<SyntaxKind>, s: St)
    requires
        peek_at(ts, s.pos + 0) == SyntaxKind::PNAME_NS,
    ensures
        rule_iri(ts, s) == (St { evs: s.evs + seq![Ev::Open(SyntaxKind::iri), Ev::Open(SyntaxKind::PrefixedName), Ev::Advance, Ev::Close, Ev::Close], pos: s.pos + 1 }),
{
    reveal(rule_PrefixedName);
    reveal(rule_iri);
    reveal(st_open);
    reveal(st_close);
    reveal(st_advance);
    reveal(st_expect);
    assert(rule_iri(ts, s).evs =~= s.evs + seq![Ev::Open(SyntaxKind::iri), Ev::Open(SyntaxKind::PrefixedName), Ev::Advance, Ev::Close, Ev::Close]);
}

/// On the tokens `PNAME_LN` a `PrefixedName` node holds them, in this order, with the
/// nodes the grammar gives them and no error.
pub proof fn law_PrefixedName_1(ts: Seq<SyntaxKind>, s: St)
    requires
        peek_at(ts, s.pos + 0) == SyntaxKind::PNAME_LN,
    ensures
        rule_PrefixedName(ts, s) == (St { evs: s.evs + seq![Ev::Open(SyntaxKind::PrefixedName), Ev::Advance, Ev::Close], pos: s.pos + 1 }),
{
    reveal(rule_PrefixedName);
    reveal(st_open);
    reveal(st_close);
    reveal(st_advance);
    reveal(st_expect);
    assert(rule_PrefixedName(ts, s).evs =~= s.evs + seq![Ev::Open(SyntaxKind::PrefixedName), Ev::Advance, Ev::Close]);
}

/// On the tokens `PNAME_NS` a `PrefixedName` node holds them, in this order, with the
/// nodes the grammar gives them and no error.
pub proof fn law_PrefixedName_2(ts: Seq<SyntaxKind>, s: St)
    requires
        peek_at(ts, s.pos + 0) == SyntaxKind::PNAME_NS,
    ensures
        rule_PrefixedName(ts, s) == (St { evs: s.evs + seq![Ev::Open(SyntaxKind::PrefixedName), Ev::Advance, Ev::Close], pos: s.pos + 1 }),
{
    reveal(rule_PrefixedName);
    reveal(st_open);
    reveal(st_close);
    reveal(st_advance);
    reveal(st_expect);
    assert(rule_PrefixedName(ts, s).evs =~= s.evs + seq![Ev::Open(SyntaxKind::PrefixedName), Ev::Advance, Ev::Close]);
}

/// On the tokens `PREFIX` `PNAME_NS` `IRIREF` a `PrefixDecl` node holds them, in this order, with the
/// nodes the grammar gives them and no error.
pub proof fn law_PrefixDecl_1(ts: Seq<SyntaxKind>, s: St)
    requires
        peek_at(ts, s.pos + 0) == SyntaxKind::PREFIX,
        peek_at(ts, s.pos + 1) == SyntaxKind::PNAME_NS,
        peek_at(ts, s.pos + 2) == SyntaxKind::IRIREF,
    ensures
        rule_PrefixDecl(ts, s) == (St { evs: s.evs + seq![Ev::Open(SyntaxKind::PrefixDecl), Ev::Advance, Ev::Advance, Ev::Advance, Ev::Close], pos: s.pos + 3 }),
{
    reveal(rule_PrefixDecl);
    reveal(st_open);
    reveal(st_close);
    reveal(st_advance);
    reveal(st_expect);
    assert(rule_PrefixDecl(ts, s).evs =~= s.evs + seq![Ev::Open(SyntaxKind::PrefixDecl), Ev::Advance, Ev::Advance, Ev::Advance, Ev::Close]);
}

/// On the tokens `CONSTRUCT` `WHERE` `LCurly` `RCurly` a `ConstructQuery` node holds them, in this order, with the
/// nodes the grammar gives them and no error.
#[verifier::rlimit(100)]
#[verifier::spinoff_prover]
pub proof fn law_ConstructQuery_1(ts: Seq<SyntaxKind>, s: St)
    requires
        peek_at(ts, s.pos + 0) == SyntaxKind::CONSTRUCT,
        peek_at(ts, s.pos + 1) == SyntaxKind::WHERE,
        peek_at(ts, s.pos + 2) == SyntaxKind::LCurly,
        peek_at(ts, s.pos + 3) == SyntaxKind::RCurly,
        (peek_at(ts, s.pos + 4) == SyntaxKind::GROUP || peek_at(ts, s.pos + 4) == SyntaxKind::HAVING || peek_at(ts, s.pos + 4) == SyntaxKind::LIMIT || peek_at(ts, s.pos + 4) == SyntaxKind::OFFSET || peek_at(ts, s.pos + 4) == SyntaxKind::ORDER),
        !(peek_at(ts, s.pos + 4) == SyntaxKind::GROUP),
        !(peek_at(ts, s.pos + 4) == SyntaxKind::HAVING),
        !(peek_at(ts, s.pos + 4) == SyntaxKind::ORDER),
        !(peek_at(ts, s.pos + 4) == SyntaxKind::LIMIT || peek_at(ts, s.pos + 4) == SyntaxKind::OFFSET),
    ensures
        rule_ConstructQuery(ts, s) == (St { evs: s.evs + seq![Ev::Open(SyntaxKind::ConstructQuery), Ev::Advance, Ev::Advance, Ev::Advance, Ev::Advance, Ev::Open(SyntaxKind::SolutionModifier), Ev::Close, Ev::Close], pos: s.pos + 4 }),
{
    reveal_with_fuel(rule_ConstructQuery, 1);
    reveal_with_fuel(if_ConstructQuery_1, 1);
    reveal_with_fuel(loop_ConstructQuery_3, 2);
    reveal_with_fuel(body_ConstructQuery_4, 1);
    reveal_with_fuel(if_ConstructQuery_5, 1);
    reveal_with_fuel(loop_ConstructQuery_6, 2);
    reveal_with_fuel(body_ConstructQuery_7, 1);
    reveal_with_fuel(if_ConstructQuery_8, 1);
    reveal_with_fuel(if_ConstructQuery_9, 1);
    reveal_with_fuel(if_ConstructQuery_10, 1);
    reveal_with_fuel(if_ConstructQuery_11, 1);
    reveal_with_fuel(match_ConstructQuery_2, 1);
    reveal_with_fuel(rule_SolutionModifier, 1);
    reveal_with_fuel(if_SolutionModifier_1, 1);
    reveal_with_fuel(if_SolutionModifier_2, 1);
    reveal_with_fuel(if_SolutionModifier_3, 1);
    reveal_with_fuel(if_SolutionModifier_4, 1);
    reveal_with_fuel(if_SolutionModifier_5, 1);
    reveal(st_open);
    reveal(st_close);
    reveal(st_advance);
    reveal(st_expect);
    assert(rule_ConstructQuery(ts, s).evs =~= s.evs + seq![Ev::Open(SyntaxKind::ConstructQuery), Ev::Advance, Ev::Advance, Ev::Advance, Ev::Advance, Ev::Open(SyntaxKind::SolutionModifier), Ev::Close, Ev::Close]);
}

/// On the tokens `DESCRIBE` `IRIREF` a `DescribeQuery` node holds them, in this order, with the
/// nodes the grammar gives them and no error.
#[verifier::rlimit(100)]
#[verifier::spinoff_prover]
pub proof fn law_DescribeQuery_1(ts: Seq<SyntaxKind>, s: St)
    requires
        peek_at(ts, s.pos + 0) == SyntaxKind::DESCRIBE,
        peek_at(ts, s.pos + 1) == SyntaxKind::IRIREF,
        !(peek_at(ts, s.pos + 2) == SyntaxKind::IRIREF || peek_at(ts, s.pos + 2) == SyntaxKind::PNAME_LN || peek_at(ts, s.pos + 2) == SyntaxKind::PNAME_NS || peek_at(ts, s.pos + 2) == SyntaxKind::VAR1 || peek_at(ts, s.pos + 2) == SyntaxKind::VAR2),
        !(peek_at(ts, s.pos + 2) == SyntaxKind::FROM),
        !(peek_at(ts, s.pos + 2) == SyntaxKind::LCurly || peek_at(ts, s.pos + 2) == SyntaxKind::WHERE),
        (peek_at(ts, s.pos + 2) == SyntaxKind::GROUP || peek_at(ts, s.pos + 2) == SyntaxKind::HAVING || peek_at(ts, s.pos + 2) == SyntaxKind::LIMIT || peek_at(ts, s.pos + 2) == SyntaxKind::OFFSET || peek_at(ts, s.pos + 2) == SyntaxKind::ORDER),
        !(peek_at(ts, s.pos + 2) == SyntaxKind::GROUP),
        !(peek_at(ts, s.pos + 2) == SyntaxKind::HAVING),
        !(peek_at(ts, s.pos + 2) == SyntaxKind::ORDER),
        !(peek_at(ts, s.pos + 2) == SyntaxKind::LIMIT || peek_at(ts, s.pos + 2) == SyntaxKind::OFFSET),
    ensures
        rule_DescribeQuery(ts, s) == (St { evs: s.evs + seq![Ev::Open(SyntaxKind::DescribeQuery), Ev::Advance, Ev::Open(SyntaxKind::VarOrIri), Ev::Open(SyntaxKind::iri), Ev::Advance, Ev::Close, Ev::Close, Ev::Open(SyntaxKind::SolutionModifier), Ev::Close, Ev::Close], pos: s.pos + 2 }),
{
    reveal_with_fuel(rule_DescribeQuery, 1);
    reveal_with_fuel(if_DescribeQuery_1, 1);
    reveal_with_fuel(loop_DescribeQuery_3, 2);
    reveal_with_fuel(body_DescribeQuery_4, 1);
    reveal_with_fuel(match_DescribeQuery_2, 1);
    reveal_with_fuel(loop_DescribeQuery_5, 2);
    reveal_with_fuel(body_DescribeQuery_6, 1);
    reveal_with_fuel(if_DescribeQuery_7, 1);
    reveal_with_fuel(rule_SolutionModifier, 1);
    reveal_with_fuel(if_SolutionModifier_1, 1);
    reveal_with_fuel(if_SolutionModifier_2, 1);
    reveal_with_fuel(if_SolutionModifier_3, 1);
    reveal_with_fuel(if_SolutionModifier_4, 1);
    reveal_with_fuel(if_SolutionModifier_5, 1);
    reveal(rule_VarOrIri);
    reveal(rule_iri);
    reveal(st_open);
    reveal(st_close);
    reveal(st_advance);
    reveal(st_expect);
    assert(rule_DescribeQuery(ts, s).evs =~= s.evs + seq![Ev::Open(SyntaxKind::DescribeQuery), Ev::Advance, Ev::Open(SyntaxKind::VarOrIri), Ev::Open(SyntaxKind::iri), Ev::Advance, Ev::Close, Ev::Close, Ev::Open(SyntaxKind::SolutionModifier), Ev::Close, Ev::Close]);
}

/// On the tokens `BASE` `IRIREF` a `UpdateUnit` node holds them, in this order, with the
/// nodes the grammar gives them and no error.
#[verifier::rlimit(100)]
#[verifier::spinoff_prover]
pub proof fn law_UpdateUnit_2(ts: Seq<SyntaxKind>, s: St)
    requires
        peek_at(ts, s.pos + 0) == SyntaxKind::BASE,
        peek_at(ts, s.pos + 1) == SyntaxKind::IRIREF,
        !(peek_at(ts, s.pos + 2) == SyntaxKind::BASE || peek_at(ts, s.pos + 2) == SyntaxKind::PREFIX || peek_at(ts, s.pos + 2) == SyntaxKind::VERSION),
        !(peek_at(ts, s.pos + 2) == SyntaxKind::ADD || peek_at(ts, s.pos + 2) == SyntaxKind::CLEAR || peek_at(ts, s.pos + 2) == SyntaxKind::COPY || peek_at(ts, s.pos + 2) == SyntaxKind::CREATE || peek_at(ts, s.pos + 2) == SyntaxKind::DELETE || peek_at(ts, s.pos + 2) == SyntaxKind::DELETE_DATA || peek_at(ts, s.pos + 2) == SyntaxKind::DELETE_WHERE || peek_at(ts, s.pos + 2) == SyntaxKind::DROP || peek_at(ts, s.pos + 2) == SyntaxKind::INSERT || peek_at(ts, s.pos + 2) == SyntaxKind::INSERT_DATA || peek_at(ts, s.pos + 2) == SyntaxKind::LOAD || peek_at(ts, s.pos + 2) == SyntaxKind::MOVE || peek_at(ts, s.pos + 2) == SyntaxKind::WITH),
        (peek_at(ts, s.pos + 2) == SyntaxKind::Eof),
        !(peek_at(ts, s.pos + 2) == SyntaxKind::Eof),
    ensures
        rule_UpdateUnit(ts, s) == (St { evs: s.evs + seq![Ev::Open(SyntaxKind::UpdateUnit), Ev::Open(SyntaxKind::Update), Ev::Open(SyntaxKind::Prologue), Ev::Open(SyntaxKind::BaseDecl), Ev::Advance, Ev::Advance, Ev::Close, Ev::Close, Ev::Close, Ev::Open(SyntaxKind::Error), Ev::Close, Ev::Close], pos: s.pos + 2 }),
{
    reveal(rule_BaseDecl);
    reveal(rule_Prologue);
    reveal_with_fuel(rule_Update, 1);
    reveal_with_fuel(if_Update_1, 1);
    reveal_with_fuel(if_Update_3, 1);
    reveal_with_fuel(if_Update_2, 1);
    reveal_with_fuel(rule_UpdateUnit, 1);
    reveal_with_fuel(loop_UpdateUnit_2, 2);
    reveal_with_fuel(body_UpdateUnit_3, 1);
    reveal_with_fuel(if_UpdateUnit_1, 1);
    reveal(st_open);
    reveal(st_close);
    reveal(st_advance);
    reveal(st_expect);
    assert(rule_UpdateUnit(ts, s).evs =~= s.evs + seq![Ev::Open(SyntaxKind::UpdateUnit), Ev::Open(SyntaxKind::Update), Ev::Open(SyntaxKind::Prologue), Ev::Open(SyntaxKind::BaseDecl), Ev::Advance, Ev::Advance, Ev::Close, Ev::Close, Ev::Close, Ev::Open(SyntaxKind::Error), Ev::Close, Ev::Close]);
}

/// On the tokens `VERSION` `STRING_LITERAL1` a `UpdateUnit` node holds them, in this order, with the
/// nodes the grammar gives them and no error.
#[verifier::rlimit(100)]
#[verifier::spinoff_prover]
pub proof fn law_UpdateUnit_3(ts: Seq<SyntaxKind>, s: St)
    requires
        peek_at(ts, s.pos + 0) == SyntaxKind::VERSION,
        peek_at(ts, s.pos + 1) == SyntaxKind::STRING_LITERAL1,
        !(peek_at(ts, s.pos + 2) == SyntaxKind::BASE || peek_at(ts, s.pos + 2) == SyntaxKind::PREFIX || peek_at(ts, s.pos + 2) == SyntaxKind::VERSION),
        !(peek_at(ts, s.pos + 2) == SyntaxKind::ADD || peek_at(ts, s.pos + 2) == SyntaxKind::CLEAR || peek_at(ts, s.pos + 2) == SyntaxKind::COPY || peek_at(ts, s.pos + 2) == SyntaxKind::CREATE || peek_at(ts, s.pos + 2) == SyntaxKind::DELETE || peek_at(ts, s.pos + 2) == SyntaxKind::DELETE_DATA || peek_at(ts, s.pos + 2) == SyntaxKind::DELETE_WHERE || peek_at(ts, s.pos + 2) == SyntaxKind::DROP || peek_at(ts, s.pos + 2) == SyntaxKind::INSERT || peek_at(ts, s.pos + 2) == SyntaxKind::INSERT_DATA || peek_at(ts, s.pos + 2) == SyntaxKind::LOAD || peek_at(ts, s.pos + 2) == SyntaxKind::MOVE || peek_at(ts, s.pos + 2) == SyntaxKind::WITH),
        (peek_at(ts, s.pos + 2) == SyntaxKind::Eof),
        !(peek_at(ts, s.pos + 2) == SyntaxKind::Eof),
    ensures
        rule_UpdateUnit(ts, s) == (St { evs: s.evs + seq![Ev::Open(SyntaxKind::UpdateUnit), Ev::Open(SyntaxKind::Update), Ev::Open(SyntaxKind::Prologue), Ev::Open(SyntaxKind::VersionDecl), Ev::Advance, Ev::Open(SyntaxKind::VersionSpecifier), Ev::Advance, Ev::Close, Ev::Close, Ev::Close, Ev::Close, Ev::Open(SyntaxKind::Error), Ev::Close, Ev::Close], pos: s.pos + 2 }),
{
    reveal(rule_Prologue);
    reveal_with_fuel(rule_Update, 1);
    reveal_with_fuel(if_Update_1, 1);
    reveal_with_fuel(if_Update_3, 1);
    reveal_with_fuel(if_Update_2, 1);
    reveal_with_fuel(rule_UpdateUnit, 1);
    reveal_with_fuel(loop_UpdateUnit_2, 2);
    reveal_with_fuel(body_UpdateUnit_3, 1);
    reveal_with_fuel(if_UpdateUnit_1, 1);
    reveal(rule_VersionDecl);
    reveal(rule_VersionSpecifier);
    reveal(st_open);
    reveal(st_close);
    reveal(st_advance);
    reveal(st_expect);
    assert(rule_UpdateUnit(ts, s).evs =~= s.evs + seq![Ev::Open(SyntaxKind::UpdateUnit), Ev::Open(SyntaxKind::Update), Ev::Open(SyntaxKind::Prologue), Ev::Open(SyntaxKind::VersionDecl), Ev::Advance, Ev::Open(SyntaxKind::VersionSpecifier), Ev::Advance, Ev::Close, Ev::Close, Ev::Close, Ev::Close, Ev::Open(SyntaxKind::Error), Ev::Close, Ev::Close]);
}

/// On the tokens `SELECT` `Star` a `SelectClause` node holds them, in this order, with the
/// nodes the grammar gives them and no error.
#[verifier::rlimit(100)]
#[verifier::spinoff_prover]
pub proof fn law_SelectClause_1(ts: Seq<SyntaxKind>, s: St)
    requires
        peek_at(ts, s.pos + 0) == SyntaxKind::SELECT,
        peek_at(ts, s.pos + 1) == SyntaxKind::Star,
    ensures
        rule_SelectClause(ts, s) == (St { evs: s.evs + seq![Ev::Open(SyntaxKind::SelectClause), Ev::Advance, Ev::Advance, Ev::Close], pos: s.pos + 2 }),
{
    reveal_with_fuel(rule_SelectClause, 1);
    reveal_with_fuel(match_SelectClause_2, 1);
    reveal_with_fuel(if_SelectClause_1, 1);
    reveal_with_fuel(match_SelectClause_4, 1);
    reveal_with_fuel(match_SelectClause_7, 1);
    reveal_with_fuel(loop_SelectClause_5, 2);
    reveal_with_fuel(body_SelectClause_6, 1);
    reveal_with_fuel(match_SelectClause_3, 1);
    reveal(st_open);
    reveal(st_close);
    reveal(st_advance);
    reveal(st_expect);
    assert(rule_SelectClause(ts, s).evs =~= s.evs + seq![Ev::Open(SyntaxKind::SelectClause), Ev::Advance, Ev::Advance, Ev::Close]);
}

/// On the tokens `LIMIT` `INTEGER` a `SolutionModifier` node holds them, in this order, with the
/// nodes the grammar gives them and no error.
#[verifier::rlimit(100)]
#[verifier::spinoff_prover]
pub proof fn law_SolutionModifier_2(ts: Seq<SyntaxKind>, s: St)
    requires
        peek_at(ts, s.pos + 0) == SyntaxKind::LIMIT,
        peek_at(ts, s.pos + 1) == SyntaxKind::INTEGER,
        !(peek_at(ts, s.pos + 2) == SyntaxKind::OFFSET),
    ensures
        rule_SolutionModifier(ts, s) == (St { evs: s.evs + seq![Ev::Open(SyntaxKind::SolutionModifier), Ev::Open(SyntaxKind::LimitOffsetClauses), Ev::Open(SyntaxKind::LimitClause), Ev::Advance, Ev::Advance, Ev::Close, Ev::Close, Ev::Close], pos: s.pos + 2 }),
{
    reveal(rule_LimitClause);
    reveal(rule_LimitOffsetClauses);
    reveal_with_fuel(rule_SolutionModifier, 1);
    reveal_with_fuel(if_SolutionModifier_1, 1);
    reveal_with_fuel(if_SolutionModifier_2, 1);
    reveal_with_fuel(if_SolutionModifier_3, 1);
    reveal_with_fuel(if_SolutionModifier_4, 1);
    reveal_with_fuel(if_SolutionModifier_5, 1);
    reveal(st_open);
    reveal(st_close);
    reveal(st_advance);
    reveal(st_expect);
    assert(rule_SolutionModifier(ts, s).evs =~= s.evs + seq![Ev::Open(SyntaxKind::SolutionModifier), Ev::Open(SyntaxKind::LimitOffsetClauses), Ev::Open(SyntaxKind::LimitClause), Ev::Advance, Ev::Advance, Ev::Close, Ev::Close, Ev::Close]);
}

/// On the tokens `OFFSET` `INTEGER` a `SolutionModifier` node holds them, in this order, with the
/// nodes the grammar gives them and no error.
#[verifier::rlimit(100)]
#[verifier::spinoff_prover]
pub proof fn law_SolutionModifier_3(ts: Seq<SyntaxKind>, s: St)
    requires
        peek_at(ts, s.pos + 0) == SyntaxKind::OFFSET,
        peek_at(ts, s.pos + 1) == SyntaxKind::INTEGER,
        !(peek_at(ts, s.pos + 2) == SyntaxKind::LIMIT),
    ensures
        rule_SolutionModifier(ts, s) == (St { evs: s.evs + seq![Ev::Open(SyntaxKind::SolutionModifier), Ev::Open(SyntaxKind::LimitOffsetClauses), Ev::Open(SyntaxKind::OffsetClause), Ev::Advance, Ev::Advance, Ev::Close, Ev::Close, Ev::Close], pos: s.pos + 2 }),
{
    reveal(rule_LimitOffsetClauses);
    reveal(rule_OffsetClause);
    reveal_with_fuel(rule_SolutionModifier, 1);
    reveal_with_fuel(if_SolutionModifier_1, 1);
    reveal_with_fuel(if_SolutionModifier_2, 1);
    reveal_with_fuel(if_SolutionModifier_3, 1);
    reveal_with_fuel(if_SolutionModifier_4, 1);
    reveal_with_fuel(if_SolutionModifier_5, 1);
    reveal(st_open);
    reveal(st_close);
    reveal(st_advance);
    reveal(st_expect);
    assert(rule_SolutionModifier(ts, s).evs =~= s.evs + seq![Ev::Open(SyntaxKind::SolutionModifier), Ev::Open(SyntaxKind::LimitOffsetClauses), Ev::Open(SyntaxKind::OffsetClause), Ev::Advance, Ev::Advance, Ev::Close, Ev::Close, Ev::Close]);
}

/// On the tokens `LCurly` `RCurly` a `ConstructTemplate` node holds them, in this order, with the
/// nodes the grammar gives them and no error.
#[verifier::rlimit(100)]
#[verifier::spinoff_prover]
pub proof fn law_ConstructTemplate_1(ts: Seq<SyntaxKind>, s: St)
    requires
        peek_at(ts, s.pos + 0) == SyntaxKind::LCurly,
        peek_at(ts, s.pos + 1) == SyntaxKind::RCurly,
    ensures
        rule_ConstructTemplate(ts, s) == (St { evs: s.evs + seq![Ev::Open(SyntaxKind::ConstructTemplate), Ev::Advance, Ev::Advance, Ev::Close], pos: s.pos + 2 }),
{
    reveal_with_fuel(rule_ConstructTemplate, 1);
    reveal_with_fuel(if_ConstructTemplate_1, 1);
    reveal(st_open);
    reveal(st_close);
    reveal(st_advance);
    reveal(st_expect);
    assert(rule_ConstructTemplate(ts, s).evs =~= s.evs + seq![Ev::Open(SyntaxKind::ConstructTemplate), Ev::Advance, Ev::Advance, Ev::Close]);
}

/// On the tokens `GROUP` `BY` `VAR1` a `GroupClause` node holds them, in this order, with the
/// nodes the grammar gives them and no error.
#[verifier::rlimit(100)]
#[verifier::spinoff_prover]
pub proof fn law_GroupClause_1(ts: Seq<SyntaxKind>, s: St)
    requires
        peek_at(ts, s.pos + 0) == SyntaxKind::GROUP,
        peek_at(ts, s.pos + 1) == SyntaxKind::BY,
        peek_at(ts, s.pos + 2) == SyntaxKind::VAR1,
        !(peek_at(ts, s.pos + 3) == SyntaxKind::ABS || peek_at(ts, s.pos + 3) == SyntaxKind::AVG || peek_at(ts, s.pos + 3) == SyntaxKind::BNODE || peek_at(ts, s.pos + 3) == SyntaxKind::BOUND || peek_at(ts, s.pos + 3) == SyntaxKind::CEIL || peek_at(ts, s.pos + 3) == SyntaxKind::COALESCE || peek_at(ts, s.pos + 3) == SyntaxKind::CONCAT || peek_at(ts, s.pos + 3) == SyntaxKind::CONTAINS || peek_at(ts, s.pos + 3) == SyntaxKind::COUNT || peek_at(ts, s.pos + 3) == SyntaxKind::DATATYPE || peek_at(ts, s.pos + 3) == SyntaxKind::DAY || peek_at(ts, s.pos + 3) == SyntaxKind::ENCODE_FOR_URI || peek_at(ts, s.pos + 3) == SyntaxKind::EXISTS || peek_at(ts, s.pos + 3) == SyntaxKind::FLOOR || peek_at(ts, s.pos + 3) == SyntaxKind::GROUP_CONCAT || peek_at(ts, s.pos + 3) == SyntaxKind::HOURS || peek_at(ts, s.pos + 3) == SyntaxKind::IF || peek_at(ts, s.pos + 3) == SyntaxKind::IRI || peek_at(ts, s.pos + 3) == SyntaxKind::IRIREF || peek_at(ts, s.pos + 3) == SyntaxKind::LANG || peek_at(ts, s.pos + 3) == SyntaxKind::LANGDIR || peek_at(ts, s.pos + 3) == SyntaxKind::LANGMATCHES || peek_at(ts, s.pos + 3) == SyntaxKind::LCASE || peek_at(ts, s.pos + 3) == SyntaxKind::LParen || peek_at(ts, s.pos + 3) == SyntaxKind::MAX || peek_at(ts, s.pos + 3) == SyntaxKind::MD5 || peek_at(ts, s.pos + 3) == SyntaxKind::MIN || peek_at(ts, s.pos + 3) == SyntaxKind::MINUTES || peek_at(ts, s.pos + 3) == SyntaxKind::MONTH || peek_at(ts, s.pos + 3) == SyntaxKind::NOT || peek_at(ts, s.pos + 3) == SyntaxKind::NOW || peek_at(ts, s.pos + 3) == SyntaxKind::OBJECT || peek_at(ts, s.pos + 3) == SyntaxKind::PNAME_LN || peek_at(ts, s.pos + 3) == SyntaxKind::PNAME_NS || peek_at(ts, s.pos + 3) == SyntaxKind::PREDICATE || peek_at(ts, s.pos + 3) == SyntaxKind::RAND || peek_at(ts, s.pos + 3) == SyntaxKind::REGEX || peek_at(ts, s.pos + 3) == SyntaxKind::REPLACE || peek_at(ts, s.pos + 3) == SyntaxKind::ROUND || peek_at(ts, s.pos + 3) == SyntaxKind::SAMPLE || peek_at(ts, s.pos + 3) == SyntaxKind::SECONDS || peek_at(ts, s.pos + 3) == SyntaxKind::SHA1 || peek_at(ts, s.pos + 3) == SyntaxKind::SHA256 || peek_at(ts, s.pos + 3) == SyntaxKind::SHA384 || peek_at(ts, s.pos + 3) == SyntaxKind::SHA512 || peek_at(ts, s.pos + 3) == SyntaxKind::STR || peek_at(ts, s.pos + 3) == SyntaxKind::STRAFTER || peek_at(ts, s.pos + 3) == SyntaxKind::STRBEFORE || peek_at(ts, s.pos + 3) == SyntaxKind::STRDT || peek_at(ts, s.pos + 3) == SyntaxKind::STRENDS || peek_at(ts, s.pos + 3) == SyntaxKind::STRLANG || peek_at(ts, s.pos + 3) == SyntaxKind::STRLANGDIR || peek_at(ts, s.pos + 3) == SyntaxKind::STRLEN || peek_at(ts, s.pos + 3) == SyntaxKind::STRSTARTS || peek_at(ts, s.pos + 3) == SyntaxKind::STRUUID || peek_at(ts, s.pos + 3) == SyntaxKind::SUBJECT || peek_at(ts, s.pos + 3) == SyntaxKind::SUBSTR || peek_at(ts, s.pos + 3) == SyntaxKind::SUM || peek_at(ts, s.pos + 3) == SyntaxKind::TIMEZONE || peek_at(ts, s.pos + 3) == SyntaxKind::TRIPLE || peek_at(ts, s.pos + 3) == SyntaxKind::TZ || peek_at(ts, s.pos + 3) == SyntaxKind::UCASE || peek_at(ts, s.pos + 3) == SyntaxKind::URI || peek_at(ts, s.pos + 3) == SyntaxKind::UUID || peek_at(ts, s.pos + 3) == SyntaxKind::VAR1 || peek_at(ts, s.pos + 3) == SyntaxKind::VAR2 || peek_at(ts, s.pos + 3) == SyntaxKind::YEAR || peek_at(ts, s.pos + 3) == SyntaxKind::hasLANG || peek_at(ts, s.pos + 3) == SyntaxKind::hasLANGDIR || peek_at(ts, s.pos + 3) == SyntaxKind::isBLANK || peek_at(ts, s.pos + 3) == SyntaxKind::isIRI || peek_at(ts, s.pos + 3) == SyntaxKind::isLITERAL || peek_at(ts, s.pos + 3) == SyntaxKind::isNUMERIC || peek_at(ts, s.pos + 3) == SyntaxKind::isTRIPLE || peek_at(ts, s.pos + 3) == SyntaxKind::isURI || peek_at(ts, s.pos + 3) == SyntaxKind::sameTerm),
    ensures
        rule_GroupClause(ts, s) == (St { evs: s.evs + seq![Ev::Open(SyntaxKind::GroupClause), Ev::Advance, Ev::Advance, Ev::Open(SyntaxKind::GroupCondition), Ev::Open(SyntaxKind::Var), Ev::Advance, Ev::Close, Ev::Close, Ev::Close], pos: s.pos + 3 }),
{
    reveal_with_fuel(rule_GroupClause, 1);
    reveal_with_fuel(loop_GroupClause_1, 2);
    reveal_with_fuel(body_GroupClause_2, 1);
    reveal_with_fuel(rule_GroupCondition, 1);
    reveal_with_fuel(if_GroupCondition_2, 1);
    reveal_with_fuel(match_GroupCondition_1, 1);
    reveal(rule_Var);
    reveal(st_open);
    reveal(st_close);
    reveal(st_advance);
    reveal(st_expect);
    assert(rule_GroupClause(ts, s).evs =~= s.evs + seq![Ev::Open(SyntaxKind::GroupClause), Ev::Advance, Ev::Advance, Ev::Open(SyntaxKind::GroupCondition), Ev::Open(SyntaxKind::Var), Ev::Advance, Ev::Close, Ev::Close, Ev::Close]);
}

/// On the tokens `ORDER` `BY` `VAR1` a `OrderClause` node holds them, in this order, with the
/// nodes the grammar gives them and no error.
#[verifier::rlimit(100)]
#[verifier::spinoff_prover]
pub proof fn law_OrderClause_1(ts: Seq<SyntaxKind>, s: St)
    requires
        peek_at(ts, s.pos + 0) == SyntaxKind::ORDER,
        peek_at(ts, s.pos + 1) == SyntaxKind::BY,
        peek_at(ts, s.pos + 2) == SyntaxKind::VAR1,
        !(peek_at(ts, s.pos + 3) == SyntaxKind::ABS || peek_at(ts, s.pos + 3) == SyntaxKind::ASC || peek_at(ts, s.pos + 3) == SyntaxKind::AVG || peek_at(ts, s.pos + 3) == SyntaxKind::BNODE || peek_at(ts, s.pos + 3) == SyntaxKind::BOUND || peek_at(ts, s.pos + 3) == SyntaxKind::CEIL || peek_at(ts, s.pos + 3) == SyntaxKind::COALESCE || peek_at(ts, s.pos + 3) == SyntaxKind::CONCAT || peek_at(ts, s.pos + 3) == SyntaxKind::CONTAINS || peek_at(ts, s.pos + 3) == SyntaxKind::COUNT || peek_at(ts, s.pos + 3) == SyntaxKind::DATATYPE || peek_at(ts, s.pos + 3) == SyntaxKind::DAY || peek_at(ts, s.pos + 3) == SyntaxKind::DESC || peek_at(ts, s.pos + 3) == SyntaxKind::ENCODE_FOR_URI || peek_at(ts, s.pos + 3) == SyntaxKind::EXISTS || peek_at(ts, s.pos + 3) == SyntaxKind::FLOOR || peek_at(ts, s.pos + 3) == SyntaxKind::GROUP_CONCAT || peek_at(ts, s.pos + 3) == SyntaxKind::HOURS || peek_at(ts, s.pos + 3) == SyntaxKind::IF || peek_at(ts, s.pos + 3) == SyntaxKind::IRI || peek_at(ts, s.pos + 3) == SyntaxKind::IRIREF || peek_at(ts, s.pos + 3) == SyntaxKind::LANG || peek_at(ts, s.pos + 3) == SyntaxKind::LANGDIR || peek_at(ts, s.pos + 3) == SyntaxKind::LANGMATCHES || peek_at(ts, s.pos + 3) == SyntaxKind::LCASE || peek_at(ts, s.pos + 3) == SyntaxKind::LParen || peek_at(ts, s.pos + 3) == SyntaxKind::MAX || peek_at(ts, s.pos + 3) == SyntaxKind::MD5 || peek_at(ts, s.pos + 3) == SyntaxKind::MIN || peek_at(ts, s.pos + 3) == SyntaxKind::MINUTES || peek_at(ts, s.pos + 3) == SyntaxKind::MONTH || peek_at(ts, s.pos + 3) == SyntaxKind::NOT || peek_at(ts, s.pos + 3) == SyntaxKind::NOW || peek_at(ts, s.pos + 3) == SyntaxKind::OBJECT || peek_at(ts, s.pos + 3) == SyntaxKind::PNAME_LN || peek_at(ts, s.pos + 3) == SyntaxKind::PNAME_NS || peek_at(ts, s.pos + 3) == SyntaxKind::PREDICATE || peek_at(ts, s.pos + 3) == SyntaxKind::RAND || peek_at(ts, s.pos + 3) == SyntaxKind::REGEX || peek_at(ts, s.pos + 3) == SyntaxKind::REPLACE || peek_at(ts, s.pos + 3) == SyntaxKind::ROUND || peek_at(ts, s.pos + 3) == SyntaxKind::SAMPLE || peek_at(ts, s.pos + 3) == SyntaxKind::SECONDS || peek_at(ts, s.pos + 3) == SyntaxKind::SHA1 || peek_at(ts, s.pos + 3) == SyntaxKind::SHA256 || peek_at(ts, s.pos + 3) == SyntaxKind::SHA384 || peek_at(ts, s.pos + 3) == SyntaxKind::SHA512 || peek_at(ts, s.pos + 3) == SyntaxKind::STR || peek_at(ts, s.pos + 3) == SyntaxKind::STRAFTER || peek_at(ts, s.pos + 3) == SyntaxKind::STRBEFORE || peek_at(ts, s.pos + 3) == SyntaxKind::STRDT || peek_at(ts, s.pos + 3) == SyntaxKind::STRENDS || peek_at(ts, s.pos + 3) == SyntaxKind::STRLANG || peek_at(ts, s.pos + 3) == SyntaxKind::STRLANGDIR || peek_at(ts, s.pos + 3) == SyntaxKind::STRLEN || peek_at(ts, s.pos + 3) == SyntaxKind::STRSTARTS || peek_at(ts, s.pos + 3) == SyntaxKind::STRUUID || peek_at(ts, s.pos + 3) == SyntaxKind::SUBJECT || peek_at(ts, s.pos + 3) == SyntaxKind::SUBSTR || peek_at(ts, s.pos + 3) == SyntaxKind::SUM || peek_at(ts, s.pos + 3) == SyntaxKind::TIMEZONE || peek_at(ts, s.pos + 3) == SyntaxKind::TRIPLE || peek_at(ts, s.pos + 3) == SyntaxKind::TZ || peek_at(ts, s.pos + 3) == SyntaxKind::UCASE || peek_at(ts, s.pos + 3) == SyntaxKind::URI || peek_at(ts, s.pos + 3) == SyntaxKind::UUID || peek_at(ts, s.pos + 3) == SyntaxKind::VAR1 || peek_at(ts, s.pos + 3) == SyntaxKind::VAR2 || peek_at(ts, s.pos + 3) == SyntaxKind::YEAR || peek_at(ts, s.pos + 3) == SyntaxKind::hasLANG || peek_at(ts, s.pos + 3) == SyntaxKind::hasLANGDIR || peek_at(ts, s.pos + 3) == SyntaxKind::isBLANK || peek_at(ts, s.pos + 3) == SyntaxKind::isIRI || peek_at(ts, s.pos + 3) == SyntaxKind::isLITERAL || peek_at(ts, s.pos + 3) == SyntaxKind::isNUMERIC || peek_at(ts, s.pos + 3) == SyntaxKind::isTRIPLE || peek_at(ts, s.pos + 3) == SyntaxKind::isURI || peek_at(ts, s.pos + 3) == SyntaxKind::sameTerm),
    ensures
        rule_OrderClause(ts, s) == (St { evs: s.evs + seq![Ev::Open(SyntaxKind::OrderClause), Ev::Advance, Ev::Advance, Ev::Open(SyntaxKind::OrderCondition), Ev::Open(SyntaxKind::Var), Ev::Advance, Ev::Close, Ev::Close, Ev::Close], pos: s.pos + 3 }),
{
    reveal_with_fuel(rule_OrderClause, 1);
    reveal_with_fuel(loop_OrderClause_1, 2);
    reveal_with_fuel(body_OrderClause_2, 1);
    reveal_with_fuel(rule_OrderCondition, 1);
    reveal_with_fuel(match_OrderCondition_2, 1);
    reveal_with_fuel(match_OrderCondition_3, 1);
    reveal_with_fuel(match_OrderCondition_1, 1);
    reveal(rule_Var);
    reveal(st_open);
    reveal(st_close);
    reveal(st_advance);
    reveal(st_expect);
    assert(rule_OrderClause(ts, s).evs =~= s.evs + seq![Ev::Open(SyntaxKind::OrderClause), Ev::Advance, Ev::Advance, Ev::Open(SyntaxKind::OrderCondition), Ev::Open(SyntaxKind::Var), Ev::Advance, Ev::Close, Ev::Close, Ev::Close]);
}

/// On the tokens `VAR1` a `GroupCondition` node holds them, in this order, with the
/// nodes the grammar gives them and no error.
#[verifier::rlimit(100)]
#[verifier::spinoff_prover]
pub proof fn law_GroupCondition_1(ts: Seq<SyntaxKind>, s: St)
    requires
        peek_at(ts, s.pos + 0) == SyntaxKind::VAR1,
    ensures
        rule_GroupCondition(ts, s) == (St { evs: s.evs + seq![Ev::Open(SyntaxKind::GroupCondition), Ev::Open(SyntaxKind::Var), Ev::Advance, Ev::Close, Ev::Close], pos: s.pos + 1 }),
{
    reveal_with_fuel(rule_GroupCondition, 1);
    reveal_with_fuel(if_GroupCondition_2, 1);
    reveal_with_fuel(match_GroupCondition_1, 1);
    reveal(rule_Var);
    reveal(st_open);
    reveal(st_close);
    reveal(st_advance);
    reveal(st_expect);
    assert(rule_GroupCondition(ts, s).evs =~= s.evs + seq![Ev::Open(SyntaxKind::GroupCondition), Ev::Open(SyntaxKind::Var), Ev::Advance, Ev::Close, Ev::Close]);
}

/// On the tokens `VAR2` a `GroupCondition` node holds them, in this order, with the
/// nodes the grammar gives them and no error.
#[verifier::rlimit(100)]
#[verifier::spinoff_prover]
pub proof fn law_GroupCondition_2(ts: Seq<SyntaxKind>, s: St)
    requires
        peek_at(ts, s.pos + 0) == SyntaxKind::VAR2,
    ensures
        rule_GroupCondition(ts, s) == (St { evs: s.evs + seq![Ev::Open(SyntaxKind::GroupCondition), Ev::Open(SyntaxKind::Var), Ev::Advance, Ev::Close, Ev::Close], pos: s.pos + 1 }),
{
    reveal_with_fuel(rule_GroupCondition, 1);
    reveal_with_fuel(if_GroupCondition_2, 1);
    reveal_with_fuel(match_GroupCondition_1, 1);
    reveal(rule_Var);
    reveal(st_open);
    reveal(st_close);
    reveal(st_advance);
    reveal(st_expect);
    assert(rule_GroupCondition(ts, s).evs =~= s.evs + seq![Ev::Open(SyntaxKind::GroupCondition), Ev::Open(SyntaxKind::Var), Ev::Advance, Ev::Close, Ev::Close]);
}

/// On the tokens `BNODE` `NIL` a `GroupCondition` node holds them, in this order, with the
/// nodes the grammar gives them and no error.
#[verifier::rlimit(100)]
#[verifier::spinoff_prover]
pub proof fn law_GroupCondition_3(ts: Seq<SyntaxKind>, s: St)
    requires
        peek_at(ts, s.pos + 0) == SyntaxKind::BNODE,
        peek_at(ts, s.pos + 1) == SyntaxKind::NIL,
    ensures
        rule_GroupCondition(ts, s) == (St { evs: s.evs + seq![Ev::Open(SyntaxKind::GroupCondition), Ev::Open(SyntaxKind::BuiltInCall), Ev::Advance, Ev::Advance, Ev::Close, Ev::Close], pos: s.pos + 2 }),
{
    reveal_with_fuel(rule_BuiltInCall, 1);
    reveal_with_fuel(arm_BuiltInCall_2, 1);
    reveal_with_fuel(arm_BuiltInCall_3, 1);
    reveal_with_fuel(arm_BuiltInCall_4, 1);
    reveal_with_fuel(arm_BuiltInCall_5, 1);
    reveal_with_fuel(arm_BuiltInCall_6, 1);
    reveal_with_fuel(arm_BuiltInCall_7, 1);
    reveal_with_fuel(arm_BuiltInCall_8, 1);
    reveal_with_fuel(arm_BuiltInCall_9, 1);
    reveal_with_fuel(arm_BuiltInCall_10, 1);
    reveal_with_fuel(match_BuiltInCall_12, 1);
    reveal_with_fuel(arm_BuiltInCall_11, 1);
    reveal_with_fuel(arm_BuiltInCall_13, 1);
    reveal_with_fuel(arm_BuiltInCall_14, 1);
    reveal_with_fuel(arm_BuiltInCall_15, 1);
    reveal_with_fuel(arm_BuiltInCall_16, 1);
    reveal_with_fuel(arm_BuiltInCall_17, 1);
    reveal_with_fuel(arm_BuiltInCall_18, 1);
    reveal_with_fuel(arm_BuiltInCall_19, 1);
    reveal_with_fuel(arm_BuiltInCall_20, 1);
    reveal_with_fuel(arm_BuiltInCall_21, 1);
    reveal_with_fuel(arm_BuiltInCall_22, 1);
    reveal_with_fuel(arm_BuiltInCall_23, 1);
    reveal_with_fuel(arm_BuiltInCall_24, 1);
    reveal_with_fuel(arm_BuiltInCall_25, 1);
    reveal_with_fuel(arm_BuiltInCall_26, 1);
    reveal_with_fuel(arm_BuiltInCall_27, 1);
    reveal_with_fuel(arm_BuiltInCall_28, 1);
    reveal_with_fuel(arm_BuiltInCall_29, 1);
    reveal_with_fuel(arm_BuiltInCall_30, 1);
    reveal_with_fuel(arm_BuiltInCall_31, 1);
    reveal_with_fuel(arm_BuiltInCall_32, 1);
    reveal_with_fuel(arm_BuiltInCall_33, 1);
    reveal_with_fuel(arm_BuiltInCall_34, 1);
    reveal_with_fuel(arm_BuiltInCall_35, 1);
    reveal_with_fuel(arm_BuiltInCall_36, 1);
    reveal_with_fuel(arm_BuiltInCall_37, 1);
    reveal_with_fuel(arm_BuiltInCall_38, 1);
    reveal_with_fuel(arm_BuiltInCall_39, 1);
    reveal_with_fuel(arm_BuiltInCall_40, 1);
    reveal_with_fuel(arm_BuiltInCall_41, 1);
    reveal_with_fuel(arm_BuiltInCall_42, 1);
    reveal_with_fuel(arm_BuiltInCall_43, 1);
    reveal_with_fuel(arm_BuiltInCall_44, 1);
    reveal_with_fuel(arm_BuiltInCall_45, 1);
    reveal_with_fuel(arm_BuiltInCall_46, 1);
    reveal_with_fuel(arm_BuiltInCall_47, 1);
    reveal_with_fuel(arm_BuiltInCall_48, 1);
    reveal_with_fuel(arm_BuiltInCall_49, 1);
    reveal_with_fuel(arm_BuiltInCall_50, 1);
    reveal_with_fuel(arm_BuiltInCall_51, 1);
    reveal_with_fuel(arm_BuiltInCall_52, 1);
    reveal_with_fuel(arm_BuiltInCall_53, 1);
    reveal_with_fuel(arm_BuiltInCall_54, 1);
    reveal_with_fuel(arm_BuiltInCall_55, 1);
    reveal_with_fuel(arm_BuiltInCall_56, 1);
    reveal_with_fuel(arm_BuiltInCall_57, 1);
    reveal_with_fuel(arm_BuiltInCall_58, 1);
    reveal_with_fuel(arm_BuiltInCall_59, 1);
    reveal_with_fuel(arm_BuiltInCall_60, 1);
    reveal_with_fuel(arm_BuiltInCall_61, 1);
    reveal_with_fuel(arm_BuiltInCall_62, 1);
    reveal_with_fuel(arm_BuiltInCall_63, 1);
    reveal_with_fuel(arm_BuiltInCall_64, 1);
    reveal_with_fuel(arm_BuiltInCall_65, 1);
    reveal_with_fuel(arm_BuiltInCall_66, 1);
    reveal_with_fuel(arm_BuiltInCall_67, 1);
    reveal_with_fuel(arm_BuiltInCall_68, 1);
    reveal_with_fuel(match_BuiltInCall_1, 1);
    reveal_with_fuel(rule_GroupCondition, 1);
    reveal_with_fuel(if_GroupCondition_2, 1);
    reveal_with_fuel(match_GroupCondition_1, 1);
    reveal(st_open);
    reveal(st_close);
    reveal(st_advance);
    reveal(st_expect);
    assert(rule_GroupCondition(ts, s).evs =~= s.evs + seq![Ev::Open(SyntaxKind::GroupCondition), Ev::Open(SyntaxKind::BuiltInCall), Ev::Advance, Ev::Advance, Ev::Close, Ev::Close]);
}

/// On the tokens `BNODE` `NIL` a `BuiltInCall` node holds them, in this order, with the
/// nodes the grammar gives them and no error.
#[verifier::rlimit(100)]
#[verifier::spinoff_prover]
pub proof fn law_BuiltInCall_1(ts: Seq<SyntaxKind>, s: St)
    requires
        peek_at(ts, s.pos + 0) == SyntaxKind::BNODE,
        peek_at(ts, s.pos + 1) == SyntaxKind::NIL,
    ensures
        rule_BuiltInCall(ts, s) == (St { evs: s.evs + seq![Ev::Open(SyntaxKind::BuiltInCall), Ev::Advance, Ev::Advance, Ev::Close], pos: s.pos + 2 }),
{
    reveal_with_fuel(rule_BuiltInCall, 1);
    reveal_with_fuel(arm_BuiltInCall_2, 1);
    reveal_with_fuel(arm_BuiltInCall_3, 1);
    reveal_with_fuel(arm_BuiltInCall_4, 1);
    reveal_with_fuel(arm_BuiltInCall_5, 1);
    reveal_with_fuel(arm_BuiltInCall_6, 1);
    reveal_with_fuel(arm_BuiltInCall_7, 1);
    reveal_with_fuel(arm_BuiltInCall_8, 1);
    reveal_with_fuel(arm_BuiltInCall_9, 1);
    reveal_with_fuel(arm_BuiltInCall_10, 1);
    reveal_with_fuel(match_BuiltInCall_12, 1);
    reveal_with_fuel(arm_BuiltInCall_11, 1);
    reveal_with_fuel(arm_BuiltInCall_13, 1);
    reveal_with_fuel(arm_BuiltInCall_14, 1);
    reveal_with_fuel(arm_BuiltInCall_15, 1);
    reveal_with_fuel(arm_BuiltInCall_16, 1);
    reveal_with_fuel(arm_BuiltInCall_17, 1);
    reveal_with_fuel(arm_BuiltInCall_18, 1);
    reveal_with_fuel(arm_BuiltInCall_19, 1);
    reveal_with_fuel(arm_BuiltInCall_20, 1);
    reveal_with_fuel(arm_BuiltInCall_21, 1);
    reveal_with_fuel(arm_BuiltInCall_22, 1);
    reveal_with_fuel(arm_BuiltInCall_23, 1);
    reveal_with_fuel(arm_BuiltInCall_24, 1);
    reveal_with_fuel(arm_BuiltInCall_25, 1);
    reveal_with_fuel(arm_BuiltInCall_26, 1);
    reveal_with_fuel(arm_BuiltInCall_27, 1);
    reveal_with_fuel(arm_BuiltInCall_28, 1);
    reveal_with_fuel(arm_BuiltInCall_29, 1);
    reveal_with_fuel(arm_BuiltInCall_30, 1);
    reveal_with_fuel(arm_BuiltInCall_31, 1);
    reveal_with_fuel(arm_BuiltInCall_32, 1);
    reveal_with_fuel(arm_BuiltInCall_33, 1);
    reveal_with_fuel(arm_BuiltInCall_34, 1);
    reveal_with_fuel(arm_BuiltInCall_35, 1);
    reveal_with_fuel(arm_BuiltInCall_36, 1);
    reveal_with_fuel(arm_BuiltInCall_37, 1);
    reveal_with_fuel(arm_BuiltInCall_38, 1);
    reveal_with_fuel(arm_BuiltInCall_39, 1);
    reveal_with_fuel(arm_BuiltInCall_40, 1);
    reveal_with_fuel(arm_BuiltInCall_41, 1);
    reveal_with_fuel(arm_BuiltInCall_42, 1);
    reveal_with_fuel(arm_BuiltInCall_43, 1);
    reveal_with_fuel(arm_BuiltInCall_44, 1);
    reveal_with_fuel(arm_BuiltInCall_45, 1);
    reveal_with_fuel(arm_BuiltInCall_46, 1);
    reveal_with_fuel(arm_BuiltInCall_47, 1);
    reveal_with_fuel(arm_BuiltInCall_48, 1);
    reveal_with_fuel(arm_BuiltInCall_49, 1);
    reveal_with_fuel(arm_BuiltInCall_50, 1);
    reveal_with_fuel(arm_BuiltInCall_51, 1);
    reveal_with_fuel(arm_BuiltInCall_52, 1);
    reveal_with_fuel(arm_BuiltInCall_53, 1);
    reveal_with_fuel(arm_BuiltInCall_54, 1);
    reveal_with_fuel(arm_BuiltInCall_55, 1);
    reveal_with_fuel(arm_BuiltInCall_56, 1);
    reveal_with_fuel(arm_BuiltInCall_57, 1);
    reveal_with_fuel(arm_BuiltInCall_58, 1);
    reveal_with_fuel(arm_BuiltInCall_59, 1);
    reveal_with_fuel(arm_BuiltInCall_60, 1);
    reveal_with_fuel(arm_BuiltInCall_61, 1);
    reveal_with_fuel(arm_BuiltInCall_62, 1);
    reveal_with_fuel(arm_BuiltInCall_63, 1);
    reveal_with_fuel(arm_BuiltInCall_64, 1);
    reveal_with_fuel(arm_BuiltInCall_65, 1);
    reveal_with_fuel(arm_BuiltInCall_66, 1);
    reveal_with_fuel(arm_BuiltInCall_67, 1);
    reveal_with_fuel(arm_BuiltInCall_68, 1);
    reveal_with_fuel(match_BuiltInCall_1, 1);
    reveal(st_open);
    reveal(st_close);
    reveal(st_advance);
    reveal(st_expect);
    assert(rule_BuiltInCall(ts, s).evs =~= s.evs + seq![Ev::Open(SyntaxKind::BuiltInCall), Ev::Advance, Ev::Advance, Ev::Close]);
}

/// On the tokens `COALESCE` `NIL` a `BuiltInCall` node holds them, in this order, with the
/// nodes the grammar gives them and no error.
#[verifier::rlimit(100)]
#[verifier::spinoff_prover]
pub proof fn law_BuiltInCall_2(ts: Seq<SyntaxKind>, s: St)
    requires
        peek_at(ts, s.pos + 0) == SyntaxKind::COALESCE,
        peek_at(ts, s.pos + 1) == SyntaxKind::NIL,
    ensures
        rule_BuiltInCall(ts, s) == (St { evs: s.evs + seq![Ev::Open(SyntaxKind::BuiltInCall), Ev::Advance, Ev::Open(SyntaxKind::ExpressionList), Ev::Advance, Ev::Close, Ev::Close], pos: s.pos + 2 }),
{
    reveal_with_fuel(rule_BuiltInCall, 1);
    reveal_with_fuel(arm_BuiltInCall_2, 1);
    reveal_with_fuel(arm_BuiltInCall_3, 1);
    reveal_with_fuel(arm_BuiltInCall_4, 1);
    reveal_with_fuel(arm_BuiltInCall_5, 1);
    reveal_with_fuel(arm_BuiltInCall_6, 1);
    reveal_with_fuel(arm_BuiltInCall_7, 1);
    reveal_with_fuel(arm_BuiltInCall_8, 1);
    reveal_with_fuel(arm_BuiltInCall_9, 1);
    reveal_with_fuel(arm_BuiltInCall_10, 1);
    reveal_with_fuel(match_BuiltInCall_12, 1);
    reveal_with_fuel(arm_BuiltInCall_11, 1);
    reveal_with_fuel(arm_BuiltInCall_13, 1);
    reveal_with_fuel(arm_BuiltInCall_14, 1);
    reveal_with_fuel(arm_BuiltInCall_15, 1);
    reveal_with_fuel(arm_BuiltInCall_16, 1);
    reveal_with_fuel(arm_BuiltInCall_17, 1);
    reveal_with_fuel(arm_BuiltInCall_18, 1);
    reveal_with_fuel(arm_BuiltInCall_19, 1);
    reveal_with_fuel(arm_BuiltInCall_20, 1);
    reveal_with_fuel(arm_BuiltInCall_21, 1);
    reveal_with_fuel(arm_BuiltInCall_22, 1);
    reveal_with_fuel(arm_BuiltInCall_23, 1);
    reveal_with_fuel(arm_BuiltInCall_24, 1);
    reveal_with_fuel(arm_BuiltInCall_25, 1);
    reveal_with_fuel(arm_BuiltInCall_26, 1);
    reveal_with_fuel(arm_BuiltInCall_27, 1);
    reveal_with_fuel(arm_BuiltInCall_28, 1);
    reveal_with_fuel(arm_BuiltInCall_29, 1);
    reveal_with_fuel(arm_BuiltInCall_30, 1);
    reveal_with_fuel(arm_BuiltInCall_31, 1);
    reveal_with_fuel(arm_BuiltInCall_32, 1);
    reveal_with_fuel(arm_BuiltInCall_33, 1);
    reveal_with_fuel(arm_BuiltInCall_34, 1);
    reveal_with_fuel(arm_BuiltInCall_35, 1);
    reveal_with_fuel(arm_BuiltInCall_36, 1);
    reveal_with_fuel(arm_BuiltInCall_37, 1);
    reveal_with_fuel(arm_BuiltInCall_38, 1);
    reveal_with_fuel(arm_BuiltInCall_39, 1);
    reveal_with_fuel(arm_BuiltInCall_40, 1);
    reveal_with_fuel(arm_BuiltInCall_41, 1);
    reveal_with_fuel(arm_BuiltInCall_42, 1);
    reveal_with_fuel(arm_BuiltInCall_43, 1);
    reveal_with_fuel(arm_BuiltInCall_44, 1);
    reveal_with_fuel(arm_BuiltInCall_45, 1);
    reveal_with_fuel(arm_BuiltInCall_46, 1);
    reveal_with_fuel(arm_BuiltInCall_47, 1);
    reveal_with_fuel(arm_BuiltInCall_48, 1);
    reveal_with_fuel(arm_BuiltInCall_49, 1);
    reveal_with_fuel(arm_BuiltInCall_50, 1);
    reveal_with_fuel(arm_BuiltInCall_51, 1);
    reveal_with_fuel(arm_BuiltInCall_52, 1);
    reveal_with_fuel(arm_BuiltInCall_53, 1);
    reveal_with_fuel(arm_BuiltInCall_54, 1);
    reveal_with_fuel(arm_BuiltInCall_55, 1);
    reveal_with_fuel(arm_BuiltInCall_56, 1);
    reveal_with_fuel(arm_BuiltInCall_57, 1);
    reveal_with_fuel(arm_BuiltInCall_58, 1);
    reveal_with_fuel(arm_BuiltInCall_59, 1);
    reveal_with_fuel(arm_BuiltInCall_60, 1);
    reveal_with_fuel(arm_BuiltInCall_61, 1);
    reveal_with_fuel(arm_BuiltInCall_62, 1);
    reveal_with_fuel(arm_BuiltInCall_63, 1);
    reveal_with_fuel(arm_BuiltInCall_64, 1);
    reveal_with_fuel(arm_BuiltInCall_65, 1);
    reveal_with_fuel(arm_BuiltInCall_66, 1);
    reveal_with_fuel(arm_BuiltInCall_67, 1);
    reveal_with_fuel(arm_BuiltInCall_68, 1);
    reveal_with_fuel(match_BuiltInCall_1, 1);
    reveal_with_fuel(rule_ExpressionList, 1);
    reveal_with_fuel(loop_ExpressionList_2, 2);
    reveal_with_fuel(body_ExpressionList_3, 1);
    reveal_with_fuel(match_ExpressionList_1, 1);
    reveal(st_open);
    reveal(st_close);
    reveal(st_advance);
    reveal(st_expect);
    assert(rule_BuiltInCall(ts, s).evs =~= s.evs + seq![Ev::Open(SyntaxKind::BuiltInCall), Ev::Advance, Ev::Open(SyntaxKind::ExpressionList), Ev::Advance, Ev::Close, Ev::Close]);
}

/// On the tokens `CONCAT` `NIL` a `BuiltInCall` node holds them, in this order, with the
/// nodes the grammar gives them and no error.
#[verifier::rlimit(100)]
#[verifier::spinoff_prover]
pub proof fn law_BuiltInCall_3(ts: Seq<SyntaxKind>, s: St)
    requires
        peek_at(ts, s.pos + 0) == SyntaxKind::CONCAT,
        peek_at(ts, s.pos + 1) == SyntaxKind::NIL,
    ensures
        rule_BuiltInCall(ts, s) == (St { evs: s.evs + seq![Ev::Open(SyntaxKind::BuiltInCall), Ev::Advance, Ev::Open(SyntaxKind::ExpressionList), Ev::Advance, Ev::Close, Ev::Close], pos: s.pos + 2 }),
{
    reveal_with_fuel(rule_BuiltInCall, 1);
    reveal_with_fuel(arm_BuiltInCall_2, 1);
    reveal_with_fuel(arm_BuiltInCall_3, 1);
    reveal_with_fuel(arm_BuiltInCall_4, 1);
    reveal_with_fuel(arm_BuiltInCall_5, 1);
    reveal_with_fuel(arm_BuiltInCall_6, 1);
    reveal_with_fuel(arm_BuiltInCall_7, 1);
    reveal_with_fuel(arm_BuiltInCall_8, 1);
    reveal_with_fuel(arm_BuiltInCall_9, 1);
    reveal_with_fuel(arm_BuiltInCall_10, 1);
    reveal_with_fuel(match_BuiltInCall_12, 1);
    reveal_with_fuel(arm_BuiltInCall_11, 1);
    reveal_with_fuel(arm_BuiltInCall_13, 1);
    reveal_with_fuel(arm_BuiltInCall_14, 1);
    reveal_with_fuel(arm_BuiltInCall_15, 1);
    reveal_with_fuel(arm_BuiltInCall_16, 1);
    reveal_with_fuel(arm_BuiltInCall_17, 1);
    reveal_with_fuel(arm_BuiltInCall_18, 1);
    reveal_with_fuel(arm_BuiltInCall_19, 1);
    reveal_with_fuel(arm_BuiltInCall_20, 1);
    reveal_with_fuel(arm_BuiltInCall_21, 1);
    reveal_with_fuel(arm_BuiltInCall_22, 1);
    reveal_with_fuel(arm_BuiltInCall_23, 1);
    reveal_with_fuel(arm_BuiltInCall_24, 1);
    reveal_with_fuel(arm_BuiltInCall_25, 1);
    reveal_with_fuel(arm_BuiltInCall_26, 1);
    reveal_with_fuel(arm_BuiltInCall_27, 1);
    reveal_with_fuel(arm_BuiltInCall_28, 1);
    reveal_with_fuel(arm_BuiltInCall_29, 1);
    reveal_with_fuel(arm_BuiltInCall_30, 1);
    reveal_with_fuel(arm_BuiltInCall_31, 1);
    reveal_with_fuel(arm_BuiltInCall_32, 1);
    reveal_with_fuel(arm_BuiltInCall_33, 1);
    reveal_with_fuel(arm_BuiltInCall_34, 1);
    reveal_with_fuel(arm_BuiltInCall_35, 1);
    reveal_with_fuel(arm_BuiltInCall_36, 1);
    reveal_with_fuel(arm_BuiltInCall_37, 1);
    reveal_with_fuel(arm_BuiltInCall_38, 1);
    reveal_with_fuel(arm_BuiltInCall_39, 1);
    reveal_with_fuel(arm_BuiltInCall_40, 1);
    reveal_with_fuel(arm_BuiltInCall_41, 1);
    reveal_with_fuel(arm_BuiltInCall_42, 1);
    reveal_with_fuel(arm_BuiltInCall_43, 1);
    reveal_with_fuel(arm_BuiltInCall_44, 1);
    reveal_with_fuel(arm_BuiltInCall_45, 1);
    reveal_with_fuel(arm_BuiltInCall_46, 1);
    reveal_with_fuel(arm_BuiltInCall_47, 1);
    reveal_with_fuel(arm_BuiltInCall_48, 1);
    reveal_with_fuel(arm_BuiltInCall_49, 1);
    reveal_with_fuel(arm_BuiltInCall_50, 1);
    reveal_with_fuel(arm_BuiltInCall_51, 1);
    reveal_with_fuel(arm_BuiltInCall_52, 1);
    reveal_with_fuel(arm_BuiltInCall_53, 1);
    reveal_with_fuel(arm_BuiltInCall_54, 1);
    reveal_with_fuel(arm_BuiltInCall_55, 1);
    reveal_with_fuel(arm_BuiltInCall_56, 1);
    reveal_with_fuel(arm_BuiltInCall_57, 1);
    reveal_with_fuel(arm_BuiltInCall_58, 1);
    reveal_with_fuel(arm_BuiltInCall_59, 1);
    reveal_with_fuel(arm_BuiltInCall_60, 1);
    reveal_with_fuel(arm_BuiltInCall_61, 1);
    reveal_with_fuel(arm_BuiltInCall_62, 1);
    reveal_with_fuel(arm_BuiltInCall_63, 1);
    reveal_with_fuel(arm_BuiltInCall_64, 1);
    reveal_with_fuel(arm_BuiltInCall_65, 1);
    reveal_with_fuel(arm_BuiltInCall_66, 1);
    reveal_with_fuel(arm_BuiltInCall_67, 1);
    reveal_with_fuel(arm_BuiltInCall_68, 1);
    reveal_with_fuel(match_BuiltInCall_1, 1);
    reveal_with_fuel(rule_ExpressionList, 1);
    reveal_with_fuel(loop_ExpressionList_2, 2);
    reveal_with_fuel(body_ExpressionList_3, 1);
    reveal_with_fuel(match_ExpressionList_1, 1);
    reveal(st_open);
    reveal(st_close);
    reveal(st_advance);
    reveal(st_expect);
    assert(rule_BuiltInCall(ts, s).evs =~= s.evs + seq![Ev::Open(SyntaxKind::BuiltInCall), Ev::Advance, Ev::Open(SyntaxKind::ExpressionList), Ev::Advance, Ev::Close, Ev::Close]);
}

/// On the tokens `IRIREF` `NIL` a `FunctionCall` node holds them, in this order, with the
/// nodes the grammar gives them and no error.
#[verifier::rlimit(100)]
#[verifier::spinoff_prover]
pub proof fn law_FunctionCall_1(ts: Seq<SyntaxKind>, s: St)
    requires
        peek_at(ts, s.pos + 0) == SyntaxKind::IRIREF,
        peek_at(ts, s.pos + 1) == SyntaxKind::NIL,
    ensures
        rule_FunctionCall(ts, s) == (St { evs: s.evs + seq![Ev::Open(SyntaxKind::FunctionCall), Ev::Open(SyntaxKind::iri), Ev::Advance, Ev::Close, Ev::Open(SyntaxKind::ArgList), Ev::Advance, Ev::Close, Ev::Close], pos: s.pos + 2 }),
{
    reveal_with_fuel(rule_ArgList, 1);
    reveal_with_fuel(if_ArgList_2, 1);
    reveal_with_fuel(loop_ArgList_3, 2);
    reveal_with_fuel(body_ArgList_4, 1);
    reveal_with_fuel(match_ArgList_1, 1);
    reveal_with_fuel(rule_FunctionCall, 1);
    reveal(rule_iri);
    reveal(st_open);
    reveal(st_close);
    reveal(st_advance);
    reveal(st_expect);
    assert(rule_FunctionCall(ts, s).evs =~= s.evs + seq![Ev::Open(SyntaxKind::FunctionCall), Ev::Open(SyntaxKind::iri), Ev::Advance, Ev::Close, Ev::Open(SyntaxKind::ArgList), Ev::Advance, Ev::Close, Ev::Close]);
}

/// On the tokens `PNAME_LN` `NIL` a `FunctionCall` node holds them, in this order, with the
/// nodes the grammar gives them and no error.
#[verifier::rlimit(100)]
#[verifier::spinoff_prover]
pub proof fn law_FunctionCall_2(ts: Seq<SyntaxKind>, s: St)
    requires
        peek_at(ts, s.pos + 0) == SyntaxKind::PNAME_LN,
        peek_at(ts, s.pos + 1) == SyntaxKind::NIL,
    ensures
        rule_FunctionCall(ts, s) == (St { evs: s.evs + seq![Ev::Open(SyntaxKind::FunctionCall), Ev::Open(SyntaxKind::iri), Ev::Open(SyntaxKind::PrefixedName), Ev::Advance, Ev::Close, Ev::Close, Ev::Open(SyntaxKind::ArgList), Ev::Advance, Ev::Close, Ev::Close], pos: s.pos + 2 }),
{
    reveal_with_fuel(rule_ArgList, 1);
    reveal_with_fuel(if_ArgList_2, 1);
    reveal_with_fuel(loop_ArgList_3, 2);
    reveal_with_fuel(body_ArgList_4, 1);
    reveal_with_fuel(match_ArgList_1, 1);
    reveal_with_fuel(rule_FunctionCall, 1);
    reveal(rule_PrefixedName);
    reveal(rule_iri);
    reveal(st_open);
    reveal(st_close);
    reveal(st_advance);
    reveal(st_expect);
    assert(rule_FunctionCall(ts, s).evs =~= s.evs + seq![Ev::Open(SyntaxKind::FunctionCall), Ev::Open(SyntaxKind::iri), Ev::Open(SyntaxKind::PrefixedName), Ev::Advance, Ev::Close, Ev::Close, Ev::Open(SyntaxKind::ArgList), Ev::Advance, Ev::Close, Ev::Close]);
}

/// On the tokens `PNAME_NS` `NIL` a `FunctionCall` node holds them, in this order, with the
/// nodes the grammar gives them and no error.
#[verifier::rlimit(100)]
#[verifier::spinoff_prover]
pub proof fn law_FunctionCall_3(ts: Seq<SyntaxKind>, s: St)
    requires
        peek_at(ts, s.pos + 0) == SyntaxKind::PNAME_NS,
        peek_at(ts, s.pos + 1) == SyntaxKind::NIL,
    ensures
        rule_FunctionCall(ts, s) == (St { evs: s.evs + seq![Ev::Open(SyntaxKind::FunctionCall), Ev::Open(SyntaxKind::iri), Ev::Open(SyntaxKind::PrefixedName), Ev::Advance, Ev::Close, Ev::Close, Ev::Open(SyntaxKind::ArgList), Ev::Advance, Ev::Close, Ev::Close], pos: s.pos + 2 }),
{
    reveal_with_fuel(rule_ArgList, 1);
    reveal_with_fuel(if_ArgList_2, 1);
    reveal_with_fuel(loop_ArgList_3, 2);
    reveal_with_fuel(body_ArgList_4, 1);
    reveal_with_fuel(match_ArgList_1, 1);
    reveal_with_fuel(rule_FunctionCall, 1);
    reveal(rule_PrefixedName);
    reveal(rule_iri);
    reveal(st_open);
    reveal(st_close);
    reveal(st_advance);
    reveal(st_expect);
    assert(rule_FunctionCall(ts, s).evs =~= s.evs + seq![Ev::Open(SyntaxKind::FunctionCall), Ev::Open(SyntaxKind::iri), Ev::Open(SyntaxKind::PrefixedName), Ev::Advance, Ev::Close, Ev::Close, Ev::Open(SyntaxKind::ArgList), Ev::Advance, Ev::Close, Ev::Close]);
}

/// On the tokens `VAR1` a `OrderCondition` node holds them, in this order, with the
/// nodes the grammar gives them and no error.
#[verifier::rlimit(100)]
#[verifier::spinoff_prover]
pub proof fn law_OrderCondition_1(ts: Seq<SyntaxKind>, s: St)
    requires
        peek_at(ts, s.pos + 0) == SyntaxKind::VAR1,
    ensures
        rule_OrderCondition(ts, s) == (St { evs: s.evs + seq![Ev::Open(SyntaxKind::OrderCondition), Ev::Open(SyntaxKind::Var), Ev::Advance, Ev::Close, Ev::Close], pos: s.pos + 1 }),
{
    reveal_with_fuel(rule_OrderCondition, 1);
    reveal_with_fuel(match_OrderCondition_2, 1);
    reveal_with_fuel(match_OrderCondition_3, 1);
    reveal_with_fuel(match_OrderCondition_1, 1);
    reveal(rule_Var);
    reveal(st_open);
    reveal(st_close);
    reveal(st_advance);
    reveal(st_expect);
    assert(rule_OrderCondition(ts, s).evs =~= s.evs + seq![Ev::Open(SyntaxKind::OrderCondition), Ev::Open(SyntaxKind::Var), Ev::Advance, Ev::Close, Ev::Close]);
}

/// On the tokens `VAR2` a `OrderCondition` node holds them, in this order, with the
/// nodes the grammar gives them and no error.
#[verifier::rlimit(100)]
#[verifier::spinoff_prover]
pub proof fn law_OrderCondition_2(ts: Seq<SyntaxKind>, s: St)
    requires
        peek_at(ts, s.pos + 0) == SyntaxKind::VAR2,
    ensures
        rule_OrderCondition(ts, s) == (St { evs: s.evs + seq![Ev::Open(SyntaxKind::OrderCondition), Ev::Open(SyntaxKind::Var), Ev::Advance, Ev::Close, Ev::Close], pos: s.pos + 1 }),
{
    reveal_with_fuel(rule_OrderCondition, 1);
    reveal_with_fuel(match_OrderCondition_2, 1);
    reveal_with_fuel(match_OrderCondition_3, 1);
    reveal_with_fuel(match_OrderCondition_1, 1);
    reveal(rule_Var);
    reveal(st_open);
    reveal(st_close);
    reveal(st_advance);
    reveal(st_expect);
    assert(rule_OrderCondition(ts, s).evs =~= s.evs + seq![Ev::Open(SyntaxKind::OrderCondition), Ev::Open(SyntaxKind::Var), Ev::Advance, Ev::Close, Ev::Close]);
}

/// On the tokens `NIL` `LCurly` `RCurly` a `DataBlock` node holds them, in this order, with the
/// nodes the grammar gives them and no error.
#[verifier::rlimit(100)]
#[verifier::spinoff_prover]
pub proof fn law_DataBlock_1(ts: Seq<SyntaxKind>, s: St)
    requires
        peek_at(ts, s.pos + 0) == SyntaxKind::NIL,
        peek_at(ts, s.pos + 1) == SyntaxKind::LCurly,
        peek_at(ts, s.pos + 2) == SyntaxKind::RCurly,
    ensures
        rule_DataBlock(ts, s) == (St { evs: s.evs + seq![Ev::Open(SyntaxKind::DataBlock), Ev::Open(SyntaxKind::InlineDataFull), Ev::Advance, Ev::Advance, Ev::Advance, Ev::Close, Ev::Close], pos: s.pos + 3 }),
{
    reveal_with_fuel(rule_DataBlock, 1);
    reveal_with_fuel(match_DataBlock_1, 1);
    reveal_with_fuel(rule_InlineDataFull, 1);
    reveal_with_fuel(loop_InlineDataFull_2, 2);
    reveal_with_fuel(body_InlineDataFull_3, 1);
    reveal_with_fuel(match_InlineDataFull_1, 1);
    reveal_with_fuel(loop_InlineDataFull_7, 2);
    reveal_with_fuel(body_InlineDataFull_8, 1);
    reveal_with_fuel(match_InlineDataFull_6, 1);
    reveal_with_fuel(loop_InlineDataFull_4, 2);
    reveal_with_fuel(body_InlineDataFull_5, 1);
    reveal(st_open);
    reveal(st_close);
    reveal(st_advance);
    reveal(st_expect);
    assert(rule_DataBlock(ts, s).evs =~= s.evs + seq![Ev::Open(SyntaxKind::DataBlock), Ev::Open(SyntaxKind::InlineDataFull), Ev::Advance, Ev::Advance, Ev::Advance, Ev::Close, Ev::Close]);
}

/// On the tokens `VAR1` `LCurly` `RCurly` a `DataBlock` node holds them, in this order, with the
/// nodes the grammar gives them and no error.
#[verifier::rlimit(100)]
#[verifier::spinoff_prover]
pub proof fn law_DataBlock_2(ts: Seq<SyntaxKind>, s: St)
    requires
        peek_at(ts, s.pos + 0) == SyntaxKind::VAR1,
        peek_at(ts, s.pos + 1) == SyntaxKind::LCurly,
        peek_at(ts, s.pos + 2) == SyntaxKind::RCurly,
    ensures
        rule_DataBlock(ts, s) == (St { evs: s.evs + seq![Ev::Open(SyntaxKind::DataBlock), Ev::Open(SyntaxKind::InlineDataOneVar), Ev::Open(SyntaxKind::Var), Ev::Advance, Ev::Close, Ev::Advance, Ev::Advance, Ev::Close, Ev::Close], pos: s.pos + 3 }),
{
    reveal_with_fuel(rule_DataBlock, 1);
    reveal_with_fuel(match_DataBlock_1, 1);
    reveal_with_fuel(rule_InlineDataOneVar, 1);
    reveal_with_fuel(loop_InlineDataOneVar_1, 2);
    reveal_with_fuel(body_InlineDataOneVar_2, 1);
    reveal(rule_Var);
    reveal(st_open);
    reveal(st_close);
    reveal(st_advance);
    reveal(st_expect);
    assert(rule_DataBlock(ts, s).evs =~= s.evs + seq![Ev::Open(SyntaxKind::DataBlock), Ev::Open(SyntaxKind::InlineDataOneVar), Ev::Open(SyntaxKind::Var), Ev::Advance, Ev::Close, Ev::Advance, Ev::Advance, Ev::Close, Ev::Close]);
}

/// On the tokens `VAR2` `LCurly` `RCurly` a `DataBlock` node holds them, in this order, with the
/// nodes the grammar gives them and no error.
#[verifier::rlimit(100)]
#[verifier::spinoff_prover]
pub proof fn law_DataBlock_3(ts: Seq<SyntaxKind>, s: St)
    requires
        peek_at(ts, s.pos + 0) == SyntaxKind::VAR2,
        peek_at(ts, s.pos + 1) == SyntaxKind::LCurly,
        peek_at(ts, s.pos + 2) == SyntaxKind::RCurly,
    ensures
        rule_DataBlock(ts, s) == (St { evs: s.evs + seq![Ev::Open(SyntaxKind::DataBlock), Ev::Open(SyntaxKind::InlineDataOneVar), Ev::Open(SyntaxKind::Var), Ev::Advance, Ev::Close, Ev::Advance, Ev::Advance, Ev::Close, Ev::Close], pos: s.pos + 3 }),
{
    reveal_with_fuel(rule_DataBlock, 1);
    reveal_with_fuel(match_DataBlock_1, 1);
    reveal_with_fuel(rule_InlineDataOneVar, 1);
    reveal_with_fuel(loop_InlineDataOneVar_1, 2);
    reveal_with_fuel(body_InlineDataOneVar_2, 1);
    reveal(rule_Var);
    reveal(st_open);
    reveal(st_close);
    reveal(st_advance);
    reveal(st_expect);
    assert(rule_DataBlock(ts, s).evs =~= s.evs + seq![Ev::Open(SyntaxKind::DataBlock), Ev::Open(SyntaxKind::InlineDataOneVar), Ev::Open(SyntaxKind::Var), Ev::Advance, Ev::Close, Ev::Advance, Ev::Advance, Ev::Close, Ev::Close]);
}

/// On the tokens `CLEAR` `DEFAULT` a `UpdateOne` node holds them, in this order, with the
/// nodes the grammar gives them and no error.
#[verifier::rlimit(100)]
#[verifier::spinoff_prover]
pub proof fn law_UpdateOne_1(ts: Seq<SyntaxKind>, s: St)
    requires
        peek_at(ts, s.pos + 0) == SyntaxKind::CLEAR,
        peek_at(ts, s.pos + 1) == SyntaxKind::DEFAULT,
    ensures
        rule_UpdateOne(ts, s) == (St { evs: s.evs + seq![Ev::Open(SyntaxKind::UpdateOne), Ev::Open(SyntaxKind::Clear), Ev::Advance, Ev::Open(SyntaxKind::GraphRefAll), Ev::Advance, Ev::Close, Ev::Close, Ev::Close], pos: s.pos + 2 }),
{
    reveal(rule_Clear);
    reveal(rule_GraphRefAll);
    reveal_with_fuel(rule_UpdateOne, 1);
    reveal_with_fuel(match_UpdateOne_1, 1);
    reveal(st_open);
    reveal(st_close);
    reveal(st_advance);
    reveal(st_expect);
    assert(rule_UpdateOne(ts, s).evs =~= s.evs + seq![Ev::Open(SyntaxKind::UpdateOne), Ev::Open(SyntaxKind::Clear), Ev::Advance, Ev::Open(SyntaxKind::GraphRefAll), Ev::Advance, Ev::Close, Ev::Close, Ev::Close]);
}

/// On the tokens `DROP` `DEFAULT` a `UpdateOne` node holds them, in this order, with the
/// nodes the grammar gives them and no error.
#[verifier::rlimit(100)]
#[verifier::spinoff_prover]
pub proof fn law_UpdateOne_2(ts: Seq<SyntaxKind>, s: St)
    requires
        peek_at(ts, s.pos + 0) == SyntaxKind::DROP,
        peek_at(ts, s.pos + 1) == SyntaxKind::DEFAULT,
    ensures
        rule_UpdateOne(ts, s) == (St { evs: s.evs + seq![Ev::Open(SyntaxKind::UpdateOne), Ev::Open(SyntaxKind::Drop), Ev::Advance, Ev::Open(SyntaxKind::GraphRefAll), Ev::Advance, Ev::Close, Ev::Close, Ev::Close], pos: s.pos + 2 }),
{
    reveal(rule_Drop);
    reveal(rule_GraphRefAll);
    reveal_with_fuel(rule_UpdateOne, 1);
    reveal_with_fuel(match_UpdateOne_1, 1);
    reveal(st_open);
    reveal(st_close);
    reveal(st_advance);
    reveal(st_expect);
    assert(rule_UpdateOne(ts, s).evs =~= s.evs + seq![Ev::Open(SyntaxKind::UpdateOne), Ev::Open(SyntaxKind::Drop), Ev::Advance, Ev::Open(SyntaxKind::GraphRefAll), Ev::Advance, Ev::Close, Ev::Close, Ev::Close]);
}

/// On the tokens `LOAD` `IRIREF` a `UpdateOne` node holds them, in this order, with the
/// nodes the grammar gives them and no error.
#[verifier::rlimit(100)]
#[verifier::spinoff_prover]
pub proof fn law_UpdateOne_3(ts: Seq<SyntaxKind>, s: St)
    requires
        peek_at(ts, s.pos + 0) == SyntaxKind::LOAD,
        peek_at(ts, s.pos + 1) == SyntaxKind::IRIREF,
        !(peek_at(ts, s.pos + 2) == SyntaxKind::INTO),
    ensures
        rule_UpdateOne(ts, s) == (St { evs: s.evs + seq![Ev::Open(SyntaxKind::UpdateOne), Ev::Open(SyntaxKind::Load), Ev::Advance, Ev::Open(SyntaxKind::iri), Ev::Advance, Ev::Close, Ev::Close, Ev::Close], pos: s.pos + 2 }),
{
    reveal(rule_Load);
    reveal_with_fuel(rule_UpdateOne, 1);
    reveal_with_fuel(match_UpdateOne_1, 1);
    reveal(rule_iri);
    reveal(st_open);
    reveal(st_close);
    reveal(st_advance);
    reveal(st_expect);
    assert(rule_UpdateOne(ts, s).evs =~= s.evs + seq![Ev::Open(SyntaxKind::UpdateOne), Ev::Open(SyntaxKind::Load), Ev::Advance, Ev::Open(SyntaxKind::iri), Ev::Advance, Ev::Close, Ev::Close, Ev::Close]);
}

/// On the tokens `GRAPH` `IRIREF` `LCurly` `RCurly` a `Quads` node holds them, in this order, with the
/// nodes the grammar gives them and no error.
#[verifier::rlimit(100)]
#[verifier::spinoff_prover]
pub proof fn law_Quads_2(ts: Seq<SyntaxKind>, s: St)
    requires
        peek_at(ts, s.pos + 0) == SyntaxKind::GRAPH,
        peek_at(ts, s.pos + 1) == SyntaxKind::IRIREF,
        peek_at(ts, s.pos + 2) == SyntaxKind::LCurly,
        peek_at(ts, s.pos + 3) == SyntaxKind::RCurly,
        !(peek_at(ts, s.pos + 4) == SyntaxKind::Dot),
        !(peek_at(ts, s.pos + 4) == SyntaxKind::ANON || peek_at(ts, s.pos + 4) == SyntaxKind::BLANK_NODE_LABEL || peek_at(ts, s.pos + 4) == SyntaxKind::DECIMAL || peek_at(ts, s.pos + 4) == SyntaxKind::DECIMAL_NEGATIVE || peek_at(ts, s.pos + 4) == SyntaxKind::DECIMAL_POSITIVE || peek_at(ts, s.pos + 4) == SyntaxKind::DOUBLE || peek_at(ts, s.pos + 4) == SyntaxKind::DOUBLE_NEGATIVE || peek_at(ts, s.pos + 4) == SyntaxKind::DOUBLE_POSITIVE || peek_at(ts, s.pos + 4) == SyntaxKind::DoubleLess || peek_at(ts, s.pos + 4) == SyntaxKind::DoubleLessLParen || peek_at(ts, s.pos + 4) == SyntaxKind::False || peek_at(ts, s.pos + 4) == SyntaxKind::INTEGER || peek_at(ts, s.pos + 4) == SyntaxKind::INTEGER_NEGATIVE || peek_at(ts, s.pos + 4) == SyntaxKind::INTEGER_POSITIVE || peek_at(ts, s.pos + 4) == SyntaxKind::IRIREF || peek_at(ts, s.pos + 4) == SyntaxKind::LBrack || peek_at(ts, s.pos + 4) == SyntaxKind::LParen || peek_at(ts, s.pos + 4) == SyntaxKind::NIL || peek_at(ts, s.pos + 4) == SyntaxKind::PNAME_LN || peek_at(ts, s.pos + 4) == SyntaxKind::PNAME_NS || peek_at(ts, s.pos + 4) == SyntaxKind::STRING_LITERAL1 || peek_at(ts, s.pos + 4) == SyntaxKind::STRING_LITERAL2 || peek_at(ts, s.pos + 4) == SyntaxKind::STRING_LITERAL_LONG1 || peek_at(ts, s.pos + 4) == SyntaxKind::STRING_LITERAL_LONG2 || peek_at(ts, s.pos + 4) == SyntaxKind::True || peek_at(ts, s.pos + 4) == SyntaxKind::VAR1 || peek_at(ts, s.pos + 4) == SyntaxKind::VAR2),
        !(peek_at(ts, s.pos + 4) == SyntaxKind::GRAPH),
    ensures
        rule_Quads(ts, s) == (St { evs: s.evs + seq![Ev::Open(SyntaxKind::Quads), Ev::Open(SyntaxKind::QuadsNotTriples), Ev::Advance, Ev::Open(SyntaxKind::VarOrIri), Ev::Open(SyntaxKind::iri), Ev::Advance, Ev::Close, Ev::Close, Ev::Advance, Ev::Advance, Ev::Close, Ev::Close], pos: s.pos + 4 }),
{
    reveal_with_fuel(rule_Quads, 1);
    reveal_with_fuel(if_Quads_1, 1);
    reveal_with_fuel(if_Quads_2, 1);
    reveal_with_fuel(if_Quads_5, 1);
    reveal_with_fuel(if_Quads_6, 1);
    reveal_with_fuel(loop_Quads_3, 2);
    reveal_with_fuel(body_Quads_4, 1);
    reveal_with_fuel(rule_QuadsNotTriples, 1);
    reveal_with_fuel(if_QuadsNotTriples_1, 1);
    reveal(rule_VarOrIri);
    reveal(rule_iri);
    reveal(st_open);
    reveal(st_close);
    reveal(st_advance);
    reveal(st_expect);
    assert(rule_Quads(ts, s).evs =~= s.evs + seq![Ev::Open(SyntaxKind::Quads), Ev::Open(SyntaxKind::QuadsNotTriples), Ev::Advance, Ev::Open(SyntaxKind::VarOrIri), Ev::Open(SyntaxKind::iri), Ev::Advance, Ev::Close, Ev::Close, Ev::Advance, Ev::Advance, Ev::Close, Ev::Close]);
}

/// On the tokens `GRAPH` `IRIREF` `LCurly` `RCurly` a `QuadsNotTriples` node holds them, in this order, with the
/// nodes the grammar gives them and no error.
#[verifier::rlimit(100)]
#[verifier::spinoff_prover]
pub proof fn law_QuadsNotTriples_1(ts: Seq<SyntaxKind>, s: St)
    requires
        peek_at(ts, s.pos + 0) == SyntaxKind::GRAPH,
        peek_at(ts, s.pos + 1) == SyntaxKind::IRIREF,
        peek_at(ts, s.pos + 2) == SyntaxKind::LCurly,
        peek_at(ts, s.pos + 3) == SyntaxKind::RCurly,
    ensures
        rule_QuadsNotTriples(ts, s) == (St { evs: s.evs + seq![Ev::Open(SyntaxKind::QuadsNotTriples), Ev::Advance, Ev::Open(SyntaxKind::VarOrIri), Ev::Open(SyntaxKind::iri), Ev::Advance, Ev::Close, Ev::Close, Ev::Advance, Ev::Advance, Ev::Close], pos: s.pos + 4 }),
{
    reveal_with_fuel(rule_QuadsNotTriples, 1);
    reveal_with_fuel(if_QuadsNotTriples_1, 1);
    reveal(rule_VarOrIri);
    reveal(rule_iri);
    reveal(st_open);
    reveal(st_close);
    reveal(st_advance);
    reveal(st_expect);
    assert(rule_QuadsNotTriples(ts, s).evs =~= s.evs + seq![Ev::Open(SyntaxKind::QuadsNotTriples), Ev::Advance, Ev::Open(SyntaxKind::VarOrIri), Ev::Open(SyntaxKind::iri), Ev::Advance, Ev::Close, Ev::Close, Ev::Advance, Ev::Advance, Ev::Close]);
}

/// On the tokens `VAR1` `LCurly` `RCurly` a `InlineDataOneVar` node holds them, in this order, with the
/// nodes the grammar gives them and no error.
#[verifier::rlimit(100)]
#[verifier::spinoff_prover]
pub proof fn law_InlineDataOneVar_1(ts: Seq<SyntaxKind>, s: St)
    requires
        peek_at(ts, s.pos + 0) == SyntaxKind::VAR1,
        peek_at(ts, s.pos + 1) == SyntaxKind::LCurly,
        peek_at(ts, s.pos + 2) == SyntaxKind::RCurly,
    ensures
        rule_InlineDataOneVar(ts, s) == (St { evs: s.evs + seq![Ev::Open(SyntaxKind::InlineDataOneVar), Ev::Open(SyntaxKind::Var), Ev::Advance, Ev::Close, Ev::Advance, Ev::Advance, Ev::Close], pos: s.pos + 3 }),
{
    reveal_with_fuel(rule_InlineDataOneVar, 1);
    reveal_with_fuel(loop_InlineDataOneVar_1, 2);
    reveal_with_fuel(body_InlineDataOneVar_2, 1);
    reveal(rule_Var);
    reveal(st_open);
    reveal(st_close);
    reveal(st_advance);
    reveal(st_expect);
    assert(rule_InlineDataOneVar(ts, s).evs =~= s.evs + seq![Ev::Open(SyntaxKind::InlineDataOneVar), Ev::Open(SyntaxKind::Var), Ev::Advance, Ev::Close, Ev::Advance, Ev::Advance, Ev::Close]);
}

/// On the tokens `VAR2` `LCurly` `RCurly` a `InlineDataOneVar` node holds them, in this order, with the
/// nodes the grammar gives them and no error.
#[verifier::rlimit(100)]
#[verifier::spinoff_prover]
pub proof fn law_InlineDataOneVar_2(ts: Seq<SyntaxKind>, s: St)
    requires
        peek_at(ts, s.pos + 0) == SyntaxKind::VAR2,
        peek_at(ts, s.pos + 1) == SyntaxKind::LCurly,
        peek_at(ts, s.pos + 2) == SyntaxKind::RCurly,
    ensures
        rule_InlineDataOneVar(ts, s) == (St { evs: s.evs + seq![Ev::Open(SyntaxKind::InlineDataOneVar), Ev::Open(SyntaxKind::Var), Ev::Advance, Ev::Close, Ev::Advance, Ev::Advance, Ev::Close], pos: s.pos + 3 }),
{
    reveal_with_fuel(rule_InlineDataOneVar, 1);
    reveal_with_fuel(loop_InlineDataOneVar_1, 2);
    reveal_with_fuel(body_InlineDataOneVar_2, 1);
    reveal(rule_Var);
    reveal(st_open);
    reveal(st_close);
    reveal(st_advance);
    reveal(st_expect);
    assert(rule_InlineDataOneVar(ts, s).evs =~= s.evs + seq![Ev::Open(SyntaxKind::InlineDataOneVar), Ev::Open(SyntaxKind::Var), Ev::Advance, Ev::Close, Ev::Advance, Ev::Advance, Ev::Close]);
}

/// On the tokens `NIL` `LCurly` `RCurly` a `InlineDataFull` node holds them, in this order, with the
/// nodes the grammar gives them and no error.
#[verifier::rlimit(100)]
#[verifier::spinoff_prover]
pub proof fn law_InlineDataFull_1(ts: Seq<SyntaxKind>, s: St)
    requires
        peek_at(ts, s.pos + 0) == SyntaxKind::NIL,
        peek_at(ts, s.pos + 1) == SyntaxKind::LCurly,
        peek_at(ts, s.pos + 2) == SyntaxKind::RCurly,
    ensures
        rule_InlineDataFull(ts, s) == (St { evs: s.evs + seq![Ev::Open(SyntaxKind::InlineDataFull), Ev::Advance, Ev::Advance, Ev::Advance, Ev::Close], pos: s.pos + 3 }),
{
    reveal_with_fuel(rule_InlineDataFull, 1);
    reveal_with_fuel(loop_InlineDataFull_2, 2);
    reveal_with_fuel(body_InlineDataFull_3, 1);
    reveal_with_fuel(match_InlineDataFull_1, 1);
    reveal_with_fuel(loop_InlineDataFull_7, 2);
    reveal_with_fuel(body_InlineDataFull_8, 1);
    reveal_with_fuel(match_InlineDataFull_6, 1);
    reveal_with_fuel(loop_InlineDataFull_4, 2);
    reveal_with_fuel(body_InlineDataFull_5, 1);
    reveal(st_open);
    reveal(st_close);
    reveal(st_advance);
    reveal(st_expect);
    assert(rule_InlineDataFull(ts, s).evs =~= s.evs + seq![Ev::Open(SyntaxKind::InlineDataFull), Ev::Advance, Ev::Advance, Ev::Advance, Ev::Close]);
}

/// On the tokens `LParen` `RParen` `LCurly` `RCurly` a `InlineDataFull` node holds them, in this order, with the
/// nodes the grammar gives them and no error.
#[verifier::rlimit(100)]
#[verifier::spinoff_prover]
pub proof fn law_InlineDataFull_2(ts: Seq<SyntaxKind>, s: St)
    requires
        peek_at(ts, s.pos + 0) == SyntaxKind::LParen,
        peek_at(ts, s.pos + 1) == SyntaxKind::RParen,
        peek_at(ts, s.pos + 2) == SyntaxKind::LCurly,
        peek_at(ts, s.pos + 3) == SyntaxKind::RCurly,
    ensures
        rule_InlineDataFull(ts, s) == (St { evs: s.evs + seq![Ev::Open(SyntaxKind::InlineDataFull), Ev::Advance, Ev::Advance, Ev::Advance, Ev::Advance, Ev::Close], pos: s.pos + 4 }),
{
    reveal_with_fuel(rule_InlineDataFull, 1);
    reveal_with_fuel(loop_InlineDataFull_2, 2);
    reveal_with_fuel(body_InlineDataFull_3, 1);
    reveal_with_fuel(match_InlineDataFull_1, 1);
    reveal_with_fuel(loop_InlineDataFull_7, 2);
    reveal_with_fuel(body_InlineDataFull_8, 1);
    reveal_with_fuel(match_InlineDataFull_6, 1);
    reveal_with_fuel(loop_InlineDataFull_4, 2);
    reveal_with_fuel(body_InlineDataFull_5, 1);
    reveal(st_open);
    reveal(st_close);
    reveal(st_advance);
    reveal(st_expect);
    assert(rule_InlineDataFull(ts, s).evs =~= s.evs + seq![Ev::Open(SyntaxKind::InlineDataFull), Ev::Advance, Ev::Advance, Ev::Advance, Ev::Advance, Ev::Close]);
}

/// On the tokens `DECIMAL` a `DataBlockValue` node holds them, in this order, with the
/// nodes the grammar gives them and no error.
#[verifier::rlimit(100)]
#[verifier::spinoff_prover]
pub proof fn law_DataBlockValue_1(ts: Seq<SyntaxKind>, s: St)
    requires
        peek_at(ts, s.pos + 0) == SyntaxKind::DECIMAL,
    ensures
        rule_DataBlockValue(ts, s) == (St { evs: s.evs + seq![Ev::Open(SyntaxKind::DataBlockValue), Ev::Open(SyntaxKind::NumericLiteral), Ev::Open(SyntaxKind::NumericLiteralUnsigned), Ev::Advance, Ev::Close, Ev::Close, Ev::Close], pos: s.pos + 1 }),
{
    reveal_with_fuel(rule_DataBlockValue, 1);
    reveal_with_fuel(match_DataBlockValue_1, 1);
    reveal(rule_NumericLiteral);
    reveal(rule_NumericLiteralUnsigned);
    reveal(st_open);
    reveal(st_close);
    reveal(st_advance);
    reveal(st_expect);
    assert(rule_DataBlockValue(ts, s).evs =~= s.evs + seq![Ev::Open(SyntaxKind::DataBlockValue), Ev::Open(SyntaxKind::NumericLiteral), Ev::Open(SyntaxKind::NumericLiteralUnsigned), Ev::Advance, Ev::Close, Ev::Close, Ev::Close]);
}

/// On the tokens `DECIMAL_NEGATIVE` a `DataBlockValue` node holds them, in this order, with the
/// nodes the grammar gives them and no error.
#[verifier::rlimit(100)]
#[verifier::spinoff_prover]
pub proof fn law_DataBlockValue_2(ts: Seq<SyntaxKind>, s: St)
    requires
        peek_at(ts, s.pos + 0) == SyntaxKind::DECIMAL_NEGATIVE,
    ensures
        rule_DataBlockValue(ts, s) == (St { evs: s.evs + seq![Ev::Open(SyntaxKind::DataBlockValue), Ev::Open(SyntaxKind::NumericLiteral), Ev::Open(SyntaxKind::NumericLiteralNegative), Ev::Advance, Ev::Close, Ev::Close, Ev::Close], pos: s.pos + 1 }),
{
    reveal_with_fuel(rule_DataBlockValue, 1);
    reveal_with_fuel(match_DataBlockValue_1, 1);
    reveal(rule_NumericLiteral);
    reveal(rule_NumericLiteralNegative);
    reveal(st_open);
    reveal(st_close);
    reveal(st_advance);
    reveal(st_expect);
    assert(rule_DataBlockValue(ts, s).evs =~= s.evs + seq![Ev::Open(SyntaxKind::DataBlockValue), Ev::Open(SyntaxKind::NumericLiteral), Ev::Open(SyntaxKind::NumericLiteralNegative), Ev::Advance, Ev::Close, Ev::Close, Ev::Close]);
}

/// On the tokens `DECIMAL_POSITIVE` a `DataBlockValue` node holds them, in this order, with the
/// nodes the grammar gives them and no error.
#[verifier::rlimit(100)]
#[verifier::spinoff_prover]
pub proof fn law_DataBlockValue_3(ts: Seq<SyntaxKind>, s: St)
    requires
        peek_at(ts, s.pos + 0) == SyntaxKind::DECIMAL_POSITIVE,
    ensures
        rule_DataBlockValue(ts, s) == (St { evs: s.evs + seq![Ev::Open(SyntaxKind::DataBlockValue), Ev::Open(SyntaxKind::NumericLiteral), Ev::Open(SyntaxKind::NumericLiteralPositive), Ev::Advance, Ev::Close, Ev::Close, Ev::Close], pos: s.pos + 1 }),
{
    reveal_with_fuel(rule_DataBlockValue, 1);
    reveal_with_fuel(match_DataBlockValue_1, 1);
    reveal(rule_NumericLiteral);
    reveal(rule_NumericLiteralPositive);
    reveal(st_open);
    reveal(st_close);
    reveal(st_advance);
    reveal(st_expect);
    assert(rule_DataBlockValue(ts, s).evs =~= s.evs + seq![Ev::Open(SyntaxKind::DataBlockValue), Ev::Open(SyntaxKind::NumericLiteral), Ev::Open(SyntaxKind::NumericLiteralPositive), Ev::Advance, Ev::Close, Ev::Close, Ev::Close]);
}

/// On the tokens `DoubleLessLParen` `IRIREF` `IRIREF` `IRIREF` `RParenDoubleMore` a `TripleTermData` node holds them, in this order, with the
/// nodes the grammar gives them and no error.
#[verifier::rlimit(100)]
#[verifier::spinoff_prover]
pub proof fn law_TripleTermData_1(ts: Seq<SyntaxKind>, s: St)
    requires
        peek_at(ts, s.pos + 0) == SyntaxKind::DoubleLessLParen,
        peek_at(ts, s.pos + 1) == SyntaxKind::IRIREF,
        peek_at(ts, s.pos + 2) == SyntaxKind::IRIREF,
        peek_at(ts, s.pos + 3) == SyntaxKind::IRIREF,
        peek_at(ts, s.pos + 4) == SyntaxKind::RParenDoubleMore,
    ensures
        rule_TripleTermData(ts, s) == (St { evs: s.evs + seq![Ev::Open(SyntaxKind::TripleTermData), Ev::Advance, Ev::Open(SyntaxKind::TripleTermDataSubject), Ev::Open(SyntaxKind::iri), Ev::Advance, Ev::Close, Ev::Close, Ev::Open(SyntaxKind::iri), Ev::Advance, Ev::Close, Ev::Open(SyntaxKind::TripleTermDataObject), Ev::Open(SyntaxKind::iri), Ev::Advance, Ev::Close, Ev::Close, Ev::Advance, Ev::Close], pos: s.pos + 5 }),
{
    reveal_with_fuel(rule_TripleTermData, 1);
    reveal_with_fuel(match_TripleTermData_1, 1);
    reveal_with_fuel(rule_TripleTermDataObject, 1);
    reveal_with_fuel(match_TripleTermDataObject_1, 1);
    reveal(rule_TripleTermDataSubject);
    reveal(rule_iri);
    reveal(st_open);
    reveal(st_close);
    reveal(st_advance);
    reveal(st_expect);
    assert(rule_TripleTermData(ts, s).evs =~= s.evs + seq![Ev::Open(SyntaxKind::TripleTermData), Ev::Advance, Ev::Open(SyntaxKind::TripleTermDataSubject), Ev::Open(SyntaxKind::iri), Ev::Advance, Ev::Close, Ev::Close, Ev::Open(SyntaxKind::iri), Ev::Advance, Ev::Close, Ev::Open(SyntaxKind::TripleTermDataObject), Ev::Open(SyntaxKind::iri), Ev::Advance, Ev::Close, Ev::Close, Ev::Advance, Ev::Close]);
}

/// On the tokens `NIL` a `ArgList` node holds them, in this order, with the
/// nodes the grammar gives them and no error.
#[verifier::rlimit(100)]
#[verifier::spinoff_prover]
pub proof fn law_ArgList_1(ts: Seq<SyntaxKind>, s: St)
    requires
        peek_at(ts, s.pos + 0) == SyntaxKind::NIL,
    ensures
        rule_ArgList(ts, s) == (St { evs: s.evs + seq![Ev::Open(SyntaxKind::ArgList), Ev::Advance, Ev::Close], pos: s.pos + 1 }),
{
    reveal_with_fuel(rule_ArgList, 1);
    reveal_with_fuel(if_ArgList_2, 1);
    reveal_with_fuel(loop_ArgList_3, 2);
    reveal_with_fuel(body_ArgList_4, 1);
    reveal_with_fuel(match_ArgList_1, 1);
    reveal(st_open);
    reveal(st_close);
    reveal(st_advance);
    reveal(st_expect);
    assert(rule_ArgList(ts, s).evs =~= s.evs + seq![Ev::Open(SyntaxKind::ArgList), Ev::Advance, Ev::Close]);
}

/// On the tokens `NIL` a `ExpressionList` node holds them, in this order, with the
/// nodes the grammar gives them and no error.
#[verifier::rlimit(100)]
#[verifier::spinoff_prover]
pub proof fn law_ExpressionList_1(ts: Seq<SyntaxKind>, s: St)
    requires
        peek_at(ts, s.pos + 0) == SyntaxKind::NIL,
    ensures
        rule_ExpressionList(ts, s) == (St { evs: s.evs + seq![Ev::Open(SyntaxKind::ExpressionList), Ev::Advance, Ev::Close], pos: s.pos + 1 }),
{
    reveal_with_fuel(rule_ExpressionList, 1);
    reveal_with_fuel(loop_ExpressionList_2, 2);
    reveal_with_fuel(body_ExpressionList_3, 1);
    reveal_with_fuel(match_ExpressionList_1, 1);
    reveal(st_open);
    reveal(st_close);
    reveal(st_advance);
    reveal(st_expect);
    assert(rule_ExpressionList(ts, s).evs =~= s.evs + seq![Ev::Open(SyntaxKind::ExpressionList), Ev::Advance, Ev::Close]);
}

/// On the tokens `ANON` a `VarOrTerm` node holds them, in this order, with the
/// nodes the grammar gives them and no error.
#[verifier::rlimit(100)]
#[verifier::spinoff_prover]
pub proof fn law_VarOrTerm_1(ts: Seq<SyntaxKind>, s: St)
    requires
        peek_at(ts, s.pos + 0) == SyntaxKind::ANON,
    ensures
        rule_VarOrTerm(ts, s) == (St { evs: s.evs + seq![Ev::Open(SyntaxKind::VarOrTerm), Ev::Open(SyntaxKind::BlankNode), Ev::Advance, Ev::Close, Ev::Close], pos: s.pos + 1 }),
{
    reveal(rule_BlankNode);
    reveal_with_fuel(rule_VarOrTerm, 1);
    reveal_with_fuel(match_VarOrTerm_1, 1);
    reveal(st_open);
    reveal(st_close);
    reveal(st_advance);
    reveal(st_expect);
    assert(rule_VarOrTerm(ts, s).evs =~= s.evs + seq![Ev::Open(SyntaxKind::VarOrTerm), Ev::Open(SyntaxKind::BlankNode), Ev::Advance, Ev::Close, Ev::Close]);
}

/// On the tokens `BLANK_NODE_LABEL` a `VarOrTerm` node holds them, in this order, with the
/// nodes the grammar gives them and no error.
#[verifier::rlimit(100)]
#[verifier::spinoff_prover]
pub proof fn law_VarOrTerm_2(ts: Seq<SyntaxKind>, s: St)
    requires
        peek_at(ts, s.pos + 0) == SyntaxKind::BLANK_NODE_LABEL,
    ensures
        rule_VarOrTerm(ts, s) == (St { evs: s.evs + seq![Ev::Open(SyntaxKind::VarOrTerm), Ev::Open(SyntaxKind::BlankNode), Ev::Advance, Ev::Close, Ev::Close], pos: s.pos + 1 }),
{
    reveal(rule_BlankNode);
    reveal_with_fuel(rule_VarOrTerm, 1);
    reveal_with_fuel(match_VarOrTerm_1, 1);
    reveal(st_open);
    reveal(st_close);
    reveal(st_advance);
    reveal(st_expect);
    assert(rule_VarOrTerm(ts, s).evs =~= s.evs + seq![Ev::Open(SyntaxKind::VarOrTerm), Ev::Open(SyntaxKind::BlankNode), Ev::Advance, Ev::Close, Ev::Close]);
}

/// On the tokens `DECIMAL` a `VarOrTerm` node holds them, in this order, with the
/// nodes the grammar gives them and no error.
#[verifier::rlimit(100)]
#[verifier::spinoff_prover]
pub proof fn law_VarOrTerm_3(ts: Seq<SyntaxKind>, s: St)
    requires
        peek_at(ts, s.pos + 0) == SyntaxKind::DECIMAL,
    ensures
        rule_VarOrTerm(ts, s) == (St { evs: s.evs + seq![Ev::Open(SyntaxKind::VarOrTerm), Ev::Open(SyntaxKind::NumericLiteral), Ev::Open(SyntaxKind::NumericLiteralUnsigned), Ev::Advance, Ev::Close, Ev::Close, Ev::Close], pos: s.pos + 1 }),
{
    reveal(rule_NumericLiteral);
    reveal(rule_NumericLiteralUnsigned);
    reveal_with_fuel(rule_VarOrTerm, 1);
    reveal_with_fuel(match_VarOrTerm_1, 1);
    reveal(st_open);
    reveal(st_close);
    reveal(st_advance);
    reveal(st_expect);
    assert(rule_VarOrTerm(ts, s).evs =~= s.evs + seq![Ev::Open(SyntaxKind::VarOrTerm), Ev::Open(SyntaxKind::NumericLiteral), Ev::Open(SyntaxKind::NumericLiteralUnsigned), Ev::Advance, Ev::Close, Ev::Close, Ev::Close]);
}

/// On the tokens `ANON` a `GraphNode` node holds them, in this order, with the
/// nodes the grammar gives them and no error.
#[verifier::rlimit(100)]
#[verifier::spinoff_prover]
pub proof fn law_GraphNode_1(ts: Seq<SyntaxKind>, s: St)
    requires
        peek_at(ts, s.pos + 0) == SyntaxKind::ANON,
    ensures
        rule_GraphNode(ts, s) == (St { evs: s.evs + seq![Ev::Open(SyntaxKind::GraphNode), Ev::Open(SyntaxKind::VarOrTerm), Ev::Open(SyntaxKind::BlankNode), Ev::Advance, Ev::Close, Ev::Close, Ev::Close], pos: s.pos + 1 }),
{
    reveal(rule_BlankNode);
    reveal_with_fuel(rule_GraphNode, 1);
    reveal_with_fuel(match_GraphNode_1, 1);
    reveal_with_fuel(rule_VarOrTerm, 1);
    reveal_with_fuel(match_VarOrTerm_1, 1);
    reveal(st_open);
    reveal(st_close);
    reveal(st_advance);
    reveal(st_expect);
    assert(rule_GraphNode(ts, s).evs =~= s.evs + seq![Ev::Open(SyntaxKind::GraphNode), Ev::Open(SyntaxKind::VarOrTerm), Ev::Open(SyntaxKind::BlankNode), Ev::Advance, Ev::Close, Ev::Close, Ev::Close]);
}

/// On the tokens `BLANK_NODE_LABEL` a `GraphNode` node holds them, in this order, with the
/// nodes the grammar gives them and no error.
#[verifier::rlimit(100)]
#[verifier::spinoff_prover]
pub proof fn law_GraphNode_2(ts: Seq<SyntaxKind>, s: St)
    requires
        peek_at(ts, s.pos + 0) == SyntaxKind::BLANK_NODE_LABEL,
    ensures
        rule_GraphNode(ts, s) == (St { evs: s.evs + seq![Ev::Open(SyntaxKind::GraphNode), Ev::Open(SyntaxKind::VarOrTerm), Ev::Open(SyntaxKind::BlankNode), Ev::Advance, Ev::Close, Ev::Close, Ev::Close], pos: s.pos + 1 }),
{
    reveal(rule_BlankNode);
    reveal_with_fuel(rule_GraphNode, 1);
    reveal_with_fuel(match_GraphNode_1, 1);
    reveal_with_fuel(rule_VarOrTerm, 1);
    reveal_with_fuel(match_VarOrTerm_1, 1);
    reveal(st_open);
    reveal(st_close);
    reveal(st_advance);
    reveal(st_expect);
    assert(rule_GraphNode(ts, s).evs =~= s.evs + seq![Ev::Open(SyntaxKind::GraphNode), Ev::Open(SyntaxKind::VarOrTerm), Ev::Open(SyntaxKind::BlankNode), Ev::Advance, Ev::Close, Ev::Close, Ev::Close]);
}

/// On the tokens `DECIMAL` a `GraphNode` node holds them, in this order, with the
/// nodes the grammar gives them and no error.
#[verifier::rlimit(100)]
#[verifier::spinoff_prover]
pub proof fn law_GraphNode_3(ts: Seq<SyntaxKind>, s: St)
    requires
        peek_at(ts, s.pos + 0) == SyntaxKind::DECIMAL,
    ensures
        rule_GraphNode(ts, s) == (St { evs: s.evs + seq![Ev::Open(SyntaxKind::GraphNode), Ev::Open(SyntaxKind::VarOrTerm), Ev::Open(SyntaxKind::NumericLiteral), Ev::Open(SyntaxKind::NumericLiteralUnsigned), Ev::Advance, Ev::Close, Ev::Close, Ev::Close, Ev::Close], pos: s.pos + 1 }),
{
    reveal_with_fuel(rule_GraphNode, 1);
    reveal_with_fuel(match_GraphNode_1, 1);
    reveal(rule_NumericLiteral);
    reveal(rule_NumericLiteralUnsigned);
    reveal_with_fuel(rule_VarOrTerm, 1);
    reveal_with_fuel(match_VarOrTerm_1, 1);
    reveal(st_open);
    reveal(st_close);
    reveal(st_advance);
    reveal(st_expect);
    assert(rule_GraphNode(ts, s).evs =~= s.evs + seq![Ev::Open(SyntaxKind::GraphNode), Ev::Open(SyntaxKind::VarOrTerm), Ev::Open(SyntaxKind::NumericLiteral), Ev::Open(SyntaxKind::NumericLiteralUnsigned), Ev::Advance, Ev::Close, Ev::Close, Ev::Close, Ev::Close]);
}

/// On the tokens `Tilde` a `Annotation` node holds them, in this order, with the
/// nodes the grammar gives them and no error.
#[verifier::rlimit(100)]
#[verifier::spinoff_prover]
pub proof fn law_Annotation_2(ts: Seq<SyntaxKind>, s: St)
    requires
        peek_at(ts, s.pos + 0) == SyntaxKind::Tilde,
        !(peek_at(ts, s.pos + 1) == SyntaxKind::ANON || peek_at(ts, s.pos + 1) == SyntaxKind::BLANK_NODE_LABEL || peek_at(ts, s.pos + 1) == SyntaxKind::IRIREF || peek_at(ts, s.pos + 1) == SyntaxKind::PNAME_LN || peek_at(ts, s.pos + 1) == SyntaxKind::PNAME_NS || peek_at(ts, s.pos + 1) == SyntaxKind::VAR1 || peek_at(ts, s.pos + 1) == SyntaxKind::VAR2),
        !(peek_at(ts, s.pos + 1) == SyntaxKind::LCurlyPipe || peek_at(ts, s.pos + 1) == SyntaxKind::Tilde),
    ensures
        rule_Annotation(ts, s) == (St { evs: s.evs + seq![Ev::Open(SyntaxKind::Annotation), Ev::Open(SyntaxKind::Reifier), Ev::Advance, Ev::Close, Ev::Close], pos: s.pos + 1 }),
{
    reveal_with_fuel(rule_Annotation, 1);
    reveal_with_fuel(if_Annotation_1, 1);
    reveal_with_fuel(match_Annotation_4, 1);
    reveal_with_fuel(loop_Annotation_2, 2);
    reveal_with_fuel(body_Annotation_3, 1);
    reveal(rule_Reifier);
    reveal(st_open);
    reveal(st_close);
    reveal(st_advance);
    reveal(st_expect);
    assert(rule_Annotation(ts, s).evs =~= s.evs + seq![Ev::Open(SyntaxKind::Annotation), Ev::Open(SyntaxKind::Reifier), Ev::Advance, Ev::Close, Ev::Close]);
}

/// On the tokens `ANON` a `GraphNodePath` node holds them, in this order, with the
/// nodes the grammar gives them and no error.
#[verifier::rlimit(100)]
#[verifier::spinoff_prover]
pub proof fn law_GraphNodePath_1(ts: Seq<SyntaxKind>, s: St)
    requires
        peek_at(ts, s.pos + 0) == SyntaxKind::ANON,
    ensures
        rule_GraphNodePath(ts, s) == (St { evs: s.evs + seq![Ev::Open(SyntaxKind::GraphNodePath), Ev::Open(SyntaxKind::VarOrTerm), Ev::Open(SyntaxKind::BlankNode), Ev::Advance, Ev::Close, Ev::Close, Ev::Close], pos: s.pos + 1 }),
{
    reveal(rule_BlankNode);
    reveal_with_fuel(rule_GraphNodePath, 1);
    reveal_with_fuel(match_GraphNodePath_1, 1);
    reveal_with_fuel(rule_VarOrTerm, 1);
    reveal_with_fuel(match_VarOrTerm_1, 1);
    reveal(st_open);
    reveal(st_close);
    reveal(st_advance);
    reveal(st_expect);
    assert(rule_GraphNodePath(ts, s).evs =~= s.evs + seq![Ev::Open(SyntaxKind::GraphNodePath), Ev::Open(SyntaxKind::VarOrTerm), Ev::Open(SyntaxKind::BlankNode), Ev::Advance, Ev::Close, Ev::Close, Ev::Close]);
}

/// On the tokens `BLANK_NODE_LABEL` a `GraphNodePath` node holds them, in this order, with the
/// nodes the grammar gives them and no error.
#[verifier::rlimit(100)]
#[verifier::spinoff_prover]
pub proof fn law_GraphNodePath_2(ts: Seq<SyntaxKind>, s: St)
    requires
        peek_at(ts, s.pos + 0) == SyntaxKind::BLANK_NODE_LABEL,
    ensures
        rule_GraphNodePath(ts, s) == (St { evs: s.evs + seq![Ev::Open(SyntaxKind::GraphNodePath), Ev::Open(SyntaxKind::VarOrTerm), Ev::Open(SyntaxKind::BlankNode), Ev::Advance, Ev::Close, Ev::Close, Ev::Close], pos: s.pos + 1 }),
{
    reveal(rule_BlankNode);
    reveal_with_fuel(rule_GraphNodePath, 1);
    reveal_with_fuel(match_GraphNodePath_1, 1);
    reveal_with_fuel(rule_VarOrTerm, 1);
    reveal_with_fuel(match_VarOrTerm_1, 1);
    reveal(st_open);
    reveal(st_close);
    reveal(st_advance);
    reveal(st_expect);
    assert(rule_GraphNodePath(ts, s).evs =~= s.evs + seq![Ev::Open(SyntaxKind::GraphNodePath), Ev::Open(SyntaxKind::VarOrTerm), Ev::Open(SyntaxKind::BlankNode), Ev::Advance, Ev::Close, Ev::Close, Ev::Close]);
}

/// On the tokens `DECIMAL` a `GraphNodePath` node holds them, in this order, with the
/// nodes the grammar gives them and no error.
#[verifier::rlimit(100)]
#[verifier::spinoff_prover]
pub proof fn law_GraphNodePath_3(ts: Seq<SyntaxKind>, s: St)
    requires
        peek_at(ts, s.pos + 0) == SyntaxKind::DECIMAL,
    ensures
        rule_GraphNodePath(ts, s) == (St { evs: s.evs + seq![Ev::Open(SyntaxKind::GraphNodePath), Ev::Open(SyntaxKind::VarOrTerm), Ev::Open(SyntaxKind::NumericLiteral), Ev::Open(SyntaxKind::NumericLiteralUnsigned), Ev::Advance, Ev::Close, Ev::Close, Ev::Close, Ev::Close], pos: s.pos + 1 }),
{
    reveal_with_fuel(rule_GraphNodePath, 1);
    reveal_with_fuel(match_GraphNodePath_1, 1);
    reveal(rule_NumericLiteral);
    reveal(rule_NumericLiteralUnsigned);
    reveal_with_fuel(rule_VarOrTerm, 1);
    reveal_with_fuel(match_VarOrTerm_1, 1);
    reveal(st_open);
    reveal(st_close);
    reveal(st_advance);
    reveal(st_expect);
    assert(rule_GraphNodePath(ts, s).evs =~= s.evs + seq![Ev::Open(SyntaxKind::GraphNodePath), Ev::Open(SyntaxKind::VarOrTerm), Ev::Open(SyntaxKind::NumericLiteral), Ev::Open(SyntaxKind::NumericLiteralUnsigned), Ev::Advance, Ev::Close, Ev::Close, Ev::Close, Ev::Close]);
}

/// On the tokens `Tilde` a `AnnotationPath` node holds them, in this order, with the
/// nodes the grammar gives them and no error.
#[verifier::rlimit(100)]
#[verifier::spinoff_prover]
pub proof fn law_AnnotationPath_2(ts: Seq<SyntaxKind>, s: St)
    requires
        peek_at(ts, s.pos + 0) == SyntaxKind::Tilde,
        !(peek_at(ts, s.pos + 1) == SyntaxKind::ANON || peek_at(ts, s.pos + 1) == SyntaxKind::BLANK_NODE_LABEL || peek_at(ts, s.pos + 1) == SyntaxKind::IRIREF || peek_at(ts, s.pos + 1) == SyntaxKind::PNAME_LN || peek_at(ts, s.pos + 1) == SyntaxKind::PNAME_NS || peek_at(ts, s.pos + 1) == SyntaxKind::VAR1 || peek_at(ts, s.pos + 1) == SyntaxKind::VAR2),
        !(peek_at(ts, s.pos + 1) == SyntaxKind::LCurlyPipe || peek_at(ts, s.pos + 1) == SyntaxKind::Tilde),
    ensures
        rule_AnnotationPath(ts, s) == (St { evs: s.evs + seq![Ev::Open(SyntaxKind::AnnotationPath), Ev::Open(SyntaxKind::Reifier), Ev::Advance, Ev::Close, Ev::Close], pos: s.pos + 1 }),
{
    reveal_with_fuel(rule_AnnotationPath, 1);
    reveal_with_fuel(if_AnnotationPath_1, 1);
    reveal_with_fuel(match_AnnotationPath_4, 1);
    reveal_with_fuel(loop_AnnotationPath_2, 2);
    reveal_with_fuel(body_AnnotationPath_3, 1);
    reveal(rule_Reifier);
    reveal(st_open);
    reveal(st_close);
    reveal(st_advance);
    reveal(st_expect);
    assert(rule_AnnotationPath(ts, s).evs =~= s.evs + seq![Ev::Open(SyntaxKind::AnnotationPath), Ev::Open(SyntaxKind::Reifier), Ev::Advance, Ev::Close, Ev::Close]);
}

/// On the tokens `IRIREF` a `PathElt` node holds them, in this order, with the
/// nodes the grammar gives them and no error.
#[verifier::rlimit(100)]
#[verifier::spinoff_prover]
pub proof fn law_PathElt_1(ts: Seq<SyntaxKind>, s: St)
    requires
        peek_at(ts, s.pos + 0) == SyntaxKind::IRIREF,
        !(peek_at(ts, s.pos + 1) == SyntaxKind::Plus || peek_at(ts, s.pos + 1) == SyntaxKind::QuestionMark || peek_at(ts, s.pos + 1) == SyntaxKind::Star),
    ensures
        rule_PathElt(ts, s) == (St { evs: s.evs + seq![Ev::Open(SyntaxKind::PathElt), Ev::Open(SyntaxKind::PathPrimary), Ev::Open(SyntaxKind::iri), Ev::Advance, Ev::Close, Ev::Close, Ev::Close], pos: s.pos + 1 }),
{
    reveal_with_fuel(rule_PathElt, 1);
    reveal_with_fuel(if_PathElt_1, 1);
    reveal_with_fuel(rule_PathPrimary, 1);
    reveal_with_fuel(match_PathPrimary_1, 1);
    reveal(rule_iri);
    reveal(st_open);
    reveal(st_close);
    reveal(st_advance);
    reveal(st_expect);
    assert(rule_PathElt(ts, s).evs =~= s.evs + seq![Ev::Open(SyntaxKind::PathElt), Ev::Open(SyntaxKind::PathPrimary), Ev::Open(SyntaxKind::iri), Ev::Advance, Ev::Close, Ev::Close, Ev::Close]);
}

/// On the tokens `PNAME_LN` a `PathElt` node holds them, in this order, with the
/// nodes the grammar gives them and no error.
#[verifier::rlimit(100)]
#[verifier::spinoff_prover]
pub proof fn law_PathElt_2(ts: Seq<SyntaxKind>, s: St)
    requires
        peek_at(ts, s.pos + 0) == SyntaxKind::PNAME_LN,
        !(peek_at(ts, s.pos + 1) == SyntaxKind::Plus || peek_at(ts, s.pos + 1) == SyntaxKind::QuestionMark || peek_at(ts, s.pos + 1) == SyntaxKind::Star),
    ensures
        rule_PathElt(ts, s) == (St { evs: s.evs + seq![Ev::Open(SyntaxKind::PathElt), Ev::Open(SyntaxKind::PathPrimary), Ev::Open(SyntaxKind::iri), Ev::Open(SyntaxKind::PrefixedName), Ev::Advance, Ev::Close, Ev::Close, Ev::Close, Ev::Close], pos: s.pos + 1 }),
{
    reveal_with_fuel(rule_PathElt, 1);
    reveal_with_fuel(if_PathElt_1, 1);
    reveal_with_fuel(rule_PathPrimary, 1);
    reveal_with_fuel(match_PathPrimary_1, 1);
    reveal(rule_PrefixedName);
    reveal(rule_iri);
    reveal(st_open);
    reveal(st_close);
    reveal(st_advance);
    reveal(st_expect);
    assert(rule_PathElt(ts, s).evs =~= s.evs + seq![Ev::Open(SyntaxKind::PathElt), Ev::Open(SyntaxKind::PathPrimary), Ev::Open(SyntaxKind::iri), Ev::Open(SyntaxKind::PrefixedName), Ev::Advance, Ev::Close, Ev::Close, Ev::Close, Ev::Close]);
}

/// On the tokens `PNAME_NS` a `PathElt` node holds them, in this order, with the
/// nodes the grammar gives them and no error.
#[verifier::rlimit(100)]
#[verifier::spinoff_prover]
pub proof fn law_PathElt_3(ts: Seq<SyntaxKind>, s: St)
    requires
        peek_at(ts, s.pos + 0) == SyntaxKind::PNAME_NS,
        !(peek_at(ts, s.pos + 1) == SyntaxKind::Plus || peek_at(ts, s.pos + 1) == SyntaxKind::QuestionMark || peek_at(ts, s.pos + 1) == SyntaxKind::Star),
    ensures
        rule_PathElt(ts, s) == (St { evs: s.evs + seq![Ev::Open(SyntaxKind::PathElt), Ev::Open(SyntaxKind::PathPrimary), Ev::Open(SyntaxKind::iri), Ev::Open(SyntaxKind::PrefixedName), Ev::Advance, Ev::Close, Ev::Close, Ev::Close, Ev::Close], pos: s.pos + 1 }),
{
    reveal_with_fuel(rule_PathElt, 1);
    reveal_with_fuel(if_PathElt_1, 1);
    reveal_with_fuel(rule_PathPrimary, 1);
    reveal_with_fuel(match_PathPrimary_1, 1);
    reveal(rule_PrefixedName);
    reveal(rule_iri);
    reveal(st_open);
    reveal(st_close);
    reveal(st_advance);
    reveal(st_expect);
    assert(rule_PathElt(ts, s).evs =~= s.evs + seq![Ev::Open(SyntaxKind::PathElt), Ev::Open(SyntaxKind::PathPrimary), Ev::Open(SyntaxKind::iri), Ev::Open(SyntaxKind::PrefixedName), Ev::Advance, Ev::Close, Ev::Close, Ev::Close, Ev::Close]);
}

/// On the tokens `IRIREF` a `PathPrimary` node holds them, in this order, with the
/// nodes the grammar gives them and no error.
#[verifier::rlimit(100)]
#[verifier::spinoff_prover]
pub proof fn law_PathPrimary_1(ts: Seq<SyntaxKind>, s: St)
    requires
        peek_at(ts, s.pos + 0) == SyntaxKind::IRIREF,
    ensures
        rule_PathPrimary(ts, s) == (St { evs: s.evs + seq![Ev::Open(SyntaxKind::PathPrimary), Ev::Open(SyntaxKind::iri), Ev::Advance, Ev::Close, Ev::Close], pos: s.pos + 1 }),
{
    reveal_with_fuel(rule_PathPrimary, 1);
    reveal_with_fuel(match_PathPrimary_1, 1);
    reveal(rule_iri);
    reveal(st_open);
    reveal(st_close);
    reveal(st_advance);
    reveal(st_expect);
    assert(rule_PathPrimary(ts, s).evs =~= s.evs + seq![Ev::Open(SyntaxKind::PathPrimary), Ev::Open(SyntaxKind::iri), Ev::Advance, Ev::Close, Ev::Close]);
}

/// On the tokens `PNAME_LN` a `PathPrimary` node holds them, in this order, with the
/// nodes the grammar gives them and no error.
#[verifier::rlimit(100)]
#[verifier::spinoff_prover]
pub proof fn law_PathPrimary_2(ts: Seq<SyntaxKind>, s: St)
    requires
        peek_at(ts, s.pos + 0) == SyntaxKind::PNAME_LN,
    ensures
        rule_PathPrimary(ts, s) == (St { evs: s.evs + seq![Ev::Open(SyntaxKind::PathPrimary), Ev::Open(SyntaxKind::iri), Ev::Open(SyntaxKind::PrefixedName), Ev::Advance, Ev::Close, Ev::Close, Ev::Close], pos: s.pos + 1 }),
{
    reveal_with_fuel(rule_PathPrimary, 1);
    reveal_with_fuel(match_PathPrimary_1, 1);
    reveal(rule_PrefixedName);
    reveal(rule_iri);
    reveal(st_open);
    reveal(st_close);
    reveal(st_advance);
    reveal(st_expect);
    assert(rule_PathPrimary(ts, s).evs =~= s.evs + seq![Ev::Open(SyntaxKind::PathPrimary), Ev::Open(SyntaxKind::iri), Ev::Open(SyntaxKind::PrefixedName), Ev::Advance, Ev::Close, Ev::Close, Ev::Close]);
}

/// On the tokens `PNAME_NS` a `PathPrimary` node holds them, in this order, with the
/// nodes the grammar gives them and no error.
#[verifier::rlimit(100)]
#[verifier::spinoff_prover]
pub proof fn law_PathPrimary_3(ts: Seq<SyntaxKind>, s: St)
    requires
        peek_at(ts, s.pos + 0) == SyntaxKind::PNAME_NS,
    ensures
        rule_PathPrimary(ts, s) == (St { evs: s.evs + seq![Ev::Open(SyntaxKind::PathPrimary), Ev::Open(SyntaxKind::iri), Ev::Open(SyntaxKind::PrefixedName), Ev::Advance, Ev::Close, Ev::Close, Ev::Close], pos: s.pos + 1 }),
{
    reveal_with_fuel(rule_PathPrimary, 1);
    reveal_with_fuel(match_PathPrimary_1, 1);
    reveal(rule_PrefixedName);
    reveal(rule_iri);
    reveal(st_open);
    reveal(st_close);
    reveal(st_advance);
    reveal(st_expect);
    assert(rule_PathPrimary(ts, s).evs =~= s.evs + seq![Ev::Open(SyntaxKind::PathPrimary), Ev::Open(SyntaxKind::iri), Ev::Open(SyntaxKind::PrefixedName), Ev::Advance, Ev::Close, Ev::Close, Ev::Close]);
}

/// On the tokens `IRIREF` a `PathNegatedPropertySet` node holds them, in this order, with the
/// nodes the grammar gives them and no error.
#[verifier::rlimit(100)]
#[verifier::spinoff_prover]
pub proof fn law_PathNegatedPropertySet_1(ts: Seq<SyntaxKind>, s: St)
    requires
        peek_at(ts, s.pos + 0) == SyntaxKind::IRIREF,
    ensures
        rule_PathNegatedPropertySet(ts, s) == (St { evs: s.evs + seq![Ev::Open(SyntaxKind::PathNegatedPropertySet), Ev::Open(SyntaxKind::PathOneInPropertySet), Ev::Open(SyntaxKind::iri), Ev::Advance, Ev::Close, Ev::Close, Ev::Close], pos: s.pos + 1 }),
{
    reveal_with_fuel(rule_PathNegatedPropertySet, 1);
    reveal_with_fuel(loop_PathNegatedPropertySet_3, 2);
    reveal_with_fuel(body_PathNegatedPropertySet_4, 1);
    reveal_with_fuel(if_PathNegatedPropertySet_2, 1);
    reveal_with_fuel(match_PathNegatedPropertySet_1, 1);
    reveal(rule_PathOneInPropertySet);
    reveal(rule_iri);
    reveal(st_open);
    reveal(st_close);
    reveal(st_advance);
    reveal(st_expect);
    assert(rule_PathNegatedPropertySet(ts, s).evs =~= s.evs + seq![Ev::Open(SyntaxKind::PathNegatedPropertySet), Ev::Open(SyntaxKind::PathOneInPropertySet), Ev::Open(SyntaxKind::iri), Ev::Advance, Ev::Close, Ev::Close, Ev::Close]);
}

/// On the tokens `PNAME_LN` a `PathNegatedPropertySet` node holds them, in this order, with the
/// nodes the grammar gives them and no error.
#[verifier::rlimit(100)]
#[verifier::spinoff_prover]
pub proof fn law_PathNegatedPropertySet_2(ts: Seq<SyntaxKind>, s: St)
    requires
        peek_at(ts, s.pos + 0) == SyntaxKind::PNAME_LN,
    ensures
        rule_PathNegatedPropertySet(ts, s) == (St { evs: s.evs + seq![Ev::Open(SyntaxKind::PathNegatedPropertySet), Ev::Open(SyntaxKind::PathOneInPropertySet), Ev::Open(SyntaxKind::iri), Ev::Open(SyntaxKind::PrefixedName), Ev::Advance, Ev::Close, Ev::Close, Ev::Close, Ev::Close], pos: s.pos + 1 }),
{
    reveal_with_fuel(rule_PathNegatedPropertySet, 1);
    reveal_with_fuel(loop_PathNegatedPropertySet_3, 2);
    reveal_with_fuel(body_PathNegatedPropertySet_4, 1);
    reveal_with_fuel(if_PathNegatedPropertySet_2, 1);
    reveal_with_fuel(match_PathNegatedPropertySet_1, 1);
    reveal(rule_PathOneInPropertySet);
    reveal(rule_PrefixedName);
    reveal(rule_iri);
    reveal(st_open);
    reveal(st_close);
    reveal(st_advance);
    reveal(st_expect);
    assert(rule_PathNegatedPropertySet(ts, s).evs =~= s.evs + seq![Ev::Open(SyntaxKind::PathNegatedPropertySet), Ev::Open(SyntaxKind::PathOneInPropertySet), Ev::Open(SyntaxKind::iri), Ev::Open(SyntaxKind::PrefixedName), Ev::Advance, Ev::Close, Ev::Close, Ev::Close, Ev::Close]);
}

/// On the tokens `PNAME_NS` a `PathNegatedPropertySet` node holds them, in this order, with the
/// nodes the grammar gives them and no error.
#[verifier::rlimit(100)]
#[verifier::spinoff_prover]
pub proof fn law_PathNegatedPropertySet_3(ts: Seq<SyntaxKind>, s: St)
    requires
        peek_at(ts, s.pos + 0) == SyntaxKind::PNAME_NS,
    ensures
        rule_PathNegatedPropertySet(ts, s) == (St { evs: s.evs + seq![Ev::Open(SyntaxKind::PathNegatedPropertySet), Ev::Open(SyntaxKind::PathOneInPropertySet), Ev::Open(SyntaxKind::iri), Ev::Open(SyntaxKind::PrefixedName), Ev::Advance, Ev::Close, Ev::Close, Ev::Close, Ev::Close], pos: s.pos + 1 }),
{
    reveal_with_fuel(rule_PathNegatedPropertySet, 1);
    reveal_with_fuel(loop_PathNegatedPropertySet_3, 2);
    reveal_with_fuel(body_PathNegatedPropertySet_4, 1);
    reveal_with_fuel(if_PathNegatedPropertySet_2, 1);
    reveal_with_fuel(match_PathNegatedPropertySet_1, 1);
    reveal(rule_PathOneInPropertySet);
    reveal(rule_PrefixedName);
    reveal(rule_iri);
    reveal(st_open);
    reveal(st_close);
    reveal(st_advance);
    reveal(st_expect);
    assert(rule_PathNegatedPropertySet(ts, s).evs =~= s.evs + seq![Ev::Open(SyntaxKind::PathNegatedPropertySet), Ev::Open(SyntaxKind::PathOneInPropertySet), Ev::Open(SyntaxKind::iri), Ev::Open(SyntaxKind::PrefixedName), Ev::Advance, Ev::Close, Ev::Close, Ev::Close, Ev::Close]);
}

/// On the tokens `ANON` a `ReifiedTripleSubject` node holds them, in this order, with the
/// nodes the grammar gives them and no error.
#[verifier::rlimit(100)]
#[verifier::spinoff_prover]
pub proof fn law_ReifiedTripleSubject_1(ts: Seq<SyntaxKind>, s: St)
    requires
        peek_at(ts, s.pos + 0) == SyntaxKind::ANON,
    ensures
        rule_ReifiedTripleSubject(ts, s) == (St { evs: s.evs + seq![Ev::Open(SyntaxKind::ReifiedTripleSubject), Ev::Open(SyntaxKind::BlankNode), Ev::Advance, Ev::Close, Ev::Close], pos: s.pos + 1 }),
{
    reveal(rule_BlankNode);
    reveal_with_fuel(rule_ReifiedTripleSubject, 1);
    reveal_with_fuel(match_ReifiedTripleSubject_1, 1);
    reveal(st_open);
    reveal(st_close);
    reveal(st_advance);
    reveal(st_expect);
    assert(rule_ReifiedTripleSubject(ts, s).evs =~= s.evs + seq![Ev::Open(SyntaxKind::ReifiedTripleSubject), Ev::Open(SyntaxKind::BlankNode), Ev::Advance, Ev::Close, Ev::Close]);
}

/// On the tokens `BLANK_NODE_LABEL` a `ReifiedTripleSubject` node holds them, in this order, with the
/// nodes the grammar gives them and no error.
#[verifier::rlimit(100)]
#[verifier::spinoff_prover]
pub proof fn law_ReifiedTripleSubject_2(ts: Seq<SyntaxKind>, s: St)
    requires
        peek_at(ts, s.pos + 0) == SyntaxKind::BLANK_NODE_LABEL,
    ensures
        rule_ReifiedTripleSubject(ts, s) == (St { evs: s.evs + seq![Ev::Open(SyntaxKind::ReifiedTripleSubject), Ev::Open(SyntaxKind::BlankNode), Ev::Advance, Ev::Close, Ev::Close], pos: s.pos + 1 }),
{
    reveal(rule_BlankNode);
    reveal_with_fuel(rule_ReifiedTripleSubject, 1);
    reveal_with_fuel(match_ReifiedTripleSubject_1, 1);
    reveal(st_open);
    reveal(st_close);
    reveal(st_advance);
    reveal(st_expect);
    assert(rule_ReifiedTripleSubject(ts, s).evs =~= s.evs + seq![Ev::Open(SyntaxKind::ReifiedTripleSubject), Ev::Open(SyntaxKind::BlankNode), Ev::Advance, Ev::Close, Ev::Close]);
}

/// On the tokens `DECIMAL` a `ReifiedTripleSubject` node holds them, in this order, with the
/// nodes the grammar gives them and no error.
#[verifier::rlimit(100)]
#[verifier::spinoff_prover]
pub proof fn law_ReifiedTripleSubject_3(ts: Seq<SyntaxKind>, s: St)
    requires
        peek_at(ts, s.pos + 0) == SyntaxKind::DECIMAL,
    ensures
        rule_ReifiedTripleSubject(ts, s) == (St { evs: s.evs + seq![Ev::Open(SyntaxKind::ReifiedTripleSubject), Ev::Open(SyntaxKind::NumericLiteral), Ev::Open(SyntaxKind::NumericLiteralUnsigned), Ev::Advance, Ev::Close, Ev::Close, Ev::Close], pos: s.pos + 1 }),
{
    reveal(rule_NumericLiteral);
    reveal(rule_NumericLiteralUnsigned);
    reveal_with_fuel(rule_ReifiedTripleSubject, 1);
    reveal_with_fuel(match_ReifiedTripleSubject_1, 1);
    reveal(st_open);
    reveal(st_close);
    reveal(st_advance);
    reveal(st_expect);
    assert(rule_ReifiedTripleSubject(ts, s).evs =~= s.evs + seq![Ev::Open(SyntaxKind::ReifiedTripleSubject), Ev::Open(SyntaxKind::NumericLiteral), Ev::Open(SyntaxKind::NumericLiteralUnsigned), Ev::Advance, Ev::Close, Ev::Close, Ev::Close]);
}

/// On the tokens `ANON` a `ReifiedTripleObject` node holds them, in this order, with the
/// nodes the grammar gives them and no error.
#[verifier::rlimit(100)]
#[verifier::spinoff_prover]
pub proof fn law_ReifiedTripleObject_1(ts: Seq<SyntaxKind>, s: St)
    requires
        peek_at(ts, s.pos + 0) == SyntaxKind::ANON,
    ensures
        rule_ReifiedTripleObject(ts, s) == (St { evs: s.evs + seq![Ev::Open(SyntaxKind::ReifiedTripleObject), Ev::Open(SyntaxKind::BlankNode), Ev::Advance, Ev::Close, Ev::Close], pos: s.pos + 1 }),
{
    reveal(rule_BlankNode);
    reveal_with_fuel(rule_ReifiedTripleObject, 1);
    reveal_with_fuel(match_ReifiedTripleObject_1, 1);
    reveal(st_open);
    reveal(st_close);
    reveal(st_advance);
    reveal(st_expect);
    assert(rule_ReifiedTripleObject(ts, s).evs =~= s.evs + seq![Ev::Open(SyntaxKind::ReifiedTripleObject), Ev::Open(SyntaxKind::BlankNode), Ev::Advance, Ev::Close, Ev::Close]);
}

/// On the tokens `BLANK_NODE_LABEL` a `ReifiedTripleObject` node holds them, in this order, with the
/// nodes the grammar gives them and no error.
#[verifier::rlimit(100)]
#[verifier::spinoff_prover]
pub proof fn law_ReifiedTripleObject_2(ts: Seq<SyntaxKind>, s: St)
    requires
        peek_at(ts, s.pos + 0) == SyntaxKind::BLANK_NODE_LABEL,
    ensures
        rule_ReifiedTripleObject(ts, s) == (St { evs: s.evs + seq![Ev::Open(SyntaxKind::ReifiedTripleObject), Ev::Open(SyntaxKind::BlankNode), Ev::Advance, Ev::Close, Ev::Close], pos: s.pos + 1 }),
{
    reveal(rule_BlankNode);
    reveal_with_fuel(rule_ReifiedTripleObject, 1);
    reveal_with_fuel(match_ReifiedTripleObject_1, 1);
    reveal(st_open);
    reveal(st_close);
    reveal(st_advance);
    reveal(st_expect);
    assert(rule_ReifiedTripleObject(ts, s).evs =~= s.evs + seq![Ev::Open(SyntaxKind::ReifiedTripleObject), Ev::Open(SyntaxKind::BlankNode), Ev::Advance, Ev::Close, Ev::Close]);
}

/// On the tokens `DECIMAL` a `ReifiedTripleObject` node holds them, in this order, with the
/// nodes the grammar gives them and no error.
#[verifier::rlimit(100)]
#[verifier::spinoff_prover]
pub proof fn law_ReifiedTripleObject_3(ts: Seq<SyntaxKind>, s: St)
    requires
        peek_at(ts, s.pos + 0) == SyntaxKind::DECIMAL,
    ensures
        rule_ReifiedTripleObject(ts, s) == (St { evs: s.evs + seq![Ev::Open(SyntaxKind::ReifiedTripleObject), Ev::Open(SyntaxKind::NumericLiteral), Ev::Open(SyntaxKind::NumericLiteralUnsigned), Ev::Advance, Ev::Close, Ev::Close, Ev::Close], pos: s.pos + 1 }),
{
    reveal(rule_NumericLiteral);
    reveal(rule_NumericLiteralUnsigned);
    reveal_with_fuel(rule_ReifiedTripleObject, 1);
    reveal_with_fuel(match_ReifiedTripleObject_1, 1);
    reveal(st_open);
    reveal(st_close);
    reveal(st_advance);
    reveal(st_expect);
    assert(rule_ReifiedTripleObject(ts, s).evs =~= s.evs + seq![Ev::Open(SyntaxKind::ReifiedTripleObject), Ev::Open(SyntaxKind::NumericLiteral), Ev::Open(SyntaxKind::NumericLiteralUnsigned), Ev::Advance, Ev::Close, Ev::Close, Ev::Close]);
}

/// On the tokens `ANON` a `TripleTermSubject` node holds them, in this order, with the
/// nodes the grammar gives them and no error.
#[verifier::rlimit(100)]
#[verifier::spinoff_prover]
pub proof fn law_TripleTermSubject_1(ts: Seq<SyntaxKind>, s: St)
    requires
        peek_at(ts, s.pos + 0) == SyntaxKind::ANON,
    ensures
        rule_TripleTermSubject(ts, s) == (St { evs: s.evs + seq![Ev::Open(SyntaxKind::TripleTermSubject), Ev::Open(SyntaxKind::BlankNode), Ev::Advance, Ev::Close, Ev::Close], pos: s.pos + 1 }),
{
    reveal(rule_BlankNode);
    reveal_with_fuel(rule_TripleTermSubject, 1);
    reveal_with_fuel(match_TripleTermSubject_1, 1);
    reveal(st_open);
    reveal(st_close);
    reveal(st_advance);
    reveal(st_expect);
    assert(rule_TripleTermSubject(ts, s).evs =~= s.evs + seq![Ev::Open(SyntaxKind::TripleTermSubject), Ev::Open(SyntaxKind::BlankNode), Ev::Advance, Ev::Close, Ev::Close]);
}

/// On the tokens `BLANK_NODE_LABEL` a `TripleTermSubject` node holds them, in this order, with the
/// nodes the grammar gives them and no error.
#[verifier::rlimit(100)]
#[verifier::spinoff_prover]
pub proof fn law_TripleTermSubject_2(ts: Seq<SyntaxKind>, s: St)
    requires
        peek_at(ts, s.pos + 0) == SyntaxKind::BLANK_NODE_LABEL,
    ensures
        rule_TripleTermSubject(ts, s) == (St { evs: s.evs + seq![Ev::Open(SyntaxKind::TripleTermSubject), Ev::Open(SyntaxKind::BlankNode), Ev::Advance, Ev::Close, Ev::Close], pos: s.pos + 1 }),
{
    reveal(rule_BlankNode);
    reveal_with_fuel(rule_TripleTermSubject, 1);
    reveal_with_fuel(match_TripleTermSubject_1, 1);
    reveal(st_open);
    reveal(st_close);
    reveal(st_advance);
    reveal(st_expect);
    assert(rule_TripleTermSubject(ts, s).evs =~= s.evs + seq![Ev::Open(SyntaxKind::TripleTermSubject), Ev::Open(SyntaxKind::BlankNode), Ev::Advance, Ev::Close, Ev::Close]);
}

/// On the tokens `DECIMAL` a `TripleTermSubject` node holds them, in this order, with the
/// nodes the grammar gives them and no error.
#[verifier::rlimit(100)]
#[verifier::spinoff_prover]
pub proof fn law_TripleTermSubject_3(ts: Seq<SyntaxKind>, s: St)
    requires
        peek_at(ts, s.pos + 0) == SyntaxKind::DECIMAL,
    ensures
        rule_TripleTermSubject(ts, s) == (St { evs: s.evs + seq![Ev::Open(SyntaxKind::TripleTermSubject), Ev::Open(SyntaxKind::NumericLiteral), Ev::Open(SyntaxKind::NumericLiteralUnsigned), Ev::Advance, Ev::Close, Ev::Close, Ev::Close], pos: s.pos + 1 }),
{
    reveal(rule_NumericLiteral);
    reveal(rule_NumericLiteralUnsigned);
    reveal_with_fuel(rule_TripleTermSubject, 1);
    reveal_with_fuel(match_TripleTermSubject_1, 1);
    reveal(st_open);
    reveal(st_close);
    reveal(st_advance);
    reveal(st_expect);
    assert(rule_TripleTermSubject(ts, s).evs =~= s.evs + seq![Ev::Open(SyntaxKind::TripleTermSubject), Ev::Open(SyntaxKind::NumericLiteral), Ev::Open(SyntaxKind::NumericLiteralUnsigned), Ev::Advance, Ev::Close, Ev::Close, Ev::Close]);
}

/// On the tokens `ANON` a `TripleTermObject` node holds them, in this order, with the
/// nodes the grammar gives them and no error.
#[verifier::rlimit(100)]
#[verifier::spinoff_prover]
pub proof fn law_TripleTermObject_1(ts: Seq<SyntaxKind>, s: St)
    requires
        peek_at(ts, s.pos + 0) == SyntaxKind::ANON,
    ensures
        rule_TripleTermObject(ts, s) == (St { evs: s.evs + seq![Ev::Open(SyntaxKind::TripleTermObject), Ev::Open(SyntaxKind::BlankNode), Ev::Advance, Ev::Close, Ev::Close], pos: s.pos + 1 }),
{
    reveal(rule_BlankNode);
    reveal_with_fuel(rule_TripleTermObject, 1);
    reveal_with_fuel(match_TripleTermObject_1, 1);
    reveal(st_open);
    reveal(st_close);
    reveal(st_advance);
    reveal(st_expect);
    assert(rule_TripleTermObject(ts, s).evs =~= s.evs + seq![Ev::Open(SyntaxKind::TripleTermObject), Ev::Open(SyntaxKind::BlankNode), Ev::Advance, Ev::Close, Ev::Close]);
}

/// On the tokens `BLANK_NODE_LABEL` a `TripleTermObject` node holds them, in this order, with the
/// nodes the grammar gives them and no error.
#[verifier::rlimit(100)]
#[verifier::spinoff_prover]
pub proof fn law_TripleTermObject_2(ts: Seq<SyntaxKind>, s: St)
    requires
        peek_at(ts, s.pos + 0) == SyntaxKind::BLANK_NODE_LABEL,
    ensures
        rule_TripleTermObject(ts, s) == (St { evs: s.evs + seq![Ev::Open(SyntaxKind::TripleTermObject), Ev::Open(SyntaxKind::BlankNode), Ev::Advance, Ev::Close, Ev::Close], pos: s.pos + 1 }),
{
    reveal(rule_BlankNode);
    reveal_with_fuel(rule_TripleTermObject, 1);
    reveal_with_fuel(match_TripleTermObject_1, 1);
    reveal(st_open);
    reveal(st_close);
    reveal(st_advance);
    reveal(st_expect);
    assert(rule_TripleTermObject(ts, s).evs =~= s.evs + seq![Ev::Open(SyntaxKind::TripleTermObject), Ev::Open(SyntaxKind::BlankNode), Ev::Advance, Ev::Close, Ev::Close]);
}

/// On the tokens `DECIMAL` a `TripleTermObject` node holds them, in this order, with the
/// nodes the grammar gives them and no error.
#[verifier::rlimit(100)]
#[verifier::spinoff_prover]
pub proof fn law_TripleTermObject_3(ts: Seq<SyntaxKind>, s: St)
    requires
        peek_at(ts, s.pos + 0) == SyntaxKind::DECIMAL,
    ensures
        rule_TripleTermObject(ts, s) == (St { evs: s.evs + seq![Ev::Open(SyntaxKind::TripleTermObject), Ev::Open(SyntaxKind::NumericLiteral), Ev::Open(SyntaxKind::NumericLiteralUnsigned), Ev::Advance, Ev::Close, Ev::Close, Ev::Close], pos: s.pos + 1 }),
{
    reveal(rule_NumericLiteral);
    reveal(rule_NumericLiteralUnsigned);
    reveal_with_fuel(rule_TripleTermObject, 1);
    reveal_with_fuel(match_TripleTermObject_1, 1);
    reveal(st_open);
    reveal(st_close);
    reveal(st_advance);
    reveal(st_expect);
    assert(rule_TripleTermObject(ts, s).evs =~= s.evs + seq![Ev::Open(SyntaxKind::TripleTermObject), Ev::Open(SyntaxKind::NumericLiteral), Ev::Open(SyntaxKind::NumericLiteralUnsigned), Ev::Advance, Ev::Close, Ev::Close, Ev::Close]);
}

/// On the tokens `DECIMAL` a `TripleTermDataObject` node holds them, in this order, with the
/// nodes the grammar gives them and no error.
#[verifier::rlimit(100)]
#[verifier::spinoff_prover]
pub proof fn law_TripleTermDataObject_1(ts: Seq<SyntaxKind>, s: St)
    requires
        peek_at(ts, s.pos + 0) == SyntaxKind::DECIMAL,
    ensures
        rule_TripleTermDataObject(ts, s) == (St { evs: s.evs + seq![Ev::Open(SyntaxKind::TripleTermDataObject), Ev::Open(SyntaxKind::NumericLiteral), Ev::Open(SyntaxKind::NumericLiteralUnsigned), Ev::Advance, Ev::Close, Ev::Close, Ev::Close], pos: s.pos + 1 }),
{
    reveal(rule_NumericLiteral);
    reveal(rule_NumericLiteralUnsigned);
    reveal_with_fuel(rule_TripleTermDataObject, 1);
    reveal_with_fuel(match_TripleTermDataObject_1, 1);
    reveal(st_open);
    reveal(st_close);
    reveal(st_advance);
    reveal(st_expect);
    assert(rule_TripleTermDataObject(ts, s).evs =~= s.evs + seq![Ev::Open(SyntaxKind::TripleTermDataObject), Ev::Open(SyntaxKind::NumericLiteral), Ev::Open(SyntaxKind::NumericLiteralUnsigned), Ev::Advance, Ev::Close, Ev::Close, Ev::Close]);
}

/// On the tokens `DECIMAL_NEGATIVE` a `TripleTermDataObject` node holds them, in this order, with the
/// nodes the grammar gives them and no error.
#[verifier::rlimit(100)]
#[verifier::spinoff_prover]
pub proof fn law_TripleTermDataObject_2(ts: Seq<SyntaxKind>, s: St)
    requires
        peek_at(ts, s.pos + 0) == SyntaxKind::DECIMAL_NEGATIVE,
    ensures
        rule_TripleTermDataObject(ts, s) == (St { evs: s.evs + seq![Ev::Open(SyntaxKind::TripleTermDataObject), Ev::Open(SyntaxKind::NumericLiteral), Ev::Open(SyntaxKind::NumericLiteralNegative), Ev::Advance, Ev::Close, Ev::Close, Ev::Close], pos: s.pos + 1 }),
{
    reveal(rule_NumericLiteral);
    reveal(rule_NumericLiteralNegative);
    reveal_with_fuel(rule_TripleTermDataObject, 1);
    reveal_with_fuel(match_TripleTermDataObject_1, 1);
    reveal(st_open);
    reveal(st_close);
    reveal(st_advance);
    reveal(st_expect);
    assert(rule_TripleTermDataObject(ts, s).evs =~= s.evs + seq![Ev::Open(SyntaxKind::TripleTermDataObject), Ev::Open(SyntaxKind::NumericLiteral), Ev::Open(SyntaxKind::NumericLiteralNegative), Ev::Advance, Ev::Close, Ev::Close, Ev::Close]);
}

/// On the tokens `DECIMAL_POSITIVE` a `TripleTermDataObject` node holds them, in this order, with the
/// nodes the grammar gives them and no error.
#[verifier::rlimit(100)]
#[verifier::spinoff_prover]
pub proof fn law_TripleTermDataObject_3(ts: Seq<SyntaxKind>, s: St)
    requires
        peek_at(ts, s.pos + 0) == SyntaxKind::DECIMAL_POSITIVE,
    ensures
        rule_TripleTermDataObject(ts, s) == (St { evs: s.evs + seq![Ev::Open(SyntaxKind::TripleTermDataObject), Ev::Open(SyntaxKind::NumericLiteral), Ev::Open(SyntaxKind::NumericLiteralPositive), Ev::Advance, Ev::Close, Ev::Close, Ev::Close], pos: s.pos + 1 }),
{
    reveal(rule_NumericLiteral);
    reveal(rule_NumericLiteralPositive);
    reveal_with_fuel(rule_TripleTermDataObject, 1);
    reveal_with_fuel(match_TripleTermDataObject_1, 1);
    reveal(st_open);
    reveal(st_close);
    reveal(st_advance);
    reveal(st_expect);
    assert(rule_TripleTermDataObject(ts, s).evs =~= s.evs + seq![Ev::Open(SyntaxKind::TripleTermDataObject), Ev::Open(SyntaxKind::NumericLiteral), Ev::Open(SyntaxKind::NumericLiteralPositive), Ev::Advance, Ev::Close, Ev::Close, Ev::Close]);
}

/// On the tokens `DECIMAL` a `PrimaryExpression` node holds them, in this order, with the
/// nodes the grammar gives them and no error.
#[verifier::rlimit(100)]
#[verifier::spinoff_prover]
pub proof fn law_PrimaryExpression_1(ts: Seq<SyntaxKind>, s: St)
    requires
        peek_at(ts, s.pos + 0) == SyntaxKind::DECIMAL,
    ensures
        rule_PrimaryExpression(ts, s) == (St { evs: s.evs + seq![Ev::Open(SyntaxKind::PrimaryExpression), Ev::Open(SyntaxKind::NumericLiteral), Ev::Open(SyntaxKind::NumericLiteralUnsigned), Ev::Advance, Ev::Close, Ev::Close, Ev::Close], pos: s.pos + 1 }),
{
    reveal(rule_NumericLiteral);
    reveal(rule_NumericLiteralUnsigned);
    reveal_with_fuel(rule_PrimaryExpression, 1);
    reveal_with_fuel(match_PrimaryExpression_1, 1);
    reveal(st_open);
    reveal(st_close);
    reveal(st_advance);
    reveal(st_expect);
    assert(rule_PrimaryExpression(ts, s).evs =~= s.evs + seq![Ev::Open(SyntaxKind::PrimaryExpression), Ev::Open(SyntaxKind::NumericLiteral), Ev::Open(SyntaxKind::NumericLiteralUnsigned), Ev::Advance, Ev::Close, Ev::Close, Ev::Close]);
}

/// On the tokens `DECIMAL_NEGATIVE` a `PrimaryExpression` node holds them, in this order, with the
/// nodes the grammar gives them and no error.
#[verifier::rlimit(100)]
#[verifier::spinoff_prover]
pub proof fn law_PrimaryExpression_2(ts: Seq<SyntaxKind>, s: St)
    requires
        peek_at(ts, s.pos + 0) == SyntaxKind::DECIMAL_NEGATIVE,
    ensures
        rule_PrimaryExpression(ts, s) == (St { evs: s.evs + seq![Ev::Open(SyntaxKind::PrimaryExpression), Ev::Open(SyntaxKind::NumericLiteral), Ev::Open(SyntaxKind::NumericLiteralNegative), Ev::Advance, Ev::Close, Ev::Close, Ev::Close], pos: s.pos + 1 }),
{
    reveal(rule_NumericLiteral);
    reveal(rule_NumericLiteralNegative);
    reveal_with_fuel(rule_PrimaryExpression, 1);
    reveal_with_fuel(match_PrimaryExpression_1, 1);
    reveal(st_open);
    reveal(st_close);
    reveal(st_advance);
    reveal(st_expect);
    assert(rule_PrimaryExpression(ts, s).evs =~= s.evs + seq![Ev::Open(SyntaxKind::PrimaryExpression), Ev::Open(SyntaxKind::NumericLiteral), Ev::Open(SyntaxKind::NumericLiteralNegative), Ev::Advance, Ev::Close, Ev::Close, Ev::Close]);
}

/// On the tokens `DECIMAL_POSITIVE` a `PrimaryExpression` node holds them, in this order, with the
/// nodes the grammar gives them and no error.
#[verifier::rlimit(100)]
#[verifier::spinoff_prover]
pub proof fn law_PrimaryExpression_3(ts: Seq<SyntaxKind>, s: St)
    requires
        peek_at(ts, s.pos + 0) == SyntaxKind::DECIMAL_POSITIVE,
    ensures
        rule_PrimaryExpression(ts, s) == (St { evs: s.evs + seq![Ev::Open(SyntaxKind::PrimaryExpression), Ev::Open(SyntaxKind::NumericLiteral), Ev::Open(SyntaxKind::NumericLiteralPositive), Ev::Advance, Ev::Close, Ev::Close, Ev::Close], pos: s.pos + 1 }),
{
    reveal(rule_NumericLiteral);
    reveal(rule_NumericLiteralPositive);
    reveal_with_fuel(rule_PrimaryExpression, 1);
    reveal_with_fuel(match_PrimaryExpression_1, 1);
    reveal(st_open);
    reveal(st_close);
    reveal(st_advance);
    reveal(st_expect);
    assert(rule_PrimaryExpression(ts, s).evs =~= s.evs + seq![Ev::Open(SyntaxKind::PrimaryExpression), Ev::Open(SyntaxKind::NumericLiteral), Ev::Open(SyntaxKind::NumericLiteralPositive), Ev::Advance, Ev::Close, Ev::Close, Ev::Close]);
}

/// On the tokens `IRIREF` a `iriOrFunction` node holds them, in this order, with the
/// nodes the grammar gives them and no error.
#[verifier::rlimit(100)]
#[verifier::spinoff_prover]
pub proof fn law_iriOrFunction_1(ts: Seq<SyntaxKind>, s: St)
    requires
        peek_at(ts, s.pos + 0) == SyntaxKind::IRIREF,
        !(peek_at(ts, s.pos + 1) == SyntaxKind::LParen || peek_at(ts, s.pos + 1) == SyntaxKind::NIL),
    ensures
        rule_iriOrFunction(ts, s) == (St { evs: s.evs + seq![Ev::Open(SyntaxKind::iriOrFunction), Ev::Open(SyntaxKind::iri), Ev::Advance, Ev::Close, Ev::Close], pos: s.pos + 1 }),
{
    reveal(rule_iri);
    reveal_with_fuel(rule_iriOrFunction, 1);
    reveal_with_fuel(if_iriOrFunction_1, 1);
    reveal(st_open);
    reveal(st_close);
    reveal(st_advance);
    reveal(st_expect);
    assert(rule_iriOrFunction(ts, s).evs =~= s.evs + seq![Ev::Open(SyntaxKind::iriOrFunction), Ev::Open(SyntaxKind::iri), Ev::Advance, Ev::Close, Ev::Close]);
}

/// On the tokens `PNAME_LN` a `iriOrFunction` node holds them, in this order, with the
/// nodes the grammar gives them and no error.
#[verifier::rlimit(100)]
#[verifier::spinoff_prover]
pub proof fn law_iriOrFunction_2(ts: Seq<SyntaxKind>, s: St)
    requires
        peek_at(ts, s.pos + 0) == SyntaxKind::PNAME_LN,
        !(peek_at(ts, s.pos + 1) == SyntaxKind::LParen || peek_at(ts, s.pos + 1) == SyntaxKind::NIL),
    ensures
        rule_iriOrFunction(ts, s) == (St { evs: s.evs + seq![Ev::Open(SyntaxKind::iriOrFunction), Ev::Open(SyntaxKind::iri), Ev::Open(SyntaxKind::PrefixedName), Ev::Advance, Ev::Close, Ev::Close, Ev::Close], pos: s.pos + 1 }),
{
    reveal(rule_PrefixedName);
    reveal(rule_iri);
    reveal_with_fuel(rule_iriOrFunction, 1);
    reveal_with_fuel(if_iriOrFunction_1, 1);
    reveal(st_open);
    reveal(st_close);
    reveal(st_advance);
    reveal(st_expect);
    assert(rule_iriOrFunction(ts, s).evs =~= s.evs + seq![Ev::Open(SyntaxKind::iriOrFunction), Ev::Open(SyntaxKind::iri), Ev::Open(SyntaxKind::PrefixedName), Ev::Advance, Ev::Close, Ev::Close, Ev::Close]);
}

/// On the tokens `PNAME_NS` a `iriOrFunction` node holds them, in this order, with the
/// nodes the grammar gives them and no error.
#[verifier::rlimit(100)]
#[verifier::spinoff_prover]
pub proof fn law_iriOrFunction_3(ts: Seq<SyntaxKind>, s: St)
    requires
        peek_at(ts, s.pos + 0) == SyntaxKind::PNAME_NS,
        !(peek_at(ts, s.pos + 1) == SyntaxKind::LParen || peek_at(ts, s.pos + 1) == SyntaxKind::NIL),
    ensures
        rule_iriOrFunction(ts, s) == (St { evs: s.evs + seq![Ev::Open(SyntaxKind::iriOrFunction), Ev::Open(SyntaxKind::iri), Ev::Open(SyntaxKind::PrefixedName), Ev::Advance, Ev::Close, Ev::Close, Ev::Close], pos: s.pos + 1 }),
{
    reveal(rule_PrefixedName);
    reveal(rule_iri);
    reveal_with_fuel(rule_iriOrFunction, 1);
    reveal_with_fuel(if_iriOrFunction_1, 1);
    reveal(st_open);
    reveal(st_close);
    reveal(st_advance);
    reveal(st_expect);
    assert(rule_iriOrFunction(ts, s).evs =~= s.evs + seq![Ev::Open(SyntaxKind::iriOrFunction), Ev::Open(SyntaxKind::iri), Ev::Open(SyntaxKind::PrefixedName), Ev::Advance, Ev::Close, Ev::Close, Ev::Close]);
}

/// On the tokens `DoubleLessLParen` `IRIREF` `a` `IRIREF` `RParenDoubleMore` a `ExprTripleTerm` node holds them, in this order, with the
/// nodes the grammar gives them and no error.
#[verifier::rlimit(100)]
#[verifier::spinoff_prover]
pub proof fn law_ExprTripleTerm_1(ts: Seq<SyntaxKind>, s: St)
    requires
        peek_at(ts, s.pos + 0) == SyntaxKind::DoubleLessLParen,
        peek_at(ts, s.pos + 1) == SyntaxKind::IRIREF,
        peek_at(ts, s.pos + 2) == SyntaxKind::a,
        peek_at(ts, s.pos + 3) == SyntaxKind::IRIREF,
        peek_at(ts, s.pos + 4) == SyntaxKind::RParenDoubleMore,
    ensures
        rule_ExprTripleTerm(ts, s) == (St { evs: s.evs + seq![Ev::Open(SyntaxKind::ExprTripleTerm), Ev::Advance, Ev::Open(SyntaxKind::ExprTripleTermSubject), Ev::Open(SyntaxKind::iri), Ev::Advance, Ev::Close, Ev::Close, Ev::Open(SyntaxKind::Verb), Ev::Advance, Ev::Close, Ev::Open(SyntaxKind::ExprTripleTermObject), Ev::Open(SyntaxKind::iri), Ev::Advance, Ev::Close, Ev::Close, Ev::Advance, Ev::Close], pos: s.pos + 5 }),
{
    reveal_with_fuel(rule_ExprTripleTerm, 1);
    reveal_with_fuel(rule_ExprTripleTermObject, 1);
    reveal_with_fuel(match_ExprTripleTermObject_1, 1);
    reveal(rule_ExprTripleTermSubject);
    reveal(rule_Verb);
    reveal(rule_iri);
    reveal(st_open);
    reveal(st_close);
    reveal(st_advance);
    reveal(st_expect);
    assert(rule_ExprTripleTerm(ts, s).evs =~= s.evs + seq![Ev::Open(SyntaxKind::ExprTripleTerm), Ev::Advance, Ev::Open(SyntaxKind::ExprTripleTermSubject), Ev::Open(SyntaxKind::iri), Ev::Advance, Ev::Close, Ev::Close, Ev::Open(SyntaxKind::Verb), Ev::Advance, Ev::Close, Ev::Open(SyntaxKind::ExprTripleTermObject), Ev::Open(SyntaxKind::iri), Ev::Advance, Ev::Close, Ev::Close, Ev::Advance, Ev::Close]);
}

/// On the tokens `DECIMAL` a `ExprTripleTermObject` node holds them, in this order, with the
/// nodes the grammar gives them and no error.
#[verifier::rlimit(100)]
#[verifier::spinoff_prover]
pub proof fn law_ExprTripleTermObject_1(ts: Seq<SyntaxKind>, s: St)
    requires
        peek_at(ts, s.pos + 0) == SyntaxKind::DECIMAL,
    ensures
        rule_ExprTripleTermObject(ts, s) == (St { evs: s.evs + seq![Ev::Open(SyntaxKind::ExprTripleTermObject), Ev::Open(SyntaxKind::NumericLiteral), Ev::Open(SyntaxKind::NumericLiteralUnsigned), Ev::Advance, Ev::Close, Ev::Close, Ev::Close], pos: s.pos + 1 }),
{
    reveal_with_fuel(rule_ExprTripleTermObject, 1);
    reveal_with_fuel(match_ExprTripleTermObject_1, 1);
    reveal(rule_NumericLiteral);
    reveal(rule_NumericLiteralUnsigned);
    reveal(st_open);
    reveal(st_close);
    reveal(st_advance);
    reveal(st_expect);
    assert(rule_ExprTripleTermObject(ts, s).evs =~= s.evs + seq![Ev::Open(SyntaxKind::ExprTripleTermObject), Ev::Open(SyntaxKind::NumericLiteral), Ev::Open(SyntaxKind::NumericLiteralUnsigned), Ev::Advance, Ev::Close, Ev::Close, Ev::Close]);
}

/// On the tokens `DECIMAL_NEGATIVE` a `ExprTripleTermObject` node holds them, in this order, with the
/// nodes the grammar gives them and no error.
#[verifier::rlimit(100)]
#[verifier::spinoff_prover]
pub proof fn law_ExprTripleTermObject_2(ts: Seq<SyntaxKind>, s: St)
    requires
        peek_at(ts, s.pos + 0) == SyntaxKind::DECIMAL_NEGATIVE,
    ensures
        rule_ExprTripleTermObject(ts, s) == (St { evs: s.evs + seq![Ev::Open(SyntaxKind::ExprTripleTermObject), Ev::Open(SyntaxKind::NumericLiteral), Ev::Open(SyntaxKind::NumericLiteralNegative), Ev::Advance, Ev::Close, Ev::Close, Ev::Close], pos: s.pos + 1 }),
{
    reveal_with_fuel(rule_ExprTripleTermObject, 1);
    reveal_with_fuel(match_ExprTripleTermObject_1, 1);
    reveal(rule_NumericLiteral);
    reveal(rule_NumericLiteralNegative);
    reveal(st_open);
    reveal(st_close);
    reveal(st_advance);
    reveal(st_expect);
    assert(rule_ExprTripleTermObject(ts, s).evs =~= s.evs + seq![Ev::Open(SyntaxKind::ExprTripleTermObject), Ev::Open(SyntaxKind::NumericLiteral), Ev::Open(SyntaxKind::NumericLiteralNegative), Ev::Advance, Ev::Close, Ev::Close, Ev::Close]);
}

/// On the tokens `DECIMAL_POSITIVE` a `ExprTripleTermObject` node holds them, in this order, with the
/// nodes the grammar gives them and no error.
#[verifier::rlimit(100)]
#[verifier::spinoff_prover]
pub proof fn law_ExprTripleTermObject_3(ts: Seq<SyntaxKind>, s: St)
    requires
        peek_at(ts, s.pos + 0) == SyntaxKind::DECIMAL_POSITIVE,
    ensures
        rule_ExprTripleTermObject(ts, s) == (St { evs: s.evs + seq![Ev::Open(SyntaxKind::ExprTripleTermObject), Ev::Open(SyntaxKind::NumericLiteral), Ev::Open(SyntaxKind::NumericLiteralPositive), Ev::Advance, Ev::Close, Ev::Close, Ev::Close], pos: s.pos + 1 }),
{
    reveal_with_fuel(rule_ExprTripleTermObject, 1);
    reveal_with_fuel(match_ExprTripleTermObject_1, 1);
    reveal(rule_NumericLiteral);
    reveal(rule_NumericLiteralPositive);
    reveal(st_open);
    reveal(st_close);
    reveal(st_advance);
    reveal(st_expect);
    assert(rule_ExprTripleTermObject(ts, s).evs =~= s.evs + seq![Ev::Open(SyntaxKind::ExprTripleTermObject), Ev::Open(SyntaxKind::NumericLiteral), Ev::Open(SyntaxKind::NumericLiteralPositive), Ev::Advance, Ev::Close, Ev::Close, Ev::Close]);
}

/// On the tokens `COUNT` `LParen` `Star` `RParen` a `Aggregate` node holds them, in this order, with the
/// nodes the grammar gives them and no error.
#[verifier::rlimit(100)]
#[verifier::spinoff_prover]
pub proof fn law_Aggregate_1(ts: Seq<SyntaxKind>, s: St)
    requires
        peek_at(ts, s.pos + 0) == SyntaxKind::COUNT,
        peek_at(ts, s.pos + 1) == SyntaxKind::LParen,
        peek_at(ts, s.pos + 2) == SyntaxKind::Star,
        peek_at(ts, s.pos + 3) == SyntaxKind::RParen,
    ensures
        rule_Aggregate(ts, s) == (St { evs: s.evs + seq![Ev::Open(SyntaxKind::Aggregate), Ev::Advance, Ev::Advance, Ev::Advance, Ev::Advance, Ev::Close], pos: s.pos + 4 }),
{
    reveal_with_fuel(rule_Aggregate, 1);
    reveal_with_fuel(if_Aggregate_2, 1);
    reveal_with_fuel(match_Aggregate_3, 1);
    reveal_with_fuel(if_Aggregate_4, 1);
    reveal_with_fuel(if_Aggregate_5, 1);
    reveal_with_fuel(if_Aggregate_6, 1);
    reveal_with_fuel(if_Aggregate_7, 1);
    reveal_with_fuel(if_Aggregate_8, 1);
    reveal_with_fuel(if_Aggregate_9, 1);
    reveal_with_fuel(if_Aggregate_10, 1);
    reveal_with_fuel(match_Aggregate_1, 1);
    reveal(st_open);
    reveal(st_close);
    reveal(st_advance);
    reveal(st_expect);
    assert(rule_Aggregate(ts, s).evs =~= s.evs + seq![Ev::Open(SyntaxKind::Aggregate), Ev::Advance, Ev::Advance, Ev::Advance, Ev::Advance, Ev::Close]);
}
} // verus!
