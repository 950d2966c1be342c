//! The SPARQL lexer.
//!
//! At every position the lexer takes the longest token that starts there
//! (the first of several of equal length). Keywords are matched without
//! regard to case and only where no name character follows them. Where no
//! token starts, a run of name characters (or else one character) becomes an
//! `Error` token. The tokens together spell out the whole input.

use vstd::prelude::*;

use crate::parser::Token;
use crate::syntax_kind::SyntaxKind;

verus! {

/* ---------------------------------------------------------------------------
   Character classes
   ------------------------------------------------------------------------ */

pub open spec fn is_digit(c: char) -> bool {
    '0' <= c && c <= '9'
}

pub open spec fn is_alpha(c: char) -> bool {
    ('a' <= c && c <= 'z') || ('A' <= c && c <= 'Z')
}

pub open spec fn is_hex(c: char) -> bool {
    is_digit(c) || ('a' <= c && c <= 'f') || ('A' <= c && c <= 'F')
}

/// Whitespace between tokens.
pub open spec fn is_ws(c: char) -> bool {
    c == ' ' || c == '\t' || c == '\n' || c == '\x0C'
}

/// Whitespace inside `( )` and `[ ]`.
pub open spec fn is_sparql_ws(c: char) -> bool {
    c == ' ' || c == '\t' || c == '\r' || c == '\n'
}

pub open spec fn is_pn_chars_base(c: char) -> bool {
    let v = c as u32;
    ||| is_alpha(c)
    ||| (0xC0 <= v && v <= 0xD6)
    ||| (0xD8 <= v && v <= 0xF6)
    ||| (0xF8 <= v && v <= 0x2FF)
    ||| (0x370 <= v && v <= 0x37D)
    ||| (0x37F <= v && v <= 0x1FFF)
    ||| (0x200C <= v && v <= 0x200D)
    ||| (0x2070 <= v && v <= 0x218F)
    ||| (0x2C00 <= v && v <= 0x2FEF)
    ||| (0x3001 <= v && v <= 0xD7FF)
    ||| (0xF900 <= v && v <= 0xFDCF)
    ||| (0xFDF0 <= v && v <= 0xFFFD)
    ||| (0x10000 <= v && v <= 0xEFFFF)
}

pub open spec fn is_pn_chars_u(c: char) -> bool {
    is_pn_chars_base(c) || c == '_'
}

/// The characters that may follow the first one in a variable name.
pub open spec fn is_varname_char(c: char) -> bool {
    let v = c as u32;
    is_pn_chars_u(c) || is_digit(c) || v == 0xB7 || (0x300 <= v && v <= 0x36F) || (0x203F <= v
        && v <= 0x2040)
}

pub open spec fn is_pn_chars(c: char) -> bool {
    is_varname_char(c) || c == '-'
}

/// Characters allowed between `<` and `>` of an IRI.
pub open spec fn is_iri_char(c: char) -> bool {
    (c as u32) > 0x20 && c != '<' && c != '>' && c != '"' && c != '{' && c != '}' && c != '|'
        && c != '^' && c != '`' && c != '\\'
}

/// Characters that may be escaped with `\` in a local name.
pub open spec fn is_local_esc(c: char) -> bool {
    c == '_' || c == '~' || c == '.' || c == '-' || c == '!' || c == '$' || c == '&' || c == '\''
        || c == '(' || c == ')' || c == '*' || c == '+' || c == ',' || c == ';' || c == '='
        || c == '/' || c == '?' || c == '#' || c == '@' || c == '%'
}

/// Characters that may be escaped with `\` in a string.
pub open spec fn is_echar(c: char) -> bool {
    c == 't' || c == 'b' || c == 'n' || c == 'r' || c == 'f' || c == '\\' || c == '"' || c == '\''
}

pub const WS: u8 = 0;
pub const DIGIT: u8 = 1;
pub const ALPHA: u8 = 2;
pub const ALNUM: u8 = 3;
pub const VARNAME: u8 = 4;
pub const IRI: u8 = 5;
pub const NOT_NEWLINE: u8 = 6;
pub const SPARQL_WS: u8 = 7;
pub const PN_CHARS: u8 = 8;

pub open spec fn in_class(id: u8, c: char) -> bool {
    if id == WS {
        is_ws(c)
    } else if id == DIGIT {
        is_digit(c)
    } else if id == ALPHA {
        is_alpha(c)
    } else if id == ALNUM {
        is_alpha(c) || is_digit(c)
    } else if id == VARNAME {
        is_varname_char(c)
    } else if id == IRI {
        is_iri_char(c)
    } else if id == NOT_NEWLINE {
        c != '\n'
    } else if id == SPARQL_WS {
        is_sparql_ws(c)
    } else {
        is_pn_chars(c)
    }
}

fn digit(c: char) -> (r: bool)
    ensures
        r == is_digit(c),
{
    '0' <= c && c <= '9'
}

fn alpha(c: char) -> (r: bool)
    ensures
        r == is_alpha(c),
{
    ('a' <= c && c <= 'z') || ('A' <= c && c <= 'Z')
}

fn hex(c: char) -> (r: bool)
    ensures
        r == is_hex(c),
{
    digit(c) || ('a' <= c && c <= 'f') || ('A' <= c && c <= 'F')
}

fn pn_chars_base(c: char) -> (r: bool)
    ensures
        r == is_pn_chars_base(c),
{
    let v = c as u32;
    alpha(c) || (0xC0 <= v && v <= 0xD6) || (0xD8 <= v && v <= 0xF6) || (0xF8 <= v && v <= 0x2FF)
        || (0x370 <= v && v <= 0x37D) || (0x37F <= v && v <= 0x1FFF) || (0x200C <= v && v
        <= 0x200D) || (0x2070 <= v && v <= 0x218F) || (0x2C00 <= v && v <= 0x2FEF) || (0x3001
        <= v && v <= 0xD7FF) || (0xF900 <= v && v <= 0xFDCF) || (0xFDF0 <= v && v <= 0xFFFD)
        || (0x10000 <= v && v <= 0xEFFFF)
}

fn pn_chars_u(c: char) -> (r: bool)
    ensures
        r == is_pn_chars_u(c),
{
    pn_chars_base(c) || c == '_'
}

fn varname_char(c: char) -> (r: bool)
    ensures
        r == is_varname_char(c),
{
    let v = c as u32;
    pn_chars_u(c) || digit(c) || v == 0xB7 || (0x300 <= v && v <= 0x36F) || (0x203F <= v && v
        <= 0x2040)
}

fn pn_chars(c: char) -> (r: bool)
    ensures
        r == is_pn_chars(c),
{
    varname_char(c) || c == '-'
}

fn local_esc(c: char) -> (r: bool)
    ensures
        r == is_local_esc(c),
{
    c == '_' || c == '~' || c == '.' || c == '-' || c == '!' || c == '$' || c == '&' || c == '\''
        || c == '(' || c == ')' || c == '*' || c == '+' || c == ',' || c == ';' || c == '='
        || c == '/' || c == '?' || c == '#' || c == '@' || c == '%'
}

fn echar(c: char) -> (r: bool)
    ensures
        r == is_echar(c),
{
    c == 't' || c == 'b' || c == 'n' || c == 'r' || c == 'f' || c == '\\' || c == '"' || c == '\''
}

fn class(id: u8, c: char) -> (r: bool)
    ensures
        r == in_class(id, c),
{
    if id == WS {
        c == ' ' || c == '\t' || c == '\n' || c == '\x0C'
    } else if id == DIGIT {
        digit(c)
    } else if id == ALPHA {
        alpha(c)
    } else if id == ALNUM {
        alpha(c) || digit(c)
    } else if id == VARNAME {
        varname_char(c)
    } else if id == IRI {
        (c as u32) > 0x20 && c != '<' && c != '>' && c != '"' && c != '{' && c != '}' && c != '|'
            && c != '^' && c != '`' && c != '\\'
    } else if id == NOT_NEWLINE {
        c != '\n'
    } else if id == SPARQL_WS {
        c == ' ' || c == '\t' || c == '\r' || c == '\n'
    } else {
        pn_chars(c)
    }
}

/// `s[i] == c`, false outside of `s`.
pub open spec fn at(s: Seq<char>, i: int, c: char) -> bool {
    0 <= i < s.len() && s[i] == c
}

fn at_exec(s: &Vec<char>, i: usize, c: char) -> (r: bool)
    ensures
        r == at(s@, i as int, c),
{
    i < s.len() && s[i] == c
}

/* ---------------------------------------------------------------------------
   Runs of characters
   ------------------------------------------------------------------------ */

/// The length of the longest run of characters of a class starting at `i`.
pub open spec fn run(s: Seq<char>, i: int, id: u8) -> nat
    decreases s.len() - i,
{
    if 0 <= i < s.len() && in_class(id, s[i]) {
        1 + run(s, i + 1, id)
    } else {
        0
    }
}

pub proof fn lemma_run_bound(s: Seq<char>, i: int, id: u8)
    requires
        0 <= i,
    ensures
        i + run(s, i, id) <= s.len() || run(s, i, id) == 0,
    decreases s.len() - i,
{
    if 0 <= i < s.len() && in_class(id, s[i]) {
        lemma_run_bound(s, i + 1, id);
    }
}

fn run_exec(s: &Vec<char>, i: usize, id: u8) -> (r: usize)
    requires
        i <= s.len(),
    ensures
        r == run(s@, i as int, id),
        i + r <= s.len(),
{
    let mut j = i;
    while j < s.len() && class(id, s[j])
        invariant
            i <= j <= s.len(),
            run(s@, i as int, id) == (j - i) + run(s@, j as int, id),
        decreases s.len() - j,
    {
        j = j + 1;
    }
    j - i
}

/// The longest prefix at `i` of the form `(PN_CHARS | '.')* PN_CHARS`.
pub open spec fn pn_tail(s: Seq<char>, i: int) -> nat
    decreases s.len() - i,
{
    if 0 <= i < s.len() && (is_pn_chars(s[i]) || s[i] == '.') {
        let r = pn_tail(s, i + 1);
        if r > 0 {
            1 + r
        } else if s[i] != '.' {
            1
        } else {
            0
        }
    } else {
        0
    }
}

fn pn_tail_exec(s: &Vec<char>, i: usize) -> (r: usize)
    requires
        i <= s.len(),
    ensures
        r == pn_tail(s@, i as int),
        i + r <= s.len(),
{
    let mut j = i;
    let mut best = i;
    while j < s.len() && (pn_chars(s[j]) || s[j] == '.')
        invariant
            i <= best <= j <= s.len(),
            pn_tail(s@, i as int) == if pn_tail(s@, j as int) > 0 {
                (j + pn_tail(s@, j as int)) - i
            } else {
                best - i
            },
        decreases s.len() - j,
    {
        if s[j] != '.' {
            best = j + 1;
        }
        j = j + 1;
    }
    best - i
}

/// The length of one unit of a local name at `i`: an escape, a `%` with two
/// hex digits, or a single character that may follow the first one.
pub open spec fn local_unit(s: Seq<char>, i: int) -> nat {
    if at(s, i, '%') && i + 2 < s.len() && is_hex(s[i + 1]) && is_hex(s[i + 2]) {
        3
    } else if at(s, i, '\\') && i + 1 < s.len() && is_local_esc(s[i + 1]) {
        2
    } else if 0 <= i < s.len() && (is_pn_chars(s[i]) || s[i] == '.' || s[i] == ':') {
        1
    } else {
        0
    }
}

/// The same for the first unit of a local name.
pub open spec fn local_first(s: Seq<char>, i: int) -> nat {
    if at(s, i, '%') && i + 2 < s.len() && is_hex(s[i + 1]) && is_hex(s[i + 2]) {
        3
    } else if at(s, i, '\\') && i + 1 < s.len() && is_local_esc(s[i + 1]) {
        2
    } else if 0 <= i < s.len() && (is_pn_chars_u(s[i]) || s[i] == ':' || is_digit(s[i])) {
        1
    } else {
        0
    }
}

/// The longest sequence of local-name units at `i` that does not end with `.`.
pub open spec fn local_tail(s: Seq<char>, i: int) -> nat
    decreases s.len() - i,
{
    let u = local_unit(s, i);
    if u == 0 || i < 0 {
        0
    } else {
        let r = local_tail(s, i + u);
        if r > 0 {
            u + r
        } else if s[i] != '.' {
            u
        } else {
            0
        }
    }
}

fn local_unit_exec(s: &Vec<char>, i: usize) -> (r: usize)
    requires
        i <= s.len(),
    ensures
        r == local_unit(s@, i as int),
{
    if at_exec(s, i, '%') && s.len() - i > 2 && hex(s[i + 1]) && hex(s[i + 2]) {
        3
    } else if at_exec(s, i, '\\') && s.len() - i > 1 && local_esc(s[i + 1]) {
        2
    } else if i < s.len() && (pn_chars(s[i]) || s[i] == '.' || s[i] == ':') {
        1
    } else {
        0
    }
}

fn local_first_exec(s: &Vec<char>, i: usize) -> (r: usize)
    requires
        i <= s.len(),
    ensures
        r == local_first(s@, i as int),
{
    if at_exec(s, i, '%') && s.len() - i > 2 && hex(s[i + 1]) && hex(s[i + 2]) {
        3
    } else if at_exec(s, i, '\\') && s.len() - i > 1 && local_esc(s[i + 1]) {
        2
    } else if i < s.len() && (pn_chars_u(s[i]) || s[i] == ':' || digit(s[i])) {
        1
    } else {
        0
    }
}

fn local_tail_exec(s: &Vec<char>, i: usize) -> (r: usize)
    requires
        i <= s.len(),
    ensures
        r == local_tail(s@, i as int),
        i + r <= s.len(),
{
    let mut j = i;
    let mut best = i;
    loop
        invariant
            i <= best <= j <= s.len(),
            local_tail(s@, i as int) == if local_tail(s@, j as int) > 0 {
                (j + local_tail(s@, j as int)) - i
            } else {
                best - i
            },
        decreases s.len() - j,
    {
        let u = local_unit_exec(s, j);
        if u == 0 {
            return best - i;
        }
        if s[j] != '.' {
            best = j + u;
        }
        j = j + u;
    }
}

/* ---------------------------------------------------------------------------
   Terminals
   ------------------------------------------------------------------------ */

/// `#` up to the end of the line.
pub open spec fn comment_len(s: Seq<char>, i: int) -> nat {
    if at(s, i, '#') {
        1 + run(s, i + 1, NOT_NEWLINE)
    } else {
        0
    }
}

/// `<` IRI characters `>`.
pub open spec fn iri_len(s: Seq<char>, i: int) -> nat {
    if at(s, i, '<') && at(s, i + 1 + run(s, i + 1, IRI), '>') {
        run(s, i + 1, IRI) + 2
    } else {
        0
    }
}

/// An opening bracket, whitespace and the closing bracket: `NIL` and `ANON`.
pub open spec fn empty_brackets_len(s: Seq<char>, i: int, open: char, close: char) -> nat {
    if at(s, i, open) && at(s, i + 1 + run(s, i + 1, SPARQL_WS), close) {
        run(s, i + 1, SPARQL_WS) + 2
    } else {
        0
    }
}

/// `?name` or `$name`.
pub open spec fn var_len(s: Seq<char>, i: int, sigil: char) -> nat {
    if at(s, i, sigil) && i + 1 < s.len() && (is_pn_chars_u(s[i + 1]) || is_digit(s[i + 1])) {
        2 + run(s, i + 2, VARNAME)
    } else {
        0
    }
}

/// `_:` label.
pub open spec fn blank_len(s: Seq<char>, i: int) -> nat {
    if at(s, i, '_') && at(s, i + 1, ':') && i + 2 < s.len() && (is_pn_chars_u(s[i + 2])
        || is_digit(s[i + 2])) {
        3 + pn_tail(s, i + 3)
    } else {
        0
    }
}

/// The prefix with its `:`, i.e. a `PNAME_NS`.
pub open spec fn pname_ns_len(s: Seq<char>, i: int) -> nat {
    if at(s, i, ':') {
        1
    } else if 0 <= i < s.len() && is_pn_chars_base(s[i]) && at(s, i + 1 + pn_tail(s, i + 1), ':') {
        pn_tail(s, i + 1) + 2
    } else {
        0
    }
}

/// A `PNAME_NS` followed by a local name, i.e. a `PNAME_LN`.
pub open spec fn pname_ln_len(s: Seq<char>, i: int) -> nat {
    let ns = pname_ns_len(s, i);
    let f = local_first(s, i + ns);
    if ns > 0 && f > 0 {
        ns + f + local_tail(s, i + ns + f)
    } else {
        0
    }
}

/// Where a string in short quotes ends (after its closing quote), `-1` when
/// it does not end.
pub open spec fn short_string_end(s: Seq<char>, i: int, q: char) -> int
    decreases s.len() - i,
{
    if i < 0 || i >= s.len() {
        -1
    } else if s[i] == q {
        i + 1
    } else if s[i] == '\\' {
        if i + 1 < s.len() && is_echar(s[i + 1]) {
            short_string_end(s, i + 2, q)
        } else {
            -1
        }
    } else if s[i] == '\n' || s[i] == '\r' {
        -1
    } else {
        short_string_end(s, i + 1, q)
    }
}

/// Where a string in triple quotes ends, `-1` when it does not end.
pub open spec fn long_string_end(s: Seq<char>, i: int, q: char) -> int
    decreases s.len() - i,
{
    if i < 0 || i >= s.len() {
        -1
    } else if i + 2 < s.len() && s[i] == q && s[i + 1] == q && s[i + 2] == q {
        i + 3
    } else if s[i] == '\\' {
        if i + 1 < s.len() && is_echar(s[i + 1]) {
            long_string_end(s, i + 2, q)
        } else {
            -1
        }
    } else {
        long_string_end(s, i + 1, q)
    }
}

pub open spec fn short_string_len(s: Seq<char>, i: int, q: char) -> nat {
    if at(s, i, q) && short_string_end(s, i + 1, q) >= 0 {
        (short_string_end(s, i + 1, q) - i) as nat
    } else {
        0
    }
}

pub open spec fn long_string_len(s: Seq<char>, i: int, q: char) -> nat {
    if at(s, i, q) && at(s, i + 1, q) && at(s, i + 2, q) && long_string_end(s, i + 3, q) >= 0 {
        (long_string_end(s, i + 3, q) - i) as nat
    } else {
        0
    }
}

/// `e` or `E`, an optional sign and digits.
pub open spec fn exponent_len(s: Seq<char>, j: int) -> nat {
    if at(s, j, 'e') || at(s, j, 'E') {
        let k = if at(s, j + 1, '+') || at(s, j + 1, '-') {
            j + 2
        } else {
            j + 1
        };
        if run(s, k, DIGIT) > 0 {
            ((k - j) + run(s, k, DIGIT)) as nat
        } else {
            0
        }
    } else {
        0
    }
}

/// The longest unsigned number at `i`: `INTEGER`, `DECIMAL` or `DOUBLE`.
pub open spec fn unsigned_number(s: Seq<char>, i: int) -> (SyntaxKind, nat) {
    let d1 = run(s, i, DIGIT);
    if at(s, i + d1, '.') {
        let d2 = run(s, i + d1 + 1, DIGIT);
        let e = exponent_len(s, i + d1 + 1 + d2);
        if e > 0 && (d1 > 0 || d2 > 0) {
            (SyntaxKind::DOUBLE, d1 + 1 + d2 + e)
        } else if d2 > 0 {
            (SyntaxKind::DECIMAL, d1 + 1 + d2)
        } else if d1 > 0 {
            (SyntaxKind::INTEGER, d1)
        } else {
            (SyntaxKind::Error, 0)
        }
    } else if d1 > 0 {
        let e = exponent_len(s, i + d1);
        if e > 0 {
            (SyntaxKind::DOUBLE, d1 + e)
        } else {
            (SyntaxKind::INTEGER, d1)
        }
    } else {
        (SyntaxKind::Error, 0)
    }
}

pub open spec fn positive_kind(k: SyntaxKind) -> SyntaxKind {
    match k {
        SyntaxKind::INTEGER => SyntaxKind::INTEGER_POSITIVE,
        SyntaxKind::DECIMAL => SyntaxKind::DECIMAL_POSITIVE,
        _ => SyntaxKind::DOUBLE_POSITIVE,
    }
}

pub open spec fn negative_kind(k: SyntaxKind) -> SyntaxKind {
    match k {
        SyntaxKind::INTEGER => SyntaxKind::INTEGER_NEGATIVE,
        SyntaxKind::DECIMAL => SyntaxKind::DECIMAL_NEGATIVE,
        _ => SyntaxKind::DOUBLE_NEGATIVE,
    }
}

/// A number with an optional sign.
pub open spec fn number(s: Seq<char>, i: int) -> (SyntaxKind, nat) {
    if at(s, i, '+') && unsigned_number(s, i + 1).1 > 0 {
        (positive_kind(unsigned_number(s, i + 1).0), unsigned_number(s, i + 1).1 + 1)
    } else if at(s, i, '-') && unsigned_number(s, i + 1).1 > 0 {
        (negative_kind(unsigned_number(s, i + 1).0), unsigned_number(s, i + 1).1 + 1)
    } else {
        unsigned_number(s, i)
    }
}

/// `-` subtags after a language.
pub open spec fn subtags_len(s: Seq<char>, j: int) -> nat
    decreases s.len() - j,
{
    if at(s, j, '-') && run(s, j + 1, ALNUM) > 0 {
        proof {
            lemma_run_bound(s, j + 1, ALNUM);
        }
        1 + run(s, j + 1, ALNUM) + subtags_len(s, j + 1 + run(s, j + 1, ALNUM))
    } else {
        0
    }
}

/// `@lang-tags` (`LANGTAG`) and `@lang-tags--dir` (`LANG_DIR`).
pub open spec fn language(s: Seq<char>, i: int) -> (SyntaxKind, nat) {
    let a = run(s, i + 1, ALPHA);
    if at(s, i, '@') && a > 0 {
        let e = i + 1 + a + subtags_len(s, i + 1 + a);
        if at(s, e, '-') && at(s, e + 1, '-') && run(s, e + 2, ALPHA) > 0 {
            (SyntaxKind::LANG_DIR, ((e + 2 + run(s, e + 2, ALPHA)) - i) as nat)
        } else {
            (SyntaxKind::LANGTAG, (e - i) as nat)
        }
    } else {
        (SyntaxKind::Error, 0)
    }
}

/// The longest punctuation token at `i`.
pub open spec fn punctuation(s: Seq<char>, i: int) -> (SyntaxKind, nat) {
    if at(s, i, '<') && at(s, i + 1, '<') && at(s, i + 2, '(') {
        (SyntaxKind::DoubleLessLParen, 3)
    } else if at(s, i, ')') && at(s, i + 1, '>') && at(s, i + 2, '>') {
        (SyntaxKind::RParenDoubleMore, 3)
    } else if at(s, i, '|') && at(s, i + 1, '|') {
        (SyntaxKind::DoublePipe, 2)
    } else if at(s, i, '^') && at(s, i + 1, '^') {
        (SyntaxKind::DoubleZirkumflex, 2)
    } else if at(s, i, '&') && at(s, i + 1, '&') {
        (SyntaxKind::DoubleAnd, 2)
    } else if at(s, i, '!') && at(s, i + 1, '=') {
        (SyntaxKind::ExclamationMarkEquals, 2)
    } else if at(s, i, '<') && at(s, i + 1, '=') {
        (SyntaxKind::LessEquals, 2)
    } else if at(s, i, '>') && at(s, i + 1, '=') {
        (SyntaxKind::MoreEquals, 2)
    } else if at(s, i, '<') && at(s, i + 1, '<') {
        (SyntaxKind::DoubleLess, 2)
    } else if at(s, i, '>') && at(s, i + 1, '>') {
        (SyntaxKind::DoubleMore, 2)
    } else if at(s, i, '{') && at(s, i + 1, '|') {
        (SyntaxKind::LCurlyPipe, 2)
    } else if at(s, i, '|') && at(s, i + 1, '}') {
        (SyntaxKind::PipeRCurly, 2)
    } else if at(s, i, '*') {
        (SyntaxKind::Star, 1)
    } else if at(s, i, '+') {
        (SyntaxKind::Plus, 1)
    } else if at(s, i, '-') {
        (SyntaxKind::Minus, 1)
    } else if at(s, i, '(') {
        (SyntaxKind::LParen, 1)
    } else if at(s, i, ')') {
        (SyntaxKind::RParen, 1)
    } else if at(s, i, '{') {
        (SyntaxKind::LCurly, 1)
    } else if at(s, i, '}') {
        (SyntaxKind::RCurly, 1)
    } else if at(s, i, '[') {
        (SyntaxKind::LBrack, 1)
    } else if at(s, i, ']') {
        (SyntaxKind::RBrack, 1)
    } else if at(s, i, '.') {
        (SyntaxKind::Dot, 1)
    } else if at(s, i, ',') {
        (SyntaxKind::Comma, 1)
    } else if at(s, i, ';') {
        (SyntaxKind::Semicolon, 1)
    } else if at(s, i, '|') {
        (SyntaxKind::Pipe, 1)
    } else if at(s, i, '/') {
        (SyntaxKind::Slash, 1)
    } else if at(s, i, '^') {
        (SyntaxKind::Zirkumflex, 1)
    } else if at(s, i, '?') {
        (SyntaxKind::QuestionMark, 1)
    } else if at(s, i, '!') {
        (SyntaxKind::ExclamationMark, 1)
    } else if at(s, i, '=') {
        (SyntaxKind::Equals, 1)
    } else if at(s, i, '<') {
        (SyntaxKind::Less, 1)
    } else if at(s, i, '>') {
        (SyntaxKind::More, 1)
    } else if at(s, i, '~') {
        (SyntaxKind::Tilde, 1)
    } else {
        (SyntaxKind::Error, 0)
    }
}

/* ---------------------------------------------------------------------------
   Keywords
   ------------------------------------------------------------------------ */

/// The number of keywords.
pub const KEYWORD_COUNT: usize = 125;

/// The keywords, by index.
pub open spec fn keyword_kind(j: usize) -> SyntaxKind {
    match j {
        0 => SyntaxKind::ABS,
        1 => SyntaxKind::ADD,
        2 => SyntaxKind::ALL,
        3 => SyntaxKind::AS,
        4 => SyntaxKind::ASC,
        5 => SyntaxKind::ASK,
        6 => SyntaxKind::AVG,
        7 => SyntaxKind::BASE,
        8 => SyntaxKind::BIND,
        9 => SyntaxKind::BNODE,
        10 => SyntaxKind::BOUND,
        11 => SyntaxKind::BY,
        12 => SyntaxKind::CEIL,
        13 => SyntaxKind::CLEAR,
        14 => SyntaxKind::COALESCE,
        15 => SyntaxKind::CONCAT,
        16 => SyntaxKind::CONSTRUCT,
        17 => SyntaxKind::CONTAINS,
        18 => SyntaxKind::COPY,
        19 => SyntaxKind::COUNT,
        20 => SyntaxKind::CREATE,
        21 => SyntaxKind::DATA,
        22 => SyntaxKind::DATATYPE,
        23 => SyntaxKind::DAY,
        24 => SyntaxKind::DEFAULT,
        25 => SyntaxKind::DELETE,
        26 => SyntaxKind::DELETE_DATA,
        27 => SyntaxKind::DELETE_WHERE,
        28 => SyntaxKind::DESC,
        29 => SyntaxKind::DESCRIBE,
        30 => SyntaxKind::DISTINCT,
        31 => SyntaxKind::DROP,
        32 => SyntaxKind::ENCODE_FOR_URI,
        33 => SyntaxKind::EXISTS,
        34 => SyntaxKind::FILTER,
        35 => SyntaxKind::FLOOR,
        36 => SyntaxKind::FROM,
        37 => SyntaxKind::False,
        38 => SyntaxKind::GRAPH,
        39 => SyntaxKind::GROUP,
        40 => SyntaxKind::GROUP_CONCAT,
        41 => SyntaxKind::HAVING,
        42 => SyntaxKind::HOURS,
        43 => SyntaxKind::IF,
        44 => SyntaxKind::IN,
        45 => SyntaxKind::INSERT,
        46 => SyntaxKind::INSERT_DATA,
        47 => SyntaxKind::INTO,
        48 => SyntaxKind::IRI,
        49 => SyntaxKind::LANG,
        50 => SyntaxKind::LANGDIR,
        51 => SyntaxKind::LANGMATCHES,
        52 => SyntaxKind::LCASE,
        53 => SyntaxKind::LIMIT,
        54 => SyntaxKind::LOAD,
        55 => SyntaxKind::MAX,
        56 => SyntaxKind::MD5,
        57 => SyntaxKind::MIN,
        58 => SyntaxKind::MINUS,
        59 => SyntaxKind::MINUTES,
        60 => SyntaxKind::MONTH,
        61 => SyntaxKind::MOVE,
        62 => SyntaxKind::NAMED,
        63 => SyntaxKind::NOT,
        64 => SyntaxKind::NOW,
        65 => SyntaxKind::OBJECT,
        66 => SyntaxKind::OFFSET,
        67 => SyntaxKind::OPTIONAL,
        68 => SyntaxKind::ORDER,
        69 => SyntaxKind::PREDICATE,
        70 => SyntaxKind::PREFIX,
        71 => SyntaxKind::RAND,
        72 => SyntaxKind::REDUCED,
        73 => SyntaxKind::REGEX,
        74 => SyntaxKind::REPLACE,
        75 => SyntaxKind::ROUND,
        76 => SyntaxKind::SAMPLE,
        77 => SyntaxKind::SECONDS,
        78 => SyntaxKind::SELECT,
        79 => SyntaxKind::SEPARATOR,
        80 => SyntaxKind::SERVICE,
        81 => SyntaxKind::SHA1,
        82 => SyntaxKind::SHA256,
        83 => SyntaxKind::SHA384,
        84 => SyntaxKind::SHA512,
        85 => SyntaxKind::SILENT,
        86 => SyntaxKind::STR,
        87 => SyntaxKind::STRAFTER,
        88 => SyntaxKind::STRBEFORE,
        89 => SyntaxKind::STRDT,
        90 => SyntaxKind::STRENDS,
        91 => SyntaxKind::STRLANG,
        92 => SyntaxKind::STRLANGDIR,
        93 => SyntaxKind::STRLEN,
        94 => SyntaxKind::STRSTARTS,
        95 => SyntaxKind::STRUUID,
        96 => SyntaxKind::SUBJECT,
        97 => SyntaxKind::SUBSTR,
        98 => SyntaxKind::SUM,
        99 => SyntaxKind::TIMEZONE,
        100 => SyntaxKind::TO,
        101 => SyntaxKind::TRIPLE,
        102 => SyntaxKind::TZ,
        103 => SyntaxKind::True,
        104 => SyntaxKind::UCASE,
        105 => SyntaxKind::UNDEF,
        106 => SyntaxKind::UNION,
        107 => SyntaxKind::URI,
        108 => SyntaxKind::USING,
        109 => SyntaxKind::UUID,
        110 => SyntaxKind::VALUES,
        111 => SyntaxKind::VERSION,
        112 => SyntaxKind::WHERE,
        113 => SyntaxKind::WITH,
        114 => SyntaxKind::YEAR,
        115 => SyntaxKind::a,
        116 => SyntaxKind::hasLANG,
        117 => SyntaxKind::hasLANGDIR,
        118 => SyntaxKind::isBLANK,
        119 => SyntaxKind::isIRI,
        120 => SyntaxKind::isLITERAL,
        121 => SyntaxKind::isNUMERIC,
        122 => SyntaxKind::isTRIPLE,
        123 => SyntaxKind::isURI,
        124 => SyntaxKind::sameTerm,
        _ => SyntaxKind::Error,
    }
}

fn keyword_kind_exec(j: usize) -> (r: SyntaxKind)
    ensures
        r == keyword_kind(j),
        r != SyntaxKind::Eof,
{
    match j {
        0 => SyntaxKind::ABS,
        1 => SyntaxKind::ADD,
        2 => SyntaxKind::ALL,
        3 => SyntaxKind::AS,
        4 => SyntaxKind::ASC,
        5 => SyntaxKind::ASK,
        6 => SyntaxKind::AVG,
        7 => SyntaxKind::BASE,
        8 => SyntaxKind::BIND,
        9 => SyntaxKind::BNODE,
        10 => SyntaxKind::BOUND,
        11 => SyntaxKind::BY,
        12 => SyntaxKind::CEIL,
        13 => SyntaxKind::CLEAR,
        14 => SyntaxKind::COALESCE,
        15 => SyntaxKind::CONCAT,
        16 => SyntaxKind::CONSTRUCT,
        17 => SyntaxKind::CONTAINS,
        18 => SyntaxKind::COPY,
        19 => SyntaxKind::COUNT,
        20 => SyntaxKind::CREATE,
        21 => SyntaxKind::DATA,
        22 => SyntaxKind::DATATYPE,
        23 => SyntaxKind::DAY,
        24 => SyntaxKind::DEFAULT,
        25 => SyntaxKind::DELETE,
        26 => SyntaxKind::DELETE_DATA,
        27 => SyntaxKind::DELETE_WHERE,
        28 => SyntaxKind::DESC,
        29 => SyntaxKind::DESCRIBE,
        30 => SyntaxKind::DISTINCT,
        31 => SyntaxKind::DROP,
        32 => SyntaxKind::ENCODE_FOR_URI,
        33 => SyntaxKind::EXISTS,
        34 => SyntaxKind::FILTER,
        35 => SyntaxKind::FLOOR,
        36 => SyntaxKind::FROM,
        37 => SyntaxKind::False,
        38 => SyntaxKind::GRAPH,
        39 => SyntaxKind::GROUP,
        40 => SyntaxKind::GROUP_CONCAT,
        41 => SyntaxKind::HAVING,
        42 => SyntaxKind::HOURS,
        43 => SyntaxKind::IF,
        44 => SyntaxKind::IN,
        45 => SyntaxKind::INSERT,
        46 => SyntaxKind::INSERT_DATA,
        47 => SyntaxKind::INTO,
        48 => SyntaxKind::IRI,
        49 => SyntaxKind::LANG,
        50 => SyntaxKind::LANGDIR,
        51 => SyntaxKind::LANGMATCHES,
        52 => SyntaxKind::LCASE,
        53 => SyntaxKind::LIMIT,
        54 => SyntaxKind::LOAD,
        55 => SyntaxKind::MAX,
        56 => SyntaxKind::MD5,
        57 => SyntaxKind::MIN,
        58 => SyntaxKind::MINUS,
        59 => SyntaxKind::MINUTES,
        60 => SyntaxKind::MONTH,
        61 => SyntaxKind::MOVE,
        62 => SyntaxKind::NAMED,
        63 => SyntaxKind::NOT,
        64 => SyntaxKind::NOW,
        65 => SyntaxKind::OBJECT,
        66 => SyntaxKind::OFFSET,
        67 => SyntaxKind::OPTIONAL,
        68 => SyntaxKind::ORDER,
        69 => SyntaxKind::PREDICATE,
        70 => SyntaxKind::PREFIX,
        71 => SyntaxKind::RAND,
        72 => SyntaxKind::REDUCED,
        73 => SyntaxKind::REGEX,
        74 => SyntaxKind::REPLACE,
        75 => SyntaxKind::ROUND,
        76 => SyntaxKind::SAMPLE,
        77 => SyntaxKind::SECONDS,
        78 => SyntaxKind::SELECT,
        79 => SyntaxKind::SEPARATOR,
        80 => SyntaxKind::SERVICE,
        81 => SyntaxKind::SHA1,
        82 => SyntaxKind::SHA256,
        83 => SyntaxKind::SHA384,
        84 => SyntaxKind::SHA512,
        85 => SyntaxKind::SILENT,
        86 => SyntaxKind::STR,
        87 => SyntaxKind::STRAFTER,
        88 => SyntaxKind::STRBEFORE,
        89 => SyntaxKind::STRDT,
        90 => SyntaxKind::STRENDS,
        91 => SyntaxKind::STRLANG,
        92 => SyntaxKind::STRLANGDIR,
        93 => SyntaxKind::STRLEN,
        94 => SyntaxKind::STRSTARTS,
        95 => SyntaxKind::STRUUID,
        96 => SyntaxKind::SUBJECT,
        97 => SyntaxKind::SUBSTR,
        98 => SyntaxKind::SUM,
        99 => SyntaxKind::TIMEZONE,
        100 => SyntaxKind::TO,
        101 => SyntaxKind::TRIPLE,
        102 => SyntaxKind::TZ,
        103 => SyntaxKind::True,
        104 => SyntaxKind::UCASE,
        105 => SyntaxKind::UNDEF,
        106 => SyntaxKind::UNION,
        107 => SyntaxKind::URI,
        108 => SyntaxKind::USING,
        109 => SyntaxKind::UUID,
        110 => SyntaxKind::VALUES,
        111 => SyntaxKind::VERSION,
        112 => SyntaxKind::WHERE,
        113 => SyntaxKind::WITH,
        114 => SyntaxKind::YEAR,
        115 => SyntaxKind::a,
        116 => SyntaxKind::hasLANG,
        117 => SyntaxKind::hasLANGDIR,
        118 => SyntaxKind::isBLANK,
        119 => SyntaxKind::isIRI,
        120 => SyntaxKind::isLITERAL,
        121 => SyntaxKind::isNUMERIC,
        122 => SyntaxKind::isTRIPLE,
        123 => SyntaxKind::isURI,
        124 => SyntaxKind::sameTerm,
        _ => SyntaxKind::Error,
    }
}

/// How a keyword is written; a space stands for any non-empty whitespace.
pub open spec fn keyword_text(k: SyntaxKind) -> Seq<char> {
    match k {
        SyntaxKind::ABS => seq!['A', 'B', 'S'],
        SyntaxKind::ADD => seq!['A', 'D', 'D'],
        SyntaxKind::ALL => seq!['A', 'L', 'L'],
        SyntaxKind::AS => seq!['A', 'S'],
        SyntaxKind::ASC => seq!['A', 'S', 'C'],
        SyntaxKind::ASK => seq!['A', 'S', 'K'],
        SyntaxKind::AVG => seq!['A', 'V', 'G'],
        SyntaxKind::BASE => seq!['B', 'A', 'S', 'E'],
        SyntaxKind::BIND => seq!['B', 'I', 'N', 'D'],
        SyntaxKind::BNODE => seq!['B', 'N', 'O', 'D', 'E'],
        SyntaxKind::BOUND => seq!['B', 'O', 'U', 'N', 'D'],
        SyntaxKind::BY => seq!['B', 'Y'],
        SyntaxKind::CEIL => seq!['C', 'E', 'I', 'L'],
        SyntaxKind::CLEAR => seq!['C', 'L', 'E', 'A', 'R'],
        SyntaxKind::COALESCE => seq!['C', 'O', 'A', 'L', 'E', 'S', 'C', 'E'],
        SyntaxKind::CONCAT => seq!['C', 'O', 'N', 'C', 'A', 'T'],
        SyntaxKind::CONSTRUCT => seq!['C', 'O', 'N', 'S', 'T', 'R', 'U', 'C', 'T'],
        SyntaxKind::CONTAINS => seq!['C', 'O', 'N', 'T', 'A', 'I', 'N', 'S'],
        SyntaxKind::COPY => seq!['C', 'O', 'P', 'Y'],
        SyntaxKind::COUNT => seq!['C', 'O', 'U', 'N', 'T'],
        SyntaxKind::CREATE => seq!['C', 'R', 'E', 'A', 'T', 'E'],
        SyntaxKind::DATA => seq!['D', 'A', 'T', 'A'],
        SyntaxKind::DATATYPE => seq!['D', 'A', 'T', 'A', 'T', 'Y', 'P', 'E'],
        SyntaxKind::DAY => seq!['D', 'A', 'Y'],
        SyntaxKind::DEFAULT => seq!['D', 'E', 'F', 'A', 'U', 'L', 'T'],
        SyntaxKind::DELETE => seq!['D', 'E', 'L', 'E', 'T', 'E'],
        SyntaxKind::DELETE_DATA => seq!['D', 'E', 'L', 'E', 'T', 'E', ' ', 'D', 'A', 'T', 'A'],
        SyntaxKind::DELETE_WHERE => seq!['D', 'E', 'L', 'E', 'T', 'E', ' ', 'W', 'H', 'E', 'R', 'E'],
        SyntaxKind::DESC => seq!['D', 'E', 'S', 'C'],
        SyntaxKind::DESCRIBE => seq!['D', 'E', 'S', 'C', 'R', 'I', 'B', 'E'],
        SyntaxKind::DISTINCT => seq!['D', 'I', 'S', 'T', 'I', 'N', 'C', 'T'],
        SyntaxKind::DROP => seq!['D', 'R', 'O', 'P'],
        SyntaxKind::ENCODE_FOR_URI => seq!['E', 'N', 'C', 'O', 'D', 'E', '_', 'F', 'O', 'R', '_', 'U', 'R', 'I'],
        SyntaxKind::EXISTS => seq!['E', 'X', 'I', 'S', 'T', 'S'],
        SyntaxKind::FILTER => seq!['F', 'I', 'L', 'T', 'E', 'R'],
        SyntaxKind::FLOOR => seq!['F', 'L', 'O', 'O', 'R'],
        SyntaxKind::FROM => seq!['F', 'R', 'O', 'M'],
        SyntaxKind::False => seq!['f', 'a', 'l', 's', 'e'],
        SyntaxKind::GRAPH => seq!['G', 'R', 'A', 'P', 'H'],
        SyntaxKind::GROUP => seq!['G', 'R', 'O', 'U', 'P'],
        SyntaxKind::GROUP_CONCAT => seq!['G', 'R', 'O', 'U', 'P', '_', 'C', 'O', 'N', 'C', 'A', 'T'],
        SyntaxKind::HAVING => seq!['H', 'A', 'V', 'I', 'N', 'G'],
        SyntaxKind::HOURS => seq!['H', 'O', 'U', 'R', 'S'],
        SyntaxKind::IF => seq!['I', 'F'],
        SyntaxKind::IN => seq!['I', 'N'],
        SyntaxKind::INSERT => seq!['I', 'N', 'S', 'E', 'R', 'T'],
        SyntaxKind::INSERT_DATA => seq!['I', 'N', 'S', 'E', 'R', 'T', ' ', 'D', 'A', 'T', 'A'],
        SyntaxKind::INTO => seq!['I', 'N', 'T', 'O'],
        SyntaxKind::IRI => seq!['I', 'R', 'I'],
        SyntaxKind::LANG => seq!['L', 'A', 'N', 'G'],
        SyntaxKind::LANGDIR => seq!['L', 'A', 'N', 'G', 'D', 'I', 'R'],
        SyntaxKind::LANGMATCHES => seq!['L', 'A', 'N', 'G', 'M', 'A', 'T', 'C', 'H', 'E', 'S'],
        SyntaxKind::LCASE => seq!['L', 'C', 'A', 'S', 'E'],
        SyntaxKind::LIMIT => seq!['L', 'I', 'M', 'I', 'T'],
        SyntaxKind::LOAD => seq!['L', 'O', 'A', 'D'],
        SyntaxKind::MAX => seq!['M', 'A', 'X'],
        SyntaxKind::MD5 => seq!['M', 'D', '5'],
        SyntaxKind::MIN => seq!['M', 'I', 'N'],
        SyntaxKind::MINUS => seq!['M', 'I', 'N', 'U', 'S'],
        SyntaxKind::MINUTES => seq!['M', 'I', 'N', 'U', 'T', 'E', 'S'],
        SyntaxKind::MONTH => seq!['M', 'O', 'N', 'T', 'H'],
        SyntaxKind::MOVE => seq!['M', 'O', 'V', 'E'],
        SyntaxKind::NAMED => seq!['N', 'A', 'M', 'E', 'D'],
        SyntaxKind::NOT => seq!['N', 'O', 'T'],
        SyntaxKind::NOW => seq!['N', 'O', 'W'],
        SyntaxKind::OBJECT => seq!['O', 'B', 'J', 'E', 'C', 'T'],
        SyntaxKind::OFFSET => seq!['O', 'F', 'F', 'S', 'E', 'T'],
        SyntaxKind::OPTIONAL => seq!['O', 'P', 'T', 'I', 'O', 'N', 'A', 'L'],
        SyntaxKind::ORDER => seq!['O', 'R', 'D', 'E', 'R'],
        SyntaxKind::PREDICATE => seq!['P', 'R', 'E', 'D', 'I', 'C', 'A', 'T', 'E'],
        SyntaxKind::PREFIX => seq!['P', 'R', 'E', 'F', 'I', 'X'],
        SyntaxKind::RAND => seq!['R', 'A', 'N', 'D'],
        SyntaxKind::REDUCED => seq!['R', 'E', 'D', 'U', 'C', 'E', 'D'],
        SyntaxKind::REGEX => seq!['R', 'E', 'G', 'E', 'X'],
        SyntaxKind::REPLACE => seq!['R', 'E', 'P', 'L', 'A', 'C', 'E'],
        SyntaxKind::ROUND => seq!['R', 'O', 'U', 'N', 'D'],
        SyntaxKind::SAMPLE => seq!['S', 'A', 'M', 'P', 'L', 'E'],
        SyntaxKind::SECONDS => seq!['S', 'E', 'C', 'O', 'N', 'D', 'S'],
        SyntaxKind::SELECT => seq!['S', 'E', 'L', 'E', 'C', 'T'],
        SyntaxKind::SEPARATOR => seq!['S', 'E', 'P', 'A', 'R', 'A', 'T', 'O', 'R'],
        SyntaxKind::SERVICE => seq!['S', 'E', 'R', 'V', 'I', 'C', 'E'],
        SyntaxKind::SHA1 => seq!['S', 'H', 'A', '1'],
        SyntaxKind::SHA256 => seq!['S', 'H', 'A', '2', '5', '6'],
        SyntaxKind::SHA384 => seq!['S', 'H', 'A', '3', '8', '4'],
        SyntaxKind::SHA512 => seq!['S', 'H', 'A', '5', '1', '2'],
        SyntaxKind::SILENT => seq!['S', 'I', 'L', 'E', 'N', 'T'],
        SyntaxKind::STR => seq!['S', 'T', 'R'],
        SyntaxKind::STRAFTER => seq!['S', 'T', 'R', 'A', 'F', 'T', 'E', 'R'],
        SyntaxKind::STRBEFORE => seq!['S', 'T', 'R', 'B', 'E', 'F', 'O', 'R', 'E'],
        SyntaxKind::STRDT => seq!['S', 'T', 'R', 'D', 'T'],
        SyntaxKind::STRENDS => seq!['S', 'T', 'R', 'E', 'N', 'D', 'S'],
        SyntaxKind::STRLANG => seq!['S', 'T', 'R', 'L', 'A', 'N', 'G'],
        SyntaxKind::STRLANGDIR => seq!['S', 'T', 'R', 'L', 'A', 'N', 'G', 'D', 'I', 'R'],
        SyntaxKind::STRLEN => seq!['S', 'T', 'R', 'L', 'E', 'N'],
        SyntaxKind::STRSTARTS => seq!['S', 'T', 'R', 'S', 'T', 'A', 'R', 'T', 'S'],
        SyntaxKind::STRUUID => seq!['S', 'T', 'R', 'U', 'U', 'I', 'D'],
        SyntaxKind::SUBJECT => seq!['S', 'U', 'B', 'J', 'E', 'C', 'T'],
        SyntaxKind::SUBSTR => seq!['S', 'U', 'B', 'S', 'T', 'R'],
        SyntaxKind::SUM => seq!['S', 'U', 'M'],
        SyntaxKind::TIMEZONE => seq!['T', 'I', 'M', 'E', 'Z', 'O', 'N', 'E'],
        SyntaxKind::TO => seq!['T', 'O'],
        SyntaxKind::TRIPLE => seq!['T', 'R', 'I', 'P', 'L', 'E'],
        SyntaxKind::TZ => seq!['T', 'Z'],
        SyntaxKind::True => seq!['t', 'r', 'u', 'e'],
        SyntaxKind::UCASE => seq!['U', 'C', 'A', 'S', 'E'],
        SyntaxKind::UNDEF => seq!['U', 'N', 'D', 'E', 'F'],
        SyntaxKind::UNION => seq!['U', 'N', 'I', 'O', 'N'],
        SyntaxKind::URI => seq!['U', 'R', 'I'],
        SyntaxKind::USING => seq!['U', 'S', 'I', 'N', 'G'],
        SyntaxKind::UUID => seq!['U', 'U', 'I', 'D'],
        SyntaxKind::VALUES => seq!['V', 'A', 'L', 'U', 'E', 'S'],
        SyntaxKind::VERSION => seq!['V', 'E', 'R', 'S', 'I', 'O', 'N'],
        SyntaxKind::WHERE => seq!['W', 'H', 'E', 'R', 'E'],
        SyntaxKind::WITH => seq!['W', 'I', 'T', 'H'],
        SyntaxKind::YEAR => seq!['Y', 'E', 'A', 'R'],
        SyntaxKind::a => seq!['a'],
        SyntaxKind::hasLANG => seq!['h', 'a', 's', 'L', 'A', 'N', 'G'],
        SyntaxKind::hasLANGDIR => seq!['h', 'a', 's', 'L', 'A', 'N', 'G', 'D', 'I', 'R'],
        SyntaxKind::isBLANK => seq!['i', 's', 'B', 'L', 'A', 'N', 'K'],
        SyntaxKind::isIRI => seq!['i', 's', 'I', 'R', 'I'],
        SyntaxKind::isLITERAL => seq!['i', 's', 'L', 'I', 'T', 'E', 'R', 'A', 'L'],
        SyntaxKind::isNUMERIC => seq!['i', 's', 'N', 'U', 'M', 'E', 'R', 'I', 'C'],
        SyntaxKind::isTRIPLE => seq!['i', 's', 'T', 'R', 'I', 'P', 'L', 'E'],
        SyntaxKind::isURI => seq!['i', 's', 'U', 'R', 'I'],
        SyntaxKind::sameTerm => seq!['s', 'a', 'm', 'e', 'T', 'e', 'r', 'm'],
        _ => Seq::empty(),
    }
}

fn keyword_chars(k: SyntaxKind) -> (r: &'static [char])
    ensures
        r@ == keyword_text(k),
{
    match k {
        SyntaxKind::ABS => &['A', 'B', 'S'],
        SyntaxKind::ADD => &['A', 'D', 'D'],
        SyntaxKind::ALL => &['A', 'L', 'L'],
        SyntaxKind::AS => &['A', 'S'],
        SyntaxKind::ASC => &['A', 'S', 'C'],
        SyntaxKind::ASK => &['A', 'S', 'K'],
        SyntaxKind::AVG => &['A', 'V', 'G'],
        SyntaxKind::BASE => &['B', 'A', 'S', 'E'],
        SyntaxKind::BIND => &['B', 'I', 'N', 'D'],
        SyntaxKind::BNODE => &['B', 'N', 'O', 'D', 'E'],
        SyntaxKind::BOUND => &['B', 'O', 'U', 'N', 'D'],
        SyntaxKind::BY => &['B', 'Y'],
        SyntaxKind::CEIL => &['C', 'E', 'I', 'L'],
        SyntaxKind::CLEAR => &['C', 'L', 'E', 'A', 'R'],
        SyntaxKind::COALESCE => &['C', 'O', 'A', 'L', 'E', 'S', 'C', 'E'],
        SyntaxKind::CONCAT => &['C', 'O', 'N', 'C', 'A', 'T'],
        SyntaxKind::CONSTRUCT => &['C', 'O', 'N', 'S', 'T', 'R', 'U', 'C', 'T'],
        SyntaxKind::CONTAINS => &['C', 'O', 'N', 'T', 'A', 'I', 'N', 'S'],
        SyntaxKind::COPY => &['C', 'O', 'P', 'Y'],
        SyntaxKind::COUNT => &['C', 'O', 'U', 'N', 'T'],
        SyntaxKind::CREATE => &['C', 'R', 'E', 'A', 'T', 'E'],
        SyntaxKind::DATA => &['D', 'A', 'T', 'A'],
        SyntaxKind::DATATYPE => &['D', 'A', 'T', 'A', 'T', 'Y', 'P', 'E'],
        SyntaxKind::DAY => &['D', 'A', 'Y'],
        SyntaxKind::DEFAULT => &['D', 'E', 'F', 'A', 'U', 'L', 'T'],
        SyntaxKind::DELETE => &['D', 'E', 'L', 'E', 'T', 'E'],
        SyntaxKind::DELETE_DATA => &['D', 'E', 'L', 'E', 'T', 'E', ' ', 'D', 'A', 'T', 'A'],
        SyntaxKind::DELETE_WHERE => &['D', 'E', 'L', 'E', 'T', 'E', ' ', 'W', 'H', 'E', 'R', 'E'],
        SyntaxKind::DESC => &['D', 'E', 'S', 'C'],
        SyntaxKind::DESCRIBE => &['D', 'E', 'S', 'C', 'R', 'I', 'B', 'E'],
        SyntaxKind::DISTINCT => &['D', 'I', 'S', 'T', 'I', 'N', 'C', 'T'],
        SyntaxKind::DROP => &['D', 'R', 'O', 'P'],
        SyntaxKind::ENCODE_FOR_URI => &['E', 'N', 'C', 'O', 'D', 'E', '_', 'F', 'O', 'R', '_', 'U', 'R', 'I'],
        SyntaxKind::EXISTS => &['E', 'X', 'I', 'S', 'T', 'S'],
        SyntaxKind::FILTER => &['F', 'I', 'L', 'T', 'E', 'R'],
        SyntaxKind::FLOOR => &['F', 'L', 'O', 'O', 'R'],
        SyntaxKind::FROM => &['F', 'R', 'O', 'M'],
        SyntaxKind::False => &['f', 'a', 'l', 's', 'e'],
        SyntaxKind::GRAPH => &['G', 'R', 'A', 'P', 'H'],
        SyntaxKind::GROUP => &['G', 'R', 'O', 'U', 'P'],
        SyntaxKind::GROUP_CONCAT => &['G', 'R', 'O', 'U', 'P', '_', 'C', 'O', 'N', 'C', 'A', 'T'],
        SyntaxKind::HAVING => &['H', 'A', 'V', 'I', 'N', 'G'],
        SyntaxKind::HOURS => &['H', 'O', 'U', 'R', 'S'],
        SyntaxKind::IF => &['I', 'F'],
        SyntaxKind::IN => &['I', 'N'],
        SyntaxKind::INSERT => &['I', 'N', 'S', 'E', 'R', 'T'],
        SyntaxKind::INSERT_DATA => &['I', 'N', 'S', 'E', 'R', 'T', ' ', 'D', 'A', 'T', 'A'],
        SyntaxKind::INTO => &['I', 'N', 'T', 'O'],
        SyntaxKind::IRI => &['I', 'R', 'I'],
        SyntaxKind::LANG => &['L', 'A', 'N', 'G'],
        SyntaxKind::LANGDIR => &['L', 'A', 'N', 'G', 'D', 'I', 'R'],
        SyntaxKind::LANGMATCHES => &['L', 'A', 'N', 'G', 'M', 'A', 'T', 'C', 'H', 'E', 'S'],
        SyntaxKind::LCASE => &['L', 'C', 'A', 'S', 'E'],
        SyntaxKind::LIMIT => &['L', 'I', 'M', 'I', 'T'],
        SyntaxKind::LOAD => &['L', 'O', 'A', 'D'],
        SyntaxKind::MAX => &['M', 'A', 'X'],
        SyntaxKind::MD5 => &['M', 'D', '5'],
        SyntaxKind::MIN => &['M', 'I', 'N'],
        SyntaxKind::MINUS => &['M', 'I', 'N', 'U', 'S'],
        SyntaxKind::MINUTES => &['M', 'I', 'N', 'U', 'T', 'E', 'S'],
        SyntaxKind::MONTH => &['M', 'O', 'N', 'T', 'H'],
        SyntaxKind::MOVE => &['M', 'O', 'V', 'E'],
        SyntaxKind::NAMED => &['N', 'A', 'M', 'E', 'D'],
        SyntaxKind::NOT => &['N', 'O', 'T'],
        SyntaxKind::NOW => &['N', 'O', 'W'],
        SyntaxKind::OBJECT => &['O', 'B', 'J', 'E', 'C', 'T'],
        SyntaxKind::OFFSET => &['O', 'F', 'F', 'S', 'E', 'T'],
        SyntaxKind::OPTIONAL => &['O', 'P', 'T', 'I', 'O', 'N', 'A', 'L'],
        SyntaxKind::ORDER => &['O', 'R', 'D', 'E', 'R'],
        SyntaxKind::PREDICATE => &['P', 'R', 'E', 'D', 'I', 'C', 'A', 'T', 'E'],
        SyntaxKind::PREFIX => &['P', 'R', 'E', 'F', 'I', 'X'],
        SyntaxKind::RAND => &['R', 'A', 'N', 'D'],
        SyntaxKind::REDUCED => &['R', 'E', 'D', 'U', 'C', 'E', 'D'],
        SyntaxKind::REGEX => &['R', 'E', 'G', 'E', 'X'],
        SyntaxKind::REPLACE => &['R', 'E', 'P', 'L', 'A', 'C', 'E'],
        SyntaxKind::ROUND => &['R', 'O', 'U', 'N', 'D'],
        SyntaxKind::SAMPLE => &['S', 'A', 'M', 'P', 'L', 'E'],
        SyntaxKind::SECONDS => &['S', 'E', 'C', 'O', 'N', 'D', 'S'],
        SyntaxKind::SELECT => &['S', 'E', 'L', 'E', 'C', 'T'],
        SyntaxKind::SEPARATOR => &['S', 'E', 'P', 'A', 'R', 'A', 'T', 'O', 'R'],
        SyntaxKind::SERVICE => &['S', 'E', 'R', 'V', 'I', 'C', 'E'],
        SyntaxKind::SHA1 => &['S', 'H', 'A', '1'],
        SyntaxKind::SHA256 => &['S', 'H', 'A', '2', '5', '6'],
        SyntaxKind::SHA384 => &['S', 'H', 'A', '3', '8', '4'],
        SyntaxKind::SHA512 => &['S', 'H', 'A', '5', '1', '2'],
        SyntaxKind::SILENT => &['S', 'I', 'L', 'E', 'N', 'T'],
        SyntaxKind::STR => &['S', 'T', 'R'],
        SyntaxKind::STRAFTER => &['S', 'T', 'R', 'A', 'F', 'T', 'E', 'R'],
        SyntaxKind::STRBEFORE => &['S', 'T', 'R', 'B', 'E', 'F', 'O', 'R', 'E'],
        SyntaxKind::STRDT => &['S', 'T', 'R', 'D', 'T'],
        SyntaxKind::STRENDS => &['S', 'T', 'R', 'E', 'N', 'D', 'S'],
        SyntaxKind::STRLANG => &['S', 'T', 'R', 'L', 'A', 'N', 'G'],
        SyntaxKind::STRLANGDIR => &['S', 'T', 'R', 'L', 'A', 'N', 'G', 'D', 'I', 'R'],
        SyntaxKind::STRLEN => &['S', 'T', 'R', 'L', 'E', 'N'],
        SyntaxKind::STRSTARTS => &['S', 'T', 'R', 'S', 'T', 'A', 'R', 'T', 'S'],
        SyntaxKind::STRUUID => &['S', 'T', 'R', 'U', 'U', 'I', 'D'],
        SyntaxKind::SUBJECT => &['S', 'U', 'B', 'J', 'E', 'C', 'T'],
        SyntaxKind::SUBSTR => &['S', 'U', 'B', 'S', 'T', 'R'],
        SyntaxKind::SUM => &['S', 'U', 'M'],
        SyntaxKind::TIMEZONE => &['T', 'I', 'M', 'E', 'Z', 'O', 'N', 'E'],
        SyntaxKind::TO => &['T', 'O'],
        SyntaxKind::TRIPLE => &['T', 'R', 'I', 'P', 'L', 'E'],
        SyntaxKind::TZ => &['T', 'Z'],
        SyntaxKind::True => &['t', 'r', 'u', 'e'],
        SyntaxKind::UCASE => &['U', 'C', 'A', 'S', 'E'],
        SyntaxKind::UNDEF => &['U', 'N', 'D', 'E', 'F'],
        SyntaxKind::UNION => &['U', 'N', 'I', 'O', 'N'],
        SyntaxKind::URI => &['U', 'R', 'I'],
        SyntaxKind::USING => &['U', 'S', 'I', 'N', 'G'],
        SyntaxKind::UUID => &['U', 'U', 'I', 'D'],
        SyntaxKind::VALUES => &['V', 'A', 'L', 'U', 'E', 'S'],
        SyntaxKind::VERSION => &['V', 'E', 'R', 'S', 'I', 'O', 'N'],
        SyntaxKind::WHERE => &['W', 'H', 'E', 'R', 'E'],
        SyntaxKind::WITH => &['W', 'I', 'T', 'H'],
        SyntaxKind::YEAR => &['Y', 'E', 'A', 'R'],
        SyntaxKind::a => &['a'],
        SyntaxKind::hasLANG => &['h', 'a', 's', 'L', 'A', 'N', 'G'],
        SyntaxKind::hasLANGDIR => &['h', 'a', 's', 'L', 'A', 'N', 'G', 'D', 'I', 'R'],
        SyntaxKind::isBLANK => &['i', 's', 'B', 'L', 'A', 'N', 'K'],
        SyntaxKind::isIRI => &['i', 's', 'I', 'R', 'I'],
        SyntaxKind::isLITERAL => &['i', 's', 'L', 'I', 'T', 'E', 'R', 'A', 'L'],
        SyntaxKind::isNUMERIC => &['i', 's', 'N', 'U', 'M', 'E', 'R', 'I', 'C'],
        SyntaxKind::isTRIPLE => &['i', 's', 'T', 'R', 'I', 'P', 'L', 'E'],
        SyntaxKind::isURI => &['i', 's', 'U', 'R', 'I'],
        SyntaxKind::sameTerm => &['s', 'a', 'm', 'e', 'T', 'e', 'r', 'm'],
        _ => &[],
    }
}

/// ASCII letters are compared without regard to case.
pub open spec fn same_letter(c: char, k: char) -> bool {
    ||| c == k
    ||| ('A' <= k && k <= 'Z' && (c as u32) == (k as u32) + 32)
    ||| ('a' <= k && k <= 'z' && (c as u32) + 32 == (k as u32))
}

/// Where the keyword text `kw[j..]` ends when read at `i`, `-1` on a mismatch.
pub open spec fn keyword_end(s: Seq<char>, i: int, kw: Seq<char>, j: int) -> int
    decreases kw.len() - j,
{
    if j < 0 || j >= kw.len() {
        i
    } else if kw[j] == ' ' {
        if run(s, i, WS) > 0 {
            keyword_end(s, i + run(s, i, WS), kw, j + 1)
        } else {
            -1
        }
    } else if 0 <= i < s.len() && same_letter(s[i], kw[j]) {
        keyword_end(s, i + 1, kw, j + 1)
    } else {
        -1
    }
}

/// The length of a keyword at `i`, 0 when it is not there or a name
/// character follows it.
pub open spec fn keyword_len(s: Seq<char>, i: int, k: SyntaxKind) -> nat {
    let e = keyword_end(s, i, keyword_text(k), 0);
    if e >= 0 && !(0 <= e < s.len() && is_pn_chars(s[e])) && keyword_text(k).len() > 0 {
        (e - i) as nat
    } else {
        0
    }
}

/// The longer candidate; the earlier one on a tie.
pub open spec fn pick(best: (SyntaxKind, nat), k: SyntaxKind, len: nat) -> (SyntaxKind, nat) {
    if len > best.1 {
        (k, len)
    } else {
        best
    }
}

/// The longest of the first `n` keywords at `i`.
pub open spec fn best_keyword(s: Seq<char>, i: int, n: int) -> (SyntaxKind, nat)
    decreases n,
{
    if n <= 0 {
        (SyntaxKind::Error, 0)
    } else {
        let k = keyword_kind((n - 1) as usize);
        pick(best_keyword(s, i, n - 1), k, keyword_len(s, i, k))
    }
}

/* ---------------------------------------------------------------------------
   The token at a position
   ------------------------------------------------------------------------ */

/// The kind and length of the token that starts at `i`.
#[verifier::opaque]
pub open spec fn scan(s: Seq<char>, i: int) -> (SyntaxKind, nat) {
    let b = (SyntaxKind::Error, 0nat);
    let b = pick(b, SyntaxKind::WHITESPACE, run(s, i, WS));
    let b = pick(b, SyntaxKind::Comment, comment_len(s, i));
    let b = pick(b, SyntaxKind::IRIREF, iri_len(s, i));
    let b = pick(b, punctuation(s, i).0, punctuation(s, i).1);
    let b = pick(b, SyntaxKind::NIL, empty_brackets_len(s, i, '(', ')'));
    let b = pick(b, SyntaxKind::ANON, empty_brackets_len(s, i, '[', ']'));
    let b = pick(b, number(s, i).0, number(s, i).1);
    let b = pick(b, SyntaxKind::STRING_LITERAL1, short_string_len(s, i, '\''));
    let b = pick(b, SyntaxKind::STRING_LITERAL2, short_string_len(s, i, '"'));
    let b = pick(b, SyntaxKind::STRING_LITERAL_LONG1, long_string_len(s, i, '\''));
    let b = pick(b, SyntaxKind::STRING_LITERAL_LONG2, long_string_len(s, i, '"'));
    let b = pick(b, SyntaxKind::VAR1, var_len(s, i, '?'));
    let b = pick(b, SyntaxKind::VAR2, var_len(s, i, '$'));
    let b = pick(b, language(s, i).0, language(s, i).1);
    let b = pick(b, SyntaxKind::BLANK_NODE_LABEL, blank_len(s, i));
    let b = pick(b, SyntaxKind::PNAME_NS, pname_ns_len(s, i));
    let b = pick(b, SyntaxKind::PNAME_LN, pname_ln_len(s, i));
    let b = pick(b, best_keyword(s, i, KEYWORD_COUNT as int).0, best_keyword(s, i, KEYWORD_COUNT as int).1);
    if b.1 > 0 {
        b
    } else if run(s, i, PN_CHARS) > 0 {
        (SyntaxKind::Error, run(s, i, PN_CHARS))
    } else {
        (SyntaxKind::Error, 1)
    }
}

fn comment_len_exec(s: &Vec<char>, i: usize) -> (r: usize)
    requires
        i <= s.len(),
    ensures
        r == comment_len(s@, i as int),
        i + r <= s.len(),
{
    if at_exec(s, i, '#') {
        1 + run_exec(s, i + 1, NOT_NEWLINE)
    } else {
        0
    }
}

fn iri_len_exec(s: &Vec<char>, i: usize) -> (r: usize)
    requires
        i <= s.len(),
    ensures
        r == iri_len(s@, i as int),
        i + r <= s.len(),
{
    if at_exec(s, i, '<') {
        let n = run_exec(s, i + 1, IRI);
        if at_exec(s, i + 1 + n, '>') {
            return n + 2;
        }
    }
    0
}

fn empty_brackets_exec(s: &Vec<char>, i: usize, open: char, close: char) -> (r: usize)
    requires
        i <= s.len(),
    ensures
        r == empty_brackets_len(s@, i as int, open, close),
        i + r <= s.len(),
{
    if at_exec(s, i, open) {
        let n = run_exec(s, i + 1, SPARQL_WS);
        if at_exec(s, i + 1 + n, close) {
            return n + 2;
        }
    }
    0
}

fn var_len_exec(s: &Vec<char>, i: usize, sigil: char) -> (r: usize)
    requires
        i <= s.len(),
    ensures
        r == var_len(s@, i as int, sigil),
        i + r <= s.len(),
{
    if at_exec(s, i, sigil) && s.len() - i > 1 && (pn_chars_u(s[i + 1]) || digit(s[i + 1])) {
        2 + run_exec(s, i + 2, VARNAME)
    } else {
        0
    }
}

fn blank_len_exec(s: &Vec<char>, i: usize) -> (r: usize)
    requires
        i <= s.len(),
    ensures
        r == blank_len(s@, i as int),
        i + r <= s.len(),
{
    if at_exec(s, i, '_') && at_exec(s, i + 1, ':') && s.len() - i > 2 && (pn_chars_u(s[i + 2])
        || digit(s[i + 2])) {
        3 + pn_tail_exec(s, i + 3)
    } else {
        0
    }
}

fn pname_ns_exec(s: &Vec<char>, i: usize) -> (r: usize)
    requires
        i <= s.len(),
    ensures
        r == pname_ns_len(s@, i as int),
        i + r <= s.len(),
{
    if at_exec(s, i, ':') {
        1
    } else if i < s.len() && pn_chars_base(s[i]) {
        let t = pn_tail_exec(s, i + 1);
        if at_exec(s, i + 1 + t, ':') {
            t + 2
        } else {
            0
        }
    } else {
        0
    }
}

fn pname_ln_exec(s: &Vec<char>, i: usize) -> (r: usize)
    requires
        i <= s.len(),
    ensures
        r == pname_ln_len(s@, i as int),
        i + r <= s.len(),
{
    let ns = pname_ns_exec(s, i);
    let f = local_first_exec(s, i + ns);
    if ns > 0 && f > 0 {
        ns + f + local_tail_exec(s, i + ns + f)
    } else {
        0
    }
}

fn short_string_end_exec(s: &Vec<char>, i: usize, q: char) -> (r: Option<usize>)
    requires
        i <= s.len(),
    ensures
        match r {
            Some(e) => e == short_string_end(s@, i as int, q) && i < e <= s.len(),
            None => short_string_end(s@, i as int, q) == -1,
        },
{
    let mut j = i;
    while j < s.len()
        invariant
            i <= j <= s.len(),
            short_string_end(s@, i as int, q) == short_string_end(s@, j as int, q),
        decreases s.len() - j,
    {
        let c = s[j];
        if c == q {
            return Some(j + 1);
        } else if c == '\\' {
            if s.len() - j > 1 && echar(s[j + 1]) {
                j = j + 2;
            } else {
                return None;
            }
        } else if c == '\n' || c == '\r' {
            return None;
        } else {
            j = j + 1;
        }
    }
    None
}

fn long_string_end_exec(s: &Vec<char>, i: usize, q: char) -> (r: Option<usize>)
    requires
        i <= s.len(),
    ensures
        match r {
            Some(e) => e == long_string_end(s@, i as int, q) && i < e <= s.len(),
            None => long_string_end(s@, i as int, q) == -1,
        },
{
    let mut j = i;
    while j < s.len()
        invariant
            i <= j <= s.len(),
            long_string_end(s@, i as int, q) == long_string_end(s@, j as int, q),
        decreases s.len() - j,
    {
        if s.len() - j > 2 && s[j] == q && s[j + 1] == q && s[j + 2] == q {
            return Some(j + 3);
        } else if s[j] == '\\' {
            if s.len() - j > 1 && echar(s[j + 1]) {
                j = j + 2;
            } else {
                return None;
            }
        } else {
            j = j + 1;
        }
    }
    None
}

fn short_string_exec(s: &Vec<char>, i: usize, q: char) -> (r: usize)
    requires
        i <= s.len(),
    ensures
        r == short_string_len(s@, i as int, q),
        i + r <= s.len(),
{
    if at_exec(s, i, q) {
        match short_string_end_exec(s, i + 1, q) {
            Some(e) => e - i,
            None => 0,
        }
    } else {
        0
    }
}

fn long_string_exec(s: &Vec<char>, i: usize, q: char) -> (r: usize)
    requires
        i <= s.len(),
    ensures
        r == long_string_len(s@, i as int, q),
        i + r <= s.len(),
{
    if at_exec(s, i, q) && at_exec(s, i + 1, q) && at_exec(s, i + 2, q) {
        match long_string_end_exec(s, i + 3, q) {
            Some(e) => e - i,
            None => 0,
        }
    } else {
        0
    }
}

fn exponent_exec(s: &Vec<char>, j: usize) -> (r: usize)
    requires
        j <= s.len(),
    ensures
        r == exponent_len(s@, j as int),
        j + r <= s.len(),
{
    if at_exec(s, j, 'e') || at_exec(s, j, 'E') {
        let k = if at_exec(s, j + 1, '+') || at_exec(s, j + 1, '-') {
            j + 2
        } else {
            j + 1
        };
        let d = run_exec(s, k, DIGIT);
        if d > 0 {
            (k - j) + d
        } else {
            0
        }
    } else {
        0
    }
}

fn unsigned_number_exec(s: &Vec<char>, i: usize) -> (r: (SyntaxKind, usize))
    requires
        i <= s.len(),
    ensures
        r.0 == unsigned_number(s@, i as int).0,
        r.1 == unsigned_number(s@, i as int).1,
        i + r.1 <= s.len(),
        r.0 != SyntaxKind::Eof,
{
    let d1 = run_exec(s, i, DIGIT);
    if at_exec(s, i + d1, '.') {
        let d2 = run_exec(s, i + d1 + 1, DIGIT);
        let e = exponent_exec(s, i + d1 + 1 + d2);
        if e > 0 && (d1 > 0 || d2 > 0) {
            (SyntaxKind::DOUBLE, d1 + 1 + d2 + e)
        } else if d2 > 0 {
            (SyntaxKind::DECIMAL, d1 + 1 + d2)
        } else if d1 > 0 {
            (SyntaxKind::INTEGER, d1)
        } else {
            (SyntaxKind::Error, 0)
        }
    } else if d1 > 0 {
        let e = exponent_exec(s, i + d1);
        if e > 0 {
            (SyntaxKind::DOUBLE, d1 + e)
        } else {
            (SyntaxKind::INTEGER, d1)
        }
    } else {
        (SyntaxKind::Error, 0)
    }
}

fn number_exec(s: &Vec<char>, i: usize) -> (r: (SyntaxKind, usize))
    requires
        i <= s.len(),
    ensures
        r.0 == number(s@, i as int).0,
        r.1 == number(s@, i as int).1,
        i + r.1 <= s.len(),
        r.0 != SyntaxKind::Eof,
{
    if at_exec(s, i, '+') {
        let (k, n) = unsigned_number_exec(s, i + 1);
        if n > 0 {
            let pk = match k {
                SyntaxKind::INTEGER => SyntaxKind::INTEGER_POSITIVE,
                SyntaxKind::DECIMAL => SyntaxKind::DECIMAL_POSITIVE,
                _ => SyntaxKind::DOUBLE_POSITIVE,
            };
            return (pk, n + 1);
        }
    } else if at_exec(s, i, '-') {
        let (k, n) = unsigned_number_exec(s, i + 1);
        if n > 0 {
            let nk = match k {
                SyntaxKind::INTEGER => SyntaxKind::INTEGER_NEGATIVE,
                SyntaxKind::DECIMAL => SyntaxKind::DECIMAL_NEGATIVE,
                _ => SyntaxKind::DOUBLE_NEGATIVE,
            };
            return (nk, n + 1);
        }
    }
    unsigned_number_exec(s, i)
}

fn subtags_exec(s: &Vec<char>, j: usize) -> (r: usize)
    requires
        j <= s.len(),
    ensures
        r == subtags_len(s@, j as int),
        j + r <= s.len(),
{
    let mut k = j;
    loop
        invariant
            j <= k <= s.len(),
            subtags_len(s@, j as int) == (k - j) + subtags_len(s@, k as int),
        decreases s.len() - k,
    {
        if at_exec(s, k, '-') {
            let n = run_exec(s, k + 1, ALNUM);
            if n > 0 {
                k = k + 1 + n;
                continue;
            }
        }
        return k - j;
    }
}

fn language_exec(s: &Vec<char>, i: usize) -> (r: (SyntaxKind, usize))
    requires
        i < s.len(),
    ensures
        r.0 == language(s@, i as int).0,
        r.1 == language(s@, i as int).1,
        i + r.1 <= s.len(),
        r.0 != SyntaxKind::Eof,
{
    let a = run_exec(s, i + 1, ALPHA);
    if at_exec(s, i, '@') && a > 0 {
        let e = i + 1 + a + subtags_exec(s, i + 1 + a);
        if at_exec(s, e, '-') && at_exec(s, e + 1, '-') {
            let d = run_exec(s, e + 2, ALPHA);
            if d > 0 {
                return (SyntaxKind::LANG_DIR, (e + 2 + d) - i);
            }
        }
        (SyntaxKind::LANGTAG, e - i)
    } else {
        (SyntaxKind::Error, 0)
    }
}

fn punctuation_exec(s: &Vec<char>, i: usize) -> (r: (SyntaxKind, usize))
    requires
        i <= s.len(),
    ensures
        r.0 == punctuation(s@, i as int).0,
        r.1 == punctuation(s@, i as int).1,
        i + r.1 <= s.len(),
        r.0 != SyntaxKind::Eof,
{
    let a = |c: char| -> (r: bool) ensures r == at(s@, i as int, c) { at_exec(s, i, c) };
    let b = |c: char| -> (r: bool) ensures r == at(s@, i + 1, c) { i < s.len() && at_exec(s, i + 1, c) };
    let c3 = |c: char| -> (r: bool) ensures r == at(s@, i + 2, c) { s.len() - i > 1 && at_exec(s, i + 2, c) };
    if a('<') && b('<') && c3('(') {
        (SyntaxKind::DoubleLessLParen, 3)
    } else if a(')') && b('>') && c3('>') {
        (SyntaxKind::RParenDoubleMore, 3)
    } else if a('|') && b('|') {
        (SyntaxKind::DoublePipe, 2)
    } else if a('^') && b('^') {
        (SyntaxKind::DoubleZirkumflex, 2)
    } else if a('&') && b('&') {
        (SyntaxKind::DoubleAnd, 2)
    } else if a('!') && b('=') {
        (SyntaxKind::ExclamationMarkEquals, 2)
    } else if a('<') && b('=') {
        (SyntaxKind::LessEquals, 2)
    } else if a('>') && b('=') {
        (SyntaxKind::MoreEquals, 2)
    } else if a('<') && b('<') {
        (SyntaxKind::DoubleLess, 2)
    } else if a('>') && b('>') {
        (SyntaxKind::DoubleMore, 2)
    } else if a('{') && b('|') {
        (SyntaxKind::LCurlyPipe, 2)
    } else if a('|') && b('}') {
        (SyntaxKind::PipeRCurly, 2)
    } else if a('*') {
        (SyntaxKind::Star, 1)
    } else if a('+') {
        (SyntaxKind::Plus, 1)
    } else if a('-') {
        (SyntaxKind::Minus, 1)
    } else if a('(') {
        (SyntaxKind::LParen, 1)
    } else if a(')') {
        (SyntaxKind::RParen, 1)
    } else if a('{') {
        (SyntaxKind::LCurly, 1)
    } else if a('}') {
        (SyntaxKind::RCurly, 1)
    } else if a('[') {
        (SyntaxKind::LBrack, 1)
    } else if a(']') {
        (SyntaxKind::RBrack, 1)
    } else if a('.') {
        (SyntaxKind::Dot, 1)
    } else if a(',') {
        (SyntaxKind::Comma, 1)
    } else if a(';') {
        (SyntaxKind::Semicolon, 1)
    } else if a('|') {
        (SyntaxKind::Pipe, 1)
    } else if a('/') {
        (SyntaxKind::Slash, 1)
    } else if a('^') {
        (SyntaxKind::Zirkumflex, 1)
    } else if a('?') {
        (SyntaxKind::QuestionMark, 1)
    } else if a('!') {
        (SyntaxKind::ExclamationMark, 1)
    } else if a('=') {
        (SyntaxKind::Equals, 1)
    } else if a('<') {
        (SyntaxKind::Less, 1)
    } else if a('>') {
        (SyntaxKind::More, 1)
    } else if a('~') {
        (SyntaxKind::Tilde, 1)
    } else {
        (SyntaxKind::Error, 0)
    }
}

fn same_letter_exec(c: char, k: char) -> (r: bool)
    ensures
        r == same_letter(c, k),
{
    c == k || ('A' <= k && k <= 'Z' && (c as u32) == (k as u32) + 32) || ('a' <= k && k <= 'z'
        && (c as u32) + 32 == (k as u32))
}

fn keyword_end_exec(s: &Vec<char>, i: usize, kw: &[char]) -> (r: Option<usize>)
    requires
        i <= s.len(),
    ensures
        match r {
            Some(e) => e == keyword_end(s@, i as int, kw@, 0) && i <= e <= s.len(),
            None => keyword_end(s@, i as int, kw@, 0) == -1,
        },
{
    let n = kw.len();
    let mut j: usize = 0;
    let mut k = i;
    while j < n
        invariant
            n == kw@.len(),
            0 <= j <= n,
            i <= k <= s.len(),
            keyword_end(s@, i as int, kw@, 0) == keyword_end(s@, k as int, kw@, j as int),
        decreases n - j,
    {
        let c = kw[j];
        if c == ' ' {
            let w = run_exec(s, k, WS);
            if w == 0 {
                return None;
            }
            k = k + w;
        } else if k < s.len() && same_letter_exec(s[k], c) {
            k = k + 1;
        } else {
            return None;
        }
        j = j + 1;
    }
    Some(k)
}

fn keyword_len_exec(s: &Vec<char>, i: usize, k: SyntaxKind) -> (r: usize)
    requires
        i <= s.len(),
    ensures
        r == keyword_len(s@, i as int, k),
        i + r <= s.len(),
{
    let kw = keyword_chars(k);
    match keyword_end_exec(s, i, kw) {
        Some(e) => {
            if !(e < s.len() && pn_chars(s[e])) && kw.len() > 0 {
                e - i
            } else {
                0
            }
        },
        None => 0,
    }
}

fn best_keyword_exec(s: &Vec<char>, i: usize) -> (r: (SyntaxKind, usize))
    requires
        i <= s.len(),
    ensures
        r.0 == best_keyword(s@, i as int, KEYWORD_COUNT as int).0,
        r.1 == best_keyword(s@, i as int, KEYWORD_COUNT as int).1,
        i + r.1 <= s.len(),
        r.0 != SyntaxKind::Eof,
{
    let mut best = (SyntaxKind::Error, 0usize);
    let mut j: usize = 0;
    while j < KEYWORD_COUNT
        invariant
            0 <= j <= KEYWORD_COUNT,
            best.0 == best_keyword(s@, i as int, j as int).0,
            best.1 == best_keyword(s@, i as int, j as int).1,
            i + best.1 <= s.len(),
            best.0 != SyntaxKind::Eof,
        decreases KEYWORD_COUNT - j,
    {
        let k = keyword_kind_exec(j);
        let n = keyword_len_exec(s, i, k);
        if n > best.1 {
            best = (k, n);
        }
        j = j + 1;
    }
    best
}

/// The token that starts at `i`.
pub fn scan_exec(s: &Vec<char>, i: usize) -> (r: (SyntaxKind, usize))
    requires
        i < s.len(),
    ensures
        r.0 == scan(s@, i as int).0,
        r.1 == scan(s@, i as int).1,
        0 < r.1 <= s.len() - i,
        r.0 != SyntaxKind::Eof,
{
    reveal(scan);
    let mut b = (SyntaxKind::Error, 0usize);
    let n = run_exec(s, i, WS);
    if n > b.1 {
        b = (SyntaxKind::WHITESPACE, n);
    }
    let n = comment_len_exec(s, i);
    if n > b.1 {
        b = (SyntaxKind::Comment, n);
    }
    let n = iri_len_exec(s, i);
    if n > b.1 {
        b = (SyntaxKind::IRIREF, n);
    }
    let (k, n) = punctuation_exec(s, i);
    if n > b.1 {
        b = (k, n);
    }
    let n = empty_brackets_exec(s, i, '(', ')');
    if n > b.1 {
        b = (SyntaxKind::NIL, n);
    }
    let n = empty_brackets_exec(s, i, '[', ']');
    if n > b.1 {
        b = (SyntaxKind::ANON, n);
    }
    let (k, n) = number_exec(s, i);
    if n > b.1 {
        b = (k, n);
    }
    let n = short_string_exec(s, i, '\'');
    if n > b.1 {
        b = (SyntaxKind::STRING_LITERAL1, n);
    }
    let n = short_string_exec(s, i, '"');
    if n > b.1 {
        b = (SyntaxKind::STRING_LITERAL2, n);
    }
    let n = long_string_exec(s, i, '\'');
    if n > b.1 {
        b = (SyntaxKind::STRING_LITERAL_LONG1, n);
    }
    let n = long_string_exec(s, i, '"');
    if n > b.1 {
        b = (SyntaxKind::STRING_LITERAL_LONG2, n);
    }
    let n = var_len_exec(s, i, '?');
    if n > b.1 {
        b = (SyntaxKind::VAR1, n);
    }
    let n = var_len_exec(s, i, '$');
    if n > b.1 {
        b = (SyntaxKind::VAR2, n);
    }
    let (k, n) = language_exec(s, i);
    if n > b.1 {
        b = (k, n);
    }
    let n = blank_len_exec(s, i);
    if n > b.1 {
        b = (SyntaxKind::BLANK_NODE_LABEL, n);
    }
    let n = pname_ns_exec(s, i);
    if n > b.1 {
        b = (SyntaxKind::PNAME_NS, n);
    }
    let n = pname_ln_exec(s, i);
    if n > b.1 {
        b = (SyntaxKind::PNAME_LN, n);
    }
    let (k, n) = best_keyword_exec(s, i);
    if n > b.1 {
        b = (k, n);
    }
    if b.1 > 0 {
        b
    } else {
        let n = run_exec(s, i, PN_CHARS);
        if n > 0 {
            (SyntaxKind::Error, n)
        } else {
            (SyntaxKind::Error, 1)
        }
    }
}

/* ---------------------------------------------------------------------------
   The whole input
   ------------------------------------------------------------------------ */

/// A byte range of the input.
#[derive(Debug, Clone, Copy, PartialEq, Eq, Structural)]
pub struct Span {
    pub start: usize,
    pub end: usize,
}

/// The number of bytes of a character in UTF-8.
pub open spec fn char_width(c: char) -> nat {
    let v = c as u32;
    if v < 0x80 {
        1
    } else if v < 0x800 {
        2
    } else if v < 0x10000 {
        3
    } else {
        4
    }
}

fn char_width_exec(c: char) -> (r: usize)
    ensures
        r == char_width(c),
{
    let v = c as u32;
    if v < 0x80 {
        1
    } else if v < 0x800 {
        2
    } else if v < 0x10000 {
        3
    } else {
        4
    }
}

/// The number of bytes of a text in UTF-8.
pub open spec fn byte_len(s: Seq<char>) -> nat
    decreases s.len(),
{
    if s.len() == 0 {
        0
    } else {
        byte_len(s.drop_last()) + char_width(s.last())
    }
}

pub proof fn lemma_byte_len_take(s: Seq<char>, j: int)
    requires
        0 <= j <= s.len(),
    ensures
        byte_len(s.take(j)) <= byte_len(s),
    decreases s.len() - j,
{
    if j < s.len() {
        lemma_byte_len_take(s, j + 1);
        assert(s.take(j + 1).drop_last() =~= s.take(j));
    } else {
        assert(s.take(j) =~= s);
    }
}

/// The tokens of `s` from position `i` on: kind, first and end position.
pub open spec fn tokens_from(s: Seq<char>, i: int) -> Seq<(SyntaxKind, int, int)>
    decreases s.len() - i,
{
    let n = scan(s, i).1;
    if i < 0 || i >= s.len() || n == 0 || i + n > s.len() {
        Seq::empty()
    } else {
        seq![(scan(s, i).0, i, i + n)] + tokens_from(s, i + n)
    }
}

/// How each punctuation kind is spelled; empty for the kinds that are no
/// punctuation.
pub open spec fn punctuation_text(k: SyntaxKind) -> Seq<char> {
    match k {
        SyntaxKind::DoubleLessLParen => seq!['<', '<', '('],
        SyntaxKind::RParenDoubleMore => seq![')', '>', '>'],
        SyntaxKind::DoublePipe => seq!['|', '|'],
        SyntaxKind::DoubleZirkumflex => seq!['^', '^'],
        SyntaxKind::DoubleAnd => seq!['&', '&'],
        SyntaxKind::ExclamationMarkEquals => seq!['!', '='],
        SyntaxKind::LessEquals => seq!['<', '='],
        SyntaxKind::MoreEquals => seq!['>', '='],
        SyntaxKind::DoubleLess => seq!['<', '<'],
        SyntaxKind::DoubleMore => seq!['>', '>'],
        SyntaxKind::LCurlyPipe => seq!['{', '|'],
        SyntaxKind::PipeRCurly => seq!['|', '}'],
        SyntaxKind::Star => seq!['*'],
        SyntaxKind::Plus => seq!['+'],
        SyntaxKind::Minus => seq!['-'],
        SyntaxKind::LParen => seq!['('],
        SyntaxKind::RParen => seq![')'],
        SyntaxKind::LCurly => seq!['{'],
        SyntaxKind::RCurly => seq!['}'],
        SyntaxKind::LBrack => seq!['['],
        SyntaxKind::RBrack => seq![']'],
        SyntaxKind::Dot => seq!['.'],
        SyntaxKind::Comma => seq![','],
        SyntaxKind::Semicolon => seq![';'],
        SyntaxKind::Pipe => seq!['|'],
        SyntaxKind::Slash => seq!['/'],
        SyntaxKind::Zirkumflex => seq!['^'],
        SyntaxKind::QuestionMark => seq!['?'],
        SyntaxKind::ExclamationMark => seq!['!'],
        SyntaxKind::Equals => seq!['='],
        SyntaxKind::Less => seq!['<'],
        SyntaxKind::More => seq!['>'],
        SyntaxKind::Tilde => seq!['~'],
        _ => Seq::empty(),
    }
}

/// The keywords are no punctuation.
proof fn lemma_keyword_not_punctuation(j: usize)
    ensures
        punctuation_text(keyword_kind(j)).len() == 0,
{
}

proof fn lemma_best_keyword_not_punctuation(s: Seq<char>, i: int, n: int)
    ensures
        punctuation_text(best_keyword(s, i, n).0).len() == 0,
    decreases n,
{
    if n > 0 {
        lemma_best_keyword_not_punctuation(s, i, n - 1);
        lemma_keyword_not_punctuation((n - 1) as usize);
    }
}

/// The punctuation found at `i` is spelled as its kind says.
proof fn lemma_punctuation_spelled(s: Seq<char>, i: int)
    requires
        punctuation(s, i).1 > 0,
    ensures
        i + punctuation(s, i).1 <= s.len(),
        s.subrange(i, i + punctuation(s, i).1) == punctuation_text(punctuation(s, i).0),
{
    let n = punctuation(s, i).1;
    if n == 1 {
        assert(s.subrange(i, i + 1) =~= seq![s[i]]);
    } else if n == 2 {
        assert(s.subrange(i, i + 2) =~= seq![s[i], s[i + 1]]);
    } else {
        assert(s.subrange(i, i + 3) =~= seq![s[i], s[i + 1], s[i + 2]]);
    }
}

proof fn lemma_number_not_punctuation(s: Seq<char>, i: int)
    ensures
        punctuation_text(number(s, i).0).len() == 0,
        punctuation_text(language(s, i).0).len() == 0,
{
}

/// A token that starts at `i` and has a punctuation kind is spelled as
/// that kind says: `<=` is `LessEquals`, `>=` is `MoreEquals`, and so on.
#[verifier::rlimit(100)]
#[verifier::spinoff_prover]
pub proof fn law_punctuation_token_spelled(s: Seq<char>, i: int)
    requires
        0 <= i,
        i + scan(s, i).1 <= s.len(),
        punctuation_text(scan(s, i).0).len() > 0,
    ensures
        s.subrange(i, i + scan(s, i).1) == punctuation_text(scan(s, i).0),
{
    lemma_best_keyword_not_punctuation(s, i, KEYWORD_COUNT as int);
    lemma_number_not_punctuation(s, i);
    reveal(scan);
    assert(scan(s, i) == punctuation(s, i));
    lemma_punctuation_spelled(s, i);
}

/// Every punctuation token of a text (as [`lex`] and [`tokenize`] hand
/// them out) is spelled as its kind says.
pub proof fn law_punctuation_tokens_spelled(s: Seq<char>, i: int)
    ensures
        forall|j: int|
            0 <= j < tokens_from(s, i).len() && punctuation_text(#[trigger] tokens_from(s, i)[j].0).len() > 0
                ==> s.subrange(tokens_from(s, i)[j].1, tokens_from(s, i)[j].2) == punctuation_text(
                tokens_from(s, i)[j].0,
            ),
    decreases s.len() - i,
{
    let n = scan(s, i).1;
    if !(i < 0 || i >= s.len() || n == 0 || i + n > s.len()) {
        law_punctuation_tokens_spelled(s, i + n);
        let all = tokens_from(s, i);
        let rest = tokens_from(s, i + n);
        assert(all == seq![(scan(s, i).0, i, i + n)] + rest);
        assert forall|j: int|
            0 <= j < all.len() && punctuation_text(#[trigger] all[j].0).len() > 0 implies s.subrange(
            all[j].1,
            all[j].2,
        ) == punctuation_text(all[j].0) by {
            if j == 0 {
                law_punctuation_token_spelled(s, i);
            } else {
                assert(all[j] == rest[j - 1]);
            }
        }
    }
}

/// Byte offsets grow with the position in the text.
pub proof fn lemma_byte_len_monotone(s: Seq<char>, a: int, b: int)
    requires
        0 <= a <= b <= s.len(),
    ensures
        byte_len(s.take(a)) <= byte_len(s.take(b)),
{
    lemma_byte_len_take(s.take(b), a);
    assert(s.take(b).take(a) =~= s.take(a));
}

/// Each token from position `i` on starts no earlier than `i`, is not empty
/// and ends within the text.
pub proof fn lemma_tokens_from_range(s: Seq<char>, i: int, j: int)
    requires
        0 <= j < tokens_from(s, i).len(),
    ensures
        i <= tokens_from(s, i)[j].1 < tokens_from(s, i)[j].2 <= s.len(),
    decreases s.len() - i,
{
    let n = scan(s, i).1;
    if j > 0 {
        lemma_tokens_from_range(s, i + n, j - 1);
        assert(tokens_from(s, i)[j] == tokens_from(s, i + n)[j - 1]);
    }
}

/// Each token of a text lies within the text.
pub proof fn lemma_tokens_in_range(s: Seq<char>, j: int)
    requires
        0 <= j < tokens_from(s, 0).len(),
    ensures
        0 <= tokens_from(s, 0)[j].1 <= tokens_from(s, 0)[j].2 <= s.len(),
{
    lemma_tokens_from_range(s, 0, j);
}

/// The texts of the tokens, one after the other.
pub open spec fn texts(tokens: Seq<(Token, Span)>) -> Seq<char>
    decreases tokens.len(),
{
    if tokens.len() == 0 {
        Seq::empty()
    } else {
        texts(tokens.drop_last()) + tokens.last().0.text@
    }
}

/// Appends a character to a string, with `String::push`.
#[verifier::external_body]
pub(crate) fn push_char(s: &mut String, c: char)
    ensures
        final(s)@ == old(s)@.push(c),
{
    s.push(c);
}

pub(crate) fn chars_of(text: &str) -> (r: Vec<char>)
    ensures
        r@ == text@,
{
    let mut r: Vec<char> = Vec::new();
    for c in it: text.chars()
        invariant
            r@ == it.seq().take(it.index() as int),
            it.seq() == text@,
    {
        r.push(c);
    }
    r
}

/// The width of the first character of a text and the rest.
proof fn lemma_byte_len_first(c: char, t: Seq<char>)
    ensures
        byte_len(seq![c] + t) == char_width(c) + byte_len(t),
    decreases t.len(),
{
    if t.len() == 0 {
        assert(seq![c] + t =~= seq![c]);
        assert(seq![c].drop_last() =~= Seq::<char>::empty());
        assert(byte_len(Seq::<char>::empty()) == 0);
        assert(byte_len(seq![c]) == byte_len(seq![c].drop_last()) + char_width(c));
    } else {
        lemma_byte_len_first(c, t.drop_last());
        assert((seq![c] + t).drop_last() =~= seq![c] + t.drop_last());
        assert((seq![c] + t).last() == t.last());
    }
}

/// The UTF-8 encoding of a text has `byte_len` bytes.
pub proof fn lemma_byte_len_utf8(s: Seq<char>)
    ensures
        byte_len(s) == vstd::utf8::encode_utf8(s).len(),
    decreases s.len(),
{
    if s.len() > 0 {
        lemma_byte_len_utf8(s.drop_first());
        lemma_byte_len_first(s[0], s.drop_first());
        assert(seq![s[0]] + s.drop_first() =~= s);
        vstd::utf8::char_is_scalar(s[0]);
    }
}

/// The length in bytes of a text fits in a `usize`.
fn text_fits(text: &str)
    ensures
        byte_len(text@) <= usize::MAX,
{
    let bytes = text.as_bytes();
    proof {
        lemma_byte_len_utf8(text@);
    }
    assert(bytes@.len() == bytes.len());
}

/// Splits the text into tokens, each with its byte range. The tokens are
/// those of [`tokens_from`], their texts spell out the input, and no token
/// has the kind `Eof`.
pub fn lex(text: &str) -> (tokens: Vec<(Token, Span)>)
    ensures
        tokens@.len() == tokens_from(text@, 0).len(),
        forall|j: int|
            #![trigger tokens@[j]]
            0 <= j < tokens@.len() ==> {
                let (kind, start, end) = tokens_from(text@, 0)[j];
                &&& tokens@[j].0.kind == kind
                &&& tokens@[j].0.text@ == text@.subrange(start, end)
                &&& tokens@[j].1.start == byte_len(text@.take(start))
                &&& tokens@[j].1.end == byte_len(text@.take(end))
                &&& kind != SyntaxKind::Eof
            },
        texts(tokens@) == text@,
{
    text_fits(text);
    let s = chars_of(text);
    let mut tokens: Vec<(Token, Span)> = Vec::new();
    let mut i: usize = 0;
    let mut byte: usize = 0;
    let ghost mut done: Seq<(SyntaxKind, int, int)> = Seq::empty();
    while i < s.len()
        invariant
            s@ == text@,
            byte_len(s@) <= usize::MAX,
            i <= s.len(),
            byte == byte_len(s@.take(i as int)),
            tokens_from(s@, 0) == done + tokens_from(s@, i as int),
            tokens@.len() == done.len(),
            texts(tokens@) == s@.take(i as int),
            forall|j: int|
                #![trigger tokens@[j]]
                0 <= j < tokens@.len() ==> {
                    let (kind, start, end) = done[j];
                    &&& tokens@[j].0.kind == kind
                    &&& tokens@[j].0.text@ == s@.subrange(start, end)
                    &&& tokens@[j].1.start == byte_len(s@.take(start))
                    &&& tokens@[j].1.end == byte_len(s@.take(end))
                    &&& kind != SyntaxKind::Eof
                },
        decreases s.len() - i,
    {
        let (kind, n) = scan_exec(&s, i);
        let mut t = String::new();
        let mut w: usize = 0;
        let mut j = i;
        while j < i + n
            invariant
                i <= j <= i + n <= s.len(),
                byte_len(s@) <= usize::MAX,
                byte == byte_len(s@.take(i as int)),
                byte + w == byte_len(s@.take(j as int)),
                t@ == s@.subrange(i as int, j as int),
            decreases i + n - j,
        {
            proof {
                assert(s@.take(j + 1).drop_last() =~= s@.take(j as int));
                lemma_byte_len_take(s@, j + 1);
                assert(s@.subrange(i as int, j + 1) =~= s@.subrange(i as int, j as int).push(s@[j as int]));
            }
            push_char(&mut t, s[j]);
            w = w + char_width_exec(s[j]);
            j = j + 1;
        }
        proof {
            lemma_byte_len_take(s@, (i + n) as int);
        }
        let ghost before = tokens@;
        tokens.push((Token { kind, text: t }, Span { start: byte, end: byte + w }));
        proof {
            assert(tokens_from(s@, i as int) =~= seq![(kind, i as int, (i + n) as int)] + tokens_from(s@, (i + n) as int));
            done = done.push((kind, i as int, (i + n) as int));
            assert(tokens@.drop_last() =~= before);
            assert(s@.take((i + n) as int) =~= s@.take(i as int) + s@.subrange(i as int, (i + n) as int));
        }
        i = i + n;
        byte = byte + w;
    }
    proof {
        assert(tokens_from(s@, i as int) =~= Seq::<(SyntaxKind, int, int)>::empty());
        assert(done + Seq::<(SyntaxKind, int, int)>::empty() =~= done);
        assert(s@.take(i as int) =~= s@);
    }
    tokens
}

/// The kinds of the tokens of the input that are no whitespace or comment.
pub open spec fn significant_kinds(ts: Seq<(SyntaxKind, int, int)>) -> Seq<SyntaxKind>
    decreases ts.len(),
{
    if ts.len() == 0 {
        Seq::empty()
    } else {
        let rest = significant_kinds(ts.drop_last());
        let k = ts.last().0;
        if k == SyntaxKind::WHITESPACE || k == SyntaxKind::Comment {
            rest
        } else {
            rest.push(k)
        }
    }
}

/// The kinds of the significant tokens of the input.
pub fn tokenize(input: &str) -> (kinds: Vec<SyntaxKind>)
    ensures
        kinds@ == significant_kinds(tokens_from(input@, 0)),
{
    let tokens = lex(input);
    let mut kinds: Vec<SyntaxKind> = Vec::new();
    let mut j: usize = 0;
    while j < tokens.len()
        invariant
            j <= tokens.len(),
            tokens@.len() == tokens_from(input@, 0).len(),
            forall|m: int|
                #![trigger tokens@[m]]
                0 <= m < tokens@.len() ==> tokens@[m].0.kind == tokens_from(input@, 0)[m].0,
            kinds@ == significant_kinds(tokens_from(input@, 0).take(j as int)),
        decreases tokens.len() - j,
    {
        let kind = tokens[j].0.kind;
        proof {
            assert(tokens_from(input@, 0).take(j + 1).drop_last() =~= tokens_from(input@, 0).take(j as int));
        }
        if !kind.is_trivia() {
            kinds.push(kind);
        }
        j = j + 1;
    }
    proof {
        assert(tokens_from(input@, 0).take(j as int) =~= tokens_from(input@, 0));
    }
    kinds
}

} // verus!
