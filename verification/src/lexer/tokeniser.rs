//! Conversion of the text of a source file into a list of tokens.

use vstd::prelude::*;
use crate::position::{Position, PositionView};
use crate::errors::{Error, ErrMsg, ErrKind, ErrorView, error_spec};
use crate::lexer::token::{Token, TokenView, token_spec};
use crate::lexer::keyword::Keyword;
use crate::lexer::operator::{Operator, operator_texts, operator_list, lemma_operator_round_trip, reveal_operator_texts};
use crate::lexer::separator::Separator;
use crate::lexer::numbers::{i64_syntax, parses_as_i64};
use crate::text::{from_chars, copy_range, to_chars, push_char};
use crate::lexer::tokenstream::in_file;

verus! {

/// Whether `c` is white space: whether it has the Unicode property
/// White_Space, which holds of these 25 code points.
pub open spec fn char_whitespace(c: char) -> bool {
    let u = c as int;
    ||| 0x09 <= u <= 0x0D
    ||| u == 0x20
    ||| u == 0x85
    ||| u == 0xA0
    ||| u == 0x1680
    ||| 0x2000 <= u <= 0x200A
    ||| u == 0x2028
    ||| u == 0x2029
    ||| u == 0x202F
    ||| u == 0x205F
    ||| u == 0x3000
}

/// Whether `c` is numeric (`char::is_numeric` of std: the Unicode general
/// categories for numbers, Nd, Nl and No).
pub uninterp spec fn char_numeric(c: char) -> bool;

/// Whether `c` is white space, as `char::is_whitespace` of std tells: the
/// 25 code points of `char_whitespace`.
fn is_whitespace(c: char) -> (r: bool)
    ensures
        r == char_whitespace(c),
{
    let u = c as u32;
    (0x09 <= u && u <= 0x0D) || u == 0x20 || u == 0x85 || u == 0xA0 || u == 0x1680
        || (0x2000 <= u && u <= 0x200A) || u == 0x2028 || u == 0x2029 || u == 0x202F
        || u == 0x205F || u == 0x3000
}

/// `char::is_numeric` of std; the contract names its result, which depends
/// on `c` alone, and states what it is on ASCII: the ten digits are
/// numeric and no other ASCII character is. Beyond ASCII it lists none of
/// the Unicode tables.
#[verifier::external_body]
fn is_numeric(c: char) -> (r: bool)
    ensures
        r == char_numeric(c),
        (c as int) < 0x80 ==> (r <==> '0' <= c <= '9'),
{
    c.is_numeric()
}

/// `s` without its leading white space.
pub open spec fn trim_start(s: Seq<char>) -> Seq<char>
    decreases s.len(),
{
    if s.len() > 0 && char_whitespace(s[0]) { trim_start(s.drop_first()) } else { s }
}

/// `s` without its trailing white space.
pub open spec fn trim_end(s: Seq<char>) -> Seq<char>
    decreases s.len(),
{
    if s.len() > 0 && char_whitespace(s.last()) { trim_end(s.drop_last()) } else { s }
}

/// `s` without its leading and trailing white space (`str::trim`).
pub open spec fn trim(s: Seq<char>) -> Seq<char> {
    trim_end(trim_start(s))
}

/// The number of bytes of `c` in UTF-8.
pub open spec fn utf8_width(c: char) -> nat {
    if (c as u32) < 0x80 { 1 } else if (c as u32) < 0x800 { 2 } else if (c as u32) < 0x10000 { 3 } else { 4 }
}

/// The number of bytes of `s` in UTF-8 (`str::len`).
pub open spec fn utf8_len(s: Seq<char>) -> nat
    decreases s.len(),
{
    if s.len() == 0 { 0 } else { utf8_len(s.drop_last()) + utf8_width(s.last()) }
}

/// The lines of `t` that end with a newline, and the rest after them.
pub open spec fn split_state(t: Seq<char>) -> (Seq<Seq<char>>, Seq<char>)
    decreases t.len(),
{
    if t.len() == 0 {
        (seq![], seq![])
    } else {
        let (done, cur) = split_state(t.drop_last());
        if t.last() == '\n' { (done.push(cur), seq![]) } else { (done, cur.push(t.last())) }
    }
}

/// The lines of `t`, split at each newline (`str::split('\n')`).
pub open spec fn split_lines(t: Seq<char>) -> Seq<Seq<char>> {
    split_state(t).0.push(split_state(t).1)
}

/// The tokens of a file, with their positions.
pub open spec fn tokens_view(v: Seq<(Token, Position)>) -> Seq<(TokenView, PositionView)> {
    v.map_values(|p: (Token, Position)| (p.0@, p.1@))
}

/// The state of the lexer inside a line: the tokens found so far, the
/// buffer of the current token and of the current string, and where each
/// of them starts.
pub struct LexState {
    pub tokens: Seq<(TokenView, PositionView)>,
    pub tbuf: Seq<char>,
    pub sbuf: Seq<char>,
    pub tline: usize,
    pub tcol: usize,
    pub sline: usize,
    pub scol: usize,
}

/// Where the lexer stands after some characters of a line: still reading,
/// stopped by a comment (with the tokens found), or failed.
pub enum LexOutcome {
    Running(LexState),
    Stopped(Seq<(TokenView, PositionView)>),
    Failed(ErrorView),
}

/// The position on line `line` of file `fname` from column `first` to `last`.
pub open spec fn pos_at(fname: Seq<char>, line: usize, first: usize, last: Option<usize>) -> PositionView {
    PositionView { filename: fname, line, first_column: first, last_column: last }
}

/// The tokens once the token written `text`, at `pos`, is added; the
/// syntax error when `text` is no token.
pub open spec fn push_token(
    toks: Seq<(TokenView, PositionView)>,
    text: Seq<char>,
    pos: PositionView,
) -> Result<Seq<(TokenView, PositionView)>, ErrorView> {
    match token_spec(text) {
        Ok(t) => Ok(toks.push((t, pos))),
        Err(m) => Err(error_spec((ErrKind::SyntaxError, m), Some(pos))),
    }
}

/// The operators that start a token buffer are split from it: the table of
/// operators is tried in order, from index `k`, and each operator that
/// starts what is left of the buffer becomes a token. Gives the tokens, the
/// rest of the buffer and the column where it starts.
pub open spec fn strip_ops(
    fname: Seq<char>,
    line: usize,
    buf: Seq<char>,
    col: usize,
    toks: Seq<(TokenView, PositionView)>,
    k: nat,
) -> (Seq<(TokenView, PositionView)>, Seq<char>, usize)
    decreases 14 - k,
{
    if k >= 14 {
        (toks, buf, col)
    } else {
        let op = operator_texts()[k as int];
        if buf.len() >= op.len() && buf.take(op.len() as int) == op {
            let pos = pos_at(fname, line, col, Some((col + op.len() - 1) as usize));
            strip_ops(fname, line, buf.skip(op.len() as int), (col + op.len()) as usize,
                toks.push((TokenView::Operator(operator_list()[k as int]), pos)), k + 1)
        } else {
            strip_ops(fname, line, buf, col, toks, k + 1)
        }
    }
}

/// The lexer's state on reaching column `i`: an empty token buffer starts at `i`.
pub open spec fn enter(st: LexState, li: usize, i: int) -> LexState {
    if st.tbuf.len() == 0 { LexState { tline: li, tcol: i as usize, ..st } } else { st }
}

/// A quote outside a string closes the string being read, which becomes a token.
pub open spec fn close_string(fname: Seq<char>, st: LexState, i: int, c: char) -> Result<LexState, ErrorView> {
    if st.sbuf.len() > 0 && c == '"' {
        match push_token(st.tokens, st.sbuf.push('"'), pos_at(fname, st.sline, st.scol, Some(i as usize))) {
            Ok(t) => Ok(LexState { tokens: t, sbuf: seq![], ..st }),
            Err(e) => Err(e),
        }
    } else {
        Ok(st)
    }
}

/// A comment starts at column `i`: the token being read ends, and the rest
/// of the line is skipped.
pub open spec fn at_comment(fname: Seq<char>, st: LexState, i: int) -> LexOutcome {
    if st.tbuf.len() > 0 {
        match push_token(st.tokens, st.tbuf, pos_at(fname, st.tline, st.tcol, Some((i - 1) as usize))) {
            Ok(t) => LexOutcome::Stopped(t),
            Err(e) => LexOutcome::Failed(e),
        }
    } else {
        LexOutcome::Stopped(st.tokens)
    }
}

/// Whether the character `c` ends the token being read.
pub open spec fn ends_token(c: char) -> bool {
    Separator::of_char_spec(c) is Some || c == ' ' || c == '"'
}

/// Whether the period at column `i` continues the number in the buffer:
/// the buffer is an integer and a numeric character follows.
pub open spec fn period_in_number(line: Seq<char>, i: int, buf: Seq<char>) -> bool {
    let next = if i + 1 < line.len() { line[i + 1] } else { ' ' };
    i64_syntax(buf) && line[i] == '.' && char_numeric(next)
}

/// The token buffer `buf` ends at column `i`: its leading operators (unless
/// it is a keyword), then the rest, then the separator `c` become tokens.
pub open spec fn end_token(fname: Seq<char>, li: usize, i: int, c: char, st: LexState, buf: Seq<char>) -> LexOutcome {
    let (toks1, buf1, col1) = if Keyword::parse_spec(buf) is None {
        strip_ops(fname, st.tline, buf, st.tcol, st.tokens, 0)
    } else {
        (st.tokens, buf, st.tcol)
    };
    let pushed = if buf1.len() > 0 {
        push_token(toks1, buf1, pos_at(fname, st.tline, col1, Some((i - 1) as usize)))
    } else {
        Ok(toks1)
    };
    match pushed {
        Err(e) => LexOutcome::Failed(e),
        Ok(toks2) => {
            let toks3 = match Separator::of_char_spec(c) {
                Some(s) => toks2.push((TokenView::Separator(s), pos_at(fname, li, i as usize, Some(i as usize)))),
                None => toks2,
            };
            LexOutcome::Running(LexState { tokens: toks3, tbuf: seq![], tcol: col1, ..st })
        },
    }
}

/// A character that ends tokens is met at column `i` outside a string.
pub open spec fn at_separator(fname: Seq<char>, li: usize, line: Seq<char>, i: int, st: LexState) -> LexOutcome {
    let buf = trim(st.tbuf);
    if period_in_number(line, i, buf) {
        LexOutcome::Running(LexState { tbuf: buf.push('.'), ..st })
    } else {
        end_token(fname, li, i, line[i], st, buf)
    }
}

/// What the lexer does with the character at column `i` once a string it
/// closes is a token.
pub open spec fn after_close(fname: Seq<char>, li: usize, line: Seq<char>, i: int, st: LexState) -> LexOutcome {
    let c = line[i];
    if st.sbuf.len() == 0 && c == '#' {
        at_comment(fname, st, i)
    } else if st.sbuf.len() == 0 && ends_token(c) {
        at_separator(fname, li, line, i, st)
    } else if st.sbuf.len() > 0 {
        LexOutcome::Running(LexState { sbuf: st.sbuf.push(c), ..st })
    } else {
        LexOutcome::Running(LexState { tbuf: st.tbuf.push(c), ..st })
    }
}

/// What the lexer does with the character at column `i` of line `li`.
pub open spec fn lex_step(fname: Seq<char>, li: usize, line: Seq<char>, i: int, st0: LexState) -> LexOutcome {
    let c = line[i];
    let st = enter(st0, li, i);
    if st.sbuf.len() == 0 && c == '"' {
        // start of a string
        LexOutcome::Running(LexState { sbuf: seq!['"'], sline: li, scol: i as usize, ..st })
    } else {
        match close_string(fname, st, i, c) {
            Err(e) => LexOutcome::Failed(e),
            Ok(st) => after_close(fname, li, line, i, st),
        }
    }
}

/// The state of the lexer at the start of a line.
pub open spec fn line_start(toks: Seq<(TokenView, PositionView)>) -> LexState {
    LexState { tokens: toks, tbuf: seq![], sbuf: seq![], tline: 0, tcol: 0, sline: 0, scol: 0 }
}

/// Where the lexer stands after the first `n` characters of the line.
pub open spec fn lex_prefix(fname: Seq<char>, li: usize, line: Seq<char>, n: int, start: LexState) -> LexOutcome
    decreases n,
{
    if n <= 0 {
        LexOutcome::Running(start)
    } else {
        match lex_prefix(fname, li, line, n - 1, start) {
            LexOutcome::Running(st) => lex_step(fname, li, line, n - 1, st),
            o => o,
        }
    }
}

/// The tokens once line `li` is read: what remains in the token buffer at
/// the end of the line is a token too.
pub open spec fn lex_line(
    fname: Seq<char>,
    li: usize,
    line: Seq<char>,
    toks: Seq<(TokenView, PositionView)>,
) -> Result<Seq<(TokenView, PositionView)>, ErrorView> {
    match lex_prefix(fname, li, line, line.len() as int, line_start(toks)) {
        LexOutcome::Running(st) => if st.tbuf.len() > 0 {
            push_token(st.tokens, st.tbuf, pos_at(fname, st.tline, st.tcol, Some((utf8_len(line) - 1) as usize)))
        } else {
            Ok(st.tokens)
        },
        LexOutcome::Stopped(t) => Ok(t),
        LexOutcome::Failed(e) => Err(e),
    }
}

/// The tokens once the lines from index `k` on are read.
pub open spec fn lex_lines(
    fname: Seq<char>,
    lines: Seq<Seq<char>>,
    k: int,
    toks: Seq<(TokenView, PositionView)>,
) -> Result<Seq<(TokenView, PositionView)>, ErrorView>
    decreases lines.len() - k,
{
    if k < 0 || k >= lines.len() {
        Ok(toks)
    } else {
        match lex_line(fname, k as usize, lines[k], toks) {
            Ok(t) => lex_lines(fname, lines, k + 1, t),
            Err(e) => Err(e),
        }
    }
}

/// The tokens of the text of file `fname`, with their positions; the
/// syntax error at the first text that is no token.
pub open spec fn tokenize_spec(fname: Seq<char>, text: Seq<char>) -> Result<Seq<(TokenView, PositionView)>, ErrorView> {
    lex_lines(fname, split_lines(text), 0, seq![])
}


/// The lines of the characters `text`, split at each newline.
pub fn split_into_lines(text: &[char]) -> (r: Vec<Vec<char>>)
    ensures
        r@.map_values(|l: Vec<char>| l@) == split_lines(text@),
{
    let mut done: Vec<Vec<char>> = Vec::new();
    let mut cur: Vec<char> = Vec::new();
    let mut i: usize = 0;
    while i < text.len()
        invariant
            i <= text@.len(),
            split_state(text@.take(i as int)) == (done@.map_values(|l: Vec<char>| l@), cur@),
        decreases text@.len() - i,
    {
        assert(text@.take(i + 1).drop_last() =~= text@.take(i as int));
        let c = text[i];
        if c == '\n' {
            let ghost d0 = done@;
            done.push(cur);
            cur = Vec::new();
            assert(done@.map_values(|l: Vec<char>| l@) =~= d0.map_values(|l: Vec<char>| l@).push(split_state(text@.take(i as int)).1));
        } else {
            cur.push(c);
        }
        i = i + 1;
    }
    assert(text@.take(text@.len() as int) =~= text@);
    let ghost d0 = done@;
    done.push(cur);
    assert(done@.map_values(|l: Vec<char>| l@) =~= d0.map_values(|l: Vec<char>| l@).push(split_state(text@).1));
    done
}

proof fn lemma_trim_start_skip(s: Seq<char>, a: int)
    requires
        0 <= a <= s.len(),
        forall|j: int| 0 <= j < a ==> char_whitespace(#[trigger] s[j]),
    ensures
        trim_start(s) == trim_start(s.skip(a)),
    decreases a,
{
    if a > 0 {
        assert(s.drop_first().skip(a - 1) =~= s.skip(a));
        lemma_trim_start_skip(s.drop_first(), a - 1);
    } else {
        assert(s.skip(0) =~= s);
    }
}

proof fn lemma_trim_end_take(s: Seq<char>, b: int)
    requires
        0 <= b <= s.len(),
        forall|j: int| b <= j < s.len() ==> char_whitespace(#[trigger] s[j]),
    ensures
        trim_end(s) == trim_end(s.take(b)),
    decreases s.len() - b,
{
    if b < s.len() {
        assert(s.drop_last().take(b) =~= s.take(b));
        lemma_trim_end_take(s.drop_last(), b);
    } else {
        assert(s.take(b) =~= s);
    }
}

proof fn lemma_trim_len(s: Seq<char>)
    ensures
        trim_start(s).len() <= s.len(),
        trim_end(s).len() <= s.len(),
        trim(s).len() <= s.len(),
        s.len() == 0 ==> trim(s).len() == 0,
    decreases s.len(),
{
    if s.len() > 0 {
        lemma_trim_len(s.drop_first());
        lemma_trim_len(s.drop_last());
    }
    let t = trim_start(s);
    lemma_trim_end_len(t);
}

proof fn lemma_trim_end_len(s: Seq<char>)
    ensures
        trim_end(s).len() <= s.len(),
    decreases s.len(),
{
    if s.len() > 0 {
        lemma_trim_end_len(s.drop_last());
    }
}

/// The characters `v` without leading and trailing white space.
pub fn trim_chars(v: &[char]) -> (r: Vec<char>)
    ensures
        r@ == trim(v@),
{
    let n = v.len();
    let mut a: usize = 0;
    while a < n && is_whitespace(v[a])
        invariant
            a <= n == v@.len(),
            forall|j: int| 0 <= j < a ==> char_whitespace(#[trigger] v@[j]),
        decreases n - a,
    {
        a = a + 1;
    }
    proof {
        lemma_trim_start_skip(v@, a as int);
        if a < n {
            assert(v@.skip(a as int)[0] == v@[a as int]);
        }
    }
    let ghost t = v@.skip(a as int);
    assert(trim_start(v@) == t);
    let mut b: usize = n;
    while b > a && is_whitespace(v[b - 1])
        invariant
            a <= b <= n == v@.len(),
            t == v@.skip(a as int),
            forall|j: int| b - a <= j < t.len() ==> char_whitespace(#[trigger] t[j]),
        decreases b - a,
    {
        assert(t[b - 1 - a] == v@[b - 1]);
        b = b - 1;
    }
    proof {
        lemma_trim_end_take(t, (b - a) as int);
        let u = t.take((b - a) as int);
        if b > a {
            assert(u.last() == v@[b - 1]);
        }
        assert(u =~= v@.subrange(a as int, b as int));
    }
    copy_range(v, a, b)
}

fn utf8_width_exec(c: char) -> (r: usize)
    ensures
        r == utf8_width(c),
{
    let u = c as u32;
    if u < 0x80 { 1 } else if u < 0x800 { 2 } else if u < 0x10000 { 3 } else { 4 }
}

proof fn lemma_utf8_len_bound(s: Seq<char>)
    ensures
        utf8_len(s) <= 4 * s.len(),
    decreases s.len(),
{
    if s.len() > 0 {
        lemma_utf8_len_bound(s.drop_last());
    }
}

/// The number of bytes of the characters `v` in UTF-8.
pub(crate) fn utf8_len_exec(v: &[char]) -> (r: usize)
    requires
        v@.len() <= usize::MAX / 4,
    ensures
        r == utf8_len(v@),
{
    let mut total: usize = 0;
    let mut i: usize = 0;
    while i < v.len()
        invariant
            i <= v@.len() <= usize::MAX / 4,
            total == utf8_len(v@.take(i as int)),
        decreases v@.len() - i,
    {
        assert(v@.take(i + 1).drop_last() =~= v@.take(i as int));
        proof { lemma_utf8_len_bound(v@.take(i as int)); }
        total = total + utf8_width_exec(v[i]);
        i = i + 1;
    }
    assert(v@.take(v@.len() as int) =~= v@);
    total
}


/// Adds the token written `text`, at `pos`, to `toks`; the syntax error
/// when `text` is no token.
fn push_token_exec(toks: &mut Vec<(Token, Position)>, text: &[char], pos: Position) -> (r: Result<(), Error>)
    ensures
        match r {
            Ok(()) => push_token(tokens_view(old(toks)@), text@, pos@) == Ok::<Seq<(TokenView, PositionView)>, ErrorView>(tokens_view(final(toks)@)),
            Err(e) => push_token(tokens_view(old(toks)@), text@, pos@) == Err::<Seq<(TokenView, PositionView)>, ErrorView>(e@),
        },
{
    let s = from_chars(text);
    match Token::from_str(s.as_str()) {
        Ok(t) => {
            let ghost old_toks = toks@;
            toks.push((t, pos));
            assert(tokens_view(toks@) =~= tokens_view(old_toks).push((t@, pos@)));
            Ok(())
        },
        Err(m) => Err(Error::new(ErrMsg::SyntaxError(m), Some(pos))),
    }
}

/// The operator at index `k` of the lexer's table.
fn operator_at(k: usize) -> (r: Operator)
    requires
        k < 14,
    ensures
        r == operator_list()[k as int],
{
    match k {
        0 => Operator::Add,
        1 => Operator::Sub,
        2 => Operator::Mul,
        3 => Operator::Div,
        4 => Operator::Mod,
        5 => Operator::Le,
        6 => Operator::Ge,
        7 => Operator::Eq,
        8 => Operator::Lw,
        9 => Operator::Gr,
        10 => Operator::And,
        11 => Operator::Or,
        12 => Operator::Inv,
        _ => Operator::Len,
    }
}

/// Whether `buf` starts with `prefix`.
fn starts_with(buf: &[char], prefix: &[char]) -> (r: bool)
    ensures
        r == (buf@.len() >= prefix@.len() && buf@.take(prefix@.len() as int) == prefix@),
{
    if buf.len() < prefix.len() {
        return false;
    }
    let mut i: usize = 0;
    while i < prefix.len()
        invariant
            i <= prefix@.len() <= buf@.len(),
            forall|j: int| 0 <= j < i ==> buf@[j] == prefix@[j],
        decreases prefix@.len() - i,
    {
        if buf[i] != prefix[i] {
            assert(buf@.take(prefix@.len() as int)[i as int] == buf@[i as int]);
            return false;
        }
        i = i + 1;
    }
    assert(buf@.take(prefix@.len() as int) =~= prefix@);
    true
}

/// Splits the operators that start `buf` into tokens, as `strip_ops` says.
fn strip_ops_exec(
    fname: &String,
    line: usize,
    buf: Vec<char>,
    col: usize,
    toks: &mut Vec<(Token, Position)>,
) -> (r: (Vec<char>, usize))
    requires
        col + buf@.len() <= usize::MAX,
    ensures
        strip_ops(fname@, line, buf@, col, tokens_view(old(toks)@), 0) == (tokens_view(final(toks)@), r.0@, r.1),
        r.1 + r.0@.len() == col + buf@.len(),
{
    let ghost goal = strip_ops(fname@, line, buf@, col, tokens_view(toks@), 0);
    let mut b = buf;
    let mut c = col;
    let mut k: usize = 0;
    proof {
        lemma_operator_round_trip(Operator::Add);
        crate::lexer::operator::reveal_operator_texts();
    }
    while k < 14
        invariant
            k <= 14,
            c + b@.len() == col + buf@.len(),
            col + buf@.len() <= usize::MAX,
            strip_ops(fname@, line, b@, c, tokens_view(toks@), k as nat) == goal,
            forall|i: int| 0 <= i < operator_texts().len() ==> #[trigger] operator_texts()[i] == operator_list()[i].text(),
            operator_texts().len() == 14,
            forall|i: int| 0 <= i < 14 ==> (#[trigger] operator_texts()[i]).len() >= 1,
        decreases 14 - k,
    {
        let op = operator_at(k);
        let text = to_chars(op.to_string().as_str());
        assert(text@ == operator_texts()[k as int]);
        if starts_with(&b, &text) {
            let len = text.len();
            let pos = Position { filename: fname.clone(), line: line, first_column: c, last_column: Some(c + len - 1) };
            let ghost old_toks = toks@;
            toks.push((Token::Operator(op), pos));
            assert(tokens_view(toks@) =~= tokens_view(old_toks).push((TokenView::Operator(operator_list()[k as int]), pos_at(fname@, line, c, Some((c + len - 1) as usize)))));
            b = copy_range(&b, len, b.len());
            c = c + len;
        }
        k = k + 1;
    }
    (b, c)
}

/// Once the lexer has stopped or failed in a line, further characters
/// change nothing.
proof fn lemma_prefix_settled(fname: Seq<char>, li: usize, line: Seq<char>, start: LexState, m: int, n: int)
    requires
        0 <= m <= n,
        !(lex_prefix(fname, li, line, m, start) is Running),
    ensures
        lex_prefix(fname, li, line, n, start) == lex_prefix(fname, li, line, m, start),
    decreases n - m,
{
    if m < n {
        lemma_prefix_settled(fname, li, line, start, m, n - 1);
    }
}

proof fn lemma_utf8_len_pos(s: Seq<char>)
    ensures
        utf8_len(s) >= s.len(),
    decreases s.len(),
{
    if s.len() > 0 {
        lemma_utf8_len_pos(s.drop_last());
    }
}

/// The buffers of the lexer inside a line; the tokens found are kept apart.
struct LineLexer {
    tbuf: Vec<char>,
    sbuf: Vec<char>,
    tline: usize,
    tcol: usize,
    sline: usize,
    scol: usize,
}

/// The state of the lexer that `lx` and the tokens `toks` make.
spec fn state_of(lx: &LineLexer, toks: Seq<(Token, Position)>) -> LexState {
    LexState {
        tokens: tokens_view(toks),
        tbuf: lx.tbuf@,
        sbuf: lx.sbuf@,
        tline: lx.tline,
        tcol: lx.tcol,
        sline: lx.sline,
        scol: lx.scol,
    }
}

/// Bounds on the columns of the lexer at column `i`, which keep its
/// arithmetic in range.
spec fn bounded(lx: &LineLexer, i: int) -> bool {
    &&& lx.tbuf@.len() <= i
    &&& lx.tbuf@.len() > 0 ==> lx.tcol < i
    &&& lx.tcol <= 2 * i
    &&& lx.sbuf@.len() > 0 ==> lx.scol < i
    &&& i <= usize::MAX / 4
}

/// Closes the string being read when `c` is a quote, as `close_string` says.
fn close_string_exec(fname: &String, lx: &mut LineLexer, toks: &mut Vec<(Token, Position)>, i: usize, c: char) -> (r: Result<(), Error>)
    ensures
        match close_string(fname@, state_of(old(lx), old(toks)@), i as int, c) {
            Ok(st) => r is Ok && st == state_of(final(lx), final(toks)@),
            Err(e) => r matches Err(e2) && e == e2@,
        },
        final(lx).tbuf == old(lx).tbuf,
        final(lx).tline == old(lx).tline,
        final(lx).tcol == old(lx).tcol,
        final(lx).sline == old(lx).sline,
        final(lx).scol == old(lx).scol,
        r is Ok ==> (final(lx).sbuf@.len() == 0 || final(lx).sbuf == old(lx).sbuf),
{
    if lx.sbuf.len() > 0 && c == '"' {
        lx.sbuf.push('"');
        let pos = Position { filename: fname.clone(), line: lx.sline, first_column: lx.scol, last_column: Some(i) };
        push_token_exec(toks, &lx.sbuf, pos)?;
        lx.sbuf = Vec::new();
    }
    Ok(())
}

/// Ends the token being read at a comment, as `at_comment` says.
fn at_comment_exec(fname: &String, lx: &LineLexer, toks: &mut Vec<(Token, Position)>, i: usize) -> (r: Result<(), Error>)
    requires
        lx.tbuf@.len() > 0 ==> lx.tcol < i,
    ensures
        match at_comment(fname@, state_of(lx, old(toks)@), i as int) {
            LexOutcome::Stopped(t) => r is Ok && t == tokens_view(final(toks)@),
            LexOutcome::Failed(e) => r matches Err(e2) && e == e2@,
            LexOutcome::Running(_) => false,
        },
{
    if lx.tbuf.len() > 0 {
        let pos = Position { filename: fname.clone(), line: lx.tline, first_column: lx.tcol, last_column: Some(i - 1) };
        push_token_exec(toks, &lx.tbuf, pos)?;
    }
    Ok(())
}

/// Ends the token buffer `buf` at column `i`, as `end_token` says.
fn end_token_exec(
    fname: &String,
    li: usize,
    i: usize,
    c: char,
    lx: &mut LineLexer,
    toks: &mut Vec<(Token, Position)>,
    buf: Vec<char>,
) -> (r: Result<(), Error>)
    requires
        buf@.len() <= old(lx).tbuf@.len(),
        bounded(old(lx), i as int),
        old(lx).tcol <= i,
    ensures
        match end_token(fname@, li, i as int, c, state_of(old(lx), old(toks)@), buf@) {
            LexOutcome::Running(st) => r is Ok && st == state_of(final(lx), final(toks)@),
            LexOutcome::Failed(e) => r matches Err(e2) && e == e2@,
            LexOutcome::Stopped(_) => false,
        },
        r is Ok ==> final(lx).tbuf@.len() == 0 && final(lx).tcol <= 2 * i,
        final(lx).sbuf == old(lx).sbuf,
        final(lx).scol == old(lx).scol,
{
    let is_keyword = Keyword::from_str(from_chars(&buf).as_str()).is_ok();
    let (buf1, col1) = if !is_keyword {
        strip_ops_exec(fname, lx.tline, buf, lx.tcol, toks)
    } else {
        (buf, lx.tcol)
    };
    if buf1.len() > 0 {
        let pos = Position { filename: fname.clone(), line: lx.tline, first_column: col1, last_column: Some(i - 1) };
        push_token_exec(toks, &buf1, pos)?;
    }
    match Separator::from_char(c) {
        Some(s) => {
            let ghost old_toks = toks@;
            toks.push((Token::Separator(s), Position { filename: fname.clone(), line: li, first_column: i, last_column: Some(i) }));
            assert(tokens_view(toks@) =~= tokens_view(old_toks).push((TokenView::Separator(s), pos_at(fname@, li, i, Some(i)))));
        },
        None => {},
    }
    lx.tbuf = Vec::new();
    lx.tcol = col1;
    Ok(())
}

/// Handles a character that ends tokens, as `at_separator` says.
fn at_separator_exec(
    fname: &String,
    li: usize,
    line: &Vec<char>,
    i: usize,
    lx: &mut LineLexer,
    toks: &mut Vec<(Token, Position)>,
) -> (r: Result<(), Error>)
    requires
        i < line@.len() <= usize::MAX / 4,
        bounded(old(lx), i as int),
        old(lx).tcol <= i,
    ensures
        match at_separator(fname@, li, line@, i as int, state_of(old(lx), old(toks)@)) {
            LexOutcome::Running(st) => r is Ok && st == state_of(final(lx), final(toks)@),
            LexOutcome::Failed(e) => r matches Err(e2) && e == e2@,
            LexOutcome::Stopped(_) => false,
        },
        r is Ok ==> bounded(final(lx), i + 1),
{
    let buf = trim_chars(&lx.tbuf);
    proof { lemma_trim_len(lx.tbuf@); }
    let next = if i + 1 < line.len() { line[i + 1] } else { ' ' };
    if parses_as_i64(&buf) && line[i] == '.' && is_numeric(next) {
        lx.tbuf = buf;
        lx.tbuf.push('.');
        Ok(())
    } else {
        end_token_exec(fname, li, i, line[i], lx, toks, buf)
    }
}

/// Reads the character at column `i`, as `lex_step` says.
fn lex_step_exec(
    fname: &String,
    li: usize,
    line: &Vec<char>,
    i: usize,
    lx: &mut LineLexer,
    toks: &mut Vec<(Token, Position)>,
) -> (r: Result<bool, Error>)
    requires
        i < line@.len() <= usize::MAX / 4,
        bounded(old(lx), i as int),
    ensures
        match lex_step(fname@, li, line@, i as int, state_of(old(lx), old(toks)@)) {
            LexOutcome::Running(st) => r == Ok::<bool, Error>(true) && st == state_of(final(lx), final(toks)@)
                && bounded(final(lx), i + 1),
            LexOutcome::Stopped(t) => r == Ok::<bool, Error>(false) && t == tokens_view(final(toks)@),
            LexOutcome::Failed(e) => r matches Err(e2) && e == e2@,
        },
{
    let c = line[i];
    if lx.tbuf.len() == 0 {
        lx.tline = li;
        lx.tcol = i;
    }
    if lx.sbuf.len() == 0 && c == '"' {
        lx.sbuf = vec!['"'];
        lx.sline = li;
        lx.scol = i;
        assert(lx.sbuf@ =~= seq!['"']);
        return Ok(true);
    }
    close_string_exec(fname, lx, toks, i, c)?;
    if lx.sbuf.len() == 0 && c == '#' {
        at_comment_exec(fname, lx, toks, i)?;
        return Ok(false);
    }
    if lx.sbuf.len() == 0 && (Separator::from_char(c).is_some() || c == ' ' || c == '"') {
        at_separator_exec(fname, li, line, i, lx, toks)?;
    } else if lx.sbuf.len() > 0 {
        lx.sbuf.push(c);
    } else {
        lx.tbuf.push(c);
    }
    Ok(true)
}

/// Reads line `li` of file `fname`, adding its tokens to `toks`.
fn lex_line_exec(fname: &String, li: usize, line: &Vec<char>, toks: &mut Vec<(Token, Position)>) -> (r: Result<(), Error>)
    requires
        line@.len() <= usize::MAX / 4,
    ensures
        match r {
            Ok(()) => lex_line(fname@, li, line@, tokens_view(old(toks)@)) == Ok::<Seq<(TokenView, PositionView)>, ErrorView>(tokens_view(final(toks)@)),
            Err(e) => lex_line(fname@, li, line@, tokens_view(old(toks)@)) == Err::<Seq<(TokenView, PositionView)>, ErrorView>(e@),
        },
{
    let ghost start = line_start(tokens_view(toks@));
    let mut lx = LineLexer { tbuf: Vec::new(), sbuf: Vec::new(), tline: 0, tcol: 0, sline: 0, scol: 0 };
    let n = line.len();
    let mut i: usize = 0;
    assert(state_of(&lx, toks@) == start);
    while i < n
        invariant
            n == line@.len() <= usize::MAX / 4,
            i <= n,
            start == line_start(tokens_view(old(toks)@)),
            lex_prefix(fname@, li, line@, i as int, start) == LexOutcome::Running(state_of(&lx, toks@)),
            bounded(&lx, i as int),
        decreases n - i,
    {
        assert(lex_prefix(fname@, li, line@, i + 1, start) == lex_step(fname@, li, line@, i as int, state_of(&lx, toks@)));
        let going = match lex_step_exec(fname, li, line, i, &mut lx, toks) {
            Ok(g) => g,
            Err(e) => {
                proof {
                    lemma_prefix_settled(fname@, li, line@, start, i + 1, n as int);
                    assert(lex_prefix(fname@, li, line@, n as int, start) == LexOutcome::Failed(e@));
                }
                return Err(e);
            },
        };
        if !going {
            proof { lemma_prefix_settled(fname@, li, line@, start, i + 1, n as int); }
            return Ok(());
        }
        i = i + 1;
    }
    if lx.tbuf.len() > 0 {
        let len = utf8_len_exec(line);
        proof { lemma_utf8_len_pos(line@); }
        let pos = Position { filename: fname.clone(), line: lx.tline, first_column: lx.tcol, last_column: Some(len - 1) };
        return push_token_exec(toks, &lx.tbuf, pos);
    }
    Ok(())
}

proof fn lemma_split_bounds(t: Seq<char>)
    ensures
        split_state(t).1.len() <= t.len(),
        split_state(t).0.len() <= t.len(),
        forall|k: int| 0 <= k < split_state(t).0.len() ==> (#[trigger] split_state(t).0[k]).len() <= t.len(),
    decreases t.len(),
{
    if t.len() > 0 {
        lemma_split_bounds(t.drop_last());
    }
}

/// Adding a token at a position in the file keeps the tokens in the file.
proof fn lemma_push_token_in_file(toks: Seq<(TokenView, PositionView)>, text: Seq<char>, pos: PositionView, f: Seq<char>)
    requires
        in_file(toks, f),
        pos.filename == f,
    ensures
        push_token(toks, text, pos) matches Ok(t) ==> in_file(t, f),
{
    if let Ok(t) = push_token(toks, text, pos) {
        assert forall|k: int| 0 <= k < t.len() implies (#[trigger] t[k]).1.filename == f by {
            if k < toks.len() {
                assert(t[k] == toks[k]);
            }
        }
    }
}

/// The operators split from a token buffer are in the file.
proof fn lemma_strip_ops_in_file(
    fname: Seq<char>,
    line: usize,
    buf: Seq<char>,
    col: usize,
    toks: Seq<(TokenView, PositionView)>,
    k: nat,
)
    requires
        in_file(toks, fname),
    ensures
        in_file(strip_ops(fname, line, buf, col, toks, k).0, fname),
    decreases 14 - k,
{
    if k < 14 {
        let op = operator_texts()[k as int];
        if buf.len() >= op.len() && buf.take(op.len() as int) == op {
            let pos = pos_at(fname, line, col, Some((col + op.len() - 1) as usize));
            let t = toks.push((TokenView::Operator(operator_list()[k as int]), pos));
            assert forall|j: int| 0 <= j < t.len() implies (#[trigger] t[j]).1.filename == fname by {
                if j < toks.len() {
                    assert(t[j] == toks[j]);
                }
            }
            lemma_strip_ops_in_file(fname, line, buf.skip(op.len() as int), (col + op.len()) as usize, t, k + 1);
        } else {
            lemma_strip_ops_in_file(fname, line, buf, col, toks, k + 1);
        }
    }
}

/// What the lexer finds at a character is in the file.
proof fn lemma_step_in_file(fname: Seq<char>, li: usize, line: Seq<char>, i: int, st0: LexState)
    requires
        in_file(st0.tokens, fname),
        0 <= i < line.len(),
    ensures
        match lex_step(fname, li, line, i, st0) {
            LexOutcome::Running(st) => in_file(st.tokens, fname),
            LexOutcome::Stopped(t) => in_file(t, fname),
            LexOutcome::Failed(_) => true,
        },
{
    let c = line[i];
    let st = enter(st0, li, i);
    if !(st.sbuf.len() == 0 && c == '"') {
        if st.sbuf.len() > 0 && c == '"' {
            lemma_push_token_in_file(st.tokens, st.sbuf.push('"'), pos_at(fname, st.sline, st.scol, Some(i as usize)), fname);
        }
        if let Ok(st1) = close_string(fname, st, i, c) {
            if st1.sbuf.len() == 0 && c == '#' {
                if st1.tbuf.len() > 0 {
                    lemma_push_token_in_file(st1.tokens, st1.tbuf, pos_at(fname, st1.tline, st1.tcol, Some((i - 1) as usize)), fname);
                }
            } else if st1.sbuf.len() == 0 && ends_token(c) {
                let buf = trim(st1.tbuf);
                if !period_in_number(line, i, buf) {
                    lemma_strip_ops_in_file(fname, st1.tline, buf, st1.tcol, st1.tokens, 0);
                    let (toks1, buf1, col1) = if Keyword::parse_spec(buf) is None {
                        strip_ops(fname, st1.tline, buf, st1.tcol, st1.tokens, 0)
                    } else {
                        (st1.tokens, buf, st1.tcol)
                    };
                    if buf1.len() > 0 {
                        lemma_push_token_in_file(toks1, buf1, pos_at(fname, st1.tline, col1, Some((i - 1) as usize)), fname);
                    }
                    let pushed = if buf1.len() > 0 {
                        push_token(toks1, buf1, pos_at(fname, st1.tline, col1, Some((i - 1) as usize)))
                    } else {
                        Ok(toks1)
                    };
                    if let Ok(toks2) = pushed {
                        if let Some(sep) = Separator::of_char_spec(c) {
                            let t = toks2.push((TokenView::Separator(sep), pos_at(fname, li, i as usize, Some(i as usize))));
                            assert forall|j: int| 0 <= j < t.len() implies (#[trigger] t[j]).1.filename == fname by {
                                if j < toks2.len() {
                                    assert(t[j] == toks2[j]);
                                }
                            }
                        }
                    }
                }
            }
        }
    }
}

/// What the lexer finds in the first `n` characters of a line is in the file.
proof fn lemma_prefix_in_file(fname: Seq<char>, li: usize, line: Seq<char>, n: int, start: LexState)
    requires
        in_file(start.tokens, fname),
        n <= line.len(),
    ensures
        match lex_prefix(fname, li, line, n, start) {
            LexOutcome::Running(st) => in_file(st.tokens, fname),
            LexOutcome::Stopped(t) => in_file(t, fname),
            LexOutcome::Failed(_) => true,
        },
    decreases n,
{
    if n > 0 {
        lemma_prefix_in_file(fname, li, line, n - 1, start);
        if let LexOutcome::Running(st) = lex_prefix(fname, li, line, n - 1, start) {
            lemma_step_in_file(fname, li, line, n - 1, st);
        }
    }
}

/// The tokens of the lines from index `k` on are in the file.
proof fn lemma_lines_in_file(fname: Seq<char>, lines: Seq<Seq<char>>, k: int, toks: Seq<(TokenView, PositionView)>)
    requires
        in_file(toks, fname),
    ensures
        lex_lines(fname, lines, k, toks) matches Ok(t) ==> in_file(t, fname),
    decreases lines.len() - k,
{
    if 0 <= k < lines.len() {
        let line = lines[k];
        lemma_prefix_in_file(fname, k as usize, line, line.len() as int, line_start(toks));
        if let LexOutcome::Running(st) = lex_prefix(fname, k as usize, line, line.len() as int, line_start(toks)) {
            if st.tbuf.len() > 0 {
                lemma_push_token_in_file(st.tokens, st.tbuf, pos_at(fname, st.tline, st.tcol, Some((utf8_len(line) - 1) as usize)), fname);
            }
        }
        if let Ok(t) = lex_line(fname, k as usize, line, toks) {
            lemma_lines_in_file(fname, lines, k + 1, t);
        }
    }
}

/// Every token of a file is in that file.
pub proof fn lemma_tokenize_in_file(fname: Seq<char>, text: Seq<char>)
    ensures
        tokenize_spec(fname, text) matches Ok(t) ==> in_file(t, fname),
{
    lemma_lines_in_file(fname, split_lines(text), 0, seq![]);
}

/// The tokens of the text `text` of the file `filename`, each with its
/// position; the syntax error at the first text that is no token.
pub fn from_text(filename: &str, text: &str) -> (r: Result<Vec<(Token, Position)>, Error>)
    requires
        text@.len() <= usize::MAX / 4,
    ensures
        match r {
            Ok(v) => tokenize_spec(filename@, text@) == Ok::<Seq<(TokenView, PositionView)>, ErrorView>(tokens_view(v@)),
            Err(e) => tokenize_spec(filename@, text@) == Err::<Seq<(TokenView, PositionView)>, ErrorView>(e@),
        },
{
    let fname = crate::text::string_of(filename);
    let chars = to_chars(text);
    let lines = split_into_lines(&chars);
    let ghost lv = lines@.map_values(|l: Vec<char>| l@);
    proof { lemma_split_bounds(text@); }
    let mut toks: Vec<(Token, Position)> = Vec::new();
    let mut k: usize = 0;
    assert(tokens_view(toks@) =~= Seq::<(TokenView, PositionView)>::empty());
    while k < lines.len()
        invariant
            lv == lines@.map_values(|l: Vec<char>| l@),
            lv == split_lines(text@),
            text@.len() <= usize::MAX / 4,
            forall|j: int| 0 <= j < lv.len() ==> (#[trigger] lv[j]).len() <= text@.len(),
            k <= lines@.len(),
            fname@ == filename@,
            tokenize_spec(filename@, text@) == lex_lines(filename@, lv, k as int, tokens_view(toks@)),
        decreases lines@.len() - k,
    {
        assert(lv[k as int] == lines@[k as int]@);
        match lex_line_exec(&fname, k, &lines[k], &mut toks) {
            Ok(()) => {},
            Err(e) => return Err(e),
        }
        k = k + 1;
    }
    Ok(toks)
}

/// Whether the operator text `op` starts the buffer `buf`.
pub open spec fn starts_buffer(buf: Seq<char>, op: Seq<char>) -> bool {
    buf.len() >= op.len() && buf.take(op.len() as int) == op
}

/// No operator text is empty.
proof fn lemma_operator_texts_nonempty(k: int)
    requires
        0 <= k < 14,
    ensures
        operator_texts()[k].len() > 0,
{
    reveal_operator_texts();
}

/// Stripping operators from an empty buffer adds no token.
proof fn lemma_strip_empty(fname: Seq<char>, line: usize, col: usize, toks: Seq<(TokenView, PositionView)>, k: nat)
    ensures
        strip_ops(fname, line, Seq::<char>::empty(), col, toks, k) == (toks, Seq::<char>::empty(), col),
    decreases 14 - k,
{
    if k < 14 {
        lemma_operator_texts_nonempty(k as int);
        lemma_strip_empty(fname, line, col, toks, k + 1);
    }
}

/// The operators of the table that do not start the buffer are passed over.
proof fn lemma_strip_pass(fname: Seq<char>, line: usize, buf: Seq<char>, col: usize, toks: Seq<(TokenView, PositionView)>, k: nat, j: nat)
    requires
        k <= j <= 14,
        forall|m: int| k <= m < j ==> !starts_buffer(buf, #[trigger] operator_texts()[m]),
    ensures
        strip_ops(fname, line, buf, col, toks, k) == strip_ops(fname, line, buf, col, toks, j),
    decreases j - k,
{
    if k < j {
        assert(!starts_buffer(buf, operator_texts()[k as int]));
        lemma_strip_pass(fname, line, buf, col, toks, k + 1, j);
    }
}

/// In the table, no operator text before the `j`-th starts the `j`-th.
proof fn lemma_operator_text_first(j: int, m: int)
    requires
        0 <= m < j < 14,
    ensures
        !starts_buffer(operator_texts()[j], operator_texts()[m]),
{
    reveal_operator_texts();
    let t = operator_texts()[j];
    let u = operator_texts()[m];
    if t.len() >= u.len() && t.take(u.len() as int) == u {
        assert(t[0] == u[0]);
        if u.len() == 2 {
            assert(t[1] == u[1]);
        }
    }
}

/// No operator text is a keyword.
proof fn lemma_operator_not_keyword(o: Operator)
    ensures
        Keyword::parse_spec(o.text()) is None,
{
    reveal_operator_texts();
    reveal_strlit("builtin");
    reveal_strlit("import");
    reveal_strlit("static");
    reveal_strlit("structure");
    reveal_strlit("define");
    reveal_strlit("for");
    reveal_strlit("->");
    reveal_strlit("new");
    reveal_strlit("=");
    reveal_strlit("if");
    reveal_strlit("while");
    let t = o.text();
    assert(t.len() <= 2);
    assert("builtin"@.len() == 7 && "import"@.len() == 6 && "static"@.len() == 6 && "structure"@.len() == 9);
    assert("define"@.len() == 6 && "for"@.len() == 3 && "new"@.len() == 3 && "while"@.len() == 5);
    assert("->"@[0] == '-' && "->"@[1] == '>' && "="@.len() == 1 && "="@[0] == '=' && "if"@[0] == 'i');
    if t.len() == 1 {
        assert(t[0] != '=');
    } else {
        assert(t[1] != '>' || t[0] != '-');
        assert(t[0] != 'i');
    }
}

/// An operator's text that stands alone in a token buffer becomes one
/// token, that operator, spanning its characters, and leaves nothing of
/// the buffer: `<=` and `>=` are read whole, not as `<` or `>` and then `=`.
/// Such a buffer is no keyword, so the lexer does strip it.
pub proof fn lemma_strip_lone_operator(
    o: Operator,
    fname: Seq<char>,
    line: usize,
    col: usize,
    toks: Seq<(TokenView, PositionView)>,
)
    requires
        col + 2 <= usize::MAX,
    ensures
        strip_ops(fname, line, o.text(), col, toks, 0) == (
            toks.push((TokenView::Operator(o), pos_at(fname, line, col, Some((col + o.text().len() - 1) as usize)))),
            Seq::<char>::empty(),
            (col + o.text().len()) as usize,
        ),
        Keyword::parse_spec(o.text()) is None,
{
    lemma_operator_round_trip(o);
    lemma_operator_not_keyword(o);
    let j = choose|j: int| 0 <= j < operator_list().len() && operator_list()[j] == o;
    let t = o.text();
    assert(operator_texts()[j] == t);
    assert forall|m: int| 0 <= m < j implies !starts_buffer(t, #[trigger] operator_texts()[m]) by {
        lemma_operator_text_first(j, m);
    }
    lemma_strip_pass(fname, line, t, col, toks, 0, j as nat);
    reveal_operator_texts();
    assert(t.len() <= 2);
    assert(t.take(t.len() as int) =~= t);
    assert(t.skip(t.len() as int) =~= Seq::<char>::empty());
    let pos = pos_at(fname, line, col, Some((col + t.len() - 1) as usize));
    lemma_strip_empty(fname, line, (col + t.len()) as usize, toks.push((TokenView::Operator(o), pos)), (j + 1) as nat);
}

} // verus!
