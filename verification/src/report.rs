//! The text that the terminal shows for an error, with its backtrace, and
//! for a warning: each position with its source line, and carets under
//! the element it marks. Colors are ANSI escape sequences.

use vstd::prelude::*;
use crate::errors::{Error, ErrorView, Warning, WarningView, title, message_text};
use crate::lexer::tokeniser::{utf8_len, utf8_len_exec};
use crate::position::{Position, PositionView};
use crate::text::{decimal, push_char, to_chars, usize_to_string, string_of};

verus! {

/// `n` times the character `c`.
pub open spec fn repeat(c: char, n: nat) -> Seq<char> {
    Seq::new(n, |_i: int| c)
}

/// The number of decimal digits of `n`.
pub open spec fn digits(n: nat) -> nat {
    decimal(n).len()
}

/// The largest one-based line number of the positions of `trace`, 0 when
/// there is none.
pub open spec fn max_line(trace: Seq<PositionView>) -> nat
    decreases trace.len(),
{
    if trace.len() == 0 {
        0
    } else {
        let m = max_line(trace.drop_last());
        let n = (trace.last().line + 1) as nat;
        if n > m { n } else { m }
    }
}

/// The width of the margin of a backtrace: room for the largest line
/// number and two more columns, at least 5.
pub open spec fn trace_margin(trace: Seq<PositionView>) -> nat {
    let m = if trace.len() == 0 { 0 } else { digits(max_line(trace)) + 2 };
    if m < 5 { 5 } else { m }
}

/// The number of carets under the element at `p` on the line `line`: up
/// to its last column, or two past the end of the line when that is
/// unknown.
pub open spec fn caret_count(p: PositionView, line: Seq<char>) -> int {
    match p.last_column {
        Some(n) => n - p.first_column + 1,
        None => utf8_len(line) - p.first_column + 2,
    }
}

/// Whether the position `p` can be shown on the line `line`: the carets
/// start before they end, and the numbers fit.
pub open spec fn showable(p: PositionView, line: Seq<char>) -> bool {
    &&& p.line + 1 <= usize::MAX
    &&& match p.last_column {
        Some(n) => p.first_column <= n && n - p.first_column + 1 <= usize::MAX,
        None => p.first_column <= utf8_len(line) && utf8_len(line) - p.first_column + 2 <= usize::MAX,
    }
    &&& line.len() <= usize::MAX / 4
}

/// The first line of the block of the `i`-th position of a backtrace:
/// the title for the first one, an arrow for the others.
pub open spec fn trace_head(title: Seq<char>, margin: nat, i: int) -> Seq<char> {
    if i == 0 {
        "\x1b[31m"@ + repeat(' ', margin) + "■ \x1b[91m"@ + title + " (backtrace)\x1b[0m\n"@
    } else {
        "\x1b[31m"@ + repeat(' ', margin) + "v\x1b[0m\n"@
    }
}

/// An empty line of the margin, in the color `color`.
pub open spec fn margin_bar(color: Seq<char>, margin: nat) -> Seq<char> {
    color + repeat(' ', margin) + "|\x1b[0m\n"@
}

/// The source line `line` of the position `p`, after its line number.
pub open spec fn trace_row(margin: nat, p: PositionView, line: Seq<char>) -> Seq<char> {
    let n = decimal((p.line + 1) as nat);
    "\x1b[31m"@ + repeat(' ', (margin - (n.len() + 1)) as nat) + n + " |\x1b[0m "@ + line + "\n"@
}

/// The carets under the element at `p`, then where it is.
pub open spec fn trace_marks(margin: nat, p: PositionView, line: Seq<char>) -> Seq<char> {
    "\x1b[31m"@ + repeat(' ', margin) + "| \x1b[91m"@ + repeat(' ', p.first_column as nat) + repeat('^', caret_count(p, line) as nat)
        + "\x1b[90m         ("@ + p.filename + ":"@ + decimal((p.line + 1) as nat) + ")\x1b[0m\n"@
}

/// The lines of a backtrace about the position `p`, the `i`-th of the
/// trace, whose source line is `line`.
pub open spec fn trace_block(title: Seq<char>, margin: nat, i: int, p: PositionView, line: Seq<char>) -> Seq<char> {
    trace_head(title, margin, i) + margin_bar("\x1b[31m"@, margin) + trace_row(margin, p, line) + trace_marks(margin, p, line)
}

/// The blocks of the first `k` positions of a backtrace.
pub open spec fn trace_blocks(title: Seq<char>, margin: nat, trace: Seq<PositionView>, lines: Seq<Seq<char>>, k: int) -> Seq<char>
    decreases k,
{
    if k <= 0 {
        seq![]
    } else {
        trace_blocks(title, margin, trace, lines, k - 1) + trace_block(title, margin, k - 1, trace[k - 1], lines[k - 1])
    }
}

/// The text shown for the error `e`, whose positions have the source lines
/// `lines`: each position, from the shallowest to the deepest, then the
/// message.
pub open spec fn abort_text_spec(e: ErrorView, lines: Seq<Seq<char>>) -> Seq<char> {
    let margin = trace_margin(e.position_trace);
    let raw = repeat(' ', margin);
    trace_blocks(title(e.message.0), margin, e.position_trace, lines, e.position_trace.len() as int)
        + (if e.position_trace.len() > 0 {
            "\x1b[31m"@ + raw + "|\x1b[0m\n"@ + "\x1b[31m"@ + raw + "=>"@
        } else {
            seq![]
        })
        + "\x1b[91m "@ + message_text(e.message) + "\x1b[0m\n"@
}

/// The text shown for the warning `w`, whose position, if any, has the
/// source line `line`.
pub open spec fn warn_text_spec(w: WarningView, line: Seq<char>) -> Seq<char> {
    match w.position {
        None => "\x1b[93mWarning: "@ + w.text + "\x1b[0m\n"@,
        Some(p) => {
            let m0 = digits(p.line as nat) + 2;
            let margin = if m0 < 5 { 5 } else { m0 };
            let raw = repeat(' ', margin);
            let n = decimal((p.line + 1) as nat);
            "\x1b[93mWarning: "@ + w.text + "\x1b[0m\n"@
                + "\x1b[33m"@ + raw + "|\x1b[0m\n"@
                + "\x1b[33m"@ + repeat(' ', (margin - (n.len() + 1)) as nat) + n + " | \x1b[0m "@ + line + "\n"@
                + "\x1b[33m"@ + raw + "| \x1b[93m"@ + repeat(' ', (p.first_column + 1) as nat)
                + match p.last_column {
                    Some(l) => repeat('^', (l - p.first_column + 1) as nat),
                    None => "^"@,
                }
                + "\x1b[90m         ("@ + p.filename + ":"@ + n + ")\x1b[0m\n"@
                + "\x1b[0m\n\n"@
        },
    }
}

/// Appends `n` times the character `c`.
fn push_repeat(s: &mut String, c: char, n: usize)
    ensures
        final(s)@ == old(s)@ + repeat(c, n as nat),
{
    let mut i: usize = 0;
    while i < n
        invariant
            i <= n,
            s@ == old(s)@ + repeat(c, i as nat),
        decreases n - i,
    {
        push_char(s, c);
        i = i + 1;
        assert(s@ =~= old(s)@ + repeat(c, i as nat));
    }
}

/// The number of decimal digits of `n`.
fn digit_count(n: usize) -> (r: usize)
    ensures
        r == digits(n as nat),
{
    let s = usize_to_string(n);
    s.as_str().unicode_len()
}

proof fn lemma_digits_positive(n: nat)
    ensures
        digits(n) >= 1,
    decreases n,
{
    if n >= 10 {
        lemma_digits_positive(n / 10);
    }
}

proof fn lemma_digits_monotonic(a: nat, b: nat)
    requires
        a <= b,
    ensures
        digits(a) <= digits(b),
    decreases b,
{
    if a >= 10 {
        lemma_digits_monotonic(a / 10, b / 10);
    }
    lemma_digits_positive(a);
    lemma_digits_positive(b);
}

proof fn lemma_digits_small(n: nat)
    ensures
        digits(n) <= n / 2 + 1,
    decreases n,
{
    if n >= 10 {
        lemma_digits_small(n / 10);
        assert(digits(n) == digits(n / 10) + 1);
    }
}

/// The first line of the block of the `i`-th position of a backtrace.
fn head_text(title: &String, margin: usize, i: usize) -> (r: String)
    ensures
        r@ == trace_head(title@, margin as nat, i as int),
{
    let mut h = string_of("\x1b[31m");
    push_repeat(&mut h, ' ', margin);
    if i == 0 {
        h.append("■ \x1b[91m");
        h.append(title.as_str());
        h.append(" (backtrace)\x1b[0m\n");
    } else {
        h.append("v\x1b[0m\n");
    }
    h
}

/// An empty line of the margin, in the color `color`.
fn bar_text(color: &str, margin: usize) -> (r: String)
    ensures
        r@ == margin_bar(color@, margin as nat),
{
    let mut bar = string_of(color);
    push_repeat(&mut bar, ' ', margin);
    bar.append("|\x1b[0m\n");
    bar
}

/// The source line of a position, after its line number.
fn row_text(margin: usize, p: &Position, line: &String) -> (r: String)
    requires
        p.line + 1 <= usize::MAX,
        digits((p.line + 1) as nat) + 1 <= margin,
    ensures
        r@ == trace_row(margin as nat, p@, line@),
{
    let n = usize_to_string(p.line + 1);
    let mut row = string_of("\x1b[31m");
    push_repeat(&mut row, ' ', margin - (n.as_str().unicode_len() + 1));
    row.append(n.as_str());
    row.append(" |\x1b[0m ");
    row.append(line.as_str());
    row.append("\n");
    row
}

/// The carets under the element at a position, then where it is.
fn marks_text(margin: usize, p: &Position, line: &String) -> (r: String)
    requires
        showable(p@, line@),
    ensures
        r@ == trace_marks(margin as nat, p@, line@),
{
    let mut marks = string_of("\x1b[31m");
    push_repeat(&mut marks, ' ', margin);
    marks.append("| \x1b[91m");
    push_repeat(&mut marks, ' ', p.first_column);
    let count = match p.last_column {
        Some(l) => l - p.first_column + 1,
        None => {
            let chars = to_chars(line.as_str());
            utf8_len_exec(&chars) - p.first_column + 2
        },
    };
    push_repeat(&mut marks, '^', count);
    marks.append("\x1b[90m         (");
    marks.append(p.filename.as_str());
    marks.append(":");
    marks.append(usize_to_string(p.line + 1).as_str());
    marks.append(")\x1b[0m\n");
    marks
}

/// Appends the lines of a backtrace about the position `p`, the `i`-th of
/// the trace, whose source line is `line`.
fn push_trace_block(r: &mut String, title: &String, margin: usize, i: usize, p: &Position, line: &String)
    requires
        showable(p@, line@),
        digits((p.line + 1) as nat) + 1 <= margin,
    ensures
        final(r)@ == old(r)@ + trace_block(title@, margin as nat, i as int, p@, line@),
{
    let h = head_text(title, margin, i);
    let b = bar_text("\x1b[31m", margin);
    let w = row_text(margin, p, line);
    let m = marks_text(margin, p, line);
    let ghost before = r@;
    r.append(h.as_str());
    r.append(b.as_str());
    r.append(w.as_str());
    r.append(m.as_str());
    assert(r@ =~= before + trace_block(title@, margin as nat, i as int, p@, line@));
}

impl Error {
    /// The text shown for the error: each position of its backtrace, from
    /// the shallowest to the deepest, with its source line (`lines`, one
    /// for each position) and carets under the element, then the message.
    pub fn abort_text(&self, lines: &Vec<String>) -> (r: String)
        requires
            lines@.len() == self@.position_trace.len(),
            forall|k: int| 0 <= k < lines@.len() ==> showable(#[trigger] self@.position_trace[k], lines@[k]@),
        ensures
            r@ == abort_text_spec(self@, lines@.map_values(|l: String| l@)),
    {
        let ghost trace = self@.position_trace;
        let ghost lv = lines@.map_values(|l: String| l@);

        // the largest line number, for the width of the margin
        let mut max_n: usize = 0;
        let mut i: usize = 0;
        while i < self.position_trace.len()
            invariant
                trace == self@.position_trace,
                i <= trace.len(),
                lines@.len() == trace.len(),
                forall|k: int| 0 <= k < lines@.len() ==> showable(#[trigger] trace[k], lines@[k]@),
                max_n == max_line(trace.take(i as int)),
            decreases trace.len() - i,
        {
            assert(trace.take(i + 1).drop_last() =~= trace.take(i as int));
            assert(showable(trace[i as int], lines@[i as int]@));
            let n = self.position_trace[i].line + 1;
            if n > max_n {
                max_n = n;
            }
            i = i + 1;
        }
        assert(trace.take(i as int) =~= trace);
        let mut margin: usize = if self.position_trace.len() == 0 { 0 } else {
            proof { lemma_digits_small(max_n as nat); }
            digit_count(max_n) + 2
        };
        if margin < 5 {
            margin = 5;
        }
        assert(margin == trace_margin(trace));

        let title = self.message.get_title();
        let mut r = String::new();
        assert(r@ =~= trace_blocks(title@, margin as nat, trace, lv, 0));
        let mut i: usize = 0;
        while i < self.position_trace.len()
            invariant
                trace == self@.position_trace,
                lv == lines@.map_values(|l: String| l@),
                i <= trace.len(),
                lines@.len() == trace.len(),
                forall|k: int| 0 <= k < lines@.len() ==> showable(#[trigger] trace[k], lines@[k]@),
                margin == trace_margin(trace),
                title@ == crate::errors::title(self@.message.0),
                r@ == trace_blocks(title@, margin as nat, trace, lv, i as int),
            decreases trace.len() - i,
        {
            proof {
                lemma_max_line_bound(trace, i as int);
                lemma_digits_monotonic((trace[i as int].line + 1) as nat, max_line(trace));
            }
            push_trace_block(&mut r, &title, margin, i, &self.position_trace[i], &lines[i]);
            i = i + 1;
        }

        if self.position_trace.len() > 0 {
            r.append("\x1b[31m");
            push_repeat(&mut r, ' ', margin);
            r.append("|\x1b[0m\n");
            r.append("\x1b[31m");
            push_repeat(&mut r, ' ', margin);
            r.append("=>");
        }
        r.append("\x1b[91m ");
        r.append(self.message.to_string().as_str());
        r.append("\x1b[0m\n");
        r
    }
}

/// Each position of a trace has a line number up to the largest one.
proof fn lemma_max_line_bound(trace: Seq<PositionView>, k: int)
    requires
        0 <= k < trace.len(),
    ensures
        trace[k].line + 1 <= max_line(trace),
    decreases trace.len(),
{
    if k < trace.len() - 1 {
        lemma_max_line_bound(trace.drop_last(), k);
    }
}

impl Warning {
    /// The text shown for the warning: its text and, when it has a
    /// position, the source line `line` there with carets under the element.
    pub fn warn_text(&self, line: &String) -> (r: String)
        requires
            match self@.position {
                Some(p) => p.first_column + 1 <= usize::MAX && p.line + 1 <= usize::MAX
                    && (p.last_column matches Some(l) ==> p.first_column <= l && l - p.first_column + 1 <= usize::MAX),
                None => true,
            },
        ensures
            r@ == warn_text_spec(self@, line@),
    {
        let mut r = string_of("\x1b[93mWarning: ");
        r.append(self.text.as_str());
        r.append("\x1b[0m\n");
        match &self.position {
            None => r,
            Some(p) => {
                proof {
                    lemma_digits_small(p.line as nat);
                    lemma_digits_monotonic(p.line as nat, (p.line + 1) as nat);
                    lemma_digits_step(p.line as nat);
                }
                let mut margin = digit_count(p.line) + 2;
                if margin < 5 {
                    margin = 5;
                }
                let n = usize_to_string(p.line + 1);
                r.append("\x1b[33m");
                push_repeat(&mut r, ' ', margin);
                r.append("|\x1b[0m\n");
                r.append("\x1b[33m");
                push_repeat(&mut r, ' ', margin - (n.as_str().unicode_len() + 1));
                r.append(n.as_str());
                r.append(" | \x1b[0m ");
                r.append(line.as_str());
                r.append("\n");
                r.append("\x1b[33m");
                push_repeat(&mut r, ' ', margin);
                r.append("| \x1b[93m");
                push_repeat(&mut r, ' ', p.first_column + 1);
                match p.last_column {
                    Some(l) => push_repeat(&mut r, '^', l - p.first_column + 1),
                    None => r.append("^"),
                }
                r.append("\x1b[90m         (");
                r.append(p.filename.as_str());
                r.append(":");
                r.append(n.as_str());
                r.append(")\x1b[0m\n");
                r.append("\x1b[0m\n\n");
                r
            },
        }
    }
}

/// Counting one more never takes more than one more digit.
proof fn lemma_digits_step(n: nat)
    ensures
        digits(n + 1) <= digits(n) + 1,
    decreases n,
{
    lemma_digits_positive(n);
    if n + 1 >= 10 {
        assert(digits(n + 1) == digits((n + 1) / 10) + 1);
        if n >= 10 {
            assert(digits(n) == digits(n / 10) + 1);
            lemma_digits_step(n / 10);
            lemma_digits_monotonic((n + 1) / 10, n / 10 + 1);
        } else {
            assert((n + 1) / 10 == 1);
            assert(digits(1) == 1);
        }
    }
}

} // verus!
