//! The stream of the tokens of a file, read by the parser.

use vstd::prelude::*;
use crate::lexer::token::{Token, TokenView};
use crate::lexer::tokeniser::tokens_view;
use crate::position::{Position, PositionView};

verus! {

/// Iterator-like structure listing each token of a file along with its
/// position, and a cursor on the current token.
pub struct TokenStream {
    pub filename: String,
    pub tokens: Vec<(Token, Position)>,
    /// How many of the tokens the stream holds.
    pub nb_tokens: usize,
    /// The index of the current token.
    pub current: usize,
}

/// The view of a token and its position, if any.
pub open spec fn entry_view(e: Option<(Token, Position)>) -> Option<(TokenView, PositionView)> {
    match e {
        Some(p) => Some((p.0@, p.1@)),
        None => None,
    }
}

/// The entry at index `i` of a stream of the tokens `items`: none past the end.
pub open spec fn entry_at(items: Seq<(TokenView, PositionView)>, i: int) -> Option<(TokenView, PositionView)> {
    if 0 <= i < items.len() { Some(items[i]) } else { None }
}

/// Whether every token of `toks` is in the file `f`.
pub open spec fn in_file(toks: Seq<(TokenView, PositionView)>, f: Seq<char>) -> bool {
    forall|k: int| 0 <= k < toks.len() ==> (#[trigger] toks[k]).1.filename == f
}

impl TokenStream {
    /// The stream moved `n` tokens forward.
    pub closed spec fn moved(self, n: int) -> TokenStream {
        TokenStream { current: (self.current + n) as usize, ..self }
    }

    /// The tokens the stream holds, with their positions.
    pub closed spec fn items(&self) -> Seq<(TokenView, PositionView)> {
        tokens_view(self.tokens@).take(self.nb_tokens as int)
    }

    /// The name of the file the tokens come from.
    pub closed spec fn file_name(&self) -> Seq<char> {
        self.filename@
    }

    /// The index of the current token.
    pub closed spec fn cursor(&self) -> int {
        self.current as int
    }

    /// The number of tokens the stream holds.
    pub closed spec fn count(&self) -> nat {
        self.nb_tokens as nat
    }

    /// Whether the stream holds no more tokens than its vector does.
    pub closed spec fn wf(&self) -> bool {
        self.nb_tokens <= self.tokens@.len()
    }

    /// The stream holds as many tokens as it counts.
    pub proof fn lemma_items_len(&self)
        requires
            self.wf(),
        ensures
            self.items().len() == self.count(),
            self.count() <= usize::MAX,
            self.cursor() >= 0,
    {
    }

    /// The entry at the cursor.
    pub open spec fn current_spec(&self) -> Option<(TokenView, PositionView)> {
        entry_at(self.items(), self.cursor())
    }

    pub fn new(filename: String, tokens: Vec<(Token, Position)>, nb_tokens: usize, current: usize) -> (r: TokenStream)
        ensures
            r.filename == filename,
            r.tokens == tokens,
            r.file_name() == filename@,
            r.count() == nb_tokens,
            r.cursor() == current,
            nb_tokens <= tokens@.len() ==> r.wf() && r.items() == tokens_view(tokens@).take(nb_tokens as int),
    {
        TokenStream { filename, tokens, nb_tokens, current }
    }

    /// The entry at index `index`, if any.
    pub fn nth(&self, index: usize) -> (r: Option<(Token, Position)>)
        requires
            self.wf(),
        ensures
            entry_view(r) == entry_at(self.items(), index as int),
    {
        if index >= self.nb_tokens {
            None
        } else {
            let e = &self.tokens[index];
            Some((e.0.duplicate(), e.1.duplicate()))
        }
    }

    /// The entry at the cursor, if any.
    pub fn current(&self) -> (r: Option<(Token, Position)>)
        requires
            self.wf(),
        ensures
            entry_view(r) == self.current_spec(),
    {
        self.nth(self.current)
    }

    /// Moves the cursor to the next token and returns it.
    pub fn next(&mut self) -> (r: Option<(Token, Position)>)
        requires
            old(self).wf(),
            old(self).cursor() < usize::MAX,
        ensures
            final(self).wf(),
            final(self).items() == old(self).items(),
            final(self).cursor() == old(self).cursor() + 1,
            final(self).file_name() == old(self).file_name(),
            *final(self) == old(self).moved(1),
            entry_view(r) == final(self).current_spec(),
    {
        self.skip(1)
    }

    /// Moves the cursor `nb` tokens forward and returns the token there.
    pub fn skip(&mut self, nb: usize) -> (r: Option<(Token, Position)>)
        requires
            old(self).wf(),
            old(self).cursor() + nb <= usize::MAX,
        ensures
            final(self).wf(),
            final(self).items() == old(self).items(),
            final(self).cursor() == old(self).cursor() + nb,
            final(self).file_name() == old(self).file_name(),
            *final(self) == old(self).moved(nb as int),
            entry_view(r) == final(self).current_spec(),
    {
        self.current = self.current + nb;
        self.nth(self.current)
    }

    /// The entry `nth` tokens away from the cursor (backward when `nth` is
    /// negative), without moving the cursor.
    pub fn peek(&mut self, nth: isize) -> (r: Option<(Token, Position)>)
        requires
            old(self).wf(),
            nth > isize::MIN,
            0 <= old(self).cursor() + nth <= usize::MAX,
        ensures
            *final(self) == *old(self),
            entry_view(r) == entry_at(old(self).items(), old(self).cursor() + nth),
    {
        if nth < 0 {
            self.nth(self.current - ((-nth) as usize))
        } else {
            self.nth(self.current + (nth as usize))
        }
    }
}

/// Skipping tokens `a` at a time then `b` at a time skips `a + b` of
/// them: `skip(nb)` does what `nb` calls of `next` do.
pub proof fn lemma_skip_additive(s: TokenStream, a: int, b: int)
    requires
        a >= 0,
        b >= 0,
        s.cursor() + a + b <= usize::MAX,
        s.cursor() >= 0,
    ensures
        s.moved(a).moved(b) == s.moved(a + b),
        s.moved(a).cursor() == s.cursor() + a,
        s.moved(a).items() == s.items(),
        s.moved(a).file_name() == s.file_name(),
{
}

/// The stream after `n` calls of `next`, each of which moves it one token
/// forward.
pub open spec fn stepped(s: TokenStream, n: nat) -> TokenStream
    decreases n,
{
    if n == 0 { s } else { stepped(s.moved(1), (n - 1) as nat) }
}

/// Skipping `n` tokens leaves the stream as `n` calls of `next` do.
pub proof fn lemma_skip_steps(s: TokenStream, n: nat)
    requires
        s.cursor() + n <= usize::MAX,
    ensures
        s.moved(n as int) == stepped(s, n),
    decreases n,
{
    if n == 0 {
        assert(s.moved(0) == s);
    } else {
        lemma_skip_additive(s, 1, n - 1);
        lemma_skip_steps(s.moved(1), (n - 1) as nat);
    }
}

} // verus!
