//! The tokens that a written declaration is made of.
//!
//! A token is an identifier, a punctuation character, a literal, or a group:
//! a run of tokens between a pair of brackets. Each carries its text as
//! written; a group also carries the tokens inside it.

use crate::text::same_text;
use vstd::prelude::*;

verus! {

/// The kinds of tokens.
#[derive(Debug, Clone, Copy, PartialEq, Eq, Structural)]
pub enum TokenKind {
    /// An identifier or a keyword.
    Ident,
    /// One punctuation character.
    Punct,
    /// A literal.
    Literal,
    /// A group in round brackets.
    Parenthesized,
    /// A group in curly brackets.
    Braced,
    /// A group in square brackets.
    Bracketed,
}

/// One token.
#[derive(Debug)]
pub struct Token {
    pub kind: TokenKind,
    /// The token as written; of a group, the whole of it.
    pub text: Vec<u8>,
    /// The tokens inside a group; empty for every other token.
    pub inner: Vec<Token>,
}

/// Whether `t` is the punctuation character `c`.
pub open spec fn is_punct(t: Token, c: u8) -> bool {
    t.kind == TokenKind::Punct && t.text@ == seq![c]
}

/// Whether `t` is the word `w`.
pub open spec fn is_word(t: Token, w: Seq<u8>) -> bool {
    t.kind == TokenKind::Ident && t.text@ == w
}

/// The keyword `impl`.
pub open spec fn kw_impl() -> Seq<u8> {
    seq!['i' as u8, 'm' as u8, 'p' as u8, 'l' as u8]
}

/// The keyword `fn`.
pub open spec fn kw_fn() -> Seq<u8> {
    seq!['f' as u8, 'n' as u8]
}

/// The keyword `async`.
pub open spec fn kw_async() -> Seq<u8> {
    seq!['a' as u8, 's' as u8, 'y' as u8, 'n' as u8, 'c' as u8]
}

/// The keyword `self`.
pub open spec fn kw_self() -> Seq<u8> {
    seq!['s' as u8, 'e' as u8, 'l' as u8, 'f' as u8]
}

/// The keyword `mut`.
pub open spec fn kw_mut() -> Seq<u8> {
    seq!['m' as u8, 'u' as u8, 't' as u8]
}

/// The texts of `run`, one after the other with a space between each two.
pub open spec fn join_text(run: Seq<Token>) -> Seq<u8>
    decreases run.len(),
{
    if run.len() == 0 {
        Seq::empty()
    } else if run.len() == 1 {
        run[0].text@
    } else {
        join_text(run.drop_last()) + seq![' ' as u8] + run.last().text@
    }
}

/// Whether the token at `i` closes an angle bracket: it is `>`, and not the
/// head of an arrow.
pub open spec fn closes_angle(s: Seq<Token>, i: int) -> bool {
    is_punct(s[i], '>' as u8) && !(i > 0 && is_punct(s[i - 1], '-' as u8))
}

/// Where the run that starts at `i`, inside `depth` angle brackets, ends: at
/// the first comma outside all angle brackets, or at the end of `s`.
pub open spec fn run_end(s: Seq<Token>, i: int, depth: nat) -> int
    decreases s.len() - i,
{
    if i < 0 || i >= s.len() {
        s.len() as int
    } else if depth == 0 && is_punct(s[i], ',' as u8) {
        i
    } else if is_punct(s[i], '<' as u8) {
        run_end(s, i + 1, depth + 1)
    } else if depth > 0 && closes_angle(s, i) {
        run_end(s, i + 1, (depth - 1) as nat)
    } else {
        run_end(s, i + 1, depth)
    }
}

/// The position of the first group in curly brackets at or after `i`, or the
/// length of `s` where there is none.
pub open spec fn first_braced(s: Seq<Token>, i: int) -> int
    decreases s.len() - i,
{
    if i < 0 || i >= s.len() {
        s.len() as int
    } else if s[i].kind == TokenKind::Braced {
        i
    } else {
        first_braced(s, i + 1)
    }
}

/// A run ends at or after its start, within `s`, and at a comma if before the end.
pub proof fn lemma_run_end(s: Seq<Token>, i: int, depth: nat)
    requires
        0 <= i <= s.len(),
    ensures
        i <= run_end(s, i, depth) <= s.len(),
        run_end(s, i, depth) < s.len() ==> is_punct(s[run_end(s, i, depth)], ',' as u8),
    decreases s.len() - i,
{
    if i < s.len() {
        if depth == 0 && is_punct(s[i], ',' as u8) {
        } else if is_punct(s[i], '<' as u8) {
            lemma_run_end(s, i + 1, depth + 1);
        } else if depth > 0 && closes_angle(s, i) {
            lemma_run_end(s, i + 1, (depth - 1) as nat);
        } else {
            lemma_run_end(s, i + 1, depth);
        }
    }
}

/// Whether `t` is the punctuation character `c`.
pub fn punct_is(t: &Token, c: u8) -> (r: bool)
    ensures
        r == is_punct(*t, c),
{
    let r = t.kind == TokenKind::Punct && t.text.len() == 1 && t.text[0] == c;
    proof {
        if r {
            assert(t.text@ =~= seq![c]);
        }
    }
    r
}

/// Whether `t` is the word `w`.
pub fn word_is(t: &Token, w: &[u8]) -> (r: bool)
    ensures
        r == is_word(*t, w@),
{
    t.kind == TokenKind::Ident && same_text(t.text.as_slice(), w)
}

/// The keyword `impl`.
pub fn word_impl() -> (v: Vec<u8>)
    ensures
        v@ == kw_impl(),
{
    let v = vec!['i' as u8, 'm' as u8, 'p' as u8, 'l' as u8];
    assert(v@ =~= kw_impl());
    v
}

/// The keyword `fn`.
pub fn word_fn() -> (v: Vec<u8>)
    ensures
        v@ == kw_fn(),
{
    let v = vec!['f' as u8, 'n' as u8];
    assert(v@ =~= kw_fn());
    v
}

/// The keyword `async`.
pub fn word_async() -> (v: Vec<u8>)
    ensures
        v@ == kw_async(),
{
    let v = vec!['a' as u8, 's' as u8, 'y' as u8, 'n' as u8, 'c' as u8];
    assert(v@ =~= kw_async());
    v
}

/// The keyword `self`.
pub fn word_self() -> (v: Vec<u8>)
    ensures
        v@ == kw_self(),
{
    let v = vec!['s' as u8, 'e' as u8, 'l' as u8, 'f' as u8];
    assert(v@ =~= kw_self());
    v
}

/// The keyword `mut`.
pub fn word_mut() -> (v: Vec<u8>)
    ensures
        v@ == kw_mut(),
{
    let v = vec!['m' as u8, 'u' as u8, 't' as u8];
    assert(v@ =~= kw_mut());
    v
}

/// Appends the bytes of `s` to `out`.
fn append_text(out: &mut Vec<u8>, s: &[u8])
    ensures
        final(out)@ == old(out)@ + s@,
{
    let n: usize = s.len();
    let mut i: usize = 0;
    while i < n
        invariant
            n == s@.len(),
            i <= n,
            out@ == old(out)@ + s@.subrange(0, i as int),
        decreases n - i,
    {
        out.push(s[i]);
        assert(out@ =~= old(out)@ + s@.subrange(0, i + 1));
        i = i + 1;
    }
    assert(s@.subrange(0, n as int) =~= s@);
}

/// The texts of the tokens from `a` up to `b`, with a space between each two.
pub fn join(tokens: &[Token], a: usize, b: usize) -> (out: Vec<u8>)
    requires
        a <= b <= tokens@.len(),
    ensures
        out@ == join_text(tokens@.subrange(a as int, b as int)),
{
    let mut out: Vec<u8> = Vec::new();
    let mut i: usize = a;
    while i < b
        invariant
            a <= i <= b <= tokens@.len(),
            out@ == join_text(tokens@.subrange(a as int, i as int)),
        decreases b - i,
    {
        let ghost before = tokens@.subrange(a as int, i as int);
        let ghost after = tokens@.subrange(a as int, i + 1);
        proof {
            assert(after.drop_last() =~= before);
            assert(after.last() == tokens@[i as int]);
        }
        if i > a {
            out.push(' ' as u8);
            append_text(&mut out, tokens[i].text.as_slice());
            assert(out@ =~= join_text(before) + seq![' ' as u8] + tokens@[i as int].text@);
        } else {
            append_text(&mut out, tokens[i].text.as_slice());
            assert(before.len() == 0);
            assert(out@ =~= tokens@[i as int].text@);
        }
        i = i + 1;
    }
    out
}

/// Where the run that starts at `start` ends: at the first comma outside all
/// angle brackets, or at the end of `tokens`.
pub fn find_run_end(tokens: &[Token], start: usize) -> (end: usize)
    requires
        start <= tokens@.len(),
    ensures
        end == run_end(tokens@, start as int, 0),
        start <= end <= tokens@.len(),
        end < tokens@.len() ==> is_punct(tokens@[end as int], ',' as u8),
{
    proof {
        lemma_run_end(tokens@, start as int, 0);
    }
    let n: usize = tokens.len();
    let mut i: usize = start;
    let mut depth: usize = 0;
    while i < n
        invariant
            n == tokens@.len(),
            start <= i <= n,
            depth <= i - start,
            run_end(tokens@, start as int, 0) == run_end(tokens@, i as int, depth as nat),
        decreases n - i,
    {
        if depth == 0 && punct_is(&tokens[i], ',' as u8) {
            return i;
        }
        if punct_is(&tokens[i], '<' as u8) {
            depth = depth + 1;
        } else if depth > 0 && punct_is(&tokens[i], '>' as u8) && !(i > 0 && punct_is(
            &tokens[i - 1],
            '-' as u8,
        )) {
            depth = depth - 1;
        }
        i = i + 1;
    }
    n
}

/// The position of the first group in curly brackets at or after `start`, or
/// the length of `tokens` where there is none.
pub fn find_braced(tokens: &[Token], start: usize) -> (at: usize)
    requires
        start <= tokens@.len(),
    ensures
        at == first_braced(tokens@, start as int),
        start <= at <= tokens@.len(),
        at < tokens@.len() ==> tokens@[at as int].kind == TokenKind::Braced,
{
    let n: usize = tokens.len();
    let mut i: usize = start;
    while i < n
        invariant
            n == tokens@.len(),
            start <= i <= n,
            first_braced(tokens@, start as int) == first_braced(tokens@, i as int),
        decreases n - i,
    {
        if tokens[i].kind == TokenKind::Braced {
            return i;
        }
        i = i + 1;
    }
    n
}

} // verus!
