//! The comment-transparent token stream: a borrowed-in token sequence, a
//! cursor, and a side buffer of the comments passed over, so that comments
//! never influence grammar decisions yet stay recoverable for consumers.

use vstd::prelude::*;

use crate::token::Span;
use crate::token::Token;
use crate::token::TokenKind;
use crate::token::is_comment_kind;
use crate::token::kind_is_comment;

verus! {

/// The index of the `n`-th non-comment token at or after `i`, or
/// `tokens.len()` when fewer than `n + 1` non-comment tokens remain.
pub open spec fn nth_non_comment(tokens: Seq<Token>, i: int, n: int) -> int
    decreases tokens.len() - i,
{
    if i >= tokens.len() {
        tokens.len() as int
    } else if i < 0 {
        nth_non_comment(tokens, 0, n)
    } else if is_comment_kind(tokens[i].kind) {
        nth_non_comment(tokens, i + 1, n)
    } else if n <= 0 {
        i
    } else {
        nth_non_comment(tokens, i + 1, n - 1)
    }
}

/// The index of the first non-comment token at or after `i`.
pub open spec fn first_non_comment(tokens: Seq<Token>, i: int) -> int {
    nth_non_comment(tokens, i, 0)
}

/// The cursor after consuming the token the cursor rests on: one raw slot
/// forward, then past any comments.
pub open spec fn advance(tokens: Seq<Token>, c: int) -> int {
    if c >= tokens.len() {
        tokens.len() as int
    } else {
        first_non_comment(tokens, c + 1)
    }
}

/// The kind visible at cursor `c`: the first non-comment token's kind, or
/// `Eof` when the input is exhausted.
pub open spec fn kind_at(tokens: Seq<Token>, c: int) -> TokenKind {
    let p = first_non_comment(tokens, c);
    if 0 <= p < tokens.len() {
        tokens[p].kind
    } else {
        TokenKind::Eof
    }
}

/// The span visible at cursor `c`, or the zeroed sentinel span.
pub open spec fn span_at(tokens: Seq<Token>, c: int) -> Span {
    let p = first_non_comment(tokens, c);
    if 0 <= p < tokens.len() {
        tokens[p].span
    } else {
        Span::zero_spec()
    }
}

/// What a lookup returns for position `p`: the token there, or the EOF
/// sentinel when `p` is out of range.
pub open spec fn reads_as(tokens: Seq<Token>, p: int, r: Token) -> bool {
    if 0 <= p < tokens.len() {
        r == tokens[p]
    } else {
        r.is_eof_sentinel()
    }
}

/// The comment tokens among `tokens[lo..hi]`, in order.
pub open spec fn comments_between(tokens: Seq<Token>, lo: int, hi: int) -> Seq<Token>
    decreases hi - lo,
{
    if lo < 0 || hi > tokens.len() || lo >= hi {
        Seq::empty()
    } else if is_comment_kind(tokens[lo].kind) {
        seq![tokens[lo]] + comments_between(tokens, lo + 1, hi)
    } else {
        comments_between(tokens, lo + 1, hi)
    }
}

/// The comment-free subsequence of a token sequence.
pub open spec fn significant(tokens: Seq<Token>) -> Seq<Token>
    decreases tokens.len(),
{
    if tokens.len() == 0 {
        Seq::empty()
    } else if is_comment_kind(tokens[0].kind) {
        significant(tokens.subrange(1, tokens.len() as int))
    } else {
        seq![tokens[0]] + significant(tokens.subrange(1, tokens.len() as int))
    }
}

pub proof fn lemma_nth_non_comment_bounds(tokens: Seq<Token>, i: int, n: int)
    requires
        0 <= i <= tokens.len(),
        0 <= n,
    ensures
        i <= nth_non_comment(tokens, i, n) <= tokens.len(),
        nth_non_comment(tokens, i, n) < tokens.len() ==> !is_comment_kind(
            tokens[nth_non_comment(tokens, i, n)].kind,
        ),
    decreases tokens.len() - i,
{
    if i < tokens.len() {
        if is_comment_kind(tokens[i].kind) {
            lemma_nth_non_comment_bounds(tokens, i + 1, n);
        } else if n > 0 {
            lemma_nth_non_comment_bounds(tokens, i + 1, n - 1);
        }
    }
}

pub proof fn lemma_advance_bounds(tokens: Seq<Token>, c: int)
    requires
        0 <= c <= tokens.len(),
    ensures
        c <= advance(tokens, c) <= tokens.len(),
        c < tokens.len() ==> c + 1 <= advance(tokens, c),
        advance(tokens, c) < tokens.len() ==> !is_comment_kind(tokens[advance(tokens, c)].kind),
{
    if c < tokens.len() {
        lemma_nth_non_comment_bounds(tokens, c + 1, 0);
    }
}

pub proof fn lemma_comments_between_concat(tokens: Seq<Token>, a: int, b: int, c: int)
    requires
        0 <= a <= b <= c <= tokens.len(),
    ensures
        comments_between(tokens, a, c) == comments_between(tokens, a, b) + comments_between(
            tokens,
            b,
            c,
        ),
    decreases b - a,
{
    if a >= b {
        assert(comments_between(tokens, a, b) =~= Seq::<Token>::empty());
        assert(comments_between(tokens, a, c) =~= comments_between(tokens, a, b)
            + comments_between(tokens, b, c));
    } else {
        lemma_comments_between_concat(tokens, a + 1, b, c);
        if is_comment_kind(tokens[a].kind) {
            assert(comments_between(tokens, a, c) =~= comments_between(tokens, a, b)
                + comments_between(tokens, b, c));
        } else {
            assert(comments_between(tokens, a, c) =~= comments_between(tokens, a, b)
                + comments_between(tokens, b, c));
        }
    }
}

/// Comment transparency: the token read at lookahead depth `n` from
/// position `i` is exactly the `n`-th element of the comment-free
/// subsequence of the remaining input; depths past its end read EOF.
pub proof fn lemma_lookahead_skips_comments(tokens: Seq<Token>, i: int, n: int)
    requires
        0 <= i <= tokens.len(),
        0 <= n,
    ensures
        ({
            let p = nth_non_comment(tokens, i, n);
            let sig = significant(tokens.subrange(i, tokens.len() as int));
            &&& (n < sig.len() ==> 0 <= p < tokens.len() && tokens[p] == sig[n])
            &&& (n >= sig.len() ==> p == tokens.len())
        }),
    decreases tokens.len() - i,
{
    let rest = tokens.subrange(i, tokens.len() as int);
    if i == tokens.len() {
        assert(rest.len() == 0);
    } else {
        assert(rest[0] == tokens[i]);
        assert(rest.subrange(1, rest.len() as int) =~= tokens.subrange(
            i + 1,
            tokens.len() as int,
        ));
        if is_comment_kind(tokens[i].kind) {
            lemma_lookahead_skips_comments(tokens, i + 1, n);
        } else if n == 0 {
            assert(significant(rest)[0] == tokens[i]);
        } else {
            lemma_lookahead_skips_comments(tokens, i + 1, n - 1);
            let sig1 = significant(tokens.subrange(i + 1, tokens.len() as int));
            assert(significant(rest) == seq![tokens[i]] + sig1);
            if n < significant(rest).len() {
                assert(significant(rest)[n] == sig1[n - 1]);
            }
        }
    }
}

/// A token stream over an immutable token sequence.  The cursor always
/// rests on a non-comment token (or at the end); the comments passed over
/// sit, in encounter order, in a side buffer that `comments` drains.
pub struct TokenStream {
    pub tokens: Vec<Token>,
    pub cursor: usize,
    pub comments: Vec<Token>,
    /// Where the comment buffer's window begins: everything before this
    /// cursor position was already handed out by `comments`.
    pub taken: Ghost<int>,
}

impl TokenStream {
    /// Well-formedness: the cursor is in range and rests on a non-comment
    /// token, and the buffer holds exactly the comments between the last
    /// drain and the cursor.
    pub open spec fn wf(self) -> bool {
        &&& self.cursor <= self.tokens@.len()
        &&& (self.cursor < self.tokens@.len() ==> !is_comment_kind(
            self.tokens@[self.cursor as int].kind,
        ))
        &&& 0 <= self.taken@ <= self.cursor as int
        &&& self.comments@ == comments_between(self.tokens@, self.taken@, self.cursor as int)
    }

    /// Push every comment at the cursor into the buffer and move past it.
    fn collect_comments(&mut self)
        requires
            old(self).cursor <= old(self).tokens@.len(),
            0 <= old(self).taken@ <= old(self).cursor as int,
            old(self).comments@ == comments_between(
                old(self).tokens@,
                old(self).taken@,
                old(self).cursor as int,
            ),
        ensures
            final(self).wf(),
            final(self).tokens@ == old(self).tokens@,
            final(self).taken@ == old(self).taken@,
            final(self).cursor as int == first_non_comment(
                old(self).tokens@,
                old(self).cursor as int,
            ),
            final(self).comments@ == old(self).comments@ + comments_between(
                old(self).tokens@,
                old(self).cursor as int,
                final(self).cursor as int,
            ),
    {
        let ghost t = self.tokens@;
        let ghost c0 = self.cursor as int;
        let ghost taken0 = self.taken@;
        let ghost com0 = self.comments@;
        while self.cursor < self.tokens.len() && kind_is_comment(self.tokens[self.cursor].kind)
            invariant
                self.tokens@ == t,
                self.taken@ == taken0,
                0 <= taken0 <= c0,
                c0 <= self.cursor as int <= t.len(),
                first_non_comment(t, c0) == first_non_comment(t, self.cursor as int),
                self.comments@ == com0 + comments_between(t, c0, self.cursor as int),
                com0 == comments_between(t, taken0, c0),
            decreases t.len() - self.cursor,
        {
            let ghost c = self.cursor as int;
            let tok = self.tokens[self.cursor].clone();
            self.comments.push(tok);
            self.cursor = self.cursor + 1;
            proof {
                lemma_comments_between_concat(t, c0, c, c + 1);
                assert(comments_between(t, c + 1, c + 1) =~= Seq::<Token>::empty());
                assert(comments_between(t, c, c + 1) =~= seq![t[c]]);
                assert(first_non_comment(t, c) == first_non_comment(t, c + 1));
                assert(self.comments@ =~= com0 + comments_between(t, c0, c + 1));
            }
        }
        proof {
            assert(first_non_comment(t, self.cursor as int) == self.cursor as int);
            lemma_comments_between_concat(t, taken0, c0, self.cursor as int);
        }
    }

    /// Build a stream over `tokens`; leading comments are collected at once
    /// so that the cursor starts on the first significant token.
    pub fn new(tokens: Vec<Token>) -> (s: TokenStream)
        ensures
            s.wf(),
            s.tokens@ == tokens@,
            s.taken@ == 0,
            s.cursor as int == first_non_comment(tokens@, 0),
            s.comments@ == comments_between(tokens@, 0, s.cursor as int),
    {
        let mut s = TokenStream {
            tokens,
            cursor: 0,
            comments: Vec::new(),
            taken: Ghost(0),
        };
        s.collect_comments();
        s
    }

    /// Move the cursor one consumed token forward, collecting the comments
    /// now at the cursor so that `current` never has to skip.
    pub fn next(&mut self)
        requires
            old(self).wf(),
        ensures
            final(self).wf(),
            consumed_one(*old(self), *final(self)),
    {
        if self.cursor < self.tokens.len() {
            let ghost t = self.tokens@;
            let ghost c0 = self.cursor as int;
            self.cursor = self.cursor + 1;
            proof {
                assert(comments_between(t, c0 + 1, c0 + 1) =~= Seq::<Token>::empty());
                assert(comments_between(t, c0, c0 + 1) =~= Seq::<Token>::empty());
                lemma_comments_between_concat(t, self.taken@, c0, c0 + 1);
                assert(comments_between(t, self.taken@, c0 + 1) =~= comments_between(
                    t,
                    self.taken@,
                    c0,
                ));
            }
            self.collect_comments();
            proof {
                lemma_nth_non_comment_bounds(t, c0 + 1, 0);
                lemma_comments_between_concat(t, c0, c0 + 1, self.cursor as int);
                assert(comments_between(t, c0, c0 + 1) =~= Seq::<Token>::empty());
                assert(self.comments@ =~= old(self).comments@ + comments_between(
                    t,
                    c0,
                    self.cursor as int,
                ));
            }
        } else {
            proof {
                assert(comments_between(
                    self.tokens@,
                    self.cursor as int,
                    self.cursor as int,
                ) =~= Seq::<Token>::empty());
                assert(self.comments@ =~= self.comments@ + comments_between(
                    self.tokens@,
                    self.cursor as int,
                    self.cursor as int,
                ));
            }
        }
    }

    /// The first non-comment token at or after the cursor, without moving
    /// the cursor; the EOF sentinel past the end.
    pub fn current(&self) -> (r: Token)
        requires
            self.wf(),
        ensures
            reads_as(self.tokens@, first_non_comment(self.tokens@, self.cursor as int), r),
            r.kind == kind_at(self.tokens@, self.cursor as int),
            r.span == span_at(self.tokens@, self.cursor as int),
    {
        if self.cursor < self.tokens.len() {
            assert(first_non_comment(self.tokens@, self.cursor as int) == self.cursor as int);
            self.tokens[self.cursor].clone()
        } else {
            assert(first_non_comment(self.tokens@, self.cursor as int) == self.tokens@.len());
            Token::eof()
        }
    }

    /// The `n`-th non-comment token at or after the cursor (`peek_nth(0)`
    /// is `current`); the EOF sentinel past the end.
    fn peek_nth(&self, n: usize) -> (r: Token)
        requires
            self.wf(),
        ensures
            reads_as(self.tokens@, nth_non_comment(self.tokens@, self.cursor as int, n as int), r),
    {
        let ghost t = self.tokens@;
        let mut cursor = self.cursor;
        let mut remaining = n;
        loop
            invariant
                self.wf(),
                t == self.tokens@,
                0 <= cursor as int <= t.len(),
                nth_non_comment(t, self.cursor as int, n as int) == nth_non_comment(
                    t,
                    cursor as int,
                    remaining as int,
                ),
            decreases t.len() - cursor,
        {
            if cursor >= self.tokens.len() {
                return Token::eof();
            }
            let tok = &self.tokens[cursor];
            if kind_is_comment(tok.kind) {
                cursor = cursor + 1;
            } else if remaining == 0 {
                return tok.clone();
            } else {
                remaining = remaining - 1;
                cursor = cursor + 1;
            }
        }
    }

    /// The next non-comment token after `current`, without moving the
    /// cursor.
    pub fn peek(&self) -> (r: Token)
        requires
            self.wf(),
        ensures
            reads_as(self.tokens@, nth_non_comment(self.tokens@, self.cursor as int, 1), r),
    {
        self.peek_nth(1)
    }

    /// The `(n + 1)`-th non-comment token after the cursor: `lookahead(0)`
    /// is `peek`, and every depth past the end reads the EOF sentinel.
    pub fn lookahead(&self, n: usize) -> (r: Token)
        requires
            self.wf(),
            n < usize::MAX,
        ensures
            reads_as(
                self.tokens@,
                nth_non_comment(self.tokens@, self.cursor as int, n as int + 1),
                r,
            ),
    {
        self.peek_nth(n + 1)
    }

    /// Whether the stream is exhausted: the current token is EOF.
    pub fn is_eof(&self) -> (r: bool)
        requires
            self.wf(),
        ensures
            r == (kind_at(self.tokens@, self.cursor as int) == TokenKind::Eof),
    {
        let c = self.current();
        c.kind == TokenKind::Eof
    }

    /// Drain the comment buffer: every comment passed over since the last
    /// drain, in encounter order.  An immediate repeat call, with no
    /// intervening `next`, returns an empty vector.
    pub fn comments(&mut self) -> (r: Vec<Token>)
        requires
            old(self).wf(),
        ensures
            final(self).wf(),
            final(self).tokens@ == old(self).tokens@,
            final(self).cursor == old(self).cursor,
            r@ == old(self).comments@,
            r@ == comments_between(old(self).tokens@, old(self).taken@, old(self).cursor as int),
            final(self).comments@.len() == 0,
            final(self).taken@ == old(self).cursor as int,
    {
        let mut out: Vec<Token> = Vec::new();
        core::mem::swap(&mut self.comments, &mut out);
        proof {
            self.taken@ = self.cursor as int;
            assert(comments_between(self.tokens@, self.cursor as int, self.cursor as int)
                =~= Seq::<Token>::empty());
        }
        out
    }
}

/// How one consumed token relates a stream's pre- and post-state: same
/// tokens, cursor advanced past the consumed token and any following
/// comments, and exactly those comments appended to the buffer.
pub open spec fn consumed_one(pre: TokenStream, post: TokenStream) -> bool {
    &&& post.tokens@ == pre.tokens@
    &&& post.taken@ == pre.taken@
    &&& post.cursor as int == advance(pre.tokens@, pre.cursor as int)
    &&& post.comments@ == pre.comments@ + comments_between(
        pre.tokens@,
        pre.cursor as int,
        post.cursor as int,
    )
}

/// How any forward-consuming run relates a stream's pre- and post-state:
/// same tokens, the cursor moved forward, and exactly the comments passed
/// over appended to the buffer.
pub open spec fn consumed_since(pre: TokenStream, post: TokenStream) -> bool {
    &&& post.tokens@ == pre.tokens@
    &&& post.taken@ == pre.taken@
    &&& pre.cursor <= post.cursor
    &&& post.comments@ == pre.comments@ + comments_between(
        pre.tokens@,
        pre.cursor as int,
        post.cursor as int,
    )
}

pub proof fn lemma_consumed_since_refl(a: TokenStream)
    ensures
        consumed_since(a, a),
{
    assert(comments_between(a.tokens@, a.cursor as int, a.cursor as int)
        =~= Seq::<Token>::empty());
    assert(a.comments@ =~= a.comments@ + comments_between(
        a.tokens@,
        a.cursor as int,
        a.cursor as int,
    ));
}

pub proof fn lemma_consumed_one_since(a: TokenStream, b: TokenStream)
    requires
        a.wf(),
        consumed_one(a, b),
    ensures
        consumed_since(a, b),
{
    lemma_advance_bounds(a.tokens@, a.cursor as int);
}

pub proof fn lemma_consumed_since_trans(a: TokenStream, b: TokenStream, c: TokenStream)
    requires
        consumed_since(a, b),
        consumed_since(b, c),
        c.cursor as int <= c.tokens@.len(),
    ensures
        consumed_since(a, c),
{
    lemma_comments_between_concat(a.tokens@, a.cursor as int, b.cursor as int, c.cursor as int);
    assert(c.comments@ =~= a.comments@ + comments_between(
        a.tokens@,
        a.cursor as int,
        c.cursor as int,
    ));
}

/// A comment buffer that was never drained holds exactly the comments
/// encountered up to the cursor, in order.
pub proof fn lemma_comments_complete(s: TokenStream)
    requires
        s.wf(),
        s.taken@ == 0,
    ensures
        s.comments@ == comments_between(s.tokens@, 0, s.cursor as int),
{
}

} // verus!
