//! The expectation primitives: the uniform way every grammar rule consumes
//! a required token or fails with a position-tagged `ExpectedToken`.

use vstd::prelude::*;

use crate::error::ParseError;
use crate::error::ParseResult;
use crate::error::expected_one_err;
use crate::error::expected_token_err;
use crate::error::is_expected_err;
use crate::error::is_expected_one;
use crate::state::State;
use crate::state::env_unchanged;
use crate::stream::TokenStream;
use crate::stream::advance;
use crate::stream::comments_between;
use crate::stream::consumed_one;
use crate::stream::kind_at;
use crate::stream::lemma_comments_between_concat;
use crate::stream::lemma_nth_non_comment_bounds;
use crate::stream::span_at;
use crate::token::Span;
use crate::token::Token;
use crate::token::TokenKind;

verus! {

/// Two tokens consumed in a row: cursor advanced twice, the comments
/// passed over appended to the buffer.
pub open spec fn consumed_two(pre: TokenStream, post: TokenStream) -> bool {
    &&& post.tokens@ == pre.tokens@
    &&& post.taken@ == pre.taken@
    &&& post.cursor as int == advance(pre.tokens@, advance(pre.tokens@, pre.cursor as int))
    &&& post.comments@ == pre.comments@ + comments_between(
        pre.tokens@,
        pre.cursor as int,
        post.cursor as int,
    )
}

pub proof fn lemma_consumed_one_trans(a: TokenStream, b: TokenStream, c: TokenStream)
    requires
        a.wf(),
        consumed_one(a, b),
        consumed_one(b, c),
    ensures
        consumed_two(a, c),
{
    let t = a.tokens@;
    crate::stream::lemma_advance_bounds(t, a.cursor as int);
    crate::stream::lemma_advance_bounds(t, b.cursor as int);
    lemma_comments_between_concat(t, a.cursor as int, b.cursor as int, c.cursor as int);
    assert(c.comments@ =~= a.comments@ + comments_between(t, a.cursor as int, c.cursor as int));
}

pub proof fn lemma_consumed_two_since(a: TokenStream, b: TokenStream)
    requires
        a.wf(),
        consumed_two(a, b),
    ensures
        crate::stream::consumed_since(a, b),
{
    crate::stream::lemma_advance_bounds(a.tokens@, a.cursor as int);
    crate::stream::lemma_advance_bounds(a.tokens@, advance(a.tokens@, a.cursor as int));
}

/// What `skip(kind)` leaves behind: on the expected kind, its span is
/// returned and exactly that token is consumed; on any other kind, the
/// `ExpectedToken` diagnostic is returned and the state is untouched.
pub open spec fn skip_post(pre: State, post: State, kind: TokenKind, r: ParseResult<Span>) -> bool {
    let t = pre.stream.tokens@;
    let c = pre.stream.cursor as int;
    if kind_at(t, c) == kind {
        &&& r matches Result::Ok(sp) && sp == span_at(t, c)
        &&& consumed_one(pre.stream, post.stream)
    } else {
        &&& r matches Result::Err(e) && is_expected_one(e, kind, kind_at(t, c), span_at(t, c))
        &&& post == pre
    }
}

/// Consume the current token if it has the expected kind and return its
/// span; otherwise fail with `ExpectedToken`.
pub fn skip(state: &mut State, kind: TokenKind) -> (r: ParseResult<Span>)
    requires
        old(state).wf(),
    ensures
        final(state).wf(),
        env_unchanged(*old(state), *final(state)),
        skip_post(*old(state), *final(state), kind, r),
{
    let cur = state.stream.current();
    if cur.kind == kind {
        state.stream.next();
        Result::Ok(cur.span)
    } else {
        Result::Err(expected_one_err(kind, cur.kind, cur.span))
    }
}

/// Consume the current token if its kind is among `kinds` and return its
/// span; otherwise fail with `ExpectedToken` listing all of `kinds`.
pub fn skip_any_of(state: &mut State, kinds: &[TokenKind]) -> (r: ParseResult<Span>)
    requires
        old(state).wf(),
    ensures
        final(state).wf(),
        env_unchanged(*old(state), *final(state)),
        ({
            let t = old(state).stream.tokens@;
            let c = old(state).stream.cursor as int;
            if kinds@.contains(kind_at(t, c)) {
                &&& r matches Result::Ok(sp) && sp == span_at(t, c)
                &&& consumed_one(old(state).stream, final(state).stream)
            } else {
                &&& r matches Result::Err(e) && is_expected_err(
                    e,
                    kinds@,
                    kind_at(t, c),
                    span_at(t, c),
                )
                &&& *final(state) == *old(state)
            }
        }),
{
    let cur = state.stream.current();
    let mut found = false;
    let mut i: usize = 0;
    while i < kinds.len()
        invariant
            i <= kinds@.len(),
            found == (exists|j: int| 0 <= j < i as int && kinds@[j] == cur.kind),
        decreases kinds@.len() - i,
    {
        if kinds[i] == cur.kind {
            found = true;
            proof {
                assert(kinds@[i as int] == cur.kind);
            }
        }
        i = i + 1;
    }
    proof {
        assert(found == kinds@.contains(cur.kind));
    }
    if found {
        state.stream.next();
        Result::Ok(cur.span)
    } else {
        Result::Err(expected_token_err(kinds, cur.kind, cur.span))
    }
}

/// Consume a statement terminator: a `;`, or a PHP close tag standing in
/// for one.  On anything else, fail with `ExpectedToken` for `;`.
pub fn skip_semicolon(state: &mut State) -> (r: ParseResult<Span>)
    requires
        old(state).wf(),
    ensures
        final(state).wf(),
        env_unchanged(*old(state), *final(state)),
        ({
            let t = old(state).stream.tokens@;
            let c = old(state).stream.cursor as int;
            let k = kind_at(t, c);
            if k == TokenKind::SemiColon || k == TokenKind::CloseTag {
                &&& r matches Result::Ok(sp) && sp == span_at(t, c)
                &&& consumed_one(old(state).stream, final(state).stream)
            } else {
                &&& r matches Result::Err(e) && is_expected_one(
                    e,
                    TokenKind::SemiColon,
                    k,
                    span_at(t, c),
                )
                &&& *final(state) == *old(state)
            }
        }),
{
    let cur = state.stream.current();
    let end = cur.span;
    if cur.kind == TokenKind::SemiColon {
        state.stream.next();
        Result::Ok(end)
    } else if cur.kind != TokenKind::CloseTag {
        Result::Err(expected_one_err(TokenKind::SemiColon, cur.kind, end))
    } else {
        state.stream.next();
        Result::Ok(end)
    }
}

/// What the brace- and colon-shaped primitives leave behind: the expected
/// token consumed and, when a close tag immediately follows it, that close
/// tag silently consumed too.
pub open spec fn skip_absorbing_close_tag_post(
    pre: State,
    post: State,
    kind: TokenKind,
    r: ParseResult<Span>,
) -> bool {
    let t = pre.stream.tokens@;
    let c = pre.stream.cursor as int;
    if kind_at(t, c) == kind {
        &&& r matches Result::Ok(sp) && sp == span_at(t, c)
        &&& if kind_at(t, advance(t, c)) == TokenKind::CloseTag {
            consumed_two(pre.stream, post.stream)
        } else {
            consumed_one(pre.stream, post.stream)
        }
    } else {
        &&& r matches Result::Err(e) && is_expected_one(e, kind, kind_at(t, c), span_at(t, c))
        &&& post == pre
    }
}

/// Consume a `{`.  A close tag right after it is consumed too, since PHP
/// permits leaving script mode at the start of a block.
pub fn skip_left_brace(state: &mut State) -> (r: ParseResult<Span>)
    requires
        old(state).wf(),
    ensures
        final(state).wf(),
        env_unchanged(*old(state), *final(state)),
        skip_absorbing_close_tag_post(*old(state), *final(state), TokenKind::LeftBrace, r),
{
    let ghost pre = *old(state);
    let span = match skip(state, TokenKind::LeftBrace) {
        Result::Ok(s) => s,
        Result::Err(e) => {
            return Result::Err(e);
        },
    };
    let ghost mid = *state;
    if state.stream.current().kind == TokenKind::CloseTag {
        state.stream.next();
        proof {
            lemma_consumed_one_trans(pre.stream, mid.stream, state.stream);
        }
    }
    Result::Ok(span)
}

/// Consume a `:`.  A close tag right after it is consumed too, since PHP
/// permits leaving script mode right after a colon-delimited block opener.
pub fn skip_colon(state: &mut State) -> (r: ParseResult<Span>)
    requires
        old(state).wf(),
    ensures
        final(state).wf(),
        env_unchanged(*old(state), *final(state)),
        skip_absorbing_close_tag_post(*old(state), *final(state), TokenKind::Colon, r),
{
    let ghost pre = *old(state);
    let span = match skip(state, TokenKind::Colon) {
        Result::Ok(s) => s,
        Result::Err(e) => {
            return Result::Err(e);
        },
    };
    let ghost mid = *state;
    if state.stream.current().kind == TokenKind::CloseTag {
        state.stream.next();
        proof {
            lemma_consumed_one_trans(pre.stream, mid.stream, state.stream);
        }
    }
    Result::Ok(span)
}

pub fn skip_right_brace(state: &mut State) -> (r: ParseResult<Span>)
    requires
        old(state).wf(),
    ensures
        final(state).wf(),
        env_unchanged(*old(state), *final(state)),
        skip_post(*old(state), *final(state), TokenKind::RightBrace, r),
{
    skip(state, TokenKind::RightBrace)
}

pub fn skip_left_parenthesis(state: &mut State) -> (r: ParseResult<Span>)
    requires
        old(state).wf(),
    ensures
        final(state).wf(),
        env_unchanged(*old(state), *final(state)),
        skip_post(*old(state), *final(state), TokenKind::LeftParen, r),
{
    skip(state, TokenKind::LeftParen)
}

pub fn skip_right_parenthesis(state: &mut State) -> (r: ParseResult<Span>)
    requires
        old(state).wf(),
    ensures
        final(state).wf(),
        env_unchanged(*old(state), *final(state)),
        skip_post(*old(state), *final(state), TokenKind::RightParen, r),
{
    skip(state, TokenKind::RightParen)
}

pub fn skip_left_bracket(state: &mut State) -> (r: ParseResult<Span>)
    requires
        old(state).wf(),
    ensures
        final(state).wf(),
        env_unchanged(*old(state), *final(state)),
        skip_post(*old(state), *final(state), TokenKind::LeftBracket, r),
{
    skip(state, TokenKind::LeftBracket)
}

pub fn skip_right_bracket(state: &mut State) -> (r: ParseResult<Span>)
    requires
        old(state).wf(),
    ensures
        final(state).wf(),
        env_unchanged(*old(state), *final(state)),
        skip_post(*old(state), *final(state), TokenKind::RightBracket, r),
{
    skip(state, TokenKind::RightBracket)
}

pub fn skip_double_arrow(state: &mut State) -> (r: ParseResult<Span>)
    requires
        old(state).wf(),
    ensures
        final(state).wf(),
        env_unchanged(*old(state), *final(state)),
        skip_post(*old(state), *final(state), TokenKind::DoubleArrow, r),
{
    skip(state, TokenKind::DoubleArrow)
}

pub fn skip_double_colon(state: &mut State) -> (r: ParseResult<Span>)
    requires
        old(state).wf(),
    ensures
        final(state).wf(),
        env_unchanged(*old(state), *final(state)),
        skip_post(*old(state), *final(state), TokenKind::DoubleColon, r),
{
    skip(state, TokenKind::DoubleColon)
}

/// Consume a close tag if one is at the cursor; never fails.
pub fn skip_close_tag(state: &mut State) -> (r: ParseResult<()>)
    requires
        old(state).wf(),
    ensures
        final(state).wf(),
        env_unchanged(*old(state), *final(state)),
        r is Ok,
        ({
            let t = old(state).stream.tokens@;
            let c = old(state).stream.cursor as int;
            if kind_at(t, c) == TokenKind::CloseTag {
                consumed_one(old(state).stream, final(state).stream)
            } else {
                *final(state) == *old(state)
            }
        }),
{
    if state.stream.current().kind == TokenKind::CloseTag {
        state.stream.next();
    }
    Result::Ok(())
}

/// Consume a full `<?php` open tag if one is at the cursor; never fails.
pub fn skip_open_tag(state: &mut State) -> (r: ParseResult<()>)
    requires
        old(state).wf(),
    ensures
        final(state).wf(),
        env_unchanged(*old(state), *final(state)),
        r is Ok,
        ({
            let t = old(state).stream.tokens@;
            let c = old(state).stream.cursor as int;
            if kind_at(t, c) == TokenKind::OpenTagFull {
                consumed_one(old(state).stream, final(state).stream)
            } else {
                *final(state) == *old(state)
            }
        }),
{
    if state.stream.current().kind == TokenKind::OpenTagFull {
        state.stream.next();
    }
    Result::Ok(())
}

/// A separating comma consumed between two items: the state rests on a
/// comma, exactly that token is consumed, and nothing else changes.
pub open spec fn comma_step(pre: State, post: State) -> bool {
    &&& kind_at(pre.stream.tokens@, pre.stream.cursor as int) == TokenKind::Comma
    &&& consumed_one(pre.stream, post.stream)
    &&& post.force_type_strings == pre.force_type_strings
    &&& post.attributes@ == pre.attributes@
}

/// The shape of a successful comma-separated run of `n` items: a chain of
/// intermediate states over the same tokens, `pres[i]` where the i-th
/// invocation of the item parser began and `posts[i]` where it ended
/// (moving only forward), with exactly one comma consumed between
/// consecutive items; the run starts at `pre` and ends at `post`.
pub open spec fn comma_chain(
    tokens: Seq<Token>,
    pre: State,
    post: State,
    n: int,
    pres: Seq<State>,
    posts: Seq<State>,
) -> bool {
    &&& n >= 1
    &&& pres.len() == n
    &&& posts.len() == n
    &&& pres[0] == pre
    &&& posts[n - 1] == post
    &&& forall|i: int|
        0 <= i < n ==> (#[trigger] pres[i]).stream.tokens@ == tokens && posts[i].stream.tokens@
            == tokens
    &&& forall|i: int|
        0 <= i < n ==> (#[trigger] pres[i]).stream.cursor <= posts[i].stream.cursor
    &&& forall|i: int| 0 <= i < n - 1 ==> comma_step(#[trigger] posts[i], pres[i + 1])
}

/// Parse one item with `func`, then, as long as a comma follows, consume
/// it and parse another: one-or-more comma-separated items, in order.  On
/// success the items were parsed along a comma-separated chain of states
/// from the given state to the returned one, which rests on a non-comma
/// token; the first failure of `func` fails the whole call, with the
/// failing invocation's post-state returned unchanged.
pub fn at_least_one_comma_separated<T, F: Fn(&mut State) -> ParseResult<T>>(
    state: &mut State,
    func: &F,
) -> (r: ParseResult<Vec<T>>)
    requires
        old(state).wf(),
        forall|s: &mut State| mut_ref_current(s).wf() ==> #[trigger] call_requires(*func, (s,)),
        forall|s: &mut State, o: ParseResult<T>|
            #[trigger] call_ensures(*func, (s,), o) ==> {
                &&& mut_ref_future(s).wf()
                &&& mut_ref_future(s).stream.tokens@ == mut_ref_current(s).stream.tokens@
                &&& mut_ref_future(s).stream.cursor >= mut_ref_current(s).stream.cursor
            },
    ensures
        final(state).wf(),
        final(state).stream.tokens@ == old(state).stream.tokens@,
        final(state).stream.cursor >= old(state).stream.cursor,
        r matches Result::Ok(v) ==> {
            &&& v@.len() >= 1
            &&& kind_at(final(state).stream.tokens@, final(state).stream.cursor as int)
                != TokenKind::Comma
            &&& exists|pres: Seq<State>, posts: Seq<State>| #[trigger] comma_chain(
                old(state).stream.tokens@,
                *old(state),
                *final(state),
                v@.len() as int,
                pres,
                posts,
            )
        },
        r matches Result::Err(e) ==> exists|s: &mut State|
            {
                &&& #[trigger] call_ensures(*func, (s,), Result::<T, ParseError>::Err(e))
                &&& mut_ref_future(s) == *final(state)
            },
{
    let mut result: Vec<T> = Vec::new();
    let ghost pre0 = *state;
    let ghost t0 = state.stream.tokens@;
    let ghost mut pres: Seq<State> = Seq::empty();
    let ghost mut posts: Seq<State> = Seq::empty();
    loop
        invariant
            pre0 == *old(state),
            t0 == old(state).stream.tokens@,
            state.wf(),
            state.stream.tokens@ == t0,
            state.stream.cursor >= old(state).stream.cursor,
            pres.len() == result@.len(),
            posts.len() == result@.len(),
            result@.len() == 0 ==> *state == pre0,
            result@.len() >= 1 ==> comma_chain(
                t0,
                pre0,
                posts[result@.len() - 1],
                result@.len() as int,
                pres,
                posts,
            ),
            result@.len() >= 1 ==> comma_step(posts[result@.len() - 1], *state),
            forall|s: &mut State| mut_ref_current(s).wf() ==> #[trigger] call_requires(
                *func,
                (s,),
            ),
            forall|s: &mut State, o: ParseResult<T>|
                #[trigger] call_ensures(*func, (s,), o) ==> {
                    &&& mut_ref_future(s).wf()
                    &&& mut_ref_future(s).stream.tokens@ == mut_ref_current(s).stream.tokens@
                    &&& mut_ref_future(s).stream.cursor >= mut_ref_current(s).stream.cursor
                },
        decreases state.stream.tokens@.len() - state.stream.cursor,
    {
        let ghost pre_call = *state;
        let ghost result_pre = result@;
        let ghost pres_pre = pres;
        let ghost posts_pre = posts;
        match func(state) {
            Result::Ok(item) => {
                let ghost post_call = *state;
                result.push(item);
                proof {
                    pres = pres.push(pre_call);
                    posts = posts.push(post_call);
                    assert forall|i: int|
                        0 <= i < result@.len() implies (#[trigger] pres[i]).stream.tokens@ == t0
                            && posts[i].stream.tokens@ == t0 && pres[i].stream.cursor
                            <= posts[i].stream.cursor by {
                        if i < result_pre.len() {
                            assert(pres[i] == pres_pre[i]);
                            assert(posts[i] == posts_pre[i]);
                        } else {
                            assert(pres[i] == pre_call);
                            assert(posts[i] == post_call);
                        }
                    }
                    assert forall|i: int|
                        0 <= i < result@.len() - 1 implies comma_step(
                        #[trigger] posts[i],
                        pres[i + 1],
                    ) by {
                        if i < result_pre.len() - 1 {
                            assert(posts[i] == posts_pre[i]);
                            assert(pres[i + 1] == pres_pre[i + 1]);
                        } else {
                            assert(posts[i] == posts_pre[result_pre.len() - 1]);
                            assert(pres[i + 1] == pre_call);
                        }
                    }
                    assert(comma_chain(
                        t0,
                        pre0,
                        posts[result@.len() - 1],
                        result@.len() as int,
                        pres,
                        posts,
                    ));
                }
            },
            Result::Err(e) => {
                let ghost e_g = e;
                proof {
                    assert(exists|s: &mut State|
                        {
                            &&& #[trigger] call_ensures(
                                *func,
                                (s,),
                                Result::<T, ParseError>::Err(e_g),
                            )
                            &&& mut_ref_future(s) == *state
                        });
                }
                return Result::Err(e);
            },
        }
        if state.stream.current().kind == TokenKind::Comma {
            let ghost cm = state.stream.cursor as int;
            state.stream.next();
            proof {
                crate::stream::lemma_advance_bounds(t0, cm);
                assert(comma_step(posts[result@.len() - 1], *state));
            }
        } else {
            proof {
                assert(comma_chain(t0, pre0, *state, result@.len() as int, pres, posts));
            }
            return Result::Ok(result);
        }
    }
}

} // verus!
