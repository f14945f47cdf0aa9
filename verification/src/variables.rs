//! The variable collaborator: consuming a `$variable` token.

use vstd::prelude::*;

use crate::ast::SimpleVariable;
use crate::error::ParseResult;
use crate::error::is_expected_one;
use crate::state::State;
use crate::state::env_unchanged;
use crate::stream::consumed_one;
use crate::stream::first_non_comment;
use crate::stream::kind_at;
use crate::stream::span_at;
use crate::token::Token;
use crate::token::TokenKind;
use crate::error::expected_one_err;

verus! {

/// `v` is the variable node built from the token `tok`.
pub open spec fn var_matches(tok: Token, v: SimpleVariable) -> bool {
    v.span == tok.span && v.name@ == tok.value@
}

/// Consume the `$variable` at the cursor, or fail with `ExpectedToken`
/// without touching the stream.
pub fn simple_variable(state: &mut State) -> (r: ParseResult<SimpleVariable>)
    requires
        old(state).wf(),
    ensures
        final(state).wf(),
        env_unchanged(*old(state), *final(state)),
        ({
            let t = old(state).stream.tokens@;
            let c = old(state).stream.cursor as int;
            if kind_at(t, c) == TokenKind::Variable {
                &&& r matches Result::Ok(v) && var_matches(t[first_non_comment(t, c)], v)
                &&& consumed_one(old(state).stream, final(state).stream)
            } else {
                &&& r matches Result::Err(e) && is_expected_one(
                    e,
                    TokenKind::Variable,
                    kind_at(t, c),
                    span_at(t, c),
                )
                &&& *final(state) == *old(state)
            }
        }),
{
    let cur = state.stream.current();
    if cur.kind == TokenKind::Variable {
        state.stream.next();
        Result::Ok(SimpleVariable { span: cur.span, name: cur.value })
    } else {
        Result::Err(expected_one_err(TokenKind::Variable, cur.kind, cur.span))
    }
}

} // verus!
