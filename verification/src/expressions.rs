//! The expression collaborator.  Full expression parsing is outside this
//! core; an expression here is a single atom token (a literal, a variable
//! or an identifier), consumed and carried through.

use vstd::prelude::*;

use crate::ast::Expression;
use crate::error::ParseResult;
use crate::error::expected_token_err;
use crate::error::is_expected_err;
use crate::state::State;
use crate::state::env_unchanged;
use crate::stream::consumed_one;
use crate::stream::first_non_comment;
use crate::stream::kind_at;
use crate::stream::span_at;
use crate::token::TokenKind;

verus! {

/// The kinds an expression atom can have.
pub open spec fn is_atom_kind(k: TokenKind) -> bool {
    ||| k == TokenKind::LiteralInteger
    ||| k == TokenKind::LiteralString
    ||| k == TokenKind::Variable
    ||| k == TokenKind::Identifier
}

/// The expected-kind list an expression diagnostic shows.
pub open spec fn atom_kinds() -> Seq<TokenKind> {
    seq![
        TokenKind::LiteralInteger,
        TokenKind::LiteralString,
        TokenKind::Variable,
        TokenKind::Identifier,
    ]
}

/// Consume the expression atom at the cursor, or fail with `ExpectedToken`
/// without touching the stream.
pub fn create(state: &mut State) -> (r: ParseResult<Expression>)
    requires
        old(state).wf(),
    ensures
        final(state).wf(),
        env_unchanged(*old(state), *final(state)),
        ({
            let t = old(state).stream.tokens@;
            let c = old(state).stream.cursor as int;
            if is_atom_kind(kind_at(t, c)) {
                &&& r matches Result::Ok(e) && e.token == t[first_non_comment(t, c)]
                &&& consumed_one(old(state).stream, final(state).stream)
            } else {
                &&& r matches Result::Err(e) && is_expected_err(
                    e,
                    atom_kinds(),
                    kind_at(t, c),
                    span_at(t, c),
                )
                &&& *final(state) == *old(state)
            }
        }),
{
    let cur = state.stream.current();
    match cur.kind {
        TokenKind::LiteralInteger | TokenKind::LiteralString | TokenKind::Variable
            | TokenKind::Identifier => {
            state.stream.next();
            Result::Ok(Expression { token: cur })
        },
        _ => {
            let kinds = [
                TokenKind::LiteralInteger,
                TokenKind::LiteralString,
                TokenKind::Variable,
                TokenKind::Identifier,
            ];
            proof {
                assert(kinds@ =~= atom_kinds());
            }
            Result::Err(expected_token_err(&kinds, cur.kind, cur.span))
        },
    }
}

} // verus!
