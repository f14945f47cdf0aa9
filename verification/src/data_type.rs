//! Declared types as far as this core reads them: a named type, or one of
//! the forms PHP forbids on a property (`callable` and the bottom types).
//! Full type-string parsing is an outside collaborator; this core only
//! needs to recognise a type's head token and the forbidden forms.

use vstd::prelude::*;
use vstd::string::StringExecFns;

use crate::state::State;
use crate::state::env_unchanged;
use crate::stream::consumed_one;
use crate::stream::first_non_comment;
use crate::stream::kind_at;
use crate::token::Token;
use crate::token::TokenKind;

verus! {

/// A declared type, as far as property validation needs to look at it.
#[derive(Debug, PartialEq, Eq)]
pub enum Type {
    Named(String),
    Callable,
    Void,
    Never,
}

impl Clone for Type {
    fn clone(&self) -> (r: Type)
        ensures
            r == *self,
    {
        match self {
            Type::Named(n) => Type::Named(n.clone()),
            Type::Callable => Type::Callable,
            Type::Void => Type::Void,
            Type::Never => Type::Never,
        }
    }
}

/// A type PHP forbids on a property: `callable`, or a bottom type.
pub open spec fn type_forbidden(t: Type) -> bool {
    t == Type::Callable || t == Type::Void || t == Type::Never
}

impl Type {
    /// Whether the type includes the `callable` type.
    pub fn includes_callable(&self) -> (r: bool)
        ensures
            r == (*self == Type::Callable),
    {
        match self {
            Type::Callable => true,
            _ => false,
        }
    }

    /// Whether the type is a bottom type (`void` or `never`).
    pub fn is_bottom(&self) -> (r: bool)
        ensures
            r == (*self == Type::Void || *self == Type::Never),
    {
        match self {
            Type::Void => true,
            Type::Never => true,
            _ => false,
        }
    }
}

/// The kinds that can open a declared type.
pub open spec fn is_type_start(k: TokenKind) -> bool {
    k == TokenKind::Identifier || k == TokenKind::Callable
}

/// The type the token `tok` denotes.
pub open spec fn type_matches(tok: Token, t: Type) -> bool {
    if tok.kind == TokenKind::Callable {
        t == Type::Callable
    } else if tok.value@ == "void"@ {
        t == Type::Void
    } else if tok.value@ == "never"@ {
        t == Type::Never
    } else {
        t matches Type::Named(n) && n@ == tok.value@
    }
}

/// Whether the type the token `tok` denotes is forbidden on a property.
pub open spec fn type_forbidden_at(tok: Token) -> bool {
    tok.kind == TokenKind::Callable || tok.value@ == "void"@ || tok.value@ == "never"@
}

pub proof fn lemma_type_matches_forbidden(tok: Token, t: Type)
    requires
        type_matches(tok, t),
    ensures
        type_forbidden(t) == type_forbidden_at(tok),
{
}

/// The kinds a required type annotation may open with, for diagnostics.
pub open spec fn type_start_kinds() -> Seq<TokenKind> {
    seq![TokenKind::Identifier, TokenKind::Callable]
}

/// Consume a required type annotation, or fail with `ExpectedToken`
/// without touching the stream.
pub fn type_string(state: &mut State) -> (r: crate::error::ParseResult<Type>)
    requires
        old(state).wf(),
    ensures
        final(state).wf(),
        env_unchanged(*old(state), *final(state)),
        ({
            let t = old(state).stream.tokens@;
            let c = old(state).stream.cursor as int;
            if is_type_start(kind_at(t, c)) {
                &&& r matches Result::Ok(ty) && type_matches(t[first_non_comment(t, c)], ty)
                &&& consumed_one(old(state).stream, final(state).stream)
            } else {
                &&& r matches Result::Err(e) && crate::error::is_expected_err(
                    e,
                    type_start_kinds(),
                    kind_at(t, c),
                    crate::stream::span_at(t, c),
                )
                &&& *final(state) == *old(state)
            }
        }),
{
    let cur = state.stream.current();
    match optional_data_type(state) {
        Option::Some(ty) => Result::Ok(ty),
        Option::None => {
            let kinds = [TokenKind::Identifier, TokenKind::Callable];
            proof {
                assert(kinds@ =~= type_start_kinds());
            }
            Result::Err(crate::error::expected_token_err(&kinds, cur.kind, cur.span))
        },
    }
}

/// Consume a declared type if one opens at the cursor, else leave the
/// stream untouched and return nothing.
pub fn optional_data_type(state: &mut State) -> (r: Option<Type>)
    requires
        old(state).wf(),
    ensures
        final(state).wf(),
        env_unchanged(*old(state), *final(state)),
        ({
            let t = old(state).stream.tokens@;
            let c = old(state).stream.cursor as int;
            if is_type_start(kind_at(t, c)) {
                &&& r matches Option::Some(ty) && type_matches(t[first_non_comment(t, c)], ty)
                &&& consumed_one(old(state).stream, final(state).stream)
            } else {
                &&& r is None
                &&& *final(state) == *old(state)
            }
        }),
{
    let cur = state.stream.current();
    match cur.kind {
        TokenKind::Callable => {
            state.stream.next();
            Option::Some(Type::Callable)
        },
        TokenKind::Identifier => {
            state.stream.next();
            if cur.value == String::from_str("void") {
                Option::Some(Type::Void)
            } else if cur.value == String::from_str("never") {
                Option::Some(Type::Never)
            } else {
                Option::Some(Type::Named(cur.value))
            }
        },
        _ => Option::None,
    }
}

} // verus!
