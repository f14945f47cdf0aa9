//! The function and method grammars: the `function` keyword, an optional
//! `&` marking a by-reference return, a name, a parenthesized parameter
//! list, an optional (or configuration-forced) return type, and a body —
//! or, for bodiless methods, a terminating semicolon.

use vstd::prelude::*;

use crate::ast::ClassFlag;
use crate::ast::ClassishDefinitionType;
use crate::ast::FunctionParam;
use crate::ast::MethodFlag;
use crate::ast::ParamPosition;
use crate::ast::SimpleIdentifier;
use crate::ast::Statement;
use crate::data_type::is_type_start;
use crate::data_type::type_matches;
use crate::data_type::type_start_kinds;
use crate::data_type::type_string;
use crate::error::ParseError;
use crate::error::ParseResult;
use crate::error::expected_one_err;
use crate::error::is_expected_err;
use crate::error::is_expected_one;
use crate::state::State;
use crate::stream::TokenStream;
use crate::stream::advance;
use crate::stream::consumed_since;
use crate::stream::first_non_comment;
use crate::stream::kind_at;
use crate::stream::lemma_consumed_one_since;
use crate::stream::lemma_consumed_since_refl;
use crate::stream::lemma_consumed_since_trans;
use crate::stream::span_at;
use crate::token::Token;
use crate::token::TokenKind;
use crate::utils::skip;
use crate::utils::skip_colon;
use crate::utils::skip_left_brace;
use crate::utils::skip_semicolon;
use crate::variables::simple_variable;
use crate::variables::var_matches;

verus! {

/// The parameter variables from `c` on: zero or more `$variable`s
/// separated by commas (a trailing comma is permitted), and the cursor
/// after them.  Parameter internals (types, defaults, promotion) are
/// outside collaborators.
pub open spec fn params_from(tokens: Seq<Token>, c: int, acc: Seq<int>) -> (Seq<int>, int)
    decreases tokens.len() - c,
        when 0 <= c
    via params_from_decreases
{
    if kind_at(tokens, c) != TokenKind::Variable {
        (acc, c)
    } else {
        let var_at = first_non_comment(tokens, c);
        let c1 = advance(tokens, c);
        if kind_at(tokens, c1) == TokenKind::Comma {
            params_from(tokens, advance(tokens, c1), acc.push(var_at))
        } else {
            (acc.push(var_at), c1)
        }
    }
}

#[via_fn]
proof fn params_from_decreases(tokens: Seq<Token>, c: int, acc: Seq<int>) {
    if kind_at(tokens, c) == TokenKind::Variable {
        assert(c <= tokens.len()) by {
            if c > tokens.len() {
                assert(first_non_comment(tokens, c) == tokens.len());
            }
        }
        assert(first_non_comment(tokens, tokens.len() as int) == tokens.len());
        assert(first_non_comment(tokens, c) < tokens.len()) by {
            crate::stream::lemma_nth_non_comment_bounds(tokens, c, 0);
        }
        assert(c < tokens.len());
        crate::stream::lemma_advance_bounds(tokens, c);
        crate::stream::lemma_advance_bounds(tokens, advance(tokens, c));
    }
}

/// `params` are the parameter nodes for the variable tokens at `ats`.
pub open spec fn params_match(tokens: Seq<Token>, ats: Seq<int>, params: Seq<FunctionParam>) -> bool {
    &&& params.len() == ats.len()
    &&& forall|i: int| 0 <= i < ats.len() ==> 0 <= #[trigger] ats[i] < tokens.len()
    &&& forall|i: int|
        0 <= i < ats.len() ==> var_matches(
            tokens[ats[i]],
            (#[trigger] params[i]).variable,
        )
}

/// Parse a parameter list: the variables up to the closing parenthesis,
/// which stays for the caller.  Never fails.  `position` tags where the
/// list appears; the validation that consumes it (promoted properties) is
/// an outside collaborator.
pub fn param_list(state: &mut State, position: ParamPosition) -> (r: ParseResult<
    Vec<FunctionParam>,
>)
    requires
        old(state).wf(),
    ensures
        final(state).wf(),
        final(state).force_type_strings == old(state).force_type_strings,
        final(state).attributes@ == old(state).attributes@,
        consumed_since(old(state).stream, final(state).stream),
        ({
            let pr = params_from(
                old(state).stream.tokens@,
                old(state).stream.cursor as int,
                Seq::empty(),
            );
            &&& r matches Result::Ok(v) && params_match(old(state).stream.tokens@, pr.0, v@)
            &&& final(state).stream.cursor as int == pr.1
        }),
{
    let ghost t = state.stream.tokens@;
    let ghost c0 = state.stream.cursor as int;
    let mut params: Vec<FunctionParam> = Vec::new();
    let ghost mut ats: Seq<int> = Seq::empty();
    proof {
        lemma_consumed_since_refl(state.stream);
    }
    loop
        invariant
            old(state).wf(),
            t == old(state).stream.tokens@,
            c0 == old(state).stream.cursor as int,
            state.wf(),
            state.force_type_strings == old(state).force_type_strings,
            state.attributes@ == old(state).attributes@,
            consumed_since(old(state).stream, state.stream),
            params_match(t, ats, params@),
            params_from(t, c0, Seq::empty()) == params_from(t, state.stream.cursor as int, ats),
        decreases t.len() - state.stream.cursor,
    {
        let ghost c = state.stream.cursor as int;
        let ghost ats_pre = ats;
        let cur = state.stream.current();
        if cur.kind != TokenKind::Variable {
            proof {
                assert(params_from(t, c, ats) == (ats, c));
            }
            return Result::Ok(params);
        }
        let ghost pre_var = state.stream;
        let var = match simple_variable(state) {
            Result::Ok(v) => v,
            Result::Err(e) => {
                return Result::Err(e);
            },
        };
        proof {
            crate::stream::lemma_nth_non_comment_bounds(t, c, 0);
            lemma_consumed_one_since(pre_var, state.stream);
            lemma_consumed_since_trans(old(state).stream, pre_var, state.stream);
            ats = ats.push(first_non_comment(t, c));
        }
        let ghost params_pre = params@;
        params.push(FunctionParam { variable: var });
        proof {
            assert forall|i: int| 0 <= i < ats.len() implies 0 <= #[trigger] ats[i] < t.len() by {
                if i < ats_pre.len() {
                    assert(ats[i] == ats_pre[i]);
                } else {
                    assert(ats[i] == first_non_comment(t, c));
                }
            }
            assert forall|i: int|
                0 <= i < ats.len() implies var_matches(
                t[ats[i]],
                (#[trigger] params@[i]).variable,
            ) by {
                if i < ats_pre.len() {
                    assert(params@[i] == params_pre[i]);
                    assert(ats[i] == ats_pre[i]);
                    assert(var_matches(t[ats_pre[i]], params_pre[i].variable));
                } else {
                    assert(params@[i] == FunctionParam { variable: var });
                    assert(ats[i] == first_non_comment(t, c));
                }
            }
            assert(params_match(t, ats, params@));
        }
        let ghost c1 = state.stream.cursor as int;
        if state.stream.current().kind == TokenKind::Comma {
            let ghost pre_comma = state.stream;
            state.stream.next();
            proof {
                lemma_consumed_one_since(pre_comma, state.stream);
                lemma_consumed_since_trans(old(state).stream, pre_comma, state.stream);
                crate::stream::lemma_advance_bounds(t, c);
                crate::stream::lemma_advance_bounds(t, c1);
                assert(params_from(t, c, ats_pre) == params_from(
                    t,
                    state.stream.cursor as int,
                    ats,
                ));
            }
        } else {
            proof {
                assert(params_from(t, c, ats_pre) == (ats, c1));
            }
            return Result::Ok(params);
        }
    }
}

/// Parse a block body.  Statement parsing is an outside collaborator; this
/// core accepts an empty body and leaves the closing token, of kind
/// `until`, for the caller to consume.
pub fn block(state: &mut State, until: TokenKind) -> (r: ParseResult<Vec<Statement>>)
    requires
        old(state).wf(),
    ensures
        final(state).wf(),
        *final(state) == *old(state),
        ({
            let t = old(state).stream.tokens@;
            let c = old(state).stream.cursor as int;
            if kind_at(t, c) == until {
                r matches Result::Ok(v) && v@.len() == 0
            } else {
                r matches Result::Err(e) && is_expected_one(e, until, kind_at(t, c), span_at(t, c))
            }
        }),
{
    let cur = state.stream.current();
    if cur.kind == until {
        Result::Ok(Vec::new())
    } else {
        Result::Err(expected_one_err(until, cur.kind, cur.span))
    }
}

/// `id` is the identifier node built from the token `tok`.
pub open spec fn ident_matches(tok: Token, id: SimpleIdentifier) -> bool {
    id.span == tok.span && id.name@ == tok.value@
}

/// Consume the identifier at the cursor, or fail with `ExpectedToken`
/// without touching the stream.
fn ident(state: &mut State) -> (r: ParseResult<SimpleIdentifier>)
    requires
        old(state).wf(),
    ensures
        final(state).wf(),
        final(state).force_type_strings == old(state).force_type_strings,
        final(state).attributes@ == old(state).attributes@,
        ({
            let t = old(state).stream.tokens@;
            let c = old(state).stream.cursor as int;
            if kind_at(t, c) == TokenKind::Identifier {
                &&& r matches Result::Ok(id) && ident_matches(t[first_non_comment(t, c)], id)
                &&& crate::stream::consumed_one(old(state).stream, final(state).stream)
            } else {
                &&& r matches Result::Err(e) && is_expected_one(
                    e,
                    TokenKind::Identifier,
                    kind_at(t, c),
                    span_at(t, c),
                )
                &&& *final(state) == *old(state)
            }
        }),
{
    let cur = state.stream.current();
    if cur.kind == TokenKind::Identifier {
        state.stream.next();
        Result::Ok(SimpleIdentifier { span: cur.span, name: cur.value })
    } else {
        Result::Err(expected_one_err(TokenKind::Identifier, cur.kind, cur.span))
    }
}

/// The kinds a method name may have: an identifier, or any reserved word,
/// since PHP permits reserved words as method names.
pub open spec fn is_reserved_ident_kind(k: TokenKind) -> bool {
    ||| k == TokenKind::Identifier
    ||| k == TokenKind::Final
    ||| k == TokenKind::Abstract
    ||| k == TokenKind::Readonly
    ||| k == TokenKind::Private
    ||| k == TokenKind::Protected
    ||| k == TokenKind::Public
    ||| k == TokenKind::Static
    ||| k == TokenKind::Var
    ||| k == TokenKind::Const
    ||| k == TokenKind::Function
    ||| k == TokenKind::Class
    ||| k == TokenKind::Trait
    ||| k == TokenKind::Interface
    ||| k == TokenKind::Enum
    ||| k == TokenKind::Callable
}

/// Consume the method name at the cursor, an identifier or a reserved
/// word, building the node from the token's text; or fail with
/// `ExpectedToken` for an identifier without touching the stream.
fn ident_maybe_reserved(state: &mut State) -> (r: ParseResult<SimpleIdentifier>)
    requires
        old(state).wf(),
    ensures
        final(state).wf(),
        final(state).force_type_strings == old(state).force_type_strings,
        final(state).attributes@ == old(state).attributes@,
        ({
            let t = old(state).stream.tokens@;
            let c = old(state).stream.cursor as int;
            if is_reserved_ident_kind(kind_at(t, c)) {
                &&& r matches Result::Ok(id) && ident_matches(t[first_non_comment(t, c)], id)
                &&& crate::stream::consumed_one(old(state).stream, final(state).stream)
            } else {
                &&& r matches Result::Err(e) && is_expected_one(
                    e,
                    TokenKind::Identifier,
                    kind_at(t, c),
                    span_at(t, c),
                )
                &&& *final(state) == *old(state)
            }
        }),
{
    let cur = state.stream.current();
    let reserved = match cur.kind {
        TokenKind::Identifier | TokenKind::Final | TokenKind::Abstract | TokenKind::Readonly
            | TokenKind::Private | TokenKind::Protected | TokenKind::Public | TokenKind::Static
            | TokenKind::Var | TokenKind::Const | TokenKind::Function | TokenKind::Class
            | TokenKind::Trait | TokenKind::Interface | TokenKind::Enum | TokenKind::Callable
            => true,
        _ => false,
    };
    if reserved {
        state.stream.next();
        Result::Ok(SimpleIdentifier { span: cur.span, name: cur.value })
    } else {
        Result::Err(expected_one_err(TokenKind::Identifier, cur.kind, cur.span))
    }
}

/// What reading a signature tail yields after the name: the parameter
/// tokens, the return-type token if any (mandatory when `force` is set),
/// and the cursor after — or the expected kinds and position of the first
/// missing token.
pub enum SigOutcome {
    SigOk { param_ats: Seq<int>, ret_at: Option<int>, cursor: int },
    SigErr { expected: Seq<TokenKind>, at: int },
}

/// The signature every function-shaped grammar shares after its name: a
/// parenthesized parameter list, then an optional return type whose colon
/// is mandatory if present in the source or forced by configuration; a
/// close tag right after the colon is absorbed.
pub open spec fn signature_from(t: Seq<Token>, c3: int, force: bool) -> SigOutcome {
    if kind_at(t, c3) != TokenKind::LeftParen {
        SigOutcome::SigErr { expected: seq![TokenKind::LeftParen], at: c3 }
    } else {
        let c4 = advance(t, c3);
        let pr = params_from(t, c4, Seq::empty());
        let c5 = pr.1;
        if kind_at(t, c5) != TokenKind::RightParen {
            SigOutcome::SigErr { expected: seq![TokenKind::RightParen], at: c5 }
        } else {
            let c6 = advance(t, c5);
            if kind_at(t, c6) == TokenKind::Colon || force {
                if kind_at(t, c6) != TokenKind::Colon {
                    SigOutcome::SigErr { expected: seq![TokenKind::Colon], at: c6 }
                } else {
                    let c7a = advance(t, c6);
                    let c7 = if kind_at(t, c7a) == TokenKind::CloseTag {
                        advance(t, c7a)
                    } else {
                        c7a
                    };
                    if !is_type_start(kind_at(t, c7)) {
                        SigOutcome::SigErr { expected: type_start_kinds(), at: c7 }
                    } else {
                        SigOutcome::SigOk {
                            param_ats: pr.0,
                            ret_at: Option::Some(first_non_comment(t, c7)),
                            cursor: advance(t, c7),
                        }
                    }
                }
            } else {
                SigOutcome::SigOk { param_ats: pr.0, ret_at: Option::None, cursor: c6 }
            }
        }
    }
}

/// What reading a brace-delimited (empty) body yields: the cursor after
/// the closing brace, or the expected kind and position.  A close tag
/// right after the opening brace is absorbed.
pub enum BodyOutcome {
    BodyOk { cursor: int },
    BodyErr { expected: TokenKind, at: int },
}

pub open spec fn braced_body_from(t: Seq<Token>, c8: int) -> BodyOutcome {
    if kind_at(t, c8) != TokenKind::LeftBrace {
        BodyOutcome::BodyErr { expected: TokenKind::LeftBrace, at: c8 }
    } else {
        let c9a = advance(t, c8);
        let c9 = if kind_at(t, c9a) == TokenKind::CloseTag {
            advance(t, c9a)
        } else {
            c9a
        };
        if kind_at(t, c9) != TokenKind::RightBrace {
            BodyOutcome::BodyErr { expected: TokenKind::RightBrace, at: c9 }
        } else {
            BodyOutcome::BodyOk { cursor: advance(t, c9) }
        }
    }
}

/// The return type a statement carries matches the token `ret_at` names.
pub open spec fn return_type_matches(
    t: Seq<Token>,
    ret_at: Option<int>,
    rt: Option<crate::data_type::Type>,
) -> bool {
    match ret_at {
        Option::Some(ra) => {
            &&& 0 <= ra < t.len()
            &&& rt matches Option::Some(tv) && type_matches(t[ra], tv)
        },
        Option::None => rt is None,
    }
}

/// The name a statement carries matches the token `name_at` names.
pub open spec fn name_matches(t: Seq<Token>, name_at: int, id: SimpleIdentifier) -> bool {
    &&& 0 <= name_at < t.len()
    &&& ident_matches(t[name_at], id)
}

/// Parse the signature tail shared by `function` and `method`: parameter
/// list and optional return type.
fn signature(state: &mut State, position: ParamPosition) -> (r: ParseResult<
    (Vec<FunctionParam>, Option<crate::data_type::Type>),
>)
    requires
        old(state).wf(),
    ensures
        final(state).wf(),
        final(state).force_type_strings == old(state).force_type_strings,
        final(state).attributes@ == old(state).attributes@,
        consumed_since(old(state).stream, final(state).stream),
        ({
            let t = old(state).stream.tokens@;
            let c3 = old(state).stream.cursor as int;
            match signature_from(t, c3, old(state).force_type_strings) {
                SigOutcome::SigOk { param_ats, ret_at, cursor } => {
                    &&& r matches Result::Ok(pr)
                    &&& params_match(t, param_ats, pr.0@)
                    &&& return_type_matches(t, ret_at, pr.1)
                    &&& final(state).stream.cursor as int == cursor
                },
                SigOutcome::SigErr { expected, at } => {
                    &&& r matches Result::Err(e)
                    &&& is_expected_err(e, expected, kind_at(t, at), span_at(t, at))
                    &&& final(state).stream.cursor as int == at
                },
            }
        }),
{
    let ghost t = state.stream.tokens@;
    let ghost s0 = state.stream;
    match skip(state, TokenKind::LeftParen) {
        Result::Ok(_) => {},
        Result::Err(e) => {
            proof {
                lemma_consumed_since_refl(state.stream);
            }
            return Result::Err(e);
        },
    }
    proof {
        lemma_consumed_one_since(s0, state.stream);
    }
    let ghost s1 = state.stream;
    let params = match param_list(state, position) {
        Result::Ok(v) => v,
        Result::Err(e) => {
            proof {
                lemma_consumed_since_trans(s0, s1, state.stream);
            }
            return Result::Err(e);
        },
    };
    proof {
        lemma_consumed_since_trans(s0, s1, state.stream);
    }
    let ghost s2 = state.stream;
    match skip(state, TokenKind::RightParen) {
        Result::Ok(_) => {},
        Result::Err(e) => {
            proof {
                lemma_consumed_since_refl(state.stream);
            }
            return Result::Err(e);
        },
    }
    proof {
        lemma_consumed_one_since(s2, state.stream);
        lemma_consumed_since_trans(s0, s2, state.stream);
    }
    let mut return_type: Option<crate::data_type::Type> = Option::None;
    if state.stream.current().kind == TokenKind::Colon || state.force_type_strings {
        let ghost s3 = state.stream;
        match skip_colon(state) {
            Result::Ok(_) => {},
            Result::Err(e) => {
                proof {
                    lemma_consumed_since_refl(state.stream);
                }
                return Result::Err(e);
            },
        }
        proof {
            let t0 = s3.tokens@;
            let cc = s3.cursor as int;
            if kind_at(t0, advance(t0, cc)) == TokenKind::CloseTag {
                crate::utils::lemma_consumed_two_since(s3, state.stream);
            } else {
                lemma_consumed_one_since(s3, state.stream);
            }
            lemma_consumed_since_trans(s0, s3, state.stream);
        }
        let ghost s4 = state.stream;
        let ty = match type_string(state) {
            Result::Ok(v) => v,
            Result::Err(e) => {
                proof {
                    lemma_consumed_since_trans(s0, s4, state.stream);
                }
                return Result::Err(e);
            },
        };
        proof {
            lemma_consumed_one_since(s4, state.stream);
            lemma_consumed_since_trans(s0, s4, state.stream);
        }
        return_type = Option::Some(ty);
    }
    Result::Ok((params, return_type))
}

/// Parse the brace-delimited body shared by `function` and `method`.
fn braced_body(state: &mut State) -> (r: ParseResult<Vec<Statement>>)
    requires
        old(state).wf(),
    ensures
        final(state).wf(),
        final(state).force_type_strings == old(state).force_type_strings,
        final(state).attributes@ == old(state).attributes@,
        consumed_since(old(state).stream, final(state).stream),
        ({
            let t = old(state).stream.tokens@;
            let c8 = old(state).stream.cursor as int;
            match braced_body_from(t, c8) {
                BodyOutcome::BodyOk { cursor } => {
                    &&& r matches Result::Ok(v) && v@.len() == 0
                    &&& final(state).stream.cursor as int == cursor
                },
                BodyOutcome::BodyErr { expected, at } => {
                    &&& r matches Result::Err(e)
                    &&& is_expected_one(e, expected, kind_at(t, at), span_at(t, at))
                    &&& final(state).stream.cursor as int == at
                },
            }
        }),
{
    let ghost s0 = state.stream;
    match skip_left_brace(state) {
        Result::Ok(_) => {},
        Result::Err(e) => {
            proof {
                lemma_consumed_since_refl(state.stream);
            }
            return Result::Err(e);
        },
    }
    proof {
        let t0 = s0.tokens@;
        let cc = s0.cursor as int;
        if kind_at(t0, advance(t0, cc)) == TokenKind::CloseTag {
            crate::utils::lemma_consumed_two_since(s0, state.stream);
        } else {
            lemma_consumed_one_since(s0, state.stream);
        }
    }
    let body = match block(state, TokenKind::RightBrace) {
        Result::Ok(v) => v,
        Result::Err(e) => {
            return Result::Err(e);
        },
    };
    let ghost s2 = state.stream;
    match skip(state, TokenKind::RightBrace) {
        Result::Ok(_) => {},
        Result::Err(e) => {
            proof {
                lemma_consumed_since_refl(state.stream);
            }
            return Result::Err(e);
        },
    }
    proof {
        lemma_consumed_one_since(s2, state.stream);
        lemma_consumed_since_trans(s0, s2, state.stream);
    }
    Result::Ok(body)
}

/// Parse a `function` declaration: the keyword, an optional `&`, the name,
/// the signature, and a brace-delimited body.
pub fn function(state: &mut State) -> (r: ParseResult<Statement>)
    requires
        old(state).wf(),
    ensures
        final(state).wf(),
        final(state).force_type_strings == old(state).force_type_strings,
        final(state).attributes@ == old(state).attributes@,
        consumed_since(old(state).stream, final(state).stream),
        ({
            let t = old(state).stream.tokens@;
            let c0 = old(state).stream.cursor as int;
            let c1 = advance(t, c0);
            let amp = kind_at(t, c1) == TokenKind::Ampersand;
            let c2 = if amp { advance(t, c1) } else { c1 };
            if kind_at(t, c2) != TokenKind::Identifier {
                &&& r matches Result::Err(e)
                &&& is_expected_one(e, TokenKind::Identifier, kind_at(t, c2), span_at(t, c2))
                &&& final(state).stream.cursor as int == c2
            } else {
                let name_at = first_non_comment(t, c2);
                let c3 = advance(t, c2);
                match signature_from(t, c3, old(state).force_type_strings) {
                    SigOutcome::SigErr { expected, at } => {
                        &&& r matches Result::Err(e)
                        &&& is_expected_err(e, expected, kind_at(t, at), span_at(t, at))
                        &&& final(state).stream.cursor as int == at
                    },
                    SigOutcome::SigOk { param_ats, ret_at, cursor } => {
                        match braced_body_from(t, cursor) {
                            BodyOutcome::BodyErr { expected, at } => {
                                &&& r matches Result::Err(e)
                                &&& is_expected_one(e, expected, kind_at(t, at), span_at(t, at))
                                &&& final(state).stream.cursor as int == at
                            },
                            BodyOutcome::BodyOk { cursor: c10 } => {
                                &&& r matches Result::Ok(stmt)
                                &&& (stmt matches Statement::Function {
                                    name,
                                    params,
                                    body,
                                    return_type,
                                    by_ref,
                                } && {
                                    &&& by_ref == amp
                                    &&& name_matches(t, name_at, name)
                                    &&& params_match(t, param_ats, params@)
                                    &&& return_type_matches(t, ret_at, return_type)
                                    &&& body@.len() == 0
                                })
                                &&& final(state).stream.cursor as int == c10
                            },
                        }
                    },
                }
            }
        }),
{
    let ghost s0 = state.stream;
    state.stream.next();
    proof {
        lemma_consumed_one_since(s0, state.stream);
    }
    let by_ref = if state.stream.current().kind == TokenKind::Ampersand {
        let ghost s1 = state.stream;
        state.stream.next();
        proof {
            lemma_consumed_one_since(s1, state.stream);
            lemma_consumed_since_trans(s0, s1, state.stream);
        }
        true
    } else {
        false
    };
    let ghost s2 = state.stream;
    let name = match ident(state) {
        Result::Ok(id) => id,
        Result::Err(e) => {
            proof {
                lemma_consumed_since_trans(s0, s2, state.stream);
            }
            return Result::Err(e);
        },
    };
    proof {
        lemma_consumed_one_since(s2, state.stream);
        lemma_consumed_since_trans(s0, s2, state.stream);
    }
    let ghost s3 = state.stream;
    let sig = match signature(state, ParamPosition::Function) {
        Result::Ok(v) => v,
        Result::Err(e) => {
            proof {
                lemma_consumed_since_trans(s0, s3, state.stream);
            }
            return Result::Err(e);
        },
    };
    proof {
        lemma_consumed_since_trans(s0, s3, state.stream);
    }
    let (params, return_type) = sig;
    let ghost s4 = state.stream;
    let body = match braced_body(state) {
        Result::Ok(v) => v,
        Result::Err(e) => {
            proof {
                lemma_consumed_since_trans(s0, s4, state.stream);
            }
            return Result::Err(e);
        },
    };
    proof {
        lemma_consumed_since_trans(s0, s4, state.stream);
    }
    Result::Ok(Statement::Function { name, params, body, return_type, by_ref })
}

/// Whether `v` holds the method flag `f`.
pub fn method_flags_contain(v: &Vec<MethodFlag>, f: MethodFlag) -> (r: bool)
    ensures
        r == v@.contains(f),
{
    let mut i: usize = 0;
    let mut found = false;
    while i < v.len()
        invariant
            i <= v@.len(),
            found == (exists|j: int| 0 <= j < i as int && v@[j] == f),
        decreases v@.len() - i,
    {
        if v[i] == f {
            found = true;
            proof {
                assert(v@[i as int] == f);
            }
        }
        i = i + 1;
    }
    proof {
        assert(found == v@.contains(f));
    }
    found
}

/// Whether `v` holds the class flag `f`.
pub fn class_flags_contain(v: &Vec<ClassFlag>, f: ClassFlag) -> (r: bool)
    ensures
        r == v@.contains(f),
{
    let mut i: usize = 0;
    let mut found = false;
    while i < v.len()
        invariant
            i <= v@.len(),
            found == (exists|j: int| 0 <= j < i as int && v@[j] == f),
        decreases v@.len() - i,
    {
        if v[i] == f {
            found = true;
            proof {
                assert(v@[i as int] == f);
            }
        }
        i = i + 1;
    }
    proof {
        assert(found == v@.contains(f));
    }
    found
}

/// The pre-check of `method`: an abstract method declared in a class that
/// is not itself abstract.
pub open spec fn abstract_method_mismatch(
    class_type: ClassishDefinitionType,
    flags: Seq<MethodFlag>,
) -> bool {
    &&& class_type matches ClassishDefinitionType::Class(cf) && !cf@.contains(ClassFlag::Abstract)
    &&& flags.contains(MethodFlag::Abstract)
}

/// Whether a method in context `class_type` with `flags` has a body:
/// interface methods never do, enum and anonymous-class methods always do,
/// and class or trait methods do unless declared abstract.
pub open spec fn method_has_body(
    class_type: ClassishDefinitionType,
    flags: Seq<MethodFlag>,
) -> bool {
    match class_type {
        ClassishDefinitionType::Class(_) => !flags.contains(MethodFlag::Abstract),
        ClassishDefinitionType::Trait => !flags.contains(MethodFlag::Abstract),
        ClassishDefinitionType::Interface => false,
        ClassishDefinitionType::Enum => true,
        ClassishDefinitionType::AnonymousClass => true,
    }
}

/// Parse a method declaration whose modifiers were already collected into
/// `flags`.  Rejects an abstract method in a non-abstract class before
/// consuming anything; otherwise reads the name (reserved words are
/// permitted as method names), the signature, and then a body, or, for
/// bodiless methods, a terminating semicolon.
pub fn method(state: &mut State, class_type: ClassishDefinitionType, flags: Vec<MethodFlag>) -> (r:
    ParseResult<Statement>)
    requires
        old(state).wf(),
    ensures
        final(state).wf(),
        final(state).force_type_strings == old(state).force_type_strings,
        final(state).attributes@ == old(state).attributes@,
        consumed_since(old(state).stream, final(state).stream),
        ({
            let t = old(state).stream.tokens@;
            let c0 = old(state).stream.cursor as int;
            if abstract_method_mismatch(class_type, flags@) {
                &&& r matches Result::Err(e)
                &&& e == ParseError::AbstractModifierOnNonAbstractClassMethod(span_at(t, c0))
                &&& final(state).stream.cursor as int == c0
            } else {
                let c1 = advance(t, c0);
                let amp = kind_at(t, c1) == TokenKind::Ampersand;
                let c2 = if amp { advance(t, c1) } else { c1 };
                if !is_reserved_ident_kind(kind_at(t, c2)) {
                    &&& r matches Result::Err(e)
                    &&& is_expected_one(e, TokenKind::Identifier, kind_at(t, c2), span_at(t, c2))
                    &&& final(state).stream.cursor as int == c2
                } else {
                    let name_at = first_non_comment(t, c2);
                    let c3 = advance(t, c2);
                    match signature_from(t, c3, old(state).force_type_strings) {
                        SigOutcome::SigErr { expected, at } => {
                            &&& r matches Result::Err(e)
                            &&& is_expected_err(e, expected, kind_at(t, at), span_at(t, at))
                            &&& final(state).stream.cursor as int == at
                        },
                        SigOutcome::SigOk { param_ats, ret_at, cursor } => {
                            if !method_has_body(class_type, flags@) {
                                let k = kind_at(t, cursor);
                                if k == TokenKind::SemiColon || k == TokenKind::CloseTag {
                                    &&& r matches Result::Ok(stmt)
                                    &&& (stmt matches Statement::AbstractMethod {
                                        name,
                                        params,
                                        return_type,
                                        flags: rf,
                                        by_ref,
                                    } && {
                                        &&& by_ref == amp
                                        &&& name_matches(t, name_at, name)
                                        &&& params_match(t, param_ats, params@)
                                        &&& return_type_matches(t, ret_at, return_type)
                                        &&& rf@ == flags@
                                    })
                                    &&& final(state).stream.cursor as int == advance(t, cursor)
                                } else {
                                    &&& r matches Result::Err(e)
                                    &&& is_expected_one(
                                        e,
                                        TokenKind::SemiColon,
                                        k,
                                        span_at(t, cursor),
                                    )
                                    &&& final(state).stream.cursor as int == cursor
                                }
                            } else {
                                match braced_body_from(t, cursor) {
                                    BodyOutcome::BodyErr { expected, at } => {
                                        &&& r matches Result::Err(e)
                                        &&& is_expected_one(
                                            e,
                                            expected,
                                            kind_at(t, at),
                                            span_at(t, at),
                                        )
                                        &&& final(state).stream.cursor as int == at
                                    },
                                    BodyOutcome::BodyOk { cursor: c10 } => {
                                        &&& r matches Result::Ok(stmt)
                                        &&& (stmt matches Statement::Method {
                                            name,
                                            params,
                                            body,
                                            return_type,
                                            by_ref,
                                            flags: rf,
                                        } && {
                                            &&& by_ref == amp
                                            &&& name_matches(t, name_at, name)
                                            &&& params_match(t, param_ats, params@)
                                            &&& return_type_matches(t, ret_at, return_type)
                                            &&& body@.len() == 0
                                            &&& rf@ == flags@
                                        })
                                        &&& final(state).stream.cursor as int == c10
                                    },
                                }
                            }
                        },
                    }
                }
            }
        }),
{
    let mismatch = match &class_type {
        ClassishDefinitionType::Class(cf) => !class_flags_contain(cf, ClassFlag::Abstract)
            && method_flags_contain(&flags, MethodFlag::Abstract),
        _ => false,
    };
    if mismatch {
        let cur = state.stream.current();
        proof {
            lemma_consumed_since_refl(state.stream);
        }
        return Result::Err(ParseError::AbstractModifierOnNonAbstractClassMethod(cur.span));
    }
    let has_body = match &class_type {
        ClassishDefinitionType::Class(_) => !method_flags_contain(&flags, MethodFlag::Abstract),
        ClassishDefinitionType::Trait => !method_flags_contain(&flags, MethodFlag::Abstract),
        ClassishDefinitionType::Interface => false,
        ClassishDefinitionType::Enum => true,
        ClassishDefinitionType::AnonymousClass => true,
    };
    let ghost s0 = state.stream;
    state.stream.next();
    proof {
        lemma_consumed_one_since(s0, state.stream);
    }
    let by_ref = if state.stream.current().kind == TokenKind::Ampersand {
        let ghost s1 = state.stream;
        state.stream.next();
        proof {
            lemma_consumed_one_since(s1, state.stream);
            lemma_consumed_since_trans(s0, s1, state.stream);
        }
        true
    } else {
        false
    };
    let ghost s2 = state.stream;
    let name = match ident_maybe_reserved(state) {
        Result::Ok(id) => id,
        Result::Err(e) => {
            proof {
                lemma_consumed_since_trans(s0, s2, state.stream);
            }
            return Result::Err(e);
        },
    };
    proof {
        lemma_consumed_one_since(s2, state.stream);
        lemma_consumed_since_trans(s0, s2, state.stream);
    }
    let position = position_from_flags_and_name(&class_type, &flags, name.name.clone());
    let ghost s3 = state.stream;
    let sig = match signature(state, position) {
        Result::Ok(v) => v,
        Result::Err(e) => {
            proof {
                lemma_consumed_since_trans(s0, s3, state.stream);
            }
            return Result::Err(e);
        },
    };
    proof {
        lemma_consumed_since_trans(s0, s3, state.stream);
    }
    let (params, return_type) = sig;
    if !has_body {
        let ghost s4 = state.stream;
        let _end = match skip_semicolon(state) {
            Result::Ok(sp) => sp,
            Result::Err(e) => {
                proof {
                    lemma_consumed_since_refl(state.stream);
                    lemma_consumed_since_trans(s0, s4, state.stream);
                }
                return Result::Err(e);
            },
        };
        proof {
            lemma_consumed_one_since(s4, state.stream);
            lemma_consumed_since_trans(s0, s4, state.stream);
        }
        Result::Ok(Statement::AbstractMethod { name, params, return_type, flags, by_ref })
    } else {
        let ghost s4 = state.stream;
        let body = match braced_body(state) {
            Result::Ok(v) => v,
            Result::Err(e) => {
                proof {
                    lemma_consumed_since_trans(s0, s4, state.stream);
                }
                return Result::Err(e);
            },
        };
        proof {
            lemma_consumed_since_trans(s0, s4, state.stream);
        }
        Result::Ok(Statement::Method { name, params, body, return_type, by_ref, flags })
    }
}

/// The position tag handed to the parameter-list collaborator: interface
/// methods and abstract methods are tagged `AbstractMethod`, every other
/// method `Method`, each carrying the method's name.
pub fn position_from_flags_and_name(
    class_type: &ClassishDefinitionType,
    flags: &Vec<MethodFlag>,
    name: String,
) -> (r: ParamPosition)
    ensures
        ({
            match class_type {
                ClassishDefinitionType::Interface => r matches ParamPosition::AbstractMethod(n)
                    && n@ == name@,
                _ => {
                    if flags@.contains(MethodFlag::Abstract) {
                        r matches ParamPosition::AbstractMethod(n) && n@ == name@
                    } else {
                        r matches ParamPosition::Method(n) && n@ == name@
                    }
                },
            }
        }),
{
    match class_type {
        ClassishDefinitionType::Interface => ParamPosition::AbstractMethod(name),
        _ => {
            if !method_flags_contain(flags, MethodFlag::Abstract) {
                ParamPosition::Method(name)
            } else {
                ParamPosition::AbstractMethod(name)
            }
        },
    }
}

} // verus!
