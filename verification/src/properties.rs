//! The property grammars: an optional declared type, one-or-more
//! comma-separated `$variable [= expression]` entries, and a statement
//! terminator, with PHP's property rules checked once per statement on the
//! first variable: a readonly property is never static, always has a
//! declared type and never a default value, and no property's type is
//! `callable` or a bottom type.

use vstd::prelude::*;

use crate::ast::Property;
use crate::ast::PropertyEntry;
use crate::ast::PropertyModifier;
use crate::ast::PropertyModifierGroup;
use crate::ast::VariableProperty;
use crate::ast::modifier_span;
use crate::data_type::Type;
use crate::data_type::is_type_start;
use crate::data_type::optional_data_type;
use crate::data_type::type_forbidden;
use crate::data_type::type_forbidden_at;
use crate::data_type::type_matches;
use crate::error::ParseError;
use crate::error::ParseResult;
use crate::error::is_expected_err;
use crate::error::is_expected_one;
use crate::expressions::atom_kinds;
use crate::expressions::is_atom_kind;
use crate::state::State;
use crate::stream::TokenStream;
use crate::stream::advance;
use crate::stream::consumed_since;
use crate::stream::first_non_comment;
use crate::stream::kind_at;
use crate::stream::lemma_consumed_one_since;
use crate::stream::lemma_consumed_since_refl;
use crate::stream::lemma_consumed_since_trans;
use crate::stream::span_at;
use crate::token::Span;
use crate::token::Token;
use crate::token::TokenKind;
use crate::utils::skip;
use crate::utils::skip_semicolon;
use crate::variables::simple_variable;
use crate::variables::var_matches;

verus! {

/// The span of an optional modifier.
pub open spec fn modifier_span_opt(m: Option<PropertyModifier>) -> Option<Span> {
    match m {
        Option::None => Option::None,
        Option::Some(x) => Option::Some(modifier_span(x)),
    }
}

/// One parsed entry as token positions: the variable token, and the `=`
/// and value tokens when initialized (`-1` when absent).
pub struct EntryDesc {
    pub var_at: int,
    pub eq_at: int,
    pub val_at: int,
}

/// The first rule violation an entry list runs into.
pub enum PropFail {
    /// The cursor does not rest on a `$variable`.
    ExpectedVar,
    /// The property is both static and readonly.
    StaticReadonly { var_at: int, ro: Span, st: Span },
    /// The declared type is `callable` or a bottom type.
    ForbiddenType { var_at: int },
    /// A readonly property lacks a declared type.
    MissingType { var_at: int, ro: Span },
    /// A readonly property carries a default value.
    ReadonlyDefault { var_at: int, ro: Span, eq_span: Span },
    /// An `=` is not followed by an expression atom.
    ExpectedExpr,
    /// The entries are not terminated by `;` or a close tag.
    ExpectedSemi,
}

/// What the entry loop yields: the entries as token positions (variable,
/// `=`, value; `-1` for absent), or the first violation, each with the
/// cursor the stream is left at.
pub enum EntriesOutcome {
    Parsed { descs: Seq<EntryDesc>, cursor: int },
    Bad { fail: PropFail, cursor: int },
}

pub open spec fn entries_cursor(o: EntriesOutcome) -> int {
    match o {
        EntriesOutcome::Parsed { cursor, .. } => cursor,
        EntriesOutcome::Bad { cursor, .. } => cursor,
    }
}

/// The entry loop, step by step.  `first` latches the once-per-statement
/// semantic checks: they run ahead of the first entry only, because they
/// depend only on the shared type and modifiers.
pub open spec fn entries_from(
    tokens: Seq<Token>,
    c: int,
    has_ty: bool,
    forbidden: bool,
    ro: Option<Span>,
    st: Option<Span>,
    first: bool,
    acc: Seq<EntryDesc>,
) -> EntriesOutcome
    decreases tokens.len() - c,
        when 0 <= c
    via entries_from_decreases
{
    if kind_at(tokens, c) != TokenKind::Variable {
        EntriesOutcome::Bad { fail: PropFail::ExpectedVar, cursor: c }
    } else {
        let var_at = first_non_comment(tokens, c);
        let c1 = advance(tokens, c);
        if first && ro is Some && st is Some {
            EntriesOutcome::Bad {
                fail: PropFail::StaticReadonly { var_at, ro: ro->0, st: st->0 },
                cursor: c1,
            }
        } else if first && has_ty && forbidden {
            EntriesOutcome::Bad { fail: PropFail::ForbiddenType { var_at }, cursor: c1 }
        } else if first && !has_ty && ro is Some {
            EntriesOutcome::Bad {
                fail: PropFail::MissingType { var_at, ro: ro->0 },
                cursor: c1,
            }
        } else if kind_at(tokens, c1) == TokenKind::Equals {
            if ro is Some {
                EntriesOutcome::Bad {
                    fail: PropFail::ReadonlyDefault {
                        var_at,
                        ro: ro->0,
                        eq_span: span_at(tokens, c1),
                    },
                    cursor: c1,
                }
            } else {
                let eq_at = first_non_comment(tokens, c1);
                let c2 = advance(tokens, c1);
                if !is_atom_kind(kind_at(tokens, c2)) {
                    EntriesOutcome::Bad { fail: PropFail::ExpectedExpr, cursor: c2 }
                } else {
                    let val_at = first_non_comment(tokens, c2);
                    let c3 = advance(tokens, c2);
                    let acc2 = acc.push(EntryDesc { var_at, eq_at, val_at });
                    if kind_at(tokens, c3) == TokenKind::Comma {
                        entries_from(
                            tokens,
                            advance(tokens, c3),
                            has_ty,
                            forbidden,
                            ro,
                            st,
                            false,
                            acc2,
                        )
                    } else {
                        EntriesOutcome::Parsed { descs: acc2, cursor: c3 }
                    }
                }
            }
        } else {
            let acc2 = acc.push(EntryDesc { var_at, eq_at: -1, val_at: -1 });
            if kind_at(tokens, c1) == TokenKind::Comma {
                entries_from(tokens, advance(tokens, c1), has_ty, forbidden, ro, st, false, acc2)
            } else {
                EntriesOutcome::Parsed { descs: acc2, cursor: c1 }
            }
        }
    }
}

#[via_fn]
proof fn entries_from_decreases(
    tokens: Seq<Token>,
    c: int,
    has_ty: bool,
    forbidden: bool,
    ro: Option<Span>,
    st: Option<Span>,
    first: bool,
    acc: Seq<EntryDesc>,
) {
    if kind_at(tokens, c) == TokenKind::Variable {
        assert(c <= tokens.len()) by {
            if c > tokens.len() {
                assert(first_non_comment(tokens, c) == tokens.len());
            }
        }
        assert(first_non_comment(tokens, tokens.len() as int) == tokens.len());
        crate::stream::lemma_advance_bounds(tokens, c);
        let c1 = advance(tokens, c);
        crate::stream::lemma_advance_bounds(tokens, c1);
        let c2 = advance(tokens, c1);
        crate::stream::lemma_advance_bounds(tokens, c2);
        let c3 = advance(tokens, c2);
        crate::stream::lemma_advance_bounds(tokens, c3);
        assert(first_non_comment(tokens, c) < tokens.len()) by {
            crate::stream::lemma_nth_non_comment_bounds(tokens, c, 0);
        }
        assert(c < tokens.len());
    }
}

/// A readonly property with a default value is rejected at the `=`,
/// whichever entry carries it and whatever was already collected: if the
/// entry at `c` is a `$variable` followed by `=` and the modifiers include
/// readonly, the outcome is the readonly-default diagnostic, carrying the
/// variable's token, the readonly span and the span of the unconsumed `=`.
/// On the first entry this holds once the once-per-statement checks pass
/// (no static modifier, a declared type that is not forbidden).
pub proof fn lemma_readonly_default_rejected(
    tokens: Seq<Token>,
    c: int,
    has_ty: bool,
    forbidden: bool,
    ro: Span,
    st: Option<Span>,
    first: bool,
    acc: Seq<EntryDesc>,
)
    requires
        kind_at(tokens, c) == TokenKind::Variable,
        kind_at(tokens, advance(tokens, c)) == TokenKind::Equals,
        first ==> st is None && has_ty && !forbidden,
    ensures
        entries_from(tokens, c, has_ty, forbidden, Option::Some(ro), st, first, acc)
            == (EntriesOutcome::Bad {
            fail: PropFail::ReadonlyDefault {
                var_at: first_non_comment(tokens, c),
                ro,
                eq_span: span_at(tokens, advance(tokens, c)),
            },
            cursor: advance(tokens, c),
        }),
{
}

/// `e` is the entry node the descriptor `d` describes over `tokens`.
pub open spec fn entry_matches(tokens: Seq<Token>, d: EntryDesc, e: PropertyEntry) -> bool {
    match e {
        PropertyEntry::Uninitialized { variable } => {
            &&& d.eq_at == -1
            &&& 0 <= d.var_at < tokens.len()
            &&& var_matches(tokens[d.var_at], variable)
        },
        PropertyEntry::Initialized { variable, equals, value } => {
            &&& 0 <= d.var_at < tokens.len()
            &&& var_matches(tokens[d.var_at], variable)
            &&& 0 <= d.eq_at < tokens.len()
            &&& equals == tokens[d.eq_at].span
            &&& 0 <= d.val_at < tokens.len()
            &&& value.token == tokens[d.val_at]
        },
    }
}

/// `e` is the diagnostic the violation `fail` calls for, with `class` as
/// the qualified class name and the member name and spans drawn from the
/// offending tokens.  The type payload of `ForbiddenTypeUsedInProperty` is
/// constrained separately by each caller.
pub open spec fn prop_fail_matches(
    tokens: Seq<Token>,
    fail: PropFail,
    cursor: int,
    class: Seq<char>,
    e: ParseError,
) -> bool {
    match fail {
        PropFail::ExpectedVar => is_expected_one(
            e,
            TokenKind::Variable,
            kind_at(tokens, cursor),
            span_at(tokens, cursor),
        ),
        PropFail::StaticReadonly { var_at, ro, st } => {
            &&& e matches ParseError::StaticPropertyCannotBeReadonly {
                class: cl,
                member,
                member_span,
                static_span,
                readonly_span,
            }
            &&& cl@ == class
            &&& 0 <= var_at < tokens.len()
            &&& member@ == tokens[var_at].value@
            &&& member_span == tokens[var_at].span
            &&& static_span == st
            &&& readonly_span == ro
        },
        PropFail::ForbiddenType { var_at } => {
            &&& e matches ParseError::ForbiddenTypeUsedInProperty {
                class: cl,
                member,
                member_span,
                ..
            }
            &&& cl@ == class
            &&& 0 <= var_at < tokens.len()
            &&& member@ == tokens[var_at].value@
            &&& member_span == tokens[var_at].span
        },
        PropFail::MissingType { var_at, ro } => {
            &&& e matches ParseError::MissingTypeForReadonlyProperty {
                class: cl,
                member,
                member_span,
                readonly_span,
            }
            &&& cl@ == class
            &&& 0 <= var_at < tokens.len()
            &&& member@ == tokens[var_at].value@
            &&& member_span == tokens[var_at].span
            &&& readonly_span == ro
        },
        PropFail::ReadonlyDefault { var_at, ro, eq_span } => {
            &&& e matches ParseError::ReadonlyPropertyHasDefaultValue {
                class: cl,
                member,
                member_span,
                readonly_span,
                equals_span,
            }
            &&& cl@ == class
            &&& 0 <= var_at < tokens.len()
            &&& member@ == tokens[var_at].value@
            &&& member_span == tokens[var_at].span
            &&& readonly_span == ro
            &&& equals_span == eq_span
        },
        PropFail::ExpectedExpr => is_expected_err(
            e,
            atom_kinds(),
            kind_at(tokens, cursor),
            span_at(tokens, cursor),
        ),
        PropFail::ExpectedSemi => is_expected_one(
            e,
            TokenKind::SemiColon,
            kind_at(tokens, cursor),
            span_at(tokens, cursor),
        ),
    }
}

/// Whether an optional declared type is forbidden on a property.
pub open spec fn opt_type_forbidden(ty: Option<Type>) -> bool {
    ty matches Option::Some(tv) && type_forbidden(tv)
}

/// Parse the one-or-more comma-separated property entries, running the
/// once-per-statement checks ahead of the first entry.
#[verifier::rlimit(60)]
fn collect_entries(
    state: &mut State,
    class_name: &str,
    ty: &Option<Type>,
    ro: Option<Span>,
    st: Option<Span>,
) -> (r: ParseResult<Vec<PropertyEntry>>)
    requires
        old(state).wf(),
    ensures
        final(state).wf(),
        final(state).force_type_strings == old(state).force_type_strings,
        final(state).attributes@ == old(state).attributes@,
        consumed_since(old(state).stream, final(state).stream),
        ({
            let t = old(state).stream.tokens@;
            let c0 = old(state).stream.cursor as int;
            let out = entries_from(t, c0, ty is Some, opt_type_forbidden(*ty), ro, st, true, Seq::empty());
            &&& final(state).stream.cursor as int == entries_cursor(out)
            &&& match out {
                EntriesOutcome::Parsed { descs, .. } => {
                    &&& r matches Result::Ok(v)
                    &&& v@.len() == descs.len()
                    &&& forall|i: int| 0 <= i < descs.len() ==> entry_matches(
                        t,
                        descs[i],
                        #[trigger] v@[i],
                    )
                },
                EntriesOutcome::Bad { fail, cursor } => {
                    &&& r matches Result::Err(e)
                    &&& prop_fail_matches(t, fail, cursor, class_name@, e)
                    &&& (fail is ForbiddenType ==> (e matches
                        ParseError::ForbiddenTypeUsedInProperty { ty: ety, .. }
                        && Option::Some(ety) == *ty))
                },
            }
        }),
{
    let ghost t = state.stream.tokens@;
    let ghost c0 = state.stream.cursor as int;
    let ghost has_ty = ty is Some;
    let ghost forb = opt_type_forbidden(*ty);
    let mut entries: Vec<PropertyEntry> = Vec::new();
    let ghost mut descs: Seq<EntryDesc> = Seq::empty();
    let mut type_checked = false;
    proof {
        lemma_consumed_since_refl(state.stream);
    }
    loop
        invariant
            old(state).wf(),
            t == old(state).stream.tokens@,
            c0 == old(state).stream.cursor as int,
            has_ty == (ty is Some),
            forb == opt_type_forbidden(*ty),
            state.wf(),
            state.force_type_strings == old(state).force_type_strings,
            state.attributes@ == old(state).attributes@,
            consumed_since(old(state).stream, state.stream),
            entries@.len() == descs.len(),
            forall|i: int| 0 <= i < descs.len() ==> entry_matches(t, descs[i], #[trigger] entries@[i]),
            entries_from(t, c0, has_ty, forb, ro, st, true, Seq::empty()) == entries_from(
                t,
                state.stream.cursor as int,
                has_ty,
                forb,
                ro,
                st,
                !type_checked,
                descs,
            ),
        decreases t.len() - state.stream.cursor,
    {
        let ghost c = state.stream.cursor as int;
        let ghost first_g = !type_checked;
        let ghost pre_iter = state.stream;
        proof {
            crate::stream::lemma_nth_non_comment_bounds(t, c, 0);
        }
        let var = match simple_variable(state) {
            Result::Ok(v) => v,
            Result::Err(e) => {
                proof {
                    assert(entries_from(t, c, has_ty, forb, ro, st, first_g, descs)
                        == (EntriesOutcome::Bad { fail: PropFail::ExpectedVar, cursor: c }));
                }
                return Result::Err(e);
            },
        };
        proof {
            lemma_consumed_one_since(pre_iter, state.stream);
            lemma_consumed_since_trans(old(state).stream, pre_iter, state.stream);
        }
        let ghost var_at = first_non_comment(t, c);
        let ghost c1 = state.stream.cursor as int;
        if !type_checked {
            type_checked = true;
            if ro.is_some() && st.is_some() {
                let ro_span = match ro {
                    Option::Some(s) => s,
                    Option::None => Span::zero(),
                };
                let st_span = match st {
                    Option::Some(s) => s,
                    Option::None => Span::zero(),
                };
                proof {
                    assert(entries_from(t, c, has_ty, forb, ro, st, first_g, descs)
                        == (EntriesOutcome::Bad {
                        fail: PropFail::StaticReadonly { var_at, ro: ro->0, st: st->0 },
                        cursor: c1,
                    }));
                }
                return Result::Err(ParseError::StaticPropertyCannotBeReadonly {
                    class: state.named(class_name),
                    member: var.name,
                    member_span: var.span,
                    static_span: st_span,
                    readonly_span: ro_span,
                });
            }
            match ty {
                Option::Some(tv) => {
                    if tv.includes_callable() || tv.is_bottom() {
                        proof {
                            assert(entries_from(t, c, has_ty, forb, ro, st, first_g, descs)
                                == (EntriesOutcome::Bad {
                                fail: PropFail::ForbiddenType { var_at },
                                cursor: c1,
                            }));
                        }
                        return Result::Err(ParseError::ForbiddenTypeUsedInProperty {
                            class: state.named(class_name),
                            member: var.name,
                            member_span: var.span,
                            ty: tv.clone(),
                        });
                    }
                },
                Option::None => {
                    match ro {
                        Option::Some(ro_span) => {
                            proof {
                                assert(entries_from(t, c, has_ty, forb, ro, st, first_g, descs)
                                    == (EntriesOutcome::Bad {
                                    fail: PropFail::MissingType { var_at, ro: ro->0 },
                                    cursor: c1,
                                }));
                            }
                            return Result::Err(ParseError::MissingTypeForReadonlyProperty {
                                class: state.named(class_name),
                                member: var.name,
                                member_span: var.span,
                                readonly_span: ro_span,
                            });
                        },
                        Option::None => {},
                    }
                },
            }
        }
        let ghost descs_pre = descs;
        let cur = state.stream.current();
        if cur.kind == TokenKind::Equals {
            match ro {
                Option::Some(ro_span) => {
                    proof {
                        assert(entries_from(t, c, has_ty, forb, ro, st, first_g, descs)
                            == (EntriesOutcome::Bad {
                            fail: PropFail::ReadonlyDefault {
                                var_at,
                                ro: ro->0,
                                eq_span: span_at(t, c1),
                            },
                            cursor: c1,
                        }));
                    }
                    return Result::Err(ParseError::ReadonlyPropertyHasDefaultValue {
                        class: state.named(class_name),
                        member: var.name,
                        member_span: var.span,
                        readonly_span: ro_span,
                        equals_span: cur.span,
                    });
                },
                Option::None => {},
            }
            let ghost pre_eq = state.stream;
            state.stream.next();
            proof {
                lemma_consumed_one_since(pre_eq, state.stream);
                lemma_consumed_since_trans(old(state).stream, pre_eq, state.stream);
            }
            let ghost c2 = state.stream.cursor as int;
            let ghost pre_val = state.stream;
            let value = match crate::expressions::create(state) {
                Result::Ok(v) => v,
                Result::Err(e) => {
                    proof {
                        assert(entries_from(t, c, has_ty, forb, ro, st, first_g, descs)
                            == (EntriesOutcome::Bad {
                            fail: PropFail::ExpectedExpr,
                            cursor: c2,
                        }));
                    }
                    return Result::Err(e);
                },
            };
            proof {
                lemma_consumed_one_since(pre_val, state.stream);
                lemma_consumed_since_trans(old(state).stream, pre_val, state.stream);
            }
            entries.push(PropertyEntry::Initialized { variable: var, equals: cur.span, value });
            proof {
                crate::stream::lemma_nth_non_comment_bounds(t, c1, 0);
                crate::stream::lemma_nth_non_comment_bounds(t, c2, 0);
                descs = descs.push(
                    EntryDesc {
                        var_at,
                        eq_at: first_non_comment(t, c1),
                        val_at: first_non_comment(t, c2),
                    },
                );
                assert(entry_matches(t, descs.last(), entries@.last()));
            }
        } else {
            entries.push(PropertyEntry::Uninitialized { variable: var });
            proof {
                descs = descs.push(EntryDesc { var_at, eq_at: -1, val_at: -1 });
                assert(entry_matches(t, descs.last(), entries@.last()));
            }
        }
        let ghost c_end = state.stream.cursor as int;
        if state.stream.current().kind == TokenKind::Comma {
            let ghost pre_comma = state.stream;
            state.stream.next();
            proof {
                lemma_consumed_one_since(pre_comma, state.stream);
                lemma_consumed_since_trans(old(state).stream, pre_comma, state.stream);
                crate::stream::lemma_advance_bounds(t, c_end);
                crate::stream::lemma_advance_bounds(t, c);
                assert(entries_from(t, c, has_ty, forb, ro, st, first_g, descs_pre)
                    == entries_from(
                    t,
                    state.stream.cursor as int,
                    has_ty,
                    forb,
                    ro,
                    st,
                    false,
                    descs,
                ));
            }
        } else {
            proof {
                assert(entries_from(t, c, has_ty, forb, ro, st, first_g, descs_pre)
                    == (EntriesOutcome::Parsed { descs, cursor: c_end }));
            }
            return Result::Ok(entries);
        }
    }
}

/// What a successful property parse returns: the type read from the head
/// token if one was there, the modifiers as given, the attributes drained
/// from the state, the entries as described, and the terminator's span.
pub open spec fn property_done(
    t: Seq<Token>,
    c0: int,
    pre_attrs: Seq<crate::ast::AttributeGroup>,
    modifiers: PropertyModifierGroup,
    p: Property,
    descs: Seq<EntryDesc>,
    end_at: int,
) -> bool {
    let has = is_type_start(kind_at(t, c0));
    &&& (has ==> (p.ty matches Option::Some(tv) && type_matches(
        t[first_non_comment(t, c0)],
        tv,
    )))
    &&& ((!has) ==> (p.ty is None))
    &&& p.modifiers == modifiers
    &&& p.attributes@ == pre_attrs
    &&& p.end == span_at(t, end_at)
    &&& p.entries@.len() == descs.len()
    &&& (forall|i: int| 0 <= i < descs.len() ==> entry_matches(t, descs[i], #[trigger] p.entries@[i]))
}

/// Parse a property declaration introduced by `modifiers`: an optional
/// declared type, the entries, and a `;` or close-tag terminator.  The
/// once-per-statement checks reject a static readonly property, a
/// forbidden declared type, a readonly property without a type, and a
/// readonly property with a default value, each with its own diagnostic.
pub fn parse(state: &mut State, class_name: &str, modifiers: PropertyModifierGroup) -> (r:
    ParseResult<Property>)
    requires
        old(state).wf(),
    ensures
        final(state).wf(),
        final(state).force_type_strings == old(state).force_type_strings,
        consumed_since(old(state).stream, final(state).stream),
        ({
            let t = old(state).stream.tokens@;
            let c0 = old(state).stream.cursor as int;
            let ro = modifier_span_opt(modifiers.readonly_spec());
            let st = modifier_span_opt(modifiers.static_spec());
            let has = is_type_start(kind_at(t, c0));
            let ty_at = first_non_comment(t, c0);
            let c1 = if has { advance(t, c0) } else { c0 };
            let forb = has && type_forbidden_at(t[ty_at]);
            let out = entries_from(t, c1, has, forb, ro, st, true, Seq::empty());
            match out {
                EntriesOutcome::Parsed { descs, cursor } => {
                    let k = kind_at(t, cursor);
                    if k == TokenKind::SemiColon || k == TokenKind::CloseTag {
                        &&& r matches Result::Ok(p)
                        &&& property_done(t, c0, old(state).attributes@, modifiers, p, descs, cursor)
                        &&& final(state).attributes@.len() == 0
                        &&& final(state).stream.cursor as int == advance(t, cursor)
                    } else {
                        &&& r matches Result::Err(e)
                        &&& is_expected_one(e, TokenKind::SemiColon, k, span_at(t, cursor))
                        &&& final(state).stream.cursor as int == cursor
                        &&& final(state).attributes@ == old(state).attributes@
                    }
                },
                EntriesOutcome::Bad { fail, cursor } => {
                    &&& r matches Result::Err(e)
                    &&& prop_fail_matches(t, fail, cursor, class_name@, e)
                    &&& (fail is ForbiddenType ==> (e matches
                        ParseError::ForbiddenTypeUsedInProperty { ty: ety, .. }
                        && type_matches(t[ty_at], ety)))
                    &&& final(state).stream.cursor as int == cursor
                    &&& final(state).attributes@ == old(state).attributes@
                },
            }
        }),
{
    let ghost t = state.stream.tokens@;
    let ghost c0 = state.stream.cursor as int;
    let ghost s0 = state.stream;
    let ro = match modifiers.get_readonly() {
        Option::Some(m) => Option::Some(m.span()),
        Option::None => Option::None,
    };
    let st = match modifiers.get_static() {
        Option::Some(m) => Option::Some(m.span()),
        Option::None => Option::None,
    };
    let ty = optional_data_type(state);
    proof {
        if is_type_start(kind_at(t, c0)) {
            lemma_consumed_one_since(s0, state.stream);
        } else {
            lemma_consumed_since_refl(state.stream);
        }
        if is_type_start(kind_at(t, c0)) {
            crate::data_type::lemma_type_matches_forbidden(
                t[first_non_comment(t, c0)],
                ty->Some_0,
            );
        }
    }
    let ghost s1 = state.stream;
    let entries = match collect_entries(state, class_name, &ty, ro, st) {
        Result::Ok(v) => v,
        Result::Err(e) => {
            proof {
                lemma_consumed_since_trans(s0, s1, state.stream);
            }
            return Result::Err(e);
        },
    };
    proof {
        lemma_consumed_since_trans(s0, s1, state.stream);
    }
    let ghost s2 = state.stream;
    let end = match skip_semicolon(state) {
        Result::Ok(sp) => sp,
        Result::Err(e) => {
            proof {
                lemma_consumed_since_refl(state.stream);
            }
            return Result::Err(e);
        },
    };
    proof {
        lemma_consumed_one_since(s2, state.stream);
        lemma_consumed_since_trans(s0, s2, state.stream);
    }
    let attributes = state.get_attributes();
    Result::Ok(Property { ty, modifiers, attributes, entries, end })
}

/// Parse a legacy `var`-prefixed property declaration: the `var` keyword,
/// an optional declared type, the entries, and a terminator.  The form has
/// no modifiers, so of the once-per-statement checks only the
/// forbidden-type check applies.
pub fn parse_var(state: &mut State, class_name: &str) -> (r: ParseResult<VariableProperty>)
    requires
        old(state).wf(),
    ensures
        final(state).wf(),
        final(state).force_type_strings == old(state).force_type_strings,
        consumed_since(old(state).stream, final(state).stream),
        ({
            let t = old(state).stream.tokens@;
            let cv = old(state).stream.cursor as int;
            if kind_at(t, cv) != TokenKind::Var {
                &&& r matches Result::Err(e)
                &&& is_expected_one(e, TokenKind::Var, kind_at(t, cv), span_at(t, cv))
                &&& final(state).stream.cursor == old(state).stream.cursor
                &&& final(state).attributes@ == old(state).attributes@
            } else {
                let c0 = advance(t, cv);
                let has = is_type_start(kind_at(t, c0));
                let ty_at = first_non_comment(t, c0);
                let c1 = if has { advance(t, c0) } else { c0 };
                let forb = has && type_forbidden_at(t[ty_at]);
                let out = entries_from(
                    t,
                    c1,
                    has,
                    forb,
                    Option::None,
                    Option::None,
                    true,
                    Seq::empty(),
                );
                match out {
                    EntriesOutcome::Parsed { descs, cursor } => {
                        let k = kind_at(t, cursor);
                        if k == TokenKind::SemiColon || k == TokenKind::CloseTag {
                            &&& r matches Result::Ok(p)
                            &&& (has ==> (p.ty matches Option::Some(tv) && type_matches(
                                t[ty_at],
                                tv,
                            )))
                            &&& ((!has) ==> (p.ty is None))
                            &&& p.attributes@ == old(state).attributes@
                            &&& p.end == span_at(t, cursor)
                            &&& p.entries@.len() == descs.len()
                            &&& (forall|i: int| 0 <= i < descs.len() ==> entry_matches(
                                t,
                                descs[i],
                                #[trigger] p.entries@[i],
                            ))
                            &&& final(state).attributes@.len() == 0
                            &&& final(state).stream.cursor as int == advance(t, cursor)
                        } else {
                            &&& r matches Result::Err(e)
                            &&& is_expected_one(e, TokenKind::SemiColon, k, span_at(t, cursor))
                            &&& final(state).stream.cursor as int == cursor
                            &&& final(state).attributes@ == old(state).attributes@
                        }
                    },
                    EntriesOutcome::Bad { fail, cursor } => {
                        &&& r matches Result::Err(e)
                        &&& prop_fail_matches(t, fail, cursor, class_name@, e)
                        &&& (fail is ForbiddenType ==> (e matches
                            ParseError::ForbiddenTypeUsedInProperty { ty: ety, .. }
                            && type_matches(t[ty_at], ety)))
                        &&& final(state).stream.cursor as int == cursor
                        &&& final(state).attributes@ == old(state).attributes@
                    },
                }
            }
        }),
{
    let ghost t = state.stream.tokens@;
    let ghost cv = state.stream.cursor as int;
    let ghost sv = state.stream;
    match skip(state, TokenKind::Var) {
        Result::Ok(_) => {},
        Result::Err(e) => {
            proof {
                lemma_consumed_since_refl(state.stream);
            }
            return Result::Err(e);
        },
    }
    proof {
        lemma_consumed_one_since(sv, state.stream);
    }
    let ghost s0 = state.stream;
    let ghost c0 = state.stream.cursor as int;
    let ty = optional_data_type(state);
    proof {
        if is_type_start(kind_at(t, c0)) {
            lemma_consumed_one_since(s0, state.stream);
        } else {
            lemma_consumed_since_refl(state.stream);
        }
        lemma_consumed_since_trans(sv, s0, state.stream);
        if is_type_start(kind_at(t, c0)) {
            crate::data_type::lemma_type_matches_forbidden(
                t[first_non_comment(t, c0)],
                ty->Some_0,
            );
        }
    }
    let ghost s1 = state.stream;
    let entries = match collect_entries(state, class_name, &ty, Option::None, Option::None) {
        Result::Ok(v) => v,
        Result::Err(e) => {
            proof {
                lemma_consumed_since_trans(sv, s1, state.stream);
            }
            return Result::Err(e);
        },
    };
    proof {
        lemma_consumed_since_trans(sv, s1, state.stream);
    }
    let ghost s2 = state.stream;
    let end = match skip_semicolon(state) {
        Result::Ok(sp) => sp,
        Result::Err(e) => {
            proof {
                lemma_consumed_since_refl(state.stream);
            }
            return Result::Err(e);
        },
    };
    proof {
        lemma_consumed_one_since(s2, state.stream);
        lemma_consumed_since_trans(sv, s2, state.stream);
    }
    let attributes = state.get_attributes();
    Result::Ok(VariableProperty { ty, attributes, entries, end })
}

} // verus!
