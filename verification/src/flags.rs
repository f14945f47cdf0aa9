//! The modifier collector: given an allow-list of modifier kinds and the
//! context being declared, consume modifier tokens while validating
//! duplicates and contextual conflicts.

use vstd::prelude::*;

use crate::error::ParseError;
use crate::error::ParseResult;
use crate::state::State;
use crate::state::env_unchanged;
use crate::stream::advance;
use crate::stream::comments_between;
use crate::stream::kind_at;
use crate::stream::lemma_advance_bounds;
use crate::stream::lemma_comments_between_concat;
use crate::stream::span_at;
use crate::token::Span;
use crate::token::Token;
use crate::token::TokenKind;
use crate::token::kind_name;
use crate::token::kind_name_spec;

verus! {

/// The context a modifier sequence is collected for.  The conflict rules
/// consult it: a Final/Abstract clash is reported for classes and class
/// members; the other targets never admit both in their allow-lists.
#[derive(Debug, Clone, Copy, PartialEq, Eq, Structural)]
pub enum FlagTarget {
    Class,
    EnumMember,
    ClassMember,
    PromotedProperty,
}

/// The access modifiers, of which a declaration may carry at most one.
pub open spec fn is_access_kind(k: TokenKind) -> bool {
    k == TokenKind::Private || k == TokenKind::Protected || k == TokenKind::Public
}

/// Whether any access modifier was already collected.
pub open spec fn has_access_kind(acc: Seq<TokenKind>) -> bool {
    exists|j: int| 0 <= j < acc.len() && is_access_kind(acc[j])
}

/// Whether `k` clashes with an already-collected Final or Abstract.
pub open spec fn final_abstract_clash(k: TokenKind, acc: Seq<TokenKind>) -> bool {
    ||| (k == TokenKind::Final && acc.contains(TokenKind::Abstract))
    ||| (k == TokenKind::Abstract && acc.contains(TokenKind::Final))
}

/// What one run of the collector yields: the kinds collected in source
/// order, or the first conflict found, each with the cursor the stream is
/// left at (errors leave the offending token unconsumed).
pub enum CollectOutcome {
    Collected { kinds: Seq<TokenKind>, cursor: int },
    Duplicate { kind: TokenKind, span: Span, cursor: int },
    AccessConflict { span: Span, cursor: int },
    FinalOnAbstractClass { span: Span, cursor: int },
    FinalOnAbstractClassMember { span: Span, cursor: int },
}

pub open spec fn outcome_cursor(o: CollectOutcome) -> int {
    match o {
        CollectOutcome::Collected { cursor, .. } => cursor,
        CollectOutcome::Duplicate { cursor, .. } => cursor,
        CollectOutcome::AccessConflict { cursor, .. } => cursor,
        CollectOutcome::FinalOnAbstractClass { cursor, .. } => cursor,
        CollectOutcome::FinalOnAbstractClassMember { cursor, .. } => cursor,
    }
}

/// Distinct kinds all drawn from `allowed` cannot outnumber `allowed`.
pub proof fn lemma_distinct_in_allowed_le(acc: Seq<TokenKind>, allowed: Seq<TokenKind>)
    requires
        acc.no_duplicates(),
        forall|j: int| 0 <= j < acc.len() ==> allowed.contains(#[trigger] acc[j]),
    ensures
        acc.len() <= allowed.len(),
{
    broadcast use vstd::set::group_set_axioms;

    acc.unique_seq_to_set();
    allowed.lemma_cardinality_of_set();
    assert(acc.to_set().subset_of(allowed.to_set()));
    vstd::set_lib::lemma_len_subset(acc.to_set(), allowed.to_set());
}

/// The collection process, step by step: stop (success) at the first kind
/// outside the allow-list; otherwise reject a duplicate, a second access
/// modifier, or a Final/Abstract clash in a Class or ClassMember context;
/// otherwise collect the kind and move on.
pub open spec fn collect_from(
    tokens: Seq<Token>,
    c: int,
    allowed: Seq<TokenKind>,
    target: FlagTarget,
    acc: Seq<TokenKind>,
) -> CollectOutcome
    decreases allowed.len() - acc.len(),
        when acc.no_duplicates() && (forall|j: int|
            0 <= j < acc.len() ==> allowed.contains(#[trigger] acc[j]))
    via collect_from_decreases
{
    let k = kind_at(tokens, c);
    let sp = span_at(tokens, c);
    if !allowed.contains(k) {
        CollectOutcome::Collected { kinds: acc, cursor: c }
    } else if acc.contains(k) {
        CollectOutcome::Duplicate { kind: k, span: sp, cursor: c }
    } else if is_access_kind(k) && has_access_kind(acc) {
        CollectOutcome::AccessConflict { span: sp, cursor: c }
    } else if final_abstract_clash(k, acc) && target == FlagTarget::Class {
        CollectOutcome::FinalOnAbstractClass { span: sp, cursor: c }
    } else if final_abstract_clash(k, acc) && target == FlagTarget::ClassMember {
        CollectOutcome::FinalOnAbstractClassMember { span: sp, cursor: c }
    } else {
        collect_from(tokens, advance(tokens, c), allowed, target, acc.push(k))
    }
}

#[via_fn]
proof fn collect_from_decreases(
    tokens: Seq<Token>,
    c: int,
    allowed: Seq<TokenKind>,
    target: FlagTarget,
    acc: Seq<TokenKind>,
) {
    let k = kind_at(tokens, c);
    if allowed.contains(k) && !acc.contains(k) {
        let acc2 = acc.push(k);
        assert forall|i: int, j: int| 0 <= i < j < acc2.len() implies acc2[i] != acc2[j] by {
            if j == acc.len() {
                assert(acc2[i] == acc[i]);
                assert(acc.contains(acc[i]));
            }
        }
        assert(acc2.no_duplicates());
        assert(forall|j: int| 0 <= j < acc2.len() ==> allowed.contains(#[trigger] acc2[j]));
        lemma_distinct_in_allowed_le(acc2, allowed);
    }
}

/// What `collect` leaves behind, for a given allow-list and target: the
/// result and the stream state both follow `collect_from` at the cursor
/// the call began at.
pub open spec fn collect_post(
    pre: State,
    post: State,
    allowed: Seq<TokenKind>,
    target: FlagTarget,
    r: ParseResult<Vec<TokenKind>>,
) -> bool {
    let t = pre.stream.tokens@;
    let c0 = pre.stream.cursor as int;
    let out = collect_from(t, c0, allowed, target, Seq::empty());
    &&& post.stream.tokens@ == t
    &&& post.stream.taken@ == pre.stream.taken@
    &&& post.stream.cursor as int == outcome_cursor(out)
    &&& post.stream.comments@ == pre.stream.comments@ + comments_between(
        t,
        c0,
        outcome_cursor(out),
    )
    &&& match out {
        CollectOutcome::Collected { kinds, .. } => r matches Result::Ok(v) && v@ == kinds,
        CollectOutcome::Duplicate { kind, span, .. } => r matches Result::Err(e)
            && e matches ParseError::MultipleModifiers(n, sp) && n@ == kind_name_spec(kind)
            && sp == span,
        CollectOutcome::AccessConflict { span, .. } => r == Result::<
            Vec<TokenKind>,
            ParseError,
        >::Err(ParseError::MultipleAccessModifiers(span)),
        CollectOutcome::FinalOnAbstractClass { span, .. } => r == Result::<
            Vec<TokenKind>,
            ParseError,
        >::Err(ParseError::FinalModifierOnAbstractClass(span)),
        CollectOutcome::FinalOnAbstractClassMember { span, .. } => r == Result::<
            Vec<TokenKind>,
            ParseError,
        >::Err(ParseError::FinalModifierOnAbstractClassMember(span)),
    }
}

/// Whether `v` holds `k`.
fn kinds_contain(v: &Vec<TokenKind>, k: TokenKind) -> (r: bool)
    ensures
        r == v@.contains(k),
{
    let mut i: usize = 0;
    let mut found = false;
    while i < v.len()
        invariant
            i <= v@.len(),
            found == (exists|j: int| 0 <= j < i as int && v@[j] == k),
        decreases v@.len() - i,
    {
        if v[i] == k {
            found = true;
            proof {
                assert(v@[i as int] == k);
            }
        }
        i = i + 1;
    }
    proof {
        assert(found == v@.contains(k));
    }
    found
}

/// Whether `v` holds any access modifier.
fn contains_access(v: &Vec<TokenKind>) -> (r: bool)
    ensures
        r == has_access_kind(v@),
{
    let mut i: usize = 0;
    let mut found = false;
    while i < v.len()
        invariant
            i <= v@.len(),
            found == (exists|j: int| 0 <= j < i as int && is_access_kind(v@[j])),
        decreases v@.len() - i,
    {
        match v[i] {
            TokenKind::Private | TokenKind::Protected | TokenKind::Public => {
                found = true;
                proof {
                    assert(is_access_kind(v@[i as int]));
                }
            },
            _ => {},
        }
        i = i + 1;
    }
    found
}

/// Collect the modifiers at the cursor that `allowed` admits, in source
/// order, rejecting duplicates and the contextual conflicts of `target`.
pub fn collect(state: &mut State, allowed: Vec<TokenKind>, target: FlagTarget) -> (r: ParseResult<
    Vec<TokenKind>,
>)
    requires
        old(state).wf(),
    ensures
        final(state).wf(),
        env_unchanged(*old(state), *final(state)),
        collect_post(*old(state), *final(state), allowed@, target, r),
{
    let ghost t = state.stream.tokens@;
    let ghost c0 = state.stream.cursor as int;
    let mut collected: Vec<TokenKind> = Vec::new();
    proof {
        assert(comments_between(t, c0, c0) =~= Seq::<Token>::empty());
        assert(state.stream.comments@ =~= state.stream.comments@ + comments_between(t, c0, c0));
    }
    loop
        invariant
            old(state).wf(),
            t == old(state).stream.tokens@,
            c0 == old(state).stream.cursor as int,
            state.wf(),
            state.stream.tokens@ == t,
            state.stream.taken@ == old(state).stream.taken@,
            state.force_type_strings == old(state).force_type_strings,
            state.attributes@ == old(state).attributes@,
            0 <= c0 <= state.stream.cursor as int,
            state.stream.comments@ == old(state).stream.comments@ + comments_between(
                t,
                c0,
                state.stream.cursor as int,
            ),
            collected@.no_duplicates(),
            forall|j: int|
                0 <= j < collected@.len() ==> allowed@.contains(#[trigger] collected@[j]),
            collect_from(t, c0, allowed@, target, Seq::empty()) == collect_from(
                t,
                state.stream.cursor as int,
                allowed@,
                target,
                collected@,
            ),
        decreases allowed@.len() - collected@.len(),
    {
        proof {
            lemma_distinct_in_allowed_le(collected@, allowed@);
        }
        let cur = state.stream.current();
        let ghost c = state.stream.cursor as int;
        if !kinds_contain(&allowed, cur.kind) {
            proof {
                assert(collect_from(t, c, allowed@, target, collected@)
                    == (CollectOutcome::Collected { kinds: collected@, cursor: c }));
            }
            return Result::Ok(collected);
        }
        if kinds_contain(&collected, cur.kind) {
            proof {
                assert(collect_from(t, c, allowed@, target, collected@)
                    == (CollectOutcome::Duplicate {
                    kind: kind_at(t, c),
                    span: span_at(t, c),
                    cursor: c,
                }));
            }
            return Result::Err(ParseError::MultipleModifiers(kind_name(cur.kind), cur.span));
        }
        let is_acc = match cur.kind {
            TokenKind::Private | TokenKind::Protected | TokenKind::Public => true,
            _ => false,
        };
        if is_acc && contains_access(&collected) {
            proof {
                assert(collect_from(t, c, allowed@, target, collected@)
                    == (CollectOutcome::AccessConflict { span: span_at(t, c), cursor: c }));
            }
            return Result::Err(ParseError::MultipleAccessModifiers(cur.span));
        }
        let clash = (cur.kind == TokenKind::Final && kinds_contain(
            &collected,
            TokenKind::Abstract,
        )) || (cur.kind == TokenKind::Abstract && kinds_contain(&collected, TokenKind::Final));
        if clash {
            match target {
                FlagTarget::Class => {
                    proof {
                        assert(collect_from(t, c, allowed@, target, collected@)
                            == (CollectOutcome::FinalOnAbstractClass {
                            span: span_at(t, c),
                            cursor: c,
                        }));
                    }
                    return Result::Err(ParseError::FinalModifierOnAbstractClass(cur.span));
                },
                FlagTarget::ClassMember => {
                    proof {
                        assert(collect_from(t, c, allowed@, target, collected@)
                            == (CollectOutcome::FinalOnAbstractClassMember {
                            span: span_at(t, c),
                            cursor: c,
                        }));
                    }
                    return Result::Err(ParseError::FinalModifierOnAbstractClassMember(cur.span));
                },
                _ => {},
            }
        }
        let ghost acc_pre = collected@;
        collected.push(cur.kind);
        state.stream.next();
        proof {
            lemma_advance_bounds(t, c);
            lemma_comments_between_concat(t, c0, c, state.stream.cursor as int);
            assert(state.stream.comments@ =~= old(state).stream.comments@ + comments_between(
                t,
                c0,
                state.stream.cursor as int,
            ));
            let acc2 = acc_pre.push(cur.kind);
            assert forall|i: int, j: int| 0 <= i < j < acc2.len() implies acc2[i] != acc2[j] by {
                if j == acc_pre.len() {
                    assert(acc2[i] == acc_pre[i]);
                    assert(acc_pre.contains(acc_pre[i]));
                }
            }
            assert(collect_from(t, c, allowed@, target, acc_pre) == collect_from(
                t,
                state.stream.cursor as int,
                allowed@,
                target,
                acc2,
            ));
            lemma_distinct_in_allowed_le(acc2, allowed@);
        }
    }
}

/// Collect class-declaration modifiers: final, abstract, readonly.
pub fn class_flags(state: &mut State) -> (r: ParseResult<Vec<TokenKind>>)
    requires
        old(state).wf(),
    ensures
        final(state).wf(),
        env_unchanged(*old(state), *final(state)),
        collect_post(
            *old(state),
            *final(state),
            seq![TokenKind::Final, TokenKind::Abstract, TokenKind::Readonly],
            FlagTarget::Class,
            r,
        ),
{
    let mut allowed: Vec<TokenKind> = Vec::new();
    allowed.push(TokenKind::Final);
    allowed.push(TokenKind::Abstract);
    allowed.push(TokenKind::Readonly);
    proof {
        assert(allowed@ =~= seq![TokenKind::Final, TokenKind::Abstract, TokenKind::Readonly]);
    }
    collect(state, allowed, FlagTarget::Class)
}

/// Collect class-member modifiers: final, abstract, the access modifiers,
/// static, readonly.
pub fn class_members_flags(state: &mut State) -> (r: ParseResult<Vec<TokenKind>>)
    requires
        old(state).wf(),
    ensures
        final(state).wf(),
        env_unchanged(*old(state), *final(state)),
        collect_post(
            *old(state),
            *final(state),
            seq![
                TokenKind::Final,
                TokenKind::Abstract,
                TokenKind::Private,
                TokenKind::Protected,
                TokenKind::Public,
                TokenKind::Static,
                TokenKind::Readonly,
            ],
            FlagTarget::ClassMember,
            r,
        ),
{
    let mut allowed: Vec<TokenKind> = Vec::new();
    allowed.push(TokenKind::Final);
    allowed.push(TokenKind::Abstract);
    allowed.push(TokenKind::Private);
    allowed.push(TokenKind::Protected);
    allowed.push(TokenKind::Public);
    allowed.push(TokenKind::Static);
    allowed.push(TokenKind::Readonly);
    proof {
        assert(allowed@ =~= seq![
            TokenKind::Final,
            TokenKind::Abstract,
            TokenKind::Private,
            TokenKind::Protected,
            TokenKind::Public,
            TokenKind::Static,
            TokenKind::Readonly,
        ]);
    }
    collect(state, allowed, FlagTarget::ClassMember)
}

/// Collect enum-member modifiers: final, the access modifiers, static.
pub fn enum_members_flags(state: &mut State) -> (r: ParseResult<Vec<TokenKind>>)
    requires
        old(state).wf(),
    ensures
        final(state).wf(),
        env_unchanged(*old(state), *final(state)),
        collect_post(
            *old(state),
            *final(state),
            seq![
                TokenKind::Final,
                TokenKind::Private,
                TokenKind::Protected,
                TokenKind::Public,
                TokenKind::Static,
            ],
            FlagTarget::EnumMember,
            r,
        ),
{
    let mut allowed: Vec<TokenKind> = Vec::new();
    allowed.push(TokenKind::Final);
    allowed.push(TokenKind::Private);
    allowed.push(TokenKind::Protected);
    allowed.push(TokenKind::Public);
    allowed.push(TokenKind::Static);
    proof {
        assert(allowed@ =~= seq![
            TokenKind::Final,
            TokenKind::Private,
            TokenKind::Protected,
            TokenKind::Public,
            TokenKind::Static,
        ]);
    }
    collect(state, allowed, FlagTarget::EnumMember)
}

/// Collect promoted-property modifiers: the access modifiers, readonly.
pub fn promoted_property_flags(state: &mut State) -> (r: ParseResult<Vec<TokenKind>>)
    requires
        old(state).wf(),
    ensures
        final(state).wf(),
        env_unchanged(*old(state), *final(state)),
        collect_post(
            *old(state),
            *final(state),
            seq![
                TokenKind::Private,
                TokenKind::Protected,
                TokenKind::Public,
                TokenKind::Readonly,
            ],
            FlagTarget::PromotedProperty,
            r,
        ),
{
    let mut allowed: Vec<TokenKind> = Vec::new();
    allowed.push(TokenKind::Private);
    allowed.push(TokenKind::Protected);
    allowed.push(TokenKind::Public);
    allowed.push(TokenKind::Readonly);
    proof {
        assert(allowed@ =~= seq![
            TokenKind::Private,
            TokenKind::Protected,
            TokenKind::Public,
            TokenKind::Readonly,
        ]);
    }
    collect(state, allowed, FlagTarget::PromotedProperty)
}

/// A modifier that appears twice is rejected as a duplicate, whatever the
/// allow-list admitting it and whatever the target context.
pub proof fn lemma_duplicate_modifier_rejected(
    tokens: Seq<Token>,
    c: int,
    allowed: Seq<TokenKind>,
    target: FlagTarget,
)
    requires
        allowed.contains(kind_at(tokens, c)),
        kind_at(tokens, advance(tokens, c)) == kind_at(tokens, c),
    ensures
        collect_from(tokens, c, allowed, target, Seq::empty()) == (CollectOutcome::Duplicate {
            kind: kind_at(tokens, c),
            span: span_at(tokens, advance(tokens, c)),
            cursor: advance(tokens, c),
        }),
{
    let k = kind_at(tokens, c);
    let acc1 = Seq::<TokenKind>::empty().push(k);
    assert(acc1.len() == 1 && acc1[0] == k);
    assert(!has_access_kind(Seq::<TokenKind>::empty()));
    assert(collect_from(tokens, c, allowed, target, Seq::empty()) == collect_from(
        tokens,
        advance(tokens, c),
        allowed,
        target,
        acc1,
    ));
    assert(acc1.contains(k));
}

/// Two different access modifiers in a row are rejected as an access
/// conflict, in either order, under any allow-list admitting both and any
/// target context.
pub proof fn lemma_two_access_modifiers_rejected(
    tokens: Seq<Token>,
    c: int,
    allowed: Seq<TokenKind>,
    target: FlagTarget,
)
    requires
        is_access_kind(kind_at(tokens, c)),
        is_access_kind(kind_at(tokens, advance(tokens, c))),
        kind_at(tokens, c) != kind_at(tokens, advance(tokens, c)),
        allowed.contains(kind_at(tokens, c)),
        allowed.contains(kind_at(tokens, advance(tokens, c))),
    ensures
        collect_from(tokens, c, allowed, target, Seq::empty())
            == (CollectOutcome::AccessConflict {
            span: span_at(tokens, advance(tokens, c)),
            cursor: advance(tokens, c),
        }),
{
    let k = kind_at(tokens, c);
    let acc1 = Seq::<TokenKind>::empty().push(k);
    assert(!has_access_kind(Seq::<TokenKind>::empty()));
    assert(collect_from(tokens, c, allowed, target, Seq::empty()) == collect_from(
        tokens,
        advance(tokens, c),
        allowed,
        target,
        acc1,
    ));
    assert(acc1[0] == k);
    assert(has_access_kind(acc1));
    assert(!acc1.contains(kind_at(tokens, advance(tokens, c))));
}

/// Final and Abstract together, in either order, are rejected: for a class
/// as `FinalModifierOnAbstractClass`, for a class member as
/// `FinalModifierOnAbstractClassMember`.
pub proof fn lemma_final_abstract_rejected(
    tokens: Seq<Token>,
    c: int,
    allowed: Seq<TokenKind>,
    target: FlagTarget,
)
    requires
        allowed.contains(TokenKind::Final),
        allowed.contains(TokenKind::Abstract),
        ({
            let k1 = kind_at(tokens, c);
            let k2 = kind_at(tokens, advance(tokens, c));
            ||| (k1 == TokenKind::Final && k2 == TokenKind::Abstract)
            ||| (k1 == TokenKind::Abstract && k2 == TokenKind::Final)
        }),
        target == FlagTarget::Class || target == FlagTarget::ClassMember,
    ensures
        target == FlagTarget::Class ==> collect_from(tokens, c, allowed, target, Seq::empty())
            == (CollectOutcome::FinalOnAbstractClass {
            span: span_at(tokens, advance(tokens, c)),
            cursor: advance(tokens, c),
        }),
        target == FlagTarget::ClassMember ==> collect_from(
            tokens,
            c,
            allowed,
            target,
            Seq::empty(),
        ) == (CollectOutcome::FinalOnAbstractClassMember {
            span: span_at(tokens, advance(tokens, c)),
            cursor: advance(tokens, c),
        }),
{
    let k1 = kind_at(tokens, c);
    let k2 = kind_at(tokens, advance(tokens, c));
    let acc1 = Seq::<TokenKind>::empty().push(k1);
    assert(acc1.len() == 1 && acc1[0] == k1);
    assert(!has_access_kind(Seq::<TokenKind>::empty()));
    assert(!is_access_kind(k1));
    assert(collect_from(tokens, c, allowed, target, Seq::empty()) == collect_from(
        tokens,
        advance(tokens, c),
        allowed,
        target,
        acc1,
    ));
    assert(acc1.contains(k1));
    assert(forall|j: int| 0 <= j < acc1.len() ==> acc1[j] == k1);
    assert(!acc1.contains(k2));
    assert(!is_access_kind(k2));
    assert(final_abstract_clash(k2, acc1));
}

} // verus!
