//! The closed set of diagnostics the parser reports.  Every variant carries
//! the spans needed to render a two-location message without re-scanning
//! the source.

use vstd::prelude::*;

use crate::data_type::Type;
use crate::token::Span;
use crate::token::TokenKind;
use crate::token::kind_name;
use crate::token::kind_name_spec;
use crate::token::kind_quoted;
use crate::token::kind_quoted_spec;

verus! {

#[derive(Debug, Clone, PartialEq, Eq)]
pub enum ParseError {
    /// A required token was absent: the display forms of the acceptable
    /// kinds, the display form of the kind found (none at end of input),
    /// and where.
    ExpectedToken(Vec<String>, Option<String>, Span),
    /// A modifier appeared twice in one declaration: its display form and
    /// the span of the second occurrence.
    MultipleModifiers(String, Span),
    /// Two different access modifiers in one declaration: the span of the
    /// second one.
    MultipleAccessModifiers(Span),
    FinalModifierOnAbstractClass(Span),
    FinalModifierOnAbstractClassMember(Span),
    AbstractModifierOnNonAbstractClassMethod(Span),
    StaticPropertyCannotBeReadonly {
        class: String,
        member: String,
        member_span: Span,
        static_span: Span,
        readonly_span: Span,
    },
    ForbiddenTypeUsedInProperty { class: String, member: String, member_span: Span, ty: Type },
    MissingTypeForReadonlyProperty {
        class: String,
        member: String,
        member_span: Span,
        readonly_span: Span,
    },
    ReadonlyPropertyHasDefaultValue {
        class: String,
        member: String,
        member_span: Span,
        readonly_span: Span,
        equals_span: Span,
    },
}

pub type ParseResult<T> = Result<T, ParseError>;

/// How the `found` part of an `ExpectedToken` diagnostic reflects the kind
/// that was actually seen: absent at end of input, its display form else.
pub open spec fn found_matches(f: Option<String>, k: TokenKind) -> bool {
    match f {
        Option::None => k == TokenKind::Eof,
        Option::Some(s) => k != TokenKind::Eof && s@ == kind_name_spec(k),
    }
}

/// `e` is the `ExpectedToken` diagnostic listing exactly `expected` (each
/// in its backtick-quoted display form), for the kind `k` seen at `sp`.
pub open spec fn is_expected_err(e: ParseError, expected: Seq<TokenKind>, k: TokenKind, sp: Span) -> bool {
    match e {
        ParseError::ExpectedToken(v, f, span) => {
            &&& v@.len() == expected.len()
            &&& (forall|i: int| 0 <= i < expected.len() ==> v@[i]@ == kind_quoted_spec(expected[i]))
            &&& found_matches(f, k)
            &&& span == sp
        },
        _ => false,
    }
}

/// `e` is the `ExpectedToken` diagnostic for a single expected kind.
pub open spec fn is_expected_one(e: ParseError, expected: TokenKind, k: TokenKind, sp: Span) -> bool {
    is_expected_err(e, seq![expected], k, sp)
}

/// Build the `ExpectedToken` diagnostic for the kinds in `expected`, given
/// the kind actually seen and its span.
pub fn expected_token_err(expected: &[TokenKind], found_kind: TokenKind, span: Span) -> (e:
    ParseError)
    ensures
        is_expected_err(e, expected@, found_kind, span),
{
    let mut v: Vec<String> = Vec::new();
    let mut i: usize = 0;
    while i < expected.len()
        invariant
            i <= expected.len(),
            v@.len() == i as int,
            forall|j: int| 0 <= j < i as int ==> v@[j]@ == kind_quoted_spec(expected@[j]),
        decreases expected.len() - i,
    {
        v.push(kind_quoted(expected[i]));
        i = i + 1;
    }
    let f = if found_kind == TokenKind::Eof {
        Option::None
    } else {
        Option::Some(kind_name(found_kind))
    };
    ParseError::ExpectedToken(v, f, span)
}

/// Build the `ExpectedToken` diagnostic for one expected kind.
pub fn expected_one_err(expected: TokenKind, found_kind: TokenKind, span: Span) -> (e: ParseError)
    ensures
        is_expected_one(e, expected, found_kind, span),
{
    let mut v: Vec<String> = Vec::new();
    v.push(kind_quoted(expected));
    let f = if found_kind == TokenKind::Eof {
        Option::None
    } else {
        Option::Some(kind_name(found_kind))
    };
    proof {
        assert(v@ =~= seq![v@[0]]);
    }
    ParseError::ExpectedToken(v, f, span)
}

} // verus!
