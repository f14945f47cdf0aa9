//! The declaration AST nodes this core builds, and the modifier groups
//! attached to them.  Nodes are constructed once, fully, by a single
//! grammar-rule invocation and never mutated afterwards.

use vstd::prelude::*;

use crate::data_type::Type;
use crate::token::Span;
use crate::token::Token;

verus! {

/// A group of attributes (`#[Foo]`) collected ahead of a declaration.
/// Attribute internals are outside this core; only the group's position is
/// carried through.
#[derive(Debug, Clone, Copy, PartialEq, Eq, Structural)]
pub struct AttributeGroup {
    pub span: Span,
}

/// An unqualified identifier, such as a function or constant name.
#[derive(Debug, PartialEq, Eq)]
pub struct SimpleIdentifier {
    pub span: Span,
    pub name: String,
}

impl Clone for SimpleIdentifier {
    fn clone(&self) -> (r: SimpleIdentifier)
        ensures
            r == *self,
    {
        SimpleIdentifier { span: self.span, name: self.name.clone() }
    }
}

/// A `$variable`, with its raw text (dollar sign included).
#[derive(Debug, PartialEq, Eq)]
pub struct SimpleVariable {
    pub span: Span,
    pub name: String,
}

impl Clone for SimpleVariable {
    fn clone(&self) -> (r: SimpleVariable)
        ensures
            r == *self,
    {
        SimpleVariable { span: self.span, name: self.name.clone() }
    }
}

/// An expression.  Expression parsing is an outside collaborator; this
/// core consumes a single atom token and carries it through.
#[derive(Debug, PartialEq, Eq)]
pub struct Expression {
    pub token: Token,
}

impl Clone for Expression {
    fn clone(&self) -> (r: Expression)
        ensures
            r == *self,
    {
        Expression { token: self.token.clone() }
    }
}

/// The comments a declaration was preceded by, in encounter order.
#[derive(Debug, PartialEq, Eq)]
pub struct CommentGroup {
    pub comments: Vec<Token>,
}

/// A modifier on a property declaration, with the span of its keyword.
#[derive(Debug, Clone, Copy, PartialEq, Eq, Structural)]
pub enum PropertyModifier {
    Public(Span),
    Protected(Span),
    Private(Span),
    Static(Span),
    Readonly(Span),
}

/// The span of a property modifier's keyword.
pub open spec fn modifier_span(m: PropertyModifier) -> Span {
    match m {
        PropertyModifier::Public(s) => s,
        PropertyModifier::Protected(s) => s,
        PropertyModifier::Private(s) => s,
        PropertyModifier::Static(s) => s,
        PropertyModifier::Readonly(s) => s,
    }
}

impl PropertyModifier {
    pub fn span(&self) -> (r: Span)
        ensures
            r == modifier_span(*self),
    {
        match self {
            PropertyModifier::Public(s) => *s,
            PropertyModifier::Protected(s) => *s,
            PropertyModifier::Private(s) => *s,
            PropertyModifier::Static(s) => *s,
            PropertyModifier::Readonly(s) => *s,
        }
    }
}

/// The first `Readonly` modifier among `ms`, if any.
pub open spec fn first_readonly(ms: Seq<PropertyModifier>) -> Option<PropertyModifier>
    decreases ms.len(),
{
    if ms.len() == 0 {
        Option::None
    } else if ms[0] is Readonly {
        Option::Some(ms[0])
    } else {
        first_readonly(ms.subrange(1, ms.len() as int))
    }
}

/// The first `Static` modifier among `ms`, if any.
pub open spec fn first_static(ms: Seq<PropertyModifier>) -> Option<PropertyModifier>
    decreases ms.len(),
{
    if ms.len() == 0 {
        Option::None
    } else if ms[0] is Static {
        Option::Some(ms[0])
    } else {
        first_static(ms.subrange(1, ms.len() as int))
    }
}

/// The modifiers of one property declaration, in source order.
#[derive(Debug, Clone, PartialEq, Eq)]
pub struct PropertyModifierGroup {
    pub modifiers: Vec<PropertyModifier>,
}

impl PropertyModifierGroup {
    pub open spec fn readonly_spec(self) -> Option<PropertyModifier> {
        first_readonly(self.modifiers@)
    }

    pub open spec fn static_spec(self) -> Option<PropertyModifier> {
        first_static(self.modifiers@)
    }

    pub fn get_readonly(&self) -> (r: Option<PropertyModifier>)
        ensures
            r == self.readonly_spec(),
    {
        let ghost ms = self.modifiers@;
        let mut i: usize = 0;
        proof {
            assert(ms.subrange(0, ms.len() as int) =~= ms);
        }
        while i < self.modifiers.len()
            invariant
                i <= ms.len(),
                ms == self.modifiers@,
                first_readonly(ms) == first_readonly(ms.subrange(i as int, ms.len() as int)),
            decreases ms.len() - i,
        {
            proof {
                assert(ms.subrange(i as int, ms.len() as int)[0] == ms[i as int]);
                assert(ms.subrange(i as int, ms.len() as int).subrange(
                    1,
                    ms.subrange(i as int, ms.len() as int).len() as int,
                ) =~= ms.subrange(i as int + 1, ms.len() as int));
            }
            match self.modifiers[i] {
                PropertyModifier::Readonly(s) => {
                    return Option::Some(PropertyModifier::Readonly(s));
                },
                _ => {},
            }
            i = i + 1;
        }
        proof {
            assert(ms.subrange(i as int, ms.len() as int).len() == 0);
        }
        Option::None
    }

    pub fn get_static(&self) -> (r: Option<PropertyModifier>)
        ensures
            r == self.static_spec(),
    {
        let ghost ms = self.modifiers@;
        let mut i: usize = 0;
        proof {
            assert(ms.subrange(0, ms.len() as int) =~= ms);
        }
        while i < self.modifiers.len()
            invariant
                i <= ms.len(),
                ms == self.modifiers@,
                first_static(ms) == first_static(ms.subrange(i as int, ms.len() as int)),
            decreases ms.len() - i,
        {
            proof {
                assert(ms.subrange(i as int, ms.len() as int)[0] == ms[i as int]);
                assert(ms.subrange(i as int, ms.len() as int).subrange(
                    1,
                    ms.subrange(i as int, ms.len() as int).len() as int,
                ) =~= ms.subrange(i as int + 1, ms.len() as int));
            }
            match self.modifiers[i] {
                PropertyModifier::Static(s) => {
                    return Option::Some(PropertyModifier::Static(s));
                },
                _ => {},
            }
            i = i + 1;
        }
        proof {
            assert(ms.subrange(i as int, ms.len() as int).len() == 0);
        }
        Option::None
    }

    pub fn has_readonly(&self) -> (r: bool)
        ensures
            r == self.readonly_spec() is Some,
    {
        self.get_readonly().is_some()
    }

    pub fn has_static(&self) -> (r: bool)
        ensures
            r == self.static_spec() is Some,
    {
        self.get_static().is_some()
    }
}

/// A modifier on a classish constant declaration.
#[derive(Debug, Clone, Copy, PartialEq, Eq, Structural)]
pub enum ConstantModifier {
    Final(Span),
    Public(Span),
    Protected(Span),
    Private(Span),
}

/// The modifiers of one classish constant declaration, in source order.
#[derive(Debug, Clone, PartialEq, Eq)]
pub struct ConstantModifierGroup {
    pub modifiers: Vec<ConstantModifier>,
}

/// One `NAME = value` entry of a constant declaration.
#[derive(Debug, Clone, PartialEq, Eq)]
pub struct ConstantEntry {
    pub name: SimpleIdentifier,
    pub equals: Span,
    pub value: Expression,
}

/// A top-level `const` statement.
#[derive(Debug, PartialEq, Eq)]
pub struct ConstantStatement {
    pub comments: CommentGroup,
    pub const_span: Span,
    pub entries: Vec<ConstantEntry>,
    pub semicolon: Span,
}

/// A `const` declaration inside a classish body, with its modifiers.
#[derive(Debug, PartialEq, Eq)]
pub struct ClassishConstant {
    pub comments: CommentGroup,
    pub attributes: Vec<AttributeGroup>,
    pub modifiers: ConstantModifierGroup,
    pub const_span: Span,
    pub entries: Vec<ConstantEntry>,
    pub semicolon: Span,
}

/// One declared variable of a property statement.
#[derive(Debug, Clone, PartialEq, Eq)]
pub enum PropertyEntry {
    Initialized { variable: SimpleVariable, equals: Span, value: Expression },
    Uninitialized { variable: SimpleVariable },
}

/// A property declaration introduced by modifiers.
#[derive(Debug, PartialEq, Eq)]
pub struct Property {
    pub ty: Option<Type>,
    pub modifiers: PropertyModifierGroup,
    pub attributes: Vec<AttributeGroup>,
    pub entries: Vec<PropertyEntry>,
    pub end: Span,
}

/// A property declaration in the legacy `var`-prefixed form, which has no
/// modifiers.
#[derive(Debug, PartialEq, Eq)]
pub struct VariableProperty {
    pub ty: Option<Type>,
    pub attributes: Vec<AttributeGroup>,
    pub entries: Vec<PropertyEntry>,
    pub end: Span,
}

/// A parameter of a function or method.  Parameter-list internals
/// (promoted properties, defaults, types) are outside collaborators; this
/// core reads the parameter variables.
#[derive(Debug, Clone, PartialEq, Eq)]
pub struct FunctionParam {
    pub variable: SimpleVariable,
}

/// Where a parameter list appears, for diagnostics of the parameter-list
/// collaborator.
#[derive(Debug, Clone, PartialEq, Eq)]
pub enum ParamPosition {
    Function,
    Method(String),
    AbstractMethod(String),
}

/// A modifier collected on a method declaration.
#[derive(Debug, Clone, Copy, PartialEq, Eq, Structural)]
pub enum MethodFlag {
    Final,
    Abstract,
    Public,
    Protected,
    Private,
    Static,
}

/// A modifier collected on a class declaration.
#[derive(Debug, Clone, Copy, PartialEq, Eq, Structural)]
pub enum ClassFlag {
    Final,
    Abstract,
    Readonly,
}

/// The classish context a member declaration appears in.
#[derive(Debug, Clone, PartialEq, Eq)]
pub enum ClassishDefinitionType {
    Class(Vec<ClassFlag>),
    Trait,
    Interface,
    Enum,
    AnonymousClass,
}

/// A parsed declaration.
#[derive(Debug, PartialEq, Eq)]
pub enum Statement {
    Function {
        name: SimpleIdentifier,
        params: Vec<FunctionParam>,
        body: Vec<Statement>,
        return_type: Option<Type>,
        by_ref: bool,
    },
    Method {
        name: SimpleIdentifier,
        params: Vec<FunctionParam>,
        body: Vec<Statement>,
        return_type: Option<Type>,
        by_ref: bool,
        flags: Vec<MethodFlag>,
    },
    AbstractMethod {
        name: SimpleIdentifier,
        params: Vec<FunctionParam>,
        return_type: Option<Type>,
        flags: Vec<MethodFlag>,
        by_ref: bool,
    },
}

} // verus!
