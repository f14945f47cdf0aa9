//! Tokens as the lexer hands them to the parser: a kind, a source span and
//! the raw text the token was lexed from (empty for punctuation).

use vstd::prelude::*;
use vstd::string::StringExecFns;

verus! {

/// A source position: the line and column at which a token starts.
#[derive(Debug, Clone, Copy, PartialEq, Eq, Structural)]
pub struct Span {
    pub line: usize,
    pub column: usize,
}

impl Span {
    /// The zeroed span carried by the synthesized end-of-input token.
    pub open spec fn zero_spec() -> Span {
        Span { line: 0, column: 0 }
    }

    pub fn zero() -> (s: Span)
        ensures
            s == Span::zero_spec(),
    {
        Span { line: 0, column: 0 }
    }
}

/// The closed set of token kinds this parser core distinguishes.
#[derive(Debug, Clone, Copy, PartialEq, Eq, Structural)]
pub enum TokenKind {
    Final,
    Abstract,
    Readonly,
    Private,
    Protected,
    Public,
    Static,
    Var,
    Const,
    Function,
    Class,
    Trait,
    Interface,
    Enum,
    Callable,
    LeftParen,
    RightParen,
    LeftBrace,
    RightBrace,
    LeftBracket,
    RightBracket,
    Comma,
    Equals,
    Colon,
    DoubleColon,
    SemiColon,
    Ampersand,
    DoubleArrow,
    Identifier,
    QualifiedIdentifier,
    FullyQualifiedIdentifier,
    Variable,
    LiteralInteger,
    LiteralString,
    SingleLineComment,
    MultiLineComment,
    HashMarkComment,
    DocumentComment,
    OpenTagFull,
    OpenTagShort,
    OpenTagEcho,
    CloseTag,
    Eof,
}

/// A lexed token.  `value` holds the raw text where it matters (identifier
/// and variable names, literal text, comment text) and is empty otherwise.
#[derive(Debug, PartialEq, Eq)]
pub struct Token {
    pub kind: TokenKind,
    pub span: Span,
    pub value: String,
}

impl Clone for Token {
    fn clone(&self) -> (r: Token)
        ensures
            r == *self,
    {
        Token { kind: self.kind, span: self.span, value: self.value.clone() }
    }
}

impl Token {
    /// The synthesized token returned whenever the cursor runs past the end
    /// of the input: end-of-input kind, zeroed span, empty text.
    pub open spec fn is_eof_sentinel(self) -> bool {
        &&& self.kind == TokenKind::Eof
        &&& self.span == Span::zero_spec()
        &&& self.value@ == Seq::<char>::empty()
    }

    pub fn eof() -> (t: Token)
        ensures
            t.is_eof_sentinel(),
    {
        Token { kind: TokenKind::Eof, span: Span::zero(), value: String::new() }
    }
}

/// The four comment kinds, which every stream lookup skips transparently.
pub open spec fn is_comment_kind(k: TokenKind) -> bool {
    ||| k == TokenKind::SingleLineComment
    ||| k == TokenKind::MultiLineComment
    ||| k == TokenKind::HashMarkComment
    ||| k == TokenKind::DocumentComment
}

pub fn kind_is_comment(k: TokenKind) -> (r: bool)
    ensures
        r == is_comment_kind(k),
{
    match k {
        TokenKind::SingleLineComment => true,
        TokenKind::MultiLineComment => true,
        TokenKind::HashMarkComment => true,
        TokenKind::DocumentComment => true,
        _ => false,
    }
}

/// The display form of a token kind, used in diagnostics.
pub open spec fn kind_name_spec(k: TokenKind) -> Seq<char> {
    match k {
        TokenKind::Final => "final"@,
        TokenKind::Abstract => "abstract"@,
        TokenKind::Readonly => "readonly"@,
        TokenKind::Private => "private"@,
        TokenKind::Protected => "protected"@,
        TokenKind::Public => "public"@,
        TokenKind::Static => "static"@,
        TokenKind::Var => "var"@,
        TokenKind::Const => "const"@,
        TokenKind::Function => "function"@,
        TokenKind::Class => "class"@,
        TokenKind::Trait => "trait"@,
        TokenKind::Interface => "interface"@,
        TokenKind::Enum => "enum"@,
        TokenKind::Callable => "callable"@,
        TokenKind::LeftParen => "("@,
        TokenKind::RightParen => ")"@,
        TokenKind::LeftBrace => "{"@,
        TokenKind::RightBrace => "}"@,
        TokenKind::LeftBracket => "["@,
        TokenKind::RightBracket => "]"@,
        TokenKind::Comma => ","@,
        TokenKind::Equals => "="@,
        TokenKind::Colon => ":"@,
        TokenKind::DoubleColon => "::"@,
        TokenKind::SemiColon => ";"@,
        TokenKind::Ampersand => "&"@,
        TokenKind::DoubleArrow => "=>"@,
        TokenKind::Identifier => "identifier"@,
        TokenKind::QualifiedIdentifier => "qualified identifier"@,
        TokenKind::FullyQualifiedIdentifier => "fully qualified identifier"@,
        TokenKind::Variable => "variable"@,
        TokenKind::LiteralInteger => "integer literal"@,
        TokenKind::LiteralString => "string literal"@,
        TokenKind::SingleLineComment => "single line comment"@,
        TokenKind::MultiLineComment => "multi line comment"@,
        TokenKind::HashMarkComment => "hash mark comment"@,
        TokenKind::DocumentComment => "document comment"@,
        TokenKind::OpenTagFull => "<?php"@,
        TokenKind::OpenTagShort => "<?"@,
        TokenKind::OpenTagEcho => "<?="@,
        TokenKind::CloseTag => "?>"@,
        TokenKind::Eof => "eof"@,
    }
}

pub fn kind_name(k: TokenKind) -> (r: String)
    ensures
        r@ == kind_name_spec(k),
{
    match k {
        TokenKind::Final => String::from_str("final"),
        TokenKind::Abstract => String::from_str("abstract"),
        TokenKind::Readonly => String::from_str("readonly"),
        TokenKind::Private => String::from_str("private"),
        TokenKind::Protected => String::from_str("protected"),
        TokenKind::Public => String::from_str("public"),
        TokenKind::Static => String::from_str("static"),
        TokenKind::Var => String::from_str("var"),
        TokenKind::Const => String::from_str("const"),
        TokenKind::Function => String::from_str("function"),
        TokenKind::Class => String::from_str("class"),
        TokenKind::Trait => String::from_str("trait"),
        TokenKind::Interface => String::from_str("interface"),
        TokenKind::Enum => String::from_str("enum"),
        TokenKind::Callable => String::from_str("callable"),
        TokenKind::LeftParen => String::from_str("("),
        TokenKind::RightParen => String::from_str(")"),
        TokenKind::LeftBrace => String::from_str("{"),
        TokenKind::RightBrace => String::from_str("}"),
        TokenKind::LeftBracket => String::from_str("["),
        TokenKind::RightBracket => String::from_str("]"),
        TokenKind::Comma => String::from_str(","),
        TokenKind::Equals => String::from_str("="),
        TokenKind::Colon => String::from_str(":"),
        TokenKind::DoubleColon => String::from_str("::"),
        TokenKind::SemiColon => String::from_str(";"),
        TokenKind::Ampersand => String::from_str("&"),
        TokenKind::DoubleArrow => String::from_str("=>"),
        TokenKind::Identifier => String::from_str("identifier"),
        TokenKind::QualifiedIdentifier => String::from_str("qualified identifier"),
        TokenKind::FullyQualifiedIdentifier => String::from_str("fully qualified identifier"),
        TokenKind::Variable => String::from_str("variable"),
        TokenKind::LiteralInteger => String::from_str("integer literal"),
        TokenKind::LiteralString => String::from_str("string literal"),
        TokenKind::SingleLineComment => String::from_str("single line comment"),
        TokenKind::MultiLineComment => String::from_str("multi line comment"),
        TokenKind::HashMarkComment => String::from_str("hash mark comment"),
        TokenKind::DocumentComment => String::from_str("document comment"),
        TokenKind::OpenTagFull => String::from_str("<?php"),
        TokenKind::OpenTagShort => String::from_str("<?"),
        TokenKind::OpenTagEcho => String::from_str("<?="),
        TokenKind::CloseTag => String::from_str("?>"),
        TokenKind::Eof => String::from_str("eof"),
    }
}

/// The display form of a token kind wrapped in backticks, as diagnostics
/// list an expected token.
pub open spec fn kind_quoted_spec(k: TokenKind) -> Seq<char> {
    seq!['`'] + kind_name_spec(k) + seq!['`']
}

pub fn kind_quoted(k: TokenKind) -> (r: String)
    ensures
        r@ == kind_quoted_spec(k),
{
    let mut r = String::from_str("`");
    r.append(kind_name(k).as_str());
    r.append("`");
    proof {
        reveal_strlit("`");
        assert(r@ =~= kind_quoted_spec(k));
    }
    r
}

} // verus!
