use php_parser::ast::ClassFlag;
use php_parser::ast::ClassishDefinitionType;
use php_parser::ast::MethodFlag;
use php_parser::ast::ParamPosition;
use php_parser::ast::PropertyEntry;
use php_parser::ast::PropertyModifier;
use php_parser::ast::PropertyModifierGroup;
use php_parser::ast::Statement;
use php_parser::data_type::Type;
use php_parser::error::ParseError;
use php_parser::flags;
use php_parser::functions;
use php_parser::properties;
use php_parser::state::State;
use php_parser::stream::TokenStream;
use php_parser::token::Span;
use php_parser::token::Token;
use php_parser::token::TokenKind;
use php_parser::utils;
use php_parser::variables::simple_variable;

fn sp(line: usize, column: usize) -> Span {
    Span { line, column }
}

fn tok(kind: TokenKind, line: usize, column: usize) -> Token {
    Token { kind, span: sp(line, column), value: String::new() }
}

fn tokv(kind: TokenKind, line: usize, column: usize, value: &str) -> Token {
    Token { kind, span: sp(line, column), value: value.to_string() }
}

fn state_of(tokens: Vec<Token>) -> State {
    State::new(TokenStream::new(tokens), false)
}

#[test]
fn lookahead_ignores_comments() {
    let tokens = vec![
        tokv(TokenKind::SingleLineComment, 1, 1, "// a"),
        tok(TokenKind::Readonly, 2, 1),
        tokv(TokenKind::MultiLineComment, 2, 5, "/* b */"),
        tok(TokenKind::Class, 2, 14),
        tok(TokenKind::Eof, 0, 0),
    ];
    let stream = TokenStream::new(tokens);
    assert_eq!(stream.current().kind, TokenKind::Readonly);
    assert_eq!(stream.peek().kind, TokenKind::Class);
    assert_eq!(stream.lookahead(0).kind, TokenKind::Class);
    assert_eq!(stream.lookahead(1).kind, TokenKind::Eof);
    assert_eq!(stream.lookahead(5).kind, TokenKind::Eof);
}

#[test]
fn stream_walks_and_buffers_comments() {
    let tokens = vec![
        tokv(TokenKind::SingleLineComment, 1, 1, "// some class"),
        tok(TokenKind::Readonly, 2, 1),
        tok(TokenKind::Class, 2, 10),
        tok(TokenKind::Enum, 2, 16),
        tok(TokenKind::LeftBrace, 2, 21),
        tokv(TokenKind::SingleLineComment, 3, 1, "// empty body!"),
        tok(TokenKind::RightBrace, 4, 1),
        tok(TokenKind::Eof, 0, 0),
    ];
    let mut stream = TokenStream::new(tokens);
    assert_eq!(stream.current().kind, TokenKind::Readonly);
    assert_eq!(stream.peek().kind, TokenKind::Class);
    assert_eq!(stream.lookahead(1).kind, TokenKind::Enum);
    assert_eq!(stream.lookahead(2).kind, TokenKind::LeftBrace);
    assert_eq!(stream.lookahead(3).kind, TokenKind::RightBrace);
    assert_eq!(stream.lookahead(4).kind, TokenKind::Eof);
    stream.next();
    assert_eq!(stream.current().kind, TokenKind::Class);
    stream.next();
    stream.next();
    stream.next();
    assert_eq!(stream.current().kind, TokenKind::RightBrace);
    stream.next();
    assert_eq!(stream.current().kind, TokenKind::Eof);
    assert!(stream.is_eof());
    let comments = stream.comments();
    assert_eq!(comments.len(), 2);
    assert_eq!(comments[0].value, "// some class");
    assert_eq!(comments[1].value, "// empty body!");
}

#[test]
fn comments_drained_once() {
    let tokens = vec![
        tokv(TokenKind::HashMarkComment, 1, 1, "# one"),
        tok(TokenKind::Static, 1, 10),
        tokv(TokenKind::DocumentComment, 2, 1, "/** two */"),
        tok(TokenKind::Var, 3, 1),
        tok(TokenKind::Eof, 0, 0),
    ];
    let mut stream = TokenStream::new(tokens);
    stream.next();
    let first = stream.comments();
    assert_eq!(first.len(), 2);
    assert_eq!(first[0].value, "# one");
    assert_eq!(first[1].value, "/** two */");
    let second = stream.comments();
    assert!(second.is_empty());
}

#[test]
fn eof_sentinel_on_empty_input() {
    let stream = TokenStream::new(vec![]);
    let cur = stream.current();
    assert_eq!(cur.kind, TokenKind::Eof);
    assert_eq!(cur.span, sp(0, 0));
    assert_eq!(cur.value, "");
    assert!(stream.is_eof());
}

#[test]
fn duplicate_modifier_rejected() {
    let tokens = vec![
        tok(TokenKind::Public, 1, 1),
        tok(TokenKind::Public, 1, 8),
        tok(TokenKind::Function, 1, 15),
        tok(TokenKind::Eof, 0, 0),
    ];
    let mut state = state_of(tokens);
    let r = flags::class_members_flags(&mut state);
    assert_eq!(
        r,
        Err(ParseError::MultipleModifiers("public".to_string(), sp(1, 8)))
    );
}

#[test]
fn two_access_modifiers_rejected_either_order() {
    let mut state = state_of(vec![
        tok(TokenKind::Public, 1, 1),
        tok(TokenKind::Private, 1, 8),
        tok(TokenKind::Eof, 0, 0),
    ]);
    assert_eq!(
        flags::class_members_flags(&mut state),
        Err(ParseError::MultipleAccessModifiers(sp(1, 8)))
    );
    let mut state = state_of(vec![
        tok(TokenKind::Private, 1, 1),
        tok(TokenKind::Public, 1, 9),
        tok(TokenKind::Eof, 0, 0),
    ]);
    assert_eq!(
        flags::promoted_property_flags(&mut state),
        Err(ParseError::MultipleAccessModifiers(sp(1, 9)))
    );
}

#[test]
fn final_abstract_rejected_for_class_and_member() {
    let mut state = state_of(vec![
        tok(TokenKind::Final, 1, 1),
        tok(TokenKind::Abstract, 1, 7),
        tok(TokenKind::Eof, 0, 0),
    ]);
    assert_eq!(
        flags::class_flags(&mut state),
        Err(ParseError::FinalModifierOnAbstractClass(sp(1, 7)))
    );
    let mut state = state_of(vec![
        tok(TokenKind::Abstract, 1, 1),
        tok(TokenKind::Final, 1, 10),
        tok(TokenKind::Eof, 0, 0),
    ]);
    assert_eq!(
        flags::class_flags(&mut state),
        Err(ParseError::FinalModifierOnAbstractClass(sp(1, 10)))
    );
    let mut state = state_of(vec![
        tok(TokenKind::Final, 1, 1),
        tok(TokenKind::Abstract, 1, 7),
        tok(TokenKind::Eof, 0, 0),
    ]);
    assert_eq!(
        flags::class_members_flags(&mut state),
        Err(ParseError::FinalModifierOnAbstractClassMember(sp(1, 7)))
    );
}

#[test]
fn collects_modifiers_in_source_order() {
    let mut state = state_of(vec![
        tok(TokenKind::Public, 1, 1),
        tok(TokenKind::Static, 1, 8),
        tok(TokenKind::Readonly, 1, 15),
        tokv(TokenKind::Variable, 1, 24, "$x"),
        tok(TokenKind::Eof, 0, 0),
    ]);
    let r = flags::class_members_flags(&mut state).unwrap();
    assert_eq!(r, vec![TokenKind::Public, TokenKind::Static, TokenKind::Readonly]);
    assert_eq!(state.stream.current().kind, TokenKind::Variable);
}

#[test]
fn static_readonly_property_rejected() {
    let tokens = vec![
        tokv(TokenKind::Identifier, 1, 17, "int"),
        tokv(TokenKind::Variable, 1, 21, "$x"),
        tok(TokenKind::SemiColon, 1, 23),
        tok(TokenKind::Eof, 0, 0),
    ];
    let mut state = state_of(tokens);
    let modifiers = PropertyModifierGroup {
        modifiers: vec![
            PropertyModifier::Static(sp(1, 1)),
            PropertyModifier::Readonly(sp(1, 8)),
        ],
    };
    let r = properties::parse(&mut state, "Foo", modifiers);
    assert_eq!(
        r,
        Err(ParseError::StaticPropertyCannotBeReadonly {
            class: "Foo".to_string(),
            member: "$x".to_string(),
            member_span: sp(1, 21),
            static_span: sp(1, 1),
            readonly_span: sp(1, 8),
        })
    );
}

#[test]
fn readonly_property_without_type_rejected() {
    let tokens = vec![
        tokv(TokenKind::Variable, 1, 10, "$x"),
        tok(TokenKind::SemiColon, 1, 12),
        tok(TokenKind::Eof, 0, 0),
    ];
    let mut state = state_of(tokens);
    let modifiers = PropertyModifierGroup {
        modifiers: vec![PropertyModifier::Readonly(sp(1, 1))],
    };
    let r = properties::parse(&mut state, "Foo", modifiers);
    assert_eq!(
        r,
        Err(ParseError::MissingTypeForReadonlyProperty {
            class: "Foo".to_string(),
            member: "$x".to_string(),
            member_span: sp(1, 10),
            readonly_span: sp(1, 1),
        })
    );
}

#[test]
fn readonly_property_with_default_rejected() {
    let tokens = vec![
        tokv(TokenKind::Identifier, 1, 17, "int"),
        tokv(TokenKind::Variable, 1, 21, "$x"),
        tok(TokenKind::Equals, 1, 24),
        tokv(TokenKind::LiteralInteger, 1, 26, "1"),
        tok(TokenKind::SemiColon, 1, 27),
        tok(TokenKind::Eof, 0, 0),
    ];
    let mut state = state_of(tokens);
    let modifiers = PropertyModifierGroup {
        modifiers: vec![
            PropertyModifier::Public(sp(1, 1)),
            PropertyModifier::Readonly(sp(1, 8)),
        ],
    };
    let r = properties::parse(&mut state, "Foo", modifiers);
    assert_eq!(
        r,
        Err(ParseError::ReadonlyPropertyHasDefaultValue {
            class: "Foo".to_string(),
            member: "$x".to_string(),
            member_span: sp(1, 21),
            readonly_span: sp(1, 8),
            equals_span: sp(1, 24),
        })
    );
}

#[test]
fn callable_property_type_rejected() {
    let tokens = vec![
        tokv(TokenKind::Callable, 1, 8, "callable"),
        tokv(TokenKind::Variable, 1, 17, "$x"),
        tok(TokenKind::SemiColon, 1, 19),
        tok(TokenKind::Eof, 0, 0),
    ];
    let mut state = state_of(tokens);
    let modifiers = PropertyModifierGroup {
        modifiers: vec![PropertyModifier::Public(sp(1, 1))],
    };
    let r = properties::parse(&mut state, "Foo", modifiers);
    assert_eq!(
        r,
        Err(ParseError::ForbiddenTypeUsedInProperty {
            class: "Foo".to_string(),
            member: "$x".to_string(),
            member_span: sp(1, 17),
            ty: Type::Callable,
        })
    );
}

#[test]
fn void_property_type_rejected_in_var_form() {
    let tokens = vec![
        tok(TokenKind::Var, 1, 1),
        tokv(TokenKind::Identifier, 1, 5, "void"),
        tokv(TokenKind::Variable, 1, 10, "$x"),
        tok(TokenKind::SemiColon, 1, 12),
        tok(TokenKind::Eof, 0, 0),
    ];
    let mut state = state_of(tokens);
    let r = properties::parse_var(&mut state, "Foo");
    assert_eq!(
        r,
        Err(ParseError::ForbiddenTypeUsedInProperty {
            class: "Foo".to_string(),
            member: "$x".to_string(),
            member_span: sp(1, 10),
            ty: Type::Void,
        })
    );
}

#[test]
fn var_property_parses() {
    let tokens = vec![
        tok(TokenKind::Var, 1, 1),
        tokv(TokenKind::Variable, 1, 5, "$x"),
        tok(TokenKind::SemiColon, 1, 7),
        tok(TokenKind::Eof, 0, 0),
    ];
    let mut state = state_of(tokens);
    let p = properties::parse_var(&mut state, "Foo").unwrap();
    assert_eq!(p.ty, None);
    assert_eq!(p.end, sp(1, 7));
    assert_eq!(p.entries.len(), 1);
    match &p.entries[0] {
        PropertyEntry::Uninitialized { variable } => {
            assert_eq!(variable.name, "$x");
            assert_eq!(variable.span, sp(1, 5));
        },
        other => panic!("unexpected entry: {:?}", other),
    }
}

#[test]
fn property_with_two_entries_parses() {
    let tokens = vec![
        tokv(TokenKind::Variable, 1, 9, "$a"),
        tok(TokenKind::Comma, 1, 11),
        tokv(TokenKind::Variable, 1, 13, "$b"),
        tok(TokenKind::Equals, 1, 16),
        tokv(TokenKind::LiteralInteger, 1, 18, "1"),
        tok(TokenKind::SemiColon, 1, 19),
        tok(TokenKind::Eof, 0, 0),
    ];
    let mut state = state_of(tokens);
    let modifiers = PropertyModifierGroup {
        modifiers: vec![PropertyModifier::Private(sp(1, 1))],
    };
    let p = properties::parse(&mut state, "Foo", modifiers.clone()).unwrap();
    assert_eq!(p.ty, None);
    assert_eq!(p.modifiers, modifiers);
    assert_eq!(p.end, sp(1, 19));
    assert_eq!(p.entries.len(), 2);
    match &p.entries[0] {
        PropertyEntry::Uninitialized { variable } => assert_eq!(variable.name, "$a"),
        other => panic!("unexpected entry: {:?}", other),
    }
    match &p.entries[1] {
        PropertyEntry::Initialized { variable, equals, value } => {
            assert_eq!(variable.name, "$b");
            assert_eq!(*equals, sp(1, 16));
            assert_eq!(value.token.kind, TokenKind::LiteralInteger);
            assert_eq!(value.token.value, "1");
        },
        other => panic!("unexpected entry: {:?}", other),
    }
}

#[test]
fn property_missing_expression_rejected() {
    let tokens = vec![
        tokv(TokenKind::Variable, 1, 9, "$a"),
        tok(TokenKind::Equals, 1, 12),
        tok(TokenKind::SemiColon, 1, 13),
        tok(TokenKind::Eof, 0, 0),
    ];
    let mut state = state_of(tokens);
    let modifiers = PropertyModifierGroup {
        modifiers: vec![PropertyModifier::Private(sp(1, 1))],
    };
    let r = properties::parse(&mut state, "Foo", modifiers);
    match r {
        Err(ParseError::ExpectedToken(expected, found, span)) => {
            assert_eq!(expected.len(), 4);
            assert_eq!(found, Some(";".to_string()));
            assert_eq!(span, sp(1, 13));
        },
        other => panic!("unexpected result: {:?}", other),
    }
}

#[test]
fn skip_semicolon_accepts_semicolon_and_close_tag() {
    let mut state = state_of(vec![
        tok(TokenKind::SemiColon, 1, 4),
        tok(TokenKind::Eof, 0, 0),
    ]);
    assert_eq!(utils::skip_semicolon(&mut state), Ok(sp(1, 4)));

    let mut state = state_of(vec![
        tok(TokenKind::CloseTag, 2, 1),
        tok(TokenKind::Eof, 0, 0),
    ]);
    assert_eq!(utils::skip_semicolon(&mut state), Ok(sp(2, 1)));

    let mut state = state_of(vec![
        tok(TokenKind::Readonly, 3, 1),
        tok(TokenKind::Eof, 0, 0),
    ]);
    assert_eq!(
        utils::skip_semicolon(&mut state),
        Err(ParseError::ExpectedToken(
            vec!["`;`".to_string()],
            Some("readonly".to_string()),
            sp(3, 1),
        ))
    );
}

#[test]
fn skip_reports_eof_as_no_found_token() {
    let mut state = state_of(vec![tok(TokenKind::Eof, 0, 0)]);
    assert_eq!(
        utils::skip(&mut state, TokenKind::LeftBrace),
        Err(ParseError::ExpectedToken(vec!["`{`".to_string()], None, sp(0, 0)))
    );
}

#[test]
fn skip_any_of_lists_all_expected_kinds() {
    let mut state = state_of(vec![
        tok(TokenKind::Comma, 1, 1),
        tok(TokenKind::Eof, 0, 0),
    ]);
    let kinds = [TokenKind::SemiColon, TokenKind::Comma];
    assert_eq!(utils::skip_any_of(&mut state, &kinds), Ok(sp(1, 1)));

    let mut state = state_of(vec![
        tok(TokenKind::Equals, 1, 1),
        tok(TokenKind::Eof, 0, 0),
    ]);
    assert_eq!(
        utils::skip_any_of(&mut state, &kinds),
        Err(ParseError::ExpectedToken(
            vec!["`;`".to_string(), "`,`".to_string()],
            Some("=".to_string()),
            sp(1, 1),
        ))
    );
}

#[test]
fn skip_left_brace_absorbs_close_tag() {
    let mut state = state_of(vec![
        tok(TokenKind::LeftBrace, 1, 1),
        tok(TokenKind::CloseTag, 1, 2),
        tok(TokenKind::RightBrace, 2, 1),
        tok(TokenKind::Eof, 0, 0),
    ]);
    assert_eq!(utils::skip_left_brace(&mut state), Ok(sp(1, 1)));
    assert_eq!(state.stream.current().kind, TokenKind::RightBrace);
}

#[test]
fn skip_colon_absorbs_close_tag() {
    let mut state = state_of(vec![
        tok(TokenKind::Colon, 1, 1),
        tok(TokenKind::CloseTag, 1, 2),
        tokv(TokenKind::Identifier, 2, 1, "void"),
        tok(TokenKind::Eof, 0, 0),
    ]);
    assert_eq!(utils::skip_colon(&mut state), Ok(sp(1, 1)));
    assert_eq!(state.stream.current().kind, TokenKind::Identifier);
}

#[test]
fn skip_open_and_close_tags_are_optional() {
    let mut state = state_of(vec![
        tok(TokenKind::OpenTagFull, 1, 1),
        tok(TokenKind::CloseTag, 1, 7),
        tok(TokenKind::Eof, 0, 0),
    ]);
    assert_eq!(utils::skip_open_tag(&mut state), Ok(()));
    assert_eq!(utils::skip_close_tag(&mut state), Ok(()));
    assert!(state.stream.is_eof());
    // both are no-ops when the expected tag is absent
    assert_eq!(utils::skip_open_tag(&mut state), Ok(()));
    assert_eq!(utils::skip_close_tag(&mut state), Ok(()));
}

#[test]
fn at_least_one_comma_separated_collects_in_order() {
    let mut state = state_of(vec![
        tokv(TokenKind::Variable, 1, 1, "$a"),
        tok(TokenKind::Comma, 1, 3),
        tokv(TokenKind::Variable, 1, 5, "$b"),
        tok(TokenKind::Comma, 1, 7),
        tokv(TokenKind::Variable, 1, 9, "$c"),
        tok(TokenKind::SemiColon, 1, 11),
        tok(TokenKind::Eof, 0, 0),
    ]);
    let r = utils::at_least_one_comma_separated(&mut state, &simple_variable).unwrap();
    let names: Vec<String> = r.into_iter().map(|v| v.name).collect();
    assert_eq!(names, vec!["$a".to_string(), "$b".to_string(), "$c".to_string()]);
    assert_eq!(state.stream.current().kind, TokenKind::SemiColon);
}

#[test]
fn at_least_one_comma_separated_single_item() {
    let mut state = state_of(vec![
        tokv(TokenKind::Variable, 1, 1, "$a"),
        tok(TokenKind::SemiColon, 1, 3),
        tok(TokenKind::Eof, 0, 0),
    ]);
    let r = utils::at_least_one_comma_separated(&mut state, &simple_variable).unwrap();
    assert_eq!(r.len(), 1);
    assert_eq!(r[0].name, "$a");
}

#[test]
fn at_least_one_comma_separated_fails_on_first_item() {
    let mut state = state_of(vec![
        tok(TokenKind::SemiColon, 1, 1),
        tok(TokenKind::Eof, 0, 0),
    ]);
    let r = utils::at_least_one_comma_separated(&mut state, &simple_variable);
    assert_eq!(
        r,
        Err(ParseError::ExpectedToken(
            vec!["`variable`".to_string()],
            Some(";".to_string()),
            sp(1, 1),
        ))
    );
    assert_eq!(state.stream.current().kind, TokenKind::SemiColon);
}

#[test]
fn function_with_void_return_type_parses() {
    let tokens = vec![
        tok(TokenKind::Function, 1, 1),
        tokv(TokenKind::Identifier, 1, 10, "foo"),
        tok(TokenKind::LeftParen, 1, 13),
        tok(TokenKind::RightParen, 1, 14),
        tok(TokenKind::Colon, 1, 15),
        tokv(TokenKind::Identifier, 1, 17, "void"),
        tok(TokenKind::LeftBrace, 1, 22),
        tok(TokenKind::RightBrace, 1, 23),
        tok(TokenKind::Eof, 0, 0),
    ];
    let mut state = state_of(tokens);
    let r = functions::function(&mut state).unwrap();
    match r {
        Statement::Function { name, params, body, return_type, by_ref } => {
            assert_eq!(name.name, "foo");
            assert!(params.is_empty());
            assert!(body.is_empty());
            assert_eq!(return_type, Some(Type::Void));
            assert!(!by_ref);
        },
        other => panic!("unexpected statement: {:?}", other),
    }
    assert!(state.stream.is_eof());
}

#[test]
fn function_by_ref_with_params_parses() {
    let tokens = vec![
        tok(TokenKind::Function, 1, 1),
        tok(TokenKind::Ampersand, 1, 10),
        tokv(TokenKind::Identifier, 1, 11, "swap"),
        tok(TokenKind::LeftParen, 1, 15),
        tokv(TokenKind::Variable, 1, 16, "$a"),
        tok(TokenKind::Comma, 1, 18),
        tokv(TokenKind::Variable, 1, 20, "$b"),
        tok(TokenKind::RightParen, 1, 22),
        tok(TokenKind::LeftBrace, 1, 24),
        tok(TokenKind::RightBrace, 1, 25),
        tok(TokenKind::Eof, 0, 0),
    ];
    let mut state = state_of(tokens);
    let r = functions::function(&mut state).unwrap();
    match r {
        Statement::Function { name, params, return_type, by_ref, .. } => {
            assert_eq!(name.name, "swap");
            assert!(by_ref);
            assert_eq!(return_type, None);
            let names: Vec<String> =
                params.into_iter().map(|p| p.variable.name).collect();
            assert_eq!(names, vec!["$a".to_string(), "$b".to_string()]);
        },
        other => panic!("unexpected statement: {:?}", other),
    }
}

#[test]
fn forced_return_type_requires_colon() {
    let tokens = vec![
        tok(TokenKind::Function, 1, 1),
        tokv(TokenKind::Identifier, 1, 10, "foo"),
        tok(TokenKind::LeftParen, 1, 13),
        tok(TokenKind::RightParen, 1, 14),
        tok(TokenKind::LeftBrace, 1, 16),
        tok(TokenKind::RightBrace, 1, 17),
        tok(TokenKind::Eof, 0, 0),
    ];
    let mut state = State::new(TokenStream::new(tokens), true);
    let r = functions::function(&mut state);
    assert_eq!(
        r,
        Err(ParseError::ExpectedToken(
            vec!["`:`".to_string()],
            Some("{".to_string()),
            sp(1, 16),
        ))
    );
}

#[test]
fn abstract_method_in_non_abstract_class_rejected() {
    let tokens = vec![
        tok(TokenKind::Function, 3, 5),
        tokv(TokenKind::Identifier, 3, 14, "m"),
        tok(TokenKind::LeftParen, 3, 15),
        tok(TokenKind::RightParen, 3, 16),
        tok(TokenKind::SemiColon, 3, 17),
        tok(TokenKind::Eof, 0, 0),
    ];
    let mut state = state_of(tokens);
    let r = functions::method(
        &mut state,
        ClassishDefinitionType::Class(vec![ClassFlag::Final]),
        vec![MethodFlag::Public, MethodFlag::Abstract],
    );
    assert_eq!(
        r,
        Err(ParseError::AbstractModifierOnNonAbstractClassMethod(sp(3, 5)))
    );
}

#[test]
fn interface_method_is_bodiless() {
    let tokens = vec![
        tok(TokenKind::Function, 2, 5),
        tokv(TokenKind::Identifier, 2, 14, "m"),
        tok(TokenKind::LeftParen, 2, 15),
        tok(TokenKind::RightParen, 2, 16),
        tok(TokenKind::SemiColon, 2, 17),
        tok(TokenKind::Eof, 0, 0),
    ];
    let mut state = state_of(tokens);
    let r = functions::method(
        &mut state,
        ClassishDefinitionType::Interface,
        vec![MethodFlag::Public],
    )
    .unwrap();
    match r {
        Statement::AbstractMethod { name, params, return_type, flags, by_ref } => {
            assert_eq!(name.name, "m");
            assert!(params.is_empty());
            assert_eq!(return_type, None);
            assert_eq!(flags, vec![MethodFlag::Public]);
            assert!(!by_ref);
        },
        other => panic!("unexpected statement: {:?}", other),
    }
}

#[test]
fn abstract_class_method_takes_semicolon() {
    let tokens = vec![
        tok(TokenKind::Function, 2, 5),
        tokv(TokenKind::Identifier, 2, 14, "m"),
        tok(TokenKind::LeftParen, 2, 15),
        tok(TokenKind::RightParen, 2, 16),
        tok(TokenKind::SemiColon, 2, 17),
        tok(TokenKind::Eof, 0, 0),
    ];
    let mut state = state_of(tokens);
    let r = functions::method(
        &mut state,
        ClassishDefinitionType::Class(vec![ClassFlag::Abstract]),
        vec![MethodFlag::Abstract],
    )
    .unwrap();
    assert!(matches!(r, Statement::AbstractMethod { .. }));
}

#[test]
fn enum_method_has_body() {
    let tokens = vec![
        tok(TokenKind::Function, 2, 5),
        tokv(TokenKind::Identifier, 2, 14, "m"),
        tok(TokenKind::LeftParen, 2, 15),
        tok(TokenKind::RightParen, 2, 16),
        tok(TokenKind::LeftBrace, 2, 18),
        tok(TokenKind::RightBrace, 2, 19),
        tok(TokenKind::Eof, 0, 0),
    ];
    let mut state = state_of(tokens);
    let r = functions::method(&mut state, ClassishDefinitionType::Enum, vec![]).unwrap();
    match r {
        Statement::Method { name, body, flags, .. } => {
            assert_eq!(name.name, "m");
            assert!(body.is_empty());
            assert!(flags.is_empty());
        },
        other => panic!("unexpected statement: {:?}", other),
    }
}

#[test]
fn position_tags_follow_flags_and_context() {
    let p = functions::position_from_flags_and_name(
        &ClassishDefinitionType::Interface,
        &vec![],
        "m".to_string(),
    );
    assert_eq!(p, ParamPosition::AbstractMethod("m".to_string()));
    let p = functions::position_from_flags_and_name(
        &ClassishDefinitionType::Trait,
        &vec![MethodFlag::Abstract],
        "m".to_string(),
    );
    assert_eq!(p, ParamPosition::AbstractMethod("m".to_string()));
    let p = functions::position_from_flags_and_name(
        &ClassishDefinitionType::Enum,
        &vec![MethodFlag::Public],
        "m".to_string(),
    );
    assert_eq!(p, ParamPosition::Method("m".to_string()));
}

#[test]
fn property_terminates_on_close_tag() {
    let tokens = vec![
        tokv(TokenKind::Variable, 1, 9, "$a"),
        tok(TokenKind::CloseTag, 1, 12),
        tok(TokenKind::Eof, 0, 0),
    ];
    let mut state = state_of(tokens);
    let modifiers = PropertyModifierGroup {
        modifiers: vec![PropertyModifier::Public(sp(1, 1))],
    };
    let p = properties::parse(&mut state, "Foo", modifiers).unwrap();
    assert_eq!(p.end, sp(1, 12));
    assert!(state.stream.is_eof());
}

#[test]
fn named_property_type_is_kept() {
    let tokens = vec![
        tokv(TokenKind::Identifier, 1, 9, "int"),
        tokv(TokenKind::Variable, 1, 13, "$n"),
        tok(TokenKind::SemiColon, 1, 15),
        tok(TokenKind::Eof, 0, 0),
    ];
    let mut state = state_of(tokens);
    let modifiers = PropertyModifierGroup {
        modifiers: vec![PropertyModifier::Public(sp(1, 1))],
    };
    let p = properties::parse(&mut state, "Foo", modifiers).unwrap();
    assert_eq!(p.ty, Some(Type::Named("int".to_string())));
}

#[test]
fn modifier_group_reports_first_occurrences() {
    let g = PropertyModifierGroup {
        modifiers: vec![
            PropertyModifier::Public(sp(1, 1)),
            PropertyModifier::Static(sp(1, 8)),
            PropertyModifier::Readonly(sp(1, 15)),
        ],
    };
    assert!(g.has_static());
    assert!(g.has_readonly());
    assert_eq!(g.get_static(), Some(PropertyModifier::Static(sp(1, 8))));
    assert_eq!(g.get_readonly(), Some(PropertyModifier::Readonly(sp(1, 15))));
    let empty = PropertyModifierGroup { modifiers: vec![] };
    assert!(!empty.has_static());
    assert_eq!(empty.get_readonly(), None);
}

#[test]
fn comment_only_stream_is_eof() {
    let tokens = vec![
        tokv(TokenKind::SingleLineComment, 1, 1, "// nothing"),
        tokv(TokenKind::MultiLineComment, 2, 1, "/* here */"),
    ];
    let mut stream = TokenStream::new(tokens);
    assert!(stream.is_eof());
    assert_eq!(stream.current().kind, TokenKind::Eof);
    let comments = stream.comments();
    assert_eq!(comments.len(), 2);
}

#[test]
fn function_missing_right_parenthesis_rejected() {
    let tokens = vec![
        tok(TokenKind::Function, 1, 1),
        tokv(TokenKind::Identifier, 1, 10, "foo"),
        tok(TokenKind::LeftParen, 1, 13),
        tok(TokenKind::LeftBrace, 1, 15),
        tok(TokenKind::RightBrace, 1, 16),
        tok(TokenKind::Eof, 0, 0),
    ];
    let mut state = state_of(tokens);
    let r = functions::function(&mut state);
    assert_eq!(
        r,
        Err(ParseError::ExpectedToken(
            vec!["`)`".to_string()],
            Some("{".to_string()),
            sp(1, 15),
        ))
    );
}

#[test]
fn function_keyword_comments_do_not_disturb_grammar() {
    let tokens = vec![
        tok(TokenKind::Function, 1, 1),
        tokv(TokenKind::DocumentComment, 1, 9, "/** f */"),
        tokv(TokenKind::Identifier, 1, 20, "foo"),
        tok(TokenKind::LeftParen, 1, 23),
        tok(TokenKind::RightParen, 1, 24),
        tok(TokenKind::LeftBrace, 1, 26),
        tok(TokenKind::RightBrace, 1, 27),
        tok(TokenKind::Eof, 0, 0),
    ];
    let mut state = state_of(tokens);
    let r = functions::function(&mut state).unwrap();
    match r {
        Statement::Function { name, return_type, .. } => {
            assert_eq!(name.name, "foo");
            assert_eq!(return_type, None);
        },
        other => panic!("unexpected statement: {:?}", other),
    }
}

#[test]
fn var_property_keeps_named_type() {
    let tokens = vec![
        tok(TokenKind::Var, 1, 1),
        tokv(TokenKind::Identifier, 1, 5, "string"),
        tokv(TokenKind::Variable, 1, 12, "$s"),
        tok(TokenKind::SemiColon, 1, 14),
        tok(TokenKind::Eof, 0, 0),
    ];
    let mut state = state_of(tokens);
    let p = properties::parse_var(&mut state, "Foo").unwrap();
    assert_eq!(p.ty, Some(Type::Named("string".to_string())));
}

#[test]
fn reserved_word_accepted_as_method_name() {
    let tokens = vec![
        tok(TokenKind::Function, 2, 5),
        tokv(TokenKind::Static, 2, 14, "static"),
        tok(TokenKind::LeftParen, 2, 20),
        tok(TokenKind::RightParen, 2, 21),
        tok(TokenKind::LeftBrace, 2, 23),
        tok(TokenKind::RightBrace, 2, 24),
        tok(TokenKind::Eof, 0, 0),
    ];
    let mut state = state_of(tokens);
    let r = functions::method(
        &mut state,
        ClassishDefinitionType::Class(vec![]),
        vec![MethodFlag::Public],
    )
    .unwrap();
    match r {
        Statement::Method { name, body, .. } => {
            assert_eq!(name.name, "static");
            assert_eq!(name.span, sp(2, 14));
            assert!(body.is_empty());
        },
        other => panic!("unexpected statement: {:?}", other),
    }
}

#[test]
fn reserved_word_rejected_as_function_name() {
    let tokens = vec![
        tok(TokenKind::Function, 1, 1),
        tokv(TokenKind::Static, 1, 10, "static"),
        tok(TokenKind::LeftParen, 1, 16),
        tok(TokenKind::RightParen, 1, 17),
        tok(TokenKind::LeftBrace, 1, 19),
        tok(TokenKind::RightBrace, 1, 20),
        tok(TokenKind::Eof, 0, 0),
    ];
    let mut state = state_of(tokens);
    let r = functions::function(&mut state);
    assert_eq!(
        r,
        Err(ParseError::ExpectedToken(
            vec!["`identifier`".to_string()],
            Some("static".to_string()),
            sp(1, 10),
        ))
    );
}
