use pulse::ast::ast::{
    Ast, BinOp, Block, Expr, Fn, FunctionType, Literal, LiteralType, Stmt, Variable,
};
use pulse::error::PulseError;
use pulse::lexer::span::TextSpan;
use pulse::lexer::token::{Token, TokenKind};
use pulse::project::{build, ProjectType};

fn tok(kind: TokenKind, at: usize, text: &str) -> Token {
    Token::new(kind, TextSpan::new(at, at + text.len(), text.to_string()))
}

fn source(parts: &[(TokenKind, &str)]) -> Vec<Token> {
    let mut out = Vec::new();
    let mut at = 0;
    for (kind, text) in parts {
        out.push(tok(*kind, at, text));
        at += text.len() + 1;
    }
    out.push(tok(TokenKind::EOF, at, ""));
    out
}

// Spans and tokens.

#[test]
fn span_holds_what_it_is_made_of() {
    let span = TextSpan::new(3, 8, "hello".to_string());
    assert_eq!(span.start, 3);
    assert_eq!(span.end, 8);
    assert_eq!(span.literal, "hello");
    assert_eq!(span.length(), 5);
    assert_eq!(span.clone(), span);
}

#[test]
fn span_that_ends_before_it_starts_has_no_length() {
    assert_eq!(TextSpan::new(8, 3, String::new()).length(), 0);
    assert_eq!(TextSpan::new(4, 4, String::new()).length(), 0);
}

#[test]
fn token_holds_its_kind_and_span() {
    let token = Token::new(TokenKind::Identifier, TextSpan::new(0, 3, "abc".to_string()));
    assert_eq!(token.kind, TokenKind::Identifier);
    assert_eq!(token.literal(), "abc");
    assert_eq!(token.clone(), token);
    assert_ne!(token, tok(TokenKind::String, 0, "abc"));
    assert_ne!(token, tok(TokenKind::Identifier, 1, "abc"));
}

#[test]
fn kinds_are_named_after_their_variants() {
    assert_eq!(TokenKind::LeftParen.name(), "LeftParen");
    assert_eq!(TokenKind::Arrow.name(), "Arrow");
    assert_eq!(TokenKind::Identifier.name(), "Identifier");
    assert_eq!(TokenKind::Rational.name(), "Rational");
    assert_eq!(TokenKind::Fn.name(), "Fn");
    assert_eq!(TokenKind::Export.name(), "Export");
    assert_eq!(TokenKind::DoubleAsterisk.name(), "DoubleAsterisk");
    assert_eq!(TokenKind::PlusEquals.name(), "PlusEquals");
    assert_eq!(TokenKind::EOF.name(), "EOF");
    assert_eq!(TokenKind::Comment.name(), "Comment");
    assert_eq!(format!("{:?}", TokenKind::GreaterThanEquals), TokenKind::GreaterThanEquals.name());
}

#[test]
fn operators_are_named_after_their_variants() {
    assert_eq!(BinOp::Plus.name(), "Plus");
    assert_eq!(BinOp::DoubleAsterisk.name(), "DoubleAsterisk");
    assert_eq!(BinOp::BangEquals.name(), "BangEquals");
    assert_eq!(format!("{:?}", BinOp::LessThanEquals), BinOp::LessThanEquals.name());
}

// The tree.

#[test]
fn new_ast_is_empty() {
    assert!(Ast::new().stmts.is_empty());
}

#[test]
fn new_fn_wraps_a_declaration() {
    let stmt = Stmt::new_fn(
        tok(TokenKind::Fn, 0, "fn"),
        "f".to_string(),
        vec![],
        Block { stmts: vec![] },
        true,
        Some(FunctionType::new(tok(TokenKind::Arrow, 5, "->"), tok(TokenKind::Identifier, 8, "int"))),
    );
    let wanted = Fn {
        fn_token: tok(TokenKind::Fn, 0, "fn"),
        name: "f".to_string(),
        params: vec![],
        body: Block { stmts: vec![] },
        exported: true,
        return_type: Some(FunctionType {
            arrow: tok(TokenKind::Arrow, 5, "->"),
            type_token: tok(TokenKind::Identifier, 8, "int"),
        }),
    };
    assert_eq!(stmt, Stmt::Fn(wanted));
}

#[test]
fn as_function_gives_nothing_for_other_statements() {
    let stmt = Stmt::Expr(Box::new(Expr::Variable(Variable {
        ident: "x".to_string(),
        token: tok(TokenKind::Identifier, 0, "x"),
    })));
    assert!(stmt.as_function().is_none());
    assert!(Stmt::Block(Block { stmts: vec![] }).as_function().is_none());
}

#[test]
fn rational_literal_holds_the_bits_of_its_value() {
    let literal = Literal {
        token: tok(TokenKind::Rational, 0, "2.5"),
        value: LiteralType::Rational(2.5f64.to_bits()),
    };
    match literal.value {
        LiteralType::Rational(bits) => assert_eq!(f64::from_bits(bits), 2.5),
        other => panic!("expected a rational, found {:?}", other),
    }
}

#[test]
fn clones_are_equal_to_what_they_are_taken_from() {
    let call = Expr::Call(pulse::ast::ast::CallExpr {
        callee: "f".to_string(),
        args: vec![
            Expr::Literal(Literal {
                token: tok(TokenKind::String, 2, "hi"),
                value: LiteralType::String("hi".to_string()),
            }),
            Expr::Binary(pulse::ast::ast::Binary {
                left: Box::new(Expr::Variable(Variable {
                    ident: "x".to_string(),
                    token: tok(TokenKind::Identifier, 6, "x"),
                })),
                operator: BinOp::Percent,
                right: Box::new(Expr::Literal(Literal {
                    token: tok(TokenKind::Integer, 10, "2"),
                    value: LiteralType::Int(2),
                })),
                token: tok(TokenKind::Percent, 8, "%"),
            }),
        ],
        token: tok(TokenKind::Identifier, 0, "f"),
    });
    assert_eq!(call.clone(), call);
    let conditional = pulse::ast::ast::If {
        if_token: tok(TokenKind::If, 0, "if"),
        condition: Box::new(call.clone()),
        then_block: Block { stmts: vec![Stmt::Expr(Box::new(call.clone()))] },
        else_ifs: vec![pulse::ast::ast::ElseIf {
            else_if_token: tok(TokenKind::Else, 20, "else"),
            condition: Box::new(call.clone()),
            block: Block { stmts: vec![] },
        }],
        else_block: Some(Block {
            stmts: vec![Stmt::Return(pulse::ast::ast::Return {
                return_token: tok(TokenKind::Return, 30, "return"),
                expr: Some(Box::new(call.clone())),
            })],
        }),
    };
    let function = Fn {
        fn_token: tok(TokenKind::Fn, 0, "fn"),
        name: "f".to_string(),
        params: vec![pulse::ast::ast::FnParam {
            ident: tok(TokenKind::Identifier, 5, "a"),
            type_annotation: pulse::ast::ast::TypeAnnotation {
                colon: tok(TokenKind::Colon, 6, ":"),
                type_token: tok(TokenKind::Identifier, 8, "int"),
            },
        }],
        body: Block {
            stmts: vec![
                Stmt::If(conditional),
                Stmt::Import(pulse::ast::ast::Import {
                    import_token: tok(TokenKind::Use, 40, "use"),
                    from: tok(TokenKind::Identifier, 44, "std"),
                    items: vec![tok(TokenKind::Identifier, 48, "print")],
                }),
            ],
        },
        exported: true,
        return_type: None,
    };
    let ast = Ast { stmts: vec![Stmt::Fn(function)] };
    let copy = ast.clone();
    assert_eq!(copy, ast);
    assert_eq!(copy.stmts[0].as_function().expect("a function").body.stmts.len(), 2);
}

// Errors.

#[test]
fn errors_have_their_messages() {
    let span = TextSpan::new(0, 1, "x".to_string());
    let cases = vec![
        (
            PulseError::ProjectNotFound,
            "Couldn't find pulse.toml in current directory or any parent directory",
        ),
        (PulseError::ProjectAlreadyExists, "Project at this path already exists"),
        (
            PulseError::InvalidProjectStructure,
            "Invalid project structure. Expected src/main.pulse or src/lib.pulse",
        ),
        (
            PulseError::MultipleEntryPoints,
            "Found both src/main.pulse and src/lib.pulse. Only one is allowed",
        ),
        (PulseError::InvalidToken("@".to_string(), span.clone()), "Invalid token: @"),
        (
            PulseError::ExpectedToken("arrow".to_string(), "Expected arrow".to_string(), span.clone()),
            "Expected arrow.",
        ),
        (PulseError::UnexpectedToken("Return".to_string(), span.clone()), "Unexpected token: Return"),
        (PulseError::SemanticError("Undefined variable 'x'".to_string(), span.clone()), "Undefined variable 'x'"),
        (
            PulseError::ResolverError("Duplicate declaration of 'x'".to_string()),
            "Semantic error: Duplicate declaration of 'x'",
        ),
    ];
    for (error, wanted) in cases {
        assert_eq!(error.message(), wanted);
    }
}

#[test]
fn io_error_message_starts_with_its_prefix() {
    let cause = std::io::Error::new(std::io::ErrorKind::NotFound, "no such file");
    let error = PulseError::Io(cause);
    assert_eq!(error.message(), "IO error: no such file");
    assert!(error.span().is_none());
}

#[test]
fn errors_point_at_their_spans() {
    let span = TextSpan::new(4, 9, "ghost".to_string());
    assert_eq!(PulseError::InvalidToken("@".to_string(), span.clone()).span(), Some(span.clone()));
    assert_eq!(
        PulseError::ExpectedToken("a".to_string(), "b".to_string(), span.clone()).span(),
        Some(span.clone())
    );
    assert_eq!(PulseError::UnexpectedToken("a".to_string(), span.clone()).span(), Some(span.clone()));
    assert_eq!(PulseError::SemanticError("a".to_string(), span.clone()).span(), Some(span));
    assert_eq!(PulseError::ResolverError("a".to_string()).span(), None);
    assert_eq!(PulseError::ProjectNotFound.span(), None);
    assert_eq!(PulseError::MultipleEntryPoints.span(), None);
}

// Projects.

#[test]
fn project_types_name_their_entry_points() {
    assert_eq!(ProjectType::Binary.file_name(), "main.pulse");
    assert_eq!(ProjectType::Library.file_name(), "lib.pulse");
}

#[test]
fn project_type_follows_the_entry_point_found() {
    assert_eq!(ProjectType::from_entry_points(true, false).expect("a program"), ProjectType::Binary);
    assert_eq!(ProjectType::from_entry_points(false, true).expect("a library"), ProjectType::Library);
    assert!(matches!(
        ProjectType::from_entry_points(true, true),
        Err(PulseError::MultipleEntryPoints)
    ));
    assert!(matches!(
        ProjectType::from_entry_points(false, false),
        Err(PulseError::InvalidProjectStructure)
    ));
}

#[test]
fn build_hands_back_the_tree_of_a_sound_program() {
    let tokens = source(&[
        (TokenKind::Fn, "fn"),
        (TokenKind::Identifier, "id"),
        (TokenKind::LeftParen, "("),
        (TokenKind::Identifier, "a"),
        (TokenKind::Colon, ":"),
        (TokenKind::Identifier, "int"),
        (TokenKind::RightParen, ")"),
        (TokenKind::Arrow, "->"),
        (TokenKind::Identifier, "int"),
        (TokenKind::LeftBrace, "{"),
        (TokenKind::RightBrace, "}"),
    ]);
    let ast = build(tokens).expect("sound");
    assert_eq!(ast.stmts.len(), 1);
    assert_eq!(ast.stmts[0].as_function().expect("a function").name, "id");
}

#[test]
fn build_reports_the_parser_first() {
    let tokens = source(&[(TokenKind::Export, "export"), (TokenKind::Let, "let")]);
    match build(tokens) {
        Err(PulseError::ExpectedToken(what, message, _)) => {
            assert_eq!(what, "function");
            assert_eq!(message, "You can only export functions");
        }
        other => panic!("expected an expected-token error, found {:?}", other),
    }
}

#[test]
fn build_reports_the_resolver_after_the_parser() {
    let function = [
        (TokenKind::Fn, "fn"),
        (TokenKind::Identifier, "twice"),
        (TokenKind::LeftParen, "("),
        (TokenKind::RightParen, ")"),
        (TokenKind::LeftBrace, "{"),
        (TokenKind::RightBrace, "}"),
    ];
    let mut parts = function.to_vec();
    parts.extend_from_slice(&function);
    match build(source(&parts)) {
        Err(PulseError::ResolverError(message)) => {
            assert_eq!(message, "Duplicate declaration of 'twice'");
        }
        other => panic!("expected a resolver error, found {:?}", other),
    }
}
