use pulse::error::PulseError;
use pulse::lexer::lexer::{double_symbol_of, keyword_of, single_symbol_of, Lexer};
use pulse::lexer::rules::CharClass;
use pulse::lexer::span::TextSpan;
use pulse::lexer::token::{Token, TokenKind};
use pulse::project::build_source;

fn lex(source: &str) -> Result<Vec<Token>, PulseError> {
    Lexer::from_source(source.to_string()).lex()
}

fn kinds(source: &str) -> Vec<TokenKind> {
    lex(source).expect("tokens").iter().map(|token| token.kind).collect()
}

fn texts(source: &str) -> Vec<String> {
    lex(source).expect("tokens").iter().map(|token| token.literal()).collect()
}

fn invalid(source: &str) -> (String, TextSpan) {
    match lex(source) {
        Err(PulseError::InvalidToken(text, span)) => (text, span),
        other => panic!("expected an invalid token, found {:?}", other),
    }
}

#[test]
fn empty_text_is_the_end_of_file_token() {
    let tokens = lex("").expect("tokens");
    assert_eq!(tokens, vec![Token::new(TokenKind::EOF, TextSpan::new(0, 0, String::new()))]);
}

#[test]
fn blank_text_is_the_end_of_file_token() {
    let tokens = lex(" \t\r\n  ").expect("tokens");
    assert_eq!(tokens, vec![Token::new(TokenKind::EOF, TextSpan::new(6, 6, String::new()))]);
}

#[test]
fn tokens_carry_their_spans() {
    let tokens = lex("fn  main()").expect("tokens");
    let wanted = vec![
        Token::new(TokenKind::Fn, TextSpan::new(0, 2, "fn".to_string())),
        Token::new(TokenKind::Identifier, TextSpan::new(4, 8, "main".to_string())),
        Token::new(TokenKind::LeftParen, TextSpan::new(8, 9, "(".to_string())),
        Token::new(TokenKind::RightParen, TextSpan::new(9, 10, ")".to_string())),
        Token::new(TokenKind::EOF, TextSpan::new(10, 10, String::new())),
    ];
    assert_eq!(tokens, wanted);
}

#[test]
fn spans_count_characters_and_not_bytes() {
    let tokens = lex("\"é\" x").expect("tokens");
    assert_eq!(tokens[0], Token::new(TokenKind::String, TextSpan::new(0, 3, "\"é\"".to_string())));
    assert_eq!(tokens[1], Token::new(TokenKind::Identifier, TextSpan::new(4, 5, "x".to_string())));
}

#[test]
fn keywords_are_told_from_names() {
    assert_eq!(
        kinds("fn let if else while for in return break continue use export true false null"),
        vec![
            TokenKind::Fn,
            TokenKind::Let,
            TokenKind::If,
            TokenKind::Else,
            TokenKind::While,
            TokenKind::For,
            TokenKind::In,
            TokenKind::Return,
            TokenKind::Break,
            TokenKind::Continue,
            TokenKind::Use,
            TokenKind::Export,
            TokenKind::True,
            TokenKind::False,
            TokenKind::Null,
            TokenKind::EOF,
        ]
    );
    assert_eq!(
        kinds("fns _fn Fn iff in_ x1 _"),
        vec![
            TokenKind::Identifier,
            TokenKind::Identifier,
            TokenKind::Identifier,
            TokenKind::Identifier,
            TokenKind::Identifier,
            TokenKind::Identifier,
            TokenKind::Identifier,
            TokenKind::EOF,
        ]
    );
    assert_eq!(keyword_of("export"), Some(TokenKind::Export));
    assert_eq!(keyword_of("exports"), None);
    assert_eq!(keyword_of(""), None);
}

#[test]
fn numbers_are_integers_or_rationals() {
    assert_eq!(kinds("0 42 3.14 007"), vec![
        TokenKind::Integer,
        TokenKind::Integer,
        TokenKind::Rational,
        TokenKind::Integer,
        TokenKind::EOF,
    ]);
    assert_eq!(texts("3.14"), vec!["3.14", ""]);
    assert_eq!(kinds("1."), vec![TokenKind::Integer, TokenKind::Dot, TokenKind::EOF]);
    assert_eq!(kinds("1.x"), vec![
        TokenKind::Integer,
        TokenKind::Dot,
        TokenKind::Identifier,
        TokenKind::EOF,
    ]);
    assert_eq!(kinds("1.2.3"), vec![
        TokenKind::Rational,
        TokenKind::Dot,
        TokenKind::Integer,
        TokenKind::EOF,
    ]);
    assert_eq!(texts("12ab"), vec!["12", "ab", ""]);
}

#[test]
fn strings_run_to_the_next_quote() {
    assert_eq!(texts("\"Hello, World!\" x"), vec!["\"Hello, World!\"", "x", ""]);
    assert_eq!(kinds("\"\""), vec![TokenKind::String, TokenKind::EOF]);
    assert_eq!(kinds("\"a // b\nc\""), vec![TokenKind::String, TokenKind::EOF]);
}

#[test]
fn string_without_its_closing_quote_is_invalid() {
    let (text, span) = invalid("x \"abc");
    assert_eq!(text, "\"abc");
    assert_eq!(span, TextSpan::new(2, 6, "\"abc".to_string()));
}

#[test]
fn symbols_of_two_characters_come_before_those_of_one() {
    assert_eq!(kinds("-> ** >= <= == != && || ++ -- -= +="), vec![
        TokenKind::Arrow,
        TokenKind::DoubleAsterisk,
        TokenKind::GreaterThanEquals,
        TokenKind::LessThanEquals,
        TokenKind::EqualsEquals,
        TokenKind::BangEquals,
        TokenKind::And,
        TokenKind::Or,
        TokenKind::Increment,
        TokenKind::Decrement,
        TokenKind::MinusEquals,
        TokenKind::PlusEquals,
        TokenKind::EOF,
    ]);
    assert_eq!(kinds("( ) { } [ ] , . : ; + - * / = & | ^ % ~ > < !"), vec![
        TokenKind::LeftParen,
        TokenKind::RightParen,
        TokenKind::LeftBrace,
        TokenKind::RightBrace,
        TokenKind::LeftBracket,
        TokenKind::RightBracket,
        TokenKind::Comma,
        TokenKind::Dot,
        TokenKind::Colon,
        TokenKind::Semicolon,
        TokenKind::Plus,
        TokenKind::Minus,
        TokenKind::Asterisk,
        TokenKind::Slash,
        TokenKind::Equals,
        TokenKind::Ampersand,
        TokenKind::Pipe,
        TokenKind::Caret,
        TokenKind::Percent,
        TokenKind::Tilde,
        TokenKind::GreaterThan,
        TokenKind::LessThan,
        TokenKind::Bang,
        TokenKind::EOF,
    ]);
    assert_eq!(kinds("a->b"), vec![
        TokenKind::Identifier,
        TokenKind::Arrow,
        TokenKind::Identifier,
        TokenKind::EOF,
    ]);
    assert_eq!(kinds("==="), vec![TokenKind::EqualsEquals, TokenKind::Equals, TokenKind::EOF]);
    assert_eq!(kinds("-"), vec![TokenKind::Minus, TokenKind::EOF]);
    assert_eq!(double_symbol_of('-', '>'), Some(TokenKind::Arrow));
    assert_eq!(double_symbol_of('>', '-'), None);
    assert_eq!(single_symbol_of('~'), Some(TokenKind::Tilde));
    assert_eq!(single_symbol_of('@'), None);
}

#[test]
fn comments_run_to_the_end_of_their_line() {
    assert_eq!(kinds("a // b c\n d"), vec![
        TokenKind::Identifier,
        TokenKind::Identifier,
        TokenKind::EOF,
    ]);
    assert_eq!(kinds("// only this"), vec![TokenKind::EOF]);
    assert_eq!(kinds("a / b"), vec![
        TokenKind::Identifier,
        TokenKind::Slash,
        TokenKind::Identifier,
        TokenKind::EOF,
    ]);
    assert_eq!(kinds("// one\n// two\n\n  // three\nx"), vec![TokenKind::Identifier, TokenKind::EOF]);
    let tokens = lex("a//b").expect("tokens");
    assert_eq!(tokens[1], Token::new(TokenKind::EOF, TextSpan::new(4, 4, String::new())));
}

#[test]
fn character_that_starts_no_token_is_invalid() {
    let (text, span) = invalid("let x = @;");
    assert_eq!(text, "@");
    assert_eq!(span, TextSpan::new(8, 9, "@".to_string()));
    let (text, _) = invalid("é");
    assert_eq!(text, "é");
    let (text, span) = invalid("a #b $c");
    assert_eq!(text, "#");
    assert_eq!(span.start, 2);
}

#[test]
fn runs_and_blanks() {
    let lexer = Lexer::from_source("ab12  // c\n x".to_string());
    assert_eq!(lexer.len(), 13);
    assert_eq!(lexer.run(0, CharClass::Word), 4);
    assert_eq!(lexer.run(0, CharClass::Digit), 0);
    assert_eq!(lexer.run(2, CharClass::Digit), 4);
    assert_eq!(lexer.run(4, CharClass::Blank), 6);
    assert_eq!(lexer.run(6, CharClass::InLine), 10);
    assert_eq!(lexer.run(0, CharClass::InString), 13);
    assert_eq!(lexer.run(13, CharClass::Word), 13);
    assert_eq!(lexer.skip_blanks(4), 12);
    assert_eq!(lexer.skip_blanks(0), 0);
    assert_eq!(lexer.skip_blanks(13), 13);
    assert_eq!(lexer.piece(2, 4), TextSpan::new(2, 4, "12".to_string()));
    assert_eq!(lexer.lexeme(0).expect("a word"), (TokenKind::Identifier, 4));
    assert_eq!(lexer.lexeme(2).expect("a number"), (TokenKind::Integer, 4));
}

#[test]
fn character_classes() {
    for c in [' ', '\t', '\n', '\r'] {
        assert!(CharClass::Blank.accepts(c));
    }
    assert!(!CharClass::Blank.accepts('a'));
    assert!(CharClass::Digit.accepts('0') && CharClass::Digit.accepts('9'));
    assert!(!CharClass::Digit.accepts('a') && !CharClass::Digit.accepts('/'));
    for c in ['a', 'z', 'A', 'Z', '_', '5'] {
        assert!(CharClass::Word.accepts(c));
    }
    assert!(!CharClass::Word.accepts('-') && !CharClass::Word.accepts('é'));
    assert!(CharClass::InLine.accepts('"') && !CharClass::InLine.accepts('\n'));
    assert!(CharClass::InString.accepts('\n') && !CharClass::InString.accepts('"'));
}

#[test]
fn source_of_a_function_goes_through_the_whole_front_end() {
    let ast = build_source("// the entry point\nexport fn main() -> int {\n}\n".to_string())
        .expect("sound");
    let function = ast.stmts[0].as_function().expect("a function");
    assert_eq!(function.name, "main");
    assert!(function.exported);
    assert_eq!(function.fn_token.span, TextSpan::new(26, 28, "fn".to_string()));
}

#[test]
fn source_with_an_invalid_character_fails_in_the_tokenizer() {
    match build_source("fn main() { $ }".to_string()) {
        Err(PulseError::InvalidToken(text, span)) => {
            assert_eq!(text, "$");
            assert_eq!(span.start, 12);
        }
        other => panic!("expected an invalid token, found {:?}", other),
    }
}

#[test]
fn source_with_a_statement_that_is_no_function_fails_in_the_parser() {
    match build_source("fn main() {\n    println(\"Hello, World!\");\n}\n".to_string()) {
        Err(PulseError::UnexpectedToken(kind, span)) => {
            assert_eq!(kind, "Identifier");
            assert_eq!(span, TextSpan::new(16, 23, "println".to_string()));
        }
        other => panic!("expected an unexpected token, found {:?}", other),
    }
}

#[test]
fn source_with_commas_between_parameters_fails_in_the_parser() {
    match build_source("fn add(a: int, b: int) -> int { }".to_string()) {
        Err(PulseError::ExpectedToken(what, _, span)) => {
            assert_eq!(what, "Identifier");
            assert_eq!(span, TextSpan::new(13, 14, ",".to_string()));
        }
        other => panic!("expected an expected-token error, found {:?}", other),
    }
}

#[test]
fn source_with_two_functions_of_one_name_fails_in_the_resolver() {
    match build_source("fn f() { }\nfn f() { }".to_string()) {
        Err(PulseError::ResolverError(message)) => {
            assert_eq!(message, "Duplicate declaration of 'f'");
        }
        other => panic!("expected a resolver error, found {:?}", other),
    }
}
