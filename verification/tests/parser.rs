use pulse::ast::ast::{Ast, Block, Fn, FnParam, FunctionType, Stmt, TypeAnnotation};
use pulse::ast::parser::Parser;
use pulse::error::PulseError;
use pulse::lexer::span::TextSpan;
use pulse::lexer::token::{Token, TokenKind};

/// Tokens with the given kinds and texts, one position apart, and the
/// end-of-file token after them.
fn tokens(parts: &[(TokenKind, &str)]) -> Vec<Token> {
    let mut out = Vec::new();
    let mut at = 0;
    for (kind, text) in parts {
        out.push(Token::new(*kind, TextSpan::new(at, at + text.len(), text.to_string())));
        at += text.len() + 1;
    }
    out.push(Token::new(TokenKind::EOF, TextSpan::new(at, at, String::new())));
    out
}

fn parse(parts: &[(TokenKind, &str)]) -> Result<Ast, PulseError> {
    let mut parser = Parser::new(tokens(parts));
    assert!(parser.is_well_formed());
    parser.parse()
}

fn expected(error: PulseError) -> (String, String, TextSpan) {
    match error {
        PulseError::ExpectedToken(what, message, span) => (what, message, span),
        other => panic!("expected an expected-token error, found {:?}", other),
    }
}

const FN: (TokenKind, &str) = (TokenKind::Fn, "fn");
const EXPORT: (TokenKind, &str) = (TokenKind::Export, "export");
const LP: (TokenKind, &str) = (TokenKind::LeftParen, "(");
const RP: (TokenKind, &str) = (TokenKind::RightParen, ")");
const LB: (TokenKind, &str) = (TokenKind::LeftBrace, "{");
const RB: (TokenKind, &str) = (TokenKind::RightBrace, "}");
const COLON: (TokenKind, &str) = (TokenKind::Colon, ":");
const ARROW: (TokenKind, &str) = (TokenKind::Arrow, "->");

fn id(text: &str) -> (TokenKind, &str) {
    (TokenKind::Identifier, text)
}

#[test]
fn empty_function_parses_to_one_declaration() {
    let source = [FN, id("main"), LP, RP, LB, RB];
    let all = tokens(&source);
    let mut parser = Parser::new(tokens(&source));
    let ast = parser.parse().expect("the function parses");
    let wanted = Ast {
        stmts: vec![Stmt::Fn(Fn {
            fn_token: all[0].clone(),
            name: "main".to_string(),
            params: vec![],
            body: Block { stmts: vec![] },
            exported: false,
            return_type: None,
        })],
    };
    assert_eq!(ast, wanted);
    assert_eq!(parser.current, 6);
    assert!(parser.is_eof());
}

#[test]
fn exported_function_is_marked() {
    let source = [EXPORT, FN, id("run"), LP, RP, LB, RB];
    let all = tokens(&source);
    let ast = parse(&source).expect("the function parses");
    assert_eq!(ast.stmts.len(), 1);
    let function = ast.stmts[0].as_function().expect("a function");
    assert!(function.exported);
    assert_eq!(function.name, "run");
    assert_eq!(function.fn_token, all[1]);
}

#[test]
fn return_type_is_read_after_the_arrow() {
    let source = [FN, id("answer"), LP, RP, ARROW, id("int"), LB, RB];
    let all = tokens(&source);
    let ast = parse(&source).expect("the function parses");
    let function = ast.stmts[0].as_function().expect("a function");
    assert_eq!(
        function.return_type,
        Some(FunctionType::new(all[4].clone(), all[5].clone()))
    );
}

#[test]
fn function_without_arrow_has_no_return_type() {
    let ast = parse(&[FN, id("f"), LP, RP, LB, RB]).expect("the function parses");
    assert!(ast.stmts[0].as_function().expect("a function").return_type.is_none());
}

#[test]
fn bare_type_without_arrow_is_refused() {
    let source = [FN, id("f"), LP, RP, id("int"), LB, RB];
    let all = tokens(&source);
    let (what, message, span) = expected(parse(&source).unwrap_err());
    assert_eq!(what, "arrow");
    assert_eq!(message, "Expected arrow");
    assert_eq!(span, all[4].span);
}

#[test]
fn arrow_without_type_is_refused() {
    let source = [FN, id("f"), LP, RP, ARROW, LB, RB];
    let all = tokens(&source);
    let (what, message, span) = expected(parse(&source).unwrap_err());
    assert_eq!(what, "Identifier");
    assert_eq!(message, "Expected token of kind: Identifier");
    assert_eq!(span, all[5].span);
}

#[test]
fn export_before_anything_but_fn_is_refused() {
    let source = [EXPORT, id("main"), LP, RP, LB, RB];
    let all = tokens(&source);
    let mut parser = Parser::new(tokens(&source));
    let (what, message, span) = expected(parser.parse().unwrap_err());
    assert_eq!(what, "function");
    assert_eq!(message, "You can only export functions");
    assert_eq!(span, all[1].span);
    assert_eq!(parser.current, 1);
}

#[test]
fn export_at_the_end_is_refused() {
    let source = [EXPORT];
    let all = tokens(&source);
    let (what, _, span) = expected(parse(&source).unwrap_err());
    assert_eq!(what, "function");
    assert_eq!(span, all[1].span);
}

#[test]
fn export_inside_a_body_is_refused() {
    let source = [FN, id("f"), LP, RP, LB, EXPORT, (TokenKind::Let, "let"), RB];
    let all = tokens(&source);
    let (what, message, span) = expected(parse(&source).unwrap_err());
    assert_eq!(what, "function");
    assert_eq!(message, "You can only export functions");
    assert_eq!(span, all[6].span);
}

#[test]
fn parameters_are_recorded_in_order() {
    let source = [
        FN,
        id("add"),
        LP,
        id("a"),
        COLON,
        id("int"),
        id("b"),
        COLON,
        id("float"),
        id("c"),
        COLON,
        id("bool"),
        RP,
        LB,
        RB,
    ];
    let all = tokens(&source);
    let ast = parse(&source).expect("the function parses");
    let function = ast.stmts[0].as_function().expect("a function");
    let wanted: Vec<FnParam> = (0..3)
        .map(|i| FnParam {
            ident: all[3 + 3 * i].clone(),
            type_annotation: TypeAnnotation {
                colon: all[4 + 3 * i].clone(),
                type_token: all[5 + 3 * i].clone(),
            },
        })
        .collect();
    assert_eq!(function.params, wanted);
    assert_eq!(function.params[0].ident.literal(), "a");
    assert_eq!(function.params[1].type_annotation.type_token.literal(), "float");
    assert_eq!(function.params[2].ident.literal(), "c");
}

#[test]
fn parse_params_stops_on_the_closing_parenthesis() {
    let source = [id("a"), COLON, id("int"), RP];
    let mut parser = Parser::new(tokens(&source));
    let params = parser.parse_params().expect("one parameter");
    assert_eq!(params.len(), 1);
    assert_eq!(parser.current, 3);
    assert_eq!(parser.peek().kind, TokenKind::RightParen);
}

#[test]
fn comma_between_parameters_is_refused() {
    let source = [
        FN,
        id("add"),
        LP,
        id("a"),
        COLON,
        id("int"),
        (TokenKind::Comma, ","),
        id("b"),
        COLON,
        id("int"),
        RP,
        LB,
        RB,
    ];
    let all = tokens(&source);
    let (what, message, span) = expected(parse(&source).unwrap_err());
    assert_eq!(what, "Identifier");
    assert_eq!(message, "Expected token of kind: Identifier");
    assert_eq!(span, all[6].span);
}

#[test]
fn parameter_without_type_is_refused() {
    let source = [FN, id("f"), LP, id("a"), RP, LB, RB];
    let all = tokens(&source);
    let (what, _, span) = expected(parse(&source).unwrap_err());
    assert_eq!(what, "Colon");
    assert_eq!(span, all[4].span);
}

#[test]
fn unclosed_parameter_list_fails_at_the_end() {
    let source = [FN, id("f"), LP, id("a"), COLON, id("int")];
    let all = tokens(&source);
    let (what, _, span) = expected(parse(&source).unwrap_err());
    assert_eq!(what, "RightParen");
    assert_eq!(span, all[6].span);
}

#[test]
fn missing_name_is_refused() {
    let source = [FN, LP, RP, LB, RB];
    let all = tokens(&source);
    let (what, message, span) = expected(parse(&source).unwrap_err());
    assert_eq!(what, "Identifier");
    assert_eq!(message, "Expected token of kind: Identifier");
    assert_eq!(span, all[1].span);
}

#[test]
fn missing_body_is_refused() {
    let source = [FN, id("f"), LP, RP];
    let all = tokens(&source);
    let (what, _, span) = expected(parse(&source).unwrap_err());
    assert_eq!(what, "LeftBrace");
    assert_eq!(span, all[4].span);
}

#[test]
fn unclosed_body_fails_at_the_end() {
    let source = [FN, id("f"), LP, RP, LB];
    let all = tokens(&source);
    let (what, _, span) = expected(parse(&source).unwrap_err());
    assert_eq!(what, "RightBrace");
    assert_eq!(span, all[5].span);
}

#[test]
fn functions_nest_in_bodies() {
    let source = [FN, id("outer"), LP, RP, LB, FN, id("inner"), LP, RP, LB, RB, RB];
    let ast = parse(&source).expect("both functions parse");
    assert_eq!(ast.stmts.len(), 1);
    let outer = ast.stmts[0].as_function().expect("a function");
    assert_eq!(outer.name, "outer");
    assert_eq!(outer.body.stmts.len(), 1);
    let inner = outer.body.stmts[0].as_function().expect("a function");
    assert_eq!(inner.name, "inner");
    assert!(inner.body.stmts.is_empty());
}

#[test]
fn functions_follow_each_other() {
    let source = [FN, id("a"), LP, RP, LB, RB, EXPORT, FN, id("b"), LP, RP, LB, RB];
    let ast = parse(&source).expect("both functions parse");
    let names: Vec<&str> = ast
        .stmts
        .iter()
        .map(|stmt| stmt.as_function().expect("a function").name.as_str())
        .collect();
    assert_eq!(names, vec!["a", "b"]);
    assert!(ast.stmts[1].as_function().expect("a function").exported);
}

#[test]
fn empty_program_parses_to_no_statement() {
    let ast = parse(&[]).expect("nothing to parse");
    assert_eq!(ast, Ast::new());
}

#[test]
fn other_statements_are_refused_loudly() {
    let source = [(TokenKind::Return, "return"), (TokenKind::Semicolon, ";")];
    let all = tokens(&source);
    let mut parser = Parser::new(tokens(&source));
    match parser.parse_stmt() {
        Err(PulseError::UnexpectedToken(kind, span)) => {
            assert_eq!(kind, "Return");
            assert_eq!(span, all[0].span);
        }
        other => panic!("expected an unexpected-token error, found {:?}", other),
    }
    assert_eq!(parser.current, 0);
}

#[test]
fn statement_in_a_body_that_is_no_function_is_refused() {
    let source = [FN, id("f"), LP, RP, LB, (TokenKind::If, "if"), RB];
    let all = tokens(&source);
    match parse(&source) {
        Err(PulseError::UnexpectedToken(kind, span)) => {
            assert_eq!(kind, "If");
            assert_eq!(span, all[5].span);
        }
        other => panic!("expected an unexpected-token error, found {:?}", other),
    }
}

#[test]
fn consume_hands_out_the_current_token_and_advances() {
    let source = [FN, id("f")];
    let all = tokens(&source);
    let mut parser = Parser::new(tokens(&source));
    assert_eq!(parser.peek(), all[0]);
    assert_eq!(parser.peek_kind(), TokenKind::Fn);
    assert_eq!(parser.consume(), all[0]);
    assert_eq!(parser.current, 1);
    assert_eq!(parser.previous(), all[0]);
    assert_eq!(parser.consume(), all[1]);
    assert_eq!(parser.current, 2);
    assert!(parser.is_eof());
}

#[test]
fn consume_at_the_end_stays_where_it_is() {
    let all = tokens(&[FN]);
    let mut parser = Parser::new(tokens(&[FN]));
    parser.consume();
    assert!(parser.is_eof());
    assert_eq!(parser.consume(), all[1]);
    assert_eq!(parser.current, 1);
    assert_eq!(parser.consume(), all[1]);
    assert_eq!(parser.current, 1);
}

#[test]
fn is_eof_holds_past_the_last_token() {
    let mut parser = Parser::new(vec![]);
    assert!(parser.is_eof());
    assert!(!parser.is_well_formed());
    parser.current = 3;
    assert!(parser.is_eof());
}

#[test]
fn tokens_without_the_end_of_file_token_are_not_well_formed() {
    let mut all = tokens(&[FN, id("f")]);
    all.pop();
    assert!(!Parser::new(all).is_well_formed());
}

#[test]
fn expect_consumes_a_token_of_the_kind() {
    let source = [COLON, id("int")];
    let all = tokens(&source);
    let mut parser = Parser::new(tokens(&source));
    assert_eq!(parser.expect(TokenKind::Colon).expect("a colon"), all[0]);
    assert_eq!(parser.current, 1);
}

#[test]
fn expect_leaves_a_token_of_another_kind() {
    let source = [COLON, id("int")];
    let all = tokens(&source);
    let mut parser = Parser::new(tokens(&source));
    let (what, message, span) = expected(parser.expect(TokenKind::Arrow).unwrap_err());
    assert_eq!(what, "Arrow");
    assert_eq!(message, "Expected token of kind: Arrow");
    assert_eq!(span, all[0].span);
    assert_eq!(parser.current, 0);
}

#[test]
fn type_annotation_is_a_colon_and_a_name() {
    let source = [COLON, id("string")];
    let all = tokens(&source);
    let mut parser = Parser::new(tokens(&source));
    let annotation = parser.parse_type_annotation().expect("an annotation");
    assert_eq!(
        annotation,
        TypeAnnotation { colon: all[0].clone(), type_token: all[1].clone() }
    );
    assert_eq!(parser.current, 2);
}

#[test]
fn block_stops_before_the_closing_brace() {
    let source = [FN, id("f"), LP, RP, LB, RB, RB];
    let mut parser = Parser::new(tokens(&source));
    let block = parser.parse_block().expect("a block");
    assert_eq!(block.stmts.len(), 1);
    assert_eq!(parser.current, 6);
    assert_eq!(parser.peek_kind(), TokenKind::RightBrace);
}

#[test]
fn parse_fn_records_the_fn_keyword() {
    let source = [FN, id("f"), LP, RP, LB, RB];
    let all = tokens(&source);
    let mut parser = Parser::new(tokens(&source));
    let stmt = parser.parse_fn().expect("a function");
    assert_eq!(stmt.as_function().expect("a function").fn_token, all[0]);
}

#[test]
fn parse_fn_asks_for_the_fn_keyword() {
    let source = [id("x"), id("f"), LP, RP, LB, RB];
    let all = tokens(&source);
    let mut parser = Parser::new(tokens(&source));
    let (what, message, span) = expected(parser.parse_fn().unwrap_err());
    assert_eq!(what, "Fn");
    assert_eq!(message, "Expected token of kind: Fn");
    assert_eq!(span, all[0].span);
    assert_eq!(parser.current, 0);
    let mut at_the_end = Parser::new(tokens(&[]));
    let (what, _, _) = expected(at_the_end.parse_fn().unwrap_err());
    assert_eq!(what, "Fn");
    let mut head_only = Parser::new(tokens(&source));
    let (what, _, span) = expected(head_only.parse_fn_head().unwrap_err());
    assert_eq!(what, "Fn");
    assert_eq!(span, all[0].span);
}
