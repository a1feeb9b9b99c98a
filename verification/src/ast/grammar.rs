use crate::ast::ast::{
    BlockView, FnParamView, FnView, FunctionTypeView, StmtView, TypeAnnotationView,
};
use crate::error::PulseErrorView;
use crate::lexer::span::TextSpanView;
use crate::lexer::token::{TokenKind, TokenView};
use vstd::prelude::*;

verus! {

/// What a grammar rule makes of the tokens from some position on: a value
/// and the position after it, or the first error and the position of the
/// token at fault.
pub enum Parse<T> {
    Done { value: T, next: int },
    Failed { error: PulseErrorView, at: int },
}

impl<T> Parse<T> {
    /// The rule read `value` and left the cursor at `next`.
    pub open spec fn gives(self, value: T, next: int) -> bool {
        self == (Parse::Done { value, next })
    }

    /// The rule met `error` with the cursor at `at`.
    pub open spec fn fails(self, error: PulseErrorView, at: int) -> bool {
        self == (Parse::<T>::Failed { error, at })
    }
}

/// The part of a function declaration that precedes its body.
pub struct FnHeadView {
    pub fn_token: TokenView,
    pub name: Seq<char>,
    pub params: Seq<FnParamView>,
    pub return_type: Option<FunctionTypeView>,
}

/// The kind of the token at `pos`. Every position outside the sequence
/// counts as the end of the file.
pub open spec fn kind_at(tokens: Seq<TokenView>, pos: int) -> TokenKind {
    if 0 <= pos < tokens.len() {
        tokens[pos].kind
    } else {
        TokenKind::EOF
    }
}

/// Whether nothing is left to read at `pos`.
pub open spec fn at_end(tokens: Seq<TokenView>, pos: int) -> bool {
    kind_at(tokens, pos) == TokenKind::EOF
}

/// The position after the token at `pos` has been consumed: the next one,
/// except at the end, where the cursor stays.
pub open spec fn after_consume(tokens: Seq<TokenView>, pos: int) -> int {
    if at_end(tokens, pos) {
        pos
    } else {
        pos + 1
    }
}

/// A token sequence as the tokenizer hands it over: not empty, and closed
/// by the end-of-file token.
pub open spec fn ends_with_eof(tokens: Seq<TokenView>) -> bool {
    tokens.len() > 0 && tokens[tokens.len() - 1].kind == TokenKind::EOF
}

/// The error for a token that is not of the kind the grammar asks for.
pub open spec fn expected_kind(kind: TokenKind, found: TextSpanView) -> PulseErrorView {
    PulseErrorView::ExpectedToken(
        kind.spec_name(),
        "Expected token of kind: "@ + kind.spec_name(),
        found,
    )
}

/// The error for a bare type name where `->` has to introduce it.
pub open spec fn expected_arrow(found: TextSpanView) -> PulseErrorView {
    PulseErrorView::ExpectedToken("arrow"@, "Expected arrow"@, found)
}

/// The error for `export` before anything but `fn`.
pub open spec fn only_functions_exported(found: TextSpanView) -> PulseErrorView {
    PulseErrorView::ExpectedToken("function"@, "You can only export functions"@, found)
}

/// The error for a token that starts no statement the grammar knows.
pub open spec fn no_statement_starts_with(kind: TokenKind, found: TextSpanView) -> PulseErrorView {
    PulseErrorView::UnexpectedToken(kind.spec_name(), found)
}

/// One token of the given kind.
pub open spec fn expect_at(tokens: Seq<TokenView>, pos: int, kind: TokenKind) -> Parse<TokenView> {
    if kind_at(tokens, pos) == kind {
        Parse::Done { value: tokens[pos], next: after_consume(tokens, pos) }
    } else {
        Parse::Failed { error: expected_kind(kind, tokens[pos].span), at: pos }
    }
}

/// `: type`.
pub open spec fn type_annotation_at(tokens: Seq<TokenView>, pos: int) -> Parse<
    TypeAnnotationView,
> {
    match expect_at(tokens, pos, TokenKind::Colon) {
        Parse::Failed { error, at } => Parse::Failed { error, at },
        Parse::Done { value: colon, next } => match expect_at(
            tokens,
            next,
            TokenKind::Identifier,
        ) {
            Parse::Failed { error, at } => Parse::Failed { error, at },
            Parse::Done { value: type_token, next } => Parse::Done {
                value: TypeAnnotationView { colon, type_token },
                next,
            },
        },
    }
}

/// One `name: type`.
pub open spec fn parameter_at(tokens: Seq<TokenView>, pos: int) -> Parse<FnParamView> {
    match expect_at(tokens, pos, TokenKind::Identifier) {
        Parse::Failed { error, at } => Parse::Failed { error, at },
        Parse::Done { value: ident, next } => match type_annotation_at(tokens, next) {
            Parse::Failed { error, at } => Parse::Failed { error, at },
            Parse::Done { value: type_annotation, next } => Parse::Done {
                value: FnParamView { ident, type_annotation },
                next,
            },
        },
    }
}

/// Whether the parameter list stops at `pos`: at `)` or at the end.
pub open spec fn parameters_stop(tokens: Seq<TokenView>, pos: int) -> bool {
    kind_at(tokens, pos) == TokenKind::RightParen || at_end(tokens, pos)
}

/// The parameters from `pos` up to where the list stops, appended to those
/// already read. Nothing separates one parameter from the next.
pub open spec fn parameters_from(
    tokens: Seq<TokenView>,
    pos: int,
    read: Seq<FnParamView>,
) -> Parse<Seq<FnParamView>>
    decreases tokens.len() - pos,
{
    if parameters_stop(tokens, pos) {
        Parse::Done { value: read, next: pos }
    } else {
        match parameter_at(tokens, pos) {
            Parse::Failed { error, at } => Parse::Failed { error, at },
            Parse::Done { value, next } => parameters_from(tokens, next, read.push(value)),
        }
    }
}

/// `-> type`, or nothing. A type name without the arrow is an error.
pub open spec fn return_type_at(tokens: Seq<TokenView>, pos: int) -> Parse<
    Option<FunctionTypeView>,
> {
    if kind_at(tokens, pos) == TokenKind::Identifier {
        Parse::Failed { error: expected_arrow(tokens[pos].span), at: pos }
    } else if kind_at(tokens, pos) == TokenKind::Arrow {
        match expect_at(tokens, pos + 1, TokenKind::Identifier) {
            Parse::Failed { error, at } => Parse::Failed { error, at },
            Parse::Done { value: type_token, next } => Parse::Done {
                value: Some(FunctionTypeView { arrow: tokens[pos], type_token }),
                next,
            },
        }
    } else {
        Parse::Done { value: None, next: pos }
    }
}

/// What follows the `fn` keyword of a function declaration, up to and
/// including the `{` of its body: the name, the parameters between
/// parentheses and the return type.
pub open spec fn function_signature_at(
    tokens: Seq<TokenView>,
    pos: int,
    fn_token: TokenView,
) -> Parse<FnHeadView> {
    match expect_at(tokens, pos, TokenKind::Identifier) {
        Parse::Failed { error, at } => Parse::Failed { error, at },
        Parse::Done { value: name, next } => match expect_at(tokens, next, TokenKind::LeftParen) {
            Parse::Failed { error, at } => Parse::Failed { error, at },
            Parse::Done { value: _, next } => match parameters_from(tokens, next, Seq::empty()) {
                Parse::Failed { error, at } => Parse::Failed { error, at },
                Parse::Done { value: params, next } => match expect_at(
                    tokens,
                    next,
                    TokenKind::RightParen,
                ) {
                    Parse::Failed { error, at } => Parse::Failed { error, at },
                    Parse::Done { value: _, next } => match return_type_at(tokens, next) {
                        Parse::Failed { error, at } => Parse::Failed { error, at },
                        Parse::Done { value: return_type, next } => match expect_at(
                            tokens,
                            next,
                            TokenKind::LeftBrace,
                        ) {
                            Parse::Failed { error, at } => Parse::Failed { error, at },
                            Parse::Done { value: _, next } => Parse::Done {
                                value: FnHeadView {
                                    fn_token,
                                    name: name.span.literal,
                                    params,
                                    return_type,
                                },
                                next,
                            },
                        },
                    },
                },
            },
        },
    }
}

/// A function declaration from its `fn` keyword, which has to stand at
/// `pos`, up to and including the `{` of its body.
pub open spec fn function_head_at(tokens: Seq<TokenView>, pos: int) -> Parse<FnHeadView> {
    match expect_at(tokens, pos, TokenKind::Fn) {
        Parse::Failed { error, at } => Parse::Failed { error, at },
        Parse::Done { value: fn_token, next } => function_signature_at(tokens, next, fn_token),
    }
}

/// A function declaration, with `export` before it or without. After
/// `export` anything but `fn` is refused as something that cannot be
/// exported; without it, anything but `fn` is refused as not being the
/// keyword.
pub open spec fn function_at(tokens: Seq<TokenView>, pos: int) -> Parse<StmtView>
    decreases tokens.len() - pos, 0int,
{
    let exported = kind_at(tokens, pos) == TokenKind::Export;
    let start = if exported {
        pos + 1
    } else {
        pos
    };
    if exported && kind_at(tokens, start) != TokenKind::Fn {
        Parse::Failed { error: only_functions_exported(tokens[start].span), at: start }
    } else {
        match function_head_at(tokens, start) {
            Parse::Failed { error, at } => Parse::Failed { error, at },
            Parse::Done { value: head, next } => {
                proof {
                    lemma_head_advances(tokens, start);
                }
                match block_at(tokens, next) {
                    Parse::Failed { error, at } => Parse::Failed { error, at },
                    Parse::Done { value: body, next } => match expect_at(
                        tokens,
                        next,
                        TokenKind::RightBrace,
                    ) {
                        Parse::Failed { error, at } => Parse::Failed { error, at },
                        Parse::Done { value: _, next } => Parse::Done {
                            value: StmtView::Fn(
                                FnView {
                                    fn_token: head.fn_token,
                                    name: head.name,
                                    params: head.params,
                                    body,
                                    exported,
                                    return_type: head.return_type,
                                },
                            ),
                            next,
                        },
                    },
                }
            },
        }
    }
}

/// One statement. Only a function declaration is a statement so far: any
/// other token is refused.
pub open spec fn statement_at(tokens: Seq<TokenView>, pos: int) -> Parse<StmtView>
    decreases tokens.len() - pos, 1int,
{
    if kind_at(tokens, pos) == TokenKind::Fn || kind_at(tokens, pos) == TokenKind::Export {
        function_at(tokens, pos)
    } else {
        Parse::Failed {
            error: no_statement_starts_with(kind_at(tokens, pos), tokens[pos].span),
            at: pos,
        }
    }
}

/// Whether a block's statements stop at `pos`: at `}` or at the end.
pub open spec fn block_stops(tokens: Seq<TokenView>, pos: int) -> bool {
    kind_at(tokens, pos) == TokenKind::RightBrace || at_end(tokens, pos)
}

/// The statements of a block from `pos` up to where the block stops,
/// appended to those already read.
///
/// A statement holds at least one token and ends inside the sequence
/// (`lemma_statement_advances`), so the second branch of the inner test is
/// never taken; it is there for the recursion to be well founded by its
/// form.
pub open spec fn block_statements_from(
    tokens: Seq<TokenView>,
    pos: int,
    read: Seq<StmtView>,
) -> Parse<Seq<StmtView>>
    decreases tokens.len() - pos, 2int,
{
    if block_stops(tokens, pos) {
        Parse::Done { value: read, next: pos }
    } else {
        match statement_at(tokens, pos) {
            Parse::Failed { error, at } => Parse::Failed { error, at },
            Parse::Done { value, next } => if pos < next <= tokens.len() {
                block_statements_from(tokens, next, read.push(value))
            } else {
                Parse::Done { value: read.push(value), next }
            },
        }
    }
}

/// The statements between the braces of a block.
pub open spec fn block_at(tokens: Seq<TokenView>, pos: int) -> Parse<BlockView>
    decreases tokens.len() - pos, 3int,
{
    match block_statements_from(tokens, pos, Seq::empty()) {
        Parse::Failed { error, at } => Parse::Failed { error, at },
        Parse::Done { value: stmts, next } => Parse::Done { value: BlockView { stmts }, next },
    }
}

/// The parameter list never moves the cursor back.
pub proof fn lemma_parameters_advance(tokens: Seq<TokenView>, pos: int, read: Seq<FnParamView>)
    ensures
        parameters_from(tokens, pos, read) matches Parse::Done { next, .. } ==> next >= pos,
    decreases tokens.len() - pos,
{
    if !parameters_stop(tokens, pos) {
        if let Parse::Done { value, next } = parameter_at(tokens, pos) {
            lemma_parameters_advance(tokens, next, read.push(value));
        }
    }
}

/// The head of a function declaration holds at least one token.
pub proof fn lemma_head_advances(tokens: Seq<TokenView>, pos: int)
    ensures
        function_head_at(tokens, pos) matches Parse::Done { next, .. } ==> next > pos,
{
    if let Parse::Done { value: _, next } = expect_at(tokens, pos, TokenKind::Fn) {
        if let Parse::Done { value: _, next } = expect_at(tokens, next, TokenKind::Identifier) {
            if let Parse::Done { value: _, next } = expect_at(tokens, next, TokenKind::LeftParen) {
                lemma_parameters_advance(tokens, next, Seq::empty());
            }
        }
    }
}

/// A function declaration holds at least one token and ends inside the
/// sequence.
pub proof fn lemma_function_advances(tokens: Seq<TokenView>, pos: int)
    ensures
        function_at(tokens, pos) matches Parse::Done { next, .. } ==> pos < next <= tokens.len(),
    decreases tokens.len() - pos, 0int,
{
    let start = if kind_at(tokens, pos) == TokenKind::Export {
        pos + 1
    } else {
        pos
    };
    lemma_head_advances(tokens, start);
    if let Parse::Done { value: _, next } = function_head_at(tokens, start) {
        lemma_block_advances(tokens, next, Seq::empty());
    }
}

/// A statement holds at least one token and ends inside the sequence.
pub proof fn lemma_statement_advances(tokens: Seq<TokenView>, pos: int)
    ensures
        statement_at(tokens, pos) matches Parse::Done { next, .. } ==> pos < next <= tokens.len(),
    decreases tokens.len() - pos, 1int,
{
    if kind_at(tokens, pos) == TokenKind::Fn || kind_at(tokens, pos) == TokenKind::Export {
        lemma_function_advances(tokens, pos);
    }
}

/// The statements of a block never move the cursor back.
pub proof fn lemma_block_advances(tokens: Seq<TokenView>, pos: int, read: Seq<StmtView>)
    ensures
        block_statements_from(tokens, pos, read) matches Parse::Done { next, .. } ==> pos <= next,
    decreases tokens.len() - pos, 2int,
{
    if !block_stops(tokens, pos) {
        lemma_statement_advances(tokens, pos);
        if let Parse::Done { value, next } = statement_at(tokens, pos) {
            lemma_block_advances(tokens, next, read.push(value));
        }
    }
}

/// The statements of a program from `pos` up to the end of the file,
/// appended to those already read.
pub open spec fn program_from(tokens: Seq<TokenView>, pos: int, read: Seq<StmtView>) -> Parse<
    Seq<StmtView>,
>
    decreases tokens.len() - pos,
{
    if at_end(tokens, pos) {
        Parse::Done { value: read, next: pos }
    } else {
        match statement_at(tokens, pos) {
            Parse::Failed { error, at } => Parse::Failed { error, at },
            Parse::Done { value, next } => {
                proof {
                    lemma_statement_advances(tokens, pos);
                }
                program_from(tokens, next, read.push(value))
            },
        }
    }
}

} // verus!
