use crate::ast::ast::{
    lemma_stmts_view, params_view, Ast, Block, FnParam, FnParamView, FunctionType, Stmt, StmtView,
    TypeAnnotation,
};
use crate::ast::grammar::{
    after_consume, at_end, block_at, block_statements_from, ends_with_eof, expect_at,
    function_at, function_head_at, kind_at, lemma_head_advances, lemma_statement_advances,
    parameters_from, program_from, return_type_at, statement_at, type_annotation_at, FnHeadView,
};
use crate::error::PulseError;
use crate::lexer::token::{tokens_view, Token, TokenKind, TokenView};
use vstd::prelude::*;
use vstd::string::StringExecFns;

verus! {

/// A cursor over a token sequence.
#[derive(Debug)]
pub struct Parser {
    pub tokens: Vec<Token>,
    pub current: usize,
}

/// The mathematical value of a [`Parser`]: the tokens and the position of
/// the cursor among them.
pub struct ParserView {
    pub tokens: Seq<TokenView>,
    pub current: int,
}

impl View for Parser {
    type V = ParserView;

    open spec fn view(&self) -> ParserView {
        ParserView { tokens: tokens_view(self.tokens), current: self.current as int }
    }
}

impl Parser {
    /// The tokens end with the end-of-file token and the cursor stands on
    /// one of them. Every parsing function keeps this.
    pub open spec fn wf(&self) -> bool {
        &&& ends_with_eof(self@.tokens)
        &&& self@.current < self@.tokens.len()
    }

    pub fn new(tokens: Vec<Token>) -> (parser: Self)
        ensures
            parser.tokens == tokens,
            parser@.current == 0,
            ends_with_eof(parser@.tokens) ==> parser.wf(),
    {
        Self { tokens, current: 0 }
    }

    /// Tests what the parsing functions require.
    pub fn is_well_formed(&self) -> (ok: bool)
        ensures
            ok == self.wf(),
    {
        let len = self.tokens.len();
        len > 0 && self.tokens[len - 1].kind == TokenKind::EOF && self.current < len
    }

    /// Whether nothing is left to read: the cursor is past the last token
    /// or stands on the end-of-file token.
    pub fn is_eof(&self) -> (eof: bool)
        ensures
            eof == at_end(self@.tokens, self@.current),
    {
        self.current >= self.tokens.len() || self.tokens[self.current].kind == TokenKind::EOF
    }

    /// The token under the cursor.
    pub fn peek(&self) -> (token: Token)
        requires
            self@.current < self@.tokens.len(),
        ensures
            token@ == self@.tokens[self@.current],
    {
        self.tokens[self.current].clone()
    }

    /// The kind of the token under the cursor.
    pub fn peek_kind(&self) -> (kind: TokenKind)
        requires
            self@.current < self@.tokens.len(),
        ensures
            kind == kind_at(self@.tokens, self@.current),
    {
        self.tokens[self.current].kind
    }

    /// The token before the cursor.
    pub fn previous(&self) -> (token: Token)
        requires
            0 < self@.current <= self@.tokens.len(),
        ensures
            token@ == self@.tokens[self@.current - 1],
    {
        self.tokens[self.current - 1].clone()
    }

    /// Hands out the token under the cursor and moves the cursor past it.
    /// At the end of the file the cursor stays where it is.
    pub fn consume(&mut self) -> (token: Token)
        requires
            old(self)@.current < old(self)@.tokens.len(),
        ensures
            final(self)@.tokens == old(self)@.tokens,
            final(self)@.current == after_consume(old(self)@.tokens, old(self)@.current),
            token@ == old(self)@.tokens[old(self)@.current],
            old(self).wf() ==> final(self).wf(),
    {
        let token = self.tokens[self.current].clone();
        if !self.is_eof() {
            self.current += 1;
        }
        token
    }

    /// Consumes the token under the cursor if it is of the given kind, and
    /// fails otherwise, leaving the cursor on it.
    pub fn expect(&mut self, kind: TokenKind) -> (res: Result<Token, PulseError>)
        requires
            old(self)@.current < old(self)@.tokens.len(),
        ensures
            final(self)@.tokens == old(self)@.tokens,
            old(self).wf() ==> final(self).wf(),
            match res {
                Ok(token) => expect_at(old(self)@.tokens, old(self)@.current, kind).gives(
                    token@,
                    final(self)@.current,
                ),
                Err(error) => expect_at(old(self)@.tokens, old(self)@.current, kind).fails(
                    error@,
                    final(self)@.current,
                ),
            },
    {
        if self.tokens[self.current].kind == kind {
            Ok(self.consume())
        } else {
            let name = kind.name();
            Err(
                PulseError::ExpectedToken(
                    String::from_str(name),
                    String::from_str("Expected token of kind: ").concat(name),
                    self.tokens[self.current].span.clone(),
                ),
            )
        }
    }

    /// Parses `: type`.
    pub fn parse_type_annotation(&mut self) -> (res: Result<TypeAnnotation, PulseError>)
        requires
            old(self).wf(),
        ensures
            final(self).wf(),
            final(self)@.tokens == old(self)@.tokens,
            match res {
                Ok(annotation) => type_annotation_at(old(self)@.tokens, old(self)@.current).gives(
                    annotation@,
                    final(self)@.current,
                ),
                Err(error) => type_annotation_at(old(self)@.tokens, old(self)@.current).fails(
                    error@,
                    final(self)@.current,
                ),
            },
    {
        let colon = self.expect(TokenKind::Colon)?;
        let type_token = self.expect(TokenKind::Identifier)?;
        Ok(TypeAnnotation { colon, type_token })
    }

    /// Parses `-> type` where an arrow stands, and nothing otherwise. A
    /// type name without the arrow is an error.
    pub fn parse_return_type(&mut self) -> (res: Result<Option<FunctionType>, PulseError>)
        requires
            old(self).wf(),
        ensures
            final(self).wf(),
            final(self)@.tokens == old(self)@.tokens,
            match res {
                Ok(Some(function_type)) => return_type_at(
                    old(self)@.tokens,
                    old(self)@.current,
                ).gives(Some(function_type@), final(self)@.current),
                Ok(None) => return_type_at(old(self)@.tokens, old(self)@.current).gives(
                    None,
                    final(self)@.current,
                ),
                Err(error) => return_type_at(old(self)@.tokens, old(self)@.current).fails(
                    error@,
                    final(self)@.current,
                ),
            },
    {
        let kind = self.peek_kind();
        if kind == TokenKind::Identifier {
            Err(
                PulseError::ExpectedToken(
                    String::from_str("arrow"),
                    String::from_str("Expected arrow"),
                    self.tokens[self.current].span.clone(),
                ),
            )
        } else if kind == TokenKind::Arrow {
            let arrow = self.consume();
            let type_token = self.expect(TokenKind::Identifier)?;
            Ok(Some(FunctionType { arrow, type_token }))
        } else {
            Ok(None)
        }
    }

    /// Parses one statement. Only a function declaration is a statement so
    /// far; any other token is refused where it stands.
    pub fn parse_stmt(&mut self) -> (res: Result<Stmt, PulseError>)
        requires
            old(self).wf(),
        ensures
            final(self).wf(),
            final(self)@.tokens == old(self)@.tokens,
            match res {
                Ok(stmt) => statement_at(old(self)@.tokens, old(self)@.current).gives(
                    stmt@,
                    final(self)@.current,
                ),
                Err(error) => statement_at(old(self)@.tokens, old(self)@.current).fails(
                    error@,
                    final(self)@.current,
                ),
            },
        decreases old(self)@.tokens.len() - old(self)@.current, 1int,
    {
        let kind = self.peek_kind();
        if kind == TokenKind::Fn || kind == TokenKind::Export {
            self.parse_fn()
        } else {
            Err(
                PulseError::UnexpectedToken(
                    String::from_str(kind.name()),
                    self.tokens[self.current].span.clone(),
                ),
            )
        }
    }

    /// Parses the statements of a block, up to its closing brace or the end
    /// of the file, and leaves the cursor there.
    #[verifier::loop_isolation(false)]
    pub fn parse_block(&mut self) -> (res: Result<Block, PulseError>)
        requires
            old(self).wf(),
        ensures
            final(self).wf(),
            final(self)@.tokens == old(self)@.tokens,
            match res {
                Ok(block) => block_at(old(self)@.tokens, old(self)@.current).gives(
                    block@,
                    final(self)@.current,
                ),
                Err(error) => block_at(old(self)@.tokens, old(self)@.current).fails(
                    error@,
                    final(self)@.current,
                ),
            },
        decreases old(self)@.tokens.len() - old(self)@.current, 3int,
    {
        let ghost tokens = self@.tokens;
        let ghost start = self@.current;
        let mut stmts: Vec<Stmt> = Vec::new();
        let ghost mut read: Seq<StmtView> = Seq::empty();
        while self.peek_kind() != TokenKind::RightBrace && !self.is_eof()
            invariant
                self.wf(),
                self@.tokens == tokens,
                start <= self@.current,
                read.len() == stmts.len(),
                forall|i: int| 0 <= i < stmts.len() ==> (#[trigger] read[i]) == stmts[i]@,
                block_statements_from(tokens, start, Seq::empty()) == block_statements_from(
                    tokens,
                    self@.current,
                    read,
                ),
            decreases tokens.len() - self@.current,
        {
            proof {
                lemma_statement_advances(tokens, self@.current);
            }
            let stmt = self.parse_stmt()?;
            proof {
                read = read.push(stmt@);
            }
            stmts.push(stmt);
        }
        let block = Block { stmts };
        proof {
            lemma_stmts_view(block.stmts, block.stmts.len() as int);
            assert(block@.stmts =~= read);
        }
        Ok(block)
    }

    /// Parses the parameters of a function, each a name and a type
    /// annotation with nothing between one and the next, up to the closing
    /// parenthesis or the end of the file, and leaves the cursor there.
    #[verifier::loop_isolation(false)]
    pub fn parse_params(&mut self) -> (res: Result<Vec<FnParam>, PulseError>)
        requires
            old(self).wf(),
        ensures
            final(self).wf(),
            final(self)@.tokens == old(self)@.tokens,
            match res {
                Ok(params) => parameters_from(
                    old(self)@.tokens,
                    old(self)@.current,
                    Seq::empty(),
                ).gives(params_view(params), final(self)@.current),
                Err(error) => parameters_from(
                    old(self)@.tokens,
                    old(self)@.current,
                    Seq::empty(),
                ).fails(error@, final(self)@.current),
            },
    {
        let ghost tokens = self@.tokens;
        let ghost first = self@.current;
        let mut params: Vec<FnParam> = Vec::new();
        let ghost mut read: Seq<FnParamView> = Seq::empty();
        while self.peek_kind() != TokenKind::RightParen && !self.is_eof()
            invariant
                self.wf(),
                self@.tokens == tokens,
                first <= self@.current,
                read.len() == params.len(),
                forall|i: int| 0 <= i < params.len() ==> (#[trigger] read[i]) == params[i]@,
                parameters_from(tokens, first, Seq::empty()) == parameters_from(
                    tokens,
                    self@.current,
                    read,
                ),
            decreases tokens.len() - self@.current,
        {
            let ident = self.expect(TokenKind::Identifier)?;
            let type_annotation = self.parse_type_annotation()?;
            let param = FnParam { ident, type_annotation };
            proof {
                read = read.push(param@);
            }
            params.push(param);
        }
        assert(params_view(params) =~= read);
        Ok(params)
    }

    /// Parses a function declaration from its `fn` keyword, which has to
    /// stand under the cursor, up to and including the `{` of its body: the
    /// keyword, the name, the parameters and the return type.
    pub fn parse_fn_head(&mut self) -> (res: Result<
        (Token, Token, Vec<FnParam>, Option<FunctionType>),
        PulseError,
    >)
        requires
            old(self).wf(),
        ensures
            final(self).wf(),
            final(self)@.tokens == old(self)@.tokens,
            match res {
                Ok((fn_token, name, params, return_type)) => function_head_at(
                    old(self)@.tokens,
                    old(self)@.current,
                ).gives(
                    FnHeadView {
                        fn_token: fn_token@,
                        name: name@.span.literal,
                        params: params_view(params),
                        return_type: match return_type {
                            Some(annotation) => Some(annotation@),
                            None => None,
                        },
                    },
                    final(self)@.current,
                ),
                Err(error) => function_head_at(old(self)@.tokens, old(self)@.current).fails(
                    error@,
                    final(self)@.current,
                ),
            },
    {
        let fn_token = self.expect(TokenKind::Fn)?;
        let name = self.expect(TokenKind::Identifier)?;
        self.expect(TokenKind::LeftParen)?;
        let params = self.parse_params()?;
        self.expect(TokenKind::RightParen)?;
        let return_type = self.parse_return_type()?;
        self.expect(TokenKind::LeftBrace)?;
        Ok((fn_token, name, params, return_type))
    }

    /// Parses a function declaration: `export` or not, the `fn` token, the
    /// name, the parameters between parentheses, `-> type` or not, and the
    /// body between braces.
    pub fn parse_fn(&mut self) -> (res: Result<Stmt, PulseError>)
        requires
            old(self).wf(),
        ensures
            final(self).wf(),
            final(self)@.tokens == old(self)@.tokens,
            match res {
                Ok(stmt) => function_at(old(self)@.tokens, old(self)@.current).gives(
                    stmt@,
                    final(self)@.current,
                ),
                Err(error) => function_at(old(self)@.tokens, old(self)@.current).fails(
                    error@,
                    final(self)@.current,
                ),
            },
        decreases old(self)@.tokens.len() - old(self)@.current, 0int,
    {
        let ghost tokens = self@.tokens;
        let mut exported = false;
        if self.peek_kind() == TokenKind::Export {
            self.consume();
            if self.peek_kind() == TokenKind::Fn {
                exported = true;
            } else {
                return Err(
                    PulseError::ExpectedToken(
                        String::from_str("function"),
                        String::from_str("You can only export functions"),
                        self.tokens[self.current].span.clone(),
                    ),
                );
            }
        }
        let ghost start = self@.current;
        proof {
            lemma_head_advances(tokens, start);
        }
        let (fn_token, name, params, return_type) = self.parse_fn_head()?;
        let body = self.parse_block()?;
        self.expect(TokenKind::RightBrace)?;
        Ok(Stmt::new_fn(fn_token, name.literal(), params, body, exported, return_type))
    }

    /// Parses the statements from the cursor up to the end of the file.
    #[verifier::loop_isolation(false)]
    pub fn parse(&mut self) -> (res: Result<Ast, PulseError>)
        requires
            old(self).wf(),
        ensures
            final(self).wf(),
            final(self)@.tokens == old(self)@.tokens,
            match res {
                Ok(ast) => program_from(old(self)@.tokens, old(self)@.current, Seq::empty()).gives(
                    ast@.stmts,
                    final(self)@.current,
                ),
                Err(error) => program_from(
                    old(self)@.tokens,
                    old(self)@.current,
                    Seq::empty(),
                ).fails(error@, final(self)@.current),
            },
    {
        let ghost tokens = self@.tokens;
        let ghost start = self@.current;
        let mut ast = Ast::new();
        let ghost mut read: Seq<StmtView> = Seq::empty();
        while !self.is_eof()
            invariant
                self.wf(),
                self@.tokens == tokens,
                read.len() == ast.stmts.len(),
                forall|i: int| 0 <= i < ast.stmts.len() ==> (#[trigger] read[i]) == ast.stmts[i]@,
                program_from(tokens, start, Seq::empty()) == program_from(
                    tokens,
                    self@.current,
                    read,
                ),
            decreases tokens.len() - self@.current,
        {
            proof {
                lemma_statement_advances(tokens, self@.current);
            }
            let stmt = self.parse_stmt()?;
            proof {
                read = read.push(stmt@);
            }
            ast.stmts.push(stmt);
        }
        proof {
            lemma_stmts_view(ast.stmts, ast.stmts.len() as int);
            assert(ast@.stmts =~= read);
        }
        Ok(ast)
    }
}

} // verus!
