use crate::ast::ast::{Ast, StmtView};
use crate::ast::grammar::{ends_with_eof, program_from, Parse};
use crate::ast::parser::Parser;
use crate::error::{PulseError, PulseErrorView};
use crate::lexer::lexer::Lexer;
use crate::lexer::rules::{lemma_tokens_fit, tokens_of};
use crate::lexer::token::{tokens_view, Token, TokenView};
use crate::resolver::rules::stmts_error;
use crate::resolver::{Resolver, SymbolView};
use vstd::prelude::*;

verus! {

/// What a project builds: a program, from `src/main.pulse`, or a library,
/// from `src/lib.pulse`.
#[derive(Debug, Clone, Copy, PartialEq, Eq, Structural)]
pub enum ProjectType {
    Binary,
    Library,
}

impl ProjectType {
    /// The name of the file that a project of this type starts from.
    pub open spec fn spec_file_name(self) -> Seq<char> {
        match self {
            ProjectType::Binary => "main.pulse"@,
            ProjectType::Library => "lib.pulse"@,
        }
    }

    pub fn file_name(&self) -> (name: &str)
        ensures
            name@ == self.spec_file_name(),
    {
        match self {
            ProjectType::Binary => "main.pulse",
            ProjectType::Library => "lib.pulse",
        }
    }

    /// The type of the project whose source directory holds `main.pulse`
    /// if `main_exists` and `lib.pulse` if `lib_exists`. A project has
    /// exactly one of the two.
    pub fn from_entry_points(main_exists: bool, lib_exists: bool) -> (res: Result<
        ProjectType,
        PulseError,
    >)
        ensures
            main_exists && !lib_exists ==> res matches Ok(ProjectType::Binary),
            !main_exists && lib_exists ==> res matches Ok(ProjectType::Library),
            main_exists && lib_exists ==> (res matches Err(error) && error@
                == PulseErrorView::MultipleEntryPoints),
            !main_exists && !lib_exists ==> (res matches Err(error) && error@
                == PulseErrorView::InvalidProjectStructure),
    {
        match (main_exists, lib_exists) {
            (true, false) => Ok(ProjectType::Binary),
            (false, true) => Ok(ProjectType::Library),
            (true, true) => Err(PulseError::MultipleEntryPoints),
            _ => Err(PulseError::InvalidProjectStructure),
        }
    }
}

/// What the front end makes of a token sequence: the statements of the
/// program if it parses and is sound, and otherwise the first error, of
/// the parser or, if the program parses, of the resolver. Resolution starts
/// with the global scope open and empty, outside any function.
pub open spec fn build_outcome(tokens: Seq<TokenView>) -> Result<Seq<StmtView>, PulseErrorView> {
    match program_from(tokens, 0, Seq::empty()) {
        Parse::Failed { error, .. } => Err(error),
        Parse::Done { value: stmts, .. } => match stmts_error(
            seq![Map::<Seq<char>, SymbolView>::empty()],
            None,
            stmts,
            0,
        ) {
            Some(error) => Err(error),
            None => Ok(stmts),
        },
    }
}

/// Parses the tokens of a source file and resolves the program: the whole
/// front end in one call. Hands back the tree if the program is sound.
pub fn build(tokens: Vec<Token>) -> (res: Result<Ast, PulseError>)
    requires
        ends_with_eof(tokens_view(tokens)),
    ensures
        match res {
            Ok(ast) => build_outcome(tokens_view(tokens)) matches Ok(stmts) && stmts
                == ast@.stmts,
            Err(error) => build_outcome(tokens_view(tokens)) matches Err(failure) && failure
                == error@,
        },
{
    let mut parser = Parser::new(tokens);
    let ast = parser.parse()?;
    let mut resolver = Resolver::new();
    resolver.resolve_ast(&ast)?;
    Ok(ast)
}

/// What the front end makes of a source text: what it makes of the tokens
/// of the text, or the error of the first piece of text that is no token.
pub open spec fn build_source_outcome(source: Seq<char>) -> Result<Seq<StmtView>, PulseErrorView> {
    match tokens_of(source) {
        Err(error) => Err(error),
        Ok(tokens) => build_outcome(tokens),
    }
}

/// Tokenizes a source text, parses the tokens and resolves the program.
/// Hands back the tree if the program is sound, and the first error
/// otherwise.
pub fn build_source(source: String) -> (res: Result<Ast, PulseError>)
    ensures
        match res {
            Ok(ast) => build_source_outcome(source@) matches Ok(stmts) && stmts == ast@.stmts,
            Err(error) => build_source_outcome(source@) matches Err(failure) && failure
                == error@,
        },
{
    let lexer = Lexer::from_source(source);
    let len = lexer.len();
    let tokens = lexer.lex()?;
    proof {
        lemma_tokens_fit(lexer@, 0, Seq::empty());
    }
    build(tokens)
}

} // verus!
