use crate::ast::ast::{
    BlockView, FnParamView, FnView, FunctionTypeView, StmtView, TypeAnnotationView,
};
use crate::ast::grammar::{
    block_at, block_statements_from, expected_kind, function_at, kind_at,
    only_functions_exported, parameters_from, program_from, statement_at, type_annotation_at,
    Parse,
};
use crate::lexer::token::{TokenKind, TokenView};
use vstd::prelude::*;

verus! {

/// The tokens are those of one function without parameters and with an
/// empty body, and nothing else: `fn name ( ) { }`, with `export` before
/// it if `exported`, and with `-> type` after the parentheses if `typed`.
pub open spec fn spells_empty_function(
    tokens: Seq<TokenView>,
    exported: bool,
    typed: bool,
) -> bool {
    let a: int = if exported {
        1
    } else {
        0
    };
    let b: int = if typed {
        2
    } else {
        0
    };
    &&& tokens.len() == 7 + a + b
    &&& exported ==> tokens[0].kind == TokenKind::Export
    &&& tokens[a].kind == TokenKind::Fn
    &&& tokens[a + 1].kind == TokenKind::Identifier
    &&& tokens[a + 2].kind == TokenKind::LeftParen
    &&& tokens[a + 3].kind == TokenKind::RightParen
    &&& typed ==> tokens[a + 4].kind == TokenKind::Arrow && tokens[a + 5].kind
        == TokenKind::Identifier
    &&& tokens[a + 4 + b].kind == TokenKind::LeftBrace
    &&& tokens[a + 5 + b].kind == TokenKind::RightBrace
    &&& tokens[a + 6 + b].kind == TokenKind::EOF
}

/// The declaration that the tokens of `spells_empty_function` stand for.
pub open spec fn empty_function(tokens: Seq<TokenView>, exported: bool, typed: bool) -> StmtView {
    let a: int = if exported {
        1
    } else {
        0
    };
    StmtView::Fn(
        FnView {
            fn_token: tokens[a],
            name: tokens[a + 1].span.literal,
            params: Seq::empty(),
            body: BlockView { stmts: Seq::empty() },
            exported,
            return_type: if typed {
                Some(FunctionTypeView { arrow: tokens[a + 4], type_token: tokens[a + 5] })
            } else {
                None
            },
        },
    )
}

/// Every function without parameters and with an empty body parses: the
/// program is exactly one function declaration, named by the identifier
/// after `fn`, and the cursor ends on the end-of-file token.
pub proof fn lemma_empty_function_parses(tokens: Seq<TokenView>, exported: bool, typed: bool)
    requires
        spells_empty_function(tokens, exported, typed),
    ensures
        program_from(tokens, 0, Seq::empty()) == (Parse::Done {
            value: seq![empty_function(tokens, exported, typed)],
            next: tokens.len() - 1,
        }),
{
    let a: int = if exported {
        1
    } else {
        0
    };
    let b: int = if typed {
        2
    } else {
        0
    };
    assert(parameters_from(tokens, a + 3, Seq::empty()) == (Parse::Done {
        value: Seq::<FnParamView>::empty(),
        next: a + 3,
    }));
    assert(block_statements_from(tokens, a + 5 + b, Seq::empty()) == (Parse::Done {
        value: Seq::<StmtView>::empty(),
        next: a + 5 + b,
    }));
    assert(block_at(tokens, a + 5 + b) == (Parse::Done {
        value: BlockView { stmts: Seq::empty() },
        next: a + 5 + b,
    }));
    assert(function_at(tokens, 0) == (Parse::Done {
        value: empty_function(tokens, exported, typed),
        next: a + 6 + b,
    }));
    let read = Seq::<StmtView>::empty().push(empty_function(tokens, exported, typed));
    assert(program_from(tokens, a + 6 + b, read) == (Parse::Done { value: read, next: a + 6 + b }));
}

/// `export` before anything but `fn` is refused, wherever the parser meets
/// it: as a function, as a statement, in a block and at the top level. The
/// error says that only functions can be exported, and the cursor rests on
/// the token after `export`.
pub proof fn lemma_export_needs_fn(tokens: Seq<TokenView>, pos: int, read: Seq<StmtView>)
    requires
        kind_at(tokens, pos) == TokenKind::Export,
        kind_at(tokens, pos + 1) != TokenKind::Fn,
    ensures
        function_at(tokens, pos).fails(only_functions_exported(tokens[pos + 1].span), pos + 1),
        statement_at(tokens, pos).fails(only_functions_exported(tokens[pos + 1].span), pos + 1),
        block_statements_from(tokens, pos, read).fails(
            only_functions_exported(tokens[pos + 1].span),
            pos + 1,
        ),
        program_from(tokens, pos, read).fails(
            only_functions_exported(tokens[pos + 1].span),
            pos + 1,
        ),
{
}

/// A function declaration starts with the `fn` keyword or with `export`:
/// any other token is refused where it stands as not being the keyword.
pub proof fn lemma_function_needs_fn(tokens: Seq<TokenView>, pos: int)
    requires
        kind_at(tokens, pos) != TokenKind::Fn,
        kind_at(tokens, pos) != TokenKind::Export,
    ensures
        function_at(tokens, pos).fails(expected_kind(TokenKind::Fn, tokens[pos].span), pos),
{
}

/// From `pos` on stand `count` parameters, each an identifier, a colon and
/// an identifier, and then the closing parenthesis.
pub open spec fn spells_parameters(tokens: Seq<TokenView>, pos: int, count: nat) -> bool
    decreases count,
{
    if count == 0 {
        kind_at(tokens, pos) == TokenKind::RightParen
    } else {
        &&& kind_at(tokens, pos) == TokenKind::Identifier
        &&& kind_at(tokens, pos + 1) == TokenKind::Colon
        &&& kind_at(tokens, pos + 2) == TokenKind::Identifier
        &&& spells_parameters(tokens, pos + 3, (count - 1) as nat)
    }
}

/// The parameter that the three tokens from `pos` on spell.
pub open spec fn parameter_spelled_at(tokens: Seq<TokenView>, pos: int) -> FnParamView {
    FnParamView {
        ident: tokens[pos],
        type_annotation: TypeAnnotationView { colon: tokens[pos + 1], type_token: tokens[pos + 2] },
    }
}

/// A well-formed parameter list is recorded as it stands: the parameters
/// read are the tokens of the list, three by three and in their order,
/// after those read before, and the cursor ends on the closing
/// parenthesis.
pub proof fn lemma_parameters_recorded(
    tokens: Seq<TokenView>,
    pos: int,
    count: nat,
    read: Seq<FnParamView>,
)
    requires
        spells_parameters(tokens, pos, count),
    ensures
        parameters_from(tokens, pos, read) == (Parse::Done {
            value: read + Seq::new(count, |i: int| parameter_spelled_at(tokens, pos + 3 * i)),
            next: pos + 3 * count,
        }),
    decreases count,
{
    let spelled = Seq::new(count, |i: int| parameter_spelled_at(tokens, pos + 3 * i));
    if count > 0 {
        let first = parameter_spelled_at(tokens, pos);
        assert(type_annotation_at(tokens, pos + 1) == (Parse::Done {
            value: first.type_annotation,
            next: pos + 3,
        }));
        lemma_parameters_recorded(tokens, pos + 3, (count - 1) as nat, read.push(first));
        let rest = Seq::new(
            (count - 1) as nat,
            |i: int| parameter_spelled_at(tokens, pos + 3 + 3 * i),
        );
        assert(read.push(first) + rest =~= read + spelled);
    }
}

} // verus!
