use crate::ast::ast::{
    BinOp, BlockView, ElseIfView, ExprView, FnParamView, FnView, IfView, ReturnView, StmtView,
    UnaryOp,
};
use crate::lexer::token::TokenView;
use crate::resolver::laws::lemma_sound_expression_has_type;
use crate::resolver::rules::{
    block_error, declare, declare_each, declared_return_type, else_if_error, else_ifs_error,
    expr_error, exprs_error, fn_error, fn_symbol, if_error, import_symbol, lookup, param_symbol,
    return_error, scopes_after, stmt_error, stmts_error, type_of, Scopes,
};
use crate::resolver::{SymbolView, Type};
use vstd::prelude::*;

verus! {

// What it is for a tree to be sound, said rule by rule and without regard
// to the order in which the resolver looks: the resolver finds no error in
// a tree exactly if the tree is sound.

pub open spec fn is_numeric(operand: Type) -> bool {
    operand == Type::Int || operand == Type::Float
}

/// Whether a binary operator takes operands of these types: an arithmetic
/// operator two of one numeric type, a comparison two of one type other
/// than `Void`, any other operator anything.
pub open spec fn operands_fit(operator: BinOp, left: Type, right: Type) -> bool {
    &&& operator.spec_is_arithmetic() ==> left == right && is_numeric(left)
    &&& operator.spec_is_comparison() ==> left == right && left != Type::Void
}

/// Whether a unary operator takes an operand of this type.
pub open spec fn operand_fits(operator: UnaryOp, operand: Type) -> bool {
    match operator {
        UnaryOp::Minus => is_numeric(operand),
        UnaryOp::Not => operand == Type::Int,
    }
}

/// Whether an expression is sound: every name in it is bound, every
/// operator has operands that it takes, and every assignment goes to a
/// mutable binding of the type of the value.
pub open spec fn expr_sound(scopes: Scopes, expr: ExprView) -> bool
    decreases expr,
{
    match expr {
        ExprView::Literal(_) => true,
        ExprView::Variable(variable) => lookup(scopes, variable.ident) is Some,
        ExprView::Binary(binary) => {
            &&& expr_sound(scopes, *binary.left)
            &&& expr_sound(scopes, *binary.right)
            &&& operands_fit(
                binary.operator,
                type_of(scopes, *binary.left)->Ok_0,
                type_of(scopes, *binary.right)->Ok_0,
            )
        },
        ExprView::Unary(unary) => {
            &&& expr_sound(scopes, *unary.expr)
            &&& operand_fits(unary.operator, type_of(scopes, *unary.expr)->Ok_0)
        },
        ExprView::Logical(logical) => {
            &&& expr_sound(scopes, *logical.left)
            &&& expr_sound(scopes, *logical.right)
            &&& type_of(scopes, *logical.left)->Ok_0 == Type::Bool
            &&& type_of(scopes, *logical.right)->Ok_0 == Type::Bool
        },
        ExprView::Parenthesized(inner) => expr_sound(scopes, *inner.expr),
        ExprView::Call(call) => {
            &&& lookup(scopes, call.callee) is Some
            &&& forall|i: int|
                0 <= i < call.args.len() ==> expr_sound(scopes, #[trigger] call.args[i])
        },
        ExprView::Assign(assign) => {
            &&& lookup(scopes, assign.ident.ident) matches Some(symbol)
            &&& symbol.is_mutable
            &&& expr_sound(scopes, *assign.value)
            &&& type_of(scopes, *assign.value)->Ok_0 == symbol.symbol_type
        },
    }
}

/// The resolver finds no error in an expression exactly if the expression
/// is sound.
pub proof fn lemma_expr_sound(scopes: Scopes, expr: ExprView)
    ensures
        expr_error(scopes, expr) is None <==> expr_sound(scopes, expr),
    decreases expr, 0int,
{
    match expr {
        ExprView::Binary(binary) => {
            lemma_expr_sound(scopes, *binary.left);
            lemma_expr_sound(scopes, *binary.right);
            if expr_sound(scopes, *binary.left) && expr_sound(scopes, *binary.right) {
                lemma_sound_expression_has_type(scopes, *binary.left);
                lemma_sound_expression_has_type(scopes, *binary.right);
            }
        },
        ExprView::Unary(unary) => {
            lemma_expr_sound(scopes, *unary.expr);
            if expr_sound(scopes, *unary.expr) {
                lemma_sound_expression_has_type(scopes, *unary.expr);
            }
        },
        ExprView::Logical(logical) => {
            lemma_expr_sound(scopes, *logical.left);
            lemma_expr_sound(scopes, *logical.right);
            if expr_sound(scopes, *logical.left) && expr_sound(scopes, *logical.right) {
                lemma_sound_expression_has_type(scopes, *logical.left);
                lemma_sound_expression_has_type(scopes, *logical.right);
            }
        },
        ExprView::Parenthesized(inner) => {
            lemma_expr_sound(scopes, *inner.expr);
        },
        ExprView::Call(call) => {
            lemma_exprs_sound(scopes, call.args, 0);
        },
        ExprView::Assign(assign) => {
            lemma_expr_sound(scopes, *assign.value);
            if expr_sound(scopes, *assign.value) {
                lemma_sound_expression_has_type(scopes, *assign.value);
            }
        },
        _ => {},
    }
}

/// The resolver finds no error in the expressions from the `from`-th on
/// exactly if each of them is sound.
pub proof fn lemma_exprs_sound(scopes: Scopes, exprs: Seq<ExprView>, from: int)
    requires
        0 <= from,
    ensures
        exprs_error(scopes, exprs, from) is None <==> forall|i: int|
            from <= i < exprs.len() ==> expr_sound(scopes, #[trigger] exprs[i]),
    decreases exprs, exprs.len() - from,
{
    if from < exprs.len() {
        lemma_expr_sound(scopes, exprs[from]);
        lemma_exprs_sound(scopes, exprs, from + 1);
    }
}

/// Whether the symbols from the `from`-th on can be declared one after the
/// other in the innermost scope: none of their names is bound there, and
/// no two of them share a name. With no scope open nothing stands in the
/// way.
pub open spec fn can_declare(scopes: Scopes, symbols: Seq<SymbolView>, from: int) -> bool {
    scopes.len() > 0 ==> {
        &&& forall|i: int|
            from <= i < symbols.len() ==> !scopes.last().contains_key(
                (#[trigger] symbols[i]).name,
            )
        &&& forall|i: int, j: int|
            from <= i < j < symbols.len() ==> (#[trigger] symbols[i]).name != (
            #[trigger] symbols[j]).name
    }
}

/// Declaring symbols one after the other succeeds exactly if they can be
/// declared.
pub proof fn lemma_can_declare(scopes: Scopes, symbols: Seq<SymbolView>, from: int)
    requires
        0 <= from,
    ensures
        declare_each(scopes, symbols, from).1 is None <==> can_declare(scopes, symbols, from),
    decreases symbols.len() - from,
{
    if from < symbols.len() && scopes.len() > 0 {
        let first = symbols[from];
        if let Ok(next) = declare(scopes, first.name, first) {
            lemma_can_declare(next, symbols, from + 1);
            if can_declare(next, symbols, from + 1) {
                assert forall|i: int| from <= i < symbols.len() implies !scopes.last().contains_key(
                    (#[trigger] symbols[i]).name,
                ) by {}
                assert forall|i: int, j: int| from <= i < j < symbols.len() implies (
                #[trigger] symbols[i]).name != (#[trigger] symbols[j]).name by {}
            }
            if can_declare(scopes, symbols, from) {
                assert forall|i: int|
                    from + 1 <= i < symbols.len() implies !next.last().contains_key(
                    (#[trigger] symbols[i]).name,
                ) by {}
            }
        }
    } else if from < symbols.len() {
        lemma_can_declare(scopes, symbols, from + 1);
    }
}

/// Whether an expression is sound and of a type that its place takes.
pub open spec fn expr_sound_as(
    scopes: Scopes,
    expr: ExprView,
    taken: spec_fn(Type) -> bool,
) -> bool {
    expr_sound(scopes, expr) && taken(type_of(scopes, expr)->Ok_0)
}

/// Whether a statement is sound in the scopes given and inside a function
/// of the return type given.
///
/// - An expression is sound as a statement if it is sound.
/// - An import is sound if its items can be declared.
/// - A block is sound if its statements are: each in the scopes that those
///   before it have left, the first in a new scope.
/// - A conditional is sound if each condition is sound and of type `Bool`
///   and each branch is sound as a block in a new scope.
/// - A `return` with a value is sound if the value is, and is of the
///   return type; one without a value, if the return type is `Void`.
///   Outside any function every `return` of a sound value is sound.
/// - A function is sound if its name can be declared, its parameters can
///   be declared in a new scope, and its body is sound as a block with
///   name and parameters declared and its own return type around it.
pub open spec fn stmt_sound(scopes: Scopes, return_type: Option<Type>, stmt: StmtView) -> bool
    decreases stmt, 0int,
{
    match stmt {
        StmtView::Expr(expr) => expr_sound(scopes, *expr),
        StmtView::Import(import) => can_declare(
            scopes,
            import.items.map_values(|item: TokenView| import_symbol(item)),
            0,
        ),
        StmtView::Block(block) => block_sound(scopes, return_type, block),
        StmtView::If(conditional) => {
            &&& expr_sound_as(scopes, *conditional.condition, |found: Type| found == Type::Bool)
            &&& block_sound(scopes.push(Map::empty()), return_type, conditional.then_block)
            &&& forall|i: int|
                0 <= i < conditional.else_ifs.len() ==> else_if_sound(
                    scopes,
                    return_type,
                    #[trigger] conditional.else_ifs[i],
                )
            &&& conditional.else_block matches Some(block) ==> block_sound(
                scopes.push(Map::empty()),
                return_type,
                block,
            )
        },
        StmtView::Return(stmt) => match stmt.expr {
            Some(value) => expr_sound_as(
                scopes,
                *value,
                |found: Type| return_type matches Some(expected) ==> found == expected,
            ),
            None => return_type matches Some(expected) ==> expected == Type::Void,
        },
        StmtView::Fn(function) => {
            let params = function.params.map_values(|param: FnParamView| param_symbol(param));
            &&& declare(scopes, function.name, fn_symbol(function)) matches Ok(outer)
            &&& can_declare(outer.push(Map::empty()), params, 0)
            &&& block_sound(
                declare_each(outer.push(Map::empty()), params, 0).0,
                Some(declared_return_type(function)),
                function.body,
            )
        },
    }
}

/// Whether one `else if` is sound.
pub open spec fn else_if_sound(
    scopes: Scopes,
    return_type: Option<Type>,
    branch: ElseIfView,
) -> bool
    decreases branch, 0int,
{
    &&& expr_sound_as(scopes, *branch.condition, |found: Type| found == Type::Bool)
    &&& block_sound(scopes.push(Map::empty()), return_type, branch.block)
}

/// Whether a block is sound: its statements are, in a new scope.
pub open spec fn block_sound(scopes: Scopes, return_type: Option<Type>, block: BlockView) -> bool
    decreases block, 0int,
{
    stmts_sound(scopes.push(Map::empty()), return_type, block.stmts, 0)
}

/// Whether the statements from the `from`-th on are sound, each in the
/// scopes that those before it have left.
pub open spec fn stmts_sound(
    scopes: Scopes,
    return_type: Option<Type>,
    stmts: Seq<StmtView>,
    from: int,
) -> bool
    decreases stmts, stmts.len() - from,
{
    0 <= from < stmts.len() ==> {
        &&& stmt_sound(scopes, return_type, stmts[from])
        &&& stmts_sound(scopes_after(scopes, stmts[from]), return_type, stmts, from + 1)
    }
}

/// The resolver finds no error in a statement exactly if the statement is
/// sound.
pub proof fn lemma_stmt_sound(scopes: Scopes, return_type: Option<Type>, stmt: StmtView)
    ensures
        stmt_error(scopes, return_type, stmt) is None <==> stmt_sound(scopes, return_type, stmt),
    decreases stmt, 0int,
{
    match stmt {
        StmtView::Expr(expr) => {
            lemma_expr_sound(scopes, *expr);
        },
        StmtView::Import(import) => {
            lemma_can_declare(
                scopes,
                import.items.map_values(|item: TokenView| import_symbol(item)),
                0,
            );
        },
        StmtView::Block(block) => {
            lemma_block_sound(scopes, return_type, block);
        },
        StmtView::If(conditional) => {
            lemma_if_sound(scopes, return_type, conditional);
        },
        StmtView::Return(stmt) => {
            lemma_return_sound(scopes, return_type, stmt);
        },
        StmtView::Fn(function) => {
            lemma_fn_sound(scopes, return_type, function);
        },
    }
}

/// The same for a `return`.
pub proof fn lemma_return_sound(scopes: Scopes, return_type: Option<Type>, stmt: ReturnView)
    ensures
        return_error(scopes, return_type, stmt) is None <==> stmt_sound(
            scopes,
            return_type,
            StmtView::Return(stmt),
        ),
{
    if let Some(value) = stmt.expr {
        lemma_expr_sound(scopes, *value);
        if expr_sound(scopes, *value) {
            lemma_sound_expression_has_type(scopes, *value);
        }
    }
}

/// The same for a function declaration.
pub proof fn lemma_fn_sound(scopes: Scopes, return_type: Option<Type>, function: FnView)
    ensures
        fn_error(scopes, function) is None <==> stmt_sound(
            scopes,
            return_type,
            StmtView::Fn(function),
        ),
    decreases function, 1int,
{
    let params = function.params.map_values(|param: FnParamView| param_symbol(param));
    if let Ok(outer) = declare(scopes, function.name, fn_symbol(function)) {
        lemma_can_declare(outer.push(Map::empty()), params, 0);
        lemma_block_sound(
            declare_each(outer.push(Map::empty()), params, 0).0,
            Some(declared_return_type(function)),
            function.body,
        );
    }
}

/// The same for a block.
pub proof fn lemma_block_sound(scopes: Scopes, return_type: Option<Type>, block: BlockView)
    ensures
        block_error(scopes, return_type, block) is None <==> block_sound(
            scopes,
            return_type,
            block,
        ),
    decreases block, 1int,
{
    lemma_stmts_sound(scopes.push(Map::empty()), return_type, block.stmts, 0);
}

/// The same for statements that follow each other.
pub proof fn lemma_stmts_sound(
    scopes: Scopes,
    return_type: Option<Type>,
    stmts: Seq<StmtView>,
    from: int,
)
    ensures
        stmts_error(scopes, return_type, stmts, from) is None <==> stmts_sound(
            scopes,
            return_type,
            stmts,
            from,
        ),
    decreases stmts, stmts.len() - from,
{
    if 0 <= from < stmts.len() {
        lemma_stmt_sound(scopes, return_type, stmts[from]);
        lemma_stmts_sound(scopes_after(scopes, stmts[from]), return_type, stmts, from + 1);
    }
}

/// The same for one `else if`.
pub proof fn lemma_else_if_sound(scopes: Scopes, return_type: Option<Type>, branch: ElseIfView)
    ensures
        else_if_error(scopes, return_type, branch) is None <==> else_if_sound(
            scopes,
            return_type,
            branch,
        ),
    decreases branch, 1int,
{
    lemma_expr_sound(scopes, *branch.condition);
    if expr_sound(scopes, *branch.condition) {
        lemma_sound_expression_has_type(scopes, *branch.condition);
    }
    lemma_block_sound(scopes.push(Map::empty()), return_type, branch.block);
}

/// The same for the `else if`s of a conditional.
pub proof fn lemma_else_ifs_sound(
    scopes: Scopes,
    return_type: Option<Type>,
    branches: Seq<ElseIfView>,
    from: int,
)
    requires
        0 <= from,
    ensures
        else_ifs_error(scopes, return_type, branches, from) is None <==> forall|i: int|
            from <= i < branches.len() ==> else_if_sound(
                scopes,
                return_type,
                #[trigger] branches[i],
            ),
    decreases branches, branches.len() - from,
{
    if from < branches.len() {
        lemma_else_if_sound(scopes, return_type, branches[from]);
        lemma_else_ifs_sound(scopes, return_type, branches, from + 1);
    }
}

/// The same for a conditional.
pub proof fn lemma_if_sound(scopes: Scopes, return_type: Option<Type>, conditional: IfView)
    ensures
        if_error(scopes, return_type, conditional) is None <==> stmt_sound(
            scopes,
            return_type,
            StmtView::If(conditional),
        ),
    decreases conditional, 1int,
{
    lemma_expr_sound(scopes, *conditional.condition);
    if expr_sound(scopes, *conditional.condition) {
        lemma_sound_expression_has_type(scopes, *conditional.condition);
    }
    lemma_block_sound(scopes.push(Map::empty()), return_type, conditional.then_block);
    lemma_else_ifs_sound(scopes, return_type, conditional.else_ifs, 0);
    if let Some(block) = conditional.else_block {
        lemma_block_sound(scopes.push(Map::empty()), return_type, block);
    }
}

/// What a resolved program can be relied on for: the resolver finds no
/// error in a program exactly if every statement of it is sound, each in
/// the scopes that those before it have left.
pub proof fn lemma_program_sound(scopes: Scopes, return_type: Option<Type>, stmts: Seq<StmtView>)
    ensures
        stmts_error(scopes, return_type, stmts, 0) is None <==> stmts_sound(
            scopes,
            return_type,
            stmts,
            0,
        ),
{
    lemma_stmts_sound(scopes, return_type, stmts, 0);
}

} // verus!
