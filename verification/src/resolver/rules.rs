use crate::ast::ast::{
    AssignView, BinaryView, BlockView, ElseIfView, ExprView, FnParamView, FnView, IfView,
    ImportView, LetView, LiteralTypeView, LogicalView, ReturnView, StmtView, UnaryOp, UnaryView,
    VariableView,
};
use crate::error::PulseErrorView;
use crate::lexer::token::{TokenKind, TokenView};
use crate::resolver::diagnostics::{
    arithmetic_unsupported_error, assignment_mismatch_error, comparison_mismatch_error,
    comparison_unsupported_error, complement_unsupported_error, duplicate_declaration_error,
    else_if_condition_error, if_condition_error, immutable_assignment_error,
    logical_operands_error, missing_return_value_error, negation_unsupported_error,
    operand_mismatch_error, return_mismatch_error, undefined_function_error,
    undefined_variable_error,
};
use crate::resolver::{SymbolView, Type};
use vstd::prelude::*;

verus! {

/// The scopes that are open, innermost last.
pub type Scopes = Seq<Map<Seq<char>, SymbolView>>;

/// The first of two findings.
pub open spec fn first_of(
    first: Option<PulseErrorView>,
    second: Option<PulseErrorView>,
) -> Option<PulseErrorView> {
    if first is Some {
        first
    } else {
        second
    }
}

/// The symbol that `name` stands for: that of the innermost scope that
/// binds it.
pub open spec fn lookup(scopes: Scopes, name: Seq<char>) -> Option<SymbolView>
    decreases scopes.len(),
{
    if scopes.len() == 0 {
        None
    } else if scopes.last().contains_key(name) {
        Some(scopes.last()[name])
    } else {
        lookup(scopes.drop_last(), name)
    }
}

/// The scopes after `name` is bound to `symbol` in the innermost one, or
/// the error if that scope binds the name already. With no scope open
/// nothing changes.
pub open spec fn declare(scopes: Scopes, name: Seq<char>, symbol: SymbolView) -> Result<
    Scopes,
    PulseErrorView,
> {
    if scopes.len() == 0 {
        Ok(scopes)
    } else if scopes.last().contains_key(name) {
        Err(duplicate_declaration_error(name))
    } else {
        Ok(scopes.update(scopes.len() - 1, scopes.last().insert(name, symbol)))
    }
}

/// The scopes after the symbols from the `from`-th on are declared one by
/// one under their own names, up to the first that cannot be, and the
/// error of that one.
pub open spec fn declare_each(scopes: Scopes, symbols: Seq<SymbolView>, from: int) -> (
    Scopes,
    Option<PulseErrorView>,
)
    decreases symbols.len() - from,
{
    if 0 <= from < symbols.len() {
        match declare(scopes, symbols[from].name, symbols[from]) {
            Ok(next) => declare_each(next, symbols, from + 1),
            Err(error) => (scopes, Some(error)),
        }
    } else {
        (scopes, None)
    }
}

/// The type that a type annotation names. A name that is none of the five
/// stands for `Void`.
pub open spec fn type_named(token: TokenView) -> Type {
    if token.kind != TokenKind::Identifier {
        Type::Void
    } else if token.span.literal == "int"@ {
        Type::Int
    } else if token.span.literal == "float"@ {
        Type::Float
    } else if token.span.literal == "bool"@ {
        Type::Bool
    } else if token.span.literal == "string"@ {
        Type::String
    } else {
        Type::Void
    }
}

/// The type of a literal.
pub open spec fn literal_type(value: LiteralTypeView) -> Type {
    match value {
        LiteralTypeView::Int(_) => Type::Int,
        LiteralTypeView::Rational(_) => Type::Float,
        LiteralTypeView::String(_) => Type::String,
        LiteralTypeView::Bool(_) => Type::Bool,
        LiteralTypeView::Null => Type::Void,
    }
}

/// The type of an expression, read off its shape and the symbols in scope.
/// Only a name that is not bound makes it fail. An arithmetic operation
/// whose operands differ in type has type `Void` here: that they agree is
/// the business of `binary_operator_error`.
pub open spec fn type_of(scopes: Scopes, expr: ExprView) -> Result<Type, PulseErrorView>
    decreases expr,
{
    match expr {
        ExprView::Literal(literal) => Ok(literal_type(literal.value)),
        ExprView::Variable(variable) => match lookup(scopes, variable.ident) {
            Some(symbol) => Ok(symbol.symbol_type),
            None => Err(undefined_variable_error(variable.ident, variable.token.span)),
        },
        ExprView::Binary(binary) => if binary.operator.spec_is_comparison() {
            Ok(Type::Bool)
        } else if binary.operator.spec_is_arithmetic() {
            match type_of(scopes, *binary.left) {
                Err(error) => Err(error),
                Ok(left) => match type_of(scopes, *binary.right) {
                    Err(error) => Err(error),
                    Ok(right) => Ok(
                        if left == right {
                            left
                        } else {
                            Type::Void
                        },
                    ),
                },
            }
        } else {
            Ok(Type::Void)
        },
        ExprView::Unary(unary) => type_of(scopes, *unary.expr),
        ExprView::Logical(_) => Ok(Type::Bool),
        ExprView::Parenthesized(inner) => type_of(scopes, *inner.expr),
        ExprView::Call(call) => match lookup(scopes, call.callee) {
            Some(symbol) => Ok(symbol.symbol_type),
            None => Err(undefined_function_error(call.callee, call.token.span)),
        },
        ExprView::Assign(assign) => type_of(scopes, *assign.value),
    }
}

/// What is wrong with a reference to a variable: it is not bound.
pub open spec fn variable_error(scopes: Scopes, variable: VariableView) -> Option<PulseErrorView> {
    if lookup(scopes, variable.ident) is None {
        Some(undefined_variable_error(variable.ident, variable.token.span))
    } else {
        None
    }
}

/// What is wrong with the operands of a binary operator: for an arithmetic
/// operator they differ in type, or are neither `Int` nor `Float`; for a
/// comparison they differ in type, or are `Void`. Other operators take
/// anything.
pub open spec fn binary_operator_error(scopes: Scopes, binary: BinaryView) -> Option<
    PulseErrorView,
> {
    match type_of(scopes, *binary.left) {
        Err(error) => Some(error),
        Ok(left) => match type_of(scopes, *binary.right) {
            Err(error) => Some(error),
            Ok(right) => if binary.operator.spec_is_arithmetic() {
                if left != right {
                    Some(operand_mismatch_error(left, right, binary.token.span))
                } else if left != Type::Int && left != Type::Float {
                    Some(arithmetic_unsupported_error(binary.operator, left, binary.token.span))
                } else {
                    None
                }
            } else if binary.operator.spec_is_comparison() {
                if left != right {
                    Some(comparison_mismatch_error(binary.token.span))
                } else if left == Type::Void {
                    Some(comparison_unsupported_error(binary.operator, left, binary.token.span))
                } else {
                    None
                }
            } else {
                None
            },
        },
    }
}

/// What is wrong with the operand of a unary operator: `-` takes `Int` or
/// `Float`, `~` takes `Int`.
pub open spec fn unary_operator_error(scopes: Scopes, unary: UnaryView) -> Option<PulseErrorView> {
    match type_of(scopes, *unary.expr) {
        Err(error) => Some(error),
        Ok(operand) => match unary.operator {
            UnaryOp::Minus => if operand != Type::Int && operand != Type::Float {
                Some(negation_unsupported_error(operand, unary.token.span))
            } else {
                None
            },
            UnaryOp::Not => if operand != Type::Int {
                Some(complement_unsupported_error(operand, unary.token.span))
            } else {
                None
            },
        },
    }
}

/// What is wrong with the operands of `and` or `or`: one is not `Bool`.
pub open spec fn logical_operator_error(scopes: Scopes, logical: LogicalView) -> Option<
    PulseErrorView,
> {
    match type_of(scopes, *logical.left) {
        Err(error) => Some(error),
        Ok(left) => match type_of(scopes, *logical.right) {
            Err(error) => Some(error),
            Ok(right) => if left != Type::Bool || right != Type::Bool {
                Some(logical_operands_error(logical.token.span))
            } else {
                None
            },
        },
    }
}

/// The first error in an expression, in the order in which the resolver
/// walks it: operands before their operator and left before right; the
/// callee before the arguments; the target of an assignment, then the type
/// of the value, then the value.
pub open spec fn expr_error(scopes: Scopes, expr: ExprView) -> Option<PulseErrorView>
    decreases expr, 0int,
{
    match expr {
        ExprView::Literal(_) => None,
        ExprView::Variable(variable) => variable_error(scopes, variable),
        ExprView::Binary(binary) => first_of(
            expr_error(scopes, *binary.left),
            first_of(expr_error(scopes, *binary.right), binary_operator_error(scopes, binary)),
        ),
        ExprView::Unary(unary) => first_of(
            expr_error(scopes, *unary.expr),
            unary_operator_error(scopes, unary),
        ),
        ExprView::Logical(logical) => first_of(
            expr_error(scopes, *logical.left),
            first_of(expr_error(scopes, *logical.right), logical_operator_error(scopes, logical)),
        ),
        ExprView::Parenthesized(inner) => expr_error(scopes, *inner.expr),
        ExprView::Call(call) => if lookup(scopes, call.callee) is None {
            Some(undefined_function_error(call.callee, call.token.span))
        } else {
            exprs_error(scopes, call.args, 0)
        },
        ExprView::Assign(assign) => first_of(
            assign_target_error(scopes, assign),
            expr_error(scopes, *assign.value),
        ),
    }
}

/// The first error in the expressions from the `from`-th on.
pub open spec fn exprs_error(scopes: Scopes, exprs: Seq<ExprView>, from: int) -> Option<
    PulseErrorView,
>
    decreases exprs, exprs.len() - from,
{
    if 0 <= from < exprs.len() {
        first_of(expr_error(scopes, exprs[from]), exprs_error(scopes, exprs, from + 1))
    } else {
        None
    }
}

/// What is wrong with an assignment before its value is looked into: the
/// target is not bound, or is not mutable, or the type of the value is not
/// the type of the target. A target that is not bound is reported where
/// the target stands; the other two faults belong to the assignment as a
/// whole and are reported at its `=`.
pub open spec fn assign_target_error(scopes: Scopes, assign: AssignView) -> Option<
    PulseErrorView,
> {
    match lookup(scopes, assign.ident.ident) {
        None => Some(undefined_variable_error(assign.ident.ident, assign.ident.token.span)),
        Some(symbol) => if !symbol.is_mutable {
            Some(immutable_assignment_error(symbol.name, assign.token.span))
        } else {
            match type_of(scopes, *assign.value) {
                Err(error) => Some(error),
                Ok(found) => if symbol.symbol_type != found {
                    Some(
                        assignment_mismatch_error(
                            symbol.name,
                            symbol.symbol_type,
                            found,
                            assign.token.span,
                        ),
                    )
                } else {
                    None
                },
            }
        },
    }
}

/// What is wrong with an expression in a place that asks for a type: the
/// first error in it, or else what `refusal` holds against its type.
pub open spec fn typed_expr_error(
    scopes: Scopes,
    expr: ExprView,
    refusal: spec_fn(Type) -> Option<PulseErrorView>,
) -> Option<PulseErrorView> {
    first_of(
        expr_error(scopes, expr),
        match type_of(scopes, expr) {
            Err(error) => Some(error),
            Ok(found) => refusal(found),
        },
    )
}

/// What is wrong with a `return`. With a value, the value's first error,
/// or its type if that is not the return type of the function around it;
/// outside any function every type is taken. Without a value, that the
/// function around it returns something other than `Void`.
pub open spec fn return_error(
    scopes: Scopes,
    return_type: Option<Type>,
    stmt: ReturnView,
) -> Option<PulseErrorView> {
    match stmt.expr {
        Some(expr) => typed_expr_error(
            scopes,
            *expr,
            |found: Type|
                match return_type {
                    Some(expected) if found != expected => Some(
                        return_mismatch_error(expected, found, stmt.return_token.span),
                    ),
                    _ => None,
                },
        ),
        None => match return_type {
            Some(expected) if expected != Type::Void => Some(
                missing_return_value_error(expected, stmt.return_token.span),
            ),
            _ => None,
        },
    }
}

/// The type of a local binding: the annotated one, or else that of the
/// value it starts with.
pub open spec fn let_type(scopes: Scopes, binding: LetView) -> Result<Type, PulseErrorView> {
    match binding.type_annotation {
        Some(annotation) => Ok(type_named(annotation.type_token)),
        None => type_of(scopes, *binding.initializer),
    }
}

/// The symbol that a local binding declares: mutable, and of the binding's
/// type.
pub open spec fn let_symbol(binding: LetView, symbol_type: Type) -> SymbolView {
    SymbolView { name: binding.ident.span.literal, symbol_type, is_mutable: true }
}

/// The scopes after a local binding has been resolved: the name is
/// declared in the innermost scope, unless the binding's type cannot be
/// inferred or the name is declared there already.
pub open spec fn scopes_after_let(scopes: Scopes, binding: LetView) -> Scopes {
    match let_type(scopes, binding) {
        Err(_) => scopes,
        Ok(symbol_type) => match declare(
            scopes,
            binding.ident.span.literal,
            let_symbol(binding, symbol_type),
        ) {
            Ok(next) => next,
            Err(_) => scopes,
        },
    }
}

/// The first error in a local binding: its type cannot be inferred; its
/// name is declared already in the innermost scope; or the value it starts
/// with, resolved with the name bound, is not sound. An annotated type is
/// not held against the type of the value.
pub open spec fn let_error(scopes: Scopes, binding: LetView) -> Option<PulseErrorView> {
    match let_type(scopes, binding) {
        Err(error) => Some(error),
        Ok(symbol_type) => match declare(
            scopes,
            binding.ident.span.literal,
            let_symbol(binding, symbol_type),
        ) {
            Err(error) => Some(error),
            Ok(next) => expr_error(next, *binding.initializer),
        },
    }
}

/// The symbol that an import declares for one of its items: immutable and
/// of type `Void`.
pub open spec fn import_symbol(item: TokenView) -> SymbolView {
    SymbolView { name: item.span.literal, symbol_type: Type::Void, is_mutable: false }
}

/// The symbol that a function declares for one of its parameters: mutable
/// and of the annotated type.
pub open spec fn param_symbol(param: FnParamView) -> SymbolView {
    SymbolView {
        name: param.ident.span.literal,
        symbol_type: type_named(param.type_annotation.type_token),
        is_mutable: true,
    }
}

/// The return type of a function: the annotated one, or `Void`.
pub open spec fn declared_return_type(function: FnView) -> Type {
    match function.return_type {
        Some(annotation) => type_named(annotation.type_token),
        None => Type::Void,
    }
}

/// The symbol that a function declares for itself: immutable, and of the
/// function's return type.
pub open spec fn fn_symbol(function: FnView) -> SymbolView {
    SymbolView {
        name: function.name,
        symbol_type: declared_return_type(function),
        is_mutable: false,
    }
}

/// The scopes after a statement has been resolved, whether it was found
/// sound or not. Only the innermost scope can have changed: a function
/// declares its name there, and an import its items, up to the first that
/// is declared already. What a statement opens it closes.
pub open spec fn scopes_after(scopes: Scopes, stmt: StmtView) -> Scopes {
    match stmt {
        StmtView::Fn(function) => match declare(scopes, function.name, fn_symbol(function)) {
            Ok(next) => next,
            Err(_) => scopes,
        },
        StmtView::Import(import) => declare_each(
            scopes,
            import.items.map_values(|item: TokenView| import_symbol(item)),
            0,
        ).0,
        _ => scopes,
    }
}

/// The first error in a statement.
pub open spec fn stmt_error(scopes: Scopes, return_type: Option<Type>, stmt: StmtView) -> Option<
    PulseErrorView,
>
    decreases stmt, 0int,
{
    match stmt {
        StmtView::Expr(expr) => expr_error(scopes, *expr),
        StmtView::Import(import) => import_error(scopes, import),
        StmtView::Block(block) => block_error(scopes, return_type, block),
        StmtView::If(conditional) => if_error(scopes, return_type, conditional),
        StmtView::Return(stmt) => return_error(scopes, return_type, stmt),
        StmtView::Fn(function) => fn_error(scopes, function),
    }
}

/// The first error in the statements from the `from`-th on, each resolved
/// in the scopes that those before it have left.
pub open spec fn stmts_error(
    scopes: Scopes,
    return_type: Option<Type>,
    stmts: Seq<StmtView>,
    from: int,
) -> Option<PulseErrorView>
    decreases stmts, stmts.len() - from,
{
    if 0 <= from < stmts.len() {
        first_of(
            stmt_error(scopes, return_type, stmts[from]),
            stmts_error(scopes_after(scopes, stmts[from]), return_type, stmts, from + 1),
        )
    } else {
        None
    }
}

/// The scopes after the statements from the `from`-th on have been
/// resolved, up to and including the first that is not sound.
pub open spec fn scopes_after_each(
    scopes: Scopes,
    return_type: Option<Type>,
    stmts: Seq<StmtView>,
    from: int,
) -> Scopes
    decreases stmts.len() - from,
{
    if 0 <= from < stmts.len() {
        if stmt_error(scopes, return_type, stmts[from]) is Some {
            scopes_after(scopes, stmts[from])
        } else {
            scopes_after_each(scopes_after(scopes, stmts[from]), return_type, stmts, from + 1)
        }
    } else {
        scopes
    }
}

/// The first error in an import: an item whose name the innermost scope
/// binds already.
pub open spec fn import_error(scopes: Scopes, import: ImportView) -> Option<PulseErrorView> {
    declare_each(scopes, import.items.map_values(|item: TokenView| import_symbol(item)), 0).1
}

/// The first error in a block. Its statements are resolved in a scope of
/// their own.
pub open spec fn block_error(scopes: Scopes, return_type: Option<Type>, block: BlockView) -> Option<
    PulseErrorView,
>
    decreases block, 0int,
{
    stmts_error(scopes.push(Map::empty()), return_type, block.stmts, 0)
}

/// The first error in a branch of a conditional: a block in a scope of its
/// own.
pub open spec fn branch_error(scopes: Scopes, return_type: Option<Type>, block: BlockView) -> Option<
    PulseErrorView,
>
    decreases block, 1int,
{
    block_error(scopes.push(Map::empty()), return_type, block)
}

/// The first error in one `else if`: in its condition, which has to be of
/// type `Bool`, and then in its block.
pub open spec fn else_if_error(
    scopes: Scopes,
    return_type: Option<Type>,
    branch: ElseIfView,
) -> Option<PulseErrorView>
    decreases branch, 0int,
{
    first_of(
        typed_expr_error(
            scopes,
            *branch.condition,
            |found: Type|
                if found != Type::Bool {
                    Some(else_if_condition_error(found, branch.else_if_token.span))
                } else {
                    None
                },
        ),
        branch_error(scopes, return_type, branch.block),
    )
}

/// The first error in the `else if`s from the `from`-th on.
pub open spec fn else_ifs_error(
    scopes: Scopes,
    return_type: Option<Type>,
    branches: Seq<ElseIfView>,
    from: int,
) -> Option<PulseErrorView>
    decreases branches, branches.len() - from,
{
    if 0 <= from < branches.len() {
        first_of(
            else_if_error(scopes, return_type, branches[from]),
            else_ifs_error(scopes, return_type, branches, from + 1),
        )
    } else {
        None
    }
}

/// The first error in a conditional: in its condition, which has to be of
/// type `Bool`; in its first branch; in its `else if`s, one after the
/// other; in its `else` branch.
pub open spec fn if_error(scopes: Scopes, return_type: Option<Type>, conditional: IfView) -> Option<
    PulseErrorView,
>
    decreases conditional, 0int,
{
    first_of(
        typed_expr_error(
            scopes,
            *conditional.condition,
            |found: Type|
                if found != Type::Bool {
                    Some(if_condition_error(found, conditional.if_token.span))
                } else {
                    None
                },
        ),
        first_of(
            branch_error(scopes, return_type, conditional.then_block),
            first_of(
                else_ifs_error(scopes, return_type, conditional.else_ifs, 0),
                match conditional.else_block {
                    Some(block) => branch_error(scopes, return_type, block),
                    None => None,
                },
            ),
        ),
    )
}

/// The first error in a function declaration: its name is bound already
/// in the innermost scope; two of its parameters share a name; or its
/// body, resolved with the name and, in a scope of their own, the
/// parameters bound, and with the function's return type around it, is not
/// sound.
pub open spec fn fn_error(scopes: Scopes, function: FnView) -> Option<PulseErrorView>
    decreases function, 0int,
{
    match declare(scopes, function.name, fn_symbol(function)) {
        Err(error) => Some(error),
        Ok(outer) => {
            let params = declare_each(
                outer.push(Map::empty()),
                function.params.map_values(|param: FnParamView| param_symbol(param)),
                0,
            );
            first_of(
                params.1,
                block_error(params.0, Some(declared_return_type(function)), function.body),
            )
        },
    }
}

/// Declaring a symbol touches only the innermost scope.
pub proof fn lemma_declare_keeps_outer(scopes: Scopes, name: Seq<char>, symbol: SymbolView)
    ensures
        declare(scopes, name, symbol) matches Ok(next) ==> next.len() == scopes.len() && (
        scopes.len() > 0 ==> next.drop_last() == scopes.drop_last()),
{
}

/// Declaring symbols one by one touches only the innermost scope.
pub proof fn lemma_declare_each_keeps_outer(scopes: Scopes, symbols: Seq<SymbolView>, from: int)
    ensures
        declare_each(scopes, symbols, from).0.len() == scopes.len(),
        scopes.len() > 0 ==> declare_each(scopes, symbols, from).0.drop_last()
            == scopes.drop_last(),
    decreases symbols.len() - from,
{
    if 0 <= from < symbols.len() {
        lemma_declare_keeps_outer(scopes, symbols[from].name, symbols[from]);
        if let Ok(next) = declare(scopes, symbols[from].name, symbols[from]) {
            lemma_declare_each_keeps_outer(next, symbols, from + 1);
        }
    }
}

/// A statement touches only the innermost scope: what it opens it closes,
/// and what it declares it declares there.
pub proof fn lemma_scopes_after_keeps_outer(scopes: Scopes, stmt: StmtView)
    ensures
        scopes_after(scopes, stmt).len() == scopes.len(),
        scopes.len() > 0 ==> scopes_after(scopes, stmt).drop_last() == scopes.drop_last(),
{
    match stmt {
        StmtView::Fn(function) => {
            lemma_declare_keeps_outer(scopes, function.name, fn_symbol(function));
        },
        StmtView::Import(import) => {
            lemma_declare_each_keeps_outer(
                scopes,
                import.items.map_values(|item: TokenView| import_symbol(item)),
                0,
            );
        },
        _ => {},
    }
}

/// A sequence of statements touches only the innermost scope.
pub proof fn lemma_scopes_after_each_keeps_outer(
    scopes: Scopes,
    return_type: Option<Type>,
    stmts: Seq<StmtView>,
    from: int,
)
    ensures
        scopes_after_each(scopes, return_type, stmts, from).len() == scopes.len(),
        scopes.len() > 0 ==> scopes_after_each(scopes, return_type, stmts, from).drop_last()
            == scopes.drop_last(),
    decreases stmts.len() - from,
{
    if 0 <= from < stmts.len() {
        lemma_scopes_after_keeps_outer(scopes, stmts[from]);
        if stmt_error(scopes, return_type, stmts[from]) is None {
            lemma_scopes_after_each_keeps_outer(
                scopes_after(scopes, stmts[from]),
                return_type,
                stmts,
                from + 1,
            );
        }
    }
}

} // verus!
