use crate::ast::ast::{AssignView, ExprView, IfView, ReturnView, StmtView, VariableView};
use crate::error::PulseErrorView;
use crate::resolver::diagnostics::{
    assignment_mismatch_error, duplicate_declaration_error, if_condition_error,
    immutable_assignment_error, missing_return_value_error, return_mismatch_error,
    undefined_variable_error,
};
use crate::resolver::rules::{
    declare, expr_error, exprs_error, if_error, lookup, return_error, stmt_error, type_of,
    typed_expr_error, Scopes,
};
use crate::resolver::{SymbolView, Type};
use vstd::prelude::*;

verus! {

/// A name that has just been declared stands for the symbol it was declared
/// with.
pub proof fn lemma_declared_is_found(scopes: Scopes, name: Seq<char>, symbol: SymbolView)
    requires
        scopes.len() > 0,
    ensures
        declare(scopes, name, symbol) matches Ok(next) ==> lookup(next, name) == Some(symbol),
{
}

/// Two declarations of one name in one scope: the second fails with the
/// error of a duplicate declaration, whatever the two symbols are.
pub proof fn lemma_redeclaration_fails(
    scopes: Scopes,
    name: Seq<char>,
    first: SymbolView,
    second: SymbolView,
)
    requires
        scopes.len() > 0,
    ensures
        declare(scopes, name, first) matches Ok(next) ==> declare(next, name, second) == Err::<
            Scopes,
            PulseErrorView,
        >(duplicate_declaration_error(name)),
{
}

/// A declaration in a scope that has just been opened succeeds, whether an
/// outer scope binds the name or not. Inside the new scope the name stands
/// for the new symbol; the outer scopes are as they were, so that once the
/// new scope is closed the name stands for what it stood for before.
pub proof fn lemma_shadowing_succeeds(scopes: Scopes, name: Seq<char>, symbol: SymbolView)
    ensures
        declare(scopes.push(Map::empty()), name, symbol) is Ok,
        lookup(declare(scopes.push(Map::empty()), name, symbol)->Ok_0, name) == Some(symbol),
        declare(scopes.push(Map::empty()), name, symbol)->Ok_0.drop_last() == scopes,
{
}

/// An assignment to a name that is not bound fails with the error of an
/// undefined variable at the name, whatever the value is: the value is not
/// looked into.
pub proof fn lemma_assignment_to_undefined_fails(scopes: Scopes, assign: AssignView)
    requires
        lookup(scopes, assign.ident.ident) is None,
    ensures
        expr_error(scopes, ExprView::Assign(assign)) == Some(
            undefined_variable_error(assign.ident.ident, assign.ident.token.span),
        ),
{
}

/// An assignment to a binding that is not mutable fails with the error of
/// an assignment to an immutable variable, at the assignment, whatever
/// the value is.
pub proof fn lemma_assignment_to_immutable_fails(scopes: Scopes, assign: AssignView)
    requires
        lookup(scopes, assign.ident.ident) matches Some(symbol) && !symbol.is_mutable,
    ensures
        expr_error(scopes, ExprView::Assign(assign)) == Some(
            immutable_assignment_error(
                lookup(scopes, assign.ident.ident)->Some_0.name,
                assign.token.span,
            ),
        ),
{
}

/// An assignment to a mutable binding of a value whose type is not the
/// type of the binding fails with the error of a type mismatch, at the
/// assignment, naming the type expected and the type found.
pub proof fn lemma_assignment_of_other_type_fails(scopes: Scopes, assign: AssignView)
    requires
        lookup(scopes, assign.ident.ident) matches Some(symbol) && symbol.is_mutable,
        type_of(scopes, *assign.value) matches Ok(found) && found != lookup(
            scopes,
            assign.ident.ident,
        )->Some_0.symbol_type,
    ensures
        expr_error(scopes, ExprView::Assign(assign)) == Some(
            assignment_mismatch_error(
                lookup(scopes, assign.ident.ident)->Some_0.name,
                lookup(scopes, assign.ident.ident)->Some_0.symbol_type,
                type_of(scopes, *assign.value)->Ok_0,
                assign.token.span,
            ),
        ),
{
}

/// Type inference, walking `expr`, comes to the reference `target` before
/// anything makes it fail. It looks into the operands of an arithmetic
/// operator, left before right, into the operand of a unary operator,
/// between parentheses and into the value of an assignment, and nowhere
/// else.
pub open spec fn inference_reaches(scopes: Scopes, expr: ExprView, target: VariableView) -> bool
    decreases expr,
{
    match expr {
        ExprView::Variable(variable) => variable == target,
        ExprView::Binary(binary) => !binary.operator.spec_is_comparison()
            && binary.operator.spec_is_arithmetic() && (inference_reaches(
            scopes,
            *binary.left,
            target,
        ) || (type_of(scopes, *binary.left) is Ok && inference_reaches(
            scopes,
            *binary.right,
            target,
        ))),
        ExprView::Unary(unary) => inference_reaches(scopes, *unary.expr, target),
        ExprView::Parenthesized(inner) => inference_reaches(scopes, *inner.expr, target),
        ExprView::Assign(assign) => inference_reaches(scopes, *assign.value, target),
        _ => false,
    }
}

/// The resolver, walking `expr`, comes to the reference `target` before it
/// finds any error: `target` is the expression itself, or the variable
/// that an assignment goes to, or stands in a part of the expression, and
/// every part that the resolver looks at before that one is sound.
pub open spec fn resolver_reaches(scopes: Scopes, expr: ExprView, target: VariableView) -> bool
    decreases expr, 0int,
{
    match expr {
        ExprView::Literal(_) => false,
        ExprView::Variable(variable) => variable == target,
        ExprView::Binary(binary) => resolver_reaches(scopes, *binary.left, target) || (expr_error(
            scopes,
            *binary.left,
        ) is None && resolver_reaches(scopes, *binary.right, target)),
        ExprView::Unary(unary) => resolver_reaches(scopes, *unary.expr, target),
        ExprView::Logical(logical) => resolver_reaches(scopes, *logical.left, target) || (
        expr_error(scopes, *logical.left) is None && resolver_reaches(
            scopes,
            *logical.right,
            target,
        )),
        ExprView::Parenthesized(inner) => resolver_reaches(scopes, *inner.expr, target),
        ExprView::Call(call) => lookup(scopes, call.callee) is Some && resolver_reaches_one_of(
            scopes,
            call.args,
            0,
            target,
        ),
        ExprView::Assign(assign) => assign.ident == target || {
            &&& lookup(scopes, assign.ident.ident) matches Some(symbol)
            &&& symbol.is_mutable
            &&& inference_reaches(scopes, *assign.value, target) || (type_of(
                scopes,
                *assign.value,
            ) == Ok::<Type, PulseErrorView>(symbol.symbol_type) && resolver_reaches(
                scopes,
                *assign.value,
                target,
            ))
        },
    }
}

/// The resolver, walking the expressions from the `from`-th on, comes to
/// the reference `target` before it finds any error.
pub open spec fn resolver_reaches_one_of(
    scopes: Scopes,
    exprs: Seq<ExprView>,
    from: int,
    target: VariableView,
) -> bool
    decreases exprs, exprs.len() - from,
{
    0 <= from < exprs.len() && (resolver_reaches(scopes, exprs[from], target) || (expr_error(
        scopes,
        exprs[from],
    ) is None && resolver_reaches_one_of(scopes, exprs, from + 1, target)))
}

/// Where type inference comes to a reference to a name that is not bound,
/// it fails with the error of an undefined variable at that reference.
pub proof fn lemma_inference_stops_at_undefined(
    scopes: Scopes,
    expr: ExprView,
    target: VariableView,
)
    requires
        lookup(scopes, target.ident) is None,
        inference_reaches(scopes, expr, target),
    ensures
        type_of(scopes, expr) == Err::<Type, PulseErrorView>(
            undefined_variable_error(target.ident, target.token.span),
        ),
    decreases expr,
{
    match expr {
        ExprView::Binary(binary) => {
            if inference_reaches(scopes, *binary.left, target) {
                lemma_inference_stops_at_undefined(scopes, *binary.left, target);
            } else {
                lemma_inference_stops_at_undefined(scopes, *binary.right, target);
            }
        },
        ExprView::Unary(unary) => {
            lemma_inference_stops_at_undefined(scopes, *unary.expr, target);
        },
        ExprView::Parenthesized(inner) => {
            lemma_inference_stops_at_undefined(scopes, *inner.expr, target);
        },
        ExprView::Assign(assign) => {
            lemma_inference_stops_at_undefined(scopes, *assign.value, target);
        },
        _ => {},
    }
}

/// A reference to a name that is not bound makes resolution fail with the
/// error of an undefined variable whose span is that of the reference,
/// wherever in the expression the reference stands, be it read or
/// assigned to, as long as the resolver comes to it: as long as nothing
/// that it looks at before is itself at fault.
pub proof fn lemma_undefined_variable_is_reported(
    scopes: Scopes,
    expr: ExprView,
    target: VariableView,
)
    requires
        lookup(scopes, target.ident) is None,
        resolver_reaches(scopes, expr, target),
    ensures
        expr_error(scopes, expr) == Some(undefined_variable_error(target.ident, target.token.span)),
    decreases expr, 0int,
{
    match expr {
        ExprView::Binary(binary) => {
            if resolver_reaches(scopes, *binary.left, target) {
                lemma_undefined_variable_is_reported(scopes, *binary.left, target);
            } else {
                lemma_undefined_variable_is_reported(scopes, *binary.right, target);
            }
        },
        ExprView::Unary(unary) => {
            lemma_undefined_variable_is_reported(scopes, *unary.expr, target);
        },
        ExprView::Logical(logical) => {
            if resolver_reaches(scopes, *logical.left, target) {
                lemma_undefined_variable_is_reported(scopes, *logical.left, target);
            } else {
                lemma_undefined_variable_is_reported(scopes, *logical.right, target);
            }
        },
        ExprView::Parenthesized(inner) => {
            lemma_undefined_variable_is_reported(scopes, *inner.expr, target);
        },
        ExprView::Call(call) => {
            lemma_undefined_variable_among(scopes, call.args, 0, target);
        },
        ExprView::Assign(assign) => {
            if assign.ident != target {
                if inference_reaches(scopes, *assign.value, target) {
                    lemma_inference_stops_at_undefined(scopes, *assign.value, target);
                } else {
                    lemma_undefined_variable_is_reported(scopes, *assign.value, target);
                }
            }
        },
        _ => {},
    }
}

/// The same for the arguments of a call.
pub proof fn lemma_undefined_variable_among(
    scopes: Scopes,
    exprs: Seq<ExprView>,
    from: int,
    target: VariableView,
)
    requires
        lookup(scopes, target.ident) is None,
        resolver_reaches_one_of(scopes, exprs, from, target),
    ensures
        exprs_error(scopes, exprs, from) == Some(
            undefined_variable_error(target.ident, target.token.span),
        ),
    decreases exprs, exprs.len() - from,
{
    if resolver_reaches(scopes, exprs[from], target) {
        lemma_undefined_variable_is_reported(scopes, exprs[from], target);
    } else {
        lemma_undefined_variable_among(scopes, exprs, from + 1, target);
    }
}

/// The same one level up: for an expression that stands as a statement,
/// and for one that stands where a type is asked of it, as the condition
/// of a conditional and the value of a `return` do.
pub proof fn lemma_undefined_variable_in_statement(
    scopes: Scopes,
    return_type: Option<Type>,
    expr: ExprView,
    target: VariableView,
    refusal: spec_fn(Type) -> Option<PulseErrorView>,
)
    requires
        lookup(scopes, target.ident) is None,
        resolver_reaches(scopes, expr, target),
    ensures
        stmt_error(scopes, return_type, StmtView::Expr(Box::new(expr))) == Some(
            undefined_variable_error(target.ident, target.token.span),
        ),
        typed_expr_error(scopes, expr, refusal) == Some(
            undefined_variable_error(target.ident, target.token.span),
        ),
{
    lemma_undefined_variable_is_reported(scopes, expr, target);
}

/// A conditional whose condition is sound but not of type `Bool` fails with
/// the error of a condition that is not boolean, at the `if`, naming the
/// type found, whatever its branches hold.
pub proof fn lemma_condition_must_be_bool(
    scopes: Scopes,
    return_type: Option<Type>,
    conditional: IfView,
)
    requires
        expr_error(scopes, *conditional.condition) is None,
        type_of(scopes, *conditional.condition) matches Ok(found) && found != Type::Bool,
    ensures
        if_error(scopes, return_type, conditional) == Some(
            if_condition_error(
                type_of(scopes, *conditional.condition)->Ok_0,
                conditional.if_token.span,
            ),
        ),
{
}

/// A `return` of a sound value whose type is not the return type of the
/// function around it fails with the error of a type mismatch, at the
/// `return`, naming the type expected and the type found.
pub proof fn lemma_return_of_other_type_fails(scopes: Scopes, expected: Type, stmt: ReturnView)
    requires
        stmt.expr matches Some(value) && expr_error(scopes, *value) is None && (type_of(
            scopes,
            *value,
        ) matches Ok(found) && found != expected),
    ensures
        return_error(scopes, Some(expected), stmt) == Some(
            return_mismatch_error(
                expected,
                type_of(scopes, *stmt.expr->Some_0)->Ok_0,
                stmt.return_token.span,
            ),
        ),
{
}

/// A `return` without a value in a function that returns something other
/// than `Void` fails with the error of a missing value, at the `return`.
pub proof fn lemma_return_without_value_fails(scopes: Scopes, expected: Type, stmt: ReturnView)
    requires
        stmt.expr is None,
        expected != Type::Void,
    ensures
        return_error(scopes, Some(expected), stmt) == Some(
            missing_return_value_error(expected, stmt.return_token.span),
        ),
{
}

/// Inference and checking agree. An expression in which the resolver finds
/// no error has a type: inference does not fail on it. And where that
/// expression is an arithmetic operation, its type is the type of both
/// operands and is `Int` or `Float`: the `Void` that inference gives to
/// operands that disagree is never the type of a sound expression.
pub proof fn lemma_sound_expression_has_type(scopes: Scopes, expr: ExprView)
    requires
        expr_error(scopes, expr) is None,
    ensures
        type_of(scopes, expr) is Ok,
        expr is Binary && expr->Binary_0.operator.spec_is_arithmetic() ==> {
            &&& type_of(scopes, expr) == type_of(scopes, *expr->Binary_0.left)
            &&& type_of(scopes, expr) == type_of(scopes, *expr->Binary_0.right)
            &&& type_of(scopes, expr)->Ok_0 == Type::Int || type_of(scopes, expr)->Ok_0
                == Type::Float
        },
    decreases expr,
{
    match expr {
        ExprView::Binary(binary) => {
            lemma_sound_expression_has_type(scopes, *binary.left);
            lemma_sound_expression_has_type(scopes, *binary.right);
        },
        ExprView::Unary(unary) => {
            lemma_sound_expression_has_type(scopes, *unary.expr);
        },
        ExprView::Parenthesized(inner) => {
            lemma_sound_expression_has_type(scopes, *inner.expr);
        },
        ExprView::Assign(assign) => {
            lemma_sound_expression_has_type(scopes, *assign.value);
        },
        _ => {},
    }
}

} // verus!
