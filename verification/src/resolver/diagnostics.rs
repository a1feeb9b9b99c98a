use crate::ast::ast::BinOp;
use crate::error::{PulseError, PulseErrorView};
use crate::lexer::span::{TextSpan, TextSpanView};
use crate::resolver::Type;
use vstd::prelude::*;
use vstd::string::StringExecFns;

verus! {

// What the resolver reports. Each error has a function that says what it is
// and, under the same name without the ending, one that builds it.

pub open spec fn duplicate_declaration_error(name: Seq<char>) -> PulseErrorView {
    PulseErrorView::ResolverError("Duplicate declaration of '"@ + name + "'"@)
}

pub fn duplicate_declaration(name: &str) -> (error: PulseError)
    ensures
        error@ == duplicate_declaration_error(name@),
{
    PulseError::ResolverError(String::from_str("Duplicate declaration of '").concat(name).concat("'"))
}

pub open spec fn undefined_variable_error(name: Seq<char>, span: TextSpanView) -> PulseErrorView {
    PulseErrorView::SemanticError("Undefined variable '"@ + name + "'"@, span)
}

pub fn undefined_variable(name: &str, span: &TextSpan) -> (error: PulseError)
    ensures
        error@ == undefined_variable_error(name@, span@),
{
    PulseError::SemanticError(
        String::from_str("Undefined variable '").concat(name).concat("'"),
        span.clone(),
    )
}

pub open spec fn undefined_function_error(name: Seq<char>, span: TextSpanView) -> PulseErrorView {
    PulseErrorView::SemanticError("Undefined function '"@ + name + "'"@, span)
}

pub fn undefined_function(name: &str, span: &TextSpan) -> (error: PulseError)
    ensures
        error@ == undefined_function_error(name@, span@),
{
    PulseError::SemanticError(
        String::from_str("Undefined function '").concat(name).concat("'"),
        span.clone(),
    )
}

pub open spec fn if_condition_error(found: Type, span: TextSpanView) -> PulseErrorView {
    PulseErrorView::SemanticError(
        "Condition in 'if' statement must be of type Bool, found "@ + found.spec_name(),
        span,
    )
}

pub fn if_condition(found: Type, span: &TextSpan) -> (error: PulseError)
    ensures
        error@ == if_condition_error(found, span@),
{
    PulseError::SemanticError(
        String::from_str("Condition in 'if' statement must be of type Bool, found ").concat(
            found.name(),
        ),
        span.clone(),
    )
}

pub open spec fn else_if_condition_error(found: Type, span: TextSpanView) -> PulseErrorView {
    PulseErrorView::SemanticError(
        "Condition in 'else if' statement must be of type Bool, found "@ + found.spec_name(),
        span,
    )
}

pub fn else_if_condition(found: Type, span: &TextSpan) -> (error: PulseError)
    ensures
        error@ == else_if_condition_error(found, span@),
{
    PulseError::SemanticError(
        String::from_str("Condition in 'else if' statement must be of type Bool, found ").concat(
            found.name(),
        ),
        span.clone(),
    )
}

pub open spec fn return_mismatch_error(
    expected: Type,
    found: Type,
    span: TextSpanView,
) -> PulseErrorView {
    PulseErrorView::SemanticError(
        "Type mismatch in return statement: expected "@ + expected.spec_name() + ", found "@
            + found.spec_name(),
        span,
    )
}

pub fn return_mismatch(expected: Type, found: Type, span: &TextSpan) -> (error: PulseError)
    ensures
        error@ == return_mismatch_error(expected, found, span@),
{
    PulseError::SemanticError(
        String::from_str("Type mismatch in return statement: expected ").concat(
            expected.name(),
        ).concat(", found ").concat(found.name()),
        span.clone(),
    )
}

pub open spec fn missing_return_value_error(expected: Type, span: TextSpanView) -> PulseErrorView {
    PulseErrorView::SemanticError(
        "Return statement missing expression: expected return type "@ + expected.spec_name(),
        span,
    )
}

pub fn missing_return_value(expected: Type, span: &TextSpan) -> (error: PulseError)
    ensures
        error@ == missing_return_value_error(expected, span@),
{
    PulseError::SemanticError(
        String::from_str("Return statement missing expression: expected return type ").concat(
            expected.name(),
        ),
        span.clone(),
    )
}

pub open spec fn logical_operands_error(span: TextSpanView) -> PulseErrorView {
    PulseErrorView::SemanticError("Logical operations require Bool operands"@, span)
}

pub fn logical_operands(span: &TextSpan) -> (error: PulseError)
    ensures
        error@ == logical_operands_error(span@),
{
    PulseError::SemanticError(
        String::from_str("Logical operations require Bool operands"),
        span.clone(),
    )
}

pub open spec fn immutable_assignment_error(name: Seq<char>, span: TextSpanView) -> PulseErrorView {
    PulseErrorView::SemanticError("Cannot assign to immutable variable '"@ + name + "'"@, span)
}

pub fn immutable_assignment(name: &str, span: &TextSpan) -> (error: PulseError)
    ensures
        error@ == immutable_assignment_error(name@, span@),
{
    PulseError::SemanticError(
        String::from_str("Cannot assign to immutable variable '").concat(name).concat("'"),
        span.clone(),
    )
}

pub open spec fn assignment_mismatch_error(
    name: Seq<char>,
    expected: Type,
    found: Type,
    span: TextSpanView,
) -> PulseErrorView {
    PulseErrorView::SemanticError(
        "Type mismatch in assignment to '"@ + name + "': expected "@ + expected.spec_name()
            + ", found "@ + found.spec_name(),
        span,
    )
}

pub fn assignment_mismatch(name: &str, expected: Type, found: Type, span: &TextSpan) -> (error:
    PulseError)
    ensures
        error@ == assignment_mismatch_error(name@, expected, found, span@),
{
    PulseError::SemanticError(
        String::from_str("Type mismatch in assignment to '").concat(name).concat(
            "': expected ",
        ).concat(expected.name()).concat(", found ").concat(found.name()),
        span.clone(),
    )
}

pub open spec fn operand_mismatch_error(left: Type, right: Type, span: TextSpanView) -> PulseErrorView {
    PulseErrorView::SemanticError(
        "Type mismatch in binary operation: "@ + left.spec_name() + " and "@ + right.spec_name(),
        span,
    )
}

pub fn operand_mismatch(left: Type, right: Type, span: &TextSpan) -> (error: PulseError)
    ensures
        error@ == operand_mismatch_error(left, right, span@),
{
    PulseError::SemanticError(
        String::from_str("Type mismatch in binary operation: ").concat(left.name()).concat(
            " and ",
        ).concat(right.name()),
        span.clone(),
    )
}

pub open spec fn arithmetic_unsupported_error(
    operator: BinOp,
    operand: Type,
    span: TextSpanView,
) -> PulseErrorView {
    PulseErrorView::SemanticError(
        "Binary operator '"@ + operator.spec_name() + "' not supported for type "@
            + operand.spec_name(),
        span,
    )
}

pub fn arithmetic_unsupported(operator: BinOp, operand: Type, span: &TextSpan) -> (error:
    PulseError)
    ensures
        error@ == arithmetic_unsupported_error(operator, operand, span@),
{
    PulseError::SemanticError(
        String::from_str("Binary operator '").concat(operator.name()).concat(
            "' not supported for type ",
        ).concat(operand.name()),
        span.clone(),
    )
}

pub open spec fn comparison_mismatch_error(span: TextSpanView) -> PulseErrorView {
    PulseErrorView::SemanticError("Comparison operators require operands of the same type"@, span)
}

pub fn comparison_mismatch(span: &TextSpan) -> (error: PulseError)
    ensures
        error@ == comparison_mismatch_error(span@),
{
    PulseError::SemanticError(
        String::from_str("Comparison operators require operands of the same type"),
        span.clone(),
    )
}

pub open spec fn comparison_unsupported_error(
    operator: BinOp,
    operand: Type,
    span: TextSpanView,
) -> PulseErrorView {
    PulseErrorView::SemanticError(
        "Comparison operator '"@ + operator.spec_name() + "' not supported for type "@
            + operand.spec_name(),
        span,
    )
}

pub fn comparison_unsupported(operator: BinOp, operand: Type, span: &TextSpan) -> (error:
    PulseError)
    ensures
        error@ == comparison_unsupported_error(operator, operand, span@),
{
    PulseError::SemanticError(
        String::from_str("Comparison operator '").concat(operator.name()).concat(
            "' not supported for type ",
        ).concat(operand.name()),
        span.clone(),
    )
}

pub open spec fn negation_unsupported_error(operand: Type, span: TextSpanView) -> PulseErrorView {
    PulseErrorView::SemanticError(
        "Unary operator '-' not supported for type "@ + operand.spec_name(),
        span,
    )
}

pub fn negation_unsupported(operand: Type, span: &TextSpan) -> (error: PulseError)
    ensures
        error@ == negation_unsupported_error(operand, span@),
{
    PulseError::SemanticError(
        String::from_str("Unary operator '-' not supported for type ").concat(operand.name()),
        span.clone(),
    )
}

pub open spec fn complement_unsupported_error(operand: Type, span: TextSpanView) -> PulseErrorView {
    PulseErrorView::SemanticError(
        "Unary operator '~' not supported for type "@ + operand.spec_name(),
        span,
    )
}

pub fn complement_unsupported(operand: Type, span: &TextSpan) -> (error: PulseError)
    ensures
        error@ == complement_unsupported_error(operand, span@),
{
    PulseError::SemanticError(
        String::from_str("Unary operator '~' not supported for type ").concat(operand.name()),
        span.clone(),
    )
}

} // verus!
