use crate::ast::ast::{
    lemma_exprs_view, Assign, Binary, Expr, ExprView, LiteralType, Logical, Unary, UnaryOp,
    Variable,
};
use crate::error::{error_of, PulseError};
use crate::lexer::token::{Token, TokenKind};
use crate::resolver::diagnostics::{
    arithmetic_unsupported, assignment_mismatch, comparison_mismatch, comparison_unsupported,
    complement_unsupported, immutable_assignment, logical_operands, negation_unsupported,
    operand_mismatch, undefined_function, undefined_variable,
};
use crate::resolver::rules::{
    binary_operator_error, expr_error, exprs_error, logical_operator_error, type_named, type_of,
    unary_operator_error, variable_error,
};
use crate::resolver::{Resolver, Type};
use vstd::prelude::*;

verus! {

impl Resolver {
    /// The type that a type annotation names.
    pub fn map_type(&self, type_token: &Token) -> (named: Type)
        ensures
            named == type_named(type_token@),
    {
        match type_token.kind {
            TokenKind::Identifier => {
                let name = type_token.span.literal.as_str();
                if name.eq("int") {
                    Type::Int
                } else if name.eq("float") {
                    Type::Float
                } else if name.eq("bool") {
                    Type::Bool
                } else if name.eq("string") {
                    Type::String
                } else {
                    Type::Void
                }
            },
            _ => Type::Void,
        }
    }

    /// The type of an expression. Nothing is checked but that the names it
    /// depends on are bound, and no state changes.
    pub fn infer_expr_type(&self, expr: &Expr) -> (res: Result<Type, PulseError>)
        ensures
            match res {
                Ok(found) => type_of(self@.scopes, expr@) matches Ok(inferred) && inferred == found,
                Err(error) => type_of(self@.scopes, expr@) matches Err(failure) && failure
                    == error@,
            },
        decreases expr,
    {
        match expr {
            Expr::Literal(literal) => Ok(
                match literal.value {
                    LiteralType::Int(_) => Type::Int,
                    LiteralType::Rational(_) => Type::Float,
                    LiteralType::Bool(_) => Type::Bool,
                    LiteralType::String(_) => Type::String,
                    LiteralType::Null => Type::Void,
                },
            ),
            Expr::Variable(variable) => match self.resolve_symbol(variable.ident.as_str()) {
                Some(symbol) => Ok(symbol.symbol_type()),
                None => Err(undefined_variable(variable.ident.as_str(), &variable.token.span)),
            },
            Expr::Binary(binary) => {
                if binary.operator.is_comparison() {
                    Ok(Type::Bool)
                } else if binary.operator.is_arithmetic() {
                    let left = self.infer_expr_type(&binary.left)?;
                    let right = self.infer_expr_type(&binary.right)?;
                    if left == right {
                        Ok(left)
                    } else {
                        Ok(Type::Void)
                    }
                } else {
                    Ok(Type::Void)
                }
            },
            Expr::Unary(unary) => self.infer_expr_type(&unary.expr),
            Expr::Logical(_) => Ok(Type::Bool),
            Expr::Parenthesized(inner) => self.infer_expr_type(&inner.expr),
            Expr::Call(call) => match self.resolve_symbol(call.callee.as_str()) {
                Some(symbol) => Ok(symbol.symbol_type()),
                None => Err(undefined_function(call.callee.as_str(), &call.token.span)),
            },
            Expr::Assign(assign) => self.infer_expr_type(&assign.value),
        }
    }

    /// Checks the operands of a binary operator against each other and
    /// against the operator.
    pub fn check_binary_operator(&self, binary: &Binary) -> (res: Result<(), PulseError>)
        ensures
            error_of(res) == binary_operator_error(self@.scopes, binary@),
    {
        let left = self.infer_expr_type(&binary.left)?;
        let right = self.infer_expr_type(&binary.right)?;
        if binary.operator.is_arithmetic() {
            if left != right {
                return Err(operand_mismatch(left, right, &binary.token.span));
            }
            if left != Type::Int && left != Type::Float {
                return Err(arithmetic_unsupported(binary.operator, left, &binary.token.span));
            }
            Ok(())
        } else if binary.operator.is_comparison() {
            if left != right {
                return Err(comparison_mismatch(&binary.token.span));
            }
            if left != Type::Int && left != Type::Float && left != Type::Bool && left
                != Type::String {
                return Err(comparison_unsupported(binary.operator, left, &binary.token.span));
            }
            Ok(())
        } else {
            Ok(())
        }
    }

    /// Checks the operand of a unary operator against the operator.
    pub fn check_unary_operator(&self, unary: &Unary) -> (res: Result<(), PulseError>)
        ensures
            error_of(res) == unary_operator_error(self@.scopes, unary@),
    {
        let operand = self.infer_expr_type(&unary.expr)?;
        match unary.operator {
            UnaryOp::Minus => {
                if operand != Type::Int && operand != Type::Float {
                    return Err(negation_unsupported(operand, &unary.token.span));
                }
            },
            UnaryOp::Not => {
                if operand != Type::Int {
                    return Err(complement_unsupported(operand, &unary.token.span));
                }
            },
        }
        Ok(())
    }

    /// Checks that both operands of `and` or `or` are of type `Bool`.
    pub fn check_logical_operator(&self, logical: &Logical) -> (res: Result<(), PulseError>)
        ensures
            error_of(res) == logical_operator_error(self@.scopes, logical@),
    {
        let left = self.infer_expr_type(&logical.left)?;
        let right = self.infer_expr_type(&logical.right)?;
        if left != Type::Bool || right != Type::Bool {
            return Err(logical_operands(&logical.token.span));
        }
        Ok(())
    }

    /// Checks that a variable is bound.
    pub fn resolve_variable(&self, variable: &Variable) -> (res: Result<(), PulseError>)
        ensures
            error_of(res) == variable_error(self@.scopes, variable@),
    {
        if self.resolve_symbol(variable.ident.as_str()).is_none() {
            return Err(undefined_variable(variable.ident.as_str(), &variable.token.span));
        }
        Ok(())
    }

    /// Checks an assignment: the target is bound and mutable, the value is
    /// of the target's type, and the value is sound.
    pub fn resolve_assign(&self, assign: &Assign) -> (res: Result<(), PulseError>)
        ensures
            error_of(res) == expr_error(self@.scopes, ExprView::Assign(assign@)),
        decreases assign,
    {
        match self.resolve_symbol(assign.ident.ident.as_str()) {
            Some(symbol) => {
                if !symbol.is_mutable() {
                    return Err(immutable_assignment(symbol.name().as_str(), &assign.token.span));
                }
                let found = self.infer_expr_type(&assign.value)?;
                if symbol.symbol_type() != found {
                    return Err(
                        assignment_mismatch(
                            symbol.name().as_str(),
                            symbol.symbol_type(),
                            found,
                            &assign.token.span,
                        ),
                    );
                }
            },
            None => {
                return Err(
                    undefined_variable(assign.ident.ident.as_str(), &assign.ident.token.span),
                );
            },
        }
        self.resolve_expr(&assign.value)
    }

    /// Checks an expression: every name in it is bound, every operator has
    /// operands that it takes, every assignment is allowed. The first
    /// failure is reported, and no state changes.
    #[verifier::loop_isolation(false)]
    pub fn resolve_expr(&self, expr: &Expr) -> (res: Result<(), PulseError>)
        ensures
            error_of(res) == expr_error(self@.scopes, expr@),
        decreases expr,
    {
        match expr {
            Expr::Literal(_) => Ok(()),
            Expr::Variable(variable) => self.resolve_variable(variable),
            Expr::Binary(binary) => {
                self.resolve_expr(&binary.left)?;
                self.resolve_expr(&binary.right)?;
                self.check_binary_operator(binary)
            },
            Expr::Unary(unary) => {
                self.resolve_expr(&unary.expr)?;
                self.check_unary_operator(unary)
            },
            Expr::Logical(logical) => {
                self.resolve_expr(&logical.left)?;
                self.resolve_expr(&logical.right)?;
                self.check_logical_operator(logical)
            },
            Expr::Parenthesized(inner) => self.resolve_expr(&inner.expr),
            Expr::Call(call) => {
                if self.resolve_symbol(call.callee.as_str()).is_none() {
                    return Err(undefined_function(call.callee.as_str(), &call.token.span));
                }
                proof {
                    lemma_exprs_view(call.args, call.args.len() as int);
                }
                let mut i: usize = 0;
                while i < call.args.len()
                    invariant
                        i <= call.args.len(),
                        call@.args.len() == call.args.len(),
                        forall|j: int|
                            0 <= j < call.args.len() ==> call@.args[j] == (#[trigger] call.args[
                                j
                            ])@,
                        exprs_error(self@.scopes, call@.args, 0) == exprs_error(
                            self@.scopes,
                            call@.args,
                            i as int,
                        ),
                    decreases call.args.len() - i,
                {
                    proof {
                        assert(decreases_to!(*expr => expr->Call_0));
                        assert(decreases_to!(expr->Call_0.args => call.args[i as int]));
                    }
                    self.resolve_expr(&call.args[i])?;
                    i += 1;
                }
                Ok(())
            },
            Expr::Assign(assign) => self.resolve_assign(assign),
        }
    }
}

} // verus!
