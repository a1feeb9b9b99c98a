use crate::ast::ast::{
    lemma_else_ifs_view, lemma_stmts_view, params_view, stmts_view, Ast, Block, ElseIf, Fn,
    FnParam, FnParamView, If, Import, Let, Return, Stmt, StmtView,
};
use crate::error::{error_of, PulseError};
use crate::lexer::token::TokenView;
use crate::resolver::diagnostics::{
    else_if_condition, if_condition, missing_return_value, return_mismatch,
};
use crate::resolver::rules::{
    block_error, branch_error, declare_each, else_if_error, else_ifs_error, fn_error, if_error,
    import_error, import_symbol, let_error, lemma_declare_each_keeps_outer,
    lemma_scopes_after_each_keeps_outer, param_symbol, return_error, scopes_after,
    scopes_after_each, scopes_after_let, stmt_error, stmts_error,
};
use crate::resolver::{Resolver, Symbol, SymbolView, Type};
use vstd::prelude::*;

verus! {

impl Resolver {
    /// Resolves a program in the scopes that are open. It is sound if no
    /// statement breaks a rule; otherwise the first error is handed back.
    /// Afterwards the scopes that were open are open still, and the
    /// innermost holds what the top-level statements declared.
    pub fn resolve_ast(&mut self, ast: &Ast) -> (res: Result<(), PulseError>)
        ensures
            error_of(res) == stmts_error(
                old(self)@.scopes,
                old(self)@.return_type,
                ast@.stmts,
                0,
            ),
            final(self)@.scopes == scopes_after_each(
                old(self)@.scopes,
                old(self)@.return_type,
                ast@.stmts,
                0,
            ),
            final(self)@.return_type == old(self)@.return_type,
    {
        self.resolve_stmts(&ast.stmts)
    }

    /// Resolves statements one after the other, each in the scopes that
    /// those before it have left, up to the first that is not sound.
    #[verifier::loop_isolation(false)]
    pub fn resolve_stmts(&mut self, stmts: &Vec<Stmt>) -> (res: Result<(), PulseError>)
        ensures
            error_of(res) == stmts_error(
                old(self)@.scopes,
                old(self)@.return_type,
                stmts_view(*stmts, stmts.len() as int),
                0,
            ),
            final(self)@.scopes == scopes_after_each(
                old(self)@.scopes,
                old(self)@.return_type,
                stmts_view(*stmts, stmts.len() as int),
                0,
            ),
            final(self)@.return_type == old(self)@.return_type,
        decreases stmts, 0int,
    {
        let ghost views = stmts_view(*stmts, stmts.len() as int);
        let ghost return_type = self@.return_type;
        proof {
            lemma_stmts_view(*stmts, stmts.len() as int);
        }
        let mut i: usize = 0;
        while i < stmts.len()
            invariant
                i <= stmts.len(),
                self@.return_type == return_type,
                stmts_error(old(self)@.scopes, return_type, views, 0) == stmts_error(
                    self@.scopes,
                    return_type,
                    views,
                    i as int,
                ),
                scopes_after_each(old(self)@.scopes, return_type, views, 0) == scopes_after_each(
                    self@.scopes,
                    return_type,
                    views,
                    i as int,
                ),
            decreases stmts.len() - i,
        {
            let res = self.resolve_stmt(&stmts[i]);
            if res.is_err() {
                return res;
            }
            i += 1;
        }
        Ok(())
    }

    /// Resolves one statement.
    pub fn resolve_stmt(&mut self, stmt: &Stmt) -> (res: Result<(), PulseError>)
        ensures
            error_of(res) == stmt_error(old(self)@.scopes, old(self)@.return_type, stmt@),
            final(self)@.scopes == scopes_after(old(self)@.scopes, stmt@),
            final(self)@.return_type == old(self)@.return_type,
        decreases stmt, 0int,
    {
        match stmt {
            Stmt::Expr(expr) => self.resolve_expr(expr),
            Stmt::Import(import) => self.resolve_use(import),
            Stmt::Block(block) => self.resolve_block(block),
            Stmt::If(conditional) => self.resolve_if(conditional),
            Stmt::Return(stmt) => self.resolve_return(stmt),
            Stmt::Fn(function) => self.resolve_fn(function),
        }
    }

    /// Resolves an import: each item is declared in the innermost scope as
    /// an immutable symbol of type `Void`, up to the first that is declared
    /// there already.
    #[verifier::loop_isolation(false)]
    pub fn resolve_use(&mut self, import: &Import) -> (res: Result<(), PulseError>)
        ensures
            error_of(res) == import_error(old(self)@.scopes, import@),
            final(self)@.scopes == scopes_after(old(self)@.scopes, StmtView::Import(import@)),
            final(self)@.return_type == old(self)@.return_type,
    {
        let ghost symbols = import@.items.map_values(|item: TokenView| import_symbol(item));
        let mut i: usize = 0;
        while i < import.items.len()
            invariant
                i <= import.items.len(),
                symbols.len() == import.items.len(),
                self@.return_type == old(self)@.return_type,
                declare_each(old(self)@.scopes, symbols, 0) == declare_each(
                    self@.scopes,
                    symbols,
                    i as int,
                ),
            decreases import.items.len() - i,
        {
            let item = &import.items[i];
            let symbol = Symbol::new(item.literal(), Type::Void, false);
            self.define_symbol(item.literal(), symbol)?;
            i += 1;
        }
        Ok(())
    }

    /// Resolves a local binding. Its type is the annotated one, or else the
    /// type inferred for its value. The name is declared in the innermost
    /// scope as a mutable symbol of that type, and then the value is
    /// resolved with the name bound.
    pub fn resolve_let(&mut self, binding: &Let) -> (res: Result<(), PulseError>)
        ensures
            error_of(res) == let_error(old(self)@.scopes, binding@),
            final(self)@.scopes == scopes_after_let(old(self)@.scopes, binding@),
            final(self)@.return_type == old(self)@.return_type,
    {
        let symbol_type = match &binding.type_annotation {
            Some(annotation) => self.map_type(&annotation.type_token),
            None => self.infer_expr_type(&binding.initializer)?,
        };
        let symbol = Symbol::new(binding.ident.literal(), symbol_type, true);
        self.define_symbol(binding.ident.literal(), symbol)?;
        self.resolve_expr(&binding.initializer)
    }

    /// Declares the parameters of a function in the innermost scope, each a
    /// mutable symbol of its annotated type, up to the first whose name is
    /// declared there already.
    #[verifier::loop_isolation(false)]
    pub fn define_params(&mut self, params: &Vec<FnParam>) -> (res: Result<(), PulseError>)
        ensures
            error_of(res) == declare_each(
                old(self)@.scopes,
                params_view(*params).map_values(|param: FnParamView| param_symbol(param)),
                0,
            ).1,
            final(self)@.scopes == declare_each(
                old(self)@.scopes,
                params_view(*params).map_values(|param: FnParamView| param_symbol(param)),
                0,
            ).0,
            final(self)@.return_type == old(self)@.return_type,
    {
        let ghost symbols = params_view(*params).map_values(
            |param: FnParamView| param_symbol(param),
        );
        let mut i: usize = 0;
        while i < params.len()
            invariant
                i <= params.len(),
                symbols.len() == params.len(),
                self@.return_type == old(self)@.return_type,
                declare_each(old(self)@.scopes, symbols, 0) == declare_each(
                    self@.scopes,
                    symbols,
                    i as int,
                ),
            decreases params.len() - i,
        {
            let param = &params[i];
            let param_type = self.map_type(&param.type_annotation.type_token);
            let symbol = Symbol::new(param.ident.literal(), param_type, true);
            self.define_symbol(param.ident.literal(), symbol)?;
            i += 1;
        }
        Ok(())
    }

    /// Resolves a function declaration. The name is declared in the
    /// innermost scope, so that the body and what follows the function see
    /// it. The parameters get a scope of their own, inside which the body
    /// is resolved as a block, with the function's return type as the type
    /// that a `return` has to give. Afterwards the scopes opened are closed
    /// and the return type that held before holds again, whether the
    /// function was sound or not.
    pub fn resolve_fn(&mut self, function: &Fn) -> (res: Result<(), PulseError>)
        ensures
            error_of(res) == fn_error(old(self)@.scopes, function@),
            final(self)@.scopes == scopes_after(old(self)@.scopes, StmtView::Fn(function@)),
            final(self)@.return_type == old(self)@.return_type,
        decreases function, 0int,
    {
        let return_type = match &function.return_type {
            Some(annotation) => self.map_type(&annotation.type_token),
            None => Type::Void,
        };
        let symbol = Symbol::new(function.name.clone(), return_type, false);
        self.define_symbol(function.name.clone(), symbol)?;
        let ghost outer = self@.scopes;
        let previous = self.current_function_return_type;
        self.current_function_return_type = Some(return_type);
        self.begin_scope();
        let mut res = self.define_params(&function.params);
        if res.is_ok() {
            res = self.resolve_block(&function.body);
        }
        proof {
            lemma_declare_each_keeps_outer(
                outer.push(Map::empty()),
                params_view(function.params).map_values(|param: FnParamView| param_symbol(param)),
                0,
            );
        }
        self.end_scope();
        self.current_function_return_type = previous;
        res
    }

    /// Resolves a block in a scope of its own, and closes that scope
    /// whether the block was sound or not.
    pub fn resolve_block(&mut self, block: &Block) -> (res: Result<(), PulseError>)
        ensures
            error_of(res) == block_error(old(self)@.scopes, old(self)@.return_type, block@),
            final(self)@ == old(self)@,
        decreases block, 1int,
    {
        let ghost outer = self@.scopes;
        self.begin_scope();
        let res = self.resolve_stmts(&block.stmts);
        proof {
            lemma_scopes_after_each_keeps_outer(
                outer.push(Map::empty()),
                self@.return_type,
                block@.stmts,
                0,
            );
            assert(outer.push(Map::<Seq<char>, SymbolView>::empty()).drop_last() =~= outer);
        }
        self.end_scope();
        res
    }

    /// Resolves a branch of a conditional: a block inside a scope of its
    /// own.
    pub fn resolve_branch(&mut self, block: &Block) -> (res: Result<(), PulseError>)
        ensures
            error_of(res) == branch_error(old(self)@.scopes, old(self)@.return_type, block@),
            final(self)@ == old(self)@,
        decreases block, 2int,
    {
        let ghost outer = self@.scopes;
        self.begin_scope();
        let res = self.resolve_block(block);
        assert(outer.push(Map::<Seq<char>, SymbolView>::empty()).drop_last() =~= outer);
        self.end_scope();
        res
    }

    /// Resolves one `else if`: its condition has to be sound and of type
    /// `Bool`, and its block sound.
    pub fn resolve_else_if(&mut self, branch: &ElseIf) -> (res: Result<(), PulseError>)
        ensures
            error_of(res) == else_if_error(old(self)@.scopes, old(self)@.return_type, branch@),
            final(self)@ == old(self)@,
        decreases branch, 0int,
    {
        self.resolve_expr(&branch.condition)?;
        let found = self.infer_expr_type(&branch.condition)?;
        if found != Type::Bool {
            return Err(else_if_condition(found, &branch.else_if_token.span));
        }
        self.resolve_branch(&branch.block)
    }

    /// Resolves a conditional: the condition has to be sound and of type
    /// `Bool`; then the branches are resolved in their order.
    #[verifier::loop_isolation(false)]
    pub fn resolve_if(&mut self, conditional: &If) -> (res: Result<(), PulseError>)
        ensures
            error_of(res) == if_error(old(self)@.scopes, old(self)@.return_type, conditional@),
            final(self)@ == old(self)@,
        decreases conditional, 0int,
    {
        self.resolve_expr(&conditional.condition)?;
        let found = self.infer_expr_type(&conditional.condition)?;
        if found != Type::Bool {
            return Err(if_condition(found, &conditional.if_token.span));
        }
        self.resolve_branch(&conditional.then_block)?;
        proof {
            lemma_else_ifs_view(conditional.else_ifs, conditional.else_ifs.len() as int);
        }
        let ghost branches = conditional@.else_ifs;
        let mut i: usize = 0;
        while i < conditional.else_ifs.len()
            invariant
                i <= conditional.else_ifs.len(),
                self@ == old(self)@,
                else_ifs_error(self@.scopes, self@.return_type, branches, 0) == else_ifs_error(
                    self@.scopes,
                    self@.return_type,
                    branches,
                    i as int,
                ),
            decreases conditional.else_ifs.len() - i,
        {
            proof {
                assert(decreases_to!(conditional.else_ifs => conditional.else_ifs[i as int]));
            }
            self.resolve_else_if(&conditional.else_ifs[i])?;
            i += 1;
        }
        match &conditional.else_block {
            Some(block) => self.resolve_branch(block),
            None => Ok(()),
        }
    }

    /// Checks a `return` against the return type of the function around
    /// it.
    pub fn resolve_return(&self, stmt: &Return) -> (res: Result<(), PulseError>)
        ensures
            error_of(res) == return_error(self@.scopes, self@.return_type, stmt@),
    {
        match &stmt.expr {
            Some(expr) => {
                self.resolve_expr(expr)?;
                let found = self.infer_expr_type(expr)?;
                match self.current_function_return_type {
                    Some(expected) => {
                        if found != expected {
                            return Err(return_mismatch(expected, found, &stmt.return_token.span));
                        }
                    },
                    None => {},
                }
            },
            None => {
                match self.current_function_return_type {
                    Some(expected) => {
                        if expected != Type::Void {
                            return Err(missing_return_value(expected, &stmt.return_token.span));
                        }
                    },
                    None => {},
                }
            },
        }
        Ok(())
    }
}

} // verus!
