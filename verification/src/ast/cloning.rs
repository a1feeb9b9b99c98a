use crate::ast::ast::{
    lemma_else_ifs_view, lemma_exprs_view, lemma_stmts_view, params_view, Assign,
    Ast, Binary, Block, CallExpr, ElseIf, Expr, Fn, FnParam, FunctionType, If, Import, Let,
    Literal, LiteralType, Logical, Parenthesized, Return, Stmt, TypeAnnotation, Unary, Variable,
};
use crate::lexer::token::{tokens_view, Token};
use vstd::prelude::*;

verus! {

impl Clone for LiteralType {
    fn clone(&self) -> (res: Self)
        ensures
            res@ == self@,
    {
        match self {
            LiteralType::Int(value) => LiteralType::Int(*value),
            LiteralType::Rational(bits) => LiteralType::Rational(*bits),
            LiteralType::String(text) => LiteralType::String(text.clone()),
            LiteralType::Bool(value) => LiteralType::Bool(*value),
            LiteralType::Null => LiteralType::Null,
        }
    }
}

impl Clone for Literal {
    fn clone(&self) -> (res: Self)
        ensures
            res@ == self@,
    {
        Literal { token: self.token.clone(), value: self.value.clone() }
    }
}

impl Clone for Variable {
    fn clone(&self) -> (res: Self)
        ensures
            res@ == self@,
    {
        Variable { ident: self.ident.clone(), token: self.token.clone() }
    }
}

impl Clone for Binary {
    fn clone(&self) -> (res: Self)
        ensures
            res@ == self@,
        decreases self,
    {
        Binary {
            left: Box::new((*self.left).clone()),
            operator: self.operator,
            right: Box::new((*self.right).clone()),
            token: self.token.clone(),
        }
    }
}

impl Clone for Unary {
    fn clone(&self) -> (res: Self)
        ensures
            res@ == self@,
        decreases self,
    {
        Unary {
            operator: self.operator,
            expr: Box::new((*self.expr).clone()),
            token: self.token.clone(),
        }
    }
}

impl Clone for Logical {
    fn clone(&self) -> (res: Self)
        ensures
            res@ == self@,
        decreases self,
    {
        Logical {
            left: Box::new((*self.left).clone()),
            operator: self.operator,
            right: Box::new((*self.right).clone()),
            token: self.token.clone(),
        }
    }
}

impl Clone for Parenthesized {
    fn clone(&self) -> (res: Self)
        ensures
            res@ == self@,
        decreases self,
    {
        Parenthesized { expr: Box::new((*self.expr).clone()) }
    }
}

impl Clone for CallExpr {
    fn clone(&self) -> (res: Self)
        ensures
            res@ == self@,
        decreases self,
    {
        let mut args: Vec<Expr> = Vec::new();
        let mut i: usize = 0;
        while i < self.args.len()
            invariant
                i <= self.args.len(),
                args.len() == i,
                forall|j: int| 0 <= j < i ==> (#[trigger] args[j])@ == self.args[j]@,
            decreases self.args.len() - i,
        {
            proof {
                assert(decreases_to!(self.args => self.args[i as int]));
            }
            args.push(self.args[i].clone());
            i += 1;
        }
        let res = CallExpr { callee: self.callee.clone(), args, token: self.token.clone() };
        proof {
            lemma_exprs_view(self.args, self.args.len() as int);
            lemma_exprs_view(res.args, res.args.len() as int);
            assert(res@.args =~= self@.args);
        }
        res
    }
}

impl Clone for Assign {
    fn clone(&self) -> (res: Self)
        ensures
            res@ == self@,
        decreases self,
    {
        Assign {
            ident: self.ident.clone(),
            value: Box::new((*self.value).clone()),
            token: self.token.clone(),
        }
    }
}

impl Clone for Expr {
    fn clone(&self) -> (res: Self)
        ensures
            res@ == self@,
        decreases self,
    {
        match self {
            Expr::Literal(literal) => Expr::Literal(literal.clone()),
            Expr::Binary(binary) => Expr::Binary(binary.clone()),
            Expr::Unary(unary) => Expr::Unary(unary.clone()),
            Expr::Variable(variable) => Expr::Variable(variable.clone()),
            Expr::Logical(logical) => Expr::Logical(logical.clone()),
            Expr::Parenthesized(inner) => Expr::Parenthesized(inner.clone()),
            Expr::Call(call) => Expr::Call(call.clone()),
            Expr::Assign(assign) => Expr::Assign(assign.clone()),
        }
    }
}

impl Clone for TypeAnnotation {
    fn clone(&self) -> (res: Self)
        ensures
            res@ == self@,
    {
        TypeAnnotation { colon: self.colon.clone(), type_token: self.type_token.clone() }
    }
}

impl Clone for FunctionType {
    fn clone(&self) -> (res: Self)
        ensures
            res@ == self@,
    {
        FunctionType { arrow: self.arrow.clone(), type_token: self.type_token.clone() }
    }
}

impl Clone for FnParam {
    fn clone(&self) -> (res: Self)
        ensures
            res@ == self@,
    {
        FnParam { ident: self.ident.clone(), type_annotation: self.type_annotation.clone() }
    }
}

impl Clone for Import {
    fn clone(&self) -> (res: Self)
        ensures
            res@ == self@,
    {
        let mut items: Vec<Token> = Vec::new();
        let mut i: usize = 0;
        while i < self.items.len()
            invariant
                i <= self.items.len(),
                items.len() == i,
                forall|j: int| 0 <= j < i ==> (#[trigger] items[j])@ == self.items[j]@,
            decreases self.items.len() - i,
        {
            items.push(self.items[i].clone());
            i += 1;
        }
        let res = Import {
            import_token: self.import_token.clone(),
            from: self.from.clone(),
            items,
        };
        assert(tokens_view(res.items) =~= tokens_view(self.items));
        res
    }
}

impl Clone for Let {
    fn clone(&self) -> (res: Self)
        ensures
            res@ == self@,
    {
        Let {
            let_token: self.let_token.clone(),
            ident: self.ident.clone(),
            type_annotation: match &self.type_annotation {
                Some(annotation) => Some(annotation.clone()),
                None => None,
            },
            initializer: Box::new((*self.initializer).clone()),
        }
    }
}

impl Clone for Return {
    fn clone(&self) -> (res: Self)
        ensures
            res@ == self@,
    {
        Return {
            return_token: self.return_token.clone(),
            expr: match &self.expr {
                Some(expr) => Some(Box::new((**expr).clone())),
                None => None,
            },
        }
    }
}

impl Clone for Block {
    fn clone(&self) -> (res: Self)
        ensures
            res@ == self@,
        decreases self,
    {
        let mut stmts: Vec<Stmt> = Vec::new();
        let mut i: usize = 0;
        while i < self.stmts.len()
            invariant
                i <= self.stmts.len(),
                stmts.len() == i,
                forall|j: int| 0 <= j < i ==> (#[trigger] stmts[j])@ == self.stmts[j]@,
            decreases self.stmts.len() - i,
        {
            proof {
                assert(decreases_to!(self.stmts => self.stmts[i as int]));
            }
            stmts.push(self.stmts[i].clone());
            i += 1;
        }
        let res = Block { stmts };
        proof {
            lemma_stmts_view(self.stmts, self.stmts.len() as int);
            lemma_stmts_view(res.stmts, res.stmts.len() as int);
            assert(res@.stmts =~= self@.stmts);
        }
        res
    }
}

impl Clone for ElseIf {
    fn clone(&self) -> (res: Self)
        ensures
            res@ == self@,
        decreases self,
    {
        ElseIf {
            else_if_token: self.else_if_token.clone(),
            condition: Box::new((*self.condition).clone()),
            block: self.block.clone(),
        }
    }
}

impl Clone for If {
    fn clone(&self) -> (res: Self)
        ensures
            res@ == self@,
        decreases self,
    {
        let mut else_ifs: Vec<ElseIf> = Vec::new();
        let mut i: usize = 0;
        while i < self.else_ifs.len()
            invariant
                i <= self.else_ifs.len(),
                else_ifs.len() == i,
                forall|j: int| 0 <= j < i ==> (#[trigger] else_ifs[j])@ == self.else_ifs[j]@,
            decreases self.else_ifs.len() - i,
        {
            proof {
                assert(decreases_to!(self.else_ifs => self.else_ifs[i as int]));
            }
            else_ifs.push(self.else_ifs[i].clone());
            i += 1;
        }
        let res = If {
            if_token: self.if_token.clone(),
            condition: Box::new((*self.condition).clone()),
            then_block: self.then_block.clone(),
            else_ifs,
            else_block: match &self.else_block {
                Some(block) => Some(block.clone()),
                None => None,
            },
        };
        proof {
            lemma_else_ifs_view(self.else_ifs, self.else_ifs.len() as int);
            lemma_else_ifs_view(res.else_ifs, res.else_ifs.len() as int);
            assert(res@.else_ifs =~= self@.else_ifs);
        }
        res
    }
}

impl Clone for Fn {
    fn clone(&self) -> (res: Self)
        ensures
            res@ == self@,
        decreases self,
    {
        let mut params: Vec<FnParam> = Vec::new();
        let mut i: usize = 0;
        while i < self.params.len()
            invariant
                i <= self.params.len(),
                params.len() == i,
                forall|j: int| 0 <= j < i ==> (#[trigger] params[j])@ == self.params[j]@,
            decreases self.params.len() - i,
        {
            params.push(self.params[i].clone());
            i += 1;
        }
        let res = Fn {
            fn_token: self.fn_token.clone(),
            name: self.name.clone(),
            params,
            body: self.body.clone(),
            exported: self.exported,
            return_type: match &self.return_type {
                Some(annotation) => Some(annotation.clone()),
                None => None,
            },
        };
        assert(params_view(res.params) =~= params_view(self.params));
        res
    }
}

impl Clone for Stmt {
    fn clone(&self) -> (res: Self)
        ensures
            res@ == self@,
        decreases self,
    {
        match self {
            Stmt::Expr(expr) => Stmt::Expr(Box::new((**expr).clone())),
            Stmt::Import(import) => Stmt::Import(import.clone()),
            Stmt::Block(block) => Stmt::Block(block.clone()),
            Stmt::If(conditional) => Stmt::If(conditional.clone()),
            Stmt::Return(stmt) => Stmt::Return(stmt.clone()),
            Stmt::Fn(function) => Stmt::Fn(function.clone()),
        }
    }
}

impl Clone for Ast {
    fn clone(&self) -> (res: Self)
        ensures
            res@ == self@,
    {
        let mut stmts: Vec<Stmt> = Vec::new();
        let mut i: usize = 0;
        while i < self.stmts.len()
            invariant
                i <= self.stmts.len(),
                stmts.len() == i,
                forall|j: int| 0 <= j < i ==> (#[trigger] stmts[j])@ == self.stmts[j]@,
            decreases self.stmts.len() - i,
        {
            stmts.push(self.stmts[i].clone());
            i += 1;
        }
        let res = Ast { stmts };
        proof {
            lemma_stmts_view(self.stmts, self.stmts.len() as int);
            lemma_stmts_view(res.stmts, res.stmts.len() as int);
            assert(res@.stmts =~= self@.stmts);
        }
        res
    }
}

} // verus!
