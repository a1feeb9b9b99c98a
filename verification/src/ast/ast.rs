use crate::lexer::token::{tokens_view, Token, TokenView};
use vstd::prelude::*;

verus! {

/// A parsed program: its top-level statements in source order.
#[derive(Debug, PartialEq, Eq)]
pub struct Ast {
    pub stmts: Vec<Stmt>,
}

/// A statement.
#[derive(Debug, PartialEq, Eq)]
pub enum Stmt {
    Expr(Box<Expr>),
    Import(Import),
    Block(Block),
    If(If),
    Return(Return),
    Fn(Fn),
}

/// One parameter of a function: its name and its type annotation.
#[derive(Debug, PartialEq, Eq)]
pub struct FnParam {
    pub ident: Token,
    pub type_annotation: TypeAnnotation,
}

/// `: type` after a parameter's name.
#[derive(Debug, PartialEq, Eq)]
pub struct TypeAnnotation {
    pub colon: Token,
    pub type_token: Token,
}

/// `-> type` after a function's parameter list.
#[derive(Debug, PartialEq, Eq)]
pub struct FunctionType {
    pub arrow: Token,
    pub type_token: Token,
}

/// A function declaration. `fn_token` is the token that introduced it;
/// `exported` says whether `export` stood before that.
#[derive(Debug, PartialEq, Eq)]
pub struct Fn {
    pub fn_token: Token,
    pub name: String,
    pub params: Vec<FnParam>,
    pub body: Block,
    pub exported: bool,
    pub return_type: Option<FunctionType>,
}

/// A conditional: `if`, any number of `else if`, and `else` or not.
#[derive(Debug, PartialEq, Eq)]
pub struct If {
    pub if_token: Token,
    pub condition: Box<Expr>,
    pub then_block: Block,
    pub else_ifs: Vec<ElseIf>,
    pub else_block: Option<Block>,
}

/// One `else if` of a conditional.
#[derive(Debug, PartialEq, Eq)]
pub struct ElseIf {
    pub else_if_token: Token,
    pub condition: Box<Expr>,
    pub block: Block,
}

/// An import of the items named from the module named.
#[derive(Debug, PartialEq, Eq)]
pub struct Import {
    pub import_token: Token,
    pub from: Token,
    pub items: Vec<Token>,
}

/// A brace-delimited sequence of statements, and a scope of its own when
/// names are resolved.
#[derive(Debug, PartialEq, Eq)]
pub struct Block {
    pub stmts: Vec<Stmt>,
}

/// A local binding, `let name = value`, with `: type` after the name or
/// without. No statement of the grammar holds one so far: the node is what
/// the resolver's rule for bindings is stated on.
#[derive(Debug, PartialEq, Eq)]
pub struct Let {
    pub let_token: Token,
    pub ident: Token,
    pub type_annotation: Option<TypeAnnotation>,
    pub initializer: Box<Expr>,
}

/// `return`, with a value or without.
#[derive(Debug, PartialEq, Eq)]
pub struct Return {
    pub return_token: Token,
    pub expr: Option<Box<Expr>>,
}

/// The value of a literal. A rational is held as the bit pattern of its
/// IEEE 754 double: the front end carries the number and never computes
/// with it.
#[derive(Debug, PartialEq, Eq)]
pub enum LiteralType {
    Int(i64),
    Rational(u64),
    String(String),
    Bool(bool),
    Null,
}

/// A literal: its token and the value that the token spells.
#[derive(Debug, PartialEq, Eq)]
pub struct Literal {
    pub token: Token,
    pub value: LiteralType,
}

/// An infix operator.
#[derive(Debug, PartialEq, Eq, Hash, Clone, Copy, Structural)]
pub enum BinOp {
    Plus,
    Minus,
    Asterisk,
    Slash,
    Equals,
    Ampersand,
    Pipe,
    Caret,
    DoubleAsterisk,
    Percent,
    Tilde,
    GreaterThan,
    LessThan,
    GreaterThanEquals,
    LessThanEquals,
    EqualsEquals,
    BangEquals,
    Increment,
    Decrement,
    MinusEquals,
    PlusEquals,
}

/// An operation on two operands. `token` is that of the operator.
#[derive(Debug, PartialEq, Eq)]
pub struct Binary {
    pub left: Box<Expr>,
    pub operator: BinOp,
    pub right: Box<Expr>,
    pub token: Token,
}

/// A prefix operator: arithmetic negation, written `-`, or bitwise
/// complement, written `~`.
#[derive(Debug, PartialEq, Eq, Hash, Clone, Copy, Structural)]
pub enum UnaryOp {
    Minus,
    Not,
}

/// An operation on one operand. `token` is that of the operator.
#[derive(Debug, PartialEq, Eq)]
pub struct Unary {
    pub operator: UnaryOp,
    pub expr: Box<Expr>,
    pub token: Token,
}

/// A reference to a variable by its name.
#[derive(Debug, PartialEq, Eq)]
pub struct Variable {
    pub ident: String,
    pub token: Token,
}

/// `and` or `or`.
#[derive(Debug, PartialEq, Eq, Hash, Clone, Copy, Structural)]
pub enum LogicalOp {
    And,
    Or,
}

/// `and` or `or` of two operands. `token` is that of the operator.
#[derive(Debug, PartialEq, Eq)]
pub struct Logical {
    pub left: Box<Expr>,
    pub operator: LogicalOp,
    pub right: Box<Expr>,
    pub token: Token,
}

/// An expression between parentheses.
#[derive(Debug, PartialEq, Eq)]
pub struct Parenthesized {
    pub expr: Box<Expr>,
}

/// A call of the function named with the arguments given. `token` is
/// that of the name.
#[derive(Debug, PartialEq, Eq)]
pub struct CallExpr {
    pub callee: String,
    pub args: Vec<Expr>,
    pub token: Token,
}

/// An assignment of a value to a variable. `token` is that of the `=`.
#[derive(Debug, PartialEq, Eq)]
pub struct Assign {
    pub ident: Variable,
    pub value: Box<Expr>,
    pub token: Token,
}

/// An expression.
#[derive(Debug, PartialEq, Eq)]
pub enum Expr {
    Literal(Literal),
    Binary(Binary),
    Unary(Unary),
    Variable(Variable),
    Logical(Logical),
    Parenthesized(Parenthesized),
    Call(CallExpr),
    Assign(Assign),
}

// The mathematical values of the nodes: the same trees, with sequences for
// vectors and sequences of characters for strings.

pub struct AstView {
    pub stmts: Seq<StmtView>,
}

pub enum StmtView {
    Expr(Box<ExprView>),
    Import(ImportView),
    Block(BlockView),
    If(IfView),
    Return(ReturnView),
    Fn(FnView),
}

pub struct FnParamView {
    pub ident: TokenView,
    pub type_annotation: TypeAnnotationView,
}

pub struct TypeAnnotationView {
    pub colon: TokenView,
    pub type_token: TokenView,
}

pub struct FunctionTypeView {
    pub arrow: TokenView,
    pub type_token: TokenView,
}

pub struct FnView {
    pub fn_token: TokenView,
    pub name: Seq<char>,
    pub params: Seq<FnParamView>,
    pub body: BlockView,
    pub exported: bool,
    pub return_type: Option<FunctionTypeView>,
}

pub struct IfView {
    pub if_token: TokenView,
    pub condition: Box<ExprView>,
    pub then_block: BlockView,
    pub else_ifs: Seq<ElseIfView>,
    pub else_block: Option<BlockView>,
}

pub struct ElseIfView {
    pub else_if_token: TokenView,
    pub condition: Box<ExprView>,
    pub block: BlockView,
}

pub struct ImportView {
    pub import_token: TokenView,
    pub from: TokenView,
    pub items: Seq<TokenView>,
}

pub struct BlockView {
    pub stmts: Seq<StmtView>,
}

pub struct LetView {
    pub let_token: TokenView,
    pub ident: TokenView,
    pub type_annotation: Option<TypeAnnotationView>,
    pub initializer: Box<ExprView>,
}

pub struct ReturnView {
    pub return_token: TokenView,
    pub expr: Option<Box<ExprView>>,
}

pub enum LiteralTypeView {
    Int(i64),
    Rational(u64),
    String(Seq<char>),
    Bool(bool),
    Null,
}

pub struct LiteralView {
    pub token: TokenView,
    pub value: LiteralTypeView,
}

pub struct BinaryView {
    pub left: Box<ExprView>,
    pub operator: BinOp,
    pub right: Box<ExprView>,
    pub token: TokenView,
}

pub struct UnaryView {
    pub operator: UnaryOp,
    pub expr: Box<ExprView>,
    pub token: TokenView,
}

pub struct VariableView {
    pub ident: Seq<char>,
    pub token: TokenView,
}

pub struct LogicalView {
    pub left: Box<ExprView>,
    pub operator: LogicalOp,
    pub right: Box<ExprView>,
    pub token: TokenView,
}

pub struct ParenthesizedView {
    pub expr: Box<ExprView>,
}

pub struct CallExprView {
    pub callee: Seq<char>,
    pub args: Seq<ExprView>,
    pub token: TokenView,
}

pub struct AssignView {
    pub ident: VariableView,
    pub value: Box<ExprView>,
    pub token: TokenView,
}

pub enum ExprView {
    Literal(LiteralView),
    Binary(BinaryView),
    Unary(UnaryView),
    Variable(VariableView),
    Logical(LogicalView),
    Parenthesized(ParenthesizedView),
    Call(CallExprView),
    Assign(AssignView),
}

/// The values of the first `upto` expressions of a vector, in their order.
pub open spec fn exprs_view(exprs: Vec<Expr>, upto: int) -> Seq<ExprView>
    decreases exprs, upto,
{
    if 0 < upto <= exprs.len() {
        exprs_view(exprs, upto - 1).push(exprs[upto - 1]@)
    } else {
        Seq::empty()
    }
}

/// The values of the first `upto` statements of a vector, in their order.
pub open spec fn stmts_view(stmts: Vec<Stmt>, upto: int) -> Seq<StmtView>
    decreases stmts, upto,
{
    if 0 < upto <= stmts.len() {
        stmts_view(stmts, upto - 1).push(stmts[upto - 1]@)
    } else {
        Seq::empty()
    }
}

/// The values of the first `upto` branches of a vector, in their order.
pub open spec fn else_ifs_view(branches: Vec<ElseIf>, upto: int) -> Seq<ElseIfView>
    decreases branches, upto,
{
    if 0 < upto <= branches.len() {
        else_ifs_view(branches, upto - 1).push(branches[upto - 1]@)
    } else {
        Seq::empty()
    }
}

/// The value of a vector of expressions has the vector's length and holds
/// the value of each expression at its place.
pub proof fn lemma_exprs_view(exprs: Vec<Expr>, upto: int)
    requires
        0 <= upto <= exprs.len(),
    ensures
        exprs_view(exprs, upto).len() == upto,
        forall|i: int|
            #![trigger exprs_view(exprs, upto)[i]]
            #![trigger exprs[i]]
            0 <= i < upto ==> exprs_view(exprs, upto)[i] == exprs[i]@,
    decreases upto,
{
    if upto > 0 {
        lemma_exprs_view(exprs, upto - 1);
        assert(exprs_view(exprs, upto) == exprs_view(exprs, upto - 1).push(exprs[upto - 1]@));
    }
}

/// The value of a vector of statements has the vector's length and holds
/// the value of each statement at its place.
pub proof fn lemma_stmts_view(stmts: Vec<Stmt>, upto: int)
    requires
        0 <= upto <= stmts.len(),
    ensures
        stmts_view(stmts, upto).len() == upto,
        forall|i: int|
            #![trigger stmts_view(stmts, upto)[i]]
            #![trigger stmts[i]]
            0 <= i < upto ==> stmts_view(stmts, upto)[i] == stmts[i]@,
    decreases upto,
{
    if upto > 0 {
        lemma_stmts_view(stmts, upto - 1);
        assert(stmts_view(stmts, upto) == stmts_view(stmts, upto - 1).push(stmts[upto - 1]@));
    }
}

/// The value of a vector of branches has the vector's length and holds the
/// value of each branch at its place.
pub proof fn lemma_else_ifs_view(branches: Vec<ElseIf>, upto: int)
    requires
        0 <= upto <= branches.len(),
    ensures
        else_ifs_view(branches, upto).len() == upto,
        forall|i: int|
            #![trigger else_ifs_view(branches, upto)[i]]
            #![trigger branches[i]]
            0 <= i < upto ==> else_ifs_view(branches, upto)[i] == branches[i]@,
    decreases upto,
{
    if upto > 0 {
        lemma_else_ifs_view(branches, upto - 1);
        assert(else_ifs_view(branches, upto) == else_ifs_view(branches, upto - 1).push(
            branches[upto - 1]@,
        ));
    }
}

/// The values of the parameters of a vector, in their order.
pub open spec fn params_view(params: Vec<FnParam>) -> Seq<FnParamView> {
    Seq::new(params.len() as nat, |i: int| params[i]@)
}

impl View for LiteralType {
    type V = LiteralTypeView;

    open spec fn view(&self) -> LiteralTypeView {
        match self {
            LiteralType::Int(value) => LiteralTypeView::Int(*value),
            LiteralType::Rational(bits) => LiteralTypeView::Rational(*bits),
            LiteralType::String(text) => LiteralTypeView::String(text@),
            LiteralType::Bool(value) => LiteralTypeView::Bool(*value),
            LiteralType::Null => LiteralTypeView::Null,
        }
    }
}

impl View for Literal {
    type V = LiteralView;

    open spec fn view(&self) -> LiteralView {
        LiteralView { token: self.token@, value: self.value@ }
    }
}

impl View for Variable {
    type V = VariableView;

    open spec fn view(&self) -> VariableView {
        VariableView { ident: self.ident@, token: self.token@ }
    }
}

impl View for Binary {
    type V = BinaryView;

    open spec fn view(&self) -> BinaryView
        decreases self,
    {
        BinaryView {
            left: Box::new((*self.left)@),
            operator: self.operator,
            right: Box::new((*self.right)@),
            token: self.token@,
        }
    }
}

impl View for Unary {
    type V = UnaryView;

    open spec fn view(&self) -> UnaryView
        decreases self,
    {
        UnaryView { operator: self.operator, expr: Box::new((*self.expr)@), token: self.token@ }
    }
}

impl View for Logical {
    type V = LogicalView;

    open spec fn view(&self) -> LogicalView
        decreases self,
    {
        LogicalView {
            left: Box::new((*self.left)@),
            operator: self.operator,
            right: Box::new((*self.right)@),
            token: self.token@,
        }
    }
}

impl View for Parenthesized {
    type V = ParenthesizedView;

    open spec fn view(&self) -> ParenthesizedView
        decreases self,
    {
        ParenthesizedView { expr: Box::new((*self.expr)@) }
    }
}

impl View for Assign {
    type V = AssignView;

    open spec fn view(&self) -> AssignView
        decreases self,
    {
        AssignView { ident: self.ident@, value: Box::new((*self.value)@), token: self.token@ }
    }
}

impl View for Expr {
    type V = ExprView;

    open spec fn view(&self) -> ExprView
        decreases self,
    {
        match self {
            Expr::Literal(literal) => ExprView::Literal(literal@),
            Expr::Binary(binary) => ExprView::Binary(binary@),
            Expr::Unary(unary) => ExprView::Unary(unary@),
            Expr::Variable(variable) => ExprView::Variable(variable@),
            Expr::Logical(logical) => ExprView::Logical(logical@),
            Expr::Parenthesized(inner) => ExprView::Parenthesized(inner@),
            Expr::Call(call) => ExprView::Call(call@),
            Expr::Assign(assign) => ExprView::Assign(assign@),
        }
    }
}

impl View for CallExpr {
    type V = CallExprView;

    open spec fn view(&self) -> CallExprView
        decreases self,
    {
        CallExprView {
            callee: self.callee@,
            args: exprs_view(self.args, self.args.len() as int),
            token: self.token@,
        }
    }
}

impl View for TypeAnnotation {
    type V = TypeAnnotationView;

    open spec fn view(&self) -> TypeAnnotationView {
        TypeAnnotationView { colon: self.colon@, type_token: self.type_token@ }
    }
}

impl View for FunctionType {
    type V = FunctionTypeView;

    open spec fn view(&self) -> FunctionTypeView {
        FunctionTypeView { arrow: self.arrow@, type_token: self.type_token@ }
    }
}

impl View for FnParam {
    type V = FnParamView;

    open spec fn view(&self) -> FnParamView {
        FnParamView { ident: self.ident@, type_annotation: self.type_annotation@ }
    }
}

impl View for Import {
    type V = ImportView;

    open spec fn view(&self) -> ImportView {
        ImportView {
            import_token: self.import_token@,
            from: self.from@,
            items: tokens_view(self.items),
        }
    }
}

impl View for Let {
    type V = LetView;

    open spec fn view(&self) -> LetView {
        LetView {
            let_token: self.let_token@,
            ident: self.ident@,
            type_annotation: match self.type_annotation {
                Some(annotation) => Some(annotation@),
                None => None,
            },
            initializer: Box::new((*self.initializer)@),
        }
    }
}

impl View for Return {
    type V = ReturnView;

    open spec fn view(&self) -> ReturnView {
        ReturnView {
            return_token: self.return_token@,
            expr: match self.expr {
                Some(expr) => Some(Box::new((*expr)@)),
                None => None,
            },
        }
    }
}

impl View for Block {
    type V = BlockView;

    open spec fn view(&self) -> BlockView
        decreases self,
    {
        BlockView {
            stmts: stmts_view(self.stmts, self.stmts.len() as int),
        }
    }
}

impl View for ElseIf {
    type V = ElseIfView;

    open spec fn view(&self) -> ElseIfView
        decreases self,
    {
        ElseIfView {
            else_if_token: self.else_if_token@,
            condition: Box::new((*self.condition)@),
            block: self.block@,
        }
    }
}

impl View for If {
    type V = IfView;

    open spec fn view(&self) -> IfView
        decreases self,
    {
        IfView {
            if_token: self.if_token@,
            condition: Box::new((*self.condition)@),
            then_block: self.then_block@,
            else_ifs: else_ifs_view(self.else_ifs, self.else_ifs.len() as int),
            else_block: match self.else_block {
                Some(block) => Some(block@),
                None => None,
            },
        }
    }
}

impl View for Fn {
    type V = FnView;

    open spec fn view(&self) -> FnView
        decreases self,
    {
        FnView {
            fn_token: self.fn_token@,
            name: self.name@,
            params: params_view(self.params),
            body: self.body@,
            exported: self.exported,
            return_type: match self.return_type {
                Some(return_type) => Some(return_type@),
                None => None,
            },
        }
    }
}

impl View for Stmt {
    type V = StmtView;

    open spec fn view(&self) -> StmtView
        decreases self,
    {
        match self {
            Stmt::Expr(expr) => StmtView::Expr(Box::new((**expr)@)),
            Stmt::Import(import) => StmtView::Import(import@),
            Stmt::Block(block) => StmtView::Block(block@),
            Stmt::If(if_stmt) => StmtView::If(if_stmt@),
            Stmt::Return(return_stmt) => StmtView::Return(return_stmt@),
            Stmt::Fn(function) => StmtView::Fn(function@),
        }
    }
}

impl View for Ast {
    type V = AstView;

    open spec fn view(&self) -> AstView {
        AstView { stmts: stmts_view(self.stmts, self.stmts.len() as int) }
    }
}

impl BinOp {
    /// The name under which an operator appears in diagnostics.
    pub open spec fn spec_name(self) -> Seq<char> {
        match self {
            BinOp::Plus => "Plus"@,
            BinOp::Minus => "Minus"@,
            BinOp::Asterisk => "Asterisk"@,
            BinOp::Slash => "Slash"@,
            BinOp::Equals => "Equals"@,
            BinOp::Ampersand => "Ampersand"@,
            BinOp::Pipe => "Pipe"@,
            BinOp::Caret => "Caret"@,
            BinOp::DoubleAsterisk => "DoubleAsterisk"@,
            BinOp::Percent => "Percent"@,
            BinOp::Tilde => "Tilde"@,
            BinOp::GreaterThan => "GreaterThan"@,
            BinOp::LessThan => "LessThan"@,
            BinOp::GreaterThanEquals => "GreaterThanEquals"@,
            BinOp::LessThanEquals => "LessThanEquals"@,
            BinOp::EqualsEquals => "EqualsEquals"@,
            BinOp::BangEquals => "BangEquals"@,
            BinOp::Increment => "Increment"@,
            BinOp::Decrement => "Decrement"@,
            BinOp::MinusEquals => "MinusEquals"@,
            BinOp::PlusEquals => "PlusEquals"@,
        }
    }

    pub fn name(&self) -> (text: &'static str)
        ensures
            text@ == self.spec_name(),
    {
        match self {
            BinOp::Plus => "Plus",
            BinOp::Minus => "Minus",
            BinOp::Asterisk => "Asterisk",
            BinOp::Slash => "Slash",
            BinOp::Equals => "Equals",
            BinOp::Ampersand => "Ampersand",
            BinOp::Pipe => "Pipe",
            BinOp::Caret => "Caret",
            BinOp::DoubleAsterisk => "DoubleAsterisk",
            BinOp::Percent => "Percent",
            BinOp::Tilde => "Tilde",
            BinOp::GreaterThan => "GreaterThan",
            BinOp::LessThan => "LessThan",
            BinOp::GreaterThanEquals => "GreaterThanEquals",
            BinOp::LessThanEquals => "LessThanEquals",
            BinOp::EqualsEquals => "EqualsEquals",
            BinOp::BangEquals => "BangEquals",
            BinOp::Increment => "Increment",
            BinOp::Decrement => "Decrement",
            BinOp::MinusEquals => "MinusEquals",
            BinOp::PlusEquals => "PlusEquals",
        }
    }

    /// `+ - * / ** %`.
    pub open spec fn spec_is_arithmetic(self) -> bool {
        matches!(
            self,
            BinOp::Plus | BinOp::Minus | BinOp::Asterisk | BinOp::Slash | BinOp::DoubleAsterisk
                | BinOp::Percent
        )
    }

    pub fn is_arithmetic(&self) -> (yes: bool)
        ensures
            yes == self.spec_is_arithmetic(),
    {
        matches!(
            self,
            BinOp::Plus | BinOp::Minus | BinOp::Asterisk | BinOp::Slash | BinOp::DoubleAsterisk
                | BinOp::Percent
        )
    }

    /// `> < == != <= >=`.
    pub open spec fn spec_is_comparison(self) -> bool {
        matches!(
            self,
            BinOp::GreaterThan | BinOp::LessThan | BinOp::EqualsEquals | BinOp::BangEquals
                | BinOp::LessThanEquals | BinOp::GreaterThanEquals
        )
    }

    pub fn is_comparison(&self) -> (yes: bool)
        ensures
            yes == self.spec_is_comparison(),
    {
        matches!(
            self,
            BinOp::GreaterThan | BinOp::LessThan | BinOp::EqualsEquals | BinOp::BangEquals
                | BinOp::LessThanEquals | BinOp::GreaterThanEquals
        )
    }
}

impl Ast {
    /// The empty program.
    pub fn new() -> (ast: Self)
        ensures
            ast.stmts@ == Seq::<Stmt>::empty(),
            ast@.stmts == Seq::<StmtView>::empty(),
    {
        Self { stmts: Vec::new() }
    }
}

impl Stmt {
    /// A function declaration as a statement.
    pub fn new_fn(
        fn_token: Token,
        name: String,
        params: Vec<FnParam>,
        body: Block,
        exported: bool,
        return_type: Option<FunctionType>,
    ) -> (stmt: Self)
        ensures
            stmt == Stmt::Fn(Fn { fn_token, name, params, body, exported, return_type }),
    {
        Stmt::Fn(Fn { fn_token, name, params, body, exported, return_type })
    }

    /// The function that the statement declares, if it declares one.
    pub fn as_function(&self) -> (function: Option<&Fn>)
        ensures
            function == match *self {
                Stmt::Fn(f) => Some(&f),
                _ => None,
            },
    {
        match self {
            Stmt::Fn(f) => Some(f),
            _ => None,
        }
    }
}

impl FunctionType {
    pub fn new(arrow: Token, type_token: Token) -> (function_type: Self)
        ensures
            function_type == (FunctionType { arrow, type_token }),
    {
        Self { arrow, type_token }
    }
}

} // verus!
