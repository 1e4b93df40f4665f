//! The abstract syntax tree shared by the parser, the interpreter and the
//! code generator, together with its mathematical model.
//!
//! Every executable type here has a ghost mirror (`ExprV`, `StatementV`, ...)
//! in which names are sequences of characters and vectors are sequences.
//! Contracts throughout the crate speak of these mirrors through `DeepView`.
//!
//! A float literal is carried as the text of the literal exactly as it stood
//! in the source (digits, a dot, digits, with an optional leading minus).
//! The code generator renders that text into the intermediate representation;
//! no floating-point value is ever computed while compiling.

use vstd::prelude::*;

verus! {

broadcast use vstd::std_specs::vec::group_vec_axioms;

/// A binary operator. The grammar gives all four the same precedence:
/// an operator chain is strictly left-associative.
#[derive(Clone, Copy, Debug, PartialEq, Eq, Structural)]
pub enum Op {
    Add,
    Sub,
    Mul,
    Div,
}

/// The closed set of types of the language. Every declaration and every
/// function signature is annotated; there is no inference.
#[derive(Clone, Copy, Debug, PartialEq, Eq, Structural)]
pub enum Type {
    Int,
    Float,
    Str,
}

impl DeepView for Op {
    type V = Op;

    open spec fn deep_view(&self) -> Op {
        *self
    }
}

impl DeepView for Type {
    type V = Type;

    open spec fn deep_view(&self) -> Type {
        *self
    }
}

/// An expression tree. Ownership is strictly hierarchical.
#[derive(Debug)]
pub enum Expr {
    /// An integer literal.
    Number(i64),
    /// A float literal, kept as its source text.
    Float(String),
    /// A string literal, with the surrounding quotes stripped.
    String(String),
    /// A reference to a variable by name.
    Var(String),
    /// A binary operation.
    BinOp { left: Box<Expr>, op: Op, right: Box<Expr> },
    /// A call of a function by name.
    Call { func: String, args: Vec<Expr> },
}

/// A variable declaration `name: type = value`.
#[derive(Debug)]
pub struct VarDecl {
    pub name: String,
    pub type_def: Type,
    pub value: Expr,
}

/// A function definition `function name(args...) -> type: body`.
#[derive(Debug)]
pub struct FunctionDef {
    pub name: String,
    pub args: Vec<(String, Type)>,
    pub return_type: Type,
    pub body: Vec<Statement>,
}

/// A statement. Order within a body is significant.
#[derive(Debug)]
pub enum Statement {
    VarDecl(VarDecl),
    FunctionDef(FunctionDef),
    Return(Expr),
    Expr(Expr),
}

/// A whole program: the ordered sequence of top-level statements.
#[derive(Debug)]
pub struct Program {
    pub body: Vec<Statement>,
}

/// Ghost mirror of `Expr`.
pub ghost enum ExprV {
    Number(i64),
    Float(Seq<char>),
    String(Seq<char>),
    Var(Seq<char>),
    BinOp { left: Box<ExprV>, op: Op, right: Box<ExprV> },
    Call { func: Seq<char>, args: Seq<ExprV> },
}

/// Ghost mirror of `VarDecl`.
pub ghost struct VarDeclV {
    pub name: Seq<char>,
    pub type_def: Type,
    pub value: ExprV,
}

/// Ghost mirror of `FunctionDef`.
pub ghost struct FunctionDefV {
    pub name: Seq<char>,
    pub args: Seq<(Seq<char>, Type)>,
    pub return_type: Type,
    pub body: Seq<StatementV>,
}

/// Ghost mirror of `Statement`.
pub ghost enum StatementV {
    VarDecl(VarDeclV),
    FunctionDef(FunctionDefV),
    Return(ExprV),
    Expr(ExprV),
}

/// Ghost mirror of `Program`.
pub ghost struct ProgramV {
    pub body: Seq<StatementV>,
}

/// The mathematical value of an expression tree.
pub open spec fn expr_view(e: Expr) -> ExprV
    decreases e,
{
    match e {
        Expr::Number(n) => ExprV::Number(n),
        Expr::Float(t) => ExprV::Float(t@),
        Expr::String(s) => ExprV::String(s@),
        Expr::Var(n) => ExprV::Var(n@),
        Expr::BinOp { left, op, right } => ExprV::BinOp {
            left: Box::new(expr_view(*left)),
            op,
            right: Box::new(expr_view(*right)),
        },
        Expr::Call { func, args } => ExprV::Call {
            func: func@,
            args: Seq::new(
                args.len() as nat,
                |i: int|
                    if 0 <= i < args.len() {
                        expr_view(args[i])
                    } else {
                        ExprV::Number(0)
                    },
            ),
        },
    }
}

/// The mathematical value of a parameter list.
pub open spec fn params_view(args: Seq<(String, Type)>) -> Seq<(Seq<char>, Type)> {
    args.map(|i: int, p: (String, Type)| (p.0@, p.1))
}

/// The mathematical value of a statement.
pub open spec fn stmt_view(st: Statement) -> StatementV
    decreases st,
{
    match st {
        Statement::VarDecl(d) => StatementV::VarDecl(
            VarDeclV { name: d.name@, type_def: d.type_def, value: expr_view(d.value) },
        ),
        Statement::FunctionDef(f) => StatementV::FunctionDef(
            FunctionDefV {
                name: f.name@,
                args: params_view(f.args@),
                return_type: f.return_type,
                body: Seq::new(
                    f.body.len() as nat,
                    |i: int|
                        if 0 <= i < f.body.len() {
                            stmt_view(f.body[i])
                        } else {
                            StatementV::Return(ExprV::Number(0))
                        },
                ),
            },
        ),
        Statement::Return(e) => StatementV::Return(expr_view(e)),
        Statement::Expr(e) => StatementV::Expr(expr_view(e)),
    }
}

/// The mathematical value of a statement sequence.
pub open spec fn stmts_view(body: Seq<Statement>) -> Seq<StatementV> {
    Seq::new(
        body.len(),
        |i: int|
            if 0 <= i < body.len() {
                stmt_view(body[i])
            } else {
                StatementV::Return(ExprV::Number(0))
            },
    )
}

impl DeepView for Expr {
    type V = ExprV;

    open spec fn deep_view(&self) -> ExprV {
        expr_view(*self)
    }
}

impl DeepView for VarDecl {
    type V = VarDeclV;

    open spec fn deep_view(&self) -> VarDeclV {
        VarDeclV { name: self.name@, type_def: self.type_def, value: expr_view(self.value) }
    }
}

impl DeepView for FunctionDef {
    type V = FunctionDefV;

    open spec fn deep_view(&self) -> FunctionDefV {
        FunctionDefV {
            name: self.name@,
            args: params_view(self.args@),
            return_type: self.return_type,
            body: stmts_view(self.body@),
        }
    }
}

impl DeepView for Statement {
    type V = StatementV;

    open spec fn deep_view(&self) -> StatementV {
        stmt_view(*self)
    }
}

impl DeepView for Program {
    type V = ProgramV;

    open spec fn deep_view(&self) -> ProgramV {
        ProgramV { body: stmts_view(self.body@) }
    }
}

/// `stmt_view` of a function definition agrees with the definition's own view.
pub proof fn lemma_stmt_view_function_def(f: FunctionDef)
    ensures
        stmt_view(Statement::FunctionDef(f)) == StatementV::FunctionDef(f.deep_view()),
{
    let sv = stmt_view(Statement::FunctionDef(f));
    let dv = StatementV::FunctionDef(f.deep_view());
    assert(sv is FunctionDef && dv is FunctionDef);
    assert(sv->FunctionDef_0.body =~= dv->FunctionDef_0.body);
    assert(sv->FunctionDef_0 == dv->FunctionDef_0);
}

} // verus!
