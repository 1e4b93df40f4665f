//! The tree-walking interpreter: direct evaluation of the syntax tree, used
//! when no ahead-of-time compilation is requested.
//!
//! The interpreter is deliberately lenient where the code generator is
//! strict: a reference to an unbound variable silently evaluates to `Int(0)`,
//! and a call to any function evaluates its arguments, reports a diagnostic
//! and yields `Int(0)` (no call dispatch exists in the core interpreter).
//! Its arithmetic is exact over integers: `Int` operands combine with
//! wrapping 64-bit semantics, matching what compiled code computes wherever
//! the latter is defined, and integer division by zero yields 0 rather than
//! failing. Operand pairs other than two `Int`s (floats and strings) are
//! outside what the interpreter evaluates — floating-point arithmetic lives
//! only on the compiled path — and yield a diagnostic together with
//! `Int(0)`.
//!
//! Every public function here is a pure function of its arguments: the
//! environment is created fresh inside `run` and discarded when it returns,
//! so nothing leaks from one run into the next.

use vstd::prelude::*;
use vstd::string::StrSliceExecFns;

use crate::ast::{Expr, ExprV, FunctionDefV, Op, Program, ProgramV, Statement, StatementV};
use crate::ast::lemma_stmt_view_function_def;
use crate::util::{dv, lemma_dv_push, lemma_vec_dv, str_eq_str};

verus! {

broadcast use vstd::std_specs::vec::group_vec_axioms;

/// A runtime value produced by expression evaluation. A float value carries
/// the text of the literal it came from: the interpreter never computes with
/// floating point.
#[derive(Debug)]
pub enum Value {
    Int(i64),
    Float(String),
    Str(String),
}

/// Ghost mirror of `Value`.
pub ghost enum ValueV {
    Int(i64),
    Float(Seq<char>),
    Str(Seq<char>),
}

impl DeepView for Value {
    type V = ValueV;

    open spec fn deep_view(&self) -> ValueV {
        match self {
            Value::Int(n) => ValueV::Int(*n),
            Value::Float(t) => ValueV::Float(t@),
            Value::Str(s) => ValueV::Str(s@),
        }
    }
}

impl Clone for Value {
    fn clone(&self) -> (r: Value)
        ensures
            r.deep_view() == self.deep_view(),
    {
        match self {
            Value::Int(n) => Value::Int(*n),
            Value::Float(t) => Value::Float(t.clone()),
            Value::Str(s) => Value::Str(s.clone()),
        }
    }
}

/// A diagnostic reported during interpretation. Diagnostics are returned as
/// data; rendering or printing them is the caller's business.
#[derive(Debug)]
pub enum Diagnostic {
    /// A call was made to a name the interpreter cannot dispatch.
    UnknownCall { func: String },
    /// A binary operation was applied to operands other than two integers.
    UnsupportedOperation,
}

/// Ghost mirror of `Diagnostic`.
pub ghost enum DiagnosticV {
    UnknownCall { func: Seq<char> },
    UnsupportedOperation,
}

impl DeepView for Diagnostic {
    type V = DiagnosticV;

    open spec fn deep_view(&self) -> DiagnosticV {
        match self {
            Diagnostic::UnknownCall { func } => DiagnosticV::UnknownCall { func: func@ },
            Diagnostic::UnsupportedOperation => DiagnosticV::UnsupportedOperation,
        }
    }
}

/// The name-to-value environment: a flat list of bindings where the latest
/// binding of a name wins (a redeclaration overwrites the earlier one).
pub type Env = Vec<(String, Value)>;

/// Ghost mirror of the environment.
pub type EnvV = Seq<(Seq<char>, ValueV)>;

/// Integer division as the interpreter defines it: division by zero yields
/// 0, and the one overflowing case wraps.
pub open spec fn sp_div(a: i64, b: i64) -> i64 {
    if b == 0 {
        0
    } else if a == i64::MIN && b == -1i64 {
        i64::MIN
    } else {
        match a.checked_div(b) {
            Some(q) => q,
            None => 0,
        }
    }
}

/// The interpreter's integer arithmetic: wrapping 64-bit semantics.
pub open spec fn sp_arith(op: Op, a: i64, b: i64) -> i64 {
    match op {
        Op::Add => a.wrapping_add(b),
        Op::Sub => a.wrapping_sub(b),
        Op::Mul => a.wrapping_mul(b),
        Op::Div => sp_div(a, b),
    }
}

/// Looks a name up in the environment; the latest binding wins.
pub open spec fn sp_lookup(env: EnvV, name: Seq<char>) -> Option<ValueV>
    decreases env.len(),
{
    if env.len() == 0 {
        None
    } else if env.last().0 == name {
        Some(env.last().1)
    } else {
        sp_lookup(env.drop_last(), name)
    }
}

/// Evaluates one expression: the value, together with the diagnostics
/// reported, in the order they arose.
pub open spec fn sp_eval_expr(env: EnvV, e: ExprV) -> (ValueV, Seq<DiagnosticV>)
    decreases e,
{
    match e {
        ExprV::Number(n) => (ValueV::Int(n), Seq::empty()),
        ExprV::Float(t) => (ValueV::Float(t), Seq::empty()),
        ExprV::String(s) => (ValueV::Str(s), Seq::empty()),
        ExprV::Var(n) => (
            match sp_lookup(env, n) {
                Some(v) => v,
                None => ValueV::Int(0),
            },
            Seq::empty(),
        ),
        ExprV::BinOp { left, op, right } => {
            let (lv, dl) = sp_eval_expr(env, *left);
            let (rv, dr) = sp_eval_expr(env, *right);
            if lv is Int && rv is Int {
                (ValueV::Int(sp_arith(op, lv->Int_0, rv->Int_0)), dl + dr)
            } else {
                (ValueV::Int(0), dl + dr + seq![DiagnosticV::UnsupportedOperation])
            }
        },
        ExprV::Call { func, args } => (
            ValueV::Int(0),
            sp_eval_args(env, args) + seq![DiagnosticV::UnknownCall { func }],
        ),
    }
}

/// Evaluates a list of call arguments left to right for their diagnostics;
/// the values themselves are discarded, as no call is ever dispatched.
pub open spec fn sp_eval_args(env: EnvV, args: Seq<ExprV>) -> Seq<DiagnosticV>
    decreases args,
{
    if args.len() == 0 {
        Seq::empty()
    } else {
        sp_eval_args(env, args.drop_last()) + sp_eval_expr(env, args.last()).1
    }
}

/// Executes one statement: the environment after it, the value returned by
/// it if it was a `Return`, and the diagnostics it reported.
pub open spec fn sp_exec_stmt(env: EnvV, st: StatementV) -> (EnvV, Option<ValueV>, Seq<
    DiagnosticV,
>) {
    match st {
        StatementV::VarDecl(d) => {
            let (v, dg) = sp_eval_expr(env, d.value);
            (env.push((d.name, v)), None, dg)
        },
        StatementV::Return(e) => {
            let (v, dg) = sp_eval_expr(env, e);
            (env, Some(v), dg)
        },
        StatementV::Expr(e) => {
            let (v, dg) = sp_eval_expr(env, e);
            (env, None, dg)
        },
        StatementV::FunctionDef(_) => (env, None, Seq::empty()),
    }
}

/// Executes the statements of a body in order. A `Return` stops execution
/// immediately and yields its value as the result of the block.
pub open spec fn sp_exec_block(env: EnvV, body: Seq<StatementV>) -> (EnvV, Option<ValueV>, Seq<
    DiagnosticV,
>)
    decreases body.len(),
{
    if body.len() == 0 {
        (env, None, Seq::empty())
    } else {
        let (env1, ret, dg) = sp_exec_stmt(env, body[0]);
        match ret {
            Some(v) => (env1, Some(v), dg),
            None => {
                let (env2, r2, dg2) = sp_exec_block(env1, body.drop_first());
                (env2, r2, dg + dg2)
            },
        }
    }
}

/// The first top-level function definition named `main`, if any.
pub open spec fn sp_find_main(body: Seq<StatementV>) -> Option<FunctionDefV>
    decreases body.len(),
{
    if body.len() == 0 {
        None
    } else if body[0] matches StatementV::FunctionDef(f) && f.name == "main"@ {
        Some(body[0]->FunctionDef_0)
    } else {
        sp_find_main(body.drop_first())
    }
}

/// Runs a program. If a function named `main` exists, its body is executed
/// in a fresh, empty environment and the value of its `Return` statement, if
/// it reaches one, is the result. If no `main` exists, every top-level
/// statement executes in sequence for its effects only and no value is
/// returned; a top-level `Return` stops execution, its value discarded.
pub open spec fn sp_run(p: ProgramV) -> (Option<ValueV>, Seq<DiagnosticV>) {
    match sp_find_main(p.body) {
        Some(f) => {
            let (_, ret, dg) = sp_exec_block(Seq::empty(), f.body);
            (ret, dg)
        },
        None => {
            let (_, _, dg) = sp_exec_block(Seq::empty(), p.body);
            (None, dg)
        },
    }
}

/// Integer division exactly as `sp_div` defines it.
pub fn eval_div(a: i64, b: i64) -> (r: i64)
    ensures
        r == sp_div(a, b),
{
    if b == 0 {
        0
    } else if a == i64::MIN && b == -1 {
        i64::MIN
    } else {
        match a.checked_div(b) {
            Some(q) => q,
            None => 0,
        }
    }
}

/// Integer arithmetic exactly as `sp_arith` defines it.
pub fn eval_arith(op: Op, a: i64, b: i64) -> (r: i64)
    ensures
        r == sp_arith(op, a, b),
{
    match op {
        Op::Add => a.wrapping_add(b),
        Op::Sub => a.wrapping_sub(b),
        Op::Mul => a.wrapping_mul(b),
        Op::Div => eval_div(a, b),
    }
}

/// An empty diagnostics vector.
fn no_diags() -> (r: Vec<Diagnostic>)
    ensures
        r.deep_view() == Seq::<DiagnosticV>::empty(),
{
    let v: Vec<Diagnostic> = Vec::new();
    proof {
        assert(v.deep_view() =~= Seq::<DiagnosticV>::empty());
    }
    v
}

/// Moves the diagnostics of `b` to the end of `a`.
fn append_diags(a: &mut Vec<Diagnostic>, b: Vec<Diagnostic>)
    ensures
        final (a).deep_view() == old(a).deep_view() + b.deep_view(),
{
    let ghost a0 = a@;
    let ghost bdv = b.deep_view();
    let mut b = b;
    let ghost b0 = b@;
    a.append(&mut b);
    proof {
        assert(a@ == a0 + b0);
        assert(a.deep_view() =~= old(a).deep_view() + bdv);
    }
}

/// Appends one diagnostic.
fn push_diag(a: &mut Vec<Diagnostic>, d: Diagnostic)
    ensures
        final (a).deep_view() == old(a).deep_view().push(d.deep_view()),
{
    let ghost a0 = a@;
    let ghost d0 = d.deep_view();
    a.push(d);
    proof {
        assert(a.deep_view() =~= old(a).deep_view().push(d0));
    }
}

/// Looks a name up in the environment; the latest binding wins.
#[verifier::loop_isolation(false)]
fn lookup(env: &Env, name: &String) -> (r: Option<Value>)
    ensures
        r.deep_view() == sp_lookup(env.deep_view(), name@),
{
    proof {
        lemma_vec_dv(env);
        assert(env.deep_view().take(env@.len() as int) =~= env.deep_view());
    }
    let mut k: usize = env.len();
    while k > 0
        invariant
            k <= env.len(),
            sp_lookup(env.deep_view(), name@) == sp_lookup(
                env.deep_view().take(k as int),
                name@,
            ),
        decreases k,
    {
        proof {
            lemma_vec_dv(env);
            assert(dv(env@).take(k as int).last() == env@[k - 1].deep_view());
            assert(dv(env@).take(k as int).drop_last() =~= dv(env@).take(k - 1));
        }
        if env[k - 1].0 == *name {
            let v = env[k - 1].1.clone();
            return Some(v);
        }
        k -= 1;
    }
    proof {
        lemma_vec_dv(env);
        assert(dv(env@).take(0) =~= Seq::<(Seq<char>, ValueV)>::empty());
    }
    None
}

/// Evaluates one expression against an environment, exactly as
/// `sp_eval_expr` describes.
#[verifier::loop_isolation(false)]
pub fn eval_expr(env: &Env, e: &Expr) -> (r: (Value, Vec<Diagnostic>))
    ensures
        (r.0.deep_view(), r.1.deep_view()) == sp_eval_expr(env.deep_view(), e.deep_view()),
    decreases e,
{
    match e {
        Expr::Number(n) => (Value::Int(*n), no_diags()),
        Expr::Float(t) => (Value::Float(t.clone()), no_diags()),
        Expr::String(s) => (Value::Str(s.clone()), no_diags()),
        Expr::Var(n) => {
            let v = match lookup(env, n) {
                Some(v) => v,
                None => Value::Int(0),
            };
            (v, no_diags())
        },
        Expr::BinOp { left, op, right } => {
            let (lv, mut dl) = eval_expr(env, left);
            let (rv, dr) = eval_expr(env, right);
            append_diags(&mut dl, dr);
            match (lv, rv) {
                (Value::Int(a), Value::Int(b)) => (Value::Int(eval_arith(*op, a, b)), dl),
                (lx, rx) => {
                    proof {
                        assert(!(lx.deep_view() is Int && rx.deep_view() is Int));
                    }
                    push_diag(&mut dl, Diagnostic::UnsupportedOperation);
                    proof {
                        let (slv, sdl) = sp_eval_expr(env.deep_view(), left.deep_view());
                        let (srv, sdr) = sp_eval_expr(env.deep_view(), right.deep_view());
                        assert(dl.deep_view() =~= sdl + sdr + seq![
                            DiagnosticV::UnsupportedOperation,
                        ]);
                    }
                    (Value::Int(0), dl)
                },
            }
        },
        Expr::Call { func, args } => {
            let mut diags = no_diags();
            let ghost envv = env.deep_view();
            let ghost argsv = dv(args@);
            proof {
                assert(e.deep_view()->Call_args =~= argsv);
            }
            proof {
                assert(argsv.take(0) =~= Seq::<ExprV>::empty());
            }
            let mut k: usize = 0;
            while k < args.len()
                invariant
                    k <= args.len(),
                    argsv == dv(args@),
                    envv == env.deep_view(),
                    diags.deep_view() == sp_eval_args(envv, argsv.take(k as int)),
                decreases args.len() - k,
            {
                proof {
                    assert(decreases_to!(args@ => args@[k as int]));
                    assert(decreases_to!(*args => args@));
                }
                let (_, dg) = eval_expr(env, &args[k]);
                append_diags(&mut diags, dg);
                proof {
                    assert(argsv.take(k + 1).drop_last() =~= argsv.take(k as int));
                    assert(argsv.take(k + 1).last() == args@[k as int].deep_view());
                }
                k += 1;
            }
            proof {
                assert(argsv.take(args@.len() as int) =~= argsv);
            }
            push_diag(&mut diags, Diagnostic::UnknownCall { func: func.clone() });
            proof {
                assert(diags.deep_view() =~= sp_eval_args(envv, argsv) + seq![
                    DiagnosticV::UnknownCall { func: func@ },
                ]);
            }
            (Value::Int(0), diags)
        },
    }
}

/// Executes one statement against the environment, exactly as
/// `sp_exec_stmt` describes.
pub fn exec_stmt(env: &mut Env, st: &Statement) -> (r: (Option<Value>, Vec<Diagnostic>))
    ensures
        ({
            let (senv, sret, sdg) = sp_exec_stmt(old(env).deep_view(), st.deep_view());
            final (env).deep_view() == senv && r.0.deep_view() == sret && r.1.deep_view() == sdg
        }),
{
    match st {
        Statement::VarDecl(d) => {
            let (v, dg) = eval_expr(env, &d.value);
            let ghost e0 = env@;
            env.push((d.name.clone(), v));
            proof {
                lemma_vec_dv(env);
                lemma_dv_push(e0, env@[e0.len() as int]);
                assert(dv(e0) =~= old(env).deep_view());
            }
            (None, dg)
        },
        Statement::Return(e) => {
            let (v, dg) = eval_expr(env, e);
            (Some(v), dg)
        },
        Statement::Expr(e) => {
            let (_, dg) = eval_expr(env, e);
            (None, dg)
        },
        Statement::FunctionDef(_) => (None, no_diags()),
    }
}

/// Executes a body of statements in order against the environment, exactly
/// as `sp_exec_block` describes.
#[verifier::loop_isolation(false)]
pub fn exec_block(env: &mut Env, body: &Vec<Statement>) -> (r: (Option<Value>, Vec<Diagnostic>))
    ensures
        ({
            let (senv, sret, sdg) = sp_exec_block(old(env).deep_view(), body.deep_view());
            final (env).deep_view() == senv && r.0.deep_view() == sret && r.1.deep_view() == sdg
        }),
{
    let ghost env0 = env.deep_view();
    let ghost bodyv = body.deep_view();
    let mut diags = no_diags();
    proof {
        assert(bodyv.skip(0) =~= bodyv);
        let (e2, r2, d2) = sp_exec_block(env0, bodyv);
        assert(Seq::<DiagnosticV>::empty() + d2 =~= d2);
    }
    let mut k: usize = 0;
    while k < body.len()
        invariant
            k <= body.len(),
            bodyv == body.deep_view(),
            sp_exec_block(env0, bodyv) == ({
                let (e2, r2, d2) = sp_exec_block(env.deep_view(), bodyv.skip(k as int));
                (e2, r2, diags.deep_view() + d2)
            }),
        decreases body.len() - k,
    {
        let ghost env_before = env.deep_view();
        let ghost diags_before = diags.deep_view();
        let (ret, dg) = exec_stmt(env, &body[k]);
        append_diags(&mut diags, dg);
        proof {
            assert(bodyv.skip(k as int)[0] == body@[k as int].deep_view());
            assert(bodyv.skip(k as int).drop_first() =~= bodyv.skip(k + 1));
            assert(bodyv.skip(k as int).len() > 0);
        }
        match ret {
            Some(v) => {
                proof {
                    let stv = bodyv.skip(k as int)[0];
                    let (se, sret, sd) = sp_exec_stmt(env_before, stv);
                    let (e2, r2, d2) = sp_exec_block(env_before, bodyv.skip(k as int));
                    assert(sret == Some(v.deep_view()));
                    assert(e2 == se && r2 == sret && d2 == sd);
                    assert(diags.deep_view() =~= diags_before + sd);
                }
                return (Some(v), diags);
            },
            None => {
                proof {
                    let (se, sr, sd) = sp_exec_stmt(env_before, bodyv.skip(k as int)[0]);
                    let (e3, r3, d3) = sp_exec_block(se, bodyv.skip(k + 1));
                    assert(diags_before + (sd + d3) =~= (diags_before + sd) + d3);
                }
            },
        }
        k += 1;
    }
    proof {
        assert(bodyv.skip(body@.len() as int) =~= Seq::<StatementV>::empty());
        assert(diags.deep_view() + Seq::<DiagnosticV>::empty() =~= diags.deep_view());
    }
    (None, diags)
}

/// Finds the index of the first top-level definition of `main`.
#[verifier::loop_isolation(false)]
fn find_main_index(body: &Vec<Statement>) -> (r: Option<usize>)
    ensures
        match r {
            Some(i) => i < body.len() && (body@[i as int] matches Statement::FunctionDef(f)
                && sp_find_main(body.deep_view()) == Some(f.deep_view())),
            None => sp_find_main(body.deep_view()) is None,
        },
{
    let ghost bodyv = body.deep_view();
    proof {
        assert(bodyv.skip(0) =~= bodyv);
    }
    let mut k: usize = 0;
    while k < body.len()
        invariant
            k <= body.len(),
            bodyv == body.deep_view(),
            sp_find_main(bodyv) == sp_find_main(bodyv.skip(k as int)),
        decreases body.len() - k,
    {
        proof {
            assert(bodyv.skip(k as int)[0] == body@[k as int].deep_view());
            assert(bodyv.skip(k as int).drop_first() =~= bodyv.skip(k + 1));
        }
        match &body[k] {
            Statement::FunctionDef(f) => {
                if str_eq_str(f.name.as_str(), "main") {
                    proof {
                        lemma_stmt_view_function_def(*f);
                    }
                    return Some(k);
                }
            },
            _ => {},
        }
        k += 1;
    }
    proof {
        assert(bodyv.skip(body@.len() as int) =~= Seq::<StatementV>::empty());
    }
    None
}

/// Runs a program, exactly as `sp_run` describes: a fresh interpreter
/// context is created for the call and discarded when it returns.
pub fn run(program: &Program) -> (r: (Option<Value>, Vec<Diagnostic>))
    ensures
        (r.0.deep_view(), r.1.deep_view()) == sp_run(program.deep_view()),
{
    let mut env: Env = Vec::new();
    proof {
        assert(env.deep_view() =~= Seq::<(Seq<char>, ValueV)>::empty());
        assert(program.deep_view().body =~= program.body.deep_view());
    }
    match find_main_index(&program.body) {
        Some(i) => {
            match &program.body[i] {
                Statement::FunctionDef(f) => {
                    proof {
                        assert(f.deep_view().body =~= f.body.deep_view());
                    }
                    let (ret, dg) = exec_block(&mut env, &f.body);
                    (ret, dg)
                },
                _ => vstd::pervasive::unreached(),
            }
        },
        None => {
            let (_, dg) = exec_block(&mut env, &program.body);
            (None, dg)
        },
    }
}

/// A call to a name the interpreter cannot dispatch never fails: whatever
/// the environment and the arguments, it evaluates to `Int(0)` and the last
/// diagnostic reported names the called function.
pub proof fn lemma_unknown_call_yields_zero(env: EnvV, func: Seq<char>, args: Seq<ExprV>)
    ensures
        sp_eval_expr(env, ExprV::Call { func, args }).0 == ValueV::Int(0),
        sp_eval_expr(env, ExprV::Call { func, args }).1.len() >= 1,
        sp_eval_expr(env, ExprV::Call { func, args }).1.last() == (DiagnosticV::UnknownCall {
            func,
        }),
{
}

/// Interpreted integer division by zero is defined: it yields 0, for every
/// dividend.
pub proof fn lemma_division_by_zero(a: i64)
    ensures
        sp_arith(Op::Div, a, 0) == 0,
{
}

/// A reference to an unbound variable silently evaluates to `Int(0)`.
pub proof fn lemma_unbound_variable(env: EnvV, name: Seq<char>)
    requires
        sp_lookup(env, name) is None,
    ensures
        sp_eval_expr(env, ExprV::Var(name)) == (ValueV::Int(0), Seq::<DiagnosticV>::empty()),
{
}

} // verus!
