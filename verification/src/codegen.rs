//! The code generator: lowers a program's function definitions to the
//! intermediate representation, type-directed and one function at a time.
//!
//! For each function definition it emits a function whose parameter list
//! and return type map one-to-one from the declared types (`int` to a
//! 64-bit integer, `float` to a 64-bit float, `str` to an opaque pointer).
//! Every parameter and every declared variable gets one stack slot, with a
//! store-then-load discipline; slots are listed at function entry no
//! matter where the declaration stood. A function named `main`
//! additionally receives, before any user code, a call to the runtime's
//! allocator-initialization intrinsic. A string literal is lowered to a
//! runtime allocation of its byte length plus a terminator, followed by a
//! copy of the literal's bytes into the block. A function whose body falls
//! through without a `return` is given an implicit zero-valued return
//! matching its declared type.
//!
//! Where the interpreter is lenient the generator is strict: a reference
//! to an unknown variable or function is an `UndefinedSymbol` error, a
//! binary operation whose operands are not both integers or both floats
//! is a `TypeMismatch`, and a function whose emitted body would not
//! verify structurally (a returned value of the wrong type, or code after
//! a `return`) is an `InvalidFunction`. A function that fails is
//! discarded rather than included in the module, and reported as a
//! generation failure instead of aborting the compilation; later
//! functions cannot call it.
//!
//! The generator state (`CgState`) is created fresh for each function and
//! discarded afterwards: nothing leaks between functions, nor between
//! calls to `compile_program`.

use vstd::prelude::*;
use vstd::string::StrSliceExecFns;

use crate::ast::{Expr, ExprV, FunctionDef, FunctionDefV, Program, ProgramV, Statement, StatementV};
use crate::ast::Type;
use crate::ir::{IrDecl, IrDeclV, IrFunction, IrFunctionV, IrInstr, IrInstrV, IrModule, IrModuleV};
use crate::ir::{IrType, Operand, OperandV};
use crate::util::str_eq_str;

verus! {

broadcast use vstd::std_specs::vec::group_vec_axioms;

/// A code-generation failure, fatal to the function being generated.
#[derive(Debug)]
pub enum CodegenError {
    /// A reference to an unknown variable or function name.
    UndefinedSymbol { name: String },
    /// A binary operation on operand kinds that do not match.
    TypeMismatch,
    /// The emitted function would not verify structurally: a returned
    /// value of the wrong type, code after a `return`, or a function too
    /// large to number its values.
    InvalidFunction,
}

/// Ghost mirror of `CodegenError`.
pub ghost enum CodegenErrV {
    UndefinedSymbol { name: Seq<char> },
    TypeMismatch,
    InvalidFunction,
}

impl DeepView for CodegenError {
    type V = CodegenErrV;

    open spec fn deep_view(&self) -> CodegenErrV {
        match self {
            CodegenError::UndefinedSymbol { name } => CodegenErrV::UndefinedSymbol {
                name: name@,
            },
            CodegenError::TypeMismatch => CodegenErrV::TypeMismatch,
            CodegenError::InvalidFunction => CodegenErrV::InvalidFunction,
        }
    }
}

/// A callable signature the generator knows about: a runtime intrinsic or
/// a function compiled earlier (or the one being compiled).
#[derive(Debug)]
pub struct FnSig {
    pub name: String,
    pub params: Vec<IrType>,
    pub ret: Option<IrType>,
}

/// Ghost mirror of `FnSig`.
pub ghost struct FnSigV {
    pub name: Seq<char>,
    pub params: Seq<IrType>,
    pub ret: Option<IrType>,
}

impl DeepView for FnSig {
    type V = FnSigV;

    open spec fn deep_view(&self) -> FnSigV {
        FnSigV { name: self.name@, params: self.params.deep_view(), ret: self.ret }
    }
}

/// The declared-to-IR type mapping.
pub open spec fn map_type(t: Type) -> IrType {
    match t {
        Type::Int => IrType::I64,
        Type::Float => IrType::Double,
        Type::Str => IrType::Ptr,
    }
}

/// The zero value of a declared type, used for the implicit return.
pub open spec fn zero_operand(t: Type) -> OperandV {
    match t {
        Type::Int => OperandV::ConstInt(0),
        Type::Float => OperandV::ConstFloat("0.0"@),
        Type::Str => OperandV::NullPtr,
    }
}

/// The per-function generator state: the next free value id, the stack
/// slots, the body emitted so far, and the symbol table mapping variable
/// names to slots and types (a redeclaration overwrites by standing
/// later).
pub ghost struct CgSt {
    pub next_reg: int,
    pub allocas: Seq<(int, IrType)>,
    pub body: Seq<IrInstrV>,
    pub vars: Seq<(Seq<char>, int, IrType)>,
}

pub open spec fn st_add_instr(st: CgSt, ins: IrInstrV) -> CgSt {
    CgSt { body: st.body.push(ins), ..st }
}

pub open spec fn st_add_alloca(st: CgSt, slot: int, ty: IrType) -> CgSt {
    CgSt { allocas: st.allocas.push((slot, ty)), ..st }
}

pub open spec fn st_add_var(st: CgSt, name: Seq<char>, slot: int, ty: IrType) -> CgSt {
    CgSt { vars: st.vars.push((name, slot, ty)), ..st }
}

/// Hands out the next value id. Fails only when the function has used
/// every representable id.
pub open spec fn cg_fresh(st: CgSt) -> Result<(CgSt, int), CodegenErrV> {
    if st.next_reg >= usize::MAX {
        Err(CodegenErrV::InvalidFunction)
    } else {
        Ok((CgSt { next_reg: st.next_reg + 1, ..st }, st.next_reg))
    }
}

/// Looks a variable up in the symbol table; the latest binding wins.
pub open spec fn var_lookup(vars: Seq<(Seq<char>, int, IrType)>, name: Seq<char>) -> Option<
    (int, IrType),
>
    decreases vars.len(),
{
    if vars.len() == 0 {
        None
    } else if vars.last().0 == name {
        Some((vars.last().1, vars.last().2))
    } else {
        var_lookup(vars.drop_last(), name)
    }
}

/// Looks a callable name up among the known signatures; the earliest wins.
pub open spec fn sig_lookup(known: Seq<FnSigV>, name: Seq<char>) -> Option<FnSigV>
    decreases known.len(),
{
    if known.len() == 0 {
        None
    } else if known[0].name == name {
        Some(known[0])
    } else {
        sig_lookup(known.drop_first(), name)
    }
}

/// Compiles one expression: the state after emission, the operand holding
/// the value, and the operand's type.
pub open spec fn cg_expr(st: CgSt, known: Seq<FnSigV>, e: ExprV) -> Result<
    (CgSt, OperandV, IrType),
    CodegenErrV,
>
    decreases e,
{
    match e {
        ExprV::Number(n) => Ok((st, OperandV::ConstInt(n), IrType::I64)),
        ExprV::Float(t) => Ok((st, OperandV::ConstFloat(t), IrType::Double)),
        ExprV::String(text) => {
            if text.len() + 1 > i64::MAX {
                Err(CodegenErrV::InvalidFunction)
            } else {
                match cg_fresh(st) {
                    Err(er) => Err(er),
                    Ok((st1, d)) => {
                        let st2 = st_add_instr(
                            st1,
                            IrInstrV::Call {
                                dest: Some((d, IrType::Ptr)),
                                func: "rython_malloc"@,
                                args: seq![
                                    (IrType::I64, OperandV::ConstInt((text.len() + 1) as i64)),
                                ],
                            },
                        );
                        let st3 = st_add_instr(st2, IrInstrV::CopyBytes { ptr: d, bytes: text });
                        Ok((st3, OperandV::Reg(d), IrType::Ptr))
                    },
                }
            }
        },
        ExprV::Var(name) => {
            match var_lookup(st.vars, name) {
                None => Err(CodegenErrV::UndefinedSymbol { name }),
                Some((slot, ty)) => {
                    match cg_fresh(st) {
                        Err(er) => Err(er),
                        Ok((st1, d)) => Ok(
                            (
                                st_add_instr(st1, IrInstrV::Load { dest: d, ty, ptr: slot }),
                                OperandV::Reg(d),
                                ty,
                            ),
                        ),
                    }
                },
            }
        },
        ExprV::BinOp { left, op, right } => {
            match cg_expr(st, known, *left) {
                Err(er) => Err(er),
                Ok((st1, o1, t1)) => {
                    match cg_expr(st1, known, *right) {
                        Err(er) => Err(er),
                        Ok((st2, o2, t2)) => {
                            if (t1 == IrType::I64 && t2 == IrType::I64) || (t1 == IrType::Double
                                && t2 == IrType::Double) {
                                match cg_fresh(st2) {
                                    Err(er) => Err(er),
                                    Ok((st3, d)) => Ok(
                                        (
                                            st_add_instr(
                                                st3,
                                                IrInstrV::Bin {
                                                    dest: d,
                                                    op,
                                                    ty: t1,
                                                    lhs: o1,
                                                    rhs: o2,
                                                },
                                            ),
                                            OperandV::Reg(d),
                                            t1,
                                        ),
                                    ),
                                }
                            } else {
                                Err(CodegenErrV::TypeMismatch)
                            }
                        },
                    }
                },
            }
        },
        ExprV::Call { func, args } => {
            match sig_lookup(known, func) {
                None => Err(CodegenErrV::UndefinedSymbol { name: func }),
                Some(sig) => {
                    match cg_args(st, known, args) {
                        Err(er) => Err(er),
                        Ok((st1, cargs)) => {
                            if cargs.len() == sig.params.len() && (forall|i: int|
                                0 <= i < cargs.len() ==> cargs[i].0 == sig.params[i]) {
                                match sig.ret {
                                    None => Err(CodegenErrV::TypeMismatch),
                                    Some(rt) => {
                                        match cg_fresh(st1) {
                                            Err(er) => Err(er),
                                            Ok((st2, d)) => Ok(
                                                (
                                                    st_add_instr(
                                                        st2,
                                                        IrInstrV::Call {
                                                            dest: Some((d, rt)),
                                                            func,
                                                            args: cargs,
                                                        },
                                                    ),
                                                    OperandV::Reg(d),
                                                    rt,
                                                ),
                                            ),
                                        }
                                    },
                                }
                            } else {
                                Err(CodegenErrV::TypeMismatch)
                            }
                        },
                    }
                },
            }
        },
    }
}

/// Compiles a list of call arguments left to right, collecting each
/// argument's type and operand.
pub open spec fn cg_args(st: CgSt, known: Seq<FnSigV>, args: Seq<ExprV>) -> Result<
    (CgSt, Seq<(IrType, OperandV)>),
    CodegenErrV,
>
    decreases args,
{
    if args.len() == 0 {
        Ok((st, Seq::empty()))
    } else {
        match cg_args(st, known, args.drop_last()) {
            Err(er) => Err(er),
            Ok((st1, rest)) => {
                match cg_expr(st1, known, args.last()) {
                    Err(er) => Err(er),
                    Ok((st2, o, t)) => Ok((st2, rest.push((t, o)))),
                }
            },
        }
    }
}

/// Every statement of `body` is a (nested) function definition, which
/// emits no instruction.
pub open spec fn all_fn_defs(body: Seq<StatementV>) -> bool {
    forall|i: int| 0 <= i < body.len() ==> body[i] is FunctionDef
}

/// Compiles the statements of a body in order. Returns the state and
/// whether the body ended in an explicit `return`. A `return` of the
/// wrong type, or one followed by a statement that would emit code after
/// it, makes the function invalid.
pub open spec fn cg_body(st: CgSt, known: Seq<FnSigV>, ret: IrType, body: Seq<StatementV>) -> Result<
    (CgSt, bool),
    CodegenErrV,
>
    decreases body.len(),
{
    if body.len() == 0 {
        Ok((st, false))
    } else {
        match body[0] {
            StatementV::VarDecl(d) => {
                match cg_expr(st, known, d.value) {
                    Err(er) => Err(er),
                    Ok((st1, o, t)) => {
                        match cg_fresh(st1) {
                            Err(er) => Err(er),
                            Ok((st2, slot)) => {
                                let st3 = st_add_alloca(st2, slot, t);
                                let st4 = st_add_instr(
                                    st3,
                                    IrInstrV::Store { ty: t, ptr: slot, val: o },
                                );
                                let st5 = st_add_var(st4, d.name, slot, t);
                                cg_body(st5, known, ret, body.drop_first())
                            },
                        }
                    },
                }
            },
            StatementV::Return(e) => {
                match cg_expr(st, known, e) {
                    Err(er) => Err(er),
                    Ok((st1, o, t)) => {
                        if t != ret {
                            Err(CodegenErrV::InvalidFunction)
                        } else if !all_fn_defs(body.drop_first()) {
                            Err(CodegenErrV::InvalidFunction)
                        } else {
                            Ok((st_add_instr(st1, IrInstrV::Ret { ty: t, val: o }), true))
                        }
                    },
                }
            },
            StatementV::Expr(e) => {
                match cg_expr(st, known, e) {
                    Err(er) => Err(er),
                    Ok((st1, _, _)) => cg_body(st1, known, ret, body.drop_first()),
                }
            },
            StatementV::FunctionDef(_) => cg_body(st, known, ret, body.drop_first()),
        }
    }
}

/// Emits the entry-block stores that spill each parameter into its own
/// stack slot, binding the parameter names.
pub open spec fn cg_params(st: CgSt, args: Seq<(Seq<char>, Type)>, i: int) -> Result<
    CgSt,
    CodegenErrV,
>
    decreases args.len() - i,
{
    if i < 0 || i >= args.len() {
        Ok(st)
    } else {
        let ty = map_type(args[i].1);
        match cg_fresh(st) {
            Err(er) => Err(er),
            Ok((st1, slot)) => {
                let st2 = st_add_alloca(st1, slot, ty);
                let st3 = st_add_instr(st2, IrInstrV::Store { ty, ptr: slot, val: OperandV::Reg(i) });
                let st4 = st_add_var(st3, args[i].0, slot, ty);
                cg_params(st4, args, i + 1)
            },
        }
    }
}

/// The IR parameter types of a definition's parameter list.
pub open spec fn map_params(args: Seq<(Seq<char>, Type)>) -> Seq<IrType> {
    args.map(|i: int, p: (Seq<char>, Type)| map_type(p.1))
}

/// The callable signature of a function definition.
pub open spec fn sig_of(f: FunctionDefV) -> FnSigV {
    FnSigV { name: f.name, params: map_params(f.args), ret: Some(map_type(f.return_type)) }
}

/// The signatures of the two runtime intrinsics every module declares.
pub open spec fn runtime_sigs() -> Seq<FnSigV> {
    seq![
        FnSigV { name: "rython_mem_init"@, params: Seq::empty(), ret: None },
        FnSigV { name: "rython_malloc"@, params: seq![IrType::I64], ret: Some(IrType::Ptr) },
    ]
}

/// The declarations of the two runtime intrinsics.
pub open spec fn runtime_decls() -> Seq<IrDeclV> {
    seq![
        IrDeclV { name: "rython_mem_init"@, params: Seq::empty(), ret: None },
        IrDeclV { name: "rython_malloc"@, params: seq![IrType::I64], ret: Some(IrType::Ptr) },
    ]
}

/// The state a function's generation starts from: value ids 0 to n-1 are
/// the parameters, and slots, body and symbol table are empty.
pub open spec fn st_empty(nparams: int) -> CgSt {
    CgSt { next_reg: nparams, allocas: Seq::empty(), body: Seq::empty(), vars: Seq::empty() }
}

/// Compiles one function definition against the known signatures (which
/// include its own, so it may call itself).
pub open spec fn cg_function(f: FunctionDefV, known: Seq<FnSigV>) -> Result<
    IrFunctionV,
    CodegenErrV,
> {
    let st0 = st_empty(f.args.len() as int);
    let st1 = if f.name == "main"@ {
        st_add_instr(
            st0,
            IrInstrV::Call { dest: None, func: "rython_mem_init"@, args: Seq::empty() },
        )
    } else {
        st0
    };
    match cg_params(st1, f.args, 0) {
        Err(er) => Err(er),
        Ok(st2) => {
            match cg_body(st2, known, map_type(f.return_type), f.body) {
                Err(er) => Err(er),
                Ok((st3, terminated)) => {
                    let st4 = if terminated {
                        st3
                    } else {
                        st_add_instr(
                            st3,
                            IrInstrV::Ret {
                                ty: map_type(f.return_type),
                                val: zero_operand(f.return_type),
                            },
                        )
                    };
                    Ok(
                        IrFunctionV {
                            name: f.name,
                            params: map_params(f.args),
                            ret: map_type(f.return_type),
                            allocas: st4.allocas,
                            body: st4.body,
                        },
                    )
                },
            }
        },
    }
}

/// Compiles the function definitions of a program body in order. A
/// definition that fails is discarded and reported with its name; it is
/// not added to the known signatures, so later functions cannot call it.
/// Top-level statements other than definitions emit nothing.
pub open spec fn cg_program(body: Seq<StatementV>, known: Seq<FnSigV>) -> (
    Seq<IrFunctionV>,
    Seq<(Seq<char>, CodegenErrV)>,
)
    decreases body.len(),
{
    if body.len() == 0 {
        (Seq::empty(), Seq::empty())
    } else {
        match body[0] {
            StatementV::FunctionDef(f) => {
                match cg_function(f, known.push(sig_of(f))) {
                    Ok(irf) => {
                        let (rest, errs) = cg_program(body.drop_first(), known.push(sig_of(f)));
                        (seq![irf] + rest, errs)
                    },
                    Err(er) => {
                        let (rest, errs) = cg_program(body.drop_first(), known);
                        (rest, seq![(f.name, er)] + errs)
                    },
                }
            },
            _ => cg_program(body.drop_first(), known),
        }
    }
}

/// The signatures of already-compiled functions.
pub open spec fn sigs_of_funcs(funcs: Seq<IrFunctionV>) -> Seq<FnSigV> {
    funcs.map(|i: int, f: IrFunctionV| FnSigV { name: f.name, params: f.params, ret: Some(f.ret) })
}

/// A fresh module: the runtime declarations and no functions.
pub open spec fn sp_new_module(name: Seq<char>) -> IrModuleV {
    IrModuleV { name, decls: runtime_decls(), funcs: Seq::empty() }
}

/// Compiling a program appends its successful functions to the module and
/// reports the failures, in source order.
pub open spec fn sp_compile_program(m: IrModuleV, p: ProgramV) -> (
    IrModuleV,
    Seq<(Seq<char>, CodegenErrV)>,
) {
    let (funcs, errs) = cg_program(p.body, runtime_sigs() + sigs_of_funcs(m.funcs));
    (IrModuleV { name: m.name, decls: m.decls, funcs: m.funcs + funcs }, errs)
}

// ---------------------------------------------------------------------
// The executable generator.
// ---------------------------------------------------------------------

/// The executable per-function generator state; its view is `CgSt`.
struct CgState {
    next_reg: usize,
    allocas: Vec<(usize, IrType)>,
    body: Vec<IrInstr>,
    vars: Vec<(String, usize, IrType)>,
}

impl View for CgState {
    type V = CgSt;

    closed spec fn view(&self) -> CgSt {
        CgSt {
            next_reg: self.next_reg as int,
            allocas: Seq::new(
                self.allocas@.len(),
                |i: int| (self.allocas@[i].0 as int, self.allocas@[i].1),
            ),
            body: self.body.deep_view(),
            vars: Seq::new(
                self.vars@.len(),
                |i: int| (self.vars@[i].0@, self.vars@[i].1 as int, self.vars@[i].2),
            ),
        }
    }
}

impl CgState {
    fn fresh(&mut self) -> (r: Result<usize, CodegenError>)
        ensures
            match (r, cg_fresh(old(self)@)) {
                (Ok(d), Ok((st1, sd))) => final (self)@ == st1 && d as int == sd,
                (Err(e), Err(se)) => e.deep_view() == se,
                _ => false,
            },
    {
        if self.next_reg == usize::MAX {
            Err(CodegenError::InvalidFunction)
        } else {
            let d = self.next_reg;
            self.next_reg = self.next_reg + 1;
            proof {
                assert(self@.allocas =~= old(self)@.allocas);
                assert(self@.body =~= old(self)@.body);
                assert(self@.vars =~= old(self)@.vars);
                let (st1, sd) = cg_fresh(old(self)@)->Ok_0;
                assert(self@ == st1);
            }
            Ok(d)
        }
    }

    fn add_instr(&mut self, ins: IrInstr)
        ensures
            final (self)@ == st_add_instr(old(self)@, ins.deep_view()),
    {
        let ghost insv = ins.deep_view();
        self.body.push(ins);
        proof {
            assert(self@.allocas =~= old(self)@.allocas);
            assert(self@.body =~= old(self)@.body.push(insv));
            assert(self@.vars =~= old(self)@.vars);
            assert(self@ == st_add_instr(old(self)@, insv));
        }
    }

    fn add_alloca(&mut self, slot: usize, ty: IrType)
        ensures
            final (self)@ == st_add_alloca(old(self)@, slot as int, ty),
    {
        self.allocas.push((slot, ty));
        proof {
            assert(self@.allocas =~= old(self)@.allocas.push((slot as int, ty)));
            assert(self@.body =~= old(self)@.body);
            assert(self@.vars =~= old(self)@.vars);
            assert(self@ == st_add_alloca(old(self)@, slot as int, ty));
        }
    }

    fn add_var(&mut self, name: String, slot: usize, ty: IrType)
        ensures
            final (self)@ == st_add_var(old(self)@, name@, slot as int, ty),
    {
        let ghost nv = name@;
        self.vars.push((name, slot, ty));
        proof {
            assert(self@.allocas =~= old(self)@.allocas);
            assert(self@.body =~= old(self)@.body);
            assert(self@.vars =~= old(self)@.vars.push((nv, slot as int, ty)));
            assert(self@ == st_add_var(old(self)@, nv, slot as int, ty));
        }
    }

    #[verifier::loop_isolation(false)]
    fn lookup_var(&self, name: &String) -> (r: Option<(usize, IrType)>)
        ensures
            match r {
                Some((slot, ty)) => var_lookup(self@.vars, name@) == Some((slot as int, ty)),
                None => var_lookup(self@.vars, name@) is None,
            },
    {
        let ghost vs = self@.vars;
        proof {
            assert(vs.take(self.vars@.len() as int) =~= vs);
        }
        let mut k: usize = self.vars.len();
        while k > 0
            invariant
                k <= self.vars.len(),
                var_lookup(vs, name@) == var_lookup(vs.take(k as int), name@),
            decreases k,
        {
            proof {
                assert(vs.take(k as int).last() == vs[k - 1]);
                assert(vs.take(k as int).drop_last() =~= vs.take(k - 1));
            }
            if str_eq_str(self.vars[k - 1].0.as_str(), name.as_str()) {
                return Some((self.vars[k - 1].1, self.vars[k - 1].2));
            }
            k -= 1;
        }
        proof {
            assert(vs.take(0) =~= Seq::<(Seq<char>, int, IrType)>::empty());
        }
        None
    }
}

/// The declared-to-IR type mapping, as the original generator wrote it.
pub fn to_ir_type(t: Type) -> (r: IrType)
    ensures
        r == map_type(t),
{
    match t {
        Type::Int => IrType::I64,
        Type::Float => IrType::Double,
        Type::Str => IrType::Ptr,
    }
}

/// Looks a callable name up among the known signatures; the earliest
/// wins. Returns its index.
#[verifier::loop_isolation(false)]
fn lookup_sig(known: &Vec<FnSig>, name: &String) -> (r: Option<usize>)
    ensures
        match r {
            Some(i) => i < known.len() && sig_lookup(known.deep_view(), name@) == Some(
                known@[i as int].deep_view(),
            ),
            None => sig_lookup(known.deep_view(), name@) is None,
        },
{
    let ghost ks = known.deep_view();
    proof {
        assert(ks.skip(0) =~= ks);
    }
    let mut k: usize = 0;
    while k < known.len()
        invariant
            k <= known.len(),
            sig_lookup(ks, name@) == sig_lookup(ks.skip(k as int), name@),
        decreases known.len() - k,
    {
        proof {
            assert(ks.skip(k as int)[0] == ks[k as int]);
            assert(ks.skip(k as int).drop_first() =~= ks.skip(k + 1));
        }
        if str_eq_str(known[k].name.as_str(), name.as_str()) {
            return Some(k);
        }
        k += 1;
    }
    proof {
        assert(ks.skip(known@.len() as int) =~= Seq::<FnSigV>::empty());
    }
    None
}

/// The argument types of a compiled call match the callee's parameters.
#[verifier::loop_isolation(false)]
fn args_match(cargs: &Vec<(IrType, Operand)>, params: &Vec<IrType>) -> (r: bool)
    ensures
        r == (cargs.deep_view().len() == params.deep_view().len() && (forall|i: int|
            0 <= i < cargs.deep_view().len() ==> cargs.deep_view()[i].0
                == params.deep_view()[i])),
{
    if cargs.len() != params.len() {
        return false;
    }
    let mut k: usize = 0;
    while k < cargs.len()
        invariant
            k <= cargs.len(),
            forall|i: int| 0 <= i < k ==> cargs.deep_view()[i].0 == params.deep_view()[i],
        decreases cargs.len() - k,
    {
        if !ir_type_eq(cargs[k].0, params[k]) {
            proof {
                assert(cargs.deep_view()[k as int].0 != params.deep_view()[k as int]);
            }
            return false;
        }
        k += 1;
    }
    true
}

/// Structural equality of IR types.
fn ir_type_eq(a: IrType, b: IrType) -> (r: bool)
    ensures
        r == (a == b),
{
    match (a, b) {
        (IrType::I64, IrType::I64) => true,
        (IrType::Double, IrType::Double) => true,
        (IrType::Ptr, IrType::Ptr) => true,
        _ => false,
    }
}

/// Compiles one expression into the state, exactly as `cg_expr`
/// describes. On failure the state is abandoned by the caller.
#[verifier::loop_isolation(false)]
fn compile_expr(st: &mut CgState, known: &Vec<FnSig>, e: &Expr) -> (r: Result<
    (Operand, IrType),
    CodegenError,
>)
    ensures
        match (r, cg_expr(old(st)@, known.deep_view(), e.deep_view())) {
            (Ok((o, t)), Ok((sst, so, sty))) => final (st)@ == sst && o.deep_view() == so && t
                == sty,
            (Err(er), Err(se)) => er.deep_view() == se,
            _ => false,
        },
    decreases e, 0int,
{
    match e {
        Expr::Number(n) => Ok((Operand::ConstInt(*n), IrType::I64)),
        Expr::Float(t) => Ok((Operand::ConstFloat(t.clone()), IrType::Double)),
        Expr::String(text) => {
            let n = text.unicode_len();
            if (n as u64) >= 9223372036854775807u64 {
                return Err(CodegenError::InvalidFunction);
            }
            let d = match st.fresh() {
                Err(er) => {
                    return Err(er);
                },
                Ok(d) => d,
            };
            let mut cargs: Vec<(IrType, Operand)> = Vec::new();
            cargs.push((IrType::I64, Operand::ConstInt(((n as u64) + 1) as i64)));
            let ins = IrInstr::Call {
                dest: Some((d, IrType::Ptr)),
                func: "rython_malloc".to_owned(),
                args: cargs,
            };
            proof {
                assert(ins.deep_view()->Call_args =~= seq![
                    (IrType::I64, OperandV::ConstInt((text@.len() + 1) as i64)),
                ]);
            }
            st.add_instr(ins);
            st.add_instr(IrInstr::CopyBytes { ptr: d, bytes: text.clone() });
            Ok((Operand::Reg(d), IrType::Ptr))
        },
        Expr::Var(name) => {
            match st.lookup_var(name) {
                None => Err(CodegenError::UndefinedSymbol { name: name.clone() }),
                Some((slot, ty)) => {
                    let d = match st.fresh() {
                        Err(er) => {
                            return Err(er);
                        },
                        Ok(d) => d,
                    };
                    st.add_instr(IrInstr::Load { dest: d, ty, ptr: slot });
                    Ok((Operand::Reg(d), ty))
                },
            }
        },
        Expr::BinOp { left, op, right } => {
            let (o1, t1) = match compile_expr(st, known, left) {
                Err(er) => {
                    return Err(er);
                },
                Ok(v) => v,
            };
            let (o2, t2) = match compile_expr(st, known, right) {
                Err(er) => {
                    return Err(er);
                },
                Ok(v) => v,
            };
            if (ir_type_eq(t1, IrType::I64) && ir_type_eq(t2, IrType::I64)) || (ir_type_eq(
                t1,
                IrType::Double,
            ) && ir_type_eq(t2, IrType::Double)) {
                let d = match st.fresh() {
                    Err(er) => {
                        return Err(er);
                    },
                    Ok(d) => d,
                };
                st.add_instr(IrInstr::Bin { dest: d, op: *op, ty: t1, lhs: o1, rhs: o2 });
                Ok((Operand::Reg(d), t1))
            } else {
                Err(CodegenError::TypeMismatch)
            }
        },
        Expr::Call { func, args } => {
            let sig_i = match lookup_sig(known, func) {
                None => {
                    return Err(CodegenError::UndefinedSymbol { name: func.clone() });
                },
                Some(i) => i,
            };
            proof {
                assert(args.deep_view().take(args@.len() as int) =~= args.deep_view());
                assert(e.deep_view()->Call_args =~= args.deep_view());
            }
            let cargs = match compile_args(st, known, args, args.len()) {
                Err(er) => {
                    return Err(er);
                },
                Ok(v) => v,
            };
            if args_match(&cargs, &known[sig_i].params) {
                match known[sig_i].ret {
                    None => Err(CodegenError::TypeMismatch),
                    Some(rt) => {
                        let d = match st.fresh() {
                            Err(er) => {
                                return Err(er);
                            },
                            Ok(d) => d,
                        };
                        st.add_instr(
                            IrInstr::Call {
                                dest: Some((d, rt)),
                                func: func.clone(),
                                args: cargs,
                            },
                        );
                        Ok((Operand::Reg(d), rt))
                    },
                }
            } else {
                Err(CodegenError::TypeMismatch)
            }
        },
    }
}

/// Compiles the first `k` arguments of a call, exactly as `cg_args` on
/// that prefix describes.
fn compile_args(st: &mut CgState, known: &Vec<FnSig>, args: &Vec<Expr>, k: usize) -> (r: Result<
    Vec<(IrType, Operand)>,
    CodegenError,
>)
    requires
        k <= args.len(),
    ensures
        match (r, cg_args(old(st)@, known.deep_view(), args.deep_view().take(k as int))) {
            (Ok(v), Ok((sst, sargs))) => final (st)@ == sst && v.deep_view() == sargs,
            (Err(er), Err(se)) => er.deep_view() == se,
            _ => false,
        },
    decreases *args, k,
{
    let ghost argsv = args.deep_view();
    if k == 0 {
        let v: Vec<(IrType, Operand)> = Vec::new();
        proof {
            assert(argsv.take(0) =~= Seq::<ExprV>::empty());
            assert(v.deep_view() =~= Seq::<(IrType, OperandV)>::empty());
        }
        Ok(v)
    } else {
        let mut rest = match compile_args(st, known, args, k - 1) {
            Err(er) => {
                proof {
                    assert(argsv.take(k as int).drop_last() =~= argsv.take(k - 1));
                }
                return Err(er);
            },
            Ok(v) => v,
        };
        proof {
            assert(argsv.take(k as int).drop_last() =~= argsv.take(k - 1));
            assert(argsv.take(k as int).last() == args@[k - 1].deep_view());
            assert(decreases_to!(args@ => args@[k - 1]));
            assert(decreases_to!(*args => args@));
        }
        let ghost restv = rest.deep_view();
        match compile_expr(st, known, &args[k - 1]) {
            Err(er) => Err(er),
            Ok((o, t)) => {
                let ghost ov = o.deep_view();
                rest.push((t, o));
                proof {
                    assert(rest.deep_view() =~= restv.push((t, ov)));
                }
                Ok(rest)
            },
        }
    }
}

/// Every statement from `from` on is a nested function definition.
#[verifier::loop_isolation(false)]
fn rest_all_fn_defs(body: &Vec<Statement>, from: usize) -> (r: bool)
    requires
        from <= body.len(),
    ensures
        r == all_fn_defs(body.deep_view().skip(from as int)),
{
    let ghost bodyv = body.deep_view();
    let mut k: usize = from;
    while k < body.len()
        invariant
            from <= k <= body.len(),
            forall|i: int| from <= i < k ==> bodyv[i] is FunctionDef,
        decreases body.len() - k,
    {
        match &body[k] {
            Statement::FunctionDef(_) => {},
            _ => {
                proof {
                    assert(bodyv.skip(from as int)[k - from] == bodyv[k as int]);
                }
                return false;
            },
        }
        k += 1;
    }
    proof {
        assert forall|i: int| 0 <= i < bodyv.skip(from as int).len() implies bodyv.skip(
            from as int,
        )[i] is FunctionDef by {
            assert(bodyv.skip(from as int)[i] == bodyv[i + from]);
        }
    }
    true
}

/// Compiles the statements of a body from index `k` on, exactly as
/// `cg_body` on that suffix describes.
fn compile_body(
    st: &mut CgState,
    known: &Vec<FnSig>,
    ret: IrType,
    body: &Vec<Statement>,
    k: usize,
) -> (r: Result<bool, CodegenError>)
    requires
        k <= body.len(),
    ensures
        match (r, cg_body(old(st)@, known.deep_view(), ret, body.deep_view().skip(k as int))) {
            (Ok(t), Ok((sst, stm))) => final (st)@ == sst && t == stm,
            (Err(er), Err(se)) => er.deep_view() == se,
            _ => false,
        },
    decreases body.len() - k,
{
    let ghost bodyv = body.deep_view();
    if k == body.len() {
        proof {
            assert(bodyv.skip(k as int) =~= Seq::<StatementV>::empty());
        }
        return Ok(false);
    }
    proof {
        assert(bodyv.skip(k as int)[0] == body@[k as int].deep_view());
        assert(bodyv.skip(k as int).drop_first() =~= bodyv.skip(k + 1));
        assert(bodyv.skip(k as int).len() > 0);
    }
    match &body[k] {
        Statement::VarDecl(d) => {
            let (o, t) = match compile_expr(st, known, &d.value) {
                Err(er) => {
                    return Err(er);
                },
                Ok(v) => v,
            };
            let slot = match st.fresh() {
                Err(er) => {
                    return Err(er);
                },
                Ok(d) => d,
            };
            st.add_alloca(slot, t);
            st.add_instr(IrInstr::Store { ty: t, ptr: slot, val: o });
            st.add_var(d.name.clone(), slot, t);
            compile_body(st, known, ret, body, k + 1)
        },
        Statement::Return(e) => {
            let (o, t) = match compile_expr(st, known, e) {
                Err(er) => {
                    return Err(er);
                },
                Ok(v) => v,
            };
            if !ir_type_eq(t, ret) {
                Err(CodegenError::InvalidFunction)
            } else if !rest_all_fn_defs(body, k + 1) {
                Err(CodegenError::InvalidFunction)
            } else {
                st.add_instr(IrInstr::Ret { ty: t, val: o });
                Ok(true)
            }
        },
        Statement::Expr(e) => {
            match compile_expr(st, known, e) {
                Err(er) => {
                    return Err(er);
                },
                Ok(_) => {},
            }
            compile_body(st, known, ret, body, k + 1)
        },
        Statement::FunctionDef(_) => compile_body(st, known, ret, body, k + 1),
    }
}

/// Spills the parameters from index `i` on into stack slots, exactly as
/// `cg_params` describes.
fn compile_params(st: &mut CgState, args: &Vec<(String, Type)>, i: usize) -> (r: Result<
    (),
    CodegenError,
>)
    requires
        i <= args.len(),
    ensures
        match (r, cg_params(old(st)@, args.deep_view(), i as int)) {
            (Ok(_), Ok(sst)) => final (st)@ == sst,
            (Err(er), Err(se)) => er.deep_view() == se,
            _ => false,
        },
    decreases args.len() - i,
{
    if i == args.len() {
        return Ok(());
    }
    let ty = to_ir_type(args[i].1);
    let slot = match st.fresh() {
        Err(er) => {
            return Err(er);
        },
        Ok(d) => d,
    };
    st.add_alloca(slot, ty);
    st.add_instr(IrInstr::Store { ty, ptr: slot, val: Operand::Reg(i) });
    st.add_var(args[i].0.clone(), slot, ty);
    compile_params(st, args, i + 1)
}

/// The IR parameter types of a parameter list.
#[verifier::loop_isolation(false)]
fn map_param_types(args: &Vec<(String, Type)>) -> (v: Vec<IrType>)
    ensures
        v.deep_view() == map_params(args.deep_view()),
{
    let mut v: Vec<IrType> = Vec::new();
    let mut i: usize = 0;
    while i < args.len()
        invariant
            i <= args.len(),
            v@.len() == i,
            forall|t: int| 0 <= t < i ==> v@[t] == map_type(args@[t].1),
        decreases args.len() - i,
    {
        v.push(to_ir_type(args[i].1));
        i += 1;
    }
    proof {
        assert(v.deep_view() =~= map_params(args.deep_view()));
    }
    v
}

/// The callable signature of a definition.
fn make_sig(f: &FunctionDef) -> (sig: FnSig)
    ensures
        sig.deep_view() == sig_of(f.deep_view()),
{
    let ps = map_param_types(&f.args);
    let sig = FnSig {
        name: f.name.clone(),
        params: ps,
        ret: Some(to_ir_type(f.return_type)),
    };
    proof {
        assert(f.deep_view().args =~= f.args.deep_view());
        assert(sig.deep_view().params =~= map_params(f.deep_view().args));
    }
    sig
}

/// Compiles one function definition against the known signatures, exactly
/// as `cg_function` describes.
fn compile_function(f: &FunctionDef, known: &Vec<FnSig>) -> (r: Result<IrFunction, CodegenError>)
    ensures
        match (r, cg_function(f.deep_view(), known.deep_view())) {
            (Ok(irf), Ok(sirf)) => irf.deep_view() == sirf,
            (Err(er), Err(se)) => er.deep_view() == se,
            _ => false,
        },
{
    let mut st = CgState {
        next_reg: f.args.len(),
        allocas: Vec::new(),
        body: Vec::new(),
        vars: Vec::new(),
    };
    proof {
        assert(st@.allocas =~= Seq::<(int, IrType)>::empty());
        assert(st@.body =~= Seq::<IrInstrV>::empty());
        assert(st@.vars =~= Seq::<(Seq<char>, int, IrType)>::empty());
        assert(st@ == st_empty(f.deep_view().args.len() as int));
        assert(f.deep_view().args =~= f.args.deep_view());
    }
    if str_eq_str(f.name.as_str(), "main") {
        let cargs: Vec<(IrType, Operand)> = Vec::new();
        let ins = IrInstr::Call { dest: None, func: "rython_mem_init".to_owned(), args: cargs };
        proof {
            assert(ins.deep_view()->Call_args =~= Seq::<(IrType, OperandV)>::empty());
        }
        st.add_instr(ins);
    }
    match compile_params(&mut st, &f.args, 0) {
        Err(er) => {
            return Err(er);
        },
        Ok(_) => {},
    }
    let ret_ty = to_ir_type(f.return_type);
    let terminated = match compile_body(&mut st, known, ret_ty, &f.body, 0) {
        Err(er) => {
            proof {
                assert(f.body.deep_view().skip(0) =~= f.deep_view().body);
            }
            return Err(er);
        },
        Ok(t) => t,
    };
    proof {
        assert(f.body.deep_view().skip(0) =~= f.deep_view().body);
    }
    if !terminated {
        let z = match f.return_type {
            Type::Int => Operand::ConstInt(0),
            Type::Float => Operand::ConstFloat("0.0".to_owned()),
            Type::Str => Operand::NullPtr,
        };
        st.add_instr(IrInstr::Ret { ty: ret_ty, val: z });
    }
    let ptypes = map_param_types(&f.args);
    let ghost stv = st@;
    let CgState { allocas, body, .. } = st;
    let irf = IrFunction {
        name: f.name.clone(),
        params: ptypes,
        ret: ret_ty,
        allocas,
        body,
    };
    proof {
        assert(irf.deep_view().allocas =~= stv.allocas);
        assert(irf.deep_view().body =~= stv.body);
        assert(irf.deep_view().params =~= map_params(f.deep_view().args));
        let sirf = cg_function(f.deep_view(), known.deep_view())->Ok_0;
        assert(irf.deep_view() == sirf);
    }
    Ok(irf)
}

/// The compiler: it owns the module being built. The per-function state
/// lives only inside `compile_function`, so nothing carries over from one
/// function, or one `compile_program` call, to the next.
pub struct Compiler {
    pub module: IrModule,
}

impl Compiler {
    /// A fresh compiler whose module holds the two runtime declarations,
    /// as every module must before generated code can call into the
    /// runtime.
    pub fn new(module_name: &str) -> (c: Compiler)
        ensures
            c.module.deep_view() == sp_new_module(module_name@),
    {
        let mut decls: Vec<IrDecl> = Vec::new();
        decls.push(IrDecl { name: "rython_mem_init".to_owned(), params: Vec::new(), ret: None });
        let mut mp: Vec<IrType> = Vec::new();
        mp.push(IrType::I64);
        decls.push(
            IrDecl { name: "rython_malloc".to_owned(), params: mp, ret: Some(IrType::Ptr) },
        );
        let c = Compiler {
            module: IrModule { name: module_name.to_owned(), decls, funcs: Vec::new() },
        };
        proof {
            let dv = c.module.deep_view().decls;
            assert(dv[0].params =~= runtime_decls()[0].params);
            assert(dv[1].params =~= runtime_decls()[1].params);
            assert(dv =~= runtime_decls());
            assert(c.module.deep_view().funcs =~= Seq::<IrFunctionV>::empty());
        }
        c
    }

    /// Compiles every top-level function definition of the program into
    /// the module, exactly as `sp_compile_program` describes, returning
    /// the generation failures by function name in source order.
    #[verifier::loop_isolation(false)]
    pub fn compile_program(&mut self, program: &Program) -> (errs: Vec<(String, CodegenError)>)
        ensures
            ({
                let (smod, serrs) = sp_compile_program(
                    old(self).module.deep_view(),
                    program.deep_view(),
                );
                final (self).module.deep_view() == smod && errs.deep_view() == serrs
            }),
    {
        let ghost m0 = self.module.deep_view();
        let ghost pv = program.deep_view();
        let mut known: Vec<FnSig> = Vec::new();
        known.push(FnSig { name: "rython_mem_init".to_owned(), params: Vec::new(), ret: None });
        let mut mp: Vec<IrType> = Vec::new();
        mp.push(IrType::I64);
        known.push(
            FnSig { name: "rython_malloc".to_owned(), params: mp, ret: Some(IrType::Ptr) },
        );
        proof {
            assert(known.deep_view()[0].params =~= runtime_sigs()[0].params);
            assert(known.deep_view()[1].params =~= runtime_sigs()[1].params);
            assert(known.deep_view() =~= runtime_sigs());
        }
        let mut i: usize = 0;
        while i < self.module.funcs.len()
            invariant
                i <= self.module.funcs.len(),
                self.module == old(self).module,
                known.deep_view() =~= runtime_sigs() + sigs_of_funcs(m0.funcs.take(i as int)),
            decreases self.module.funcs.len() - i,
        {
            let ps = {
                let g = &self.module.funcs[i];
                let mut ps: Vec<IrType> = Vec::new();
                let mut t: usize = 0;
                while t < g.params.len()
                    invariant
                        t <= g.params.len(),
                        ps@ =~= g.params@.take(t as int),
                    decreases g.params.len() - t,
                {
                    ps.push(g.params[t]);
                    t += 1;
                }
                proof {
                    assert(ps@ =~= g.params@);
                    assert(ps.deep_view() =~= g.params.deep_view());
                }
                ps
            };
            let sig = FnSig {
                name: self.module.funcs[i].name.clone(),
                params: ps,
                ret: Some(self.module.funcs[i].ret),
            };
            let ghost kv = known.deep_view();
            known.push(sig);
            proof {
                assert(m0.funcs[i as int] == self.module.funcs@[i as int].deep_view());
                assert(sigs_of_funcs(m0.funcs.take(i + 1)) =~= sigs_of_funcs(
                    m0.funcs.take(i as int),
                ).push(sig.deep_view()));
                assert(known.deep_view() =~= kv.push(sig.deep_view()));
                assert(known.deep_view() =~= runtime_sigs() + sigs_of_funcs(
                    m0.funcs.take(i + 1),
                ));
            }
            i += 1;
        }
        proof {
            assert(m0.funcs.take(self.module.funcs@.len() as int) =~= m0.funcs);
        }
        let mut errs: Vec<(String, CodegenError)> = Vec::new();
        proof {
            assert(pv.body.skip(0) =~= pv.body);
            assert(pv.body =~= program.body.deep_view());
            let (fs0, es0) = cg_program(pv.body, known.deep_view());
            assert(errs.deep_view() =~= Seq::<(Seq<char>, CodegenErrV)>::empty());
            assert(Seq::<(Seq<char>, CodegenErrV)>::empty() + es0 =~= es0);
        }
        let mut k: usize = 0;
        while k < program.body.len()
            invariant
                k <= program.body.len(),
                self.module.deep_view().name == m0.name,
                self.module.deep_view().decls == m0.decls,
                sp_compile_program(m0, pv) == ({
                    let (fs, es) = cg_program(pv.body.skip(k as int), known.deep_view());
                    (
                        IrModuleV {
                            name: m0.name,
                            decls: m0.decls,
                            funcs: self.module.deep_view().funcs + fs,
                        },
                        errs.deep_view() + es,
                    )
                }),
            decreases program.body.len() - k,
        {
            proof {
                assert(pv.body.skip(k as int)[0] == program.body@[k as int].deep_view());
                assert(pv.body.skip(k as int).drop_first() =~= pv.body.skip(k + 1));
            }
            match &program.body[k] {
                Statement::FunctionDef(f) => {
                    proof {
                        crate::ast::lemma_stmt_view_function_def(*f);
                    }
                    let sig = make_sig(f);
                    let ghost kv = known.deep_view();
                    known.push(sig);
                    proof {
                        assert(known.deep_view() =~= kv.push(sig_of(f.deep_view())));
                    }
                    match compile_function(f, &known) {
                        Ok(irf) => {
                            let ghost fv = self.module.deep_view().funcs;
                            let ghost irfv = irf.deep_view();
                            self.module.funcs.push(irf);
                            proof {
                                assert(self.module.deep_view().funcs =~= fv.push(irfv));
                                let (fs2, es2) = cg_program(
                                    pv.body.skip(k + 1),
                                    known.deep_view(),
                                );
                                assert((fv + (seq![irfv] + fs2)) =~= (fv.push(irfv) + fs2));
                            }
                        },
                        Err(e) => {
                            let ghost ev = e.deep_view();
                            let ghost errsv = errs.deep_view();
                            errs.push((f.name.clone(), e));
                            let popped = known.pop();
                            proof {
                                assert(known.deep_view() =~= kv);
                                assert(errs.deep_view() =~= errsv.push(
                                    (f.deep_view().name, ev),
                                ));
                                let (fs2, es2) = cg_program(pv.body.skip(k + 1), kv);
                                assert((errsv + (seq![(f.deep_view().name, ev)] + es2)) =~= (
                                errsv.push((f.deep_view().name, ev)) + es2));
                            }
                        },
                    }
                },
                _ => {
                    proof {
                        assert(!(pv.body.skip(k as int)[0] is FunctionDef));
                    }
                },
            }
            k += 1;
        }
        proof {
            assert(pv.body.skip(program.body@.len() as int) =~= Seq::<StatementV>::empty());
            let (fsl, esl) = cg_program(
                pv.body.skip(program.body@.len() as int),
                known.deep_view(),
            );
            assert(self.module.deep_view().funcs + fsl =~= self.module.deep_view().funcs);
            assert(errs.deep_view() + esl =~= errs.deep_view());
            let (smod, serrs) = sp_compile_program(m0, pv);
            assert(self.module.deep_view() == smod);
        }
        errs
    }
}

} // verus!
