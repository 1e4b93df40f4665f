//! Theorems that tie the components together: what the compiled code
//! computes agrees with what the interpreter computes on the shared
//! fragment, a function without a `return` really does return zero, and
//! independent runs and compilations share nothing.

use vstd::prelude::*;

use crate::ast::{ExprV, FunctionDefV, ProgramV, StatementV, Type};
use crate::codegen::{cg_args, cg_body, cg_expr, cg_fresh, cg_function, cg_params, cg_program};
use crate::codegen::{map_type, runtime_sigs, sig_of, sigs_of_funcs, sp_compile_program};
use crate::codegen::{sp_new_module, st_add_instr, st_empty, CgSt, FnSigV};
use crate::interp::{sp_arith, sp_eval_expr, sp_exec_block, sp_find_main, sp_run};
use crate::interp::{DiagnosticV, EnvV, ValueV};
use crate::ir::{IrInstrV, IrType, OperandV};
use crate::ireval::{ev_bin, ev_operand, ev_seg, find_func, rt_lookup, sp_eval_main, RegsV};
use crate::ireval::{RtValV, SegOut};

verus! {

/// An expression built from integer literals and the four operators
/// alone: the fragment on which the interpreter and the compiled code
/// are proved to agree.
pub open spec fn int_only(e: ExprV) -> bool
    decreases e,
{
    match e {
        ExprV::Number(_) => true,
        ExprV::BinOp { left, op: _, right } => int_only(*left) && int_only(*right),
        _ => false,
    }
}

/// The value of such an expression under the interpreter's arithmetic,
/// which needs no environment.
pub open spec fn int_val(e: ExprV) -> i64
    decreases e,
{
    match e {
        ExprV::Number(n) => n,
        ExprV::BinOp { left, op, right } => sp_arith(op, int_val(*left), int_val(*right)),
        _ => 0,
    }
}

/// The interpreter evaluates an integer-literal expression to exactly
/// `int_val`, with no diagnostics, in every environment.
pub proof fn lemma_interp_int_only(env: EnvV, e: ExprV)
    requires
        int_only(e),
    ensures
        sp_eval_expr(env, e) == (ValueV::Int(int_val(e)), Seq::<DiagnosticV>::empty()),
    decreases e,
{
    match e {
        ExprV::Number(_) => {},
        ExprV::BinOp { left, op, right } => {
            lemma_interp_int_only(env, *left);
            lemma_interp_int_only(env, *right);
            assert(Seq::<DiagnosticV>::empty() + Seq::<DiagnosticV>::empty()
                =~= Seq::<DiagnosticV>::empty());
        },
        _ => {},
    }
}

/// Every id bound in the register file is below `n`.
pub open spec fn regs_below(regs: RegsV, n: int) -> bool {
    forall|j: int| 0 <= j < regs.len() ==> regs[j].0 < n
}

/// Binding a fresh id leaves every other id's value unchanged.
pub proof fn lemma_rt_lookup_push_other(regs: RegsV, d: int, v: RtValV, k: int)
    requires
        k != d,
    ensures
        rt_lookup(regs.push((d, v)), k) == rt_lookup(regs, k),
{
    assert(regs.push((d, v)).drop_last() =~= regs);
}

/// An id at or above every bound id is unbound.
pub proof fn lemma_rt_lookup_below(regs: RegsV, n: int, k: int)
    requires
        regs_below(regs, n),
        k >= n,
    ensures
        rt_lookup(regs, k) is None,
    decreases regs.len(),
{
    if regs.len() > 0 {
        assert(regs.last() == regs[regs.len() - 1]);
        lemma_rt_lookup_below(regs.drop_last(), n, k);
    }
}

/// Executing a concatenation of segments runs the first, and then, if it
/// ran off its end, the second from the state the first left.
pub proof fn lemma_ev_seg_append(a: Seq<IrInstrV>, b: Seq<IrInstrV>, regs: RegsV, slots: RegsV)
    ensures
        ev_seg(a + b, regs, slots) == (match ev_seg(a, regs, slots) {
            SegOut::Ran { regs: r2, slots: s2 } => ev_seg(b, r2, s2),
            SegOut::Returned { val } => SegOut::Returned { val },
            SegOut::Trap => SegOut::Trap,
        }),
    decreases a.len(),
{
    if a.len() == 0 {
        assert(a + b =~= b);
    } else {
        assert((a + b)[0] == a[0]);
        assert((a + b).drop_first() =~= a.drop_first() + b);
        assert((a + b).len() > 0);
        match a[0] {
            IrInstrV::Store { ty: _, ptr, val } => {
                match ev_operand(regs, val) {
                    None => {},
                    Some(v) => {
                        lemma_ev_seg_append(a.drop_first(), b, regs, slots.push((ptr, v)));
                    },
                }
            },
            IrInstrV::Load { dest, ty: _, ptr } => {
                match rt_lookup(slots, ptr) {
                    None => {},
                    Some(v) => {
                        lemma_ev_seg_append(a.drop_first(), b, regs.push((dest, v)), slots);
                    },
                }
            },
            IrInstrV::Bin { dest, op, ty, lhs, rhs } => {
                if ty == IrType::I64 {
                    match (ev_operand(regs, lhs), ev_operand(regs, rhs)) {
                        (Some(RtValV::I64(x)), Some(RtValV::I64(y))) => {
                            match ev_bin(op, x, y) {
                                None => {},
                                Some(v) => {
                                    lemma_ev_seg_append(
                                        a.drop_first(),
                                        b,
                                        regs.push((dest, RtValV::I64(v))),
                                        slots,
                                    );
                                },
                            }
                        },
                        _ => {},
                    }
                }
            },
            IrInstrV::Call { dest, func, args: _ } => {
                if func == "rython_mem_init"@ && dest is None {
                    lemma_ev_seg_append(a.drop_first(), b, regs, slots);
                } else if func == "rython_malloc"@ && (dest matches Some((_, IrType::Ptr))) {
                    lemma_ev_seg_append(
                        a.drop_first(),
                        b,
                        regs.push((dest->Some_0.0, RtValV::Ptr(dest->Some_0.0))),
                        slots,
                    );
                }
            },
            IrInstrV::CopyBytes { .. } => {
                lemma_ev_seg_append(a.drop_first(), b, regs, slots);
            },
            IrInstrV::Ret { .. } => {},
        }
    }
}

/// The heart of the agreement law. Compiling an integer-literal
/// expression emits a straight-line segment that, run from any register
/// file bound below the generator's next id, either traps (a division by
/// zero on the way) or produces exactly the interpreter's value, binding
/// only fresh ids, leaving the slots alone and every older id unchanged.
pub proof fn lemma_compiled_int_expr(
    st: CgSt,
    known: Seq<FnSigV>,
    e: ExprV,
    regs: RegsV,
    slots: RegsV,
)
    requires
        int_only(e),
        cg_expr(st, known, e) is Ok,
        regs_below(regs, st.next_reg),
    ensures
        ({
            let (st2, o, t) = cg_expr(st, known, e)->Ok_0;
            &&& t == IrType::I64
            &&& st2.next_reg >= st.next_reg
            &&& st2.body.len() >= st.body.len()
            &&& st2.body.take(st.body.len() as int) == st.body
            &&& st2.allocas == st.allocas
            &&& st2.vars == st.vars
            &&& match ev_seg(st2.body.skip(st.body.len() as int), regs, slots) {
                SegOut::Ran { regs: r2, slots: s2 } => {
                    &&& s2 == slots
                    &&& regs_below(r2, st2.next_reg)
                    &&& (forall|k: int|
                        k < st.next_reg ==> rt_lookup(r2, k) == rt_lookup(regs, k))
                    &&& ev_operand(r2, o) == Some(RtValV::I64(int_val(e)))
                },
                SegOut::Returned { .. } => false,
                SegOut::Trap => true,
            }
        }),
    decreases e,
{
    match e {
        ExprV::Number(_) => {
            assert(st.body.take(st.body.len() as int) =~= st.body);
            assert(st.body.skip(st.body.len() as int) =~= Seq::<IrInstrV>::empty());
        },
        ExprV::BinOp { left, op, right } => {
            let (st1, o1, t1) = cg_expr(st, known, *left)->Ok_0;
            let (stx, o2, t2) = cg_expr(st1, known, *right)->Ok_0;
            let (stf, d) = cg_fresh(stx)->Ok_0;
            let bin = IrInstrV::Bin { dest: d, op, ty: t1, lhs: o1, rhs: o2 };
            let st2 = st_add_instr(stf, bin);
            assert(cg_expr(st, known, e)->Ok_0 == (st2, OperandV::Reg(d), t1));

            lemma_compiled_int_expr(st, known, *left, regs, slots);
            lemma_compiled_int_expr(st1, known, *right, Seq::empty(), slots);
            let delta_l = st1.body.skip(st.body.len() as int);
            let delta_r = stx.body.skip(st1.body.len() as int);
            assert(st2.body.skip(st.body.len() as int) =~= delta_l + (delta_r + seq![bin]));
            assert(st2.body.take(st.body.len() as int) =~= st.body);
            lemma_ev_seg_append(delta_l, delta_r + seq![bin], regs, slots);
            match ev_seg(delta_l, regs, slots) {
                SegOut::Trap => {},
                SegOut::Returned { .. } => {
                    assert(false);
                },
                SegOut::Ran { regs: r1, slots: s1 } => {
                    assert(s1 == slots);
                    lemma_compiled_int_expr(st1, known, *right, r1, slots);
                    lemma_ev_seg_append(delta_r, seq![bin], r1, slots);
                    match ev_seg(delta_r, r1, slots) {
                        SegOut::Trap => {},
                        SegOut::Returned { .. } => {
                            assert(false);
                        },
                        SegOut::Ran { regs: r2, slots: s2 } => {
                            assert(s2 == slots);
                            // The left operand still evaluates after the
                            // right segment ran: a bound id is below the
                            // ids the right segment binds.
                            assert(ev_operand(r2, o1) == Some(RtValV::I64(int_val(*left))))
                                by {
                                match o1 {
                                    OperandV::Reg(k) => {
                                        if k >= st1.next_reg {
                                            lemma_rt_lookup_below(r1, st1.next_reg, k);
                                            assert(false);
                                        }
                                    },
                                    _ => {},
                                }
                            };
                            let lv = int_val(*left);
                            let rv = int_val(*right);
                            assert(ev_seg(seq![bin], r2, slots) == (match ev_bin(op, lv, rv) {
                                None => SegOut::Trap,
                                Some(v) => ev_seg(
                                    Seq::<IrInstrV>::empty(),
                                    r2.push((d, RtValV::I64(v))),
                                    slots,
                                ),
                            })) by {
                                assert(seq![bin][0] == bin);
                                assert(seq![bin].drop_first() =~= Seq::<IrInstrV>::empty());
                            };
                            match ev_bin(op, lv, rv) {
                                None => {},
                                Some(v) => {
                                    assert(v == sp_arith(op, lv, rv));
                                    let r3 = r2.push((d, RtValV::I64(v)));
                                    assert(rt_lookup(r3, d) == Some(RtValV::I64(v)));
                                    assert(regs_below(r3, st2.next_reg));
                                    assert forall|k: int| k < st.next_reg implies rt_lookup(
                                        r3,
                                        k,
                                    ) == rt_lookup(regs, k) by {
                                        lemma_rt_lookup_push_other(r2, d, RtValV::I64(v), k);
                                    };
                                },
                            }
                        },
                    }
                },
            }
        },
        _ => {},
    }
}

/// A one-statement program: a `main` that returns the given expression.
pub open spec fn return_expr_main(e: ExprV) -> ProgramV {
    ProgramV {
        body: seq![
            StatementV::FunctionDef(
                FunctionDefV {
                    name: "main"@,
                    args: Seq::empty(),
                    return_type: Type::Int,
                    body: seq![StatementV::Return(e)],
                },
            ),
        ],
    }
}

/// Interpreting and code-generating-then-executing agree on integer
/// expressions, both sides evaluating the flat-precedence operator chain
/// left to right: whenever the compiled `main` executes to a value in
/// the reference semantics, interpreting the same program yields exactly
/// that value, with no diagnostics. (The one divergence is division by
/// zero, where compiled code traps — execution then yields no value and
/// this law says nothing — while the interpreter returns 0.)
pub proof fn lemma_compiled_and_interpreted_agree(modname: Seq<char>, e: ExprV, v: i64)
    requires
        int_only(e),
        sp_eval_main(sp_compile_program(sp_new_module(modname), return_expr_main(e)).0)
            == Some(v),
    ensures
        sp_run(return_expr_main(e)) == (
            Some(ValueV::Int(v)),
            Seq::<DiagnosticV>::empty(),
        ),
{
    let p = return_expr_main(e);
    let f = p.body[0]->FunctionDef_0;
    let m0 = sp_new_module(modname);
    assert(sigs_of_funcs(m0.funcs) =~= Seq::<FnSigV>::empty());
    let known0 = runtime_sigs() + sigs_of_funcs(m0.funcs);
    assert(known0 =~= runtime_sigs());
    let known = known0.push(sig_of(f));

    // Unfold the compilation of `main`.
    let st0 = st_empty(0);
    let initcall = IrInstrV::Call {
        dest: None,
        func: "rython_mem_init"@,
        args: Seq::empty(),
    };
    let st1 = st_add_instr(st0, initcall);
    assert(cg_params(st1, f.args, 0) == Ok::<CgSt, crate::codegen::CodegenErrV>(st1));
    let m = sp_compile_program(m0, p).0;

    // The expression must have compiled: had it failed, the module would
    // hold no function and `main` could not have executed to a value.
    if !(cg_expr(st1, known, e) is Ok) {
        assert(cg_function(f, known) is Err);
        assert(cg_program(p.body.drop_first(), known0) == (
            Seq::<crate::ir::IrFunctionV>::empty(),
            Seq::<(Seq<char>, crate::codegen::CodegenErrV)>::empty(),
        )) by {
            assert(p.body.drop_first() =~= Seq::<StatementV>::empty());
        };
        assert(m.funcs =~= Seq::<crate::ir::IrFunctionV>::empty());
        assert(find_func(m.funcs, "main"@) is None);
        assert(false);
    }
    let (st2, o, t) = cg_expr(st1, known, e)->Ok_0;
    lemma_compiled_int_expr(st1, known, e, Seq::empty(), Seq::empty());
    assert(t == map_type(f.return_type));
    assert(crate::codegen::all_fn_defs(seq![StatementV::Return(e)].drop_first())) by {
        assert(seq![StatementV::Return(e)].drop_first() =~= Seq::<StatementV>::empty());
    };
    let ret = IrInstrV::Ret { ty: t, val: o };
    let st3 = st_add_instr(st2, ret);
    assert(cg_body(st1, known, IrType::I64, f.body) == Ok::<(CgSt, bool), crate::codegen::CodegenErrV>((st3, true)));
    let irf = cg_function(f, known)->Ok_0;
    assert(irf.body == st3.body);
    assert(irf.name == "main"@);
    assert(irf.params =~= Seq::<IrType>::empty());

    // The compiled program holds exactly this function.
    assert(cg_program(p.body.drop_first(), known) == (
        Seq::<crate::ir::IrFunctionV>::empty(),
        Seq::<(Seq<char>, crate::codegen::CodegenErrV)>::empty(),
    )) by {
        assert(p.body.drop_first() =~= Seq::<StatementV>::empty());
    };
    assert(m.funcs =~= seq![irf]);
    assert(find_func(m.funcs, "main"@) == Some(irf));

    // Execute: the initialization call first, then the expression's
    // segment, then the return.
    let delta = st2.body.skip(st1.body.len() as int);
    assert(irf.body =~= seq![initcall] + (delta + seq![ret]));
    let empty_regs = Seq::<(int, RtValV)>::empty();
    lemma_ev_seg_append(seq![initcall], delta + seq![ret], empty_regs, empty_regs);
    assert(ev_seg(seq![initcall], empty_regs, empty_regs) == (SegOut::Ran {
        regs: empty_regs,
        slots: empty_regs,
    })) by {
        assert(seq![initcall][0] == initcall);
        assert(seq![initcall].drop_first() =~= Seq::<IrInstrV>::empty());
        assert(ev_seg(Seq::<IrInstrV>::empty(), empty_regs, empty_regs) == (SegOut::Ran {
            regs: empty_regs,
            slots: empty_regs,
        }));
    };
    lemma_ev_seg_append(delta, seq![ret], empty_regs, empty_regs);
    match ev_seg(delta, empty_regs, empty_regs) {
        SegOut::Trap => {
            assert(sp_eval_main(m) is None);
            assert(false);
        },
        SegOut::Returned { .. } => {
            assert(false);
        },
        SegOut::Ran { regs: r2, slots: s2 } => {
            assert(ev_operand(r2, o) == Some(RtValV::I64(int_val(e))));
            assert(ev_seg(seq![ret], r2, s2) == (SegOut::Returned {
                val: RtValV::I64(int_val(e)),
            })) by {
                assert(seq![ret][0] == ret);
            };
            assert(sp_eval_main(m) == Some(int_val(e)));
            assert(v == int_val(e));
        },
    }

    // Interpret the same program.
    assert(sp_find_main(p.body) == Some(f));
    lemma_interp_int_only(Seq::empty(), e);
    let (env1, retv, dg) = sp_exec_block(Seq::empty(), f.body);
    assert(f.body[0] == StatementV::Return(e));
    assert(retv == Some(ValueV::Int(int_val(e))));
    assert(dg =~= Seq::<DiagnosticV>::empty());
}


/// `b` extends `a` and appends no return instruction.
pub open spec fn extends_no_ret(a: Seq<IrInstrV>, b: Seq<IrInstrV>) -> bool {
    &&& b.len() >= a.len()
    &&& b.take(a.len() as int) == a
    &&& forall|j: int| a.len() <= j < b.len() ==> !(b[j] is Ret)
}

pub proof fn lemma_extends_refl(a: Seq<IrInstrV>)
    ensures
        extends_no_ret(a, a),
{
    assert(a.take(a.len() as int) =~= a);
}

pub proof fn lemma_extends_push(a: Seq<IrInstrV>, b: Seq<IrInstrV>, ins: IrInstrV)
    requires
        extends_no_ret(a, b),
        !(ins is Ret),
    ensures
        extends_no_ret(a, b.push(ins)),
{
    assert(b.push(ins).take(a.len() as int) =~= b.take(a.len() as int));
}

pub proof fn lemma_extends_trans(a: Seq<IrInstrV>, b: Seq<IrInstrV>, c: Seq<IrInstrV>)
    requires
        extends_no_ret(a, b),
        extends_no_ret(b, c),
    ensures
        extends_no_ret(a, c),
{
    assert(c.take(a.len() as int) =~= b.take(a.len() as int));
    assert forall|j: int| a.len() <= j < c.len() implies !(c[j] is Ret) by {
        if j < b.len() {
            assert(c.take(b.len() as int)[j] == c[j]);
        }
    };
}

/// Compiling an expression appends no return instruction.
pub proof fn lemma_cg_expr_no_ret(st: CgSt, known: Seq<FnSigV>, e: ExprV)
    requires
        cg_expr(st, known, e) is Ok,
    ensures
        extends_no_ret(st.body, cg_expr(st, known, e)->Ok_0.0.body),
    decreases e, 0int,
{
    match e {
        ExprV::Number(_) => {
            lemma_extends_refl(st.body);
        },
        ExprV::Float(_) => {
            lemma_extends_refl(st.body);
        },
        ExprV::String(text) => {
            let (st1, d) = cg_fresh(st)->Ok_0;
            let call = IrInstrV::Call {
                dest: Some((d, IrType::Ptr)),
                func: "rython_malloc"@,
                args: seq![(IrType::I64, OperandV::ConstInt((text.len() + 1) as i64))],
            };
            let copy = IrInstrV::CopyBytes { ptr: d, bytes: text };
            let (st3, o, t) = cg_expr(st, known, e)->Ok_0;
            assert(st3.body == st.body.push(call).push(copy));
            lemma_extends_refl(st.body);
            lemma_extends_push(st.body, st.body, call);
            lemma_extends_push(st.body, st.body.push(call), copy);
        },
        ExprV::Var(_) => {
            let (st2, o, t) = cg_expr(st, known, e)->Ok_0;
            lemma_extends_refl(st.body);
            assert(st2.body =~= st.body.push(st2.body.last()));
            lemma_extends_push(st.body, st.body, st2.body.last());
        },
        ExprV::BinOp { left, op: _, right } => {
            let (st1, o1, t1) = cg_expr(st, known, *left)->Ok_0;
            let (stx, o2, t2) = cg_expr(st1, known, *right)->Ok_0;
            let (st2, o, t) = cg_expr(st, known, e)->Ok_0;
            lemma_cg_expr_no_ret(st, known, *left);
            lemma_cg_expr_no_ret(st1, known, *right);
            lemma_extends_trans(st.body, st1.body, stx.body);
            lemma_extends_push(st.body, stx.body, st2.body.last());
            assert(st2.body =~= stx.body.push(st2.body.last()));
        },
        ExprV::Call { func: _, args } => {
            let (st1, cargs) = cg_args(st, known, args)->Ok_0;
            let (st2, o, t) = cg_expr(st, known, e)->Ok_0;
            lemma_cg_args_no_ret(st, known, args);
            lemma_extends_push(st.body, st1.body, st2.body.last());
            assert(st2.body =~= st1.body.push(st2.body.last()));
        },
    }
}

/// Compiling an argument list appends no return instruction.
pub proof fn lemma_cg_args_no_ret(st: CgSt, known: Seq<FnSigV>, args: Seq<ExprV>)
    requires
        cg_args(st, known, args) is Ok,
    ensures
        extends_no_ret(st.body, cg_args(st, known, args)->Ok_0.0.body),
    decreases args, 1int,
{
    if args.len() == 0 {
        lemma_extends_refl(st.body);
    } else {
        let (st1, rest) = cg_args(st, known, args.drop_last())->Ok_0;
        lemma_cg_args_no_ret(st, known, args.drop_last());
        lemma_cg_expr_no_ret(st1, known, args.last());
        let (st2, o, t) = cg_expr(st1, known, args.last())->Ok_0;
        lemma_extends_trans(st.body, st1.body, st2.body);
    }
}

/// Spilling parameters appends no return instruction.
pub proof fn lemma_cg_params_no_ret(st: CgSt, args: Seq<(Seq<char>, Type)>, i: int)
    requires
        cg_params(st, args, i) is Ok,
    ensures
        extends_no_ret(st.body, cg_params(st, args, i)->Ok_0.body),
    decreases args.len() - i,
{
    if i < 0 || i >= args.len() {
        lemma_extends_refl(st.body);
    } else {
        let (st1, slot) = cg_fresh(st)->Ok_0;
        let st2 = crate::codegen::st_add_alloca(st1, slot, map_type(args[i].1));
        let st3 = st_add_instr(
            st2,
            IrInstrV::Store {
                ty: map_type(args[i].1),
                ptr: slot,
                val: OperandV::Reg(i),
            },
        );
        let st4 = crate::codegen::st_add_var(st3, args[i].0, slot, map_type(args[i].1));
        lemma_extends_refl(st.body);
        lemma_extends_push(
            st.body,
            st.body,
            IrInstrV::Store {
                ty: map_type(args[i].1),
                ptr: slot,
                val: OperandV::Reg(i),
            },
        );
        lemma_cg_params_no_ret(st4, args, i + 1);
        lemma_extends_trans(st.body, st4.body, cg_params(st, args, i)->Ok_0.body);
    }
}

/// No statement of the body is a `return`.
pub open spec fn no_returns(body: Seq<StatementV>) -> bool {
    forall|i: int| 0 <= i < body.len() ==> !(body[i] is Return)
}

/// Compiling a body without a `return` statement appends no return
/// instruction, and reports that the body did not terminate itself.
pub proof fn lemma_cg_body_no_ret(st: CgSt, known: Seq<FnSigV>, ret: IrType, body: Seq<StatementV>)
    requires
        no_returns(body),
        cg_body(st, known, ret, body) is Ok,
    ensures
        ({
            let (st2, term) = cg_body(st, known, ret, body)->Ok_0;
            !term && extends_no_ret(st.body, st2.body)
        }),
    decreases body.len(),
{
    if body.len() == 0 {
        lemma_extends_refl(st.body);
    } else {
        assert(!(body[0] is Return));
        assert(no_returns(body.drop_first())) by {
            assert(forall|i: int|
                0 <= i < body.drop_first().len() ==> body.drop_first()[i] == body[i + 1]);
        };
        match body[0] {
            StatementV::VarDecl(d) => {
                let (st1, o, t) = cg_expr(st, known, d.value)->Ok_0;
                let (stf, slot) = cg_fresh(st1)->Ok_0;
                let st3 = crate::codegen::st_add_alloca(stf, slot, t);
                let st4 = st_add_instr(st3, IrInstrV::Store { ty: t, ptr: slot, val: o });
                let st5 = crate::codegen::st_add_var(st4, d.name, slot, t);
                lemma_cg_expr_no_ret(st, known, d.value);
                lemma_extends_push(
                    st.body,
                    st1.body,
                    IrInstrV::Store { ty: t, ptr: slot, val: o },
                );
                lemma_cg_body_no_ret(st5, known, ret, body.drop_first());
                lemma_extends_trans(
                    st.body,
                    st5.body,
                    cg_body(st, known, ret, body)->Ok_0.0.body,
                );
            },
            StatementV::Return(_) => {
                assert(false);
            },
            StatementV::Expr(ex) => {
                let (st1, o, t) = cg_expr(st, known, ex)->Ok_0;
                lemma_cg_expr_no_ret(st, known, ex);
                lemma_cg_body_no_ret(st1, known, ret, body.drop_first());
                lemma_extends_trans(
                    st.body,
                    st1.body,
                    cg_body(st, known, ret, body)->Ok_0.0.body,
                );
            },
            StatementV::FunctionDef(_) => {
                lemma_cg_body_no_ret(st, known, ret, body.drop_first());
            },
        }
    }
}

/// A segment without a return instruction never returns a value.
pub proof fn lemma_ev_seg_no_ret(seg: Seq<IrInstrV>, regs: RegsV, slots: RegsV)
    requires
        forall|j: int| 0 <= j < seg.len() ==> !(seg[j] is Ret),
    ensures
        !(ev_seg(seg, regs, slots) is Returned),
    decreases seg.len(),
{
    if seg.len() > 0 {
        assert(forall|j: int|
            0 <= j < seg.drop_first().len() ==> seg.drop_first()[j] == seg[j + 1]);
        match seg[0] {
            IrInstrV::Store { ty: _, ptr, val } => {
                match ev_operand(regs, val) {
                    None => {},
                    Some(v) => {
                        lemma_ev_seg_no_ret(seg.drop_first(), regs, slots.push((ptr, v)));
                    },
                }
            },
            IrInstrV::Load { dest, ty: _, ptr } => {
                match rt_lookup(slots, ptr) {
                    None => {},
                    Some(v) => {
                        lemma_ev_seg_no_ret(seg.drop_first(), regs.push((dest, v)), slots);
                    },
                }
            },
            IrInstrV::Bin { dest, op, ty, lhs, rhs } => {
                if ty == IrType::I64 {
                    match (ev_operand(regs, lhs), ev_operand(regs, rhs)) {
                        (Some(RtValV::I64(x)), Some(RtValV::I64(y))) => {
                            match ev_bin(op, x, y) {
                                None => {},
                                Some(v) => {
                                    lemma_ev_seg_no_ret(
                                        seg.drop_first(),
                                        regs.push((dest, RtValV::I64(v))),
                                        slots,
                                    );
                                },
                            }
                        },
                        _ => {},
                    }
                }
            },
            IrInstrV::Call { dest, func, args: _ } => {
                if func == "rython_mem_init"@ && dest is None {
                    lemma_ev_seg_no_ret(seg.drop_first(), regs, slots);
                } else if func == "rython_malloc"@ && (dest matches Some((_, IrType::Ptr))) {
                    lemma_ev_seg_no_ret(
                        seg.drop_first(),
                        regs.push((dest->Some_0.0, RtValV::Ptr(dest->Some_0.0))),
                        slots,
                    );
                }
            },
            IrInstrV::CopyBytes { .. } => {
                lemma_ev_seg_no_ret(seg.drop_first(), regs, slots);
            },
            IrInstrV::Ret { .. } => {},
        }
    }
}

/// A function with no explicit `return`, compiled and executed, must
/// return zero: if running its compiled body yields a value at all, that
/// value is the integer 0, whatever the declared-`int` body computed on
/// the way.
pub proof fn lemma_missing_return_returns_zero(
    f: FunctionDefV,
    known: Seq<FnSigV>,
    regs: RegsV,
    slots: RegsV,
)
    requires
        f.return_type == Type::Int,
        no_returns(f.body),
        cg_function(f, known) is Ok,
    ensures
        match ev_seg(cg_function(f, known)->Ok_0.body, regs, slots) {
            SegOut::Returned { val } => val == RtValV::I64(0),
            _ => true,
        },
{
    let st0 = st_empty(f.args.len() as int);
    let initcall = IrInstrV::Call {
        dest: None,
        func: "rython_mem_init"@,
        args: Seq::empty(),
    };
    let st1 = if f.name == "main"@ {
        st_add_instr(st0, initcall)
    } else {
        st0
    };
    assert(extends_no_ret(st0.body, st1.body)) by {
        lemma_extends_refl(st0.body);
        if f.name == "main"@ {
            lemma_extends_push(st0.body, st0.body, initcall);
        }
    };
    let st2 = cg_params(st1, f.args, 0)->Ok_0;
    lemma_cg_params_no_ret(st1, f.args, 0);
    let (st3, term) = cg_body(st2, known, map_type(f.return_type), f.body)->Ok_0;
    lemma_cg_body_no_ret(st2, known, map_type(f.return_type), f.body);
    lemma_extends_trans(st0.body, st1.body, st2.body);
    lemma_extends_trans(st0.body, st2.body, st3.body);
    let ret = IrInstrV::Ret { ty: IrType::I64, val: OperandV::ConstInt(0) };
    let irf = cg_function(f, known)->Ok_0;
    assert(irf.body == st3.body.push(ret));
    assert(irf.body =~= st3.body + seq![ret]);
    lemma_ev_seg_append(st3.body, seq![ret], regs, slots);
    assert(forall|j: int| 0 <= j < st3.body.len() ==> !(st3.body[j] is Ret)) by {
        assert(st0.body.len() == 0);
    };
    lemma_ev_seg_no_ret(st3.body, regs, slots);
    match ev_seg(st3.body, regs, slots) {
        SegOut::Trap => {},
        SegOut::Returned { .. } => {
            assert(false);
        },
        SegOut::Ran { regs: r2, slots: s2 } => {
            assert(ev_seg(seq![ret], r2, s2) == (SegOut::Returned { val: RtValV::I64(0) }))
                by {
                assert(seq![ret][0] == ret);
            };
        },
    }
}

/// Calling an unknown function name is fatal to code generation: the
/// call expression fails with `UndefinedSymbol`, so the function being
/// generated is discarded and reported as a failure — in contrast with
/// the interpreter, which reports a diagnostic and yields `Int(0)`.
pub proof fn lemma_unknown_call_fails_generation(
    st: CgSt,
    known: Seq<FnSigV>,
    func: Seq<char>,
    args: Seq<ExprV>,
)
    requires
        crate::codegen::sig_lookup(known, func) is None,
    ensures
        cg_expr(st, known, ExprV::Call { func, args }) == Err::<
            (CgSt, OperandV, IrType),
            crate::codegen::CodegenErrV,
        >(crate::codegen::CodegenErrV::UndefinedSymbol { name: func }),
{
}

/// Running two programs in sequence leaks nothing between them: the
/// interpreter's outcome is a function of the program alone, and the
/// environment is created empty inside each run, so the second run's
/// outcome is exactly what running it alone yields.
pub proof fn lemma_runs_are_independent(first: ProgramV, second: ProgramV)
    ensures
        ({
            let first_outcome = sp_run(first);
            sp_run(second)
        }) == sp_run(second),
{
}

/// Compiling two programs through fresh compilers likewise shares
/// nothing: with a fresh module each time, the outcome depends on the
/// compiled program alone.
pub proof fn lemma_compilations_are_independent(
    name: Seq<char>,
    first: ProgramV,
    second: ProgramV,
)
    ensures
        ({
            let first_outcome = sp_compile_program(sp_new_module(name), first);
            sp_compile_program(sp_new_module(name), second)
        }) == sp_compile_program(sp_new_module(name), second),
{
}

} // verus!

