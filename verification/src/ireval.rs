//! A reference semantics for the integer fragment of the intermediate
//! representation: enough to run what the generator emits for integer
//! programs, and to state and prove that compiled and interpreted
//! arithmetic agree.
//!
//! The model is deliberately small. Values are 64-bit integers, opaque
//! pointers named by the value id that produced them, and the null
//! pointer. Registers and stack slots are association lists. Execution
//! walks the single straight-line block: a division by zero (or the one
//! overflowing quotient) traps, as hardware division does; float
//! arithmetic, byte memory and calls other than the two runtime
//! intrinsics are outside the fragment and also end in `Trap`. The
//! allocator intrinsic returns a fresh block named by its destination
//! id; the initializer does nothing observable.

use vstd::prelude::*;

use crate::ast::Op;
use crate::ir::{IrFunctionV, IrInstrV, IrModule, IrModuleV, IrType, OperandV};
use crate::util::str_eq_str;
use vstd::string::StrSliceExecFns;

verus! {

broadcast use vstd::std_specs::vec::group_vec_axioms;

/// A runtime value of the reference semantics.
#[derive(Clone, Copy, Debug)]
pub enum RtVal {
    I64(i64),
    Ptr(usize),
    Null,
}

/// Ghost mirror of `RtVal`.
pub ghost enum RtValV {
    I64(i64),
    Ptr(int),
    Null,
}

impl DeepView for RtVal {
    type V = RtValV;

    open spec fn deep_view(&self) -> RtValV {
        match self {
            RtVal::I64(n) => RtValV::I64(*n),
            RtVal::Ptr(p) => RtValV::Ptr(*p as int),
            RtVal::Null => RtValV::Null,
        }
    }
}

/// An association list from value ids to values; the latest entry wins.
pub type RegsV = Seq<(int, RtValV)>;

/// What executing a straight-line segment can end in: running off its
/// end with a machine state, returning a value, or trapping.
pub ghost enum SegOut {
    Ran { regs: RegsV, slots: RegsV },
    Returned { val: RtValV },
    Trap,
}

/// The mathematical view of an executable association list.
pub open spec fn regs_view(m: Seq<(usize, RtValV)>) -> RegsV {
    Seq::new(m.len(), |i: int| (m[i].0 as int, m[i].1))
}

/// Looks a value id up; the latest entry wins.
pub open spec fn rt_lookup(m: RegsV, k: int) -> Option<RtValV>
    decreases m.len(),
{
    if m.len() == 0 {
        None
    } else if m.last().0 == k {
        Some(m.last().1)
    } else {
        rt_lookup(m.drop_last(), k)
    }
}

/// The value of an operand. Float immediates are outside the fragment.
pub open spec fn ev_operand(regs: RegsV, o: OperandV) -> Option<RtValV> {
    match o {
        OperandV::Reg(r) => rt_lookup(regs, r),
        OperandV::ConstInt(n) => Some(RtValV::I64(n)),
        OperandV::ConstFloat(_) => None,
        OperandV::NullPtr => Some(RtValV::Null),
    }
}

/// Integer binary arithmetic as the hardware defines it: wrapping, with
/// division trapping on a zero divisor and on the one overflowing
/// quotient.
pub open spec fn ev_bin(op: Op, a: i64, b: i64) -> Option<i64> {
    match op {
        Op::Add => Some(a.wrapping_add(b)),
        Op::Sub => Some(a.wrapping_sub(b)),
        Op::Mul => Some(a.wrapping_mul(b)),
        Op::Div => if b == 0 || (a == i64::MIN && b == -1i64) {
            None
        } else {
            match a.checked_div(b) {
                Some(q) => Some(q),
                None => None,
            }
        },
    }
}

/// Executes a straight-line segment of instructions.
pub open spec fn ev_seg(seg: Seq<IrInstrV>, regs: RegsV, slots: RegsV) -> SegOut
    decreases seg.len(),
{
    if seg.len() == 0 {
        SegOut::Ran { regs, slots }
    } else {
        match seg[0] {
            IrInstrV::Store { ty: _, ptr, val } => {
                match ev_operand(regs, val) {
                    None => SegOut::Trap,
                    Some(v) => ev_seg(seg.drop_first(), regs, slots.push((ptr, v))),
                }
            },
            IrInstrV::Load { dest, ty: _, ptr } => {
                match rt_lookup(slots, ptr) {
                    None => SegOut::Trap,
                    Some(v) => ev_seg(seg.drop_first(), regs.push((dest, v)), slots),
                }
            },
            IrInstrV::Bin { dest, op, ty, lhs, rhs } => {
                if ty != IrType::I64 {
                    SegOut::Trap
                } else {
                    match (ev_operand(regs, lhs), ev_operand(regs, rhs)) {
                        (Some(RtValV::I64(a)), Some(RtValV::I64(b))) => {
                            match ev_bin(op, a, b) {
                                None => SegOut::Trap,
                                Some(v) => ev_seg(
                                    seg.drop_first(),
                                    regs.push((dest, RtValV::I64(v))),
                                    slots,
                                ),
                            }
                        },
                        _ => SegOut::Trap,
                    }
                }
            },
            IrInstrV::Call { dest, func, args: _ } => {
                if func == "rython_mem_init"@ && dest is None {
                    ev_seg(seg.drop_first(), regs, slots)
                } else if func == "rython_malloc"@ && (dest matches Some((_, IrType::Ptr))) {
                    ev_seg(
                        seg.drop_first(),
                        regs.push((dest->Some_0.0, RtValV::Ptr(dest->Some_0.0))),
                        slots,
                    )
                } else {
                    SegOut::Trap
                }
            },
            IrInstrV::CopyBytes { .. } => ev_seg(seg.drop_first(), regs, slots),
            IrInstrV::Ret { ty: _, val } => {
                match ev_operand(regs, val) {
                    None => SegOut::Trap,
                    Some(v) => SegOut::Returned { val: v },
                }
            },
        }
    }
}

/// The first function of the module carrying a given name.
pub open spec fn find_func(funcs: Seq<IrFunctionV>, name: Seq<char>) -> Option<IrFunctionV>
    decreases funcs.len(),
{
    if funcs.len() == 0 {
        None
    } else if funcs[0].name == name {
        Some(funcs[0])
    } else {
        find_func(funcs.drop_first(), name)
    }
}

/// Runs the module's `main`: executes its body from empty registers and
/// slots, and yields the returned integer. Anything else — no `main`, a
/// `main` with parameters, a trap, or a non-integer result — is `None`.
pub open spec fn sp_eval_main(m: IrModuleV) -> Option<i64> {
    match find_func(m.funcs, "main"@) {
        None => None,
        Some(f) => {
            if f.params.len() != 0 {
                None
            } else {
                match ev_seg(f.body, Seq::empty(), Seq::empty()) {
                    SegOut::Returned { val: RtValV::I64(v) } => Some(v),
                    _ => None,
                }
            }
        },
    }
}

// ---------------------------------------------------------------------
// The executable evaluator.
// ---------------------------------------------------------------------

/// Looks a value id up in an executable association list.
#[verifier::loop_isolation(false)]
fn rt_get(m: &Vec<(usize, RtVal)>, k: usize) -> (r: Option<RtVal>)
    ensures
        r.deep_view() == rt_lookup(regs_view(m.deep_view()), k as int),
{
    let ghost mv = regs_view(m.deep_view());
    proof {
        assert(mv.take(m@.len() as int) =~= mv);
    }
    let mut i: usize = m.len();
    while i > 0
        invariant
            i <= m.len(),
            rt_lookup(mv, k as int) == rt_lookup(mv.take(i as int), k as int),
        decreases i,
    {
        proof {
            assert(mv.take(i as int).last() == mv[i - 1]);
            assert(mv.take(i as int).drop_last() =~= mv.take(i - 1));
        }
        if m[i - 1].0 == k {
            return Some(m[i - 1].1);
        }
        i -= 1;
    }
    proof {
        assert(mv.take(0) =~= Seq::<(int, RtValV)>::empty());
    }
    None
}

/// The value of an operand against the registers.
fn eval_operand(regs: &Vec<(usize, RtVal)>, o: &crate::ir::Operand) -> (r: Option<RtVal>)
    ensures
        r.deep_view() == ev_operand(regs_view(regs.deep_view()), o.deep_view()),
{
    match o {
        crate::ir::Operand::Reg(r) => rt_get(regs, *r),
        crate::ir::Operand::ConstInt(n) => Some(RtVal::I64(*n)),
        crate::ir::Operand::ConstFloat(_) => None,
        crate::ir::Operand::NullPtr => Some(RtVal::Null),
    }
}

/// Integer binary arithmetic, exactly as `ev_bin` defines it.
fn eval_bin(op: Op, a: i64, b: i64) -> (r: Option<i64>)
    ensures
        r == ev_bin(op, a, b),
{
    match op {
        Op::Add => Some(a.wrapping_add(b)),
        Op::Sub => Some(a.wrapping_sub(b)),
        Op::Mul => Some(a.wrapping_mul(b)),
        Op::Div => {
            if b == 0 || (a == i64::MIN && b == -1) {
                None
            } else {
                match a.checked_div(b) {
                    Some(q) => Some(q),
                    None => None,
                }
            }
        },
    }
}

/// Executes the body of a function from instruction `k` on, exactly as
/// `ev_seg` on that suffix describes. `None` stands for `Trap`.
fn eval_body(
    body: &Vec<crate::ir::IrInstr>,
    k: usize,
    regs: &mut Vec<(usize, RtVal)>,
    slots: &mut Vec<(usize, RtVal)>,
) -> (r: Option<Option<RtVal>>)
    requires
        k <= body.len(),
    ensures
        match (
            r,
            ev_seg(
                body.deep_view().skip(k as int),
                regs_view(old(regs).deep_view()),
                regs_view(old(slots).deep_view()),
            ),
        ) {
            (Some(Some(v)), SegOut::Returned { val }) => v.deep_view() == val,
            (Some(None), SegOut::Ran { regs: r2, slots: s2 }) => regs_view(
                final (regs).deep_view(),
            ) == r2 && regs_view(final (slots).deep_view()) == s2,
            (None, SegOut::Trap) => true,
            _ => false,
        },
    decreases body.len() - k,
{
    let ghost bodyv = body.deep_view();
    if k == body.len() {
        proof {
            assert(bodyv.skip(k as int) =~= Seq::<IrInstrV>::empty());
        }
        return Some(None);
    }
    proof {
        assert(bodyv.skip(k as int)[0] == body@[k as int].deep_view());
        assert(bodyv.skip(k as int).drop_first() =~= bodyv.skip(k + 1));
        assert(bodyv.skip(k as int).len() > 0);
    }
    match &body[k] {
        crate::ir::IrInstr::Store { ty: _, ptr, val } => {
            match eval_operand(regs, val) {
                None => None,
                Some(v) => {
                    let ghost s0 = regs_view(slots.deep_view());
                    let ghost vv = v.deep_view();
                    slots.push((*ptr, v));
                    proof {
                        assert(regs_view(slots.deep_view()) =~= s0.push((*ptr as int, vv)));
                    }
                    eval_body(body, k + 1, regs, slots)
                },
            }
        },
        crate::ir::IrInstr::Load { dest, ty: _, ptr } => {
            match rt_get(slots, *ptr) {
                None => None,
                Some(v) => {
                    let ghost r0 = regs_view(regs.deep_view());
                    let ghost vv = v.deep_view();
                    regs.push((*dest, v));
                    proof {
                        assert(regs_view(regs.deep_view()) =~= r0.push((*dest as int, vv)));
                    }
                    eval_body(body, k + 1, regs, slots)
                },
            }
        },
        crate::ir::IrInstr::Bin { dest, op, ty, lhs, rhs } => {
            match ty {
                IrType::I64 => {},
                _ => {
                    return None;
                },
            }
            let av = eval_operand(regs, lhs);
            let bv = eval_operand(regs, rhs);
            match (av, bv) {
                (Some(RtVal::I64(a)), Some(RtVal::I64(b))) => {
                    match eval_bin(*op, a, b) {
                        None => None,
                        Some(v) => {
                            let ghost r0 = regs_view(regs.deep_view());
                            regs.push((*dest, RtVal::I64(v)));
                            proof {
                                assert(regs_view(regs.deep_view()) =~= r0.push(
                                    (*dest as int, RtValV::I64(v)),
                                ));
                            }
                            eval_body(body, k + 1, regs, slots)
                        },
                    }
                },
                _ => None,
            }
        },
        crate::ir::IrInstr::Call { dest, func, args: _ } => {
            let is_init = str_eq_str(func.as_str(), "rython_mem_init");
            let is_malloc = str_eq_str(func.as_str(), "rython_malloc");
            match dest {
                None => {
                    if is_init {
                        eval_body(body, k + 1, regs, slots)
                    } else {
                        None
                    }
                },
                Some((d, t)) => {
                    let ptr_dest = match t {
                        IrType::Ptr => true,
                        _ => false,
                    };
                    if is_malloc && ptr_dest {
                        let ghost r0 = regs_view(regs.deep_view());
                        regs.push((*d, RtVal::Ptr(*d)));
                        proof {
                            assert(regs_view(regs.deep_view()) =~= r0.push(
                                (*d as int, RtValV::Ptr(*d as int)),
                            ));
                        }
                        eval_body(body, k + 1, regs, slots)
                    } else {
                        None
                    }
                },
            }
        },
        crate::ir::IrInstr::CopyBytes { .. } => eval_body(body, k + 1, regs, slots),
        crate::ir::IrInstr::Ret { ty: _, val } => {
            match eval_operand(regs, val) {
                None => None,
                Some(v) => Some(Some(v)),
            }
        },
    }
}

/// Runs the module's `main` in the reference semantics, exactly as
/// `sp_eval_main` describes.
#[verifier::loop_isolation(false)]
pub fn execute_main(m: &IrModule) -> (r: Option<i64>)
    ensures
        r == sp_eval_main(m.deep_view()),
{
    let ghost fv = m.deep_view().funcs;
    proof {
        assert(fv.skip(0) =~= fv);
    }
    let mut k: usize = 0;
    while k < m.funcs.len()
        invariant
            k <= m.funcs.len(),
            find_func(fv, "main"@) == find_func(fv.skip(k as int), "main"@),
        decreases m.funcs.len() - k,
    {
        proof {
            assert(fv.skip(k as int)[0] == m.funcs@[k as int].deep_view());
            assert(fv.skip(k as int).drop_first() =~= fv.skip(k + 1));
        }
        if str_eq_str(m.funcs[k].name.as_str(), "main") {
            let f = &m.funcs[k];
            if f.params.len() != 0 {
                return None;
            }
            let mut regs: Vec<(usize, RtVal)> = Vec::new();
            let mut slots: Vec<(usize, RtVal)> = Vec::new();
            proof {
                assert(regs_view(regs.deep_view()) =~= Seq::<(int, RtValV)>::empty());
                assert(regs_view(slots.deep_view()) =~= Seq::<(int, RtValV)>::empty());
                assert(f.body.deep_view().skip(0) =~= f.deep_view().body);
                assert(f.deep_view().params.len() == 0);
            }
            match eval_body(&f.body, 0, &mut regs, &mut slots) {
                Some(Some(RtVal::I64(v))) => {
                    return Some(v);
                },
                _ => {
                    return None;
                },
            }
        }
        k += 1;
    }
    proof {
        assert(fv.skip(m.funcs@.len() as int) =~= Seq::<IrFunctionV>::empty());
    }
    None
}

} // verus!
