//! Rendering a module to text, for an external backend or for a reader.
//!
//! The text form is conventional: a module header naming the module, one
//! `declare` line per runtime intrinsic, then one `define` block per
//! function with its stack slots first and its instructions after, every
//! value written `%rN`. A float immediate is written as the decimal text
//! it was parsed from; a string literal's bytes appear in a `copybytes`
//! instruction, quotes and backslashes escaped and a terminating zero
//! byte appended.
//!
//! The executable renderer is proved to produce exactly the text that the
//! mathematical one (`sp_render_module`) describes, so the emitted text
//! is a function of the module alone.

use vstd::prelude::*;
use vstd::string::StrSliceExecFns;
use vstd::string::StringExecFns;

use crate::ast::Op;
use crate::codegen::Compiler;
use crate::ir::{IrDeclV, IrFunctionV, IrInstrV, IrModule, IrModuleV, IrType, OperandV};

verus! {

broadcast use vstd::std_specs::vec::group_vec_axioms;

/// One decimal digit as a character.
pub open spec fn digit_char(d: int) -> char {
    if d == 0 {
        '0'
    } else if d == 1 {
        '1'
    } else if d == 2 {
        '2'
    } else if d == 3 {
        '3'
    } else if d == 4 {
        '4'
    } else if d == 5 {
        '5'
    } else if d == 6 {
        '6'
    } else if d == 7 {
        '7'
    } else if d == 8 {
        '8'
    } else {
        '9'
    }
}

/// The decimal digits of a non-negative number.
pub open spec fn dec_str(n: int) -> Seq<char>
    decreases n,
{
    if n < 10 {
        seq![digit_char(n)]
    } else {
        dec_str(n / 10).push(digit_char(n % 10))
    }
}

/// The decimal form of a signed 64-bit number.
pub open spec fn dec_i64_str(v: i64) -> Seq<char> {
    if v < 0 {
        seq!['-'] + dec_str(-(v as int))
    } else {
        dec_str(v as int)
    }
}

/// The name of a value id.
pub open spec fn reg_str(r: int) -> Seq<char> {
    "%r"@ + dec_str(r)
}

/// The name of a type.
pub open spec fn ty_str(t: IrType) -> Seq<char> {
    match t {
        IrType::I64 => "i64"@,
        IrType::Double => "double"@,
        IrType::Ptr => "ptr"@,
    }
}

/// The name of a return type, `void` included.
pub open spec fn ret_str(t: Option<IrType>) -> Seq<char> {
    match t {
        Some(t) => ty_str(t),
        None => "void"@,
    }
}

/// The text of an operand.
pub open spec fn operand_str(o: OperandV) -> Seq<char> {
    match o {
        OperandV::Reg(r) => reg_str(r),
        OperandV::ConstInt(n) => dec_i64_str(n),
        OperandV::ConstFloat(t) => t,
        OperandV::NullPtr => "null"@,
    }
}

/// The mnemonic of a binary operation at a type.
pub open spec fn bin_mnemonic(op: Op, ty: IrType) -> Seq<char> {
    if ty == IrType::Double {
        match op {
            Op::Add => "fadd"@,
            Op::Sub => "fsub"@,
            Op::Mul => "fmul"@,
            Op::Div => "fdiv"@,
        }
    } else {
        match op {
            Op::Add => "add"@,
            Op::Sub => "sub"@,
            Op::Mul => "mul"@,
            Op::Div => "sdiv"@,
        }
    }
}

/// String-literal bytes from position `i` on, with quotes and backslashes
/// escaped.
pub open spec fn esc_from(s: Seq<char>, i: int) -> Seq<char>
    decreases s.len() - i,
{
    if 0 <= i < s.len() {
        (if s[i] == '"' || s[i] == '\\' {
            seq!['\\', s[i]]
        } else {
            seq![s[i]]
        }) + esc_from(s, i + 1)
    } else {
        Seq::empty()
    }
}

/// A comma-joined list of call arguments from index `i` on.
pub open spec fn args_str_from(args: Seq<(IrType, OperandV)>, i: int) -> Seq<char>
    decreases args.len() - i,
{
    if 0 <= i < args.len() {
        (if i > 0 {
            ", "@
        } else {
            Seq::empty()
        }) + ty_str(args[i].0) + " "@ + operand_str(args[i].1) + args_str_from(args, i + 1)
    } else {
        Seq::empty()
    }
}

/// A comma-joined list of parameter types from index `i` on.
pub open spec fn tys_str_from(tys: Seq<IrType>, i: int) -> Seq<char>
    decreases tys.len() - i,
{
    if 0 <= i < tys.len() {
        (if i > 0 {
            ", "@
        } else {
            Seq::empty()
        }) + ty_str(tys[i]) + tys_str_from(tys, i + 1)
    } else {
        Seq::empty()
    }
}

/// A comma-joined list of named parameters from index `i` on: parameter
/// `i` is value `%ri`.
pub open spec fn params_str_from(tys: Seq<IrType>, i: int) -> Seq<char>
    decreases tys.len() - i,
{
    if 0 <= i < tys.len() {
        (if i > 0 {
            ", "@
        } else {
            Seq::empty()
        }) + ty_str(tys[i]) + " "@ + reg_str(i) + params_str_from(tys, i + 1)
    } else {
        Seq::empty()
    }
}

/// The text of one instruction, newline included.
pub open spec fn instr_str(ins: IrInstrV) -> Seq<char> {
    match ins {
        IrInstrV::Store { ty, ptr, val } => "  store "@ + ty_str(ty) + " "@ + operand_str(val)
            + ", ptr "@ + reg_str(ptr) + "\n"@,
        IrInstrV::Load { dest, ty, ptr } => "  "@ + reg_str(dest) + " = load "@ + ty_str(ty)
            + ", ptr "@ + reg_str(ptr) + "\n"@,
        IrInstrV::Bin { dest, op, ty, lhs, rhs } => "  "@ + reg_str(dest) + " = "@
            + bin_mnemonic(op, ty) + " "@ + ty_str(ty) + " "@ + operand_str(lhs) + ", "@
            + operand_str(rhs) + "\n"@,
        IrInstrV::Call { dest, func, args } => "  "@ + (match dest {
            Some((d, t)) => reg_str(d) + " = call "@ + ty_str(t),
            None => "call void"@,
        }) + " @"@ + func + "("@ + args_str_from(args, 0) + ")\n"@,
        IrInstrV::CopyBytes { ptr, bytes } => "  copybytes ptr "@ + reg_str(ptr) + ", c\""@
            + esc_from(bytes, 0) + "\\00\"\n"@,
        IrInstrV::Ret { ty, val } => "  ret "@ + ty_str(ty) + " "@ + operand_str(val) + "\n"@,
    }
}

/// The stack-slot lines from index `i` on.
pub open spec fn allocas_str_from(allocas: Seq<(int, IrType)>, i: int) -> Seq<char>
    decreases allocas.len() - i,
{
    if 0 <= i < allocas.len() {
        "  "@ + reg_str(allocas[i].0) + " = alloca "@ + ty_str(allocas[i].1) + "\n"@
            + allocas_str_from(allocas, i + 1)
    } else {
        Seq::empty()
    }
}

/// The instruction lines from index `i` on.
pub open spec fn instrs_str_from(body: Seq<IrInstrV>, i: int) -> Seq<char>
    decreases body.len() - i,
{
    if 0 <= i < body.len() {
        instr_str(body[i]) + instrs_str_from(body, i + 1)
    } else {
        Seq::empty()
    }
}

/// A function's header: `define`, return type, symbol name, parameters.
pub open spec fn sig_str(f: IrFunctionV) -> Seq<char> {
    "define "@ + ty_str(f.ret) + " @"@ + f.name + "("@ + params_str_from(f.params, 0) + ")"@
}

/// The text of one function.
pub open spec fn func_str(f: IrFunctionV) -> Seq<char> {
    sig_str(f) + " {\nentry:\n"@ + allocas_str_from(f.allocas, 0) + instrs_str_from(f.body, 0)
        + "}\n"@
}

/// The `declare` lines from index `i` on.
pub open spec fn decls_str_from(decls: Seq<IrDeclV>, i: int) -> Seq<char>
    decreases decls.len() - i,
{
    if 0 <= i < decls.len() {
        "declare "@ + ret_str(decls[i].ret) + " @"@ + decls[i].name + "("@ + tys_str_from(
            decls[i].params,
            0,
        ) + ")\n"@ + decls_str_from(decls, i + 1)
    } else {
        Seq::empty()
    }
}

/// The function blocks from index `i` on, each preceded by a blank line.
pub open spec fn funcs_str_from(funcs: Seq<IrFunctionV>, i: int) -> Seq<char>
    decreases funcs.len() - i,
{
    if 0 <= i < funcs.len() {
        "\n"@ + func_str(funcs[i]) + funcs_str_from(funcs, i + 1)
    } else {
        Seq::empty()
    }
}

/// The text of a whole module.
pub open spec fn sp_render_module(m: IrModuleV) -> Seq<char> {
    "; ModuleID = '"@ + m.name + "'\n"@ + decls_str_from(m.decls, 0) + funcs_str_from(m.funcs, 0)
}

/// The text of a function opens with its header: the symbol name and the
/// full signature stand in the text exactly as the module records them.
/// Any backend consuming either the module or its text therefore sees
/// identical function signatures and symbol names.
pub proof fn lemma_text_keeps_signatures(f: IrFunctionV)
    ensures
        func_str(f).take(sig_str(f).len() as int) == sig_str(f),
{
    assert(func_str(f).take(sig_str(f).len() as int) =~= sig_str(f));
}

// ---------------------------------------------------------------------
// The executable renderer.
// ---------------------------------------------------------------------

fn digit_string(d: u64) -> (r: String)
    requires
        d < 10,
    ensures
        r@ == seq![digit_char(d as int)],
{
    proof {
        reveal_strlit("0");
        reveal_strlit("1");
        reveal_strlit("2");
        reveal_strlit("3");
        reveal_strlit("4");
        reveal_strlit("5");
        reveal_strlit("6");
        reveal_strlit("7");
        reveal_strlit("8");
        reveal_strlit("9");
    }
    let r = match d {
        0u64 => "0".to_owned(),
        1u64 => "1".to_owned(),
        2u64 => "2".to_owned(),
        3u64 => "3".to_owned(),
        4u64 => "4".to_owned(),
        5u64 => "5".to_owned(),
        6u64 => "6".to_owned(),
        7u64 => "7".to_owned(),
        8u64 => "8".to_owned(),
        _ => "9".to_owned(),
    };
    proof {
        assert(r@ =~= seq![digit_char(d as int)]);
    }
    r
}

fn u_dec(n: u64) -> (r: String)
    ensures
        r@ == dec_str(n as int),
    decreases n,
{
    if n < 10 {
        digit_string(n)
    } else {
        let mut s = u_dec(n / 10);
        let dstr = digit_string(n % 10);
        s.append(dstr.as_str());
        proof {
            assert(s@ =~= dec_str((n / 10) as int).push(digit_char((n % 10) as int)));
        }
        s
    }
}

fn i_dec(v: i64) -> (r: String)
    ensures
        r@ == dec_i64_str(v),
{
    if v < 0 {
        let mag: u64 = if v == i64::MIN {
            9223372036854775808u64
        } else {
            (-v) as u64
        };
        proof {
            assert(mag as int == -(v as int));
        }
        let mut s = "-".to_owned();
        let m = u_dec(mag);
        s.append(m.as_str());
        proof {
            reveal_strlit("-");
            assert(s@ =~= seq!['-'] + dec_str(-(v as int)));
        }
        s
    } else {
        u_dec(v as u64)
    }
}

fn reg_string(r: usize) -> (s: String)
    ensures
        s@ == reg_str(r as int),
{
    let mut s = "%r".to_owned();
    let d = u_dec(r as u64);
    s.append(d.as_str());
    proof {
        assert(s@ =~= "%r"@ + dec_str(r as int));
    }
    s
}

fn ty_string(t: IrType) -> (s: String)
    ensures
        s@ == ty_str(t),
{
    match t {
        IrType::I64 => "i64".to_owned(),
        IrType::Double => "double".to_owned(),
        IrType::Ptr => "ptr".to_owned(),
    }
}

fn ret_string(t: Option<IrType>) -> (s: String)
    ensures
        s@ == ret_str(t),
{
    match t {
        Some(t) => ty_string(t),
        None => "void".to_owned(),
    }
}

fn operand_string(o: &crate::ir::Operand) -> (s: String)
    ensures
        s@ == operand_str(o.deep_view()),
{
    match o {
        crate::ir::Operand::Reg(r) => reg_string(*r),
        crate::ir::Operand::ConstInt(n) => i_dec(*n),
        crate::ir::Operand::ConstFloat(t) => t.clone(),
        crate::ir::Operand::NullPtr => "null".to_owned(),
    }
}

fn mnemonic(op: Op, ty: IrType) -> (s: String)
    ensures
        s@ == bin_mnemonic(op, ty),
{
    if ir_is_double(ty) {
        match op {
            Op::Add => "fadd".to_owned(),
            Op::Sub => "fsub".to_owned(),
            Op::Mul => "fmul".to_owned(),
            Op::Div => "fdiv".to_owned(),
        }
    } else {
        match op {
            Op::Add => "add".to_owned(),
            Op::Sub => "sub".to_owned(),
            Op::Mul => "mul".to_owned(),
            Op::Div => "sdiv".to_owned(),
        }
    }
}

fn ir_is_double(t: IrType) -> (r: bool)
    ensures
        r == (t == IrType::Double),
{
    match t {
        IrType::Double => true,
        _ => false,
    }
}

fn esc_string(s: &str, len: usize, pos: usize) -> (r: String)
    requires
        len == s@.len(),
        pos <= len,
    ensures
        r@ == esc_from(s@, pos as int),
    decreases len - pos,
{
    if pos >= len {
        let r = String::new();
        proof {
            assert(r@ =~= esc_from(s@, pos as int));
        }
        return r;
    }
    let c = s.get_char(pos);
    let mut head: String = if c == '"' {
        let h = "\\\"".to_owned();
        proof {
            reveal_strlit("\\\"");
            assert(h@ =~= seq!['\\', c]);
        }
        h
    } else if c == '\\' {
        let h = "\\\\".to_owned();
        proof {
            reveal_strlit("\\\\");
            assert(h@ =~= seq!['\\', c]);
        }
        h
    } else {
        let h = s.substring_char(pos, pos + 1).to_owned();
        proof {
            assert(h@ =~= seq![c]);
        }
        h
    };
    let rest = esc_string(s, len, pos + 1);
    head.append(rest.as_str());
    proof {
        assert(head@ =~= esc_from(s@, pos as int));
    }
    head
}

fn args_string(args: &Vec<(IrType, crate::ir::Operand)>, i: usize) -> (r: String)
    requires
        i <= args.len(),
    ensures
        r@ == args_str_from(args.deep_view(), i as int),
    decreases args.len() - i,
{
    if i < args.len() {
        let mut s: String = if i > 0 {
            ", ".to_owned()
        } else {
            String::new()
        };
        let t = ty_string(args[i].0);
        s.append(t.as_str());
        s.append(" ");
        let o = operand_string(&args[i].1);
        s.append(o.as_str());
        let rest = args_string(args, i + 1);
        s.append(rest.as_str());
        proof {
            assert(s@ =~= args_str_from(args.deep_view(), i as int));
        }
        s
    } else {
        let s = String::new();
        proof {
            assert(s@ =~= args_str_from(args.deep_view(), i as int));
        }
        s
    }
}

fn tys_string(tys: &Vec<IrType>, i: usize) -> (r: String)
    requires
        i <= tys.len(),
    ensures
        r@ == tys_str_from(tys.deep_view(), i as int),
    decreases tys.len() - i,
{
    if i < tys.len() {
        let mut s: String = if i > 0 {
            ", ".to_owned()
        } else {
            String::new()
        };
        let t = ty_string(tys[i]);
        s.append(t.as_str());
        let rest = tys_string(tys, i + 1);
        s.append(rest.as_str());
        proof {
            assert(s@ =~= tys_str_from(tys.deep_view(), i as int));
        }
        s
    } else {
        let s = String::new();
        proof {
            assert(s@ =~= tys_str_from(tys.deep_view(), i as int));
        }
        s
    }
}

fn params_string(tys: &Vec<IrType>, i: usize) -> (r: String)
    requires
        i <= tys.len(),
    ensures
        r@ == params_str_from(tys.deep_view(), i as int),
    decreases tys.len() - i,
{
    if i < tys.len() {
        let mut s: String = if i > 0 {
            ", ".to_owned()
        } else {
            String::new()
        };
        let t = ty_string(tys[i]);
        s.append(t.as_str());
        s.append(" ");
        let rg = reg_string(i);
        s.append(rg.as_str());
        let rest = params_string(tys, i + 1);
        s.append(rest.as_str());
        proof {
            assert(s@ =~= params_str_from(tys.deep_view(), i as int));
        }
        s
    } else {
        let s = String::new();
        proof {
            assert(s@ =~= params_str_from(tys.deep_view(), i as int));
        }
        s
    }
}

fn instr_string(ins: &crate::ir::IrInstr) -> (r: String)
    ensures
        r@ == instr_str(ins.deep_view()),
{
    match ins {
        crate::ir::IrInstr::Store { ty, ptr, val } => {
            let mut s = "  store ".to_owned();
            let t = ty_string(*ty);
            s.append(t.as_str());
            s.append(" ");
            let v = operand_string(val);
            s.append(v.as_str());
            s.append(", ptr ");
            let p = reg_string(*ptr);
            s.append(p.as_str());
            s.append("\n");
            proof {
                assert(s@ =~= instr_str(ins.deep_view()));
            }
            s
        },
        crate::ir::IrInstr::Load { dest, ty, ptr } => {
            let mut s = "  ".to_owned();
            let d = reg_string(*dest);
            s.append(d.as_str());
            s.append(" = load ");
            let t = ty_string(*ty);
            s.append(t.as_str());
            s.append(", ptr ");
            let p = reg_string(*ptr);
            s.append(p.as_str());
            s.append("\n");
            proof {
                assert(s@ =~= instr_str(ins.deep_view()));
            }
            s
        },
        crate::ir::IrInstr::Bin { dest, op, ty, lhs, rhs } => {
            let mut s = "  ".to_owned();
            let d = reg_string(*dest);
            s.append(d.as_str());
            s.append(" = ");
            let m = mnemonic(*op, *ty);
            s.append(m.as_str());
            s.append(" ");
            let t = ty_string(*ty);
            s.append(t.as_str());
            s.append(" ");
            let l = operand_string(lhs);
            s.append(l.as_str());
            s.append(", ");
            let rr = operand_string(rhs);
            s.append(rr.as_str());
            s.append("\n");
            proof {
                assert(s@ =~= instr_str(ins.deep_view()));
            }
            s
        },
        crate::ir::IrInstr::Call { dest, func, args } => {
            let mut s = "  ".to_owned();
            match dest {
                Some((d, t)) => {
                    let ds = reg_string(*d);
                    s.append(ds.as_str());
                    s.append(" = call ");
                    let ts = ty_string(*t);
                    s.append(ts.as_str());
                },
                None => {
                    s.append("call void");
                },
            }
            s.append(" @");
            s.append(func.as_str());
            s.append("(");
            let a = args_string(args, 0);
            s.append(a.as_str());
            s.append(")\n");
            proof {
                assert(s@ =~= instr_str(ins.deep_view()));
            }
            s
        },
        crate::ir::IrInstr::CopyBytes { ptr, bytes } => {
            let mut s = "  copybytes ptr ".to_owned();
            let p = reg_string(*ptr);
            s.append(p.as_str());
            s.append(", c\"");
            let blen = bytes.as_str().unicode_len();
            let b = esc_string(bytes.as_str(), blen, 0);
            s.append(b.as_str());
            s.append("\\00\"\n");
            proof {
                assert(s@ =~= instr_str(ins.deep_view()));
            }
            s
        },
        crate::ir::IrInstr::Ret { ty, val } => {
            let mut s = "  ret ".to_owned();
            let t = ty_string(*ty);
            s.append(t.as_str());
            s.append(" ");
            let v = operand_string(val);
            s.append(v.as_str());
            s.append("\n");
            proof {
                assert(s@ =~= instr_str(ins.deep_view()));
            }
            s
        },
    }
}

fn allocas_string(allocas: &Vec<(usize, IrType)>, i: usize) -> (r: String)
    requires
        i <= allocas.len(),
    ensures
        r@ == allocas_str_from(
            Seq::new(allocas@.len(), |t: int| (allocas@[t].0 as int, allocas@[t].1)),
            i as int,
        ),
    decreases allocas.len() - i,
{
    let ghost av = Seq::new(allocas@.len(), |t: int| (allocas@[t].0 as int, allocas@[t].1));
    if i < allocas.len() {
        let mut s = "  ".to_owned();
        let rg = reg_string(allocas[i].0);
        s.append(rg.as_str());
        s.append(" = alloca ");
        let t = ty_string(allocas[i].1);
        s.append(t.as_str());
        s.append("\n");
        let rest = allocas_string(allocas, i + 1);
        s.append(rest.as_str());
        proof {
            assert(s@ =~= allocas_str_from(av, i as int));
        }
        s
    } else {
        let s = String::new();
        proof {
            assert(s@ =~= allocas_str_from(av, i as int));
        }
        s
    }
}

fn instrs_string(body: &Vec<crate::ir::IrInstr>, i: usize) -> (r: String)
    requires
        i <= body.len(),
    ensures
        r@ == instrs_str_from(body.deep_view(), i as int),
    decreases body.len() - i,
{
    if i < body.len() {
        let mut s = instr_string(&body[i]);
        let rest = instrs_string(body, i + 1);
        s.append(rest.as_str());
        proof {
            assert(s@ =~= instrs_str_from(body.deep_view(), i as int));
        }
        s
    } else {
        let s = String::new();
        proof {
            assert(s@ =~= instrs_str_from(body.deep_view(), i as int));
        }
        s
    }
}

fn func_string(f: &crate::ir::IrFunction) -> (r: String)
    ensures
        r@ == func_str(f.deep_view()),
{
    let mut s = "define ".to_owned();
    let t = ty_string(f.ret);
    s.append(t.as_str());
    s.append(" @");
    s.append(f.name.as_str());
    s.append("(");
    let ps = params_string(&f.params, 0);
    s.append(ps.as_str());
    s.append(")");
    s.append(" {\nentry:\n");
    let al = allocas_string(&f.allocas, 0);
    s.append(al.as_str());
    let ins = instrs_string(&f.body, 0);
    s.append(ins.as_str());
    s.append("}\n");
    proof {
        assert(Seq::new(
            f.allocas@.len(),
            |t: int| (f.allocas@[t].0 as int, f.allocas@[t].1),
        ) =~= f.deep_view().allocas);
        assert(s@ =~= func_str(f.deep_view()));
    }
    s
}

fn decls_string(decls: &Vec<crate::ir::IrDecl>, i: usize) -> (r: String)
    requires
        i <= decls.len(),
    ensures
        r@ == decls_str_from(decls.deep_view(), i as int),
    decreases decls.len() - i,
{
    if i < decls.len() {
        let mut s = "declare ".to_owned();
        let rt = ret_string(decls[i].ret);
        s.append(rt.as_str());
        s.append(" @");
        s.append(decls[i].name.as_str());
        s.append("(");
        let ts = tys_string(&decls[i].params, 0);
        s.append(ts.as_str());
        s.append(")\n");
        let rest = decls_string(decls, i + 1);
        s.append(rest.as_str());
        proof {
            assert(s@ =~= decls_str_from(decls.deep_view(), i as int));
        }
        s
    } else {
        let s = String::new();
        proof {
            assert(s@ =~= decls_str_from(decls.deep_view(), i as int));
        }
        s
    }
}

fn funcs_string(funcs: &Vec<crate::ir::IrFunction>, i: usize) -> (r: String)
    requires
        i <= funcs.len(),
    ensures
        r@ == funcs_str_from(funcs.deep_view(), i as int),
    decreases funcs.len() - i,
{
    if i < funcs.len() {
        let mut s = "\n".to_owned();
        let f = func_string(&funcs[i]);
        s.append(f.as_str());
        let rest = funcs_string(funcs, i + 1);
        s.append(rest.as_str());
        proof {
            assert(s@ =~= funcs_str_from(funcs.deep_view(), i as int));
        }
        s
    } else {
        let s = String::new();
        proof {
            assert(s@ =~= funcs_str_from(funcs.deep_view(), i as int));
        }
        s
    }
}

/// Renders a module to text, exactly as `sp_render_module` describes.
pub fn render_module(m: &IrModule) -> (r: String)
    ensures
        r@ == sp_render_module(m.deep_view()),
{
    let mut s = "; ModuleID = '".to_owned();
    s.append(m.name.as_str());
    s.append("'\n");
    let ds = decls_string(&m.decls, 0);
    s.append(ds.as_str());
    let fs = funcs_string(&m.funcs, 0);
    s.append(fs.as_str());
    proof {
        assert(s@ =~= sp_render_module(m.deep_view()));
    }
    s
}

impl Compiler {
    /// The textual rendering of the module built so far.
    pub fn emit_ir_to_string(&self) -> (r: String)
        ensures
            r@ == sp_render_module(self.module.deep_view()),
    {
        render_module(&self.module)
    }
}

} // verus!
