//! The intermediate representation the code generator lowers programs to:
//! typed, static-single-assignment style, close enough to a conventional
//! backend's input language that rendering it to text is a plain walk.
//!
//! A function is a single entry block: the language has no control flow,
//! so a body is a straight line of instructions ending in a return. Every
//! value has an integer id (written `%rN` in the text form): parameter `i`
//! of a function is value `i`, and every later instruction that produces
//! something names a fresh id. Stack slots (`alloca`) are listed apart
//! from the body, so slot allocation always happens at function entry no
//! matter where in the body the declaration stood.
//!
//! A float constant carries the decimal text of the literal it came from;
//! nothing here computes with floating point.

use vstd::prelude::*;

verus! {

broadcast use vstd::std_specs::vec::group_vec_axioms;

/// A value type in the intermediate representation: 64-bit integers,
/// 64-bit floats, and opaque pointers.
#[derive(Clone, Copy, Debug, PartialEq, Eq, Structural)]
pub enum IrType {
    I64,
    Double,
    Ptr,
}

/// An operand: a previously defined value, or an immediate constant.
#[derive(Debug)]
pub enum Operand {
    Reg(usize),
    ConstInt(i64),
    /// A float immediate, as decimal text.
    ConstFloat(String),
    NullPtr,
}

/// Ghost mirror of `Operand`.
pub ghost enum OperandV {
    Reg(int),
    ConstInt(i64),
    ConstFloat(Seq<char>),
    NullPtr,
}

impl DeepView for Operand {
    type V = OperandV;

    open spec fn deep_view(&self) -> OperandV {
        match self {
            Operand::Reg(r) => OperandV::Reg(*r as int),
            Operand::ConstInt(n) => OperandV::ConstInt(*n),
            Operand::ConstFloat(t) => OperandV::ConstFloat(t@),
            Operand::NullPtr => OperandV::NullPtr,
        }
    }
}

/// One instruction of a function body.
#[derive(Debug)]
pub enum IrInstr {
    /// Store `val` into the stack slot `ptr`.
    Store { ty: IrType, ptr: usize, val: Operand },
    /// Load from the stack slot `ptr` into the fresh value `dest`.
    Load { dest: usize, ty: IrType, ptr: usize },
    /// A binary operation on two operands of the same type.
    Bin { dest: usize, op: crate::ast::Op, ty: IrType, lhs: Operand, rhs: Operand },
    /// A call. `dest` is the produced value and its type, or `None` for a
    /// call to a void function.
    Call { dest: Option<(usize, IrType)>, func: String, args: Vec<(IrType, Operand)> },
    /// Copy the bytes of `bytes`, followed by one zero byte, into the
    /// memory block that the pointer value `ptr` points to.
    CopyBytes { ptr: usize, bytes: String },
    /// Return a value from the function.
    Ret { ty: IrType, val: Operand },
}

/// Ghost mirror of `IrInstr`.
pub ghost enum IrInstrV {
    Store { ty: IrType, ptr: int, val: OperandV },
    Load { dest: int, ty: IrType, ptr: int },
    Bin { dest: int, op: crate::ast::Op, ty: IrType, lhs: OperandV, rhs: OperandV },
    Call { dest: Option<(int, IrType)>, func: Seq<char>, args: Seq<(IrType, OperandV)> },
    CopyBytes { ptr: int, bytes: Seq<char> },
    Ret { ty: IrType, val: OperandV },
}

impl DeepView for IrInstr {
    type V = IrInstrV;

    open spec fn deep_view(&self) -> IrInstrV {
        match self {
            IrInstr::Store { ty, ptr, val } => IrInstrV::Store {
                ty: *ty,
                ptr: *ptr as int,
                val: val.deep_view(),
            },
            IrInstr::Load { dest, ty, ptr } => IrInstrV::Load {
                dest: *dest as int,
                ty: *ty,
                ptr: *ptr as int,
            },
            IrInstr::Bin { dest, op, ty, lhs, rhs } => IrInstrV::Bin {
                dest: *dest as int,
                op: *op,
                ty: *ty,
                lhs: lhs.deep_view(),
                rhs: rhs.deep_view(),
            },
            IrInstr::Call { dest, func, args } => IrInstrV::Call {
                dest: match dest {
                    Some((d, t)) => Some((*d as int, *t)),
                    None => None,
                },
                func: func@,
                args: args.deep_view(),
            },
            IrInstr::CopyBytes { ptr, bytes } => IrInstrV::CopyBytes {
                ptr: *ptr as int,
                bytes: bytes@,
            },
            IrInstr::Ret { ty, val } => IrInstrV::Ret { ty: *ty, val: val.deep_view() },
        }
    }
}

impl DeepView for IrType {
    type V = IrType;

    open spec fn deep_view(&self) -> IrType {
        *self
    }
}

/// A declaration of an externally provided function (a runtime
/// intrinsic): its symbol name, parameter types and return type (`None`
/// for void).
#[derive(Debug)]
pub struct IrDecl {
    pub name: String,
    pub params: Vec<IrType>,
    pub ret: Option<IrType>,
}

/// Ghost mirror of `IrDecl`.
pub ghost struct IrDeclV {
    pub name: Seq<char>,
    pub params: Seq<IrType>,
    pub ret: Option<IrType>,
}

impl DeepView for IrDecl {
    type V = IrDeclV;

    open spec fn deep_view(&self) -> IrDeclV {
        IrDeclV { name: self.name@, params: self.params.deep_view(), ret: self.ret }
    }
}

/// A compiled function: name, parameter types, return type, stack slots
/// and body. Parameter `i` is value id `i`; each slot's id is listed with
/// its type.
#[derive(Debug)]
pub struct IrFunction {
    pub name: String,
    pub params: Vec<IrType>,
    pub ret: IrType,
    pub allocas: Vec<(usize, IrType)>,
    pub body: Vec<IrInstr>,
}

/// Ghost mirror of `IrFunction`.
pub ghost struct IrFunctionV {
    pub name: Seq<char>,
    pub params: Seq<IrType>,
    pub ret: IrType,
    pub allocas: Seq<(int, IrType)>,
    pub body: Seq<IrInstrV>,
}

impl DeepView for IrFunction {
    type V = IrFunctionV;

    open spec fn deep_view(&self) -> IrFunctionV {
        IrFunctionV {
            name: self.name@,
            params: self.params.deep_view(),
            ret: self.ret,
            allocas: Seq::new(
                self.allocas@.len(),
                |i: int| (self.allocas@[i].0 as int, self.allocas@[i].1),
            ),
            body: self.body.deep_view(),
        }
    }
}

/// A whole module: its name, the runtime declarations, and the functions
/// that compiled successfully, in source order.
#[derive(Debug)]
pub struct IrModule {
    pub name: String,
    pub decls: Vec<IrDecl>,
    pub funcs: Vec<IrFunction>,
}

/// Ghost mirror of `IrModule`.
pub ghost struct IrModuleV {
    pub name: Seq<char>,
    pub decls: Seq<IrDeclV>,
    pub funcs: Seq<IrFunctionV>,
}

impl DeepView for IrModule {
    type V = IrModuleV;

    open spec fn deep_view(&self) -> IrModuleV {
        IrModuleV {
            name: self.name@,
            decls: self.decls.deep_view(),
            funcs: self.funcs.deep_view(),
        }
    }
}

} // verus!
