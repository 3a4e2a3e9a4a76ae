use vstd::prelude::*;
use crate::jvm::arith::IntOp;
use crate::jvm::heap::ArrayKind;
use crate::jvm::types::{Kind, Type};
use crate::parser::attribute_info::code::code_generator::Instructions;
use crate::parser::cp_info_resolved::{Class, Fieldref};

verus! {

/// The two-operand floating-point operations.
#[derive(Debug, Clone, Copy, PartialEq, Eq)]
pub enum FloatOp {
    Add,
    Sub,
    Mul,
    Div,
    Rem,
}

/// The conversions between the numeric kinds.
#[derive(Debug, Clone, Copy, PartialEq, Eq)]
pub enum Conversion {
    I2l,
    I2f,
    I2d,
    L2i,
    L2f,
    L2d,
    F2i,
    F2l,
    F2d,
    D2i,
    D2l,
    D2f,
    I2b,
    I2c,
    I2s,
}

/// The comparisons that a conditional branch can make.
#[derive(Debug, Clone, Copy, PartialEq, Eq)]
pub enum Condition {
    Eq,
    Ne,
    Lt,
    Ge,
    Gt,
    Le,
}

impl Condition {
    /// Whether `a` stands in this relation to `b`.
    pub open spec fn spec_holds(self, a: i32, b: i32) -> bool {
        match self {
            Condition::Eq => a == b,
            Condition::Ne => a != b,
            Condition::Lt => a < b,
            Condition::Ge => a >= b,
            Condition::Gt => a > b,
            Condition::Le => a <= b,
        }
    }

    /// Whether `a` stands in this relation to `b`.
    #[verifier::when_used_as_spec(spec_holds)]
    pub fn holds(self, a: i32, b: i32) -> (r: bool)
        ensures
            r == self.spec_holds(a, b),
    {
        match self {
            Condition::Eq => a == b,
            Condition::Ne => a != b,
            Condition::Lt => a < b,
            Condition::Ge => a >= b,
            Condition::Gt => a > b,
            Condition::Le => a <= b,
        }
    }
}

/// What an instruction does, by family. Instructions that differ only in the
/// kind of value they handle, or in the operation they apply, fall into one
/// family and are told apart by its parameters. An instruction that has no
/// execution rule is `Unimplemented`.
#[derive(Debug, Clone, Copy)]
pub enum Op<'a> {
    Nop,
    /// Pushes the value.
    Push(Type),
    /// Pushes the local in the slot, which must hold a value of the kind.
    Load(Kind, u8),
    /// Pops a value of the kind into the slot.
    Store(Kind, u8),
    /// Pops an index and an array, pushes the element.
    ArrayLoad(ArrayKind),
    /// Pops a value, an index and an array, stores the value.
    ArrayStore(ArrayKind),
    Pop,
    Pop2,
    Dup,
    DupX1,
    DupX2,
    Dup2,
    Swap,
    /// Pops two ints, pushes the result of the operation.
    IntArith(IntOp),
    /// Pops two longs, or for a shift an int amount and a long, and pushes
    /// the result of the operation.
    LongArith(IntOp),
    FloatArith(FloatOp),
    DoubleArith(FloatOp),
    /// Replaces the number on top of the stack by its negation.
    Negate(Kind),
    /// Adds the constant to the int in the slot.
    Increment(u8, i8),
    Convert(Conversion),
    CompareLong,
    /// Pops an int and branches if it stands in the relation to zero.
    If(Condition, i16),
    /// Pops two ints and branches if the lower stands in the relation to the
    /// upper.
    IfInt(Condition, i16),
    /// Pops two references and branches if they denote the same entity
    /// (`true`) or do not (`false`).
    IfReference(bool, i16),
    Goto(i16),
    /// Pops a value of the kind and ends the invocation with it.
    ReturnValue(Kind),
    ReturnVoid,
    GetStatic(&'a Fieldref),
    PutStatic(&'a Fieldref),
    GetField(&'a Fieldref),
    PutField(&'a Fieldref),
    New(&'a Class),
    /// Pops a length and pushes a new array whose element kind the code
    /// selects.
    NewArray(u8),
    Unimplemented,
}

/// The family of an instruction and its parameters.
pub open spec fn op_of<'a>(inst: &'a Instructions) -> Op<'a> {
    match inst {
        Instructions::Nop => Op::Nop,
        Instructions::AconstNull => Op::Push(Type::Reference(None)),
        Instructions::Iconst { value } => Op::Push(Type::Int(*value)),
        Instructions::Lconst { value } => Op::Push(Type::Long(*value)),
        Instructions::Fconst { value } => Op::Push(Type::Float(*value)),
        Instructions::Dconst { value } => Op::Push(Type::Double(*value)),
        Instructions::Bipush { value } => Op::Push(Type::Int(*value as i32)),
        Instructions::Sipush { value } => Op::Push(Type::Int(*value as i32)),
        Instructions::Iload { index } => Op::Load(Kind::Int, *index),
        Instructions::Lload { index } => Op::Load(Kind::Long, *index),
        Instructions::Fload { index } => Op::Load(Kind::Float, *index),
        Instructions::Dload { index } => Op::Load(Kind::Double, *index),
        Instructions::Aload { index } => Op::Load(Kind::Reference, *index),
        Instructions::Iaload => Op::ArrayLoad(ArrayKind::Int),
        Instructions::Laload => Op::ArrayLoad(ArrayKind::Long),
        Instructions::Faload => Op::ArrayLoad(ArrayKind::Float),
        Instructions::Daload => Op::ArrayLoad(ArrayKind::Double),
        Instructions::Aaload => Op::ArrayLoad(ArrayKind::Reference),
        Instructions::Baload => Op::ArrayLoad(ArrayKind::Byte),
        Instructions::Caload => Op::ArrayLoad(ArrayKind::Char),
        Instructions::Saload => Op::ArrayLoad(ArrayKind::Short),
        Instructions::Istore { index } => Op::Store(Kind::Int, *index),
        Instructions::Lstore { index } => Op::Store(Kind::Long, *index),
        Instructions::Fstore { index } => Op::Store(Kind::Float, *index),
        Instructions::Dstore { index } => Op::Store(Kind::Double, *index),
        Instructions::Astore { index } => Op::Store(Kind::Reference, *index),
        Instructions::Iastore => Op::ArrayStore(ArrayKind::Int),
        Instructions::Lastore => Op::ArrayStore(ArrayKind::Long),
        Instructions::Fastore => Op::ArrayStore(ArrayKind::Float),
        Instructions::Dastore => Op::ArrayStore(ArrayKind::Double),
        Instructions::Aastore => Op::ArrayStore(ArrayKind::Reference),
        Instructions::Bastore => Op::ArrayStore(ArrayKind::Byte),
        Instructions::Castore => Op::ArrayStore(ArrayKind::Char),
        Instructions::Sastore => Op::ArrayStore(ArrayKind::Short),
        Instructions::Pop => Op::Pop,
        Instructions::Pop2 => Op::Pop2,
        Instructions::Dup => Op::Dup,
        Instructions::DupX1 => Op::DupX1,
        Instructions::DupX2 => Op::DupX2,
        Instructions::Dup2 => Op::Dup2,
        Instructions::Swap => Op::Swap,
        Instructions::Iadd => Op::IntArith(IntOp::Add),
        Instructions::Ladd => Op::LongArith(IntOp::Add),
        Instructions::Fadd => Op::FloatArith(FloatOp::Add),
        Instructions::Dadd => Op::DoubleArith(FloatOp::Add),
        Instructions::Isub => Op::IntArith(IntOp::Sub),
        Instructions::Lsub => Op::LongArith(IntOp::Sub),
        Instructions::Fsub => Op::FloatArith(FloatOp::Sub),
        Instructions::Dsub => Op::DoubleArith(FloatOp::Sub),
        Instructions::Imul => Op::IntArith(IntOp::Mul),
        Instructions::Lmul => Op::LongArith(IntOp::Mul),
        Instructions::Fmul => Op::FloatArith(FloatOp::Mul),
        Instructions::Dmul => Op::DoubleArith(FloatOp::Mul),
        Instructions::Idiv => Op::IntArith(IntOp::Div),
        Instructions::Ldiv => Op::LongArith(IntOp::Div),
        Instructions::Fdiv => Op::FloatArith(FloatOp::Div),
        Instructions::Ddiv => Op::DoubleArith(FloatOp::Div),
        Instructions::Irem => Op::IntArith(IntOp::Rem),
        Instructions::Lrem => Op::LongArith(IntOp::Rem),
        Instructions::Frem => Op::FloatArith(FloatOp::Rem),
        Instructions::Drem => Op::DoubleArith(FloatOp::Rem),
        Instructions::Ineg => Op::Negate(Kind::Int),
        Instructions::Lneg => Op::Negate(Kind::Long),
        Instructions::Fneg => Op::Negate(Kind::Float),
        Instructions::Dneg => Op::Negate(Kind::Double),
        Instructions::Ishl => Op::IntArith(IntOp::Shl),
        Instructions::Lshl => Op::LongArith(IntOp::Shl),
        Instructions::Ishr => Op::IntArith(IntOp::Shr),
        Instructions::Lshr => Op::LongArith(IntOp::Shr),
        Instructions::Iushr => Op::IntArith(IntOp::Ushr),
        Instructions::Lushr => Op::LongArith(IntOp::Ushr),
        Instructions::Iand => Op::IntArith(IntOp::And),
        Instructions::Land => Op::LongArith(IntOp::And),
        Instructions::Ior => Op::IntArith(IntOp::Or),
        Instructions::Lor => Op::LongArith(IntOp::Or),
        Instructions::Ixor => Op::IntArith(IntOp::Xor),
        Instructions::Lxor => Op::LongArith(IntOp::Xor),
        Instructions::Iinc { index, constant } => Op::Increment(*index, *constant),
        Instructions::I2l => Op::Convert(Conversion::I2l),
        Instructions::I2f => Op::Convert(Conversion::I2f),
        Instructions::I2d => Op::Convert(Conversion::I2d),
        Instructions::L2i => Op::Convert(Conversion::L2i),
        Instructions::L2f => Op::Convert(Conversion::L2f),
        Instructions::L2d => Op::Convert(Conversion::L2d),
        Instructions::F2i => Op::Convert(Conversion::F2i),
        Instructions::F2l => Op::Convert(Conversion::F2l),
        Instructions::F2d => Op::Convert(Conversion::F2d),
        Instructions::D2i => Op::Convert(Conversion::D2i),
        Instructions::D2l => Op::Convert(Conversion::D2l),
        Instructions::D2f => Op::Convert(Conversion::D2f),
        Instructions::I2b => Op::Convert(Conversion::I2b),
        Instructions::I2c => Op::Convert(Conversion::I2c),
        Instructions::I2s => Op::Convert(Conversion::I2s),
        Instructions::LongCompare => Op::CompareLong,
        Instructions::Ifeq { offset } => Op::If(Condition::Eq, *offset),
        Instructions::Ifne { offset } => Op::If(Condition::Ne, *offset),
        Instructions::Iflt { offset } => Op::If(Condition::Lt, *offset),
        Instructions::Ifge { offset } => Op::If(Condition::Ge, *offset),
        Instructions::Ifgt { offset } => Op::If(Condition::Gt, *offset),
        Instructions::Ifle { offset } => Op::If(Condition::Le, *offset),
        Instructions::IfIntEq { offset } => Op::IfInt(Condition::Eq, *offset),
        Instructions::IfIntNe { offset } => Op::IfInt(Condition::Ne, *offset),
        Instructions::IfIntLt { offset } => Op::IfInt(Condition::Lt, *offset),
        Instructions::IfIntGe { offset } => Op::IfInt(Condition::Ge, *offset),
        Instructions::IfIntGt { offset } => Op::IfInt(Condition::Gt, *offset),
        Instructions::IfIntLe { offset } => Op::IfInt(Condition::Le, *offset),
        Instructions::IfRefEq { offset } => Op::IfReference(true, *offset),
        Instructions::IfRefNe { offset } => Op::IfReference(false, *offset),
        Instructions::Goto { offset } => Op::Goto(*offset),
        Instructions::Ireturn => Op::ReturnValue(Kind::Int),
        Instructions::Lreturn => Op::ReturnValue(Kind::Long),
        Instructions::Freturn => Op::ReturnValue(Kind::Float),
        Instructions::Dreturn => Op::ReturnValue(Kind::Double),
        Instructions::Areturn => Op::ReturnValue(Kind::Reference),
        Instructions::Return => Op::ReturnVoid,
        Instructions::Getstatic { fieldref } => Op::GetStatic(fieldref),
        Instructions::Putstatic { fieldref } => Op::PutStatic(fieldref),
        Instructions::Getfield { fieldref } => Op::GetField(fieldref),
        Instructions::Putfield { fieldref } => Op::PutField(fieldref),
        Instructions::New { class } => Op::New(class),
        Instructions::Newarray { atype } => Op::NewArray(*atype),
        _ => Op::Unimplemented,
    }
}

/// Finds the family of an instruction and its parameters.
pub fn classify<'a>(inst: &'a Instructions) -> (r: Op<'a>)
    ensures
        r == op_of(inst),
{
    match inst {
        Instructions::Nop => Op::Nop,
        Instructions::AconstNull => Op::Push(Type::Reference(None)),
        Instructions::Iconst { value } => Op::Push(Type::Int(*value)),
        Instructions::Lconst { value } => Op::Push(Type::Long(*value)),
        Instructions::Fconst { value } => Op::Push(Type::Float(*value)),
        Instructions::Dconst { value } => Op::Push(Type::Double(*value)),
        Instructions::Bipush { value } => Op::Push(Type::Int(*value as i32)),
        Instructions::Sipush { value } => Op::Push(Type::Int(*value as i32)),
        Instructions::Iload { index } => Op::Load(Kind::Int, *index),
        Instructions::Lload { index } => Op::Load(Kind::Long, *index),
        Instructions::Fload { index } => Op::Load(Kind::Float, *index),
        Instructions::Dload { index } => Op::Load(Kind::Double, *index),
        Instructions::Aload { index } => Op::Load(Kind::Reference, *index),
        Instructions::Iaload => Op::ArrayLoad(ArrayKind::Int),
        Instructions::Laload => Op::ArrayLoad(ArrayKind::Long),
        Instructions::Faload => Op::ArrayLoad(ArrayKind::Float),
        Instructions::Daload => Op::ArrayLoad(ArrayKind::Double),
        Instructions::Aaload => Op::ArrayLoad(ArrayKind::Reference),
        Instructions::Baload => Op::ArrayLoad(ArrayKind::Byte),
        Instructions::Caload => Op::ArrayLoad(ArrayKind::Char),
        Instructions::Saload => Op::ArrayLoad(ArrayKind::Short),
        Instructions::Istore { index } => Op::Store(Kind::Int, *index),
        Instructions::Lstore { index } => Op::Store(Kind::Long, *index),
        Instructions::Fstore { index } => Op::Store(Kind::Float, *index),
        Instructions::Dstore { index } => Op::Store(Kind::Double, *index),
        Instructions::Astore { index } => Op::Store(Kind::Reference, *index),
        Instructions::Iastore => Op::ArrayStore(ArrayKind::Int),
        Instructions::Lastore => Op::ArrayStore(ArrayKind::Long),
        Instructions::Fastore => Op::ArrayStore(ArrayKind::Float),
        Instructions::Dastore => Op::ArrayStore(ArrayKind::Double),
        Instructions::Aastore => Op::ArrayStore(ArrayKind::Reference),
        Instructions::Bastore => Op::ArrayStore(ArrayKind::Byte),
        Instructions::Castore => Op::ArrayStore(ArrayKind::Char),
        Instructions::Sastore => Op::ArrayStore(ArrayKind::Short),
        Instructions::Pop => Op::Pop,
        Instructions::Pop2 => Op::Pop2,
        Instructions::Dup => Op::Dup,
        Instructions::DupX1 => Op::DupX1,
        Instructions::DupX2 => Op::DupX2,
        Instructions::Dup2 => Op::Dup2,
        Instructions::Swap => Op::Swap,
        Instructions::Iadd => Op::IntArith(IntOp::Add),
        Instructions::Ladd => Op::LongArith(IntOp::Add),
        Instructions::Fadd => Op::FloatArith(FloatOp::Add),
        Instructions::Dadd => Op::DoubleArith(FloatOp::Add),
        Instructions::Isub => Op::IntArith(IntOp::Sub),
        Instructions::Lsub => Op::LongArith(IntOp::Sub),
        Instructions::Fsub => Op::FloatArith(FloatOp::Sub),
        Instructions::Dsub => Op::DoubleArith(FloatOp::Sub),
        Instructions::Imul => Op::IntArith(IntOp::Mul),
        Instructions::Lmul => Op::LongArith(IntOp::Mul),
        Instructions::Fmul => Op::FloatArith(FloatOp::Mul),
        Instructions::Dmul => Op::DoubleArith(FloatOp::Mul),
        Instructions::Idiv => Op::IntArith(IntOp::Div),
        Instructions::Ldiv => Op::LongArith(IntOp::Div),
        Instructions::Fdiv => Op::FloatArith(FloatOp::Div),
        Instructions::Ddiv => Op::DoubleArith(FloatOp::Div),
        Instructions::Irem => Op::IntArith(IntOp::Rem),
        Instructions::Lrem => Op::LongArith(IntOp::Rem),
        Instructions::Frem => Op::FloatArith(FloatOp::Rem),
        Instructions::Drem => Op::DoubleArith(FloatOp::Rem),
        Instructions::Ineg => Op::Negate(Kind::Int),
        Instructions::Lneg => Op::Negate(Kind::Long),
        Instructions::Fneg => Op::Negate(Kind::Float),
        Instructions::Dneg => Op::Negate(Kind::Double),
        Instructions::Ishl => Op::IntArith(IntOp::Shl),
        Instructions::Lshl => Op::LongArith(IntOp::Shl),
        Instructions::Ishr => Op::IntArith(IntOp::Shr),
        Instructions::Lshr => Op::LongArith(IntOp::Shr),
        Instructions::Iushr => Op::IntArith(IntOp::Ushr),
        Instructions::Lushr => Op::LongArith(IntOp::Ushr),
        Instructions::Iand => Op::IntArith(IntOp::And),
        Instructions::Land => Op::LongArith(IntOp::And),
        Instructions::Ior => Op::IntArith(IntOp::Or),
        Instructions::Lor => Op::LongArith(IntOp::Or),
        Instructions::Ixor => Op::IntArith(IntOp::Xor),
        Instructions::Lxor => Op::LongArith(IntOp::Xor),
        Instructions::Iinc { index, constant } => Op::Increment(*index, *constant),
        Instructions::I2l => Op::Convert(Conversion::I2l),
        Instructions::I2f => Op::Convert(Conversion::I2f),
        Instructions::I2d => Op::Convert(Conversion::I2d),
        Instructions::L2i => Op::Convert(Conversion::L2i),
        Instructions::L2f => Op::Convert(Conversion::L2f),
        Instructions::L2d => Op::Convert(Conversion::L2d),
        Instructions::F2i => Op::Convert(Conversion::F2i),
        Instructions::F2l => Op::Convert(Conversion::F2l),
        Instructions::F2d => Op::Convert(Conversion::F2d),
        Instructions::D2i => Op::Convert(Conversion::D2i),
        Instructions::D2l => Op::Convert(Conversion::D2l),
        Instructions::D2f => Op::Convert(Conversion::D2f),
        Instructions::I2b => Op::Convert(Conversion::I2b),
        Instructions::I2c => Op::Convert(Conversion::I2c),
        Instructions::I2s => Op::Convert(Conversion::I2s),
        Instructions::LongCompare => Op::CompareLong,
        Instructions::Ifeq { offset } => Op::If(Condition::Eq, *offset),
        Instructions::Ifne { offset } => Op::If(Condition::Ne, *offset),
        Instructions::Iflt { offset } => Op::If(Condition::Lt, *offset),
        Instructions::Ifge { offset } => Op::If(Condition::Ge, *offset),
        Instructions::Ifgt { offset } => Op::If(Condition::Gt, *offset),
        Instructions::Ifle { offset } => Op::If(Condition::Le, *offset),
        Instructions::IfIntEq { offset } => Op::IfInt(Condition::Eq, *offset),
        Instructions::IfIntNe { offset } => Op::IfInt(Condition::Ne, *offset),
        Instructions::IfIntLt { offset } => Op::IfInt(Condition::Lt, *offset),
        Instructions::IfIntGe { offset } => Op::IfInt(Condition::Ge, *offset),
        Instructions::IfIntGt { offset } => Op::IfInt(Condition::Gt, *offset),
        Instructions::IfIntLe { offset } => Op::IfInt(Condition::Le, *offset),
        Instructions::IfRefEq { offset } => Op::IfReference(true, *offset),
        Instructions::IfRefNe { offset } => Op::IfReference(false, *offset),
        Instructions::Goto { offset } => Op::Goto(*offset),
        Instructions::Ireturn => Op::ReturnValue(Kind::Int),
        Instructions::Lreturn => Op::ReturnValue(Kind::Long),
        Instructions::Freturn => Op::ReturnValue(Kind::Float),
        Instructions::Dreturn => Op::ReturnValue(Kind::Double),
        Instructions::Areturn => Op::ReturnValue(Kind::Reference),
        Instructions::Return => Op::ReturnVoid,
        Instructions::Getstatic { fieldref } => Op::GetStatic(fieldref),
        Instructions::Putstatic { fieldref } => Op::PutStatic(fieldref),
        Instructions::Getfield { fieldref } => Op::GetField(fieldref),
        Instructions::Putfield { fieldref } => Op::PutField(fieldref),
        Instructions::New { class } => Op::New(class),
        Instructions::Newarray { atype } => Op::NewArray(*atype),
        _ => Op::Unimplemented,
    }
}

} // verus!
