use vstd::prelude::*;
use crate::error::DecodeError;
use crate::helpers::{i16_of, i32_of, i8_of, to_i16, to_i32, to_i8, u16_at, u32_of};
use crate::parser::cp_info_resolved::{
    entry, lookup, Class, Fieldref, InterfaceMethodref, InvokeDynamic, InvokeDynamicView, MemberView,
    Methodref, ResolvedCpInfo, ResolvedCpInfoView,
};
use crate::parser::record::models;

verus! {

/// One decoded instruction of a method body.
///
/// Operands are decoded: constants are values, the short forms that name a
/// local slot in their opcode carry that slot as `index`, and references to
/// fields, methods and classes carry what the constant pool holds for them.
/// Floating-point constants are IEEE 754 bit patterns. A branch `offset`
/// counts bytes as it comes out of the decoder and instructions once the
/// jumps have been cleaned.
#[allow(inconsistent_fields)]
#[derive(Debug, Clone, PartialEq, Eq)]
pub enum Instructions {
    Nop,
    AconstNull,
    Iconst { value: i32 },
    Lconst { value: i64 },
    Fconst { value: u32 },
    Dconst { value: u64 },
    Bipush { value: i8 },
    Sipush { value: i16 },
    Ldc { index: u8 },
    LdcW { index: u16 },
    Ldc2W { index: u16 },
    Iload { index: u8 },
    Lload { index: u8 },
    Fload { index: u8 },
    Dload { index: u8 },
    Aload { index: u8 },
    Iaload,
    Laload,
    Faload,
    Daload,
    Aaload,
    Baload,
    Caload,
    Saload,
    Istore { index: u8 },
    Lstore { index: u8 },
    Fstore { index: u8 },
    Dstore { index: u8 },
    Astore { index: u8 },
    Iastore,
    Lastore,
    Fastore,
    Dastore,
    Aastore,
    Bastore,
    Castore,
    Sastore,
    Pop,
    Pop2,
    Dup,
    DupX1,
    DupX2,
    Dup2,
    Dup2X1,
    Dup2X2,
    Swap,
    Iadd,
    Ladd,
    Fadd,
    Dadd,
    Isub,
    Lsub,
    Fsub,
    Dsub,
    Imul,
    Lmul,
    Fmul,
    Dmul,
    Idiv,
    Ldiv,
    Fdiv,
    Ddiv,
    Irem,
    Lrem,
    Frem,
    Drem,
    Ineg,
    Lneg,
    Fneg,
    Dneg,
    Ishl,
    Lshl,
    Ishr,
    Lshr,
    Iushr,
    Lushr,
    Iand,
    Land,
    Ior,
    Lor,
    Ixor,
    Lxor,
    Iinc { index: u8, constant: i8 },
    I2l,
    I2f,
    I2d,
    L2i,
    L2f,
    L2d,
    F2i,
    F2l,
    F2d,
    D2i,
    D2l,
    D2f,
    I2b,
    I2c,
    I2s,
    /// Compares two longs and pushes -1, 0 or 1.
    LongCompare,
    /// Compares two floats; an unordered pair gives -1.
    FloatCompareL,
    /// Compares two floats; an unordered pair gives 1.
    FloatCompareG,
    /// Compares two doubles; an unordered pair gives -1.
    DoubleCompareL,
    /// Compares two doubles; an unordered pair gives 1.
    DoubleCompareG,
    Ifeq { offset: i16 },
    Ifne { offset: i16 },
    Iflt { offset: i16 },
    Ifge { offset: i16 },
    Ifgt { offset: i16 },
    Ifle { offset: i16 },
    /// Branches if the two ints on top of the stack are equal.
    IfIntEq { offset: i16 },
    /// Branches if the two ints on top of the stack differ.
    IfIntNe { offset: i16 },
    /// Branches if the lower int is less than the upper one.
    IfIntLt { offset: i16 },
    /// Branches if the lower int is at least the upper one.
    IfIntGe { offset: i16 },
    /// Branches if the lower int is greater than the upper one.
    IfIntGt { offset: i16 },
    /// Branches if the lower int is at most the upper one.
    IfIntLe { offset: i16 },
    /// Branches if the two references denote the same entity.
    IfRefEq { offset: i16 },
    /// Branches if the two references denote different entities.
    IfRefNe { offset: i16 },
    Goto { offset: i16 },
    Jsr { offset: i16 },
    Ret { index: u8 },
    Tableswitch { default: i32, low: i32, high: i32, offsets: Vec<i32> },
    Lookupswitch { default: i32, npairs: i32, pairs: Vec<(i32, i32)> },
    Ireturn,
    Lreturn,
    Freturn,
    Dreturn,
    Areturn,
    Return,
    Getstatic { fieldref: Fieldref },
    Putstatic { fieldref: Fieldref },
    Getfield { fieldref: Fieldref },
    Putfield { fieldref: Fieldref },
    Invokevirtual { methodref: Methodref },
    Invokespecial { methodref: Methodref },
    Invokestatic { methodref: Methodref },
    Invokeinterface { interfacemethodref: InterfaceMethodref, count: u8 },
    Invokedynamic { invokedynamic: InvokeDynamic },
    New { class: Class },
    Newarray { atype: u8 },
    Anewarray { index: u16 },
    Arraylength,
    Athrow,
    Checkcast { index: u16 },
    Instanceof { index: u16 },
    Monitorenter,
    Monitorexit,
    /// A load, store or `ret` with a 16-bit local index.
    Wide1 { opcode: u8, index_extension: u16 },
    /// An `iinc` with a 16-bit local index and a 16-bit constant.
    Wide2 { opcode: u8, index_extension: u16, constbytes: i16 },
    Multianewarray { index: u16, dimensions: u8 },
    Ifnull { offset: i16 },
    Ifnonnull { offset: i16 },
    GotoW { offset: i32 },
    JsrW { offset: i32 },
}


/// An instruction as a mathematical value: itself where it holds only
/// numbers; with sequences for the tables of the two switches; with the
/// characters of the names where it names a field, a method or a class.
#[allow(inconsistent_fields)]
pub enum InstructionsView {
    Plain(Instructions),
    Tableswitch { default: i32, low: i32, high: i32, offsets: Seq<i32> },
    Lookupswitch { default: i32, npairs: i32, pairs: Seq<(i32, i32)> },
    Getstatic { fieldref: MemberView },
    Putstatic { fieldref: MemberView },
    Getfield { fieldref: MemberView },
    Putfield { fieldref: MemberView },
    Invokevirtual { methodref: MemberView },
    Invokespecial { methodref: MemberView },
    Invokestatic { methodref: MemberView },
    Invokeinterface { interfacemethodref: MemberView, count: u8 },
    Invokedynamic { invokedynamic: InvokeDynamicView },
    New { class: Seq<char> },
}

impl View for Instructions {
    type V = InstructionsView;

    open spec fn view(&self) -> InstructionsView {
        match self {
            Instructions::Tableswitch { default, low, high, offsets } => InstructionsView::Tableswitch {
                default: *default,
                low: *low,
                high: *high,
                offsets: offsets@,
            },
            Instructions::Lookupswitch { default, npairs, pairs } => InstructionsView::Lookupswitch {
                default: *default,
                npairs: *npairs,
                pairs: pairs@,
            },
            Instructions::Getstatic { fieldref } => InstructionsView::Getstatic { fieldref: fieldref@ },
            Instructions::Putstatic { fieldref } => InstructionsView::Putstatic { fieldref: fieldref@ },
            Instructions::Getfield { fieldref } => InstructionsView::Getfield { fieldref: fieldref@ },
            Instructions::Putfield { fieldref } => InstructionsView::Putfield { fieldref: fieldref@ },
            Instructions::Invokevirtual { methodref } => InstructionsView::Invokevirtual {
                methodref: methodref@,
            },
            Instructions::Invokespecial { methodref } => InstructionsView::Invokespecial {
                methodref: methodref@,
            },
            Instructions::Invokestatic { methodref } => InstructionsView::Invokestatic {
                methodref: methodref@,
            },
            Instructions::Invokeinterface {
                interfacemethodref,
                count,
            } => InstructionsView::Invokeinterface {
                interfacemethodref: interfacemethodref@,
                count: *count,
            },
            Instructions::Invokedynamic { invokedynamic } => InstructionsView::Invokedynamic {
                invokedynamic: invokedynamic@,
            },
            Instructions::New { class } => InstructionsView::New { class: class@ },
            _ => InstructionsView::Plain(*self),
        }
    }
}

/// The instruction that an opcode without operand bytes stands for.
pub open spec fn plain(opcode: u8) -> Option<Instructions> {
    match opcode {
        0x00 => Some(Instructions::Nop),
        0x01 => Some(Instructions::AconstNull),
        0x02 => Some(Instructions::Iconst { value: -1i32 }),
        0x03 => Some(Instructions::Iconst { value: 0 }),
        0x04 => Some(Instructions::Iconst { value: 1 }),
        0x05 => Some(Instructions::Iconst { value: 2 }),
        0x06 => Some(Instructions::Iconst { value: 3 }),
        0x07 => Some(Instructions::Iconst { value: 4 }),
        0x08 => Some(Instructions::Iconst { value: 5 }),
        0x09 => Some(Instructions::Lconst { value: 0 }),
        0x0a => Some(Instructions::Lconst { value: 1 }),
        0x0b => Some(Instructions::Fconst { value: 0 }),
        0x0c => Some(Instructions::Fconst { value: 0x3f80_0000 }),
        0x0d => Some(Instructions::Fconst { value: 0x4000_0000 }),
        0x0e => Some(Instructions::Dconst { value: 0 }),
        0x0f => Some(Instructions::Dconst { value: 0x3ff0_0000_0000_0000 }),
        0x1a => Some(Instructions::Iload { index: 0 }),
        0x1b => Some(Instructions::Iload { index: 1 }),
        0x1c => Some(Instructions::Iload { index: 2 }),
        0x1d => Some(Instructions::Iload { index: 3 }),
        0x1e => Some(Instructions::Lload { index: 0 }),
        0x1f => Some(Instructions::Lload { index: 1 }),
        0x20 => Some(Instructions::Lload { index: 2 }),
        0x21 => Some(Instructions::Lload { index: 3 }),
        0x22 => Some(Instructions::Fload { index: 0 }),
        0x23 => Some(Instructions::Fload { index: 1 }),
        0x24 => Some(Instructions::Fload { index: 2 }),
        0x25 => Some(Instructions::Fload { index: 3 }),
        0x26 => Some(Instructions::Dload { index: 0 }),
        0x27 => Some(Instructions::Dload { index: 1 }),
        0x28 => Some(Instructions::Dload { index: 2 }),
        0x29 => Some(Instructions::Dload { index: 3 }),
        0x2a => Some(Instructions::Aload { index: 0 }),
        0x2b => Some(Instructions::Aload { index: 1 }),
        0x2c => Some(Instructions::Aload { index: 2 }),
        0x2d => Some(Instructions::Aload { index: 3 }),
        0x2e => Some(Instructions::Iaload),
        0x2f => Some(Instructions::Laload),
        0x30 => Some(Instructions::Faload),
        0x31 => Some(Instructions::Daload),
        0x32 => Some(Instructions::Aaload),
        0x33 => Some(Instructions::Baload),
        0x34 => Some(Instructions::Caload),
        0x35 => Some(Instructions::Saload),
        0x3b => Some(Instructions::Istore { index: 0 }),
        0x3c => Some(Instructions::Istore { index: 1 }),
        0x3d => Some(Instructions::Istore { index: 2 }),
        0x3e => Some(Instructions::Istore { index: 3 }),
        0x3f => Some(Instructions::Lstore { index: 0 }),
        0x40 => Some(Instructions::Lstore { index: 1 }),
        0x41 => Some(Instructions::Lstore { index: 2 }),
        0x42 => Some(Instructions::Lstore { index: 3 }),
        0x43 => Some(Instructions::Fstore { index: 0 }),
        0x44 => Some(Instructions::Fstore { index: 1 }),
        0x45 => Some(Instructions::Fstore { index: 2 }),
        0x46 => Some(Instructions::Fstore { index: 3 }),
        0x47 => Some(Instructions::Dstore { index: 0 }),
        0x48 => Some(Instructions::Dstore { index: 1 }),
        0x49 => Some(Instructions::Dstore { index: 2 }),
        0x4a => Some(Instructions::Dstore { index: 3 }),
        0x4b => Some(Instructions::Astore { index: 0 }),
        0x4c => Some(Instructions::Astore { index: 1 }),
        0x4d => Some(Instructions::Astore { index: 2 }),
        0x4e => Some(Instructions::Astore { index: 3 }),
        0x4f => Some(Instructions::Iastore),
        0x50 => Some(Instructions::Lastore),
        0x51 => Some(Instructions::Fastore),
        0x52 => Some(Instructions::Dastore),
        0x53 => Some(Instructions::Aastore),
        0x54 => Some(Instructions::Bastore),
        0x55 => Some(Instructions::Castore),
        0x56 => Some(Instructions::Sastore),
        0x57 => Some(Instructions::Pop),
        0x58 => Some(Instructions::Pop2),
        0x59 => Some(Instructions::Dup),
        0x5a => Some(Instructions::DupX1),
        0x5b => Some(Instructions::DupX2),
        0x5c => Some(Instructions::Dup2),
        0x5d => Some(Instructions::Dup2X1),
        0x5e => Some(Instructions::Dup2X2),
        0x5f => Some(Instructions::Swap),
        0x60 => Some(Instructions::Iadd),
        0x61 => Some(Instructions::Ladd),
        0x62 => Some(Instructions::Fadd),
        0x63 => Some(Instructions::Dadd),
        0x64 => Some(Instructions::Isub),
        0x65 => Some(Instructions::Lsub),
        0x66 => Some(Instructions::Fsub),
        0x67 => Some(Instructions::Dsub),
        0x68 => Some(Instructions::Imul),
        0x69 => Some(Instructions::Lmul),
        0x6a => Some(Instructions::Fmul),
        0x6b => Some(Instructions::Dmul),
        0x6c => Some(Instructions::Idiv),
        0x6d => Some(Instructions::Ldiv),
        0x6e => Some(Instructions::Fdiv),
        0x6f => Some(Instructions::Ddiv),
        0x70 => Some(Instructions::Irem),
        0x71 => Some(Instructions::Lrem),
        0x72 => Some(Instructions::Frem),
        0x73 => Some(Instructions::Drem),
        0x74 => Some(Instructions::Ineg),
        0x75 => Some(Instructions::Lneg),
        0x76 => Some(Instructions::Fneg),
        0x77 => Some(Instructions::Dneg),
        0x78 => Some(Instructions::Ishl),
        0x79 => Some(Instructions::Lshl),
        0x7a => Some(Instructions::Ishr),
        0x7b => Some(Instructions::Lshr),
        0x7c => Some(Instructions::Iushr),
        0x7d => Some(Instructions::Lushr),
        0x7e => Some(Instructions::Iand),
        0x7f => Some(Instructions::Land),
        0x80 => Some(Instructions::Ior),
        0x81 => Some(Instructions::Lor),
        0x82 => Some(Instructions::Ixor),
        0x83 => Some(Instructions::Lxor),
        0x85 => Some(Instructions::I2l),
        0x86 => Some(Instructions::I2f),
        0x87 => Some(Instructions::I2d),
        0x88 => Some(Instructions::L2i),
        0x89 => Some(Instructions::L2f),
        0x8a => Some(Instructions::L2d),
        0x8b => Some(Instructions::F2i),
        0x8c => Some(Instructions::F2l),
        0x8d => Some(Instructions::F2d),
        0x8e => Some(Instructions::D2i),
        0x8f => Some(Instructions::D2l),
        0x90 => Some(Instructions::D2f),
        0x91 => Some(Instructions::I2b),
        0x92 => Some(Instructions::I2c),
        0x93 => Some(Instructions::I2s),
        0x94 => Some(Instructions::LongCompare),
        0x95 => Some(Instructions::FloatCompareL),
        0x96 => Some(Instructions::FloatCompareG),
        0x97 => Some(Instructions::DoubleCompareL),
        0x98 => Some(Instructions::DoubleCompareG),
        0xac => Some(Instructions::Ireturn),
        0xad => Some(Instructions::Lreturn),
        0xae => Some(Instructions::Freturn),
        0xaf => Some(Instructions::Dreturn),
        0xb0 => Some(Instructions::Areturn),
        0xb1 => Some(Instructions::Return),
        0xbe => Some(Instructions::Arraylength),
        0xbf => Some(Instructions::Athrow),
        0xc2 => Some(Instructions::Monitorenter),
        0xc3 => Some(Instructions::Monitorexit),
        _ => None,
    }
}

/// The instruction that an opcode with one operand byte stands for.
pub open spec fn with_byte(opcode: u8, b: u8) -> Option<Instructions> {
    match opcode {
        0x10 => Some(Instructions::Bipush { value: i8_of(b) }),
        0x12 => Some(Instructions::Ldc { index: b }),
        0x15 => Some(Instructions::Iload { index: b }),
        0x16 => Some(Instructions::Lload { index: b }),
        0x17 => Some(Instructions::Fload { index: b }),
        0x18 => Some(Instructions::Dload { index: b }),
        0x19 => Some(Instructions::Aload { index: b }),
        0x36 => Some(Instructions::Istore { index: b }),
        0x37 => Some(Instructions::Lstore { index: b }),
        0x38 => Some(Instructions::Fstore { index: b }),
        0x39 => Some(Instructions::Dstore { index: b }),
        0x3a => Some(Instructions::Astore { index: b }),
        0xa9 => Some(Instructions::Ret { index: b }),
        0xbc => Some(Instructions::Newarray { atype: b }),
        _ => None,
    }
}

/// The instruction that an opcode with one two-byte operand stands for.
pub open spec fn with_short(opcode: u8, v: u16) -> Option<Instructions> {
    match opcode {
        0x11 => Some(Instructions::Sipush { value: i16_of(v) }),
        0x13 => Some(Instructions::LdcW { index: v }),
        0x14 => Some(Instructions::Ldc2W { index: v }),
        0x99 => Some(Instructions::Ifeq { offset: i16_of(v) }),
        0x9a => Some(Instructions::Ifne { offset: i16_of(v) }),
        0x9b => Some(Instructions::Iflt { offset: i16_of(v) }),
        0x9c => Some(Instructions::Ifge { offset: i16_of(v) }),
        0x9d => Some(Instructions::Ifgt { offset: i16_of(v) }),
        0x9e => Some(Instructions::Ifle { offset: i16_of(v) }),
        0x9f => Some(Instructions::IfIntEq { offset: i16_of(v) }),
        0xa0 => Some(Instructions::IfIntNe { offset: i16_of(v) }),
        0xa1 => Some(Instructions::IfIntLt { offset: i16_of(v) }),
        0xa2 => Some(Instructions::IfIntGe { offset: i16_of(v) }),
        0xa3 => Some(Instructions::IfIntGt { offset: i16_of(v) }),
        0xa4 => Some(Instructions::IfIntLe { offset: i16_of(v) }),
        0xa5 => Some(Instructions::IfRefEq { offset: i16_of(v) }),
        0xa6 => Some(Instructions::IfRefNe { offset: i16_of(v) }),
        0xa7 => Some(Instructions::Goto { offset: i16_of(v) }),
        0xa8 => Some(Instructions::Jsr { offset: i16_of(v) }),
        0xbd => Some(Instructions::Anewarray { index: v }),
        0xc0 => Some(Instructions::Checkcast { index: v }),
        0xc1 => Some(Instructions::Instanceof { index: v }),
        0xc6 => Some(Instructions::Ifnull { offset: i16_of(v) }),
        0xc7 => Some(Instructions::Ifnonnull { offset: i16_of(v) }),
        _ => None,
    }
}

/// The big-endian signed 32-bit number at byte `i` of the code.
pub open spec fn i32_at(code: Seq<u8>, i: int) -> i32 {
    i32_of(u32_of(code[i], code[i + 1], code[i + 2], code[i + 3]))
}

/// The instruction whose operand is a reference into the constant pool:
/// a field for the four field accesses, a method for the three direct
/// invocations, an interface method for the interface invocation, a class
/// for the creation of an object.
pub open spec fn with_entry(opcode: u8, e: ResolvedCpInfoView, count: u8) -> Option<InstructionsView> {
    match (opcode, e) {
        (0xb2, ResolvedCpInfoView::Fieldref(f)) => Some(InstructionsView::Getstatic { fieldref: f }),
        (0xb3, ResolvedCpInfoView::Fieldref(f)) => Some(InstructionsView::Putstatic { fieldref: f }),
        (0xb4, ResolvedCpInfoView::Fieldref(f)) => Some(InstructionsView::Getfield { fieldref: f }),
        (0xb5, ResolvedCpInfoView::Fieldref(f)) => Some(InstructionsView::Putfield { fieldref: f }),
        (0xb6, ResolvedCpInfoView::Methodref(m)) => Some(InstructionsView::Invokevirtual { methodref: m }),
        (0xb7, ResolvedCpInfoView::Methodref(m)) => Some(InstructionsView::Invokespecial { methodref: m }),
        (0xb8, ResolvedCpInfoView::Methodref(m)) => Some(InstructionsView::Invokestatic { methodref: m }),
        (0xb9, ResolvedCpInfoView::InterfaceMethodref(m)) => Some(
            InstructionsView::Invokeinterface { interfacemethodref: m, count },
        ),
        (0xbb, ResolvedCpInfoView::Class(c)) => Some(InstructionsView::New { class: c }),
        _ => None,
    }
}

/// Whether the opcode may follow the prefix that widens a local index: the
/// loads and stores with an index operand, and the return from a subroutine.
pub open spec fn spec_widens(opcode: u8) -> bool {
    0x15 <= opcode <= 0x19 || 0x36 <= opcode <= 0x3a || opcode == 0xa9
}

/// The number of padding bytes after a switch opcode at byte `pos`: its
/// operands start at the next multiple of four.
pub open spec fn padding(pos: int) -> int {
    3 - pos % 4
}

/// The instruction that starts at byte `pos` of `code`, and the number of
/// bytes it takes.
///
/// An instruction takes exactly the operand bytes that its opcode calls for;
/// where the code ends before them, the end of input is reported. A
/// reference into the constant pool must name an entry of the kind that the
/// instruction needs. A call site that is bound at run time is recognised
/// but not supported.
pub open spec fn decode_at(code: Seq<u8>, pos: int, pool: Seq<ResolvedCpInfoView>) -> Result<
    (InstructionsView, int),
    DecodeError,
> {
    if pos < 0 || pos >= code.len() {
        Err(DecodeError::UnexpectedEnd)
    } else {
        let opcode = code[pos];
        let left = code.len() - pos;
        if plain(opcode) is Some {
            Ok((InstructionsView::Plain(plain(opcode)->Some_0), 1))
        } else if with_byte(opcode, 0) is Some {
            if left < 2 {
                Err(DecodeError::UnexpectedEnd)
            } else {
                Ok((InstructionsView::Plain(with_byte(opcode, code[pos + 1])->Some_0), 2))
            }
        } else if with_short(opcode, 0) is Some {
            if left < 3 {
                Err(DecodeError::UnexpectedEnd)
            } else {
                Ok((InstructionsView::Plain(with_short(opcode, u16_at(code, pos + 1))->Some_0), 3))
            }
        } else if opcode == 0x84 {
            if left < 3 {
                Err(DecodeError::UnexpectedEnd)
            } else {
                Ok(
                    (
                        InstructionsView::Plain(
                            Instructions::Iinc { index: code[pos + 1], constant: i8_of(code[pos + 2]) },
                        ),
                        3,
                    ),
                )
            }
        } else if 0xb2 <= opcode <= 0xb8 || opcode == 0xbb {
            if left < 3 {
                Err(DecodeError::UnexpectedEnd)
            } else {
                match entry(pool, u16_at(code, pos + 1)) {
                    None => Err(DecodeError::BadConstantIndex),
                    Some(e) => match with_entry(opcode, e, 0) {
                        None => Err(DecodeError::BadConstantIndex),
                        Some(inst) => Ok((inst, 3)),
                    },
                }
            }
        } else if opcode == 0xb9 {
            if left < 5 {
                Err(DecodeError::UnexpectedEnd)
            } else {
                match entry(pool, u16_at(code, pos + 1)) {
                    None => Err(DecodeError::BadConstantIndex),
                    Some(e) => match with_entry(opcode, e, code[pos + 3]) {
                        None => Err(DecodeError::BadConstantIndex),
                        Some(inst) => Ok((inst, 5)),
                    },
                }
            }
        } else if opcode == 0xba {
            if left < 5 {
                Err(DecodeError::UnexpectedEnd)
            } else {
                Err(DecodeError::Unsupported)
            }
        } else if opcode == 0xc4 {
            if left < 2 {
                Err(DecodeError::UnexpectedEnd)
            } else if spec_widens(code[pos + 1]) {
                if left < 4 {
                    Err(DecodeError::UnexpectedEnd)
                } else {
                    Ok(
                        (
                            InstructionsView::Plain(
                                Instructions::Wide1 {
                                    opcode: code[pos + 1],
                                    index_extension: u16_at(code, pos + 2),
                                },
                            ),
                            4,
                        ),
                    )
                }
            } else if code[pos + 1] == 0x84 {
                if left < 6 {
                    Err(DecodeError::UnexpectedEnd)
                } else {
                    Ok(
                        (
                            InstructionsView::Plain(
                                Instructions::Wide2 {
                                    opcode: code[pos + 1],
                                    index_extension: u16_at(code, pos + 2),
                                    constbytes: i16_of(u16_at(code, pos + 4)),
                                },
                            ),
                            6,
                        ),
                    )
                }
            } else {
                Err(DecodeError::BadOpcode)
            }
        } else if opcode == 0xc5 {
            if left < 4 {
                Err(DecodeError::UnexpectedEnd)
            } else {
                Ok(
                    (
                        InstructionsView::Plain(
                            Instructions::Multianewarray {
                                index: u16_at(code, pos + 1),
                                dimensions: code[pos + 3],
                            },
                        ),
                        4,
                    ),
                )
            }
        } else if opcode == 0xc8 || opcode == 0xc9 {
            if left < 5 {
                Err(DecodeError::UnexpectedEnd)
            } else if opcode == 0xc8 {
                Ok((InstructionsView::Plain(Instructions::GotoW { offset: i32_at(code, pos + 1) }), 5))
            } else {
                Ok((InstructionsView::Plain(Instructions::JsrW { offset: i32_at(code, pos + 1) }), 5))
            }
        } else if opcode == 0xaa {
            let base = pos + 1 + padding(pos);
            if code.len() < base + 12 {
                Err(DecodeError::UnexpectedEnd)
            } else {
                let low = i32_at(code, base + 4);
                let high = i32_at(code, base + 8);
                if low > high {
                    Err(DecodeError::BadSwitch)
                } else if code.len() < base + 12 + 4 * (high - low + 1) {
                    Err(DecodeError::UnexpectedEnd)
                } else {
                    Ok(
                        (
                            InstructionsView::Tableswitch {
                                default: i32_at(code, base),
                                low,
                                high,
                                offsets: Seq::new(
                                    (high - low + 1) as nat,
                                    |k: int| i32_at(code, base + 12 + 4 * k),
                                ),
                            },
                            1 + padding(pos) + 12 + 4 * (high - low + 1),
                        ),
                    )
                }
            }
        } else if opcode == 0xab {
            let base = pos + 1 + padding(pos);
            if code.len() < base + 8 {
                Err(DecodeError::UnexpectedEnd)
            } else {
                let npairs = i32_at(code, base + 4);
                if npairs < 0 {
                    Err(DecodeError::BadSwitch)
                } else if code.len() < base + 8 + 8 * npairs {
                    Err(DecodeError::UnexpectedEnd)
                } else {
                    Ok(
                        (
                            InstructionsView::Lookupswitch {
                                default: i32_at(code, base),
                                npairs,
                                pairs: Seq::new(
                                    npairs as nat,
                                    |k: int|
                                        (i32_at(code, base + 8 + 8 * k), i32_at(code, base + 12 + 8 * k)),
                                ),
                            },
                            1 + padding(pos) + 8 + 8 * npairs,
                        ),
                    )
                }
            }
        } else {
            Err(DecodeError::BadOpcode)
        }
    }
}

/// Every instruction takes at least one byte and ends within the code.
pub proof fn lemma_decode_at_length(code: Seq<u8>, pos: int, pool: Seq<ResolvedCpInfoView>)
    ensures
        decode_at(code, pos, pool) is Ok ==> 1 <= decode_at(code, pos, pool)->Ok_0.1 && 0 <= pos && pos
            + decode_at(code, pos, pool)->Ok_0.1 <= code.len(),
{
}

/// The instructions of `code` from byte `pos` on, each with the byte at
/// which it starts.
pub open spec fn decode_from(code: Seq<u8>, pos: int, pool: Seq<ResolvedCpInfoView>) -> Result<
    Seq<(int, InstructionsView)>,
    DecodeError,
>
    decreases code.len() - pos,
{
    if pos >= code.len() || pos < 0 {
        Ok(Seq::empty())
    } else {
        match decode_at(code, pos, pool) {
            Err(e) => Err(e),
            Ok((inst, n)) => if n < 1 {
                Err(DecodeError::BadOpcode)
            } else {
                match decode_from(code, pos + n, pool) {
                    Err(e) => Err(e),
                    Ok(rest) => Ok(seq![(pos, inst)] + rest),
                }
            },
        }
    }
}

/// What a list of decoded instructions holds, as mathematical values.
pub open spec fn listing(decoded: Seq<(usize, Instructions)>) -> Seq<(int, InstructionsView)> {
    decoded.map_values(|e: (usize, Instructions)| (e.0 as int, e.1@))
}


/// Decodes an opcode without operand bytes.
pub fn decode_plain(opcode: u8) -> (r: Option<Instructions>)
    ensures
        r == plain(opcode),
{
    match opcode {
        0x00 => Some(Instructions::Nop),
        0x01 => Some(Instructions::AconstNull),
        0x02 => Some(Instructions::Iconst { value: -1i32 }),
        0x03 => Some(Instructions::Iconst { value: 0 }),
        0x04 => Some(Instructions::Iconst { value: 1 }),
        0x05 => Some(Instructions::Iconst { value: 2 }),
        0x06 => Some(Instructions::Iconst { value: 3 }),
        0x07 => Some(Instructions::Iconst { value: 4 }),
        0x08 => Some(Instructions::Iconst { value: 5 }),
        0x09 => Some(Instructions::Lconst { value: 0 }),
        0x0a => Some(Instructions::Lconst { value: 1 }),
        0x0b => Some(Instructions::Fconst { value: 0 }),
        0x0c => Some(Instructions::Fconst { value: 0x3f80_0000 }),
        0x0d => Some(Instructions::Fconst { value: 0x4000_0000 }),
        0x0e => Some(Instructions::Dconst { value: 0 }),
        0x0f => Some(Instructions::Dconst { value: 0x3ff0_0000_0000_0000 }),
        0x1a => Some(Instructions::Iload { index: 0 }),
        0x1b => Some(Instructions::Iload { index: 1 }),
        0x1c => Some(Instructions::Iload { index: 2 }),
        0x1d => Some(Instructions::Iload { index: 3 }),
        0x1e => Some(Instructions::Lload { index: 0 }),
        0x1f => Some(Instructions::Lload { index: 1 }),
        0x20 => Some(Instructions::Lload { index: 2 }),
        0x21 => Some(Instructions::Lload { index: 3 }),
        0x22 => Some(Instructions::Fload { index: 0 }),
        0x23 => Some(Instructions::Fload { index: 1 }),
        0x24 => Some(Instructions::Fload { index: 2 }),
        0x25 => Some(Instructions::Fload { index: 3 }),
        0x26 => Some(Instructions::Dload { index: 0 }),
        0x27 => Some(Instructions::Dload { index: 1 }),
        0x28 => Some(Instructions::Dload { index: 2 }),
        0x29 => Some(Instructions::Dload { index: 3 }),
        0x2a => Some(Instructions::Aload { index: 0 }),
        0x2b => Some(Instructions::Aload { index: 1 }),
        0x2c => Some(Instructions::Aload { index: 2 }),
        0x2d => Some(Instructions::Aload { index: 3 }),
        0x2e => Some(Instructions::Iaload),
        0x2f => Some(Instructions::Laload),
        0x30 => Some(Instructions::Faload),
        0x31 => Some(Instructions::Daload),
        0x32 => Some(Instructions::Aaload),
        0x33 => Some(Instructions::Baload),
        0x34 => Some(Instructions::Caload),
        0x35 => Some(Instructions::Saload),
        0x3b => Some(Instructions::Istore { index: 0 }),
        0x3c => Some(Instructions::Istore { index: 1 }),
        0x3d => Some(Instructions::Istore { index: 2 }),
        0x3e => Some(Instructions::Istore { index: 3 }),
        0x3f => Some(Instructions::Lstore { index: 0 }),
        0x40 => Some(Instructions::Lstore { index: 1 }),
        0x41 => Some(Instructions::Lstore { index: 2 }),
        0x42 => Some(Instructions::Lstore { index: 3 }),
        0x43 => Some(Instructions::Fstore { index: 0 }),
        0x44 => Some(Instructions::Fstore { index: 1 }),
        0x45 => Some(Instructions::Fstore { index: 2 }),
        0x46 => Some(Instructions::Fstore { index: 3 }),
        0x47 => Some(Instructions::Dstore { index: 0 }),
        0x48 => Some(Instructions::Dstore { index: 1 }),
        0x49 => Some(Instructions::Dstore { index: 2 }),
        0x4a => Some(Instructions::Dstore { index: 3 }),
        0x4b => Some(Instructions::Astore { index: 0 }),
        0x4c => Some(Instructions::Astore { index: 1 }),
        0x4d => Some(Instructions::Astore { index: 2 }),
        0x4e => Some(Instructions::Astore { index: 3 }),
        0x4f => Some(Instructions::Iastore),
        0x50 => Some(Instructions::Lastore),
        0x51 => Some(Instructions::Fastore),
        0x52 => Some(Instructions::Dastore),
        0x53 => Some(Instructions::Aastore),
        0x54 => Some(Instructions::Bastore),
        0x55 => Some(Instructions::Castore),
        0x56 => Some(Instructions::Sastore),
        0x57 => Some(Instructions::Pop),
        0x58 => Some(Instructions::Pop2),
        0x59 => Some(Instructions::Dup),
        0x5a => Some(Instructions::DupX1),
        0x5b => Some(Instructions::DupX2),
        0x5c => Some(Instructions::Dup2),
        0x5d => Some(Instructions::Dup2X1),
        0x5e => Some(Instructions::Dup2X2),
        0x5f => Some(Instructions::Swap),
        0x60 => Some(Instructions::Iadd),
        0x61 => Some(Instructions::Ladd),
        0x62 => Some(Instructions::Fadd),
        0x63 => Some(Instructions::Dadd),
        0x64 => Some(Instructions::Isub),
        0x65 => Some(Instructions::Lsub),
        0x66 => Some(Instructions::Fsub),
        0x67 => Some(Instructions::Dsub),
        0x68 => Some(Instructions::Imul),
        0x69 => Some(Instructions::Lmul),
        0x6a => Some(Instructions::Fmul),
        0x6b => Some(Instructions::Dmul),
        0x6c => Some(Instructions::Idiv),
        0x6d => Some(Instructions::Ldiv),
        0x6e => Some(Instructions::Fdiv),
        0x6f => Some(Instructions::Ddiv),
        0x70 => Some(Instructions::Irem),
        0x71 => Some(Instructions::Lrem),
        0x72 => Some(Instructions::Frem),
        0x73 => Some(Instructions::Drem),
        0x74 => Some(Instructions::Ineg),
        0x75 => Some(Instructions::Lneg),
        0x76 => Some(Instructions::Fneg),
        0x77 => Some(Instructions::Dneg),
        0x78 => Some(Instructions::Ishl),
        0x79 => Some(Instructions::Lshl),
        0x7a => Some(Instructions::Ishr),
        0x7b => Some(Instructions::Lshr),
        0x7c => Some(Instructions::Iushr),
        0x7d => Some(Instructions::Lushr),
        0x7e => Some(Instructions::Iand),
        0x7f => Some(Instructions::Land),
        0x80 => Some(Instructions::Ior),
        0x81 => Some(Instructions::Lor),
        0x82 => Some(Instructions::Ixor),
        0x83 => Some(Instructions::Lxor),
        0x85 => Some(Instructions::I2l),
        0x86 => Some(Instructions::I2f),
        0x87 => Some(Instructions::I2d),
        0x88 => Some(Instructions::L2i),
        0x89 => Some(Instructions::L2f),
        0x8a => Some(Instructions::L2d),
        0x8b => Some(Instructions::F2i),
        0x8c => Some(Instructions::F2l),
        0x8d => Some(Instructions::F2d),
        0x8e => Some(Instructions::D2i),
        0x8f => Some(Instructions::D2l),
        0x90 => Some(Instructions::D2f),
        0x91 => Some(Instructions::I2b),
        0x92 => Some(Instructions::I2c),
        0x93 => Some(Instructions::I2s),
        0x94 => Some(Instructions::LongCompare),
        0x95 => Some(Instructions::FloatCompareL),
        0x96 => Some(Instructions::FloatCompareG),
        0x97 => Some(Instructions::DoubleCompareL),
        0x98 => Some(Instructions::DoubleCompareG),
        0xac => Some(Instructions::Ireturn),
        0xad => Some(Instructions::Lreturn),
        0xae => Some(Instructions::Freturn),
        0xaf => Some(Instructions::Dreturn),
        0xb0 => Some(Instructions::Areturn),
        0xb1 => Some(Instructions::Return),
        0xbe => Some(Instructions::Arraylength),
        0xbf => Some(Instructions::Athrow),
        0xc2 => Some(Instructions::Monitorenter),
        0xc3 => Some(Instructions::Monitorexit),
        _ => None,
    }
}

/// Decodes an opcode with one operand byte.
pub fn decode_with_byte(opcode: u8, b: u8) -> (r: Option<Instructions>)
    ensures
        r == with_byte(opcode, b),
        r is Some <==> with_byte(opcode, 0) is Some,
{
    match opcode {
        0x10 => Some(Instructions::Bipush { value: to_i8(b) }),
        0x12 => Some(Instructions::Ldc { index: b }),
        0x15 => Some(Instructions::Iload { index: b }),
        0x16 => Some(Instructions::Lload { index: b }),
        0x17 => Some(Instructions::Fload { index: b }),
        0x18 => Some(Instructions::Dload { index: b }),
        0x19 => Some(Instructions::Aload { index: b }),
        0x36 => Some(Instructions::Istore { index: b }),
        0x37 => Some(Instructions::Lstore { index: b }),
        0x38 => Some(Instructions::Fstore { index: b }),
        0x39 => Some(Instructions::Dstore { index: b }),
        0x3a => Some(Instructions::Astore { index: b }),
        0xa9 => Some(Instructions::Ret { index: b }),
        0xbc => Some(Instructions::Newarray { atype: b }),
        _ => None,
    }
}

/// Decodes an opcode with one two-byte operand.
pub fn decode_with_short(opcode: u8, v: u16) -> (r: Option<Instructions>)
    ensures
        r == with_short(opcode, v),
        r is Some <==> with_short(opcode, 0) is Some,
{
    match opcode {
        0x11 => Some(Instructions::Sipush { value: to_i16(v) }),
        0x13 => Some(Instructions::LdcW { index: v }),
        0x14 => Some(Instructions::Ldc2W { index: v }),
        0x99 => Some(Instructions::Ifeq { offset: to_i16(v) }),
        0x9a => Some(Instructions::Ifne { offset: to_i16(v) }),
        0x9b => Some(Instructions::Iflt { offset: to_i16(v) }),
        0x9c => Some(Instructions::Ifge { offset: to_i16(v) }),
        0x9d => Some(Instructions::Ifgt { offset: to_i16(v) }),
        0x9e => Some(Instructions::Ifle { offset: to_i16(v) }),
        0x9f => Some(Instructions::IfIntEq { offset: to_i16(v) }),
        0xa0 => Some(Instructions::IfIntNe { offset: to_i16(v) }),
        0xa1 => Some(Instructions::IfIntLt { offset: to_i16(v) }),
        0xa2 => Some(Instructions::IfIntGe { offset: to_i16(v) }),
        0xa3 => Some(Instructions::IfIntGt { offset: to_i16(v) }),
        0xa4 => Some(Instructions::IfIntLe { offset: to_i16(v) }),
        0xa5 => Some(Instructions::IfRefEq { offset: to_i16(v) }),
        0xa6 => Some(Instructions::IfRefNe { offset: to_i16(v) }),
        0xa7 => Some(Instructions::Goto { offset: to_i16(v) }),
        0xa8 => Some(Instructions::Jsr { offset: to_i16(v) }),
        0xbd => Some(Instructions::Anewarray { index: v }),
        0xc0 => Some(Instructions::Checkcast { index: v }),
        0xc1 => Some(Instructions::Instanceof { index: v }),
        0xc6 => Some(Instructions::Ifnull { offset: to_i16(v) }),
        0xc7 => Some(Instructions::Ifnonnull { offset: to_i16(v) }),
        _ => None,
    }
}

/// Decodes an opcode whose operand names a constant-pool entry.
pub fn decode_with_entry(opcode: u8, e: &ResolvedCpInfo, count: u8) -> (r: Option<Instructions>)
    ensures
        match r {
            Some(inst) => with_entry(opcode, e@, count) == Some(inst@),
            None => with_entry(opcode, e@, count) is None,
        },
{
    match e {
        ResolvedCpInfo::Fieldref(f) => {
            if opcode == 0xb2 {
                Some(Instructions::Getstatic { fieldref: f.clone() })
            } else if opcode == 0xb3 {
                Some(Instructions::Putstatic { fieldref: f.clone() })
            } else if opcode == 0xb4 {
                Some(Instructions::Getfield { fieldref: f.clone() })
            } else if opcode == 0xb5 {
                Some(Instructions::Putfield { fieldref: f.clone() })
            } else {
                None
            }
        },
        ResolvedCpInfo::Methodref(m) => {
            if opcode == 0xb6 {
                Some(Instructions::Invokevirtual { methodref: m.clone() })
            } else if opcode == 0xb7 {
                Some(Instructions::Invokespecial { methodref: m.clone() })
            } else if opcode == 0xb8 {
                Some(Instructions::Invokestatic { methodref: m.clone() })
            } else {
                None
            }
        },
        ResolvedCpInfo::InterfaceMethodref(m) => {
            if opcode == 0xb9 {
                Some(Instructions::Invokeinterface { interfacemethodref: m.clone(), count })
            } else {
                None
            }
        },
        ResolvedCpInfo::Class(c) => {
            if opcode == 0xbb {
                Some(Instructions::New { class: c.clone() })
            } else {
                None
            }
        },
        _ => None,
    }
}

/// Whether the opcode may follow the prefix that widens a local index.
#[verifier::when_used_as_spec(spec_widens)]
pub fn widens(opcode: u8) -> (r: bool)
    ensures
        r == spec_widens(opcode),
{
    (0x15 <= opcode && opcode <= 0x19) || (0x36 <= opcode && opcode <= 0x3a) || opcode == 0xa9
}

/// Reads the big-endian 16-bit number at byte `i`.
pub fn read_u16(code: &[u8], i: usize) -> (r: u16)
    requires
        i + 2 <= code@.len(),
    ensures
        r == u16_at(code@, i as int),
{
    let hi: u16 = code[i] as u16;
    let lo: u16 = code[i + 1] as u16;
    hi * 256 + lo
}

/// Reads the big-endian signed 32-bit number at byte `i`.
pub fn read_i32(code: &[u8], i: usize) -> (r: i32)
    requires
        i + 4 <= code@.len(),
    ensures
        r == i32_at(code@, i as int),
{
    let b0: u32 = code[i] as u32;
    let b1: u32 = code[i + 1] as u32;
    let b2: u32 = code[i + 2] as u32;
    let b3: u32 = code[i + 3] as u32;
    to_i32(b0 * 16777216 + b1 * 65536 + b2 * 256 + b3)
}

/// Reads the table of a table switch: `count` offsets from byte `start`.
fn read_offsets(code: &[u8], start: usize, count: usize) -> (r: Vec<i32>)
    requires
        start + 4 * count <= code@.len(),
    ensures
        r@ == Seq::new(count as nat, |k: int| i32_at(code@, start + 4 * k)),
{
    let mut out: Vec<i32> = Vec::new();
    let mut k: usize = 0;
    let size = code.len();
    while k < count
        invariant
            k <= count,
            size == code@.len(),
            start + 4 * count <= code@.len(),
            out@ =~= Seq::new(k as nat, |j: int| i32_at(code@, start + 4 * j)),
        decreases count - k,
    {
        out.push(read_i32(code, start + 4 * k));
        k += 1;
    }
    out
}

/// Reads the table of a lookup switch: `count` pairs from byte `start`.
fn read_pairs(code: &[u8], start: usize, count: usize) -> (r: Vec<(i32, i32)>)
    requires
        start + 8 * count <= code@.len(),
    ensures
        r@ == Seq::new(
            count as nat,
            |k: int| (i32_at(code@, start + 8 * k), i32_at(code@, start + 4 + 8 * k)),
        ),
{
    let mut out: Vec<(i32, i32)> = Vec::new();
    let mut k: usize = 0;
    let size = code.len();
    while k < count
        invariant
            k <= count,
            size == code@.len(),
            start + 8 * count <= code@.len(),
            out@ =~= Seq::new(
                k as nat,
                |j: int| (i32_at(code@, start + 8 * j), i32_at(code@, start + 4 + 8 * j)),
            ),
        decreases count - k,
    {
        let key = read_i32(code, start + 8 * k);
        let offset = read_i32(code, start + 8 * k + 4);
        out.push((key, offset));
        k += 1;
    }
    out
}

/// Decodes a switch, whose opcode is at byte `pos`.
fn decode_switch(code: &[u8], pos: usize) -> (r: Result<(Instructions, usize), DecodeError>)
    requires
        pos < code@.len(),
        code@[pos as int] == 0xaa || code@[pos as int] == 0xab,
    ensures
        match r {
            Ok((inst, n)) => decode_at(code@, pos as int, Seq::empty()) == Ok::<
                (InstructionsView, int),
                DecodeError,
            >((inst@, n as int)),
            Err(e) => decode_at(code@, pos as int, Seq::empty()) == Err::<
                (InstructionsView, int),
                DecodeError,
            >(e),
        },
{
    let left = code.len() - pos;
    let pad = 3 - pos % 4;
    if code[pos] == 0xaa {
        if left < 1 + pad + 12 {
            return Err(DecodeError::UnexpectedEnd);
        }
        let base = pos + 1 + pad;
        let default = read_i32(code, base);
        let low = read_i32(code, base + 4);
        let high = read_i32(code, base + 8);
        if low > high {
            return Err(DecodeError::BadSwitch);
        }
        let count: u64 = (high as i64 - low as i64 + 1) as u64;
        let room = code.len() - base - 12;
        if count > (room / 4) as u64 {
            return Err(DecodeError::UnexpectedEnd);
        }
        let offsets = read_offsets(code, base + 12, count as usize);
        assert(offsets@ =~= Seq::new(
            (high - low + 1) as nat,
            |k: int| i32_at(code@, base + 12 + 4 * k),
        ));
        Ok((Instructions::Tableswitch { default, low, high, offsets }, 1 + pad + 12 + 4 * (count as usize)))
    } else {
        if left < 1 + pad + 8 {
            return Err(DecodeError::UnexpectedEnd);
        }
        let base = pos + 1 + pad;
        let default = read_i32(code, base);
        let npairs = read_i32(code, base + 4);
        if npairs < 0 {
            return Err(DecodeError::BadSwitch);
        }
        let room = code.len() - base - 8;
        if npairs as u64 > (room / 8) as u64 {
            return Err(DecodeError::UnexpectedEnd);
        }
        let pairs = read_pairs(code, base + 8, npairs as usize);
        assert(pairs@ =~= Seq::new(
            npairs as nat,
            |k: int| (i32_at(code@, base + 8 + 8 * k), i32_at(code@, base + 12 + 8 * k)),
        ));
        Ok((Instructions::Lookupswitch { default, npairs, pairs }, 1 + pad + 8 + 8 * (npairs as usize)))
    }
}

/// Decodes the instruction that starts at byte `pos` and says how many bytes
/// it takes.
pub fn decode_one(code: &[u8], pos: usize, constant_pool: &Vec<ResolvedCpInfo>) -> (r: Result<
    (Instructions, usize),
    DecodeError,
>)
    ensures
        match r {
            Ok((inst, n)) => decode_at(code@, pos as int, models(constant_pool@)) == Ok::<
                (InstructionsView, int),
                DecodeError,
            >((inst@, n as int)),
            Err(e) => decode_at(code@, pos as int, models(constant_pool@)) == Err::<
                (InstructionsView, int),
                DecodeError,
            >(e),
        },
{
    if pos >= code.len() {
        return Err(DecodeError::UnexpectedEnd);
    }
    let opcode = code[pos];
    let left = code.len() - pos;
    if let Some(inst) = decode_plain(opcode) {
        return Ok((inst, 1));
    }
    if decode_with_byte(opcode, 0).is_some() {
        if left < 2 {
            return Err(DecodeError::UnexpectedEnd);
        }
        return match decode_with_byte(opcode, code[pos + 1]) {
            Some(inst) => Ok((inst, 2)),
            None => Err(DecodeError::BadOpcode),
        };
    }
    if decode_with_short(opcode, 0).is_some() {
        if left < 3 {
            return Err(DecodeError::UnexpectedEnd);
        }
        return match decode_with_short(opcode, read_u16(code, pos + 1)) {
            Some(inst) => Ok((inst, 3)),
            None => Err(DecodeError::BadOpcode),
        };
    }
    if opcode == 0x84 {
        if left < 3 {
            return Err(DecodeError::UnexpectedEnd);
        }
        return Ok((Instructions::Iinc { index: code[pos + 1], constant: to_i8(code[pos + 2]) }, 3));
    }
    if (0xb2 <= opcode && opcode <= 0xb8) || opcode == 0xbb {
        if left < 3 {
            return Err(DecodeError::UnexpectedEnd);
        }
        let e = match lookup(constant_pool, read_u16(code, pos + 1)) {
            None => { return Err(DecodeError::BadConstantIndex); },
            Some(e) => e,
        };
        return match decode_with_entry(opcode, e, 0) {
            Some(inst) => Ok((inst, 3)),
            None => Err(DecodeError::BadConstantIndex),
        };
    }
    if opcode == 0xb9 {
        if left < 5 {
            return Err(DecodeError::UnexpectedEnd);
        }
        let e = match lookup(constant_pool, read_u16(code, pos + 1)) {
            None => { return Err(DecodeError::BadConstantIndex); },
            Some(e) => e,
        };
        return match decode_with_entry(opcode, e, code[pos + 3]) {
            Some(inst) => Ok((inst, 5)),
            None => Err(DecodeError::BadConstantIndex),
        };
    }
    if opcode == 0xba {
        if left < 5 {
            return Err(DecodeError::UnexpectedEnd);
        }
        return Err(DecodeError::Unsupported);
    }
    if opcode == 0xc4 {
        if left < 2 {
            return Err(DecodeError::UnexpectedEnd);
        }
        let widened = code[pos + 1];
        if widens(widened) {
            if left < 4 {
                return Err(DecodeError::UnexpectedEnd);
            }
            return Ok(
                (Instructions::Wide1 { opcode: widened, index_extension: read_u16(code, pos + 2) }, 4),
            );
        }
        if widened == 0x84 {
            if left < 6 {
                return Err(DecodeError::UnexpectedEnd);
            }
            return Ok(
                (
                    Instructions::Wide2 {
                        opcode: widened,
                        index_extension: read_u16(code, pos + 2),
                        constbytes: to_i16(read_u16(code, pos + 4)),
                    },
                    6,
                ),
            );
        }
        return Err(DecodeError::BadOpcode);
    }
    if opcode == 0xc5 {
        if left < 4 {
            return Err(DecodeError::UnexpectedEnd);
        }
        return Ok(
            (
                Instructions::Multianewarray { index: read_u16(code, pos + 1), dimensions: code[pos + 3] },
                4,
            ),
        );
    }
    if opcode == 0xc8 || opcode == 0xc9 {
        if left < 5 {
            return Err(DecodeError::UnexpectedEnd);
        }
        let offset = read_i32(code, pos + 1);
        if opcode == 0xc8 {
            return Ok((Instructions::GotoW { offset }, 5));
        }
        return Ok((Instructions::JsrW { offset }, 5));
    }
    if opcode == 0xaa || opcode == 0xab {
        return decode_switch(code, pos);
    }
    Err(DecodeError::BadOpcode)
}

/// Decodes a method body: every instruction in byte order, each with the
/// byte at which it starts.
pub fn generate_instructions(code: &[u8], constant_pool: &Vec<ResolvedCpInfo>) -> (r: Result<
    Vec<(usize, Instructions)>,
    DecodeError,
>)
    ensures
        match r {
            Ok(decoded) => decode_from(code@, 0, models(constant_pool@)) == Ok::<
                Seq<(int, InstructionsView)>,
                DecodeError,
            >(listing(decoded@)),
            Err(e) => decode_from(code@, 0, models(constant_pool@)) == Err::<
                Seq<(int, InstructionsView)>,
                DecodeError,
            >(e),
        },
{
    let mut out: Vec<(usize, Instructions)> = Vec::new();
    let mut pos: usize = 0;
    assert(listing(out@) =~= Seq::empty());
    while pos < code.len()
        invariant
            pos <= code@.len(),
            decode_from(code@, 0, models(constant_pool@)) == match decode_from(code@, pos as int, models(constant_pool@)) {
                Ok(rest) => Ok::<Seq<(int, InstructionsView)>, DecodeError>(listing(out@) + rest),
                Err(e) => Err::<Seq<(int, InstructionsView)>, DecodeError>(e),
            },
        decreases code@.len() - pos,
    {
        proof {
            lemma_decode_at_length(code@, pos as int, models(constant_pool@));
        }
        let (inst, n) = decode_one(code, pos, constant_pool)?;
        let ghost before = listing(out@);
        let ghost view = inst@;
        out.push((pos, inst));
        proof {
            assert(listing(out@) =~= before.push((pos as int, view)));
            match decode_from(code@, pos + n, models(constant_pool@)) {
                Ok(rest) => {
                    assert((before + (seq![(pos as int, view)] + rest)) =~= (before.push(
                        (pos as int, view),
                    ) + rest));
                },
                Err(e) => {},
            }
        }
        pos = pos + n;
    }
    assert(listing(out@) + Seq::<(int, InstructionsView)>::empty() =~= listing(out@));
    Ok(out)
}

} // verus!
