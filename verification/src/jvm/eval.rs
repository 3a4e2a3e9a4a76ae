use vstd::prelude::*;
use crate::error::ExecError;
use crate::jvm::arith::{
    apply_int_op, apply_long_op, apply_long_shift, compare_long, flip_sign32, flip_sign64,
    int_low_eight, int_op, long_compare, long_op, long_shift, long_to_int, low_eight, negate_double,
    negate_float, negate_int, negate_long, wrap32, wrap64, IntOp,
};
use crate::jvm::dynamic_class::unset_fields;
use crate::jvm::heap::{low_byte, low_short, to_low_byte, to_low_short, ArrayKind, Heap, HeapView};
use crate::jvm::helpers::{refeq, same_entity};
use crate::jvm::ops::{classify, op_of, Condition, Conversion, FloatOp, Op};
use crate::jvm::static_class::ClassStatics;
use crate::jvm::types::{HeapType, Kind, Type};
use crate::jvm::JVM;
use crate::jvm::dynamic_class::ClassDynamics;
use crate::parser::attribute_info::attribute::Attribute;
use crate::parser::attribute_info::code::clean_jumps::{short_branch, targets, views, well_targeted};
use crate::parser::attribute_info::code::code_generator::Instructions;
use crate::parser::method_info::MethodInfo;
use crate::table::Table;
use crate::parser::cp_info_resolved::{Class, Fieldref};

verus! {

/// A floating-point computation that the interpreter hands to its host: the
/// operation and its operands, as they lie on the stack.
#[derive(Debug, Clone, Copy, PartialEq, Eq)]
pub enum FloatRequest {
    /// An operation on two 32-bit floats, given by their bit patterns.
    Float(FloatOp, u32, u32),
    /// An operation on two 64-bit floats, given by their bit patterns.
    Double(FloatOp, u64, u64),
    /// A conversion from or to a floating-point kind.
    Convert(Conversion, Type),
}

impl FloatRequest {
    /// How many operands the computation takes from the stack.
    pub open spec fn spec_arity(self) -> usize {
        match self {
            FloatRequest::Float(_, _, _) => 2,
            FloatRequest::Double(_, _, _) => 2,
            FloatRequest::Convert(_, _) => 1,
        }
    }

    /// How many operands the computation takes from the stack.
    #[verifier::when_used_as_spec(spec_arity)]
    pub fn arity(self) -> (r: usize)
        ensures
            r == self.spec_arity(),
    {
        match self {
            FloatRequest::Float(_, _, _) => 2,
            FloatRequest::Double(_, _, _) => 2,
            FloatRequest::Convert(_, _) => 1,
        }
    }

    /// The kind of value that the computation gives.
    pub open spec fn spec_result_kind(self) -> Kind {
        match self {
            FloatRequest::Float(_, _, _) => Kind::Float,
            FloatRequest::Double(_, _, _) => Kind::Double,
            FloatRequest::Convert(c, _) => match c {
                Conversion::I2f | Conversion::L2f | Conversion::D2f => Kind::Float,
                Conversion::I2d | Conversion::L2d | Conversion::F2d => Kind::Double,
                Conversion::F2i | Conversion::D2i => Kind::Int,
                Conversion::F2l | Conversion::D2l => Kind::Long,
                Conversion::I2l => Kind::Long,
                _ => Kind::Int,
            },
        }
    }

    /// The kind of value that the computation gives.
    #[verifier::when_used_as_spec(spec_result_kind)]
    pub fn result_kind(self) -> (r: Kind)
        ensures
            r == self.spec_result_kind(),
    {
        match self {
            FloatRequest::Float(_, _, _) => Kind::Float,
            FloatRequest::Double(_, _, _) => Kind::Double,
            FloatRequest::Convert(c, _) => match c {
                Conversion::I2f | Conversion::L2f | Conversion::D2f => Kind::Float,
                Conversion::I2d | Conversion::L2d | Conversion::F2d => Kind::Double,
                Conversion::F2i | Conversion::D2i => Kind::Int,
                Conversion::F2l | Conversion::D2l => Kind::Long,
                Conversion::I2l => Kind::Long,
                _ => Kind::Int,
            },
        }
    }
}

/// How one step of the interpreter ended.
#[derive(Debug, Clone, Copy, PartialEq, Eq)]
pub enum Signal {
    /// The instruction is done and the next one can run.
    Continue,
    /// The invocation has ended, with this value if it has one.
    Return(Option<Type>),
    /// The instruction at the program counter needs this floating-point
    /// computation. Nothing has changed; the host computes the result and
    /// hands it to `resume`.
    Float(FloatRequest),
}

/// The state of one invocation: the program counter, the operand stack with
/// its top at the end, and the local slots.
#[derive(Debug)]
pub struct Frame {
    pub pc: usize,
    pub stack: Vec<Type>,
    pub locals: Vec<Option<Type>>,
    pub max_stack: usize,
}

/// A frame as mathematical values.
pub struct FrameView {
    pub pc: usize,
    pub stack: Seq<Type>,
    pub locals: Seq<Option<Type>>,
    pub max_stack: usize,
}

impl View for Frame {
    type V = FrameView;

    open spec fn view(&self) -> FrameView {
        FrameView { pc: self.pc, stack: self.stack@, locals: self.locals@, max_stack: self.max_stack }
    }
}

/// What a step leaves behind: the frame, the heap, and how the step ended.
pub struct Effect {
    pub frame: FrameView,
    pub heap: HeapView,
    pub signal: Signal,
}

impl FrameView {
    /// The frame of a fresh invocation: an empty stack, every local unset,
    /// the program counter at the first instruction.
    pub open spec fn fresh(max_stack: u16, max_locals: u16) -> FrameView {
        FrameView {
            pc: 0,
            stack: Seq::empty(),
            locals: Seq::new(max_locals as nat, |i: int| None::<Type>),
            max_stack: max_stack as usize,
        }
    }

    /// The value at `depth` below the top of the stack.
    pub open spec fn peek(self, depth: nat) -> Result<Type, ExecError> {
        if self.stack.len() <= depth {
            Err(ExecError::StackUnderflow)
        } else {
            Ok(self.stack[self.stack.len() - 1 - depth])
        }
    }

    pub open spec fn peek_int(self, depth: nat) -> Result<i32, ExecError> {
        match self.peek(depth) {
            Ok(Type::Int(v)) => Ok(v),
            Ok(_) => Err(ExecError::TypeMismatch),
            Err(e) => Err(e),
        }
    }

    pub open spec fn peek_long(self, depth: nat) -> Result<i64, ExecError> {
        match self.peek(depth) {
            Ok(Type::Long(v)) => Ok(v),
            Ok(_) => Err(ExecError::TypeMismatch),
            Err(e) => Err(e),
        }
    }

    pub open spec fn peek_float(self, depth: nat) -> Result<u32, ExecError> {
        match self.peek(depth) {
            Ok(Type::Float(v)) => Ok(v),
            Ok(_) => Err(ExecError::TypeMismatch),
            Err(e) => Err(e),
        }
    }

    pub open spec fn peek_double(self, depth: nat) -> Result<u64, ExecError> {
        match self.peek(depth) {
            Ok(Type::Double(v)) => Ok(v),
            Ok(_) => Err(ExecError::TypeMismatch),
            Err(e) => Err(e),
        }
    }

    pub open spec fn peek_reference(self, depth: nat) -> Result<Option<HeapType>, ExecError> {
        match self.peek(depth) {
            Ok(Type::Reference(v)) => Ok(v),
            Ok(_) => Err(ExecError::TypeMismatch),
            Err(e) => Err(e),
        }
    }

    /// The value at `depth` below the top, which must be of the given kind.
    pub open spec fn peek_kind(self, depth: nat, kind: Kind) -> Result<Type, ExecError> {
        match self.peek(depth) {
            Ok(v) => if v.spec_kind() == kind {
                Ok(v)
            } else {
                Err(ExecError::TypeMismatch)
            },
            Err(e) => Err(e),
        }
    }

    /// The value in a local slot.
    pub open spec fn local(self, index: u8) -> Result<Type, ExecError> {
        if index >= self.locals.len() {
            Err(ExecError::LocalOutOfRange)
        } else {
            match self.locals[index as int] {
                None => Err(ExecError::UnsetLocal),
                Some(v) => Ok(v),
            }
        }
    }

    /// The frame with its top `n` values replaced by `values`, unless that
    /// makes the stack deeper than the method declared.
    pub open spec fn replace(self, n: nat, values: Seq<Type>) -> Result<FrameView, ExecError>
        recommends
            n <= self.stack.len(),
    {
        if self.stack.len() - n + values.len() > self.max_stack {
            Err(ExecError::StackOverflow)
        } else {
            Ok(FrameView { stack: self.stack.take(self.stack.len() - n) + values, ..self })
        }
    }

    /// The frame with its top `n` values gone.
    pub open spec fn drop(self, n: nat) -> FrameView
        recommends
            n <= self.stack.len(),
    {
        FrameView { stack: self.stack.take(self.stack.len() - n), ..self }
    }

    /// The frame with one more value on top.
    pub open spec fn pushed(self, value: Type) -> FrameView {
        FrameView { stack: self.stack.push(value), ..self }
    }

    /// The frame at the next instruction.
    pub open spec fn advance(self) -> FrameView {
        FrameView { pc: (self.pc + 1) as usize, ..self }
    }

    /// The frame at the instruction `delta` away, which must be one of the
    /// `len` instructions of the method.
    pub open spec fn jump(self, delta: int, len: nat) -> Result<FrameView, ExecError> {
        if 0 <= self.pc + delta < len {
            Ok(FrameView { pc: (self.pc + delta) as usize, ..self })
        } else {
            Err(ExecError::PcOutOfRange)
        }
    }
}

/// The step is done: go on with the next instruction.
pub open spec fn proceed(frame: FrameView, heap: HeapView) -> Result<Effect, ExecError> {
    Ok(Effect { frame: frame.advance(), heap, signal: Signal::Continue })
}

/// Replaces the top `n` values of the stack by `values` and goes on.
pub open spec fn replace_effect(f: FrameView, h: HeapView, n: nat, values: Seq<Type>) -> Result<
    Effect,
    ExecError,
> {
    match f.replace(n, values) {
        Ok(g) => proceed(g, h),
        Err(e) => Err(e),
    }
}

/// A load from a local slot: the slot must exist, be set, and hold a value
/// of the kind.
pub open spec fn load_effect(f: FrameView, h: HeapView, kind: Kind, index: u8) -> Result<
    Effect,
    ExecError,
> {
    match f.local(index) {
        Err(e) => Err(e),
        Ok(v) => if v.spec_kind() != kind {
            Err(ExecError::TypeMismatch)
        } else {
            replace_effect(f, h, 0, seq![v])
        },
    }
}

/// A store to a local slot: the top of the stack must be of the kind and the
/// slot must exist.
pub open spec fn store_effect(f: FrameView, h: HeapView, kind: Kind, index: u8) -> Result<
    Effect,
    ExecError,
> {
    match f.peek_kind(0, kind) {
        Err(e) => Err(e),
        Ok(v) => if index >= f.locals.len() {
            Err(ExecError::LocalOutOfRange)
        } else {
            proceed(FrameView { locals: f.locals.update(index as int, Some(v)), ..f.drop(1) }, h)
        },
    }
}

/// An array load: the index is on top, the array below it.
pub open spec fn array_load_effect(f: FrameView, h: HeapView, kind: ArrayKind) -> Result<
    Effect,
    ExecError,
> {
    match f.peek_int(0) {
        Err(e) => Err(e),
        Ok(index) => match f.peek_reference(1) {
            Err(e) => Err(e),
            Ok(reference) => match h.load(kind, reference, index) {
                Err(e) => Err(e),
                Ok(v) => replace_effect(f, h, 2, seq![v]),
            },
        },
    }
}

/// The kind of stack value that an array of the given kind takes and gives.
pub open spec fn spec_stack_kind(kind: ArrayKind) -> Kind {
    match kind {
        ArrayKind::Int | ArrayKind::Byte | ArrayKind::Char | ArrayKind::Short => Kind::Int,
        ArrayKind::Long => Kind::Long,
        ArrayKind::Float => Kind::Float,
        ArrayKind::Double => Kind::Double,
        ArrayKind::Reference => Kind::Reference,
    }
}

/// An array store: the value is on top, then the index, then the array.
pub open spec fn array_store_effect(f: FrameView, h: HeapView, kind: ArrayKind) -> Result<
    Effect,
    ExecError,
> {
    match f.peek_kind(0, spec_stack_kind(kind)) {
        Err(e) => Err(e),
        Ok(v) => match f.peek_int(1) {
            Err(e) => Err(e),
            Ok(index) => match f.peek_reference(2) {
                Err(e) => Err(e),
                Ok(reference) => match h.store(kind, reference, index, v) {
                    Err(e) => Err(e),
                    Ok(h2) => proceed(f.drop(3), h2),
                },
            },
        },
    }
}

/// The stack shuffles. They take values of any kind and do not tell long and
/// double values from the others. `Pop` and `Pop2` on a stack that is too
/// shallow remove what is there.
pub open spec fn shuffle_effect(f: FrameView, h: HeapView, op: Op) -> Result<Effect, ExecError> {
    let n = f.stack.len();
    match op {
        Op::Pop => proceed(f.drop(if n < 1 { 0 } else { 1 }), h),
        Op::Pop2 => proceed(f.drop(if n < 2 { n } else { 2 }), h),
        Op::Dup => if n < 1 {
            Err(ExecError::StackUnderflow)
        } else {
            replace_effect(f, h, 0, seq![f.stack[n - 1]])
        },
        Op::DupX1 => if n < 2 {
            Err(ExecError::StackUnderflow)
        } else {
            replace_effect(f, h, 2, seq![f.stack[n - 1], f.stack[n - 2], f.stack[n - 1]])
        },
        Op::DupX2 => if n < 2 {
            Err(ExecError::StackUnderflow)
        } else if n < 3 {
            replace_effect(f, h, 2, seq![f.stack[n - 1], f.stack[n - 2], f.stack[n - 1]])
        } else {
            replace_effect(
                f,
                h,
                3,
                seq![f.stack[n - 1], f.stack[n - 3], f.stack[n - 2], f.stack[n - 1]],
            )
        },
        Op::Dup2 => if n < 1 {
            Err(ExecError::StackUnderflow)
        } else if n < 2 {
            replace_effect(f, h, 1, seq![f.stack[n - 1], f.stack[n - 1]])
        } else {
            replace_effect(
                f,
                h,
                2,
                seq![f.stack[n - 2], f.stack[n - 1], f.stack[n - 2], f.stack[n - 1]],
            )
        },
        Op::Swap => if n < 2 {
            Err(ExecError::StackUnderflow)
        } else {
            replace_effect(f, h, 2, seq![f.stack[n - 1], f.stack[n - 2]])
        },
        _ => Err(ExecError::Unimplemented),
    }
}

/// An operation on two ints: the right operand is on top.
pub open spec fn int_arith_effect(f: FrameView, h: HeapView, op: IntOp) -> Result<Effect, ExecError> {
    match f.peek_int(0) {
        Err(e) => Err(e),
        Ok(b) => match f.peek_int(1) {
            Err(e) => Err(e),
            Ok(a) => match int_op(op, a, b) {
                Err(e) => Err(e),
                Ok(v) => replace_effect(f, h, 2, seq![Type::Int(v)]),
            },
        },
    }
}

/// Whether the operation is a shift.
pub open spec fn spec_is_shift(op: IntOp) -> bool {
    op == IntOp::Shl || op == IntOp::Shr || op == IntOp::Ushr
}

/// An operation on longs: the right operand is on top. A shift takes an int
/// amount from the top and the long below it.
pub open spec fn long_arith_effect(f: FrameView, h: HeapView, op: IntOp) -> Result<Effect, ExecError> {
    if spec_is_shift(op) {
        match f.peek_int(0) {
            Err(e) => Err(e),
            Ok(amount) => match f.peek_long(1) {
                Err(e) => Err(e),
                Ok(a) => match long_shift(op, a, amount) {
                    Err(e) => Err(e),
                    Ok(v) => replace_effect(f, h, 2, seq![Type::Long(v)]),
                },
            },
        }
    } else {
        match f.peek_long(0) {
            Err(e) => Err(e),
            Ok(b) => match f.peek_long(1) {
                Err(e) => Err(e),
                Ok(a) => match long_op(op, a, b) {
                    Err(e) => Err(e),
                    Ok(v) => replace_effect(f, h, 2, seq![Type::Long(v)]),
                },
            },
        }
    }
}

/// A negation. Integers wrap around; a floating-point number has its sign
/// flipped.
pub open spec fn negate_effect(f: FrameView, h: HeapView, kind: Kind) -> Result<Effect, ExecError> {
    match f.peek_kind(0, kind) {
        Err(e) => Err(e),
        Ok(v) => match v {
            Type::Int(a) => replace_effect(f, h, 1, seq![Type::Int(wrap32(-a))]),
            Type::Long(a) => replace_effect(f, h, 1, seq![Type::Long(wrap64(-a))]),
            Type::Float(a) => replace_effect(f, h, 1, seq![Type::Float(flip_sign32(a))]),
            Type::Double(a) => replace_effect(f, h, 1, seq![Type::Double(flip_sign64(a))]),
            _ => Err(ExecError::TypeMismatch),
        },
    }
}

/// An increment of a local int by a constant, wrapping around.
pub open spec fn increment_effect(f: FrameView, h: HeapView, index: u8, constant: i8) -> Result<
    Effect,
    ExecError,
> {
    match f.local(index) {
        Err(e) => Err(e),
        Ok(Type::Int(v)) => proceed(
            FrameView {
                locals: f.locals.update(index as int, Some(Type::Int(wrap32(v + constant)))),
                ..f
            },
            h,
        ),
        Ok(_) => Err(ExecError::TypeMismatch),
    }
}

/// Whether the conversion goes from or to a floating-point kind.
pub open spec fn spec_is_float_conversion(c: Conversion) -> bool {
    !(c == Conversion::I2l || c == Conversion::L2i || c == Conversion::I2b || c == Conversion::I2c
        || c == Conversion::I2s)
}

/// The kind of value that a conversion takes.
pub open spec fn spec_source_kind(c: Conversion) -> Kind {
    match c {
        Conversion::I2l | Conversion::I2f | Conversion::I2d | Conversion::I2b | Conversion::I2c
        | Conversion::I2s => Kind::Int,
        Conversion::L2i | Conversion::L2f | Conversion::L2d => Kind::Long,
        Conversion::F2i | Conversion::F2l | Conversion::F2d => Kind::Float,
        Conversion::D2i | Conversion::D2l | Conversion::D2f => Kind::Double,
    }
}

/// The floating-point computation that an instruction of the family asks
/// for, once its operands are seen to be there; `None` for a family that
/// asks for none.
pub open spec fn float_request(op: Op, f: FrameView) -> Result<Option<FloatRequest>, ExecError> {
    match op {
        Op::FloatArith(o) => match f.peek_float(0) {
            Err(e) => Err(e),
            Ok(b) => match f.peek_float(1) {
                Err(e) => Err(e),
                Ok(a) => Ok(Some(FloatRequest::Float(o, a, b))),
            },
        },
        Op::DoubleArith(o) => match f.peek_double(0) {
            Err(e) => Err(e),
            Ok(b) => match f.peek_double(1) {
                Err(e) => Err(e),
                Ok(a) => Ok(Some(FloatRequest::Double(o, a, b))),
            },
        },
        Op::Convert(c) => if spec_is_float_conversion(c) {
            match f.peek_kind(0, spec_source_kind(c)) {
                Err(e) => Err(e),
                Ok(v) => Ok(Some(FloatRequest::Convert(c, v))),
            }
        } else {
            Ok(None)
        },
        _ => Ok(None),
    }
}

/// An instruction that needs a floating-point computation: the request goes
/// out and nothing changes.
pub open spec fn float_effect(f: FrameView, h: HeapView, op: Op) -> Result<Effect, ExecError> {
    match float_request(op, f) {
        Err(e) => Err(e),
        Ok(Some(request)) => Ok(Effect { frame: f, heap: h, signal: Signal::Float(request) }),
        Ok(None) => Err(ExecError::NothingPending),
    }
}

/// A conversion between integer kinds. Narrowing keeps the low bits: 32 of
/// a long, 8 or 16 of an int. `I2b` and `I2s` read them as a signed number,
/// `I2c` reads the low 8 bits as an unsigned one.
pub open spec fn convert_effect(f: FrameView, h: HeapView, c: Conversion) -> Result<Effect, ExecError> {
    match c {
        Conversion::I2l => match f.peek_int(0) {
            Err(e) => Err(e),
            Ok(a) => replace_effect(f, h, 1, seq![Type::Long(a as i64)]),
        },
        Conversion::L2i => match f.peek_long(0) {
            Err(e) => Err(e),
            Ok(a) => replace_effect(f, h, 1, seq![Type::Int(wrap32(a as int))]),
        },
        Conversion::I2b => match f.peek_int(0) {
            Err(e) => Err(e),
            Ok(a) => replace_effect(f, h, 1, seq![Type::Int(low_byte(a) as i32)]),
        },
        Conversion::I2c => match f.peek_int(0) {
            Err(e) => Err(e),
            Ok(a) => replace_effect(f, h, 1, seq![Type::Int(low_eight(a))]),
        },
        Conversion::I2s => match f.peek_int(0) {
            Err(e) => Err(e),
            Ok(a) => replace_effect(f, h, 1, seq![Type::Int(low_short(a) as i32)]),
        },
        _ => float_effect(f, h, Op::Convert(c)),
    }
}

/// The comparison of two longs: the right operand is on top.
pub open spec fn compare_long_effect(f: FrameView, h: HeapView) -> Result<Effect, ExecError> {
    match f.peek_long(0) {
        Err(e) => Err(e),
        Ok(b) => match f.peek_long(1) {
            Err(e) => Err(e),
            Ok(a) => replace_effect(f, h, 2, seq![Type::Int(compare_long(a, b))]),
        },
    }
}

/// A branch that is taken or not: taken, the program counter moves by
/// `delta` instructions; not taken, to the next instruction.
pub open spec fn branch_effect(f: FrameView, h: HeapView, taken: bool, delta: int, len: nat) -> Result<
    Effect,
    ExecError,
> {
    if taken {
        match f.jump(delta, len) {
            Err(e) => Err(e),
            Ok(g) => Ok(Effect { frame: g, heap: h, signal: Signal::Continue }),
        }
    } else {
        proceed(f, h)
    }
}

/// A branch on the int on top of the stack against zero.
pub open spec fn if_effect(f: FrameView, h: HeapView, c: Condition, delta: i16, len: nat) -> Result<
    Effect,
    ExecError,
> {
    match f.peek_int(0) {
        Err(e) => Err(e),
        Ok(v) => branch_effect(f.drop(1), h, c.spec_holds(v, 0), delta as int, len),
    }
}

/// A branch on the two ints on top of the stack: the right one is on top.
pub open spec fn if_int_effect(f: FrameView, h: HeapView, c: Condition, delta: i16, len: nat) -> Result<
    Effect,
    ExecError,
> {
    match f.peek_int(0) {
        Err(e) => Err(e),
        Ok(b) => match f.peek_int(1) {
            Err(e) => Err(e),
            Ok(a) => branch_effect(f.drop(2), h, c.spec_holds(a, b), delta as int, len),
        },
    }
}

/// A branch on whether the two references on top of the stack denote the
/// same entity.
pub open spec fn if_reference_effect(
    f: FrameView,
    h: HeapView,
    equal: bool,
    delta: i16,
    len: nat,
) -> Result<Effect, ExecError> {
    match f.peek_reference(0) {
        Err(e) => Err(e),
        Ok(b) => match f.peek_reference(1) {
            Err(e) => Err(e),
            Ok(a) => branch_effect(f.drop(2), h, same_entity(a, b) == equal, delta as int, len),
        },
    }
}

/// A return with a value: the value is popped and the invocation ends.
pub open spec fn return_effect(f: FrameView, h: HeapView, kind: Kind) -> Result<Effect, ExecError> {
    match f.peek_kind(0, kind) {
        Err(e) => Err(e),
        Ok(v) => Ok(Effect { frame: f.drop(1), heap: h, signal: Signal::Return(Some(v)) }),
    }
}

/// An access to a static field: the class is looked up by name in the class
/// table, the field by its key among the class's static fields. Beyond
/// that lookup the access has no execution rule.
pub open spec fn static_effect(classes: Map<Seq<char>, ClassStatics>, fieldref: &Fieldref) -> Result<
    Effect,
    ExecError,
> {
    if !classes.contains_key(fieldref.class.name@) {
        Err(ExecError::UnresolvedClass)
    } else if !classes[fieldref.class.name@].fields@.contains_key(fieldref.name_and_type.key()) {
        Err(ExecError::UnresolvedMember)
    } else {
        Err(ExecError::Unimplemented)
    }
}

pub open spec fn put_static_effect(
    f: FrameView,
    classes: Map<Seq<char>, ClassStatics>,
    fieldref: &Fieldref,
) -> Result<Effect, ExecError> {
    match f.peek(0) {
        Err(e) => Err(e),
        Ok(_) => static_effect(classes, fieldref),
    }
}

/// An access to a field of the object whose reference lies at `depth`: the
/// field is looked up by its key in the object itself. Beyond that lookup
/// the access has no execution rule.
pub open spec fn field_effect(f: FrameView, h: HeapView, depth: nat, fieldref: &Fieldref) -> Result<
    Effect,
    ExecError,
> {
    match f.peek_reference(depth) {
        Err(e) => Err(e),
        Ok(None) => Err(ExecError::NullPointer),
        Ok(Some(HeapType::Class(id))) => if id >= h.objects.len() {
            Err(ExecError::DanglingReference)
        } else if !h.objects[id as int].contains_key(fieldref.name_and_type.key()) {
            Err(ExecError::UnresolvedMember)
        } else {
            Err(ExecError::Unimplemented)
        },
        Ok(Some(_)) => Err(ExecError::TypeMismatch),
    }
}

pub open spec fn put_field_effect(f: FrameView, h: HeapView, fieldref: &Fieldref) -> Result<
    Effect,
    ExecError,
> {
    match f.peek(0) {
        Err(e) => Err(e),
        Ok(_) => field_effect(f, h, 1, fieldref),
    }
}

/// The creation of an object: the class is looked up by name, a fresh object
/// with every field unset is added to the heap, and the reference to it is
/// pushed.
pub open spec fn new_effect(
    f: FrameView,
    h: HeapView,
    classes: Map<Seq<char>, ClassStatics>,
    class: &Class,
) -> Result<Effect, ExecError> {
    if !classes.contains_key(class.name@) {
        Err(ExecError::UnresolvedClass)
    } else {
        replace_effect(
            f,
            h.with_object(unset_fields(classes[class.name@].dynamic.fields@)),
            0,
            seq![Type::Reference(Some(HeapType::Class(h.objects.len() as usize)))],
        )
    }
}

/// The element kind that a type code of an array creation selects.
pub open spec fn spec_array_kind(atype: u8) -> Option<ArrayKind> {
    if atype == 4 {
        Some(ArrayKind::Byte)
    } else if atype == 5 {
        Some(ArrayKind::Char)
    } else if atype == 6 {
        Some(ArrayKind::Float)
    } else if atype == 7 {
        Some(ArrayKind::Double)
    } else if atype == 8 {
        Some(ArrayKind::Byte)
    } else if atype == 9 {
        Some(ArrayKind::Short)
    } else if atype == 10 {
        Some(ArrayKind::Int)
    } else if atype == 11 {
        Some(ArrayKind::Long)
    } else {
        None
    }
}

/// The creation of an array: the length is popped, an array of that many
/// zeros is added to the heap, and the reference to it is pushed. Arrays of
/// booleans are arrays of bytes.
pub open spec fn new_array_effect(f: FrameView, h: HeapView, atype: u8) -> Result<Effect, ExecError> {
    match f.peek_int(0) {
        Err(e) => Err(e),
        Ok(count) => match spec_array_kind(atype) {
            None => Err(ExecError::Unimplemented),
            Some(kind) => if count < 0 {
                Err(ExecError::NegativeArraySize)
            } else {
                replace_effect(
                    f,
                    h.with_array(kind, count as nat),
                    1,
                    seq![Type::Reference(Some(h.next_array(kind)))],
                )
            },
        },
    }
}

/// What an instruction of the given family does to a frame and a heap.
/// `len` is the number of instructions of the method.
pub open spec fn op_effect(
    op: Op,
    f: FrameView,
    h: HeapView,
    classes: Map<Seq<char>, ClassStatics>,
    len: nat,
) -> Result<Effect, ExecError> {
    match op {
        Op::Nop => proceed(f, h),
        Op::Push(v) => replace_effect(f, h, 0, seq![v]),
        Op::Load(kind, index) => load_effect(f, h, kind, index),
        Op::Store(kind, index) => store_effect(f, h, kind, index),
        Op::ArrayLoad(kind) => array_load_effect(f, h, kind),
        Op::ArrayStore(kind) => array_store_effect(f, h, kind),
        Op::Pop | Op::Pop2 | Op::Dup | Op::DupX1 | Op::DupX2 | Op::Dup2 | Op::Swap => shuffle_effect(
            f,
            h,
            op,
        ),
        Op::IntArith(o) => int_arith_effect(f, h, o),
        Op::LongArith(o) => long_arith_effect(f, h, o),
        Op::FloatArith(_) | Op::DoubleArith(_) => float_effect(f, h, op),
        Op::Negate(kind) => negate_effect(f, h, kind),
        Op::Increment(index, constant) => increment_effect(f, h, index, constant),
        Op::Convert(c) => convert_effect(f, h, c),
        Op::CompareLong => compare_long_effect(f, h),
        Op::If(c, delta) => if_effect(f, h, c, delta, len),
        Op::IfInt(c, delta) => if_int_effect(f, h, c, delta, len),
        Op::IfReference(equal, delta) => if_reference_effect(f, h, equal, delta, len),
        Op::Goto(delta) => branch_effect(f, h, true, delta as int, len),
        Op::ReturnValue(kind) => return_effect(f, h, kind),
        Op::ReturnVoid => Ok(Effect { frame: f, heap: h, signal: Signal::Return(None) }),
        Op::GetStatic(fieldref) => static_effect(classes, fieldref),
        Op::PutStatic(fieldref) => put_static_effect(f, classes, fieldref),
        Op::GetField(fieldref) => field_effect(f, h, 0, fieldref),
        Op::PutField(fieldref) => put_field_effect(f, h, fieldref),
        Op::New(class) => new_effect(f, h, classes, class),
        Op::NewArray(atype) => new_array_effect(f, h, atype),
        Op::Unimplemented => Err(ExecError::Unimplemented),
    }
}

/// One step: the instruction at the program counter is fetched and applied.
pub open spec fn step_effect(
    code: Seq<Instructions>,
    f: FrameView,
    h: HeapView,
    classes: Map<Seq<char>, ClassStatics>,
) -> Result<Effect, ExecError> {
    if f.pc >= code.len() {
        Err(ExecError::PcOutOfRange)
    } else {
        op_effect(op_of(&code[f.pc as int]), f, h, classes, code.len())
    }
}

/// Up to `fuel` steps: the run ends with the first step that does not say
/// `Continue`, or with `Continue` when the fuel is used up.
pub open spec fn run_effect(
    code: Seq<Instructions>,
    f: FrameView,
    h: HeapView,
    classes: Map<Seq<char>, ClassStatics>,
    fuel: nat,
) -> (Result<Signal, ExecError>, FrameView, HeapView)
    decreases fuel,
{
    if fuel == 0 {
        (Ok(Signal::Continue), f, h)
    } else {
        match step_effect(code, f, h, classes) {
            Err(e) => (Err(e), f, h),
            Ok(effect) => if effect.signal == Signal::Continue {
                run_effect(code, effect.frame, effect.heap, classes, (fuel - 1) as nat)
            } else {
                (Ok(effect.signal), effect.frame, effect.heap)
            },
        }
    }
}

/// The frame after the host has handed in the result of the floating-point
/// computation that the instruction at the program counter asked for: the
/// operands are replaced by the result and the next instruction is up.
pub open spec fn resume_effect(code: Seq<Instructions>, f: FrameView, result: Type) -> Result<
    FrameView,
    ExecError,
> {
    if f.pc >= code.len() {
        Err(ExecError::PcOutOfRange)
    } else {
        match float_request(op_of(&code[f.pc as int]), f) {
            Err(e) => Err(e),
            Ok(None) => Err(ExecError::NothingPending),
            Ok(Some(request)) => if result.spec_kind() != request.spec_result_kind() {
                Err(ExecError::TypeMismatch)
            } else {
                match f.replace(request.spec_arity() as nat, seq![result]) {
                    Err(e) => Err(e),
                    Ok(g) => Ok(g.advance()),
                }
            },
        }
    }
}

/// The outcome `r` of a step, with the frame and heap it left, is what
/// `expected` says; after an error frame and heap are as before.
pub open spec fn realizes(
    r: Result<Signal, ExecError>,
    expected: Result<Effect, ExecError>,
    f0: FrameView,
    h0: HeapView,
    f1: FrameView,
    h1: HeapView,
) -> bool {
    match r {
        Ok(signal) => expected == Ok::<Effect, ExecError>(Effect { frame: f1, heap: h1, signal }),
        Err(e) => expected == Err::<Effect, ExecError>(e) && f1 == f0 && h1 == h0,
    }
}


/// The kind of stack value that an array of the given kind takes and gives.
#[verifier::when_used_as_spec(spec_stack_kind)]
pub fn stack_kind(kind: ArrayKind) -> (r: Kind)
    ensures
        r == spec_stack_kind(kind),
{
    match kind {
        ArrayKind::Int | ArrayKind::Byte | ArrayKind::Char | ArrayKind::Short => Kind::Int,
        ArrayKind::Long => Kind::Long,
        ArrayKind::Float => Kind::Float,
        ArrayKind::Double => Kind::Double,
        ArrayKind::Reference => Kind::Reference,
    }
}

/// The element kind that a type code of an array creation selects.
#[verifier::when_used_as_spec(spec_array_kind)]
pub fn array_kind(atype: u8) -> (r: Option<ArrayKind>)
    ensures
        r == spec_array_kind(atype),
{
    if atype == 4 {
        Some(ArrayKind::Byte)
    } else if atype == 5 {
        Some(ArrayKind::Char)
    } else if atype == 6 {
        Some(ArrayKind::Float)
    } else if atype == 7 {
        Some(ArrayKind::Double)
    } else if atype == 8 {
        Some(ArrayKind::Byte)
    } else if atype == 9 {
        Some(ArrayKind::Short)
    } else if atype == 10 {
        Some(ArrayKind::Int)
    } else if atype == 11 {
        Some(ArrayKind::Long)
    } else {
        None
    }
}

/// Whether the operation is a shift.
#[verifier::when_used_as_spec(spec_is_shift)]
pub fn is_shift(op: IntOp) -> (r: bool)
    ensures
        r == spec_is_shift(op),
{
    match op {
        IntOp::Shl | IntOp::Shr | IntOp::Ushr => true,
        _ => false,
    }
}

/// Whether the conversion goes from or to a floating-point kind.
#[verifier::when_used_as_spec(spec_is_float_conversion)]
pub fn is_float_conversion(c: Conversion) -> (r: bool)
    ensures
        r == spec_is_float_conversion(c),
{
    match c {
        Conversion::I2l | Conversion::L2i | Conversion::I2b | Conversion::I2c | Conversion::I2s => false,
        _ => true,
    }
}

/// The kind of value that a conversion takes.
#[verifier::when_used_as_spec(spec_source_kind)]
pub fn source_kind(c: Conversion) -> (r: Kind)
    ensures
        r == spec_source_kind(c),
{
    match c {
        Conversion::I2l | Conversion::I2f | Conversion::I2d | Conversion::I2b | Conversion::I2c
        | Conversion::I2s => Kind::Int,
        Conversion::L2i | Conversion::L2f | Conversion::L2d => Kind::Long,
        Conversion::F2i | Conversion::F2l | Conversion::F2d => Kind::Float,
        Conversion::D2i | Conversion::D2l | Conversion::D2f => Kind::Double,
    }
}

impl Frame {
    /// The frame of a fresh invocation of a method that declares the given
    /// stack depth and number of local slots.
    pub fn new(max_stack: u16, max_locals: u16) -> (r: Frame)
        ensures
            r@ == FrameView::fresh(max_stack, max_locals),
    {
        let mut locals: Vec<Option<Type>> = Vec::new();
        let mut i: u16 = 0;
        while i < max_locals
            invariant
                i <= max_locals,
                locals@ =~= Seq::new(i as nat, |j: int| None::<Type>),
            decreases max_locals - i,
        {
            locals.push(None);
            i += 1;
        }
        let r = Frame { pc: 0, stack: Vec::new(), locals, max_stack: max_stack as usize };
        assert(r@.stack =~= Seq::empty());
        r
    }

    /// The value at `depth` below the top of the stack.
    pub fn peek(&self, depth: usize) -> (r: Result<Type, ExecError>)
        ensures
            r == self@.peek(depth as nat),
    {
        let n = self.stack.len();
        if n <= depth {
            Err(ExecError::StackUnderflow)
        } else {
            Ok(self.stack[n - 1 - depth])
        }
    }

    fn peek_int(&self, depth: usize) -> (r: Result<i32, ExecError>)
        ensures
            r == self@.peek_int(depth as nat),
    {
        match self.peek(depth)? {
            Type::Int(v) => Ok(v),
            _ => Err(ExecError::TypeMismatch),
        }
    }

    fn peek_long(&self, depth: usize) -> (r: Result<i64, ExecError>)
        ensures
            r == self@.peek_long(depth as nat),
    {
        match self.peek(depth)? {
            Type::Long(v) => Ok(v),
            _ => Err(ExecError::TypeMismatch),
        }
    }

    fn peek_float(&self, depth: usize) -> (r: Result<u32, ExecError>)
        ensures
            r == self@.peek_float(depth as nat),
    {
        match self.peek(depth)? {
            Type::Float(v) => Ok(v),
            _ => Err(ExecError::TypeMismatch),
        }
    }

    fn peek_double(&self, depth: usize) -> (r: Result<u64, ExecError>)
        ensures
            r == self@.peek_double(depth as nat),
    {
        match self.peek(depth)? {
            Type::Double(v) => Ok(v),
            _ => Err(ExecError::TypeMismatch),
        }
    }

    fn peek_reference(&self, depth: usize) -> (r: Result<Option<HeapType>, ExecError>)
        ensures
            r == self@.peek_reference(depth as nat),
    {
        match self.peek(depth)? {
            Type::Reference(v) => Ok(v),
            _ => Err(ExecError::TypeMismatch),
        }
    }

    fn peek_kind(&self, depth: usize, kind: Kind) -> (r: Result<Type, ExecError>)
        ensures
            r == self@.peek_kind(depth as nat, kind),
    {
        let v = self.peek(depth)?;
        if v.is_kind(kind) {
            Ok(v)
        } else {
            Err(ExecError::TypeMismatch)
        }
    }

    /// The value in a local slot.
    pub fn local(&self, index: u8) -> (r: Result<Type, ExecError>)
        ensures
            r == self@.local(index),
    {
        if index as usize >= self.locals.len() {
            Err(ExecError::LocalOutOfRange)
        } else {
            match self.locals[index as usize] {
                None => Err(ExecError::UnsetLocal),
                Some(v) => Ok(v),
            }
        }
    }

    /// Removes the top `n` values.
    fn drop(&mut self, n: usize)
        requires
            n <= old(self).stack@.len(),
        ensures
            final(self)@ == old(self)@.drop(n as nat),
    {
        let keep = self.stack.len() - n;
        self.stack.truncate(keep);
        assert(self@.stack =~= old(self)@.stack.take(keep as int));
    }

    /// Replaces the top `n` values by `values`.
    fn replace(&mut self, n: usize, values: Vec<Type>) -> (r: Result<(), ExecError>)
        requires
            n <= old(self).stack@.len(),
        ensures
            match r {
                Ok(()) => old(self)@.replace(n as nat, values@) == Ok::<FrameView, ExecError>(
                    final(self)@,
                ),
                Err(e) => old(self)@.replace(n as nat, values@) == Err::<FrameView, ExecError>(e)
                    && final(self)@ == old(self)@,
            },
    {
        let keep = self.stack.len() - n;
        if values.len() > self.max_stack || keep > self.max_stack - values.len() {
            return Err(ExecError::StackOverflow);
        }
        self.stack.truncate(keep);
        let ghost base = old(self)@.stack.take(keep as int);
        assert(self.stack@ =~= base);
        let mut i: usize = 0;
        while i < values.len()
            invariant
                i <= values.len(),
                self.stack@ =~= base + values@.take(i as int),
                self.pc == old(self).pc,
                self.locals == old(self).locals,
                self.max_stack == old(self).max_stack,
            decreases values.len() - i,
        {
            self.stack.push(values[i]);
            i += 1;
        }
        assert(values@.take(values.len() as int) =~= values@);
        assert(self@.stack =~= base + values@);
        Ok(())
    }

    /// Moves to the next instruction.
    fn advance(&mut self)
        requires
            old(self).pc < usize::MAX,
        ensures
            final(self)@ == old(self)@.advance(),
    {
        self.pc = self.pc + 1;
    }

    /// Replaces the top `n` values by `values` and moves to the next
    /// instruction.
    fn finish(&mut self, Ghost(h): Ghost<HeapView>, n: usize, values: Vec<Type>) -> (r: Result<
        Signal,
        ExecError,
    >)
        requires
            n <= old(self).stack@.len(),
            old(self).pc < usize::MAX,
        ensures
            realizes(r, replace_effect(old(self)@, h, n as nat, values@), old(self)@, h, final(self)@, h),
    {
        self.replace(n, values)?;
        self.advance();
        Ok(Signal::Continue)
    }

    /// Replaces the top `n` values by `value` and moves to the next
    /// instruction.
    fn finish_one(&mut self, Ghost(h): Ghost<HeapView>, n: usize, value: Type) -> (r: Result<
        Signal,
        ExecError,
    >)
        requires
            n <= old(self).stack@.len(),
            old(self).pc < usize::MAX,
        ensures
            realizes(
                r,
                replace_effect(old(self)@, h, n as nat, seq![value]),
                old(self)@,
                h,
                final(self)@,
                h,
            ),
    {
        let values = vec![value];
        assert(values@ =~= seq![value]);
        self.finish(Ghost(h), n, values)
    }

    /// Takes or does not take a branch.
    fn branch(&mut self, Ghost(h): Ghost<HeapView>, taken: bool, delta: i16, len: usize) -> (r: Result<
        Signal,
        ExecError,
    >)
        requires
            old(self).pc < len,
        ensures
            realizes(
                r,
                branch_effect(old(self)@, h, taken, delta as int, len as nat),
                old(self)@,
                h,
                final(self)@,
                h,
            ),
    {
        if taken {
            let target: i128 = self.pc as i128 + delta as i128;
            if target < 0 || target >= len as i128 {
                return Err(ExecError::PcOutOfRange);
            }
            self.pc = target as usize;
            Ok(Signal::Continue)
        } else {
            self.advance();
            Ok(Signal::Continue)
        }
    }

    fn do_load(&mut self, Ghost(h): Ghost<HeapView>, kind: Kind, index: u8) -> (r: Result<
        Signal,
        ExecError,
    >)
        requires
            old(self).pc < usize::MAX,
        ensures
            realizes(r, load_effect(old(self)@, h, kind, index), old(self)@, h, final(self)@, h),
    {
        let v = self.local(index)?;
        if !v.is_kind(kind) {
            return Err(ExecError::TypeMismatch);
        }
        self.finish_one(Ghost(h), 0, v)
    }

    fn do_store(&mut self, Ghost(h): Ghost<HeapView>, kind: Kind, index: u8) -> (r: Result<
        Signal,
        ExecError,
    >)
        requires
            old(self).pc < usize::MAX,
        ensures
            realizes(r, store_effect(old(self)@, h, kind, index), old(self)@, h, final(self)@, h),
    {
        let v = self.peek_kind(0, kind)?;
        if index as usize >= self.locals.len() {
            return Err(ExecError::LocalOutOfRange);
        }
        self.drop(1);
        self.locals.set(index as usize, Some(v));
        self.advance();
        Ok(Signal::Continue)
    }

    fn do_array_load(&mut self, heap: &Heap, kind: ArrayKind) -> (r: Result<Signal, ExecError>)
        requires
            old(self).pc < usize::MAX,
        ensures
            realizes(
                r,
                array_load_effect(old(self)@, heap@, kind),
                old(self)@,
                heap@,
                final(self)@,
                heap@,
            ),
    {
        let index = self.peek_int(0)?;
        let reference = self.peek_reference(1)?;
        let v = heap.load(kind, reference, index)?;
        self.finish_one(Ghost(heap@), 2, v)
    }

    fn do_array_store(&mut self, heap: &mut Heap, kind: ArrayKind) -> (r: Result<Signal, ExecError>)
        requires
            old(self).pc < usize::MAX,
        ensures
            realizes(
                r,
                array_store_effect(old(self)@, old(heap)@, kind),
                old(self)@,
                old(heap)@,
                final(self)@,
                final(heap)@,
            ),
    {
        let v = self.peek_kind(0, stack_kind(kind))?;
        let index = self.peek_int(1)?;
        let reference = self.peek_reference(2)?;
        heap.store(kind, reference, index, v)?;
        self.drop(3);
        self.advance();
        Ok(Signal::Continue)
    }

    fn do_shuffle(&mut self, Ghost(h): Ghost<HeapView>, op: Op) -> (r: Result<Signal, ExecError>)
        requires
            old(self).pc < usize::MAX,
        ensures
            realizes(r, shuffle_effect(old(self)@, h, op), old(self)@, h, final(self)@, h),
    {
        let n = self.stack.len();
        match op {
            Op::Pop => {
                self.drop(if n < 1 { 0 } else { 1 });
                self.advance();
                Ok(Signal::Continue)
            },
            Op::Pop2 => {
                self.drop(if n < 2 { n } else { 2 });
                self.advance();
                Ok(Signal::Continue)
            },
            Op::Dup => {
                if n < 1 {
                    return Err(ExecError::StackUnderflow);
                }
                let v1 = self.stack[n - 1];
                self.finish_one(Ghost(h), 0, v1)
            },
            Op::DupX1 => {
                if n < 2 {
                    return Err(ExecError::StackUnderflow);
                }
                let v1 = self.stack[n - 1];
                let v2 = self.stack[n - 2];
                let values = vec![v1, v2, v1];
                assert(values@ =~= seq![v1, v2, v1]);
                self.finish(Ghost(h), 2, values)
            },
            Op::DupX2 => {
                if n < 2 {
                    return Err(ExecError::StackUnderflow);
                }
                let v1 = self.stack[n - 1];
                let v2 = self.stack[n - 2];
                if n < 3 {
                    let values = vec![v1, v2, v1];
                    assert(values@ =~= seq![v1, v2, v1]);
                    self.finish(Ghost(h), 2, values)
                } else {
                    let v3 = self.stack[n - 3];
                    let values = vec![v1, v3, v2, v1];
                    assert(values@ =~= seq![v1, v3, v2, v1]);
                    self.finish(Ghost(h), 3, values)
                }
            },
            Op::Dup2 => {
                if n < 1 {
                    return Err(ExecError::StackUnderflow);
                }
                let v1 = self.stack[n - 1];
                if n < 2 {
                    let values = vec![v1, v1];
                    assert(values@ =~= seq![v1, v1]);
                    self.finish(Ghost(h), 1, values)
                } else {
                    let v2 = self.stack[n - 2];
                    let values = vec![v2, v1, v2, v1];
                    assert(values@ =~= seq![v2, v1, v2, v1]);
                    self.finish(Ghost(h), 2, values)
                }
            },
            Op::Swap => {
                if n < 2 {
                    return Err(ExecError::StackUnderflow);
                }
                let v1 = self.stack[n - 1];
                let v2 = self.stack[n - 2];
                let values = vec![v1, v2];
                assert(values@ =~= seq![v1, v2]);
                self.finish(Ghost(h), 2, values)
            },
            _ => Err(ExecError::Unimplemented),
        }
    }

    fn do_int_arith(&mut self, Ghost(h): Ghost<HeapView>, op: IntOp) -> (r: Result<Signal, ExecError>)
        requires
            old(self).pc < usize::MAX,
        ensures
            realizes(r, int_arith_effect(old(self)@, h, op), old(self)@, h, final(self)@, h),
    {
        let b = self.peek_int(0)?;
        let a = self.peek_int(1)?;
        let v = apply_int_op(op, a, b)?;
        self.finish_one(Ghost(h), 2, Type::Int(v))
    }

    fn do_long_arith(&mut self, Ghost(h): Ghost<HeapView>, op: IntOp) -> (r: Result<Signal, ExecError>)
        requires
            old(self).pc < usize::MAX,
        ensures
            realizes(r, long_arith_effect(old(self)@, h, op), old(self)@, h, final(self)@, h),
    {
        if is_shift(op) {
            let amount = self.peek_int(0)?;
            let a = self.peek_long(1)?;
            let v = apply_long_shift(op, a, amount)?;
            self.finish_one(Ghost(h), 2, Type::Long(v))
        } else {
            let b = self.peek_long(0)?;
            let a = self.peek_long(1)?;
            let v = apply_long_op(op, a, b)?;
            self.finish_one(Ghost(h), 2, Type::Long(v))
        }
    }

    fn do_negate(&mut self, Ghost(h): Ghost<HeapView>, kind: Kind) -> (r: Result<Signal, ExecError>)
        requires
            old(self).pc < usize::MAX,
        ensures
            realizes(r, negate_effect(old(self)@, h, kind), old(self)@, h, final(self)@, h),
    {
        match self.peek_kind(0, kind)? {
            Type::Int(a) => self.finish_one(Ghost(h), 1, Type::Int(negate_int(a))),
            Type::Long(a) => self.finish_one(Ghost(h), 1, Type::Long(negate_long(a))),
            Type::Float(a) => self.finish_one(Ghost(h), 1, Type::Float(negate_float(a))),
            Type::Double(a) => self.finish_one(Ghost(h), 1, Type::Double(negate_double(a))),
            _ => Err(ExecError::TypeMismatch),
        }
    }

    fn do_increment(&mut self, Ghost(h): Ghost<HeapView>, index: u8, constant: i8) -> (r: Result<
        Signal,
        ExecError,
    >)
        requires
            old(self).pc < usize::MAX,
        ensures
            realizes(
                r,
                increment_effect(old(self)@, h, index, constant),
                old(self)@,
                h,
                final(self)@,
                h,
            ),
    {
        match self.local(index)? {
            Type::Int(v) => {
                let sum = v.wrapping_add(constant as i32);
                assert(sum == wrap32(v + constant));
                self.locals.set(index as usize, Some(Type::Int(sum)));
                self.advance();
                Ok(Signal::Continue)
            },
            _ => Err(ExecError::TypeMismatch),
        }
    }

    /// The floating-point computation that the family asks for.
    fn request(&self, op: Op) -> (r: Result<Option<FloatRequest>, ExecError>)
        ensures
            r == float_request(op, self@),
    {
        match op {
            Op::FloatArith(o) => {
                let b = self.peek_float(0)?;
                let a = self.peek_float(1)?;
                Ok(Some(FloatRequest::Float(o, a, b)))
            },
            Op::DoubleArith(o) => {
                let b = self.peek_double(0)?;
                let a = self.peek_double(1)?;
                Ok(Some(FloatRequest::Double(o, a, b)))
            },
            Op::Convert(c) => {
                if is_float_conversion(c) {
                    let v = self.peek_kind(0, source_kind(c))?;
                    Ok(Some(FloatRequest::Convert(c, v)))
                } else {
                    Ok(None)
                }
            },
            _ => Ok(None),
        }
    }

    fn do_float(&self, Ghost(h): Ghost<HeapView>, op: Op) -> (r: Result<Signal, ExecError>)
        ensures
            realizes(r, float_effect(self@, h, op), self@, h, self@, h),
    {
        match self.request(op)? {
            Some(request) => Ok(Signal::Float(request)),
            None => Err(ExecError::NothingPending),
        }
    }

    fn do_convert(&mut self, Ghost(h): Ghost<HeapView>, c: Conversion) -> (r: Result<Signal, ExecError>)
        requires
            old(self).pc < usize::MAX,
        ensures
            realizes(r, convert_effect(old(self)@, h, c), old(self)@, h, final(self)@, h),
    {
        match c {
            Conversion::I2l => {
                let a = self.peek_int(0)?;
                self.finish_one(Ghost(h), 1, Type::Long(a as i64))
            },
            Conversion::L2i => {
                let a = self.peek_long(0)?;
                self.finish_one(Ghost(h), 1, Type::Int(long_to_int(a)))
            },
            Conversion::I2b => {
                let a = self.peek_int(0)?;
                self.finish_one(Ghost(h), 1, Type::Int(to_low_byte(a) as i32))
            },
            Conversion::I2c => {
                let a = self.peek_int(0)?;
                self.finish_one(Ghost(h), 1, Type::Int(int_low_eight(a)))
            },
            Conversion::I2s => {
                let a = self.peek_int(0)?;
                self.finish_one(Ghost(h), 1, Type::Int(to_low_short(a) as i32))
            },
            _ => self.do_float(Ghost(h), Op::Convert(c)),
        }
    }

    fn do_compare_long(&mut self, Ghost(h): Ghost<HeapView>) -> (r: Result<Signal, ExecError>)
        requires
            old(self).pc < usize::MAX,
        ensures
            realizes(r, compare_long_effect(old(self)@, h), old(self)@, h, final(self)@, h),
    {
        let b = self.peek_long(0)?;
        let a = self.peek_long(1)?;
        self.finish_one(Ghost(h), 2, Type::Int(long_compare(a, b)))
    }

    fn do_if(&mut self, Ghost(h): Ghost<HeapView>, c: Condition, delta: i16, len: usize) -> (r: Result<
        Signal,
        ExecError,
    >)
        requires
            old(self).pc < len,
        ensures
            realizes(
                r,
                if_effect(old(self)@, h, c, delta, len as nat),
                old(self)@,
                h,
                final(self)@,
                h,
            ),
    {
        let v = self.peek_int(0)?;
        let taken = c.holds(v, 0);
        if taken {
            let target: i128 = self.pc as i128 + delta as i128;
            if target < 0 || target >= len as i128 {
                return Err(ExecError::PcOutOfRange);
            }
        }
        self.drop(1);
        self.branch(Ghost(h), taken, delta, len)
    }

    fn do_if_int(&mut self, Ghost(h): Ghost<HeapView>, c: Condition, delta: i16, len: usize) -> (r:
        Result<Signal, ExecError>)
        requires
            old(self).pc < len,
        ensures
            realizes(
                r,
                if_int_effect(old(self)@, h, c, delta, len as nat),
                old(self)@,
                h,
                final(self)@,
                h,
            ),
    {
        let b = self.peek_int(0)?;
        let a = self.peek_int(1)?;
        let taken = c.holds(a, b);
        if taken {
            let target: i128 = self.pc as i128 + delta as i128;
            if target < 0 || target >= len as i128 {
                return Err(ExecError::PcOutOfRange);
            }
        }
        self.drop(2);
        self.branch(Ghost(h), taken, delta, len)
    }

    fn do_if_reference(
        &mut self,
        Ghost(h): Ghost<HeapView>,
        equal: bool,
        delta: i16,
        len: usize,
    ) -> (r: Result<Signal, ExecError>)
        requires
            old(self).pc < len,
        ensures
            realizes(
                r,
                if_reference_effect(old(self)@, h, equal, delta, len as nat),
                old(self)@,
                h,
                final(self)@,
                h,
            ),
    {
        let b = self.peek_reference(0)?;
        let a = self.peek_reference(1)?;
        let taken = refeq(a, b) == equal;
        if taken {
            let target: i128 = self.pc as i128 + delta as i128;
            if target < 0 || target >= len as i128 {
                return Err(ExecError::PcOutOfRange);
            }
        }
        self.drop(2);
        self.branch(Ghost(h), taken, delta, len)
    }

    fn do_return(&mut self, Ghost(h): Ghost<HeapView>, kind: Kind) -> (r: Result<Signal, ExecError>)
        ensures
            realizes(r, return_effect(old(self)@, h, kind), old(self)@, h, final(self)@, h),
    {
        let v = self.peek_kind(0, kind)?;
        self.drop(1);
        Ok(Signal::Return(Some(v)))
    }

    fn do_static(jvm: &JVM, fieldref: &Fieldref) -> (r: Result<Signal, ExecError>)
        ensures
            r is Err,
            static_effect(jvm.classes@, fieldref) == Err::<Effect, ExecError>(r->Err_0),
    {
        let class = match jvm.classes.get(&fieldref.class.name) {
            None => { return Err(ExecError::UnresolvedClass); },
            Some(c) => c,
        };
        let key = fieldref.name_and_type.to_string();
        if !class.fields.contains_key(&key) {
            return Err(ExecError::UnresolvedMember);
        }
        Err(ExecError::Unimplemented)
    }

    fn do_field(&self, heap: &Heap, depth: usize, fieldref: &Fieldref) -> (r: Result<Signal, ExecError>)
        ensures
            r is Err,
            field_effect(self@, heap@, depth as nat, fieldref) == Err::<Effect, ExecError>(r->Err_0),
    {
        match self.peek_reference(depth)? {
            None => Err(ExecError::NullPointer),
            Some(HeapType::Class(id)) => {
                if id >= heap.objects.len() {
                    return Err(ExecError::DanglingReference);
                }
                let key = fieldref.name_and_type.to_string();
                if !heap.objects[id].fields.contains_key(&key) {
                    return Err(ExecError::UnresolvedMember);
                }
                Err(ExecError::Unimplemented)
            },
            Some(_) => Err(ExecError::TypeMismatch),
        }
    }

    fn do_new(&mut self, jvm: &JVM, heap: &mut Heap, class: &Class) -> (r: Result<Signal, ExecError>)
        requires
            old(self).pc < usize::MAX,
        ensures
            realizes(
                r,
                new_effect(old(self)@, old(heap)@, jvm.classes@, class),
                old(self)@,
                old(heap)@,
                final(self)@,
                final(heap)@,
            ),
    {
        let statics = match jvm.classes.get(&class.name) {
            None => { return Err(ExecError::UnresolvedClass); },
            Some(c) => c,
        };
        if self.stack.len() >= self.max_stack {
            return Err(ExecError::StackOverflow);
        }
        let reference = statics.instantiate(heap);
        self.finish_one(Ghost(heap@), 0, Type::Reference(Some(reference)))
    }

    fn do_new_array(&mut self, heap: &mut Heap, atype: u8) -> (r: Result<Signal, ExecError>)
        requires
            old(self).pc < usize::MAX,
        ensures
            realizes(
                r,
                new_array_effect(old(self)@, old(heap)@, atype),
                old(self)@,
                old(heap)@,
                final(self)@,
                final(heap)@,
            ),
    {
        let count = self.peek_int(0)?;
        let kind = match array_kind(atype) {
            None => { return Err(ExecError::Unimplemented); },
            Some(k) => k,
        };
        if count < 0 {
            return Err(ExecError::NegativeArraySize);
        }
        if self.stack.len() > self.max_stack {
            return Err(ExecError::StackOverflow);
        }
        let reference = heap.new_array(kind, count as usize);
        self.finish_one(Ghost(heap@), 1, Type::Reference(Some(reference)))
    }

    /// Runs the instruction at the program counter.
    ///
    /// After an error, frame and heap are as they were. A step that asks for
    /// a floating-point computation changes nothing either: the host
    /// computes the result and calls `resume`.
    pub fn step(&mut self, code: &Vec<Instructions>, jvm: &JVM, heap: &mut Heap) -> (r: Result<
        Signal,
        ExecError,
    >)
        ensures
            realizes(
                r,
                step_effect(code@, old(self)@, old(heap)@, jvm.classes@),
                old(self)@,
                old(heap)@,
                final(self)@,
                final(heap)@,
            ),
    {
        let len = code.len();
        if self.pc >= len {
            return Err(ExecError::PcOutOfRange);
        }
        let op = classify(&code[self.pc]);
        let ghost h = heap@;
        match op {
            Op::Nop => {
                self.advance();
                Ok(Signal::Continue)
            },
            Op::Push(v) => self.finish_one(Ghost(h), 0, v),
            Op::Load(kind, index) => self.do_load(Ghost(h), kind, index),
            Op::Store(kind, index) => self.do_store(Ghost(h), kind, index),
            Op::ArrayLoad(kind) => self.do_array_load(heap, kind),
            Op::ArrayStore(kind) => self.do_array_store(heap, kind),
            Op::Pop | Op::Pop2 | Op::Dup | Op::DupX1 | Op::DupX2 | Op::Dup2 | Op::Swap => self.do_shuffle(
                Ghost(h),
                op,
            ),
            Op::IntArith(o) => self.do_int_arith(Ghost(h), o),
            Op::LongArith(o) => self.do_long_arith(Ghost(h), o),
            Op::FloatArith(_) | Op::DoubleArith(_) => self.do_float(Ghost(h), op),
            Op::Negate(kind) => self.do_negate(Ghost(h), kind),
            Op::Increment(index, constant) => self.do_increment(Ghost(h), index, constant),
            Op::Convert(c) => self.do_convert(Ghost(h), c),
            Op::CompareLong => self.do_compare_long(Ghost(h)),
            Op::If(c, delta) => self.do_if(Ghost(h), c, delta, len),
            Op::IfInt(c, delta) => self.do_if_int(Ghost(h), c, delta, len),
            Op::IfReference(equal, delta) => self.do_if_reference(Ghost(h), equal, delta, len),
            Op::Goto(delta) => self.branch(Ghost(h), true, delta, len),
            Op::ReturnValue(kind) => self.do_return(Ghost(h), kind),
            Op::ReturnVoid => Ok(Signal::Return(None)),
            Op::GetStatic(fieldref) => Frame::do_static(jvm, fieldref),
            Op::PutStatic(fieldref) => {
                let _ = self.peek(0)?;
                Frame::do_static(jvm, fieldref)
            },
            Op::GetField(fieldref) => self.do_field(heap, 0, fieldref),
            Op::PutField(fieldref) => {
                let _ = self.peek(0)?;
                self.do_field(heap, 1, fieldref)
            },
            Op::New(class) => self.do_new(jvm, heap, class),
            Op::NewArray(atype) => self.do_new_array(heap, atype),
            Op::Unimplemented => Err(ExecError::Unimplemented),
        }
    }

    /// Hands in the result of the floating-point computation that the last
    /// step asked for: the operands are replaced by the result and the next
    /// instruction is up. The result must be of the kind that the
    /// computation gives. After an error the frame is as it was.
    pub fn resume(&mut self, code: &Vec<Instructions>, result: Type) -> (r: Result<(), ExecError>)
        ensures
            match r {
                Ok(()) => resume_effect(code@, old(self)@, result) == Ok::<FrameView, ExecError>(
                    final(self)@,
                ),
                Err(e) => resume_effect(code@, old(self)@, result) == Err::<FrameView, ExecError>(e)
                    && final(self)@ == old(self)@,
            },
    {
        if self.pc >= code.len() {
            return Err(ExecError::PcOutOfRange);
        }
        let request = match self.request(classify(&code[self.pc]))? {
            None => { return Err(ExecError::NothingPending); },
            Some(request) => request,
        };
        if !result.is_kind(request.result_kind()) {
            return Err(ExecError::TypeMismatch);
        }
        let values = vec![result];
        assert(values@ =~= seq![result]);
        self.replace(request.arity(), values)?;
        self.advance();
        Ok(())
    }

    /// Runs up to `fuel` steps and stops at the first that does not say
    /// `Continue`. `Ok(Signal::Continue)` says that the fuel is used up and
    /// the invocation has not ended.
    pub fn run(&mut self, code: &Vec<Instructions>, jvm: &JVM, heap: &mut Heap, fuel: u64) -> (r: Result<
        Signal,
        ExecError,
    >)
        ensures
            (r, final(self)@, final(heap)@) == run_effect(
                code@,
                old(self)@,
                old(heap)@,
                jvm.classes@,
                fuel as nat,
            ),
    {
        let mut left = fuel;
        while left > 0
            invariant
                run_effect(code@, old(self)@, old(heap)@, jvm.classes@, fuel as nat) == run_effect(
                    code@,
                    self@,
                    heap@,
                    jvm.classes@,
                    left as nat,
                ),
            decreases left,
        {
            match self.step(code, jvm, heap) {
                Ok(Signal::Continue) => {
                    left = left - 1;
                },
                other => {
                    return other;
                },
            }
        }
        Ok(Signal::Continue)
    }
}


/// The body of the method under `key`: its declared stack depth, its number
/// of local slots and its instructions. The body is the method's first
/// attribute.
pub open spec fn body_of(methods: Map<Seq<char>, MethodInfo>, key: Seq<char>) -> Result<
    (u16, u16, Seq<Instructions>),
    ExecError,
> {
    if !methods.contains_key(key) {
        Err(ExecError::UnresolvedMember)
    } else if methods[key].attributes@.len() == 0 {
        Err(ExecError::NoCode)
    } else {
        match methods[key].attributes@[0] {
            Attribute::Code { max_stack, max_locals, code, .. } => Ok((max_stack, max_locals, code@)),
            _ => Err(ExecError::NoCode),
        }
    }
}

/// An invocation of the method under `key` with `fuel` steps: a fresh frame
/// is run on the method's body.
pub open spec fn evaluate_effect(
    methods: Map<Seq<char>, MethodInfo>,
    key: Seq<char>,
    h: HeapView,
    classes: Map<Seq<char>, ClassStatics>,
    fuel: nat,
) -> (Result<Signal, ExecError>, Option<FrameView>, HeapView) {
    match body_of(methods, key) {
        Err(e) => (Err(e), None, h),
        Ok((max_stack, max_locals, code)) => {
            let (r, f, h2) = run_effect(code, FrameView::fresh(max_stack, max_locals), h, classes, fuel);
            (r, Some(f), h2)
        },
    }
}

/// What `evaluate` returned, with the heap it left, is what an invocation
/// gives.
pub open spec fn evaluated(
    r: Result<(Signal, Frame), ExecError>,
    h1: HeapView,
    expected: (Result<Signal, ExecError>, Option<FrameView>, HeapView),
) -> bool {
    match r {
        Ok((signal, frame)) => expected == (Ok::<Signal, ExecError>(signal), Some(frame@), h1),
        Err(e) => expected.0 == Err::<Signal, ExecError>(e) && expected.2 == h1,
    }
}

/// Something with a table of methods that can be invoked.
pub trait Eval {
    /// The methods by their keys.
    spec fn methods(&self) -> Map<Seq<char>, MethodInfo>;

    /// The table of methods.
    fn get_methods(&self) -> (r: &Table<MethodInfo>)
        ensures
            r@ == self.methods(),
    ;

    /// Invokes the method under the key `method` in a fresh frame and runs it
    /// for up to `fuel` steps.
    ///
    /// `Ok` carries the signal of the last step and the frame as the run
    /// left it: `Return` when the method has ended, `Float` when it waits
    /// for a floating-point result, `Continue` when the fuel is used up. The
    /// frame can be resumed and run on. An error says why the invocation was
    /// stopped; the heap is then as the failing step found it.
    fn evaluate(&self, jvm: &JVM, method: String, heap: &mut Heap, fuel: u64) -> (r: Result<
        (Signal, Frame),
        ExecError,
    >)
        ensures
            evaluated(
                r,
                final(heap)@,
                evaluate_effect(self.methods(), method@, old(heap)@, jvm.classes@, fuel as nat),
            ),
    {
        let info = match self.get_methods().get(&method) {
            None => { return Err(ExecError::UnresolvedMember); },
            Some(info) => info,
        };
        if info.attributes.len() == 0 {
            return Err(ExecError::NoCode);
        }
        match &info.attributes[0] {
            Attribute::Code { max_stack, max_locals, code, .. } => {
                let mut frame = Frame::new(*max_stack, *max_locals);
                let signal = frame.run(code, jvm, heap, fuel)?;
                Ok((signal, frame))
            },
            _ => Err(ExecError::NoCode),
        }
    }
}

impl Eval for ClassDynamics {
    open spec fn methods(&self) -> Map<Seq<char>, MethodInfo> {
        self.methods@
    }

    fn get_methods(&self) -> (r: &Table<MethodInfo>) {
        &self.methods
    }
}

impl Eval for ClassStatics {
    open spec fn methods(&self) -> Map<Seq<char>, MethodInfo> {
        self.methods@
    }

    fn get_methods(&self) -> (r: &Table<MethodInfo>) {
        &self.methods
    }
}


/// The delta of the branch that an instruction of the family takes, if it
/// is one that the interpreter runs.
pub open spec fn branch_delta(op: Op) -> Option<i16> {
    match op {
        Op::If(_, delta) => Some(delta),
        Op::IfInt(_, delta) => Some(delta),
        Op::IfReference(_, delta) => Some(delta),
        Op::Goto(delta) => Some(delta),
        _ => None,
    }
}

/// The branch that the interpreter takes for an instruction is the branch
/// that the instruction holds.
pub proof fn lemma_branch_is_target(inst: Instructions)
    ensures
        branch_delta(op_of(&inst)) is Some ==> short_branch(inst) == branch_delta(op_of(&inst))
            && targets(inst@) == seq![branch_delta(op_of(&inst))->Some_0 as int],
{
}

/// The outcome of a step on the frame `f` keeps to the method's bounds: it
/// is no failed branch; the program counter it leaves is at most one past
/// the last of the `len` instructions; the number of local slots and the
/// declared stack depth are as before; and if the stack was within the
/// declared depth, it still is.
pub open spec fn bounded(r: Result<Effect, ExecError>, f: FrameView, len: nat) -> bool {
    match r {
        Err(e) => e != ExecError::PcOutOfRange,
        Ok(effect) => {
            &&& effect.frame.pc <= len
            &&& effect.frame.max_stack == f.max_stack
            &&& effect.frame.locals.len() == f.locals.len()
            &&& f.stack.len() <= f.max_stack ==> effect.frame.stack.len() <= f.max_stack
        },
    }
}

/// Going on to the next instruction keeps to the bounds.
pub proof fn lemma_replace_bounded(f: FrameView, h: HeapView, n: nat, values: Seq<Type>, len: nat)
    requires
        f.pc < len,
        n <= f.stack.len(),
    ensures
        bounded(replace_effect(f, h, n, values), f, len),
        bounded(proceed(f, h), f, len),
        bounded(proceed(f.drop(n), h), f, len),
{
}

/// The instructions that move values between the stack, the locals and the
/// arrays keep to the bounds.
pub proof fn lemma_moves_bounded(op: Op, f: FrameView, h: HeapView, len: nat)
    requires
        f.pc < len,
    ensures
        match op {
            Op::Load(kind, index) => bounded(load_effect(f, h, kind, index), f, len),
            Op::Store(kind, index) => bounded(store_effect(f, h, kind, index), f, len),
            Op::ArrayLoad(kind) => bounded(array_load_effect(f, h, kind), f, len),
            Op::ArrayStore(kind) => bounded(array_store_effect(f, h, kind), f, len),
            Op::Increment(index, constant) => bounded(increment_effect(f, h, index, constant), f, len),
            Op::NewArray(atype) => bounded(new_array_effect(f, h, atype), f, len),
            _ => true,
        },
{
}

/// The stack shuffles keep to the bounds.
pub proof fn lemma_shuffles_bounded(op: Op, f: FrameView, h: HeapView, len: nat)
    requires
        f.pc < len,
    ensures
        bounded(shuffle_effect(f, h, op), f, len),
{
}

/// The arithmetic instructions and the conversions keep to the bounds.
pub proof fn lemma_arithmetic_bounded(op: Op, f: FrameView, h: HeapView, len: nat)
    requires
        f.pc < len,
    ensures
        match op {
            Op::IntArith(o) => bounded(int_arith_effect(f, h, o), f, len),
            Op::LongArith(o) => bounded(long_arith_effect(f, h, o), f, len),
            Op::Negate(kind) => bounded(negate_effect(f, h, kind), f, len),
            Op::Convert(c) => bounded(convert_effect(f, h, c), f, len),
            Op::CompareLong => bounded(compare_long_effect(f, h), f, len),
            Op::FloatArith(_) | Op::DoubleArith(_) => bounded(float_effect(f, h, op), f, len),
            _ => true,
        },
{
}

/// The branches keep to the bounds if their targets lie in the body.
pub proof fn lemma_conditions_bounded(op: Op, f: FrameView, h: HeapView, len: nat)
    requires
        f.pc < len,
        branch_delta(op) is Some ==> 0 <= f.pc + branch_delta(op)->Some_0 < len,
    ensures
        match op {
            Op::If(c, delta) => bounded(if_effect(f, h, c, delta, len), f, len),
            Op::IfInt(c, delta) => bounded(if_int_effect(f, h, c, delta, len), f, len),
            Op::IfReference(equal, delta) => bounded(if_reference_effect(f, h, equal, delta, len), f, len),
            Op::Goto(delta) => bounded(branch_effect(f, h, true, delta as int, len), f, len),
            _ => true,
        },
{
}

/// The returns and the accesses to classes and objects keep to the bounds.
pub proof fn lemma_accesses_bounded(
    op: Op,
    f: FrameView,
    h: HeapView,
    classes: Map<Seq<char>, ClassStatics>,
    len: nat,
)
    requires
        f.pc < len,
    ensures
        match op {
            Op::ReturnValue(kind) => bounded(return_effect(f, h, kind), f, len),
            Op::GetStatic(fieldref) => bounded(static_effect(classes, fieldref), f, len),
            Op::PutStatic(fieldref) => bounded(put_static_effect(f, classes, fieldref), f, len),
            Op::GetField(fieldref) => bounded(field_effect(f, h, 0, fieldref), f, len),
            Op::PutField(fieldref) => bounded(put_field_effect(f, h, fieldref), f, len),
            Op::New(class) => bounded(new_effect(f, h, classes, class), f, len),
            _ => true,
        },
{
}

/// In a method body whose branches all lead to instructions, as they do
/// once the jumps have been cleaned, every step keeps to the method's
/// bounds. No step fails because a branch leaves the body: a branch that is
/// taken lands on an instruction. The operand stack stays within the depth
/// that the method declares, and the local slots stay as many as they were.
pub proof fn lemma_branches_land(
    code: Seq<Instructions>,
    f: FrameView,
    h: HeapView,
    classes: Map<Seq<char>, ClassStatics>,
)
    requires
        well_targeted(views(code)),
        f.pc < code.len(),
    ensures
        bounded(step_effect(code, f, h, classes), f, code.len()),
{
    let inst = code[f.pc as int];
    let op = op_of(&inst);
    let len = code.len();
    lemma_branch_is_target(inst);
    if branch_delta(op) is Some {
        let delta = branch_delta(op)->Some_0;
        assert(views(code)[f.pc as int] == inst@);
        assert(targets(views(code)[f.pc as int])[0] == delta as int);
        assert(0 <= f.pc + delta < len);
    }
    lemma_replace_bounded(f, h, 0, Seq::empty(), len);
    lemma_moves_bounded(op, f, h, len);
    lemma_shuffles_bounded(op, f, h, len);
    lemma_arithmetic_bounded(op, f, h, len);
    lemma_conditions_bounded(op, f, h, len);
    lemma_accesses_bounded(op, f, h, classes, len);
    match op {
        Op::Push(v) => {
            lemma_replace_bounded(f, h, 0, seq![v], len);
        },
        _ => {},
    }
}

/// A run keeps to the method's bounds from its first step to its last: in a
/// body whose branches all lead to instructions, the frame that a run
/// leaves has its stack within the declared depth and its local slots as
/// many as before, and its program counter is at most one past the last
/// instruction. The run fails for a program counter outside the body only
/// by running off the end of the body.
pub proof fn lemma_run_bounded(
    code: Seq<Instructions>,
    f: FrameView,
    h: HeapView,
    classes: Map<Seq<char>, ClassStatics>,
    fuel: nat,
)
    requires
        well_targeted(views(code)),
        f.pc <= code.len(),
        f.stack.len() <= f.max_stack,
    ensures
        ({
            let (r, g, _) = run_effect(code, f, h, classes, fuel);
            &&& g.pc <= code.len()
            &&& g.stack.len() <= g.max_stack
            &&& g.max_stack == f.max_stack
            &&& g.locals.len() == f.locals.len()
            &&& r == Err::<Signal, ExecError>(ExecError::PcOutOfRange) ==> g.pc == code.len()
        }),
    decreases fuel,
{
    if fuel > 0 && f.pc < code.len() {
        lemma_branches_land(code, f, h, classes);
        match step_effect(code, f, h, classes) {
            Err(e) => {},
            Ok(effect) => {
                if effect.signal == Signal::Continue {
                    lemma_run_bounded(code, effect.frame, effect.heap, classes, (fuel - 1) as nat);
                }
            },
        }
    }
}

/// The arithmetic instructions on ints wrap around: with the ints `a` and
/// `b` on top of the stack, `b` uppermost, each of them replaces the two by
/// the exact result brought into 32 bits by adding or taking away a multiple
/// of 2^32, and goes on to the next instruction. Division and remainder do
/// so for every divisor but zero.
pub proof fn lemma_int_instructions_wrap(f: FrameView, h: HeapView, a: i32, b: i32)
    requires
        f.stack.len() >= 2,
        f.stack[f.stack.len() - 2] == Type::Int(a),
        f.stack[f.stack.len() - 1] == Type::Int(b),
        f.stack.len() - 1 <= f.max_stack,
    ensures
        op_of(&Instructions::Iadd) == Op::IntArith(IntOp::Add),
        op_of(&Instructions::Isub) == Op::IntArith(IntOp::Sub),
        op_of(&Instructions::Imul) == Op::IntArith(IntOp::Mul),
        op_of(&Instructions::Idiv) == Op::IntArith(IntOp::Div),
        op_of(&Instructions::Irem) == Op::IntArith(IntOp::Rem),
        int_arith_effect(f, h, IntOp::Add) == proceed(f.drop(2).pushed(Type::Int(wrap32(a + b))), h),
        int_arith_effect(f, h, IntOp::Sub) == proceed(f.drop(2).pushed(Type::Int(wrap32(a - b))), h),
        int_arith_effect(f, h, IntOp::Mul) == proceed(f.drop(2).pushed(Type::Int(wrap32(a * b))), h),
        b != 0 ==> int_arith_effect(f, h, IntOp::Div) == proceed(
            f.drop(2).pushed(Type::Int(wrap32(crate::jvm::arith::quotient(a as int, b as int)))),
            h,
        ),
        b != 0 ==> int_arith_effect(f, h, IntOp::Rem) == proceed(
            f.drop(2).pushed(Type::Int(wrap32(crate::jvm::arith::remainder(a as int, b as int)))),
            h,
        ),
        b == 0 ==> int_arith_effect(f, h, IntOp::Div) == Err::<Effect, ExecError>(
            ExecError::DivisionByZero,
        ),
{
    assert(f.drop(2).stack.push(Type::Int(wrap32(a + b))) =~= f.stack.take(f.stack.len() - 2) + seq![
        Type::Int(wrap32(a + b)),
    ]);
    assert(f.drop(2).stack.push(Type::Int(wrap32(a - b))) =~= f.stack.take(f.stack.len() - 2) + seq![
        Type::Int(wrap32(a - b)),
    ]);
    assert(f.drop(2).stack.push(Type::Int(wrap32(a * b))) =~= f.stack.take(f.stack.len() - 2) + seq![
        Type::Int(wrap32(a * b)),
    ]);
    if b != 0 {
        let q = wrap32(crate::jvm::arith::quotient(a as int, b as int));
        let r = wrap32(crate::jvm::arith::remainder(a as int, b as int));
        assert(f.drop(2).stack.push(Type::Int(q)) =~= f.stack.take(f.stack.len() - 2) + seq![Type::Int(q)]);
        assert(f.drop(2).stack.push(Type::Int(r)) =~= f.stack.take(f.stack.len() - 2) + seq![Type::Int(r)]);
    }
}

/// The arithmetic instructions on longs wrap around in the same way, at 64
/// bits.
pub proof fn lemma_long_instructions_wrap(f: FrameView, h: HeapView, a: i64, b: i64)
    requires
        f.stack.len() >= 2,
        f.stack[f.stack.len() - 2] == Type::Long(a),
        f.stack[f.stack.len() - 1] == Type::Long(b),
        f.stack.len() - 1 <= f.max_stack,
    ensures
        op_of(&Instructions::Ladd) == Op::LongArith(IntOp::Add),
        op_of(&Instructions::Lsub) == Op::LongArith(IntOp::Sub),
        op_of(&Instructions::Lmul) == Op::LongArith(IntOp::Mul),
        long_arith_effect(f, h, IntOp::Add) == proceed(f.drop(2).pushed(Type::Long(wrap64(a + b))), h),
        long_arith_effect(f, h, IntOp::Sub) == proceed(f.drop(2).pushed(Type::Long(wrap64(a - b))), h),
        long_arith_effect(f, h, IntOp::Mul) == proceed(f.drop(2).pushed(Type::Long(wrap64(a * b))), h),
        b == 0 ==> long_arith_effect(f, h, IntOp::Div) == Err::<Effect, ExecError>(
            ExecError::DivisionByZero,
        ),
{
    assert(f.drop(2).stack.push(Type::Long(wrap64(a + b))) =~= f.stack.take(f.stack.len() - 2) + seq![
        Type::Long(wrap64(a + b)),
    ]);
    assert(f.drop(2).stack.push(Type::Long(wrap64(a - b))) =~= f.stack.take(f.stack.len() - 2) + seq![
        Type::Long(wrap64(a - b)),
    ]);
    assert(f.drop(2).stack.push(Type::Long(wrap64(a * b))) =~= f.stack.take(f.stack.len() - 2) + seq![
        Type::Long(wrap64(a * b)),
    ]);
}

} // verus!
