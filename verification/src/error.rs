use vstd::prelude::*;

verus! {

/// Why a class file, or a part of one, was rejected while loading.
#[derive(Clone, Copy, Debug, PartialEq, Eq, Structural)]
pub enum DecodeError {
    /// The input ends before the item that is being read is complete.
    UnexpectedEnd,
    /// The file does not begin with the four magic bytes.
    BadMagic,
    /// A tag byte names no known kind of item.
    BadTag,
    /// A constant-pool index is zero, past the end of the pool, or names an
    /// entry of the wrong kind.
    BadConstantIndex,
    /// A text constant is not valid UTF-8.
    BadUtf8,
    /// An attribute carries a name that this reader does not know.
    UnknownAttribute,
    /// A byte of a method body is no instruction.
    BadOpcode,
    /// A branch leads outside the method body or into the middle of an
    /// instruction.
    BadBranchTarget,
    /// The table of a switch is malformed: its bounds are out of order or
    /// its number of pairs is negative.
    BadSwitch,
    /// Bytes are left over after the last item.
    TrailingBytes,
    /// The item is recognised but this reader cannot represent it.
    Unsupported,
}

} // verus!

verus! {

/// Why the interpreter stopped an invocation.
#[derive(Clone, Copy, Debug, PartialEq, Eq, Structural)]
pub enum ExecError {
    /// A value on the stack or in a local slot has another kind than the
    /// instruction asks for, or a reference names another kind of heap entity.
    TypeMismatch,
    /// A local slot was read before anything was stored in it.
    UnsetLocal,
    /// A null reference was dereferenced.
    NullPointer,
    /// An array index is negative or not below the array's length.
    IndexOutOfBounds,
    /// No class of that name is in the class table.
    UnresolvedClass,
    /// The class or object has no field or method under that key.
    UnresolvedMember,
    /// The instruction is decoded but has no execution rule.
    Unimplemented,
    /// An instruction needs more operands than the stack holds.
    StackUnderflow,
    /// A push would take the stack past the method's declared depth.
    StackOverflow,
    /// A local index is not below the method's declared number of slots.
    LocalOutOfRange,
    /// The program counter does not name an instruction.
    PcOutOfRange,
    /// An integer division or remainder has a zero divisor.
    DivisionByZero,
    /// An array was asked for with a negative length.
    NegativeArraySize,
    /// A reference names no entity of the heap it is used with.
    DanglingReference,
    /// The method has no executable body.
    NoCode,
    /// A floating-point result was handed in, but the instruction at the
    /// program counter does not wait for one.
    NothingPending,
}

} // verus!

verus! {

/// Why the classes of a program could not be loaded.
#[derive(Clone, Copy, Debug, PartialEq, Eq, Structural)]
pub enum LoadError {
    /// There is no file for a class that is referred to.
    NotFound,
    /// The file of a class could not be decoded.
    Decode(DecodeError),
    /// The file that was found under a class's name holds a class of
    /// another name.
    NameMismatch,
}

} // verus!
