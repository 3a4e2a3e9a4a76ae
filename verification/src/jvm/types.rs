use vstd::prelude::*;

verus! {

/// A reference to one entity of the heap: the kind of entity and its number
/// within that kind. Two references denote the same entity exactly if they
/// are equal.
#[derive(Debug, Clone, Copy, PartialEq, Eq)]
pub enum HeapType {
    Class(usize),
    Interface,
    ArrayI(usize),
    ArrayL(usize),
    ArrayF(usize),
    ArrayD(usize),
    ArrayB(usize),
    ArrayC(usize),
    ArrayS(usize),
    ArrayA(usize),
}

/// A value on the operand stack or in a local slot.
///
/// `Float` and `Double` hold the IEEE 754 bit pattern of the number.
#[derive(Debug, Clone, Copy, PartialEq, Eq)]
pub enum Type {
    Int(i32),
    Long(i64),
    Float(u32),
    Double(u64),
    ReturnAddress(usize),
    Reference(Option<HeapType>),
}

} // verus!

verus! {

/// The kinds of value that a stack or local slot can hold.
#[derive(Debug, Clone, Copy, PartialEq, Eq)]
pub enum Kind {
    Int,
    Long,
    Float,
    Double,
    ReturnAddress,
    Reference,
}

impl Type {
    /// The kind of the value.
    pub open spec fn spec_kind(self) -> Kind {
        match self {
            Type::Int(_) => Kind::Int,
            Type::Long(_) => Kind::Long,
            Type::Float(_) => Kind::Float,
            Type::Double(_) => Kind::Double,
            Type::ReturnAddress(_) => Kind::ReturnAddress,
            Type::Reference(_) => Kind::Reference,
        }
    }

    /// The kind of the value.
    #[verifier::when_used_as_spec(spec_kind)]
    pub fn kind(self) -> (r: Kind)
        ensures
            r == self.spec_kind(),
    {
        match self {
            Type::Int(_) => Kind::Int,
            Type::Long(_) => Kind::Long,
            Type::Float(_) => Kind::Float,
            Type::Double(_) => Kind::Double,
            Type::ReturnAddress(_) => Kind::ReturnAddress,
            Type::Reference(_) => Kind::Reference,
        }
    }

    /// Whether the value is of the given kind.
    pub fn is_kind(self, kind: Kind) -> (r: bool)
        ensures
            r == (self.spec_kind() == kind),
    {
        match (self, kind) {
            (Type::Int(_), Kind::Int) => true,
            (Type::Long(_), Kind::Long) => true,
            (Type::Float(_), Kind::Float) => true,
            (Type::Double(_), Kind::Double) => true,
            (Type::ReturnAddress(_), Kind::ReturnAddress) => true,
            (Type::Reference(_), Kind::Reference) => true,
            _ => false,
        }
    }
}

} // verus!
