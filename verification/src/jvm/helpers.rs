use vstd::prelude::*;
use crate::jvm::heap::HeapView;
use crate::jvm::types::HeapType;

verus! {

/// Whether two references denote the same heap entity. Two null references
/// do; a null and a non-null reference do not; two non-null references do
/// exactly if they are of the same kind and hold the same number. What the
/// entities contain plays no part. An `Interface` reference denotes no
/// entity, and is not even the same as itself.
pub open spec fn same_entity(a: Option<HeapType>, b: Option<HeapType>) -> bool {
    match (a, b) {
        (None, None) => true,
        (Some(x), Some(y)) => x == y && x != HeapType::Interface,
        _ => false,
    }
}

/// Compares two references for identity.
pub fn refeq(value1: Option<HeapType>, value2: Option<HeapType>) -> (r: bool)
    ensures
        r == same_entity(value1, value2),
{
    match (value1, value2) {
        (None, None) => true,
        (None, Some(_)) => false,
        (Some(_), None) => false,
        (Some(value1), Some(value2)) => {
            match (value1, value2) {
                (HeapType::Class(ref1), HeapType::Class(ref2)) => ref1 == ref2,
                (HeapType::ArrayI(ref1), HeapType::ArrayI(ref2)) => ref1 == ref2,
                (HeapType::ArrayL(ref1), HeapType::ArrayL(ref2)) => ref1 == ref2,
                (HeapType::ArrayF(ref1), HeapType::ArrayF(ref2)) => ref1 == ref2,
                (HeapType::ArrayD(ref1), HeapType::ArrayD(ref2)) => ref1 == ref2,
                (HeapType::ArrayB(ref1), HeapType::ArrayB(ref2)) => ref1 == ref2,
                (HeapType::ArrayC(ref1), HeapType::ArrayC(ref2)) => ref1 == ref2,
                (HeapType::ArrayS(ref1), HeapType::ArrayS(ref2)) => ref1 == ref2,
                (HeapType::ArrayA(ref1), HeapType::ArrayA(ref2)) => ref1 == ref2,
                _ => false,
            }
        },
    }
}


/// Identity is not equality of contents: two references are the same entity
/// exactly if both are null or both name one entity of the heap, whatever
/// the entities hold. In particular two different objects with the same
/// fields are not the same entity, and neither are two different arrays with
/// the same elements.
pub proof fn lemma_identity(h: HeapView, a: Option<HeapType>, b: Option<HeapType>)
    requires
        a is Some ==> h.contains(a->Some_0),
        b is Some ==> h.contains(b->Some_0),
    ensures
        same_entity(a, b) <==> a == b,
        same_entity(a, b) == same_entity(b, a),
        forall|i: usize, j: usize|
            i != j && i < h.objects.len() && j < h.objects.len() && h.objects[i as int]
                == h.objects[j as int] ==> !same_entity(
                Some(HeapType::Class(i)),
                Some(HeapType::Class(j)),
            ),
        forall|i: usize, j: usize|
            i != j && i < h.ints.len() && j < h.ints.len() && h.ints[i as int] == h.ints[j as int]
                ==> !same_entity(Some(HeapType::ArrayI(i)), Some(HeapType::ArrayI(j))),
{
}

} // verus!
