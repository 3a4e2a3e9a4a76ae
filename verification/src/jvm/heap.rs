use vstd::prelude::*;
use crate::error::ExecError;
use crate::jvm::types::{HeapType, Type};
use crate::table::Table;

verus! {

/// The element kinds that arrays come in.
#[derive(Debug, Clone, Copy, PartialEq, Eq)]
pub enum ArrayKind {
    Int,
    Long,
    Float,
    Double,
    Reference,
    Byte,
    Char,
    Short,
}

/// An object: one slot for each instance field of its class, under the
/// field's key. A slot is unset until something is stored in it.
#[derive(Debug)]
pub struct Instance {
    pub fields: Table<Option<Type>>,
}

/// The heap: every object and array that was ever allocated, by kind and in
/// order of allocation. A reference holds the position of its entity, so an
/// entity keeps its identity for as long as the heap lives, and a write
/// through one reference is seen through every other one.
#[derive(Debug)]
pub struct Heap {
    pub objects: Vec<Instance>,
    pub ints: Vec<Vec<i32>>,
    pub longs: Vec<Vec<i64>>,
    pub floats: Vec<Vec<u32>>,
    pub doubles: Vec<Vec<u64>>,
    pub bytes: Vec<Vec<i8>>,
    pub chars: Vec<Vec<u16>>,
    pub shorts: Vec<Vec<i16>>,
    pub references: Vec<Vec<Option<HeapType>>>,
}

/// What a heap holds, as mathematical sequences.
pub struct HeapView {
    pub objects: Seq<Map<Seq<char>, Option<Type>>>,
    pub ints: Seq<Seq<i32>>,
    pub longs: Seq<Seq<i64>>,
    pub floats: Seq<Seq<u32>>,
    pub doubles: Seq<Seq<u64>>,
    pub bytes: Seq<Seq<i8>>,
    pub chars: Seq<Seq<u16>>,
    pub shorts: Seq<Seq<i16>>,
    pub references: Seq<Seq<Option<HeapType>>>,
}

/// The arrays of one kind, each as a sequence.
pub open spec fn rows<T>(arena: Vec<Vec<T>>) -> Seq<Seq<T>> {
    arena@.map_values(|row: Vec<T>| row@)
}

/// The element at `index` of array number `id`, or the reason why there is
/// none.
pub open spec fn cell<T>(rows: Seq<Seq<T>>, id: usize, index: i32) -> Result<T, ExecError> {
    if id >= rows.len() {
        Err(ExecError::DanglingReference)
    } else if index < 0 || index >= rows[id as int].len() {
        Err(ExecError::IndexOutOfBounds)
    } else {
        Ok(rows[id as int][index as int])
    }
}

/// The arrays after `value` was stored at `index` of array number `id`.
pub open spec fn with_cell<T>(rows: Seq<Seq<T>>, id: usize, index: i32, value: T) -> Result<
    Seq<Seq<T>>,
    ExecError,
> {
    if id >= rows.len() {
        Err(ExecError::DanglingReference)
    } else if index < 0 || index >= rows[id as int].len() {
        Err(ExecError::IndexOutOfBounds)
    } else {
        Ok(rows.update(id as int, rows[id as int].update(index as int, value)))
    }
}

/// The low eight bits of `v`, read as a signed byte.
pub open spec fn low_byte(v: i32) -> i8 {
    let m = (v as int) % 256;
    if m < 128 { m as i8 } else { (m - 256) as i8 }
}

/// The low sixteen bits of `v`, read as an unsigned number.
pub open spec fn low_char(v: i32) -> u16 {
    ((v as int) % 65536) as u16
}

/// The low sixteen bits of `v`, read as a signed number.
pub open spec fn low_short(v: i32) -> i16 {
    let m = (v as int) % 65536;
    if m < 32768 { m as i16 } else { (m - 65536) as i16 }
}

/// The low eight bits of `v` as a signed byte.
pub fn to_low_byte(v: i32) -> (r: i8)
    ensures
        r == low_byte(v),
{
    let m: i64 = if v >= 0 { (v % 256) as i64 } else { 255 - ((-(v as i64) - 1) % 256) };
    if m < 128 {
        m as i8
    } else {
        (m - 256) as i8
    }
}

/// The low sixteen bits of `v` as an unsigned number.
pub fn to_low_char(v: i32) -> (r: u16)
    ensures
        r == low_char(v),
{
    let m: i64 = if v >= 0 { (v % 65536) as i64 } else { 65535 - ((-(v as i64) - 1) % 65536) };
    m as u16
}

/// The low sixteen bits of `v` as a signed number.
pub fn to_low_short(v: i32) -> (r: i16)
    ensures
        r == low_short(v),
{
    let m: i64 = if v >= 0 { (v % 65536) as i64 } else { 65535 - ((-(v as i64) - 1) % 65536) };
    if m < 32768 {
        m as i16
    } else {
        (m - 65536) as i16
    }
}

impl View for Heap {
    type V = HeapView;

    open spec fn view(&self) -> HeapView {
        HeapView {
            objects: self.objects@.map_values(|o: Instance| o.fields@),
            ints: rows(self.ints),
            longs: rows(self.longs),
            floats: rows(self.floats),
            doubles: rows(self.doubles),
            bytes: rows(self.bytes),
            chars: rows(self.chars),
            shorts: rows(self.shorts),
            references: rows(self.references),
        }
    }
}

impl HeapView {
    /// The heap that holds nothing.
    pub open spec fn empty() -> HeapView {
        HeapView {
            objects: Seq::empty(),
            ints: Seq::empty(),
            longs: Seq::empty(),
            floats: Seq::empty(),
            doubles: Seq::empty(),
            bytes: Seq::empty(),
            chars: Seq::empty(),
            shorts: Seq::empty(),
            references: Seq::empty(),
        }
    }

    /// Whether `reference` names an entity of this heap.
    pub open spec fn contains(self, reference: HeapType) -> bool {
        match reference {
            HeapType::Class(id) => id < self.objects.len(),
            HeapType::Interface => false,
            HeapType::ArrayI(id) => id < self.ints.len(),
            HeapType::ArrayL(id) => id < self.longs.len(),
            HeapType::ArrayF(id) => id < self.floats.len(),
            HeapType::ArrayD(id) => id < self.doubles.len(),
            HeapType::ArrayB(id) => id < self.bytes.len(),
            HeapType::ArrayC(id) => id < self.chars.len(),
            HeapType::ArrayS(id) => id < self.shorts.len(),
            HeapType::ArrayA(id) => id < self.references.len(),
        }
    }

    /// What an array load of the given kind pushes: the element, widened to
    /// a stack value. A null reference, a reference to something else than an
    /// array of that kind, and an index outside the array are each reported
    /// with an error of their own.
    pub open spec fn load(self, kind: ArrayKind, reference: Option<HeapType>, index: i32) -> Result<
        Type,
        ExecError,
    > {
        match reference {
            None => Err(ExecError::NullPointer),
            Some(target) => match (kind, target) {
                (ArrayKind::Int, HeapType::ArrayI(id)) => match cell(self.ints, id, index) {
                    Ok(v) => Ok(Type::Int(v)),
                    Err(e) => Err(e),
                },
                (ArrayKind::Long, HeapType::ArrayL(id)) => match cell(self.longs, id, index) {
                    Ok(v) => Ok(Type::Long(v)),
                    Err(e) => Err(e),
                },
                (ArrayKind::Float, HeapType::ArrayF(id)) => match cell(self.floats, id, index) {
                    Ok(v) => Ok(Type::Float(v)),
                    Err(e) => Err(e),
                },
                (ArrayKind::Double, HeapType::ArrayD(id)) => match cell(self.doubles, id, index) {
                    Ok(v) => Ok(Type::Double(v)),
                    Err(e) => Err(e),
                },
                (ArrayKind::Reference, HeapType::ArrayA(id)) => match cell(
                    self.references,
                    id,
                    index,
                ) {
                    Ok(v) => Ok(Type::Reference(v)),
                    Err(e) => Err(e),
                },
                (ArrayKind::Byte, HeapType::ArrayB(id)) => match cell(self.bytes, id, index) {
                    Ok(v) => Ok(Type::Int(v as i32)),
                    Err(e) => Err(e),
                },
                (ArrayKind::Char, HeapType::ArrayC(id)) => match cell(self.chars, id, index) {
                    Ok(v) => Ok(Type::Int(v as i32)),
                    Err(e) => Err(e),
                },
                (ArrayKind::Short, HeapType::ArrayS(id)) => match cell(self.shorts, id, index) {
                    Ok(v) => Ok(Type::Int(v as i32)),
                    Err(e) => Err(e),
                },
                _ => Err(ExecError::TypeMismatch),
            },
        }
    }

    /// The heap after an array store of the given kind. Bytes, chars and
    /// shorts keep the low bits of the int that is stored. A value of the
    /// wrong kind is a type mismatch; otherwise the errors are those of a
    /// load.
    pub open spec fn store(
        self,
        kind: ArrayKind,
        reference: Option<HeapType>,
        index: i32,
        value: Type,
    ) -> Result<HeapView, ExecError> {
        match reference {
            None => Err(ExecError::NullPointer),
            Some(target) => match (kind, target, value) {
                (ArrayKind::Int, HeapType::ArrayI(id), Type::Int(v)) => match with_cell(
                    self.ints,
                    id,
                    index,
                    v,
                ) {
                    Ok(rows) => Ok(HeapView { ints: rows, ..self }),
                    Err(e) => Err(e),
                },
                (ArrayKind::Long, HeapType::ArrayL(id), Type::Long(v)) => match with_cell(
                    self.longs,
                    id,
                    index,
                    v,
                ) {
                    Ok(rows) => Ok(HeapView { longs: rows, ..self }),
                    Err(e) => Err(e),
                },
                (ArrayKind::Float, HeapType::ArrayF(id), Type::Float(v)) => match with_cell(
                    self.floats,
                    id,
                    index,
                    v,
                ) {
                    Ok(rows) => Ok(HeapView { floats: rows, ..self }),
                    Err(e) => Err(e),
                },
                (ArrayKind::Double, HeapType::ArrayD(id), Type::Double(v)) => match with_cell(
                    self.doubles,
                    id,
                    index,
                    v,
                ) {
                    Ok(rows) => Ok(HeapView { doubles: rows, ..self }),
                    Err(e) => Err(e),
                },
                (ArrayKind::Reference, HeapType::ArrayA(id), Type::Reference(v)) => match with_cell(
                    self.references,
                    id,
                    index,
                    v,
                ) {
                    Ok(rows) => Ok(HeapView { references: rows, ..self }),
                    Err(e) => Err(e),
                },
                (ArrayKind::Byte, HeapType::ArrayB(id), Type::Int(v)) => match with_cell(
                    self.bytes,
                    id,
                    index,
                    low_byte(v),
                ) {
                    Ok(rows) => Ok(HeapView { bytes: rows, ..self }),
                    Err(e) => Err(e),
                },
                (ArrayKind::Char, HeapType::ArrayC(id), Type::Int(v)) => match with_cell(
                    self.chars,
                    id,
                    index,
                    low_char(v),
                ) {
                    Ok(rows) => Ok(HeapView { chars: rows, ..self }),
                    Err(e) => Err(e),
                },
                (ArrayKind::Short, HeapType::ArrayS(id), Type::Int(v)) => match with_cell(
                    self.shorts,
                    id,
                    index,
                    low_short(v),
                ) {
                    Ok(rows) => Ok(HeapView { shorts: rows, ..self }),
                    Err(e) => Err(e),
                },
                _ => Err(ExecError::TypeMismatch),
            },
        }
    }

    /// The reference that the next array of the given kind will get.
    pub open spec fn next_array(self, kind: ArrayKind) -> HeapType {
        match kind {
            ArrayKind::Int => HeapType::ArrayI(self.ints.len() as usize),
            ArrayKind::Long => HeapType::ArrayL(self.longs.len() as usize),
            ArrayKind::Float => HeapType::ArrayF(self.floats.len() as usize),
            ArrayKind::Double => HeapType::ArrayD(self.doubles.len() as usize),
            ArrayKind::Reference => HeapType::ArrayA(self.references.len() as usize),
            ArrayKind::Byte => HeapType::ArrayB(self.bytes.len() as usize),
            ArrayKind::Char => HeapType::ArrayC(self.chars.len() as usize),
            ArrayKind::Short => HeapType::ArrayS(self.shorts.len() as usize),
        }
    }

    /// The heap with one more array of the given kind and length, every
    /// element zero or null.
    pub open spec fn with_array(self, kind: ArrayKind, len: nat) -> HeapView {
        match kind {
            ArrayKind::Int => HeapView { ints: self.ints.push(Seq::new(len, |i: int| 0i32)), ..self },
            ArrayKind::Long => HeapView {
                longs: self.longs.push(Seq::new(len, |i: int| 0i64)),
                ..self
            },
            ArrayKind::Float => HeapView {
                floats: self.floats.push(Seq::new(len, |i: int| 0u32)),
                ..self
            },
            ArrayKind::Double => HeapView {
                doubles: self.doubles.push(Seq::new(len, |i: int| 0u64)),
                ..self
            },
            ArrayKind::Reference => HeapView {
                references: self.references.push(Seq::new(len, |i: int| None::<HeapType>)),
                ..self
            },
            ArrayKind::Byte => HeapView {
                bytes: self.bytes.push(Seq::new(len, |i: int| 0i8)),
                ..self
            },
            ArrayKind::Char => HeapView {
                chars: self.chars.push(Seq::new(len, |i: int| 0u16)),
                ..self
            },
            ArrayKind::Short => HeapView {
                shorts: self.shorts.push(Seq::new(len, |i: int| 0i16)),
                ..self
            },
        }
    }

    /// The heap with one more object.
    pub open spec fn with_object(self, fields: Map<Seq<char>, Option<Type>>) -> HeapView {
        HeapView { objects: self.objects.push(fields), ..self }
    }
}

/// Reads one element of one array of an arena.
fn arena_get<T: Copy>(arena: &Vec<Vec<T>>, id: usize, index: i32) -> (r: Result<T, ExecError>)
    ensures
        r == cell(rows(*arena), id, index),
{
    if id >= arena.len() {
        return Err(ExecError::DanglingReference);
    }
    let row = &arena[id];
    if index < 0 || index as usize >= row.len() {
        return Err(ExecError::IndexOutOfBounds);
    }
    Ok(row[index as usize])
}

/// Writes one element of one array of an arena; on an error nothing changes.
fn arena_set<T: Copy>(arena: &mut Vec<Vec<T>>, id: usize, index: i32, value: T) -> (r: Result<
    (),
    ExecError,
>)
    ensures
        match r {
            Ok(()) => with_cell(rows(*old(arena)), id, index, value) == Ok::<Seq<Seq<T>>, ExecError>(
                rows(*final(arena)),
            ),
            Err(e) => with_cell(rows(*old(arena)), id, index, value) == Err::<Seq<Seq<T>>, ExecError>(
                e,
            ) && *final(arena) == *old(arena),
        },
{
    if id >= arena.len() {
        return Err(ExecError::DanglingReference);
    }
    if index < 0 || index as usize >= arena[id].len() {
        return Err(ExecError::IndexOutOfBounds);
    }
    let ghost before = rows(*arena);
    let mut row: Vec<T> = Vec::new();
    core::mem::swap(&mut arena[id], &mut row);
    row.set(index as usize, value);
    core::mem::swap(&mut arena[id], &mut row);
    assert(rows(*arena) =~= before.update(id as int, before[id as int].update(index as int, value)));
    Ok(())
}

/// Adds an array of `len` copies of `zero` to an arena and gives its number.
fn arena_alloc<T: Copy>(arena: &mut Vec<Vec<T>>, len: usize, zero: T) -> (r: usize)
    ensures
        r == old(arena)@.len(),
        rows(*final(arena)) == rows(*old(arena)).push(Seq::new(len as nat, |i: int| zero)),
{
    let mut row: Vec<T> = Vec::new();
    let mut i: usize = 0;
    while i < len
        invariant
            i <= len,
            row@ =~= Seq::new(i as nat, |j: int| zero),
        decreases len - i,
    {
        row.push(zero);
        i += 1;
    }
    let id = arena.len();
    let ghost before = rows(*arena);
    arena.push(row);
    assert(rows(*arena) =~= before.push(Seq::new(len as nat, |i: int| zero)));
    id
}

impl Heap {
    /// A heap that holds nothing.
    pub fn new() -> (r: Heap)
        ensures
            r@ == HeapView::empty(),
    {
        let r = Heap {
            objects: Vec::new(),
            ints: Vec::new(),
            longs: Vec::new(),
            floats: Vec::new(),
            doubles: Vec::new(),
            bytes: Vec::new(),
            chars: Vec::new(),
            shorts: Vec::new(),
            references: Vec::new(),
        };
        assert(r@.objects =~= Seq::empty());
        assert(r@.ints =~= Seq::empty());
        assert(r@.longs =~= Seq::empty());
        assert(r@.floats =~= Seq::empty());
        assert(r@.doubles =~= Seq::empty());
        assert(r@.bytes =~= Seq::empty());
        assert(r@.chars =~= Seq::empty());
        assert(r@.shorts =~= Seq::empty());
        assert(r@.references =~= Seq::empty());
        r
    }

    /// Allocates an array of `len` elements, each zero or null, and returns
    /// the reference to it. The reference is one that named nothing before.
    pub fn new_array(&mut self, kind: ArrayKind, len: usize) -> (r: HeapType)
        ensures
            r == old(self)@.next_array(kind),
            !old(self)@.contains(r),
            final(self)@ == old(self)@.with_array(kind, len as nat),
    {
        match kind {
            ArrayKind::Int => HeapType::ArrayI(arena_alloc(&mut self.ints, len, 0i32)),
            ArrayKind::Long => HeapType::ArrayL(arena_alloc(&mut self.longs, len, 0i64)),
            ArrayKind::Float => HeapType::ArrayF(arena_alloc(&mut self.floats, len, 0u32)),
            ArrayKind::Double => HeapType::ArrayD(arena_alloc(&mut self.doubles, len, 0u64)),
            ArrayKind::Reference => HeapType::ArrayA(
                arena_alloc(&mut self.references, len, None::<HeapType>),
            ),
            ArrayKind::Byte => HeapType::ArrayB(arena_alloc(&mut self.bytes, len, 0i8)),
            ArrayKind::Char => HeapType::ArrayC(arena_alloc(&mut self.chars, len, 0u16)),
            ArrayKind::Short => HeapType::ArrayS(arena_alloc(&mut self.shorts, len, 0i16)),
        }
    }

    /// Adds an object to the heap and returns the reference to it. The
    /// reference is one that named nothing before.
    pub fn new_object(&mut self, instance: Instance) -> (r: HeapType)
        ensures
            r == HeapType::Class(old(self).objects@.len() as usize),
            !old(self)@.contains(r),
            final(self)@ == old(self)@.with_object(instance.fields@),
    {
        let id = self.objects.len();
        let ghost before = self@.objects;
        self.objects.push(instance);
        assert(self@.objects =~= before.push(instance.fields@));
        HeapType::Class(id)
    }

    /// Reads the element at `index` of the array that `reference` names.
    pub fn load(&self, kind: ArrayKind, reference: Option<HeapType>, index: i32) -> (r: Result<
        Type,
        ExecError,
    >)
        ensures
            r == self@.load(kind, reference, index),
    {
        let target = match reference {
            None => { return Err(ExecError::NullPointer); },
            Some(t) => t,
        };
        match (kind, target) {
            (ArrayKind::Int, HeapType::ArrayI(id)) => Ok(Type::Int(arena_get(&self.ints, id, index)?)),
            (ArrayKind::Long, HeapType::ArrayL(id)) => Ok(
                Type::Long(arena_get(&self.longs, id, index)?),
            ),
            (ArrayKind::Float, HeapType::ArrayF(id)) => Ok(
                Type::Float(arena_get(&self.floats, id, index)?),
            ),
            (ArrayKind::Double, HeapType::ArrayD(id)) => Ok(
                Type::Double(arena_get(&self.doubles, id, index)?),
            ),
            (ArrayKind::Reference, HeapType::ArrayA(id)) => Ok(
                Type::Reference(arena_get(&self.references, id, index)?),
            ),
            (ArrayKind::Byte, HeapType::ArrayB(id)) => Ok(
                Type::Int(arena_get(&self.bytes, id, index)? as i32),
            ),
            (ArrayKind::Char, HeapType::ArrayC(id)) => Ok(
                Type::Int(arena_get(&self.chars, id, index)? as i32),
            ),
            (ArrayKind::Short, HeapType::ArrayS(id)) => Ok(
                Type::Int(arena_get(&self.shorts, id, index)? as i32),
            ),
            _ => Err(ExecError::TypeMismatch),
        }
    }

    /// Stores `value` at `index` of the array that `reference` names. On an
    /// error the heap is unchanged.
    pub fn store(
        &mut self,
        kind: ArrayKind,
        reference: Option<HeapType>,
        index: i32,
        value: Type,
    ) -> (r: Result<(), ExecError>)
        ensures
            match r {
                Ok(()) => old(self)@.store(kind, reference, index, value) == Ok::<
                    HeapView,
                    ExecError,
                >(final(self)@),
                Err(e) => old(self)@.store(kind, reference, index, value) == Err::<
                    HeapView,
                    ExecError,
                >(e) && final(self)@ == old(self)@,
            },
    {
        let target = match reference {
            None => { return Err(ExecError::NullPointer); },
            Some(t) => t,
        };
        match (kind, target, value) {
            (ArrayKind::Int, HeapType::ArrayI(id), Type::Int(v)) => arena_set(
                &mut self.ints,
                id,
                index,
                v,
            ),
            (ArrayKind::Long, HeapType::ArrayL(id), Type::Long(v)) => arena_set(
                &mut self.longs,
                id,
                index,
                v,
            ),
            (ArrayKind::Float, HeapType::ArrayF(id), Type::Float(v)) => arena_set(
                &mut self.floats,
                id,
                index,
                v,
            ),
            (ArrayKind::Double, HeapType::ArrayD(id), Type::Double(v)) => arena_set(
                &mut self.doubles,
                id,
                index,
                v,
            ),
            (ArrayKind::Reference, HeapType::ArrayA(id), Type::Reference(v)) => arena_set(
                &mut self.references,
                id,
                index,
                v,
            ),
            (ArrayKind::Byte, HeapType::ArrayB(id), Type::Int(v)) => arena_set(
                &mut self.bytes,
                id,
                index,
                to_low_byte(v),
            ),
            (ArrayKind::Char, HeapType::ArrayC(id), Type::Int(v)) => arena_set(
                &mut self.chars,
                id,
                index,
                to_low_char(v),
            ),
            (ArrayKind::Short, HeapType::ArrayS(id), Type::Int(v)) => arena_set(
                &mut self.shorts,
                id,
                index,
                to_low_short(v),
            ),
            _ => Err(ExecError::TypeMismatch),
        }
    }
}


/// A new object is a new entity: its reference names nothing that was on
/// the heap before, so it differs from every reference to an older entity,
/// of whatever kind. The older entities stay where they are and keep what
/// they hold, and the new object holds the fields it was made with.
pub proof fn lemma_new_object_is_fresh(h: HeapView, fields: Map<Seq<char>, Option<Type>>)
    requires
        h.objects.len() < usize::MAX,
    ensures
        !h.contains(HeapType::Class(h.objects.len() as usize)),
        h.with_object(fields).contains(HeapType::Class(h.objects.len() as usize)),
        h.with_object(fields).objects[h.objects.len() as int] == fields,
        forall|other: HeapType| #[trigger]
            h.contains(other) ==> other != HeapType::Class(h.objects.len() as usize) && h.with_object(
                fields,
            ).contains(other),
        forall|i: int|
            0 <= i < h.objects.len() ==> (#[trigger] h.with_object(fields).objects[i]) == h.objects[i],
        h.with_object(fields).ints == h.ints,
        h.with_object(fields).longs == h.longs,
        h.with_object(fields).floats == h.floats,
        h.with_object(fields).doubles == h.doubles,
        h.with_object(fields).bytes == h.bytes,
        h.with_object(fields).chars == h.chars,
        h.with_object(fields).shorts == h.shorts,
        h.with_object(fields).references == h.references,
{
}

/// What a load gives back of a value that was stored into an array of the
/// given kind: the value itself, but for bytes, chars and shorts, which keep
/// its low bits.
pub open spec fn as_stored(kind: ArrayKind, value: Type) -> Type {
    match (kind, value) {
        (ArrayKind::Byte, Type::Int(v)) => Type::Int(low_byte(v) as i32),
        (ArrayKind::Char, Type::Int(v)) => Type::Int(low_char(v) as i32),
        (ArrayKind::Short, Type::Int(v)) => Type::Int(low_short(v) as i32),
        _ => value,
    }
}

/// Writing one element of one array changes that element and no other.
pub proof fn lemma_with_cell<T>(rows: Seq<Seq<T>>, id: usize, index: i32, value: T)
    requires
        with_cell(rows, id, index, value) is Ok,
    ensures
        cell(with_cell(rows, id, index, value)->Ok_0, id, index) == Ok::<T, ExecError>(value),
        forall|other: usize, at: i32|
            (other != id || at != index) ==> #[trigger] cell(
                with_cell(rows, id, index, value)->Ok_0,
                other,
                at,
            ) == cell(rows, other, at),
{
}

/// A store into an array is seen through every reference to that array, and
/// through no other: after it, a load of the same kind through the same
/// reference at the same index gives what was stored, and every other load
/// gives what it gave before. Objects are as they were.
pub proof fn lemma_store_is_shared(
    h: HeapView,
    kind: ArrayKind,
    reference: Option<HeapType>,
    index: i32,
    value: Type,
)
    requires
        h.store(kind, reference, index, value) is Ok,
    ensures
        ({
            let after = h.store(kind, reference, index, value)->Ok_0;
            &&& after.load(kind, reference, index) == Ok::<Type, ExecError>(as_stored(kind, value))
            &&& after.objects == h.objects
            &&& forall|other_kind: ArrayKind, other: Option<HeapType>, at: i32|
                (other != reference || at != index) ==> #[trigger] after.load(other_kind, other, at)
                    == h.load(other_kind, other, at)
        }),
{
    let after = h.store(kind, reference, index, value)->Ok_0;
    match (kind, reference->Some_0, value) {
        (ArrayKind::Int, HeapType::ArrayI(id), Type::Int(v)) => {
            lemma_with_cell(h.ints, id, index, v);
        },
        (ArrayKind::Long, HeapType::ArrayL(id), Type::Long(v)) => {
            lemma_with_cell(h.longs, id, index, v);
        },
        (ArrayKind::Float, HeapType::ArrayF(id), Type::Float(v)) => {
            lemma_with_cell(h.floats, id, index, v);
        },
        (ArrayKind::Double, HeapType::ArrayD(id), Type::Double(v)) => {
            lemma_with_cell(h.doubles, id, index, v);
        },
        (ArrayKind::Reference, HeapType::ArrayA(id), Type::Reference(v)) => {
            lemma_with_cell(h.references, id, index, v);
        },
        (ArrayKind::Byte, HeapType::ArrayB(id), Type::Int(v)) => {
            lemma_with_cell(h.bytes, id, index, low_byte(v));
        },
        (ArrayKind::Char, HeapType::ArrayC(id), Type::Int(v)) => {
            lemma_with_cell(h.chars, id, index, low_char(v));
        },
        (ArrayKind::Short, HeapType::ArrayS(id), Type::Int(v)) => {
            lemma_with_cell(h.shorts, id, index, low_short(v));
        },
        _ => {},
    }
    assert forall|other_kind: ArrayKind, other: Option<HeapType>, at: i32|
        (other != reference || at != index) implies #[trigger] after.load(other_kind, other, at) == h.load(
        other_kind,
        other,
        at,
    ) by {
        match other {
            None => {},
            Some(HeapType::ArrayI(id)) => {},
            Some(HeapType::ArrayL(id)) => {},
            Some(HeapType::ArrayF(id)) => {},
            Some(HeapType::ArrayD(id)) => {},
            Some(HeapType::ArrayA(id)) => {},
            Some(HeapType::ArrayB(id)) => {},
            Some(HeapType::ArrayC(id)) => {},
            Some(HeapType::ArrayS(id)) => {},
            Some(_) => {},
        }
    }
}

} // verus!
