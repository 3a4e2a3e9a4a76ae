use vstd::prelude::*;
use crate::jvm::dynamic_class::{unset_fields, ClassDynamics};
use crate::jvm::heap::Heap;
use crate::jvm::types::HeapType;
use crate::parser::attribute_info::attribute::Attribute;
use crate::parser::classfile::{ClassAccessFlags, ClassFile};
use crate::parser::cp_info_resolved::Class;
use crate::parser::field_info::FieldInfo;
use crate::parser::method_info::MethodInfo;
use crate::table::{distinct_keys, lemma_pairs_distinct, lemma_pairs_domain, Table};

verus! {

/// A loaded class: what belongs to the class itself, and the shape of its
/// objects.
#[derive(Debug)]
pub struct ClassStatics {
    pub access_flags: ClassAccessFlags,
    pub super_class: Class,
    pub interfaces: Vec<u16>,
    pub fields: Table<FieldInfo>,
    pub methods: Table<MethodInfo>,
    pub attributes: Vec<Attribute>,
    pub dynamic: ClassDynamics,
}

impl ClassStatics {
    /// Creates an object of this class on `heap` and returns the reference
    /// to it. The reference named nothing on the heap before, every field of
    /// the object is unset, and nothing else on the heap changes.
    pub fn instantiate(&self, heap: &mut Heap) -> (r: HeapType)
        ensures
            r == HeapType::Class(old(heap)@.objects.len() as usize),
            !old(heap)@.contains(r),
            final(heap)@ == old(heap)@.with_object(unset_fields(self.dynamic.fields@)),
    {
        let instance = self.dynamic.instance();
        heap.new_object(instance)
    }
}


/// A field or a method, which belongs either to its class or to each object
/// of the class.
pub trait Scoped: Sized {
    /// Whether the member carries the static flag.
    spec fn is_static(&self) -> bool;

    /// Whether the member carries the static flag.
    fn check_static(&self) -> (r: bool)
        ensures
            r == self.is_static(),
    ;
}

impl Scoped for FieldInfo {
    open spec fn is_static(&self) -> bool {
        self.access_flags.spec_contains(crate::parser::field_info::Flags::AccStatic)
    }

    fn check_static(&self) -> (r: bool) {
        self.access_flags.contains(crate::parser::field_info::Flags::AccStatic)
    }
}

impl Scoped for MethodInfo {
    open spec fn is_static(&self) -> bool {
        self.access_flags.spec_contains(crate::parser::method_info::Flags::AccStatic)
    }

    fn check_static(&self) -> (r: bool) {
        self.access_flags.contains(crate::parser::method_info::Flags::AccStatic)
    }
}

/// The members of a table that are static (`statics` true) or not static
/// (`statics` false), under their keys.
pub open spec fn scope_part<T: Scoped>(table: Map<Seq<char>, T>, statics: bool) -> Map<Seq<char>, T> {
    Map::new(
        |k: Seq<char>| table.contains_key(k) && table[k].is_static() == statics,
        |k: Seq<char>| table[k],
    )
}

/// Splits a table of members into the static ones and the others.
pub fn split_by_scope<T: Scoped>(table: Table<T>) -> (r: (Table<T>, Table<T>))
    ensures
        r.0@ == scope_part(table@, true),
        r.1@ == scope_part(table@, false),
{
    let ghost whole = table@;
    let ghost pairs = table.pairs();
    let mut entries = table.into_entries();
    let ghost all = entries@;
    let mut statics: Table<T> = Table::new();
    let mut others: Table<T> = Table::new();
    let n = entries.len();
    let mut i: usize = n;
    while i > 0
        invariant
            i <= n,
            n == all.len(),
            pairs == all.map_values(|e: (String, T)| (e.0@, e.1)),
            entries@ == all.take(i as int),
            forall|k: Seq<char>|
                statics@.contains_key(k) <==> exists|j: int|
                    i <= j < n && pairs[j].0 == k && pairs[j].1.is_static(),
            forall|k: Seq<char>|
                others@.contains_key(k) <==> exists|j: int|
                    i <= j < n && pairs[j].0 == k && !pairs[j].1.is_static(),
            forall|j: int|
                i <= j < n && pairs[j].1.is_static() ==> statics@[(#[trigger] pairs[j]).0] == pairs[j].1,
            forall|j: int|
                i <= j < n && !pairs[j].1.is_static() ==> others@[(#[trigger] pairs[j]).0] == pairs[j].1,
            distinct_keys(pairs),
        decreases i,
    {
        let last = entries.pop();
        i = i - 1;
        assert(entries@ =~= all.take(i as int));
        let (key, value) = last.unwrap();
        assert(key@ == pairs[i as int].0 && value == pairs[i as int].1);
        let ghost old_statics = statics@;
        let ghost old_others = others@;
        if value.check_static() {
            statics.insert(key, value);
            proof {
                assert forall|k: Seq<char>|
                    statics@.contains_key(k) <==> exists|j: int|
                        i <= j < n && pairs[j].0 == k && pairs[j].1.is_static() by {
                    if statics@.contains_key(k) {
                        if k == pairs[i as int].0 {
                            assert(i <= i < n && pairs[i as int].0 == k && pairs[i as int].1.is_static());
                        } else {
                            assert(old_statics.contains_key(k));
                            let j = choose|j: int|
                                i + 1 <= j < n && pairs[j].0 == k && pairs[j].1.is_static();
                            assert(i <= j < n && pairs[j].0 == k && pairs[j].1.is_static());
                        }
                    }
                    if exists|j: int| i <= j < n && pairs[j].0 == k && pairs[j].1.is_static() {
                        let j = choose|j: int| i <= j < n && pairs[j].0 == k && pairs[j].1.is_static();
                        if j > i {
                            assert(i + 1 <= j < n && pairs[j].0 == k && pairs[j].1.is_static());
                        }
                    }
                }
                assert forall|k: Seq<char>|
                    others@.contains_key(k) <==> exists|j: int|
                        i <= j < n && pairs[j].0 == k && !pairs[j].1.is_static() by {
                    if others@.contains_key(k) {
                        let j = choose|j: int|
                            i + 1 <= j < n && pairs[j].0 == k && !pairs[j].1.is_static();
                        assert(i <= j < n && pairs[j].0 == k && !pairs[j].1.is_static());
                    }
                    if exists|j: int| i <= j < n && pairs[j].0 == k && !pairs[j].1.is_static() {
                        let j = choose|j: int| i <= j < n && pairs[j].0 == k && !pairs[j].1.is_static();
                        assert(i + 1 <= j < n && pairs[j].0 == k && !pairs[j].1.is_static());
                    }
                }
                assert forall|j: int| i <= j < n && pairs[j].1.is_static() implies statics@[(
                #[trigger] pairs[j]).0] == pairs[j].1 by {
                    if j > i {
                        assert(pairs[j].0 != pairs[i as int].0);
                    }
                }
            }
        } else {
            others.insert(key, value);
            proof {
                assert forall|k: Seq<char>|
                    others@.contains_key(k) <==> exists|j: int|
                        i <= j < n && pairs[j].0 == k && !pairs[j].1.is_static() by {
                    if others@.contains_key(k) {
                        if k == pairs[i as int].0 {
                            assert(i <= i < n && pairs[i as int].0 == k && !pairs[i as int].1.is_static());
                        } else {
                            assert(old_others.contains_key(k));
                            let j = choose|j: int|
                                i + 1 <= j < n && pairs[j].0 == k && !pairs[j].1.is_static();
                            assert(i <= j < n && pairs[j].0 == k && !pairs[j].1.is_static());
                        }
                    }
                    if exists|j: int| i <= j < n && pairs[j].0 == k && !pairs[j].1.is_static() {
                        let j = choose|j: int| i <= j < n && pairs[j].0 == k && !pairs[j].1.is_static();
                        if j > i {
                            assert(i + 1 <= j < n && pairs[j].0 == k && !pairs[j].1.is_static());
                        }
                    }
                }
                assert forall|k: Seq<char>|
                    statics@.contains_key(k) <==> exists|j: int|
                        i <= j < n && pairs[j].0 == k && pairs[j].1.is_static() by {
                    if statics@.contains_key(k) {
                        let j = choose|j: int|
                            i + 1 <= j < n && pairs[j].0 == k && pairs[j].1.is_static();
                        assert(i <= j < n && pairs[j].0 == k && pairs[j].1.is_static());
                    }
                    if exists|j: int| i <= j < n && pairs[j].0 == k && pairs[j].1.is_static() {
                        let j = choose|j: int| i <= j < n && pairs[j].0 == k && pairs[j].1.is_static();
                        assert(i + 1 <= j < n && pairs[j].0 == k && pairs[j].1.is_static());
                    }
                }
                assert forall|j: int| i <= j < n && !pairs[j].1.is_static() implies others@[(
                #[trigger] pairs[j]).0] == pairs[j].1 by {
                    if j > i {
                        assert(pairs[j].0 != pairs[i as int].0);
                    }
                }
            }
        }
    }
    proof {
        lemma_pairs_distinct(pairs);
        assert forall|k: Seq<char>| statics@.contains_key(k) <==> scope_part(whole, true).contains_key(
            k,
        ) by {
            lemma_pairs_domain(pairs, k);
            if statics@.contains_key(k) {
                let j = choose|j: int| 0 <= j < n && pairs[j].0 == k && pairs[j].1.is_static();
                assert(whole[pairs[j].0] == pairs[j].1);
            }
            if scope_part(whole, true).contains_key(k) {
                let j = choose|j: int| 0 <= j < pairs.len() && pairs[j].0 == k;
                assert(whole[pairs[j].0] == pairs[j].1);
            }
        }
        assert forall|k: Seq<char>| statics@.contains_key(k) implies statics@[k] == scope_part(
            whole,
            true,
        )[k] by {
            let j = choose|j: int| 0 <= j < n && pairs[j].0 == k && pairs[j].1.is_static();
            assert(whole[pairs[j].0] == pairs[j].1);
            assert(statics@[pairs[j].0] == pairs[j].1);
        }
        assert(statics@ =~= scope_part(whole, true));
        assert forall|k: Seq<char>| others@.contains_key(k) <==> scope_part(whole, false).contains_key(
            k,
        ) by {
            lemma_pairs_domain(pairs, k);
            if others@.contains_key(k) {
                let j = choose|j: int| 0 <= j < n && pairs[j].0 == k && !pairs[j].1.is_static();
                assert(whole[pairs[j].0] == pairs[j].1);
            }
            if scope_part(whole, false).contains_key(k) {
                let j = choose|j: int| 0 <= j < pairs.len() && pairs[j].0 == k;
                assert(whole[pairs[j].0] == pairs[j].1);
            }
        }
        assert forall|k: Seq<char>| others@.contains_key(k) implies others@[k] == scope_part(
            whole,
            false,
        )[k] by {
            let j = choose|j: int| 0 <= j < n && pairs[j].0 == k && !pairs[j].1.is_static();
            assert(whole[pairs[j].0] == pairs[j].1);
            assert(others@[pairs[j].0] == pairs[j].1);
        }
        assert(others@ =~= scope_part(whole, false));
    }
    (statics, others)
}

impl ClassStatics {
    /// Makes a loaded class from what its file holds: the fields and methods
    /// that carry the static flag stay with the class, the others make up
    /// the shape of its objects. Nothing else changes.
    pub fn from(cf: ClassFile) -> (r: Self)
        ensures
            r.access_flags == cf.access_flags,
            r.super_class == cf.super_class,
            r.interfaces == cf.interfaces,
            r.attributes == cf.attributes,
            r.fields@ == scope_part(cf.fields@, true),
            r.methods@ == scope_part(cf.methods@, true),
            r.dynamic.fields@ == scope_part(cf.fields@, false),
            r.dynamic.methods@ == scope_part(cf.methods@, false),
    {
        let (static_fields, dynamic_fields) = split_by_scope(cf.fields);
        let (static_methods, dynamic_methods) = split_by_scope(cf.methods);
        ClassStatics {
            access_flags: cf.access_flags,
            super_class: cf.super_class,
            interfaces: cf.interfaces,
            fields: static_fields,
            methods: static_methods,
            attributes: cf.attributes,
            dynamic: ClassDynamics { fields: dynamic_fields, methods: dynamic_methods },
        }
    }
}

} // verus!
