use vstd::prelude::*;
use crate::jvm::heap::Instance;
use crate::jvm::types::Type;
use crate::parser::field_info::FieldInfo;
use crate::parser::method_info::MethodInfo;
use crate::table::{lemma_pairs_domain, Table};

verus! {

/// The fields of a fresh object of a class whose instance fields are
/// `template`: one slot for each field, every slot unset.
pub open spec fn unset_fields(template: Map<Seq<char>, FieldInfo>) -> Map<Seq<char>, Option<Type>> {
    Map::new(|k: Seq<char>| template.contains_key(k), |k: Seq<char>| None::<Type>)
}

/// The part of a class that each of its objects has: the instance fields and
/// the instance methods, under their keys. Objects are stamped from it.
#[derive(Debug)]
pub struct ClassDynamics {
    pub fields: Table<FieldInfo>,
    pub methods: Table<MethodInfo>,
}

impl ClassDynamics {
    /// A fresh object of this shape, with every field unset.
    pub fn instance(&self) -> (r: Instance)
        ensures
            r.fields@ == unset_fields(self.fields@),
    {
        let mut fields: Table<Option<Type>> = Table::new();
        let n = self.fields.len();
        let mut i: usize = 0;
        while i < n
            invariant
                i <= n,
                n == self.fields.pairs().len(),
                forall|k: Seq<char>|
                    fields@.contains_key(k) <==> exists|j: int|
                        0 <= j < i && self.fields.pairs()[j].0 == k,
                forall|k: Seq<char>| fields@.contains_key(k) ==> fields@[k] == None::<Type>,
            decreases n - i,
        {
            let key = self.fields.key_at(i).clone();
            let ghost before = fields@;
            fields.insert(key, None);
            proof {
                assert forall|k: Seq<char>|
                    fields@.contains_key(k) <==> exists|j: int|
                        0 <= j < i + 1 && self.fields.pairs()[j].0 == k by {
                    if fields@.contains_key(k) {
                        if before.contains_key(k) {
                            let j = choose|j: int| 0 <= j < i && self.fields.pairs()[j].0 == k;
                            assert(0 <= j < i + 1 && self.fields.pairs()[j].0 == k);
                        } else {
                            assert(self.fields.pairs()[i as int].0 == k);
                        }
                    }
                    if exists|j: int| 0 <= j < i + 1 && self.fields.pairs()[j].0 == k {
                        let j = choose|j: int| 0 <= j < i + 1 && self.fields.pairs()[j].0 == k;
                        if j < i {
                            assert(before.contains_key(k));
                        }
                    }
                }
            }
            i += 1;
        }
        proof {
            assert forall|k: Seq<char>| fields@.contains_key(k) <==> self.fields@.contains_key(k) by {
                lemma_pairs_domain(self.fields.pairs(), k);
            }
            assert(fields@ =~= unset_fields(self.fields@));
        }
        Instance { fields }
    }
}

} // verus!
