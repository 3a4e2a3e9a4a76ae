use vstd::prelude::*;
use vstd::string::*;
use crate::error::{ExecError, LoadError};
use crate::jvm::resolver::{
    closed, complete, file_of, grown, made_from, needs_loading, required, Resolver,
};
use crate::parser::classfile::{parse_class, ClassFileView};
use crate::parser::record::models;
use crate::jvm::eval::{evaluate_effect, evaluated, Eval, Frame, Signal};
use crate::jvm::heap::{Heap, HeapView};
use crate::jvm::static_class::ClassStatics;
use crate::table::Table;

pub mod arith;
pub mod dynamic_class;
pub mod eval;
pub mod helpers;
pub mod heap;
pub mod ops;
pub mod resolver;
pub mod static_class;
pub mod types;

verus! {

/// The loaded program: its classes by name, and the name of the class whose
/// `main` starts it. The class table is not changed once it is built.
#[derive(Debug)]
pub struct JVM {
    pub entrypoint: String,
    pub classes: Table<ClassStatics>,
}


/// The key of the method that starts a program.
pub open spec fn main_key() -> Seq<char> {
    "main:([Ljava/lang/String;)V"@
}

impl JVM {
    /// A machine for the given classes that starts in the class named
    /// `entrypoint`.
    pub fn new(entrypoint: String, classes: Table<ClassStatics>) -> (r: JVM)
        ensures
            r.entrypoint == entrypoint,
            r.classes == classes,
    {
        JVM { entrypoint, classes }
    }

    /// What `start` gives: without the entry class nothing runs; with it,
    /// its static `main` is invoked.
    pub open spec fn start_effect(&self, h: HeapView, fuel: nat) -> (
        Result<Signal, ExecError>,
        Option<crate::jvm::eval::FrameView>,
        HeapView,
    ) {
        if !self.classes@.contains_key(self.entrypoint@) {
            (Err(ExecError::UnresolvedClass), None, h)
        } else {
            evaluate_effect(self.classes@[self.entrypoint@].methods@, main_key(), h, self.classes@, fuel)
        }
    }

    /// Runs the static `main` of the entry class for up to `fuel` steps.
    pub fn start(&self, heap: &mut Heap, fuel: u64) -> (r: Result<(Signal, Frame), ExecError>)
        ensures
            evaluated(r, final(heap)@, self.start_effect(old(heap)@, fuel as nat)),
    {
        let class = match self.classes.get(&self.entrypoint) {
            None => { return Err(ExecError::UnresolvedClass); },
            Some(class) => class,
        };
        class.evaluate(self, String::from_str("main:([Ljava/lang/String;)V"), heap, fuel)
    }
}


/// The table that holds one class.
pub open spec fn single(name: Seq<char>, statics: ClassStatics) -> Map<Seq<char>, ClassStatics> {
    Map::<Seq<char>, ClassStatics>::empty().insert(name, statics)
}

/// Why a load fails with the error `e`: the entry class does not decode, or
/// something is wrong with the file of a class that the load requires.
pub open spec fn load_failure(entry: Seq<u8>, files: Map<Seq<char>, Vec<u8>>, e: LoadError) -> bool {
    match parse_class(entry) {
        Err(d) => e == LoadError::Decode(d),
        Ok((name, class, depends)) => exists|module: Seq<char>|
            (forall|statics: ClassStatics| #[trigger]
                required(module, single(name, statics), files, depends)) && #[trigger] file_of(
                files,
                module,
            ) == Err::<(ClassFileView, Seq<Seq<char>>), LoadError>(e),
    }
}

/// Whether a class is required depends on the names in the table only, not
/// on the classes under them.
pub proof fn lemma_required_by_names(
    module: Seq<char>,
    one: Map<Seq<char>, ClassStatics>,
    other: Map<Seq<char>, ClassStatics>,
    files: Map<Seq<char>, Vec<u8>>,
    depends: Seq<Seq<char>>,
)
    requires
        one.dom() == other.dom(),
        required(module, one, files, depends),
    ensures
        required(module, other, files, depends),
{
    assert forall|names: Set<Seq<char>>| #[trigger]
        closed(names, other, files, depends) implies names.contains(module) by {
        assert forall|k: Seq<char>| needs_loading(one, k) == needs_loading(other, k) by {
            assert(one.contains_key(k) == one.dom().contains(k));
            assert(other.contains_key(k) == other.dom().contains(k));
        }
        assert(closed(names, one, files, depends));
    }
    assert(one.contains_key(module) == one.dom().contains(module));
    assert(other.contains_key(module) == other.dom().contains(module));
}

impl JVM {
    /// Loads a program: the class in the bytes `entry`, which becomes the
    /// entry class under the name that its file gives it, and every class
    /// that it leads to, each from its file in `files`.
    ///
    /// On success the class table holds the entry class and exactly the
    /// classes that the load required, and it is complete. An error says that
    /// the entry class does not decode, or what went wrong with the file of a
    /// required class.
    pub fn from_files(entry: &[u8], files: &Table<Vec<u8>>) -> (r: Result<JVM, LoadError>)
        ensures
            match r {
                Ok(jvm) => parse_class(entry@) is Ok && {
                    let (name, class, depends) = parse_class(entry@)->Ok_0;
                    let first = single(name, jvm.classes@[name]);
                    &&& jvm.entrypoint@ == name
                    &&& jvm.classes@.contains_key(name)
                    &&& made_from(jvm.classes@[name], class)
                    &&& grown(first, jvm.classes@, files@, depends)
                    &&& complete(first, jvm.classes@, files@, depends)
                },
                Err(e) => load_failure(entry@, files@, e),
            },
    {
        let mut resolver = Resolver::new();
        let (name, depends) = match resolver.add(entry) {
            Err(e) => { return Err(LoadError::Decode(e)); },
            Ok(added) => added,
        };
        let ghost first = resolver.resolved@;
        let ghost statics = first[name@];
        assert(first =~= single(name@, statics));
        let ghost wanted = models(depends@);
        match resolver.resolve(depends, files) {
            Err(e) => {
                proof {
                    let module = choose|module: Seq<char>|
                        required(module, first, files@, wanted) && #[trigger] file_of(files@, module)
                            == Err::<(ClassFileView, Seq<Seq<char>>), LoadError>(e);
                    assert forall|other: ClassStatics| #[trigger]
                        required(module, single(name@, other), files@, wanted) by {
                        assert(single(name@, other).dom() =~= first.dom());
                        lemma_required_by_names(module, first, single(name@, other), files@, wanted);
                    }
                }
                Err(e)
            },
            Ok(()) => {
                let jvm = JVM { entrypoint: name, classes: resolver.resolved };
                assert(jvm.classes@[name@] == statics);
                Ok(jvm)
            },
        }
    }
}

} // verus!
