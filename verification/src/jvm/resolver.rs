use vstd::prelude::*;
use vstd::string::*;
use crate::error::{DecodeError, LoadError};
use crate::jvm::static_class::{scope_part, ClassStatics};
use crate::parser::classfile::{parse_class, ClassFile, ClassFileView};
use crate::parser::record::models;
use crate::table::Table;

verus! {

/// The name of the class that every class descends from. It is never
/// loaded: a class that names it as its superclass has no further ancestor.
pub open spec fn root_class() -> Seq<char> {
    "java/lang/Object"@
}

/// Whether a class of that name has yet to be loaded: it is not the root
/// class and not in the table.
pub open spec fn needs_loading(table: Map<Seq<char>, ClassStatics>, module: Seq<char>) -> bool {
    module != root_class() && !table.contains_key(module)
}

/// The loaded class `statics` holds what the class file `cf` holds, with the
/// static fields and methods parted from the others.
pub open spec fn split_of(statics: ClassStatics, cf: ClassFile) -> bool {
    &&& statics.access_flags == cf.access_flags
    &&& statics.super_class == cf.super_class
    &&& statics.interfaces == cf.interfaces
    &&& statics.attributes == cf.attributes
    &&& statics.fields@ == scope_part(cf.fields@, true)
    &&& statics.methods@ == scope_part(cf.methods@, true)
    &&& statics.dynamic.fields@ == scope_part(cf.fields@, false)
    &&& statics.dynamic.methods@ == scope_part(cf.methods@, false)
}

/// The loaded class `statics` was made from a class file with the contents
/// `class`.
pub open spec fn made_from(statics: ClassStatics, class: ClassFileView) -> bool {
    exists|cf: ClassFile| cf@ == class && split_of(statics, cf)
}

/// What the file under a class's name gives: the class and the names that it
/// refers to. The file must be there, must decode, and must hold a class of
/// that name.
pub open spec fn file_of(files: Map<Seq<char>, Vec<u8>>, module: Seq<char>) -> Result<
    (ClassFileView, Seq<Seq<char>>),
    LoadError,
> {
    if !files.contains_key(module) {
        Err(LoadError::NotFound)
    } else {
        match parse_class(files[module]@) {
            Err(e) => Err(LoadError::Decode(e)),
            Ok((name, class, depends)) => if name != module {
                Err(LoadError::NameMismatch)
            } else {
                Ok((class, depends))
            },
        }
    }
}

/// The names that the class in the file under `module` refers to.
pub open spec fn depends_of(files: Map<Seq<char>, Vec<u8>>, module: Seq<char>) -> Seq<Seq<char>> {
    file_of(files, module)->Ok_0.1
}

/// A set of names that holds every class which a load must bring in: each
/// requested name that is yet to be loaded, and each name yet to be loaded
/// that a member of the set refers to.
pub open spec fn closed(
    names: Set<Seq<char>>,
    before: Map<Seq<char>, ClassStatics>,
    files: Map<Seq<char>, Vec<u8>>,
    depends: Seq<Seq<char>>,
) -> bool {
    &&& forall|i: int|
        0 <= i < depends.len() && needs_loading(before, #[trigger] depends[i]) ==> names.contains(
            depends[i],
        )
    &&& forall|k: Seq<char>, i: int|
        names.contains(k) && file_of(files, k) is Ok && 0 <= i < depends_of(files, k).len()
            && needs_loading(before, #[trigger] depends_of(files, k)[i]) ==> names.contains(
            depends_of(files, k)[i],
        )
}

/// A class that every load of the requested names must bring in.
pub open spec fn required(
    module: Seq<char>,
    before: Map<Seq<char>, ClassStatics>,
    files: Map<Seq<char>, Vec<u8>>,
    depends: Seq<Seq<char>>,
) -> bool {
    needs_loading(before, module) && forall|names: Set<Seq<char>>| #[trigger]
        closed(names, before, files, depends) ==> names.contains(module)
}

/// The class table `after` is `before` with the required classes added, each
/// made from its file.
pub open spec fn grown(
    before: Map<Seq<char>, ClassStatics>,
    after: Map<Seq<char>, ClassStatics>,
    files: Map<Seq<char>, Vec<u8>>,
    depends: Seq<Seq<char>>,
) -> bool {
    &&& forall|k: Seq<char>|
        #![trigger before.contains_key(k)]
        before.contains_key(k) ==> after.contains_key(k) && after[k] == before[k]
    &&& forall|k: Seq<char>|
        #![trigger after.contains_key(k)]
        after.contains_key(k) && !before.contains_key(k) ==> required(k, before, files, depends)
            && file_of(files, k) is Ok && made_from(after[k], file_of(files, k)->Ok_0.0)
}

/// Every name of the list is the root class or in the table.
pub open spec fn satisfied(table: Map<Seq<char>, ClassStatics>, names: Seq<Seq<char>>) -> bool {
    forall|i: int| 0 <= i < names.len() ==> !needs_loading(table, #[trigger] names[i])
}

/// The table holds every class that the requested names lead to: the
/// requested names themselves and, for each class that was added, the names
/// that it refers to.
pub open spec fn complete(
    before: Map<Seq<char>, ClassStatics>,
    after: Map<Seq<char>, ClassStatics>,
    files: Map<Seq<char>, Vec<u8>>,
    depends: Seq<Seq<char>>,
) -> bool {
    &&& satisfied(after, depends)
    &&& forall|k: Seq<char>|
        #![trigger after.contains_key(k)]
        after.contains_key(k) && !before.contains_key(k) ==> satisfied(after, depends_of(files, k))
}

/// Loads classes: holds the table of the classes that are loaded so far.
pub struct Resolver {
    pub resolved: Table<ClassStatics>,
}

/// How many of the flags are not set.
pub open spec fn unset(flags: Seq<bool>) -> nat
    decreases flags.len(),
{
    if flags.len() == 0 {
        0
    } else if flags.last() {
        unset(flags.drop_last())
    } else {
        unset(flags.drop_last()) + 1
    }
}

/// Setting a flag that was not set leaves one less unset.
pub proof fn lemma_unset_update(flags: Seq<bool>, p: int)
    requires
        0 <= p < flags.len(),
        !flags[p],
    ensures
        unset(flags.update(p, true)) + 1 == unset(flags),
    decreases flags.len(),
{
    if p == flags.len() - 1 {
        assert(flags.update(p, true).drop_last() =~= flags.drop_last());
    } else {
        assert(flags.update(p, true).drop_last() =~= flags.drop_last().update(p, true));
        lemma_unset_update(flags.drop_last(), p);
    }
}

impl Resolver {
    /// A resolver that has loaded nothing.
    pub fn new() -> (r: Self)
        ensures
            r.resolved@ == Map::<Seq<char>, ClassStatics>::empty(),
    {
        Self { resolved: Table::new() }
    }

    /// Whether the class named `module` has yet to be loaded.
    pub fn needs(&self, module: &String) -> (r: bool)
        ensures
            r == needs_loading(self.resolved@, module@),
    {
        let root = String::from_str("java/lang/Object");
        if *module == root {
            false
        } else {
            !self.resolved.contains_key(module)
        }
    }

    /// Decodes a class file and adds the class to the table, under the name
    /// that the file gives it. Returns that name and the names of the classes
    /// that the class refers to. If the file does not decode, the table is
    /// unchanged.
    pub fn add(&mut self, bytes: &[u8]) -> (r: Result<(String, Vec<String>), DecodeError>)
        ensures
            match r {
                Ok((name, depends)) => parse_class(bytes@) is Ok && {
                    let (parsed_name, class, parsed_depends) = parse_class(bytes@)->Ok_0;
                    &&& name@ == parsed_name
                    &&& models(depends@) == parsed_depends
                    &&& final(self).resolved@.contains_key(name@)
                    &&& final(self).resolved@ == old(self).resolved@.insert(
                        name@,
                        final(self).resolved@[name@],
                    )
                    &&& made_from(final(self).resolved@[name@], class)
                },
                Err(e) => parse_class(bytes@) == Err::<
                    (Seq<char>, ClassFileView, Seq<Seq<char>>),
                    DecodeError,
                >(e) && final(self).resolved@ == old(self).resolved@,
            },
    {
        let (name, cf, depends) = ClassFile::read(bytes)?;
        let ghost class = cf;
        let statics = ClassStatics::from(cf);
        assert(split_of(statics, class));
        let key = name.clone();
        self.resolved.insert(key, statics);
        Ok((name, depends))
    }

    /// Loads the class named `module` from the bytes of its file and returns
    /// the names of the classes that it refers to. The file must hold a class
    /// of that name. After an error the table is not to be used.
    pub fn load(&mut self, module: &String, bytes: &[u8]) -> (r: Result<Vec<String>, LoadError>)
        ensures
            match r {
                Ok(depends) => parse_class(bytes@) is Ok && {
                    let (name, class, parsed_depends) = parse_class(bytes@)->Ok_0;
                    &&& name == module@
                    &&& models(depends@) == parsed_depends
                    &&& final(self).resolved@.contains_key(module@)
                    &&& final(self).resolved@ == old(self).resolved@.insert(
                        module@,
                        final(self).resolved@[module@],
                    )
                    &&& made_from(final(self).resolved@[module@], class)
                },
                Err(LoadError::Decode(e)) => parse_class(bytes@) == Err::<
                    (Seq<char>, ClassFileView, Seq<Seq<char>>),
                    DecodeError,
                >(e),
                Err(LoadError::NameMismatch) => parse_class(bytes@) is Ok && parse_class(bytes@)->Ok_0.0
                    != module@,
                Err(LoadError::NotFound) => false,
            },
    {
        let (name, depends) = match self.add(bytes) {
            Err(e) => { return Err(LoadError::Decode(e)); },
            Ok(added) => added,
        };
        if name != *module {
            return Err(LoadError::NameMismatch);
        }
        Ok(depends)
    }
}


/// Every name of `names` that is yet to be loaded is listed in `pending`.
pub open spec fn covered(
    table: Map<Seq<char>, ClassStatics>,
    pending: Seq<Seq<char>>,
    names: Seq<Seq<char>>,
) -> bool {
    forall|i: int|
        0 <= i < names.len() && needs_loading(table, #[trigger] names[i]) ==> pending.contains(names[i])
}

/// Every name of `pending` that was yet to be loaded at the start is
/// required.
pub open spec fn justified(
    pending: Seq<Seq<char>>,
    before: Map<Seq<char>, ClassStatics>,
    files: Map<Seq<char>, Vec<u8>>,
    depends: Seq<Seq<char>>,
) -> bool {
    forall|j: int|
        0 <= j < pending.len() && needs_loading(before, #[trigger] pending[j]) ==> required(
            pending[j],
            before,
            files,
            depends,
        )
}

/// What the loop of `resolve` keeps: the table has grown by required classes
/// only, and whatever is still missing is listed in `pending`.
pub open spec fn progress(
    before: Map<Seq<char>, ClassStatics>,
    table: Map<Seq<char>, ClassStatics>,
    pending: Seq<Seq<char>>,
    files: Map<Seq<char>, Vec<u8>>,
    depends: Seq<Seq<char>>,
) -> bool {
    &&& grown(before, table, files, depends)
    &&& justified(pending, before, files, depends)
    &&& covered(table, pending, depends)
    &&& forall|k: Seq<char>|
        #![trigger table.contains_key(k)]
        table.contains_key(k) && !before.contains_key(k) ==> covered(
            table,
            pending,
            depends_of(files, k),
        )
}

/// At the start nothing has been added and every requested name is pending.
pub proof fn lemma_progress_start(
    before: Map<Seq<char>, ClassStatics>,
    files: Map<Seq<char>, Vec<u8>>,
    depends: Seq<Seq<char>>,
)
    ensures
        progress(before, before, depends, files, depends),
{
    assert forall|i: int| 0 <= i < depends.len() && needs_loading(before, #[trigger] depends[i]) implies
        depends.contains(depends[i]) by {}
}

/// A pending name that needs no loading can be dropped.
pub proof fn lemma_progress_skip(
    before: Map<Seq<char>, ClassStatics>,
    table: Map<Seq<char>, ClassStatics>,
    pending: Seq<Seq<char>>,
    files: Map<Seq<char>, Vec<u8>>,
    depends: Seq<Seq<char>>,
)
    requires
        pending.len() > 0,
        progress(before, table, pending, files, depends),
        !needs_loading(table, pending.last()),
    ensures
        progress(before, table, pending.drop_last(), files, depends),
{
    let rest = pending.drop_last();
    assert forall|names: Seq<Seq<char>>| covered(table, pending, names) implies covered(
        table,
        rest,
        names,
    ) by {
        assert forall|i: int| 0 <= i < names.len() && needs_loading(table, #[trigger] names[i]) implies
            rest.contains(names[i]) by {
            let j = choose|j: int| 0 <= j < pending.len() && pending[j] == names[i];
            assert(rest[j] == names[i]);
        }
    }
    assert forall|j: int| 0 <= j < rest.len() && needs_loading(before, #[trigger] rest[j]) implies
        required(rest[j], before, files, depends) by {
        assert(rest[j] == pending[j]);
    }
}

/// A pending name that was loaded from its file can be replaced by the names
/// that its class refers to.
pub proof fn lemma_progress_load(
    before: Map<Seq<char>, ClassStatics>,
    table: Map<Seq<char>, ClassStatics>,
    pending: Seq<Seq<char>>,
    files: Map<Seq<char>, Vec<u8>>,
    depends: Seq<Seq<char>>,
    statics: ClassStatics,
)
    requires
        pending.len() > 0,
        progress(before, table, pending, files, depends),
        needs_loading(table, pending.last()),
        file_of(files, pending.last()) is Ok,
        made_from(statics, file_of(files, pending.last())->Ok_0.0),
    ensures
        required(pending.last(), before, files, depends),
        progress(
            before,
            table.insert(pending.last(), statics),
            pending.drop_last() + depends_of(files, pending.last()),
            files,
            depends,
        ),
{
    let module = pending.last();
    let rest = pending.drop_last();
    let more = depends_of(files, module);
    let next = rest + more;
    let after = table.insert(module, statics);
    assert(needs_loading(before, module)) by {
        if before.contains_key(module) {
            assert(table.contains_key(module));
        }
    }
    assert(pending[pending.len() - 1] == module);
    assert(required(module, before, files, depends));
    assert forall|names: Seq<Seq<char>>| covered(table, pending, names) implies covered(
        after,
        next,
        names,
    ) by {
        assert forall|i: int| 0 <= i < names.len() && needs_loading(after, #[trigger] names[i]) implies
            next.contains(names[i]) by {
            assert(needs_loading(table, names[i]));
            let j = choose|j: int| 0 <= j < pending.len() && pending[j] == names[i];
            assert(j < rest.len());
            assert(next[j] == names[i]);
        }
    }
    assert(covered(after, next, more)) by {
        assert forall|i: int| 0 <= i < more.len() && needs_loading(after, #[trigger] more[i]) implies
            next.contains(more[i]) by {
            assert(next[rest.len() + i] == more[i]);
        }
    }
    assert forall|j: int| 0 <= j < next.len() && needs_loading(before, #[trigger] next[j]) implies
        required(next[j], before, files, depends) by {
        if j < rest.len() {
            assert(next[j] == pending[j]);
        } else {
            let i = j - rest.len();
            assert(next[j] == more[i]);
            assert forall|names: Set<Seq<char>>| #[trigger]
                closed(names, before, files, depends) implies names.contains(more[i]) by {
                assert(names.contains(module));
            }
        }
    }
    assert forall|k: Seq<char>|
        #![trigger after.contains_key(k)]
        after.contains_key(k) && !before.contains_key(k) implies required(k, before, files, depends)
            && file_of(files, k) is Ok && made_from(after[k], file_of(files, k)->Ok_0.0) && covered(
            after,
            next,
            depends_of(files, k),
        ) by {
        if k != module {
            assert(table.contains_key(k));
        }
    }
}

/// When nothing is pending any more, the table is complete.
pub proof fn lemma_progress_end(
    before: Map<Seq<char>, ClassStatics>,
    table: Map<Seq<char>, ClassStatics>,
    files: Map<Seq<char>, Vec<u8>>,
    depends: Seq<Seq<char>>,
)
    requires
        progress(before, table, Seq::empty(), files, depends),
    ensures
        complete(before, table, files, depends),
{
    assert forall|names: Seq<Seq<char>>| covered(table, Seq::empty(), names) implies satisfied(
        table,
        names,
    ) by {
        assert forall|i: int| 0 <= i < names.len() implies !needs_loading(table, #[trigger] names[i]) by {
            if needs_loading(table, names[i]) {
                assert(Seq::<Seq<char>>::empty().contains(names[i]));
            }
        }
    }
}

impl Resolver {
    /// Loads every class that the names in `depends` lead to.
    ///
    /// `files` holds the bytes of the class files that can be loaded, each
    /// under the name of its class. A name is skipped if it is the root
    /// class or if its class is in the table already; otherwise the class is
    /// made from its file and the names that it refers to are taken up in
    /// turn. A class is loaded once, and classes that refer to each other
    /// in a circle end the load like any others.
    ///
    /// On success the table holds what it held before, unchanged, and in
    /// addition exactly the classes that the load required, and it is
    /// complete. An error says what went wrong with the file of a required
    /// class; the table is then not to be used.
    pub fn resolve(&mut self, depends: Vec<String>, files: &Table<Vec<u8>>) -> (r: Result<(), LoadError>)
        ensures
            match r {
                Ok(()) => grown(old(self).resolved@, final(self).resolved@, files@, models(depends@))
                    && complete(old(self).resolved@, final(self).resolved@, files@, models(depends@))
                    && (satisfied(old(self).resolved@, models(depends@)) ==> final(self).resolved@
                    == old(self).resolved@),
                Err(e) => exists|module: Seq<char>|
                    required(module, old(self).resolved@, files@, models(depends@)) && #[trigger] file_of(
                        files@,
                        module,
                    ) == Err::<(ClassFileView, Seq<Seq<char>>), LoadError>(e),
            },
    {
        let ghost before = self.resolved@;
        let ghost wanted = models(depends@);
        let ghost source = files@;
        let mut pending = depends;
        let count = files.len();
        let mut flags: Vec<bool> = Vec::new();
        let mut f: usize = 0;
        while f < count
            invariant
                f <= count,
                flags@.len() == f,
                forall|p: int| 0 <= p < f ==> !flags@[p],
            decreases count - f,
        {
            flags.push(false);
            f += 1;
        }
        proof {
            lemma_progress_start(before, source, wanted);
        }
        while pending.len() > 0
            invariant
                source == files@,
                before == old(self).resolved@,
                wanted == models(depends@),
                count == files.pairs().len(),
                flags@.len() == count,
                forall|p: int|
                    0 <= p < count && flags@[p] ==> self.resolved@.contains_key(
                        (#[trigger] files.pairs()[p]).0,
                    ),
                progress(before, self.resolved@, models(pending@), source, wanted),
            decreases unset(flags@), pending@.len(),
        {
            let ghost listed = models(pending@);
            let ghost table = self.resolved@;
            let module = pending.pop().unwrap();
            assert(models(pending@) =~= listed.drop_last());
            assert(module@ == listed.last());
            if !self.needs(&module) {
                proof {
                    lemma_progress_skip(before, table, listed, source, wanted);
                }
            } else {
                assert(required(module@, before, source, wanted)) by {
                    assert(listed[listed.len() - 1] == module@);
                    if before.contains_key(module@) {
                        assert(table.contains_key(module@));
                    }
                }
                let position = match files.position(&module) {
                    None => {
                        assert(file_of(source, module@) == Err::<
                            (ClassFileView, Seq<Seq<char>>),
                            LoadError,
                        >(LoadError::NotFound));
                        return Err(LoadError::NotFound);
                    },
                    Some(position) => position,
                };
                let bytes = files.value_at(position);
                let mut more = match self.load(&module, bytes.as_slice()) {
                    Err(e) => {
                        assert(file_of(source, module@) == Err::<
                            (ClassFileView, Seq<Seq<char>>),
                            LoadError,
                        >(e));
                        return Err(e);
                    },
                    Ok(more) => more,
                };
                let ghost rest = models(pending@);
                let ghost added = models(more@);
                proof {
                    lemma_progress_load(
                        before,
                        table,
                        listed,
                        source,
                        wanted,
                        self.resolved@[module@],
                    );
                    lemma_unset_update(flags@, position as int);
                    assert(self.resolved@ =~= table.insert(module@, self.resolved@[module@]));
                }
                flags.set(position, true);
                pending.append(&mut more);
                assert(models(pending@) =~= rest + added);
            }
        }
        proof {
            assert(models(pending@) =~= Seq::<Seq<char>>::empty());
            lemma_progress_end(before, self.resolved@, source, wanted);
            if satisfied(before, wanted) {
                lemma_resolve_idempotent(before, self.resolved@, source, wanted);
            }
        }
        Ok(())
    }
}

/// Resolving names that are all loaded already changes nothing: a table
/// that has grown from another by a load whose requested names were all
/// satisfied is that other table.
pub proof fn lemma_resolve_idempotent(
    before: Map<Seq<char>, ClassStatics>,
    after: Map<Seq<char>, ClassStatics>,
    files: Map<Seq<char>, Vec<u8>>,
    depends: Seq<Seq<char>>,
)
    requires
        grown(before, after, files, depends),
        satisfied(before, depends),
    ensures
        after == before,
{
    assert(closed(Set::<Seq<char>>::empty(), before, files, depends));
    assert forall|k: Seq<char>| after.contains_key(k) implies before.contains_key(k) by {
        if !before.contains_key(k) {
            assert(required(k, before, files, depends));
            assert(Set::<Seq<char>>::empty().contains(k));
        }
    }
    assert forall|k: Seq<char>| before.contains_key(k) implies after.contains_key(k) && after[k]
        == before[k] by {}
    assert(after =~= before);
}


/// A load succeeds only if the file of every required class is in order: in
/// a table that has grown to completeness, every required class is present
/// and was made from its file. So a load fails exactly if the file of some
/// required class is missing, does not decode, or holds a class of another
/// name.
pub proof fn lemma_complete_has_all_required(
    before: Map<Seq<char>, ClassStatics>,
    after: Map<Seq<char>, ClassStatics>,
    files: Map<Seq<char>, Vec<u8>>,
    depends: Seq<Seq<char>>,
    module: Seq<char>,
)
    requires
        grown(before, after, files, depends),
        complete(before, after, files, depends),
        required(module, before, files, depends),
    ensures
        after.contains_key(module),
        !before.contains_key(module),
        file_of(files, module) is Ok,
        made_from(after[module], file_of(files, module)->Ok_0.0),
{
    let added = Set::new(|k: Seq<char>| after.contains_key(k) && !before.contains_key(k));
    assert(closed(added, before, files, depends)) by {
        assert forall|i: int|
            0 <= i < depends.len() && needs_loading(before, #[trigger] depends[i]) implies added.contains(
            depends[i],
        ) by {
            assert(!needs_loading(after, depends[i]));
        }
        assert forall|k: Seq<char>, i: int|
            added.contains(k) && file_of(files, k) is Ok && 0 <= i < depends_of(files, k).len()
                && needs_loading(before, #[trigger] depends_of(files, k)[i]) implies added.contains(
            depends_of(files, k)[i],
        ) by {
            assert(after.contains_key(k));
            assert(satisfied(after, depends_of(files, k)));
            assert(!needs_loading(after, depends_of(files, k)[i]));
        }
    }
    assert(added.contains(module));
}

} // verus!
