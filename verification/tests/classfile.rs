use rjvm::error::{DecodeError, ExecError, LoadError};
use rjvm::jvm::eval::Signal;
use rjvm::jvm::heap::Heap;
use rjvm::jvm::resolver::Resolver;
use rjvm::jvm::JVM;
use rjvm::parser::attribute_info::attribute::Attribute;
use rjvm::parser::attribute_info::code::code_generator::Instructions;
use rjvm::parser::classfile::{
    read_body, read_counted_attributes, read_counted_members, read_front, read_members, read_pool, ClassFile,
};
use rjvm::parser::cp_info::CpInfo;
use rjvm::parser::cp_info_resolved::{
    dependencies, resolve_pool, Class, Fieldref, InterfaceMethodref, JavaString, Methodref, NameAndType,
    ResolvedCpInfo,
};
use rjvm::parser::field_info::FieldInfo;
use rjvm::parser::method_info::MethodInfo;
use rjvm::table::Table;

fn utf8(text: &str) -> Vec<u8> {
    let mut bytes = vec![1];
    bytes.extend_from_slice(&(text.len() as u16).to_be_bytes());
    bytes.extend_from_slice(text.as_bytes());
    bytes
}

fn one(tag: u8, a: u16) -> Vec<u8> {
    let mut bytes = vec![tag];
    bytes.extend_from_slice(&a.to_be_bytes());
    bytes
}

fn two(tag: u8, a: u16, b: u16) -> Vec<u8> {
    let mut bytes = one(tag, a);
    bytes.extend_from_slice(&b.to_be_bytes());
    bytes
}

/// A class file with the given pool entries (numbered from 1) and body.
fn class_file(entries: &[Vec<u8>], body: &[u8]) -> Vec<u8> {
    let mut bytes = vec![0xca, 0xfe, 0xba, 0xbe, 0, 0, 0, 52];
    bytes.extend_from_slice(&(entries.len() as u16 + 1).to_be_bytes());
    for entry in entries {
        bytes.extend_from_slice(entry);
    }
    bytes.extend_from_slice(body);
    bytes
}

/// Entries 1 to 4: the class `name` at 2 and the root class at 4.
fn base_entries(name: &str) -> Vec<Vec<u8>> {
    vec![utf8(name), one(7, 1), utf8("java/lang/Object"), one(7, 3)]
}

/// Class `name`, which refers to `target.member` through an entry of the
/// given tag, and has a static `main` that returns at once.
fn referring_class(name: &str, target: &str, tag: u8) -> Vec<u8> {
    let mut entries = base_entries(name);
    entries.push(utf8(target)); // 5
    entries.push(one(7, 5)); // 6
    entries.push(utf8("f")); // 7
    entries.push(utf8("I")); // 8
    entries.push(two(12, 7, 8)); // 9
    entries.push(two(tag, 6, 9)); // 10
    entries.push(utf8("Code")); // 11
    entries.push(utf8("main")); // 12
    entries.push(utf8("([Ljava/lang/String;)V")); // 13
    let code = [0x10, 5, 0x10, 7, 0x60, 0x57, 0xb1];
    let mut body = vec![0, 0x21, 0, 2, 0, 4, 0, 0, 0, 0];
    body.extend_from_slice(&[0, 1, 0, 9, 0, 12, 0, 13, 0, 1]);
    body.extend_from_slice(&[0, 11, 0, 0, 0, 19, 0, 2, 0, 1, 0, 0, 0, 7]);
    body.extend_from_slice(&code);
    body.extend_from_slice(&[0, 0, 0, 0]);
    body.extend_from_slice(&[0, 0]);
    class_file(&entries, &body)
}

/// Class `name` with an instance field `f:I`, a static field `g:I` and no
/// references to other classes.
fn plain_class(name: &str) -> Vec<u8> {
    let mut entries = base_entries(name);
    entries.push(utf8("f")); // 5
    entries.push(utf8("I")); // 6
    entries.push(utf8("g")); // 7
    let mut body = vec![0, 0x21, 0, 2, 0, 4, 0, 1, 0, 9];
    body.extend_from_slice(&[0, 2, 0, 0, 0, 5, 0, 6, 0, 0, 0, 8, 0, 7, 0, 6, 0, 0]);
    body.extend_from_slice(&[0, 0, 0, 0]);
    class_file(&entries, &body)
}

fn files(classes: &[(&str, Vec<u8>)]) -> Table<Vec<u8>> {
    let mut table = Table::new();
    for (name, bytes) in classes {
        table.insert(name.to_string(), bytes.clone());
    }
    table
}

#[test]
fn a_class_file_gives_name_class_and_dependencies() {
    let (name, class, depends) = ClassFile::read(&referring_class("A", "B", 9)).unwrap();
    assert_eq!(name, "A");
    assert_eq!(depends, vec![String::from("B")]);
    assert_eq!(class.access_flags.mask, 0x21);
    assert_eq!(class.super_class, Class { name: String::from("java/lang/Object") });
    assert!(class.interfaces.is_empty());
    assert_eq!(class.fields.len(), 0);
    assert_eq!(class.methods.len(), 1);
    let main = class.methods.get(&String::from("main:([Ljava/lang/String;)V")).unwrap();
    assert_eq!(main.access_flags.mask, 9);
    assert_eq!(
        main.attributes,
        vec![Attribute::Code {
            max_stack: 2,
            max_locals: 1,
            code: vec![
                Instructions::Bipush { value: 5 },
                Instructions::Bipush { value: 7 },
                Instructions::Iadd,
                Instructions::Pop,
                Instructions::Return
            ],
            exception_table: vec![],
            attributes: vec![]
        }]
    );
    assert!(class.attributes.is_empty());
}

#[test]
fn fields_and_interfaces_are_read() {
    let (name, class, depends) = ClassFile::read(&plain_class("pkg/B")).unwrap();
    assert_eq!(name, "pkg/B");
    assert!(depends.is_empty());
    assert_eq!(class.interfaces, vec![9]);
    assert_eq!(class.fields.len(), 2);
    assert_eq!(class.fields.get(&String::from("f:I")).unwrap().access_flags.mask, 0);
    assert_eq!(class.fields.get(&String::from("g:I")).unwrap().access_flags.mask, 8);
    assert_eq!(class.methods.len(), 0);
}

#[test]
fn a_later_member_replaces_an_earlier_one_with_the_same_key() {
    let mut entries = base_entries("A");
    entries.push(utf8("f"));
    entries.push(utf8("I"));
    let mut body = vec![0, 0x21, 0, 2, 0, 4, 0, 0];
    body.extend_from_slice(&[0, 2, 0, 1, 0, 5, 0, 6, 0, 0, 0, 2, 0, 5, 0, 6, 0, 0]);
    body.extend_from_slice(&[0, 0, 0, 0]);
    let (_, class, _) = ClassFile::read(&class_file(&entries, &body)).unwrap();
    assert_eq!(class.fields.len(), 1);
    assert_eq!(class.fields.get(&String::from("f:I")).unwrap().access_flags.mask, 2);
}

#[test]
fn malformed_class_files_are_rejected() {
    let good = referring_class("A", "B", 9);
    assert_eq!(ClassFile::read(&[]).unwrap_err(), DecodeError::BadMagic);
    assert_eq!(ClassFile::read(&[0xca, 0xfe, 0xba]).unwrap_err(), DecodeError::BadMagic);
    let mut bad_magic = good.clone();
    bad_magic[3] = 0xbf;
    assert_eq!(ClassFile::read(&bad_magic).unwrap_err(), DecodeError::BadMagic);
    assert_eq!(ClassFile::read(&good[..9]).unwrap_err(), DecodeError::UnexpectedEnd);
    assert_eq!(ClassFile::read(&good[..20]).unwrap_err(), DecodeError::UnexpectedEnd);
    assert_eq!(ClassFile::read(&good[..good.len() - 1]).unwrap_err(), DecodeError::UnexpectedEnd);
    let mut trailing = good.clone();
    trailing.push(0);
    assert_eq!(ClassFile::read(&trailing).unwrap_err(), DecodeError::TrailingBytes);
    let mut bad_tag = good.clone();
    bad_tag[10] = 2;
    assert_eq!(ClassFile::read(&bad_tag).unwrap_err(), DecodeError::BadTag);
    let bad_text = class_file(&[vec![1, 0, 1, 0xff]], &[0; 14]);
    assert_eq!(ClassFile::read(&bad_text).unwrap_err(), DecodeError::BadUtf8);
}

#[test]
fn bad_references_in_a_class_file_are_rejected() {
    let mut entries = base_entries("A");
    entries.push(one(7, 9));
    let body = [0, 0x21, 0, 2, 0, 4, 0, 0, 0, 0, 0, 0, 0, 0];
    assert_eq!(ClassFile::read(&class_file(&entries, &body)).unwrap_err(), DecodeError::BadConstantIndex);
    let entries = base_entries("A");
    assert!(ClassFile::read(&class_file(&entries, &body)).is_ok());
    let no_super = [0, 0x21, 0, 2, 0, 0, 0, 0, 0, 0, 0, 0, 0, 0];
    assert_eq!(ClassFile::read(&class_file(&entries, &no_super)).unwrap_err(), DecodeError::BadConstantIndex);
    let super_not_class = [0, 0x21, 0, 2, 0, 1, 0, 0, 0, 0, 0, 0, 0, 0];
    assert_eq!(ClassFile::read(&class_file(&entries, &super_not_class)).unwrap_err(), DecodeError::BadConstantIndex);
    let this_not_class = [0, 0x21, 0, 1, 0, 4, 0, 0, 0, 0, 0, 0, 0, 0];
    assert_eq!(ClassFile::read(&class_file(&entries, &this_not_class)).unwrap_err(), DecodeError::BadConstantIndex);
    let this_zero = [0, 0x21, 0, 0, 0, 4, 0, 0, 0, 0, 0, 0, 0, 0];
    assert_eq!(ClassFile::read(&class_file(&entries, &this_zero)).unwrap_err(), DecodeError::BadConstantIndex);
    let mut handles = base_entries("A");
    handles.push(vec![15, 1, 0, 1]);
    assert_eq!(ClassFile::read(&class_file(&handles, &body)).unwrap_err(), DecodeError::Unsupported);
    let mut dynamic = base_entries("A");
    dynamic.push(two(18, 0, 1));
    assert_eq!(ClassFile::read(&class_file(&dynamic, &body)).unwrap_err(), DecodeError::Unsupported);
    let mut method_type = base_entries("A");
    method_type.push(one(16, 1));
    assert_eq!(ClassFile::read(&class_file(&method_type, &body)).unwrap_err(), DecodeError::Unsupported);
}

#[test]
fn a_pool_count_of_zero_means_an_empty_pool() {
    let bytes = [0xca, 0xfe, 0xba, 0xbe, 0, 0, 0, 52, 0, 0, 9];
    let mut buf: &[u8] = &bytes;
    assert_eq!(read_pool(&mut buf), Ok(vec![]));
    assert_eq!(buf, &[9u8][..]);
    let bytes = [0xca, 0xfe, 0xba, 0xbe, 0, 0, 0, 52, 0, 1, 9];
    let mut buf: &[u8] = &bytes;
    assert_eq!(read_pool(&mut buf), Ok(vec![]));
    let bytes = [0xca, 0xfe, 0xba, 0xbe, 0, 0, 0, 52, 0, 2, 3, 0, 0, 0, 9];
    let mut buf: &[u8] = &bytes;
    assert_eq!(read_pool(&mut buf), Ok(vec![CpInfo::Integer { value: 9 }]));
    assert!(buf.is_empty());
}

fn raw_pool() -> Vec<CpInfo> {
    vec![
        CpInfo::Utf8 { bytes: String::from("A") },
        CpInfo::Class { name_index: 1 },
        CpInfo::Utf8 { bytes: String::from("f") },
        CpInfo::Utf8 { bytes: String::from("I") },
        CpInfo::NameAndType { name_index: 3, descriptor_index: 4 },
        CpInfo::Fieldref { class_index: 2, name_and_type_index: 5 },
        CpInfo::Methodref { class_index: 2, name_and_type_index: 5 },
        CpInfo::InterfaceMethodref { class_index: 2, name_and_type_index: 5 },
        CpInfo::String { string_index: 3 },
        CpInfo::Integer { value: -1 },
        CpInfo::Float { value: 2 },
        CpInfo::Long { value: -3 },
        CpInfo::Double { value: 4 },
    ]
}

#[test]
fn entries_resolve_against_their_pool() {
    let pool = raw_pool();
    let names = NameAndType { name: String::from("f"), descriptor: String::from("I") };
    let class = Class { name: String::from("A") };
    let resolved = resolve_pool(&pool).unwrap();
    assert_eq!(
        resolved,
        vec![
            ResolvedCpInfo::Utf8(String::from("A")),
            ResolvedCpInfo::Class(class.clone()),
            ResolvedCpInfo::Utf8(String::from("f")),
            ResolvedCpInfo::Utf8(String::from("I")),
            ResolvedCpInfo::NameAndType(names.clone()),
            ResolvedCpInfo::Fieldref(Fieldref { class: class.clone(), name_and_type: names.clone() }),
            ResolvedCpInfo::Methodref(Methodref { class: class.clone(), name_and_type: names.clone() }),
            ResolvedCpInfo::InterfaceMethodref(InterfaceMethodref {
                class: class.clone(),
                name_and_type: names.clone()
            }),
            ResolvedCpInfo::String(JavaString { string: String::from("f") }),
            ResolvedCpInfo::Integer(-1),
            ResolvedCpInfo::Float(2),
            ResolvedCpInfo::Long(-3),
            ResolvedCpInfo::Double(4),
        ]
    );
    assert_eq!(dependencies(&resolved), vec![String::from("A"), String::from("A"), String::from("A")]);
    assert_eq!(ResolvedCpInfo::from(&pool[1], &pool), Ok(ResolvedCpInfo::Class(class)));
    assert_eq!(resolve_pool(&vec![]), Ok(vec![]));
    assert!(dependencies(&vec![]).is_empty());
}

#[test]
fn entries_with_bad_indices_do_not_resolve() {
    let pool = raw_pool();
    let bad = |entry: CpInfo| ResolvedCpInfo::from(&entry, &pool);
    assert_eq!(bad(CpInfo::Class { name_index: 0 }), Err(DecodeError::BadConstantIndex));
    assert_eq!(bad(CpInfo::Class { name_index: 14 }), Err(DecodeError::BadConstantIndex));
    assert_eq!(bad(CpInfo::Class { name_index: 2 }), Err(DecodeError::BadConstantIndex));
    assert_eq!(bad(CpInfo::String { string_index: 2 }), Err(DecodeError::BadConstantIndex));
    assert_eq!(bad(CpInfo::NameAndType { name_index: 3, descriptor_index: 5 }), Err(DecodeError::BadConstantIndex));
    assert_eq!(bad(CpInfo::NameAndType { name_index: 0, descriptor_index: 4 }), Err(DecodeError::BadConstantIndex));
    assert_eq!(
        bad(CpInfo::Fieldref { class_index: 1, name_and_type_index: 5 }),
        Err(DecodeError::BadConstantIndex)
    );
    assert_eq!(
        bad(CpInfo::Fieldref { class_index: 2, name_and_type_index: 2 }),
        Err(DecodeError::BadConstantIndex)
    );
    assert_eq!(
        bad(CpInfo::Methodref { class_index: 2, name_and_type_index: 0 }),
        Err(DecodeError::BadConstantIndex)
    );
    assert_eq!(
        bad(CpInfo::InterfaceMethodref { class_index: 99, name_and_type_index: 5 }),
        Err(DecodeError::BadConstantIndex)
    );
    assert_eq!(bad(CpInfo::MethodHandle { reference_kind: 1, reference_index: 1 }), Err(DecodeError::Unsupported));
    assert_eq!(bad(CpInfo::MethodType { descriptor_index: 4 }), Err(DecodeError::Unsupported));
    assert_eq!(
        bad(CpInfo::InvokeDynamic { bootstrap_method_attr_index: 0, reference_index: 5 }),
        Err(DecodeError::Unsupported)
    );
    let mut broken = raw_pool();
    broken.push(CpInfo::Class { name_index: 2 });
    broken.push(CpInfo::MethodType { descriptor_index: 4 });
    assert_eq!(resolve_pool(&broken), Err(DecodeError::BadConstantIndex));
}

#[test]
fn the_parts_of_a_class_body() {
    let pool = resolve_pool(&raw_pool()).unwrap();
    let mut buf: &[u8] = &[0, 0x21, 0, 2, 0, 2, 0, 2, 0, 7, 0, 8, 0xee];
    let front = read_front(&mut buf, &pool).unwrap();
    assert_eq!(front.access_flags, 0x21);
    assert_eq!(front.this_class, 2);
    assert_eq!(front.super_class, Class { name: String::from("A") });
    assert_eq!(front.interfaces, vec![7, 8]);
    assert_eq!(buf, &[0xeeu8][..]);
    let mut buf: &[u8] = &[0, 0x21, 0, 2, 0, 3, 0, 0];
    assert_eq!(read_front(&mut buf, &pool).unwrap_err(), DecodeError::BadConstantIndex);
    let mut buf: &[u8] = &[0, 0x21, 0, 2, 0];
    assert_eq!(read_front(&mut buf, &pool).unwrap_err(), DecodeError::UnexpectedEnd);
    let mut buf: &[u8] = &[0, 1, 0, 8, 0, 3, 0, 4, 0, 0, 5];
    let fields = read_counted_members::<FieldInfo>(&mut buf, &pool).unwrap();
    assert_eq!(fields.len(), 1);
    assert_eq!(fields.get(&String::from("f:I")).unwrap().access_flags.mask, 8);
    assert_eq!(buf, &[5u8][..]);
    let mut buf: &[u8] = &[0, 8, 0, 3, 0, 4, 0, 0, 0, 1, 0, 4, 0, 3, 0, 0];
    let methods = read_members::<MethodInfo>(&mut buf, 2, &pool).unwrap();
    assert_eq!(methods.len(), 2);
    assert_eq!(methods.get(&String::from("I:f")).unwrap().access_flags.mask, 1);
    let mut buf: &[u8] = &[0, 8, 0, 3, 0, 4, 0, 0];
    assert_eq!(read_members::<MethodInfo>(&mut buf, 2, &pool).unwrap_err(), DecodeError::UnexpectedEnd);
    let mut buf: &[u8] = &[0, 0, 1];
    assert_eq!(read_counted_attributes(&mut buf, &pool), Ok(vec![]));
    let mut buf: &[u8] = &[0];
    assert_eq!(read_counted_attributes(&mut buf, &pool), Err(DecodeError::UnexpectedEnd));
    let (class, this_class) = read_body(&[0, 1, 0, 2, 0, 2, 0, 0, 0, 0, 0, 0, 0, 0], &pool).unwrap();
    assert_eq!(this_class, 2);
    assert_eq!(class.access_flags.mask, 1);
    assert_eq!(
        read_body(&[0, 1, 0, 2, 0, 2, 0, 0, 0, 0, 0, 0, 0, 0, 0], &pool).unwrap_err(),
        DecodeError::TrailingBytes
    );
}

#[test]
fn resolving_brings_in_the_classes_that_are_referred_to() {
    let files = files(&[("A", referring_class("A", "B", 9)), ("B", plain_class("B"))]);
    let mut resolver = Resolver::new();
    assert_eq!(resolver.resolve(vec![String::from("A")], &files), Ok(()));
    assert_eq!(resolver.resolved.len(), 2);
    assert!(resolver.resolved.contains_key(&String::from("A")));
    assert!(resolver.resolved.contains_key(&String::from("B")));
    let b = resolver.resolved.get(&String::from("B")).unwrap();
    assert_eq!(b.fields.len(), 1);
    assert!(b.fields.contains_key(&String::from("g:I")));
    assert_eq!(b.dynamic.fields.len(), 1);
    assert!(b.dynamic.fields.contains_key(&String::from("f:I")));
    let a = resolver.resolved.get(&String::from("A")).unwrap();
    assert_eq!(a.methods.len(), 1);
    assert_eq!(a.dynamic.methods.len(), 0);
}

#[test]
fn resolving_again_changes_nothing() {
    let files = files(&[("A", referring_class("A", "B", 9)), ("B", plain_class("B"))]);
    let mut resolver = Resolver::new();
    assert_eq!(resolver.resolve(vec![String::from("A")], &files), Ok(()));
    let before: Vec<String> = (0..resolver.resolved.len()).map(|i| resolver.resolved.key_at(i).clone()).collect();
    assert_eq!(resolver.resolve(vec![String::from("A")], &files), Ok(()));
    assert_eq!(resolver.resolve(vec![String::from("B"), String::from("A"), String::from("B")], &files), Ok(()));
    let nothing = Table::new();
    assert_eq!(resolver.resolve(vec![String::from("A"), String::from("java/lang/Object")], &nothing), Ok(()));
    let after: Vec<String> = (0..resolver.resolved.len()).map(|i| resolver.resolved.key_at(i).clone()).collect();
    assert_eq!(before, after);
    assert_eq!(resolver.resolved.len(), 2);
}

#[test]
fn the_root_class_is_never_loaded() {
    let mut resolver = Resolver::new();
    assert!(!resolver.needs(&String::from("java/lang/Object")));
    assert!(resolver.needs(&String::from("java/lang/String")));
    assert_eq!(resolver.resolve(vec![String::from("java/lang/Object")], &Table::new()), Ok(()));
    assert_eq!(resolver.resolved.len(), 0);
    assert_eq!(resolver.resolve(vec![], &Table::new()), Ok(()));
    let files = files(&[("A", referring_class("A", "java/lang/Object", 10))]);
    assert_eq!(resolver.resolve(vec![String::from("A")], &files), Ok(()));
    assert_eq!(resolver.resolved.len(), 1);
    assert!(!resolver.needs(&String::from("A")));
}

#[test]
fn classes_that_refer_to_each_other_are_each_loaded_once() {
    let files = files(&[
        ("A", referring_class("A", "B", 10)),
        ("B", referring_class("B", "C", 11)),
        ("C", referring_class("C", "A", 9)),
        ("D", plain_class("D")),
    ]);
    let mut resolver = Resolver::new();
    assert_eq!(resolver.resolve(vec![String::from("B")], &files), Ok(()));
    assert_eq!(resolver.resolved.len(), 3);
    assert!(!resolver.resolved.contains_key(&String::from("D")));
    let own = files_of_self();
    let mut resolver = Resolver::new();
    assert_eq!(resolver.resolve(vec![String::from("S")], &own), Ok(()));
    assert_eq!(resolver.resolved.len(), 1);
}

fn files_of_self() -> Table<Vec<u8>> {
    files(&[("S", referring_class("S", "S", 9))])
}

#[test]
fn a_missing_or_broken_class_stops_the_load() {
    let only_a = files(&[("A", referring_class("A", "B", 9))]);
    assert_eq!(Resolver::new().resolve(vec![String::from("A")], &only_a), Err(LoadError::NotFound));
    assert_eq!(Resolver::new().resolve(vec![String::from("Z")], &only_a), Err(LoadError::NotFound));
    let broken = files(&[("A", referring_class("A", "B", 9)), ("B", vec![0xca, 0xfe])]);
    assert_eq!(
        Resolver::new().resolve(vec![String::from("A")], &broken),
        Err(LoadError::Decode(DecodeError::BadMagic))
    );
    let misnamed = files(&[("A", referring_class("A", "B", 9)), ("B", plain_class("C"))]);
    assert_eq!(Resolver::new().resolve(vec![String::from("A")], &misnamed), Err(LoadError::NameMismatch));
}

#[test]
fn add_puts_one_class_into_the_table() {
    let mut resolver = Resolver::new();
    assert_eq!(
        resolver.add(&referring_class("A", "B", 9)),
        Ok((String::from("A"), vec![String::from("B")]))
    );
    assert_eq!(resolver.resolved.len(), 1);
    assert_eq!(resolver.add(&[1, 2, 3]), Err(DecodeError::BadMagic));
    assert_eq!(resolver.resolved.len(), 1);
    assert_eq!(resolver.add(&plain_class("A")), Ok((String::from("A"), vec![])));
    assert_eq!(resolver.resolved.len(), 1);
    assert_eq!(resolver.resolved.get(&String::from("A")).unwrap().fields.len(), 1);
}

#[test]
fn a_program_is_loaded_and_started() {
    let files = files(&[("B", plain_class("B"))]);
    let jvm = JVM::from_files(&referring_class("A", "B", 9), &files).unwrap();
    assert_eq!(jvm.entrypoint, "A");
    assert_eq!(jvm.classes.len(), 2);
    let mut heap = Heap::new();
    let (signal, frame) = jvm.start(&mut heap, 100).unwrap();
    assert_eq!(signal, Signal::Return(None));
    assert!(frame.stack.is_empty());
    assert_eq!(frame.pc, 4);
    let jvm = JVM::from_files(&plain_class("B"), &Table::new()).unwrap();
    assert_eq!(jvm.classes.len(), 1);
    assert_eq!(jvm.start(&mut heap, 100).unwrap_err(), ExecError::UnresolvedMember);
}

#[test]
fn a_program_that_cannot_be_loaded() {
    assert_eq!(
        JVM::from_files(&[0, 1], &Table::new()).unwrap_err(),
        LoadError::Decode(DecodeError::BadMagic)
    );
    assert_eq!(JVM::from_files(&referring_class("A", "B", 9), &Table::new()).unwrap_err(), LoadError::NotFound);
    let broken = files(&[("B", vec![0xca, 0xfe, 0xba, 0xbe])]);
    assert_eq!(
        JVM::from_files(&referring_class("A", "B", 9), &broken).unwrap_err(),
        LoadError::Decode(DecodeError::UnexpectedEnd)
    );
    let misnamed = files(&[("B", plain_class("A"))]);
    assert_eq!(JVM::from_files(&referring_class("A", "B", 9), &misnamed).unwrap_err(), LoadError::NameMismatch);
}

#[test]
fn load_checks_the_name_of_the_class() {
    let mut resolver = Resolver::new();
    assert_eq!(resolver.load(&String::from("B"), &plain_class("B")), Ok(vec![]));
    assert!(resolver.resolved.contains_key(&String::from("B")));
    assert_eq!(
        resolver.load(&String::from("A"), &referring_class("A", "B", 11)),
        Ok(vec![String::from("B")])
    );
    assert_eq!(resolver.resolved.len(), 2);
    assert_eq!(resolver.load(&String::from("C"), &plain_class("D")), Err(LoadError::NameMismatch));
    assert_eq!(
        resolver.load(&String::from("C"), &[0xca, 0xfe, 0xba, 0xbe, 0]),
        Err(LoadError::Decode(DecodeError::UnexpectedEnd))
    );
}
