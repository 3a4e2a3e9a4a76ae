use rjvm::jvm::dynamic_class::ClassDynamics;
use rjvm::jvm::heap::Heap;
use rjvm::jvm::static_class::{split_by_scope, ClassStatics, Scoped};
use rjvm::jvm::types::HeapType;
use rjvm::parser::attribute_info::attribute::Attribute;
use rjvm::parser::classfile::{ClassAccessFlags, ClassFile};
use rjvm::parser::cp_info_resolved::{Class, Fieldref, JavaString, Methodref, NameAndType};
use rjvm::parser::field_info::{FieldAccessFlags, FieldInfo};
use rjvm::parser::method_info::{MethodAccessFlags, MethodInfo};
use rjvm::table::Table;

#[test]
fn a_table_holds_each_key_once() {
    let mut table: Table<i32> = Table::new();
    assert_eq!(table.len(), 0);
    assert_eq!(table.get(&String::from("a")), None);
    assert!(!table.contains_key(&String::from("a")));
    table.insert(String::from("a"), 1);
    table.insert(String::from("b"), 2);
    table.insert(String::from("a"), 3);
    assert_eq!(table.len(), 2);
    assert_eq!(table.get(&String::from("a")), Some(&3));
    assert_eq!(table.get(&String::from("b")), Some(&2));
    assert!(table.contains_key(&String::from("b")));
    assert_eq!(table.position(&String::from("a")), Some(0));
    assert_eq!(table.position(&String::from("b")), Some(1));
    assert_eq!(table.position(&String::from("c")), None);
    assert_eq!(table.key_at(1), "b");
    assert_eq!(table.value_at(0), &3);
    assert_eq!(table.into_entries(), vec![(String::from("a"), 3), (String::from("b"), 2)]);
}

#[test]
fn keys_are_told_apart_by_their_whole_text() {
    let mut table: Table<u8> = Table::new();
    table.insert(String::from("run:()V"), 1);
    table.insert(String::from("run:(I)V"), 2);
    table.insert(String::from("run"), 3);
    assert_eq!(table.len(), 3);
    assert_eq!(table.get(&String::from("run:(I)V")), Some(&2));
    assert_eq!(table.get(&String::from("run:")), None);
}

#[test]
fn names_as_text() {
    let class = Class { name: String::from("java/lang/Object") };
    assert_eq!(class.to_string(), "java/lang/Object");
    let names = NameAndType { name: String::from("main"), descriptor: String::from("([Ljava/lang/String;)V") };
    assert_eq!(names.to_string(), "main:([Ljava/lang/String;)V");
    let field = Fieldref {
        class: Class { name: String::from("B") },
        name_and_type: NameAndType { name: String::from("f"), descriptor: String::from("I") },
    };
    assert_eq!(field.to_string(), "B.f:I");
    let method = Methodref {
        class: Class { name: String::from("pkg/C") },
        name_and_type: NameAndType { name: String::from("m"), descriptor: String::from("()V") },
    };
    assert_eq!(method.to_string(), "pkg/C.m:()V");
    assert_eq!(JavaString { string: String::from("hi") }.to_string(), "hi");
    assert_eq!(field.clone(), field);
    assert_eq!(method.clone(), method);
    assert_eq!(names.clone(), names);
    assert_eq!(class.clone(), class);
}

#[test]
fn flags_are_bits_of_the_mask() {
    use_flags();
}

fn use_flags() {
    let field = FieldAccessFlags { mask: 0x0019 };
    assert!(field.contains(rjvm::parser::field_info::Flags::AccPublic));
    assert!(field.contains(rjvm::parser::field_info::Flags::AccStatic));
    assert!(field.contains(rjvm::parser::field_info::Flags::AccFinal));
    assert!(!field.contains(rjvm::parser::field_info::Flags::AccPrivate));
    assert!(!field.contains(rjvm::parser::field_info::Flags::AccEnum));
    assert_eq!(rjvm::parser::field_info::Flags::AccVolatile.bits(), 0x0040);
    assert_eq!(rjvm::parser::field_info::Flags::AccTransient.bits(), 0x0080);
    assert_eq!(rjvm::parser::field_info::Flags::AccSynthetic.bits(), 0x1000);
    assert_eq!(rjvm::parser::field_info::Flags::AccEnum.bits(), 0x4000);
    let method = MethodAccessFlags { mask: 0x0408 };
    assert!(method.contains(rjvm::parser::method_info::Flags::AccStatic));
    assert!(method.contains(rjvm::parser::method_info::Flags::AccAbstract));
    assert!(!method.contains(rjvm::parser::method_info::Flags::AccNative));
    assert_eq!(rjvm::parser::method_info::Flags::AccSynchronised.bits(), 0x0020);
    assert_eq!(rjvm::parser::method_info::Flags::AccBridge.bits(), 0x0040);
    assert_eq!(rjvm::parser::method_info::Flags::AccVarArgs.bits(), 0x0080);
    assert_eq!(rjvm::parser::method_info::Flags::AccNative.bits(), 0x0100);
    assert_eq!(rjvm::parser::method_info::Flags::AccStrict.bits(), 0x0800);
    let class = ClassAccessFlags { mask: 0x0011 };
    assert!(class.contains(rjvm::parser::classfile::Flags::AccPublic));
    assert!(class.contains(rjvm::parser::classfile::Flags::AccFinal));
    assert!(!class.contains(rjvm::parser::classfile::Flags::AccStatic));
    assert_eq!(rjvm::parser::classfile::Flags::AccProtected.bits(), 0x0004);
    assert!(ClassAccessFlags { mask: 0 }.contains(rjvm::parser::classfile::Flags::AccPublic) == false);
}

fn field(mask: u16) -> FieldInfo {
    FieldInfo { access_flags: FieldAccessFlags { mask }, attributes: vec![] }
}

fn method(mask: u16) -> MethodInfo {
    MethodInfo { access_flags: MethodAccessFlags { mask }, attributes: vec![Attribute::Deprecated] }
}

#[test]
fn members_are_parted_by_the_static_flag() {
    let mut fields = Table::new();
    fields.insert(String::from("a:I"), field(0x0008));
    fields.insert(String::from("b:I"), field(0x0001));
    fields.insert(String::from("c:J"), field(0x0019));
    let mut methods = Table::new();
    methods.insert(String::from("main:([Ljava/lang/String;)V"), method(0x0009));
    methods.insert(String::from("<init>:()V"), method(0x0001));
    let cf = ClassFile {
        access_flags: ClassAccessFlags { mask: 0x0021 },
        super_class: Class { name: String::from("java/lang/Object") },
        interfaces: vec![3, 4],
        fields,
        methods,
        attributes: vec![Attribute::Synthetic],
    };
    let class = ClassStatics::from(cf);
    assert_eq!(class.access_flags, ClassAccessFlags { mask: 0x0021 });
    assert_eq!(class.super_class, Class { name: String::from("java/lang/Object") });
    assert_eq!(class.interfaces, vec![3, 4]);
    assert_eq!(class.attributes, vec![Attribute::Synthetic]);
    assert_eq!(class.fields.len(), 2);
    assert_eq!(class.fields.get(&String::from("a:I")), Some(&field(0x0008)));
    assert_eq!(class.fields.get(&String::from("c:J")), Some(&field(0x0019)));
    assert_eq!(class.fields.get(&String::from("b:I")), None);
    assert_eq!(class.dynamic.fields.len(), 1);
    assert_eq!(class.dynamic.fields.get(&String::from("b:I")), Some(&field(0x0001)));
    assert_eq!(class.methods.len(), 1);
    assert_eq!(class.methods.get(&String::from("main:([Ljava/lang/String;)V")), Some(&method(0x0009)));
    assert_eq!(class.dynamic.methods.len(), 1);
    assert_eq!(class.dynamic.methods.get(&String::from("<init>:()V")), Some(&method(0x0001)));
    assert!(field(0x0008).check_static());
    assert!(!field(0x0007).check_static());
    assert!(method(0x0008).check_static());
}

#[test]
fn splitting_an_empty_table_gives_two_empty_tables() {
    let (statics, others) = split_by_scope::<FieldInfo>(Table::new());
    assert_eq!(statics.len(), 0);
    assert_eq!(others.len(), 0);
}

#[test]
fn an_instance_has_one_unset_slot_for_each_instance_field() {
    let mut fields = Table::new();
    fields.insert(String::from("x:I"), field(0));
    fields.insert(String::from("y:J"), field(0x0010));
    let shape = ClassDynamics { fields, methods: Table::new() };
    let instance = shape.instance();
    assert_eq!(instance.fields.len(), 2);
    assert_eq!(instance.fields.get(&String::from("x:I")), Some(&None));
    assert_eq!(instance.fields.get(&String::from("y:J")), Some(&None));
    let mut heap = Heap::new();
    assert_eq!(heap.new_object(instance), HeapType::Class(0));
    assert_eq!(heap.new_object(shape.instance()), HeapType::Class(1));
    assert_eq!(heap.objects.len(), 2);
}
