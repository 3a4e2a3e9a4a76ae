use rjvm::error::DecodeError;
use rjvm::jvm::eval::{Frame, Signal};
use rjvm::jvm::heap::Heap;
use rjvm::jvm::types::Type;
use rjvm::jvm::JVM;
use rjvm::table::Table;
use rjvm::parser::attribute_info::code::clean_jumps::{clean, set_short_offset, short_branch_of};
use rjvm::parser::attribute_info::code::code_generator::{
    decode_one, decode_plain, decode_with_byte, decode_with_short, generate_instructions, read_i32, read_u16,
    widens, Instructions,
};
use rjvm::parser::attribute_info::code::read_instructions;
use rjvm::parser::cp_info_resolved::{
    Class, Fieldref, InterfaceMethodref, Methodref, NameAndType, ResolvedCpInfo,
};

fn names(name: &str, descriptor: &str) -> NameAndType {
    NameAndType { name: name.to_string(), descriptor: descriptor.to_string() }
}

fn pool() -> Vec<ResolvedCpInfo> {
    vec![
        ResolvedCpInfo::Utf8(String::from("A")),
        ResolvedCpInfo::Class(Class { name: String::from("A") }),
        ResolvedCpInfo::Fieldref(Fieldref { class: Class { name: String::from("B") }, name_and_type: names("f", "I") }),
        ResolvedCpInfo::Methodref(Methodref {
            class: Class { name: String::from("C") },
            name_and_type: names("m", "()V"),
        }),
        ResolvedCpInfo::InterfaceMethodref(InterfaceMethodref {
            class: Class { name: String::from("D") },
            name_and_type: names("run", "()V"),
        }),
        ResolvedCpInfo::Integer(7),
    ]
}

#[test]
fn opcodes_without_operands() {
    assert_eq!(decode_plain(0x00), Some(Instructions::Nop));
    assert_eq!(decode_plain(0x01), Some(Instructions::AconstNull));
    assert_eq!(decode_plain(0x02), Some(Instructions::Iconst { value: -1 }));
    assert_eq!(decode_plain(0x08), Some(Instructions::Iconst { value: 5 }));
    assert_eq!(decode_plain(0x0a), Some(Instructions::Lconst { value: 1 }));
    assert_eq!(decode_plain(0x0c), Some(Instructions::Fconst { value: 1.0f32.to_bits() }));
    assert_eq!(decode_plain(0x0d), Some(Instructions::Fconst { value: 2.0f32.to_bits() }));
    assert_eq!(decode_plain(0x0f), Some(Instructions::Dconst { value: 1.0f64.to_bits() }));
    assert_eq!(decode_plain(0x1a), Some(Instructions::Iload { index: 0 }));
    assert_eq!(decode_plain(0x21), Some(Instructions::Lload { index: 3 }));
    assert_eq!(decode_plain(0x2a), Some(Instructions::Aload { index: 0 }));
    assert_eq!(decode_plain(0x2e), Some(Instructions::Iaload));
    assert_eq!(decode_plain(0x35), Some(Instructions::Saload));
    assert_eq!(decode_plain(0x3b), Some(Instructions::Istore { index: 0 }));
    assert_eq!(decode_plain(0x4e), Some(Instructions::Astore { index: 3 }));
    assert_eq!(decode_plain(0x4f), Some(Instructions::Iastore));
    assert_eq!(decode_plain(0x57), Some(Instructions::Pop));
    assert_eq!(decode_plain(0x5f), Some(Instructions::Swap));
    assert_eq!(decode_plain(0x60), Some(Instructions::Iadd));
    assert_eq!(decode_plain(0x6c), Some(Instructions::Idiv));
    assert_eq!(decode_plain(0x74), Some(Instructions::Ineg));
    assert_eq!(decode_plain(0x7d), Some(Instructions::Lushr));
    assert_eq!(decode_plain(0x83), Some(Instructions::Lxor));
    assert_eq!(decode_plain(0x85), Some(Instructions::I2l));
    assert_eq!(decode_plain(0x93), Some(Instructions::I2s));
    assert_eq!(decode_plain(0x94), Some(Instructions::LongCompare));
    assert_eq!(decode_plain(0x98), Some(Instructions::DoubleCompareG));
    assert_eq!(decode_plain(0xac), Some(Instructions::Ireturn));
    assert_eq!(decode_plain(0xb1), Some(Instructions::Return));
    assert_eq!(decode_plain(0xbe), Some(Instructions::Arraylength));
    assert_eq!(decode_plain(0xc3), Some(Instructions::Monitorexit));
    assert_eq!(decode_plain(0x10), None);
    assert_eq!(decode_plain(0xa7), None);
    assert_eq!(decode_plain(0xca), None);
    assert_eq!(decode_plain(0xff), None);
}

#[test]
fn opcodes_with_one_operand() {
    assert_eq!(decode_with_byte(0x10, 0xfe), Some(Instructions::Bipush { value: -2 }));
    assert_eq!(decode_with_byte(0x12, 9), Some(Instructions::Ldc { index: 9 }));
    assert_eq!(decode_with_byte(0x15, 200), Some(Instructions::Iload { index: 200 }));
    assert_eq!(decode_with_byte(0x3a, 4), Some(Instructions::Astore { index: 4 }));
    assert_eq!(decode_with_byte(0xa9, 1), Some(Instructions::Ret { index: 1 }));
    assert_eq!(decode_with_byte(0xbc, 10), Some(Instructions::Newarray { atype: 10 }));
    assert_eq!(decode_with_byte(0x11, 0), None);
    assert_eq!(decode_with_short(0x11, 0xfffe), Some(Instructions::Sipush { value: -2 }));
    assert_eq!(decode_with_short(0x13, 300), Some(Instructions::LdcW { index: 300 }));
    assert_eq!(decode_with_short(0x99, 0x8000), Some(Instructions::Ifeq { offset: i16::MIN }));
    assert_eq!(decode_with_short(0x9f, 1), Some(Instructions::IfIntEq { offset: 1 }));
    assert_eq!(decode_with_short(0xa4, 1), Some(Instructions::IfIntLe { offset: 1 }));
    assert_eq!(decode_with_short(0xa5, 1), Some(Instructions::IfRefEq { offset: 1 }));
    assert_eq!(decode_with_short(0xa6, 1), Some(Instructions::IfRefNe { offset: 1 }));
    assert_eq!(decode_with_short(0xa7, 0xffff), Some(Instructions::Goto { offset: -1 }));
    assert_eq!(decode_with_short(0xa8, 2), Some(Instructions::Jsr { offset: 2 }));
    assert_eq!(decode_with_short(0xbd, 2), Some(Instructions::Anewarray { index: 2 }));
    assert_eq!(decode_with_short(0xc0, 2), Some(Instructions::Checkcast { index: 2 }));
    assert_eq!(decode_with_short(0xc1, 2), Some(Instructions::Instanceof { index: 2 }));
    assert_eq!(decode_with_short(0xc6, 2), Some(Instructions::Ifnull { offset: 2 }));
    assert_eq!(decode_with_short(0xc7, 2), Some(Instructions::Ifnonnull { offset: 2 }));
    assert_eq!(decode_with_short(0x10, 2), None);
    assert!(widens(0x15) && widens(0x19) && widens(0x36) && widens(0x3a) && widens(0xa9));
    assert!(!widens(0x14) && !widens(0x1a) && !widens(0x84) && !widens(0x00));
    assert_eq!(read_u16(&[9, 0x12, 0x34], 1), 0x1234);
    assert_eq!(read_i32(&[0xff, 0xff, 0xff, 0xfe], 0), -2);
}

#[test]
fn decode_one_consumes_the_operands() {
    let pool = pool();
    assert_eq!(decode_one(&[0x00, 0x10, 0x05], 0, &pool), Ok((Instructions::Nop, 1)));
    assert_eq!(decode_one(&[0x00, 0x10, 0x05], 1, &pool), Ok((Instructions::Bipush { value: 5 }, 2)));
    assert_eq!(decode_one(&[0x00, 0x10], 1, &pool), Err(DecodeError::UnexpectedEnd));
    assert_eq!(decode_one(&[0x00], 1, &pool), Err(DecodeError::UnexpectedEnd));
    assert_eq!(decode_one(&[0x11, 0x01], 0, &pool), Err(DecodeError::UnexpectedEnd));
    assert_eq!(decode_one(&[0x84, 3, 0xff], 0, &pool), Ok((Instructions::Iinc { index: 3, constant: -1 }, 3)));
    assert_eq!(decode_one(&[0x84, 3], 0, &pool), Err(DecodeError::UnexpectedEnd));
    assert_eq!(
        decode_one(&[0xc5, 0, 2, 3], 0, &pool),
        Ok((Instructions::Multianewarray { index: 2, dimensions: 3 }, 4))
    );
    assert_eq!(decode_one(&[0xc8, 0, 0, 1, 0], 0, &pool), Ok((Instructions::GotoW { offset: 256 }, 5)));
    assert_eq!(
        decode_one(&[0xc9, 0xff, 0xff, 0xff, 0xff], 0, &pool),
        Ok((Instructions::JsrW { offset: -1 }, 5))
    );
    assert_eq!(decode_one(&[0xc8, 0, 0, 1], 0, &pool), Err(DecodeError::UnexpectedEnd));
    assert_eq!(decode_one(&[0xca], 0, &pool), Err(DecodeError::BadOpcode));
    assert_eq!(decode_one(&[0xfe], 0, &pool), Err(DecodeError::BadOpcode));
}

#[test]
fn references_into_the_constant_pool_are_resolved() {
    let pool = pool();
    let field = Fieldref { class: Class { name: String::from("B") }, name_and_type: names("f", "I") };
    let method = Methodref { class: Class { name: String::from("C") }, name_and_type: names("m", "()V") };
    let interface =
        InterfaceMethodref { class: Class { name: String::from("D") }, name_and_type: names("run", "()V") };
    assert_eq!(decode_one(&[0xb2, 0, 3], 0, &pool), Ok((Instructions::Getstatic { fieldref: field.clone() }, 3)));
    assert_eq!(decode_one(&[0xb3, 0, 3], 0, &pool), Ok((Instructions::Putstatic { fieldref: field.clone() }, 3)));
    assert_eq!(decode_one(&[0xb4, 0, 3], 0, &pool), Ok((Instructions::Getfield { fieldref: field.clone() }, 3)));
    assert_eq!(decode_one(&[0xb5, 0, 3], 0, &pool), Ok((Instructions::Putfield { fieldref: field.clone() }, 3)));
    assert_eq!(
        decode_one(&[0xb6, 0, 4], 0, &pool),
        Ok((Instructions::Invokevirtual { methodref: method.clone() }, 3))
    );
    assert_eq!(
        decode_one(&[0xb7, 0, 4], 0, &pool),
        Ok((Instructions::Invokespecial { methodref: method.clone() }, 3))
    );
    assert_eq!(
        decode_one(&[0xb8, 0, 4], 0, &pool),
        Ok((Instructions::Invokestatic { methodref: method.clone() }, 3))
    );
    assert_eq!(
        decode_one(&[0xb9, 0, 5, 2, 0], 0, &pool),
        Ok((Instructions::Invokeinterface { interfacemethodref: interface, count: 2 }, 5))
    );
    assert_eq!(
        decode_one(&[0xbb, 0, 2], 0, &pool),
        Ok((Instructions::New { class: Class { name: String::from("A") } }, 3))
    );
    assert_eq!(decode_one(&[0xb2, 0, 0], 0, &pool), Err(DecodeError::BadConstantIndex));
    assert_eq!(decode_one(&[0xb2, 0, 7], 0, &pool), Err(DecodeError::BadConstantIndex));
    assert_eq!(decode_one(&[0xb2, 0, 4], 0, &pool), Err(DecodeError::BadConstantIndex));
    assert_eq!(decode_one(&[0xb6, 0, 3], 0, &pool), Err(DecodeError::BadConstantIndex));
    assert_eq!(decode_one(&[0xb9, 0, 4, 1, 0], 0, &pool), Err(DecodeError::BadConstantIndex));
    assert_eq!(decode_one(&[0xbb, 0, 6], 0, &pool), Err(DecodeError::BadConstantIndex));
    assert_eq!(decode_one(&[0xb2, 0], 0, &pool), Err(DecodeError::UnexpectedEnd));
    assert_eq!(decode_one(&[0xb9, 0, 5, 2], 0, &pool), Err(DecodeError::UnexpectedEnd));
    assert_eq!(decode_one(&[0xba, 0, 1, 0, 0], 0, &pool), Err(DecodeError::Unsupported));
    assert_eq!(decode_one(&[0xba, 0, 1, 0], 0, &pool), Err(DecodeError::UnexpectedEnd));
}

#[test]
fn wide_forms() {
    let pool = pool();
    assert_eq!(
        decode_one(&[0xc4, 0x15, 0x01, 0x00], 0, &pool),
        Ok((Instructions::Wide1 { opcode: 0x15, index_extension: 256 }, 4))
    );
    assert_eq!(
        decode_one(&[0xc4, 0x84, 0x01, 0x00, 0xff, 0xff], 0, &pool),
        Ok((Instructions::Wide2 { opcode: 0x84, index_extension: 256, constbytes: -1 }, 6))
    );
    assert_eq!(decode_one(&[0xc4, 0x60, 0, 0], 0, &pool), Err(DecodeError::BadOpcode));
    assert_eq!(decode_one(&[0xc4], 0, &pool), Err(DecodeError::UnexpectedEnd));
    assert_eq!(decode_one(&[0xc4, 0x15, 0x01], 0, &pool), Err(DecodeError::UnexpectedEnd));
    assert_eq!(decode_one(&[0xc4, 0x84, 0, 0, 0], 0, &pool), Err(DecodeError::UnexpectedEnd));
}

#[test]
fn table_switch_is_padded_to_four_bytes() {
    let pool = pool();
    let code = [
        0x00, 0xaa, 0, 0, // nop, opcode at 1, two bytes of padding
        0, 0, 0, 20, // default
        0, 0, 0, 1, // low
        0, 0, 0, 2, // high
        0, 0, 0, 30, 0xff, 0xff, 0xff, 0xff,
    ];
    assert_eq!(
        decode_one(&code, 1, &pool),
        Ok((Instructions::Tableswitch { default: 20, low: 1, high: 2, offsets: vec![30, -1] }, 23))
    );
    assert_eq!(decode_one(&code[..23], 1, &pool), Err(DecodeError::UnexpectedEnd));
    assert_eq!(decode_one(&code[..15], 1, &pool), Err(DecodeError::UnexpectedEnd));
    let unordered = [0xaa, 0, 0, 0, 0, 0, 0, 0, 0, 0, 0, 2, 0, 0, 0, 1];
    assert_eq!(decode_one(&unordered, 0, &pool), Err(DecodeError::BadSwitch));
    let aligned = [0, 0, 0, 0xaa, 0, 0, 0, 9, 0, 0, 0, 5, 0, 0, 0, 5, 0, 0, 0, 4];
    assert_eq!(
        decode_one(&aligned, 3, &pool),
        Ok((Instructions::Tableswitch { default: 9, low: 5, high: 5, offsets: vec![4] }, 17))
    );
}

#[test]
fn lookup_switch_reads_pairs() {
    let pool = pool();
    let code = [
        0xab, 0, 0, 0, // opcode at 0, three bytes of padding
        0, 0, 0, 40, // default
        0, 0, 0, 2, // npairs
        0, 0, 0, 1, 0, 0, 0, 28, //
        0xff, 0xff, 0xff, 0xf6, 0, 0, 0, 30,
    ];
    assert_eq!(
        decode_one(&code, 0, &pool),
        Ok((Instructions::Lookupswitch { default: 40, npairs: 2, pairs: vec![(1, 28), (-10, 30)] }, 28))
    );
    assert_eq!(decode_one(&code[..27], 0, &pool), Err(DecodeError::UnexpectedEnd));
    let negative = [0xab, 0, 0, 0, 0, 0, 0, 0, 0xff, 0xff, 0xff, 0xff];
    assert_eq!(decode_one(&negative, 0, &pool), Err(DecodeError::BadSwitch));
    let none = [0xab, 0, 0, 0, 0, 0, 0, 12, 0, 0, 0, 0];
    assert_eq!(
        decode_one(&none, 0, &pool),
        Ok((Instructions::Lookupswitch { default: 12, npairs: 0, pairs: vec![] }, 12))
    );
}

fn looping_bytes(offset: i16) -> Vec<u8> {
    let o = offset.to_be_bytes();
    vec![0x10, 5, 0x10, 5, 0x60, 0x59, 0x10, 100, 0xa1, o[0], o[1], 0xac]
}

#[test]
fn instructions_are_listed_with_their_byte_positions() {
    let decoded = generate_instructions(&looping_bytes(-6), &pool()).unwrap();
    assert_eq!(
        decoded,
        vec![
            (0, Instructions::Bipush { value: 5 }),
            (2, Instructions::Bipush { value: 5 }),
            (4, Instructions::Iadd),
            (5, Instructions::Dup),
            (6, Instructions::Bipush { value: 100 }),
            (8, Instructions::IfIntLt { offset: -6 }),
            (11, Instructions::Ireturn),
        ]
    );
    assert_eq!(generate_instructions(&[], &pool()), Ok(vec![]));
    assert_eq!(generate_instructions(&[0x00, 0x10], &pool()), Err(DecodeError::UnexpectedEnd));
    assert_eq!(generate_instructions(&[0x00, 0xcb], &pool()), Err(DecodeError::BadOpcode));
}

#[test]
fn branches_are_counted_in_instructions() {
    let decoded = generate_instructions(&looping_bytes(-6), &pool()).unwrap();
    assert_eq!(
        clean(decoded),
        Ok(vec![
            Instructions::Bipush { value: 5 },
            Instructions::Bipush { value: 5 },
            Instructions::Iadd,
            Instructions::Dup,
            Instructions::Bipush { value: 100 },
            Instructions::IfIntLt { offset: -4 },
            Instructions::Ireturn,
        ])
    );
    let forward = vec![
        (0, Instructions::Goto { offset: 5 }),
        (3, Instructions::Bipush { value: 1 }),
        (5, Instructions::GotoW { offset: -5 }),
        (10, Instructions::Ifnull { offset: 0 }),
    ];
    assert_eq!(
        clean(forward),
        Ok(vec![
            Instructions::Goto { offset: 2 },
            Instructions::Bipush { value: 1 },
            Instructions::GotoW { offset: -2 },
            Instructions::Ifnull { offset: 0 },
        ])
    );
    assert_eq!(clean(vec![]), Ok(vec![]));
}

#[test]
fn a_branch_into_the_middle_of_an_instruction_is_an_error() {
    assert_eq!(read_instructions(&looping_bytes(-5), &pool()), Err(DecodeError::BadBranchTarget));
    assert_eq!(read_instructions(&looping_bytes(-9), &pool()), Err(DecodeError::BadBranchTarget));
    assert_eq!(read_instructions(&looping_bytes(4), &pool()), Err(DecodeError::BadBranchTarget));
    assert_eq!(read_instructions(&looping_bytes(3), &pool()).map(|code| code.len()), Ok(7));
    assert_eq!(
        clean(vec![(0, Instructions::JsrW { offset: i32::MIN }), (5, Instructions::Return)]),
        Err(DecodeError::BadBranchTarget)
    );
    assert_eq!(
        clean(vec![(usize::MAX - 2, Instructions::Goto { offset: 3 })]),
        Err(DecodeError::BadBranchTarget)
    );
}

#[test]
fn switch_branches_are_counted_in_instructions() {
    let listed = vec![
        (0, Instructions::Nop),
        (1, Instructions::Tableswitch { default: 23, low: 0, high: 1, offsets: vec![22, -1] }),
        (23, Instructions::Return),
        (24, Instructions::Lookupswitch { default: -24, npairs: 1, pairs: vec![(7, -1)] }),
    ];
    assert_eq!(
        clean(listed),
        Ok(vec![
            Instructions::Nop,
            Instructions::Tableswitch { default: 2, low: 0, high: 1, offsets: vec![1, -1] },
            Instructions::Return,
            Instructions::Lookupswitch { default: -3, npairs: 1, pairs: vec![(7, -1)] },
        ])
    );
    let bad = vec![
        (0, Instructions::Tableswitch { default: 0, low: 0, high: 0, offsets: vec![2] }),
        (16, Instructions::Return),
    ];
    assert_eq!(clean(bad), Err(DecodeError::BadBranchTarget));
    let bad = vec![(0, Instructions::Lookupswitch { default: 1, npairs: 0, pairs: vec![] })];
    assert_eq!(clean(bad), Err(DecodeError::BadBranchTarget));
}

#[test]
fn branch_offsets_can_be_read_and_set() {
    assert_eq!(short_branch_of(&Instructions::Goto { offset: 3 }), Some(3));
    assert_eq!(short_branch_of(&Instructions::IfRefNe { offset: -3 }), Some(-3));
    assert_eq!(short_branch_of(&Instructions::Ifnonnull { offset: 1 }), Some(1));
    assert_eq!(short_branch_of(&Instructions::GotoW { offset: 3 }), None);
    assert_eq!(short_branch_of(&Instructions::Iadd), None);
    assert_eq!(set_short_offset(Instructions::Jsr { offset: 1 }, 9), Instructions::Jsr { offset: 9 });
    assert_eq!(set_short_offset(Instructions::Iflt { offset: 1 }, -9), Instructions::Iflt { offset: -9 });
    assert_eq!(set_short_offset(Instructions::Iadd, 9), Instructions::Iadd);
}

#[test]
fn decoded_loop_runs_in_the_interpreter() {
    let code = read_instructions(&looping_bytes(-6), &pool()).unwrap();
    let jvm = JVM::new(String::from("Main"), Table::new());
    let mut heap = Heap::new();
    let mut frame = Frame::new(3, 0);
    assert_eq!(frame.run(&code, &jvm, &mut heap, 1000), Ok(Signal::Return(Some(Type::Int(100)))));
}
