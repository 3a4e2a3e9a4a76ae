use rjvm::error::DecodeError;
use rjvm::parser::attribute_info::attribute::annotation::Annotation;
use rjvm::parser::attribute_info::attribute::bootstrap_method::BootstrapMethod;
use rjvm::parser::attribute_info::attribute::classes::Classes;
use rjvm::parser::attribute_info::attribute::element_value::{
    is_const_tag, read_pairs, read_values, ElementValue, ElementValues,
};
use rjvm::parser::attribute_info::attribute::exception::Exception;
use rjvm::parser::attribute_info::attribute::line_number::LineNumber;
use rjvm::parser::attribute_info::attribute::local_variable::LocalVariable;
use rjvm::parser::attribute_info::attribute::local_variable_type::LocalVariableType;
use rjvm::parser::attribute_info::attribute::parameter_annotation::ParameterAnnotation;
use rjvm::parser::attribute_info::attribute::stack_map_frame::verification_type_info::VerificationTypeInfo;
use rjvm::parser::attribute_info::attribute::stack_map_frame::StackMapFrame;
use rjvm::parser::cp_info::CpInfo;
use rjvm::parser::record::{read_many, Record};

#[test]
fn line_number_is_two_numbers() {
    let data = [0u8, 3, 1, 2, 9];
    let mut buf: &[u8] = &data;
    assert_eq!(LineNumber::read(&mut buf), Ok(LineNumber { start_pc: 3, line_number: 258 }));
    assert_eq!(buf, &[9u8][..]);
    assert_eq!(LineNumber::read(&mut buf), Err(DecodeError::UnexpectedEnd));
}

#[test]
fn fixed_records_read_their_fields_in_order() {
    let data = [0u8, 1, 0, 2, 0, 3, 0, 4, 0, 5, 0xff];
    let mut buf: &[u8] = &data;
    assert_eq!(
        Classes::read(&mut buf),
        Ok(Classes {
            inner_class_info_index: 1,
            outer_class_info_index: 2,
            inner_name_index: 3,
            inner_class_access_flags: 4
        })
    );
    assert_eq!(buf.len(), 3);
    let mut buf: &[u8] = &data;
    assert_eq!(Exception::read(&mut buf), Ok(Exception { start_pc: 1, end_pc: 2, handler_pc: 3, catch_type: 4 }));
    let mut buf: &[u8] = &data;
    assert_eq!(
        LocalVariable::read(&mut buf),
        Ok(LocalVariable { start_pc: 1, length: 2, name_index: 3, descriptor_index: 4, index: 5 })
    );
    assert_eq!(buf, &[0xffu8][..]);
    let mut buf: &[u8] = &data;
    assert_eq!(
        LocalVariableType::read(&mut buf),
        Ok(LocalVariableType { start_pc: 1, length: 2, name_index: 3, signature_index: 4, index: 5 })
    );
    let mut buf: &[u8] = &data[..9];
    assert_eq!(LocalVariable::read(&mut buf), Err(DecodeError::UnexpectedEnd));
    let mut buf: &[u8] = &data[..7];
    assert_eq!(Classes::read(&mut buf), Err(DecodeError::UnexpectedEnd));
    assert_eq!(Exception::read(&mut buf), Err(DecodeError::UnexpectedEnd));
}

#[test]
fn rows_of_records() {
    let data = [0u8, 1, 0, 2, 0, 3, 0, 4, 7];
    let mut buf: &[u8] = &data;
    assert_eq!(
        read_many::<LineNumber>(&mut buf, 2),
        Ok(vec![LineNumber { start_pc: 1, line_number: 2 }, LineNumber { start_pc: 3, line_number: 4 }])
    );
    assert_eq!(buf, &[7u8][..]);
    let mut buf: &[u8] = &data;
    assert_eq!(read_many::<u16>(&mut buf, 4), Ok(vec![1, 2, 3, 4]));
    let mut buf: &[u8] = &data;
    assert_eq!(read_many::<u16>(&mut buf, 5), Err(DecodeError::UnexpectedEnd));
    let mut buf: &[u8] = &data;
    assert_eq!(read_many::<LineNumber>(&mut buf, 0), Ok(vec![]));
    assert_eq!(buf.len(), 9);
    let mut buf: &[u8] = &data;
    assert_eq!(LineNumber::read_record(&mut buf), Ok(LineNumber { start_pc: 1, line_number: 2 }));
}

#[test]
fn bootstrap_method_has_counted_arguments() {
    let data = [0u8, 9, 0, 2, 0, 5, 0, 6, 1];
    let mut buf: &[u8] = &data;
    assert_eq!(
        BootstrapMethod::read(&mut buf),
        Ok(BootstrapMethod { bootstrap_method_ref: 9, num_bootstrap_arguments: 2, bootstrap_methods: vec![5, 6] })
    );
    assert_eq!(buf, &[1u8][..]);
    let mut buf: &[u8] = &data[..7];
    assert_eq!(BootstrapMethod::read(&mut buf), Err(DecodeError::UnexpectedEnd));
    let mut buf: &[u8] = &[0u8, 9, 0, 0];
    assert_eq!(
        BootstrapMethod::read(&mut buf),
        Ok(BootstrapMethod { bootstrap_method_ref: 9, num_bootstrap_arguments: 0, bootstrap_methods: vec![] })
    );
}

#[test]
fn verification_types_by_tag() {
    let read = |bytes: &[u8]| {
        let mut buf: &[u8] = bytes;
        let r = VerificationTypeInfo::read(&mut buf);
        (r, buf.len())
    };
    assert_eq!(read(&[0, 9]), (Ok(VerificationTypeInfo::TopVariable), 1));
    assert_eq!(read(&[1]), (Ok(VerificationTypeInfo::IntegerVariable), 0));
    assert_eq!(read(&[2]), (Ok(VerificationTypeInfo::FloatVariable), 0));
    assert_eq!(read(&[3]), (Ok(VerificationTypeInfo::DoubleVariable), 0));
    assert_eq!(read(&[4]), (Ok(VerificationTypeInfo::LongVariable), 0));
    assert_eq!(read(&[5]), (Ok(VerificationTypeInfo::NullVariable), 0));
    assert_eq!(read(&[6]), (Ok(VerificationTypeInfo::UninitializedThisVariable), 0));
    assert_eq!(read(&[7, 1, 2]), (Ok(VerificationTypeInfo::ObjectVariable { cpool_index: 258 }), 0));
    assert_eq!(read(&[8, 0, 2, 4]), (Ok(VerificationTypeInfo::UninitializedVariable { offset: 2 }), 1));
    assert_eq!(read(&[9]).0, Err(DecodeError::BadTag));
    assert_eq!(read(&[7, 1]).0, Err(DecodeError::UnexpectedEnd));
    assert_eq!(read(&[]).0, Err(DecodeError::UnexpectedEnd));
}

#[test]
fn stack_map_frames_by_type() {
    let read = |bytes: &[u8]| {
        let mut buf: &[u8] = bytes;
        let r = StackMapFrame::read(&mut buf);
        (r, buf.len())
    };
    assert_eq!(read(&[0]), (Ok(StackMapFrame::SameFrame { frame_type: 0 }), 0));
    assert_eq!(read(&[63, 1]), (Ok(StackMapFrame::SameFrame { frame_type: 63 }), 1));
    assert_eq!(
        read(&[64, 1]),
        (
            Ok(StackMapFrame::SameLocals1StackItemFrame {
                frame_type: 64,
                stack: VerificationTypeInfo::IntegerVariable
            }),
            0
        )
    );
    assert_eq!(
        read(&[127, 7, 0, 3]),
        (
            Ok(StackMapFrame::SameLocals1StackItemFrame {
                frame_type: 127,
                stack: VerificationTypeInfo::ObjectVariable { cpool_index: 3 }
            }),
            0
        )
    );
    assert_eq!(read(&[128]).0, Err(DecodeError::BadTag));
    assert_eq!(read(&[246, 0, 0]).0, Err(DecodeError::BadTag));
    assert_eq!(
        read(&[247, 0, 5, 2]),
        (
            Ok(StackMapFrame::SameLocals1StackItemFrameExtended {
                frame_type: 247,
                offset_delta: 5,
                stack: VerificationTypeInfo::FloatVariable
            }),
            0
        )
    );
    assert_eq!(read(&[248, 0, 5]), (Ok(StackMapFrame::ChopFrame { frame_type: 248, offset_delta: 5 }), 0));
    assert_eq!(read(&[250, 0, 5]), (Ok(StackMapFrame::ChopFrame { frame_type: 250, offset_delta: 5 }), 0));
    assert_eq!(read(&[251, 1, 0]), (Ok(StackMapFrame::SameFrameExtended { frame_type: 251, offset_delta: 256 }), 0));
    assert_eq!(
        read(&[253, 0, 1, 1, 4, 9]),
        (
            Ok(StackMapFrame::AppendFrame {
                frame_type: 253,
                offset_delta: 1,
                locals: vec![VerificationTypeInfo::IntegerVariable, VerificationTypeInfo::LongVariable]
            }),
            1
        )
    );
    assert_eq!(read(&[254, 0, 1, 1, 4]).0, Err(DecodeError::UnexpectedEnd));
    assert_eq!(
        read(&[255, 0, 2, 0, 1, 5, 0, 2, 1, 8, 0, 7]),
        (
            Ok(StackMapFrame::FullFrame {
                frame_type: 255,
                offset_delta: 2,
                number_of_locals: 1,
                locals: vec![VerificationTypeInfo::NullVariable],
                number_of_stack_items: 2,
                stack: vec![
                    VerificationTypeInfo::IntegerVariable,
                    VerificationTypeInfo::UninitializedVariable { offset: 7 }
                ]
            }),
            0
        )
    );
    assert_eq!(read(&[255, 0, 2, 0, 1, 5, 0]).0, Err(DecodeError::UnexpectedEnd));
    assert_eq!(read(&[255, 0, 2, 0, 1, 9, 0, 0]).0, Err(DecodeError::BadTag));
    assert_eq!(read(&[251, 1]).0, Err(DecodeError::UnexpectedEnd));
    assert_eq!(read(&[]).0, Err(DecodeError::UnexpectedEnd));
}

#[test]
fn element_values_by_tag() {
    let read = |bytes: &[u8]| {
        let mut buf: &[u8] = bytes;
        let r = ElementValue::read(&mut buf);
        (r, buf.len())
    };
    assert_eq!(
        read(&[b'I', 0, 7, 1]),
        (Ok(ElementValue { tag: b'I', value: ElementValues::ConstValueIndex(7) }), 1)
    );
    assert_eq!(read(&[b's', 1, 0]), (Ok(ElementValue { tag: b's', value: ElementValues::ConstValueIndex(256) }), 0));
    assert_eq!(
        read(&[b'e', 0, 1, 0, 2]),
        (
            Ok(ElementValue {
                tag: b'e',
                value: ElementValues::EnumConstValue { type_name_index: 1, const_name_index: 2 }
            }),
            0
        )
    );
    assert_eq!(read(&[b'c', 0, 9]), (Ok(ElementValue { tag: b'c', value: ElementValues::ClassInfoIndex(9) }), 0));
    assert_eq!(
        read(&[b'@', 0, 3, 0, 1, 0, 4, b'Z', 0, 5]),
        (
            Ok(ElementValue {
                tag: b'@',
                value: ElementValues::AnnotationValue(Annotation {
                    type_index: 3,
                    num_element_value_pairs: 1,
                    element_value_pairs: vec![(
                        4,
                        ElementValue { tag: b'Z', value: ElementValues::ConstValueIndex(5) }
                    )]
                })
            }),
            0
        )
    );
    assert_eq!(
        read(&[b'[', 0, 2, b'B', 0, 1, b'[', 0, 0, 6]),
        (
            Ok(ElementValue {
                tag: b'[',
                value: ElementValues::ArrayValue {
                    num_values: 2,
                    values: vec![
                        ElementValue { tag: b'B', value: ElementValues::ConstValueIndex(1) },
                        ElementValue {
                            tag: b'[',
                            value: ElementValues::ArrayValue { num_values: 0, values: vec![] }
                        }
                    ]
                }
            }),
            1
        )
    );
    assert_eq!(read(&[b'x', 0, 0]).0, Err(DecodeError::BadTag));
    assert_eq!(read(&[b'[', 0, 2, b'B', 0, 1]).0, Err(DecodeError::UnexpectedEnd));
    assert_eq!(read(&[b'[', 0, 1, b'?']).0, Err(DecodeError::BadTag));
    assert_eq!(read(&[b'e', 0, 1, 0]).0, Err(DecodeError::UnexpectedEnd));
    assert_eq!(read(&[]).0, Err(DecodeError::UnexpectedEnd));
    for tag in [b'B', b'C', b'D', b'F', b'I', b'J', b'S', b'Z', b's'] {
        assert!(is_const_tag(tag));
    }
    for tag in [b'e', b'c', b'@', b'[', b'b', 0] {
        assert!(!is_const_tag(tag));
    }
}

#[test]
fn annotations_and_their_rows() {
    let data = [0u8, 3, 0, 2, 0, 4, b'I', 0, 5, 0, 6, b'c', 0, 7, 0xee];
    let mut buf: &[u8] = &data;
    let expected = Annotation {
        type_index: 3,
        num_element_value_pairs: 2,
        element_value_pairs: vec![
            (4, ElementValue { tag: b'I', value: ElementValues::ConstValueIndex(5) }),
            (6, ElementValue { tag: b'c', value: ElementValues::ClassInfoIndex(7) }),
        ],
    };
    assert_eq!(Annotation::read(&mut buf), Ok(expected));
    assert_eq!(buf, &[0xeeu8][..]);
    let mut buf: &[u8] = &data[..11];
    assert_eq!(Annotation::read(&mut buf), Err(DecodeError::UnexpectedEnd));
    let mut buf: &[u8] = &data[4..];
    assert_eq!(read_pairs(&mut buf, 2).map(|pairs| pairs.len()), Ok(2));
    let mut buf: &[u8] = &[b'I', 0, 1, b'J', 0, 2];
    assert_eq!(read_values(&mut buf, 2).map(|values| values.len()), Ok(2));
    let mut buf: &[u8] = &[0u8, 2, 0, 1, 0, 0, 0, 2, 0, 0];
    assert_eq!(
        ParameterAnnotation::read(&mut buf),
        Ok(ParameterAnnotation {
            num_annotations: 2,
            annotations: vec![
                Annotation { type_index: 1, num_element_value_pairs: 0, element_value_pairs: vec![] },
                Annotation { type_index: 2, num_element_value_pairs: 0, element_value_pairs: vec![] },
            ]
        })
    );
    let mut buf: &[u8] = &[0u8, 2, 0, 1, 0, 0];
    assert_eq!(ParameterAnnotation::read(&mut buf), Err(DecodeError::UnexpectedEnd));
}

#[test]
fn constant_pool_entries_by_tag() {
    let read = |bytes: &[u8]| {
        let mut buf: &[u8] = bytes;
        let r = CpInfo::read(&mut buf);
        (r, buf.len())
    };
    assert_eq!(read(&[7, 0, 2, 9]), (Ok(CpInfo::Class { name_index: 2 }), 1));
    assert_eq!(read(&[8, 0, 2]), (Ok(CpInfo::String { string_index: 2 }), 0));
    assert_eq!(read(&[16, 0, 2]), (Ok(CpInfo::MethodType { descriptor_index: 2 }), 0));
    assert_eq!(read(&[9, 0, 1, 0, 2]), (Ok(CpInfo::Fieldref { class_index: 1, name_and_type_index: 2 }), 0));
    assert_eq!(read(&[10, 0, 1, 0, 2]), (Ok(CpInfo::Methodref { class_index: 1, name_and_type_index: 2 }), 0));
    assert_eq!(
        read(&[11, 0, 1, 0, 2]),
        (Ok(CpInfo::InterfaceMethodref { class_index: 1, name_and_type_index: 2 }), 0)
    );
    assert_eq!(read(&[12, 0, 1, 0, 2]), (Ok(CpInfo::NameAndType { name_index: 1, descriptor_index: 2 }), 0));
    assert_eq!(
        read(&[18, 0, 1, 0, 2]),
        (Ok(CpInfo::InvokeDynamic { bootstrap_method_attr_index: 1, reference_index: 2 }), 0)
    );
    assert_eq!(read(&[3, 0xff, 0xff, 0xff, 0xfb]), (Ok(CpInfo::Integer { value: -5 }), 0));
    assert_eq!(read(&[4, 0x3f, 0x80, 0, 0]), (Ok(CpInfo::Float { value: 1.0f32.to_bits() }), 0));
    assert_eq!(
        read(&[5, 0xff, 0xff, 0xff, 0xff, 0xff, 0xff, 0xff, 0xfe]),
        (Ok(CpInfo::Long { value: -2 }), 0)
    );
    assert_eq!(read(&[5, 0, 0, 0, 1, 0, 0, 0, 2]), (Ok(CpInfo::Long { value: (1 << 32) + 2 }), 0));
    assert_eq!(
        read(&[6, 0x3f, 0xf0, 0, 0, 0, 0, 0, 0]),
        (Ok(CpInfo::Double { value: 1.0f64.to_bits() }), 0)
    );
    assert_eq!(read(&[15, 6, 0, 9]), (Ok(CpInfo::MethodHandle { reference_kind: 6, reference_index: 9 }), 0));
    assert_eq!(read(&[2]).0, Err(DecodeError::BadTag));
    assert_eq!(read(&[0]).0, Err(DecodeError::BadTag));
    assert_eq!(read(&[7, 0]).0, Err(DecodeError::UnexpectedEnd));
    assert_eq!(read(&[5, 0, 0, 0, 0]).0, Err(DecodeError::UnexpectedEnd));
    assert_eq!(read(&[]).0, Err(DecodeError::UnexpectedEnd));
}

#[test]
fn text_constants_are_utf8() {
    let read = |bytes: &[u8]| {
        let mut buf: &[u8] = bytes;
        let r = CpInfo::read(&mut buf);
        (r, buf.len())
    };
    assert_eq!(read(&[1, 0, 4, b'm', b'a', b'i', b'n', 7]), (Ok(CpInfo::Utf8 { bytes: String::from("main") }), 1));
    assert_eq!(read(&[1, 0, 0]), (Ok(CpInfo::Utf8 { bytes: String::new() }), 0));
    assert_eq!(
        read(&[1, 0, 5, b'a', 0xc3, 0xa9, 0xe2, 0x82]).0,
        Err(DecodeError::BadUtf8)
    );
    assert_eq!(
        read(&[1, 0, 6, b'a', 0xc3, 0xa9, 0xe2, 0x82, 0xac]),
        (Ok(CpInfo::Utf8 { bytes: String::from("a\u{e9}\u{20ac}") }), 0)
    );
    assert_eq!(read(&[1, 0, 1, 0xff]).0, Err(DecodeError::BadUtf8));
    assert_eq!(read(&[1, 0, 2, 0xc0, 0x80]).0, Err(DecodeError::BadUtf8));
    assert_eq!(read(&[1, 0, 3, b'a']).0, Err(DecodeError::UnexpectedEnd));
    assert_eq!(read(&[1, 0]).0, Err(DecodeError::UnexpectedEnd));
}
