use rjvm::error::DecodeError;
use rjvm::parser::attribute_info::attribute::annotation::Annotation;
use rjvm::parser::attribute_info::attribute::bootstrap_method::BootstrapMethod;
use rjvm::parser::attribute_info::attribute::classes::Classes;
use rjvm::parser::attribute_info::attribute::element_value::{ElementValue, ElementValues};
use rjvm::parser::attribute_info::attribute::exception::Exception;
use rjvm::parser::attribute_info::attribute::line_number::LineNumber;
use rjvm::parser::attribute_info::attribute::local_variable::LocalVariable;
use rjvm::parser::attribute_info::attribute::local_variable_type::LocalVariableType;
use rjvm::parser::attribute_info::attribute::parameter_annotation::ParameterAnnotation;
use rjvm::parser::attribute_info::attribute::stack_map_frame::StackMapFrame;
use rjvm::parser::attribute_info::attribute::Attribute;
use rjvm::parser::attribute_info::code::code_generator::Instructions;
use rjvm::parser::attribute_info::code::read_tables;
use rjvm::parser::attribute_info::{
    annotation_default, bootstrap_methods, code, constant_value, enclosing_method, exceptions, inner_classes,
    line_number_table, local_variable_table, local_variable_type_table, read_attributes, read_body, read_header,
    runtime_annotations, runtime_parameter_annotations, signature, source_debug_extensions, source_file,
    stack_map_table,
};
use rjvm::parser::cp_info_resolved::{lookup, lookup_text, ResolvedCpInfo};
use rjvm::parser::field_info::{FieldAccessFlags, FieldInfo};
use rjvm::parser::member::read_member;
use rjvm::parser::method_info::{MethodAccessFlags, MethodInfo};

const NAMES: [&str; 21] = [
    "ConstantValue",
    "Code",
    "StackMapTable",
    "Exceptions",
    "InnerClasses",
    "EnclosingMethod",
    "Synthetic",
    "Signature",
    "SourceFile",
    "SourceDebugExtension",
    "LineNumberTable",
    "LocalVariableTable",
    "LocalVariableTypeTable",
    "Deprecated",
    "RuntimeVisibleAnnotations",
    "RuntimeInvisibleAnnotations",
    "RuntimeVisibleParameterAnnotations",
    "RuntimeInvisibleParameterAnnotations",
    "AnnotationDefault",
    "BootstrapMethods",
    "Mystery",
];

/// A pool whose entry `i + 1` is the `i`th name, followed by an int at 22.
fn pool() -> Vec<ResolvedCpInfo> {
    let mut pool: Vec<ResolvedCpInfo> = NAMES.iter().map(|n| ResolvedCpInfo::Utf8(n.to_string())).collect();
    pool.push(ResolvedCpInfo::Integer(5));
    pool
}

fn index_of(name: &str) -> u16 {
    NAMES.iter().position(|n| *n == name).unwrap() as u16 + 1
}

fn attribute(name: &str, body: &[u8]) -> Vec<u8> {
    let mut bytes = index_of(name).to_be_bytes().to_vec();
    bytes.extend_from_slice(&(body.len() as u32).to_be_bytes());
    bytes.extend_from_slice(body);
    bytes
}

fn read(bytes: &[u8]) -> (Result<Attribute, DecodeError>, usize) {
    let mut buf: &[u8] = bytes;
    let r = Attribute::read(&mut buf, &pool());
    (r, buf.len())
}

#[test]
fn pool_lookups_are_one_based() {
    let pool = pool();
    assert_eq!(lookup(&pool, 0), None);
    assert_eq!(lookup(&pool, 1), Some(&ResolvedCpInfo::Utf8(String::from("ConstantValue"))));
    assert_eq!(lookup(&pool, 22), Some(&ResolvedCpInfo::Integer(5)));
    assert_eq!(lookup(&pool, 23), None);
    assert_eq!(lookup_text(&pool, 2), Some(&String::from("Code")));
    assert_eq!(lookup_text(&pool, 22), None);
    assert_eq!(lookup_text(&pool, 0), None);
}

#[test]
fn the_header_names_the_attribute_and_its_length() {
    let pool = pool();
    let mut buf: &[u8] = &[0, 2, 0, 0, 1, 0, 9, 9];
    assert_eq!(read_header(&mut buf, &pool), Ok((&String::from("Code"), 256)));
    assert_eq!(buf, &[9u8, 9][..]);
    let mut buf: &[u8] = &[0, 22, 0, 0, 0, 0];
    assert_eq!(read_header(&mut buf, &pool), Err(DecodeError::BadConstantIndex));
    let mut buf: &[u8] = &[0, 0, 0, 0, 0, 0];
    assert_eq!(read_header(&mut buf, &pool), Err(DecodeError::BadConstantIndex));
    let mut buf: &[u8] = &[0, 2, 0, 0, 0];
    assert_eq!(read_header(&mut buf, &pool), Err(DecodeError::UnexpectedEnd));
}

#[test]
fn simple_attributes() {
    assert_eq!(
        read(&attribute("ConstantValue", &[0, 9])),
        (Ok(Attribute::ConstantValue { constantvalue_index: 9 }), 0)
    );
    assert_eq!(
        read(&attribute("EnclosingMethod", &[0, 1, 0, 2])),
        (Ok(Attribute::EnclosingMethod { class_index: 1, method_index: 2 }), 0)
    );
    assert_eq!(read(&attribute("Synthetic", &[])), (Ok(Attribute::Synthetic), 0));
    assert_eq!(read(&attribute("Deprecated", &[])), (Ok(Attribute::Deprecated), 0));
    assert_eq!(
        read(&attribute("Signature", &[0, 3])),
        (Ok(Attribute::Signature { signature: String::from("StackMapTable") }), 0)
    );
    assert_eq!(
        read(&attribute("SourceFile", &[0, 21])),
        (Ok(Attribute::SourceFile { sourcefile: String::from("Mystery") }), 0)
    );
    assert_eq!(
        read(&attribute("SourceDebugExtension", &[1, 2, 3])),
        (Ok(Attribute::SourceDebugExtension { debug_extension: vec![1, 2, 3] }), 0)
    );
    assert_eq!(
        read(&attribute("SourceDebugExtension", &[])),
        (Ok(Attribute::SourceDebugExtension { debug_extension: vec![] }), 0)
    );
}

#[test]
fn an_attribute_leaves_what_follows_it() {
    let mut bytes = attribute("ConstantValue", &[0, 9]);
    bytes.extend_from_slice(&[7, 7, 7]);
    assert_eq!(read(&bytes), (Ok(Attribute::ConstantValue { constantvalue_index: 9 }), 3));
}

#[test]
fn an_attribute_must_fill_its_length() {
    assert_eq!(read(&attribute("ConstantValue", &[0, 9, 0])).0, Err(DecodeError::TrailingBytes));
    assert_eq!(read(&attribute("ConstantValue", &[0])).0, Err(DecodeError::UnexpectedEnd));
    assert_eq!(read(&attribute("Synthetic", &[0])).0, Err(DecodeError::TrailingBytes));
    assert_eq!(read(&attribute("LineNumberTable", &[0, 1, 0, 0, 0, 0, 0])).0, Err(DecodeError::TrailingBytes));
    let mut truncated = attribute("SourceDebugExtension", &[1, 2, 3]);
    truncated.pop();
    assert_eq!(read(&truncated).0, Err(DecodeError::UnexpectedEnd));
    assert_eq!(read(&[0, 1, 0, 0, 0]).0, Err(DecodeError::UnexpectedEnd));
}

#[test]
fn an_unknown_or_misnamed_attribute_is_an_error() {
    assert_eq!(read(&attribute("Mystery", &[1, 2])).0, Err(DecodeError::UnknownAttribute));
    assert_eq!(read(&[0, 22, 0, 0, 0, 0]).0, Err(DecodeError::BadConstantIndex));
    assert_eq!(read(&[0, 0, 0, 0, 0, 0]).0, Err(DecodeError::BadConstantIndex));
    assert_eq!(read(&[0, 99, 0, 0, 0, 0]).0, Err(DecodeError::BadConstantIndex));
    assert_eq!(read(&attribute("Signature", &[0, 22])).0, Err(DecodeError::BadConstantIndex));
    assert_eq!(read(&attribute("SourceFile", &[0, 0])).0, Err(DecodeError::BadConstantIndex));
}

#[test]
fn table_attributes() {
    assert_eq!(
        read(&attribute("LineNumberTable", &[0, 2, 0, 0, 0, 10, 0, 4, 0, 11])),
        (
            Ok(Attribute::LineNumberTable {
                line_number_table: vec![
                    LineNumber { start_pc: 0, line_number: 10 },
                    LineNumber { start_pc: 4, line_number: 11 }
                ]
            }),
            0
        )
    );
    assert_eq!(
        read(&attribute("Exceptions", &[0, 2, 0, 7, 0, 8])),
        (Ok(Attribute::Exceptions { exception_index_table: vec![7, 8] }), 0)
    );
    assert_eq!(
        read(&attribute("InnerClasses", &[0, 1, 0, 1, 0, 2, 0, 3, 0, 4])),
        (
            Ok(Attribute::InnerClasses {
                classes: vec![Classes {
                    inner_class_info_index: 1,
                    outer_class_info_index: 2,
                    inner_name_index: 3,
                    inner_class_access_flags: 4
                }]
            }),
            0
        )
    );
    assert_eq!(
        read(&attribute("LocalVariableTable", &[0, 1, 0, 1, 0, 2, 0, 3, 0, 4, 0, 5])),
        (
            Ok(Attribute::LocalVariableTable {
                local_variable_table: vec![LocalVariable {
                    start_pc: 1,
                    length: 2,
                    name_index: 3,
                    descriptor_index: 4,
                    index: 5
                }]
            }),
            0
        )
    );
    assert_eq!(
        read(&attribute("LocalVariableTypeTable", &[0, 1, 0, 1, 0, 2, 0, 3, 0, 4, 0, 5])),
        (
            Ok(Attribute::LocalVariableTypeTable {
                local_variable_type_table: vec![LocalVariableType {
                    start_pc: 1,
                    length: 2,
                    name_index: 3,
                    signature_index: 4,
                    index: 5
                }]
            }),
            0
        )
    );
    assert_eq!(
        read(&attribute("StackMapTable", &[0, 2, 3, 251, 0, 9])),
        (
            Ok(Attribute::StackMapTable {
                entries: vec![
                    StackMapFrame::SameFrame { frame_type: 3 },
                    StackMapFrame::SameFrameExtended { frame_type: 251, offset_delta: 9 }
                ]
            }),
            0
        )
    );
    assert_eq!(
        read(&attribute("BootstrapMethods", &[0, 1, 0, 5, 0, 1, 0, 6])),
        (
            Ok(Attribute::BootstrapMethods {
                bootstrap_methods: vec![BootstrapMethod {
                    bootstrap_method_ref: 5,
                    num_bootstrap_arguments: 1,
                    bootstrap_methods: vec![6]
                }]
            }),
            0
        )
    );
    assert_eq!(read(&attribute("LineNumberTable", &[0, 2, 0, 0, 0, 10])).0, Err(DecodeError::UnexpectedEnd));
    assert_eq!(read(&attribute("StackMapTable", &[0, 1, 200])).0, Err(DecodeError::BadTag));
}

#[test]
fn annotation_attributes() {
    let one = Annotation { type_index: 1, num_element_value_pairs: 0, element_value_pairs: vec![] };
    assert_eq!(
        read(&attribute("RuntimeVisibleAnnotations", &[0, 1, 0, 1, 0, 0])),
        (Ok(Attribute::RuntimeVisibleAnnotations { annotations: vec![one] }), 0)
    );
    let one = Annotation { type_index: 1, num_element_value_pairs: 0, element_value_pairs: vec![] };
    assert_eq!(
        read(&attribute("RuntimeInvisibleAnnotations", &[0, 1, 0, 1, 0, 0])),
        (Ok(Attribute::RuntimeInvisibleAnnotations { annotations: vec![one] }), 0)
    );
    let parameter = || ParameterAnnotation {
        num_annotations: 1,
        annotations: vec![Annotation { type_index: 2, num_element_value_pairs: 0, element_value_pairs: vec![] }],
    };
    assert_eq!(
        read(&attribute("RuntimeVisibleParameterAnnotations", &[0, 1, 0, 1, 0, 2, 0, 0])),
        (Ok(Attribute::RuntimeVisibleParameterAnnotations { parameter_annotations: vec![parameter()] }), 0)
    );
    assert_eq!(
        read(&attribute("RuntimeInvisibleParameterAnnotations", &[0, 1, 0, 1, 0, 2, 0, 0])),
        (Ok(Attribute::RuntimeInvisibleParameterAnnotations { parameter_annotations: vec![parameter()] }), 0)
    );
    assert_eq!(
        read(&attribute("AnnotationDefault", &[0, 7, 0, 0, 0, 3, b'I', 0, 4])),
        (
            Ok(Attribute::AnnotationDefault {
                attribute_name: String::from("Synthetic"),
                attribute_length: 3,
                default_value: ElementValue { tag: b'I', value: ElementValues::ConstValueIndex(4) }
            }),
            0
        )
    );
    assert_eq!(
        read(&attribute("AnnotationDefault", &[0, 22, 0, 0, 0, 3, b'I', 0, 4])).0,
        Err(DecodeError::BadConstantIndex)
    );
    assert_eq!(read(&attribute("AnnotationDefault", &[0, 7, 0, 0])).0, Err(DecodeError::UnexpectedEnd));
}

fn code_body(max_stack: u16, max_locals: u16, code: &[u8], rest: &[u8]) -> Vec<u8> {
    let mut body = max_stack.to_be_bytes().to_vec();
    body.extend_from_slice(&max_locals.to_be_bytes());
    body.extend_from_slice(&(code.len() as u32).to_be_bytes());
    body.extend_from_slice(code);
    body.extend_from_slice(rest);
    body
}

#[test]
fn code_attribute() {
    let mut rest = vec![0, 1, 0, 0, 0, 4, 0, 2, 0, 9];
    rest.extend_from_slice(&[0, 1]);
    rest.extend_from_slice(&attribute("LineNumberTable", &[0, 1, 0, 0, 0, 3]));
    let body = code_body(2, 1, &[0x10, 7, 0xa7, 0, 3, 0xac], &rest);
    assert_eq!(
        read(&attribute("Code", &body)),
        (
            Ok(Attribute::Code {
                max_stack: 2,
                max_locals: 1,
                code: vec![
                    Instructions::Bipush { value: 7 },
                    Instructions::Goto { offset: 1 },
                    Instructions::Ireturn
                ],
                exception_table: vec![Exception { start_pc: 0, end_pc: 4, handler_pc: 2, catch_type: 9 }],
                attributes: vec![Attribute::LineNumberTable {
                    line_number_table: vec![LineNumber { start_pc: 0, line_number: 3 }]
                }],
            }),
            0
        )
    );
    let empty = code_body(0, 0, &[], &[0, 0, 0, 0]);
    assert_eq!(
        read(&attribute("Code", &empty)),
        (
            Ok(Attribute::Code {
                max_stack: 0,
                max_locals: 0,
                code: vec![],
                exception_table: vec![],
                attributes: vec![]
            }),
            0
        )
    );
}

#[test]
fn code_attribute_errors() {
    let bad_branch = code_body(1, 0, &[0xa7, 0, 1, 0xb1], &[0, 0, 0, 0]);
    assert_eq!(read(&attribute("Code", &bad_branch)).0, Err(DecodeError::BadBranchTarget));
    let cut_operand = code_body(1, 0, &[0x10], &[0, 0, 0, 0]);
    assert_eq!(read(&attribute("Code", &cut_operand)).0, Err(DecodeError::UnexpectedEnd));
    let bad_opcode = code_body(1, 0, &[0xff], &[0, 0, 0, 0]);
    assert_eq!(read(&attribute("Code", &bad_opcode)).0, Err(DecodeError::BadOpcode));
    let no_tables = code_body(1, 0, &[0xb1], &[]);
    assert_eq!(read(&attribute("Code", &no_tables)).0, Err(DecodeError::UnexpectedEnd));
    let extra = code_body(1, 0, &[0xb1], &[0, 0, 0, 0, 0]);
    assert_eq!(read(&attribute("Code", &extra)).0, Err(DecodeError::TrailingBytes));
    let mut long_code = code_body(1, 0, &[0xb1], &[0, 0, 0, 0]);
    long_code[7] = 200;
    assert_eq!(read(&attribute("Code", &long_code)).0, Err(DecodeError::UnexpectedEnd));
    let nested_unknown = code_body(1, 0, &[0xb1], &[0, 0, 0, 1, 0, 21, 0, 0, 0, 0]);
    assert_eq!(read(&attribute("Code", &nested_unknown)).0, Err(DecodeError::UnknownAttribute));
}

#[test]
fn bodies_can_be_read_on_their_own() {
    let pool = pool();
    let mut buf: &[u8] = &[0, 9, 1];
    assert_eq!(constant_value::read(&mut buf), Ok(Attribute::ConstantValue { constantvalue_index: 9 }));
    assert_eq!(buf.len(), 1);
    let mut buf: &[u8] = &[0, 1, 0, 2];
    assert_eq!(enclosing_method::read(&mut buf), Ok(Attribute::EnclosingMethod { class_index: 1, method_index: 2 }));
    let mut buf: &[u8] = &[0, 0];
    assert_eq!(exceptions::read(&mut buf), Ok(Attribute::Exceptions { exception_index_table: vec![] }));
    let mut buf: &[u8] = &[0, 0];
    assert_eq!(inner_classes::read(&mut buf), Ok(Attribute::InnerClasses { classes: vec![] }));
    let mut buf: &[u8] = &[0, 0];
    assert_eq!(line_number_table::read(&mut buf), Ok(Attribute::LineNumberTable { line_number_table: vec![] }));
    let mut buf: &[u8] = &[0, 0];
    assert_eq!(
        local_variable_table::read(&mut buf),
        Ok(Attribute::LocalVariableTable { local_variable_table: vec![] })
    );
    let mut buf: &[u8] = &[0, 0];
    assert_eq!(
        local_variable_type_table::read(&mut buf),
        Ok(Attribute::LocalVariableTypeTable { local_variable_type_table: vec![] })
    );
    let mut buf: &[u8] = &[0, 0];
    assert_eq!(stack_map_table::read(&mut buf), Ok(Attribute::StackMapTable { entries: vec![] }));
    let mut buf: &[u8] = &[0, 0];
    assert_eq!(bootstrap_methods::read(&mut buf), Ok(Attribute::BootstrapMethods { bootstrap_methods: vec![] }));
    let mut buf: &[u8] = &[0, 0];
    assert_eq!(
        runtime_annotations::read::<true>(&mut buf),
        Ok(Attribute::RuntimeVisibleAnnotations { annotations: vec![] })
    );
    let mut buf: &[u8] = &[0, 0];
    assert_eq!(
        runtime_annotations::read::<false>(&mut buf),
        Ok(Attribute::RuntimeInvisibleAnnotations { annotations: vec![] })
    );
    let mut buf: &[u8] = &[0, 0];
    assert_eq!(
        runtime_parameter_annotations::read::<true>(&mut buf),
        Ok(Attribute::RuntimeVisibleParameterAnnotations { parameter_annotations: vec![] })
    );
    let mut buf: &[u8] = &[0, 0];
    assert_eq!(
        runtime_parameter_annotations::read::<false>(&mut buf),
        Ok(Attribute::RuntimeInvisibleParameterAnnotations { parameter_annotations: vec![] })
    );
    let mut buf: &[u8] = &[0, 2];
    assert_eq!(signature::read(&mut buf, &pool), Ok(Attribute::Signature { signature: String::from("Code") }));
    let mut buf: &[u8] = &[0, 2];
    assert_eq!(source_file::read(&mut buf, &pool), Ok(Attribute::SourceFile { sourcefile: String::from("Code") }));
    let mut buf: &[u8] = &[5, 6, 7];
    assert_eq!(
        source_debug_extensions::read(&mut buf, 2),
        Ok(Attribute::SourceDebugExtension { debug_extension: vec![5, 6] })
    );
    assert_eq!(buf, &[7u8][..]);
    let mut buf: &[u8] = &[5];
    assert_eq!(source_debug_extensions::read(&mut buf, 2), Err(DecodeError::UnexpectedEnd));
    let mut buf: &[u8] = &[0, 2, 0, 0, 0, 0, b'c', 0, 1];
    assert_eq!(
        annotation_default::read(&mut buf, &pool),
        Ok(Attribute::AnnotationDefault {
            attribute_name: String::from("Code"),
            attribute_length: 0,
            default_value: ElementValue { tag: b'c', value: ElementValues::ClassInfoIndex(1) }
        })
    );
    let body = code_body(1, 0, &[0xb1], &[0, 0, 0, 0]);
    let mut buf: &[u8] = &body;
    assert_eq!(
        code::read(&mut buf, &pool),
        Ok(Attribute::Code {
            max_stack: 1,
            max_locals: 0,
            code: vec![Instructions::Return],
            exception_table: vec![],
            attributes: vec![]
        })
    );
    let mut buf: &[u8] = &[0, 0, 0, 0, 9];
    assert_eq!(read_tables(&mut buf, &pool), Ok((vec![], vec![])));
    assert_eq!(buf.len(), 1);
    let mut buf: &[u8] = &[];
    assert_eq!(read_body(&String::from("Deprecated"), &mut buf, 0, &pool), Ok(Attribute::Deprecated));
    assert_eq!(read_body(&String::from("deprecated"), &mut buf, 0, &pool), Err(DecodeError::UnknownAttribute));
}

#[test]
fn rows_of_attributes() {
    let pool = pool();
    let mut bytes = attribute("Deprecated", &[]);
    bytes.extend_from_slice(&attribute("ConstantValue", &[0, 1]));
    bytes.push(0xaa);
    let mut buf: &[u8] = &bytes;
    assert_eq!(
        read_attributes(&mut buf, 2, &pool),
        Ok(vec![Attribute::Deprecated, Attribute::ConstantValue { constantvalue_index: 1 }])
    );
    assert_eq!(buf, &[0xaau8][..]);
    let mut buf: &[u8] = &bytes;
    assert_eq!(read_attributes(&mut buf, 3, &pool), Err(DecodeError::UnexpectedEnd));
    let mut buf: &[u8] = &bytes;
    assert_eq!(read_attributes(&mut buf, 0, &pool), Ok(vec![]));
}

#[test]
fn fields_and_methods_are_keyed_by_name_and_descriptor() {
    let pool = pool();
    let mut bytes = vec![0, 0x19, 0, 1, 0, 2, 0, 1];
    bytes.extend_from_slice(&attribute("Deprecated", &[]));
    bytes.push(0xaa);
    let mut buf: &[u8] = &bytes;
    assert_eq!(
        FieldInfo::read(&mut buf, &pool),
        Ok((
            String::from("ConstantValue:Code"),
            FieldInfo { access_flags: FieldAccessFlags { mask: 0x19 }, attributes: vec![Attribute::Deprecated] }
        ))
    );
    assert_eq!(buf, &[0xaau8][..]);
    let mut buf: &[u8] = &bytes;
    assert_eq!(
        MethodInfo::read(&mut buf, &pool),
        Ok((
            String::from("ConstantValue:Code"),
            MethodInfo { access_flags: MethodAccessFlags { mask: 0x19 }, attributes: vec![Attribute::Deprecated] }
        ))
    );
    let mut buf: &[u8] = &bytes;
    assert_eq!(
        read_member(&mut buf, &pool),
        Ok((String::from("ConstantValue:Code"), 0x19, vec![Attribute::Deprecated]))
    );
    let mut buf: &[u8] = &[0, 0, 0, 22, 0, 2, 0, 0];
    assert_eq!(FieldInfo::read(&mut buf, &pool), Err(DecodeError::BadConstantIndex));
    let mut buf: &[u8] = &[0, 0, 0, 1, 0, 0, 0, 0];
    assert_eq!(MethodInfo::read(&mut buf, &pool), Err(DecodeError::BadConstantIndex));
    let mut buf: &[u8] = &[0, 0, 0, 1, 0, 2, 0];
    assert_eq!(FieldInfo::read(&mut buf, &pool), Err(DecodeError::UnexpectedEnd));
    let mut buf: &[u8] = &[0, 0, 0, 22];
    assert_eq!(FieldInfo::read(&mut buf, &pool), Err(DecodeError::BadConstantIndex));
    let mut buf: &[u8] = &[0, 0, 0];
    assert_eq!(FieldInfo::read(&mut buf, &pool), Err(DecodeError::UnexpectedEnd));
}
