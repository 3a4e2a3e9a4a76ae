use vstd::prelude::*;
use crate::parser::attribute_info::attribute::annotation::{Annotation, AnnotationView};
use crate::parser::attribute_info::attribute::bootstrap_method::{BootstrapMethod, BootstrapMethodView};
use crate::parser::attribute_info::attribute::classes::Classes;
use crate::parser::attribute_info::attribute::element_value::{ElementValue, ElementValueView};
use crate::parser::attribute_info::attribute::exception::Exception;
use crate::parser::attribute_info::attribute::line_number::LineNumber;
use crate::parser::attribute_info::attribute::local_variable::LocalVariable;
use crate::parser::attribute_info::attribute::local_variable_type::LocalVariableType;
use crate::parser::attribute_info::attribute::parameter_annotation::{
    ParameterAnnotation, ParameterAnnotationView,
};
use crate::parser::attribute_info::attribute::stack_map_frame::{StackMapFrame, StackMapFrameView};
use crate::parser::attribute_info::code::code_generator::{Instructions, InstructionsView};
use crate::parser::record::models;

pub mod annotation;
pub mod bootstrap_method;
pub mod classes;
pub mod element_value;
pub mod exception;
pub mod line_number;
pub mod local_variable;
pub mod local_variable_type;
pub mod parameter_annotation;
pub mod stack_map_frame;

verus! {

/// One attribute of a class, field, method or method body.
#[allow(inconsistent_fields)]
#[derive(Debug, PartialEq, Eq)]
pub enum Attribute {
    ConstantValue { constantvalue_index: u16 },
    Code {
        max_stack: u16,
        max_locals: u16,
        code: Vec<Instructions>,
        exception_table: Vec<Exception>,
        attributes: Vec<Attribute>,
    },
    StackMapTable { entries: Vec<StackMapFrame> },
    Exceptions { exception_index_table: Vec<u16> },
    InnerClasses { classes: Vec<Classes> },
    EnclosingMethod { class_index: u16, method_index: u16 },
    Synthetic,
    Signature { signature: String },
    SourceFile { sourcefile: String },
    SourceDebugExtension { debug_extension: Vec<u8> },
    LineNumberTable { line_number_table: Vec<LineNumber> },
    LocalVariableTable { local_variable_table: Vec<LocalVariable> },
    LocalVariableTypeTable { local_variable_type_table: Vec<LocalVariableType> },
    Deprecated,
    RuntimeVisibleAnnotations { annotations: Vec<Annotation> },
    RuntimeInvisibleAnnotations { annotations: Vec<Annotation> },
    RuntimeVisibleParameterAnnotations { parameter_annotations: Vec<ParameterAnnotation> },
    RuntimeInvisibleParameterAnnotations { parameter_annotations: Vec<ParameterAnnotation> },
    AnnotationDefault { attribute_name: String, attribute_length: u32, default_value: ElementValue },
    BootstrapMethods { bootstrap_methods: Vec<BootstrapMethod> },
}


/// An attribute as a mathematical value.
#[allow(inconsistent_fields)]
pub enum AttributeView {
    ConstantValue { constantvalue_index: u16 },
    Code {
        max_stack: u16,
        max_locals: u16,
        code: Seq<InstructionsView>,
        exception_table: Seq<Exception>,
        attributes: Seq<AttributeView>,
    },
    StackMapTable { entries: Seq<StackMapFrameView> },
    Exceptions { exception_index_table: Seq<u16> },
    InnerClasses { classes: Seq<Classes> },
    EnclosingMethod { class_index: u16, method_index: u16 },
    Synthetic,
    Signature { signature: Seq<char> },
    SourceFile { sourcefile: Seq<char> },
    SourceDebugExtension { debug_extension: Seq<u8> },
    LineNumberTable { line_number_table: Seq<LineNumber> },
    LocalVariableTable { local_variable_table: Seq<LocalVariable> },
    LocalVariableTypeTable { local_variable_type_table: Seq<LocalVariableType> },
    Deprecated,
    RuntimeVisibleAnnotations { annotations: Seq<AnnotationView> },
    RuntimeInvisibleAnnotations { annotations: Seq<AnnotationView> },
    RuntimeVisibleParameterAnnotations { parameter_annotations: Seq<ParameterAnnotationView> },
    RuntimeInvisibleParameterAnnotations { parameter_annotations: Seq<ParameterAnnotationView> },
    AnnotationDefault {
        attribute_name: Seq<char>,
        attribute_length: u32,
        default_value: ElementValueView,
    },
    BootstrapMethods { bootstrap_methods: Seq<BootstrapMethodView> },
}

/// The mathematical value of an attribute.
pub open spec fn attribute_view(a: Attribute) -> AttributeView
    decreases a,
{
    match a {
        Attribute::ConstantValue { constantvalue_index } => AttributeView::ConstantValue {
            constantvalue_index,
        },
        Attribute::Code {
            max_stack,
            max_locals,
            code,
            exception_table,
            attributes,
        } => AttributeView::Code {
            max_stack,
            max_locals,
            code: models(code@),
            exception_table: models(exception_table@),
            attributes: Seq::new(
                attributes@.len(),
                |i: int|
                    if 0 <= i < attributes@.len() {
                        attribute_view(attributes@[i])
                    } else {
                        arbitrary()
                    },
            ),
        },
        Attribute::StackMapTable { entries } => AttributeView::StackMapTable { entries: models(entries@) },
        Attribute::Exceptions { exception_index_table } => AttributeView::Exceptions {
            exception_index_table: models(exception_index_table@),
        },
        Attribute::InnerClasses { classes } => AttributeView::InnerClasses { classes: models(classes@) },
        Attribute::EnclosingMethod { class_index, method_index } => AttributeView::EnclosingMethod {
            class_index,
            method_index,
        },
        Attribute::Synthetic => AttributeView::Synthetic,
        Attribute::Signature { signature } => AttributeView::Signature { signature: signature@ },
        Attribute::SourceFile { sourcefile } => AttributeView::SourceFile { sourcefile: sourcefile@ },
        Attribute::SourceDebugExtension { debug_extension } => AttributeView::SourceDebugExtension {
            debug_extension: debug_extension@,
        },
        Attribute::LineNumberTable { line_number_table } => AttributeView::LineNumberTable {
            line_number_table: models(line_number_table@),
        },
        Attribute::LocalVariableTable { local_variable_table } => AttributeView::LocalVariableTable {
            local_variable_table: models(local_variable_table@),
        },
        Attribute::LocalVariableTypeTable {
            local_variable_type_table,
        } => AttributeView::LocalVariableTypeTable {
            local_variable_type_table: models(local_variable_type_table@),
        },
        Attribute::Deprecated => AttributeView::Deprecated,
        Attribute::RuntimeVisibleAnnotations { annotations } => AttributeView::RuntimeVisibleAnnotations {
            annotations: models(annotations@),
        },
        Attribute::RuntimeInvisibleAnnotations {
            annotations,
        } => AttributeView::RuntimeInvisibleAnnotations { annotations: models(annotations@) },
        Attribute::RuntimeVisibleParameterAnnotations {
            parameter_annotations,
        } => AttributeView::RuntimeVisibleParameterAnnotations {
            parameter_annotations: models(parameter_annotations@),
        },
        Attribute::RuntimeInvisibleParameterAnnotations {
            parameter_annotations,
        } => AttributeView::RuntimeInvisibleParameterAnnotations {
            parameter_annotations: models(parameter_annotations@),
        },
        Attribute::AnnotationDefault {
            attribute_name,
            attribute_length,
            default_value,
        } => AttributeView::AnnotationDefault {
            attribute_name: attribute_name@,
            attribute_length,
            default_value: default_value@,
        },
        Attribute::BootstrapMethods { bootstrap_methods } => AttributeView::BootstrapMethods {
            bootstrap_methods: models(bootstrap_methods@),
        },
    }
}

impl View for Attribute {
    type V = AttributeView;

    open spec fn view(&self) -> AttributeView {
        attribute_view(*self)
    }
}

} // verus!
