use vstd::prelude::*;
use vstd::utf8::{decode_utf8, encode_utf8, encode_utf8_decode_utf8, valid_utf8};
use crate::error::DecodeError;
use crate::helpers::{
    be_u32, be_u64, get_i32, get_i64, get_u16, get_u32, get_u64, get_u8, i32_of, i64_of, take_n,
    u16_at,
};
use crate::parser::record::{read_as, Record};

verus! {

/// A constant-pool entry as the class file holds it. Floating-point
/// constants are kept as their IEEE 754 bit patterns.
#[allow(inconsistent_fields)]
#[derive(Debug, Clone, PartialEq, Eq)]
pub enum CpInfo {
    Class { name_index: u16 },
    Fieldref { class_index: u16, name_and_type_index: u16 },
    Methodref { class_index: u16, name_and_type_index: u16 },
    InterfaceMethodref { class_index: u16, name_and_type_index: u16 },
    String { string_index: u16 },
    Integer { value: i32 },
    Float { value: u32 },
    Long { value: i64 },
    Double { value: u64 },
    NameAndType { name_index: u16, descriptor_index: u16 },
    Utf8 { bytes: String },
    MethodHandle { reference_kind: u8, reference_index: u16 },
    MethodType { descriptor_index: u16 },
    InvokeDynamic { bootstrap_method_attr_index: u16, reference_index: u16 },
}

/// A constant-pool entry as a mathematical value.
#[allow(inconsistent_fields)]
pub enum CpInfoView {
    Class { name_index: u16 },
    Fieldref { class_index: u16, name_and_type_index: u16 },
    Methodref { class_index: u16, name_and_type_index: u16 },
    InterfaceMethodref { class_index: u16, name_and_type_index: u16 },
    String { string_index: u16 },
    Integer { value: i32 },
    Float { value: u32 },
    Long { value: i64 },
    Double { value: u64 },
    NameAndType { name_index: u16, descriptor_index: u16 },
    Utf8 { bytes: Seq<char> },
    MethodHandle { reference_kind: u8, reference_index: u16 },
    MethodType { descriptor_index: u16 },
    InvokeDynamic { bootstrap_method_attr_index: u16, reference_index: u16 },
}

impl View for CpInfo {
    type V = CpInfoView;

    open spec fn view(&self) -> CpInfoView {
        match self {
            CpInfo::Class { name_index } => CpInfoView::Class { name_index: *name_index },
            CpInfo::Fieldref { class_index, name_and_type_index } => CpInfoView::Fieldref {
                class_index: *class_index,
                name_and_type_index: *name_and_type_index,
            },
            CpInfo::Methodref { class_index, name_and_type_index } => CpInfoView::Methodref {
                class_index: *class_index,
                name_and_type_index: *name_and_type_index,
            },
            CpInfo::InterfaceMethodref {
                class_index,
                name_and_type_index,
            } => CpInfoView::InterfaceMethodref {
                class_index: *class_index,
                name_and_type_index: *name_and_type_index,
            },
            CpInfo::String { string_index } => CpInfoView::String { string_index: *string_index },
            CpInfo::Integer { value } => CpInfoView::Integer { value: *value },
            CpInfo::Float { value } => CpInfoView::Float { value: *value },
            CpInfo::Long { value } => CpInfoView::Long { value: *value },
            CpInfo::Double { value } => CpInfoView::Double { value: *value },
            CpInfo::NameAndType { name_index, descriptor_index } => CpInfoView::NameAndType {
                name_index: *name_index,
                descriptor_index: *descriptor_index,
            },
            CpInfo::Utf8 { bytes } => CpInfoView::Utf8 { bytes: bytes@ },
            CpInfo::MethodHandle { reference_kind, reference_index } => CpInfoView::MethodHandle {
                reference_kind: *reference_kind,
                reference_index: *reference_index,
            },
            CpInfo::MethodType { descriptor_index } => CpInfoView::MethodType {
                descriptor_index: *descriptor_index,
            },
            CpInfo::InvokeDynamic {
                bootstrap_method_attr_index,
                reference_index,
            } => CpInfoView::InvokeDynamic {
                bootstrap_method_attr_index: *bootstrap_method_attr_index,
                reference_index: *reference_index,
            },
        }
    }
}

/// Turns bytes into text with the standard library's `String::from_utf8`.
///
/// The contract states what the standard library documents of it: the
/// conversion succeeds exactly if the bytes are valid UTF-8, and the text
/// then consists of exactly these bytes.
#[verifier::external_body]
fn text_from_utf8(bytes: Vec<u8>) -> (r: Option<String>)
    ensures
        r is Some <==> valid_utf8(bytes@),
        r is Some ==> encode_utf8(r->Some_0@) == bytes@,
{
    String::from_utf8(bytes).ok()
}

/// An entry with two 16-bit numbers after its tag.
pub open spec fn with_two(tag: u8, a: u16, b: u16) -> Option<CpInfoView> {
    if tag == 9 {
        Some(CpInfoView::Fieldref { class_index: a, name_and_type_index: b })
    } else if tag == 10 {
        Some(CpInfoView::Methodref { class_index: a, name_and_type_index: b })
    } else if tag == 11 {
        Some(CpInfoView::InterfaceMethodref { class_index: a, name_and_type_index: b })
    } else if tag == 12 {
        Some(CpInfoView::NameAndType { name_index: a, descriptor_index: b })
    } else if tag == 18 {
        Some(CpInfoView::InvokeDynamic { bootstrap_method_attr_index: a, reference_index: b })
    } else {
        None
    }
}

/// An entry with one 16-bit number after its tag.
pub open spec fn with_one(tag: u8, a: u16) -> Option<CpInfoView> {
    if tag == 7 {
        Some(CpInfoView::Class { name_index: a })
    } else if tag == 8 {
        Some(CpInfoView::String { string_index: a })
    } else if tag == 16 {
        Some(CpInfoView::MethodType { descriptor_index: a })
    } else {
        None
    }
}

/// A text entry: after the tag come a 16-bit length and that many bytes,
/// which must be valid UTF-8.
pub open spec fn parse_text(s: Seq<u8>) -> Result<(CpInfoView, int), DecodeError> {
    if s.len() < 3 {
        Err(DecodeError::UnexpectedEnd)
    } else if s.len() < 3 + u16_at(s, 1) {
        Err(DecodeError::UnexpectedEnd)
    } else if !valid_utf8(s.subrange(3, 3 + u16_at(s, 1))) {
        Err(DecodeError::BadUtf8)
    } else {
        Ok((CpInfoView::Utf8 { bytes: decode_utf8(s.subrange(3, 3 + u16_at(s, 1))) }, 3 + u16_at(s, 1)))
    }
}

impl CpInfo {
    /// Reads one constant-pool entry from the front of `buf`.
    pub fn read(buf: &mut &[u8]) -> (r: Result<Self, DecodeError>)
        ensures
            read_as(r, <CpInfo as Record>::parse(old(buf)@), old(buf)@, final(buf)@),
    {
        let ghost s = buf@;
        let tag = get_u8(buf)?;
        if tag == 7 {
            let name_index = get_u16(buf)?;
            assert(buf@ =~= s.skip(3));
            Ok(CpInfo::Class { name_index })
        } else if tag == 8 {
            let string_index = get_u16(buf)?;
            assert(buf@ =~= s.skip(3));
            Ok(CpInfo::String { string_index })
        } else if tag == 16 {
            let descriptor_index = get_u16(buf)?;
            assert(buf@ =~= s.skip(3));
            Ok(CpInfo::MethodType { descriptor_index })
        } else if tag == 9 || tag == 10 || tag == 11 || tag == 12 || tag == 18 {
            let a = get_u16(buf)?;
            let b = get_u16(buf)?;
            assert(buf@ =~= s.skip(5));
            if tag == 9 {
                Ok(CpInfo::Fieldref { class_index: a, name_and_type_index: b })
            } else if tag == 10 {
                Ok(CpInfo::Methodref { class_index: a, name_and_type_index: b })
            } else if tag == 11 {
                Ok(CpInfo::InterfaceMethodref { class_index: a, name_and_type_index: b })
            } else if tag == 12 {
                Ok(CpInfo::NameAndType { name_index: a, descriptor_index: b })
            } else {
                Ok(CpInfo::InvokeDynamic { bootstrap_method_attr_index: a, reference_index: b })
            }
        } else if tag == 3 {
            let value = get_i32(buf)?;
            assert(buf@ =~= s.skip(5));
            Ok(CpInfo::Integer { value })
        } else if tag == 4 {
            let value = get_u32(buf)?;
            assert(buf@ =~= s.skip(5));
            Ok(CpInfo::Float { value })
        } else if tag == 5 {
            let value = get_i64(buf)?;
            assert(buf@ =~= s.skip(9));
            Ok(CpInfo::Long { value })
        } else if tag == 6 {
            let value = get_u64(buf)?;
            assert(buf@ =~= s.skip(9));
            Ok(CpInfo::Double { value })
        } else if tag == 1 {
            let length = get_u16(buf)?;
            assert(buf@ =~= s.skip(3));
            let raw = take_n(length as usize, buf)?;
            assert(raw@ =~= s.subrange(3, 3 + length));
            assert(buf@ =~= s.skip(3 + length));
            match text_from_utf8(raw) {
                None => Err(DecodeError::BadUtf8),
                Some(bytes) => {
                    proof {
                        encode_utf8_decode_utf8(bytes@);
                    }
                    Ok(CpInfo::Utf8 { bytes })
                },
            }
        } else if tag == 15 {
            let reference_kind = get_u8(buf)?;
            let reference_index = get_u16(buf)?;
            assert(buf@ =~= s.skip(4));
            Ok(CpInfo::MethodHandle { reference_kind, reference_index })
        } else {
            Err(DecodeError::BadTag)
        }
    }
}

impl Record for CpInfo {
    /// The tag byte selects the kind: 7 a class, 8 a string and 16 a method
    /// type, with one index; 9, 10 and 11 a reference to a field, a method
    /// and an interface method, 12 a name and type and 18 a dynamic call
    /// site, with two indices; 3 an int, 4 a float, 5 a long and 6 a double,
    /// by their bytes; 1 text; 15 a method handle.
    open spec fn parse(s: Seq<u8>) -> Result<(CpInfoView, int), DecodeError> {
        if s.len() < 1 {
            Err(DecodeError::UnexpectedEnd)
        } else {
            let tag = s[0];
            if with_one(tag, 0) is Some {
                if s.len() < 3 {
                    Err(DecodeError::UnexpectedEnd)
                } else {
                    Ok((with_one(tag, u16_at(s, 1))->Some_0, 3))
                }
            } else if with_two(tag, 0, 0) is Some {
                if s.len() < 5 {
                    Err(DecodeError::UnexpectedEnd)
                } else {
                    Ok((with_two(tag, u16_at(s, 1), u16_at(s, 3))->Some_0, 5))
                }
            } else if tag == 3 {
                if s.len() < 5 {
                    Err(DecodeError::UnexpectedEnd)
                } else {
                    Ok((CpInfoView::Integer { value: i32_of(be_u32(s.skip(1))) }, 5))
                }
            } else if tag == 4 {
                if s.len() < 5 {
                    Err(DecodeError::UnexpectedEnd)
                } else {
                    Ok((CpInfoView::Float { value: be_u32(s.skip(1)) }, 5))
                }
            } else if tag == 5 {
                if s.len() < 9 {
                    Err(DecodeError::UnexpectedEnd)
                } else {
                    Ok((CpInfoView::Long { value: i64_of(be_u64(s.skip(1))) }, 9))
                }
            } else if tag == 6 {
                if s.len() < 9 {
                    Err(DecodeError::UnexpectedEnd)
                } else {
                    Ok((CpInfoView::Double { value: be_u64(s.skip(1)) }, 9))
                }
            } else if tag == 1 {
                parse_text(s)
            } else if tag == 15 {
                if s.len() < 4 {
                    Err(DecodeError::UnexpectedEnd)
                } else {
                    Ok(
                        (
                            CpInfoView::MethodHandle {
                                reference_kind: s[1],
                                reference_index: u16_at(s, 2),
                            },
                            4,
                        ),
                    )
                }
            } else {
                Err(DecodeError::BadTag)
            }
        }
    }

    proof fn lemma_parse_length(s: Seq<u8>) {
    }

    fn read_record(buf: &mut &[u8]) -> (r: Result<Self, DecodeError>) {
        CpInfo::read(buf)
    }
}

} // verus!
