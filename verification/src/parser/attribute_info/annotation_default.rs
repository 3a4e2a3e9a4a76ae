use vstd::prelude::*;
use crate::error::DecodeError;
use crate::helpers::{get_u16, get_u32, u16_at, u32_at};
use crate::parser::attribute_info::attribute::element_value::{
    lemma_element_value_length, parse_element_value, ElementValue,
};
use crate::parser::attribute_info::attribute::{Attribute, AttributeView};
use crate::parser::cp_info_resolved::{lookup_text, text_entry, ResolvedCpInfo, ResolvedCpInfoView};
use crate::parser::record::{models, read_as};

verus! {

/// The body of an annotation default: the index of a name, which must be
/// a text constant, a 32-bit length, and the element value.
pub open spec fn parse(s: Seq<u8>, pool: Seq<ResolvedCpInfoView>) -> Result<
    (AttributeView, int),
    DecodeError,
> {
    if s.len() < 2 {
        Err(DecodeError::UnexpectedEnd)
    } else {
        match text_entry(pool, u16_at(s, 0)) {
            None => Err(DecodeError::BadConstantIndex),
            Some(name) => if s.len() < 6 {
                Err(DecodeError::UnexpectedEnd)
            } else {
                match parse_element_value(s.skip(6)) {
                    Err(e) => Err(e),
                    Ok((value, n)) => Ok(
                        (
                            AttributeView::AnnotationDefault {
                                attribute_name: name,
                                attribute_length: u32_at(s, 2),
                                default_value: value,
                            },
                            6 + n,
                        ),
                    ),
                }
            },
        }
    }
}

/// Reads the attribute's body.
pub fn read(buf: &mut &[u8], constant_pool: &Vec<ResolvedCpInfo>) -> (r: Result<Attribute, DecodeError>)
    ensures
        read_as(r, parse(old(buf)@, models(constant_pool@)), old(buf)@, final(buf)@),
{
    let attribute_name_index = get_u16(buf)?;
    let attribute_name = match lookup_text(constant_pool, attribute_name_index) {
        None => { return Err(DecodeError::BadConstantIndex); },
        Some(text) => text.clone(),
    };
    let attribute_length = get_u32(buf)?;
    assert(buf@ =~= old(buf)@.skip(6));
    proof {
        lemma_element_value_length(buf@);
    }
    let default_value = ElementValue::read(buf)?;
    assert(buf@ =~= old(buf)@.skip(6 + parse_element_value(old(buf)@.skip(6))->Ok_0.1));
    Ok(Attribute::AnnotationDefault { attribute_name, attribute_length, default_value })
}

} // verus!
