use vstd::prelude::*;
use crate::error::DecodeError;
use crate::helpers::{get_u16, u16_at};
use crate::parser::attribute_info::attribute::{Attribute, AttributeView};
use crate::parser::record::read_as;

verus! {

/// The body of a constant value: the index of the constant.
pub open spec fn parse(s: Seq<u8>) -> Result<(AttributeView, int), DecodeError> {
    if s.len() < 2 {
        Err(DecodeError::UnexpectedEnd)
    } else {
        Ok((AttributeView::ConstantValue { constantvalue_index: u16_at(s, 0) }, 2))
    }
}

/// Reads the attribute's body: one 16-bit index.
pub fn read(buf: &mut &[u8]) -> (r: Result<Attribute, DecodeError>)
    ensures
        read_as(r, parse(old(buf)@), old(buf)@, final(buf)@),
{
    let constantvalue_index = get_u16(buf)?;
    Ok(Attribute::ConstantValue { constantvalue_index })
}

} // verus!
