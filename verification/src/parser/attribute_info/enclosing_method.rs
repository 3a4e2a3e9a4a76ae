use vstd::prelude::*;
use crate::error::DecodeError;
use crate::helpers::{get_u16, u16_at};
use crate::parser::attribute_info::attribute::{Attribute, AttributeView};
use crate::parser::record::read_as;

verus! {

/// The body of an enclosing method: the index of the class and that of the
/// method.
pub open spec fn parse(s: Seq<u8>) -> Result<(AttributeView, int), DecodeError> {
    if s.len() < 4 {
        Err(DecodeError::UnexpectedEnd)
    } else {
        Ok((AttributeView::EnclosingMethod { class_index: u16_at(s, 0), method_index: u16_at(s, 2) }, 4))
    }
}

/// Reads the attribute's body: two 16-bit indices.
pub fn read(buf: &mut &[u8]) -> (r: Result<Attribute, DecodeError>)
    ensures
        read_as(r, parse(old(buf)@), old(buf)@, final(buf)@),
{
    let class_index = get_u16(buf)?;
    let method_index = get_u16(buf)?;
    assert(buf@ =~= old(buf)@.skip(4));
    Ok(Attribute::EnclosingMethod { class_index, method_index })
}

} // verus!
