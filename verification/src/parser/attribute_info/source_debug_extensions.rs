use vstd::prelude::*;
use crate::error::DecodeError;
use crate::helpers::take_n;
use crate::parser::attribute_info::attribute::{Attribute, AttributeView};
use crate::parser::record::read_as;

verus! {

/// The body of a debug extension: as many bytes as the attribute is long.
pub open spec fn parse(s: Seq<u8>, attribute_length: u32) -> Result<(AttributeView, int), DecodeError> {
    if s.len() < attribute_length {
        Err(DecodeError::UnexpectedEnd)
    } else {
        Ok(
            (
                AttributeView::SourceDebugExtension { debug_extension: s.take(attribute_length as int) },
                attribute_length as int,
            ),
        )
    }
}

/// Reads the attribute's body: `attribute_length` bytes.
pub fn read(buf: &mut &[u8], attribute_length: u32) -> (r: Result<Attribute, DecodeError>)
    ensures
        read_as(r, parse(old(buf)@, attribute_length), old(buf)@, final(buf)@),
{
    let debug_extension = take_n(attribute_length as usize, buf)?;
    Ok(Attribute::SourceDebugExtension { debug_extension })
}

} // verus!
