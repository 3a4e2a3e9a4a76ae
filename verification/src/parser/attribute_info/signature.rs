use vstd::prelude::*;
use crate::error::DecodeError;
use crate::helpers::{get_u16, u16_at};
use crate::parser::attribute_info::attribute::{Attribute, AttributeView};
use crate::parser::cp_info_resolved::{lookup_text, text_entry, ResolvedCpInfo, ResolvedCpInfoView};
use crate::parser::record::{models, read_as};

verus! {

/// The body of a signature: the index of its text in the constant pool.
pub open spec fn parse(s: Seq<u8>, pool: Seq<ResolvedCpInfoView>) -> Result<
    (AttributeView, int),
    DecodeError,
> {
    if s.len() < 2 {
        Err(DecodeError::UnexpectedEnd)
    } else {
        match text_entry(pool, u16_at(s, 0)) {
            None => Err(DecodeError::BadConstantIndex),
            Some(text) => Ok((AttributeView::Signature { signature: text }, 2)),
        }
    }
}

/// Reads the attribute's body: one index, which must name a text constant.
pub fn read(buf: &mut &[u8], constant_pool: &Vec<ResolvedCpInfo>) -> (r: Result<Attribute, DecodeError>)
    ensures
        read_as(r, parse(old(buf)@, models(constant_pool@)), old(buf)@, final(buf)@),
{
    let index = get_u16(buf)?;
    match lookup_text(constant_pool, index) {
        None => Err(DecodeError::BadConstantIndex),
        Some(text) => Ok(Attribute::Signature { signature: text.clone() }),
    }
}

} // verus!
