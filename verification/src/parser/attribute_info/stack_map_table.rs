use vstd::prelude::*;
use crate::error::DecodeError;
use crate::helpers::{get_u16, u16_at};
use crate::parser::attribute_info::attribute::{Attribute, AttributeView};
use crate::parser::attribute_info::attribute::stack_map_frame::StackMapFrame;
use crate::parser::record::{parse_many, read_as, read_many};

verus! {

/// The body of a stack map table: a count and that many frames.
pub open spec fn parse(s: Seq<u8>) -> Result<(AttributeView, int), DecodeError> {
    if s.len() < 2 {
        Err(DecodeError::UnexpectedEnd)
    } else {
        match parse_many::<StackMapFrame>(s.skip(2), u16_at(s, 0) as nat) {
            Err(e) => Err(e),
            Ok((rows, n)) => Ok(
                (
                    AttributeView::StackMapTable { entries: rows },
                    2 + n,
                ),
            ),
        }
    }
}

/// Reads the attribute's body: a count and that many entries.
pub fn read(buf: &mut &[u8]) -> (r: Result<Attribute, DecodeError>)
    ensures
        read_as(r, parse(old(buf)@), old(buf)@, final(buf)@),
{
    let count = get_u16(buf)?;
    let entries = read_many::<StackMapFrame>(buf, count as usize)?;
    assert(buf@ =~= old(buf)@.skip(2 + parse_many::<StackMapFrame>(old(buf)@.skip(2), count as nat)->Ok_0.1));
    Ok(Attribute::StackMapTable { entries })
}

} // verus!
