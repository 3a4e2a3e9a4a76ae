use vstd::prelude::*;
use crate::error::DecodeError;
use crate::helpers::{get_u16, u16_at};
use crate::parser::attribute_info::attribute::{Attribute, AttributeView};
use crate::parser::attribute_info::attribute::annotation::Annotation;
use crate::parser::record::{parse_many, read_as, read_many};

verus! {

/// The body of a list of annotations, visible at run time or not: a count and that many annotations.
pub open spec fn parse(visible: bool, s: Seq<u8>) -> Result<(AttributeView, int), DecodeError> {
    if s.len() < 2 {
        Err(DecodeError::UnexpectedEnd)
    } else {
        match parse_many::<Annotation>(s.skip(2), u16_at(s, 0) as nat) {
            Err(e) => Err(e),
            Ok((rows, n)) => Ok(
                (
                    if visible {
                    AttributeView::RuntimeVisibleAnnotations { annotations: rows }
                } else {
                    AttributeView::RuntimeInvisibleAnnotations { annotations: rows }
                },
                    2 + n,
                ),
            ),
        }
    }
}

/// Reads the attribute's body: a count and that many entries.
pub fn read<const VISIBLE: bool>(buf: &mut &[u8]) -> (r: Result<Attribute, DecodeError>)
    ensures
        read_as(r, parse(VISIBLE, old(buf)@), old(buf)@, final(buf)@),
{
    let count = get_u16(buf)?;
    let annotations = read_many::<Annotation>(buf, count as usize)?;
    assert(buf@ =~= old(buf)@.skip(2 + parse_many::<Annotation>(old(buf)@.skip(2), count as nat)->Ok_0.1));
    if VISIBLE {
        Ok(Attribute::RuntimeVisibleAnnotations { annotations })
    } else {
        Ok(Attribute::RuntimeInvisibleAnnotations { annotations })
    }
}

} // verus!
