use vstd::prelude::*;
use crate::error::DecodeError;
use crate::helpers::{get_u16, u16_at};
use crate::parser::attribute_info::attribute::{Attribute, AttributeView};
use crate::parser::attribute_info::attribute::bootstrap_method::BootstrapMethod;
use crate::parser::record::{parse_many, read_as, read_many};

verus! {

/// The body of a table of bootstrap methods: a count and that many entries.
pub open spec fn parse(s: Seq<u8>) -> Result<(AttributeView, int), DecodeError> {
    if s.len() < 2 {
        Err(DecodeError::UnexpectedEnd)
    } else {
        match parse_many::<BootstrapMethod>(s.skip(2), u16_at(s, 0) as nat) {
            Err(e) => Err(e),
            Ok((rows, n)) => Ok(
                (
                    AttributeView::BootstrapMethods { bootstrap_methods: rows },
                    2 + n,
                ),
            ),
        }
    }
}

/// Reads the attribute's body: a count and that many entries.
pub fn read(buf: &mut &[u8]) -> (r: Result<Attribute, DecodeError>)
    ensures
        read_as(r, parse(old(buf)@), old(buf)@, final(buf)@),
{
    let count = get_u16(buf)?;
    let bootstrap_methods = read_many::<BootstrapMethod>(buf, count as usize)?;
    assert(buf@ =~= old(buf)@.skip(2 + parse_many::<BootstrapMethod>(old(buf)@.skip(2), count as nat)->Ok_0.1));
    Ok(Attribute::BootstrapMethods { bootstrap_methods })
}

} // verus!
