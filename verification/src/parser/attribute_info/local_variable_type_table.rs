use vstd::prelude::*;
use crate::error::DecodeError;
use crate::helpers::{get_u16, u16_at};
use crate::parser::attribute_info::attribute::{Attribute, AttributeView};
use crate::parser::attribute_info::attribute::local_variable_type::LocalVariableType;
use crate::parser::record::{parse_many, read_as, read_many};

verus! {

/// The body of a table of local variable types: a count and that many entries.
pub open spec fn parse(s: Seq<u8>) -> Result<(AttributeView, int), DecodeError> {
    if s.len() < 2 {
        Err(DecodeError::UnexpectedEnd)
    } else {
        match parse_many::<LocalVariableType>(s.skip(2), u16_at(s, 0) as nat) {
            Err(e) => Err(e),
            Ok((rows, n)) => Ok(
                (
                    AttributeView::LocalVariableTypeTable { local_variable_type_table: rows },
                    2 + n,
                ),
            ),
        }
    }
}

/// Reads the attribute's body: a count and that many entries.
pub fn read(buf: &mut &[u8]) -> (r: Result<Attribute, DecodeError>)
    ensures
        read_as(r, parse(old(buf)@), old(buf)@, final(buf)@),
{
    let count = get_u16(buf)?;
    let local_variable_type_table = read_many::<LocalVariableType>(buf, count as usize)?;
    assert(buf@ =~= old(buf)@.skip(2 + parse_many::<LocalVariableType>(old(buf)@.skip(2), count as nat)->Ok_0.1));
    Ok(Attribute::LocalVariableTypeTable { local_variable_type_table })
}

} // verus!
