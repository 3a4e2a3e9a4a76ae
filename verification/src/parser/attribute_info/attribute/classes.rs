use vstd::prelude::*;
use crate::error::DecodeError;
use crate::helpers::{get_u16, u16_at};
use crate::parser::record::{read_as, Record};

verus! {

/// One entry of a table of inner classes.
#[derive(Debug, Clone, Copy, PartialEq, Eq)]
pub struct Classes {
    pub inner_class_info_index: u16,
    pub outer_class_info_index: u16,
    pub inner_name_index: u16,
    pub inner_class_access_flags: u16,
}

impl View for Classes {
    type V = Classes;

    open spec fn view(&self) -> Classes {
        *self
    }
}

impl Classes {
    /// Reads one entry: four big-endian 16-bit numbers.
    pub fn read(buf: &mut &[u8]) -> (r: Result<Self, DecodeError>)
        ensures
            read_as(r, <Classes as Record>::parse(old(buf)@), old(buf)@, final(buf)@),
    {
        let inner_class_info_index = get_u16(buf)?;
        let outer_class_info_index = get_u16(buf)?;
        assert(buf@ =~= old(buf)@.skip(4));
        let inner_name_index = get_u16(buf)?;
        assert(buf@ =~= old(buf)@.skip(6));
        let inner_class_access_flags = get_u16(buf)?;
        assert(buf@ =~= old(buf)@.skip(8));
        Ok(Classes { inner_class_info_index, outer_class_info_index, inner_name_index, inner_class_access_flags })
    }
}

impl Record for Classes {
    open spec fn parse(s: Seq<u8>) -> Result<(Classes, int), DecodeError> {
        if s.len() < 8 {
            Err(DecodeError::UnexpectedEnd)
        } else {
            Ok((Classes { inner_class_info_index: u16_at(s, 0), outer_class_info_index: u16_at(s, 2), inner_name_index: u16_at(s, 4), inner_class_access_flags: u16_at(s, 6) }, 8))
        }
    }

    proof fn lemma_parse_length(s: Seq<u8>) {
    }

    fn read_record(buf: &mut &[u8]) -> (r: Result<Self, DecodeError>) {
        Classes::read(buf)
    }
}

} // verus!
