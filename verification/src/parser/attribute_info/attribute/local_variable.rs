use vstd::prelude::*;
use crate::error::DecodeError;
use crate::helpers::{get_u16, u16_at};
use crate::parser::record::{read_as, Record};

verus! {

/// One entry of a table of local variables.
#[derive(Debug, Clone, Copy, PartialEq, Eq)]
pub struct LocalVariable {
    pub start_pc: u16,
    pub length: u16,
    pub name_index: u16,
    pub descriptor_index: u16,
    pub index: u16,
}

impl View for LocalVariable {
    type V = LocalVariable;

    open spec fn view(&self) -> LocalVariable {
        *self
    }
}

impl LocalVariable {
    /// Reads one entry: five big-endian 16-bit numbers.
    pub fn read(buf: &mut &[u8]) -> (r: Result<Self, DecodeError>)
        ensures
            read_as(r, <LocalVariable as Record>::parse(old(buf)@), old(buf)@, final(buf)@),
    {
        let start_pc = get_u16(buf)?;
        let length = get_u16(buf)?;
        assert(buf@ =~= old(buf)@.skip(4));
        let name_index = get_u16(buf)?;
        assert(buf@ =~= old(buf)@.skip(6));
        let descriptor_index = get_u16(buf)?;
        assert(buf@ =~= old(buf)@.skip(8));
        let index = get_u16(buf)?;
        assert(buf@ =~= old(buf)@.skip(10));
        Ok(LocalVariable { start_pc, length, name_index, descriptor_index, index })
    }
}

impl Record for LocalVariable {
    open spec fn parse(s: Seq<u8>) -> Result<(LocalVariable, int), DecodeError> {
        if s.len() < 10 {
            Err(DecodeError::UnexpectedEnd)
        } else {
            Ok((LocalVariable { start_pc: u16_at(s, 0), length: u16_at(s, 2), name_index: u16_at(s, 4), descriptor_index: u16_at(s, 6), index: u16_at(s, 8) }, 10))
        }
    }

    proof fn lemma_parse_length(s: Seq<u8>) {
    }

    fn read_record(buf: &mut &[u8]) -> (r: Result<Self, DecodeError>) {
        LocalVariable::read(buf)
    }
}

} // verus!
