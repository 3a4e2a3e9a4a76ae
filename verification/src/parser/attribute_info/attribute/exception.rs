use vstd::prelude::*;
use crate::error::DecodeError;
use crate::helpers::{get_u16, u16_at};
use crate::parser::record::{read_as, Record};

verus! {

/// One entry of a method body's exception table.
#[derive(Debug, Clone, Copy, PartialEq, Eq)]
pub struct Exception {
    pub start_pc: u16,
    pub end_pc: u16,
    pub handler_pc: u16,
    pub catch_type: u16,
}

impl View for Exception {
    type V = Exception;

    open spec fn view(&self) -> Exception {
        *self
    }
}

impl Exception {
    /// Reads one entry: four big-endian 16-bit numbers.
    pub fn read(buf: &mut &[u8]) -> (r: Result<Self, DecodeError>)
        ensures
            read_as(r, <Exception as Record>::parse(old(buf)@), old(buf)@, final(buf)@),
    {
        let start_pc = get_u16(buf)?;
        let end_pc = get_u16(buf)?;
        assert(buf@ =~= old(buf)@.skip(4));
        let handler_pc = get_u16(buf)?;
        assert(buf@ =~= old(buf)@.skip(6));
        let catch_type = get_u16(buf)?;
        assert(buf@ =~= old(buf)@.skip(8));
        Ok(Exception { start_pc, end_pc, handler_pc, catch_type })
    }
}

impl Record for Exception {
    open spec fn parse(s: Seq<u8>) -> Result<(Exception, int), DecodeError> {
        if s.len() < 8 {
            Err(DecodeError::UnexpectedEnd)
        } else {
            Ok((Exception { start_pc: u16_at(s, 0), end_pc: u16_at(s, 2), handler_pc: u16_at(s, 4), catch_type: u16_at(s, 6) }, 8))
        }
    }

    proof fn lemma_parse_length(s: Seq<u8>) {
    }

    fn read_record(buf: &mut &[u8]) -> (r: Result<Self, DecodeError>) {
        Exception::read(buf)
    }
}

} // verus!
