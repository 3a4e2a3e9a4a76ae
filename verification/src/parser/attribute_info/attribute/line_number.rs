use vstd::prelude::*;
use crate::error::DecodeError;
use crate::helpers::{get_u16, u16_at};
use crate::parser::record::{read_as, Record};

verus! {

/// One entry of a line-number table.
#[derive(Debug, Clone, Copy, PartialEq, Eq)]
pub struct LineNumber {
    pub start_pc: u16,
    pub line_number: u16,
}

impl View for LineNumber {
    type V = LineNumber;

    open spec fn view(&self) -> LineNumber {
        *self
    }
}

impl LineNumber {
    /// Reads one entry: two big-endian 16-bit numbers.
    pub fn read(buf: &mut &[u8]) -> (r: Result<Self, DecodeError>)
        ensures
            read_as(r, <LineNumber as Record>::parse(old(buf)@), old(buf)@, final(buf)@),
    {
        let start_pc = get_u16(buf)?;
        let line_number = get_u16(buf)?;
        assert(buf@ =~= old(buf)@.skip(4));
        Ok(LineNumber { start_pc, line_number })
    }
}

impl Record for LineNumber {
    open spec fn parse(s: Seq<u8>) -> Result<(LineNumber, int), DecodeError> {
        if s.len() < 4 {
            Err(DecodeError::UnexpectedEnd)
        } else {
            Ok((LineNumber { start_pc: u16_at(s, 0), line_number: u16_at(s, 2) }, 4))
        }
    }

    proof fn lemma_parse_length(s: Seq<u8>) {
    }

    fn read_record(buf: &mut &[u8]) -> (r: Result<Self, DecodeError>) {
        LineNumber::read(buf)
    }
}

} // verus!
