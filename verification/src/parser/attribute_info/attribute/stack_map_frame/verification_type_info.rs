use vstd::prelude::*;
use crate::error::DecodeError;
use crate::helpers::{get_u16, get_u8, u16_at};
use crate::parser::record::{read_as, Record};

verus! {

/// The verification type of one local or stack slot.
#[derive(Debug, Clone, Copy, PartialEq, Eq)]
pub enum VerificationTypeInfo {
    TopVariable,
    IntegerVariable,
    FloatVariable,
    LongVariable,
    DoubleVariable,
    NullVariable,
    UninitializedThisVariable,
    ObjectVariable { cpool_index: u16 },
    UninitializedVariable { offset: u16 },
}

impl View for VerificationTypeInfo {
    type V = VerificationTypeInfo;

    open spec fn view(&self) -> VerificationTypeInfo {
        *self
    }
}

impl VerificationTypeInfo {
    /// Reads a tag byte and, for an object or an uninitialized variable, one
    /// 16-bit number.
    pub fn read(buf: &mut &[u8]) -> (r: Result<Self, DecodeError>)
        ensures
            read_as(r, <VerificationTypeInfo as Record>::parse(old(buf)@), old(buf)@, final(buf)@),
    {
        let tag = get_u8(buf)?;
        if tag == 0 {
            Ok(VerificationTypeInfo::TopVariable)
        } else if tag == 1 {
            Ok(VerificationTypeInfo::IntegerVariable)
        } else if tag == 2 {
            Ok(VerificationTypeInfo::FloatVariable)
        } else if tag == 3 {
            Ok(VerificationTypeInfo::DoubleVariable)
        } else if tag == 4 {
            Ok(VerificationTypeInfo::LongVariable)
        } else if tag == 5 {
            Ok(VerificationTypeInfo::NullVariable)
        } else if tag == 6 {
            Ok(VerificationTypeInfo::UninitializedThisVariable)
        } else if tag == 7 {
            let cpool_index = get_u16(buf)?;
            assert(buf@ =~= old(buf)@.skip(3));
            Ok(VerificationTypeInfo::ObjectVariable { cpool_index })
        } else if tag == 8 {
            let offset = get_u16(buf)?;
            assert(buf@ =~= old(buf)@.skip(3));
            Ok(VerificationTypeInfo::UninitializedVariable { offset })
        } else {
            Err(DecodeError::BadTag)
        }
    }
}

impl Record for VerificationTypeInfo {
    /// Tags 0 to 6 stand alone; 3 is a double and 4 a long; 7 and 8 are
    /// followed by a 16-bit number.
    open spec fn parse(s: Seq<u8>) -> Result<(VerificationTypeInfo, int), DecodeError> {
        if s.len() < 1 {
            Err(DecodeError::UnexpectedEnd)
        } else if s[0] == 0 {
            Ok((VerificationTypeInfo::TopVariable, 1))
        } else if s[0] == 1 {
            Ok((VerificationTypeInfo::IntegerVariable, 1))
        } else if s[0] == 2 {
            Ok((VerificationTypeInfo::FloatVariable, 1))
        } else if s[0] == 3 {
            Ok((VerificationTypeInfo::DoubleVariable, 1))
        } else if s[0] == 4 {
            Ok((VerificationTypeInfo::LongVariable, 1))
        } else if s[0] == 5 {
            Ok((VerificationTypeInfo::NullVariable, 1))
        } else if s[0] == 6 {
            Ok((VerificationTypeInfo::UninitializedThisVariable, 1))
        } else if s[0] == 7 {
            if s.len() < 3 {
                Err(DecodeError::UnexpectedEnd)
            } else {
                Ok((VerificationTypeInfo::ObjectVariable { cpool_index: u16_at(s, 1) }, 3))
            }
        } else if s[0] == 8 {
            if s.len() < 3 {
                Err(DecodeError::UnexpectedEnd)
            } else {
                Ok((VerificationTypeInfo::UninitializedVariable { offset: u16_at(s, 1) }, 3))
            }
        } else {
            Err(DecodeError::BadTag)
        }
    }

    proof fn lemma_parse_length(s: Seq<u8>) {
    }

    fn read_record(buf: &mut &[u8]) -> (r: Result<Self, DecodeError>) {
        VerificationTypeInfo::read(buf)
    }
}

} // verus!
