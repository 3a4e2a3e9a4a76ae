use vstd::prelude::*;
use crate::error::DecodeError;
use crate::helpers::{get_u16, get_u32, take_n, u16_at, u32_at};
use crate::parser::attribute_info::attribute::exception::Exception;
use crate::parser::attribute_info::attribute::{Attribute, AttributeView};
use crate::parser::attribute_info::code::clean_jumps::{
    clean, clean_all, lemma_decoded_ordered, views, well_targeted,
};
use crate::parser::attribute_info::code::code_generator::{
    decode_from, generate_instructions, Instructions, InstructionsView,
};
use crate::parser::attribute_info::{lemma_attributes_length, parse_attributes, read_attributes};
use crate::parser::cp_info_resolved::{ResolvedCpInfo, ResolvedCpInfoView};
use crate::parser::record::{lemma_parse_many_length, models, parse_many, read_as, read_many};

pub mod clean_jumps;
pub mod code_generator;

verus! {

/// The instructions that the bytes of a method body hold: decoded one after
/// the other to the last byte, with every branch counted in instructions.
pub open spec fn parse_instructions(raw: Seq<u8>, pool: Seq<ResolvedCpInfoView>) -> Result<
    Seq<InstructionsView>,
    DecodeError,
> {
    match decode_from(raw, 0, pool) {
        Err(e) => Err(e),
        Ok(decoded) => clean_all(decoded),
    }
}

/// What follows the instructions in a code body: a count and that many
/// entries of the exception table, then a count and that many attributes.
pub open spec fn parse_tables(s: Seq<u8>, pool: Seq<ResolvedCpInfoView>) -> Result<
    ((Seq<Exception>, Seq<AttributeView>), int),
    DecodeError,
>
    decreases s.len(), 1nat,
{
    if s.len() < 2 {
        Err(DecodeError::UnexpectedEnd)
    } else {
        match parse_many::<Exception>(s.skip(2), u16_at(s, 0) as nat) {
            Err(e) => Err(e),
            Ok((exception_table, n)) => {
                let at = 2 + n;
                if n < 0 || s.len() < at + 2 {
                    Err(DecodeError::UnexpectedEnd)
                } else {
                    match parse_attributes(s.skip(at + 2), u16_at(s, at) as nat, pool) {
                        Err(e) => Err(e),
                        Ok((attributes, m)) => Ok(((exception_table, attributes), at + 2 + m)),
                    }
                }
            },
        }
    }
}

/// The body of a method's code: the declared stack depth and number of
/// locals, the length of the instructions in bytes and the instructions,
/// the exception table and the attributes of the code.
///
/// The instructions must fill their bytes exactly, and every branch must
/// lead to the start of an instruction.
pub open spec fn parse(s: Seq<u8>, pool: Seq<ResolvedCpInfoView>) -> Result<
    (AttributeView, int),
    DecodeError,
>
    decreases s.len(), 2nat,
{
    if s.len() < 8 {
        Err(DecodeError::UnexpectedEnd)
    } else {
        let after = 8 + u32_at(s, 4);
        if s.len() < after {
            Err(DecodeError::UnexpectedEnd)
        } else {
            match parse_instructions(s.subrange(8, after), pool) {
                Err(e) => Err(e),
                Ok(code) => match parse_tables(s.skip(after), pool) {
                    Err(e) => Err(e),
                    Ok(((exception_table, attributes), n)) => Ok(
                        (
                            AttributeView::Code {
                                max_stack: u16_at(s, 0),
                                max_locals: u16_at(s, 2),
                                code,
                                exception_table,
                                attributes,
                            },
                            after + n,
                        ),
                    ),
                },
            }
        }
    }
}

/// The tables take no more bytes than there are.
pub proof fn lemma_tables_length(s: Seq<u8>, pool: Seq<ResolvedCpInfoView>)
    ensures
        parse_tables(s, pool) is Ok ==> 0 <= parse_tables(s, pool)->Ok_0.1 <= s.len(),
{
    if s.len() >= 2 {
        lemma_parse_many_length::<Exception>(s.skip(2), u16_at(s, 0) as nat);
        if parse_many::<Exception>(s.skip(2), u16_at(s, 0) as nat) is Ok {
            let at = 2 + parse_many::<Exception>(s.skip(2), u16_at(s, 0) as nat)->Ok_0.1;
            if s.len() >= at + 2 {
                lemma_attributes_length(s.skip(at + 2), u16_at(s, at) as nat, pool);
            }
        }
    }
}

/// A code body takes no more bytes than there are.
pub proof fn lemma_code_length(s: Seq<u8>, pool: Seq<ResolvedCpInfoView>)
    ensures
        parse(s, pool) is Ok ==> 0 <= parse(s, pool)->Ok_0.1 <= s.len(),
{
    if s.len() >= 8 && s.len() >= 8 + u32_at(s, 4) {
        lemma_tables_length(s.skip(8 + u32_at(s, 4)), pool);
    }
}

/// Decodes the bytes of a method body and counts every branch in
/// instructions. In the result every branch leads to an instruction.
pub fn read_instructions(raw: &[u8], constant_pool: &Vec<ResolvedCpInfo>) -> (r: Result<
    Vec<Instructions>,
    DecodeError,
>)
    ensures
        match r {
            Ok(code) => parse_instructions(raw@, models(constant_pool@)) == Ok::<
                Seq<InstructionsView>,
                DecodeError,
            >(views(code@)) && well_targeted(views(code@)),
            Err(e) => parse_instructions(raw@, models(constant_pool@)) == Err::<
                Seq<InstructionsView>,
                DecodeError,
            >(e),
        },
{
    let decoded = generate_instructions(raw, constant_pool)?;
    proof {
        lemma_decoded_ordered(raw@, 0, models(constant_pool@));
    }
    clean(decoded)
}

/// Reads the exception table and the attributes of a code body.
pub fn read_tables(buf: &mut &[u8], constant_pool: &Vec<ResolvedCpInfo>) -> (r: Result<
    (Vec<Exception>, Vec<Attribute>),
    DecodeError,
>)
    ensures
        match r {
            Ok((exception_table, attributes)) => parse_tables(old(buf)@, models(constant_pool@)) is Ok
                && parse_tables(old(buf)@, models(constant_pool@))->Ok_0.0 == (
                models(exception_table@),
                models(attributes@),
            ) && 0 <= parse_tables(old(buf)@, models(constant_pool@))->Ok_0.1 <= old(buf)@.len()
                && final(buf)@ == old(buf)@.skip(parse_tables(old(buf)@, models(constant_pool@))->Ok_0.1),
            Err(e) => parse_tables(old(buf)@, models(constant_pool@)) == Err::<
                ((Seq<Exception>, Seq<AttributeView>), int),
                DecodeError,
            >(e),
        },
    decreases old(buf)@.len(), 1nat,
{
    let ghost s = buf@;
    let ghost pool = models(constant_pool@);
    let exception_table_length = get_u16(buf)?;
    let exception_table = read_many::<Exception>(buf, exception_table_length as usize)?;
    let ghost n = parse_many::<Exception>(s.skip(2), exception_table_length as nat)->Ok_0.1;
    assert(buf@ =~= s.skip(2 + n));
    let attributes_count = get_u16(buf)?;
    assert(buf@ =~= s.skip(2 + n + 2));
    proof {
        lemma_attributes_length(buf@, attributes_count as nat, pool);
    }
    let attributes = read_attributes(buf, attributes_count, constant_pool)?;
    assert(buf@ =~= s.skip(
        2 + n + 2 + parse_attributes(s.skip(2 + n + 2), attributes_count as nat, pool)->Ok_0.1,
    ));
    Ok((exception_table, attributes))
}

/// Reads the body of a method's code.
#[verifier::rlimit(50)]
pub fn read(buf: &mut &[u8], constant_pool: &Vec<ResolvedCpInfo>) -> (r: Result<Attribute, DecodeError>)
    ensures
        read_as(r, parse(old(buf)@, models(constant_pool@)), old(buf)@, final(buf)@),
    decreases old(buf)@.len(), 2nat,
{
    let ghost s = buf@;
    let ghost pool = models(constant_pool@);
    let max_stack = get_u16(buf)?;
    let max_locals = get_u16(buf)?;
    assert(buf@ =~= s.skip(4));
    let code_length = get_u32(buf)?;
    assert(buf@ =~= s.skip(8));
    let raw = take_n(code_length as usize, buf)?;
    let ghost after = 8 + code_length;
    assert(buf@ =~= s.skip(after));
    assert(raw@ =~= s.subrange(8, after));
    let code = read_instructions(raw.as_slice(), constant_pool)?;
    proof {
        lemma_tables_length(buf@, pool);
    }
    let (exception_table, attributes) = read_tables(buf, constant_pool)?;
    assert(buf@ =~= s.skip(after + parse_tables(s.skip(after), pool)->Ok_0.1));
    let r = Attribute::Code { max_stack, max_locals, code, exception_table, attributes };
    assert(r@->Code_attributes =~= models(attributes@));
    assert(r@->Code_code =~= views(code@));
    Ok(r)
}

} // verus!
