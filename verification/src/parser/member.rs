use vstd::prelude::*;
use vstd::string::*;
use crate::error::DecodeError;
use crate::helpers::{get_u16, u16_at};
use crate::parser::attribute_info::attribute::{Attribute, AttributeView};
use crate::parser::attribute_info::{lemma_attributes_length, parse_attributes, read_attributes};
use crate::parser::cp_info_resolved::{
    colon, lookup_text, text_entry, NameAndType, ResolvedCpInfo, ResolvedCpInfoView,
};
use crate::parser::record::models;

verus! {

/// A field or a method as its record in a class file holds it: the key made
/// of its name and descriptor, its access flags, and its attributes.
pub struct MemberRecord {
    pub key: Seq<char>,
    pub access_flags: u16,
    pub attributes: Seq<AttributeView>,
}

/// The name and the descriptor of a member record: the flags are followed by
/// the index of the name and the index of the descriptor, each of which must
/// be a text constant.
pub open spec fn parse_names(s: Seq<u8>, pool: Seq<ResolvedCpInfoView>) -> Result<
    (Seq<char>, Seq<char>),
    DecodeError,
> {
    if s.len() < 4 {
        Err(DecodeError::UnexpectedEnd)
    } else {
        match text_entry(pool, u16_at(s, 2)) {
            None => Err(DecodeError::BadConstantIndex),
            Some(name) => if s.len() < 6 {
                Err(DecodeError::UnexpectedEnd)
            } else {
                match text_entry(pool, u16_at(s, 4)) {
                    None => Err(DecodeError::BadConstantIndex),
                    Some(descriptor) => Ok((name, descriptor)),
                }
            },
        }
    }
}

/// The member record at the front of `s`: flags, name, descriptor, a count
/// and that many attributes. The key is the name, a colon, and the
/// descriptor.
pub open spec fn parse_member(s: Seq<u8>, pool: Seq<ResolvedCpInfoView>) -> Result<
    (MemberRecord, int),
    DecodeError,
> {
    match parse_names(s, pool) {
        Err(e) => Err(e),
        Ok((name, descriptor)) => if s.len() < 8 {
            Err(DecodeError::UnexpectedEnd)
        } else {
            match parse_attributes(s.skip(8), u16_at(s, 6) as nat, pool) {
                Err(e) => Err(e),
                Ok((attributes, n)) => Ok(
                    (
                        MemberRecord {
                            key: name + colon() + descriptor,
                            access_flags: u16_at(s, 0),
                            attributes,
                        },
                        8 + n,
                    ),
                ),
            }
        },
    }
}

/// `count` member records in a row at the front of `s`.
pub open spec fn parse_members(s: Seq<u8>, count: nat, pool: Seq<ResolvedCpInfoView>) -> Result<
    (Seq<MemberRecord>, int),
    DecodeError,
>
    decreases count,
{
    if count == 0 {
        Ok((Seq::empty(), 0))
    } else {
        match parse_members(s, (count - 1) as nat, pool) {
            Err(e) => Err(e),
            Ok((front, n)) => match parse_member(s.skip(n), pool) {
                Err(e) => Err(e),
                Ok((last, m)) => Ok((front.push(last), n + m)),
            },
        }
    }
}

/// Once a row of member records fails to parse, so does every longer row,
/// with the same error.
pub proof fn lemma_members_tail(s: Seq<u8>, k: nat, count: nat, pool: Seq<ResolvedCpInfoView>)
    requires
        k <= count,
        parse_members(s, k, pool) is Err,
    ensures
        parse_members(s, count, pool) == parse_members(s, k, pool),
    decreases count - k,
{
    if k < count {
        lemma_members_tail(s, k, (count - 1) as nat, pool);
    }
}

/// Reads the name and the descriptor of a member record, after its flags.
fn read_names(buf: &mut &[u8], Ghost(s): Ghost<Seq<u8>>, constant_pool: &Vec<ResolvedCpInfo>) -> (r: Result<
    NameAndType,
    DecodeError,
>)
    requires
        s.len() >= 2,
        old(buf)@ == s.skip(2),
    ensures
        match r {
            Ok(names) => parse_names(s, models(constant_pool@)) == Ok::<
                (Seq<char>, Seq<char>),
                DecodeError,
            >((names.name@, names.descriptor@)) && s.len() >= 6 && final(buf)@ == s.skip(6),
            Err(e) => parse_names(s, models(constant_pool@)) == Err::<
                (Seq<char>, Seq<char>),
                DecodeError,
            >(e),
        },
{
    let name_index = get_u16(buf)?;
    assert(buf@ =~= s.skip(4));
    let name = match lookup_text(constant_pool, name_index) {
        None => { return Err(DecodeError::BadConstantIndex); },
        Some(name) => name.clone(),
    };
    let descriptor_index = get_u16(buf)?;
    assert(buf@ =~= s.skip(6));
    let descriptor = match lookup_text(constant_pool, descriptor_index) {
        None => { return Err(DecodeError::BadConstantIndex); },
        Some(descriptor) => descriptor.clone(),
    };
    Ok(NameAndType { name, descriptor })
}

/// Reads one member record: its key, its flags and its attributes.
pub fn read_member(buf: &mut &[u8], constant_pool: &Vec<ResolvedCpInfo>) -> (r: Result<
    (String, u16, Vec<Attribute>),
    DecodeError,
>)
    ensures
        match r {
            Ok((key, access_flags, attributes)) => parse_member(old(buf)@, models(constant_pool@))
                is Ok && parse_member(old(buf)@, models(constant_pool@))->Ok_0.0 == (MemberRecord {
                key: key@,
                access_flags,
                attributes: models(attributes@),
            }) && 8 <= parse_member(old(buf)@, models(constant_pool@))->Ok_0.1 <= old(buf)@.len()
                && final(buf)@ == old(buf)@.skip(parse_member(old(buf)@, models(constant_pool@))->Ok_0.1),
            Err(e) => parse_member(old(buf)@, models(constant_pool@)) == Err::<
                (MemberRecord, int),
                DecodeError,
            >(e),
        },
{
    let ghost s = buf@;
    let ghost pool = models(constant_pool@);
    let access_flags = get_u16(buf)?;
    let names = read_names(buf, Ghost(s), constant_pool)?;
    let attributes_count = get_u16(buf)?;
    assert(buf@ =~= s.skip(8));
    proof {
        lemma_attributes_length(buf@, attributes_count as nat, pool);
    }
    let attributes = read_attributes(buf, attributes_count, constant_pool)?;
    assert(buf@ =~= s.skip(8 + parse_attributes(s.skip(8), attributes_count as nat, pool)->Ok_0.1));
    let key = names.to_string();
    Ok((key, access_flags, attributes))
}

} // verus!
