use vstd::prelude::*;
use crate::error::DecodeError;
use crate::parser::attribute_info::attribute::{Attribute, AttributeView};
use crate::parser::cp_info_resolved::ResolvedCpInfo;
use crate::parser::member::{parse_member, read_member, MemberRecord};
use crate::parser::record::models;

verus! {

/// The access flags that a method can carry.
#[derive(Debug, Clone, Copy, PartialEq, Eq)]
pub enum Flags {
    AccPublic,
    AccPrivate,
    AccProtected,
    AccStatic,
    AccFinal,
    AccSynchronised,
    AccBridge,
    AccVarArgs,
    AccNative,
    AccAbstract,
    AccStrict,
    AccSynthetic,
}

impl Flags {
    /// The bit that stands for the flag in a mask.
    pub open spec fn spec_bits(self) -> u16 {
        match self {
            Flags::AccPublic => 0x0001,
            Flags::AccPrivate => 0x0002,
            Flags::AccProtected => 0x0004,
            Flags::AccStatic => 0x0008,
            Flags::AccFinal => 0x0010,
            Flags::AccSynchronised => 0x0020,
            Flags::AccBridge => 0x0040,
            Flags::AccVarArgs => 0x0080,
            Flags::AccNative => 0x0100,
            Flags::AccAbstract => 0x0400,
            Flags::AccStrict => 0x0800,
            Flags::AccSynthetic => 0x1000,
        }
    }

    /// The bit that stands for the flag in a mask.
    #[verifier::when_used_as_spec(spec_bits)]
    pub fn bits(self) -> (r: u16)
        ensures
            r == self.spec_bits(),
    {
        match self {
            Flags::AccPublic => 0x0001,
            Flags::AccPrivate => 0x0002,
            Flags::AccProtected => 0x0004,
            Flags::AccStatic => 0x0008,
            Flags::AccFinal => 0x0010,
            Flags::AccSynchronised => 0x0020,
            Flags::AccBridge => 0x0040,
            Flags::AccVarArgs => 0x0080,
            Flags::AccNative => 0x0100,
            Flags::AccAbstract => 0x0400,
            Flags::AccStrict => 0x0800,
            Flags::AccSynthetic => 0x1000,
        }
    }
}

/// The set of access flags of one method, as the mask that the class file
/// holds.
#[derive(Debug, Clone, Copy, PartialEq, Eq)]
pub struct MethodAccessFlags {
    pub mask: u16,
}

impl MethodAccessFlags {
    /// Whether the flag's bit is set in the mask.
    pub open spec fn spec_contains(&self, flag: Flags) -> bool {
        self.mask & flag.spec_bits() == flag.spec_bits()
    }

    /// Whether the flag's bit is set in the mask.
    #[verifier::when_used_as_spec(spec_contains)]
    pub fn contains(&self, flag: Flags) -> (r: bool)
        ensures
            r == self.spec_contains(flag),
    {
        self.mask & flag.bits() == flag.bits()
    }
}

/// A method of a class: its flags and attributes. Its name and descriptor are
/// the key under which the class holds it.
#[derive(Debug, PartialEq, Eq)]
pub struct MethodInfo {
    pub access_flags: MethodAccessFlags,
    pub attributes: Vec<Attribute>,
}


/// A method as a mathematical value.
pub struct MethodInfoView {
    pub access_flags: MethodAccessFlags,
    pub attributes: Seq<AttributeView>,
}

impl View for MethodInfo {
    type V = MethodInfoView;

    open spec fn view(&self) -> MethodInfoView {
        MethodInfoView { access_flags: self.access_flags, attributes: models(self.attributes@) }
    }
}

/// The method that a member record stands for.
pub open spec fn of_member(member: MemberRecord) -> MethodInfoView {
    MethodInfoView {
        access_flags: MethodAccessFlags { mask: member.access_flags },
        attributes: member.attributes,
    }
}

impl MethodInfo {
    /// Reads one method from the front of `buf` and returns it with its key:
    /// its name, a colon, and its descriptor.
    pub fn read(buf: &mut &[u8], constant_pool: &Vec<ResolvedCpInfo>) -> (r: Result<
        (String, Self),
        DecodeError,
    >)
        ensures
            match r {
                Ok((key, info)) => parse_member(old(buf)@, models(constant_pool@)) is Ok && {
                    let (member, n) = parse_member(old(buf)@, models(constant_pool@))->Ok_0;
                    &&& key@ == member.key
                    &&& info@ == of_member(member)
                    &&& 8 <= n <= old(buf)@.len()
                    &&& final(buf)@ == old(buf)@.skip(n)
                },
                Err(e) => parse_member(old(buf)@, models(constant_pool@)) == Err::<
                    (MemberRecord, int),
                    DecodeError,
                >(e),
            },
    {
        let (key, mask, attributes) = read_member(buf, constant_pool)?;
        Ok((key, MethodInfo { access_flags: MethodAccessFlags { mask }, attributes }))
    }
}

} // verus!
