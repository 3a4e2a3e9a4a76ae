use vstd::prelude::*;
use crate::error::DecodeError;
use crate::helpers::{get_u16, u16_at};
use crate::parser::attribute_info::attribute::{Attribute, AttributeView};
use crate::parser::attribute_info::{lemma_attributes_length, parse_attributes, read_attributes};
use crate::parser::cp_info::{CpInfo, CpInfoView};
use crate::parser::cp_info_resolved::{
    dependencies, dependencies_of, entry, lookup, raw_class, resolve_all, resolve_pool, Class,
    ResolvedCpInfo, ResolvedCpInfoView,
};
use crate::parser::field_info::{FieldAccessFlags, FieldInfo, FieldInfoView};
use crate::parser::member::{
    lemma_members_tail, parse_member, parse_members,
    read_member, MemberRecord,
};
use crate::parser::method_info::{MethodAccessFlags, MethodInfo, MethodInfoView};
use crate::parser::record::{models, parse_many, read_many};
use crate::table::{pairs_to_map, Table};

verus! {

/// The access flags that a class can carry.
#[derive(Debug, Clone, Copy, PartialEq, Eq)]
pub enum Flags {
    AccPublic,
    AccPrivate,
    AccProtected,
    AccStatic,
    AccFinal,
    AccVolatile,
    AccTransient,
    AccSynthetic,
    AccEnum,
}

impl Flags {
    /// The bit that stands for the flag in a mask.
    pub open spec fn spec_bits(self) -> u16 {
        match self {
            Flags::AccPublic => 0x0001,
            Flags::AccPrivate => 0x0002,
            Flags::AccProtected => 0x0004,
            Flags::AccStatic => 0x0008,
            Flags::AccFinal => 0x0010,
            Flags::AccVolatile => 0x0040,
            Flags::AccTransient => 0x0080,
            Flags::AccSynthetic => 0x1000,
            Flags::AccEnum => 0x4000,
        }
    }

    /// The bit that stands for the flag in a mask.
    #[verifier::when_used_as_spec(spec_bits)]
    pub fn bits(self) -> (r: u16)
        ensures
            r == self.spec_bits(),
    {
        match self {
            Flags::AccPublic => 0x0001,
            Flags::AccPrivate => 0x0002,
            Flags::AccProtected => 0x0004,
            Flags::AccStatic => 0x0008,
            Flags::AccFinal => 0x0010,
            Flags::AccVolatile => 0x0040,
            Flags::AccTransient => 0x0080,
            Flags::AccSynthetic => 0x1000,
            Flags::AccEnum => 0x4000,
        }
    }
}

/// The set of access flags of one class, as the mask that the class file
/// holds.
#[derive(Debug, Clone, Copy, PartialEq, Eq)]
pub struct ClassAccessFlags {
    pub mask: u16,
}

impl ClassAccessFlags {
    /// Whether the flag's bit is set in the mask.
    pub open spec fn spec_contains(&self, flag: Flags) -> bool {
        self.mask & flag.spec_bits() == flag.spec_bits()
    }

    /// Whether the flag's bit is set in the mask.
    #[verifier::when_used_as_spec(spec_contains)]
    pub fn contains(&self, flag: Flags) -> (r: bool)
        ensures
            r == self.spec_contains(flag),
    {
        self.mask & flag.bits() == flag.bits()
    }
}

/// One class as its file describes it.
#[derive(Debug)]
pub struct ClassFile {
    pub access_flags: ClassAccessFlags,
    pub super_class: Class,
    pub interfaces: Vec<u16>,
    pub fields: Table<FieldInfo>,
    pub methods: Table<MethodInfo>,
    pub attributes: Vec<Attribute>,
}


/// A class file as a mathematical value.
pub struct ClassFileView {
    pub access_flags: ClassAccessFlags,
    pub super_class: Seq<char>,
    pub interfaces: Seq<u16>,
    pub fields: Map<Seq<char>, FieldInfoView>,
    pub methods: Map<Seq<char>, MethodInfoView>,
    pub attributes: Seq<AttributeView>,
}

/// What a table holds, as mathematical values.
pub open spec fn table_views<V: View>(table: Map<Seq<char>, V>) -> Map<Seq<char>, V::V> {
    Map::new(|k: Seq<char>| table.contains_key(k), |k: Seq<char>| table[k]@)
}

impl View for ClassFile {
    type V = ClassFileView;

    open spec fn view(&self) -> ClassFileView {
        ClassFileView {
            access_flags: self.access_flags,
            super_class: self.super_class@,
            interfaces: self.interfaces@,
            fields: table_views(self.fields@),
            methods: table_views(self.methods@),
            attributes: models(self.attributes@),
        }
    }
}

/// Something that is made from a member record: a field or a method.
pub trait Member: View + Sized {
    /// The value that a record with these flags and attributes stands for.
    spec fn of_parts(access_flags: u16, attributes: Seq<AttributeView>) -> Self::V;

    /// Makes the value from the flags and attributes of a record.
    fn from_parts(access_flags: u16, attributes: Vec<Attribute>) -> (r: Self)
        ensures
            r@ == Self::of_parts(access_flags, models(attributes@)),
    ;
}

impl Member for FieldInfo {
    open spec fn of_parts(access_flags: u16, attributes: Seq<AttributeView>) -> FieldInfoView {
        FieldInfoView { access_flags: FieldAccessFlags { mask: access_flags }, attributes }
    }

    fn from_parts(access_flags: u16, attributes: Vec<Attribute>) -> (r: Self) {
        FieldInfo { access_flags: FieldAccessFlags { mask: access_flags }, attributes }
    }
}

impl Member for MethodInfo {
    open spec fn of_parts(access_flags: u16, attributes: Seq<AttributeView>) -> MethodInfoView {
        MethodInfoView { access_flags: MethodAccessFlags { mask: access_flags }, attributes }
    }

    fn from_parts(access_flags: u16, attributes: Vec<Attribute>) -> (r: Self) {
        MethodInfo { access_flags: MethodAccessFlags { mask: access_flags }, attributes }
    }
}

/// The value that a member record stands for.
pub open spec fn of_record<T: Member>(record: MemberRecord) -> T::V {
    T::of_parts(record.access_flags, record.attributes)
}

/// The table that a row of member records makes: each member under its key,
/// a later member replacing an earlier one with the same key.
pub open spec fn members_table<T: Member>(records: Seq<MemberRecord>) -> Map<Seq<char>, T::V> {
    pairs_to_map(records.map_values(|r: MemberRecord| (r.key, of_record::<T>(r))))
}

/// Reads `count` member records into a table.
pub fn read_members<T: Member>(buf: &mut &[u8], count: u16, constant_pool: &Vec<ResolvedCpInfo>) -> (r:
    Result<Table<T>, DecodeError>)
    ensures
        match r {
            Ok(table) => parse_members(old(buf)@, count as nat, models(constant_pool@)) is Ok && {
                let (records, n) = parse_members(old(buf)@, count as nat, models(constant_pool@))->Ok_0;
                &&& table_views(table@) == members_table::<T>(records)
                &&& 0 <= n <= old(buf)@.len()
                &&& final(buf)@ == old(buf)@.skip(n)
            },
            Err(e) => parse_members(old(buf)@, count as nat, models(constant_pool@)) == Err::<
                (Seq<MemberRecord>, int),
                DecodeError,
            >(e),
        },
{
    let ghost start = buf@;
    let ghost pool = models(constant_pool@);
    let mut table: Table<T> = Table::new();
    let mut k: u16 = 0;
    assert(start.skip(0) =~= start);
    assert(table_views(table@) =~= members_table::<T>(Seq::empty()));
    while k < count
        invariant
            k <= count,
            start == old(buf)@,
            pool == models(constant_pool@),
            parse_members(start, k as nat, pool) is Ok,
            table_views(table@) == members_table::<T>(parse_members(start, k as nat, pool)->Ok_0.0),
            0 <= parse_members(start, k as nat, pool)->Ok_0.1 <= start.len(),
            buf@ == start.skip(parse_members(start, k as nat, pool)->Ok_0.1),
        decreases count - k,
    {
        let ghost records = parse_members(start, k as nat, pool)->Ok_0.0;
        let ghost used = parse_members(start, k as nat, pool)->Ok_0.1;
        let ghost before = table@;
        let (key, access_flags, attributes) = match read_member(buf, constant_pool) {
            Err(e) => {
                proof {
                    assert(parse_members(start, (k + 1) as nat, pool) is Err);
                    lemma_members_tail(start, (k + 1) as nat, count as nat, pool);
                }
                return Err(e);
            },
            Ok(parts) => parts,
        };
        let ghost record = parse_member(start.skip(used), pool)->Ok_0.0;
        let item = T::from_parts(access_flags, attributes);
        let ghost view = item@;
        table.insert(key, item);
        proof {
            let pairs = records.map_values(|r: MemberRecord| (r.key, of_record::<T>(r)));
            let more = records.push(record).map_values(|r: MemberRecord| (r.key, of_record::<T>(r)));
            assert(more =~= pairs.push((record.key, of_record::<T>(record))));
            assert(more.drop_last() =~= pairs);
            assert(view == of_record::<T>(record));
            assert(table_views(table@) =~= table_views(before).insert(record.key, view));
            assert(start.skip(used).skip(parse_member(start.skip(used), pool)->Ok_0.1) =~= start.skip(
                used + parse_member(start.skip(used), pool)->Ok_0.1,
            ));
        }
        k += 1;
    }
    Ok(table)
}

/// The start of a class file: the four magic bytes, two version numbers, a
/// count and the constant pool, which holds one entry less than the count
/// says.
pub open spec fn parse_pool(s: Seq<u8>) -> Result<(Seq<CpInfoView>, int), DecodeError> {
    if s.len() < 4 || s[0] != 0xca || s[1] != 0xfe || s[2] != 0xba || s[3] != 0xbe {
        Err(DecodeError::BadMagic)
    } else if s.len() < 10 {
        Err(DecodeError::UnexpectedEnd)
    } else {
        let entries = if u16_at(s, 8) == 0 {
            0nat
        } else {
            (u16_at(s, 8) - 1) as nat
        };
        match parse_many::<CpInfo>(s.skip(10), entries) {
            Err(e) => Err(e),
            Ok((pool, n)) => Ok((pool, 10 + n)),
        }
    }
}

/// What follows the constant pool, up to the fields: the access flags, the
/// index of the class itself, the index of the superclass, which must name
/// a class, a count and that many interfaces.
pub struct Front {
    pub access_flags: u16,
    pub this_class: u16,
    pub super_class: Seq<char>,
    pub interfaces: Seq<u16>,
}

pub open spec fn parse_front(s: Seq<u8>, pool: Seq<ResolvedCpInfoView>) -> Result<
    (Front, int),
    DecodeError,
> {
    if s.len() < 6 {
        Err(DecodeError::UnexpectedEnd)
    } else {
        match entry(pool, u16_at(s, 4)) {
            Some(ResolvedCpInfoView::Class(super_class)) => if s.len() < 8 {
                Err(DecodeError::UnexpectedEnd)
            } else {
                match parse_many::<u16>(s.skip(8), u16_at(s, 6) as nat) {
                    Err(e) => Err(e),
                    Ok((interfaces, n)) => Ok(
                        (
                            Front {
                                access_flags: u16_at(s, 0),
                                this_class: u16_at(s, 2),
                                super_class,
                                interfaces,
                            },
                            8 + n,
                        ),
                    ),
                }
            },
            _ => Err(DecodeError::BadConstantIndex),
        }
    }
}

/// A count and that many member records.
pub open spec fn parse_counted_members(s: Seq<u8>, pool: Seq<ResolvedCpInfoView>) -> Result<
    (Seq<MemberRecord>, int),
    DecodeError,
> {
    if s.len() < 2 {
        Err(DecodeError::UnexpectedEnd)
    } else {
        match parse_members(s.skip(2), u16_at(s, 0) as nat, pool) {
            Err(e) => Err(e),
            Ok((records, n)) => Ok((records, 2 + n)),
        }
    }
}

/// A count and that many attributes.
pub open spec fn parse_counted_attributes(s: Seq<u8>, pool: Seq<ResolvedCpInfoView>) -> Result<
    (Seq<AttributeView>, int),
    DecodeError,
> {
    if s.len() < 2 {
        Err(DecodeError::UnexpectedEnd)
    } else {
        match parse_attributes(s.skip(2), u16_at(s, 0) as nat, pool) {
            Err(e) => Err(e),
            Ok((attributes, n)) => Ok((attributes, 2 + n)),
        }
    }
}

/// What follows the constant pool in a class file: the front, the fields,
/// the methods and the attributes, to the last byte. Gives the class and the
/// index of its own name.
pub open spec fn parse_body(s: Seq<u8>, pool: Seq<ResolvedCpInfoView>) -> Result<
    (ClassFileView, u16),
    DecodeError,
> {
    match parse_front(s, pool) {
        Err(e) => Err(e),
        Ok((front, a)) => match parse_counted_members(s.skip(a), pool) {
            Err(e) => Err(e),
            Ok((fields, b)) => match parse_counted_members(s.skip(a + b), pool) {
                Err(e) => Err(e),
                Ok((methods, c)) => match parse_counted_attributes(s.skip(a + b + c), pool) {
                    Err(e) => Err(e),
                    Ok((attributes, d)) => if a + b + c + d != s.len() {
                        Err(DecodeError::TrailingBytes)
                    } else {
                        Ok(
                            (
                                ClassFileView {
                                    access_flags: ClassAccessFlags { mask: front.access_flags },
                                    super_class: front.super_class,
                                    interfaces: front.interfaces,
                                    fields: members_table::<FieldInfo>(fields),
                                    methods: members_table::<MethodInfo>(methods),
                                    attributes,
                                },
                                front.this_class,
                            ),
                        )
                    },
                },
            },
        },
    }
}

/// What a class file holds: the name of the class, the class, and the
/// classes that its constant pool refers to.
///
/// The file starts with the magic bytes and the constant pool. Every entry
/// of the pool must resolve. The body must fill the file to the last byte.
/// The name is that of the class entry that the body names as the class
/// itself.
pub open spec fn parse_class(s: Seq<u8>) -> Result<
    (Seq<char>, ClassFileView, Seq<Seq<char>>),
    DecodeError,
> {
    match parse_pool(s) {
        Err(e) => Err(e),
        Ok((pool, n)) => match resolve_all(pool) {
            Err(e) => Err(e),
            Ok(resolved) => match parse_body(s.skip(n), resolved) {
                Err(e) => Err(e),
                Ok((class, this_class)) => match raw_class(pool, this_class) {
                    None => Err(DecodeError::BadConstantIndex),
                    Some(name) => Ok((name, class, dependencies_of(resolved))),
                },
            },
        },
    }
}

/// Reads the start of a class file and its constant pool.
pub fn read_pool(buf: &mut &[u8]) -> (r: Result<Vec<CpInfo>, DecodeError>)
    ensures
        match r {
            Ok(pool) => parse_pool(old(buf)@) is Ok && parse_pool(old(buf)@)->Ok_0.0 == models(pool@)
                && 0 <= parse_pool(old(buf)@)->Ok_0.1 <= old(buf)@.len() && final(buf)@
                == old(buf)@.skip(parse_pool(old(buf)@)->Ok_0.1),
            Err(e) => parse_pool(old(buf)@) == Err::<(Seq<CpInfoView>, int), DecodeError>(e),
        },
{
    let ghost s = buf@;
    if buf.len() < 4 || buf[0] != 0xca || buf[1] != 0xfe || buf[2] != 0xba || buf[3] != 0xbe {
        return Err(DecodeError::BadMagic);
    }
    if buf.len() < 10 {
        return Err(DecodeError::UnexpectedEnd);
    }
    let _magic_high = get_u16(buf)?;
    let _magic_low = get_u16(buf)?;
    let _minor_version = get_u16(buf)?;
    let _major_version = get_u16(buf)?;
    assert(buf@ =~= s.skip(8));
    let constant_pool_count = get_u16(buf)?;
    assert(buf@ =~= s.skip(10));
    let entries: usize = if constant_pool_count == 0 {
        0
    } else {
        (constant_pool_count - 1) as usize
    };
    let pool = read_many::<CpInfo>(buf, entries)?;
    assert(buf@ =~= s.skip(10 + parse_many::<CpInfo>(s.skip(10), entries as nat)->Ok_0.1));
    Ok(pool)
}

/// The front of a class body as it was read.
#[derive(Debug)]
pub struct FrontParts {
    pub access_flags: u16,
    pub this_class: u16,
    pub super_class: Class,
    pub interfaces: Vec<u16>,
}

impl View for FrontParts {
    type V = Front;

    open spec fn view(&self) -> Front {
        Front {
            access_flags: self.access_flags,
            this_class: self.this_class,
            super_class: self.super_class@,
            interfaces: self.interfaces@,
        }
    }
}

/// Reads the front of a class body.
pub fn read_front(buf: &mut &[u8], constant_pool: &Vec<ResolvedCpInfo>) -> (r: Result<
    FrontParts,
    DecodeError,
>)
    ensures
        match r {
            Ok(front) => parse_front(old(buf)@, models(constant_pool@)) is Ok && parse_front(
                old(buf)@,
                models(constant_pool@),
            )->Ok_0.0 == front@ && 0 <= parse_front(old(buf)@, models(constant_pool@))->Ok_0.1 <= old(buf)@.len()
                && final(buf)@ == old(buf)@.skip(
                parse_front(old(buf)@, models(constant_pool@))->Ok_0.1,
            ),
            Err(e) => parse_front(old(buf)@, models(constant_pool@)) == Err::<(Front, int), DecodeError>(
                e,
            ),
        },
{
    let ghost s = buf@;
    let access_flags = get_u16(buf)?;
    let this_class = get_u16(buf)?;
    assert(buf@ =~= s.skip(4));
    let super_class_index = get_u16(buf)?;
    assert(buf@ =~= s.skip(6));
    let super_class = match lookup(constant_pool, super_class_index) {
        Some(ResolvedCpInfo::Class(class)) => class.clone(),
        _ => { return Err(DecodeError::BadConstantIndex); },
    };
    let interfaces_count = get_u16(buf)?;
    assert(buf@ =~= s.skip(8));
    let interfaces = read_many::<u16>(buf, interfaces_count as usize)?;
    assert(buf@ =~= s.skip(8 + parse_many::<u16>(s.skip(8), interfaces_count as nat)->Ok_0.1));
    assert(models(interfaces@) =~= interfaces@);
    Ok(FrontParts { access_flags, this_class, super_class, interfaces })
}

/// Reads a count and that many member records into a table.
pub fn read_counted_members<T: Member>(buf: &mut &[u8], constant_pool: &Vec<ResolvedCpInfo>) -> (r: Result<
    Table<T>,
    DecodeError,
>)
    ensures
        match r {
            Ok(table) => parse_counted_members(old(buf)@, models(constant_pool@)) is Ok && {
                let (records, n) = parse_counted_members(old(buf)@, models(constant_pool@))->Ok_0;
                &&& table_views(table@) == members_table::<T>(records)
                &&& 0 <= n <= old(buf)@.len()
                &&& final(buf)@ == old(buf)@.skip(n)
            },
            Err(e) => parse_counted_members(old(buf)@, models(constant_pool@)) == Err::<
                (Seq<MemberRecord>, int),
                DecodeError,
            >(e),
        },
{
    let ghost s = buf@;
    let count = get_u16(buf)?;
    let table = read_members::<T>(buf, count, constant_pool)?;
    assert(buf@ =~= s.skip(
        2 + parse_members(s.skip(2), count as nat, models(constant_pool@))->Ok_0.1,
    ));
    Ok(table)
}

/// Reads a count and that many attributes.
pub fn read_counted_attributes(buf: &mut &[u8], constant_pool: &Vec<ResolvedCpInfo>) -> (r: Result<
    Vec<Attribute>,
    DecodeError,
>)
    ensures
        match r {
            Ok(attributes) => parse_counted_attributes(old(buf)@, models(constant_pool@)) is Ok && {
                let (views, n) = parse_counted_attributes(old(buf)@, models(constant_pool@))->Ok_0;
                &&& models(attributes@) == views
                &&& 0 <= n <= old(buf)@.len()
                &&& final(buf)@ == old(buf)@.skip(n)
            },
            Err(e) => parse_counted_attributes(old(buf)@, models(constant_pool@)) == Err::<
                (Seq<AttributeView>, int),
                DecodeError,
            >(e),
        },
{
    let ghost s = buf@;
    let count = get_u16(buf)?;
    proof {
        lemma_attributes_length(buf@, count as nat, models(constant_pool@));
    }
    let attributes = read_attributes(buf, count, constant_pool)?;
    assert(buf@ =~= s.skip(
        2 + parse_attributes(s.skip(2), count as nat, models(constant_pool@))->Ok_0.1,
    ));
    Ok(attributes)
}

/// Reads what follows the constant pool, to the last byte.
pub fn read_body(buf: &[u8], constant_pool: &Vec<ResolvedCpInfo>) -> (r: Result<
    (ClassFile, u16),
    DecodeError,
>)
    ensures
        match r {
            Ok((class, this_class)) => parse_body(buf@, models(constant_pool@)) == Ok::<
                (ClassFileView, u16),
                DecodeError,
            >((class@, this_class)),
            Err(e) => parse_body(buf@, models(constant_pool@)) == Err::<
                (ClassFileView, u16),
                DecodeError,
            >(e),
        },
{
    let ghost s = buf@;
    let ghost pool = models(constant_pool@);
    let mut rest: &[u8] = buf;
    let front = read_front(&mut rest, constant_pool)?;
    let ghost a = parse_front(s, pool)->Ok_0.1;
    let fields = read_counted_members::<FieldInfo>(&mut rest, constant_pool)?;
    let ghost b = parse_counted_members(s.skip(a), pool)->Ok_0.1;
    assert(rest@ =~= s.skip(a + b));
    let methods = read_counted_members::<MethodInfo>(&mut rest, constant_pool)?;
    let ghost c = parse_counted_members(s.skip(a + b), pool)->Ok_0.1;
    assert(rest@ =~= s.skip(a + b + c));
    let attributes = read_counted_attributes(&mut rest, constant_pool)?;
    let ghost d = parse_counted_attributes(s.skip(a + b + c), pool)->Ok_0.1;
    assert(rest@ =~= s.skip(a + b + c + d));
    if rest.len() != 0 {
        return Err(DecodeError::TrailingBytes);
    }
    let this_class = front.this_class;
    let class = ClassFile {
        access_flags: ClassAccessFlags { mask: front.access_flags },
        super_class: front.super_class,
        interfaces: front.interfaces,
        fields,
        methods,
        attributes,
    };
    Ok((class, this_class))
}

/// The name of the class at an index of an unresolved pool.
fn class_name(pool: &Vec<CpInfo>, index: u16) -> (r: Option<String>)
    ensures
        match r {
            Some(name) => raw_class(models(pool@), index) == Some(name@),
            None => raw_class(models(pool@), index) is None,
        },
{
    if index == 0 || index as usize > pool.len() {
        return None;
    }
    match &pool[index as usize - 1] {
        CpInfo::Class { name_index } => {
            if *name_index == 0 || *name_index as usize > pool.len() {
                return None;
            }
            match &pool[*name_index as usize - 1] {
                CpInfo::Utf8 { bytes } => Some(bytes.clone()),
                _ => None,
            }
        },
        _ => None,
    }
}

impl ClassFile {
    /// Decodes the bytes of a class file: gives the name of the class, the
    /// class, and the names of the classes that its constant pool refers to.
    pub fn read(bytes: &[u8]) -> (r: Result<(String, Self, Vec<String>), DecodeError>)
        ensures
            match r {
                Ok((name, class, depends)) => parse_class(bytes@) == Ok::<
                    (Seq<char>, ClassFileView, Seq<Seq<char>>),
                    DecodeError,
                >((name@, class@, models(depends@))),
                Err(e) => parse_class(bytes@) == Err::<
                    (Seq<char>, ClassFileView, Seq<Seq<char>>),
                    DecodeError,
                >(e),
            },
    {
        let mut rest: &[u8] = bytes;
        let constant_pool = read_pool(&mut rest)?;
        let resolved = resolve_pool(&constant_pool)?;
        let depends = dependencies(&resolved);
        let (class, this_class) = read_body(rest, &resolved)?;
        match class_name(&constant_pool, this_class) {
            None => Err(DecodeError::BadConstantIndex),
            Some(name) => Ok((name, class, depends)),
        }
    }
}

} // verus!
