use vstd::prelude::*;
use vstd::string::*;
use crate::error::DecodeError;
use crate::helpers::{get_u16, get_u32, take_slice, u16_at, u32_at};
use crate::parser::attribute_info::attribute::{Attribute, AttributeView};
use crate::parser::cp_info_resolved::{lookup_text, text_entry, ResolvedCpInfo, ResolvedCpInfoView};
use crate::parser::record::{models, read_as, read_many_as};

pub mod annotation_default;
pub mod attribute;
pub mod bootstrap_methods;
pub mod code;
pub mod constant_value;
pub mod enclosing_method;
pub mod exceptions;
pub mod inner_classes;
pub mod line_number_table;
pub mod local_variable_table;
pub mod local_variable_type_table;
pub mod runtime_annotations;
pub mod runtime_parameter_annotations;
pub mod signature;
pub mod source_debug_extensions;
pub mod source_file;
pub mod stack_map_table;

verus! {

/// The body of an attribute of the given name. Each known name has its own
/// layout; any other name is an error.
#[verifier::opaque]
pub open spec fn parse_body(name: Seq<char>, body: Seq<u8>, length: u32, pool: Seq<ResolvedCpInfoView>) -> Result<
    (AttributeView, int),
    DecodeError,
>
    decreases body.len(), 3nat,
{
    if name == "ConstantValue"@ {
        constant_value::parse(body)
    } else if name == "Code"@ {
        code::parse(body, pool)
    } else if name == "StackMapTable"@ {
        stack_map_table::parse(body)
    } else if name == "Exceptions"@ {
        exceptions::parse(body)
    } else if name == "InnerClasses"@ {
        inner_classes::parse(body)
    } else if name == "EnclosingMethod"@ {
        enclosing_method::parse(body)
    } else if name == "Synthetic"@ {
        Ok((AttributeView::Synthetic, 0))
    } else if name == "Signature"@ {
        signature::parse(body, pool)
    } else if name == "SourceFile"@ {
        source_file::parse(body, pool)
    } else if name == "SourceDebugExtension"@ {
        source_debug_extensions::parse(body, length)
    } else if name == "LineNumberTable"@ {
        line_number_table::parse(body)
    } else if name == "LocalVariableTable"@ {
        local_variable_table::parse(body)
    } else if name == "LocalVariableTypeTable"@ {
        local_variable_type_table::parse(body)
    } else if name == "Deprecated"@ {
        Ok((AttributeView::Deprecated, 0))
    } else if name == "RuntimeVisibleAnnotations"@ {
        runtime_annotations::parse(true, body)
    } else if name == "RuntimeInvisibleAnnotations"@ {
        runtime_annotations::parse(false, body)
    } else if name == "RuntimeVisibleParameterAnnotations"@ {
        runtime_parameter_annotations::parse(true, body)
    } else if name == "RuntimeInvisibleParameterAnnotations"@ {
        runtime_parameter_annotations::parse(false, body)
    } else if name == "AnnotationDefault"@ {
        annotation_default::parse(body, pool)
    } else if name == "BootstrapMethods"@ {
        bootstrap_methods::parse(body)
    } else {
        Err(DecodeError::UnknownAttribute)
    }
}

/// The header of an attribute: the index of its name, which must be a text
/// constant, and the length of its body in bytes.
pub open spec fn parse_header(s: Seq<u8>, pool: Seq<ResolvedCpInfoView>) -> Result<
    (Seq<char>, u32),
    DecodeError,
> {
    if s.len() < 6 {
        Err(DecodeError::UnexpectedEnd)
    } else {
        match text_entry(pool, u16_at(s, 0)) {
            None => Err(DecodeError::BadConstantIndex),
            Some(name) => Ok((name, u32_at(s, 2))),
        }
    }
}

/// The attribute at the front of `s`: its header and a body of exactly the
/// length that the header gives.
pub open spec fn parse_attribute(s: Seq<u8>, pool: Seq<ResolvedCpInfoView>) -> Result<
    (AttributeView, int),
    DecodeError,
>
    decreases s.len(), 0nat,
{
    match parse_header(s, pool) {
        Err(e) => Err(e),
        Ok((name, length)) => if s.len() < 6 + length {
            Err(DecodeError::UnexpectedEnd)
        } else {
            match parse_body(name, s.subrange(6, 6 + length), length, pool) {
                Err(e) => Err(e),
                Ok((attribute, n)) => if n != length {
                    Err(DecodeError::TrailingBytes)
                } else {
                    Ok((attribute, 6 + length))
                },
            }
        },
    }
}

/// `count` attributes in a row at the front of `s`.
pub open spec fn parse_attributes(s: Seq<u8>, count: nat, pool: Seq<ResolvedCpInfoView>) -> Result<
    (Seq<AttributeView>, int),
    DecodeError,
>
    decreases s.len(), count + 1,
{
    if count == 0 {
        Ok((Seq::empty(), 0))
    } else {
        match parse_attributes(s, (count - 1) as nat, pool) {
            Err(e) => Err(e),
            Ok((front, n)) => if n < 0 || n > s.len() {
                Err(DecodeError::UnexpectedEnd)
            } else {
                match parse_attribute(s.skip(n), pool) {
                    Err(e) => Err(e),
                    Ok((last, m)) => Ok((front.push(last), n + m)),
                }
            },
        }
    }
}

/// An attribute takes at least its six header bytes and no more bytes than
/// there are.
pub proof fn lemma_attribute_length(s: Seq<u8>, pool: Seq<ResolvedCpInfoView>)
    ensures
        parse_attribute(s, pool) is Ok ==> 6 <= parse_attribute(s, pool)->Ok_0.1 <= s.len(),
{
}

/// A row of attributes takes no more bytes than there are, and holds as
/// many as were asked for.
pub proof fn lemma_attributes_length(s: Seq<u8>, count: nat, pool: Seq<ResolvedCpInfoView>)
    ensures
        parse_attributes(s, count, pool) is Ok ==> 0 <= parse_attributes(s, count, pool)->Ok_0.1
            <= s.len() && parse_attributes(s, count, pool)->Ok_0.0.len() == count,
    decreases count,
{
    if count > 0 {
        lemma_attributes_length(s, (count - 1) as nat, pool);
        if parse_attributes(s, (count - 1) as nat, pool) is Ok {
            let n = parse_attributes(s, (count - 1) as nat, pool)->Ok_0.1;
            lemma_attribute_length(s.skip(n), pool);
        }
    }
}

/// Once a row of attributes fails to parse, so does every longer row, with
/// the same error.
pub proof fn lemma_attributes_tail(s: Seq<u8>, k: nat, count: nat, pool: Seq<ResolvedCpInfoView>)
    requires
        k <= count,
        parse_attributes(s, k, pool) is Err,
    ensures
        parse_attributes(s, count, pool) == parse_attributes(s, k, pool),
    decreases count - k,
{
    if k < count {
        lemma_attributes_tail(s, k, (count - 1) as nat, pool);
    }
}

/// Whether `name` is the text `literal`.
fn is_text(name: &String, literal: &str) -> (r: bool)
    ensures
        r == (name@ == literal@),
{
    let other = String::from_str(literal);
    *name == other
}

/// Reads the body of an attribute of the given name.
pub fn read_body(name: &String, buf: &mut &[u8], length: u32, constant_pool: &Vec<ResolvedCpInfo>) -> (r:
    Result<Attribute, DecodeError>)
    ensures
        read_as(r, parse_body(name@, old(buf)@, length, models(constant_pool@)), old(buf)@, final(buf)@),
    decreases old(buf)@.len(), 3nat,
{
    reveal(parse_body);
    if is_text(name, "ConstantValue") {
        constant_value::read(buf)
    } else if is_text(name, "Code") {
        proof {
            code::lemma_code_length(buf@, models(constant_pool@));
        }
        code::read(buf, constant_pool)
    } else if is_text(name, "StackMapTable") {
        stack_map_table::read(buf)
    } else if is_text(name, "Exceptions") {
        exceptions::read(buf)
    } else if is_text(name, "InnerClasses") {
        inner_classes::read(buf)
    } else if is_text(name, "EnclosingMethod") {
        enclosing_method::read(buf)
    } else if is_text(name, "Synthetic") {
        assert(buf@.skip(0) =~= buf@);
        Ok(Attribute::Synthetic)
    } else if is_text(name, "Signature") {
        signature::read(buf, constant_pool)
    } else if is_text(name, "SourceFile") {
        source_file::read(buf, constant_pool)
    } else if is_text(name, "SourceDebugExtension") {
        source_debug_extensions::read(buf, length)
    } else if is_text(name, "LineNumberTable") {
        line_number_table::read(buf)
    } else if is_text(name, "LocalVariableTable") {
        local_variable_table::read(buf)
    } else if is_text(name, "LocalVariableTypeTable") {
        local_variable_type_table::read(buf)
    } else if is_text(name, "Deprecated") {
        assert(buf@.skip(0) =~= buf@);
        Ok(Attribute::Deprecated)
    } else if is_text(name, "RuntimeVisibleAnnotations") {
        runtime_annotations::read::<true>(buf)
    } else if is_text(name, "RuntimeInvisibleAnnotations") {
        runtime_annotations::read::<false>(buf)
    } else if is_text(name, "RuntimeVisibleParameterAnnotations") {
        runtime_parameter_annotations::read::<true>(buf)
    } else if is_text(name, "RuntimeInvisibleParameterAnnotations") {
        runtime_parameter_annotations::read::<false>(buf)
    } else if is_text(name, "AnnotationDefault") {
        annotation_default::read(buf, constant_pool)
    } else if is_text(name, "BootstrapMethods") {
        bootstrap_methods::read(buf)
    } else {
        Err(DecodeError::UnknownAttribute)
    }
}

/// An attribute is its header and its body put together.
pub proof fn lemma_attribute_parts(
    s: Seq<u8>,
    pool: Seq<ResolvedCpInfoView>,
    name: Seq<char>,
    length: u32,
    body: Result<(AttributeView, int), DecodeError>,
)
    requires
        parse_header(s, pool) == Ok::<(Seq<char>, u32), DecodeError>((name, length)),
        s.len() >= 6 + length,
        body == parse_body(name, s.subrange(6, 6 + length), length, pool),
    ensures
        parse_attribute(s, pool) == match body {
            Err(e) => Err::<(AttributeView, int), DecodeError>(e),
            Ok((attribute, n)) => if n != length {
                Err(DecodeError::TrailingBytes)
            } else {
                Ok((attribute, 6 + length))
            },
        },
{
    reveal(parse_body);
}

/// Reads the header of an attribute.
pub fn read_header<'a>(buf: &mut &[u8], constant_pool: &'a Vec<ResolvedCpInfo>) -> (r: Result<
    (&'a String, u32),
    DecodeError,
>)
    ensures
        match r {
            Ok((name, length)) => parse_header(old(buf)@, models(constant_pool@)) == Ok::<
                (Seq<char>, u32),
                DecodeError,
            >((name@, length)) && final(buf)@ == old(buf)@.skip(6),
            Err(e) => parse_header(old(buf)@, models(constant_pool@)) == Err::<
                (Seq<char>, u32),
                DecodeError,
            >(e),
        },
{
    let attribute_name_index = get_u16(buf)?;
    let attribute_length = get_u32(buf)?;
    assert(buf@ =~= old(buf)@.skip(6));
    match lookup_text(constant_pool, attribute_name_index) {
        None => Err(DecodeError::BadConstantIndex),
        Some(name) => Ok((name, attribute_length)),
    }
}

impl Attribute {
    /// Reads one attribute from the front of `buf`. The body must fill the
    /// length that the attribute declares, no more and no less.
    pub fn read(buf: &mut &[u8], constant_pool: &Vec<ResolvedCpInfo>) -> (r: Result<
        Attribute,
        DecodeError,
    >)
        ensures
            read_as(r, parse_attribute(old(buf)@, models(constant_pool@)), old(buf)@, final(buf)@),
        decreases old(buf)@.len(), 0nat,
    {
        let ghost s = buf@;
        let (name, attribute_length) = read_header(buf, constant_pool)?;
        let mut body = take_slice(attribute_length as usize, buf)?;
        assert(body@ =~= s.subrange(6, 6 + attribute_length));
        assert(buf@ =~= s.skip(6 + attribute_length));
        let ghost whole = body@;
        let ghost expected = parse_body(name@, whole, attribute_length, models(constant_pool@));
        proof {
            lemma_attribute_parts(s, models(constant_pool@), name@, attribute_length, expected);
        }
        let attribute = read_body(name, &mut body, attribute_length, constant_pool)?;
        if body.len() != 0 {
            return Err(DecodeError::TrailingBytes);
        }
        Ok(attribute)
    }
}

/// Reads `count` attributes in a row.
pub fn read_attributes(buf: &mut &[u8], count: u16, constant_pool: &Vec<ResolvedCpInfo>) -> (r: Result<
    Vec<Attribute>,
    DecodeError,
>)
    ensures
        read_many_as(
            r,
            parse_attributes(old(buf)@, count as nat, models(constant_pool@)),
            old(buf)@,
            final(buf)@,
        ),
    decreases old(buf)@.len(), 1nat,
{
    let ghost start = buf@;
    let ghost pool = models(constant_pool@);
    let mut items: Vec<Attribute> = Vec::new();
    let mut k: u16 = 0;
    assert(models(items@) =~= Seq::<AttributeView>::empty());
    assert(start.skip(0) =~= start);
    while k < count
        invariant
            k <= count,
            start == old(buf)@,
            pool == models(constant_pool@),
            parse_attributes(start, k as nat, pool) is Ok,
            parse_attributes(start, k as nat, pool)->Ok_0.0 == models(items@),
            0 <= parse_attributes(start, k as nat, pool)->Ok_0.1 <= start.len(),
            buf@ == start.skip(parse_attributes(start, k as nat, pool)->Ok_0.1),
        decreases count - k,
    {
        let ghost used = parse_attributes(start, k as nat, pool)->Ok_0.1;
        let ghost before = models(items@);
        let item = match Attribute::read(buf, constant_pool) {
            Err(e) => {
                proof {
                    assert(parse_attributes(start, (k + 1) as nat, pool) is Err);
                    lemma_attributes_tail(start, (k + 1) as nat, count as nat, pool);
                }
                return Err(e);
            },
            Ok(item) => item,
        };
        let ghost m = item@;
        items.push(item);
        proof {
            assert(models(items@) =~= before.push(m));
            assert(start.skip(used).skip(parse_attribute(start.skip(used), pool)->Ok_0.1) =~= start.skip(
                used + parse_attribute(start.skip(used), pool)->Ok_0.1,
            ));
        }
        k += 1;
    }
    Ok(items)
}

} // verus!
