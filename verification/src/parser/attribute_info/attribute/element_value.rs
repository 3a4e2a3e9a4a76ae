use vstd::prelude::*;
use crate::error::DecodeError;
use crate::helpers::{get_u16, get_u8, u16_at};
use crate::parser::attribute_info::attribute::annotation::{Annotation, AnnotationView};
use crate::parser::record::{models, read_as, read_many_as, Record};

verus! {

/// What an element value holds, by the form that its tag selects.
#[derive(Debug, PartialEq, Eq)]
pub enum ElementValues {
    ConstValueIndex(u16),
    EnumConstValue { type_name_index: u16, const_name_index: u16 },
    ClassInfoIndex(u16),
    AnnotationValue(Annotation),
    ArrayValue { num_values: u16, values: Vec<ElementValue> },
}

/// One value of an annotation's element.
#[derive(Debug, PartialEq, Eq)]
pub struct ElementValue {
    pub tag: u8,
    pub value: ElementValues,
}

/// What an element value holds, as a mathematical value.
pub enum ElementValuesView {
    ConstValueIndex(u16),
    EnumConstValue { type_name_index: u16, const_name_index: u16 },
    ClassInfoIndex(u16),
    AnnotationValue(AnnotationView),
    ArrayValue { num_values: u16, values: Seq<ElementValueView> },
}

/// An element value as a mathematical value.
pub struct ElementValueView {
    pub tag: u8,
    pub value: ElementValuesView,
}

/// The mathematical value of an element value.
pub open spec fn element_value_view(e: ElementValue) -> ElementValueView
    decreases e,
{
    ElementValueView {
        tag: e.tag,
        value: match e.value {
            ElementValues::ConstValueIndex(i) => ElementValuesView::ConstValueIndex(i),
            ElementValues::EnumConstValue {
                type_name_index,
                const_name_index,
            } => ElementValuesView::EnumConstValue { type_name_index, const_name_index },
            ElementValues::ClassInfoIndex(i) => ElementValuesView::ClassInfoIndex(i),
            ElementValues::AnnotationValue(a) => ElementValuesView::AnnotationValue(annotation_view(a)),
            ElementValues::ArrayValue { num_values, values } => ElementValuesView::ArrayValue {
                num_values,
                values: Seq::new(
                    values@.len(),
                    |i: int|
                        if 0 <= i < values@.len() {
                            element_value_view(values@[i])
                        } else {
                            arbitrary()
                        },
                ),
            },
        },
    }
}

/// The mathematical value of an annotation.
pub open spec fn annotation_view(a: Annotation) -> AnnotationView
    decreases a,
{
    AnnotationView {
        type_index: a.type_index,
        num_element_value_pairs: a.num_element_value_pairs,
        element_value_pairs: Seq::new(
            a.element_value_pairs@.len(),
            |i: int|
                if 0 <= i < a.element_value_pairs@.len() {
                    (a.element_value_pairs@[i].0, element_value_view(a.element_value_pairs@[i].1))
                } else {
                    arbitrary()
                },
        ),
    }
}

impl View for ElementValue {
    type V = ElementValueView;

    open spec fn view(&self) -> ElementValueView {
        element_value_view(*self)
    }
}


/// Whether the tag selects a constant: one of `B C D F I J S Z s`.
pub open spec fn spec_is_const_tag(tag: u8) -> bool {
    tag == 66 || tag == 67 || tag == 68 || tag == 70 || tag == 73 || tag == 74 || tag == 83 || tag
        == 90 || tag == 115
}

/// Whether the tag selects a constant.
#[verifier::when_used_as_spec(spec_is_const_tag)]
pub fn is_const_tag(tag: u8) -> (r: bool)
    ensures
        r == spec_is_const_tag(tag),
{
    tag == 66 || tag == 67 || tag == 68 || tag == 70 || tag == 73 || tag == 74 || tag == 83 || tag
        == 90 || tag == 115
}

/// The element value at the front of `s`: a tag byte and what the tag
/// selects. A constant and a class (`c`) are one index, an enum constant
/// (`e`) two; `@` is followed by an annotation, `[` by a count and that many
/// element values.
pub open spec fn parse_element_value(s: Seq<u8>) -> Result<(ElementValueView, int), DecodeError>
    decreases s.len(), 0nat,
{
    if s.len() < 1 {
        Err(DecodeError::UnexpectedEnd)
    } else {
        let tag = s[0];
        if spec_is_const_tag(tag) {
            if s.len() < 3 {
                Err(DecodeError::UnexpectedEnd)
            } else {
                Ok((ElementValueView { tag, value: ElementValuesView::ConstValueIndex(u16_at(s, 1)) }, 3))
            }
        } else if tag == 101 {
            if s.len() < 5 {
                Err(DecodeError::UnexpectedEnd)
            } else {
                Ok(
                    (
                        ElementValueView {
                            tag,
                            value: ElementValuesView::EnumConstValue {
                                type_name_index: u16_at(s, 1),
                                const_name_index: u16_at(s, 3),
                            },
                        },
                        5,
                    ),
                )
            }
        } else if tag == 99 {
            if s.len() < 3 {
                Err(DecodeError::UnexpectedEnd)
            } else {
                Ok((ElementValueView { tag, value: ElementValuesView::ClassInfoIndex(u16_at(s, 1)) }, 3))
            }
        } else if tag == 64 {
            match parse_annotation(s.skip(1)) {
                Err(e) => Err(e),
                Ok((a, n)) => Ok(
                    (ElementValueView { tag, value: ElementValuesView::AnnotationValue(a) }, 1 + n),
                ),
            }
        } else if tag == 91 {
            if s.len() < 3 {
                Err(DecodeError::UnexpectedEnd)
            } else {
                match parse_values(s.skip(3), u16_at(s, 1) as nat) {
                    Err(e) => Err(e),
                    Ok((values, n)) => Ok(
                        (
                            ElementValueView {
                                tag,
                                value: ElementValuesView::ArrayValue { num_values: u16_at(s, 1), values },
                            },
                            3 + n,
                        ),
                    ),
                }
            }
        } else {
            Err(DecodeError::BadTag)
        }
    }
}

/// `count` element values in a row at the front of `s`.
pub open spec fn parse_values(s: Seq<u8>, count: nat) -> Result<
    (Seq<ElementValueView>, int),
    DecodeError,
>
    decreases s.len(), count + 1,
{
    if count == 0 {
        Ok((Seq::empty(), 0))
    } else {
        match parse_values(s, (count - 1) as nat) {
            Err(e) => Err(e),
            Ok((front, n)) => if n < 0 || n > s.len() {
                Err(DecodeError::UnexpectedEnd)
            } else {
                match parse_element_value(s.skip(n)) {
                    Err(e) => Err(e),
                    Ok((last, m)) => Ok((front.push(last), n + m)),
                }
            },
        }
    }
}

/// The annotation at the front of `s`: its type, a count, and that many
/// pairs of an element's name and its value.
pub open spec fn parse_annotation(s: Seq<u8>) -> Result<(AnnotationView, int), DecodeError>
    decreases s.len(), 0nat,
{
    if s.len() < 4 {
        Err(DecodeError::UnexpectedEnd)
    } else {
        match parse_pairs(s.skip(4), u16_at(s, 2) as nat) {
            Err(e) => Err(e),
            Ok((pairs, n)) => Ok(
                (
                    AnnotationView {
                        type_index: u16_at(s, 0),
                        num_element_value_pairs: u16_at(s, 2),
                        element_value_pairs: pairs,
                    },
                    4 + n,
                ),
            ),
        }
    }
}

/// `count` pairs of a name index and an element value at the front of `s`.
pub open spec fn parse_pairs(s: Seq<u8>, count: nat) -> Result<
    (Seq<(u16, ElementValueView)>, int),
    DecodeError,
>
    decreases s.len(), count + 1,
{
    if count == 0 {
        Ok((Seq::empty(), 0))
    } else {
        match parse_pairs(s, (count - 1) as nat) {
            Err(e) => Err(e),
            Ok((front, n)) => if n < 0 || n + 2 > s.len() {
                Err(DecodeError::UnexpectedEnd)
            } else {
                match parse_element_value(s.skip(n + 2)) {
                    Err(e) => Err(e),
                    Ok((last, m)) => Ok((front.push((u16_at(s, n), last)), n + 2 + m)),
                }
            },
        }
    }
}

/// Element values, annotations and rows of them take no more bytes than
/// there are.
pub proof fn lemma_element_value_length(s: Seq<u8>)
    ensures
        parse_element_value(s) is Ok ==> 1 <= parse_element_value(s)->Ok_0.1 <= s.len(),
    decreases s.len(), 0nat,
{
    if s.len() >= 1 {
        if s[0] == 64 {
            lemma_annotation_length(s.skip(1));
        } else if s[0] == 91 && s.len() >= 3 {
            lemma_values_length(s.skip(3), u16_at(s, 1) as nat);
        }
    }
}

pub proof fn lemma_values_length(s: Seq<u8>, count: nat)
    ensures
        parse_values(s, count) is Ok ==> 0 <= parse_values(s, count)->Ok_0.1 <= s.len()
            && parse_values(s, count)->Ok_0.0.len() == count,
    decreases s.len(), count + 1,
{
    if count > 0 {
        lemma_values_length(s, (count - 1) as nat);
        if parse_values(s, (count - 1) as nat) is Ok {
            let n = parse_values(s, (count - 1) as nat)->Ok_0.1;
            lemma_element_value_length(s.skip(n));
        }
    }
}

pub proof fn lemma_annotation_length(s: Seq<u8>)
    ensures
        parse_annotation(s) is Ok ==> 4 <= parse_annotation(s)->Ok_0.1 <= s.len(),
    decreases s.len(), 0nat,
{
    if s.len() >= 4 {
        lemma_pairs_length(s.skip(4), u16_at(s, 2) as nat);
    }
}

pub proof fn lemma_pairs_length(s: Seq<u8>, count: nat)
    ensures
        parse_pairs(s, count) is Ok ==> 0 <= parse_pairs(s, count)->Ok_0.1 <= s.len() && parse_pairs(
            s,
            count,
        )->Ok_0.0.len() == count,
    decreases s.len(), count + 1,
{
    if count > 0 {
        lemma_pairs_length(s, (count - 1) as nat);
        if parse_pairs(s, (count - 1) as nat) is Ok {
            let n = parse_pairs(s, (count - 1) as nat)->Ok_0.1;
            if n + 2 <= s.len() {
                lemma_element_value_length(s.skip(n + 2));
            }
        }
    }
}

/// Once a row of element values fails to parse, so does every longer row,
/// with the same error.
pub proof fn lemma_values_tail(s: Seq<u8>, k: nat, count: nat)
    requires
        k <= count,
        parse_values(s, k) is Err,
    ensures
        parse_values(s, count) == parse_values(s, k),
    decreases count - k,
{
    if k < count {
        lemma_values_tail(s, k, (count - 1) as nat);
    }
}

/// Once a row of pairs fails to parse, so does every longer row, with the
/// same error.
pub proof fn lemma_pairs_tail(s: Seq<u8>, k: nat, count: nat)
    requires
        k <= count,
        parse_pairs(s, k) is Err,
    ensures
        parse_pairs(s, count) == parse_pairs(s, k),
    decreases count - k,
{
    if k < count {
        lemma_pairs_tail(s, k, (count - 1) as nat);
    }
}

/// Reads `count` element values in a row.
pub fn read_values(buf: &mut &[u8], count: u16) -> (r: Result<Vec<ElementValue>, DecodeError>)
    ensures
        read_many_as(r, parse_values(old(buf)@, count as nat), old(buf)@, final(buf)@),
    decreases old(buf)@.len(), 1nat,
{
    let ghost start = buf@;
    let mut items: Vec<ElementValue> = Vec::new();
    let mut k: u16 = 0;
    assert(models(items@) =~= Seq::<ElementValueView>::empty());
    assert(start.skip(0) =~= start);
    while k < count
        invariant
            k <= count,
            start == old(buf)@,
            parse_values(start, k as nat) is Ok,
            parse_values(start, k as nat)->Ok_0.0 == models(items@),
            0 <= parse_values(start, k as nat)->Ok_0.1 <= start.len(),
            buf@ == start.skip(parse_values(start, k as nat)->Ok_0.1),
        decreases count - k,
    {
        let ghost used = parse_values(start, k as nat)->Ok_0.1;
        let ghost before = models(items@);
        proof {
            lemma_element_value_length(buf@);
        }
        let item = match ElementValue::read(buf) {
            Err(e) => {
                proof {
                    assert(parse_values(start, (k + 1) as nat) is Err);
                    lemma_values_tail(start, (k + 1) as nat, count as nat);
                }
                return Err(e);
            },
            Ok(item) => item,
        };
        let ghost m = item@;
        items.push(item);
        proof {
            assert(models(items@) =~= before.push(m));
            assert(start.skip(used).skip(parse_element_value(start.skip(used))->Ok_0.1) =~= start.skip(
                used + parse_element_value(start.skip(used))->Ok_0.1,
            ));
        }
        k += 1;
    }
    Ok(items)
}

/// Reads `count` pairs of a name index and an element value.
pub fn read_pairs(buf: &mut &[u8], count: u16) -> (r: Result<Vec<(u16, ElementValue)>, DecodeError>)
    ensures
        read_many_as(r, parse_pairs(old(buf)@, count as nat), old(buf)@, final(buf)@),
    decreases old(buf)@.len(), 1nat,
{
    let ghost start = buf@;
    let mut items: Vec<(u16, ElementValue)> = Vec::new();
    let mut k: u16 = 0;
    assert(models(items@) =~= Seq::<(u16, ElementValueView)>::empty());
    assert(start.skip(0) =~= start);
    while k < count
        invariant
            k <= count,
            start == old(buf)@,
            parse_pairs(start, k as nat) is Ok,
            parse_pairs(start, k as nat)->Ok_0.0 == models(items@),
            0 <= parse_pairs(start, k as nat)->Ok_0.1 <= start.len(),
            buf@ == start.skip(parse_pairs(start, k as nat)->Ok_0.1),
        decreases count - k,
    {
        let ghost used = parse_pairs(start, k as nat)->Ok_0.1;
        let ghost before = models(items@);
        let name = match get_u16(buf) {
            Err(e) => {
                proof {
                    assert(parse_pairs(start, (k + 1) as nat) is Err);
                    lemma_pairs_tail(start, (k + 1) as nat, count as nat);
                }
                return Err(e);
            },
            Ok(name) => name,
        };
        proof {
            assert(buf@ =~= start.skip(used + 2));
            lemma_element_value_length(buf@);
        }
        let value = match ElementValue::read(buf) {
            Err(e) => {
                proof {
                    assert(parse_pairs(start, (k + 1) as nat) is Err);
                    lemma_pairs_tail(start, (k + 1) as nat, count as nat);
                }
                return Err(e);
            },
            Ok(value) => value,
        };
        let ghost m = (name, value@);
        items.push((name, value));
        proof {
            assert(models(items@) =~= before.push(m));
            assert(start.skip(used + 2).skip(parse_element_value(start.skip(used + 2))->Ok_0.1)
                =~= start.skip(used + 2 + parse_element_value(start.skip(used + 2))->Ok_0.1));
        }
        k += 1;
    }
    Ok(items)
}

impl ElementValue {
    /// Reads one element value from the front of `buf`.
    pub fn read(buf: &mut &[u8]) -> (r: Result<Self, DecodeError>)
        ensures
            read_as(r, parse_element_value(old(buf)@), old(buf)@, final(buf)@),
        decreases old(buf)@.len(), 0nat,
    {
        let tag = get_u8(buf)?;
        if is_const_tag(tag) {
            let index = get_u16(buf)?;
            assert(buf@ =~= old(buf)@.skip(3));
            Ok(ElementValue { tag, value: ElementValues::ConstValueIndex(index) })
        } else if tag == 101 {
            let type_name_index = get_u16(buf)?;
            let const_name_index = get_u16(buf)?;
            assert(buf@ =~= old(buf)@.skip(5));
            Ok(ElementValue { tag, value: ElementValues::EnumConstValue { type_name_index, const_name_index } })
        } else if tag == 99 {
            let index = get_u16(buf)?;
            assert(buf@ =~= old(buf)@.skip(3));
            Ok(ElementValue { tag, value: ElementValues::ClassInfoIndex(index) })
        } else if tag == 64 {
            proof {
                lemma_annotation_length(buf@);
            }
            let annotation = Annotation::read(buf)?;
            assert(buf@ =~= old(buf)@.skip(1 + parse_annotation(old(buf)@.skip(1))->Ok_0.1));
            Ok(ElementValue { tag, value: ElementValues::AnnotationValue(annotation) })
        } else if tag == 91 {
            let num_values = get_u16(buf)?;
            assert(buf@ =~= old(buf)@.skip(3));
            let values = read_values(buf, num_values)?;
            assert(buf@ =~= old(buf)@.skip(
                3 + parse_values(old(buf)@.skip(3), num_values as nat)->Ok_0.1,
            ));
            let r = ElementValue { tag, value: ElementValues::ArrayValue { num_values, values } };
            assert(r@.value->ArrayValue_values =~= models(values@));
            Ok(r)
        } else {
            Err(DecodeError::BadTag)
        }
    }
}

impl Record for ElementValue {
    open spec fn parse(s: Seq<u8>) -> Result<(ElementValueView, int), DecodeError> {
        parse_element_value(s)
    }

    proof fn lemma_parse_length(s: Seq<u8>) {
        lemma_element_value_length(s);
    }

    fn read_record(buf: &mut &[u8]) -> (r: Result<Self, DecodeError>) {
        ElementValue::read(buf)
    }
}

} // verus!
