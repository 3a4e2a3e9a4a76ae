use vstd::prelude::*;
use crate::error::DecodeError;
use crate::helpers::get_u16;
use crate::parser::attribute_info::attribute::element_value::{
    annotation_view, lemma_annotation_length, parse_annotation, parse_pairs, read_pairs, ElementValue,
    ElementValueView,
};
use crate::parser::record::{models, read_as, Record};

verus! {

/// An annotation: its type and its named element values.
#[derive(Debug, PartialEq, Eq)]
pub struct Annotation {
    pub type_index: u16,
    pub num_element_value_pairs: u16,
    pub element_value_pairs: Vec<(u16, ElementValue)>,
}

/// An annotation as a mathematical value.
pub struct AnnotationView {
    pub type_index: u16,
    pub num_element_value_pairs: u16,
    pub element_value_pairs: Seq<(u16, ElementValueView)>,
}

impl View for Annotation {
    type V = AnnotationView;

    open spec fn view(&self) -> AnnotationView {
        annotation_view(*self)
    }
}


impl Annotation {
    /// Reads one annotation from the front of `buf`.
    pub fn read(buf: &mut &[u8]) -> (r: Result<Self, DecodeError>)
        ensures
            read_as(r, parse_annotation(old(buf)@), old(buf)@, final(buf)@),
        decreases old(buf)@.len(), 0nat,
    {
        let type_index = get_u16(buf)?;
        let num_element_value_pairs = get_u16(buf)?;
        assert(buf@ =~= old(buf)@.skip(4));
        let element_value_pairs = read_pairs(buf, num_element_value_pairs)?;
        assert(buf@ =~= old(buf)@.skip(
            4 + parse_pairs(old(buf)@.skip(4), num_element_value_pairs as nat)->Ok_0.1,
        ));
        let r = Annotation { type_index, num_element_value_pairs, element_value_pairs };
        assert(r@.element_value_pairs =~= models(element_value_pairs@));
        Ok(r)
    }
}

impl Record for Annotation {
    open spec fn parse(s: Seq<u8>) -> Result<(AnnotationView, int), DecodeError> {
        parse_annotation(s)
    }

    proof fn lemma_parse_length(s: Seq<u8>) {
        lemma_annotation_length(s);
    }

    fn read_record(buf: &mut &[u8]) -> (r: Result<Self, DecodeError>) {
        Annotation::read(buf)
    }
}

} // verus!
