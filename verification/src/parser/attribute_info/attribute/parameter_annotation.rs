use vstd::prelude::*;
use crate::error::DecodeError;
use crate::helpers::{get_u16, u16_at};
use crate::parser::attribute_info::attribute::annotation::{Annotation, AnnotationView};
use crate::parser::record::{
    lemma_parse_many_length, models, parse_many, read_as, read_many, Record,
};

verus! {

/// The annotations of one parameter.
#[derive(Debug, PartialEq, Eq)]
pub struct ParameterAnnotation {
    pub num_annotations: u16,
    pub annotations: Vec<Annotation>,
}

/// The annotations of one parameter, as a mathematical value.
pub struct ParameterAnnotationView {
    pub num_annotations: u16,
    pub annotations: Seq<AnnotationView>,
}

impl View for ParameterAnnotation {
    type V = ParameterAnnotationView;

    open spec fn view(&self) -> ParameterAnnotationView {
        ParameterAnnotationView {
            num_annotations: self.num_annotations,
            annotations: models(self.annotations@),
        }
    }
}

impl ParameterAnnotation {
    /// Reads a count and that many annotations.
    pub fn read(buf: &mut &[u8]) -> (r: Result<Self, DecodeError>)
        ensures
            read_as(r, <ParameterAnnotation as Record>::parse(old(buf)@), old(buf)@, final(buf)@),
    {
        let num_annotations = get_u16(buf)?;
        proof {
            lemma_parse_many_length::<Annotation>(buf@, num_annotations as nat);
        }
        let annotations = read_many::<Annotation>(buf, num_annotations as usize)?;
        assert(buf@ =~= old(buf)@.skip(
            2 + parse_many::<Annotation>(old(buf)@.skip(2), num_annotations as nat)->Ok_0.1,
        ));
        Ok(ParameterAnnotation { num_annotations, annotations })
    }
}

impl Record for ParameterAnnotation {
    open spec fn parse(s: Seq<u8>) -> Result<(ParameterAnnotationView, int), DecodeError> {
        if s.len() < 2 {
            Err(DecodeError::UnexpectedEnd)
        } else {
            match parse_many::<Annotation>(s.skip(2), u16_at(s, 0) as nat) {
                Err(e) => Err(e),
                Ok((annotations, n)) => Ok(
                    (ParameterAnnotationView { num_annotations: u16_at(s, 0), annotations }, 2 + n),
                ),
            }
        }
    }

    proof fn lemma_parse_length(s: Seq<u8>) {
        if s.len() >= 2 {
            lemma_parse_many_length::<Annotation>(s.skip(2), u16_at(s, 0) as nat);
        }
    }

    fn read_record(buf: &mut &[u8]) -> (r: Result<Self, DecodeError>) {
        ParameterAnnotation::read(buf)
    }
}

} // verus!
