use vstd::prelude::*;
use crate::error::DecodeError;
use crate::helpers::{get_u16, u16_at};
use crate::parser::record::{lemma_parse_many_length, models, parse_many, read_as, read_many, Record};

verus! {

/// One entry of a class's table of bootstrap methods.
#[derive(Debug, Clone, PartialEq, Eq)]
pub struct BootstrapMethod {
    pub bootstrap_method_ref: u16,
    pub num_bootstrap_arguments: u16,
    pub bootstrap_methods: Vec<u16>,
}

/// A bootstrap method as a mathematical value.
pub struct BootstrapMethodView {
    pub bootstrap_method_ref: u16,
    pub num_bootstrap_arguments: u16,
    pub bootstrap_methods: Seq<u16>,
}

impl View for BootstrapMethod {
    type V = BootstrapMethodView;

    open spec fn view(&self) -> BootstrapMethodView {
        BootstrapMethodView {
            bootstrap_method_ref: self.bootstrap_method_ref,
            num_bootstrap_arguments: self.num_bootstrap_arguments,
            bootstrap_methods: self.bootstrap_methods@,
        }
    }
}

impl BootstrapMethod {
    /// Reads the method's reference, a count, and that many arguments.
    pub fn read(buf: &mut &[u8]) -> (r: Result<Self, DecodeError>)
        ensures
            read_as(r, <BootstrapMethod as Record>::parse(old(buf)@), old(buf)@, final(buf)@),
    {
        let bootstrap_method_ref = get_u16(buf)?;
        let num_bootstrap_arguments = get_u16(buf)?;
        assert(buf@ =~= old(buf)@.skip(4));
        let bootstrap_methods = read_many::<u16>(buf, num_bootstrap_arguments as usize)?;
        assert(buf@ =~= old(buf)@.skip(
            4 + parse_many::<u16>(old(buf)@.skip(4), num_bootstrap_arguments as nat)->Ok_0.1,
        ));
        assert(models(bootstrap_methods@) =~= bootstrap_methods@);
        Ok(BootstrapMethod { bootstrap_method_ref, num_bootstrap_arguments, bootstrap_methods })
    }
}

impl Record for BootstrapMethod {
    open spec fn parse(s: Seq<u8>) -> Result<(BootstrapMethodView, int), DecodeError> {
        if s.len() < 4 {
            Err(DecodeError::UnexpectedEnd)
        } else {
            match parse_many::<u16>(s.skip(4), u16_at(s, 2) as nat) {
                Err(e) => Err(e),
                Ok((arguments, n)) => Ok(
                    (
                        BootstrapMethodView {
                            bootstrap_method_ref: u16_at(s, 0),
                            num_bootstrap_arguments: u16_at(s, 2),
                            bootstrap_methods: arguments,
                        },
                        4 + n,
                    ),
                ),
            }
        }
    }

    proof fn lemma_parse_length(s: Seq<u8>) {
        if s.len() >= 4 {
            lemma_parse_many_length::<u16>(s.skip(4), u16_at(s, 2) as nat);
        }
    }

    fn read_record(buf: &mut &[u8]) -> (r: Result<Self, DecodeError>) {
        BootstrapMethod::read(buf)
    }
}

} // verus!
