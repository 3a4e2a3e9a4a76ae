use vstd::prelude::*;
use crate::error::DecodeError;
use crate::helpers::{get_u16, get_u8, u16_at};
use crate::parser::attribute_info::attribute::stack_map_frame::verification_type_info::VerificationTypeInfo;
use crate::parser::record::{lemma_parse_many_length, models, parse_many, read_as, read_many, Record};

pub mod verification_type_info;

verus! {

/// One frame of a stack map table.
#[allow(inconsistent_fields)]
#[derive(Debug, Clone, PartialEq, Eq)]
pub enum StackMapFrame {
    SameFrame { frame_type: u8 },
    SameLocals1StackItemFrame { frame_type: u8, stack: VerificationTypeInfo },
    SameLocals1StackItemFrameExtended {
        frame_type: u8,
        offset_delta: u16,
        stack: VerificationTypeInfo,
    },
    ChopFrame { frame_type: u8, offset_delta: u16 },
    SameFrameExtended { frame_type: u8, offset_delta: u16 },
    AppendFrame { frame_type: u8, offset_delta: u16, locals: Vec<VerificationTypeInfo> },
    FullFrame {
        frame_type: u8,
        offset_delta: u16,
        number_of_locals: u16,
        locals: Vec<VerificationTypeInfo>,
        number_of_stack_items: u16,
        stack: Vec<VerificationTypeInfo>,
    },
}

/// A frame of a stack map table as a mathematical value.
#[allow(inconsistent_fields)]
pub enum StackMapFrameView {
    SameFrame { frame_type: u8 },
    SameLocals1StackItemFrame { frame_type: u8, stack: VerificationTypeInfo },
    SameLocals1StackItemFrameExtended {
        frame_type: u8,
        offset_delta: u16,
        stack: VerificationTypeInfo,
    },
    ChopFrame { frame_type: u8, offset_delta: u16 },
    SameFrameExtended { frame_type: u8, offset_delta: u16 },
    AppendFrame { frame_type: u8, offset_delta: u16, locals: Seq<VerificationTypeInfo> },
    FullFrame {
        frame_type: u8,
        offset_delta: u16,
        number_of_locals: u16,
        locals: Seq<VerificationTypeInfo>,
        number_of_stack_items: u16,
        stack: Seq<VerificationTypeInfo>,
    },
}

impl View for StackMapFrame {
    type V = StackMapFrameView;

    open spec fn view(&self) -> StackMapFrameView {
        match self {
            StackMapFrame::SameFrame { frame_type } => StackMapFrameView::SameFrame {
                frame_type: *frame_type,
            },
            StackMapFrame::SameLocals1StackItemFrame {
                frame_type,
                stack,
            } => StackMapFrameView::SameLocals1StackItemFrame { frame_type: *frame_type, stack: *stack },
            StackMapFrame::SameLocals1StackItemFrameExtended {
                frame_type,
                offset_delta,
                stack,
            } => StackMapFrameView::SameLocals1StackItemFrameExtended {
                frame_type: *frame_type,
                offset_delta: *offset_delta,
                stack: *stack,
            },
            StackMapFrame::ChopFrame { frame_type, offset_delta } => StackMapFrameView::ChopFrame {
                frame_type: *frame_type,
                offset_delta: *offset_delta,
            },
            StackMapFrame::SameFrameExtended {
                frame_type,
                offset_delta,
            } => StackMapFrameView::SameFrameExtended {
                frame_type: *frame_type,
                offset_delta: *offset_delta,
            },
            StackMapFrame::AppendFrame {
                frame_type,
                offset_delta,
                locals,
            } => StackMapFrameView::AppendFrame {
                frame_type: *frame_type,
                offset_delta: *offset_delta,
                locals: locals@,
            },
            StackMapFrame::FullFrame {
                frame_type,
                offset_delta,
                number_of_locals,
                locals,
                number_of_stack_items,
                stack,
            } => StackMapFrameView::FullFrame {
                frame_type: *frame_type,
                offset_delta: *offset_delta,
                number_of_locals: *number_of_locals,
                locals: locals@,
                number_of_stack_items: *number_of_stack_items,
                stack: stack@,
            },
        }
    }
}

/// A full frame: after the type byte come the offset, a count and that many
/// locals, then a count and that many stack items.
pub open spec fn parse_full_frame(s: Seq<u8>) -> Result<(StackMapFrameView, int), DecodeError> {
    if s.len() < 5 {
        Err(DecodeError::UnexpectedEnd)
    } else {
        match parse_many::<VerificationTypeInfo>(s.skip(5), u16_at(s, 3) as nat) {
            Err(e) => Err(e),
            Ok((locals, n)) => if n < 0 || s.len() < 5 + n + 2 {
                Err(DecodeError::UnexpectedEnd)
            } else {
                match parse_many::<VerificationTypeInfo>(s.skip(5 + n + 2), u16_at(s, 5 + n) as nat) {
                    Err(e) => Err(e),
                    Ok((stack, m)) => Ok(
                        (
                            StackMapFrameView::FullFrame {
                                frame_type: s[0],
                                offset_delta: u16_at(s, 1),
                                number_of_locals: u16_at(s, 3),
                                locals,
                                number_of_stack_items: u16_at(s, 5 + n),
                                stack,
                            },
                            5 + n + 2 + m,
                        ),
                    ),
                }
            },
        }
    }
}

impl StackMapFrame {
    /// Reads one frame: a type byte and what the type calls for.
    pub fn read(buf: &mut &[u8]) -> (r: Result<Self, DecodeError>)
        ensures
            read_as(r, <StackMapFrame as Record>::parse(old(buf)@), old(buf)@, final(buf)@),
    {
        let frame_type = get_u8(buf)?;
        if frame_type <= 63 {
            Ok(StackMapFrame::SameFrame { frame_type })
        } else if frame_type <= 127 {
            let stack = VerificationTypeInfo::read(buf)?;
            assert(buf@ =~= old(buf)@.skip(
                1 + <VerificationTypeInfo as Record>::parse(old(buf)@.skip(1))->Ok_0.1,
            ));
            Ok(StackMapFrame::SameLocals1StackItemFrame { frame_type, stack })
        } else if frame_type < 247 {
            Err(DecodeError::BadTag)
        } else if frame_type == 247 {
            let offset_delta = get_u16(buf)?;
            assert(buf@ =~= old(buf)@.skip(3));
            let stack = VerificationTypeInfo::read(buf)?;
            assert(buf@ =~= old(buf)@.skip(
                3 + <VerificationTypeInfo as Record>::parse(old(buf)@.skip(3))->Ok_0.1,
            ));
            Ok(StackMapFrame::SameLocals1StackItemFrameExtended { frame_type, offset_delta, stack })
        } else if frame_type <= 250 {
            let offset_delta = get_u16(buf)?;
            assert(buf@ =~= old(buf)@.skip(3));
            Ok(StackMapFrame::ChopFrame { frame_type, offset_delta })
        } else if frame_type == 251 {
            let offset_delta = get_u16(buf)?;
            assert(buf@ =~= old(buf)@.skip(3));
            Ok(StackMapFrame::SameFrameExtended { frame_type, offset_delta })
        } else if frame_type <= 254 {
            let offset_delta = get_u16(buf)?;
            assert(buf@ =~= old(buf)@.skip(3));
            let locals = read_many::<VerificationTypeInfo>(buf, (frame_type - 251) as usize)?;
            assert(buf@ =~= old(buf)@.skip(
                3 + parse_many::<VerificationTypeInfo>(
                    old(buf)@.skip(3),
                    (frame_type - 251) as nat,
                )->Ok_0.1,
            ));
            assert(models(locals@) =~= locals@);
            Ok(StackMapFrame::AppendFrame { frame_type, offset_delta, locals })
        } else {
            let offset_delta = get_u16(buf)?;
            let number_of_locals = get_u16(buf)?;
            assert(buf@ =~= old(buf)@.skip(5));
            let locals = read_many::<VerificationTypeInfo>(buf, number_of_locals as usize)?;
            let ghost n = parse_many::<VerificationTypeInfo>(
                old(buf)@.skip(5),
                number_of_locals as nat,
            )->Ok_0.1;
            assert(buf@ =~= old(buf)@.skip(5 + n));
            let number_of_stack_items = get_u16(buf)?;
            assert(buf@ =~= old(buf)@.skip(5 + n + 2));
            let stack = read_many::<VerificationTypeInfo>(buf, number_of_stack_items as usize)?;
            assert(buf@ =~= old(buf)@.skip(
                5 + n + 2 + parse_many::<VerificationTypeInfo>(
                    old(buf)@.skip(5 + n + 2),
                    number_of_stack_items as nat,
                )->Ok_0.1,
            ));
            assert(models(locals@) =~= locals@);
            assert(models(stack@) =~= stack@);
            Ok(
                StackMapFrame::FullFrame {
                    frame_type,
                    offset_delta,
                    number_of_locals,
                    locals,
                    number_of_stack_items,
                    stack,
                },
            )
        }
    }
}

impl Record for StackMapFrame {
    /// The type byte selects the form: up to 63 a same frame; up to 127 one
    /// stack item; 247 an offset and one stack item; 248 to 250 a chop and
    /// 251 a same frame, each with an offset; 252 to 254 an offset and one
    /// to three more locals; 255 a full frame. Types 128 to 246 are not in
    /// use.
    open spec fn parse(s: Seq<u8>) -> Result<(StackMapFrameView, int), DecodeError> {
        if s.len() < 1 {
            Err(DecodeError::UnexpectedEnd)
        } else if s[0] <= 63 {
            Ok((StackMapFrameView::SameFrame { frame_type: s[0] }, 1))
        } else if s[0] <= 127 {
            match <VerificationTypeInfo as Record>::parse(s.skip(1)) {
                Err(e) => Err(e),
                Ok((stack, n)) => Ok(
                    (StackMapFrameView::SameLocals1StackItemFrame { frame_type: s[0], stack }, 1 + n),
                ),
            }
        } else if s[0] < 247 {
            Err(DecodeError::BadTag)
        } else if s.len() < 3 {
            Err(DecodeError::UnexpectedEnd)
        } else if s[0] == 247 {
            match <VerificationTypeInfo as Record>::parse(s.skip(3)) {
                Err(e) => Err(e),
                Ok((stack, n)) => Ok(
                    (
                        StackMapFrameView::SameLocals1StackItemFrameExtended {
                            frame_type: s[0],
                            offset_delta: u16_at(s, 1),
                            stack,
                        },
                        3 + n,
                    ),
                ),
            }
        } else if s[0] <= 250 {
            Ok((StackMapFrameView::ChopFrame { frame_type: s[0], offset_delta: u16_at(s, 1) }, 3))
        } else if s[0] == 251 {
            Ok((StackMapFrameView::SameFrameExtended { frame_type: s[0], offset_delta: u16_at(s, 1) }, 3))
        } else if s[0] <= 254 {
            match parse_many::<VerificationTypeInfo>(s.skip(3), (s[0] - 251) as nat) {
                Err(e) => Err(e),
                Ok((locals, n)) => Ok(
                    (
                        StackMapFrameView::AppendFrame {
                            frame_type: s[0],
                            offset_delta: u16_at(s, 1),
                            locals,
                        },
                        3 + n,
                    ),
                ),
            }
        } else {
            parse_full_frame(s)
        }
    }

    proof fn lemma_parse_length(s: Seq<u8>) {
        if s.len() >= 1 {
            if s[0] > 63 && s[0] <= 127 {
                VerificationTypeInfo::lemma_parse_length(s.skip(1));
            } else if s.len() >= 3 && s[0] == 247 {
                VerificationTypeInfo::lemma_parse_length(s.skip(3));
            } else if s.len() >= 3 && 252 <= s[0] <= 254 {
                lemma_parse_many_length::<VerificationTypeInfo>(s.skip(3), (s[0] - 251) as nat);
            } else if s.len() >= 5 && s[0] == 255 {
                lemma_parse_many_length::<VerificationTypeInfo>(s.skip(5), u16_at(s, 3) as nat);
                if parse_many::<VerificationTypeInfo>(s.skip(5), u16_at(s, 3) as nat) is Ok {
                    let n = parse_many::<VerificationTypeInfo>(s.skip(5), u16_at(s, 3) as nat)->Ok_0.1;
                    if s.len() >= 5 + n + 2 {
                        lemma_parse_many_length::<VerificationTypeInfo>(
                            s.skip(5 + n + 2),
                            u16_at(s, 5 + n) as nat,
                        );
                    }
                }
            }
        }
    }

    fn read_record(buf: &mut &[u8]) -> (r: Result<Self, DecodeError>) {
        StackMapFrame::read(buf)
    }
}

} // verus!
