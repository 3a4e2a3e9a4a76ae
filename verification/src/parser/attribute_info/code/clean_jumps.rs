use vstd::prelude::*;
use crate::error::DecodeError;
use crate::parser::attribute_info::code::code_generator::{
    decode_from, lemma_decode_at_length, listing, Instructions, InstructionsView,
};
use crate::parser::cp_info_resolved::ResolvedCpInfoView;

verus! {

/// The byte offset that a branch with a 16-bit operand carries.
pub open spec fn short_branch(inst: Instructions) -> Option<i16> {
    match inst {
        Instructions::Ifeq { offset } => Some(offset),
        Instructions::Ifne { offset } => Some(offset),
        Instructions::Iflt { offset } => Some(offset),
        Instructions::Ifge { offset } => Some(offset),
        Instructions::Ifgt { offset } => Some(offset),
        Instructions::Ifle { offset } => Some(offset),
        Instructions::IfIntEq { offset } => Some(offset),
        Instructions::IfIntNe { offset } => Some(offset),
        Instructions::IfIntLt { offset } => Some(offset),
        Instructions::IfIntGe { offset } => Some(offset),
        Instructions::IfIntGt { offset } => Some(offset),
        Instructions::IfIntLe { offset } => Some(offset),
        Instructions::IfRefEq { offset } => Some(offset),
        Instructions::IfRefNe { offset } => Some(offset),
        Instructions::Goto { offset } => Some(offset),
        Instructions::Jsr { offset } => Some(offset),
        Instructions::Ifnull { offset } => Some(offset),
        Instructions::Ifnonnull { offset } => Some(offset),
        _ => None,
    }
}

/// The branch `inst` with another offset. Other instructions stay as they
/// are.
pub open spec fn with_short_offset(inst: Instructions, offset: i16) -> Instructions {
    match inst {
        Instructions::Ifeq { .. } => Instructions::Ifeq { offset },
        Instructions::Ifne { .. } => Instructions::Ifne { offset },
        Instructions::Iflt { .. } => Instructions::Iflt { offset },
        Instructions::Ifge { .. } => Instructions::Ifge { offset },
        Instructions::Ifgt { .. } => Instructions::Ifgt { offset },
        Instructions::Ifle { .. } => Instructions::Ifle { offset },
        Instructions::IfIntEq { .. } => Instructions::IfIntEq { offset },
        Instructions::IfIntNe { .. } => Instructions::IfIntNe { offset },
        Instructions::IfIntLt { .. } => Instructions::IfIntLt { offset },
        Instructions::IfIntGe { .. } => Instructions::IfIntGe { offset },
        Instructions::IfIntGt { .. } => Instructions::IfIntGt { offset },
        Instructions::IfIntLe { .. } => Instructions::IfIntLe { offset },
        Instructions::IfRefEq { .. } => Instructions::IfRefEq { offset },
        Instructions::IfRefNe { .. } => Instructions::IfRefNe { offset },
        Instructions::Goto { .. } => Instructions::Goto { offset },
        Instructions::Jsr { .. } => Instructions::Jsr { offset },
        Instructions::Ifnull { .. } => Instructions::Ifnull { offset },
        Instructions::Ifnonnull { .. } => Instructions::Ifnonnull { offset },
        other => other,
    }
}

/// The byte offset that a branch with a 32-bit operand carries.
pub open spec fn wide_branch(inst: Instructions) -> Option<i32> {
    match inst {
        Instructions::GotoW { offset } => Some(offset),
        Instructions::JsrW { offset } => Some(offset),
        _ => None,
    }
}

/// The wide branch `inst` with another offset.
pub open spec fn with_wide_offset(inst: Instructions, offset: i32) -> Instructions {
    match inst {
        Instructions::GotoW { .. } => Instructions::GotoW { offset },
        Instructions::JsrW { .. } => Instructions::JsrW { offset },
        other => other,
    }
}

/// The deltas of every branch that the instruction can take, in the order
/// in which it holds them. An instruction that does not branch has none.
pub open spec fn targets(inst: InstructionsView) -> Seq<int> {
    match inst {
        InstructionsView::Plain(i) => if short_branch(i) is Some {
            seq![short_branch(i)->Some_0 as int]
        } else if wide_branch(i) is Some {
            seq![wide_branch(i)->Some_0 as int]
        } else {
            Seq::empty()
        },
        InstructionsView::Tableswitch { default, offsets, .. } => seq![default as int] + offsets.map_values(
            |o: i32| o as int,
        ),
        InstructionsView::Lookupswitch { default, pairs, .. } => seq![default as int] + pairs.map_values(
            |p: (i32, i32)| p.1 as int,
        ),
        _ => Seq::empty(),
    }
}

/// The instructions are listed by ascending byte position.
pub open spec fn ordered(entries: Seq<(int, InstructionsView)>) -> bool {
    forall|i: int, j: int| 0 <= i < j < entries.len() ==> entries[i].0 < entries[j].0
}

/// The index of the instruction that starts at byte `target`, if one does.
pub open spec fn index_at(entries: Seq<(int, InstructionsView)>, target: int) -> Option<int> {
    if exists|j: int| 0 <= j < entries.len() && entries[j].0 == target {
        Some(choose|j: int| 0 <= j < entries.len() && entries[j].0 == target)
    } else {
        None
    }
}

/// The branch of instruction `i` by `delta` bytes, counted in instructions:
/// the index of the instruction that starts `delta` bytes from where
/// instruction `i` starts, less `i`. There is none where no instruction
/// starts at that byte.
pub open spec fn retarget(entries: Seq<(int, InstructionsView)>, i: int, delta: int) -> Option<int> {
    match index_at(entries, entries[i].0 + delta) {
        Some(j) => Some(j - i),
        None => None,
    }
}

/// Instruction `i` with each of its branch offsets counted in instructions.
/// A branch that leads to no instruction's start is an error.
pub open spec fn clean_at(entries: Seq<(int, InstructionsView)>, i: int) -> Result<
    InstructionsView,
    DecodeError,
> {
    match entries[i].1 {
        InstructionsView::Plain(inst) => if short_branch(inst) is Some {
            match retarget(entries, i, short_branch(inst)->Some_0 as int) {
                Some(d) => Ok(InstructionsView::Plain(with_short_offset(inst, d as i16))),
                None => Err(DecodeError::BadBranchTarget),
            }
        } else if wide_branch(inst) is Some {
            match retarget(entries, i, wide_branch(inst)->Some_0 as int) {
                Some(d) => Ok(InstructionsView::Plain(with_wide_offset(inst, d as i32))),
                None => Err(DecodeError::BadBranchTarget),
            }
        } else {
            Ok(InstructionsView::Plain(inst))
        },
        InstructionsView::Tableswitch { default, low, high, offsets } => if retarget(
            entries,
            i,
            default as int,
        ) is None || exists|k: int|
            0 <= k < offsets.len() && retarget(entries, i, #[trigger] offsets[k] as int) is None {
            Err(DecodeError::BadBranchTarget)
        } else {
            Ok(
                InstructionsView::Tableswitch {
                    default: retarget(entries, i, default as int)->Some_0 as i32,
                    low,
                    high,
                    offsets: offsets.map_values(|o: i32| retarget(entries, i, o as int)->Some_0 as i32),
                },
            )
        },
        InstructionsView::Lookupswitch { default, npairs, pairs } => if retarget(
            entries,
            i,
            default as int,
        ) is None || exists|k: int|
            0 <= k < pairs.len() && retarget(entries, i, (#[trigger] pairs[k]).1 as int) is None {
            Err(DecodeError::BadBranchTarget)
        } else {
            Ok(
                InstructionsView::Lookupswitch {
                    default: retarget(entries, i, default as int)->Some_0 as i32,
                    npairs,
                    pairs: pairs.map_values(
                        |p: (i32, i32)| (p.0, retarget(entries, i, p.1 as int)->Some_0 as i32),
                    ),
                },
            )
        },
        other => Ok(other),
    }
}

/// The instructions with every branch offset counted in instructions instead
/// of bytes. One branch that leads to no instruction's start makes the whole
/// an error.
pub open spec fn clean_all(entries: Seq<(int, InstructionsView)>) -> Result<
    Seq<InstructionsView>,
    DecodeError,
> {
    if exists|i: int| 0 <= i < entries.len() && #[trigger] clean_at(entries, i) is Err {
        Err(DecodeError::BadBranchTarget)
    } else {
        Ok(Seq::new(entries.len(), |i: int| clean_at(entries, i)->Ok_0))
    }
}

/// Every branch of every instruction leads to an instruction of the
/// sequence.
pub open spec fn well_targeted(code: Seq<InstructionsView>) -> bool {
    forall|i: int, k: int|
        0 <= i < code.len() && 0 <= k < targets(code[i]).len() ==> 0 <= i + #[trigger] targets(
            code[i],
        )[k] < code.len()
}

/// What a sequence of instructions holds, as mathematical values.
pub open spec fn views(code: Seq<Instructions>) -> Seq<InstructionsView> {
    code.map_values(|i: Instructions| i@)
}

/// In an ordered listing, instructions lie at least as many bytes apart as
/// they lie instructions apart.
pub proof fn lemma_ordered_gap(entries: Seq<(int, InstructionsView)>, i: int, j: int)
    requires
        ordered(entries),
        0 <= i <= j < entries.len(),
    ensures
        entries[j].0 - entries[i].0 >= j - i,
    decreases j - i,
{
    if i < j {
        lemma_ordered_gap(entries, i, j - 1);
    }
}

/// In an ordered listing, at most one instruction starts at a byte: the
/// index found for a byte is the only one.
pub proof fn lemma_index_at_unique(entries: Seq<(int, InstructionsView)>, j: int)
    requires
        ordered(entries),
        0 <= j < entries.len(),
    ensures
        index_at(entries, entries[j].0) == Some(j),
{
    let found = choose|k: int| 0 <= k < entries.len() && entries[k].0 == entries[j].0;
    if found < j {
        assert(entries[found].0 < entries[j].0);
    }
    if j < found {
        assert(entries[j].0 < entries[found].0);
    }
}

/// A retargeted branch is no longer than the branch in bytes, and leads to
/// an instruction of the listing.
pub proof fn lemma_retarget_bounds(entries: Seq<(int, InstructionsView)>, i: int, delta: int)
    requires
        ordered(entries),
        0 <= i < entries.len(),
        retarget(entries, i, delta) is Some,
    ensures
        0 <= i + retarget(entries, i, delta)->Some_0 < entries.len(),
        entries[i + retarget(entries, i, delta)->Some_0].0 == entries[i].0 + delta,
        delta >= 0 ==> 0 <= retarget(entries, i, delta)->Some_0 <= delta,
        delta <= 0 ==> delta <= retarget(entries, i, delta)->Some_0 <= 0,
{
    let j = index_at(entries, entries[i].0 + delta)->Some_0;
    if i <= j {
        lemma_ordered_gap(entries, i, j);
    } else {
        lemma_ordered_gap(entries, j, i);
    }
}


/// The byte offset that a branch with a 16-bit operand carries.
pub fn short_branch_of(inst: &Instructions) -> (r: Option<i16>)
    ensures
        r == short_branch(*inst),
{
    match inst {
        Instructions::Ifeq { offset } => Some(*offset),
        Instructions::Ifne { offset } => Some(*offset),
        Instructions::Iflt { offset } => Some(*offset),
        Instructions::Ifge { offset } => Some(*offset),
        Instructions::Ifgt { offset } => Some(*offset),
        Instructions::Ifle { offset } => Some(*offset),
        Instructions::IfIntEq { offset } => Some(*offset),
        Instructions::IfIntNe { offset } => Some(*offset),
        Instructions::IfIntLt { offset } => Some(*offset),
        Instructions::IfIntGe { offset } => Some(*offset),
        Instructions::IfIntGt { offset } => Some(*offset),
        Instructions::IfIntLe { offset } => Some(*offset),
        Instructions::IfRefEq { offset } => Some(*offset),
        Instructions::IfRefNe { offset } => Some(*offset),
        Instructions::Goto { offset } => Some(*offset),
        Instructions::Jsr { offset } => Some(*offset),
        Instructions::Ifnull { offset } => Some(*offset),
        Instructions::Ifnonnull { offset } => Some(*offset),
        _ => None,
    }
}

/// Gives a branch with a 16-bit operand another offset.
pub fn set_short_offset(inst: Instructions, offset: i16) -> (r: Instructions)
    ensures
        r == with_short_offset(inst, offset),
{
    match inst {
        Instructions::Ifeq { .. } => Instructions::Ifeq { offset },
        Instructions::Ifne { .. } => Instructions::Ifne { offset },
        Instructions::Iflt { .. } => Instructions::Iflt { offset },
        Instructions::Ifge { .. } => Instructions::Ifge { offset },
        Instructions::Ifgt { .. } => Instructions::Ifgt { offset },
        Instructions::Ifle { .. } => Instructions::Ifle { offset },
        Instructions::IfIntEq { .. } => Instructions::IfIntEq { offset },
        Instructions::IfIntNe { .. } => Instructions::IfIntNe { offset },
        Instructions::IfIntLt { .. } => Instructions::IfIntLt { offset },
        Instructions::IfIntGe { .. } => Instructions::IfIntGe { offset },
        Instructions::IfIntGt { .. } => Instructions::IfIntGt { offset },
        Instructions::IfIntLe { .. } => Instructions::IfIntLe { offset },
        Instructions::IfRefEq { .. } => Instructions::IfRefEq { offset },
        Instructions::IfRefNe { .. } => Instructions::IfRefNe { offset },
        Instructions::Goto { .. } => Instructions::Goto { offset },
        Instructions::Jsr { .. } => Instructions::Jsr { offset },
        Instructions::Ifnull { .. } => Instructions::Ifnull { offset },
        Instructions::Ifnonnull { .. } => Instructions::Ifnonnull { offset },
        other => other,
    }
}

/// The list `positions` holds the byte at which each instruction of
/// `entries` starts.
pub open spec fn starts_match(positions: Seq<usize>, entries: Seq<(int, InstructionsView)>) -> bool {
    positions.len() == entries.len() && forall|i: int|
        0 <= i < entries.len() ==> (#[trigger] positions[i]) as int == entries[i].0
}

/// Finds the instruction that starts at byte `target`.
fn find(positions: &Vec<usize>, Ghost(entries): Ghost<Seq<(int, InstructionsView)>>, target: usize) -> (r:
    Option<usize>)
    requires
        ordered(entries),
        starts_match(positions@, entries),
    ensures
        match r {
            Some(j) => index_at(entries, target as int) == Some(j as int) && j < positions@.len(),
            None => index_at(entries, target as int) is None,
        },
{
    let mut lo: usize = 0;
    let mut hi: usize = positions.len();
    while lo < hi
        invariant
            lo <= hi <= positions@.len(),
            ordered(entries),
            starts_match(positions@, entries),
            forall|j: int| 0 <= j < lo ==> entries[j].0 < target,
            forall|j: int| hi <= j < entries.len() ==> entries[j].0 > target,
        decreases hi - lo,
    {
        let mid = lo + (hi - lo) / 2;
        let at = positions[mid];
        if at == target {
            proof {
                lemma_index_at_unique(entries, mid as int);
            }
            return Some(mid);
        } else if at < target {
            assert forall|j: int| 0 <= j < mid + 1 implies entries[j].0 < target by {
                if j < mid {
                    assert(entries[j].0 < entries[mid as int].0);
                }
            }
            lo = mid + 1;
        } else {
            assert forall|j: int| mid <= j < entries.len() implies entries[j].0 > target by {
                if mid < j {
                    assert(entries[mid as int].0 < entries[j].0);
                }
            }
            hi = mid;
        }
    }
    None
}

/// Counts the branch of instruction `i` by `delta` bytes in instructions.
fn resolve(
    positions: &Vec<usize>,
    Ghost(entries): Ghost<Seq<(int, InstructionsView)>>,
    i: usize,
    delta: i32,
) -> (r: Option<i32>)
    requires
        ordered(entries),
        starts_match(positions@, entries),
        i < positions@.len(),
    ensures
        match r {
            Some(d) => retarget(entries, i as int, delta as int) == Some(d as int) && (delta >= 0 ==> 0
                <= d <= delta) && (delta <= 0 ==> delta <= d <= 0),
            None => retarget(entries, i as int, delta as int) is None,
        },
{
    let target: i128 = positions[i] as i128 + delta as i128;
    if target < 0 || target > usize::MAX as i128 {
        assert(index_at(entries, target as int) is None) by {
            if exists|j: int| 0 <= j < entries.len() && entries[j].0 == target {
                let j = choose|j: int| 0 <= j < entries.len() && entries[j].0 == target;
                assert(positions@[j] as int == entries[j].0);
            }
        }
        return None;
    }
    match find(positions, Ghost(entries), target as usize) {
        None => None,
        Some(j) => {
            proof {
                lemma_retarget_bounds(entries, i as int, delta as int);
            }
            Some((j as i128 - i as i128) as i32)
        },
    }
}

/// Counts each offset of a table switch in instructions.
fn resolve_offsets(
    positions: &Vec<usize>,
    Ghost(entries): Ghost<Seq<(int, InstructionsView)>>,
    i: usize,
    offsets: &Vec<i32>,
) -> (r: Option<Vec<i32>>)
    requires
        ordered(entries),
        starts_match(positions@, entries),
        i < positions@.len(),
    ensures
        match r {
            Some(out) => (forall|k: int|
                0 <= k < offsets@.len() ==> retarget(entries, i as int, #[trigger] offsets@[k] as int)
                    is Some) && out@ == offsets@.map_values(
                |o: i32| retarget(entries, i as int, o as int)->Some_0 as i32,
            ),
            None => exists|k: int|
                0 <= k < offsets@.len() && retarget(entries, i as int, #[trigger] offsets@[k] as int)
                    is None,
        },
{
    let mut out: Vec<i32> = Vec::new();
    let mut k: usize = 0;
    while k < offsets.len()
        invariant
            k <= offsets@.len(),
            ordered(entries),
            starts_match(positions@, entries),
            i < positions@.len(),
            out@.len() == k,
            forall|m: int|
                0 <= m < k ==> retarget(entries, i as int, #[trigger] offsets@[m] as int) is Some,
            forall|m: int|
                0 <= m < k ==> #[trigger] out@[m] == retarget(
                    entries,
                    i as int,
                    offsets@[m] as int,
                )->Some_0 as i32,
        decreases offsets@.len() - k,
    {
        match resolve(positions, Ghost(entries), i, offsets[k]) {
            None => {
                return None;
            },
            Some(d) => {
                out.push(d);
            },
        }
        k += 1;
    }
    assert(out@ =~= offsets@.map_values(|o: i32| retarget(entries, i as int, o as int)->Some_0 as i32));
    Some(out)
}

/// Counts each offset of a lookup switch in instructions.
fn resolve_pairs(
    positions: &Vec<usize>,
    Ghost(entries): Ghost<Seq<(int, InstructionsView)>>,
    i: usize,
    pairs: &Vec<(i32, i32)>,
) -> (r: Option<Vec<(i32, i32)>>)
    requires
        ordered(entries),
        starts_match(positions@, entries),
        i < positions@.len(),
    ensures
        match r {
            Some(out) => (forall|k: int|
                0 <= k < pairs@.len() ==> retarget(entries, i as int, (#[trigger] pairs@[k]).1 as int)
                    is Some) && out@ == pairs@.map_values(
                |p: (i32, i32)| (p.0, retarget(entries, i as int, p.1 as int)->Some_0 as i32),
            ),
            None => exists|k: int|
                0 <= k < pairs@.len() && retarget(entries, i as int, (#[trigger] pairs@[k]).1 as int)
                    is None,
        },
{
    let mut out: Vec<(i32, i32)> = Vec::new();
    let mut k: usize = 0;
    while k < pairs.len()
        invariant
            k <= pairs@.len(),
            ordered(entries),
            starts_match(positions@, entries),
            i < positions@.len(),
            out@.len() == k,
            forall|m: int|
                0 <= m < k ==> retarget(entries, i as int, (#[trigger] pairs@[m]).1 as int) is Some,
            forall|m: int|
                0 <= m < k ==> #[trigger] out@[m] == (
                    pairs@[m].0,
                    retarget(entries, i as int, pairs@[m].1 as int)->Some_0 as i32,
                ),
        decreases pairs@.len() - k,
    {
        let pair = pairs[k];
        match resolve(positions, Ghost(entries), i, pair.1) {
            None => {
                return None;
            },
            Some(d) => {
                out.push((pair.0, d));
            },
        }
        k += 1;
    }
    assert(out@ =~= pairs@.map_values(
        |p: (i32, i32)| (p.0, retarget(entries, i as int, p.1 as int)->Some_0 as i32),
    ));
    Some(out)
}

/// Counts the branch offsets of instruction `i` in instructions.
fn clean_one(
    positions: &Vec<usize>,
    Ghost(entries): Ghost<Seq<(int, InstructionsView)>>,
    i: usize,
    inst: Instructions,
) -> (r: Result<Instructions, DecodeError>)
    requires
        ordered(entries),
        starts_match(positions@, entries),
        i < positions@.len(),
        entries[i as int].1 == inst@,
    ensures
        match r {
            Ok(cleaned) => clean_at(entries, i as int) == Ok::<InstructionsView, DecodeError>(cleaned@),
            Err(e) => clean_at(entries, i as int) == Err::<InstructionsView, DecodeError>(e),
        },
{
    match inst {
        Instructions::Tableswitch { default, low, high, offsets } => {
            let new_default = match resolve(positions, Ghost(entries), i, default) {
                None => { return Err(DecodeError::BadBranchTarget); },
                Some(d) => d,
            };
            let new_offsets = match resolve_offsets(positions, Ghost(entries), i, &offsets) {
                None => { return Err(DecodeError::BadBranchTarget); },
                Some(o) => o,
            };
            Ok(Instructions::Tableswitch { default: new_default, low, high, offsets: new_offsets })
        },
        Instructions::Lookupswitch { default, npairs, pairs } => {
            let new_default = match resolve(positions, Ghost(entries), i, default) {
                None => { return Err(DecodeError::BadBranchTarget); },
                Some(d) => d,
            };
            let new_pairs = match resolve_pairs(positions, Ghost(entries), i, &pairs) {
                None => { return Err(DecodeError::BadBranchTarget); },
                Some(p) => p,
            };
            Ok(Instructions::Lookupswitch { default: new_default, npairs, pairs: new_pairs })
        },
        Instructions::GotoW { offset } => {
            match resolve(positions, Ghost(entries), i, offset) {
                None => Err(DecodeError::BadBranchTarget),
                Some(d) => Ok(Instructions::GotoW { offset: d }),
            }
        },
        Instructions::JsrW { offset } => {
            match resolve(positions, Ghost(entries), i, offset) {
                None => Err(DecodeError::BadBranchTarget),
                Some(d) => Ok(Instructions::JsrW { offset: d }),
            }
        },
        other => {
            match short_branch_of(&other) {
                None => Ok(other),
                Some(offset) => {
                    match resolve(positions, Ghost(entries), i, offset as i32) {
                        None => Err(DecodeError::BadBranchTarget),
                        Some(d) => Ok(set_short_offset(other, d as i16)),
                    }
                },
            }
        },
    }
}

/// A cleaned listing is well targeted.
pub proof fn lemma_clean_all_targets(entries: Seq<(int, InstructionsView)>)
    requires
        ordered(entries),
        clean_all(entries) is Ok,
    ensures
        well_targeted(clean_all(entries)->Ok_0),
{
    let code = clean_all(entries)->Ok_0;
    assert forall|i: int, k: int| 0 <= i < code.len() && 0 <= k < targets(code[i]).len() implies 0 <= i
        + #[trigger] targets(code[i])[k] < code.len() by {
        assert(clean_at(entries, i) is Ok);
        match entries[i].1 {
            InstructionsView::Plain(inst) => {
                if short_branch(inst) is Some {
                    lemma_retarget_bounds(entries, i, short_branch(inst)->Some_0 as int);
                } else if wide_branch(inst) is Some {
                    lemma_retarget_bounds(entries, i, wide_branch(inst)->Some_0 as int);
                }
            },
            InstructionsView::Tableswitch { default, low, high, offsets } => {
                if k == 0 {
                    lemma_retarget_bounds(entries, i, default as int);
                } else {
                    assert(retarget(entries, i, offsets[k - 1] as int) is Some);
                    lemma_retarget_bounds(entries, i, offsets[k - 1] as int);
                }
            },
            InstructionsView::Lookupswitch { default, npairs, pairs } => {
                if k == 0 {
                    lemma_retarget_bounds(entries, i, default as int);
                } else {
                    assert(retarget(entries, i, pairs[k - 1].1 as int) is Some);
                    lemma_retarget_bounds(entries, i, pairs[k - 1].1 as int);
                }
            },
            _ => {},
        }
    }
}

/// Rewrites every branch offset of a decoded method body from bytes to
/// instructions, and drops the byte positions.
///
/// `map` lists the instructions by ascending byte position, each with the
/// byte at which it starts. A branch by `d` bytes from an instruction becomes
/// a branch by the number of instructions that lie between it and the
/// instruction that starts `d` bytes from its own start. Afterwards every
/// branch leads to an instruction of the result. If one branch leads to no
/// instruction's start, nothing is returned but the error.
pub fn clean(map: Vec<(usize, Instructions)>) -> (r: Result<Vec<Instructions>, DecodeError>)
    requires
        ordered(listing(map@)),
    ensures
        match r {
            Ok(code) => clean_all(listing(map@)) == Ok::<Seq<InstructionsView>, DecodeError>(
                views(code@),
            ) && well_targeted(views(code@)),
            Err(e) => clean_all(listing(map@)) == Err::<Seq<InstructionsView>, DecodeError>(e),
        },
{
    let ghost entries = listing(map@);
    let n = map.len();
    let mut positions: Vec<usize> = Vec::new();
    let mut p: usize = 0;
    while p < n
        invariant
            p <= n,
            n == map@.len(),
            positions@.len() == p,
            forall|j: int| 0 <= j < p ==> #[trigger] positions@[j] == map@[j].0,
        decreases n - p,
    {
        positions.push(map[p].0);
        p += 1;
    }
    assert(starts_match(positions@, entries));
    let mut rest = map;
    let mut reversed: Vec<Instructions> = Vec::new();
    let mut i: usize = n;
    while i > 0
        invariant
            i <= n,
            n == entries.len(),
            entries == listing(map@),
            ordered(entries),
            starts_match(positions@, entries),
            rest@ == map@.take(i as int),
            reversed@.len() == n - i,
            forall|k: int|
                0 <= k < n - i ==> clean_at(entries, n - 1 - k) == Ok::<InstructionsView, DecodeError>(
                    (#[trigger] reversed@[k])@,
                ),
        decreases i,
    {
        let last = rest.pop();
        i = i - 1;
        assert(rest@ =~= map@.take(i as int));
        let (_, inst) = last.unwrap();
        assert(entries[i as int].1 == inst@);
        match clean_one(&positions, Ghost(entries), i, inst) {
            Err(e) => {
                assert(clean_at(entries, i as int) is Err);
                return Err(DecodeError::BadBranchTarget);
            },
            Ok(cleaned) => {
                reversed.push(cleaned);
            },
        }
    }
    let mut code: Vec<Instructions> = Vec::new();
    let ghost all = reversed@;
    let mut m: usize = n;
    while m > 0
        invariant
            m <= n,
            all.len() == n,
            reversed@ == all.take(m as int),
            code@.len() == n - m,
            forall|k: int| 0 <= k < n - m ==> #[trigger] code@[k] == all[n - 1 - k],
        decreases m,
    {
        let last = reversed.pop();
        m = m - 1;
        assert(reversed@ =~= all.take(m as int));
        code.push(last.unwrap());
    }
    proof {
        assert forall|k: int| 0 <= k < n implies #[trigger] clean_at(entries, k) == Ok::<
            InstructionsView,
            DecodeError,
        >(views(code@)[k]) by {
            assert(code@[k] == all[n - 1 - k]);
            assert(clean_at(entries, n - 1 - (n - 1 - k)) == Ok::<InstructionsView, DecodeError>(
                all[n - 1 - k]@,
            ));
        }
        assert(!(exists|k: int| 0 <= k < entries.len() && #[trigger] clean_at(entries, k) is Err));
        assert(views(code@) =~= Seq::new(entries.len(), |k: int| clean_at(entries, k)->Ok_0));
        lemma_clean_all_targets(entries);
    }
    Ok(code)
}


/// What the decoder lists is ordered by byte position.
pub proof fn lemma_decoded_ordered(code: Seq<u8>, pos: int, pool: Seq<ResolvedCpInfoView>)
    requires
        0 <= pos,
    ensures
        decode_from(code, pos, pool) is Ok ==> ordered(decode_from(code, pos, pool)->Ok_0) && forall|
            k: int,
        |
            0 <= k < decode_from(code, pos, pool)->Ok_0.len() ==> (#[trigger] decode_from(
                code,
                pos,
                pool,
            )->Ok_0[k]).0 >= pos,
    decreases code.len() - pos,
{
    if pos < code.len() && decode_from(code, pos, pool) is Ok {
        lemma_decode_at_length(code, pos, pool);
        let n = decode_at_length(code, pos, pool);
        lemma_decoded_ordered(code, pos + n, pool);
    }
}

/// The number of bytes that the instruction at byte `pos` takes.
pub open spec fn decode_at_length(code: Seq<u8>, pos: int, pool: Seq<ResolvedCpInfoView>) -> int {
    crate::parser::attribute_info::code::code_generator::decode_at(code, pos, pool)->Ok_0.1
}

} // verus!
