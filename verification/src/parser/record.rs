use vstd::prelude::*;
use crate::error::DecodeError;
use crate::helpers::{be_u16, get_u16};

verus! {

/// An item of a class file that is read from the front of a buffer.
///
/// `parse` says which value the bytes hold and how many of them belong to
/// it, or why they hold none; `read_record` is held to it.
pub trait Record: View + Sized {
    /// The value at the front of `s` and the number of bytes it takes.
    spec fn parse(s: Seq<u8>) -> Result<(Self::V, int), DecodeError>;

    /// A value takes no more bytes than there are.
    proof fn lemma_parse_length(s: Seq<u8>)
        ensures
            Self::parse(s) is Ok ==> 0 <= Self::parse(s)->Ok_0.1 <= s.len(),
    ;

    /// Reads one value from the front of `buf` and advances past it.
    fn read_record(buf: &mut &[u8]) -> (r: Result<Self, DecodeError>)
        ensures
            read_as(r, Self::parse(old(buf)@), old(buf)@, final(buf)@),
    ;
}

/// The outcome `r` of a read that took the buffer from `before` to `after`
/// is what `expected` says: the value is the parsed one and exactly its
/// bytes are gone from the front, or the error is the parse's error.
pub open spec fn read_as<T: View>(
    r: Result<T, DecodeError>,
    expected: Result<(T::V, int), DecodeError>,
    before: Seq<u8>,
    after: Seq<u8>,
) -> bool {
    match r {
        Ok(v) => expected is Ok && expected->Ok_0.0 == v@ && 0 <= expected->Ok_0.1 <= before.len()
            && after == before.skip(expected->Ok_0.1),
        Err(e) => expected == Err::<(T::V, int), DecodeError>(e),
    }
}

/// What a list of items holds, as mathematical values.
pub open spec fn models<T: View>(items: Seq<T>) -> Seq<T::V> {
    items.map_values(|item: T| item@)
}

/// `count` values in a row at the front of `s`, and the number of bytes they
/// take together. The first error ends the row.
pub open spec fn parse_many<T: Record>(s: Seq<u8>, count: nat) -> Result<
    (Seq<T::V>, int),
    DecodeError,
>
    decreases count,
{
    if count == 0 {
        Ok((Seq::empty(), 0))
    } else {
        match parse_many::<T>(s, (count - 1) as nat) {
            Err(e) => Err(e),
            Ok((front, n)) => match T::parse(s.skip(n)) {
                Err(e) => Err(e),
                Ok((last, m)) => Ok((front.push(last), n + m)),
            },
        }
    }
}

/// Values in a row take no more bytes than there are, and there are as many
/// as were asked for.
pub proof fn lemma_parse_many_length<T: Record>(s: Seq<u8>, count: nat)
    ensures
        parse_many::<T>(s, count) is Ok ==> 0 <= parse_many::<T>(s, count)->Ok_0.1 <= s.len()
            && parse_many::<T>(s, count)->Ok_0.0.len() == count,
    decreases count,
{
    if count > 0 {
        lemma_parse_many_length::<T>(s, (count - 1) as nat);
        if parse_many::<T>(s, (count - 1) as nat) is Ok {
            let n = parse_many::<T>(s, (count - 1) as nat)->Ok_0.1;
            T::lemma_parse_length(s.skip(n));
        }
    }
}

/// Once a row of values fails to parse, so does every longer row, with the
/// same error.
pub proof fn lemma_parse_many_tail<T: Record>(s: Seq<u8>, k: nat, count: nat)
    requires
        k <= count,
        parse_many::<T>(s, k) is Err,
    ensures
        parse_many::<T>(s, count) == parse_many::<T>(s, k),
    decreases count - k,
{
    if k < count {
        lemma_parse_many_tail::<T>(s, k, (count - 1) as nat);
    }
}

/// What `read_many` and its like return: the outcome `r` of reading a row of
/// values, which took the buffer from `before` to `after`, is what
/// `expected` says.
pub open spec fn read_many_as<T: View>(
    r: Result<Vec<T>, DecodeError>,
    expected: Result<(Seq<T::V>, int), DecodeError>,
    before: Seq<u8>,
    after: Seq<u8>,
) -> bool {
    match r {
        Ok(items) => expected is Ok && expected->Ok_0.0 == models(items@) && 0 <= expected->Ok_0.1
            <= before.len() && after == before.skip(expected->Ok_0.1),
        Err(e) => expected == Err::<(Seq<T::V>, int), DecodeError>(e),
    }
}

/// Reads `count` values in a row from the front of `buf`.
pub fn read_many<T: Record>(buf: &mut &[u8], count: usize) -> (r: Result<Vec<T>, DecodeError>)
    ensures
        read_many_as(r, parse_many::<T>(old(buf)@, count as nat), old(buf)@, final(buf)@),
{
    let ghost start = buf@;
    let mut items: Vec<T> = Vec::new();
    let mut k: usize = 0;
    assert(models(items@) =~= Seq::<T::V>::empty());
    assert(start.skip(0) =~= start);
    while k < count
        invariant
            k <= count,
            start == old(buf)@,
            parse_many::<T>(start, k as nat) is Ok,
            parse_many::<T>(start, k as nat)->Ok_0.0 == models(items@),
            0 <= parse_many::<T>(start, k as nat)->Ok_0.1 <= start.len(),
            buf@ == start.skip(parse_many::<T>(start, k as nat)->Ok_0.1),
        decreases count - k,
    {
        let ghost used = parse_many::<T>(start, k as nat)->Ok_0.1;
        let ghost before = models(items@);
        proof {
            T::lemma_parse_length(buf@);
        }
        let item = match T::read_record(buf) {
            Err(e) => {
                proof {
                    assert(parse_many::<T>(start, (k + 1) as nat) is Err);
                    lemma_parse_many_tail::<T>(start, (k + 1) as nat, count as nat);
                }
                return Err(e);
            },
            Ok(item) => item,
        };
        let ghost m = item@;
        items.push(item);
        proof {
            assert(models(items@) =~= before.push(m));
            assert(start.skip(used).skip(T::parse(start.skip(used))->Ok_0.1) =~= start.skip(
                used + T::parse(start.skip(used))->Ok_0.1,
            ));
        }
        k += 1;
    }
    Ok(items)
}

impl Record for u16 {
    open spec fn parse(s: Seq<u8>) -> Result<(u16, int), DecodeError> {
        if s.len() < 2 {
            Err(DecodeError::UnexpectedEnd)
        } else {
            Ok((be_u16(s), 2))
        }
    }

    proof fn lemma_parse_length(s: Seq<u8>) {
    }

    fn read_record(buf: &mut &[u8]) -> (r: Result<Self, DecodeError>) {
        get_u16(buf)
    }
}

} // verus!
