use vstd::prelude::*;
use crate::error::DecodeError;

verus! {

/// The unsigned 16-bit number whose big-endian bytes are `hi`, `lo`.
pub open spec fn u16_of(hi: u8, lo: u8) -> u16 {
    (hi * 256 + lo) as u16
}

/// The unsigned 32-bit number whose big-endian bytes are `b0` to `b3`.
pub open spec fn u32_of(b0: u8, b1: u8, b2: u8, b3: u8) -> u32 {
    (b0 * 16777216 + b1 * 65536 + b2 * 256 + b3) as u32
}

/// The signed byte with the same bit pattern as `v`.
pub open spec fn i8_of(v: u8) -> i8 {
    if v < 128 { v as i8 } else { (v - 256) as i8 }
}

/// The signed 16-bit number with the same bit pattern as `v`.
pub open spec fn i16_of(v: u16) -> i16 {
    if v < 32768 { v as i16 } else { (v - 65536) as i16 }
}

/// The signed 32-bit number with the same bit pattern as `v`.
pub open spec fn i32_of(v: u32) -> i32 {
    if v < 2147483648 { v as i32 } else { (v - 4294967296) as i32 }
}

/// The signed 64-bit number with the same bit pattern as `v`.
pub open spec fn i64_of(v: u64) -> i64 {
    if v < 9223372036854775808 { v as i64 } else { (v - 18446744073709551616) as i64 }
}

/// The big-endian 16-bit number at the front of `s`.
pub open spec fn be_u16(s: Seq<u8>) -> u16
    recommends
        s.len() >= 2,
{
    u16_of(s[0], s[1])
}

/// The big-endian 32-bit number at the front of `s`.
pub open spec fn be_u32(s: Seq<u8>) -> u32
    recommends
        s.len() >= 4,
{
    u32_of(s[0], s[1], s[2], s[3])
}

/// The big-endian 16-bit number at byte `i` of `s`.
pub open spec fn u16_at(s: Seq<u8>, i: int) -> u16 {
    u16_of(s[i], s[i + 1])
}

/// The big-endian 32-bit number at byte `i` of `s`.
pub open spec fn u32_at(s: Seq<u8>, i: int) -> u32 {
    u32_of(s[i], s[i + 1], s[i + 2], s[i + 3])
}

/// Reinterprets an unsigned byte as a signed one.
pub fn to_i8(v: u8) -> (r: i8)
    ensures
        r == i8_of(v),
{
    if v < 128 {
        v as i8
    } else {
        ((v - 128) as i8) + i8::MIN
    }
}

/// Reinterprets an unsigned 16-bit number as a signed one.
pub fn to_i16(v: u16) -> (r: i16)
    ensures
        r == i16_of(v),
{
    if v < 32768 {
        v as i16
    } else {
        ((v - 32768) as i16) + i16::MIN
    }
}

/// Reinterprets an unsigned 32-bit number as a signed one.
pub fn to_i32(v: u32) -> (r: i32)
    ensures
        r == i32_of(v),
{
    if v < 2147483648 {
        v as i32
    } else {
        ((v - 2147483648) as i32) + i32::MIN
    }
}

/// Reinterprets an unsigned 64-bit number as a signed one.
pub fn to_i64(v: u64) -> (r: i64)
    ensures
        r == i64_of(v),
{
    if v < 9223372036854775808 {
        v as i64
    } else {
        ((v - 9223372036854775808) as i64) + i64::MIN
    }
}

/// Takes one unsigned byte from the front of `buf`.
///
/// With an empty buffer nothing is consumed and the end of input is reported.
pub fn get_u8(buf: &mut &[u8]) -> (r: Result<u8, DecodeError>)
    ensures
        match r {
            Ok(v) => old(buf)@.len() >= 1 && v == old(buf)@[0] && final(buf)@ == old(buf)@.skip(1),
            Err(e) => old(buf)@.len() < 1 && e == DecodeError::UnexpectedEnd && final(buf)@ == old(buf)@,
        },
{
    if buf.len() < 1 {
        return Err(DecodeError::UnexpectedEnd);
    }
    let (head, tail) = buf.split_at(1);
    *buf = tail;
    Ok(head[0])
}

/// Takes one signed byte from the front of `buf`.
pub fn get_i8(buf: &mut &[u8]) -> (r: Result<i8, DecodeError>)
    ensures
        match r {
            Ok(v) => old(buf)@.len() >= 1 && v == i8_of(old(buf)@[0]) && final(buf)@ == old(buf)@.skip(1),
            Err(e) => old(buf)@.len() < 1 && e == DecodeError::UnexpectedEnd && final(buf)@ == old(buf)@,
        },
{
    let b = get_u8(buf)?;
    Ok(to_i8(b))
}

/// Takes a big-endian unsigned 16-bit number from the front of `buf`.
pub fn get_u16(buf: &mut &[u8]) -> (r: Result<u16, DecodeError>)
    ensures
        match r {
            Ok(v) => old(buf)@.len() >= 2 && v == be_u16(old(buf)@) && final(buf)@ == old(buf)@.skip(2),
            Err(e) => old(buf)@.len() < 2 && e == DecodeError::UnexpectedEnd && final(buf)@ == old(buf)@,
        },
{
    if buf.len() < 2 {
        return Err(DecodeError::UnexpectedEnd);
    }
    let (head, tail) = buf.split_at(2);
    *buf = tail;
    let hi: u16 = head[0] as u16;
    let lo: u16 = head[1] as u16;
    Ok(hi * 256 + lo)
}

/// Takes a big-endian signed 16-bit number from the front of `buf`.
pub fn get_i16(buf: &mut &[u8]) -> (r: Result<i16, DecodeError>)
    ensures
        match r {
            Ok(v) => old(buf)@.len() >= 2 && v == i16_of(be_u16(old(buf)@)) && final(buf)@ == old(buf)@.skip(2),
            Err(e) => old(buf)@.len() < 2 && e == DecodeError::UnexpectedEnd && final(buf)@ == old(buf)@,
        },
{
    let v = get_u16(buf)?;
    Ok(to_i16(v))
}

/// Takes a big-endian unsigned 32-bit number from the front of `buf`.
pub fn get_u32(buf: &mut &[u8]) -> (r: Result<u32, DecodeError>)
    ensures
        match r {
            Ok(v) => old(buf)@.len() >= 4 && v == be_u32(old(buf)@) && final(buf)@ == old(buf)@.skip(4),
            Err(e) => old(buf)@.len() < 4 && e == DecodeError::UnexpectedEnd && final(buf)@ == old(buf)@,
        },
{
    if buf.len() < 4 {
        return Err(DecodeError::UnexpectedEnd);
    }
    let (head, tail) = buf.split_at(4);
    *buf = tail;
    let b0: u32 = head[0] as u32;
    let b1: u32 = head[1] as u32;
    let b2: u32 = head[2] as u32;
    let b3: u32 = head[3] as u32;
    Ok(b0 * 16777216 + b1 * 65536 + b2 * 256 + b3)
}

/// Takes a big-endian signed 32-bit number from the front of `buf`.
pub fn get_i32(buf: &mut &[u8]) -> (r: Result<i32, DecodeError>)
    ensures
        match r {
            Ok(v) => old(buf)@.len() >= 4 && v == i32_of(be_u32(old(buf)@)) && final(buf)@ == old(buf)@.skip(4),
            Err(e) => old(buf)@.len() < 4 && e == DecodeError::UnexpectedEnd && final(buf)@ == old(buf)@,
        },
{
    let v = get_u32(buf)?;
    Ok(to_i32(v))
}

/// Takes the first `n` bytes of `buf` as an owned vector.
pub fn take_n(n: usize, buf: &mut &[u8]) -> (r: Result<Vec<u8>, DecodeError>)
    ensures
        match r {
            Ok(v) => old(buf)@.len() >= n && v@ == old(buf)@.take(n as int) && final(buf)@ == old(buf)@.skip(n as int),
            Err(e) => old(buf)@.len() < n && e == DecodeError::UnexpectedEnd && final(buf)@ == old(buf)@,
        },
{
    if buf.len() < n {
        return Err(DecodeError::UnexpectedEnd);
    }
    let (head, tail) = buf.split_at(n);
    *buf = tail;
    let mut out: Vec<u8> = Vec::new();
    let mut i: usize = 0;
    while i < n
        invariant
            i <= n,
            head@.len() == n,
            out@ == head@.take(i as int),
        decreases n - i,
    {
        out.push(head[i]);
        i += 1;
        assert(out@ =~= head@.take(i as int));
    }
    assert(head@.take(n as int) =~= head@);
    Ok(out)
}


/// Takes the first `n` bytes of `buf` as a slice of their own.
pub fn take_slice<'a>(n: usize, buf: &mut &'a [u8]) -> (r: Result<&'a [u8], DecodeError>)
    ensures
        match r {
            Ok(head) => old(buf)@.len() >= n && head@ == old(buf)@.take(n as int) && final(buf)@
                == old(buf)@.skip(n as int),
            Err(e) => old(buf)@.len() < n && e == DecodeError::UnexpectedEnd && final(buf)@ == old(buf)@,
        },
{
    if buf.len() < n {
        return Err(DecodeError::UnexpectedEnd);
    }
    let (head, tail) = buf.split_at(n);
    *buf = tail;
    Ok(head)
}


/// The big-endian 64-bit number at the front of `s`.
pub open spec fn be_u64(s: Seq<u8>) -> u64
    recommends
        s.len() >= 8,
{
    (be_u32(s) * 4294967296 + be_u32(s.skip(4))) as u64
}

/// Takes a big-endian unsigned 64-bit number from the front of `buf`.
pub fn get_u64(buf: &mut &[u8]) -> (r: Result<u64, DecodeError>)
    ensures
        match r {
            Ok(v) => old(buf)@.len() >= 8 && v == be_u64(old(buf)@) && final(buf)@ == old(buf)@.skip(8),
            Err(e) => old(buf)@.len() < 8 && e == DecodeError::UnexpectedEnd && final(buf)@ == old(buf)@,
        },
{
    if buf.len() < 8 {
        return Err(DecodeError::UnexpectedEnd);
    }
    let high = get_u32(buf)?;
    let low = get_u32(buf)?;
    assert(buf@ =~= old(buf)@.skip(8));
    Ok((high as u64) * 4294967296 + (low as u64))
}

/// Takes a big-endian signed 64-bit number from the front of `buf`.
pub fn get_i64(buf: &mut &[u8]) -> (r: Result<i64, DecodeError>)
    ensures
        match r {
            Ok(v) => old(buf)@.len() >= 8 && v == i64_of(be_u64(old(buf)@)) && final(buf)@
                == old(buf)@.skip(8),
            Err(e) => old(buf)@.len() < 8 && e == DecodeError::UnexpectedEnd && final(buf)@ == old(buf)@,
        },
{
    let v = get_u64(buf)?;
    Ok(to_i64(v))
}

} // verus!
