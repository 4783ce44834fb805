//! Little-endian integers: their encodings, and reading them back.
use vstd::prelude::*;
use crate::error::Error;

verus! {

pub open spec fn le_u16(x: u16) -> Seq<u8> {
    seq![(x & 0xff) as u8, ((x >> 8) & 0xff) as u8]
}

pub open spec fn le_u32(x: u32) -> Seq<u8> {
    seq![(x & 0xff) as u8, ((x >> 8) & 0xff) as u8, ((x >> 16) & 0xff) as u8, ((x >> 24) & 0xff) as u8]
}

pub open spec fn le_u64(x: u64) -> Seq<u8> {
    seq![
        (x & 0xff) as u8, ((x >> 8) & 0xff) as u8, ((x >> 16) & 0xff) as u8, ((x >> 24) & 0xff) as u8,
        ((x >> 32) & 0xff) as u8, ((x >> 40) & 0xff) as u8, ((x >> 48) & 0xff) as u8, ((x >> 56) & 0xff) as u8
    ]
}

pub open spec fn u16_of(b0: u8, b1: u8) -> u16 {
    (b0 as u16) | ((b1 as u16) << 8)
}

pub open spec fn u32_of(b0: u8, b1: u8, b2: u8, b3: u8) -> u32 {
    (b0 as u32) | ((b1 as u32) << 8) | ((b2 as u32) << 16) | ((b3 as u32) << 24)
}

pub open spec fn u64_of(lo: u32, hi: u32) -> u64 {
    (lo as u64) | ((hi as u64) << 32)
}

/// Reads a byte from the front of `s`: the value and the bytes it took.
pub open spec fn de_u8(s: Seq<u8>) -> Result<(u8, int), Error> {
    if s.len() < 1 { Err(Error::UnexpectedEof) } else { Ok((s[0], 1)) }
}

pub open spec fn de_u16(s: Seq<u8>) -> Result<(u16, int), Error> {
    if s.len() < 2 { Err(Error::UnexpectedEof) } else { Ok((u16_of(s[0], s[1]), 2)) }
}

pub open spec fn de_u32(s: Seq<u8>) -> Result<(u32, int), Error> {
    if s.len() < 4 {
        Err(Error::UnexpectedEof)
    } else {
        Ok((u32_of(s[0], s[1], s[2], s[3]), 4))
    }
}

pub open spec fn de_u64(s: Seq<u8>) -> Result<(u64, int), Error> {
    if s.len() < 8 {
        Err(Error::UnexpectedEof)
    } else {
        Ok((u64_of(u32_of(s[0], s[1], s[2], s[3]), u32_of(s[4], s[5], s[6], s[7])), 8))
    }
}

pub proof fn lemma_u16_roundtrip(x: u16, rest: Seq<u8>)
    ensures
        de_u16(le_u16(x) + rest) == Ok::<(u16, int), Error>((x, 2)),
{
    let s = le_u16(x) + rest;
    assert(s[0] == le_u16(x)[0] && s[1] == le_u16(x)[1]);
    assert(u16_of((x & 0xff) as u8, ((x >> 8) & 0xff) as u8) == x) by (bit_vector);
}

pub proof fn lemma_u32_roundtrip(x: u32, rest: Seq<u8>)
    ensures
        de_u32(le_u32(x) + rest) == Ok::<(u32, int), Error>((x, 4)),
{
    let s = le_u32(x) + rest;
    assert(s[0] == le_u32(x)[0] && s[1] == le_u32(x)[1] && s[2] == le_u32(x)[2] && s[3] == le_u32(x)[3]);
    assert(u32_of((x & 0xff) as u8, ((x >> 8) & 0xff) as u8, ((x >> 16) & 0xff) as u8, ((x >> 24) & 0xff) as u8) == x) by (bit_vector);
}

pub proof fn lemma_u64_roundtrip(x: u64, rest: Seq<u8>)
    ensures
        de_u64(le_u64(x) + rest) == Ok::<(u64, int), Error>((x, 8)),
{
    let s = le_u64(x) + rest;
    assert(forall|i: int| 0 <= i < 8 ==> s[i] == le_u64(x)[i]);
    assert(s[0] == le_u64(x)[0]);
    assert(s[1] == le_u64(x)[1]);
    assert(s[2] == le_u64(x)[2]);
    assert(s[3] == le_u64(x)[3]);
    assert(s[4] == le_u64(x)[4]);
    assert(s[5] == le_u64(x)[5]);
    assert(s[6] == le_u64(x)[6]);
    assert(s[7] == le_u64(x)[7]);
    assert(u64_of(
        u32_of((x & 0xff) as u8, ((x >> 8) & 0xff) as u8, ((x >> 16) & 0xff) as u8, ((x >> 24) & 0xff) as u8),
        u32_of(((x >> 32) & 0xff) as u8, ((x >> 40) & 0xff) as u8, ((x >> 48) & 0xff) as u8, ((x >> 56) & 0xff) as u8),
    ) == x) by (bit_vector);
}

pub fn write_u8(out: &mut Vec<u8>, x: u8)
    ensures
        final(out)@ == old(out)@ + seq![x],
{
    out.push(x);
    assert(final(out)@ =~= old(out)@ + seq![x]);
}

pub fn write_u16(out: &mut Vec<u8>, x: u16)
    ensures
        final(out)@ == old(out)@ + le_u16(x),
{
    out.push((x & 0xff) as u8);
    out.push(((x >> 8) & 0xff) as u8);
    assert(final(out)@ =~= old(out)@ + le_u16(x));
}

pub fn write_u32(out: &mut Vec<u8>, x: u32)
    ensures
        final(out)@ == old(out)@ + le_u32(x),
{
    out.push((x & 0xff) as u8);
    out.push(((x >> 8) & 0xff) as u8);
    out.push(((x >> 16) & 0xff) as u8);
    out.push(((x >> 24) & 0xff) as u8);
    assert(final(out)@ =~= old(out)@ + le_u32(x));
}

pub fn write_u64(out: &mut Vec<u8>, x: u64)
    ensures
        final(out)@ == old(out)@ + le_u64(x),
{
    out.push((x & 0xff) as u8);
    out.push(((x >> 8) & 0xff) as u8);
    out.push(((x >> 16) & 0xff) as u8);
    out.push(((x >> 24) & 0xff) as u8);
    out.push(((x >> 32) & 0xff) as u8);
    out.push(((x >> 40) & 0xff) as u8);
    out.push(((x >> 48) & 0xff) as u8);
    out.push(((x >> 56) & 0xff) as u8);
    assert(final(out)@ =~= old(out)@ + le_u64(x));
}

pub fn read_u8(bytes: &[u8], pos: usize) -> (r: Result<(u8, usize), Error>)
    requires
        pos <= bytes@.len(),
    ensures
        match de_u8(bytes@.skip(pos as int)) {
            Ok((v, n)) => r matches Ok((x, p)) && x == v && p == pos + n,
            Err(e) => r == Err::<(u8, usize), Error>(e),
        },
{
    if bytes.len() - pos < 1 {
        return Err(Error::UnexpectedEof);
    }
    Ok((bytes[pos], pos + 1))
}

pub fn read_u16(bytes: &[u8], pos: usize) -> (r: Result<(u16, usize), Error>)
    requires
        pos <= bytes@.len(),
    ensures
        match de_u16(bytes@.skip(pos as int)) {
            Ok((v, n)) => r matches Ok((x, p)) && x == v && p == pos + n,
            Err(e) => r == Err::<(u16, usize), Error>(e),
        },
{
    if bytes.len() - pos < 2 {
        return Err(Error::UnexpectedEof);
    }
    let v = (bytes[pos] as u16) | ((bytes[pos + 1] as u16) << 8);
    Ok((v, pos + 2))
}

pub fn read_u32(bytes: &[u8], pos: usize) -> (r: Result<(u32, usize), Error>)
    requires
        pos <= bytes@.len(),
    ensures
        match de_u32(bytes@.skip(pos as int)) {
            Ok((v, n)) => r matches Ok((x, p)) && x == v && p == pos + n,
            Err(e) => r == Err::<(u32, usize), Error>(e),
        },
{
    if bytes.len() - pos < 4 {
        return Err(Error::UnexpectedEof);
    }
    let v = (bytes[pos] as u32) | ((bytes[pos + 1] as u32) << 8) | ((bytes[pos + 2] as u32) << 16)
        | ((bytes[pos + 3] as u32) << 24);
    Ok((v, pos + 4))
}

pub fn read_u64(bytes: &[u8], pos: usize) -> (r: Result<(u64, usize), Error>)
    requires
        pos <= bytes@.len(),
    ensures
        match de_u64(bytes@.skip(pos as int)) {
            Ok((v, n)) => r matches Ok((x, p)) && x == v && p == pos + n,
            Err(e) => r == Err::<(u64, usize), Error>(e),
        },
{
    if bytes.len() - pos < 8 {
        return Err(Error::UnexpectedEof);
    }
    let lo = (bytes[pos] as u32) | ((bytes[pos + 1] as u32) << 8) | ((bytes[pos + 2] as u32) << 16)
        | ((bytes[pos + 3] as u32) << 24);
    let hi = (bytes[pos + 4] as u32) | ((bytes[pos + 5] as u32) << 8) | ((bytes[pos + 6] as u32) << 16)
        | ((bytes[pos + 7] as u32) << 24);
    Ok(((lo as u64) | ((hi as u64) << 32), pos + 8))
}

} // verus!
