//! Canonical byte encoding used by the envelope: fixed-width little-endian
//! integers and the length-prefixed framing of an inner transaction's code
//! and data sections. Hashes and signatures are computed over these bytes,
//! so the encoding is part of the protocol and is pinned down exactly.

use vstd::prelude::*;

verus! {

/// The eight little-endian bytes of a 64-bit integer.
pub open spec fn u64_le_bytes(x: u64) -> Seq<u8> {
    seq![
        (x & 0xff) as u8,
        ((x >> 8) & 0xff) as u8,
        ((x >> 16) & 0xff) as u8,
        ((x >> 24) & 0xff) as u8,
        ((x >> 32) & 0xff) as u8,
        ((x >> 40) & 0xff) as u8,
        ((x >> 48) & 0xff) as u8,
        ((x >> 56) & 0xff) as u8,
    ]
}

/// The 64-bit integer read back from eight little-endian bytes.
pub open spec fn u64_from_le_bytes(b: Seq<u8>) -> u64
    recommends
        b.len() == 8,
{
    ((b[0] as u64) | ((b[1] as u64) << 8) | ((b[2] as u64) << 16) | ((b[3] as u64) << 24)
        | ((b[4] as u64) << 32) | ((b[5] as u64) << 40) | ((b[6] as u64) << 48)
        | ((b[7] as u64) << 56)) as u64
}

/// Reading back the written bytes recovers the integer.
pub proof fn lemma_u64_le_roundtrip(x: u64)
    ensures
        u64_from_le_bytes(u64_le_bytes(x)) == x,
{
    let b = u64_le_bytes(x);
    assert(b[0] == (x & 0xff) as u8 && b[1] == ((x >> 8) & 0xff) as u8
        && b[2] == ((x >> 16) & 0xff) as u8 && b[3] == ((x >> 24) & 0xff) as u8
        && b[4] == ((x >> 32) & 0xff) as u8 && b[5] == ((x >> 40) & 0xff) as u8
        && b[6] == ((x >> 48) & 0xff) as u8 && b[7] == ((x >> 56) & 0xff) as u8);
    assert(((((x & 0xff) as u8) as u64) | ((((x >> 8) & 0xff) as u8) as u64) << 8
        | ((((x >> 16) & 0xff) as u8) as u64) << 16 | ((((x >> 24) & 0xff) as u8) as u64) << 24
        | ((((x >> 32) & 0xff) as u8) as u64) << 32 | ((((x >> 40) & 0xff) as u8) as u64) << 40
        | ((((x >> 48) & 0xff) as u8) as u64) << 48 | ((((x >> 56) & 0xff) as u8) as u64) << 56)
        == x) by (bit_vector);
}

/// Append the eight little-endian bytes of `x` to `out`.
pub fn push_u64_le(out: &mut Vec<u8>, x: u64)
    ensures
        final(out)@ == old(out)@ + u64_le_bytes(x),
{
    out.push((x & 0xff) as u8);
    out.push(((x >> 8) & 0xff) as u8);
    out.push(((x >> 16) & 0xff) as u8);
    out.push(((x >> 24) & 0xff) as u8);
    out.push(((x >> 32) & 0xff) as u8);
    out.push(((x >> 40) & 0xff) as u8);
    out.push(((x >> 48) & 0xff) as u8);
    out.push(((x >> 56) & 0xff) as u8);
    assert(out@ =~= old(out)@ + u64_le_bytes(x));
}

/// Read the 64-bit integer whose little-endian bytes sit at `offset`.
pub fn read_u64_le(bytes: &Vec<u8>, offset: usize) -> (r: u64)
    requires
        offset + 8 <= bytes@.len(),
    ensures
        r == u64_from_le_bytes(bytes@.subrange(offset as int, offset + 8)),
{
    let n = bytes.len();
    assert(offset + 8 <= n);
    let ghost b = bytes@.subrange(offset as int, offset as int + 8);
    let r = (bytes[offset] as u64) | ((bytes[offset + 1] as u64) << 8)
        | ((bytes[offset + 2] as u64) << 16) | ((bytes[offset + 3] as u64) << 24)
        | ((bytes[offset + 4] as u64) << 32) | ((bytes[offset + 5] as u64) << 40)
        | ((bytes[offset + 6] as u64) << 48) | ((bytes[offset + 7] as u64) << 56);
    proof {
        assert(b[0] == bytes@[offset as int] && b[1] == bytes@[offset + 1]
            && b[2] == bytes@[offset + 2] && b[3] == bytes@[offset + 3]
            && b[4] == bytes@[offset + 4] && b[5] == bytes@[offset + 5]
            && b[6] == bytes@[offset + 6] && b[7] == bytes@[offset + 7]);
    }
    r
}

/// Append every byte of `src` to `dst`.
pub fn push_all(dst: &mut Vec<u8>, src: &[u8])
    ensures
        final(dst)@ == old(dst)@ + src@,
{
    let mut k: usize = 0;
    while k < src.len()
        invariant
            k <= src@.len(),
            dst@ == old(dst)@ + src@.subrange(0, k as int),
        decreases src@.len() - k,
    {
        let b = src[k];
        dst.push(b);
        assert(dst@ =~= old(dst)@ + src@.subrange(0, k + 1));
        k = k + 1;
    }
    assert(src@.subrange(0, src@.len() as int) =~= src@);
}

/// Copy a range of `src` into a fresh vector.
pub fn copy_range(src: &Vec<u8>, start: usize, end: usize) -> (r: Vec<u8>)
    requires
        start <= end <= src@.len(),
    ensures
        r@ == src@.subrange(start as int, end as int),
{
    let mut r: Vec<u8> = Vec::new();
    let mut k: usize = start;
    while k < end
        invariant
            start <= k <= end <= src@.len(),
            r@ == src@.subrange(start as int, k as int),
        decreases end - k,
    {
        let b = src[k];
        r.push(b);
        assert(r@ =~= src@.subrange(start as int, k + 1));
        k = k + 1;
    }
    r
}

/// Copy a whole vector of bytes.
pub fn clone_bytes(src: &Vec<u8>) -> (r: Vec<u8>)
    ensures
        r@ == src@,
{
    let r = copy_range(src, 0, src.len());
    assert(r@ =~= src@);
    r
}

/// Byte-for-byte equality of two vectors.
pub fn bytes_eq(a: &Vec<u8>, b: &Vec<u8>) -> (r: bool)
    ensures
        r == (a@ == b@),
{
    if a.len() != b.len() {
        return false;
    }
    let mut k: usize = 0;
    while k < a.len()
        invariant
            k <= a@.len(),
            a@.len() == b@.len(),
            a@.subrange(0, k as int) == b@.subrange(0, k as int),
        decreases a@.len() - k,
    {
        if a[k] != b[k] {
            assert(a@[k as int] != b@[k as int]);
            return false;
        }
        assert(a@.subrange(0, k + 1) =~= a@.subrange(0, k as int) + seq![a@[k as int]]);
        assert(b@.subrange(0, k + 1) =~= b@.subrange(0, k as int) + seq![b@[k as int]]);
        k = k + 1;
    }
    assert(a@ =~= a@.subrange(0, a@.len() as int));
    assert(b@ =~= b@.subrange(0, b@.len() as int));
    true
}

/// The framed plaintext of an inner transaction: the code and data
/// sections, each preceded by its length.
pub open spec fn encode_payload(code: Seq<u8>, data: Seq<u8>) -> Seq<u8> {
    u64_le_bytes(code.len() as u64) + code + u64_le_bytes(data.len() as u64) + data
}

/// Recover the code and data sections from a framed plaintext; `None` when
/// the bytes are not a well-formed frame.
pub open spec fn parse_payload(pt: Seq<u8>) -> Option<(Seq<u8>, Seq<u8>)> {
    if pt.len() < 16 {
        None
    } else {
        let l1 = u64_from_le_bytes(pt.subrange(0, 8)) as int;
        if 16 + l1 > pt.len() {
            None
        } else {
            let l2 = u64_from_le_bytes(pt.subrange(8 + l1, 16 + l1)) as int;
            if 16 + l1 + l2 != pt.len() {
                None
            } else {
                Some((pt.subrange(8, 8 + l1), pt.subrange(16 + l1, 16 + l1 + l2)))
            }
        }
    }
}

/// Build the framed plaintext of the two sections.
pub fn encode_payload_vec(code: &Vec<u8>, data: &Vec<u8>) -> (r: Vec<u8>)
    ensures
        r@ == encode_payload(code@, data@),
{
    let mut r: Vec<u8> = Vec::new();
    push_u64_le(&mut r, code.len() as u64);
    push_all(&mut r, code.as_slice());
    push_u64_le(&mut r, data.len() as u64);
    push_all(&mut r, data.as_slice());
    assert(r@ =~= encode_payload(code@, data@));
    r
}

/// Parse a framed plaintext back into its two sections.
pub fn parse_payload_vec(pt: &Vec<u8>) -> (r: Option<(Vec<u8>, Vec<u8>)>)
    ensures
        match r {
            Some(cd) => parse_payload(pt@) == Some((cd.0@, cd.1@)),
            None => parse_payload(pt@) is None,
        },
{
    if pt.len() < 16 {
        return None;
    }
    let l1 = read_u64_le(pt, 0);
    if l1 > (pt.len() - 16) as u64 {
        return None;
    }
    let l1: usize = l1 as usize;
    let l2 = read_u64_le(pt, 8 + l1);
    if l2 != (pt.len() - 16 - l1) as u64 {
        return None;
    }
    let l2: usize = l2 as usize;
    let code = copy_range(pt, 8, 8 + l1);
    let data = copy_range(pt, 16 + l1, 16 + l1 + l2);
    Some((code, data))
}

/// Framing then parsing gives the sections back unchanged.
pub proof fn lemma_payload_roundtrip(code: Seq<u8>, data: Seq<u8>)
    requires
        code.len() <= u64::MAX,
        data.len() <= u64::MAX,
    ensures
        parse_payload(encode_payload(code, data)) == Some((code, data)),
{
    let pt = encode_payload(code, data);
    lemma_u64_le_roundtrip(code.len() as u64);
    lemma_u64_le_roundtrip(data.len() as u64);
    assert(pt.subrange(0, 8) =~= u64_le_bytes(code.len() as u64));
    let l1 = code.len() as int;
    let l2 = data.len() as int;
    assert(pt.subrange(8 + l1, 16 + l1) =~= u64_le_bytes(data.len() as u64));
    assert(pt.subrange(8, 8 + l1) =~= code);
    assert(pt.subrange(16 + l1, 16 + l1 + l2) =~= data);
}

} // verus!
