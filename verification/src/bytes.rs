//! Byte-level primitives of the decoder: cursor-style integer reads in both
//! byte orders, trailing-NUL trimming, and the one lossy text-decoding step.

use vstd::prelude::*;
use vstd::slice::slice_index_get;

use crate::types::DecodeError;

verus! {

/// The big-endian 16-bit value stored at offset `i` of `b`.
pub open spec fn be16_at(b: Seq<u8>, i: int) -> u16 {
    (b[i] as int * 0x100 + b[i + 1] as int) as u16
}

/// The little-endian 16-bit value stored at offset `i` of `b`.
pub open spec fn le16_at(b: Seq<u8>, i: int) -> u16 {
    (b[i + 1] as int * 0x100 + b[i] as int) as u16
}

/// The big-endian 32-bit value stored at offset `i` of `b`.
pub open spec fn be32_at(b: Seq<u8>, i: int) -> u32 {
    (b[i] as int * 0x1000000 + b[i + 1] as int * 0x10000 + b[i + 2] as int * 0x100
        + b[i + 3] as int) as u32
}

/// Reads one byte at the cursor, advancing it; fails without moving the
/// cursor when no byte remains.
pub(crate) fn read_u8(data: &[u8], pos: &mut usize) -> (r: Result<u8, DecodeError>)
    requires
        *old(pos) <= data@.len(),
    ensures
        *old(pos) + 1 <= data@.len() ==> (r == Ok::<u8, DecodeError>(data@[*old(pos) as int])
            && *final(pos) == *old(pos) + 1),
        *old(pos) + 1 > data@.len() ==> (r == Err::<u8, DecodeError>(DecodeError::Truncated)
            && *final(pos) == *old(pos)),
{
    if data.len() - *pos < 1 {
        return Err(DecodeError::Truncated);
    }
    let b = *slice_index_get(data, *pos);
    *pos = *pos + 1;
    Ok(b)
}

/// Reads a big-endian 16-bit word at the cursor, advancing it by two;
/// fails without moving the cursor when fewer than two bytes remain.
pub(crate) fn read_u16_be(data: &[u8], pos: &mut usize) -> (r: Result<u16, DecodeError>)
    requires
        *old(pos) <= data@.len(),
    ensures
        *old(pos) + 2 <= data@.len() ==> (r == Ok::<u16, DecodeError>(
            be16_at(data@, *old(pos) as int),
        ) && *final(pos) == *old(pos) + 2),
        *old(pos) + 2 > data@.len() ==> (r == Err::<u16, DecodeError>(DecodeError::Truncated)
            && *final(pos) == *old(pos)),
{
    if data.len() - *pos < 2 {
        return Err(DecodeError::Truncated);
    }
    let hi = *slice_index_get(data, *pos);
    let lo = *slice_index_get(data, *pos + 1);
    *pos = *pos + 2;
    Ok((hi as u16) * 0x100 + (lo as u16))
}

/// Reads a little-endian 16-bit word at the cursor, advancing it by two;
/// fails without moving the cursor when fewer than two bytes remain.
pub(crate) fn read_u16_le(data: &[u8], pos: &mut usize) -> (r: Result<u16, DecodeError>)
    requires
        *old(pos) <= data@.len(),
    ensures
        *old(pos) + 2 <= data@.len() ==> (r == Ok::<u16, DecodeError>(
            le16_at(data@, *old(pos) as int),
        ) && *final(pos) == *old(pos) + 2),
        *old(pos) + 2 > data@.len() ==> (r == Err::<u16, DecodeError>(DecodeError::Truncated)
            && *final(pos) == *old(pos)),
{
    if data.len() - *pos < 2 {
        return Err(DecodeError::Truncated);
    }
    let lo = *slice_index_get(data, *pos);
    let hi = *slice_index_get(data, *pos + 1);
    *pos = *pos + 2;
    Ok((hi as u16) * 0x100 + (lo as u16))
}

/// Reads a big-endian 32-bit word at the cursor, advancing it by four;
/// fails without moving the cursor when fewer than four bytes remain.
pub(crate) fn read_u32_be(data: &[u8], pos: &mut usize) -> (r: Result<u32, DecodeError>)
    requires
        *old(pos) <= data@.len(),
    ensures
        *old(pos) + 4 <= data@.len() ==> (r == Ok::<u32, DecodeError>(
            be32_at(data@, *old(pos) as int),
        ) && *final(pos) == *old(pos) + 4),
        *old(pos) + 4 > data@.len() ==> (r == Err::<u32, DecodeError>(DecodeError::Truncated)
            && *final(pos) == *old(pos)),
{
    if data.len() - *pos < 4 {
        return Err(DecodeError::Truncated);
    }
    let b0 = *slice_index_get(data, *pos);
    let b1 = *slice_index_get(data, *pos + 1);
    let b2 = *slice_index_get(data, *pos + 2);
    let b3 = *slice_index_get(data, *pos + 3);
    *pos = *pos + 4;
    Ok((b0 as u32) * 0x1000000 + (b1 as u32) * 0x10000 + (b2 as u32) * 0x100 + (b3 as u32))
}

/// `s` with every trailing NUL byte removed.
pub open spec fn trim_trailing_nuls(s: Seq<u8>) -> Seq<u8>
    decreases s.len(),
{
    if s.len() > 0 && s[s.len() - 1] == 0 {
        trim_trailing_nuls(s.drop_last())
    } else {
        s
    }
}

/// Trimming keeps exactly the prefix before the trailing run of NUL bytes:
/// when everything from `k` on is NUL and the byte before `k` (if any) is
/// not, the trimmed sequence is the prefix of length `k`.
pub proof fn lemma_trim_trailing_nuls(s: Seq<u8>, k: int)
    requires
        0 <= k <= s.len(),
        forall|j: int| k <= j < s.len() ==> s[j] == 0,
        k > 0 ==> s[k - 1] != 0,
    ensures
        trim_trailing_nuls(s) == s.subrange(0, k),
    decreases s.len(),
{
    if s.len() > 0 && s[s.len() - 1] == 0 {
        assert(k < s.len());
        lemma_trim_trailing_nuls(s.drop_last(), k);
        assert(s.drop_last().subrange(0, k) =~= s.subrange(0, k));
    } else {
        assert(k == s.len());
        assert(s.subrange(0, k) =~= s);
    }
}

/// The character sequence that `String::from_utf8_lossy` decodes `bytes` to.
pub uninterp spec fn lossy_utf8(bytes: Seq<u8>) -> Seq<char>;

/// Relies on `String::from_utf8_lossy`: the result is a function of the bytes
/// alone, and bytes that are all ASCII (valid UTF-8) come through unchanged,
/// one character per byte.
#[verifier::external_body]
pub(crate) fn lossy_decode(bytes: &Vec<u8>) -> (r: String)
    ensures
        r@ == lossy_utf8(bytes@),
        (forall|i: int| 0 <= i < bytes@.len() ==> bytes@[i] < 0x80) ==> (r@.len() == bytes@.len()
            && (forall|i: int| 0 <= i < bytes@.len() ==> r@[i] == bytes@[i] as char)),
{
    String::from_utf8_lossy(bytes).into_owned()
}

} // verus!
