//! Little-endian and Borsh-style primitive readers and writers over byte slices.
use vstd::prelude::*;
use vstd::bytes::*;
use vstd::utf8::*;
use vstd::slice::*;

use crate::pubkey::Pubkey;

verus! {

/// The `u32` stored little-endian at `off`.
pub open spec fn u32_at(d: Seq<u8>, off: int) -> u32 {
    spec_u32_from_le_bytes(d.subrange(off, off + 4))
}

/// The `u64` stored little-endian at `off`.
pub open spec fn u64_at(d: Seq<u8>, off: int) -> u64 {
    spec_u64_from_le_bytes(d.subrange(off, off + 8))
}

/// The `i64` stored little-endian (two's complement) at `off`.
pub open spec fn i64_at(d: Seq<u8>, off: int) -> i64 {
    u64_at(d, off) as i64
}

/// A Borsh `bool` byte: only 0 and 1 are accepted.
pub open spec fn bool_byte_ok(d: Seq<u8>, off: int) -> bool {
    d[off] <= 1
}

/// A Borsh string at `off`: a little-endian `u32` length, then that many bytes of UTF-8.
/// Gives the text and the offset just past it.
pub open spec fn string_at(d: Seq<u8>, off: int) -> Option<(Seq<char>, int)> {
    if 0 <= off && off + 4 <= d.len() {
        let n = u32_at(d, off) as int;
        let body = d.subrange(off + 4, off + 4 + n);
        if off + 4 + n <= d.len() && valid_utf8(body) {
            Some((decode_utf8(body), off + 4 + n))
        } else {
            None
        }
    } else {
        None
    }
}

/// Reads the little-endian `u32` at `off`.
pub fn read_u32(d: &[u8], off: usize) -> (v: u32)
    requires
        off + 4 <= d@.len(),
    ensures
        v == u32_at(d@, off as int),
{
    let _len = d.len();
    u32_from_le_bytes(slice_subrange(d, off, off + 4))
}

/// Reads the little-endian `u64` at `off`.
pub fn read_u64(d: &[u8], off: usize) -> (v: u64)
    requires
        off + 8 <= d@.len(),
    ensures
        v == u64_at(d@, off as int),
{
    let _len = d.len();
    u64_from_le_bytes(slice_subrange(d, off, off + 8))
}

/// Reads the little-endian `i64` at `off`.
pub fn read_i64(d: &[u8], off: usize) -> (v: i64)
    requires
        off + 8 <= d@.len(),
    ensures
        v == i64_at(d@, off as int),
{
    read_u64(d, off) as i64
}

/// Reads the 32 bytes of an address at `off`.
pub fn read_pubkey(d: &[u8], off: usize) -> (pk: Pubkey)
    requires
        off + 32 <= d@.len(),
    ensures
        pk@ == d@.subrange(off as int, off + 32),
{
    let _len = d.len();
    let mut bytes = [0u8; 32];
    let mut i: usize = 0;
    while i < 32
        invariant
            0 <= i <= 32,
            off + 32 <= d@.len(),
            d@.len() <= usize::MAX,
            forall|j: int| 0 <= j < i ==> bytes@[j] == d@[off + j],
        decreases 32 - i,
    {
        bytes[i] = d[off + i];
        i = i + 1;
    }
    let pk = Pubkey { bytes };
    assert(pk@ =~= d@.subrange(off as int, off + 32));
    pk
}

/// `String::from_utf8` (std): the text of `bytes` when they are valid UTF-8, otherwise `None`.
#[verifier::external_body]
fn string_from_utf8(bytes: Vec<u8>) -> (res: Option<String>)
    ensures
        res is Some <==> valid_utf8(bytes@),
        res matches Some(s) ==> s@ == decode_utf8(bytes@),
{
    String::from_utf8(bytes).ok()
}

/// Reads a Borsh string at `off`; `None` when the length runs past the end or the
/// bytes are not UTF-8.
pub fn read_string(d: &[u8], off: usize) -> (res: Option<(String, usize)>)
    requires
        off <= d@.len(),
    ensures
        match res {
            Some((s, end)) => string_at(d@, off as int) == Some((s@, end as int)),
            None => string_at(d@, off as int) is None,
        },
{
    if d.len() - off < 4 {
        return None;
    }
    let n = read_u32(d, off) as usize;
    if d.len() - off - 4 < n {
        return None;
    }
    let body = slice_to_vec(slice_subrange(d, off + 4, off + 4 + n));
    match string_from_utf8(body) {
        Some(s) => Some((s, off + 4 + n)),
        None => None,
    }
}

/// Appends the little-endian bytes of `v`.
pub fn push_u64_le(out: &mut Vec<u8>, v: u64)
    ensures
        final(out)@ == old(out)@ + spec_u64_to_le_bytes(v),
{
    let bytes = u64_to_le_bytes(v);
    let ghost start = out@;
    let mut i: usize = 0;
    while i < 8
        invariant
            0 <= i <= 8,
            bytes@.len() == 8,
            bytes@ == spec_u64_to_le_bytes(v),
            out@ == start + bytes@.subrange(0, i as int),
        decreases 8 - i,
    {
        out.push(bytes[i]);
        i = i + 1;
        assert(bytes@.subrange(0, i as int) =~= bytes@.subrange(0, i - 1).push(bytes@[i - 1]));
    }
    assert(bytes@.subrange(0, 8) =~= bytes@);
}

} // verus!
