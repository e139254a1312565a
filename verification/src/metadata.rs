//! Token name and symbol from a Metaplex metadata account.
use vstd::prelude::*;
use vstd::slice::slice_subrange;
use vstd::utf8::{decode_utf8, valid_utf8};

use crate::codec::{read_u32, u32_at};
use crate::text::{chars_of, string_of_chars};

verus! {

/// A token's display name and ticker symbol.
#[derive(Clone, Debug)]
pub struct TokenMeta {
    pub name: String,
    pub symbol: String,
}

/// The value a [`TokenMeta`] stands for.
pub struct TokenMetaView {
    pub name: Seq<char>,
    pub symbol: Seq<char>,
}

impl View for TokenMeta {
    type V = TokenMetaView;

    open spec fn view(&self) -> TokenMetaView {
        TokenMetaView { name: self.name@, symbol: self.symbol@ }
    }
}

impl TokenMeta {
    pub fn clone_meta(&self) -> (res: TokenMeta)
        ensures
            res@ == self@,
    {
        TokenMeta { name: self.name.clone(), symbol: self.symbol.clone() }
    }
}

/// The text `String::from_utf8_lossy` makes of `bytes`: invalid sequences become U+FFFD.
pub uninterp spec fn utf8_lossy(bytes: Seq<u8>) -> Seq<char>;

/// `String::from_utf8_lossy` (std); its text is named by `utf8_lossy`, and on valid UTF-8
/// it is the decoded text, as std's documentation says.
#[verifier::external_body]
fn string_from_utf8_lossy(bytes: &[u8]) -> (res: String)
    ensures
        res@ == utf8_lossy(bytes@),
        valid_utf8(bytes@) ==> res@ == decode_utf8(bytes@),
{
    String::from_utf8_lossy(bytes).into_owned()
}

/// `s` without its trailing NUL characters (`trim_end_matches('\0')`).
pub open spec fn trim_trailing_nul(s: Seq<char>) -> Seq<char>
    decreases s.len(),
{
    if s.len() > 0 && s.last() == '\0' {
        trim_trailing_nul(s.drop_last())
    } else {
        s
    }
}

/// The text of a length-prefixed field's bytes: lossy UTF-8, trailing NULs removed.
pub open spec fn field_text(bytes: Seq<u8>) -> Seq<char> {
    trim_trailing_nul(utf8_lossy(bytes))
}

/// Offset of the name field: after the key byte, the update authority and the mint.
pub const NAME_OFFSET: usize = 65;

/// Name and symbol of a metadata account: at offset 65 a little-endian `u32` length and
/// the name bytes, then a `u32` length and the symbol bytes.
pub open spec fn parse_metadata_spec(d: Seq<u8>) -> Option<TokenMetaView> {
    if d.len() < 65 + 8 {
        None
    } else {
        let name_len = u32_at(d, 65) as int;
        if 69 + name_len > d.len() {
            None
        } else {
            let o = 69 + name_len;
            if o + 4 > d.len() {
                None
            } else {
                let symbol_len = u32_at(d, o) as int;
                if o + 4 + symbol_len > d.len() {
                    None
                } else {
                    Some(TokenMetaView {
                        name: field_text(d.subrange(69, o)),
                        symbol: field_text(d.subrange(o + 4, o + 4 + symbol_len)),
                    })
                }
            }
        }
    }
}

fn trim_nul(s: &String) -> (res: String)
    ensures
        res@ == trim_trailing_nul(s@),
{
    let cs = chars_of(s.as_str());
    let mut n = cs.len();
    assert(cs@.subrange(0, n as int) =~= cs@);
    while n > 0 && cs[n - 1] == '\0'
        invariant
            0 <= n <= cs@.len(),
            trim_trailing_nul(cs@) == trim_trailing_nul(cs@.subrange(0, n as int)),
        decreases n,
    {
        assert(cs@.subrange(0, n as int).drop_last() =~= cs@.subrange(0, n - 1));
        n = n - 1;
    }
    assert(trim_trailing_nul(cs@.subrange(0, n as int)) == cs@.subrange(0, n as int));
    string_of_chars(slice_subrange(cs.as_slice(), 0, n))
}

fn field_string(bytes: &[u8]) -> (res: String)
    ensures
        res@ == field_text(bytes@),
{
    let raw = string_from_utf8_lossy(bytes);
    trim_nul(&raw)
}

/// Reads the name and symbol from a metadata account's data; `None` where a length runs
/// past the end.
pub fn parse_metadata_fields(data: &[u8]) -> (res: Option<TokenMeta>)
    ensures
        match res {
            Some(m) => parse_metadata_spec(data@) == Some(m@),
            None => parse_metadata_spec(data@) is None,
        },
{
    if data.len() < NAME_OFFSET + 8 {
        return None;
    }
    let mut offset = NAME_OFFSET;
    let name_len = read_u32(data, offset) as usize;
    offset = offset + 4;
    if name_len > data.len() - offset {
        return None;
    }
    let name = field_string(slice_subrange(data, offset, offset + name_len));
    offset = offset + name_len;
    if data.len() - offset < 4 {
        return None;
    }
    let symbol_len = read_u32(data, offset) as usize;
    offset = offset + 4;
    if symbol_len > data.len() - offset {
        return None;
    }
    let symbol = field_string(slice_subrange(data, offset, offset + symbol_len));
    Some(TokenMeta { name, symbol })
}

} // verus!
