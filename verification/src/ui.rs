//! Text shown in the terminal interface: abbreviated addresses, truncated names, ages.
use vstd::prelude::*;

use crate::app::{FeedItem, FeedItemView, FeedKind, PositionRow, PositionView};
use crate::pubkey::{base58_text, Pubkey};
use crate::text::{chars_of, copy_str, push_char, push_chars, push_str, string_of_chars};

verus! {

/// The colours of the interface, each as `0xRRGGBB`.
pub struct Theme;

impl Theme {
    pub const BG: u32 = 0x15_22_38;
    pub const SURFACE: u32 = 0x1E_30_50;
    pub const ACCENT: u32 = 0x00_C8_FF;
    pub const TEXT: u32 = 0xDC_E6_F5;
    pub const TEXT_DIM: u32 = 0x64_78_96;
    pub const GREEN: u32 = 0x00_FF_88;
    pub const RED: u32 = 0xFF_50_50;
    pub const YELLOW: u32 = 0xFF_C8_00;
    pub const SELECTION: u32 = 0x28_46_78;
}

/// The red, green and blue parts of a `0xRRGGBB` colour.
pub fn rgb_parts(color: u32) -> (res: (u8, u8, u8))
    ensures
        res.0 == (color / 0x1_00_00) % 0x100,
        res.1 == (color / 0x1_00) % 0x100,
        res.2 == color % 0x100,
{
    (((color / 0x1_00_00) % 0x100) as u8, ((color / 0x1_00) % 0x100) as u8, (color % 0x100) as u8)
}

/// `first4...last2` of an address text (the whole text when it is shorter than 4).
pub open spec fn short_label(s: Seq<char>) -> Seq<char> {
    if s.len() >= 4 {
        s.subrange(0, 4) + seq!['.', '.', '.'] + s.subrange(s.len() - 2, s.len() as int)
    } else {
        s
    }
}

/// `first4..last4` of an address text when it is longer than 8, otherwise the whole text.
pub open spec fn short_pubkey_text(s: Seq<char>) -> Seq<char> {
    if s.len() > 8 {
        s.subrange(0, 4) + seq!['.', '.'] + s.subrange(s.len() - 4, s.len() as int)
    } else {
        s
    }
}

/// The label of a token without a known symbol: `first4...last2` of its mint address.
pub fn fallback_symbol(mint: &Pubkey) -> (res: String)
    ensures
        res@ == short_label(base58_text(mint@)),
{
    let s = mint.to_string();
    let cs = chars_of(s.as_str());
    if cs.len() < 4 {
        return s;
    }
    let n = cs.len();
    let mut out = string_of_chars(vstd::slice::slice_subrange(cs.as_slice(), 0, 4));
    push_char(&mut out, '.');
    push_char(&mut out, '.');
    push_char(&mut out, '.');
    push_chars(&mut out, vstd::slice::slice_subrange(cs.as_slice(), n - 2, n));
    assert(out@ =~= short_label(base58_text(mint@)));
    out
}

/// An address as `first4..last4` when its text is longer than 8 characters.
pub fn short_pubkey(pk: &Pubkey) -> (res: String)
    ensures
        res@ == short_pubkey_text(base58_text(pk@)),
{
    let s = pk.to_string();
    let cs = chars_of(s.as_str());
    if cs.len() <= 8 {
        return s;
    }
    let n = cs.len();
    let mut out = string_of_chars(vstd::slice::slice_subrange(cs.as_slice(), 0, 4));
    push_char(&mut out, '.');
    push_char(&mut out, '.');
    push_chars(&mut out, vstd::slice::slice_subrange(cs.as_slice(), n - 4, n));
    assert(out@ =~= short_pubkey_text(base58_text(pk@)));
    out
}

/// `s` cut to `max_chars - 2` characters followed by `..` when it has more than
/// `max_chars` characters.
pub open spec fn truncated(s: Seq<char>, max_chars: int) -> Seq<char> {
    if s.len() > max_chars {
        s.subrange(0, max_chars - 2) + seq!['.', '.']
    } else {
        s
    }
}

/// Shortens `s` to fit in `max_chars` characters, marking the cut with `..`.
pub fn truncate_str(s: &str, max_chars: usize) -> (res: String)
    requires
        s@.len() > max_chars ==> max_chars >= 2,
    ensures
        res@ == truncated(s@, max_chars as int),
{
    let cs = chars_of(s);
    if cs.len() > max_chars {
        let mut out = string_of_chars(vstd::slice::slice_subrange(cs.as_slice(), 0, max_chars - 2));
        push_char(&mut out, '.');
        push_char(&mut out, '.');
        assert(out@ =~= truncated(s@, max_chars as int));
        out
    } else {
        string_of_chars(cs.as_slice())
    }
}

/// The decimal digit for `d` (`0 <= d < 10`).
pub open spec fn digit_char(d: nat) -> char {
    if d == 0 { '0' }
    else if d == 1 { '1' }
    else if d == 2 { '2' }
    else if d == 3 { '3' }
    else if d == 4 { '4' }
    else if d == 5 { '5' }
    else if d == 6 { '6' }
    else if d == 7 { '7' }
    else if d == 8 { '8' }
    else { '9' }
}

/// The decimal text of `n`, without leading zeros.
pub open spec fn decimal(n: nat) -> Seq<char>
    decreases n,
{
    if n < 10 {
        seq![digit_char(n)]
    } else {
        decimal(n / 10).push(digit_char(n % 10))
    }
}

fn digit(d: u64) -> (c: char)
    requires
        d < 10,
    ensures
        c == digit_char(d as nat),
{
    if d == 0 { '0' }
    else if d == 1 { '1' }
    else if d == 2 { '2' }
    else if d == 3 { '3' }
    else if d == 4 { '4' }
    else if d == 5 { '5' }
    else if d == 6 { '6' }
    else if d == 7 { '7' }
    else if d == 8 { '8' }
    else { '9' }
}

/// Appends the decimal text of `n`.
pub fn push_decimal(s: &mut String, n: u64)
    ensures
        final(s)@ == old(s)@ + decimal(n as nat),
    decreases n,
{
    if n >= 10 {
        push_decimal(s, n / 10);
    }
    push_char(s, digit(n % 10));
    assert(final(s)@ =~= old(s)@ + decimal(n as nat)) by {
        if n < 10 {
            assert(n % 10 == n);
        }
    }
}

/// The age label of an item `secs` seconds old: seconds under a minute, minutes under an
/// hour, hours beyond; negative ages show as `0s`.
pub open spec fn age_label(secs: i64) -> Seq<char> {
    if secs < 0 {
        seq!['0', 's']
    } else if secs < 60 {
        decimal(secs as nat).push('s')
    } else if secs < 3600 {
        decimal((secs / 60) as nat).push('m')
    } else {
        decimal((secs / 3600) as nat).push('h')
    }
}

/// The age of an item, in its largest whole unit.
pub fn format_age(secs: i64) -> (res: String)
    ensures
        res@ == age_label(secs),
{
    let mut out = String::new();
    if secs < 0 {
        push_char(&mut out, '0');
        push_char(&mut out, 's');
    } else if secs < 60 {
        push_decimal(&mut out, secs as u64);
        push_char(&mut out, 's');
    } else if secs < 3600 {
        push_decimal(&mut out, (secs / 60) as u64);
        push_char(&mut out, 'm');
    } else {
        push_decimal(&mut out, (secs / 3600) as u64);
        push_char(&mut out, 'h');
    }
    assert(out@ =~= age_label(secs));
    out
}

/// The side shown for a trade row.
pub open spec fn side_text(kind: FeedKind) -> Seq<char> {
    match kind {
        FeedKind::Buy => "BUY"@,
        FeedKind::Sell => "SELL"@,
        FeedKind::Create => "?"@,
    }
}

/// The side of a trade row.
pub fn side_label(kind: FeedKind) -> (res: String)
    ensures
        res@ == side_text(kind),
{
    match kind {
        FeedKind::Buy => copy_str("BUY"),
        FeedKind::Sell => copy_str("SELL"),
        FeedKind::Create => copy_str("?"),
    }
}

/// The token shown for a trade row: its symbol, or its abbreviated mint.
pub open spec fn trade_token_text(item: FeedItemView) -> Seq<char> {
    if item.symbol.len() > 0 { item.symbol } else { short_pubkey_text(base58_text(item.mint)) }
}

/// The token label of a trade row.
pub fn trade_token_label(item: &FeedItem) -> (res: String)
    ensures
        res@ == trade_token_text(item@),
{
    if !item.symbol.as_str().is_empty() {
        item.symbol.clone()
    } else {
        short_pubkey(&item.mint)
    }
}

/// The flags shown for a launch: `MH` for a mayhem-mode token.
pub fn launch_flags(item: &FeedItem) -> (res: String)
    ensures
        res@ == (if item.is_mayhem_mode { "MH"@ } else { Seq::<char>::empty() }),
{
    if item.is_mayhem_mode {
        copy_str("MH")
    } else {
        String::new()
    }
}

/// The token shown for a position row: its symbol, followed by its name cut to 12
/// characters in brackets when it has one.
pub open spec fn position_token_text(row: PositionRow) -> Seq<char> {
    if row.name.len() == 0 {
        row.symbol
    } else {
        row.symbol + " ("@ + truncated(row.name, 12) + ")"@
    }
}

/// The token label of a position row.
pub fn position_token_label(row: &PositionView) -> (res: String)
    ensures
        res@ == position_token_text(row@),
{
    if row.name.as_str().is_empty() {
        return row.symbol.clone();
    }
    let mut out = row.symbol.clone();
    push_str(&mut out, " (");
    let short = truncate_str(row.name.as_str(), 12);
    push_str(&mut out, short.as_str());
    push_str(&mut out, ")");
    assert(out@ =~= position_token_text(row@));
    out
}

/// Lamports in 0.01 SOL: a balance below it is shown as low.
pub const LOW_BALANCE_LAMPORTS: u64 = 10_000_000;

/// Whether a wallet balance is low (under 0.01 SOL).
pub fn low_balance(lamports: u64) -> (res: bool)
    ensures
        res == (lamports < LOW_BALANCE_LAMPORTS),
{
    lamports < LOW_BALANCE_LAMPORTS
}

} // verus!
