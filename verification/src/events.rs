//! PumpFun events as the program logs them: `Program data: ` followed by base64 of an
//! 8-byte discriminator and the Borsh-encoded event.
use vstd::prelude::*;
use vstd::slice::slice_subrange;
use vstd::utf8::encode_utf8;

use crate::codec::{bool_byte_ok, i64_at, read_i64, read_pubkey, read_string, read_u64, string_at, u64_at};
use crate::pubkey::Pubkey;

verus! {

/// A token launch.
#[derive(Clone, Debug)]
pub struct PumpFunCreateEvent {
    pub name: String,
    pub symbol: String,
    pub uri: String,
    pub mint: Pubkey,
    pub bonding_curve: Pubkey,
    pub user: Pubkey,
    pub creator: Pubkey,
    pub timestamp: i64,
    pub virtual_token_reserves: u64,
    pub virtual_sol_reserves: u64,
    pub real_token_reserves: u64,
    pub token_total_supply: u64,
    pub token_program: Pubkey,
    pub is_mayhem_mode: bool,
    pub is_cashback_enabled: bool,
}

/// The value a [`PumpFunCreateEvent`] stands for.
pub struct CreateEventView {
    pub name: Seq<char>,
    pub symbol: Seq<char>,
    pub uri: Seq<char>,
    pub mint: Seq<u8>,
    pub bonding_curve: Seq<u8>,
    pub user: Seq<u8>,
    pub creator: Seq<u8>,
    pub timestamp: i64,
    pub virtual_token_reserves: u64,
    pub virtual_sol_reserves: u64,
    pub real_token_reserves: u64,
    pub token_total_supply: u64,
    pub token_program: Seq<u8>,
    pub is_mayhem_mode: bool,
    pub is_cashback_enabled: bool,
}

impl View for PumpFunCreateEvent {
    type V = CreateEventView;

    open spec fn view(&self) -> CreateEventView {
        CreateEventView {
            name: self.name@,
            symbol: self.symbol@,
            uri: self.uri@,
            mint: self.mint@,
            bonding_curve: self.bonding_curve@,
            user: self.user@,
            creator: self.creator@,
            timestamp: self.timestamp,
            virtual_token_reserves: self.virtual_token_reserves,
            virtual_sol_reserves: self.virtual_sol_reserves,
            real_token_reserves: self.real_token_reserves,
            token_total_supply: self.token_total_supply,
            token_program: self.token_program@,
            is_mayhem_mode: self.is_mayhem_mode,
            is_cashback_enabled: self.is_cashback_enabled,
        }
    }
}

/// A buy or a sell.
#[derive(Clone, Debug)]
pub struct PumpFunTradeEvent {
    pub mint: Pubkey,
    pub sol_amount: u64,
    pub token_amount: u64,
    pub is_buy: bool,
    pub user: Pubkey,
    pub timestamp: i64,
    pub virtual_sol_reserves: u64,
    pub virtual_token_reserves: u64,
    pub real_sol_reserves: u64,
    pub real_token_reserves: u64,
    pub fee_recipient: Pubkey,
    pub fee_basis_points: u64,
    pub fee: u64,
    pub creator: Pubkey,
    pub creator_fee_basis_points: u64,
    pub creator_fee: u64,
    pub track_volume: bool,
    pub total_unclaimed_tokens: u64,
    pub total_claimed_tokens: u64,
    pub current_sol_volume: u64,
    pub last_update_timestamp: i64,
    pub ix_name: String,
    pub mayhem_mode: bool,
    pub cashback_fee_basis_points: u64,
    pub cashback: u64,
}

/// The value a [`PumpFunTradeEvent`] stands for.
pub struct TradeEventView {
    pub mint: Seq<u8>,
    pub sol_amount: u64,
    pub token_amount: u64,
    pub is_buy: bool,
    pub user: Seq<u8>,
    pub timestamp: i64,
    pub virtual_sol_reserves: u64,
    pub virtual_token_reserves: u64,
    pub real_sol_reserves: u64,
    pub real_token_reserves: u64,
    pub fee_recipient: Seq<u8>,
    pub fee_basis_points: u64,
    pub fee: u64,
    pub creator: Seq<u8>,
    pub creator_fee_basis_points: u64,
    pub creator_fee: u64,
    pub track_volume: bool,
    pub total_unclaimed_tokens: u64,
    pub total_claimed_tokens: u64,
    pub current_sol_volume: u64,
    pub last_update_timestamp: i64,
    pub ix_name: Seq<char>,
    pub mayhem_mode: bool,
    pub cashback_fee_basis_points: u64,
    pub cashback: u64,
}

impl View for PumpFunTradeEvent {
    type V = TradeEventView;

    open spec fn view(&self) -> TradeEventView {
        TradeEventView {
            mint: self.mint@,
            sol_amount: self.sol_amount,
            token_amount: self.token_amount,
            is_buy: self.is_buy,
            user: self.user@,
            timestamp: self.timestamp,
            virtual_sol_reserves: self.virtual_sol_reserves,
            virtual_token_reserves: self.virtual_token_reserves,
            real_sol_reserves: self.real_sol_reserves,
            real_token_reserves: self.real_token_reserves,
            fee_recipient: self.fee_recipient@,
            fee_basis_points: self.fee_basis_points,
            fee: self.fee,
            creator: self.creator@,
            creator_fee_basis_points: self.creator_fee_basis_points,
            creator_fee: self.creator_fee,
            track_volume: self.track_volume,
            total_unclaimed_tokens: self.total_unclaimed_tokens,
            total_claimed_tokens: self.total_claimed_tokens,
            current_sol_volume: self.current_sol_volume,
            last_update_timestamp: self.last_update_timestamp,
            ix_name: self.ix_name@,
            mayhem_mode: self.mayhem_mode,
            cashback_fee_basis_points: self.cashback_fee_basis_points,
            cashback: self.cashback,
        }
    }
}

/// A decoded program event.
#[derive(Clone, Debug)]
pub enum PumpFunEvent {
    Create(PumpFunCreateEvent),
    Trade(PumpFunTradeEvent),
}

/// The value a [`PumpFunEvent`] stands for.
pub enum PumpFunEventView {
    Create(CreateEventView),
    Trade(TradeEventView),
}

impl View for PumpFunEvent {
    type V = PumpFunEventView;

    open spec fn view(&self) -> PumpFunEventView {
        match self {
            PumpFunEvent::Create(e) => PumpFunEventView::Create(e@),
            PumpFunEvent::Trade(e) => PumpFunEventView::Trade(e@),
        }
    }
}

/// Discriminator of the create event.
pub const CREATE_DISCRIMINATOR: [u8; 8] = [27, 114, 169, 77, 222, 235, 99, 118];

/// Discriminator of the trade event.
pub const TRADE_DISCRIMINATOR: [u8; 8] = [189, 219, 127, 211, 78, 230, 97, 238];

/// Bytes of a create event after its three strings: four addresses, a timestamp, four
/// amounts, the token program and two flags.
pub const CREATE_TAIL_LEN: usize = 202;

/// Bytes of a trade event before its instruction-name string.
pub const TRADE_HEAD_LEN: usize = 250;

/// Bytes of a trade event after its instruction-name string.
pub const TRADE_TAIL_LEN: usize = 17;

/// The Borsh body of a create event, which must be consumed exactly.
pub open spec fn decode_create_body(d: Seq<u8>) -> Option<CreateEventView> {
    match string_at(d, 0) {
        None => None,
        Some((name, p1)) => match string_at(d, p1) {
            None => None,
            Some((symbol, p2)) => match string_at(d, p2) {
                None => None,
                Some((uri, p)) => {
                    if d.len() == p + 202 && bool_byte_ok(d, p + 200) && bool_byte_ok(d, p + 201) {
                        Some(CreateEventView {
                            name,
                            symbol,
                            uri,
                            mint: d.subrange(p, p + 32),
                            bonding_curve: d.subrange(p + 32, p + 64),
                            user: d.subrange(p + 64, p + 96),
                            creator: d.subrange(p + 96, p + 128),
                            timestamp: i64_at(d, p + 128),
                            virtual_token_reserves: u64_at(d, p + 136),
                            virtual_sol_reserves: u64_at(d, p + 144),
                            real_token_reserves: u64_at(d, p + 152),
                            token_total_supply: u64_at(d, p + 160),
                            token_program: d.subrange(p + 168, p + 200),
                            is_mayhem_mode: d[p + 200] == 1,
                            is_cashback_enabled: d[p + 201] == 1,
                        })
                    } else {
                        None
                    }
                },
            },
        },
    }
}

/// The Borsh body of a trade event, which must be consumed exactly.
pub open spec fn decode_trade_body(d: Seq<u8>) -> Option<TradeEventView> {
    if d.len() < 250 || !bool_byte_ok(d, 48) || !bool_byte_ok(d, 217) {
        None
    } else {
        match string_at(d, 250) {
            None => None,
            Some((ix_name, p)) => {
                if d.len() == p + 17 && bool_byte_ok(d, p) {
                    Some(TradeEventView {
                        mint: d.subrange(0, 32),
                        sol_amount: u64_at(d, 32),
                        token_amount: u64_at(d, 40),
                        is_buy: d[48] == 1,
                        user: d.subrange(49, 81),
                        timestamp: i64_at(d, 81),
                        virtual_sol_reserves: u64_at(d, 89),
                        virtual_token_reserves: u64_at(d, 97),
                        real_sol_reserves: u64_at(d, 105),
                        real_token_reserves: u64_at(d, 113),
                        fee_recipient: d.subrange(121, 153),
                        fee_basis_points: u64_at(d, 153),
                        fee: u64_at(d, 161),
                        creator: d.subrange(169, 201),
                        creator_fee_basis_points: u64_at(d, 201),
                        creator_fee: u64_at(d, 209),
                        track_volume: d[217] == 1,
                        total_unclaimed_tokens: u64_at(d, 218),
                        total_claimed_tokens: u64_at(d, 226),
                        current_sol_volume: u64_at(d, 234),
                        last_update_timestamp: i64_at(d, 242),
                        ix_name,
                        mayhem_mode: d[p] == 1,
                        cashback_fee_basis_points: u64_at(d, p + 1),
                        cashback: u64_at(d, p + 9),
                    })
                } else {
                    None
                }
            },
        }
    }
}

/// An event record: the discriminator picks the kind, the rest is its Borsh body.
pub open spec fn decode_event_spec(d: Seq<u8>) -> Option<PumpFunEventView> {
    if d.len() < 8 {
        None
    } else if d.subrange(0, 8) == CREATE_DISCRIMINATOR@ {
        match decode_create_body(d.subrange(8, d.len() as int)) {
            Some(e) => Some(PumpFunEventView::Create(e)),
            None => None,
        }
    } else if d.subrange(0, 8) == TRADE_DISCRIMINATOR@ {
        match decode_trade_body(d.subrange(8, d.len() as int)) {
            Some(e) => Some(PumpFunEventView::Trade(e)),
            None => None,
        }
    } else {
        None
    }
}

fn decode_create(d: &[u8]) -> (res: Option<PumpFunCreateEvent>)
    ensures
        match res {
            Some(e) => decode_create_body(d@) == Some(e@),
            None => decode_create_body(d@) is None,
        },
{
    let (name, p1) = match read_string(d, 0) {
        Some(r) => r,
        None => return None,
    };
    let (symbol, p2) = match read_string(d, p1) {
        Some(r) => r,
        None => return None,
    };
    let (uri, p) = match read_string(d, p2) {
        Some(r) => r,
        None => return None,
    };
    if d.len() - p != CREATE_TAIL_LEN || d[p + 200] > 1 || d[p + 201] > 1 {
        return None;
    }
    let e = PumpFunCreateEvent {
        name,
        symbol,
        uri,
        mint: read_pubkey(d, p),
        bonding_curve: read_pubkey(d, p + 32),
        user: read_pubkey(d, p + 64),
        creator: read_pubkey(d, p + 96),
        timestamp: read_i64(d, p + 128),
        virtual_token_reserves: read_u64(d, p + 136),
        virtual_sol_reserves: read_u64(d, p + 144),
        real_token_reserves: read_u64(d, p + 152),
        token_total_supply: read_u64(d, p + 160),
        token_program: read_pubkey(d, p + 168),
        is_mayhem_mode: d[p + 200] == 1,
        is_cashback_enabled: d[p + 201] == 1,
    };
    Some(e)
}

fn decode_trade(d: &[u8]) -> (res: Option<PumpFunTradeEvent>)
    ensures
        match res {
            Some(e) => decode_trade_body(d@) == Some(e@),
            None => decode_trade_body(d@) is None,
        },
{
    if d.len() < TRADE_HEAD_LEN || d[48] > 1 || d[217] > 1 {
        return None;
    }
    let (ix_name, p) = match read_string(d, TRADE_HEAD_LEN) {
        Some(r) => r,
        None => return None,
    };
    if d.len() - p != TRADE_TAIL_LEN || d[p] > 1 {
        return None;
    }
    let e = PumpFunTradeEvent {
        mint: read_pubkey(d, 0),
        sol_amount: read_u64(d, 32),
        token_amount: read_u64(d, 40),
        is_buy: d[48] == 1,
        user: read_pubkey(d, 49),
        timestamp: read_i64(d, 81),
        virtual_sol_reserves: read_u64(d, 89),
        virtual_token_reserves: read_u64(d, 97),
        real_sol_reserves: read_u64(d, 105),
        real_token_reserves: read_u64(d, 113),
        fee_recipient: read_pubkey(d, 121),
        fee_basis_points: read_u64(d, 153),
        fee: read_u64(d, 161),
        creator: read_pubkey(d, 169),
        creator_fee_basis_points: read_u64(d, 201),
        creator_fee: read_u64(d, 209),
        track_volume: d[217] == 1,
        total_unclaimed_tokens: read_u64(d, 218),
        total_claimed_tokens: read_u64(d, 226),
        current_sol_volume: read_u64(d, 234),
        last_update_timestamp: read_i64(d, 242),
        ix_name,
        mayhem_mode: d[p] == 1,
        cashback_fee_basis_points: read_u64(d, p + 1),
        cashback: read_u64(d, p + 9),
    };
    Some(e)
}

fn starts_with(d: &[u8], prefix: &[u8]) -> (res: bool)
    ensures
        res == (prefix@.len() <= d@.len() && d@.subrange(0, prefix@.len() as int) == prefix@),
{
    if d.len() < prefix.len() {
        return false;
    }
    let mut i: usize = 0;
    while i < prefix.len()
        invariant
            0 <= i <= prefix@.len() <= d@.len(),
            forall|j: int| 0 <= j < i ==> d@[j] == prefix@[j],
        decreases prefix@.len() - i,
    {
        if d[i] != prefix[i] {
            assert(d@.subrange(0, prefix@.len() as int)[i as int] != prefix@[i as int]);
            return false;
        }
        i = i + 1;
    }
    assert(d@.subrange(0, prefix@.len() as int) =~= prefix@);
    true
}

/// Decodes one event record: an 8-byte discriminator and the event's Borsh body.
pub fn decode_event(data: &[u8]) -> (res: Option<PumpFunEvent>)
    ensures
        match res {
            Some(e) => decode_event_spec(data@) == Some(e@),
            None => decode_event_spec(data@) is None,
        },
{
    if data.len() < 8 {
        return None;
    }
    let body = slice_subrange(data, 8, data.len());
    if starts_with(data, CREATE_DISCRIMINATOR.as_slice()) {
        match decode_create(body) {
            Some(e) => Some(PumpFunEvent::Create(e)),
            None => None,
        }
    } else if starts_with(data, TRADE_DISCRIMINATOR.as_slice()) {
        match decode_trade(body) {
            Some(e) => Some(PumpFunEvent::Trade(e)),
            None => None,
        }
    } else {
        None
    }
}


/// The prefix of a log line that carries program data.
pub const LOG_PREFIX: [u8; 14] = [80, 114, 111, 103, 114, 97, 109, 32, 100, 97, 116, 97, 58, 32];

/// The bytes that standard base64 (with padding) decodes `input` to, as the `base64`
/// crate's `BASE64_STANDARD` engine decodes them (`None` where it reports an error).
pub uninterp spec fn base64_standard_decode(input: Seq<u8>) -> Option<Seq<u8>>;

/// `Engine::decode` of `base64::prelude::BASE64_STANDARD`; its result is named by
/// `base64_standard_decode`.
#[verifier::external_body]
fn base64_decode(input: &[u8]) -> (res: Option<Vec<u8>>)
    ensures
        match res {
            Some(v) => base64_standard_decode(input@) == Some(v@),
            None => base64_standard_decode(input@) is None,
        },
{
    base64::Engine::decode(&base64::prelude::BASE64_STANDARD, input).ok()
}

/// The event carried by one log line (given as its UTF-8 bytes): the line starts with
/// `Program data: `, the rest is base64 of an event record.
pub open spec fn event_from_log(log: Seq<u8>) -> Option<PumpFunEventView> {
    if log.len() >= 14 && log.subrange(0, 14) == LOG_PREFIX@ {
        match base64_standard_decode(log.subrange(14, log.len() as int)) {
            Some(d) => decode_event_spec(d),
            None => None,
        }
    } else {
        None
    }
}

/// The events of a list of log lines, in order; lines without an event are skipped.
pub open spec fn events_from_logs(logs: Seq<Seq<u8>>) -> Seq<PumpFunEventView>
    decreases logs.len(),
{
    if logs.len() == 0 {
        seq![]
    } else {
        let prev = events_from_logs(logs.drop_last());
        match event_from_log(logs.last()) {
            Some(e) => prev.push(e),
            None => prev,
        }
    }
}

/// The UTF-8 bytes of each log line.
pub open spec fn log_bytes(logs: Seq<String>) -> Seq<Seq<u8>> {
    logs.map_values(|s: String| encode_utf8(s@))
}

pub open spec fn events_view(events: Seq<PumpFunEvent>) -> Seq<PumpFunEventView> {
    events.map_values(|e: PumpFunEvent| e@)
}

fn event_from_log_line(log: &str) -> (res: Option<PumpFunEvent>)
    ensures
        match res {
            Some(e) => event_from_log(encode_utf8(log@)) == Some(e@),
            None => event_from_log(encode_utf8(log@)) is None,
        },
{
    let bytes = log.as_bytes();
    if !starts_with(bytes, LOG_PREFIX.as_slice()) {
        return None;
    }
    let payload = slice_subrange(bytes, 14, bytes.len());
    match base64_decode(payload) {
        Some(data) => decode_event(data.as_slice()),
        None => None,
    }
}

/// Decodes every PumpFun event in a transaction's log lines, in order.
pub fn decode_events_from_logs(logs: &[String]) -> (res: Vec<PumpFunEvent>)
    ensures
        events_view(res@) == events_from_logs(log_bytes(logs@)),
{
    let mut events: Vec<PumpFunEvent> = Vec::new();
    let ghost all = log_bytes(logs@);
    let mut i: usize = 0;
    while i < logs.len()
        invariant
            0 <= i <= logs@.len(),
            all == log_bytes(logs@),
            events_view(events@) == events_from_logs(all.subrange(0, i as int)),
        decreases logs@.len() - i,
    {
        let ghost before = events@;
        let ev = event_from_log_line(logs[i].as_str());
        assert(all.subrange(0, i + 1).drop_last() =~= all.subrange(0, i as int));
        assert(all.subrange(0, i + 1).last() == encode_utf8(logs@[i as int]@));
        match ev {
            Some(e) => {
                events.push(e);
                assert(events_view(events@) =~= events_view(before).push(e@));
            },
            None => {},
        }
        i = i + 1;
    }
    assert(all.subrange(0, logs@.len() as int) =~= all);
    events
}

} // verus!
