//! State of the terminal interface: the launch and trade feeds, the selection in each
//! panel, the cached token names and the position rows, and how key presses and
//! background results change them.
use vstd::prelude::*;

use crate::events::{
    decode_events_from_logs, events_from_logs, events_view, log_bytes, CreateEventView, PumpFunEvent,
    PumpFunEventView, TradeEventView,
};
use crate::keyed::{distinct_keys, has_key, lookup, upsert, KeyedList};
use crate::metadata::{TokenMeta, TokenMetaView};
use crate::position::{Position, PositionBook, PositionModel};
use crate::pubkey::{base58_text, opt_view, pda, zero_address, Pubkey};
use crate::pumpfun::{bonding_curve_seeds, get_bonding_curve_pda, PUMPFUN};
use crate::text::{copy_str, push_str};
use crate::ui::{fallback_symbol, short_label};

verus! {

/// What a feed row reports.
#[derive(Clone, Copy, Debug, PartialEq, Eq, Structural)]
pub enum FeedKind {
    Create,
    Buy,
    Sell,
}

/// One row of the launch or trade feed.
#[derive(Debug)]
pub struct FeedItem {
    pub timestamp: i64,
    pub kind: FeedKind,
    pub symbol: String,
    pub name: String,
    pub mint: Pubkey,
    pub creator: Pubkey,
    pub bonding_curve: Pubkey,
    /// SOL moved by a trade, in lamports (0 for a launch).
    pub sol_amount_lamports: u64,
    pub user: Pubkey,
    pub token_supply: u64,
    pub is_mayhem_mode: bool,
}

/// The value a [`FeedItem`] stands for.
pub struct FeedItemView {
    pub timestamp: i64,
    pub kind: FeedKind,
    pub symbol: Seq<char>,
    pub name: Seq<char>,
    pub mint: Seq<u8>,
    pub creator: Seq<u8>,
    pub bonding_curve: Seq<u8>,
    pub sol_amount_lamports: u64,
    pub user: Seq<u8>,
    pub token_supply: u64,
    pub is_mayhem_mode: bool,
}

impl View for FeedItem {
    type V = FeedItemView;

    open spec fn view(&self) -> FeedItemView {
        FeedItemView {
            timestamp: self.timestamp,
            kind: self.kind,
            symbol: self.symbol@,
            name: self.name@,
            mint: self.mint@,
            creator: self.creator@,
            bonding_curve: self.bonding_curve@,
            sol_amount_lamports: self.sol_amount_lamports,
            user: self.user@,
            token_supply: self.token_supply,
            is_mayhem_mode: self.is_mayhem_mode,
        }
    }
}

/// The feed row an event becomes: a launch keeps its names and supply; a trade has no
/// names yet, its side as kind, and the bonding curve derived from its mint (the zero
/// address where none is found).
pub open spec fn feed_item_of(ev: PumpFunEventView) -> FeedItemView {
    match ev {
        PumpFunEventView::Create(c) => FeedItemView {
            timestamp: c.timestamp,
            kind: FeedKind::Create,
            symbol: c.symbol,
            name: c.name,
            mint: c.mint,
            creator: c.creator,
            bonding_curve: c.bonding_curve,
            sol_amount_lamports: 0,
            user: c.user,
            token_supply: c.token_total_supply,
            is_mayhem_mode: c.is_mayhem_mode,
        },
        PumpFunEventView::Trade(t) => FeedItemView {
            timestamp: t.timestamp,
            kind: if t.is_buy { FeedKind::Buy } else { FeedKind::Sell },
            symbol: Seq::empty(),
            name: Seq::empty(),
            mint: t.mint,
            creator: t.creator,
            bonding_curve: match pda(bonding_curve_seeds(t.mint), PUMPFUN@) {
                Some(a) => a,
                None => zero_address(),
            },
            sol_amount_lamports: t.sol_amount,
            user: t.user,
            token_supply: 0,
            is_mayhem_mode: t.mayhem_mode,
        },
    }
}

/// A launch row carries the launch's own symbol, name, mint, creator, curve, supply and
/// flag; a trade row carries the trade's mint, side, SOL amount and trader, and no names.
pub proof fn lemma_feed_row_fields(c: CreateEventView, t: TradeEventView)
    ensures
        feed_item_of(PumpFunEventView::Create(c)).symbol == c.symbol,
        feed_item_of(PumpFunEventView::Create(c)).name == c.name,
        feed_item_of(PumpFunEventView::Create(c)).mint == c.mint,
        feed_item_of(PumpFunEventView::Create(c)).creator == c.creator,
        feed_item_of(PumpFunEventView::Create(c)).bonding_curve == c.bonding_curve,
        feed_item_of(PumpFunEventView::Create(c)).token_supply == c.token_total_supply,
        feed_item_of(PumpFunEventView::Create(c)).timestamp == c.timestamp,
        feed_item_of(PumpFunEventView::Create(c)).kind == FeedKind::Create,
        feed_item_of(PumpFunEventView::Create(c)).is_mayhem_mode == c.is_mayhem_mode,
        feed_item_of(PumpFunEventView::Trade(t)).mint == t.mint,
        feed_item_of(PumpFunEventView::Trade(t)).kind == (if t.is_buy { FeedKind::Buy } else { FeedKind::Sell }),
        feed_item_of(PumpFunEventView::Trade(t)).sol_amount_lamports == t.sol_amount,
        feed_item_of(PumpFunEventView::Trade(t)).user == t.user,
        feed_item_of(PumpFunEventView::Trade(t)).creator == t.creator,
        feed_item_of(PumpFunEventView::Trade(t)).symbol.len() == 0,
        feed_item_of(PumpFunEventView::Trade(t)).name.len() == 0,
{
}

impl FeedItem {
    /// A copy of this row.
    pub fn duplicate(&self) -> (res: FeedItem)
        ensures
            res@ == self@,
    {
        FeedItem {
            timestamp: self.timestamp,
            kind: self.kind,
            symbol: self.symbol.clone(),
            name: self.name.clone(),
            mint: self.mint,
            creator: self.creator,
            bonding_curve: self.bonding_curve,
            sol_amount_lamports: self.sol_amount_lamports,
            user: self.user,
            token_supply: self.token_supply,
            is_mayhem_mode: self.is_mayhem_mode,
        }
    }

    /// The feed row for a decoded event.
    pub fn from_event(ev: &PumpFunEvent) -> (res: FeedItem)
        ensures
            res@ == feed_item_of(ev@),
            ev matches PumpFunEvent::Create(c) ==> {
                &&& res.kind == FeedKind::Create
                &&& res.symbol@ == c.symbol@
                &&& res.name@ == c.name@
                &&& res.mint == c.mint
                &&& res.creator == c.creator
                &&& res.bonding_curve == c.bonding_curve
                &&& res.user == c.user
                &&& res.timestamp == c.timestamp
                &&& res.token_supply == c.token_total_supply
                &&& res.is_mayhem_mode == c.is_mayhem_mode
                &&& res.sol_amount_lamports == 0
            },
            ev matches PumpFunEvent::Trade(t) ==> {
                &&& res.kind == (if t.is_buy { FeedKind::Buy } else { FeedKind::Sell })
                &&& res.symbol@.len() == 0
                &&& res.name@.len() == 0
                &&& res.mint == t.mint
                &&& res.creator == t.creator
                &&& res.user == t.user
                &&& res.timestamp == t.timestamp
                &&& res.sol_amount_lamports == t.sol_amount
                &&& res.token_supply == 0
                &&& res.is_mayhem_mode == t.mayhem_mode
            },
    {
        match ev {
            PumpFunEvent::Create(c) => FeedItem {
                timestamp: c.timestamp,
                kind: FeedKind::Create,
                symbol: c.symbol.clone(),
                name: c.name.clone(),
                mint: c.mint,
                creator: c.creator,
                bonding_curve: c.bonding_curve,
                sol_amount_lamports: 0,
                user: c.user,
                token_supply: c.token_total_supply,
                is_mayhem_mode: c.is_mayhem_mode,
            },
            PumpFunEvent::Trade(t) => {
                let bc = match get_bonding_curve_pda(&t.mint) {
                    Some(a) => a,
                    None => Pubkey::default(),
                };
                FeedItem {
                    timestamp: t.timestamp,
                    kind: if t.is_buy { FeedKind::Buy } else { FeedKind::Sell },
                    symbol: String::new(),
                    name: String::new(),
                    mint: t.mint,
                    creator: t.creator,
                    bonding_curve: bc,
                    sol_amount_lamports: t.sol_amount,
                    user: t.user,
                    token_supply: 0,
                    is_mayhem_mode: t.mayhem_mode,
                }
            },
        }
    }
}

/// The views of a list of feed rows.
pub open spec fn items_view(s: Seq<FeedItem>) -> Seq<FeedItemView> {
    s.map_values(|f: FeedItem| f@)
}

/// One row of the positions panel.
#[derive(Debug)]
pub struct PositionView {
    pub mint: Pubkey,
    pub symbol: String,
    pub name: String,
    pub lamports_invested: u64,
    pub token_amount: u64,
    pub entry_timestamp: i64,
    /// What selling every held token would bring, in lamports, once it has been quoted.
    pub current_value_lamports: Option<u64>,
}

/// The value a [`PositionView`] stands for.
pub struct PositionRow {
    pub mint: Seq<u8>,
    pub symbol: Seq<char>,
    pub name: Seq<char>,
    pub lamports_invested: u64,
    pub token_amount: u64,
    pub entry_timestamp: i64,
    pub current_value_lamports: Option<u64>,
}

impl View for PositionView {
    type V = PositionRow;

    open spec fn view(&self) -> PositionRow {
        PositionRow {
            mint: self.mint@,
            symbol: self.symbol@,
            name: self.name@,
            lamports_invested: self.lamports_invested,
            token_amount: self.token_amount,
            entry_timestamp: self.entry_timestamp,
            current_value_lamports: self.current_value_lamports,
        }
    }
}

impl PositionView {
    /// A copy of this row.
    pub fn duplicate(&self) -> (res: PositionView)
        ensures
            res@ == self@,
    {
        PositionView {
            mint: self.mint,
            symbol: self.symbol.clone(),
            name: self.name.clone(),
            lamports_invested: self.lamports_invested,
            token_amount: self.token_amount,
            entry_timestamp: self.entry_timestamp,
            current_value_lamports: self.current_value_lamports,
        }
    }
}

/// The views of a list of position rows.
pub open spec fn rows_view(s: Seq<PositionView>) -> Seq<PositionRow> {
    s.map_values(|p: PositionView| p@)
}

/// The three panels, in the order the Tab key visits them.
#[derive(Clone, Copy, Debug, PartialEq, Eq, Structural)]
pub enum Panel {
    Launches,
    Trades,
    Positions,
}

/// The panel after `p`.
pub open spec fn panel_after(p: Panel) -> Panel {
    match p {
        Panel::Launches => Panel::Trades,
        Panel::Trades => Panel::Positions,
        Panel::Positions => Panel::Launches,
    }
}

/// Tab visits the three panels in turn and comes back to where it started.
pub proof fn lemma_panel_cycle(p: Panel)
    ensures
        panel_after(panel_after(panel_after(p))) == p,
        panel_after(p) != p,
{
}

/// Counters shown in the header.
#[derive(Clone, Copy, Debug)]
pub struct Stats {
    pub tokens_seen: usize,
    pub trades_seen: usize,
    pub grpc_connected: bool,
}

/// Token names and symbols known so far, keyed by mint.
pub type MetaCache = KeyedList<TokenMeta>;

/// Rows kept in each feed.
pub const MAX_FEED_ITEMS: usize = 500;

/// The state of the interface.
pub struct App {
    pub running: bool,
    pub active_panel: Panel,
    pub paused: bool,
    /// Launches, newest first.
    pub launches: Vec<FeedItem>,
    /// Trades, newest first.
    pub trades: Vec<FeedItem>,
    pub selected_launch: usize,
    pub selected_trade: usize,
    pub position_views: Vec<PositionView>,
    pub selected_position: usize,
    pub status_message: String,
    pub stats: Stats,
    /// The wallet's balance in lamports.
    pub sol_balance_lamports: u64,
    pub meta_cache: MetaCache,
    /// The mints whose metadata has been asked for and not yet received.
    pub meta_fetching: KeyedList<()>,
}

/// The feeds, position rows, cache, fetch list, counters, balance and running flag of `a`
/// are those of `b`.
pub open spec fn same_data(a: App, b: App) -> bool {
    &&& a.launches@ == b.launches@
    &&& a.trades@ == b.trades@
    &&& a.position_views@ == b.position_views@
    &&& a.meta_cache@ == b.meta_cache@
    &&& a.meta_fetching@ == b.meta_fetching@
    &&& a.stats == b.stats
    &&& a.sol_balance_lamports == b.sol_balance_lamports
    &&& a.running == b.running
}

/// The label of `mint`: its cached symbol when that is not empty, otherwise
/// `first4...last2` of its address.
pub open spec fn symbol_label(cache: Seq<(Seq<u8>, TokenMetaView)>, mint: Seq<u8>) -> Seq<char> {
    match lookup(cache, mint) {
        Some(m) => if m.symbol.len() > 0 { m.symbol } else { short_label(base58_text(mint)) },
        None => short_label(base58_text(mint)),
    }
}

/// The cached name of `mint`, empty when there is none.
pub open spec fn name_label(cache: Seq<(Seq<u8>, TokenMetaView)>, mint: Seq<u8>) -> Seq<char> {
    match lookup(cache, mint) {
        Some(m) => m.name,
        None => Seq::empty(),
    }
}

/// `i` moved one row up, stopping at the first.
pub open spec fn row_above(i: usize) -> usize {
    if i > 0 { (i - 1) as usize } else { i }
}

/// `i` moved one row down in a list of `len` rows, stopping at the last; unchanged in an
/// empty list.
pub open spec fn row_below(i: usize, len: nat) -> usize {
    if len == 0 {
        i
    } else if i + 1 < len - 1 {
        (i + 1) as usize
    } else {
        (len - 1) as usize
    }
}

/// Moving down in a non-empty list goes to `min(i + 1, len - 1)`: exactly one row down
/// while a row lies below, the last row otherwise, so every row is reached in turn;
/// moving up from a row below the first goes exactly one row up (for any list length a
/// `Vec` can have).
pub proof fn lemma_row_moves(i: usize, len: nat)
    requires
        len <= usize::MAX,
    ensures
        len > 0 && i + 1 < len ==> row_below(i, len) == i + 1,
        len > 0 && i + 1 >= len ==> row_below(i, len) == len - 1,
        len > 0 ==> row_below(i, len) < len,
        len == 0 ==> row_below(i, len) == i,
        i > 0 ==> row_above(i) == i - 1,
        i == 0 ==> row_above(i) == 0,
        len > 0 && i < len ==> row_above(row_below(i, len)) <= i,
{
}

impl App {
    /// Each selection is the first row or a row of its list.
    pub open spec fn selections_valid(&self) -> bool {
        &&& (self.selected_launch == 0 || self.selected_launch < self.launches@.len())
        &&& (self.selected_trade == 0 || self.selected_trade < self.trades@.len())
        &&& (self.selected_position == 0 || self.selected_position < self.position_views@.len())
    }

    /// The state at start: nothing seen, the launches panel active, status `Ready`.
    pub fn new() -> (res: App)
        ensures
            res.running,
            res.active_panel == Panel::Launches,
            !res.paused,
            res.launches@.len() == 0,
            res.trades@.len() == 0,
            res.selected_launch == 0,
            res.selected_trade == 0,
            res.position_views@.len() == 0,
            res.selected_position == 0,
            res.status_message@ == "Ready"@,
            res.stats.tokens_seen == 0,
            res.stats.trades_seen == 0,
            !res.stats.grpc_connected,
            res.sol_balance_lamports == 0,
            res.meta_cache@.len() == 0,
            res.meta_fetching@.len() == 0,
            res.selections_valid(),
    {
        App {
            running: true,
            active_panel: Panel::Launches,
            paused: false,
            launches: Vec::new(),
            trades: Vec::new(),
            selected_launch: 0,
            selected_trade: 0,
            position_views: Vec::new(),
            selected_position: 0,
            status_message: copy_str("Ready"),
            stats: Stats { tokens_seen: 0, trades_seen: 0, grpc_connected: false },
            sol_balance_lamports: 0,
            meta_cache: KeyedList::new(),
            meta_fetching: KeyedList::new(),
        }
    }

    /// The label shown for `mint`.
    pub fn symbol_for(&self, mint: &Pubkey) -> (res: String)
        ensures
            res@ == symbol_label(self.meta_cache@, mint@),
    {
        match self.meta_cache.get(mint) {
            Some(meta) => {
                if !meta.symbol.as_str().is_empty() {
                    return meta.symbol.clone();
                }
            },
            None => {},
        }
        fallback_symbol(mint)
    }

    /// The cached name of `mint`, empty when unknown.
    pub fn name_for(&self, mint: &Pubkey) -> (res: String)
        ensures
            res@ == name_label(self.meta_cache@, mint@),
    {
        match self.meta_cache.get(mint) {
            Some(meta) => meta.name.clone(),
            None => String::new(),
        }
    }

    /// Freezes or unfreezes the feeds.
    pub fn toggle_pause(&mut self)
        ensures
            old(self).selections_valid() ==> final(self).selections_valid(),
            final(self).paused == !old(self).paused,
            final(self).status_message@ == (if final(self).paused {
                "PAUSED - feed frozen"@
            } else {
                "Resumed"@
            }),
            same_data(*final(self), *old(self)),
            final(self).active_panel == old(self).active_panel,
            final(self).selected_launch == old(self).selected_launch,
            final(self).selected_trade == old(self).selected_trade,
            final(self).selected_position == old(self).selected_position,
    {
        self.paused = !self.paused;
        if self.paused {
            self.status_message = copy_str("PAUSED - feed frozen");
        } else {
            self.status_message = copy_str("Resumed");
        }
    }

    /// Moves the selection of the active panel one row up.
    pub fn move_up(&mut self)
        ensures
            old(self).selections_valid() ==> final(self).selections_valid(),
            final(self).selected_launch == (if old(self).active_panel == Panel::Launches {
                row_above(old(self).selected_launch)
            } else {
                old(self).selected_launch
            }),
            final(self).selected_trade == (if old(self).active_panel == Panel::Trades {
                row_above(old(self).selected_trade)
            } else {
                old(self).selected_trade
            }),
            final(self).selected_position == (if old(self).active_panel == Panel::Positions {
                row_above(old(self).selected_position)
            } else {
                old(self).selected_position
            }),
            final(self).active_panel == old(self).active_panel,
            final(self).paused == old(self).paused,
            final(self).status_message@ == old(self).status_message@,
            same_data(*final(self), *old(self)),
    {
        match self.active_panel {
            Panel::Launches => {
                if self.selected_launch > 0 {
                    self.selected_launch = self.selected_launch - 1;
                }
            },
            Panel::Trades => {
                if self.selected_trade > 0 {
                    self.selected_trade = self.selected_trade - 1;
                }
            },
            Panel::Positions => {
                if self.selected_position > 0 {
                    self.selected_position = self.selected_position - 1;
                }
            },
        }
    }

    /// Moves the selection of the active panel one row down, stopping at its last row.
    pub fn move_down(&mut self)
        ensures
            old(self).active_panel == Panel::Launches && old(self).launches@.len() > 0 ==> final(self).selected_launch == (
                if old(self).selected_launch + 1 < old(self).launches@.len() { old(self).selected_launch + 1 } else { old(self).launches@.len() - 1 }),
            old(self).active_panel == Panel::Trades && old(self).trades@.len() > 0 ==> final(self).selected_trade == (
                if old(self).selected_trade + 1 < old(self).trades@.len() { old(self).selected_trade + 1 } else { old(self).trades@.len() - 1 }),
            old(self).active_panel == Panel::Positions && old(self).position_views@.len() > 0 ==> final(self).selected_position == (
                if old(self).selected_position + 1 < old(self).position_views@.len() { old(self).selected_position + 1 } else { old(self).position_views@.len() - 1 }),
            old(self).selections_valid() ==> final(self).selections_valid(),
            final(self).selected_launch == (if old(self).active_panel == Panel::Launches {
                row_below(old(self).selected_launch, old(self).launches@.len())
            } else {
                old(self).selected_launch
            }),
            final(self).selected_trade == (if old(self).active_panel == Panel::Trades {
                row_below(old(self).selected_trade, old(self).trades@.len())
            } else {
                old(self).selected_trade
            }),
            final(self).selected_position == (if old(self).active_panel == Panel::Positions {
                row_below(old(self).selected_position, old(self).position_views@.len())
            } else {
                old(self).selected_position
            }),
            final(self).active_panel == old(self).active_panel,
            final(self).paused == old(self).paused,
            final(self).status_message@ == old(self).status_message@,
            same_data(*final(self), *old(self)),
    {
        match self.active_panel {
            Panel::Launches => {
                self.selected_launch = next_row(self.selected_launch, self.launches.len());
            },
            Panel::Trades => {
                self.selected_trade = next_row(self.selected_trade, self.trades.len());
            },
            Panel::Positions => {
                self.selected_position = next_row(self.selected_position, self.position_views.len());
            },
        }
    }

    /// Makes the next panel active.
    pub fn next_panel(&mut self)
        ensures
            old(self).selections_valid() ==> final(self).selections_valid(),
            final(self).active_panel == panel_after(old(self).active_panel),
            final(self).selected_launch == old(self).selected_launch,
            final(self).selected_trade == old(self).selected_trade,
            final(self).selected_position == old(self).selected_position,
            final(self).paused == old(self).paused,
            final(self).status_message@ == old(self).status_message@,
            same_data(*final(self), *old(self)),
    {
        self.active_panel = match self.active_panel {
            Panel::Launches => Panel::Trades,
            Panel::Trades => Panel::Positions,
            Panel::Positions => Panel::Launches,
        };
    }

    /// The feed row selected in the active panel (none in the positions panel, or past
    /// the end of the list).
    pub fn selected_feed_item(&self) -> (res: Option<&FeedItem>)
        ensures
            match res {
                Some(item) => match self.active_panel {
                    Panel::Launches => self.selected_launch < self.launches@.len()
                        && item@ == self.launches@[self.selected_launch as int]@,
                    Panel::Trades => self.selected_trade < self.trades@.len()
                        && item@ == self.trades@[self.selected_trade as int]@,
                    Panel::Positions => false,
                },
                None => match self.active_panel {
                    Panel::Launches => self.selected_launch >= self.launches@.len(),
                    Panel::Trades => self.selected_trade >= self.trades@.len(),
                    Panel::Positions => true,
                },
            },
    {
        match self.active_panel {
            Panel::Launches => {
                if self.selected_launch < self.launches.len() {
                    Some(&self.launches[self.selected_launch])
                } else {
                    None
                }
            },
            Panel::Trades => {
                if self.selected_trade < self.trades.len() {
                    Some(&self.trades[self.selected_trade])
                } else {
                    None
                }
            },
            Panel::Positions => None,
        }
    }
}

/// `item` put first in a feed, the oldest row dropped when that makes more than
/// [`MAX_FEED_ITEMS`].
pub open spec fn push_capped(s: Seq<FeedItemView>, item: FeedItemView) -> Seq<FeedItemView> {
    let t = seq![item] + s;
    if t.len() > MAX_FEED_ITEMS { t.drop_last() } else { t }
}

/// A feed never grows past [`MAX_FEED_ITEMS`] rows, the newest row comes first, and the
/// older rows follow in their order.
pub proof fn lemma_push_capped(s: Seq<FeedItemView>, item: FeedItemView)
    requires
        s.len() <= MAX_FEED_ITEMS,
    ensures
        push_capped(s, item).len() <= MAX_FEED_ITEMS,
        push_capped(s, item).len() == (if s.len() < MAX_FEED_ITEMS { s.len() + 1 } else { s.len() }),
        push_capped(s, item)[0] == item,
        forall|k: int| 0 <= k < push_capped(s, item).len() - 1 ==> #[trigger] push_capped(s, item)[k + 1] == s[k],
{
    let t = seq![item] + s;
    assert(t[0] == item);
    assert forall|k: int| 0 <= k < push_capped(s, item).len() - 1 implies #[trigger] push_capped(s, item)[k + 1] == s[k] by {
        assert(t[k + 1] == s[k]);
    }
}

/// The cache after a row arrives: a row carrying a symbol or a name records both.
pub open spec fn cache_after_item(cache: Seq<(Seq<u8>, TokenMetaView)>, item: FeedItemView) -> Seq<(Seq<u8>, TokenMetaView)> {
    if item.symbol.len() > 0 || item.name.len() > 0 {
        upsert(cache, item.mint, TokenMetaView { name: item.name, symbol: item.symbol })
    } else {
        cache
    }
}

/// A trade row without a symbol takes the cached symbol and name of its mint.
pub open spec fn with_cached_meta(item: FeedItemView, cache: Seq<(Seq<u8>, TokenMetaView)>) -> FeedItemView {
    if item.symbol.len() == 0 {
        match lookup(cache, item.mint) {
            Some(m) => FeedItemView { symbol: m.symbol, name: m.name, ..item },
            None => item,
        }
    } else {
        item
    }
}

/// Whether the metadata of `mint` is neither cached nor already asked for.
pub open spec fn needs_fetch(cache: Seq<(Seq<u8>, TokenMetaView)>, fetching: Seq<(Seq<u8>, ())>, mint: Seq<u8>) -> bool {
    !has_key(cache, mint) && !has_key(fetching, mint)
}

/// Trade rows of `mint` still without a symbol take `m`'s symbol and name.
pub open spec fn trades_with_meta(s: Seq<FeedItemView>, mint: Seq<u8>, m: TokenMetaView) -> Seq<FeedItemView> {
    Seq::new(s.len(), |i: int| if s[i].mint == mint && s[i].symbol.len() == 0 {
        FeedItemView { symbol: m.symbol, name: m.name, ..s[i] }
    } else {
        s[i]
    })
}

/// Position rows of `mint` take `m`'s symbol and name.
pub open spec fn rows_with_meta(s: Seq<PositionRow>, mint: Seq<u8>, m: TokenMetaView) -> Seq<PositionRow> {
    Seq::new(s.len(), |i: int| if s[i].mint == mint {
        PositionRow { symbol: m.symbol, name: m.name, ..s[i] }
    } else {
        s[i]
    })
}

/// Records the names a row carries.
fn cache_meta_from_item(cache: &mut MetaCache, item: &FeedItem)
    ensures
        final(cache)@ == cache_after_item(old(cache)@, item@),
{
    if !item.symbol.as_str().is_empty() || !item.name.as_str().is_empty() {
        cache.insert(item.mint, TokenMeta { name: item.name.clone(), symbol: item.symbol.clone() });
    }
}

/// Marks the metadata of `mint` as asked for, unless it is cached or already asked for;
/// says whether it did (and so whether a fetch should start).
fn ensure_metadata(cache: &MetaCache, fetching: &mut KeyedList<()>, mint: Pubkey) -> (started: bool)
    ensures
        started == needs_fetch(cache@, old(fetching)@, mint@),
        started ==> final(fetching)@ == upsert(old(fetching)@, mint@, ()),
        !started ==> final(fetching)@ == old(fetching)@,
{
    if cache.contains_key(&mint) {
        return false;
    }
    if fetching.contains_key(&mint) {
        return false;
    }
    fetching.insert(mint, ());
    true
}

/// Puts `item` first in `feed`, dropping the oldest row past [`MAX_FEED_ITEMS`].
fn push_front_capped(feed: &mut Vec<FeedItem>, item: FeedItem)
    ensures
        items_view(final(feed)@) == push_capped(items_view(old(feed)@), item@),
        final(feed)@.len() >= old(feed)@.len(),
{
    let ghost iv = item@;
    feed.insert(0, item);
    assert(items_view(feed@) =~= seq![iv] + items_view(old(feed)@));
    if feed.len() > MAX_FEED_ITEMS {
        feed.pop();
        assert(items_view(feed@) =~= (seq![iv] + items_view(old(feed)@)).drop_last());
    }
}

/// Fills in the symbol and name of the trade rows of `mint` that have none.
fn fill_trade_meta(trades: &mut Vec<FeedItem>, mint: &Pubkey, meta: &TokenMeta)
    ensures
        items_view(final(trades)@) == trades_with_meta(items_view(old(trades)@), mint@, meta@),
        final(trades)@.len() == old(trades)@.len(),
{
    let ghost start = items_view(trades@);
    let mut i: usize = 0;
    let n = trades.len();
    while i < n
        invariant
            0 <= i <= n,
            n == trades@.len(),
            start.len() == n,
            forall|j: int| 0 <= j < i ==> (#[trigger] trades@[j])@ == trades_with_meta(start, mint@, meta@)[j],
            forall|j: int| i <= j < n ==> (#[trigger] trades@[j])@ == start[j],
        decreases n - i,
    {
        if trades[i].mint.same(mint) && trades[i].symbol.as_str().is_empty() {
            let mut item = trades[i].duplicate();
            item.symbol = meta.symbol.clone();
            item.name = meta.name.clone();
            trades.set(i, item);
        }
        i = i + 1;
    }
    assert(items_view(trades@) =~= trades_with_meta(start, mint@, meta@));
}

/// Sets the symbol and name of the position rows of `mint`.
fn fill_row_meta(rows: &mut Vec<PositionView>, mint: &Pubkey, meta: &TokenMeta)
    ensures
        rows_view(final(rows)@) == rows_with_meta(rows_view(old(rows)@), mint@, meta@),
        final(rows)@.len() == old(rows)@.len(),
{
    let ghost start = rows_view(rows@);
    let mut i: usize = 0;
    let n = rows.len();
    while i < n
        invariant
            0 <= i <= n,
            n == rows@.len(),
            start.len() == n,
            forall|j: int| 0 <= j < i ==> (#[trigger] rows@[j])@ == rows_with_meta(start, mint@, meta@)[j],
            forall|j: int| i <= j < n ==> (#[trigger] rows@[j])@ == start[j],
        decreases n - i,
    {
        if rows[i].mint.same(mint) {
            let mut row = rows[i].duplicate();
            row.symbol = meta.symbol.clone();
            row.name = meta.name.clone();
            rows.set(i, row);
        }
        i = i + 1;
    }
    assert(rows_view(rows@) =~= rows_with_meta(start, mint@, meta@));
}

impl App {
    /// Adds a row to its feed unless the feeds are paused. A launch goes first in the
    /// launches; a trade goes first in the trades, taking the cached names of its mint when
    /// it has no symbol. Returns the mint whose metadata should now be fetched, if any.
    pub fn push_feed_item(&mut self, item: FeedItem) -> (fetch: Option<Pubkey>)
        requires
            old(self).stats.tokens_seen < usize::MAX,
            old(self).stats.trades_seen < usize::MAX,
        ensures
            old(self).selections_valid() ==> final(self).selections_valid(),
            old(self).paused ==> fetch is None && final(self).launches@ == old(self).launches@
                && final(self).trades@ == old(self).trades@ && final(self).meta_cache@ == old(self).meta_cache@
                && final(self).meta_fetching@ == old(self).meta_fetching@ && final(self).stats == old(self).stats,
            !old(self).paused ==> final(self).meta_cache@ == cache_after_item(old(self).meta_cache@, item@),
            !old(self).paused && item.kind == FeedKind::Create ==> {
                &&& final(self).stats.tokens_seen == old(self).stats.tokens_seen + 1
                &&& final(self).stats.trades_seen == old(self).stats.trades_seen
                &&& items_view(final(self).launches@) == push_capped(items_view(old(self).launches@), item@)
                &&& final(self).trades@ == old(self).trades@
                &&& final(self).meta_fetching@ == old(self).meta_fetching@
                &&& fetch is None
            },
            !old(self).paused && item.kind != FeedKind::Create ==> {
                &&& final(self).stats.tokens_seen == old(self).stats.tokens_seen
                &&& final(self).stats.trades_seen == old(self).stats.trades_seen + 1
                &&& final(self).launches@ == old(self).launches@
                &&& items_view(final(self).trades@) == push_capped(
                    items_view(old(self).trades@),
                    with_cached_meta(item@, cache_after_item(old(self).meta_cache@, item@)),
                )
            },
            !old(self).paused && item.kind != FeedKind::Create && item.symbol@.len() == 0
                && needs_fetch(cache_after_item(old(self).meta_cache@, item@), old(self).meta_fetching@, item.mint@)
                ==> final(self).meta_fetching@ == upsert(old(self).meta_fetching@, item.mint@, ())
                    && opt_view(fetch) == Some(item.mint@),
            !(!old(self).paused && item.kind != FeedKind::Create && item.symbol@.len() == 0
                && needs_fetch(cache_after_item(old(self).meta_cache@, item@), old(self).meta_fetching@, item.mint@))
                ==> final(self).meta_fetching@ == old(self).meta_fetching@ && fetch is None,
            final(self).stats.grpc_connected == old(self).stats.grpc_connected,
            final(self).paused == old(self).paused,
            final(self).running == old(self).running,
            final(self).active_panel == old(self).active_panel,
            final(self).selected_launch == old(self).selected_launch,
            final(self).selected_trade == old(self).selected_trade,
            final(self).selected_position == old(self).selected_position,
            final(self).position_views@ == old(self).position_views@,
            final(self).status_message@ == old(self).status_message@,
            final(self).sol_balance_lamports == old(self).sol_balance_lamports,
    {
        if self.paused {
            return None;
        }
        cache_meta_from_item(&mut self.meta_cache, &item);
        match item.kind {
            FeedKind::Create => {
                self.stats.tokens_seen = self.stats.tokens_seen + 1;
                push_front_capped(&mut self.launches, item);
                None
            },
            _ => {
                self.stats.trades_seen = self.stats.trades_seen + 1;
                let mut item = item;
                let mut fetch: Option<Pubkey> = None;
                if item.symbol.as_str().is_empty() {
                    let cached: Option<TokenMeta> = match self.meta_cache.get(&item.mint) {
                        Some(m) => Some(m.clone_meta()),
                        None => None,
                    };
                    match cached {
                        Some(m) => {
                            item.symbol = m.symbol;
                            item.name = m.name;
                        },
                        None => {
                            if ensure_metadata(&self.meta_cache, &mut self.meta_fetching, item.mint) {
                                fetch = Some(item.mint);
                            }
                        },
                    }
                }
                push_front_capped(&mut self.trades, item);
                fetch
            },
        }
    }

    /// Records fetched metadata for `mint`: cached, no longer asked for, and shown on the
    /// trade rows without a symbol and on the position row of that mint.
    pub fn apply_metadata(&mut self, mint: Pubkey, meta: TokenMeta)
        ensures
            old(self).selections_valid() ==> final(self).selections_valid(),
            final(self).meta_cache@ == upsert(old(self).meta_cache@, mint@, meta@),
            final(self).meta_fetching@ == crate::keyed::remove_key(old(self).meta_fetching@, mint@),
            items_view(final(self).trades@) == trades_with_meta(items_view(old(self).trades@), mint@, meta@),
            rows_view(final(self).position_views@) == rows_with_meta(rows_view(old(self).position_views@), mint@, meta@),
            final(self).launches@ == old(self).launches@,
            final(self).stats == old(self).stats,
            final(self).paused == old(self).paused,
            final(self).running == old(self).running,
            final(self).active_panel == old(self).active_panel,
            final(self).selected_launch == old(self).selected_launch,
            final(self).selected_trade == old(self).selected_trade,
            final(self).selected_position == old(self).selected_position,
            final(self).status_message@ == old(self).status_message@,
            final(self).sol_balance_lamports == old(self).sol_balance_lamports,
    {
        self.meta_cache.insert(mint, meta.clone_meta());
        self.meta_fetching.remove(&mint);
        fill_trade_meta(&mut self.trades, &mint, &meta);
        fill_row_meta(&mut self.position_views, &mint, &meta);
    }
}

/// The cache after the positions are read: a position with a symbol records its names
/// when its mint is not cached yet.
pub open spec fn cache_after_positions(
    cache: Seq<(Seq<u8>, TokenMetaView)>,
    ps: Seq<(Seq<u8>, PositionModel)>,
) -> Seq<(Seq<u8>, TokenMetaView)>
    decreases ps.len(),
{
    if ps.len() == 0 {
        cache
    } else {
        let c = cache_after_positions(cache, ps.drop_last());
        let p = ps.last().1;
        if p.symbol.len() > 0 && !has_key(c, p.mint) {
            upsert(c, p.mint, TokenMetaView { name: p.name, symbol: p.symbol })
        } else {
            c
        }
    }
}

/// The last row of `mint`, if any.
pub open spec fn last_row_of(rows: Seq<PositionRow>, mint: Seq<u8>) -> Option<PositionRow>
    decreases rows.len(),
{
    if rows.len() == 0 {
        None
    } else if rows.last().mint == mint {
        Some(rows.last())
    } else {
        last_row_of(rows.drop_last(), mint)
    }
}

/// The symbol shown for a position: the cached one when not empty, else the position's
/// own, else `first4...last2` of the mint.
pub open spec fn position_symbol(cache: Seq<(Seq<u8>, TokenMetaView)>, p: PositionModel) -> Seq<char> {
    match lookup(cache, p.mint) {
        Some(m) => if m.symbol.len() > 0 {
            m.symbol
        } else if p.symbol.len() > 0 {
            p.symbol
        } else {
            short_label(base58_text(p.mint))
        },
        None => if p.symbol.len() > 0 { p.symbol } else { short_label(base58_text(p.mint)) },
    }
}

/// The row of a position: names from the cache (or the position), amounts from the
/// position, and the last quoted value of the previous row of the same mint.
pub open spec fn row_of_position(
    cache: Seq<(Seq<u8>, TokenMetaView)>,
    old_rows: Seq<PositionRow>,
    p: PositionModel,
) -> PositionRow {
    PositionRow {
        mint: p.mint,
        symbol: position_symbol(cache, p),
        name: match lookup(cache, p.mint) {
            Some(m) => m.name,
            None => p.name,
        },
        lamports_invested: p.lamports_invested,
        token_amount: p.token_amount,
        entry_timestamp: p.entry_timestamp,
        current_value_lamports: match last_row_of(old_rows, p.mint) {
            Some(r) => r.current_value_lamports,
            None => None,
        },
    }
}

/// The rows of the positions, in order.
pub open spec fn rows_for_positions(
    cache: Seq<(Seq<u8>, TokenMetaView)>,
    old_rows: Seq<PositionRow>,
    ps: Seq<(Seq<u8>, PositionModel)>,
) -> Seq<PositionRow> {
    Seq::new(ps.len(), |i: int| row_of_position(cache, old_rows, ps[i].1))
}

/// The fetch list after asking, row by row, for the metadata of each mint not cached,
/// and the mints whose fetch started, in order.
pub open spec fn fetches_for_rows(
    cache: Seq<(Seq<u8>, TokenMetaView)>,
    fetching: Seq<(Seq<u8>, ())>,
    rows: Seq<PositionRow>,
) -> (Seq<(Seq<u8>, ())>, Seq<Seq<u8>>)
    decreases rows.len(),
{
    if rows.len() == 0 {
        (fetching, Seq::empty())
    } else {
        let (f, started) = fetches_for_rows(cache, fetching, rows.drop_last());
        let m = rows.last().mint;
        if needs_fetch(cache, f, m) {
            (upsert(f, m, ()), started.push(m))
        } else {
            (f, started)
        }
    }
}

/// The views of a list of addresses.
pub open spec fn keys_view(s: Seq<Pubkey>) -> Seq<Seq<u8>> {
    s.map_values(|k: Pubkey| k@)
}

/// The selection kept within a list of `len` rows.
pub open spec fn clamp_row(i: usize, len: nat) -> usize {
    if len == 0 {
        0
    } else if i < len - 1 {
        i
    } else {
        (len - 1) as usize
    }
}

/// The quoted value of the last row of `mint`.
fn previous_value(rows: &Vec<PositionView>, mint: &Pubkey) -> (res: Option<u64>)
    ensures
        res == (match last_row_of(rows_view(rows@), mint@) {
            Some(r) => r.current_value_lamports,
            None => None,
        }),
{
    let ghost rv = rows_view(rows@);
    let mut i: usize = rows.len();
    assert(rv.take(i as int) =~= rv);
    while i > 0
        invariant
            0 <= i <= rows@.len(),
            rv == rows_view(rows@),
            last_row_of(rv, mint@) == last_row_of(rv.take(i as int), mint@),
        decreases i,
    {
        assert(rv.take(i as int).last() == rows@[i - 1]@);
        if rows[i - 1].mint.same(mint) {
            return rows[i - 1].current_value_lamports;
        }
        assert(rv.take(i as int).drop_last() =~= rv.take(i - 1));
        i = i - 1;
    }
    None
}

fn position_symbol_text(cache: &MetaCache, p: &Position) -> (res: String)
    ensures
        res@ == position_symbol(cache@, p@),
{
    match cache.get(&p.mint) {
        Some(m) => {
            if !m.symbol.as_str().is_empty() {
                return m.symbol.clone();
            }
        },
        None => {},
    }
    if !p.symbol.as_str().is_empty() {
        p.symbol.clone()
    } else {
        fallback_symbol(&p.mint)
    }
}

fn row_for(cache: &MetaCache, old_rows: &Vec<PositionView>, p: &Position) -> (res: PositionView)
    ensures
        res@ == row_of_position(cache@, rows_view(old_rows@), p@),
{
    let symbol = position_symbol_text(cache, p);
    let name = match cache.get(&p.mint) {
        Some(m) => m.name.clone(),
        None => p.name.clone(),
    };
    PositionView {
        mint: p.mint,
        symbol,
        name,
        lamports_invested: p.lamports_invested,
        token_amount: p.token_amount,
        entry_timestamp: p.entry_timestamp,
        current_value_lamports: previous_value(old_rows, &p.mint),
    }
}

fn cache_positions(cache: &mut MetaCache, book: &PositionBook)
    ensures
        final(cache)@ == cache_after_positions(old(cache)@, book@),
{
    let ghost c0 = cache@;
    let n = book.len();
    let mut i: usize = 0;
    assert(book@.take(0) =~= Seq::<(Seq<u8>, PositionModel)>::empty());
    while i < n
        invariant
            0 <= i <= n,
            n == book@.len(),
            cache@ == cache_after_positions(c0, book@.take(i as int)),
        decreases n - i,
    {
        let p = &book.entry(i).1;
        assert(book@.take(i + 1).drop_last() =~= book@.take(i as int));
        assert(book@.take(i + 1).last() == book@[i as int]);
        if !p.symbol.as_str().is_empty() && !cache.contains_key(&p.mint) {
            cache.insert(p.mint, TokenMeta { name: p.name.clone(), symbol: p.symbol.clone() });
        }
        i = i + 1;
    }
    assert(book@.take(n as int) =~= book@);
}

fn rows_of_book(cache: &MetaCache, old_rows: &Vec<PositionView>, book: &PositionBook) -> (res: Vec<PositionView>)
    ensures
        rows_view(res@) == rows_for_positions(cache@, rows_view(old_rows@), book@),
{
    let n = book.len();
    let mut out: Vec<PositionView> = Vec::new();
    let mut i: usize = 0;
    while i < n
        invariant
            0 <= i <= n,
            n == book@.len(),
            out@.len() == i,
            forall|j: int| 0 <= j < i ==> (#[trigger] out@[j])@ == row_of_position(cache@, rows_view(old_rows@), book@[j].1),
        decreases n - i,
    {
        out.push(row_for(cache, old_rows, &book.entry(i).1));
        i = i + 1;
    }
    assert(rows_view(out@) =~= rows_for_positions(cache@, rows_view(old_rows@), book@));
    out
}

fn fetch_missing(cache: &MetaCache, fetching: &mut KeyedList<()>, rows: &Vec<PositionView>) -> (res: Vec<Pubkey>)
    ensures
        (final(fetching)@, keys_view(res@)) == fetches_for_rows(cache@, old(fetching)@, rows_view(rows@)),
{
    let ghost f0 = fetching@;
    let ghost rv = rows_view(rows@);
    let n = rows.len();
    let mut out: Vec<Pubkey> = Vec::new();
    let mut i: usize = 0;
    assert(rv.take(0) =~= Seq::<PositionRow>::empty());
    assert(keys_view(out@) =~= Seq::<Seq<u8>>::empty());
    while i < n
        invariant
            0 <= i <= n,
            n == rows@.len(),
            rv == rows_view(rows@),
            (fetching@, keys_view(out@)) == fetches_for_rows(cache@, f0, rv.take(i as int)),
        decreases n - i,
    {
        assert(rv.take(i + 1).drop_last() =~= rv.take(i as int));
        assert(rv.take(i + 1).last() == rows@[i as int]@);
        let m = rows[i].mint;
        let ghost before = keys_view(out@);
        if ensure_metadata(cache, fetching, m) {
            out.push(m);
            assert(keys_view(out@) =~= before.push(m@));
        }
        i = i + 1;
    }
    assert(rv.take(n as int) =~= rv);
    out
}

impl App {
    /// Rebuilds the position rows from the positions: names are cached first, each row
    /// keeps the last quoted value of its mint, and the selection is kept within the rows.
    /// Returns the mints whose metadata should now be fetched.
    pub fn refresh_position_views(&mut self, book: &PositionBook) -> (fetch: Vec<Pubkey>)
        ensures
            old(self).selections_valid() ==> final(self).selections_valid(),
            final(self).meta_cache@ == cache_after_positions(old(self).meta_cache@, book@),
            rows_view(final(self).position_views@) == rows_for_positions(
                final(self).meta_cache@,
                rows_view(old(self).position_views@),
                book@,
            ),
            (final(self).meta_fetching@, keys_view(fetch@)) == fetches_for_rows(
                final(self).meta_cache@,
                old(self).meta_fetching@,
                rows_view(final(self).position_views@),
            ),
            final(self).selected_position == clamp_row(old(self).selected_position, book@.len()),
            final(self).launches@ == old(self).launches@,
            final(self).trades@ == old(self).trades@,
            final(self).stats == old(self).stats,
            final(self).paused == old(self).paused,
            final(self).running == old(self).running,
            final(self).active_panel == old(self).active_panel,
            final(self).selected_launch == old(self).selected_launch,
            final(self).selected_trade == old(self).selected_trade,
            final(self).status_message@ == old(self).status_message@,
            final(self).sol_balance_lamports == old(self).sol_balance_lamports,
    {
        cache_positions(&mut self.meta_cache, book);
        let rows = rows_of_book(&self.meta_cache, &self.position_views, book);
        self.position_views = rows;
        let fetch = fetch_missing(&self.meta_cache, &mut self.meta_fetching, &self.position_views);
        let n = self.position_views.len();
        if n == 0 {
            self.selected_position = 0;
        } else if self.selected_position >= n - 1 {
            self.selected_position = n - 1;
        }
        fetch
    }
}

/// `i` is the first row of `mint`.
pub open spec fn is_first_row(rows: Seq<PositionRow>, mint: Seq<u8>, i: int) -> bool {
    &&& 0 <= i < rows.len()
    &&& rows[i].mint == mint
    &&& forall|j: int| 0 <= j < i ==> rows[j].mint != mint
}

/// The row a refresh reports for a position: the cached symbol (or `first4...last2` of
/// the mint when none is cached), the cached name (or none), the balance found and the
/// value quoted for it.
pub open spec fn refreshed_row(
    cache: Seq<(Seq<u8>, TokenMetaView)>,
    p: PositionModel,
    token_amount: u64,
    value: Option<u64>,
) -> PositionRow {
    PositionRow {
        mint: p.mint,
        symbol: match lookup(cache, p.mint) {
            Some(m) => m.symbol,
            None => short_label(base58_text(p.mint)),
        },
        name: name_label(cache, p.mint),
        lamports_invested: p.lamports_invested,
        token_amount,
        entry_timestamp: p.entry_timestamp,
        current_value_lamports: value,
    }
}

/// The row reported for `position` after a refresh found `token_amount` tokens held and
/// quoted `value` lamports for them.
pub fn position_update(cache: &MetaCache, position: &Position, token_amount: u64, value: Option<u64>) -> (res: PositionView)
    ensures
        res@ == refreshed_row(cache@, position@, token_amount, value),
{
    let (symbol, name) = match cache.get(&position.mint) {
        Some(m) => (m.symbol.clone(), m.name.clone()),
        None => (fallback_symbol(&position.mint), String::new()),
    };
    PositionView {
        mint: position.mint,
        symbol,
        name,
        lamports_invested: position.lamports_invested,
        token_amount,
        entry_timestamp: position.entry_timestamp,
        current_value_lamports: value,
    }
}

/// A copy of the cache.
pub fn copy_cache(cache: &MetaCache) -> (res: MetaCache)
    ensures
        res@ == cache@,
{
    let n = cache.len();
    let ghost s = cache@;
    let mut out: MetaCache = KeyedList::new();
    let mut i: usize = 0;
    assert(s.take(0) =~= out@);
    while i < n
        invariant
            0 <= i <= n,
            n == s.len(),
            s == cache@,
            distinct_keys(s),
            out@ == s.take(i as int),
        decreases n - i,
    {
        let e = cache.entry(i);
        proof {
            assert forall|j: int| 0 <= j < i implies s.take(i as int)[j].0 != s[i as int].0 by {
                assert(s.take(i as int)[j] == s[j]);
            }
        }
        out.insert(e.0, e.1.clone_meta());
        assert(out@ =~= s.take(i + 1));
        i = i + 1;
    }
    assert(s.take(n as int) =~= s);
    out
}

fn update_first_row(rows: &mut Vec<PositionView>, update: &PositionView)
    ensures
        forall|i: int| is_first_row(rows_view(old(rows)@), update.mint@, i)
            ==> rows_view(final(rows)@) == rows_view(old(rows)@).update(
                i,
                PositionRow {
                    token_amount: update.token_amount,
                    current_value_lamports: update.current_value_lamports,
                    ..rows_view(old(rows)@)[i]
                },
            ),
        (forall|j: int| 0 <= j < old(rows)@.len() ==> (#[trigger] old(rows)@[j]).mint@ != update.mint@)
            ==> final(rows)@ == old(rows)@,
        final(rows)@.len() == old(rows)@.len(),
{
    let ghost rv = rows_view(rows@);
    let n = rows.len();
    let mut i: usize = 0;
    while i < n
        invariant
            0 <= i <= n,
            n == rows@.len(),
            rows@ == old(rows)@,
            rv == rows_view(rows@),
            forall|j: int| 0 <= j < i ==> (#[trigger] rows@[j]).mint@ != update.mint@,
        decreases n - i,
    {
        if rows[i].mint.same(&update.mint) {
            let mut row = rows[i].duplicate();
            row.token_amount = update.token_amount;
            row.current_value_lamports = update.current_value_lamports;
            proof {
                assert(rv[i as int].mint == update.mint@);
                assert forall|k: int| is_first_row(rv, update.mint@, k) implies k == i by {
                    if k < i {
                        assert(rv[k].mint == old(rows)@[k]@.mint);
                    }
                }
                assert(old(rows)@[i as int].mint@ == update.mint@);
            }
            rows.set(i, row);
            assert(rows_view(rows@) =~= rv.update(
                i as int,
                PositionRow {
                    token_amount: update.token_amount,
                    current_value_lamports: update.current_value_lamports,
                    ..rv[i as int]
                },
            ));
            return;
        }
        i = i + 1;
    }
    proof {
        assert forall|k: int| !is_first_row(rv, update.mint@, k) by {
            if 0 <= k < n {
                assert(rv[k].mint == rows@[k]@.mint);
            }
        }
    }
}

/// What the runtime should do to buy the selected token.
pub struct BuyRequest {
    pub mint: Pubkey,
    pub creator: Pubkey,
    pub bonding_curve: Pubkey,
    pub symbol: String,
    pub name: String,
}

/// What the runtime should do to sell the selected position.
pub struct SellRequest {
    pub mint: Pubkey,
    pub symbol: String,
}

impl App {
    /// The selected feed row of the active panel, as a value.
    pub open spec fn selected_row(&self) -> Option<FeedItemView> {
        match self.active_panel {
            Panel::Launches => if self.selected_launch < self.launches@.len() {
                Some(self.launches@[self.selected_launch as int]@)
            } else {
                None
            },
            Panel::Trades => if self.selected_trade < self.trades@.len() {
                Some(self.trades@[self.selected_trade as int]@)
            } else {
                None
            },
            Panel::Positions => None,
        }
    }

    /// Records a refreshed balance and value on the first row of its mint.
    pub fn apply_position_update(&mut self, update: PositionView)
        ensures
            old(self).selections_valid() ==> final(self).selections_valid(),
            forall|i: int| is_first_row(rows_view(old(self).position_views@), update.mint@, i)
                ==> rows_view(final(self).position_views@) == rows_view(old(self).position_views@).update(
                    i,
                    PositionRow {
                        token_amount: update.token_amount,
                        current_value_lamports: update.current_value_lamports,
                        ..rows_view(old(self).position_views@)[i]
                    },
                ),
            (forall|j: int| 0 <= j < old(self).position_views@.len() ==> (#[trigger] old(self).position_views@[j]).mint@ != update.mint@)
                ==> final(self).position_views@ == old(self).position_views@,
            final(self).launches@ == old(self).launches@,
            final(self).trades@ == old(self).trades@,
            final(self).meta_cache@ == old(self).meta_cache@,
            final(self).meta_fetching@ == old(self).meta_fetching@,
            final(self).stats == old(self).stats,
            final(self).paused == old(self).paused,
            final(self).running == old(self).running,
            final(self).active_panel == old(self).active_panel,
            final(self).selected_launch == old(self).selected_launch,
            final(self).selected_trade == old(self).selected_trade,
            final(self).selected_position == old(self).selected_position,
            final(self).status_message@ == old(self).status_message@,
            final(self).sol_balance_lamports == old(self).sol_balance_lamports,
    {
        update_first_row(&mut self.position_views, &update);
    }

    /// Starts a buy of the selected launch or trade: with nothing selected, says so;
    /// otherwise reports `Buying <symbol>...` and returns what the buy needs.
    pub fn handle_buy_selected(&mut self) -> (req: Option<BuyRequest>)
        ensures
            old(self).active_panel == Panel::Launches && old(self).selected_launch < old(self).launches@.len()
                ==> (req matches Some(r) && r.mint@ == old(self).launches@[old(self).selected_launch as int].mint@
                    && r.creator@ == old(self).launches@[old(self).selected_launch as int].creator@
                    && r.bonding_curve@ == old(self).launches@[old(self).selected_launch as int].bonding_curve@),
            old(self).active_panel == Panel::Trades && old(self).selected_trade < old(self).trades@.len()
                ==> (req matches Some(r) && r.mint@ == old(self).trades@[old(self).selected_trade as int].mint@
                    && r.creator@ == old(self).trades@[old(self).selected_trade as int].creator@
                    && r.bonding_curve@ == old(self).trades@[old(self).selected_trade as int].bonding_curve@),
            old(self).active_panel == Panel::Positions
                || (old(self).active_panel == Panel::Launches && old(self).selected_launch >= old(self).launches@.len())
                || (old(self).active_panel == Panel::Trades && old(self).selected_trade >= old(self).trades@.len())
                ==> req is None,
            old(self).selections_valid() ==> final(self).selections_valid(),
            match old(self).selected_row() {
                None => req is None && final(self).status_message@ == "Select a token in Launches or Trades panel"@,
                Some(item) => match req {
                    Some(r) => {
                        &&& r.mint@ == item.mint
                        &&& r.creator@ == item.creator
                        &&& r.bonding_curve@ == item.bonding_curve
                        &&& r.symbol@ == symbol_label(old(self).meta_cache@, item.mint)
                        &&& r.name@ == name_label(old(self).meta_cache@, item.mint)
                        &&& final(self).status_message@ == "Buying "@ + r.symbol@ + "..."@
                    },
                    None => false,
                },
            },
            final(self).launches@ == old(self).launches@,
            final(self).trades@ == old(self).trades@,
            final(self).position_views@ == old(self).position_views@,
            final(self).meta_cache@ == old(self).meta_cache@,
            final(self).meta_fetching@ == old(self).meta_fetching@,
            final(self).stats == old(self).stats,
            final(self).paused == old(self).paused,
            final(self).running == old(self).running,
            final(self).active_panel == old(self).active_panel,
            final(self).selected_launch == old(self).selected_launch,
            final(self).selected_trade == old(self).selected_trade,
            final(self).selected_position == old(self).selected_position,
            final(self).sol_balance_lamports == old(self).sol_balance_lamports,
    {
        let picked = match self.selected_feed_item() {
            Some(item) => Some((item.mint, item.creator, item.bonding_curve)),
            None => None,
        };
        match picked {
            None => {
                self.status_message = copy_str("Select a token in Launches or Trades panel");
                None
            },
            Some((mint, creator, bonding_curve)) => {
                let symbol = self.symbol_for(&mint);
                let name = self.name_for(&mint);
                let mut status = copy_str("Buying ");
                push_str(&mut status, symbol.as_str());
                push_str(&mut status, "...");
                self.status_message = status;
                Some(BuyRequest { mint, creator, bonding_curve, symbol, name })
            },
        }
    }

    /// Starts a sell of the selected position: with no rows, says so; otherwise reports
    /// `Selling <symbol>...` and returns what the sell needs.
    pub fn handle_sell_selected(&mut self) -> (req: Option<SellRequest>)
        requires
            old(self).position_views@.len() > 0 ==> old(self).selected_position < old(self).position_views@.len(),
        ensures
            old(self).selections_valid() ==> final(self).selections_valid(),
            old(self).position_views@.len() == 0 ==> req is None && final(self).status_message@ == "No position selected"@,
            old(self).position_views@.len() > 0 ==> match req {
                Some(r) => {
                    &&& r.mint == old(self).position_views@[old(self).selected_position as int].mint
                    &&& r.symbol@ == old(self).position_views@[old(self).selected_position as int].symbol@
                    &&& final(self).status_message@ == "Selling "@ + r.symbol@ + "..."@
                },
                None => false,
            },
            final(self).launches@ == old(self).launches@,
            final(self).trades@ == old(self).trades@,
            final(self).position_views@ == old(self).position_views@,
            final(self).meta_cache@ == old(self).meta_cache@,
            final(self).meta_fetching@ == old(self).meta_fetching@,
            final(self).stats == old(self).stats,
            final(self).paused == old(self).paused,
            final(self).running == old(self).running,
            final(self).active_panel == old(self).active_panel,
            final(self).selected_launch == old(self).selected_launch,
            final(self).selected_trade == old(self).selected_trade,
            final(self).selected_position == old(self).selected_position,
            final(self).sol_balance_lamports == old(self).sol_balance_lamports,
    {
        if self.position_views.len() == 0 {
            self.status_message = copy_str("No position selected");
            return None;
        }
        let mint = self.position_views[self.selected_position].mint;
        let symbol = self.position_views[self.selected_position].symbol.clone();
        let mut status = copy_str("Selling ");
        push_str(&mut status, symbol.as_str());
        push_str(&mut status, "...");
        self.status_message = status;
        Some(SellRequest { mint, symbol })
    }

    /// Starts a refresh of the positions: reports it and returns the cache as it is now,
    /// which the refresh labels its rows with.
    pub fn handle_refresh_pnl(&mut self) -> (snapshot: MetaCache)
        ensures
            old(self).selections_valid() ==> final(self).selections_valid(),
            snapshot@ == old(self).meta_cache@,
            final(self).status_message@ == "Refreshing positions..."@,
            final(self).launches@ == old(self).launches@,
            final(self).trades@ == old(self).trades@,
            final(self).position_views@ == old(self).position_views@,
            final(self).meta_cache@ == old(self).meta_cache@,
            final(self).meta_fetching@ == old(self).meta_fetching@,
            final(self).stats == old(self).stats,
            final(self).paused == old(self).paused,
            final(self).running == old(self).running,
            final(self).active_panel == old(self).active_panel,
            final(self).selected_launch == old(self).selected_launch,
            final(self).selected_trade == old(self).selected_trade,
            final(self).selected_position == old(self).selected_position,
            final(self).sol_balance_lamports == old(self).sol_balance_lamports,
    {
        self.status_message = copy_str("Refreshing positions...");
        copy_cache(&self.meta_cache)
    }
}

/// The selected feed row is the row at the selection of the active feed panel, when the
/// selection is within that feed; the positions panel has none.
pub proof fn lemma_selected_row(app: App)
    ensures
        app.active_panel == Panel::Launches && app.selected_launch < app.launches@.len()
            ==> app.selected_row() == Some(app.launches@[app.selected_launch as int]@),
        app.active_panel == Panel::Trades && app.selected_trade < app.trades@.len()
            ==> app.selected_row() == Some(app.trades@[app.selected_trade as int]@),
        app.active_panel == Panel::Launches && app.selected_launch >= app.launches@.len() ==> app.selected_row() is None,
        app.active_panel == Panel::Trades && app.selected_trade >= app.trades@.len() ==> app.selected_row() is None,
        app.active_panel == Panel::Positions ==> app.selected_row() is None,
{
}

/// A key press, as far as the interface tells keys apart.
#[derive(Clone, Copy, Debug, PartialEq, Eq, Structural)]
pub enum Key {
    Char(char),
    Enter,
    Up,
    Down,
    Tab,
    Other,
}

/// What a key press asks for.
#[derive(Clone, Copy, Debug, PartialEq, Eq, Structural)]
pub enum Intent {
    Quit,
    TogglePause,
    Buy,
    Sell,
    Refresh,
    MoveUp,
    MoveDown,
    NextPanel,
}

/// The key bindings: `q` quits, `p` pauses, `b` or Enter buys in a feed panel, `s` sells
/// in the positions panel, `r` refreshes, Up or `k` and Down or `j` move, Tab switches
/// panel (letters in either case).
pub open spec fn key_intent(key: Key, panel: Panel) -> Option<Intent> {
    match key {
        Key::Char(c) => if c == 'q' || c == 'Q' {
            Some(Intent::Quit)
        } else if c == 'p' || c == 'P' {
            Some(Intent::TogglePause)
        } else if c == 'b' || c == 'B' {
            if panel != Panel::Positions { Some(Intent::Buy) } else { None }
        } else if c == 's' || c == 'S' {
            if panel == Panel::Positions { Some(Intent::Sell) } else { None }
        } else if c == 'r' || c == 'R' {
            Some(Intent::Refresh)
        } else if c == 'k' {
            Some(Intent::MoveUp)
        } else if c == 'j' {
            Some(Intent::MoveDown)
        } else {
            None
        },
        Key::Enter => if panel != Panel::Positions { Some(Intent::Buy) } else { None },
        Key::Up => Some(Intent::MoveUp),
        Key::Down => Some(Intent::MoveDown),
        Key::Tab => Some(Intent::NextPanel),
        Key::Other => None,
    }
}

/// The key bindings: `b`, `B` and Enter all buy, and only in the two feed panels; `s` and
/// `S` sell, and only in the positions panel; the other keys do the same in every panel.
pub proof fn lemma_key_bindings(panel: Panel, other: Panel)
    ensures
        key_intent(Key::Char('b'), panel) == key_intent(Key::Enter, panel),
        key_intent(Key::Char('B'), panel) == key_intent(Key::Enter, panel),
        key_intent(Key::Enter, Panel::Launches) == Some(Intent::Buy),
        key_intent(Key::Enter, Panel::Trades) == Some(Intent::Buy),
        key_intent(Key::Enter, Panel::Positions) is None,
        key_intent(Key::Char('s'), panel) == key_intent(Key::Char('S'), panel),
        key_intent(Key::Char('s'), Panel::Positions) == Some(Intent::Sell),
        panel != Panel::Positions ==> key_intent(Key::Char('s'), panel) is None,
        key_intent(Key::Char('q'), panel) == Some(Intent::Quit),
        key_intent(Key::Char('Q'), panel) == Some(Intent::Quit),
        key_intent(Key::Char('p'), panel) == Some(Intent::TogglePause),
        key_intent(Key::Char('P'), panel) == Some(Intent::TogglePause),
        key_intent(Key::Char('r'), panel) == Some(Intent::Refresh),
        key_intent(Key::Char('R'), panel) == Some(Intent::Refresh),
        key_intent(Key::Char('k'), panel) == key_intent(Key::Up, other),
        key_intent(Key::Up, panel) == Some(Intent::MoveUp),
        key_intent(Key::Char('j'), panel) == key_intent(Key::Down, other),
        key_intent(Key::Down, panel) == Some(Intent::MoveDown),
        key_intent(Key::Tab, panel) == Some(Intent::NextPanel),
        key_intent(Key::Other, panel) is None,
{
}

/// What a key press asks for in the active panel.
pub fn intent_for_key(key: Key, panel: Panel) -> (res: Option<Intent>)
    ensures
        res == key_intent(key, panel),
        key == Key::Char('b') || key == Key::Char('B') || key == Key::Enter
            ==> res == (if panel == Panel::Positions { None } else { Some(Intent::Buy) }),
        key == Key::Char('s') || key == Key::Char('S')
            ==> res == (if panel == Panel::Positions { Some(Intent::Sell) } else { None }),
        key == Key::Char('q') || key == Key::Char('Q') ==> res == Some(Intent::Quit),
        key == Key::Char('p') || key == Key::Char('P') ==> res == Some(Intent::TogglePause),
        key == Key::Char('r') || key == Key::Char('R') ==> res == Some(Intent::Refresh),
        key == Key::Char('k') || key == Key::Up ==> res == Some(Intent::MoveUp),
        key == Key::Char('j') || key == Key::Down ==> res == Some(Intent::MoveDown),
        key == Key::Tab ==> res == Some(Intent::NextPanel),
        key == Key::Other ==> res is None,
{
    match key {
        Key::Char(c) => {
            if c == 'q' || c == 'Q' {
                Some(Intent::Quit)
            } else if c == 'p' || c == 'P' {
                Some(Intent::TogglePause)
            } else if c == 'b' || c == 'B' {
                match panel {
                    Panel::Positions => None,
                    _ => Some(Intent::Buy),
                }
            } else if c == 's' || c == 'S' {
                match panel {
                    Panel::Positions => Some(Intent::Sell),
                    _ => None,
                }
            } else if c == 'r' || c == 'R' {
                Some(Intent::Refresh)
            } else if c == 'k' {
                Some(Intent::MoveUp)
            } else if c == 'j' {
                Some(Intent::MoveDown)
            } else {
                None
            }
        },
        Key::Enter => match panel {
            Panel::Positions => None,
            _ => Some(Intent::Buy),
        },
        Key::Up => Some(Intent::MoveUp),
        Key::Down => Some(Intent::MoveDown),
        Key::Tab => Some(Intent::NextPanel),
        Key::Other => None,
    }
}

/// Once metadata with a symbol has been recorded for a mint, that symbol is its label, and
/// the labels of other mints do not change.
pub proof fn lemma_symbol_after_metadata(
    cache: Seq<(Seq<u8>, TokenMetaView)>,
    mint: Seq<u8>,
    meta: TokenMetaView,
    other: Seq<u8>,
)
    requires
        distinct_keys(cache),
    ensures
        meta.symbol.len() > 0 ==> symbol_label(upsert(cache, mint, meta), mint) == meta.symbol,
        name_label(upsert(cache, mint, meta), mint) == meta.name,
        other != mint ==> symbol_label(upsert(cache, mint, meta), other) == symbol_label(cache, other),
        other != mint ==> name_label(upsert(cache, mint, meta), other) == name_label(cache, other),
{
    crate::keyed::lemma_lookup_upsert(cache, mint, meta, other);
}

/// The longest wait between reconnection attempts, in seconds.
pub const MAX_RECONNECT_DELAY_SECS: u64 = 60;

/// `2^n`.
pub open spec fn pow2(n: nat) -> nat
    decreases n,
{
    if n == 0 { 1 } else { 2 * pow2((n - 1) as nat) }
}

/// Seconds to wait before reconnection attempt number `retry_count`: `2^retry_count`,
/// at most [`MAX_RECONNECT_DELAY_SECS`].
pub open spec fn reconnect_delay(retry_count: u32) -> nat {
    if pow2(retry_count as nat) < 60 { pow2(retry_count as nat) } else { 60 }
}

proof fn lemma_pow2_grows(n: nat)
    requires
        n >= 6,
    ensures
        pow2(n) >= 64,
    decreases n,
{
    if n > 6 {
        lemma_pow2_grows((n - 1) as nat);
    } else {
        reveal_with_fuel(pow2, 7);
    }
}

/// The wait before a reconnection never exceeds a minute, never shrinks as attempts
/// fail, and starts at one second.
pub proof fn lemma_reconnect_delay(m: u32, n: u32)
    ensures
        1 <= reconnect_delay(n) <= MAX_RECONNECT_DELAY_SECS,
        reconnect_delay(0) == 1,
        m <= n ==> reconnect_delay(m) <= reconnect_delay(n),
{
    lemma_pow2_monotone(m as nat, n as nat);
    lemma_pow2_positive(n as nat);
    reveal_with_fuel(pow2, 1);
}

proof fn lemma_pow2_positive(n: nat)
    ensures
        pow2(n) >= 1,
    decreases n,
{
    if n > 0 {
        lemma_pow2_positive((n - 1) as nat);
    }
}

proof fn lemma_pow2_monotone(m: nat, n: nat)
    ensures
        m <= n ==> pow2(m) <= pow2(n),
    decreases n,
{
    if m < n {
        lemma_pow2_monotone(m, (n - 1) as nat);
        lemma_pow2_positive((n - 1) as nat);
    }
}

/// The wait before the next reconnection attempt.
pub fn reconnect_delay_secs(retry_count: u32) -> (res: u64)
    ensures
        res == reconnect_delay(retry_count),
{
    if retry_count >= 6 {
        proof {
            lemma_pow2_grows(retry_count as nat);
        }
        return MAX_RECONNECT_DELAY_SECS;
    }
    let mut d: u64 = 1;
    let mut i: u32 = 0;
    while i < retry_count
        invariant
            0 <= i <= retry_count,
            retry_count < 6,
            d == pow2(i as nat),
            d <= 32,
        decreases retry_count - i,
    {
        proof {
            reveal_with_fuel(pow2, 6);
        }
        d = d * 2;
        i = i + 1;
    }
    assert(pow2(retry_count as nat) <= 32) by {
        reveal_with_fuel(pow2, 6);
    }
    d
}

/// The feed rows of the events in a transaction's log lines, in order.
pub fn feed_items_from_logs(logs: &[String]) -> (res: Vec<FeedItem>)
    ensures
        items_view(res@) == events_from_logs(log_bytes(logs@)).map_values(|e: PumpFunEventView| feed_item_of(e)),
{
    let events = decode_events_from_logs(logs);
    let ghost ev = events_view(events@);
    let mut out: Vec<FeedItem> = Vec::new();
    let mut i: usize = 0;
    while i < events.len()
        invariant
            0 <= i <= events@.len(),
            ev == events_view(events@),
            out@.len() == i,
            forall|j: int| 0 <= j < i ==> (#[trigger] out@[j])@ == feed_item_of(ev[j]),
        decreases events@.len() - i,
    {
        out.push(FeedItem::from_event(&events[i]));
        i = i + 1;
    }
    assert(items_view(out@) =~= ev.map_values(|e: PumpFunEventView| feed_item_of(e)));
    out
}

fn next_row(i: usize, len: usize) -> (res: usize)
    ensures
        res == row_below(i, len as nat),
{
    if len == 0 {
        i
    } else if i < len - 1 && i + 1 < len - 1 {
        i + 1
    } else {
        len - 1
    }
}

} // verus!
