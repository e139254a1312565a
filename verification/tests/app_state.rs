use solami_sniffer::app::{
    feed_items_from_logs, intent_for_key, position_update, reconnect_delay_secs, App, FeedItem,
    FeedKind, Intent, Key, Panel, PositionView, MAX_FEED_ITEMS,
};
use solami_sniffer::events::{PumpFunEvent, PumpFunTradeEvent};
use solami_sniffer::metadata::TokenMeta;
use solami_sniffer::position::{new_position_store, Position, PositionBook};
use solami_sniffer::pubkey::Pubkey;
use solami_sniffer::pumpfun::get_bonding_curve_pda;
use solami_sniffer::ui::fallback_symbol;

fn key(byte: u8) -> Pubkey {
    let mut b = [0u8; 32];
    for (i, x) in b.iter_mut().enumerate() {
        *x = byte.wrapping_add(i as u8);
    }
    Pubkey::new_from_array(b)
}

fn item(kind: FeedKind, mint: Pubkey, symbol: &str, name: &str, ts: i64) -> FeedItem {
    FeedItem {
        timestamp: ts,
        kind,
        symbol: symbol.to_string(),
        name: name.to_string(),
        mint,
        creator: key(200),
        bonding_curve: key(201),
        sol_amount_lamports: 0,
        user: key(202),
        token_supply: 1_000_000_000_000_000,
        is_mayhem_mode: false,
    }
}

fn position(mint: Pubkey, symbol: &str, name: &str, amount: u64) -> Position {
    Position {
        mint,
        bonding_curve: key(150),
        creator: key(151),
        lamports_invested: 10_000_000,
        token_amount: amount,
        entry_timestamp: 42,
        symbol: symbol.to_string(),
        name: name.to_string(),
    }
}

#[test]
fn app_starts_ready() {
    let app = App::new();
    assert!(app.running);
    assert_eq!(app.active_panel, Panel::Launches);
    assert!(!app.paused);
    assert_eq!(app.status_message, "Ready");
    assert_eq!(app.stats.tokens_seen, 0);
    assert!(app.launches.is_empty() && app.trades.is_empty());
}

#[test]
fn launch_feed_is_newest_first_and_capped() {
    let mut app = App::new();
    for i in 0..(MAX_FEED_ITEMS as i64 + 3) {
        let fetch = app.push_feed_item(item(FeedKind::Create, key(1), "A", "a", i));
        assert!(fetch.is_none());
    }
    assert_eq!(app.launches.len(), MAX_FEED_ITEMS);
    assert_eq!(app.launches[0].timestamp, MAX_FEED_ITEMS as i64 + 2);
    assert_eq!(app.launches[MAX_FEED_ITEMS - 1].timestamp, 3);
    assert_eq!(app.stats.tokens_seen, MAX_FEED_ITEMS + 3);
    assert_eq!(app.stats.trades_seen, 0);
}

#[test]
fn paused_feed_ignores_rows() {
    let mut app = App::new();
    app.toggle_pause();
    assert!(app.paused);
    assert_eq!(app.status_message, "PAUSED - feed frozen");
    assert!(app.push_feed_item(item(FeedKind::Buy, key(1), "", "", 1)).is_none());
    assert!(app.trades.is_empty());
    assert_eq!(app.stats.trades_seen, 0);
    app.toggle_pause();
    assert!(!app.paused);
    assert_eq!(app.status_message, "Resumed");
}

#[test]
fn trades_take_cached_names_or_ask_for_them_once() {
    let mut app = App::new();
    app.push_feed_item(item(FeedKind::Create, key(1), "DOGE", "Doge", 1));
    app.push_feed_item(item(FeedKind::Buy, key(1), "", "", 2));
    assert_eq!(app.trades[0].symbol, "DOGE");
    assert_eq!(app.trades[0].name, "Doge");
    let fetch = app.push_feed_item(item(FeedKind::Sell, key(2), "", "", 3));
    assert!(fetch.unwrap().same(&key(2)));
    assert_eq!(app.trades[0].symbol, "");
    let again = app.push_feed_item(item(FeedKind::Buy, key(2), "", "", 4));
    assert!(again.is_none());
    assert_eq!(app.stats.trades_seen, 3);
    assert_eq!(app.stats.tokens_seen, 1);
}

#[test]
fn metadata_fills_rows_and_labels() {
    let mut app = App::new();
    app.push_feed_item(item(FeedKind::Buy, key(2), "", "", 3));
    app.push_feed_item(item(FeedKind::Buy, key(3), "OTHER", "", 4));
    assert_eq!(app.symbol_for(&key(2)), fallback_symbol(&key(2)));
    assert_eq!(app.name_for(&key(2)), "");
    app.apply_metadata(key(2), TokenMeta { name: "Moon".to_string(), symbol: "MOON".to_string() });
    assert_eq!(app.symbol_for(&key(2)), "MOON");
    assert_eq!(app.name_for(&key(2)), "Moon");
    assert_eq!(app.trades[1].symbol, "MOON");
    assert_eq!(app.trades[0].symbol, "OTHER");
    assert!(app.push_feed_item(item(FeedKind::Buy, key(2), "", "", 5)).is_none());
    assert_eq!(app.trades[0].symbol, "MOON");
}

#[test]
fn empty_symbol_falls_back_to_the_address() {
    let mut app = App::new();
    app.push_feed_item(item(FeedKind::Create, key(5), "", "Nameless", 1));
    let label = app.symbol_for(&key(5));
    let text = key(5).to_string();
    assert_eq!(label, format!("{}...{}", &text[..4], &text[text.len() - 2..]));
    assert_eq!(app.name_for(&key(5)), "Nameless");
}

#[test]
fn navigation_stays_within_rows() {
    let mut app = App::new();
    app.move_up();
    assert_eq!(app.selected_launch, 0);
    app.move_down();
    assert_eq!(app.selected_launch, 0);
    for i in 0..3 {
        app.push_feed_item(item(FeedKind::Create, key(1), "A", "a", i));
    }
    app.move_down();
    app.move_down();
    app.move_down();
    assert_eq!(app.selected_launch, 2);
    app.move_up();
    assert_eq!(app.selected_launch, 1);
    app.next_panel();
    assert_eq!(app.active_panel, Panel::Trades);
    app.move_down();
    assert_eq!(app.selected_trade, 0);
    app.next_panel();
    assert_eq!(app.active_panel, Panel::Positions);
    app.next_panel();
    assert_eq!(app.active_panel, Panel::Launches);
}

#[test]
fn buying_needs_a_selected_row() {
    let mut app = App::new();
    assert!(app.handle_buy_selected().is_none());
    assert_eq!(app.status_message, "Select a token in Launches or Trades panel");
    app.push_feed_item(item(FeedKind::Create, key(1), "DOGE", "Doge", 1));
    let req = app.handle_buy_selected().unwrap();
    assert!(req.mint.same(&key(1)));
    assert!(req.creator.same(&key(200)));
    assert!(req.bonding_curve.same(&key(201)));
    assert_eq!(req.symbol, "DOGE");
    assert_eq!(req.name, "Doge");
    assert_eq!(app.status_message, "Buying DOGE...");
    app.active_panel = Panel::Positions;
    assert!(app.handle_buy_selected().is_none());
}

#[test]
fn position_rows_follow_the_book() {
    let mut app = App::new();
    let mut book: PositionBook = new_position_store();
    book.insert(key(1), position(key(1), "AAA", "Alpha", 0));
    book.insert(key(2), position(key(2), "", "", 5));
    let fetch = app.refresh_position_views(&book);
    assert_eq!(app.position_views.len(), 2);
    assert_eq!(app.position_views[0].symbol, "AAA");
    assert_eq!(app.position_views[0].name, "Alpha");
    assert_eq!(app.position_views[1].symbol, fallback_symbol(&key(2)));
    assert_eq!(fetch.len(), 1);
    assert!(fetch[0].same(&key(2)));
    assert!(app.refresh_position_views(&book).is_empty());
    app.apply_position_update(PositionView {
        mint: key(2),
        symbol: "X".to_string(),
        name: String::new(),
        lamports_invested: 1,
        token_amount: 99,
        entry_timestamp: 0,
        current_value_lamports: Some(12_345),
    });
    assert_eq!(app.position_views[1].token_amount, 99);
    assert_eq!(app.position_views[1].current_value_lamports, Some(12_345));
    assert_eq!(app.position_views[1].lamports_invested, 10_000_000);
    app.refresh_position_views(&book);
    assert_eq!(app.position_views[1].current_value_lamports, Some(12_345));
    assert_eq!(app.position_views[1].token_amount, 5);
}

#[test]
fn selection_is_clamped_when_positions_shrink() {
    let mut app = App::new();
    let mut book: PositionBook = new_position_store();
    for i in 0..3 {
        book.insert(key(i), position(key(i), "S", "", 1));
    }
    app.refresh_position_views(&book);
    app.selected_position = 2;
    let mut small: PositionBook = new_position_store();
    small.insert(key(0), position(key(0), "S", "", 1));
    app.refresh_position_views(&small);
    assert_eq!(app.selected_position, 0);
    let empty: PositionBook = new_position_store();
    app.refresh_position_views(&empty);
    assert_eq!(app.selected_position, 0);
}

#[test]
fn selling_needs_a_position_row() {
    let mut app = App::new();
    assert!(app.handle_sell_selected().is_none());
    assert_eq!(app.status_message, "No position selected");
    let mut book: PositionBook = new_position_store();
    book.insert(key(1), position(key(1), "AAA", "", 3));
    app.refresh_position_views(&book);
    let req = app.handle_sell_selected().unwrap();
    assert!(req.mint.same(&key(1)));
    assert_eq!(req.symbol, "AAA");
    assert_eq!(app.status_message, "Selling AAA...");
}

#[test]
fn refresh_reports_and_snapshots_the_cache() {
    let mut app = App::new();
    app.push_feed_item(item(FeedKind::Create, key(1), "DOGE", "Doge", 1));
    let snap = app.handle_refresh_pnl();
    assert_eq!(app.status_message, "Refreshing positions...");
    assert_eq!(snap.len(), 1);
    assert_eq!(snap.get(&key(1)).unwrap().symbol, "DOGE");
    let p = position(key(1), "old", "old", 5);
    let row = position_update(&snap, &p, 77, Some(1_000));
    assert_eq!(row.symbol, "DOGE");
    assert_eq!(row.name, "Doge");
    assert_eq!(row.token_amount, 77);
    assert_eq!(row.current_value_lamports, Some(1_000));
    let q = position(key(9), "old", "old", 5);
    let row = position_update(&snap, &q, 1, None);
    assert_eq!(row.symbol, fallback_symbol(&key(9)));
    assert_eq!(row.name, "");
}

#[test]
fn key_bindings() {
    assert_eq!(intent_for_key(Key::Char('q'), Panel::Trades), Some(Intent::Quit));
    assert_eq!(intent_for_key(Key::Char('Q'), Panel::Trades), Some(Intent::Quit));
    assert_eq!(intent_for_key(Key::Char('P'), Panel::Launches), Some(Intent::TogglePause));
    assert_eq!(intent_for_key(Key::Char('b'), Panel::Launches), Some(Intent::Buy));
    assert_eq!(intent_for_key(Key::Enter, Panel::Trades), Some(Intent::Buy));
    assert_eq!(intent_for_key(Key::Enter, Panel::Positions), None);
    assert_eq!(intent_for_key(Key::Char('B'), Panel::Positions), None);
    assert_eq!(intent_for_key(Key::Char('s'), Panel::Positions), Some(Intent::Sell));
    assert_eq!(intent_for_key(Key::Char('S'), Panel::Launches), None);
    assert_eq!(intent_for_key(Key::Char('r'), Panel::Positions), Some(Intent::Refresh));
    assert_eq!(intent_for_key(Key::Char('k'), Panel::Positions), Some(Intent::MoveUp));
    assert_eq!(intent_for_key(Key::Up, Panel::Positions), Some(Intent::MoveUp));
    assert_eq!(intent_for_key(Key::Char('j'), Panel::Positions), Some(Intent::MoveDown));
    assert_eq!(intent_for_key(Key::Down, Panel::Launches), Some(Intent::MoveDown));
    assert_eq!(intent_for_key(Key::Tab, Panel::Launches), Some(Intent::NextPanel));
    assert_eq!(intent_for_key(Key::Char('x'), Panel::Launches), None);
    assert_eq!(intent_for_key(Key::Other, Panel::Launches), None);
}

#[test]
fn reconnect_delay_doubles_up_to_a_minute() {
    let delays: Vec<u64> = (0..10).map(reconnect_delay_secs).collect();
    assert_eq!(delays, vec![1, 2, 4, 8, 16, 32, 60, 60, 60, 60]);
    assert_eq!(reconnect_delay_secs(u32::MAX), 60);
}

#[test]
fn trade_events_become_feed_rows() {
    let trade = PumpFunTradeEvent {
        mint: key(9),
        sol_amount: 250_000_000,
        token_amount: 1,
        is_buy: false,
        user: key(8),
        timestamp: 77,
        virtual_sol_reserves: 0,
        virtual_token_reserves: 0,
        real_sol_reserves: 0,
        real_token_reserves: 0,
        fee_recipient: key(7),
        fee_basis_points: 0,
        fee: 0,
        creator: key(6),
        creator_fee_basis_points: 0,
        creator_fee: 0,
        track_volume: false,
        total_unclaimed_tokens: 0,
        total_claimed_tokens: 0,
        current_sol_volume: 0,
        last_update_timestamp: 0,
        ix_name: "sell".to_string(),
        mayhem_mode: true,
        cashback_fee_basis_points: 0,
        cashback: 0,
    };
    let row = FeedItem::from_event(&PumpFunEvent::Trade(trade));
    assert_eq!(row.kind, FeedKind::Sell);
    assert_eq!(row.symbol, "");
    assert_eq!(row.sol_amount_lamports, 250_000_000);
    assert!(row.bonding_curve.same(&get_bonding_curve_pda(&key(9)).unwrap()));
    assert!(row.creator.same(&key(6)));
    assert!(row.user.same(&key(8)));
    assert_eq!(row.token_supply, 0);
    assert!(row.is_mayhem_mode);
    assert_eq!(row.timestamp, 77);
    assert!(feed_items_from_logs(&["Program log: hi".to_string()]).is_empty());
}
