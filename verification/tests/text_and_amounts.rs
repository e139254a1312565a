use solami_sniffer::app::{FeedItem, FeedKind, PositionView};
use solami_sniffer::decimal::{parse_decimal_u64, parse_token_amount};
use solami_sniffer::pubkey::Pubkey;
use solami_sniffer::send_transaction::{confirmation_step, ConfirmationLevel, PollStep, SignatureStatus};
use solami_sniffer::ui::{
    fallback_symbol, format_age, launch_flags, low_balance, position_token_label, rgb_parts,
    short_pubkey, side_label, trade_token_label, truncate_str, Theme,
};

fn key(byte: u8) -> Pubkey {
    let mut b = [0u8; 32];
    for (i, x) in b.iter_mut().enumerate() {
        *x = byte.wrapping_add(i as u8);
    }
    Pubkey::new_from_array(b)
}

#[test]
fn ages_use_the_largest_whole_unit() {
    assert_eq!(format_age(-3), "0s");
    assert_eq!(format_age(0), "0s");
    assert_eq!(format_age(59), "59s");
    assert_eq!(format_age(60), "1m");
    assert_eq!(format_age(3599), "59m");
    assert_eq!(format_age(3600), "1h");
    assert_eq!(format_age(86_400 * 3), "72h");
}

#[test]
fn long_names_are_cut_with_dots() {
    assert_eq!(truncate_str("Doge", 16), "Doge");
    assert_eq!(truncate_str("abcdefghijklmnopq", 16), "abcdefghijklmn..");
    assert_eq!(truncate_str("ééééé", 4), "éé..");
    assert_eq!(truncate_str("", 0), "");
}

#[test]
fn addresses_are_abbreviated() {
    let text = key(3).to_string();
    assert_eq!(short_pubkey(&key(3)), format!("{}..{}", &text[..4], &text[text.len() - 4..]));
    assert_eq!(fallback_symbol(&key(3)), format!("{}...{}", &text[..4], &text[text.len() - 2..]));
    assert_eq!(short_pubkey(&Pubkey::default()), "1111..1111");
}

#[test]
fn trade_rows_show_side_and_token() {
    assert_eq!(side_label(FeedKind::Buy), "BUY");
    assert_eq!(side_label(FeedKind::Sell), "SELL");
    assert_eq!(side_label(FeedKind::Create), "?");
    let mut item = FeedItem {
        timestamp: 0,
        kind: FeedKind::Buy,
        symbol: "DOGE".to_string(),
        name: String::new(),
        mint: key(4),
        creator: key(5),
        bonding_curve: key(6),
        sol_amount_lamports: 0,
        user: key(7),
        token_supply: 0,
        is_mayhem_mode: true,
    };
    assert_eq!(trade_token_label(&item), "DOGE");
    assert_eq!(launch_flags(&item), "MH");
    item.symbol = String::new();
    item.is_mayhem_mode = false;
    assert_eq!(trade_token_label(&item), short_pubkey(&key(4)));
    assert_eq!(launch_flags(&item), "");
}

#[test]
fn position_rows_show_symbol_and_short_name() {
    let mut row = PositionView {
        mint: key(1),
        symbol: "DOGE".to_string(),
        name: String::new(),
        lamports_invested: 0,
        token_amount: 0,
        entry_timestamp: 0,
        current_value_lamports: None,
    };
    assert_eq!(position_token_label(&row), "DOGE");
    row.name = "A very long token name".to_string();
    assert_eq!(position_token_label(&row), "DOGE (A very lon..)");
    row.name = "Doge".to_string();
    assert_eq!(position_token_label(&row), "DOGE (Doge)");
}

#[test]
fn low_balance_is_under_a_hundredth_of_a_sol() {
    assert!(low_balance(0));
    assert!(low_balance(9_999_999));
    assert!(!low_balance(10_000_000));
}

#[test]
fn theme_colours_split_into_channels() {
    assert_eq!(rgb_parts(Theme::BG), (21, 34, 56));
    assert_eq!(rgb_parts(Theme::ACCENT), (0, 200, 255));
    assert_eq!(rgb_parts(Theme::YELLOW), (255, 200, 0));
    assert_eq!(rgb_parts(Theme::SELECTION), (40, 70, 120));
}

#[test]
fn token_amounts_parse_like_u64() {
    assert_eq!(parse_decimal_u64("0"), Some(0));
    assert_eq!(parse_decimal_u64("123456"), Some(123_456));
    assert_eq!(parse_decimal_u64("+7"), Some(7));
    assert_eq!(parse_decimal_u64("18446744073709551615"), Some(u64::MAX));
    assert_eq!(parse_decimal_u64("18446744073709551616"), None);
    assert_eq!(parse_decimal_u64(""), None);
    assert_eq!(parse_decimal_u64("+"), None);
    assert_eq!(parse_decimal_u64("-1"), None);
    assert_eq!(parse_decimal_u64(" 1"), None);
    assert_eq!(parse_decimal_u64("1.5"), None);
    for s in ["0", "42", "+42", "007", "99999999999999999999", "x", "", "-0"] {
        assert_eq!(parse_decimal_u64(s), s.parse::<u64>().ok());
    }
    assert_eq!(parse_token_amount("250"), 250);
    assert_eq!(parse_token_amount("oops"), 0);
}

#[test]
fn confirmation_polling_steps() {
    assert_eq!(confirmation_step(None), PollStep::Wait);
    let s = |failed, c| Some(SignatureStatus { failed, confirmation: c });
    assert_eq!(confirmation_step(s(true, Some(ConfirmationLevel::Finalized))), PollStep::Failed);
    assert_eq!(confirmation_step(s(false, Some(ConfirmationLevel::Confirmed))), PollStep::Confirmed);
    assert_eq!(confirmation_step(s(false, Some(ConfirmationLevel::Finalized))), PollStep::Confirmed);
    assert_eq!(confirmation_step(s(false, Some(ConfirmationLevel::Processed))), PollStep::Wait);
    assert_eq!(confirmation_step(s(false, None)), PollStep::Wait);
}
