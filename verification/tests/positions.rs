use solami_sniffer::position::{
    new_position_store, positions_from_entries, positions_to_entries, BalanceOutcome, Position,
    PositionBook,
};
use solami_sniffer::metadata::TokenMeta;
use solami_sniffer::pubkey::Pubkey;
use solami_sniffer::keyed::KeyedList;

fn key(byte: u8) -> Pubkey {
    let mut b = [0u8; 32];
    for (i, x) in b.iter_mut().enumerate() {
        *x = byte.wrapping_add(i as u8);
    }
    Pubkey::new_from_array(b)
}

fn held(mint: Pubkey, amount: u64) -> Position {
    Position {
        mint,
        bonding_curve: key(100),
        creator: key(101),
        lamports_invested: 10_000_000,
        token_amount: amount,
        entry_timestamp: 1_700_000_000,
        symbol: "SYM".to_string(),
        name: "Name".to_string(),
    }
}

#[test]
fn buy_opens_a_pending_position_once() {
    let mut book: PositionBook = new_position_store();
    let sym = "DOGE".to_string();
    let name = "Doge".to_string();
    assert!(book.begin_buy(key(1), key(2), key(3), 10_000_000, 100, &sym, &name));
    assert_eq!(book.len(), 1);
    let p = book.get(&key(1)).unwrap();
    assert_eq!(p.token_amount, 0);
    assert_eq!(p.entry_timestamp, 100);
    assert_eq!(p.lamports_invested, 10_000_000);
    assert!(!book.begin_buy(key(1), key(2), key(3), 99, 200, &sym, &name));
    assert_eq!(book.len(), 1);
    assert_eq!(book.get(&key(1)).unwrap().lamports_invested, 10_000_000);
}

#[test]
fn completed_buy_keeps_the_entry_time() {
    let mut book: PositionBook = new_position_store();
    let sym = "DOGE".to_string();
    let name = "Doge".to_string();
    book.begin_buy(key(1), key(2), key(3), 10_000_000, 100, &sym, &name);
    book.complete_buy(key(1), key(2), key(3), 10_000_000, 5_000, 300, &sym, &name);
    let p = book.get(&key(1)).unwrap();
    assert_eq!(p.token_amount, 5_000);
    assert_eq!(p.entry_timestamp, 100);
    book.complete_buy(key(4), key(2), key(3), 1, 7, 300, &sym, &name);
    assert_eq!(book.get(&key(4)).unwrap().entry_timestamp, 300);
    assert_eq!(book.len(), 2);
}

#[test]
fn only_held_positions_can_be_sold() {
    let mut book: PositionBook = new_position_store();
    book.insert(key(1), held(key(1), 0));
    book.insert(key(2), held(key(2), 9));
    assert!(book.sellable(&key(1)).is_none());
    assert_eq!(book.sellable(&key(2)).unwrap().token_amount, 9);
    assert!(book.sellable(&key(3)).is_none());
}

#[test]
fn balance_reconciliation() {
    let mut book: PositionBook = new_position_store();
    book.insert(key(1), held(key(1), 50));
    assert_eq!(book.reconcile_balance(&key(1), 50, 70), BalanceOutcome::Held);
    assert_eq!(book.get(&key(1)).unwrap().token_amount, 70);
    assert_eq!(book.reconcile_balance(&key(1), 70, 70), BalanceOutcome::Held);
    assert_eq!(book.get(&key(1)).unwrap().token_amount, 70);
    book.insert(key(2), held(key(2), 0));
    assert_eq!(book.reconcile_balance(&key(2), 0, 0), BalanceOutcome::Empty);
    assert!(book.contains_key(&key(2)));
    assert_eq!(book.reconcile_balance(&key(1), 70, 0), BalanceOutcome::Removed);
    assert!(!book.contains_key(&key(1)));
    assert_eq!(book.len(), 1);
}

#[test]
fn metadata_updates_the_stored_position() {
    let mut book: PositionBook = new_position_store();
    book.insert(key(1), held(key(1), 5));
    book.set_meta(&key(1), &TokenMeta { name: "Moon".to_string(), symbol: "MOON".to_string() });
    let p = book.get(&key(1)).unwrap();
    assert_eq!(p.symbol, "MOON");
    assert_eq!(p.name, "Moon");
    book.set_meta(&key(9), &TokenMeta { name: "x".to_string(), symbol: "y".to_string() });
    assert_eq!(book.len(), 1);
}

#[test]
fn saved_positions_load_back() {
    let mut book: PositionBook = new_position_store();
    book.insert(key(1), held(key(1), 5));
    book.insert(key(2), held(key(2), 0));
    book.insert(key(3), held(key(3), 8));
    let entries = positions_to_entries(&book);
    assert_eq!(entries.len(), 3);
    assert_eq!(entries[0].0, key(1).to_string());
    let back = positions_from_entries(entries);
    assert_eq!(back.len(), 3);
    for i in 0..3 {
        let (k, p) = book.entry(i);
        let (k2, p2) = back.entry(i);
        assert!(k.same(k2));
        assert_eq!(p.token_amount, p2.token_amount);
        assert_eq!(p.symbol, p2.symbol);
        assert_eq!(p.entry_timestamp, p2.entry_timestamp);
    }
}

#[test]
fn loading_skips_bad_keys_and_keeps_the_last_duplicate() {
    let entries = vec![
        (key(1).to_string(), held(key(1), 1)),
        ("not-a-key".to_string(), held(key(2), 2)),
        (key(1).to_string(), held(key(1), 3)),
    ];
    let book = positions_from_entries(entries);
    assert_eq!(book.len(), 1);
    assert_eq!(book.get(&key(1)).unwrap().token_amount, 3);
}

#[test]
fn keyed_list_reads_back_what_was_written() {
    let mut list: KeyedList<u64> = KeyedList::new();
    assert!(list.is_empty());
    list.insert(key(1), 10);
    list.insert(key(2), 20);
    list.insert(key(1), 11);
    assert_eq!(list.len(), 2);
    assert_eq!(*list.get(&key(1)).unwrap(), 11);
    assert_eq!(*list.get(&key(2)).unwrap(), 20);
    assert_eq!(list.index_of(&key(2)), Some(1));
    assert_eq!(list.remove(&key(1)), Some(11));
    assert_eq!(list.remove(&key(1)), None);
    assert!(list.get(&key(1)).is_none());
    assert_eq!(list.index_of(&key(2)), Some(0));
    list.set_value(0, 21);
    assert_eq!(*list.get(&key(2)).unwrap(), 21);
}

#[test]
fn snapshot_copies_every_position() {
    let mut book: PositionBook = new_position_store();
    book.insert(key(1), held(key(1), 5));
    book.insert(key(2), held(key(2), 6));
    let snap = book.snapshot();
    assert_eq!(snap.len(), 2);
    assert_eq!(snap[1].token_amount, 6);
}
