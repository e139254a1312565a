//! Open positions: what was bought, for how much, and since when.
use vstd::prelude::*;

use crate::keyed::{distinct_keys, has_key, key_index, lookup, remove_key, upsert, KeyedList};
use crate::metadata::TokenMeta;
use crate::pubkey::{base58_text, parse_base58, Pubkey};

verus! {

/// A position in one token.
#[derive(Debug)]
pub struct Position {
    pub mint: Pubkey,
    pub bonding_curve: Pubkey,
    pub creator: Pubkey,
    pub lamports_invested: u64,
    pub token_amount: u64,
    pub entry_timestamp: i64,
    pub symbol: String,
    pub name: String,
}

/// The value a [`Position`] stands for.
pub struct PositionModel {
    pub mint: Seq<u8>,
    pub bonding_curve: Seq<u8>,
    pub creator: Seq<u8>,
    pub lamports_invested: u64,
    pub token_amount: u64,
    pub entry_timestamp: i64,
    pub symbol: Seq<char>,
    pub name: Seq<char>,
}

impl View for Position {
    type V = PositionModel;

    open spec fn view(&self) -> PositionModel {
        PositionModel {
            mint: self.mint@,
            bonding_curve: self.bonding_curve@,
            creator: self.creator@,
            lamports_invested: self.lamports_invested,
            token_amount: self.token_amount,
            entry_timestamp: self.entry_timestamp,
            symbol: self.symbol@,
            name: self.name@,
        }
    }
}

impl Position {
    /// A copy of this position.
    pub fn duplicate(&self) -> (res: Position)
        ensures
            res@ == self@,
    {
        Position {
            mint: self.mint,
            bonding_curve: self.bonding_curve,
            creator: self.creator,
            lamports_invested: self.lamports_invested,
            token_amount: self.token_amount,
            entry_timestamp: self.entry_timestamp,
            symbol: self.symbol.clone(),
            name: self.name.clone(),
        }
    }
}

/// The open positions, keyed by mint.
pub type PositionBook = KeyedList<Position>;

/// An empty set of positions.
pub fn new_position_store() -> (res: PositionBook)
    ensures
        res@ == Seq::<(Seq<u8>, PositionModel)>::empty(),
{
    KeyedList::new()
}

/// What a balance check found for a position.
#[derive(Clone, Copy, Debug, PartialEq, Eq, Structural)]
pub enum BalanceOutcome {
    /// Tokens were recorded but none are held any more: the position was removed.
    Removed,
    /// No tokens are recorded or held (a buy still pending).
    Empty,
    /// Tokens are held; the recorded amount now matches the chain.
    Held,
}

/// A position whose buy has been sent but not yet filled.
pub open spec fn pending_model(
    mint: Seq<u8>,
    bonding_curve: Seq<u8>,
    creator: Seq<u8>,
    lamports_invested: u64,
    now: i64,
    symbol: Seq<char>,
    name: Seq<char>,
) -> PositionModel {
    PositionModel { mint, bonding_curve, creator, lamports_invested, token_amount: 0, entry_timestamp: now, symbol, name }
}

/// The positions with the token amount of `mint` set to `amount`, when it is held.
pub open spec fn with_token_amount(s: Seq<(Seq<u8>, PositionModel)>, mint: Seq<u8>, amount: u64) -> Seq<(Seq<u8>, PositionModel)> {
    if has_key(s, mint) {
        let i = key_index(s, mint);
        s.update(i, (mint, PositionModel { token_amount: amount, ..s[i].1 }))
    } else {
        s
    }
}

/// The positions with the symbol and name of `mint` replaced, when it is held.
pub open spec fn with_meta(s: Seq<(Seq<u8>, PositionModel)>, mint: Seq<u8>, symbol: Seq<char>, name: Seq<char>) -> Seq<(Seq<u8>, PositionModel)> {
    if has_key(s, mint) {
        let i = key_index(s, mint);
        s.update(i, (mint, PositionModel { symbol: symbol, name: name, ..s[i].1 }))
    } else {
        s
    }
}

impl KeyedList<Position> {
    /// Opens a pending position for a buy of `mint`, unless one is already held; says
    /// whether it did.
    pub fn begin_buy(
        &mut self,
        mint: Pubkey,
        bonding_curve: Pubkey,
        creator: Pubkey,
        lamports_invested: u64,
        now: i64,
        symbol: &String,
        name: &String,
    ) -> (opened: bool)
        ensures
            opened == !has_key(old(self)@, mint@),
            opened ==> final(self)@ == upsert(
                old(self)@,
                mint@,
                pending_model(mint@, bonding_curve@, creator@, lamports_invested, now, symbol@, name@),
            ),
            !opened ==> final(self)@ == old(self)@,
    {
        if self.contains_key(&mint) {
            return false;
        }
        let p = Position {
            mint,
            bonding_curve,
            creator,
            lamports_invested,
            token_amount: 0,
            entry_timestamp: now,
            symbol: symbol.clone(),
            name: name.clone(),
        };
        self.insert(mint, p);
        true
    }

    /// Records a sent buy of `token_amount` tokens; the entry time of a position already
    /// held is kept, otherwise it is `now`.
    pub fn complete_buy(
        &mut self,
        mint: Pubkey,
        bonding_curve: Pubkey,
        creator: Pubkey,
        lamports_invested: u64,
        token_amount: u64,
        now: i64,
        symbol: &String,
        name: &String,
    )
        ensures
            final(self)@ == upsert(
                old(self)@,
                mint@,
                PositionModel {
                    mint: mint@,
                    bonding_curve: bonding_curve@,
                    creator: creator@,
                    lamports_invested,
                    token_amount,
                    entry_timestamp: match lookup(old(self)@, mint@) {
                        Some(p) => p.entry_timestamp,
                        None => now,
                    },
                    symbol: symbol@,
                    name: name@,
                },
            ),
    {
        let entry_timestamp = match self.get(&mint) {
            Some(p) => p.entry_timestamp,
            None => now,
        };
        let p = Position {
            mint,
            bonding_curve,
            creator,
            lamports_invested,
            token_amount,
            entry_timestamp,
            symbol: symbol.clone(),
            name: name.clone(),
        };
        self.insert(mint, p);
    }

    /// The position in `mint` when it holds tokens (a pending buy cannot be sold).
    pub fn sellable(&self, mint: &Pubkey) -> (res: Option<Position>)
        ensures
            match res {
                Some(p) => lookup(self@, mint@) == Some(p@) && p.token_amount > 0,
                None => !(lookup(self@, mint@) matches Some(q) && q.token_amount > 0),
            },
    {
        match self.get(mint) {
            Some(p) => {
                if p.token_amount > 0 {
                    Some(p.duplicate())
                } else {
                    None
                }
            },
            None => None,
        }
    }

    /// Sets the symbol and name of the position in `mint`, when it is held.
    pub fn set_meta(&mut self, mint: &Pubkey, meta: &TokenMeta)
        ensures
            final(self)@ == with_meta(old(self)@, mint@, meta.symbol@, meta.name@),
    {
        match self.index_of(mint) {
            Some(i) => {
                let mut p = self.entry(i).1.duplicate();
                p.symbol = meta.symbol.clone();
                p.name = meta.name.clone();
                self.set_value(i, p);
            },
            None => {},
        }
    }

    /// Brings the position in `mint` in line with the balance held on chain: a changed
    /// non-zero balance is recorded, a position whose recorded tokens are all gone is
    /// removed.
    pub fn reconcile_balance(&mut self, mint: &Pubkey, recorded_amount: u64, real_amount: u64) -> (res: BalanceOutcome)
        ensures
            real_amount != recorded_amount && real_amount > 0 ==> final(self)@ == with_token_amount(old(self)@, mint@, real_amount),
            real_amount == recorded_amount && real_amount > 0 ==> final(self)@ == old(self)@,
            real_amount == 0 && recorded_amount > 0 ==> final(self)@ == remove_key(old(self)@, mint@),
            real_amount == 0 && recorded_amount == 0 ==> final(self)@ == old(self)@,
            res == (if real_amount == 0 && recorded_amount > 0 {
                BalanceOutcome::Removed
            } else if real_amount == 0 {
                BalanceOutcome::Empty
            } else {
                BalanceOutcome::Held
            }),
    {
        if real_amount != recorded_amount && real_amount > 0 {
            match self.index_of(mint) {
                Some(i) => {
                    let mut p = self.entry(i).1.duplicate();
                    p.token_amount = real_amount;
                    self.set_value(i, p);
                },
                None => {},
            }
        }
        if real_amount == 0 && recorded_amount > 0 {
            self.remove(mint);
            return BalanceOutcome::Removed;
        }
        if real_amount == 0 {
            return BalanceOutcome::Empty;
        }
        BalanceOutcome::Held
    }

    /// Copies of every position, in order.
    pub fn snapshot(&self) -> (res: Vec<Position>)
        ensures
            res@.len() == self@.len(),
            forall|i: int| 0 <= i < res@.len() ==> #[trigger] res@[i]@ == self@[i].1,
    {
        let mut out: Vec<Position> = Vec::new();
        let n = self.len();
        let mut i: usize = 0;
        while i < n
            invariant
                0 <= i <= n,
                n == self@.len(),
                out@.len() == i,
                forall|j: int| 0 <= j < i ==> #[trigger] out@[j]@ == self@[j].1,
            decreases n - i,
        {
            out.push(self.entry(i).1.duplicate());
            i = i + 1;
        }
        out
    }
}

/// The positions a saved file lists, keyed by the base58 text of each mint: entries whose
/// key does not parse are dropped, and a later entry for the same mint replaces an earlier.
pub open spec fn load_entries(es: Seq<(Seq<char>, PositionModel)>) -> Seq<(Seq<u8>, PositionModel)>
    decreases es.len(),
{
    if es.len() == 0 {
        seq![]
    } else {
        let before = load_entries(es.drop_last());
        match parse_base58(es.last().0) {
            Some(k) => upsert(before, k, es.last().1),
            None => before,
        }
    }
}

pub open spec fn saved_entries_model(es: Seq<(String, Position)>) -> Seq<(Seq<char>, PositionModel)> {
    es.map_values(|e: (String, Position)| (e.0@, e.1@))
}

/// Builds the positions from saved `(base58 mint, position)` entries.
pub fn positions_from_entries(entries: Vec<(String, Position)>) -> (res: PositionBook)
    ensures
        res@ == load_entries(saved_entries_model(entries@)),
{
    let ghost es = saved_entries_model(entries@);
    let mut book: PositionBook = KeyedList::new();
    let mut rest = entries;
    let mut taken: Vec<(String, Position)> = Vec::new();
    while rest.len() > 0
        invariant
            saved_entries_model(taken@) + saved_entries_model(rest@) == es,
            book@ == load_entries(saved_entries_model(taken@)),
        decreases rest@.len(),
    {
        let ghost taken_before = saved_entries_model(taken@);
        let (key, p) = rest.remove(0);
        let parsed = Pubkey::from_base58(key.as_str());
        proof {
            assert(saved_entries_model(taken@.push((key, p))).drop_last() =~= taken_before);
        }
        match parsed {
            Some(k) => {
                let p2 = p.duplicate();
                book.insert(k, p2);
                taken.push((key, p));
            },
            None => {
                taken.push((key, p));
            },
        }
        assert(saved_entries_model(taken@) + saved_entries_model(rest@) =~= es);
    }
    assert(saved_entries_model(taken@) =~= es);
    book
}

/// The `(base58 mint, position)` entries to save, in order.
pub fn positions_to_entries(book: &PositionBook) -> (res: Vec<(String, Position)>)
    ensures
        res@.len() == book@.len(),
        forall|i: int| 0 <= i < res@.len() ==> #[trigger] saved_entries_model(res@)[i] == (base58_text(book@[i].0), book@[i].1),
        load_entries(saved_entries_model(res@)) == book@,
{
    let mut out: Vec<(String, Position)> = Vec::new();
    let n = book.len();
    let ghost s = book@;
    let mut i: usize = 0;
    assert(saved_entries_model(out@) =~= Seq::<(Seq<char>, PositionModel)>::empty());
    assert(s.take(0) =~= Seq::<(Seq<u8>, PositionModel)>::empty());
    while i < n
        invariant
            0 <= i <= n,
            n == book@.len(),
            s == book@,
            distinct_keys(s),
            out@.len() == i,
            forall|j: int| 0 <= j < i ==> (#[trigger] out@[j]).0@ == base58_text(book@[j].0) && out@[j].1@ == book@[j].1,
            load_entries(saved_entries_model(out@)) == s.take(i as int),
        decreases n - i,
    {
        let e = book.entry(i);
        let key = e.0.to_string();
        let ghost before = out@;
        out.push((key, e.1.duplicate()));
        proof {
            let es = saved_entries_model(out@);
            assert(es.drop_last() =~= saved_entries_model(before));
            assert(es.last() == (base58_text(s[i as int].0), s[i as int].1));
            assert forall|j: int| 0 <= j < i implies s.take(i as int)[j].0 != s[i as int].0 by {
                assert(s.take(i as int)[j] == s[j]);
            }
            assert(s.take(i as int).push(s[i as int]) =~= s.take(i + 1));
        }
        i = i + 1;
    }
    assert(s.take(n as int) =~= s);
    assert forall|i: int| 0 <= i < out@.len() implies #[trigger] saved_entries_model(out@)[i] == (base58_text(book@[i].0), book@[i].1) by {
        assert(out@[i].0@ == base58_text(book@[i].0));
    }
    out
}

} // verus!
