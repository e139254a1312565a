//! Verified core of the PumpFun sniffer: account addresses, event decoding,
//! bonding-curve pricing, instruction building, the position book and the
//! state machine behind the terminal interface.

pub mod codec;
pub mod decimal;
pub mod pubkey;
pub mod instruction;
pub mod pumpfun;
pub mod curve;
pub mod events;
pub mod text;
pub mod metadata;
pub mod send_transaction;
pub mod trader;
pub mod keyed;
pub mod position;
pub mod ui;
pub mod app;
