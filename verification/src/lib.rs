//! An on-ledger asset-auction program, verified.
//!
//! The library holds the program's logic: deterministic address derivation
//! and validation, storage sizing, the fixed binary record layout, and the
//! two entry-point transitions (auction creation and authority delegation)
//! over a plain model of the accounts they touch. The host runtime and the
//! cross-program calls stay outside, in the surrounding application layer.

pub mod accounts;
pub mod codec;
pub mod create_auction;
pub mod delegate;
pub mod errors;
pub mod pubkey;
pub mod state;
pub mod token;
