//! An ownership ledger for collectible entities ("kitties"): identifier
//! allocation, deterministic breeding, transfer, a small marketplace, and
//! the versioned rewrite of persisted records.

pub mod codec;
pub mod types;
pub mod dna;
pub mod currency;
pub mod pallet;
pub mod migrations;

pub use pallet::Pallet;
pub use types::{AccountId, Balance, Error, Event, Kitty, KittyId};
