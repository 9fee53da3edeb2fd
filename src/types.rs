use vstd::prelude::*;

use crate::codec::{append, read_array};

verus! {

/// Identifier of an entity; issued in increasing order from zero.
pub type KittyId = u32;

/// Identifier of an account.
pub type AccountId = u64;

/// An amount of currency.
pub type Balance = u128;

/// An entity: its genetic payload and its label.
#[derive(Clone, Copy, Debug, PartialEq, Eq, Default)]
pub struct Kitty {
    pub dna: [u8; 16],
    pub name: [u8; 8],
}

impl Kitty {
    /// The persisted form of an entity: its payload, then its label.
    pub open spec fn spec_encoding(self) -> Seq<u8> {
        self.dna@ + self.name@
    }

    /// Encodes the entity in its persisted form.
    pub fn encode(&self) -> (r: Vec<u8>)
        ensures
            r@ == self.spec_encoding(),
    {
        let mut out: Vec<u8> = Vec::new();
        append(&mut out, self.dna.as_slice());
        append(&mut out, self.name.as_slice());
        out
    }

    /// Reads an entity from the front of `bytes`; bytes past the first
    /// twenty-four are ignored.
    pub fn decode(bytes: &[u8]) -> (r: Option<Kitty>)
        ensures
            r is Some <==> bytes@.len() >= 24,
            r matches Some(k) ==> k.dna@ == bytes@.subrange(0, 16) && k.name@ == bytes@.subrange(
                16,
                24,
            ),
    {
        if bytes.len() < 24 {
            return None;
        }
        Some(Kitty { dna: read_array(bytes, 0), name: read_array(bytes, 16) })
    }
}

/// The reasons an operation on the store is refused.
#[derive(Clone, Copy, Debug, PartialEq, Eq, Structural)]
pub enum Error {
    /// The identifier names no entity.
    InvalidKittyId,
    /// Both parents of a breeding are the same entity.
    SameKittyId,
    /// The caller does not own the entity.
    NotOwner,
    /// The buyer already owns the entity.
    AlreadyOwned,
    /// The entity is not offered for sale.
    NotOnSale,
    /// The entity is already offered for sale.
    AlreadyOnSale,
    /// No identifier is left to allocate.
    IdentifierSpaceExhausted,
    /// The payer cannot afford the price.
    InsufficientFunds,
}

/// What a successful operation reports.
#[derive(Clone, Copy, Debug, PartialEq, Eq)]
pub enum Event {
    CreateKittyEvent { who: AccountId, kitty_id: KittyId, kitty: Kitty },
    KittyBreed { who: AccountId, kitty_id: KittyId, kitty: Kitty },
    KittyTransfered { who: AccountId, recipient: AccountId, kitty_id: KittyId },
    KittyBought { who: AccountId, kitty_id: KittyId },
    KittyOnSale { who: AccountId, kitty_id: KittyId },
}

} // verus!
