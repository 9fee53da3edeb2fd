use std::collections::{BTreeMap, BTreeSet};

use vstd::prelude::*;

use crate::currency::Currency;
use crate::dna::{combine, le_u64, mixed_dna, random_value, selector_of};
use crate::types::{AccountId, Balance, Error, Event, Kitty, KittyId};

verus! {

broadcast use vstd::std_specs::btree::group_btree_axioms, vstd::laws_cmp::group_laws_cmp;

/// The state of the store as mathematics.
pub ghost struct PalletView {
    /// The next identifier to allocate.
    pub next_kitty_id: KittyId,
    /// Every entity, by identifier.
    pub kitties: Map<KittyId, Kitty>,
    /// The owner of every entity.
    pub owners: Map<KittyId, AccountId>,
    /// The parents of every entity that was bred.
    pub parents: Map<KittyId, (KittyId, KittyId)>,
    /// The entities offered for sale.
    pub on_sale: Set<KittyId>,
    /// What successful operations reported, oldest first.
    pub events: Seq<Event>,
    /// The fee of every operation.
    pub price: Balance,
    /// The account that collects fees.
    pub account: AccountId,
}

impl PalletView {
    /// The store's invariants: entities and owners go together, every
    /// identifier in use is below the next one, parents are distinct older
    /// entities, and only existing entities are for sale.
    pub open spec fn wf(self) -> bool {
        &&& forall|id: KittyId| #[trigger]
            self.kitties.contains_key(id) <==> self.owners.contains_key(id)
        &&& forall|id: KittyId| #[trigger] self.kitties.contains_key(id) ==> id < self.next_kitty_id
        &&& forall|id: KittyId| #[trigger]
            self.parents.contains_key(id) ==> {
                let (p1, p2) = self.parents[id];
                &&& self.kitties.contains_key(id)
                &&& p1 < id && p2 < id && p1 != p2
                &&& self.kitties.contains_key(p1) && self.kitties.contains_key(p2)
            }
        &&& forall|id: KittyId| #[trigger] self.on_sale.contains(id) ==> self.owners.contains_key(id)
    }

    /// Why `create_kitty` is refused before any payment, if it is.
    pub open spec fn create_check(self) -> Option<Error> {
        if self.next_kitty_id == KittyId::MAX {
            Some(Error::IdentifierSpaceExhausted)
        } else {
            None
        }
    }

    /// Why `breed` is refused before any payment, if it is.
    pub open spec fn breed_check(self, id1: KittyId, id2: KittyId) -> Option<Error> {
        if id1 == id2 {
            Some(Error::SameKittyId)
        } else if !self.kitties.contains_key(id1) || !self.kitties.contains_key(id2) {
            Some(Error::InvalidKittyId)
        } else {
            self.create_check()
        }
    }

    /// Why `transfer` is refused before any payment, if it is.
    pub open spec fn transfer_check(self, who: AccountId, id: KittyId) -> Option<Error> {
        if !self.kitties.contains_key(id) || !self.owners.contains_key(id) {
            Some(Error::InvalidKittyId)
        } else if self.owners[id] != who {
            Some(Error::NotOwner)
        } else {
            None
        }
    }

    /// Why `buy` is refused before any payment, if it is.
    pub open spec fn buy_check(self, who: AccountId, id: KittyId) -> Option<Error> {
        if !self.kitties.contains_key(id) {
            Some(Error::InvalidKittyId)
        } else if !self.owners.contains_key(id) {
            Some(Error::NotOwner)
        } else if self.owners[id] == who {
            Some(Error::AlreadyOwned)
        } else if !self.on_sale.contains(id) {
            Some(Error::NotOnSale)
        } else {
            None
        }
    }

    /// Why `sale` is refused before any payment, if it is.
    pub open spec fn sale_check(self, who: AccountId, id: KittyId) -> Option<Error> {
        if !self.kitties.contains_key(id) {
            Some(Error::InvalidKittyId)
        } else if !self.owners.contains_key(id) || self.owners[id] != who {
            Some(Error::NotOwner)
        } else if self.on_sale.contains(id) {
            Some(Error::AlreadyOnSale)
        } else {
            None
        }
    }

    /// The state after `who` creates `kitty` under the next identifier.
    pub open spec fn created(self, who: AccountId, kitty: Kitty) -> PalletView {
        let id = self.next_kitty_id;
        PalletView {
            next_kitty_id: (id + 1) as KittyId,
            kitties: self.kitties.insert(id, kitty),
            owners: self.owners.insert(id, who),
            events: self.events.push(Event::CreateKittyEvent { who, kitty_id: id, kitty }),
            ..self
        }
    }

    /// The state after `who` breeds `kitty` from `id1` and `id2` under the
    /// next identifier.
    pub open spec fn bred(
        self,
        who: AccountId,
        id1: KittyId,
        id2: KittyId,
        kitty: Kitty,
    ) -> PalletView {
        let id = self.next_kitty_id;
        PalletView {
            next_kitty_id: (id + 1) as KittyId,
            kitties: self.kitties.insert(id, kitty),
            owners: self.owners.insert(id, who),
            parents: self.parents.insert(id, (id1, id2)),
            events: self.events.push(Event::KittyBreed { who, kitty_id: id, kitty }),
            ..self
        }
    }

    /// The state after `who` hands `id` to `recipient`.
    pub open spec fn transferred(self, who: AccountId, recipient: AccountId, id: KittyId) -> PalletView {
        PalletView {
            owners: self.owners.insert(id, recipient),
            events: self.events.push(Event::KittyTransfered { who, recipient, kitty_id: id }),
            ..self
        }
    }

    /// The state after `who` buys `id`.
    pub open spec fn bought(self, who: AccountId, id: KittyId) -> PalletView {
        PalletView {
            owners: self.owners.insert(id, who),
            on_sale: self.on_sale.remove(id),
            events: self.events.push(Event::KittyBought { who, kitty_id: id }),
            ..self
        }
    }

    /// The state after `who` offers `id` for sale.
    pub open spec fn listed(self, who: AccountId, id: KittyId) -> PalletView {
        PalletView {
            on_sale: self.on_sale.insert(id),
            events: self.events.push(Event::KittyOnSale { who, kitty_id: id }),
            ..self
        }
    }
}

/// The account that collects a pallet's fees, derived from its eight-byte
/// identifier: the account whose little-endian bytes are `modl` followed by
/// the first four bytes of the identifier (an account number holds eight
/// bytes, so the rest of the identifier is cut off).
pub fn get_account_id(pallet_id: [u8; 8]) -> (r: AccountId)
    ensures
        le_u64(r) == seq![109u8, 111u8, 100u8, 108u8] + pallet_id@.subrange(0, 4),
{
    let b0 = pallet_id[0];
    let b1 = pallet_id[1];
    let b2 = pallet_id[2];
    let b3 = pallet_id[3];
    let r: u64 = 0x6c64_6f6du64 | (b0 as u64) << 32 | (b1 as u64) << 40 | (b2 as u64) << 48 | (
    b3 as u64) << 56;
    assert(r as u8 == 109u8 && (r >> 8) as u8 == 111u8 && (r >> 16) as u8 == 100u8 && (r >> 24) as u8
        == 108u8 && (r >> 32) as u8 == b0 && (r >> 40) as u8 == b1 && (r >> 48) as u8 == b2 && (r
        >> 56) as u8 == b3) by (bit_vector)
        requires
            r == 0x6c64_6f6du64 | (b0 as u64) << 32 | (b1 as u64) << 40 | (b2 as u64) << 48 | (
            b3 as u64) << 56,
    ;
    assert(le_u64(r) =~= seq![109u8, 111u8, 100u8, 108u8] + pallet_id@.subrange(0, 4));
    r
}

/// The entity store: entities, owners, parentage, sale offers, and the
/// identifier counter.
pub struct Pallet {
    next_kitty_id: KittyId,
    kitties: BTreeMap<KittyId, Kitty>,
    kitty_owner: BTreeMap<KittyId, AccountId>,
    kitty_parent: BTreeMap<KittyId, (KittyId, KittyId)>,
    kitty_on_sale: BTreeSet<KittyId>,
    events: Vec<Event>,
    price: Balance,
    account: AccountId,
}

impl View for Pallet {
    type V = PalletView;

    closed spec fn view(&self) -> PalletView {
        PalletView {
            next_kitty_id: self.next_kitty_id,
            kitties: self.kitties@,
            owners: self.kitty_owner@,
            parents: self.kitty_parent@,
            on_sale: self.kitty_on_sale@,
            events: self.events@,
            price: self.price,
            account: self.account,
        }
    }
}

impl Pallet {
    /// An empty store whose operations cost `price`, paid to `account`
    /// (the seller is paid instead on a purchase). The fee account is
    /// normally `get_account_id` of the pallet's identifier.
    pub fn new(price: Balance, account: AccountId) -> (r: Pallet)
        ensures
            r@.wf(),
            r@.next_kitty_id == 0,
            r@.kitties == Map::<KittyId, Kitty>::empty(),
            r@.owners == Map::<KittyId, AccountId>::empty(),
            r@.parents == Map::<KittyId, (KittyId, KittyId)>::empty(),
            r@.on_sale == Set::<KittyId>::empty(),
            r@.events == Seq::<Event>::empty(),
            r@.price == price,
            r@.account == account,
    {
        Pallet {
            next_kitty_id: 0,
            kitties: BTreeMap::new(),
            kitty_owner: BTreeMap::new(),
            kitty_parent: BTreeMap::new(),
            kitty_on_sale: BTreeSet::new(),
            events: Vec::new(),
            price,
            account,
        }
    }

    /// The next identifier to allocate.
    pub fn next_kitty_id(&self) -> (r: KittyId)
        ensures
            r == self@.next_kitty_id,
    {
        self.next_kitty_id
    }

    /// Moves the identifier counter forward to `id`; identifiers below it that
    /// were never issued are skipped for good.
    pub fn set_next_kitty_id(&mut self, id: KittyId)
        requires
            old(self)@.wf(),
            id >= old(self)@.next_kitty_id,
        ensures
            final(self)@.wf(),
            final(self)@ == (PalletView { next_kitty_id: id, ..old(self)@ }),
    {
        self.next_kitty_id = id;
    }

    /// The entity `kitty_id`, if it exists.
    pub fn kitties(&self, kitty_id: KittyId) -> (r: Option<Kitty>)
        ensures
            r == (if self@.kitties.contains_key(kitty_id) {
                Some(self@.kitties[kitty_id])
            } else {
                None
            }),
    {
        match self.kitties.get(&kitty_id) {
            Some(k) => Some(*k),
            None => None,
        }
    }

    /// The owner of `kitty_id`, if it exists.
    pub fn kitty_owner(&self, kitty_id: KittyId) -> (r: Option<AccountId>)
        ensures
            r == (if self@.owners.contains_key(kitty_id) {
                Some(self@.owners[kitty_id])
            } else {
                None
            }),
    {
        match self.kitty_owner.get(&kitty_id) {
            Some(o) => Some(*o),
            None => None,
        }
    }

    /// The parents of `kitty_id`, if it was bred.
    pub fn kitty_parent(&self, kitty_id: KittyId) -> (r: Option<(KittyId, KittyId)>)
        ensures
            r == (if self@.parents.contains_key(kitty_id) {
                Some(self@.parents[kitty_id])
            } else {
                None
            }),
    {
        match self.kitty_parent.get(&kitty_id) {
            Some(p) => Some(*p),
            None => None,
        }
    }

    /// `Some(())` when `kitty_id` is offered for sale.
    pub fn kitty_on_sale(&self, kitty_id: KittyId) -> (r: Option<()>)
        ensures
            r is Some <==> self@.on_sale.contains(kitty_id),
    {
        if self.kitty_on_sale.contains(&kitty_id) {
            Some(())
        } else {
            None
        }
    }

    /// What successful operations reported, oldest first.
    pub fn events(&self) -> (r: &Vec<Event>)
        ensures
            r@ == self@.events,
    {
        &self.events
    }

    /// What the last successful operation reported.
    pub fn last_event(&self) -> (r: Option<Event>)
        ensures
            r == (if self@.events.len() == 0 {
                None
            } else {
                Some(self@.events.last())
            }),
    {
        let n = self.events.len();
        if n == 0 {
            None
        } else {
            Some(self.events[n - 1])
        }
    }

    /// The fee of every operation.
    pub fn price(&self) -> (r: Balance)
        ensures
            r == self@.price,
    {
        self.price
    }

    /// The account that collects fees.
    pub fn account(&self) -> (r: AccountId)
        ensures
            r == self@.account,
    {
        self.account
    }

    /// Issues the next identifier, or fails when none is left; on failure
    /// nothing changes.
    fn get_next_id(&mut self) -> (r: Result<KittyId, Error>)
        ensures
            old(self).next_kitty_id == KittyId::MAX ==> r == Err::<KittyId, Error>(
                Error::IdentifierSpaceExhausted,
            ) && *final(self) == *old(self),
            old(self).next_kitty_id < KittyId::MAX ==> r == Ok::<KittyId, Error>(
                old(self).next_kitty_id,
            ) && final(self).next_kitty_id == old(self).next_kitty_id + 1,
            final(self).kitties == old(self).kitties,
            final(self).kitty_owner == old(self).kitty_owner,
            final(self).kitty_parent == old(self).kitty_parent,
            final(self).kitty_on_sale == old(self).kitty_on_sale,
            final(self).events == old(self).events,
            final(self).price == old(self).price,
            final(self).account == old(self).account,
    {
        let current_id = self.next_kitty_id;
        match current_id.checked_add(1) {
            Some(next) => {
                self.next_kitty_id = next;
                Ok(current_id)
            },
            None => Err(Error::IdentifierSpaceExhausted),
        }
    }

    /// Breeds a new entity for `who` from `kitty_id1` and `kitty_id2`, which
    /// need not belong to `who`. The child's payload mixes the parents' under
    /// the selector derived from `seed`, `who` and `index`; `who` pays the fee.
    pub fn breed<C: Currency>(
        &mut self,
        currency: &mut C,
        who: AccountId,
        kitty_id1: KittyId,
        kitty_id2: KittyId,
        name: [u8; 8],
        seed: &[u8],
        index: Option<u32>,
    ) -> (r: Result<KittyId, Error>)
        requires
            old(self)@.wf(),
        ensures
            final(self)@.wf(),
            r is Ok ==> old(currency).transferred(
                &*final(currency),
                who,
                old(self)@.account,
                old(self)@.price,
            ),
            kitty_id1 == kitty_id2 ==> r == Err::<KittyId, Error>(Error::SameKittyId)
                && final(self)@ == old(self)@,
            match old(self)@.breed_check(kitty_id1, kitty_id2) {
                Some(e) => {
                    &&& r == Err::<KittyId, Error>(e)
                    &&& final(self)@ == old(self)@
                    &&& *final(currency) == *old(currency)
                },
                None => if old(currency).can_transfer(who, old(self)@.account, old(self)@.price) {
                    let id = old(self)@.next_kitty_id;
                    let kitty = final(self)@.kitties[id];
                    &&& r == Ok::<KittyId, Error>(id)
                    &&& kitty.name == name
                    &&& kitty.dna@ == mixed_dna(
                        old(self)@.kitties[kitty_id1].dna@,
                        old(self)@.kitties[kitty_id2].dna@,
                        selector_of(seed@, who, index),
                    )
                    &&& final(self)@ == old(self)@.bred(who, kitty_id1, kitty_id2, kitty)
                } else {
                    &&& r == Err::<KittyId, Error>(Error::InsufficientFunds)
                    &&& final(self)@ == old(self)@
                    &&& *final(currency) == *old(currency)
                },
            },
            r matches Ok(id) ==> {
                &&& final(self)@.parents[id] == (kitty_id1, kitty_id2)
                &&& final(self)@.owners[id] == who
                &&& final(self)@.kitties[id].dna@ == mixed_dna(
                    final(self)@.kitties[kitty_id1].dna@,
                    final(self)@.kitties[kitty_id2].dna@,
                    selector_of(seed@, who, index),
                )
            },
    {
        if kitty_id1 == kitty_id2 {
            return Err(Error::SameKittyId);
        }
        let kitty1 = match self.kitties.get(&kitty_id1) {
            Some(k) => *k,
            None => return Err(Error::InvalidKittyId),
        };
        let kitty2 = match self.kitties.get(&kitty_id2) {
            Some(k) => *k,
            None => return Err(Error::InvalidKittyId),
        };
        let kitty_id = match self.get_next_id() {
            Ok(id) => id,
            Err(e) => return Err(e),
        };
        let selector = random_value(seed, who, index);
        let dna = combine(&kitty1.dna, &kitty2.dna, &selector);
        let kitty = Kitty { dna, name };
        match currency.transfer(who, self.account, self.price) {
            Ok(()) => {},
            Err(_) => {
                self.next_kitty_id = kitty_id;
                return Err(Error::InsufficientFunds);
            },
        }
        self.kitties.insert(kitty_id, kitty);
        self.kitty_owner.insert(kitty_id, who);
        self.kitty_parent.insert(kitty_id, (kitty_id1, kitty_id2));
        self.events.push(Event::KittyBreed { who, kitty_id, kitty });
        proof {
            assert(self@ == old(self)@.bred(who, kitty_id1, kitty_id2, kitty));
        }
        Ok(kitty_id)
    }
    /// Creates an entity owned by `who`, named `name`, whose payload is the
    /// selector derived from `seed`, `who` and `index`; `who` pays the fee.
    pub fn create_kitty<C: Currency>(
        &mut self,
        currency: &mut C,
        who: AccountId,
        name: [u8; 8],
        seed: &[u8],
        index: Option<u32>,
    ) -> (r: Result<KittyId, Error>)
        requires
            old(self)@.wf(),
        ensures
            final(self)@.wf(),
            r is Ok ==> old(currency).transferred(
                &*final(currency),
                who,
                old(self)@.account,
                old(self)@.price,
            ),
            match old(self)@.create_check() {
                Some(e) => {
                    &&& r == Err::<KittyId, Error>(e)
                    &&& final(self)@ == old(self)@
                    &&& *final(currency) == *old(currency)
                },
                None => if old(currency).can_transfer(who, old(self)@.account, old(self)@.price) {
                    let id = old(self)@.next_kitty_id;
                    let kitty = final(self)@.kitties[id];
                    &&& r == Ok::<KittyId, Error>(id)
                    &&& kitty.name == name
                    &&& kitty.dna@ == selector_of(seed@, who, index)
                    &&& final(self)@ == old(self)@.created(who, kitty)
                } else {
                    &&& r == Err::<KittyId, Error>(Error::InsufficientFunds)
                    &&& final(self)@ == old(self)@
                    &&& *final(currency) == *old(currency)
                },
            },
            r matches Ok(id) ==> {
                &&& final(self)@.owners[id] == who
                &&& !final(self)@.parents.contains_key(id)
                &&& final(self)@.kitties[id].name == name
            },
    {
        let kitty_id = match self.get_next_id() {
            Ok(id) => id,
            Err(e) => return Err(e),
        };
        let dna = random_value(seed, who, index);
        let kitty = Kitty { dna, name };
        match currency.transfer(who, self.account, self.price) {
            Ok(()) => {},
            Err(_) => {
                self.next_kitty_id = kitty_id;
                return Err(Error::InsufficientFunds);
            },
        }
        self.kitties.insert(kitty_id, kitty);
        self.kitty_owner.insert(kitty_id, who);
        self.events.push(Event::CreateKittyEvent { who, kitty_id, kitty });
        proof {
            assert(self@ == old(self)@.created(who, kitty));
        }
        Ok(kitty_id)
    }

    /// `who` buys `kitty_id`, which must be offered for sale by someone else,
    /// paying the fee to its current owner.
    pub fn buy<C: Currency>(&mut self, currency: &mut C, who: AccountId, kitty_id: KittyId) -> (r:
        Result<(), Error>)
        requires
            old(self)@.wf(),
        ensures
            final(self)@.wf(),
            r is Ok ==> old(currency).transferred(
                &*final(currency),
                who,
                old(self)@.owners[kitty_id],
                old(self)@.price,
            ),
            match old(self)@.buy_check(who, kitty_id) {
                Some(e) => {
                    &&& r == Err::<(), Error>(e)
                    &&& final(self)@ == old(self)@
                    &&& *final(currency) == *old(currency)
                },
                None => if old(currency).can_transfer(
                    who,
                    old(self)@.owners[kitty_id],
                    old(self)@.price,
                ) {
                    &&& r == Ok::<(), Error>(())
                    &&& final(self)@ == old(self)@.bought(who, kitty_id)
                } else {
                    &&& r == Err::<(), Error>(Error::InsufficientFunds)
                    &&& final(self)@ == old(self)@
                    &&& *final(currency) == *old(currency)
                },
            },
    {
        if !self.kitties.contains_key(&kitty_id) {
            return Err(Error::InvalidKittyId);
        }
        let owner = match self.kitty_owner.get(&kitty_id) {
            Some(o) => *o,
            None => return Err(Error::NotOwner),
        };
        if owner == who {
            return Err(Error::AlreadyOwned);
        }
        if !self.kitty_on_sale.contains(&kitty_id) {
            return Err(Error::NotOnSale);
        }
        match currency.transfer(who, owner, self.price) {
            Ok(()) => {},
            Err(_) => return Err(Error::InsufficientFunds),
        }
        self.kitty_owner.insert(kitty_id, who);
        self.kitty_on_sale.remove(&kitty_id);
        self.events.push(Event::KittyBought { who, kitty_id });
        proof {
            assert(self@ == old(self)@.bought(who, kitty_id));
        }
        Ok(())
    }

    /// `who` hands `kitty_id`, which it owns, to `recipient` and pays the
    /// fee. Whether the entity is offered for sale is left as it is.
    pub fn transfer<C: Currency>(
        &mut self,
        currency: &mut C,
        who: AccountId,
        recipient: AccountId,
        kitty_id: KittyId,
    ) -> (r: Result<(), Error>)
        requires
            old(self)@.wf(),
        ensures
            final(self)@.wf(),
            r is Ok ==> old(currency).transferred(
                &*final(currency),
                who,
                old(self)@.account,
                old(self)@.price,
            ),
            match old(self)@.transfer_check(who, kitty_id) {
                Some(e) => {
                    &&& r == Err::<(), Error>(e)
                    &&& final(self)@ == old(self)@
                    &&& *final(currency) == *old(currency)
                },
                None => if old(currency).can_transfer(who, old(self)@.account, old(self)@.price) {
                    &&& r == Ok::<(), Error>(())
                    &&& final(self)@ == old(self)@.transferred(who, recipient, kitty_id)
                } else {
                    &&& r == Err::<(), Error>(Error::InsufficientFunds)
                    &&& final(self)@ == old(self)@
                    &&& *final(currency) == *old(currency)
                },
            },
            // Only the owner of `kitty_id` may change; nothing else about any
            // entity does.
            final(self)@.kitties == old(self)@.kitties,
            final(self)@.parents == old(self)@.parents,
            final(self)@.on_sale == old(self)@.on_sale,
            final(self)@.next_kitty_id == old(self)@.next_kitty_id,
            forall|other: KittyId|
                other != kitty_id ==> (#[trigger] final(self)@.owners.contains_key(other)
                    == old(self)@.owners.contains_key(other) && final(self)@.owners[other]
                    == old(self)@.owners[other]),
    {
        if !self.kitties.contains_key(&kitty_id) {
            return Err(Error::InvalidKittyId);
        }
        let owner = match self.kitty_owner.get(&kitty_id) {
            Some(o) => *o,
            None => return Err(Error::InvalidKittyId),
        };
        if owner != who {
            return Err(Error::NotOwner);
        }
        match currency.transfer(who, self.account, self.price) {
            Ok(()) => {},
            Err(_) => return Err(Error::InsufficientFunds),
        }
        self.kitty_owner.insert(kitty_id, recipient);
        self.events.push(Event::KittyTransfered { who, recipient, kitty_id });
        proof {
            assert(self@ == old(self)@.transferred(who, recipient, kitty_id));
        }
        Ok(())
    }

    /// `who` offers `kitty_id`, which it owns, for sale and pays the fee.
    pub fn sale<C: Currency>(&mut self, currency: &mut C, who: AccountId, kitty_id: KittyId) -> (r:
        Result<(), Error>)
        requires
            old(self)@.wf(),
        ensures
            final(self)@.wf(),
            r is Ok ==> old(currency).transferred(
                &*final(currency),
                who,
                old(self)@.account,
                old(self)@.price,
            ),
            match old(self)@.sale_check(who, kitty_id) {
                Some(e) => {
                    &&& r == Err::<(), Error>(e)
                    &&& final(self)@ == old(self)@
                    &&& *final(currency) == *old(currency)
                },
                None => if old(currency).can_transfer(who, old(self)@.account, old(self)@.price) {
                    &&& r == Ok::<(), Error>(())
                    &&& final(self)@ == old(self)@.listed(who, kitty_id)
                } else {
                    &&& r == Err::<(), Error>(Error::InsufficientFunds)
                    &&& final(self)@ == old(self)@
                    &&& *final(currency) == *old(currency)
                },
            },
    {
        if !self.kitties.contains_key(&kitty_id) {
            return Err(Error::InvalidKittyId);
        }
        match self.kitty_owner.get(&kitty_id) {
            Some(o) => {
                if *o != who {
                    return Err(Error::NotOwner);
                }
            },
            None => return Err(Error::NotOwner),
        }
        if self.kitty_on_sale.contains(&kitty_id) {
            return Err(Error::AlreadyOnSale);
        }
        match currency.transfer(who, self.account, self.price) {
            Ok(()) => {},
            Err(_) => return Err(Error::InsufficientFunds),
        }
        self.kitty_on_sale.insert(kitty_id);
        self.events.push(Event::KittyOnSale { who, kitty_id });
        proof {
            assert(self@ == old(self)@.listed(who, kitty_id));
        }
        Ok(())
    
    }
}

/// Creations from an empty store hand out 0, 1, 2, ... in that order: the
/// identifiers rise by one each time, with no gap and no repeat.
pub proof fn lemma_create_ids_consecutive(
    states: Seq<PalletView>,
    whos: Seq<AccountId>,
    kitties: Seq<Kitty>,
    ids: Seq<KittyId>,
)
    requires
        states.len() == ids.len() + 1,
        whos.len() == ids.len(),
        kitties.len() == ids.len(),
        states[0].next_kitty_id == 0,
        forall|i: int|
            0 <= i < ids.len() ==> {
                &&& (#[trigger] states[i]).create_check() is None
                &&& ids[i] == states[i].next_kitty_id
                &&& states[i + 1] == states[i].created(whos[i], kitties[i])
            },
    ensures
        forall|i: int| 0 <= i < ids.len() ==> ids[i] == i,
{
    assert forall|i: int| 0 <= i < ids.len() implies ids[i] == i by {
        lemma_next_id_counts(states, whos, kitties, ids, i);
        assert(states[i].create_check() is None);
    }
}

proof fn lemma_next_id_counts(
    states: Seq<PalletView>,
    whos: Seq<AccountId>,
    kitties: Seq<Kitty>,
    ids: Seq<KittyId>,
    k: int,
)
    requires
        states.len() == ids.len() + 1,
        whos.len() == ids.len(),
        kitties.len() == ids.len(),
        states[0].next_kitty_id == 0,
        forall|i: int|
            0 <= i < ids.len() ==> {
                &&& (#[trigger] states[i]).create_check() is None
                &&& ids[i] == states[i].next_kitty_id
                &&& states[i + 1] == states[i].created(whos[i], kitties[i])
            },
        0 <= k <= ids.len(),
    ensures
        states[k].next_kitty_id == k,
    decreases k,
{
    if k > 0 {
        lemma_next_id_counts(states, whos, kitties, ids, k - 1);
        let prev = states[k - 1];
        assert(prev.create_check() is None);
        assert(states[k] == prev.created(whos[k - 1], kitties[k - 1]));
    }
}

/// Once an entity is offered for sale, offering it again is refused as
/// already on sale.
pub proof fn lemma_sale_twice(s: PalletView, who: AccountId, id: KittyId)
    requires
        s.wf(),
        s.sale_check(who, id) is None,
    ensures
        s.listed(who, id).sale_check(who, id) == Some(Error::AlreadyOnSale),
{
}

/// Buying an entity that someone else owns and that is not on sale is
/// refused as not on sale.
pub proof fn lemma_buy_unlisted(s: PalletView, who: AccountId, id: KittyId)
    requires
        s.wf(),
        s.kitties.contains_key(id),
        s.owners[id] != who,
        !s.on_sale.contains(id),
    ensures
        s.buy_check(who, id) == Some(Error::NotOnSale),
{
}

/// An owner buying its own entity is refused, whether or not it is on sale.
pub proof fn lemma_buy_own(s: PalletView, id: KittyId)
    requires
        s.wf(),
        s.kitties.contains_key(id),
    ensures
        s.buy_check(s.owners[id], id) == Some(Error::AlreadyOwned),
{
}

} // verus!
