use kitties::currency::Balances;
use kitties::pallet::{get_account_id, Pallet};
use kitties::{AccountId, Error, Event, Kitty, KittyId};

const PRICE: u128 = 500;
const SEED: [u8; 32] = [7u8; 32];

type Snapshot = (
    KittyId,
    usize,
    Vec<(Option<Kitty>, Option<AccountId>, Option<(KittyId, KittyId)>, Option<()>)>,
    Vec<u128>,
);

fn snapshot(p: &Pallet, b: &Balances) -> Snapshot {
    let entries = (0..4u32)
        .map(|id| (p.kitties(id), p.kitty_owner(id), p.kitty_parent(id), p.kitty_on_sale(id)))
        .collect();
    let balances = [1u64, 2, 3, p.account()].iter().map(|who| b.free_balance(*who)).collect();
    (p.next_kitty_id(), p.events().len(), entries, balances)
}

/// Checks that `call` fails with `error` and leaves the store and the ledger as they were.
fn assert_noop<T: std::fmt::Debug + PartialEq>(
    p: &mut Pallet,
    b: &mut Balances,
    call: impl FnOnce(&mut Pallet, &mut Balances) -> Result<T, Error>,
    error: Error,
) {
    let before = snapshot(p, b);
    assert_eq!(call(p, b), Err(error));
    assert_eq!(snapshot(p, b), before);
}

fn setup() -> (Pallet, Balances) {
    let mut balances = Balances::new(1);
    for who in 1..=3u64 {
        balances.set_balance(who, 10_000_000);
    }
    (Pallet::new(PRICE, get_account_id(*b"py/kitty")), balances)
}

fn create_kitty(p: &mut Pallet, b: &mut Balances, account_id: AccountId) -> Result<KittyId, Error> {
    p.create_kitty(b, account_id, *b"12345678", &SEED, None)
}

fn bread(
    p: &mut Pallet,
    b: &mut Balances,
    account_id: AccountId,
    kitty_id1: KittyId,
    kitty_id2: KittyId,
) -> Result<KittyId, Error> {
    p.breed(b, account_id, kitty_id1, kitty_id2, *b"12345678", &SEED, None)
}

#[test]
fn it_works_for_create() {
    let (mut p, mut b) = setup();
    let kitty_id = 0;
    let account_id = 1;
    assert_eq!(p.next_kitty_id(), kitty_id);
    assert!(create_kitty(&mut p, &mut b, account_id).is_ok());

    assert_eq!(p.next_kitty_id(), kitty_id + 1);
    assert_eq!(p.kitties(kitty_id).is_some(), true);
    assert_eq!(p.kitty_owner(kitty_id), Some(account_id));
    assert_eq!(p.kitty_parent(kitty_id), None);

    p.set_next_kitty_id(KittyId::MAX);
    assert_noop(
        &mut p,
        &mut b,
        |p, b| create_kitty(p, b, account_id),
        Error::IdentifierSpaceExhausted,
    );
    assert_eq!(p.next_kitty_id(), KittyId::MAX);

    assert_eq!(
        p.last_event(),
        Some(Event::CreateKittyEvent { who: 1, kitty_id, kitty: p.kitties(kitty_id).unwrap() })
    );
}

#[test]
fn it_works_for_breed() {
    let (mut p, mut b) = setup();
    let kitty_id = 0;
    let account_id = 1;
    assert_noop(&mut p, &mut b, |p, b| bread(p, b, account_id, kitty_id, kitty_id), Error::SameKittyId);
    assert!(create_kitty(&mut p, &mut b, account_id).is_ok());
    assert!(create_kitty(&mut p, &mut b, account_id).is_ok());

    assert_eq!(p.kitties(0).is_some(), true);
    assert_eq!(p.kitties(1).is_some(), true);
    assert_eq!(p.kitty_owner(0), Some(account_id));
    assert_eq!(p.kitty_owner(1), Some(account_id));
    assert_eq!(p.kitty_parent(0), None);
    assert_eq!(p.kitty_parent(1), None);

    assert_noop(&mut p, &mut b, |p, b| bread(p, b, account_id, 2, kitty_id), Error::InvalidKittyId);
    assert_noop(&mut p, &mut b, |p, b| bread(p, b, account_id, kitty_id, 2), Error::InvalidKittyId);

    assert_eq!(bread(&mut p, &mut b, account_id, 0, 1), Ok(2));
    assert_eq!(
        p.last_event(),
        Some(Event::KittyBreed { who: 1, kitty_id: 2, kitty: p.kitties(2).unwrap() })
    );

    assert_eq!(p.kitties(2).is_some(), true);
    assert_eq!(p.kitty_owner(2), Some(account_id));
    assert_eq!(p.kitty_parent(2), Some((0, 1)));
}

#[test]
fn it_works_for_transfered() {
    let (mut p, mut b) = setup();
    let kitty_id = 0;
    let account_id = 1;
    let recipient = 2;

    assert_noop(&mut p, &mut b, |p, b| p.transfer(b, account_id, recipient, kitty_id), Error::InvalidKittyId);
    assert!(create_kitty(&mut p, &mut b, account_id).is_ok());
    assert_eq!(p.kitty_owner(0), Some(account_id));

    assert_noop(&mut p, &mut b, |p, b| p.transfer(b, recipient, account_id, kitty_id), Error::NotOwner);

    assert_eq!(p.transfer(&mut b, account_id, recipient, kitty_id), Ok(()));
    assert_eq!(p.last_event(), Some(Event::KittyTransfered { who: 1, recipient, kitty_id }));

    assert_eq!(p.kitties(0).is_some(), true);
    assert_eq!(p.kitty_owner(0), Some(recipient));
    assert_eq!(p.kitty_parent(0), None);
}

#[test]
fn it_works_for_buy() {
    let (mut p, mut b) = setup();
    let kitty_id = 0;
    let account_id = 1;
    let next_account_id = 2;

    assert_noop(&mut p, &mut b, |p, b| p.buy(b, account_id, kitty_id), Error::InvalidKittyId);

    assert!(create_kitty(&mut p, &mut b, account_id).is_ok());

    assert_noop(&mut p, &mut b, |p, b| p.buy(b, account_id, kitty_id), Error::AlreadyOwned);

    assert!(create_kitty(&mut p, &mut b, next_account_id).is_ok());

    assert_noop(&mut p, &mut b, |p, b| p.buy(b, account_id, 1), Error::NotOnSale);

    assert_eq!(p.sale(&mut b, account_id, kitty_id), Ok(()));
    assert_eq!(p.buy(&mut b, next_account_id, kitty_id), Ok(()));
    assert_eq!(p.kitty_owner(kitty_id), Some(next_account_id));
    assert_eq!(p.kitty_on_sale(kitty_id), None);
}

#[test]
fn it_works_for_sale() {
    let (mut p, mut b) = setup();
    let kitty_id = 0;
    let account_id = 1;
    let next_account_id = 2;

    assert_noop(&mut p, &mut b, |p, b| p.buy(b, account_id, kitty_id), Error::InvalidKittyId);
    assert!(create_kitty(&mut p, &mut b, account_id).is_ok());
    assert_noop(&mut p, &mut b, |p, b| p.sale(b, next_account_id, kitty_id), Error::NotOwner);

    assert_eq!(p.sale(&mut b, account_id, kitty_id), Ok(()));
    assert_eq!(p.kitty_on_sale(kitty_id), Some(()));

    assert_noop(&mut p, &mut b, |p, b| p.sale(b, account_id, kitty_id), Error::AlreadyOnSale);
}
