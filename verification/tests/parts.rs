use carbondrive::amounts;
use carbondrive::{Address, AddressKind, Allowance, MetadataStore, OwnershipGate, TokenError};

#[test]
fn addresses_compare_by_kind_and_key() {
    let a = Address::account([1; 32]);
    let mut key = [1u8; 32];
    key[31] = 2;
    let b = Address::account(key);
    let c = Address::contract([1; 32]);
    assert!(a.same(&a));
    assert!(a.same(&Address::account([1; 32])));
    assert!(!a.same(&b));
    assert!(!b.same(&a));
    assert!(!a.same(&c));
    assert!(c.same(&Address::contract([1; 32])));
    assert_eq!(a.kind, AddressKind::Account);
    assert_eq!(c.kind, AddressKind::Contract);
    assert_eq!(b.key[31], 2);
}

#[test]
fn addresses_differing_in_one_byte_differ() {
    let a = Address::account([0; 32]);
    for i in 0..32 {
        let mut key = [0u8; 32];
        key[i] = 1;
        assert!(!a.same(&Address::account(key)));
    }
}

#[test]
fn metadata_store_takes_one_record() {
    let mut store = MetadataStore::new();
    assert!(!store.is_initialized());
    assert_eq!(store.decimals(), None);
    assert_eq!(store.name(), None);
    assert_eq!(store.symbol(), None);
    assert_eq!(store.initialize(18, String::from("Carbon Drive"), String::from("CDRIVE")), Ok(()));
    assert!(store.is_initialized());
    assert_eq!(store.decimals(), Some(18));
    assert_eq!(store.name(), Some(String::from("Carbon Drive")));
    assert_eq!(store.symbol(), Some(String::from("CDRIVE")));
}

#[test]
fn metadata_store_refuses_a_second_record() {
    let mut store = MetadataStore::new();
    assert_eq!(store.initialize(7, String::from("One"), String::from("ONE")), Ok(()));
    assert_eq!(
        store.initialize(8, String::from("Two"), String::from("TWO")),
        Err(TokenError::AlreadyInitialized)
    );
    assert_eq!(store.decimals(), Some(7));
    assert_eq!(store.name(), Some(String::from("One")));
    assert_eq!(store.symbol(), Some(String::from("ONE")));
}

#[test]
fn gate_takes_one_owner() {
    let o = Address::account([9; 32]);
    let p = Address::account([8; 32]);
    let mut gate = OwnershipGate::new();
    assert_eq!(gate.owner(), None);
    assert_eq!(gate.set_owner(o), Ok(()));
    assert_eq!(gate.owner(), Some(o));
    assert_eq!(gate.set_owner(p), Err(TokenError::OwnerAlreadySet));
    assert_eq!(gate.set_owner(o), Err(TokenError::OwnerAlreadySet));
    assert_eq!(gate.owner(), Some(o));
}

#[test]
fn gate_admits_only_the_owner() {
    let o = Address::account([9; 32]);
    let p = Address::account([8; 32]);
    let mut gate = OwnershipGate::new();
    assert_eq!(gate.require_owner(&o), Err(TokenError::Unauthorized));
    assert_eq!(gate.set_owner(o), Ok(()));
    assert_eq!(gate.require_owner(&o), Ok(()));
    assert_eq!(gate.require_owner(&p), Err(TokenError::Unauthorized));
    assert_eq!(gate.require_owner(&Address::contract([9; 32])), Err(TokenError::Unauthorized));
}

#[test]
fn allowance_is_live_until_its_expiration() {
    let a = Allowance { amount: 70, expiration: 10 };
    assert_eq!(a.live_amount(0), 70);
    assert_eq!(a.live_amount(10), 70);
    assert_eq!(a.live_amount(11), 0);
    assert_eq!(Allowance::none(), Allowance { amount: 0, expiration: 0 });
    assert_eq!(Allowance::none().live_amount(0), 0);
}

#[test]
fn allowance_grant_checks_amount_then_expiration() {
    assert_eq!(Allowance::grant(5, 10, 10), Ok(Allowance { amount: 5, expiration: 10 }));
    assert_eq!(Allowance::grant(0, 11, 10), Ok(Allowance { amount: 0, expiration: 11 }));
    assert_eq!(Allowance::grant(5, 9, 10), Err(TokenError::InvalidExpiration));
    assert_eq!(Allowance::grant(0, 9, 10), Err(TokenError::InvalidExpiration));
    assert_eq!(Allowance::grant(-5, 10, 10), Err(TokenError::InvalidAmount));
    assert_eq!(Allowance::grant(-5, 9, 10), Err(TokenError::InvalidAmount));
}

#[test]
fn allowance_spend_deducts() {
    let a = Allowance { amount: 200, expiration: 10 };
    assert_eq!(a.spend(150, 10), Ok(Allowance { amount: 50, expiration: 10 }));
    assert_eq!(a.spend(200, 0), Ok(Allowance { amount: 0, expiration: 10 }));
    assert_eq!(a.spend(0, 11), Ok(a));
    assert_eq!(a.spend(250, 10), Err(TokenError::InsufficientAllowance));
    assert_eq!(a.spend(1, 11), Err(TokenError::InsufficientAllowance));
    assert_eq!(a.spend(-1, 10), Err(TokenError::InvalidAmount));
    assert_eq!(a.spend(-1, 11), Err(TokenError::InvalidAmount));
}

#[test]
fn mint_amounts() {
    assert_eq!(amounts::mint(10, 100, 5), Ok((15, 105)));
    assert_eq!(amounts::mint(0, 0, i128::MAX), Ok((i128::MAX, i128::MAX)));
    assert_eq!(amounts::mint(10, 100, 0), Err(TokenError::InvalidAmount));
    assert_eq!(amounts::mint(10, 100, -5), Err(TokenError::InvalidAmount));
    assert_eq!(amounts::mint(0, i128::MAX, 1), Err(TokenError::Overflow));
    assert_eq!(amounts::mint(i128::MAX, 0, 1), Err(TokenError::Overflow));
    assert_eq!(amounts::mint(1, i128::MAX - 1, 1), Ok((2, i128::MAX)));
}

#[test]
fn burn_amounts() {
    assert_eq!(amounts::burn(10, 100, 4), Ok((6, 96)));
    assert_eq!(amounts::burn(10, 10, 10), Ok((0, 0)));
    assert_eq!(amounts::burn(10, 100, 11), Err(TokenError::InsufficientBalance));
    assert_eq!(amounts::burn(10, 100, 0), Err(TokenError::InvalidAmount));
    assert_eq!(amounts::burn(10, 100, -4), Err(TokenError::InvalidAmount));
}

#[test]
fn transfer_amounts() {
    assert_eq!(amounts::transfer(10, 100, 4), Ok((6, 104)));
    assert_eq!(amounts::transfer(10, 100, 0), Ok((10, 100)));
    assert_eq!(amounts::transfer(10, 100, 10), Ok((0, 110)));
    assert_eq!(amounts::transfer(10, 100, 11), Err(TokenError::InsufficientBalance));
    assert_eq!(amounts::transfer(10, 100, -1), Err(TokenError::InvalidAmount));
    assert_eq!(amounts::transfer(10, i128::MAX, 1), Err(TokenError::Overflow));
    assert_eq!(amounts::transfer(10, i128::MAX - 10, 10), Ok((0, i128::MAX)));
}

#[test]
fn debit_amounts() {
    assert_eq!(amounts::debit(10, 4), Ok(6));
    assert_eq!(amounts::debit(10, 10), Ok(0));
    assert_eq!(amounts::debit(10, 0), Ok(10));
    assert_eq!(amounts::debit(10, 11), Err(TokenError::InsufficientBalance));
    assert_eq!(amounts::debit(0, 1), Err(TokenError::InsufficientBalance));
    assert_eq!(amounts::debit(10, -1), Err(TokenError::InvalidAmount));
}
