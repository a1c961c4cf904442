use carbondrive::contract::{DECIMALS, NAME, SYMBOL};
use carbondrive::{Address, Allowance, CarbonDrive, TokenError};

fn account(tag: u8) -> Address {
    Address::account([tag; 32])
}

fn constructed(owner: &Address) -> CarbonDrive {
    let mut token = CarbonDrive::new();
    assert_eq!(token.construct(*owner), Ok(()));
    token
}

#[test]
fn new_contract_is_not_constructed() {
    let token = CarbonDrive::new();
    assert_eq!(token.owner(), None);
    assert_eq!(token.decimals(), None);
    assert_eq!(token.name(), None);
    assert_eq!(token.symbol(), None);
    assert_eq!(token.total_supply(), 0);
    assert_eq!(token.balance_of(&account(1)), 0);
}

#[test]
fn construct_writes_metadata_and_owner() {
    let owner = account(9);
    let token = constructed(&owner);
    assert_eq!(token.owner(), Some(owner));
    assert_eq!(token.decimals(), Some(18));
    assert_eq!(token.name(), Some(String::from("Carbon Drive")));
    assert_eq!(token.symbol(), Some(String::from("CDRIVE")));
    assert_eq!(token.total_supply(), 0);
}

#[test]
fn metadata_constants_are_the_asset_s() {
    assert_eq!(DECIMALS, 18);
    assert_eq!(NAME, "Carbon Drive");
    assert_eq!(SYMBOL, "CDRIVE");
}

#[test]
fn construct_twice_is_refused() {
    let owner = account(9);
    let mut token = constructed(&owner);
    assert_eq!(token.construct(account(8)), Err(TokenError::AlreadyInitialized));
    assert_eq!(token.owner(), Some(owner));
    assert_eq!(token.name(), Some(String::from("Carbon Drive")));
}

#[test]
fn owner_mints() {
    let owner = account(9);
    let holder = account(1);
    let mut token = constructed(&owner);
    assert_eq!(token.mint(&owner, &holder, 1000), Ok(()));
    assert_eq!(token.balance_of(&holder), 1000);
    assert_eq!(token.balance_of(&owner), 0);
    assert_eq!(token.total_supply(), 1000);
}

#[test]
fn owner_mints_to_itself() {
    let owner = account(9);
    let mut token = constructed(&owner);
    assert_eq!(token.mint(&owner, &owner, 7), Ok(()));
    assert_eq!(token.balance_of(&owner), 7);
    assert_eq!(token.total_supply(), 7);
}

#[test]
fn mint_by_non_owner_is_unauthorized() {
    let owner = account(9);
    let a = account(1);
    let c = account(3);
    let mut token = constructed(&owner);
    assert_eq!(token.mint(&owner, &a, 1000), Ok(()));
    assert_eq!(token.mint(&c, &a, 50), Err(TokenError::Unauthorized));
    assert_eq!(token.total_supply(), 1000);
    assert_eq!(token.balance_of(&a), 1000);
    assert_eq!(token.balance_of(&c), 0);
}

#[test]
fn mint_by_non_owner_is_unauthorized_whatever_the_amount() {
    let owner = account(9);
    let c = account(3);
    let mut token = constructed(&owner);
    for amount in [i128::MIN, -1, 0, 1, 50, i128::MAX] {
        assert_eq!(token.mint(&c, &c, amount), Err(TokenError::Unauthorized));
        assert_eq!(token.total_supply(), 0);
        assert_eq!(token.balance_of(&c), 0);
    }
}

#[test]
fn mint_before_construction_is_unauthorized() {
    let mut token = CarbonDrive::new();
    let a = account(1);
    assert_eq!(token.mint(&a, &a, 5), Err(TokenError::Unauthorized));
    assert_eq!(token.total_supply(), 0);
}

#[test]
fn contract_and_account_with_one_key_are_different_callers() {
    let owner = Address::account([9; 32]);
    let twin = Address::contract([9; 32]);
    let mut token = constructed(&owner);
    assert_eq!(token.mint(&twin, &twin, 5), Err(TokenError::Unauthorized));
    assert_eq!(token.mint(&owner, &twin, 5), Ok(()));
    assert_eq!(token.balance_of(&twin), 5);
    assert_eq!(token.balance_of(&owner), 0);
}

#[test]
fn owner_mint_of_nothing_is_invalid() {
    let owner = account(9);
    let mut token = constructed(&owner);
    assert_eq!(token.mint(&owner, &owner, 0), Err(TokenError::InvalidAmount));
    assert_eq!(token.mint(&owner, &owner, -5), Err(TokenError::InvalidAmount));
    assert_eq!(token.total_supply(), 0);
}

#[test]
fn owner_mint_beyond_range_overflows() {
    let owner = account(9);
    let a = account(1);
    let b = account(2);
    let mut token = constructed(&owner);
    assert_eq!(token.mint(&owner, &a, i128::MAX), Ok(()));
    assert_eq!(token.mint(&owner, &a, 1), Err(TokenError::Overflow));
    assert_eq!(token.mint(&owner, &b, 1), Err(TokenError::Overflow));
    assert_eq!(token.total_supply(), i128::MAX);
    assert_eq!(token.balance_of(&a), i128::MAX);
    assert_eq!(token.balance_of(&b), 0);
}

#[test]
fn mint_transfer_burn_scenario() {
    let o = account(9);
    let a = account(1);
    let b = account(2);
    let mut token = constructed(&o);
    assert_eq!(token.mint(&o, &a, 1000), Ok(()));
    assert_eq!(token.transfer(&a, &b, 400), Ok(()));
    assert_eq!(token.burn(&a, 100), Ok(()));
    assert_eq!(token.balance_of(&a), 500);
    assert_eq!(token.balance_of(&b), 400);
    assert_eq!(token.total_supply(), 900);
}

#[test]
fn non_owner_mint_scenario() {
    let o = account(9);
    let a = account(1);
    let c = account(3);
    let mut token = constructed(&o);
    assert_eq!(token.mint(&o, &a, 1000), Ok(()));
    let before = token.total_supply();
    assert_eq!(token.mint(&c, &a, 50), Err(TokenError::Unauthorized));
    assert_eq!(token.total_supply(), before);
}

#[test]
fn allowance_scenario() {
    let o = account(9);
    let a = account(1);
    let b = account(2);
    let d = account(4);
    let now = 100;
    let exp = 200;
    let mut token = constructed(&o);
    assert_eq!(token.mint(&o, &a, 1000), Ok(()));
    assert_eq!(token.approve(&a, &b, 200, exp, now), Ok(()));
    assert_eq!(token.transfer_from(&b, &a, &d, 250, now), Err(TokenError::InsufficientAllowance));
    assert_eq!(token.allowance(&a, &b), Allowance { amount: 200, expiration: exp });
    assert_eq!(token.balance_of(&a), 1000);
    assert_eq!(token.balance_of(&d), 0);
    assert_eq!(token.transfer_from(&b, &a, &d, 150, now), Ok(()));
    assert_eq!(token.allowance(&a, &b), Allowance { amount: 50, expiration: exp });
    assert_eq!(token.balance_of(&a), 850);
    assert_eq!(token.balance_of(&d), 150);
    assert_eq!(token.balance_of(&b), 0);
    assert_eq!(token.total_supply(), 1000);
}

#[test]
fn holders_act_without_the_owner() {
    let o = account(9);
    let a = account(1);
    let b = account(2);
    let mut token = constructed(&o);
    assert_eq!(token.mint(&o, &a, 10), Ok(()));
    assert_eq!(token.transfer(&a, &b, 4), Ok(()));
    assert_eq!(token.burn(&b, 1), Ok(()));
    assert_eq!(token.approve(&b, &a, 2, 9, 9), Ok(()));
    assert_eq!(token.transfer_from(&a, &b, &a, 2, 9), Ok(()));
    assert_eq!(token.balance_of(&a), 8);
    assert_eq!(token.balance_of(&b), 1);
    assert_eq!(token.total_supply(), 9);
    assert_eq!(token.owner(), Some(o));
    assert_eq!(token.decimals(), Some(18));
}

#[test]
fn refused_calls_change_nothing_in_the_contract() {
    let o = account(9);
    let a = account(1);
    let b = account(2);
    let mut token = constructed(&o);
    assert_eq!(token.mint(&o, &a, 10), Ok(()));
    assert_eq!(token.approve(&a, &b, 5, 50, 10), Ok(()));
    assert_eq!(token.transfer(&a, &b, 11), Err(TokenError::InsufficientBalance));
    assert_eq!(token.transfer(&a, &b, -1), Err(TokenError::InvalidAmount));
    assert_eq!(token.burn(&a, 11), Err(TokenError::InsufficientBalance));
    assert_eq!(token.burn(&a, 0), Err(TokenError::InvalidAmount));
    assert_eq!(token.approve(&a, &b, 7, 9, 10), Err(TokenError::InvalidExpiration));
    assert_eq!(token.approve(&a, &b, -7, 50, 10), Err(TokenError::InvalidAmount));
    assert_eq!(token.transfer_from(&b, &a, &b, 6, 10), Err(TokenError::InsufficientAllowance));
    assert_eq!(token.balance_of(&a), 10);
    assert_eq!(token.balance_of(&b), 0);
    assert_eq!(token.total_supply(), 10);
    assert_eq!(token.allowance(&a, &b), Allowance { amount: 5, expiration: 50 });
}
