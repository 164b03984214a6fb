use time_locked_fund::escrow::{CreateFund, ErrorCode, Escrow, Redeem};
use time_locked_fund::ids::AccountId;
use time_locked_fund::pda::{derive_fund_addr, derive_vault_authority};

fn id(n: u8) -> AccountId {
    AccountId { bytes: [n; 32] }
}

const PROGRAM: u8 = 9;
const MINT: u8 = 1;
const DEPOSITOR: u8 = 2;
const BENEFICIARY: u8 = 3;
const DEPOSITOR_ACCOUNT: u8 = 10;
const DESTINATION: u8 = 20;

fn ledger_with_depositor(balance: u64) -> Escrow {
    let mut e = Escrow::new(id(PROGRAM));
    e.open_account(id(DEPOSITOR_ACCOUNT), id(MINT), id(DEPOSITOR), balance)
        .unwrap();
    e
}

fn create_args() -> CreateFund {
    CreateFund {
        depositor: id(DEPOSITOR),
        asset_id: id(MINT),
        depositor_account_id: id(DEPOSITOR_ACCOUNT),
        beneficiary_id: id(BENEFICIARY),
    }
}

fn redeem_args(fund_id: AccountId) -> Redeem {
    Redeem {
        fund_id,
        caller: id(BENEFICIARY),
        destination_id: id(DESTINATION),
    }
}

#[test]
fn lifecycle_create_wait_redeem_replay() {
    let mut e = ledger_with_depositor(5000);
    let fund_id = create_std_fund(&mut e, 1000, 77);

    // creation locked exactly 1000: custody holds it, the depositor paid it
    let fund = e.fund_record(&fund_id).unwrap();
    assert_eq!(fund.amount, 1000);
    assert_eq!(fund.unlock_time, 77);
    assert_eq!(fund.beneficiary_id, id(BENEFICIARY));
    assert_eq!(fund.asset_id, id(MINT));
    assert_eq!(e.balance_of(&fund.custody_account_id), Some(1000));
    assert_eq!(e.balance_of(&id(DEPOSITOR_ACCOUNT)), Some(4000));

    // before the unlock time: refused, balances untouched, however often
    for now in [0, 50, 76] {
        assert_eq!(
            e.redeem(redeem_args(fund_id), now),
            Err(ErrorCode::InsufficientRedeemTime)
        );
        assert_eq!(e.balance_of(&fund.custody_account_id), Some(1000));
        assert_eq!(e.balance_of(&id(DESTINATION)), None);
    }

    // at the unlock time: the whole amount moves to the destination
    assert_eq!(e.redeem(redeem_args(fund_id), 77), Ok(()));
    assert_eq!(e.balance_of(&fund.custody_account_id), Some(0));
    assert_eq!(e.balance_of(&id(DESTINATION)), Some(1000));

    // a replay finds the custody account empty and moves nothing
    assert_eq!(
        e.redeem(redeem_args(fund_id), 200),
        Err(ErrorCode::InsufficientFunds)
    );
    assert_eq!(e.balance_of(&fund.custody_account_id), Some(0));
    assert_eq!(e.balance_of(&id(DESTINATION)), Some(1000));
}

#[test]
fn seed_reuse_is_refused() {
    let mut e = ledger_with_depositor(5000);
    let first = e
        .create_fund(create_args(), b"s1".to_vec(), 1000, 77)
        .unwrap();
    let fund = e.fund_record(&first).unwrap();

    // the identical (depositor, seed) pair derives the same address
    assert_eq!(
        e.create_fund(create_args(), b"s1".to_vec(), 500, 99),
        Err(ErrorCode::AlreadyExists)
    );
    // nothing changed: one fund, one custody account, balances as before
    assert_eq!(e.balance_of(&id(DEPOSITOR_ACCOUNT)), Some(4000));
    assert_eq!(e.balance_of(&fund.custody_account_id), Some(1000));
    assert_eq!(e.fund_record(&first).unwrap().amount, 1000);

    // a different seed coexists
    let second = e
        .create_fund(create_args(), b"s2".to_vec(), 700, 77)
        .unwrap();
    assert_ne!(second.bytes, first.bytes);
    assert_eq!(e.balance_of(&id(DEPOSITOR_ACCOUNT)), Some(3300));
}

#[test]
fn wrong_caller_is_refused_whatever_the_time() {
    let mut e = ledger_with_depositor(5000);
    let fund_id = create_std_fund(&mut e, 1000, 77);
    for now in [0, 77, 1000] {
        let mut args = redeem_args(fund_id);
        args.caller = id(DEPOSITOR);
        assert_eq!(e.redeem(args, now), Err(ErrorCode::Unauthorized));
    }
    assert_eq!(e.balance_of(&id(DEPOSITOR_ACCOUNT)), Some(4000));
}

#[test]
fn depositor_without_cover_is_refused() {
    let mut e = ledger_with_depositor(999);
    assert_eq!(
        e.create_fund(create_args(), b"s1".to_vec(), 1000, 77),
        Err(ErrorCode::InsufficientFunds)
    );
    assert_eq!(e.balance_of(&id(DEPOSITOR_ACCOUNT)), Some(999));
}

#[test]
fn zero_amount_is_refused() {
    let mut e = ledger_with_depositor(5000);
    assert_eq!(
        e.create_fund(create_args(), b"s1".to_vec(), 0, 77),
        Err(ErrorCode::InsufficientFunds)
    );
}

#[test]
fn foreign_depositor_account_is_refused() {
    let mut e = Escrow::new(id(PROGRAM));
    // an account of the right asset type but controlled by someone else
    e.open_account(id(DEPOSITOR_ACCOUNT), id(MINT), id(4), 5000)
        .unwrap();
    assert_eq!(
        e.create_fund(create_args(), b"s1".to_vec(), 1000, 77),
        Err(ErrorCode::Unauthorized)
    );
}

#[test]
fn wrong_asset_account_is_refused() {
    let mut e = Escrow::new(id(PROGRAM));
    // an account of the depositor's but of another asset type
    e.open_account(id(DEPOSITOR_ACCOUNT), id(5), id(DEPOSITOR), 5000)
        .unwrap();
    assert_eq!(
        e.create_fund(create_args(), b"s1".to_vec(), 1000, 77),
        Err(ErrorCode::Unauthorized)
    );
}

#[test]
fn missing_depositor_account_is_refused() {
    let mut e = Escrow::new(id(PROGRAM));
    assert_eq!(
        e.create_fund(create_args(), b"s1".to_vec(), 1000, 77),
        Err(ErrorCode::Unauthorized)
    );
}

#[test]
fn missing_fund_is_refused() {
    let mut e = Escrow::new(id(PROGRAM));
    assert_eq!(
        e.redeem(redeem_args(id(42)), 1000),
        Err(ErrorCode::Unauthorized)
    );
}

#[test]
fn misbound_destination_is_refused() {
    let mut e = ledger_with_depositor(5000);
    let fund_id = create_std_fund(&mut e, 1000, 77);
    // a destination of another asset type
    e.open_account(id(DESTINATION), id(5), id(BENEFICIARY), 0)
        .unwrap();
    assert_eq!(
        e.redeem(redeem_args(fund_id), 100),
        Err(ErrorCode::Unauthorized)
    );
    // a destination controlled by someone else
    e.open_account(id(21), id(MINT), id(4), 0).unwrap();
    let mut args = redeem_args(fund_id);
    args.destination_id = id(21);
    assert_eq!(e.redeem(args, 100), Err(ErrorCode::Unauthorized));
    assert_eq!(e.balance_of(&fund_id_custody(&e, fund_id)), Some(1000));
}

#[test]
fn existing_destination_accumulates() {
    let mut e = ledger_with_depositor(5000);
    let fund_id = create_std_fund(&mut e, 1000, 77);
    e.open_account(id(DESTINATION), id(MINT), id(BENEFICIARY), 25)
        .unwrap();
    assert_eq!(e.redeem(redeem_args(fund_id), 77), Ok(()));
    assert_eq!(e.balance_of(&id(DESTINATION)), Some(1025));
}

#[test]
fn overfull_destination_is_refused() {
    let mut e = ledger_with_depositor(5000);
    let fund_id = create_std_fund(&mut e, 1000, 77);
    e.open_account(id(DESTINATION), id(MINT), id(BENEFICIARY), u64::MAX)
        .unwrap();
    assert_eq!(
        e.redeem(redeem_args(fund_id), 100),
        Err(ErrorCode::Overflow)
    );
    assert_eq!(e.balance_of(&id(DESTINATION)), Some(u64::MAX));
    assert_eq!(e.balance_of(&fund_id_custody(&e, fund_id)), Some(1000));
}

#[test]
fn past_unlock_time_redeems_at_once() {
    let mut e = ledger_with_depositor(5000);
    // an unlock time already in the past degenerates to immediate redemption
    let fund_id = create_std_fund(&mut e, 1000, 0);
    assert_eq!(e.redeem(redeem_args(fund_id), 0), Ok(()));
    assert_eq!(e.balance_of(&id(DESTINATION)), Some(1000));
}

#[test]
fn oversize_seed_fails_derivation() {
    let mut e = ledger_with_depositor(5000);
    // the derivation service accepts seeds of at most 32 bytes
    assert_eq!(
        e.create_fund(create_args(), vec![7u8; 33], 1000, 77),
        Err(ErrorCode::DerivationFailure)
    );
}

#[test]
fn duplicate_account_is_refused() {
    let mut e = ledger_with_depositor(5000);
    assert_eq!(
        e.open_account(id(DEPOSITOR_ACCOUNT), id(MINT), id(DEPOSITOR), 1),
        Err(ErrorCode::AlreadyExists)
    );
}

#[test]
fn derived_addresses_are_reproducible_and_fresh() {
    let mut e = ledger_with_depositor(5000);
    let fund_id = create_std_fund(&mut e, 1000, 77);

    // any verifier re-derives the fund's address from public inputs alone
    let (rederived, _bump) =
        derive_fund_addr(&id(PROGRAM), &id(DEPOSITOR), b"s1".to_vec()).unwrap();
    assert_eq!(rederived.bytes, fund_id.bytes);

    // the derivation is no echo of its inputs
    assert_ne!(fund_id.bytes, id(PROGRAM).bytes);
    assert_ne!(fund_id.bytes, id(DEPOSITOR).bytes);
    let custody = e.fund_record(&fund_id).unwrap().custody_account_id;
    assert_ne!(custody.bytes, fund_id.bytes);

    // the vault authority comes from the fixed tag alone
    let (va1, b1) = derive_vault_authority(&id(PROGRAM)).unwrap();
    let (va2, b2) = derive_vault_authority(&id(PROGRAM)).unwrap();
    assert_eq!(va1.bytes, va2.bytes);
    assert_eq!(b1, b2);
    assert_ne!(va1.bytes, id(PROGRAM).bytes);
}

fn create_std_fund(e: &mut Escrow, amount: u64, unlock_time: u64) -> AccountId {
    e.create_fund(create_args(), b"s1".to_vec(), amount, unlock_time)
        .unwrap()
}

fn fund_id_custody(e: &Escrow, fund_id: AccountId) -> AccountId {
    e.fund_record(&fund_id).unwrap().custody_account_id
}

#[test]
fn same_seed_different_depositors_coexist() {
    let mut e = ledger_with_depositor(5000);
    e.open_account(id(11), id(MINT), id(4), 5000).unwrap();
    let first = create_std_fund(&mut e, 1000, 77);
    let mut other = create_args();
    other.depositor = id(4);
    other.depositor_account_id = id(11);
    let second = e.create_fund(other, b"s1".to_vec(), 1000, 77).unwrap();
    assert_ne!(second.bytes, first.bytes);
    assert_eq!(e.balance_of(&id(11)), Some(4000));
}

#[test]
fn tampered_custody_authority_is_refused() {
    let mut e = ledger_with_depositor(5000);
    let fund_id = create_std_fund(&mut e, 1000, 77);
    let custody = fund_id_custody(&e, fund_id);
    // rebind the custody account's authority behind the escrow's back: the
    // re-derivation of the vault authority catches the mismatch
    for entry in e.accounts.iter_mut() {
        if entry.0.bytes == custody.bytes {
            entry.1.authority = id(BENEFICIARY);
        }
    }
    assert_eq!(
        e.redeem(redeem_args(fund_id), 100),
        Err(ErrorCode::Unauthorized)
    );
    assert_eq!(e.balance_of(&custody), Some(1000));
}
