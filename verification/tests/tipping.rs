//! The two tipping paths: amount validation, account binding, exact
//! accumulation of the native counter, overflow, and the asymmetry that
//! only native tips are accounted.

use voix::errors::VoixError;
use voix::instructions::initialize_user::InitializeUser;
use voix::instructions::tip_user_sol::TipUserSol;
use voix::instructions::tip_user_spl::TipUserSpl;
use voix::pda::{derive_associated_token_address, derive_user_address};
use voix::pubkey::Pubkey;
use voix::state::user_account::UserAccount;

fn pk(byte: u8) -> Pubkey {
    Pubkey::new_from_array([byte; 32])
}

fn fresh_user(user: Pubkey) -> (Pubkey, UserAccount) {
    let (addr, _bump) = derive_user_address(&user).unwrap();
    let accounts = InitializeUser { user, user_account_address: addr };
    let (account, _event) = voix::initialize_user(&accounts, 0).unwrap();
    (addr, account)
}

fn sol_tip_accounts(tipper: Pubkey, receiver: Pubkey) -> TipUserSol {
    let (addr, account) = fresh_user(receiver);
    TipUserSol {
        tipper,
        receiver,
        receiver_account_address: addr,
        receiver_account: account,
    }
}

#[test]
fn sol_tip_zero_amount_always_fails() {
    let mut accounts = sol_tip_accounts(pk(1), pk(2));
    let r = voix::tip_user_sol(&mut accounts, 0, 30);
    assert!(matches!(r, Err(VoixError::InvalidTipAmount)));
    assert_eq!(accounts.receiver_account.total_sol_tipped, 0);
}

#[test]
fn sol_tips_accumulate_exactly() {
    let tipper = pk(1);
    let receiver = pk(2);
    let mut accounts = sol_tip_accounts(tipper, receiver);

    let (transfer, event) = voix::tip_user_sol(&mut accounts, 5, 31).unwrap();
    assert_eq!(transfer.from.bytes, tipper.bytes);
    assert_eq!(transfer.to.bytes, receiver.bytes);
    assert_eq!(transfer.amount, 5);
    assert_eq!(event.tipper.bytes, tipper.bytes);
    assert_eq!(event.receiver.bytes, receiver.bytes);
    assert_eq!(event.amount, 5);
    assert!(event.mint.is_none());
    assert_eq!(event.timestamp, 31);

    voix::tip_user_sol(&mut accounts, 7, 32).unwrap();
    voix::tip_user_sol(&mut accounts, 1_000_000, 33).unwrap();
    assert_eq!(accounts.receiver_account.total_sol_tipped, 1_000_012);
}

#[test]
fn sol_tip_overflow_fails_and_leaves_counter() {
    let mut accounts = sol_tip_accounts(pk(1), pk(2));
    accounts.receiver_account.total_sol_tipped = u64::MAX - 3;
    let r = voix::tip_user_sol(&mut accounts, 4, 0);
    assert!(matches!(r, Err(VoixError::MathOverflow)));
    assert_eq!(accounts.receiver_account.total_sol_tipped, u64::MAX - 3);
    // The largest amount that still fits lands exactly at the limit.
    voix::tip_user_sol(&mut accounts, 3, 0).unwrap();
    assert_eq!(accounts.receiver_account.total_sol_tipped, u64::MAX);
}

#[test]
fn sol_tip_rejects_unbound_receiver_record() {
    let receiver = pk(2);
    let mut accounts = sol_tip_accounts(pk(1), receiver);
    // A record owned by someone else at that owner's proper address.
    let (other_addr, other_account) = fresh_user(pk(9));
    accounts.receiver_account_address = other_addr;
    accounts.receiver_account = other_account;
    let r = voix::tip_user_sol(&mut accounts, 5, 0);
    assert!(matches!(r, Err(VoixError::Unauthorized)));

    // And a record whose owner field does not name the receiver.
    let mut accounts = sol_tip_accounts(pk(1), receiver);
    accounts.receiver_account.user_pubkey = pk(9);
    let r = voix::tip_user_sol(&mut accounts, 5, 0);
    assert!(matches!(r, Err(VoixError::Unauthorized)));
    assert_eq!(accounts.receiver_account.total_sol_tipped, 0);
}

fn spl_tip_accounts(tipper: Pubkey, receiver: Pubkey, mint: Pubkey) -> TipUserSpl {
    let (addr, account) = fresh_user(receiver);
    let (tipper_holding, _b1) = derive_associated_token_address(&tipper, &mint).unwrap();
    let (receiver_holding, _b2) = derive_associated_token_address(&receiver, &mint).unwrap();
    TipUserSpl {
        tipper,
        receiver,
        receiver_account_address: addr,
        receiver_account: account,
        mint,
        tipper_token_account: tipper_holding,
        receiver_token_account: receiver_holding,
    }
}

#[test]
fn spl_tip_zero_amount_always_fails() {
    let accounts = spl_tip_accounts(pk(1), pk(2), pk(5));
    let r = voix::tip_user_spl(&accounts, 0, 0);
    assert!(matches!(r, Err(VoixError::InvalidTipAmount)));
}

#[test]
fn spl_tip_moves_between_canonical_holdings() {
    let tipper = pk(1);
    let receiver = pk(2);
    let mint = pk(5);
    let accounts = spl_tip_accounts(tipper, receiver, mint);
    let (transfer, event) = voix::tip_user_spl(&accounts, 250, 40).unwrap();
    assert_eq!(transfer.from.bytes, accounts.tipper_token_account.bytes);
    assert_eq!(transfer.to.bytes, accounts.receiver_token_account.bytes);
    assert_eq!(transfer.authority.bytes, tipper.bytes);
    assert_eq!(transfer.amount, 250);
    assert_eq!(event.mint.unwrap().bytes, mint.bytes);
    assert_eq!(event.timestamp, 40);
    // The token path never touches the native counter.
    assert_eq!(accounts.receiver_account.total_sol_tipped, 0);
}

#[test]
fn spl_tip_rejects_non_canonical_holding() {
    let mut accounts = spl_tip_accounts(pk(1), pk(2), pk(5));
    accounts.tipper_token_account = pk(8);
    let r = voix::tip_user_spl(&accounts, 250, 0);
    assert!(matches!(r, Err(VoixError::Unauthorized)));

    let mut accounts = spl_tip_accounts(pk(1), pk(2), pk(5));
    accounts.receiver_token_account = pk(8);
    let r = voix::tip_user_spl(&accounts, 250, 0);
    assert!(matches!(r, Err(VoixError::Unauthorized)));
}
