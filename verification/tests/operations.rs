use on_chain_vault::error::VaultError;
use on_chain_vault::events::{DepositEvent, ToggleLockEvent, WithdrawEvent};
use on_chain_vault::identity::Identity;
use on_chain_vault::instructions::deposit::{Deposit, DepositOrder, _deposit};
use on_chain_vault::instructions::toggle_lock::{ToggleLock, _toggle_lock};
use on_chain_vault::instructions::withdraw::{Withdraw, _withdraw};
use on_chain_vault::ledger::{transfer, TransferError};
use on_chain_vault::state::{Vault, VaultAccount, Wallet};
use on_chain_vault::system_program::{AccountRef, TransferInstruction};

fn id(tag: u8) -> Identity {
    Identity { bytes: [tag; 32] }
}

fn authority() -> Identity {
    id(1)
}

fn stranger() -> Identity {
    id(2)
}

fn vault_key() -> Identity {
    id(9)
}

fn vault(lamports: u64, locked: bool) -> VaultAccount {
    VaultAccount {
        key: vault_key(),
        lamports,
        state: Vault { vault_authority: authority(), locked },
    }
}

fn wallet(key: Identity, lamports: u64) -> Wallet {
    Wallet { key, lamports }
}

fn announced(r: Result<DepositOrder, VaultError>) -> Result<DepositEvent, VaultError> {
    r.map(|order| order.event)
}

fn system_transfer_of(from: Identity, to: Identity, data: Vec<u8>) -> TransferInstruction {
    TransferInstruction {
        program_id: Identity { bytes: [0; 32] },
        accounts: vec![
            AccountRef { key: from, is_signer: true, is_writable: true },
            AccountRef { key: to, is_signer: false, is_writable: true },
        ],
        data,
    }
}

#[test]
fn identities_compare_by_all_bytes() {
    let a = id(7);
    let mut b = id(7);
    assert!(a.same(&b));
    b.bytes[31] = 8;
    assert!(!a.same(&b));
    assert!(!b.same(&a));
    let mut c = id(7);
    c.bytes[0] = 0;
    assert!(!a.same(&c));
    assert!(a.same(&a));
}

#[test]
fn transfer_moves_both_sides() {
    let mut from: u64 = 70;
    let mut to: u64 = 5;
    assert_eq!(transfer(&mut from, &mut to, 30), Ok(()));
    assert_eq!((from, to), (40, 35));
}

#[test]
fn transfer_of_everything_empties_the_payer() {
    let mut from: u64 = 70;
    let mut to: u64 = 0;
    assert_eq!(transfer(&mut from, &mut to, 70), Ok(()));
    assert_eq!((from, to), (0, 70));
}

#[test]
fn transfer_without_funds_changes_nothing() {
    let mut from: u64 = 29;
    let mut to: u64 = 5;
    assert_eq!(transfer(&mut from, &mut to, 30), Err(TransferError::InsufficientFunds));
    assert_eq!((from, to), (29, 5));
}

#[test]
fn transfer_into_full_balance_changes_nothing() {
    let mut from: u64 = 10;
    let mut to: u64 = u64::MAX - 4;
    assert_eq!(transfer(&mut from, &mut to, 5), Err(TransferError::BalanceOverflow));
    assert_eq!((from, to), (10, u64::MAX - 4));
    assert_eq!(transfer(&mut from, &mut to, 4), Ok(()));
    assert_eq!((from, to), (6, u64::MAX));
}

#[test]
fn transfer_reports_missing_funds_before_overflow() {
    let mut from: u64 = 1;
    let mut to: u64 = u64::MAX;
    assert_eq!(transfer(&mut from, &mut to, 2), Err(TransferError::InsufficientFunds));
    assert_eq!((from, to), (1, u64::MAX));
}

#[test]
fn deposit_moves_exact_amount_and_announces_it() {
    let mut ctx = Deposit { user: wallet(stranger(), 500), vault: vault(1000, false) };
    let r = announced(_deposit(&mut ctx, 120));
    assert_eq!(r, Ok(DepositEvent { vault: vault_key(), user: stranger(), amount: 120 }));
    assert_eq!(ctx.vault.lamports, 1120);
    assert_eq!(ctx.user.lamports, 380);
    assert_eq!(ctx.vault.state, Vault { vault_authority: authority(), locked: false });
    assert_eq!(ctx.user.key, stranger());
    assert_eq!(ctx.vault.key, vault_key());
}

#[test]
fn deposit_orders_a_system_transfer_from_user_to_vault() {
    let mut ctx = Deposit { user: wallet(stranger(), 500), vault: vault(1000, false) };
    let order = _deposit(&mut ctx, 120).unwrap();
    assert_eq!(
        order.instruction,
        system_transfer_of(stranger(), vault_key(), vec![2, 0, 0, 0, 120, 0, 0, 0, 0, 0, 0, 0])
    );
    assert_eq!(order.event, DepositEvent { vault: vault_key(), user: stranger(), amount: 120 });
}

#[test]
fn deposit_order_carries_the_amount_in_its_data() {
    let mut ctx = Deposit { user: wallet(id(3), u64::MAX), vault: vault(0, false) };
    let order = _deposit(&mut ctx, 0x0102_0304_0506_0708).unwrap();
    assert_eq!(
        order.instruction,
        system_transfer_of(id(3), vault_key(), vec![2, 0, 0, 0, 8, 7, 6, 5, 4, 3, 2, 1])
    );
    let mut ctx = Deposit { user: wallet(id(3), 0), vault: vault(0, false) };
    let order = _deposit(&mut ctx, 0).unwrap();
    assert_eq!(
        order.instruction,
        system_transfer_of(id(3), vault_key(), vec![2, 0, 0, 0, 0, 0, 0, 0, 0, 0, 0, 0])
    );
}

#[test]
fn deposit_order_settles_by_the_ledgers_answer() {
    let mut ctx = Deposit { user: wallet(stranger(), 500), vault: vault(1000, false) };
    let order = _deposit(&mut ctx, 120).unwrap();
    assert_eq!(
        order.clone().settle(true),
        Ok(DepositEvent { vault: vault_key(), user: stranger(), amount: 120 })
    );
    assert_eq!(order.settle(false), Err(VaultError::TransferFailed));
}

#[test]
fn deposit_of_whole_balance_succeeds() {
    let mut ctx = Deposit { user: wallet(stranger(), 500), vault: vault(0, false) };
    let r = announced(_deposit(&mut ctx, 500));
    assert_eq!(r, Ok(DepositEvent { vault: vault_key(), user: stranger(), amount: 500 }));
    assert_eq!(ctx.vault.lamports, 500);
    assert_eq!(ctx.user.lamports, 0);
}

#[test]
fn deposit_by_the_authority_is_a_deposit() {
    let mut ctx = Deposit { user: wallet(authority(), 10), vault: vault(1, false) };
    let r = announced(_deposit(&mut ctx, 10));
    assert_eq!(r, Ok(DepositEvent { vault: vault_key(), user: authority(), amount: 10 }));
    assert_eq!((ctx.user.lamports, ctx.vault.lamports), (0, 11));
}

#[test]
fn deposit_while_locked_is_rejected() {
    let before = Deposit { user: wallet(stranger(), 500), vault: vault(1000, true) };
    let mut ctx = before;
    assert_eq!(announced(_deposit(&mut ctx, 120)), Err(VaultError::VaultLocked));
    assert_eq!(ctx, before);
}

#[test]
fn deposit_while_locked_reports_the_lock_before_the_balance() {
    let before = Deposit { user: wallet(stranger(), 5), vault: vault(1000, true) };
    let mut ctx = before;
    assert_eq!(announced(_deposit(&mut ctx, 120)), Err(VaultError::VaultLocked));
    assert_eq!(ctx, before);
}

#[test]
fn deposit_beyond_user_balance_is_rejected() {
    let before = Deposit { user: wallet(stranger(), 119), vault: vault(1000, false) };
    let mut ctx = before;
    assert_eq!(announced(_deposit(&mut ctx, 120)), Err(VaultError::InsufficientBalance));
    assert_eq!(ctx, before);
}

#[test]
fn deposit_the_vault_cannot_hold_fails_in_transfer() {
    let before = Deposit { user: wallet(stranger(), 10), vault: vault(u64::MAX - 3, false) };
    let mut ctx = before;
    assert_eq!(announced(_deposit(&mut ctx, 4)), Err(VaultError::TransferFailed));
    assert_eq!(ctx, before);
    assert_eq!(
        announced(_deposit(&mut ctx, 3)),
        Ok(DepositEvent { vault: vault_key(), user: stranger(), amount: 3 })
    );
    assert_eq!((ctx.user.lamports, ctx.vault.lamports), (7, u64::MAX));
}

#[test]
fn deposit_of_zero_succeeds_and_moves_nothing() {
    let before = Deposit { user: wallet(stranger(), 0), vault: vault(1000, false) };
    let mut ctx = before;
    assert_eq!(
        announced(_deposit(&mut ctx, 0)),
        Ok(DepositEvent { vault: vault_key(), user: stranger(), amount: 0 })
    );
    assert_eq!(ctx, before);
}

#[test]
fn withdraw_moves_exact_amount_and_announces_it() {
    let mut ctx = Withdraw { vault_authority: wallet(authority(), 7), vault: vault(1000, false) };
    let r = _withdraw(&mut ctx, 100, 890);
    assert_eq!(
        r,
        Ok(WithdrawEvent { vault: vault_key(), vault_authority: authority(), amount: 100 })
    );
    assert_eq!(ctx.vault.lamports, 900);
    assert_eq!(ctx.vault_authority.lamports, 107);
    assert_eq!(ctx.vault.state, Vault { vault_authority: authority(), locked: false });
}

#[test]
fn withdraw_below_survival_floor_is_rejected() {
    let before = Withdraw { vault_authority: wallet(authority(), 7), vault: vault(1000, false) };
    let mut ctx = before;
    assert_eq!(_withdraw(&mut ctx, 150, 890), Err(VaultError::Overflow));
    assert_eq!(ctx, before);
    assert_eq!(_withdraw(&mut ctx, 111, 890), Err(VaultError::Overflow));
    assert_eq!(ctx, before);
}

#[test]
fn withdraw_down_to_the_floor_succeeds() {
    let mut ctx = Withdraw { vault_authority: wallet(authority(), 0), vault: vault(1000, false) };
    assert_eq!(
        _withdraw(&mut ctx, 110, 890),
        Ok(WithdrawEvent { vault: vault_key(), vault_authority: authority(), amount: 110 })
    );
    assert_eq!((ctx.vault.lamports, ctx.vault_authority.lamports), (890, 110));
}

#[test]
fn withdraw_by_non_authority_is_rejected() {
    let before = Withdraw { vault_authority: wallet(stranger(), 7), vault: vault(1000, false) };
    let mut ctx = before;
    assert_eq!(_withdraw(&mut ctx, 10, 0), Err(VaultError::Unauthorized));
    assert_eq!(ctx, before);
}

#[test]
fn withdraw_by_almost_the_authority_is_rejected() {
    let mut near = authority();
    near.bytes[31] ^= 1;
    let before = Withdraw { vault_authority: wallet(near, 7), vault: vault(1000, false) };
    let mut ctx = before;
    assert_eq!(_withdraw(&mut ctx, 10, 0), Err(VaultError::Unauthorized));
    assert_eq!(ctx, before);
}

#[test]
fn withdraw_more_than_balance_is_rejected() {
    let before = Withdraw { vault_authority: wallet(authority(), 7), vault: vault(1000, false) };
    let mut ctx = before;
    assert_eq!(_withdraw(&mut ctx, 1001, 0), Err(VaultError::InsufficientBalance));
    assert_eq!(ctx, before);
    assert_eq!(_withdraw(&mut ctx, 1001, 890), Err(VaultError::InsufficientBalance));
    assert_eq!(ctx, before);
}

#[test]
fn withdraw_while_locked_is_rejected() {
    let before = Withdraw { vault_authority: wallet(authority(), 7), vault: vault(1000, true) };
    let mut ctx = before;
    assert_eq!(_withdraw(&mut ctx, 10, 0), Err(VaultError::VaultLocked));
    assert_eq!(ctx, before);
}

#[test]
fn withdraw_checks_come_in_order() {
    // locked, stranger, too much, below the floor: the lock is seen first
    let mut ctx = Withdraw { vault_authority: wallet(stranger(), 7), vault: vault(100, true) };
    assert_eq!(_withdraw(&mut ctx, 500, 90), Err(VaultError::VaultLocked));
    // unlocked: the caller is seen before the balance
    let mut ctx = Withdraw { vault_authority: wallet(stranger(), 7), vault: vault(100, false) };
    assert_eq!(_withdraw(&mut ctx, 500, 90), Err(VaultError::Unauthorized));
    // the authority: the balance is seen before the floor
    let mut ctx = Withdraw { vault_authority: wallet(authority(), 7), vault: vault(100, false) };
    assert_eq!(_withdraw(&mut ctx, 500, 90), Err(VaultError::InsufficientBalance));
    // enough balance: the floor is seen before the transfer
    let mut ctx =
        Withdraw { vault_authority: wallet(authority(), u64::MAX), vault: vault(100, false) };
    assert_eq!(_withdraw(&mut ctx, 50, 90), Err(VaultError::Overflow));
    assert_eq!(_withdraw(&mut ctx, 5, 90), Err(VaultError::TransferFailed));
    assert_eq!(ctx.vault.lamports, 100);
    assert_eq!(ctx.vault_authority.lamports, u64::MAX);
}

#[test]
fn withdraw_of_zero_succeeds_and_moves_nothing() {
    let before = Withdraw { vault_authority: wallet(authority(), 7), vault: vault(890, false) };
    let mut ctx = before;
    assert_eq!(
        _withdraw(&mut ctx, 0, 890),
        Ok(WithdrawEvent { vault: vault_key(), vault_authority: authority(), amount: 0 })
    );
    assert_eq!(ctx, before);
}

#[test]
fn withdraw_of_zero_from_vault_below_floor_is_rejected() {
    let before = Withdraw { vault_authority: wallet(authority(), 7), vault: vault(889, false) };
    let mut ctx = before;
    assert_eq!(_withdraw(&mut ctx, 0, 890), Err(VaultError::Overflow));
    assert_eq!(ctx, before);
}

#[test]
fn check_request_makes_the_first_three_checks() {
    let ctx = Withdraw { vault_authority: wallet(authority(), 7), vault: vault(100, false) };
    assert_eq!(ctx.check_request(100), Ok(()));
    assert_eq!(ctx.check_request(101), Err(VaultError::InsufficientBalance));
    let ctx = Withdraw { vault_authority: wallet(stranger(), 7), vault: vault(100, false) };
    assert_eq!(ctx.check_request(101), Err(VaultError::Unauthorized));
    let ctx = Withdraw { vault_authority: wallet(stranger(), 7), vault: vault(100, true) };
    assert_eq!(ctx.check_request(101), Err(VaultError::VaultLocked));
}

#[test]
fn toggle_lock_flips_and_announces_new_value() {
    let mut ctx = ToggleLock { vault_authority: wallet(authority(), 7), vault: vault(1000, false) };
    assert_eq!(
        _toggle_lock(&mut ctx),
        Ok(ToggleLockEvent { vault: vault_key(), vault_authority: authority(), locked: true })
    );
    assert!(ctx.vault.state.locked);
    assert_eq!(ctx.vault.lamports, 1000);
    assert_eq!(ctx.vault_authority, wallet(authority(), 7));
    assert_eq!(ctx.vault.state.vault_authority, authority());
}

#[test]
fn toggle_lock_twice_restores_the_lock() {
    for initial in [false, true] {
        let before =
            ToggleLock { vault_authority: wallet(authority(), 7), vault: vault(1000, initial) };
        let mut ctx = before;
        let first = _toggle_lock(&mut ctx);
        let second = _toggle_lock(&mut ctx);
        assert_eq!(
            first,
            Ok(ToggleLockEvent {
                vault: vault_key(),
                vault_authority: authority(),
                locked: !initial
            })
        );
        assert_eq!(
            second,
            Ok(ToggleLockEvent {
                vault: vault_key(),
                vault_authority: authority(),
                locked: initial
            })
        );
        assert_eq!(ctx, before);
    }
}

#[test]
fn toggle_lock_by_non_authority_is_rejected() {
    for initial in [false, true] {
        let before =
            ToggleLock { vault_authority: wallet(stranger(), 7), vault: vault(1000, initial) };
        let mut ctx = before;
        assert_eq!(_toggle_lock(&mut ctx), Err(VaultError::Unauthorized));
        assert_eq!(ctx, before);
        assert_eq!(ctx.vault.state.locked, initial);
    }
}

#[test]
fn deposit_lock_withdraw_unlock_withdraw() {
    let previous: u64 = 2_000;
    let floor: u64 = 890;
    let mut account = vault(previous, false);
    let mut owner = wallet(authority(), 300);

    let mut d = Deposit { user: wallet(stranger(), 100), vault: account };
    assert_eq!(
        announced(_deposit(&mut d, 100)),
        Ok(DepositEvent { vault: vault_key(), user: stranger(), amount: 100 })
    );
    account = d.vault;
    assert_eq!(account.lamports, previous + 100);

    let mut t = ToggleLock { vault_authority: owner, vault: account };
    assert_eq!(
        _toggle_lock(&mut t),
        Ok(ToggleLockEvent { vault: vault_key(), vault_authority: authority(), locked: true })
    );
    account = t.vault;
    assert!(account.state.locked);

    let mut w = Withdraw { vault_authority: owner, vault: account };
    assert_eq!(_withdraw(&mut w, 50, floor), Err(VaultError::VaultLocked));
    assert_eq!(w.vault, account);
    assert_eq!(w.vault_authority, owner);

    let mut t = ToggleLock { vault_authority: owner, vault: account };
    assert_eq!(
        _toggle_lock(&mut t),
        Ok(ToggleLockEvent { vault: vault_key(), vault_authority: authority(), locked: false })
    );
    account = t.vault;
    assert!(!account.state.locked);

    let mut w = Withdraw { vault_authority: owner, vault: account };
    assert_eq!(
        _withdraw(&mut w, 50, floor),
        Ok(WithdrawEvent { vault: vault_key(), vault_authority: authority(), amount: 50 })
    );
    account = w.vault;
    owner = w.vault_authority;
    assert_eq!(account.lamports, previous + 100 - 50);
    assert_eq!(owner.lamports, 350);
}

#[test]
fn no_rejected_operation_changes_the_vault_balance() {
    let account = vault(40, false);
    let mut w = Withdraw { vault_authority: wallet(authority(), 0), vault: account };
    assert_eq!(_withdraw(&mut w, 41, 0), Err(VaultError::InsufficientBalance));
    assert_eq!(w.vault.lamports, 40);
    assert_eq!(
        _withdraw(&mut w, 40, 0),
        Ok(WithdrawEvent { vault: vault_key(), vault_authority: authority(), amount: 40 })
    );
    assert_eq!(w.vault.lamports, 0);
    assert_eq!(_withdraw(&mut w, 1, 0), Err(VaultError::InsufficientBalance));
    assert_eq!(w.vault.lamports, 0);
    assert_eq!(w.vault_authority.lamports, 40);
}
