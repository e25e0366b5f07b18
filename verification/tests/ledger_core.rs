//! End-to-end scenarios for the ledger core: funding, transfers, the
//! idempotency guard and atomicity under an injected failure. All amounts
//! are minor currency units (100 = 1.00).

use money_transfer::engine::{LedgerError, TransactionBalance};
use money_transfer::funding::{
    handle_inflow_webhook, process_funding_event, VerifiedTransaction, WebhookHandlerError,
};
use money_transfer::ledger::{TransactionStatus, TransactionType, TrxCategory};
use money_transfer::store::Store;
use money_transfer::transfer::{transfer, transfer_with_ids, TransferError};

fn verified_event(amount: u64, fees: u64, user_id: u128) -> VerifiedTransaction {
    VerifiedTransaction {
        status: "success".to_string(),
        amount,
        fees,
        user_id,
    }
}

/// A store with one verified user per entry of `users`, each with a default
/// wallet holding the given balance (credited through a funding event).
fn store_with_wallets(users: &[(u128, &str, &str, &str, u64)]) -> Store {
    let mut s = Store::new();
    let mut reference: u128 = 900_000;
    let mut record_id: u128 = 800_000;
    for (uuid, email, first, last, balance) in users {
        s.create_user(*uuid, email.to_string(), first.to_string(), last.to_string())
            .unwrap();
        let email = email.to_string();
        s.verify_account(&email, 10_000 + *uuid, 1).unwrap();
        if *balance > 0 {
            let applied = process_funding_event(
                &mut s,
                reference,
                &verified_event(*balance, 0, *uuid),
                record_id,
                2,
                &"seed".to_string(),
            )
            .unwrap();
            assert!(applied);
            reference += 1;
            record_id += 1;
        }
    }
    s
}

fn wallet_balance(s: &Store, user: u128) -> u64 {
    s.wallets
        .iter()
        .find(|w| w.user_id == user && w.is_default)
        .expect("wallet")
        .current_balance
}

#[test]
fn funding_happy_path() {
    // Wallet at 0.00; a verified funding event for 1000.00 yields 1000.00
    // and one Credit/Funding record with the exact snapshots.
    let mut s = store_with_wallets(&[(1, "ada@example.com", "Ada", "Lovelace", 0)]);
    let meta = "{\"raw\":\"payload\"}".to_string();
    let applied =
        process_funding_event(&mut s, 777, &verified_event(100_000, 250, 1), 42, 9, &meta)
            .unwrap();
    assert!(applied);
    assert_eq!(wallet_balance(&s, 1), 100_000);
    assert_eq!(s.records.len(), 1);
    let rec = &s.records[0];
    assert_eq!(rec.uuid, 42);
    assert_eq!(rec.amount, 100_000);
    assert_eq!(rec.trx_type, TransactionType::Credit);
    assert_eq!(rec.status, TransactionStatus::Successful);
    assert_eq!(rec.category, TrxCategory::Funding);
    assert_eq!(rec.previous_balance, 0);
    assert_eq!(rec.current_balance, 100_000);
    assert_eq!(rec.provider_reference, Some(777));
    assert_eq!(rec.provider, "paystack");
    assert_eq!(rec.description, "Funding of account");
    assert_eq!(rec.fees, 0);
    assert_eq!(rec.provider_fees, 250);
    assert_eq!(rec.meta, meta);
    assert_eq!(rec.created_at, 9);
}

#[test]
fn funding_is_idempotent() {
    // The same funding event delivered twice applies exactly one credit and
    // leaves exactly one record with that provider reference.
    let mut s = store_with_wallets(&[(1, "ada@example.com", "Ada", "Lovelace", 0)]);
    let meta = "{}".to_string();
    let first =
        process_funding_event(&mut s, 777, &verified_event(100_000, 0, 1), 42, 9, &meta).unwrap();
    assert!(first);
    let second =
        process_funding_event(&mut s, 777, &verified_event(100_000, 0, 1), 43, 10, &meta)
            .unwrap();
    assert!(!second, "duplicate delivery must be a no-op, not an error");
    assert_eq!(wallet_balance(&s, 1), 100_000);
    let with_reference: Vec<_> = s
        .records
        .iter()
        .filter(|r| r.provider_reference == Some(777))
        .collect();
    assert_eq!(with_reference.len(), 1);
}

#[test]
fn funding_ignores_unsuccessful_or_zero_events() {
    let mut s = store_with_wallets(&[(1, "ada@example.com", "Ada", "Lovelace", 0)]);
    let meta = "{}".to_string();
    let failed = VerifiedTransaction {
        status: "failed".to_string(),
        amount: 100_000,
        fees: 0,
        user_id: 1,
    };
    assert_eq!(process_funding_event(&mut s, 1, &failed, 50, 9, &meta), Ok(false));
    assert_eq!(
        process_funding_event(&mut s, 2, &verified_event(0, 0, 1), 51, 9, &meta),
        Ok(false)
    );
    assert_eq!(wallet_balance(&s, 1), 0);
    assert!(s.records.is_empty());
}

#[test]
fn funding_without_wallet_is_a_no_op() {
    let mut s = store_with_wallets(&[(1, "ada@example.com", "Ada", "Lovelace", 0)]);
    let meta = "{}".to_string();
    let r = process_funding_event(&mut s, 777, &verified_event(100_000, 0, 99), 42, 9, &meta);
    assert_eq!(r, Ok(false));
    assert!(s.records.is_empty());
}

#[test]
fn transfer_conserves_funds() {
    // Conservation: the sum of sender and receiver balances is unchanged by
    // a committed transfer.
    let mut s = store_with_wallets(&[
        (1, "ada@example.com", "Ada", "Lovelace", 100_000),
        (2, "alan@example.com", "Alan", "Turing", 20_000),
    ]);
    let before = wallet_balance(&s, 1) + wallet_balance(&s, 2);
    let narration = "Rent".to_string();
    let meta = "{\"pair\":true}".to_string();
    let r = transfer_with_ids(&mut s, 1, 2, 30_000, &narration, &meta, 501, 502, 12);
    assert_eq!(r, Ok(()));
    assert_eq!(wallet_balance(&s, 1), 70_000);
    assert_eq!(wallet_balance(&s, 2), 50_000);
    assert_eq!(wallet_balance(&s, 1) + wallet_balance(&s, 2), before);
}

#[test]
fn transfer_produces_a_linked_pair() {
    // Pair linkage: a successful transfer of 500.00 produces two records
    // pointing at each other, both of the full amount, with snapshots equal
    // to each wallet's post-transfer balance.
    let mut s = store_with_wallets(&[
        (1, "ada@example.com", "Ada", "Lovelace", 80_000),
        (2, "alan@example.com", "Alan", "Turing", 0),
    ]);
    let n = s.records.len();
    let narration = "Gift".to_string();
    let meta = "{}".to_string();
    let r = transfer_with_ids(&mut s, 1, 2, 50_000, &narration, &meta, 501, 502, 12);
    assert_eq!(r, Ok(()));
    assert_eq!(s.records.len(), n + 2);
    let debit = &s.records[n];
    let credit = &s.records[n + 1];
    assert_eq!(debit.provider_reference, Some(credit.uuid));
    assert_eq!(credit.provider_reference, Some(debit.uuid));
    assert_eq!(debit.trx_type, TransactionType::Debit);
    assert_eq!(credit.trx_type, TransactionType::Credit);
    assert_eq!(debit.amount, 50_000);
    assert_eq!(credit.amount, 50_000);
    assert_eq!(debit.category, TrxCategory::P2P);
    assert_eq!(credit.category, TrxCategory::P2P);
    assert_eq!(debit.current_balance, wallet_balance(&s, 1));
    assert_eq!(credit.current_balance, wallet_balance(&s, 2));
    assert_eq!(debit.previous_balance, 80_000);
    assert_eq!(credit.previous_balance, 0);
    assert_eq!(debit.description, "Gift - TO Turing Alan");
    assert_eq!(credit.description, "Gift - FROM Lovelace Ada");
    assert_eq!(debit.provider, "money-transfer");
    assert_eq!(credit.provider, "money-transfer");
    assert_eq!(debit.meta, credit.meta);
}

#[test]
fn self_transfer_is_rejected() {
    // transfer(u, u, 100, "x") returns SelfTransfer and creates no records.
    let mut s = store_with_wallets(&[(1, "ada@example.com", "Ada", "Lovelace", 100_000)]);
    let narration = "x".to_string();
    let meta = "{}".to_string();
    let before = wallet_balance(&s, 1);
    let r = transfer_with_ids(&mut s, 1, 1, 100, &narration, &meta, 501, 502, 12);
    assert_eq!(r, Err(TransferError::SelfTransfer));
    assert_eq!(s.records.len(), 1, "only the seeding record remains");
    assert_eq!(wallet_balance(&s, 1), before);
}

#[test]
fn insufficient_funds_is_rejected() {
    // Wallet with balance 50.00; a transfer of 100 (major units: 100.00)
    // returns InsufficientFunds; no records, balances unchanged.
    let mut s = store_with_wallets(&[
        (1, "ada@example.com", "Ada", "Lovelace", 5_000),
        (2, "alan@example.com", "Alan", "Turing", 0),
    ]);
    let n = s.records.len();
    let narration = "x".to_string();
    let meta = "{}".to_string();
    let r = transfer_with_ids(&mut s, 1, 2, 10_000, &narration, &meta, 501, 502, 12);
    assert_eq!(r, Err(TransferError::InsufficientFunds));
    assert_eq!(s.records.len(), n);
    assert_eq!(wallet_balance(&s, 1), 5_000);
    assert_eq!(wallet_balance(&s, 2), 0);
}

#[test]
fn unknown_or_unverified_receiver_is_rejected() {
    let mut s = store_with_wallets(&[(1, "ada@example.com", "Ada", "Lovelace", 5_000)]);
    // Unknown receiver.
    let narration = "x".to_string();
    let meta = "{}".to_string();
    let r = transfer_with_ids(&mut s, 1, 9, 100, &narration, &meta, 501, 502, 12);
    assert_eq!(r, Err(TransferError::UserNotFound));
    // Known but unverified receiver.
    s.create_user(2, "alan@example.com".to_string(), "Alan".to_string(), "Turing".to_string())
        .unwrap();
    let r = transfer_with_ids(&mut s, 1, 2, 100, &narration, &meta, 501, 502, 12);
    assert_eq!(r, Err(TransferError::UserNotFound));
}

#[test]
fn receiver_without_wallet_is_rejected() {
    // A verified receiver whose default wallet is missing: built directly,
    // since the verification flow always creates one.
    let mut s = store_with_wallets(&[(1, "ada@example.com", "Ada", "Lovelace", 5_000)]);
    s.create_user(2, "alan@example.com".to_string(), "Alan".to_string(), "Turing".to_string())
        .unwrap();
    let alan = s.users.iter_mut().find(|u| u.uuid == 2).unwrap();
    alan.is_verified = true;
    let narration = "x".to_string();
    let meta = "{}".to_string();
    let r = transfer_with_ids(&mut s, 1, 2, 100, &narration, &meta, 501, 502, 12);
    assert_eq!(r, Err(TransferError::ReceiverHasNoWallet));
    assert_eq!(wallet_balance(&s, 1), 5_000);
}

#[test]
fn sender_without_wallet_is_rejected() {
    let mut s = store_with_wallets(&[(2, "alan@example.com", "Alan", "Turing", 0)]);
    s.create_user(1, "ada@example.com".to_string(), "Ada".to_string(), "Lovelace".to_string())
        .unwrap();
    let ada = s.users.iter_mut().find(|u| u.uuid == 1).unwrap();
    ada.is_verified = true;
    let narration = "x".to_string();
    let meta = "{}".to_string();
    let r = transfer_with_ids(&mut s, 1, 2, 100, &narration, &meta, 501, 502, 12);
    assert_eq!(r, Err(TransferError::SenderHasNoWallet));
}

#[test]
fn colliding_record_ids_fail_and_roll_back() {
    let mut s = store_with_wallets(&[
        (1, "ada@example.com", "Ada", "Lovelace", 5_000),
        (2, "alan@example.com", "Alan", "Turing", 0),
    ]);
    let narration = "x".to_string();
    let meta = "{}".to_string();
    // The two fresh identities collide with each other.
    let r = transfer_with_ids(&mut s, 1, 2, 100, &narration, &meta, 501, 501, 12);
    assert_eq!(r, Err(TransferError::PersistenceFailure));
    assert_eq!(wallet_balance(&s, 1), 5_000);
    assert_eq!(wallet_balance(&s, 2), 0);
}

#[test]
fn atomicity_under_injected_insert_failure() {
    // Force the record insert to fail after the balance write: once the unit
    // of work is rolled back, the committed balance is unchanged and no
    // record exists.
    let mut s = store_with_wallets(&[(1, "ada@example.com", "Ada", "Lovelace", 7_000)]);
    let wallet_id = s.wallets[0].uuid;
    let n_records = s.records.len();

    let mut uow = s.begin();
    uow.inject_record_insert_failure();
    let entry = TransactionBalance {
        uuid: 999,
        amount: 1_000,
        trx_type: TransactionType::Credit,
        status: TransactionStatus::Successful,
        description: "doomed".to_string(),
        provider_reference: None,
        user_id: 1,
        wallet_id,
        provider: "paystack".to_string(),
        fees: None,
        provider_fees: None,
        category: TrxCategory::Funding,
        meta: String::new(),
    };
    let r = uow.save_transaction_update_balance(entry, 30);
    assert_eq!(r, Err(LedgerError::Persistence));
    // The balance write happened in the working copy only.
    assert_eq!(uow.wallets[0].current_balance, 8_000);
    assert_eq!(uow.records.len(), n_records);
    uow.rollback();
    // The committed store never saw any of it.
    assert_eq!(wallet_balance(&s, 1), 7_000);
    assert_eq!(s.records.len(), n_records);
}

#[test]
fn duplicate_reference_inside_engine_reports_duplicate() {
    let mut s = store_with_wallets(&[(1, "ada@example.com", "Ada", "Lovelace", 0)]);
    let wallet_id = s.wallets[0].uuid;
    let entry = |uuid: u128| TransactionBalance {
        uuid,
        amount: 500,
        trx_type: TransactionType::Credit,
        status: TransactionStatus::Successful,
        description: "fund".to_string(),
        provider_reference: Some(4242),
        user_id: 1,
        wallet_id,
        provider: "paystack".to_string(),
        fees: None,
        provider_fees: None,
        category: TrxCategory::Funding,
        meta: String::new(),
    };
    let mut uow = s.begin();
    assert_eq!(uow.save_transaction_update_balance(entry(61), 30), Ok(()));
    assert_eq!(
        uow.save_transaction_update_balance(entry(62), 31),
        Err(LedgerError::DuplicateReference)
    );
    uow.rollback();
    assert_eq!(wallet_balance(&s, 1), 0);
    assert_eq!(s.records.len(), 0);
}

#[test]
fn balances_never_go_negative_across_operations() {
    // No sequence of committed operations can drive a balance negative: an
    // overdraw is rejected up front and every remaining balance stays >= 0
    // (the representation cannot even hold a negative value).
    let mut s = store_with_wallets(&[
        (1, "ada@example.com", "Ada", "Lovelace", 1_000),
        (2, "alan@example.com", "Alan", "Turing", 0),
    ]);
    let narration = "drain".to_string();
    let meta = "{}".to_string();
    assert_eq!(
        transfer_with_ids(&mut s, 1, 2, 1_000, &narration, &meta, 601, 602, 13),
        Ok(())
    );
    assert_eq!(
        transfer_with_ids(&mut s, 1, 2, 1, &narration, &meta, 603, 604, 14),
        Err(TransferError::InsufficientFunds)
    );
    assert_eq!(
        transfer_with_ids(&mut s, 2, 1, 400, &narration, &meta, 605, 606, 15),
        Ok(())
    );
    assert_eq!(wallet_balance(&s, 1), 400);
    assert_eq!(wallet_balance(&s, 2), 600);
}

#[test]
fn transfer_with_generated_identities() {
    // The convenience entry point draws fresh random identities and the
    // clock itself.
    let mut s = store_with_wallets(&[
        (1, "ada@example.com", "Ada", "Lovelace", 10_000),
        (2, "alan@example.com", "Alan", "Turing", 0),
    ]);
    let narration = "Lunch".to_string();
    let meta = "{}".to_string();
    assert_eq!(transfer(&mut s, 1, 2, 2_500, &narration, &meta), Ok(()));
    assert_eq!(transfer(&mut s, 1, 2, 2_500, &narration, &meta), Ok(()));
    assert_eq!(wallet_balance(&s, 1), 5_000);
    assert_eq!(wallet_balance(&s, 2), 5_000);
    let n = s.records.len();
    let debit = &s.records[n - 2];
    let credit = &s.records[n - 1];
    assert_eq!(debit.provider_reference, Some(credit.uuid));
    assert_eq!(credit.provider_reference, Some(debit.uuid));
}

#[test]
fn webhook_entry_point_applies_and_deduplicates() {
    let mut s = store_with_wallets(&[(1, "ada@example.com", "Ada", "Lovelace", 0)]);
    let meta = "{}".to_string();
    let event = verified_event(64_000, 120, 1);
    assert_eq!(handle_inflow_webhook(&mut s, 31337, &event, &meta), Ok(true));
    assert_eq!(handle_inflow_webhook(&mut s, 31337, &event, &meta), Ok(false));
    assert_eq!(wallet_balance(&s, 1), 64_000);
}

#[test]
fn overflowing_credit_is_a_persistence_failure() {
    let mut s = store_with_wallets(&[(1, "ada@example.com", "Ada", "Lovelace", 0)]);
    let meta = "{}".to_string();
    let first = process_funding_event(&mut s, 1, &verified_event(u64::MAX, 0, 1), 71, 9, &meta);
    assert_eq!(first, Ok(true));
    let second = process_funding_event(&mut s, 2, &verified_event(1, 0, 1), 72, 10, &meta);
    assert_eq!(second, Err(WebhookHandlerError::DatabaseError));
    assert_eq!(wallet_balance(&s, 1), u64::MAX);
}
