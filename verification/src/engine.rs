//! The ledger engine: the indivisible primitive that every balance change
//! goes through. Given a wallet id, a direction and an amount, it updates the
//! wallet's balance fields and appends one immutable transaction record,
//! both inside the caller's open unit of work. Either both writes land in the
//! unit of work or the balance write is rolled back with the whole unit of
//! work: the engine never commits anything itself.

use vstd::prelude::*;

use crate::ledger::{
    TransactionRecord, TransactionStatus, TransactionType, TrxCategory, Wallet,
};
use crate::store::{
    has_provider_reference, has_record_id, has_wallet_id, wallet_id_index, find_wallet_by_id,
    provider_reference_used, record_id_used, UnitOfWork,
};

verus! {

/// Everything the caller supplies about one ledger mutation: the record's
/// identity and metadata, and the wallet and direction the mutation applies
/// to. Balance snapshots are computed by the engine itself.
pub struct TransactionBalance {
    pub uuid: u128,
    pub amount: u64,
    pub trx_type: TransactionType,
    pub status: TransactionStatus,
    pub description: String,
    pub provider_reference: Option<u128>,
    pub user_id: u128,
    pub wallet_id: u128,
    pub provider: String,
    pub fees: Option<u64>,
    pub provider_fees: Option<u64>,
    pub category: TrxCategory,
    pub meta: String,
}

/// Why a ledger mutation failed.
#[derive(Clone, Copy, PartialEq, Eq, Structural, Debug)]
pub enum LedgerError {
    /// The record insert hit the uniqueness constraint on
    /// `provider_reference`: the idempotency rejection.
    DuplicateReference,
    /// Any other write failure; the enclosing unit of work must be rolled
    /// back in full.
    Persistence,
}

pub open spec fn or_zero(x: Option<u64>) -> u64 {
    match x {
        Some(v) => v,
        None => 0,
    }
}

/// The wallet's new balance as an unbounded integer: negative for an
/// impossible debit, above `u64::MAX` for an overflowing credit.
pub open spec fn entry_new_balance(balance: u64, entry: TransactionBalance) -> int {
    match entry.trx_type {
        TransactionType::Credit => balance + entry.amount,
        TransactionType::Debit => balance - entry.amount,
    }
}

/// The wallet row after a mutation to balance `current` at time `now`.
pub open spec fn wallet_after(w: Wallet, current: u64, now: u64) -> Wallet {
    Wallet {
        uuid: w.uuid,
        user_id: w.user_id,
        is_default: w.is_default,
        current_balance: current,
        previous_balance: w.current_balance,
        updated_at: now,
    }
}

/// The immutable record produced for `entry`, carrying the balance snapshot
/// around the mutation.
pub open spec fn entry_record(
    entry: TransactionBalance,
    previous: u64,
    current: u64,
    now: u64,
) -> TransactionRecord {
    TransactionRecord {
        uuid: entry.uuid,
        amount: entry.amount,
        trx_type: entry.trx_type,
        status: entry.status,
        description: entry.description,
        provider_reference: entry.provider_reference,
        current_balance: current,
        previous_balance: previous,
        user_id: entry.user_id,
        wallet_id: entry.wallet_id,
        provider: entry.provider,
        fees: or_zero(entry.fees),
        provider_fees: or_zero(entry.provider_fees),
        category: entry.category,
        meta: entry.meta,
        created_at: now,
    }
}

/// Whether the entry's provider reference collides with one already present.
pub open spec fn reference_conflict(rs: Seq<TransactionRecord>, reference: Option<u128>) -> bool {
    reference is Some && has_provider_reference(rs, reference->0)
}

/// The whole observable behaviour of one ledger engine call on a unit of
/// work: which result comes back under which conditions, and how far the
/// working state got before a failure. After a failed record insert the
/// balance write is still in the working state — `dirty` below — which is
/// why the caller must roll the whole unit of work back on any error.
pub open spec fn ledger_apply_post(
    pre: UnitOfWork,
    post: UnitOfWork,
    entry: TransactionBalance,
    now: u64,
    r: Result<(), LedgerError>,
) -> bool {
    let ws = pre.wallets@;
    let rs = pre.records@;
    let i = wallet_id_index(ws, entry.wallet_id);
    let w = ws[i];
    let nb = entry_new_balance(w.current_balance, entry);
    let fits = nb <= u64::MAX;
    let dirty = ws.update(i, wallet_after(w, nb as u64, now));
    &&& (r is Ok <==> fits && !pre.fail_next_record_insert && !reference_conflict(
        rs,
        entry.provider_reference,
    ) && !has_record_id(rs, entry.uuid))
    &&& (r is Ok ==> post.wallets@ == dirty && post.records@ == rs.push(
        entry_record(entry, w.current_balance, nb as u64, now),
    ) && !post.fail_next_record_insert)
    &&& (!fits ==> r == Err::<(), LedgerError>(LedgerError::Persistence) && post.wallets@ == ws
        && post.records@ == rs && post.fail_next_record_insert == pre.fail_next_record_insert)
    &&& (fits && pre.fail_next_record_insert ==> r == Err::<(), LedgerError>(
        LedgerError::Persistence,
    ) && post.wallets@ == dirty && post.records@ == rs && !post.fail_next_record_insert)
    &&& (fits && !pre.fail_next_record_insert && reference_conflict(rs, entry.provider_reference)
        ==> r == Err::<(), LedgerError>(LedgerError::DuplicateReference) && post.wallets@ == dirty
        && post.records@ == rs)
    &&& (fits && !pre.fail_next_record_insert && !reference_conflict(rs, entry.provider_reference)
        && has_record_id(rs, entry.uuid) ==> r == Err::<(), LedgerError>(LedgerError::Persistence)
        && post.wallets@ == dirty && post.records@ == rs)
}

impl UnitOfWork {
    /// Apply one ledger mutation inside this unit of work: write the
    /// wallet's balance fields, then insert the transaction record.
    ///
    /// The caller must already have confirmed, on the same snapshot, that a
    /// debit is covered by the current balance; the engine does not re-read.
    /// On any error the caller must roll the whole unit of work back: after
    /// an insert failure the balance write is already in the working state,
    /// and only discarding the unit of work keeps the store consistent.
    pub fn save_transaction_update_balance(
        &mut self,
        entry: TransactionBalance,
        now: u64,
    ) -> (r: Result<(), LedgerError>)
        requires
            old(self).wf(),
            entry.amount >= 1,
            has_wallet_id(old(self).wallets@, entry.wallet_id),
            entry.trx_type is Debit ==> entry.amount <= old(self).wallets@[wallet_id_index(
                old(self).wallets@,
                entry.wallet_id,
            )].current_balance,
        ensures
            final (self).wf(),
            ledger_apply_post(*old(self), *final (self), entry, now, r),
    {
        let idx = find_wallet_by_id(&self.wallets, entry.wallet_id).unwrap();
        let w = self.wallets[idx];

        // Step 1: the new balance; an overflowing credit fails the balance
        // write itself, before anything is touched.
        let new_balance_opt = match entry.trx_type {
            TransactionType::Credit => w.current_balance.checked_add(entry.amount),
            TransactionType::Debit => Some(w.current_balance - entry.amount),
        };
        let new_balance = match new_balance_opt {
            Some(b) => b,
            None => {
                return Err(LedgerError::Persistence);
            },
        };

        // Step 2: write the wallet's balance fields.
        let ghost ws = self.wallets@;
        self.wallets.set(
            idx,
            Wallet {
                uuid: w.uuid,
                user_id: w.user_id,
                is_default: w.is_default,
                current_balance: new_balance,
                previous_balance: w.current_balance,
                updated_at: now,
            },
        );
        proof {
            assert forall|a: int, b: int|
                0 <= a < b < self.wallets@.len() implies self.wallets@[a].uuid
                != self.wallets@[b].uuid by {
                assert(ws[a].uuid != ws[b].uuid);
            }
            assert forall|a: int, b: int|
                0 <= a < b < self.wallets@.len() && self.wallets@[a].is_default
                    && self.wallets@[b].is_default implies self.wallets@[a].user_id
                != self.wallets@[b].user_id by {
                assert(ws[a].is_default && ws[b].is_default);
            }
        }

        // Step 3: insert the record. The injected fault, when armed, fails
        // exactly here: after the balance write, before the insert.
        if self.fail_next_record_insert {
            self.fail_next_record_insert = false;
            return Err(LedgerError::Persistence);
        }
        let conflict = match &entry.provider_reference {
            Some(p) => provider_reference_used(&self.records, *p),
            None => false,
        };
        if conflict {
            return Err(LedgerError::DuplicateReference);
        }
        if record_id_used(&self.records, entry.uuid) {
            return Err(LedgerError::Persistence);
        }

        let ghost rs = self.records@;
        let record = TransactionRecord {
            uuid: entry.uuid,
            amount: entry.amount,
            trx_type: entry.trx_type,
            status: entry.status,
            description: entry.description,
            provider_reference: entry.provider_reference,
            current_balance: new_balance,
            previous_balance: w.current_balance,
            user_id: entry.user_id,
            wallet_id: entry.wallet_id,
            provider: entry.provider,
            fees: match entry.fees {
                Some(f) => f,
                None => 0,
            },
            provider_fees: match entry.provider_fees {
                Some(f) => f,
                None => 0,
            },
            category: entry.category,
            meta: entry.meta,
            created_at: now,
        };
        self.records.push(record);
        proof {
            assert forall|a: int, b: int|
                0 <= a < b < self.records@.len() implies self.records@[a].uuid
                != self.records@[b].uuid by {
                if b < rs.len() {
                    assert(rs[a].uuid != rs[b].uuid);
                } else {
                    assert(!has_record_id(rs, entry.uuid));
                    assert(self.records@[b].uuid == entry.uuid);
                }
            }
            assert forall|a: int, b: int|
                0 <= a < b < self.records@.len() implies (self.records@[a].provider_reference
                is None || self.records@[a].provider_reference
                != self.records@[b].provider_reference) by {
                if b < rs.len() {
                    assert(rs[a].provider_reference is None || rs[a].provider_reference
                        != rs[b].provider_reference);
                } else {
                    if self.records@[a].provider_reference is Some {
                        if entry.provider_reference is Some {
                            assert(!has_provider_reference(rs, entry.provider_reference->0));
                            assert(rs[a].provider_reference != Some(entry.provider_reference->0));
                        }
                    }
                }
            }
        }
        Ok(())
    }
}

/// Atomicity under an injected failure: when the record insert is made to
/// fail after the balance write succeeded, the engine reports a persistence
/// error, the dirty balance sits only in the unit of work's working copy,
/// no record was appended anywhere, and the committed store — which only
/// [`crate::store::Store::commit`] can change — still holds the original
/// balance once the unit of work is rolled back (dropped).
pub proof fn lemma_atomicity_under_injected_failure(
    store: crate::store::Store,
    uow0: UnitOfWork,
    uow1: UnitOfWork,
    entry: TransactionBalance,
    now: u64,
    r: Result<(), LedgerError>,
)
    requires
        uow0.wallets@ == store.wallets@,
        uow0.records@ == store.records@,
        uow0.fail_next_record_insert,
        has_wallet_id(store.wallets@, entry.wallet_id),
        entry_new_balance(
            store.wallets@[wallet_id_index(store.wallets@, entry.wallet_id)].current_balance,
            entry,
        ) <= u64::MAX,
        ledger_apply_post(uow0, uow1, entry, now, r),
    ensures
        r == Err::<(), LedgerError>(LedgerError::Persistence),
        ({
            let i = wallet_id_index(store.wallets@, entry.wallet_id);
            let w = store.wallets@[i];
            let nb = entry_new_balance(w.current_balance, entry);
            uow1.wallets@ == store.wallets@.update(i, wallet_after(w, nb as u64, now))
        }),
        uow1.records@ == store.records@,
{
}

} // verus!
