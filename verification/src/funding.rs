//! Inbound funding: apply an authenticated, provider-verified payment event
//! to the recipient's default wallet, exactly once. The caller has already
//! checked the webhook signature and re-verified the transaction with the
//! provider; this module takes the verified outcome and performs the single
//! credit inside one atomic unit of work, guarding against duplicate
//! delivery through the uniqueness of the provider reference.

use vstd::prelude::*;
use vstd::string::StringExecFns;

use crate::engine::{wallet_after, TransactionBalance};
use crate::ext::{fresh_record_id, now_millis};
use crate::ledger::{TransactionRecord, TransactionStatus, TransactionType, TrxCategory};
use crate::store::{
    default_wallet_index, find_default_wallet, has_default_wallet, has_provider_reference,
    has_record_id, provider_reference_used, store_unchanged, wallet_id_index, Store,
};

verus! {

/// Hard failures of funding ingestion. Duplicate delivery is not one of
/// them: it is reported as "not applied" so the provider stops retrying.
#[derive(Clone, Copy, PartialEq, Eq, Structural, Debug)]
pub enum WebhookHandlerError {
    /// The provider verification call itself failed; raised by the caller
    /// that talks to the provider, never by the processor.
    HttpRequestError,
    /// The unit of work could not commit; everything was rolled back.
    DatabaseError,
}

/// What the payment provider reports for a transaction reference when asked
/// directly: authoritative status, amount and fees (both in minor currency
/// units), and the recipient user carried in the provider-side metadata.
pub struct VerifiedTransaction {
    pub status: String,
    pub amount: u64,
    pub fees: u64,
    pub user_id: u128,
}

impl VerifiedTransaction {
    /// A verified event is worth applying only when the provider confirms
    /// success and a non-zero amount.
    pub open spec fn applicable(self) -> bool {
        self.status@ == "success"@ && self.amount >= 1
    }
}

/// The exact shape of the record a committed funding event appends.
pub open spec fn funding_record_matches(
    r: TransactionRecord,
    record_id: u128,
    reference: u128,
    v: VerifiedTransaction,
    current: u64,
    previous: u64,
    wallet: u128,
    meta: Seq<char>,
    now: u64,
) -> bool {
    &&& r.uuid == record_id
    &&& r.amount == v.amount
    &&& r.trx_type == TransactionType::Credit
    &&& r.status == TransactionStatus::Successful
    &&& r.description@ == "Funding of account"@
    &&& r.provider_reference == Some(reference)
    &&& r.current_balance == current
    &&& r.previous_balance == previous
    &&& r.user_id == v.user_id
    &&& r.wallet_id == wallet
    &&& r.provider@ == "paystack"@
    &&& r.fees == 0
    &&& r.provider_fees == v.fees
    &&& r.category == TrxCategory::Funding
    &&& r.meta@ == meta
    &&& r.created_at == now
}

/// The committed state after an applied funding event: the recipient's
/// default wallet credited by the verified amount and one new record
/// carrying the provider reference.
pub open spec fn funding_ok_post(
    pre: Store,
    post: Store,
    reference: u128,
    v: VerifiedTransaction,
    record_id: u128,
    now: u64,
    meta: Seq<char>,
) -> bool {
    let wi = default_wallet_index(pre.wallets@, v.user_id);
    let w = pre.wallets@[wi];
    let n = pre.records@.len() as int;
    &&& post.users@ == pre.users@
    &&& post.wallets@ == pre.wallets@.update(
        wi,
        wallet_after(w, (w.current_balance + v.amount) as u64, now),
    )
    &&& post.records@.len() == n + 1
    &&& post.records@.subrange(0, n) == pre.records@
    &&& funding_record_matches(
        post.records@[n],
        record_id,
        reference,
        v,
        (w.current_balance + v.amount) as u64,
        w.current_balance,
        w.uuid,
        meta,
        now,
    )
}

/// The whole observable behaviour of [`process_funding_event`]: which result
/// comes back on which inputs, and what the store looks like afterwards.
/// The checks fall in the order the processor makes them, so exactly one
/// branch applies to any input.
pub open spec fn funding_post(
    pre: Store,
    post: Store,
    reference: u128,
    v: VerifiedTransaction,
    record_id: u128,
    now: u64,
    meta: Seq<char>,
    r: Result<bool, WebhookHandlerError>,
) -> bool {
    if !v.applicable() {
        r == Ok::<bool, WebhookHandlerError>(false) && store_unchanged(pre, post)
    } else if !has_default_wallet(pre.wallets@, v.user_id) {
        r == Ok::<bool, WebhookHandlerError>(false) && store_unchanged(pre, post)
    } else if has_provider_reference(pre.records@, reference) {
        // Duplicate delivery: already applied, reported as a no-op.
        r == Ok::<bool, WebhookHandlerError>(false) && store_unchanged(pre, post)
    } else if !(pre.wallets@[default_wallet_index(pre.wallets@, v.user_id)].current_balance
        + v.amount <= u64::MAX && !has_record_id(pre.records@, record_id)) {
        r == Err::<bool, WebhookHandlerError>(WebhookHandlerError::DatabaseError)
            && store_unchanged(pre, post)
    } else {
        r == Ok::<bool, WebhookHandlerError>(true) && funding_ok_post(
            pre,
            post,
            reference,
            v,
            record_id,
            now,
            meta,
        )
    }
}

/// Apply one verified funding event, with the record identity supplied by
/// the caller. If the provider reference was already recorded — a webhook
/// retry — nothing changes and the event is reported as not applied, which
/// is not an error.
pub fn process_funding_event(
    store: &mut Store,
    reference: u128,
    verified: &VerifiedTransaction,
    record_id: u128,
    now: u64,
    meta: &String,
) -> (r: Result<bool, WebhookHandlerError>)
    requires
        old(store).wf(),
    ensures
        final (store).wf(),
        funding_post(*old(store), *final (store), reference, *verified, record_id, now, meta@, r),
{
    let ghost pre = *store;

    // Step 1 happened at the caller: `verified` is the provider's own
    // answer for `reference`. Apply it only on confirmed success.
    let success = String::from_str("success");
    if !verified.status.eq(&success) || verified.amount == 0 {
        return Ok(false);
    }

    // One atomic unit of work around the wallet read and the credit.
    let mut uow = store.begin();

    let wi = match find_default_wallet(&uow.wallets, verified.user_id) {
        Some(i) => i,
        None => {
            uow.rollback();
            return Ok(false);
        },
    };
    let wallet = uow.wallets[wi];

    // A reference seen before means the event was already applied.
    if provider_reference_used(&uow.records, reference) {
        uow.rollback();
        return Ok(false);
    }

    let entry = TransactionBalance {
        uuid: record_id,
        amount: verified.amount,
        trx_type: TransactionType::Credit,
        status: TransactionStatus::Successful,
        description: String::from_str("Funding of account"),
        provider_reference: Some(reference),
        user_id: verified.user_id,
        wallet_id: wallet.uuid,
        provider: String::from_str("paystack"),
        fees: None,
        provider_fees: Some(verified.fees),
        category: TrxCategory::Funding,
        meta: meta.clone(),
    };
    proof {
        assert(wallet_id_index(uow.wallets@, wallet.uuid) == wi as int);
    }
    match uow.save_transaction_update_balance(entry, now) {
        Ok(()) => {
            store.commit(uow);
            proof {
                let n = pre.records@.len() as int;
                assert(store.records@.subrange(0, n) =~= pre.records@);
            }
            Ok(true)
        },
        Err(_) => {
            // The balance write may already sit in the working state; the
            // rollback discards it with everything else.
            uow.rollback();
            Err(WebhookHandlerError::DatabaseError)
        },
    }
}

/// The part of funding ingestion's behaviour that does not depend on the
/// generated record identity or the clock: when the event is reported as
/// not applied, when nothing changes, and what an applied event does to the
/// wallet and the audit trail.
pub open spec fn funding_outcome(
    pre: Store,
    post: Store,
    reference: u128,
    v: VerifiedTransaction,
    r: Result<bool, WebhookHandlerError>,
) -> bool {
    let wi = default_wallet_index(pre.wallets@, v.user_id);
    let w = pre.wallets@[wi];
    let n = pre.records@.len() as int;
    &&& (r == Ok::<bool, WebhookHandlerError>(false) <==> !v.applicable() || !has_default_wallet(
        pre.wallets@,
        v.user_id,
    ) || has_provider_reference(pre.records@, reference))
    &&& (!(r == Ok::<bool, WebhookHandlerError>(true)) ==> store_unchanged(pre, post))
    &&& (r == Ok::<bool, WebhookHandlerError>(true) ==> post.users@ == pre.users@
        && post.wallets@.len() == pre.wallets@.len() && post.wallets@[wi].current_balance
        == w.current_balance + v.amount && post.wallets@[wi].previous_balance == w.current_balance
        && (forall|k: int|
        0 <= k < pre.wallets@.len() && k != wi ==> post.wallets@[k] == pre.wallets@[k])
        && post.records@.len() == n + 1 && post.records@.subrange(0, n) == pre.records@
        && post.records@[n].provider_reference == Some(reference) && post.records@[n].amount
        == v.amount && post.records@[n].trx_type == TransactionType::Credit
        && post.records@[n].category == TrxCategory::Funding && post.records@[n].current_balance
        == post.wallets@[wi].current_balance && post.records@[n].previous_balance
        == w.current_balance)
}

/// Apply one verified funding event, generating the record identity and the
/// timestamp on the spot. The identity is random and the clock is external,
/// so the contract holds for whatever values came back; everything except
/// the generated identity and timestamps is pinned by [`funding_outcome`].
pub fn handle_inflow_webhook(
    store: &mut Store,
    reference: u128,
    verified: &VerifiedTransaction,
    meta: &String,
) -> (r: Result<bool, WebhookHandlerError>)
    requires
        old(store).wf(),
    ensures
        final (store).wf(),
        exists|record_id: u128, now: u64|
            funding_post(
                *old(store),
                *final (store),
                reference,
                *verified,
                record_id,
                now,
                meta@,
                r,
            ),
        funding_outcome(*old(store), *final (store), reference, *verified, r),
{
    let ghost pre = *store;
    let record_id = fresh_record_id();
    let now = now_millis();
    let r = process_funding_event(store, reference, verified, record_id, now, meta);
    proof {
        if r == Ok::<bool, WebhookHandlerError>(true) {
            let wi = default_wallet_index(pre.wallets@, verified.user_id);
            assert(funding_ok_post(pre, *store, reference, *verified, record_id, now, meta@));
            assert(0 <= wi < pre.wallets@.len());
        }
    }
    r
}

/// Idempotent funding: once a funding event has been applied, delivering the
/// same event again (same provider reference, same verified outcome) is a
/// no-op reported as "not applied", and the store holds exactly one record
/// with that provider reference and exactly one credit of the amount.
/// Stated over the public contract of [`process_funding_event`], for any
/// first application that returned `Ok(true)` and any second delivery.
pub proof fn lemma_funding_idempotent(
    s0: Store,
    s1: Store,
    s2: Store,
    reference: u128,
    v1: VerifiedTransaction,
    v2: VerifiedTransaction,
    rid1: u128,
    rid2: u128,
    now1: u64,
    now2: u64,
    meta1: Seq<char>,
    meta2: Seq<char>,
    r2: Result<bool, WebhookHandlerError>,
)
    requires
        s0.wf(),
        funding_post(s0, s1, reference, v1, rid1, now1, meta1, Ok(true)),
        funding_post(s1, s2, reference, v2, rid2, now2, meta2, r2),
        v2.applicable(),
        v2.user_id == v1.user_id,
    ensures
        r2 == Ok::<bool, WebhookHandlerError>(false),
        store_unchanged(s1, s2),
        ({
            let n = s0.records@.len() as int;
            let wi = default_wallet_index(s0.wallets@, v1.user_id);
            &&& s2.records@.len() == n + 1
            &&& s2.records@[n].provider_reference == Some(reference)
            &&& (forall|j: int|
                0 <= j < s2.records@.len() && j != n ==> s2.records@[j].provider_reference != Some(
                    reference,
                ))
            &&& s2.wallets@[wi].current_balance == s0.wallets@[wi].current_balance + v1.amount
        }),
{
    let n = s0.records@.len() as int;
    let wi = default_wallet_index(s0.wallets@, v1.user_id);
    // The first delivery was applied, so its precondition cascade passed.
    assert(v1.applicable() && has_default_wallet(s0.wallets@, v1.user_id)
        && !has_provider_reference(s0.records@, reference));
    assert(0 <= wi < s0.wallets@.len() && s0.wallets@[wi].user_id == v1.user_id
        && s0.wallets@[wi].is_default);
    assert(funding_ok_post(s0, s1, reference, v1, rid1, now1, meta1));
    // The credited wallet keeps its owner and default flag, so the second
    // delivery still finds a default wallet.
    assert(s1.wallets@[wi].user_id == v2.user_id && s1.wallets@[wi].is_default);
    assert(has_default_wallet(s1.wallets@, v2.user_id));
    // The first delivery recorded the reference, so the second hits the
    // duplicate branch.
    assert(s1.records@[n].provider_reference == Some(reference));
    assert(has_provider_reference(s1.records@, reference));
    // No earlier record carries the reference.
    assert forall|j: int|
        0 <= j < s2.records@.len() && j != n implies s2.records@[j].provider_reference != Some(
        reference,
    ) by {
        if j < n {
            if s2.records@[j].provider_reference == Some(reference) {
                assert(s0.records@[j] == s1.records@.subrange(0, n)[j]);
                assert(has_provider_reference(s0.records@, reference));
            }
        }
    }
}

/// The audit trail is append-only: whatever funding ingestion returns, every
/// record that existed before still exists, unchanged and in place.
pub proof fn lemma_funding_audit_append_only(
    pre: Store,
    post: Store,
    reference: u128,
    v: VerifiedTransaction,
    record_id: u128,
    now: u64,
    meta: Seq<char>,
    r: Result<bool, WebhookHandlerError>,
)
    requires
        pre.wf(),
        funding_post(pre, post, reference, v, record_id, now, meta, r),
    ensures
        post.records@.len() >= pre.records@.len(),
        post.records@.subrange(0, pre.records@.len() as int) == pre.records@,
{
    let n = pre.records@.len() as int;
    assert(pre.records@.subrange(0, n) =~= pre.records@);
}

} // verus!
