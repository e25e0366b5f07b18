//! Peer-to-peer transfer orchestration: validate both participants, lock in
//! one unit of work, debit the sender, credit the receiver, commit. Any
//! failure at any step rolls the whole unit of work back, so no partial
//! transfer is ever observable.

use vstd::prelude::*;
use vstd::string::StringExecFns;

use crate::engine::{entry_record, wallet_after, TransactionBalance};
use crate::ext::{fresh_record_id, now_millis};
use crate::ledger::{
    TransactionRecord, TransactionStatus, TransactionType, TrxCategory, User, Wallet,
};
use crate::store::{
    default_wallet_index, find_default_wallet, find_user_by_id, has_default_wallet,
    has_provider_reference, has_record_id, has_user_id, store_unchanged, user_id_index,
    wallet_id_index, Store,
};

verus! {

/// Why a peer-to-peer transfer was refused.
#[derive(Clone, Copy, PartialEq, Eq, Structural, Debug)]
pub enum TransferError {
    /// Sender and receiver are the same party.
    SelfTransfer,
    /// The sender or the receiver is unknown, or the receiver is not yet
    /// verified.
    UserNotFound,
    /// The sender has no default wallet to draw from.
    SenderHasNoWallet,
    /// The transfer amount exceeds the sender's current balance.
    InsufficientFunds,
    /// The receiver has no default wallet to pay into.
    ReceiverHasNoWallet,
    /// The unit of work could not commit; everything was rolled back.
    PersistenceFailure,
}

/// "last-name first-name", as recorded in transfer descriptions.
pub open spec fn full_name(u: User) -> Seq<char> {
    u.last_name@ + " "@ + u.first_name@
}

/// A known and verified user.
pub open spec fn verified_user(us: Seq<User>, id: u128) -> bool {
    has_user_id(us, id) && us[user_id_index(us, id)].is_verified
}

/// Both freshly generated record ids are distinct, unused as record ids and
/// unused as provider references: what the two inserts' uniqueness
/// constraints demand.
pub open spec fn ids_fresh(rs: Seq<TransactionRecord>, srid: u128, rrid: u128) -> bool {
    &&& srid != rrid
    &&& !has_record_id(rs, srid)
    &&& !has_record_id(rs, rrid)
    &&& !has_provider_reference(rs, srid)
    &&& !has_provider_reference(rs, rrid)
}

/// One side of a committed transfer: the exact shape of the record the
/// ledger engine appended for it.
pub open spec fn p2p_record_matches(
    r: TransactionRecord,
    uuid: u128,
    amount: u64,
    trx_type: TransactionType,
    description: Seq<char>,
    reference: u128,
    current: u64,
    previous: u64,
    user: u128,
    wallet: u128,
    meta: Seq<char>,
    now: u64,
) -> bool {
    &&& r.uuid == uuid
    &&& r.amount == amount
    &&& r.trx_type == trx_type
    &&& r.status == TransactionStatus::Successful
    &&& r.description@ == description
    &&& r.provider_reference == Some(reference)
    &&& r.current_balance == current
    &&& r.previous_balance == previous
    &&& r.user_id == user
    &&& r.wallet_id == wallet
    &&& r.provider@ == "money-transfer"@
    &&& r.fees == 0
    &&& r.provider_fees == 0
    &&& r.category == TrxCategory::P2P
    &&& r.meta@ == meta
    &&& r.created_at == now
}

/// The committed state after a successful transfer: the sender's default
/// wallet debited, the receiver's credited, and exactly two new records, a
/// debit/credit pair pointing at each other through `provider_reference`.
pub open spec fn transfer_ok_post(
    pre: Store,
    post: Store,
    sender: u128,
    receiver: u128,
    amount: u64,
    narration: Seq<char>,
    meta: Seq<char>,
    srid: u128,
    rrid: u128,
    now: u64,
) -> bool {
    let si = default_wallet_index(pre.wallets@, sender);
    let ri = default_wallet_index(pre.wallets@, receiver);
    let sw = pre.wallets@[si];
    let rw = pre.wallets@[ri];
    let sname = full_name(pre.users@[user_id_index(pre.users@, sender)]);
    let rname = full_name(pre.users@[user_id_index(pre.users@, receiver)]);
    let n = pre.records@.len() as int;
    &&& post.users@ == pre.users@
    &&& post.wallets@ == pre.wallets@.update(
        si,
        wallet_after(sw, (sw.current_balance - amount) as u64, now),
    ).update(ri, wallet_after(rw, (rw.current_balance + amount) as u64, now))
    &&& post.records@.len() == n + 2
    &&& post.records@.subrange(0, n) == pre.records@
    &&& p2p_record_matches(
        post.records@[n],
        srid,
        amount,
        TransactionType::Debit,
        narration + " - TO "@ + rname,
        rrid,
        (sw.current_balance - amount) as u64,
        sw.current_balance,
        sender,
        sw.uuid,
        meta,
        now,
    )
    &&& p2p_record_matches(
        post.records@[n + 1],
        rrid,
        amount,
        TransactionType::Credit,
        narration + " - FROM "@ + sname,
        srid,
        (rw.current_balance + amount) as u64,
        rw.current_balance,
        receiver,
        rw.uuid,
        meta,
        now,
    )
}

/// The whole observable behaviour of [`transfer_with_ids`]: which result
/// comes back on which inputs, and what the store looks like afterwards.
/// The checks fall in the order the orchestrator makes them, so exactly one
/// branch applies to any input.
pub open spec fn transfer_post(
    pre: Store,
    post: Store,
    sender: u128,
    receiver: u128,
    amount: u64,
    narration: Seq<char>,
    meta: Seq<char>,
    srid: u128,
    rrid: u128,
    now: u64,
    r: Result<(), TransferError>,
) -> bool {
    if sender == receiver {
        r == Err::<(), TransferError>(TransferError::SelfTransfer) && store_unchanged(pre, post)
    } else if !has_user_id(pre.users@, sender) {
        r == Err::<(), TransferError>(TransferError::UserNotFound) && store_unchanged(pre, post)
    } else if !verified_user(pre.users@, receiver) {
        r == Err::<(), TransferError>(TransferError::UserNotFound) && store_unchanged(pre, post)
    } else if !has_default_wallet(pre.wallets@, sender) {
        r == Err::<(), TransferError>(TransferError::SenderHasNoWallet) && store_unchanged(
            pre,
            post,
        )
    } else if amount > pre.wallets@[default_wallet_index(pre.wallets@, sender)].current_balance {
        r == Err::<(), TransferError>(TransferError::InsufficientFunds) && store_unchanged(
            pre,
            post,
        )
    } else if !has_default_wallet(pre.wallets@, receiver) {
        r == Err::<(), TransferError>(TransferError::ReceiverHasNoWallet) && store_unchanged(
            pre,
            post,
        )
    } else if !(pre.wallets@[default_wallet_index(pre.wallets@, receiver)].current_balance + amount
        <= u64::MAX && ids_fresh(pre.records@, srid, rrid)) {
        r == Err::<(), TransferError>(TransferError::PersistenceFailure) && store_unchanged(
            pre,
            post,
        )
    } else {
        r == Ok::<(), TransferError>(()) && transfer_ok_post(
            pre,
            post,
            sender,
            receiver,
            amount,
            narration,
            meta,
            srid,
            rrid,
            now,
        )
    }
}

/// `narration` followed by `label` and a party's name: the description put
/// on one side of a transfer.
fn labelled_description(narration: &String, label: &str, name: &String) -> (r: String)
    ensures
        r@ == narration@ + label@ + name@,
{
    let mut r = String::new();
    r.append(narration.as_str());
    r.append(label);
    r.append(name.as_str());
    proof {
        assert(r@ == narration@ + label@ + name@);
    }
    r
}

/// "last-name first-name" of one user.
fn full_name_of(u: &User) -> (r: String)
    ensures
        r@ == full_name(*u),
{
    let mut r = String::new();
    r.append(u.last_name.as_str());
    r.append(" ");
    r.append(u.first_name.as_str());
    proof {
        assert(r@ == full_name(*u));
    }
    r
}

/// Move `amount` from `sender`'s default wallet to `receiver`'s, with the
/// two record identities supplied by the caller. Validations run first; the
/// two ledger mutations then happen inside one unit of work, committed only
/// when both succeed.
pub fn transfer_with_ids(
    store: &mut Store,
    sender: u128,
    receiver: u128,
    amount: u64,
    narration: &String,
    meta: &String,
    sender_record_id: u128,
    receiver_record_id: u128,
    now: u64,
) -> (r: Result<(), TransferError>)
    requires
        old(store).wf(),
        amount >= 1,
    ensures
        final (store).wf(),
        transfer_post(
            *old(store),
            *final (store),
            sender,
            receiver,
            amount,
            narration@,
            meta@,
            sender_record_id,
            receiver_record_id,
            now,
            r,
        ),
{
    let ghost pre = *store;

    // Preconditions checked before any mutation.
    if sender == receiver {
        return Err(TransferError::SelfTransfer);
    }
    let sender_user_idx = match find_user_by_id(&store.users, sender) {
        Some(i) => i,
        None => {
            return Err(TransferError::UserNotFound);
        },
    };
    let receiver_user_idx = match find_user_by_id(&store.users, receiver) {
        Some(i) => i,
        None => {
            return Err(TransferError::UserNotFound);
        },
    };
    if !store.users[receiver_user_idx].is_verified {
        return Err(TransferError::UserNotFound);
    }
    let sender_name = full_name_of(&store.users[sender_user_idx]);
    let receiver_name = full_name_of(&store.users[receiver_user_idx]);

    // One atomic unit of work around both wallet reads and both mutations.
    let mut uow = store.begin();

    let si = match find_default_wallet(&uow.wallets, sender) {
        Some(i) => i,
        None => {
            uow.rollback();
            return Err(TransferError::SenderHasNoWallet);
        },
    };
    let sender_wallet = uow.wallets[si];
    if amount > sender_wallet.current_balance {
        uow.rollback();
        return Err(TransferError::InsufficientFunds);
    }
    let ri = match find_default_wallet(&uow.wallets, receiver) {
        Some(i) => i,
        None => {
            uow.rollback();
            return Err(TransferError::ReceiverHasNoWallet);
        },
    };
    let receiver_wallet = uow.wallets[ri];
    if sender_wallet.uuid == receiver_wallet.uuid {
        // Unreachable: distinct users' default wallets are distinct rows.
        proof {
            assert(si != ri);
            assert(false);
        }
        uow.rollback();
        return Err(TransferError::SelfTransfer);
    }
    proof {
        assert(si != ri);
    }

    // Debit the sender.
    let debit_entry = TransactionBalance {
        uuid: sender_record_id,
        amount,
        trx_type: TransactionType::Debit,
        status: TransactionStatus::Successful,
        description: labelled_description(narration, " - TO ", &receiver_name),
        provider_reference: Some(receiver_record_id),
        user_id: sender,
        wallet_id: sender_wallet.uuid,
        provider: String::from_str("money-transfer"),
        fees: None,
        provider_fees: None,
        category: TrxCategory::P2P,
        meta: meta.clone(),
    };
    let ghost debit_entry_g = debit_entry;
    proof {
        assert(wallet_id_index(uow.wallets@, sender_wallet.uuid) == si as int);
    }
    let debit_result = uow.save_transaction_update_balance(debit_entry, now);
    if debit_result.is_err() {
        proof {
            assert(!ids_fresh(pre.records@, sender_record_id, receiver_record_id));
        }
        uow.rollback();
        return Err(TransferError::PersistenceFailure);
    }
    let ghost debit_record = entry_record(
        debit_entry_g,
        sender_wallet.current_balance,
        (sender_wallet.current_balance - amount) as u64,
        now,
    );

    // Credit the receiver.
    let credit_entry = TransactionBalance {
        uuid: receiver_record_id,
        amount,
        trx_type: TransactionType::Credit,
        status: TransactionStatus::Successful,
        description: labelled_description(narration, " - FROM ", &sender_name),
        provider_reference: Some(sender_record_id),
        user_id: receiver,
        wallet_id: receiver_wallet.uuid,
        provider: String::from_str("money-transfer"),
        fees: None,
        provider_fees: None,
        category: TrxCategory::P2P,
        meta: meta.clone(),
    };
    let ghost credit_entry_g = credit_entry;
    proof {
        assert(uow.wallets@[ri as int] == wallet_after(receiver_wallet, receiver_wallet.current_balance, now) || uow.wallets@[ri as int] == receiver_wallet) by {
            assert(uow.wallets@[ri as int] == pre.wallets@[ri as int]);
        }
        assert(uow.wallets@[ri as int].uuid == receiver_wallet.uuid);
        assert(wallet_id_index(uow.wallets@, receiver_wallet.uuid) == ri as int) by {
            let j = wallet_id_index(uow.wallets@, receiver_wallet.uuid);
            assert(0 <= j < uow.wallets@.len() && uow.wallets@[j].uuid == receiver_wallet.uuid);
        }
        // The pushed debit record's provider reference and id, needed to
        // relate the credit insert's uniqueness checks to the pre state.
        assert(debit_record.provider_reference == Some(receiver_record_id));
        assert(debit_record.uuid == sender_record_id);
    }
    let credit_result = uow.save_transaction_update_balance(credit_entry, now);
    if credit_result.is_err() {
        proof {
            let rs1 = pre.records@.push(debit_record);
            if has_record_id(rs1, receiver_record_id) {
                let k = choose|k: int|
                    0 <= k < rs1.len() && rs1[k].uuid == receiver_record_id;
                if k < pre.records@.len() {
                    assert(has_record_id(pre.records@, receiver_record_id));
                } else {
                    assert(sender_record_id == receiver_record_id);
                }
            }
            if has_provider_reference(rs1, sender_record_id) {
                let k = choose|k: int|
                    0 <= k < rs1.len() && rs1[k].provider_reference == Some(sender_record_id);
                if k < pre.records@.len() {
                    assert(has_provider_reference(pre.records@, sender_record_id));
                } else {
                    assert(receiver_record_id == sender_record_id);
                }
            }
            assert(!(pre.wallets@[default_wallet_index(pre.wallets@, receiver)].current_balance
                + amount <= u64::MAX && ids_fresh(
                pre.records@,
                sender_record_id,
                receiver_record_id,
            )));
        }
        uow.rollback();
        return Err(TransferError::PersistenceFailure);
    }

    proof {
        // Freshness of both ids over the pre state, from the success of both
        // uniqueness checks.
        let rs1 = pre.records@.push(debit_record);
        assert(!has_record_id(pre.records@, receiver_record_id)) by {
            if has_record_id(pre.records@, receiver_record_id) {
                let k = choose|k: int|
                    0 <= k < pre.records@.len() && pre.records@[k].uuid == receiver_record_id;
                assert(rs1[k].uuid == receiver_record_id);
                assert(has_record_id(rs1, receiver_record_id));
            }
        }
        assert(!has_provider_reference(pre.records@, sender_record_id)) by {
            if has_provider_reference(pre.records@, sender_record_id) {
                let k = choose|k: int|
                    0 <= k < pre.records@.len() && pre.records@[k].provider_reference == Some(
                        sender_record_id,
                    );
                assert(rs1[k].provider_reference == Some(sender_record_id));
                assert(has_provider_reference(rs1, sender_record_id));
            }
        }
        assert(sender_record_id != receiver_record_id) by {
            if sender_record_id == receiver_record_id {
                assert(rs1[pre.records@.len() as int].uuid == receiver_record_id);
                assert(has_record_id(rs1, receiver_record_id));
            }
        }
        assert(ids_fresh(pre.records@, sender_record_id, receiver_record_id));
    }

    // Both mutations succeeded: make them visible as a whole.
    let ghost uow_final = uow;
    store.commit(uow);
    proof {
        let n = pre.records@.len() as int;
        let credit_record = entry_record(
            credit_entry_g,
            receiver_wallet.current_balance,
            (receiver_wallet.current_balance + amount) as u64,
            now,
        );
        assert(store.records@ == pre.records@.push(debit_record).push(credit_record));
        assert(store.records@.subrange(0, n) =~= pre.records@);
        assert(store.records@[n] == debit_record);
        assert(store.records@[n + 1] == credit_record);
        assert(transfer_ok_post(
            pre,
            *store,
            sender,
            receiver,
            amount,
            narration@,
            meta@,
            sender_record_id,
            receiver_record_id,
            now,
        ));
    }
    Ok(())
}

/// Move `amount` from `sender`'s default wallet to `receiver`'s, generating
/// the two record identities and the timestamp on the spot. The identities
/// are random and the clock is external, so the contract holds for whatever
/// values came back; a (vanishingly unlikely) identity collision surfaces as
/// a persistence failure, like any other constraint violation. Everything
/// except the generated identities and timestamps is pinned by
/// [`transfer_outcome`].
pub fn transfer(
    store: &mut Store,
    sender: u128,
    receiver: u128,
    amount: u64,
    narration: &String,
    meta: &String,
) -> (r: Result<(), TransferError>)
    requires
        old(store).wf(),
        amount >= 1,
    ensures
        final (store).wf(),
        exists|srid: u128, rrid: u128, now: u64|
            transfer_post(
                *old(store),
                *final (store),
                sender,
                receiver,
                amount,
                narration@,
                meta@,
                srid,
                rrid,
                now,
                r,
            ),
        transfer_outcome(*old(store), *final (store), sender, receiver, amount, r),
{
    let ghost pre = *store;
    let sender_record_id = fresh_record_id();
    let receiver_record_id = fresh_record_id();
    let now = now_millis();
    let r = transfer_with_ids(
        store,
        sender,
        receiver,
        amount,
        narration,
        meta,
        sender_record_id,
        receiver_record_id,
        now,
    );
    proof {
        if r is Ok {
            let si = default_wallet_index(pre.wallets@, sender);
            let ri = default_wallet_index(pre.wallets@, receiver);
            assert(transfer_ok_post(
                pre,
                *store,
                sender,
                receiver,
                amount,
                narration@,
                meta@,
                sender_record_id,
                receiver_record_id,
                now,
            ));
            assert(0 <= si < pre.wallets@.len() && pre.wallets@[si].user_id == sender
                && pre.wallets@[si].is_default);
            assert(0 <= ri < pre.wallets@.len() && pre.wallets@[ri].user_id == receiver
                && pre.wallets@[ri].is_default);
            assert(si != ri);
        }
    }
    r
}

/// The part of a transfer's behaviour that does not depend on the generated
/// record identities or the clock: each validation error comes exactly on
/// its condition, a refused transfer changes nothing, and a committed one
/// moves exactly `amount` between the two default wallets and appends the
/// linked debit/credit pair.
pub open spec fn transfer_outcome(
    pre: Store,
    post: Store,
    sender: u128,
    receiver: u128,
    amount: u64,
    r: Result<(), TransferError>,
) -> bool {
    let si = default_wallet_index(pre.wallets@, sender);
    let ri = default_wallet_index(pre.wallets@, receiver);
    let participants_ok = sender != receiver && has_user_id(pre.users@, sender) && verified_user(
        pre.users@,
        receiver,
    );
    let n = pre.records@.len() as int;
    &&& (r == Err::<(), TransferError>(TransferError::SelfTransfer) <==> sender == receiver)
    &&& (r == Err::<(), TransferError>(TransferError::UserNotFound) <==> sender != receiver && !(
    has_user_id(pre.users@, sender) && verified_user(pre.users@, receiver)))
    &&& (r == Err::<(), TransferError>(TransferError::SenderHasNoWallet) <==> participants_ok
        && !has_default_wallet(pre.wallets@, sender))
    &&& (r == Err::<(), TransferError>(TransferError::InsufficientFunds) <==> participants_ok
        && has_default_wallet(pre.wallets@, sender) && amount > pre.wallets@[si].current_balance)
    &&& (r == Err::<(), TransferError>(TransferError::ReceiverHasNoWallet) <==> participants_ok
        && has_default_wallet(pre.wallets@, sender) && amount <= pre.wallets@[si].current_balance
        && !has_default_wallet(pre.wallets@, receiver))
    &&& (r is Err ==> store_unchanged(pre, post))
    &&& (r is Ok ==> post.users@ == pre.users@ && post.wallets@.len() == pre.wallets@.len()
        && post.wallets@[si].current_balance == pre.wallets@[si].current_balance - amount
        && post.wallets@[ri].current_balance == pre.wallets@[ri].current_balance + amount && (
    forall|k: int|
        0 <= k < pre.wallets@.len() && k != si && k != ri ==> post.wallets@[k] == pre.wallets@[k])
        && post.records@.len() == n + 2 && post.records@.subrange(0, n) == pre.records@
        && post.records@[n].provider_reference == Some(post.records@[n + 1].uuid)
        && post.records@[n + 1].provider_reference == Some(post.records@[n].uuid)
        && post.records@[n].trx_type == TransactionType::Debit && post.records@[n + 1].trx_type
        == TransactionType::Credit && post.records@[n].amount == amount && post.records@[n
        + 1].amount == amount && post.records@[n].current_balance
        == post.wallets@[si].current_balance && post.records@[n + 1].current_balance
        == post.wallets@[ri].current_balance)
}

/// The narration put on a transfer when the caller supplied none.
pub fn narration_or_default(narration: Option<String>) -> (r: String)
    ensures
        narration is Some ==> r == narration->0,
        narration is None ==> r@ == "Wallet Transfer"@,
{
    match narration {
        Some(n) => n,
        None => String::from_str("Wallet Transfer"),
    }
}

/// The total of all current balances in minor units.
pub open spec fn sum_balances(ws: Seq<Wallet>) -> int
    decreases ws.len(),
{
    if ws.len() == 0 {
        0
    } else {
        sum_balances(ws.drop_last()) + ws.last().current_balance
    }
}

/// Replacing one wallet moves the total by exactly the balance difference.
pub proof fn lemma_sum_balances_update(ws: Seq<Wallet>, i: int, w: Wallet)
    requires
        0 <= i < ws.len(),
    ensures
        sum_balances(ws.update(i, w)) == sum_balances(ws) - ws[i].current_balance
            + w.current_balance,
    decreases ws.len(),
{
    let updated = ws.update(i, w);
    if i == ws.len() - 1 {
        assert(updated.drop_last() =~= ws.drop_last());
        assert(updated.last() == w);
    } else {
        assert(updated.drop_last() =~= ws.drop_last().update(i, w));
        assert(updated.last() == ws.last());
        lemma_sum_balances_update(ws.drop_last(), i, w);
    }
}

/// Conservation of funds: a committed transfer leaves the sum of the
/// sender's and the receiver's balances exactly where it was. Stated over
/// the public contract of [`transfer_with_ids`], for any inputs on which it
/// returned success.
pub proof fn lemma_transfer_conserves_funds(
    pre: Store,
    post: Store,
    sender: u128,
    receiver: u128,
    amount: u64,
    narration: Seq<char>,
    meta: Seq<char>,
    srid: u128,
    rrid: u128,
    now: u64,
)
    requires
        pre.wf(),
        transfer_post(
            pre,
            post,
            sender,
            receiver,
            amount,
            narration,
            meta,
            srid,
            rrid,
            now,
            Ok(()),
        ),
    ensures
        ({
            let si = default_wallet_index(pre.wallets@, sender);
            let ri = default_wallet_index(pre.wallets@, receiver);
            post.wallets@[si].current_balance + post.wallets@[ri].current_balance
                == pre.wallets@[si].current_balance + pre.wallets@[ri].current_balance
        }),
{
    let si = default_wallet_index(pre.wallets@, sender);
    let ri = default_wallet_index(pre.wallets@, receiver);
    assert(0 <= si < pre.wallets@.len() && pre.wallets@[si].user_id == sender
        && pre.wallets@[si].is_default);
    assert(0 <= ri < pre.wallets@.len() && pre.wallets@[ri].user_id == receiver
        && pre.wallets@[ri].is_default);
    assert(si != ri);
}

/// Conservation of funds over the whole ledger: a committed transfer leaves
/// the total of all wallet balances exactly where it was — money moves,
/// none is created or destroyed.
pub proof fn lemma_transfer_conserves_total(
    pre: Store,
    post: Store,
    sender: u128,
    receiver: u128,
    amount: u64,
    narration: Seq<char>,
    meta: Seq<char>,
    srid: u128,
    rrid: u128,
    now: u64,
)
    requires
        pre.wf(),
        transfer_post(
            pre,
            post,
            sender,
            receiver,
            amount,
            narration,
            meta,
            srid,
            rrid,
            now,
            Ok(()),
        ),
    ensures
        sum_balances(post.wallets@) == sum_balances(pre.wallets@),
{
    let si = default_wallet_index(pre.wallets@, sender);
    let ri = default_wallet_index(pre.wallets@, receiver);
    assert(0 <= si < pre.wallets@.len() && pre.wallets@[si].user_id == sender
        && pre.wallets@[si].is_default);
    assert(0 <= ri < pre.wallets@.len() && pre.wallets@[ri].user_id == receiver
        && pre.wallets@[ri].is_default);
    assert(si != ri);
    let sw = pre.wallets@[si];
    let rw = pre.wallets@[ri];
    let debited = pre.wallets@.update(si, wallet_after(sw, (sw.current_balance - amount) as u64, now));
    lemma_sum_balances_update(pre.wallets@, si, wallet_after(sw, (sw.current_balance - amount) as u64, now));
    assert(debited[ri] == rw);
    lemma_sum_balances_update(debited, ri, wallet_after(rw, (rw.current_balance + amount) as u64, now));
}

/// Pair linkage: a committed transfer appends exactly two records, a debit
/// and a credit of the full amount, whose `provider_reference` fields point
/// at each other's id and whose balance snapshots equal each wallet's
/// post-transfer balance. Stated over the public contract of
/// [`transfer_with_ids`], for any inputs on which it returned success.
pub proof fn lemma_transfer_pair_linkage(
    pre: Store,
    post: Store,
    sender: u128,
    receiver: u128,
    amount: u64,
    narration: Seq<char>,
    meta: Seq<char>,
    srid: u128,
    rrid: u128,
    now: u64,
)
    requires
        pre.wf(),
        transfer_post(
            pre,
            post,
            sender,
            receiver,
            amount,
            narration,
            meta,
            srid,
            rrid,
            now,
            Ok(()),
        ),
    ensures
        post.records@.len() == pre.records@.len() + 2,
        ({
            let n = pre.records@.len() as int;
            let si = default_wallet_index(pre.wallets@, sender);
            let ri = default_wallet_index(pre.wallets@, receiver);
            let debit = post.records@[n];
            let credit = post.records@[n + 1];
            &&& debit.provider_reference == Some(credit.uuid)
            &&& credit.provider_reference == Some(debit.uuid)
            &&& debit.trx_type == TransactionType::Debit
            &&& credit.trx_type == TransactionType::Credit
            &&& debit.amount == amount
            &&& credit.amount == amount
            &&& debit.current_balance == post.wallets@[si].current_balance
            &&& credit.current_balance == post.wallets@[ri].current_balance
        }),
{
    let si = default_wallet_index(pre.wallets@, sender);
    let ri = default_wallet_index(pre.wallets@, receiver);
    assert(0 <= si < pre.wallets@.len() && pre.wallets@[si].user_id == sender
        && pre.wallets@[si].is_default);
    assert(0 <= ri < pre.wallets@.len() && pre.wallets@[ri].user_id == receiver
        && pre.wallets@[ri].is_default);
    assert(si != ri);
}

/// The audit trail is append-only: whatever a transfer returns, every record
/// that existed before still exists, unchanged and in place.
pub proof fn lemma_transfer_audit_append_only(
    pre: Store,
    post: Store,
    sender: u128,
    receiver: u128,
    amount: u64,
    narration: Seq<char>,
    meta: Seq<char>,
    srid: u128,
    rrid: u128,
    now: u64,
    r: Result<(), TransferError>,
)
    requires
        pre.wf(),
        transfer_post(pre, post, sender, receiver, amount, narration, meta, srid, rrid, now, r),
    ensures
        post.records@.len() >= pre.records@.len(),
        post.records@.subrange(0, pre.records@.len() as int) == pre.records@,
{
    let n = pre.records@.len() as int;
    assert(pre.records@.subrange(0, n) =~= pre.records@);
}

} // verus!
