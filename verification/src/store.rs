//! The backing store of the ledger core: committed users, wallets and
//! transaction records, plus the atomic unit of work that every
//! balance-mutating operation runs inside.
//!
//! A [`UnitOfWork`] starts as a copy of the committed ledger state. Writes go
//! to the copy; [`Store::commit`] makes them visible, while dropping (or
//! [`UnitOfWork::rollback`]-ing) the unit of work discards them all, so no
//! partial mutation is ever observable in the store.

use vstd::prelude::*;

use crate::ledger::{TransactionRecord, User, Wallet};

verus! {

/// No two wallets share an id.
pub open spec fn unique_wallet_ids(ws: Seq<Wallet>) -> bool {
    forall|i: int, j: int| 0 <= i < j < ws.len() ==> ws[i].uuid != ws[j].uuid
}

/// Each user owns at most one default wallet.
pub open spec fn unique_default_wallets(ws: Seq<Wallet>) -> bool {
    forall|i: int, j: int|
        0 <= i < j < ws.len() && ws[i].is_default && ws[j].is_default ==> ws[i].user_id
            != ws[j].user_id
}

/// No two transaction records share an id.
pub open spec fn unique_record_ids(rs: Seq<TransactionRecord>) -> bool {
    forall|i: int, j: int| 0 <= i < j < rs.len() ==> rs[i].uuid != rs[j].uuid
}

/// A provider reference, when present, appears on at most one record: the
/// uniqueness constraint that makes funding idempotent.
pub open spec fn unique_provider_references(rs: Seq<TransactionRecord>) -> bool {
    forall|i: int, j: int|
        0 <= i < j < rs.len() ==> (rs[i].provider_reference is None || rs[i].provider_reference
            != rs[j].provider_reference)
}

/// No two users share an id or an email address.
pub open spec fn unique_users(us: Seq<User>) -> bool {
    forall|i: int, j: int|
        0 <= i < j < us.len() ==> us[i].uuid != us[j].uuid && us[i].email@ != us[j].email@
}

pub open spec fn has_wallet_id(ws: Seq<Wallet>, id: u128) -> bool {
    exists|i: int| 0 <= i < ws.len() && ws[i].uuid == id
}

pub open spec fn wallet_id_index(ws: Seq<Wallet>, id: u128) -> int {
    choose|i: int| 0 <= i < ws.len() && ws[i].uuid == id
}

/// Whether `user` owns a default wallet.
pub open spec fn has_default_wallet(ws: Seq<Wallet>, user: u128) -> bool {
    exists|i: int| 0 <= i < ws.len() && ws[i].user_id == user && ws[i].is_default
}

pub open spec fn default_wallet_index(ws: Seq<Wallet>, user: u128) -> int {
    choose|i: int| 0 <= i < ws.len() && ws[i].user_id == user && ws[i].is_default
}

pub open spec fn has_user_id(us: Seq<User>, id: u128) -> bool {
    exists|i: int| 0 <= i < us.len() && us[i].uuid == id
}

pub open spec fn user_id_index(us: Seq<User>, id: u128) -> int {
    choose|i: int| 0 <= i < us.len() && us[i].uuid == id
}

pub open spec fn has_user_email(us: Seq<User>, email: Seq<char>) -> bool {
    exists|i: int| 0 <= i < us.len() && us[i].email@ == email
}

pub open spec fn user_email_index(us: Seq<User>, email: Seq<char>) -> int {
    choose|i: int| 0 <= i < us.len() && us[i].email@ == email
}

/// Whether some record already carries `id` as its own id.
pub open spec fn has_record_id(rs: Seq<TransactionRecord>, id: u128) -> bool {
    exists|i: int| 0 <= i < rs.len() && rs[i].uuid == id
}

/// Whether some record already carries `id` as its provider reference.
pub open spec fn has_provider_reference(rs: Seq<TransactionRecord>, id: u128) -> bool {
    exists|i: int| 0 <= i < rs.len() && rs[i].provider_reference == Some(id)
}

/// The committed ledger state.
pub struct Store {
    pub users: Vec<User>,
    pub wallets: Vec<Wallet>,
    pub records: Vec<TransactionRecord>,
}

/// An open atomic unit of work: a private copy of the committed wallets and
/// records. `fail_next_record_insert` is a test-harness fault injection
/// point; when set, the next record insert inside this unit of work fails
/// with a persistence error after the balance write has already happened.
pub struct UnitOfWork {
    pub wallets: Vec<Wallet>,
    pub records: Vec<TransactionRecord>,
    pub fail_next_record_insert: bool,
}

impl Store {
    /// Well-formedness of the committed state; established by the
    /// constructors below and preserved by every mutating operation.
    pub open spec fn wf(self) -> bool {
        &&& unique_users(self.users@)
        &&& unique_wallet_ids(self.wallets@)
        &&& unique_default_wallets(self.wallets@)
        &&& unique_record_ids(self.records@)
        &&& unique_provider_references(self.records@)
    }

    /// An empty ledger.
    pub fn new() -> (s: Store)
        ensures
            s.users@ == Seq::<User>::empty(),
            s.wallets@ == Seq::<Wallet>::empty(),
            s.records@ == Seq::<TransactionRecord>::empty(),
            s.wf(),
    {
        Store { users: Vec::new(), wallets: Vec::new(), records: Vec::new() }
    }

    /// Open an atomic unit of work over the current wallets and records.
    pub fn begin(&self) -> (uow: UnitOfWork)
        ensures
            uow.wallets@ == self.wallets@,
            uow.records@ == self.records@,
            !uow.fail_next_record_insert,
    {
        UnitOfWork {
            wallets: copy_wallets(&self.wallets),
            records: copy_records(&self.records),
            fail_next_record_insert: false,
        }
    }

    /// Make the writes of a finished unit of work visible, as a whole.
    pub fn commit(&mut self, uow: UnitOfWork)
        ensures
            final (self).users@ == old(self).users@,
            final (self).wallets@ == uow.wallets@,
            final (self).records@ == uow.records@,
    {
        self.wallets = uow.wallets;
        self.records = uow.records;
    }
}

impl UnitOfWork {
    /// Well-formedness of the working state, mirroring [`Store::wf`].
    pub open spec fn wf(self) -> bool {
        &&& unique_wallet_ids(self.wallets@)
        &&& unique_default_wallets(self.wallets@)
        &&& unique_record_ids(self.records@)
        &&& unique_provider_references(self.records@)
    }

    /// Discard every write made inside this unit of work. The committed
    /// store is untouched: nothing written here ever reached it.
    pub fn rollback(self) {
    }

    /// Arrange for the next record insert in this unit of work to fail,
    /// after the balance write: the fault-injection hook for exercising
    /// atomicity under a mid-unit-of-work persistence failure.
    pub fn inject_record_insert_failure(&mut self)
        ensures
            final (self).wallets@ == old(self).wallets@,
            final (self).records@ == old(self).records@,
            final (self).fail_next_record_insert,
    {
        self.fail_next_record_insert = true;
    }
}

/// Nothing in the store moved.
pub open spec fn store_unchanged(pre: Store, post: Store) -> bool {
    &&& post.users@ == pre.users@
    &&& post.wallets@ == pre.wallets@
    &&& post.records@ == pre.records@
}

/// No negative balance: a wallet's current balance is never negative after
/// any committed mutation. Balances are unsigned minor-unit integers, so a
/// negative committed balance is unrepresentable; the ledger engine's debit
/// precondition and the transfer orchestrator's funds check make the
/// underlying subtraction provably free of underflow rather than wrapping.
pub proof fn lemma_no_negative_balance(s: Store, i: int)
    requires
        0 <= i < s.wallets@.len(),
    ensures
        s.wallets@[i].current_balance >= 0,
        s.wallets@[i].previous_balance >= 0,
{
}

/// Position of the wallet carrying `id`, if any.
pub(crate) fn find_wallet_by_id(ws: &Vec<Wallet>, id: u128) -> (r: Option<usize>)
    requires
        unique_wallet_ids(ws@),
    ensures
        (r is Some) == has_wallet_id(ws@, id),
        r is Some ==> r->0 < ws@.len() && ws@[r->0 as int].uuid == id && r->0 == wallet_id_index(
            ws@,
            id,
        ),
{
    let mut i: usize = 0;
    while i < ws.len()
        invariant
            0 <= i <= ws.len(),
            unique_wallet_ids(ws@),
            forall|k: int| 0 <= k < i ==> ws@[k].uuid != id,
        decreases ws.len() - i,
    {
        if ws[i].uuid == id {
            proof {
                assert(has_wallet_id(ws@, id));
                let j = wallet_id_index(ws@, id);
                assert(0 <= j < ws@.len() && ws@[j].uuid == id);
                assert(j == i as int);
            }
            return Some(i);
        }
        i = i + 1;
    }
    None
}

/// Position of `user`'s default wallet, if any.
pub(crate) fn find_default_wallet(ws: &Vec<Wallet>, user: u128) -> (r: Option<usize>)
    requires
        unique_default_wallets(ws@),
    ensures
        (r is Some) == has_default_wallet(ws@, user),
        r is Some ==> r->0 < ws@.len() && ws@[r->0 as int].user_id == user && ws@[r->0 as int].is_default
            && r->0 == default_wallet_index(ws@, user),
{
    let mut i: usize = 0;
    while i < ws.len()
        invariant
            0 <= i <= ws.len(),
            unique_default_wallets(ws@),
            forall|k: int| 0 <= k < i ==> !(ws@[k].user_id == user && ws@[k].is_default),
        decreases ws.len() - i,
    {
        if ws[i].user_id == user && ws[i].is_default {
            proof {
                assert(has_default_wallet(ws@, user));
                let j = default_wallet_index(ws@, user);
                assert(0 <= j < ws@.len() && ws@[j].user_id == user && ws@[j].is_default);
                assert(j == i as int);
            }
            return Some(i);
        }
        i = i + 1;
    }
    None
}

/// Position of the user carrying `id`, if any.
pub(crate) fn find_user_by_id(us: &Vec<User>, id: u128) -> (r: Option<usize>)
    requires
        unique_users(us@),
    ensures
        (r is Some) == has_user_id(us@, id),
        r is Some ==> r->0 < us@.len() && us@[r->0 as int].uuid == id && r->0 == user_id_index(
            us@,
            id,
        ),
{
    let mut i: usize = 0;
    while i < us.len()
        invariant
            0 <= i <= us.len(),
            unique_users(us@),
            forall|k: int| 0 <= k < i ==> us@[k].uuid != id,
        decreases us.len() - i,
    {
        if us[i].uuid == id {
            proof {
                assert(has_user_id(us@, id));
                let j = user_id_index(us@, id);
                assert(0 <= j < us@.len() && us@[j].uuid == id);
                assert(j == i as int);
            }
            return Some(i);
        }
        i = i + 1;
    }
    None
}

/// Position of the user carrying `email`, if any.
pub(crate) fn find_user_by_email(us: &Vec<User>, email: &String) -> (r: Option<usize>)
    requires
        unique_users(us@),
    ensures
        (r is Some) == has_user_email(us@, email@),
        r is Some ==> r->0 < us@.len() && us@[r->0 as int].email@ == email@ && r->0
            == user_email_index(us@, email@),
{
    let mut i: usize = 0;
    while i < us.len()
        invariant
            0 <= i <= us.len(),
            unique_users(us@),
            forall|k: int| 0 <= k < i ==> us@[k].email@ != email@,
        decreases us.len() - i,
    {
        if us[i].email.eq(email) {
            proof {
                assert(has_user_email(us@, email@));
                let j = user_email_index(us@, email@);
                assert(0 <= j < us@.len() && us@[j].email@ == email@);
                assert(j == i as int);
            }
            return Some(i);
        }
        i = i + 1;
    }
    None
}

/// Whether `id` is already the id of some record.
pub(crate) fn record_id_used(rs: &Vec<TransactionRecord>, id: u128) -> (r: bool)
    ensures
        r == has_record_id(rs@, id),
{
    let mut i: usize = 0;
    while i < rs.len()
        invariant
            0 <= i <= rs.len(),
            forall|k: int| 0 <= k < i ==> rs@[k].uuid != id,
        decreases rs.len() - i,
    {
        if rs[i].uuid == id {
            proof {
                assert(has_record_id(rs@, id));
            }
            return true;
        }
        i = i + 1;
    }
    false
}

/// Whether `id` is already the provider reference of some record.
pub(crate) fn provider_reference_used(rs: &Vec<TransactionRecord>, id: u128) -> (r: bool)
    ensures
        r == has_provider_reference(rs@, id),
{
    let mut i: usize = 0;
    while i < rs.len()
        invariant
            0 <= i <= rs.len(),
            forall|k: int| 0 <= k < i ==> rs@[k].provider_reference != Some(id),
        decreases rs.len() - i,
    {
        let hit = match &rs[i].provider_reference {
            Some(p) => *p == id,
            None => false,
        };
        if hit {
            proof {
                assert(has_provider_reference(rs@, id));
            }
            return true;
        }
        i = i + 1;
    }
    false
}

/// Element-wise copy of a wallet vector.
fn copy_wallets(ws: &Vec<Wallet>) -> (r: Vec<Wallet>)
    ensures
        r@ == ws@,
{
    let mut r: Vec<Wallet> = Vec::new();
    let mut i: usize = 0;
    while i < ws.len()
        invariant
            0 <= i <= ws.len(),
            r@ == ws@.take(i as int),
        decreases ws.len() - i,
    {
        r.push(ws[i]);
        proof {
            assert(r@ == ws@.take(i as int + 1));
        }
        i = i + 1;
    }
    proof {
        assert(ws@.take(ws@.len() as int) == ws@);
    }
    r
}

/// Fieldwise copy of one transaction record.
fn copy_record(rec: &TransactionRecord) -> (r: TransactionRecord)
    ensures
        r == *rec,
{
    TransactionRecord {
        uuid: rec.uuid,
        amount: rec.amount,
        trx_type: rec.trx_type,
        status: rec.status,
        description: rec.description.clone(),
        provider_reference: rec.provider_reference,
        current_balance: rec.current_balance,
        previous_balance: rec.previous_balance,
        user_id: rec.user_id,
        wallet_id: rec.wallet_id,
        provider: rec.provider.clone(),
        fees: rec.fees,
        provider_fees: rec.provider_fees,
        category: rec.category,
        meta: rec.meta.clone(),
        created_at: rec.created_at,
    }
}

/// Element-wise copy of a record vector.
fn copy_records(rs: &Vec<TransactionRecord>) -> (r: Vec<TransactionRecord>)
    ensures
        r@ == rs@,
{
    let mut r: Vec<TransactionRecord> = Vec::new();
    let mut i: usize = 0;
    while i < rs.len()
        invariant
            0 <= i <= rs.len(),
            r@ == rs@.take(i as int),
        decreases rs.len() - i,
    {
        r.push(copy_record(&rs[i]));
        proof {
            assert(r@ == rs@.take(i as int + 1));
        }
        i = i + 1;
    }
    proof {
        assert(rs@.take(rs@.len() as int) == rs@);
    }
    r
}

} // verus!
