//! Data model of the ledger: users, wallets and immutable transaction
//! records, together with the field bundle handed to the ledger engine.

use vstd::prelude::*;
use vstd::string::StringExecFns;

verus! {

/// Direction of a ledger mutation: a credit raises the wallet balance, a
/// debit lowers it.
#[derive(Clone, Copy, PartialEq, Eq, Structural, Debug)]
pub enum TransactionType {
    Credit,
    Debit,
}

/// Settlement state of a transaction record. The ledger engine only ever
/// writes `Successful`; `Pending` and `Failed` are reserved states kept for
/// asynchronous settlement flows.
#[derive(Clone, Copy, PartialEq, Eq, Structural, Debug)]
pub enum TransactionStatus {
    Successful,
    Pending,
    Failed,
}

/// Business category of a transaction record.
#[derive(Clone, Copy, PartialEq, Eq, Structural, Debug)]
pub enum TrxCategory {
    P2P,
    Funding,
    Outward,
}

impl TrxCategory {
    /// Category name as stored on a transaction record.
    pub fn to_string(&self) -> (r: String)
        ensures
            self is Funding ==> r@ == "funding"@,
            self is P2P ==> r@ == "p2p"@,
            self is Outward ==> r@ == "outward"@,
    {
        match self {
            TrxCategory::Funding => String::from_str("funding"),
            TrxCategory::P2P => String::from_str("p2p"),
            TrxCategory::Outward => String::from_str("outward"),
        }
    }
}

/// An account holder. Wallets are keyed by the owning user's id.
pub struct User {
    pub uuid: u128,
    pub email: String,
    pub first_name: String,
    pub last_name: String,
    pub is_verified: bool,
}

/// A user's balance-holding record. Balances are minor currency units; a
/// `u64` representation makes a negative committed balance unrepresentable.
#[derive(Clone, Copy)]
pub struct Wallet {
    pub uuid: u128,
    pub user_id: u128,
    pub is_default: bool,
    pub current_balance: u64,
    pub previous_balance: u64,
    pub updated_at: u64,
}

/// One immutable ledger entry: the audit trail of a balance mutation. It is
/// created exactly once, by the ledger engine, and never updated or deleted.
pub struct TransactionRecord {
    pub uuid: u128,
    pub amount: u64,
    pub trx_type: TransactionType,
    pub status: TransactionStatus,
    pub description: String,
    /// External payment-provider reference for funding records, or the
    /// paired record's id for peer-to-peer records. Unique when present:
    /// this is the idempotency key for provider-originated events.
    pub provider_reference: Option<u128>,
    /// Wallet balance right after this mutation.
    pub current_balance: u64,
    /// Wallet balance right before this mutation.
    pub previous_balance: u64,
    pub user_id: u128,
    pub wallet_id: u128,
    /// Source system name, e.g. "paystack" or "money-transfer".
    pub provider: String,
    pub fees: u64,
    pub provider_fees: u64,
    pub category: TrxCategory,
    /// Free-form serialized context, supplied by the caller.
    pub meta: String,
    pub created_at: u64,
}

} // verus!
