//! Account lifecycle around the ledger: creating a user, verifying an
//! account (which creates the user's single default wallet), and listing a
//! user's wallets. Wallets enter the store only here; thereafter only the
//! ledger engine mutates them.

use vstd::prelude::*;

use crate::ledger::{User, Wallet};
use crate::store::{
    find_default_wallet, find_user_by_email, find_user_by_id, find_wallet_by_id,
    has_default_wallet, has_user_email, has_user_id, has_wallet_id, user_email_index, Store,
};

verus! {

/// Why an account operation was refused.
#[derive(Clone, Copy, PartialEq, Eq, Structural, Debug)]
pub enum AccountError {
    /// A user with this email already exists.
    DuplicateEmail,
    /// A user with this id already exists.
    DuplicateId,
    /// No user carries this email.
    UserNotFound,
    /// The account is already verified (and already has its default wallet).
    AlreadyVerified,
    /// The wallet to be created collides with an existing one.
    DuplicateWallet,
}

/// Why a withdrawal-PIN update was refused.
#[derive(Clone, Copy, PartialEq, Eq, Structural, Debug)]
pub enum PinPolicyError {
    /// The account password did not match.
    WrongPassword,
    /// A PIN is already set, so the current PIN must be supplied.
    MissingCurrentPin,
    /// The supplied current PIN did not match the one on record.
    IncorrectCurrentPin,
    /// The new PIN may not equal the old one.
    SameAsOldPin,
}

/// The decision core of setting or changing the withdrawal PIN. The
/// password and PIN hash comparisons are made by the hashing collaborator
/// at the boundary; this fixes which combination of their outcomes lets the
/// update proceed: a first PIN needs only the password, a PIN change also
/// needs the current PIN, correctly, and a genuinely new value.
pub fn set_pin_decision(
    password_ok: bool,
    has_existing_pin: bool,
    current_pin_supplied: bool,
    current_pin_ok: bool,
    new_equals_old: bool,
) -> (r: Result<(), PinPolicyError>)
    ensures
        r == if !password_ok {
            Err::<(), PinPolicyError>(PinPolicyError::WrongPassword)
        } else if has_existing_pin && !current_pin_supplied {
            Err::<(), PinPolicyError>(PinPolicyError::MissingCurrentPin)
        } else if has_existing_pin && !current_pin_ok {
            Err::<(), PinPolicyError>(PinPolicyError::IncorrectCurrentPin)
        } else if has_existing_pin && new_equals_old {
            Err::<(), PinPolicyError>(PinPolicyError::SameAsOldPin)
        } else {
            Ok::<(), PinPolicyError>(())
        },
{
    if !password_ok {
        return Err(PinPolicyError::WrongPassword);
    }
    if has_existing_pin {
        if !current_pin_supplied {
            return Err(PinPolicyError::MissingCurrentPin);
        }
        if !current_pin_ok {
            return Err(PinPolicyError::IncorrectCurrentPin);
        }
        if new_equals_old {
            return Err(PinPolicyError::SameAsOldPin);
        }
    }
    Ok(())
}

/// The user as stored once its account is verified.
pub open spec fn user_verified(u: User) -> User {
    User {
        uuid: u.uuid,
        email: u.email,
        first_name: u.first_name,
        last_name: u.last_name,
        is_verified: true,
    }
}

/// The fresh default wallet created on account verification.
pub open spec fn initial_wallet(wallet_id: u128, user_id: u128, now: u64) -> Wallet {
    Wallet {
        uuid: wallet_id,
        user_id: user_id,
        is_default: true,
        current_balance: 0,
        previous_balance: 0,
        updated_at: now,
    }
}

/// Selects the wallets a user owns.
pub open spec fn owned_by(user_id: u128) -> spec_fn(Wallet) -> bool {
    |w: Wallet| w.user_id == user_id
}

impl Store {
    /// Register a new, unverified user. The email is expected already
    /// normalized (lower-cased) by the caller.
    pub fn create_user(
        &mut self,
        uuid: u128,
        email: String,
        first_name: String,
        last_name: String,
    ) -> (r: Result<(), AccountError>)
        requires
            old(self).wf(),
        ensures
            final (self).wf(),
            final (self).wallets@ == old(self).wallets@,
            final (self).records@ == old(self).records@,
            has_user_email(old(self).users@, email@) ==> r == Err::<(), AccountError>(
                AccountError::DuplicateEmail,
            ) && final (self).users@ == old(self).users@,
            !has_user_email(old(self).users@, email@) && has_user_id(old(self).users@, uuid) ==> r
                == Err::<(), AccountError>(AccountError::DuplicateId) && final (self).users@ == old(
                self,
            ).users@,
            !has_user_email(old(self).users@, email@) && !has_user_id(old(self).users@, uuid) ==> r
                == Ok::<(), AccountError>(()) && final (self).users@ == old(self).users@.push(
                User { uuid, email, first_name, last_name, is_verified: false },
            ),
    {
        if find_user_by_email(&self.users, &email).is_some() {
            return Err(AccountError::DuplicateEmail);
        }
        if find_user_by_id(&self.users, uuid).is_some() {
            return Err(AccountError::DuplicateId);
        }
        let ghost us = self.users@;
        self.users.push(User { uuid, email, first_name, last_name, is_verified: false });
        proof {
            assert forall|a: int, b: int|
                0 <= a < b < self.users@.len() implies self.users@[a].uuid != self.users@[b].uuid
                && self.users@[a].email@ != self.users@[b].email@ by {
                if b < us.len() {
                    assert(us[a].uuid != us[b].uuid && us[a].email@ != us[b].email@);
                } else {
                    assert(!has_user_id(us, uuid) && !has_user_email(us, self.users@[b].email@));
                }
            }
        }
        Ok(())
    }

    /// Mark the user carrying `email` as verified and create their single
    /// default wallet, with a zero balance, as one step.
    pub fn verify_account(&mut self, email: &String, wallet_id: u128, now: u64) -> (r: Result<
        (),
        AccountError,
    >)
        requires
            old(self).wf(),
        ensures
            final (self).wf(),
            final (self).records@ == old(self).records@,
            ({
                let us = old(self).users@;
                let ws = old(self).wallets@;
                let ui = user_email_index(us, email@);
                if !has_user_email(us, email@) {
                    r == Err::<(), AccountError>(AccountError::UserNotFound) && final (self).users@
                        == us && final (self).wallets@ == ws
                } else if us[ui].is_verified {
                    r == Err::<(), AccountError>(AccountError::AlreadyVerified) && final (
                    self).users@ == us && final (self).wallets@ == ws
                } else if has_wallet_id(ws, wallet_id) || has_default_wallet(ws, us[ui].uuid) {
                    r == Err::<(), AccountError>(AccountError::DuplicateWallet) && final (
                    self).users@ == us && final (self).wallets@ == ws
                } else {
                    r == Ok::<(), AccountError>(()) && final (self).users@ == us.update(
                        ui,
                        user_verified(us[ui]),
                    ) && final (self).wallets@ == ws.push(
                        initial_wallet(wallet_id, us[ui].uuid, now),
                    )
                }
            }),
    {
        let ghost us = self.users@;
        let ghost ws = self.wallets@;
        let ui = match find_user_by_email(&self.users, email) {
            Some(i) => i,
            None => {
                return Err(AccountError::UserNotFound);
            },
        };
        if self.users[ui].is_verified {
            return Err(AccountError::AlreadyVerified);
        }
        let user_id = self.users[ui].uuid;
        if find_wallet_by_id(&self.wallets, wallet_id).is_some() || find_default_wallet(
            &self.wallets,
            user_id,
        ).is_some() {
            return Err(AccountError::DuplicateWallet);
        }

        let verified = User {
            uuid: user_id,
            email: self.users[ui].email.clone(),
            first_name: self.users[ui].first_name.clone(),
            last_name: self.users[ui].last_name.clone(),
            is_verified: true,
        };
        self.users.set(ui, verified);
        self.wallets.push(
            Wallet {
                uuid: wallet_id,
                user_id,
                is_default: true,
                current_balance: 0,
                previous_balance: 0,
                updated_at: now,
            },
        );
        proof {
            assert(self.users@ == us.update(ui as int, user_verified(us[ui as int])));
            assert forall|a: int, b: int|
                0 <= a < b < self.users@.len() implies self.users@[a].uuid != self.users@[b].uuid
                && self.users@[a].email@ != self.users@[b].email@ by {
                assert(us[a].uuid != us[b].uuid && us[a].email@ != us[b].email@);
            }
            assert forall|a: int, b: int|
                0 <= a < b < self.wallets@.len() implies self.wallets@[a].uuid
                != self.wallets@[b].uuid by {
                if b < ws.len() {
                    assert(ws[a].uuid != ws[b].uuid);
                } else {
                    assert(!has_wallet_id(ws, wallet_id));
                }
            }
            assert forall|a: int, b: int|
                0 <= a < b < self.wallets@.len() && self.wallets@[a].is_default
                    && self.wallets@[b].is_default implies self.wallets@[a].user_id
                != self.wallets@[b].user_id by {
                if b < ws.len() {
                    assert(ws[a].is_default && ws[b].is_default);
                } else {
                    assert(!has_default_wallet(ws, user_id));
                }
            }
        }
        Ok(())
    }

    /// Every wallet owned by `user_id`, in store order.
    pub fn my_wallets(&self, user_id: u128) -> (r: Vec<Wallet>)
        ensures
            r@ == self.wallets@.filter(owned_by(user_id)),
    {
        let ghost pred = owned_by(user_id);
        let mut r: Vec<Wallet> = Vec::new();
        let mut i: usize = 0;
        while i < self.wallets.len()
            invariant
                0 <= i <= self.wallets.len(),
                r@ == self.wallets@.take(i as int).filter(pred),
                pred == owned_by(user_id),
            decreases self.wallets.len() - i,
        {
            let w = self.wallets[i];
            proof {
                reveal(Seq::filter);
                let t1 = self.wallets@.take(i as int + 1);
                assert(t1.drop_last() =~= self.wallets@.take(i as int));
                assert(t1.last() == w);
            }
            if w.user_id == user_id {
                r.push(w);
            }
            i = i + 1;
        }
        proof {
            assert(self.wallets@.take(self.wallets@.len() as int) =~= self.wallets@);
        }
        r
    }
}

} // verus!
