//! Request bodies and token claims exchanged with the HTTP boundary. The
//! boundary itself (parsing, field validation, JWT signing) lives outside
//! the library; these are the plain shapes it hands over, plus the claim
//! construction rules.

use vstd::prelude::*;
use vstd::string::StringExecFns;

verus! {

/// Request to start funding one's own wallet through the provider.
pub struct InitiateFundingBody {
    /// Amount in major currency units.
    pub amount: u64,
    pub password: String,
}

/// Request to transfer funds to another user.
pub struct P2PTransferBody {
    /// Amount in major currency units.
    pub amount: u64,
    pub pin: String,
    pub receiver_id: String,
    pub narration: Option<String>,
}

/// Request to register an account.
pub struct SignupBody {
    pub first_name: String,
    pub last_name: String,
    pub email: String,
    pub password: String,
}

/// Request to log in.
pub struct LoginBody {
    pub email: String,
    pub password: String,
}

/// Query parameters of the account-verification link.
pub struct VerifyAccountParams {
    pub token: String,
}

/// Request to set or change the withdrawal PIN.
pub struct SetWithdrawalPinBody {
    pub new_pin: String,
    pub current_pin: Option<String>,
    pub password: String,
}

/// How long an account-verification token stays valid: three days.
pub const ACCOUNT_VERIFICATION_VALIDITY_SECS: usize = 259200;

/// How long a login token stays valid: sixty minutes.
pub const USER_AUTH_VALIDITY_SECS: usize = 3600;

/// The claims carried by an authentication or verification token.
pub struct TokenClaims {
    pub sub: String,
    pub auth_type: String,
    /// Expiry, as seconds since the Unix epoch.
    pub exp: usize,
    /// Issued-at, as seconds since the Unix epoch.
    pub iat: usize,
}

impl TokenClaims {
    /// Claims of an account-verification token for `sub`, issued at `now`
    /// (seconds since the Unix epoch) and valid for three days.
    pub fn account_verification(sub: String, now: usize) -> (c: TokenClaims)
        requires
            now + ACCOUNT_VERIFICATION_VALIDITY_SECS <= usize::MAX,
        ensures
            c.sub == sub,
            c.auth_type@ == "ACCOUNT_VERIFICATION"@,
            c.iat == now,
            c.exp == now + ACCOUNT_VERIFICATION_VALIDITY_SECS,
    {
        TokenClaims {
            sub,
            auth_type: String::from_str("ACCOUNT_VERIFICATION"),
            exp: now + ACCOUNT_VERIFICATION_VALIDITY_SECS,
            iat: now,
        }
    }

    /// Claims of a login token for `sub`, issued at `now` (seconds since
    /// the Unix epoch) and valid for sixty minutes.
    pub fn user_auth(sub: String, now: usize) -> (c: TokenClaims)
        requires
            now + USER_AUTH_VALIDITY_SECS <= usize::MAX,
        ensures
            c.sub == sub,
            c.auth_type@ == "USER_AUTH"@,
            c.iat == now,
            c.exp == now + USER_AUTH_VALIDITY_SECS,
    {
        TokenClaims {
            sub,
            auth_type: String::from_str("USER_AUTH"),
            exp: now + USER_AUTH_VALIDITY_SECS,
            iat: now,
        }
    }

    /// Whether these claims belong to an account-verification token.
    pub fn is_account_verification(&self) -> (r: bool)
        ensures
            r == (self.auth_type@ == "ACCOUNT_VERIFICATION"@),
    {
        let expected = String::from_str("ACCOUNT_VERIFICATION");
        self.auth_type.eq(&expected)
    }

    /// Whether these claims belong to a login token.
    pub fn is_user_auth(&self) -> (r: bool)
        ensures
            r == (self.auth_type@ == "USER_AUTH"@),
    {
        let expected = String::from_str("USER_AUTH");
        self.auth_type.eq(&expected)
    }
}

} // verus!
