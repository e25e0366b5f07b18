//! Runtime configuration, passed in explicitly by the embedding program
//! (which reads it from its environment) so that nothing here depends on
//! ambient state.

use vstd::prelude::*;

verus! {

/// Everything the service needs from its environment: addresses, signing
/// and hashing keys, mail settings, and the payment-provider endpoint and
/// secret.
pub struct EnvConfig {
    pub app_name: String,
    pub port: String,
    pub host: String,
    pub database_url: String,
    pub app_key: String,
    pub hash_key: String,
    pub app_base_url: String,
    pub smtp_provider: String,
    pub smtp_user: String,
    pub smtp_key: String,
    pub from_email: String,
    pub paystack_base_url: String,
    pub paystack_secret: String,
}

} // verus!
