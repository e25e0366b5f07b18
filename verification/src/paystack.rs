//! The payment-provider boundary. The HTTP calls themselves live outside
//! the library; here are the response shapes the provider hands back and
//! the one computation the outbound request needs: the conversion of a
//! major-unit amount into the provider's minor currency units.

use vstd::prelude::*;

verus! {

/// Provider response to a funding initiation.
pub struct InitiateFundingResponse {
    pub status: bool,
    pub message: String,
    pub data: Option<InitiateFundingResponseData>,
}

/// The checkout hand-off of a funding initiation.
pub struct InitiateFundingResponseData {
    pub authorization_url: String,
    pub access_code: String,
    pub reference: String,
}

/// The provider expects amounts in minor currency units: a hundred times
/// the major-unit amount, or nothing when that cannot be represented.
pub fn funding_amount_minor(amount: u64) -> (r: Option<u64>)
    ensures
        amount * 100 <= u64::MAX ==> (r == Some((amount * 100) as u64)),
        amount * 100 > u64::MAX ==> r is None,
{
    amount.checked_mul(100)
}

} // verus!
