//! Outbound mail content. Delivery itself is I/O and lives outside the
//! library; this builds the one message body the service sends, with its
//! exact content pinned down.

use vstd::prelude::*;
use vstd::string::StringExecFns;

use crate::config::EnvConfig;

verus! {

/// One email ready for delivery.
pub struct SendEmail {
    pub to: String,
    pub from: String,
    pub subject: String,
    pub template: String,
}

/// The HTML body of the account-verification email: a greeting for
/// `first_name` around a verification link of the form
/// `<app_base_url>/api/user/verify-account?token=<token>`.
pub fn verify_account_template(first_name: &String, token: &String, env: &EnvConfig) -> (r: String)
    ensures
        r@ == "\n        <html>\n            <body>\n                <p>Hi, "@ + first_name@
            + "</p>\n                <p>Welcome to money transfer,</p>\n                <p>We are delighted to have you.</p>\n                <p>Please verify your email by clicking on the link below:</p>\n                <a href=\""@
            + env.app_base_url@ + "/api/user/verify-account?token="@ + token@
            + "\">Click here to verify your account</a>\n            </body>\n        </html>\n        "@,
{
    let mut r = String::new();
    r.append("\n        <html>\n            <body>\n                <p>Hi, ");
    r.append(first_name.as_str());
    r.append(
        "</p>\n                <p>Welcome to money transfer,</p>\n                <p>We are delighted to have you.</p>\n                <p>Please verify your email by clicking on the link below:</p>\n                <a href=\"",
    );
    r.append(env.app_base_url.as_str());
    r.append("/api/user/verify-account?token=");
    r.append(token.as_str());
    r.append("\">Click here to verify your account</a>\n            </body>\n        </html>\n        ");
    proof {
        assert(r@ == "\n        <html>\n            <body>\n                <p>Hi, "@ + first_name@
            + "</p>\n                <p>Welcome to money transfer,</p>\n                <p>We are delighted to have you.</p>\n                <p>Please verify your email by clicking on the link below:</p>\n                <a href=\""@
            + env.app_base_url@ + "/api/user/verify-account?token="@ + token@
            + "\">Click here to verify your account</a>\n            </body>\n        </html>\n        "@);
    }
    r
}

} // verus!
