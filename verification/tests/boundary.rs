//! Tests of the boundary helpers: webhook signatures, account lifecycle,
//! token claims, the PIN policy, templates and unit conversion.

use money_transfer::account::{AccountError, PinPolicyError, set_pin_decision};
use money_transfer::config::EnvConfig;
use money_transfer::dto::TokenClaims;
use money_transfer::email::verify_account_template;
use money_transfer::ledger::TrxCategory;
use money_transfer::paystack::funding_amount_minor;
use money_transfer::dto::{
    InitiateFundingBody, LoginBody, P2PTransferBody, SetWithdrawalPinBody, SignupBody,
    VerifyAccountParams,
};
use money_transfer::email::SendEmail;
use money_transfer::paystack::{InitiateFundingResponse, InitiateFundingResponseData};
use money_transfer::signature::validate_signature;
use money_transfer::store::Store;
use money_transfer::transfer::narration_or_default;

fn env_config() -> EnvConfig {
    EnvConfig {
        app_name: "money-transfer-v1".to_string(),
        port: "8080".to_string(),
        host: "127.0.0.1".to_string(),
        database_url: "mysql://localhost/ledger".to_string(),
        app_key: "app-key".to_string(),
        hash_key: "hash-key".to_string(),
        app_base_url: "https://pay.example.com".to_string(),
        smtp_provider: "smtp.example.com".to_string(),
        smtp_user: "mailer".to_string(),
        smtp_key: "SECRET-REDACTED".to_string(),
        from_email: "support@moneytransfer.am".to_string(),
        paystack_base_url: "https://api.paystack.co".to_string(),
        paystack_secret: "SECRET-REDACTED".to_string(),
    }
}

#[test]
fn signature_matches_known_hmac_sha512_vector() {
    // HMAC-SHA-512 test vector (RFC 4231, test case 2): key "Jefe", data
    // "what do ya want for nothing?".
    let payload = "what do ya want for nothing?".to_string();
    let secret = "Jefe".to_string();
    let expected = "164b7a7bfcf819e2e395fbe73b56e0a387bd64222e831fd610270cd7ea2505549758bf75c05a994a6d034f65f8f0e6fdcaeab1a34d4a6b4b636e070a38bce737".to_string();
    assert!(validate_signature(&payload, &expected, &secret));
}

#[test]
fn signature_rejects_wrong_or_tampered_input() {
    let payload = "what do ya want for nothing?".to_string();
    let secret = "Jefe".to_string();
    let wrong = "164b7a7bfcf819e2e395fbe73b56e0a387bd64222e831fd610270cd7ea2505549758bf75c05a994a6d034f65f8f0e6fdcaeab1a34d4a6b4b636e070a38bce738".to_string();
    assert!(!validate_signature(&payload, &wrong, &secret));
    let expected = "164b7a7bfcf819e2e395fbe73b56e0a387bd64222e831fd610270cd7ea2505549758bf75c05a994a6d034f65f8f0e6fdcaeab1a34d4a6b4b636e070a38bce737"
        .to_string();
    let tampered_payload = "what do ya want for nothing!".to_string();
    assert!(!validate_signature(&tampered_payload, &expected, &secret));
    let wrong_secret = "Jeff".to_string();
    assert!(!validate_signature(&payload, &expected, &wrong_secret));
}

#[test]
fn account_creation_rejects_duplicates() {
    let mut s = Store::new();
    assert_eq!(
        s.create_user(1, "ada@example.com".to_string(), "Ada".to_string(), "Lovelace".to_string()),
        Ok(())
    );
    assert_eq!(
        s.create_user(2, "ada@example.com".to_string(), "A".to_string(), "L".to_string()),
        Err(AccountError::DuplicateEmail)
    );
    assert_eq!(
        s.create_user(1, "other@example.com".to_string(), "A".to_string(), "L".to_string()),
        Err(AccountError::DuplicateId)
    );
    assert_eq!(s.users.len(), 1);
}

#[test]
fn account_verification_creates_one_default_wallet() {
    let mut s = Store::new();
    s.create_user(1, "ada@example.com".to_string(), "Ada".to_string(), "Lovelace".to_string())
        .unwrap();
    let email = "ada@example.com".to_string();
    assert_eq!(s.verify_account(&email, 500, 3), Ok(()));
    assert!(s.users[0].is_verified);
    assert_eq!(s.wallets.len(), 1);
    assert_eq!(s.wallets[0].uuid, 500);
    assert_eq!(s.wallets[0].user_id, 1);
    assert!(s.wallets[0].is_default);
    assert_eq!(s.wallets[0].current_balance, 0);
    assert_eq!(s.wallets[0].previous_balance, 0);
    // A second verification is refused, so a second default wallet can never
    // appear.
    assert_eq!(s.verify_account(&email, 501, 4), Err(AccountError::AlreadyVerified));
    let missing = "nobody@example.com".to_string();
    assert_eq!(s.verify_account(&missing, 502, 5), Err(AccountError::UserNotFound));
    assert_eq!(s.wallets.len(), 1);
}

#[test]
fn my_wallets_lists_only_the_owners_wallets() {
    let mut s = Store::new();
    for (id, email) in [(1u128, "a@example.com"), (2u128, "b@example.com")] {
        s.create_user(id, email.to_string(), "F".to_string(), "L".to_string())
            .unwrap();
        let email = email.to_string();
        s.verify_account(&email, 100 + id, 1).unwrap();
    }
    let mine = s.my_wallets(1);
    assert_eq!(mine.len(), 1);
    assert_eq!(mine[0].uuid, 101);
    assert_eq!(s.my_wallets(2)[0].uuid, 102);
    assert!(s.my_wallets(3).is_empty());
}

#[test]
fn token_claims_carry_the_configured_lifetimes() {
    let c = TokenClaims::account_verification("ada@example.com".to_string(), 1_000_000);
    assert_eq!(c.sub, "ada@example.com");
    assert_eq!(c.auth_type, "ACCOUNT_VERIFICATION");
    assert_eq!(c.iat, 1_000_000);
    assert_eq!(c.exp, 1_000_000 + 259_200);
    assert!(c.is_account_verification());
    assert!(!c.is_user_auth());

    let a = TokenClaims::user_auth("1".to_string(), 2_000_000);
    assert_eq!(a.auth_type, "USER_AUTH");
    assert_eq!(a.exp, 2_000_000 + 3_600);
    assert!(a.is_user_auth());
    assert!(!a.is_account_verification());
}

#[test]
fn pin_policy_decides_each_case() {
    // Wrong password always loses.
    assert_eq!(
        set_pin_decision(false, false, false, false, false),
        Err(PinPolicyError::WrongPassword)
    );
    // First PIN: only the password is needed.
    assert_eq!(set_pin_decision(true, false, false, false, false), Ok(()));
    // Changing a PIN without supplying the current one.
    assert_eq!(
        set_pin_decision(true, true, false, false, false),
        Err(PinPolicyError::MissingCurrentPin)
    );
    // Changing a PIN with a wrong current one.
    assert_eq!(
        set_pin_decision(true, true, true, false, false),
        Err(PinPolicyError::IncorrectCurrentPin)
    );
    // The new PIN must differ from the old one.
    assert_eq!(
        set_pin_decision(true, true, true, true, true),
        Err(PinPolicyError::SameAsOldPin)
    );
    // A proper change.
    assert_eq!(set_pin_decision(true, true, true, true, false), Ok(()));
}

#[test]
fn category_names_match_the_stored_values() {
    assert_eq!(TrxCategory::Funding.to_string(), "funding");
    assert_eq!(TrxCategory::P2P.to_string(), "p2p");
    assert_eq!(TrxCategory::Outward.to_string(), "outward");
}

#[test]
fn funding_amounts_convert_to_minor_units() {
    assert_eq!(funding_amount_minor(100), Some(10_000));
    assert_eq!(funding_amount_minor(0), Some(0));
    assert_eq!(funding_amount_minor(u64::MAX / 100), Some(u64::MAX / 100 * 100));
    assert_eq!(funding_amount_minor(u64::MAX / 100 + 1), None);
}

#[test]
fn missing_narration_falls_back_to_the_default() {
    assert_eq!(narration_or_default(Some("Rent".to_string())), "Rent");
    assert_eq!(narration_or_default(None), "Wallet Transfer");
}

#[test]
fn boundary_shapes_round_trip_their_fields() {
    let funding = InitiateFundingBody { amount: 100, password: "pw".to_string() };
    assert_eq!(funding.amount, 100);
    let p2p = P2PTransferBody {
        amount: 100,
        pin: "123456".to_string(),
        receiver_id: "user-2".to_string(),
        narration: None,
    };
    assert!(p2p.narration.is_none());
    let signup = SignupBody {
        first_name: "Ada".to_string(),
        last_name: "Lovelace".to_string(),
        email: "ada@example.com".to_string(),
        password: "pw".to_string(),
    };
    assert_eq!(signup.email, "ada@example.com");
    let login = LoginBody { email: signup.email.clone(), password: "pw".to_string() };
    assert_eq!(login.email, signup.email);
    let params = VerifyAccountParams { token: "tok".to_string() };
    assert_eq!(params.token, "tok");
    let pin = SetWithdrawalPinBody {
        new_pin: "654321".to_string(),
        current_pin: Some("123456".to_string()),
        password: "pw".to_string(),
    };
    assert_eq!(pin.current_pin.as_deref(), Some("123456"));
    let response = InitiateFundingResponse {
        status: true,
        message: "Authorization URL created".to_string(),
        data: Some(InitiateFundingResponseData {
            authorization_url: "https://checkout.example.com/x".to_string(),
            access_code: "code".to_string(),
            reference: "ref-1".to_string(),
        }),
    };
    assert!(response.status);
    assert_eq!(response.data.unwrap().reference, "ref-1");
    let email = SendEmail {
        to: "ada@example.com".to_string(),
        from: "support@moneytransfer.am".to_string(),
        subject: "WELCOME, VERIFY YOUR ACCOUNT".to_string(),
        template: "<html></html>".to_string(),
    };
    assert_eq!(email.subject, "WELCOME, VERIFY YOUR ACCOUNT");
}

#[test]
fn verification_template_embeds_name_and_link() {
    let env = env_config();
    let first_name = "Ada".to_string();
    let token = "tok123".to_string();
    let html = verify_account_template(&first_name, &token, &env);
    let expected = format!(
        "\n        <html>\n            <body>\n                <p>Hi, {}</p>\n                <p>Welcome to money transfer,</p>\n                <p>We are delighted to have you.</p>\n                <p>Please verify your email by clicking on the link below:</p>\n                <a href=\"{}/api/user/verify-account?token={}\">Click here to verify your account</a>\n            </body>\n        </html>\n        ",
        "Ada", "https://pay.example.com", "tok123"
    );
    assert_eq!(html, expected);
}
