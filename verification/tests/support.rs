//! The envelope, the session claims, password digesting and the identifier
//! strings.

use onboarding::crypto::encrypt_text;
use onboarding::envelope::ActionResult;
use onboarding::generic_service::GenericService;
use onboarding::jwt_session::{evaluate_session, AuthError, Claims, SESSION_LIFETIME_SECS};
use onboarding::model::{Company, ListData};
use onboarding::option_service::OptionService;

#[test]
fn the_default_envelope_is_an_empty_negative() {
    let r: ActionResult<(), String> = ActionResult::default();
    assert!(!r.result);
    assert_eq!(r.message, "");
    assert!(r.data.is_none());
    assert!(r.error.is_none());
}

#[test]
fn claims_expire_one_session_lifetime_after_issue() {
    let claims = Claims::new(7, "ayu@example.com".to_string(), true, 1000);
    assert_eq!(claims.exp, 1000 + SESSION_LIFETIME_SECS);
    assert_eq!(claims.expired_token, claims.exp);
    assert_eq!(claims.auth_usernid, 7);
    assert!(claims.result);
    assert!(!claims.is_expired(claims.exp));
    assert!(claims.is_expired(claims.exp + 1));
}

#[test]
fn session_evaluation_rejects_exactly_the_expired() {
    let claims = Claims::new(7, "ayu@example.com".to_string(), true, 1000);
    let exp = claims.exp;
    assert!(evaluate_session(claims, exp).is_ok());
    let claims = Claims::new(7, "ayu@example.com".to_string(), true, 1000);
    assert_eq!(evaluate_session(claims, exp + 1).unwrap_err(), AuthError::ExpiredToken);
}

#[test]
fn password_digesting_is_sha256_in_hexadecimal() {
    // The SHA-256 of "abc" is a published value.
    assert_eq!(
        encrypt_text("abc"),
        "ba7816bf8f01cfea414140de5dae2223b00361a396177a9cb410ff61f20015ad"
    );
    assert_eq!(encrypt_text("").len(), 64);
    assert_ne!(encrypt_text("abc"), encrypt_text("abd"));
    assert_eq!(encrypt_text("abc"), encrypt_text("abc"));
}

#[test]
fn random_strings_have_the_requested_length_and_alphabet() {
    for len in [0usize, 1, 20, 70] {
        let s = GenericService::random_string(len);
        assert_eq!(s.len(), len);
        assert!(s.chars().all(|c| c.is_ascii_uppercase() || c.is_ascii_digit()));
    }
}

#[test]
fn suffix_strings_are_deterministic_and_capped_at_sixty_four() {
    let a = GenericService::random_string_by_suffix(30, "ayu@example.com", "KTP");
    let b = GenericService::random_string_by_suffix(30, "ayu@example.com", "KTP");
    assert_eq!(a, b);
    assert_eq!(a.len(), 30);
    assert!(a.chars().all(|c| c.is_ascii_uppercase() || c.is_ascii_digit()));
    let other = GenericService::random_string_by_suffix(30, "other@example.com", "KTP");
    assert_ne!(a, other);
    let long = GenericService::random_string_by_suffix(100, "ayu@example.com", "KTP");
    assert_eq!(long.len(), 64);
    assert_eq!(&long[..30], a.as_str());
}

#[test]
fn lookup_listings_wrap_into_the_envelope() {
    let rows = vec![
        ListData { data_id: 1, code: "ID".to_string(), description: "Indonesia".to_string() },
        ListData { data_id: 2, code: "SG".to_string(), description: "Singapore".to_string() },
    ];
    let r = OptionService::collect_list(rows, "Country list retrieved successfully");
    assert!(r.result);
    assert_eq!(r.message, "Country list retrieved successfully");
    assert_eq!(r.data.as_ref().unwrap().len(), 2);
    assert_eq!(r.data.as_ref().unwrap()[0].code, "ID");

    let empty = OptionService::collect_list(Vec::new(), "unused");
    assert!(!empty.result);
    assert!(empty.data.is_none());
    assert!(empty.error.is_none());
}

#[test]
fn the_company_row_wraps_into_the_envelope() {
    let r = GenericService::get_company(Some(Company {
        company_id: "C1".to_string(),
        company_name: "PT Maju".to_string(),
    }));
    assert!(r.result);
    assert_eq!(r.message, "Company name");
    assert_eq!(r.data.unwrap().company_name, "PT Maju");
    let none = GenericService::get_company(None);
    assert!(!none.result);
    assert_eq!(none.message, "No company found");
}
