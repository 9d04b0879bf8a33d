//! Registration, login and credential maintenance.

use onboarding::auth_service::AuthService;
use onboarding::connection::{create_pool, ConnectionPool, Database};
use onboarding::crypto::encrypt_text;
use onboarding::model::{ChangePasswordRequest, LoginRequest, RegisterRequest, ResetPasswordRequest};

fn request(email: &str) -> RegisterRequest {
    RegisterRequest {
        email: Some(email.to_string()),
        password: Some("hunter2hunter2".to_string()),
        mobile_phone: Some("0812000111".to_string()),
        full_name: Some("Ayu Lestari".to_string()),
        bank_account_number: Some("1234567890".to_string()),
        bank_name: Some("First Bank".to_string()),
        bank_account_holder: Some("Ayu Lestari".to_string()),
        question_rdn: 1,
        sales: 3,
        referal: "REF01".to_string(),
        client_category: 1,
        app_ipaddress: "127.0.0.1".to_string(),
    }
}

fn setup() -> (ConnectionPool, Database) {
    let mut pool = create_pool(4);
    let mut db = Database::empty();
    let outcome = AuthService::register(&mut pool, &mut db, request("ayu@example.com"), 1000);
    assert!(outcome.result, "{}", outcome.message);
    (pool, db)
}

fn login(pool: &mut ConnectionPool, db: &Database, email: &str, password: &str) -> bool {
    let outcome = AuthService::login(
        pool,
        db,
        LoginRequest { email: Some(email.to_string()), password: Some(password.to_string()) },
    );
    outcome.result
}

#[test]
fn registration_stores_a_digest_not_the_password() {
    let (_, db) = setup();
    let auth = &db.row(0).auth;
    assert_eq!(auth.password_hash, encrypt_text("hunter2hunter2"));
    assert_ne!(auth.password_hash, "hunter2hunter2");
    assert_eq!(auth.activate_code.len(), 20);
    assert_eq!(auth.otp_link.len(), 70);
    assert!(auth.disabled_login);
    assert_eq!(auth.register_date, 1000);
}

#[test]
fn registration_rejects_a_taken_email() {
    let (mut pool, mut db) = setup();
    let outcome = AuthService::register(&mut pool, &mut db, request("ayu@example.com"), 2000);
    assert!(!outcome.result);
    assert_eq!(outcome.error.as_deref(), Some("Email already exists"));
    assert_eq!(db.row_count(), 1);
}

#[test]
fn login_accepts_the_registered_credentials_only() {
    let (mut pool, db) = setup();
    assert!(login(&mut pool, &db, "ayu@example.com", "hunter2hunter2"));
    assert!(!login(&mut pool, &db, "ayu@example.com", "wrong-password"));
    assert!(!login(&mut pool, &db, "other@example.com", "hunter2hunter2"));
}

#[test]
fn login_reports_the_authenticated_user() {
    let (mut pool, db) = setup();
    let outcome = AuthService::login(
        &mut pool,
        &db,
        LoginRequest {
            email: Some("ayu@example.com".to_string()),
            password: Some("hunter2hunter2".to_string()),
        },
    );
    assert!(outcome.result);
    assert_eq!(outcome.message, "Welcome ayu@example.com");
    let user = outcome.data.unwrap();
    assert_eq!(user.auth_usernid, 1);
    assert_eq!(user.email, "ayu@example.com");
    assert_eq!(user.mobile_phone, "0812000111");
    assert!(user.disabled_login);
    assert_eq!(user.register_date, 1000);
}

#[test]
fn activation_enables_login_through_the_stored_link() {
    let (mut pool, mut db) = setup();
    let link = db.row(0).auth.otp_link.clone();
    let outcome = AuthService::activation_user(&mut pool, &mut db, link, 1200);
    assert!(outcome.result);
    assert_eq!(outcome.message, "Activation successfully");
    let auth = &db.row(0).auth;
    assert!(!auth.disabled_login);
    assert_eq!(auth.activate_time, 1200);
}

#[test]
fn activation_with_an_unknown_link_is_rejected() {
    let (mut pool, mut db) = setup();
    let outcome =
        AuthService::activation_user(&mut pool, &mut db, "NOSUCHLINK".to_string(), 1200);
    assert!(!outcome.result);
    assert!(outcome.error.is_none());
    assert_eq!(outcome.message, "No user found for email");
}

#[test]
fn the_password_reset_flow_changes_the_password() {
    let (mut pool, mut db) = setup();
    let outcome = AuthService::forget_password(
        &mut pool,
        &mut db,
        ResetPasswordRequest { email: Some("ayu@example.com".to_string()) },
        1300,
    );
    assert!(outcome.result);
    assert_eq!(outcome.message, "Reset password successfully");
    let key = db.row(0).auth.reset_password_key.clone();
    assert_eq!(key.len(), 70);
    assert!(db.row(0).auth.reset_password_flag);
    assert_eq!(db.row(0).auth.reset_password_date, 1300);

    let outcome = AuthService::change_password(
        &mut pool,
        &mut db,
        ChangePasswordRequest {
            email: Some("ayu@example.com".to_string()),
            password: Some("new-password-123".to_string()),
            reset_password_key: key,
        },
    );
    assert!(outcome.result);
    assert_eq!(outcome.message, "Change password successfully");
    assert!(!login(&mut pool, &db, "ayu@example.com", "hunter2hunter2"));
    assert!(login(&mut pool, &db, "ayu@example.com", "new-password-123"));
}

#[test]
fn a_wrong_reset_key_changes_nothing() {
    let (mut pool, mut db) = setup();
    let outcome = AuthService::change_password(
        &mut pool,
        &mut db,
        ChangePasswordRequest {
            email: Some("ayu@example.com".to_string()),
            password: Some("new-password-123".to_string()),
            reset_password_key: "WRONGKEY".to_string(),
        },
    );
    assert!(!outcome.result);
    assert_eq!(outcome.message, "No user found for email");
    assert!(login(&mut pool, &db, "ayu@example.com", "hunter2hunter2"));
}
