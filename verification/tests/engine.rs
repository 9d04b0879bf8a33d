//! The connection pool and the transaction guard: leases, rollback on every
//! uncommitted exit, and the terminal commit.

use onboarding::auth_service::AuthService;
use onboarding::connection::{
    create_pool, Connection, Database, GuardError, PoolError, RowUpdate, Transaction,
};
use onboarding::jwt_session::Claims;
use onboarding::model::RegisterRequest;
use onboarding::stage::Stage;
use onboarding::user_service::UserService;

fn request(email: &str) -> RegisterRequest {
    RegisterRequest {
        email: Some(email.to_string()),
        password: Some("hunter2hunter2".to_string()),
        mobile_phone: Some("0812000111".to_string()),
        full_name: Some("Ayu Lestari".to_string()),
        bank_account_number: Some("1234567890".to_string()),
        bank_name: Some("First Bank".to_string()),
        bank_account_holder: Some("Ayu Lestari".to_string()),
        question_rdn: 1,
        sales: 3,
        referal: "REF01".to_string(),
        client_category: 1,
        app_ipaddress: "127.0.0.1".to_string(),
    }
}

fn one_record() -> Database {
    let mut pool = create_pool(2);
    let mut db = Database::empty();
    assert!(AuthService::register(&mut pool, &mut db, request("ayu@example.com"), 1000).result);
    db
}

fn take_connection() -> Connection {
    let mut pool = create_pool(1);
    pool.acquire().unwrap()
}

#[test]
fn the_pool_hands_out_its_capacity_and_then_reports_exhaustion() {
    let mut pool = create_pool(2);
    let first = pool.acquire();
    let second = pool.acquire();
    assert!(first.is_ok());
    assert!(second.is_ok());
    match pool.acquire() {
        Err(PoolError::PoolExhausted) => {},
        _ => panic!("an empty pool must report exhaustion"),
    }
    pool.release(first.unwrap());
    assert!(pool.acquire().is_ok());
}

#[test]
fn an_uncommitted_guard_rolls_back_every_mutation() {
    let db = one_record();
    let conn = take_connection();
    let mut guard = Transaction::begin(conn, db);
    let i = guard.find_index(1).unwrap();
    assert!(guard.apply(i, RowUpdate::StageTo(Stage::Finished)).is_ok());
    assert!(guard.apply(i, RowUpdate::Finished(true)).is_ok());
    // No commit: finishing must restore the store exactly.
    let (conn, db) = guard.finish();
    let mut pool = create_pool(1);
    let session = Claims::new(1, "ayu@example.com".to_string(), true, 1000);
    let info = UserService::get_user_info(&mut pool, &db, &session).data.unwrap();
    assert_eq!(info.stage, 1);
    assert!(!info.is_finished);
    // The connection comes back with no transaction open: a fresh guard
    // on the same connection starts cleanly.
    let mut guard = Transaction::begin(conn, db);
    assert!(guard.commit().is_ok());
    let (_, _) = guard.finish();
}

#[test]
fn a_committed_guard_keeps_its_mutations() {
    let db = one_record();
    let conn = take_connection();
    let mut guard = Transaction::begin(conn, db);
    let i = guard.find_index(1).unwrap();
    assert!(guard.apply(i, RowUpdate::StageTo(Stage::BankPending)).is_ok());
    assert!(guard.commit().is_ok());
    let (_, db) = guard.finish();
    let mut pool = create_pool(1);
    let session = Claims::new(1, "ayu@example.com".to_string(), true, 1000);
    let info = UserService::get_user_info(&mut pool, &db, &session).data.unwrap();
    assert_eq!(info.stage, 2);
}

#[test]
fn commit_is_terminal() {
    let db = one_record();
    let conn = take_connection();
    let mut guard = Transaction::begin(conn, db);
    let i = guard.find_index(1).unwrap();
    assert!(guard.commit().is_ok());
    // Every mutating call after a successful commit is a programming error.
    assert_eq!(
        guard.apply(i, RowUpdate::StageTo(Stage::Finished)),
        Err(GuardError::AlreadyResolved)
    );
    assert_eq!(guard.commit(), Err(GuardError::AlreadyResolved));
    let (_, db) = guard.finish();
    let mut pool = create_pool(1);
    let session = Claims::new(1, "ayu@example.com".to_string(), true, 1000);
    let info = UserService::get_user_info(&mut pool, &db, &session).data.unwrap();
    assert_eq!(info.stage, 1);
}

#[test]
fn row_counts_follow_committed_registrations() {
    let db = one_record();
    let conn = take_connection();
    let mut guard = Transaction::begin(conn, db);
    assert_eq!(guard.row_count(), 1);
    let (_, db) = guard.finish();
    let mut pool = create_pool(2);
    let mut db = db;
    // A committed registration adds exactly one row.
    assert!(AuthService::register(&mut pool, &mut db, request("second@example.com"), 1500).result);
    let conn = take_connection();
    let guard = Transaction::begin(conn, db);
    assert_eq!(guard.row_count(), 2);
    let (_, _) = guard.finish();
}
