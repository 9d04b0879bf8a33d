//! The stage-gated workflow end to end: the onboarding scenarios.

use onboarding::auth_service::AuthService;
use onboarding::connection::{create_pool, ConnectionPool, Database};
use onboarding::jwt_session::Claims;
use onboarding::model::{
    CIFFileRequest, DataBankRequest, DataBeneficiaryRequest, DataPekerjaanRequest,
    DataPendukungRequest, DataPribadiRequest, RegisterRequest, UserInfo,
};
use onboarding::user_service::UserService;

fn register_request(email: &str) -> RegisterRequest {
    RegisterRequest {
        email: Some(email.to_string()),
        password: Some("hunter2hunter2".to_string()),
        mobile_phone: Some("0812000111".to_string()),
        full_name: Some("Ayu Lestari".to_string()),
        bank_account_number: Some("1234567890".to_string()),
        bank_name: Some("First Bank".to_string()),
        bank_account_holder: Some("Ayu Lestari".to_string()),
        question_rdn: 1,
        sales: 3,
        referal: "REF01".to_string(),
        client_category: 1,
        app_ipaddress: "127.0.0.1".to_string(),
    }
}

fn personal_request(owner: i32) -> DataPribadiRequest {
    DataPribadiRequest {
        email: Some("ayu@example.com".to_string()),
        mobile_phone: Some("0812000111".to_string()),
        full_name: Some("Ayu Lestari".to_string()),
        mother_name: Some("Sri Lestari".to_string()),
        idcard_number: Some("317312345678901".to_string()),
        nationality: 62,
        sex: 2,
        residence_status: 1,
        beneficiary_owner: owner,
        birth_place: Some("Jakarta".to_string()),
        birth_date: None,
        birth_country: Some("Indonesia".to_string()),
        religion: 1,
        marital_status: 1,
        education: 4,
        copy_id: Some(true),
        idcard_expireddate: None,
        idcard_country: Some("Indonesia".to_string()),
        idcard_file: String::new(),
        selfie_file: String::new(),
        signature_file: String::new(),
        idcard_city: 10,
        idcard_district: Some("Tebet".to_string()),
        idcard_subdistrict: Some("Tebet Timur".to_string()),
        idcard_rt: Some("003".to_string()),
        idcard_rw: Some("005".to_string()),
        idcard_zipcode: Some("12820".to_string()),
        idcard_address: Some("Jl. Tebet Timur 1".to_string()),
        domicile_city: 10,
        domicile_district: Some("Tebet".to_string()),
        domicile_subdistrict: Some("Tebet Timur".to_string()),
        domicile_rt: Some("003".to_string()),
        domicile_rw: Some("005".to_string()),
        domicile_zipcode: Some("12820".to_string()),
        domicile_address: Some("Jl. Tebet Timur 1".to_string()),
    }
}

fn bank_request(bank_name: &str) -> DataBankRequest {
    DataBankRequest {
        question_rdn: 2,
        bank_name: Some(bank_name.to_string()),
        bank_account_holder: Some("Ayu Lestari".to_string()),
        bank_account_number: Some("9988776655".to_string()),
        bank_branch: Some("Jakarta Selatan".to_string()),
    }
}

fn employment_request() -> DataPekerjaanRequest {
    DataPekerjaanRequest {
        company_name: Some("PT Maju".to_string()),
        company_city: 10,
        company_address: Some("Jl. Sudirman 1".to_string()),
        company_zipcode: Some("10110".to_string()),
        question_npwp: 1,
        npwp_reason: Some("-".to_string()),
        npwp_number: Some("123456789012345".to_string()),
        npwp_file: String::new(),
        fund_source: 1,
        fund_source_text: None,
        occupation: 2,
        occupation_text: None,
        nature_bussiness: 3,
        nature_bussiness_text: None,
        position: 4,
        position_text: None,
        income_peranum: 2,
        spouse_name: Some("Budi".to_string()),
        spouse_relationship: 1,
        spouse_occupation: 2,
        spouse_occupation_text: None,
        spouse_fund_source: 1,
        spouse_fund_source_text: None,
        spouse_position: 1,
        spouse_income_peranum: 1,
        spouse_nature_bussiness: 1,
        spouse_company_name: Some("PT Jaya".to_string()),
        spouse_company_city: 10,
        spouse_company_address: Some("Jl. Thamrin 2".to_string()),
        spouse_company_zipcode: Some("10230".to_string()),
    }
}

fn supporting_request() -> DataPendukungRequest {
    DataPendukungRequest {
        contact_person_name: Some("Budi".to_string()),
        contact_person_relation: Some("Suami".to_string()),
        contact_person_home_phone: None,
        contact_person_mobile_phone: Some("0813111222".to_string()),
        contact_person_address: Some("Jl. Tebet Timur 1".to_string()),
        question_1: false,
        question_1text: None,
        question_2: false,
        question_2text: None,
        question_3: false,
        question_3text: None,
        question_4: false,
        question_4text: None,
        question_5: false,
        question_5text: None,
        question_6: false,
        question_6text: None,
        investment_objective: 1,
        risk: 2,
        question_fatca: Some("N".to_string()),
        fatca_1: Some("N".to_string()),
        fatca_2: Some("N".to_string()),
        fatca_3: Some("N".to_string()),
    }
}

fn beneficiary_request() -> DataBeneficiaryRequest {
    DataBeneficiaryRequest {
        beneficiary_name: Some("Citra".to_string()),
        beneficiary_mother_maiden_name: Some("Dewi".to_string()),
        beneficiary_relation: Some("Ibu".to_string()),
        beneficiary_sex: Some("F".to_string()),
        beneficiary_birth_place: Some("Bandung".to_string()),
        beneficiary_birth_date: None,
        beneficiary_nationality: Some("ID".to_string()),
        beneficiary_idcard_type: Some("KTP".to_string()),
        beneficiary_idcard_number: Some("327312345678901".to_string()),
        beneficiary_idcard_expiredate: None,
        beneficiary_email: Some("citra@example.com".to_string()),
        beneficiary_npwp_number: None,
        beneficiary_address: Some("Jl. Dago 5".to_string()),
        beneficiary_city: Some("Bandung".to_string()),
        beneficiary_province: Some("Jawa Barat".to_string()),
        beneficiary_country: Some("Indonesia".to_string()),
        beneficiary_postalcode: Some("40135".to_string()),
        beneficiary_mobile_phone: Some("0814222333".to_string()),
        beneficiary_occupation: Some("Guru".to_string()),
        beneficiary_fund_source: Some("Gaji".to_string()),
    }
}

/// A pool, a store holding one freshly registered applicant, and that
/// applicant's session.
fn setup() -> (ConnectionPool, Database, Claims) {
    let mut pool = create_pool(4);
    let mut db = Database::empty();
    let outcome = AuthService::register(&mut pool, &mut db, register_request("ayu@example.com"), 1000);
    assert!(outcome.result, "{}", outcome.message);
    let session = Claims::new(1, "ayu@example.com".to_string(), true, 1000);
    (pool, db, session)
}

fn info(pool: &mut ConnectionPool, db: &Database, session: &Claims) -> UserInfo {
    UserService::get_user_info(pool, db, session).data.unwrap()
}

#[test]
fn registration_creates_a_record_at_stage_one() {
    let (mut pool, db, session) = setup();
    let info = info(&mut pool, &db, &session);
    assert_eq!(info.autonid, 1);
    assert_eq!(info.stage, 1);
    assert!(!info.is_finished);
    assert_eq!(info.email, "ayu@example.com");
    assert_eq!(info.bank.bank_name.as_deref(), Some("First Bank"));
    assert_eq!(info.personal.full_name.as_deref(), Some("Ayu Lestari"));
}

#[test]
fn scenario_personal_data_with_self_owner_reaches_stage_two() {
    let (mut pool, mut db, session) = setup();
    let outcome = UserService::save_data_pribadi(&mut pool, &mut db, personal_request(1), &session);
    assert!(outcome.result);
    assert!(outcome.error.is_none());
    let info = info(&mut pool, &db, &session);
    assert_eq!(info.stage, 2);
    assert_eq!(info.beneficiary_owner, 1);
    assert_eq!(info.residence_status, 1);
    assert_eq!(info.personal.mother_name.as_deref(), Some("Sri Lestari"));
}

#[test]
fn scenario_personal_data_twice_is_rejected_and_mutates_nothing() {
    let (mut pool, mut db, session) = setup();
    let first = UserService::save_data_pribadi(&mut pool, &mut db, personal_request(1), &session);
    assert!(first.result);
    let before = info(&mut pool, &db, &session);
    let mut second_request = personal_request(1);
    second_request.mother_name = Some("Someone Else".to_string());
    let second = UserService::save_data_pribadi(&mut pool, &mut db, second_request, &session);
    assert!(!second.result);
    assert!(second.error.is_none());
    assert_eq!(second.message, "stage already passed: this step is already completed");
    let after = info(&mut pool, &db, &session);
    assert_eq!(after.stage, before.stage);
    assert_eq!(after.personal, before.personal);
    assert_eq!(after.personal.mother_name.as_deref(), Some("Sri Lestari"));
}

#[test]
fn scenario_bank_data_too_early_is_rejected() {
    let (mut pool, mut db, session) = setup();
    let outcome = UserService::save_data_bank(&mut pool, &mut db, bank_request("Other Bank"), &session);
    assert!(!outcome.result);
    assert!(outcome.error.is_none());
    assert_eq!(outcome.message, "stage too early: a prerequisite step is not completed");
    let info = info(&mut pool, &db, &session);
    assert_eq!(info.stage, 1);
    assert_eq!(info.bank.bank_name.as_deref(), Some("First Bank"));
}

#[test]
fn scenario_two_bank_attempts_apply_exactly_one_payload() {
    let (mut pool, mut db, session) = setup();
    assert!(UserService::save_data_pribadi(&mut pool, &mut db, personal_request(1), &session).result);
    // Two requests race on the same record at stage 2; serialized by the
    // row lock, the first applies and the second sees stage 3.
    let first = UserService::save_data_bank(&mut pool, &mut db, bank_request("Bank One"), &session);
    let second = UserService::save_data_bank(&mut pool, &mut db, bank_request("Bank Two"), &session);
    assert!(first.result);
    assert!(!second.result);
    assert!(second.error.is_none());
    assert_eq!(second.message, "stage already passed: this step is already completed");
    let info = info(&mut pool, &db, &session);
    assert_eq!(info.stage, 3);
    assert_eq!(info.bank.bank_name.as_deref(), Some("Bank One"));
    assert_eq!(info.bank.bank_branch.as_deref(), Some("Jakarta Selatan"));
}

#[test]
fn self_branch_never_accepts_the_beneficiary_step() {
    let (mut pool, mut db, session) = setup();
    assert!(UserService::save_data_pribadi(&mut pool, &mut db, personal_request(1), &session).result);
    let outcome =
        UserService::save_data_beneficiary(&mut pool, &mut db, beneficiary_request(), &session);
    assert!(!outcome.result);
    assert!(outcome.error.is_none());
    assert_eq!(outcome.message, "stage already passed: this step is already completed");
    let info = info(&mut pool, &db, &session);
    assert_eq!(info.stage, 2);
}

#[test]
fn other_branch_requires_the_beneficiary_step_to_advance() {
    let (mut pool, mut db, session) = setup();
    assert!(UserService::save_data_pribadi(&mut pool, &mut db, personal_request(2), &session).result);
    let mid = info(&mut pool, &db, &session);
    assert_eq!(mid.stage, 1);
    assert_eq!(mid.beneficiary_owner, 2);
    let outcome =
        UserService::save_data_beneficiary(&mut pool, &mut db, beneficiary_request(), &session);
    assert!(outcome.result, "{}", outcome.message);
    let after = info(&mut pool, &db, &session);
    assert_eq!(after.stage, 2);
    let again =
        UserService::save_data_beneficiary(&mut pool, &mut db, beneficiary_request(), &session);
    assert!(!again.result);
    assert_eq!(again.message, "stage already passed: this step is already completed");
}

#[test]
fn invalid_beneficiary_answer_is_rejected() {
    let (mut pool, mut db, session) = setup();
    let outcome = UserService::save_data_pribadi(&mut pool, &mut db, personal_request(9), &session);
    assert!(!outcome.result);
    assert!(outcome.error.is_none());
    assert_eq!(outcome.message, "invalid beneficiary owner");
    assert_eq!(info(&mut pool, &db, &session).stage, 1);
}

#[test]
fn full_walk_finishes_the_record_and_stage_never_decreases() {
    let (mut pool, mut db, session) = setup();
    assert!(UserService::save_data_pribadi(&mut pool, &mut db, personal_request(1), &session).result);
    assert!(UserService::save_data_bank(&mut pool, &mut db, bank_request("Bank One"), &session).result);
    assert!(
        UserService::save_data_pekerjaan(&mut pool, &mut db, employment_request(), &session).result
    );
    assert!(
        UserService::save_data_pendukung(&mut pool, &mut db, supporting_request(), &session).result
    );
    let done = info(&mut pool, &db, &session);
    assert_eq!(done.stage, 5);
    assert!(done.is_finished);
    assert_eq!(done.contact.contact_person_name.as_deref(), Some("Budi"));
    // The employment step may be re-applied, and the stage stays put.
    let mut revised = employment_request();
    revised.company_name = Some("PT Baru".to_string());
    let again = UserService::save_data_pekerjaan(&mut pool, &mut db, revised, &session);
    assert!(again.result);
    let after = info(&mut pool, &db, &session);
    assert_eq!(after.stage, 5);
    assert_eq!(after.employment.company_name.as_deref(), Some("PT Baru"));
}

#[test]
fn employment_before_bank_is_too_early() {
    let (mut pool, mut db, session) = setup();
    assert!(UserService::save_data_pribadi(&mut pool, &mut db, personal_request(1), &session).result);
    let outcome =
        UserService::save_data_pekerjaan(&mut pool, &mut db, employment_request(), &session);
    assert!(!outcome.result);
    assert_eq!(outcome.message, "stage too early: a prerequisite step is not completed");
}

#[test]
fn files_are_stored_for_an_existing_record() {
    let (mut pool, mut db, session) = setup();
    let request = CIFFileRequest {
        idcard_file: "a/ktp.png".to_string(),
        selfie_file: "a/selfie.png".to_string(),
        signature_file: "a/sig.png".to_string(),
    };
    let outcome = UserService::save_cif_file(&mut pool, &mut db, request, &session);
    assert!(outcome.result);
    let info = info(&mut pool, &db, &session);
    assert_eq!(info.files.idcard_file, "a/ktp.png");
    assert_eq!(info.files.selfie_file, "a/selfie.png");
    assert_eq!(info.files.signature_file, "a/sig.png");
}

#[test]
fn missing_record_is_a_business_rejection() {
    let (mut pool, mut db, _) = setup();
    let stranger = Claims::new(99, "ghost@example.com".to_string(), true, 1000);
    let outcome = UserService::save_data_bank(&mut pool, &mut db, bank_request("X"), &stranger);
    assert!(!outcome.result);
    assert!(outcome.error.is_none());
    assert_eq!(outcome.message, "no onboarding record found for this user");
}

#[test]
fn an_exhausted_pool_is_a_fatal_error() {
    let (_, mut db, session) = setup();
    let mut empty_pool = create_pool(0);
    let outcome = UserService::save_data_bank(&mut empty_pool, &mut db, bank_request("X"), &session);
    assert!(!outcome.result);
    assert_eq!(outcome.error.as_deref(), Some("connection pool exhausted"));
    assert_eq!(info(&mut create_pool(1), &db, &session).stage, 1);
}
