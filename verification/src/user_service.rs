//! The step processors: each onboarding step reads the record's stage inside
//! the same transaction that performs the mutation, asks [`StageGate`], and
//! either applies the step's whole row mutation and commits, or leaves the
//! transaction to roll back and reports why.

use vstd::prelude::*;
use crate::connection::{ConnectionPool, Database, Transaction, RowUpdate, apply_update_spec,
    find_row, lemma_find_row};
use crate::envelope::ActionResult;
use crate::jwt_session::Claims;
use crate::model::{BankFields, BeneficiaryFields, CIFFileRequest, ContactFields, CustomerRow,
    DataBankRequest, DataBeneficiaryRequest, DataPekerjaanRequest, DataPendukungRequest,
    DataPribadiRequest, EmploymentFields, FileRefs, PersonalFields, SupportingFields, UserInfo};
use crate::stage::{gate_spec, stage_max, stage_num, GateDecision, Stage, StageGate, Step};

verus! {

/// Reported when the pool has no connection to lease.
pub const MSG_POOL_EXHAUSTED: &'static str = "connection pool exhausted";

/// Reported when the resolved subject has no onboarding record.
pub const MSG_NOT_FOUND: &'static str = "no onboarding record found for this user";

/// Reported when a prerequisite step has not been completed yet.
pub const MSG_TOO_EARLY: &'static str = "stage too early: a prerequisite step is not completed";

/// Reported when a write-once step was already completed.
pub const MSG_ALREADY_PASSED: &'static str = "stage already passed: this step is already completed";

/// Reported when the beneficiary-owner answer does not permit the step.
pub const MSG_INVALID_BENEFICIARY: &'static str = "invalid beneficiary owner";

/// The banking group as the bank-data step writes it.
pub open spec fn bank_fields_of(req: DataBankRequest) -> BankFields {
    BankFields {
        question_rdn: req.question_rdn,
        bank_name: req.bank_name,
        bank_account_holder: req.bank_account_holder,
        bank_account_number: req.bank_account_number,
        bank_branch: req.bank_branch,
    }
}

/// The row after a successful bank-data step: the banking group replaced by
/// the request's payload and the stage advanced to the decided target.
pub open spec fn bank_applied(row: CustomerRow, req: DataBankRequest) -> CustomerRow {
    let row1 = apply_update_spec(row, RowUpdate::Bank(bank_fields_of(req)));
    apply_update_spec(
        row1,
        RowUpdate::StageTo(stage_max(row.record.stage, Stage::EmploymentPending)),
    )
}

/// The personal group as the personal-data step writes it.
pub open spec fn personal_fields_of(req: DataPribadiRequest) -> PersonalFields {
    PersonalFields {
        full_name: req.full_name,
        mother_name: req.mother_name,
        nationality: req.nationality,
        idcard_number: req.idcard_number,
        idcard_expireddate: req.idcard_expireddate,
        idcard_country: req.idcard_country,
        sex: req.sex,
        birth_date: req.birth_date,
        birth_place: req.birth_place,
        birth_country: req.birth_country,
        religion: req.religion,
        marital_status: req.marital_status,
        education: req.education,
        copy_id: req.copy_id,
        idcard_city: req.idcard_city,
        idcard_district: req.idcard_district,
        idcard_subdistrict: req.idcard_subdistrict,
        idcard_rt: req.idcard_rt,
        idcard_rw: req.idcard_rw,
        idcard_zipcode: req.idcard_zipcode,
        idcard_address: req.idcard_address,
        domicile_city: req.domicile_city,
        domicile_district: req.domicile_district,
        domicile_subdistrict: req.domicile_subdistrict,
        domicile_rt: req.domicile_rt,
        domicile_rw: req.domicile_rw,
        domicile_zipcode: req.domicile_zipcode,
        domicile_address: req.domicile_address,
    }
}

/// The row after a successful personal-data step with branch target `next`:
/// the personal group and the auxiliary residency fields replaced by the
/// request's payload, the stage advanced through the target.
pub open spec fn personal_applied(
    row: CustomerRow,
    req: DataPribadiRequest,
    next: Stage,
) -> CustomerRow {
    let row1 = apply_update_spec(row, RowUpdate::Personal(personal_fields_of(req)));
    let row2 = apply_update_spec(
        row1,
        RowUpdate::Residency(req.residence_status, req.beneficiary_owner),
    );
    apply_update_spec(row2, RowUpdate::StageTo(stage_max(row.record.stage, next)))
}

/// The employment group as the employment-data step writes it.
pub open spec fn employment_fields_of(req: DataPekerjaanRequest) -> EmploymentFields {
    EmploymentFields {
        company_name: req.company_name,
        company_city: req.company_city,
        company_address: req.company_address,
        company_zipcode: req.company_zipcode,
        question_npwp: req.question_npwp,
        npwp_reason: req.npwp_reason,
        npwp_number: req.npwp_number,
        npwp_file: req.npwp_file,
        fund_source: req.fund_source,
        fund_source_text: req.fund_source_text,
        occupation: req.occupation,
        occupation_text: req.occupation_text,
        nature_bussiness: req.nature_bussiness,
        nature_bussiness_text: req.nature_bussiness_text,
        position: req.position,
        position_text: req.position_text,
        income_peranum: req.income_peranum,
        spouse_name: req.spouse_name,
        spouse_relationship: req.spouse_relationship,
        spouse_occupation: req.spouse_occupation,
        spouse_occupation_text: req.spouse_occupation_text,
        spouse_fund_source: req.spouse_fund_source,
        spouse_fund_source_text: req.spouse_fund_source_text,
        spouse_position: req.spouse_position,
        spouse_income_peranum: req.spouse_income_peranum,
        spouse_nature_bussiness: req.spouse_nature_bussiness,
        spouse_company_name: req.spouse_company_name,
        spouse_company_city: req.spouse_company_city,
        spouse_company_address: req.spouse_company_address,
        spouse_company_zipcode: req.spouse_company_zipcode,
    }
}

/// The row after a successful employment-data step.
pub open spec fn employment_applied(row: CustomerRow, req: DataPekerjaanRequest) -> CustomerRow {
    let row1 = apply_update_spec(row, RowUpdate::Employment(employment_fields_of(req)));
    apply_update_spec(
        row1,
        RowUpdate::StageTo(stage_max(row.record.stage, Stage::SupportingPending)),
    )
}

/// The questionnaire group as the supporting-data step writes it.
pub open spec fn supporting_fields_of(req: DataPendukungRequest) -> SupportingFields {
    SupportingFields {
        question_1: req.question_1,
        question_1text: req.question_1text,
        question_2: req.question_2,
        question_2text: req.question_2text,
        question_3: req.question_3,
        question_3text: req.question_3text,
        question_4: req.question_4,
        question_4text: req.question_4text,
        question_5: req.question_5,
        question_5text: req.question_5text,
        question_6: req.question_6,
        question_6text: req.question_6text,
        investment_objective: req.investment_objective,
        risk: req.risk,
        question_fatca: req.question_fatca,
        fatca_1: req.fatca_1,
        fatca_2: req.fatca_2,
        fatca_3: req.fatca_3,
    }
}

/// The emergency-contact group as the supporting-data step writes it.
pub open spec fn contact_fields_of(req: DataPendukungRequest) -> ContactFields {
    ContactFields {
        contact_person_name: req.contact_person_name,
        contact_person_relation: req.contact_person_relation,
        contact_person_home_phone: req.contact_person_home_phone,
        contact_person_mobile_phone: req.contact_person_mobile_phone,
        contact_person_address: req.contact_person_address,
    }
}

/// The row after a successful supporting-data step: the questionnaire and
/// contact groups replaced, the stage advanced, the record finished.
pub open spec fn supporting_applied(row: CustomerRow, req: DataPendukungRequest) -> CustomerRow {
    let row1 = apply_update_spec(row, RowUpdate::Supporting(supporting_fields_of(req)));
    let row2 = apply_update_spec(row1, RowUpdate::Contact(contact_fields_of(req)));
    let row3 = apply_update_spec(
        row2,
        RowUpdate::StageTo(stage_max(row.record.stage, Stage::Finished)),
    );
    apply_update_spec(row3, RowUpdate::Finished(true))
}

/// The beneficial-owner group as the beneficiary-data step writes it.
pub open spec fn beneficiary_fields_of(req: DataBeneficiaryRequest) -> BeneficiaryFields {
    BeneficiaryFields {
        beneficiary_name: req.beneficiary_name,
        beneficiary_mother_maiden_name: req.beneficiary_mother_maiden_name,
        beneficiary_relation: req.beneficiary_relation,
        beneficiary_sex: req.beneficiary_sex,
        beneficiary_birth_place: req.beneficiary_birth_place,
        beneficiary_birth_date: req.beneficiary_birth_date,
        beneficiary_nationality: req.beneficiary_nationality,
        beneficiary_idcard_type: req.beneficiary_idcard_type,
        beneficiary_idcard_number: req.beneficiary_idcard_number,
        beneficiary_idcard_expiredate: req.beneficiary_idcard_expiredate,
        beneficiary_email: req.beneficiary_email,
        beneficiary_npwp_number: req.beneficiary_npwp_number,
        beneficiary_address: req.beneficiary_address,
        beneficiary_city: req.beneficiary_city,
        beneficiary_province: req.beneficiary_province,
        beneficiary_country: req.beneficiary_country,
        beneficiary_postalcode: req.beneficiary_postalcode,
        beneficiary_mobile_phone: req.beneficiary_mobile_phone,
        beneficiary_occupation: req.beneficiary_occupation,
        beneficiary_fund_source: req.beneficiary_fund_source,
    }
}

/// The row after a successful beneficiary-data step.
pub open spec fn beneficiary_applied(row: CustomerRow, req: DataBeneficiaryRequest) -> CustomerRow {
    let row1 = apply_update_spec(row, RowUpdate::Beneficiary(beneficiary_fields_of(req)));
    apply_update_spec(
        row1,
        RowUpdate::StageTo(stage_max(row.record.stage, Stage::BankPending)),
    )
}

/// The stored file references as the file-saving operation writes them.
pub open spec fn files_of(req: CIFFileRequest) -> FileRefs {
    FileRefs {
        idcard_file: req.idcard_file,
        selfie_file: req.selfie_file,
        signature_file: req.signature_file,
    }
}

/// The row after the file-saving operation.
pub open spec fn files_applied(row: CustomerRow, req: CIFFileRequest) -> CustomerRow {
    apply_update_spec(row, RowUpdate::Files(files_of(req)))
}

/// A successful personal-data step moves the stage exactly as one
/// allowed attempt of the step does: to the branch target, never
/// backwards.
pub proof fn lemma_personal_applied_stage(row: CustomerRow, req: DataPribadiRequest, next: Stage)
    requires
        gate_spec(row.record.stage, Step::PersonalData, req.beneficiary_owner)
            == (GateDecision::Allow { next }),
    ensures
        personal_applied(row, req, next).record.stage == crate::stage::stage_after_attempt(
            row.record.stage,
            Step::PersonalData,
            req.beneficiary_owner,
        ),
{
}

/// A successful bank-data step moves the stage exactly as one allowed
/// attempt of the step does.
pub proof fn lemma_bank_applied_stage(row: CustomerRow, req: DataBankRequest)
    requires
        gate_spec(row.record.stage, Step::BankData, 0) is Allow,
    ensures
        bank_applied(row, req).record.stage == crate::stage::stage_after_attempt(
            row.record.stage,
            Step::BankData,
            0,
        ),
{
}

/// A successful employment-data step moves the stage exactly as one
/// allowed attempt of the step does.
pub proof fn lemma_employment_applied_stage(row: CustomerRow, req: DataPekerjaanRequest)
    requires
        gate_spec(row.record.stage, Step::EmploymentData, 0) is Allow,
    ensures
        employment_applied(row, req).record.stage == crate::stage::stage_after_attempt(
            row.record.stage,
            Step::EmploymentData,
            0,
        ),
{
}

/// A successful supporting-data step moves the stage exactly as one
/// allowed attempt of the step does.
pub proof fn lemma_supporting_applied_stage(row: CustomerRow, req: DataPendukungRequest)
    requires
        gate_spec(row.record.stage, Step::SupportingData, 0) is Allow,
    ensures
        supporting_applied(row, req).record.stage == crate::stage::stage_after_attempt(
            row.record.stage,
            Step::SupportingData,
            0,
        ),
{
}

/// A successful beneficiary-data step moves the stage exactly as one
/// allowed attempt of the step does.
pub proof fn lemma_beneficiary_applied_stage(row: CustomerRow, req: DataBeneficiaryRequest)
    requires
        gate_spec(row.record.stage, Step::BeneficiaryData, row.aux.beneficiary_owner) is Allow,
    ensures
        beneficiary_applied(row, req).record.stage == crate::stage::stage_after_attempt(
            row.record.stage,
            Step::BeneficiaryData,
            row.aux.beneficiary_owner,
        ),
{
}

/// The snapshot of one applicant as `get_user_info` reports it.
pub open spec fn user_info_of(row: CustomerRow) -> UserInfo {
    UserInfo {
        autonid: row.record.record_id,
        stage: stage_num(row.record.stage) as i32,
        client_id: row.record.client_id,
        cif_id: row.record.cif_id,
        is_revised: row.record.is_revised,
        is_rejected: row.record.is_rejected,
        is_finished: row.record.is_finished,
        account_status: row.record.account_status,
        email: row.record.email,
        mobile_phone: row.record.mobile_phone,
        sales: row.record.sales,
        personal: row.record.personal,
        bank: row.record.bank,
        employment: row.record.employment,
        supporting: row.record.supporting,
        files: row.record.files,
        contact: row.aux.contact,
        beneficiary_owner: row.aux.beneficiary_owner,
        residence_status: row.aux.residence_status,
    }
}

/// The per-applicant onboarding operations.
pub struct UserService;

impl UserService {
    /// Read the authenticated subject's full onboarding snapshot.
    ///
    /// A plain read: it leases a connection but opens no transaction and
    /// mutates nothing.
    pub fn get_user_info(
        pool: &mut ConnectionPool,
        db: &Database,
        session: &Claims,
    ) -> (r: ActionResult<UserInfo, String>)
        requires
            old(pool).wf(),
            db.wf(),
        ensures
            final(pool).wf(),
            final(pool).capacity_spec() == old(pool).capacity_spec(),
            final(pool).idle_count() == old(pool).idle_count(),
            old(pool).idle_count() == 0 ==> r.is_fatal(),
            old(pool).idle_count() > 0 ==> ({
                let rows = db.rows_view();
                match find_row(rows, session.auth_usernid) {
                    None => r.is_business_rejection() && r.message@ == MSG_NOT_FOUND@
                        && r.data is None,
                    Some(i) => r.is_success() && r.data == Some(user_info_of(rows[i])),
                }
            }),
    {
        let conn = match pool.acquire() {
            Ok(conn) => conn,
            Err(_) => {
                return ActionResult::fatal(MSG_POOL_EXHAUSTED);
            },
        };
        proof {
            lemma_find_row(db.rows_view(), session.auth_usernid);
        }
        let r = match db.find_index(session.auth_usernid) {
            None => ActionResult::rejection(MSG_NOT_FOUND),
            Some(i) => {
                let row = db.row(i);
                let info = UserInfo {
                    autonid: row.record.record_id,
                    stage: StageGate::stage_number(row.record.stage),
                    client_id: row.record.client_id.clone(),
                    cif_id: row.record.cif_id.clone(),
                    is_revised: row.record.is_revised,
                    is_rejected: row.record.is_rejected,
                    is_finished: row.record.is_finished,
                    account_status: row.record.account_status,
                    email: row.record.email.clone(),
                    mobile_phone: row.record.mobile_phone.clone(),
                    sales: row.record.sales,
                    personal: row.record.personal.clone(),
                    bank: row.record.bank.clone(),
                    employment: row.record.employment.clone(),
                    supporting: row.record.supporting.clone(),
                    files: row.record.files.clone(),
                    contact: row.aux.contact.clone(),
                    beneficiary_owner: row.aux.beneficiary_owner,
                    residence_status: row.aux.residence_status,
                };
                ActionResult {
                    result: true,
                    message: "user info retrieved".to_owned(),
                    data: Some(info),
                    error: None,
                }
            },
        };
        pool.release(conn);
        r
    }

    /// Apply the personal-data step for the authenticated subject.
    ///
    /// The branch target comes from the validated request's
    /// beneficiary-owner answer: "self" advances the stage to the bank-data
    /// stage, "other" keeps it at the first stage for the beneficiary-data
    /// step, and any other answer is rejected.  The step also stores the
    /// answer and the residency status on the auxiliary record.
    pub fn save_data_pribadi(
        pool: &mut ConnectionPool,
        db: &mut Database,
        request: DataPribadiRequest,
        session: &Claims,
    ) -> (r: ActionResult<(), String>)
        requires
            old(pool).wf(),
            old(db).wf(),
        ensures
            final(pool).wf(),
            final(db).wf(),
            final(pool).capacity_spec() == old(pool).capacity_spec(),
            final(pool).idle_count() == old(pool).idle_count(),
            final(db).next_id_spec() == old(db).next_id_spec(),
            old(pool).idle_count() == 0 ==> r.is_fatal()
                && final(db).rows_view() == old(db).rows_view(),
            old(pool).idle_count() > 0 ==> ({
                let rows = old(db).rows_view();
                match find_row(rows, session.auth_usernid) {
                    None => final(db).rows_view() == rows && r.is_business_rejection()
                        && r.message@ == MSG_NOT_FOUND@,
                    Some(i) => match gate_spec(
                        rows[i].record.stage,
                        Step::PersonalData,
                        request.beneficiary_owner,
                    ) {
                        GateDecision::TooEarly => false,
                        GateDecision::AlreadyPassed => final(db).rows_view() == rows
                            && r.is_business_rejection() && r.message@ == MSG_ALREADY_PASSED@,
                        GateDecision::Allow { next } => r.is_success()
                            && final(db).rows_view() == rows.update(
                                i,
                                personal_applied(rows[i], request, next),
                            ),
                        GateDecision::InvalidBeneficiary => final(db).rows_view() == rows
                            && r.is_business_rejection()
                            && r.message@ == MSG_INVALID_BENEFICIARY@,
                    },
                }
            }),
    {
        let conn = match pool.acquire() {
            Ok(conn) => conn,
            Err(_) => {
                return ActionResult::fatal(MSG_POOL_EXHAUSTED);
            },
        };
        let mut work = Database::empty();
        core::mem::swap(db, &mut work);
        let mut guard = Transaction::begin(conn, work);
        proof {
            lemma_find_row(guard.rows(), session.auth_usernid);
        }
        match guard.find_index(session.auth_usernid) {
            None => {
                let (conn, done) = guard.finish();
                *db = done;
                pool.release(conn);
                ActionResult::rejection(MSG_NOT_FOUND)
            },
            Some(i) => {
                let stage = guard.row(i).record.stage;
                match StageGate::check(stage, Step::PersonalData, request.beneficiary_owner) {
                    GateDecision::Allow { next } => {
                        let residence_status = request.residence_status;
                        let beneficiary_owner = request.beneficiary_owner;
                        let fields = PersonalFields {
                            full_name: request.full_name,
                            mother_name: request.mother_name,
                            nationality: request.nationality,
                            idcard_number: request.idcard_number,
                            idcard_expireddate: request.idcard_expireddate,
                            idcard_country: request.idcard_country,
                            sex: request.sex,
                            birth_date: request.birth_date,
                            birth_place: request.birth_place,
                            birth_country: request.birth_country,
                            religion: request.religion,
                            marital_status: request.marital_status,
                            education: request.education,
                            copy_id: request.copy_id,
                            idcard_city: request.idcard_city,
                            idcard_district: request.idcard_district,
                            idcard_subdistrict: request.idcard_subdistrict,
                            idcard_rt: request.idcard_rt,
                            idcard_rw: request.idcard_rw,
                            idcard_zipcode: request.idcard_zipcode,
                            idcard_address: request.idcard_address,
                            domicile_city: request.domicile_city,
                            domicile_district: request.domicile_district,
                            domicile_subdistrict: request.domicile_subdistrict,
                            domicile_rt: request.domicile_rt,
                            domicile_rw: request.domicile_rw,
                            domicile_zipcode: request.domicile_zipcode,
                            domicile_address: request.domicile_address,
                        };
                        let _ = guard.apply(i, RowUpdate::Personal(fields));
                        let _ = guard.apply(
                            i,
                            RowUpdate::Residency(residence_status, beneficiary_owner),
                        );
                        let new_stage = StageGate::later_stage(stage, next);
                        let _ = guard.apply(i, RowUpdate::StageTo(new_stage));
                        let _ = guard.commit();
                        let (conn, done) = guard.finish();
                        *db = done;
                        pool.release(conn);
                        ActionResult::success("personal data saved")
                    },
                    GateDecision::TooEarly => {
                        let (conn, done) = guard.finish();
                        *db = done;
                        pool.release(conn);
                        ActionResult::rejection(MSG_TOO_EARLY)
                    },
                    GateDecision::AlreadyPassed => {
                        let (conn, done) = guard.finish();
                        *db = done;
                        pool.release(conn);
                        ActionResult::rejection(MSG_ALREADY_PASSED)
                    },
                    GateDecision::InvalidBeneficiary => {
                        let (conn, done) = guard.finish();
                        *db = done;
                        pool.release(conn);
                        ActionResult::rejection(MSG_INVALID_BENEFICIARY)
                    },
                }
            },
        }
    }

    /// Apply the bank-data step for the authenticated subject.
    ///
    /// The record's stage is read inside the transaction that mutates it.
    /// At the precondition stage the banking fields are replaced by the
    /// request and the stage advances; earlier stages are rejected as too
    /// early, later ones as already passed; in every rejected or failed
    /// case the store is exactly as before.
    pub fn save_data_bank(
        pool: &mut ConnectionPool,
        db: &mut Database,
        request: DataBankRequest,
        session: &Claims,
    ) -> (r: ActionResult<(), String>)
        requires
            old(pool).wf(),
            old(db).wf(),
        ensures
            final(pool).wf(),
            final(db).wf(),
            final(pool).capacity_spec() == old(pool).capacity_spec(),
            final(pool).idle_count() == old(pool).idle_count(),
            final(db).next_id_spec() == old(db).next_id_spec(),
            old(pool).idle_count() == 0 ==> r.is_fatal()
                && final(db).rows_view() == old(db).rows_view(),
            old(pool).idle_count() > 0 ==> ({
                let rows = old(db).rows_view();
                match find_row(rows, session.auth_usernid) {
                    None => final(db).rows_view() == rows && r.is_business_rejection()
                        && r.message@ == MSG_NOT_FOUND@,
                    Some(i) => match gate_spec(rows[i].record.stage, Step::BankData, 0) {
                        GateDecision::TooEarly => final(db).rows_view() == rows
                            && r.is_business_rejection() && r.message@ == MSG_TOO_EARLY@,
                        GateDecision::AlreadyPassed => final(db).rows_view() == rows
                            && r.is_business_rejection() && r.message@ == MSG_ALREADY_PASSED@,
                        GateDecision::Allow { next } => r.is_success()
                            && final(db).rows_view() == rows.update(
                                i,
                                bank_applied(rows[i], request),
                            ),
                        GateDecision::InvalidBeneficiary => false,
                    },
                }
            }),
    {
        let conn = match pool.acquire() {
            Ok(conn) => conn,
            Err(_) => {
                return ActionResult::fatal(MSG_POOL_EXHAUSTED);
            },
        };
        let mut work = Database::empty();
        core::mem::swap(db, &mut work);
        let mut guard = Transaction::begin(conn, work);
        proof {
            lemma_find_row(guard.rows(), session.auth_usernid);
        }
        match guard.find_index(session.auth_usernid) {
            None => {
                let (conn, done) = guard.finish();
                *db = done;
                pool.release(conn);
                ActionResult::rejection(MSG_NOT_FOUND)
            },
            Some(i) => {
                let stage = guard.row(i).record.stage;
                match StageGate::check(stage, Step::BankData, 0) {
                    GateDecision::Allow { next } => {
                        let fields = BankFields {
                            question_rdn: request.question_rdn,
                            bank_name: request.bank_name,
                            bank_account_holder: request.bank_account_holder,
                            bank_account_number: request.bank_account_number,
                            bank_branch: request.bank_branch,
                        };
                        let _ = guard.apply(i, RowUpdate::Bank(fields));
                        let new_stage = StageGate::later_stage(stage, next);
                        let _ = guard.apply(i, RowUpdate::StageTo(new_stage));
                        let _ = guard.commit();
                        let (conn, done) = guard.finish();
                        *db = done;
                        pool.release(conn);
                        ActionResult::success("bank data saved")
                    },
                    GateDecision::TooEarly => {
                        let (conn, done) = guard.finish();
                        *db = done;
                        pool.release(conn);
                        ActionResult::rejection(MSG_TOO_EARLY)
                    },
                    GateDecision::AlreadyPassed => {
                        let (conn, done) = guard.finish();
                        *db = done;
                        pool.release(conn);
                        ActionResult::rejection(MSG_ALREADY_PASSED)
                    },
                    GateDecision::InvalidBeneficiary => {
                        let (conn, done) = guard.finish();
                        *db = done;
                        pool.release(conn);
                        ActionResult::rejection(MSG_INVALID_BENEFICIARY)
                    },
                }
            },
        }
    }

    /// Apply the employment-data step for the authenticated subject.
    ///
    /// The step is not write-once: a record at or past the precondition
    /// stage accepts it again, overwriting the employment group; the stage
    /// never moves backwards.
    pub fn save_data_pekerjaan(
        pool: &mut ConnectionPool,
        db: &mut Database,
        request: DataPekerjaanRequest,
        session: &Claims,
    ) -> (r: ActionResult<(), String>)
        requires
            old(pool).wf(),
            old(db).wf(),
        ensures
            final(pool).wf(),
            final(db).wf(),
            final(pool).capacity_spec() == old(pool).capacity_spec(),
            final(pool).idle_count() == old(pool).idle_count(),
            final(db).next_id_spec() == old(db).next_id_spec(),
            old(pool).idle_count() == 0 ==> r.is_fatal()
                && final(db).rows_view() == old(db).rows_view(),
            old(pool).idle_count() > 0 ==> ({
                let rows = old(db).rows_view();
                match find_row(rows, session.auth_usernid) {
                    None => final(db).rows_view() == rows && r.is_business_rejection()
                        && r.message@ == MSG_NOT_FOUND@,
                    Some(i) => match gate_spec(rows[i].record.stage, Step::EmploymentData, 0) {
                        GateDecision::TooEarly => final(db).rows_view() == rows
                            && r.is_business_rejection() && r.message@ == MSG_TOO_EARLY@,
                        GateDecision::AlreadyPassed => false,
                        GateDecision::Allow { next } => r.is_success()
                            && final(db).rows_view() == rows.update(
                                i,
                                employment_applied(rows[i], request),
                            ),
                        GateDecision::InvalidBeneficiary => false,
                    },
                }
            }),
    {
        let conn = match pool.acquire() {
            Ok(conn) => conn,
            Err(_) => {
                return ActionResult::fatal(MSG_POOL_EXHAUSTED);
            },
        };
        let mut work = Database::empty();
        core::mem::swap(db, &mut work);
        let mut guard = Transaction::begin(conn, work);
        proof {
            lemma_find_row(guard.rows(), session.auth_usernid);
        }
        match guard.find_index(session.auth_usernid) {
            None => {
                let (conn, done) = guard.finish();
                *db = done;
                pool.release(conn);
                ActionResult::rejection(MSG_NOT_FOUND)
            },
            Some(i) => {
                let stage = guard.row(i).record.stage;
                match StageGate::check(stage, Step::EmploymentData, 0) {
                    GateDecision::Allow { next } => {
                        let fields = EmploymentFields {
                            company_name: request.company_name,
                            company_city: request.company_city,
                            company_address: request.company_address,
                            company_zipcode: request.company_zipcode,
                            question_npwp: request.question_npwp,
                            npwp_reason: request.npwp_reason,
                            npwp_number: request.npwp_number,
                            npwp_file: request.npwp_file,
                            fund_source: request.fund_source,
                            fund_source_text: request.fund_source_text,
                            occupation: request.occupation,
                            occupation_text: request.occupation_text,
                            nature_bussiness: request.nature_bussiness,
                            nature_bussiness_text: request.nature_bussiness_text,
                            position: request.position,
                            position_text: request.position_text,
                            income_peranum: request.income_peranum,
                            spouse_name: request.spouse_name,
                            spouse_relationship: request.spouse_relationship,
                            spouse_occupation: request.spouse_occupation,
                            spouse_occupation_text: request.spouse_occupation_text,
                            spouse_fund_source: request.spouse_fund_source,
                            spouse_fund_source_text: request.spouse_fund_source_text,
                            spouse_position: request.spouse_position,
                            spouse_income_peranum: request.spouse_income_peranum,
                            spouse_nature_bussiness: request.spouse_nature_bussiness,
                            spouse_company_name: request.spouse_company_name,
                            spouse_company_city: request.spouse_company_city,
                            spouse_company_address: request.spouse_company_address,
                            spouse_company_zipcode: request.spouse_company_zipcode,
                        };
                        let _ = guard.apply(i, RowUpdate::Employment(fields));
                        let new_stage = StageGate::later_stage(stage, next);
                        let _ = guard.apply(i, RowUpdate::StageTo(new_stage));
                        let _ = guard.commit();
                        let (conn, done) = guard.finish();
                        *db = done;
                        pool.release(conn);
                        ActionResult::success("employment data saved")
                    },
                    GateDecision::TooEarly => {
                        let (conn, done) = guard.finish();
                        *db = done;
                        pool.release(conn);
                        ActionResult::rejection(MSG_TOO_EARLY)
                    },
                    GateDecision::AlreadyPassed => {
                        let (conn, done) = guard.finish();
                        *db = done;
                        pool.release(conn);
                        ActionResult::rejection(MSG_ALREADY_PASSED)
                    },
                    GateDecision::InvalidBeneficiary => {
                        let (conn, done) = guard.finish();
                        *db = done;
                        pool.release(conn);
                        ActionResult::rejection(MSG_INVALID_BENEFICIARY)
                    },
                }
            },
        }
    }

    /// Apply the supporting-data step for the authenticated subject.
    ///
    /// On acceptance the questionnaire group, the emergency-contact group,
    /// the stage and the finished flag all change inside the one
    /// transaction; this is the terminal step.
    pub fn save_data_pendukung(
        pool: &mut ConnectionPool,
        db: &mut Database,
        request: DataPendukungRequest,
        session: &Claims,
    ) -> (r: ActionResult<(), String>)
        requires
            old(pool).wf(),
            old(db).wf(),
        ensures
            final(pool).wf(),
            final(db).wf(),
            final(pool).capacity_spec() == old(pool).capacity_spec(),
            final(pool).idle_count() == old(pool).idle_count(),
            final(db).next_id_spec() == old(db).next_id_spec(),
            old(pool).idle_count() == 0 ==> r.is_fatal()
                && final(db).rows_view() == old(db).rows_view(),
            old(pool).idle_count() > 0 ==> ({
                let rows = old(db).rows_view();
                match find_row(rows, session.auth_usernid) {
                    None => final(db).rows_view() == rows && r.is_business_rejection()
                        && r.message@ == MSG_NOT_FOUND@,
                    Some(i) => match gate_spec(rows[i].record.stage, Step::SupportingData, 0) {
                        GateDecision::TooEarly => final(db).rows_view() == rows
                            && r.is_business_rejection() && r.message@ == MSG_TOO_EARLY@,
                        GateDecision::AlreadyPassed => false,
                        GateDecision::Allow { next } => r.is_success()
                            && final(db).rows_view() == rows.update(
                                i,
                                supporting_applied(rows[i], request),
                            ),
                        GateDecision::InvalidBeneficiary => false,
                    },
                }
            }),
    {
        let conn = match pool.acquire() {
            Ok(conn) => conn,
            Err(_) => {
                return ActionResult::fatal(MSG_POOL_EXHAUSTED);
            },
        };
        let mut work = Database::empty();
        core::mem::swap(db, &mut work);
        let mut guard = Transaction::begin(conn, work);
        proof {
            lemma_find_row(guard.rows(), session.auth_usernid);
        }
        match guard.find_index(session.auth_usernid) {
            None => {
                let (conn, done) = guard.finish();
                *db = done;
                pool.release(conn);
                ActionResult::rejection(MSG_NOT_FOUND)
            },
            Some(i) => {
                let stage = guard.row(i).record.stage;
                match StageGate::check(stage, Step::SupportingData, 0) {
                    GateDecision::Allow { next } => {
                        let contact = ContactFields {
                            contact_person_name: request.contact_person_name,
                            contact_person_relation: request.contact_person_relation,
                            contact_person_home_phone: request.contact_person_home_phone,
                            contact_person_mobile_phone: request.contact_person_mobile_phone,
                            contact_person_address: request.contact_person_address,
                        };
                        let fields = SupportingFields {
                            question_1: request.question_1,
                            question_1text: request.question_1text,
                            question_2: request.question_2,
                            question_2text: request.question_2text,
                            question_3: request.question_3,
                            question_3text: request.question_3text,
                            question_4: request.question_4,
                            question_4text: request.question_4text,
                            question_5: request.question_5,
                            question_5text: request.question_5text,
                            question_6: request.question_6,
                            question_6text: request.question_6text,
                            investment_objective: request.investment_objective,
                            risk: request.risk,
                            question_fatca: request.question_fatca,
                            fatca_1: request.fatca_1,
                            fatca_2: request.fatca_2,
                            fatca_3: request.fatca_3,
                        };
                        let _ = guard.apply(i, RowUpdate::Supporting(fields));
                        let _ = guard.apply(i, RowUpdate::Contact(contact));
                        let new_stage = StageGate::later_stage(stage, next);
                        let _ = guard.apply(i, RowUpdate::StageTo(new_stage));
                        let _ = guard.apply(i, RowUpdate::Finished(true));
                        let _ = guard.commit();
                        let (conn, done) = guard.finish();
                        *db = done;
                        pool.release(conn);
                        ActionResult::success("supporting data saved")
                    },
                    GateDecision::TooEarly => {
                        let (conn, done) = guard.finish();
                        *db = done;
                        pool.release(conn);
                        ActionResult::rejection(MSG_TOO_EARLY)
                    },
                    GateDecision::AlreadyPassed => {
                        let (conn, done) = guard.finish();
                        *db = done;
                        pool.release(conn);
                        ActionResult::rejection(MSG_ALREADY_PASSED)
                    },
                    GateDecision::InvalidBeneficiary => {
                        let (conn, done) = guard.finish();
                        *db = done;
                        pool.release(conn);
                        ActionResult::rejection(MSG_INVALID_BENEFICIARY)
                    },
                }
            },
        }
    }

    /// Apply the beneficiary-data step for the authenticated subject.
    ///
    /// The decision reads the beneficiary-owner answer stored on the auxiliary
    /// record by the personal-data step: a record whose applicant declared
    /// themselves the beneficial owner rejects the step.  A record past the
    /// first stage rejects it as already passed, which pre-empts the step
    /// after the "self" branch.
    pub fn save_data_beneficiary(
        pool: &mut ConnectionPool,
        db: &mut Database,
        request: DataBeneficiaryRequest,
        session: &Claims,
    ) -> (r: ActionResult<(), String>)
        requires
            old(pool).wf(),
            old(db).wf(),
        ensures
            final(pool).wf(),
            final(db).wf(),
            final(pool).capacity_spec() == old(pool).capacity_spec(),
            final(pool).idle_count() == old(pool).idle_count(),
            final(db).next_id_spec() == old(db).next_id_spec(),
            old(pool).idle_count() == 0 ==> r.is_fatal()
                && final(db).rows_view() == old(db).rows_view(),
            old(pool).idle_count() > 0 ==> ({
                let rows = old(db).rows_view();
                match find_row(rows, session.auth_usernid) {
                    None => final(db).rows_view() == rows && r.is_business_rejection()
                        && r.message@ == MSG_NOT_FOUND@,
                    Some(i) => match gate_spec(
                        rows[i].record.stage,
                        Step::BeneficiaryData,
                        rows[i].aux.beneficiary_owner,
                    ) {
                        GateDecision::TooEarly => false,
                        GateDecision::AlreadyPassed => final(db).rows_view() == rows
                            && r.is_business_rejection() && r.message@ == MSG_ALREADY_PASSED@,
                        GateDecision::Allow { next } => r.is_success()
                            && final(db).rows_view() == rows.update(
                                i,
                                beneficiary_applied(rows[i], request),
                            ),
                        GateDecision::InvalidBeneficiary => final(db).rows_view() == rows
                            && r.is_business_rejection()
                            && r.message@ == MSG_INVALID_BENEFICIARY@,
                    },
                }
            }),
    {
        let conn = match pool.acquire() {
            Ok(conn) => conn,
            Err(_) => {
                return ActionResult::fatal(MSG_POOL_EXHAUSTED);
            },
        };
        let mut work = Database::empty();
        core::mem::swap(db, &mut work);
        let mut guard = Transaction::begin(conn, work);
        proof {
            lemma_find_row(guard.rows(), session.auth_usernid);
        }
        match guard.find_index(session.auth_usernid) {
            None => {
                let (conn, done) = guard.finish();
                *db = done;
                pool.release(conn);
                ActionResult::rejection(MSG_NOT_FOUND)
            },
            Some(i) => {
                let stage = guard.row(i).record.stage;
                let stored_owner = guard.row(i).aux.beneficiary_owner;
                match StageGate::check(stage, Step::BeneficiaryData, stored_owner) {
                    GateDecision::Allow { next } => {
                        let fields = BeneficiaryFields {
                            beneficiary_name: request.beneficiary_name,
                            beneficiary_mother_maiden_name: request.beneficiary_mother_maiden_name,
                            beneficiary_relation: request.beneficiary_relation,
                            beneficiary_sex: request.beneficiary_sex,
                            beneficiary_birth_place: request.beneficiary_birth_place,
                            beneficiary_birth_date: request.beneficiary_birth_date,
                            beneficiary_nationality: request.beneficiary_nationality,
                            beneficiary_idcard_type: request.beneficiary_idcard_type,
                            beneficiary_idcard_number: request.beneficiary_idcard_number,
                            beneficiary_idcard_expiredate: request.beneficiary_idcard_expiredate,
                            beneficiary_email: request.beneficiary_email,
                            beneficiary_npwp_number: request.beneficiary_npwp_number,
                            beneficiary_address: request.beneficiary_address,
                            beneficiary_city: request.beneficiary_city,
                            beneficiary_province: request.beneficiary_province,
                            beneficiary_country: request.beneficiary_country,
                            beneficiary_postalcode: request.beneficiary_postalcode,
                            beneficiary_mobile_phone: request.beneficiary_mobile_phone,
                            beneficiary_occupation: request.beneficiary_occupation,
                            beneficiary_fund_source: request.beneficiary_fund_source,
                        };
                        let _ = guard.apply(i, RowUpdate::Beneficiary(fields));
                        let new_stage = StageGate::later_stage(stage, next);
                        let _ = guard.apply(i, RowUpdate::StageTo(new_stage));
                        let _ = guard.commit();
                        let (conn, done) = guard.finish();
                        *db = done;
                        pool.release(conn);
                        ActionResult::success("beneficiary data saved")
                    },
                    GateDecision::TooEarly => {
                        let (conn, done) = guard.finish();
                        *db = done;
                        pool.release(conn);
                        ActionResult::rejection(MSG_TOO_EARLY)
                    },
                    GateDecision::AlreadyPassed => {
                        let (conn, done) = guard.finish();
                        *db = done;
                        pool.release(conn);
                        ActionResult::rejection(MSG_ALREADY_PASSED)
                    },
                    GateDecision::InvalidBeneficiary => {
                        let (conn, done) = guard.finish();
                        *db = done;
                        pool.release(conn);
                        ActionResult::rejection(MSG_INVALID_BENEFICIARY)
                    },
                }
            },
        }
    }

    /// Store the document file references for the authenticated subject.
    ///
    /// Every record is at the first stage or later, so no stage check can
    /// fail here: the operation applies whenever the record exists.
    pub fn save_cif_file(
        pool: &mut ConnectionPool,
        db: &mut Database,
        request: CIFFileRequest,
        session: &Claims,
    ) -> (r: ActionResult<(), String>)
        requires
            old(pool).wf(),
            old(db).wf(),
        ensures
            final(pool).wf(),
            final(db).wf(),
            final(pool).capacity_spec() == old(pool).capacity_spec(),
            final(pool).idle_count() == old(pool).idle_count(),
            final(db).next_id_spec() == old(db).next_id_spec(),
            old(pool).idle_count() == 0 ==> r.is_fatal()
                && final(db).rows_view() == old(db).rows_view(),
            old(pool).idle_count() > 0 ==> ({
                let rows = old(db).rows_view();
                match find_row(rows, session.auth_usernid) {
                    None => final(db).rows_view() == rows && r.is_business_rejection()
                        && r.message@ == MSG_NOT_FOUND@,
                    Some(i) => r.is_success()
                        && final(db).rows_view() == rows.update(i, files_applied(rows[i], request)),
                }
            }),
    {
        let conn = match pool.acquire() {
            Ok(conn) => conn,
            Err(_) => {
                return ActionResult::fatal(MSG_POOL_EXHAUSTED);
            },
        };
        let mut work = Database::empty();
        core::mem::swap(db, &mut work);
        let mut guard = Transaction::begin(conn, work);
        proof {
            lemma_find_row(guard.rows(), session.auth_usernid);
        }
        match guard.find_index(session.auth_usernid) {
            None => {
                let (conn, done) = guard.finish();
                *db = done;
                pool.release(conn);
                ActionResult::rejection(MSG_NOT_FOUND)
            },
            Some(i) => {
                let files = FileRefs {
                    idcard_file: request.idcard_file,
                    selfie_file: request.selfie_file,
                    signature_file: request.signature_file,
                };
                let _ = guard.apply(i, RowUpdate::Files(files));
                let _ = guard.commit();
                let (conn, done) = guard.finish();
                *db = done;
                pool.release(conn);
                ActionResult::success("files saved")
            },
        }
    }
}

} // verus!
