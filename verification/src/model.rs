//! The data model: the onboarding record and its auxiliary and credential
//! records, the field groups that successive steps write, and the validated
//! request types the processors consume.
//!
//! Dates are carried as plain year, month and day numbers; timestamps as
//! seconds since the epoch, supplied by the caller.

use vstd::prelude::*;
use crate::stage::Stage;

verus! {

/// A calendar date as plain numbers.
#[derive(Clone, Copy, Debug, PartialEq, Eq, Structural)]
pub struct DateStamp {
    pub year: i32,
    pub month: u8,
    pub day: u8,
}

/// The identity, address and document fields written by the personal-data
/// step (and the full name, first written at registration).
#[derive(Debug, PartialEq, Eq)]
pub struct PersonalFields {
    pub full_name: Option<String>,
    pub mother_name: Option<String>,
    pub nationality: i32,
    pub idcard_number: Option<String>,
    pub idcard_expireddate: Option<DateStamp>,
    pub idcard_country: Option<String>,
    pub sex: i32,
    pub birth_date: Option<DateStamp>,
    pub birth_place: Option<String>,
    pub birth_country: Option<String>,
    pub religion: i32,
    pub marital_status: i32,
    pub education: i32,
    pub copy_id: Option<bool>,
    pub idcard_city: i32,
    pub idcard_district: Option<String>,
    pub idcard_subdistrict: Option<String>,
    pub idcard_rt: Option<String>,
    pub idcard_rw: Option<String>,
    pub idcard_zipcode: Option<String>,
    pub idcard_address: Option<String>,
    pub domicile_city: i32,
    pub domicile_district: Option<String>,
    pub domicile_subdistrict: Option<String>,
    pub domicile_rt: Option<String>,
    pub domicile_rw: Option<String>,
    pub domicile_zipcode: Option<String>,
    pub domicile_address: Option<String>,
}

/// The banking fields, first written at registration and settled by the
/// bank-data step.
#[derive(Debug, PartialEq, Eq)]
pub struct BankFields {
    pub question_rdn: i32,
    pub bank_name: Option<String>,
    pub bank_account_holder: Option<String>,
    pub bank_account_number: Option<String>,
    pub bank_branch: Option<String>,
}

/// The employment and spouse fields written by the employment-data step.
#[derive(Debug, PartialEq, Eq)]
pub struct EmploymentFields {
    pub company_name: Option<String>,
    pub company_city: i32,
    pub company_address: Option<String>,
    pub company_zipcode: Option<String>,
    pub question_npwp: i32,
    pub npwp_reason: Option<String>,
    pub npwp_number: Option<String>,
    pub npwp_file: String,
    pub fund_source: i32,
    pub fund_source_text: Option<String>,
    pub occupation: i32,
    pub occupation_text: Option<String>,
    pub nature_bussiness: i32,
    pub nature_bussiness_text: Option<String>,
    pub position: i32,
    pub position_text: Option<String>,
    pub income_peranum: i32,
    pub spouse_name: Option<String>,
    pub spouse_relationship: i32,
    pub spouse_occupation: i32,
    pub spouse_occupation_text: Option<String>,
    pub spouse_fund_source: i32,
    pub spouse_fund_source_text: Option<String>,
    pub spouse_position: i32,
    pub spouse_income_peranum: i32,
    pub spouse_nature_bussiness: i32,
    pub spouse_company_name: Option<String>,
    pub spouse_company_city: i32,
    pub spouse_company_address: Option<String>,
    pub spouse_company_zipcode: Option<String>,
}

/// The questionnaire fields written by the supporting-data step.
#[derive(Debug, PartialEq, Eq)]
pub struct SupportingFields {
    pub question_1: bool,
    pub question_1text: Option<String>,
    pub question_2: bool,
    pub question_2text: Option<String>,
    pub question_3: bool,
    pub question_3text: Option<String>,
    pub question_4: bool,
    pub question_4text: Option<String>,
    pub question_5: bool,
    pub question_5text: Option<String>,
    pub question_6: bool,
    pub question_6text: Option<String>,
    pub investment_objective: i32,
    pub risk: i32,
    pub question_fatca: Option<String>,
    pub fatca_1: Option<String>,
    pub fatca_2: Option<String>,
    pub fatca_3: Option<String>,
}

/// The emergency-contact fields written to the auxiliary record by the
/// supporting-data step.
#[derive(Debug, PartialEq, Eq)]
pub struct ContactFields {
    pub contact_person_name: Option<String>,
    pub contact_person_relation: Option<String>,
    pub contact_person_home_phone: Option<String>,
    pub contact_person_mobile_phone: Option<String>,
    pub contact_person_address: Option<String>,
}

/// The beneficial-owner details written to the auxiliary record by the
/// beneficiary-data step.
#[derive(Debug, PartialEq, Eq)]
pub struct BeneficiaryFields {
    pub beneficiary_name: Option<String>,
    pub beneficiary_mother_maiden_name: Option<String>,
    pub beneficiary_relation: Option<String>,
    pub beneficiary_sex: Option<String>,
    pub beneficiary_birth_place: Option<String>,
    pub beneficiary_birth_date: Option<DateStamp>,
    pub beneficiary_nationality: Option<String>,
    pub beneficiary_idcard_type: Option<String>,
    pub beneficiary_idcard_number: Option<String>,
    pub beneficiary_idcard_expiredate: Option<DateStamp>,
    pub beneficiary_email: Option<String>,
    pub beneficiary_npwp_number: Option<String>,
    pub beneficiary_address: Option<String>,
    pub beneficiary_city: Option<String>,
    pub beneficiary_province: Option<String>,
    pub beneficiary_country: Option<String>,
    pub beneficiary_postalcode: Option<String>,
    pub beneficiary_mobile_phone: Option<String>,
    pub beneficiary_occupation: Option<String>,
    pub beneficiary_fund_source: Option<String>,
}

/// The stored document file references, written by the file-saving
/// operation.
#[derive(Debug, PartialEq, Eq)]
pub struct FileRefs {
    pub idcard_file: String,
    pub selfie_file: String,
    pub signature_file: String,
}

/// One applicant's onboarding record: the stage, the terminal flags, and the
/// domain attributes written incrementally by the steps.
#[derive(Debug)]
pub struct OnboardingRecord {
    /// Primary, immutable, assigned at creation.
    pub record_id: i32,
    /// Drives which step is permitted next; advanced only through the
    /// stage-gating rule.
    pub stage: Stage,
    pub is_rejected: bool,
    pub is_revised: bool,
    pub is_finished: bool,
    pub account_status: i32,
    pub client_id: String,
    pub cif_id: String,
    pub email: String,
    pub mobile_phone: String,
    pub sales: i32,
    pub save_ip_address: String,
    pub personal: PersonalFields,
    pub bank: BankFields,
    pub employment: EmploymentFields,
    pub supporting: SupportingFields,
    pub files: FileRefs,
}

/// The secondary onboarding attributes keyed to the record: residency,
/// the beneficiary-owner answer, referral, emergency contact and the
/// beneficial-owner details.
#[derive(Debug)]
pub struct AuxiliaryRequestRecord {
    pub residence_status: i32,
    /// The beneficiary-owner answer stored by the personal-data step; 0
    /// until that step has run.
    pub beneficiary_owner: i32,
    pub referal: String,
    pub contact: ContactFields,
    pub beneficiary: BeneficiaryFields,
}

/// The credential and activation record keyed to the same applicant.
#[derive(Debug)]
pub struct AuthUserRecord {
    pub email: String,
    pub mobile_phone: String,
    pub password_hash: String,
    pub activate_code: String,
    pub otp_link: String,
    pub otp_date: u64,
    pub disabled_login: bool,
    pub picture: String,
    pub register_date: u64,
    pub activate_time: u64,
    pub reset_password_key: String,
    pub reset_password_flag: bool,
    pub reset_password_date: u64,
    pub client_category: u8,
}

/// One applicant: the onboarding record with its auxiliary and credential
/// records, created together at registration and keyed by one identifier.
#[derive(Debug)]
pub struct CustomerRow {
    pub record: OnboardingRecord,
    pub aux: AuxiliaryRequestRecord,
    pub auth: AuthUserRecord,
}

// ---------------------------------------------------------------------------
// Validated request types.  The HTTP layer performs schema validation and
// hands these to the processors.
// ---------------------------------------------------------------------------

/// A login attempt.
#[derive(Debug)]
pub struct LoginRequest {
    pub email: Option<String>,
    pub password: Option<String>,
}

/// A registration: creates the three records of one applicant.
#[derive(Debug)]
pub struct RegisterRequest {
    pub email: Option<String>,
    pub password: Option<String>,
    pub mobile_phone: Option<String>,
    pub full_name: Option<String>,
    pub bank_account_number: Option<String>,
    pub bank_name: Option<String>,
    pub bank_account_holder: Option<String>,
    pub question_rdn: i32,
    pub sales: i32,
    pub referal: String,
    pub client_category: u8,
    pub app_ipaddress: String,
}

/// The personal-data step's payload.
#[derive(Debug)]
pub struct DataPribadiRequest {
    pub email: Option<String>,
    pub mobile_phone: Option<String>,
    pub full_name: Option<String>,
    pub mother_name: Option<String>,
    pub idcard_number: Option<String>,
    pub nationality: i32,
    pub sex: i32,
    pub residence_status: i32,
    /// The beneficiary-owner answer that decides the branch.
    pub beneficiary_owner: i32,
    pub birth_place: Option<String>,
    pub birth_date: Option<DateStamp>,
    pub birth_country: Option<String>,
    pub religion: i32,
    pub marital_status: i32,
    pub education: i32,
    pub copy_id: Option<bool>,
    pub idcard_expireddate: Option<DateStamp>,
    pub idcard_country: Option<String>,
    pub idcard_file: String,
    pub selfie_file: String,
    pub signature_file: String,
    pub idcard_city: i32,
    pub idcard_district: Option<String>,
    pub idcard_subdistrict: Option<String>,
    pub idcard_rt: Option<String>,
    pub idcard_rw: Option<String>,
    pub idcard_zipcode: Option<String>,
    pub idcard_address: Option<String>,
    pub domicile_city: i32,
    pub domicile_district: Option<String>,
    pub domicile_subdistrict: Option<String>,
    pub domicile_rt: Option<String>,
    pub domicile_rw: Option<String>,
    pub domicile_zipcode: Option<String>,
    pub domicile_address: Option<String>,
}

/// The bank-data step's payload.
#[derive(Debug)]
pub struct DataBankRequest {
    pub question_rdn: i32,
    pub bank_name: Option<String>,
    pub bank_account_holder: Option<String>,
    pub bank_account_number: Option<String>,
    pub bank_branch: Option<String>,
}

/// The employment-data step's payload.
#[derive(Debug)]
pub struct DataPekerjaanRequest {
    pub company_name: Option<String>,
    pub company_city: i32,
    pub company_address: Option<String>,
    pub company_zipcode: Option<String>,
    pub question_npwp: i32,
    pub npwp_reason: Option<String>,
    pub npwp_number: Option<String>,
    pub npwp_file: String,
    pub fund_source: i32,
    pub fund_source_text: Option<String>,
    pub occupation: i32,
    pub occupation_text: Option<String>,
    pub nature_bussiness: i32,
    pub nature_bussiness_text: Option<String>,
    pub position: i32,
    pub position_text: Option<String>,
    pub income_peranum: i32,
    pub spouse_name: Option<String>,
    pub spouse_relationship: i32,
    pub spouse_occupation: i32,
    pub spouse_occupation_text: Option<String>,
    pub spouse_fund_source: i32,
    pub spouse_fund_source_text: Option<String>,
    pub spouse_position: i32,
    pub spouse_income_peranum: i32,
    pub spouse_nature_bussiness: i32,
    pub spouse_company_name: Option<String>,
    pub spouse_company_city: i32,
    pub spouse_company_address: Option<String>,
    pub spouse_company_zipcode: Option<String>,
}

/// The supporting-data step's payload.
#[derive(Debug)]
pub struct DataPendukungRequest {
    pub contact_person_name: Option<String>,
    pub contact_person_relation: Option<String>,
    pub contact_person_home_phone: Option<String>,
    pub contact_person_mobile_phone: Option<String>,
    pub contact_person_address: Option<String>,
    pub question_1: bool,
    pub question_1text: Option<String>,
    pub question_2: bool,
    pub question_2text: Option<String>,
    pub question_3: bool,
    pub question_3text: Option<String>,
    pub question_4: bool,
    pub question_4text: Option<String>,
    pub question_5: bool,
    pub question_5text: Option<String>,
    pub question_6: bool,
    pub question_6text: Option<String>,
    pub investment_objective: i32,
    pub risk: i32,
    pub question_fatca: Option<String>,
    pub fatca_1: Option<String>,
    pub fatca_2: Option<String>,
    pub fatca_3: Option<String>,
}

/// The beneficiary-data step's payload.
#[derive(Debug)]
pub struct DataBeneficiaryRequest {
    pub beneficiary_name: Option<String>,
    pub beneficiary_mother_maiden_name: Option<String>,
    pub beneficiary_relation: Option<String>,
    pub beneficiary_sex: Option<String>,
    pub beneficiary_birth_place: Option<String>,
    pub beneficiary_birth_date: Option<DateStamp>,
    pub beneficiary_nationality: Option<String>,
    pub beneficiary_idcard_type: Option<String>,
    pub beneficiary_idcard_number: Option<String>,
    pub beneficiary_idcard_expiredate: Option<DateStamp>,
    pub beneficiary_email: Option<String>,
    pub beneficiary_npwp_number: Option<String>,
    pub beneficiary_address: Option<String>,
    pub beneficiary_city: Option<String>,
    pub beneficiary_province: Option<String>,
    pub beneficiary_country: Option<String>,
    pub beneficiary_postalcode: Option<String>,
    pub beneficiary_mobile_phone: Option<String>,
    pub beneficiary_occupation: Option<String>,
    pub beneficiary_fund_source: Option<String>,
}

/// The document files to store for a record.
#[derive(Debug)]
pub struct CIFFileRequest {
    pub idcard_file: String,
    pub selfie_file: String,
    pub signature_file: String,
}

/// A password-reset request.
#[derive(Debug)]
pub struct ResetPasswordRequest {
    pub email: Option<String>,
}

/// A password change, authorized by the reset key sent earlier.
#[derive(Debug)]
pub struct ChangePasswordRequest {
    pub email: Option<String>,
    pub password: Option<String>,
    pub reset_password_key: String,
}

/// The authenticated user returned by a successful login.
#[derive(Debug)]
pub struct WebUser {
    pub auth_usernid: i32,
    pub email: String,
    pub mobile_phone: String,
    pub disabled_login: bool,
    pub picture: Option<String>,
    pub register_date: u64,
}

/// The full snapshot of one applicant's data returned to the client.
#[derive(Debug)]
pub struct UserInfo {
    pub autonid: i32,
    pub stage: i32,
    pub client_id: String,
    pub cif_id: String,
    pub is_revised: bool,
    pub is_rejected: bool,
    pub is_finished: bool,
    pub account_status: i32,
    pub email: String,
    pub mobile_phone: String,
    pub sales: i32,
    pub personal: PersonalFields,
    pub bank: BankFields,
    pub employment: EmploymentFields,
    pub supporting: SupportingFields,
    pub files: FileRefs,
    pub contact: ContactFields,
    pub beneficiary_owner: i32,
    pub residence_status: i32,
}

/// An employment group with nothing filled in yet.
pub open spec fn is_empty_employment(e: EmploymentFields) -> bool {
    &&& e.company_name is None
    &&& e.company_city == 0
    &&& e.company_address is None
    &&& e.company_zipcode is None
    &&& e.question_npwp == 0
    &&& e.npwp_reason is None
    &&& e.npwp_number is None
    &&& e.npwp_file@.len() == 0
    &&& e.fund_source == 0
    &&& e.fund_source_text is None
    &&& e.occupation == 0
    &&& e.occupation_text is None
    &&& e.nature_bussiness == 0
    &&& e.nature_bussiness_text is None
    &&& e.position == 0
    &&& e.position_text is None
    &&& e.income_peranum == 0
    &&& e.spouse_name is None
    &&& e.spouse_relationship == 0
    &&& e.spouse_occupation == 0
    &&& e.spouse_occupation_text is None
    &&& e.spouse_fund_source == 0
    &&& e.spouse_fund_source_text is None
    &&& e.spouse_position == 0
    &&& e.spouse_income_peranum == 0
    &&& e.spouse_nature_bussiness == 0
    &&& e.spouse_company_name is None
    &&& e.spouse_company_city == 0
    &&& e.spouse_company_address is None
    &&& e.spouse_company_zipcode is None
}

/// A questionnaire group with nothing filled in yet.
pub open spec fn is_empty_supporting(s: SupportingFields) -> bool {
    &&& !s.question_1 && s.question_1text is None
    &&& !s.question_2 && s.question_2text is None
    &&& !s.question_3 && s.question_3text is None
    &&& !s.question_4 && s.question_4text is None
    &&& !s.question_5 && s.question_5text is None
    &&& !s.question_6 && s.question_6text is None
    &&& s.investment_objective == 0
    &&& s.risk == 0
    &&& s.question_fatca is None
    &&& s.fatca_1 is None
    &&& s.fatca_2 is None
    &&& s.fatca_3 is None
}

/// A contact group with nothing filled in yet.
pub open spec fn is_empty_contact(c: ContactFields) -> bool {
    &&& c.contact_person_name is None
    &&& c.contact_person_relation is None
    &&& c.contact_person_home_phone is None
    &&& c.contact_person_mobile_phone is None
    &&& c.contact_person_address is None
}

/// A beneficiary group with nothing filled in yet.
pub open spec fn is_empty_beneficiary(b: BeneficiaryFields) -> bool {
    &&& b.beneficiary_name is None
    &&& b.beneficiary_mother_maiden_name is None
    &&& b.beneficiary_relation is None
    &&& b.beneficiary_sex is None
    &&& b.beneficiary_birth_place is None
    &&& b.beneficiary_birth_date is None
    &&& b.beneficiary_nationality is None
    &&& b.beneficiary_idcard_type is None
    &&& b.beneficiary_idcard_number is None
    &&& b.beneficiary_idcard_expiredate is None
    &&& b.beneficiary_email is None
    &&& b.beneficiary_npwp_number is None
    &&& b.beneficiary_address is None
    &&& b.beneficiary_city is None
    &&& b.beneficiary_province is None
    &&& b.beneficiary_country is None
    &&& b.beneficiary_postalcode is None
    &&& b.beneficiary_mobile_phone is None
    &&& b.beneficiary_occupation is None
    &&& b.beneficiary_fund_source is None
}

/// File references with nothing stored yet.
pub open spec fn is_empty_files(f: FileRefs) -> bool {
    &&& f.idcard_file@.len() == 0
    &&& f.selfie_file@.len() == 0
    &&& f.signature_file@.len() == 0
}

impl EmploymentFields {
    /// The empty employment group.
    pub fn empty() -> (e: Self)
        ensures
            is_empty_employment(e),
    {
        EmploymentFields {
            company_name: None,
            company_city: 0,
            company_address: None,
            company_zipcode: None,
            question_npwp: 0,
            npwp_reason: None,
            npwp_number: None,
            npwp_file: String::new(),
            fund_source: 0,
            fund_source_text: None,
            occupation: 0,
            occupation_text: None,
            nature_bussiness: 0,
            nature_bussiness_text: None,
            position: 0,
            position_text: None,
            income_peranum: 0,
            spouse_name: None,
            spouse_relationship: 0,
            spouse_occupation: 0,
            spouse_occupation_text: None,
            spouse_fund_source: 0,
            spouse_fund_source_text: None,
            spouse_position: 0,
            spouse_income_peranum: 0,
            spouse_nature_bussiness: 0,
            spouse_company_name: None,
            spouse_company_city: 0,
            spouse_company_address: None,
            spouse_company_zipcode: None,
        }
    }
}

impl SupportingFields {
    /// The empty questionnaire group.
    pub fn empty() -> (s: Self)
        ensures
            is_empty_supporting(s),
    {
        SupportingFields {
            question_1: false,
            question_1text: None,
            question_2: false,
            question_2text: None,
            question_3: false,
            question_3text: None,
            question_4: false,
            question_4text: None,
            question_5: false,
            question_5text: None,
            question_6: false,
            question_6text: None,
            investment_objective: 0,
            risk: 0,
            question_fatca: None,
            fatca_1: None,
            fatca_2: None,
            fatca_3: None,
        }
    }
}

impl ContactFields {
    /// The empty contact group.
    pub fn empty() -> (c: Self)
        ensures
            is_empty_contact(c),
    {
        ContactFields {
            contact_person_name: None,
            contact_person_relation: None,
            contact_person_home_phone: None,
            contact_person_mobile_phone: None,
            contact_person_address: None,
        }
    }
}

impl BeneficiaryFields {
    /// The empty beneficiary group.
    pub fn empty() -> (b: Self)
        ensures
            is_empty_beneficiary(b),
    {
        BeneficiaryFields {
            beneficiary_name: None,
            beneficiary_mother_maiden_name: None,
            beneficiary_relation: None,
            beneficiary_sex: None,
            beneficiary_birth_place: None,
            beneficiary_birth_date: None,
            beneficiary_nationality: None,
            beneficiary_idcard_type: None,
            beneficiary_idcard_number: None,
            beneficiary_idcard_expiredate: None,
            beneficiary_email: None,
            beneficiary_npwp_number: None,
            beneficiary_address: None,
            beneficiary_city: None,
            beneficiary_province: None,
            beneficiary_country: None,
            beneficiary_postalcode: None,
            beneficiary_mobile_phone: None,
            beneficiary_occupation: None,
            beneficiary_fund_source: None,
        }
    }
}

impl FileRefs {
    /// File references with nothing stored.
    pub fn empty() -> (f: Self)
        ensures
            is_empty_files(f),
    {
        FileRefs {
            idcard_file: String::new(),
            selfie_file: String::new(),
            signature_file: String::new(),
        }
    }
}

/// Take the string out of an option known to hold one.
pub fn unwrap_string(o: Option<String>) -> (r: String)
    requires
        o is Some,
    ensures
        r == o->0,
{
    match o {
        Some(s) => s,
        None => String::new(),
    }
}

/// Borrow the string in an option, or the empty string.
pub fn opt_str_or_empty(o: &Option<String>) -> (r: &str)
    ensures
        match o {
            Some(s) => r@ == s@,
            None => r@ =~= Seq::<char>::empty(),
        },
{
    match o {
        Some(s) => s.as_str(),
        None => {
            let empty = "";
            proof {
                reveal_strlit("");
            }
            empty
        },
    }
}

/// Clone an optional string, preserving its value.
pub(crate) fn clone_opt_string(o: &Option<String>) -> (r: Option<String>)
    ensures
        r == *o,
{
    match o {
        Some(s) => Some(s.clone()),
        None => None,
    }
}

impl Clone for PersonalFields {
    /// A clone carries exactly the same fields.
    fn clone(&self) -> (r: Self)
        ensures
            r == *self,
    {
        PersonalFields {
            full_name: clone_opt_string(&self.full_name),
            mother_name: clone_opt_string(&self.mother_name),
            nationality: self.nationality,
            idcard_number: clone_opt_string(&self.idcard_number),
            idcard_expireddate: self.idcard_expireddate,
            idcard_country: clone_opt_string(&self.idcard_country),
            sex: self.sex,
            birth_date: self.birth_date,
            birth_place: clone_opt_string(&self.birth_place),
            birth_country: clone_opt_string(&self.birth_country),
            religion: self.religion,
            marital_status: self.marital_status,
            education: self.education,
            copy_id: self.copy_id,
            idcard_city: self.idcard_city,
            idcard_district: clone_opt_string(&self.idcard_district),
            idcard_subdistrict: clone_opt_string(&self.idcard_subdistrict),
            idcard_rt: clone_opt_string(&self.idcard_rt),
            idcard_rw: clone_opt_string(&self.idcard_rw),
            idcard_zipcode: clone_opt_string(&self.idcard_zipcode),
            idcard_address: clone_opt_string(&self.idcard_address),
            domicile_city: self.domicile_city,
            domicile_district: clone_opt_string(&self.domicile_district),
            domicile_subdistrict: clone_opt_string(&self.domicile_subdistrict),
            domicile_rt: clone_opt_string(&self.domicile_rt),
            domicile_rw: clone_opt_string(&self.domicile_rw),
            domicile_zipcode: clone_opt_string(&self.domicile_zipcode),
            domicile_address: clone_opt_string(&self.domicile_address),
        }
    }
}

impl Clone for BankFields {
    /// A clone carries exactly the same fields.
    fn clone(&self) -> (r: Self)
        ensures
            r == *self,
    {
        BankFields {
            question_rdn: self.question_rdn,
            bank_name: clone_opt_string(&self.bank_name),
            bank_account_holder: clone_opt_string(&self.bank_account_holder),
            bank_account_number: clone_opt_string(&self.bank_account_number),
            bank_branch: clone_opt_string(&self.bank_branch),
        }
    }
}

impl Clone for EmploymentFields {
    /// A clone carries exactly the same fields.
    fn clone(&self) -> (r: Self)
        ensures
            r == *self,
    {
        EmploymentFields {
            company_name: clone_opt_string(&self.company_name),
            company_city: self.company_city,
            company_address: clone_opt_string(&self.company_address),
            company_zipcode: clone_opt_string(&self.company_zipcode),
            question_npwp: self.question_npwp,
            npwp_reason: clone_opt_string(&self.npwp_reason),
            npwp_number: clone_opt_string(&self.npwp_number),
            npwp_file: self.npwp_file.clone(),
            fund_source: self.fund_source,
            fund_source_text: clone_opt_string(&self.fund_source_text),
            occupation: self.occupation,
            occupation_text: clone_opt_string(&self.occupation_text),
            nature_bussiness: self.nature_bussiness,
            nature_bussiness_text: clone_opt_string(&self.nature_bussiness_text),
            position: self.position,
            position_text: clone_opt_string(&self.position_text),
            income_peranum: self.income_peranum,
            spouse_name: clone_opt_string(&self.spouse_name),
            spouse_relationship: self.spouse_relationship,
            spouse_occupation: self.spouse_occupation,
            spouse_occupation_text: clone_opt_string(&self.spouse_occupation_text),
            spouse_fund_source: self.spouse_fund_source,
            spouse_fund_source_text: clone_opt_string(&self.spouse_fund_source_text),
            spouse_position: self.spouse_position,
            spouse_income_peranum: self.spouse_income_peranum,
            spouse_nature_bussiness: self.spouse_nature_bussiness,
            spouse_company_name: clone_opt_string(&self.spouse_company_name),
            spouse_company_city: self.spouse_company_city,
            spouse_company_address: clone_opt_string(&self.spouse_company_address),
            spouse_company_zipcode: clone_opt_string(&self.spouse_company_zipcode),
        }
    }
}

impl Clone for SupportingFields {
    /// A clone carries exactly the same fields.
    fn clone(&self) -> (r: Self)
        ensures
            r == *self,
    {
        SupportingFields {
            question_1: self.question_1,
            question_1text: clone_opt_string(&self.question_1text),
            question_2: self.question_2,
            question_2text: clone_opt_string(&self.question_2text),
            question_3: self.question_3,
            question_3text: clone_opt_string(&self.question_3text),
            question_4: self.question_4,
            question_4text: clone_opt_string(&self.question_4text),
            question_5: self.question_5,
            question_5text: clone_opt_string(&self.question_5text),
            question_6: self.question_6,
            question_6text: clone_opt_string(&self.question_6text),
            investment_objective: self.investment_objective,
            risk: self.risk,
            question_fatca: clone_opt_string(&self.question_fatca),
            fatca_1: clone_opt_string(&self.fatca_1),
            fatca_2: clone_opt_string(&self.fatca_2),
            fatca_3: clone_opt_string(&self.fatca_3),
        }
    }
}

impl Clone for ContactFields {
    /// A clone carries exactly the same fields.
    fn clone(&self) -> (r: Self)
        ensures
            r == *self,
    {
        ContactFields {
            contact_person_name: clone_opt_string(&self.contact_person_name),
            contact_person_relation: clone_opt_string(&self.contact_person_relation),
            contact_person_home_phone: clone_opt_string(&self.contact_person_home_phone),
            contact_person_mobile_phone: clone_opt_string(&self.contact_person_mobile_phone),
            contact_person_address: clone_opt_string(&self.contact_person_address),
        }
    }
}

impl Clone for FileRefs {
    /// A clone carries exactly the same fields.
    fn clone(&self) -> (r: Self)
        ensures
            r == *self,
    {
        FileRefs {
            idcard_file: self.idcard_file.clone(),
            selfie_file: self.selfie_file.clone(),
            signature_file: self.signature_file.clone(),
        }
    }
}

/// A company lookup row.
#[derive(Debug)]
pub struct Company {
    pub company_id: String,
    pub company_name: String,
}

/// One row of a lookup listing: an identifier, a short code and a
/// description.
#[derive(Debug)]
pub struct ListData {
    pub data_id: i32,
    pub code: String,
    pub description: String,
}

} // verus!
