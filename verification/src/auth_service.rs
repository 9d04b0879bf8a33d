//! Registration, login and credential maintenance.
//!
//! Registration creates the three records of one applicant inside a single
//! transaction; the other operations mutate only the credential record,
//! again inside one transaction each.

use vstd::prelude::*;
use vstd::string::StringExecFns;
use crate::connection::{ConnectionPool, Database, Transaction, RowUpdate};
use crate::crypto::{encrypt_text, hex_of, sha256_of};
use crate::envelope::ActionResult;
use crate::generic_service::{is_charset_char, GenericService};
use crate::model::{AuthUserRecord, AuxiliaryRequestRecord, BankFields, BeneficiaryFields,
    ChangePasswordRequest, ContactFields, CustomerRow, EmploymentFields, FileRefs, LoginRequest,
    OnboardingRecord,
    PersonalFields, RegisterRequest, ResetPasswordRequest, SupportingFields, WebUser,
    is_empty_beneficiary, is_empty_contact, is_empty_employment, is_empty_files,
    is_empty_supporting, opt_str_or_empty, unwrap_string};
use crate::stage::Stage;

verus! {

/// Reported when the pool has no connection to lease.
pub const MSG_AUTH_POOL_EXHAUSTED: &'static str = "connection pool exhausted";

/// Reported when no credential record matches.
pub const MSG_NO_USER: &'static str = "No user found for email";

/// Reported when a registration reuses an email.
pub const MSG_EMAIL_EXISTS: &'static str = "Email already exists";

/// Whether the row's credentials carry this email and password digest.
pub open spec fn credentials_match(row: CustomerRow, email: Seq<char>, hash: Seq<char>) -> bool {
    row.auth.email@ == email && row.auth.password_hash@ == hash
}

/// The first row whose credentials carry this email and password digest.
pub open spec fn find_by_credentials(
    rows: Seq<CustomerRow>,
    email: Seq<char>,
    hash: Seq<char>,
) -> Option<int>
    decreases rows.len(),
{
    if rows.len() == 0 {
        None
    } else if credentials_match(rows[0], email, hash) {
        Some(0)
    } else {
        match find_by_credentials(rows.drop_first(), email, hash) {
            Some(i) => Some(i + 1),
            None => None,
        }
    }
}

/// The first row whose credential record carries this email.
pub open spec fn find_by_email(rows: Seq<CustomerRow>, email: Seq<char>) -> Option<int>
    decreases rows.len(),
{
    if rows.len() == 0 {
        None
    } else if rows[0].auth.email@ == email {
        Some(0)
    } else {
        match find_by_email(rows.drop_first(), email) {
            Some(i) => Some(i + 1),
            None => None,
        }
    }
}

/// The first row whose credential record carries this activation link.
pub open spec fn find_by_otp(rows: Seq<CustomerRow>, link: Seq<char>) -> Option<int>
    decreases rows.len(),
{
    if rows.len() == 0 {
        None
    } else if rows[0].auth.otp_link@ == link {
        Some(0)
    } else {
        match find_by_otp(rows.drop_first(), link) {
            Some(i) => Some(i + 1),
            None => None,
        }
    }
}

/// The first row carrying this email and this reset-password key.
pub open spec fn find_by_reset_key(
    rows: Seq<CustomerRow>,
    email: Seq<char>,
    key: Seq<char>,
) -> Option<int>
    decreases rows.len(),
{
    if rows.len() == 0 {
        None
    } else if rows[0].auth.email@ == email && rows[0].auth.reset_password_key@ == key {
        Some(0)
    } else {
        match find_by_reset_key(rows.drop_first(), email, key) {
            Some(i) => Some(i + 1),
            None => None,
        }
    }
}

/// What `find_by_credentials` finds matches; what it misses matches
/// nowhere.
pub proof fn lemma_find_by_credentials(rows: Seq<CustomerRow>, email: Seq<char>, hash: Seq<char>)
    ensures
        match find_by_credentials(rows, email, hash) {
            Some(i) => 0 <= i < rows.len() && credentials_match(rows[i], email, hash),
            None => forall|j: int| 0 <= j < rows.len()
                ==> !credentials_match(#[trigger] rows[j], email, hash),
        },
    decreases rows.len(),
{
    if rows.len() > 0 && !credentials_match(rows[0], email, hash) {
        lemma_find_by_credentials(rows.drop_first(), email, hash);
        assert forall|j: int| 1 <= j < rows.len()
            implies rows[j] == rows.drop_first()[j - 1] by {}
    }
}

/// A first credentials match at `k` is what `find_by_credentials` finds.
proof fn lemma_find_by_credentials_at(
    rows: Seq<CustomerRow>,
    email: Seq<char>,
    hash: Seq<char>,
    k: int,
)
    requires
        0 <= k < rows.len(),
        credentials_match(rows[k], email, hash),
        forall|j: int| 0 <= j < k ==> !credentials_match(#[trigger] rows[j], email, hash),
    ensures
        find_by_credentials(rows, email, hash) == Some(k),
    decreases rows.len(),
{
    if k > 0 {
        lemma_find_by_credentials_at(rows.drop_first(), email, hash, k - 1);
    }
}

/// What `find_by_email` finds matches; what it misses matches nowhere.
pub proof fn lemma_find_by_email(rows: Seq<CustomerRow>, email: Seq<char>)
    ensures
        match find_by_email(rows, email) {
            Some(i) => 0 <= i < rows.len() && rows[i].auth.email@ == email,
            None => forall|j: int| 0 <= j < rows.len()
                ==> (#[trigger] rows[j]).auth.email@ != email,
        },
    decreases rows.len(),
{
    if rows.len() > 0 && rows[0].auth.email@ != email {
        lemma_find_by_email(rows.drop_first(), email);
        assert forall|j: int| 1 <= j < rows.len()
            implies rows[j] == rows.drop_first()[j - 1] by {}
    }
}

/// A first email match at `k` is what `find_by_email` finds.
proof fn lemma_find_by_email_at(rows: Seq<CustomerRow>, email: Seq<char>, k: int)
    requires
        0 <= k < rows.len(),
        rows[k].auth.email@ == email,
        forall|j: int| 0 <= j < k ==> (#[trigger] rows[j]).auth.email@ != email,
    ensures
        find_by_email(rows, email) == Some(k),
    decreases rows.len(),
{
    if k > 0 {
        lemma_find_by_email_at(rows.drop_first(), email, k - 1);
    }
}

/// What `find_by_otp` finds matches; what it misses matches nowhere.
pub proof fn lemma_find_by_otp(rows: Seq<CustomerRow>, link: Seq<char>)
    ensures
        match find_by_otp(rows, link) {
            Some(i) => 0 <= i < rows.len() && rows[i].auth.otp_link@ == link,
            None => forall|j: int| 0 <= j < rows.len()
                ==> (#[trigger] rows[j]).auth.otp_link@ != link,
        },
    decreases rows.len(),
{
    if rows.len() > 0 && rows[0].auth.otp_link@ != link {
        lemma_find_by_otp(rows.drop_first(), link);
        assert forall|j: int| 1 <= j < rows.len()
            implies rows[j] == rows.drop_first()[j - 1] by {}
    }
}

/// A first activation-link match at `k` is what `find_by_otp` finds.
proof fn lemma_find_by_otp_at(rows: Seq<CustomerRow>, link: Seq<char>, k: int)
    requires
        0 <= k < rows.len(),
        rows[k].auth.otp_link@ == link,
        forall|j: int| 0 <= j < k ==> (#[trigger] rows[j]).auth.otp_link@ != link,
    ensures
        find_by_otp(rows, link) == Some(k),
    decreases rows.len(),
{
    if k > 0 {
        lemma_find_by_otp_at(rows.drop_first(), link, k - 1);
    }
}

/// Whether the row carries this email and reset key.
pub open spec fn reset_key_matches(row: CustomerRow, email: Seq<char>, key: Seq<char>) -> bool {
    row.auth.email@ == email && row.auth.reset_password_key@ == key
}

/// What `find_by_reset_key` finds matches; what it misses matches nowhere.
pub proof fn lemma_find_by_reset_key(rows: Seq<CustomerRow>, email: Seq<char>, key: Seq<char>)
    ensures
        match find_by_reset_key(rows, email, key) {
            Some(i) => 0 <= i < rows.len() && reset_key_matches(rows[i], email, key),
            None => forall|j: int| 0 <= j < rows.len()
                ==> !reset_key_matches(#[trigger] rows[j], email, key),
        },
    decreases rows.len(),
{
    if rows.len() > 0 && !reset_key_matches(rows[0], email, key) {
        lemma_find_by_reset_key(rows.drop_first(), email, key);
        assert forall|j: int| 1 <= j < rows.len()
            implies rows[j] == rows.drop_first()[j - 1] by {}
    }
}

/// A first email-and-key match at `k` is what `find_by_reset_key` finds.
proof fn lemma_find_by_reset_key_at(
    rows: Seq<CustomerRow>,
    email: Seq<char>,
    key: Seq<char>,
    k: int,
)
    requires
        0 <= k < rows.len(),
        reset_key_matches(rows[k], email, key),
        forall|j: int| 0 <= j < k ==> !reset_key_matches(#[trigger] rows[j], email, key),
    ensures
        find_by_reset_key(rows, email, key) == Some(k),
    decreases rows.len(),
{
    if k > 0 {
        lemma_find_by_reset_key_at(rows.drop_first(), email, key, k - 1);
    }
}

/// The authenticated user reported by a successful login.
pub open spec fn web_user_of(row: CustomerRow) -> WebUser {
    WebUser {
        auth_usernid: row.record.record_id,
        email: row.auth.email,
        mobile_phone: row.auth.mobile_phone,
        disabled_login: row.auth.disabled_login,
        picture: Some(row.auth.picture),
        register_date: row.auth.register_date,
    }
}

/// The row after activation: login enabled, the activation time stamped.
pub open spec fn activated_row(row: CustomerRow, now: u64) -> CustomerRow {
    CustomerRow {
        auth: AuthUserRecord { disabled_login: false, activate_time: now, ..row.auth },
        ..row
    }
}

/// The login email as the processors read it: the given address, or empty.
pub open spec fn email_chars(email: Option<String>) -> Seq<char> {
    match email {
        Some(e) => e@,
        None => Seq::<char>::empty(),
    }
}

/// The password digest the processors store and compare: the hexadecimal
/// SHA-256 of the given password, or of the empty string.
pub open spec fn password_digest(password: Option<String>) -> Seq<char> {
    hex_of(sha256_of(email_chars(password)))
}


/// The position of the first row matching these credentials, if any.
fn locate_credentials(db: &Database, email: &String, hash: &String) -> (r: Option<usize>)
    ensures
        r matches Some(i) ==> find_by_credentials(db.rows_view(), email@, hash@)
            == Some(i as int) && i < db.rows_view().len(),
        r is None ==> find_by_credentials(db.rows_view(), email@, hash@) is None,
{
    let n = db.row_count();
    let mut k: usize = 0;
    while k < n
        invariant
            n as int == db.rows_view().len(),
            k <= n,
            forall|j: int| 0 <= j < k
                ==> !credentials_match(#[trigger] db.rows_view()[j], email@, hash@),
        decreases n - k,
    {
        let row = db.row(k);
        if row.auth.email == *email && row.auth.password_hash == *hash {
            proof {
                lemma_find_by_credentials_at(db.rows_view(), email@, hash@, k as int);
            }
            return Some(k);
        }
        k = k + 1;
    }
    proof {
        lemma_find_by_credentials(db.rows_view(), email@, hash@);
    }
    None
}

/// The position of the first row with this credential email, if any.
fn locate_by_email(guard: &Transaction, email: &String) -> (r: Option<usize>)
    ensures
        r matches Some(i) ==> find_by_email(guard.rows(), email@) == Some(i as int)
            && i < guard.rows().len(),
        r is None ==> find_by_email(guard.rows(), email@) is None,
{
    let n = guard.row_count();
    let mut k: usize = 0;
    while k < n
        invariant
            n as int == guard.rows().len(),
            k <= n,
            forall|j: int| 0 <= j < k ==> (#[trigger] guard.rows()[j]).auth.email@ != email@,
        decreases n - k,
    {
        if guard.row(k).auth.email == *email {
            proof {
                lemma_find_by_email_at(guard.rows(), email@, k as int);
            }
            return Some(k);
        }
        k = k + 1;
    }
    proof {
        lemma_find_by_email(guard.rows(), email@);
    }
    None
}

/// The position of the first row with this activation link, if any.
fn locate_by_otp(guard: &Transaction, link: &String) -> (r: Option<usize>)
    ensures
        r matches Some(i) ==> find_by_otp(guard.rows(), link@) == Some(i as int)
            && i < guard.rows().len(),
        r is None ==> find_by_otp(guard.rows(), link@) is None,
{
    let n = guard.row_count();
    let mut k: usize = 0;
    while k < n
        invariant
            n as int == guard.rows().len(),
            k <= n,
            forall|j: int| 0 <= j < k ==> (#[trigger] guard.rows()[j]).auth.otp_link@ != link@,
        decreases n - k,
    {
        if guard.row(k).auth.otp_link == *link {
            proof {
                lemma_find_by_otp_at(guard.rows(), link@, k as int);
            }
            return Some(k);
        }
        k = k + 1;
    }
    proof {
        lemma_find_by_otp(guard.rows(), link@);
    }
    None
}

/// The position of the first row with this email and reset key, if any.
fn locate_by_reset_key(guard: &Transaction, email: &String, key: &String) -> (r: Option<usize>)
    ensures
        r matches Some(i) ==> find_by_reset_key(guard.rows(), email@, key@) == Some(i as int)
            && i < guard.rows().len(),
        r is None ==> find_by_reset_key(guard.rows(), email@, key@) is None,
{
    let n = guard.row_count();
    let mut k: usize = 0;
    while k < n
        invariant
            n as int == guard.rows().len(),
            k <= n,
            forall|j: int| 0 <= j < k
                ==> !reset_key_matches(#[trigger] guard.rows()[j], email@, key@),
        decreases n - k,
    {
        let row = guard.row(k);
        if row.auth.email == *email && row.auth.reset_password_key == *key {
            proof {
                lemma_find_by_reset_key_at(guard.rows(), email@, key@, k as int);
            }
            return Some(k);
        }
        k = k + 1;
    }
    proof {
        lemma_find_by_reset_key(guard.rows(), email@, key@);
    }
    None
}

/// Registration, login and credential maintenance.
pub struct AuthService;

impl AuthService {
    /// Check a login: the stored password digest must match the offered
    /// password under this email.  A plain read: no transaction is opened.
    pub fn login(
        pool: &mut ConnectionPool,
        db: &Database,
        request: LoginRequest,
    ) -> (r: ActionResult<WebUser, String>)
        requires
            old(pool).wf(),
            db.wf(),
        ensures
            final(pool).wf(),
            final(pool).capacity_spec() == old(pool).capacity_spec(),
            final(pool).idle_count() == old(pool).idle_count(),
            old(pool).idle_count() == 0 ==> r.is_fatal(),
            old(pool).idle_count() > 0 ==> ({
                let email = email_chars(request.email);
                let hash = password_digest(request.password);
                match find_by_credentials(db.rows_view(), email, hash) {
                    None => r.is_business_rejection() && r.data is None
                        && r.message@ == MSG_NO_USER@,
                    Some(i) => r.is_success()
                        && r.data == Some(web_user_of(db.rows_view()[i]))
                        && r.message@ == "Welcome "@ + email,
                }
            }),
    {
        let conn = match pool.acquire() {
            Ok(conn) => conn,
            Err(_) => {
                return ActionResult::fatal(MSG_AUTH_POOL_EXHAUSTED);
            },
        };
        let email = match request.email {
            Some(e) => e,
            None => String::new(),
        };
        let enc = encrypt_text(opt_str_or_empty(&request.password));
        let found = locate_credentials(db, &email, &enc);
        let r = match found {
            None => ActionResult::rejection(MSG_NO_USER),
            Some(i) => {
                let row = db.row(i);
                let user = WebUser {
                    auth_usernid: row.record.record_id,
                    email: row.auth.email.clone(),
                    mobile_phone: row.auth.mobile_phone.clone(),
                    disabled_login: row.auth.disabled_login,
                    picture: Some(row.auth.picture.clone()),
                    register_date: row.auth.register_date,
                };
                let mut message: String = "Welcome ".to_owned();
                message.append(email.as_str());
                ActionResult { result: true, message, data: Some(user), error: None }
            },
        };
        pool.release(conn);
        r
    }

    /// Register a new applicant: create the onboarding record at the first
    /// stage, the auxiliary record and the credential record, all in one
    /// transaction.  A taken email is refused and nothing is created.
    ///
    /// The activation code and the one-time link are drawn at random: their
    /// length and alphabet are fixed, their contents are not.
    pub fn register(
        pool: &mut ConnectionPool,
        db: &mut Database,
        request: RegisterRequest,
        now: u64,
    ) -> (r: ActionResult<(), String>)
        requires
            old(pool).wf(),
            old(db).wf(),
            old(db).next_id_spec() < i32::MAX as int,
            request.email is Some,
            request.password is Some,
            request.mobile_phone is Some,
            request.full_name is Some,
        ensures
            final(pool).wf(),
            final(db).wf(),
            final(pool).capacity_spec() == old(pool).capacity_spec(),
            final(pool).idle_count() == old(pool).idle_count(),
            old(pool).idle_count() == 0 ==> r.is_fatal()
                && final(db).rows_view() == old(db).rows_view(),
            old(pool).idle_count() > 0 ==> ({
                let rows = old(db).rows_view();
                match find_by_email(rows, (request.email->0)@) {
                    Some(_) => final(db).rows_view() == rows && !r.result
                        && (r.error matches Some(e) && e@ == MSG_EMAIL_EXISTS@),
                    None => {
                        let nr = final(db).rows_view().last();
                        &&& r.is_success()
                        &&& r.message@ == "User registered successfully"@
                        &&& final(db).rows_view() == rows.push(nr)
                        &&& final(db).next_id_spec() == old(db).next_id_spec() + 1
                        &&& nr.record.record_id as int == old(db).next_id_spec()
                        &&& nr.record.stage == Stage::PersonalPending
                        &&& !nr.record.is_rejected
                        &&& !nr.record.is_revised
                        &&& !nr.record.is_finished
                        &&& nr.record.account_status == 0
                        &&& nr.record.client_id@.len() == 0
                        &&& nr.record.cif_id@.len() == 0
                        &&& nr.record.email == request.email->0
                        &&& nr.record.mobile_phone == request.mobile_phone->0
                        &&& nr.record.sales == request.sales
                        &&& nr.record.save_ip_address == request.app_ipaddress
                        &&& nr.record.personal == (PersonalFields {
                            full_name: request.full_name,
                            mother_name: None,
                            nationality: 0,
                            idcard_number: None,
                            idcard_expireddate: None,
                            idcard_country: None,
                            sex: 0,
                            birth_date: None,
                            birth_place: None,
                            birth_country: None,
                            religion: 0,
                            marital_status: 0,
                            education: 0,
                            copy_id: None,
                            idcard_city: 0,
                            idcard_district: None,
                            idcard_subdistrict: None,
                            idcard_rt: None,
                            idcard_rw: None,
                            idcard_zipcode: None,
                            idcard_address: None,
                            domicile_city: 0,
                            domicile_district: None,
                            domicile_subdistrict: None,
                            domicile_rt: None,
                            domicile_rw: None,
                            domicile_zipcode: None,
                            domicile_address: None,
                        })
                        &&& nr.record.bank == (BankFields {
                            question_rdn: request.question_rdn,
                            bank_name: request.bank_name,
                            bank_account_holder: request.bank_account_holder,
                            bank_account_number: request.bank_account_number,
                            bank_branch: None,
                        })
                        &&& is_empty_employment(nr.record.employment)
                        &&& is_empty_supporting(nr.record.supporting)
                        &&& is_empty_files(nr.record.files)
                        &&& nr.aux.residence_status == 0
                        &&& nr.aux.beneficiary_owner == 0
                        &&& nr.aux.referal == request.referal
                        &&& is_empty_contact(nr.aux.contact)
                        &&& is_empty_beneficiary(nr.aux.beneficiary)
                        &&& nr.auth.email@ == (request.email->0)@
                        &&& nr.auth.mobile_phone@ == (request.mobile_phone->0)@
                        &&& nr.auth.password_hash@ == password_digest(request.password)
                        &&& nr.auth.activate_code@.len() == 20
                        &&& forall|t: int| 0 <= t < nr.auth.activate_code@.len()
                            ==> is_charset_char(#[trigger] nr.auth.activate_code@[t])
                        &&& nr.auth.otp_link@.len() == 70
                        &&& forall|t: int| 0 <= t < nr.auth.otp_link@.len()
                            ==> is_charset_char(#[trigger] nr.auth.otp_link@[t])
                        &&& nr.auth.otp_date == now
                        &&& nr.auth.register_date == now
                        &&& nr.auth.disabled_login
                        &&& nr.auth.picture@.len() == 0
                        &&& nr.auth.activate_time == 0
                        &&& nr.auth.reset_password_key@.len() == 0
                        &&& !nr.auth.reset_password_flag
                        &&& nr.auth.reset_password_date == 0
                        &&& nr.auth.client_category == request.client_category
                    },
                }
            }),
    {
        let conn = match pool.acquire() {
            Ok(conn) => conn,
            Err(_) => {
                return ActionResult::fatal(MSG_AUTH_POOL_EXHAUSTED);
            },
        };
        let enc = encrypt_text(opt_str_or_empty(&request.password));
        let email = unwrap_string(request.email);
        let mobile = unwrap_string(request.mobile_phone);
        let mut work = Database::empty();
        core::mem::swap(db, &mut work);
        let mut guard = Transaction::begin(conn, work);
        let taken = locate_by_email(&guard, &email);
        if taken.is_some() {
            let (conn, done) = guard.finish();
            *db = done;
            pool.release(conn);
            return ActionResult::fatal(MSG_EMAIL_EXISTS);
        }
        let record_id = guard.fresh_record_id();
        let row = CustomerRow {
            record: OnboardingRecord {
                record_id,
                stage: Stage::PersonalPending,
                is_rejected: false,
                is_revised: false,
                is_finished: false,
                account_status: 0,
                client_id: String::new(),
                cif_id: String::new(),
                email: email.clone(),
                mobile_phone: mobile.clone(),
                sales: request.sales,
                save_ip_address: request.app_ipaddress,
                personal: PersonalFields {
                    full_name: request.full_name,
                    mother_name: None,
                    nationality: 0,
                    idcard_number: None,
                    idcard_expireddate: None,
                    idcard_country: None,
                    sex: 0,
                    birth_date: None,
                    birth_place: None,
                    birth_country: None,
                    religion: 0,
                    marital_status: 0,
                    education: 0,
                    copy_id: None,
                    idcard_city: 0,
                    idcard_district: None,
                    idcard_subdistrict: None,
                    idcard_rt: None,
                    idcard_rw: None,
                    idcard_zipcode: None,
                    idcard_address: None,
                    domicile_city: 0,
                    domicile_district: None,
                    domicile_subdistrict: None,
                    domicile_rt: None,
                    domicile_rw: None,
                    domicile_zipcode: None,
                    domicile_address: None,
                },
                bank: BankFields {
                    question_rdn: request.question_rdn,
                    bank_name: request.bank_name,
                    bank_account_holder: request.bank_account_holder,
                    bank_account_number: request.bank_account_number,
                    bank_branch: None,
                },
                employment: EmploymentFields::empty(),
                supporting: SupportingFields::empty(),
                files: FileRefs::empty(),
            },
            aux: AuxiliaryRequestRecord {
                residence_status: 0,
                beneficiary_owner: 0,
                referal: request.referal,
                contact: ContactFields::empty(),
                beneficiary: BeneficiaryFields::empty(),
            },
            auth: AuthUserRecord {
                email,
                mobile_phone: mobile,
                password_hash: enc,
                activate_code: GenericService::random_string(20),
                otp_link: GenericService::random_string(70),
                otp_date: now,
                disabled_login: true,
                picture: String::new(),
                register_date: now,
                activate_time: 0,
                reset_password_key: String::new(),
                reset_password_flag: false,
                reset_password_date: 0,
                client_category: request.client_category,
            },
        };
        let _ = guard.insert(row);
        let _ = guard.commit();
        let (conn, done) = guard.finish();
        *db = done;
        pool.release(conn);
        ActionResult::success("User registered successfully")
    }

    /// Activate the account that carries this one-time link: enable login
    /// and stamp the activation time.
    pub fn activation_user(
        pool: &mut ConnectionPool,
        db: &mut Database,
        otp_link: String,
        now: u64,
    ) -> (r: ActionResult<(), String>)
        requires
            old(pool).wf(),
            old(db).wf(),
        ensures
            final(pool).wf(),
            final(db).wf(),
            final(pool).capacity_spec() == old(pool).capacity_spec(),
            final(pool).idle_count() == old(pool).idle_count(),
            final(db).next_id_spec() == old(db).next_id_spec(),
            old(pool).idle_count() == 0 ==> r.is_fatal()
                && final(db).rows_view() == old(db).rows_view(),
            old(pool).idle_count() > 0 ==> ({
                let rows = old(db).rows_view();
                match find_by_otp(rows, otp_link@) {
                    None => final(db).rows_view() == rows && r.is_business_rejection()
                        && r.message@ == MSG_NO_USER@,
                    Some(i) => r.is_success() && r.message@ == "Activation successfully"@
                        && final(db).rows_view() == rows.update(i, activated_row(rows[i], now)),
                }
            }),
    {
        let conn = match pool.acquire() {
            Ok(conn) => conn,
            Err(_) => {
                return ActionResult::fatal(MSG_AUTH_POOL_EXHAUSTED);
            },
        };
        let mut work = Database::empty();
        core::mem::swap(db, &mut work);
        let mut guard = Transaction::begin(conn, work);
        let found = locate_by_otp(&guard, &otp_link);
        match found {
            None => {
                let (conn, done) = guard.finish();
                *db = done;
                pool.release(conn);
                ActionResult::rejection(MSG_NO_USER)
            },
            Some(i) => {
                let a = &guard.row(i).auth;
                let updated = AuthUserRecord {
                    email: a.email.clone(),
                    mobile_phone: a.mobile_phone.clone(),
                    password_hash: a.password_hash.clone(),
                    activate_code: a.activate_code.clone(),
                    otp_link: a.otp_link.clone(),
                    otp_date: a.otp_date,
                    disabled_login: false,
                    picture: a.picture.clone(),
                    register_date: a.register_date,
                    activate_time: now,
                    reset_password_key: a.reset_password_key.clone(),
                    reset_password_flag: a.reset_password_flag,
                    reset_password_date: a.reset_password_date,
                    client_category: a.client_category,
                };
                let _ = guard.apply(i, RowUpdate::Credentials(updated));
                let _ = guard.commit();
                let (conn, done) = guard.finish();
                *db = done;
                pool.release(conn);
                ActionResult::success("Activation successfully")
            },
        }
    }

    /// Start a password reset for this email: store a fresh random reset
    /// key, raise the reset flag and stamp the time.
    pub fn forget_password(
        pool: &mut ConnectionPool,
        db: &mut Database,
        request: ResetPasswordRequest,
        now: u64,
    ) -> (r: ActionResult<(), String>)
        requires
            old(pool).wf(),
            old(db).wf(),
        ensures
            final(pool).wf(),
            final(db).wf(),
            final(pool).capacity_spec() == old(pool).capacity_spec(),
            final(pool).idle_count() == old(pool).idle_count(),
            final(db).next_id_spec() == old(db).next_id_spec(),
            old(pool).idle_count() == 0 ==> r.is_fatal()
                && final(db).rows_view() == old(db).rows_view(),
            old(pool).idle_count() > 0 ==> ({
                let rows = old(db).rows_view();
                match find_by_email(rows, email_chars(request.email)) {
                    None => final(db).rows_view() == rows && r.is_business_rejection()
                        && r.message@ == MSG_NO_USER@,
                    Some(i) => {
                        let nr = final(db).rows_view()[i];
                        &&& r.is_success()
                        &&& r.message@ == "Reset password successfully"@
                        &&& final(db).rows_view() == rows.update(i, (CustomerRow {
                            auth: AuthUserRecord {
                                reset_password_key: nr.auth.reset_password_key,
                                reset_password_flag: true,
                                reset_password_date: now,
                                ..rows[i].auth
                            },
                            ..rows[i]
                        }))
                        &&& nr.auth.reset_password_key@.len() == 70
                        &&& forall|t: int| 0 <= t < nr.auth.reset_password_key@.len()
                            ==> is_charset_char(#[trigger] nr.auth.reset_password_key@[t])
                    },
                }
            }),
    {
        let conn = match pool.acquire() {
            Ok(conn) => conn,
            Err(_) => {
                return ActionResult::fatal(MSG_AUTH_POOL_EXHAUSTED);
            },
        };
        let email = match request.email {
            Some(e) => e,
            None => String::new(),
        };
        let ghost email_view = email_chars(request.email);
        let mut work = Database::empty();
        core::mem::swap(db, &mut work);
        let mut guard = Transaction::begin(conn, work);
        let found = locate_by_email(&guard, &email);
        match found {
            None => {
                let (conn, done) = guard.finish();
                *db = done;
                pool.release(conn);
                ActionResult::rejection(MSG_NO_USER)
            },
            Some(i) => {
                let a = &guard.row(i).auth;
                let updated = AuthUserRecord {
                    email: a.email.clone(),
                    mobile_phone: a.mobile_phone.clone(),
                    password_hash: a.password_hash.clone(),
                    activate_code: a.activate_code.clone(),
                    otp_link: a.otp_link.clone(),
                    otp_date: a.otp_date,
                    disabled_login: a.disabled_login,
                    picture: a.picture.clone(),
                    register_date: a.register_date,
                    activate_time: a.activate_time,
                    reset_password_key: GenericService::random_string(70),
                    reset_password_flag: true,
                    reset_password_date: now,
                    client_category: a.client_category,
                };
                let _ = guard.apply(i, RowUpdate::Credentials(updated));
                let _ = guard.commit();
                let (conn, done) = guard.finish();
                *db = done;
                pool.release(conn);
                ActionResult::success("Reset password successfully")
            },
        }
    }

    /// Complete a password reset: under the matching email and reset key,
    /// store the digest of the new password.
    pub fn change_password(
        pool: &mut ConnectionPool,
        db: &mut Database,
        request: ChangePasswordRequest,
    ) -> (r: ActionResult<(), String>)
        requires
            old(pool).wf(),
            old(db).wf(),
        ensures
            final(pool).wf(),
            final(db).wf(),
            final(pool).capacity_spec() == old(pool).capacity_spec(),
            final(pool).idle_count() == old(pool).idle_count(),
            final(db).next_id_spec() == old(db).next_id_spec(),
            old(pool).idle_count() == 0 ==> r.is_fatal()
                && final(db).rows_view() == old(db).rows_view(),
            old(pool).idle_count() > 0 ==> ({
                let rows = old(db).rows_view();
                match find_by_reset_key(rows, email_chars(request.email),
                    request.reset_password_key@) {
                    None => final(db).rows_view() == rows && r.is_business_rejection()
                        && r.message@ == MSG_NO_USER@,
                    Some(i) => {
                        let nr = final(db).rows_view()[i];
                        &&& r.is_success()
                        &&& r.message@ == "Change password successfully"@
                        &&& final(db).rows_view() == rows.update(i, (CustomerRow {
                            auth: AuthUserRecord {
                                password_hash: nr.auth.password_hash,
                                reset_password_flag: true,
                                ..rows[i].auth
                            },
                            ..rows[i]
                        }))
                        &&& nr.auth.password_hash@ == password_digest(request.password)
                    },
                }
            }),
    {
        let conn = match pool.acquire() {
            Ok(conn) => conn,
            Err(_) => {
                return ActionResult::fatal(MSG_AUTH_POOL_EXHAUSTED);
            },
        };
        let email = match request.email {
            Some(ref e) => e.clone(),
            None => String::new(),
        };
        let enc = encrypt_text(opt_str_or_empty(&request.password));
        let ghost email_view = email_chars(request.email);
        let mut work = Database::empty();
        core::mem::swap(db, &mut work);
        let mut guard = Transaction::begin(conn, work);
        let found = locate_by_reset_key(&guard, &email, &request.reset_password_key);
        match found {
            None => {
                let (conn, done) = guard.finish();
                *db = done;
                pool.release(conn);
                ActionResult::rejection(MSG_NO_USER)
            },
            Some(i) => {
                let a = &guard.row(i).auth;
                let updated = AuthUserRecord {
                    email: a.email.clone(),
                    mobile_phone: a.mobile_phone.clone(),
                    password_hash: enc,
                    activate_code: a.activate_code.clone(),
                    otp_link: a.otp_link.clone(),
                    otp_date: a.otp_date,
                    disabled_login: a.disabled_login,
                    picture: a.picture.clone(),
                    register_date: a.register_date,
                    activate_time: a.activate_time,
                    reset_password_key: a.reset_password_key.clone(),
                    reset_password_flag: true,
                    reset_password_date: a.reset_password_date,
                    client_category: a.client_category,
                };
                let _ = guard.apply(i, RowUpdate::Credentials(updated));
                let _ = guard.commit();
                let (conn, done) = guard.finish();
                *db = done;
                pool.release(conn);
                ActionResult::success("Change password successfully")
            },
        }
    }
}

} // verus!
