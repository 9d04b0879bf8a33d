//! The persistence model: a bounded connection pool, the record store, and
//! the transaction guard.
//!
//! The guard makes "begin a transaction, do work, commit or roll back" a
//! leak-free unit.  [`Transaction::begin`] takes exclusive ownership of one
//! pooled connection and of the store; every mutation records its own undo
//! entry in a journal; [`Transaction::finish`] is the explicit destruction
//! path and must be called on every exit: unless [`Transaction::commit`]
//! succeeded first, it replays the journal so that the store leaves exactly
//! as it entered, and it always hands back a connection with no transaction
//! open on it.

use vstd::prelude::*;
use crate::model::{CustomerRow, PersonalFields, BankFields, EmploymentFields, SupportingFields,
    ContactFields, BeneficiaryFields, FileRefs, AuthUserRecord, OnboardingRecord,
    AuxiliaryRequestRecord};
use crate::stage::Stage;

verus! {

/// Why a connection could not be handed out.
#[derive(Clone, Copy, Debug, PartialEq, Eq, Structural)]
pub enum PoolError {
    /// Every connection is leased and the wait timed out.
    PoolExhausted,
    /// The connection could not be established; produced by adapters around
    /// a real driver, never by the in-memory pool.
    ConnectionError,
}

/// The programming-error signal for misuse of a resolved transaction guard.
#[derive(Clone, Copy, Debug, PartialEq, Eq, Structural)]
pub enum GuardError {
    /// The guard was already committed; it cannot be used again.
    AlreadyResolved,
}

/// One database connection, handed out by the pool as an exclusive lease.
#[derive(Debug)]
pub struct Connection {
    tx_open: bool,
}

impl Connection {
    /// Whether a transaction is open on this connection.
    pub closed spec fn is_open(&self) -> bool {
        self.tx_open
    }
}

/// A bounded pool of database connections.  `acquire` hands out an owned,
/// exclusive lease; `release` returns it.  Exhaustion surfaces as
/// [`PoolError::PoolExhausted`].
#[derive(Debug)]
pub struct ConnectionPool {
    idle: Vec<Connection>,
    capacity: usize,
}

impl ConnectionPool {
    /// The fixed number of connections the pool was created with.
    pub closed spec fn capacity_spec(&self) -> int {
        self.capacity as int
    }

    /// How many connections are idle in the pool right now.
    pub closed spec fn idle_count(&self) -> int {
        self.idle@.len() as int
    }

    /// No idle connection has a transaction open.
    pub closed spec fn idle_conns_closed(&self) -> bool {
        forall|i: int| 0 <= i < self.idle@.len() ==> !(#[trigger] self.idle@[i]).is_open()
    }

    /// Pool invariant: no idle connection has a transaction open, and no
    /// more connections are idle than were ever created.
    pub open spec fn wf(&self) -> bool {
        &&& 0 <= self.idle_count() <= self.capacity_spec()
        &&& self.idle_conns_closed()
    }

    /// Hand out one idle connection, or report exhaustion.
    pub fn acquire(&mut self) -> (r: Result<Connection, PoolError>)
        requires
            old(self).wf(),
        ensures
            final(self).wf(),
            final(self).capacity_spec() == old(self).capacity_spec(),
            old(self).idle_count() > 0 ==> (r matches Ok(conn) && !conn.is_open()
                && final(self).idle_count() == old(self).idle_count() - 1
                && final(self).idle_count() < final(self).capacity_spec()),
            old(self).idle_count() == 0 ==> (r == Err::<Connection, PoolError>(
                PoolError::PoolExhausted) && final(self).idle_count() == 0),
    {
        match self.idle.pop() {
            Some(conn) => Ok(conn),
            None => Err(PoolError::PoolExhausted),
        }
    }

    /// Return a leased connection.  The caller must hand it back with no
    /// transaction open: the guard's `finish` guarantees exactly that.
    pub fn release(&mut self, conn: Connection)
        requires
            old(self).wf(),
            !conn.is_open(),
            old(self).idle_count() < old(self).capacity_spec(),
        ensures
            final(self).wf(),
            final(self).capacity_spec() == old(self).capacity_spec(),
            final(self).idle_count() == old(self).idle_count() + 1,
    {
        self.idle.push(conn);
    }
}

/// Create a pool of `capacity` connections, all idle.
pub fn create_pool(capacity: usize) -> (pool: ConnectionPool)
    ensures
        pool.wf(),
        pool.capacity_spec() == capacity as int,
        pool.idle_count() == capacity as int,
{
    let mut idle: Vec<Connection> = Vec::new();
    let mut i: usize = 0;
    while i < capacity
        invariant
            i <= capacity,
            idle@.len() == i as int,
            forall|j: int| 0 <= j < idle@.len() ==> !(#[trigger] idle@[j]).is_open(),
        decreases capacity - i,
    {
        idle.push(Connection { tx_open: false });
        i = i + 1;
    }
    ConnectionPool { idle, capacity }
}

/// Well-formedness of a record store: identifiers are at least 1, below the
/// next free identifier, and pairwise distinct.
pub open spec fn rows_wf(rows: Seq<CustomerRow>, next_id: int) -> bool {
    &&& forall|i: int| 0 <= i < rows.len()
        ==> 1 <= (#[trigger] rows[i]).record.record_id < next_id
    &&& forall|i: int, j: int| 0 <= i < rows.len() && 0 <= j < rows.len() && i != j
        ==> (#[trigger] rows[i]).record.record_id != (#[trigger] rows[j]).record.record_id
}

/// The index of the first row with the given identifier.
pub open spec fn find_row(rows: Seq<CustomerRow>, record_id: i32) -> Option<int>
    decreases rows.len(),
{
    if rows.len() == 0 {
        None
    } else if rows[0].record.record_id == record_id {
        Some(0)
    } else {
        match find_row(rows.drop_first(), record_id) {
            Some(i) => Some(i + 1),
            None => None,
        }
    }
}

/// What `find_row` finds is in range, matches, and is the first match; when
/// it finds nothing, nothing matches.
pub proof fn lemma_find_row(rows: Seq<CustomerRow>, record_id: i32)
    ensures
        match find_row(rows, record_id) {
            Some(i) => 0 <= i < rows.len() && rows[i].record.record_id == record_id
                && forall|j: int| 0 <= j < i ==> (#[trigger] rows[j]).record.record_id != record_id,
            None => forall|j: int| 0 <= j < rows.len()
                ==> (#[trigger] rows[j]).record.record_id != record_id,
        },
    decreases rows.len(),
{
    if rows.len() > 0 && rows[0].record.record_id != record_id {
        lemma_find_row(rows.drop_first(), record_id);
        assert forall|j: int| 0 <= j < rows.len() && rows.drop_first().len() > j - 1 >= 0
            implies rows[j] == rows.drop_first()[j - 1] by {}
    }
}

/// A row with the given identifier at position `k`, before which nothing
/// matches, is what `find_row` finds.
proof fn lemma_find_row_first(rows: Seq<CustomerRow>, record_id: i32, k: int)
    requires
        0 <= k < rows.len(),
        rows[k].record.record_id == record_id,
        forall|j: int| 0 <= j < k ==> (#[trigger] rows[j]).record.record_id != record_id,
    ensures
        find_row(rows, record_id) == Some(k),
    decreases rows.len(),
{
    if k > 0 {
        lemma_find_row_first(rows.drop_first(), record_id, k - 1);
    }
}

/// The in-memory record store: every applicant's row, plus the next free
/// record identifier.
#[derive(Debug)]
pub struct Database {
    rows: Vec<CustomerRow>,
    next_id: i32,
}

impl Database {
    /// The rows, as a sequence.
    pub closed spec fn rows_view(&self) -> Seq<CustomerRow> {
        self.rows@
    }

    /// The identifier the next created record will get.
    pub closed spec fn next_id_spec(&self) -> int {
        self.next_id as int
    }

    /// Store invariant.
    pub open spec fn wf(&self) -> bool {
        &&& rows_wf(self.rows_view(), self.next_id_spec())
        &&& 1 <= self.next_id_spec()
    }

    /// An empty store.
    pub fn empty() -> (db: Database)
        ensures
            db.wf(),
            db.rows_view() == Seq::<CustomerRow>::empty(),
            db.next_id_spec() == 1,
    {
        Database { rows: Vec::new(), next_id: 1 }
    }

    /// How many rows the store holds.
    pub fn row_count(&self) -> (n: usize)
        ensures
            n as int == self.rows_view().len(),
    {
        self.rows.len()
    }

    /// The identifier the next created record will get.
    pub fn next_record_id(&self) -> (id: i32)
        ensures
            id as int == self.next_id_spec(),
    {
        self.next_id
    }

    /// A row by position.
    pub fn row(&self, i: usize) -> (r: &CustomerRow)
        requires
            i < self.rows_view().len(),
        ensures
            *r == self.rows_view()[i as int],
    {
        &self.rows[i]
    }

    /// The position of the row with the given identifier, if any.
    pub fn find_index(&self, record_id: i32) -> (r: Option<usize>)
        ensures
            r matches Some(i) ==> find_row(self.rows_view(), record_id) == Some(i as int),
            r is None ==> find_row(self.rows_view(), record_id) is None,
    {
        let n = self.rows.len();
        let mut k: usize = 0;
        while k < n
            invariant
                n as int == self.rows_view().len(),
                k <= n,
                forall|j: int| 0 <= j < k
                    ==> (#[trigger] self.rows_view()[j]).record.record_id != record_id,
            decreases n - k,
        {
            if self.rows[k].record.record_id == record_id {
                proof {
                    lemma_find_row_first(self.rows_view(), record_id, k as int);
                }
                return Some(k);
            }
            k = k + 1;
        }
        proof {
            lemma_find_row(self.rows_view(), record_id);
        }
        None
    }
}

/// One journalled mutation of a row: each variant replaces one field group
/// of the row, and carries the group it replaces it with.  Applying the
/// variant that carries the previous contents undoes the mutation.
#[derive(Debug)]
pub enum RowUpdate {
    Personal(PersonalFields),
    Bank(BankFields),
    Employment(EmploymentFields),
    Supporting(SupportingFields),
    Contact(ContactFields),
    Beneficiary(BeneficiaryFields),
    Files(FileRefs),
    /// The residency status and beneficiary-owner answer on the auxiliary
    /// record.
    Residency(i32, i32),
    /// The record's stage.
    StageTo(Stage),
    /// The record's finished flag.
    Finished(bool),
    /// The mutable credential fields, replaced whole.
    Credentials(AuthUserRecord),
}

/// The row after one mutation.
pub open spec fn apply_update_spec(row: CustomerRow, u: RowUpdate) -> CustomerRow {
    match u {
        RowUpdate::Personal(p) => CustomerRow {
            record: OnboardingRecord { personal: p, ..row.record },
            ..row
        },
        RowUpdate::Bank(b) => CustomerRow {
            record: OnboardingRecord { bank: b, ..row.record },
            ..row
        },
        RowUpdate::Employment(e) => CustomerRow {
            record: OnboardingRecord { employment: e, ..row.record },
            ..row
        },
        RowUpdate::Supporting(s) => CustomerRow {
            record: OnboardingRecord { supporting: s, ..row.record },
            ..row
        },
        RowUpdate::Contact(c) => CustomerRow {
            aux: AuxiliaryRequestRecord { contact: c, ..row.aux },
            ..row
        },
        RowUpdate::Beneficiary(b) => CustomerRow {
            aux: AuxiliaryRequestRecord { beneficiary: b, ..row.aux },
            ..row
        },
        RowUpdate::Files(f) => CustomerRow {
            record: OnboardingRecord { files: f, ..row.record },
            ..row
        },
        RowUpdate::Residency(status, owner) => CustomerRow {
            aux: AuxiliaryRequestRecord {
                residence_status: status,
                beneficiary_owner: owner,
                ..row.aux
            },
            ..row
        },
        RowUpdate::StageTo(s) => CustomerRow {
            record: OnboardingRecord { stage: s, ..row.record },
            ..row
        },
        RowUpdate::Finished(f) => CustomerRow {
            record: OnboardingRecord { is_finished: f, ..row.record },
            ..row
        },
        RowUpdate::Credentials(a) => CustomerRow { auth: a, ..row },
    }
}

/// No mutation touches the record's identifier.
pub proof fn lemma_apply_update_preserves_id(row: CustomerRow, u: RowUpdate)
    ensures
        apply_update_spec(row, u).record.record_id == row.record.record_id,
{
}

/// Apply one mutation to a row, returning the mutation that undoes it.
fn apply_to_row(row: &mut CustomerRow, u: RowUpdate) -> (undo: RowUpdate)
    ensures
        *final(row) == apply_update_spec(*old(row), u),
        apply_update_spec(*final(row), undo) == *old(row),
{
    match u {
        RowUpdate::Personal(mut p) => {
            core::mem::swap(&mut row.record.personal, &mut p);
            RowUpdate::Personal(p)
        },
        RowUpdate::Bank(mut b) => {
            core::mem::swap(&mut row.record.bank, &mut b);
            RowUpdate::Bank(b)
        },
        RowUpdate::Employment(mut e) => {
            core::mem::swap(&mut row.record.employment, &mut e);
            RowUpdate::Employment(e)
        },
        RowUpdate::Supporting(mut s) => {
            core::mem::swap(&mut row.record.supporting, &mut s);
            RowUpdate::Supporting(s)
        },
        RowUpdate::Contact(mut c) => {
            core::mem::swap(&mut row.aux.contact, &mut c);
            RowUpdate::Contact(c)
        },
        RowUpdate::Beneficiary(mut b) => {
            core::mem::swap(&mut row.aux.beneficiary, &mut b);
            RowUpdate::Beneficiary(b)
        },
        RowUpdate::Files(mut f) => {
            core::mem::swap(&mut row.record.files, &mut f);
            RowUpdate::Files(f)
        },
        RowUpdate::Residency(status, owner) => {
            let old_status = row.aux.residence_status;
            let old_owner = row.aux.beneficiary_owner;
            row.aux.residence_status = status;
            row.aux.beneficiary_owner = owner;
            RowUpdate::Residency(old_status, old_owner)
        },
        RowUpdate::StageTo(s) => {
            let old_stage = row.record.stage;
            row.record.stage = s;
            RowUpdate::StageTo(old_stage)
        },
        RowUpdate::Finished(f) => {
            let old_finished = row.record.is_finished;
            row.record.is_finished = f;
            RowUpdate::Finished(old_finished)
        },
        RowUpdate::Credentials(mut a) => {
            core::mem::swap(&mut row.auth, &mut a);
            RowUpdate::Credentials(a)
        },
    }
}

/// One entry of the transaction's undo journal.
#[derive(Debug)]
enum JournalEntry {
    /// Row `idx` was mutated; `undo` restores it.
    Updated { idx: usize, undo: RowUpdate },
    /// A row was appended; popping it restores the store.
    Appended,
}

/// Undo one journal entry.
spec fn undo_entry(rows: Seq<CustomerRow>, e: JournalEntry) -> Seq<CustomerRow> {
    match e {
        JournalEntry::Updated { idx, undo } => rows.update(
            idx as int,
            apply_update_spec(rows[idx as int], undo),
        ),
        JournalEntry::Appended => rows.drop_last(),
    }
}

/// Undo a whole journal, newest entry first.
spec fn undo_all(journal: Seq<JournalEntry>, rows: Seq<CustomerRow>) -> Seq<CustomerRow>
    decreases journal.len(),
{
    if journal.len() == 0 {
        rows
    } else {
        undo_all(journal.drop_last(), undo_entry(rows, journal.last()))
    }
}

/// Whether a journal's entries stay in bounds when undone against a store of
/// `len` rows.
spec fn journal_fits(journal: Seq<JournalEntry>, len: int) -> bool
    decreases journal.len(),
{
    if journal.len() == 0 {
        true
    } else {
        match journal.last() {
            JournalEntry::Updated { idx, .. } => idx < len
                && journal_fits(journal.drop_last(), len),
            JournalEntry::Appended => len > 0 && journal_fits(journal.drop_last(), len - 1),
        }
    }
}

/// The transaction guard: the exclusive owner of one pooled connection and
/// of the store for the span of one transaction.
///
/// State machine: created `Active`; `commit` moves it to `Committed`, which
/// is terminal; `finish` consumes the guard on every path and performs the
/// implicit rollback when nobody committed.  Rolling back cannot itself
/// fail or panic: it replays the in-memory journal.
pub struct Transaction {
    conn: Connection,
    db: Database,
    journal: Vec<JournalEntry>,
    committed: bool,
    begin_next_id: i32,
    snapshot: Ghost<Seq<CustomerRow>>,
}

impl Transaction {
    /// Whether `commit` has succeeded on this guard.
    pub closed spec fn is_committed(&self) -> bool {
        self.committed
    }

    /// The store's rows as the transaction currently sees them.
    pub closed spec fn rows(&self) -> Seq<CustomerRow> {
        self.db.rows@
    }

    /// The next free record identifier as the transaction sees it.
    pub closed spec fn next_id_spec(&self) -> int {
        self.db.next_id as int
    }

    /// The store's rows as they stood when the transaction began.
    pub closed spec fn snapshot_rows(&self) -> Seq<CustomerRow> {
        self.snapshot@
    }

    /// The next free record identifier when the transaction began.
    pub closed spec fn snapshot_next_id(&self) -> int {
        self.begin_next_id as int
    }

    /// Guard invariant: the journal undoes the work done so far, exactly
    /// back to the snapshot; the store stays well-formed; the connection's
    /// transaction is open exactly until commit.
    pub closed spec fn wf(&self) -> bool {
        &&& self.committed <==> !self.conn.is_open()
        &&& journal_fits(self.journal@, self.db.rows@.len() as int)
        &&& undo_all(self.journal@, self.db.rows@) == self.snapshot@
        &&& rows_wf(self.db.rows@, self.db.next_id as int)
        &&& 1 <= self.db.next_id as int
        &&& rows_wf(self.snapshot@, self.begin_next_id as int)
        &&& 1 <= self.begin_next_id as int
        &&& self.begin_next_id as int <= self.db.next_id as int
    }

    /// Open a transaction: take exclusive ownership of the connection and
    /// the store.  Nothing else can touch either until `finish`.
    pub fn begin(conn: Connection, db: Database) -> (g: Transaction)
        requires
            !conn.is_open(),
            db.wf(),
        ensures
            g.wf(),
            !g.is_committed(),
            g.rows() == db.rows_view(),
            g.next_id_spec() == db.next_id_spec(),
            g.snapshot_rows() == db.rows_view(),
            g.snapshot_next_id() == db.next_id_spec(),
    {
        let ghost snap = db.rows@;
        let begin_next_id = db.next_id;
        Transaction {
            conn: Connection { tx_open: true },
            db,
            journal: Vec::new(),
            committed: false,
            begin_next_id,
            snapshot: Ghost(snap),
        }
    }

    /// How many rows the store holds.
    pub fn row_count(&self) -> (n: usize)
        ensures
            n as int == self.rows().len(),
    {
        self.db.rows.len()
    }

    /// A row by position.
    pub fn row(&self, i: usize) -> (r: &CustomerRow)
        requires
            i < self.rows().len(),
        ensures
            *r == self.rows()[i as int],
    {
        &self.db.rows[i]
    }

    /// The position of the row with the given identifier, if any.
    pub fn find_index(&self, record_id: i32) -> (r: Option<usize>)
        ensures
            r matches Some(i) ==> find_row(self.rows(), record_id) == Some(i as int),
            r is None ==> find_row(self.rows(), record_id) is None,
    {
        self.db.find_index(record_id)
    }

    /// The identifier a record inserted now would get.
    pub fn fresh_record_id(&self) -> (id: i32)
        ensures
            id as int == self.next_id_spec(),
    {
        self.db.next_id
    }

    /// Mutate row `i`.  After a successful commit this is a programming
    /// error: the call fails and changes nothing.
    pub fn apply(&mut self, i: usize, u: RowUpdate) -> (r: Result<(), GuardError>)
        requires
            old(self).wf(),
            i < old(self).rows().len(),
        ensures
            final(self).wf(),
            !old(self).is_committed() ==> {
                &&& r is Ok
                &&& !final(self).is_committed()
                &&& final(self).rows() == old(self).rows().update(
                    i as int,
                    apply_update_spec(old(self).rows()[i as int], u),
                )
                &&& final(self).next_id_spec() == old(self).next_id_spec()
                &&& final(self).snapshot_rows() == old(self).snapshot_rows()
                &&& final(self).snapshot_next_id() == old(self).snapshot_next_id()
            },
            old(self).is_committed() ==> r == Err::<(), GuardError>(GuardError::AlreadyResolved)
                && *final(self) == *old(self),
    {
        if self.committed {
            return Err(GuardError::AlreadyResolved);
        }
        let ghost rows0 = self.db.rows@;
        let ghost journal0 = self.journal@;
        let elem = &mut self.db.rows[i];
        let undo = apply_to_row(elem, u);
        self.journal.push(JournalEntry::Updated { idx: i, undo });
        proof {
            let rows1 = self.db.rows@;
            let e = JournalEntry::Updated { idx: i, undo };
            assert(self.journal@.drop_last() =~= journal0);
            assert(self.journal@.last() == e);
            assert(undo_entry(rows1, e) =~= rows0) by {
                assert(rows1[i as int] == apply_update_spec(rows0[i as int], u));
                assert(apply_update_spec(rows1[i as int], undo) == rows0[i as int]);
            }
            assert(undo_all(self.journal@, rows1) == undo_all(journal0, rows0));
            assert forall|j: int| 0 <= j < rows1.len()
                implies (#[trigger] rows1[j]).record.record_id == rows0[j].record.record_id by {
                if j == i as int {
                    lemma_apply_update_preserves_id(rows0[j], u);
                }
            }
        }
        Ok(())
    }

    /// Append a freshly created row.  The row must carry the identifier the
    /// store is about to assign (see [`Transaction::fresh_record_id`]).
    pub fn insert(&mut self, row: CustomerRow) -> (r: Result<(), GuardError>)
        requires
            old(self).wf(),
            row.record.record_id as int == old(self).next_id_spec(),
            old(self).next_id_spec() < i32::MAX as int,
        ensures
            final(self).wf(),
            !old(self).is_committed() ==> {
                &&& r is Ok
                &&& !final(self).is_committed()
                &&& final(self).rows() == old(self).rows().push(row)
                &&& final(self).next_id_spec() == old(self).next_id_spec() + 1
                &&& final(self).snapshot_rows() == old(self).snapshot_rows()
                &&& final(self).snapshot_next_id() == old(self).snapshot_next_id()
            },
            old(self).is_committed() ==> r == Err::<(), GuardError>(GuardError::AlreadyResolved)
                && *final(self) == *old(self),
    {
        if self.committed {
            return Err(GuardError::AlreadyResolved);
        }
        let ghost rows0 = self.db.rows@;
        let ghost journal0 = self.journal@;
        self.db.rows.push(row);
        self.db.next_id = self.db.next_id + 1;
        self.journal.push(JournalEntry::Appended);
        proof {
            let rows1 = self.db.rows@;
            assert(self.journal@.drop_last() =~= journal0);
            assert(undo_entry(rows1, JournalEntry::Appended) =~= rows0);
            assert(undo_all(self.journal@, rows1) == undo_all(journal0, rows0));
        }
        Ok(())
    }

    /// Commit the transaction.  Consuming the work done so far, it closes
    /// the transaction on the connection; the guard becomes terminal and
    /// every later mutation fails.
    pub fn commit(&mut self) -> (r: Result<(), GuardError>)
        requires
            old(self).wf(),
        ensures
            final(self).wf(),
            !old(self).is_committed() ==> {
                &&& r is Ok
                &&& final(self).is_committed()
                &&& final(self).rows() == old(self).rows()
                &&& final(self).next_id_spec() == old(self).next_id_spec()
            },
            old(self).is_committed() ==> r == Err::<(), GuardError>(GuardError::AlreadyResolved)
                && *final(self) == *old(self),
    {
        if self.committed {
            return Err(GuardError::AlreadyResolved);
        }
        self.committed = true;
        self.conn.tx_open = false;
        Ok(())
    }

    /// The explicit destruction path: every caller must end the guard here,
    /// on success and on every error path alike.  When the guard was
    /// committed, the work is kept; otherwise the journal is replayed and
    /// the store leaves exactly as it entered `begin`.  Either way the
    /// connection comes back with no transaction open, ready for the pool.
    pub fn finish(self) -> (r: (Connection, Database))
        requires
            self.wf(),
        ensures
            !r.0.is_open(),
            r.1.wf(),
            self.is_committed() ==> r.1.rows_view() == self.rows()
                && r.1.next_id_spec() == self.next_id_spec(),
            !self.is_committed() ==> r.1.rows_view() == self.snapshot_rows()
                && r.1.next_id_spec() == self.snapshot_next_id(),
    {
        let Transaction { mut conn, mut db, mut journal, committed, begin_next_id, snapshot } =
            self;
        if committed {
            return (conn, db);
        }
        while journal.len() > 0
            invariant
                journal_fits(journal@, db.rows@.len() as int),
                undo_all(journal@, db.rows@) == snapshot@,
            decreases journal.len(),
        {
            let ghost journal0 = journal@;
            let ghost rows0 = db.rows@;
            let e = journal.pop();
            match e {
                Some(JournalEntry::Updated { idx, undo }) => {
                    let elem = &mut db.rows[idx];
                    let _redo = apply_to_row(elem, undo);
                    proof {
                        assert(journal@ =~= journal0.drop_last());
                        assert(db.rows@ =~= undo_entry(rows0, journal0.last()));
                    }
                },
                Some(JournalEntry::Appended) => {
                    db.rows.pop();
                    proof {
                        assert(journal@ =~= journal0.drop_last());
                        assert(db.rows@ =~= undo_entry(rows0, journal0.last()));
                    }
                },
                None => {
                    proof {
                        assert(false);
                    }
                },
            }
        }
        db.next_id = begin_next_id;
        conn.tx_open = false;
        (conn, db)
    }
}

} // verus!
