//! The handlers of student records: list, add, update, delete, export.

use vstd::prelude::*;
use crate::dates::{duckdb_date_to_string, epoch_day_text, FIRST_EPOCH_DAY, LAST_EPOCH_DAY};
use crate::flow::{Action, Event, RowShape, SqlParam};
use crate::models::{CreateMahasiswa, Mahasiswa, ResponseModel, StudentRow};
use crate::reply::{Body, Reply, OK, INTERNAL_SERVER_ERROR, is_text_reply, is_status_reply, status_reply, text_reply};
use crate::script::{Finish, LockFailure, Op, Script};
use crate::text::{decimal, i32_to_decimal};

verus! {

/// The operation takes the lock and replies 500 "Failed to lock connection"
/// when it is poisoned.
pub open spec fn is_plain_lock(op: Op) -> bool {
    op matches Op::Lock(LockFailure::Fixed(t)) && t@ == "Failed to lock connection"@
}

/// The operation runs `sql` with no parameters and ignores its failure.
pub open spec fn is_optional_run(op: Op, sql: Seq<char>) -> bool {
    op matches Op::Run { sql: s, params: p, required } && !required && s@ == sql && p@.len() == 0
}

/// The operation runs `sql` with `params` and stops the handler with a 500
/// when it fails.
pub open spec fn is_required_run(op: Op, sql: Seq<char>, params: Seq<SqlParam>) -> bool {
    op matches Op::Run { sql: s, params: p, required } && required && s@ == sql && p@ == params
}

/// The operations that refresh the encrypted Parquet snapshot of the
/// student table: export it, register the key, write the encrypted copy,
/// make sure `src/parquet` exists and move the copy there. Every failure
/// is ignored.
pub open spec fn is_parquet_refresh(ops: Seq<Op>) -> bool {
    &&& ops.len() == 5
    &&& is_optional_run(
        ops[0],
        "COPY data_mahasiswa TO 'coba_mahasiswa_exp.parquet' (FORMAT PARQUET);"@,
    )
    &&& is_optional_run(
        ops[1],
        "PRAGMA add_parquet_key('key256', '01234567891123450123456789112345');"@,
    )
    &&& is_optional_run(
        ops[2],
        "COPY coba_mahasiswa_exp.parquet TO 'coba_mahasiswa_exp_encrpt256.parquet' (ENCRYPTION_CONFIG {footer_key: 'key256'});"@,
    )
    &&& ops[3] matches Op::EnsureDir { path } && path@ == "src/parquet"@
    &&& ops[4] matches Op::Move { from, to } && from@ == "coba_mahasiswa_exp_encrpt256.parquet"@
        && to@ == "src/parquet/coba_mahasiswa_exp_encrpt256.parquet"@
}

fn optional_run(sql: &str) -> (op: Op)
    ensures
        is_optional_run(op, sql@),
{
    Op::Run { sql: String::from_str(sql), params: Vec::new(), required: false }
}

pub(crate) fn plain_lock() -> (op: Op)
    ensures
        is_plain_lock(op),
{
    Op::Lock(LockFailure::Fixed(String::from_str("Failed to lock connection")))
}

/// The operations that refresh the encrypted Parquet snapshot after a change.
pub fn to_parquet() -> (ops: Vec<Op>)
    ensures
        is_parquet_refresh(ops@),
{
    let mut ops: Vec<Op> = Vec::new();
    ops.push(optional_run("COPY data_mahasiswa TO 'coba_mahasiswa_exp.parquet' (FORMAT PARQUET);"));
    ops.push(
        optional_run("PRAGMA add_parquet_key('key256', '01234567891123450123456789112345');"),
    );
    ops.push(
        optional_run(
            "COPY coba_mahasiswa_exp.parquet TO 'coba_mahasiswa_exp_encrpt256.parquet' (ENCRYPTION_CONFIG {footer_key: 'key256'});",
        ),
    );
    ops.push(Op::EnsureDir { path: String::from_str("src/parquet") });
    ops.push(
        Op::Move {
            from: String::from_str("coba_mahasiswa_exp_encrpt256.parquet"),
            to: String::from_str("src/parquet/coba_mahasiswa_exp_encrpt256.parquet"),
        },
    );
    ops
}

/// No operation of the snapshot refresh can stop a change with a 500: each
/// statement is run with its failure ignored, and the rest are the
/// directory check and the move, which have no failure.
pub proof fn lemma_refresh_never_fails(ops: Seq<Op>)
    requires
        is_parquet_refresh(ops),
    ensures
        forall|k: int|
            0 <= k < ops.len() ==> match #[trigger] ops[k] {
                Op::Run { required, .. } => !required,
                Op::EnsureDir { .. } => true,
                Op::Move { .. } => true,
                Op::Lock(_) => false,
            },
{
}

/// A change of the student table: lock, the statement, the snapshot
/// refresh, then 200 with `{"status": word}`.
pub open spec fn is_change_script(
    script: Script,
    lock_is_plain: bool,
    sql: Seq<char>,
    params: Seq<SqlParam>,
    word: Seq<char>,
) -> bool {
    let ops = script.ops@;
    &&& ops.len() == 7
    &&& if lock_is_plain {
        is_plain_lock(ops[0])
    } else {
        ops[0] == Op::Lock(LockFailure::Reported)
    }
    &&& is_required_run(ops[1], sql, params)
    &&& is_parquet_refresh(ops.subrange(2, 7))
    &&& script.finish matches Finish::Always(r) && is_status_reply(r, OK, word)
}

fn change_script(lock: Op, sql: &str, params: Vec<SqlParam>, word: &str) -> (script: Script)
    ensures
        script.ops@.len() == 7,
        script.ops@[0] == lock,
        is_required_run(script.ops@[1], sql@, params@),
        is_parquet_refresh(script.ops@.subrange(2, 7)),
        script.finish matches Finish::Always(r) && is_status_reply(r, OK, word@),
{
    let mut ops: Vec<Op> = Vec::new();
    ops.push(lock);
    ops.push(Op::Run { sql: String::from_str(sql), params, required: true });
    let mut refresh = to_parquet();
    let ghost refresh_ops = refresh@;
    ops.append(&mut refresh);
    assert(ops@.subrange(2, 7) =~= refresh_ops);
    Script { ops, finish: Finish::Always(status_reply(OK, word)) }
}

/// Adding a student: insert the row, refresh the snapshot, reply 200
/// `{"status": "success"}`.
pub fn add_mahasiswa(item: CreateMahasiswa) -> (script: Script)
    ensures
        is_change_script(
            script,
            true,
            "INSERT INTO data_mahasiswa (id, nama, tgl_lahir) VALUES (?, ?, ?)"@,
            seq![SqlParam::Int(item.id), SqlParam::Text(item.nama), SqlParam::Text(item.tgl_lahir)],
            "success"@,
        ),
{
    let mut params: Vec<SqlParam> = Vec::new();
    params.push(SqlParam::Int(item.id));
    params.push(SqlParam::Text(item.nama));
    params.push(SqlParam::Text(item.tgl_lahir));
    assert(params@ =~= seq![
        SqlParam::Int(item.id),
        SqlParam::Text(item.nama),
        SqlParam::Text(item.tgl_lahir),
    ]);
    change_script(
        plain_lock(),
        "INSERT INTO data_mahasiswa (id, nama, tgl_lahir) VALUES (?, ?, ?)",
        params,
        "success",
    )
}

/// Updating the student `id`: rewrite its name and date of birth (the id
/// is bound as its decimal text), refresh the snapshot, reply 200
/// `{"status": "sukses"}`. A poisoned lock is reported with its own text.
pub fn update_mahasiswa(id: i32, item: Mahasiswa) -> (script: Script)
    ensures
        script.ops@.len() == 7,
        is_change_script(
            script,
            false,
            "UPDATE data_mahasiswa SET nama = ?, tgl_lahir = ? WHERE id = ?"@,
            script.ops@[1]->Run_params@,
            "sukses"@,
        ),
        script.ops@[1]->Run_params@.len() == 3,
        script.ops@[1]->Run_params@[0] == SqlParam::Text(item.nama),
        script.ops@[1]->Run_params@[1] == SqlParam::Text(item.tgl_lahir),
        script.ops@[1]->Run_params@[2] matches SqlParam::Text(t) && t@ == decimal(id as int),
{
    let mut params: Vec<SqlParam> = Vec::new();
    params.push(SqlParam::Text(item.nama));
    params.push(SqlParam::Text(item.tgl_lahir));
    params.push(SqlParam::Text(i32_to_decimal(id)));
    change_script(
        Op::Lock(LockFailure::Reported),
        "UPDATE data_mahasiswa SET nama = ?, tgl_lahir = ? WHERE id = ?",
        params,
        "sukses",
    )
}

/// Deleting the student `id` (bound as its decimal text), refreshing the
/// snapshot, replying 200 `{"status": "sukses"}`.
pub fn delete_mahasiswa(id: i32) -> (script: Script)
    ensures
        script.ops@.len() == 7,
        is_change_script(
            script,
            true,
            "DELETE FROM data_mahasiswa WHERE id =?"@,
            script.ops@[1]->Run_params@,
            "sukses"@,
        ),
        script.ops@[1]->Run_params@.len() == 1,
        script.ops@[1]->Run_params@[0] matches SqlParam::Text(t) && t@ == decimal(id as int),
{
    let mut params: Vec<SqlParam> = Vec::new();
    params.push(SqlParam::Text(i32_to_decimal(id)));
    change_script(plain_lock(), "DELETE FROM data_mahasiswa WHERE id =?", params, "sukses")
}

/// The statement that copies the student table into the Parquet file `nama_file`.
pub open spec fn export_statement(nama_file: Seq<char>) -> Seq<char> {
    "COPY data_mahasiswa TO '"@ + nama_file + "' (FORMAT PARQUET);"@
}

/// The export statement names the requested file exactly as given: it is
/// `COPY data_mahasiswa TO '`, the 24 characters before the name, then the
/// name, then `' (FORMAT PARQUET);`, the 19 after it; so two different
/// names never give the same statement.
pub proof fn lemma_export_names_the_file(n1: Seq<char>, n2: Seq<char>)
    ensures
        export_statement(n1).len() == n1.len() + 43,
        export_statement(n1).subrange(0, 24) == "COPY data_mahasiswa TO '"@,
        export_statement(n1).subrange(24, 24 + n1.len() as int) == n1,
        export_statement(n1).subrange(24 + n1.len() as int, 43 + n1.len() as int)
            == "' (FORMAT PARQUET);"@,
        (export_statement(n1) == export_statement(n2)) == (n1 == n2),
{
    reveal_strlit("COPY data_mahasiswa TO '");
    reveal_strlit("' (FORMAT PARQUET);");
    let pre = "COPY data_mahasiswa TO '"@;
    let post = "' (FORMAT PARQUET);"@;
    let l1 = n1.len() as int;
    let l2 = n2.len() as int;
    let s1 = export_statement(n1);
    let s2 = export_statement(n2);
    assert(s1 =~= pre + n1 + post);
    assert(s2 =~= pre + n2 + post);
    assert(s1.subrange(0, 24) =~= pre);
    assert(s1.subrange(24, 24 + l1) =~= n1);
    assert(s1.subrange(24 + l1, 43 + l1) =~= post);
    assert(s2.subrange(24, 24 + l2) =~= n2);
    if s1 == s2 {
        assert(l1 == l2);
    }
}

/// Exporting the student table to the Parquet file `nama_file`: lock, run
/// the copy, reply 200 `{"status": "sukses"}`.
pub fn export_mahasiswa(nama_file: String) -> (script: Script)
    ensures
        script.ops@.len() == 2,
        is_plain_lock(script.ops@[0]),
        is_required_run(script.ops@[1], export_statement(nama_file@), seq![]),
        script.ops@[1]->Run_sql@ == "COPY data_mahasiswa TO '"@ + nama_file@
            + "' (FORMAT PARQUET);"@,
        script.finish matches Finish::Always(r) && is_status_reply(r, OK, "sukses"@),
{
    let mut sql = String::from_str("COPY data_mahasiswa TO '");
    sql.append(nama_file.as_str());
    sql.append("' (FORMAT PARQUET);");
    let mut ops: Vec<Op> = Vec::new();
    ops.push(plain_lock());
    ops.push(Op::Run { sql, params: Vec::new(), required: true });
    assert(ops@[1]->Run_params@ =~= Seq::<SqlParam>::empty());
    Script { ops, finish: Finish::Always(status_reply(OK, "sukses")) }
}

/// The rows before position `n` were all read without error.
pub open spec fn read_before(rows: Seq<Result<StudentRow, String>>, n: int) -> bool {
    forall|j: int| 0 <= j < n ==> (#[trigger] rows[j]) is Ok
}

/// Every row that is listed (every row before the first failed one) has a
/// date of birth that the date library can represent.
pub open spec fn dates_representable(rows: Seq<Result<StudentRow, String>>) -> bool {
    forall|i: int|
        0 <= i < rows.len() && read_before(rows, i) && (#[trigger] rows[i]) is Ok ==> {
            let d = rows[i]->Ok_0.tgl_lahir;
            FIRST_EPOCH_DAY <= d <= LAST_EPOCH_DAY
        }
}

/// Whether every row that would be listed has a date of birth that the date
/// library can represent; listing rows that fail this would panic.
pub fn listable_dates(rows: &Vec<Result<StudentRow, String>>) -> (ok: bool)
    ensures
        ok == dates_representable(rows@),
{
    let mut i: usize = 0;
    while i < rows.len()
        invariant
            i <= rows@.len(),
            forall|k: int|
                0 <= k < i && read_before(rows@, k) && (#[trigger] rows@[k]) is Ok ==> {
                    let d = rows@[k]->Ok_0.tgl_lahir;
                    FIRST_EPOCH_DAY <= d <= LAST_EPOCH_DAY
                },
            read_before(rows@, i as int),
        decreases rows@.len() - i,
    {
        match &rows[i] {
            Ok(row) => {
                if row.tgl_lahir < FIRST_EPOCH_DAY || row.tgl_lahir > LAST_EPOCH_DAY {
                    return false;
                }
            },
            Err(_) => {
                assert forall|k: int|
                    0 <= k < rows@.len() && read_before(rows@, k) && (
                    #[trigger] rows@[k]) is Ok implies {
                    let d = rows@[k]->Ok_0.tgl_lahir;
                    FIRST_EPOCH_DAY <= d <= LAST_EPOCH_DAY
                } by {
                    if k > i {
                        assert(rows@[i as int] is Ok);
                    }
                }
                return true;
            },
        }
        i = i + 1;
    }
    true
}

/// Every date the date library can represent can be listed: when each row
/// that was read holds a day count from `FIRST_EPOCH_DAY` to
/// `LAST_EPOCH_DAY`, before 1970 as well as after, the rows are listable.
pub proof fn lemma_dates_in_range_are_listable(rows: Seq<Result<StudentRow, String>>)
    requires
        forall|i: int|
            0 <= i < rows.len() && (#[trigger] rows[i]) is Ok ==> FIRST_EPOCH_DAY
                <= rows[i]->Ok_0.tgl_lahir <= LAST_EPOCH_DAY,
    ensures
        dates_representable(rows),
{
}

/// A listed row whose date lies outside what the date library can represent
/// makes the rows unlistable.
pub proof fn lemma_date_out_of_range_is_not_listable(
    rows: Seq<Result<StudentRow, String>>,
    i: int,
)
    requires
        0 <= i < rows.len(),
        read_before(rows, i),
        rows[i] is Ok,
        rows[i]->Ok_0.tgl_lahir < FIRST_EPOCH_DAY || rows[i]->Ok_0.tgl_lahir > LAST_EPOCH_DAY,
    ensures
        !dates_representable(rows),
{
}

/// `m` lists the stored row `row`: the same fields, the date written out.
pub open spec fn lists(row: StudentRow, m: Mahasiswa) -> bool {
    &&& m.id == row.id
    &&& m.nama == row.nama
    &&& m.tgl_lahir@ == epoch_day_text(row.tgl_lahir as int)
    &&& m.user_id == row.user_id
}

/// What listing `rows` gives: every row listed in order, or the error of
/// the first row that could not be read.
pub open spec fn listing_of(
    rows: Seq<Result<StudentRow, String>>,
    listed: Result<Vec<Mahasiswa>, String>,
) -> bool {
    match listed {
        Ok(list) => {
            &&& list@.len() == rows.len()
            &&& forall|i: int|
                0 <= i < rows.len() ==> (#[trigger] rows[i]) is Ok && lists(
                    rows[i]->Ok_0,
                    list@[i],
                )
        },
        Err(e) => exists|i: int|
            0 <= i < rows.len() && read_before(rows, i) && #[trigger] rows[i] == Err::<
                StudentRow,
                String,
            >(e),
    }
}

/// Turns stored student rows into listed records, stopping at the first
/// row that could not be read.
pub fn collect_mahasiswa(rows: &Vec<Result<StudentRow, String>>) -> (listed: Result<
    Vec<Mahasiswa>,
    String,
>)
    requires
        dates_representable(rows@),
    ensures
        listing_of(rows@, listed),
{
    let mut list: Vec<Mahasiswa> = Vec::new();
    let mut i: usize = 0;
    while i < rows.len()
        invariant
            i <= rows@.len(),
            dates_representable(rows@),
            read_before(rows@, i as int),
            list@.len() == i,
            forall|k: int| 0 <= k < i ==> lists(rows@[k]->Ok_0, #[trigger] list@[k]),
        decreases rows@.len() - i,
    {
        match &rows[i] {
            Ok(row) => {
                let m = Mahasiswa {
                    id: row.id,
                    nama: row.nama.clone(),
                    tgl_lahir: duckdb_date_to_string(row.tgl_lahir),
                    user_id: row.user_id,
                };
                list.push(m);
            },
            Err(e) => {
                return Err(e.clone());
            },
        }
        i = i + 1;
    }
    Ok(list)
}

/// Where the listing of students stands.
#[derive(Debug, Clone, Copy, PartialEq, Eq)]
pub enum ListingStage {
    AwaitLock,
    AwaitRows,
    Done,
}

/// The handler that lists all students.
#[derive(Debug)]
pub struct StudentListing {
    pub stage: ListingStage,
}

/// The query of the listing.
pub open spec fn is_listing_query(action: Action) -> bool {
    action matches Action::Query { sql, params, shape } && sql@
        == "SELECT id, nama, tgl_lahir, user_id FROM data_mahasiswa"@ && params@.len() == 0
        && shape == RowShape::Students
}

impl StudentListing {
    /// `event` is the outcome the listing waits for.
    pub open spec fn awaits(self, event: Event) -> bool {
        match self.stage {
            ListingStage::AwaitLock => event is Locked,
            ListingStage::AwaitRows => event is Students,
            ListingStage::Done => false,
        }
    }

    /// How many outcomes the listing can still wait for.
    pub open spec fn remaining(self) -> nat {
        match self.stage {
            ListingStage::AwaitLock => 2,
            ListingStage::AwaitRows => 1,
            ListingStage::Done => 0,
        }
    }

    /// Listing all students: first take the lock.
    pub fn get_mahasiswa() -> (started: (StudentListing, Action))
        ensures
            started.0.stage == ListingStage::AwaitLock,
            started.1 == Action::Lock,
    {
        (StudentListing { stage: ListingStage::AwaitLock }, Action::Lock)
    }

    /// Takes the outcome of the last action and answers with the next one.
    pub fn step(&mut self, event: Event) -> (action: Action)
        requires
            old(self).awaits(event),
            event matches Event::Students(Ok(rows)) ==> dates_representable(rows@),
        ensures
            action is Respond ==> final(self).stage == ListingStage::Done,
            !(action is Respond) ==> final(self).remaining() < old(self).remaining(),
            match event {
                Event::Locked(Err(_)) => action matches Action::Respond(r) && is_text_reply(
                    r,
                    INTERNAL_SERVER_ERROR,
                    "Failed to lock connection"@,
                ),
                Event::Locked(Ok(_)) => is_listing_query(action) && final(self).stage
                    == ListingStage::AwaitRows,
                Event::Students(Err(e)) => action matches Action::Respond(r) && is_text_reply(
                    r,
                    INTERNAL_SERVER_ERROR,
                    e@,
                ),
                Event::Students(Ok(rows)) => action matches Action::Respond(r) && exists|
                    listed: Result<Vec<Mahasiswa>, String>,
                | #[trigger] listing_of(rows@, listed) && match listed {
                    Ok(list) => {
                        &&& r.status == OK
                        &&& r.body matches Body::Students(m) && m.kode == 200 && m.status@
                            == "Sukses"@ && m.data == Some(list)
                    },
                    Err(e) => is_text_reply(r, INTERNAL_SERVER_ERROR, e@),
                },
                _ => false,
            },
    {
        match event {
            Event::Locked(Err(_)) => {
                self.stage = ListingStage::Done;
                Action::Respond(text_reply(INTERNAL_SERVER_ERROR, "Failed to lock connection"))
            },
            Event::Locked(Ok(_)) => {
                self.stage = ListingStage::AwaitRows;
                Action::Query {
                    sql: String::from_str(
                        "SELECT id, nama, tgl_lahir, user_id FROM data_mahasiswa",
                    ),
                    params: Vec::new(),
                    shape: RowShape::Students,
                }
            },
            Event::Students(Err(e)) => {
                self.stage = ListingStage::Done;
                Action::Respond(Reply { status: INTERNAL_SERVER_ERROR, body: Body::Text(e) })
            },
            Event::Students(Ok(rows)) => {
                self.stage = ListingStage::Done;
                let listed = collect_mahasiswa(&rows);
                match listed {
                    Ok(list) => Action::Respond(
                        Reply {
                            status: OK,
                            body: Body::Students(
                                ResponseModel {
                                    kode: 200,
                                    status: String::from_str("Sukses"),
                                    data: Some(list),
                                },
                            ),
                        },
                    ),
                    Err(e) => Action::Respond(
                        Reply { status: INTERNAL_SERVER_ERROR, body: Body::Text(e) },
                    ),
                }
            },
            _ => {
                self.stage = ListingStage::Done;
                Action::Respond(text_reply(INTERNAL_SERVER_ERROR, "Failed to lock connection"))
            },
        }
    }
}

} // verus!
