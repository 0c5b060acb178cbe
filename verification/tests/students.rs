use axum_learn_duckdb::dates::{FIRST_EPOCH_DAY, LAST_EPOCH_DAY};
use axum_learn_duckdb::flow::{Action, Event, RowShape, SqlParam};
use axum_learn_duckdb::models::{CreateMahasiswa, Mahasiswa, StudentRow};
use axum_learn_duckdb::reply::{Body, Reply};
use axum_learn_duckdb::script::{Finish, LockFailure, Op, ScriptRun};
use axum_learn_duckdb::students::{
    add_mahasiswa, collect_mahasiswa, listable_dates, delete_mahasiswa, export_mahasiswa, to_parquet,
    update_mahasiswa, StudentListing,
};
use axum_learn_duckdb::text::i32_to_decimal;

fn row(id: i32, nama: &str, days: i32) -> Result<StudentRow, String> {
    Ok(StudentRow { id, nama: nama.to_string(), tgl_lahir: days, user_id: 7 })
}

fn date_of(days: i32) -> String {
    match collect_mahasiswa(&vec![row(1, "a", days)]) {
        Ok(list) => list[0].tgl_lahir.clone(),
        Err(e) => panic!("unexpected error {e}"),
    }
}

#[test]
fn decimal_text_of_integers() {
    assert_eq!(i32_to_decimal(0), "0");
    assert_eq!(i32_to_decimal(42), "42");
    assert_eq!(i32_to_decimal(-7), "-7");
    assert_eq!(i32_to_decimal(i32::MAX), "2147483647");
    assert_eq!(i32_to_decimal(i32::MIN), "-2147483648");
}

#[test]
fn dates_are_written_as_iso_days() {
    assert_eq!(date_of(0), "1970-01-01");
    assert_eq!(date_of(10957), "2000-01-01");
    assert_eq!(date_of(-1), "1969-12-31");
    assert_eq!(date_of(19782), "2024-02-29");
    assert_eq!(date_of(-719528), "0000-01-01");
    assert_eq!(date_of(-719529), "-0001-12-31");
    assert_eq!(date_of(2932897), "+10000-01-01");
}

#[test]
fn last_representable_date() {
    assert_eq!(date_of(LAST_EPOCH_DAY), "+262142-12-31");
}

#[test]
fn first_representable_date() {
    assert_eq!(date_of(FIRST_EPOCH_DAY), "-262143-01-01");
}

#[test]
fn dates_agree_with_chrono() {
    #[allow(deprecated)]
    let epoch = chrono::NaiveDate::from_ymd(1970, 1, 1);
    for days in [-1_000_000, -12345, -1, 0, 1, 59, 365, 10000, 123456, 3_000_000] {
        let expected = (epoch + chrono::Duration::days(days as i64)).to_string();
        assert_eq!(date_of(days), expected);
    }
}

#[test]
fn date_texts_sort_as_days_and_parse_back() {
    #[allow(deprecated)]
    let epoch = chrono::NaiveDate::from_ymd(1970, 1, 1);
    let days: [i32; 11] = [-719528, -400000, -1, 0, 1, 31, 59, 60, 10957, 19782, 2932896];
    for &d1 in &days {
        let t1 = date_of(d1);
        let parsed = chrono::NaiveDate::parse_from_str(&t1, "%Y-%m-%d").unwrap();
        assert_eq!(parsed, epoch + chrono::Duration::days(d1 as i64));
        for &d2 in &days {
            let t2 = date_of(d2);
            assert_eq!(d1 < d2, t1 < t2);
            assert_eq!(d1 == d2, t1 == t2);
        }
    }
    assert_eq!(date_of(2932896), "9999-12-31");
}

#[test]
fn listing_keeps_rows_in_order() {
    let rows = vec![row(1, "Ani", 10957), row(2, "Budi", 0)];
    let list = collect_mahasiswa(&rows).unwrap();
    assert_eq!(
        list,
        vec![
            Mahasiswa { id: 1, nama: "Ani".to_string(), tgl_lahir: "2000-01-01".to_string(), user_id: 7 },
            Mahasiswa { id: 2, nama: "Budi".to_string(), tgl_lahir: "1970-01-01".to_string(), user_id: 7 },
        ]
    );
}

#[test]
fn listing_stops_at_first_unreadable_row() {
    let rows = vec![row(1, "Ani", 0), Err("bad row".to_string()), Err("later".to_string())];
    assert_eq!(collect_mahasiswa(&rows), Err("bad row".to_string()));
}

#[test]
fn get_mahasiswa_flow() {
    let (mut flow, action) = StudentListing::get_mahasiswa();
    assert_eq!(action, Action::Lock);
    match flow.step(Event::Locked(Ok(()))) {
        Action::Query { sql, params, shape } => {
            assert_eq!(sql, "SELECT id, nama, tgl_lahir, user_id FROM data_mahasiswa");
            assert!(params.is_empty());
            assert_eq!(shape, RowShape::Students);
        }
        other => panic!("unexpected {other:?}"),
    }
    match flow.step(Event::Students(Ok(vec![row(3, "Citra", 1)]))) {
        Action::Respond(Reply { status: 200, body: Body::Students(m) }) => {
            assert_eq!(m.kode, 200);
            assert_eq!(m.status, "Sukses");
            assert_eq!(m.data.unwrap()[0].tgl_lahir, "1970-01-02");
        }
        other => panic!("unexpected {other:?}"),
    }
}

#[test]
fn get_mahasiswa_failures() {
    let (mut flow, _) = StudentListing::get_mahasiswa();
    assert_eq!(
        flow.step(Event::Locked(Err("poisoned".to_string()))),
        Action::Respond(Reply { status: 500, body: Body::Text("Failed to lock connection".to_string()) })
    );
    let (mut flow, _) = StudentListing::get_mahasiswa();
    flow.step(Event::Locked(Ok(())));
    assert_eq!(
        flow.step(Event::Students(Err("no table".to_string()))),
        Action::Respond(Reply { status: 500, body: Body::Text("no table".to_string()) })
    );
    let (mut flow, _) = StudentListing::get_mahasiswa();
    flow.step(Event::Locked(Ok(())));
    assert_eq!(
        flow.step(Event::Students(Ok(vec![Err("bad".to_string())]))),
        Action::Respond(Reply { status: 500, body: Body::Text("bad".to_string()) })
    );
}

#[test]
fn parquet_refresh_operations() {
    let ops = to_parquet();
    assert_eq!(ops.len(), 5);
    assert_eq!(
        ops[0],
        Op::Run {
            sql: "COPY data_mahasiswa TO 'coba_mahasiswa_exp.parquet' (FORMAT PARQUET);".to_string(),
            params: vec![],
            required: false
        }
    );
    assert_eq!(ops[3], Op::EnsureDir { path: "src/parquet".to_string() });
    assert_eq!(
        ops[4],
        Op::Move {
            from: "coba_mahasiswa_exp_encrpt256.parquet".to_string(),
            to: "src/parquet/coba_mahasiswa_exp_encrpt256.parquet".to_string()
        }
    );
}

#[test]
fn add_mahasiswa_runs_to_success() {
    let script = add_mahasiswa(CreateMahasiswa {
        id: 5,
        nama: "Dewi".to_string(),
        tgl_lahir: "2001-02-03".to_string(),
    });
    let (mut run, action) = ScriptRun::start(script);
    assert_eq!(action, Action::Lock);
    let action = run.step(Event::Locked(Ok(())));
    assert_eq!(
        action,
        Action::Execute {
            sql: "INSERT INTO data_mahasiswa (id, nama, tgl_lahir) VALUES (?, ?, ?)".to_string(),
            params: vec![
                SqlParam::Int(5),
                SqlParam::Text("Dewi".to_string()),
                SqlParam::Text("2001-02-03".to_string())
            ],
        }
    );
    assert!(matches!(run.step(Event::Executed(Ok(1))), Action::Execute { .. }));
    // a failing snapshot statement is ignored
    assert!(matches!(run.step(Event::Executed(Err("no key".to_string()))), Action::Execute { .. }));
    assert!(matches!(run.step(Event::Executed(Ok(0))), Action::Execute { .. }));
    assert_eq!(
        run.step(Event::Executed(Ok(0))),
        Action::DirExists { path: "src/parquet".to_string() }
    );
    assert_eq!(
        run.step(Event::DirChecked(false)),
        Action::CreateDirAll { path: "src/parquet".to_string() }
    );
    assert!(matches!(run.step(Event::FsDone), Action::Rename { .. }));
    assert_eq!(
        run.step(Event::FsDone),
        Action::Respond(Reply { status: 200, body: Body::Status("success".to_string()) })
    );
}

#[test]
fn add_mahasiswa_stops_on_failed_insert() {
    let script = add_mahasiswa(CreateMahasiswa { id: 5, nama: "D".to_string(), tgl_lahir: "x".to_string() });
    let (mut run, _) = ScriptRun::start(script);
    run.step(Event::Locked(Ok(())));
    assert_eq!(
        run.step(Event::Executed(Err("Constraint Error: duplicate key".to_string()))),
        Action::Respond(Reply {
            status: 500,
            body: Body::Text("Constraint Error: duplicate key".to_string())
        })
    );
}

#[test]
fn existing_directory_is_not_created() {
    let (mut run, _) = ScriptRun::start(delete_mahasiswa(9));
    run.step(Event::Locked(Ok(())));
    run.step(Event::Executed(Ok(1)));
    run.step(Event::Executed(Ok(0)));
    run.step(Event::Executed(Ok(0)));
    run.step(Event::Executed(Ok(0)));
    assert!(matches!(run.step(Event::DirChecked(true)), Action::Rename { .. }));
    assert_eq!(
        run.step(Event::FsDone),
        Action::Respond(Reply { status: 200, body: Body::Status("sukses".to_string()) })
    );
}

#[test]
fn update_reports_poisoned_lock_text() {
    let script = update_mahasiswa(
        -12,
        Mahasiswa { id: 1, nama: "E".to_string(), tgl_lahir: "1999-09-09".to_string(), user_id: 2 },
    );
    assert_eq!(script.ops[0], Op::Lock(LockFailure::Reported));
    assert_eq!(
        script.ops[1],
        Op::Run {
            sql: "UPDATE data_mahasiswa SET nama = ?, tgl_lahir = ? WHERE id = ?".to_string(),
            params: vec![
                SqlParam::Text("E".to_string()),
                SqlParam::Text("1999-09-09".to_string()),
                SqlParam::Text("-12".to_string())
            ],
            required: true,
        }
    );
    assert_eq!(script.finish, Finish::Always(Reply { status: 200, body: Body::Status("sukses".to_string()) }));
    let (mut run, _) = ScriptRun::start(script);
    assert_eq!(
        run.step(Event::Locked(Err("poisoned lock: another task failed inside".to_string()))),
        Action::Respond(Reply {
            status: 500,
            body: Body::Text("poisoned lock: another task failed inside".to_string())
        })
    );
}

#[test]
fn delete_binds_id_as_text() {
    let script = delete_mahasiswa(31);
    assert_eq!(
        script.ops[1],
        Op::Run {
            sql: "DELETE FROM data_mahasiswa WHERE id =?".to_string(),
            params: vec![SqlParam::Text("31".to_string())],
            required: true,
        }
    );
    assert_eq!(script.ops.len(), 7);
}

#[test]
fn export_builds_copy_statement() {
    let script = export_mahasiswa("out.parquet".to_string());
    assert_eq!(script.ops.len(), 2);
    assert_eq!(
        script.ops[1],
        Op::Run {
            sql: "COPY data_mahasiswa TO 'out.parquet' (FORMAT PARQUET);".to_string(),
            params: vec![],
            required: true,
        }
    );
    let (mut run, _) = ScriptRun::start(script);
    run.step(Event::Locked(Ok(())));
    assert_eq!(
        run.step(Event::Executed(Ok(3))),
        Action::Respond(Reply { status: 200, body: Body::Status("sukses".to_string()) })
    );
}

#[test]
fn listable_dates_stop_at_first_unreadable_row() {
    assert!(listable_dates(&vec![row(1, "a", 0), row(2, "b", LAST_EPOCH_DAY)]));
    assert!(!listable_dates(&vec![row(1, "a", 0), row(2, "b", LAST_EPOCH_DAY + 1)]));
    assert!(!listable_dates(&vec![row(1, "a", FIRST_EPOCH_DAY - 1)]));
    assert!(listable_dates(&vec![Err("bad".to_string()), row(2, "b", i32::MAX)]));
}
