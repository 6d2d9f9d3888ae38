use rustpad_store::{
    count_result, fail_step, load_result, select_backend, starts_with, store_result, Backend,
    DocumentTable, PersistedDocument, Setup, SetupAction, SetupStep, StoreError,
};

fn doc(text: &str, language: Option<&str>) -> PersistedDocument {
    PersistedDocument::new(text.to_string(), language.map(|l| l.to_string()))
}

#[test]
fn round_trip_returns_stored_document() {
    let mut table = DocumentTable::new();
    let d = doc("hello world", Some("rust"));
    assert_eq!(table.store("abc", &d), Ok(()));
    assert_eq!(table.load("abc"), Ok(d));
}

#[test]
fn round_trip_empty_text_without_language() {
    let mut table = DocumentTable::new();
    let d = doc("", None);
    table.store("empty", &d).unwrap();
    let loaded = table.load("empty").unwrap();
    assert_eq!(loaded.text, "");
    assert_eq!(loaded.language, None);
}

#[test]
fn upsert_overwrites_and_keeps_count() {
    let mut table = DocumentTable::new();
    let d1 = doc("first", Some("python"));
    let d2 = doc("second", None);
    table.store("id", &d1).unwrap();
    assert_eq!(table.count(), 1);
    table.store("id", &d2).unwrap();
    assert_eq!(table.count(), 1);
    assert_eq!(table.load("id"), Ok(d2));
}

#[test]
fn count_of_distinct_ids() {
    let mut table = DocumentTable::new();
    assert_eq!(table.count(), 0);
    for (i, id) in ["a", "b", "c", "d", "e"].iter().enumerate() {
        table.store(id, &doc(&format!("text {}", i), None)).unwrap();
        assert_eq!(table.count(), i + 1);
    }
    table.store("c", &doc("again", None)).unwrap();
    assert_eq!(table.count(), 5);
}

#[test]
fn ids_differing_by_prefix_are_distinct() {
    let mut table = DocumentTable::new();
    table.store("doc", &doc("short", None)).unwrap();
    table.store("doc2", &doc("long", None)).unwrap();
    assert_eq!(table.count(), 2);
    assert_eq!(table.load("doc").unwrap().text, "short");
    assert_eq!(table.load("doc2").unwrap().text, "long");
    assert_eq!(table.load("do"), Err(StoreError::NotFound));
}

#[test]
fn load_missing_on_fresh_store_is_not_found() {
    let table = DocumentTable::new();
    assert_eq!(table.load("nonexistent"), Err(StoreError::NotFound));
}

#[test]
fn either_order_of_two_writes_keeps_one_payload_whole() {
    let a = doc("alpha", Some("rust"));
    let b = doc("beta", None);
    let mut first = DocumentTable::new();
    first.store("x", &a).unwrap();
    first.store("x", &b).unwrap();
    assert_eq!(first.load("x"), Ok(b.clone()));
    let mut second = DocumentTable::new();
    second.store("x", &b).unwrap();
    second.store("x", &a).unwrap();
    assert_eq!(second.load("x"), Ok(a.clone()));
    assert_eq!(first.count(), 1);
    assert_eq!(second.count(), 1);
}

#[test]
fn unsupported_scheme_is_refused_before_any_step() {
    assert!(matches!(Setup::start("mysql://host/db"), Err(StoreError::UnsupportedBackend)));
    assert_eq!(select_backend("mysql://host/db"), Err(StoreError::UnsupportedBackend));
    assert_eq!(select_backend(""), Err(StoreError::UnsupportedBackend));
    assert_eq!(select_backend("postgres:/x"), Err(StoreError::UnsupportedBackend));
    assert_eq!(select_backend("Postgres://x"), Err(StoreError::UnsupportedBackend));
}

#[test]
fn schemes_select_their_engine() {
    assert_eq!(select_backend("postgres://user@host/db"), Ok(Backend::Postgres));
    assert_eq!(select_backend("postgres://"), Ok(Backend::Postgres));
    assert_eq!(select_backend("sqlite://rustpad.db"), Ok(Backend::Sqlite));
}

#[test]
fn prefix_test_by_characters() {
    assert!(starts_with("sqlite://a", "sqlite://"));
    assert!(starts_with("abc", ""));
    assert!(!starts_with("sq", "sqlite://"));
    assert!(!starts_with("sqlite:/", "sqlite://"));
    assert!(starts_with("é://x", "é:"));
}

fn run_all(uri: &str, fail_at: Option<usize>) -> (Vec<SetupStep>, SetupAction) {
    let mut steps = Vec::new();
    let mut setup = match Setup::start(uri) {
        Ok(s) => s,
        Err(e) => return (steps, SetupAction::Fail(e)),
    };
    loop {
        steps.push(setup.step());
        let outcome = if fail_at == Some(steps.len() - 1) {
            Err("boom".to_string())
        } else {
            Ok(())
        };
        match setup.advance(outcome) {
            SetupAction::Run(next) => setup = next,
            done => return (steps, done),
        }
    }
}

#[test]
fn postgres_setup_opens_pool_then_migrates() {
    let (steps, end) = run_all("postgres://h/db", None);
    assert_eq!(steps, vec![SetupStep::OpenPool, SetupStep::MigratePool]);
    assert!(matches!(end, SetupAction::Ready(Backend::Postgres)));
}

#[test]
fn sqlite_setup_migrates_through_file_then_opens_pool() {
    let (steps, end) = run_all("sqlite://data.db", None);
    assert_eq!(
        steps,
        vec![SetupStep::OpenFile, SetupStep::MigrateFile, SetupStep::OpenPool]
    );
    assert!(matches!(end, SetupAction::Ready(Backend::Sqlite)));
}

#[test]
fn setup_failures_map_to_connection_or_migration() {
    let (steps, end) = run_all("postgres://h/db", Some(0));
    assert_eq!(steps, vec![SetupStep::OpenPool]);
    assert!(matches!(end, SetupAction::Fail(StoreError::Connection(ref m)) if m == "boom"));
    let (_, end) = run_all("postgres://h/db", Some(1));
    assert!(matches!(end, SetupAction::Fail(StoreError::Migration(ref m)) if m == "boom"));
    let (steps, end) = run_all("sqlite://d.db", Some(1));
    assert_eq!(steps, vec![SetupStep::OpenFile, SetupStep::MigrateFile]);
    assert!(matches!(end, SetupAction::Fail(StoreError::Migration(_))));
    let (_, end) = run_all("sqlite://d.db", Some(2));
    assert!(matches!(end, SetupAction::Fail(StoreError::Connection(_))));
    let (steps, end) = run_all("mysql://host/db", Some(0));
    assert!(steps.is_empty());
    assert!(matches!(end, SetupAction::Fail(StoreError::UnsupportedBackend)));
}

#[test]
fn step_errors_by_kind() {
    let e = fail_step(SetupStep::MigrateFile, "bad".to_string());
    assert_eq!(e, StoreError::Migration("bad".to_string()));
    let e = fail_step(SetupStep::OpenFile, "gone".to_string());
    assert_eq!(e, StoreError::Connection("gone".to_string()));
}

#[test]
fn store_with_unexpected_affected_rows_is_integrity_error() {
    assert_eq!(store_result(Ok(0)), Err(StoreError::Integrity(0)));
    assert_eq!(store_result(Ok(2)), Err(StoreError::Integrity(2)));
    assert_eq!(store_result(Ok(1)), Ok(()));
    assert_eq!(
        store_result(Err("disk full".to_string())),
        Err(StoreError::Database("disk full".to_string()))
    );
}

#[test]
fn load_outcomes() {
    let d = doc("text", Some("go"));
    assert_eq!(load_result(Ok(Some(d.clone()))), Ok(d));
    assert_eq!(load_result(Ok(None)), Err(StoreError::NotFound));
    assert_eq!(
        load_result(Err("timeout".to_string())),
        Err(StoreError::Database("timeout".to_string()))
    );
}

#[test]
fn count_outcomes() {
    assert_eq!(count_result(Ok(0)), Ok(0));
    assert_eq!(count_result(Ok(42)), Ok(42));
    assert!(matches!(count_result(Ok(-1)), Err(StoreError::Database(_))));
    assert_eq!(
        count_result(Err("closed".to_string())),
        Err(StoreError::Database("closed".to_string()))
    );
}

#[test]
fn document_equality_and_copy() {
    let d = doc("x", Some("c"));
    assert_eq!(d.duplicate(), d);
    assert_ne!(d, doc("x", None));
    assert_ne!(d, doc("y", Some("c")));
    assert_ne!(d, doc("x", Some("cpp")));
}
