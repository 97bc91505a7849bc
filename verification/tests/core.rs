use sqlite_image::as_integer;
use sqlite_image::as_real;
use sqlite_image::as_text;
use sqlite_image::capture;
use sqlite_image::count_rows;
use sqlite_image::create_empty;
use sqlite_image::execute;
use sqlite_image::import;
use sqlite_image::init;
use sqlite_image::list_tables;
use sqlite_image::materialize;
use sqlite_image::query;
use sqlite_image::round_trip;
use sqlite_image::schema;
use sqlite_image::vacuum;
use sqlite_image::Cell;
use sqlite_image::Error;
use sqlite_image::Row;

const SEED: &str = "CREATE TABLE t(a INTEGER, b TEXT); INSERT INTO t VALUES (1,'x'),(2,'y')";

#[test]
fn round_trip_is_byte_identical() {
    let img = init(SEED).unwrap();
    let back = round_trip(&img).unwrap();
    assert_eq!(img.data, back.data);
}

#[test]
fn capture_of_materialized_image_is_the_image() {
    let img = init("CREATE TABLE t(a TEXT); INSERT INTO t VALUES ('hello')").unwrap();
    let h = materialize(&img).unwrap();
    let back = capture(h).unwrap();
    assert_eq!(img.data, back.data);
}

#[test]
fn empty_batch_changes_nothing() {
    let img = init(SEED).unwrap();
    let out = execute(&img, "").unwrap();
    assert_eq!(img.data, out.data);
}

#[test]
fn execute_returns_a_fresh_image() {
    let img = init(SEED).unwrap();
    let out = execute(&img, "INSERT INTO t VALUES (3,'z')").unwrap();
    assert_eq!(count_rows(&img, "t").unwrap(), 2);
    assert_eq!(count_rows(&out, "t").unwrap(), 3);
}

#[test]
fn failed_statement_produces_no_image() {
    let img = init(SEED).unwrap();
    let r = execute(&img, "INSERT INTO t VALUES (3,'z'); THIS IS NOT SQL");
    assert!(matches!(r, Err(Error::StatementFailed(_))));
    assert_eq!(count_rows(&img, "t").unwrap(), 2);
}

#[test]
fn two_row_scenario() {
    let img = init(SEED).unwrap();
    let rows = query(&img, "SELECT a,b FROM t ORDER BY a").unwrap();
    assert_eq!(
        rows,
        vec![
            Row { cells: vec![Cell::Integer(1), Cell::Text(String::from("x"))] },
            Row { cells: vec![Cell::Integer(2), Cell::Text(String::from("y"))] },
        ]
    );
    assert_eq!(as_integer(&rows[0], 0), Some(1));
    assert_eq!(as_text(&rows[0], 1), Some(String::from("x")));
    assert_eq!(as_integer(&rows[1], 0), Some(2));
    assert_eq!(as_text(&rows[1], 1), Some(String::from("y")));
}

#[test]
fn mutation_through_query_is_discarded() {
    let img = init(SEED).unwrap();
    let rows = query(&img, "INSERT INTO t VALUES (9,'q')").unwrap();
    assert_eq!(rows, Vec::<Row>::new());
    assert_eq!(count_rows(&img, "t").unwrap(), 2);
}

#[test]
fn empty_database_has_no_tables_and_no_schema() {
    let img = create_empty().unwrap();
    assert_eq!(list_tables(&img).unwrap(), Vec::<String>::new());
    assert_eq!(schema(&img).unwrap(), Vec::<String>::new());
}

#[test]
fn tables_and_schema_are_listed() {
    let img = init("CREATE TABLE alpha(a INTEGER); CREATE TABLE beta(b TEXT)").unwrap();
    let names = list_tables(&img).unwrap();
    assert_eq!(names, vec![String::from("alpha"), String::from("beta")]);
    let ddl = schema(&img).unwrap();
    assert_eq!(ddl.len(), 2);
    assert!(ddl[0].contains("CREATE TABLE alpha"));
    assert!(ddl[1].contains("CREATE TABLE beta"));
}

#[test]
fn injection_guard_rejects_statement_text() {
    let img = init(SEED).unwrap();
    let r = count_rows(&img, "a; DROP TABLE x");
    assert!(matches!(r, Err(Error::InvalidIdentifier)));
    assert_eq!(count_rows(&img, "t").unwrap(), 2);
}

#[test]
fn injection_guard_rejects_spaces_and_quotes() {
    let img = create_empty().unwrap();
    assert!(matches!(count_rows(&img, "a b"), Err(Error::InvalidIdentifier)));
    assert!(matches!(count_rows(&img, "t'"), Err(Error::InvalidIdentifier)));
    assert!(matches!(count_rows(&img, ""), Err(Error::StatementFailed(_))));
}

#[test]
fn underscored_table_name_is_allowed() {
    let img = init("CREATE TABLE t_1(a INTEGER); INSERT INTO t_1 VALUES (1),(2),(3)").unwrap();
    assert_eq!(count_rows(&img, "t_1").unwrap(), 3);
}

#[test]
fn allow_list_is_letters_digits_underscore() {
    assert!(sqlite_image::check_table_name("table_1"));
    assert!(sqlite_image::check_table_name("T2"));
    assert!(sqlite_image::check_table_name(""));
    assert!(sqlite_image::check_table_name("caf\u{e9}"));
    assert!(!sqlite_image::check_table_name("a;b"));
    assert!(!sqlite_image::check_table_name("a b"));
    assert!(!sqlite_image::check_table_name("x-y"));
    assert!(!sqlite_image::check_table_name("t\u{2014}"));
}

#[test]
fn missing_table_is_a_statement_failure() {
    let img = create_empty().unwrap();
    assert!(matches!(count_rows(&img, "absent"), Err(Error::StatementFailed(_))));
}

#[test]
fn strict_projection_on_a_constructed_row() {
    let row = Row { cells: vec![Cell::Real((2.5f64).to_bits())] };
    assert_eq!(as_integer(&row, 0), None);
    assert_eq!(as_real(&row, 0), Some((2.5f64).to_bits()));
    assert_eq!(as_text(&row, 0), None);
    assert_eq!(as_integer(&row, 1), None);
}

#[test]
fn strict_projection_on_a_queried_real() {
    let img = create_empty().unwrap();
    let rows = query(&img, "SELECT 2.5").unwrap();
    assert_eq!(rows.len(), 1);
    assert_eq!(as_integer(&rows[0], 0), None);
    assert_eq!(as_real(&rows[0], 0), Some((2.5f64).to_bits()));
}

#[test]
fn all_five_tags_project() {
    let img = create_empty().unwrap();
    let rows = query(&img, "SELECT NULL, 42, 1.5, 'txt', x'0102'").unwrap();
    assert_eq!(rows.len(), 1);
    assert_eq!(
        rows[0],
        Row {
            cells: vec![
                Cell::Null,
                Cell::Integer(42),
                Cell::Real((1.5f64).to_bits()),
                Cell::Text(String::from("txt")),
                Cell::Blob(vec![1u8, 2u8]),
            ],
        }
    );
    assert_eq!(sqlite_image::as_blob(&rows[0], 4), Some(vec![1u8, 2u8]));
}

#[test]
fn vacuum_keeps_content() {
    let img = init(SEED).unwrap();
    let out = vacuum(&img).unwrap();
    assert_eq!(count_rows(&out, "t").unwrap(), 2);
    let rows = query(&out, "SELECT a,b FROM t ORDER BY a").unwrap();
    assert_eq!(rows.len(), 2);
}

#[test]
fn import_from_unreadable_path_is_an_open_failure() {
    let r = import("/tmp/sqlite_image_no_such_dir/absent.db");
    assert!(matches!(r, Err(Error::OpenFailed(_))));
}
