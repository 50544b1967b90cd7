use catalog_core::database::error::Error;
use catalog_core::database::gateway::{
    affected_rows, coerce, column_kind, destructive, reads, shape_row, shape_rows,
    timestamp_value, Cell, Column, ColumnKind, Field, Value,
};
use catalog_core::database::operations::execute_raw_sql;

fn column(name: &str, cell: Cell) -> Column {
    Column { name: name.to_string(), cell }
}

fn field(name: &str, value: Value) -> Field {
    Field { name: name.to_string(), value }
}

fn text(value: &str) -> Value {
    Value::Text(value.to_string())
}

#[test]
fn keywords_are_found_in_any_case() {
    assert!(destructive("DROP TABLE items"));
    assert!(destructive("drop table items"));
    assert!(destructive("DrOp TaBlE items"));
    assert!(destructive("ALTER TABLE items ADD COLUMN x"));
    assert!(destructive("alter table items add column x"));
    assert!(destructive("aLtEr tAbLe items"));
}

#[test]
fn keywords_are_found_whatever_surrounds_them() {
    assert!(destructive("   \n\tdrop table items   "));
    assert!(destructive("SELECT 1; DROP TABLE items"));
    assert!(destructive("xdrop tablex"));
    assert!(destructive("-- alter table\nSELECT 1"));
    assert!(destructive("SELECT 'drop table'"));
}

#[test]
fn other_statements_pass_the_guard() {
    assert!(!destructive(""));
    assert!(!destructive("SELECT * FROM items"));
    assert!(!destructive("DELETE FROM items"));
    assert!(!destructive("DROP INDEX i"));
    assert!(!destructive("DROP  TABLE items"));
    assert!(!destructive("DROP\tTABLE items"));
    assert!(!destructive("DROPTABLE"));
    assert!(!destructive("drop tabl"));
    assert!(!destructive("ALTER_TABLE"));
}

#[test]
fn a_rejected_statement_gives_the_error_and_no_statement() {
    for query in ["DROP TABLE items", "  drop table items", "select 1; Alter Table t rename to u"] {
        assert_eq!(execute_raw_sql(query.to_string()), Err(Error::RejectedStatement));
    }
}

#[test]
fn the_error_says_what_was_refused() {
    assert_eq!(Error::RejectedStatement.message(), "Destructive commands are not allowed");
}

#[test]
fn a_statement_that_passes_is_handed_on_unchanged() {
    let query = "  select id, path FROM items WHERE path = 'a?b'  ";
    let raw = execute_raw_sql(query.to_string()).unwrap();
    assert_eq!(raw.statement.text, query);
    assert!(raw.statement.parameters.is_empty());
    assert!(raw.reads);
    let raw = execute_raw_sql("UPDATE items SET title = 'x'".to_string()).unwrap();
    assert_eq!(raw.statement.text, "UPDATE items SET title = 'x'");
    assert!(!raw.reads);
}

#[test]
fn reads_begin_with_select_after_whitespace() {
    assert!(reads("SELECT 1"));
    assert!(reads("select 1"));
    assert!(reads("SeLeCt 1"));
    assert!(reads(" \t\r\n select 1"));
    assert!(reads("\u{00A0}\u{3000}select 1"));
    assert!(reads("SELECT"));
    assert!(reads("selection"));
    assert!(!reads(""));
    assert!(!reads("   "));
    assert!(!reads("SELEC"));
    assert!(!reads("(SELECT 1)"));
    assert!(!reads("WITH t AS (SELECT 1) SELECT * FROM t"));
    assert!(!reads("INSERT INTO t SELECT 1"));
    assert!(!reads("-- select\nDELETE FROM t"));
    assert!(!reads("\u{FEFF}select 1"));
}

#[test]
fn column_kinds_go_by_the_whole_name() {
    assert_eq!(column_kind("TEXT"), ColumnKind::Text);
    assert_eq!(column_kind("INTEGER"), ColumnKind::Integer);
    assert_eq!(column_kind("REAL"), ColumnKind::Real);
    assert_eq!(column_kind("BLOB"), ColumnKind::Blob);
    assert_eq!(column_kind("DATETIME"), ColumnKind::DateTime);
}

#[test]
fn unknown_column_types_are_other() {
    for name in ["NULL", "BOOLEAN", "NUMERIC", "DATE", "TIME", "", "text", "TEXTS", "TEX", " TEXT", "INT"] {
        assert_eq!(column_kind(name), ColumnKind::Other, "{:?}", name);
    }
}

#[test]
fn plain_cells_keep_what_they_hold() {
    assert_eq!(coerce(Cell::Text("héllo".to_string())), text("héllo"));
    assert_eq!(coerce(Cell::Text(String::new())), text(""));
    assert_eq!(coerce(Cell::Integer(-42)), Value::Integer(-42));
    assert_eq!(coerce(Cell::Integer(i64::MIN)), Value::Integer(i64::MIN));
    assert_eq!(coerce(Cell::Real(1.5f64.to_bits())), Value::Double(1.5f64.to_bits()));
    assert_eq!(coerce(Cell::Real(f64::NAN.to_bits())), Value::Double(f64::NAN.to_bits()));
    assert_eq!(coerce(Cell::Blob(vec![0, 255, 7])), Value::Bytes(vec![0, 255, 7]));
    assert_eq!(coerce(Cell::Blob(Vec::new())), Value::Bytes(Vec::new()));
}

#[test]
fn an_unread_cell_is_null() {
    assert_eq!(coerce(Cell::Other), Value::Null);
}

#[test]
fn a_timestamp_is_written_out_again() {
    assert_eq!(
        coerce(Cell::DateTime("1996-12-19T16:39:57-08:00".to_string())),
        text("1996-12-19T16:39:57-08:00")
    );
    assert_eq!(
        coerce(Cell::DateTime("1996-12-19 16:39:57Z".to_string())),
        text("1996-12-19T16:39:57+00:00")
    );
    assert_eq!(
        coerce(Cell::DateTime("2024-02-29t23:59:59.250z".to_string())),
        text("2024-02-29T23:59:59.250+00:00")
    );
    assert_eq!(
        coerce(Cell::DateTime("2024-01-02T03:04:05.123456789+05:30".to_string())),
        text("2024-01-02T03:04:05.123456789+05:30")
    );
}

#[test]
fn what_is_no_timestamp_becomes_the_empty_text() {
    for raw in ["", "yesterday", "2024-01-02 03:04:05", "2024-02-30T00:00:00Z", "2024-01-02"] {
        assert_eq!(coerce(Cell::DateTime(raw.to_string())), text(""), "{:?}", raw);
    }
}

#[test]
fn timestamp_value_takes_what_was_parsed() {
    assert_eq!(timestamp_value(Some("2024-01-02T03:04:05+00:00".to_string())), text("2024-01-02T03:04:05+00:00"));
    assert_eq!(timestamp_value(Some(String::new())), text(""));
    assert_eq!(timestamp_value(None), text(""));
}

#[test]
fn a_row_keeps_its_columns_in_order() {
    let row = vec![
        column("id", Cell::Integer(1)),
        column("path", Cell::Text("/a/video.mp4".to_string())),
        column("score", Cell::Real(0.25f64.to_bits())),
        column("data", Cell::Blob(vec![1, 2])),
        column("added", Cell::DateTime("2024-01-02 03:04:05Z".to_string())),
        column("flag", Cell::Other),
    ];
    assert_eq!(
        shape_row(row),
        vec![
            field("id", Value::Integer(1)),
            field("path", text("/a/video.mp4")),
            field("score", Value::Double(0.25f64.to_bits())),
            field("data", Value::Bytes(vec![1, 2])),
            field("added", text("2024-01-02T03:04:05+00:00")),
            field("flag", Value::Null),
        ]
    );
    assert_eq!(shape_row(Vec::new()), Vec::new());
}

#[test]
fn a_row_keeps_columns_of_the_same_name() {
    let row = vec![column("id", Cell::Integer(1)), column("id", Cell::Integer(2))];
    assert_eq!(shape_row(row), vec![field("id", Value::Integer(1)), field("id", Value::Integer(2))]);
}

#[test]
fn rows_keep_their_order() {
    let rows = vec![
        vec![column("id", Cell::Integer(2))],
        Vec::new(),
        vec![column("id", Cell::Integer(1)), column("t", Cell::Other)],
    ];
    assert_eq!(
        shape_rows(rows),
        vec![
            vec![field("id", Value::Integer(2))],
            Vec::new(),
            vec![field("id", Value::Integer(1)), field("t", Value::Null)],
        ]
    );
    assert_eq!(shape_rows(Vec::new()), Vec::<Vec<Field>>::new());
}

#[test]
fn a_write_returns_one_row_with_the_count() {
    assert_eq!(affected_rows(0), vec![vec![field("affected_rows", Value::Integer(0))]]);
    assert_eq!(affected_rows(3), vec![vec![field("affected_rows", Value::Integer(3))]]);
    assert_eq!(
        affected_rows(i64::MAX as u64),
        vec![vec![field("affected_rows", Value::Integer(i64::MAX))]]
    );
}

#[test]
fn a_count_beyond_the_integers_stops_at_the_greatest() {
    assert_eq!(
        affected_rows(i64::MAX as u64 + 1),
        vec![vec![field("affected_rows", Value::Integer(i64::MAX))]]
    );
    assert_eq!(affected_rows(u64::MAX), vec![vec![field("affected_rows", Value::Integer(i64::MAX))]]);
}

#[test]
fn the_guard_agrees_with_folding_by_the_platform() {
    let samples = [
        "",
        "DROP TABLE items",
        "drop table items",
        "Drop Table Items",
        "alter table x add y",
        "select * from items",
        "  SELECT 'DROP', 'TABLE'",
        "dröp table",
        "drop\u{00A0}table",
        "DROP TABLe",
        "x ALTER  TABLE",
        "ALTER\nTABLE",
        "préalter tableau",
    ];
    for sample in samples {
        let folded = sample.to_uppercase();
        assert_eq!(
            destructive(sample),
            folded.contains("DROP TABLE") || folded.contains("ALTER TABLE"),
            "{:?}",
            sample
        );
        assert_eq!(reads(sample), sample.trim_start().to_uppercase().starts_with("SELECT"), "{:?}", sample);
    }
}
