use rusqlite_mapper::to_row::upsert_sql;
use rusqlite_mapper::{SqliteTypeInfo, ToRow};
use std::borrow::Cow;
use std::rc::Rc;
use std::sync::Arc;

fn column<T: SqliteTypeInfo + ?Sized>() -> (&'static str, bool) {
    (T::sqlite_type(), T::optional())
}

#[test]
fn integers_are_integer_columns() {
    assert_eq!(column::<bool>(), ("INTEGER", false));
    assert_eq!(column::<i8>(), ("INTEGER", false));
    assert_eq!(column::<i16>(), ("INTEGER", false));
    assert_eq!(column::<i32>(), ("INTEGER", false));
    assert_eq!(column::<i64>(), ("INTEGER", false));
    assert_eq!(column::<isize>(), ("INTEGER", false));
    assert_eq!(column::<u8>(), ("INTEGER", false));
    assert_eq!(column::<u16>(), ("INTEGER", false));
    assert_eq!(column::<u32>(), ("INTEGER", false));
    assert_eq!(column::<u64>(), ("INTEGER", false));
    assert_eq!(column::<usize>(), ("INTEGER", false));
}

#[test]
fn strings_are_text_columns() {
    assert_eq!(column::<String>(), ("TEXT", false));
    assert_eq!(column::<str>(), ("TEXT", false));
}

#[test]
fn bytes_are_blob_columns() {
    assert_eq!(column::<Vec<u8>>(), ("BLOB", false));
    assert_eq!(column::<[u8]>(), ("BLOB", false));
    assert_eq!(column::<[u8; 0]>(), ("BLOB", false));
    assert_eq!(column::<[u8; 16]>(), ("BLOB", false));
}

#[test]
fn null_is_a_null_column() {
    assert_eq!(column::<rusqlite::types::Null>(), ("NULL", false));
}

#[test]
fn outside_types_are_text_columns() {
    assert_eq!(column::<serde_json::Value>(), ("TEXT", false));
    assert_eq!(column::<chrono::NaiveDate>(), ("TEXT", false));
    assert_eq!(column::<chrono::NaiveTime>(), ("TEXT", false));
    assert_eq!(column::<chrono::NaiveDateTime>(), ("TEXT", false));
    assert_eq!(column::<url::Url>(), ("TEXT", false));
    assert_eq!(column::<uuid::Uuid>(), ("TEXT", false));
}

#[test]
fn option_is_optional_and_keeps_the_type() {
    assert_eq!(column::<Option<i32>>(), ("INTEGER", true));
    assert_eq!(column::<Option<String>>(), ("TEXT", true));
    assert_eq!(column::<Option<Vec<u8>>>(), ("BLOB", true));
    assert_eq!(column::<Option<Option<u8>>>(), ("INTEGER", true));
}

#[test]
fn wrappers_keep_the_type_and_are_not_optional() {
    assert_eq!(column::<Box<i64>>(), ("INTEGER", false));
    assert_eq!(column::<Box<str>>(), ("TEXT", false));
    assert_eq!(column::<Rc<String>>(), ("TEXT", false));
    assert_eq!(column::<Rc<[u8]>>(), ("BLOB", false));
    assert_eq!(column::<Arc<Vec<u8>>>(), ("BLOB", false));
    assert_eq!(column::<Cow<'static, str>>(), ("TEXT", false));
    assert_eq!(column::<Cow<'static, [u8]>>(), ("BLOB", false));
}

#[test]
fn a_wrapper_around_an_option_is_not_optional() {
    assert_eq!(column::<Box<Option<i32>>>(), ("INTEGER", false));
    assert_eq!(column::<Option<Box<i32>>>(), ("INTEGER", true));
}

struct Role;

impl SqliteTypeInfo for Role {
    fn sqlite_type() -> &'static str {
        "TEXT"
    }
}

#[test]
fn optional_defaults_to_false() {
    assert_eq!(column::<Role>(), ("TEXT", false));
    assert_eq!(column::<Option<Role>>(), ("TEXT", true));
}

struct Unit;

impl ToRow for Unit {
    type Params<'a> = ();

    fn table_name() -> &'static str {
        "t"
    }

    fn column_names() -> &'static [&'static str] {
        &["a", "b"]
    }

    fn sql_types() -> Vec<(String, bool, bool)> {
        vec![("TEXT".to_string(), true, false), ("TEXT".to_string(), false, false)]
    }

    fn to_params(&self) -> Self::Params<'_> {}
}

#[test]
fn upsert_stmt_extends_what_insert_stmt_returns() {
    assert_eq!(
        Unit::upsert_stmt("a"),
        upsert_sql(Unit::insert_stmt(), "a", Unit::column_names())
    );
    assert_eq!(
        Unit::upsert_stmt("a"),
        "INSERT INTO t (a, b) VALUES (?, ?) ON CONFLICT (a) DO UPDATE SET \
         a = excluded.a, b = excluded.b"
    );
    assert_eq!(Unit::create_table_statement(), "CREATE TABLE t (a TEXT, b TEXT NOT NULL)");
    Unit.to_params();
}
