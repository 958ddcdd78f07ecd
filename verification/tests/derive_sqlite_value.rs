use rusqlite_mapper::derive_sqlite_value::DeriveSqliteValue;
use rusqlite_mapper::error::DeriveError;

fn value(ident: &str, string: bool, json: bool) -> DeriveSqliteValue {
    DeriveSqliteValue { ident: ident.to_string(), string, json }
}

const AS_STRING: &str = "impl rusqlite_mapper::SqliteTypeInfo for PersonRole {
    fn sqlite_type() -> &'static str {
        \"TEXT\"
    }
}
impl rusqlite::ToSql for PersonRole {
    fn to_sql(&self) -> rusqlite::Result<rusqlite::types::ToSqlOutput<'_>> {
        let s = self.to_string();
        Ok(rusqlite::types::ToSqlOutput::from(s))
    }
}
impl rusqlite::types::FromSql for PersonRole {
    fn column_result(value: rusqlite::types::ValueRef<'_>) -> rusqlite::types::FromSqlResult<Self> {
        let s = String::column_result(value)?;
        let at = s.parse::<PersonRole>()
            .map_err(|e| rusqlite::types::FromSqlError::Other(Box::new(e)))?;
        Ok(at)
    }
}
";

const AS_JSON: &str = "impl rusqlite_mapper::SqliteTypeInfo for Settings {
    fn sqlite_type() -> &'static str {
        \"TEXT\"
    }
}
impl rusqlite::ToSql for Settings {
    fn to_sql(&self) -> rusqlite::Result<rusqlite::types::ToSqlOutput<'_>> {
        let s = serde_json::to_string(self)
            .map_err(|e| rusqlite::types::FromSqlError::Other(Box::new(e)))?;
        Ok(rusqlite::types::ToSqlOutput::from(s))
    }
}
impl rusqlite::types::FromSql for Settings {
    fn column_result(value: rusqlite::types::ValueRef<'_>) -> rusqlite::types::FromSqlResult<Self> {
        let s = String::column_result(value)?;
        let val: Settings = serde_json::from_str(&s)
            .map_err(|e| rusqlite::types::FromSqlError::Other(Box::new(e)))?;
        Ok(val)
    }
}
";

#[test]
fn string_representation() {
    assert_eq!(value("PersonRole", true, false).generate().unwrap(), AS_STRING);
    assert_eq!(value("PersonRole", false, false).generate_as_string().unwrap(), AS_STRING);
}

#[test]
fn json_representation() {
    assert_eq!(value("Settings", false, true).generate().unwrap(), AS_JSON);
    assert_eq!(value("Settings", true, false).generate_as_json().unwrap(), AS_JSON);
}

#[test]
fn string_wins_over_json() {
    assert_eq!(value("PersonRole", true, true).generate().unwrap(), AS_STRING);
}

#[test]
fn a_representation_must_be_named() {
    assert_eq!(value("PersonRole", false, false).generate(), Err(DeriveError::MissingRepresentation));
    assert_eq!(
        DeriveError::MissingRepresentation.message(),
        "must specify one of `#[sqlite(as_string)]` or `#[sqlite(as_json)]`"
    );
}

#[test]
fn the_text_is_three_impls() {
    for text in [AS_STRING, AS_JSON] {
        let file: syn::File = syn::parse_str(text).expect("the text is a file");
        assert_eq!(file.items.len(), 3);
        for item in file.items {
            assert!(matches!(item, syn::Item::Impl(_)));
        }
    }
}
