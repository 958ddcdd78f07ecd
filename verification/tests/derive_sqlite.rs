use rusqlite_mapper::derive_from_row::DeriveFromRow;
use rusqlite_mapper::derive_sqlite::DeriveSqlite;
use rusqlite_mapper::derive_to_row::DeriveToRow;
use rusqlite_mapper::error::DeriveError;
use rusqlite_mapper::fields::{FieldType, PathArguments, PathSegment, SqliteField, TypeShape};
use rusqlite_mapper::generics::Generics;

fn plain(name: &str) -> FieldType {
    FieldType {
        tokens: name.to_string(),
        shape: TypeShape::Path(vec![PathSegment {
            ident: name.to_string(),
            arguments: PathArguments::Absent,
        }]),
    }
}

fn field(ident: &str, ty: &str) -> SqliteField {
    SqliteField {
        ident: Some(ident.to_string()),
        ty: plain(ty),
        flatten: false,
        prefix: None,
        try_from: None,
        from: None,
        rename: None,
        primary_key: false,
        skip: false,
        value: false,
    }
}

fn no_generics() -> Generics {
    Generics { impl_generics: String::new(), ty_generics: String::new(), where_predicates: Vec::new() }
}

fn data() -> Vec<SqliteField> {
    let mut id = field("id", "i32");
    id.primary_key = true;
    vec![id, field("name", "String")]
}

fn both(skip_from_row: bool, skip_to_row: bool) -> DeriveSqlite {
    DeriveSqlite {
        ident: "UserAccount".to_string(),
        generics: no_generics(),
        data: data(),
        skip_from_row,
        skip_to_row,
    }
}

fn from_row() -> String {
    DeriveFromRow { ident: "UserAccount".to_string(), generics: no_generics(), data: data() }
        .generate()
        .unwrap()
}

fn to_row() -> String {
    DeriveToRow { ident: "UserAccount".to_string(), generics: no_generics(), data: data() }
        .generate()
        .unwrap()
}

#[test]
fn both_mappings_are_generated() {
    let input = both(false, false);
    assert!(input.can_generate());
    let text = input.generate().unwrap();
    assert_eq!(text, format!("{}{}", from_row(), to_row()));
    let file: syn::File = syn::parse_str(&text).expect("the text is a file");
    assert_eq!(file.items.len(), 2);
    assert!(text.contains("fn table_name() -> &'static str { \"user_account\" }"));
}

#[test]
fn each_mapping_can_be_left_out() {
    assert_eq!(both(true, false).generate().unwrap(), to_row());
    assert_eq!(both(false, true).generate().unwrap(), from_row());
    assert_eq!(both(true, true).generate().unwrap(), "");
}

#[test]
fn the_parts_are_those_of_generate() {
    let input = both(false, false);
    assert_eq!(input.generate_from_row().unwrap(), from_row());
    assert_eq!(input.generate_to_row().unwrap(), to_row());
    assert_eq!(
        input.generate_from_row_with(&vec!["i32".to_string(), "String".to_string()]),
        from_row()
    );
    assert!(input
        .generate_to_row_for_table("accounts")
        .unwrap()
        .contains("fn table_name() -> &'static str { \"accounts\" }"));
    assert_eq!(
        input.predicates().unwrap(),
        ["i32: ::rusqlite::types::FromSql", "String: ::rusqlite::types::FromSql"]
    );
    assert_eq!(input.fields().len(), 2);
}

#[test]
fn the_fields_are_validated_even_when_nothing_is_generated() {
    let mut input = both(true, true);
    input.data[1].from = Some("A".to_string());
    input.data[1].try_from = Some("B".to_string());
    assert_eq!(input.validate(), Err(DeriveError::ConflictingConversions));
    assert_eq!(input.generate(), Err(DeriveError::ConflictingConversions));
}

#[test]
fn a_skipped_field_is_left_out_of_both_mappings() {
    let mut input = both(false, false);
    input.data[1].skip = true;
    input.data[1].from = Some("A".to_string());
    input.data[1].try_from = Some("(".to_string());
    input.data[1].ty = plain("Vec");
    assert!(input.can_generate());
    assert_eq!(input.validate(), Ok(()));
    assert_eq!(input.fields().len(), 1);
    assert_eq!(input.predicates().unwrap(), ["i32: ::rusqlite::types::FromSql"]);
    let text = input.generate().unwrap();
    assert!(text.contains("where i32: ::rusqlite::types::FromSql {"));
    assert!(text.contains("name: Default::default() })"));
    assert!(!text.contains("\"name\""));
    assert!(text.contains("column_names() -> &'static [&'static str] { &[\"id\", ] }"));
    assert!(text.contains("type Params<'a> = (i32, ) where Self: 'a;"));
    assert!(text.contains("fn to_params(&self) -> Self::Params<'_> { (self.id, ) }"));
    let file: syn::File = syn::parse_str(&text).expect("the text is a file");
    assert_eq!(file.items.len(), 2);
}

#[test]
fn an_unreadable_conversion_matters_only_for_from_row() {
    let mut input = both(false, false);
    input.data[0].from = Some("(".to_string());
    assert_eq!(input.generate(), Err(DeriveError::UnreadableType));
    let mut input = both(true, false);
    input.data[0].from = Some("(".to_string());
    assert_eq!(input.generate().unwrap(), to_row());
}

#[test]
fn can_generate_looks_at_what_is_asked_for() {
    let mut input = both(false, false);
    input.data[1].ty = plain("Vec");
    assert!(!input.can_generate());
    input.skip_to_row = true;
    assert!(input.can_generate());
    let mut input = both(false, false);
    input.data[1].ident = None;
    input.data[1].rename = Some("name".to_string());
    assert!(!input.can_generate());
    input.skip_from_row = true;
    assert!(input.can_generate());
}

#[test]
fn generate_with_takes_the_types_and_the_table_as_they_are() {
    let targets = vec!["i64".to_string(), "Name".to_string()];
    let text = both(false, false).generate_with(&targets, "accounts").unwrap();
    assert!(text.contains("where i64: ::rusqlite::types::FromSql, Name: ::rusqlite::types::FromSql {"));
    assert!(text.contains("fn table_name() -> &'static str { \"accounts\" }"));
    let file: syn::File = syn::parse_str(&text).expect("the text is a file");
    assert_eq!(file.items.len(), 2);
    assert_eq!(
        both(true, false).generate_with(&vec![], "user_account").unwrap(),
        to_row()
    );
    assert_eq!(
        both(false, true)
            .generate_with(&vec!["i32".to_string(), "String".to_string()], "unused")
            .unwrap(),
        from_row()
    );
}
