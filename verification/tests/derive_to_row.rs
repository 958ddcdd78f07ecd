use rusqlite_mapper::derive_to_row::{
    are_bindable, is_scalar, param_ref_of, sql_type_entry, to_row_for, to_row_impl,
    type_to_param_ty, DeriveToRow,
};
use rusqlite_mapper::fields::{
    FieldType, GenericArgument, PathArguments, PathSegment, SqliteField, TypeShape,
};
use rusqlite_mapper::generics::Generics;

fn segment(name: &str) -> PathSegment {
    PathSegment { ident: name.to_string(), arguments: PathArguments::Absent }
}

fn plain(name: &str) -> FieldType {
    FieldType { tokens: name.to_string(), shape: TypeShape::Path(vec![segment(name)]) }
}

fn generic(name: &str, argument: &str) -> FieldType {
    FieldType {
        tokens: format!("{} < {} >", name, argument),
        shape: TypeShape::Path(vec![PathSegment {
            ident: name.to_string(),
            arguments: PathArguments::AngleBracketed(vec![GenericArgument::Type(
                argument.to_string(),
            )]),
        }]),
    }
}

fn other(tokens: &str) -> FieldType {
    FieldType { tokens: tokens.to_string(), shape: TypeShape::Other }
}

fn field(ident: &str, ty: FieldType) -> SqliteField {
    SqliteField {
        ident: Some(ident.to_string()),
        ty,
        flatten: false,
        prefix: None,
        try_from: None,
        from: None,
        rename: None,
        primary_key: false,
        skip: false,
        value: false,
    }
}

fn no_generics() -> Generics {
    Generics { impl_generics: String::new(), ty_generics: String::new(), where_predicates: Vec::new() }
}

fn person() -> DeriveToRow {
    let mut id = field("id", plain("i32"));
    id.primary_key = true;
    let mut ignore = field("ignore", plain("IgnoreMe"));
    ignore.skip = true;
    DeriveToRow {
        ident: "Person".to_string(),
        generics: no_generics(),
        data: vec![
            id,
            field("name", plain("String")),
            field("role", plain("PersonRole")),
            ignore,
            field("data", generic("Option", "Vec < u8 >")),
        ],
    }
}

fn flatten(stream: proc_macro2::TokenStream, out: &mut Vec<String>) {
    for tree in stream {
        match tree {
            proc_macro2::TokenTree::Group(group) => {
                out.push(format!("open {:?}", group.delimiter()));
                flatten(group.stream(), out);
                out.push(format!("close {:?}", group.delimiter()));
            }
            proc_macro2::TokenTree::Punct(punct) => out.push(punct.as_char().to_string()),
            other => out.push(other.to_string()),
        }
    }
}

fn tokens(text: &str) -> Vec<String> {
    let mut out = Vec::new();
    flatten(text.parse::<proc_macro2::TokenStream>().expect("the text lexes"), &mut out);
    out
}

#[test]
fn is_scalar_knows_the_thirteen_names() {
    for name in [
        "i8", "i16", "i32", "i64", "isize", "u8", "u16", "u32", "f32", "f64", "u64", "usize",
        "bool",
    ] {
        assert!(is_scalar(name), "{}", name);
    }
    for name in ["i128", "u128", "String", "char", "Vec", "", "I32", "i32 ", "boolean", "str"] {
        assert!(!is_scalar(name), "{}", name);
    }
}

#[test]
fn scalar_is_bound_by_value() {
    assert_eq!(type_to_param_ty(&plain("i32"), false).unwrap(), "i32");
    assert_eq!(type_to_param_ty(&plain("bool"), false).unwrap(), "bool");
    assert_eq!(type_to_param_ty(&plain("f64"), false).unwrap(), "f64");
}

#[test]
fn a_type_bound_by_value_is_written_as_it_stands() {
    let ty = FieldType { tokens: "u8 < T >".to_string(), ..generic("u8", "T") };
    assert_eq!(type_to_param_ty(&ty, false).unwrap(), "u8 < T >");
    let rooted = FieldType { tokens: ":: i32".to_string(), ..plain("i32") };
    assert_eq!(type_to_param_ty(&rooted, false).unwrap(), ":: i32");
}

#[test]
fn scalar_behind_a_path_is_bound_by_reference() {
    let ty = FieldType {
        tokens: "std :: primitive :: i32".to_string(),
        shape: TypeShape::Path(vec![segment("std"), segment("primitive"), segment("i32")]),
    };
    assert!(!ty.is_scalar());
    assert!(!ty.binds_by_value(false));
    assert_eq!(type_to_param_ty(&ty, false).unwrap(), "&'a std :: primitive :: i32");
    assert_eq!(param_ref_of(&Some("n".to_string()), &ty, false), "&self.n");
    assert!(ty.binds_by_value(true));
    assert_eq!(type_to_param_ty(&ty, true).unwrap(), "std :: primitive :: i32");
    assert_eq!(param_ref_of(&Some("n".to_string()), &ty, true), "self.n");
}

#[test]
fn the_expression_is_by_value_exactly_when_the_type_is_the_type_itself() {
    let types = [
        plain("i32"),
        plain("String"),
        plain("Uuid"),
        generic("Vec", "u8"),
        generic("Option", "i32"),
        generic("u8", "T"),
        other("& 'static str"),
        other("(i32 , String)"),
        FieldType {
            tokens: "std :: primitive :: bool".to_string(),
            shape: TypeShape::Path(vec![segment("std"), segment("primitive"), segment("bool")]),
        },
        FieldType { tokens: "X".to_string(), shape: TypeShape::Path(vec![]) },
    ];
    for ty in &types {
        for value in [false, true] {
            let param_ty = type_to_param_ty(ty, value).unwrap();
            let param_ref = param_ref_of(&Some("f".to_string()), ty, value);
            assert_eq!(ty.binds_by_value(value), param_ref == "self.f", "{:?}", ty);
            assert_eq!(!ty.binds_by_value(value), param_ref == "&self.f", "{:?}", ty);
            assert_eq!(ty.binds_by_value(value), !param_ty.starts_with("&'a "), "{:?}", ty);
        }
    }
}

#[test]
fn vec_is_bound_as_a_slice_of_its_items() {
    assert_eq!(type_to_param_ty(&generic("Vec", "u8"), false).unwrap(), "&'a [u8]");
    let qualified = FieldType {
        tokens: "std :: vec :: Vec < String >".to_string(),
        shape: TypeShape::Path(vec![
            segment("std"),
            segment("vec"),
            PathSegment {
                ident: "Vec".to_string(),
                arguments: PathArguments::AngleBracketed(vec![
                    GenericArgument::Type("String".to_string()),
                    GenericArgument::Other,
                ]),
            },
        ]),
    };
    assert_eq!(type_to_param_ty(&qualified, false).unwrap(), "&'a [String]");
}

#[test]
fn vec_without_an_item_type_has_no_param_ty() {
    assert!(!plain("Vec").has_param_ty(false));
    assert!(plain("Vec").has_param_ty(true));
    let lifetime_first = FieldType {
        tokens: "Vec < 'a >".to_string(),
        shape: TypeShape::Path(vec![PathSegment {
            ident: "Vec".to_string(),
            arguments: PathArguments::AngleBracketed(vec![
                GenericArgument::Other,
                GenericArgument::Type("u8".to_string()),
            ]),
        }]),
    };
    assert!(!lifetime_first.has_param_ty(false));
    let empty = FieldType {
        tokens: "Vec < >".to_string(),
        shape: TypeShape::Path(vec![PathSegment {
            ident: "Vec".to_string(),
            arguments: PathArguments::AngleBracketed(vec![]),
        }]),
    };
    assert!(!empty.has_param_ty(false));
    let called = FieldType {
        tokens: "Vec (u8)".to_string(),
        shape: TypeShape::Path(vec![PathSegment {
            ident: "Vec".to_string(),
            arguments: PathArguments::Parenthesized,
        }]),
    };
    assert!(!called.has_param_ty(false));
    assert!(generic("Vec", "u8").has_param_ty(false));
    assert!(plain("String").has_param_ty(false));
    assert!(other("& str").has_param_ty(false));
}

#[test]
fn other_paths_are_bound_by_reference() {
    assert_eq!(type_to_param_ty(&plain("String"), false).unwrap(), "&'a String");
    assert_eq!(
        type_to_param_ty(&generic("Option", "Vec < u8 >"), false).unwrap(),
        "&'a Option < Vec < u8 > >"
    );
    let no_segments = FieldType { tokens: "X".to_string(), shape: TypeShape::Path(vec![]) };
    assert!(no_segments.last_segment().is_none());
    assert_eq!(type_to_param_ty(&no_segments, false).unwrap(), "&'a X");
}

#[test]
fn what_is_no_path_is_bound_as_it_is() {
    assert_eq!(type_to_param_ty(&other("& 'static str"), false).unwrap(), "& 'static str");
    assert_eq!(type_to_param_ty(&other("[u8 ; 4]"), false).unwrap(), "[u8 ; 4]");
}

#[test]
fn value_forces_the_type_itself() {
    assert_eq!(type_to_param_ty(&plain("Uuid"), true).unwrap(), "Uuid");
    assert_eq!(type_to_param_ty(&generic("Vec", "u8"), true).unwrap(), "Vec < u8 >");
    assert_eq!(type_to_param_ty(&plain("Vec"), true).unwrap(), "Vec");
    let mut id = field("id", plain("Uuid"));
    id.value = true;
    assert_eq!(id.param_ty().unwrap(), "Uuid");
    assert_eq!(id.param_ref().unwrap(), "self.id");
}

#[test]
fn param_ref_borrows_unless_scalar() {
    assert_eq!(field("id", plain("i32")).param_ref().unwrap(), "self.id");
    assert_eq!(field("ok", plain("bool")).param_ref().unwrap(), "self.ok");
    assert_eq!(field("name", plain("String")).param_ref().unwrap(), "&self.name");
    assert_eq!(field("data", generic("Vec", "u8")).param_ref().unwrap(), "&self.data");
    assert_eq!(field("s", other("& str")).param_ref().unwrap(), "self.s");
}

#[test]
fn param_ref_of_a_nameless_field_is_the_unit() {
    let mut nameless = field("x", plain("i32"));
    nameless.ident = None;
    assert_eq!(nameless.param_ref().unwrap(), "()");
    nameless.value = true;
    assert_eq!(nameless.param_ref().unwrap(), "()");
    assert_eq!(param_ref_of(&None, &plain("String"), false), "()");
}

#[test]
fn a_field_is_bindable_with_a_column_name_and_a_param_ty() {
    assert!(field("a", plain("String")).is_bindable());
    let mut nameless = field("a", plain("String"));
    nameless.ident = None;
    assert!(!nameless.is_bindable());
    nameless.rename = Some("b".to_string());
    assert!(nameless.is_bindable());
    assert!(!field("a", plain("Vec")).is_bindable());
    let mut forced = field("a", plain("Vec"));
    forced.value = true;
    assert!(forced.is_bindable());
    let good = field("a", plain("i8"));
    let bad = field("b", plain("Vec"));
    assert!(are_bindable(&vec![&good, &good]));
    assert!(!are_bindable(&vec![&good, &bad]));
    assert!(are_bindable(&vec![]));
}

#[test]
fn sql_type_entry_asks_the_type() {
    assert_eq!(
        sql_type_entry("rusqlite_mapper", "i32", true),
        "(<i32 as rusqlite_mapper::SqliteTypeInfo>::sqlite_type().to_string(), \
         <i32 as rusqlite_mapper::SqliteTypeInfo>::optional(), true,)"
    );
    assert_eq!(
        sql_type_entry("k", "Option < T >", false),
        "(<Option < T > as k::SqliteTypeInfo>::sqlite_type().to_string(), \
         <Option < T > as k::SqliteTypeInfo>::optional(), false,)"
    );
}

const PERSON: &str = "impl  rusqlite_mapper::ToRow for Person  {
    type Params<'a> = (i32, &'a String, &'a PersonRole, &'a Option < Vec < u8 > >, ) where Self: 'a;
    fn table_name() -> &'static str { \"person\" }
    fn column_names() -> &'static [&'static str] { &[\"id\", \"name\", \"role\", \"data\", ] }
    fn to_params(&self) -> Self::Params<'_> { (self.id, &self.name, &self.role, &self.data, ) }
    fn sql_types() -> Vec<(String, bool, bool)> { vec![\
(<i32 as rusqlite_mapper::SqliteTypeInfo>::sqlite_type().to_string(), <i32 as rusqlite_mapper::SqliteTypeInfo>::optional(), true,), \
(<String as rusqlite_mapper::SqliteTypeInfo>::sqlite_type().to_string(), <String as rusqlite_mapper::SqliteTypeInfo>::optional(), false,), \
(<PersonRole as rusqlite_mapper::SqliteTypeInfo>::sqlite_type().to_string(), <PersonRole as rusqlite_mapper::SqliteTypeInfo>::optional(), false,), \
(<Option < Vec < u8 > > as rusqlite_mapper::SqliteTypeInfo>::sqlite_type().to_string(), <Option < Vec < u8 > > as rusqlite_mapper::SqliteTypeInfo>::optional(), false,), \
] }
}
";

#[test]
fn person_to_row_text() {
    let input = person();
    assert!(input.can_generate());
    assert_eq!(input.generate().unwrap(), PERSON);
}

#[test]
fn person_to_row_is_the_expected_impl() {
    let text = person().generate().unwrap();
    let parsed: syn::ItemImpl = syn::parse_str(&text).expect("the text is an impl");
    assert_eq!(parsed.items.len(), 5);
    let expected = "
        impl rusqlite_mapper::ToRow for Person {
            type Params<'a> = (i32, &'a String, &'a PersonRole, &'a Option<Vec<u8>>,)
            where
                Self: 'a;

            fn table_name() -> &'static str {
                \"person\"
            }

            fn column_names() -> &'static [&'static str] {
                &[\"id\", \"name\", \"role\", \"data\",]
            }

            fn to_params(&self) -> Self::Params<'_> {
                (self.id, &self.name, &self.role, &self.data,)
            }

            fn sql_types() -> Vec<(String, bool, bool)> {
                vec![
                    (
                        <i32 as rusqlite_mapper::SqliteTypeInfo>::sqlite_type().to_string(),
                        <i32 as rusqlite_mapper::SqliteTypeInfo>::optional(),
                        true,
                    ),
                    (
                        <String as rusqlite_mapper::SqliteTypeInfo>::sqlite_type().to_string(),
                        <String as rusqlite_mapper::SqliteTypeInfo>::optional(),
                        false,
                    ),
                    (
                        <PersonRole as rusqlite_mapper::SqliteTypeInfo>::sqlite_type().to_string(),
                        <PersonRole as rusqlite_mapper::SqliteTypeInfo>::optional(),
                        false,
                    ),
                    (
                        <Option<Vec<u8>> as rusqlite_mapper::SqliteTypeInfo>::sqlite_type().to_string(),
                        <Option<Vec<u8>> as rusqlite_mapper::SqliteTypeInfo>::optional(),
                        false,
                    ),
                ]
            }
        }";
    assert_eq!(tokens(&text), tokens(expected));
}

#[test]
fn fields_leaves_out_what_is_skipped() {
    let input = person();
    let names: Vec<String> = input.fields().iter().map(|f| f.column_name()).collect();
    assert_eq!(names, ["id", "name", "role", "data"]);
}

#[test]
fn a_skipped_field_need_not_be_bindable() {
    let mut input = person();
    input.data[3].ty = plain("Vec");
    assert!(input.can_generate());
    assert_eq!(input.generate().unwrap(), PERSON);
    let mut input = person();
    input.data[1].ty = plain("Vec");
    assert!(!input.can_generate());
}

#[test]
fn the_table_is_named_in_snake_case() {
    for (ident, table) in [
        ("Person", "person"),
        ("PersonRole", "person_role"),
        ("XMLHttpRequest", "xml_http_request"),
        ("already_snake", "already_snake"),
        ("ABC", "abc"),
    ] {
        let input =
            DeriveToRow { ident: ident.to_string(), generics: no_generics(), data: vec![] };
        let text = input.generate().unwrap();
        let expected = format!("fn table_name() -> &'static str {{ \"{}\" }}", table);
        assert!(text.contains(&expected), "{}", text);
        let header = format!("impl  rusqlite_mapper::ToRow for {}  {{", ident);
        assert!(text.starts_with(&header), "{}", text);
    }
}

#[test]
fn generate_for_table_takes_the_name_as_it_is() {
    let input = DeriveToRow { ident: "Person".to_string(), generics: no_generics(), data: vec![] };
    let text = input.generate_for_table("My \"Table\"").unwrap();
    assert_eq!(
        text,
        "impl  rusqlite_mapper::ToRow for Person  {
    type Params<'a> = () where Self: 'a;
    fn table_name() -> &'static str { \"My \\\"Table\\\"\" }
    fn column_names() -> &'static [&'static str] { &[] }
    fn to_params(&self) -> Self::Params<'_> { () }
    fn sql_types() -> Vec<(String, bool, bool)> { vec![] }
}
"
    );
}

#[test]
fn rename_names_the_column_and_generics_are_carried() {
    let mut key = field("key", plain("K"));
    key.rename = Some("the key".to_string());
    key.primary_key = true;
    let input = DeriveToRow {
        ident: "Pair".to_string(),
        generics: Generics {
            impl_generics: "< K : Clone , V >".to_string(),
            ty_generics: "< K , V >".to_string(),
            where_predicates: vec!["V : Default".to_string()],
        },
        data: vec![key, field("value", generic("Vec", "V"))],
    };
    let text = input.generate().unwrap();
    assert_eq!(
        text,
        "impl < K : Clone , V > rusqlite_mapper::ToRow for Pair < K , V > where V : Default {
    type Params<'a> = (&'a K, &'a [V], ) where Self: 'a;
    fn table_name() -> &'static str { \"pair\" }
    fn column_names() -> &'static [&'static str] { &[\"the key\", \"value\", ] }
    fn to_params(&self) -> Self::Params<'_> { (&self.key, &self.value, ) }
    fn sql_types() -> Vec<(String, bool, bool)> { vec![\
(<K as rusqlite_mapper::SqliteTypeInfo>::sqlite_type().to_string(), <K as rusqlite_mapper::SqliteTypeInfo>::optional(), true,), \
(<Vec < V > as rusqlite_mapper::SqliteTypeInfo>::sqlite_type().to_string(), <Vec < V > as rusqlite_mapper::SqliteTypeInfo>::optional(), false,), \
] }
}
"
    );
    let _: syn::ItemImpl = syn::parse_str(&text).expect("the text is an impl");
}

#[test]
fn to_row_for_writes_what_it_is_given() {
    let a = field("a", plain("u8"));
    let text = to_row_for("other_crate", &no_generics(), "S", "tbl", &vec![&a]).unwrap();
    assert_eq!(
        text,
        "impl  other_crate::ToRow for S  {
    type Params<'a> = (u8, ) where Self: 'a;
    fn table_name() -> &'static str { \"tbl\" }
    fn column_names() -> &'static [&'static str] { &[\"a\", ] }
    fn to_params(&self) -> Self::Params<'_> { (self.a, ) }
    fn sql_types() -> Vec<(String, bool, bool)> { vec![\
(<u8 as other_crate::SqliteTypeInfo>::sqlite_type().to_string(), <u8 as other_crate::SqliteTypeInfo>::optional(), false,), \
] }
}
"
    );
}

#[test]
fn to_row_impl_joins_its_parts() {
    let text = to_row_impl(
        "k",
        &no_generics(),
        "S",
        "t",
        &vec!["P1".to_string(), "P2".to_string()],
        &vec!["c1".to_string()],
        &vec!["v1".to_string(), "v2".to_string(), "v3".to_string()],
        &vec![],
    );
    assert_eq!(
        text,
        "impl  k::ToRow for S  {
    type Params<'a> = (P1, P2, ) where Self: 'a;
    fn table_name() -> &'static str { \"t\" }
    fn column_names() -> &'static [&'static str] { &[\"c1\", ] }
    fn to_params(&self) -> Self::Params<'_> { (v1, v2, v3, ) }
    fn sql_types() -> Vec<(String, bool, bool)> { vec![] }
}
"
    );
}

#[test]
fn a_struct_of_one_field_binds_a_tuple_of_one() {
    let input = DeriveToRow {
        ident: "One".to_string(),
        generics: no_generics(),
        data: vec![field("id", plain("i32"))],
    };
    let text = input.generate().unwrap();
    assert!(text.contains("type Params<'a> = (i32, ) where Self: 'a;"));
    assert!(text.contains("fn to_params(&self) -> Self::Params<'_> { (self.id, ) }"));
    let parsed: syn::ItemImpl = syn::parse_str(&text).expect("the text is an impl");
    match &parsed.items[0] {
        syn::ImplItem::Type(params) => match &params.ty {
            syn::Type::Tuple(tuple) => assert_eq!(tuple.elems.len(), 1),
            _ => panic!("Params is no tuple"),
        },
        _ => panic!("the first item is no type"),
    }
}

#[test]
fn a_struct_without_columns_binds_the_unit() {
    let input = DeriveToRow { ident: "Zero".to_string(), generics: no_generics(), data: vec![] };
    let text = input.generate().unwrap();
    let parsed: syn::ItemImpl = syn::parse_str(&text).expect("the text is an impl");
    match &parsed.items[0] {
        syn::ImplItem::Type(params) => match &params.ty {
            syn::Type::Tuple(tuple) => assert!(tuple.elems.is_empty()),
            _ => panic!("Params is no tuple"),
        },
        _ => panic!("the first item is no type"),
    }
}

#[test]
fn the_where_clause_of_the_struct_is_repeated() {
    let mut generics = no_generics();
    assert_eq!(generics.where_clause(), "");
    generics.where_predicates = vec!["T : Clone".to_string()];
    assert_eq!(generics.where_clause(), " where T : Clone");
    generics.where_predicates.push("U : Send + 'static".to_string());
    assert_eq!(generics.where_clause(), " where T : Clone, U : Send + 'static");
    generics.impl_generics = "< T , U >".to_string();
    generics.ty_generics = "< T , U >".to_string();
    let input = DeriveToRow { ident: "W".to_string(), generics, data: vec![field("v", plain("T"))] };
    let text = input.generate().unwrap();
    assert!(text.starts_with(
        "impl < T , U > rusqlite_mapper::ToRow for W < T , U > where T : Clone, \
         U : Send + 'static {\n"
    ));
    let parsed: syn::ItemImpl = syn::parse_str(&text).expect("the text is an impl");
    assert_eq!(parsed.generics.where_clause.expect("a where clause").predicates.len(), 2);
}
