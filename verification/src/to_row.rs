//! The traits that generated row mappings implement, and the SQL statements
//! that follow from a mapping.

use crate::text::{join, joined, views};
use vstd::prelude::*;

verus! {

/// One column's SQL description: type name, whether it admits `NULL`, whether
/// it is the primary key.
pub type SqlType = (Seq<char>, bool, bool);

/// The constraint that follows a column's type name.
pub open spec fn column_constraint(optional: bool, primary_key: bool) -> Seq<char> {
    if primary_key {
        " PRIMARY KEY"@
    } else if !optional {
        " NOT NULL"@
    } else {
        Seq::empty()
    }
}

/// A column as it stands in `CREATE TABLE`: name, type name, constraint.
pub open spec fn column_definition(name: Seq<char>, ty: SqlType) -> Seq<char> {
    name + " "@ + ty.0 + column_constraint(ty.1, ty.2)
}

/// The definitions of the columns that have both a name and a type, in order.
pub open spec fn column_definitions(names: Seq<Seq<char>>, types: Seq<SqlType>) -> Seq<Seq<char>> {
    Seq::new(
        if names.len() <= types.len() {
            names.len()
        } else {
            types.len()
        },
        |i: int| column_definition(names[i], types[i]),
    )
}

/// The statement that creates `table` with the given columns.
pub open spec fn create_table_text(
    table: Seq<char>,
    names: Seq<Seq<char>>,
    types: Seq<SqlType>,
) -> Seq<char> {
    "CREATE TABLE "@ + table + " ("@ + joined(column_definitions(names, types), ", "@) + ")"@
}

/// One `?` for each column.
pub open spec fn placeholders(count: nat) -> Seq<Seq<char>> {
    Seq::new(count, |i: int| "?"@)
}

/// The statement that inserts one row into `table`, one parameter per column.
pub open spec fn insert_text(table: Seq<char>, names: Seq<Seq<char>>) -> Seq<char> {
    "INSERT INTO "@ + table + " ("@ + joined(names, ", "@) + ") VALUES ("@ + joined(
        placeholders(names.len()),
        ", "@,
    ) + ")"@
}

/// The assignment that overwrites column `name` with the rejected row's value.
pub open spec fn excluded_assignment(name: Seq<char>) -> Seq<char> {
    name + " = excluded."@ + name
}

/// `excluded_assignment` of every column, in order.
pub open spec fn excluded_assignments(names: Seq<Seq<char>>) -> Seq<Seq<char>> {
    Seq::new(names.len(), |i: int| excluded_assignment(names[i]))
}

/// `insert`, extended to overwrite every column when the row collides on `id`.
pub open spec fn upsert_text(insert: Seq<char>, id: Seq<char>, names: Seq<Seq<char>>) -> Seq<char> {
    insert + " ON CONFLICT ("@ + id + ") DO UPDATE SET "@ + joined(
        excluded_assignments(names),
        ", "@,
    )
}

/// Builds the `CREATE TABLE` statement for `table`. A column is defined for
/// every position that has both a name and a type.
pub fn create_table_sql(table: &str, names: &[&str], types: &Vec<(String, bool, bool)>) -> (stmt:
    String)
    ensures
        stmt@ == create_table_text(table@, names.deep_view(), types.deep_view()),
{
    let mut definitions: Vec<String> = Vec::new();
    let mut i: usize = 0;
    while i < names.len() && i < types.len()
        invariant
            i <= names.len(),
            i <= types.len(),
            definitions@.len() == i,
            forall|j: int|
                0 <= j < i ==> (#[trigger] definitions@[j])@ == column_definition(
                    names.deep_view()[j],
                    types.deep_view()[j],
                ),
        decreases names.len() - i,
    {
        let mut definition = String::from_str(names[i]);
        definition.append(" ");
        definition.append(types[i].0.as_str());
        if types[i].2 {
            definition.append(" PRIMARY KEY");
        } else if !types[i].1 {
            definition.append(" NOT NULL");
        }
        proof {
            assert(names.deep_view()[i as int] == names[i as int]@);
            assert(types.deep_view()[i as int] == types[i as int].deep_view());
            assert(definition@ =~= column_definition(
                names.deep_view()[i as int],
                types.deep_view()[i as int],
            ));
        }
        definitions.push(definition);
        i += 1;
    }
    assert(views(definitions@) =~= column_definitions(names.deep_view(), types.deep_view()));
    let mut stmt = String::from_str("CREATE TABLE ");
    stmt.append(table);
    stmt.append(" (");
    stmt.append(join(&definitions, ", ").as_str());
    stmt.append(")");
    stmt
}

/// Builds the `INSERT` statement for `table`, with one `?` per column.
pub fn insert_sql(table: &str, names: &[&str]) -> (stmt: String)
    ensures
        stmt@ == insert_text(table@, names.deep_view()),
{
    let mut owned: Vec<String> = Vec::new();
    let mut marks: Vec<String> = Vec::new();
    let mut i: usize = 0;
    while i < names.len()
        invariant
            i <= names.len(),
            owned@.len() == i,
            marks@.len() == i,
            forall|j: int| 0 <= j < i ==> (#[trigger] owned@[j])@ == names@[j]@,
            forall|j: int| 0 <= j < i ==> (#[trigger] marks@[j])@ == "?"@,
        decreases names.len() - i,
    {
        owned.push(String::from_str(names[i]));
        marks.push(String::from_str("?"));
        i += 1;
    }
    assert(views(owned@) =~= names.deep_view());
    assert(views(marks@) =~= placeholders(names.deep_view().len()));
    let mut stmt = String::from_str("INSERT INTO ");
    stmt.append(table);
    stmt.append(" (");
    stmt.append(join(&owned, ", ").as_str());
    stmt.append(") VALUES (");
    stmt.append(join(&marks, ", ").as_str());
    stmt.append(")");
    stmt
}

/// Extends the statement `insert` so that a row that collides on `id` has
/// every column overwritten by the new row.
pub fn upsert_sql(insert: String, id: &str, names: &[&str]) -> (stmt: String)
    ensures
        stmt@ == upsert_text(insert@, id@, names.deep_view()),
{
    let mut assignments: Vec<String> = Vec::new();
    let mut i: usize = 0;
    while i < names.len()
        invariant
            i <= names.len(),
            assignments@.len() == i,
            forall|j: int|
                0 <= j < i ==> (#[trigger] assignments@[j])@ == excluded_assignment(names@[j]@),
        decreases names.len() - i,
    {
        let mut assignment = String::from_str(names[i]);
        assignment.append(" = excluded.");
        assignment.append(names[i]);
        assignments.push(assignment);
        i += 1;
    }
    assert(views(assignments@) =~= excluded_assignments(names.deep_view()));
    let mut stmt = insert;
    stmt.append(" ON CONFLICT (");
    stmt.append(id);
    stmt.append(") DO UPDATE SET ");
    stmt.append(join(&assignments, ", ").as_str());
    stmt
}

/// A trait that maps a struct to a row in a database.
///
/// What an implementation returns for the table, its columns and their types
/// is its own business; the statements are built from whatever it returns. An
/// implementation that writes a statement itself is held to the statement's
/// contract.
pub trait ToRow: Sized {
    /// The bound parameters of one row, borrowed from the struct.
    type Params<'a> where Self: 'a;

    /// The name of the table that the struct maps to.
    fn table_name() -> &'static str;

    /// The names of the table's columns, in order.
    fn column_names() -> &'static [&'static str];

    /// Returns a list of (sql data type name, optional, primary key)
    fn sql_types() -> Vec<(String, bool, bool)>;

    /// The values of one row, in the order of `column_names`.
    fn to_params(&self) -> Self::Params<'_>;

    /// The `CREATE TABLE` statement for what `table_name`, `column_names`
    /// and `sql_types` return.
    fn create_table_statement() -> (stmt: String)
        ensures
            exists|table: &'static str, names: &'static [&'static str], types: Vec<
                (String, bool, bool),
            >|
                {
                    &&& call_ensures(Self::table_name, (), table)
                    &&& call_ensures(Self::column_names, (), names)
                    &&& call_ensures(Self::sql_types, (), types)
                    &&& stmt@ == create_table_text(table@, names.deep_view(), types.deep_view())
                },
    {
        create_table_sql(Self::table_name(), Self::column_names(), &Self::sql_types())
    }

    /// The `INSERT` statement for what `table_name` and `column_names` return.
    fn insert_stmt() -> (stmt: String)
        ensures
            exists|table: &'static str, names: &'static [&'static str]|
                {
                    &&& call_ensures(Self::table_name, (), table)
                    &&& call_ensures(Self::column_names, (), names)
                    &&& stmt@ == insert_text(table@, names.deep_view())
                },
    {
        insert_sql(Self::table_name(), Self::column_names())
    }

    /// What `insert_stmt` returns, extended to overwrite every column that
    /// `column_names` returns when the row collides on `id`.
    fn upsert_stmt(id: &str) -> (stmt: String)
        ensures
            exists|insert: String, names: &'static [&'static str]|
                {
                    &&& call_ensures(Self::insert_stmt, (), insert)
                    &&& call_ensures(Self::column_names, (), names)
                    &&& stmt@ == upsert_text(insert@, id@, names.deep_view())
                },
    {
        upsert_sql(Self::insert_stmt(), id, Self::column_names())
    }
}

/// Describes how a Rust type is declared as a column of a SQLite table.
///
/// The trait promises nothing of the column type's name; each implementation
/// in this crate states its own. Of `NULL` it promises what `admits_null` says.
pub trait SqliteTypeInfo {
    /// The name of the column type: `INTEGER`, `TEXT`, `BLOB` and the like.
    fn sqlite_type() -> &'static str;

    /// Whether the column admits `NULL`: only where `admits_null` says so.
    /// Unless an implementation says otherwise, it does not.
    fn optional() -> (nullable: bool)
        ensures
            nullable ==> Self::admits_null(),
    {
        false
    }

    /// Whether a column of this type admits `NULL`, as contracts see it. A
    /// type that says nothing admits none; an implementation whose `optional`
    /// answers yes says so here too.
    open spec fn admits_null() -> bool {
        false
    }
}

} // verus!
