//! `SqliteTypeInfo` for the types that SQLite stores directly, and for the
//! wrappers around them.

use crate::to_row::SqliteTypeInfo;
use vstd::prelude::*;

verus! {

/// `rusqlite::types::Null`, the value that binds as SQL `NULL`.
#[verifier::external_type_specification]
#[verifier::external_body]
pub struct ExNull(rusqlite::types::Null);

/// `serde_json::Value`, stored as its JSON text.
#[verifier::external_type_specification]
#[verifier::external_body]
pub struct ExJsonValue(serde_json::Value);

/// `chrono::NaiveDate`, a calendar date, stored as text.
#[verifier::external_type_specification]
#[verifier::external_body]
pub struct ExNaiveDate(chrono::NaiveDate);

/// `chrono::NaiveTime`, a time of day, stored as text.
#[verifier::external_type_specification]
#[verifier::external_body]
pub struct ExNaiveTime(chrono::NaiveTime);

/// `chrono::NaiveDateTime`, a date and time of day, stored as text.
#[verifier::external_type_specification]
#[verifier::external_body]
pub struct ExNaiveDateTime(chrono::NaiveDateTime);

/// `url::Url`, stored as text.
#[verifier::external_type_specification]
#[verifier::external_body]
pub struct ExUrl(url::Url);

/// `uuid::Uuid`, stored as text.
#[verifier::external_type_specification]
#[verifier::external_body]
pub struct ExUuid(uuid::Uuid);

impl<T: SqliteTypeInfo + ToOwned + ?Sized> SqliteTypeInfo for std::borrow::Cow<'_, T> {
    /// The column type of what is wrapped.
    fn sqlite_type() -> (name: &'static str)
        ensures
            call_ensures(T::sqlite_type, (), name),
    {
        T::sqlite_type()
    }

    fn optional() -> (nullable: bool)
        ensures
            !nullable,
    {
        false
    }
}

impl<T: SqliteTypeInfo + ?Sized> SqliteTypeInfo for Box<T> {
    /// The column type of what is wrapped.
    fn sqlite_type() -> (name: &'static str)
        ensures
            call_ensures(T::sqlite_type, (), name),
    {
        T::sqlite_type()
    }

    fn optional() -> (nullable: bool)
        ensures
            !nullable,
    {
        false
    }
}

impl<T: SqliteTypeInfo + ?Sized> SqliteTypeInfo for std::rc::Rc<T> {
    /// The column type of what is wrapped.
    fn sqlite_type() -> (name: &'static str)
        ensures
            call_ensures(T::sqlite_type, (), name),
    {
        T::sqlite_type()
    }

    fn optional() -> (nullable: bool)
        ensures
            !nullable,
    {
        false
    }
}

impl<T: SqliteTypeInfo + ?Sized> SqliteTypeInfo for std::sync::Arc<T> {
    /// The column type of what is wrapped.
    fn sqlite_type() -> (name: &'static str)
        ensures
            call_ensures(T::sqlite_type, (), name),
    {
        T::sqlite_type()
    }

    fn optional() -> (nullable: bool)
        ensures
            !nullable,
    {
        false
    }
}

impl<T: SqliteTypeInfo> SqliteTypeInfo for Option<T> {
    /// The column type of what may be there.
    fn sqlite_type() -> (name: &'static str)
        ensures
            call_ensures(T::sqlite_type, (), name),
    {
        T::sqlite_type()
    }

    fn optional() -> (nullable: bool)
        ensures
            nullable,
    {
        true
    }

    open spec fn admits_null() -> bool {
        true
    }
}

impl SqliteTypeInfo for rusqlite::types::Null {
    fn sqlite_type() -> (name: &'static str)
        ensures
            name@ == "NULL"@,
    {
        "NULL"
    }

    fn optional() -> (nullable: bool)
        ensures
            !nullable,
    {
        false
    }
}

impl SqliteTypeInfo for bool {
    fn sqlite_type() -> (name: &'static str)
        ensures
            name@ == "INTEGER"@,
    {
        "INTEGER"
    }

    fn optional() -> (nullable: bool)
        ensures
            !nullable,
    {
        false
    }
}

impl SqliteTypeInfo for i8 {
    fn sqlite_type() -> (name: &'static str)
        ensures
            name@ == "INTEGER"@,
    {
        "INTEGER"
    }

    fn optional() -> (nullable: bool)
        ensures
            !nullable,
    {
        false
    }
}

impl SqliteTypeInfo for i16 {
    fn sqlite_type() -> (name: &'static str)
        ensures
            name@ == "INTEGER"@,
    {
        "INTEGER"
    }

    fn optional() -> (nullable: bool)
        ensures
            !nullable,
    {
        false
    }
}

impl SqliteTypeInfo for i32 {
    fn sqlite_type() -> (name: &'static str)
        ensures
            name@ == "INTEGER"@,
    {
        "INTEGER"
    }

    fn optional() -> (nullable: bool)
        ensures
            !nullable,
    {
        false
    }
}

impl SqliteTypeInfo for i64 {
    fn sqlite_type() -> (name: &'static str)
        ensures
            name@ == "INTEGER"@,
    {
        "INTEGER"
    }

    fn optional() -> (nullable: bool)
        ensures
            !nullable,
    {
        false
    }
}

impl SqliteTypeInfo for isize {
    fn sqlite_type() -> (name: &'static str)
        ensures
            name@ == "INTEGER"@,
    {
        "INTEGER"
    }

    fn optional() -> (nullable: bool)
        ensures
            !nullable,
    {
        false
    }
}

impl SqliteTypeInfo for u8 {
    fn sqlite_type() -> (name: &'static str)
        ensures
            name@ == "INTEGER"@,
    {
        "INTEGER"
    }

    fn optional() -> (nullable: bool)
        ensures
            !nullable,
    {
        false
    }
}

impl SqliteTypeInfo for u16 {
    fn sqlite_type() -> (name: &'static str)
        ensures
            name@ == "INTEGER"@,
    {
        "INTEGER"
    }

    fn optional() -> (nullable: bool)
        ensures
            !nullable,
    {
        false
    }
}

impl SqliteTypeInfo for u32 {
    fn sqlite_type() -> (name: &'static str)
        ensures
            name@ == "INTEGER"@,
    {
        "INTEGER"
    }

    fn optional() -> (nullable: bool)
        ensures
            !nullable,
    {
        false
    }
}

impl SqliteTypeInfo for u64 {
    fn sqlite_type() -> (name: &'static str)
        ensures
            name@ == "INTEGER"@,
    {
        "INTEGER"
    }

    fn optional() -> (nullable: bool)
        ensures
            !nullable,
    {
        false
    }
}

impl SqliteTypeInfo for usize {
    fn sqlite_type() -> (name: &'static str)
        ensures
            name@ == "INTEGER"@,
    {
        "INTEGER"
    }

    fn optional() -> (nullable: bool)
        ensures
            !nullable,
    {
        false
    }
}

impl SqliteTypeInfo for String {
    fn sqlite_type() -> (name: &'static str)
        ensures
            name@ == "TEXT"@,
    {
        "TEXT"
    }

    fn optional() -> (nullable: bool)
        ensures
            !nullable,
    {
        false
    }
}

impl SqliteTypeInfo for str {
    fn sqlite_type() -> (name: &'static str)
        ensures
            name@ == "TEXT"@,
    {
        "TEXT"
    }

    fn optional() -> (nullable: bool)
        ensures
            !nullable,
    {
        false
    }
}

impl SqliteTypeInfo for Vec<u8> {
    fn sqlite_type() -> (name: &'static str)
        ensures
            name@ == "BLOB"@,
    {
        "BLOB"
    }

    fn optional() -> (nullable: bool)
        ensures
            !nullable,
    {
        false
    }
}

impl<const N: usize> SqliteTypeInfo for [u8; N] {
    fn sqlite_type() -> (name: &'static str)
        ensures
            name@ == "BLOB"@,
    {
        "BLOB"
    }

    fn optional() -> (nullable: bool)
        ensures
            !nullable,
    {
        false
    }
}

impl SqliteTypeInfo for [u8] {
    fn sqlite_type() -> (name: &'static str)
        ensures
            name@ == "BLOB"@,
    {
        "BLOB"
    }

    fn optional() -> (nullable: bool)
        ensures
            !nullable,
    {
        false
    }
}

impl SqliteTypeInfo for serde_json::Value {
    fn sqlite_type() -> (name: &'static str)
        ensures
            name@ == "TEXT"@,
    {
        "TEXT"
    }

    fn optional() -> (nullable: bool)
        ensures
            !nullable,
    {
        false
    }
}

impl SqliteTypeInfo for chrono::NaiveDate {
    fn sqlite_type() -> (name: &'static str)
        ensures
            name@ == "TEXT"@,
    {
        "TEXT"
    }

    fn optional() -> (nullable: bool)
        ensures
            !nullable,
    {
        false
    }
}

impl SqliteTypeInfo for chrono::NaiveTime {
    fn sqlite_type() -> (name: &'static str)
        ensures
            name@ == "TEXT"@,
    {
        "TEXT"
    }

    fn optional() -> (nullable: bool)
        ensures
            !nullable,
    {
        false
    }
}

impl SqliteTypeInfo for chrono::NaiveDateTime {
    fn sqlite_type() -> (name: &'static str)
        ensures
            name@ == "TEXT"@,
    {
        "TEXT"
    }

    fn optional() -> (nullable: bool)
        ensures
            !nullable,
    {
        false
    }
}

impl SqliteTypeInfo for url::Url {
    fn sqlite_type() -> (name: &'static str)
        ensures
            name@ == "TEXT"@,
    {
        "TEXT"
    }

    fn optional() -> (nullable: bool)
        ensures
            !nullable,
    {
        false
    }
}

impl SqliteTypeInfo for uuid::Uuid {
    fn sqlite_type() -> (name: &'static str)
        ensures
            name@ == "TEXT"@,
    {
        "TEXT"
    }

    fn optional() -> (nullable: bool)
        ensures
            !nullable,
    {
        false
    }
}

} // verus!
