//! Generating the implementations that let a type be stored in one column, as
//! its string form or as JSON.

use crate::error::DeriveError;
use vstd::prelude::*;

verus! {

/// The implementation of `rusqlite_mapper::SqliteTypeInfo` that declares
/// `ident` a `TEXT` column.
pub open spec fn text_column_impl_text(ident: Seq<char>) -> Seq<char> {
    "impl rusqlite_mapper::SqliteTypeInfo for "@
        + ident
        + " {\n"@
        + "    fn sqlite_type() -> &'static str {\n"@
        + "        \"TEXT\"\n"@
        + "    }\n"@
        + "}\n"@
}

/// The implementations that store `ident` as what `to_string` returns and read
/// it back with `parse`.
pub open spec fn as_string_text(ident: Seq<char>) -> Seq<char> {
    text_column_impl_text(ident)
        + "impl rusqlite::ToSql for "@
        + ident
        + " {\n"@
        + "    fn to_sql(&self) -> rusqlite::Result<rusqlite::types::ToSqlOutput<'_>> {\n"@
        + "        let s = self.to_string();\n"@
        + "        Ok(rusqlite::types::ToSqlOutput::from(s))\n"@
        + "    }\n"@
        + "}\n"@
        + "impl rusqlite::types::FromSql for "@
        + ident
        + " {\n"@
        + "    fn column_result(value: rusqlite::types::ValueRef<'_>) -> "@
        + "rusqlite::types::FromSqlResult<Self> {\n"@
        + "        let s = String::column_result(value)?;\n"@
        + "        let at = s.parse::<"@
        + ident
        + ">()\n"@
        + "            .map_err(|e| rusqlite::types::FromSqlError::Other(Box::new(e)))?;\n"@
        + "        Ok(at)\n"@
        + "    }\n"@
        + "}\n"@
}

/// The implementations that store `ident` as its JSON text and read it back
/// from that.
pub open spec fn as_json_text(ident: Seq<char>) -> Seq<char> {
    text_column_impl_text(ident)
        + "impl rusqlite::ToSql for "@
        + ident
        + " {\n"@
        + "    fn to_sql(&self) -> rusqlite::Result<rusqlite::types::ToSqlOutput<'_>> {\n"@
        + "        let s = serde_json::to_string(self)\n"@
        + "            .map_err(|e| rusqlite::types::FromSqlError::Other(Box::new(e)))?;\n"@
        + "        Ok(rusqlite::types::ToSqlOutput::from(s))\n"@
        + "    }\n"@
        + "}\n"@
        + "impl rusqlite::types::FromSql for "@
        + ident
        + " {\n"@
        + "    fn column_result(value: rusqlite::types::ValueRef<'_>) -> "@
        + "rusqlite::types::FromSqlResult<Self> {\n"@
        + "        let s = String::column_result(value)?;\n"@
        + "        let val: "@
        + ident
        + " = serde_json::from_str(&s)\n"@
        + "            .map_err(|e| rusqlite::types::FromSqlError::Other(Box::new(e)))?;\n"@
        + "        Ok(val)\n"@
        + "    }\n"@
        + "}\n"@
}

/// Writes the implementation of `rusqlite_mapper::SqliteTypeInfo` that
/// declares `ident` a `TEXT` column.
fn text_column_impl(ident: &str) -> (text: String)
    ensures
        text@ == text_column_impl_text(ident@),
{
    let mut text = String::from_str("impl rusqlite_mapper::SqliteTypeInfo for ");
    text.append(ident);
    text.append(" {\n");
    text.append("    fn sqlite_type() -> &'static str {\n");
    text.append("        \"TEXT\"\n");
    text.append("    }\n");
    text.append("}\n");
    text
}

/// Main struct for deriving `SqliteValue` for a struct or enum. This will
/// implement `rusqlite::ToSql` and `rusqlite::types::FromSql` for the type as
/// well as `rusqlite_mapper::SqliteTypeInfo`.
#[derive(Debug)]
pub struct DeriveSqliteValue {
    /// The type's name.
    pub ident: String,
    /// Store the type as what `to_string` returns.
    pub string: bool,
    /// Store the type as its JSON text.
    pub json: bool,
}

/// A `DeriveSqliteValue` in contracts.
pub struct DeriveSqliteValueView {
    pub ident: Seq<char>,
    pub string: bool,
    pub json: bool,
}

impl View for DeriveSqliteValue {
    type V = DeriveSqliteValueView;

    open spec fn view(&self) -> DeriveSqliteValueView {
        DeriveSqliteValueView { ident: self.ident@, string: self.string, json: self.json }
    }
}

impl DeriveSqliteValue {
    /// Generate the implementations for the representation that the type
    /// names; the string form wins where it names both.
    pub fn generate(self) -> (generated: Result<String, DeriveError>)
        ensures
            self@.string ==> (generated matches Ok(text) && text@ == as_string_text(self@.ident)),
            !self@.string && self@.json ==> (generated matches Ok(text) && text@ == as_json_text(
                self@.ident,
            )),
            !self@.string && !self@.json ==> generated == Err::<String, DeriveError>(
                DeriveError::MissingRepresentation,
            ),
    {
        if self.string {
            self.generate_as_string()
        } else if self.json {
            self.generate_as_json()
        } else {
            Err(DeriveError::MissingRepresentation)
        }
    }

    /// Generate the implementations that store the type as its string form.
    pub fn generate_as_string(self) -> (generated: Result<String, DeriveError>)
        ensures
            generated matches Ok(text) && text@ == as_string_text(self@.ident),
    {
        let ident = self.ident.as_str();
        let mut text = text_column_impl(ident);
        text.append("impl rusqlite::ToSql for ");
        text.append(ident);
        text.append(" {\n");
        text.append("    fn to_sql(&self) -> rusqlite::Result<rusqlite::types::ToSqlOutput<'_>> {\n");
        text.append("        let s = self.to_string();\n");
        text.append("        Ok(rusqlite::types::ToSqlOutput::from(s))\n");
        text.append("    }\n");
        text.append("}\n");
        text.append("impl rusqlite::types::FromSql for ");
        text.append(ident);
        text.append(" {\n");
        text.append("    fn column_result(value: rusqlite::types::ValueRef<'_>) -> ");
        text.append("rusqlite::types::FromSqlResult<Self> {\n");
        text.append("        let s = String::column_result(value)?;\n");
        text.append("        let at = s.parse::<");
        text.append(ident);
        text.append(">()\n");
        text.append("            .map_err(|e| rusqlite::types::FromSqlError::Other(Box::new(e)))?;\n");
        text.append("        Ok(at)\n");
        text.append("    }\n");
        text.append("}\n");
        Ok(text)
    }

    /// Generate the implementations that store the type as its JSON text.
    pub fn generate_as_json(self) -> (generated: Result<String, DeriveError>)
        ensures
            generated matches Ok(text) && text@ == as_json_text(self@.ident),
    {
        let ident = self.ident.as_str();
        let mut text = text_column_impl(ident);
        text.append("impl rusqlite::ToSql for ");
        text.append(ident);
        text.append(" {\n");
        text.append("    fn to_sql(&self) -> rusqlite::Result<rusqlite::types::ToSqlOutput<'_>> {\n");
        text.append("        let s = serde_json::to_string(self)\n");
        text.append("            .map_err(|e| rusqlite::types::FromSqlError::Other(Box::new(e)))?;\n");
        text.append("        Ok(rusqlite::types::ToSqlOutput::from(s))\n");
        text.append("    }\n");
        text.append("}\n");
        text.append("impl rusqlite::types::FromSql for ");
        text.append(ident);
        text.append(" {\n");
        text.append("    fn column_result(value: rusqlite::types::ValueRef<'_>) -> ");
        text.append("rusqlite::types::FromSqlResult<Self> {\n");
        text.append("        let s = String::column_result(value)?;\n");
        text.append("        let val: ");
        text.append(ident);
        text.append(" = serde_json::from_str(&s)\n");
        text.append("            .map_err(|e| rusqlite::types::FromSqlError::Other(Box::new(e)))?;\n");
        text.append("        Ok(val)\n");
        text.append("    }\n");
        text.append("}\n");
        Ok(text)
    }
}

} // verus!
