//! Generating the implementation of `FromRow` for a struct: which attributes
//! go together, the bounds that the implementation needs, and how each field
//! is read from a row.

use crate::error::DeriveError;
use crate::fields::{
    field_views, mapped, ref_views, unskipped, SqliteField, SqliteFieldView,
};
use crate::generics::{Generics, GenericsView};
use crate::text::{chain, join, joined, literal, string_literal, views};
use vstd::prelude::*;

verus! {

/// `proc_macro2::LexError`, the reason for which a text is no sequence of
/// tokens.
#[verifier::external_type_specification]
#[verifier::external_body]
pub struct ExLexError(proc_macro2::LexError);

/// `str::parse` into a `proc_macro2::TokenStream`, and `to_string` of the
/// stream that comes back. Nothing is claimed of the outcome: `proc_macro2`
/// leaves the work to the compiler's lexer inside a macro expansion and does
/// it itself elsewhere, and the two need neither accept nor print alike.
#[verifier::external_body]
fn lex(source: &str) -> (outcome: Result<String, proc_macro2::LexError>) {
    match source.parse::<proc_macro2::TokenStream>() {
        Ok(tokens) => Ok(tokens.to_string()),
        Err(error) => Err(error),
    }
}

/// The type read from the row, given the outcome of lexing the type that a
/// conversion attribute names.
pub fn lexed_target(outcome: Result<String, proc_macro2::LexError>) -> (target: Result<
    String,
    DeriveError,
>)
    ensures
        match outcome {
            Ok(tokens) => target == Ok::<String, DeriveError>(tokens),
            Err(_) => target == Err::<String, DeriveError>(DeriveError::UnreadableType),
        },
{
    match outcome {
        Ok(tokens) => Ok(tokens),
        Err(_) => Err(DeriveError::UnreadableType),
    }
}

impl SqliteFieldView {
    /// The reason for which the field's attributes do not go together.
    pub open spec fn validation_error(self) -> Option<DeriveError> {
        if self.from is Some && self.try_from is Some {
            Some(DeriveError::ConflictingConversions)
        } else if self.rename is Some && self.flatten {
            Some(DeriveError::FlattenWithRename)
        } else {
            None
        }
    }

    /// The type that a conversion attribute names: that of `from` where there
    /// is one, else that of `try_from`.
    pub open spec fn conversion_source(self) -> Option<Seq<char>> {
        match self.from {
            Some(from) => Some(from),
            None => self.try_from,
        }
    }

    /// Whether `target` can be the type that is read from the row: without a
    /// conversion attribute it is the field's own type.
    pub open spec fn admits_target(self, target: Seq<char>) -> bool {
        self.conversion_source() is None ==> target == self.ty.tokens
    }

    /// The prefix that a flattened field hands on: the current prefix,
    /// extended by the field's own where it has one.
    pub open spec fn prefix_expression(self) -> Seq<char> {
        match self.prefix {
            Some(prefix) => "Some(&(prefix.unwrap_or(\"\").to_string() + "@ + literal(prefix)
                + "))"@,
            None => "prefix"@,
        }
    }

    /// The expression that tells whether the field is `NULL` in the row.
    pub open spec fn is_all_null_text(self, target: Seq<char>) -> Seq<char> {
        if self.flatten {
            "<"@ + target + " as rusqlite_mapper::FromRow>::is_all_null(row, "@
                + self.prefix_expression() + ")?"@
        } else {
            "::rusqlite::Row::get_ref::<&str>(row, &(prefix.unwrap_or(\"\").to_string() + "@
                + literal(self.column_name()) + "))? == ::rusqlite::types::ValueRef::Null"@
        }
    }

    /// The bound on the type that is read from the row.
    pub open spec fn source_predicate(self, target: Seq<char>) -> Seq<char> {
        if self.flatten {
            target + ": rusqlite_mapper::FromRow"@
        } else {
            target + ": ::rusqlite::types::FromSql"@
        }
    }

    /// `TryFrom` of the type that is read from the row.
    pub open spec fn try_from_trait(target: Seq<char>) -> Seq<char> {
        "std::convert::TryFrom<"@ + target + ">"@
    }

    /// The bounds that the field's conversion needs.
    pub open spec fn conversion_predicates(self, target: Seq<char>) -> Seq<Seq<char>> {
        if self.from is Some {
            seq![self.ty.tokens + ": std::convert::From<"@ + target + ">"@]
        } else if self.try_from is Some {
            seq![
                self.ty.tokens + ": "@ + Self::try_from_trait(target),
                "::rusqlite::Error: std::convert::From<<"@ + self.ty.tokens + " as "@
                    + Self::try_from_trait(target) + ">::Error>"@,
                "<"@ + self.ty.tokens + " as "@ + Self::try_from_trait(target)
                    + ">::Error: std::fmt::Debug"@,
            ]
        } else {
            Seq::empty()
        }
    }

    /// The bounds that reading the field needs: that on the type read from the
    /// row, then those of the conversion.
    pub open spec fn predicates_text(self, target: Seq<char>) -> Seq<Seq<char>> {
        seq![self.source_predicate(target)] + self.conversion_predicates(target)
    }

    /// The expression that reads the type `target` from the row.
    pub open spec fn read_text(self, target: Seq<char>) -> Seq<char> {
        if self.flatten {
            "<"@ + target + " as rusqlite_mapper::FromRow>::try_from_row_prefixed(row, "@
                + self.prefix_expression() + ")?"@
        } else {
            "::rusqlite::Row::get::<&str, "@ + target
                + ">(row, &(prefix.unwrap_or(\"\").to_string() + "@ + literal(self.column_name())
                + "))?"@
        }
    }

    /// The expression that yields the field's value: what is read from the
    /// row, converted where a conversion attribute asks for it.
    pub open spec fn value_text(self, target: Seq<char>) -> Seq<char> {
        if self.from is Some {
            "<"@ + self.ty.tokens + " as std::convert::From<"@ + target + ">>::from("@
                + self.read_text(target) + ")"@
        } else if self.try_from is Some {
            "<"@ + self.ty.tokens + " as std::convert::TryFrom<"@ + target + ">>::try_from("@
                + self.read_text(target) + ")?"@
        } else {
            self.read_text(target)
        }
    }

    /// The field's line in the struct expression: its default where it is
    /// marked `skip`, else its value from the row.
    pub open spec fn try_from_row_text(self, target: Seq<char>) -> Seq<char>
        recommends
            self.ident is Some,
    {
        if self.skip {
            self.ident->0 + ": Default::default()"@
        } else {
            self.ident->0 + ": "@ + self.value_text(target)
        }
    }
}

impl SqliteField {
    /// Checks wether this field has a valid combination of attributes
    pub fn validate(&self) -> (valid: Result<(), DeriveError>)
        ensures
            valid == match self@.validation_error() {
                Some(error) => Err::<(), DeriveError>(error),
                None => Ok::<(), DeriveError>(()),
            },
    {
        if self.from.is_some() && self.try_from.is_some() {
            return Err(DeriveError::ConflictingConversions);
        }
        if self.rename.is_some() && self.flatten {
            return Err(DeriveError::FlattenWithRename);
        }
        Ok(())
    }

    /// The type that a conversion attribute names: that of `from` where there
    /// is one, else that of `try_from`.
    pub fn conversion_source(&self) -> (source: Option<&String>)
        ensures
            match source {
                Some(text) => self@.conversion_source() == Some(text@),
                None => self@.conversion_source() is None,
            },
    {
        match &self.from {
            Some(from) => Some(from),
            None => self.try_from.as_ref(),
        }
    }

    /// Returns the tokens of the type that should be returned from either
    /// `FromRow` (when using `flatten`) or `FromSql`: the field's own type,
    /// unless a conversion attribute names another. What `conversion_source`
    /// returns is then handed to the lexer, and what the lexer makes of it is
    /// the type.
    pub fn target_ty(&self) -> (target: Result<String, DeriveError>)
        ensures
            match target {
                Ok(target) => self@.admits_target(target@),
                Err(error) => error == DeriveError::UnreadableType && self@.conversion_source()
                    is Some,
            },
    {
        match self.conversion_source() {
            Some(source) => lexed_target(lex(source.as_str())),
            None => Ok(self.ty.tokens.clone()),
        }
    }

    /// Writes the prefix that a flattened field hands on.
    fn prefix_expression(&self) -> (text: String)
        ensures
            text@ == self@.prefix_expression(),
    {
        match &self.prefix {
            Some(prefix) => {
                let mut text = String::from_str("Some(&(prefix.unwrap_or(\"\").to_string() + ");
                text.append(string_literal(prefix.as_str()).as_str());
                text.append("))");
                text
            },
            None => String::from_str("prefix"),
        }
    }

    /// Writes the expression that tells whether the field is `NULL` in the
    /// row, where `target_ty` is read from the row.
    pub fn generate_is_all_null_with(&self, target_ty: &str) -> (line: String)
        requires
            self.rename is Some || self.ident is Some,
        ensures
            line@ == self@.is_all_null_text(target_ty@),
    {
        let column_name = self.column_name();
        if self.flatten {
            let mut line = String::from_str("<");
            line.append(target_ty);
            line.append(" as rusqlite_mapper::FromRow>::is_all_null(row, ");
            line.append(self.prefix_expression().as_str());
            line.append(")?");
            line
        } else {
            let mut line = String::from_str(
                "::rusqlite::Row::get_ref::<&str>(row, &(prefix.unwrap_or(\"\").to_string() + ",
            );
            line.append(string_literal(column_name.as_str()).as_str());
            line.append("))? == ::rusqlite::types::ValueRef::Null");
            line
        }
    }

    /// Generate the expression that tells whether the field is `NULL` in the
    /// row.
    pub fn generate_is_all_null(&self) -> (generated: Result<String, DeriveError>)
        requires
            self.rename is Some || self.ident is Some,
        ensures
            match generated {
                Ok(line) => exists|target: Seq<char>|
                    self@.admits_target(target) && line@ == #[trigger] self@.is_all_null_text(
                        target,
                    ),
                Err(error) => error == DeriveError::UnreadableType && self@.conversion_source()
                    is Some,
            },
    {
        let target_ty = self.target_ty()?;
        Ok(self.generate_is_all_null_with(target_ty.as_str()))
    }

    /// Pushes the where clause predicates that this field needs, where
    /// `target_ty` is read from the row.
    ///
    /// By default this is `T: rusqlite::types::FromSql`,
    /// when using `flatten` it's: `T: rusqlite_mapper::FromRow`
    /// and when using either `from` or `try_from` attributes it additionally
    /// pushes this bound: `T: std::convert::From<R>`, where `T` is the type
    /// specified in the struct and `R` is the type specified in the
    /// `[try]_from` attribute.
    pub fn add_predicates_with(&self, target_ty: &str, predicates: &mut Vec<String>)
        ensures
            views(final(predicates)@) == views(old(predicates)@) + self@.predicates_text(
                target_ty@,
            ),
    {
        let ghost before = views(predicates@);
        let ty = self.ty.tokens.as_str();
        let mut source = String::from_str(target_ty);
        if self.flatten {
            source.append(": rusqlite_mapper::FromRow");
        } else {
            source.append(": ::rusqlite::types::FromSql");
        }
        predicates.push(source);
        assert(views(predicates@) =~= before + seq![self@.source_predicate(target_ty@)]);
        if self.from.is_some() {
            let mut from = String::from_str(ty);
            from.append(": std::convert::From<");
            from.append(target_ty);
            from.append(">");
            predicates.push(from);
        } else if self.try_from.is_some() {
            let mut try_from = String::from_str("std::convert::TryFrom<");
            try_from.append(target_ty);
            try_from.append(">");
            let mut convertible = String::from_str(ty);
            convertible.append(": ");
            convertible.append(try_from.as_str());
            predicates.push(convertible);
            let mut error_into = String::from_str("::rusqlite::Error: std::convert::From<<");
            error_into.append(ty);
            error_into.append(" as ");
            error_into.append(try_from.as_str());
            error_into.append(">::Error>");
            predicates.push(error_into);
            let mut error_debug = String::from_str("<");
            error_debug.append(ty);
            error_debug.append(" as ");
            error_debug.append(try_from.as_str());
            error_debug.append(">::Error: std::fmt::Debug");
            predicates.push(error_debug);
        }
        assert(views(predicates@) =~= before + self@.predicates_text(target_ty@));
    }

    /// Pushes the needed where clause predicates for this field. Where the
    /// type that a conversion attribute names cannot be lexed, nothing is
    /// pushed.
    pub fn add_predicates(&self, predicates: &mut Vec<String>) -> (added: Result<(), DeriveError>)
        ensures
            match added {
                Ok(_) => exists|target: Seq<char>|
                    self@.admits_target(target) && views(final(predicates)@) == views(
                        old(predicates)@,
                    ) + #[trigger] self@.predicates_text(target),
                Err(error) => error == DeriveError::UnreadableType && self@.conversion_source()
                    is Some && final(predicates)@ == old(predicates)@,
            },
    {
        let target_ty = self.target_ty()?;
        self.add_predicates_with(target_ty.as_str(), predicates);
        Ok(())
    }

    /// Writes the field's line in the struct expression, where `target_ty` is
    /// read from the row.
    pub fn generate_try_from_row_with(&self, target_ty: &str) -> (line: String)
        requires
            self.ident is Some,
        ensures
            line@ == self@.try_from_row_text(target_ty@),
    {
        let mut line = self.ident.as_ref().unwrap().clone();
        if self.skip {
            line.append(": Default::default()");
            return line;
        }
        let column_name = self.column_name();
        let field_ty = self.ty.tokens.as_str();
        let mut base = if self.flatten {
            let mut read = String::from_str("<");
            read.append(target_ty);
            read.append(" as rusqlite_mapper::FromRow>::try_from_row_prefixed(row, ");
            read.append(self.prefix_expression().as_str());
            read.append(")?");
            read
        } else {
            let mut read = String::from_str("::rusqlite::Row::get::<&str, ");
            read.append(target_ty);
            read.append(">(row, &(prefix.unwrap_or(\"\").to_string() + ");
            read.append(string_literal(column_name.as_str()).as_str());
            read.append("))?");
            read
        };
        assert(base@ == self@.read_text(target_ty@));
        if self.from.is_some() {
            let mut converted = String::from_str("<");
            converted.append(field_ty);
            converted.append(" as std::convert::From<");
            converted.append(target_ty);
            converted.append(">>::from(");
            converted.append(base.as_str());
            converted.append(")");
            base = converted;
        } else if self.try_from.is_some() {
            let mut converted = String::from_str("<");
            converted.append(field_ty);
            converted.append(" as std::convert::TryFrom<");
            converted.append(target_ty);
            converted.append(">>::try_from(");
            converted.append(base.as_str());
            converted.append(")?");
            base = converted;
        }
        assert(base@ == self@.value_text(target_ty@));
        line.append(": ");
        line.append(base.as_str());
        line
    }

    /// Generate the line needed to retrieve this field from a row when
    /// calling `try_from_row`.
    pub fn generate_try_from_row(&self) -> (generated: Result<String, DeriveError>)
        requires
            self.ident is Some,
        ensures
            match generated {
                Ok(line) => exists|target: Seq<char>|
                    self@.admits_target(target) && line@ == #[trigger] self@.try_from_row_text(
                        target,
                    ),
                Err(error) => error == DeriveError::UnreadableType && self@.conversion_source()
                    is Some && !self@.skip,
            },
    {
        if self.skip {
            let line = self.generate_try_from_row_with(self.ty.tokens.as_str());
            assert(self@.admits_target(self@.ty.tokens));
            return Ok(line);
        }
        let target_ty = self.target_ty()?;
        Ok(self.generate_try_from_row_with(target_ty.as_str()))
    }
}

/// The validation error of the first of the first `n` fields that takes part
/// and has one.
pub open spec fn first_error_upto(data: Seq<SqliteFieldView>, n: nat) -> Option<
    DeriveError,
>
    decreases n,
{
    if n == 0 {
        None
    } else {
        match first_error_upto(data, (n - 1) as nat) {
            Some(error) => Some(error),
            None => if !data[n - 1].skip {
                data[n - 1].validation_error()
            } else {
                None
            },
        }
    }
}

/// The validation error of the first field that takes part and has one.
pub open spec fn first_error(data: Seq<SqliteFieldView>) -> Option<DeriveError> {
    first_error_upto(data, data.len())
}

/// An error among the first `n` fields is the error of any longer prefix.
pub proof fn lemma_first_error_stays(data: Seq<SqliteFieldView>, n: nat, m: nat)
    requires
        n <= m,
        first_error_upto(data, n) is Some,
    ensures
        first_error_upto(data, m) == first_error_upto(data, n),
    decreases m,
{
    if n < m {
        lemma_first_error_stays(data, n, (m - 1) as nat);
    }
}

/// Whether `targets` can be the types that are read from the row, one for
/// each field: a field that takes no part, or has no conversion attribute,
/// is read as its own type.
pub open spec fn admits_targets(data: Seq<SqliteFieldView>, targets: Seq<Seq<char>>) -> bool {
    &&& targets.len() == data.len()
    &&& forall|i: int|
        0 <= i < data.len() && ((#[trigger] data[i]).skip
            || data[i].conversion_source() is None) ==> targets[i] == data[i].ty.tokens
}

/// Whether a field that takes part has a conversion attribute.
pub open spec fn has_conversion(data: Seq<SqliteFieldView>) -> bool {
    exists|i: int|
        0 <= i < data.len() && !(#[trigger] data[i]).skip
            && data[i].conversion_source() is Some
}

/// Each field's own type.
pub open spec fn own_types(data: Seq<SqliteFieldView>) -> Seq<Seq<char>> {
    Seq::new(data.len(), |i: int| data[i].ty.tokens)
}

/// Without a conversion attribute, every field is read as its own type.
pub proof fn lemma_own_types(data: Seq<SqliteFieldView>, targets: Seq<Seq<char>>)
    requires
        admits_targets(data, targets),
        !has_conversion(data),
    ensures
        targets == own_types(data),
{
    assert forall|i: int| 0 <= i < data.len() implies targets[i] == data[i].ty.tokens by {
        if !data[i].skip {
            assert(data[i].conversion_source() is None);
        }
    }
    assert(targets =~= own_types(data));
}

/// The bounds that the first `n` fields need, in order, where `targets` are
/// read from the row.
pub open spec fn predicates_upto(
    data: Seq<SqliteFieldView>,
    targets: Seq<Seq<char>>,
    n: nat,
) -> Seq<Seq<char>>
    decreases n,
{
    if n == 0 {
        Seq::empty()
    } else {
        predicates_upto(data, targets, (n - 1) as nat) + if !data[n - 1].skip {
            data[n - 1].predicates_text(targets[n - 1])
        } else {
            Seq::empty()
        }
    }
}

/// The `NULL` checks of the first `n` fields, in order, where `targets` are
/// read from the row.
pub open spec fn null_checks_upto(
    data: Seq<SqliteFieldView>,
    targets: Seq<Seq<char>>,
    n: nat,
) -> Seq<Seq<char>>
    decreases n,
{
    if n == 0 {
        Seq::empty()
    } else {
        null_checks_upto(data, targets, (n - 1) as nat) + if !data[n - 1].skip {
            seq![data[n - 1].is_all_null_text(targets[n - 1])]
        } else {
            Seq::empty()
        }
    }
}

/// Every field's line in the struct expression, in order.
pub open spec fn struct_lines(data: Seq<SqliteFieldView>, targets: Seq<Seq<char>>) -> Seq<
    Seq<char>,
> {
    Seq::new(data.len(), |i: int| data[i].try_from_row_text(targets[i]))
}

/// The conjunction of the `NULL` checks; of none, `true`.
pub open spec fn conjunction(null_checks: Seq<Seq<char>>) -> Seq<char> {
    if null_checks.len() == 0 {
        "true"@
    } else {
        joined(null_checks, " && "@)
    }
}

/// The implementation of `rusqlite_mapper::FromRow` for the struct `ident`:
/// one `where` clause of the predicates that the struct declares and, after
/// them, the bounds that the fields need; the struct expression that reads
/// every field; and the conjunction of the `NULL` checks.
pub open spec fn from_row_impl_text(
    generics: GenericsView,
    ident: Seq<char>,
    predicates: Seq<Seq<char>>,
    lines: Seq<Seq<char>>,
    null_checks: Seq<Seq<char>>,
) -> Seq<char> {
    "impl "@ + generics.impl_generics + " rusqlite_mapper::FromRow for "@ + ident + " "@
        + generics.ty_generics + " where "@
        + joined(generics.where_predicates + predicates, ", "@) + " {\n"@
        + "    fn try_from_row_prefixed(row: &::rusqlite::Row, prefix: Option<&str>) -> "@
        + "std::result::Result<Self, ::rusqlite::Error> {\n"@
        + "        Ok(Self { "@ + joined(lines, ", "@) + " })\n"@
        + "    }\n"@
        + "    fn is_all_null(row: &::rusqlite::Row, prefix: Option<&str>) -> "@
        + "std::result::Result<bool, ::rusqlite::Error> {\n"@
        + "        Ok("@ + conjunction(null_checks) + ")\n"@
        + "    }\n"@
        + "}\n"@
}

/// The implementation of `rusqlite_mapper::FromRow` for the struct `ident`
/// with the fields `data`, where `targets` are read from the row.
pub open spec fn from_row_text(
    generics: GenericsView,
    ident: Seq<char>,
    data: Seq<SqliteFieldView>,
    targets: Seq<Seq<char>>,
) -> Seq<char> {
    from_row_impl_text(
        generics,
        ident,
        predicates_upto(data, targets, data.len()),
        struct_lines(data, targets),
        null_checks_upto(data, targets, data.len()),
    )
}

/// Whether every field has a name.
pub open spec fn all_named(data: Seq<SqliteFieldView>) -> bool {
    forall|i: int| 0 <= i < data.len() ==> (#[trigger] data[i]).ident is Some
}

/// Tells whether every field has a name.
pub fn are_named(data: &Vec<SqliteField>) -> (named: bool)
    ensures
        named == all_named(field_views(data@)),
{
    let mut i: usize = 0;
    while i < data.len()
        invariant
            i <= data.len(),
            forall|j: int| 0 <= j < i ==> (#[trigger] field_views(data@)[j]).ident is Some,
        decreases data.len() - i,
    {
        if data[i].ident.is_none() {
            assert(field_views(data@)[i as int].ident is None);
            return false;
        }
        i += 1;
    }
    true
}

/// Validates the fields that take part, in order, up to the first error.
pub fn validate_fields(data: &Vec<SqliteField>) -> (valid: Result<(), DeriveError>)
    ensures
        valid == match first_error(field_views(data@)) {
            Some(error) => Err::<(), DeriveError>(error),
            None => Ok::<(), DeriveError>(()),
        },
{
    let ghost model = field_views(data@);
    let mut i: usize = 0;
    while i < data.len()
        invariant
            i <= data.len(),
            model == field_views(data@),
            first_error_upto(model, i as nat) is None,
        decreases data.len() - i,
    {
        assert(model[i as int] == data@[i as int]@);
        if !data[i].skip {
            match data[i].validate() {
                Ok(_) => {},
                Err(error) => {
                    proof {
                        assert(first_error_upto(model, (i + 1) as nat) == Some(error));
                        lemma_first_error_stays(model, (i + 1) as nat, model.len());
                    }
                    return Err(error);
                },
            }
        }
        i += 1;
    }
    Ok(())
}

/// Finds for each field the type that is read from the row. The type that a
/// conversion attribute names is lexed, for the fields that take part.
pub fn resolve_targets(data: &Vec<SqliteField>) -> (resolved: Result<
    Vec<String>,
    DeriveError,
>)
    ensures
        match resolved {
            Ok(targets) => admits_targets(field_views(data@), views(targets@)),
            Err(error) => error == DeriveError::UnreadableType && has_conversion(
                field_views(data@),
            ),
        },
{
    let ghost model = field_views(data@);
    let mut targets: Vec<String> = Vec::new();
    let mut i: usize = 0;
    while i < data.len()
        invariant
            i <= data.len(),
            model == field_views(data@),
            targets@.len() == i,
            forall|j: int|
                0 <= j < i && ((#[trigger] model[j]).skip
                    || model[j].conversion_source() is None) ==> targets@[j]@
                    == model[j].ty.tokens,
        decreases data.len() - i,
    {
        assert(model[i as int] == data@[i as int]@);
        if !data[i].skip {
            match data[i].target_ty() {
                Ok(target) => targets.push(target),
                Err(error) => {
                    assert(!model[i as int].skip);
                    return Err(error);
                },
            }
        } else {
            targets.push(data[i].ty.tokens.clone());
        }
        i += 1;
    }
    assert(admits_targets(model, views(targets@)));
    Ok(targets)
}

/// Collects the where clause predicates of the fields that take part, where
/// `targets` are read from the row.
pub fn predicates_with(data: &Vec<SqliteField>, targets: &Vec<String>) -> (predicates: Vec<
    String,
>)
    requires
        targets@.len() == data@.len(),
    ensures
        views(predicates@) == predicates_upto(field_views(data@), views(targets@), data@.len()),
{
    let ghost model = field_views(data@);
    let mut predicates: Vec<String> = Vec::new();
    assert(views(predicates@) =~= Seq::<Seq<char>>::empty());
    let mut i: usize = 0;
    while i < data.len()
        invariant
            i <= data.len(),
            targets@.len() == data@.len(),
            model == field_views(data@),
            views(predicates@) == predicates_upto(model, views(targets@), i as nat),
        decreases data.len() - i,
    {
        assert(model[i as int] == data@[i as int]@);
        assert(views(targets@)[i as int] == targets@[i as int]@);
        if !data[i].skip {
            data[i].add_predicates_with(targets[i].as_str(), &mut predicates);
        } else {
            assert(views(predicates@) + Seq::<Seq<char>>::empty() =~= views(predicates@));
        }
        i += 1;
    }
    predicates
}

/// Writes the implementation of `rusqlite_mapper::FromRow` for the struct
/// `ident` with the fields `data`, where `targets` are read from the row.
pub fn from_row_for(
    generics: &Generics,
    ident: &str,
    data: &Vec<SqliteField>,
    targets: &Vec<String>,
) -> (text: String)
    requires
        targets@.len() == data@.len(),
        all_named(field_views(data@)),
    ensures
        text@ == from_row_text(generics@, ident@, field_views(data@), views(targets@)),
{
    let ghost model = field_views(data@);
    let predicates = predicates_with(data, targets);
    let mut null_checks: Vec<String> = Vec::new();
    let mut lines: Vec<String> = Vec::new();
    assert(views(null_checks@) =~= Seq::<Seq<char>>::empty());
    let mut i: usize = 0;
    while i < data.len()
        invariant
            i <= data.len(),
            targets@.len() == data@.len(),
            model == field_views(data@),
            all_named(model),
            views(null_checks@) == null_checks_upto(model, views(targets@), i as nat),
            lines@.len() == i,
            forall|j: int|
                0 <= j < i ==> (#[trigger] lines@[j])@ == model[j].try_from_row_text(
                    targets@[j]@,
                ),
        decreases data.len() - i,
    {
        assert(model[i as int] == data@[i as int]@);
        assert(model[i as int].ident is Some);
        assert(views(targets@)[i as int] == targets@[i as int]@);
        let ghost before = views(null_checks@);
        if !data[i].skip {
            let check = data[i].generate_is_all_null_with(targets[i].as_str());
            null_checks.push(check);
            assert(views(null_checks@) =~= before + seq![
                model[i as int].is_all_null_text(targets@[i as int]@),
            ]);
        } else {
            assert(before + Seq::<Seq<char>>::empty() =~= before);
        }
        lines.push(data[i].generate_try_from_row_with(targets[i].as_str()));
        i += 1;
    }
    assert(views(lines@) =~= struct_lines(model, views(targets@)));
    let mut text = String::from_str("impl ");
    text.append(generics.impl_generics.as_str());
    text.append(" rusqlite_mapper::FromRow for ");
    text.append(ident);
    text.append(" ");
    text.append(generics.ty_generics.as_str());
    text.append(" where ");
    text.append(join(&chain(&generics.where_predicates, &predicates), ", ").as_str());
    text.append(" {\n");
    text.append("    fn try_from_row_prefixed(row: &::rusqlite::Row, prefix: Option<&str>) -> ");
    text.append("std::result::Result<Self, ::rusqlite::Error> {\n");
    text.append("        Ok(Self { ");
    text.append(join(&lines, ", ").as_str());
    text.append(" })\n");
    text.append("    }\n");
    text.append("    fn is_all_null(row: &::rusqlite::Row, prefix: Option<&str>) -> ");
    text.append("std::result::Result<bool, ::rusqlite::Error> {\n");
    text.append("        Ok(");
    if null_checks.len() == 0 {
        text.append("true");
    } else {
        text.append(join(&null_checks, " && ").as_str());
    }
    text.append(")\n");
    text.append("    }\n");
    text.append("}\n");
    text
}

/// Main struct for deriving `FromRow` for a struct.
#[derive(Debug)]
pub struct DeriveFromRow {
    /// The struct's name.
    pub ident: String,
    /// The struct's generics.
    pub generics: Generics,
    /// The struct's fields, in the order of their declaration.
    pub data: Vec<SqliteField>,
}

/// A `DeriveFromRow` in contracts.
pub struct DeriveFromRowView {
    pub ident: Seq<char>,
    pub generics: GenericsView,
    pub data: Seq<SqliteFieldView>,
}

impl View for DeriveFromRow {
    type V = DeriveFromRowView;

    open spec fn view(&self) -> DeriveFromRowView {
        DeriveFromRowView {
            ident: self.ident@,
            generics: self.generics@,
            data: field_views(self.data@),
        }
    }
}

impl DeriveFromRowView {
    /// The fields that are read from the row: those not marked `skip`.
    pub open spec fn fields(self) -> Seq<SqliteFieldView> {
        mapped(self.data)
    }

    /// The validation error of the first field that is read from the row and
    /// has one.
    pub open spec fn validation_error(self) -> Option<DeriveError> {
        first_error(self.data)
    }

    /// Whether a field that is read from the row has a conversion attribute.
    pub open spec fn has_conversion(self) -> bool {
        has_conversion(self.data)
    }

    /// Whether `targets` can be the types that are read from the row.
    pub open spec fn admits(self, targets: Seq<Seq<char>>) -> bool {
        admits_targets(self.data, targets)
    }

    /// The bounds that the fields need, where `targets` are read from the row.
    pub open spec fn predicates(self, targets: Seq<Seq<char>>) -> Seq<Seq<char>> {
        predicates_upto(self.data, targets, self.data.len())
    }

    /// The implementation of `rusqlite_mapper::FromRow`, where `targets` are
    /// read from the row.
    pub open spec fn impl_text(self, targets: Seq<Seq<char>>) -> Seq<char> {
        from_row_text(self.generics, self.ident, self.data, targets)
    }
}

impl DeriveFromRow {
    /// Validates all fields
    pub fn validate(&self) -> (valid: Result<(), DeriveError>)
        ensures
            valid == match self@.validation_error() {
                Some(error) => Err::<(), DeriveError>(error),
                None => Ok::<(), DeriveError>(()),
            },
    {
        validate_fields(&self.data)
    }

    /// Generates any additional where clause predicates needed for the fields
    /// in this struct.
    pub fn predicates(&self) -> (generated: Result<Vec<String>, DeriveError>)
        ensures
            match generated {
                Ok(predicates) => exists|targets: Seq<Seq<char>>|
                    self@.admits(targets) && views(predicates@) == #[trigger] self@.predicates(
                        targets,
                    ),
                Err(error) => error == DeriveError::UnreadableType && self@.has_conversion(),
            },
    {
        let targets = resolve_targets(&self.data)?;
        let predicates = predicates_with(&self.data, &targets);
        assert(views(predicates@) == self@.predicates(views(targets@)));
        Ok(predicates)
    }

    /// Provides this struct's fields, without those marked `skip`.
    pub fn fields(&self) -> (fields: Vec<&SqliteField>)
        ensures
            ref_views(fields@) == self@.fields(),
    {
        unskipped(&self.data)
    }

    /// Provides a slice of this struct's fields.
    pub fn all_fields(&self) -> (fields: &[SqliteField])
        ensures
            fields@ == self.data@,
    {
        self.data.as_slice()
    }

    /// Tells whether `generate` accepts this struct: whether every field has
    /// a name.
    pub fn can_generate(&self) -> (accepted: bool)
        ensures
            accepted == all_named(self@.data),
    {
        are_named(&self.data)
    }

    /// Generate the `FromRow` implementation, where `targets` are read from
    /// the row.
    pub fn generate_with(&self, targets: &Vec<String>) -> (text: String)
        requires
            targets@.len() == self.data@.len(),
            all_named(self@.data),
        ensures
            text@ == self@.impl_text(views(targets@)),
    {
        from_row_for(&self.generics, self.ident.as_str(), &self.data, targets)
    }

    /// Generate the `FromRow` implementation.
    pub fn generate(self) -> (generated: Result<String, DeriveError>)
        requires
            all_named(self@.data),
        ensures
            match self@.validation_error() {
                Some(error) => generated == Err::<String, DeriveError>(error),
                None => match generated {
                    Ok(text) => exists|targets: Seq<Seq<char>>|
                        self@.admits(targets) && text@ == #[trigger] self@.impl_text(targets),
                    Err(error) => error == DeriveError::UnreadableType && self@.has_conversion(),
                },
            },
            self@.validation_error() is None && !self@.has_conversion() ==> (generated matches Ok(
                text,
            ) && text@ == self@.impl_text(own_types(self@.data))),
    {
        self.validate()?;
        let targets = resolve_targets(&self.data)?;
        proof {
            if !self@.has_conversion() {
                lemma_own_types(self@.data, views(targets@));
            }
        }
        Ok(self.generate_with(&targets))
    }
}

} // verus!
