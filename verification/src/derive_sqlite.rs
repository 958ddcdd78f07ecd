//! Generating both row mappings of a struct at once: `FromRow` and `ToRow`,
//! each unless the struct opts out of it, and each as its own derive writes
//! it. A field marked `skip` is left out of both.

use crate::derive_from_row::{
    admits_targets, all_named, are_named, first_error, from_row_for, from_row_text, has_conversion,
    lemma_own_types, own_types, predicates_upto, predicates_with, resolve_targets, validate_fields,
};
use crate::derive_to_row::{
    all_bindable, are_bindable, snake_case, to_row_for, to_row_text, to_snake_case,
};
use crate::error::DeriveError;
use crate::fields::{field_views, mapped, ref_views, unskipped, SqliteField, SqliteFieldView};
use crate::generics::{Generics, GenericsView};
use crate::text::views;
use vstd::prelude::*;

verus! {

/// Main struct for deriving `FromRow` and `ToRow` for a struct.
#[derive(Debug)]
pub struct DeriveSqlite {
    /// The struct's name.
    pub ident: String,
    /// The struct's generics.
    pub generics: Generics,
    /// The struct's fields, in the order of their declaration.
    pub data: Vec<SqliteField>,
    /// Generate no `FromRow`.
    pub skip_from_row: bool,
    /// Generate no `ToRow`.
    pub skip_to_row: bool,
}

/// A `DeriveSqlite` in contracts.
pub struct DeriveSqliteView {
    pub ident: Seq<char>,
    pub generics: GenericsView,
    pub data: Seq<SqliteFieldView>,
    pub skip_from_row: bool,
    pub skip_to_row: bool,
}

impl View for DeriveSqlite {
    type V = DeriveSqliteView;

    open spec fn view(&self) -> DeriveSqliteView {
        DeriveSqliteView {
            ident: self.ident@,
            generics: self.generics@,
            data: field_views(self.data@),
            skip_from_row: self.skip_from_row,
            skip_to_row: self.skip_to_row,
        }
    }
}

impl DeriveSqliteView {
    /// The fields that take part in the mappings: those not marked `skip`.
    pub open spec fn fields(self) -> Seq<SqliteFieldView> {
        mapped(self.data)
    }

    /// The validation error of the first field that takes part and has one.
    pub open spec fn validation_error(self) -> Option<DeriveError> {
        first_error(self.data)
    }

    /// Whether a field that takes part has a conversion attribute.
    pub open spec fn has_conversion(self) -> bool {
        has_conversion(self.data)
    }

    /// Whether `targets` can be the types that are read from the row.
    pub open spec fn admits(self, targets: Seq<Seq<char>>) -> bool {
        admits_targets(self.data, targets)
    }

    /// The bounds that the fields need, where `targets` are read from the row.
    pub open spec fn predicates(self, targets: Seq<Seq<char>>) -> Seq<Seq<char>> {
        predicates_upto(self.data, targets, self.data.len())
    }

    /// The implementation of `rusqlite_mapper::FromRow`, where `targets` are
    /// read from the row.
    pub open spec fn from_row_text(self, targets: Seq<Seq<char>>) -> Seq<char> {
        from_row_text(self.generics, self.ident, self.data, targets)
    }

    /// The implementation of `rusqlite_mapper::ToRow` that maps the struct to
    /// `table`.
    pub open spec fn to_row_text(self, table: Seq<char>) -> Seq<char> {
        to_row_text("rusqlite_mapper"@, self.generics, self.ident, table, self.fields())
    }

    /// The implementations that the struct asks for: `FromRow`, then `ToRow`.
    pub open spec fn impl_text(self, targets: Seq<Seq<char>>, table: Seq<char>) -> Seq<char> {
        (if self.skip_from_row {
            Seq::empty()
        } else {
            self.from_row_text(targets)
        }) + (if self.skip_to_row {
            Seq::empty()
        } else {
            self.to_row_text(table)
        })
    }

    /// Whether the implementations can be generated: `FromRow` needs every
    /// field named, `ToRow` needs every field that takes part bindable.
    pub open spec fn can_generate(self) -> bool {
        &&& !self.skip_from_row ==> all_named(self.data)
        &&& !self.skip_to_row ==> all_bindable(self.fields())
    }
}

impl DeriveSqlite {
    /// Validates all fields
    pub fn validate(&self) -> (valid: Result<(), DeriveError>)
        ensures
            valid == match self@.validation_error() {
                Some(error) => Err::<(), DeriveError>(error),
                None => Ok::<(), DeriveError>(()),
            },
    {
        validate_fields(&self.data)
    }

    /// Generates any additional where clause predicates needed for the fields
    /// in this struct.
    pub fn predicates(&self) -> (generated: Result<Vec<String>, DeriveError>)
        ensures
            match generated {
                Ok(predicates) => exists|targets: Seq<Seq<char>>|
                    self@.admits(targets) && views(predicates@) == #[trigger] self@.predicates(
                        targets,
                    ),
                Err(error) => error == DeriveError::UnreadableType && self@.has_conversion(),
            },
    {
        let targets = resolve_targets(&self.data)?;
        let predicates = predicates_with(&self.data, &targets);
        assert(views(predicates@) == self@.predicates(views(targets@)));
        Ok(predicates)
    }

    /// Provides this struct's fields, without those marked `skip`.
    pub fn fields(&self) -> (fields: Vec<&SqliteField>)
        ensures
            ref_views(fields@) == self@.fields(),
    {
        unskipped(&self.data)
    }

    /// Tells whether `generate` accepts this struct.
    pub fn can_generate(&self) -> (accepted: bool)
        ensures
            accepted == self@.can_generate(),
    {
        (self.skip_from_row || are_named(&self.data)) && (self.skip_to_row || are_bindable(
            &self.fields(),
        ))
    }

    /// Generate the `FromRow` implementation, where `targets` are read from
    /// the row.
    pub fn generate_from_row_with(&self, targets: &Vec<String>) -> (text: String)
        requires
            targets@.len() == self.data@.len(),
            all_named(self@.data),
        ensures
            text@ == self@.from_row_text(views(targets@)),
    {
        from_row_for(&self.generics, self.ident.as_str(), &self.data, targets)
    }

    /// Generate the `FromRow` implementation.
    pub fn generate_from_row(&self) -> (generated: Result<String, DeriveError>)
        requires
            all_named(self@.data),
        ensures
            match generated {
                Ok(text) => exists|targets: Seq<Seq<char>>|
                    self@.admits(targets) && text@ == #[trigger] self@.from_row_text(targets),
                Err(error) => error == DeriveError::UnreadableType && self@.has_conversion(),
            },
            !self@.has_conversion() ==> (generated matches Ok(text) && text@
                == self@.from_row_text(own_types(self@.data))),
    {
        let targets = resolve_targets(&self.data)?;
        proof {
            if !self@.has_conversion() {
                lemma_own_types(self@.data, views(targets@));
            }
        }
        Ok(self.generate_from_row_with(&targets))
    }

    /// Generate the `ToRow` implementation that maps the struct to `table`.
    pub fn generate_to_row_for_table(&self, table: &str) -> (generated: Result<
        String,
        DeriveError,
    >)
        requires
            all_bindable(self@.fields()),
        ensures
            generated matches Ok(text) && text@ == self@.to_row_text(table@),
    {
        let fields = self.fields();
        to_row_for("rusqlite_mapper", &self.generics, self.ident.as_str(), table, &fields)
    }

    /// Generate the `ToRow` implementation. The table is named after the
    /// struct, in snake case.
    pub fn generate_to_row(&self) -> (generated: Result<String, DeriveError>)
        requires
            all_bindable(self@.fields()),
        ensures
            generated matches Ok(text) && text@ == self@.to_row_text(snake_case(self@.ident)),
    {
        let table_name = to_snake_case(self.ident.as_str());
        self.generate_to_row_for_table(table_name.as_str())
    }

    /// Generate the `FromRow` and `ToRow` implementations of a struct whose
    /// fields are valid, where `targets` are read from the row and the struct
    /// maps to `table`.
    pub fn generate_with(&self, targets: &Vec<String>, table: &str) -> (generated: Result<
        String,
        DeriveError,
    >)
        requires
            self@.can_generate(),
            !self.skip_from_row ==> targets@.len() == self.data@.len(),
        ensures
            generated matches Ok(text) && text@ == self@.impl_text(views(targets@), table@),
    {
        let mut text = if self.skip_from_row {
            String::new()
        } else {
            self.generate_from_row_with(targets)
        };
        if !self.skip_to_row {
            text.append(self.generate_to_row_for_table(table)?.as_str());
        } else {
            assert(text@ + Seq::<char>::empty() =~= text@);
        }
        Ok(text)
    }

    /// Generate the `FromRow` and `ToRow` implementations.
    pub fn generate(self) -> (generated: Result<String, DeriveError>)
        requires
            self@.can_generate(),
        ensures
            match self@.validation_error() {
                Some(error) => generated == Err::<String, DeriveError>(error),
                None => match generated {
                    Ok(text) => exists|targets: Seq<Seq<char>>|
                        self@.admits(targets) && text@ == #[trigger] self@.impl_text(
                            targets,
                            snake_case(self@.ident),
                        ),
                    Err(error) => error == DeriveError::UnreadableType && !self@.skip_from_row
                        && self@.has_conversion(),
                },
            },
            self@.validation_error() is None && (self@.skip_from_row || !self@.has_conversion())
                ==> (generated matches Ok(text) && text@ == self@.impl_text(
                own_types(self@.data),
                snake_case(self@.ident),
            )),
    {
        self.validate()?;
        let ghost own = own_types(self@.data);
        let targets = if self.skip_from_row {
            Vec::new()
        } else {
            resolve_targets(&self.data)?
        };
        let table_name = to_snake_case(self.ident.as_str());
        let generated = self.generate_with(&targets, table_name.as_str());
        proof {
            let read = if self.skip_from_row {
                own
            } else {
                views(targets@)
            };
            assert(self@.admits(own));
            assert(self@.admits(read));
            if !self.skip_from_row && !self@.has_conversion() {
                lemma_own_types(self@.data, read);
            }
            assert(generated matches Ok(text) && text@ == self@.impl_text(
                read,
                snake_case(self@.ident),
            ));
        }
        generated
    }
}

} // verus!
