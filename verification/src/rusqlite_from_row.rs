//! Generating the implementation of `rusqlite_from_row::ToRow` for a struct.
//! Every field is a column, and the table bears the struct's name as it is
//! written.

use crate::derive_to_row::{
    param_ref_of, param_ref_text, sql_type_entry, sql_type_entry_text, to_row_impl,
    to_row_impl_text,
};
use crate::error::DeriveError;
use crate::fields::{column_name_of, column_name_text, text_of, FieldType, FieldTypeView};
use crate::generics::{Generics, GenericsView};
use crate::text::views;
use vstd::prelude::*;

verus! {

/// A single field inside of a struct that derives `ToRow`
#[derive(Debug)]
pub struct ToRowField {
    /// The identifier of this field.
    pub ident: Option<String>,
    /// The type specified in this field.
    pub ty: FieldType,
    /// Override the name of the actual sql column instead of using the
    /// identifier.
    pub rename: Option<String>,
    /// Indicates that this field is the primary key of the table.
    pub primary_key: bool,
}

/// A `ToRowField` in contracts.
pub struct ToRowFieldView {
    pub ident: Option<Seq<char>>,
    pub ty: FieldTypeView,
    pub rename: Option<Seq<char>>,
    pub primary_key: bool,
}

impl View for ToRowField {
    type V = ToRowFieldView;

    open spec fn view(&self) -> ToRowFieldView {
        ToRowFieldView {
            ident: text_of(self.ident),
            ty: self.ty@,
            rename: text_of(self.rename),
            primary_key: self.primary_key,
        }
    }
}

impl ToRowFieldView {
    /// The name of the sql column that this field maps to.
    pub open spec fn column_name(self) -> Seq<char>
        recommends
            self.rename is Some || self.ident is Some,
    {
        column_name_text(self.rename, self.ident)
    }

    /// The Rust type as which this field is bound as a parameter.
    pub open spec fn param_ty(self) -> Seq<char>
        recommends
            self.ty.has_param_ty(false),
    {
        self.ty.param_ty(false)
    }

    /// The Rust expression that hands this field over as a parameter.
    pub open spec fn param_ref(self) -> Seq<char> {
        param_ref_text(self.ident, self.ty, false)
    }

    /// The field's entry in `sql_types`.
    pub open spec fn sql_type_entry(self) -> Seq<char> {
        sql_type_entry_text("rusqlite_from_row"@, self.ty.tokens, self.primary_key)
    }

    /// Whether the field can be bound: it has a column name, and its type has
    /// a parameter type.
    pub open spec fn is_bindable(self) -> bool {
        (self.rename is Some || self.ident is Some) && self.ty.has_param_ty(false)
    }
}

/// The Rust type as which a field of type `ty` is bound as a parameter.
pub fn type_to_param_ty(ty: &FieldType) -> (param: Result<String, DeriveError>)
    requires
        ty@.has_param_ty(false),
    ensures
        param matches Ok(text) && text@ == ty@.param_ty(false),
{
    crate::derive_to_row::type_to_param_ty(ty, false)
}

impl ToRowField {
    /// The Rust type of when this field is converted to a param
    pub fn param_ty(&self) -> (param: Result<String, DeriveError>)
        requires
            self@.ty.has_param_ty(false),
        ensures
            param matches Ok(text) && text@ == self@.param_ty(),
    {
        type_to_param_ty(&self.ty)
    }

    /// The Rust expression to access this field as a param
    pub fn param_ref(&self) -> (param: Result<String, DeriveError>)
        ensures
            param matches Ok(text) && text@ == self@.param_ref(),
    {
        Ok(param_ref_of(&self.ident, &self.ty, false))
    }

    /// Returns the name that maps to the actual sql column.
    /// By default this is the same as the rust field name but can be
    /// overwritten by the `rename` attribute.
    pub fn column_name(&self) -> (name: String)
        requires
            self.rename is Some || self.ident is Some,
        ensures
            name@ == self@.column_name(),
    {
        column_name_of(&self.rename, &self.ident)
    }

    /// Tells whether this field is the primary key of the table.
    pub fn is_primary_key(&self) -> (primary_key: bool)
        ensures
            primary_key == self@.primary_key,
    {
        self.primary_key
    }

    /// Tells whether the field can be bound.
    pub fn is_bindable(&self) -> (bindable: bool)
        ensures
            bindable == self@.is_bindable(),
    {
        (self.rename.is_some() || self.ident.is_some()) && self.ty.has_param_ty(false)
    }
}

/// Main struct for deriving `ToRow` for a struct.
#[derive(Debug)]
pub struct DeriveToRow {
    /// The struct's name.
    pub ident: String,
    /// The struct's generics.
    pub generics: Generics,
    /// The struct's fields, in the order of their declaration.
    pub data: Vec<ToRowField>,
}

/// A `DeriveToRow` in contracts.
pub struct DeriveToRowView {
    pub ident: Seq<char>,
    pub generics: GenericsView,
    pub data: Seq<ToRowFieldView>,
}

impl View for DeriveToRow {
    type V = DeriveToRowView;

    open spec fn view(&self) -> DeriveToRowView {
        DeriveToRowView {
            ident: self.ident@,
            generics: self.generics@,
            data: Seq::new(self.data@.len(), |i: int| self.data@[i]@),
        }
    }
}

impl DeriveToRowView {
    /// Whether an implementation can be generated: every field can be bound.
    pub open spec fn can_generate(self) -> bool {
        forall|i: int| 0 <= i < self.data.len() ==> (#[trigger] self.data[i]).is_bindable()
    }

    /// The implementation of `rusqlite_from_row::ToRow` for the struct.
    pub open spec fn impl_text(self) -> Seq<char> {
        to_row_impl_text(
            "rusqlite_from_row"@,
            self.generics,
            self.ident,
            self.ident,
            Seq::new(self.data.len(), |i: int| self.data[i].param_ty()),
            Seq::new(self.data.len(), |i: int| self.data[i].column_name()),
            Seq::new(self.data.len(), |i: int| self.data[i].param_ref()),
            Seq::new(self.data.len(), |i: int| self.data[i].sql_type_entry()),
        )
    }
}

impl DeriveToRow {
    /// Provides a slice of this struct's fields.
    pub fn fields(&self) -> (fields: &[ToRowField])
        ensures
            fields@ == self.data@,
    {
        self.data.as_slice()
    }

    /// Tells whether `generate` accepts this struct.
    pub fn can_generate(&self) -> (accepted: bool)
        ensures
            accepted == self@.can_generate(),
    {
        let mut i: usize = 0;
        while i < self.data.len()
            invariant
                i <= self.data.len(),
                forall|j: int| 0 <= j < i ==> (#[trigger] self@.data[j]).is_bindable(),
            decreases self.data.len() - i,
        {
            if !self.data[i].is_bindable() {
                assert(!self@.data[i as int].is_bindable());
                return false;
            }
            i += 1;
        }
        true
    }

    /// Generate the `ToRow` implementation.
    pub fn generate(self) -> (generated: Result<String, DeriveError>)
        requires
            self@.can_generate(),
        ensures
            generated matches Ok(text) && text@ == self@.impl_text(),
    {
        let ghost model = self@.data;
        let fields = self.fields();
        let mut params: Vec<String> = Vec::new();
        let mut columns: Vec<String> = Vec::new();
        let mut values: Vec<String> = Vec::new();
        let mut sql_types: Vec<String> = Vec::new();
        let mut i: usize = 0;
        while i < fields.len()
            invariant
                i <= fields.len(),
                fields@ == self.data@,
                model == self@.data,
                self@.can_generate(),
                params@.len() == i,
                columns@.len() == i,
                values@.len() == i,
                sql_types@.len() == i,
                forall|j: int| 0 <= j < i ==> (#[trigger] params@[j])@ == model[j].param_ty(),
                forall|j: int| 0 <= j < i ==> (#[trigger] columns@[j])@ == model[j].column_name(),
                forall|j: int| 0 <= j < i ==> (#[trigger] values@[j])@ == model[j].param_ref(),
                forall|j: int|
                    0 <= j < i ==> (#[trigger] sql_types@[j])@ == model[j].sql_type_entry(),
            decreases fields.len() - i,
        {
            let field = &fields[i];
            assert(field@ == model[i as int]);
            assert(model[i as int].is_bindable());
            params.push(field.param_ty()?);
            columns.push(field.column_name());
            values.push(field.param_ref()?);
            sql_types.push(
                sql_type_entry(
                    "rusqlite_from_row",
                    field.ty.tokens.as_str(),
                    field.is_primary_key(),
                ),
            );
            i += 1;
        }
        assert(views(params@) =~= Seq::new(model.len(), |i: int| model[i].param_ty()));
        assert(views(columns@) =~= Seq::new(model.len(), |i: int| model[i].column_name()));
        assert(views(values@) =~= Seq::new(model.len(), |i: int| model[i].param_ref()));
        assert(views(sql_types@) =~= Seq::new(model.len(), |i: int| model[i].sql_type_entry()));
        let table_name = self.ident.as_str();
        let text = to_row_impl(
            "rusqlite_from_row",
            &self.generics,
            self.ident.as_str(),
            table_name,
            &params,
            &columns,
            &values,
            &sql_types,
        );
        Ok(text)
    }
}

} // verus!
