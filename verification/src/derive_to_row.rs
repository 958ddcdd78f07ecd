//! Generating the implementation of `ToRow` for a struct: how each field is
//! handed to the database, and the text of the implementation.

use crate::error::DeriveError;
use crate::fields::{
    field_views, mapped, ref_views, text_of, unskipped, FieldType, FieldTypeView, GenericArgument,
    GenericArgumentView, PathArguments, PathArgumentsView, PathSegment, PathSegmentView,
    SqliteField, SqliteFieldView, TypeShape, TypeShapeView,
};
use crate::generics::{Generics, GenericsView};
use crate::text::{
    bool_literal, bool_str, literal, string_literal, terminate, terminated, views,
};
use heck::ToSnakeCase;
use vstd::prelude::*;

verus! {

/// Whether `name` is one of the scalar types, which are bound by value.
pub open spec fn is_scalar_name(name: Seq<char>) -> bool {
    name == "i8"@ || name == "i16"@ || name == "i32"@ || name == "i64"@ || name == "isize"@
        || name == "u8"@ || name == "u16"@ || name == "u32"@ || name == "f32"@ || name == "f64"@
        || name == "u64"@ || name == "usize"@ || name == "bool"@
}

/// Tells whether `name` is one of the scalar types, which are bound by value.
pub fn is_scalar(name: &str) -> (scalar: bool)
    ensures
        scalar == is_scalar_name(name@),
{
    name.eq("i8") || name.eq("i16") || name.eq("i32") || name.eq("i64") || name.eq("isize")
        || name.eq("u8") || name.eq("u16") || name.eq("u32") || name.eq("f32") || name.eq("f64")
        || name.eq("u64") || name.eq("usize") || name.eq("bool")
}

impl PathSegmentView {
    /// The segment's first argument, where it stands between angle brackets
    /// and is a type.
    pub open spec fn first_type_argument(self) -> Option<Seq<char>> {
        match self.arguments {
            PathArgumentsView::AngleBracketed(args) => if args.len() > 0 {
                match args[0] {
                    GenericArgumentView::Type(tokens) => Some(tokens),
                    GenericArgumentView::Other => None,
                }
            } else {
                None
            },
            _ => None,
        }
    }
}

impl FieldTypeView {
    /// The last segment of a path type.
    pub open spec fn last_segment(self) -> Option<PathSegmentView> {
        match self.shape {
            TypeShapeView::Path(segments) => if segments.len() > 0 {
                Some(segments.last())
            } else {
                None
            },
            TypeShapeView::Other => None,
        }
    }

    /// Whether the type is a path of one segment that names a scalar.
    pub open spec fn is_scalar(self) -> bool {
        match self.shape {
            TypeShapeView::Path(segments) => segments.len() == 1 && is_scalar_name(
                segments[0].ident,
            ),
            TypeShapeView::Other => false,
        }
    }

    /// Whether a field of this type is bound by value: where `force_as_value`
    /// is set, for a scalar, and for what is not a path.
    pub open spec fn binds_by_value(self, force_as_value: bool) -> bool {
        force_as_value || self.shape is Other || self.is_scalar()
    }

    /// Whether the type is a path whose last segment is `Vec`.
    pub open spec fn is_vec(self) -> bool {
        match self.last_segment() {
            Some(segment) => segment.ident == "Vec"@,
            None => false,
        }
    }

    /// The type of a `Vec`'s items: the first argument of the last segment.
    pub open spec fn item_type(self) -> Option<Seq<char>> {
        match self.last_segment() {
            Some(segment) => segment.first_type_argument(),
            None => None,
        }
    }

    /// Whether the type has a parameter type: every type but a `Vec` that
    /// does not name the type of its items.
    pub open spec fn has_param_ty(self, force_as_value: bool) -> bool {
        force_as_value || self.is_scalar() || !self.is_vec() || self.item_type() is Some
    }

    /// The type as which a field of this type is bound: the type itself
    /// exactly where the field is bound by value; else a slice for a `Vec`,
    /// and a reference for any other path.
    pub open spec fn param_ty(self, force_as_value: bool) -> Seq<char>
        recommends
            self.has_param_ty(force_as_value),
    {
        if self.binds_by_value(force_as_value) {
            self.tokens
        } else if self.is_vec() {
            "&'a ["@ + self.item_type()->0 + "]"@
        } else {
            "&'a "@ + self.tokens
        }
    }
}

impl PathSegment {
    /// The segment's first argument, where it stands between angle brackets
    /// and is a type.
    pub fn first_type_argument(&self) -> (argument: Option<&String>)
        ensures
            match argument {
                Some(tokens) => self@.first_type_argument() == Some(tokens@),
                None => self@.first_type_argument() is None,
            },
    {
        match &self.arguments {
            PathArguments::AngleBracketed(args) => {
                if args.len() > 0 {
                    match &args[0] {
                        GenericArgument::Type(tokens) => Some(tokens),
                        GenericArgument::Other => None,
                    }
                } else {
                    None
                }
            },
            _ => None,
        }
    }
}

impl FieldType {
    /// The last segment of a path type.
    pub fn last_segment(&self) -> (segment: Option<&PathSegment>)
        ensures
            match segment {
                Some(segment) => self@.last_segment() == Some(segment@),
                None => self@.last_segment() is None,
            },
    {
        match &self.shape {
            TypeShape::Path(segments) => {
                if segments.len() > 0 {
                    Some(&segments[segments.len() - 1])
                } else {
                    None
                }
            },
            TypeShape::Other => None,
        }
    }

    /// Tells whether the type is a path of one segment that names a scalar.
    pub fn is_scalar(&self) -> (scalar: bool)
        ensures
            scalar == self@.is_scalar(),
    {
        match &self.shape {
            TypeShape::Path(segments) => segments.len() == 1 && is_scalar(
                segments[0].ident.as_str(),
            ),
            TypeShape::Other => false,
        }
    }

    /// Tells whether a field of this type is bound by value.
    pub fn binds_by_value(&self, force_as_value: bool) -> (by_value: bool)
        ensures
            by_value == self@.binds_by_value(force_as_value),
    {
        force_as_value || match &self.shape {
            TypeShape::Path(_) => self.is_scalar(),
            TypeShape::Other => true,
        }
    }

    /// Tells whether the type is a path whose last segment is `Vec`.
    pub fn is_vec(&self) -> (vec: bool)
        ensures
            vec == self@.is_vec(),
    {
        match self.last_segment() {
            Some(segment) => segment.ident.as_str().eq("Vec"),
            None => false,
        }
    }

    /// Tells whether `type_to_param_ty` accepts the type.
    pub fn has_param_ty(&self, force_as_value: bool) -> (accepted: bool)
        ensures
            accepted == self@.has_param_ty(force_as_value),
    {
        if force_as_value || self.is_scalar() || !self.is_vec() {
            true
        } else {
            match self.last_segment() {
                Some(segment) => segment.first_type_argument().is_some(),
                None => false,
            }
        }
    }
}

/// The Rust type as which a field of type `ty` is bound as a parameter.
pub fn type_to_param_ty(ty: &FieldType, force_as_value: bool) -> (param: Result<
    String,
    DeriveError,
>)
    requires
        ty@.has_param_ty(force_as_value),
    ensures
        param matches Ok(text) && text@ == ty@.param_ty(force_as_value),
{
    if ty.binds_by_value(force_as_value) {
        Ok(ty.tokens.clone())
    } else if ty.is_vec() {
        let segment = ty.last_segment().unwrap();
        let item = segment.first_type_argument().unwrap();
        let mut text = String::from_str("&'a [");
        text.append(item.as_str());
        text.append("]");
        Ok(text)
    } else {
        let mut text = String::from_str("&'a ");
        text.append(ty.tokens.as_str());
        Ok(text)
    }
}

/// The expression that hands over the field `ident` of type `ty`: the unit
/// where the field has no name; else the field itself exactly where it is
/// bound by value, so that the expression has the type that `param_ty` names,
/// and a reference to the field where it is not.
pub open spec fn param_ref_text(ident: Option<Seq<char>>, ty: FieldTypeView, value: bool) -> Seq<
    char,
> {
    match ident {
        None => "()"@,
        Some(ident) => if ty.binds_by_value(value) {
            "self."@ + ident
        } else {
            "&self."@ + ident
        },
    }
}

/// The Rust expression that hands over the field `ident` of type `ty` as a
/// parameter.
pub fn param_ref_of(ident: &Option<String>, ty: &FieldType, value: bool) -> (param: String)
    ensures
        param@ == param_ref_text(text_of(*ident), ty@, value),
{
    match ident {
        None => String::from_str("()"),
        Some(ident) => {
            let mut text = if ty.binds_by_value(value) {
                String::from_str("self.")
            } else {
                String::from_str("&self.")
            };
            text.append(ident.as_str());
            text
        },
    }
}

/// The entry of `sql_types` for a field of type `ty`: the type's SQL name,
/// whether it is optional, and whether the field is the primary key.
pub open spec fn sql_type_entry_text(krate: Seq<char>, ty: Seq<char>, primary_key: bool) -> Seq<
    char,
> {
    "(<"@ + ty + " as "@ + krate + "::SqliteTypeInfo>::sqlite_type().to_string(), <"@ + ty
        + " as "@ + krate + "::SqliteTypeInfo>::optional(), "@ + bool_literal(primary_key) + ",)"@
}

/// Writes the entry of `sql_types` for a field of type `ty`.
pub fn sql_type_entry(krate: &str, ty: &str, primary_key: bool) -> (entry: String)
    ensures
        entry@ == sql_type_entry_text(krate@, ty@, primary_key),
{
    let mut entry = String::from_str("(<");
    entry.append(ty);
    entry.append(" as ");
    entry.append(krate);
    entry.append("::SqliteTypeInfo>::sqlite_type().to_string(), <");
    entry.append(ty);
    entry.append(" as ");
    entry.append(krate);
    entry.append("::SqliteTypeInfo>::optional(), ");
    entry.append(bool_str(primary_key));
    entry.append(",)");
    entry
}

/// Each name as a string literal.
pub open spec fn literals(names: Seq<Seq<char>>) -> Seq<Seq<char>> {
    Seq::new(names.len(), |i: int| literal(names[i]))
}

/// The implementation of `krate::ToRow` for the struct `ident`, under the
/// struct's own `where` clause: the tuple of parameter types, the table's
/// name, the columns' names, the tuple of parameters and the columns' SQL
/// types. In both tuples every member is
/// followed by a comma, so that one member makes a tuple and none the unit.
pub open spec fn to_row_impl_text(
    krate: Seq<char>,
    generics: GenericsView,
    ident: Seq<char>,
    table: Seq<char>,
    params: Seq<Seq<char>>,
    columns: Seq<Seq<char>>,
    values: Seq<Seq<char>>,
    sql_types: Seq<Seq<char>>,
) -> Seq<char> {
    "impl "@ + generics.impl_generics + " "@ + krate + "::ToRow for "@ + ident + " "@
        + generics.ty_generics + generics.where_clause() + " {\n"@
        + "    type Params<'a> = ("@ + terminated(params, ", "@) + ") where Self: 'a;\n"@
        + "    fn table_name() -> &'static str { "@ + literal(table) + " }\n"@
        + "    fn column_names() -> &'static [&'static str] { &["@
        + terminated(literals(columns), ", "@) + "] }\n"@
        + "    fn to_params(&self) -> Self::Params<'_> { ("@ + terminated(values, ", "@)
        + ") }\n"@
        + "    fn sql_types() -> Vec<(String, bool, bool)> { vec!["@
        + terminated(sql_types, ", "@) + "] }\n"@
        + "}\n"@
}

/// Writes the implementation of `krate::ToRow` for the struct `ident`.
pub fn to_row_impl(
    krate: &str,
    generics: &Generics,
    ident: &str,
    table: &str,
    params: &Vec<String>,
    columns: &Vec<String>,
    values: &Vec<String>,
    sql_types: &Vec<String>,
) -> (text: String)
    ensures
        text@ == to_row_impl_text(
            krate@,
            generics@,
            ident@,
            table@,
            views(params@),
            views(columns@),
            views(values@),
            views(sql_types@),
        ),
{
    let mut quoted: Vec<String> = Vec::new();
    let mut i: usize = 0;
    while i < columns.len()
        invariant
            i <= columns.len(),
            quoted@.len() == i,
            forall|j: int| 0 <= j < i ==> (#[trigger] quoted@[j])@ == literal(columns@[j]@),
        decreases columns.len() - i,
    {
        quoted.push(string_literal(columns[i].as_str()));
        i += 1;
    }
    assert(views(quoted@) =~= literals(views(columns@)));
    let mut text = String::from_str("impl ");
    text.append(generics.impl_generics.as_str());
    text.append(" ");
    text.append(krate);
    text.append("::ToRow for ");
    text.append(ident);
    text.append(" ");
    text.append(generics.ty_generics.as_str());
    text.append(generics.where_clause().as_str());
    text.append(" {\n");
    text.append("    type Params<'a> = (");
    text.append(terminate(params, ", ").as_str());
    text.append(") where Self: 'a;\n");
    text.append("    fn table_name() -> &'static str { ");
    text.append(string_literal(table).as_str());
    text.append(" }\n");
    text.append("    fn column_names() -> &'static [&'static str] { &[");
    text.append(terminate(&quoted, ", ").as_str());
    text.append("] }\n");
    text.append("    fn to_params(&self) -> Self::Params<'_> { (");
    text.append(terminate(values, ", ").as_str());
    text.append(") }\n");
    text.append("    fn sql_types() -> Vec<(String, bool, bool)> { vec![");
    text.append(terminate(sql_types, ", ").as_str());
    text.append("] }\n");
    text.append("}\n");
    text
}

impl SqliteFieldView {
    /// The Rust type as which this field is bound as a parameter.
    pub open spec fn param_ty(self) -> Seq<char>
        recommends
            self.ty.has_param_ty(self.value),
    {
        self.ty.param_ty(self.value)
    }

    /// The Rust expression that hands this field over as a parameter.
    pub open spec fn param_ref(self) -> Seq<char> {
        param_ref_text(self.ident, self.ty, self.value)
    }

    /// Whether the field can be bound: it has a column name, and its type has
    /// a parameter type.
    pub open spec fn is_bindable(self) -> bool {
        (self.rename is Some || self.ident is Some) && self.ty.has_param_ty(self.value)
    }
}

impl SqliteField {
    /// The Rust type of when this field is converted to a param
    pub fn param_ty(&self) -> (param: Result<String, DeriveError>)
        requires
            self@.ty.has_param_ty(self@.value),
        ensures
            param matches Ok(text) && text@ == self@.param_ty(),
    {
        type_to_param_ty(&self.ty, self.value)
    }

    /// The Rust expression to access this field as a param
    pub fn param_ref(&self) -> (param: Result<String, DeriveError>)
        ensures
            param matches Ok(text) && text@ == self@.param_ref(),
    {
        Ok(param_ref_of(&self.ident, &self.ty, self.value))
    }

    /// Tells whether the field can be bound.
    pub fn is_bindable(&self) -> (bindable: bool)
        ensures
            bindable == self@.is_bindable(),
    {
        (self.rename.is_some() || self.ident.is_some()) && self.ty.has_param_ty(self.value)
    }
}

/// Whether every field of the list can be bound.
pub open spec fn all_bindable(fields: Seq<SqliteFieldView>) -> bool {
    forall|i: int| 0 <= i < fields.len() ==> (#[trigger] fields[i]).is_bindable()
}

/// Tells whether every field of the list can be bound.
pub fn are_bindable(fields: &Vec<&SqliteField>) -> (bindable: bool)
    ensures
        bindable == all_bindable(ref_views(fields@)),
{
    let mut i: usize = 0;
    while i < fields.len()
        invariant
            i <= fields.len(),
            forall|j: int| 0 <= j < i ==> (#[trigger] ref_views(fields@)[j]).is_bindable(),
        decreases fields.len() - i,
    {
        if !fields[i].is_bindable() {
            assert(!ref_views(fields@)[i as int].is_bindable());
            return false;
        }
        i += 1;
    }
    true
}

/// The implementation of `krate::ToRow` for the struct `ident` with the given
/// fields, each of them a column of `table`.
pub open spec fn to_row_text(
    krate: Seq<char>,
    generics: GenericsView,
    ident: Seq<char>,
    table: Seq<char>,
    fields: Seq<SqliteFieldView>,
) -> Seq<char> {
    to_row_impl_text(
        krate,
        generics,
        ident,
        table,
        Seq::new(fields.len(), |i: int| fields[i].param_ty()),
        Seq::new(fields.len(), |i: int| fields[i].column_name()),
        Seq::new(fields.len(), |i: int| fields[i].param_ref()),
        Seq::new(
            fields.len(),
            |i: int| sql_type_entry_text(krate, fields[i].ty.tokens, fields[i].primary_key),
        ),
    )
}

/// Writes the implementation of `krate::ToRow` for the struct `ident` with
/// the given fields, each of them a column of `table`.
pub fn to_row_for(
    krate: &str,
    generics: &Generics,
    ident: &str,
    table: &str,
    fields: &Vec<&SqliteField>,
) -> (generated: Result<String, DeriveError>)
    requires
        all_bindable(ref_views(fields@)),
    ensures
        generated matches Ok(text) && text@ == to_row_text(
            krate@,
            generics@,
            ident@,
            table@,
            ref_views(fields@),
        ),
{
    let ghost model = ref_views(fields@);
    let mut params: Vec<String> = Vec::new();
    let mut columns: Vec<String> = Vec::new();
    let mut values: Vec<String> = Vec::new();
    let mut sql_types: Vec<String> = Vec::new();
    let mut i: usize = 0;
    while i < fields.len()
        invariant
            i <= fields.len(),
            model == ref_views(fields@),
            all_bindable(model),
            params@.len() == i,
            columns@.len() == i,
            values@.len() == i,
            sql_types@.len() == i,
            forall|j: int| 0 <= j < i ==> (#[trigger] params@[j])@ == model[j].param_ty(),
            forall|j: int| 0 <= j < i ==> (#[trigger] columns@[j])@ == model[j].column_name(),
            forall|j: int| 0 <= j < i ==> (#[trigger] values@[j])@ == model[j].param_ref(),
            forall|j: int|
                0 <= j < i ==> (#[trigger] sql_types@[j])@ == sql_type_entry_text(
                    krate@,
                    model[j].ty.tokens,
                    model[j].primary_key,
                ),
        decreases fields.len() - i,
    {
        let field = fields[i];
        assert(field@ == model[i as int]);
        assert(model[i as int].is_bindable());
        params.push(field.param_ty()?);
        columns.push(field.column_name());
        values.push(field.param_ref()?);
        sql_types.push(sql_type_entry(krate, field.ty.tokens.as_str(), field.is_primary_key()));
        i += 1;
    }
    assert(views(params@) =~= Seq::new(model.len(), |i: int| model[i].param_ty()));
    assert(views(columns@) =~= Seq::new(model.len(), |i: int| model[i].column_name()));
    assert(views(values@) =~= Seq::new(model.len(), |i: int| model[i].param_ref()));
    assert(views(sql_types@) =~= Seq::new(
        model.len(),
        |i: int| sql_type_entry_text(krate@, model[i].ty.tokens, model[i].primary_key),
    ));
    Ok(to_row_impl(krate, generics, ident, table, &params, &columns, &values, &sql_types))
}

/// What `heck` makes of `name` in snake case: its words in lower case, with
/// one underscore between them.
pub uninterp spec fn snake_case(name: Seq<char>) -> Seq<char>;

/// `heck::ToSnakeCase::to_snake_case` on a string slice. The contract gives
/// the result a name and claims nothing else of it.
#[verifier::external_body]
pub(crate) fn to_snake_case(name: &str) -> (snake: String)
    ensures
        snake@ == snake_case(name@),
{
    name.to_snake_case()
}

/// Main struct for deriving `ToRow` for a struct.
#[derive(Debug)]
pub struct DeriveToRow {
    /// The struct's name.
    pub ident: String,
    /// The struct's generics.
    pub generics: Generics,
    /// The struct's fields, in the order of their declaration.
    pub data: Vec<SqliteField>,
}

/// A `DeriveToRow` in contracts.
pub struct DeriveToRowView {
    pub ident: Seq<char>,
    pub generics: GenericsView,
    pub data: Seq<SqliteFieldView>,
}

impl View for DeriveToRow {
    type V = DeriveToRowView;

    open spec fn view(&self) -> DeriveToRowView {
        DeriveToRowView {
            ident: self.ident@,
            generics: self.generics@,
            data: field_views(self.data@),
        }
    }
}

impl DeriveToRowView {
    /// The fields that become columns: those not marked `skip`.
    pub open spec fn fields(self) -> Seq<SqliteFieldView> {
        mapped(self.data)
    }

    /// Whether an implementation can be generated: every field that becomes a
    /// column can be bound.
    pub open spec fn can_generate(self) -> bool {
        all_bindable(self.fields())
    }

    /// The implementation of `rusqlite_mapper::ToRow` that maps the struct to
    /// `table`.
    pub open spec fn impl_text(self, table: Seq<char>) -> Seq<char> {
        to_row_text("rusqlite_mapper"@, self.generics, self.ident, table, self.fields())
    }
}

impl DeriveToRow {
    /// Provides this struct's fields, without those marked `skip`.
    pub fn fields(&self) -> (fields: Vec<&SqliteField>)
        ensures
            ref_views(fields@) == self@.fields(),
    {
        unskipped(&self.data)
    }

    /// Tells whether `generate` accepts this struct.
    pub fn can_generate(&self) -> (accepted: bool)
        ensures
            accepted == self@.can_generate(),
    {
        are_bindable(&self.fields())
    }

    /// Generate the `ToRow` implementation that maps the struct to `table`.
    pub fn generate_for_table(&self, table: &str) -> (generated: Result<String, DeriveError>)
        requires
            self@.can_generate(),
        ensures
            generated matches Ok(text) && text@ == self@.impl_text(table@),
    {
        let fields = self.fields();
        to_row_for("rusqlite_mapper", &self.generics, self.ident.as_str(), table, &fields)
    }

    /// Generate the `ToRow` implementation. The table is named after the
    /// struct, in snake case.
    pub fn generate(self) -> (generated: Result<String, DeriveError>)
        requires
            self@.can_generate(),
        ensures
            generated matches Ok(text) && text@ == self@.impl_text(snake_case(self@.ident)),
    {
        let table_name = to_snake_case(self.ident.as_str());
        self.generate_for_table(table_name.as_str())
    }
}

} // verus!
