//! A struct's fields as the generators read them: the field's name, the shape
//! and text of its type, and its attributes.

use vstd::prelude::*;

verus! {

/// One argument between the angle brackets of a path segment.
#[derive(Debug)]
pub enum GenericArgument {
    /// A type, as its tokens.
    Type(String),
    /// A lifetime, a constant, a binding or a constraint.
    Other,
}

/// What follows the identifier of a path segment.
#[derive(Debug)]
pub enum PathArguments {
    /// Nothing, as in `String`.
    Absent,
    /// `<..>`, as in `Vec<u8>`.
    AngleBracketed(Vec<GenericArgument>),
    /// `(..) -> ..`, as in `Fn(u8) -> bool`.
    Parenthesized,
}

/// One segment of a type path: an identifier and its arguments.
#[derive(Debug)]
pub struct PathSegment {
    /// The segment's identifier, as it prints.
    pub ident: String,
    /// What follows the identifier.
    pub arguments: PathArguments,
}

/// The outermost form of a type.
#[derive(Debug)]
pub enum TypeShape {
    /// A path such as `std::vec::Vec<u8>`, as its segments in order.
    Path(Vec<PathSegment>),
    /// Any other type: a reference, a tuple, an array and so on.
    Other,
}

/// A field's type: its tokens as text, and its outermost form.
#[derive(Debug)]
pub struct FieldType {
    /// The type's tokens, as they print.
    pub tokens: String,
    /// The type's outermost form.
    pub shape: TypeShape,
}

/// A `GenericArgument` in contracts: its strings as sequences of characters.
pub enum GenericArgumentView {
    Type(Seq<char>),
    Other,
}

/// `PathArguments` in contracts.
pub enum PathArgumentsView {
    Absent,
    AngleBracketed(Seq<GenericArgumentView>),
    Parenthesized,
}

/// A `PathSegment` in contracts.
pub struct PathSegmentView {
    pub ident: Seq<char>,
    pub arguments: PathArgumentsView,
}

/// A `TypeShape` in contracts.
pub enum TypeShapeView {
    Path(Seq<PathSegmentView>),
    Other,
}

/// A `FieldType` in contracts.
pub struct FieldTypeView {
    pub tokens: Seq<char>,
    pub shape: TypeShapeView,
}

impl View for GenericArgument {
    type V = GenericArgumentView;

    open spec fn view(&self) -> GenericArgumentView {
        match self {
            GenericArgument::Type(tokens) => GenericArgumentView::Type(tokens@),
            GenericArgument::Other => GenericArgumentView::Other,
        }
    }
}

impl View for PathArguments {
    type V = PathArgumentsView;

    open spec fn view(&self) -> PathArgumentsView {
        match self {
            PathArguments::Absent => PathArgumentsView::Absent,
            PathArguments::AngleBracketed(args) => PathArgumentsView::AngleBracketed(
                Seq::new(args@.len(), |i: int| args@[i]@),
            ),
            PathArguments::Parenthesized => PathArgumentsView::Parenthesized,
        }
    }
}

impl View for PathSegment {
    type V = PathSegmentView;

    open spec fn view(&self) -> PathSegmentView {
        PathSegmentView { ident: self.ident@, arguments: self.arguments@ }
    }
}

impl View for TypeShape {
    type V = TypeShapeView;

    open spec fn view(&self) -> TypeShapeView {
        match self {
            TypeShape::Path(segments) => TypeShapeView::Path(
                Seq::new(segments@.len(), |i: int| segments@[i]@),
            ),
            TypeShape::Other => TypeShapeView::Other,
        }
    }
}

impl View for FieldType {
    type V = FieldTypeView;

    open spec fn view(&self) -> FieldTypeView {
        FieldTypeView { tokens: self.tokens@, shape: self.shape@ }
    }
}

/// A single field inside of a struct that derives a row mapping.
#[derive(Debug)]
pub struct SqliteField {
    /// The identifier of this field.
    pub ident: Option<String>,
    /// The type specified in this field.
    pub ty: FieldType,
    /// Whether to flatten this field: to read it through the row mapping of
    /// its own type instead of reading one column.
    pub flatten: bool,
    /// Can only be used in combination with flatten. Will prefix all fields of
    /// the nested struct with this string. Can be useful for joins with
    /// overlapping names.
    pub prefix: Option<String>,
    /// Optionally read this type from the row, and then convert it to the
    /// field's type with `TryFrom::try_from`.
    pub try_from: Option<String>,
    /// Optionally read this type from the row, and then convert it to the
    /// field's type with `From::from`.
    pub from: Option<String>,
    /// Override the name of the actual sql column instead of using the
    /// identifier. Is not compatible with `flatten` since no column is needed
    /// there.
    pub rename: Option<String>,
    /// Indicates that this field is the primary key of the table.
    pub primary_key: bool,
    /// Ignore this field for any SQL related operations: it is no column, is
    /// neither read nor bound, and needs no valid attributes; where a struct is
    /// built from a row, the field gets its default.
    pub skip: bool,
    /// Hand this field to the database by value, not by reference.
    pub value: bool,
}

/// A `SqliteField` in contracts: the same attributes, with each string as a
/// sequence of characters.
pub struct SqliteFieldView {
    pub ident: Option<Seq<char>>,
    pub ty: FieldTypeView,
    pub flatten: bool,
    pub prefix: Option<Seq<char>>,
    pub try_from: Option<Seq<char>>,
    pub from: Option<Seq<char>>,
    pub rename: Option<Seq<char>>,
    pub primary_key: bool,
    pub skip: bool,
    pub value: bool,
}

/// The text of an optional string.
pub open spec fn text_of(s: Option<String>) -> Option<Seq<char>> {
    match s {
        Some(s) => Some(s@),
        None => None,
    }
}

impl View for SqliteField {
    type V = SqliteFieldView;

    open spec fn view(&self) -> SqliteFieldView {
        SqliteFieldView {
            ident: text_of(self.ident),
            ty: self.ty@,
            flatten: self.flatten,
            prefix: text_of(self.prefix),
            try_from: text_of(self.try_from),
            from: text_of(self.from),
            rename: text_of(self.rename),
            primary_key: self.primary_key,
            skip: self.skip,
            value: self.value,
        }
    }
}

/// The column that a field maps to: the `rename` attribute where there is
/// one, else the field's identifier.
pub open spec fn column_name_text(rename: Option<Seq<char>>, ident: Option<Seq<char>>) -> Seq<char>
    recommends
        rename is Some || ident is Some,
{
    match rename {
        Some(name) => name,
        None => ident->0,
    }
}

impl SqliteFieldView {
    /// The name of the sql column that this field maps to.
    pub open spec fn column_name(self) -> Seq<char>
        recommends
            self.rename is Some || self.ident is Some,
    {
        column_name_text(self.rename, self.ident)
    }
}

/// Returns the column that a field with this `rename` attribute and this
/// identifier maps to.
pub fn column_name_of(rename: &Option<String>, ident: &Option<String>) -> (name: String)
    requires
        rename is Some || ident is Some,
    ensures
        name@ == column_name_text(text_of(*rename), text_of(*ident)),
{
    match rename {
        Some(name) => name.clone(),
        None => ident.as_ref().unwrap().clone(),
    }
}

impl SqliteField {
    /// Returns the name that maps to the actual sql column.
    /// By default this is the same as the rust field name but can be
    /// overwritten by the `rename` attribute.
    pub fn column_name(&self) -> (name: String)
        requires
            self.rename is Some || self.ident is Some,
        ensures
            name@ == self@.column_name(),
    {
        column_name_of(&self.rename, &self.ident)
    }

    /// Tells whether this field is the primary key of the table.
    pub fn is_primary_key(&self) -> (primary_key: bool)
        ensures
            primary_key == self@.primary_key,
    {
        self.primary_key
    }
}

/// The views of a list of fields, in order.
pub open spec fn field_views(fields: Seq<SqliteField>) -> Seq<SqliteFieldView> {
    Seq::new(fields.len(), |i: int| fields[i]@)
}

/// The views of the fields that a list refers to, in order.
pub open spec fn ref_views(fields: Seq<&SqliteField>) -> Seq<SqliteFieldView> {
    Seq::new(fields.len(), |i: int| fields[i]@)
}

/// The fields that take part in a mapping: those not marked `skip`, in order.
pub open spec fn mapped(data: Seq<SqliteFieldView>) -> Seq<SqliteFieldView> {
    data.filter(|field: SqliteFieldView| !field.skip)
}

/// A field that is added at the end takes part unless it is marked `skip`.
pub proof fn lemma_mapped_push(data: Seq<SqliteFieldView>, field: SqliteFieldView)
    ensures
        mapped(data.push(field)) == if field.skip {
            mapped(data)
        } else {
            mapped(data).push(field)
        },
{
    reveal(Seq::filter);
    assert(data.push(field).drop_last() =~= data);
}

/// The fields of `data` that are not marked `skip`, in order.
pub fn unskipped(data: &Vec<SqliteField>) -> (fields: Vec<&SqliteField>)
    ensures
        ref_views(fields@) == mapped(field_views(data@)),
{
    let mut fields: Vec<&SqliteField> = Vec::new();
    let mut i: usize = 0;
    while i < data.len()
        invariant
            i <= data.len(),
            ref_views(fields@) == mapped(field_views(data@.take(i as int))),
        decreases data.len() - i,
    {
        proof {
            let before = field_views(data@.take(i as int));
            assert(field_views(data@.take(i + 1)) =~= before.push(data@[i as int]@));
            lemma_mapped_push(before, data@[i as int]@);
        }
        if !data[i].skip {
            assert(ref_views(fields@.push(&data@[i as int])) =~= ref_views(fields@).push(
                data@[i as int]@,
            ));
            fields.push(&data[i]);
        }
        i += 1;
    }
    assert(data@.take(i as int) =~= data@);
    fields
}

} // verus!
