//! The generics of the struct that a derive is applied to.

use crate::text::{join, joined, views};
use vstd::prelude::*;

verus! {

/// A struct's generics, split for use in an `impl` header. Each part is the
/// text of its tokens; a part that the struct does not have is empty.
#[derive(Debug)]
pub struct Generics {
    /// The parameters with their bounds, as they follow `impl`.
    pub impl_generics: String,
    /// The parameters alone, as they follow the struct's name.
    pub ty_generics: String,
    /// The predicates of the struct's `where` clause, one by one and without
    /// the commas between them.
    pub where_predicates: Vec<String>,
}

/// `Generics` in contracts.
pub struct GenericsView {
    pub impl_generics: Seq<char>,
    pub ty_generics: Seq<char>,
    pub where_predicates: Seq<Seq<char>>,
}

impl View for Generics {
    type V = GenericsView;

    open spec fn view(&self) -> GenericsView {
        GenericsView {
            impl_generics: self.impl_generics@,
            ty_generics: self.ty_generics@,
            where_predicates: views(self.where_predicates@),
        }
    }
}

impl GenericsView {
    /// The struct's `where` clause as an implementation for the struct
    /// repeats it: nothing where the struct declares no predicate.
    pub open spec fn where_clause(self) -> Seq<char> {
        if self.where_predicates.len() == 0 {
            Seq::empty()
        } else {
            " where "@ + joined(self.where_predicates, ", "@)
        }
    }
}

impl Generics {
    /// Writes the struct's `where` clause as an implementation for the struct
    /// repeats it.
    pub fn where_clause(&self) -> (text: String)
        ensures
            text@ == self@.where_clause(),
    {
        if self.where_predicates.len() == 0 {
            String::new()
        } else {
            let mut text = String::from_str(" where ");
            text.append(join(&self.where_predicates, ", ").as_str());
            text
        }
    }
}

} // verus!
