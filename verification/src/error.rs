//! Why a derive is refused.

use vstd::prelude::*;

verus! {

/// The reasons for which no implementation is generated.
#[derive(Debug, Clone, Copy, PartialEq, Eq, Structural)]
pub enum DeriveError {
    /// A field carries both `from` and `try_from`.
    ConflictingConversions,
    /// A field carries both `flatten` and `rename`.
    FlattenWithRename,
    /// A value type names neither the string nor the JSON representation.
    MissingRepresentation,
    /// The type named by `from` or `try_from` is not a sequence of tokens.
    UnreadableType,
}

impl DeriveError {
    /// The text of the diagnostic.
    pub open spec fn message_text(self) -> Seq<char> {
        match self {
            DeriveError::ConflictingConversions =>
                "can't combine `#[from_row(from = \"..\")]` with `#[from_row(try_from = \"..\")]`"@,
            DeriveError::FlattenWithRename =>
                "can't combine `#[from_row(flatten)]` with `#[from_row(rename = \"..\")]`"@,
            DeriveError::MissingRepresentation =>
                "must specify one of `#[sqlite(as_string)]` or `#[sqlite(as_json)]`"@,
            DeriveError::UnreadableType => "cannot parse string into token stream"@,
        }
    }

    /// The diagnostic shown to the user of the derive.
    pub fn message(&self) -> (text: String)
        ensures
            text@ == self.message_text(),
    {
        match self {
            DeriveError::ConflictingConversions => String::from_str(
                "can't combine `#[from_row(from = \"..\")]` with `#[from_row(try_from = \"..\")]`",
            ),
            DeriveError::FlattenWithRename => String::from_str(
                "can't combine `#[from_row(flatten)]` with `#[from_row(rename = \"..\")]`",
            ),
            DeriveError::MissingRepresentation => String::from_str(
                "must specify one of `#[sqlite(as_string)]` or `#[sqlite(as_json)]`",
            ),
            DeriveError::UnreadableType => String::from_str(
                "cannot parse string into token stream",
            ),
        }
    }
}

} // verus!
