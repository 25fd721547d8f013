//! The ways in which a declaration of conflicts can be malformed.

use vstd::prelude::*;

verus! {

/// Why a conflict set or a conflict item was rejected.
#[derive(Debug, Clone, Copy, PartialEq, Eq, Structural)]
pub enum ConflictError {
    /// A set was declared with no items.
    ZeroItems,
    /// A set was declared with exactly one item.
    OneItem,
    /// A record that must name its package has no `package` field.
    MissingPackage,
    /// A record has neither an `extra` nor a `group` field.
    MissingExtraAndGroup,
    /// A record has both an `extra` and a `group` field.
    FoundExtraAndGroup,
}

/// The text that describes an error to a reader.
pub open spec fn error_text(error: ConflictError) -> Seq<char> {
    match error {
        ConflictError::ZeroItems => {
            "Each set of conflicts must have at least two entries, but found none"@
        },
        ConflictError::OneItem => {
            "Each set of conflicts must have at least two entries, but found only one"@
        },
        ConflictError::MissingPackage => "Expected `package` field in conflicting entry"@,
        ConflictError::MissingExtraAndGroup => {
            "Expected `extra` or `group` field in conflicting entry"@
        },
        ConflictError::FoundExtraAndGroup => {
            "Expected one of `extra` or `group` in conflicting entry, but found both"@
        },
    }
}

impl ConflictError {
    /// A sentence that describes this error.
    pub fn message(&self) -> (text: String)
        ensures
            text@ == error_text(*self),
    {
        match self {
            ConflictError::ZeroItems => {
                "Each set of conflicts must have at least two entries, but found none".to_owned()
            },
            ConflictError::OneItem => {
                "Each set of conflicts must have at least two entries, but found only one"
                    .to_owned()
            },
            ConflictError::MissingPackage => {
                "Expected `package` field in conflicting entry".to_owned()
            },
            ConflictError::MissingExtraAndGroup => {
                "Expected `extra` or `group` field in conflicting entry".to_owned()
            },
            ConflictError::FoundExtraAndGroup => {
                "Expected one of `extra` or `group` in conflicting entry, but found both".to_owned()
            },
        }
    }
}

} // verus!
