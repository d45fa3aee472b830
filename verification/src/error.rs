//! The two kinds of failure that a repository operation reports.

use vstd::prelude::*;
use vstd::string::StringExecFns;
use crate::decimal::append_decimal;
use crate::decimal::decimal;

verus! {

/// What a [`RepositoryError`] is, as a mathematical value.
pub enum ErrorView {
    Unexpected(Seq<char>),
    NotFound(i32),
}

/// Why a repository operation failed.
#[derive(Debug)]
pub enum RepositoryError {
    /// A fault of the backend, with its description.
    Unexpected(String),
    /// No record has this id.
    NotFound(i32),
}

impl View for RepositoryError {
    type V = ErrorView;

    open spec fn view(&self) -> ErrorView {
        match self {
            RepositoryError::Unexpected(description) => ErrorView::Unexpected(description@),
            RepositoryError::NotFound(id) => ErrorView::NotFound(*id),
        }
    }
}

/// The message of a failure: for a fault its description in square brackets
/// after `Unexpected Error `, for a missing record its id in decimal after
/// `NotFound, id is `.
pub open spec fn message_of(error: ErrorView) -> Seq<char> {
    match error {
        ErrorView::Unexpected(description) => "Unexpected Error ["@ + description + "]"@,
        ErrorView::NotFound(id) => "NotFound, id is "@ + decimal(id as int),
    }
}

impl RepositoryError {
    /// The failure in words.
    pub fn message(&self) -> (text: String)
        ensures
            text@ == message_of(self@),
    {
        match self {
            RepositoryError::Unexpected(description) => {
                let mut text = "Unexpected Error [".to_owned();
                text.append(description.as_str());
                text.append("]");
                text
            },
            RepositoryError::NotFound(id) => {
                let mut text = "NotFound, id is ".to_owned();
                append_decimal(&mut text, *id);
                text
            },
        }
    }
}

impl Clone for RepositoryError {
    fn clone(&self) -> (copy: Self)
        ensures
            copy == *self,
    {
        match self {
            RepositoryError::Unexpected(description) => RepositoryError::Unexpected(
                description.clone(),
            ),
            RepositoryError::NotFound(id) => RepositoryError::NotFound(*id),
        }
    }
}

impl PartialEq for RepositoryError {
    fn eq(&self, other: &Self) -> (equal: bool) {
        match (self, other) {
            (RepositoryError::Unexpected(mine), RepositoryError::Unexpected(theirs)) => *mine
                == *theirs,
            (RepositoryError::NotFound(mine), RepositoryError::NotFound(theirs)) => *mine
                == *theirs,
            _ => false,
        }
    }
}

impl Eq for RepositoryError {

}

impl vstd::std_specs::cmp::PartialEqSpecImpl for RepositoryError {
    open spec fn obeys_eq_spec() -> bool {
        true
    }

    open spec fn eq_spec(&self, other: &Self) -> bool {
        self@ == other@
    }
}

} // verus!
