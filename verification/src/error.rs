//! Why a view failed.

use vstd::prelude::*;
use vstd::string::*;

verus! {

/// The failure of a view. Conditions that leave something to show are not
/// failures: they stand as notices in the rendered text.
#[derive(Debug, Clone, PartialEq, Eq)]
pub enum ViewError {
    /// The file could not be opened, measured or read.
    Io(String),
    /// The content is not a document of the format, and nothing of it can
    /// be shown.
    Parse(String),
}

/// A failure as a value of specifications.
pub enum ViewErrorModel {
    Io(Seq<char>),
    Parse(Seq<char>),
}

impl View for ViewError {
    type V = ViewErrorModel;

    open spec fn view(&self) -> ViewErrorModel {
        match self {
            ViewError::Io(message) => ViewErrorModel::Io(message@),
            ViewError::Parse(message) => ViewErrorModel::Parse(message@),
        }
    }
}

/// The outcome of a view as a value of specifications.
pub open spec fn outcome_view(outcome: Result<String, ViewError>) -> Result<
    Seq<char>,
    ViewErrorModel,
> {
    match outcome {
        Ok(text) => Ok(text@),
        Err(error) => Err(error@),
    }
}

impl ViewError {
    /// The message of the failure.
    pub fn message(&self) -> (text: &str)
        ensures
            text@ == match self@ {
                ViewErrorModel::Io(message) => message,
                ViewErrorModel::Parse(message) => message,
            },
    {
        match self {
            ViewError::Io(message) => message.as_str(),
            ViewError::Parse(message) => message.as_str(),
        }
    }
}

} // verus!
