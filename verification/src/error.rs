//! The errors of the projection pipeline and the text that each one displays.

use vstd::prelude::*;
use vstd::string::*;

verus! {

/// What is wrong with a property that an extractor was asked for.
#[derive(Clone, Copy, Debug, PartialEq, Eq)]
pub enum SchemaProblem {
    /// The row has no property of that name.
    Missing,
    /// The property is there, but of another kind than the one expected.
    WrongKind,
    /// The property is of the expected kind and carries no value.
    Empty,
    /// The value lacks its identifier or its name.
    Incomplete,
}

/// The four kinds that every error falls under.
#[derive(Clone, Copy, Debug, PartialEq, Eq)]
pub enum ErrorKind {
    RemoteStore,
    Configuration,
    SchemaMismatch,
    Referential,
}

/// An error of the pipeline.
#[derive(Debug, PartialEq, Eq)]
pub enum Error {
    /// The remote store failed: network, authorisation, a malformed answer.
    Notion { message: String },
    /// The credential is not in the process environment.
    Environment { message: String },
    /// The environment file could not be loaded.
    Dotenv { message: String },
    /// The search found no database.
    NoDatabase,
    /// A property is absent or does not have the expected shape.
    SchemaMismatch { property: String, problem: SchemaProblem },
    /// The row that a relation refers to could not be fetched.
    Referential { reference: String, message: String },
}

pub enum ErrorView {
    Notion { message: Seq<char> },
    Environment { message: Seq<char> },
    Dotenv { message: Seq<char> },
    NoDatabase,
    SchemaMismatch { property: Seq<char>, problem: SchemaProblem },
    Referential { reference: Seq<char>, message: Seq<char> },
}

impl DeepView for Error {
    type V = ErrorView;

    open spec fn deep_view(&self) -> ErrorView {
        match *self {
            Error::Notion { message } => ErrorView::Notion { message: message@ },
            Error::Environment { message } => ErrorView::Environment { message: message@ },
            Error::Dotenv { message } => ErrorView::Dotenv { message: message@ },
            Error::NoDatabase => ErrorView::NoDatabase,
            Error::SchemaMismatch { property, problem } => ErrorView::SchemaMismatch {
                property: property@,
                problem,
            },
            Error::Referential { reference, message } => ErrorView::Referential {
                reference: reference@,
                message: message@,
            },
        }
    }
}

impl View for Error {
    type V = ErrorView;

    open spec fn view(&self) -> ErrorView {
        self.deep_view()
    }
}

/// The view of a result whose error is an [`Error`].
pub open spec fn viewed<T: DeepView>(result: Result<T, Error>) -> Result<T::V, ErrorView> {
    match result {
        Ok(value) => Ok(value.deep_view()),
        Err(error) => Err(error@),
    }
}

/// The words that name a schema problem in an error's text.
pub open spec fn problem_text(problem: SchemaProblem) -> Seq<char> {
    match problem {
        SchemaProblem::Missing => "is missing"@,
        SchemaProblem::WrongKind => "is of another kind"@,
        SchemaProblem::Empty => "has no value"@,
        SchemaProblem::Incomplete => "lacks its id or its name"@,
    }
}

impl ErrorView {
    /// The kind that the error falls under.
    pub open spec fn kind(self) -> ErrorKind {
        match self {
            ErrorView::Notion { .. } => ErrorKind::RemoteStore,
            ErrorView::Environment { .. } => ErrorKind::Configuration,
            ErrorView::Dotenv { .. } => ErrorKind::Configuration,
            ErrorView::NoDatabase => ErrorKind::SchemaMismatch,
            ErrorView::SchemaMismatch { .. } => ErrorKind::SchemaMismatch,
            ErrorView::Referential { .. } => ErrorKind::Referential,
        }
    }

    /// The text that the error displays. A failed fetch of a referenced row
    /// reads as any other failure of the remote store does.
    pub open spec fn message(self) -> Seq<char> {
        match self {
            ErrorView::Notion { message } => "Notion error: "@ + message,
            ErrorView::Environment { message } => "Environment error: "@ + message,
            ErrorView::Dotenv { message } => "Dotenv error: "@ + message,
            ErrorView::NoDatabase => "Schema error: no database found"@,
            ErrorView::SchemaMismatch { property, problem } => "Schema error: property "@
                + property + " "@ + problem_text(problem),
            ErrorView::Referential { reference, message } => "Notion error: "@ + message,
        }
    }
}

/// The words for a schema problem.
fn problem_words(problem: SchemaProblem) -> (words: &'static str)
    ensures
        words@ == problem_text(problem),
{
    match problem {
        SchemaProblem::Missing => "is missing",
        SchemaProblem::WrongKind => "is of another kind",
        SchemaProblem::Empty => "has no value",
        SchemaProblem::Incomplete => "lacks its id or its name",
    }
}

/// `prefix` followed by `rest`.
fn prefixed(prefix: &str, rest: &str) -> (text: String)
    ensures
        text@ == prefix@ + rest@,
{
    let mut text = String::from_str(prefix);
    text.append(rest);
    text
}

impl Error {
    /// The kind that the error falls under.
    pub fn kind(&self) -> (kind: ErrorKind)
        ensures
            kind == self@.kind(),
    {
        match self {
            Error::Notion { .. } => ErrorKind::RemoteStore,
            Error::Environment { .. } => ErrorKind::Configuration,
            Error::Dotenv { .. } => ErrorKind::Configuration,
            Error::NoDatabase => ErrorKind::SchemaMismatch,
            Error::SchemaMismatch { .. } => ErrorKind::SchemaMismatch,
            Error::Referential { .. } => ErrorKind::Referential,
        }
    }

    /// The text that the error displays.
    pub fn message(&self) -> (text: String)
        ensures
            text@ == self@.message(),
    {
        match self {
            Error::Notion { message } => prefixed("Notion error: ", message.as_str()),
            Error::Environment { message } => prefixed("Environment error: ", message.as_str()),
            Error::Dotenv { message } => prefixed("Dotenv error: ", message.as_str()),
            Error::NoDatabase => String::from_str("Schema error: no database found"),
            Error::SchemaMismatch { property, problem } => {
                let mut text = prefixed("Schema error: property ", property.as_str());
                text.append(" ");
                text.append(problem_words(*problem));
                text
            },
            Error::Referential { reference, message } => prefixed(
                "Notion error: ",
                message.as_str(),
            ),
        }
    }
}

} // verus!
