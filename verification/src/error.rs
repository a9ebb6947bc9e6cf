//! What can go wrong, and how it is told to a caller.
//!
//! A document that does not fit its target shape gives a [`ConversionError`];
//! the record is left out and nothing else happens. A store that cannot be
//! reached or a query that fails gives a [`FetchError`], which reaches the
//! caller as a [`FieldError`].

use vstd::prelude::*;

verus! {

/// Why a field of a document does not fit.
#[derive(Clone, Copy, Debug, PartialEq, Eq, Structural)]
pub enum Reason {
    /// The document has no field of that name.
    Missing,
    /// The field is there, but its value has another type.
    Mismatch,
}

/// A document does not fit a target shape: the field at fault, and why.
#[derive(Clone, Debug, PartialEq, Eq)]
pub struct ConversionError {
    pub field: String,
    pub reason: Reason,
}

/// Mathematical model of [`ConversionError`].
pub struct Failure {
    pub field: Seq<char>,
    pub reason: Reason,
}

impl View for ConversionError {
    type V = Failure;

    open spec fn view(&self) -> Failure {
        Failure { field: self.field@, reason: self.reason }
    }
}

/// The text that tells of a failure.
pub open spec fn failure_text(failure: Failure) -> Seq<char> {
    match failure.reason {
        Reason::Missing => "missing field `"@ + failure.field + "`"@,
        Reason::Mismatch => "invalid type for field `"@ + failure.field + "`"@,
    }
}

impl ConversionError {
    /// A line that tells which field was at fault, and why.
    pub fn message(&self) -> (text: String)
        ensures
            text@ == failure_text(self@),
    {
        let mut text = match self.reason {
            Reason::Missing => "missing field `".to_owned(),
            Reason::Mismatch => "invalid type for field `".to_owned(),
        };
        text.append(self.field.as_str());
        text.append("`");
        text
    }
}

/// A whole fetch failed. Each variant carries the cause as text.
#[derive(Clone, Debug, PartialEq, Eq)]
pub enum FetchError {
    /// The store could not be reached, or the connection string is invalid.
    Connection(String),
    /// The find operation itself failed.
    Query(String),
}

/// Mathematical model of [`FetchError`].
pub enum FetchFailure {
    Connection(Seq<char>),
    Query(Seq<char>),
}

impl View for FetchError {
    type V = FetchFailure;

    open spec fn view(&self) -> FetchFailure {
        match self {
            FetchError::Connection(cause) => FetchFailure::Connection(cause@),
            FetchError::Query(cause) => FetchFailure::Query(cause@),
        }
    }
}

impl FetchFailure {
    /// The cause that the failure carries.
    pub open spec fn cause(self) -> Seq<char> {
        match self {
            FetchFailure::Connection(cause) => cause,
            FetchFailure::Query(cause) => cause,
        }
    }
}

impl FetchError {
    /// The cause that the failure carries.
    pub fn cause(&self) -> (text: &String)
        ensures
            text@ == self@.cause(),
    {
        match self {
            FetchError::Connection(cause) => cause,
            FetchError::Query(cause) => cause,
        }
    }
}

/// An error attached to one field of a response: a short message for people,
/// and the cause of the failure as details.
#[derive(Clone, Debug, PartialEq, Eq)]
pub struct FieldError {
    pub message: String,
    pub details: String,
}

/// Mathematical model of [`FieldError`].
pub struct FieldFailure {
    pub message: Seq<char>,
    pub details: Seq<char>,
}

impl View for FieldError {
    type V = FieldFailure;

    open spec fn view(&self) -> FieldFailure {
        FieldFailure { message: self.message@, details: self.details@ }
    }
}

/// The field error that tells of a failed fetch under a given message.
pub open spec fn field_failure(message: Seq<char>, failure: FetchFailure) -> FieldFailure {
    FieldFailure { message, details: failure.cause() }
}

impl FieldError {
    /// The field error that tells of a failed fetch under a given message.
    pub fn new(message: &str, error: &FetchError) -> (made: FieldError)
        ensures
            made@ == field_failure(message@, error@),
    {
        FieldError { message: message.to_owned(), details: error.cause().clone() }
    }
}

} // verus!
