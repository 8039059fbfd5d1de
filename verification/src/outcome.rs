//! How a resolution ends: with a secret, without one, or with a failure
//! that the caller must not pass over.

use vstd::prelude::*;

verus! {

/// What a resolution found.
///
/// The empty text is a value like any other. That no value could be had is
/// told apart from it, and is no failure: the caller decides what follows.
#[derive(Clone, Debug, PartialEq, Eq)]
pub enum ResolvedSecret {
    /// The secret, without the white space that the output channel put around it.
    Value(String),
    /// The tool gave no value.
    Absent,
}

/// A `ResolvedSecret` as text.
pub enum SecretView {
    Value(Seq<char>),
    Absent,
}

impl View for ResolvedSecret {
    type V = SecretView;

    open spec fn view(&self) -> SecretView {
        match *self {
            ResolvedSecret::Value(text) => SecretView::Value(text@),
            ResolvedSecret::Absent => SecretView::Absent,
        }
    }
}

impl SecretView {
    /// The value, if there is one.
    pub open spec fn value(self) -> Option<Seq<char>> {
        match self {
            SecretView::Value(text) => Some(text),
            SecretView::Absent => None,
        }
    }
}

impl ResolvedSecret {
    /// Gives the value, or `None` where there is none.
    pub fn into_option(self) -> (r: Option<String>)
        ensures
            r.deep_view() == self@.value(),
    {
        match self {
            ResolvedSecret::Value(text) => Some(text),
            ResolvedSecret::Absent => None,
        }
    }
}

/// Why a resolution could not be carried out. Each of these is fatal: none
/// means that the secret does not exist.
#[derive(Clone, Debug, PartialEq, Eq)]
pub enum ResolutionError {
    /// The tool is not driven on this operating system.
    UnsupportedPlatform,
    /// The tool could not be started.
    ToolMissing,
    /// The tool ran but complained, in these words.
    ToolError(String),
    /// The tool wrote bytes that are not well-formed UTF-8.
    DecodeError,
}

/// A `ResolutionError` as text.
pub enum ErrorView {
    UnsupportedPlatform,
    ToolMissing,
    ToolError(Seq<char>),
    DecodeError,
}

impl View for ResolutionError {
    type V = ErrorView;

    open spec fn view(&self) -> ErrorView {
        match *self {
            ResolutionError::UnsupportedPlatform => ErrorView::UnsupportedPlatform,
            ResolutionError::ToolMissing => ErrorView::ToolMissing,
            ResolutionError::ToolError(message) => ErrorView::ToolError(message@),
            ResolutionError::DecodeError => ErrorView::DecodeError,
        }
    }
}

impl ErrorView {
    /// The diagnostic for this failure. A complaint of the tool is given in
    /// the tool's own words.
    pub open spec fn message(self) -> Seq<char> {
        match self {
            ErrorView::UnsupportedPlatform => "Unsupported OS!"@,
            ErrorView::ToolMissing => "1Password CLI is not installed!"@,
            ErrorView::ToolError(message) => message,
            ErrorView::DecodeError => "1Password CLI output is not valid UTF-8!"@,
        }
    }
}

impl ResolutionError {
    /// Returns the diagnostic for this failure.
    pub fn message(&self) -> (r: String)
        ensures
            r@ == self@.message(),
    {
        match self {
            ResolutionError::UnsupportedPlatform => "Unsupported OS!".to_owned(),
            ResolutionError::ToolMissing => "1Password CLI is not installed!".to_owned(),
            ResolutionError::ToolError(message) => message.clone(),
            ResolutionError::DecodeError => "1Password CLI output is not valid UTF-8!".to_owned(),
        }
    }
}

/// How a resolution ended.
pub type Outcome = Result<ResolvedSecret, ResolutionError>;

/// An `Outcome` as text.
pub type OutcomeView = Result<SecretView, ErrorView>;

/// The text view of a result: that of its value or that of its error.
pub open spec fn result_view<T: View, E: View>(result: Result<T, E>) -> Result<T::V, E::V> {
    match result {
        Ok(value) => Ok(value@),
        Err(error) => Err(error@),
    }
}

} // verus!
