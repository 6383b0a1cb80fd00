//! The failures a search can meet, by kind.

use vstd::prelude::*;

verus! {

/// A failure, with the line that reports it.
#[derive(Clone, Debug, PartialEq, Eq)]
pub enum SearchError {
    /// The pattern did not compile. Fatal: nothing is searched.
    Config { message: String },
    /// A requested path could not be resolved.
    Path { path: String, message: String },
    /// A resolved path could not be opened.
    Open { path: String, message: String },
    /// Reading a file failed before its end.
    Io { path: String, message: String },
}

/// The view of a [`SearchError`].
pub enum SearchErrorView {
    Config { message: Seq<char> },
    Path { path: Seq<char>, message: Seq<char> },
    Open { path: Seq<char>, message: Seq<char> },
    Io { path: Seq<char>, message: Seq<char> },
}

impl View for SearchError {
    type V = SearchErrorView;

    open spec fn view(&self) -> SearchErrorView {
        match self {
            SearchError::Config { message } => SearchErrorView::Config { message: message@ },
            SearchError::Path { path, message } => SearchErrorView::Path {
                path: path@,
                message: message@,
            },
            SearchError::Open { path, message } => SearchErrorView::Open {
                path: path@,
                message: message@,
            },
            SearchError::Io { path, message } => SearchErrorView::Io {
                path: path@,
                message: message@,
            },
        }
    }
}

impl SearchErrorView {
    /// The line that reports the failure.
    pub open spec fn message(self) -> Seq<char> {
        match self {
            SearchErrorView::Config { message } => message,
            SearchErrorView::Path { message, .. } => message,
            SearchErrorView::Open { message, .. } => message,
            SearchErrorView::Io { message, .. } => message,
        }
    }

    /// Whether the failure stops the whole run. Only a pattern that does not
    /// compile does; every other failure concerns one input.
    pub open spec fn is_fatal(self) -> bool {
        self is Config
    }
}

impl SearchError {
    /// The line that reports the failure.
    pub fn to_string(&self) -> (line: String)
        ensures
            line@ == self@.message(),
    {
        match self {
            SearchError::Config { message } => message.clone(),
            SearchError::Path { message, .. } => message.clone(),
            SearchError::Open { message, .. } => message.clone(),
            SearchError::Io { message, .. } => message.clone(),
        }
    }

    /// A copy of the failure.
    pub fn duplicate(&self) -> (copy: SearchError)
        ensures
            copy@ == self@,
    {
        match self {
            SearchError::Config { message } => SearchError::Config { message: message.clone() },
            SearchError::Path { path, message } => SearchError::Path {
                path: path.clone(),
                message: message.clone(),
            },
            SearchError::Open { path, message } => SearchError::Open {
                path: path.clone(),
                message: message.clone(),
            },
            SearchError::Io { path, message } => SearchError::Io {
                path: path.clone(),
                message: message.clone(),
            },
        }
    }

    /// Whether the failure stops the whole run.
    pub fn is_fatal(&self) -> (fatal: bool)
        ensures
            fatal == self@.is_fatal(),
    {
        match self {
            SearchError::Config { .. } => true,
            _ => false,
        }
    }
}

} // verus!
