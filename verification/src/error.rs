//! What can go wrong while a package is loaded or installed.

use vstd::prelude::*;

verus! {

/// A failure of the pipeline. No stage recovers from one: it is handed to
/// the caller as it is.
#[derive(Debug, Clone, PartialEq, Eq)]
pub enum Error {
    /// The manifest of package `name`, whose text is `content`, does not
    /// have the expected shape; `cause` says why.
    SpecParse { name: String, content: String, cause: String },
    /// A directory or a file could not be created, written, copied or
    /// linked.
    Io { cause: String },
    /// The external tool `program` could not be started.
    ProcessSpawn { program: String, cause: String },
}

/// An [`Error`] as a mathematical value.
pub enum ErrorView {
    SpecParse { name: Seq<char>, content: Seq<char>, cause: Seq<char> },
    Io { cause: Seq<char> },
    ProcessSpawn { program: Seq<char>, cause: Seq<char> },
}

impl View for Error {
    type V = ErrorView;

    open spec fn view(&self) -> ErrorView {
        match self {
            Error::SpecParse { name, content, cause } => ErrorView::SpecParse {
                name: name@,
                content: content@,
                cause: cause@,
            },
            Error::Io { cause } => ErrorView::Io { cause: cause@ },
            Error::ProcessSpawn { program, cause } => ErrorView::ProcessSpawn {
                program: program@,
                cause: cause@,
            },
        }
    }
}

impl DeepView for Error {
    type V = ErrorView;

    open spec fn deep_view(&self) -> ErrorView {
        self@
    }
}

impl Error {
    /// The error for a manifest of package `name` whose text `content` could
    /// not be decoded because of `cause`.
    pub fn deserialize_spec(name: &str, content: &str, cause: String) -> (r: Error)
        ensures
            r@ == (ErrorView::SpecParse { name: name@, content: content@, cause: cause@ }),
    {
        Error::SpecParse {
            name: String::from_str(name),
            content: String::from_str(content),
            cause,
        }
    }
}

} // verus!
