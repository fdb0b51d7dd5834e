//! The crate's error type.
use vstd::prelude::*;
use vstd::string::*;

use crate::model::{opt, views};

verus! {

/// Why an input or output operation failed, as far as callers tell it apart.
#[derive(Debug, Clone, Copy, PartialEq, Eq, Structural)]
pub enum IoErrorKind {
    NotFound,
    UnexpectedEof,
    Other,
}

/// What can go wrong when printing.
#[derive(Debug, PartialEq, Eq)]
pub enum PrintError {
    Invalid(String),
    InvalidState(String),
    NotFound(String),
    Conflict(String),
    Backend(String),
    Persistence(String),
    Serialization(String),
    Io(IoErrorKind, String),
}

/// [`PrintError`] with its messages as character sequences.
pub enum PrintErrorView {
    Invalid(Seq<char>),
    InvalidState(Seq<char>),
    NotFound(Seq<char>),
    Conflict(Seq<char>),
    Backend(Seq<char>),
    Persistence(Seq<char>),
    Serialization(Seq<char>),
    Io(IoErrorKind, Seq<char>),
}

impl View for PrintError {
    type V = PrintErrorView;

    open spec fn view(&self) -> PrintErrorView {
        match *self {
            PrintError::Invalid(m) => PrintErrorView::Invalid(m@),
            PrintError::InvalidState(m) => PrintErrorView::InvalidState(m@),
            PrintError::NotFound(m) => PrintErrorView::NotFound(m@),
            PrintError::Conflict(m) => PrintErrorView::Conflict(m@),
            PrintError::Backend(m) => PrintErrorView::Backend(m@),
            PrintError::Persistence(m) => PrintErrorView::Persistence(m@),
            PrintError::Serialization(m) => PrintErrorView::Serialization(m@),
            PrintError::Io(k, m) => PrintErrorView::Io(k, m@),
        }
    }
}

/// The result of an operation of this crate.
pub type PrintResult<T> = core::result::Result<T, PrintError>;

/// What an operation yields: the view of its value, or of its error.
pub open spec fn outcome<T: View>(r: PrintResult<T>) -> core::result::Result<T::V, PrintErrorView> {
    match r {
        Ok(value) => Ok(value@),
        Err(error) => Err(error@),
    }
}

/// What an operation yields that may find nothing.
pub open spec fn optional<T: View>(r: PrintResult<Option<T>>) -> core::result::Result<
    Option<T::V>,
    PrintErrorView,
> {
    match r {
        Ok(value) => Ok(opt(value)),
        Err(error) => Err(error@),
    }
}

/// What an operation yields that gives a list.
pub open spec fn listed<T: View>(r: PrintResult<Vec<T>>) -> core::result::Result<
    Seq<T::V>,
    PrintErrorView,
> {
    match r {
        Ok(values) => Ok(views(values@)),
        Err(error) => Err(error@),
    }
}

/// What an operation yields that gives a plain value.
pub open spec fn plain<T>(r: PrintResult<T>) -> core::result::Result<T, PrintErrorView> {
    match r {
        Ok(value) => Ok(value),
        Err(error) => Err(error@),
    }
}

/// An update in place that either reaches `expected` or reports its error and
/// leaves the value as it was.
pub open spec fn updates<V>(
    before: V,
    after: V,
    r: PrintResult<()>,
    expected: core::result::Result<V, PrintErrorView>,
) -> bool {
    match expected {
        Ok(value) => r is Ok && after == value,
        Err(error) => {
            &&& r matches Err(e) && e@ == error
            &&& after == before
        },
    }
}

impl PrintErrorView {
    /// The stable category of the error, for transports and user interfaces.
    pub open spec fn code(self) -> Seq<char> {
        match self {
            PrintErrorView::Invalid(_) => "print.invalid_argument"@,
            PrintErrorView::InvalidState(_) => "print.failed_precondition"@,
            PrintErrorView::NotFound(_) => "print.not_found"@,
            PrintErrorView::Conflict(_) => "print.conflict"@,
            PrintErrorView::Backend(_) => "print.unavailable"@,
            PrintErrorView::Persistence(_) => "print.internal"@,
            PrintErrorView::Serialization(_) => "print.internal"@,
            PrintErrorView::Io(_, _) => "print.unavailable"@,
        }
    }

    /// The sentence that introduces the message.
    pub open spec fn lead(self) -> Seq<char> {
        match self {
            PrintErrorView::Invalid(_) => "invalid print value: "@,
            PrintErrorView::InvalidState(_) => "print state does not allow this operation: "@,
            PrintErrorView::NotFound(_) => "print resource not found: "@,
            PrintErrorView::Conflict(_) => "print resource already exists: "@,
            PrintErrorView::Backend(_) => "print backend failed: "@,
            PrintErrorView::Persistence(_) => "print persistence failed: "@,
            PrintErrorView::Serialization(_) => "print serialization failed: "@,
            PrintErrorView::Io(_, _) => "print I/O failed: "@,
        }
    }

    /// The message that the error carries.
    pub open spec fn message(self) -> Seq<char> {
        match self {
            PrintErrorView::Invalid(m) => m,
            PrintErrorView::InvalidState(m) => m,
            PrintErrorView::NotFound(m) => m,
            PrintErrorView::Conflict(m) => m,
            PrintErrorView::Backend(m) => m,
            PrintErrorView::Persistence(m) => m,
            PrintErrorView::Serialization(m) => m,
            PrintErrorView::Io(_, m) => m,
        }
    }

    /// The error as a sentence for a person.
    pub open spec fn text(self) -> Seq<char> {
        self.lead() + self.message()
    }
}

impl PrintError {
    /// The stable category of the error, for transports and user interfaces.
    pub fn code(&self) -> (r: &'static str)
        ensures
            r@ == self@.code(),
    {
        match self {
            PrintError::Invalid(_) => "print.invalid_argument",
            PrintError::InvalidState(_) => "print.failed_precondition",
            PrintError::NotFound(_) => "print.not_found",
            PrintError::Conflict(_) => "print.conflict",
            PrintError::Backend(_) => "print.unavailable",
            PrintError::Persistence(_) => "print.internal",
            PrintError::Serialization(_) => "print.internal",
            PrintError::Io(_, _) => "print.unavailable",
        }
    }

    /// The message that the error carries.
    pub fn message(&self) -> (r: &str)
        ensures
            r@ == self@.message(),
    {
        match self {
            PrintError::Invalid(m) => m.as_str(),
            PrintError::InvalidState(m) => m.as_str(),
            PrintError::NotFound(m) => m.as_str(),
            PrintError::Conflict(m) => m.as_str(),
            PrintError::Backend(m) => m.as_str(),
            PrintError::Persistence(m) => m.as_str(),
            PrintError::Serialization(m) => m.as_str(),
            PrintError::Io(_, m) => m.as_str(),
        }
    }

    /// The error as a sentence for a person.
    pub fn to_string(&self) -> (r: String)
        ensures
            r@ == self@.text(),
    {
        let mut out = match self {
            PrintError::Invalid(_) => "invalid print value: ",
            PrintError::InvalidState(_) => "print state does not allow this operation: ",
            PrintError::NotFound(_) => "print resource not found: ",
            PrintError::Conflict(_) => "print resource already exists: ",
            PrintError::Backend(_) => "print backend failed: ",
            PrintError::Persistence(_) => "print persistence failed: ",
            PrintError::Serialization(_) => "print serialization failed: ",
            PrintError::Io(_, _) => "print I/O failed: ",
        }.to_string();
        out.append(self.message());
        out
    }
}

} // verus!
