//! Error kinds of the browser core.

use vstd::prelude::*;

verus! {

/// What can go wrong in the core.
///
/// Open-time failures abort startup; everything else is recoverable
/// inside an interactive session.
#[derive(Clone, Copy, Debug, PartialEq, Eq, Structural)]
pub enum Error {
    /// The snapshot handed in at open time is unusable: no columns, no
    /// row groups, or a first page that does not match the schema.
    OpenFailure,
    /// A cell or a statistic could not be converted to a display string.
    DecodeFailure,
    /// A (row-group, column) lookup fell outside the catalog.
    NotFound,
    /// The next page of rows could not be fetched.
    PagingFailure,
    /// An index computed by navigation fell outside the bounds the
    /// catalog expects; indicates a state-machine fault.
    ConsistencyFault,
}

impl Error {
    /// A short description of the error, for status lines.
    pub fn message(&self) -> (r: &'static str)
        ensures
            r@ == self.spec_message(),
    {
        match self {
            Error::OpenFailure => "could not open the file",
            Error::DecodeFailure => "could not decode a value for display",
            Error::NotFound => "no such row group or column",
            Error::PagingFailure => "could not fetch the next page of rows",
            Error::ConsistencyFault => "internal navigation state is inconsistent",
        }
    }

    /// The description `message` returns for each error kind.
    pub open spec fn spec_message(&self) -> Seq<char> {
        match self {
            Error::OpenFailure => "could not open the file"@,
            Error::DecodeFailure => "could not decode a value for display"@,
            Error::NotFound => "no such row group or column"@,
            Error::PagingFailure => "could not fetch the next page of rows"@,
            Error::ConsistencyFault => "internal navigation state is inconsistent"@,
        }
    }
}

} // verus!
