//! The shared error vocabulary of the library.
//!
//! Every fallible operation in the crate reports one of the closed set of
//! failure kinds below; errors are plain values that are returned, never
//! thrown or stored.

use vstd::prelude::*;

verus! {

/// Error returned when the operating system's interfaces cannot be queried
/// for the requested path information.
#[derive(Debug)]
pub enum DirsError {
    /// The home-directory entry is absent or empty while it is needed as a
    /// fallback base directory.
    HomeMissing,
    /// An underlying I/O operation failed; carries a description of the
    /// failure. Pure path computation never raises this kind; it is reserved
    /// for future filesystem interaction.
    IoError(String),
    /// A decoded string (for example a wide-character buffer) could not be
    /// interpreted as valid text.
    ParseError(String),
    /// An OS-specific API call failed; carries a descriptive message
    /// including the native status code.
    PlatformError(String),
}

/// What `DirsError::description` returns for each kind of error.
pub open spec fn description_spec(e: DirsError) -> Seq<char> {
    match e {
        DirsError::HomeMissing => "unable to obtain the home directory"@,
        DirsError::IoError(why) => why@,
        DirsError::ParseError(why) => why@,
        DirsError::PlatformError(why) => why@,
    }
}

impl DirsError {
    /// A short human-readable description of the error.
    pub fn description(&self) -> (r: &str)
        ensures
            r@ == description_spec(*self),
    {
        match self {
            DirsError::HomeMissing => "unable to obtain the home directory",
            DirsError::IoError(why) => why.as_str(),
            DirsError::ParseError(why) => why.as_str(),
            DirsError::PlatformError(why) => why.as_str(),
        }
    }
}

} // verus!
