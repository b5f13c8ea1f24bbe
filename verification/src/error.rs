//! Typed errors for client operations.

use vstd::prelude::*;

verus! {

/// Main error type for client operations.
///
/// Each variant corresponds to one failure class of the native layer or of
/// the library's own validation:
/// - `Init`: construction or connect-time failure of the native client,
/// - `Connection`: the native layer could not establish a connection,
/// - `Disconnected`: the native layer reports the session is not connected,
/// - `InvalidHandle`: the handle was used after destruction,
/// - `Ffi`: an unrecognized native code, forwarded verbatim for diagnosis,
/// - `EventParse`: a malformed event envelope,
/// - `Send`: a send-side validation or native send failure,
/// - `Io`: a file-system failure reported by the unverified shell.
#[derive(Debug)]
pub enum Error {
    Init(String),
    Connection(String),
    Disconnected,
    InvalidHandle,
    Ffi { code: i32, message: String },
    EventParse(String),
    Send(String),
    Io(String),
}

impl Error {
    /// A short, stable label for the error class, usable in diagnostics.
    pub fn kind_label(&self) -> (r: &'static str)
        ensures
            r@ == self.kind_label_spec(),
    {
        match self {
            Error::Init(_) => "init",
            Error::Connection(_) => "connection",
            Error::Disconnected => "disconnected",
            Error::InvalidHandle => "invalid-handle",
            Error::Ffi { .. } => "ffi",
            Error::EventParse(_) => "event-parse",
            Error::Send(_) => "send",
            Error::Io(_) => "io",
        }
    }

    /// The label `kind_label` returns, as a mathematical value.
    pub open spec fn kind_label_spec(&self) -> Seq<char> {
        match self {
            Error::Init(_) => "init"@,
            Error::Connection(_) => "connection"@,
            Error::Disconnected => "disconnected"@,
            Error::InvalidHandle => "invalid-handle"@,
            Error::Ffi { .. } => "ffi"@,
            Error::EventParse(_) => "event-parse"@,
            Error::Send(_) => "send"@,
            Error::Io(_) => "io"@,
        }
    }
}

} // verus!
