//! Translation of native result codes and send-side validation.
//!
//! The native messaging layer reports outcomes as small integers: zero for
//! success and fixed negative codes for the known failure classes. The
//! functions here turn those codes into typed errors and validate payloads
//! before they may cross to the native layer.

use vstd::prelude::*;

use crate::error::Error;

verus! {

/// Native result code: success.
pub const WM_OK: i32 = 0;

/// Native result code: initialization failed.
pub const WM_ERR_INIT: i32 = -1;

/// Native result code: connection failed.
pub const WM_ERR_CONNECT: i32 = -2;

/// Native result code: the session is not connected.
pub const WM_ERR_DISCONNECTED: i32 = -3;

/// Native result code: the handle is no longer valid.
pub const WM_ERR_INVALID_HANDLE: i32 = -4;

/// The translation table from a native result code to a typed result:
/// zero is success; the four fixed negative codes map to their dedicated
/// error variants; any other code is surfaced verbatim in `Error::Ffi`.
pub open spec fn code_result_post(code: i32, r: Result<(), Error>) -> bool {
    &&& r is Ok <==> code == WM_OK
    &&& code == WM_ERR_INIT ==> (r matches Err(Error::Init(_)))
    &&& code == WM_ERR_CONNECT ==> (r matches Err(Error::Connection(_)))
    &&& code == WM_ERR_DISCONNECTED ==> r == Err::<(), Error>(Error::Disconnected)
    &&& code == WM_ERR_INVALID_HANDLE ==> r == Err::<(), Error>(Error::InvalidHandle)
    &&& (code != WM_OK && code != WM_ERR_INIT && code != WM_ERR_CONNECT
        && code != WM_ERR_DISCONNECTED && code != WM_ERR_INVALID_HANDLE) ==> (r matches Err(
        Error::Ffi { code: c, message: _ },
    ) && c == code)
}

/// Translate a native result code into a typed result, so that no native
/// failure is ever silently dropped.
pub fn check_result(code: i32) -> (r: Result<(), Error>)
    ensures
        code_result_post(code, r),
{
    if code == WM_OK {
        Ok(())
    } else if code == WM_ERR_INIT {
        Err(Error::Init("Initialization failed".to_owned()))
    } else if code == WM_ERR_CONNECT {
        Err(Error::Connection("Connection failed".to_owned()))
    } else if code == WM_ERR_DISCONNECTED {
        Err(Error::Disconnected)
    } else if code == WM_ERR_INVALID_HANDLE {
        Err(Error::InvalidHandle)
    } else {
        Err(Error::Ffi { code, message: "Unknown error".to_owned() })
    }
}

/// Whether a character sequence contains an embedded NUL byte, which the
/// native layer cannot accept in a C string.
pub open spec fn has_nul(s: Seq<char>) -> bool {
    exists|i: int| 0 <= i < s.len() && s[i] == '\0'
}

/// Check a string for embedded NUL characters.
pub fn contains_nul(s: &str) -> (r: bool)
    ensures
        r == has_nul(s@),
{
    let n = s.unicode_len();
    let mut i: usize = 0;
    while i < n
        invariant
            n == s@.len(),
            0 <= i <= n,
            forall|j: int| 0 <= j < i ==> s@[j] != '\0',
        decreases n - i,
    {
        if s.get_char(i) == '\0' {
            return true;
        }
        i = i + 1;
    }
    false
}

/// Validate the two text arguments of a send operation.
///
/// Succeeds exactly when neither the recipient nor the text contains an
/// embedded NUL character; a violation is a local `Send` error and must
/// never reach the native layer.
pub fn validate_send(to: &String, text: &String) -> (r: Result<(), Error>)
    ensures
        r is Ok <==> (!has_nul(to@) && !has_nul(text@)),
        has_nul(to@) || has_nul(text@) ==> r matches Err(Error::Send(_)),
{
    if contains_nul(to.as_str()) {
        Err(Error::Send("JID contains null byte".to_owned()))
    } else if contains_nul(text.as_str()) {
        Err(Error::Send("Text contains null byte".to_owned()))
    } else {
        Ok(())
    }
}

/// Validate a database path before it is handed to the native constructor.
///
/// Succeeds exactly when the path has no embedded NUL character; a violation
/// is an `Init` error raised before any native call.
pub fn validate_native_path(path: &String) -> (r: Result<(), Error>)
    ensures
        r is Ok <==> !has_nul(path@),
        has_nul(path@) ==> r matches Err(Error::Init(_)),
{
    if contains_nul(path.as_str()) {
        Err(Error::Init("Path contains null byte".to_owned()))
    } else {
        Ok(())
    }
}

} // verus!
