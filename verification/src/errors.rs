//! Error taxonomy of the backend, and the fixed table that maps native
//! failure codes to human-readable messages.

use vstd::prelude::*;

verus! {

/// Native result code: the call succeeded.
pub const RESULT_SUCCESS: i32 = 0;

/// Native result code: the call was deferred and will complete later.
pub const RESULT_DEFERRED: i32 = 1;

/// Native result code: the operation is not supported by the host.
pub const RESULT_NOT_SUPPORTED: i32 = -1;

/// Native result code: the call failed and could not be deferred.
pub const RESULT_FAILED_NOT_DEFERRED: i32 = -2;

/// Native result code: the target element is invalid.
pub const RESULT_INVALID_TARGET: i32 = -3;

/// Native result code: the target element was not found.
pub const RESULT_UNKNOWN_TARGET: i32 = -4;

/// Native result code: a parameter was invalid.
pub const RESULT_INVALID_PARAM: i32 = -5;

/// Native result code: the call failed.
pub const RESULT_FAILED: i32 = -6;

/// Native result code: no data is available.
pub const RESULT_NO_DATA: i32 = -7;

/// The graphics API a context speaks.
#[derive(Clone, Copy, PartialEq, Eq, Structural, Debug)]
pub enum Api {
    /// Desktop OpenGL.
    OpenGl,
    /// OpenGL for embedded systems.
    OpenGlEs,
    /// WebGL, the only API this backend creates.
    WebGl,
}

/// Raised when native context creation fails; carries a human-readable
/// message built from the fixed code-to-message table.
#[derive(Clone, PartialEq, Eq, Debug)]
pub enum CreationError {
    /// A failure reported by the native layer, with its translated message.
    OsError(String),
}

impl CreationError {
    /// The characters of the carried message.
    pub open spec fn message_view(&self) -> Seq<char> {
        match self {
            CreationError::OsError(m) => m@,
        }
    }

    /// The carried message.
    pub fn message(&self) -> (m: &str)
        ensures
            m@ == self.message_view(),
    {
        match self {
            CreationError::OsError(m) => m.as_str(),
        }
    }
}

/// A failure during a steady-state context operation (make-current, swap).
#[derive(Clone, PartialEq, Eq, Debug)]
pub enum ContextError {
    /// The native context was lost.
    ContextLost,
    /// A failure reported by the native layer, with its translated message.
    OsError(String),
}

impl ContextError {
    /// The characters of the carried message.
    pub open spec fn message_view(&self) -> Seq<char> {
        match self {
            ContextError::ContextLost => "Context lost"@,
            ContextError::OsError(m) => m@,
        }
    }

    /// The carried message.
    pub fn message(&self) -> (m: &str)
        ensures
            m@ == self.message_view(),
    {
        match self {
            ContextError::ContextLost => "Context lost",
            ContextError::OsError(m) => m.as_str(),
        }
    }
}

/// The message that the fixed lookup table assigns to a native result code.
/// A success code seen on a failure path is itself an internal error, and
/// every code outside the table maps to a generic message rather than
/// failing the translation.
pub open spec fn error_message(code: i32) -> Seq<char> {
    if code == RESULT_SUCCESS || code == RESULT_DEFERRED {
        "Internal error in the library (success detected as failure)"@
    } else if code == RESULT_NOT_SUPPORTED {
        "Not supported"@
    } else if code == RESULT_FAILED_NOT_DEFERRED {
        "Failed not deferred"@
    } else if code == RESULT_INVALID_TARGET {
        "Invalid target"@
    } else if code == RESULT_UNKNOWN_TARGET {
        "Unknown target"@
    } else if code == RESULT_INVALID_PARAM {
        "Invalid parameter"@
    } else if code == RESULT_FAILED {
        "Failed"@
    } else if code == RESULT_NO_DATA {
        "No data"@
    } else {
        "Undocumented error"@
    }
}

/// Decides the outcome of a make-current call from the native return code:
/// success exactly on the success code, and any other code propagated as a
/// context error carrying the table's message for it.
pub fn make_current_result(code: i32) -> (r: Result<(), ContextError>)
    ensures
        r is Ok <==> code == RESULT_SUCCESS,
        code != RESULT_SUCCESS ==> (r matches Err(ContextError::OsError(m)) && m@
            == error_message(code)),
{
    if code == RESULT_SUCCESS {
        Ok(())
    } else {
        Err(ContextError::OsError(error_to_str(code).to_owned()))
    }
}

/// Translates a native result code to its message through the fixed table.
pub fn error_to_str(code: i32) -> (r: &'static str)
    ensures
        r@ == error_message(code),
{
    if code == RESULT_SUCCESS || code == RESULT_DEFERRED {
        "Internal error in the library (success detected as failure)"
    } else if code == RESULT_NOT_SUPPORTED {
        "Not supported"
    } else if code == RESULT_FAILED_NOT_DEFERRED {
        "Failed not deferred"
    } else if code == RESULT_INVALID_TARGET {
        "Invalid target"
    } else if code == RESULT_UNKNOWN_TARGET {
        "Unknown target"
    } else if code == RESULT_INVALID_PARAM {
        "Invalid parameter"
    } else if code == RESULT_FAILED {
        "Failed"
    } else if code == RESULT_NO_DATA {
        "No data"
    } else {
        "Undocumented error"
    }
}

} // verus!
