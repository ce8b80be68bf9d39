//! The error taxonomy of the binding layer and the policy by which failures
//! of the native engine are turned into it.

use vstd::prelude::*;
use vstd::string::StringExecFns;

verus! {

/// Every failure that crosses the boundary of this library.
#[derive(Debug, Clone, PartialEq, Eq)]
pub enum TaoError {
    /// A failure of the native engine, surfaced with its own rendering.
    Message { details: String },
    /// The operation has no meaning on the current platform.
    Unsupported,
    /// An operation that needs the live event-loop context was called
    /// outside the dynamic extent of a callback.
    NotBound,
}

/// The kinds of failure that the native engine and its helpers report.
#[derive(Debug, Clone, Copy, PartialEq, Eq, Structural)]
pub enum NativeFailure {
    /// An I/O error of the operating system.
    Io,
    /// The engine's umbrella error for a failed request.
    External,
    /// The engine says the request is not supported on this platform.
    NotSupported,
    /// The pixel data handed over for an icon was rejected.
    BadIcon,
    /// An error code of the operating system, rendered by the engine.
    Os,
    /// The event loop an injected event was meant for has terminated.
    LoopClosed,
    /// The callback handler itself failed unexpectedly.
    Callback,
    /// An icon file could not be opened or decoded.
    IconFile,
}

impl TaoError {
    /// The text shown for the two fixed kinds of error.
    pub open spec fn unsupported_text() -> Seq<char> {
        "Unsupported on this platform"@
    }

    pub open spec fn not_bound_text() -> Seq<char> {
        "No active EventLoopWindowTarget (call this from within the event loop callback)"@
    }

    pub open spec fn icon_file_prefix() -> Seq<char> {
        "Failed to open icon path: "@
    }

    /// What `to_string` renders.
    pub open spec fn text(self) -> Seq<char> {
        match self {
            TaoError::Message { details } => details@,
            TaoError::Unsupported => Self::unsupported_text(),
            TaoError::NotBound => Self::not_bound_text(),
        }
    }

    /// The details that a native failure of kind `kind` is reported with,
    /// or `None` where the kind maps to `Unsupported`.
    pub open spec fn native_details(kind: NativeFailure, rendered: Seq<char>) -> Option<Seq<char>> {
        match kind {
            NativeFailure::NotSupported => None,
            NativeFailure::IconFile => Some(Self::icon_file_prefix() + rendered),
            _ => Some(rendered),
        }
    }

    /// A `Message` that carries a copy of `message`.
    pub fn message(message: &str) -> (error: TaoError)
        ensures
            error matches TaoError::Message { details } && details@ == message@,
    {
        TaoError::Message { details: String::from_str(message) }
    }

    /// The human-readable rendering of the error.
    pub fn to_string(&self) -> (text: String)
        ensures
            text@ == self.text(),
    {
        match self {
            TaoError::Message { details } => details.clone(),
            TaoError::Unsupported => String::from_str("Unsupported on this platform"),
            TaoError::NotBound => String::from_str(
                "No active EventLoopWindowTarget (call this from within the event loop callback)",
            ),
        }
    }

    /// Converts a failure of the native engine. `rendered` is the engine's
    /// own rendering of it. Only `NotSupported` becomes `Unsupported`; every
    /// other kind becomes a `Message`, an icon file's with a fixed prefix.
    pub fn from_native(kind: NativeFailure, rendered: &str) -> (error: TaoError)
        ensures
            match Self::native_details(kind, rendered@) {
                None => error == TaoError::Unsupported,
                Some(text) => error matches TaoError::Message { details } && details@ == text,
            },
    {
        match kind {
            NativeFailure::NotSupported => TaoError::Unsupported,
            NativeFailure::IconFile => TaoError::Message {
                details: String::from_str("Failed to open icon path: ").concat(rendered),
            },
            _ => TaoError::Message { details: String::from_str(rendered) },
        }
    }
}

/// `uniffi::UnexpectedUniFFICallbackError`: the error with which the
/// foreign-function scaffolding reports that a callback failed in a way it
/// did not expect. The declaration makes the type, with its one public
/// field `reason`, known to the verifier; nothing more is claimed of it.
#[verifier::external_type_specification]
pub struct ExUnexpectedCallbackError(uniffi::UnexpectedUniFFICallbackError);

impl From<uniffi::UnexpectedUniFFICallbackError> for TaoError {
    /// An unexpected failure of a callback becomes a `Message` with its reason.
    fn from(value: uniffi::UnexpectedUniFFICallbackError) -> (error: TaoError) {
        TaoError::Message { details: value.reason }
    }
}

impl vstd::std_specs::convert::FromSpecImpl<uniffi::UnexpectedUniFFICallbackError> for TaoError {
    open spec fn obeys_from_spec() -> bool {
        true
    }

    open spec fn from_spec(value: uniffi::UnexpectedUniFFICallbackError) -> TaoError {
        TaoError::Message { details: value.reason }
    }
}

} // verus!
