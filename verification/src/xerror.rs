//! The closed set of error kinds of the binding layer, unifying loader,
//! process and text-encoding failures. Each kind carries the failing name,
//! path or text so a caller can produce an actionable message.

use vstd::prelude::*;
use vstd::string::StringExecFns;

verus! {

/// Result of an operation of the binding layer.
pub type XResult<T> = Result<T, XError>;

/// An error of the binding layer.
#[derive(Debug)]
pub enum XError {
    /// A native shared-library file was missing or failed to load.
    /// Carries the path of the file.
    LibraryLoadFailed(String),
    /// A required exported symbol was absent from a loaded library.
    /// Carries the name of the symbol.
    SymbolNotFound(String),
    /// The native initialization entry point returned a failure sentinel.
    /// Carries a description of the failure.
    InitializationFailed(String),
    /// An underlying operating-system or process operation failed.
    /// Carries a description of the failure.
    IoFailure(String),
    /// Text could not be converted to or from the native representation.
    /// Carries the offending text or a description of the bad bytes.
    TextEncodingFailed(String),
}

impl XError {
    /// Builds the error reported when the native library rejects the
    /// one-time initialization call.
    pub fn new(message: &str) -> (r: XError)
        ensures
            r matches XError::InitializationFailed(m) && m@ == message@,
    {
        XError::InitializationFailed(String::from_str(message))
    }

    /// A printable description: a fixed prefix naming the kind, followed by
    /// the context the error carries.
    pub fn message(&self) -> (r: String)
        ensures
            self matches XError::LibraryLoadFailed(p) ==> r@ == "failed to load library: "@ + p@,
            self matches XError::SymbolNotFound(n) ==> r@ == "symbol not found: "@ + n@,
            self matches XError::InitializationFailed(m) ==> r@ == "initialization failed: "@
                + m@,
            self matches XError::IoFailure(m) ==> r@ == "i/o failure: "@ + m@,
            self matches XError::TextEncodingFailed(t) ==> r@ == "text encoding failed: "@ + t@,
    {
        match self {
            XError::LibraryLoadFailed(p) => String::from_str("failed to load library: ").concat(
                p.as_str(),
            ),
            XError::SymbolNotFound(n) => String::from_str("symbol not found: ").concat(n.as_str()),
            XError::InitializationFailed(m) => String::from_str("initialization failed: ").concat(
                m.as_str(),
            ),
            XError::IoFailure(m) => String::from_str("i/o failure: ").concat(m.as_str()),
            XError::TextEncodingFailed(t) => String::from_str("text encoding failed: ").concat(
                t.as_str(),
            ),
        }
    }

    /// What equality of two errors means: the same kind carrying the same
    /// text.
    pub open spec fn same_error(&self, other: &XError) -> bool {
        match (self, other) {
            (XError::LibraryLoadFailed(a), XError::LibraryLoadFailed(b)) => a@ == b@,
            (XError::SymbolNotFound(a), XError::SymbolNotFound(b)) => a@ == b@,
            (XError::InitializationFailed(a), XError::InitializationFailed(b)) => a@ == b@,
            (XError::IoFailure(a), XError::IoFailure(b)) => a@ == b@,
            (XError::TextEncodingFailed(a), XError::TextEncodingFailed(b)) => a@ == b@,
            _ => false,
        }
    }
}

impl PartialEq for XError {
    fn eq(&self, other: &XError) -> (r: bool) {
        match (self, other) {
            (XError::LibraryLoadFailed(a), XError::LibraryLoadFailed(b)) => *a == *b,
            (XError::SymbolNotFound(a), XError::SymbolNotFound(b)) => *a == *b,
            (XError::InitializationFailed(a), XError::InitializationFailed(b)) => *a == *b,
            (XError::IoFailure(a), XError::IoFailure(b)) => *a == *b,
            (XError::TextEncodingFailed(a), XError::TextEncodingFailed(b)) => *a == *b,
            _ => false,
        }
    }
}

impl vstd::std_specs::cmp::PartialEqSpecImpl for XError {
    open spec fn obeys_eq_spec() -> bool {
        true
    }

    open spec fn eq_spec(&self, other: &XError) -> bool {
        self.same_error(other)
    }
}

/// Builds a failed [`XResult`] carrying an initialization failure, the one
/// error this layer reports with a bare message.
pub fn xerror<T>(message: &str) -> (r: XResult<T>)
    ensures
        r matches Err(e) && e matches XError::InitializationFailed(m) && m@ == message@,
{
    Err(XError::new(message))
}

} // verus!
