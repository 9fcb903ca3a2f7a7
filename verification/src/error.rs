//! The error taxonomy of the normalization layer. Every failure a caller can
//! see is one of these variants; no failure is reported as a bare string.

use vstd::prelude::*;

verus! {

/// A failure of decoding or coercion, or the service's own reported error.
#[derive(Debug)]
pub enum LoadError {
    /// A scalar did not match any accepted boolean encoding.
    InvalidBoolean,
    /// A scalar did not parse as a Unix-epoch timestamp.
    InvalidTimestamp,
    /// A version string did not have the required four-segment shape; carries
    /// the offending raw string.
    InvalidVersionFormat { raw: String },
    /// A structural decode failure: a required field was missing or had the
    /// wrong shape. Carries the declared name of the field.
    SchemaMismatch { field: String, reason: String },
    /// The upstream service's own error envelope, surfaced verbatim.
    ServiceError { code: i64, message: String },
    /// The bounded connection wait expired without a successful attempt.
    Timeout,
}

impl LoadError {
    /// Whether this is a decode-side failure, as opposed to an error the
    /// service itself reported or a transport timeout.
    pub open spec fn is_decode_failure(self) -> bool {
        match self {
            LoadError::InvalidBoolean => true,
            LoadError::InvalidTimestamp => true,
            LoadError::InvalidVersionFormat { .. } => true,
            LoadError::SchemaMismatch { .. } => true,
            LoadError::ServiceError { .. } => false,
            LoadError::Timeout => false,
        }
    }
}

} // verus!
