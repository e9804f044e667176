//! The closed taxonomy of status codes returned across the boundary.

use vstd::prelude::*;

verus! {

/// The operation completed.
pub const SUCCESS: i32 = 0;

/// Unclassified failure, e.g. a diagnostic was requested while none was pending.
pub const ERROR_GENERIC: i32 = -1;

/// The handle is unknown: it was never issued, or was already removed.
pub const ERROR_INVALID_HANDLE: i32 = -2;

/// A required argument was missing or malformed.
pub const ERROR_INVALID_PARAM: i32 = -3;

/// The engine operation itself failed at run time.
pub const ERROR_RUNTIME: i32 = -4;

/// An input or output path could not be used.
pub const ERROR_IO: i32 = -5;

/// The requested operation is not available.
pub const ERROR_NOT_SUPPORTED: i32 = -6;

} // verus!
