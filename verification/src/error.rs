//! The library's error type.

use vstd::prelude::*;

verus! {

/// Everything a socket operation can report.
///
/// `Os` carries the operating system's error code verbatim; the remaining
/// variants are contract violations this library detects itself, before or
/// after the native call.
#[derive(Clone, Copy, Debug, PartialEq, Eq, Structural)]
pub enum SockError {
    /// A native call failed; the payload is the OS error code (`errno`).
    Os(i32),
    /// A Unix-domain path was longer than the platform allows.
    PathTooLong,
    /// An address was reported with fewer bytes than a family tag needs.
    AddrTooShort,
    /// A reported address length that does not fit the buffer it claims to
    /// describe.
    LengthOutOfRange,
    /// An address carries a family this library does not recognize.
    UnsupportedFamily,
    /// An option the typed get/set surface does not cover.
    UnsupportedOption,
    /// A descriptor-control command this library does not cover.
    UnsupportedCommand,
    /// An option value came back with a length other than the expected
    /// type's size.
    OptSizeMismatch,
}

} // verus!
