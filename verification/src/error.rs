//! Classification of raw OS error codes.
//!
//! Native calls report failure as a negative errno value.  [`from_errno`]
//! stores the code in positive form; [`Error::kind`] derives the small
//! taxonomy (`NoMem`, `InvalidInput`, `Io(..)`) and [`Error::description`]
//! looks the human-readable text up on demand.

use vstd::prelude::*;

verus! {

/// A `Result` type for device-monitor operations.
pub type Result<T> = core::result::Result<T, Error>;

/// The errno value with which the C library reports a failed allocation.
pub const ENOMEM_CODE: i32 = 12;

/// The errno value with which the C library reports an invalid argument.
pub const EINVAL_CODE: i32 = 22;

/// The errno value with which the C library reports that an operation would
/// block ("try again"); on Linux `EWOULDBLOCK` carries the same code.
pub const EAGAIN_CODE: i32 = 11;

#[verifier::external_type_specification]
#[verifier::external_body]
pub struct ExErrorKind(std::io::ErrorKind);

/// The entry of the platform's errno-to-I/O-kind table for a code.
pub uninterp spec fn io_kind_of(code: int) -> std::io::ErrorKind;

/// The generic I/O taxonomy's catch-all kind, the same whatever the
/// argument.
pub uninterp spec fn catch_all_kind(i: int) -> std::io::ErrorKind;

/// Relies on `libc::ENOMEM`, which Linux defines as 12.
#[verifier::external_body]
fn enomem_errno() -> (r: i32)
    ensures
        r == ENOMEM_CODE,
{
    libc::ENOMEM
}

/// Relies on `libc::EINVAL`, which Linux defines as 22.
#[verifier::external_body]
fn einval_errno() -> (r: i32)
    ensures
        r == EINVAL_CODE,
{
    libc::EINVAL
}

/// Relies on `std::io::Error::from_raw_os_error` and `std::io::Error::kind`:
/// together they read the platform's fixed errno-to-I/O-kind table at `code`.
#[verifier::external_body]
fn os_error_kind(code: i32) -> (r: std::io::ErrorKind)
    ensures
        r == io_kind_of(code as int),
{
    std::io::Error::from_raw_os_error(code).kind()
}

/// Relies on `std::io::Error::from_raw_os_error` and the `Display` rendering
/// of an OS error: the C library's message for the code followed by the code
/// itself in the form `(os error N)`, so the rendering is never empty.  The
/// message half follows the C library's locale, so nothing more than
/// non-emptiness is promised of the bytes.
#[verifier::external_body]
fn os_error_text(code: i32) -> (r: String)
    ensures
        r@.len() > 0,
{
    std::io::Error::from_raw_os_error(code).to_string()
}

/// Relies on `libc::EAGAIN`, which Linux defines as 11.
#[verifier::external_body]
pub(crate) fn eagain_errno() -> (r: i32)
    ensures
        r == EAGAIN_CODE,
{
    libc::EAGAIN
}

/// Relies on `libc::EWOULDBLOCK`, which Linux defines as `EAGAIN`'s code.
#[verifier::external_body]
pub(crate) fn ewouldblock_errno() -> (r: i32)
    ensures
        r == EAGAIN_CODE,
{
    libc::EWOULDBLOCK
}

/// Relies on `std::io::ErrorKind::Other`: the generic I/O taxonomy's
/// catch-all kind, for the one classification it has no dedicated kind for.
#[verifier::external_body]
fn other_error_kind() -> (r: std::io::ErrorKind)
    ensures
        r == catch_all_kind(0),
{
    std::io::ErrorKind::Other
}

/// Types of errors that occur in device-monitor operations.
#[derive(Debug, Clone, Copy, PartialEq, Eq)]
pub enum Kind {
    /// Allocation failed
    NoMem,
    /// Invalid arguments
    InvalidInput,
    /// I/O Error
    Io(std::io::ErrorKind),
}

/// The error type for device-monitor operations: a raw OS error code,
/// stored in positive (errno) form.
#[derive(Debug)]
pub struct Error {
    errno: i32,
}

/// The classification that a stored errno value receives: the two codes with
/// a dedicated meaning map to their own kinds, every other code to the
/// platform's generic I/O kind for it.
pub open spec fn spec_kind_of(code: int) -> Kind {
    if code == ENOMEM_CODE as int {
        Kind::NoMem
    } else if code == EINVAL_CODE as int {
        Kind::InvalidInput
    } else {
        Kind::Io(io_kind_of(code))
    }
}

impl Error {
    /// The stored error code, in positive (errno) form for codes that came
    /// from a failed native call.
    pub closed spec fn code(&self) -> int {
        self.errno as int
    }

    /// Returns the corresponding `Kind` for this error.
    pub fn kind(&self) -> (r: Kind)
        ensures
            r == spec_kind_of(self.code()),
    {
        if self.errno == enomem_errno() {
            Kind::NoMem
        } else if self.errno == einval_errno() {
            Kind::InvalidInput
        } else {
            Kind::Io(os_error_kind(self.errno))
        }
    }

    /// Returns a description of the error: the system's message for the
    /// stored code followed by the code itself, looked up live on each call
    /// and never empty.  The message half comes from the C library's
    /// locale-dependent catalog, so the exact bytes are not part of the
    /// contract.
    pub fn description(&self) -> (r: String)
        ensures
            r@.len() > 0,
    {
        os_error_text(self.errno)
    }

    /// The generic I/O kind this error converts to: an `Io` classification
    /// passes its kind through unchanged, invalid input maps to the table's
    /// kind for that code, and allocation failure to the taxonomy's
    /// catch-all kind, as it has no dedicated out-of-memory kind.
    pub fn io_error_kind(&self) -> (r: std::io::ErrorKind)
        ensures
            spec_kind_of(self.code()) matches Kind::Io(k) ==> r == k,
            spec_kind_of(self.code()) == Kind::InvalidInput ==> r == io_kind_of(
                EINVAL_CODE as int,
            ),
            spec_kind_of(self.code()) == Kind::NoMem ==> r == catch_all_kind(0),
    {
        match self.kind() {
            Kind::Io(kind) => kind,
            Kind::InvalidInput => os_error_kind(einval_errno()),
            Kind::NoMem => other_error_kind(),
        }
    }
}

/// Builds the `Error` for a native return value, negating it into positive
/// errno form, as the C call convention reports failures as `-errno`.
pub fn from_errno(errno: i32) -> (r: Error)
    requires
        errno != i32::MIN,
    ensures
        r.code() == -errno as int,
{
    Error { errno: -errno }
}

/// The error with which malformed or invalid input is reported.
pub(crate) fn invalid_input_error() -> (r: Error)
    ensures
        r.code() == EINVAL_CODE as int,
        spec_kind_of(r.code()) == Kind::InvalidInput,
{
    let code = einval_errno();
    from_errno(-code)
}

} // verus!
