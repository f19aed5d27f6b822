//! UEFI status codes as the library sees them.

use vstd::prelude::*;

verus! {

/// The bit that marks an error code: the highest bit of a machine word.
pub const EFI_ERROR_BIT: usize = usize::MAX / 2 + 1;

pub const EFI_INVALID_PARAMETER: usize = EFI_ERROR_BIT + 2;

pub const EFI_UNSUPPORTED: usize = EFI_ERROR_BIT + 3;

pub const EFI_DEVICE_ERROR: usize = EFI_ERROR_BIT + 7;

pub const EFI_OUT_OF_RESOURCES: usize = EFI_ERROR_BIT + 9;

pub const EFI_NOT_FOUND: usize = EFI_ERROR_BIT + 14;

pub const EFI_ACCESS_DENIED: usize = EFI_ERROR_BIT + 15;

pub const EFI_TIMEOUT: usize = EFI_ERROR_BIT + 18;

pub const EFI_ALREADY_STARTED: usize = EFI_ERROR_BIT + 20;

/// A status code. The codes that the driver itself returns have names; every
/// other code is carried through unchanged.
#[derive(Clone, Copy, Debug, PartialEq, Eq, Structural)]
pub enum Status {
    Success,
    InvalidParameter,
    Unsupported,
    DeviceError,
    OutOfResources,
    NotFound,
    AccessDenied,
    Timeout,
    AlreadyStarted,
    Other(usize),
}

/// A machine word is an error code when its highest bit is set and the bit below
/// it, which marks codes of the platform vendor, is clear.
pub open spec fn is_error_code(code: usize) -> bool {
    EFI_ERROR_BIT <= code < EFI_ERROR_BIT + EFI_ERROR_BIT / 2
}

/// Calls `r_efi::efi::Status::is_error` on the code. The contract claims that the
/// outside function tests the two highest bits of the code for the pattern `10`.
#[verifier::external_body]
fn efi_status_is_error(code: usize) -> (r: bool)
    ensures
        r == is_error_code(code),
{
    r_efi::efi::Status::from_usize(code).is_error()
}

impl Status {
    /// The machine word that firmware uses for this status.
    pub open spec fn as_code(self) -> usize {
        match self {
            Status::Success => 0,
            Status::InvalidParameter => EFI_INVALID_PARAMETER,
            Status::Unsupported => EFI_UNSUPPORTED,
            Status::DeviceError => EFI_DEVICE_ERROR,
            Status::OutOfResources => EFI_OUT_OF_RESOURCES,
            Status::NotFound => EFI_NOT_FOUND,
            Status::AccessDenied => EFI_ACCESS_DENIED,
            Status::Timeout => EFI_TIMEOUT,
            Status::AlreadyStarted => EFI_ALREADY_STARTED,
            Status::Other(code) => code,
        }
    }

    /// A status is canonical when a code that has a name is not written as `Other`.
    pub open spec fn canonical(self) -> bool {
        self matches Status::Other(code) ==> !(code == 0 || code == EFI_INVALID_PARAMETER || code
            == EFI_UNSUPPORTED || code == EFI_DEVICE_ERROR || code == EFI_OUT_OF_RESOURCES || code
            == EFI_NOT_FOUND || code == EFI_ACCESS_DENIED || code == EFI_TIMEOUT || code
            == EFI_ALREADY_STARTED)
    }

    /// Whether this status is an error.
    pub open spec fn fails(self) -> bool {
        is_error_code(self.as_code())
    }

    /// Returns the machine word of this status.
    pub fn code(self) -> (r: usize)
        ensures
            r == self.as_code(),
    {
        match self {
            Status::Success => 0,
            Status::InvalidParameter => EFI_INVALID_PARAMETER,
            Status::Unsupported => EFI_UNSUPPORTED,
            Status::DeviceError => EFI_DEVICE_ERROR,
            Status::OutOfResources => EFI_OUT_OF_RESOURCES,
            Status::NotFound => EFI_NOT_FOUND,
            Status::AccessDenied => EFI_ACCESS_DENIED,
            Status::Timeout => EFI_TIMEOUT,
            Status::AlreadyStarted => EFI_ALREADY_STARTED,
            Status::Other(code) => code,
        }
    }

    /// Returns the status of a machine word.
    pub fn from_code(code: usize) -> (r: Status)
        ensures
            r.as_code() == code,
            r.canonical(),
    {
        if code == 0 {
            Status::Success
        } else if code == EFI_INVALID_PARAMETER {
            Status::InvalidParameter
        } else if code == EFI_UNSUPPORTED {
            Status::Unsupported
        } else if code == EFI_DEVICE_ERROR {
            Status::DeviceError
        } else if code == EFI_OUT_OF_RESOURCES {
            Status::OutOfResources
        } else if code == EFI_NOT_FOUND {
            Status::NotFound
        } else if code == EFI_ACCESS_DENIED {
            Status::AccessDenied
        } else if code == EFI_TIMEOUT {
            Status::Timeout
        } else if code == EFI_ALREADY_STARTED {
            Status::AlreadyStarted
        } else {
            Status::Other(code)
        }
    }

    /// Indicates whether this status is an error.
    pub fn is_error(self) -> (r: bool)
        ensures
            r == self.fails(),
    {
        efi_status_is_error(self.code())
    }

    /// Indicates whether this status is `Success`, which a warning is not.
    pub fn is_success(self) -> (r: bool)
        ensures
            r == (self == Status::Success),
    {
        match self {
            Status::Success => true,
            _ => false,
        }
    }
}

/// The named statuses have the numbers of firmware: success is 0, and the errors are the
/// highest bit of a machine word with 2, 3, 7, 9, 14, 15, 18 and 20.
pub proof fn named_statuses_have_their_numbers()
    ensures
        Status::Success.as_code() == 0,
        2 * (Status::InvalidParameter.as_code() - 2) == usize::MAX + 1,
        2 * (Status::Unsupported.as_code() - 3) == usize::MAX + 1,
        2 * (Status::DeviceError.as_code() - 7) == usize::MAX + 1,
        2 * (Status::OutOfResources.as_code() - 9) == usize::MAX + 1,
        2 * (Status::NotFound.as_code() - 14) == usize::MAX + 1,
        2 * (Status::AccessDenied.as_code() - 15) == usize::MAX + 1,
        2 * (Status::Timeout.as_code() - 18) == usize::MAX + 1,
        2 * (Status::AlreadyStarted.as_code() - 20) == usize::MAX + 1,
{
}

/// An error is what lies in the third quarter of the machine words: the highest bit is set
/// and the one below it is not.
pub proof fn errors_fill_the_third_quarter(s: Status)
    ensures
        s.fails() <==> 2 * (usize::MAX + 1) <= 4 * s.as_code() < 3 * (usize::MAX + 1),
{
}

/// Two canonical statuses with the same machine word are the same status.
pub proof fn status_code_determines_status(a: Status, b: Status)
    requires
        a.canonical(),
        b.canonical(),
        a.as_code() == b.as_code(),
    ensures
        a == b,
{
}

/// `Success` is no error, and every other named status is one.
pub proof fn named_statuses_are_errors(s: Status)
    requires
        s !is Other,
    ensures
        s.fails() == (s != Status::Success),
{
}

} // verus!
