//! The error taxonomy shared by every driver.

use std::io::ErrorKind;
use vstd::prelude::*;
use vstd::string::StringExecFns;

verus! {

/// Trusted: makes `std::io::ErrorKind` known to the verifier as an opaque
/// type, so that an error can carry the class of an operating-system failure.
/// Nothing is claimed of its values.
#[verifier::external_type_specification]
#[verifier::external_body]
pub struct ExErrorKind(ErrorKind);

/// Trusted: `<std::io::ErrorKind as Clone>::clone`. `ErrorKind` is `Copy`, and
/// std documents a clone of a `Copy` value as that value.
pub assume_specification[ <ErrorKind as Clone>::clone ](kind: &ErrorKind) -> (copy: ErrorKind)
    ensures
        copy == *kind,
;

/// What can go wrong in a driver.
#[derive(Debug, Clone, PartialEq, Eq)]
pub enum GpioError {
    /// The requested pin or channel is leased out.
    AlreadyInUse,
    /// An index, a field value or a divisor is out of range.
    InvalidArgument,
    /// The backend lacks the capability.
    NotSupported,
    /// Opening or mapping a device failed, with the class of the failure.
    Io(ErrorKind),
    /// Anything else, with a message.
    Other(String),
}

/// The result of a driver operation.
pub type GpioResult<T> = Result<T, GpioError>;

/// Trusted name: the text of a kind of failure, as `std::fmt::Display` prints
/// it. It is a function of the kind alone.
pub uninterp spec fn kind_text(kind: ErrorKind) -> Seq<char>;

/// Trusted: `ErrorKind::to_string`, the kind as `std::fmt::Display` prints
/// it.
#[verifier::external_body]
fn kind_to_string(kind: &ErrorKind) -> (text: String)
    ensures
        text@ == kind_text(*kind),
{
    kind.to_string()
}

impl GpioError {
    /// The message of an error whose text does not depend on a payload.
    pub open spec fn fixed_message(self) -> Option<Seq<char>> {
        match self {
            GpioError::AlreadyInUse => Some("pin already in use"@),
            GpioError::InvalidArgument => Some("invalid argument"@),
            GpioError::NotSupported => Some("the feature is not supported on this backend"@),
            _ => None,
        }
    }

    /// The human-readable message of the error.
    pub fn message(&self) -> (text: String)
        ensures
            self.fixed_message() matches Some(fixed) ==> text@ == fixed,
            *self matches GpioError::Other(detail) ==> text@ == "error: "@ + detail@,
            *self matches GpioError::Io(kind) ==> text@ == "IO error: "@ + kind_text(kind),
    {
        match self {
            GpioError::AlreadyInUse => String::from_str("pin already in use"),
            GpioError::InvalidArgument => String::from_str("invalid argument"),
            GpioError::NotSupported => String::from_str(
                "the feature is not supported on this backend",
            ),
            GpioError::Io(kind) => String::from_str("IO error: ").concat(
                kind_to_string(kind).as_str(),
            ),
            GpioError::Other(detail) => String::from_str("error: ").concat(detail.as_str()),
        }
    }

    /// Wraps the class of an operating-system failure.
    pub fn from_io_kind(kind: ErrorKind) -> (error: GpioError)
        ensures
            error == GpioError::Io(kind),
    {
        GpioError::Io(kind)
    }
}

} // verus!
