//! The failures that compression and extraction report.

use vstd::prelude::*;
use zip::result::ZipError;

verus! {

/// `std::io::Error`, carried through without looking inside.
#[verifier::external_type_specification]
#[verifier::external_body]
pub struct ExIoError(std::io::Error);

/// `zip::result::ZipError`, carried through without looking inside.
#[verifier::external_type_specification]
#[verifier::external_body]
pub struct ExZipError(zip::result::ZipError);

/// Why an operation stopped.
#[derive(Clone, Copy, Debug, PartialEq, Eq, Structural)]
pub enum Failure {
    /// A path names nothing, or an archive lacks the entry asked for.
    NotFound,
    /// The host refused access.
    PermissionDenied,
    /// Something is in the way of what was to be created.
    AlreadyExists,
    /// The archive or stream is not in the format it claims.
    CorruptArchive,
    /// The archive uses a feature that cannot be read here.
    UnsupportedArchive,
    /// Any other input or output failure.
    Io,
}

/// The kinds of `std::io::Error` that are told apart.
#[derive(Clone, Copy, Debug, PartialEq, Eq, Structural)]
pub enum IoKind {
    NotFound,
    PermissionDenied,
    AlreadyExists,
    InvalidData,
    Unsupported,
    Other,
}

/// The variants of a `ZipError`, with the input/output error kept whole.
pub enum ZipFault {
    Io(std::io::Error),
    InvalidArchive,
    UnsupportedArchive,
    FileNotFound,
    InvalidPassword,
    MethodNotSupported,
    Other,
}

/// The failure that stands for each kind of input/output error.
pub open spec fn failure_for(kind: IoKind) -> Failure {
    match kind {
        IoKind::NotFound => Failure::NotFound,
        IoKind::PermissionDenied => Failure::PermissionDenied,
        IoKind::AlreadyExists => Failure::AlreadyExists,
        IoKind::InvalidData => Failure::CorruptArchive,
        IoKind::Unsupported => Failure::UnsupportedArchive,
        IoKind::Other => Failure::Io,
    }
}

/// The kind under which a fault of the archive reader is reported: that of
/// the input/output error where it holds one, otherwise the kind that
/// stands for its variant.
pub open spec fn kind_of_fault(fault: ZipFault) -> IoKind {
    match fault {
        ZipFault::Io(inner) => reported_kind(inner),
        ZipFault::InvalidArchive => IoKind::InvalidData,
        ZipFault::UnsupportedArchive => IoKind::Unsupported,
        ZipFault::MethodNotSupported => IoKind::Unsupported,
        ZipFault::FileNotFound => IoKind::NotFound,
        ZipFault::InvalidPassword => IoKind::Other,
        ZipFault::Other => IoKind::Other,
    }
}

/// The kind that `std::io::Error::kind` reports of an error, read in the
/// six kinds told apart here.
pub uninterp spec fn reported_kind(error: std::io::Error) -> IoKind;

/// Calls `std::io::Error::kind` and names the variant it returned: one of
/// the five kinds told apart, or `Other` for every other.
#[verifier::external_body]
fn io_kind(error: &std::io::Error) -> (kind: IoKind)
    ensures
        kind == reported_kind(*error),
{
    match error.kind() {
        std::io::ErrorKind::NotFound => IoKind::NotFound,
        std::io::ErrorKind::PermissionDenied => IoKind::PermissionDenied,
        std::io::ErrorKind::AlreadyExists => IoKind::AlreadyExists,
        std::io::ErrorKind::InvalidData => IoKind::InvalidData,
        std::io::ErrorKind::Unsupported => IoKind::Unsupported,
        _ => IoKind::Other,
    }
}

/// The kind of the `std::io::Error` that `zip` turns an error into (its
/// `From<ZipError> for std::io::Error`), read in the six kinds told apart
/// here.
pub uninterp spec fn fault_kind(error: ZipError) -> IoKind;

/// Takes a `zip::result::ZipError` apart by variant, moving the
/// input/output error out of `ZipError::Io`. The fault is reported under
/// the kind that `zip` itself gives the error when it turns it into a
/// `std::io::Error`.
#[verifier::external_body]
pub(crate) fn zip_fault(error: ZipError) -> (fault: ZipFault)
    ensures
        kind_of_fault(fault) == fault_kind(error),
{
    match error {
        ZipError::Io(inner) => ZipFault::Io(inner),
        ZipError::InvalidArchive(_) => ZipFault::InvalidArchive,
        ZipError::UnsupportedArchive(_) => ZipFault::UnsupportedArchive,
        ZipError::FileNotFound => ZipFault::FileNotFound,
        ZipError::InvalidPassword => ZipFault::InvalidPassword,
        ZipError::CompressionMethodNotSupported(_) => ZipFault::MethodNotSupported,
        _ => ZipFault::Other,
    }
}

impl Failure {
    /// The failure for an input/output error of the given kind.
    pub fn from_kind(kind: IoKind) -> (failure: Failure)
        ensures
            failure == failure_for(kind),
    {
        match kind {
            IoKind::NotFound => Failure::NotFound,
            IoKind::PermissionDenied => Failure::PermissionDenied,
            IoKind::AlreadyExists => Failure::AlreadyExists,
            IoKind::InvalidData => Failure::CorruptArchive,
            IoKind::Unsupported => Failure::UnsupportedArchive,
            IoKind::Other => Failure::Io,
        }
    }

    /// The failure for an input/output error: that of the kind it reports.
    pub fn from_io(error: &std::io::Error) -> (failure: Failure)
        ensures
            failure == failure_for(reported_kind(*error)),
    {
        let kind = io_kind(error);
        Failure::from_kind(kind)
    }

    /// The failure for a fault of the archive reader: that of the kind
    /// under which the fault is reported.
    pub fn from_fault(fault: ZipFault) -> (failure: Failure)
        ensures
            failure == failure_for(kind_of_fault(fault)),
    {
        match fault {
            ZipFault::Io(inner) => Failure::from_io(&inner),
            ZipFault::InvalidArchive => Failure::from_kind(IoKind::InvalidData),
            ZipFault::UnsupportedArchive => Failure::from_kind(IoKind::Unsupported),
            ZipFault::MethodNotSupported => Failure::from_kind(IoKind::Unsupported),
            ZipFault::FileNotFound => Failure::from_kind(IoKind::NotFound),
            ZipFault::InvalidPassword => Failure::from_kind(IoKind::Other),
            ZipFault::Other => Failure::from_kind(IoKind::Other),
        }
    }
}

} // verus!
