use epic_backend::failure::{Failure, IoKind, ZipFault};
use std::io::{Error, ErrorKind};

#[test]
fn each_kind_has_its_failure() {
    assert_eq!(Failure::from_kind(IoKind::NotFound), Failure::NotFound);
    assert_eq!(
        Failure::from_kind(IoKind::PermissionDenied),
        Failure::PermissionDenied
    );
    assert_eq!(
        Failure::from_kind(IoKind::AlreadyExists),
        Failure::AlreadyExists
    );
    assert_eq!(
        Failure::from_kind(IoKind::InvalidData),
        Failure::CorruptArchive
    );
    assert_eq!(
        Failure::from_kind(IoKind::Unsupported),
        Failure::UnsupportedArchive
    );
    assert_eq!(Failure::from_kind(IoKind::Other), Failure::Io);
}

#[test]
fn a_missing_source_is_reported_as_not_found() {
    let error = Error::from(ErrorKind::NotFound);
    assert_eq!(Failure::from_io(&error), Failure::NotFound);
}

#[test]
fn io_errors_are_told_apart_by_kind() {
    assert_eq!(
        Failure::from_io(&Error::from(ErrorKind::PermissionDenied)),
        Failure::PermissionDenied
    );
    assert_eq!(
        Failure::from_io(&Error::from(ErrorKind::AlreadyExists)),
        Failure::AlreadyExists
    );
    assert_eq!(
        Failure::from_io(&Error::from(ErrorKind::InvalidData)),
        Failure::CorruptArchive
    );
    assert_eq!(
        Failure::from_io(&Error::from(ErrorKind::Unsupported)),
        Failure::UnsupportedArchive
    );
    assert_eq!(
        Failure::from_io(&Error::from(ErrorKind::UnexpectedEof)),
        Failure::Io
    );
}

#[test]
fn archive_faults_have_their_failures() {
    assert_eq!(
        Failure::from_fault(ZipFault::InvalidArchive),
        Failure::CorruptArchive
    );
    assert_eq!(
        Failure::from_fault(ZipFault::UnsupportedArchive),
        Failure::UnsupportedArchive
    );
    assert_eq!(
        Failure::from_fault(ZipFault::MethodNotSupported),
        Failure::UnsupportedArchive
    );
    assert_eq!(Failure::from_fault(ZipFault::FileNotFound), Failure::NotFound);
    assert_eq!(Failure::from_fault(ZipFault::InvalidPassword), Failure::Io);
    assert_eq!(Failure::from_fault(ZipFault::Other), Failure::Io);
    assert_eq!(
        Failure::from_fault(ZipFault::Io(Error::from(ErrorKind::PermissionDenied))),
        Failure::PermissionDenied
    );
}
