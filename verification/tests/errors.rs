//! The error vocabulary.

use dirs::error::DirsError;

#[test]
fn home_missing_description() {
    let e = DirsError::HomeMissing;
    assert_eq!(e.description(), "unable to obtain the home directory");
}

#[test]
fn io_error_carries_its_message() {
    let e = DirsError::IoError("permission denied".to_owned());
    assert_eq!(e.description(), "permission denied");
}

#[test]
fn parse_error_carries_its_message() {
    let e = DirsError::ParseError("invalid utf-16".to_owned());
    assert_eq!(e.description(), "invalid utf-16");
}

#[test]
fn platform_error_carries_its_message() {
    let e = DirsError::PlatformError("SHGetKnownFolderPath returned 0x80070005".to_owned());
    assert_eq!(
        e.description(),
        "SHGetKnownFolderPath returned 0x80070005"
    );
}
