//! Translation of native failure state into typed errors: category and
//! description are carried over exactly, the two fixed policies (missing
//! description, invalid encoding) apply, and the status test accepts only
//! the native pass code.

use graphicsmagick::error::{status_is_pass, MAGICK_FAIL, MAGICK_PASS};
use graphicsmagick::{Error, Exception, ExceptionType};

#[test]
fn test_status_constants() {
    assert_eq!(MAGICK_PASS, 1);
    assert_eq!(MAGICK_FAIL, 0);
}

#[test]
fn test_status_is_pass_only_on_pass() {
    assert!(status_is_pass(1));
    assert!(!status_is_pass(0));
    assert!(!status_is_pass(2));
    assert!(!status_is_pass(u32::MAX));
}

#[test]
fn test_exception_accessors() {
    let e = Exception::new(ExceptionType::BlobError, String::from("no pixels"));
    assert_eq!(e.get_exception_type(), ExceptionType::BlobError);
    assert_eq!(e.description().as_str(), "no pixels");
}

#[test]
fn test_exception_equality() {
    let a = Exception::new(ExceptionType::BlobError, String::from("no pixels"));
    let b = Exception::new(ExceptionType::BlobError, String::from("no pixels"));
    let c = Exception::new(ExceptionType::CacheError, String::from("no pixels"));
    let d = Exception::new(ExceptionType::BlobError, String::from("no data"));
    assert_eq!(a, b);
    assert_ne!(a, c);
    assert_ne!(a, d);
}

#[test]
fn test_error_from_exception() {
    let e = Exception::new(ExceptionType::WandError, String::from("bad wand"));
    let err = Error::from(e);
    assert_eq!(err.kind(), ExceptionType::WandError);
}

#[test]
fn test_exception_from_native_decode_failure_category() {
    // A failed read of a non-image byte sequence reports the corrupt-image
    // error severity; the translated error carries that category and the
    // exact description text.
    let severity = ExceptionType::CorruptImageError.to_native();
    assert_eq!(severity, 409);
    let description = b"Improper image header (example.png)".to_vec();
    let err = graphicsmagick::error::exception_from_native(severity, Some(description));
    assert_eq!(err.kind(), ExceptionType::CorruptImageError);
    match err {
        Error::Exception(e) => {
            assert_eq!(e.get_exception_type(), ExceptionType::CorruptImageError);
            assert_eq!(e.description().as_str(), "Improper image header (example.png)");
        }
        other => panic!("expected an exception, got {:?}", other),
    }
}

#[test]
fn test_exception_from_native_warning_and_fatal_categories() {
    let err = graphicsmagick::error::exception_from_native(302, Some(b"limit reached".to_vec()));
    assert_eq!(err.kind(), ExceptionType::ResourceWarning);

    let err = graphicsmagick::error::exception_from_native(702, Some(b"out of memory".to_vec()));
    assert_eq!(err.kind(), ExceptionType::ResourceFatalError);
}

#[test]
fn test_exception_from_native_missing_description() {
    let err = graphicsmagick::error::exception_from_native(409, None);
    match err {
        Error::Exception(e) => {
            assert_eq!(e.get_exception_type(), ExceptionType::UndefinedException);
            assert_eq!(e.description().as_str(), "Unknown exception");
        }
        other => panic!("expected an exception, got {:?}", other),
    }
}

#[test]
fn test_exception_from_native_invalid_description_encoding() {
    let bad = vec![0x66u8, 0x6f, 0xff, 0xfe];
    let err = graphicsmagick::error::exception_from_native(409, Some(bad));
    match err {
        Error::InvalidDescriptionEncoding { kind } => {
            assert_eq!(kind, ExceptionType::CorruptImageError);
        }
        other => panic!("expected an encoding error, got {:?}", other),
    }
}

#[test]
fn test_exception_from_native_unknown_severity() {
    let err = graphicsmagick::error::exception_from_native(9999, Some(b"odd".to_vec()));
    assert_eq!(err.kind(), ExceptionType::Unknown);
}

#[test]
fn test_exception_type_gap_values_are_unknown() {
    // The native numbering leaves gaps inside each severity block; values in
    // a gap are not constants of the library and map to the sentinel.
    assert_eq!(ExceptionType::from_native(103), ExceptionType::Unknown);
    assert_eq!(ExceptionType::from_native(104), ExceptionType::Unknown);
    assert_eq!(ExceptionType::from_native(303), ExceptionType::Unknown);
    assert_eq!(ExceptionType::from_native(304), ExceptionType::Unknown);
    assert_eq!(ExceptionType::from_native(200), ExceptionType::Unknown);
    assert_eq!(ExceptionType::from_native(500), ExceptionType::Unknown);
    assert_eq!(ExceptionType::from_native(699), ExceptionType::Unknown);
}

#[test]
fn test_exception_type_severity_block_values() {
    assert_eq!(ExceptionType::UndefinedException.to_native(), 0);
    assert_eq!(ExceptionType::EventException.to_native(), 100);
    assert_eq!(ExceptionType::WarningException.to_native(), 300);
    assert_eq!(ExceptionType::ErrorException.to_native(), 400);
    assert_eq!(ExceptionType::FatalErrorException.to_native(), 700);
    assert_eq!(ExceptionType::CorruptImageWarning.to_native(), 309);
    assert_eq!(ExceptionType::CorruptImageError.to_native(), 409);
    assert_eq!(ExceptionType::CorruptImageFatalError.to_native(), 709);
}
