use txkit::error::decimal;
use txkit::error::Describe;
use txkit::error::Error;
use txkit::error::ImageCreationError;
use txkit::error::ImageDataError;

#[test]
fn every_error_has_its_text() {
    assert_eq!(
        Error::ContextNotSupported.message(),
        "the method doesn't support the given context"
    );
    assert_eq!(
        Error::FormatNotSupported.message(),
        "the method doesn't support the requested format"
    );
    assert_eq!(Error::MethodNotFound.message(), "the requested method was not found");
    assert_eq!(Error::InvalidMethodName.message(), "invalid method name");
    assert_eq!(
        Error::ContextCreationFailed(String::from("no display")).message(),
        "context creation failed: no display"
    );
    assert_eq!(
        Error::MethodInitializationFailed(String::from("link")).message(),
        "method initialization failed: link"
    );
    assert_eq!(
        Error::MappingFailed(ImageDataError::Unsynced).message(),
        "mapping image failed: image needs to be synced before being mapped"
    );
    assert_eq!(
        Error::InvalidParameters.message(),
        "the provided parameters do not apply to the given method"
    );
    assert_eq!(Error::OpenGlError(String::from("1282")).message(), "opengl error: 1282");
}

#[test]
fn every_mapping_error_has_its_text() {
    assert_eq!(ImageDataError::UnknownMapping.message(), "unknown mapping error");
    assert_eq!(
        ImageDataError::Unsynced.message(),
        "image needs to be synced before being mapped"
    );
    assert_eq!(
        ImageDataError::MappingFailed.message(),
        "mapping the image failed in the backend, check logs for details"
    );
}

#[test]
fn every_creation_error_has_its_text() {
    assert_eq!(
        ImageCreationError::ContextNotSupported.message(),
        "the context cannot create this type of images"
    );
    assert_eq!(
        ImageCreationError::ImageCreationFailed(String::from("out of memory")).message(),
        "failed to create the image: out of memory"
    );
    assert_eq!(
        ImageCreationError::InvalidChannelCount(17).message(),
        "unsupported number of channels: 17 (expected <= 4)"
    );
    assert_eq!(
        ImageCreationError::InvalidChannelCount(0).message(),
        "unsupported number of channels: 0 (expected <= 4)"
    );
    assert_eq!(
        ImageCreationError::InvalidImageSize.message(),
        "invalid image dimensions for the requested dimension"
    );
}

#[test]
fn numbers_are_written_in_decimal() {
    for n in [0usize, 1, 9, 10, 11, 99, 100, 101, 4096, 65535, 1234567890] {
        assert_eq!(decimal(n), format!("{}", n));
    }
    assert_eq!(decimal(usize::MAX), format!("{}", usize::MAX));
}

#[test]
fn a_mapping_error_becomes_an_error() {
    assert_eq!(
        Error::from(ImageDataError::MappingFailed),
        Error::MappingFailed(ImageDataError::MappingFailed)
    );
}

#[test]
fn an_error_describes_itself_by_its_text() {
    assert_eq!(Error::MethodNotFound.describe(), Error::MethodNotFound.message());
    assert_eq!(
        ImageCreationError::InvalidImageSize.describe(),
        ImageCreationError::InvalidImageSize.message()
    );
    assert_eq!(ImageDataError::Unsynced.describe(), ImageDataError::Unsynced.message());
}
