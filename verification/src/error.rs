//! The errors that the library returns.

use vstd::prelude::*;
use vstd::string::StringExecFns;
use vstd::std_specs::convert::FromSpecImpl;

verus! {

/// An error that describes itself in words.
pub trait Describe {
    spec fn spec_describe(&self) -> Seq<char>;

    /// The text that describes the error.
    fn describe(&self) -> (s: String)
        ensures
            s@ == self.spec_describe(),
    ;
}

/// Why the pixels of an image could not be mapped.
#[derive(Debug, Clone, Copy, PartialEq, Eq, Structural)]
pub enum ImageDataError {
    UnknownMapping,
    /// The device holds pixels that have not been transferred to the host.
    Unsynced,
    /// The driver refused the mapping.
    MappingFailed,
}

impl ImageDataError {
    pub open spec fn spec_message(self) -> Seq<char> {
        match self {
            ImageDataError::UnknownMapping => "unknown mapping error"@,
            ImageDataError::Unsynced => "image needs to be synced before being mapped"@,
            ImageDataError::MappingFailed =>
                "mapping the image failed in the backend, check logs for details"@,
        }
    }

    /// The text that describes the error.
    pub fn message(&self) -> (s: String)
        ensures
            s@ == self.spec_message(),
    {
        match self {
            ImageDataError::UnknownMapping => String::from_str("unknown mapping error"),
            ImageDataError::Unsynced => String::from_str(
                "image needs to be synced before being mapped",
            ),
            ImageDataError::MappingFailed => String::from_str(
                "mapping the image failed in the backend, check logs for details",
            ),
        }
    }
}

/// The character of a digit.
pub open spec fn spec_digit(d: nat) -> Seq<char> {
    if d == 0 {
        "0"@
    } else if d == 1 {
        "1"@
    } else if d == 2 {
        "2"@
    } else if d == 3 {
        "3"@
    } else if d == 4 {
        "4"@
    } else if d == 5 {
        "5"@
    } else if d == 6 {
        "6"@
    } else if d == 7 {
        "7"@
    } else if d == 8 {
        "8"@
    } else {
        "9"@
    }
}

/// A number in decimal digits.
pub open spec fn spec_decimal(n: nat) -> Seq<char>
    decreases n,
{
    if n < 10 {
        spec_digit(n)
    } else {
        spec_decimal(n / 10) + spec_digit(n % 10)
    }
}

fn digit(d: usize) -> (r: &'static str)
    requires
        d < 10,
    ensures
        r@ == spec_digit(d as nat),
{
    if d == 0 {
        "0"
    } else if d == 1 {
        "1"
    } else if d == 2 {
        "2"
    } else if d == 3 {
        "3"
    } else if d == 4 {
        "4"
    } else if d == 5 {
        "5"
    } else if d == 6 {
        "6"
    } else if d == 7 {
        "7"
    } else if d == 8 {
        "8"
    } else {
        "9"
    }
}

/// Writes a number in decimal digits.
pub fn decimal(n: usize) -> (r: String)
    ensures
        r@ == spec_decimal(n as nat),
    decreases n,
{
    if n < 10 {
        String::from_str(digit(n))
    } else {
        decimal(n / 10).concat(digit(n % 10))
    }
}

/// Why an image could not be created.
#[derive(Debug, Clone, PartialEq, Eq)]
pub enum ImageCreationError {
    /// The context does not create images of this kind.
    ContextNotSupported,
    /// The driver failed to allocate the image; carries the driver's message.
    ImageCreationFailed(String),
    /// The number of channels is not one of 1, 2, 3, 4; carries the number.
    InvalidChannelCount(usize),
    /// The dimensions do not fit the requested dimensionality.
    InvalidImageSize,
}

impl ImageCreationError {
    pub open spec fn spec_message(self) -> Seq<char> {
        match self {
            ImageCreationError::ContextNotSupported =>
                "the context cannot create this type of images"@,
            ImageCreationError::ImageCreationFailed(m) => "failed to create the image: "@ + m@,
            ImageCreationError::InvalidChannelCount(n) => "unsupported number of channels: "@
                + spec_decimal(n as nat) + " (expected <= 4)"@,
            ImageCreationError::InvalidImageSize =>
                "invalid image dimensions for the requested dimension"@,
        }
    }

    /// The text that describes the error.
    pub fn message(&self) -> (s: String)
        ensures
            s@ == self.spec_message(),
    {
        match self {
            ImageCreationError::ContextNotSupported => String::from_str(
                "the context cannot create this type of images",
            ),
            ImageCreationError::ImageCreationFailed(m) => {
                String::from_str("failed to create the image: ").concat(m.as_str())
            },
            ImageCreationError::InvalidChannelCount(n) => {
                String::from_str("unsupported number of channels: ").concat(
                    decimal(*n).as_str(),
                ).concat(" (expected <= 4)")
            },
            ImageCreationError::InvalidImageSize => String::from_str(
                "invalid image dimensions for the requested dimension",
            ),
        }
    }
}

/// Why an operation on a context, an image or a method failed.
#[derive(Debug, Clone, PartialEq, Eq)]
pub enum Error {
    /// The operation has no implementation on the backend of the context.
    ContextNotSupported,
    /// The image is not of a kind that the operation can fill.
    FormatNotSupported,
    MethodNotFound,
    InvalidMethodName,
    /// The backend's resources could not be created; carries the platform's
    /// message.
    ContextCreationFailed(String),
    MethodInitializationFailed(String),
    MappingFailed(ImageDataError),
    /// The parameters are not those of the method, or a byte span of them
    /// has the wrong length.
    InvalidParameters,
    /// The graphics driver reported an error; carries its message.
    OpenGlError(String),
}

impl Error {
    pub open spec fn spec_message(self) -> Seq<char> {
        match self {
            Error::ContextNotSupported => "the method doesn't support the given context"@,
            Error::FormatNotSupported => "the method doesn't support the requested format"@,
            Error::MethodNotFound => "the requested method was not found"@,
            Error::InvalidMethodName => "invalid method name"@,
            Error::ContextCreationFailed(m) => "context creation failed: "@ + m@,
            Error::MethodInitializationFailed(m) => "method initialization failed: "@ + m@,
            Error::MappingFailed(e) => "mapping image failed: "@ + e.spec_message(),
            Error::InvalidParameters =>
                "the provided parameters do not apply to the given method"@,
            Error::OpenGlError(m) => "opengl error: "@ + m@,
        }
    }

    /// The text that describes the error.
    pub fn message(&self) -> (s: String)
        ensures
            s@ == self.spec_message(),
    {
        match self {
            Error::ContextNotSupported => String::from_str(
                "the method doesn't support the given context",
            ),
            Error::FormatNotSupported => String::from_str(
                "the method doesn't support the requested format",
            ),
            Error::MethodNotFound => String::from_str("the requested method was not found"),
            Error::InvalidMethodName => String::from_str("invalid method name"),
            Error::ContextCreationFailed(m) => {
                String::from_str("context creation failed: ").concat(m.as_str())
            },
            Error::MethodInitializationFailed(m) => {
                String::from_str("method initialization failed: ").concat(m.as_str())
            },
            Error::MappingFailed(e) => {
                let inner = e.message();
                String::from_str("mapping image failed: ").concat(inner.as_str())
            },
            Error::InvalidParameters => String::from_str(
                "the provided parameters do not apply to the given method",
            ),
            Error::OpenGlError(m) => String::from_str("opengl error: ").concat(m.as_str()),
        }
    }
}

impl From<ImageDataError> for Error {
    fn from(error: ImageDataError) -> (r: Error) {
        Error::MappingFailed(error)
    }
}

impl FromSpecImpl<ImageDataError> for Error {
    open spec fn obeys_from_spec() -> bool {
        true
    }

    open spec fn from_spec(error: ImageDataError) -> Error {
        Error::MappingFailed(error)
    }
}

impl Describe for ImageDataError {
    open spec fn spec_describe(&self) -> Seq<char> {
        self.spec_message()
    }

    fn describe(&self) -> (s: String) {
        self.message()
    }
}

impl Describe for ImageCreationError {
    open spec fn spec_describe(&self) -> Seq<char> {
        self.spec_message()
    }

    fn describe(&self) -> (s: String) {
        self.message()
    }
}

impl Describe for Error {
    open spec fn spec_describe(&self) -> Seq<char> {
        self.spec_message()
    }

    fn describe(&self) -> (s: String) {
        self.message()
    }
}

} // verus!
