use vstd::prelude::*;
use crate::gl;

verus! {

/// Type of the elements of an image.
#[derive(Debug, Clone, Copy, PartialEq, Eq, Structural)]
pub enum ImageDataType {
    /// Unsigned bytes: 0 stands for 0.0 and 255 for 1.0.
    UInt8,
    /// Single-precision floating point, 32 bits.
    Float32,
}

impl ImageDataType {
    pub open spec fn spec_byte_size(self) -> nat {
        match self {
            ImageDataType::UInt8 => 1,
            ImageDataType::Float32 => 4,
        }
    }

    /// Number of bytes that one element takes.
    pub fn byte_size(&self) -> (r: usize)
        ensures
            r == self.spec_byte_size(),
    {
        match self {
            ImageDataType::UInt8 => 1,
            ImageDataType::Float32 => 4,
        }
    }
}

/// What a device needs to know of an element type.
pub trait ImageDataTypeGpuExt {
    spec fn spec_format_type(&self) -> u32;

    /// The enumerant by which the driver knows the element type.
    fn format_type(&self) -> (r: u32)
        ensures
            r == self.spec_format_type(),
    ;
}

impl ImageDataTypeGpuExt for ImageDataType {
    open spec fn spec_format_type(&self) -> u32 {
        match self {
            ImageDataType::UInt8 => gl::UNSIGNED_BYTE,
            ImageDataType::Float32 => gl::FLOAT,
        }
    }

    fn format_type(&self) -> (r: u32) {
        match self {
            ImageDataType::UInt8 => gl::UNSIGNED_BYTE,
            ImageDataType::Float32 => gl::FLOAT,
        }
    }
}

} // verus!
