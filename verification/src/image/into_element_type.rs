use vstd::prelude::*;
use crate::float::F32Bits;
use crate::image::ImageDataType;

verus! {

/// The types that the elements of an image can have, and how a value of
/// one is turned into a value of the other.
pub trait IntoElementType {
    spec fn spec_into_element_type() -> ImageDataType;

    spec fn spec_to_u8(&self) -> u8;

    spec fn spec_to_f32(&self) -> F32Bits;

    /// The element type that the type is.
    fn into_element_type() -> (r: ImageDataType)
        ensures
            r == Self::spec_into_element_type(),
    ;

    /// The value as a byte, on a scale on which the byte 255 stands for 1.
    fn into_u8(&self) -> (r: u8)
        ensures
            r == self.spec_to_u8(),
    ;

    /// The value in single precision, on a scale on which the byte 255
    /// stands for 1.
    fn into_f32(&self) -> (r: F32Bits)
        ensures
            r == self.spec_to_f32(),
    ;
}

impl IntoElementType for F32Bits {
    open spec fn spec_into_element_type() -> ImageDataType {
        ImageDataType::Float32
    }

    open spec fn spec_to_u8(&self) -> u8 {
        self.spec_into_u8()
    }

    open spec fn spec_to_f32(&self) -> F32Bits {
        *self
    }

    fn into_element_type() -> (r: ImageDataType) {
        ImageDataType::Float32
    }

    fn into_u8(&self) -> (r: u8) {
        F32Bits::into_u8(self)
    }

    fn into_f32(&self) -> (r: F32Bits) {
        *self
    }
}

impl IntoElementType for u8 {
    open spec fn spec_into_element_type() -> ImageDataType {
        ImageDataType::UInt8
    }

    open spec fn spec_to_u8(&self) -> u8 {
        *self
    }

    open spec fn spec_to_f32(&self) -> F32Bits {
        F32Bits { bits: F32Bits::spec_from_u8(*self) }
    }

    fn into_element_type() -> (r: ImageDataType) {
        ImageDataType::UInt8
    }

    fn into_u8(&self) -> (r: u8) {
        *self
    }

    fn into_f32(&self) -> (r: F32Bits) {
        F32Bits::from_u8(*self)
    }
}

} // verus!
