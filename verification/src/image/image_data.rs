use vstd::prelude::*;
use crate::image::cpu::Float32Array;
use crate::image::cpu::NdArrayImageData;
use crate::image::cpu::NdArrayImageState;
use crate::image::cpu::UInt8Array;
use crate::image::cpu::float32_elements;
use crate::image::cpu::float32_shape;
use crate::image::cpu::uint8_elements;
use crate::image::cpu::uint8_shape;
use crate::image::gpu::GpuImageData;
use crate::image::ImageDataType;
use crate::image::ImageDim;

verus! {

/// What every kind of image tells of itself.
pub trait ImageDataBase {
    spec fn spec_dim(&self) -> ImageDim;

    spec fn spec_element_type(&self) -> ImageDataType;

    /// Whether the pixels live on a device.
    spec fn spec_on_device(&self) -> bool;

    /// The shape of the image.
    fn dim(&self) -> (r: ImageDim)
        ensures
            r == self.spec_dim(),
    ;

    /// The type of the elements of the image.
    fn element_type(&self) -> (r: ImageDataType)
        ensures
            r == self.spec_element_type(),
    ;

    /// The image as an image on a device, if it is one.
    fn as_gpu_image(&self) -> (r: Option<&GpuImageData>)
        ensures
            r is Some <==> self.spec_on_device(),
            r is Some ==> r->Some_0@.dim == self.spec_dim() && r->Some_0@.element_type
                == self.spec_element_type(),
    ;
}

impl ImageDataBase for NdArrayImageData {
    open spec fn spec_dim(&self) -> ImageDim {
        self@.dim
    }

    open spec fn spec_element_type(&self) -> ImageDataType {
        self@.element_type
    }

    open spec fn spec_on_device(&self) -> bool {
        false
    }

    fn dim(&self) -> (r: ImageDim) {
        NdArrayImageData::dim(self)
    }

    fn element_type(&self) -> (r: ImageDataType) {
        NdArrayImageData::element_type(self)
    }

    fn as_gpu_image(&self) -> (r: Option<&GpuImageData>) {
        None
    }
}

impl ImageDataBase for GpuImageData {
    open spec fn spec_dim(&self) -> ImageDim {
        self@.dim
    }

    open spec fn spec_element_type(&self) -> ImageDataType {
        self@.element_type
    }

    open spec fn spec_on_device(&self) -> bool {
        true
    }

    fn dim(&self) -> (r: ImageDim) {
        GpuImageData::dim(self)
    }

    fn element_type(&self) -> (r: ImageDataType) {
        GpuImageData::element_type(self)
    }

    fn as_gpu_image(&self) -> (r: Option<&GpuImageData>) {
        Some(self)
    }
}

/// The pixels of an image, mapped for reading.
pub struct MappedImageData<'a> {
    tgt: &'a NdArrayImageData,
}

impl<'a> View for MappedImageData<'a> {
    type V = NdArrayImageState;

    closed spec fn view(&self) -> NdArrayImageState {
        self.tgt@
    }
}

impl<'a> MappedImageData<'a> {
    /// The mapping of an image on the host, which is the image itself.
    pub fn new(tgt: &'a NdArrayImageData) -> (r: Self)
        ensures
            r@ == tgt@,
    {
        MappedImageData { tgt }
    }

    /// The pixels as an array of bytes, where bytes are the element type.
    pub fn as_u8_nd_array(&self) -> (r: Option<&'a UInt8Array>)
        ensures
            self@.element_type == ImageDataType::UInt8 <==> r is Some,
            r is Some ==> uint8_elements(*r->Some_0) == self@.bytes && uint8_shape(*r->Some_0)
                == self@.dim.shape(),
    {
        self.tgt.as_u8_nd_array()
    }

    /// The pixels as an array of single-precision values, where these are
    /// the element type.
    pub fn as_f32_nd_array(&self) -> (r: Option<&'a Float32Array>)
        ensures
            self@.element_type == ImageDataType::Float32 <==> r is Some,
            r is Some ==> float32_elements(*r->Some_0) == self@.values && float32_shape(
                *r->Some_0,
            ) == self@.dim.shape(),
    {
        self.tgt.as_f32_nd_array()
    }
}

} // verus!
