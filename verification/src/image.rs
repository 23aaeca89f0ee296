//! Images: their shape, their element type and their storage.

pub mod cpu;
pub mod gpu;
pub mod image_data;
pub mod image_data_type;
pub mod image_dimensions;
pub mod into_element_type;

pub use image_data::ImageDataBase;
pub use image_data::MappedImageData;
pub use image_data_type::ImageDataType;
pub use image_data_type::ImageDataTypeGpuExt;
pub use image_dimensions::ImageDim;
pub use image_dimensions::ImageDimGpuExt;
pub use image_dimensions::ImageDimensions;
pub use into_element_type::IntoElementType;
pub use crate::error::ImageCreationError;
pub use crate::error::ImageDataError;

use vstd::prelude::*;
use crate::context::Context;
use crate::gl;
use crate::gl::GlCommand;
use crate::image::cpu::NdArrayImageData;
use crate::image::cpu::NdArrayImageState;
use crate::image::gpu::GpuImageData;
use crate::image::gpu::GpuImageState;
use crate::image::gpu::SyncAction;

verus! {

/// Where the pixels of an image live.
pub enum ImageData {
    Host(NdArrayImageData),
    Device(GpuImageData),
}

/// What an image holds.
pub enum ImageState {
    Host(NdArrayImageState),
    Device(GpuImageState),
}

impl ImageState {
    pub open spec fn dim(self) -> ImageDim {
        match self {
            ImageState::Host(s) => s.dim,
            ImageState::Device(s) => s.dim,
        }
    }

    pub open spec fn element_type(self) -> ImageDataType {
        match self {
            ImageState::Host(s) => s.element_type,
            ImageState::Device(s) => s.element_type,
        }
    }

    /// What mapping the image for reading gives on its own: the pixels of
    /// an image on the host.  An image on a device is refused with
    /// `Unsynced` unless a transfer has brought the host's copy up to the
    /// device's; where it has, the mapping is the driver's to give, through
    /// `GpuImageData::map_buffer`.
    pub open spec fn mapping(self) -> Result<NdArrayImageState, ImageDataError> {
        match self {
            ImageState::Host(s) => Ok(s),
            ImageState::Device(s) => if s.buffer.is_none() || !s.synced() {
                Err(ImageDataError::Unsynced)
            } else {
                Err(ImageDataError::UnknownMapping)
            },
        }
    }
}

/// An image, on the host or on a device.
pub struct Image {
    data: ImageData,
}

impl View for Image {
    type V = ImageState;

    closed spec fn view(&self) -> ImageState {
        match self.data {
            ImageData::Host(d) => ImageState::Host(d@),
            ImageData::Device(d) => ImageState::Device(d@),
        }
    }
}

impl Image {
    /// What the creation of an image on a device gives: `ContextNotSupported`
    /// unless the context is a device's, then what the shape, the number of
    /// channels and the driver's answer give.
    pub open spec fn spec_new_gpu(
        dim: ImageDim,
        element_type: ImageDataType,
        target: u32,
        context: &Context,
        allocation: Result<u32, String>,
    ) -> Result<GpuImageState, ImageCreationError> {
        match *context {
            Context::Cpu(_) => Err(ImageCreationError::ContextNotSupported),
            Context::Gpu(_) => GpuImageData::spec_new(dim, element_type, target, allocation),
        }
    }

    /// An image on the host of the given shape and element type, whose
    /// elements are all zero.
    pub fn new_cpu(dim: ImageDim, element_type: ImageDataType) -> (r: Self)
        requires
            dim.storage_fits(element_type),
        ensures
            r@ == ImageState::Host(NdArrayImageState::zeros(dim, element_type)),
    {
        Image { data: ImageData::Host(NdArrayImageData::new(dim, element_type)) }
    }

    /// A line of pixels on the device of the context.  The caller has asked
    /// the driver for the texture of `GpuImageData::request_1d`, where there
    /// is one, and hands in its name, or the driver's message.
    pub fn new_gpu_1d(
        dim: ImageDim,
        element_type: ImageDataType,
        context: &Context,
        allocation: Result<u32, String>,
    ) -> (r: Result<Self, ImageCreationError>)
        requires
            dim.byte_size_fits(element_type),
        ensures
            match r {
                Ok(image) => Self::spec_new_gpu(
                    dim,
                    element_type,
                    gl::TEXTURE_1D,
                    context,
                    allocation,
                ) == Ok::<GpuImageState, ImageCreationError>(image@->Device_0) && image@ is Device
                    && image@->Device_0.wf(),
                Err(e) => Self::spec_new_gpu(dim, element_type, gl::TEXTURE_1D, context, allocation)
                    == Err::<GpuImageState, ImageCreationError>(e),
            },
    {
        match context.gpu() {
            None => Err(ImageCreationError::ContextNotSupported),
            Some(_) => match GpuImageData::new_1d(dim, element_type, allocation) {
                Ok(data) => Ok(Image { data: ImageData::Device(data) }),
                Err(e) => Err(e),
            },
        }
    }

    /// A plane of pixels on the device of the context; see `new_gpu_1d`.
    pub fn new_gpu_2d(
        dim: ImageDim,
        element_type: ImageDataType,
        context: &Context,
        allocation: Result<u32, String>,
    ) -> (r: Result<Self, ImageCreationError>)
        requires
            dim.byte_size_fits(element_type),
        ensures
            match r {
                Ok(image) => Self::spec_new_gpu(
                    dim,
                    element_type,
                    gl::TEXTURE_2D,
                    context,
                    allocation,
                ) == Ok::<GpuImageState, ImageCreationError>(image@->Device_0) && image@ is Device
                    && image@->Device_0.wf(),
                Err(e) => Self::spec_new_gpu(dim, element_type, gl::TEXTURE_2D, context, allocation)
                    == Err::<GpuImageState, ImageCreationError>(e),
            },
    {
        match context.gpu() {
            None => Err(ImageCreationError::ContextNotSupported),
            Some(_) => match GpuImageData::new_2d(dim, element_type, allocation) {
                Ok(data) => Ok(Image { data: ImageData::Device(data) }),
                Err(e) => Err(e),
            },
        }
    }

    /// A volume of pixels on the device of the context; see `new_gpu_1d`.
    pub fn new_gpu_3d(
        dim: ImageDim,
        element_type: ImageDataType,
        context: &Context,
        allocation: Result<u32, String>,
    ) -> (r: Result<Self, ImageCreationError>)
        requires
            dim.byte_size_fits(element_type),
        ensures
            match r {
                Ok(image) => Self::spec_new_gpu(
                    dim,
                    element_type,
                    gl::TEXTURE_3D,
                    context,
                    allocation,
                ) == Ok::<GpuImageState, ImageCreationError>(image@->Device_0) && image@ is Device
                    && image@->Device_0.wf(),
                Err(e) => Self::spec_new_gpu(dim, element_type, gl::TEXTURE_3D, context, allocation)
                    == Err::<GpuImageState, ImageCreationError>(e),
            },
    {
        match context.gpu() {
            None => Err(ImageCreationError::ContextNotSupported),
            Some(_) => match GpuImageData::new_3d(dim, element_type, allocation) {
                Ok(data) => Ok(Image { data: ImageData::Device(data) }),
                Err(e) => Err(e),
            },
        }
    }

    /// Brings the host's copy of the pixels up to date.  An image on the
    /// host is up to date; an image on a device begins a transfer unless it
    /// is up to date, as `GpuImageData::sync` says.
    pub fn sync(&mut self) -> (action: SyncAction)
        ensures
            match old(self)@ {
                ImageState::Host(s) => final(self)@ == old(self)@ && action == SyncAction::Done(
                    Ok(()),
                ),
                ImageState::Device(s) => final(self)@ is Device && (final(self)@->Device_0, action)
                    == s.sync_begin(),
            },
    {
        sync_in(&mut self.data)
    }

    /// Gives up the image and gives the calls that release what it holds on
    /// a device: none for an image on the host.
    pub fn destroy(self) -> (r: Vec<GlCommand>)
        ensures
            r@ == match self@ {
                ImageState::Host(_) => Seq::<GlCommand>::empty(),
                ImageState::Device(s) => s.spec_destroy_commands(),
            },
    {
        match self.data {
            ImageData::Host(_) => Vec::new(),
            ImageData::Device(d) => d.destroy(),
        }
    }

    /// The image as an image on the host, if it is one.
    pub fn as_cpu_image(&self) -> (r: Option<&NdArrayImageData>)
        ensures
            match self@ {
                ImageState::Host(s) => r is Some && r->Some_0@ == s,
                ImageState::Device(_) => r is None,
            },
    {
        match &self.data {
            ImageData::Host(d) => Some(d),
            ImageData::Device(_) => None,
        }
    }

    /// The image as an image on the host, for changes, if it is one.
    pub fn as_cpu_image_mut(&mut self) -> (r: Option<&mut NdArrayImageData>)
        ensures
            match old(self)@ {
                ImageState::Host(s) => r is Some && r->Some_0@ == s && final(self)@
                    == ImageState::Host(final(r->Some_0)@),
                ImageState::Device(s) => r is None && final(self)@ == old(self)@,
            },
    {
        match &mut self.data {
            ImageData::Host(d) => Some(d),
            ImageData::Device(_) => None,
        }
    }

    /// The image as an image on a device, for changes, if it is one.
    pub fn as_gpu_image_mut(&mut self) -> (r: Option<&mut GpuImageData>)
        ensures
            match old(self)@ {
                ImageState::Host(s) => r is None && final(self)@ == old(self)@,
                ImageState::Device(s) => r is Some && r->Some_0@ == s && final(self)@
                    == ImageState::Device(final(r->Some_0)@),
            },
    {
        match &mut self.data {
            ImageData::Host(_) => None,
            ImageData::Device(d) => Some(d),
        }
    }

    /// Maps the pixels for writing: the image on the host itself, whose
    /// elements are written with `NdArrayImageData::store`.  An image on a
    /// device is refused as it is for reading.
    pub fn data_mut(&mut self) -> (r: Result<&mut NdArrayImageData, ImageDataError>)
        ensures
            match old(self)@ {
                ImageState::Host(s) => r is Ok && r->Ok_0@ == s && final(self)@
                    == ImageState::Host(final(r->Ok_0)@),
                ImageState::Device(_) => r is Err && Some(r->Err_0) == old(self)@.refusal()
                    && final(self)@ == old(self)@,
            },
    {
        let refusal = match self.data() {
            Ok(_) => None,
            Err(e) => Some(e),
        };
        match refusal {
            Some(e) => Err(e),
            None => match &mut self.data {
                ImageData::Host(d) => Ok(d),
                ImageData::Device(_) => Err(ImageDataError::UnknownMapping),
            },
        }
    }

    /// Maps the pixels for reading.
    pub fn data(&self) -> (r: Result<MappedImageData<'_>, ImageDataError>)
        ensures
            match r {
                Ok(mapped) => self@.mapping() == Ok::<NdArrayImageState, ImageDataError>(mapped@),
                Err(e) => self@.mapping() == Err::<NdArrayImageState, ImageDataError>(e),
            },
    {
        match &self.data {
            ImageData::Host(d) => Ok(MappedImageData::new(d)),
            ImageData::Device(d) => {
                if d.buffer().is_none() || d.host_generation() != d.device_generation() {
                    Err(ImageDataError::Unsynced)
                } else {
                    Err(ImageDataError::UnknownMapping)
                }
            },
        }
    }
}

impl ImageState {
    /// What mapping the image for writing gives on its own: the image on
    /// the host itself, or what refuses the mapping for reading.
    pub open spec fn refusal(self) -> Option<ImageDataError> {
        match self.mapping() {
            Ok(_) => None,
            Err(e) => Some(e),
        }
    }
}

fn sync_in(data: &mut ImageData) -> (action: SyncAction)
    ensures
        match *old(data) {
            ImageData::Host(d) => *final(data) == *old(data) && action == SyncAction::Done(Ok(())),
            ImageData::Device(d) => *final(data) is Device && (final(data)->Device_0@, action)
                == d@.sync_begin(),
        },
{
    match data {
        ImageData::Host(_) => SyncAction::Done(Ok(())),
        ImageData::Device(d) => d.sync(),
    }
}

impl ImageDataBase for Image {
    open spec fn spec_dim(&self) -> ImageDim {
        self@.dim()
    }

    open spec fn spec_element_type(&self) -> ImageDataType {
        self@.element_type()
    }

    open spec fn spec_on_device(&self) -> bool {
        self@ is Device
    }

    fn dim(&self) -> (r: ImageDim) {
        match &self.data {
            ImageData::Host(d) => d.dim(),
            ImageData::Device(d) => d.dim(),
        }
    }

    fn element_type(&self) -> (r: ImageDataType) {
        match &self.data {
            ImageData::Host(d) => d.element_type(),
            ImageData::Device(d) => d.element_type(),
        }
    }

    fn as_gpu_image(&self) -> (r: Option<&GpuImageData>) {
        match &self.data {
            ImageData::Host(_) => None,
            ImageData::Device(d) => Some(d),
        }
    }
}

/// An image on a device cannot have no channel, nor more than four: its
/// creation fails with `InvalidChannelCount`, whatever the element type and
/// whatever the driver answered, for a context of a device and a shape that
/// fits the dimensionality.
pub proof fn lemma_channel_count_is_validated(
    dim: ImageDim,
    element_type: ImageDataType,
    target: u32,
    context: &Context,
    allocation: Result<u32, String>,
)
    requires
        *context is Gpu,
        dim.channels == 0 || dim.channels > 4,
        target == gl::TEXTURE_1D ==> dim.fits_1d(),
        target == gl::TEXTURE_2D ==> dim.fits_2d(),
    ensures
        Image::spec_new_gpu(dim, element_type, target, context, allocation) == Err::<
            GpuImageState,
            ImageCreationError,
        >(ImageCreationError::InvalidChannelCount(dim.channels)),
{
}

/// A line of pixels on a device has one row and one layer, and a plane one
/// layer: the creation of any other fails with `InvalidImageSize`, whatever
/// the element type, the number of channels and the driver's answer, for a
/// context of a device.
pub proof fn lemma_dimensions_are_validated(
    dim: ImageDim,
    element_type: ImageDataType,
    context: &Context,
    allocation: Result<u32, String>,
)
    requires
        *context is Gpu,
    ensures
        dim.height > 1 || dim.depth > 1 ==> Image::spec_new_gpu(
            dim,
            element_type,
            gl::TEXTURE_1D,
            context,
            allocation,
        ) == Err::<GpuImageState, ImageCreationError>(ImageCreationError::InvalidImageSize),
        dim.depth > 1 ==> Image::spec_new_gpu(
            dim,
            element_type,
            gl::TEXTURE_2D,
            context,
            allocation,
        ) == Err::<GpuImageState, ImageCreationError>(ImageCreationError::InvalidImageSize),
{
}

/// On a context of the host no image on a device is created.
pub proof fn lemma_host_context_creates_no_device_image(
    dim: ImageDim,
    element_type: ImageDataType,
    target: u32,
    context: &Context,
    allocation: Result<u32, String>,
)
    requires
        *context is Cpu,
    ensures
        Image::spec_new_gpu(dim, element_type, target, context, allocation) == Err::<
            GpuImageState,
            ImageCreationError,
        >(ImageCreationError::ContextNotSupported),
{
}

} // verus!
