//! Images whose pixels live in a texture of the device.
//!
//! The library keeps the books of such an image: the names of its texture
//! and of its pixel-transfer buffer, and two counters that tell whether the
//! host's copy of the pixels is current.  The caller makes the driver calls
//! that the library asks for and reports how they ended.

use vstd::prelude::*;
use crate::error::Error;
use crate::error::ImageCreationError;
use crate::error::ImageDataError;
use crate::gl;
use crate::gl::GlCommand;
use crate::image::ImageDataType;
use crate::image::ImageDataTypeGpuExt;
use crate::image::ImageDim;
use crate::image::ImageDimGpuExt;

verus! {

/// Longest wait for a transfer on one call of the driver, in nanoseconds.
pub const TRANSFER_WAIT_NS: u64 = 10_000_000;

/// The texture that the driver must allocate for a new image.
#[derive(Debug, Clone, Copy, PartialEq, Eq, Structural)]
pub struct TextureRequest {
    pub target: u32,
    pub internal_format: i32,
    pub width: usize,
    pub height: usize,
    pub depth: usize,
    pub format: u32,
    pub data_type: u32,
}

impl TextureRequest {
    pub open spec fn spec_allocate_commands(self, texture: u32) -> Seq<GlCommand> {
        seq![
            GlCommand::BindTexture { target: self.target, texture: Some(texture) },
            GlCommand::TexParameter {
                target: self.target,
                parameter: gl::TEXTURE_MIN_FILTER,
                value: gl::NEAREST,
            },
            GlCommand::TexParameter {
                target: self.target,
                parameter: gl::TEXTURE_MAG_FILTER,
                value: gl::NEAREST,
            },
            GlCommand::TexImage {
                target: self.target,
                internal_format: self.internal_format,
                width: self.width,
                height: self.height,
                depth: self.depth,
                format: self.format,
                data_type: self.data_type,
            },
        ]
    }

    pub open spec fn spec_release_commands(self) -> Seq<GlCommand> {
        seq![GlCommand::BindTexture { target: self.target, texture: None }]
    }

    /// The calls that allocate the texture once the driver has named it:
    /// nearest filtering both ways, then storage without data.  The caller
    /// asks the driver for its last error afterwards.
    pub fn allocate_commands(&self, texture: u32) -> (r: Vec<GlCommand>)
        ensures
            r@ == self.spec_allocate_commands(texture),
    {
        let mut r: Vec<GlCommand> = Vec::new();
        r.push(GlCommand::BindTexture { target: self.target, texture: Some(texture) });
        r.push(
            GlCommand::TexParameter {
                target: self.target,
                parameter: gl::TEXTURE_MIN_FILTER,
                value: gl::NEAREST,
            },
        );
        r.push(
            GlCommand::TexParameter {
                target: self.target,
                parameter: gl::TEXTURE_MAG_FILTER,
                value: gl::NEAREST,
            },
        );
        r.push(
            GlCommand::TexImage {
                target: self.target,
                internal_format: self.internal_format,
                width: self.width,
                height: self.height,
                depth: self.depth,
                format: self.format,
                data_type: self.data_type,
            },
        );
        assert(r@ =~= self.spec_allocate_commands(texture));
        r
    }

    /// The calls that follow the allocation, whether it succeeded or not.
    pub fn release_commands(&self) -> (r: Vec<GlCommand>)
        ensures
            r@ == self.spec_release_commands(),
    {
        let mut r: Vec<GlCommand> = Vec::new();
        r.push(GlCommand::BindTexture { target: self.target, texture: None });
        assert(r@ =~= self.spec_release_commands());
        r
    }
}

/// Where an image stands in a transfer or a mapping.
#[derive(Debug, Clone, Copy, PartialEq, Eq, Structural)]
pub enum Phase {
    /// Neither is under way.
    Idle,
    /// A transfer waits for the name of a new buffer.
    AwaitBuffer,
    /// A transfer waits to hear whether the buffer got its storage.
    AwaitStorage,
    /// A transfer waits for the fence that follows its commands.
    AwaitFence,
    /// A mapping waits for the fence of the last transfer.
    MapWait { fence: u64, usage: u32 },
    /// A mapping waits to hear whether the driver gave an address.
    MapPending { usage: u32 },
}

/// What the caller reports during a transfer.
#[derive(Debug, PartialEq, Eq)]
pub enum SyncEvent {
    /// The name of the new buffer, or the driver's message.
    BufferCreated(Result<u32, String>),
    /// The driver's last error after the buffer's storage was asked for.
    StorageAllocated(Result<(), String>),
    /// The fence inserted after the transfer's commands, or the driver's
    /// message.
    FenceInserted(Result<u64, String>),
}

/// What the caller does next during a transfer.
#[derive(Debug, PartialEq, Eq)]
pub enum SyncAction {
    /// Create a buffer and report `BufferCreated`.
    CreateBuffer,
    /// Issue `storage_commands`, ask the driver for its last error and report
    /// `StorageAllocated`.
    AllocateStorage,
    /// Issue `transfer_commands`, insert a fence that signals when the
    /// device's commands are complete and report `FenceInserted`.
    Transfer,
    /// The transfer is under way, or was not needed, or failed.
    Done(Result<(), Error>),
}

/// What the caller reports during a mapping.
#[derive(Debug, Clone, Copy, PartialEq, Eq, Structural)]
pub enum MapEvent {
    /// The status that the wait on the fence returned.
    Waited(u32),
    /// Whether the driver gave an address for the buffer.
    Mapped(bool),
}

/// What the caller does next during a mapping.
#[derive(Debug, Clone, Copy, PartialEq, Eq)]
pub enum MapAction {
    /// Wait on the fence, flushing commands, for at most `timeout`
    /// nanoseconds, and report `Waited`.
    Wait { fence: u64, flags: u32, timeout: u64 },
    /// Issue `map_commands` and report `Mapped`.
    MapBuffer,
    /// The buffer is mapped, or the mapping failed.
    Done(Result<(), ImageDataError>),
}

/// What the library knows of an image on the device.
#[derive(Debug, Clone, Copy)]
pub struct GpuImageState {
    /// Name of the texture that holds the pixels.
    pub texture: u32,
    /// Name of the pixel-transfer buffer, once one was created.
    pub buffer: Option<u32>,
    pub element_type: ImageDataType,
    pub dim: ImageDim,
    /// The kind of texture: of one, two or three dimensions.
    pub target: u32,
    /// The fence of a transfer that has not been waited for yet.
    pub transfer_sync: Option<u64>,
    /// Counts the times that the texture was drawn into.
    pub device_generation: u32,
    /// The value that `device_generation` had at the last transfer.
    pub host_generation: u32,
    /// The value that `device_generation` had when the transfer under way
    /// began.
    pub transfer_generation: u32,
    /// Whether the buffer is mapped.
    pub mapped: bool,
    pub phase: Phase,
}

impl GpuImageState {
    pub open spec fn wf(self) -> bool {
        &&& (self.target == gl::TEXTURE_1D || self.target == gl::TEXTURE_2D || self.target
            == gl::TEXTURE_3D)
        &&& (self.target == gl::TEXTURE_1D ==> self.dim.fits_1d())
        &&& (self.target == gl::TEXTURE_2D ==> self.dim.fits_2d())
        &&& self.dim.channels_supported()
        &&& self.dim.byte_size_fits(self.element_type)
        &&& self.host_generation <= self.device_generation
        &&& self.transfer_generation <= self.device_generation
        &&& (self.transfer_sync.is_some() ==> self.buffer.is_some())
        &&& (self.mapped ==> self.buffer.is_some())
        &&& (self.phase != Phase::Idle && self.phase != Phase::AwaitBuffer
            ==> self.buffer.is_some())
    }

    /// Whether the host's copy of the pixels is that of the device.
    pub open spec fn synced(self) -> bool {
        self.host_generation == self.device_generation
    }

    /// The state of an image that was just created around a texture.
    pub open spec fn fresh(
        dim: ImageDim,
        element_type: ImageDataType,
        target: u32,
        texture: u32,
    ) -> GpuImageState {
        GpuImageState {
            texture,
            buffer: None,
            element_type,
            dim,
            target,
            transfer_sync: None,
            device_generation: 0,
            host_generation: 0,
            transfer_generation: 0,
            mapped: false,
            phase: Phase::Idle,
        }
    }

    /// The state after the texture was drawn into.
    pub open spec fn rendered(self) -> GpuImageState {
        GpuImageState { device_generation: (self.device_generation + 1) as u32, ..self }
    }

    /// State and action when a transfer is asked for.
    pub open spec fn sync_begin(self) -> (GpuImageState, SyncAction) {
        if self.synced() {
            (self, SyncAction::Done(Ok(())))
        } else if self.mapped {
            (self, SyncAction::Done(Err(Error::MappingFailed(ImageDataError::MappingFailed))))
        } else if self.buffer.is_none() {
            (
                GpuImageState {
                    phase: Phase::AwaitBuffer,
                    transfer_generation: self.device_generation,
                    ..self
                },
                SyncAction::CreateBuffer,
            )
        } else {
            (
                GpuImageState {
                    phase: Phase::AwaitStorage,
                    transfer_generation: self.device_generation,
                    ..self
                },
                SyncAction::AllocateStorage,
            )
        }
    }

    /// State and action when the caller reports during a transfer.
    pub open spec fn sync_step(self, event: SyncEvent) -> (GpuImageState, SyncAction) {
        let idle = GpuImageState { phase: Phase::Idle, ..self };
        match (self.phase, event) {
            (Phase::AwaitBuffer, SyncEvent::BufferCreated(Ok(buffer))) => (
                GpuImageState { buffer: Some(buffer), phase: Phase::AwaitStorage, ..self },
                SyncAction::AllocateStorage,
            ),
            (Phase::AwaitBuffer, SyncEvent::BufferCreated(Err(m))) => (
                idle,
                SyncAction::Done(Err(Error::OpenGlError(m))),
            ),
            (Phase::AwaitStorage, SyncEvent::StorageAllocated(Ok(()))) => (
                GpuImageState { phase: Phase::AwaitFence, ..self },
                SyncAction::Transfer,
            ),
            (Phase::AwaitStorage, SyncEvent::StorageAllocated(Err(m))) => (
                idle,
                SyncAction::Done(Err(Error::OpenGlError(m))),
            ),
            (Phase::AwaitFence, SyncEvent::FenceInserted(Ok(fence))) => (
                GpuImageState {
                    transfer_sync: Some(fence),
                    host_generation: self.transfer_generation,
                    phase: Phase::Idle,
                    ..self
                },
                SyncAction::Done(Ok(())),
            ),
            (Phase::AwaitFence, SyncEvent::FenceInserted(Err(m))) => (
                idle,
                SyncAction::Done(Err(Error::OpenGlError(m))),
            ),
            _ => (self, SyncAction::Done(Err(Error::MappingFailed(ImageDataError::UnknownMapping)))),
        }
    }

    /// Whether a wait that returned `status` is over: the fence has
    /// signalled, or the wait has failed and the mapping goes on
    /// regardless.
    pub open spec fn wait_is_over(status: u32) -> bool {
        status == gl::ALREADY_SIGNALED || status == gl::CONDITION_SATISFIED || status
            == gl::WAIT_FAILED
    }

    /// State and action when a mapping with the given access is asked for.
    pub open spec fn map_begin(self, usage: u32) -> (GpuImageState, MapAction) {
        if self.buffer.is_none() || !self.synced() {
            (self, MapAction::Done(Err(ImageDataError::Unsynced)))
        } else if self.mapped || self.phase != Phase::Idle {
            (self, MapAction::Done(Err(ImageDataError::MappingFailed)))
        } else {
            match self.transfer_sync {
                Some(fence) => (
                    GpuImageState {
                        transfer_sync: None,
                        phase: Phase::MapWait { fence, usage },
                        ..self
                    },
                    MapAction::Wait {
                        fence,
                        flags: gl::SYNC_FLUSH_COMMANDS_BIT,
                        timeout: TRANSFER_WAIT_NS,
                    },
                ),
                None => (GpuImageState { phase: Phase::MapPending { usage }, ..self }, MapAction::MapBuffer),
            }
        }
    }

    /// State and action when the caller reports during a mapping.
    pub open spec fn map_step(self, event: MapEvent) -> (GpuImageState, MapAction) {
        match (self.phase, event) {
            (Phase::MapWait { fence, usage }, MapEvent::Waited(status)) => {
                if Self::wait_is_over(status) {
                    (GpuImageState { phase: Phase::MapPending { usage }, ..self }, MapAction::MapBuffer)
                } else {
                    (
                        self,
                        MapAction::Wait {
                            fence,
                            flags: gl::SYNC_FLUSH_COMMANDS_BIT,
                            timeout: TRANSFER_WAIT_NS,
                        },
                    )
                }
            },
            (Phase::MapPending { usage }, MapEvent::Mapped(true)) => (
                GpuImageState { mapped: true, phase: Phase::Idle, ..self },
                MapAction::Done(Ok(())),
            ),
            (Phase::MapPending { usage }, MapEvent::Mapped(false)) => (
                GpuImageState { phase: Phase::Idle, ..self },
                MapAction::Done(Err(ImageDataError::MappingFailed)),
            ),
            _ => (self, MapAction::Done(Err(ImageDataError::UnknownMapping))),
        }
    }

    /// The state once a mapping was released.
    pub open spec fn unmapped(self) -> GpuImageState {
        GpuImageState { mapped: false, ..self }
    }

    pub open spec fn spec_storage_commands(self) -> Seq<GlCommand> {
        match self.buffer {
            Some(buffer) => seq![
                GlCommand::BindBuffer { target: gl::PIXEL_PACK_BUFFER, buffer: Some(buffer) },
                GlCommand::BufferData {
                    target: gl::PIXEL_PACK_BUFFER,
                    size: self.dim.byte_size(self.element_type) as usize,
                    usage: gl::DYNAMIC_READ,
                },
            ],
            None => seq![],
        }
    }

    pub open spec fn spec_transfer_commands(self) -> Seq<GlCommand> {
        seq![
            GlCommand::BindTexture { target: self.target, texture: Some(self.texture) },
            GlCommand::GetTexImage {
                target: self.target,
                format: self.dim.spec_unsized_format().unwrap(),
                data_type: self.element_type.spec_format_type(),
            },
            GlCommand::BindBuffer { target: gl::PIXEL_PACK_BUFFER, buffer: None },
        ]
    }

    pub open spec fn spec_map_commands(self) -> Seq<GlCommand> {
        match (self.buffer, self.phase) {
            (Some(buffer), Phase::MapPending { usage }) => seq![
                GlCommand::BindBuffer { target: gl::PIXEL_PACK_BUFFER, buffer: Some(buffer) },
                GlCommand::MapBufferRange {
                    target: gl::PIXEL_PACK_BUFFER,
                    length: self.dim.byte_size(self.element_type) as usize,
                    access: usage,
                },
                GlCommand::BindBuffer { target: gl::PIXEL_PACK_BUFFER, buffer: None },
            ],
            _ => seq![],
        }
    }

    pub open spec fn spec_destroy_commands(self) -> Seq<GlCommand> {
        match self.buffer {
            Some(buffer) => seq![
                GlCommand::DeleteTexture { texture: self.texture },
                GlCommand::DeleteBuffer { buffer },
            ],
            None => seq![GlCommand::DeleteTexture { texture: self.texture }],
        }
    }

    pub open spec fn spec_unmap_commands(self) -> Seq<GlCommand> {
        match self.buffer {
            Some(buffer) => seq![
                GlCommand::BindBuffer { target: gl::PIXEL_PACK_BUFFER, buffer: Some(buffer) },
                GlCommand::UnmapBuffer { target: gl::PIXEL_PACK_BUFFER },
                GlCommand::BindBuffer { target: gl::PIXEL_PACK_BUFFER, buffer: None },
            ],
            None => seq![],
        }
    }
}

/// An image whose pixels live in a texture of the device.
pub struct GpuImageData {
    state: GpuImageState,
}

impl View for GpuImageData {
    type V = GpuImageState;

    closed spec fn view(&self) -> GpuImageState {
        self.state
    }
}

impl GpuImageData {
    #[verifier::type_invariant]
    spec fn inv(self) -> bool {
        self.state.wf()
    }

    /// The texture to allocate for an image of a shape and element type, or
    /// why there is none: the shape must fit the dimensionality, and the
    /// number of channels must have a pixel format.
    pub open spec fn spec_request(
        dim: ImageDim,
        element_type: ImageDataType,
        target: u32,
    ) -> Result<TextureRequest, ImageCreationError> {
        if (target == gl::TEXTURE_1D && !dim.fits_1d()) || (target == gl::TEXTURE_2D
            && !dim.fits_2d()) {
            Err(ImageCreationError::InvalidImageSize)
        } else {
            match (dim.spec_internal_format(element_type), dim.spec_unsized_format()) {
                (Some(internal_format), Some(format)) => Ok(
                    TextureRequest {
                        target,
                        internal_format,
                        width: dim.width,
                        height: dim.height,
                        depth: dim.depth,
                        format,
                        data_type: element_type.spec_format_type(),
                    },
                ),
                _ => Err(ImageCreationError::InvalidChannelCount(dim.channels)),
            }
        }
    }

    /// The image that results when the driver was asked for the texture and
    /// answered with `allocation`, or why there is none.
    pub open spec fn spec_new(
        dim: ImageDim,
        element_type: ImageDataType,
        target: u32,
        allocation: Result<u32, String>,
    ) -> Result<GpuImageState, ImageCreationError> {
        match Self::spec_request(dim, element_type, target) {
            Err(e) => Err(e),
            Ok(_) => match allocation {
                Ok(texture) => Ok(GpuImageState::fresh(dim, element_type, target, texture)),
                Err(m) => Err(ImageCreationError::ImageCreationFailed(m)),
            },
        }
    }

    fn request_nd(dim: ImageDim, element_type: ImageDataType, target: u32) -> (r: Result<
        TextureRequest,
        ImageCreationError,
    >)
        ensures
            r == Self::spec_request(dim, element_type, target),
    {
        if target == gl::TEXTURE_1D && (dim.height > 1 || dim.depth > 1) {
            return Err(ImageCreationError::InvalidImageSize);
        }
        if target == gl::TEXTURE_2D && dim.depth > 1 {
            return Err(ImageCreationError::InvalidImageSize);
        }
        let internal_format = match dim.internal_format(element_type) {
            Some(f) => f,
            None => {
                return Err(ImageCreationError::InvalidChannelCount(dim.channels));
            },
        };
        let format = match dim.unsized_format() {
            Some(f) => f,
            None => {
                return Err(ImageCreationError::InvalidChannelCount(dim.channels));
            },
        };
        Ok(
            TextureRequest {
                target,
                internal_format,
                width: dim.width,
                height: dim.height,
                depth: dim.depth,
                format,
                data_type: element_type.format_type(),
            },
        )
    }

    /// The texture to allocate for a line of pixels.
    pub fn request_1d(dim: ImageDim, element_type: ImageDataType) -> (r: Result<
        TextureRequest,
        ImageCreationError,
    >)
        ensures
            r == Self::spec_request(dim, element_type, gl::TEXTURE_1D),
    {
        Self::request_nd(dim, element_type, gl::TEXTURE_1D)
    }

    /// The texture to allocate for a plane of pixels.
    pub fn request_2d(dim: ImageDim, element_type: ImageDataType) -> (r: Result<
        TextureRequest,
        ImageCreationError,
    >)
        ensures
            r == Self::spec_request(dim, element_type, gl::TEXTURE_2D),
    {
        Self::request_nd(dim, element_type, gl::TEXTURE_2D)
    }

    /// The texture to allocate for a volume of pixels.
    pub fn request_3d(dim: ImageDim, element_type: ImageDataType) -> (r: Result<
        TextureRequest,
        ImageCreationError,
    >)
        ensures
            r == Self::spec_request(dim, element_type, gl::TEXTURE_3D),
    {
        Self::request_nd(dim, element_type, gl::TEXTURE_3D)
    }

    fn new_nd(
        dim: ImageDim,
        element_type: ImageDataType,
        target: u32,
        allocation: Result<u32, String>,
    ) -> (r: Result<Self, ImageCreationError>)
        requires
            target == gl::TEXTURE_1D || target == gl::TEXTURE_2D || target == gl::TEXTURE_3D,
            dim.byte_size_fits(element_type),
        ensures
            match r {
                Ok(image) => Self::spec_new(dim, element_type, target, allocation) == Ok::<
                    GpuImageState,
                    ImageCreationError,
                >(image@) && image@.wf(),
                Err(e) => Self::spec_new(dim, element_type, target, allocation) == Err::<
                    GpuImageState,
                    ImageCreationError,
                >(e),
            },
    {
        match Self::request_nd(dim, element_type, target) {
            Err(e) => Err(e),
            Ok(_) => match allocation {
                Ok(texture) => {
                    let state = GpuImageState {
                        texture,
                        buffer: None,
                        element_type,
                        dim,
                        target,
                        transfer_sync: None,
                        device_generation: 0,
                        host_generation: 0,
                        transfer_generation: 0,
                        mapped: false,
                        phase: Phase::Idle,
                    };
                    Ok(GpuImageData { state })
                },
                Err(m) => Err(ImageCreationError::ImageCreationFailed(m)),
            },
        }
    }

    /// A line of pixels on the device.  The caller has asked the driver for
    /// the texture of `request_1d`, where there is one, and hands in its
    /// name, or the driver's message.  The shape and the number of channels
    /// are judged first, so that a shape that is refused is refused whatever
    /// the driver said.
    pub fn new_1d(dim: ImageDim, element_type: ImageDataType, allocation: Result<u32, String>) -> (r:
        Result<Self, ImageCreationError>)
        requires
            dim.byte_size_fits(element_type),
        ensures
            match r {
                Ok(image) => Self::spec_new(dim, element_type, gl::TEXTURE_1D, allocation) == Ok::<
                    GpuImageState,
                    ImageCreationError,
                >(image@) && image@.wf(),
                Err(e) => Self::spec_new(dim, element_type, gl::TEXTURE_1D, allocation) == Err::<
                    GpuImageState,
                    ImageCreationError,
                >(e),
            },
    {
        Self::new_nd(dim, element_type, gl::TEXTURE_1D, allocation)
    }

    /// A plane of pixels on the device; see `new_1d`.
    pub fn new_2d(dim: ImageDim, element_type: ImageDataType, allocation: Result<u32, String>) -> (r:
        Result<Self, ImageCreationError>)
        requires
            dim.byte_size_fits(element_type),
        ensures
            match r {
                Ok(image) => Self::spec_new(dim, element_type, gl::TEXTURE_2D, allocation) == Ok::<
                    GpuImageState,
                    ImageCreationError,
                >(image@) && image@.wf(),
                Err(e) => Self::spec_new(dim, element_type, gl::TEXTURE_2D, allocation) == Err::<
                    GpuImageState,
                    ImageCreationError,
                >(e),
            },
    {
        Self::new_nd(dim, element_type, gl::TEXTURE_2D, allocation)
    }

    /// A volume of pixels on the device; see `new_1d`.
    pub fn new_3d(dim: ImageDim, element_type: ImageDataType, allocation: Result<u32, String>) -> (r:
        Result<Self, ImageCreationError>)
        requires
            dim.byte_size_fits(element_type),
        ensures
            match r {
                Ok(image) => Self::spec_new(dim, element_type, gl::TEXTURE_3D, allocation) == Ok::<
                    GpuImageState,
                    ImageCreationError,
                >(image@) && image@.wf(),
                Err(e) => Self::spec_new(dim, element_type, gl::TEXTURE_3D, allocation) == Err::<
                    GpuImageState,
                    ImageCreationError,
                >(e),
            },
    {
        Self::new_nd(dim, element_type, gl::TEXTURE_3D, allocation)
    }

    /// The kind of the texture.
    pub fn target(&self) -> (r: u32)
        ensures
            r == self@.target,
            self@.wf(),
    {
        proof {
            use_type_invariant(self);
        }
        self.state.target
    }

    /// Shape of the image.
    pub fn dim(&self) -> (r: ImageDim)
        ensures
            r == self@.dim,
    {
        self.state.dim
    }

    /// Type of the elements of the image.
    pub fn element_type(&self) -> (r: ImageDataType)
        ensures
            r == self@.element_type,
    {
        self.state.element_type
    }

    /// Name of the texture.
    pub fn texture(&self) -> (r: u32)
        ensures
            r == self@.texture,
    {
        self.state.texture
    }

    /// Name of the pixel-transfer buffer, once one was created.
    pub fn buffer(&self) -> (r: Option<u32>)
        ensures
            r == self@.buffer,
    {
        self.state.buffer
    }

    /// How many times the texture was drawn into.
    pub fn device_generation(&self) -> (r: u32)
        ensures
            r == self@.device_generation,
    {
        self.state.device_generation
    }

    /// The value of `device_generation` at the last transfer to the host.
    pub fn host_generation(&self) -> (r: u32)
        ensures
            r == self@.host_generation,
            r <= self@.device_generation,
    {
        proof {
            use_type_invariant(self);
        }
        self.state.host_generation
    }

    /// Whether the buffer is mapped.
    pub fn is_mapped(&self) -> (r: bool)
        ensures
            r == self@.mapped,
    {
        self.state.mapped
    }

    /// Where the image stands in a transfer or a mapping.
    pub fn phase(&self) -> (r: Phase)
        ensures
            r == self@.phase,
    {
        self.state.phase
    }

    /// Number of bytes of the pixels.
    pub fn byte_size(&self) -> (r: usize)
        ensures
            r == self@.dim.byte_size(self@.element_type),
    {
        proof {
            use_type_invariant(self);
        }
        let unit = self.state.element_type.byte_size();
        unit * self.state.dim.width * self.state.dim.height * self.state.dim.depth
            * self.state.dim.channels
    }

    /// Records that the texture was drawn into, so that the host's copy of
    /// the pixels is no longer current.
    pub fn invalidate_host(&mut self)
        requires
            old(self)@.device_generation < u32::MAX,
        ensures
            final(self)@ == old(self)@.rendered(),
            final(self)@.wf(),
    {
        proof {
            use_type_invariant(&*self);
        }
        let state = self.state;
        self.state = GpuImageState { device_generation: state.device_generation + 1, ..state };
    }

    /// Asks for the pixels to be transferred to the host.  Nothing is done
    /// where the host's copy is current.  The transfer itself is not waited
    /// for: a mapping waits for it.
    pub fn sync(&mut self) -> (action: SyncAction)
        ensures
            (final(self)@, action) == old(self)@.sync_begin(),
            final(self)@.wf(),
    {
        proof {
            use_type_invariant(&*self);
        }
        let state = self.state;
        if state.host_generation == state.device_generation {
            SyncAction::Done(Ok(()))
        } else if state.mapped {
            SyncAction::Done(Err(Error::MappingFailed(ImageDataError::MappingFailed)))
        } else if state.buffer.is_none() {
            self.state = GpuImageState {
                phase: Phase::AwaitBuffer,
                transfer_generation: state.device_generation,
                ..state
            };
            SyncAction::CreateBuffer
        } else {
            self.state = GpuImageState {
                phase: Phase::AwaitStorage,
                transfer_generation: state.device_generation,
                ..state
            };
            SyncAction::AllocateStorage
        }
    }

    /// Goes on with a transfer after the caller has done what the last
    /// action asked for.  A report that does not answer the last action
    /// changes nothing and ends in `UnknownMapping`.
    pub fn sync_event(&mut self, event: SyncEvent) -> (action: SyncAction)
        ensures
            (final(self)@, action) == old(self)@.sync_step(event),
            final(self)@.wf(),
    {
        proof {
            use_type_invariant(&*self);
        }
        let state = self.state;
        match (state.phase, event) {
            (Phase::AwaitBuffer, SyncEvent::BufferCreated(Ok(buffer))) => {
                self.state = GpuImageState {
                    buffer: Some(buffer),
                    phase: Phase::AwaitStorage,
                    ..state
                };
                SyncAction::AllocateStorage
            },
            (Phase::AwaitBuffer, SyncEvent::BufferCreated(Err(m))) => {
                self.state = GpuImageState { phase: Phase::Idle, ..state };
                SyncAction::Done(Err(Error::OpenGlError(m)))
            },
            (Phase::AwaitStorage, SyncEvent::StorageAllocated(Ok(()))) => {
                self.state = GpuImageState { phase: Phase::AwaitFence, ..state };
                SyncAction::Transfer
            },
            (Phase::AwaitStorage, SyncEvent::StorageAllocated(Err(m))) => {
                self.state = GpuImageState { phase: Phase::Idle, ..state };
                SyncAction::Done(Err(Error::OpenGlError(m)))
            },
            (Phase::AwaitFence, SyncEvent::FenceInserted(Ok(fence))) => {
                self.state = GpuImageState {
                    transfer_sync: Some(fence),
                    host_generation: state.transfer_generation,
                    phase: Phase::Idle,
                    ..state
                };
                SyncAction::Done(Ok(()))
            },
            (Phase::AwaitFence, SyncEvent::FenceInserted(Err(m))) => {
                self.state = GpuImageState { phase: Phase::Idle, ..state };
                SyncAction::Done(Err(Error::OpenGlError(m)))
            },
            _ => SyncAction::Done(Err(Error::MappingFailed(ImageDataError::UnknownMapping))),
        }
    }

    /// The calls that give the buffer its storage.
    pub fn storage_commands(&self) -> (r: Vec<GlCommand>)
        ensures
            r@ == self@.spec_storage_commands(),
    {
        let mut r: Vec<GlCommand> = Vec::new();
        if let Some(buffer) = self.state.buffer {
            let size = self.byte_size();
            r.push(GlCommand::BindBuffer { target: gl::PIXEL_PACK_BUFFER, buffer: Some(buffer) });
            r.push(
                GlCommand::BufferData {
                    target: gl::PIXEL_PACK_BUFFER,
                    size,
                    usage: gl::DYNAMIC_READ,
                },
            );
        }
        assert(r@ =~= self@.spec_storage_commands());
        r
    }

    /// The calls that read the texture into the buffer, which is bound.
    pub fn transfer_commands(&self) -> (r: Vec<GlCommand>)
        ensures
            r@ == self@.spec_transfer_commands(),
    {
        proof {
            use_type_invariant(self);
        }
        let mut r: Vec<GlCommand> = Vec::new();
        let format = match self.state.dim.unsized_format() {
            Some(f) => f,
            None => gl::RGBA,
        };
        r.push(GlCommand::BindTexture { target: self.state.target, texture: Some(self.state.texture) });
        r.push(
            GlCommand::GetTexImage {
                target: self.state.target,
                format,
                data_type: self.state.element_type.format_type(),
            },
        );
        r.push(GlCommand::BindBuffer { target: gl::PIXEL_PACK_BUFFER, buffer: None });
        assert(r@ =~= self@.spec_transfer_commands());
        r
    }

    /// Asks for the buffer to be mapped with the given access.  Refused
    /// with `Unsynced` unless a transfer has brought the host's copy up to
    /// the device's, and with `MappingFailed` while the buffer is mapped or
    /// a transfer or a mapping is under way.
    pub fn map_buffer(&mut self, usage: u32) -> (action: MapAction)
        ensures
            (final(self)@, action) == old(self)@.map_begin(usage),
            final(self)@.wf(),
    {
        proof {
            use_type_invariant(&*self);
        }
        let state = self.state;
        if state.buffer.is_none() || state.host_generation != state.device_generation {
            MapAction::Done(Err(ImageDataError::Unsynced))
        } else if state.mapped || !matches!(state.phase, Phase::Idle) {
            MapAction::Done(Err(ImageDataError::MappingFailed))
        } else {
            match state.transfer_sync {
                Some(fence) => {
                    self.state = GpuImageState {
                        transfer_sync: None,
                        phase: Phase::MapWait { fence, usage },
                        ..state
                    };
                    MapAction::Wait {
                        fence,
                        flags: gl::SYNC_FLUSH_COMMANDS_BIT,
                        timeout: TRANSFER_WAIT_NS,
                    }
                },
                None => {
                    self.state = GpuImageState { phase: Phase::MapPending { usage }, ..state };
                    MapAction::MapBuffer
                },
            }
        }
    }

    /// Goes on with a mapping after the caller has done what the last
    /// action asked for.  The wait is repeated until the fence has
    /// signalled or the wait has failed; after a failed wait the mapping
    /// goes on.  A report that does not answer the last action changes
    /// nothing and ends in `UnknownMapping`.
    pub fn map_event(&mut self, event: MapEvent) -> (action: MapAction)
        ensures
            (final(self)@, action) == old(self)@.map_step(event),
            final(self)@.wf(),
    {
        proof {
            use_type_invariant(&*self);
        }
        let state = self.state;
        match (state.phase, event) {
            (Phase::MapWait { fence, usage }, MapEvent::Waited(status)) => {
                if status == gl::ALREADY_SIGNALED || status == gl::CONDITION_SATISFIED || status
                    == gl::WAIT_FAILED {
                    self.state = GpuImageState { phase: Phase::MapPending { usage }, ..state };
                    MapAction::MapBuffer
                } else {
                    MapAction::Wait {
                        fence,
                        flags: gl::SYNC_FLUSH_COMMANDS_BIT,
                        timeout: TRANSFER_WAIT_NS,
                    }
                }
            },
            (Phase::MapPending { usage }, MapEvent::Mapped(true)) => {
                self.state = GpuImageState { mapped: true, phase: Phase::Idle, ..state };
                MapAction::Done(Ok(()))
            },
            (Phase::MapPending { usage }, MapEvent::Mapped(false)) => {
                self.state = GpuImageState { phase: Phase::Idle, ..state };
                MapAction::Done(Err(ImageDataError::MappingFailed))
            },
            _ => MapAction::Done(Err(ImageDataError::UnknownMapping)),
        }
    }

    /// The calls that map the buffer.
    pub fn map_commands(&self) -> (r: Vec<GlCommand>)
        ensures
            r@ == self@.spec_map_commands(),
    {
        let mut r: Vec<GlCommand> = Vec::new();
        if let Some(buffer) = self.state.buffer {
            if let Phase::MapPending { usage } = self.state.phase {
                let length = self.byte_size();
                r.push(
                    GlCommand::BindBuffer { target: gl::PIXEL_PACK_BUFFER, buffer: Some(buffer) },
                );
                r.push(
                    GlCommand::MapBufferRange {
                        target: gl::PIXEL_PACK_BUFFER,
                        length,
                        access: usage,
                    },
                );
                r.push(GlCommand::BindBuffer { target: gl::PIXEL_PACK_BUFFER, buffer: None });
            }
        }
        assert(r@ =~= self@.spec_map_commands());
        r
    }

    /// Gives up the image and gives the calls that release what it holds on
    /// the device: its texture, and its buffer where it has one.
    pub fn destroy(self) -> (r: Vec<GlCommand>)
        ensures
            r@ == self@.spec_destroy_commands(),
    {
        let mut r: Vec<GlCommand> = Vec::new();
        r.push(GlCommand::DeleteTexture { texture: self.state.texture });
        if let Some(buffer) = self.state.buffer {
            r.push(GlCommand::DeleteBuffer { buffer });
        }
        assert(r@ =~= self@.spec_destroy_commands());
        r
    }

    /// Releases the mapping and gives the calls that unmap the buffer.
    pub fn unmap_buffer(&mut self) -> (r: Vec<GlCommand>)
        ensures
            final(self)@ == old(self)@.unmapped(),
            r@ == old(self)@.spec_unmap_commands(),
            final(self)@.wf(),
    {
        proof {
            use_type_invariant(&*self);
        }
        let state = self.state;
        let mut r: Vec<GlCommand> = Vec::new();
        if let Some(buffer) = state.buffer {
            r.push(GlCommand::BindBuffer { target: gl::PIXEL_PACK_BUFFER, buffer: Some(buffer) });
            r.push(GlCommand::UnmapBuffer { target: gl::PIXEL_PACK_BUFFER });
            r.push(GlCommand::BindBuffer { target: gl::PIXEL_PACK_BUFFER, buffer: None });
        }
        self.state = GpuImageState { mapped: false, ..state };
        assert(r@ =~= state.spec_unmap_commands());
        r
    }
}

/// The counters of an image on a device.  A new image is in step.  A
/// drawing advances the device's counter by one and leaves the host's.  A
/// transfer that goes through brings the host's counter up to the
/// device's, whether a buffer had to be created or not.  On an image that is
/// in step a transfer does nothing: no action is asked for and nothing
/// changes.
pub proof fn lemma_generations(
    dim: ImageDim,
    element_type: ImageDataType,
    target: u32,
    texture: u32,
    state: GpuImageState,
    buffer: u32,
    fence: u64,
)
    requires
        state.wf(),
        !state.mapped,
        state.device_generation < u32::MAX,
    ensures
        GpuImageState::fresh(dim, element_type, target, texture).synced(),
        state.rendered().device_generation == state.device_generation + 1,
        state.rendered().host_generation == state.host_generation,
        !state.rendered().synced(),
        ({
            let begun = state.rendered().sync_begin();
            let named = if begun.1 == SyncAction::CreateBuffer {
                begun.0.sync_step(SyncEvent::BufferCreated(Ok(buffer)))
            } else {
                begun
            };
            let stored = named.0.sync_step(SyncEvent::StorageAllocated(Ok(())));
            let fenced = stored.0.sync_step(SyncEvent::FenceInserted(Ok(fence)));
            &&& named.1 == SyncAction::AllocateStorage
            &&& stored.1 == SyncAction::Transfer
            &&& fenced.1 == SyncAction::Done(Ok(()))
            &&& fenced.0.synced()
            &&& fenced.0.device_generation == state.device_generation + 1
            &&& fenced.0.transfer_sync == Some(fence)
            &&& fenced.0.sync_begin() == (fenced.0, SyncAction::Done(Ok(())))
        }),
{
}

/// A transfer keeps the state of an image well formed, whatever the caller
/// reports, and so does a mapping.
pub proof fn lemma_protocol_keeps_state(state: GpuImageState, sync: SyncEvent, map: MapEvent, usage: u32)
    requires
        state.wf(),
    ensures
        state.sync_begin().0.wf(),
        state.sync_step(sync).0.wf(),
        state.map_begin(usage).0.wf(),
        state.map_step(map).0.wf(),
        state.unmapped().wf(),
        state.device_generation < u32::MAX ==> state.rendered().wf(),
        state.sync_begin().0.device_generation == state.device_generation,
        state.sync_step(sync).0.device_generation == state.device_generation,
        state.sync_step(sync).0.host_generation <= state.device_generation,
{
}

/// A mapping is refused with `Unsynced` exactly when no transfer has
/// brought the host's copy of the pixels up to the device's.
pub proof fn lemma_mapping_needs_sync(state: GpuImageState, usage: u32)
    requires
        state.wf(),
    ensures
        state.map_begin(usage).1 == MapAction::Done(Err(ImageDataError::Unsynced)) <==> (
        state.buffer.is_none() || !state.synced()),
        state.map_begin(usage).1 is Done ==> state.map_begin(usage).0 == state,
{
}

} // verus!
