use vstd::prelude::*;
use vstd::std_specs::convert::FromSpecImpl;
use crate::gl;
use crate::image::ImageDataType;

verus! {

/// Shape of an image: its extent along each axis and the number of channels
/// of a pixel.
#[derive(Debug, Clone, Copy)]
pub struct ImageDimensions<T> {
    pub width: T,
    pub height: T,
    pub depth: T,
    pub channels: T,
}

impl<T> ImageDimensions<T> {
    /// The shape of a volume.
    pub fn new_3d(width: T, height: T, depth: T, channels: T) -> (r: Self)
        ensures
            r.width == width,
            r.height == height,
            r.depth == depth,
            r.channels == channels,
    {
        Self { width, height, depth, channels }
    }

    /// The shape as storage orders its axes: layers, rows, columns, channels.
    pub fn into_nd_array_dim(self) -> (r: (T, T, T, T))
        ensures
            r == (self.depth, self.height, self.width, self.channels),
    {
        (self.depth, self.height, self.width, self.channels)
    }
}

impl<T> From<(T, T, T, T)> for ImageDimensions<T> {
    fn from(dim: (T, T, T, T)) -> (r: Self) {
        Self { depth: dim.0, height: dim.1, width: dim.2, channels: dim.3 }
    }
}

impl<T> FromSpecImpl<(T, T, T, T)> for ImageDimensions<T> {
    open spec fn obeys_from_spec() -> bool {
        true
    }

    open spec fn from_spec(dim: (T, T, T, T)) -> Self {
        ImageDimensions { depth: dim.0, height: dim.1, width: dim.2, channels: dim.3 }
    }
}

/// Shape of an image in elements.
pub type ImageDim = ImageDimensions<usize>;

impl ImageDimensions<usize> {
    /// The shape of a plane: one layer.
    pub fn new(width: usize, height: usize, channels: usize) -> (r: Self)
        ensures
            r.width == width,
            r.height == height,
            r.depth == 1,
            r.channels == channels,
    {
        Self { width, height, depth: 1, channels }
    }

    /// The shape of a line: one row, one layer.
    pub fn new_1d(width: usize, channels: usize) -> (r: Self)
        ensures
            r.width == width,
            r.height == 1,
            r.depth == 1,
            r.channels == channels,
    {
        Self { width, height: 1, depth: 1, channels }
    }

    /// Number of elements of an image of this shape.
    pub open spec fn element_count(self) -> nat {
        (self.depth * self.height * self.width * self.channels) as nat
    }

    /// Number of bytes that the elements of an image of this shape take.
    pub open spec fn byte_size(self, element_type: ImageDataType) -> nat {
        (element_type.spec_byte_size() * self.width * self.height * self.depth
            * self.channels) as nat
    }

    /// Whether the number of bytes can be computed in machine integers,
    /// axis by axis.
    pub open spec fn byte_size_fits(self, element_type: ImageDataType) -> bool {
        &&& element_type.spec_byte_size() * self.width <= usize::MAX
        &&& element_type.spec_byte_size() * self.width * self.height <= usize::MAX
        &&& element_type.spec_byte_size() * self.width * self.height * self.depth <= usize::MAX
        &&& element_type.spec_byte_size() * self.width * self.height * self.depth
            * self.channels <= usize::MAX
    }

    /// Whether a device has a pixel format for this number of channels.
    pub open spec fn channels_supported(self) -> bool {
        1 <= self.channels <= 4
    }

    /// Whether the shape is that of a line.
    pub open spec fn fits_1d(self) -> bool {
        self.height <= 1 && self.depth <= 1
    }

    /// Whether the shape is that of a plane.
    pub open spec fn fits_2d(self) -> bool {
        self.depth <= 1
    }

    /// Place of an element in storage, which is row-major over layers, rows,
    /// columns and channels.
    pub open spec fn flat_index(self, k: int, j: int, i: int, l: int) -> int {
        ((k * self.height + j) * self.width + i) * self.channels + l
    }

    /// Whether the coordinates name an element of an image of this shape.
    pub open spec fn contains(self, k: int, j: int, i: int, l: int) -> bool {
        0 <= k < self.depth && 0 <= j < self.height && 0 <= i < self.width && 0 <= l
            < self.channels
    }
}

/// The place of an element of an image lies within the image's storage.
pub proof fn lemma_flat_index_in_range(dim: ImageDim, k: int, j: int, i: int, l: int)
    requires
        dim.contains(k, j, i, l),
    ensures
        0 <= dim.flat_index(k, j, i, l) < dim.element_count(),
{
    let d = dim.depth as int;
    let h = dim.height as int;
    let w = dim.width as int;
    let c = dim.channels as int;
    let x2 = k * h + j;
    let x1 = x2 * w + i;
    assert(0 <= x2 <= d * h - 1) by (nonlinear_arith)
        requires
            0 <= k < d,
            0 <= j < h,
            x2 == k * h + j,
    ;
    assert(0 <= x1 <= d * h * w - 1) by (nonlinear_arith)
        requires
            0 <= x2 <= d * h - 1,
            0 <= i < w,
            x1 == x2 * w + i,
    ;
    assert(0 <= x1 * c + l <= d * h * w * c - 1) by (nonlinear_arith)
        requires
            0 <= x1 <= d * h * w - 1,
            0 <= l < c,
    ;
}

/// What a device needs to know of a shape.
pub trait ImageDimGpuExt {
    spec fn spec_internal_format(&self, element_type: ImageDataType) -> Option<i32>;

    spec fn spec_unsized_format(&self) -> Option<u32>;

    spec fn spec_into_cgmath(&self) -> (u32, u32, u32);

    /// The sized pixel format of a texture of this shape, if there is one
    /// for the number of channels.
    fn internal_format(&self, element_type: ImageDataType) -> (r: Option<i32>)
        ensures
            r == self.spec_internal_format(element_type),
    ;

    /// The pixel format by which pixels of this shape are transferred, if
    /// there is one for the number of channels.
    fn unsized_format(&self) -> (r: Option<u32>)
        ensures
            r == self.spec_unsized_format(),
    ;

    /// Width, height and depth as a shader takes the resolution.
    fn into_cgmath(&self) -> (r: (u32, u32, u32))
        ensures
            r == self.spec_into_cgmath(),
    ;
}

impl ImageDimGpuExt for ImageDimensions<usize> {
    open spec fn spec_internal_format(&self, element_type: ImageDataType) -> Option<i32> {
        match element_type {
            ImageDataType::UInt8 => if self.channels == 1 {
                Some(0x8229i32)
            } else if self.channels == 2 {
                Some(0x822Bi32)
            } else if self.channels == 3 {
                Some(0x8051i32)
            } else if self.channels == 4 {
                Some(0x8058i32)
            } else {
                None
            },
            ImageDataType::Float32 => if self.channels == 1 {
                Some(0x822Ei32)
            } else if self.channels == 2 {
                Some(0x8230i32)
            } else if self.channels == 3 {
                Some(0x8815i32)
            } else if self.channels == 4 {
                Some(0x8814i32)
            } else {
                None
            },
        }
    }

    open spec fn spec_unsized_format(&self) -> Option<u32> {
        if self.channels == 1 {
            Some(gl::RED)
        } else if self.channels == 2 {
            Some(gl::RG)
        } else if self.channels == 3 {
            Some(gl::RGB)
        } else if self.channels == 4 {
            Some(gl::RGBA)
        } else {
            None
        }
    }

    open spec fn spec_into_cgmath(&self) -> (u32, u32, u32) {
        (self.width as u32, self.height as u32, self.depth as u32)
    }

    fn internal_format(&self, element_type: ImageDataType) -> (r: Option<i32>) {
        match element_type {
            ImageDataType::UInt8 => match self.channels {
                1 => Some(gl::R8 as i32),
                2 => Some(gl::RG8 as i32),
                3 => Some(gl::RGB8 as i32),
                4 => Some(gl::RGBA8 as i32),
                _ => None,
            },
            ImageDataType::Float32 => match self.channels {
                1 => Some(gl::R32F as i32),
                2 => Some(gl::RG32F as i32),
                3 => Some(gl::RGB32F as i32),
                4 => Some(gl::RGBA32F as i32),
                _ => None,
            },
        }
    }

    fn unsized_format(&self) -> (r: Option<u32>) {
        match self.channels {
            1 => Some(gl::RED),
            2 => Some(gl::RG),
            3 => Some(gl::RGB),
            4 => Some(gl::RGBA),
            _ => None,
        }
    }

    fn into_cgmath(&self) -> (r: (u32, u32, u32)) {
        (self.width as u32, self.height as u32, self.depth as u32)
    }
}

/// A device has a pixel format for a shape exactly when the shape has one
/// to four channels, whatever the element type.
pub proof fn lemma_format_exists_iff_channels_supported(dim: ImageDim, element_type: ImageDataType)
    ensures
        dim.spec_internal_format(element_type).is_some() <==> dim.channels_supported(),
        dim.spec_unsized_format().is_some() <==> dim.channels_supported(),
{
}

} // verus!
