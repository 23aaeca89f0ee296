//! Images whose pixels live in the host's memory, in a dense array of four
//! axes: layers, rows, columns, channels.

use vstd::prelude::*;
use crate::float::F32Bits;
use crate::image::ImageDataType;
use crate::image::ImageDim;
use crate::image::ImageDimensions;

verus! {

/// A dense array of bytes with four axes.
#[verifier::external_body]
pub struct UInt8Array {
    inner: ndarray::Array4<u8>,
}

/// A dense array with four axes of single-precision values, each given by
/// its bits.
#[verifier::external_body]
pub struct Float32Array {
    inner: ndarray::Array4<u32>,
}

/// The elements of an array of bytes, the rightmost index varying fastest.
pub uninterp spec fn uint8_elements(a: UInt8Array) -> Seq<u8>;

/// The lengths of the four axes of an array of bytes.
pub uninterp spec fn uint8_shape(a: UInt8Array) -> (nat, nat, nat, nat);

/// The elements of an array of values, the rightmost index varying fastest.
pub uninterp spec fn float32_elements(a: Float32Array) -> Seq<u32>;

/// The lengths of the four axes of an array of values.
pub uninterp spec fn float32_shape(a: Float32Array) -> (nat, nat, nat, nat);

/// An axis' length, or 1 for an axis without elements.
pub open spec fn at_least_one(n: usize) -> int {
    if n == 0 {
        1
    } else {
        n as int
    }
}

/// Place of an element in the sequence of elements.
pub open spec fn offset(shape: (nat, nat, nat, nat), k: int, j: int, i: int, l: int) -> int {
    ((k * shape.1 + j) * shape.2 + i) * shape.3 + l
}

/// `ndarray::Array4::<u8>::zeros`: an array of the given shape whose
/// elements are all 0.  The crate panics where the product of the axis
/// lengths that are not 0 exceeds `isize::MAX`, so those shapes are left out.
#[verifier::external_body]
fn uint8_zeros(d: usize, h: usize, w: usize, c: usize) -> (a: UInt8Array)
    requires
        at_least_one(d) * at_least_one(h) * at_least_one(w) * at_least_one(c) <= isize::MAX,
    ensures
        uint8_shape(a) == (d as nat, h as nat, w as nat, c as nat),
        uint8_elements(a) == Seq::new((d * h * w * c) as nat, |n: int| 0u8),
{
    UInt8Array { inner: ndarray::Array4::<u8>::zeros((d, h, w, c)) }
}

/// Indexing an `ndarray::Array4<u8>` by four indices, which the crate
/// checks against the shape.
#[verifier::external_body]
fn uint8_get(a: &UInt8Array, k: usize, j: usize, i: usize, l: usize) -> (v: u8)
    requires
        k < uint8_shape(*a).0,
        j < uint8_shape(*a).1,
        i < uint8_shape(*a).2,
        l < uint8_shape(*a).3,
    ensures
        v == uint8_elements(*a)[offset(uint8_shape(*a), k as int, j as int, i as int, l as int)],
{
    a.inner[[k, j, i, l]]
}

/// Assigning to an element of an `ndarray::Array4<u8>` through four
/// indices: that element changes and no other, and the shape stays.  The
/// crate panics for indices outside the shape only, which are left out.
#[verifier::external_body]
fn uint8_set(a: &mut UInt8Array, k: usize, j: usize, i: usize, l: usize, v: u8)
    requires
        k < uint8_shape(*old(a)).0,
        j < uint8_shape(*old(a)).1,
        i < uint8_shape(*old(a)).2,
        l < uint8_shape(*old(a)).3,
    ensures
        uint8_shape(*final(a)) == uint8_shape(*old(a)),
        uint8_elements(*final(a)) == uint8_elements(*old(a)).update(
            offset(uint8_shape(*old(a)), k as int, j as int, i as int, l as int),
            v,
        ),
    no_unwind
{
    a.inner[[k, j, i, l]] = v;
}

/// `ndarray::ArrayBase::dim`: the lengths of the four axes.
#[verifier::external_body]
fn uint8_dim(a: &UInt8Array) -> (r: (usize, usize, usize, usize))
    ensures
        (r.0 as nat, r.1 as nat, r.2 as nat, r.3 as nat) == uint8_shape(*a),
{
    a.inner.dim()
}

/// `ndarray::ArrayBase::iter`, collected: the elements in logical order.
#[verifier::external_body]
fn uint8_to_vec(a: &UInt8Array) -> (v: Vec<u8>)
    ensures
        v@ == uint8_elements(*a),
{
    a.inner.iter().copied().collect()
}

/// `ndarray::Array4::<u32>::zeros`: an array of the given shape whose
/// elements are all 0.  The crate panics where the product of the axis
/// lengths that are not 0 exceeds `isize::MAX`, and the allocation where
/// the elements take more bytes than that, so those shapes are left out.
#[verifier::external_body]
fn float32_zeros(d: usize, h: usize, w: usize, c: usize) -> (a: Float32Array)
    requires
        4 * (at_least_one(d) * at_least_one(h) * at_least_one(w) * at_least_one(c))
            <= isize::MAX,
    ensures
        float32_shape(a) == (d as nat, h as nat, w as nat, c as nat),
        float32_elements(a) == Seq::new((d * h * w * c) as nat, |n: int| 0u32),
{
    Float32Array { inner: ndarray::Array4::<u32>::zeros((d, h, w, c)) }
}

/// Indexing an `ndarray::Array4<u32>` by four indices, which the crate
/// checks against the shape.
#[verifier::external_body]
fn float32_get(a: &Float32Array, k: usize, j: usize, i: usize, l: usize) -> (v: u32)
    requires
        k < float32_shape(*a).0,
        j < float32_shape(*a).1,
        i < float32_shape(*a).2,
        l < float32_shape(*a).3,
    ensures
        v == float32_elements(*a)[offset(
            float32_shape(*a),
            k as int,
            j as int,
            i as int,
            l as int,
        )],
{
    a.inner[[k, j, i, l]]
}

/// Assigning to an element of an `ndarray::Array4<u32>` through four
/// indices: that element changes and no other, and the shape stays.  The
/// crate panics for indices outside the shape only, which are left out.
#[verifier::external_body]
fn float32_set(a: &mut Float32Array, k: usize, j: usize, i: usize, l: usize, v: u32)
    requires
        k < float32_shape(*old(a)).0,
        j < float32_shape(*old(a)).1,
        i < float32_shape(*old(a)).2,
        l < float32_shape(*old(a)).3,
    ensures
        float32_shape(*final(a)) == float32_shape(*old(a)),
        float32_elements(*final(a)) == float32_elements(*old(a)).update(
            offset(float32_shape(*old(a)), k as int, j as int, i as int, l as int),
            v,
        ),
    no_unwind
{
    a.inner[[k, j, i, l]] = v;
}

/// `ndarray::ArrayBase::dim`: the lengths of the four axes.
#[verifier::external_body]
fn float32_dim(a: &Float32Array) -> (r: (usize, usize, usize, usize))
    ensures
        (r.0 as nat, r.1 as nat, r.2 as nat, r.3 as nat) == float32_shape(*a),
{
    a.inner.dim()
}

/// `ndarray::ArrayBase::iter`, collected: the elements in logical order.
#[verifier::external_body]
fn float32_to_vec(a: &Float32Array) -> (v: Vec<u32>)
    ensures
        v@ == float32_elements(*a),
{
    a.inner.iter().copied().collect()
}

impl ImageDimensions<usize> {
    /// Whether an array of this shape can be allocated for elements of the
    /// given type.
    pub open spec fn storage_fits(self, element_type: ImageDataType) -> bool {
        element_type.spec_byte_size() * (at_least_one(self.depth) * at_least_one(self.height)
            * at_least_one(self.width) * at_least_one(self.channels)) <= isize::MAX
    }

    pub open spec fn shape(self) -> (nat, nat, nat, nat) {
        (self.depth as nat, self.height as nat, self.width as nat, self.channels as nat)
    }
}

impl UInt8Array {
    /// The lengths of the axes: layers, rows, columns, channels.
    pub fn dim(&self) -> (r: (usize, usize, usize, usize))
        ensures
            (r.0 as nat, r.1 as nat, r.2 as nat, r.3 as nat) == uint8_shape(*self),
    {
        uint8_dim(self)
    }

    /// The element at the given layer, row, column and channel, if there
    /// is one.
    pub fn get(&self, k: usize, j: usize, i: usize, l: usize) -> (r: Option<u8>)
        ensures
            r == if k < uint8_shape(*self).0 && j < uint8_shape(*self).1 && i < uint8_shape(
                *self,
            ).2 && l < uint8_shape(*self).3 {
                Some(
                    uint8_elements(*self)[offset(
                        uint8_shape(*self),
                        k as int,
                        j as int,
                        i as int,
                        l as int,
                    )],
                )
            } else {
                None
            },
    {
        let (d, h, w, c) = uint8_dim(self);
        if k < d && j < h && i < w && l < c {
            Some(uint8_get(self, k, j, i, l))
        } else {
            None
        }
    }

    /// The elements, the rightmost index varying fastest.
    pub fn to_vec(&self) -> (v: Vec<u8>)
        ensures
            v@ == uint8_elements(*self),
    {
        uint8_to_vec(self)
    }
}

impl Float32Array {
    /// The lengths of the axes: layers, rows, columns, channels.
    pub fn dim(&self) -> (r: (usize, usize, usize, usize))
        ensures
            (r.0 as nat, r.1 as nat, r.2 as nat, r.3 as nat) == float32_shape(*self),
    {
        float32_dim(self)
    }

    /// The bits of the element at the given layer, row, column and channel,
    /// if there is one.
    pub fn get(&self, k: usize, j: usize, i: usize, l: usize) -> (r: Option<u32>)
        ensures
            r == if k < float32_shape(*self).0 && j < float32_shape(*self).1 && i
                < float32_shape(*self).2 && l < float32_shape(*self).3 {
                Some(
                    float32_elements(*self)[offset(
                        float32_shape(*self),
                        k as int,
                        j as int,
                        i as int,
                        l as int,
                    )],
                )
            } else {
                None
            },
    {
        let (d, h, w, c) = float32_dim(self);
        if k < d && j < h && i < w && l < c {
            Some(float32_get(self, k, j, i, l))
        } else {
            None
        }
    }

    /// The bits of the elements, the rightmost index varying fastest.
    pub fn to_vec(&self) -> (v: Vec<u32>)
        ensures
            v@ == float32_elements(*self),
    {
        float32_to_vec(self)
    }
}

/// The array of an image on the host.
pub enum HostArray {
    UInt8(UInt8Array),
    Float32(Float32Array),
}

impl HostArray {
    pub open spec fn shape(self) -> (nat, nat, nat, nat) {
        match self {
            HostArray::UInt8(a) => uint8_shape(a),
            HostArray::Float32(a) => float32_shape(a),
        }
    }

    /// The elements where they are bytes; empty otherwise.
    pub open spec fn bytes(self) -> Seq<u8> {
        match self {
            HostArray::UInt8(a) => uint8_elements(a),
            HostArray::Float32(_) => Seq::empty(),
        }
    }

    /// The bits of the elements where they are values; empty otherwise.
    pub open spec fn values(self) -> Seq<u32> {
        match self {
            HostArray::UInt8(_) => Seq::empty(),
            HostArray::Float32(a) => float32_elements(a),
        }
    }
}

fn store_in(data: &mut HostArray, k: usize, j: usize, i: usize, l: usize, byte: u8, bits: u32)
    requires
        k < old(data).shape().0,
        j < old(data).shape().1,
        i < old(data).shape().2,
        l < old(data).shape().3,
        *old(data) is UInt8 ==> 0 <= offset(
            old(data).shape(),
            k as int,
            j as int,
            i as int,
            l as int,
        ) < old(data).bytes().len(),
        *old(data) is Float32 ==> 0 <= offset(
            old(data).shape(),
            k as int,
            j as int,
            i as int,
            l as int,
        ) < old(data).values().len(),
    ensures
        final(data).shape() == old(data).shape(),
        final(data).bytes().len() == old(data).bytes().len(),
        final(data).values().len() == old(data).values().len(),
        *old(data) is UInt8 <==> *final(data) is UInt8,
        *old(data) is UInt8 ==> final(data).bytes() == old(data).bytes().update(
            offset(old(data).shape(), k as int, j as int, i as int, l as int),
            byte,
        ),
        *old(data) is Float32 ==> final(data).values() == old(data).values().update(
            offset(old(data).shape(), k as int, j as int, i as int, l as int),
            bits,
        ),
    no_unwind
{
    match data {
        HostArray::UInt8(a) => {
            uint8_set(a, k, j, i, l, byte);
        },
        HostArray::Float32(a) => {
            float32_set(a, k, j, i, l, bits);
        },
    }
}

/// What an image on the host holds.
pub struct NdArrayImageState {
    pub dim: ImageDim,
    pub element_type: ImageDataType,
    /// The elements where they are bytes, the rightmost index varying
    /// fastest; empty otherwise.
    pub bytes: Seq<u8>,
    /// The elements where they are single-precision values, by their bits;
    /// empty otherwise.
    pub values: Seq<u32>,
}

impl NdArrayImageState {
    /// An image whose elements are all zero.
    pub open spec fn zeros(dim: ImageDim, element_type: ImageDataType) -> NdArrayImageState {
        match element_type {
            ImageDataType::UInt8 => NdArrayImageState {
                dim,
                element_type,
                bytes: Seq::new(dim.element_count(), |n: int| 0u8),
                values: Seq::empty(),
            },
            ImageDataType::Float32 => NdArrayImageState {
                dim,
                element_type,
                bytes: Seq::empty(),
                values: Seq::new(dim.element_count(), |n: int| 0u32),
            },
        }
    }

    pub open spec fn wf(self) -> bool {
        &&& self.dim.storage_fits(self.element_type)
        &&& match self.element_type {
            ImageDataType::UInt8 => self.bytes.len() == self.dim.element_count()
                && self.values.len() == 0,
            ImageDataType::Float32 => self.values.len() == self.dim.element_count()
                && self.bytes.len() == 0,
        }
    }

    /// The image after an element took the value `value`: the byte that
    /// stands for it where the elements are bytes, its bits otherwise.
    pub open spec fn stored(self, n: int, value: F32Bits) -> NdArrayImageState {
        match self.element_type {
            ImageDataType::UInt8 => NdArrayImageState {
                bytes: self.bytes.update(n, value.spec_into_u8()),
                ..self
            },
            ImageDataType::Float32 => NdArrayImageState {
                values: self.values.update(n, value.bits),
                ..self
            },
        }
    }
}

/// An image whose pixels live in the host's memory.
pub struct NdArrayImageData {
    dim: ImageDim,
    data: HostArray,
}

impl View for NdArrayImageData {
    type V = NdArrayImageState;

    closed spec fn view(&self) -> NdArrayImageState {
        NdArrayImageState {
            dim: self.dim,
            element_type: if self.data is UInt8 {
                ImageDataType::UInt8
            } else {
                ImageDataType::Float32
            },
            bytes: self.data.bytes(),
            values: self.data.values(),
        }
    }
}

impl NdArrayImageData {
    #[verifier::type_invariant]
    spec fn inv(self) -> bool {
        &&& self.data.shape() == self.dim.shape()
        &&& self@.wf()
    }

    /// An image of the given shape and element type whose elements are
    /// all zero.
    pub fn new(dim: ImageDim, element_type: ImageDataType) -> (r: Self)
        requires
            dim.storage_fits(element_type),
        ensures
            r@ == NdArrayImageState::zeros(dim, element_type),
            r@.wf(),
    {
        match element_type {
            ImageDataType::UInt8 => {
                let a = uint8_zeros(dim.depth, dim.height, dim.width, dim.channels);
                NdArrayImageData { dim, data: HostArray::UInt8(a) }
            },
            ImageDataType::Float32 => {
                let a = float32_zeros(dim.depth, dim.height, dim.width, dim.channels);
                NdArrayImageData { dim, data: HostArray::Float32(a) }
            },
        }
    }

    /// Shape of the image.
    pub fn dim(&self) -> (r: ImageDim)
        ensures
            r == self@.dim,
            self@.wf(),
    {
        proof {
            use_type_invariant(self);
        }
        self.dim
    }

    /// Type of the elements of the image.
    pub fn element_type(&self) -> (r: ImageDataType)
        ensures
            r == self@.element_type,
    {
        match &self.data {
            HostArray::UInt8(_) => ImageDataType::UInt8,
            HostArray::Float32(_) => ImageDataType::Float32,
        }
    }

    /// Gives the element at the given layer, row, column and channel the
    /// value `value`, converted to the image's element type.
    pub fn store(&mut self, k: usize, j: usize, i: usize, l: usize, value: F32Bits)
        requires
            old(self)@.dim.contains(k as int, j as int, i as int, l as int),
        ensures
            final(self)@ == old(self)@.stored(
                old(self)@.dim.flat_index(k as int, j as int, i as int, l as int),
                value,
            ),
            final(self)@.wf(),
    {
        proof {
            use_type_invariant(&*self);
            crate::image::image_dimensions::lemma_flat_index_in_range(
                self.dim,
                k as int,
                j as int,
                i as int,
                l as int,
            );
        }
        let byte = value.into_u8();
        let bits = value.to_bits();
        store_in(&mut self.data, k, j, i, l, byte, bits);
    }

    /// The array, where the elements are bytes.
    pub fn as_u8_nd_array(&self) -> (r: Option<&UInt8Array>)
        ensures
            self@.element_type == ImageDataType::UInt8 <==> r is Some,
            r is Some ==> uint8_elements(*r->Some_0) == self@.bytes && uint8_shape(*r->Some_0)
                == self@.dim.shape(),
    {
        proof {
            use_type_invariant(self);
        }
        match &self.data {
            HostArray::UInt8(a) => Some(a),
            HostArray::Float32(_) => None,
        }
    }

    /// The array, where the elements are single-precision values.
    pub fn as_f32_nd_array(&self) -> (r: Option<&Float32Array>)
        ensures
            self@.element_type == ImageDataType::Float32 <==> r is Some,
            r is Some ==> float32_elements(*r->Some_0) == self@.values && float32_shape(
                *r->Some_0,
            ) == self@.dim.shape(),
    {
        proof {
            use_type_invariant(self);
        }
        match &self.data {
            HostArray::UInt8(_) => None,
            HostArray::Float32(a) => Some(a),
        }
    }
}

} // verus!
