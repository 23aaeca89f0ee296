//! Methods that compute on the host: one value for each element, from the
//! element's coordinates and the parameters alone.

use vstd::prelude::*;
use crate::context::CpuContext;
use crate::float::F32Bits;
use crate::image::cpu::NdArrayImageData;
use crate::image::cpu::NdArrayImageState;
use crate::image::ImageDataType;
use crate::image::ImageDim;
use crate::method::CpuKernel;

verus! {

/// Layer, row, column and channel of the element at place `n` of an image's
/// storage.
pub open spec fn coords(dim: ImageDim, n: int) -> (int, int, int, int) {
    let l = n % (dim.channels as int);
    let pixel = n / (dim.channels as int);
    let i = pixel % (dim.width as int);
    let line = pixel / (dim.width as int);
    let j = line % (dim.height as int);
    let k = line / (dim.height as int);
    (k, j, i, l)
}

/// The value that a method gives the element at place `n`.
pub open spec fn spec_element<K: CpuKernel>(dim: ImageDim, params: K::Params, n: int) -> F32Bits {
    let c = coords(dim, n);
    K::spec_compute_idx(c.0, c.1, c.2, c.3, dim, params)
}

/// The image that a method computes on the host: every element has the
/// method's value for its coordinates, converted to the element type.
pub open spec fn spec_filled<K: CpuKernel>(
    dim: ImageDim,
    element_type: ImageDataType,
    params: K::Params,
) -> NdArrayImageState {
    match element_type {
        ImageDataType::UInt8 => NdArrayImageState {
            dim,
            element_type,
            bytes: Seq::new(
                dim.element_count(),
                |n: int| spec_element::<K>(dim, params, n).spec_into_u8(),
            ),
            values: Seq::empty(),
        },
        ImageDataType::Float32 => NdArrayImageState {
            dim,
            element_type,
            bytes: Seq::empty(),
            values: Seq::new(dim.element_count(), |n: int| spec_element::<K>(dim, params, n).bits),
        },
    }
}

/// The coordinates of a place name an element, which lies at that place.
pub proof fn lemma_coords(dim: ImageDim, n: int)
    requires
        0 <= n < dim.element_count(),
    ensures
        dim.contains(coords(dim, n).0, coords(dim, n).1, coords(dim, n).2, coords(dim, n).3),
        dim.flat_index(coords(dim, n).0, coords(dim, n).1, coords(dim, n).2, coords(dim, n).3)
            == n,
{
    let d = dim.depth as int;
    let h = dim.height as int;
    let w = dim.width as int;
    let c = dim.channels as int;
    assert(d > 0 && h > 0 && w > 0 && c > 0) by (nonlinear_arith)
        requires
            0 <= n < d * h * w * c,
            d >= 0,
            h >= 0,
            w >= 0,
            c >= 0,
    ;
    let pixel = n / c;
    let line = pixel / w;
    vstd::arithmetic::div_mod::lemma_fundamental_div_mod(n, c);
    vstd::arithmetic::div_mod::lemma_fundamental_div_mod(pixel, w);
    vstd::arithmetic::div_mod::lemma_fundamental_div_mod(line, h);
    vstd::arithmetic::div_mod::lemma_mod_pos_bound(n, c);
    vstd::arithmetic::div_mod::lemma_mod_pos_bound(pixel, w);
    vstd::arithmetic::div_mod::lemma_mod_pos_bound(line, h);
    vstd::arithmetic::div_mod::lemma_div_pos_is_pos(n, c);
    vstd::arithmetic::div_mod::lemma_div_pos_is_pos(pixel, w);
    vstd::arithmetic::div_mod::lemma_div_pos_is_pos(line, h);
    assert(pixel < d * h * w) by (nonlinear_arith)
        requires
            n == c * pixel + n % c,
            0 <= n % c,
            n < d * h * w * c,
            c > 0,
    ;
    assert(line < d * h) by (nonlinear_arith)
        requires
            pixel == w * line + pixel % w,
            0 <= pixel % w,
            pixel < d * h * w,
            w > 0,
    ;
    assert(line / h < d) by (nonlinear_arith)
        requires
            line == h * (line / h) + line % h,
            0 <= line % h,
            line < d * h,
            h > 0,
    ;
    assert(((line / h) * h + line % h) == line) by (nonlinear_arith)
        requires
            line == h * (line / h) + line % h,
    ;
    assert(line * w + pixel % w == pixel) by (nonlinear_arith)
        requires
            pixel == w * line + pixel % w,
    ;
    assert(pixel * c + n % c == n) by (nonlinear_arith)
        requires
            n == c * pixel + n % c,
    ;
}

/// An image that can be stored has at most `isize::MAX` elements, and so
/// has every image of fewer axes.
pub proof fn lemma_count_fits(dim: ImageDim, element_type: ImageDataType)
    requires
        dim.storage_fits(element_type),
        dim.depth > 0,
        dim.height > 0,
        dim.width > 0,
        dim.channels > 0,
    ensures
        dim.depth * dim.height <= isize::MAX,
        dim.depth * dim.height * dim.width <= isize::MAX,
        dim.depth * dim.height * dim.width * dim.channels <= isize::MAX,
{
    let d = dim.depth as int;
    let h = dim.height as int;
    let w = dim.width as int;
    let c = dim.channels as int;
    let b = element_type.spec_byte_size() as int;
    assert(d * h * w * c <= b * (d * h * w * c)) by (nonlinear_arith)
        requires
            b >= 1,
            d > 0,
            h > 0,
            w > 0,
            c > 0,
    ;
    assert(d * h * w <= d * h * w * c) by (nonlinear_arith)
        requires
            d > 0,
            h > 0,
            w > 0,
            c > 0,
    ;
    assert(d * h <= d * h * w) by (nonlinear_arith)
        requires
            d > 0,
            h > 0,
            w > 0,
    ;
}

/// Computes every element of an image on the host.
pub fn fill<K: CpuKernel>(data: &mut NdArrayImageData, params: &K::Params)
    requires
        K::spec_supports(old(data)@.dim),
    ensures
        final(data)@ == spec_filled::<K>(old(data)@.dim, old(data)@.element_type, *params),
        final(data)@.wf(),
{
    let dim = data.dim();
    let ghost element_type = data@.element_type;
    if dim.depth == 0 || dim.height == 0 || dim.width == 0 || dim.channels == 0 {
        proof {
            assert(dim.element_count() == 0) by (nonlinear_arith)
                requires
                    dim.depth == 0 || dim.height == 0 || dim.width == 0 || dim.channels == 0,
                    dim.element_count() == dim.depth * dim.height * dim.width * dim.channels,
            ;
            let filled = spec_filled::<K>(dim, element_type, *params);
            assert(data@.bytes =~= filled.bytes);
            assert(data@.values =~= filled.values);
        }
        return ;
    }
    proof {
        lemma_count_fits(dim, element_type);
    }
    let count: usize = dim.depth * dim.height * dim.width * dim.channels;
    let mut n: usize = 0;
    while n < count
        invariant
            n <= count,
            count == dim.element_count(),
            dim.channels > 0 && dim.width > 0 && dim.height > 0,
                K::spec_supports(dim),
            data@.wf(),
            data@.dim == dim,
            data@.element_type == element_type,
            element_type == ImageDataType::UInt8 ==> forall|m: int|
                0 <= m < n ==> data@.bytes[m] == spec_element::<K>(dim, *params, m).spec_into_u8(),
            element_type == ImageDataType::Float32 ==> forall|m: int|
                0 <= m < n ==> data@.values[m] == spec_element::<K>(dim, *params, m).bits,
        decreases count - n,
    {
        let l = n % dim.channels;
        let pixel = n / dim.channels;
        let i = pixel % dim.width;
        let line = pixel / dim.width;
        let j = line % dim.height;
        let k = line / dim.height;
        proof {
            lemma_coords(dim, n as int);
        }
        let value = K::compute_idx((k, j, i, l), dim, params);
        data.store(k, j, i, l, value);
        n += 1;
    }
    proof {
        let filled = spec_filled::<K>(dim, element_type, *params);
        assert(data@.bytes =~= filled.bytes);
        assert(data@.values =~= filled.values);
    }
}

/// `rayon::ThreadPool::install`: runs the computation of an image within
/// the pool and returns when it is done, so that the image is then what
/// `fill` leaves.
#[verifier::external_body]
fn install_fill<K: CpuKernel>(
    pool: &rayon::ThreadPool,
    data: &mut NdArrayImageData,
    params: &K::Params,
)
    requires
        K::spec_supports(old(data)@.dim),
    ensures
        final(data)@ == spec_filled::<K>(old(data)@.dim, old(data)@.element_type, *params),
        final(data)@.wf(),
{
    pool.install(|| fill::<K>(data, params))
}

/// Computes every element of an image on the host, within the pool of
/// threads of the context.
pub fn compute_cpu<K: CpuKernel>(
    ctx: &CpuContext,
    data: &mut NdArrayImageData,
    params: &K::Params,
)
    requires
        K::spec_supports(old(data)@.dim),
    ensures
        final(data)@ == spec_filled::<K>(old(data)@.dim, old(data)@.element_type, *params),
        final(data)@.wf(),
{
    install_fill::<K>(&ctx.thread_pool, data, params)
}

} // verus!
