use vstd::prelude::*;
use crate::context::Context;
use crate::error::Error;
use crate::float::F32Bits;
use crate::gl::Uniform;
use crate::image::Image;
use crate::image::image_dimensions::lemma_flat_index_in_range;
use crate::image::ImageDim;
use crate::method::Computation;
use crate::method::compute_with;
use crate::method::computed;
use crate::method::CpuKernel;
use crate::method::Method;
use crate::method::MethodKernel;
use crate::method::MethodParams;
use crate::method::Params;
use crate::method::Program;

verus! {

/// Parameters of white noise: there are none.
#[derive(Debug, Clone, Copy, PartialEq, Eq, Structural)]
pub struct WhiteNoiseParams {}

impl Default for WhiteNoiseParams {
    fn default() -> (r: Self)
        ensures
            r == Self::spec_default(),
    {
        WhiteNoiseParams {  }
    }
}

impl MethodParams for WhiteNoiseParams {
    open spec fn spec_default() -> Self {
        WhiteNoiseParams {  }
    }

    open spec fn spec_downcast(params: Params) -> Option<Self> {
        match params {
            Params::WhiteNoise(p) => Some(p),
            _ => None,
        }
    }

    open spec fn spec_wrap(self) -> Params {
        Params::WhiteNoise(self)
    }

    open spec fn spec_byte_size() -> Option<nat> {
        Some(0)
    }

    open spec fn spec_to_bytes(&self) -> Seq<u8> {
        Seq::empty()
    }

    open spec fn spec_from_bytes(bytes: Seq<u8>) -> Option<Self> {
        if bytes.len() == 0 {
            Some(WhiteNoiseParams {  })
        } else {
            None
        }
    }

    open spec fn spec_uniforms(&self) -> Seq<Uniform> {
        Seq::empty()
    }

    proof fn lemma_byte_layout(p: Self, bytes: Seq<u8>) {
    }

    proof fn lemma_wrap(p: Self, bytes: Vec<u8>) {
    }

    fn default_params() -> (r: Self) {
        WhiteNoiseParams {  }
    }

    fn downcast(params: &Params) -> (r: Option<&Self>) {
        match params {
            Params::WhiteNoise(p) => Some(p),
            _ => None,
        }
    }

    fn into_params(self) -> (r: Params) {
        Params::WhiteNoise(self)
    }

    fn to_bytes(&self) -> (r: Vec<u8>) {
        Vec::new()
    }

    fn from_bytes(bytes: &[u8]) -> (r: Option<Self>) {
        if bytes.len() == 0 {
            Some(WhiteNoiseParams {  })
        } else {
            None
        }
    }

    fn uniforms(&self) -> (r: Vec<Uniform>) {
        Vec::new()
    }
}

/// White noise: every element has a value of its own between 0 and 1,
/// which a hash of the element's place gives.
pub struct WhiteNoise {
    /// Name of the shader program, once it was built.
    pub gpu: Option<u32>,
}

/// One round of the hash.
pub open spec fn spec_hash_round(x: u32) -> u32 {
    vstd::wrapping::u32_specs::wrapping_mul((x >> 16) ^ x, 0x45d_9f3b)
}

/// The hash of a word: two rounds that mix and multiply, and a last one
/// that mixes.
pub open spec fn spec_hash(x: u32) -> u32 {
    let y = spec_hash_round(spec_hash_round(x));
    (y >> 16) ^ y
}

/// The value of the element at place `n`: the upper twenty-three bits of
/// the hash of the place, taken modulo 2^32, as a fraction of 2^23.
pub open spec fn spec_white_noise(n: int) -> F32Bits {
    F32Bits {
        bits: F32Bits::spec_from_unit_fraction(
            (spec_hash((n % 0x1_0000_0000) as u32) >> 9) as nat,
        ),
    }
}

/// The hash of a word.
pub fn hash(x: u32) -> (r: u32)
    ensures
        r == spec_hash(x),
{
    let a = ((x >> 16) ^ x).wrapping_mul(0x45d_9f3b);
    let b = ((a >> 16) ^ a).wrapping_mul(0x45d_9f3b);
    (b >> 16) ^ b
}

/// The value of white noise at a place.
pub fn white_noise_at(n: usize) -> (r: F32Bits)
    ensures
        r == spec_white_noise(n as int),
        r.bits < 0x3f80_0000,
{
    let x: u32 = ((n as u64) % 0x1_0000_0000u64) as u32;
    let h = hash(x);
    let m: u32 = h >> 9;
    assert(h >> 9 < 0x80_0000) by (bit_vector);
    F32Bits::from_unit_fraction(m)
}

impl MethodKernel for WhiteNoise {
    type Params = WhiteNoiseParams;

    open spec fn spec_program() -> Program {
        Program::WhiteNoise
    }

    fn program() -> (r: Program) {
        Program::WhiteNoise
    }
}

impl CpuKernel for WhiteNoise {
    open spec fn spec_supports(dim: ImageDim) -> bool {
        true
    }

    open spec fn spec_compute_idx(
        k: int,
        j: int,
        i: int,
        l: int,
        dim: ImageDim,
        params: Self::Params,
    ) -> F32Bits {
        spec_white_noise(dim.flat_index(k, j, i, l))
    }

    fn supports(dim: ImageDim) -> (r: bool) {
        true
    }

    fn compute_idx(idx: (usize, usize, usize, usize), dim: ImageDim, params: &Self::Params) -> (r:
        F32Bits) {
        let (k, j, i, l) = idx;
        proof {
            lemma_flat_index_in_range(dim, k as int, j as int, i as int, l as int);
            let h = dim.height as int;
            let w = dim.width as int;
            let c = dim.channels as int;
            let line = k * h + j;
            let pixel = line * w + i;
            assert(0 <= line && 0 <= pixel && line <= pixel && pixel <= pixel * c + l)
                by (nonlinear_arith)
                requires
                    0 <= k,
                    0 <= j,
                    0 <= i < w,
                    0 <= l < c,
                    line == k * h + j,
                    pixel == line * w + i,
                    h >= 0,
            ;
            assert(k * h <= line);
        }
        let line = k * dim.height + j;
        let pixel = line * dim.width + i;
        let n = pixel * dim.channels + l;
        white_noise_at(n)
    }
}

/// The value of white noise is at least 0 and less than 1.
pub proof fn lemma_white_noise_below_one(n: int)
    ensures
        !spec_white_noise(n).sign(),
        spec_white_noise(n).bits < 0x3f80_0000,
{
    let h = spec_hash((n % 0x1_0000_0000) as u32);
    assert(h >> 9 < 0x80_0000) by (bit_vector);
    crate::float::lemma_unit_fraction_below_one((h >> 9) as nat);
}

impl WhiteNoise {
    /// The method, whose shader program is not built yet.
    pub fn new() -> (r: Self)
        ensures
            r.gpu is None,
    {
        WhiteNoise { gpu: None }
    }
}

impl Default for WhiteNoise {
    fn default() -> (r: Self)
        ensures
            r.gpu is None,
    {
        WhiteNoise { gpu: None }
    }
}

impl Method for WhiteNoise {
    fn compute(&mut self, ctx: &mut Context, tgt: &mut Image, params: Option<&Params>) -> (r: Result<
        Computation,
        Error,
    >)
        ensures
            final(self).gpu == old(self).gpu,
            computed::<WhiteNoise>(
                old(self).gpu,
                *old(ctx),
                *final(ctx),
                old(tgt)@,
                final(tgt)@,
                match params {
                    Some(q) => Some(*q),
                    None => None,
                },
                r,
            ),
    {
        compute_with::<WhiteNoise>(&self.gpu, ctx, tgt, params)
    }

    fn program_built(&mut self, built: Result<u32, String>) -> (r: Result<(), Error>)
        ensures
            match built {
                Ok(program) => final(self).gpu == Some(program),
                Err(_) => final(self).gpu == old(self).gpu,
            },
    {
        match built {
            Ok(program) => {
                self.gpu = Some(program);
                Ok(())
            },
            Err(m) => Err(Error::OpenGlError(m)),
        }
    }
}

} // verus!
