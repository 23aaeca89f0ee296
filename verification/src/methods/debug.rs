use vstd::prelude::*;
use crate::context::Context;
use crate::error::Error;
use crate::float::F32Bits;
use crate::gl::Uniform;
use crate::image::Image;
use crate::image::ImageDim;
use crate::method::bytes::lemma_word_round_trip;
use crate::method::bytes::read_float;
use crate::method::bytes::spec_word_at;
use crate::method::bytes::spec_word_bytes;
use crate::method::bytes::write_float;
use crate::method::Computation;
use crate::method::compute_with;
use crate::method::computed;
use crate::method::CpuKernel;
use crate::method::Method;
use crate::method::MethodKernel;
use crate::method::MethodParams;
use crate::method::Params;
use crate::method::Program;

verus! {

/// Parameters of the debug pattern.
#[derive(Debug, Clone, Copy, PartialEq, Eq)]
pub struct DebugParams {
    /// The value of the fourth channel.
    pub alpha_value: F32Bits,
}

impl Default for DebugParams {
    fn default() -> (r: Self)
        ensures
            r == Self::spec_default(),
    {
        DebugParams { alpha_value: F32Bits { bits: 0x3f80_0000 } }
    }
}

impl MethodParams for DebugParams {
    /// A fourth channel of 1.
    open spec fn spec_default() -> Self {
        DebugParams { alpha_value: F32Bits { bits: 0x3f80_0000 } }
    }

    open spec fn spec_downcast(params: Params) -> Option<Self> {
        match params {
            Params::Debug(p) => Some(p),
            _ => None,
        }
    }

    open spec fn spec_wrap(self) -> Params {
        Params::Debug(self)
    }

    open spec fn spec_byte_size() -> Option<nat> {
        Some(4)
    }

    open spec fn spec_to_bytes(&self) -> Seq<u8> {
        spec_word_bytes(self.alpha_value.bits)
    }

    open spec fn spec_from_bytes(bytes: Seq<u8>) -> Option<Self> {
        if bytes.len() == 4 {
            Some(DebugParams { alpha_value: F32Bits { bits: spec_word_at(bytes, 0) } })
        } else {
            None
        }
    }

    open spec fn spec_uniforms(&self) -> Seq<Uniform> {
        seq![Uniform::AlphaValue(self.alpha_value)]
    }

    proof fn lemma_byte_layout(p: Self, bytes: Seq<u8>) {
        let e = Seq::<u8>::empty();
        lemma_word_round_trip(e, p.alpha_value.bits, e);
        assert(p.spec_to_bytes() =~= e + spec_word_bytes(p.alpha_value.bits) + e);
    }

    proof fn lemma_wrap(p: Self, bytes: Vec<u8>) {
    }

    fn default_params() -> (r: Self) {
        DebugParams { alpha_value: F32Bits { bits: 0x3f80_0000 } }
    }

    fn downcast(params: &Params) -> (r: Option<&Self>) {
        match params {
            Params::Debug(p) => Some(p),
            _ => None,
        }
    }

    fn into_params(self) -> (r: Params) {
        Params::Debug(self)
    }

    fn to_bytes(&self) -> (r: Vec<u8>) {
        let mut r: Vec<u8> = Vec::new();
        write_float(&mut r, self.alpha_value);
        assert(r@ =~= self.spec_to_bytes());
        r
    }

    fn from_bytes(bytes: &[u8]) -> (r: Option<Self>) {
        if bytes.len() == 4 {
            Some(DebugParams { alpha_value: read_float(bytes, 0) })
        } else {
            None
        }
    }

    fn uniforms(&self) -> (r: Vec<Uniform>) {
        let mut r: Vec<Uniform> = Vec::new();
        r.push(Uniform::AlphaValue(self.alpha_value));
        assert(r@ =~= self.spec_uniforms());
        r
    }
}

/// The debug pattern: the first three channels hold column, row and layer
/// of the pixel, the fourth the value of the parameters.
pub struct Debug {
    /// Name of the shader program, once it was built.
    pub gpu: Option<u32>,
}

impl MethodKernel for Debug {
    type Params = DebugParams;

    open spec fn spec_program() -> Program {
        Program::Debug
    }

    fn program() -> (r: Program) {
        Program::Debug
    }
}

impl CpuKernel for Debug {
    /// The pattern has four channels.
    open spec fn spec_supports(dim: ImageDim) -> bool {
        dim.channels <= 4
    }

    open spec fn spec_compute_idx(
        k: int,
        j: int,
        i: int,
        l: int,
        dim: ImageDim,
        params: Self::Params,
    ) -> F32Bits {
        if l == 0 {
            F32Bits { bits: F32Bits::spec_from_nat(i as nat) }
        } else if l == 1 {
            F32Bits { bits: F32Bits::spec_from_nat(j as nat) }
        } else if l == 2 {
            F32Bits { bits: F32Bits::spec_from_nat(k as nat) }
        } else {
            params.alpha_value
        }
    }

    fn supports(dim: ImageDim) -> (r: bool) {
        dim.channels <= 4
    }

    fn compute_idx(idx: (usize, usize, usize, usize), dim: ImageDim, params: &Self::Params) -> (r:
        F32Bits) {
        let (k, j, i, l) = idx;
        if l == 0 {
            F32Bits::from_usize(i)
        } else if l == 1 {
            F32Bits::from_usize(j)
        } else if l == 2 {
            F32Bits::from_usize(k)
        } else {
            params.alpha_value
        }
    }
}

impl Debug {
    /// The method, whose shader program is not built yet.
    pub fn new() -> (r: Self)
        ensures
            r.gpu is None,
    {
        Debug { gpu: None }
    }
}

impl Default for Debug {
    fn default() -> (r: Self)
        ensures
            r.gpu is None,
    {
        Debug { gpu: None }
    }
}

impl Method for Debug {
    fn compute(&mut self, ctx: &mut Context, tgt: &mut Image, params: Option<&Params>) -> (r: Result<
        Computation,
        Error,
    >)
        ensures
            final(self).gpu == old(self).gpu,
            computed::<Debug>(
                old(self).gpu,
                *old(ctx),
                *final(ctx),
                old(tgt)@,
                final(tgt)@,
                match params {
                    Some(q) => Some(*q),
                    None => None,
                },
                r,
            ),
    {
        compute_with::<Debug>(&self.gpu, ctx, tgt, params)
    }

    fn program_built(&mut self, built: Result<u32, String>) -> (r: Result<(), Error>)
        ensures
            match built {
                Ok(program) => final(self).gpu == Some(program),
                Err(_) => final(self).gpu == old(self).gpu,
            },
    {
        match built {
            Ok(program) => {
                self.gpu = Some(program);
                Ok(())
            },
            Err(m) => Err(Error::OpenGlError(m)),
        }
    }
}

} // verus!
