use vstd::prelude::*;
use crate::context::Context;
use crate::error::Error;
use crate::float::F32Bits;
use crate::gl::Uniform;
use crate::image::Image;
use crate::method::bytes::lemma_signed_round_trip;
use crate::method::bytes::lemma_word_round_trip;
use crate::method::bytes::read_float;
use crate::method::bytes::read_word;
use crate::method::bytes::signed;
use crate::method::bytes::spec_signed;
use crate::method::bytes::spec_unsigned;
use crate::method::bytes::spec_word_at;
use crate::method::bytes::spec_word_bytes;
use crate::method::bytes::unsigned;
use crate::method::bytes::write_float;
use crate::method::bytes::write_word;
use crate::method::Computation;
use crate::method::compute_on_device_only;
use crate::method::computed_on_device_only;
use crate::method::Method;
use crate::method::MethodKernel;
use crate::method::MethodParams;
use crate::method::Params;
use crate::method::Program;

verus! {

/// Parameters of gradient noise: random gradients on a lattice, interpolated.
#[derive(Debug, Clone, Copy, PartialEq, Eq)]
pub struct GradientNoiseParams {
    /// Seed of the pseudo-random numbers.
    pub global_seed: u32,
    /// Size of a cell of the lattice, in pixels.
    pub scale: F32Bits,
    /// What is shown: 0 for the noise, 1 for its process, 2 for one place.
    pub stats_mode: i32,
    /// The place that is shown where `stats_mode` is 2, each coordinate
    /// between 0 and 1.
    pub stats_look_at: (F32Bits, F32Bits),
}

impl Default for GradientNoiseParams {
    fn default() -> (r: Self)
        ensures
            r == Self::spec_default(),
    {
        GradientNoiseParams {
            global_seed: 0,
            scale: F32Bits { bits: 0x4200_0000 },
            stats_mode: 0,
            stats_look_at: (F32Bits { bits: 0 }, F32Bits { bits: 0 }),
        }
    }
}

impl MethodParams for GradientNoiseParams {
    /// No seed, cells of 32 pixels, the noise itself.
    open spec fn spec_default() -> Self {
        GradientNoiseParams {
            global_seed: 0,
            scale: F32Bits { bits: 0x4200_0000 },
            stats_mode: 0,
            stats_look_at: (F32Bits { bits: 0 }, F32Bits { bits: 0 }),
        }
    }

    open spec fn spec_downcast(params: Params) -> Option<Self> {
        match params {
            Params::GradientNoise(p) => Some(p),
            _ => None,
        }
    }

    open spec fn spec_wrap(self) -> Params {
        Params::GradientNoise(self)
    }

    open spec fn spec_byte_size() -> Option<nat> {
        Some(20)
    }

    open spec fn spec_to_bytes(&self) -> Seq<u8> {
        spec_word_bytes(self.global_seed) + spec_word_bytes(self.scale.bits) + spec_word_bytes(
            spec_unsigned(self.stats_mode),
        ) + spec_word_bytes(self.stats_look_at.0.bits) + spec_word_bytes(
            self.stats_look_at.1.bits,
        )
    }

    open spec fn spec_from_bytes(bytes: Seq<u8>) -> Option<Self> {
        if bytes.len() == 20 {
            Some(
                GradientNoiseParams {
                    global_seed: spec_word_at(bytes, 0),
                    scale: F32Bits { bits: spec_word_at(bytes, 4) },
                    stats_mode: spec_signed(spec_word_at(bytes, 8)),
                    stats_look_at: (
                        F32Bits { bits: spec_word_at(bytes, 12) },
                        F32Bits { bits: spec_word_at(bytes, 16) },
                    ),
                },
            )
        } else {
            None
        }
    }

    open spec fn spec_uniforms(&self) -> Seq<Uniform> {
        seq![
            Uniform::GlobalSeed(self.global_seed),
            Uniform::Scale(self.scale),
            Uniform::StatsMode(self.stats_mode),
            Uniform::StatsLookAt(self.stats_look_at.0, self.stats_look_at.1),
        ]
    }

    proof fn lemma_byte_layout(p: Self, bytes: Seq<u8>) {
        let w0 = spec_word_bytes(p.global_seed);
        let w1 = spec_word_bytes(p.scale.bits);
        let w2 = spec_word_bytes(spec_unsigned(p.stats_mode));
        let w3 = spec_word_bytes(p.stats_look_at.0.bits);
        let w4 = spec_word_bytes(p.stats_look_at.1.bits);
        let all = p.spec_to_bytes();
        let e = Seq::<u8>::empty();
        lemma_signed_round_trip(p.stats_mode);
        lemma_word_round_trip(e, p.global_seed, w1 + w2 + w3 + w4);
        lemma_word_round_trip(w0, p.scale.bits, w2 + w3 + w4);
        lemma_word_round_trip(w0 + w1, spec_unsigned(p.stats_mode), w3 + w4);
        lemma_word_round_trip(w0 + w1 + w2, p.stats_look_at.0.bits, w4);
        lemma_word_round_trip(w0 + w1 + w2 + w3, p.stats_look_at.1.bits, e);
        assert(all =~= e + w0 + (w1 + w2 + w3 + w4));
        assert(all =~= w0 + w1 + (w2 + w3 + w4));
        assert(all =~= w0 + w1 + w2 + (w3 + w4));
        assert(all =~= w0 + w1 + w2 + w3 + w4 + e);
        assert(Self::spec_from_bytes(all)->Some_0.stats_look_at == p.stats_look_at);
    }

    proof fn lemma_wrap(p: Self, bytes: Vec<u8>) {
    }

    fn default_params() -> (r: Self) {
        GradientNoiseParams {
            global_seed: 0,
            scale: F32Bits { bits: 0x4200_0000 },
            stats_mode: 0,
            stats_look_at: (F32Bits { bits: 0 }, F32Bits { bits: 0 }),
        }
    }

    fn downcast(params: &Params) -> (r: Option<&Self>) {
        match params {
            Params::GradientNoise(p) => Some(p),
            _ => None,
        }
    }

    fn into_params(self) -> (r: Params) {
        Params::GradientNoise(self)
    }

    fn to_bytes(&self) -> (r: Vec<u8>) {
        let mut r: Vec<u8> = Vec::new();
        write_word(&mut r, self.global_seed);
        write_float(&mut r, self.scale);
        write_word(&mut r, unsigned(self.stats_mode));
        write_float(&mut r, self.stats_look_at.0);
        write_float(&mut r, self.stats_look_at.1);
        assert(r@ =~= self.spec_to_bytes());
        r
    }

    fn from_bytes(bytes: &[u8]) -> (r: Option<Self>) {
        if bytes.len() == 20 {
            Some(
                GradientNoiseParams {
                    global_seed: read_word(bytes, 0),
                    scale: read_float(bytes, 4),
                    stats_mode: signed(read_word(bytes, 8)),
                    stats_look_at: (read_float(bytes, 12), read_float(bytes, 16)),
                },
            )
        } else {
            None
        }
    }

    fn uniforms(&self) -> (r: Vec<Uniform>) {
        let mut r: Vec<Uniform> = Vec::new();
        r.push(Uniform::GlobalSeed(self.global_seed));
        r.push(Uniform::Scale(self.scale));
        r.push(Uniform::StatsMode(self.stats_mode));
        r.push(Uniform::StatsLookAt(self.stats_look_at.0, self.stats_look_at.1));
        assert(r@ =~= self.spec_uniforms());
        r
    }
}

/// Gradient noise, which is computed on a device.
pub struct GradientNoise {
    /// Name of the shader program, once it was built.
    pub gpu: Option<u32>,
}

impl MethodKernel for GradientNoise {
    type Params = GradientNoiseParams;

    open spec fn spec_program() -> Program {
        Program::GradientNoise
    }

    fn program() -> (r: Program) {
        Program::GradientNoise
    }
}

impl GradientNoise {
    /// The method, whose shader program is not built yet.
    pub fn new() -> (r: Self)
        ensures
            r.gpu is None,
    {
        GradientNoise { gpu: None }
    }
}

impl Default for GradientNoise {
    fn default() -> (r: Self)
        ensures
            r.gpu is None,
    {
        GradientNoise { gpu: None }
    }
}

impl Method for GradientNoise {
    fn compute(&mut self, ctx: &mut Context, tgt: &mut Image, params: Option<&Params>) -> (r: Result<
        Computation,
        Error,
    >)
        ensures
            final(self).gpu == old(self).gpu,
            computed_on_device_only::<GradientNoise>(
                old(self).gpu,
                *old(ctx),
                *final(ctx),
                old(tgt)@,
                final(tgt)@,
                match params {
                    Some(q) => Some(*q),
                    None => None,
                },
                r,
            ),
    {
        compute_on_device_only::<GradientNoise>(&self.gpu, ctx, tgt, params)
    }

    fn program_built(&mut self, built: Result<u32, String>) -> (r: Result<(), Error>)
        ensures
            match built {
                Ok(program) => final(self).gpu == Some(program),
                Err(_) => final(self).gpu == old(self).gpu,
            },
    {
        match built {
            Ok(program) => {
                self.gpu = Some(program);
                Ok(())
            },
            Err(m) => Err(Error::OpenGlError(m)),
        }
    }
}

} // verus!
