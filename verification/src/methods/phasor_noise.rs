use vstd::prelude::*;
use crate::context::Context;
use crate::error::Error;
use crate::float::F32Bits;
use crate::gl::Uniform;
use crate::image::Image;
use crate::image::ImageState;
use crate::io::ImageIo;
use crate::io::ImageIoState;
use crate::method::Computation;
use crate::method::compute_gpu;
use crate::method::computed_on_device;
use crate::method::Method;
use crate::method::Params;
use crate::method::Program;

verus! {

/// Profile: the complex sum divided by the number of kernels, in two channels.
pub const PHASOR_PROFILE_COMPLEX: i32 = 0;

/// Profile: the real part of the sum divided by the number of kernels.
pub const PHASOR_PROFILE_REAL: i32 = 1;

/// Profile: the imaginary part of the sum divided by the number of kernels.
pub const PHASOR_PROFILE_IMAG: i32 = 2;

/// Profile: a sine wave of the phase.
pub const PHASOR_PROFILE_SIN: i32 = 3;

/// Profile: a sawtooth wave of the phase.
pub const PHASOR_PROFILE_SAW: i32 = 4;

/// Profile: the places of the impulses.
pub const PHASOR_PROFILE_IMPULSES: i32 = 5;

/// Weights: none.
pub const PHASOR_WEIGHTS_NONE: i32 = 0;

/// Weights: Bernoulli.
pub const PHASOR_WEIGHTS_BERNOULLI: i32 = 1;

/// Weights: uniform.
pub const PHASOR_WEIGHTS_UNIFORM: i32 = 2;

/// Impulses: the same number in every cell.
pub const PHASOR_POINTS_STRAT_POSSION: i32 = 0;

/// Impulses: a Poisson number in every cell.
pub const PHASOR_POINTS_POISSON: i32 = 1;

/// Impulses: a rectangular grid, jittered.
pub const PHASOR_POINTS_RECT_JITTERED: i32 = 2;

/// Impulses: a hexagonal grid, jittered.
pub const PHASOR_POINTS_HEX_JITTERED: i32 = 3;

/// Parameters of phasor noise.  They hold images, so they have no layout
/// as bytes.
pub struct PhasorNoiseParams {
    /// Seed of the pseudo-random numbers.
    pub global_seed: u32,
    /// Size of a cell of the lattice, in pixels.
    pub scale: F32Bits,
    /// What is shown: 0 for the noise, 1 for its process, 2 for one place.
    pub stats_mode: i32,
    /// The place that is shown where `stats_mode` is 2.
    pub stats_look_at: (F32Bits, F32Bits),
    /// Number of cells around a pixel that contribute to it.
    pub noise_lookahead: i32,
    /// Number of kernels in a cell.
    pub kernel_count: i32,
    pub noise_profile: i32,
    pub noise_weights: i32,
    pub noise_point_distribution: i32,
    /// Oscillations per cell.
    pub noise_frequency: F32Bits,
    /// Angle of the oscillations, in radians.
    pub noise_angle: F32Bits,
    /// How far impulses are jittered: 0 not at all, 1 over the whole cell.
    pub jitter_amount: F32Bits,
    /// Largest number of cells of jitter, or 0 for no limit.
    pub jitter_max: i32,
    /// The images that the method reads.
    pub io: ImageIo,
}

/// What parameters of phasor noise hold.
pub struct PhasorNoiseState {
    pub global_seed: u32,
    pub scale: F32Bits,
    pub stats_mode: i32,
    pub stats_look_at: (F32Bits, F32Bits),
    pub noise_lookahead: i32,
    pub kernel_count: i32,
    pub noise_profile: i32,
    pub noise_weights: i32,
    pub noise_point_distribution: i32,
    pub noise_frequency: F32Bits,
    pub noise_angle: F32Bits,
    pub jitter_amount: F32Bits,
    pub jitter_max: i32,
    pub io: ImageIoState,
}

impl View for PhasorNoiseParams {
    type V = PhasorNoiseState;

    open spec fn view(&self) -> PhasorNoiseState {
        PhasorNoiseState {
            global_seed: self.global_seed,
            scale: self.scale,
            stats_mode: self.stats_mode,
            stats_look_at: self.stats_look_at,
            noise_lookahead: self.noise_lookahead,
            kernel_count: self.kernel_count,
            noise_profile: self.noise_profile,
            noise_weights: self.noise_weights,
            noise_point_distribution: self.noise_point_distribution,
            noise_frequency: self.noise_frequency,
            noise_angle: self.noise_angle,
            jitter_amount: self.jitter_amount,
            jitter_max: self.jitter_max,
            io: self.io@,
        }
    }
}

impl PhasorNoiseState {
    /// No seed, cells of 32 pixels, eight kernels in a cell, a sine wave
    /// of four oscillations per cell, full jitter, and no image.
    pub open spec fn default_state() -> PhasorNoiseState {
        PhasorNoiseState {
            global_seed: 0,
            scale: F32Bits { bits: 0x4200_0000 },
            stats_mode: 0,
            stats_look_at: (F32Bits { bits: 0 }, F32Bits { bits: 0 }),
            noise_lookahead: 1,
            kernel_count: 8,
            noise_profile: PHASOR_PROFILE_SIN,
            noise_weights: PHASOR_WEIGHTS_NONE,
            noise_point_distribution: PHASOR_POINTS_STRAT_POSSION,
            noise_frequency: F32Bits { bits: 0x4080_0000 },
            noise_angle: F32Bits { bits: 0 },
            jitter_amount: F32Bits { bits: 0x3f80_0000 },
            jitter_max: 0,
            io: ImageIoState::empty(),
        }
    }

    pub open spec fn spec_uniforms(self) -> Seq<Uniform> {
        seq![
            Uniform::GlobalSeed(self.global_seed),
            Uniform::Scale(self.scale),
            Uniform::StatsMode(self.stats_mode),
            Uniform::StatsLookAt(self.stats_look_at.0, self.stats_look_at.1),
            Uniform::NoiseLookahead(self.noise_lookahead),
            Uniform::KernelCount(self.kernel_count),
            Uniform::NoiseProfile(self.noise_profile),
            Uniform::NoiseWeights(self.noise_weights),
            Uniform::NoisePointDistribution(self.noise_point_distribution),
            Uniform::NoiseFrequency(self.noise_frequency),
            Uniform::NoiseAngle(self.noise_angle),
            Uniform::JitterAmount(self.jitter_amount),
            Uniform::JitterMax(self.jitter_max),
            Uniform::FrequencyOrientationField,
        ]
    }
}

impl PhasorNoiseParams {
    /// The parameters that the method takes where it is given none.
    pub fn new() -> (r: Self)
        ensures
            r@ == PhasorNoiseState::default_state(),
    {
        PhasorNoiseParams {
            global_seed: 0,
            scale: F32Bits { bits: 0x4200_0000 },
            stats_mode: 0,
            stats_look_at: (F32Bits { bits: 0 }, F32Bits { bits: 0 }),
            noise_lookahead: 1,
            kernel_count: 8,
            noise_profile: PHASOR_PROFILE_SIN,
            noise_weights: PHASOR_WEIGHTS_NONE,
            noise_point_distribution: PHASOR_POINTS_STRAT_POSSION,
            noise_frequency: F32Bits { bits: 0x4080_0000 },
            noise_angle: F32Bits { bits: 0 },
            jitter_amount: F32Bits { bits: 0x3f80_0000 },
            jitter_max: 0,
            io: ImageIo::new(),
        }
    }

    /// What the parameters hand to the shader program, in the order of the
    /// fields; the last stands for the image bound to the unit that the
    /// program reads its field of frequencies and orientations from.
    pub fn uniforms(&self) -> (r: Vec<Uniform>)
        ensures
            r@ == self@.spec_uniforms(),
    {
        let mut r: Vec<Uniform> = Vec::new();
        r.push(Uniform::GlobalSeed(self.global_seed));
        r.push(Uniform::Scale(self.scale));
        r.push(Uniform::StatsMode(self.stats_mode));
        r.push(Uniform::StatsLookAt(self.stats_look_at.0, self.stats_look_at.1));
        r.push(Uniform::NoiseLookahead(self.noise_lookahead));
        r.push(Uniform::KernelCount(self.kernel_count));
        r.push(Uniform::NoiseProfile(self.noise_profile));
        r.push(Uniform::NoiseWeights(self.noise_weights));
        r.push(Uniform::NoisePointDistribution(self.noise_point_distribution));
        r.push(Uniform::NoiseFrequency(self.noise_frequency));
        r.push(Uniform::NoiseAngle(self.noise_angle));
        r.push(Uniform::JitterAmount(self.jitter_amount));
        r.push(Uniform::JitterMax(self.jitter_max));
        r.push(Uniform::FrequencyOrientationField);
        assert(r@ =~= self@.spec_uniforms());
        r
    }
}

/// Phasor noise, which is computed on a device.
pub struct PhasorNoise {
    /// Name of the shader program, once it was built.
    pub gpu: Option<u32>,
}

impl PhasorNoise {
    /// The method, whose shader program is not built yet.
    pub fn new() -> (r: Self)
        ensures
            r.gpu is None,
    {
        PhasorNoise { gpu: None }
    }
}

impl Default for PhasorNoise {
    fn default() -> (r: Self)
        ensures
            r.gpu is None,
    {
        PhasorNoise { gpu: None }
    }
}

/// The parameters that phasor noise computes with when it is handed
/// `params`: the default where there are none, and the parameters
/// themselves where they are of phasor noise.  Anything else is refused
/// with `InvalidParameters`, a span of bytes too.
pub open spec fn spec_phasor_params(params: Option<Params>) -> Result<PhasorNoiseState, Error> {
    match params {
        None => Ok(PhasorNoiseState::default_state()),
        Some(Params::PhasorNoise(p)) => Ok(p@),
        Some(_) => Err(Error::InvalidParameters),
    }
}

/// What the computation of phasor noise does, as a relation of what it is
/// handed and what it leaves: the image stays; parameters of another kind
/// are refused; the host is refused with `ContextNotSupported`; on a device
/// the drawing begins.
pub open spec fn computed_phasor_noise(
    gpu: Option<u32>,
    ctx: Context,
    ctx_after: Context,
    tgt: ImageState,
    tgt_after: ImageState,
    params: Option<Params>,
    r: Result<Computation, Error>,
) -> bool {
    &&& tgt_after == tgt
    &&& match spec_phasor_params(params) {
        Err(e) => r == Err::<Computation, Error>(e) && ctx_after == ctx,
        Ok(p) => match ctx {
            Context::Cpu(_) => r == Err::<Computation, Error>(Error::ContextNotSupported)
                && ctx_after == ctx,
            Context::Gpu(c) => ctx_after is Gpu && computed_on_device(
                Program::PhasorNoise,
                p.spec_uniforms(),
                gpu,
                c@,
                ctx_after->Gpu_0@,
                tgt,
                r,
            ),
        },
    }
}

impl Method for PhasorNoise {
    fn compute(&mut self, ctx: &mut Context, tgt: &mut Image, params: Option<&Params>) -> (r: Result<
        Computation,
        Error,
    >)
        ensures
            final(self).gpu == old(self).gpu,
            computed_phasor_noise(
                old(self).gpu,
                *old(ctx),
                *final(ctx),
                old(tgt)@,
                final(tgt)@,
                match params {
                    Some(q) => Some(*q),
                    None => None,
                },
                r,
            ),
    {
        let uniforms = match params {
            None => PhasorNoiseParams::new().uniforms(),
            Some(Params::PhasorNoise(p)) => p.uniforms(),
            Some(_) => {
                return Err(Error::InvalidParameters);
            },
        };
        match ctx {
            Context::Cpu(_) => Err(Error::ContextNotSupported),
            Context::Gpu(gpu_context) => compute_gpu(
                Program::PhasorNoise,
                uniforms,
                &self.gpu,
                gpu_context,
                tgt,
            ),
        }
    }

    fn program_built(&mut self, built: Result<u32, String>) -> (r: Result<(), Error>)
        ensures
            match built {
                Ok(program) => final(self).gpu == Some(program),
                Err(_) => final(self).gpu == old(self).gpu,
            },
    {
        match built {
            Ok(program) => {
                self.gpu = Some(program);
                Ok(())
            },
            Err(m) => Err(Error::OpenGlError(m)),
        }
    }
}

} // verus!
