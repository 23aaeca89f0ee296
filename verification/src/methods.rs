//! The methods that the library brings.

pub mod debug;
mod gradient_noise;
mod phasor_noise;
mod simplex_noise;
mod value_noise;
mod white_noise;

pub use debug::DebugParams;
pub use gradient_noise::GradientNoise;
pub use gradient_noise::GradientNoiseParams;
pub use phasor_noise::PhasorNoise;
pub use phasor_noise::PhasorNoiseParams;
pub use phasor_noise::PhasorNoiseState;
pub use simplex_noise::SimplexNoise;
pub use simplex_noise::SimplexNoiseParams;
pub use value_noise::ValueNoise;
pub use value_noise::ValueNoiseParams;
pub use white_noise::hash;
pub use white_noise::spec_hash;
pub use white_noise::spec_white_noise;
pub use white_noise::white_noise_at;
pub use white_noise::WhiteNoise;
pub use white_noise::WhiteNoiseParams;

use vstd::prelude::*;
use crate::context::Context;
use crate::error::Error;
use crate::image::Image;
use crate::image::ImageState;
use crate::method::Computation;
use crate::method::computed;
use crate::method::computed_on_device_only;
use crate::method::Method;
use crate::method::Params;
use crate::method::Program;
use crate::method::registry::MethodRegistry;

verus! {

/// One of the methods that the library brings.
pub enum AnyMethod {
    Debug(debug::Debug),
    WhiteNoise(WhiteNoise),
    ValueNoise(ValueNoise),
    GradientNoise(GradientNoise),
    SimplexNoise(SimplexNoise),
    PhasorNoise(PhasorNoise),
}

impl AnyMethod {
    pub open spec fn program(self) -> Program {
        match self {
            AnyMethod::Debug(_) => Program::Debug,
            AnyMethod::WhiteNoise(_) => Program::WhiteNoise,
            AnyMethod::ValueNoise(_) => Program::ValueNoise,
            AnyMethod::GradientNoise(_) => Program::GradientNoise,
            AnyMethod::SimplexNoise(_) => Program::SimplexNoise,
            AnyMethod::PhasorNoise(_) => Program::PhasorNoise,
        }
    }

    /// Name of the shader program, once it was built.
    pub open spec fn gpu(self) -> Option<u32> {
        match self {
            AnyMethod::Debug(m) => m.gpu,
            AnyMethod::WhiteNoise(m) => m.gpu,
            AnyMethod::ValueNoise(m) => m.gpu,
            AnyMethod::GradientNoise(m) => m.gpu,
            AnyMethod::SimplexNoise(m) => m.gpu,
            AnyMethod::PhasorNoise(m) => m.gpu,
        }
    }

    /// What `compute` does, as a relation of what it is handed and what it
    /// leaves: what the method that this is does.
    pub open spec fn computed(
        self,
        ctx: Context,
        ctx_after: Context,
        tgt: ImageState,
        tgt_after: ImageState,
        params: Option<Params>,
        r: Result<Computation, Error>,
    ) -> bool {
        match self {
            AnyMethod::Debug(m) => computed::<debug::Debug>(
                m.gpu,
                ctx,
                ctx_after,
                tgt,
                tgt_after,
                params,
                r,
            ),
            AnyMethod::WhiteNoise(m) => computed::<WhiteNoise>(
                m.gpu,
                ctx,
                ctx_after,
                tgt,
                tgt_after,
                params,
                r,
            ),
            AnyMethod::ValueNoise(m) => computed_on_device_only::<ValueNoise>(
                m.gpu,
                ctx,
                ctx_after,
                tgt,
                tgt_after,
                params,
                r,
            ),
            AnyMethod::GradientNoise(m) => computed_on_device_only::<GradientNoise>(
                m.gpu,
                ctx,
                ctx_after,
                tgt,
                tgt_after,
                params,
                r,
            ),
            AnyMethod::SimplexNoise(m) => computed_on_device_only::<SimplexNoise>(
                m.gpu,
                ctx,
                ctx_after,
                tgt,
                tgt_after,
                params,
                r,
            ),
            AnyMethod::PhasorNoise(m) => phasor_noise::computed_phasor_noise(
                m.gpu,
                ctx,
                ctx_after,
                tgt,
                tgt_after,
                params,
                r,
            ),
        }
    }

    /// The method with the given shader program, which is not built yet.
    pub fn new(program: Program) -> (r: Self)
        ensures
            r.program() == program,
            r.gpu() is None,
    {
        match program {
            Program::Debug => AnyMethod::Debug(debug::Debug::new()),
            Program::WhiteNoise => AnyMethod::WhiteNoise(WhiteNoise::new()),
            Program::ValueNoise => AnyMethod::ValueNoise(ValueNoise::new()),
            Program::GradientNoise => AnyMethod::GradientNoise(GradientNoise::new()),
            Program::SimplexNoise => AnyMethod::SimplexNoise(SimplexNoise::new()),
            Program::PhasorNoise => AnyMethod::PhasorNoise(PhasorNoise::new()),
        }
    }
}

impl Method for AnyMethod {
    fn compute(&mut self, ctx: &mut Context, tgt: &mut Image, params: Option<&Params>) -> (r: Result<
        Computation,
        Error,
    >)
        ensures
            final(self).program() == old(self).program(),
            final(self).gpu() == old(self).gpu(),
            old(self).computed(
                *old(ctx),
                *final(ctx),
                old(tgt)@,
                final(tgt)@,
                match params {
                    Some(q) => Some(*q),
                    None => None,
                },
                r,
            ),
    {
        match self {
            AnyMethod::Debug(m) => m.compute(ctx, tgt, params),
            AnyMethod::WhiteNoise(m) => m.compute(ctx, tgt, params),
            AnyMethod::ValueNoise(m) => m.compute(ctx, tgt, params),
            AnyMethod::GradientNoise(m) => m.compute(ctx, tgt, params),
            AnyMethod::SimplexNoise(m) => m.compute(ctx, tgt, params),
            AnyMethod::PhasorNoise(m) => m.compute(ctx, tgt, params),
        }
    }

    fn program_built(&mut self, built: Result<u32, String>) -> (r: Result<(), Error>)
        ensures
            final(self).program() == old(self).program(),
            match built {
                Ok(program) => final(self).gpu() == Some(program),
                Err(_) => final(self).gpu() == old(self).gpu(),
            },
    {
        match self {
            AnyMethod::Debug(m) => m.program_built(built),
            AnyMethod::WhiteNoise(m) => m.program_built(built),
            AnyMethod::ValueNoise(m) => m.program_built(built),
            AnyMethod::GradientNoise(m) => m.program_built(built),
            AnyMethod::SimplexNoise(m) => m.program_built(built),
            AnyMethod::PhasorNoise(m) => m.program_built(built),
        }
    }
}

/// The names under which `new_registry` declares methods.
pub open spec fn builtin_methods() -> Map<Seq<char>, Program> {
    Map::<Seq<char>, Program>::empty().insert("debug"@, Program::Debug).insert(
        "white_noise"@,
        Program::WhiteNoise,
    ).insert("value_noise"@, Program::ValueNoise).insert("gradient_noise"@, Program::GradientNoise)
}

/// A registry of the methods that are declared by default.
pub fn new_registry() -> (r: MethodRegistry)
    ensures
        r@ == builtin_methods(),
{
    let mut registry = MethodRegistry::new();
    registry.register("debug", Program::Debug);
    registry.register("white_noise", Program::WhiteNoise);
    registry.register("value_noise", Program::ValueNoise);
    registry.register("gradient_noise", Program::GradientNoise);
    registry
}

/// The method that a registry knows under a name, whose shader program
/// is not built yet.  A caller that has no name, or none that is text, is
/// refused with `InvalidMethodName`, and a name that the registry does not
/// know with `MethodNotFound`.
pub fn new_method(registry: &MethodRegistry, name: Option<&str>) -> (r: Result<AnyMethod, Error>)
    ensures
        match name {
            None => r == Err::<AnyMethod, Error>(Error::InvalidMethodName),
            Some(n) => if registry@.dom().contains(n@) {
                r is Ok && r->Ok_0.program() == registry@[n@] && r->Ok_0.gpu() is None
            } else {
                r == Err::<AnyMethod, Error>(Error::MethodNotFound)
            },
        },
{
    match name {
        None => Err(Error::InvalidMethodName),
        Some(n) => match registry.build(n) {
            Some(program) => Ok(AnyMethod::new(program)),
            None => Err(Error::MethodNotFound),
        },
    }
}

} // verus!
