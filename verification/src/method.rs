//! Procedural texturing methods and their parameters.

pub mod bytes;
pub mod cpu;
pub mod gpu;
pub mod registry;

use vstd::prelude::*;
use crate::context::Context;
use crate::context::GpuContext;
use crate::context::GpuContextState;
use crate::context::RenderPass;
use crate::context::RenderPassState;
use crate::error::Error;
use crate::float::F32Bits;
use crate::gl::GlCommand;
use crate::gl::Uniform;
use crate::gl;
use crate::image::Image;
use crate::image::ImageDim;
use crate::image::ImageDimGpuExt;
use crate::image::ImageState;
use crate::method::cpu::compute_cpu;
use crate::method::cpu::spec_filled;
use crate::method::gpu::GpuDraw;
use crate::method::gpu::GpuDrawState;
use crate::methods::DebugParams;
use crate::methods::GradientNoiseParams;
use crate::methods::PhasorNoiseParams;
use crate::methods::SimplexNoiseParams;
use crate::methods::ValueNoiseParams;
use crate::methods::WhiteNoiseParams;

verus! {

/// Parameters as a caller hands them to a method of which it knows no more
/// than the interface: those of one of the methods, or a span of bytes.
pub enum Params {
    Debug(DebugParams),
    WhiteNoise(WhiteNoiseParams),
    ValueNoise(ValueNoiseParams),
    GradientNoise(GradientNoiseParams),
    SimplexNoise(SimplexNoiseParams),
    PhasorNoise(PhasorNoiseParams),
    /// The bytes of the parameters of some method, in its layout.
    Bytes(Vec<u8>),
}

/// The parameters of a method.
pub trait MethodParams: Sized {
    /// The parameters that a method takes where it is given none.
    spec fn spec_default() -> Self;

    /// The parameters that `params` holds, where they are of this type.
    spec fn spec_downcast(params: Params) -> Option<Self>;

    /// The parameters as a caller hands them to a method.
    spec fn spec_wrap(self) -> Params;

    /// Number of bytes of the layout, where the type has one.
    spec fn spec_byte_size() -> Option<nat>;

    /// The bytes of the parameters, which are empty where the type has no
    /// layout.
    spec fn spec_to_bytes(&self) -> Seq<u8>;

    /// The parameters that the bytes hold, where they are as many as the
    /// layout takes.
    spec fn spec_from_bytes(bytes: Seq<u8>) -> Option<Self>;

    /// What the parameters hand to the shader program, in the order of the
    /// fields.
    spec fn spec_uniforms(&self) -> Seq<Uniform>;

    /// Bytes are taken exactly when they are as many as the layout takes,
    /// and parameters that were turned into bytes are got back from them.
    proof fn lemma_byte_layout(p: Self, bytes: Seq<u8>)
        ensures
            Self::spec_from_bytes(bytes) is Some <==> Self::spec_byte_size() == Some(bytes.len()),
            Self::spec_byte_size() is Some ==> p.spec_to_bytes().len()
                == Self::spec_byte_size()->Some_0 && Self::spec_from_bytes(p.spec_to_bytes())
                == Some(p),
    ;

    /// Parameters that were handed over as such are found again, and a
    /// span of bytes is parameters of no type.
    proof fn lemma_wrap(p: Self, bytes: Vec<u8>)
        ensures
            Self::spec_downcast(p.spec_wrap()) == Some(p),
            Self::spec_downcast(Params::Bytes(bytes)) is None,
    ;

    fn default_params() -> (r: Self)
        ensures
            r == Self::spec_default(),
    ;

    fn downcast(params: &Params) -> (r: Option<&Self>)
        ensures
            match r {
                Some(p) => Self::spec_downcast(*params) == Some(*p),
                None => Self::spec_downcast(*params) is None,
            },
    ;

    fn into_params(self) -> (r: Params)
        ensures
            r == self.spec_wrap(),
    ;

    fn to_bytes(&self) -> (r: Vec<u8>)
        ensures
            r@ == self.spec_to_bytes(),
    ;

    fn from_bytes(bytes: &[u8]) -> (r: Option<Self>)
        ensures
            r == Self::spec_from_bytes(bytes@),
    ;

    fn uniforms(&self) -> (r: Vec<Uniform>)
        ensures
            r@ == self.spec_uniforms(),
    ;
}

/// Parameters that a method computes with: the caller's, or the library's
/// own where the caller gave none or gave bytes.
pub enum Resolved<'a, U> {
    Borrowed(&'a U),
    Owned(U),
}

impl<'a, U> Resolved<'a, U> {
    pub open spec fn spec_get(self) -> U {
        match self {
            Resolved::Borrowed(p) => *p,
            Resolved::Owned(p) => p,
        }
    }

    /// The parameters.
    pub fn get(&self) -> (r: &U)
        ensures
            *r == self.spec_get(),
    {
        match self {
            Resolved::Borrowed(p) => p,
            Resolved::Owned(p) => p,
        }
    }
}

/// The parameters of type `U` that a method computes with when it is handed
/// `params`: the default where there are none, the parameters themselves
/// where they are of that type, and those that a span of bytes holds where
/// it is as long as the layout of `U`.  Anything else is refused with
/// `InvalidParameters`.
pub open spec fn spec_downcast_params<U: MethodParams>(params: Option<Params>) -> Result<U, Error> {
    match params {
        None => Ok(U::spec_default()),
        Some(p) => match U::spec_downcast(p) {
            Some(u) => Ok(u),
            None => match p {
                Params::Bytes(bytes) => match U::spec_from_bytes(bytes@) {
                    Some(u) => Ok(u),
                    None => Err(Error::InvalidParameters),
                },
                _ => Err(Error::InvalidParameters),
            },
        },
    }
}

/// Finds the parameters of type `U` in what a caller handed to a method.
pub fn downcast_params<'u, U: MethodParams>(params: Option<&'u Params>) -> (r: Result<
    Resolved<'u, U>,
    Error,
>)
    ensures
        match r {
            Ok(p) => spec_downcast_params::<U>(
                match params {
                    Some(q) => Some(*q),
                    None => None,
                },
            ) == Ok::<U, Error>(p.spec_get()),
            Err(e) => spec_downcast_params::<U>(
                match params {
                    Some(q) => Some(*q),
                    None => None,
                },
            ) == Err::<U, Error>(e),
        },
{
    match params {
        None => Ok(Resolved::Owned(U::default_params())),
        Some(p) => match U::downcast(p) {
            Some(u) => Ok(Resolved::Borrowed(u)),
            None => match p {
                Params::Bytes(bytes) => match U::from_bytes(bytes.as_slice()) {
                    Some(u) => Ok(Resolved::Owned(u)),
                    None => Err(Error::InvalidParameters),
                },
                _ => Err(Error::InvalidParameters),
            },
        },
    }
}

/// Parameters that are handed over as the bytes of their layout are the
/// parameters that are handed over as such, and bytes that are not as many
/// as the layout takes are refused with `InvalidParameters`.
pub proof fn lemma_bytes_stand_for_parameters<U: MethodParams>(
    p: U,
    bytes: Vec<u8>,
    other: Vec<u8>,
)
    requires
        U::spec_byte_size() is Some,
        bytes@ == p.spec_to_bytes(),
        other@.len() != U::spec_byte_size()->Some_0,
    ensures
        spec_downcast_params::<U>(Some(Params::Bytes(bytes))) == Ok::<U, Error>(p),
        spec_downcast_params::<U>(Some(p.spec_wrap())) == Ok::<U, Error>(p),
        spec_downcast_params::<U>(Some(Params::Bytes(other))) == Err::<U, Error>(
            Error::InvalidParameters,
        ),
{
    U::lemma_byte_layout(p, bytes@);
    U::lemma_byte_layout(p, other@);
    U::lemma_wrap(p, bytes);
    U::lemma_wrap(p, other);
}

/// The shader program of a method.
#[derive(Debug, Clone, Copy, PartialEq, Eq, Structural)]
pub enum Program {
    Debug,
    WhiteNoise,
    ValueNoise,
    GradientNoise,
    SimplexNoise,
    PhasorNoise,
}

/// What every method is made of: its parameters and its shader program.
pub trait MethodKernel {
    type Params: MethodParams + Sync;

    spec fn spec_program() -> Program;

    fn program() -> (r: Program)
        ensures
            r == Self::spec_program(),
    ;
}

/// What a method that computes on the host is made of: the value of every
/// element.
pub trait CpuKernel: MethodKernel {
    /// Whether the method computes images of this shape.
    spec fn spec_supports(dim: ImageDim) -> bool;

    /// The value of the element at layer `k`, row `j`, column `i` and
    /// channel `l` of an image of shape `dim`.
    spec fn spec_compute_idx(
        k: int,
        j: int,
        i: int,
        l: int,
        dim: ImageDim,
        params: Self::Params,
    ) -> F32Bits;

    fn supports(dim: ImageDim) -> (r: bool)
        ensures
            r == Self::spec_supports(dim),
    ;

    /// Computes the value of an element.  The value depends on the
    /// coordinates, the shape and the parameters, and on nothing else.
    fn compute_idx(idx: (usize, usize, usize, usize), dim: ImageDim, params: &Self::Params) -> (r:
        F32Bits)
        requires
            Self::spec_supports(dim),
            dim.contains(idx.0 as int, idx.1 as int, idx.2 as int, idx.3 as int),
            dim.element_count() <= usize::MAX,
        ensures
            r == Self::spec_compute_idx(
                idx.0 as int,
                idx.1 as int,
                idx.2 as int,
                idx.3 as int,
                dim,
                *params,
            ),
    ;
}

/// How a call of `Method::compute` ended.
pub enum Computation {
    /// The image holds the result.
    Complete,
    /// The method's shader program is to be built for the context.  The
    /// caller builds it, reports with `Method::program_built` and calls
    /// `compute` again.
    BuildProgram(Program),
    /// The image is to be drawn into.  The caller issues `setup`, then
    /// carries on `pass`: for each layer that it names, the calls of the
    /// pass and those of `draw`.
    Render { pass: RenderPass, setup: Vec<GlCommand>, draw: GpuDraw },
}

/// A procedural texturing method.
pub trait Method {
    /// Computes an image with the backend of the context.  Parameters that
    /// are absent stand for the method's default.
    fn compute(&mut self, ctx: &mut Context, tgt: &mut Image, params: Option<&Params>) -> (r: Result<
        Computation,
        Error,
    >);

    /// Takes the name of the shader program that the caller has built, or
    /// the driver's message.
    fn program_built(&mut self, built: Result<u32, String>) -> (r: Result<(), Error>)
        ensures
            match built {
                Ok(_) => r is Ok,
                Err(m) => r == Err::<(), Error>(Error::OpenGlError(m)),
            },
    ;
}

/// What a computation on the host gives: the image must be on the host,
/// where it can be mapped, and of a shape that the method computes.
pub open spec fn spec_compute_cpu<K: CpuKernel>(tgt: ImageState, params: K::Params) -> Result<
    ImageState,
    Error,
> {
    match tgt {
        ImageState::Device(_) => Err(Error::MappingFailed(tgt.mapping()->Err_0)),
        ImageState::Host(s) => if K::spec_supports(s.dim) {
            Ok(ImageState::Host(spec_filled::<K>(s.dim, s.element_type, params)))
        } else {
            Err(Error::FormatNotSupported)
        },
    }
}

/// Whether a method can draw into an image: the image is on a device and
/// has two or three dimensions.
pub open spec fn can_render(tgt: ImageState) -> bool {
    tgt is Device && tgt->Device_0.target != gl::TEXTURE_1D
}

/// What a computation on a device does, as a relation of what it is handed
/// and what it leaves: an image that cannot be drawn into is refused with
/// `FormatNotSupported`; the shader program is asked for where it was not
/// built yet; else the drawing begins.
pub open spec fn computed_on_device(
    program: Program,
    uniforms: Seq<Uniform>,
    gpu: Option<u32>,
    ctx: GpuContextState,
    ctx_after: GpuContextState,
    tgt: ImageState,
    r: Result<Computation, Error>,
) -> bool {
    if !can_render(tgt) {
        r == Err::<Computation, Error>(Error::FormatNotSupported) && ctx_after == ctx
    } else {
        match gpu {
            None => r is Ok && r->Ok_0 == Computation::BuildProgram(program) && ctx_after == ctx,
            Some(name) => {
                &&& r is Ok
                &&& r->Ok_0 is Render
                &&& r->Ok_0->pass@ == (RenderPassState {
                    target: tgt->Device_0.target,
                    texture: tgt->Device_0.texture,
                    depth: tgt->Device_0.dim.depth,
                    next_layer: 0,
                    finished: false,
                })
                &&& r->Ok_0->setup@ == GpuContext::spec_setup_commands(ctx, tgt->Device_0)
                &&& r->Ok_0->draw@ == (GpuDrawState {
                    program: name,
                    resolution: tgt->Device_0.dim.spec_into_cgmath(),
                    uniforms,
                })
                &&& ctx_after == (GpuContextState {
                    render_target: ctx.render_target.after_alloc(tgt->Device_0.dim),
                    ..ctx
                })
            },
        }
    }
}

/// What `compute_with` does, as a relation of what it is handed and what
/// it leaves.
pub open spec fn computed<K: CpuKernel>(
    gpu: Option<u32>,
    ctx: Context,
    ctx_after: Context,
    tgt: ImageState,
    tgt_after: ImageState,
    params: Option<Params>,
    r: Result<Computation, Error>,
) -> bool {
    match spec_downcast_params::<K::Params>(params) {
        Err(e) => r == Err::<Computation, Error>(e) && tgt_after == tgt && ctx_after == ctx,
        Ok(p) => match ctx {
            Context::Cpu(_) => ctx_after == ctx && match spec_compute_cpu::<K>(tgt, p) {
                Ok(s) => r is Ok && r->Ok_0 is Complete && tgt_after == s,
                Err(e) => r == Err::<Computation, Error>(e) && tgt_after == tgt,
            },
            Context::Gpu(c) => tgt_after == tgt && ctx_after is Gpu && computed_on_device(
                K::spec_program(),
                p.spec_uniforms(),
                gpu,
                c@,
                ctx_after->Gpu_0@,
                tgt,
                r,
            ),
        },
    }
}

/// What `compute_on_device_only` does, as a relation of what it is handed
/// and what it leaves.
pub open spec fn computed_on_device_only<K: MethodKernel>(
    gpu: Option<u32>,
    ctx: Context,
    ctx_after: Context,
    tgt: ImageState,
    tgt_after: ImageState,
    params: Option<Params>,
    r: Result<Computation, Error>,
) -> bool {
    &&& tgt_after == tgt
    &&& match spec_downcast_params::<K::Params>(params) {
        Err(e) => r == Err::<Computation, Error>(e) && ctx_after == ctx,
        Ok(p) => match ctx {
            Context::Cpu(_) => ctx_after == ctx && r == Err::<Computation, Error>(
                Error::ContextNotSupported,
            ),
            Context::Gpu(c) => ctx_after is Gpu && computed_on_device(
                K::spec_program(),
                p.spec_uniforms(),
                gpu,
                c@,
                ctx_after->Gpu_0@,
                tgt,
                r,
            ),
        },
    }
}

/// Begins the computation of an image on a device.
pub fn compute_gpu(
    program: Program,
    uniforms: Vec<Uniform>,
    gpu: &Option<u32>,
    ctx: &mut GpuContext,
    tgt: &mut Image,
) -> (r: Result<Computation, Error>)
    ensures
        final(tgt)@ == old(tgt)@,
        computed_on_device(program, uniforms@, *gpu, old(ctx)@, final(ctx)@, old(tgt)@, r),
{
    match tgt.as_gpu_image_mut() {
        None => Err(Error::FormatNotSupported),
        Some(image) => {
            if image.target() == gl::TEXTURE_1D {
                return Err(Error::FormatNotSupported);
            }
            match gpu {
                None => Ok(Computation::BuildProgram(program)),
                Some(name) => {
                    let resolution = image.dim().into_cgmath();
                    let (pass, setup) = ctx.render_to_framebuffer(image);
                    let draw = GpuDraw::new(*name, resolution, uniforms);
                    Ok(Computation::Render { pass, setup, draw })
                },
            }
        },
    }
}

/// Computes an image with a method that computes on both backends, whose
/// shader program is `gpu` once it was built.
///
/// The parameters are found first, and `InvalidParameters` is returned where
/// there are none of the method's type.  On the host, the image is then
/// computed.  On a device, the drawing begins, as `compute_gpu` says.  A
/// program that was built is used for every context that the method is
/// handed afterwards: a method serves one device context.
pub fn compute_with<K: CpuKernel>(
    gpu: &Option<u32>,
    ctx: &mut Context,
    tgt: &mut Image,
    params: Option<&Params>,
) -> (r: Result<Computation, Error>)
    ensures
        computed::<K>(
            *gpu,
            *old(ctx),
            *final(ctx),
            old(tgt)@,
            final(tgt)@,
            match params {
                Some(q) => Some(*q),
                None => None,
            },
            r,
        ),
{
    let resolved = match downcast_params::<K::Params>(params) {
        Ok(p) => p,
        Err(e) => {
            return Err(e);
        },
    };
    let p = resolved.get();
    match ctx {
        Context::Cpu(cpu_context) => {
            let mapping = match tgt.data() {
                Ok(_) => None,
                Err(e) => Some(e),
            };
            match mapping {
                Some(e) => Err(Error::MappingFailed(e)),
                None => match tgt.as_cpu_image_mut() {
                    None => Err(Error::FormatNotSupported),
                    Some(data) => {
                        let dim = data.dim();
                        if K::supports(dim) {
                            compute_cpu::<K>(cpu_context, data, p);
                            Ok(Computation::Complete)
                        } else {
                            Err(Error::FormatNotSupported)
                        }
                    },
                },
            }
        },
        Context::Gpu(gpu_context) => compute_gpu(K::program(), p.uniforms(), gpu, gpu_context, tgt),
    }
}

/// Computes an image with a method that computes on a device only: on the
/// host it is refused with `ContextNotSupported`.
pub fn compute_on_device_only<K: MethodKernel>(
    gpu: &Option<u32>,
    ctx: &mut Context,
    tgt: &mut Image,
    params: Option<&Params>,
) -> (r: Result<Computation, Error>)
    ensures
        computed_on_device_only::<K>(
            *gpu,
            *old(ctx),
            *final(ctx),
            old(tgt)@,
            final(tgt)@,
            match params {
                Some(q) => Some(*q),
                None => None,
            },
            r,
        ),
{
    let resolved = match downcast_params::<K::Params>(params) {
        Ok(p) => p,
        Err(e) => {
            return Err(e);
        },
    };
    let p = resolved.get();
    match ctx {
        Context::Cpu(_) => Err(Error::ContextNotSupported),
        Context::Gpu(gpu_context) => compute_gpu(K::program(), p.uniforms(), gpu, gpu_context, tgt),
    }
}

/// A computation on the host is determined by the method, the parameters,
/// the shape and the element type: two computations that agree in these
/// leave images with the same elements, whatever the images held, and
/// whichever contexts of the host they ran on.
pub proof fn lemma_host_computation_is_determined<K: CpuKernel>(
    gpu_a: Option<u32>,
    gpu_b: Option<u32>,
    ctx_a: Context,
    ctx_b: Context,
    ctx_after_a: Context,
    ctx_after_b: Context,
    tgt_a: ImageState,
    tgt_b: ImageState,
    after_a: ImageState,
    after_b: ImageState,
    params: Option<Params>,
    r_a: Result<Computation, Error>,
    r_b: Result<Computation, Error>,
)
    requires
        ctx_a is Cpu,
        ctx_b is Cpu,
        tgt_a is Host,
        tgt_b is Host,
        tgt_a.dim() == tgt_b.dim(),
        tgt_a.element_type() == tgt_b.element_type(),
        computed::<K>(gpu_a, ctx_a, ctx_after_a, tgt_a, after_a, params, r_a),
        computed::<K>(gpu_b, ctx_b, ctx_after_b, tgt_b, after_b, params, r_b),
        r_a is Ok,
    ensures
        r_b is Ok,
        after_a == after_b,
        after_a is Host,
        after_a->Host_0.bytes == after_b->Host_0.bytes,
        after_a->Host_0.values == after_b->Host_0.values,
{
}

} // verus!
