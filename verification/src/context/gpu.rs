use vstd::prelude::*;
use crate::error::Error;
use crate::gl;
use crate::gl::GlCommand;
use crate::image::gpu::GpuImageData;
use crate::image::gpu::GpuImageState;
use crate::image::ImageDim;

verus! {

/// Names of the objects that drawing needs, as the driver gave them.
#[derive(Debug, Clone, Copy, PartialEq, Eq, Structural)]
pub struct GpuHandles {
    /// An empty vertex array: the triangle that covers the image has no
    /// vertex data.
    pub vertex_array: u32,
    pub framebuffer: u32,
    /// The renderbuffer that serves as depth attachment.
    pub depthbuffer: u32,
}

/// The framebuffer that images are drawn through, with its depth
/// attachment.  The attachment grows with the images and never shrinks.
#[derive(Debug, Clone, Copy, PartialEq, Eq)]
pub struct TextureRenderTarget {
    pub framebuffer: u32,
    pub depthbuffer: u32,
    /// Width and height of the depth attachment, once it has storage.
    pub current_size: Option<(usize, usize)>,
}

pub open spec fn spec_max(a: usize, b: usize) -> usize {
    if a >= b {
        a
    } else {
        b
    }
}

impl TextureRenderTarget {
    /// Whether the depth attachment must get new storage for an image of
    /// the given width and height.
    pub open spec fn must_grow(self, width: usize, height: usize) -> bool {
        match self.current_size {
            None => true,
            Some((w, h)) => width > w || height > h,
        }
    }

    /// Width and height of the depth attachment once an image of the given
    /// width and height was drawn: the largest asked for so far, each way.
    pub open spec fn grown_size(self, width: usize, height: usize) -> (usize, usize) {
        match self.current_size {
            None => (width, height),
            Some((w, h)) => (spec_max(w, width), spec_max(h, height)),
        }
    }

    pub open spec fn after_alloc(self, dim: ImageDim) -> TextureRenderTarget {
        if self.must_grow(dim.width, dim.height) {
            TextureRenderTarget {
                current_size: Some(self.grown_size(dim.width, dim.height)),
                ..self
            }
        } else {
            self
        }
    }

    pub open spec fn spec_alloc_commands(self, dim: ImageDim) -> Seq<GlCommand> {
        if self.must_grow(dim.width, dim.height) {
            let size = self.grown_size(dim.width, dim.height);
            let storage = seq![
                GlCommand::BindRenderbuffer { renderbuffer: Some(self.depthbuffer) },
                GlCommand::RenderbufferStorage {
                    storage_format: gl::DEPTH_COMPONENT,
                    width: size.0,
                    height: size.1,
                },
                GlCommand::BindRenderbuffer { renderbuffer: None },
            ];
            if self.current_size.is_none() {
                storage.push(
                    GlCommand::FramebufferRenderbuffer {
                        attachment: gl::DEPTH_ATTACHMENT,
                        renderbuffer: Some(self.depthbuffer),
                    },
                )
            } else {
                storage
            }
        } else {
            seq![]
        }
    }

    /// A render target around a framebuffer and a renderbuffer, which has
    /// no storage yet.
    pub fn new(framebuffer: u32, depthbuffer: u32) -> (r: TextureRenderTarget)
        ensures
            r == (TextureRenderTarget { framebuffer, depthbuffer, current_size: None }),
    {
        TextureRenderTarget { framebuffer, depthbuffer, current_size: None }
    }

    /// Makes the depth attachment large enough for an image of the given
    /// shape and gives the calls that do so: none where it is large enough
    /// already.  The first storage is also attached to the framebuffer,
    /// which is bound.
    pub fn allocate(&mut self, dim: ImageDim) -> (r: Vec<GlCommand>)
        ensures
            *final(self) == old(self).after_alloc(dim),
            r@ == old(self).spec_alloc_commands(dim),
    {
        let mut r: Vec<GlCommand> = Vec::new();
        let (grow, width, height) = match self.current_size {
            None => (true, dim.width, dim.height),
            Some((w, h)) => (
                dim.width > w || dim.height > h,
                if w >= dim.width {
                    w
                } else {
                    dim.width
                },
                if h >= dim.height {
                    h
                } else {
                    dim.height
                },
            ),
        };
        if grow {
            r.push(GlCommand::BindRenderbuffer { renderbuffer: Some(self.depthbuffer) });
            r.push(
                GlCommand::RenderbufferStorage {
                    storage_format: gl::DEPTH_COMPONENT,
                    width,
                    height,
                },
            );
            r.push(GlCommand::BindRenderbuffer { renderbuffer: None });
            if self.current_size.is_none() {
                r.push(
                    GlCommand::FramebufferRenderbuffer {
                        attachment: gl::DEPTH_ATTACHMENT,
                        renderbuffer: Some(self.depthbuffer),
                    },
                );
            }
            self.current_size = Some((width, height));
        }
        assert(r@ =~= old(self).spec_alloc_commands(dim));
        r
    }
}

/// The depth attachment never shrinks, and after an image was drawn it is
/// at least as large as the image.
pub proof fn lemma_render_target_grows_only(target: TextureRenderTarget, dim: ImageDim)
    ensures
        target.after_alloc(dim).current_size is Some,
        target.after_alloc(dim).current_size->Some_0.0 >= dim.width,
        target.after_alloc(dim).current_size->Some_0.1 >= dim.height,
        target.current_size is Some ==> target.after_alloc(dim).current_size->Some_0.0
            >= target.current_size->Some_0.0 && target.after_alloc(dim).current_size->Some_0.1
            >= target.current_size->Some_0.1,
        !target.after_alloc(dim).must_grow(dim.width, dim.height),
{
}

/// What the library knows of a device context.
#[derive(Debug, Clone, Copy, PartialEq, Eq)]
pub struct GpuContextState {
    pub vertex_array: u32,
    pub render_target: TextureRenderTarget,
}

/// Resources for computing on a device.  The rendering context itself
/// stays with the caller, on the thread that created it.
pub struct GpuContext {
    vao: u32,
    rtt: TextureRenderTarget,
}

impl View for GpuContext {
    type V = GpuContextState;

    closed spec fn view(&self) -> GpuContextState {
        GpuContextState { vertex_array: self.vao, render_target: self.rtt }
    }
}

/// What the library knows of a drawing into an image that is under way.
#[derive(Debug, Clone, Copy, PartialEq, Eq, Structural)]
pub struct RenderPassState {
    /// The kind of the image's texture.
    pub target: u32,
    pub texture: u32,
    /// Number of layers of the image.
    pub depth: usize,
    /// The layer to draw next.
    pub next_layer: usize,
    /// Whether the drawing is over.
    pub finished: bool,
}

/// What the caller does next while an image is drawn into.
#[derive(Debug, PartialEq, Eq)]
pub enum RenderStep {
    /// Issue `layer_commands` for the layer, draw it, and report how the
    /// drawing ended.
    Layer { layer: usize },
    /// Issue `cleanup_commands`; the drawing is over and this is its
    /// result.
    Finished(Result<(), Error>),
}

impl RenderPassState {
    /// State and step when the caller reports how the last layer's drawing
    /// ended; before the first layer it reports success.  The drawing ends
    /// at the first layer that fails, or after the last.
    pub open spec fn step(self, last: Result<(), Error>) -> (RenderPassState, RenderStep) {
        if self.finished || last is Err || self.next_layer >= self.depth {
            (RenderPassState { finished: true, ..self }, RenderStep::Finished(last))
        } else {
            (
                RenderPassState { next_layer: (self.next_layer + 1) as usize, ..self },
                RenderStep::Layer { layer: self.next_layer },
            )
        }
    }

    pub open spec fn spec_layer_commands(self, layer: usize) -> Seq<GlCommand> {
        if self.target == gl::TEXTURE_3D {
            seq![
                GlCommand::FramebufferTexture3d {
                    attachment: gl::COLOR_ATTACHMENT0,
                    target: gl::TEXTURE_3D,
                    texture: Some(self.texture),
                    layer,
                },
            ]
        } else {
            seq![]
        }
    }

    pub open spec fn spec_cleanup_commands(self) -> Seq<GlCommand> {
        seq![
            GlCommand::FramebufferTexture { attachment: gl::COLOR_ATTACHMENT0, texture: None },
            GlCommand::BindTexture { target: self.target, texture: None },
            GlCommand::BindVertexArray { vertex_array: None },
            GlCommand::BindFramebuffer { framebuffer: None },
        ]
    }
}

/// A drawing into an image that is under way.
pub struct RenderPass {
    state: RenderPassState,
}

impl View for RenderPass {
    type V = RenderPassState;

    closed spec fn view(&self) -> RenderPassState {
        self.state
    }
}

impl RenderPass {
    #[verifier::type_invariant]
    spec fn inv(self) -> bool {
        self.state.next_layer <= self.state.depth
    }

    /// Goes on with the drawing.  `last` is how the drawing of the layer
    /// that the last step named has ended, and success before the first
    /// step.  When the drawing ends, by a failure or after the last layer,
    /// the image records once that its texture was drawn into.
    pub fn next(&mut self, tgt: &mut GpuImageData, last: Result<(), Error>) -> (step: RenderStep)
        requires
            old(tgt)@.device_generation < u32::MAX,
        ensures
            (final(self)@, step) == old(self)@.step(last),
            final(tgt)@ == if !old(self)@.finished && final(self)@.finished {
                old(tgt)@.rendered()
            } else {
                old(tgt)@
            },
    {
        proof {
            use_type_invariant(&*self);
        }
        let state = self.state;
        if state.finished {
            RenderStep::Finished(last)
        } else if last.is_err() || state.next_layer >= state.depth {
            tgt.invalidate_host();
            self.state = RenderPassState { finished: true, ..state };
            RenderStep::Finished(last)
        } else {
            self.state = RenderPassState { next_layer: state.next_layer + 1, ..state };
            RenderStep::Layer { layer: state.next_layer }
        }
    }

    /// The calls that precede the drawing of a layer: a volume has the
    /// layer attached to the framebuffer, since one attachment holds one
    /// layer.
    pub fn layer_commands(&self, layer: usize) -> (r: Vec<GlCommand>)
        ensures
            r@ == self@.spec_layer_commands(layer),
    {
        let mut r: Vec<GlCommand> = Vec::new();
        if self.state.target == gl::TEXTURE_3D {
            r.push(
                GlCommand::FramebufferTexture3d {
                    attachment: gl::COLOR_ATTACHMENT0,
                    target: gl::TEXTURE_3D,
                    texture: Some(self.state.texture),
                    layer,
                },
            );
        }
        assert(r@ =~= self@.spec_layer_commands(layer));
        r
    }

    /// The calls that end the drawing, whether it succeeded or not: the
    /// texture leaves the framebuffer, and texture, vertex array and
    /// framebuffer are unbound.
    pub fn cleanup_commands(&self) -> (r: Vec<GlCommand>)
        ensures
            r@ == self@.spec_cleanup_commands(),
    {
        let mut r: Vec<GlCommand> = Vec::new();
        r.push(GlCommand::FramebufferTexture { attachment: gl::COLOR_ATTACHMENT0, texture: None });
        r.push(GlCommand::BindTexture { target: self.state.target, texture: None });
        r.push(GlCommand::BindVertexArray { vertex_array: None });
        r.push(GlCommand::BindFramebuffer { framebuffer: None });
        assert(r@ =~= self@.spec_cleanup_commands());
        r
    }

    /// Whether the drawing is over.
    pub fn is_finished(&self) -> (r: bool)
        ensures
            r == self@.finished,
    {
        self.state.finished
    }
}

impl GpuContext {
    /// The state of a context that was just created.
    pub open spec fn fresh(handles: GpuHandles) -> GpuContextState {
        GpuContextState {
            vertex_array: handles.vertex_array,
            render_target: TextureRenderTarget {
                framebuffer: handles.framebuffer,
                depthbuffer: handles.depthbuffer,
                current_size: None,
            },
        }
    }

    /// The calls that prepare the drawing into an image.
    pub open spec fn spec_setup_commands(state: GpuContextState, tgt: GpuImageState) -> Seq<
        GlCommand,
    > {
        let bind = seq![
            GlCommand::BindFramebuffer { framebuffer: Some(state.render_target.framebuffer) },
        ];
        let view = seq![
            GlCommand::Viewport { width: tgt.dim.width, height: tgt.dim.height },
            GlCommand::BindVertexArray { vertex_array: Some(state.vertex_array) },
            GlCommand::BindTexture { target: tgt.target, texture: Some(tgt.texture) },
        ];
        let attach = if tgt.target == gl::TEXTURE_2D {
            seq![
                GlCommand::FramebufferTexture2d {
                    attachment: gl::COLOR_ATTACHMENT0,
                    target: gl::TEXTURE_2D,
                    texture: Some(tgt.texture),
                },
            ]
        } else {
            seq![]
        };
        bind + state.render_target.spec_alloc_commands(tgt.dim) + view + attach
    }

    /// A context around the objects that the driver has created at the
    /// caller's request.
    pub fn new(handles: GpuHandles) -> (r: GpuContext)
        ensures
            r@ == Self::fresh(handles),
    {
        GpuContext {
            vao: handles.vertex_array,
            rtt: TextureRenderTarget::new(handles.framebuffer, handles.depthbuffer),
        }
    }

    /// Name of the vertex array that drawing binds.
    pub fn vertex_array(&self) -> (r: u32)
        ensures
            r == self@.vertex_array,
    {
        self.vao
    }

    /// The render target that images are drawn through.
    pub fn render_target(&self) -> (r: TextureRenderTarget)
        ensures
            r == self@.render_target,
    {
        self.rtt
    }

    /// Begins to draw into an image of two or three dimensions.  Gives the
    /// drawing, which `RenderPass::next` carries on, and the calls that
    /// prepare it: the framebuffer is bound, the depth attachment grows to
    /// the image's size where it is smaller, the viewport takes the image's
    /// width and height, the vertex array and the texture are bound, and a
    /// plane is attached to the framebuffer once for the whole drawing.  The
    /// render target serves one drawing at a time.
    pub fn render_to_framebuffer(&mut self, tgt: &GpuImageData) -> (r: (RenderPass, Vec<GlCommand>))
        requires
            tgt@.target != gl::TEXTURE_1D,
        ensures
            r.0@ == (RenderPassState {
                target: tgt@.target,
                texture: tgt@.texture,
                depth: tgt@.dim.depth,
                next_layer: 0,
                finished: false,
            }),
            r.1@ == Self::spec_setup_commands(old(self)@, tgt@),
            final(self)@ == (GpuContextState {
                render_target: old(self)@.render_target.after_alloc(tgt@.dim),
                ..old(self)@
            }),
    {
        let target = tgt.target();
        let texture = tgt.texture();
        let dim = tgt.dim();
        let ghost before = self@;
        let mut commands: Vec<GlCommand> = Vec::new();
        commands.push(GlCommand::BindFramebuffer { framebuffer: Some(self.rtt.framebuffer) });
        let mut grow = self.rtt.allocate(dim);
        commands.append(&mut grow);
        commands.push(GlCommand::Viewport { width: dim.width, height: dim.height });
        commands.push(GlCommand::BindVertexArray { vertex_array: Some(self.vao) });
        commands.push(GlCommand::BindTexture { target, texture: Some(texture) });
        if target == gl::TEXTURE_2D {
            commands.push(
                GlCommand::FramebufferTexture2d {
                    attachment: gl::COLOR_ATTACHMENT0,
                    target: gl::TEXTURE_2D,
                    texture: Some(texture),
                },
            );
        }
        assert(commands@ =~= Self::spec_setup_commands(before, tgt@));
        let pass = RenderPass {
            state: RenderPassState { target, texture, depth: dim.depth, next_layer: 0, finished: false },
        };
        (pass, commands)
    }
}

/// The pass, the image and the result at the end of a drawing in which the
/// drawing of layer `n` ends as `outcome(n)`, from the point at which the
/// caller reports `last`.
pub open spec fn run_pass(
    pass: RenderPassState,
    image: GpuImageState,
    outcome: spec_fn(usize) -> Result<(), Error>,
    last: Result<(), Error>,
) -> (RenderPassState, GpuImageState, Result<(), Error>)
    decreases pass.depth - pass.next_layer,
{
    let (next, step) = pass.step(last);
    match step {
        RenderStep::Finished(result) => (
            next,
            if pass.finished {
                image
            } else {
                image.rendered()
            },
            result,
        ),
        RenderStep::Layer { layer } => run_pass(next, image, outcome, outcome(layer)),
    }
}

/// A drawing draws the layers in order and ends at the first whose drawing
/// fails, with that failure as its result, or after the last, with success.
/// However it ends, the image records exactly once that it was drawn into,
/// and nothing else of the image changes.
pub proof fn lemma_drawing_ends_at_first_failure(
    pass: RenderPassState,
    image: GpuImageState,
    outcome: spec_fn(usize) -> Result<(), Error>,
    last: Result<(), Error>,
)
    requires
        !pass.finished,
        pass.next_layer <= pass.depth,
    ensures
        ({
            let (end, after, result) = run_pass(pass, image, outcome, last);
            &&& end.finished
            &&& after == image.rendered()
            &&& pass.next_layer <= end.next_layer <= pass.depth
            &&& forall|l: usize|
                pass.next_layer <= l && l + 1 < end.next_layer ==> #[trigger] outcome(l) is Ok
            &&& last is Err ==> end.next_layer == pass.next_layer && result == last
            &&& last is Ok && result is Err ==> end.next_layer > pass.next_layer && result
                == outcome((end.next_layer - 1) as usize)
            &&& last is Ok && result is Ok ==> end.next_layer == pass.depth && forall|l: usize|
                pass.next_layer <= l < pass.depth ==> #[trigger] outcome(l) is Ok
        }),
    decreases pass.depth - pass.next_layer,
{
    let (next, step) = pass.step(last);
    if last is Ok && pass.next_layer < pass.depth {
        lemma_drawing_ends_at_first_failure(next, image, outcome, outcome(pass.next_layer));
        let (end, after, result) = run_pass(pass, image, outcome, last);
        assert((end, after, result) == run_pass(next, image, outcome, outcome(pass.next_layer)));
    }
}

} // verus!
