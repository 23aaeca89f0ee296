//! Methods that compute on a device: one draw of a triangle that covers the
//! image for each layer, with the method's shader program.

use vstd::prelude::*;
use crate::gl;
use crate::gl::GlCommand;
use crate::gl::Uniform;

verus! {

/// What the draw of a layer takes.
pub struct GpuDrawState {
    /// Name of the shader program.
    pub program: u32,
    /// Width, height and depth of the image.
    pub resolution: (u32, u32, u32),
    /// What the parameters hand to the program.
    pub uniforms: Seq<Uniform>,
}

impl GpuDrawState {
    pub open spec fn set_uniform(self, uniform: Uniform) -> GlCommand {
        GlCommand::SetUniform { program: self.program, uniform }
    }

    /// The calls that draw a layer: the program is selected, it is handed
    /// the resolution, the layer and the parameters, and three vertices are
    /// drawn as a triangle.
    pub open spec fn spec_commands(self, layer: u32) -> Seq<GlCommand> {
        seq![
            GlCommand::UseProgram { program: self.program },
            self.set_uniform(
                Uniform::Resolution(self.resolution.0, self.resolution.1, self.resolution.2),
            ),
            self.set_uniform(Uniform::Layer(layer)),
        ] + Seq::new(self.uniforms.len(), |i: int| self.set_uniform(self.uniforms[i])) + seq![
            GlCommand::DrawArrays { mode: gl::TRIANGLES, first: 0, count: 3 },
        ]
    }
}

/// The draw of the layers of an image with a method's program.
pub struct GpuDraw {
    program: u32,
    resolution: (u32, u32, u32),
    uniforms: Vec<Uniform>,
}

impl View for GpuDraw {
    type V = GpuDrawState;

    closed spec fn view(&self) -> GpuDrawState {
        GpuDrawState {
            program: self.program,
            resolution: self.resolution,
            uniforms: self.uniforms@,
        }
    }
}

impl GpuDraw {
    pub fn new(program: u32, resolution: (u32, u32, u32), uniforms: Vec<Uniform>) -> (r: Self)
        ensures
            r@ == (GpuDrawState { program, resolution, uniforms: uniforms@ }),
    {
        GpuDraw { program, resolution, uniforms }
    }

    /// The calls that draw a layer.
    pub fn commands(&self, layer: u32) -> (r: Vec<GlCommand>)
        ensures
            r@ == self@.spec_commands(layer),
    {
        let mut r: Vec<GlCommand> = Vec::new();
        r.push(GlCommand::UseProgram { program: self.program });
        r.push(
            GlCommand::SetUniform {
                program: self.program,
                uniform: Uniform::Resolution(
                    self.resolution.0,
                    self.resolution.1,
                    self.resolution.2,
                ),
            },
        );
        r.push(GlCommand::SetUniform { program: self.program, uniform: Uniform::Layer(layer) });
        let mut i: usize = 0;
        while i < self.uniforms.len()
            invariant
                i <= self.uniforms@.len(),
                r@.len() == 3 + i,
                r@[0] == (GlCommand::UseProgram { program: self.program }),
                r@[1] == self@.set_uniform(
                    Uniform::Resolution(self.resolution.0, self.resolution.1, self.resolution.2),
                ),
                r@[2] == self@.set_uniform(Uniform::Layer(layer)),
                forall|j: int| 0 <= j < i ==> r@[3 + j] == self@.set_uniform(self.uniforms@[j]),
            decreases self.uniforms@.len() - i,
        {
            r.push(GlCommand::SetUniform { program: self.program, uniform: self.uniforms[i] });
            i += 1;
        }
        r.push(GlCommand::DrawArrays { mode: gl::TRIANGLES, first: 0, count: 3 });
        assert(r@ =~= self@.spec_commands(layer));
        r
    }
}

} // verus!
