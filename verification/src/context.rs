//! Computing contexts: the resources of a backend.

mod cpu;
mod gpu;

pub use cpu::CpuContext;
pub use gpu::GpuContext;
pub use gpu::GpuContextState;
pub use gpu::GpuHandles;
pub use gpu::RenderPass;
pub use gpu::RenderPassState;
pub use gpu::RenderStep;
pub use gpu::TextureRenderTarget;

use vstd::prelude::*;
use crate::error::Error;

verus! {

/// The backend of a computing session: a pool of threads, or a device.
pub enum Context {
    Cpu(CpuContext),
    Gpu(GpuContext),
}

impl Context {
    /// A context that computes on a pool of threads of the default size.
    /// Whether the pool can be built is up to the machine; where it cannot,
    /// the error is `ContextCreationFailed`.
    pub fn new_cpu() -> (r: Result<Self, Error>)
        ensures
            match r {
                Ok(context) => context is Cpu,
                Err(e) => e is ContextCreationFailed,
            },
    {
        match CpuContext::new() {
            Ok(context) => Ok(Context::Cpu(context)),
            Err(e) => Err(e),
        }
    }

    /// A context that computes on a device.  The caller has created the
    /// rendering context, made it current and created the objects that the
    /// library draws with; it hands in their names, or the platform's
    /// message where any of this failed.
    pub fn new_gpu(created: Result<GpuHandles, String>) -> (r: Result<Self, Error>)
        ensures
            match created {
                Ok(handles) => r is Ok && r->Ok_0 is Gpu && r->Ok_0->Gpu_0@ == GpuContext::fresh(
                    handles,
                ),
                Err(m) => r == Err::<Self, Error>(Error::ContextCreationFailed(m)),
            },
    {
        match created {
            Ok(handles) => Ok(Context::Gpu(GpuContext::new(handles))),
            Err(m) => Err(Error::ContextCreationFailed(m)),
        }
    }

    /// The pool of threads, where this is the backend.
    pub fn cpu(&self) -> (r: Option<&CpuContext>)
        ensures
            match *self {
                Context::Cpu(context) => r == Some(&context),
                Context::Gpu(_) => r is None,
            },
    {
        match self {
            Context::Cpu(context) => Some(context),
            _ => None,
        }
    }

    /// The device, where this is the backend.
    pub fn gpu(&self) -> (r: Option<&GpuContext>)
        ensures
            match *self {
                Context::Gpu(context) => r == Some(&context),
                Context::Cpu(_) => r is None,
            },
    {
        match self {
            Context::Gpu(context) => Some(context),
            _ => None,
        }
    }

    /// The pool of threads, for changes, where this is the backend.
    pub fn cpu_mut(&mut self) -> (r: Option<&mut CpuContext>)
        ensures
            match *old(self) {
                Context::Cpu(context) => r is Some && *r->Some_0 == context && *final(self)
                    == Context::Cpu(*final(r->Some_0)),
                Context::Gpu(_) => r is None && *final(self) == *old(self),
            },
    {
        match self {
            Context::Cpu(context) => Some(context),
            _ => None,
        }
    }

    /// The device, for changes, where this is the backend.
    pub fn gpu_mut(&mut self) -> (r: Option<&mut GpuContext>)
        ensures
            match *old(self) {
                Context::Gpu(context) => r is Some && *r->Some_0 == context && *final(self)
                    == Context::Gpu(*final(r->Some_0)),
                Context::Cpu(_) => r is None && *final(self) == *old(self),
            },
    {
        match self {
            Context::Gpu(context) => Some(context),
            _ => None,
        }
    }
}

} // verus!
