//! Procedural texturing on two backends behind one abstraction.
//!
//! A [`context::Context`] selects the backend, an [`image::Image`] holds the
//! pixels and tracks which copy of them is current, and a [`method::Method`]
//! fills an image.  Everything that talks to a graphics driver is expressed as
//! commands for the caller to issue and outcomes for the caller to report, so
//! that the rules of the protocol are stated and proved here.

pub mod api;
pub mod context;
pub mod error;
pub mod float;
pub mod gl;
pub mod image;
pub mod io;
pub mod method;
pub mod methods;
pub mod terminal;

pub use error::Error;
