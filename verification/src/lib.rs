//! Layered 2D scene compositing: the scene model, the per-frame render plan,
//! and the surface lifecycle, stated over plain values and proved with Verus.
//!
//! The crate decides; it does not draw. A caller that owns a window and a
//! device hands in scenes, window events and what the device answered, and
//! gets back what to create, what to record and in which order.

pub mod layout;
pub mod quad;
pub mod renderer;
pub mod resources;
pub mod scalar;
pub mod scene;
pub mod shader;
pub mod surface_wrapper;

pub use quad::QuadState;
pub use renderer::{Drawable, KindDrawable, Renderer};
pub use resources::Resources;
pub use scalar::{Scalar, Vec2, Vec4};
pub use scene::{Layer, Path, PathCommand, Quad, Scene, Sprite, Text};
