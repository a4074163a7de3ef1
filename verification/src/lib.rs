//! Time base and orchestration for a fixed set of animated full-screen shader
//! effects.
//!
//! Every effect is drawn by a [`ShaderRenderer`], which owns an
//! [`AnimationClock`]: a stopwatch that follows the wall clock while animation
//! is enabled, stands still while it is disabled, and resumes without a jump.
//! An [`AnimatedShaderManager`] owns the renderers in a fixed order and
//! advances all of them on each tick. What a tick returns is one [`Frame`] for
//! each renderer; drawing the frame on a graphics device is left to the
//! caller, who gets the bytes of the time uniform from [`TimeUniform`] and the
//! parameters of the draw call from [`pipeline`].
//!
//! The clock counts whole nanoseconds, so its arithmetic is exact. Its
//! behaviour over any sequence of calls is stated and proved in [`timeline`].

pub mod clock;
pub mod manager;
pub mod pipeline;
pub mod renderer;
pub mod shaders;
pub mod time;
pub mod timeline;
pub mod uniform;

pub use clock::AnimationClock;
pub use manager::setup_shader_textures;
pub use manager::AnimatedShaderManager;
pub use renderer::Frame;
pub use renderer::ShaderRenderer;
pub use uniform::TimeUniform;
