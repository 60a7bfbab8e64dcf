//! Lifecycle logic for a two-stage still-image pipeline: a capture component
//! tunnelled into an image encoder, with a fixed pool of output buffers.
//!
//! The library decides; the caller performs. Every native call is described
//! by a plain value handed out by the library, and its outcome is handed back
//! as a plain value.

pub mod camera;
pub mod capture;
pub mod error;
pub mod format;
pub mod pipeline;
pub mod pool;
pub mod protocol;

pub use camera::Camera;
pub use error::CameraError;
pub use format::fourcc;
