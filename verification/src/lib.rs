//! The integer core of a small path tracer: the frame buffer that receives
//! the finished pixels, its PNG encoding, and the bounce budget that bounds
//! every light path.

pub mod encoder;
pub mod image;
pub mod integrator;
