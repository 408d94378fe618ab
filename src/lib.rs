//! Integer core of a small ray tracer: colors and their packing, texture
//! layout and wrapping, box face selection, nearest-hit selection, the
//! framebuffer and the day cycle of the main light.

pub mod color;
pub mod texture;
pub mod face;
pub mod nearest;
pub mod framebuffer;
pub mod daylight;
