//! Integer side of a ray tracer: the order in which pixels are produced, when a
//! light path through the scene ends, the list of scene objects, and the
//! plain-text pixmap encoding of the finished image.

pub mod hittable;
pub mod ppm;
pub mod scan;
pub mod trace;
