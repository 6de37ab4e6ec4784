//! Frame orchestration for an embedder that drives an external GPU renderer
//! through a windowing/surface layer.
//!
//! The library holds the two pieces of the embedder with a genuine contract:
//! the coordinate resolver (`window`), which maps device-independent window
//! metrics to the device-pixel rectangles composition works with, and the
//! frame loop state machine (`frame_loop`), which sequences event dispatch,
//! scene rebuilds, composition and presentation. The GPU, surface and input
//! plumbing around them lives outside the library.

pub mod frame_loop;
pub mod window;
