//! Bootstrap-and-render logic for drawing one static triangle.
//!
//! The library never touches the GPU. It decides which driver calls are made,
//! in which order, and what each driver reply means. The caller performs the
//! calls and hands the replies back.

pub mod bootstrap;
pub mod frame;
pub mod geometry;
pub mod gpu;
pub mod shader;
pub mod guess;
pub mod session;
