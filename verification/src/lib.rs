//! CPU-side core of a hybrid renderer: a compute pass traces into a shared
//! image and a raster pass presents it. These modules hold the verified
//! logic — dispatch sizing, frame pacing, mesh buffer preparation, and the
//! frame orchestration state machine — while the GPU and window bindings
//! live outside the library and only carry out the decisions made here.

pub mod dispatch;
pub mod frame;
pub mod mesh;
pub mod pacing;
