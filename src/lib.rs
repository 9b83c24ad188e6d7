//! A small rendering core: arenas of GPU resources addressed by stable handles,
//! and a frame protocol that turns a layer of draw pipelines into one ordered
//! command list (acquire, one render pass, submit, present).
//!
//! The GPU objects themselves are opaque to this crate: a `Backend` names their
//! types, so the same logic runs against a real device or against plain values.
pub mod backend;
pub mod driver;
pub mod form;
pub mod frame;
pub mod layer;
pub mod renderer;
pub mod shade;
pub mod sketch;
pub mod vertex;
