//! Orchestration of a two-stage hardware display pipeline (resize, then
//! render), with the geometry that places an image in the viewport, the
//! buffer layout the resize stage expects, and the reading of a display
//! request.

pub mod component;
pub mod error;
pub mod geometry;
pub mod picture;
pub mod pipeline;
pub mod request;
