//! Frame graph of a multi-pass outline renderer.
//!
//! The crate plans, as plain data, everything a renderer has to hand to the
//! graphics device in order to draw a spinning mesh with a stencil-masked
//! outline, a separable blur for glow, edge detection, compositing and tone
//! mapping: the descriptions of the render targets, the fixed-function state
//! of every pipeline, the bind groups, and the ordered passes of a frame.
//! Nothing here touches a device; the caller creates the resources that the
//! plan describes and records the passes in the order given.

pub mod depth_stencil;
pub mod extra;
pub mod frame;
pub mod gpu;
pub mod graph;
pub mod pipeline;
pub mod raster;
pub mod resources;
pub mod state;
pub mod texture;
pub mod vertex;
