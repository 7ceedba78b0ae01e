//! A full-screen photo-frame slideshow library: aspect-preserving fit
//! geometry, blurred-background compositing, slideshow sequencing over a
//! remote photo collection, and the display-loop state machine.
//!
//! Network transport, rendering and threading live outside this crate; the
//! library exposes the verified geometry, sequencing and control decisions
//! they drive.

pub mod cli;
pub mod display;
pub mod frame;
pub mod geometry;
pub mod img;
pub mod slideshow;
