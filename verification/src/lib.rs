//! Overlay annotation engine for text highlighting.
//!
//! The engine turns a (possibly multi-line) selection into per-line segments,
//! decides the priority a new highlight must carry to render above whatever it
//! overlaps, detects when a segment covers a whole line (in which case the line
//! is wiped instead of out-prioritized), and keeps the set of annotations in a
//! namespaced store. The host editor owns the document text and the rendering;
//! this crate only reads line lengths and plain values handed in by the host.

pub mod config;
pub mod controller;
pub mod range;
pub mod resolver;
pub mod store;
