//! Binding-layer logic for a native ahead-of-time compiler library.
//!
//! Two components: the build-strategy selector, which decides once per
//! build how the native compiler artifact is obtained and which linker
//! directives follow from that choice, and the compilation shim, which
//! drives the allocate / invoke / extract / release protocol of one
//! native compile call and guarantees the native handle is released on
//! every path.

pub mod shim;
pub mod strategy;
