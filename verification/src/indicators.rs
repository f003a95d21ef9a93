//! Per-function entry points, grouped as the registry groups them.
//!
//! Each function gets a configuration type — one field per optional
//! parameter, prefilled with the registry's documented default, overridable
//! through a builder — and one compute operation whose input types are
//! constrained to exactly the capabilities the function's input descriptors
//! require. The operation drives the call engine: it resolves the handle,
//! allocates a context, binds parameters, inputs and freshly sized output
//! buffers, invokes, and hands back the filled buffers.

pub mod math_operators;
pub mod overlap_studies;
pub mod price_transform;

