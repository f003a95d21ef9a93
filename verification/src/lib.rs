//! A statically-typed, memory-safe calling surface over a catalog of numeric
//! time-series functions.
//!
//! The catalog is described by a [`registry::Registry`]: groups of function
//! definitions, each carrying descriptors for its optional parameters, its
//! input series and its output series. A reflection walk
//! ([`meta::Meta::new`]) recovers every function's shape into an immutable
//! catalog; the call engine ([`params::param_holder::ParamHolder`]) binds
//! typed parameters, inputs and outputs into a per-call context, derives the
//! exact output-buffer size from the function's lookback, and runs the
//! computation. Per-function entry points under [`indicators`] expose one
//! configuration type and one compute operation each, constrained to exactly
//! the input capabilities the function's descriptors require.

pub mod fixed;
pub mod flags;
pub mod func_handle;
pub mod func_info;
pub mod func_table;
pub mod group_table;
pub mod indicators;
pub mod input;
pub mod kernels;
pub mod meta;
pub mod params;
pub mod registry;
pub mod types;
