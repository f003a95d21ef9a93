//! Descriptors for a function's parameters and the per-call binding context.

pub mod input;
pub mod opt_input;
pub mod output;
pub mod param_holder;
