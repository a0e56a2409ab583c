//! The direct rendering (DRI) layer: rules, configurations, driver loading and DRI3 buffers.
use vstd::prelude::*;

pub mod tokens;
pub mod rules;
pub mod config;
pub mod drawable;
pub mod formats;
pub mod load;
pub mod screen;

verus! {
} // verus!
