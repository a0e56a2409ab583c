//! Configuration matching, context rules and the DRI3 bookkeeping of a GLX implementation.
use vstd::prelude::*;

pub mod config;
pub mod context;
pub mod cstr;
pub mod display;
pub mod dri;
pub mod indirect;
pub mod screen;
pub mod text;
pub mod tiny;
pub mod util;

verus! {
} // verus!
