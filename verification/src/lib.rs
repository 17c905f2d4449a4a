//! Seam: the deterministic core of a compartmentalized agent runtime.

use vstd::prelude::*;

pub mod api;
pub mod authority;
pub mod broker;
pub mod capability_set;
pub mod chat_completions;
pub mod demo;
pub mod guarantees;
pub mod ids;
pub mod json;
pub mod kernel;
pub mod keyed;
pub mod model;
pub mod ordering;
pub mod paths;
pub mod policy;
pub mod projection;
pub mod protocol;
pub mod schema;
pub mod text;
pub mod work;
pub mod workbench;
pub mod worker;

verus! {

} // verus!
