//! Configuration contract of the built-in `nemoguardrails` plugin component:
//! the typed configuration document, its validation rules, and the
//! registration of the component kind in a plugin registry.
use vstd::prelude::*;

pub mod component;
pub mod config;
pub mod laws;
pub mod plugin;
pub mod rule_laws;
pub mod text;
pub mod validate;

verus! {

} // verus!
