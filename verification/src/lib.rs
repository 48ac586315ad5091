//! Build-backend protocol runtime and manifest-to-recipe translation.
//!
//! Given a project manifest, this library classifies the manifest's declared
//! dependencies by phase, converts them into match requirements, assembles a
//! canonical build recipe, and drives the initialize-once protocol state
//! machine that exposes the recipe pipeline to a calling orchestrator.

pub mod artifact;
pub mod backend;
pub mod classify;
pub mod cmake;
pub mod deps;
pub mod error;
pub mod extract;
pub mod manifest;
pub mod names;
pub mod platform;
pub mod python;
pub mod recipe;
pub mod server;

use vstd::prelude::*;

verus! {

/// A phase a declared dependency belongs to: the three requirement sets of a
/// recipe are derived from these.
#[derive(Clone, Copy, PartialEq, Eq, Structural, Debug)]
pub enum SpecType {
    Build,
    Host,
    Run,
}

} // verus!
