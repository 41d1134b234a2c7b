//! Synthesis and reconciliation of Scoop manifests for locally built executables.

pub mod descriptor;
pub mod json;
pub mod manifest;
pub mod paths;
pub mod reconcile;
