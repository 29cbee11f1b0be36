//! Core library of a package manager whose install step runs untrusted build
//! manifests: a sandboxed multi-stage install pipeline, a dependency verifier,
//! a registry of host intrinsics exposed to manifest scripts, and an archive
//! extraction subsystem covering four container/compression formats.

pub mod command;
pub mod config;
pub mod deps;
pub mod error;
pub mod extract;
pub mod manifest;
pub mod paths;
pub mod pipeline;
pub mod settings;
