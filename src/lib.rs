//! Packs a native shared library, built for one or more platforms, into a
//! NuGet package.
//!
//! The library holds the packaging logic: the platform model and its runtime
//! identifiers, the policy that resolves one build artifact per target, the
//! `nuspec` metadata document and the layout of the `nupkg` archive. Running
//! `cargo`, reading files and saving the package are left to the caller.

pub mod text;
pub mod platform;
pub mod archive;
pub mod resolve;
pub mod xml;
pub mod nuspec;
pub mod openxml;
pub mod pack;
pub mod manifest;
pub mod stages;
pub mod version;
