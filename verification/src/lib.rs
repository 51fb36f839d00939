//! Verified core of a tool that packages compiled WebAssembly artifacts
//! from a Cargo workspace and prepares them for publication to the
//! WebAssembly Package Manager (WAPM).
//!
//! The library decides *what* to do: which workspace members to publish,
//! which build target is the publishable artifact, what the synthesized
//! package manifest contains, how the compiler must be invoked, where the
//! compiled binary will appear, and which files are copied where when the
//! package directory is assembled. Callers perform the actual subprocess
//! and filesystem work and feed plain values back in.

pub mod fspath;
pub mod model;
pub mod error;
pub mod resolve;
pub mod manifest;
pub mod compile;
pub mod publisher;
pub mod assemble;
pub mod publish;
