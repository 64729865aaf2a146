//! Build-time orchestration for a utility-CSS toolchain.
//!
//! The library decides, from an immutable configuration and a snapshot of the
//! build environment, which of two pipelines to run (install-and-compile for
//! release builds, just-in-time setup for development builds), and produces
//! the exact, ordered list of build steps to perform.  Rendering of the
//! framework configuration document and the substitution of the source
//! directory placeholder are verified down to the character sequence.

pub mod json;
pub mod plan;
pub mod profile;
pub mod render;
pub mod subst;
pub mod text;

pub use json::JsonValue;
pub use plan::{build_tailwind, BuildConfig, EnvSnapshot, Error, Plan, Step};
pub use profile::BuildProfile;
