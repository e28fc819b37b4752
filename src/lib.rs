//! Compilation orchestration for smart-contract projects: compiler binary
//! resolution, request construction, response checking and artifact layout.

mod artifacts;
mod builder;
mod error;
pub mod input;
pub mod output;
mod paths;
mod platform;
mod profile;
mod project;
mod snapper_file;
mod text;
pub mod utils;
pub mod version;

pub use artifacts::{artifact_paths, contract_outputs, ArtifactPaths, ContractOutput};
pub use builder::{Builder, Solc};
pub use error::Error;
pub use platform::Platform;
pub use profile::ProfileType;
pub use project::SnapperPackage;
pub use snapper_file::{
    EvmVersion, Network, Optimizer, Profile, Profiles, Solidity, SnapperFile,
};
pub use paths::{file_name, join_path};
pub use text::str_eq;
pub use version::{Artifact, CompilerVersions, ResolveAction};
