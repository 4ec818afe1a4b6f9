//! Package manifest model and its rule-based validator.

pub mod grammar;
pub mod messages;
pub mod models;
pub mod semver;
pub mod validator;

pub use validator::validate;
pub use models::{ARAManifest, PackageSource, PackageType, SourceType};
