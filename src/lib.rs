//! Scaffolding for security-service tests: self-cleaning temporary directories
//! and the decisions that resolve a security level's service handles.

pub mod path;
pub mod sec_level;
pub mod temp_dir;

pub use path::PathBuilder;
pub use sec_level::{SecLevel, SecurityLevel};
pub use temp_dir::TempDir;
