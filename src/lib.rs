//! Managed-file metadata engine of a configuration-file manager: the store of
//! tracked files, the path codec that keeps it portable, the content mirror,
//! drift detection and the cache reconciler.

pub mod text;
pub mod codec;
pub mod file;
pub mod mirror;
pub mod status;
pub mod paths;
pub mod config;
pub mod branch;
pub mod ops;
pub mod branch_ops;
