//! Core of a versioned-installation retriever: it decides which remote
//! objects (client package, platform-specific libraries, content-addressed
//! asset objects) must be materialized on disk, verifies their integrity by
//! content digest, and maps completion counts of each stage into a single
//! 0-100 progress scale. All I/O is left to the surrounding application;
//! this crate holds the decisions and the data they are made from.

pub mod assets;
pub mod fetch;
pub mod hashing;
pub mod logger;
pub mod model;
pub mod modrinth;
pub mod orchestrator;
pub mod paths;
pub mod progress;
pub mod resolver;
pub mod scheduler;
pub mod strutil;
