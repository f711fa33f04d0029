//! A typed, hierarchical, filesystem-backed resource persistence layer.
//!
//! A logical path (a sequence of resource ids) maps to a pair of physical
//! artifacts: a metadata sidecar (`<base>.meta.json`) describing the
//! resource's declared type and creation time, and a data payload
//! (`<base>.data[.<ext>]`) whose format is owned by the resource type.
//!
//! The library holds the decision logic: path resolution, the metadata
//! schema, type checking on load, and the transactional create protocol
//! with its rollback. Filesystem I/O itself is performed by a driver
//! outside the library, which hands each outcome back as a plain value.
//!
//! There is no internal locking or compare-and-swap on the underlying
//! files: two concurrent creates on one path can interleave their steps
//! and corrupt each other. Callers must serialize creations per path
//! externally if concurrent creators are possible. Loads never cache:
//! every load re-reads from disk.

pub mod error;
pub mod folder_ressource;
pub mod json;
pub mod meta;
pub mod path;
pub mod ressource;
pub mod text;
pub mod text_ressource;
pub mod time_format;
pub mod traits;
