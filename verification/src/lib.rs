//! Artifact cache planning and speculative prefetch scheduling.
//!
//! The cache is a directory of buckets. This library decides what is done to
//! it: where an entry lies, whether it is fresh, how a directory is published
//! in one stroke, what leaves when a package is removed, and what the garbage
//! collector takes. It never touches the file system: it takes what a look at
//! the disk found and gives back the steps to carry out.
//!
//! The prefetcher counts the versions that the solver tries of each package
//! and decides when to fetch ahead, and which versions.

pub mod archive;
pub mod bucket;
pub mod cache;
pub mod disk;
pub mod entry;
pub mod fx;
pub mod gc;
pub mod io;
pub mod path;
pub mod plan;
pub mod prefetch;
pub mod ranges;
pub mod refresh;
pub mod removal;
pub mod timestamp;

pub use crate::archive::ArchiveTarget;
pub use crate::archive::ArchiveTimestamp;
pub use crate::bucket::CacheBucket;
pub use crate::cache::Cache;
pub use crate::entry::CacheEntry;
pub use crate::entry::CacheShard;
pub use crate::prefetch::BatchPrefetcher;
pub use crate::prefetch::PubGrubPackage;
pub use crate::refresh::Freshness;
pub use crate::refresh::Refresh;
pub use crate::removal::Removal;
pub use crate::timestamp::Timestamp;
