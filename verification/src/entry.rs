//! Locations in the cache: entries and shards.

use crate::path;
use crate::path::path_join;
use crate::path::path_parent;
use vstd::prelude::*;

verus! {

/// A file location in the cache, which may or may not exist yet.
#[derive(Debug, Clone)]
pub struct CacheEntry(String);

impl View for CacheEntry {
    type V = Seq<char>;

    closed spec fn view(&self) -> Seq<char> {
        self.0@
    }
}

impl CacheEntry {
    /// The entry `file` in the directory `dir`.
    pub fn new(dir: &str, file: &str) -> (entry: CacheEntry)
        ensures
            entry@ == path_join(dir@, file@),
    {
        CacheEntry(path::join(dir, file))
    }

    /// The entry at `path`.
    pub fn from_path(path: String) -> (entry: CacheEntry)
        ensures
            entry@ == path@,
    {
        CacheEntry(path)
    }

    /// The path of the entry, owned.
    pub fn into_path_buf(self) -> (path: String)
        ensures
            path@ == self@,
    {
        self.0
    }

    /// The path of the entry.
    pub fn path(&self) -> (path: &str)
        ensures
            path@ == self@,
    {
        self.0.as_str()
    }

    /// The directory that holds the entry, where its path has one.
    pub fn parent(&self) -> (dir: Option<String>)
        ensures
            match dir {
                Some(d) => path_parent(self@) == Some(d@),
                None => path_parent(self@) is None,
            },
    {
        path::parent(self.0.as_str())
    }

    /// The directory that holds the entry.
    pub fn dir(&self) -> (dir: String)
        requires
            path_parent(self@) is Some,
        ensures
            path_parent(self@) == Some(dir@),
    {
        match path::parent(self.0.as_str()) {
            Some(dir) => dir,
            None => unreached(),
        }
    }

    /// The entry `file` beside this one.
    pub fn with_file(&self, file: &str) -> (entry: CacheEntry)
        requires
            path_parent(self@) is Some,
        ensures
            entry@ == path_join(path_parent(self@).unwrap(), file@),
    {
        let dir = self.dir();
        CacheEntry(path::join(dir.as_str(), file))
    }

    /// The entry `file` beside this one, where this one has a directory.
    pub fn sibling(&self, file: &str) -> (entry: Option<CacheEntry>)
        ensures
            match entry {
                Some(e) => path_parent(self@) is Some && e@ == path_join(
                    path_parent(self@).unwrap(),
                    file@,
                ),
                None => path_parent(self@) is None,
            },
    {
        match path::parent(self.0.as_str()) {
            Some(_) => Some(self.with_file(file)),
            None => None,
        }
    }
}

/// A directory in the cache that holds entries and further shards.
#[derive(Debug, Clone)]
pub struct CacheShard(String);

impl View for CacheShard {
    type V = Seq<char>;

    closed spec fn view(&self) -> Seq<char> {
        self.0@
    }
}

impl CacheShard {
    /// The shard at `path`.
    pub fn from_path(path: String) -> (shard: CacheShard)
        ensures
            shard@ == path@,
    {
        CacheShard(path)
    }

    /// The path of the shard.
    pub fn as_str(&self) -> (path: &str)
        ensures
            path@ == self@,
    {
        self.0.as_str()
    }

    /// The entry `file` within this shard.
    pub fn entry(&self, file: &str) -> (entry: CacheEntry)
        ensures
            entry@ == path_join(self@, file@),
    {
        CacheEntry::new(self.0.as_str(), file)
    }

    /// The shard `dir` within this shard.
    pub fn shard(&self, dir: &str) -> (shard: CacheShard)
        ensures
            shard@ == path_join(self@, dir@),
    {
        CacheShard(path::join(self.0.as_str(), dir))
    }
}

} // verus!
