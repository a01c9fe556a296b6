//! When a source was last modified, and whether what was made from it is up to
//! date.

use crate::io::FileStat;
use crate::io::IoError;
use crate::path;
use crate::path::path_join;
use crate::timestamp::Timestamp;
use std::cmp::Ordering;
use vstd::prelude::*;
use vstd::std_specs::cmp::PartialOrdSpecImpl;

verus! {

/// The instant at which a source archive was last modified.
#[derive(Debug, Clone, Copy, PartialEq, Eq, Structural)]
pub enum ArchiveTimestamp {
    /// The archive is a single file, modified at the given instant.
    Exact(Timestamp),
    /// The archive is a directory. The instant is that of the entrypoint file
    /// in it that was modified last; a change to another file does not show.
    Approximate(Timestamp),
}

/// Where the outcome of a build is kept.
#[derive(Debug, Clone)]
pub enum ArchiveTarget {
    /// An installed package, by the directory of its metadata.
    Install(String),
    /// An unpacked package in the cache.
    Cache(String),
}

impl ArchiveTarget {
    /// The path whose modification time says when the target was made.
    pub open spec fn stamped(self) -> Seq<char> {
        match self {
            ArchiveTarget::Install(installed) => path_join(installed@, "METADATA"@),
            ArchiveTarget::Cache(cached) => cached@,
        }
    }

    /// The path whose modification time says when the target was made: the
    /// metadata file of an installed package, the directory of a cached one.
    pub fn path(&self) -> (path: String)
        ensures
            path@ == self.stamped(),
    {
        match self {
            ArchiveTarget::Install(installed) => path::join(installed.as_str(), "METADATA"),
            ArchiveTarget::Cache(cached) => cached.clone(),
        }
    }
}

/// The later of two instants, of which either may be missing.
pub open spec fn latest(left: Option<Timestamp>, right: Option<Timestamp>) -> Option<Timestamp> {
    match (left, right) {
        (None, _) => right,
        (_, None) => left,
        (Some(l), Some(r)) => if l@ >= r@ {
            left
        } else {
            right
        },
    }
}

/// The later of two instants, of which either may be missing.
pub fn later(left: Option<Timestamp>, right: Option<Timestamp>) -> (last: Option<Timestamp>)
    ensures
        last == latest(left, right),
{
    match (left, right) {
        (None, _) => right,
        (_, None) => left,
        (Some(l), Some(r)) => {
            if l.as_nanos() >= r.as_nanos() {
                left
            } else {
                right
            }
        },
    }
}

/// What a look at an entrypoint file says: its modification time where it is
/// a regular file, nothing where it is missing, is no file, or cannot be
/// looked at.
pub fn entrypoint(stat: Result<FileStat, IoError>) -> (modified: Option<Timestamp>)
    ensures
        modified == match stat {
            Ok(found) => if found.is_file {
                Some(found.modified)
            } else {
                None
            },
            Err(_) => None,
        },
{
    match stat {
        Ok(found) => {
            if found.is_file {
                Some(found.modified)
            } else {
                None
            }
        },
        Err(_) => None,
    }
}

impl ArchiveTimestamp {
    /// The instant, exact or not.
    pub open spec fn instant(self) -> Timestamp {
        match self {
            ArchiveTimestamp::Exact(timestamp) => timestamp,
            ArchiveTimestamp::Approximate(timestamp) => timestamp,
        }
    }

    /// What a source says of its own modification time. A regular file says
    /// it exactly. A directory answers with the latest of its entrypoint
    /// files, and with nothing where it has none.
    pub open spec fn of_source(
        source: FileStat,
        pyproject_toml: Option<Timestamp>,
        setup_py: Option<Timestamp>,
        setup_cfg: Option<Timestamp>,
    ) -> Option<ArchiveTimestamp> {
        if source.is_file {
            Some(ArchiveTimestamp::Exact(source.modified))
        } else {
            match latest(pyproject_toml, latest(setup_py, setup_cfg)) {
                Some(timestamp) => Some(ArchiveTimestamp::Approximate(timestamp)),
                None => None,
            }
        }
    }

    /// Whether a target made at `created_at` is up to date with a source of
    /// the modification time `source`. A source that cannot say when it was
    /// modified has no target that is up to date.
    pub open spec fn current(source: Option<ArchiveTimestamp>, created_at: Timestamp) -> bool {
        source matches Some(modified_at) && modified_at.instant()@ <= created_at@
    }

    /// The names of the files whose modification stands for that of a source
    /// directory.
    pub open spec fn entrypoint_names() -> Seq<Seq<char>> {
        seq!["pyproject.toml"@, "setup.py"@, "setup.cfg"@]
    }

    /// The paths of the entrypoint files of the source directory `source`, in
    /// the order in which [`ArchiveTimestamp::from_path`] takes their times.
    pub fn entrypoints(source: &str) -> (paths: Vec<String>)
        ensures
            paths@.len() == 3,
            forall|i: int|
                0 <= i < 3 ==> (#[trigger] paths@[i])@ == path_join(
                    source@,
                    ArchiveTimestamp::entrypoint_names()[i],
                ),
    {
        let mut paths = Vec::new();
        paths.push(path::join(source, "pyproject.toml"));
        paths.push(path::join(source, "setup.py"));
        paths.push(path::join(source, "setup.cfg"));
        paths
    }

    /// The modification time of an archive, which is a file (a wheel or a
    /// zip archive) or a directory that holds a package. `source` is what a
    /// look at the archive found; the other three are what the entrypoint
    /// files in it say, each through [`entrypoint`]. A failure to look at the
    /// archive is handed on.
    pub fn from_path(
        source: Result<FileStat, IoError>,
        pyproject_toml: Option<Timestamp>,
        setup_py: Option<Timestamp>,
        setup_cfg: Option<Timestamp>,
    ) -> (modified: Result<Option<ArchiveTimestamp>, IoError>)
        ensures
            modified == match source {
                Ok(found) => Ok::<Option<ArchiveTimestamp>, IoError>(
                    ArchiveTimestamp::of_source(found, pyproject_toml, setup_py, setup_cfg),
                ),
                Err(error) => Err(error),
            },
    {
        match source {
            Ok(found) => {
                if found.is_file {
                    Ok(Some(ArchiveTimestamp::Exact(found.modified)))
                } else {
                    match later(pyproject_toml, later(setup_py, setup_cfg)) {
                        Some(timestamp) => Ok(Some(ArchiveTimestamp::Approximate(timestamp))),
                        None => Ok(None),
                    }
                }
            },
            Err(error) => Err(error),
        }
    }

    /// The modification time of a file, from what a look at it found.
    pub fn from_file(source: Result<FileStat, IoError>) -> (modified: Result<
        ArchiveTimestamp,
        IoError,
    >)
        ensures
            modified == match source {
                Ok(found) => Ok::<ArchiveTimestamp, IoError>(
                    ArchiveTimestamp::Exact(found.modified),
                ),
                Err(error) => Err(error),
            },
    {
        match source {
            Ok(found) => Ok(ArchiveTimestamp::Exact(found.modified)),
            Err(error) => Err(error),
        }
    }

    /// The instant, exact or not.
    pub fn timestamp(&self) -> (timestamp: Timestamp)
        ensures
            timestamp == self.instant(),
    {
        match self {
            ArchiveTimestamp::Exact(timestamp) => *timestamp,
            ArchiveTimestamp::Approximate(timestamp) => *timestamp,
        }
    }

    /// Whether the target, an installed or cached package, is up to date with
    /// its source. `source` is the modification time of the source, `target`
    /// what a look at the target's path brought. Without a time for the source
    /// the target does not count as up to date, whatever became of the look at
    /// it; with one, a failure to look at the target is handed on.
    pub fn up_to_date_with(
        source: Option<ArchiveTimestamp>,
        target: Result<Timestamp, IoError>,
    ) -> (up_to_date: Result<bool, IoError>)
        ensures
            up_to_date == match (source, target) {
                (None, _) => Ok::<bool, IoError>(false),
                (Some(_), Ok(created_at)) => Ok(ArchiveTimestamp::current(source, created_at)),
                (Some(_), Err(error)) => Err(error),
            },
    {
        match source {
            None => Ok(false),
            Some(modified_at) => match target {
                Ok(created_at) => Ok(modified_at.timestamp().as_nanos() <= created_at.as_nanos()),
                Err(error) => Err(error),
            },
        }
    }
}

impl PartialOrd for ArchiveTimestamp {
    /// Orders by the instant alone: an exact time and an approximate one of
    /// the same instant are neither before nor after one another.
    fn partial_cmp(&self, other: &ArchiveTimestamp) -> (order: Option<Ordering>) {
        let left = self.timestamp().as_nanos();
        let right = other.timestamp().as_nanos();
        if left < right {
            Some(Ordering::Less)
        } else if left > right {
            Some(Ordering::Greater)
        } else {
            Some(Ordering::Equal)
        }
    }
}

impl PartialOrdSpecImpl for ArchiveTimestamp {
    open spec fn obeys_partial_cmp_spec() -> bool {
        true
    }

    open spec fn partial_cmp_spec(&self, other: &ArchiveTimestamp) -> Option<Ordering> {
        if self.instant()@ < other.instant()@ {
            Some(Ordering::Less)
        } else if self.instant()@ > other.instant()@ {
            Some(Ordering::Greater)
        } else {
            Some(Ordering::Equal)
        }
    }
}

/// The latest of the entrypoint times is one of them, and none of them is
/// later.
pub proof fn lemma_latest_is_maximum(left: Option<Timestamp>, right: Option<Timestamp>)
    ensures
        latest(left, right) is None <==> left is None && right is None,
        latest(left, right) == left || latest(left, right) == right,
        left matches Some(l) ==> latest(left, right).unwrap()@ >= l@,
        right matches Some(r) ==> latest(left, right).unwrap()@ >= r@,
{
}

/// A file as source is up to date with a target exactly when it was not
/// modified after the target was made.
pub proof fn lemma_up_to_date_by_instant(source: ArchiveTimestamp, created_at: Timestamp)
    ensures
        ArchiveTimestamp::current(Some(source), created_at) <==> source.instant()@ <= created_at@,
        !ArchiveTimestamp::current(None, created_at),
{
}

} // verus!
