//! The refresh policy and the freshness of entries under it.

use crate::io::IoError;
use crate::path::same;
use crate::path::texts;
use crate::timestamp::Timestamp;
use vstd::prelude::*;

verus! {

/// Whether an entry may be used as it is.
#[derive(Debug, Clone, Copy, PartialEq, Eq, Structural)]
pub enum Freshness {
    /// The entry is fresh under the refresh policy.
    Fresh,
    /// The entry is older than the policy allows.
    Stale,
    /// The entry does not exist.
    Missing,
}

impl Freshness {
    /// Whether the entry can be used as it is.
    pub fn is_fresh(self) -> (yes: bool)
        ensures
            yes == (self is Fresh),
    {
        match self {
            Freshness::Fresh => true,
            _ => false,
        }
    }

    /// Whether the entry is there, and older than the policy allows.
    pub fn is_stale(self) -> (yes: bool)
        ensures
            yes == (self is Stale),
    {
        match self {
            Freshness::Stale => true,
            _ => false,
        }
    }

    /// The freshness of an entry that is held to `cutoff`, from what a look at
    /// its path brought: last modified at the cutoff or later it is fresh,
    /// before the cutoff stale, and missing where the path does not exist. Any
    /// other failure is handed on.
    pub open spec fn judged(cutoff: Timestamp, stat: Result<Timestamp, IoError>) -> Result<
        Freshness,
        IoError,
    > {
        match stat {
            Ok(modified) => if modified@ >= cutoff@ {
                Ok(Freshness::Fresh)
            } else {
                Ok(Freshness::Stale)
            },
            Err(error) => if error.kind is NotFound {
                Ok(Freshness::Missing)
            } else {
                Err(error)
            },
        }
    }

    /// The freshness of an entry that is held to `cutoff`, from what a look at
    /// its path brought.
    pub fn from_stat(cutoff: Timestamp, stat: Result<Timestamp, IoError>) -> (freshness: Result<
        Freshness,
        IoError,
    >)
        ensures
            freshness == Freshness::judged(cutoff, stat),
            stat matches Err(error) && error.kind is NotFound ==> freshness == Ok::<
                Freshness,
                IoError,
            >(Freshness::Missing),
    {
        match stat {
            Ok(modified) => {
                if modified.as_nanos() >= cutoff.as_nanos() {
                    Ok(Freshness::Fresh)
                } else {
                    Ok(Freshness::Stale)
                }
            },
            Err(error) => {
                if error.is_not_found() {
                    Ok(Freshness::Missing)
                } else {
                    Err(error)
                }
            },
        }
    }
}

/// Which entries the user wants revalidated.
#[derive(Debug, Clone)]
pub enum Refresh {
    /// Refresh no entry.
    Never,
    /// Refresh the entries of the given packages that were made before the
    /// given instant.
    Packages(Vec<String>, Timestamp),
    /// Refresh every entry that was made before the given instant.
    All(Timestamp),
}

/// Whether `package` is one of `packages`.
pub fn contains(packages: &Vec<String>, package: &str) -> (found: bool)
    ensures
        found == texts(packages@).contains(package@),
{
    let mut i: usize = 0;
    while i < packages.len()
        invariant
            i <= packages.len(),
            forall|j: int| 0 <= j < i ==> texts(packages@)[j] != package@,
        decreases packages.len() - i,
    {
        if same(packages[i].as_str(), package) {
            assert(texts(packages@)[i as int] == package@);
            return true;
        }
        i = i + 1;
    }
    false
}

impl Refresh {
    /// The policy that the command line asks for: everything where `refresh`
    /// is set, else the packages named, if any, and both from `now` on.
    pub fn from_args(refresh: bool, refresh_package: Vec<String>, now: Timestamp) -> (policy:
        Refresh)
        ensures
            policy == if refresh {
                Refresh::All(now)
            } else if refresh_package@.len() > 0 {
                Refresh::Packages(refresh_package, now)
            } else {
                Refresh::Never
            },
    {
        if refresh {
            Refresh::All(now)
        } else if refresh_package.len() > 0 {
            Refresh::Packages(refresh_package, now)
        } else {
            Refresh::Never
        }
    }

    /// Whether no entry is to be refreshed.
    pub fn is_none(&self) -> (yes: bool)
        ensures
            yes == (self is Never),
    {
        match self {
            Refresh::Never => true,
            _ => false,
        }
    }

    /// Whether answers from the network that were cached for `package` must
    /// be revalidated.
    pub open spec fn revalidates(self, package: Seq<char>) -> bool {
        match self {
            Refresh::Never => false,
            Refresh::All(_) => true,
            Refresh::Packages(packages, _) => texts(packages@).contains(package),
        }
    }

    /// The instant that an entry of `package` is held to, or `None` where the
    /// entry is fresh whatever is on disk. An entry whose package is not known
    /// is held to the cutoff of any policy that has one.
    pub open spec fn cutoff(self, package: Option<Seq<char>>) -> Option<Timestamp> {
        match self {
            Refresh::Never => None,
            Refresh::All(cutoff) => Some(cutoff),
            Refresh::Packages(packages, cutoff) => match package {
                None => Some(cutoff),
                Some(name) => if texts(packages@).contains(name) {
                    Some(cutoff)
                } else {
                    None
                },
            },
        }
    }

    /// Whether answers from the network that were cached for `package` must
    /// be revalidated.
    pub fn must_revalidate(&self, package: &str) -> (yes: bool)
        ensures
            yes == self.revalidates(package@),
    {
        match self {
            Refresh::Never => false,
            Refresh::All(_) => true,
            Refresh::Packages(packages, _) => contains(packages, package),
        }
    }

    /// The instant that an entry of `package` is held to, or `None` where the
    /// entry is fresh whatever is on disk.
    pub fn cutoff_for(&self, package: Option<&str>) -> (cutoff: Option<Timestamp>)
        ensures
            cutoff == self.cutoff(
                match package {
                    Some(name) => Some(name@),
                    None => None,
                },
            ),
    {
        match self {
            Refresh::Never => None,
            Refresh::All(cutoff) => Some(*cutoff),
            Refresh::Packages(packages, cutoff) => match package {
                None => Some(*cutoff),
                Some(name) => {
                    if contains(packages, name) {
                        Some(*cutoff)
                    } else {
                        None
                    }
                },
            },
        }
    }
}

} // verus!
