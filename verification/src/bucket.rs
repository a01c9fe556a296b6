//! The buckets of the cache and what leaves each when a package is removed.
//!
//! A bucket is a directory under the cache root, named after the kind of data
//! and the version of its layout. When the layout of a bucket changes, its
//! version is raised, and what was stored under the old name is left behind
//! for the garbage collector.

use crate::cache::Cache;
use crate::path;
use crate::path::lemma_texts_push;
use crate::path::path_join;
use crate::path::same;
use crate::path::texts;
use vstd::prelude::*;
use vstd::string::StringExecFns;

verus! {

/// The kinds of data in the cache, each stored in a directory of its own.
#[derive(Debug, Clone, Copy, Eq, PartialEq, Hash, Structural)]
pub enum CacheBucket {
    /// Wheels that were downloaded, with their metadata and cache policy:
    /// `{pypi, index/<index>, url/<url>}/<package>/...`.
    Wheels,
    /// Wheels that were built from source distributions. Besides the
    /// namespaces of `Wheels` it has `path/<path>` and `git/<repository>/<sha>`,
    /// and under `url`, `path` and `git` the directories are keyed by where
    /// the source came from, not by the package.
    BuiltWheels,
    /// Responses of flat indexes, one file for each index.
    FlatIndex,
    /// Git repositories.
    Git,
    /// What is known of the interpreters.
    Interpreter,
    /// Responses of the simple index API: `{pypi, url/<index>}/<package>.rkyv`.
    Simple,
    /// Unpacked wheels, each in a directory with a random name. The other
    /// buckets point into this one by symlinks, so that an entry can be put in
    /// place and replaced in one step.
    Archive,
}

/// The namespaces inside the wheel buckets.
#[derive(Debug, Clone, Copy, Eq, PartialEq, Hash, Structural)]
pub enum WheelCacheKind {
    /// The default index.
    Pypi,
    /// Another index.
    Index,
    /// A direct URL.
    Url,
    /// A local path.
    Path,
    /// A Git repository.
    Git,
}

impl WheelCacheKind {
    /// The name of the directory of this namespace.
    pub open spec fn name(self) -> Seq<char> {
        match self {
            WheelCacheKind::Pypi => "pypi"@,
            WheelCacheKind::Index => "index"@,
            WheelCacheKind::Url => "url"@,
            WheelCacheKind::Path => "path"@,
            WheelCacheKind::Git => "git"@,
        }
    }

    /// The name of the directory of this namespace.
    pub fn to_str(self) -> (name: &'static str)
        ensures
            name@ == self.name(),
    {
        match self {
            WheelCacheKind::Pypi => "pypi",
            WheelCacheKind::Index => "index",
            WheelCacheKind::Url => "url",
            WheelCacheKind::Path => "path",
            WheelCacheKind::Git => "git",
        }
    }
}

/// A directory that holds one build of a source distribution.
#[derive(Debug, Clone)]
pub struct BuiltDir {
    pub path: String,
    /// The package that the metadata record in the directory names; `None`
    /// where there is no record or it cannot be read.
    pub package: Option<String>,
}

impl BuiltDir {
    /// Whether the directory holds a build of `package`.
    pub open spec fn names(self, package: Seq<char>) -> bool {
        self.package matches Some(recorded) && recorded@ == package
    }

    /// Whether the directory holds a build of `package`. A record that is
    /// missing or cannot be read matches no package.
    pub fn is_match(&self, package: &str) -> (yes: bool)
        ensures
            yes == self.names(package@),
    {
        match &self.package {
            Some(recorded) => same(recorded.as_str(), package),
            None => false,
        }
    }
}

/// A directory inside a namespace, with the build directories that were
/// listed in it, if any were asked for.
#[derive(Debug, Clone)]
pub struct SourceDir {
    pub path: String,
    pub builds: Vec<BuiltDir>,
}

impl SourceDir {
    /// Whether one of the builds in the directory is of `package`.
    pub open spec fn holds(self, package: Seq<char>) -> bool {
        exists|i: int| 0 <= i < self.builds@.len() && (#[trigger] self.builds@[i]).names(package)
    }

    /// The build directories in it that hold `package`.
    pub open spec fn builds_of(self, package: Seq<char>) -> Seq<Seq<char>> {
        self.builds@.filter(|build: BuiltDir| build.names(package)).map_values(
            |build: BuiltDir| build.path@,
        )
    }

    /// Whether one of the builds in the directory is of `package`.
    pub fn any_match(&self, package: &str) -> (yes: bool)
        ensures
            yes == self.holds(package@),
    {
        let mut i: usize = 0;
        while i < self.builds.len()
            invariant
                i <= self.builds.len(),
                forall|j: int| 0 <= j < i ==> !(#[trigger] self.builds@[j]).names(package@),
            decreases self.builds.len() - i,
        {
            if self.builds[i].is_match(package) {
                return true;
            }
            i = i + 1;
        }
        false
    }
}

/// What was found in the namespaces of one bucket: the directories right
/// under `index`, `url`, `path` and `git`.
#[derive(Debug, Clone)]
pub struct BucketListing {
    pub index: Vec<SourceDir>,
    pub url: Vec<SourceDir>,
    pub path: Vec<SourceDir>,
    pub git: Vec<SourceDir>,
}

/// What was found in the buckets that hold packages by name or by source.
#[derive(Debug, Clone)]
pub struct CacheListing {
    pub wheels: BucketListing,
    pub built_wheels: BucketListing,
    pub simple: BucketListing,
}

/// A namespace to list before a package is removed, and whether the build
/// directories one level further down are to be listed and read as well.
#[derive(Debug, Clone, Copy, PartialEq, Eq, Structural)]
pub struct Scan {
    pub kind: WheelCacheKind,
    pub builds: bool,
}

/// `leaf` under each of the directories.
pub open spec fn under_each(dirs: Seq<SourceDir>, leaf: Seq<char>) -> Seq<Seq<char>> {
    dirs.map_values(|dir: SourceDir| path_join(dir.path@, leaf))
}

/// The directories that hold a build of `package`.
pub open spec fn sources_of(dirs: Seq<SourceDir>, package: Seq<char>) -> Seq<Seq<char>> {
    dirs.filter(|dir: SourceDir| dir.holds(package)).map_values(|dir: SourceDir| dir.path@)
}

/// The build directories of `package` in all of the repositories, repository
/// by repository.
pub open spec fn revisions_of(repositories: Seq<SourceDir>, package: Seq<char>) -> Seq<Seq<char>>
    decreases repositories.len(),
{
    if repositories.len() == 0 {
        Seq::empty()
    } else {
        revisions_of(repositories.drop_last(), package) + repositories.last().builds_of(package)
    }
}

proof fn lemma_sources_of_step(dirs: Seq<SourceDir>, package: Seq<char>, i: int)
    requires
        0 <= i < dirs.len(),
    ensures
        sources_of(dirs.take(i + 1), package) == if dirs[i].holds(package) {
            sources_of(dirs.take(i), package).push(dirs[i].path@)
        } else {
            sources_of(dirs.take(i), package)
        },
{
    let pred = |dir: SourceDir| dir.holds(package);
    assert(dirs.take(i + 1) =~= dirs.take(i).push(dirs[i]));
    dirs.take(i).lemma_filter_push(dirs[i], pred);
}

proof fn lemma_builds_of_step(builds: Seq<BuiltDir>, package: Seq<char>, i: int)
    requires
        0 <= i < builds.len(),
    ensures
        ({
            let pred = |build: BuiltDir| build.names(package);
            let path = |build: BuiltDir| build.path@;
            builds.take(i + 1).filter(pred).map_values(path) == if builds[i].names(package) {
                builds.take(i).filter(pred).map_values(path).push(builds[i].path@)
            } else {
                builds.take(i).filter(pred).map_values(path)
            }
        }),
{
    let pred = |build: BuiltDir| build.names(package);
    assert(builds.take(i + 1) =~= builds.take(i).push(builds[i]));
    builds.take(i).lemma_filter_push(builds[i], pred);
}

proof fn lemma_revisions_of_step(repositories: Seq<SourceDir>, package: Seq<char>, i: int)
    requires
        0 <= i < repositories.len(),
    ensures
        revisions_of(repositories.take(i + 1), package) == revisions_of(
            repositories.take(i),
            package,
        ) + repositories[i].builds_of(package),
{
    assert(repositories.take(i + 1).drop_last() =~= repositories.take(i));
}

/// Appends `leaf` under each of the directories.
fn push_under_each(dirs: &Vec<SourceDir>, leaf: &str, targets: &mut Vec<String>)
    ensures
        texts(final(targets)@) == texts(old(targets)@) + under_each(dirs@, leaf@),
{
    let mut i: usize = 0;
    while i < dirs.len()
        invariant
            i <= dirs.len(),
            texts(targets@) == texts(old(targets)@) + under_each(dirs@.take(i as int), leaf@),
        decreases dirs.len() - i,
    {
        let target = path::join(dirs[i].path.as_str(), leaf);
        proof {
            lemma_texts_push(targets@, target);
        }
        targets.push(target);
        i = i + 1;
    }
}

/// Appends the directories that hold a build of `package`.
fn push_sources_of(dirs: &Vec<SourceDir>, package: &str, targets: &mut Vec<String>)
    ensures
        texts(final(targets)@) == texts(old(targets)@) + sources_of(dirs@, package@),
{
    let mut i: usize = 0;
    while i < dirs.len()
        invariant
            i <= dirs.len(),
            texts(targets@) == texts(old(targets)@) + sources_of(dirs@.take(i as int), package@),
        decreases dirs.len() - i,
    {
        proof {
            lemma_sources_of_step(dirs@, package@, i as int);
        }
        if dirs[i].any_match(package) {
            let target = dirs[i].path.clone();
            proof {
                lemma_texts_push(targets@, target);
            }
            targets.push(target);
        }
        i = i + 1;
    }
    assert(dirs@.take(dirs.len() as int) =~= dirs@);
}

/// Appends the build directories of one repository that hold `package`.
fn push_builds_of(repository: &SourceDir, package: &str, targets: &mut Vec<String>)
    ensures
        texts(final(targets)@) == texts(old(targets)@) + repository.builds_of(package@),
{
    let ghost pred = |build: BuiltDir| build.names(package@);
    let ghost path = |build: BuiltDir| build.path@;
    let builds = &repository.builds;
    let mut i: usize = 0;
    while i < builds.len()
        invariant
            i <= builds.len(),
            pred == |build: BuiltDir| build.names(package@),
            path == |build: BuiltDir| build.path@,
            texts(targets@) == texts(old(targets)@) + builds@.take(i as int).filter(
                pred,
            ).map_values(path),
        decreases builds.len() - i,
    {
        proof {
            lemma_builds_of_step(builds@, package@, i as int);
        }
        if builds[i].is_match(package) {
            let target = builds[i].path.clone();
            proof {
                lemma_texts_push(targets@, target);
            }
            targets.push(target);
        }
        i = i + 1;
    }
    assert(builds@.take(builds.len() as int) =~= builds@);
}

/// Appends the build directories of `package` in all of the repositories.
fn push_revisions_of(repositories: &Vec<SourceDir>, package: &str, targets: &mut Vec<String>)
    ensures
        texts(final(targets)@) == texts(old(targets)@) + revisions_of(repositories@, package@),
{
    let mut i: usize = 0;
    while i < repositories.len()
        invariant
            i <= repositories.len(),
            texts(targets@) == texts(old(targets)@) + revisions_of(
                repositories@.take(i as int),
                package@,
            ),
        decreases repositories.len() - i,
    {
        push_builds_of(&repositories[i], package, targets);
        proof {
            lemma_revisions_of_step(repositories@, package@, i as int);
        }
        i = i + 1;
    }
    assert(repositories@.take(repositories.len() as int) =~= repositories@);
}

impl CacheBucket {
    /// The name of the bucket's directory.
    pub open spec fn name(self) -> Seq<char> {
        match self {
            CacheBucket::BuiltWheels => "built-wheels-v2"@,
            CacheBucket::FlatIndex => "flat-index-v0"@,
            CacheBucket::Git => "git-v0"@,
            CacheBucket::Interpreter => "interpreter-v0"@,
            CacheBucket::Simple => "simple-v6"@,
            CacheBucket::Wheels => "wheels-v0"@,
            CacheBucket::Archive => "archive-v0"@,
        }
    }

    /// All buckets.
    pub open spec fn all() -> Seq<CacheBucket> {
        seq![
            CacheBucket::Wheels,
            CacheBucket::BuiltWheels,
            CacheBucket::FlatIndex,
            CacheBucket::Git,
            CacheBucket::Interpreter,
            CacheBucket::Simple,
            CacheBucket::Archive,
        ]
    }

    /// The name of the bucket's directory.
    pub fn to_str(self) -> (name: &'static str)
        ensures
            name@ == self.name(),
    {
        match self {
            CacheBucket::BuiltWheels => "built-wheels-v2",
            CacheBucket::FlatIndex => "flat-index-v0",
            CacheBucket::Git => "git-v0",
            CacheBucket::Interpreter => "interpreter-v0",
            CacheBucket::Simple => "simple-v6",
            CacheBucket::Wheels => "wheels-v0",
            CacheBucket::Archive => "archive-v0",
        }
    }

    /// All buckets, in the order in which the cache goes through them.
    pub fn iter() -> (buckets: Vec<CacheBucket>)
        ensures
            buckets@ == CacheBucket::all(),
    {
        let mut buckets = Vec::new();
        buckets.push(CacheBucket::Wheels);
        buckets.push(CacheBucket::BuiltWheels);
        buckets.push(CacheBucket::FlatIndex);
        buckets.push(CacheBucket::Git);
        buckets.push(CacheBucket::Interpreter);
        buckets.push(CacheBucket::Simple);
        buckets.push(CacheBucket::Archive);
        buckets
    }

    /// Whether `name` is the name of a bucket's directory.
    pub open spec fn is_name(name: Seq<char>) -> bool {
        exists|bucket: CacheBucket| #[trigger] bucket.name() == name
    }

    /// Whether `name` is the name of a bucket's directory.
    pub fn is_bucket_name(name: &str) -> (yes: bool)
        ensures
            yes == CacheBucket::is_name(name@),
    {
        let buckets = CacheBucket::iter();
        let mut i: usize = 0;
        while i < buckets.len()
            invariant
                i <= buckets.len(),
                buckets@ == CacheBucket::all(),
                forall|j: int| 0 <= j < i ==> (#[trigger] buckets@[j]).name() != name@,
            decreases buckets.len() - i,
        {
            if same(buckets[i].to_str(), name) {
                return true;
            }
            i = i + 1;
        }
        false
    }

    /// The namespaces of the bucket that have to be listed before a package is
    /// removed from it.
    pub open spec fn scans(self) -> Seq<Scan> {
        match self {
            CacheBucket::Wheels => seq![
                Scan { kind: WheelCacheKind::Index, builds: false },
                Scan { kind: WheelCacheKind::Url, builds: false },
            ],
            CacheBucket::BuiltWheels => seq![
                Scan { kind: WheelCacheKind::Index, builds: false },
                Scan { kind: WheelCacheKind::Url, builds: true },
                Scan { kind: WheelCacheKind::Path, builds: true },
                Scan { kind: WheelCacheKind::Git, builds: true },
            ],
            CacheBucket::Simple => seq![Scan { kind: WheelCacheKind::Url, builds: false }],
            _ => Seq::empty(),
        }
    }

    /// The namespaces of the bucket that have to be listed before a package is
    /// removed from it.
    pub fn removal_scan(self) -> (scans: Vec<Scan>)
        ensures
            scans@ == self.scans(),
    {
        let mut scans = Vec::new();
        match self {
            CacheBucket::Wheels => {
                scans.push(Scan { kind: WheelCacheKind::Index, builds: false });
                scans.push(Scan { kind: WheelCacheKind::Url, builds: false });
            },
            CacheBucket::BuiltWheels => {
                scans.push(Scan { kind: WheelCacheKind::Index, builds: false });
                scans.push(Scan { kind: WheelCacheKind::Url, builds: true });
                scans.push(Scan { kind: WheelCacheKind::Path, builds: true });
                scans.push(Scan { kind: WheelCacheKind::Git, builds: true });
            },
            CacheBucket::Simple => {
                scans.push(Scan { kind: WheelCacheKind::Url, builds: false });
            },
            _ => {},
        }
        scans
    }

    /// What leaves the bucket when `package` is removed from the cache at
    /// `root`, in the order of removal.
    ///
    /// In `Wheels` the directory of the package under `pypi` and under every
    /// index and every URL. In `BuiltWheels` the same under `pypi` and every
    /// index; under `url` and `path` every directory in which some build is
    /// of the package; under `git` every build directory that is of the
    /// package. In `Simple` the file of the package under `pypi` and under
    /// every index. `FlatIndex` cannot tell which packages a response holds,
    /// so the bucket leaves as a whole. The other buckets hold nothing that
    /// belongs to one package.
    pub open spec fn removal_targets(
        self,
        root: Seq<char>,
        package: Seq<char>,
        listing: CacheListing,
    ) -> Seq<Seq<char>> {
        let bucket = path_join(root, self.name());
        let pypi = path_join(bucket, WheelCacheKind::Pypi.name());
        match self {
            CacheBucket::Wheels => seq![path_join(pypi, package)] + under_each(
                listing.wheels.index@,
                package,
            ) + under_each(listing.wheels.url@, package),
            CacheBucket::BuiltWheels => seq![path_join(pypi, package)] + under_each(
                listing.built_wheels.index@,
                package,
            ) + sources_of(listing.built_wheels.url@, package) + sources_of(
                listing.built_wheels.path@,
                package,
            ) + revisions_of(listing.built_wheels.git@, package),
            CacheBucket::Simple => seq![path_join(pypi, package + ".rkyv"@)] + under_each(
                listing.simple.url@,
                package + ".rkyv"@,
            ),
            CacheBucket::FlatIndex => seq![bucket],
            _ => Seq::empty(),
        }
    }

    /// What is to be removed from the bucket so that `name` is gone from it,
    /// given what its namespaces hold.
    pub fn remove(self, cache: &Cache, name: &str, listing: &CacheListing) -> (targets: Vec<
        String,
    >)
        ensures
            texts(targets@) == self.removal_targets(cache@.root, name@, *listing),
    {
        let mut targets: Vec<String> = Vec::new();
        match self {
            CacheBucket::Wheels => {
                let root = path::join(cache.bucket(self).as_str(), WheelCacheKind::Pypi.to_str());
                let target = path::join(root.as_str(), name);
                targets.push(target);
                push_under_each(&listing.wheels.index, name, &mut targets);
                push_under_each(&listing.wheels.url, name, &mut targets);
            },
            CacheBucket::BuiltWheels => {
                let root = path::join(cache.bucket(self).as_str(), WheelCacheKind::Pypi.to_str());
                let target = path::join(root.as_str(), name);
                targets.push(target);
                push_under_each(&listing.built_wheels.index, name, &mut targets);
                push_sources_of(&listing.built_wheels.url, name, &mut targets);
                push_sources_of(&listing.built_wheels.path, name, &mut targets);
                push_revisions_of(&listing.built_wheels.git, name, &mut targets);
            },
            CacheBucket::Simple => {
                let file = String::from_str(name).concat(".rkyv");
                let root = path::join(cache.bucket(self).as_str(), WheelCacheKind::Pypi.to_str());
                let target = path::join(root.as_str(), file.as_str());
                targets.push(target);
                push_under_each(&listing.simple.url, file.as_str(), &mut targets);
            },
            CacheBucket::FlatIndex => {
                let target = cache.bucket(self);
                targets.push(target);
            },
            CacheBucket::Git => {},
            CacheBucket::Interpreter => {},
            CacheBucket::Archive => {},
        }
        targets
    }
}

/// Every bucket is one of the seven, and each of them is listed once.
pub proof fn lemma_all_buckets()
    ensures
        forall|bucket: CacheBucket| CacheBucket::all().contains(bucket),
        CacheBucket::all().no_duplicates(),
        CacheBucket::all().len() == 7,
{
    assert forall|bucket: CacheBucket| CacheBucket::all().contains(bucket) by {
        match bucket {
            CacheBucket::Wheels => assert(CacheBucket::all()[0] == bucket),
            CacheBucket::BuiltWheels => assert(CacheBucket::all()[1] == bucket),
            CacheBucket::FlatIndex => assert(CacheBucket::all()[2] == bucket),
            CacheBucket::Git => assert(CacheBucket::all()[3] == bucket),
            CacheBucket::Interpreter => assert(CacheBucket::all()[4] == bucket),
            CacheBucket::Simple => assert(CacheBucket::all()[5] == bucket),
            CacheBucket::Archive => assert(CacheBucket::all()[6] == bucket),
        }
    }
}

/// Whatever leaves `Wheels` for a package is the directory of that package in
/// one of the namespaces: under `pypi`, under a listed index, or under a listed
/// URL. Nothing else in a namespace is touched.
pub proof fn lemma_wheels_removed_by_name(
    root: Seq<char>,
    package: Seq<char>,
    listing: CacheListing,
    i: int,
)
    requires
        0 <= i < CacheBucket::Wheels.removal_targets(root, package, listing).len(),
    ensures
        CacheBucket::Wheels.removal_targets(root, package, listing).len() == 1
            + listing.wheels.index@.len() + listing.wheels.url@.len(),
        CacheBucket::Wheels.removal_targets(root, package, listing)[i] == path_join(
            if i == 0 {
                path_join(path_join(root, CacheBucket::Wheels.name()), WheelCacheKind::Pypi.name())
            } else if i <= listing.wheels.index@.len() {
                listing.wheels.index@[i - 1].path@
            } else {
                listing.wheels.url@[i - 1 - listing.wheels.index@.len()].path@
            },
            package,
        ),
{
}

/// No two buckets share a directory.
pub proof fn lemma_bucket_names_differ(left: CacheBucket, right: CacheBucket)
    requires
        left != right,
    ensures
        left.name() != right.name(),
{
    reveal_strlit("built-wheels-v2");
    reveal_strlit("flat-index-v0");
    reveal_strlit("git-v0");
    reveal_strlit("interpreter-v0");
    reveal_strlit("simple-v6");
    reveal_strlit("wheels-v0");
    reveal_strlit("archive-v0");
    if left.name().len() == right.name().len() {
        assert(left.name()[0] != right.name()[0]);
    }
}

} // verus!
