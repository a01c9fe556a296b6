//! The cache: a root directory, a refresh policy, and the plans for what is
//! done to the directory.

use crate::bucket::CacheBucket;
use crate::bucket::CacheListing;
use crate::entry::CacheEntry;
use crate::entry::CacheShard;
use crate::gc::prune_targets;
use crate::gc::sweep_archives;
use crate::gc::sweep_root;
use crate::gc::CacheScan;
use crate::io::IoError;
use crate::path;
use crate::path::lemma_texts_push;
use crate::path::path_join;
use crate::path::path_parent;
use crate::path::texts;
use crate::plan::views;
use crate::plan::Step;
use crate::plan::StepView;
use crate::refresh::Freshness;
use crate::refresh::Refresh;
use crate::timestamp::Timestamp;
use vstd::prelude::*;

verus! {

/// The cache of one run.
#[derive(Debug, Clone)]
pub struct Cache {
    /// The cache directory, in canonical form.
    root: String,
    /// The refresh policy to go by when reading from the cache.
    refresh: Refresh,
    /// Whether the directory was made for this run alone, to be deleted when
    /// the run ends. Whoever holds the cache holds the directory.
    temporary: bool,
}

/// A cache, as its contracts see it.
pub struct CacheView {
    pub root: Seq<char>,
    pub refresh: Refresh,
    pub temporary: bool,
}

impl View for Cache {
    type V = CacheView;

    closed spec fn view(&self) -> CacheView {
        CacheView { root: self.root@, refresh: self.refresh, temporary: self.temporary }
    }
}

/// Whether `c` is a character of an archive's name: a letter or a digit of
/// ASCII, `_` or `-`.
pub open spec fn is_id_char(c: char) -> bool {
    ('a' <= c && c <= 'z') || ('A' <= c && c <= 'Z') || ('0' <= c && c <= '9') || c == '_' || c
        == '-'
}

/// Whether `id` can be the name of an archive: 21 characters that are safe in
/// a URL.
pub open spec fn is_archive_id(id: Seq<char>) -> bool {
    id.len() == 21 && forall|i: int| 0 <= i < id.len() ==> is_id_char(#[trigger] id[i])
}

/// Calls `nanoid::format` as `nanoid!()` does: with the generator
/// `rngs::default`, the alphabet `alphabet::SAFE` and the length 21. The
/// outcome is random. Taken on trust: each one has 21 characters, all of that
/// alphabet.
#[verifier::external_body]
fn fresh_id() -> (id: String)
    ensures
        is_archive_id(id@),
{
    nanoid::format(nanoid::rngs::default, &nanoid::alphabet::SAFE, 21)
}

/// The steps that publish a directory, and where the directory ends up.
#[derive(Debug, Clone)]
pub struct Publication {
    /// The path of the directory in the archive bucket.
    pub archive: String,
    pub steps: Vec<Step>,
}

impl CacheView {
    /// The directory of a bucket.
    pub open spec fn bucket(self, bucket: CacheBucket) -> Seq<char> {
        path_join(self.root, bucket.name())
    }

    /// The directories of the given buckets.
    pub open spec fn buckets(self, buckets: Seq<CacheBucket>) -> Seq<Seq<char>> {
        buckets.map_values(|bucket: CacheBucket| self.bucket(bucket))
    }

    /// The path in the archive bucket of the archive named `id`.
    pub open spec fn archive(self, id: Seq<char>) -> Seq<char> {
        path_join(path_join(self.bucket(CacheBucket::Archive), ""@), id)
    }

    /// Whether a directory can be published at `path` as the archive `id`:
    /// both paths have a directory above them.
    pub open spec fn can_publish(self, id: Seq<char>, path: Seq<char>) -> bool {
        path_parent(self.archive(id)) is Some && path_parent(path) is Some
    }

    /// The steps that publish `temp_dir` at `path` as the archive `id`: the
    /// directory is moved into the archive bucket, and only then a symlink at
    /// `path` is pointed at it. What is seen at `path` is the old entry or
    /// the whole new one. Where the steps end between the two, an archive is
    /// left that nothing points to, for the garbage collector to take.
    pub open spec fn publication(self, id: Seq<char>, temp_dir: Seq<char>, path: Seq<char>) -> Seq<
        StepView,
    > {
        seq![
            StepView::CreateDirAll { path: path_parent(self.archive(id)).unwrap() },
            StepView::Rename { from: temp_dir, to: self.archive(id) },
            StepView::CreateDirAll { path: path_parent(path).unwrap() },
            StepView::ReplaceSymlink { target: self.archive(id), link: path },
        ]
    }

    /// What leaves the given buckets when `package` is removed, bucket by
    /// bucket.
    pub open spec fn removal_targets(
        self,
        buckets: Seq<CacheBucket>,
        package: Seq<char>,
        listing: CacheListing,
    ) -> Seq<Seq<char>>
        decreases buckets.len(),
    {
        if buckets.len() == 0 {
            Seq::empty()
        } else {
            self.removal_targets(buckets.drop_last(), package, listing)
                + buckets.last().removal_targets(self.root, package, listing)
        }
    }
}

/// The steps that make the directory `root` a cache. The directory is
/// created with its ancestors and tagged as a cache. It gets an ignore file
/// that ignores everything. The bucket of built wheels is created with an
/// empty ignore file of its own and, after that one, an empty marker of
/// version control, so that a build backend that looks upwards for either
/// stops there and takes what is built in the cache for no part of a
/// repository. At last the root is resolved to its canonical form, which is
/// the root of the cache from then on.
///
/// Every step leaves alone what is there already, so that the steps can be
/// run again, and by several processes at once.
pub open spec fn initialization(root: Seq<char>) -> Seq<StepView> {
    let built_wheels = path_join(root, CacheBucket::BuiltWheels.name());
    seq![
        StepView::CreateDirAll { path: root },
        StepView::EnsureTag { dir: root },
        StepView::CreateNew { path: path_join(root, ".gitignore"@), contents: seq![0x2au8] },
        StepView::CreateDirAll { path: built_wheels },
        StepView::CreateNew { path: path_join(built_wheels, ".gitignore"@), contents: Seq::empty() },
        StepView::Touch { path: path_join(built_wheels, ".git"@) },
        StepView::Canonicalize { path: root },
    ]
}

/// What to do to learn the freshness of an entry.
#[derive(Debug, Clone)]
pub enum FreshnessCheck {
    /// The policy settles it; nothing on disk is looked at.
    Settled(Freshness),
    /// Look at `path` and hold what is found to the cutoff, with
    /// [`Freshness::from_stat`].
    Stat { path: String, cutoff: Timestamp },
}

impl CacheView {
    /// Whether the freshness of `entry` for `package` is found in this way
    /// under the refresh policy.
    pub open spec fn checks(
        self,
        entry: Seq<char>,
        package: Option<Seq<char>>,
        check: FreshnessCheck,
    ) -> bool {
        match self.refresh.cutoff(package) {
            None => check == FreshnessCheck::Settled(Freshness::Fresh),
            Some(held_to) => check matches FreshnessCheck::Stat { path, cutoff } && path@ == entry
                && cutoff == held_to,
        }
    }
}

impl Cache {
    /// A persistent cache at `root`, which is the canonical path that the
    /// initialization of the directory ended with.
    pub fn from_path(root: String) -> (cache: Cache)
        ensures
            cache@.root == root@,
            cache@.refresh is Never,
            !cache@.temporary,
    {
        Cache { root, refresh: Refresh::Never, temporary: false }
    }

    /// A cache in a temporary directory, of which `root` is the canonical
    /// path.
    pub fn temp(root: String) -> (cache: Cache)
        ensures
            cache@.root == root@,
            cache@.refresh is Never,
            cache@.temporary,
    {
        Cache { root, refresh: Refresh::Never, temporary: true }
    }

    /// The same cache under the policy `refresh`.
    pub fn with_refresh(self, refresh: Refresh) -> (cache: Cache)
        ensures
            cache@ == (CacheView { refresh, ..self@ }),
    {
        Cache { root: self.root, refresh, temporary: self.temporary }
    }

    /// The root of the cache.
    pub fn root(&self) -> (root: &str)
        ensures
            root@ == self@.root,
    {
        self.root.as_str()
    }

    /// The refresh policy.
    pub fn refresh(&self) -> (refresh: &Refresh)
        ensures
            *refresh == self@.refresh,
    {
        &self.refresh
    }

    /// Whether the directory is to be deleted when the run ends.
    pub fn is_temporary(&self) -> (yes: bool)
        ensures
            yes == self@.temporary,
    {
        self.temporary
    }

    /// The directory of a bucket.
    pub fn bucket(&self, cache_bucket: CacheBucket) -> (dir: String)
        ensures
            dir@ == self@.bucket(cache_bucket),
    {
        path::join(self.root.as_str(), cache_bucket.to_str())
    }

    /// The shard `dir` of a bucket.
    pub fn shard(&self, cache_bucket: CacheBucket, dir: &str) -> (shard: CacheShard)
        ensures
            shard@ == path_join(self@.bucket(cache_bucket), dir@),
    {
        CacheShard::from_path(path::join(self.bucket(cache_bucket).as_str(), dir))
    }

    /// The entry `file` in the shard `dir` of a bucket.
    pub fn entry(&self, cache_bucket: CacheBucket, dir: &str, file: &str) -> (entry: CacheEntry)
        ensures
            entry@ == path_join(path_join(self@.bucket(cache_bucket), dir@), file@),
    {
        let shard = path::join(self.bucket(cache_bucket).as_str(), dir);
        CacheEntry::new(shard.as_str(), file)
    }

    /// The directories of all buckets, in the order of [`CacheBucket::iter`]:
    /// the trees that a prune walks for symlinks.
    pub fn buckets(&self) -> (dirs: Vec<String>)
        ensures
            texts(dirs@) == self@.buckets(CacheBucket::all()),
    {
        let buckets = CacheBucket::iter();
        let mut dirs: Vec<String> = Vec::new();
        let mut i: usize = 0;
        while i < buckets.len()
            invariant
                i <= buckets.len(),
                texts(dirs@) == self@.buckets(buckets@.take(i as int)),
            decreases buckets.len() - i,
        {
            let dir = self.bucket(buckets[i]);
            proof {
                lemma_texts_push(dirs@, dir);
            }
            dirs.push(dir);
            i = i + 1;
        }
        dirs
    }

    /// The steps that make the directory `root` a cache.
    pub fn init(root: &str) -> (steps: Vec<Step>)
        ensures
            views(steps@) == initialization(root@),
    {
        let built_wheels = path::join(root, CacheBucket::BuiltWheels.to_str());
        let mut ignore_all: Vec<u8> = Vec::new();
        ignore_all.push(0x2a);
        let mut steps: Vec<Step> = Vec::new();
        steps.push(Step::CreateDirAll { path: root.to_owned() });
        steps.push(Step::EnsureTag { dir: root.to_owned() });
        steps.push(Step::CreateNew { path: path::join(root, ".gitignore"), contents: ignore_all });
        steps.push(Step::CreateDirAll { path: built_wheels.clone() });
        steps.push(
            Step::CreateNew {
                path: path::join(built_wheels.as_str(), ".gitignore"),
                contents: Vec::new(),
            },
        );
        steps.push(Step::Touch { path: path::join(built_wheels.as_str(), ".git") });
        steps.push(Step::Canonicalize { path: root.to_owned() });
        steps
    }

    /// The steps that publish the directory `temp_dir` at `path` as the
    /// archive `id`.
    pub fn persist_as(&self, id: &str, temp_dir: &str, path: &str) -> (published: Publication)
        requires
            self@.can_publish(id@, path@),
        ensures
            published.archive@ == self@.archive(id@),
            views(published.steps@) == self@.publication(id@, temp_dir@, path@),
    {
        let archive_entry = self.entry(CacheBucket::Archive, "", id);
        let mut steps: Vec<Step> = Vec::new();
        steps.push(Step::CreateDirAll { path: archive_entry.dir() });
        steps.push(Step::Rename { from: temp_dir.to_owned(), to: archive_entry.path().to_owned() });
        steps.push(Step::CreateDirAll { path: CacheEntry::from_path(path.to_owned()).dir() });
        steps.push(
            Step::ReplaceSymlink {
                target: archive_entry.path().to_owned(),
                link: path.to_owned(),
            },
        );
        Publication { archive: archive_entry.into_path_buf(), steps }
    }

    /// The steps that publish the directory `temp_dir` at `path`, under a
    /// fresh random name in the archive bucket; `None` where one of the two
    /// paths has no directory above it.
    pub fn persist(&self, temp_dir: &str, path: &str) -> (published: Option<Publication>)
        ensures
            exists|id: Seq<char>|
                #![trigger is_archive_id(id)]
                is_archive_id(id) && match published {
                    Some(publication) => {
                        &&& self@.can_publish(id, path@)
                        &&& publication.archive@ == self@.archive(id)
                        &&& views(publication.steps@) == self@.publication(id, temp_dir@, path@)
                    },
                    None => !self@.can_publish(id, path@),
                },
    {
        let id = fresh_id();
        let archive_entry = self.entry(CacheBucket::Archive, "", id.as_str());
        let above_archive = archive_entry.parent();
        let above_path = path::parent(path);
        if above_archive.is_some() && above_path.is_some() {
            let published = self.persist_as(id.as_str(), temp_dir, path);
            Some(published)
        } else {
            None
        }
    }

    /// What a full clear removes: the root, with all that is in it.
    pub fn clear(&self) -> (target: String)
        ensures
            target@ == self@.root,
    {
        self.root.clone()
    }

    /// What is to be removed so that the package `name` is gone from the
    /// cache, bucket by bucket, given what the namespaces of the buckets
    /// hold.
    pub fn remove(&self, name: &str, listing: &CacheListing) -> (targets: Vec<String>)
        ensures
            texts(targets@) == self@.removal_targets(CacheBucket::all(), name@, *listing),
    {
        let buckets = CacheBucket::iter();
        let mut targets: Vec<String> = Vec::new();
        let mut i: usize = 0;
        while i < buckets.len()
            invariant
                i <= buckets.len(),
                texts(targets@) == self@.removal_targets(buckets@.take(i as int), name@, *listing),
            decreases buckets.len() - i,
        {
            let mut part = buckets[i].remove(self, name, listing);
            proof {
                assert(buckets@.take(i + 1).drop_last() =~= buckets@.take(i as int));
            }
            targets.append(&mut part);
            i = i + 1;
        }
        assert(buckets@.take(buckets.len() as int) =~= buckets@);
        targets
    }

    /// What the garbage collector takes, given what a look at the cache
    /// found: first what dangles under the root, then the archives that no
    /// symlink resolves to.
    pub fn prune(&self, scan: &CacheScan) -> (targets: Vec<String>)
        ensures
            texts(targets@) == prune_targets(self@.root, *scan),
    {
        let mut targets = sweep_root(self.root.as_str(), &scan.root);
        let mut archives = sweep_archives(&scan.references, &scan.archives);
        targets.append(&mut archives);
        targets
    }

    /// Whether answers from the network that were cached for `package` must
    /// be revalidated under the refresh policy.
    pub fn must_revalidate(&self, package: &str) -> (yes: bool)
        ensures
            yes == self@.refresh.revalidates(package@),
    {
        self.refresh.must_revalidate(package)
    }

    /// How to learn whether `entry`, an entry of `package`, is up to date
    /// under the refresh policy. Under a policy that refreshes nothing, and for
    /// a package that a policy by packages does not name, the entry is fresh
    /// and nothing on disk is looked at. Otherwise, and always where the
    /// package is not known, the entry is held to the cutoff of the policy.
    pub fn freshness(&self, entry: &CacheEntry, package: Option<&str>) -> (check: FreshnessCheck)
        ensures
            self@.checks(
                entry@,
                match package {
                    Some(name) => Some(name@),
                    None => None,
                },
                check,
            ),
            self@.refresh is Never ==> check == FreshnessCheck::Settled(Freshness::Fresh),
    {
        match self.refresh.cutoff_for(package) {
            None => FreshnessCheck::Settled(Freshness::Fresh),
            Some(cutoff) => FreshnessCheck::Stat { path: entry.path().to_owned(), cutoff },
        }
    }
}

/// Under a policy that refreshes nothing every entry is fresh, whatever is on
/// disk, and nothing on disk is looked at to learn it.
pub proof fn lemma_fresh_without_refresh(
    cache: CacheView,
    entry: Seq<char>,
    package: Option<Seq<char>>,
    check: FreshnessCheck,
)
    requires
        cache.refresh is Never,
        cache.checks(entry, package, check),
    ensures
        check == FreshnessCheck::Settled(Freshness::Fresh),
{
}

/// An entry that is held to a cutoff and is not on disk is missing: that the
/// look at it found nothing is no failure.
pub proof fn lemma_missing_is_no_failure(
    cache: CacheView,
    entry: Seq<char>,
    package: Option<Seq<char>>,
    check: FreshnessCheck,
    error: IoError,
)
    requires
        cache.refresh.cutoff(package) is Some,
        cache.checks(entry, package, check),
        error.kind is NotFound,
    ensures
        check matches FreshnessCheck::Stat { cutoff, .. } && Freshness::judged(cutoff, Err(error))
            == Ok::<Freshness, IoError>(Freshness::Missing),
{
}

/// A policy by packages leaves the entries of every other package fresh
/// without a look at the disk, and holds the entries of its own packages, and
/// those of no known package, to its cutoff.
pub proof fn lemma_refresh_by_package(
    packages: Vec<String>,
    cutoff: Timestamp,
    package: Option<Seq<char>>,
)
    ensures
        Refresh::Packages(packages, cutoff).cutoff(package) == if package matches Some(name)
            && !texts(packages@).contains(name) {
            None
        } else {
            Some(cutoff)
        },
{
}

} // verus!
