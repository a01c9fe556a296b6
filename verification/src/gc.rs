//! Garbage collection: what a prune takes from the cache.
//!
//! A prune sweeps twice. The first sweep takes from the root whatever is no
//! marker file and no directory of a bucket: what a bucket of an older layout
//! left behind, and loose files. The second sweep takes every directory of the
//! archive bucket that no symlink in any bucket resolves to: what was moved
//! into the archive and never linked, or is linked no more.

use crate::bucket::CacheBucket;
use crate::fx;
use crate::fx::held;
use crate::path;
use crate::path::path_join;
use crate::path::same;
use crate::path::texts;
use vstd::prelude::*;

verus! {

/// An entry right under the cache root.
#[derive(Debug, Clone)]
pub struct RootEntry {
    /// The file name of the entry.
    pub name: String,
    /// Whether the entry is a directory.
    pub is_dir: bool,
}

/// What a look at the cache found, for a prune to go by.
#[derive(Debug, Clone)]
pub struct CacheScan {
    /// The entries right under the root.
    pub root: Vec<RootEntry>,
    /// The canonical target of every symlink that was found in the directory
    /// tree of a bucket.
    pub references: Vec<String>,
    /// The canonical path of every entry right under the archive bucket.
    pub archives: Vec<String>,
}

/// Whether `name` is the name of a marker file: the tag that marks the
/// directory as a cache, the ignore file, or the marker that keeps version
/// control out.
pub open spec fn is_marker(name: Seq<char>) -> bool {
    name == "CACHEDIR.TAG"@ || name == ".gitignore"@ || name == ".git"@
}

/// Whether `name` is the name of a marker file.
pub fn is_marker_name(name: &str) -> (yes: bool)
    ensures
        yes == is_marker(name@),
{
    same(name, "CACHEDIR.TAG") || same(name, ".gitignore") || same(name, ".git")
}

impl RootEntry {
    /// Whether the entry has no place in the cache: it is no marker file, and
    /// it is a file, or a directory that is not the directory of a bucket.
    pub open spec fn dangling(self) -> bool {
        !is_marker(self.name@) && (!self.is_dir || !CacheBucket::is_name(self.name@))
    }

    /// Whether the entry has no place in the cache.
    pub fn is_dangling(&self) -> (yes: bool)
        ensures
            yes == self.dangling(),
    {
        if is_marker_name(self.name.as_str()) {
            false
        } else if self.is_dir {
            !CacheBucket::is_bucket_name(self.name.as_str())
        } else {
            true
        }
    }
}

/// The paths of the entries under `root` that have no place in the cache, in
/// the order in which they were listed.
pub open spec fn dangling_entries(root: Seq<char>, entries: Seq<RootEntry>) -> Seq<Seq<char>> {
    entries.filter(|entry: RootEntry| entry.dangling()).map_values(
        |entry: RootEntry| path_join(root, entry.name@),
    )
}

/// The archives that none of the references names, in the order in which they
/// were listed.
pub open spec fn unreferenced(references: Set<Seq<char>>, archives: Seq<Seq<char>>) -> Seq<
    Seq<char>,
> {
    archives.filter(|archive: Seq<char>| !references.contains(archive))
}

/// Everything that a prune takes: first what dangles under the root, then the
/// archives without a reference.
pub open spec fn prune_targets(root: Seq<char>, scan: CacheScan) -> Seq<Seq<char>> {
    dangling_entries(root, scan.root@) + unreferenced(
        texts(scan.references@).to_set(),
        texts(scan.archives@),
    )
}

proof fn lemma_dangling_step(root: Seq<char>, entries: Seq<RootEntry>, i: int)
    requires
        0 <= i < entries.len(),
    ensures
        dangling_entries(root, entries.take(i + 1)) == if entries[i].dangling() {
            dangling_entries(root, entries.take(i)).push(path_join(root, entries[i].name@))
        } else {
            dangling_entries(root, entries.take(i))
        },
{
    let pred = |entry: RootEntry| entry.dangling();
    assert(entries.take(i + 1) =~= entries.take(i).push(entries[i]));
    entries.take(i).lemma_filter_push(entries[i], pred);
}

proof fn lemma_unreferenced_step(references: Set<Seq<char>>, archives: Seq<Seq<char>>, i: int)
    requires
        0 <= i < archives.len(),
    ensures
        unreferenced(references, archives.take(i + 1)) == if references.contains(archives[i]) {
            unreferenced(references, archives.take(i))
        } else {
            unreferenced(references, archives.take(i)).push(archives[i])
        },
{
    let pred = |archive: Seq<char>| !references.contains(archive);
    assert(archives.take(i + 1) =~= archives.take(i).push(archives[i]));
    archives.take(i).lemma_filter_push(archives[i], pred);
}

/// The paths of the entries under `root` that the first sweep takes.
pub fn sweep_root(root: &str, entries: &Vec<RootEntry>) -> (targets: Vec<String>)
    ensures
        texts(targets@) == dangling_entries(root@, entries@),
{
    let mut targets: Vec<String> = Vec::new();
    let mut i: usize = 0;
    while i < entries.len()
        invariant
            i <= entries.len(),
            texts(targets@) == dangling_entries(root@, entries@.take(i as int)),
        decreases entries.len() - i,
    {
        proof {
            lemma_dangling_step(root@, entries@, i as int);
        }
        if entries[i].is_dangling() {
            let target = path::join(root, entries[i].name.as_str());
            targets.push(target);
        }
        i = i + 1;
    }
    assert(entries@.take(entries.len() as int) =~= entries@);
    targets
}

/// The archives that the second sweep takes: those that no reference names.
pub fn sweep_archives(references: &Vec<String>, archives: &Vec<String>) -> (targets: Vec<String>)
    ensures
        texts(targets@) == unreferenced(texts(references@).to_set(), texts(archives@)),
{
    let mut live = fx::no_paths();
    let mut i: usize = 0;
    while i < references.len()
        invariant
            i <= references.len(),
            held(live) == texts(references@).take(i as int).to_set(),
        decreases references.len() - i,
    {
        let reference = references[i].clone();
        proof {
            let seen = texts(references@).take(i as int);
            assert(texts(references@).take(i + 1) =~= seen.push(reference@));
            seen.lemma_push_to_set_commute(reference@);
        }
        fx::hold(&mut live, reference);
        i = i + 1;
    }
    assert(texts(references@).take(references.len() as int) =~= texts(references@));
    let ghost named = texts(references@).to_set();
    let mut targets: Vec<String> = Vec::new();
    let mut j: usize = 0;
    while j < archives.len()
        invariant
            j <= archives.len(),
            held(live) == named,
            texts(targets@) == unreferenced(named, texts(archives@).take(j as int)),
        decreases archives.len() - j,
    {
        proof {
            lemma_unreferenced_step(named, texts(archives@), j as int);
        }
        if !fx::holds(&live, archives[j].as_str()) {
            let target = archives[j].clone();
            targets.push(target);
        }
        j = j + 1;
    }
    assert(texts(archives@).take(archives.len() as int) =~= texts(archives@));
    targets
}

/// The second sweep takes an archive exactly when no reference names it: it
/// never takes one that a live symlink resolves to, and always one that none
/// does. And it takes nothing but archives.
pub proof fn lemma_sweep_takes_the_unreferenced(
    references: Set<Seq<char>>,
    archives: Seq<Seq<char>>,
    path: Seq<char>,
)
    ensures
        unreferenced(references, archives).contains(path) <==> archives.contains(path)
            && !references.contains(path),
{
    let pred = |archive: Seq<char>| !references.contains(archive);
    if unreferenced(references, archives).contains(path) {
        archives.lemma_filter_contains_rev(pred, path);
    }
}

/// A prune never takes a marker file, nor the directory of a bucket of the
/// current layout. The directory of a bucket under any other name, such as
/// that of an older layout, has no place in the cache.
pub proof fn lemma_current_layout_stays(entry: RootEntry, bucket: CacheBucket)
    ensures
        is_marker(entry.name@) ==> !entry.dangling(),
        entry.is_dir && entry.name@ == bucket.name() ==> !entry.dangling(),
        !is_marker(entry.name@) && !CacheBucket::is_name(entry.name@) ==> entry.dangling(),
{
}

/// Filtering what holds nothing that passes leaves nothing.
proof fn lemma_filter_none<A>(items: Seq<A>, pred: spec_fn(A) -> bool)
    requires
        forall|i: int| 0 <= i < items.len() ==> !pred(#[trigger] items[i]),
    ensures
        items.filter(pred) == Seq::<A>::empty(),
    decreases items.len(),
{
    reveal(Seq::filter);
    if items.len() > 0 {
        lemma_filter_none(items.drop_last(), pred);
    }
}

/// A prune is idempotent. Where a second look at the cache finds what the
/// first found less what the prune took, and every archive that was kept is
/// still the target of a symlink, a second prune takes nothing.
///
/// A kept archive loses its symlinks to the prune only where an archive that
/// was taken held the only one of them.
pub proof fn lemma_prune_idempotent(root: Seq<char>, first: CacheScan, second: CacheScan)
    requires
        second.root@ == first.root@.filter(|entry: RootEntry| !entry.dangling()),
        texts(second.archives@) == texts(first.archives@).filter(
            |archive: Seq<char>| texts(first.references@).to_set().contains(archive),
        ),
        forall|archive: Seq<char>|
            texts(first.archives@).contains(archive) && texts(first.references@).to_set().contains(
                archive,
            ) ==> #[trigger] texts(second.references@).to_set().contains(archive),
    ensures
        prune_targets(root, second) == Seq::<Seq<char>>::empty(),
{
    let kept = |entry: RootEntry| !entry.dangling();
    let dangles = |entry: RootEntry| entry.dangling();
    assert forall|i: int| 0 <= i < second.root@.len() implies !dangles(
        #[trigger] second.root@[i],
    ) by {
        first.root@.lemma_filter_pred(kept, i);
    }
    lemma_filter_none(second.root@, dangles);
    let linked = texts(first.references@).to_set();
    let named = texts(second.references@).to_set();
    let live = |archive: Seq<char>| linked.contains(archive);
    let dead = |archive: Seq<char>| !named.contains(archive);
    assert forall|i: int| 0 <= i < texts(second.archives@).len() implies !dead(
        #[trigger] texts(second.archives@)[i],
    ) by {
        let archive = texts(second.archives@)[i];
        texts(first.archives@).lemma_filter_pred(live, i);
        assert(texts(first.archives@).filter(live).contains(archive));
        texts(first.archives@).lemma_filter_contains_rev(live, archive);
    }
    lemma_filter_none(texts(second.archives@), dead);
}

} // verus!
