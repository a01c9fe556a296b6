//! What the steps of a plan mean: a file system, as far as the laws of the
//! cache read it, and what each step does to it.
//!
//! The cache never touches the file system itself. Its plans are carried out
//! by the caller, and the laws here say what the plans achieve where each step
//! does what this model says of it.

use crate::cache::initialization;
use crate::cache::CacheView;
use crate::plan::StepView;
use vstd::prelude::*;

verus! {

/// A file system: what the files and directories hold, and where the symlinks
/// point. What a directory holds counts as one value, which moves with the
/// directory.
pub struct Disk {
    pub holds: Map<Seq<char>, Seq<u8>>,
    pub links: Map<Seq<char>, Seq<char>>,
}

impl Disk {
    /// The disk with `contents` at `path`, unless something is there already.
    pub open spec fn created(self, path: Seq<char>, contents: Seq<u8>) -> Disk {
        if self.holds.contains_key(path) {
            self
        } else {
            Disk { holds: self.holds.insert(path, contents), ..self }
        }
    }

    /// The disk after a step that succeeded or was forgiven. The tag of the
    /// cache directory and the canonical form of a path are not modelled.
    pub open spec fn apply(self, step: StepView) -> Disk {
        match step {
            StepView::CreateDirAll { path } => self.created(path, Seq::empty()),
            StepView::EnsureTag { dir } => self,
            StepView::CreateNew { path, contents } => self.created(path, contents),
            StepView::Touch { path } => self.created(path, Seq::empty()),
            StepView::Canonicalize { path } => self,
            StepView::Rename { from, to } => Disk {
                holds: self.holds.remove(from).insert(to, self.holds[from]),
                ..self
            },
            StepView::ReplaceSymlink { target, link } => Disk {
                links: self.links.insert(link, target),
                ..self
            },
        }
    }

    /// The disk after the steps, carried out in their order.
    pub open spec fn run(self, steps: Seq<StepView>) -> Disk
        decreases steps.len(),
    {
        if steps.len() == 0 {
            self
        } else {
            self.run(steps.drop_last()).apply(steps.last())
        }
    }

    /// Where `path` leads: to the target of the symlink that it is, or to
    /// itself.
    pub open spec fn resolve(self, path: Seq<char>) -> Seq<char> {
        if self.links.contains_key(path) {
            self.links[path]
        } else {
            path
        }
    }

    /// What is read through `path`.
    pub open spec fn read(self, path: Seq<char>) -> Option<Seq<u8>> {
        if self.holds.contains_key(self.resolve(path)) {
            Some(self.holds[self.resolve(path)])
        } else {
            None
        }
    }
}

/// Publication is a round trip. After the steps, `path` resolves to the
/// archive that the publication names, and what is read through `path` is what
/// the temporary directory held.
pub proof fn lemma_publication_round_trip(
    cache: CacheView,
    disk: Disk,
    id: Seq<char>,
    temp_dir: Seq<char>,
    path: Seq<char>,
)
    requires
        disk.holds.contains_key(temp_dir),
    ensures
        disk.run(cache.publication(id, temp_dir, path)).resolve(path) == cache.archive(id),
        disk.run(cache.publication(id, temp_dir, path)).read(path) == Some(disk.holds[temp_dir]),
{
    reveal_with_fuel(Disk::run, 5);
}

/// Publication shows at one stroke. Up to the last step no symlink has
/// changed: whoever looks at `path` finds what was there before, and an end
/// of the steps at that point leaves an archive that nothing points to, never
/// half of an entry.
pub proof fn lemma_publication_shows_at_once(
    cache: CacheView,
    disk: Disk,
    id: Seq<char>,
    temp_dir: Seq<char>,
    path: Seq<char>,
    done: int,
)
    requires
        0 <= done < 4,
    ensures
        disk.run(cache.publication(id, temp_dir, path).take(done)).links == disk.links,
{
    reveal_with_fuel(Disk::run, 5);
}

/// Initialization is idempotent: on a directory that was initialized the
/// steps change nothing.
pub proof fn lemma_initialization_idempotent(disk: Disk, root: Seq<char>)
    ensures
        disk.run(initialization(root)).run(initialization(root)) == disk.run(
            initialization(root),
        ),
{
    let steps = initialization(root);
    reveal_with_fuel(Disk::run, 8);
    assert(steps.take(1).drop_last() =~= steps.take(0));
}

} // verus!
