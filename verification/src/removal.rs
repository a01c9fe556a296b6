//! The summary of what a removal took.

use vstd::prelude::*;

verus! {

/// What was removed: how many files, how many directories, and how many
/// bytes they held.
#[derive(Debug, Clone, Copy, PartialEq, Eq, Structural)]
pub struct Removal {
    pub num_files: u64,
    pub num_dirs: u64,
    pub total_bytes: u64,
}

/// A summary in unbounded numbers.
pub struct Counts {
    pub files: nat,
    pub dirs: nat,
    pub bytes: nat,
}

impl Counts {
    /// Two summaries taken together.
    pub open spec fn plus(self, other: Counts) -> Counts {
        Counts {
            files: self.files + other.files,
            dirs: self.dirs + other.dirs,
            bytes: self.bytes + other.bytes,
        }
    }

    /// Whether a summary of this size can be held.
    pub open spec fn fits(self) -> bool {
        self.files <= u64::MAX && self.dirs <= u64::MAX && self.bytes <= u64::MAX
    }

    /// The summary of a removal that took nothing.
    pub open spec fn zero() -> Counts {
        Counts { files: 0, dirs: 0, bytes: 0 }
    }
}

impl View for Removal {
    type V = Counts;

    open spec fn view(&self) -> Counts {
        Counts {
            files: self.num_files as nat,
            dirs: self.num_dirs as nat,
            bytes: self.total_bytes as nat,
        }
    }
}

impl Removal {
    /// Whether no file and no directory was removed.
    pub fn is_empty(&self) -> (yes: bool)
        ensures
            yes == (self@.files == 0 && self@.dirs == 0),
    {
        self.num_files == 0 && self.num_dirs == 0
    }
}

impl Removal {
    /// Whether the sum of this summary and `other` can be held.
    pub fn fits_with(&self, other: &Removal) -> (yes: bool)
        ensures
            yes == self@.plus(other@).fits(),
    {
        self.num_files <= u64::MAX - other.num_files && self.num_dirs <= u64::MAX - other.num_dirs
            && self.total_bytes <= u64::MAX - other.total_bytes
    }
}

impl Default for Removal {
    fn default() -> (removal: Removal)
        ensures
            removal@ == Counts::zero(),
    {
        Removal { num_files: 0, num_dirs: 0, total_bytes: 0 }
    }
}

impl std::ops::AddAssign for Removal {
    /// Adds what another removal took.
    fn add_assign(&mut self, other: Removal)
        requires
            old(self)@.plus(other@).fits(),
        ensures
            final(self)@ == old(self)@.plus(other@),
    {
        self.num_files = self.num_files + other.num_files;
        self.num_dirs = self.num_dirs + other.num_dirs;
        self.total_bytes = self.total_bytes + other.total_bytes;
    }
}

/// The order in which removals are summed up does not matter, and a removal
/// that took nothing adds nothing.
pub proof fn lemma_removal_additive(a: Counts, b: Counts, c: Counts)
    ensures
        a.plus(b) == b.plus(a),
        a.plus(b).plus(c) == a.plus(b.plus(c)),
        a.plus(Counts::zero()) == a,
{
}

} // verus!
