//! The hash collections of `rustc_hash`, behind contracts: counters by package
//! name in an `FxHashMap`, and paths in an `FxHashSet`.

use rustc_hash::FxHashMap;
use rustc_hash::FxHashSet;
use rustc_hash::FxHasher;
use std::hash::BuildHasherDefault;
use vstd::prelude::*;

verus! {

/// `rustc_hash::FxHasher`, the hasher of the two collections.
#[verifier::external_type_specification]
#[verifier::external_body]
pub struct ExFxHasher(FxHasher);

/// `std::hash::BuildHasherDefault`, which makes their hashers.
#[verifier::external_type_specification]
#[verifier::external_body]
#[verifier::reject_recursive_types(H)]
pub struct ExBuildHasherDefault<H>(BuildHasherDefault<H>);

/// Counts by package name.
pub type Tally = FxHashMap<String, usize>;

/// What a tally holds: the count stored under each package name that has one.
pub uninterp spec fn counts(tally: Tally) -> Map<Seq<char>, usize>;

/// The count of `package`, which is zero where none is stored.
pub open spec fn count(tally: Tally, package: Seq<char>) -> nat {
    if counts(tally).contains_key(package) {
        counts(tally)[package] as nat
    } else {
        0
    }
}

/// Calls `FxHashMap::default`. Taken on trust: the new map holds no count.
#[verifier::external_body]
pub(crate) fn empty() -> (tally: Tally)
    ensures
        forall|package: Seq<char>| !counts(tally).contains_key(package),
{
    FxHashMap::default()
}

/// Calls `HashMap::get`. Taken on trust: the answer is the count stored under
/// a key of the same characters as `package`, if there is one.
#[verifier::external_body]
pub(crate) fn get(tally: &Tally, package: &str) -> (stored: Option<usize>)
    ensures
        stored == if counts(*tally).contains_key(package@) {
            Some(counts(*tally)[package@])
        } else {
            None
        },
{
    tally.get(package).copied()
}

/// Calls `HashMap::insert`. Taken on trust: `value` is stored under
/// `package`, in place of what was stored there, and every other entry stays
/// as it was.
#[verifier::external_body]
pub(crate) fn insert(tally: &mut Tally, package: String, value: usize)
    ensures
        counts(*final(tally)) == counts(*old(tally)).insert(package@, value),
{
    tally.insert(package, value);
}

/// The count of `package`, zero where none is stored.
pub fn get_or_zero(tally: &Tally, package: &str) -> (n: usize)
    ensures
        n == count(*tally, package@),
{
    match get(tally, package) {
        Some(n) => n,
        None => 0,
    }
}

/// Paths, each held once.
pub type PathSet = FxHashSet<String>;

/// What a set of paths holds.
pub uninterp spec fn held(paths: PathSet) -> Set<Seq<char>>;

/// Calls `FxHashSet::default`. Taken on trust: the new set holds no path.
#[verifier::external_body]
pub(crate) fn no_paths() -> (paths: PathSet)
    ensures
        held(paths) == Set::<Seq<char>>::empty(),
{
    FxHashSet::default()
}

/// Calls `HashSet::insert`. Taken on trust: the set holds `path` from then
/// on, and what it held before.
#[verifier::external_body]
pub(crate) fn hold(paths: &mut PathSet, path: String)
    ensures
        held(*final(paths)) == held(*old(paths)).insert(path@),
{
    paths.insert(path);
}

/// Calls `HashSet::contains`. Taken on trust: the answer is whether the set
/// holds a path of the same characters as `path`.
#[verifier::external_body]
pub(crate) fn holds(paths: &PathSet, path: &str) -> (found: bool)
    ensures
        found == held(*paths).contains(path@),
{
    paths.contains(path)
}

} // verus!
