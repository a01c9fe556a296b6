//! Sets of versions, kept as `pubgrub` ranges over version ranks.
//!
//! A version is named by its rank: its position in the package's version map,
//! which is sorted from the lowest version to the highest. Ranks compare as the
//! versions they stand for do.
//!
//! A caller describes a set of ranks by intervals. Every range is built here,
//! from such intervals or from other ranges built here, so that each one keeps
//! the order of segments that `pubgrub` relies on.

use pubgrub::Range;
use std::ops::Bound;
use vstd::prelude::*;

verus! {

/// `pubgrub::Range`, which is `version_ranges::Ranges`: a set of versions, kept
/// as a sorted list of intervals.
#[verifier::external_type_specification]
#[verifier::external_body]
#[verifier::reject_recursive_types(V)]
pub struct ExRanges<V>(Range<V>);

/// The ranks that a range holds: those for which `Ranges::contains` answers
/// `true`.
pub uninterp spec fn members(range: Range<u64>) -> Set<u64>;

/// Whether a range keeps the invariants that `version_ranges` states for
/// `Ranges`: its segments are sorted, each of them is valid, and there is a gap
/// between any two of them.
pub uninterp spec fn sound(range: Range<u64>) -> bool;

/// One end of an interval of ranks.
#[derive(Clone, Copy, Debug, PartialEq, Eq, Structural)]
pub enum Limit {
    /// The interval reaches up to the rank, and holds it.
    Included(u64),
    /// The interval reaches up to the rank, and does not hold it.
    Excluded(u64),
    /// The interval has no end on this side.
    Unbounded,
}

/// An interval of ranks.
#[derive(Clone, Copy, Debug, PartialEq, Eq, Structural)]
pub struct Interval {
    pub start: Limit,
    pub end: Limit,
}

impl Interval {
    /// Whether the interval holds the rank.
    pub open spec fn holds(self, version: u64) -> bool {
        &&& match self.start {
            Limit::Included(start) => start <= version,
            Limit::Excluded(start) => start < version,
            Limit::Unbounded => true,
        }
        &&& match self.end {
            Limit::Included(end) => version <= end,
            Limit::Excluded(end) => version < end,
            Limit::Unbounded => true,
        }
    }
}

/// The ranks that one of the intervals holds.
pub open spec fn spanned(intervals: Seq<Interval>) -> Set<u64> {
    Set::new(
        |version: u64|
            exists|i: int| 0 <= i < intervals.len() && (#[trigger] intervals[i]).holds(version),
    )
}

/// Calls `Ranges::empty`. Taken on trust: the range holds nothing and is
/// sound.
#[verifier::external_body]
pub(crate) fn empty() -> (range: Range<u64>)
    ensures
        sound(range),
        members(range) == Set::<u64>::empty(),
{
    Range::empty()
}

/// Calls `Ranges::from_range_bounds`, which tests the two ends and gives the
/// empty range where they enclose nothing. Taken on trust: the range is sound
/// and holds exactly what the interval holds.
#[verifier::external_body]
pub(crate) fn segment(interval: &Interval) -> (range: Range<u64>)
    ensures
        sound(range),
        members(range) == Set::new(|version: u64| interval.holds(version)),
{
    let start = match interval.start {
        Limit::Included(rank) => Bound::Included(rank),
        Limit::Excluded(rank) => Bound::Excluded(rank),
        Limit::Unbounded => Bound::Unbounded,
    };
    let end = match interval.end {
        Limit::Included(rank) => Bound::Included(rank),
        Limit::Excluded(rank) => Bound::Excluded(rank),
        Limit::Unbounded => Bound::Unbounded,
    };
    Range::from_range_bounds((start, end))
}

/// Calls `Ranges::union`. Taken on trust: of two sound ranges it makes a sound
/// range that holds exactly what either of them holds.
#[verifier::external_body]
pub(crate) fn union(left: &Range<u64>, right: &Range<u64>) -> (either: Range<u64>)
    requires
        sound(*left),
        sound(*right),
    ensures
        sound(either),
        members(either) == members(*left).union(members(*right)),
{
    left.union(right)
}

/// Calls `Ranges::clone`. Taken on trust: the copy holds the same ranks, and
/// is sound where the range is.
#[verifier::external_body]
pub(crate) fn duplicate(range: &Range<u64>) -> (copy: Range<u64>)
    ensures
        members(copy) == members(*range),
        sound(copy) == sound(*range),
{
    range.clone()
}

/// Calls `Ranges::singleton`. Taken on trust: the range is sound and holds
/// `version` and nothing else.
#[verifier::external_body]
pub(crate) fn singleton(version: u64) -> (range: Range<u64>)
    ensures
        sound(range),
        members(range) == set![version],
{
    Range::singleton(version)
}

/// Calls `Ranges::complement`. Taken on trust: of a sound range it makes a
/// sound range that holds exactly what the range does not hold.
#[verifier::external_body]
pub(crate) fn complement(range: &Range<u64>) -> (rest: Range<u64>)
    requires
        sound(*range),
    ensures
        sound(rest),
        members(rest) == members(*range).complement(),
{
    range.complement()
}

/// Calls `Ranges::intersection`. Taken on trust: of two sound ranges it makes
/// a sound range that holds exactly what both of them hold.
#[verifier::external_body]
pub(crate) fn intersection(left: &Range<u64>, right: &Range<u64>) -> (both: Range<u64>)
    requires
        sound(*left),
        sound(*right),
    ensures
        sound(both),
        members(both) == members(*left).intersect(members(*right)),
{
    left.intersection(right)
}

/// Calls `Ranges::strictly_lower_than`. Taken on trust: the range is sound and
/// holds exactly the ranks below `version`.
#[verifier::external_body]
pub(crate) fn strictly_lower_than(version: u64) -> (range: Range<u64>)
    ensures
        sound(range),
        members(range) == Set::new(|v: u64| v < version),
{
    Range::strictly_lower_than(version)
}

/// Calls `Ranges::strictly_higher_than`. Taken on trust: the range is sound
/// and holds exactly the ranks above `version`.
#[verifier::external_body]
pub(crate) fn strictly_higher_than(version: u64) -> (range: Range<u64>)
    ensures
        sound(range),
        members(range) == Set::new(|v: u64| v > version),
{
    Range::strictly_higher_than(version)
}

/// The range of the ranks that one of the intervals holds. An interval whose
/// ends enclose nothing adds nothing.
pub fn from_intervals(intervals: &Vec<Interval>) -> (range: Range<u64>)
    ensures
        sound(range),
        members(range) == spanned(intervals@),
{
    let mut range = empty();
    let mut i: usize = 0;
    assert(members(range) =~= spanned(intervals@.take(0)));
    while i < intervals.len()
        invariant
            i <= intervals.len(),
            sound(range),
            members(range) == spanned(intervals@.take(i as int)),
        decreases intervals.len() - i,
    {
        let part = segment(&intervals[i]);
        let ghost before = members(range);
        range = union(&range, &part);
        proof {
            let now = intervals@.take(i + 1);
            let then = intervals@.take(i as int);
            assert forall|version: u64|
                spanned(now).contains(version) == (before.contains(version)
                    || intervals@[i as int].holds(version)) by {
                if spanned(now).contains(version) {
                    let k = choose|k: int| 0 <= k < now.len() && (#[trigger] now[k]).holds(version);
                    if k < i {
                        assert(then[k].holds(version));
                    }
                }
                if before.contains(version) {
                    let k = choose|k: int|
                        0 <= k < then.len() && (#[trigger] then[k]).holds(version);
                    assert(now[k].holds(version));
                }
                if intervals@[i as int].holds(version) {
                    assert(now[i as int].holds(version));
                }
            }
            assert(members(range) =~= spanned(now));
        }
        i = i + 1;
    }
    assert(intervals@.take(intervals.len() as int) =~= intervals@);
    range
}

/// `range` without `version`: the range met with the complement of the
/// singleton.
pub(crate) fn without(range: &Range<u64>, version: u64) -> (rest: Range<u64>)
    requires
        sound(*range),
    ensures
        sound(rest),
        members(rest) == members(*range).remove(version),
{
    let only = singleton(version);
    let others = complement(&only);
    intersection(range, &others)
}

} // verus!
