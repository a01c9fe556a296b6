//! Speculative batch prefetch.
//!
//! While the solver tries version after version of a package, the prefetcher
//! counts the trials and, at fixed counts, opens a batch: a bounded run of
//! selections, first inside the range that the solver holds compatible, then in
//! plain version order. The caller runs the batch. It asks the candidate
//! selector for the best candidate of the range in [`Batch::query`], hands the
//! answer to [`Batch::advance`], and registers and requests what comes back.
//!
//! The count at which a batch was found due is recorded as it is found, so
//! that each of the counts 5, 10 and 20, and each twentieth after them, opens
//! one batch and no more.

use crate::fx;
use crate::fx::Tally;
use crate::ranges::duplicate;
use crate::ranges::from_intervals;
use crate::ranges::members;
use crate::ranges::sound;
use crate::ranges::spanned;
use crate::ranges::strictly_higher_than;
use crate::ranges::strictly_lower_than;
use crate::ranges::without;
use crate::ranges::Interval;
use pubgrub::Range;
use vstd::prelude::*;
use vstd::string::StringExecFns;

verus! {

/// The most selections that one batch makes.
pub const MAX_BATCH: usize = 50;

/// Whether a batch is due at `tried` trials, the last batch having been
/// recorded at `last`.
pub open spec fn due(tried: int, last: int) -> bool {
    ||| tried >= 5 && last < 5
    ||| tried >= 10 && last < 10
    ||| tried >= 20 && last < 20
    ||| tried >= 20 && tried - last >= 20
}

/// The size of the batch that opens at `tried` trials.
pub open spec fn batch_size(tried: int) -> int {
    if tried < MAX_BATCH {
        tried
    } else {
        MAX_BATCH as int
    }
}

/// What the selector found of a version: a distribution that fits the
/// resolution target, or none that does.
#[derive(Clone, Copy, Debug, PartialEq, Eq, Structural)]
pub enum CandidateDist {
    Compatible { prefetchable: bool },
    Incompatible,
}

/// A version that the selector picked, by its rank in the version map.
#[derive(Clone, Copy, Debug, PartialEq, Eq, Structural)]
pub struct Candidate {
    pub version: u64,
    pub dist: CandidateDist,
}

impl Candidate {
    /// Whether the candidate is worth a speculative fetch: it has a
    /// compatible distribution, and that one is cheap enough to fetch ahead.
    pub open spec fn fetchable(self) -> bool {
        self.dist == (CandidateDist::Compatible { prefetchable: true })
    }

    /// Whether the candidate is worth a speculative fetch.
    pub fn is_fetchable(&self) -> (yes: bool)
        ensures
            yes == self.fetchable(),
    {
        match self.dist {
            CandidateDist::Compatible { prefetchable } => prefetchable,
            CandidateDist::Incompatible => false,
        }
    }
}

/// What the caller does with a selection.
#[derive(Clone, Copy, Debug, PartialEq, Eq, Structural)]
pub enum Prefetch {
    /// Register the version and, where it was not registered before, request
    /// its metadata.
    Request(u64),
    /// Nothing to fetch for this selection.
    Skip,
    /// The batch is over.
    Done,
}

/// What went wrong in a batch.
#[derive(Clone, Copy, Debug, PartialEq, Eq, Structural)]
pub enum ResolveError {
    /// The package has no slot in the index of version maps.
    Unregistered,
    /// The request channel took no more requests.
    ChannelClosed,
}

/// What the index holds for a package.
#[derive(Clone, Copy, Debug, PartialEq, Eq, Structural)]
pub enum VersionsResponse {
    /// A version map.
    Found,
    /// No version map: the package is not in the index, or the index is out of
    /// reach.
    NotFound,
}

/// Whether a batch can run on what the index holds for the package: it runs on
/// a version map, is dropped where there is none, and fails where the package
/// was never registered.
pub fn version_map_found(response: Option<VersionsResponse>) -> (found: Result<bool, ResolveError>)
    ensures
        found == match response {
            None => Err::<bool, ResolveError>(ResolveError::Unregistered),
            Some(VersionsResponse::Found) => Ok(true),
            Some(VersionsResponse::NotFound) => Ok(false),
        },
{
    match response {
        None => Err(ResolveError::Unregistered),
        Some(VersionsResponse::Found) => Ok(true),
        Some(VersionsResponse::NotFound) => Ok(false),
    }
}

/// What becomes of a batch after a request was handed to the channel: it goes
/// on where the channel took the request, and fails where the channel is
/// closed.
pub fn request_sent(delivered: bool) -> (sent: Result<(), ResolveError>)
    ensures
        sent == if delivered {
            Ok::<(), ResolveError>(())
        } else {
            Err(ResolveError::ChannelClosed)
        },
{
    if delivered {
        Ok(())
    } else {
        Err(ResolveError::ChannelClosed)
    }
}

/// The cursor of a batch.
pub enum BatchPrefetchStrategy {
    /// Go through the versions that the current selection and its constraints
    /// allow.
    Compatible { compatible: Range<u64>, previous: u64 },
    /// Go through the versions in order from the last one, whatever the
    /// constraints say.
    InOrder { previous: u64 },
}

/// A cursor, with its range as the set of ranks that it holds.
pub enum Strategy {
    Compatible { compatible: Set<u64>, previous: u64 },
    InOrder { previous: u64 },
}

impl View for BatchPrefetchStrategy {
    type V = Strategy;

    open spec fn view(&self) -> Strategy {
        match *self {
            BatchPrefetchStrategy::Compatible { compatible, previous } => Strategy::Compatible {
                compatible: members(compatible),
                previous,
            },
            BatchPrefetchStrategy::InOrder { previous } => Strategy::InOrder { previous },
        }
    }
}

impl Strategy {
    /// The ranks that the selector is to choose from.
    pub open spec fn range(self, use_highest: bool) -> Set<u64> {
        match self {
            Strategy::Compatible { compatible, .. } => compatible,
            Strategy::InOrder { previous } => if use_highest {
                Set::new(|v: u64| v < previous)
            } else {
                Set::new(|v: u64| v > previous)
            },
        }
    }
}

/// A batch, as its contracts see it.
pub struct BatchState {
    pub phase: Strategy,
    /// The trial count at which the batch opened.
    pub tried: nat,
    /// The selections that the batch may still make.
    pub remaining: nat,
    /// The candidates handed out for a fetch so far.
    pub emitted: nat,
    /// Both strategies ran out of candidates.
    pub exhausted: bool,
}

impl BatchState {
    /// Whether the batch makes no more selections: it has used them up, or
    /// both strategies ran out of candidates.
    pub open spec fn over(self) -> bool {
        self.remaining == 0 || self.exhausted
    }

    /// The batch as it opens at `tried` trials, on the range `compatible` and
    /// the version `previous` that the solver just tried.
    pub open spec fn open(tried: nat, compatible: Set<u64>, previous: u64) -> BatchState {
        BatchState {
            phase: Strategy::Compatible { compatible, previous },
            tried,
            remaining: batch_size(tried as int) as nat,
            emitted: 0,
            exhausted: false,
        }
    }

    /// What to do with a selection.
    pub open spec fn verdict(self, selected: Option<Candidate>) -> Prefetch {
        if self.over() {
            Prefetch::Done
        } else {
            match selected {
                Some(candidate) => if candidate.fetchable() {
                    Prefetch::Request(candidate.version)
                } else {
                    Prefetch::Skip
                },
                None => if self.phase is InOrder {
                    Prefetch::Done
                } else {
                    Prefetch::Skip
                },
            }
        }
    }

    /// The batch after a selection. A selected version leaves the compatible
    /// range and becomes the last version seen; an empty compatible range
    /// hands over to version order; an empty rest in version order ends the
    /// batch.
    pub open spec fn step(self, selected: Option<Candidate>) -> BatchState {
        if self.over() {
            self
        } else {
            let emitted = if self.verdict(selected) is Request {
                self.emitted + 1
            } else {
                self.emitted
            };
            let remaining = (self.remaining - 1) as nat;
            match (self.phase, selected) {
                (Strategy::Compatible { compatible, previous }, Some(candidate)) => BatchState {
                    phase: Strategy::Compatible {
                        compatible: compatible.remove(candidate.version),
                        previous: candidate.version,
                    },
                    remaining,
                    emitted,
                    ..self
                },
                (Strategy::Compatible { compatible, previous }, None) => BatchState {
                    phase: Strategy::InOrder { previous },
                    remaining,
                    ..self
                },
                (Strategy::InOrder { previous }, Some(candidate)) => BatchState {
                    phase: Strategy::InOrder { previous: candidate.version },
                    remaining,
                    emitted,
                    ..self
                },
                (Strategy::InOrder { previous }, None) => BatchState { exhausted: true, ..self },
            }
        }
    }
}

/// The count that is recorded after `calls` trials of one package, where it is
/// asked after each trial whether a batch is due.
pub open spec fn recorded_after(calls: nat) -> nat
    decreases calls,
{
    if calls == 0 {
        0
    } else {
        let last = recorded_after((calls - 1) as nat);
        if due(calls as int, last as int) {
            calls
        } else {
            last
        }
    }
}

/// The recorded count is the last of 5, 10, 20, 40, 60, ... that the trial
/// count has reached.
pub proof fn lemma_recorded_after(calls: nat)
    ensures
        recorded_after(calls) == if calls < 5 {
            0
        } else if calls < 10 {
            5
        } else if calls < 20 {
            10
        } else {
            20 * (calls / 20)
        },
    decreases calls,
{
    if calls > 0 {
        lemma_recorded_after((calls - 1) as nat);
    }
}

/// Asked after each trial, a batch is due exactly at the trials 5, 10 and 20,
/// and at every twentieth trial after that.
pub proof fn lemma_batch_schedule(calls: nat)
    requires
        calls >= 1,
    ensures
        due(calls as int, recorded_after((calls - 1) as nat) as int) <==> (calls == 5 || calls == 10
            || calls == 20 || (calls > 20 && calls % 20 == 0)),
{
    lemma_recorded_after((calls - 1) as nat);
}

/// A batch is due only at a trial count beyond the recorded one: the record
/// never moves back.
pub proof fn lemma_due_moves_forward(tried: int, last: int)
    requires
        due(tried, last),
    ensures
        tried > last,
{
}

/// Once a batch was due at a trial count, none is due again before the count
/// moves on.
pub proof fn lemma_recorded_batch_not_due(tried: nat)
    requires
        tried >= 5,
    ensures
        !due(tried as int, tried as int),
{
}

/// A batch that has gone over to version order never goes back to the
/// compatible range.
pub proof fn lemma_in_order_stays(batch: BatchState, selected: Option<Candidate>)
    requires
        batch.phase is InOrder,
    ensures
        batch.step(selected).phase is InOrder,
{
}

/// Every selection uses up one of the selections that the batch has left, but
/// for the one that finds version order exhausted and ends the batch; and the
/// candidates handed out never outnumber the selections made.
pub proof fn lemma_step_progress(batch: BatchState, selected: Option<Candidate>)
    requires
        !batch.over(),
    ensures
        batch.step(selected).over() || batch.step(selected).remaining == batch.remaining - 1,
        batch.step(selected).remaining + batch.step(selected).emitted <= batch.remaining
            + batch.emitted,
        batch.step(selected).tried == batch.tried,
{
}

/// The batch after a run of selections, one answer of the selector after the
/// other.
pub open spec fn after(batch: BatchState, answers: Seq<Option<Candidate>>) -> BatchState
    decreases answers.len(),
{
    if answers.len() == 0 {
        batch
    } else {
        after(batch, answers.drop_last()).step(answers.last())
    }
}

/// A run of selections never hands out more candidates than the batch had
/// selections left, and uses up no more of them than there were answers.
pub proof fn lemma_batch_bounded(batch: BatchState, answers: Seq<Option<Candidate>>)
    ensures
        after(batch, answers).remaining + after(batch, answers).emitted <= batch.remaining
            + batch.emitted,
        after(batch, answers).emitted >= batch.emitted,
        after(batch, answers).remaining + answers.len() >= batch.remaining,
        after(batch, answers).tried == batch.tried,
        batch.exhausted ==> after(batch, answers).exhausted,
    decreases answers.len(),
{
    if answers.len() > 0 {
        lemma_batch_bounded(batch, answers.drop_last());
    }
}

/// A batch is over after as many selections as it had left, if not before:
/// one that opens at `tried` trials makes `tried` selections, and 50 at most.
pub proof fn lemma_batch_ends(batch: BatchState, answers: Seq<Option<Candidate>>)
    requires
        answers.len() >= batch.remaining,
    ensures
        after(batch, answers).over(),
    decreases answers.len(),
{
    if batch.over() {
        lemma_over_stays(batch, answers);
    } else {
        let rest = answers.drop_last();
        if rest.len() >= batch.remaining {
            lemma_batch_ends(batch, rest);
        } else {
            lemma_remaining_exact(batch, rest);
        }
    }
}

/// A batch that is over stays as it is.
pub proof fn lemma_over_stays(batch: BatchState, answers: Seq<Option<Candidate>>)
    requires
        batch.over(),
    ensures
        after(batch, answers) == batch,
    decreases answers.len(),
{
    if answers.len() > 0 {
        lemma_over_stays(batch, answers.drop_last());
    }
}

/// As long as a batch is not over, each answer has used up one selection.
proof fn lemma_remaining_exact(batch: BatchState, answers: Seq<Option<Candidate>>)
    ensures
        after(batch, answers).over() || after(batch, answers).remaining + answers.len()
            == batch.remaining,
    decreases answers.len(),
{
    if answers.len() > 0 {
        lemma_remaining_exact(batch, answers.drop_last());
    }
}

/// A version that was selected from the compatible range is not offered
/// again: it has left the range of the next query.
pub proof fn lemma_selected_leaves_range(batch: BatchState, candidate: Candidate, use_highest: bool)
    requires
        !batch.over(),
        batch.phase is Compatible,
    ensures
        !batch.step(Some(candidate)).phase.range(use_highest).contains(candidate.version),
{
}

/// In version order the next query never offers the version selected last.
pub proof fn lemma_in_order_moves_on(batch: BatchState, candidate: Candidate, use_highest: bool)
    requires
        !batch.over(),
        batch.phase is InOrder,
    ensures
        !batch.step(Some(candidate)).phase.range(use_highest).contains(candidate.version),
{
}

/// One run of speculative selections for one package.
pub struct Batch {
    phase: BatchPrefetchStrategy,
    tried: usize,
    remaining: usize,
    emitted: usize,
    exhausted: bool,
}

impl View for Batch {
    type V = BatchState;

    closed spec fn view(&self) -> BatchState {
        BatchState {
            phase: self.phase@,
            tried: self.tried as nat,
            remaining: self.remaining as nat,
            emitted: self.emitted as nat,
            exhausted: self.exhausted,
        }
    }
}

impl Batch {
    #[verifier::type_invariant]
    spec fn bounded(self) -> bool {
        &&& self.remaining + self.emitted <= MAX_BATCH
        &&& self.phase matches BatchPrefetchStrategy::Compatible { compatible, .. } ==> sound(
            compatible,
        )
    }

    /// The trial count at which the batch opened.
    pub fn tried(&self) -> (tried: usize)
        ensures
            tried == self@.tried,
    {
        self.tried
    }

    /// The selections that the batch may still make.
    pub fn remaining(&self) -> (remaining: usize)
        ensures
            remaining == self@.remaining,
    {
        self.remaining
    }

    /// The candidates handed out for a fetch so far.
    pub fn prefetch_count(&self) -> (emitted: usize)
        ensures
            emitted == self@.emitted,
            emitted <= MAX_BATCH,
    {
        proof {
            use_type_invariant(self);
        }
        self.emitted
    }

    /// Whether the batch goes through the versions in order, the compatible
    /// range being used up.
    pub fn in_order(&self) -> (yes: bool)
        ensures
            yes == (self@.phase is InOrder),
    {
        match self.phase {
            BatchPrefetchStrategy::Compatible { .. } => false,
            BatchPrefetchStrategy::InOrder { .. } => true,
        }
    }

    /// The version that the batch saw last.
    pub fn previous(&self) -> (previous: u64)
        ensures
            previous == match self@.phase {
                Strategy::Compatible { previous, .. } => previous,
                Strategy::InOrder { previous } => previous,
            },
    {
        match self.phase {
            BatchPrefetchStrategy::Compatible { previous, .. } => previous,
            BatchPrefetchStrategy::InOrder { previous } => previous,
        }
    }

    /// Whether the batch makes no more selections.
    pub fn is_over(&self) -> (over: bool)
        ensures
            over == self@.over(),
    {
        self.remaining == 0 || self.exhausted
    }

    /// The range from which the selector is to pick the next candidate, or
    /// `None` when the batch is over. In version order the range lies below
    /// the last version where the selector prefers the highest version, and
    /// above it where it prefers the lowest.
    pub fn query(&self, use_highest: bool) -> (range: Option<Range<u64>>)
        ensures
            range is None <==> self@.over(),
            range matches Some(r) ==> sound(r) && members(r) == self@.phase.range(use_highest),
    {
        proof {
            use_type_invariant(self);
        }
        if self.is_over() {
            return None;
        }
        match &self.phase {
            BatchPrefetchStrategy::Compatible { compatible, .. } => Some(duplicate(compatible)),
            BatchPrefetchStrategy::InOrder { previous } => {
                if use_highest {
                    Some(strictly_lower_than(*previous))
                } else {
                    Some(strictly_higher_than(*previous))
                }
            },
        }
    }

    /// Takes the selector's answer to the last query and says what to do with
    /// it.
    pub fn advance(&mut self, selected: Option<Candidate>) -> (next: Prefetch)
        ensures
            final(self)@ == old(self)@.step(selected),
            next == old(self)@.verdict(selected),
    {
        proof {
            use_type_invariant(&*self);
        }
        if self.is_over() {
            return Prefetch::Done;
        }
        match selected {
            Some(candidate) => {
                let phase = match &self.phase {
                    BatchPrefetchStrategy::Compatible { compatible, .. } => {
                        BatchPrefetchStrategy::Compatible {
                            compatible: without(compatible, candidate.version),
                            previous: candidate.version,
                        }
                    },
                    BatchPrefetchStrategy::InOrder { .. } => BatchPrefetchStrategy::InOrder {
                        previous: candidate.version,
                    },
                };
                self.phase = phase;
                self.remaining = self.remaining - 1;
                if candidate.is_fetchable() {
                    self.emitted = self.emitted + 1;
                    Prefetch::Request(candidate.version)
                } else {
                    Prefetch::Skip
                }
            },
            None => {
                let previous = self.previous();
                if self.in_order() {
                    self.exhausted = true;
                    Prefetch::Done
                } else {
                    self.phase = BatchPrefetchStrategy::InOrder { previous };
                    self.remaining = self.remaining - 1;
                    Prefetch::Skip
                }
            },
        }
    }
}

/// What the solver tries versions of.
#[derive(Clone, Debug, PartialEq, Eq)]
pub enum PubGrubPackage {
    /// The root of the resolution, which stands for the project itself.
    Root,
    /// The interpreter, which the solver treats as a package.
    Python,
    /// A package, by its name.
    Package(String),
}

impl PubGrubPackage {
    /// What the counters are kept under: a text of its own for each of the
    /// two that are no packages, and the name behind a prefix for a package.
    pub open spec fn key(self) -> Seq<char> {
        match self {
            PubGrubPackage::Root => "root"@,
            PubGrubPackage::Python => "python"@,
            PubGrubPackage::Package(name) => "package:"@ + name@,
        }
    }

    /// The name of the package, where it is one.
    pub open spec fn named(self) -> Option<Seq<char>> {
        match self {
            PubGrubPackage::Package(name) => Some(name@),
            _ => None,
        }
    }

    /// The name of the package; `None` for the root and the interpreter, for
    /// which nothing is ever fetched ahead.
    pub fn name(&self) -> (name: Option<&str>)
        ensures
            match name {
                Some(text) => self.named() == Some(text@),
                None => self.named() is None,
            },
    {
        match self {
            PubGrubPackage::Package(name) => Some(name.as_str()),
            _ => None,
        }
    }

    fn to_key(&self) -> (key: String)
        ensures
            key@ == self.key(),
    {
        match self {
            PubGrubPackage::Root => String::from_str("root"),
            PubGrubPackage::Python => String::from_str("python"),
            PubGrubPackage::Package(name) => String::from_str("package:").concat(name.as_str()),
        }
    }
}

/// No two of them share their counters: the root, the interpreter and the
/// packages are counted apart, and two packages together only where they have
/// the same name.
pub proof fn lemma_counted_apart(left: PubGrubPackage, right: PubGrubPackage)
    ensures
        left.key() == right.key() <==> (left is Root && right is Root) || (left is Python
            && right is Python) || (left.named() is Some && left.named() == right.named()),
{
    reveal_strlit("root");
    reveal_strlit("python");
    reveal_strlit("package:");
    if left.key() == right.key() {
        if let PubGrubPackage::Package(l) = left {
            if let PubGrubPackage::Package(r) = right {
                let prefix = "package:"@;
                assert(l@ =~= (prefix + l@).subrange(8, (prefix + l@).len() as int));
                assert(r@ =~= (prefix + r@).subrange(8, (prefix + r@).len() as int));
            } else {
                assert(left.key().len() >= 8);
            }
        } else if let PubGrubPackage::Package(r) = right {
            assert(right.key().len() >= 8);
        }
    }
}

/// Counts the versions tried of each package and opens a batch of prefetches
/// when many were tried without success.
pub struct BatchPrefetcher {
    tried_versions: Tally,
    last_prefetch: Tally,
}

impl Default for BatchPrefetcher {
    /// A prefetcher that has seen no trial.
    fn default() -> (prefetcher: BatchPrefetcher)
        ensures
            forall|package: PubGrubPackage| prefetcher.tried(package) == 0,
            forall|package: PubGrubPackage| prefetcher.last_prefetch(package) == 0,
    {
        BatchPrefetcher::new()
    }
}

impl BatchPrefetcher {
    /// How often a version of `package` was tried.
    pub closed spec fn tried(&self, package: PubGrubPackage) -> nat {
        fx::count(self.tried_versions, package.key())
    }

    /// The trial count of `package` at which a batch was last found due, zero
    /// where none was.
    pub closed spec fn last_prefetch(&self, package: PubGrubPackage) -> nat {
        fx::count(self.last_prefetch, package.key())
    }

    /// Whether the counters of every package but `package` are in `self` what
    /// they are in `before`.
    pub open spec fn others_as_in(&self, before: BatchPrefetcher, package: PubGrubPackage) -> bool {
        forall|other: PubGrubPackage|
            other.key() != package.key() ==> #[trigger] self.tried(other) == before.tried(other)
                && #[trigger] self.last_prefetch(other) == before.last_prefetch(other)
    }

    /// A prefetcher that has seen no trial.
    pub fn new() -> (prefetcher: BatchPrefetcher)
        ensures
            forall|package: PubGrubPackage| prefetcher.tried(package) == 0,
            forall|package: PubGrubPackage| prefetcher.last_prefetch(package) == 0,
    {
        BatchPrefetcher { tried_versions: fx::empty(), last_prefetch: fx::empty() }
    }

    /// How often a version of `package` was tried.
    pub fn trials(&self, package: &PubGrubPackage) -> (count: usize)
        ensures
            count == self.tried(*package),
    {
        let key = package.to_key();
        fx::get_or_zero(&self.tried_versions, key.as_str())
    }

    /// Each time the solver tried a version of a package, it says so here.
    pub fn version_tried(&mut self, package: PubGrubPackage)
        requires
            old(self).tried(package) < usize::MAX,
        ensures
            final(self).tried(package) == old(self).tried(package) + 1,
            final(self).last_prefetch(package) == old(self).last_prefetch(package),
            final(self).others_as_in(*old(self), package),
    {
        let key = package.to_key();
        let count = fx::get_or_zero(&self.tried_versions, key.as_str());
        fx::insert(&mut self.tried_versions, key, count + 1);
    }

    /// The trial count of `next`, and whether a batch is due: when the count
    /// has reached 5, 10 or 20 and no batch was due since it did, and from
    /// then on every 20 trials after the last batch. The count at which a
    /// batch is found due is recorded with the answer, so that the same count
    /// is not answered with `true` again.
    pub fn should_prefetch(&mut self, next: &PubGrubPackage) -> (answer: (usize, bool))
        ensures
            answer.0 == old(self).tried(*next),
            answer.1 == due(old(self).tried(*next) as int, old(self).last_prefetch(*next) as int),
            final(self).tried(*next) == old(self).tried(*next),
            final(self).last_prefetch(*next) == if answer.1 {
                old(self).tried(*next)
            } else {
                old(self).last_prefetch(*next)
            },
            final(self).last_prefetch(*next) >= old(self).last_prefetch(*next),
            final(self).others_as_in(*old(self), *next),
    {
        let key = next.to_key();
        let num_tried = fx::get_or_zero(&self.tried_versions, key.as_str());
        let previous_prefetch = fx::get_or_zero(&self.last_prefetch, key.as_str());
        let do_prefetch = (num_tried >= 5 && previous_prefetch < 5)
            || (num_tried >= 10 && previous_prefetch < 10)
            || (num_tried >= 20 && previous_prefetch < 20)
            || (num_tried >= 20 && previous_prefetch <= num_tried
                && num_tried - previous_prefetch >= 20);
        if do_prefetch {
            fx::insert(&mut self.last_prefetch, key, num_tried);
        }
        (num_tried, do_prefetch)
    }

    /// Opens a batch for `next` where one is due, and records the count at
    /// which it was. `version` is the version that the solver just tried,
    /// `current_range` the set that it holds compatible. The batch makes as
    /// many selections as versions were tried, and 50 at most. For the root
    /// and the interpreter no batch is opened and nothing is recorded.
    ///
    /// The count stays recorded however the batch ends: with candidates or
    /// without, and also where the caller drops it for want of a version map.
    pub fn prefetch_batches(
        &mut self,
        next: &PubGrubPackage,
        version: u64,
        current_range: &Vec<Interval>,
    ) -> (batch: Option<Batch>)
        ensures
            batch is Some <==> next.named() is Some && due(
                old(self).tried(*next) as int,
                old(self).last_prefetch(*next) as int,
            ),
            batch matches Some(b) ==> b@ == BatchState::open(
                old(self).tried(*next),
                spanned(current_range@),
                version,
            ),
            final(self).tried(*next) == old(self).tried(*next),
            final(self).last_prefetch(*next) == if batch is Some {
                old(self).tried(*next)
            } else {
                old(self).last_prefetch(*next)
            },
            final(self).others_as_in(*old(self), *next),
    {
        if next.name().is_none() {
            return None;
        }
        let (num_tried, do_prefetch) = self.should_prefetch(next);
        if !do_prefetch {
            return None;
        }
        let total_prefetch = if num_tried < MAX_BATCH {
            num_tried
        } else {
            MAX_BATCH
        };
        Some(
            Batch {
                phase: BatchPrefetchStrategy::Compatible {
                    compatible: from_intervals(current_range),
                    previous: version,
                },
                tried: num_tried,
                remaining: total_prefetch,
                emitted: 0,
                exhausted: false,
            },
        )
    }
}

} // verus!
