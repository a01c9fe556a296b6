use artifact_cache::prefetch::request_sent;
use artifact_cache::prefetch::version_map_found;
use artifact_cache::prefetch::Batch;
use artifact_cache::prefetch::BatchPrefetcher;
use artifact_cache::prefetch::Candidate;
use artifact_cache::prefetch::CandidateDist;
use artifact_cache::prefetch::Prefetch;
use artifact_cache::prefetch::PubGrubPackage;
use artifact_cache::prefetch::ResolveError;
use artifact_cache::prefetch::VersionsResponse;
use artifact_cache::prefetch::MAX_BATCH;
use artifact_cache::ranges::from_intervals;
use artifact_cache::ranges::Interval;
use artifact_cache::ranges::Limit;

fn package(name: &str) -> PubGrubPackage {
    PubGrubPackage::Package(name.to_string())
}

fn tried(prefetcher: &mut BatchPrefetcher, package: &PubGrubPackage, times: usize) {
    for _ in 0..times {
        prefetcher.version_tried(package.clone());
    }
}

fn fetchable(version: u64) -> Option<Candidate> {
    Some(Candidate { version, dist: CandidateDist::Compatible { prefetchable: true } })
}

fn everything() -> Vec<Interval> {
    vec![Interval { start: Limit::Unbounded, end: Limit::Unbounded }]
}

fn between(start: u64, end: u64) -> Vec<Interval> {
    vec![Interval { start: Limit::Included(start), end: Limit::Excluded(end) }]
}

fn only(version: u64) -> Vec<Interval> {
    vec![Interval { start: Limit::Included(version), end: Limit::Included(version) }]
}

fn open_batch(trials: usize, version: u64, range: &Vec<Interval>) -> Batch {
    let mut prefetcher = BatchPrefetcher::new();
    tried(&mut prefetcher, &package("x"), trials);
    prefetcher.prefetch_batches(&package("x"), version, range).expect("a batch is due")
}

#[test]
fn fifth_trial_opens_a_batch_and_the_sixth_does_not() {
    let x = package("x");
    let mut prefetcher = BatchPrefetcher::new();
    tried(&mut prefetcher, &x, 5);
    assert_eq!(prefetcher.should_prefetch(&x), (5, true));
    prefetcher.version_tried(x.clone());
    assert_eq!(prefetcher.should_prefetch(&x), (6, false));
}

#[test]
fn a_count_is_answered_with_true_once() {
    let x = package("x");
    let mut prefetcher = BatchPrefetcher::new();
    tried(&mut prefetcher, &x, 5);
    assert_eq!(prefetcher.should_prefetch(&x), (5, true));
    assert_eq!(prefetcher.should_prefetch(&x), (5, false));
    assert!(prefetcher.prefetch_batches(&x, 1, &everything()).is_none());
}

#[test]
fn opening_a_batch_records_the_count() {
    let x = package("x");
    let mut prefetcher = BatchPrefetcher::new();
    tried(&mut prefetcher, &x, 5);
    assert!(prefetcher.prefetch_batches(&x, 1, &everything()).is_some());
    assert_eq!(prefetcher.should_prefetch(&x), (5, false));
    assert!(prefetcher.prefetch_batches(&x, 1, &everything()).is_none());
    prefetcher.version_tried(x.clone());
    assert_eq!(prefetcher.should_prefetch(&x), (6, false));
}

#[test]
fn a_batch_that_is_asked_for_late_is_still_due() {
    let x = package("x");
    let mut prefetcher = BatchPrefetcher::new();
    tried(&mut prefetcher, &x, 7);
    assert_eq!(prefetcher.should_prefetch(&x), (7, true));
    tried(&mut prefetcher, &x, 2);
    assert_eq!(prefetcher.should_prefetch(&x), (9, false));
    tried(&mut prefetcher, &x, 1);
    assert_eq!(prefetcher.should_prefetch(&x), (10, true));
}

#[test]
fn nothing_is_due_before_the_fifth_trial() {
    let x = package("x");
    let mut prefetcher = BatchPrefetcher::new();
    assert_eq!(prefetcher.should_prefetch(&x), (0, false));
    for count in 1..5 {
        prefetcher.version_tried(x.clone());
        assert_eq!(prefetcher.trials(&x), count);
        assert_eq!(prefetcher.should_prefetch(&x), (count, false));
        assert!(prefetcher.prefetch_batches(&x, 1, &everything()).is_none());
    }
}

#[test]
fn batches_are_due_at_5_10_20_and_every_20_after() {
    let x = package("x");
    let mut prefetcher = BatchPrefetcher::new();
    let mut due_at = Vec::new();
    for count in 1..=100usize {
        prefetcher.version_tried(x.clone());
        let (seen, due) = prefetcher.should_prefetch(&x);
        assert_eq!(seen, count);
        if due {
            due_at.push(count);
        }
    }
    assert_eq!(due_at, vec![5, 10, 20, 40, 60, 80, 100]);
}

#[test]
fn batches_open_at_5_10_20_and_every_20_after() {
    let x = package("x");
    let mut prefetcher = BatchPrefetcher::new();
    let mut opened = Vec::new();
    for count in 1..=70usize {
        prefetcher.version_tried(x.clone());
        if let Some(batch) = prefetcher.prefetch_batches(&x, 0, &everything()) {
            opened.push((count, batch.tried(), batch.remaining()));
        }
    }
    assert_eq!(opened, vec![(5, 5, 5), (10, 10, 10), (20, 20, 20), (40, 40, 40), (60, 60, 50)]);
}

#[test]
fn packages_are_counted_apart() {
    let (x, y, z) = (package("x"), package("y"), package("z"));
    let mut prefetcher = BatchPrefetcher::new();
    tried(&mut prefetcher, &x, 5);
    tried(&mut prefetcher, &y, 2);
    assert_eq!(prefetcher.trials(&x), 5);
    assert_eq!(prefetcher.trials(&y), 2);
    assert_eq!(prefetcher.trials(&z), 0);
    assert_eq!(prefetcher.should_prefetch(&y), (2, false));
    assert_eq!(prefetcher.should_prefetch(&z), (0, false));
    assert_eq!(prefetcher.should_prefetch(&x), (5, true));
    tried(&mut prefetcher, &y, 3);
    assert_eq!(prefetcher.should_prefetch(&y), (5, true));
    assert_eq!(prefetcher.should_prefetch(&x), (5, false));
}

#[test]
fn the_root_and_the_interpreter_are_counted_apart_from_packages() {
    let mut prefetcher = BatchPrefetcher::new();
    tried(&mut prefetcher, &PubGrubPackage::Root, 3);
    tried(&mut prefetcher, &PubGrubPackage::Python, 2);
    tried(&mut prefetcher, &package("root"), 1);
    assert_eq!(prefetcher.trials(&PubGrubPackage::Root), 3);
    assert_eq!(prefetcher.trials(&PubGrubPackage::Python), 2);
    assert_eq!(prefetcher.trials(&package("root")), 1);
    assert_eq!(prefetcher.trials(&package("python")), 0);
    assert_eq!(prefetcher.trials(&package("")), 0);
}

#[test]
fn nothing_is_fetched_ahead_for_the_root_and_the_interpreter() {
    assert_eq!(package("x").name(), Some("x"));
    assert_eq!(PubGrubPackage::Root.name(), None);
    assert_eq!(PubGrubPackage::Python.name(), None);
    for next in [PubGrubPackage::Root, PubGrubPackage::Python] {
        let mut prefetcher = BatchPrefetcher::new();
        tried(&mut prefetcher, &next, 5);
        assert!(prefetcher.prefetch_batches(&next, 0, &everything()).is_none());
        assert_eq!(prefetcher.should_prefetch(&next), (5, true));
    }
}

#[test]
fn a_batch_selects_as_often_as_versions_were_tried() {
    let batch = open_batch(5, 3, &everything());
    assert_eq!(batch.tried(), 5);
    assert_eq!(batch.remaining(), 5);
    assert_eq!(batch.prefetch_count(), 0);
    assert_eq!(batch.previous(), 3);
    assert!(!batch.in_order());
    assert!(!batch.is_over());
}

#[test]
fn a_batch_selects_fifty_times_at_most() {
    assert_eq!(MAX_BATCH, 50);
    let x = package("x");
    let mut prefetcher = BatchPrefetcher::new();
    tried(&mut prefetcher, &x, 49);
    assert_eq!(prefetcher.prefetch_batches(&x, 0, &everything()).unwrap().remaining(), 49);
    tried(&mut prefetcher, &x, 20);
    let batch = prefetcher.prefetch_batches(&x, 0, &everything()).unwrap();
    assert_eq!(batch.tried(), 69);
    assert_eq!(batch.remaining(), 50);
    assert_eq!(open_batch(50, 0, &everything()).remaining(), 50);
    assert_eq!(open_batch(51, 0, &everything()).remaining(), 50);
}

#[test]
fn the_first_query_is_the_compatible_range() {
    let batch = open_batch(5, 15, &between(10, 20));
    let query = batch.query(true).unwrap();
    assert!(query.contains(&10));
    assert!(query.contains(&15));
    assert!(query.contains(&19));
    assert!(!query.contains(&20));
    assert!(!query.contains(&9));
    assert_eq!(query, batch.query(false).unwrap());
}

#[test]
fn a_range_is_what_its_intervals_hold() {
    let intervals = vec![
        Interval { start: Limit::Excluded(20), end: Limit::Included(22) },
        Interval { start: Limit::Included(1), end: Limit::Excluded(3) },
        Interval { start: Limit::Included(2), end: Limit::Included(4) },
        Interval { start: Limit::Included(9), end: Limit::Included(8) },
        Interval { start: Limit::Included(12), end: Limit::Excluded(12) },
        Interval { start: Limit::Excluded(30), end: Limit::Unbounded },
    ];
    let range = from_intervals(&intervals);
    let held: Vec<u64> = (0..40).filter(|version| range.contains(version)).collect();
    assert_eq!(held, vec![1, 2, 3, 4, 21, 22, 31, 32, 33, 34, 35, 36, 37, 38, 39]);
    assert!(range.contains(&u64::MAX));
    assert!(from_intervals(&Vec::new()).is_empty());
    let below = from_intervals(&vec![Interval { start: Limit::Unbounded, end: Limit::Excluded(2) }]);
    assert!(below.contains(&0) && below.contains(&1) && !below.contains(&2));
}

#[test]
fn a_selected_version_leaves_the_compatible_range() {
    let mut batch = open_batch(5, 15, &between(10, 20));
    assert_eq!(batch.advance(fetchable(14)), Prefetch::Request(14));
    assert_eq!(batch.previous(), 14);
    assert_eq!(batch.remaining(), 4);
    assert_eq!(batch.prefetch_count(), 1);
    assert!(!batch.in_order());
    let query = batch.query(true).unwrap();
    assert!(!query.contains(&14));
    assert!(query.contains(&13));
    assert!(query.contains(&15));
    assert!(!query.contains(&20));
    assert_eq!(batch.advance(fetchable(13)), Prefetch::Request(13));
    let query = batch.query(true).unwrap();
    assert!(!query.contains(&14));
    assert!(!query.contains(&13));
    assert!(query.contains(&12));
}

#[test]
fn a_candidate_from_outside_the_range_changes_nothing_in_it() {
    let mut batch = open_batch(5, 15, &between(10, 20));
    assert_eq!(batch.advance(fetchable(7)), Prefetch::Request(7));
    let query = batch.query(true).unwrap();
    let held: Vec<u64> = (0..30).filter(|version| query.contains(version)).collect();
    assert_eq!(held, (10..20).collect::<Vec<u64>>());
}

#[test]
fn intervals_that_hold_nothing_open_a_batch_on_nothing() {
    for nothing in [between(5, 5), between(5, 3), Vec::new()] {
        let mut batch = open_batch(5, 15, &nothing);
        let query = batch.query(true).unwrap();
        assert!(query.is_empty());
        assert_eq!(batch.advance(fetchable(7)), Prefetch::Request(7));
        assert!(batch.query(true).unwrap().is_empty());
        assert_eq!(batch.advance(None), Prefetch::Skip);
        assert!(batch.in_order());
    }
}

#[test]
fn an_exhausted_range_hands_over_to_version_order() {
    let mut batch = open_batch(5, 15, &only(15));
    assert_eq!(batch.advance(None), Prefetch::Skip);
    assert!(batch.in_order());
    assert_eq!(batch.previous(), 15);
    assert_eq!(batch.remaining(), 4);
    assert_eq!(batch.prefetch_count(), 0);
    assert!(!batch.is_over());
}

#[test]
fn version_order_goes_down_where_the_highest_is_preferred() {
    let mut batch = open_batch(5, 15, &Vec::new());
    batch.advance(None);
    let below = batch.query(true).unwrap();
    assert!(below.contains(&14));
    assert!(below.contains(&0));
    assert!(!below.contains(&15));
    assert!(!below.contains(&16));
    assert_eq!(batch.advance(fetchable(14)), Prefetch::Request(14));
    assert!(batch.in_order());
    assert_eq!(batch.previous(), 14);
    let below = batch.query(true).unwrap();
    assert!(below.contains(&13));
    assert!(!below.contains(&14));
}

#[test]
fn version_order_goes_up_where_the_lowest_is_preferred() {
    let mut batch = open_batch(5, 15, &Vec::new());
    batch.advance(None);
    let above = batch.query(false).unwrap();
    assert!(above.contains(&16));
    assert!(above.contains(&u64::MAX));
    assert!(!above.contains(&15));
    assert!(!above.contains(&14));
}

#[test]
fn version_order_ignores_the_compatible_range() {
    let mut batch = open_batch(5, 15, &between(10, 20));
    batch.advance(None);
    assert!(batch.query(true).unwrap().contains(&3));
}

#[test]
fn the_end_of_version_order_ends_the_batch() {
    let mut batch = open_batch(5, 15, &Vec::new());
    assert_eq!(batch.advance(None), Prefetch::Skip);
    assert_eq!(batch.advance(None), Prefetch::Done);
    assert!(batch.is_over());
    assert!(batch.query(true).is_none());
    assert_eq!(batch.remaining(), 4);
    assert_eq!(batch.advance(fetchable(1)), Prefetch::Done);
    assert_eq!(batch.prefetch_count(), 0);
    assert_eq!(batch.previous(), 15);
}

#[test]
fn a_batch_never_returns_to_the_compatible_range() {
    let mut batch = open_batch(20, 15, &everything());
    assert_eq!(batch.advance(fetchable(14)), Prefetch::Request(14));
    assert!(!batch.in_order());
    assert_eq!(batch.advance(None), Prefetch::Skip);
    assert!(batch.in_order());
    for version in (0..14).rev() {
        batch.advance(fetchable(version));
        assert!(batch.in_order());
    }
    batch.advance(None);
    assert!(batch.in_order());
}

#[test]
fn a_batch_ends_when_its_selections_are_used_up() {
    let mut batch = open_batch(5, 100, &everything());
    for version in [99, 98, 97, 96] {
        assert_eq!(batch.advance(fetchable(version)), Prefetch::Request(version));
        assert!(!batch.is_over());
    }
    assert_eq!(batch.advance(fetchable(95)), Prefetch::Request(95));
    assert!(batch.is_over());
    assert_eq!(batch.remaining(), 0);
    assert_eq!(batch.prefetch_count(), 5);
    assert!(batch.query(true).is_none());
    assert_eq!(batch.advance(fetchable(94)), Prefetch::Done);
    assert_eq!(batch.prefetch_count(), 5);
    assert_eq!(batch.previous(), 95);
}

#[test]
fn a_source_distribution_is_not_fetched_ahead() {
    let mut batch = open_batch(5, 15, &everything());
    let built = Candidate { version: 14, dist: CandidateDist::Compatible { prefetchable: false } };
    assert_eq!(batch.advance(Some(built)), Prefetch::Skip);
    assert_eq!(batch.prefetch_count(), 0);
    assert_eq!(batch.remaining(), 4);
    assert_eq!(batch.previous(), 14);
    assert!(!batch.query(true).unwrap().contains(&14));
}

#[test]
fn an_incompatible_candidate_is_skipped() {
    let mut batch = open_batch(5, 15, &everything());
    let unfit = Candidate { version: 14, dist: CandidateDist::Incompatible };
    assert!(!unfit.is_fetchable());
    assert_eq!(batch.advance(Some(unfit)), Prefetch::Skip);
    assert_eq!(batch.prefetch_count(), 0);
    assert_eq!(batch.remaining(), 4);
    assert_eq!(batch.previous(), 14);
}

#[test]
fn only_a_compatible_prefetchable_candidate_is_fetchable() {
    assert!(fetchable(1).unwrap().is_fetchable());
    assert!(!Candidate { version: 1, dist: CandidateDist::Compatible { prefetchable: false } }
        .is_fetchable());
    assert!(!Candidate { version: 1, dist: CandidateDist::Incompatible }.is_fetchable());
}

#[test]
fn a_batch_without_candidates_counts_as_handled() {
    let x = package("x");
    let mut prefetcher = BatchPrefetcher::new();
    tried(&mut prefetcher, &x, 10);
    let mut batch = prefetcher.prefetch_batches(&x, 3, &Vec::new()).unwrap();
    assert_eq!(batch.advance(None), Prefetch::Skip);
    assert_eq!(batch.advance(None), Prefetch::Done);
    assert_eq!(batch.prefetch_count(), 0);
    assert_eq!(prefetcher.should_prefetch(&x), (10, false));
    tried(&mut prefetcher, &x, 9);
    assert_eq!(prefetcher.should_prefetch(&x), (19, false));
    tried(&mut prefetcher, &x, 1);
    assert_eq!(prefetcher.should_prefetch(&x), (20, true));
}

#[test]
fn opening_a_batch_leaves_the_callers_intervals_alone() {
    let intervals = between(10, 20);
    let mut batch = open_batch(5, 15, &intervals);
    batch.advance(fetchable(14));
    assert_eq!(intervals, between(10, 20));
}

#[test]
fn a_batch_runs_on_a_version_map_only() {
    assert_eq!(version_map_found(Some(VersionsResponse::Found)), Ok(true));
    assert_eq!(version_map_found(Some(VersionsResponse::NotFound)), Ok(false));
    assert_eq!(version_map_found(None), Err(ResolveError::Unregistered));
}

#[test]
fn the_default_prefetcher_has_seen_nothing() {
    let mut prefetcher = BatchPrefetcher::default();
    assert_eq!(prefetcher.trials(&package("x")), 0);
    assert_eq!(prefetcher.should_prefetch(&package("x")), (0, false));
}

#[test]
fn a_closed_channel_fails_the_batch() {
    assert_eq!(request_sent(true), Ok(()));
    assert_eq!(request_sent(false), Err(ResolveError::ChannelClosed));
}
