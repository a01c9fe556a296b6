use artifact_cache::bucket::BucketListing;
use artifact_cache::bucket::BuiltDir;
use artifact_cache::bucket::CacheBucket;
use artifact_cache::bucket::CacheListing;
use artifact_cache::bucket::Scan;
use artifact_cache::bucket::SourceDir;
use artifact_cache::bucket::WheelCacheKind;
use artifact_cache::cache::Cache;
use artifact_cache::gc::is_marker_name;
use artifact_cache::gc::sweep_archives;
use artifact_cache::gc::sweep_root;
use artifact_cache::gc::CacheScan;
use artifact_cache::gc::RootEntry;
use artifact_cache::removal::Removal;

fn dir(path: &str) -> SourceDir {
    SourceDir { path: path.to_string(), builds: Vec::new() }
}

fn build(path: &str, package: Option<&str>) -> BuiltDir {
    BuiltDir { path: path.to_string(), package: package.map(str::to_string) }
}

fn source(path: &str, builds: Vec<BuiltDir>) -> SourceDir {
    SourceDir { path: path.to_string(), builds }
}

fn nothing() -> BucketListing {
    BucketListing { index: Vec::new(), url: Vec::new(), path: Vec::new(), git: Vec::new() }
}

fn empty_cache() -> CacheListing {
    CacheListing { wheels: nothing(), built_wheels: nothing(), simple: nothing() }
}

fn entry(name: &str, is_dir: bool) -> RootEntry {
    RootEntry { name: name.to_string(), is_dir }
}

fn strings(paths: &[&str]) -> Vec<String> {
    paths.iter().map(|path| path.to_string()).collect()
}

fn cache() -> Cache {
    Cache::from_path("/cache".to_string())
}

#[test]
fn wheels_lose_the_directory_of_the_package_in_every_namespace() {
    let mut listing = empty_cache();
    listing.wheels.index = vec![dir("/cache/wheels-v0/index/aaa"), dir("/cache/wheels-v0/index/bbb")];
    listing.wheels.url = vec![dir("/cache/wheels-v0/url/ccc")];
    let targets = CacheBucket::Wheels.remove(&cache(), "foo", &listing);
    assert_eq!(
        targets,
        vec![
            "/cache/wheels-v0/pypi/foo",
            "/cache/wheels-v0/index/aaa/foo",
            "/cache/wheels-v0/index/bbb/foo",
            "/cache/wheels-v0/url/ccc/foo",
        ]
    );
    assert!(targets.iter().all(|target| target.ends_with("/foo")));
}

#[test]
fn wheels_of_other_packages_stay() {
    let mut listing = empty_cache();
    listing.wheels.index = vec![dir("/cache/wheels-v0/index/aaa")];
    let targets = CacheBucket::Wheels.remove(&cache(), "foo", &listing);
    assert!(!targets.contains(&"/cache/wheels-v0/index/aaa/bar".to_string()));
    assert!(!targets.contains(&"/cache/wheels-v0/index/aaa".to_string()));
    assert!(!targets.contains(&"/cache/wheels-v0/pypi".to_string()));
    assert_eq!(targets.len(), 2);
}

#[test]
fn wheels_ignore_what_other_buckets_hold() {
    let mut listing = empty_cache();
    listing.built_wheels.index = vec![dir("/cache/built-wheels-v2/index/aaa")];
    listing.simple.url = vec![dir("/cache/simple-v6/url/bbb")];
    listing.wheels.path = vec![dir("/cache/wheels-v0/path/ccc")];
    listing.wheels.git = vec![dir("/cache/wheels-v0/git/ddd")];
    assert_eq!(
        CacheBucket::Wheels.remove(&cache(), "foo", &listing),
        vec!["/cache/wheels-v0/pypi/foo"]
    );
}

#[test]
fn built_wheels_go_by_the_recorded_package() {
    let mut listing = empty_cache();
    listing.built_wheels.index = vec![dir("/cache/built-wheels-v2/index/aaa")];
    listing.built_wheels.url = vec![
        source(
            "/cache/built-wheels-v2/url/u1",
            vec![
                build("/cache/built-wheels-v2/url/u1/v1", Some("bar")),
                build("/cache/built-wheels-v2/url/u1/v2", Some("foo")),
            ],
        ),
        source(
            "/cache/built-wheels-v2/url/u2",
            vec![build("/cache/built-wheels-v2/url/u2/v1", Some("bar"))],
        ),
        source("/cache/built-wheels-v2/url/u3", Vec::new()),
    ];
    listing.built_wheels.path = vec![
        source(
            "/cache/built-wheels-v2/path/local-a",
            vec![build("/cache/built-wheels-v2/path/local-a/v1", None)],
        ),
        source(
            "/cache/built-wheels-v2/path/local-b",
            vec![build("/cache/built-wheels-v2/path/local-b/v1", Some("foo"))],
        ),
    ];
    listing.built_wheels.git = vec![
        source(
            "/cache/built-wheels-v2/git/r1",
            vec![
                build("/cache/built-wheels-v2/git/r1/sha1", Some("foo")),
                build("/cache/built-wheels-v2/git/r1/sha2", Some("bar")),
                build("/cache/built-wheels-v2/git/r1/sha3", Some("foo")),
            ],
        ),
        source(
            "/cache/built-wheels-v2/git/r2",
            vec![build("/cache/built-wheels-v2/git/r2/sha4", None)],
        ),
        source(
            "/cache/built-wheels-v2/git/r3",
            vec![build("/cache/built-wheels-v2/git/r3/sha5", Some("foo"))],
        ),
    ];
    assert_eq!(
        CacheBucket::BuiltWheels.remove(&cache(), "foo", &listing),
        vec![
            "/cache/built-wheels-v2/pypi/foo",
            "/cache/built-wheels-v2/index/aaa/foo",
            "/cache/built-wheels-v2/url/u1",
            "/cache/built-wheels-v2/path/local-b",
            "/cache/built-wheels-v2/git/r1/sha1",
            "/cache/built-wheels-v2/git/r1/sha3",
            "/cache/built-wheels-v2/git/r3/sha5",
        ]
    );
}

#[test]
fn a_record_that_cannot_be_read_matches_no_package() {
    assert!(!build("/b", None).is_match("foo"));
    assert!(!build("/b", None).is_match(""));
    assert!(build("/b", Some("foo")).is_match("foo"));
    assert!(!build("/b", Some("foo")).is_match("bar"));
    assert!(!build("/b", Some("foo")).is_match("fo"));
    assert!(!source("/s", vec![build("/s/1", None)]).any_match("foo"));
    assert!(!source("/s", Vec::new()).any_match("foo"));
    assert!(source("/s", vec![build("/s/1", None), build("/s/2", Some("foo"))]).any_match("foo"));
}

#[test]
fn simple_loses_the_file_of_the_package() {
    let mut listing = empty_cache();
    listing.simple.url = vec![dir("/cache/simple-v6/url/aaa"), dir("/cache/simple-v6/url/bbb")];
    listing.simple.index = vec![dir("/cache/simple-v6/index/ccc")];
    assert_eq!(
        CacheBucket::Simple.remove(&cache(), "foo", &listing),
        vec![
            "/cache/simple-v6/pypi/foo.rkyv",
            "/cache/simple-v6/url/aaa/foo.rkyv",
            "/cache/simple-v6/url/bbb/foo.rkyv",
        ]
    );
}

#[test]
fn the_flat_index_leaves_as_a_whole() {
    assert_eq!(
        CacheBucket::FlatIndex.remove(&cache(), "foo", &empty_cache()),
        vec!["/cache/flat-index-v0"]
    );
}

#[test]
fn buckets_without_packages_lose_nothing() {
    for bucket in [CacheBucket::Git, CacheBucket::Interpreter, CacheBucket::Archive] {
        assert!(bucket.remove(&cache(), "foo", &empty_cache()).is_empty());
    }
}

#[test]
fn a_removal_goes_through_the_buckets_in_order() {
    let mut listing = empty_cache();
    listing.wheels.url = vec![dir("/cache/wheels-v0/url/ccc")];
    listing.built_wheels.git = vec![source(
        "/cache/built-wheels-v2/git/r1",
        vec![build("/cache/built-wheels-v2/git/r1/sha1", Some("foo"))],
    )];
    listing.simple.url = vec![dir("/cache/simple-v6/url/ddd")];
    assert_eq!(
        cache().remove("foo", &listing),
        vec![
            "/cache/wheels-v0/pypi/foo",
            "/cache/wheels-v0/url/ccc/foo",
            "/cache/built-wheels-v2/pypi/foo",
            "/cache/built-wheels-v2/git/r1/sha1",
            "/cache/flat-index-v0",
            "/cache/simple-v6/pypi/foo.rkyv",
            "/cache/simple-v6/url/ddd/foo.rkyv",
        ]
    );
}

#[test]
fn a_removal_in_an_empty_cache_names_the_default_places() {
    assert_eq!(
        cache().remove("foo", &empty_cache()),
        vec![
            "/cache/wheels-v0/pypi/foo",
            "/cache/built-wheels-v2/pypi/foo",
            "/cache/flat-index-v0",
            "/cache/simple-v6/pypi/foo.rkyv",
        ]
    );
}

#[test]
fn each_bucket_says_what_to_list() {
    let plain = |kind| Scan { kind, builds: false };
    let deep = |kind| Scan { kind, builds: true };
    assert_eq!(
        CacheBucket::Wheels.removal_scan(),
        vec![plain(WheelCacheKind::Index), plain(WheelCacheKind::Url)]
    );
    assert_eq!(
        CacheBucket::BuiltWheels.removal_scan(),
        vec![
            plain(WheelCacheKind::Index),
            deep(WheelCacheKind::Url),
            deep(WheelCacheKind::Path),
            deep(WheelCacheKind::Git),
        ]
    );
    assert_eq!(CacheBucket::Simple.removal_scan(), vec![plain(WheelCacheKind::Url)]);
    for bucket in [
        CacheBucket::FlatIndex,
        CacheBucket::Git,
        CacheBucket::Interpreter,
        CacheBucket::Archive,
    ] {
        assert!(bucket.removal_scan().is_empty());
    }
}

#[test]
fn markers_are_told_by_name() {
    assert!(is_marker_name("CACHEDIR.TAG"));
    assert!(is_marker_name(".gitignore"));
    assert!(is_marker_name(".git"));
    assert!(!is_marker_name("cachedir.tag"));
    assert!(!is_marker_name(".gitattributes"));
    assert!(!is_marker_name(""));
}

#[test]
fn the_first_sweep_takes_what_has_no_place() {
    let entries = vec![
        entry("CACHEDIR.TAG", false),
        entry(".gitignore", false),
        entry(".git", true),
        entry("wheels-v0", true),
        entry("wheels-v1", true),
        entry("built-wheels-v2", true),
        entry("built-wheels-v1", true),
        entry("notes.txt", false),
        entry("archive-v0", true),
        entry("simple-v6", false),
    ];
    assert_eq!(
        sweep_root("/cache", &entries),
        vec![
            "/cache/wheels-v1",
            "/cache/built-wheels-v1",
            "/cache/notes.txt",
            "/cache/simple-v6",
        ]
    );
}

#[test]
fn what_dangles_is_told_entry_by_entry() {
    assert!(!entry("CACHEDIR.TAG", false).is_dangling());
    assert!(!entry(".git", true).is_dangling());
    assert!(!entry(".gitignore", true).is_dangling());
    assert!(!entry("git-v0", true).is_dangling());
    assert!(entry("git-v0", false).is_dangling());
    assert!(entry("git-v1", true).is_dangling());
    assert!(entry("loose", false).is_dangling());
}

#[test]
fn the_second_sweep_takes_the_archives_without_a_link() {
    let references = strings(&["/cache/archive-v0/A", "/cache/archive-v0/B"]);
    let archives = strings(&["/cache/archive-v0/A", "/cache/archive-v0/B", "/cache/archive-v0/C"]);
    assert_eq!(sweep_archives(&references, &archives), vec!["/cache/archive-v0/C"]);
    assert_eq!(sweep_archives(&Vec::new(), &archives), archives);
    assert!(sweep_archives(&references, &Vec::new()).is_empty());
    let twice = strings(&["/cache/archive-v0/B", "/cache/archive-v0/B", "/elsewhere"]);
    assert_eq!(
        sweep_archives(&twice, &archives),
        vec!["/cache/archive-v0/A", "/cache/archive-v0/C"]
    );
}

#[test]
fn a_prune_removes_the_one_archive_that_nothing_links_to() {
    let scan = CacheScan {
        root: vec![
            entry("CACHEDIR.TAG", false),
            entry(".gitignore", false),
            entry("wheels-v0", true),
            entry("built-wheels-v2", true),
            entry("archive-v0", true),
        ],
        references: strings(&["/cache/archive-v0/A", "/cache/archive-v0/B"]),
        archives: strings(&["/cache/archive-v0/A", "/cache/archive-v0/B", "/cache/archive-v0/C"]),
    };
    let targets = cache().prune(&scan);
    assert_eq!(targets, vec!["/cache/archive-v0/C"]);
    let mut summary = Removal::default();
    for _ in &targets {
        summary += Removal { num_files: 0, num_dirs: 1, total_bytes: 0 };
    }
    assert_eq!(summary.num_dirs, 1);
    assert!(!summary.is_empty());
}

#[test]
fn a_prune_sweeps_the_root_before_the_archives() {
    let scan = CacheScan {
        root: vec![entry("wheels-v0", true), entry("old-v0", true), entry("stray", false)],
        references: Vec::new(),
        archives: strings(&["/cache/archive-v0/A"]),
    };
    assert_eq!(
        cache().prune(&scan),
        vec!["/cache/old-v0", "/cache/stray", "/cache/archive-v0/A"]
    );
}

#[test]
fn a_second_prune_takes_nothing() {
    let first = CacheScan {
        root: vec![
            entry("CACHEDIR.TAG", false),
            entry("wheels-v0", true),
            entry("wheels-v9", true),
            entry("archive-v0", true),
            entry("stray", false),
        ],
        references: strings(&["/cache/archive-v0/A"]),
        archives: strings(&["/cache/archive-v0/A", "/cache/archive-v0/B"]),
    };
    let taken = cache().prune(&first);
    assert_eq!(taken, vec!["/cache/wheels-v9", "/cache/stray", "/cache/archive-v0/B"]);
    let second = CacheScan {
        root: first
            .root
            .iter()
            .filter(|entry| !taken.contains(&format!("/cache/{}", entry.name)))
            .cloned()
            .collect(),
        references: first.references.clone(),
        archives: first.archives.iter().filter(|path| !taken.contains(path)).cloned().collect(),
    };
    assert!(cache().prune(&second).is_empty());
    let mut summary = Removal::default();
    for _ in cache().prune(&second) {
        summary += Removal { num_files: 1, num_dirs: 1, total_bytes: 1 };
    }
    assert!(summary.is_empty());
    assert_eq!(summary, Removal::default());
}

#[test]
fn removals_add_up() {
    let mut summary = Removal::default();
    assert!(summary.is_empty());
    assert_eq!(summary, Removal { num_files: 0, num_dirs: 0, total_bytes: 0 });
    summary += Removal { num_files: 3, num_dirs: 1, total_bytes: 1024 };
    summary += Removal { num_files: 2, num_dirs: 4, total_bytes: 76 };
    assert_eq!(summary, Removal { num_files: 5, num_dirs: 5, total_bytes: 1100 });
    assert!(!summary.is_empty());
    summary += Removal::default();
    assert_eq!(summary, Removal { num_files: 5, num_dirs: 5, total_bytes: 1100 });
}

#[test]
fn a_removal_is_empty_without_files_and_directories() {
    assert!(Removal { num_files: 0, num_dirs: 0, total_bytes: 9 }.is_empty());
    assert!(!Removal { num_files: 1, num_dirs: 0, total_bytes: 0 }.is_empty());
    assert!(!Removal { num_files: 0, num_dirs: 1, total_bytes: 0 }.is_empty());
}

#[test]
fn a_sum_fits_up_to_the_largest_count() {
    let most = Removal { num_files: u64::MAX - 1, num_dirs: 0, total_bytes: u64::MAX };
    assert!(most.fits_with(&Removal { num_files: 1, num_dirs: u64::MAX, total_bytes: 0 }));
    assert!(!most.fits_with(&Removal { num_files: 2, num_dirs: 0, total_bytes: 0 }));
    assert!(!most.fits_with(&Removal { num_files: 0, num_dirs: 0, total_bytes: 1 }));
    let mut sum = most;
    sum += Removal { num_files: 1, num_dirs: u64::MAX, total_bytes: 0 };
    assert_eq!(sum, Removal { num_files: u64::MAX, num_dirs: u64::MAX, total_bytes: u64::MAX });
}
