use archv3::cache::is_cache_valid;
use archv3::datasets::{ContentType, Dataset, DatasetMetadata, RawDataset, summarize};
use archv3::pack::{PackBody, PackFetch, SyncError};
use archv3::sync::{Phase, SyncAction, SyncEvent, SyncSession};

fn text(s: &str) -> String {
    s.to_string()
}

fn plain(id: &str) -> RawDataset {
    RawDataset {
        metadata: DatasetMetadata {
            id: text(id),
            title: text(id),
            description: text(""),
            author: text("a"),
            updated_at: text("2024-05-01"),
            version: text("2"),
        },
        content_type: ContentType {
            name: text("Books"),
            slug: text("books"),
            shape: text("list"),
            file_type: text("document"),
            description: text(""),
            cover: None,
            icon: None,
            order: None,
            pinned: 0,
            docked: 0,
            locked: 1,
        },
        categories: vec![],
        tags: vec![],
        content_metadata_attributes: vec![],
        demo_data: None,
    }
}

fn ok_pack(id: &str, size: Option<&str>) -> PackFetch {
    PackFetch::Received {
        status: 200,
        reason: Some(text("OK")),
        size_header: size.map(text),
        body: PackBody::Parsed(plain(id)),
    }
}

fn is_request(a: &SyncAction) -> bool {
    matches!(a, SyncAction::FetchManifest(_) | SyncAction::FetchPacks(_))
}

fn step(s: SyncSession, e: SyncEvent) -> (SyncSession, SyncAction) {
    assert!(s.accepts(&e));
    s.step(e)
}

#[test]
fn cache_freshness_window() {
    assert!(is_cache_valid(Some(0)));
    assert!(is_cache_valid(Some(3599)));
    assert!(!is_cache_valid(Some(3600)));
    assert!(!is_cache_valid(Some(7200)));
    assert!(!is_cache_valid(None));
}

#[test]
fn fresh_cache_is_served_without_requests() {
    let cached: Vec<Dataset> = vec![summarize(plain("foo"), 12), summarize(plain("bar"), 0)];
    let (s, a) = SyncSession::start(false);
    assert!(matches!(a, SyncAction::ReadCacheAge));
    let (s, a) = step(s, SyncEvent::CacheAge(Some(120)));
    assert!(matches!(a, SyncAction::LoadCache));
    let (s, a) = step(s, SyncEvent::CacheLoaded(Some(cached)));
    assert!(s.phase() == Phase::Finished);
    match a {
        SyncAction::Complete { datasets, persist } => {
            assert!(!persist);
            assert_eq!(datasets.len(), 2);
            assert_eq!(datasets[0].id, "foo");
            assert_eq!(datasets[0].size, 12);
            assert_eq!(datasets[1].id, "bar");
        }
        _ => panic!("expected the cached summaries"),
    }
}

#[test]
fn stale_cache_refreshes_everything() {
    let (s, _) = SyncSession::start(false);
    let (s, a) = step(s, SyncEvent::CacheAge(Some(3600)));
    let mut requests = 0;
    match &a {
        SyncAction::FetchManifest(url) => {
            requests += 1;
            assert_eq!(url, "https://raw.githubusercontent.com/7otion/archv3-datasets/master/datasets.json");
        }
        _ => panic!("expected the manifest request"),
    }
    let (s, a) = step(s, SyncEvent::ManifestFetched(Ok(vec![text("foo"), text("bar")])));
    match &a {
        SyncAction::FetchPacks(urls) => {
            requests += urls.len();
            assert_eq!(urls.len(), 2);
            assert!(urls[0].ends_with("/datasets/foo/foo-dataset.json"));
            assert!(urls[1].ends_with("/datasets/bar/bar-dataset.json"));
        }
        _ => panic!("expected the descriptor requests"),
    }
    let (s, a) = step(s, SyncEvent::PackFetched(ok_pack("foo", Some("1000"))));
    assert!(matches!(a, SyncAction::AwaitPack));
    assert!(!is_request(&a));
    let (s, a) = step(s, SyncEvent::PackFetched(ok_pack("bar", None)));
    assert!(s.phase() == Phase::Finished);
    assert_eq!(requests, 3);
    match a {
        SyncAction::Complete { datasets, persist } => {
            assert!(persist);
            assert_eq!(datasets.len(), 2);
            assert_eq!(datasets[0].id, "foo");
            assert_eq!(datasets[0].size, 1000);
            assert_eq!(datasets[1].id, "bar");
            assert_eq!(datasets[1].size, 0);
        }
        _ => panic!("expected fresh summaries"),
    }
}

#[test]
fn forced_run_skips_the_cache() {
    let (_, a) = SyncSession::start(true);
    assert!(matches!(a, SyncAction::FetchManifest(_)));
}

#[test]
fn absent_cache_refreshes() {
    let (s, _) = SyncSession::start(false);
    let (_, a) = step(s, SyncEvent::CacheAge(None));
    assert!(matches!(a, SyncAction::FetchManifest(_)));
}

#[test]
fn unreadable_cache_is_a_miss() {
    let (s, _) = SyncSession::start(false);
    let (s, a) = step(s, SyncEvent::CacheAge(Some(10)));
    assert!(matches!(a, SyncAction::LoadCache));
    let (_, a) = step(s, SyncEvent::CacheLoaded(None));
    assert!(matches!(a, SyncAction::FetchManifest(_)));
}

#[test]
fn failing_pack_fails_the_run_without_cache_write() {
    let (s, _) = SyncSession::start(true);
    let (s, _) = step(s, SyncEvent::ManifestFetched(Ok(vec![text("foo"), text("bar")])));
    let (s, a) = step(s, SyncEvent::PackFetched(ok_pack("foo", Some("1000"))));
    assert!(matches!(a, SyncAction::AwaitPack));
    let not_found = PackFetch::Received {
        status: 404,
        reason: Some(text("Not Found")),
        size_header: None,
        body: PackBody::Unreadable { message: text("no body") },
    };
    let (s, a) = step(s, SyncEvent::PackFetched(not_found));
    assert!(s.phase() == Phase::Finished);
    match a {
        SyncAction::Fail(SyncError::HttpStatus { slug, status, .. }) => {
            assert_eq!(slug, "bar");
            assert_eq!(status, 404);
        }
        _ => panic!("expected the status error of bar"),
    }
}

#[test]
fn first_failure_in_manifest_order_wins() {
    let (s, _) = SyncSession::start(true);
    let (s, _) = step(s, SyncEvent::ManifestFetched(Ok(vec![text("foo"), text("bar")])));
    let (s, a) = step(s, SyncEvent::PackFetched(PackFetch::SendFailed { message: text("refused") }));
    assert!(s.phase() == Phase::Finished);
    match a {
        SyncAction::Fail(SyncError::Network { slug, .. }) => assert_eq!(slug.as_deref(), Some("foo")),
        _ => panic!("expected the network error of foo"),
    }
    assert!(!s.accepts(&SyncEvent::PackFetched(ok_pack("bar", None))));
}

#[test]
fn manifest_failure_fails_the_run() {
    let (s, _) = SyncSession::start(true);
    let err = SyncError::Network { slug: None, message: text("dns") };
    let (_, a) = step(s, SyncEvent::ManifestFetched(Err(err)));
    assert!(matches!(a, SyncAction::Fail(SyncError::Network { slug: None, .. })));
}

#[test]
fn empty_manifest_completes_with_no_summaries() {
    let (s, _) = SyncSession::start(true);
    let (_, a) = step(s, SyncEvent::ManifestFetched(Ok(vec![])));
    match a {
        SyncAction::Complete { datasets, persist } => {
            assert!(datasets.is_empty());
            assert!(persist);
        }
        _ => panic!("expected an empty result"),
    }
}

#[test]
fn duplicate_slugs_are_fetched_twice() {
    let (s, _) = SyncSession::start(true);
    let (s, a) = step(s, SyncEvent::ManifestFetched(Ok(vec![text("foo"), text("foo")])));
    match &a {
        SyncAction::FetchPacks(urls) => assert_eq!(urls.len(), 2),
        _ => panic!("expected two requests"),
    }
    let (s, _) = step(s, SyncEvent::PackFetched(ok_pack("foo", None)));
    let (_, a) = step(s, SyncEvent::PackFetched(ok_pack("foo", None)));
    match a {
        SyncAction::Complete { datasets, .. } => assert_eq!(datasets.len(), 2),
        _ => panic!("expected two summaries"),
    }
}

#[test]
fn events_out_of_turn_are_refused() {
    let (s, _) = SyncSession::start(false);
    assert!(!s.accepts(&SyncEvent::ManifestFetched(Ok(vec![]))));
    assert!(s.accepts(&SyncEvent::CacheAge(None)));
}
