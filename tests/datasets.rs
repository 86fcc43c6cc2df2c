use archv3::pack::image_url;
use archv3::datasets::{
    Category, ContentType, Dataset, DatasetMetadata, MetadataAttribute, RawDataset, Tag, summarize,
};
use archv3::pack::{
    PackBody, PackFetch, SyncError, descriptor_url, manifest_url, parse_size_hint, resolve_pack,
    snippet,
};

fn text(s: &str) -> String {
    s.to_string()
}

fn category(name: &str) -> Category {
    Category { content_type_id: text("ct"), name: text(name), slug: text(name), description: None }
}

fn tag(name: &str) -> Tag {
    Tag { content_type_id: text("ct"), name: text(name), slug: text(name), description: Some(text("d")) }
}

fn attribute(name: &str) -> MetadataAttribute {
    MetadataAttribute {
        content_type_id: text("ct"),
        name: text(name),
        attribute_type: text("string"),
        icon: None,
        order: 1,
        is_array: 0,
        filterable: 1,
        sortable: 0,
        description: text("an attribute"),
    }
}

fn descriptor(
    id: &str,
    categories: Vec<Category>,
    tags: Vec<Tag>,
    attributes: Vec<MetadataAttribute>,
    demo: Option<Vec<serde_json::Value>>,
) -> RawDataset {
    RawDataset {
        metadata: DatasetMetadata {
            id: text(id),
            title: text("Movies"),
            description: text("A movie pack"),
            author: text("someone"),
            updated_at: text("2024-01-01"),
            version: text("1.0.0"),
        },
        content_type: ContentType {
            name: text("Movies"),
            slug: text("movies"),
            shape: text("card"),
            file_type: text("video"),
            description: text("Films"),
            cover: None,
            icon: Some(text("film")),
            order: Some(3),
            pinned: 0,
            docked: 1,
            locked: 0,
        },
        categories,
        tags,
        content_metadata_attributes: attributes,
        demo_data: demo,
    }
}

fn plain(id: &str) -> RawDataset {
    descriptor(id, vec![category("a")], vec![], vec![attribute("x")], None)
}

#[test]
fn summary_counts_nested_sequences() {
    let raw = descriptor("foo", vec![category("a"), category("b")], vec![tag("x")], vec![], None);
    let d: Dataset = summarize(raw, 1000);
    assert_eq!(d.categories_count, 2);
    assert_eq!(d.tags_count, 1);
    assert_eq!(d.metadata_attributes_count, 0);
    assert_eq!(d.demo_data_count, 0);
    assert_eq!(d.size, 1000);
    assert_eq!(d.id, "foo");
    assert_eq!(d.title, "Movies");
    assert_eq!(d.version, "1.0.0");
    assert_eq!(d.json.categories.len(), 2);
}

#[test]
fn summary_counts_demo_entries() {
    let demo = vec![serde_json::Value::Null, serde_json::Value::Bool(true), serde_json::Value::from(3)];
    let raw = descriptor("foo", vec![], vec![tag("x"), tag("y")], vec![attribute("a"), attribute("b")], Some(demo));
    let d = summarize(raw, 0);
    assert_eq!(d.demo_data_count, 3);
    assert_eq!(d.tags_count, 2);
    assert_eq!(d.metadata_attributes_count, 2);
    assert_eq!(d.json.demo_data.as_ref().map(|v| v.len()), Some(3));
}

#[test]
fn summary_of_empty_demo_is_zero() {
    let d = summarize(descriptor("foo", vec![], vec![], vec![], Some(vec![])), 5);
    assert_eq!(d.demo_data_count, 0);
    assert_eq!(d.categories_count, 0);
}

#[test]
fn size_hint_parses_decimal() {
    assert_eq!(parse_size_hint("1000"), 1000);
    assert_eq!(parse_size_hint("0"), 0);
    assert_eq!(parse_size_hint("+42"), 42);
    assert_eq!(parse_size_hint("007"), 7);
    assert_eq!(parse_size_hint("18446744073709551615"), u64::MAX);
}

#[test]
fn size_hint_rejects_non_numbers() {
    assert_eq!(parse_size_hint(""), 0);
    assert_eq!(parse_size_hint("+"), 0);
    assert_eq!(parse_size_hint("-5"), 0);
    assert_eq!(parse_size_hint("12a"), 0);
    assert_eq!(parse_size_hint(" 12"), 0);
    assert_eq!(parse_size_hint("18446744073709551616"), 0);
    assert_eq!(parse_size_hint("99999999999999999999999"), 0);
}

#[test]
fn snippet_keeps_first_five_hundred_chars() {
    let long: String = "é".repeat(600);
    let s = snippet(&long);
    assert_eq!(s.chars().count(), 500);
    assert_eq!(s, "é".repeat(500));
    assert_eq!(snippet("short body"), "short body");
    assert_eq!(snippet(""), "");
}

#[test]
fn urls_follow_repository_layout() {
    assert_eq!(
        manifest_url(),
        "https://raw.githubusercontent.com/7otion/archv3-datasets/master/datasets.json"
    );
    assert_eq!(
        descriptor_url("foo"),
        "https://raw.githubusercontent.com/7otion/archv3-datasets/master/datasets/foo/foo-dataset.json"
    );
}

#[test]
fn pack_with_size_hint_is_summarised() {
    let f = PackFetch::Received {
        status: 200,
        reason: Some(text("OK")),
        size_header: Some(text("1000")),
        body: PackBody::Parsed(plain("foo")),
    };
    match resolve_pack(text("foo"), f) {
        Ok(d) => {
            assert_eq!(d.size, 1000);
            assert_eq!(d.id, "foo");
            assert_eq!(d.categories_count, 1);
        }
        Err(_) => panic!("expected a summary"),
    }
}

#[test]
fn pack_without_size_hint_has_zero_size() {
    let f = PackFetch::Received { status: 200, reason: None, size_header: None, body: PackBody::Parsed(plain("foo")) };
    match resolve_pack(text("foo"), f) {
        Ok(d) => assert_eq!(d.size, 0),
        Err(_) => panic!("expected a summary"),
    }
}

#[test]
fn pack_with_unparseable_size_hint_has_zero_size() {
    let f = PackFetch::Received {
        status: 204,
        reason: None,
        size_header: Some(text("lots")),
        body: PackBody::Parsed(plain("foo")),
    };
    match resolve_pack(text("foo"), f) {
        Ok(d) => assert_eq!(d.size, 0),
        Err(_) => panic!("expected a summary"),
    }
}

#[test]
fn pack_with_error_status_fails() {
    let f = PackFetch::Received {
        status: 404,
        reason: Some(text("Not Found")),
        size_header: Some(text("10")),
        body: PackBody::Parsed(plain("bar")),
    };
    match resolve_pack(text("bar"), f) {
        Err(SyncError::HttpStatus { slug, status, reason }) => {
            assert_eq!(slug, "bar");
            assert_eq!(status, 404);
            assert_eq!(reason.as_deref(), Some("Not Found"));
        }
        _ => panic!("expected a status error"),
    }
}

#[test]
fn pack_with_malformed_body_fails_with_snippet() {
    let body = "x".repeat(700);
    let f = PackFetch::Received {
        status: 200,
        reason: None,
        size_header: None,
        body: PackBody::Malformed { text: body, message: text("expected value") },
    };
    match resolve_pack(text("foo"), f) {
        Err(SyncError::Parse { slug, snippet, message }) => {
            assert_eq!(slug.as_deref(), Some("foo"));
            assert_eq!(snippet, "x".repeat(500));
            assert_eq!(message, "expected value");
        }
        _ => panic!("expected a parse error"),
    }
}

#[test]
fn pack_transport_failures_are_network_errors() {
    match resolve_pack(text("foo"), PackFetch::SendFailed { message: text("timed out") }) {
        Err(SyncError::Network { slug, message }) => {
            assert_eq!(slug.as_deref(), Some("foo"));
            assert_eq!(message, "timed out");
        }
        _ => panic!("expected a network error"),
    }
    let f = PackFetch::Received {
        status: 200,
        reason: None,
        size_header: None,
        body: PackBody::Unreadable { message: text("reset") },
    };
    assert!(matches!(resolve_pack(text("foo"), f), Err(SyncError::Network { .. })));
    match resolve_pack(text("foo"), PackFetch::Aborted { message: text("panicked") }) {
        Err(SyncError::Task { message }) => assert_eq!(message, "panicked"),
        _ => panic!("expected a task error"),
    }
}

#[test]
fn image_url_uses_slug_before_first_dash() {
    assert_eq!(
        image_url("movies-cover-1.webp"),
        "https://raw.githubusercontent.com/7otion/archv3-datasets/master/datasets/movies/movies-cover-1.webp"
    );
    assert_eq!(
        image_url("plain.png"),
        "https://raw.githubusercontent.com/7otion/archv3-datasets/master/datasets/plain.png/plain.png"
    );
    assert_eq!(
        image_url("-x"),
        "https://raw.githubusercontent.com/7otion/archv3-datasets/master/datasets//-x"
    );
}
