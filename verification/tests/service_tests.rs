use search_tiers::Error;
use search_tiers::default_limit;
use search_tiers::default_search_field_names;
use search_tiers::merge::Hit;
use search_tiers::merge::merge_hits;
use search_tiers::merge::top_hits;
use search_tiers::service::SearchService;
use search_tiers::SearchQuery;

fn make_doc(id: &str, title: &str, overview: &str) -> String {
    format!(
        "{{\"id\":\"{}\",\"title\":\"{}\",\"poster\":\"poster-{}\",\"overview\":\"{}\",\"release_date\":874000000}}",
        id, title, id, overview
    )
}

fn doc_id(hit: &Hit) -> String {
    let value: serde_json::Value = serde_json::from_str(&hit.doc).expect("hit doc is json");
    value["id"][0].as_str().expect("id field").to_string()
}

#[test]
fn three_documents_unique_title() {
    let dir = tempfile::tempdir().unwrap();
    let mut svc = SearchService::new(dir.path().to_str().unwrap()).unwrap();
    assert_eq!(svc.flush_threshold(), 5000);
    svc.add_doc(&make_doc("1", "The Matrix", "a hacker discovers reality")).unwrap();
    svc.add_doc(&make_doc("2", "Inception zebra", "dreams within dreams")).unwrap();
    svc.add_doc(&make_doc("3", "Alien", "a crew meets a stowaway")).unwrap();
    assert_eq!(svc.mutable_count(), 3);
    let hits = svc.search("zebra", 0, 20).unwrap();
    assert_eq!(hits.len(), 1);
    assert_eq!(doc_id(&hits[0]), "2");
}

#[test]
fn add_then_search_finds_document_after_flush() {
    let dir = tempfile::tempdir().unwrap();
    let mut svc = SearchService::with_threshold(dir.path().to_str().unwrap(), 2).unwrap();
    svc.add_doc(&make_doc("1", "Solaris", "an ocean that thinks")).unwrap();
    svc.add_doc(&make_doc("2", "Stalker", "a guide into the zone")).unwrap();
    // the threshold was reached: both documents now live in the immutable tier
    svc.add_doc(&make_doc("3", "Mirror", "memories of a poet")).unwrap();
    let flushed = svc.search("ocean", 0, 20).unwrap();
    assert_eq!(flushed.len(), 1);
    assert_eq!(doc_id(&flushed[0]), "1");
    let fresh = svc.search("poet", 0, 20).unwrap();
    assert_eq!(fresh.len(), 1);
    assert_eq!(doc_id(&fresh[0]), "3");
}

#[test]
fn flush_below_threshold_never_fires() {
    let dir = tempfile::tempdir().unwrap();
    let mut svc = SearchService::with_threshold(dir.path().to_str().unwrap(), 3).unwrap();
    svc.add_doc(&make_doc("1", "One", "first")).unwrap();
    svc.add_doc(&make_doc("2", "Two", "second")).unwrap();
    assert_eq!(svc.mutable_count(), 2);
    assert_eq!(svc.immutable_count().unwrap(), 0);
}

#[test]
fn flush_at_threshold_migrates_all() {
    let dir = tempfile::tempdir().unwrap();
    let mut svc = SearchService::with_threshold(dir.path().to_str().unwrap(), 3).unwrap();
    svc.add_doc(&make_doc("1", "One", "first")).unwrap();
    svc.add_doc(&make_doc("2", "Two", "second")).unwrap();
    svc.add_doc(&make_doc("3", "Three", "third")).unwrap();
    assert_eq!(svc.mutable_count(), 0);
    assert_eq!(svc.immutable_count().unwrap(), 3);
}

#[test]
fn adds_multiple_of_threshold_leave_log_empty() {
    let dir = tempfile::tempdir().unwrap();
    let path = dir.path().to_str().unwrap().to_string();
    let mut svc = SearchService::with_threshold(&path, 2).unwrap();
    svc.add_doc(&make_doc("1", "One", "first")).unwrap();
    svc.add_doc(&make_doc("2", "Two", "second")).unwrap();
    svc.add_doc(&make_doc("3", "Three", "third")).unwrap();
    svc.add_doc(&make_doc("4", "Four", "fourth")).unwrap();
    assert_eq!(svc.mutable_count(), 0);
    assert_eq!(svc.immutable_count().unwrap(), 4);
    drop(svc);
    // an empty log replays into an empty mutable tier
    let reopened = SearchService::with_threshold(&path, 2).unwrap();
    assert_eq!(reopened.mutable_count(), 0);
    assert_eq!(reopened.immutable_count().unwrap(), 4);
}

#[test]
fn restart_recovery_replays_log() {
    let dir = tempfile::tempdir().unwrap();
    let path = dir.path().to_str().unwrap().to_string();
    let mut svc = SearchService::new(&path).unwrap();
    svc.add_doc(&make_doc("1", "Gattaca albatross", "a borrowed ladder")).unwrap();
    svc.add_doc(&make_doc("2", "Moon", "two weeks to go")).unwrap();
    assert_eq!(svc.mutable_count(), 2);
    drop(svc);
    let reopened = SearchService::new(&path).unwrap();
    assert_eq!(reopened.mutable_count(), 2);
    assert_eq!(reopened.immutable_count().unwrap(), 0);
    let hits = reopened.search("albatross", 0, 20).unwrap();
    assert_eq!(hits.len(), 1);
    assert_eq!(doc_id(&hits[0]), "1");
}

#[test]
fn merge_orders_hits_by_score() {
    let mem = vec![
        Hit { score: (0.9f32).to_bits(), doc: String::from("m1") },
        Hit { score: (0.5f32).to_bits(), doc: String::from("m2") },
    ];
    let disk = vec![
        Hit { score: (0.8f32).to_bits(), doc: String::from("d1") },
        Hit { score: (0.3f32).to_bits(), doc: String::from("d2") },
    ];
    let merged = merge_hits(mem, disk, 3);
    let scores: Vec<f32> = merged.iter().map(|h| f32::from_bits(h.score)).collect();
    assert_eq!(scores, vec![0.9, 0.8, 0.5]);
}

#[test]
fn merge_caps_at_limit() {
    let mem = vec![Hit { score: (0.9f32).to_bits(), doc: String::from("m1") }];
    let disk = vec![Hit { score: (0.8f32).to_bits(), doc: String::from("d1") }];
    let merged = merge_hits(mem, disk, 1);
    assert_eq!(merged.len(), 1);
    assert_eq!(merged[0].score, (0.9f32).to_bits());
    assert_eq!(merged[0].doc, "m1");
}

#[test]
fn merge_of_empty_lists_is_empty() {
    let merged = merge_hits(Vec::new(), Vec::new(), 5);
    assert!(merged.is_empty());
}

#[test]
fn top_hits_keeps_ties_and_order() {
    let items = vec![
        Hit { score: 7, doc: String::from("a") },
        Hit { score: 9, doc: String::from("b") },
        Hit { score: 7, doc: String::from("c") },
    ];
    let top = top_hits(items, 3);
    let scores: Vec<u32> = top.iter().map(|h| h.score).collect();
    assert_eq!(scores, vec![9, 7, 7]);
}

#[test]
fn post_flush_mutable_tier_is_empty() {
    let dir = tempfile::tempdir().unwrap();
    let mut svc = SearchService::with_threshold(dir.path().to_str().unwrap(), 2).unwrap();
    svc.add_doc(&make_doc("1", "Arrival heptapod", "language of time")).unwrap();
    svc.add_doc(&make_doc("2", "Contact", "a signal from vega")).unwrap();
    assert_eq!(svc.mutable_count(), 0);
    let direct = svc.search_mutable("heptapod", 0, 20).unwrap();
    assert!(direct.is_empty());
    let merged = svc.search("heptapod", 0, 20).unwrap();
    assert_eq!(merged.len(), 1);
    assert_eq!(doc_id(&merged[0]), "1");
}

#[test]
fn malformed_document_is_rejected_unchanged() {
    let dir = tempfile::tempdir().unwrap();
    let mut svc = SearchService::new(dir.path().to_str().unwrap()).unwrap();
    let err = svc.add_doc("this is not a document").unwrap_err();
    assert_eq!(err, Error::MalformedDocument);
    assert_eq!(svc.mutable_count(), 0);
    assert_eq!(svc.immutable_count().unwrap(), 0);
}

#[test]
fn invalid_query_is_rejected() {
    let dir = tempfile::tempdir().unwrap();
    let mut svc = SearchService::new(dir.path().to_str().unwrap()).unwrap();
    svc.add_doc(&make_doc("1", "Brazil", "a clerical error")).unwrap();
    let err = svc.search("release_date:\"abc\"", 0, 20).unwrap_err();
    assert_eq!(err, Error::QueryParseError);
}

#[test]
fn limit_zero_returns_no_hits() {
    let dir = tempfile::tempdir().unwrap();
    let mut svc = SearchService::new(dir.path().to_str().unwrap()).unwrap();
    svc.add_doc(&make_doc("1", "Brazil", "a clerical error")).unwrap();
    let hits = svc.search("brazil", 0, 0).unwrap();
    assert!(hits.is_empty());
}

#[test]
fn default_limit_is_twenty() {
    assert_eq!(default_limit(), 20);
}

#[test]
fn default_search_fields_are_title_and_overview() {
    let names = default_search_field_names();
    assert_eq!(names, vec![String::from("title"), String::from("overview")]);
}

#[test]
fn search_query_carries_fields() {
    let query = SearchQuery { query: String::from("morpheus"), offset: 0, limit: default_limit() };
    assert_eq!(query.query, "morpheus");
    assert_eq!(query.offset, 0);
    assert_eq!(query.limit, 20);
}

#[test]
fn storage_error_on_missing_directory() {
    let dir = tempfile::tempdir().unwrap();
    let missing = dir.path().join("absent").join("deeper");
    let err = match SearchService::new(missing.to_str().unwrap()) {
        Ok(_) => panic!("opening a missing directory must fail"),
        Err(e) => e,
    };
    assert_eq!(err, Error::StorageIo);
}

#[test]
fn fresh_directory_starts_empty() {
    let dir = tempfile::tempdir().unwrap();
    let svc = SearchService::new(dir.path().to_str().unwrap()).unwrap();
    assert!(svc.opened_fresh());
    assert_eq!(svc.mutable_count(), 0);
    assert_eq!(svc.immutable_count().unwrap(), 0);
}

#[test]
fn reopened_directory_is_not_fresh() {
    let dir = tempfile::tempdir().unwrap();
    let path = dir.path().to_str().unwrap().to_string();
    let mut svc = SearchService::new(&path).unwrap();
    svc.add_doc(&make_doc("1", "Metropolis", "a city of machines")).unwrap();
    drop(svc);
    let reopened = SearchService::new(&path).unwrap();
    assert!(!reopened.opened_fresh());
    assert_eq!(reopened.mutable_count(), 1);
}

#[test]
fn repeated_search_is_deterministic_and_offset_blind() {
    let dir = tempfile::tempdir().unwrap();
    let mut svc = SearchService::new(dir.path().to_str().unwrap()).unwrap();
    svc.add_doc(&make_doc("1", "Sunshine", "a payload to the sun")).unwrap();
    svc.add_doc(&make_doc("2", "Sunshine again", "the sun reborn")).unwrap();
    let first = svc.search("sunshine", 0, 20).unwrap();
    let second = svc.search("sunshine", 0, 20).unwrap();
    let offset_shifted = svc.search("sunshine", 7, 20).unwrap();
    assert_eq!(first, second);
    // the offset is accepted but not applied: a documented limitation
    assert_eq!(first, offset_shifted);
    assert_eq!(first.len(), 2);
}

#[test]
fn limit_zero_invalid_query_still_rejected() {
    let dir = tempfile::tempdir().unwrap();
    let svc = SearchService::new(dir.path().to_str().unwrap()).unwrap();
    let err = svc.search("release_date:\"abc\"", 0, 0).unwrap_err();
    assert_eq!(err, Error::QueryParseError);
}
