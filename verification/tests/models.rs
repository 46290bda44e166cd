use derpiboorust::models::Gallery;
use derpiboorust::error::classify_status;
use derpiboorust::{ApiError, Id, Timestamp};

#[test]
fn error_kinds_have_fixed_descriptions() {
    assert_eq!(ApiError::MalformedUrl.kind_str(), "malformed url");
    assert_eq!(ApiError::HttpStatus(404).kind_str(), "http status error");
    assert_eq!(ApiError::Transport.kind_str(), "transport error");
    assert_eq!(
        ApiError::Deserialization(String::from("uploader_id")).kind_str(),
        "deserialization error"
    );
}

#[test]
fn status_classification() {
    assert_eq!(classify_status(200), None);
    assert_eq!(classify_status(301), None);
    assert_eq!(classify_status(399), None);
    assert_eq!(classify_status(400), Some(ApiError::HttpStatus(400)));
    assert_eq!(classify_status(404), Some(ApiError::HttpStatus(404)));
    assert_eq!(classify_status(500), Some(ApiError::HttpStatus(500)));
    assert_eq!(classify_status(599), Some(ApiError::HttpStatus(599)));
    assert_eq!(classify_status(600), None);
}

#[test]
fn gallery_record_is_plain_data() {
    let at = Timestamp { unix_secs: 1_546_300_800, subsec_nanos: 0 };
    let g = Gallery {
        id: 2683,
        title: String::from("Best of Blossomforth"),
        description: String::new(),
        spoiler_warning: String::new(),
        created_at: at,
        updated_at: at,
        creator_id: 216_494,
        watcher_count: 3,
        image_count: 2,
        image_ids: Some(vec![1941825, 1941824]),
    };
    assert_eq!(g.id, 2683);
    assert_eq!(g.created_at, g.updated_at);
    assert_eq!(g.image_ids.as_deref(), Some(&[1941825u64, 1941824][..]));
}

#[test]
fn ids_compare_by_value() {
    let a = Id(1941825);
    let b = Id(1941825);
    assert_eq!(a, b);
    assert_ne!(Id(1), Id(2));
}
