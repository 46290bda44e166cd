use derpiboorust::{ApiError, UrlBuilder};

#[test]
fn builder_joins_origin_path_and_pairs_in_order() {
    let mut b = UrlBuilder::create("lists.json");
    assert!(b.is_empty());
    b.append("page", String::from("2"));
    b.append("last", String::from("2 w"));
    assert!(!b.is_empty());
    assert_eq!(
        b.finalize().unwrap().as_str(),
        "https://derpibooru.org/lists.json?page=2&last=2+w"
    );
}

#[test]
fn builder_with_no_pairs_emits_no_separator() {
    let b = UrlBuilder::create("lists.json");
    assert_eq!(
        b.finalize().unwrap().as_str(),
        "https://derpibooru.org/lists.json"
    );
}

#[test]
fn builder_rejects_malformed_paths() {
    assert_eq!(
        UrlBuilder::create("no spaces").finalize().unwrap_err(),
        ApiError::MalformedUrl
    );
    assert_eq!(
        UrlBuilder::create("").finalize().unwrap_err(),
        ApiError::MalformedUrl
    );
    assert_eq!(
        UrlBuilder::create("a#b").finalize().unwrap_err(),
        ApiError::MalformedUrl
    );
    assert_eq!(
        UrlBuilder::create("a?b").finalize().unwrap_err(),
        ApiError::MalformedUrl
    );
}
