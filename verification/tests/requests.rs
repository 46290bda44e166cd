use derpiboorust::{Bound, Galleries, Gallery, Image, Images, Lists, Order, Request, Search, Watched};
use url::Url;

#[test]
fn search_request() {
    let req = Search::new("luna, safe")
        .page(2)
        .min_score(42)
        .max_score(322)
        .perpage(5)
        .key("qwezxc123")
        .build()
        .unwrap();

    let expected = Url::parse_with_params(
        "https://derpibooru.org/search.json",
        &[
            ("q", "luna, safe"),
            ("page", "2"),
            ("min_score", "42"),
            ("max_score", "322"),
            ("perpage", "5"),
            ("key", "qwezxc123"),
        ],
    )
    .unwrap();

    assert_eq!(req.as_str(), expected.as_str());
}

#[test]
fn image_request() {
    let req = Image::new(1941825).build().unwrap();
    let expected = Url::parse("https://derpibooru.org/1941825.json").unwrap();

    assert_eq!(req.as_str(), expected.as_str());
}

#[test]
fn gallery_request() {
    let req = Gallery::new("Blossomforth", 2683).page(2).build().unwrap();
    let expected = Url::parse_with_params(
        "https://derpibooru.org/galleries/Blossomforth/2683.json",
        &[("page", "2")],
    )
    .unwrap();

    assert_eq!(req.as_str(), expected.as_str());
}

#[test]
fn galleries_request() {
    let req = Galleries::new("Blossomforth")
        .page(2)
        .include_images()
        .build()
        .unwrap();

    let expected = Url::parse_with_params(
        "https://derpibooru.org/galleries/Blossomforth.json",
        &[("page", "2"), ("include_images", "true")],
    )
    .unwrap();

    assert_eq!(req.as_str(), expected.as_str());
}

#[test]
fn images_request() {
    let req = Images::new()
        .constraint("id")
        .constraint_bound(Bound::Gte("1941825"))
        .constraint_order(Order::Descending)
        .page(2)
        .random()
        .build()
        .unwrap();

    let expected = Url::parse_with_params(
        "https://derpibooru.org/images.json",
        &[
            ("constraint", "id"),
            ("gte", "1941825"),
            ("order", "d"),
            ("page", "2"),
            ("random", "true"),
        ],
    )
    .unwrap();

    assert_eq!(req.as_str(), expected.as_str());
}

#[test]
fn watched_request() {
    let req = Watched::new("qwezxc123")
        .constraint("id")
        .constraint_bound(Bound::Gte("1941825"))
        .constraint_order(Order::Descending)
        .page(2)
        .random()
        .build()
        .unwrap();

    let expected = Url::parse_with_params(
        "https://derpibooru.org/images/watched.json",
        &[
            ("key", "qwezxc123"),
            ("constraint", "id"),
            ("gte", "1941825"),
            ("order", "d"),
            ("page", "2"),
            ("random", "true"),
        ],
    )
    .unwrap();

    assert_eq!(req.as_str(), expected.as_str());
}

#[test]
fn lists_request() {
    let req = Lists::new().page(2).last("2w").build().unwrap();
    let expected = Url::parse_with_params(
        "https://derpibooru.org/lists.json",
        &[("page", "2"), ("last", "2w")],
    )
    .unwrap();

    assert_eq!(req.as_str(), expected.as_str());
}

#[test]
fn default_builds_have_no_query_component() {
    assert_eq!(
        Image::new(1941825).build().unwrap().as_str(),
        "https://derpibooru.org/1941825.json"
    );
    assert_eq!(
        Images::new().build().unwrap().as_str(),
        "https://derpibooru.org/images.json"
    );
    assert_eq!(
        Lists::new().build().unwrap().as_str(),
        "https://derpibooru.org/lists.json"
    );
    assert_eq!(
        Gallery::new("Blossomforth", 2683).build().unwrap().as_str(),
        "https://derpibooru.org/galleries/Blossomforth/2683.json"
    );
    assert_eq!(
        Galleries::new("Blossomforth").build().unwrap().as_str(),
        "https://derpibooru.org/galleries/Blossomforth.json"
    );
    assert!(!Images::new().build().unwrap().as_str().contains('?'));
}

#[test]
fn build_is_idempotent() {
    let req = Search::new("luna, safe").page(2).key("qwezxc123");
    let first = req.build().unwrap().into_string();
    let second = req.build().unwrap().into_string();
    assert_eq!(first, second);

    let watched = Watched::new("k").constraint("id").random();
    assert_eq!(
        watched.build().unwrap().as_str(),
        watched.build().unwrap().as_str()
    );
}

#[test]
fn query_values_are_form_encoded() {
    let req = Search::new("a b").build().unwrap();
    assert_eq!(
        req.as_str(),
        "https://derpibooru.org/search.json?q=a+b"
    );

    let req = Search::new("100%").build().unwrap();
    assert_eq!(
        req.as_str(),
        "https://derpibooru.org/search.json?q=100%25"
    );

    let req = Lists::new().last("2w&x=1").build().unwrap();
    assert_eq!(
        req.as_str(),
        "https://derpibooru.org/lists.json?last=2w%26x%3D1"
    );
}

#[test]
fn unescaped_username_is_rejected() {
    let err = Galleries::new("bad user").build().unwrap_err();
    assert_eq!(err, derpiboorust::ApiError::MalformedUrl);
    assert_eq!(err.kind_str(), "malformed url");

    let err = Gallery::new("caf\u{e9}", 1).build().unwrap_err();
    assert_eq!(err, derpiboorust::ApiError::MalformedUrl);

    // A pre-escaped username passes through verbatim.
    let req = Galleries::new("caf%C3%A9").build().unwrap();
    assert_eq!(
        req.as_str(),
        "https://derpibooru.org/galleries/caf%C3%A9.json"
    );
}

#[test]
fn bound_and_order_wire_codes() {
    assert_eq!(Bound::Gt("1").query_pair(), ("gt", "1"));
    assert_eq!(Bound::Gte("2").query_pair(), ("gte", "2"));
    assert_eq!(Bound::Lt("3").query_pair(), ("lt", "3"));
    assert_eq!(Bound::Lte("4").query_pair(), ("lte", "4"));
    assert_eq!(Order::Ascending.to_query(), "a");
    assert_eq!(Order::Descending.to_query(), "d");
}
