use vstd::prelude::*;

use crate::encode::encode_u64;
use crate::error::ApiError;
use crate::request::response::GalleriesResponse;
use crate::request::{flag_pair, opt_u64_pair, Request};
use crate::url_builder::{pairs_view, spec_build_url, RequestUrl, UrlBuilder};
use vstd::string::*;

verus! {

/// Request for fetching a user's galleries (`/galleries/{username}.json`).
/// The username is part of the path; the page offset and the
/// `include_images` flag are optional query parameters, emitted in that
/// order. A username whose characters cannot stand in a URL path must be
/// escaped by the caller, else building fails with `MalformedUrl`.
#[derive(Debug, Clone, Copy, PartialEq, Eq)]
pub struct Galleries<'a> {
    pub username: &'a str,
    pub page: Option<u64>,
    pub include_images: bool,
}

impl<'a> Galleries<'a> {
    /// The relative path this request resolves to.
    pub open spec fn spec_path(&self) -> Seq<char> {
        "galleries/"@ + self.username@ + ".json"@
    }

    /// The ordered query pairs this configuration emits.
    pub open spec fn spec_pairs(&self) -> Seq<(Seq<char>, Seq<char>)> {
        opt_u64_pair("page"@, self.page) + flag_pair("include_images"@, self.include_images)
    }

    /// Create a new galleries request.
    pub fn new(username: &'a str) -> (r: Self)
        ensures
            r == (Galleries { username, page: None::<u64>, include_images: false }),
    {
        Galleries { username, page: None, include_images: false }
    }

    /// The page offset.
    pub fn page(self, page: u64) -> (r: Self)
        ensures
            r == (Galleries { page: Some(page), ..self }),
    {
        Galleries { page: Some(page), ..self }
    }

    /// When set, include arrays of image ids featured in each gallery.
    pub fn include_images(self) -> (r: Self)
        ensures
            r == (Galleries { include_images: true, ..self }),
    {
        Galleries { include_images: true, ..self }
    }
}

impl<'a> Request for Galleries<'a> {
    type Response = GalleriesResponse;

    open spec fn spec_build(&self) -> Result<Seq<char>, ApiError> {
        spec_build_url(self.spec_path(), self.spec_pairs())
    }

    fn build(&self) -> (r: Result<RequestUrl, ApiError>) {
        let path = "galleries/".to_owned().concat(self.username).concat(".json");
        proof {
            assert(path@ =~= self.spec_path());
        }
        let mut b = UrlBuilder::create(path.as_str());
        if let Some(p) = self.page {
            b.append("page", encode_u64(p));
        }
        if self.include_images {
            b.append("include_images", "true".to_owned());
        }
        proof {
            assert(pairs_view(b.pairs@) =~= self.spec_pairs());
        }
        b.finalize()
    }
}

} // verus!
