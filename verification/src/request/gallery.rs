use vstd::prelude::*;

use crate::encode::{dec_chars, encode_u64};
use crate::error::ApiError;
use crate::request::response::GalleryResponse;
use crate::request::{opt_u64_pair, Request};
use crate::url_builder::{pairs_view, spec_build_url, RequestUrl, UrlBuilder};
use vstd::string::*;

verus! {

/// Request for fetching one user gallery (`/galleries/{username}/{id}.json`).
/// Username and identifier are part of the path; the page offset is the one
/// optional query parameter. A username whose characters cannot stand in a
/// URL path must be escaped by the caller, else building fails with
/// `MalformedUrl`.
#[derive(Debug, Clone, Copy, PartialEq, Eq)]
pub struct Gallery<'a> {
    pub username: &'a str,
    pub id: u64,
    pub page: Option<u64>,
}

impl<'a> Gallery<'a> {
    /// The relative path this request resolves to.
    pub open spec fn spec_path(&self) -> Seq<char> {
        "galleries/"@ + self.username@ + seq!['/'] + dec_chars(self.id as nat) + ".json"@
    }

    /// The ordered query pairs this configuration emits.
    pub open spec fn spec_pairs(&self) -> Seq<(Seq<char>, Seq<char>)> {
        opt_u64_pair("page"@, self.page)
    }

    /// Create a new gallery request.
    pub fn new(username: &'a str, id: u64) -> (r: Self)
        ensures
            r == (Gallery { username, id, page: None::<u64> }),
    {
        Gallery { username, id, page: None }
    }

    /// The page offset.
    pub fn page(self, page: u64) -> (r: Self)
        ensures
            r == (Gallery { page: Some(page), ..self }),
    {
        Gallery { page: Some(page), ..self }
    }
}

impl<'a> Request for Gallery<'a> {
    type Response = GalleryResponse;

    open spec fn spec_build(&self) -> Result<Seq<char>, ApiError> {
        spec_build_url(self.spec_path(), self.spec_pairs())
    }

    fn build(&self) -> (r: Result<RequestUrl, ApiError>) {
        let path = "galleries/".to_owned().concat(self.username).concat("/").concat(
            encode_u64(self.id).as_str(),
        ).concat(".json");
        proof {
            reveal_strlit("/");
            assert(path@ =~= self.spec_path());
        }
        let mut b = UrlBuilder::create(path.as_str());
        if let Some(p) = self.page {
            b.append("page", encode_u64(p));
        }
        proof {
            assert(pairs_view(b.pairs@) =~= self.spec_pairs());
        }
        b.finalize()
    }
}

} // verus!
