use vstd::prelude::*;

use crate::encode::encode_u64;
use crate::error::ApiError;
use crate::request::response::ListsResponse;
use crate::request::{opt_str_pair, opt_u64_pair, Request};
use crate::url_builder::{pairs_view, spec_build_url, RequestUrl, UrlBuilder};

verus! {

/// Request for fetching the curated image lists (`/lists.json`). The page
/// offset and the sampling period are optional query parameters, emitted in
/// the order `page`, `last`.
#[derive(Debug, Clone, Copy, PartialEq, Eq)]
pub struct Lists<'a> {
    pub page: Option<u64>,
    pub last: Option<&'a str>,
}

impl<'a> Lists<'a> {
    /// The ordered query pairs this configuration emits.
    pub open spec fn spec_pairs(&self) -> Seq<(Seq<char>, Seq<char>)> {
        opt_u64_pair("page"@, self.page) + opt_str_pair("last"@, self.last)
    }

    /// Create a new lists request.
    #[allow(clippy::new_without_default)]
    pub fn new() -> (r: Self)
        ensures
            r == (Lists { page: None::<u64>, last: None::<&'a str> }),
    {
        Lists { page: None, last: None }
    }

    /// The page offset.
    pub fn page(self, page: u64) -> (r: Self)
        ensures
            r == (Lists { page: Some(page), ..self }),
    {
        Lists { page: Some(page), ..self }
    }

    /// Sampling period, specified in weeks, days, or hours.
    pub fn last(self, last: &'a str) -> (r: Self)
        ensures
            r == (Lists { last: Some(last), ..self }),
    {
        Lists { last: Some(last), ..self }
    }
}

impl<'a> Request for Lists<'a> {
    type Response = ListsResponse;

    open spec fn spec_build(&self) -> Result<Seq<char>, ApiError> {
        spec_build_url("lists.json"@, self.spec_pairs())
    }

    fn build(&self) -> (r: Result<RequestUrl, ApiError>) {
        let mut b = UrlBuilder::create("lists.json");
        if let Some(p) = self.page {
            b.append("page", encode_u64(p));
        }
        if let Some(l) = self.last {
            b.append("last", l.to_owned());
        }
        proof {
            assert(pairs_view(b.pairs@) =~= self.spec_pairs());
        }
        b.finalize()
    }
}

} // verus!
