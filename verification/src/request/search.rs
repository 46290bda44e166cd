use vstd::prelude::*;

use crate::encode::{encode_i64, encode_u64};
use crate::error::ApiError;
use crate::request::response::SearchResponse;
use crate::request::{opt_i64_pair, opt_str_pair, opt_u64_pair, Request};
use crate::url_builder::{pairs_view, spec_build_url, RequestUrl, UrlBuilder};

verus! {

/// Request for searching images (`/search.json`). The search text is
/// required; page, score bounds, page size and user key are optional. The
/// query emits the parameters in the fixed order `q`, `page`, `min_score`,
/// `max_score`, `perpage`, `key`, each at most once.
#[derive(Debug)]
pub struct Search<'a> {
    pub q: &'a str,
    pub page: Option<u64>,
    pub min_score: Option<i64>,
    pub max_score: Option<i64>,
    pub perpage: Option<u64>,
    pub key: Option<&'a str>,
}

impl<'a> Search<'a> {
    /// The ordered query pairs this configuration emits.
    pub open spec fn spec_pairs(&self) -> Seq<(Seq<char>, Seq<char>)> {
        seq![("q"@, self.q@)] + opt_u64_pair("page"@, self.page) + opt_i64_pair(
            "min_score"@,
            self.min_score,
        ) + opt_i64_pair("max_score"@, self.max_score) + opt_u64_pair("perpage"@, self.perpage)
            + opt_str_pair("key"@, self.key)
    }

    /// Create a new search request for the given search text.
    pub fn new(q: &'a str) -> (r: Self)
        ensures
            r == (Search {
                q,
                page: None::<u64>,
                min_score: None::<i64>,
                max_score: None::<i64>,
                perpage: None::<u64>,
                key: None::<&'a str>,
            }),
    {
        Search { q, page: None, min_score: None, max_score: None, perpage: None, key: None }
    }

    /// The page offset.
    pub fn page(self, page: u64) -> (r: Self)
        ensures
            r == (Search { page: Some(page), ..self }),
    {
        Search { page: Some(page), ..self }
    }

    /// Minimum score for images.
    pub fn min_score(self, score: i64) -> (r: Self)
        ensures
            r == (Search { min_score: Some(score), ..self }),
    {
        Search { min_score: Some(score), ..self }
    }

    /// Maximum score for images.
    pub fn max_score(self, score: i64) -> (r: Self)
        ensures
            r == (Search { max_score: Some(score), ..self }),
    {
        Search { max_score: Some(score), ..self }
    }

    /// How many results to return on each page.
    pub fn perpage(self, perpage: u64) -> (r: Self)
        ensures
            r == (Search { perpage: Some(perpage), ..self }),
    {
        Search { perpage: Some(perpage), ..self }
    }

    /// User key.
    pub fn key(self, key: &'a str) -> (r: Self)
        ensures
            r == (Search { key: Some(key), ..self }),
    {
        Search { key: Some(key), ..self }
    }
}

impl<'a> Request for Search<'a> {
    type Response = SearchResponse;

    open spec fn spec_build(&self) -> Result<Seq<char>, ApiError> {
        spec_build_url("search.json"@, self.spec_pairs())
    }

    fn build(&self) -> (r: Result<RequestUrl, ApiError>) {
        let mut b = UrlBuilder::create("search.json");
        b.append("q", self.q.to_owned());
        if let Some(p) = self.page {
            b.append("page", encode_u64(p));
        }
        if let Some(v) = self.min_score {
            b.append("min_score", encode_i64(v));
        }
        if let Some(v) = self.max_score {
            b.append("max_score", encode_i64(v));
        }
        if let Some(v) = self.perpage {
            b.append("perpage", encode_u64(v));
        }
        if let Some(k) = self.key {
            b.append("key", k.to_owned());
        }
        proof {
            assert(pairs_view(b.pairs@) =~= self.spec_pairs());
        }
        b.finalize()
    }
}

} // verus!
