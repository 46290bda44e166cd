use vstd::prelude::*;

use crate::encode::encode_u64;
use crate::error::ApiError;
use crate::request::image_list::{bound_pair, order_pair, Bound, Order};
use crate::request::response::ImagesResponse;
use crate::request::{flag_pair, opt_str_pair, opt_u64_pair, Request};
use crate::url_builder::{pairs_view, spec_build_url, RequestUrl, UrlBuilder};

verus! {

/// Request for fetching images (`/images.json`). All parameters are
/// optional; the query emits them in the fixed order `constraint`, bound,
/// `order`, `page`, `random`, each at most once.
#[derive(Debug, Clone, Copy, PartialEq, Eq)]
pub struct Images<'a> {
    pub constraint: Option<&'a str>,
    pub bound: Option<Bound<'a>>,
    pub order: Option<Order>,
    pub page: Option<u64>,
    pub random: bool,
}

impl<'a> Images<'a> {
    /// The ordered query pairs this configuration emits.
    pub open spec fn spec_pairs(&self) -> Seq<(Seq<char>, Seq<char>)> {
        opt_str_pair("constraint"@, self.constraint) + bound_pair(self.bound) + order_pair(
            self.order,
        ) + opt_u64_pair("page"@, self.page) + flag_pair("random"@, self.random)
    }

    /// Create a new images request.
    #[allow(clippy::new_without_default)]
    pub fn new() -> (r: Self)
        ensures
            r == (Images {
                constraint: None::<&'a str>,
                bound: None::<Bound<'a>>,
                order: None::<Order>,
                page: None::<u64>,
                random: false,
            }),
    {
        Images { constraint: None, bound: None, order: None, page: None, random: false }
    }

    /// Search and sort by a specific field.
    pub fn constraint(self, name: &'a str) -> (r: Self)
        ensures
            r == (Images { constraint: Some(name), ..self }),
    {
        Images { constraint: Some(name), ..self }
    }

    /// When specified, the constraint field must match the bound.
    pub fn constraint_bound(self, bound: Bound<'a>) -> (r: Self)
        ensures
            r == (Images { bound: Some(bound), ..self }),
    {
        Images { bound: Some(bound), ..self }
    }

    /// Sort order for the constraint.
    pub fn constraint_order(self, order: Order) -> (r: Self)
        ensures
            r == (Images { order: Some(order), ..self }),
    {
        Images { order: Some(order), ..self }
    }

    /// The page offset.
    pub fn page(self, page: u64) -> (r: Self)
        ensures
            r == (Images { page: Some(page), ..self }),
    {
        Images { page: Some(page), ..self }
    }

    /// When set, order the images randomly.
    pub fn random(self) -> (r: Self)
        ensures
            r == (Images { random: true, ..self }),
    {
        Images { random: true, ..self }
    }
}

impl<'a> Request for Images<'a> {
    type Response = ImagesResponse;

    open spec fn spec_build(&self) -> Result<Seq<char>, ApiError> {
        spec_build_url("images.json"@, self.spec_pairs())
    }

    fn build(&self) -> (r: Result<RequestUrl, ApiError>) {
        let mut b = UrlBuilder::create("images.json");
        if let Some(c) = self.constraint {
            b.append("constraint", c.to_owned());
        }
        if let Some(bd) = self.bound {
            let pair = bd.query_pair();
            b.append(pair.0, pair.1.to_owned());
        }
        if let Some(o) = self.order {
            b.append("order", o.to_query());
        }
        if let Some(p) = self.page {
            b.append("page", encode_u64(p));
        }
        if self.random {
            b.append("random", "true".to_owned());
        }
        proof {
            assert(pairs_view(b.pairs@) =~= self.spec_pairs());
        }
        b.finalize()
    }
}

} // verus!
