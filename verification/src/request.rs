use vstd::prelude::*;

use crate::encode::{dec_chars, dec_chars_signed};
use crate::error::ApiError;
use crate::url_builder::{build_matches, RequestUrl};

pub mod galleries;
pub mod gallery;
pub mod image;
pub mod image_list;
pub mod lists;
pub mod response;
pub mod search;

pub use galleries::Galleries;
pub use gallery::Gallery;
pub use image::Image;
pub use image_list::{Bound, Images, Order, Watched};
pub use lists::Lists;
pub use search::Search;

verus! {

/// Base trait for requests. A descriptor accumulates a fixed endpoint's
/// parameters, finalizes into an absolute URL, and statically associates the
/// response model its reply deserializes into.
pub trait Request {
    /// The response model for this endpoint.
    type Response;

    /// What building this descriptor yields: the URL's exact text, or the
    /// builder's error.
    spec fn spec_build(&self) -> Result<Seq<char>, ApiError>;

    /// Build the request URL. Building is pure: the result is a function of
    /// the descriptor's current configuration alone.
    fn build(&self) -> (r: Result<RequestUrl, ApiError>)
        ensures
            build_matches(self.spec_build(), r),
    ;
}

/// The query pairs an optional unsigned parameter contributes: one pair in
/// decimal form when set, none when absent.
pub open spec fn opt_u64_pair(key: Seq<char>, v: Option<u64>) -> Seq<(Seq<char>, Seq<char>)> {
    match v {
        Some(n) => seq![(key, dec_chars(n as nat))],
        None => Seq::<(Seq<char>, Seq<char>)>::empty(),
    }
}

/// The query pairs an optional signed parameter contributes.
pub open spec fn opt_i64_pair(key: Seq<char>, v: Option<i64>) -> Seq<(Seq<char>, Seq<char>)> {
    match v {
        Some(n) => seq![(key, dec_chars_signed(n as int))],
        None => Seq::<(Seq<char>, Seq<char>)>::empty(),
    }
}

/// The query pairs an optional text parameter contributes.
pub open spec fn opt_str_pair(key: Seq<char>, v: Option<&str>) -> Seq<(Seq<char>, Seq<char>)> {
    match v {
        Some(s) => seq![(key, s@)],
        None => Seq::<(Seq<char>, Seq<char>)>::empty(),
    }
}

/// The query pairs a boolean flag contributes: the pair `key=true` when the
/// flag is set, none when it is not.
pub open spec fn flag_pair(key: Seq<char>, b: bool) -> Seq<(Seq<char>, Seq<char>)> {
    if b {
        seq![(key, "true"@)]
    } else {
        Seq::<(Seq<char>, Seq<char>)>::empty()
    }
}

/// Idempotence of building: two build results of one unreconfigured
/// descriptor are the same, character for character in the successful case
/// and error for error otherwise.
pub proof fn lemma_build_idempotent(
    s: Result<Seq<char>, ApiError>,
    r1: Result<RequestUrl, ApiError>,
    r2: Result<RequestUrl, ApiError>,
)
    requires
        build_matches(s, r1),
        build_matches(s, r2),
    ensures
        r1 is Ok <==> r2 is Ok,
        r1 is Ok ==> r1->Ok_0@ == r2->Ok_0@,
        r1 is Err ==> r1->Err_0 == r2->Err_0,
{
}

} // verus!
