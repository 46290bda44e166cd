use vstd::prelude::*;

use crate::encode::{dec_chars, encode_u64};
use crate::error::ApiError;
use crate::request::response::ImageResponse;
use crate::request::Request;
use crate::url_builder::{pairs_view, spec_build_url, RequestUrl, UrlBuilder};
use vstd::string::*;

verus! {

/// Request for fetching a single image (`/{id}.json`). The identifier is
/// part of the path; the query stays empty.
#[derive(Debug, Clone, Copy, PartialEq, Eq, Structural)]
pub struct Image {
    pub id: u64,
}

impl Image {
    /// The relative path this request resolves to: the identifier's decimal
    /// digits followed by `.json`.
    pub open spec fn spec_path(&self) -> Seq<char> {
        dec_chars(self.id as nat) + ".json"@
    }

    /// Create a new image request.
    pub fn new(id: u64) -> (r: Self)
        ensures
            r == (Image { id }),
    {
        Image { id }
    }
}

impl Request for Image {
    type Response = ImageResponse;

    open spec fn spec_build(&self) -> Result<Seq<char>, ApiError> {
        spec_build_url(self.spec_path(), Seq::<(Seq<char>, Seq<char>)>::empty())
    }

    fn build(&self) -> (r: Result<RequestUrl, ApiError>) {
        let path = encode_u64(self.id).concat(".json");
        let b = UrlBuilder::create(path.as_str());
        proof {
            assert(b.path@ =~= self.spec_path());
            assert(pairs_view(b.pairs@) =~= Seq::<(Seq<char>, Seq<char>)>::empty());
        }
        b.finalize()
    }
}

} // verus!
