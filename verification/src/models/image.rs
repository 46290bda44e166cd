use vstd::prelude::*;

use crate::models::id::Id;
use crate::models::Timestamp;

verus! {

/// Links to the rendered sizes of one image.
#[derive(Debug, PartialEq, Eq)]
pub struct Representations {
    pub thumb_tiny: String,
    pub thumb_small: String,
    pub thumb: String,
    pub small: String,
    pub medium: String,
    pub large: String,
    pub tall: String,
    pub full: String,
}

/// One image record as the API returns it. A pure data container: every
/// field mirrors the JSON shape, with the uploader and per-tag identifiers
/// normalized through the tolerant [`Id`] type. The aspect ratio arrives as
/// a floating-point number on the wire and is carried here as its IEEE-754
/// bit pattern, since this crate's records hold plain integer values.
#[derive(Debug, PartialEq, Eq)]
pub struct Image {
    pub id: u64,
    pub created_at: Timestamp,
    pub updated_at: Timestamp,
    pub first_seen_at: Timestamp,
    pub score: i64,
    pub comment_count: u64,
    pub width: u64,
    pub height: u64,
    pub file_name: String,
    pub description: String,
    pub uploader: String,
    pub uploader_id: Option<Id>,
    pub image: String,
    pub upvotes: u64,
    pub downvotes: u64,
    pub faves: u64,
    pub tags: String,
    pub tag_ids: Vec<Id>,
    pub aspect_ratio_bits: u64,
    pub original_format: String,
    pub mime_type: String,
    pub sha512_hash: String,
    pub orig_sha512_hash: Option<String>,
    pub source_url: String,
    pub representations: Representations,
    pub is_rendered: bool,
    pub is_optimized: bool,
    pub spoilered: Option<bool>,
}

} // verus!
