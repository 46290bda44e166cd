use vstd::prelude::*;

use crate::models::Timestamp;

verus! {

/// One gallery record as the API returns it; a pure data container.
#[derive(Debug, PartialEq, Eq)]
pub struct Gallery {
    pub id: u64,
    pub title: String,
    pub description: String,
    pub spoiler_warning: String,
    pub created_at: Timestamp,
    pub updated_at: Timestamp,
    pub creator_id: u64,
    pub watcher_count: u64,
    pub image_count: u64,
    pub image_ids: Option<Vec<u64>>,
}

} // verus!
