use vstd::prelude::*;

pub mod gallery;
pub mod id;
pub mod image;

pub use gallery::Gallery;
pub use id::{Id, IdError, JsonValue};
pub use image::{Image, Representations};

verus! {

/// A point in time as the upstream API reports it, reduced to plain values:
/// whole seconds since the Unix epoch and the nanoseconds within that second.
#[derive(Debug, Clone, Copy, PartialEq, Eq, Structural)]
pub struct Timestamp {
    pub unix_secs: i64,
    pub subsec_nanos: u32,
}

} // verus!
