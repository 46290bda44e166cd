//! A typed client library for the Derpibooru image-board REST API.
//!
//! The library builds query URLs for the read-only endpoints (search, image
//! lookup, image listings, watched images, curated lists, galleries) and
//! models the JSON records those endpoints return, including an identifier
//! field that the upstream API delivers sometimes as a JSON number and
//! sometimes as a JSON string.

pub mod encode;
pub mod error;
pub mod laws;
pub mod models;
pub mod request;
pub mod url_builder;

pub use error::ApiError;
pub use models::{Id, IdError, JsonValue, Timestamp};
pub use request::{Bound, Galleries, Gallery, Image, Images, Lists, Order, Request, Search, Watched};
pub use url_builder::{RequestUrl, UrlBuilder};
