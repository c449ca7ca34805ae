//! A typed client core for the imgur REST API: request construction, response
//! decoding and the error taxonomy, with every function verified.
//!
//! The transport is not part of this library. A caller builds a
//! [`Request`], sends it, and hands what came back to
//! [`Response::from_reply`], which gives the typed result of the call.

pub mod album;
pub mod error;
pub mod fields;
pub mod image;
pub mod json;
pub mod payload;
pub mod request;
pub mod response;

pub use album::{Album, AlbumView};
pub use error::{ApiError, ApiErrorView, ConstructionError, DecodeError, Error, TransportError};
pub use image::{Image, ImageView};
pub use json::{JsonNumber, JsonValue, SyntaxError};
pub use payload::{Encode, Payload};
pub use request::{album_images_url, album_url, authorization, image_url, Request, API};
pub use response::{Response, ResponseData, ResponseDataView, ResponseView};
