//! The requests that the client sends: one `GET` per resource, each with the
//! credential in its `Authorization` header and no body.

use vstd::prelude::*;
use vstd::string::*;

verus! {

/// The base endpoint of the API.
pub const API: &'static str = "https://api.imgur.com/3";

/// The address of the image `id`: `{API}/image/{id}`.
pub open spec fn image_address(id: Seq<char>) -> Seq<char> {
    API@ + "/image/"@ + id
}

/// The address of the album `id`: `{API}/album/{id}`.
pub open spec fn album_address(id: Seq<char>) -> Seq<char> {
    API@ + "/album/"@ + id
}

/// The address of the images of the album `id`: `{API}/album/{id}/images`.
pub open spec fn album_images_address(id: Seq<char>) -> Seq<char> {
    API@ + "/album/"@ + id + "/images"@
}

/// The value of the `Authorization` header for a credential:
/// `Client-ID {client_id}`.
pub open spec fn authorization_value(client_id: Seq<char>) -> Seq<char> {
    "Client-ID "@ + client_id
}

/// Builds the address of an image.
pub fn image_url(id: &str) -> (r: String)
    ensures
        r@ == image_address(id@),
{
    let mut url = String::from_str(API);
    url.append("/image/");
    url.append(id);
    url
}

/// Builds the address of an album.
pub fn album_url(album_id: &str) -> (r: String)
    ensures
        r@ == album_address(album_id@),
{
    let mut url = String::from_str(API);
    url.append("/album/");
    url.append(album_id);
    url
}

/// Builds the address of the images of an album.
pub fn album_images_url(album_id: &str) -> (r: String)
    ensures
        r@ == album_images_address(album_id@),
{
    let mut url = String::from_str(API);
    url.append("/album/");
    url.append(album_id);
    url.append("/images");
    url
}

/// Builds the value of the `Authorization` header.
pub fn authorization(client_id: &str) -> (r: String)
    ensures
        r@ == authorization_value(client_id@),
{
    let mut value = String::from_str("Client-ID ");
    value.append(client_id);
    value
}

/// A `GET` request, ready for the transport.
#[derive(Debug, Clone, PartialEq, Eq)]
pub struct Request {
    /// The address to fetch.
    pub url: String,
    /// The value of the `Authorization` header.
    pub authorization: String,
}

impl Request {
    /// The request for an image (`GET /image/<id>`).
    pub fn image(client_id: &str, id: &str) -> (r: Request)
        ensures
            r.url@ == image_address(id@),
            r.authorization@ == authorization_value(client_id@),
    {
        Request { url: image_url(id), authorization: authorization(client_id) }
    }

    /// The request for an album (`GET /album/<id>`).
    pub fn album(client_id: &str, album_id: &str) -> (r: Request)
        ensures
            r.url@ == album_address(album_id@),
            r.authorization@ == authorization_value(client_id@),
    {
        Request { url: album_url(album_id), authorization: authorization(client_id) }
    }

    /// The request for all the images of an album (`GET /album/<id>/images`).
    pub fn album_images(client_id: &str, album_id: &str) -> (r: Request)
        ensures
            r.url@ == album_images_address(album_id@),
            r.authorization@ == authorization_value(client_id@),
    {
        Request { url: album_images_url(album_id), authorization: authorization(client_id) }
    }
}

} // verus!
