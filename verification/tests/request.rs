use imgur::{
    album_images_url, album_url, authorization, image_url, ApiError, ConstructionError,
    DecodeError, Error, Request, SyntaxError, TransportError, API,
};

fn api_error() -> ApiError {
    ApiError {
        error: "Album not found".to_string(),
        request: "/3/album/cXz/images".to_string(),
        method: "GET".to_string(),
    }
}

#[test]
fn base_endpoint_is_fixed() {
    assert_eq!(API, "https://api.imgur.com/3");
}

#[test]
fn addresses_put_the_id_into_the_route() {
    assert_eq!(image_url("PE2NI"), "https://api.imgur.com/3/image/PE2NI");
    assert_eq!(album_url("cXz3n"), "https://api.imgur.com/3/album/cXz3n");
    assert_eq!(album_images_url("cXz3n"), "https://api.imgur.com/3/album/cXz3n/images");
}

#[test]
fn addresses_take_the_id_as_it_is() {
    assert_eq!(image_url(""), "https://api.imgur.com/3/image/");
    assert_eq!(album_images_url(""), "https://api.imgur.com/3/album//images");
    assert_eq!(album_url("a b/\u{e9}"), "https://api.imgur.com/3/album/a b/\u{e9}");
}

#[test]
fn authorization_names_the_client() {
    assert_eq!(authorization("0123456789abcde"), "Client-ID 0123456789abcde");
    assert_eq!(authorization(""), "Client-ID ");
}

#[test]
fn requests_carry_address_and_credential() {
    let image = Request::image("me", "PE2NI");
    assert_eq!(image.url, "https://api.imgur.com/3/image/PE2NI");
    assert_eq!(image.authorization, "Client-ID me");
    let album = Request::album("me", "cXz3n");
    assert_eq!(album.url, "https://api.imgur.com/3/album/cXz3n");
    assert_eq!(album.authorization, "Client-ID me");
    let images = Request::album_images("you", "cXz3n");
    assert_eq!(images.url, "https://api.imgur.com/3/album/cXz3n/images");
    assert_eq!(images.authorization, "Client-ID you");
}

#[test]
fn api_error_displays_method_request_and_error() {
    assert_eq!(
        api_error().to_string(),
        "Request GET /3/album/cXz/images failed: Album not found"
    );
    let blank = ApiError { error: String::new(), request: String::new(), method: String::new() };
    assert_eq!(blank.to_string(), "Request   failed: ");
}

#[test]
fn api_error_description_is_its_error() {
    assert_eq!(api_error().description(), "Album not found");
}

#[test]
fn error_displays_its_cause() {
    assert_eq!(
        Error::Api(api_error()).to_string(),
        "Request GET /3/album/cXz/images failed: Album not found"
    );
    let transport = TransportError { message: "connection refused".to_string() };
    assert_eq!(Error::Transport(transport).to_string(), "connection refused");
    let construction = ConstructionError { message: "no TLS backend".to_string() };
    assert_eq!(Error::Construction(construction).to_string(), "no TLS backend");
    let syntax = SyntaxError { line: 1, column: 2, message: "EOF while parsing".to_string() };
    assert_eq!(Error::Decode(DecodeError::Syntax(syntax.clone())).to_string(), "EOF while parsing");
    assert_eq!(DecodeError::Syntax(syntax).to_string(), "EOF while parsing");
    assert_eq!(
        Error::Decode(DecodeError::Envelope).to_string(),
        "response is not an object with status, success and data"
    );
    assert_eq!(
        DecodeError::Data.to_string(),
        "data matches neither the expected payload nor an API error"
    );
}

#[test]
fn errors_convert_from_their_causes() {
    assert_eq!(Error::from(api_error()), Error::Api(api_error()));
    let transport = TransportError { message: "reset".to_string() };
    assert_eq!(Error::from(transport.clone()), Error::Transport(transport));
    let construction = ConstructionError { message: "tls".to_string() };
    assert_eq!(Error::from(construction.clone()), Error::Construction(construction));
    assert_eq!(Error::from(DecodeError::Data), Error::Decode(DecodeError::Data));
}
