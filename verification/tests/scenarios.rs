use imgur::{Album, ApiError, Error, Image, Request, Response, ResponseData, TransportError};

fn image_json(id: &str) -> String {
    format!(
        "{{\"id\":\"{id}\",\"title\":null,\"description\":\"a picture\",\"datetime\":1349051625,\
         \"type\":\"image/jpeg\",\"animated\":false,\"width\":2559,\"height\":1439,\"size\":521916,\
         \"views\":1,\"bandwidth\":521916,\"vote\":null,\"favorite\":false,\"nsfw\":null,\
         \"section\":null,\"account_url\":null,\"account_id\":null,\"is_ad\":false,\
         \"in_most_viral\":false,\"tags\":[\"cats\",\"funny\"],\"ad_type\":0,\"ad_url\":\"\",\
         \"in_gallery\":false,\"link\":\"https://i.imgur.com/{id}.jpg\"}}"
    )
}

fn album_json(id: &str, images: &str) -> String {
    format!(
        "{{\"id\":\"{id}\",\"title\":\"Camping\",\"description\":\"Weekend trip\",\
         \"datetime\":1357856292,\"cover\":\"OxQch\",\"cover_width\":1920,\"cover_height\":1080,\
         \"account_url\":\"Alan\",\"account_id\":384077,\"privacy\":\"public\",\"layout\":\"blog\",\
         \"views\":13780,\"link\":\"https://imgur.com/a/{id}\",\"favorite\":false,\"nsfw\":false,\
         \"section\":null,\"order\":0,\"deletehash\":null,\"images_count\":11,\
         \"images\":{images},\"in_gallery\":true}}"
    )
}

fn envelope(status: u32, success: bool, data: &str) -> Vec<u8> {
    format!("{{\"data\":{data},\"success\":{success},\"status\":{status}}}").into_bytes()
}

#[test]
fn get_image() {
    let id = "PE2NI";
    let request = Request::image("0123456789abcde", id);
    assert_eq!(request.url, "https://api.imgur.com/3/image/PE2NI");
    let body = envelope(200, true, &image_json(id));
    let resp = Response::<Image>::from_reply(Ok(body)).unwrap();
    assert_eq!(resp.data.into_result().unwrap().id, id);
}

#[test]
fn get_album_images() {
    let id = "cXz3n";
    let request = Request::album_images("0123456789abcde", id);
    assert_eq!(request.url, "https://api.imgur.com/3/album/cXz3n/images");
    let ids = ["a1", "b2", "c3", "d4", "e5", "f6", "g7"];
    let items: Vec<String> = ids.iter().map(|i| image_json(i)).collect();
    let body = envelope(200, true, &format!("[{}]", items.join(",")));
    let resp = Response::<Vec<Image>>::from_reply(Ok(body)).unwrap();
    let images: Vec<Image> = resp.data.into_result().unwrap();
    assert!(images.len() > 5);
    let got: Vec<&str> = images.iter().map(|i| i.id.as_str()).collect();
    assert_eq!(got, ids);
}

#[test]
fn get_error() {
    let id = "cXz";
    let request = Request::album_images("0123456789abcde", id);
    assert_eq!(request.url, "https://api.imgur.com/3/album/cXz/images");
    let body = envelope(
        400,
        false,
        "{\"error\":\"Album not found\",\"request\":\"/3/album/cXz/images\",\"method\":\"GET\"}",
    );
    let resp = Response::<Vec<Image>>::from_reply(Ok(body)).unwrap();
    assert_eq!(resp.status, 400);
    assert!(!resp.success);
    assert!(resp.data.clone().into_result().is_err());
    match resp.data.into_result() {
        Err(Error::Api(e)) => {
            assert_eq!(e.request, "/3/album/cXz/images");
            assert_eq!(e.error, "Album not found");
            assert_eq!(e.method, "GET");
        }
        other => panic!("expected an API error, got {:?}", other),
    }
}

#[test]
fn get_album() {
    let request = Request::album("0123456789abcde", "cXz3n");
    assert_eq!(request.url, "https://api.imgur.com/3/album/cXz3n");
    let body = envelope(200, true, &album_json("cXz3n", "null"));
    let resp = Response::<Album>::from_reply(Ok(body)).unwrap();
    let album = resp.data.into_result().unwrap();
    assert_eq!(album.id, "cXz3n");
    assert_eq!(album.images, None);
}

#[test]
fn album_with_inline_images_keeps_them_in_order() {
    let images = format!("[{},{}]", image_json("first"), image_json("second"));
    let body = envelope(200, true, &album_json("cXz3n", &images));
    let album = Response::<Album>::from_slice(&body).unwrap().data.into_result().unwrap();
    let inline = album.images.unwrap();
    assert_eq!(inline.len(), 2);
    assert_eq!(inline[0].id, "first");
    assert_eq!(inline[1].id, "second");
    assert_eq!(album.images_count, 11);
    assert_eq!(album.account_url, Some("Alan".to_string()));
    assert_eq!(album.nsfw, Some(false));
    assert_eq!(album.deletehash, None);
}

#[test]
fn image_members_are_read_one_by_one() {
    let body = envelope(200, true, &image_json("PE2NI"));
    let image = Response::<Image>::from_slice(&body).unwrap().data.into_result().unwrap();
    let expected = Image {
        account_id: None,
        account_url: None,
        ad_type: 0,
        ad_url: String::new(),
        animated: false,
        bandwidth: 521916,
        datetime: 1349051625,
        description: Some("a picture".to_string()),
        favorite: false,
        height: 1439,
        id: "PE2NI".to_string(),
        in_gallery: false,
        in_most_viral: false,
        is_ad: false,
        link: "https://i.imgur.com/PE2NI.jpg".to_string(),
        nsfw: None,
        section: None,
        size: 521916,
        tags: vec!["cats".to_string(), "funny".to_string()],
        title: None,
        views: 1,
        vote: None,
        width: 2559,
    };
    assert_eq!(image, expected);
}

#[test]
fn payload_shape_wins_over_envelope_flags() {
    let body = envelope(500, false, &image_json("PE2NI"));
    let resp = Response::<Image>::from_slice(&body).unwrap();
    assert_eq!(resp.status, 500);
    assert!(!resp.success);
    assert!(matches!(resp.data, ResponseData::Success(_)));
    assert_eq!(resp.data.into_result().unwrap().id, "PE2NI");
}

#[test]
fn error_shape_gives_error_variant_whatever_the_flags_say() {
    let body = envelope(
        200,
        true,
        "{\"error\":\"Over capacity\",\"request\":\"/3/image/PE2NI\",\"method\":\"GET\"}",
    );
    let resp = Response::<Image>::from_slice(&body).unwrap();
    assert_eq!(resp.status, 200);
    assert!(resp.success);
    let expected = ApiError {
        error: "Over capacity".to_string(),
        request: "/3/image/PE2NI".to_string(),
        method: "GET".to_string(),
    };
    assert_eq!(resp.data, ResponseData::Error(expected.clone()));
    assert_eq!(resp.data.into_result(), Err(Error::Api(expected)));
}

#[test]
fn transport_failure_is_handed_on_undecoded() {
    let cause = TransportError { message: "connection reset by peer".to_string() };
    let result = Response::<Image>::from_reply(Err(cause.clone()));
    assert_eq!(result, Err(Error::Transport(cause)));
}
