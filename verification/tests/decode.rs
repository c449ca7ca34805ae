use imgur::fields::{field, opt_field};
use imgur::{
    Album, ApiError, DecodeError, Error, Image, Payload, Response, ResponseData, TransportError,
};
use serde_json::Value;

const IMAGE: &str = "{\"id\":\"PE2NI\",\"title\":\"Sunset\",\"description\":null,\
    \"datetime\":1349051625,\"animated\":true,\"width\":640,\"height\":480,\"size\":1024,\
    \"views\":4294967295,\"bandwidth\":0,\"vote\":\"up\",\"favorite\":true,\"nsfw\":true,\
    \"section\":\"pics\",\"account_url\":\"alice\",\"account_id\":\"77\",\"is_ad\":true,\
    \"in_most_viral\":true,\"tags\":[],\"ad_type\":3,\"ad_url\":\"https://ad.example\",\
    \"in_gallery\":true,\"link\":\"https://i.imgur.com/PE2NI.gif\"}";

const API_ERROR: &str =
    "{\"error\":\"Album not found\",\"request\":\"/3/album/cXz/images\",\"method\":\"GET\"}";

fn parse(text: &str) -> Value {
    serde_json::from_str(text).unwrap()
}

fn envelope(data: &str) -> String {
    format!("{{\"status\":200,\"success\":true,\"data\":{data}}}")
}

fn decode_fault<T: Payload + std::fmt::Debug>(body: &str) -> DecodeError {
    match Response::<T>::from_reply(Ok(body.as_bytes().to_vec())) {
        Err(Error::Decode(fault)) => fault,
        other => panic!("expected a decode failure, got {:?}", other),
    }
}

fn replaced(text: &str, from: &str, to: &str) -> String {
    assert!(text.contains(from));
    text.replacen(from, to, 1)
}

#[test]
fn every_member_of_an_image_is_read() {
    let image = Image::from_json(&parse(IMAGE)).unwrap();
    assert_eq!(image.account_id, Some("77".to_string()));
    assert_eq!(image.account_url, Some("alice".to_string()));
    assert_eq!(image.ad_type, 3);
    assert_eq!(image.ad_url, "https://ad.example");
    assert!(image.animated);
    assert_eq!(image.bandwidth, 0);
    assert_eq!(image.datetime, 1349051625);
    assert_eq!(image.description, None);
    assert!(image.favorite);
    assert_eq!(image.height, 480);
    assert_eq!(image.id, "PE2NI");
    assert!(image.in_gallery);
    assert!(image.in_most_viral);
    assert!(image.is_ad);
    assert_eq!(image.link, "https://i.imgur.com/PE2NI.gif");
    assert_eq!(image.nsfw, Some(true));
    assert_eq!(image.section, Some("pics".to_string()));
    assert_eq!(image.size, 1024);
    assert!(image.tags.is_empty());
    assert_eq!(image.title, Some("Sunset".to_string()));
    assert_eq!(image.views, 4294967295);
    assert_eq!(image.vote, Some("up".to_string()));
    assert_eq!(image.width, 640);
}

#[test]
fn truncated_body_is_a_syntax_fault_on_every_route() {
    let whole = envelope(IMAGE);
    let cut = &whole[..whole.len() - 7];
    assert!(matches!(decode_fault::<Image>(cut), DecodeError::Syntax(_)));
    assert!(matches!(decode_fault::<Album>(cut), DecodeError::Syntax(_)));
    assert!(matches!(decode_fault::<Vec<Image>>(cut), DecodeError::Syntax(_)));
}

#[test]
fn syntax_fault_carries_the_parser_position_and_words() {
    match decode_fault::<Image>("{\"status\":200,\n\"success\" true}") {
        DecodeError::Syntax(e) => {
            assert_eq!(e.line, 2);
            assert_eq!(e.column, 11);
            assert_eq!(e.message, "expected `:` at line 2 column 11");
        }
        other => panic!("expected a syntax fault, got {:?}", other),
    }
}

#[test]
fn empty_body_and_trailing_text_are_syntax_faults() {
    assert!(matches!(decode_fault::<Image>(""), DecodeError::Syntax(_)));
    let trailing = format!("{} x", envelope(IMAGE));
    assert!(matches!(decode_fault::<Image>(&trailing), DecodeError::Syntax(_)));
}

#[test]
fn document_that_is_no_envelope_is_an_envelope_fault() {
    assert_eq!(decode_fault::<Image>("null"), DecodeError::Envelope);
    assert_eq!(decode_fault::<Image>("[200,true,{}]"), DecodeError::Envelope);
    assert_eq!(decode_fault::<Image>("\"status\""), DecodeError::Envelope);
    assert_eq!(decode_fault::<Image>("{}"), DecodeError::Envelope);
}

#[test]
fn envelope_member_of_wrong_type_is_an_envelope_fault() {
    let good = envelope(IMAGE);
    let status_text = replaced(&good, "\"status\":200", "\"status\":\"200\"");
    assert_eq!(decode_fault::<Image>(&status_text), DecodeError::Envelope);
    let status_negative = replaced(&good, "\"status\":200", "\"status\":-1");
    assert_eq!(decode_fault::<Image>(&status_negative), DecodeError::Envelope);
    let status_fraction = replaced(&good, "\"status\":200", "\"status\":200.0");
    assert_eq!(decode_fault::<Image>(&status_fraction), DecodeError::Envelope);
    let success_number = replaced(&good, "\"success\":true", "\"success\":1");
    assert_eq!(decode_fault::<Image>(&success_number), DecodeError::Envelope);
    let success_null = replaced(&good, "\"success\":true", "\"success\":null");
    assert_eq!(decode_fault::<Image>(&success_null), DecodeError::Envelope);
}

#[test]
fn missing_envelope_member_is_an_envelope_fault() {
    assert_eq!(
        decode_fault::<Image>(&format!("{{\"success\":true,\"data\":{IMAGE}}}")),
        DecodeError::Envelope
    );
    assert_eq!(
        decode_fault::<Image>(&format!("{{\"status\":200,\"data\":{IMAGE}}}")),
        DecodeError::Envelope
    );
    assert_eq!(
        decode_fault::<Image>("{\"status\":200,\"success\":true}"),
        DecodeError::Envelope
    );
}

#[test]
fn data_of_neither_shape_is_a_data_fault() {
    assert_eq!(decode_fault::<Image>(&envelope("null")), DecodeError::Data);
    assert_eq!(decode_fault::<Image>(&envelope("17")), DecodeError::Data);
    assert_eq!(decode_fault::<Image>(&envelope("{}")), DecodeError::Data);
    assert_eq!(decode_fault::<Image>(&envelope("[]")), DecodeError::Data);
    assert_eq!(decode_fault::<Album>(&envelope(IMAGE)), DecodeError::Data);
    assert_eq!(decode_fault::<Vec<Image>>(&envelope(IMAGE)), DecodeError::Data);
    let partial_error = "{\"error\":\"x\",\"request\":\"/3/image/1\"}";
    assert_eq!(decode_fault::<Image>(&envelope(partial_error)), DecodeError::Data);
    let error_with_number = "{\"error\":\"x\",\"request\":\"/3/image/1\",\"method\":7}";
    assert_eq!(decode_fault::<Image>(&envelope(error_with_number)), DecodeError::Data);
}

#[test]
fn image_member_of_wrong_type_is_a_data_fault() {
    for (from, to) in [
        ("\"width\":640", "\"width\":\"640\""),
        ("\"width\":640", "\"width\":-640"),
        ("\"width\":640", "\"width\":640.5"),
        ("\"width\":640", "\"width\":null"),
        ("\"views\":4294967295", "\"views\":4294967296"),
        ("\"id\":\"PE2NI\"", "\"id\":5"),
        ("\"id\":\"PE2NI\"", "\"id\":null"),
        ("\"animated\":true", "\"animated\":\"true\""),
        ("\"tags\":[]", "\"tags\":[\"a\",1]"),
        ("\"tags\":[]", "\"tags\":null"),
        ("\"title\":\"Sunset\"", "\"title\":12"),
        ("\"nsfw\":true", "\"nsfw\":\"yes\""),
    ] {
        let broken = replaced(IMAGE, from, to);
        assert_eq!(Image::from_json(&parse(&broken)), None, "{to}");
        assert_eq!(decode_fault::<Image>(&envelope(&broken)), DecodeError::Data, "{to}");
    }
}

#[test]
fn missing_required_member_is_a_data_fault() {
    for gone in ["\"width\":640,", "\"id\":\"PE2NI\",", "\"tags\":[],", "\"favorite\":true,"] {
        let broken = replaced(IMAGE, gone, "");
        assert_eq!(decode_fault::<Image>(&envelope(&broken)), DecodeError::Data, "{gone}");
    }
}

#[test]
fn missing_optional_member_reads_as_absent() {
    let mut text = IMAGE.to_string();
    for gone in [
        "\"title\":\"Sunset\",",
        "\"description\":null,",
        "\"vote\":\"up\",",
        "\"nsfw\":true,",
        "\"section\":\"pics\",",
        "\"account_url\":\"alice\",",
        "\"account_id\":\"77\",",
    ] {
        text = replaced(&text, gone, "");
    }
    let image = Image::from_json(&parse(&text)).unwrap();
    assert_eq!(image.title, None);
    assert_eq!(image.description, None);
    assert_eq!(image.vote, None);
    assert_eq!(image.nsfw, None);
    assert_eq!(image.section, None);
    assert_eq!(image.account_url, None);
    assert_eq!(image.account_id, None);
    assert_eq!(image.id, "PE2NI");
}

#[test]
fn unknown_members_are_ignored() {
    let extended = replaced(IMAGE, "{\"id\"", "{\"has_sound\":false,\"type\":\"image/gif\",\"id\"");
    let plain = Image::from_json(&parse(IMAGE)).unwrap();
    assert_eq!(Image::from_json(&parse(&extended)), Some(plain));
    let body = "{\"status\":200,\"success\":true,\"extra\":[1,2],\"data\":".to_string()
        + API_ERROR
        + "}";
    let resp = Response::<Image>::from_slice(body.as_bytes()).unwrap();
    assert!(matches!(resp.data, ResponseData::Error(_)));
}

#[test]
fn one_bad_item_fails_the_whole_sequence() {
    let other = replaced(IMAGE, "PE2NI", "Zz9");
    let bad = replaced(IMAGE, "\"size\":1024", "\"size\":\"big\"");
    let good = format!("[{IMAGE},{other}]");
    let images = Vec::<Image>::from_json(&parse(&good)).unwrap();
    assert_eq!(images.len(), 2);
    assert_eq!(images[0].id, "PE2NI");
    assert_eq!(images[1].id, "Zz9");
    let mixed = format!("[{IMAGE},{bad},{IMAGE}]");
    assert_eq!(Vec::<Image>::from_json(&parse(&mixed)), None);
    assert_eq!(decode_fault::<Vec<Image>>(&envelope(&mixed)), DecodeError::Data);
    let empty = Response::<Vec<Image>>::from_slice(envelope("[]").as_bytes()).unwrap();
    assert_eq!(empty.data.into_result(), Ok(vec![]));
}

#[test]
fn status_takes_the_whole_word() {
    let body = format!("{{\"status\":{},\"success\":false,\"data\":{API_ERROR}}}", usize::MAX);
    let resp = Response::<Image>::from_slice(body.as_bytes()).unwrap();
    assert_eq!(resp.status, usize::MAX);
    let beyond = format!("{{\"status\":{}0,\"success\":false,\"data\":{API_ERROR}}}", u64::MAX);
    assert_eq!(decode_fault::<Image>(&beyond), DecodeError::Envelope);
}

#[test]
fn from_json_agrees_with_from_slice() {
    let body = envelope(IMAGE);
    let by_bytes = Response::<Image>::from_slice(body.as_bytes());
    let by_value = Response::<Image>::from_json(&parse(&body));
    assert!(by_bytes.is_ok());
    assert_eq!(by_bytes, by_value);
    assert_eq!(Response::<Image>::from_json(&parse("[1]")), Err(DecodeError::Envelope));
    assert_eq!(
        Response::<Image>::from_json(&parse(&envelope("true"))),
        Err(DecodeError::Data)
    );
}

#[test]
fn api_error_is_a_payload_of_its_own() {
    let e = ApiError::from_json(&parse(API_ERROR)).unwrap();
    assert_eq!(e.error, "Album not found");
    assert_eq!(e.request, "/3/album/cXz/images");
    assert_eq!(e.method, "GET");
    assert_eq!(ApiError::from_json(&parse("[\"a\",\"b\",\"c\"]")), None);
    assert_eq!(ApiError::from_json(&parse(IMAGE)), None);
}

#[test]
fn scalars_and_strings_have_their_shapes() {
    assert_eq!(u32::from_json(&parse("0")), Some(0));
    assert_eq!(u32::from_json(&parse("4294967295")), Some(u32::MAX));
    assert_eq!(u32::from_json(&parse("4294967296")), None);
    assert_eq!(u32::from_json(&parse("-1")), None);
    assert_eq!(u32::from_json(&parse("1.0")), None);
    assert_eq!(u32::from_json(&parse("1e2")), None);
    assert_eq!(u32::from_json(&parse("\"1\"")), None);
    assert_eq!(usize::from_json(&parse("4294967296")), Some(4294967296));
    assert_eq!(usize::from_json(&parse("18446744073709551616")), None);
    assert_eq!(bool::from_json(&parse("true")), Some(true));
    assert_eq!(bool::from_json(&parse("false")), Some(false));
    assert_eq!(bool::from_json(&parse("0")), None);
    assert_eq!(bool::from_json(&parse("null")), None);
    assert_eq!(String::from_json(&parse("\"caf\\u00e9 \\\"x\\\"\"")), Some("café \"x\"".to_string()));
    assert_eq!(String::from_json(&parse("null")), None);
    assert_eq!(
        Vec::<String>::from_json(&parse("[\"b\",\"a\",\"b\"]")),
        Some(vec!["b".to_string(), "a".to_string(), "b".to_string()])
    );
    assert_eq!(Vec::<u32>::from_json(&parse("{\"0\":1}")), None);
}

#[test]
fn members_are_found_by_key() {
    let v = parse("{\"a\":1,\"b\":null,\"c\":\"x\",\"\":2}");
    assert_eq!(field::<u32>(&v, "a"), Some(1));
    assert_eq!(field::<u32>(&v, ""), Some(2));
    assert_eq!(field::<u32>(&v, "b"), None);
    assert_eq!(field::<u32>(&v, "z"), None);
    assert_eq!(field::<u32>(&v, "A"), None);
    assert_eq!(field::<String>(&v, "c"), Some("x".to_string()));
    assert_eq!(opt_field::<u32>(&v, "a"), Some(Some(1)));
    assert_eq!(opt_field::<u32>(&v, "b"), Some(None));
    assert_eq!(opt_field::<u32>(&v, "z"), Some(None));
    assert_eq!(opt_field::<u32>(&v, "c"), None);
    let not_object = parse("[1,2]");
    assert_eq!(field::<u32>(&not_object, "0"), None);
    assert_eq!(opt_field::<u32>(&not_object, "0"), Some(None));
}

#[test]
fn transport_failure_skips_decoding_on_every_route() {
    let cause = TransportError { message: "connection closed before message completed".into() };
    assert_eq!(
        Response::<Image>::from_reply(Err(cause.clone())),
        Err(Error::Transport(cause.clone()))
    );
    assert_eq!(
        Response::<Album>::from_reply(Err(cause.clone())),
        Err(Error::Transport(cause.clone()))
    );
    assert_eq!(
        Response::<Vec<Image>>::from_reply(Err(cause.clone())),
        Err(Error::Transport(cause))
    );
}
