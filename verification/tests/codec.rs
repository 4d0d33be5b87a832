use base64::engine::general_purpose::STANDARD;
use base64::Engine;
use blueprints::codec::{
    add_marker, blueprint_to_dict, check_inflated, dict_to_blueprint, inflate_decoded,
    strip_marker,
};
use blueprints::error::{CodecError, EncodeError};
use flate2::read::ZlibDecoder;
use std::io::Read;

#[test]
fn decodes_a_known_string() {
    assert_eq!(blueprint_to_dict("0eJyrrgUAAXUA+Q==").unwrap(), "{}");
    assert_eq!(blueprint_to_dict("0eNqrrgUAAXUA+Q==").unwrap(), "{}");
    assert_eq!(
        blueprint_to_dict("0eJyrVkrKKU0tKMrMK1GyqlbKLEnNVbJCEqutBQDZSgyK").unwrap(),
        "{\"blueprint\":{\"item\":\"blueprint\"}}"
    );
}

#[test]
fn decodes_without_the_marker() {
    assert_eq!(blueprint_to_dict("eJyrrgUAAXUA+Q==").unwrap(), "{}");
}

#[test]
fn encoding_starts_with_the_marker() {
    let s = dict_to_blueprint("{\"blueprint\":{}}").unwrap();
    assert!(s.starts_with('0'));
    assert_ne!(s, "{\"blueprint\":{}}");
    assert_ne!(s, "0{\"blueprint\":{}}");
}

#[test]
fn encoding_is_base64_of_a_zlib_stream() {
    let json = "{\"blueprint\":{\"item\":\"blueprint\",\"label\":\"caf\u{e9}\"}}";
    let s = dict_to_blueprint(json).unwrap();
    let compressed = STANDARD.decode(&s[1..]).unwrap();
    assert_eq!(compressed[0], 0x78);
    let mut text = String::new();
    ZlibDecoder::new(&compressed[..]).read_to_string(&mut text).unwrap();
    assert_eq!(text, json);
}

#[test]
fn round_trip_gives_the_text_back() {
    let texts = [
        "{}",
        "[]",
        "0",
        "null",
        " { \"blueprint\" : { } } ",
        "{\"blueprint\":{\"entities\":[{\"entity_number\":1,\"name\":\"small-lamp\"}]}}",
        "{\"position\":{\"x\":0.5,\"y\":-2.5}}",
        "\"\u{50cf}\u{7d20}\"",
    ];
    for t in texts {
        let s = dict_to_blueprint(t).unwrap();
        assert_eq!(blueprint_to_dict(&s).unwrap(), t);
    }
}

#[test]
fn round_trip_of_a_long_text() {
    let mut t = String::from("[");
    for i in 0..5000 {
        t.push_str(&format!("{{\"count\":{}}},", i * 65793));
    }
    t.push_str("0]");
    let s = dict_to_blueprint(&t).unwrap();
    assert!(s.len() < t.len());
    assert_eq!(blueprint_to_dict(&s).unwrap(), t);
}

#[test]
fn text_that_is_no_json_is_not_encoded() {
    assert_eq!(dict_to_blueprint(""), Err(EncodeError::Json));
    assert_eq!(dict_to_blueprint("not json"), Err(EncodeError::Json));
    assert_eq!(dict_to_blueprint("{\"blueprint\":"), Err(EncodeError::Json));
    assert_eq!(dict_to_blueprint("{} {}"), Err(EncodeError::Json));
}

#[test]
fn text_that_is_no_json_is_refused() {
    assert_eq!(blueprint_to_dict("0eJzLyy9RyCrOzwMADiYDLA=="), Err(CodecError::Json));
    assert_eq!(blueprint_to_dict("0eJyrVkrKKU0tKMrMK1GyAgAi8gTP"), Err(CodecError::Json));
    // the zlib stream of the empty text
    assert_eq!(blueprint_to_dict("0eJwDAAAAAAE="), Err(CodecError::Json));
}

#[test]
fn malformed_base64_is_refused() {
    assert_eq!(blueprint_to_dict("0not base64!"), Err(CodecError::Base64));
    assert_eq!(blueprint_to_dict("0eJyrrgUAAXUA+Q="), Err(CodecError::Base64));
    assert_eq!(blueprint_to_dict("0eJyrrgUAAXUA+Q==x"), Err(CodecError::Base64));
}

#[test]
fn a_corrupt_stream_is_refused() {
    assert_eq!(blueprint_to_dict("0bm90IGEgemxpYiBzdHJlYW0="), Err(CodecError::Zlib));
    assert_eq!(blueprint_to_dict("0"), Err(CodecError::Zlib));
    assert_eq!(blueprint_to_dict(""), Err(CodecError::Zlib));
}

#[test]
fn text_that_is_no_utf8_is_refused() {
    // the zlib stream of the two bytes ff fe
    let s = format!("0{}", STANDARD.encode([0x78u8, 0x9c, 0xfb, 0xff, 0x0f, 0x00, 0x02, 0xfe, 0x01, 0xfe]));
    assert_eq!(blueprint_to_dict(&s), Err(CodecError::Zlib));
}

#[test]
fn marker_is_added_and_taken_off() {
    assert_eq!(add_marker("abc"), "0abc");
    assert_eq!(add_marker(""), "0");
    assert_eq!(strip_marker("0abc"), "abc");
    assert_eq!(strip_marker("abc"), "abc");
    assert_eq!(strip_marker("00"), "0");
    assert_eq!(strip_marker(""), "");
    assert_eq!(strip_marker("\u{e9}0"), "\u{e9}0");
}

#[test]
fn decoding_after_the_base64_step() {
    let stream = vec![0x78u8, 0x9c, 0xab, 0xae, 0x05, 0x00, 0x01, 0x75, 0x00, 0xf9];
    assert_eq!(inflate_decoded(Ok(stream)), Ok("{}".to_string()));
    assert_eq!(inflate_decoded(Ok(vec![1, 2, 3])), Err(CodecError::Zlib));
    assert_eq!(inflate_decoded(Ok(vec![])), Err(CodecError::Zlib));
    let not_json = vec![0x78u8, 0x9c, 0x03, 0x00, 0x00, 0x00, 0x00, 0x01];
    assert_eq!(inflate_decoded(Ok(not_json)), Err(CodecError::Json));
    assert_eq!(check_inflated(None), Err(CodecError::Zlib));
    assert_eq!(check_inflated(Some("[1, 2]".to_string())), Ok("[1, 2]".to_string()));
    assert_eq!(check_inflated(Some("[1, 2".to_string())), Err(CodecError::Json));
    assert_eq!(
        inflate_decoded(Err(base64::DecodeError::InvalidPadding)),
        Err(CodecError::Base64)
    );
}

#[test]
fn a_stream_cut_short_is_refused() {
    let s = dict_to_blueprint("{\"blueprint\":{\"item\":\"blueprint\"}}").unwrap();
    let compressed = STANDARD.decode(&s[1..]).unwrap();
    let cut = format!("0{}", STANDARD.encode(&compressed[..compressed.len() / 2]));
    assert_eq!(blueprint_to_dict(&cut), Err(CodecError::Zlib));
}
