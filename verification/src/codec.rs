//! The exchange string of a blueprint: a version marker, then the base64
//! text of the zlib stream of the document's JSON text.
use base64::engine::general_purpose::STANDARD;
use base64::Engine;
use flate2::read::ZlibDecoder;
use flate2::write::ZlibEncoder;
use flate2::Compression;
use std::io::{Read, Write};
use vstd::prelude::*;
use crate::error::{CodecError, EncodeError};

verus! {

/// The error of base64's decoder.
#[verifier::external_type_specification]
#[verifier::external_body]
pub struct ExBase64DecodeError(base64::DecodeError);

/// The zlib stream that flate2's `ZlibEncoder` makes of a text's UTF-8
/// bytes at the default level, or `None` where it reports an error.
pub uninterp spec fn zlib_deflated(text: Seq<char>) -> Option<Seq<u8>>;

/// The text that flate2's `ZlibDecoder` reads from a zlib stream, or `None`
/// where it reports an error: the stream is corrupt, or what it holds is no
/// UTF-8.
pub uninterp spec fn zlib_inflated(stream: Seq<u8>) -> Option<Seq<char>>;

/// The padded base64 text of the bytes in the standard alphabet, as
/// base64's `STANDARD` engine writes it.
pub uninterp spec fn base64_text(data: Seq<u8>) -> Seq<char>;

/// The bytes that base64's `STANDARD` engine reads from a text, or `None`
/// where it reports an error.
pub uninterp spec fn base64_bytes(text: Seq<char>) -> Option<Seq<u8>>;

/// Whether serde_json's `from_str` reads the text as a JSON value.
pub uninterp spec fn parses_as_json(text: Seq<char>) -> bool;

/// Calls serde_json's `from_str` for a `Value` and keeps whether it
/// succeeded. Trusted: that depends on the text alone.
#[verifier::external_body]
fn json_parses(text: &str) -> (valid: bool)
    ensures
        valid == parses_as_json(text@),
{
    serde_json::from_str::<serde_json::Value>(text).is_ok()
}

/// Calls flate2's `ZlibEncoder::new` on an empty `Vec` with
/// `Compression::default()`, then `write_all` with the text's bytes and
/// `finish`. Trusted: the stream depends on the text alone, and flate2's
/// `ZlibDecoder` reads the same text back from it.
#[verifier::external_body]
fn zlib_compress(text: &str) -> (stream: Option<Vec<u8>>)
    ensures
        match stream {
            Some(z) => zlib_deflated(text@) == Some(z@) && zlib_inflated(z@) == Some(text@),
            None => zlib_deflated(text@).is_none(),
        },
{
    let mut encoder = ZlibEncoder::new(Vec::new(), Compression::default());
    match encoder.write_all(text.as_bytes()) {
        Ok(()) => encoder.finish().ok(),
        Err(_) => None,
    }
}

/// Calls flate2's `ZlibDecoder::new` on the bytes and `read_to_string` on
/// the decoder. Trusted: whether a text comes out, and which, depends on the
/// bytes alone.
#[verifier::external_body]
fn zlib_decompress(stream: &[u8]) -> (text: Option<String>)
    ensures
        match text {
            Some(t) => zlib_inflated(stream@) == Some(t@),
            None => zlib_inflated(stream@).is_none(),
        },
{
    let mut decoder = ZlibDecoder::new(stream);
    let mut text = String::new();
    match decoder.read_to_string(&mut text) {
        Ok(_) => Some(text),
        Err(_) => None,
    }
}

/// Calls `encode` of base64's `STANDARD` engine. Trusted: the text depends
/// on the bytes alone, and the same engine's `decode` reads the same bytes
/// back from it. `encode` gives up only where the text's length would not fit
/// in `usize`, which no slice is long enough for.
#[verifier::external_body]
fn base64_encode(data: &[u8]) -> (text: String)
    ensures
        text@ == base64_text(data@),
        base64_bytes(text@) == Some(data@),
{
    STANDARD.encode(data)
}

/// Calls `decode` of base64's `STANDARD` engine. Trusted: whether bytes
/// come out, and which, depends on the text alone.
#[verifier::external_body]
fn base64_decode(text: &str) -> (data: Result<Vec<u8>, base64::DecodeError>)
    ensures
        match data {
            Ok(bytes) => base64_bytes(text@) == Some(bytes@),
            Err(_) => base64_bytes(text@).is_none(),
        },
{
    STANDARD.decode(text)
}

/// The version marker that every exchange string begins with.
pub open spec fn marker() -> char {
    '0'
}

/// A text after the marker has been put in front of it.
pub open spec fn marked(text: Seq<char>) -> Seq<char> {
    seq![marker()] + text
}

/// A text without its leading marker, or as it is where it has none.
pub open spec fn unmarked(text: Seq<char>) -> Seq<char> {
    if text.len() > 0 && text[0] == marker() {
        text.subrange(1, text.len() as int)
    } else {
        text
    }
}

/// The exchange string of a text, or the reason why there is none: the
/// text is no JSON, or the compressor does not accept it.
pub open spec fn encoded(json: Seq<char>) -> Result<Seq<char>, EncodeError> {
    if !parses_as_json(json) {
        Err(EncodeError::Json)
    } else {
        match zlib_deflated(json) {
            Some(stream) => Ok(marked(base64_text(stream))),
            None => Err(EncodeError::Zlib),
        }
    }
}

/// The text that was decompressed, where it is JSON.
pub open spec fn checked(text: Option<Seq<char>>) -> Result<Seq<char>, CodecError> {
    match text {
        None => Err(CodecError::Zlib),
        Some(json) => if parses_as_json(json) {
            Ok(json)
        } else {
            Err(CodecError::Json)
        },
    }
}

/// The JSON text of an exchange string, or the reason why there is none.
pub open spec fn decoded(text: Seq<char>) -> Result<Seq<char>, CodecError> {
    match base64_bytes(unmarked(text)) {
        None => Err(CodecError::Base64),
        Some(stream) => checked(zlib_inflated(stream)),
    }
}

/// Puts the version marker in front of a text.
pub fn add_marker(text: &str) -> (out: String)
    ensures
        out@ == marked(text@),
{
    proof {
        reveal_strlit("0");
    }
    let mut out = "0".to_owned();
    assert(out@ =~= seq![marker()]);
    out.append(text);
    out
}

/// Takes the version marker off a text that begins with it; any other text
/// is returned as it is.
pub fn strip_marker(text: &str) -> (rest: &str)
    ensures
        rest@ == unmarked(text@),
{
    let len = text.unicode_len();
    if len > 0 && text.get_char(0) == '0' {
        text.substring_char(1, len)
    } else {
        text
    }
}

/// What decoding returns once the text has been decompressed: the text,
/// where there is one and it is JSON.
pub fn check_inflated(text: Option<String>) -> (json: Result<String, CodecError>)
    ensures
        match json {
            Ok(t) => text.deep_view() == Some(t@) && checked(text.deep_view()) == Ok::<
                Seq<char>,
                CodecError,
            >(t@),
            Err(e) => checked(text.deep_view()) == Err::<Seq<char>, CodecError>(e),
        },
{
    match text {
        None => Err(CodecError::Zlib),
        Some(t) => {
            if json_parses(t.as_str()) {
                Ok(t)
            } else {
                Err(CodecError::Json)
            }
        },
    }
}

/// What decoding returns once the base64 step has been made: the error of
/// that step, or the outcome of decompressing its bytes and checking the
/// text.
pub fn inflate_decoded(data: Result<Vec<u8>, base64::DecodeError>) -> (json: Result<
    String,
    CodecError,
>)
    ensures
        match data {
            Err(_) => json == Err::<String, CodecError>(CodecError::Base64),
            Ok(bytes) => match json {
                Ok(t) => checked(zlib_inflated(bytes@)) == Ok::<Seq<char>, CodecError>(t@),
                Err(e) => e != CodecError::Base64 && checked(zlib_inflated(bytes@)) == Err::<
                    Seq<char>,
                    CodecError,
                >(e),
            },
        },
{
    match data {
        Err(_) => Err(CodecError::Base64),
        Ok(bytes) => check_inflated(zlib_decompress(bytes.as_slice())),
    }
}

/// Encodes a document's JSON text as an exchange string: the text is
/// compressed, the stream written as base64, and the version marker put in
/// front. A text that is no JSON is refused. Decoding the string gives the
/// text back.
pub fn dict_to_blueprint(json: &str) -> (blueprint_string: Result<String, EncodeError>)
    ensures
        match blueprint_string {
            Ok(s) => encoded(json@) == Ok::<Seq<char>, EncodeError>(s@) && decoded(s@) == Ok::<
                Seq<char>,
                CodecError,
            >(json@),
            Err(e) => encoded(json@) == Err::<Seq<char>, EncodeError>(e),
        },
{
    if !json_parses(json) {
        return Err(EncodeError::Json);
    }
    match zlib_compress(json) {
        Some(stream) => {
            let base64_data = base64_encode(stream.as_slice());
            let out = add_marker(base64_data.as_str());
            assert(unmarked(out@) =~= base64_data@);
            Ok(out)
        },
        None => Err(EncodeError::Zlib),
    }
}

/// Decodes an exchange string to the JSON text of its document. A leading
/// version marker is taken off; what is left must be base64 text of a zlib
/// stream of UTF-8 text that is JSON.
pub fn blueprint_to_dict(blueprint_string: &str) -> (json: Result<String, CodecError>)
    ensures
        match json {
            Ok(t) => decoded(blueprint_string@) == Ok::<Seq<char>, CodecError>(t@),
            Err(e) => decoded(blueprint_string@) == Err::<Seq<char>, CodecError>(e),
        },
{
    let body = strip_marker(blueprint_string);
    inflate_decoded(base64_decode(body))
}

} // verus!
