//! Image decoding, PNG encoding, base64 and UTF-8 decoding, as done by the
//! crates this library builds on and by the standard library.
//!
//! Nothing in this file is proved. Each function below makes one call into
//! `clipboard_rs`, `base64` or the standard library.
//!
//! Where a call's result depends on its arguments alone, the contract gives
//! the result a name, so that the contracts of the verified functions can say
//! exactly which value they hand on: the size and the PNG encoding of an
//! image, which once decoded is a value that never changes, and base64 in
//! both directions. An error is named by its text. UTF-8 decoding is stated
//! in full, over the definitions of UTF-8 that `vstd` gives.
//!
//! Decoding an image from bytes gets no name and no contract. The decoder
//! consults hooks for format detection and decoding that any code of the
//! process may register, so the same bytes need not decode the same way
//! twice. What the library does with the outcome is decided in verified
//! functions that take the outcome as an argument.

use base64::engine::general_purpose::STANDARD;
use base64::Engine;
use clipboard_rs::common::RustImage;
use clipboard_rs::RustImageData;
use vstd::prelude::*;
use vstd::utf8::{decode_utf8, valid_utf8};

verus! {

/// A decoded image of `clipboard_rs`, carried through as an opaque value.
#[verifier::external_type_specification]
#[verifier::external_body]
pub struct ExRustImageData(RustImageData);

/// The width and height that `RustImageData::get_size` reports of an image.
pub uninterp spec fn image_dimensions(image: RustImageData) -> (u32, u32);

/// What `RustImageData::to_png` returns for an image: the bytes of its PNG
/// encoding, or the text of the error.
pub uninterp spec fn png_encoding(image: RustImageData) -> Result<Seq<u8>, Seq<char>>;

/// The text that the standard base64 engine encodes a byte sequence to.
pub uninterp spec fn base64_text(bytes: Seq<u8>) -> Seq<char>;

/// What the standard base64 engine returns for a text to decode: the
/// decoded bytes, or the text of the error.
pub uninterp spec fn base64_payload(text: Seq<char>) -> Result<Seq<u8>, Seq<char>>;

/// Whether the base64 encoding of a payload of the given length has a
/// length that fits the machine's address space.
pub open spec fn base64_encodable(len: nat) -> bool {
    len / 3 <= (usize::MAX - 4) / 4
}

/// Decodes an image from its encoded bytes.
///
/// Trusted: calls `RustImageData::from_bytes`, which guesses the encoding
/// from the bytes and decodes them, or fails; an error is handed back as
/// its text. Nothing is promised of the outcome.
#[verifier::external_body]
pub(crate) fn decode_image(bytes: &[u8]) -> Result<RustImageData, String> {
    RustImageData::from_bytes(bytes).map_err(|e| e.to_string())
}

/// The width and height of an image.
///
/// Trusted: calls `RustImageData::get_size`, which returns the two numbers
/// stored with the image.
#[verifier::external_body]
pub(crate) fn image_size(image: &RustImageData) -> (size: (u32, u32))
    ensures
        size == image_dimensions(*image),
{
    image.get_size()
}

/// Encodes an image as PNG.
///
/// Trusted: calls `RustImageData::to_png` and copies the bytes of the buffer
/// it returns. The call fails on an image without data and where the encoder
/// fails; an error is handed back as its text.
#[verifier::external_body]
pub(crate) fn encode_png(image: &RustImageData) -> (encoded: Result<Vec<u8>, String>)
    ensures
        match encoded {
            Ok(png) => png_encoding(*image) == Ok::<Seq<u8>, Seq<char>>(png@),
            Err(detail) => png_encoding(*image) == Err::<Seq<u8>, Seq<char>>(detail@),
        },
{
    match image.to_png() {
        Ok(png) => Ok(png.get_bytes().to_vec()),
        Err(e) => Err(e.to_string()),
    }
}

/// Encodes bytes as base64 text.
///
/// Trusted: calls `Engine::encode` on the standard engine. The call panics
/// where the encoded length overflows `usize`, which the precondition rules
/// out.
#[verifier::external_body]
pub(crate) fn base64_encode(bytes: &[u8]) -> (text: String)
    requires
        base64_encodable(bytes@.len()),
    ensures
        text@ == base64_text(bytes@),
{
    STANDARD.encode(bytes)
}

/// Decodes base64 text.
///
/// Trusted: calls `Engine::decode` on the standard engine, which returns the
/// decoded bytes or an error; an error is handed back as its text.
#[verifier::external_body]
pub(crate) fn base64_decode(text: &str) -> (decoded: Result<Vec<u8>, String>)
    ensures
        match decoded {
            Ok(bytes) => base64_payload(text@) == Ok::<Seq<u8>, Seq<char>>(bytes@),
            Err(detail) => base64_payload(text@) == Err::<Seq<u8>, Seq<char>>(detail@),
        },
{
    STANDARD.decode(text).map_err(|e| e.to_string())
}

/// Decodes a byte vector as UTF-8 text.
///
/// Trusted: calls `String::from_utf8`, which the standard library documents
/// to succeed exactly on well-formed UTF-8 and then to hold the text that
/// those bytes encode.
#[verifier::external_body]
pub(crate) fn utf8_text(bytes: Vec<u8>) -> (text: Option<String>)
    ensures
        text is Some <==> valid_utf8(bytes@),
        text matches Some(s) ==> s@ == decode_utf8(bytes@),
{
    String::from_utf8(bytes).ok()
}

} // verus!
