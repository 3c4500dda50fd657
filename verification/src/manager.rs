//! The computing half of the one-shot clipboard operations.
//!
//! Reading and writing the clipboard is the caller's business. What is
//! decided here is everything around it: how an image read from the clipboard
//! is packaged, how an image to be written is obtained from what the caller
//! passed, which contents a snapshot asks to be written, and which error a
//! failed step is reported as. A read is handed in as the `Result` it gave,
//! the error by its text.

use clipboard_rs::RustImageData;
use vstd::prelude::*;

use crate::aggregate::{Reply, ReplyView};
use crate::codec::{
    base64_decode, base64_encodable, base64_encode, base64_payload, base64_text, decode_image,
    encode_png, image_dimensions, image_size, png_encoding,
};
use crate::data::{reported_size, texts, ClipboardData, ClipboardDataView, ImageData, ImageDataView};
use crate::error::{ClipboardError, Failure};
use crate::format::{format_named, ContentFormat};
use crate::text::str_eq;

verus! {

/// One item to write to the clipboard.
pub enum Content {
    Text(String),
    Html(String),
    Rtf(String),
    Image(RustImageData),
    Files(Vec<String>),
}

/// The value of a [`Content`].
pub enum ContentView {
    Text(Seq<char>),
    Html(Seq<char>),
    Rtf(Seq<char>),
    Image(RustImageData),
    Files(Seq<Seq<char>>),
}

impl View for Content {
    type V = ContentView;

    open spec fn view(&self) -> ContentView {
        match *self {
            Content::Text(text) => ContentView::Text(text@),
            Content::Html(html) => ContentView::Html(html@),
            Content::Rtf(rtf) => ContentView::Rtf(rtf@),
            Content::Image(image) => ContentView::Image(image),
            Content::Files(files) => ContentView::Files(texts(files@)),
        }
    }
}

/// The values of a list of contents.
pub open spec fn content_views(contents: Seq<Content>) -> Seq<ContentView> {
    Seq::new(contents.len(), |i: int| contents[i]@)
}

/// The image payload made of a decoded image and its PNG encoding.
pub open spec fn packaged_image(image: RustImageData, png: Seq<u8>) -> ImageDataView {
    ImageDataView {
        width: image_dimensions(image).0,
        height: image_dimensions(image).1,
        size: reported_size(png.len()),
        data: png,
    }
}

/// One optional item of a list.
pub open spec fn item_if<T>(item: Option<T>) -> Seq<T> {
    match item {
        Some(item) => seq![item],
        None => Seq::empty(),
    }
}

/// The contents that a snapshot asks to be written: its text, HTML, rich
/// text, image and files, in this order, each if it is there. The image is
/// not taken from the snapshot's bytes but from `decoded`, the outcome of
/// decoding them: no image where there was none to decode, the decoded image
/// where decoding succeeded, and where it failed nothing is to be written
/// and the text of the decoder's error is the result.
pub open spec fn contents_of(
    data: ClipboardDataView,
    decoded: Option<Result<RustImageData, Seq<char>>>,
) -> Result<Seq<ContentView>, Seq<char>> {
    let text = item_if(
        match data.text {
            Some(text) => Some(ContentView::Text(text)),
            None => None,
        },
    );
    let html = item_if(
        match data.html {
            Some(html) => Some(ContentView::Html(html)),
            None => None,
        },
    );
    let rtf = item_if(
        match data.rtf {
            Some(rtf) => Some(ContentView::Rtf(rtf)),
            None => None,
        },
    );
    let files = item_if(
        match data.files {
            Some(files) => Some(ContentView::Files(files)),
            None => None,
        },
    );
    match decoded {
        None => Ok(text + html + rtf + files),
        Some(Ok(picture)) => Ok(text + html + rtf + seq![ContentView::Image(picture)] + files),
        Some(Err(detail)) => Err(detail),
    }
}

/// The outcome of a decoding, the error by its characters.
pub open spec fn decoding_of(decoded: Option<Result<RustImageData, String>>) -> Option<
    Result<RustImageData, Seq<char>>,
> {
    match decoded {
        None => None,
        Some(Ok(picture)) => Some(Ok(picture)),
        Some(Err(detail)) => Some(Err(detail@)),
    }
}

/// The detail reported where a PNG is too long for its base64 text.
pub open spec fn too_large() -> Seq<char> {
    "the encoded image is too large"@
}

/// The PNG bytes of an image read from the clipboard.
pub fn get_image_raw(read: Result<RustImageData, String>) -> (raw: Result<Vec<u8>, ClipboardError>)
    ensures
        match read {
            Err(detail) => raw matches Err(error) && error.reports(Failure::GetImage, detail@),
            Ok(image) => match png_encoding(image) {
                Ok(png) => raw matches Ok(bytes) && bytes@ == png,
                Err(detail) => raw matches Err(error) && error.reports(Failure::ConvertToPng, detail),
            },
        },
{
    match read {
        Err(detail) => Err(Failure::GetImage.error(detail.as_str())),
        Ok(image) => match encode_png(&image) {
            Ok(png) => Ok(png),
            Err(detail) => Err(Failure::ConvertToPng.error(detail.as_str())),
        },
    }
}

/// The PNG encoding of an image read from the clipboard, with its
/// dimensions and byte count.
pub fn get_image_data(read: Result<RustImageData, String>) -> (data: Result<
    ImageData,
    ClipboardError,
>)
    ensures
        match read {
            Err(detail) => data matches Err(error) && error.reports(Failure::GetImage, detail@),
            Ok(image) => match png_encoding(image) {
                Ok(png) => data matches Ok(packaged) && packaged@ == packaged_image(image, png),
                Err(detail) => data matches Err(error) && error.reports(
                    Failure::ConvertToPng,
                    detail,
                ),
            },
        },
{
    match read {
        Err(detail) => Err(Failure::GetImage.error(detail.as_str())),
        Ok(image) => {
            let (width, height) = image_size(&image);
            match encode_png(&image) {
                Ok(png) => Ok(ImageData::new(width, height, png)),
                Err(detail) => Err(Failure::ConvertToPng.error(detail.as_str())),
            }
        },
    }
}

/// The answer that an image read from the clipboard makes to an aggregation:
/// the packaged image, or nothing where reading or encoding failed.
pub fn image_reply(read: Result<RustImageData, String>) -> (reply: Reply)
    ensures
        reply@ == ReplyView::Image(
            match read {
                Err(_) => None,
                Ok(image) => match png_encoding(image) {
                    Ok(png) => Some(packaged_image(image, png)),
                    Err(_) => None,
                },
            },
        ),
{
    match get_image_data(read) {
        Ok(packaged) => Reply::Image(Some(packaged)),
        Err(_) => Reply::Image(None),
    }
}

/// The base64 text of bytes, where its length can be addressed.
pub fn encode_base64(bytes: &[u8]) -> (text: Option<String>)
    ensures
        match text {
            Some(text) => base64_encodable(bytes@.len()) && text@ == base64_text(bytes@),
            None => !base64_encodable(bytes@.len()),
        },
{
    if bytes.len() / 3 <= (usize::MAX - 4) / 4 {
        Some(base64_encode(bytes))
    } else {
        None
    }
}

/// The PNG encoding of an image read from the clipboard, as base64 text. A
/// PNG too long for its base64 text to be addressed counts as a failed
/// conversion.
pub fn get_image_base64(read: Result<RustImageData, String>) -> (text: Result<
    String,
    ClipboardError,
>)
    ensures
        match read {
            Err(detail) => text matches Err(error) && error.reports(Failure::GetImage, detail@),
            Ok(image) => match png_encoding(image) {
                Ok(png) => if base64_encodable(png.len()) {
                    text matches Ok(encoded) && encoded@ == base64_text(png)
                } else {
                    text matches Err(error) && error.reports(Failure::ConvertToPng, too_large())
                },
                Err(detail) => text matches Err(error) && error.reports(
                    Failure::ConvertToPng,
                    detail,
                ),
            },
        },
{
    match get_image_raw(read) {
        Err(error) => Err(error),
        Ok(png) => match encode_base64(png.as_slice()) {
            Some(encoded) => Ok(encoded),
            None => Err(Failure::ConvertToPng.error("the encoded image is too large")),
        },
    }
}

/// What decoding the bytes of an image to write comes to: the decoded image,
/// or the report that the bytes the caller passed are no image.
pub fn created_image(decoded: Result<RustImageData, String>) -> (image: Result<
    RustImageData,
    ClipboardError,
>)
    ensures
        match decoded {
            Ok(picture) => image == Ok::<RustImageData, ClipboardError>(picture),
            Err(detail) => image matches Err(error) && error.reports(Failure::CreateImage, detail@),
        },
{
    match decoded {
        Ok(picture) => Ok(picture),
        Err(detail) => Err(Failure::CreateImage.error(detail.as_str())),
    }
}

/// The image to write to the clipboard, decoded from encoded image bytes.
/// Whether the bytes decode is the decoder's to say; where they do not, the
/// error is that of bytes that are no image.
pub fn set_image_raw(image_data: &[u8]) -> (image: Result<RustImageData, ClipboardError>)
    ensures
        image matches Err(error) ==> error.stems_from(Failure::CreateImage),
{
    created_image(decode_image(image_data))
}

/// The image to write to the clipboard, decoded from the base64 text of
/// encoded image bytes. Text that is not base64 is reported as such. Whether
/// the bytes it stands for decode is the decoder's to say; where they do not,
/// the error is that of bytes that are no image.
pub fn set_image_base64(base64_data: &str) -> (image: Result<RustImageData, ClipboardError>)
    ensures
        match base64_payload(base64_data@) {
            Err(detail) => image matches Err(error) && error.reports(Failure::InvalidBase64, detail),
            Ok(_) => image matches Err(error) ==> error.stems_from(Failure::CreateImage),
        },
{
    match base64_decode(base64_data) {
        Err(detail) => Err(Failure::InvalidBase64.error(detail.as_str())),
        Ok(bytes) => set_image_raw(bytes.as_slice()),
    }
}

/// The contents to write for a snapshot whose image bytes were decoded with
/// the outcome `decoded`: `None` where the snapshot holds no image. A failed
/// decoding fails the whole: nothing is to be written. The list of available
/// formats plays no part.
pub fn planned_contents(
    contents: ClipboardData,
    decoded: Option<Result<RustImageData, String>>,
) -> (planned: Result<Vec<Content>, ClipboardError>)
    ensures
        match contents_of(contents@, decoding_of(decoded)) {
            Ok(items) => planned matches Ok(list) && content_views(list@) == items,
            Err(detail) => planned matches Err(error) && error.reports(Failure::CreateImage, detail),
        },
{
    let ghost wanted = contents@;
    let picture = match decoded {
        None => None,
        Some(decoded) => match created_image(decoded) {
            Ok(picture) => Some(picture),
            Err(error) => {
                return Err(error);
            },
        },
    };
    let mut list: Vec<Content> = Vec::new();
    let ClipboardData { available_formats: _, text, rtf, html, image: _, files } = contents;
    if let Some(text) = text {
        list.push(Content::Text(text));
    }
    assert(content_views(list@) =~= item_if(
        match wanted.text {
            Some(text) => Some(ContentView::Text(text)),
            None => None,
        },
    ));
    let ghost after_text = content_views(list@);
    if let Some(html) = html {
        list.push(Content::Html(html));
    }
    assert(content_views(list@) =~= after_text + item_if(
        match wanted.html {
            Some(html) => Some(ContentView::Html(html)),
            None => None,
        },
    ));
    let ghost after_html = content_views(list@);
    if let Some(rtf) = rtf {
        list.push(Content::Rtf(rtf));
    }
    assert(content_views(list@) =~= after_html + item_if(
        match wanted.rtf {
            Some(rtf) => Some(ContentView::Rtf(rtf)),
            None => None,
        },
    ));
    let ghost after_rtf = content_views(list@);
    let ghost shown = picture;
    if let Some(picture) = picture {
        list.push(Content::Image(picture));
    }
    assert(content_views(list@) =~= after_rtf + item_if(
        match shown {
            Some(picture) => Some(ContentView::Image(picture)),
            None => None,
        },
    ));
    let ghost after_image = content_views(list@);
    if let Some(files) = files {
        list.push(Content::Files(files));
    }
    assert(content_views(list@) =~= after_image + item_if(
        match wanted.files {
            Some(files) => Some(ContentView::Files(files)),
            None => None,
        },
    ));
    Ok(list)
}

/// The contents to write for a snapshot, or the failure to decode its image.
/// A snapshot without an image always has its contents. One with an image
/// has them with the decoded image in place, or fails as a whole with the
/// error of bytes that are no image: which of the two, and which image, is
/// the decoder's to say.
pub fn set_contents(contents: ClipboardData) -> (planned: Result<Vec<Content>, ClipboardError>)
    ensures
        match planned {
            Ok(list) => exists|decoded: Option<Result<RustImageData, Seq<char>>>|
                (decoded is Some <==> contents@.image is Some) && #[trigger] contents_of(
                    contents@,
                    decoded,
                ) == Ok::<Seq<ContentView>, Seq<char>>(content_views(list@)),
            Err(error) => contents@.image is Some && error.stems_from(Failure::CreateImage),
        },
{
    let decoded = match &contents.image {
        Some(image) => Some(decode_image(image.data.as_slice())),
        None => None,
    };
    let ghost outcome = decoding_of(decoded);
    let planned = planned_contents(contents, decoded);
    proof {
        if planned is Ok {
            assert(contents_of(contents@, outcome) == Ok::<Seq<ContentView>, Seq<char>>(
                content_views(planned->Ok_0@),
            ));
        }
    }
    planned
}

/// The format whose presence a query by name asks about. A name outside the
/// known ones is an invalid argument; the clipboard is then not consulted.
pub fn has_format(format: &str) -> (queried: Result<ContentFormat, ClipboardError>)
    ensures
        match format_named(format@) {
            Some(known) => queried == Ok::<ContentFormat, ClipboardError>(known),
            None => queried matches Err(error) && error.reports(
                Failure::UnsupportedFormat,
                format@,
            ),
        },
{
    if str_eq(format, "text") {
        Ok(ContentFormat::Text)
    } else if str_eq(format, "html") {
        Ok(ContentFormat::Html)
    } else if str_eq(format, "rtf") || str_eq(format, "rich_text") {
        Ok(ContentFormat::Rtf)
    } else if str_eq(format, "image") {
        Ok(ContentFormat::Image)
    } else if str_eq(format, "files") {
        Ok(ContentFormat::Files)
    } else {
        Err(Failure::UnsupportedFormat.error(format))
    }
}

} // verus!
