//! The Wayland backend: how one paste message becomes a snapshot, and what
//! the backend's loop does at each turn.
//!
//! A paste message carries one payload under one MIME type. The snapshot made
//! from it lists at most one format, and lists it only when the payload could
//! be used: text that is not well-formed UTF-8 leaves the snapshot empty.
//! Images are passed on as received, with unknown dimensions.

use vstd::prelude::*;
use vstd::string::StringExecFns;
use vstd::utf8::{decode_utf8, valid_utf8};

use crate::data::{
    lemma_tags_unfold, reported_size, ClipboardData, ClipboardDataView, ImageData, ImageDataView,
};
use crate::format::{lemma_tags_distinct, ContentFormat};
use crate::codec::utf8_text;
use crate::text::str_eq;

verus! {

/// What the logic reads of a message of the paste stream.
#[derive(Clone, Debug, PartialEq, Eq)]
pub struct PasteMessage {
    /// The MIME type under which the payload was offered.
    pub mime_type: String,
    /// The payload.
    pub context: Vec<u8>,
}

/// How a MIME type is treated.
#[derive(Clone, Copy, Debug, PartialEq, Eq, Structural)]
pub enum MimeClass {
    /// Plain text, under its current or its legacy names.
    PlainText,
    /// HTML.
    Html,
    /// One of the four image types.
    Image,
    /// Anything else: tried as text.
    Other,
}

/// What the backend's loop does with one turn of the stream.
#[derive(Clone, Debug, PartialEq, Eq)]
pub enum StreamStep {
    /// A stop was requested: leave the loop.
    Stop,
    /// The stream yielded no message: go on.
    Skip,
    /// Forward this snapshot to the consumer, then go on.
    Deliver(ClipboardData),
}

/// The class of a MIME type.
pub open spec fn mime_class(mime_type: Seq<char>) -> MimeClass {
    if mime_type == "text/plain"@ || mime_type == "text/plain;charset=utf-8"@ || mime_type
        == "UTF8_STRING"@ || mime_type == "STRING"@ {
        MimeClass::PlainText
    } else if mime_type == "text/html"@ {
        MimeClass::Html
    } else if mime_type == "image/png"@ || mime_type == "image/jpeg"@ || mime_type == "image/gif"@
        || mime_type == "image/bmp"@ {
        MimeClass::Image
    } else {
        MimeClass::Other
    }
}

/// The snapshot that holds one text and lists it.
pub open spec fn text_snapshot(text: Seq<char>) -> ClipboardDataView {
    ClipboardDataView {
        available_formats: seq![ContentFormat::Text.spec_tag()],
        text: Some(text),
        ..ClipboardDataView::empty()
    }
}

/// The snapshot that holds one HTML text and lists it.
pub open spec fn html_snapshot(html: Seq<char>) -> ClipboardDataView {
    ClipboardDataView {
        available_formats: seq![ContentFormat::Html.spec_tag()],
        html: Some(html),
        ..ClipboardDataView::empty()
    }
}

/// The snapshot that holds one image as received and lists it.
pub open spec fn image_snapshot(bytes: Seq<u8>) -> ClipboardDataView {
    ClipboardDataView {
        available_formats: seq![ContentFormat::Image.spec_tag()],
        image: Some(
            ImageDataView { width: 0, height: 0, size: reported_size(bytes.len()), data: bytes },
        ),
        ..ClipboardDataView::empty()
    }
}

/// The snapshot made from a payload offered under a MIME type.
pub open spec fn wayland_snapshot(mime_type: Seq<char>, payload: Seq<u8>) -> ClipboardDataView {
    match mime_class(mime_type) {
        MimeClass::Image => image_snapshot(payload),
        MimeClass::Html => if valid_utf8(payload) {
            html_snapshot(decode_utf8(payload))
        } else {
            ClipboardDataView::empty()
        },
        MimeClass::PlainText | MimeClass::Other => if valid_utf8(payload) {
            text_snapshot(decode_utf8(payload))
        } else {
            ClipboardDataView::empty()
        },
    }
}

/// The MIME types asked of the compositor, most wanted first.
pub open spec fn mime_priority_order() -> Seq<Seq<char>> {
    seq![
        "text/plain;charset=utf-8"@,
        "text/plain"@,
        "text/html"@,
        "image/png"@,
        "image/jpeg"@,
    ]
}

/// Classifies a MIME type.
pub fn classify_mime(mime_type: &str) -> (class: MimeClass)
    ensures
        class == mime_class(mime_type@),
{
    if str_eq(mime_type, "text/plain") || str_eq(mime_type, "text/plain;charset=utf-8") || str_eq(
        mime_type,
        "UTF8_STRING",
    ) || str_eq(mime_type, "STRING") {
        MimeClass::PlainText
    } else if str_eq(mime_type, "text/html") {
        MimeClass::Html
    } else if str_eq(mime_type, "image/png") || str_eq(mime_type, "image/jpeg") || str_eq(
        mime_type,
        "image/gif",
    ) || str_eq(mime_type, "image/bmp") {
        MimeClass::Image
    } else {
        MimeClass::Other
    }
}

/// A list that holds the tag of one format.
fn single_tag(format: ContentFormat) -> (tags: Vec<String>)
    ensures
        crate::data::texts(tags@) == seq![format.spec_tag()],
{
    let mut tags: Vec<String> = Vec::new();
    tags.push(String::from_str(format.tag()));
    assert(crate::data::texts(tags@) =~= seq![format.spec_tag()]);
    tags
}

/// Turns one paste message into a snapshot.
pub fn wayland_context_to_clipboard_data(message: PasteMessage) -> (data: ClipboardData)
    ensures
        data@ == wayland_snapshot(message.mime_type@, message.context@),
        data@.wf(),
{
    proof {
        lemma_wayland_snapshot_wf(message.mime_type@, message.context@);
    }
    let class = classify_mime(message.mime_type.as_str());
    match class {
        MimeClass::Image => {
            let image = ImageData::new(0, 0, message.context);
            ClipboardData {
                available_formats: single_tag(ContentFormat::Image),
                text: None,
                rtf: None,
                html: None,
                image: Some(image),
                files: None,
            }
        },
        MimeClass::Html => match utf8_text(message.context) {
            Some(html) => ClipboardData {
                available_formats: single_tag(ContentFormat::Html),
                text: None,
                rtf: None,
                html: Some(html),
                image: None,
                files: None,
            },
            None => ClipboardData::empty(),
        },
        MimeClass::PlainText | MimeClass::Other => match utf8_text(message.context) {
            Some(text) => ClipboardData {
                available_formats: single_tag(ContentFormat::Text),
                text: Some(text),
                rtf: None,
                html: None,
                image: None,
                files: None,
            },
            None => ClipboardData::empty(),
        },
    }
}

/// Decides one turn of the backend's loop: a pending stop request wins over
/// a message, and a message is forwarded whatever its snapshot holds.
pub fn wayland_stream_step(stop_requested: bool, message: Option<PasteMessage>) -> (step:
    StreamStep)
    ensures
        stop_requested ==> step == StreamStep::Stop,
        !stop_requested && message is None ==> step == StreamStep::Skip,
        !stop_requested ==> (message matches Some(m) ==> step matches StreamStep::Deliver(data)
            && data@ == wayland_snapshot(m.mime_type@, m.context@) && data@.wf()),
{
    if stop_requested {
        StreamStep::Stop
    } else {
        match message {
            Some(m) => StreamStep::Deliver(wayland_context_to_clipboard_data(m)),
            None => StreamStep::Skip,
        }
    }
}

/// The MIME types to ask of the compositor, most wanted first.
pub fn mime_priority() -> (order: Vec<String>)
    ensures
        crate::data::texts(order@) == mime_priority_order(),
{
    let mut order: Vec<String> = Vec::new();
    order.push(String::from_str("text/plain;charset=utf-8"));
    order.push(String::from_str("text/plain"));
    order.push(String::from_str("text/html"));
    order.push(String::from_str("image/png"));
    order.push(String::from_str("image/jpeg"));
    assert(crate::data::texts(order@) =~= mime_priority_order());
    order
}

/// Every snapshot of the Wayland backend is well formed, and lists neither
/// rich text nor files.
pub proof fn lemma_wayland_snapshot_wf(mime_type: Seq<char>, payload: Seq<u8>)
    ensures
        wayland_snapshot(mime_type, payload).wf(),
        wayland_snapshot(mime_type, payload).available_formats.len() <= 1,
        !wayland_snapshot(mime_type, payload).lists(ContentFormat::Rtf),
        !wayland_snapshot(mime_type, payload).lists(ContentFormat::Files),
        wayland_snapshot(mime_type, payload).rtf is None,
        wayland_snapshot(mime_type, payload).files is None,
{
    let snapshot = wayland_snapshot(mime_type, payload);
    lemma_single_listing(snapshot, ContentFormat::Text);
    lemma_single_listing(snapshot, ContentFormat::Html);
    lemma_single_listing(snapshot, ContentFormat::Image);
    lemma_tags_unfold(snapshot.listed());
    assert(snapshot.available_formats =~= snapshot.listed().tags());
}

/// A snapshot with no tag lists nothing, and one with a single tag lists
/// exactly the format of that tag.
proof fn lemma_single_listing(snapshot: ClipboardDataView, format: ContentFormat)
    ensures
        snapshot.available_formats.len() == 0 ==> forall|f: ContentFormat| !snapshot.lists(f),
        snapshot.available_formats == seq![format.spec_tag()] ==> forall|f: ContentFormat|
            snapshot.lists(f) <==> f == format,
{
    if snapshot.available_formats == seq![format.spec_tag()] {
        assert forall|f: ContentFormat| snapshot.lists(f) <==> f == format by {
            lemma_tags_distinct(f, format);
            if f == format {
                assert(snapshot.available_formats[0] == f.spec_tag());
            }
        }
    }
}

} // verus!
