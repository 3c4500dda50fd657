use clipboard_core::aggregate::Reply;
use clipboard_core::data::{ClipboardData, ImageData};
use clipboard_core::error::{ClipboardError, Status};
use clipboard_rs::common::RustImage;
use clipboard_rs::RustImageData;
use clipboard_core::manager::{
    created_image, encode_base64, get_image_base64, get_image_data, get_image_raw, image_reply,
    planned_contents, set_contents, set_image_base64, set_image_raw, Content,
};

/// A PNG of 2 by 3 pixels.
const SAMPLE_PNG: [u8; 84] = [
    137, 80, 78, 71, 13, 10, 26, 10, 0, 0, 0, 13, 73, 72, 68, 82, 0, 0, 0, 2, 0, 0, 0, 3, 8, 6, 0,
    0, 0, 185, 234, 222, 129, 0, 0, 0, 27, 73, 68, 65, 84, 120, 218, 99, 224, 18, 57, 241, 223, 8,
    136, 25, 184, 2, 128, 140, 0, 16, 163, 7, 200, 0, 98, 0, 160, 47, 13, 63, 242, 140, 201, 140,
    0, 0, 0, 0, 73, 69, 78, 68, 174, 66, 96, 130,
];

/// The same PNG in base64.
const SAMPLE_BASE64: &str = "iVBORw0KGgoAAAANSUhEUgAAAAIAAAADCAYAAAC56t6BAAAAG0lEQVR42mPgEjnx3wiIGbgCgIwAEKMHyABiAKAvDT/yjMmMAAAAAElFTkSuQmCC";

const PNG_SIGNATURE: [u8; 8] = [137, 80, 78, 71, 13, 10, 26, 10];

fn failure<T>(result: Result<T, ClipboardError>) -> ClipboardError {
    match result {
        Ok(_) => panic!("expected a failure"),
        Err(error) => error,
    }
}

fn snapshot() -> ClipboardData {
    ClipboardData {
        available_formats: vec![],
        text: None,
        rtf: None,
        html: None,
        image: None,
        files: None,
    }
}

#[test]
fn encode_base64_known_values() {
    assert_eq!(encode_base64(b""), Some("".to_string()));
    assert_eq!(encode_base64(b"f"), Some("Zg==".to_string()));
    assert_eq!(encode_base64(b"fo"), Some("Zm8=".to_string()));
    assert_eq!(encode_base64(b"foo"), Some("Zm9v".to_string()));
    assert_eq!(encode_base64(b"hello"), Some("aGVsbG8=".to_string()));
    assert_eq!(encode_base64(&[0xfb, 0xff]), Some("+/8=".to_string()));
    assert_eq!(encode_base64(&SAMPLE_PNG), Some(SAMPLE_BASE64.to_string()));
}

#[test]
fn set_image_raw_decodes_a_png() {
    let image = set_image_raw(&SAMPLE_PNG);
    assert!(image.is_ok());
    let data = get_image_data(image.map_err(|error| error.reason)).unwrap();
    assert_eq!((data.width, data.height), (2, 3));
}

#[test]
fn set_image_raw_rejects_bytes_that_are_no_image() {
    let error = failure(set_image_raw(b"not an image"));
    assert_eq!(error.status, Status::InvalidArg);
    assert!(error.reason.starts_with("Failed to create image from bytes: "), "{}", error.reason);
    assert!(error.reason.len() > "Failed to create image from bytes: ".len());
}

#[test]
fn set_image_raw_rejects_empty_and_truncated_input() {
    let empty = failure(set_image_raw(&[]));
    assert_eq!(empty.status, Status::InvalidArg);
    assert!(empty.reason.starts_with("Failed to create image from bytes: "));
    let truncated = failure(set_image_raw(&SAMPLE_PNG[..40]));
    assert_eq!(truncated.status, Status::InvalidArg);
    assert!(truncated.reason.starts_with("Failed to create image from bytes: "));
}

#[test]
fn set_image_base64_decodes_a_png() {
    let image = set_image_base64(SAMPLE_BASE64);
    assert!(image.is_ok());
    let data = get_image_data(image.map_err(|error| error.reason)).unwrap();
    assert_eq!((data.width, data.height), (2, 3));
}

#[test]
fn set_image_base64_rejects_text_that_is_not_base64() {
    let error = failure(set_image_base64("not base64!"));
    assert_eq!(error.status, Status::InvalidArg);
    assert!(error.reason.starts_with("Invalid base64 data: "), "{}", error.reason);
    assert!(error.reason.len() > "Invalid base64 data: ".len());
}

#[test]
fn set_image_base64_reports_the_decoder_error() {
    let error = failure(set_image_base64("aGVsbG8"));
    assert_eq!(error.status, Status::InvalidArg);
    assert_eq!(error.reason, "Invalid base64 data: Invalid padding");
    let symbol = failure(set_image_base64("aGV*bG8="));
    assert_eq!(symbol.status, Status::InvalidArg);
    assert_eq!(symbol.reason, "Invalid base64 data: Invalid symbol 42, offset 3.");
}

#[test]
fn set_image_base64_rejects_base64_of_something_else() {
    let error = failure(set_image_base64("bm90IGFuIGltYWdl"));
    assert_eq!(error.status, Status::InvalidArg);
    assert!(error.reason.starts_with("Failed to create image from bytes: "), "{}", error.reason);
}

#[test]
fn get_image_raw_gives_png_bytes() {
    let image = set_image_raw(&SAMPLE_PNG).map_err(|error| error.reason);
    let raw = get_image_raw(image).unwrap();
    assert_eq!(raw[..8], PNG_SIGNATURE);
    let again = set_image_raw(&raw).map_err(|error| error.reason);
    let data = get_image_data(again).unwrap();
    assert_eq!((data.width, data.height), (2, 3));
}

#[test]
fn get_image_data_packages_png_with_dimensions_and_size() {
    let image = set_image_raw(&SAMPLE_PNG).map_err(|error| error.reason);
    let data = get_image_data(image).unwrap();
    assert_eq!(data.width, 2);
    assert_eq!(data.height, 3);
    assert_eq!(data.size as usize, data.data.len());
    assert_eq!(data.data[..8], PNG_SIGNATURE);
    let raw = get_image_raw(set_image_raw(&SAMPLE_PNG).map_err(|error| error.reason)).unwrap();
    assert_eq!(data.data, raw);
}

#[test]
fn get_image_base64_encodes_the_png() {
    let image = set_image_raw(&SAMPLE_PNG).map_err(|error| error.reason);
    let text = get_image_base64(image).unwrap();
    let raw = get_image_raw(set_image_raw(&SAMPLE_PNG).map_err(|error| error.reason)).unwrap();
    assert_eq!(Some(text), encode_base64(&raw));
}

#[test]
fn image_survives_base64_round_trip_with_its_dimensions() {
    let written = set_image_base64(SAMPLE_BASE64).map_err(|error| error.reason);
    let read_back = get_image_base64(written).unwrap();
    let decoded = set_image_base64(&read_back).map_err(|error| error.reason);
    let data = get_image_data(decoded).unwrap();
    assert_eq!((data.width, data.height), (2, 3));
    assert_eq!(data.data[..8], PNG_SIGNATURE);
}

#[test]
fn failed_read_is_reported_as_get_image_failure() {
    let raw = failure(get_image_raw(Err("clipboard is empty".to_string())));
    let data = failure(get_image_data(Err("clipboard is empty".to_string())));
    let text = failure(get_image_base64(Err("clipboard is empty".to_string())));
    for error in [raw, data, text] {
        assert_eq!(
            error,
            ClipboardError {
                status: Status::GenericFailure,
                reason: "Failed to get image: clipboard is empty".to_string(),
            }
        );
    }
}

#[test]
fn image_reply_packages_a_read_image() {
    let image = set_image_raw(&SAMPLE_PNG).map_err(|error| error.reason);
    let expected = get_image_data(set_image_raw(&SAMPLE_PNG).map_err(|error| error.reason)).unwrap();
    assert_eq!(image_reply(image), Reply::Image(Some(expected)));
}

#[test]
fn image_reply_of_a_failed_read_is_nothing() {
    assert_eq!(image_reply(Err("no image".to_string())), Reply::Image(None));
}

#[test]
fn image_data_new_counts_its_bytes() {
    let image = ImageData::new(7, 9, vec![1, 2, 3, 4, 5]);
    assert_eq!(image, ImageData { width: 7, height: 9, size: 5, data: vec![1, 2, 3, 4, 5] });
    let empty = ImageData::new(0, 0, vec![]);
    assert_eq!(empty.size, 0);
}

#[test]
fn empty_snapshot_is_empty() {
    assert_eq!(ClipboardData::empty(), snapshot());
}

#[test]
fn set_contents_of_an_empty_snapshot_is_empty() {
    let planned = set_contents(snapshot());
    assert!(matches!(planned, Ok(list) if list.is_empty()));
}

#[test]
fn set_contents_orders_text_html_rtf_image_files() {
    let contents = ClipboardData {
        available_formats: vec![],
        text: Some("t".to_string()),
        rtf: Some("r".to_string()),
        html: Some("h".to_string()),
        image: Some(ImageData { width: 0, height: 0, size: 0, data: SAMPLE_PNG.to_vec() }),
        files: Some(vec!["/a".to_string(), "/b".to_string()]),
    };
    let list = match set_contents(contents) {
        Ok(list) => list,
        Err(error) => panic!("{:?}", error),
    };
    assert_eq!(list.len(), 5);
    assert!(matches!(&list[0], Content::Text(text) if text == "t"));
    assert!(matches!(&list[1], Content::Html(html) if html == "h"));
    assert!(matches!(&list[2], Content::Rtf(rtf) if rtf == "r"));
    assert!(matches!(&list[3], Content::Image(_)));
    assert!(matches!(&list[4], Content::Files(files) if files == &vec!["/a".to_string(), "/b".to_string()]));
}

#[test]
fn set_contents_decodes_the_image_from_its_bytes() {
    let contents = ClipboardData {
        image: Some(ImageData { width: 100, height: 100, size: 1, data: SAMPLE_PNG.to_vec() }),
        ..snapshot()
    };
    let mut list = match set_contents(contents) {
        Ok(list) => list,
        Err(error) => panic!("{:?}", error),
    };
    assert_eq!(list.len(), 1);
    let image = match list.remove(0) {
        Content::Image(image) => image,
        _ => panic!("expected an image"),
    };
    let data = get_image_data(Ok(image)).unwrap();
    assert_eq!((data.width, data.height), (2, 3));
}

#[test]
fn set_contents_skips_what_is_absent() {
    let contents = ClipboardData {
        available_formats: vec!["text".to_string(), "html".to_string(), "files".to_string()],
        html: Some("<i>x</i>".to_string()),
        files: Some(vec![]),
        ..snapshot()
    };
    let list = match set_contents(contents) {
        Ok(list) => list,
        Err(error) => panic!("{:?}", error),
    };
    assert_eq!(list.len(), 2);
    assert!(matches!(&list[0], Content::Html(html) if html == "<i>x</i>"));
    assert!(matches!(&list[1], Content::Files(files) if files.is_empty()));
}

#[test]
fn set_contents_fails_as_a_whole_on_a_bad_image() {
    let contents = ClipboardData {
        text: Some("kept back".to_string()),
        image: Some(ImageData { width: 1, height: 1, size: 3, data: vec![1, 2, 3] }),
        files: Some(vec!["/a".to_string()]),
        ..snapshot()
    };
    let error = failure(set_contents(contents));
    assert_eq!(error.status, Status::InvalidArg);
    assert!(error.reason.starts_with("Failed to create image from bytes: "), "{}", error.reason);
}

#[test]
fn image_without_data_fails_to_convert() {
    let expected = ClipboardError {
        status: Status::GenericFailure,
        reason: "Failed to convert image to PNG: image is empty".to_string(),
    };
    assert_eq!(failure(get_image_raw(Ok(RustImageData::empty()))), expected);
    assert_eq!(failure(get_image_data(Ok(RustImageData::empty()))), expected);
    assert_eq!(failure(get_image_base64(Ok(RustImageData::empty()))), expected);
}

#[test]
fn image_reply_of_an_image_without_data_is_nothing() {
    assert_eq!(image_reply(Ok(RustImageData::empty())), Reply::Image(None));
}

#[test]
fn created_image_passes_a_decoded_image_on() {
    let image = created_image(Ok(RustImageData::empty()));
    assert!(matches!(image, Ok(picture) if picture.is_empty()));
    let decoded = set_image_raw(&SAMPLE_PNG).map_err(|error| error.reason);
    let data = get_image_data(created_image(decoded).map_err(|error| error.reason)).unwrap();
    assert_eq!((data.width, data.height), (2, 3));
}

#[test]
fn created_image_reports_bytes_that_are_no_image() {
    let error = failure(created_image(Err("unsupported format".to_string())));
    assert_eq!(
        error,
        ClipboardError {
            status: Status::InvalidArg,
            reason: "Failed to create image from bytes: unsupported format".to_string(),
        }
    );
}

#[test]
fn planned_contents_without_a_decoding_has_no_image() {
    let contents = ClipboardData {
        text: Some("t".to_string()),
        files: Some(vec!["/a".to_string()]),
        ..snapshot()
    };
    let list = match planned_contents(contents, None) {
        Ok(list) => list,
        Err(error) => panic!("{:?}", error),
    };
    assert_eq!(list.len(), 2);
    assert!(matches!(&list[0], Content::Text(text) if text == "t"));
    assert!(matches!(&list[1], Content::Files(files) if files == &vec!["/a".to_string()]));
}

#[test]
fn planned_contents_puts_the_decoded_image_between_rich_text_and_files() {
    let contents = ClipboardData {
        rtf: Some("r".to_string()),
        html: Some("h".to_string()),
        image: Some(ImageData { width: 0, height: 0, size: 0, data: vec![] }),
        files: Some(vec![]),
        ..snapshot()
    };
    let decoded = set_image_raw(&SAMPLE_PNG).map_err(|error| error.reason);
    let mut list = match planned_contents(contents, Some(decoded)) {
        Ok(list) => list,
        Err(error) => panic!("{:?}", error),
    };
    assert_eq!(list.len(), 4);
    assert!(matches!(&list[0], Content::Html(html) if html == "h"));
    assert!(matches!(&list[1], Content::Rtf(rtf) if rtf == "r"));
    assert!(matches!(&list[3], Content::Files(files) if files.is_empty()));
    let picture = match list.remove(2) {
        Content::Image(picture) => picture,
        _ => panic!("expected an image"),
    };
    let data = get_image_data(Ok(picture)).unwrap();
    assert_eq!((data.width, data.height), (2, 3));
}

#[test]
fn planned_contents_fails_as_a_whole_on_a_failed_decoding() {
    let contents = ClipboardData {
        text: Some("kept back".to_string()),
        image: Some(ImageData { width: 1, height: 1, size: 3, data: vec![1, 2, 3] }),
        ..snapshot()
    };
    let error = failure(planned_contents(contents, Some(Err("no decoder".to_string()))));
    assert_eq!(
        error,
        ClipboardError {
            status: Status::InvalidArg,
            reason: "Failed to create image from bytes: no decoder".to_string(),
        }
    );
}
