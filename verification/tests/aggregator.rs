use clipboard_core::aggregate::{Aggregator, Reply, Request};
use clipboard_core::data::{ClipboardData, ImageData};
use clipboard_core::format::ContentFormat;

/// A clipboard that answers from fixed values and records what it was asked.
struct FakeClipboard {
    present: Vec<ContentFormat>,
    text: Option<String>,
    rtf: Option<String>,
    html: Option<String>,
    image: Option<ImageData>,
    files: Option<Vec<String>>,
    asked: Vec<Request>,
}

fn fake(present: &[ContentFormat]) -> FakeClipboard {
    FakeClipboard {
        present: present.to_vec(),
        text: Some("plain".to_string()),
        rtf: Some("{\\rtf1 rich}".to_string()),
        html: Some("<p>html</p>".to_string()),
        image: Some(ImageData { width: 4, height: 2, size: 3, data: vec![1, 2, 3] }),
        files: Some(vec!["/tmp/a.txt".to_string(), "/tmp/b.txt".to_string()]),
        asked: vec![],
    }
}

fn answer(clipboard: &mut FakeClipboard, request: Request) -> Reply {
    clipboard.asked.push(request);
    match request {
        Request::Probe(format) => Reply::Present(clipboard.present.contains(&format)),
        Request::Fetch(ContentFormat::Text) => Reply::Text(clipboard.text.clone()),
        Request::Fetch(ContentFormat::Rtf) => Reply::Text(clipboard.rtf.clone()),
        Request::Fetch(ContentFormat::Html) => Reply::Text(clipboard.html.clone()),
        Request::Fetch(ContentFormat::Image) => Reply::Image(clipboard.image.clone()),
        Request::Fetch(ContentFormat::Files) => Reply::Files(clipboard.files.clone()),
        Request::Done => unreachable!(),
    }
}

fn aggregate(clipboard: &mut FakeClipboard) -> ClipboardData {
    let mut aggregator = Aggregator::new();
    let mut turns = 0;
    loop {
        let request = aggregator.request();
        if request == Request::Done {
            break;
        }
        turns += 1;
        assert!(turns <= 10, "an aggregation takes at most ten answers");
        let reply = answer(clipboard, request);
        aggregator = aggregator.step(reply);
    }
    aggregator.finish()
}

fn tags(names: &[&str]) -> Vec<String> {
    names.iter().map(|name| name.to_string()).collect()
}

#[test]
fn empty_clipboard_gives_empty_snapshot() {
    let mut clipboard = fake(&[]);
    let data = aggregate(&mut clipboard);
    assert_eq!(
        data,
        ClipboardData {
            available_formats: vec![],
            text: None,
            rtf: None,
            html: None,
            image: None,
            files: None,
        }
    );
    assert_eq!(
        clipboard.asked,
        vec![
            Request::Probe(ContentFormat::Text),
            Request::Probe(ContentFormat::Rtf),
            Request::Probe(ContentFormat::Html),
            Request::Probe(ContentFormat::Image),
            Request::Probe(ContentFormat::Files),
        ]
    );
}

#[test]
fn html_only_clipboard() {
    let mut clipboard = fake(&[ContentFormat::Html]);
    let data = aggregate(&mut clipboard);
    assert_eq!(data.available_formats, tags(&["html"]));
    assert_eq!(data.text, None);
    assert_eq!(data.html, Some("<p>html</p>".to_string()));
    assert_eq!(data.rtf, None);
    assert_eq!(data.image, None);
    assert_eq!(data.files, None);
}

#[test]
fn absent_formats_are_never_fetched() {
    let mut clipboard = fake(&[ContentFormat::Html]);
    aggregate(&mut clipboard);
    assert_eq!(
        clipboard.asked,
        vec![
            Request::Probe(ContentFormat::Text),
            Request::Probe(ContentFormat::Rtf),
            Request::Probe(ContentFormat::Html),
            Request::Fetch(ContentFormat::Html),
            Request::Probe(ContentFormat::Image),
            Request::Probe(ContentFormat::Files),
        ]
    );
}

#[test]
fn text_is_listed_before_html() {
    let mut clipboard = fake(&[ContentFormat::Html, ContentFormat::Text]);
    let data = aggregate(&mut clipboard);
    assert_eq!(data.available_formats, tags(&["text", "html"]));
    assert_eq!(data.text, Some("plain".to_string()));
    assert_eq!(data.html, Some("<p>html</p>".to_string()));
}

#[test]
fn full_clipboard_lists_all_formats_in_canonical_order() {
    let mut clipboard = fake(&[
        ContentFormat::Files,
        ContentFormat::Image,
        ContentFormat::Html,
        ContentFormat::Rtf,
        ContentFormat::Text,
    ]);
    let data = aggregate(&mut clipboard);
    assert_eq!(
        data,
        ClipboardData {
            available_formats: tags(&["text", "rtf", "html", "image", "files"]),
            text: Some("plain".to_string()),
            rtf: Some("{\\rtf1 rich}".to_string()),
            html: Some("<p>html</p>".to_string()),
            image: Some(ImageData { width: 4, height: 2, size: 3, data: vec![1, 2, 3] }),
            files: Some(vec!["/tmp/a.txt".to_string(), "/tmp/b.txt".to_string()]),
        }
    );
    assert_eq!(clipboard.asked.len(), 10);
}

#[test]
fn probe_and_fetch_alternate_in_canonical_order() {
    let mut clipboard = fake(&[ContentFormat::Text, ContentFormat::Image]);
    aggregate(&mut clipboard);
    assert_eq!(
        clipboard.asked,
        vec![
            Request::Probe(ContentFormat::Text),
            Request::Fetch(ContentFormat::Text),
            Request::Probe(ContentFormat::Rtf),
            Request::Probe(ContentFormat::Html),
            Request::Probe(ContentFormat::Image),
            Request::Fetch(ContentFormat::Image),
            Request::Probe(ContentFormat::Files),
        ]
    );
}

#[test]
fn every_subset_is_listed_in_canonical_order() {
    let order = [
        ContentFormat::Text,
        ContentFormat::Rtf,
        ContentFormat::Html,
        ContentFormat::Image,
        ContentFormat::Files,
    ];
    for mask in 0u32..32 {
        let present: Vec<ContentFormat> =
            order.iter().copied().filter(|format| mask & (1 << format.rank()) != 0).collect();
        let mut clipboard = fake(&present);
        let data = aggregate(&mut clipboard);
        let expected: Vec<String> = present.iter().map(|format| format.tag().to_string()).collect();
        assert_eq!(data.available_formats, expected, "mask {}", mask);
        assert_eq!(data.text.is_some(), present.contains(&ContentFormat::Text));
        assert_eq!(data.rtf.is_some(), present.contains(&ContentFormat::Rtf));
        assert_eq!(data.html.is_some(), present.contains(&ContentFormat::Html));
        assert_eq!(data.image.is_some(), present.contains(&ContentFormat::Image));
        assert_eq!(data.files.is_some(), present.contains(&ContentFormat::Files));
        assert_eq!(clipboard.asked.len(), 5 + present.len());
    }
}

#[test]
fn failed_fetch_keeps_the_tag_without_a_value() {
    let mut clipboard = fake(&[ContentFormat::Text, ContentFormat::Image, ContentFormat::Files]);
    clipboard.text = None;
    clipboard.image = None;
    let data = aggregate(&mut clipboard);
    assert_eq!(data.available_formats, tags(&["text", "image", "files"]));
    assert_eq!(data.text, None);
    assert_eq!(data.image, None);
    assert_eq!(data.files, Some(vec!["/tmp/a.txt".to_string(), "/tmp/b.txt".to_string()]));
}

#[test]
fn value_of_an_absent_format_is_never_taken() {
    let mut clipboard = fake(&[ContentFormat::Rtf]);
    let data = aggregate(&mut clipboard);
    assert_eq!(data.available_formats, tags(&["rtf"]));
    assert_eq!(data.rtf, Some("{\\rtf1 rich}".to_string()));
    assert_eq!(data.text, None);
    assert_eq!(data.html, None);
    assert_eq!(data.image, None);
    assert_eq!(data.files, None);
}

#[test]
fn new_aggregation_probes_text_first() {
    let aggregator = Aggregator::new();
    assert_eq!(aggregator.request(), Request::Probe(ContentFormat::Text));
}

#[test]
fn answer_that_does_not_fit_changes_nothing() {
    let aggregator = Aggregator::new();
    let aggregator = aggregator.step(Reply::Text(Some("early".to_string())));
    assert_eq!(aggregator.request(), Request::Probe(ContentFormat::Text));
    let aggregator = aggregator.step(Reply::Present(true));
    assert_eq!(aggregator.request(), Request::Fetch(ContentFormat::Text));
    let aggregator = aggregator.step(Reply::Present(false));
    assert_eq!(aggregator.request(), Request::Fetch(ContentFormat::Text));
    let aggregator = aggregator.step(Reply::Files(Some(vec!["/x".to_string()])));
    assert_eq!(aggregator.request(), Request::Fetch(ContentFormat::Text));
    let aggregator = aggregator.step(Reply::Image(None));
    assert_eq!(aggregator.request(), Request::Fetch(ContentFormat::Text));
    let aggregator = aggregator.step(Reply::Text(Some("now".to_string())));
    assert_eq!(aggregator.request(), Request::Probe(ContentFormat::Rtf));
    let data = aggregator.finish();
    assert_eq!(data.available_formats, tags(&["text"]));
    assert_eq!(data.text, Some("now".to_string()));
    assert_eq!(data.files, None);
}

#[test]
fn answers_after_done_change_nothing() {
    let mut clipboard = fake(&[ContentFormat::Text]);
    let mut aggregator = Aggregator::new();
    while aggregator.request() != Request::Done {
        let reply = answer(&mut clipboard, aggregator.request());
        aggregator = aggregator.step(reply);
    }
    let aggregator = aggregator.step(Reply::Present(true));
    let aggregator = aggregator.step(Reply::Text(Some("late".to_string())));
    assert_eq!(aggregator.request(), Request::Done);
    let data = aggregator.finish();
    assert_eq!(data.available_formats, tags(&["text"]));
    assert_eq!(data.text, Some("plain".to_string()));
}

#[test]
fn snapshot_taken_early_holds_what_was_found_so_far() {
    let aggregator = Aggregator::new();
    let aggregator = aggregator.step(Reply::Present(true));
    let data = aggregator.finish();
    assert_eq!(data.available_formats, tags(&["text"]));
    assert_eq!(data.text, None);
}
