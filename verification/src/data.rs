//! Clipboard snapshots and image payloads, with their mathematical views.

use vstd::prelude::*;

use crate::format::{canonical_order, lemma_tags_distinct, ContentFormat};

verus! {

/// An image as handed to the consumer.
#[derive(Clone, Debug, PartialEq, Eq)]
pub struct ImageData {
    /// Width in pixels; 0 where the source cannot tell.
    pub width: u32,
    /// Height in pixels; 0 where the source cannot tell.
    pub height: u32,
    /// Byte length of `data`, reduced to its 32 low bits.
    pub size: u32,
    /// The encoded image.
    pub data: Vec<u8>,
}

/// One snapshot of the clipboard across the canonical formats.
#[derive(Clone, Debug, PartialEq, Eq)]
pub struct ClipboardData {
    /// Tags of the formats found, in canonical order.
    pub available_formats: Vec<String>,
    pub text: Option<String>,
    pub rtf: Option<String>,
    pub html: Option<String>,
    pub image: Option<ImageData>,
    pub files: Option<Vec<String>>,
}

/// The value of an [`ImageData`].
pub struct ImageDataView {
    pub width: u32,
    pub height: u32,
    pub size: u32,
    pub data: Seq<u8>,
}

/// The value of a [`ClipboardData`]: every string by its characters.
pub struct ClipboardDataView {
    pub available_formats: Seq<Seq<char>>,
    pub text: Option<Seq<char>>,
    pub rtf: Option<Seq<char>>,
    pub html: Option<Seq<char>>,
    pub image: Option<ImageDataView>,
    pub files: Option<Seq<Seq<char>>>,
}

/// A set of canonical formats.
pub struct FormatSet {
    pub text: bool,
    pub rtf: bool,
    pub html: bool,
    pub image: bool,
    pub files: bool,
}

/// The characters of each string of a sequence.
pub open spec fn texts(strings: Seq<String>) -> Seq<Seq<char>> {
    Seq::new(strings.len(), |i: int| strings[i]@)
}

/// The characters of an optional string.
pub open spec fn text_of(string: Option<String>) -> Option<Seq<char>> {
    match string {
        Some(s) => Some(s@),
        None => None,
    }
}

/// The byte count that an image payload of the given length reports: the
/// length itself where it fits 32 bits, else its 32 low bits.
pub open spec fn reported_size(len: nat) -> u32 {
    (len % 0x1_0000_0000) as u32
}

/// The tag of a format if it is listed, nothing otherwise.
pub open spec fn tag_if(listed: bool, format: ContentFormat) -> Seq<Seq<char>> {
    if listed {
        seq![format.spec_tag()]
    } else {
        Seq::empty()
    }
}

impl FormatSet {
    pub open spec fn empty() -> FormatSet {
        FormatSet { text: false, rtf: false, html: false, image: false, files: false }
    }

    pub open spec fn contains(self, format: ContentFormat) -> bool {
        match format {
            ContentFormat::Text => self.text,
            ContentFormat::Rtf => self.rtf,
            ContentFormat::Html => self.html,
            ContentFormat::Image => self.image,
            ContentFormat::Files => self.files,
        }
    }

    pub open spec fn insert(self, format: ContentFormat) -> FormatSet {
        match format {
            ContentFormat::Text => FormatSet { text: true, ..self },
            ContentFormat::Rtf => FormatSet { rtf: true, ..self },
            ContentFormat::Html => FormatSet { html: true, ..self },
            ContentFormat::Image => FormatSet { image: true, ..self },
            ContentFormat::Files => FormatSet { files: true, ..self },
        }
    }

    /// The tags of the first `count` formats of the canonical order that
    /// belong to the set, in that order.
    pub open spec fn tags_below(self, count: int) -> Seq<Seq<char>>
        decreases count,
    {
        if count <= 0 || count > 5 {
            Seq::empty()
        } else {
            self.tags_below(count - 1) + tag_if(
                self.contains(canonical_order()[count - 1]),
                canonical_order()[count - 1],
            )
        }
    }

    /// The tags of the formats of the set, in canonical order.
    pub open spec fn tags(self) -> Seq<Seq<char>> {
        self.tags_below(5)
    }
}

impl View for ImageData {
    type V = ImageDataView;

    open spec fn view(&self) -> ImageDataView {
        ImageDataView { width: self.width, height: self.height, size: self.size, data: self.data@ }
    }
}

impl View for ClipboardData {
    type V = ClipboardDataView;

    open spec fn view(&self) -> ClipboardDataView {
        ClipboardDataView {
            available_formats: texts(self.available_formats@),
            text: text_of(self.text),
            rtf: text_of(self.rtf),
            html: text_of(self.html),
            image: match self.image {
                Some(image) => Some(image@),
                None => None,
            },
            files: match self.files {
                Some(files) => Some(texts(files@)),
                None => None,
            },
        }
    }
}

impl ClipboardDataView {
    /// The snapshot of an empty clipboard.
    pub open spec fn empty() -> ClipboardDataView {
        ClipboardDataView {
            available_formats: Seq::empty(),
            text: None,
            rtf: None,
            html: None,
            image: None,
            files: None,
        }
    }

    /// Whether the tag of a format is listed.
    pub open spec fn lists(self, format: ContentFormat) -> bool {
        self.available_formats.contains(format.spec_tag())
    }

    /// Whether the field of a format holds a value.
    pub open spec fn holds(self, format: ContentFormat) -> bool {
        match format {
            ContentFormat::Text => self.text is Some,
            ContentFormat::Rtf => self.rtf is Some,
            ContentFormat::Html => self.html is Some,
            ContentFormat::Image => self.image is Some,
            ContentFormat::Files => self.files is Some,
        }
    }

    /// The formats whose tags are listed.
    pub open spec fn listed(self) -> FormatSet {
        FormatSet {
            text: self.lists(ContentFormat::Text),
            rtf: self.lists(ContentFormat::Rtf),
            html: self.lists(ContentFormat::Html),
            image: self.lists(ContentFormat::Image),
            files: self.lists(ContentFormat::Files),
        }
    }

    /// Well-formed snapshots list canonical tags only, each at most once and
    /// in canonical order, and hold a value only for a listed format. A
    /// listed format may be left without a value: its fetch failed.
    pub open spec fn wf(self) -> bool {
        &&& self.available_formats == self.listed().tags()
        &&& forall|format: ContentFormat| self.holds(format) ==> self.lists(format)
    }
}

impl ImageData {
    /// Packages an encoded image with the dimensions known of it.
    pub fn new(width: u32, height: u32, data: Vec<u8>) -> (image: ImageData)
        ensures
            image@ == (ImageDataView { width, height, size: reported_size(data@.len()), data: data@ }),
    {
        let size = (data.len() as u64 % 0x1_0000_0000) as u32;
        ImageData { width, height, size, data }
    }
}

impl ClipboardData {
    /// The snapshot of an empty clipboard.
    pub fn empty() -> (data: ClipboardData)
        ensures
            data@ == ClipboardDataView::empty(),
    {
        let data = ClipboardData {
            available_formats: Vec::new(),
            text: None,
            rtf: None,
            html: None,
            image: None,
            files: None,
        };
        assert(data@.available_formats =~= Seq::empty());
        data
    }
}

/// The tags of a set hold exactly the tags of its members.
pub proof fn lemma_tags_membership(set: FormatSet, format: ContentFormat)
    ensures
        set.tags().contains(format.spec_tag()) <==> set.contains(format),
{
    lemma_tags_unfold(set);
    let tags = set.tags();
    lemma_tags_distinct(format, ContentFormat::Text);
    lemma_tags_distinct(format, ContentFormat::Rtf);
    lemma_tags_distinct(format, ContentFormat::Html);
    lemma_tags_distinct(format, ContentFormat::Image);
    lemma_tags_distinct(format, ContentFormat::Files);
    if set.contains(format) {
        let rank = format.spec_rank();
        let before = set.tags_below(rank);
        assert(set.tags_below(rank + 1) == before + seq![format.spec_tag()]);
        assert(set.tags_below(rank + 1)[before.len() as int] == format.spec_tag());
        lemma_tags_prefix(set, rank + 1, 5);
        assert(tags[before.len() as int] == format.spec_tag());
    }
    if tags.contains(format.spec_tag()) {
        let i = choose|i: int| 0 <= i < tags.len() && tags[i] == format.spec_tag();
        lemma_tags_members(set, 5, i);
    }
}

/// Unfolds the tags of a set into its five optional parts.
pub proof fn lemma_tags_unfold(set: FormatSet)
    ensures
        set.tags() == tag_if(set.text, ContentFormat::Text) + tag_if(set.rtf, ContentFormat::Rtf)
            + tag_if(set.html, ContentFormat::Html) + tag_if(set.image, ContentFormat::Image)
            + tag_if(set.files, ContentFormat::Files),
{
    reveal_with_fuel(FormatSet::tags_below, 6);
    assert(set.tags_below(0) =~= Seq::empty());
    assert(set.tags_below(1) =~= tag_if(set.text, ContentFormat::Text));
}

/// The tags of fewer formats open the tags of more.
proof fn lemma_tags_prefix(set: FormatSet, low: int, high: int)
    requires
        0 <= low <= high <= 5,
    ensures
        set.tags_below(low).len() <= set.tags_below(high).len(),
        forall|i: int| 0 <= i < set.tags_below(low).len() ==> set.tags_below(high)[i] == set.tags_below(low)[i],
    decreases high - low,
{
    if low < high {
        lemma_tags_prefix(set, low, high - 1);
    }
}

/// Each entry of the tags of a set is the tag of a member among the formats
/// counted.
proof fn lemma_tags_members(set: FormatSet, count: int, i: int)
    requires
        0 <= count <= 5,
        0 <= i < set.tags_below(count).len(),
    ensures
        exists|format: ContentFormat|
            set.contains(format) && format.spec_rank() < count && #[trigger] format.spec_tag()
                == set.tags_below(count)[i],
    decreases count,
{
    if count > 0 {
        let before = set.tags_below(count - 1);
        if i < before.len() {
            lemma_tags_members(set, count - 1, i);
        } else {
            let format = canonical_order()[count - 1];
            assert(set.contains(format) && format.spec_rank() < count && format.spec_tag()
                == set.tags_below(count)[i]);
        }
    }
}

/// The tags of a set hold no tag twice.
proof fn lemma_tags_no_duplicates(set: FormatSet, count: int)
    requires
        0 <= count <= 5,
    ensures
        set.tags_below(count).no_duplicates(),
    decreases count,
{
    if count > 0 {
        lemma_tags_no_duplicates(set, count - 1);
        let before = set.tags_below(count - 1);
        let all = set.tags_below(count);
        let last = canonical_order()[count - 1];
        assert forall|i: int, j: int| 0 <= i < all.len() && 0 <= j < all.len() && i != j implies all[i]
            != all[j] by {
            if i < before.len() && j >= before.len() {
                lemma_tags_members(set, count - 1, i);
                let format = choose|format: ContentFormat|
                    set.contains(format) && format.spec_rank() < count - 1 && #[trigger] format.spec_tag()
                        == before[i];
                lemma_tags_distinct(format, last);
            } else if j < before.len() && i >= before.len() {
                lemma_tags_members(set, count - 1, j);
                let format = choose|format: ContentFormat|
                    set.contains(format) && format.spec_rank() < count - 1 && #[trigger] format.spec_tag()
                        == before[j];
                lemma_tags_distinct(format, last);
            }
        }
    }
}

/// In a well-formed snapshot a field holds a value only if the tag of its
/// format is listed. The converse does not hold: a listed format whose fetch
/// failed has no value.
pub proof fn lemma_value_is_listed(snapshot: ClipboardDataView, format: ContentFormat)
    requires
        snapshot.wf(),
        snapshot.holds(format),
    ensures
        snapshot.lists(format),
{
}

/// A well-formed snapshot lists no tag twice.
pub proof fn lemma_listed_once(snapshot: ClipboardDataView)
    requires
        snapshot.wf(),
    ensures
        snapshot.available_formats.no_duplicates(),
        snapshot.available_formats.len() <= 5,
{
    lemma_tags_no_duplicates(snapshot.listed(), 5);
    lemma_tags_unfold(snapshot.listed());
}

/// A well-formed snapshot lists its tags in canonical order: of two listed
/// formats, the tag of the one that is probed first comes first. A snapshot
/// that lists text and HTML lists text before HTML.
pub proof fn lemma_listed_in_canonical_order(
    snapshot: ClipboardDataView,
    first: ContentFormat,
    second: ContentFormat,
)
    requires
        snapshot.wf(),
        snapshot.lists(first),
        snapshot.lists(second),
        first.spec_rank() < second.spec_rank(),
    ensures
        exists|i: int, j: int|
            0 <= i < j < snapshot.available_formats.len() && snapshot.available_formats[i]
                == first.spec_tag() && snapshot.available_formats[j] == second.spec_tag(),
{
    let set = snapshot.listed();
    let tags = snapshot.available_formats;
    lemma_tags_membership(set, first);
    lemma_tags_membership(set, second);
    let i = set.tags_below(first.spec_rank()).len() as int;
    let j = set.tags_below(second.spec_rank()).len() as int;
    assert(set.tags_below(first.spec_rank() + 1)[i] == first.spec_tag());
    assert(set.tags_below(second.spec_rank() + 1)[j] == second.spec_tag());
    lemma_tags_prefix(set, first.spec_rank() + 1, second.spec_rank());
    lemma_tags_prefix(set, first.spec_rank() + 1, 5);
    lemma_tags_prefix(set, second.spec_rank() + 1, 5);
    assert(0 <= i < j < tags.len() && tags[i] == first.spec_tag() && tags[j] == second.spec_tag());
}

} // verus!
