//! The format aggregator: assembling one snapshot from a live clipboard.
//!
//! The clipboard itself is out of reach of this library, so the aggregator is
//! written as a dialogue. It says what to ask of the clipboard next, the
//! caller asks and hands the answer back, and so on until the snapshot is
//! complete. The formats are taken in canonical order. Each is probed first;
//! only a format that is present is listed and fetched, and a fetch that
//! fails leaves the format listed without a value.

use vstd::prelude::*;
use vstd::string::StringExecFns;

use crate::data::{
    lemma_tags_unfold, text_of, texts, ClipboardData, ClipboardDataView, FormatSet, ImageData,
    ImageDataView,
};
use crate::format::{canonical_order, lemma_tags_distinct, ContentFormat};

verus! {

/// What to ask of the clipboard next.
#[derive(Clone, Copy, Debug, PartialEq, Eq, Structural)]
pub enum Request {
    /// Ask whether the format is present.
    Probe(ContentFormat),
    /// Read the content of the format.
    Fetch(ContentFormat),
    /// Nothing more: the snapshot is complete.
    Done,
}

/// What the clipboard answered. A fetch answers `None` where it failed.
#[derive(Clone, Debug, PartialEq, Eq)]
pub enum Reply {
    /// The answer to a probe.
    Present(bool),
    /// The answer to a fetch of text, rich text or HTML.
    Text(Option<String>),
    /// The answer to a fetch of the image.
    Image(Option<ImageData>),
    /// The answer to a fetch of the file list.
    Files(Option<Vec<String>>),
}

/// The value of a [`Reply`].
pub enum ReplyView {
    Present(bool),
    Text(Option<Seq<char>>),
    Image(Option<ImageDataView>),
    Files(Option<Seq<Seq<char>>>),
}

impl View for Reply {
    type V = ReplyView;

    open spec fn view(&self) -> ReplyView {
        match *self {
            Reply::Present(present) => ReplyView::Present(present),
            Reply::Text(text) => ReplyView::Text(text_of(text)),
            Reply::Image(image) => ReplyView::Image(
                match image {
                    Some(image) => Some(image@),
                    None => None,
                },
            ),
            Reply::Files(files) => ReplyView::Files(
                match files {
                    Some(files) => Some(texts(files@)),
                    None => None,
                },
            ),
        }
    }
}

/// The state of an aggregation: how many formats are dealt with, whether the
/// next one is being fetched, and the snapshot so far.
pub struct AggregatorView {
    pub next: int,
    pub fetching: bool,
    pub data: ClipboardDataView,
}

impl ClipboardDataView {
    /// This snapshot with one more tag at the end of its list.
    pub open spec fn with_tag(self, format: ContentFormat) -> ClipboardDataView {
        ClipboardDataView {
            available_formats: self.available_formats.push(format.spec_tag()),
            ..self
        }
    }
}

impl AggregatorView {
    /// The state before anything was asked.
    pub open spec fn initial() -> AggregatorView {
        AggregatorView { next: 0, fetching: false, data: ClipboardDataView::empty() }
    }

    /// What this state asks of the clipboard.
    pub open spec fn request(self) -> Request {
        if self.next < 0 || self.next >= 5 {
            Request::Done
        } else if self.fetching {
            Request::Fetch(canonical_order()[self.next])
        } else {
            Request::Probe(canonical_order()[self.next])
        }
    }

    /// The state after a fetch was answered and its value, if any, stored.
    pub open spec fn fetched(self, data: ClipboardDataView) -> AggregatorView {
        AggregatorView { next: self.next + 1, fetching: false, data }
    }

    /// The state after an answer. An answer that does not fit the request
    /// changes nothing.
    pub open spec fn step(self, reply: ReplyView) -> AggregatorView {
        match (self.request(), reply) {
            (Request::Probe(format), ReplyView::Present(true)) => AggregatorView {
                fetching: true,
                data: self.data.with_tag(format),
                ..self
            },
            (Request::Probe(_), ReplyView::Present(false)) => AggregatorView {
                next: self.next + 1,
                ..self
            },
            (Request::Fetch(ContentFormat::Text), ReplyView::Text(text)) => self.fetched(
                ClipboardDataView { text, ..self.data },
            ),
            (Request::Fetch(ContentFormat::Rtf), ReplyView::Text(rtf)) => self.fetched(
                ClipboardDataView { rtf, ..self.data },
            ),
            (Request::Fetch(ContentFormat::Html), ReplyView::Text(html)) => self.fetched(
                ClipboardDataView { html, ..self.data },
            ),
            (Request::Fetch(ContentFormat::Image), ReplyView::Image(image)) => self.fetched(
                ClipboardDataView { image, ..self.data },
            ),
            (Request::Fetch(ContentFormat::Files), ReplyView::Files(files)) => self.fetched(
                ClipboardDataView { files, ..self.data },
            ),
            _ => self,
        }
    }

    /// What holds of every state that a dialogue can reach: the snapshot so
    /// far is well formed and speaks only of formats already taken up.
    pub open spec fn wf(self) -> bool {
        &&& 0 <= self.next <= 5
        &&& self.data.wf()
        &&& self.fetching ==> self.next < 5 && self.data.lists(canonical_order()[self.next])
        &&& forall|format: ContentFormat| #[trigger]
            self.data.holds(format) ==> format.spec_rank() < self.next
        &&& forall|format: ContentFormat| #[trigger]
            self.data.lists(format) ==> format.spec_rank() < self.next || (self.fetching
                && format.spec_rank() == self.next)
    }
}

/// An aggregation in progress.
pub struct Aggregator {
    next: usize,
    fetching: bool,
    data: ClipboardData,
}

impl View for Aggregator {
    type V = AggregatorView;

    closed spec fn view(&self) -> AggregatorView {
        AggregatorView { next: self.next as int, fetching: self.fetching, data: self.data@ }
    }
}

impl Aggregator {
    #[verifier::type_invariant]
    spec fn reachable(self) -> bool {
        self@.wf()
    }

    /// Starts an aggregation: nothing asked, nothing found yet.
    pub fn new() -> (aggregator: Aggregator)
        ensures
            aggregator@ == AggregatorView::initial(),
    {
        proof {
            lemma_initial_wf();
        }
        Aggregator { next: 0, fetching: false, data: ClipboardData::empty() }
    }

    /// What to ask of the clipboard next.
    pub fn request(&self) -> (request: Request)
        ensures
            request == self@.request(),
            self@.wf(),
    {
        proof {
            use_type_invariant(self);
        }
        match ContentFormat::at(self.next) {
            None => Request::Done,
            Some(format) => if self.fetching {
                Request::Fetch(format)
            } else {
                Request::Probe(format)
            },
        }
    }

    /// Takes the clipboard's answer to the current request.
    pub fn step(self, reply: Reply) -> (after: Aggregator)
        ensures
            after@ == self@.step(reply@),
            after@.wf(),
    {
        proof {
            use_type_invariant(&self);
            lemma_step_wf(self@, reply@);
        }
        let request = self.request();
        let Aggregator { next, fetching, data } = self;
        match (request, reply) {
            (Request::Probe(format), Reply::Present(true)) => {
                let ClipboardData { available_formats, text, rtf, html, image, files } = data;
                let mut available_formats = available_formats;
                available_formats.push(String::from_str(format.tag()));
                let data = ClipboardData { available_formats, text, rtf, html, image, files };
                assert(data@.available_formats =~= self@.data.with_tag(format).available_formats);
                Aggregator { next, fetching: true, data }
            },
            (Request::Probe(_), Reply::Present(false)) => Aggregator {
                next: next + 1,
                fetching,
                data,
            },
            (Request::Fetch(ContentFormat::Text), Reply::Text(text)) => {
                let ClipboardData { available_formats, text: _, rtf, html, image, files } = data;
                let data = ClipboardData { available_formats, text, rtf, html, image, files };
                Aggregator { next: next + 1, fetching: false, data }
            },
            (Request::Fetch(ContentFormat::Rtf), Reply::Text(rtf)) => {
                let ClipboardData { available_formats, text, rtf: _, html, image, files } = data;
                let data = ClipboardData { available_formats, text, rtf, html, image, files };
                Aggregator { next: next + 1, fetching: false, data }
            },
            (Request::Fetch(ContentFormat::Html), Reply::Text(html)) => {
                let ClipboardData { available_formats, text, rtf, html: _, image, files } = data;
                let data = ClipboardData { available_formats, text, rtf, html, image, files };
                Aggregator { next: next + 1, fetching: false, data }
            },
            (Request::Fetch(ContentFormat::Image), Reply::Image(image)) => {
                let ClipboardData { available_formats, text, rtf, html, image: _, files } = data;
                let data = ClipboardData { available_formats, text, rtf, html, image, files };
                Aggregator { next: next + 1, fetching: false, data }
            },
            (Request::Fetch(ContentFormat::Files), Reply::Files(files)) => {
                let ClipboardData { available_formats, text, rtf, html, image, files: _ } = data;
                let data = ClipboardData { available_formats, text, rtf, html, image, files };
                Aggregator { next: next + 1, fetching: false, data }
            },
            (_, _) => Aggregator { next, fetching, data },
        }
    }

    /// The snapshot assembled so far. It is complete once the request is
    /// `Done`, and well formed at any time.
    pub fn finish(self) -> (data: ClipboardData)
        ensures
            data@ == self@.data,
            data@.wf(),
    {
        proof {
            use_type_invariant(&self);
        }
        self.data
    }
}

/// The initial state is well formed.
pub proof fn lemma_initial_wf()
    ensures
        AggregatorView::initial().wf(),
{
    let data = ClipboardDataView::empty();
    assert(forall|format: ContentFormat| !data.lists(format));
    lemma_tags_unfold(data.listed());
    assert(data.available_formats =~= data.listed().tags());
}

/// Adding the tag of a format lists that format and changes nothing else.
pub proof fn lemma_with_tag_lists(data: ClipboardDataView, format: ContentFormat, other: ContentFormat)
    ensures
        data.with_tag(format).lists(other) <==> data.lists(other) || other == format,
{
    let before = data.available_formats;
    let after = data.with_tag(format).available_formats;
    lemma_tags_distinct(other, format);
    if data.lists(other) {
        let i = choose|i: int| 0 <= i < before.len() && before[i] == other.spec_tag();
        assert(after[i] == other.spec_tag());
    }
    if other == format {
        assert(after[before.len() as int] == other.spec_tag());
    }
}

/// Every answer leads from a well-formed state to a well-formed state.
pub proof fn lemma_step_wf(state: AggregatorView, reply: ReplyView)
    requires
        state.wf(),
    ensures
        state.step(reply).wf(),
{
    let after = state.step(reply);
    match (state.request(), reply) {
        (Request::Probe(format), ReplyView::Present(true)) => {
            assert forall|other: ContentFormat| after.data.lists(other) <==> state.data.lists(other)
                || other == format by {
                lemma_with_tag_lists(state.data, format, other);
            }
            assert(after.data.listed() == state.data.listed().insert(format));
            lemma_tags_unfold(state.data.listed());
            lemma_tags_unfold(after.data.listed());
            assert(after.data.available_formats =~= after.data.listed().tags());
        },
        _ => {},
    }
}

/// A clipboard as an aggregation meets it: the formats it reports as
/// present, and what a fetch of each format yields, `None` where the fetch
/// fails.
pub struct ClipboardModel {
    pub present: FormatSet,
    pub text: Option<Seq<char>>,
    pub rtf: Option<Seq<char>>,
    pub html: Option<Seq<char>>,
    pub image: Option<ImageDataView>,
    pub files: Option<Seq<Seq<char>>>,
}

impl ClipboardModel {
    /// What this clipboard answers to a request.
    pub open spec fn answer(self, request: Request) -> ReplyView {
        match request {
            Request::Probe(format) => ReplyView::Present(self.present.contains(format)),
            Request::Fetch(ContentFormat::Text) => ReplyView::Text(self.text),
            Request::Fetch(ContentFormat::Rtf) => ReplyView::Text(self.rtf),
            Request::Fetch(ContentFormat::Html) => ReplyView::Text(self.html),
            Request::Fetch(ContentFormat::Image) => ReplyView::Image(self.image),
            Request::Fetch(ContentFormat::Files) => ReplyView::Files(self.files),
            Request::Done => ReplyView::Present(false),
        }
    }

    /// The snapshot of this clipboard: the tags of the formats present, in
    /// canonical order, and for each of them what its fetch yields.
    pub open spec fn snapshot(self) -> ClipboardDataView {
        ClipboardDataView {
            available_formats: self.present.tags(),
            text: if self.present.text {
                self.text
            } else {
                None
            },
            rtf: if self.present.rtf {
                self.rtf
            } else {
                None
            },
            html: if self.present.html {
                self.html
            } else {
                None
            },
            image: if self.present.image {
                self.image
            } else {
                None
            },
            files: if self.present.files {
                self.files
            } else {
                None
            },
        }
    }
}

/// The state reached from `state` by answering its requests from one
/// clipboard, for at most `turns` requests.
pub open spec fn dialogue(state: AggregatorView, clipboard: ClipboardModel, turns: nat) -> AggregatorView
    decreases turns,
{
    if turns == 0 || state.request() == Request::Done {
        state
    } else {
        dialogue(state.step(clipboard.answer(state.request())), clipboard, (turns - 1) as nat)
    }
}

/// The requests that a state may still make: two for each format not yet
/// taken up, one less where the next format is already being fetched.
pub open spec fn turns_left(state: AggregatorView) -> int {
    2 * (5 - state.next) - if state.fetching {
        1int
    } else {
        0int
    }
}

/// Whether the snapshot so far is that of the clipboard, as far as the
/// formats already taken up go.
pub open spec fn follows(state: AggregatorView, clipboard: ClipboardModel) -> bool {
    let taken = if state.fetching {
        state.next + 1
    } else {
        state.next
    };
    let snapshot = clipboard.snapshot();
    &&& state.wf()
    &&& state.data.available_formats == clipboard.present.tags_below(taken)
    &&& state.next > 0 ==> state.data.text == snapshot.text
    &&& state.next > 1 ==> state.data.rtf == snapshot.rtf
    &&& state.next > 2 ==> state.data.html == snapshot.html
    &&& state.next > 3 ==> state.data.image == snapshot.image
    &&& state.next > 4 ==> state.data.files == snapshot.files
}

/// Answering a request from the clipboard keeps the snapshot in step with
/// it, and uses up at least one of the turns left.
pub proof fn lemma_step_follows(state: AggregatorView, clipboard: ClipboardModel)
    requires
        follows(state, clipboard),
        state.request() != Request::Done,
    ensures
        follows(state.step(clipboard.answer(state.request())), clipboard),
        turns_left(state.step(clipboard.answer(state.request()))) < turns_left(state),
{
    let reply = clipboard.answer(state.request());
    let after = state.step(reply);
    lemma_step_wf(state, reply);
    reveal_with_fuel(FormatSet::tags_below, 2);
    match state.request() {
        Request::Probe(format) => {
            assert(!state.data.holds(format));
            assert(after.data.available_formats =~= clipboard.present.tags_below(state.next + 1));
        },
        Request::Fetch(format) => {
            lemma_tags_below_lists(clipboard.present, state.next + 1, format);
        },
        Request::Done => {},
    }
}

/// A tag among the tags of the first formats of a set is the tag of a
/// member.
proof fn lemma_tags_below_lists(set: FormatSet, count: int, format: ContentFormat)
    requires
        0 <= count <= 5,
        set.tags_below(count).contains(format.spec_tag()),
    ensures
        set.contains(format),
    decreases count,
{
    if count > 0 {
        let before = set.tags_below(count - 1);
        let all = set.tags_below(count);
        let i = choose|i: int| 0 <= i < all.len() && all[i] == format.spec_tag();
        if i < before.len() {
            assert(before[i] == format.spec_tag());
            lemma_tags_below_lists(set, count - 1, format);
        } else {
            lemma_tags_distinct(format, canonical_order()[count - 1]);
        }
    }
}

/// A dialogue that follows a clipboard for as many turns as are left ends
/// with that clipboard's snapshot.
pub proof fn lemma_dialogue_completes(state: AggregatorView, clipboard: ClipboardModel, turns: nat)
    requires
        follows(state, clipboard),
        turns >= turns_left(state),
    ensures
        dialogue(state, clipboard, turns).wf(),
        dialogue(state, clipboard, turns).request() == Request::Done,
        dialogue(state, clipboard, turns).data == clipboard.snapshot(),
    decreases turns,
{
    if state.request() == Request::Done {
        assert(state.next == 5);
    } else {
        lemma_step_follows(state, clipboard);
        lemma_dialogue_completes(
            state.step(clipboard.answer(state.request())),
            clipboard,
            (turns - 1) as nat,
        );
    }
}

/// An aggregation against any clipboard is complete after at most ten
/// answers, and its snapshot is then the clipboard's: the tags of the
/// formats present, in canonical order, and for each present format the
/// value its fetch gave, with no value for an absent format. That snapshot
/// is well formed.
pub proof fn lemma_aggregation_yields_snapshot(clipboard: ClipboardModel, turns: nat)
    requires
        turns >= 10,
    ensures
        dialogue(AggregatorView::initial(), clipboard, turns).request() == Request::Done,
        dialogue(AggregatorView::initial(), clipboard, turns).data == clipboard.snapshot(),
        clipboard.snapshot().wf(),
{
    lemma_initial_wf();
    assert(AggregatorView::initial().data.available_formats =~= clipboard.present.tags_below(0));
    lemma_dialogue_completes(AggregatorView::initial(), clipboard, turns);
}

} // verus!
