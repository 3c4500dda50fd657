//! The five canonical clipboard formats, their tags and their probe order.

use vstd::prelude::*;


verus! {

/// A canonical clipboard format.
#[derive(Clone, Copy, Debug, PartialEq, Eq, Structural)]
pub enum ContentFormat {
    Text,
    Rtf,
    Html,
    Image,
    Files,
}

/// The order in which formats are probed and in which their tags are listed.
pub open spec fn canonical_order() -> Seq<ContentFormat> {
    seq![
        ContentFormat::Text,
        ContentFormat::Rtf,
        ContentFormat::Html,
        ContentFormat::Image,
        ContentFormat::Files,
    ]
}

/// The format that a name given by a caller stands for, if any. Rich text
/// answers to two names.
pub open spec fn format_named(name: Seq<char>) -> Option<ContentFormat> {
    if name == "text"@ {
        Some(ContentFormat::Text)
    } else if name == "html"@ {
        Some(ContentFormat::Html)
    } else if name == "rtf"@ || name == "rich_text"@ {
        Some(ContentFormat::Rtf)
    } else if name == "image"@ {
        Some(ContentFormat::Image)
    } else if name == "files"@ {
        Some(ContentFormat::Files)
    } else {
        None
    }
}

impl ContentFormat {
    /// The tag under which a snapshot lists this format.
    pub open spec fn spec_tag(self) -> Seq<char> {
        match self {
            ContentFormat::Text => "text"@,
            ContentFormat::Rtf => "rtf"@,
            ContentFormat::Html => "html"@,
            ContentFormat::Image => "image"@,
            ContentFormat::Files => "files"@,
        }
    }

    /// The position of this format in the canonical order.
    pub open spec fn spec_rank(self) -> int {
        match self {
            ContentFormat::Text => 0,
            ContentFormat::Rtf => 1,
            ContentFormat::Html => 2,
            ContentFormat::Image => 3,
            ContentFormat::Files => 4,
        }
    }

    pub fn tag(self) -> (tag: &'static str)
        ensures
            tag@ == self.spec_tag(),
    {
        match self {
            ContentFormat::Text => "text",
            ContentFormat::Rtf => "rtf",
            ContentFormat::Html => "html",
            ContentFormat::Image => "image",
            ContentFormat::Files => "files",
        }
    }

    pub fn rank(self) -> (rank: usize)
        ensures
            rank == self.spec_rank(),
    {
        match self {
            ContentFormat::Text => 0,
            ContentFormat::Rtf => 1,
            ContentFormat::Html => 2,
            ContentFormat::Image => 3,
            ContentFormat::Files => 4,
        }
    }

    /// The format at a position of the canonical order.
    pub fn at(rank: usize) -> (format: Option<ContentFormat>)
        ensures
            rank < 5 ==> format == Some(canonical_order()[rank as int]),
            rank >= 5 ==> format is None,
            format matches Some(f) ==> f.spec_rank() == rank,
    {
        if rank == 0 {
            Some(ContentFormat::Text)
        } else if rank == 1 {
            Some(ContentFormat::Rtf)
        } else if rank == 2 {
            Some(ContentFormat::Html)
        } else if rank == 3 {
            Some(ContentFormat::Image)
        } else if rank == 4 {
            Some(ContentFormat::Files)
        } else {
            None
        }
    }
}

/// Two formats share a tag only if they are the same format.
pub proof fn lemma_tags_distinct(a: ContentFormat, b: ContentFormat)
    ensures
        a.spec_tag() == b.spec_tag() <==> a == b,
{
    reveal_strlit("text");
    reveal_strlit("rtf");
    reveal_strlit("html");
    reveal_strlit("image");
    reveal_strlit("files");
    if a != b && a.spec_tag() == b.spec_tag() {
        assert(a.spec_tag().len() == b.spec_tag().len());
        assert(a.spec_tag()[0] == b.spec_tag()[0]);
    }
}

} // verus!
