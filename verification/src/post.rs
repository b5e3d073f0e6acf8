use vstd::prelude::*;
use vstd::string::{StrSliceExecFns, StringExecFns};
use crate::keys::Id;
use crate::text::{decimal, decimal_string};

verus! {

/// How a piece of a draft is set off from the rest.
#[derive(Debug, Clone, Copy, PartialEq, Eq, Hash, Structural)]
pub enum HighlightType {
    Nothing,
    PublicKey,
    Event,
    Relay,
    Hyperlink,
}

/// What a reference within a draft points to.
#[derive(Debug, Clone, Copy, PartialEq, Eq, Hash, Structural)]
pub enum MentionKind {
    EventAddr,
    EventPointer,
    Id,
    Profile,
    Pubkey,
    Relay,
}

/// One piece of a draft.
#[derive(Debug, Clone, PartialEq, Eq, Hash)]
pub enum ContentSegment {
    /// A reference to a key, an event or a relay, as it is written.
    NostrUrl { kind: MentionKind, text: String },
    /// A reference to the tag with this number.
    TagReference(usize),
    /// A link.
    Hyperlink(String),
    /// Anything else.
    Plain(String),
}

/// The mathematical content of a piece of a draft.
pub enum ContentSegmentView {
    NostrUrl { kind: MentionKind, text: Seq<char> },
    TagReference(usize),
    Hyperlink(Seq<char>),
    Plain(Seq<char>),
}

impl View for ContentSegment {
    type V = ContentSegmentView;

    open spec fn view(&self) -> ContentSegmentView {
        match self {
            ContentSegment::NostrUrl { kind, text } => ContentSegmentView::NostrUrl {
                kind: *kind,
                text: text@,
            },
            ContentSegment::TagReference(i) => ContentSegmentView::TagReference(*i),
            ContentSegment::Hyperlink(text) => ContentSegmentView::Hyperlink(text@),
            ContentSegment::Plain(text) => ContentSegmentView::Plain(text@),
        }
    }
}

/// How a reference is set off, by what it points to.
pub open spec fn highlight_of_mention(kind: MentionKind) -> HighlightType {
    match kind {
        MentionKind::EventAddr => HighlightType::Event,
        MentionKind::EventPointer => HighlightType::Event,
        MentionKind::Id => HighlightType::Event,
        MentionKind::Profile => HighlightType::PublicKey,
        MentionKind::Pubkey => HighlightType::PublicKey,
        MentionKind::Relay => HighlightType::Relay,
    }
}

/// How a reference to a tag is written: the tag's number between `#[` and
/// `]`.
pub open spec fn tag_reference_text(i: usize) -> Seq<char> {
    seq!['#', '['] + decimal(i as nat) + seq![']']
}

/// The text of a piece of a draft and how it is set off. A reference to a
/// tag is not set off: nothing says that there is a tag with its number.
pub open spec fn chunk_of(segment: ContentSegmentView) -> (Seq<char>, HighlightType) {
    match segment {
        ContentSegmentView::NostrUrl { kind, text } => (text, highlight_of_mention(kind)),
        ContentSegmentView::TagReference(i) => (tag_reference_text(i), HighlightType::Nothing),
        ContentSegmentView::Hyperlink(text) => (text, HighlightType::Hyperlink),
        ContentSegmentView::Plain(text) => (text, HighlightType::Nothing),
    }
}

/// The texts of a list of chunks with how they are set off.
pub open spec fn chunk_views(chunks: Seq<(String, HighlightType)>) -> Seq<
    (Seq<char>, HighlightType),
> {
    Seq::new(chunks.len(), |i: int| (chunks[i].0@, chunks[i].1))
}

fn mention_highlight(kind: MentionKind) -> (r: HighlightType)
    ensures
        r == highlight_of_mention(kind),
{
    match kind {
        MentionKind::EventAddr => HighlightType::Event,
        MentionKind::EventPointer => HighlightType::Event,
        MentionKind::Id => HighlightType::Event,
        MentionKind::Profile => HighlightType::PublicKey,
        MentionKind::Pubkey => HighlightType::PublicKey,
        MentionKind::Relay => HighlightType::Relay,
    }
}

fn tag_reference(i: usize) -> (r: String)
    ensures
        r@ == tag_reference_text(i),
{
    proof {
        reveal_strlit("#[");
        reveal_strlit("]");
        assert("#["@ =~= seq!['#', '[']);
        assert("]"@ =~= seq![']']);
    }
    let mut out = String::from_str("#[");
    let number = decimal_string(i as u64);
    out.append(number.as_str());
    out.append("]");
    out
}

/// Breaks the pieces of a draft into the chunks that its text area shows,
/// each with how it is set off: references to keys as keys, references to
/// events as events, references to relays as relays, links as links, and
/// the rest not at all.
pub fn textarea_highlighter(segments: &Vec<ContentSegment>) -> (r: Vec<(String, HighlightType)>)
    ensures
        r@.len() == segments@.len(),
        forall|i: int|
            0 <= i < segments@.len() ==> #[trigger] chunk_views(r@)[i] == chunk_of(segments@[i]@),
{
    let mut job: Vec<(String, HighlightType)> = Vec::new();
    let mut i: usize = 0;
    while i < segments.len()
        invariant
            i <= segments.len(),
            job@.len() == i,
            forall|j: int|
                0 <= j < i ==> #[trigger] chunk_views(job@)[j] == chunk_of(segments@[j]@),
        decreases segments.len() - i,
    {
        let ghost before = job@;
        let chunk = match &segments[i] {
            ContentSegment::NostrUrl { kind, text } => (text.clone(), mention_highlight(*kind)),
            ContentSegment::TagReference(n) => (tag_reference(*n), HighlightType::Nothing),
            ContentSegment::Hyperlink(text) => (text.clone(), HighlightType::Hyperlink),
            ContentSegment::Plain(text) => (text.clone(), HighlightType::Nothing),
        };
        job.push(chunk);
        proof {
            assert forall|j: int| 0 <= j < i + 1 implies #[trigger] chunk_views(job@)[j]
                == chunk_of(segments@[j]@) by {
                if j < i {
                    assert(job@[j] == before[j]);
                    assert(chunk_views(before)[j] == chunk_of(segments@[j]@));
                }
            }
        }
        i += 1;
    }
    job
}

/// A tag that a post carries.
#[derive(Debug, Clone, PartialEq, Eq)]
pub enum PostTag {
    /// A warning to show before the content.
    ContentWarning(String),
    /// The mark of the delegation under which the local user posts; the
    /// caller holds what it stands for.
    Delegation,
    /// The subject of the post.
    Subject(String),
}

/// What is handed to the network when a draft is sent.
#[derive(Debug, Clone, PartialEq, Eq)]
pub enum Outgoing {
    /// A post of its own, or a reply where `reply_to` names an event.
    Post { content: String, tags: Vec<PostTag>, reply_to: Option<Id> },
    /// The repost of an event.
    Repost(Id),
}

/// The tags of a post: the content warning, the delegation and the
/// subject, in this order, each where there is one.
pub open spec fn tags_of_post(
    content_warning: Option<String>,
    delegated: bool,
    subject: Option<String>,
) -> Seq<PostTag> {
    let warning = match content_warning {
        Some(warning) => seq![PostTag::ContentWarning(warning)],
        None => Seq::empty(),
    };
    let delegation = if delegated {
        seq![PostTag::Delegation]
    } else {
        Seq::empty()
    };
    let subject = match subject {
        Some(subject) => seq![PostTag::Subject(subject)],
        None => Seq::empty(),
    };
    warning + delegation + subject
}

/// Makes what is sent for a draft. A reply goes out as a post that names
/// the event it replies to, whatever else is set; else a repost goes out as
/// such, without the draft; else the draft goes out as a post of its own.
pub fn compose(
    draft: String,
    content_warning: Option<String>,
    delegated: bool,
    subject: Option<String>,
    replying_to: Option<Id>,
    draft_repost: Option<Id>,
) -> (r: Outgoing)
    ensures
        r is Repost <==> replying_to is None && draft_repost is Some,
        r matches Outgoing::Repost(id) ==> Some(id) == draft_repost,
        r matches Outgoing::Post { content, tags, reply_to } ==> {
            &&& content == draft
            &&& tags@ == tags_of_post(content_warning, delegated, subject)
            &&& reply_to == replying_to
        },
{
    let mut tags: Vec<PostTag> = Vec::new();
    if let Some(warning) = content_warning {
        tags.push(PostTag::ContentWarning(warning));
    }
    if delegated {
        tags.push(PostTag::Delegation);
    }
    if let Some(subject) = subject {
        tags.push(PostTag::Subject(subject));
    }
    assert(tags@ =~= tags_of_post(content_warning, delegated, subject));
    match replying_to {
        Some(id) => Outgoing::Post { content: draft, tags, reply_to: Some(id) },
        None => match draft_repost {
            Some(id) => Outgoing::Repost(id),
            None => Outgoing::Post { content: draft, tags, reply_to: None },
        },
    }
}

/// A draft with a reference added at its end, behind a blank where the
/// draft does not end in one already and is not empty.
pub open spec fn with_mention(draft: Seq<char>, mention: Seq<char>) -> Seq<char> {
    if draft.len() > 0 && draft.last() != ' ' {
        draft + seq![' '] + mention
    } else {
        draft + mention
    }
}

/// Adds a reference to someone at the end of a draft.
pub fn append_mention(draft: &mut String, mention: &str)
    ensures
        final(draft)@ == with_mention(old(draft)@, mention@),
{
    proof {
        reveal_strlit(" ");
        assert(" "@ =~= seq![' ']);
    }
    let n = draft.as_str().unicode_len();
    if n > 0 && draft.as_str().get_char(n - 1) != ' ' {
        draft.append(" ");
    }
    draft.append(mention);
}

} // verus!
