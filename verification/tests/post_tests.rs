use gossip_core::keys::Id;
use gossip_core::post::{
    append_mention, compose, textarea_highlighter, ContentSegment, HighlightType, MentionKind,
    Outgoing, PostTag,
};

#[test]
fn chunks_of_a_draft() {
    let segments = vec![
        ContentSegment::Plain("hello ".to_string()),
        ContentSegment::NostrUrl { kind: MentionKind::Pubkey, text: "nostr:npub1xyz".to_string() },
        ContentSegment::TagReference(12),
        ContentSegment::Hyperlink("https://example.com".to_string()),
        ContentSegment::NostrUrl { kind: MentionKind::Id, text: "nostr:note1abc".to_string() },
        ContentSegment::NostrUrl { kind: MentionKind::Relay, text: "nostr:nrelay1q".to_string() },
    ];
    assert_eq!(
        textarea_highlighter(&segments),
        vec![
            ("hello ".to_string(), HighlightType::Nothing),
            ("nostr:npub1xyz".to_string(), HighlightType::PublicKey),
            ("#[12]".to_string(), HighlightType::Nothing),
            ("https://example.com".to_string(), HighlightType::Hyperlink),
            ("nostr:note1abc".to_string(), HighlightType::Event),
            ("nostr:nrelay1q".to_string(), HighlightType::Relay),
        ]
    );
    assert_eq!(textarea_highlighter(&vec![]), vec![]);
}

#[test]
fn highlight_of_every_kind_of_reference() {
    let table = [
        (MentionKind::EventAddr, HighlightType::Event),
        (MentionKind::EventPointer, HighlightType::Event),
        (MentionKind::Id, HighlightType::Event),
        (MentionKind::Profile, HighlightType::PublicKey),
        (MentionKind::Pubkey, HighlightType::PublicKey),
        (MentionKind::Relay, HighlightType::Relay),
    ];
    for (kind, highlight) in table {
        let chunks =
            textarea_highlighter(&vec![ContentSegment::NostrUrl { kind, text: "x".to_string() }]);
        assert_eq!(chunks, vec![("x".to_string(), highlight)]);
    }
}

#[test]
fn tag_reference_numbers() {
    let chunks = textarea_highlighter(&vec![
        ContentSegment::TagReference(0),
        ContentSegment::TagReference(usize::MAX),
    ]);
    assert_eq!(chunks[0].0, "#[0]");
    assert_eq!(chunks[1].0, format!("#[{}]", usize::MAX));
}

#[test]
fn a_plain_post_carries_its_tags_in_order() {
    let out = compose(
        "hi".to_string(),
        Some("spoiler".to_string()),
        true,
        Some("greeting".to_string()),
        None,
        None,
    );
    assert_eq!(
        out,
        Outgoing::Post {
            content: "hi".to_string(),
            tags: vec![
                PostTag::ContentWarning("spoiler".to_string()),
                PostTag::Delegation,
                PostTag::Subject("greeting".to_string()),
            ],
            reply_to: None,
        }
    );
    let out = compose("hi".to_string(), None, false, None, None, None);
    assert_eq!(out, Outgoing::Post { content: "hi".to_string(), tags: vec![], reply_to: None });
}

#[test]
fn a_reply_wins_over_a_repost() {
    let parent = Id::from_bytes([1; 32]);
    let reposted = Id::from_bytes([2; 32]);
    let out = compose(
        "re".to_string(),
        None,
        false,
        Some("s".to_string()),
        Some(parent),
        Some(reposted),
    );
    assert_eq!(
        out,
        Outgoing::Post {
            content: "re".to_string(),
            tags: vec![PostTag::Subject("s".to_string())],
            reply_to: Some(parent),
        }
    );
    let out = compose("ignored".to_string(), Some("w".to_string()), true, None, None, Some(reposted));
    assert_eq!(out, Outgoing::Repost(reposted));
}

#[test]
fn mention_is_set_off_by_a_blank() {
    let mut draft = "hello".to_string();
    append_mention(&mut draft, "nostr:npub1xyz");
    assert_eq!(draft, "hello nostr:npub1xyz");
    let mut draft = "hello ".to_string();
    append_mention(&mut draft, "nostr:npub1xyz");
    assert_eq!(draft, "hello nostr:npub1xyz");
    let mut draft = String::new();
    append_mention(&mut draft, "nostr:npub1xyz");
    assert_eq!(draft, "nostr:npub1xyz");
    let mut draft = "héllo é".to_string();
    append_mention(&mut draft, "x");
    assert_eq!(draft, "héllo é x");
}
