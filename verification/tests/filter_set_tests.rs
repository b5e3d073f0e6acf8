use gossip_core::filter::{EventKind, Filter, TagFilter, Unixtime};
use gossip_core::filter_set::{DmChannel, FeedRange, FilterContext, FilterSet, NAddr};
use gossip_core::keys::{Id, PublicKey};

fn key(n: u8) -> PublicKey {
    PublicKey::from_bytes([n; 32])
}

fn hex_of(n: u8) -> String {
    format!("{:02x}", n).repeat(32)
}

fn context(identity: Option<PublicKey>) -> FilterContext {
    FilterContext {
        identity,
        load_more_count: 35,
        avoid_spam_on_unsafe_relays: true,
        subscribed_pubkeys: vec![key(7), key(8)],
        augment_kinds: vec![EventKind::Other(5), EventKind::Other(7), EventKind::Other(9735)],
        displayable_kinds: vec![EventKind::Other(1), EventKind::Other(6), EventKind::Other(30023)],
        displayable_kinds_with_dms: vec![
            EventKind::Other(1),
            EventKind::EncryptedDirectMessage,
            EventKind::Other(6),
            EventKind::GiftWrap,
            EventKind::Other(14),
        ],
        related_kinds: vec![EventKind::Other(1), EventKind::Other(5), EventKind::Other(7)],
    }
}

fn bare() -> Filter {
    Filter {
        authors: vec![],
        kinds: vec![],
        tags: vec![],
        since: None,
        until: None,
        limit: None,
        search: None,
    }
}

#[test]
fn chunk_before_gives_until_and_limit() {
    let range = FeedRange::ChunkBefore { until: Unixtime(1_700_000_000), limit: 20 };
    assert_eq!(range.since_until_limit(), (None, Some(Unixtime(1_700_000_000)), Some(20)));
}

#[test]
fn after_gives_since_alone() {
    let range = FeedRange::After { since: Unixtime(1_700_000_000) };
    assert_eq!(range.since_until_limit(), (Some(Unixtime(1_700_000_000)), None, None));
}

#[test]
fn hex_string_of_a_key() {
    let mut bytes = [0u8; 32];
    bytes[0] = 0x5d;
    bytes[1] = 0xf6;
    bytes[31] = 0x0a;
    let expected = format!("5df6{}0a", "00".repeat(29));
    assert_eq!(PublicKey::from_bytes(bytes).as_hex_string(), expected);
    assert_eq!(Id::from_bytes(bytes).as_hex_string(), expected);
}

#[test]
fn handles_of_every_variant() {
    let anchor = Unixtime(100);
    let addr = NAddr { d: "x".to_string(), relays: vec![], kind: EventKind::Other(30023), author: key(1) };
    let table: Vec<(FilterSet, bool, bool, &str, &str)> = vec![
        (FilterSet::Augments(vec![]), true, false, "augments", "temp_augments"),
        (FilterSet::Config, false, false, "config_feed", "config_feed"),
        (FilterSet::Discover(vec![]), true, false, "discover_feed", "temp_discover_feed"),
        (FilterSet::DmChannel(DmChannel::new(vec![])), false, false, "dm_channel", "dm_channel"),
        (FilterSet::FollowersOf(key(1)), true, false, "followers_of", "temp_followers_of"),
        (
            FilterSet::GeneralFeedFuture { pubkeys: vec![], anchor },
            false,
            false,
            "general_feed",
            "general_feed",
        ),
        (
            FilterSet::GeneralFeedChunk { pubkeys: vec![], anchor },
            true,
            true,
            "general_feed_chunk",
            "temp_general_feed_chunk_42",
        ),
        (
            FilterSet::Giftwraps(FeedRange::After { since: anchor }),
            false,
            false,
            "giftwraps",
            "giftwraps",
        ),
        (FilterSet::GlobalFeedFuture(anchor), false, false, "global_feed", "global_feed"),
        (
            FilterSet::GlobalFeedChunk(anchor),
            true,
            true,
            "global_feed_chunk",
            "temp_global_feed_chunk_42",
        ),
        (FilterSet::InboxFeedFuture(anchor), false, false, "inbox_feed", "inbox_feed"),
        (
            FilterSet::InboxFeedChunk(anchor),
            true,
            true,
            "inbox_feed_chunk",
            "temp_inbox_feed_chunk_42",
        ),
        (FilterSet::Metadata(vec![]), true, false, "subscribe_metadata", "temp_subscribe_metadata"),
        (FilterSet::Nip46, false, false, "nip46", "nip46"),
        (
            FilterSet::PersonFeedFuture { pubkey: key(1), anchor },
            false,
            false,
            "person_feed",
            "person_feed",
        ),
        (
            FilterSet::PersonFeedChunk { pubkey: key(1), anchor },
            true,
            true,
            "person_feed_chunk",
            "temp_person_feed_chunk_42",
        ),
        (FilterSet::RepliesToId(Id::from_bytes([3; 32])), false, false, "id_replies", "id_replies"),
        (FilterSet::RepliesToAddr(addr), false, false, "addr_replies", "addr_replies"),
        (FilterSet::Search("cats".to_string()), true, false, "relay_search", "temp_relay_search"),
    ];
    assert_eq!(table.len(), 19);
    for (request, temporary, duplicates, inner, handle) in table.iter() {
        assert_eq!(request.temporary(), *temporary);
        assert_eq!(request.can_have_duplicates(), *duplicates);
        assert_eq!(request.is_loading_more(), *duplicates);
        assert_eq!(request.inner_handle(), *inner);
        assert_eq!(request.handle(42), *handle);
        assert_eq!(request.handle(42), request.handle(42));
        assert_eq!(request.handle(42).starts_with("temp_"), *temporary);
        assert_eq!(request.handle(42).ends_with("_42"), *duplicates);
    }
    for (i, a) in table.iter().enumerate() {
        for (j, b) in table.iter().enumerate() {
            if i != j {
                assert_ne!(a.0.handle(42), b.0.handle(42));
                assert_ne!(a.0.handle(1), b.0.handle(11));
            }
        }
    }
}

#[test]
fn handle_job_numbers() {
    let chunk = FilterSet::GlobalFeedChunk(Unixtime(0));
    assert_eq!(chunk.handle(0), "temp_global_feed_chunk_0");
    assert_eq!(chunk.handle(9), "temp_global_feed_chunk_9");
    assert_eq!(chunk.handle(10), "temp_global_feed_chunk_10");
    assert_eq!(chunk.handle(u64::MAX), "temp_global_feed_chunk_18446744073709551615");
}

#[test]
fn no_filters_without_identity() {
    let ctx = context(None);
    let anchor = Unixtime(100);
    let requests = vec![
        FilterSet::Config,
        FilterSet::DmChannel(DmChannel::new(vec![key(2)])),
        FilterSet::Giftwraps(FeedRange::After { since: anchor }),
        FilterSet::InboxFeedFuture(anchor),
        FilterSet::InboxFeedChunk(anchor),
        FilterSet::Nip46,
    ];
    for request in requests.iter() {
        assert_eq!(request.filters(false, &ctx), Vec::<Filter>::new());
        assert_eq!(request.filters(true, &ctx), Vec::<Filter>::new());
    }
}

#[test]
fn no_filters_without_authors() {
    let ctx = context(Some(key(1)));
    let anchor = Unixtime(100);
    let requests = vec![
        FilterSet::Discover(vec![]),
        FilterSet::Metadata(vec![]),
        FilterSet::GeneralFeedFuture { pubkeys: vec![], anchor },
        FilterSet::GeneralFeedChunk { pubkeys: vec![], anchor },
    ];
    for request in requests.iter() {
        assert_eq!(request.filters(false, &ctx), Vec::<Filter>::new());
        assert_eq!(request.filters(true, &ctx), Vec::<Filter>::new());
    }
}

#[test]
fn config_filter() {
    let ctx = context(Some(key(1)));
    let expected = Filter {
        authors: vec![key(1)],
        kinds: vec![
            EventKind::Metadata,
            EventKind::ContactList,
            EventKind::MuteList,
            EventKind::FollowSets,
            EventKind::RelayList,
            EventKind::DmRelayList,
            EventKind::BookmarkList,
            EventKind::UserServerList,
        ],
        ..bare()
    };
    assert_eq!(FilterSet::Config.filters(true, &ctx), vec![expected]);
}

#[test]
fn discover_and_metadata_filters() {
    let ctx = context(None);
    let expected = Filter {
        authors: vec![key(2), key(3)],
        kinds: vec![EventKind::RelayList, EventKind::DmRelayList],
        ..bare()
    };
    assert_eq!(FilterSet::Discover(vec![key(2), key(3)]).filters(false, &ctx), vec![expected]);
    let expected = Filter {
        authors: vec![key(2)],
        kinds: vec![
            EventKind::ContactList,
            EventKind::Metadata,
            EventKind::RelayList,
            EventKind::DmRelayList,
            EventKind::HandlerRecommendation,
        ],
        ..bare()
    };
    assert_eq!(FilterSet::Metadata(vec![key(2)]).filters(false, &ctx), vec![expected]);
}

#[test]
fn augments_filter() {
    let ctx = context(None);
    let request = FilterSet::Augments(vec![Id::from_bytes([0xab; 32]), Id::from_bytes([1; 32])]);
    let expected = Filter {
        kinds: ctx.augment_kinds.clone(),
        tags: vec![TagFilter { letter: 'e', values: vec![hex_of(0xab), hex_of(1)] }],
        ..bare()
    };
    assert_eq!(request.filters(false, &ctx), vec![expected]);
}

#[test]
fn dm_channel_filter() {
    let ctx = context(Some(key(1)));
    let request = FilterSet::DmChannel(DmChannel::new(vec![key(2), key(3)]));
    let expected = Filter {
        authors: vec![key(2), key(3), key(1)],
        kinds: vec![EventKind::EncryptedDirectMessage],
        tags: vec![TagFilter { letter: 'p', values: vec![hex_of(2), hex_of(3), hex_of(1)] }],
        ..bare()
    };
    assert_eq!(request.filters(false, &ctx), vec![expected]);
}

#[test]
fn followers_of_filter() {
    let ctx = context(None);
    let expected = Filter {
        kinds: vec![EventKind::ContactList],
        tags: vec![TagFilter { letter: 'p', values: vec![hex_of(9)] }],
        ..bare()
    };
    assert_eq!(FilterSet::FollowersOf(key(9)).filters(false, &ctx), vec![expected]);
}

#[test]
fn general_feed_filters() {
    let ctx = context(None);
    let anchor = Unixtime(1_700_000_000);
    let future = FilterSet::GeneralFeedFuture { pubkeys: vec![key(2)], anchor };
    let expected = Filter {
        authors: vec![key(2)],
        kinds: ctx.displayable_kinds.clone(),
        since: Some(anchor),
        ..bare()
    };
    assert_eq!(future.filters(false, &ctx), vec![expected]);
    let chunk = FilterSet::GeneralFeedChunk { pubkeys: vec![key(2)], anchor };
    let expected = Filter {
        authors: vec![key(2)],
        kinds: ctx.displayable_kinds.clone(),
        until: Some(anchor),
        limit: Some(35),
        ..bare()
    };
    assert_eq!(chunk.filters(false, &ctx), vec![expected]);
}

#[test]
fn giftwraps_are_backdated_by_a_week() {
    let ctx = context(Some(key(1)));
    let request = FilterSet::Giftwraps(FeedRange::After { since: Unixtime(1_700_000_000) });
    let expected = Filter {
        kinds: vec![EventKind::GiftWrap],
        tags: vec![TagFilter { letter: 'p', values: vec![hex_of(1)] }],
        since: Some(Unixtime(1_700_000_000 - 604_800)),
        ..bare()
    };
    assert_eq!(request.filters(false, &ctx), vec![expected]);
    let request =
        FilterSet::Giftwraps(FeedRange::ChunkBefore { until: Unixtime(1_700_000_000), limit: 5 });
    let expected = Filter {
        kinds: vec![EventKind::GiftWrap],
        tags: vec![TagFilter { letter: 'p', values: vec![hex_of(1)] }],
        until: Some(Unixtime(1_700_000_000)),
        limit: Some(5),
        ..bare()
    };
    assert_eq!(request.filters(true, &ctx), vec![expected]);
}

#[test]
fn giftwraps_backdating_stops_at_the_earliest_time() {
    let ctx = context(Some(key(1)));
    let request = FilterSet::Giftwraps(FeedRange::After { since: Unixtime(i64::MIN + 10) });
    let filters = request.filters(false, &ctx);
    assert_eq!(filters.len(), 1);
    assert_eq!(filters[0].since, Some(Unixtime(i64::MIN)));
}

#[test]
fn global_feed_filters() {
    let ctx = context(None);
    let anchor = Unixtime(50);
    let expected =
        Filter { kinds: ctx.displayable_kinds.clone(), since: Some(anchor), ..bare() };
    assert_eq!(FilterSet::GlobalFeedFuture(anchor).filters(false, &ctx), vec![expected]);
    let expected = Filter {
        kinds: ctx.displayable_kinds.clone(),
        until: Some(anchor),
        limit: Some(35),
        ..bare()
    };
    assert_eq!(FilterSet::GlobalFeedChunk(anchor).filters(false, &ctx), vec![expected]);
}

#[test]
fn inbox_filters_leave_gift_wraps_out() {
    let ctx = context(Some(key(1)));
    let anchor = Unixtime(50);
    let kinds = vec![
        EventKind::Other(1),
        EventKind::EncryptedDirectMessage,
        EventKind::Other(6),
        EventKind::Other(14),
    ];
    let expected = Filter {
        kinds: kinds.clone(),
        tags: vec![TagFilter { letter: 'p', values: vec![hex_of(1)] }],
        since: Some(anchor),
        ..bare()
    };
    assert_eq!(FilterSet::InboxFeedFuture(anchor).filters(true, &ctx), vec![expected]);
    let expected = Filter {
        authors: vec![key(7), key(8)],
        kinds,
        tags: vec![TagFilter { letter: 'p', values: vec![hex_of(1)] }],
        until: Some(anchor),
        limit: Some(35),
        ..bare()
    };
    assert_eq!(FilterSet::InboxFeedChunk(anchor).filters(false, &ctx), vec![expected]);
}

#[test]
fn inbox_leaves_out_gift_wraps_by_number() {
    let mut ctx = context(Some(key(1)));
    ctx.displayable_kinds_with_dms = vec![EventKind::Other(1059), EventKind::Other(1)];
    let filter = FilterSet::inbox_base_filter(key(1), true, &ctx);
    assert_eq!(filter.kinds, vec![EventKind::Other(1)]);
}

#[test]
fn person_feed_filters() {
    let ctx = context(None);
    let anchor = Unixtime(50);
    let future = FilterSet::PersonFeedFuture { pubkey: key(4), anchor };
    let expected = Filter {
        authors: vec![key(4)],
        kinds: ctx.displayable_kinds.clone(),
        since: Some(anchor),
        ..bare()
    };
    assert_eq!(future.filters(false, &ctx), vec![expected]);
    let chunk = FilterSet::PersonFeedChunk { pubkey: key(4), anchor };
    let expected = Filter {
        authors: vec![key(4)],
        kinds: ctx.displayable_kinds.clone(),
        until: Some(anchor),
        limit: Some(35),
        ..bare()
    };
    assert_eq!(chunk.filters(false, &ctx), vec![expected]);
}

#[test]
fn replies_are_held_to_subscribed_authors_on_unsafe_relays() {
    let mut ctx = context(None);
    let request = FilterSet::RepliesToId(Id::from_bytes([3; 32]));
    let guarded = Filter {
        authors: vec![key(7), key(8)],
        kinds: ctx.related_kinds.clone(),
        tags: vec![TagFilter { letter: 'e', values: vec![hex_of(3)] }],
        ..bare()
    };
    let open = Filter { authors: vec![], ..guarded.clone() };
    assert_eq!(request.filters(false, &ctx), vec![guarded]);
    assert_eq!(request.filters(true, &ctx), vec![open.clone()]);
    ctx.avoid_spam_on_unsafe_relays = false;
    assert_eq!(request.filters(false, &ctx), vec![open]);
}

#[test]
fn replies_to_an_address() {
    let ctx = context(None);
    let addr = NAddr {
        d: "my-article".to_string(),
        relays: vec![],
        kind: EventKind::Other(30023),
        author: key(0x1f),
    };
    assert_eq!(addr.tag_value(), format!("30023:{}:my-article", hex_of(0x1f)));
    let request = FilterSet::RepliesToAddr(addr);
    let expected = Filter {
        authors: vec![key(7), key(8)],
        kinds: ctx.related_kinds.clone(),
        tags: vec![TagFilter {
            letter: 'a',
            values: vec![format!("30023:{}:my-article", hex_of(0x1f))],
        }],
        ..bare()
    };
    assert_eq!(request.filters(false, &ctx), vec![expected]);
}

#[test]
fn search_ignores_the_spam_guard() {
    let ctx = context(None);
    let request = FilterSet::Search("cats".to_string());
    let expected = Filter {
        kinds: ctx.displayable_kinds.clone(),
        search: Some("cats".to_string()),
        ..bare()
    };
    assert_eq!(request.filters(false, &ctx), vec![expected.clone()]);
    assert_eq!(request.filters(true, &ctx), vec![expected]);
}

#[test]
fn nip46_filter() {
    let ctx = context(Some(key(1)));
    let expected = Filter {
        kinds: vec![EventKind::NostrConnect],
        tags: vec![TagFilter { letter: 'p', values: vec![hex_of(1)] }],
        ..bare()
    };
    assert_eq!(FilterSet::Nip46.filters(false, &ctx), vec![expected]);
}

#[test]
fn set_tag_values_replaces_the_values_of_a_letter() {
    let mut filter = bare();
    filter.set_tag_values('p', vec!["a".to_string()]);
    filter.set_tag_values('e', vec!["b".to_string()]);
    filter.set_tag_values('p', vec!["c".to_string(), "d".to_string()]);
    assert_eq!(
        filter.tags,
        vec![
            TagFilter { letter: 'p', values: vec!["c".to_string(), "d".to_string()] },
            TagFilter { letter: 'e', values: vec!["b".to_string()] },
        ]
    );
}

#[test]
fn kind_numbers() {
    assert_eq!(EventKind::Metadata.number(), 0);
    assert_eq!(EventKind::ContactList.number(), 3);
    assert_eq!(EventKind::EncryptedDirectMessage.number(), 4);
    assert_eq!(EventKind::GiftWrap.number(), 1059);
    assert_eq!(EventKind::MuteList.number(), 10000);
    assert_eq!(EventKind::RelayList.number(), 10002);
    assert_eq!(EventKind::BookmarkList.number(), 10003);
    assert_eq!(EventKind::DmRelayList.number(), 10050);
    assert_eq!(EventKind::UserServerList.number(), 10063);
    assert_eq!(EventKind::NostrConnect.number(), 24133);
    assert_eq!(EventKind::FollowSets.number(), 30000);
    assert_eq!(EventKind::HandlerRecommendation.number(), 31989);
    assert_eq!(EventKind::Other(77).number(), 77);
}

#[test]
fn every_job_has_its_own_handle() {
    let chunk = FilterSet::PersonFeedChunk { pubkey: key(1), anchor: Unixtime(0) };
    assert_ne!(chunk.handle(1), chunk.handle(11));
    assert_ne!(chunk.handle(10), chunk.handle(100));
    let other = FilterSet::PersonFeedChunk { pubkey: key(2), anchor: Unixtime(99) };
    assert_eq!(chunk.handle(5), other.handle(5));
}

#[test]
fn kind_of_a_number() {
    assert_eq!(EventKind::from_number(0), EventKind::Metadata);
    assert_eq!(EventKind::from_number(3), EventKind::ContactList);
    assert_eq!(EventKind::from_number(4), EventKind::EncryptedDirectMessage);
    assert_eq!(EventKind::from_number(1059), EventKind::GiftWrap);
    assert_eq!(EventKind::from_number(10000), EventKind::MuteList);
    assert_eq!(EventKind::from_number(10002), EventKind::RelayList);
    assert_eq!(EventKind::from_number(10003), EventKind::BookmarkList);
    assert_eq!(EventKind::from_number(10050), EventKind::DmRelayList);
    assert_eq!(EventKind::from_number(10063), EventKind::UserServerList);
    assert_eq!(EventKind::from_number(24133), EventKind::NostrConnect);
    assert_eq!(EventKind::from_number(30000), EventKind::FollowSets);
    assert_eq!(EventKind::from_number(31989), EventKind::HandlerRecommendation);
    assert_eq!(EventKind::from_number(1), EventKind::Other(1));
    for n in [0u32, 1, 3, 1059, 10001, 31989, u32::MAX] {
        assert_eq!(EventKind::from_number(n).number(), n);
    }
}
