use vstd::prelude::*;
use vstd::string::StringExecFns;
use crate::filter::{
    kinds_without, strings_view, without_kind, EventKind, Filter, FilterView, Unixtime,
};
use crate::keys::{hex_string, Id, PublicKey};
use crate::text::{decimal, decimal_string};

verus! {

/// How far before its `since` a subscription for gift wraps reaches: seven
/// days, in seconds. Gift wraps may be dated that far in the past.
pub const GIFTWRAP_BACKDATE_SECS: i64 = 604800;

/// A window of time over a feed.
#[derive(Debug, Clone, PartialEq)]
pub enum FeedRange {
    /// Long-term subscription for anything after the given time.
    After { since: Unixtime },
    /// Short-term subscription for up to `limit` events preceding the
    /// `until` time.
    ChunkBefore { until: Unixtime, limit: usize },
}

impl FeedRange {
    pub open spec fn spec_since_until_limit(self) -> (
        Option<Unixtime>,
        Option<Unixtime>,
        Option<usize>,
    ) {
        match self {
            FeedRange::After { since } => (Some(since), None, None),
            FeedRange::ChunkBefore { until, limit } => (None, Some(until), Some(limit)),
        }
    }

    /// The lower bound, upper bound and count that a query for this window
    /// carries: a lower bound alone, or an upper bound with a count.
    pub fn since_until_limit(&self) -> (r: (Option<Unixtime>, Option<Unixtime>, Option<usize>))
        ensures
            r == self.spec_since_until_limit(),
            *self matches FeedRange::After { since } ==> r == (
                Some(since),
                None::<Unixtime>,
                None::<usize>,
            ),
            *self matches FeedRange::ChunkBefore { until, limit } ==> r == (
                None::<Unixtime>,
                Some(until),
                Some(limit),
            ),
    {
        match *self {
            FeedRange::After { since } => (Some(since), None, None),
            FeedRange::ChunkBefore { until, limit } => (None, Some(until), Some(limit)),
        }
    }
}

/// A private conversation: the other parties' keys.
#[derive(Debug, Clone, PartialEq)]
pub struct DmChannel {
    pub keys: Vec<PublicKey>,
}

impl DmChannel {
    pub fn new(keys: Vec<PublicKey>) -> (r: DmChannel)
        ensures
            r.keys@ == keys@,
    {
        DmChannel { keys }
    }

    pub fn keys(&self) -> (r: &Vec<PublicKey>)
        ensures
            r@ == self.keys@,
    {
        &self.keys
    }
}

/// The address of a replaceable event: its kind, its author and its
/// identifier among the author's events of that kind.
#[derive(Debug, Clone, PartialEq)]
pub struct NAddr {
    pub d: String,
    pub relays: Vec<String>,
    pub kind: EventKind,
    pub author: PublicKey,
}

impl NAddr {
    /// The value of the `a` tag that refers to this address: the kind's
    /// number, the author's key in hexadecimal and the identifier, with a
    /// colon between them.
    pub open spec fn spec_tag_value(self) -> Seq<char> {
        decimal(self.kind.spec_number() as nat) + seq![':'] + hex_string(self.author.bytes@)
            + seq![':'] + self.d@
    }

    pub fn tag_value(&self) -> (r: String)
        ensures
            r@ == self.spec_tag_value(),
    {
        proof {
            reveal_strlit(":");
            assert(":"@ =~= seq![':']);
        }
        let mut out = decimal_string(self.kind.number() as u64);
        out.append(":");
        let hex = self.author.as_hex_string();
        out.append(hex.as_str());
        out.append(":");
        out.append(self.d.as_str());
        out
    }
}

/// What the rendering of a subscription reads from outside the request
/// itself: the local identity, the settings, and the lists of kinds that the
/// feeds are made of.
#[derive(Debug, Clone)]
pub struct FilterContext {
    /// The local identity's public key, where one is configured.
    pub identity: Option<PublicKey>,
    /// How many events one "load more" page asks for.
    pub load_more_count: usize,
    /// Whether queries by mention are held to known authors on relays that
    /// are not spam-safe.
    pub avoid_spam_on_unsafe_relays: bool,
    /// The authors that the local user follows or subscribes to.
    pub subscribed_pubkeys: Vec<PublicKey>,
    /// The kinds that augment events in a feed.
    pub augment_kinds: Vec<EventKind>,
    /// The kinds that a feed shows, direct messages left out.
    pub displayable_kinds: Vec<EventKind>,
    /// The kinds that a feed shows, direct messages included.
    pub displayable_kinds_with_dms: Vec<EventKind>,
    /// The kinds that a feed shows or that bear on those, direct messages
    /// left out.
    pub related_kinds: Vec<EventKind>,
}

/// Which feed or subscription a [`FilterSet`] stands for, without what it
/// carries. Everything about the subscription's name and lifetime depends
/// on this alone.
#[derive(Debug, Clone, Copy, PartialEq, Eq, Structural)]
pub enum FilterSetTag {
    Augments,
    Config,
    Discover,
    DmChannel,
    FollowersOf,
    GeneralFeedFuture,
    GeneralFeedChunk,
    Giftwraps,
    GlobalFeedFuture,
    GlobalFeedChunk,
    InboxFeedFuture,
    InboxFeedChunk,
    Metadata,
    Nip46,
    PersonFeedFuture,
    PersonFeedChunk,
    RepliesToId,
    RepliesToAddr,
    Search,
}

impl FilterSetTag {
    /// Whether the subscription is short-lived: closed once it has been
    /// answered.
    pub open spec fn temporary(self) -> bool {
        match self {
            FilterSetTag::Augments => true,
            FilterSetTag::Config => false,
            FilterSetTag::Discover => true,
            FilterSetTag::DmChannel => false,
            FilterSetTag::FollowersOf => true,
            FilterSetTag::GeneralFeedFuture => false,
            FilterSetTag::GeneralFeedChunk => true,
            FilterSetTag::Giftwraps => false,
            FilterSetTag::GlobalFeedFuture => false,
            FilterSetTag::GlobalFeedChunk => true,
            FilterSetTag::InboxFeedFuture => false,
            FilterSetTag::InboxFeedChunk => true,
            FilterSetTag::Metadata => true,
            FilterSetTag::Nip46 => false,
            FilterSetTag::PersonFeedFuture => false,
            FilterSetTag::PersonFeedChunk => true,
            FilterSetTag::RepliesToId => false,
            FilterSetTag::RepliesToAddr => false,
            FilterSetTag::Search => true,
        }
    }

    /// Whether several subscriptions of this kind may run side by side.
    pub open spec fn can_have_duplicates(self) -> bool {
        match self {
            FilterSetTag::GeneralFeedChunk => true,
            FilterSetTag::GlobalFeedChunk => true,
            FilterSetTag::InboxFeedChunk => true,
            FilterSetTag::PersonFeedChunk => true,
            _ => false,
        }
    }

    /// Whether the subscription loads an earlier page of a feed.
    pub open spec fn is_loading_more(self) -> bool {
        match self {
            FilterSetTag::GeneralFeedChunk => true,
            FilterSetTag::GlobalFeedChunk => true,
            FilterSetTag::InboxFeedChunk => true,
            FilterSetTag::PersonFeedChunk => true,
            _ => false,
        }
    }

    /// The base name of the subscription.
    pub open spec fn inner_handle(self) -> Seq<char> {
        match self {
            FilterSetTag::Augments => "augments"@,
            FilterSetTag::Config => "config_feed"@,
            FilterSetTag::Discover => "discover_feed"@,
            FilterSetTag::DmChannel => "dm_channel"@,
            FilterSetTag::FollowersOf => "followers_of"@,
            FilterSetTag::GeneralFeedFuture => "general_feed"@,
            FilterSetTag::GeneralFeedChunk => "general_feed_chunk"@,
            FilterSetTag::Giftwraps => "giftwraps"@,
            FilterSetTag::GlobalFeedFuture => "global_feed"@,
            FilterSetTag::GlobalFeedChunk => "global_feed_chunk"@,
            FilterSetTag::InboxFeedFuture => "inbox_feed"@,
            FilterSetTag::InboxFeedChunk => "inbox_feed_chunk"@,
            FilterSetTag::Metadata => "subscribe_metadata"@,
            FilterSetTag::Nip46 => "nip46"@,
            FilterSetTag::PersonFeedFuture => "person_feed"@,
            FilterSetTag::PersonFeedChunk => "person_feed_chunk"@,
            FilterSetTag::RepliesToId => "id_replies"@,
            FilterSetTag::RepliesToAddr => "addr_replies"@,
            FilterSetTag::Search => "relay_search"@,
        }
    }

    /// What stands before the base name in the subscription's handle.
    pub open spec fn handle_prefix(self) -> Seq<char> {
        if self.temporary() {
            "temp_"@
        } else {
            Seq::empty()
        }
    }

    /// What stands behind the base name in the subscription's handle.
    pub open spec fn handle_suffix(self, job_id: u64) -> Seq<char> {
        if self.can_have_duplicates() {
            "_"@ + decimal(job_id as nat)
        } else {
            Seq::empty()
        }
    }

    /// The handle under which the subscription runs: the base name, with
    /// `temp_` before it if and only if the subscription is temporary, and
    /// with an underscore and the job's number behind it if and only if
    /// duplicates are allowed.
    pub open spec fn handle(self, job_id: u64) -> Seq<char> {
        self.handle_prefix() + self.inner_handle() + self.handle_suffix(job_id)
    }
}

/// A feed or subscription that the application asks for.
#[derive(Debug, Clone, PartialEq)]
pub enum FilterSet {
    Augments(Vec<Id>),
    Config,
    Discover(Vec<PublicKey>),
    DmChannel(DmChannel),
    FollowersOf(PublicKey),
    GeneralFeedFuture { pubkeys: Vec<PublicKey>, anchor: Unixtime },
    GeneralFeedChunk { pubkeys: Vec<PublicKey>, anchor: Unixtime },
    Giftwraps(FeedRange),
    GlobalFeedFuture(Unixtime),
    GlobalFeedChunk(Unixtime),
    InboxFeedFuture(Unixtime),
    InboxFeedChunk(Unixtime),
    Metadata(Vec<PublicKey>),
    Nip46,
    PersonFeedFuture { pubkey: PublicKey, anchor: Unixtime },
    PersonFeedChunk { pubkey: PublicKey, anchor: Unixtime },
    RepliesToId(Id),
    RepliesToAddr(NAddr),
    Search(String),
}

/// The keys of a list in hexadecimal, in their order.
pub open spec fn key_hexes(keys: Seq<PublicKey>) -> Seq<Seq<char>> {
    Seq::new(keys.len(), |i: int| hex_string(keys[i].bytes@))
}

/// The identifiers of a list in hexadecimal, in their order.
pub open spec fn id_hexes(ids: Seq<Id>) -> Seq<Seq<char>> {
    Seq::new(ids.len(), |i: int| hex_string(ids[i].bytes@))
}

/// The time seven days before `t`, or the earliest time there is where `t`
/// lies within seven days of it.
pub open spec fn backdated(t: Unixtime) -> Unixtime {
    if t.0 - GIFTWRAP_BACKDATE_SECS < i64::MIN {
        Unixtime(i64::MIN)
    } else {
        Unixtime((t.0 - GIFTWRAP_BACKDATE_SECS) as i64)
    }
}

/// The authors that a query by mention is held to: the subscribed ones where
/// the relay is not spam-safe and the setting asks for it, else none, which
/// leaves the authors open.
pub open spec fn spam_guard_authors(spamsafe: bool, ctx: FilterContext) -> Seq<PublicKey> {
    if !spamsafe && ctx.avoid_spam_on_unsafe_relays {
        ctx.subscribed_pubkeys@
    } else {
        Seq::empty()
    }
}

/// The filter for mentions of `pubkey`, before its window of time is set.
pub open spec fn inbox_base(pubkey: PublicKey, spamsafe: bool, ctx: FilterContext) -> FilterView {
    FilterView {
        authors: spam_guard_authors(spamsafe, ctx),
        kinds: without_kind(ctx.displayable_kinds_with_dms@, EventKind::GiftWrap.spec_number()),
        tags: seq![('p', seq![hex_string(pubkey.bytes@)])],
        ..FilterView::unconstrained()
    }
}

/// A filter with the bounds of a window of time.
pub open spec fn within(f: FilterView, range: FeedRange) -> FilterView {
    FilterView {
        since: range.spec_since_until_limit().0,
        until: range.spec_since_until_limit().1,
        limit: range.spec_since_until_limit().2,
        ..f
    }
}

fn copy_keys(keys: &Vec<PublicKey>) -> (r: Vec<PublicKey>)
    ensures
        r@ == keys@,
{
    let mut out: Vec<PublicKey> = Vec::new();
    let mut i: usize = 0;
    while i < keys.len()
        invariant
            i <= keys.len(),
            out@ == keys@.subrange(0, i as int),
        decreases keys.len() - i,
    {
        out.push(keys[i]);
        assert(out@ =~= keys@.subrange(0, i as int + 1));
        i += 1;
    }
    assert(keys@.subrange(0, keys.len() as int) =~= keys@);
    out
}

fn copy_kinds(kinds: &Vec<EventKind>) -> (r: Vec<EventKind>)
    ensures
        r@ == kinds@,
{
    let mut out: Vec<EventKind> = Vec::new();
    let mut i: usize = 0;
    while i < kinds.len()
        invariant
            i <= kinds.len(),
            out@ == kinds@.subrange(0, i as int),
        decreases kinds.len() - i,
    {
        out.push(kinds[i]);
        assert(out@ =~= kinds@.subrange(0, i as int + 1));
        i += 1;
    }
    assert(kinds@.subrange(0, kinds.len() as int) =~= kinds@);
    out
}

fn hex_of_keys(keys: &Vec<PublicKey>) -> (r: Vec<String>)
    ensures
        strings_view(r@) == key_hexes(keys@),
{
    let mut out: Vec<String> = Vec::new();
    let mut i: usize = 0;
    while i < keys.len()
        invariant
            i <= keys.len(),
            out@.len() == i,
            forall|j: int| 0 <= j < i ==> (#[trigger] out@[j])@ == hex_string(keys@[j].bytes@),
        decreases keys.len() - i,
    {
        out.push(keys[i].as_hex_string());
        i += 1;
    }
    assert(strings_view(out@) =~= key_hexes(keys@));
    out
}

fn hex_of_ids(ids: &Vec<Id>) -> (r: Vec<String>)
    ensures
        strings_view(r@) == id_hexes(ids@),
{
    let mut out: Vec<String> = Vec::new();
    let mut i: usize = 0;
    while i < ids.len()
        invariant
            i <= ids.len(),
            out@.len() == i,
            forall|j: int| 0 <= j < i ==> (#[trigger] out@[j])@ == hex_string(ids@[j].bytes@),
        decreases ids.len() - i,
    {
        out.push(ids[i].as_hex_string());
        i += 1;
    }
    assert(strings_view(out@) =~= id_hexes(ids@));
    out
}

fn one_string(s: String) -> (r: Vec<String>)
    ensures
        strings_view(r@) == seq![s@],
{
    let mut out: Vec<String> = Vec::new();
    out.push(s);
    assert(strings_view(out@) =~= seq![s@]);
    out
}

fn one_key(key: PublicKey) -> (r: Vec<PublicKey>)
    ensures
        r@ == seq![key],
{
    let mut out: Vec<PublicKey> = Vec::new();
    out.push(key);
    assert(out@ =~= seq![key]);
    out
}

fn one_kind(kind: EventKind) -> (r: Vec<EventKind>)
    ensures
        r@ == seq![kind],
{
    let mut out: Vec<EventKind> = Vec::new();
    out.push(kind);
    assert(out@ =~= seq![kind]);
    out
}

fn kind_list(kinds: &[EventKind]) -> (r: Vec<EventKind>)
    ensures
        r@ == kinds@,
{
    let mut out: Vec<EventKind> = Vec::new();
    let mut i: usize = 0;
    while i < kinds.len()
        invariant
            i <= kinds.len(),
            out@ == kinds@.subrange(0, i as int),
        decreases kinds.len() - i,
    {
        out.push(kinds[i]);
        assert(out@ =~= kinds@.subrange(0, i as int + 1));
        i += 1;
    }
    assert(kinds@.subrange(0, kinds.len() as int) =~= kinds@);
    out
}

fn backdate(t: Unixtime) -> (r: Unixtime)
    ensures
        r == backdated(t),
{
    if t.0 < i64::MIN + GIFTWRAP_BACKDATE_SECS {
        Unixtime(i64::MIN)
    } else {
        Unixtime(t.0 - GIFTWRAP_BACKDATE_SECS)
    }
}

fn spam_guard(spamsafe: bool, ctx: &FilterContext) -> (r: Vec<PublicKey>)
    ensures
        r@ == spam_guard_authors(spamsafe, *ctx),
{
    if !spamsafe && ctx.avoid_spam_on_unsafe_relays {
        copy_keys(&ctx.subscribed_pubkeys)
    } else {
        Vec::new()
    }
}

fn set_window(filter: &mut Filter, range: &FeedRange)
    ensures
        final(filter)@ == within(old(filter)@, *range),
{
    let (since, until, limit) = range.since_until_limit();
    filter.since = since;
    filter.until = until;
    filter.limit = limit;
}

fn one_filter(filter: Filter) -> (r: Vec<Filter>)
    ensures
        filter_views(r@) == seq![filter@],
        r@.len() == 1,
{
    let mut out: Vec<Filter> = Vec::new();
    out.push(filter);
    assert(filter_views(out@) =~= seq![filter@]);
    out
}

fn no_filter() -> (r: Vec<Filter>)
    ensures
        filter_views(r@) == Seq::<FilterView>::empty(),
        r@.len() == 0,
{
    let out: Vec<Filter> = Vec::new();
    assert(filter_views(out@) =~= Seq::<FilterView>::empty());
    out
}

/// The mathematical content of a list of filters.
pub open spec fn filter_views(filters: Seq<Filter>) -> Seq<FilterView> {
    Seq::new(filters.len(), |i: int| filters[i]@)
}

impl FilterSet {
    /// Which feed or subscription this is.
    pub open spec fn spec_tag(&self) -> FilterSetTag {
        match self {
            FilterSet::Augments(_) => FilterSetTag::Augments,
            FilterSet::Config => FilterSetTag::Config,
            FilterSet::Discover(_) => FilterSetTag::Discover,
            FilterSet::DmChannel(_) => FilterSetTag::DmChannel,
            FilterSet::FollowersOf(_) => FilterSetTag::FollowersOf,
            FilterSet::GeneralFeedFuture { .. } => FilterSetTag::GeneralFeedFuture,
            FilterSet::GeneralFeedChunk { .. } => FilterSetTag::GeneralFeedChunk,
            FilterSet::Giftwraps(_) => FilterSetTag::Giftwraps,
            FilterSet::GlobalFeedFuture(_) => FilterSetTag::GlobalFeedFuture,
            FilterSet::GlobalFeedChunk(_) => FilterSetTag::GlobalFeedChunk,
            FilterSet::InboxFeedFuture(_) => FilterSetTag::InboxFeedFuture,
            FilterSet::InboxFeedChunk(_) => FilterSetTag::InboxFeedChunk,
            FilterSet::Metadata(_) => FilterSetTag::Metadata,
            FilterSet::Nip46 => FilterSetTag::Nip46,
            FilterSet::PersonFeedFuture { .. } => FilterSetTag::PersonFeedFuture,
            FilterSet::PersonFeedChunk { .. } => FilterSetTag::PersonFeedChunk,
            FilterSet::RepliesToId(_) => FilterSetTag::RepliesToId,
            FilterSet::RepliesToAddr(_) => FilterSetTag::RepliesToAddr,
            FilterSet::Search(_) => FilterSetTag::Search,
        }
    }

    #[verifier::when_used_as_spec(spec_tag)]
    pub fn tag(&self) -> (r: FilterSetTag)
        ensures
            r == self.spec_tag(),
    {
        match self {
            FilterSet::Augments(_) => FilterSetTag::Augments,
            FilterSet::Config => FilterSetTag::Config,
            FilterSet::Discover(_) => FilterSetTag::Discover,
            FilterSet::DmChannel(_) => FilterSetTag::DmChannel,
            FilterSet::FollowersOf(_) => FilterSetTag::FollowersOf,
            FilterSet::GeneralFeedFuture { .. } => FilterSetTag::GeneralFeedFuture,
            FilterSet::GeneralFeedChunk { .. } => FilterSetTag::GeneralFeedChunk,
            FilterSet::Giftwraps(_) => FilterSetTag::Giftwraps,
            FilterSet::GlobalFeedFuture(_) => FilterSetTag::GlobalFeedFuture,
            FilterSet::GlobalFeedChunk(_) => FilterSetTag::GlobalFeedChunk,
            FilterSet::InboxFeedFuture(_) => FilterSetTag::InboxFeedFuture,
            FilterSet::InboxFeedChunk(_) => FilterSetTag::InboxFeedChunk,
            FilterSet::Metadata(_) => FilterSetTag::Metadata,
            FilterSet::Nip46 => FilterSetTag::Nip46,
            FilterSet::PersonFeedFuture { .. } => FilterSetTag::PersonFeedFuture,
            FilterSet::PersonFeedChunk { .. } => FilterSetTag::PersonFeedChunk,
            FilterSet::RepliesToId(_) => FilterSetTag::RepliesToId,
            FilterSet::RepliesToAddr(_) => FilterSetTag::RepliesToAddr,
            FilterSet::Search(_) => FilterSetTag::Search,
        }
    }

    /// Whether the subscription is short-lived.
    pub fn temporary(&self) -> (r: bool)
        ensures
            r == self.spec_tag().temporary(),
    {
        match self {
            FilterSet::Augments(_) => true,
            FilterSet::Config => false,
            FilterSet::Discover(_) => true,
            FilterSet::DmChannel(_) => false,
            FilterSet::FollowersOf(_) => true,
            FilterSet::GeneralFeedFuture { .. } => false,
            FilterSet::GeneralFeedChunk { .. } => true,
            FilterSet::Giftwraps(_) => false,
            FilterSet::GlobalFeedFuture(_) => false,
            FilterSet::GlobalFeedChunk(_) => true,
            FilterSet::InboxFeedFuture(_) => false,
            FilterSet::InboxFeedChunk(_) => true,
            FilterSet::Metadata(_) => true,
            FilterSet::Nip46 => false,
            FilterSet::PersonFeedFuture { .. } => false,
            FilterSet::PersonFeedChunk { .. } => true,
            FilterSet::RepliesToId(_) => false,
            FilterSet::RepliesToAddr(_) => false,
            FilterSet::Search(_) => true,
        }
    }

    /// Whether several subscriptions of this kind may run side by side.
    pub fn can_have_duplicates(&self) -> (r: bool)
        ensures
            r == self.spec_tag().can_have_duplicates(),
    {
        match self {
            FilterSet::GeneralFeedChunk { .. } => true,
            FilterSet::GlobalFeedChunk(_) => true,
            FilterSet::InboxFeedChunk(_) => true,
            FilterSet::PersonFeedChunk { .. } => true,
            _ => false,
        }
    }

    /// Whether the subscription loads an earlier page of a feed.
    pub fn is_loading_more(&self) -> (r: bool)
        ensures
            r == self.spec_tag().is_loading_more(),
    {
        match self {
            FilterSet::GeneralFeedChunk { .. } => true,
            FilterSet::GlobalFeedChunk(_) => true,
            FilterSet::InboxFeedChunk(_) => true,
            FilterSet::PersonFeedChunk { .. } => true,
            _ => false,
        }
    }

    /// The base name of the subscription.
    pub fn inner_handle(&self) -> (r: &'static str)
        ensures
            r@ == self.spec_tag().inner_handle(),
    {
        match self {
            FilterSet::Augments(_) => "augments",
            FilterSet::Config => "config_feed",
            FilterSet::Discover(_) => "discover_feed",
            FilterSet::DmChannel(_) => "dm_channel",
            FilterSet::FollowersOf(_) => "followers_of",
            FilterSet::GeneralFeedFuture { .. } => "general_feed",
            FilterSet::GeneralFeedChunk { .. } => "general_feed_chunk",
            FilterSet::Giftwraps(_) => "giftwraps",
            FilterSet::GlobalFeedFuture(_) => "global_feed",
            FilterSet::GlobalFeedChunk(_) => "global_feed_chunk",
            FilterSet::InboxFeedFuture(_) => "inbox_feed",
            FilterSet::InboxFeedChunk(_) => "inbox_feed_chunk",
            FilterSet::Metadata(_) => "subscribe_metadata",
            FilterSet::Nip46 => "nip46",
            FilterSet::PersonFeedFuture { .. } => "person_feed",
            FilterSet::PersonFeedChunk { .. } => "person_feed_chunk",
            FilterSet::RepliesToId(_) => "id_replies",
            FilterSet::RepliesToAddr(_) => "addr_replies",
            FilterSet::Search(_) => "relay_search",
        }
    }

    /// The handle under which the subscription runs for the job `job_id`.
    pub fn handle(&self, job_id: u64) -> (r: String)
        ensures
            r@ == self.spec_tag().handle(job_id),
    {
        let mut handle = String::new();
        if self.temporary() {
            handle.append("temp_");
        }
        handle.append(self.inner_handle());
        if self.can_have_duplicates() {
            handle.append("_");
            let number = decimal_string(job_id);
            handle.append(number.as_str());
        }
        assert(handle@ =~= self.spec_tag().handle(job_id));
        handle
    }

    /// The filters that the subscription is made of.
    ///
    /// A subscription that needs the local identity has no filter where
    /// none is configured, and one over a list of authors has none where the
    /// list is empty: no query is left open by accident.
    pub open spec fn spec_filters(self, spamsafe: bool, ctx: FilterContext) -> Seq<FilterView> {
        match self {
            FilterSet::Augments(ids) => seq![
                FilterView {
                    kinds: ctx.augment_kinds@,
                    tags: seq![('e', id_hexes(ids@))],
                    ..FilterView::unconstrained()
                },
            ],
            FilterSet::Config => match ctx.identity {
                Some(pubkey) => seq![
                    FilterView {
                        authors: seq![pubkey],
                        kinds: seq![
                            EventKind::Metadata,
                            EventKind::ContactList,
                            EventKind::MuteList,
                            EventKind::FollowSets,
                            EventKind::RelayList,
                            EventKind::DmRelayList,
                            EventKind::BookmarkList,
                            EventKind::UserServerList,
                        ],
                        ..FilterView::unconstrained()
                    },
                ],
                None => Seq::empty(),
            },
            FilterSet::Discover(pubkeys) => if pubkeys@.len() == 0 {
                Seq::empty()
            } else {
                seq![
                    FilterView {
                        authors: pubkeys@,
                        kinds: seq![EventKind::RelayList, EventKind::DmRelayList],
                        ..FilterView::unconstrained()
                    },
                ]
            },
            FilterSet::DmChannel(channel) => match ctx.identity {
                Some(pubkey) => seq![
                    FilterView {
                        authors: channel.keys@.push(pubkey),
                        kinds: seq![EventKind::EncryptedDirectMessage],
                        tags: seq![('p', key_hexes(channel.keys@.push(pubkey)))],
                        ..FilterView::unconstrained()
                    },
                ],
                None => Seq::empty(),
            },
            FilterSet::FollowersOf(pubkey) => seq![
                FilterView {
                    kinds: seq![EventKind::ContactList],
                    tags: seq![('p', seq![hex_string(pubkey.bytes@)])],
                    ..FilterView::unconstrained()
                },
            ],
            FilterSet::GeneralFeedFuture { pubkeys, anchor } => if pubkeys@.len() == 0 {
                Seq::empty()
            } else {
                seq![
                    within(
                        FilterView {
                            authors: pubkeys@,
                            kinds: ctx.displayable_kinds@,
                            ..FilterView::unconstrained()
                        },
                        FeedRange::After { since: anchor },
                    ),
                ]
            },
            FilterSet::GeneralFeedChunk { pubkeys, anchor } => if pubkeys@.len() == 0 {
                Seq::empty()
            } else {
                seq![
                    within(
                        FilterView {
                            authors: pubkeys@,
                            kinds: ctx.displayable_kinds@,
                            ..FilterView::unconstrained()
                        },
                        FeedRange::ChunkBefore { until: anchor, limit: ctx.load_more_count },
                    ),
                ]
            },
            FilterSet::Giftwraps(range) => match ctx.identity {
                Some(pubkey) => seq![
                    FilterView {
                        kinds: seq![EventKind::GiftWrap],
                        tags: seq![('p', seq![hex_string(pubkey.bytes@)])],
                        since: match range.spec_since_until_limit().0 {
                            Some(since) => Some(backdated(since)),
                            None => None,
                        },
                        until: range.spec_since_until_limit().1,
                        limit: range.spec_since_until_limit().2,
                        ..FilterView::unconstrained()
                    },
                ],
                None => Seq::empty(),
            },
            FilterSet::GlobalFeedFuture(anchor) => seq![
                within(
                    FilterView { kinds: ctx.displayable_kinds@, ..FilterView::unconstrained() },
                    FeedRange::After { since: anchor },
                ),
            ],
            FilterSet::GlobalFeedChunk(anchor) => seq![
                within(
                    FilterView { kinds: ctx.displayable_kinds@, ..FilterView::unconstrained() },
                    FeedRange::ChunkBefore { until: anchor, limit: ctx.load_more_count },
                ),
            ],
            FilterSet::InboxFeedFuture(anchor) => match ctx.identity {
                Some(pubkey) => seq![
                    within(inbox_base(pubkey, spamsafe, ctx), FeedRange::After { since: anchor }),
                ],
                None => Seq::empty(),
            },
            FilterSet::InboxFeedChunk(anchor) => match ctx.identity {
                Some(pubkey) => seq![
                    within(
                        inbox_base(pubkey, spamsafe, ctx),
                        FeedRange::ChunkBefore { until: anchor, limit: ctx.load_more_count },
                    ),
                ],
                None => Seq::empty(),
            },
            FilterSet::Metadata(pubkeys) => if pubkeys@.len() == 0 {
                Seq::empty()
            } else {
                seq![
                    FilterView {
                        authors: pubkeys@,
                        kinds: seq![
                            EventKind::ContactList,
                            EventKind::Metadata,
                            EventKind::RelayList,
                            EventKind::DmRelayList,
                            EventKind::HandlerRecommendation,
                        ],
                        ..FilterView::unconstrained()
                    },
                ]
            },
            FilterSet::Nip46 => match ctx.identity {
                Some(pubkey) => seq![
                    FilterView {
                        kinds: seq![EventKind::NostrConnect],
                        tags: seq![('p', seq![hex_string(pubkey.bytes@)])],
                        ..FilterView::unconstrained()
                    },
                ],
                None => Seq::empty(),
            },
            FilterSet::PersonFeedFuture { pubkey, anchor } => seq![
                within(
                    FilterView {
                        authors: seq![pubkey],
                        kinds: ctx.displayable_kinds@,
                        ..FilterView::unconstrained()
                    },
                    FeedRange::After { since: anchor },
                ),
            ],
            FilterSet::PersonFeedChunk { pubkey, anchor } => seq![
                within(
                    FilterView {
                        authors: seq![pubkey],
                        kinds: ctx.displayable_kinds@,
                        ..FilterView::unconstrained()
                    },
                    FeedRange::ChunkBefore { until: anchor, limit: ctx.load_more_count },
                ),
            ],
            FilterSet::RepliesToId(id) => seq![
                FilterView {
                    authors: spam_guard_authors(spamsafe, ctx),
                    kinds: ctx.related_kinds@,
                    tags: seq![('e', seq![hex_string(id.bytes@)])],
                    ..FilterView::unconstrained()
                },
            ],
            FilterSet::RepliesToAddr(addr) => seq![
                FilterView {
                    authors: spam_guard_authors(spamsafe, ctx),
                    kinds: ctx.related_kinds@,
                    tags: seq![('a', seq![addr.spec_tag_value()])],
                    ..FilterView::unconstrained()
                },
            ],
            FilterSet::Search(what) => seq![
                FilterView {
                    kinds: ctx.displayable_kinds@,
                    search: Some(what@),
                    ..FilterView::unconstrained()
                },
            ],
        }
    }

    /// Whether what this subscription cannot do without is missing: the
    /// local identity, for those that are about the local user, or at least
    /// one author, for those over a list of authors.
    pub open spec fn lacks_precondition(self, ctx: FilterContext) -> bool {
        match self {
            FilterSet::Config => ctx.identity is None,
            FilterSet::DmChannel(_) => ctx.identity is None,
            FilterSet::Giftwraps(_) => ctx.identity is None,
            FilterSet::InboxFeedFuture(_) => ctx.identity is None,
            FilterSet::InboxFeedChunk(_) => ctx.identity is None,
            FilterSet::Nip46 => ctx.identity is None,
            FilterSet::Discover(pubkeys) => pubkeys@.len() == 0,
            FilterSet::Metadata(pubkeys) => pubkeys@.len() == 0,
            FilterSet::GeneralFeedFuture { pubkeys, .. } => pubkeys@.len() == 0,
            FilterSet::GeneralFeedChunk { pubkeys, .. } => pubkeys@.len() == 0,
            _ => false,
        }
    }

    /// The filter for mentions of `pubkey`, before its window of time is
    /// set: the displayable kinds with direct messages but without gift
    /// wraps, tagged with the key, and held to the subscribed authors where
    /// the relay is not spam-safe and the setting asks for it.
    pub fn inbox_base_filter(pubkey: PublicKey, spamsafe: bool, ctx: &FilterContext) -> (r: Filter)
        ensures
            r@ == inbox_base(pubkey, spamsafe, *ctx),
    {
        let mut filter = Filter::new();
        filter.kinds = kinds_without(&ctx.displayable_kinds_with_dms, EventKind::GiftWrap.number());
        filter.set_tag_values('p', one_string(pubkey.as_hex_string()));
        filter.authors = spam_guard(spamsafe, ctx);
        filter
    }

    /// Renders the subscription into the filters to send to a relay;
    /// `spamsafe` says whether the relay is trusted with queries that leave
    /// the authors open.
    pub fn filters(&self, spamsafe: bool, ctx: &FilterContext) -> (r: Vec<Filter>)
        ensures
            filter_views(r@) == self.spec_filters(spamsafe, *ctx),
            self.lacks_precondition(*ctx) <==> r@.len() == 0,
            !self.lacks_precondition(*ctx) <==> r@.len() == 1,
    {
        match self {
            FilterSet::Augments(ids) => {
                let mut filter = Filter::new();
                filter.kinds = copy_kinds(&ctx.augment_kinds);
                filter.set_tag_values('e', hex_of_ids(ids));
                one_filter(filter)
            },
            FilterSet::Config => match ctx.identity {
                Some(pubkey) => {
                    let mut filter = Filter::new();
                    filter.authors = one_key(pubkey);
                    filter.kinds = kind_list(
                        &[
                            EventKind::Metadata,
                            EventKind::ContactList,
                            EventKind::MuteList,
                            EventKind::FollowSets,
                            EventKind::RelayList,
                            EventKind::DmRelayList,
                            EventKind::BookmarkList,
                            EventKind::UserServerList,
                        ],
                    );
                    one_filter(filter)
                },
                None => no_filter(),
            },
            FilterSet::Discover(pubkeys) => {
                if pubkeys.len() == 0 {
                    return no_filter();
                }
                let mut filter = Filter::new();
                filter.authors = copy_keys(pubkeys);
                filter.kinds = kind_list(&[EventKind::RelayList, EventKind::DmRelayList]);
                one_filter(filter)
            },
            FilterSet::DmChannel(channel) => {
                let pubkey = match ctx.identity {
                    Some(pk) => pk,
                    None => {
                        return no_filter();
                    },
                };
                let mut authors = copy_keys(channel.keys());
                authors.push(pubkey);
                let mut filter = Filter::new();
                filter.kinds = one_kind(EventKind::EncryptedDirectMessage);
                filter.set_tag_values('p', hex_of_keys(&authors));
                filter.authors = authors;
                one_filter(filter)
            },
            FilterSet::FollowersOf(pubkey) => {
                let mut filter = Filter::new();
                filter.kinds = one_kind(EventKind::ContactList);
                filter.set_tag_values('p', one_string(pubkey.as_hex_string()));
                one_filter(filter)
            },
            FilterSet::GeneralFeedFuture { pubkeys, anchor } => {
                if pubkeys.len() == 0 {
                    return no_filter();
                }
                let mut filter = Filter::new();
                filter.authors = copy_keys(pubkeys);
                filter.kinds = copy_kinds(&ctx.displayable_kinds);
                set_window(&mut filter, &FeedRange::After { since: *anchor });
                one_filter(filter)
            },
            FilterSet::GeneralFeedChunk { pubkeys, anchor } => {
                if pubkeys.len() == 0 {
                    return no_filter();
                }
                let mut filter = Filter::new();
                filter.authors = copy_keys(pubkeys);
                filter.kinds = copy_kinds(&ctx.displayable_kinds);
                set_window(
                    &mut filter,
                    &FeedRange::ChunkBefore { until: *anchor, limit: ctx.load_more_count },
                );
                one_filter(filter)
            },
            FilterSet::Giftwraps(range) => {
                let (since, until, limit) = range.since_until_limit();
                match ctx.identity {
                    Some(pubkey) => {
                        let mut filter = Filter::new();
                        filter.kinds = one_kind(EventKind::GiftWrap);
                        filter.since =
                        match since {
                            Some(since) => Some(backdate(since)),
                            None => None,
                        };
                        filter.until = until;
                        filter.limit = limit;
                        filter.set_tag_values('p', one_string(pubkey.as_hex_string()));
                        one_filter(filter)
                    },
                    None => no_filter(),
                }
            },
            FilterSet::GlobalFeedFuture(anchor) => {
                let mut filter = Filter::new();
                filter.kinds = copy_kinds(&ctx.displayable_kinds);
                set_window(&mut filter, &FeedRange::After { since: *anchor });
                one_filter(filter)
            },
            FilterSet::GlobalFeedChunk(anchor) => {
                let mut filter = Filter::new();
                filter.kinds = copy_kinds(&ctx.displayable_kinds);
                set_window(
                    &mut filter,
                    &FeedRange::ChunkBefore { until: *anchor, limit: ctx.load_more_count },
                );
                one_filter(filter)
            },
            FilterSet::InboxFeedFuture(anchor) => match ctx.identity {
                Some(pubkey) => {
                    let mut filter = Self::inbox_base_filter(pubkey, spamsafe, ctx);
                    set_window(&mut filter, &FeedRange::After { since: *anchor });
                    one_filter(filter)
                },
                None => no_filter(),
            },
            FilterSet::InboxFeedChunk(anchor) => match ctx.identity {
                Some(pubkey) => {
                    let mut filter = Self::inbox_base_filter(pubkey, spamsafe, ctx);
                    set_window(
                        &mut filter,
                        &FeedRange::ChunkBefore { until: *anchor, limit: ctx.load_more_count },
                    );
                    one_filter(filter)
                },
                None => no_filter(),
            },
            FilterSet::Metadata(pubkeys) => {
                if pubkeys.len() == 0 {
                    return no_filter();
                }
                let mut filter = Filter::new();
                filter.authors = copy_keys(pubkeys);
                filter.kinds = kind_list(
                    &[
                        EventKind::ContactList,
                        EventKind::Metadata,
                        EventKind::RelayList,
                        EventKind::DmRelayList,
                        EventKind::HandlerRecommendation,
                    ],
                );
                one_filter(filter)
            },
            FilterSet::Nip46 => {
                let pubkey = match ctx.identity {
                    Some(pk) => pk,
                    None => {
                        return no_filter();
                    },
                };
                let mut filter = Filter::new();
                filter.kinds = one_kind(EventKind::NostrConnect);
                filter.set_tag_values('p', one_string(pubkey.as_hex_string()));
                one_filter(filter)
            },
            FilterSet::PersonFeedFuture { pubkey, anchor } => {
                let mut filter = Filter::new();
                filter.authors = one_key(*pubkey);
                filter.kinds = copy_kinds(&ctx.displayable_kinds);
                set_window(&mut filter, &FeedRange::After { since: *anchor });
                one_filter(filter)
            },
            FilterSet::PersonFeedChunk { pubkey, anchor } => {
                let mut filter = Filter::new();
                filter.authors = one_key(*pubkey);
                filter.kinds = copy_kinds(&ctx.displayable_kinds);
                set_window(
                    &mut filter,
                    &FeedRange::ChunkBefore { until: *anchor, limit: ctx.load_more_count },
                );
                one_filter(filter)
            },
            FilterSet::RepliesToId(id) => {
                let mut filter = Filter::new();
                filter.kinds = copy_kinds(&ctx.related_kinds);
                filter.set_tag_values('e', one_string(id.as_hex_string()));
                filter.authors = spam_guard(spamsafe, ctx);
                one_filter(filter)
            },
            FilterSet::RepliesToAddr(addr) => {
                let mut filter = Filter::new();
                filter.kinds = copy_kinds(&ctx.related_kinds);
                filter.set_tag_values('a', one_string(addr.tag_value()));
                filter.authors = spam_guard(spamsafe, ctx);
                one_filter(filter)
            },
            FilterSet::Search(what) => {
                let mut filter = Filter::new();
                filter.kinds = copy_kinds(&ctx.displayable_kinds);
                filter.search = Some(what.clone());
                one_filter(filter)
            },
        }
    }
}

} // verus!
