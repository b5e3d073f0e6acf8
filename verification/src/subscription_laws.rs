use vstd::prelude::*;
use crate::filter_set::{FilterContext, FilterSet, FilterSetTag};
use crate::text::{decimal, is_digit, lemma_decimal_digits, lemma_decimal_is_injective};

verus! {

/// What the names of the subscriptions hold, character by character.
proof fn reveal_handle_literals()
    ensures
        "temp_"@ == seq!['t', 'e', 'm', 'p', '_'],
        "_"@ == seq!['_'],
        "augments"@.len() == 8 && "augments"@[0] == 'a' && "augments"@[7] == 's',
        "config_feed"@.len() == 11 && "config_feed"@[0] == 'c' && "config_feed"@[10] == 'd',
        "discover_feed"@.len() == 13 && "discover_feed"@[0] == 'd' && "discover_feed"@[12] == 'd',
        "dm_channel"@.len() == 10 && "dm_channel"@[0] == 'd' && "dm_channel"@[9] == 'l',
        "followers_of"@.len() == 12 && "followers_of"@[0] == 'f' && "followers_of"@[11] == 'f',
        "general_feed"@.len() == 12 && "general_feed"@[0] == 'g' && "general_feed"@[11] == 'd',
        "general_feed_chunk"@.len() == 18 && "general_feed_chunk"@[0] == 'g'
            && "general_feed_chunk"@[1] == 'e',
        "giftwraps"@.len() == 9 && "giftwraps"@[0] == 'g' && "giftwraps"@[8] == 's',
        "global_feed"@.len() == 11 && "global_feed"@[0] == 'g' && "global_feed"@[10] == 'd',
        "global_feed_chunk"@.len() == 17 && "global_feed_chunk"@[0] == 'g'
            && "global_feed_chunk"@[1] == 'l',
        "inbox_feed"@.len() == 10 && "inbox_feed"@[0] == 'i' && "inbox_feed"@[9] == 'd',
        "inbox_feed_chunk"@.len() == 16 && "inbox_feed_chunk"@[0] == 'i',
        "subscribe_metadata"@.len() == 18 && "subscribe_metadata"@[0] == 's'
            && "subscribe_metadata"@[17] == 'a',
        "nip46"@ == seq!['n', 'i', 'p', '4', '6'],
        "person_feed"@.len() == 11 && "person_feed"@[0] == 'p' && "person_feed"@[10] == 'd',
        "person_feed_chunk"@.len() == 17 && "person_feed_chunk"@[0] == 'p',
        "id_replies"@.len() == 10 && "id_replies"@[0] == 'i' && "id_replies"@[9] == 's',
        "addr_replies"@.len() == 12 && "addr_replies"@[0] == 'a' && "addr_replies"@[11] == 's',
        "relay_search"@.len() == 12 && "relay_search"@[0] == 'r' && "relay_search"@[11] == 'h',
{
    reveal_strlit("temp_");
    reveal_strlit("_");
    reveal_strlit("augments");
    reveal_strlit("config_feed");
    reveal_strlit("discover_feed");
    reveal_strlit("dm_channel");
    reveal_strlit("followers_of");
    reveal_strlit("general_feed");
    reveal_strlit("general_feed_chunk");
    reveal_strlit("giftwraps");
    reveal_strlit("global_feed");
    reveal_strlit("global_feed_chunk");
    reveal_strlit("inbox_feed");
    reveal_strlit("inbox_feed_chunk");
    reveal_strlit("subscribe_metadata");
    reveal_strlit("nip46");
    reveal_strlit("person_feed");
    reveal_strlit("person_feed_chunk");
    reveal_strlit("id_replies");
    reveal_strlit("addr_replies");
    reveal_strlit("relay_search");
    assert("temp_"@ =~= seq!['t', 'e', 'm', 'p', '_']);
    assert("_"@ =~= seq!['_']);
    assert("nip46"@ =~= seq!['n', 'i', 'p', '4', '6']);
}

/// Two strings that begin alike and are equal end alike.
proof fn lemma_same_prefix_cancels(p: Seq<char>, x: Seq<char>, y: Seq<char>)
    requires
        p + x == p + y,
    ensures
        x == y,
{
    assert((p + x).len() == p.len() + x.len());
    assert((p + y).len() == p.len() + y.len());
    assert forall|i: int| 0 <= i < x.len() implies x[i] == y[i] by {
        assert((p + x)[p.len() + i] == x[i]);
        assert((p + y)[p.len() + i] == y[i]);
    }
    assert(x =~= y);
}

/// A handle is the base name with `temp_` before it exactly when the
/// subscription is temporary, and with an underscore and the job's number
/// behind it exactly when duplicates are allowed.
pub proof fn law_handle_shape(tag: FilterSetTag, job_id: u64)
    ensures
        tag.handle(job_id) == tag.handle_prefix() + tag.inner_handle() + tag.handle_suffix(job_id),
        tag.temporary() <==> "temp_"@.is_prefix_of(tag.handle(job_id)),
        tag.can_have_duplicates() <==> ("_"@ + decimal(job_id as nat)).is_suffix_of(
            tag.handle(job_id),
        ),
        tag.temporary() ==> tag.handle_prefix() == "temp_"@,
        !tag.temporary() ==> tag.handle_prefix() == Seq::<char>::empty(),
        tag.can_have_duplicates() ==> tag.handle_suffix(job_id) == "_"@ + decimal(job_id as nat),
        !tag.can_have_duplicates() ==> tag.handle_suffix(job_id) == Seq::<char>::empty(),
{
    reveal_handle_literals();
    lemma_decimal_digits(job_id as nat);
    let h = tag.handle(job_id);
    let inner = tag.inner_handle();
    let number = decimal(job_id as nat);
    let tail = "_"@ + number;
    if tag.temporary() {
        assert(h.subrange(0, 5) =~= "temp_"@);
    } else {
        assert(h[0] == inner[0]);
        assert(h[0] != 't');
        if "temp_"@.is_prefix_of(h) {
            assert(h.subrange(0, 5)[0] == 't');
        }
    }
    if tag.can_have_duplicates() {
        assert(h.subrange(h.len() - tail.len(), h.len() as int) =~= tail);
    } else if tail.is_suffix_of(h) {
        let end = h.subrange(h.len() - tail.len(), h.len() as int);
        assert(h =~= tag.handle_prefix() + inner);
        assert(end.last() == h.last());
        assert(h.last() == inner.last());
        assert(tail.last() == number.last());
        assert(is_digit(number.last()));
        if tag == FilterSetTag::Nip46 {
            assert(tail[0] == '_');
            if tail.len() == 2 {
                assert(end[0] == h[3]);
            } else {
                assert(tail[tail.len() - 3] == '_' || is_digit(number[number.len() - 2]));
                assert(tail[tail.len() - 3] == end[tail.len() - 3]);
                assert(end[tail.len() - 3] == h[2]);
            }
        }
    }
}

/// Subscriptions with different base names never run under the same
/// handle, whatever the jobs' numbers.
pub proof fn law_handles_differ(a: FilterSetTag, job_a: u64, b: FilterSetTag, job_b: u64)
    requires
        a.inner_handle() != b.inner_handle(),
    ensures
        a.handle(job_a) != b.handle(job_b),
{
    reveal_handle_literals();
    lemma_decimal_digits(job_a as nat);
    lemma_decimal_digits(job_b as nat);
    let ha = a.handle(job_a);
    let hb = b.handle(job_b);
    if ha == hb {
        if a.temporary() != b.temporary() {
            assert(ha[0] != hb[0]);
        } else if !a.temporary() {
            assert(ha =~= a.inner_handle());
            assert(hb =~= b.inner_handle());
        } else if !a.can_have_duplicates() && !b.can_have_duplicates() {
            assert(ha =~= "temp_"@ + a.inner_handle());
            assert(hb =~= "temp_"@ + b.inner_handle());
            lemma_same_prefix_cancels("temp_"@, a.inner_handle(), b.inner_handle());
        } else if a.can_have_duplicates() && b.can_have_duplicates() {
            assert(ha[5] == a.inner_handle()[0]);
            assert(hb[5] == b.inner_handle()[0]);
            assert(ha[6] == a.inner_handle()[1]);
            assert(hb[6] == b.inner_handle()[1]);
        } else if a.can_have_duplicates() {
            assert(is_digit(decimal(job_a as nat).last()));
            assert(ha.last() == decimal(job_a as nat).last());
            assert(hb.last() == b.inner_handle().last());
        } else {
            assert(is_digit(decimal(job_b as nat).last()));
            assert(hb.last() == decimal(job_b as nat).last());
            assert(ha.last() == a.inner_handle().last());
        }
    }
}

/// Where duplicates are allowed, every job runs under a handle of its own.
pub proof fn law_jobs_have_their_own_handles(tag: FilterSetTag, job_a: u64, job_b: u64)
    requires
        tag.can_have_duplicates(),
        job_a != job_b,
    ensures
        tag.handle(job_a) != tag.handle(job_b),
{
    let front = tag.handle_prefix() + tag.inner_handle() + "_"@;
    assert(tag.handle(job_a) =~= front + decimal(job_a as nat));
    assert(tag.handle(job_b) =~= front + decimal(job_b as nat));
    if tag.handle(job_a) == tag.handle(job_b) {
        lemma_same_prefix_cancels(front, decimal(job_a as nat), decimal(job_b as nat));
        lemma_decimal_is_injective(job_a as nat, job_b as nat);
    }
}

/// The handle depends on which subscription it is and on the job's number
/// alone: two requests for the same feed run under the same handle whatever
/// they carry.
pub proof fn law_handle_of_tag_alone(a: FilterSet, b: FilterSet, job_id: u64)
    requires
        a.spec_tag() == b.spec_tag(),
    ensures
        a.spec_tag().handle(job_id) == b.spec_tag().handle(job_id),
        a.spec_tag().temporary() == b.spec_tag().temporary(),
        a.spec_tag().can_have_duplicates() == b.spec_tag().can_have_duplicates(),
        a.spec_tag().is_loading_more() == b.spec_tag().is_loading_more(),
{
}

/// A subscription has no filter exactly when what it cannot do without is
/// missing: the local identity, or at least one author.
pub proof fn law_no_filters_without_precondition(
    request: FilterSet,
    spamsafe: bool,
    ctx: FilterContext,
)
    ensures
        request.lacks_precondition(ctx) <==> request.spec_filters(spamsafe, ctx)
            == Seq::<crate::filter::FilterView>::empty(),
        !request.lacks_precondition(ctx) ==> request.spec_filters(spamsafe, ctx).len() == 1,
{
    if request.lacks_precondition(ctx) {
        assert(request.spec_filters(spamsafe, ctx) =~= Seq::<crate::filter::FilterView>::empty());
    } else {
        assert(request.spec_filters(spamsafe, ctx).len() == 1);
    }
}

/// A subscription for events of which only the latest counts (the local
/// user's own settings, relay lists, metadata, followers) asks for no
/// window of time at all.
pub proof fn law_replaceable_events_have_no_window(
    request: FilterSet,
    spamsafe: bool,
    ctx: FilterContext,
    i: int,
)
    requires
        request is Config || request is Discover || request is Metadata || request is FollowersOf,
        0 <= i < request.spec_filters(spamsafe, ctx).len(),
    ensures
        request.spec_filters(spamsafe, ctx)[i].since is None,
        request.spec_filters(spamsafe, ctx)[i].until is None,
        request.spec_filters(spamsafe, ctx)[i].limit is None,
{
}

/// A subscription that loads an earlier page of a feed asks for the events
/// up to its anchor, as many as a page holds, and for no lower bound.
pub proof fn law_pages_are_bounded(request: FilterSet, spamsafe: bool, ctx: FilterContext, i: int)
    requires
        request.spec_tag().is_loading_more(),
        0 <= i < request.spec_filters(spamsafe, ctx).len(),
    ensures
        request.spec_filters(spamsafe, ctx)[i].since is None,
        request.spec_filters(spamsafe, ctx)[i].until is Some,
        request.spec_filters(spamsafe, ctx)[i].limit == Some(ctx.load_more_count),
{
}

/// A search is the same on every relay: it is never held to the subscribed
/// authors.
pub proof fn law_search_ignores_spam_guard(what: String, ctx: FilterContext)
    ensures
        FilterSet::Search(what).spec_filters(true, ctx) == FilterSet::Search(what).spec_filters(
            false,
            ctx,
        ),
        FilterSet::Search(what).spec_filters(false, ctx)[0].authors == Seq::<
            crate::keys::PublicKey,
        >::empty(),
{
}

/// Queries for replies and mentions are held to the subscribed authors
/// exactly where the relay is not spam-safe and the setting asks for it.
pub proof fn law_mentions_are_guarded(
    request: FilterSet,
    spamsafe: bool,
    ctx: FilterContext,
    i: int,
)
    requires
        request is RepliesToId || request is RepliesToAddr || request is InboxFeedFuture
            || request is InboxFeedChunk,
        0 <= i < request.spec_filters(spamsafe, ctx).len(),
    ensures
        request.spec_filters(spamsafe, ctx)[i].authors == if !spamsafe
            && ctx.avoid_spam_on_unsafe_relays {
            ctx.subscribed_pubkeys@
        } else {
            Seq::<crate::keys::PublicKey>::empty()
        },
{
}

} // verus!
