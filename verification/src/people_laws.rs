use vstd::prelude::*;
use egui::ColorImage;
use crate::filter::Unixtime;
use crate::people::{
    nip05_differs, AvatarLookup, AvatarSourceView, FetchOutcome, Interest, PeopleView,
};
use crate::person::{Metadata, Person};

verus! {

/// Metadata is kept by the date its author gives it, not by the order in
/// which it arrives: after metadata dated `t1`, metadata dated earlier
/// changes nothing but the time of arrival. Where the first was taken, it is
/// what the record holds after both.
pub proof fn law_last_writer_wins(
    person: Person,
    later: Metadata,
    t1: Unixtime,
    arrived_first: Unixtime,
    earlier: Metadata,
    t0: Unixtime,
    arrived_second: Unixtime,
)
    requires
        t0.0 < t1.0,
    ensures
        ({
            let first = person.after_metadata(later, t1, arrived_first);
            let second = first.after_metadata(earlier, t0, arrived_second);
            &&& !first.accepts(t0)
            &&& second == Person { metadata_last_received: arrived_second.0, ..first }
            &&& person.accepts(t1) ==> second.metadata == Some(later)
                && second.metadata_created_at == Some(t1.0)
        }),
{
}

/// The date of the metadata that a record holds never goes back, and the
/// time of arrival is taken down whatever the date.
pub proof fn law_metadata_date_only_advances(
    person: Person,
    metadata: Metadata,
    asof: Unixtime,
    now: Unixtime,
)
    ensures
        ({
            let after = person.after_metadata(metadata, asof, now);
            &&& after.metadata_last_received == now.0
            &&& after.metadata_created_at is Some
            &&& person.metadata_created_at matches Some(held) ==> after.metadata_created_at->0
                >= held
            &&& after.pubkey == person.pubkey
            &&& after.followed == person.followed
            &&& after.muted == person.muted
            &&& after.petname == person.petname
        }),
{
}

/// Metadata that is taken and claims another DNS identity than the one
/// held leaves that identity unchecked and not valid.
pub proof fn law_changed_nip05_is_unchecked(
    person: Person,
    metadata: Metadata,
    asof: Unixtime,
    now: Unixtime,
)
    requires
        person.accepts(asof),
        nip05_differs(person.metadata, metadata),
    ensures
        ({
            let after = person.after_metadata(metadata, asof, now);
            &&& after.metadata == Some(metadata)
            &&& !after.nip05_valid
            &&& after.nip05_last_checked is None
            &&& after.spec_nip05() is Some ==> after.nip05_check_due(false, now)
        }),
{
}

/// Every change of the cache keeps what holds of it at all times.
pub proof fn law_cache_stays_well_formed(
    cache: PeopleView,
    key: [u8; 32],
    auto_fetch: bool,
    load_avatars: bool,
    stored: Option<Person>,
    held: Person,
    metadata: Metadata,
    asof: Unixtime,
    now: Unixtime,
    outcome: FetchOutcome,
    image: Option<ColorImage>,
)
    requires
        cache.wf(),
    ensures
        PeopleView::empty().wf(),
        cache.after_interest(key, auto_fetch, stored, now).wf(),
        cache.after_fetch().wf(),
        cache.after_metadata(key, held, metadata, asof).wf(),
        cache.after_avatar_lookup(key).wf(),
        cache.after_avatar_plan(key, stored).wf(),
        cache.after_avatar_fetch(key, outcome).wf(),
        cache.after_processed(key, image).wf(),
{
}

/// The identities whose metadata was asked for in this run only become
/// more: no change of the cache takes one away.
pub proof fn law_tried_only_grows(
    cache: PeopleView,
    key: [u8; 32],
    auto_fetch: bool,
    stored: Option<Person>,
    held: Person,
    metadata: Metadata,
    asof: Unixtime,
    now: Unixtime,
    outcome: FetchOutcome,
    image: Option<ColorImage>,
)
    ensures
        cache.tried_metadata.subset_of(
            cache.after_interest(key, auto_fetch, stored, now).tried_metadata,
        ),
        cache.tried_metadata.subset_of(cache.after_fetch().tried_metadata),
        cache.need_metadata.subset_of(cache.after_fetch().tried_metadata),
        cache.tried_metadata.subset_of(
            cache.after_metadata(key, held, metadata, asof).tried_metadata,
        ),
        cache.tried_metadata.subset_of(cache.after_avatar_lookup(key).tried_metadata),
        cache.tried_metadata.subset_of(cache.after_avatar_plan(key, stored).tried_metadata),
        cache.tried_metadata.subset_of(cache.after_avatar_fetch(key, outcome).tried_metadata),
        cache.tried_metadata.subset_of(cache.after_processed(key, image).tried_metadata),
{
}

/// An interest in an identity whose metadata was asked for in this run
/// changes nothing.
pub proof fn law_interest_after_try_is_ignored(
    cache: PeopleView,
    key: [u8; 32],
    auto_fetch: bool,
    stored: Option<Person>,
    now: Unixtime,
)
    requires
        cache.tried_metadata.contains(key),
    ensures
        cache.interest(key, auto_fetch, stored, now) == Interest::Ignored,
        cache.after_interest(key, auto_fetch, stored, now) == cache,
{
}

/// No identity's metadata is asked for twice in one run: what a periodic
/// pass asks for is never among what a later pass asks for, whatever went
/// on between the two.
pub proof fn law_metadata_is_asked_for_once(earlier: PeopleView, later: PeopleView)
    requires
        later.wf(),
        earlier.after_fetch().tried_metadata.subset_of(later.tried_metadata),
    ensures
        earlier.need_metadata.disjoint(later.need_metadata),
{
    assert forall|k: [u8; 32]|
        !(earlier.need_metadata.contains(k) && later.need_metadata.contains(k)) by {
        if earlier.need_metadata.contains(k) {
            assert(earlier.after_fetch().tried_metadata.contains(k));
            assert(later.tried_metadata.contains(k));
        }
    }
}

/// A record without a picture is a failure for good at once: the picture
/// is not fetched, no image is pending, and every later look finds none
/// without consulting the record again.
pub proof fn law_missing_picture_fails_for_good(
    cache: PeopleView,
    key: [u8; 32],
    person: Person,
    load_avatars: bool,
)
    requires
        cache.avatar_idle(key),
        person.spec_picture() is None,
    ensures
        ({
            let after = cache.after_avatar_plan(key, Some(person));
            &&& cache.avatar_plan(key, Some(person)) == AvatarSourceView::Unavailable
            &&& after.avatars_failed.contains(key)
            &&& after.avatars_pending == cache.avatars_pending
            &&& after.avatars_ready == cache.avatars_ready
            &&& after.avatar_lookup(key, load_avatars) == AvatarLookup::Unavailable
            &&& after.after_avatar_lookup(key).avatars_failed.contains(key)
        }),
{
}

/// An image that was made is handed over exactly once: the look that
/// follows gives it, and the look after that gives none.
pub proof fn law_avatar_is_handed_over_once(
    cache: PeopleView,
    key: [u8; 32],
    image: ColorImage,
    load_avatars: bool,
    load_avatars_later: bool,
)
    requires
        cache.avatars_pending.contains(key),
    ensures
        ({
            let made = cache.after_processed(key, Some(image));
            let taken = made.after_avatar_lookup(key);
            &&& made.avatar_lookup(key, load_avatars) == AvatarLookup::Ready(image)
            &&& !made.avatars_pending.contains(key)
            &&& !(taken.avatar_lookup(key, load_avatars_later) is Ready)
            &&& !taken.avatars_ready.contains_key(key)
        }),
{
}

/// Bytes that were fetched for an identity of whose image nothing was
/// known make the image pending: no look gives an image or consults the
/// record while it is being made, and the image that is made is what the
/// next look hands over.
pub proof fn law_fetched_bytes_become_the_avatar(
    cache: PeopleView,
    key: [u8; 32],
    image: ColorImage,
    load_avatars: bool,
)
    requires
        cache.avatar_idle(key),
    ensures
        ({
            let fetched = cache.after_avatar_fetch(key, FetchOutcome::Bytes);
            let made = fetched.after_processed(key, Some(image));
            &&& cache.avatar_to_process(key, FetchOutcome::Bytes)
            &&& fetched.avatars_pending.contains(key)
            &&& fetched.avatar_lookup(key, load_avatars) == AvatarLookup::Unavailable
            &&& !fetched.avatar_to_process(key, FetchOutcome::Bytes)
            &&& made.avatar_lookup(key, load_avatars) == AvatarLookup::Ready(image)
        }),
{
}

/// An image that could not be made is a failure for good, until metadata
/// that is taken lets the image be tried again.
pub proof fn law_failed_avatar_waits_for_metadata(
    cache: PeopleView,
    key: [u8; 32],
    held: Person,
    metadata: Metadata,
    asof: Unixtime,
    load_avatars: bool,
)
    requires
        cache.wf(),
        cache.avatars_pending.contains(key),
    ensures
        ({
            let failed = cache.after_processed(key, None);
            let told = failed.after_metadata(key, held, metadata, asof);
            &&& failed.avatars_failed.contains(key)
            &&& failed.avatar_lookup(key, load_avatars) == AvatarLookup::Unavailable
            &&& held.accepts(asof) ==> told.avatar_idle(key)
            &&& !held.accepts(asof) ==> told.avatars_failed.contains(key)
        }),
{
}

} // verus!
