use vstd::prelude::*;
use dashmap::{DashMap, DashSet};
use egui::ColorImage;
use std::hash::RandomState;
use crate::filter::Unixtime;
use crate::indices::{
    avatar_slots, avatar_slots_contains, avatar_slots_insert, avatar_slots_new,
    avatar_slots_remove, key_set, key_set_clear, key_set_contains, key_set_insert, key_set_keys,
    key_set_new, key_set_remove,
};
use crate::keys::PublicKey;
use crate::person::{text_of, Metadata, Person};
use crate::url::{check_url, checked_url};

verus! {

/// For how long metadata counts as fresh after it arrived: eight hours, in
/// seconds.
pub const METADATA_FRESH_SECS: i64 = 28800;

/// After how long a DNS identity that was found valid is checked again:
/// fourteen days, in seconds.
pub const NIP05_RECHECK_VALID_SECS: i64 = 1209600;

/// After how long a DNS identity that was not found valid is checked again:
/// one day, in seconds.
pub const NIP05_RECHECK_INVALID_SECS: i64 = 86400;

/// What the cache holds in memory beside the stored records.
pub struct PeopleView {
    pub active_person: Option<PublicKey>,
    pub active_persons_write_relays: Seq<(String, u64)>,
    /// The images that are ready and wait to be handed over.
    pub avatars_ready: Map<[u8; 32], ColorImage>,
    /// The identities whose image is being made.
    pub avatars_pending: Set<[u8; 32]>,
    /// The identities whose image cannot be had without new metadata.
    pub avatars_failed: Set<[u8; 32]>,
    /// The identities whose DNS identity is to be checked when their
    /// metadata next arrives.
    pub recheck_nip05: Set<[u8; 32]>,
    /// The identities whose metadata is wanted.
    pub need_metadata: Set<[u8; 32]>,
    /// The identities whose metadata was asked for in this run.
    pub tried_metadata: Set<[u8; 32]>,
    pub last_contact_list_asof: i64,
    pub last_contact_list_size: usize,
}

impl PeopleView {
    /// What holds of the cache at all times: no identity is wanted that was
    /// asked for already, and for its image an identity is in at most one of
    /// three states: ready, pending, failed.
    pub open spec fn wf(self) -> bool {
        &&& forall|k: [u8; 32]|
            !(#[trigger] self.need_metadata.contains(k) && self.tried_metadata.contains(k))
        &&& forall|k: [u8; 32]|
            !(#[trigger] self.avatars_pending.contains(k) && self.avatars_failed.contains(k))
        &&& forall|k: [u8; 32]|
            !(#[trigger] self.avatars_ready.contains_key(k) && self.avatars_pending.contains(k))
        &&& forall|k: [u8; 32]|
            !(#[trigger] self.avatars_ready.contains_key(k) && self.avatars_failed.contains(k))
    }

    /// Whether nothing is known of the identity's image: none is ready, none
    /// is being made, and none has failed.
    pub open spec fn avatar_idle(self, key: [u8; 32]) -> bool {
        !self.avatars_ready.contains_key(key) && !self.avatars_pending.contains(key)
            && !self.avatars_failed.contains(key)
    }

    /// The cache with nothing in it.
    pub open spec fn empty() -> PeopleView {
        PeopleView {
            active_person: None,
            active_persons_write_relays: Seq::empty(),
            avatars_ready: Map::empty(),
            avatars_pending: Set::empty(),
            avatars_failed: Set::empty(),
            recheck_nip05: Set::empty(),
            need_metadata: Set::empty(),
            tried_metadata: Set::empty(),
            last_contact_list_asof: 0,
            last_contact_list_size: 0,
        }
    }

    /// What becomes of a call that takes an interest in an identity.
    pub open spec fn interest(
        self,
        key: [u8; 32],
        auto_fetch: bool,
        stored: Option<Person>,
        now: Unixtime,
    ) -> Interest {
        if !auto_fetch || self.tried_metadata.contains(key) {
            Interest::Ignored
        } else {
            match stored {
                Some(person) => if person.needs_metadata(now) {
                    Interest::Registered
                } else {
                    Interest::Ignored
                },
                None => Interest::CreateRecord,
            }
        }
    }

    /// The cache after a call that takes an interest in an identity.
    pub open spec fn after_interest(
        self,
        key: [u8; 32],
        auto_fetch: bool,
        stored: Option<Person>,
        now: Unixtime,
    ) -> PeopleView {
        if self.interest(key, auto_fetch, stored, now) == Interest::Registered {
            PeopleView { need_metadata: self.need_metadata.insert(key), ..self }
        } else {
            self
        }
    }

    /// The cache after a pass that asks for all metadata that is wanted.
    pub open spec fn after_fetch(self) -> PeopleView {
        PeopleView {
            need_metadata: Set::empty(),
            tried_metadata: self.tried_metadata.union(self.need_metadata),
            ..self
        }
    }

    /// The cache after metadata of an identity arrived, where `stored` is
    /// the record as it was: the metadata is wanted no longer; where it was
    /// taken, the identity's image may be tried again; and where the record
    /// has a DNS identity afterwards, a check that was asked for is asked
    /// for no longer, as it is due now.
    pub open spec fn after_metadata(
        self,
        key: [u8; 32],
        stored: Person,
        metadata: Metadata,
        asof: Unixtime,
    ) -> PeopleView {
        PeopleView {
            need_metadata: self.need_metadata.remove(key),
            avatars_failed: if stored.accepts(asof) {
                self.avatars_failed.remove(key)
            } else {
                self.avatars_failed
            },
            recheck_nip05: if stored.nip05_after(metadata, asof) is Some {
                self.recheck_nip05.remove(key)
            } else {
                self.recheck_nip05
            },
            ..self
        }
    }

    /// What a look for an identity's image gives.
    pub open spec fn avatar_lookup(self, key: [u8; 32], load_avatars: bool) -> AvatarLookup {
        if self.avatars_ready.contains_key(key) {
            AvatarLookup::Ready(self.avatars_ready[key])
        } else if self.avatars_failed.contains(key) || self.avatars_pending.contains(key)
            || !load_avatars {
            AvatarLookup::Unavailable
        } else {
            AvatarLookup::Consult
        }
    }

    /// The cache after a look for an identity's image: an image that was
    /// ready is gone.
    pub open spec fn after_avatar_lookup(self, key: [u8; 32]) -> PeopleView {
        PeopleView { avatars_ready: self.avatars_ready.remove(key), ..self }
    }

    /// The cache after the image of an identity is marked as failed for
    /// good.
    pub open spec fn with_failed(self, key: [u8; 32]) -> PeopleView {
        PeopleView { avatars_failed: self.avatars_failed.insert(key), ..self }
    }

    /// The cache after the image of an identity is marked as being made.
    pub open spec fn with_pending(self, key: [u8; 32]) -> PeopleView {
        PeopleView { avatars_pending: self.avatars_pending.insert(key), ..self }
    }

    /// What the record of an identity says of where its image is, for an
    /// identity of whose image nothing is known.
    pub open spec fn avatar_plan(self, key: [u8; 32], stored: Option<Person>) -> AvatarSourceView {
        if !self.avatar_idle(key) {
            AvatarSourceView::Unavailable
        } else {
            match picture_url(stored) {
                PictureUrl::Good(url) => AvatarSourceView::Fetch(url),
                _ => AvatarSourceView::Unavailable,
            }
        }
    }

    /// The cache after the record of an identity was consulted for its
    /// image: a record without a picture, or with one whose address is no
    /// good, is a failure for good.
    pub open spec fn after_avatar_plan(self, key: [u8; 32], stored: Option<Person>) -> PeopleView {
        if self.avatar_idle(key) && picture_url(stored) == PictureUrl::Bad {
            self.with_failed(key)
        } else {
            self
        }
    }

    /// Whether the bytes that were fetched for an identity's image are to
    /// be made into an image now.
    pub open spec fn avatar_to_process(self, key: [u8; 32], outcome: FetchOutcome) -> bool {
        self.avatar_idle(key) && outcome == FetchOutcome::Bytes
    }

    /// The cache after the fetch for an identity's image was tried.
    pub open spec fn after_avatar_fetch(self, key: [u8; 32], outcome: FetchOutcome) -> PeopleView {
        if !self.avatar_idle(key) {
            self
        } else {
            match outcome {
                FetchOutcome::Missing => self,
                FetchOutcome::Bytes => self.with_pending(key),
                FetchOutcome::Failed => self.with_failed(key),
            }
        }
    }

    /// The cache after the making of an identity's image ended.
    pub open spec fn after_processed(self, key: [u8; 32], image: Option<ColorImage>) -> PeopleView {
        if self.avatars_pending.contains(key) {
            match image {
                Some(image) => PeopleView {
                    avatars_pending: self.avatars_pending.remove(key),
                    avatars_ready: self.avatars_ready.insert(key, image),
                    ..self
                },
                None => PeopleView {
                    avatars_pending: self.avatars_pending.remove(key),
                    avatars_failed: self.avatars_failed.insert(key),
                    ..self
                },
            }
        } else {
            self
        }
    }
}

/// What taking an interest in an identity led to.
#[derive(Debug, Clone, Copy, PartialEq, Eq, Structural)]
pub enum Interest {
    /// Nothing changed: fetching is switched off, the metadata was asked
    /// for in this run already, or it is fresh.
    Ignored,
    /// The identity's metadata is wanted now; the next periodic pass asks
    /// for it.
    Registered,
    /// No record is stored for the identity: the caller creates one, and a
    /// later call decides on its metadata.
    CreateRecord,
}

/// What a look for an identity's image gives.
pub enum AvatarLookup {
    /// The image, handed over for good: no later look gives it again.
    Ready(ColorImage),
    /// No image for now.
    Unavailable,
    /// Nothing is known of the image: the caller reads the identity's
    /// record and goes on with [`People::avatar_source`].
    Consult,
}

/// What a record says of where the author's picture is.
pub enum PictureUrl {
    /// No record is stored.
    NoRecord,
    /// The record names no picture, or one whose address is no good.
    Bad,
    /// The checked address of the picture.
    Good(Seq<char>),
}

/// What the record of an identity says of where its picture is.
pub open spec fn picture_url(stored: Option<Person>) -> PictureUrl {
    match stored {
        None => PictureUrl::NoRecord,
        Some(person) => match person.spec_picture() {
            None => PictureUrl::Bad,
            Some(picture) => match checked_url(picture) {
                None => PictureUrl::Bad,
                Some(url) => PictureUrl::Good(url),
            },
        },
    }
}

/// Where an identity's image is to be fetched from, as a mathematical
/// value.
pub enum AvatarSourceView {
    Unavailable,
    Fetch(Seq<char>),
}

/// Where an identity's image is to be fetched from.
#[derive(Debug, Clone, PartialEq, Eq)]
pub enum AvatarSource {
    /// No image for now, or for good.
    Unavailable,
    /// The address to fetch the picture from; the caller hands what came of
    /// it to [`People::avatar_fetched`].
    Fetch(String),
}

impl View for AvatarSource {
    type V = AvatarSourceView;

    open spec fn view(&self) -> AvatarSourceView {
        match self {
            AvatarSource::Unavailable => AvatarSourceView::Unavailable,
            AvatarSource::Fetch(url) => AvatarSourceView::Fetch(url@),
        }
    }
}

/// What came of the try to fetch a picture's bytes.
#[derive(Debug, Clone, Copy, PartialEq, Eq, Structural)]
pub enum FetchOutcome {
    /// The bytes are not there yet.
    Missing,
    /// The bytes are there.
    Bytes,
    /// The fetch failed.
    Failed,
}

/// For how long the fetched bytes of a picture are kept: three days, in
/// seconds.
pub const AVATAR_CACHE_SECS: u64 = 259200;

impl Person {
    /// Whether the record lacks metadata or holds metadata that arrived more
    /// than eight hours before `now`.
    pub open spec fn needs_metadata(self, now: Unixtime) -> bool {
        self.metadata_created_at is None || self.metadata_last_received < stale_before(now)
    }

    /// Whether metadata that the author dates `asof` is newer than what the
    /// record holds: the first is taken as it comes.
    pub open spec fn accepts(self, asof: Unixtime) -> bool {
        match self.metadata_created_at {
            Some(held) => asof.0 > held,
            None => true,
        }
    }

    /// The record after metadata dated `asof` arrived at `now`. The time of
    /// arrival is taken down in any case. The metadata itself is taken only
    /// where it is newer than what is held; where its DNS identity differs
    /// from the one held, that identity counts as unchecked and not valid.
    pub open spec fn after_metadata(
        self,
        metadata: Metadata,
        asof: Unixtime,
        now: Unixtime,
    ) -> Person {
        if self.accepts(asof) {
            if nip05_differs(self.metadata, metadata) {
                Person {
                    metadata: Some(metadata),
                    metadata_created_at: Some(asof.0),
                    metadata_last_received: now.0,
                    nip05_valid: false,
                    nip05_last_checked: None,
                    ..self
                }
            } else {
                Person {
                    metadata: Some(metadata),
                    metadata_created_at: Some(asof.0),
                    metadata_last_received: now.0,
                    ..self
                }
            }
        } else {
            Person { metadata_last_received: now.0, ..self }
        }
    }

    /// The DNS identity that the record claims after metadata dated `asof`
    /// arrived.
    pub open spec fn nip05_after(self, metadata: Metadata, asof: Unixtime) -> Option<Seq<char>> {
        if self.accepts(asof) {
            text_of(metadata.nip05)
        } else {
            self.spec_nip05()
        }
    }

    /// Whether the record's DNS identity is to be checked at `now`: it has
    /// one, and a check was asked for, none was ever made, or the last one
    /// lies further back than the interval for its outcome.
    pub open spec fn nip05_check_due(self, requested: bool, now: Unixtime) -> bool {
        self.spec_nip05() is Some && (requested || match self.nip05_last_checked {
            Some(last) => seconds_between(now.0 as int, last as int) > (if self.nip05_valid {
                NIP05_RECHECK_VALID_SECS
            } else {
                NIP05_RECHECK_INVALID_SECS
            }),
            None => true,
        })
    }
}

/// The earliest time of arrival at which metadata still counts as fresh at
/// `now`.
pub open spec fn stale_before(now: Unixtime) -> int {
    if now.0 - METADATA_FRESH_SECS < i64::MIN {
        i64::MIN as int
    } else {
        now.0 - METADATA_FRESH_SECS
    }
}

/// The seconds between two times, whichever is the later.
pub open spec fn seconds_between(a: int, b: int) -> int {
    if a >= b {
        a - b
    } else {
        b - a
    }
}

/// Whether new metadata claims another DNS identity than the metadata held.
pub open spec fn nip05_differs(held: Option<Metadata>, new: Metadata) -> bool {
    match held {
        Some(md) => text_of(new.nip05) != text_of(md.nip05),
        None => new.nip05 is Some,
    }
}

/// What became of metadata that arrived.
#[derive(Debug, Clone)]
pub struct MetadataUpdate {
    /// The record as it is to be stored.
    pub person: Person,
    /// Whether the metadata was newer than what was held and was taken.
    pub accepted: bool,
    /// Whether the DNS identity is to be checked now.
    pub recheck_nip05: bool,
}

fn same_text(a: &Option<String>, b: &Option<String>) -> (r: bool)
    ensures
        r == (text_of(*a) == text_of(*b)),
{
    match a {
        Some(x) => match b {
            Some(y) => {
                let same = *x == *y;
                same
            },
            None => false,
        },
        None => b.is_none(),
    }
}

fn metadata_is_stale(person: &Person, now: Unixtime) -> (r: bool)
    ensures
        r == person.needs_metadata(now),
{
    let limit: i64 = if now.0 < i64::MIN + METADATA_FRESH_SECS {
        i64::MIN
    } else {
        now.0 - METADATA_FRESH_SECS
    };
    person.metadata_created_at.is_none() || person.metadata_last_received < limit
}

fn nip05_interval_passed(person: &Person, last: u64, now: Unixtime) -> (r: bool)
    ensures
        r == (seconds_between(now.0 as int, last as int) > (if person.nip05_valid {
            NIP05_RECHECK_VALID_SECS
        } else {
            NIP05_RECHECK_INVALID_SECS
        })),
{
    let a: i128 = now.0 as i128;
    let b: i128 = last as i128;
    let gap: i128 = if a >= b {
        a - b
    } else {
        b - a
    };
    let interval: i128 = if person.nip05_valid {
        NIP05_RECHECK_VALID_SECS as i128
    } else {
        NIP05_RECHECK_INVALID_SECS as i128
    };
    gap > interval
}

/// The cache of what is known of authors beside their stored records, and
/// the schedule of what is fetched for them.
pub struct People {
    active_person: Option<PublicKey>,
    active_persons_write_relays: Vec<(String, u64)>,
    avatars_temp: DashMap<[u8; 32], ColorImage, RandomState>,
    avatars_pending_processing: DashSet<[u8; 32], RandomState>,
    avatars_failed: DashSet<[u8; 32], RandomState>,
    recheck_nip05: DashSet<[u8; 32], RandomState>,
    need_metadata: DashSet<[u8; 32], RandomState>,
    tried_metadata: DashSet<[u8; 32], RandomState>,
    last_contact_list_asof: i64,
    last_contact_list_size: usize,
}

impl View for People {
    type V = PeopleView;

    closed spec fn view(&self) -> PeopleView {
        PeopleView {
            active_person: self.active_person,
            active_persons_write_relays: self.active_persons_write_relays@,
            avatars_ready: avatar_slots(self.avatars_temp),
            avatars_pending: key_set(self.avatars_pending_processing),
            avatars_failed: key_set(self.avatars_failed),
            recheck_nip05: key_set(self.recheck_nip05),
            need_metadata: key_set(self.need_metadata),
            tried_metadata: key_set(self.tried_metadata),
            last_contact_list_asof: self.last_contact_list_asof,
            last_contact_list_size: self.last_contact_list_size,
        }
    }
}

impl People {
    /// A cache with nothing in it.
    pub fn new() -> (r: People)
        ensures
            r@ == PeopleView::empty(),
            r@.wf(),
    {
        People {
            active_person: None,
            active_persons_write_relays: Vec::new(),
            avatars_temp: avatar_slots_new(),
            avatars_pending_processing: key_set_new(),
            avatars_failed: key_set_new(),
            recheck_nip05: key_set_new(),
            need_metadata: key_set_new(),
            tried_metadata: key_set_new(),
            last_contact_list_asof: 0,
            last_contact_list_size: 0,
        }
    }

    /// Takes an interest in an identity: where metadata is fetched on its
    /// own, the identity's metadata was not asked for in this run, and the
    /// stored record lacks metadata or holds stale metadata, the metadata
    /// is wanted from now on. `stored` is the identity's record, where one
    /// is stored.
    pub fn person_of_interest(
        &mut self,
        pubkey: PublicKey,
        auto_fetch: bool,
        stored: Option<&Person>,
        now: Unixtime,
    ) -> (r: Interest)
        ensures
            old(self)@.wf() ==> final(self)@.wf(),
            r == old(self)@.interest(pubkey.bytes, auto_fetch, deref_person(stored), now),
            final(self)@ == old(self)@.after_interest(
                pubkey.bytes,
                auto_fetch,
                deref_person(stored),
                now,
            ),
    {
        if !auto_fetch {
            return Interest::Ignored;
        }
        if key_set_contains(&self.tried_metadata, &pubkey.bytes) {
            return Interest::Ignored;
        }
        match stored {
            Some(person) => {
                if !metadata_is_stale(person, now) {
                    return Interest::Ignored;
                }
                if !key_set_contains(&self.need_metadata, &pubkey.bytes) {
                    key_set_insert(&mut self.need_metadata, pubkey.bytes);
                }
                assert(self@.need_metadata =~= old(self)@.need_metadata.insert(pubkey.bytes));
                Interest::Registered
            },
            None => Interest::CreateRecord,
        }
    }

    /// The periodic pass: every identity whose metadata is wanted is taken
    /// off the list, counts as asked for in this run, and is in the result,
    /// once. The caller asks the network for the metadata of all of them
    /// at once.
    pub fn maybe_fetch_metadata(&mut self) -> (r: Vec<PublicKey>)
        ensures
            old(self)@.wf() ==> final(self)@.wf(),
            final(self)@ == old(self)@.after_fetch(),
            key_bytes(r@).to_set() == old(self)@.need_metadata,
            key_bytes(r@).no_duplicates(),
            old(self)@.need_metadata.finite(),
            r@.len() == old(self)@.need_metadata.len(),
    {
        let keys = key_set_keys(&self.need_metadata);
        key_set_clear(&mut self.need_metadata);
        let mut verified_need: Vec<PublicKey> = Vec::new();
        let mut i: usize = 0;
        proof {
            assert(keys@.subrange(0, 0).to_set() =~= Set::<[u8; 32]>::empty());
            assert(old(self)@.tried_metadata.union(Set::<[u8; 32]>::empty())
                =~= old(self)@.tried_metadata);
            assert(key_bytes(verified_need@) =~= keys@.subrange(0, 0));
        }
        while i < keys.len()
            invariant
                i <= keys.len(),
                key_bytes(verified_need@) == keys@.subrange(0, i as int),
                self@ == (PeopleView {
                    need_metadata: Set::empty(),
                    tried_metadata: old(self)@.tried_metadata.union(
                        keys@.subrange(0, i as int).to_set(),
                    ),
                    ..old(self)@
                }),
            decreases keys.len() - i,
        {
            let key = keys[i];
            verified_need.push(PublicKey { bytes: key });
            key_set_insert(&mut self.tried_metadata, key);
            proof {
                let done = keys@.subrange(0, i as int);
                let next = keys@.subrange(0, i as int + 1);
                assert(next =~= done.push(key));
                assert(key_bytes(verified_need@) =~= next);
                assert(next.to_set() =~= done.to_set().insert(key)) by {
                    assert forall|k: [u8; 32]| next.to_set().contains(k) <==> done.to_set().insert(
                        key,
                    ).contains(k) by {
                        if next.contains(k) {
                            let j = choose|j: int| 0 <= j < next.len() && next[j] == k;
                            if j < done.len() {
                                assert(done[j] == k);
                            }
                        }
                        if done.contains(k) {
                            let j = choose|j: int| 0 <= j < done.len() && done[j] == k;
                            assert(next[j] == k);
                        }
                        if k == key {
                            assert(next[i as int] == k);
                        }
                    }
                }
                assert(self@.tried_metadata =~= old(self)@.tried_metadata.union(next.to_set()));
            }
            i += 1;
        }
        proof {
            assert(keys@.subrange(0, keys.len() as int) =~= keys@);
            keys@.unique_seq_to_set();
        }
        verified_need
    }

    /// One round of the periodic task, after its pause: the periodic pass,
    /// and then whether the task ends, which it does once the process is
    /// shutting down.
    pub fn periodic_step(&mut self, shutting_down: bool) -> (r: (Vec<PublicKey>, bool))
        ensures
            old(self)@.wf() ==> final(self)@.wf(),
            final(self)@ == old(self)@.after_fetch(),
            key_bytes(r.0@).to_set() == old(self)@.need_metadata,
            key_bytes(r.0@).no_duplicates(),
            r.1 == shutting_down,
    {
        let wanted = self.maybe_fetch_metadata();
        (wanted, shutting_down)
    }

    /// Asks that the identity's DNS identity be checked when its metadata
    /// next arrives.
    pub fn recheck_nip05_on_update_metadata(&mut self, pubkey: &PublicKey)
        ensures
            old(self)@.wf() ==> final(self)@.wf(),
            final(self)@ == (PeopleView {
                recheck_nip05: old(self)@.recheck_nip05.insert(pubkey.bytes),
                ..old(self)@
            }),
    {
        key_set_insert(&mut self.recheck_nip05, pubkey.bytes);
    }

    /// Takes in metadata of an identity that arrived at `now` and that the
    /// author dates `asof`. `stored` is the identity's record, where one is
    /// stored; the result holds the record to store in its place.
    ///
    /// The identity's metadata is wanted no longer, whatever its date. It
    /// is taken only where it is newer than what the record holds: then the
    /// identity's image may be tried again.
    pub fn update_metadata(
        &mut self,
        stored: Option<Person>,
        pubkey: &PublicKey,
        metadata: Metadata,
        asof: Unixtime,
        now: Unixtime,
    ) -> (r: MetadataUpdate)
        ensures
            old(self)@.wf() ==> final(self)@.wf(),
            r.person == held_record(stored, *pubkey).after_metadata(metadata, asof, now),
            r.accepted == held_record(stored, *pubkey).accepts(asof),
            r.recheck_nip05 == r.person.nip05_check_due(
                old(self)@.recheck_nip05.contains(pubkey.bytes),
                now,
            ),
            final(self)@ == old(self)@.after_metadata(
                pubkey.bytes,
                held_record(stored, *pubkey),
                metadata,
                asof,
            ),
    {
        let mut person = match stored {
            Some(person) => person,
            None => Person::new(*pubkey),
        };
        let ghost held = person;
        person.metadata_last_received = now.0;
        key_set_remove(&mut self.need_metadata, &pubkey.bytes);
        let fresh = match person.metadata_created_at {
            Some(metadata_created_at) => asof.0 > metadata_created_at,
            None => true,
        };
        if fresh {
            let nip05_changed = match &person.metadata {
                Some(md) => !same_text(&metadata.nip05, &md.nip05),
                None => metadata.nip05.is_some(),
            };
            person.metadata = Some(metadata);
            person.metadata_created_at = Some(asof.0);
            if nip05_changed {
                person.nip05_valid = false;
                person.nip05_last_checked = None;
            }
            key_set_remove(&mut self.avatars_failed, &pubkey.bytes);
        }
        assert(person == held.after_metadata(metadata, asof, now));
        assert(person.spec_nip05() == held.nip05_after(metadata, asof));
        let has_nip05 = match &person.metadata {
            Some(md) => md.nip05.is_some(),
            None => false,
        };
        let mut recheck = false;
        if has_nip05 {
            if key_set_contains(&self.recheck_nip05, &pubkey.bytes) {
                key_set_remove(&mut self.recheck_nip05, &pubkey.bytes);
                recheck = true;
            } else {
                recheck = match person.nip05_last_checked {
                    Some(last) => nip05_interval_passed(&person, last, now),
                    None => true,
                };
            }
        }
        proof {
            assert(self@.recheck_nip05 =~= old(self)@.after_metadata(
                pubkey.bytes,
                held,
                metadata,
                asof,
            ).recheck_nip05);
        }
        MetadataUpdate { person, accepted: fresh, recheck_nip05: recheck }
    }

    /// Looks for the image of an identity. An image that is ready is handed
    /// over and is gone from the cache. Where the image failed for good, is
    /// being made, or images are not loaded at all, there is none. Else
    /// nothing is known yet, and the caller consults the identity's record.
    pub fn get_avatar(&mut self, pubkey: &PublicKey, load_avatars: bool) -> (r: AvatarLookup)
        ensures
            old(self)@.wf() ==> final(self)@.wf(),
            r == old(self)@.avatar_lookup(pubkey.bytes, load_avatars),
            final(self)@ == old(self)@.after_avatar_lookup(pubkey.bytes),
    {
        match avatar_slots_remove(&mut self.avatars_temp, &pubkey.bytes) {
            Some(image) => {
                return AvatarLookup::Ready(image);
            },
            None => {},
        }
        assert(self@.avatars_ready =~= old(self)@.avatars_ready);
        if key_set_contains(&self.avatars_failed, &pubkey.bytes) {
            return AvatarLookup::Unavailable;
        }
        if key_set_contains(&self.avatars_pending_processing, &pubkey.bytes) {
            return AvatarLookup::Unavailable;
        }
        if !load_avatars {
            return AvatarLookup::Unavailable;
        }
        AvatarLookup::Consult
    }

    fn avatar_is_idle(&self, pubkey: &PublicKey) -> (r: bool)
        ensures
            r == self@.avatar_idle(pubkey.bytes),
    {
        !avatar_slots_contains(&self.avatars_temp, &pubkey.bytes) && !key_set_contains(
            &self.avatars_pending_processing,
            &pubkey.bytes,
        ) && !key_set_contains(&self.avatars_failed, &pubkey.bytes)
    }

    /// Consults the record of an identity of whose image nothing is known.
    /// Without a stored record there is no image for now. A record that
    /// names no picture, or one whose address is no good, is a failure for
    /// good. Else the result is the address to fetch the picture from.
    pub fn avatar_source(&mut self, pubkey: &PublicKey, stored: Option<&Person>) -> (r:
        AvatarSource)
        ensures
            old(self)@.wf() ==> final(self)@.wf(),
            r@ == old(self)@.avatar_plan(pubkey.bytes, deref_person(stored)),
            final(self)@ == old(self)@.after_avatar_plan(pubkey.bytes, deref_person(stored)),
    {
        if !self.avatar_is_idle(pubkey) {
            return AvatarSource::Unavailable;
        }
        let person = match stored {
            Some(person) => person,
            None => {
                return AvatarSource::Unavailable;
            },
        };
        let picture = match person.picture() {
            Some(picture) => picture,
            None => {
                key_set_insert(&mut self.avatars_failed, pubkey.bytes);
                return AvatarSource::Unavailable;
            },
        };
        match check_url(picture) {
            Ok(url) => AvatarSource::Fetch(url),
            Err(_) => {
                key_set_insert(&mut self.avatars_failed, pubkey.bytes);
                AvatarSource::Unavailable
            },
        }
    }

    /// Takes in what came of the try to fetch the picture of an identity of
    /// whose image nothing is known. Bytes that are there are to be made
    /// into an image: the identity's image is pending, and the result is
    /// `true`. A fetch that failed is a failure for good.
    pub fn avatar_fetched(&mut self, pubkey: &PublicKey, outcome: FetchOutcome) -> (r: bool)
        ensures
            old(self)@.wf() ==> final(self)@.wf(),
            r == old(self)@.avatar_to_process(pubkey.bytes, outcome),
            final(self)@ == old(self)@.after_avatar_fetch(pubkey.bytes, outcome),
    {
        if !self.avatar_is_idle(pubkey) {
            return false;
        }
        match outcome {
            FetchOutcome::Missing => false,
            FetchOutcome::Bytes => {
                key_set_insert(&mut self.avatars_pending_processing, pubkey.bytes);
                true
            },
            FetchOutcome::Failed => {
                key_set_insert(&mut self.avatars_failed, pubkey.bytes);
                false
            },
        }
    }

    /// Takes in the image that was made for an identity whose image is
    /// pending, or that none could be made. The image is ready from now on,
    /// in place of the pending mark; without an image the identity's image
    /// has failed for good.
    pub fn avatar_processed(&mut self, pubkey: &PublicKey, image: Option<ColorImage>)
        ensures
            old(self)@.wf() ==> final(self)@.wf(),
            final(self)@ == old(self)@.after_processed(pubkey.bytes, image),
    {
        if !key_set_contains(&self.avatars_pending_processing, &pubkey.bytes) {
            return ;
        }
        key_set_remove(&mut self.avatars_pending_processing, &pubkey.bytes);
        match image {
            Some(image) => {
                avatar_slots_insert(&mut self.avatars_temp, pubkey.bytes, image);
            },
            None => {
                key_set_insert(&mut self.avatars_failed, pubkey.bytes);
            },
        }
    }

    /// Takes down the contact list of the local user that is stored, where
    /// there is one, before the periodic passes start: its date and how
    /// many authors it holds, where it is newer than the one taken down.
    pub fn start(&mut self, created_at: i64, pubkey_tags: usize)
        ensures
            old(self)@.wf() ==> final(self)@.wf(),
            final(self)@ == (if created_at > old(self)@.last_contact_list_asof {
                PeopleView {
                    last_contact_list_asof: created_at,
                    last_contact_list_size: pubkey_tags,
                    ..old(self)@
                }
            } else {
                old(self)@
            }),
    {
        if created_at > self.last_contact_list_asof {
            self.last_contact_list_asof = created_at;
            self.last_contact_list_size = pubkey_tags;
        }
    }

    /// Makes an author the one that the user looks at, with the relays
    /// that the author writes to, the best first.
    pub fn set_active_person(&mut self, pubkey: PublicKey, best_relays: Vec<(String, u64)>)
        ensures
            old(self)@.wf() ==> final(self)@.wf(),
            final(self)@ == (PeopleView {
                active_person: Some(pubkey),
                active_persons_write_relays: best_relays@,
                ..old(self)@
            }),
    {
        self.active_person = Some(pubkey);
        self.active_persons_write_relays = best_relays;
    }

    /// The author that the user looks at.
    pub fn get_active_person(&self) -> (r: Option<PublicKey>)
        ensures
            r == self@.active_person,
    {
        self.active_person
    }

    /// The relays that the author that the user looks at writes to.
    pub fn get_active_person_write_relays(&self) -> (r: Vec<(String, u64)>)
        ensures
            r@ == self@.active_persons_write_relays,
    {
        let mut out: Vec<(String, u64)> = Vec::new();
        let mut i: usize = 0;
        while i < self.active_persons_write_relays.len()
            invariant
                i <= self.active_persons_write_relays.len(),
                out@ == self.active_persons_write_relays@.subrange(0, i as int),
            decreases self.active_persons_write_relays.len() - i,
        {
            let url = self.active_persons_write_relays[i].0.clone();
            let score = self.active_persons_write_relays[i].1;
            out.push((url, score));
            assert(out@ =~= self.active_persons_write_relays@.subrange(0, i as int + 1));
            i += 1;
        }
        assert(self.active_persons_write_relays@.subrange(
            0,
            self.active_persons_write_relays.len() as int,
        ) =~= self.active_persons_write_relays@);
        out
    }

    /// The date of the last contact list of the local user that was seen.
    pub fn last_contact_list_asof(&self) -> (r: i64)
        ensures
            r == self@.last_contact_list_asof,
    {
        self.last_contact_list_asof
    }

    /// How many authors the last contact list of the local user held.
    pub fn last_contact_list_size(&self) -> (r: usize)
        ensures
            r == self@.last_contact_list_size,
    {
        self.last_contact_list_size
    }
}

/// The record that an update works on: the stored one, or that of an
/// identity of which nothing is known yet.
pub open spec fn held_record(stored: Option<Person>, pubkey: PublicKey) -> Person {
    match stored {
        Some(person) => person,
        None => Person::unknown(pubkey),
    }
}

/// The bytes of the keys of a list, in their order.
pub open spec fn key_bytes(keys: Seq<PublicKey>) -> Seq<[u8; 32]> {
    Seq::new(keys.len(), |i: int| keys[i].bytes)
}

/// The record behind a reference that may be missing.
pub open spec fn deref_person(stored: Option<&Person>) -> Option<Person> {
    match stored {
        Some(person) => Some(*person),
        None => None,
    }
}

} // verus!
