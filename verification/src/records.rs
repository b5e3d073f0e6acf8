use vstd::prelude::*;
use crate::filter::{EventKind, Unixtime};
use crate::keys::PublicKey;
use crate::people::{held_record, stale_before, People, METADATA_FRESH_SECS};
use crate::person::{text_of, Metadata, Person};
use crate::search::{
    best_of, matches_of, name_and_key, query_of, rank_people, result_views, SEARCH_RESULT_CAP,
};

verus! {

/// What can go wrong in the cache.
#[derive(Debug, Clone, Copy, PartialEq, Eq, Structural)]
pub enum PeopleError {
    /// No identity is configured, not even a public key.
    NoPrivateKey,
}

/// One entry of a contact list: a followed author.
#[derive(Debug, Clone)]
pub struct ContactTag {
    pub pubkey: PublicKey,
    /// The relay that the author is best read from, where one is known.
    pub recommended_relay_url: Option<String>,
    pub petname: Option<String>,
}

/// An event that is ready to be signed.
#[derive(Debug, Clone)]
pub struct PreEvent {
    pub pubkey: PublicKey,
    pub created_at: Unixtime,
    pub kind: EventKind,
    pub tags: Vec<ContactTag>,
    pub content: String,
}

/// An author that the local user follows, with the relays that the author
/// is best read from, the best first.
#[derive(Debug, Clone)]
pub struct Follow {
    pub pubkey: PublicKey,
    pub best_relays: Vec<(String, u64)>,
}

/// The keys of the followed among a list of records, in the order of the
/// list.
pub open spec fn followed_keys(people: Seq<Person>) -> Seq<PublicKey>
    decreases people.len(),
{
    if people.len() == 0 {
        Seq::empty()
    } else if people.last().followed {
        followed_keys(people.drop_last()).push(people.last().pubkey)
    } else {
        followed_keys(people.drop_last())
    }
}

/// Whether a followed author's relay list is wanted at `now`: the author
/// is among those asked about, and the list last arrived more than eight
/// hours ago.
pub open spec fn wants_relay_list(person: Person, among: Seq<PublicKey>, now: Unixtime) -> bool {
    person.followed && person.relay_list_last_received < stale_before(now) && among.contains(
        person.pubkey,
    )
}

/// The keys of the followed whose relay list is wanted, in the order of the
/// list of records.
pub open spec fn keys_wanting_relay_lists(
    people: Seq<Person>,
    among: Seq<PublicKey>,
    now: Unixtime,
) -> Seq<PublicKey>
    decreases people.len(),
{
    if people.len() == 0 {
        Seq::empty()
    } else if wants_relay_list(people.last(), among, now) {
        keys_wanting_relay_lists(people.drop_last(), among, now).push(people.last().pubkey)
    } else {
        keys_wanting_relay_lists(people.drop_last(), among, now)
    }
}

/// The records to create for a list of keys: one for each key that is not
/// known and did not come earlier in the list, in the order of the list.
pub open spec fn missing_records(pubkeys: Seq<PublicKey>, known: Seq<PublicKey>) -> Seq<Person>
    decreases pubkeys.len(),
{
    if pubkeys.len() == 0 {
        Seq::empty()
    } else if known.contains(pubkeys.last()) || pubkeys.drop_last().contains(pubkeys.last()) {
        missing_records(pubkeys.drop_last(), known)
    } else {
        missing_records(pubkeys.drop_last(), known).push(Person::unknown(pubkeys.last()))
    }
}

/// Whether a record is followed after the keys of a list are followed:
/// those of the list, together with those followed before where the list
/// is merged into what is there.
pub open spec fn followed_after(person: Person, pubkeys: Seq<PublicKey>, merge: bool) -> bool {
    pubkeys.contains(person.pubkey) || (merge && person.followed)
}

/// The records that change when the keys of a list are followed, as they
/// are afterwards, in the order of the list of records.
pub open spec fn follow_changes(people: Seq<Person>, pubkeys: Seq<PublicKey>, merge: bool) -> Seq<
    Person,
>
    decreases people.len(),
{
    if people.len() == 0 {
        Seq::empty()
    } else if followed_after(people.last(), pubkeys, merge) != people.last().followed {
        follow_changes(people.drop_last(), pubkeys, merge).push(
            Person { followed: !people.last().followed, ..people.last() },
        )
    } else {
        follow_changes(people.drop_last(), pubkeys, merge)
    }
}

/// The entries of the contact list for a list of followed authors.
pub open spec fn contact_tags(follows: Seq<Follow>) -> Seq<ContactTag> {
    Seq::new(
        follows.len(),
        |i: int|
            ContactTag {
                pubkey: follows[i].pubkey,
                recommended_relay_url: if follows[i].best_relays@.len() > 0 {
                    Some(follows[i].best_relays@[0].0)
                } else {
                    None
                },
                petname: None,
            },
    )
}

/// The content of a new contact list: that of the one published last,
/// or nothing where there is none.
pub open spec fn kept_content(previous: Option<String>) -> Seq<char> {
    match previous {
        Some(content) => content@,
        None => Seq::empty(),
    }
}

/// Whether a list of keys holds a key.
pub fn holds_key(keys: &Vec<PublicKey>, key: &PublicKey) -> (r: bool)
    ensures
        r == keys@.contains(*key),
{
    let mut i: usize = 0;
    while i < keys.len()
        invariant
            i <= keys.len(),
            forall|j: int| 0 <= j < i ==> keys@[j] != *key,
        decreases keys.len() - i,
    {
        if keys[i] == *key {
            return true;
        }
        i += 1;
    }
    false
}

impl People {
    /// The keys of the followed among the stored records.
    pub fn get_followed_pubkeys(people: &Vec<Person>) -> (r: Vec<PublicKey>)
        ensures
            r@ == followed_keys(people@),
    {
        let mut out: Vec<PublicKey> = Vec::new();
        let mut i: usize = 0;
        while i < people.len()
            invariant
                i <= people.len(),
                out@ == followed_keys(people@.subrange(0, i as int)),
            decreases people.len() - i,
        {
            proof {
                let next = people@.subrange(0, i as int + 1);
                assert(next.drop_last() =~= people@.subrange(0, i as int));
                assert(next.last() == people@[i as int]);
            }
            if people[i].followed {
                out.push(people[i].pubkey);
            }
            i += 1;
        }
        assert(people@.subrange(0, people.len() as int) =~= people@);
        out
    }

    /// The keys of the followed, among those asked about, whose relay list
    /// last arrived more than eight hours before `now`.
    pub fn get_followed_pubkeys_needing_relay_lists(
        people: &Vec<Person>,
        among_these: &Vec<PublicKey>,
        now: Unixtime,
    ) -> (r: Vec<PublicKey>)
        ensures
            r@ == keys_wanting_relay_lists(people@, among_these@, now),
    {
        let limit: i64 = if now.0 < i64::MIN + METADATA_FRESH_SECS {
            i64::MIN
        } else {
            now.0 - METADATA_FRESH_SECS
        };
        let mut out: Vec<PublicKey> = Vec::new();
        let mut i: usize = 0;
        while i < people.len()
            invariant
                i <= people.len(),
                limit == stale_before(now),
                out@ == keys_wanting_relay_lists(
                    people@.subrange(0, i as int),
                    among_these@,
                    now,
                ),
            decreases people.len() - i,
        {
            proof {
                let next = people@.subrange(0, i as int + 1);
                assert(next.drop_last() =~= people@.subrange(0, i as int));
                assert(next.last() == people@[i as int]);
            }
            let p = &people[i];
            if p.followed && p.relay_list_last_received < limit && holds_key(
                among_these,
                &p.pubkey,
            ) {
                out.push(p.pubkey);
            }
            i += 1;
        }
        assert(people@.subrange(0, people.len() as int) =~= people@);
        out
    }

    /// The record to work on for an identity: the stored one, or a new one
    /// of which nothing is known yet.
    pub fn create_if_missing(stored: Option<Person>, pubkey: PublicKey) -> (r: Person)
        ensures
            r == held_record(stored, pubkey),
    {
        match stored {
            Some(person) => person,
            None => Person::new(pubkey),
        }
    }

    /// The records to create so that every key of a list has one, where
    /// `known` holds the keys that have one already.
    pub fn create_all_if_missing(pubkeys: &Vec<PublicKey>, known: &Vec<PublicKey>) -> (r: Vec<
        Person,
    >)
        ensures
            r@ == missing_records(pubkeys@, known@),
    {
        let mut out: Vec<Person> = Vec::new();
        let mut seen: Vec<PublicKey> = Vec::new();
        let mut i: usize = 0;
        while i < pubkeys.len()
            invariant
                i <= pubkeys.len(),
                seen@ == pubkeys@.subrange(0, i as int),
                out@ == missing_records(pubkeys@.subrange(0, i as int), known@),
            decreases pubkeys.len() - i,
        {
            proof {
                let next = pubkeys@.subrange(0, i as int + 1);
                assert(next.drop_last() =~= pubkeys@.subrange(0, i as int));
                assert(next.last() == pubkeys@[i as int]);
            }
            let key = pubkeys[i];
            if !holds_key(known, &key) && !holds_key(&seen, &key) {
                out.push(Person::new(key));
            }
            seen.push(key);
            assert(seen@ =~= pubkeys@.subrange(0, i as int + 1));
            i += 1;
        }
        assert(pubkeys@.subrange(0, pubkeys.len() as int) =~= pubkeys@);
        out
    }

    /// Follows an author or stops following: the record to store, where
    /// one is stored.
    pub fn follow(stored: Option<Person>, follow: bool) -> (r: Option<Person>)
        ensures
            r == match stored {
                Some(person) => Some(Person { followed: follow, ..person }),
                None => None,
            },
    {
        match stored {
            Some(person) => {
                let mut person = person;
                person.followed = follow;
                Some(person)
            },
            None => None,
        }
    }

    /// Follows the authors of a list, beside those followed already where
    /// `merge` is set, else in their place. The result holds the records
    /// that change, as they are to be stored.
    pub fn follow_all(people: &Vec<Person>, pubkeys: &Vec<PublicKey>, merge: bool) -> (r: Vec<
        Person,
    >)
        ensures
            r@ == follow_changes(people@, pubkeys@, merge),
    {
        let mut out: Vec<Person> = Vec::new();
        let mut i: usize = 0;
        while i < people.len()
            invariant
                i <= people.len(),
                out@ == follow_changes(people@.subrange(0, i as int), pubkeys@, merge),
            decreases people.len() - i,
        {
            proof {
                let next = people@.subrange(0, i as int + 1);
                assert(next.drop_last() =~= people@.subrange(0, i as int));
                assert(next.last() == people@[i as int]);
            }
            let orig = people[i].followed;
            let now_followed = holds_key(pubkeys, &people[i].pubkey) || (merge && orig);
            if now_followed != orig {
                let mut person = people[i].duplicate();
                person.followed = now_followed;
                out.push(person);
            }
            i += 1;
        }
        assert(people@.subrange(0, people.len() as int) =~= people@);
        out
    }

    /// Stops following everyone: every record, not followed, as it is to be
    /// stored.
    pub fn follow_none(people: &Vec<Person>) -> (r: Vec<Person>)
        ensures
            r@.len() == people@.len(),
            forall|i: int|
                0 <= i < people@.len() ==> #[trigger] r@[i] == (Person {
                    followed: false,
                    ..people@[i]
                }),
    {
        let mut out: Vec<Person> = Vec::new();
        let mut i: usize = 0;
        while i < people.len()
            invariant
                i <= people.len(),
                out@.len() == i,
                forall|j: int|
                    0 <= j < i ==> #[trigger] out@[j] == (Person {
                        followed: false,
                        ..people@[j]
                    }),
            decreases people.len() - i,
        {
            let mut person = people[i].duplicate();
            person.followed = false;
            out.push(person);
            i += 1;
        }
        out
    }

    /// Mutes an author or lifts the mute: the record to store, where one is
    /// stored.
    pub fn mute(stored: Option<Person>, mute: bool) -> (r: Option<Person>)
        ensures
            r == match stored {
                Some(person) => Some(Person { muted: mute, ..person }),
                None => None,
            },
    {
        match stored {
            Some(person) => {
                let mut person = person;
                person.muted = mute;
                Some(person)
            },
            None => None,
        }
    }

    /// Takes down that a relay list of an identity arrived at `now`, which
    /// its author dates `created_at`. The date held only advances. The
    /// result holds the record to store, and `false`.
    pub fn update_relay_list_stamps(
        stored: Option<Person>,
        pubkey: PublicKey,
        created_at: i64,
        now: Unixtime,
    ) -> (r: (Person, bool))
        ensures
            r.0 == (Person {
                relay_list_last_received: now.0,
                relay_list_created_at: match held_record(stored, pubkey).relay_list_created_at {
                    Some(held) => if created_at < held {
                        Some(held)
                    } else {
                        Some(created_at)
                    },
                    None => Some(created_at),
                },
                ..held_record(stored, pubkey)
            }),
            !r.1,
    {
        let mut person = match stored {
            Some(person) => person,
            None => Person::new(pubkey),
        };
        person.relay_list_last_received = now.0;
        if let Some(old_at) = person.relay_list_created_at {
            if created_at >= old_at {
                person.relay_list_created_at = Some(created_at);
            }
        } else {
            person.relay_list_created_at = Some(created_at);
        }
        (person, false)
    }

    /// Takes down that the DNS identity of an author is being checked at
    /// `now`: the record to store, where one is stored. A time before 1970
    /// counts as 1970.
    pub fn update_nip05_last_checked(stored: Option<Person>, now: Unixtime) -> (r: Option<Person>)
        ensures
            r == match stored {
                Some(person) => Some(
                    Person {
                        nip05_last_checked: Some(
                            if now.0 < 0 {
                                0u64
                            } else {
                                now.0 as u64
                            },
                        ),
                        ..person
                    },
                ),
                None => None,
            },
    {
        match stored {
            Some(person) => {
                let mut person = person;
                let checked: u64 = if now.0 < 0 {
                    0
                } else {
                    now.0 as u64
                };
                person.nip05_last_checked = Some(checked);
                Some(person)
            },
            None => None,
        }
    }

    /// Takes down what a check of an author's DNS identity found: the
    /// record to store, where one is stored. The identity goes into the
    /// metadata, which says nothing else where the record held none.
    pub fn upsert_nip05_validity(
        stored: Option<Person>,
        nip05: Option<String>,
        nip05_valid: bool,
        nip05_last_checked: u64,
    ) -> (r: Option<Person>)
        ensures
            r is Some <==> stored is Some,
            r matches Some(after) ==> {
                &&& after.nip05_valid == nip05_valid
                &&& after.nip05_last_checked == Some(nip05_last_checked)
                &&& after.spec_nip05() == text_of(nip05)
                &&& after.metadata is Some
                &&& stored->0.metadata matches Some(md) ==> after.metadata->0 == (Metadata {
                    nip05,
                    ..md
                })
                &&& stored->0.metadata is None ==> after.spec_name() is None
                    && after.spec_about() is None && after.spec_picture() is None
                    && after.metadata->0.spec_shown_name() is None
                &&& after == (Person {
                    metadata: after.metadata,
                    nip05_valid,
                    nip05_last_checked: Some(nip05_last_checked),
                    ..stored->0
                })
            },
    {
        match stored {
            Some(person) => {
                let mut person = person;
                let metadata = match person.metadata {
                    Some(md) => {
                        let mut md = md;
                        md.nip05 = nip05;
                        md
                    },
                    None => {
                        let mut md = Metadata::new();
                        md.nip05 = nip05;
                        md
                    },
                };
                person.metadata = Some(metadata);
                person.nip05_valid = nip05_valid;
                person.nip05_last_checked = Some(nip05_last_checked);
                Some(person)
            },
            None => None,
        }
    }

    /// Makes the contact list of the local user, ready to be signed: one
    /// entry for each followed author, with the relay that the author is
    /// best read from, and the content of the contact list that was
    /// published last, which is kept as it is.
    pub fn generate_contact_list_event(
        public_key: Option<PublicKey>,
        follows: &Vec<Follow>,
        previous_content: Option<String>,
        now: Unixtime,
    ) -> (r: Result<PreEvent, PeopleError>)
        ensures
            public_key is None <==> r is Err,
            r matches Err(e) ==> e == PeopleError::NoPrivateKey,
            r matches Ok(event) ==> {
                &&& Some(event.pubkey) == public_key
                &&& event.created_at == now
                &&& event.kind == EventKind::ContactList
                &&& event.tags@ == contact_tags(follows@)
                &&& event.content@ == kept_content(previous_content)
            },
    {
        let mut p_tags: Vec<ContactTag> = Vec::new();
        let mut i: usize = 0;
        while i < follows.len()
            invariant
                i <= follows.len(),
                p_tags@ == contact_tags(follows@.subrange(0, i as int)),
            decreases follows.len() - i,
        {
            let follow = &follows[i];
            let url = if follow.best_relays.len() > 0 {
                Some(follow.best_relays[0].0.clone())
            } else {
                None
            };
            p_tags.push(
                ContactTag { pubkey: follow.pubkey, recommended_relay_url: url, petname: None },
            );
            assert(p_tags@ =~= contact_tags(follows@.subrange(0, i as int + 1)));
            i += 1;
        }
        assert(follows@.subrange(0, follows.len() as int) =~= follows@);
        let public_key = match public_key {
            Some(pk) => pk,
            None => {
                return Err(PeopleError::NoPrivateKey);
            },
        };
        let content = match previous_content {
            Some(c) => c,
            None => String::new(),
        };
        Ok(
            PreEvent {
                pubkey: public_key,
                created_at: now,
                kind: EventKind::ContactList,
                tags: p_tags,
                content,
            },
        )
    }

    /// Finds the people to offer for a tag among the stored records: the
    /// best ten at most, the best first.
    pub fn search_people_to_tag(&self, text: &str, people: &Vec<Person>) -> (r: Vec<
        (String, PublicKey),
    >)
        ensures
            result_views(r@) == name_and_key(best_of(matches_of(people@, query_of(text@)))),
            r@.len() <= SEARCH_RESULT_CAP,
    {
        rank_people(text, people)
    }
}

} // verus!
