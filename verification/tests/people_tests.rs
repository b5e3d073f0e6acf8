use gossip_core::filter::{EventKind, Unixtime};
use gossip_core::keys::PublicKey;
use gossip_core::people::{AvatarLookup, AvatarSource, FetchOutcome, Interest, People};
use gossip_core::person::{Metadata, Person};
use gossip_core::records::{Follow, PeopleError};

const HOUR: i64 = 3600;
const DAY: i64 = 86400;

fn key(n: u8) -> PublicKey {
    PublicKey::from_bytes([n; 32])
}

fn image(marker: u8) -> egui::ColorImage {
    egui::ColorImage::from_rgba_unmultiplied([1, 1], &[marker, 0, 0, 255])
}

fn metadata(name: &str, nip05: Option<&str>, picture: Option<&str>) -> Metadata {
    let mut md = Metadata::new();
    md.name = Some(name.to_string());
    md.nip05 = nip05.map(|s| s.to_string());
    md.picture = picture.map(|s| s.to_string());
    md
}

fn person_with_picture(n: u8, picture: Option<&str>) -> Person {
    let mut p = Person::new(key(n));
    p.metadata = Some(metadata("someone", None, picture));
    p.metadata_created_at = Some(1);
    p
}

fn is_ready(lookup: &AvatarLookup) -> bool {
    matches!(lookup, AvatarLookup::Ready(_))
}

fn is_unavailable(lookup: &AvatarLookup) -> bool {
    matches!(lookup, AvatarLookup::Unavailable)
}

fn is_consult(lookup: &AvatarLookup) -> bool {
    matches!(lookup, AvatarLookup::Consult)
}

#[test]
fn interest_is_ignored_when_fetching_is_off() {
    let mut people = People::new();
    let p = Person::new(key(1));
    let r = people.person_of_interest(key(1), false, Some(&p), Unixtime(1_700_000_000));
    assert_eq!(r, Interest::Ignored);
    assert_eq!(people.maybe_fetch_metadata(), vec![]);
}

#[test]
fn interest_in_unknown_person_asks_for_a_record() {
    let mut people = People::new();
    let r = people.person_of_interest(key(1), true, None, Unixtime(1_700_000_000));
    assert_eq!(r, Interest::CreateRecord);
    assert_eq!(people.maybe_fetch_metadata(), vec![]);
}

#[test]
fn interest_registers_a_person_without_metadata() {
    let mut people = People::new();
    let p = Person::new(key(1));
    let r = people.person_of_interest(key(1), true, Some(&p), Unixtime(1_700_000_000));
    assert_eq!(r, Interest::Registered);
    assert_eq!(people.maybe_fetch_metadata(), vec![key(1)]);
}

#[test]
fn metadata_is_fresh_for_eight_hours() {
    let now = 1_700_000_000;
    let mut p = Person::new(key(1));
    p.metadata_created_at = Some(5);
    p.metadata_last_received = now - 8 * HOUR;
    let mut people = People::new();
    assert_eq!(people.person_of_interest(key(1), true, Some(&p), Unixtime(now)), Interest::Ignored);
    p.metadata_last_received = now - 8 * HOUR - 1;
    assert_eq!(
        people.person_of_interest(key(1), true, Some(&p), Unixtime(now)),
        Interest::Registered
    );
}

#[test]
fn freshness_near_the_earliest_time() {
    let mut p = Person::new(key(1));
    p.metadata_created_at = Some(5);
    p.metadata_last_received = i64::MIN;
    let mut people = People::new();
    assert_eq!(
        people.person_of_interest(key(1), true, Some(&p), Unixtime(i64::MIN + 5)),
        Interest::Ignored
    );
}

#[test]
fn periodic_pass_asks_once_per_run() {
    let now = Unixtime(1_700_000_000);
    let mut people = People::new();
    let a = Person::new(key(1));
    let b = Person::new(key(2));
    people.person_of_interest(key(1), true, Some(&a), now);
    people.person_of_interest(key(2), true, Some(&b), now);
    people.person_of_interest(key(1), true, Some(&a), now);
    let mut first = people.maybe_fetch_metadata();
    first.sort_by_key(|k| k.bytes);
    assert_eq!(first, vec![key(1), key(2)]);
    assert_eq!(people.maybe_fetch_metadata(), vec![]);
    assert_eq!(people.person_of_interest(key(1), true, Some(&a), now), Interest::Ignored);
    assert_eq!(people.person_of_interest(key(2), true, Some(&b), now), Interest::Ignored);
    assert_eq!(people.maybe_fetch_metadata(), vec![]);
    let c = Person::new(key(3));
    assert_eq!(people.person_of_interest(key(3), true, Some(&c), now), Interest::Registered);
    assert_eq!(people.maybe_fetch_metadata(), vec![key(3)]);
}

#[test]
fn arrival_of_metadata_takes_the_person_off_the_list() {
    let now = Unixtime(1_700_000_000);
    let mut people = People::new();
    let a = Person::new(key(1));
    people.person_of_interest(key(1), true, Some(&a), now);
    people.update_metadata(Some(a), &key(1), metadata("a", None, None), Unixtime(10), now);
    assert_eq!(people.maybe_fetch_metadata(), vec![]);
}

#[test]
fn first_metadata_is_taken() {
    let mut people = People::new();
    let update = people.update_metadata(
        None,
        &key(1),
        metadata("first", None, None),
        Unixtime(100),
        Unixtime(1000),
    );
    assert!(update.accepted);
    assert!(!update.recheck_nip05);
    assert_eq!(update.person.pubkey, key(1));
    assert_eq!(update.person.name(), Some("first"));
    assert_eq!(update.person.metadata_created_at, Some(100));
    assert_eq!(update.person.metadata_last_received, 1000);
}

#[test]
fn last_writer_wins_by_asserted_time() {
    let mut people = People::new();
    let first = people.update_metadata(
        None,
        &key(1),
        metadata("t1", None, None),
        Unixtime(200),
        Unixtime(1000),
    );
    let second = people.update_metadata(
        Some(first.person),
        &key(1),
        metadata("t0", None, None),
        Unixtime(100),
        Unixtime(2000),
    );
    assert!(!second.accepted);
    assert_eq!(second.person.name(), Some("t1"));
    assert_eq!(second.person.metadata_created_at, Some(200));
    assert_eq!(second.person.metadata_last_received, 2000);
}

#[test]
fn metadata_of_the_same_date_is_not_taken() {
    let mut people = People::new();
    let first = people.update_metadata(
        None,
        &key(1),
        metadata("a", None, None),
        Unixtime(200),
        Unixtime(1000),
    );
    let second = people.update_metadata(
        Some(first.person),
        &key(1),
        metadata("b", None, None),
        Unixtime(200),
        Unixtime(1001),
    );
    assert!(!second.accepted);
    assert_eq!(second.person.name(), Some("a"));
    let third = people.update_metadata(
        Some(second.person),
        &key(1),
        metadata("c", None, None),
        Unixtime(201),
        Unixtime(1002),
    );
    assert!(third.accepted);
    assert_eq!(third.person.name(), Some("c"));
    assert_eq!(third.person.metadata_created_at, Some(201));
}

#[test]
fn changed_nip05_resets_validity() {
    let mut people = People::new();
    let mut p = Person::new(key(1));
    p.metadata = Some(metadata("a", Some("a@old.example"), None));
    p.metadata_created_at = Some(100);
    p.nip05_valid = true;
    p.nip05_last_checked = Some(900);
    p.followed = true;
    p.muted = true;
    let update = people.update_metadata(
        Some(p),
        &key(1),
        metadata("a", Some("a@new.example"), None),
        Unixtime(200),
        Unixtime(1000),
    );
    assert!(update.accepted);
    assert!(!update.person.nip05_valid);
    assert_eq!(update.person.nip05_last_checked, None);
    assert_eq!(update.person.nip05(), Some("a@new.example"));
    assert!(update.recheck_nip05);
    assert!(update.person.followed);
    assert!(update.person.muted);
}

#[test]
fn unchanged_nip05_keeps_validity() {
    let mut people = People::new();
    let mut p = Person::new(key(1));
    p.metadata = Some(metadata("a", Some("a@x.example"), None));
    p.metadata_created_at = Some(100);
    p.nip05_valid = true;
    p.nip05_last_checked = Some(900);
    let update = people.update_metadata(
        Some(p),
        &key(1),
        metadata("b", Some("a@x.example"), None),
        Unixtime(200),
        Unixtime(1000),
    );
    assert!(update.accepted);
    assert!(update.person.nip05_valid);
    assert_eq!(update.person.nip05_last_checked, Some(900));
    assert!(!update.recheck_nip05);
}

#[test]
fn stale_metadata_with_other_nip05_changes_nothing() {
    let mut people = People::new();
    let mut p = Person::new(key(1));
    p.metadata = Some(metadata("a", Some("a@x.example"), None));
    p.metadata_created_at = Some(300);
    p.nip05_valid = true;
    p.nip05_last_checked = Some(900);
    let update = people.update_metadata(
        Some(p),
        &key(1),
        metadata("b", Some("b@y.example"), None),
        Unixtime(200),
        Unixtime(1000),
    );
    assert!(!update.accepted);
    assert!(update.person.nip05_valid);
    assert_eq!(update.person.nip05(), Some("a@x.example"));
}

#[test]
fn first_nip05_counts_as_changed() {
    let mut people = People::new();
    let mut p = Person::new(key(1));
    p.nip05_valid = true;
    p.nip05_last_checked = Some(5);
    let update = people.update_metadata(
        Some(p),
        &key(1),
        metadata("a", Some("a@x.example"), None),
        Unixtime(200),
        Unixtime(1000),
    );
    assert!(!update.person.nip05_valid);
    assert_eq!(update.person.nip05_last_checked, None);
    assert!(update.recheck_nip05);
}

fn checked_person(valid: bool, last_checked: u64) -> Person {
    let mut p = Person::new(key(1));
    p.metadata = Some(metadata("a", Some("a@x.example"), None));
    p.metadata_created_at = Some(500);
    p.nip05_valid = valid;
    p.nip05_last_checked = Some(last_checked);
    p
}

#[test]
fn valid_nip05_is_rechecked_after_fourteen_days() {
    let mut people = People::new();
    let last = 1_000_000u64;
    let due = last as i64 + 14 * DAY;
    let update = people.update_metadata(
        Some(checked_person(true, last)),
        &key(1),
        metadata("a", Some("a@x.example"), None),
        Unixtime(100),
        Unixtime(due),
    );
    assert!(!update.recheck_nip05);
    let update = people.update_metadata(
        Some(checked_person(true, last)),
        &key(1),
        metadata("a", Some("a@x.example"), None),
        Unixtime(100),
        Unixtime(due + 1),
    );
    assert!(update.recheck_nip05);
}

#[test]
fn invalid_nip05_is_rechecked_after_one_day() {
    let mut people = People::new();
    let last = 1_000_000u64;
    let due = last as i64 + DAY;
    let update = people.update_metadata(
        Some(checked_person(false, last)),
        &key(1),
        metadata("a", Some("a@x.example"), None),
        Unixtime(100),
        Unixtime(due),
    );
    assert!(!update.recheck_nip05);
    let update = people.update_metadata(
        Some(checked_person(false, last)),
        &key(1),
        metadata("a", Some("a@x.example"), None),
        Unixtime(100),
        Unixtime(due + 1),
    );
    assert!(update.recheck_nip05);
}

#[test]
fn requested_recheck_happens_once() {
    let mut people = People::new();
    let last = 1_000_000u64;
    let now = Unixtime(last as i64 + 10);
    people.recheck_nip05_on_update_metadata(&key(1));
    let update = people.update_metadata(
        Some(checked_person(true, last)),
        &key(1),
        metadata("a", Some("a@x.example"), None),
        Unixtime(100),
        now,
    );
    assert!(update.recheck_nip05);
    let update = people.update_metadata(
        Some(checked_person(true, last)),
        &key(1),
        metadata("a", Some("a@x.example"), None),
        Unixtime(100),
        now,
    );
    assert!(!update.recheck_nip05);
}

#[test]
fn no_recheck_without_a_nip05() {
    let mut people = People::new();
    people.recheck_nip05_on_update_metadata(&key(1));
    let update = people.update_metadata(
        None,
        &key(1),
        metadata("a", None, None),
        Unixtime(100),
        Unixtime(1000),
    );
    assert!(!update.recheck_nip05);
    let update = people.update_metadata(
        Some(update.person),
        &key(1),
        metadata("a", Some("a@x.example"), None),
        Unixtime(200),
        Unixtime(1000),
    );
    assert!(update.recheck_nip05);
}

#[test]
fn avatar_of_unknown_person_is_not_there_yet() {
    let mut people = People::new();
    assert!(is_consult(&people.get_avatar(&key(1), true)));
    assert_eq!(people.avatar_source(&key(1), None), AvatarSource::Unavailable);
    assert!(is_consult(&people.get_avatar(&key(1), true)));
}

#[test]
fn avatars_are_not_loaded_when_switched_off() {
    let mut people = People::new();
    assert!(is_unavailable(&people.get_avatar(&key(1), false)));
    assert!(is_consult(&people.get_avatar(&key(1), true)));
}

#[test]
fn missing_picture_fails_for_good() {
    let mut people = People::new();
    let p = person_with_picture(1, None);
    assert!(is_consult(&people.get_avatar(&key(1), true)));
    assert_eq!(people.avatar_source(&key(1), Some(&p)), AvatarSource::Unavailable);
    assert!(is_unavailable(&people.get_avatar(&key(1), true)));
    assert!(!people.avatar_fetched(&key(1), FetchOutcome::Bytes));
    assert!(is_unavailable(&people.get_avatar(&key(1), true)));
}

#[test]
fn bad_picture_address_fails_for_good() {
    let mut people = People::new();
    for (n, picture) in
        [(1u8, "not a url"), (2, "http://localhost/a.png"), (3, "http://127.0.0.1/a.png"), (4, "")]
    {
        let p = person_with_picture(n, Some(picture));
        assert_eq!(people.avatar_source(&key(n), Some(&p)), AvatarSource::Unavailable);
        assert!(is_unavailable(&people.get_avatar(&key(n), true)));
    }
}

#[test]
fn good_picture_address_is_to_be_fetched() {
    let mut people = People::new();
    let p = person_with_picture(1, Some("  HTTPS://Example.com/avatar.png "));
    assert_eq!(
        people.avatar_source(&key(1), Some(&p)),
        AvatarSource::Fetch("https://example.com/avatar.png".to_string())
    );
    assert!(is_consult(&people.get_avatar(&key(1), true)));
}

#[test]
fn bytes_not_there_yet_leave_the_avatar_open() {
    let mut people = People::new();
    assert!(!people.avatar_fetched(&key(1), FetchOutcome::Missing));
    assert!(is_consult(&people.get_avatar(&key(1), true)));
}

#[test]
fn failed_fetch_fails_for_good() {
    let mut people = People::new();
    assert!(!people.avatar_fetched(&key(1), FetchOutcome::Failed));
    assert!(is_unavailable(&people.get_avatar(&key(1), true)));
}

#[test]
fn avatar_is_handed_over_exactly_once() {
    let mut people = People::new();
    assert!(people.avatar_fetched(&key(1), FetchOutcome::Bytes));
    assert!(is_unavailable(&people.get_avatar(&key(1), true)));
    assert!(!people.avatar_fetched(&key(1), FetchOutcome::Bytes));
    people.avatar_processed(&key(1), Some(image(42)));
    match people.get_avatar(&key(1), false) {
        AvatarLookup::Ready(got) => assert!(got == image(42)),
        _ => panic!("the image was not handed over"),
    }
    assert!(!is_ready(&people.get_avatar(&key(1), true)));
    assert!(!is_ready(&people.get_avatar(&key(1), true)));
}

#[test]
fn avatars_are_kept_by_identity() {
    let mut people = People::new();
    assert!(people.avatar_fetched(&key(1), FetchOutcome::Bytes));
    assert!(people.avatar_fetched(&key(2), FetchOutcome::Bytes));
    people.avatar_processed(&key(1), Some(image(1)));
    people.avatar_processed(&key(2), Some(image(2)));
    match people.get_avatar(&key(2), true) {
        AvatarLookup::Ready(got) => assert!(got == image(2)),
        _ => panic!("the image was not handed over"),
    }
    match people.get_avatar(&key(1), true) {
        AvatarLookup::Ready(got) => assert!(got == image(1)),
        _ => panic!("the image was not handed over"),
    }
}

#[test]
fn image_for_an_identity_that_is_not_pending_is_dropped() {
    let mut people = People::new();
    people.avatar_processed(&key(1), Some(image(1)));
    assert!(is_consult(&people.get_avatar(&key(1), true)));
    people.avatar_processed(&key(1), None);
    assert!(is_consult(&people.get_avatar(&key(1), true)));
}

#[test]
fn undecodable_picture_fails_until_new_metadata_is_taken() {
    let mut people = People::new();
    let p = person_with_picture(1, Some("https://example.com/a.png"));
    assert!(people.avatar_fetched(&key(1), FetchOutcome::Bytes));
    people.avatar_processed(&key(1), None);
    assert!(is_unavailable(&people.get_avatar(&key(1), true)));
    let stale = people.update_metadata(
        Some(p),
        &key(1),
        metadata("old", None, None),
        Unixtime(0),
        Unixtime(1000),
    );
    assert!(!stale.accepted);
    assert!(is_unavailable(&people.get_avatar(&key(1), true)));
    let fresh = people.update_metadata(
        Some(stale.person),
        &key(1),
        metadata("new", None, Some("https://example.com/b.png")),
        Unixtime(2),
        Unixtime(1000),
    );
    assert!(fresh.accepted);
    assert!(is_consult(&people.get_avatar(&key(1), true)));
}

#[test]
fn start_takes_down_the_newer_contact_list() {
    let mut people = People::new();
    assert_eq!(people.last_contact_list_asof(), 0);
    assert_eq!(people.last_contact_list_size(), 0);
    people.start(100, 7);
    assert_eq!(people.last_contact_list_asof(), 100);
    assert_eq!(people.last_contact_list_size(), 7);
    people.start(100, 9);
    people.start(50, 3);
    assert_eq!(people.last_contact_list_asof(), 100);
    assert_eq!(people.last_contact_list_size(), 7);
}

#[test]
fn active_person_and_relays() {
    let mut people = People::new();
    assert_eq!(people.get_active_person(), None);
    assert_eq!(people.get_active_person_write_relays(), vec![]);
    let relays = vec![("wss://a.example/".to_string(), 20u64), ("wss://b.example/".to_string(), 5)];
    people.set_active_person(key(3), relays.clone());
    assert_eq!(people.get_active_person(), Some(key(3)));
    assert_eq!(people.get_active_person_write_relays(), relays);
}

fn followed(n: u8, is_followed: bool, relay_list_last_received: i64) -> Person {
    let mut p = Person::new(key(n));
    p.followed = is_followed;
    p.relay_list_last_received = relay_list_last_received;
    p
}

#[test]
fn followed_pubkeys() {
    let people = vec![followed(1, true, 0), followed(2, false, 0), followed(3, true, 0)];
    assert_eq!(People::get_followed_pubkeys(&people), vec![key(1), key(3)]);
    assert_eq!(People::get_followed_pubkeys(&vec![]), vec![]);
}

#[test]
fn followed_pubkeys_needing_relay_lists() {
    let now = 1_700_000_000;
    let people = vec![
        followed(1, true, now - 8 * HOUR - 1),
        followed(2, true, now - 8 * HOUR),
        followed(3, false, 0),
        followed(4, true, 0),
        followed(5, true, 0),
    ];
    let among = vec![key(5), key(3), key(2), key(1)];
    assert_eq!(
        People::get_followed_pubkeys_needing_relay_lists(&people, &among, Unixtime(now)),
        vec![key(1), key(5)]
    );
}

#[test]
fn create_if_missing_keeps_a_stored_record() {
    let mut stored = Person::new(key(1));
    stored.followed = true;
    let kept = People::create_if_missing(Some(stored), key(1));
    assert!(kept.followed);
    let made = People::create_if_missing(None, key(2));
    assert_eq!(format!("{:?}", made), format!("{:?}", Person::new(key(2))));
}

#[test]
fn create_all_if_missing_makes_one_record_per_unknown_key() {
    let made =
        People::create_all_if_missing(&vec![key(1), key(2), key(1), key(3), key(2)], &vec![key(3)]);
    let keys: Vec<PublicKey> = made.iter().map(|p| p.pubkey).collect();
    assert_eq!(keys, vec![key(1), key(2)]);
    assert_eq!(format!("{:?}", made[0]), format!("{:?}", Person::new(key(1))));
}

#[test]
fn follow_and_mute() {
    let p = Person::new(key(1));
    let p = People::follow(Some(p), true).unwrap();
    assert!(p.followed && !p.muted);
    let p = People::mute(Some(p), true).unwrap();
    assert!(p.followed && p.muted);
    let p = People::follow(Some(p), false).unwrap();
    assert!(!p.followed && p.muted);
    let p = People::mute(Some(p), false).unwrap();
    assert!(!p.followed && !p.muted);
    assert!(People::follow(None, true).is_none());
    assert!(People::mute(None, true).is_none());
}

#[test]
fn follow_all_merging() {
    let people = vec![followed(1, true, 0), followed(2, false, 0), followed(3, false, 0)];
    let changed = People::follow_all(&people, &vec![key(3), key(1), key(9)], true);
    assert_eq!(changed.len(), 1);
    assert_eq!(changed[0].pubkey, key(3));
    assert!(changed[0].followed);
}

#[test]
fn follow_all_replacing() {
    let people = vec![
        followed(1, true, 0),
        followed(2, false, 0),
        followed(3, false, 0),
        followed(4, true, 0),
    ];
    let changed = People::follow_all(&people, &vec![key(3), key(1)], false);
    assert_eq!(changed.len(), 2);
    assert_eq!(changed[0].pubkey, key(3));
    assert!(changed[0].followed);
    assert_eq!(changed[1].pubkey, key(4));
    assert!(!changed[1].followed);
}

#[test]
fn follow_none_writes_everyone() {
    let people = vec![followed(1, true, 5), followed(2, false, 6)];
    let out = People::follow_none(&people);
    assert_eq!(out.len(), 2);
    assert!(!out[0].followed && !out[1].followed);
    assert_eq!(out[0].pubkey, key(1));
    assert_eq!(out[1].relay_list_last_received, 6);
}

#[test]
fn relay_list_stamps_only_advance() {
    let (p, newer) = People::update_relay_list_stamps(None, key(1), 100, Unixtime(1000));
    assert!(!newer);
    assert_eq!(p.pubkey, key(1));
    assert_eq!(p.relay_list_created_at, Some(100));
    assert_eq!(p.relay_list_last_received, 1000);
    let (p, newer) = People::update_relay_list_stamps(Some(p), key(1), 50, Unixtime(2000));
    assert!(!newer);
    assert_eq!(p.relay_list_created_at, Some(100));
    assert_eq!(p.relay_list_last_received, 2000);
    let (p, newer) = People::update_relay_list_stamps(Some(p), key(1), 150, Unixtime(3000));
    assert!(!newer);
    assert_eq!(p.relay_list_created_at, Some(150));
    assert_eq!(p.relay_list_last_received, 3000);
}

#[test]
fn nip05_last_checked() {
    let p = People::update_nip05_last_checked(Some(Person::new(key(1))), Unixtime(1234)).unwrap();
    assert_eq!(p.nip05_last_checked, Some(1234));
    let p = People::update_nip05_last_checked(Some(p), Unixtime(-5)).unwrap();
    assert_eq!(p.nip05_last_checked, Some(0));
    assert!(People::update_nip05_last_checked(None, Unixtime(1)).is_none());
}

#[test]
fn upsert_nip05_validity() {
    let p = People::upsert_nip05_validity(
        Some(Person::new(key(1))),
        Some("a@x.example".to_string()),
        true,
        77,
    )
    .unwrap();
    assert_eq!(p.nip05(), Some("a@x.example"));
    assert_eq!(p.name(), None);
    assert!(p.nip05_valid);
    assert_eq!(p.nip05_last_checked, Some(77));
    let mut q = Person::new(key(2));
    q.metadata = Some(metadata("q", Some("old@x.example"), Some("https://x.example/p.png")));
    let q = People::upsert_nip05_validity(Some(q), None, false, 78).unwrap();
    assert_eq!(q.nip05(), None);
    assert_eq!(q.name(), Some("q"));
    assert_eq!(q.picture(), Some("https://x.example/p.png"));
    assert!(!q.nip05_valid);
    assert_eq!(q.nip05_last_checked, Some(78));
    assert!(People::upsert_nip05_validity(None, None, true, 1).is_none());
}

#[test]
fn contact_list_needs_an_identity() {
    let r = People::generate_contact_list_event(None, &vec![], None, Unixtime(5));
    assert_eq!(r.err(), Some(PeopleError::NoPrivateKey));
}

#[test]
fn contact_list_event() {
    let follows = vec![
        Follow {
            pubkey: key(2),
            best_relays: vec![
                ("wss://best.example/".to_string(), 20),
                ("wss://other.example/".to_string(), 1),
            ],
        },
        Follow { pubkey: key(3), best_relays: vec![] },
    ];
    let event = People::generate_contact_list_event(
        Some(key(1)),
        &follows,
        Some("kept".to_string()),
        Unixtime(5),
    )
    .unwrap();
    assert_eq!(event.pubkey, key(1));
    assert_eq!(event.created_at, Unixtime(5));
    assert_eq!(event.kind, EventKind::ContactList);
    assert_eq!(event.content, "kept");
    assert_eq!(event.tags.len(), 2);
    assert_eq!(event.tags[0].pubkey, key(2));
    assert_eq!(event.tags[0].recommended_relay_url, Some("wss://best.example/".to_string()));
    assert_eq!(event.tags[0].petname, None);
    assert_eq!(event.tags[1].pubkey, key(3));
    assert_eq!(event.tags[1].recommended_relay_url, None);
    let event =
        People::generate_contact_list_event(Some(key(1)), &vec![], None, Unixtime(5)).unwrap();
    assert_eq!(event.content, "");
    assert!(event.tags.is_empty());
}

#[test]
fn a_ready_avatar_is_not_disturbed_by_a_late_consultation() {
    let mut people = People::new();
    assert!(people.avatar_fetched(&key(1), FetchOutcome::Bytes));
    people.avatar_processed(&key(1), Some(image(9)));
    let p = person_with_picture(1, None);
    assert_eq!(people.avatar_source(&key(1), Some(&p)), AvatarSource::Unavailable);
    assert!(!people.avatar_fetched(&key(1), FetchOutcome::Failed));
    match people.get_avatar(&key(1), true) {
        AvatarLookup::Ready(got) => assert!(got == image(9)),
        _ => panic!("the image was not handed over"),
    }
}

#[test]
fn periodic_step_ends_on_shutdown() {
    let mut people = People::new();
    let p = Person::new(key(1));
    people.person_of_interest(key(1), true, Some(&p), Unixtime(1_700_000_000));
    assert_eq!(people.periodic_step(false), (vec![key(1)], false));
    let q = Person::new(key(2));
    people.person_of_interest(key(2), true, Some(&q), Unixtime(1_700_000_000));
    assert_eq!(people.periodic_step(true), (vec![key(2)], true));
    assert_eq!(people.periodic_step(true), (vec![], true));
}
