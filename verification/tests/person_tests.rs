use gossip_core::keys::PublicKey;
use gossip_core::person::{Metadata, Person};
use std::cmp::Ordering;

fn key(n: u8) -> PublicKey {
    PublicKey::from_bytes([n; 32])
}

fn metadata_named(name: &str) -> Metadata {
    let mut md = Metadata::new();
    md.name = Some(name.to_string());
    md
}

#[test]
fn new_person_has_nothing() {
    let p = Person::new(key(1));
    assert_eq!(p.pubkey, key(1));
    assert_eq!(p.petname, None);
    assert!(!p.followed);
    assert_eq!(p.followed_last_updated, 0);
    assert!(!p.muted);
    assert!(p.metadata.is_none());
    assert_eq!(p.metadata_created_at, None);
    assert_eq!(p.metadata_last_received, 0);
    assert!(!p.nip05_valid);
    assert_eq!(p.nip05_last_checked, None);
    assert_eq!(p.relay_list_created_at, None);
    assert_eq!(p.relay_list_last_received, 0);
    assert_eq!(p.display_name(), None);
    assert_eq!(p.name(), None);
    assert_eq!(p.about(), None);
    assert_eq!(p.picture(), None);
    assert_eq!(p.nip05(), None);
}

#[test]
fn new_metadata_says_nothing() {
    let md = Metadata::new();
    assert_eq!(md.name, None);
    assert_eq!(md.about, None);
    assert_eq!(md.picture, None);
    assert_eq!(md.nip05, None);
    assert!(md.other.is_empty());
    assert_eq!(md.shown_name(), None);
}

#[test]
fn getters_read_the_metadata() {
    let mut p = Person::new(key(1));
    let mut md = Metadata::new();
    md.name = Some("jb55".to_string());
    md.about = Some("hello".to_string());
    md.picture = Some("https://example.com/a.png".to_string());
    md.nip05 = Some("jb55@jb55.com".to_string());
    p.metadata = Some(md);
    assert_eq!(p.name(), Some("jb55"));
    assert_eq!(p.about(), Some("hello"));
    assert_eq!(p.picture(), Some("https://example.com/a.png"));
    assert_eq!(p.nip05(), Some("jb55@jb55.com"));
    assert_eq!(p.display_name(), Some("jb55"));
}

#[test]
fn display_name_prefers_petname_then_display_name_field() {
    let mut p = Person::new(key(1));
    let mut md = metadata_named("jb55");
    md.other.insert(
        "display_name".to_string(),
        serde_json::Value::String("William Caserin".to_string()),
    );
    p.metadata = Some(md);
    assert_eq!(p.display_name(), Some("William Caserin"));
    assert_eq!(p.name(), Some("jb55"));
    p.petname = Some("Will".to_string());
    assert_eq!(p.display_name(), Some("Will"));
}

#[test]
fn display_name_skips_empty_or_non_string_field() {
    let mut p = Person::new(key(1));
    let mut md = metadata_named("jb55");
    md.other.insert("display_name".to_string(), serde_json::Value::String(String::new()));
    p.metadata = Some(md);
    assert_eq!(p.display_name(), Some("jb55"));
    let mut md = metadata_named("jb55");
    md.other.insert("display_name".to_string(), serde_json::Value::Bool(true));
    p.metadata = Some(md);
    assert_eq!(p.display_name(), Some("jb55"));
    let mut md = Metadata::new();
    md.other.insert("other".to_string(), serde_json::Value::String("x".to_string()));
    p.metadata = Some(md);
    assert_eq!(p.display_name(), None);
}

#[test]
fn persons_are_equal_by_key() {
    let mut a = Person::new(key(1));
    let b = Person::new(key(1));
    a.followed = true;
    a.metadata = Some(metadata_named("a"));
    assert!(a == b);
    assert!(a != Person::new(key(2)));
}

#[test]
fn duplicate_copies_every_field() {
    let mut a = Person::new(key(1));
    a.petname = Some("pet".to_string());
    a.followed = true;
    a.followed_last_updated = 3;
    a.muted = true;
    let mut md = metadata_named("n");
    md.other.insert("display_name".to_string(), serde_json::Value::String("D".to_string()));
    md.nip05 = Some("n@x.y".to_string());
    a.metadata = Some(md);
    a.metadata_created_at = Some(4);
    a.metadata_last_received = 5;
    a.nip05_valid = true;
    a.nip05_last_checked = Some(6);
    a.relay_list_created_at = Some(7);
    a.relay_list_last_received = 8;
    let b = a.duplicate();
    assert_eq!(format!("{:?}", a), format!("{:?}", b));
}

#[test]
fn persons_are_ordered_by_lowercase_display_name() {
    let mut a = Person::new(key(9));
    a.metadata = Some(metadata_named("alice"));
    let mut b = Person::new(key(1));
    b.metadata = Some(metadata_named("Bob"));
    assert_eq!(a.compare(&b), Ordering::Less);
    assert_eq!(b.compare(&a), Ordering::Greater);
    assert_eq!(a.partial_cmp(&b), Some(Ordering::Less));
    assert!(a < b);
    let mut c = Person::new(key(5));
    c.petname = Some("ALICE".to_string());
    assert_eq!(a.compare(&c), Ordering::Equal);
    let mut d = Person::new(key(5));
    d.petname = Some("alic".to_string());
    assert_eq!(d.compare(&a), Ordering::Less);
}

#[test]
fn persons_without_a_name_are_ordered_by_key() {
    let mut named = Person::new(key(1));
    named.metadata = Some(metadata_named("zed"));
    let unnamed = Person::new(key(2));
    assert_eq!(named.compare(&unnamed), Ordering::Less);
    assert_eq!(unnamed.compare(&named), Ordering::Greater);
    assert_eq!(unnamed.compare(&Person::new(key(2))), Ordering::Equal);
    let mut low = [7u8; 32];
    low[31] = 6;
    assert_eq!(Person::new(PublicKey::from_bytes(low)).compare(&Person::new(key(7))), Ordering::Less);
    let mut high = [7u8; 32];
    high[0] = 8;
    low[0] = 7;
    assert_eq!(
        Person::new(PublicKey::from_bytes(high)).compare(&Person::new(PublicKey::from_bytes(low))),
        Ordering::Greater
    );
}
