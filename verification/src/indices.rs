use vstd::prelude::*;
use dashmap::{DashMap, DashSet};
use egui::ColorImage;
use std::hash::RandomState;

verus! {

/// `dashmap::DashSet`, a set that is safe to share between threads.
#[verifier::external_type_specification]
#[verifier::external_body]
#[verifier::reject_recursive_types(K)]
#[verifier::reject_recursive_types(S)]
pub struct ExDashSet<K, S>(dashmap::DashSet<K, S>);

/// `dashmap::DashMap`, a map that is safe to share between threads.
#[verifier::external_type_specification]
#[verifier::external_body]
#[verifier::reject_recursive_types(K)]
#[verifier::reject_recursive_types(V)]
#[verifier::reject_recursive_types(S)]
pub struct ExDashMap<K, V, S>(dashmap::DashMap<K, V, S>);

/// `egui::ColorImage`, an image as it is handed to the display. The cache
/// keeps such images and hands them over; it never looks into one.
#[verifier::external_type_specification]
#[verifier::external_body]
pub struct ExColorImage(egui::ColorImage);

/// The keys that a set of identities holds.
pub uninterp spec fn key_set(keys: DashSet<[u8; 32], RandomState>) -> Set<[u8; 32]>;

/// The images that wait to be handed over, by identity.
pub uninterp spec fn avatar_slots(slots: DashMap<[u8; 32], ColorImage, RandomState>) -> Map<
    [u8; 32],
    ColorImage,
>;

/// `DashSet::new`: a set without keys.
#[verifier::external_body]
pub(crate) fn key_set_new() -> (r: DashSet<[u8; 32], RandomState>)
    ensures
        key_set(r) == Set::<[u8; 32]>::empty(),
{
    DashSet::new()
}

/// `DashSet::insert`: the key is in the set afterwards; the result says
/// whether it was new.
#[verifier::external_body]
pub(crate) fn key_set_insert(keys: &mut DashSet<[u8; 32], RandomState>, key: [u8; 32]) -> (r: bool)
    ensures
        key_set(*final(keys)) == key_set(*old(keys)).insert(key),
        r == !key_set(*old(keys)).contains(key),
{
    keys.insert(key)
}

/// `DashSet::remove`: the key is not in the set afterwards; the result is
/// the key where it was there.
#[verifier::external_body]
pub(crate) fn key_set_remove(keys: &mut DashSet<[u8; 32], RandomState>, key: &[u8; 32]) -> (r:
    Option<[u8; 32]>)
    ensures
        key_set(*final(keys)) == key_set(*old(keys)).remove(*key),
        r == if key_set(*old(keys)).contains(*key) {
            Some(*key)
        } else {
            None
        },
{
    keys.remove(key)
}

/// `DashSet::contains`.
#[verifier::external_body]
pub(crate) fn key_set_contains(keys: &DashSet<[u8; 32], RandomState>, key: &[u8; 32]) -> (r: bool)
    ensures
        r == key_set(*keys).contains(*key),
{
    keys.contains(key)
}

/// `DashSet::clear`: no key is left.
#[verifier::external_body]
pub(crate) fn key_set_clear(keys: &mut DashSet<[u8; 32], RandomState>)
    ensures
        key_set(*final(keys)) == Set::<[u8; 32]>::empty(),
{
    keys.clear()
}

/// `DashSet::iter`, collected: every key of the set once, in no order that
/// could be named.
#[verifier::external_body]
pub(crate) fn key_set_keys(keys: &DashSet<[u8; 32], RandomState>) -> (r: Vec<[u8; 32]>)
    ensures
        r@.to_set() == key_set(*keys),
        r@.no_duplicates(),
{
    keys.iter().map(|entry| *entry.key()).collect()
}

/// No image for any identity.
pub open spec fn no_avatars() -> Map<[u8; 32], ColorImage> {
    Map::empty()
}

/// `DashMap::new`: no image waits.
#[verifier::external_body]
pub(crate) fn avatar_slots_new() -> (r: DashMap<[u8; 32], ColorImage, RandomState>)
    ensures
        avatar_slots(r) == no_avatars(),
{
    DashMap::new()
}

/// `DashMap::contains_key`.
#[verifier::external_body]
pub(crate) fn avatar_slots_contains(
    slots: &DashMap<[u8; 32], ColorImage, RandomState>,
    key: &[u8; 32],
) -> (r: bool)
    ensures
        r == avatar_slots(*slots).contains_key(*key),
{
    slots.contains_key(key)
}

/// `DashMap::insert`: the image waits under the key afterwards, in place of
/// any that waited there, which is the result.
#[verifier::external_body]
pub(crate) fn avatar_slots_insert(
    slots: &mut DashMap<[u8; 32], ColorImage, RandomState>,
    key: [u8; 32],
    image: ColorImage,
) -> (r: Option<ColorImage>)
    ensures
        avatar_slots(*final(slots)) == avatar_slots(*old(slots)).insert(key, image),
        r == if avatar_slots(*old(slots)).contains_key(key) {
            Some(avatar_slots(*old(slots))[key])
        } else {
            None
        },
{
    slots.insert(key, image)
}

/// `DashMap::remove`: nothing waits under the key afterwards; the result is
/// the image that did.
#[verifier::external_body]
pub(crate) fn avatar_slots_remove(
    slots: &mut DashMap<[u8; 32], ColorImage, RandomState>,
    key: &[u8; 32],
) -> (r: Option<ColorImage>)
    ensures
        avatar_slots(*final(slots)) == avatar_slots(*old(slots)).remove(*key),
        r == if avatar_slots(*old(slots)).contains_key(*key) {
            Some(avatar_slots(*old(slots))[*key])
        } else {
            None
        },
{
    slots.remove(key).map(|(_, image)| image)
}

} // verus!
