use vstd::prelude::*;
use crate::json::{json_object_new, json_string_field, json_strings, no_strings};
use crate::keys::PublicKey;

verus! {

/// What an author says of themself.
#[derive(Debug, Clone)]
pub struct Metadata {
    /// User name.
    pub name: Option<String>,
    /// A few words about the author.
    pub about: Option<String>,
    /// Where the author's picture is to be had.
    pub picture: Option<String>,
    /// The author's DNS identity.
    pub nip05: Option<String>,
    /// The fields that the author set beside these.
    pub other: serde_json::Map<String, serde_json::Value>,
}

/// The characters of a string that may be missing.
pub open spec fn text_of(s: Option<String>) -> Option<Seq<char>> {
    match s {
        Some(s) => Some(s@),
        None => None,
    }
}

/// The characters of a borrowed string that may be missing.
pub open spec fn str_of(s: Option<&str>) -> Option<Seq<char>> {
    match s {
        Some(s) => Some(s@),
        None => None,
    }
}

fn borrowed(s: &Option<String>) -> (r: Option<&str>)
    ensures
        str_of(r) == text_of(*s),
{
    match s {
        Some(s) => Some(s.as_str()),
        None => None,
    }
}

fn copy_text(s: &Option<String>) -> (r: Option<String>)
    ensures
        r == *s,
{
    match s {
        Some(s) => Some(s.clone()),
        None => None,
    }
}

impl Metadata {
    /// A copy of the metadata.
    pub fn duplicate(&self) -> (r: Metadata)
        ensures
            r == *self,
    {
        Metadata {
            name: copy_text(&self.name),
            about: copy_text(&self.about),
            picture: copy_text(&self.picture),
            nip05: copy_text(&self.nip05),
            other: self.other.clone(),
        }
    }

    /// Metadata that says nothing.
    pub fn new() -> (r: Metadata)
        ensures
            r.name is None,
            r.about is None,
            r.picture is None,
            r.nip05 is None,
            json_strings(r.other) == no_strings(),
    {
        Metadata { name: None, about: None, picture: None, nip05: None, other: json_object_new() }
    }

    /// The name the author wants shown: the `display_name` among the other
    /// fields where it is a string that is not empty, else the user name.
    pub open spec fn spec_shown_name(self) -> Option<Seq<char>> {
        let strings = json_strings(self.other);
        if strings.contains_key("display_name"@) && strings["display_name"@].len() > 0 {
            Some(strings["display_name"@])
        } else {
            text_of(self.name)
        }
    }

    pub fn shown_name(&self) -> (r: Option<&str>)
        ensures
            str_of(r) == self.spec_shown_name(),
    {
        match json_string_field(&self.other, "display_name") {
            Some(s) => {
                if !s.is_empty() {
                    return Some(s);
                }
            },
            None => {},
        }
        borrowed(&self.name)
    }
}

/// What is known of one author.
#[derive(Debug, Clone)]
pub struct Person {
    pub pubkey: PublicKey,
    pub petname: Option<String>,
    pub followed: bool,
    pub followed_last_updated: i64,
    pub muted: bool,
    pub metadata: Option<Metadata>,
    /// When the author says the metadata was made.
    pub metadata_created_at: Option<i64>,
    /// When metadata of this author last arrived here.
    pub metadata_last_received: i64,
    pub nip05_valid: bool,
    pub nip05_last_checked: Option<u64>,
    pub relay_list_created_at: Option<i64>,
    pub relay_list_last_received: i64,
}

impl PartialEq for Person {
    fn eq(&self, other: &Self) -> (r: bool) {
        self.pubkey == other.pubkey
    }
}

impl vstd::std_specs::cmp::PartialEqSpecImpl for Person {
    open spec fn obeys_eq_spec() -> bool {
        true
    }

    open spec fn eq_spec(&self, other: &Self) -> bool {
        self.pubkey == other.pubkey
    }
}

impl Eq for Person {

}

impl Person {
    /// The record of an author of whom nothing is known yet.
    pub open spec fn unknown(pubkey: PublicKey) -> Person {
        Person {
            pubkey,
            petname: None,
            followed: false,
            followed_last_updated: 0,
            muted: false,
            metadata: None,
            metadata_created_at: None,
            metadata_last_received: 0,
            nip05_valid: false,
            nip05_last_checked: None,
            relay_list_created_at: None,
            relay_list_last_received: 0,
        }
    }

    pub fn new(pubkey: PublicKey) -> (r: Person)
        ensures
            r == Person::unknown(pubkey),
    {
        Person {
            pubkey,
            petname: None,
            followed: false,
            followed_last_updated: 0,
            muted: false,
            metadata: None,
            metadata_created_at: None,
            metadata_last_received: 0,
            nip05_valid: false,
            nip05_last_checked: None,
            relay_list_created_at: None,
            relay_list_last_received: 0,
        }
    }

    /// A copy of the record.
    pub fn duplicate(&self) -> (r: Person)
        ensures
            r == *self,
    {
        Person {
            pubkey: self.pubkey,
            petname: copy_text(&self.petname),
            followed: self.followed,
            followed_last_updated: self.followed_last_updated,
            muted: self.muted,
            metadata: match &self.metadata {
                Some(md) => Some(md.duplicate()),
                None => None,
            },
            metadata_created_at: self.metadata_created_at,
            metadata_last_received: self.metadata_last_received,
            nip05_valid: self.nip05_valid,
            nip05_last_checked: self.nip05_last_checked,
            relay_list_created_at: self.relay_list_created_at,
            relay_list_last_received: self.relay_list_last_received,
        }
    }

    /// The name to show for the author: the pet name given locally, else
    /// the name the metadata wants shown.
    pub open spec fn spec_display_name(self) -> Option<Seq<char>> {
        match self.petname {
            Some(pn) => Some(pn@),
            None => match self.metadata {
                Some(md) => md.spec_shown_name(),
                None => None,
            },
        }
    }

    pub fn display_name(&self) -> (r: Option<&str>)
        ensures
            str_of(r) == self.spec_display_name(),
    {
        if let Some(pn) = &self.petname {
            Some(pn.as_str())
        } else if let Some(md) = &self.metadata {
            md.shown_name()
        } else {
            None
        }
    }

    pub open spec fn spec_name(self) -> Option<Seq<char>> {
        match self.metadata {
            Some(md) => text_of(md.name),
            None => None,
        }
    }

    /// The user name from the metadata.
    pub fn name(&self) -> (r: Option<&str>)
        ensures
            str_of(r) == self.spec_name(),
    {
        if let Some(md) = &self.metadata {
            borrowed(&md.name)
        } else {
            None
        }
    }

    pub open spec fn spec_about(self) -> Option<Seq<char>> {
        match self.metadata {
            Some(md) => text_of(md.about),
            None => None,
        }
    }

    /// What the metadata says about the author.
    pub fn about(&self) -> (r: Option<&str>)
        ensures
            str_of(r) == self.spec_about(),
    {
        if let Some(md) = &self.metadata {
            borrowed(&md.about)
        } else {
            None
        }
    }

    pub open spec fn spec_picture(self) -> Option<Seq<char>> {
        match self.metadata {
            Some(md) => text_of(md.picture),
            None => None,
        }
    }

    /// Where the metadata says the author's picture is.
    pub fn picture(&self) -> (r: Option<&str>)
        ensures
            str_of(r) == self.spec_picture(),
    {
        if let Some(md) = &self.metadata {
            borrowed(&md.picture)
        } else {
            None
        }
    }

    pub open spec fn spec_nip05(self) -> Option<Seq<char>> {
        match self.metadata {
            Some(md) => text_of(md.nip05),
            None => None,
        }
    }

    /// The DNS identity that the metadata claims.
    pub fn nip05(&self) -> (r: Option<&str>)
        ensures
            str_of(r) == self.spec_nip05(),
    {
        if let Some(md) = &self.metadata {
            borrowed(&md.nip05)
        } else {
            None
        }
    }
}

} // verus!
