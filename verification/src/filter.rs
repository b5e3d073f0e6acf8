use vstd::prelude::*;
use crate::keys::PublicKey;

verus! {

/// Seconds since the first of January 1970, leap seconds not counted.
#[derive(Clone, Copy, Debug, PartialEq, Eq, Structural)]
pub struct Unixtime(pub i64);

/// The kind of an event, by the number the protocol gives it.
#[derive(Clone, Copy, Debug, PartialEq, Eq, Structural)]
pub enum EventKind {
    Metadata,
    ContactList,
    EncryptedDirectMessage,
    GiftWrap,
    MuteList,
    RelayList,
    BookmarkList,
    DmRelayList,
    UserServerList,
    NostrConnect,
    FollowSets,
    HandlerRecommendation,
    Other(u32),
}

impl EventKind {
    /// The number that stands for this kind on the wire.
    pub open spec fn spec_number(self) -> u32 {
        match self {
            EventKind::Metadata => 0,
            EventKind::ContactList => 3,
            EventKind::EncryptedDirectMessage => 4,
            EventKind::GiftWrap => 1059,
            EventKind::MuteList => 10000,
            EventKind::RelayList => 10002,
            EventKind::BookmarkList => 10003,
            EventKind::DmRelayList => 10050,
            EventKind::UserServerList => 10063,
            EventKind::NostrConnect => 24133,
            EventKind::FollowSets => 30000,
            EventKind::HandlerRecommendation => 31989,
            EventKind::Other(n) => n,
        }
    }

    /// The kind that a number stands for: the kind with a name where the
    /// number has one.
    pub open spec fn spec_from_number(number: u32) -> EventKind {
        if number == 0 {
            EventKind::Metadata
        } else if number == 3 {
            EventKind::ContactList
        } else if number == 4 {
            EventKind::EncryptedDirectMessage
        } else if number == 1059 {
            EventKind::GiftWrap
        } else if number == 10000 {
            EventKind::MuteList
        } else if number == 10002 {
            EventKind::RelayList
        } else if number == 10003 {
            EventKind::BookmarkList
        } else if number == 10050 {
            EventKind::DmRelayList
        } else if number == 10063 {
            EventKind::UserServerList
        } else if number == 24133 {
            EventKind::NostrConnect
        } else if number == 30000 {
            EventKind::FollowSets
        } else if number == 31989 {
            EventKind::HandlerRecommendation
        } else {
            EventKind::Other(number)
        }
    }

    pub fn from_number(number: u32) -> (r: EventKind)
        ensures
            r == EventKind::spec_from_number(number),
            r.spec_number() == number,
    {
        match number {
            0 => EventKind::Metadata,
            3 => EventKind::ContactList,
            4 => EventKind::EncryptedDirectMessage,
            1059 => EventKind::GiftWrap,
            10000 => EventKind::MuteList,
            10002 => EventKind::RelayList,
            10003 => EventKind::BookmarkList,
            10050 => EventKind::DmRelayList,
            10063 => EventKind::UserServerList,
            24133 => EventKind::NostrConnect,
            30000 => EventKind::FollowSets,
            31989 => EventKind::HandlerRecommendation,
            n => EventKind::Other(n),
        }
    }

    #[verifier::when_used_as_spec(spec_number)]
    pub fn number(self) -> (r: u32)
        ensures
            r == self.spec_number(),
    {
        match self {
            EventKind::Metadata => 0,
            EventKind::ContactList => 3,
            EventKind::EncryptedDirectMessage => 4,
            EventKind::GiftWrap => 1059,
            EventKind::MuteList => 10000,
            EventKind::RelayList => 10002,
            EventKind::BookmarkList => 10003,
            EventKind::DmRelayList => 10050,
            EventKind::UserServerList => 10063,
            EventKind::NostrConnect => 24133,
            EventKind::FollowSets => 30000,
            EventKind::HandlerRecommendation => 31989,
            EventKind::Other(n) => n,
        }
    }
}

/// The kinds of a list whose number is not `number`, in their order.
pub open spec fn without_kind(kinds: Seq<EventKind>, number: u32) -> Seq<EventKind>
    decreases kinds.len(),
{
    if kinds.len() == 0 {
        kinds
    } else if kinds.last().spec_number() == number {
        without_kind(kinds.drop_last(), number)
    } else {
        without_kind(kinds.drop_last(), number).push(kinds.last())
    }
}

/// Copies a list of kinds, leaving out those with the given number.
pub fn kinds_without(kinds: &Vec<EventKind>, number: u32) -> (r: Vec<EventKind>)
    ensures
        r@ == without_kind(kinds@, number),
{
    let mut out: Vec<EventKind> = Vec::new();
    let mut i: usize = 0;
    while i < kinds.len()
        invariant
            i <= kinds.len(),
            out@ == without_kind(kinds@.subrange(0, i as int), number),
        decreases kinds.len() - i,
    {
        let k = kinds[i];
        proof {
            let next = kinds@.subrange(0, i as int + 1);
            assert(next.drop_last() =~= kinds@.subrange(0, i as int));
            assert(next.last() == k);
        }
        if k.number() != number {
            out.push(k);
        }
        i += 1;
    }
    assert(kinds@.subrange(0, kinds.len() as int) =~= kinds@);
    out
}

/// The character strings that a list of strings holds.
pub open spec fn strings_view(v: Seq<String>) -> Seq<Seq<char>> {
    Seq::new(v.len(), |i: int| v[i]@)
}

/// One tag constraint of a filter: events that carry a tag with this letter
/// and one of these values.
#[derive(Clone, Debug, PartialEq, Eq)]
pub struct TagFilter {
    pub letter: char,
    pub values: Vec<String>,
}

impl View for TagFilter {
    type V = (char, Seq<Seq<char>>);

    open spec fn view(&self) -> (char, Seq<Seq<char>>) {
        (self.letter, strings_view(self.values@))
    }
}

/// The mathematical content of a [`Filter`].
pub struct FilterView {
    pub authors: Seq<PublicKey>,
    pub kinds: Seq<EventKind>,
    pub tags: Seq<(char, Seq<Seq<char>>)>,
    pub since: Option<Unixtime>,
    pub until: Option<Unixtime>,
    pub limit: Option<usize>,
    pub search: Option<Seq<char>>,
}

impl FilterView {
    /// The filter without any constraint.
    pub open spec fn unconstrained() -> FilterView {
        FilterView {
            authors: Seq::empty(),
            kinds: Seq::empty(),
            tags: Seq::empty(),
            since: None,
            until: None,
            limit: None,
            search: None,
        }
    }
}

/// The tag constraints of a filter after the values for one letter are set:
/// they take the place of the first entry with that letter, or come last.
pub open spec fn with_tag_values(
    tags: Seq<(char, Seq<Seq<char>>)>,
    letter: char,
    values: Seq<Seq<char>>,
) -> Seq<(char, Seq<Seq<char>>)>
    decreases tags.len(),
{
    if tags.len() == 0 {
        seq![(letter, values)]
    } else if tags[0].0 == letter {
        tags.update(0, (letter, values))
    } else {
        seq![tags[0]] + with_tag_values(tags.drop_first(), letter, values)
    }
}

/// A query sent to a relay: which events a subscription asks for.
#[derive(Clone, Debug, PartialEq, Eq)]
pub struct Filter {
    pub authors: Vec<PublicKey>,
    pub kinds: Vec<EventKind>,
    pub tags: Vec<TagFilter>,
    pub since: Option<Unixtime>,
    pub until: Option<Unixtime>,
    pub limit: Option<usize>,
    pub search: Option<String>,
}

impl View for Filter {
    type V = FilterView;

    open spec fn view(&self) -> FilterView {
        FilterView {
            authors: self.authors@,
            kinds: self.kinds@,
            tags: Seq::new(self.tags@.len(), |i: int| self.tags@[i]@),
            since: self.since,
            until: self.until,
            limit: self.limit,
            search: match self.search {
                Some(s) => Some(s@),
                None => None,
            },
        }
    }
}

impl Filter {
    /// A filter without any constraint.
    pub fn new() -> (r: Filter)
        ensures
            r@ == FilterView::unconstrained(),
    {
        let r = Filter {
            authors: Vec::new(),
            kinds: Vec::new(),
            tags: Vec::new(),
            since: None,
            until: None,
            limit: None,
            search: None,
        };
        assert(r@.tags =~= Seq::empty());
        r
    }

    /// Sets the values asked of the tag with this letter, in place of any
    /// that were set for it before.
    pub fn set_tag_values(&mut self, letter: char, values: Vec<String>)
        ensures
            final(self)@ == (FilterView {
                tags: with_tag_values(old(self)@.tags, letter, strings_view(values@)),
                ..old(self)@
            }),
    {
        let ghost before = self@;
        let ghost wanted = strings_view(values@);
        let mut i: usize = 0;
        while i < self.tags.len()
            invariant
                i <= self.tags.len(),
                self@ == before,
                before == old(self)@,
                wanted == strings_view(values@),
                forall|j: int| 0 <= j < i ==> before.tags[j].0 != letter,
            decreases self.tags.len() - i,
        {
            if self.tags[i].letter == letter {
                let ghost held = self.tags@;
                self.tags.set(i, TagFilter { letter, values });
                proof {
                    lemma_with_tag_values_found(before.tags, letter, wanted, i as int);
                    assert forall|j: int| 0 <= j < held.len() implies #[trigger] self@.tags[j]
                        == before.tags.update(i as int, (letter, wanted))[j] by {
                        if j != i {
                            assert(self.tags@[j] == held[j]);
                            assert(before.tags[j] == held[j]@);
                        }
                    }
                    assert(self@.tags =~= before.tags.update(i as int, (letter, wanted)));
                }
                return ;
            }
            i += 1;
        }
        let ghost held = self.tags@;
        self.tags.push(TagFilter { letter, values });
        proof {
            lemma_with_tag_values_absent(before.tags, letter, wanted);
            assert forall|j: int| 0 <= j < held.len() implies #[trigger] self@.tags[j]
                == before.tags[j] by {
                assert(self.tags@[j] == held[j]);
                assert(before.tags[j] == held[j]@);
            }
            assert(self@.tags =~= before.tags.push((letter, wanted)));
        }
    }
}

/// Where the letter first stands at index `i`, setting its values changes
/// that entry alone.
pub proof fn lemma_with_tag_values_found(
    tags: Seq<(char, Seq<Seq<char>>)>,
    letter: char,
    values: Seq<Seq<char>>,
    i: int,
)
    requires
        0 <= i < tags.len(),
        tags[i].0 == letter,
        forall|j: int| 0 <= j < i ==> tags[j].0 != letter,
    ensures
        with_tag_values(tags, letter, values) == tags.update(i, (letter, values)),
    decreases i,
{
    if i > 0 {
        let rest = tags.drop_first();
        lemma_with_tag_values_found(rest, letter, values, i - 1);
        assert(seq![tags[0]] + rest.update(i - 1, (letter, values)) =~= tags.update(
            i,
            (letter, values),
        ));
    }
}

/// Where no entry has the letter, setting its values adds an entry at the end.
pub proof fn lemma_with_tag_values_absent(
    tags: Seq<(char, Seq<Seq<char>>)>,
    letter: char,
    values: Seq<Seq<char>>,
)
    requires
        forall|j: int| 0 <= j < tags.len() ==> tags[j].0 != letter,
    ensures
        with_tag_values(tags, letter, values) == tags.push((letter, values)),
    decreases tags.len(),
{
    if tags.len() > 0 {
        let rest = tags.drop_first();
        lemma_with_tag_values_absent(rest, letter, values);
        assert(seq![tags[0]] + rest.push((letter, values)) =~= tags.push((letter, values)));
    } else {
        assert(seq![(letter, values)] =~= tags.push((letter, values)));
    }
}

} // verus!
