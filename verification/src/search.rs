use vstd::prelude::*;
use vstd::string::StrSliceExecFns;
use vstd::utf8::encode_utf8;
use crate::keys::{hex_string, PublicKey};
use crate::person::Person;
use crate::text::{begins_with, holds, lowercase, lowercase_of, occurs_in};

verus! {

/// How many people a search for someone to tag gives at most.
pub const SEARCH_RESULT_CAP: usize = 10;

/// The search begins the name shown for the person.
pub const TIER_NAME_PREFIX: u8 = 4;

/// The search stands somewhere in the name shown for the person.
pub const TIER_NAME_SUBSTRING: u8 = 3;

/// The search begins the person's DNS identity, which was found valid.
pub const TIER_NIP05_PREFIX: u8 = 2;

/// The search stands somewhere in the person's DNS identity, which was
/// found valid.
pub const TIER_NIP05_SUBSTRING: u8 = 1;

/// A person that a search found, as a mathematical value.
pub struct MatchView {
    /// How the person matched: the higher, the better.
    pub tier: u8,
    /// The text that matched, as it is shown.
    pub name: Seq<char>,
    pub pubkey: PublicKey,
}

/// A person that a search found.
#[derive(Debug, Clone)]
pub struct Match {
    /// How the person matched: the higher, the better.
    pub tier: u8,
    /// The text that matched, as it is shown.
    pub name: String,
    pub pubkey: PublicKey,
}

impl View for Match {
    type V = MatchView;

    open spec fn view(&self) -> MatchView {
        MatchView { tier: self.tier, name: self.name@, pubkey: self.pubkey }
    }
}

/// What is searched for: the text without an `@` at its start, in
/// lowercase.
pub open spec fn query_of(text: Seq<char>) -> Seq<char> {
    if text.len() > 0 && text[0] == '@' {
        lowercase_of(text.subrange(1, text.len() as int))
    } else {
        lowercase_of(text)
    }
}

/// How a text matches a search, whatever the case of the text: as its
/// beginning, somewhere in it, or not at all.
pub open spec fn tier_of(text: Seq<char>, search: Seq<char>, prefix: u8, substring: u8) -> u8 {
    if search.is_prefix_of(lowercase_of(text)) {
        prefix
    } else if occurs_in(search, lowercase_of(text)) {
        substring
    } else {
        0
    }
}

/// The name under which a match is shown: the text that matched, or the
/// person's key in hexadecimal where that text is empty.
pub open spec fn shown_as(name: Seq<char>, pubkey: PublicKey) -> Seq<char> {
    if name.len() == 0 {
        hex_string(pubkey.bytes@)
    } else {
        name
    }
}

/// How a person matches a search. The name shown for the person counts
/// first; the DNS identity counts only where the name does not match and
/// the identity was found valid.
pub open spec fn match_of(person: Person, search: Seq<char>) -> Option<MatchView> {
    let by_name = match person.spec_display_name() {
        Some(name) => tier_of(name, search, TIER_NAME_PREFIX, TIER_NAME_SUBSTRING),
        None => 0,
    };
    if by_name > 0 {
        Some(
            MatchView {
                tier: by_name,
                name: shown_as(person.spec_display_name()->0, person.pubkey),
                pubkey: person.pubkey,
            },
        )
    } else if person.nip05_valid && person.spec_nip05() is Some {
        let nip05 = person.spec_nip05()->0;
        let by_nip05 = tier_of(nip05, search, TIER_NIP05_PREFIX, TIER_NIP05_SUBSTRING);
        if by_nip05 > 0 {
            Some(
                MatchView {
                    tier: by_nip05,
                    name: shown_as(lowercase_of(nip05), person.pubkey),
                    pubkey: person.pubkey,
                },
            )
        } else {
            None
        }
    } else {
        None
    }
}

/// The matches among a list of people, in the order of the list.
pub open spec fn matches_of(people: Seq<Person>, search: Seq<char>) -> Seq<MatchView>
    decreases people.len(),
{
    if people.len() == 0 {
        Seq::empty()
    } else {
        match match_of(people.last(), search) {
            Some(m) => matches_of(people.drop_last(), search).push(m),
            None => matches_of(people.drop_last(), search),
        }
    }
}

/// The length by which matches of one tier are told apart: the bytes of
/// the name as it is shown.
pub open spec fn shown_len(m: MatchView) -> nat {
    encode_utf8(m.name).len()
}

/// Whether one match ranks strictly above another: by its tier, and within
/// a tier by the shorter name.
pub open spec fn outranks(a: MatchView, b: MatchView) -> bool {
    a.tier > b.tier || (a.tier == b.tier && shown_len(a) < shown_len(b))
}

/// Where a match goes into a ranked list: before the first that it
/// outranks, so behind all that rank as high.
pub open spec fn rank_position(ranked: Seq<MatchView>, m: MatchView) -> int
    decreases ranked.len(),
{
    if ranked.len() == 0 {
        0
    } else if outranks(m, ranked[0]) {
        0
    } else {
        1 + rank_position(ranked.drop_first(), m)
    }
}

/// The matches from the best to the worst; those that rank alike keep
/// their order.
pub open spec fn ranked(matches: Seq<MatchView>) -> Seq<MatchView>
    decreases matches.len(),
{
    if matches.len() == 0 {
        Seq::empty()
    } else {
        let before = ranked(matches.drop_last());
        before.insert(rank_position(before, matches.last()), matches.last())
    }
}

/// Whether no match of a list stands behind one that it outranks.
pub open spec fn is_ranked(matches: Seq<MatchView>) -> bool {
    forall|i: int, j: int|
        0 <= i < j < matches.len() ==> !outranks(#[trigger] matches[j], #[trigger] matches[i])
}

/// The names and keys of a list of matches.
pub open spec fn name_and_key(matches: Seq<MatchView>) -> Seq<(Seq<char>, PublicKey)> {
    Seq::new(matches.len(), |i: int| (matches[i].name, matches[i].pubkey))
}

/// The names and keys that a list of results holds.
pub open spec fn result_views(results: Seq<(String, PublicKey)>) -> Seq<(Seq<char>, PublicKey)> {
    Seq::new(results.len(), |i: int| (results[i].0@, results[i].1))
}

/// The views of a list of matches.
pub open spec fn match_views(matches: Seq<Match>) -> Seq<MatchView> {
    Seq::new(matches.len(), |i: int| matches[i]@)
}

/// The best matches, ten at most, from the best on.
pub open spec fn best_of(matches: Seq<MatchView>) -> Seq<MatchView> {
    if ranked(matches).len() > SEARCH_RESULT_CAP {
        ranked(matches).subrange(0, SEARCH_RESULT_CAP as int)
    } else {
        ranked(matches)
    }
}

/// What a position in a ranked list is: all before it rank as high as the
/// match, and the one at it ranks lower.
pub proof fn lemma_rank_position(ranked: Seq<MatchView>, m: MatchView)
    ensures
        0 <= rank_position(ranked, m) <= ranked.len(),
        forall|j: int| 0 <= j < rank_position(ranked, m) ==> !outranks(m, #[trigger] ranked[j]),
        rank_position(ranked, m) < ranked.len() ==> outranks(
            m,
            ranked[rank_position(ranked, m)],
        ),
    decreases ranked.len(),
{
    if ranked.len() > 0 && !outranks(m, ranked[0]) {
        let rest = ranked.drop_first();
        lemma_rank_position(rest, m);
        assert forall|j: int| 0 <= j < rank_position(ranked, m) implies !outranks(
            m,
            #[trigger] ranked[j],
        ) by {
            if j > 0 {
                assert(ranked[j] == rest[j - 1]);
            }
        }
    }
}

/// The first place at which a match outranks what stands there is its
/// position.
pub proof fn lemma_rank_position_is(ranked: Seq<MatchView>, m: MatchView, at: int)
    requires
        0 <= at <= ranked.len(),
        forall|j: int| 0 <= j < at ==> !outranks(m, #[trigger] ranked[j]),
        at < ranked.len() ==> outranks(m, ranked[at]),
    ensures
        rank_position(ranked, m) == at,
    decreases ranked.len(),
{
    if ranked.len() > 0 {
        if at == 0 {
        } else {
            assert(!outranks(m, ranked[0]));
            let rest = ranked.drop_first();
            assert forall|j: int| 0 <= j < at - 1 implies !outranks(m, #[trigger] rest[j]) by {
                assert(rest[j] == ranked[j + 1]);
            }
            lemma_rank_position_is(rest, m, at - 1);
        }
    }
}

/// A ranked list with one more match at its position is ranked.
pub proof fn lemma_insert_keeps_ranked(ranked: Seq<MatchView>, m: MatchView)
    requires
        is_ranked(ranked),
    ensures
        is_ranked(ranked.insert(rank_position(ranked, m), m)),
{
    lemma_rank_position(ranked, m);
    let at = rank_position(ranked, m);
    let out = ranked.insert(at, m);
    assert forall|i: int, j: int| 0 <= i < j < out.len() implies !outranks(
        #[trigger] out[j],
        #[trigger] out[i],
    ) by {
        if j < at {
            assert(out[i] == ranked[i] && out[j] == ranked[j]);
        } else if j == at {
            assert(out[i] == ranked[i]);
        } else if i < at {
            assert(out[i] == ranked[i] && out[j] == ranked[j - 1]);
        } else if i == at {
            assert(out[j] == ranked[j - 1]);
            if j - 1 > at {
                assert(!outranks(ranked[j - 1], ranked[at]));
            }
        } else {
            assert(out[i] == ranked[i - 1] && out[j] == ranked[j - 1]);
        }
    }
}

/// The ranking holds every match once and puts none behind one that it
/// outranks.
pub proof fn lemma_ranked(matches: Seq<MatchView>)
    ensures
        is_ranked(ranked(matches)),
        ranked(matches).len() == matches.len(),
        ranked(matches).to_multiset() == matches.to_multiset(),
    decreases matches.len(),
{
    if matches.len() == 0 {
        assert(matches =~= Seq::empty());
    } else {
        let before = ranked(matches.drop_last());
        lemma_ranked(matches.drop_last());
        lemma_rank_position(before, matches.last());
        lemma_insert_keeps_ranked(before, matches.last());
        vstd::seq_lib::to_multiset_insert(
            before,
            rank_position(before, matches.last()),
            matches.last(),
        );
        vstd::seq_lib::to_multiset_build(matches.drop_last(), matches.last());
        assert(matches.drop_last().push(matches.last()) =~= matches);
    }
}

/// The results of a search are the best matches, the best first: none
/// stands behind one that it outranks, and none that was left out outranks
/// one that was taken. There are ten of them, or as many as matched where
/// fewer did.
pub proof fn law_results_are_the_best(matches: Seq<MatchView>)
    ensures
        is_ranked(best_of(matches)),
        best_of(matches).len() == if matches.len() > SEARCH_RESULT_CAP {
            SEARCH_RESULT_CAP as int
        } else {
            matches.len() as int
        },
        best_of(matches).is_prefix_of(ranked(matches)),
        ranked(matches).to_multiset() == matches.to_multiset(),
        forall|i: int, k: int|
            0 <= i < best_of(matches).len() <= k < ranked(matches).len() ==> !outranks(
                #[trigger] ranked(matches)[k],
                #[trigger] best_of(matches)[i],
            ),
{
    lemma_ranked(matches);
    let all = ranked(matches);
    let best = best_of(matches);
    assert forall|i: int, j: int| 0 <= i < j < best.len() implies !outranks(
        #[trigger] best[j],
        #[trigger] best[i],
    ) by {
        assert(best[i] == all[i] && best[j] == all[j]);
    }
    assert forall|i: int, k: int| 0 <= i < best.len() <= k < all.len() implies !outranks(
        #[trigger] all[k],
        #[trigger] best[i],
    ) by {
        assert(best[i] == all[i]);
    }
}

/// Among the results of a search a match of a better kind comes first: a
/// name that begins with what is searched for before a name that only holds
/// it, and any name before a DNS identity. Among matches of one kind the
/// shorter comes before the longer.
pub proof fn law_better_match_comes_first(matches: Seq<MatchView>, i: int, j: int)
    requires
        0 <= i < best_of(matches).len(),
        0 <= j < best_of(matches).len(),
        outranks(best_of(matches)[i], best_of(matches)[j]),
    ensures
        i < j,
{
    law_results_are_the_best(matches);
    let best = best_of(matches);
    if j < i {
        assert(!outranks(best[i], best[j]));
    }
}

/// A person whose shown name begins with what is searched for matches in
/// the best way; one whose shown name only holds it matches in the second
/// best way; and a DNS identity counts only below every name.
pub proof fn law_kinds_of_match(person: Person, search: Seq<char>)
    ensures
        match_of(person, search) matches Some(m) ==> {
            &&& m.pubkey == person.pubkey
            &&& TIER_NIP05_SUBSTRING <= m.tier <= TIER_NAME_PREFIX
            &&& m.tier == TIER_NAME_PREFIX <==> person.spec_display_name() is Some
                && search.is_prefix_of(lowercase_of(person.spec_display_name()->0))
            &&& m.tier == TIER_NAME_SUBSTRING <==> person.spec_display_name() is Some
                && !search.is_prefix_of(lowercase_of(person.spec_display_name()->0))
                && occurs_in(search, lowercase_of(person.spec_display_name()->0))
            &&& m.tier <= TIER_NIP05_PREFIX ==> person.nip05_valid
        },
{
}

fn shown_name(name: String, pubkey: &PublicKey) -> (r: String)
    ensures
        r@ == shown_as(name@, *pubkey),
{
    if name.as_str().is_empty() {
        pubkey.as_hex_string()
    } else {
        name
    }
}

fn tier(text: &str, search: &str, prefix: u8, substring: u8) -> (r: u8)
    ensures
        r == tier_of(text@, search@, prefix, substring),
{
    let matchable = lowercase(text);
    if begins_with(matchable.as_str(), search) {
        prefix
    } else if holds(matchable.as_str(), search) {
        substring
    } else {
        0
    }
}

/// How a person matches a search that is in lowercase already.
pub fn find_match(person: &Person, search: &str) -> (r: Option<Match>)
    ensures
        r is Some <==> match_of(*person, search@) is Some,
        r matches Some(m) ==> m@ == match_of(*person, search@)->0,
{
    let display_name = person.display_name();
    let by_name = match display_name {
        Some(name) => tier(name, search, TIER_NAME_PREFIX, TIER_NAME_SUBSTRING),
        None => 0,
    };
    if by_name > 0 {
        let name = match display_name {
            Some(name) => name.to_owned(),
            None => String::new(),
        };
        return Some(
            Match { tier: by_name, name: shown_name(name, &person.pubkey), pubkey: person.pubkey },
        );
    }
    if !person.nip05_valid {
        return None;
    }
    match person.nip05() {
        Some(nip05) => {
            let by_nip05 = tier(nip05, search, TIER_NIP05_PREFIX, TIER_NIP05_SUBSTRING);
            if by_nip05 > 0 {
                Some(
                    Match {
                        tier: by_nip05,
                        name: shown_name(lowercase(nip05), &person.pubkey),
                        pubkey: person.pubkey,
                    },
                )
            } else {
                None
            }
        },
        None => None,
    }
}

fn ranks_above(a: &Match, b: &Match) -> (r: bool)
    ensures
        r == outranks(a@, b@),
{
    a.tier > b.tier || (a.tier == b.tier && a.name.as_str().as_bytes().len()
        < b.name.as_str().as_bytes().len())
}

/// Puts a match into a ranked list at its position.
pub fn insert_ranked(list: &mut Vec<Match>, m: Match)
    ensures
        match_views(final(list)@) == match_views(old(list)@).insert(
            rank_position(match_views(old(list)@), m@),
            m@,
        ),
{
    let ghost before = match_views(list@);
    let mut at: usize = 0;
    while at < list.len() && !ranks_above(&m, &list[at])
        invariant
            at <= list.len(),
            list@ == old(list)@,
            before == match_views(list@),
            forall|j: int| 0 <= j < at ==> !outranks(m@, #[trigger] before[j]),
        decreases list.len() - at,
    {
        at += 1;
    }
    proof {
        lemma_rank_position_is(before, m@, at as int);
    }
    list.insert(at, m);
    assert(match_views(list@) =~= before.insert(at as int, m@));
}

/// What a text asks to search for: the text without an `@` at its start,
/// in lowercase.
pub fn search_query(text: &str) -> (r: String)
    ensures
        r@ == query_of(text@),
{
    let n = text.unicode_len();
    if n > 0 && text.get_char(0) == '@' {
        lowercase(text.substring_char(1, n))
    } else {
        lowercase(text)
    }
}

/// Finds the people to offer for a tag: those whose shown name or valid DNS
/// identity holds the text, whatever the case and with or without an `@`
/// before it. The best ten at most, the best first: a name that begins with
/// the text before a name that holds it, a name before a DNS identity, and
/// among matches of one kind the shorter before the longer.
pub fn rank_people(text: &str, people: &Vec<Person>) -> (r: Vec<(String, PublicKey)>)
    ensures
        result_views(r@) == name_and_key(best_of(matches_of(people@, query_of(text@)))),
        r@.len() <= SEARCH_RESULT_CAP,
{
    let search = search_query(text);
    let mut results: Vec<Match> = Vec::new();
    let mut i: usize = 0;
    assert(match_views(results@) =~= ranked(matches_of(people@.subrange(0, 0), search@)));
    while i < people.len()
        invariant
            i <= people.len(),
            match_views(results@) == ranked(matches_of(people@.subrange(0, i as int), search@)),
        decreases people.len() - i,
    {
        proof {
            let next = people@.subrange(0, i as int + 1);
            assert(next.drop_last() =~= people@.subrange(0, i as int));
            assert(next.last() == people@[i as int]);
            let found = matches_of(next, search@);
            if match_of(people@[i as int], search@) is Some {
                assert(found.drop_last() =~= matches_of(people@.subrange(0, i as int), search@));
            }
        }
        match find_match(&people[i], search.as_str()) {
            Some(m) => {
                insert_ranked(&mut results, m);
            },
            None => {},
        }
        i += 1;
    }
    assert(people@.subrange(0, people.len() as int) =~= people@);
    let max = if results.len() > SEARCH_RESULT_CAP {
        SEARCH_RESULT_CAP
    } else {
        results.len()
    };
    let ghost best = best_of(matches_of(people@, search@));
    let mut out: Vec<(String, PublicKey)> = Vec::new();
    let mut k: usize = 0;
    while k < max
        invariant
            k <= max <= results.len(),
            max == best.len(),
            forall|j: int| 0 <= j < max ==> best[j] == #[trigger] match_views(results@)[j],
            out@.len() == k,
            forall|j: int|
                0 <= j < k ==> (#[trigger] out@[j]).0@ == best[j].name && out@[j].1
                    == best[j].pubkey,
        decreases max - k,
    {
        let m = &results[k];
        assert(match_views(results@)[k as int] == m@);
        out.push((m.name.clone(), m.pubkey));
        k += 1;
    }
    assert(result_views(out@) =~= name_and_key(best));
    out
}

} // verus!
