use vstd::prelude::*;
use std::cmp::Ordering;
use vstd::std_specs::cmp::PartialOrdSpecImpl;
use crate::person::Person;
use crate::text::{lowercase, lowercase_of};

verus! {

/// Whether one text comes before another in the order of their characters:
/// at the first place where they differ the character of the first has the
/// lower number, or the first ends there.
pub open spec fn text_before(a: Seq<char>, b: Seq<char>) -> bool
    decreases a.len(),
{
    if b.len() == 0 {
        false
    } else if a.len() == 0 {
        true
    } else if a[0] != b[0] {
        (a[0] as u32) < (b[0] as u32)
    } else {
        text_before(a.drop_first(), b.drop_first())
    }
}

/// How two texts stand to each other in the order of their characters.
pub open spec fn text_order(a: Seq<char>, b: Seq<char>) -> Ordering {
    if a == b {
        Ordering::Equal
    } else if text_before(a, b) {
        Ordering::Less
    } else {
        Ordering::Greater
    }
}

/// Whether one string of bytes comes before another: at the first place
/// where they differ the byte of the first is the lower, or the first ends
/// there.
pub open spec fn bytes_before(a: Seq<u8>, b: Seq<u8>) -> bool
    decreases a.len(),
{
    if b.len() == 0 {
        false
    } else if a.len() == 0 {
        true
    } else if a[0] != b[0] {
        a[0] < b[0]
    } else {
        bytes_before(a.drop_first(), b.drop_first())
    }
}

/// How two strings of bytes stand to each other.
pub open spec fn bytes_order(a: Seq<u8>, b: Seq<u8>) -> Ordering {
    if a == b {
        Ordering::Equal
    } else if bytes_before(a, b) {
        Ordering::Less
    } else {
        Ordering::Greater
    }
}

/// `Ord::cmp` for `str`: the order of two texts by their characters.
#[verifier::external_body]
pub(crate) fn order_of_texts(a: &str, b: &str) -> (r: Ordering)
    ensures
        r == text_order(a@, b@),
{
    a.cmp(b)
}

/// Two strings of bytes that are alike up to a place stand to each other
/// as what follows that place does.
pub proof fn lemma_bytes_order_skips_common(a: Seq<u8>, b: Seq<u8>, n: int)
    requires
        0 <= n <= a.len(),
        n <= b.len(),
        forall|j: int| 0 <= j < n ==> a[j] == b[j],
    ensures
        bytes_before(a, b) == bytes_before(
            a.subrange(n, a.len() as int),
            b.subrange(n, b.len() as int),
        ),
        (a == b) == (a.subrange(n, a.len() as int) == b.subrange(n, b.len() as int)),
    decreases n,
{
    let ra = a.subrange(n, a.len() as int);
    let rb = b.subrange(n, b.len() as int);
    if n == 0 {
        assert(ra =~= a);
        assert(rb =~= b);
    } else {
        let a1 = a.drop_first();
        let b1 = b.drop_first();
        assert forall|j: int| 0 <= j < n - 1 implies a1[j] == b1[j] by {
            assert(a1[j] == a[j + 1]);
            assert(b1[j] == b[j + 1]);
        }
        lemma_bytes_order_skips_common(a1, b1, n - 1);
        assert(a1.subrange(n - 1, a1.len() as int) =~= ra);
        assert(b1.subrange(n - 1, b1.len() as int) =~= rb);
        assert(a[0] == b[0]);
        if a1 == b1 {
            assert(a =~= seq![a[0]] + a1);
            assert(b =~= seq![b[0]] + b1);
        }
        if a == b {
            assert(a1 =~= b1);
        }
    }
}

/// How one thing stands to another in an order.
#[derive(Debug, Clone, Copy, PartialEq, Eq, Structural)]
pub enum Standing {
    Before,
    Same,
    After,
}

/// How two keys stand to each other, byte by byte.
pub fn standing_of_keys(a: &[u8; 32], b: &[u8; 32]) -> (r: Standing)
    ensures
        r == Standing::Same <==> a@ == b@,
        r == Standing::Before <==> a@ != b@ && bytes_before(a@, b@),
{
    let mut i: usize = 0;
    while i < 32
        invariant
            i <= 32,
            forall|j: int| 0 <= j < i ==> a@[j] == b@[j],
        decreases 32 - i,
    {
        if a[i] != b[i] {
            proof {
                lemma_bytes_order_skips_common(a@, b@, i as int);
                let ra = a@.subrange(i as int, 32);
                let rb = b@.subrange(i as int, 32);
                assert(ra[0] == a@[i as int]);
                assert(rb[0] == b@[i as int]);
                assert(ra != rb);
            }
            if a[i] < b[i] {
                return Standing::Before;
            } else {
                return Standing::After;
            }
        }
        i += 1;
    }
    proof {
        assert(a@ =~= b@);
    }
    Standing::Same
}

/// How two keys stand to each other, byte by byte.
pub fn order_of_keys(a: &[u8; 32], b: &[u8; 32]) -> (r: Ordering)
    ensures
        r == bytes_order(a@, b@),
{
    match standing_of_keys(a, b) {
        Standing::Before => Ordering::Less,
        Standing::Same => Ordering::Equal,
        Standing::After => Ordering::Greater,
    }
}

impl Person {
    /// How two records stand to each other: by the names shown for them,
    /// in lowercase, where both have one; else by their keys.
    pub open spec fn order(self, other: Person) -> Ordering {
        if self.spec_display_name() is Some && other.spec_display_name() is Some {
            text_order(
                lowercase_of(self.spec_display_name()->0),
                lowercase_of(other.spec_display_name()->0),
            )
        } else {
            bytes_order(self.pubkey.bytes@, other.pubkey.bytes@)
        }
    }

    /// How this record stands to another in the order in which people are
    /// listed.
    pub fn compare(&self, other: &Person) -> (r: Ordering)
        ensures
            r == self.order(*other),
    {
        match self.display_name() {
            Some(a) => match other.display_name() {
                Some(b) => {
                    let la = lowercase(a);
                    let lb = lowercase(b);
                    order_of_texts(la.as_str(), lb.as_str())
                },
                None => order_of_keys(&self.pubkey.bytes, &other.pubkey.bytes),
            },
            None => order_of_keys(&self.pubkey.bytes, &other.pubkey.bytes),
        }
    }
}

impl PartialOrd for Person {
    fn partial_cmp(&self, other: &Self) -> (r: Option<Ordering>) {
        Some(self.compare(other))
    }
}

impl PartialOrdSpecImpl for Person {
    open spec fn obeys_partial_cmp_spec() -> bool {
        true
    }

    open spec fn partial_cmp_spec(&self, other: &Self) -> Option<Ordering> {
        Some(self.order(*other))
    }
}

} // verus!
