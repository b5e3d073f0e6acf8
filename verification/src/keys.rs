use vstd::prelude::*;
use vstd::string::StringExecFns;

verus! {

/// The lowercase hexadecimal digit for a value below sixteen.
pub open spec fn hex_digit(n: int) -> char {
    if n == 0 {
        '0'
    } else if n == 1 {
        '1'
    } else if n == 2 {
        '2'
    } else if n == 3 {
        '3'
    } else if n == 4 {
        '4'
    } else if n == 5 {
        '5'
    } else if n == 6 {
        '6'
    } else if n == 7 {
        '7'
    } else if n == 8 {
        '8'
    } else if n == 9 {
        '9'
    } else if n == 10 {
        'a'
    } else if n == 11 {
        'b'
    } else if n == 12 {
        'c'
    } else if n == 13 {
        'd'
    } else if n == 14 {
        'e'
    } else {
        'f'
    }
}

/// Lowercase hexadecimal rendering of a byte string: two digits per byte,
/// high nibble first.
pub open spec fn hex_string(bytes: Seq<u8>) -> Seq<char> {
    Seq::new(
        2 * bytes.len(),
        |i: int|
            if i % 2 == 0 {
                hex_digit(bytes[i / 2] as int / 16)
            } else {
                hex_digit(bytes[i / 2] as int % 16)
            },
    )
}

/// Two byte strings that are written alike in hexadecimal are the same: a
/// key is known by its hexadecimal form.
pub proof fn law_hex_string_is_injective(a: Seq<u8>, b: Seq<u8>)
    requires
        hex_string(a) == hex_string(b),
    ensures
        a == b,
{
    assert(hex_string(a).len() == 2 * a.len());
    assert(hex_string(b).len() == 2 * b.len());
    assert forall|i: int| 0 <= i < a.len() implies a[i] == b[i] by {
        let x = a[i] as int;
        let y = b[i] as int;
        assert((2 * i) / 2 == i && (2 * i + 1) / 2 == i);
        assert((2 * i) % 2 == 0 && (2 * i + 1) % 2 == 1);
        assert(hex_string(a)[2 * i] == hex_digit(x / 16));
        assert(hex_string(b)[2 * i] == hex_digit(y / 16));
        assert(hex_string(a)[2 * i + 1] == hex_digit(x % 16));
        assert(hex_string(b)[2 * i + 1] == hex_digit(y % 16));
        assert(x / 16 == y / 16);
        assert(x % 16 == y % 16);
    }
    assert(a =~= b);
}

fn hex_digit_str(n: u8) -> (r: &'static str)
    requires
        n < 16,
    ensures
        r@ == seq![hex_digit(n as int)],
{
    proof {
        reveal_strlit("0");
        reveal_strlit("1");
        reveal_strlit("2");
        reveal_strlit("3");
        reveal_strlit("4");
        reveal_strlit("5");
        reveal_strlit("6");
        reveal_strlit("7");
        reveal_strlit("8");
        reveal_strlit("9");
        reveal_strlit("a");
        reveal_strlit("b");
        reveal_strlit("c");
        reveal_strlit("d");
        reveal_strlit("e");
        reveal_strlit("f");
    }
    let r = match n {
        0 => "0",
        1 => "1",
        2 => "2",
        3 => "3",
        4 => "4",
        5 => "5",
        6 => "6",
        7 => "7",
        8 => "8",
        9 => "9",
        10 => "a",
        11 => "b",
        12 => "c",
        13 => "d",
        14 => "e",
        _ => "f",
    };
    assert(r@ =~= seq![hex_digit(n as int)]);
    r
}

/// Renders 32 bytes as 64 lowercase hexadecimal characters.
pub fn hex_encode(bytes: &[u8; 32]) -> (r: String)
    ensures
        r@ == hex_string(bytes@),
{
    let mut out = String::new();
    let mut i: usize = 0;
    while i < 32
        invariant
            i <= 32,
            out@ == hex_string(bytes@.subrange(0, i as int)),
        decreases 32 - i,
    {
        let b: u8 = bytes[i];
        let hi: u8 = b / 16;
        let lo: u8 = b % 16;
        let ghost before = out@;
        out.append(hex_digit_str(hi));
        out.append(hex_digit_str(lo));
        proof {
            let prev = bytes@.subrange(0, i as int);
            let next = bytes@.subrange(0, i as int + 1);
            assert(out@ == before + seq![hex_digit(hi as int)] + seq![hex_digit(lo as int)]);
            assert forall|k: int| 0 <= k < 2 * next.len() implies out@[k] == hex_string(
                next,
            )[k] by {
                if k < 2 * prev.len() {
                    assert(out@[k] == hex_string(prev)[k]);
                    assert(prev[k / 2] == next[k / 2]);
                } else {
                    assert(k / 2 == i as int);
                    assert(next[k / 2] == b);
                }
            }
            assert(out@ =~= hex_string(next));
        }
        i += 1;
    }
    assert(bytes@.subrange(0, 32) =~= bytes@);
    out
}

/// A 32-byte public identity key, the stable identifier of an author.
#[derive(Clone, Copy, Debug)]
pub struct PublicKey {
    pub bytes: [u8; 32],
}

impl PartialEq for PublicKey {
    fn eq(&self, other: &Self) -> (r: bool) {
        same_bytes(&self.bytes, &other.bytes)
    }
}

impl vstd::std_specs::cmp::PartialEqSpecImpl for PublicKey {
    open spec fn obeys_eq_spec() -> bool {
        true
    }

    open spec fn eq_spec(&self, other: &Self) -> bool {
        self.bytes == other.bytes
    }
}

impl Eq for PublicKey {

}

impl PublicKey {
    pub fn from_bytes(bytes: [u8; 32]) -> (r: PublicKey)
        ensures
            r.bytes == bytes,
    {
        PublicKey { bytes }
    }

    /// The key as 64 lowercase hexadecimal characters.
    pub fn as_hex_string(&self) -> (r: String)
        ensures
            r@ == hex_string(self.bytes@),
    {
        hex_encode(&self.bytes)
    }
}

/// A 32-byte event identifier.
#[derive(Clone, Copy, Debug)]
pub struct Id {
    pub bytes: [u8; 32],
}

impl PartialEq for Id {
    fn eq(&self, other: &Self) -> (r: bool) {
        same_bytes(&self.bytes, &other.bytes)
    }
}

impl vstd::std_specs::cmp::PartialEqSpecImpl for Id {
    open spec fn obeys_eq_spec() -> bool {
        true
    }

    open spec fn eq_spec(&self, other: &Self) -> bool {
        self.bytes == other.bytes
    }
}

impl Eq for Id {

}

impl Id {
    pub fn from_bytes(bytes: [u8; 32]) -> (r: Id)
        ensures
            r.bytes == bytes,
    {
        Id { bytes }
    }

    /// The identifier as 64 lowercase hexadecimal characters.
    pub fn as_hex_string(&self) -> (r: String)
        ensures
            r@ == hex_string(self.bytes@),
    {
        hex_encode(&self.bytes)
    }
}

/// Whether two 32-byte strings hold the same bytes.
pub fn same_bytes(a: &[u8; 32], b: &[u8; 32]) -> (r: bool)
    ensures
        r == (*a == *b),
{
    let mut i: usize = 0;
    while i < 32
        invariant
            i <= 32,
            forall|j: int| 0 <= j < i ==> a@[j] == b@[j],
        decreases 32 - i,
    {
        if a[i] != b[i] {
            return false;
        }
        i += 1;
    }
    proof {
        broadcast use vstd::array::group_array_axioms;

        assert(*a =~= *b);
    }
    true
}

} // verus!
