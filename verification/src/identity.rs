//! Peer identities: 32 bytes, their hexadecimal text and its short form.

use std::str::FromStr;
use vstd::prelude::*;

verus! {

/// The public identifier of a peer: the 32 bytes of its long-term public key.
#[derive(Clone, Copy, Debug, PartialEq, Eq, Hash)]
pub struct NodeIdentity {
    pub bytes: [u8; 32],
}

impl View for NodeIdentity {
    type V = Seq<u8>;

    open spec fn view(&self) -> Seq<u8> {
        self.bytes@
    }
}

/// The key bytes that a text stands for, if it stands for a key: the result of
/// the key parser on that text.
pub uninterp spec fn parsed_key(text: Seq<char>) -> Option<Seq<u8>>;

/// The bytes of an optional identity.
pub open spec fn identity_bytes(id: Option<NodeIdentity>) -> Option<Seq<u8>> {
    match id {
        Some(n) => Some(n@),
        None => None,
    }
}

/// The character of a hexadecimal digit, in lower case.
pub open spec fn hex_digit(d: nat) -> char {
    if d == 0 {
        '0'
    } else if d == 1 {
        '1'
    } else if d == 2 {
        '2'
    } else if d == 3 {
        '3'
    } else if d == 4 {
        '4'
    } else if d == 5 {
        '5'
    } else if d == 6 {
        '6'
    } else if d == 7 {
        '7'
    } else if d == 8 {
        '8'
    } else if d == 9 {
        '9'
    } else if d == 10 {
        'a'
    } else if d == 11 {
        'b'
    } else if d == 12 {
        'c'
    } else if d == 13 {
        'd'
    } else if d == 14 {
        'e'
    } else {
        'f'
    }
}

/// The lower-case hexadecimal text of a byte string: two digits per byte,
/// the high one first.
pub open spec fn hex_of(bytes: Seq<u8>) -> Seq<char> {
    Seq::new(
        2 * bytes.len(),
        |i: int|
            if i % 2 == 0 {
                hex_digit((bytes[i / 2] / 16) as nat)
            } else {
                hex_digit((bytes[i / 2] % 16) as nat)
            },
    )
}

/// The short form of a text: its first six and its last six characters, with
/// three dots between.
pub open spec fn short_of(text: Seq<char>) -> Seq<char>
    recommends
        text.len() >= 6,
{
    text.subrange(0, 6) + "..."@ + text.subrange(text.len() - 6, text.len() as int)
}

fn hex_str(d: u8) -> (s: &'static str)
    requires
        d < 16,
    ensures
        s@ == seq![hex_digit(d as nat)],
{
    proof {
        reveal_strlit("0");
        reveal_strlit("1");
        reveal_strlit("2");
        reveal_strlit("3");
        reveal_strlit("4");
        reveal_strlit("5");
        reveal_strlit("6");
        reveal_strlit("7");
        reveal_strlit("8");
        reveal_strlit("9");
        reveal_strlit("a");
        reveal_strlit("b");
        reveal_strlit("c");
        reveal_strlit("d");
        reveal_strlit("e");
        reveal_strlit("f");
    }
    let s = if d == 0 {
        "0"
    } else if d == 1 {
        "1"
    } else if d == 2 {
        "2"
    } else if d == 3 {
        "3"
    } else if d == 4 {
        "4"
    } else if d == 5 {
        "5"
    } else if d == 6 {
        "6"
    } else if d == 7 {
        "7"
    } else if d == 8 {
        "8"
    } else if d == 9 {
        "9"
    } else if d == 10 {
        "a"
    } else if d == 11 {
        "b"
    } else if d == 12 {
        "c"
    } else if d == 13 {
        "d"
    } else if d == 14 {
        "e"
    } else {
        "f"
    };
    assert(s@ =~= seq![hex_digit(d as nat)]);
    s
}

/// Calls `iroh_base::PublicKey::from_str` and hands out the key's bytes. The
/// parser reads 64 hexadecimal digits or the base32 form and accepts only
/// bytes that are a valid curve point; its answer depends on the text alone
/// and is named `parsed_key`.
#[verifier::external_body]
fn parse_public_key(text: &str) -> (r: Option<NodeIdentity>)
    ensures
        identity_bytes(r) == parsed_key(text@),
{
    match iroh_base::PublicKey::from_str(text) {
        Ok(key) => Some(NodeIdentity { bytes: *key.as_bytes() }),
        Err(_) => None,
    }
}

impl NodeIdentity {
    /// The identity with the given bytes.
    pub fn new(bytes: [u8; 32]) -> (id: NodeIdentity)
        ensures
            id@ == bytes@,
    {
        NodeIdentity { bytes }
    }

    /// Reads an identity from its text, as the key parser understands it.
    pub fn parse(text: &str) -> (r: Option<NodeIdentity>)
        ensures
            identity_bytes(r) == parsed_key(text@),
    {
        parse_public_key(text)
    }

    /// Whether two identities have the same bytes.
    pub fn same(&self, other: &NodeIdentity) -> (r: bool)
        ensures
            r == (self@ == other@),
    {
        let mut i: usize = 0;
        while i < 32
            invariant
                i <= 32,
                forall|j: int| 0 <= j < i ==> self.bytes@[j] == other.bytes@[j],
            decreases 32 - i,
        {
            if self.bytes[i] != other.bytes[i] {
                return false;
            }
            i += 1;
        }
        assert(self@ =~= other@);
        true
    }

    /// The full text of the identity: 64 lower-case hexadecimal digits.
    pub fn to_string(&self) -> (s: String)
        ensures
            s@ == hex_of(self@),
            s@.len() == 64,
    {
        let mut s = String::new();
        let mut i: usize = 0;
        assert(s@ =~= hex_of(self@.take(0)));
        while i < 32
            invariant
                i <= 32,
                s@ == hex_of(self@.take(i as int)),
            decreases 32 - i,
        {
            let b: u8 = self.bytes[i];
            let ghost before = s@;
            s.append(hex_str(b / 16));
            s.append(hex_str(b % 16));
            assert(s@ =~= hex_of(self@.take(i as int + 1))) by {
                let next = hex_of(self@.take(i as int + 1));
                assert(s@.len() == next.len());
                assert forall|k: int| 0 <= k < next.len() implies s@[k] == next[k] by {
                    if k < 2 * i {
                        assert(s@[k] == before[k]);
                        assert(self@.take(i as int)[k / 2] == self@.take(i as int + 1)[k / 2]);
                    }
                }
            }
            i += 1;
        }
        assert(self@.take(32) =~= self@);
        s
    }

    /// The short text of the identity: the first six and the last six
    /// digits of the full text, with three dots between.
    pub fn to_short_string(&self) -> (s: String)
        ensures
            s@ == short_of(hex_of(self@)),
            s@.len() == 15,
    {
        let full = self.to_string();
        let mut s = String::new();
        s.append(full.as_str().substring_char(0, 6));
        s.append("...");
        s.append(full.as_str().substring_char(58, 64));
        proof {
            reveal_strlit("...");
            assert(s@ =~= short_of(hex_of(self@)));
        }
        s
    }
}

/// The short text of an identity, for messages.
pub fn reduced_node_id(node_id: &NodeIdentity) -> (s: String)
    ensures
        s@ == short_of(hex_of(node_id@)),
{
    node_id.to_short_string()
}

/// The text of an identity has two digits for each byte, and each pair spells
/// its byte.
pub proof fn hex_digits(bytes: Seq<u8>, i: int)
    requires
        0 <= i < bytes.len(),
    ensures
        hex_of(bytes).len() == 2 * bytes.len(),
        hex_of(bytes)[2 * i] == hex_digit((bytes[i] / 16) as nat),
        hex_of(bytes)[2 * i + 1] == hex_digit((bytes[i] % 16) as nat),
{
}

/// Two byte strings of one length with the same text are the same.
pub proof fn hex_is_injective(a: Seq<u8>, b: Seq<u8>)
    requires
        hex_of(a) == hex_of(b),
    ensures
        a == b,
{
    assert(hex_of(a).len() == 2 * a.len());
    assert(hex_of(b).len() == 2 * b.len());
    assert(a.len() == b.len());
    assert forall|i: int| 0 <= i < a.len() implies a[i] == b[i] by {
        hex_digits(a, i);
        hex_digits(b, i);
        let x = a[i];
        let y = b[i];
        assert(hex_digit((x / 16) as nat) == hex_digit((y / 16) as nat));
        assert(hex_digit((x % 16) as nat) == hex_digit((y % 16) as nat));
        assert(x / 16 == y / 16);
        assert(x % 16 == y % 16);
    }
    assert(a =~= b);
}

} // verus!
