//! The 256-bit public keys that identify authorities, participants and
//! records.
//!
//! A key is held as two 128-bit words; its byte form is the 32-byte
//! little-endian image of the two words, low word first.  The all-zero key is
//! reserved as the sentinel that marks an empty document slot in a `Clerk`
//! record, so it never names a real record.

use vstd::bytes::{
    lemma_auto_spec_u128_to_from_le_bytes, spec_u128_from_le_bytes, spec_u128_to_le_bytes,
    u128_from_le_bytes, u128_to_le_bytes,
};
use vstd::prelude::*;
use vstd::slice::slice_subrange;

verus! {

/// A 256-bit public key.
#[derive(Clone, Copy, PartialEq, Eq, Structural, Debug)]
pub struct Pubkey {
    /// The low-order 128 bits of the key.
    pub lo: u128,
    /// The high-order 128 bits of the key.
    pub hi: u128,
}

impl Pubkey {
    /// The all-zero key: the reserved sentinel for an empty document slot.
    pub open spec fn zero() -> Pubkey {
        Pubkey { lo: 0, hi: 0 }
    }

    /// The 32-byte form of the key: both words in little-endian order, low
    /// word first.
    pub open spec fn bytes(self) -> Seq<u8> {
        spec_u128_to_le_bytes(self.lo) + spec_u128_to_le_bytes(self.hi)
    }

    /// The key whose 32-byte form is `s`.
    pub open spec fn from_byte_seq(s: Seq<u8>) -> Pubkey {
        Pubkey {
            lo: spec_u128_from_le_bytes(s.subrange(0, 16)),
            hi: spec_u128_from_le_bytes(s.subrange(16, 32)),
        }
    }

    /// Builds a key from two 128-bit words.
    pub fn new(lo: u128, hi: u128) -> (r: Pubkey)
        ensures
            r == (Pubkey { lo, hi }),
    {
        Pubkey { lo, hi }
    }

    /// Writes the key out as its 32 bytes.
    pub fn to_bytes(&self) -> (r: Vec<u8>)
        ensures
            r@ == self.bytes(),
            r@.len() == 32,
    {
        proof {
            lemma_auto_spec_u128_to_from_le_bytes();
        }
        let mut r = u128_to_le_bytes(self.lo);
        let mut hi_bytes = u128_to_le_bytes(self.hi);
        r.append(&mut hi_bytes);
        r
    }

    /// Reads a key back from its 32-byte form.
    pub fn from_bytes(s: &[u8]) -> (r: Pubkey)
        requires
            s@.len() == 32,
        ensures
            r == Pubkey::from_byte_seq(s@),
    {
        let lo = u128_from_le_bytes(slice_subrange(s, 0, 16));
        let hi = u128_from_le_bytes(slice_subrange(s, 16, 32));
        Pubkey { lo, hi }
    }
}

impl Default for Pubkey {
    /// The sentinel key.
    fn default() -> (r: Pubkey)
        ensures
            r == Pubkey::zero(),
    {
        Pubkey { lo: 0, hi: 0 }
    }
}

/// A key's byte form is 32 bytes long.
pub proof fn lemma_pubkey_bytes_len(p: Pubkey)
    ensures
        p.bytes().len() == 32,
{
    lemma_auto_spec_u128_to_from_le_bytes();
}

/// Reading a key's 32 bytes back yields the key itself.
pub proof fn lemma_pubkey_bytes_round_trip(p: Pubkey)
    ensures
        Pubkey::from_byte_seq(p.bytes()) == p,
{
    lemma_auto_spec_u128_to_from_le_bytes();
    assert(p.bytes().subrange(0, 16) =~= spec_u128_to_le_bytes(p.lo));
    assert(p.bytes().subrange(16, 32) =~= spec_u128_to_le_bytes(p.hi));
}

/// Rebuilding a key from any 32 bytes writes those bytes back out
/// unchanged.
pub proof fn lemma_pubkey_from_byte_seq_round_trip(s: Seq<u8>)
    requires
        s.len() == 32,
    ensures
        Pubkey::from_byte_seq(s).bytes() == s,
{
    lemma_auto_spec_u128_to_from_le_bytes();
    let p = Pubkey::from_byte_seq(s);
    assert(spec_u128_to_le_bytes(p.lo) == s.subrange(0, 16));
    assert(spec_u128_to_le_bytes(p.hi) == s.subrange(16, 32));
    assert(p.bytes() =~= s);
}

/// Two keys with the same byte form are the same key.
pub proof fn lemma_pubkey_bytes_injective(a: Pubkey, b: Pubkey)
    requires
        a.bytes() == b.bytes(),
    ensures
        a == b,
{
    lemma_pubkey_bytes_round_trip(a);
    lemma_pubkey_bytes_round_trip(b);
}

/// The position of the first occurrence of `x` in `s`, or `s.len()` when `x`
/// does not occur.
pub open spec fn find_key(s: Seq<Pubkey>, x: Pubkey) -> int
    decreases s.len(),
{
    if s.len() == 0 {
        0
    } else if s[0] == x {
        0
    } else {
        1 + find_key(s.drop_first(), x)
    }
}

/// Whether no key occurs twice in `s`.
pub open spec fn unique_keys(s: Seq<Pubkey>) -> bool {
    forall|i: int, j: int| 0 <= i < j < s.len() ==> s[i] != s[j]
}

/// What `find_key` finds: the first occurrence of `x` when `s` contains it,
/// and `s.len()` otherwise.
pub proof fn lemma_find_key(s: Seq<Pubkey>, x: Pubkey)
    ensures
        0 <= find_key(s, x) <= s.len(),
        find_key(s, x) < s.len() ==> s[find_key(s, x)] == x,
        forall|j: int| 0 <= j < find_key(s, x) ==> s[j] != x,
        (find_key(s, x) < s.len()) <==> s.contains(x),
    decreases s.len(),
{
    if s.len() == 0 {
    } else if s[0] == x {
    } else {
        let t = s.drop_first();
        lemma_find_key(t, x);
        let f = find_key(s, x);
        assert forall|j: int| 0 <= j < f implies s[j] != x by {
            if j > 0 {
                assert(t[j - 1] == s[j]);
            }
        }
        if f < s.len() {
            assert(t[f - 1] == s[f]);
        }
        if s.contains(x) {
            let i = choose|i: int| 0 <= i < s.len() && s[i] == x;
            assert(t[i - 1] == x);
            assert(t.contains(x));
        }
        if t.contains(x) {
            let i = choose|i: int| 0 <= i < t.len() && t[i] == x;
            assert(s[i + 1] == x);
            assert(s.contains(x));
        }
    }
}

/// Finds the position of the first occurrence of `x` in `v`, reporting
/// `v.len()` when `x` is absent.
pub fn find_key_index(v: &Vec<Pubkey>, x: &Pubkey) -> (r: usize)
    ensures
        r == find_key(v@, *x),
{
    let n = v.len();
    let mut i: usize = 0;
    while i < n
        invariant
            0 <= i <= n,
            n == v@.len(),
            forall|j: int| 0 <= j < i ==> v@[j] != *x,
        decreases n - i,
    {
        if v[i] == *x {
            proof {
                lemma_find_key(v@, *x);
                assert(v@.contains(*x));
            }
            return i;
        }
        i = i + 1;
    }
    proof {
        lemma_find_key(v@, *x);
        if find_key(v@, *x) < v@.len() {
            assert(v@[find_key(v@, *x)] != *x);
        }
    }
    i
}

/// Builds a slot list of `n` zero keys: every slot empty.
pub fn zero_keys(n: usize) -> (r: Vec<Pubkey>)
    ensures
        r@.len() == n,
        forall|i: int| 0 <= i < n ==> r@[i] == Pubkey::zero(),
{
    let mut r: Vec<Pubkey> = Vec::new();
    let mut i: usize = 0;
    while i < n
        invariant
            0 <= i <= n,
            r@.len() == i,
            forall|j: int| 0 <= j < i ==> r@[j] == Pubkey::zero(),
        decreases n - i,
    {
        r.push(Pubkey::default());
        i = i + 1;
    }
    r
}

/// Copies a key list.
pub fn copy_keys(v: &Vec<Pubkey>) -> (r: Vec<Pubkey>)
    ensures
        r@ == v@,
{
    let n = v.len();
    let mut r: Vec<Pubkey> = Vec::new();
    let mut i: usize = 0;
    while i < n
        invariant
            0 <= i <= n,
            n == v@.len(),
            r@ =~= v@.take(i as int),
        decreases n - i,
    {
        r.push(v[i]);
        i = i + 1;
    }
    proof {
        assert(r@ =~= v@);
    }
    r
}

} // verus!
