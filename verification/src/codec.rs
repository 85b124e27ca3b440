//! The persisted byte layout of the records.
//!
//! Field order is fixed: a clerk is its authority key, the length-prefixed
//! slot list, the upgrade counter and the bump nonce; a document is its
//! authority key, the length-prefixed title and locator, the creation
//! timestamp, the length-prefixed participant and signature-timestamp
//! lists, the finalization timestamp and the bump nonce.  All integers are
//! little-endian; list length prefixes are 32 bits.  Writing a record out
//! and reading it back reproduces every field value exactly.

use vstd::bytes::{
    lemma_auto_spec_u32_to_from_le_bytes, spec_u32_to_le_bytes,
    lemma_auto_spec_u64_to_from_le_bytes, spec_u64_from_le_bytes, spec_u64_to_le_bytes,
    u32_from_le_bytes, u32_to_le_bytes, u64_from_le_bytes, u64_to_le_bytes,
};
use vstd::prelude::*;
use vstd::slice::slice_subrange;

use crate::clerk::{Clerk, ClerkV};
use crate::document::{Document, DocumentV};
use crate::instructions::is_unique;
use crate::pubkey::{
    lemma_pubkey_bytes_injective, lemma_pubkey_bytes_len, lemma_pubkey_bytes_round_trip,
    lemma_pubkey_from_byte_seq_round_trip, Pubkey,
};
use crate::space::{spec_clerk_space, spec_document_space};
use vstd::slice::slice_to_vec;

verus! {

/// The concatenated 32-byte forms of a key list.
pub open spec fn spec_keys_bytes(s: Seq<Pubkey>) -> Seq<u8>
    decreases s.len(),
{
    if s.len() == 0 {
        Seq::empty()
    } else {
        s[0].bytes() + spec_keys_bytes(s.drop_first())
    }
}

/// The concatenated 8-byte little-endian forms of a timestamp list.
pub open spec fn spec_stamps_bytes(s: Seq<u64>) -> Seq<u8>
    decreases s.len(),
{
    if s.len() == 0 {
        Seq::empty()
    } else {
        spec_u64_to_le_bytes(s[0]) + spec_stamps_bytes(s.drop_first())
    }
}

/// A key list's byte form is 32 bytes per key.
pub proof fn lemma_keys_bytes_len(s: Seq<Pubkey>)
    ensures
        spec_keys_bytes(s).len() == 32 * s.len(),
    decreases s.len(),
{
    if s.len() == 0 {
    } else {
        lemma_pubkey_bytes_len(s[0]);
        lemma_keys_bytes_len(s.drop_first());
    }
}

/// Appending a key appends its 32 bytes.
pub proof fn lemma_keys_bytes_push(s: Seq<Pubkey>, k: Pubkey)
    ensures
        spec_keys_bytes(s.push(k)) == spec_keys_bytes(s) + k.bytes(),
    decreases s.len(),
{
    if s.len() == 0 {
        assert(s.push(k).drop_first() =~= s);
        assert(s.push(k)[0] == k);
        assert(spec_keys_bytes(s.push(k)) =~= spec_keys_bytes(s) + k.bytes());
    } else {
        assert(s.push(k).drop_first() =~= s.drop_first().push(k));
        lemma_keys_bytes_push(s.drop_first(), k);
        assert(spec_keys_bytes(s.push(k)) =~= spec_keys_bytes(s) + k.bytes());
    }
}

/// Each key's 32 bytes sit at its own offset in the list's byte form.
pub proof fn lemma_keys_bytes_index(s: Seq<Pubkey>, i: int)
    requires
        0 <= i < s.len(),
    ensures
        spec_keys_bytes(s).subrange(32 * i, 32 * i + 32) == s[i].bytes(),
    decreases s.len(),
{
    lemma_keys_bytes_len(s);
    lemma_pubkey_bytes_len(s[0]);
    if i == 0 {
        lemma_keys_bytes_len(s.drop_first());
        assert(spec_keys_bytes(s).subrange(0, 32) =~= s[0].bytes());
    } else {
        lemma_keys_bytes_index(s.drop_first(), i - 1);
        lemma_keys_bytes_len(s.drop_first());
        assert(spec_keys_bytes(s).subrange(32 * i, 32 * i + 32) =~= spec_keys_bytes(
            s.drop_first(),
        ).subrange(32 * (i - 1), 32 * (i - 1) + 32));
    }
}

/// A byte block whose 32-byte pieces are the keys' byte forms is the key
/// list's byte form.
pub proof fn lemma_keys_bytes_eq(s: Seq<Pubkey>, b: Seq<u8>)
    requires
        b.len() == 32 * s.len(),
        forall|i: int| 0 <= i < s.len() ==> s[i].bytes() == b.subrange(32 * i, 32 * i + 32),
    ensures
        spec_keys_bytes(s) == b,
    decreases s.len(),
{
    if s.len() == 0 {
        assert(spec_keys_bytes(s) =~= b);
    } else {
        let t = s.drop_first();
        let c = b.skip(32);
        assert forall|i: int| 0 <= i < t.len() implies t[i].bytes() == c.subrange(
            32 * i,
            32 * i + 32,
        ) by {
            assert(t[i] == s[i + 1]);
            assert(s[i + 1].bytes() == b.subrange(32 * (i + 1), 32 * (i + 1) + 32));
            assert(c.subrange(32 * i, 32 * i + 32) =~= b.subrange(
                32 * (i + 1),
                32 * (i + 1) + 32,
            ));
        }
        lemma_keys_bytes_eq(t, c);
        assert(s[0].bytes() == b.subrange(0, 32));
        lemma_pubkey_bytes_len(s[0]);
        assert(spec_keys_bytes(s) =~= b);
    }
}

/// Appending a timestamp appends its 8 bytes.
pub proof fn lemma_stamps_bytes_push(s: Seq<u64>, t: u64)
    ensures
        spec_stamps_bytes(s.push(t)) == spec_stamps_bytes(s) + spec_u64_to_le_bytes(t),
    decreases s.len(),
{
    if s.len() == 0 {
        assert(s.push(t).drop_first() =~= s);
        assert(s.push(t)[0] == t);
        assert(spec_stamps_bytes(s.push(t)) =~= spec_stamps_bytes(s) + spec_u64_to_le_bytes(t));
    } else {
        assert(s.push(t).drop_first() =~= s.drop_first().push(t));
        lemma_stamps_bytes_push(s.drop_first(), t);
        assert(spec_stamps_bytes(s.push(t)) =~= spec_stamps_bytes(s) + spec_u64_to_le_bytes(t));
    }
}

/// A timestamp list's byte form is 8 bytes per entry.
pub proof fn lemma_stamps_bytes_len(s: Seq<u64>)
    ensures
        spec_stamps_bytes(s).len() == 8 * s.len(),
    decreases s.len(),
{
    if s.len() == 0 {
    } else {
        lemma_auto_spec_u64_to_from_le_bytes();
        lemma_stamps_bytes_len(s.drop_first());
    }
}

/// Each timestamp's 8 bytes sit at its own offset in the list's byte form.
pub proof fn lemma_stamps_bytes_index(s: Seq<u64>, i: int)
    requires
        0 <= i < s.len(),
    ensures
        spec_stamps_bytes(s).subrange(8 * i, 8 * i + 8) == spec_u64_to_le_bytes(s[i]),
    decreases s.len(),
{
    lemma_stamps_bytes_len(s);
    lemma_auto_spec_u64_to_from_le_bytes();
    if i == 0 {
        lemma_stamps_bytes_len(s.drop_first());
        assert(spec_stamps_bytes(s).subrange(0, 8) =~= spec_u64_to_le_bytes(s[0]));
    } else {
        lemma_stamps_bytes_index(s.drop_first(), i - 1);
        lemma_stamps_bytes_len(s.drop_first());
        assert(spec_stamps_bytes(s).subrange(8 * i, 8 * i + 8) =~= spec_stamps_bytes(
            s.drop_first(),
        ).subrange(8 * (i - 1), 8 * (i - 1) + 8));
    }
}

/// A byte block whose 8-byte pieces are the timestamps' byte forms is the
/// timestamp list's byte form.
pub proof fn lemma_stamps_bytes_eq(s: Seq<u64>, b: Seq<u8>)
    requires
        b.len() == 8 * s.len(),
        forall|i: int|
            0 <= i < s.len() ==> spec_u64_to_le_bytes(s[i]) == b.subrange(8 * i, 8 * i + 8),
    ensures
        spec_stamps_bytes(s) == b,
    decreases s.len(),
{
    lemma_auto_spec_u64_to_from_le_bytes();
    if s.len() == 0 {
        assert(spec_stamps_bytes(s) =~= b);
    } else {
        let t = s.drop_first();
        let c = b.skip(8);
        assert forall|i: int| 0 <= i < t.len() implies spec_u64_to_le_bytes(t[i]) == c.subrange(
            8 * i,
            8 * i + 8,
        ) by {
            assert(t[i] == s[i + 1]);
            assert(spec_u64_to_le_bytes(s[i + 1]) == b.subrange(8 * (i + 1), 8 * (i + 1) + 8));
            assert(c.subrange(8 * i, 8 * i + 8) =~= b.subrange(8 * (i + 1), 8 * (i + 1) + 8));
        }
        lemma_stamps_bytes_eq(t, c);
        assert(spec_u64_to_le_bytes(s[0]) == b.subrange(0, 8));
        assert(spec_stamps_bytes(s) =~= b);
    }
}

/// The persisted byte form of a clerk record: authority, length-prefixed
/// slot list, upgrade counter, bump nonce.
pub open spec fn spec_clerk_bytes(c: ClerkV) -> Seq<u8> {
    c.authority.bytes() + spec_u32_to_le_bytes(c.documents.len() as u32) + spec_keys_bytes(
        c.documents,
    ) + seq![c.upgrades] + seq![c.bump]
}

/// A clerk's byte form is its record footprint less the discriminator.
pub proof fn lemma_clerk_bytes_len(c: ClerkV)
    ensures
        spec_clerk_bytes(c).len() == 38 + 32 * c.documents.len(),
{
    lemma_pubkey_bytes_len(c.authority);
    lemma_auto_spec_u32_to_from_le_bytes();
    lemma_keys_bytes_len(c.documents);
}


/// The clerk layout pins the record: two well-formed clerks with the same
/// byte form have the same field values.
pub proof fn lemma_clerk_bytes_injective(a: ClerkV, b: ClerkV)
    requires
        a.wf(),
        b.wf(),
        spec_clerk_bytes(a) == spec_clerk_bytes(b),
    ensures
        a.authority == b.authority,
        a.documents == b.documents,
        a.upgrades == b.upgrades,
        a.bump == b.bump,
{
    let bytes = spec_clerk_bytes(a);
    lemma_auto_spec_u32_to_from_le_bytes();
    lemma_clerk_bytes_len(a);
    lemma_clerk_bytes_len(b);
    lemma_pubkey_bytes_len(a.authority);
    lemma_pubkey_bytes_len(b.authority);
    lemma_keys_bytes_len(a.documents);
    lemma_keys_bytes_len(b.documents);
    assert(bytes.subrange(32, 36) =~= spec_u32_to_le_bytes(a.documents.len() as u32));
    assert(spec_clerk_bytes(b).subrange(32, 36) =~= spec_u32_to_le_bytes(
        b.documents.len() as u32,
    ));
    assert(a.documents.len() == b.documents.len());
    let n = a.documents.len() as int;
    assert(bytes.subrange(0, 32) =~= a.authority.bytes());
    assert(spec_clerk_bytes(b).subrange(0, 32) =~= b.authority.bytes());
    lemma_pubkey_bytes_injective(a.authority, b.authority);
    assert(bytes.subrange(36, 36 + 32 * n) =~= spec_keys_bytes(a.documents));
    assert(spec_clerk_bytes(b).subrange(36, 36 + 32 * n) =~= spec_keys_bytes(b.documents));
    assert forall|i: int| 0 <= i < n implies a.documents[i] == b.documents[i] by {
        lemma_keys_bytes_index(a.documents, i);
        lemma_keys_bytes_index(b.documents, i);
        lemma_pubkey_bytes_injective(a.documents[i], b.documents[i]);
    }
    assert(a.documents =~= b.documents);
    assert(bytes[36 + 32 * n] == a.upgrades && bytes[36 + 32 * n] == b.upgrades);
    assert(bytes[37 + 32 * n] == a.bump && bytes[37 + 32 * n] == b.bump);
}

/// The document layout pins the record: two well-formed documents with the
/// same byte form have the same field values.
#[verifier::rlimit(100)]
pub proof fn lemma_document_bytes_injective(a: DocumentV, b: DocumentV)
    requires
        a.wf(),
        b.wf(),
        spec_document_bytes(a) == spec_document_bytes(b),
    ensures
        a == b,
{
    let bytes = spec_document_bytes(a);
    lemma_auto_spec_u32_to_from_le_bytes();
    lemma_auto_spec_u64_to_from_le_bytes();
    lemma_document_bytes_pieces(a, bytes);
    lemma_document_bytes_pieces(b, bytes);
    assert(a.title.len() == b.title.len());
    assert(a.uri.len() == b.uri.len());
    assert(a.participants.len() == b.participants.len());
    let t = a.title.len() as int;
    let u = a.uri.len() as int;
    let n = a.participants.len() as int;
    lemma_pubkey_bytes_injective(a.authority, b.authority);
    assert forall|i: int| 0 <= i < n implies a.participants[i] == b.participants[i] by {
        lemma_keys_bytes_index(a.participants, i);
        lemma_keys_bytes_index(b.participants, i);
        lemma_pubkey_bytes_injective(a.participants[i], b.participants[i]);
    }
    assert(a.participants =~= b.participants);
    assert forall|i: int| 0 <= i < n implies a.signature_timestamps[i]
        == b.signature_timestamps[i] by {
        lemma_stamps_bytes_index(a.signature_timestamps, i);
        lemma_stamps_bytes_index(b.signature_timestamps, i);
    }
    assert(a.signature_timestamps =~= b.signature_timestamps);
    assert(a.title =~= b.title);
    assert(a.uri =~= b.uri);
    assert(bytes[64 + t + u + 40 * n] == a.bump && bytes[64 + t + u + 40 * n] == b.bump);
}

/// Copies a byte list.
pub fn copy_bytes(v: &Vec<u8>) -> (r: Vec<u8>)
    ensures
        r@ == v@,
{
    let n = v.len();
    let mut r: Vec<u8> = Vec::new();
    let mut i: usize = 0;
    while i < n
        invariant
            0 <= i <= n,
            n == v@.len(),
            r@ =~= v@.take(i as int),
        decreases n - i,
    {
        r.push(v[i]);
        i = i + 1;
    }
    proof {
        assert(r@ =~= v@);
    }
    r
}

impl Clerk {
    /// Writes the record out in the persisted layout.
    pub fn to_bytes(&self) -> (r: Vec<u8>)
        requires
            self.wf(),
        ensures
            r@ == spec_clerk_bytes(self@),
            r@.len() + 8 == spec_clerk_space(self.documents@.len() as nat),
    {
        proof {
            lemma_auto_spec_u32_to_from_le_bytes();
            lemma_clerk_bytes_len(self@);
        }
        let mut out = self.authority.to_bytes();
        let mut len_bytes = u32_to_le_bytes(self.documents.len() as u32);
        out.append(&mut len_bytes);
        let ghost header = self.authority.bytes() + spec_u32_to_le_bytes(
            self.documents@.len() as u32,
        );
        let n = self.documents.len();
        let mut i: usize = 0;
        while i < n
            invariant
                0 <= i <= n,
                n == self.documents@.len(),
                out@ == header + spec_keys_bytes(self.documents@.take(i as int)),
            decreases n - i,
        {
            let mut kb = self.documents[i].to_bytes();
            out.append(&mut kb);
            proof {
                let s = self.documents@;
                assert(s.take(i + 1) =~= s.take(i as int).push(s[i as int]));
                lemma_keys_bytes_push(s.take(i as int), s[i as int]);
            }
            i = i + 1;
        }
        out.push(self.upgrades);
        out.push(self.bump);
        proof {
            assert(self.documents@.take(n as int) =~= self.documents@);
            assert(out@ =~= spec_clerk_bytes(self@));
        }
        out
    }

    /// Reads a record back from the persisted layout: the bytes parse
    /// exactly when they are the byte form of some well-formed clerk, and
    /// then to that clerk's field values.
    pub fn from_bytes(bytes: &Vec<u8>) -> (r: Option<Clerk>)
        ensures
            r matches Some(c) ==> c.wf() && bytes@ == spec_clerk_bytes(c@),
            forall|cv: ClerkV|
                cv.wf() && bytes@ == spec_clerk_bytes(cv) ==> (r matches Some(c) && c@ == cv),
    {
        proof {
            lemma_auto_spec_u32_to_from_le_bytes();
            assert forall|cv: ClerkV| bytes@ == spec_clerk_bytes(cv) implies bytes@.len() == 38
                + 32 * cv.documents.len() && bytes@.subrange(32, 36) == spec_u32_to_le_bytes(
                cv.documents.len() as u32,
            ) && bytes@.subrange(0, 32) == cv.authority.bytes() && bytes@.subrange(
                36,
                36 + 32 * cv.documents.len() as int,
            ) == spec_keys_bytes(cv.documents) by {
                lemma_clerk_bytes_len(cv);
                lemma_pubkey_bytes_len(cv.authority);
                lemma_keys_bytes_len(cv.documents);
                assert(bytes@.subrange(32, 36) =~= spec_u32_to_le_bytes(
                    cv.documents.len() as u32,
                ));
                assert(bytes@.subrange(0, 32) =~= cv.authority.bytes());
                assert(bytes@.subrange(36, 36 + 32 * cv.documents.len() as int)
                    =~= spec_keys_bytes(cv.documents));
            }
        }
        let len = bytes.len();
        if len < 38 {
            return None;
        }
        let n64 = u32_from_le_bytes(slice_subrange(bytes.as_slice(), 32, 36)) as u64;
        if (len as u64) != 38u64 + 32u64 * n64 {
            return None;
        }
        let n = n64 as usize;
        if n > (usize::MAX - 46) / 32 {
            return None;
        }
        let authority = Pubkey::from_bytes(slice_subrange(bytes.as_slice(), 0, 32));
        let mut documents: Vec<Pubkey> = Vec::new();
        let mut i: usize = 0;
        while i < n
            invariant
                0 <= i <= n,
                len == bytes@.len(),
                len == 38 + 32 * n,
                documents@.len() == i,
                forall|j: int|
                    0 <= j < i ==> documents@[j] == Pubkey::from_byte_seq(
                        bytes@.subrange(36 + 32 * j, 36 + 32 * j + 32),
                    ),
            decreases n - i,
        {
            let off = 36 + 32 * i;
            let k = Pubkey::from_bytes(slice_subrange(bytes.as_slice(), off, off + 32));
            documents.push(k);
            i = i + 1;
        }
        let upgrades = bytes[len - 2];
        let bump = bytes[len - 1];
        let c = Clerk { authority, documents, upgrades, bump };
        proof {
            // The parsed fields re-encode to the input bytes.
            assert forall|j: int| 0 <= j < n implies c@.documents[j].bytes() == bytes@.subrange(
                36,
                36 + 32 * (n as int),
            ).subrange(32 * j, 32 * j + 32) by {
                lemma_pubkey_from_byte_seq_round_trip(
                    bytes@.subrange(36 + 32 * j, 36 + 32 * j + 32),
                );
                assert(bytes@.subrange(36, 36 + 32 * (n as int)).subrange(32 * j, 32 * j + 32)
                    =~= bytes@.subrange(36 + 32 * j, 36 + 32 * j + 32));
            }
            lemma_keys_bytes_eq(c@.documents, bytes@.subrange(36, 36 + 32 * (n as int)));
            lemma_pubkey_from_byte_seq_round_trip(bytes@.subrange(0, 32));
            assert(spec_u32_to_le_bytes(n as u32) == bytes@.subrange(32, 36));
            assert(bytes@ =~= spec_clerk_bytes(c@));
            // Any well-formed clerk with these bytes has exactly these
            // field values.
            assert forall|cv: ClerkV| cv.wf() && bytes@ == spec_clerk_bytes(cv) implies c@
                == cv by {
                lemma_clerk_bytes_len(cv);
                assert(cv.documents.len() == n);
                lemma_pubkey_bytes_round_trip(cv.authority);
                assert(c@.authority == cv.authority);
                assert forall|j: int| 0 <= j < n implies c@.documents[j] == cv.documents[j] by {
                    lemma_keys_bytes_index(cv.documents, j);
                    assert(bytes@.subrange(36 + 32 * j, 36 + 32 * j + 32) =~= spec_keys_bytes(
                        cv.documents,
                    ).subrange(32 * j, 32 * j + 32));
                    lemma_pubkey_bytes_round_trip(cv.documents[j]);
                }
                assert(c@.documents =~= cv.documents);
                assert(spec_clerk_bytes(cv)[bytes@.len() - 2] == cv.upgrades);
                assert(spec_clerk_bytes(cv)[bytes@.len() - 1] == cv.bump);
            }
        }
        Some(c)
    }
}

/// The persisted byte form of a document record: authority,
/// length-prefixed title and locator, creation timestamp, length-prefixed
/// participant and signature-timestamp lists, finalization timestamp,
/// bump nonce.
pub open spec fn spec_document_bytes(d: DocumentV) -> Seq<u8> {
    d.authority.bytes() + spec_u32_to_le_bytes(d.title.len() as u32) + d.title
        + spec_u32_to_le_bytes(d.uri.len() as u32) + d.uri + spec_u64_to_le_bytes(d.created_at)
        + spec_u32_to_le_bytes(d.participants.len() as u32) + spec_keys_bytes(d.participants)
        + spec_u32_to_le_bytes(d.signature_timestamps.len() as u32) + spec_stamps_bytes(
        d.signature_timestamps,
    ) + spec_u64_to_le_bytes(d.finalization_timestamp) + seq![d.bump]
}

/// Where each field of a document sits in its byte form.
#[verifier::rlimit(50)]
pub proof fn lemma_document_bytes_pieces(d: DocumentV, b: Seq<u8>)
    requires
        b == spec_document_bytes(d),
    ensures
        b.len() == 65 + d.title.len() + d.uri.len() + 32 * d.participants.len() + 8
            * d.signature_timestamps.len(),
        b.subrange(0, 32) == d.authority.bytes(),
        b.subrange(32, 36) == spec_u32_to_le_bytes(d.title.len() as u32),
        b.subrange(36, 36 + d.title.len() as int) == d.title,
        b.subrange(36 + d.title.len() as int, 40 + d.title.len() as int) == spec_u32_to_le_bytes(
            d.uri.len() as u32,
        ),
        b.subrange(
            40 + d.title.len() as int,
            40 + d.title.len() as int + d.uri.len() as int,
        ) == d.uri,
        b.subrange(
            40 + d.title.len() as int + d.uri.len() as int,
            48 + d.title.len() as int + d.uri.len() as int,
        ) == spec_u64_to_le_bytes(d.created_at),
        b.subrange(
            48 + d.title.len() as int + d.uri.len() as int,
            52 + d.title.len() as int + d.uri.len() as int,
        ) == spec_u32_to_le_bytes(d.participants.len() as u32),
        b.subrange(
            52 + d.title.len() as int + d.uri.len() as int,
            52 + d.title.len() as int + d.uri.len() as int + 32 * d.participants.len() as int,
        ) == spec_keys_bytes(d.participants),
        b.subrange(
            52 + d.title.len() as int + d.uri.len() as int + 32 * d.participants.len() as int,
            56 + d.title.len() as int + d.uri.len() as int + 32 * d.participants.len() as int,
        ) == spec_u32_to_le_bytes(d.signature_timestamps.len() as u32),
        b.subrange(
            56 + d.title.len() as int + d.uri.len() as int + 32 * d.participants.len() as int,
            56 + d.title.len() as int + d.uri.len() as int + 32 * d.participants.len() as int + 8
                * d.signature_timestamps.len() as int,
        ) == spec_stamps_bytes(d.signature_timestamps),
        b.subrange(
            56 + d.title.len() as int + d.uri.len() as int + 32 * d.participants.len() as int + 8
                * d.signature_timestamps.len() as int,
            64 + d.title.len() as int + d.uri.len() as int + 32 * d.participants.len() as int + 8
                * d.signature_timestamps.len() as int,
        ) == spec_u64_to_le_bytes(d.finalization_timestamp),
        b[64 + d.title.len() as int + d.uri.len() as int + 32 * d.participants.len() as int + 8
            * d.signature_timestamps.len() as int] == d.bump,
{
    lemma_pubkey_bytes_len(d.authority);
    lemma_auto_spec_u32_to_from_le_bytes();
    lemma_auto_spec_u64_to_from_le_bytes();
    lemma_keys_bytes_len(d.participants);
    lemma_stamps_bytes_len(d.signature_timestamps);
    let t = d.title.len() as int;
    let u = d.uri.len() as int;
    let n = d.participants.len() as int;
    let m = d.signature_timestamps.len() as int;
    assert(b.subrange(0, 32) =~= d.authority.bytes());
    assert(b.subrange(32, 36) =~= spec_u32_to_le_bytes(d.title.len() as u32));
    assert(b.subrange(36, 36 + t) =~= d.title);
    assert(b.subrange(36 + t, 40 + t) =~= spec_u32_to_le_bytes(d.uri.len() as u32));
    assert(b.subrange(40 + t, 40 + t + u) =~= d.uri);
    assert(b.subrange(40 + t + u, 48 + t + u) =~= spec_u64_to_le_bytes(d.created_at));
    assert(b.subrange(48 + t + u, 52 + t + u) =~= spec_u32_to_le_bytes(
        d.participants.len() as u32,
    ));
    assert(b.subrange(52 + t + u, 52 + t + u + 32 * n) =~= spec_keys_bytes(d.participants));
    assert(b.subrange(52 + t + u + 32 * n, 56 + t + u + 32 * n) =~= spec_u32_to_le_bytes(
        d.signature_timestamps.len() as u32,
    ));
    assert(b.subrange(56 + t + u + 32 * n, 56 + t + u + 32 * n + 8 * m) =~= spec_stamps_bytes(
        d.signature_timestamps,
    ));
    assert(b.subrange(56 + t + u + 32 * n + 8 * m, 64 + t + u + 32 * n + 8 * m)
        =~= spec_u64_to_le_bytes(d.finalization_timestamp));
}

impl Document {
    /// Writes the record out in the persisted layout.
    pub fn to_bytes(&self) -> (r: Vec<u8>)
        requires
            self.wf(),
        ensures
            r@ == spec_document_bytes(self@),
            r@.len() + 8 == spec_document_space(
                self.title@.len() as nat,
                self.uri@.len() as nat,
                self.participants@.len() as nat,
            ),
    {
        proof {
            lemma_auto_spec_u32_to_from_le_bytes();
            lemma_auto_spec_u64_to_from_le_bytes();
            lemma_keys_bytes_len(self.participants@);
            lemma_stamps_bytes_len(self.signature_timestamps@);
            lemma_pubkey_bytes_len(self.authority);
        }
        let mut out = self.authority.to_bytes();
        let mut piece = u32_to_le_bytes(self.title.len() as u32);
        out.append(&mut piece);
        let mut title_copy = copy_bytes(&self.title);
        out.append(&mut title_copy);
        let mut piece = u32_to_le_bytes(self.uri.len() as u32);
        out.append(&mut piece);
        let mut uri_copy = copy_bytes(&self.uri);
        out.append(&mut uri_copy);
        let mut piece = u64_to_le_bytes(self.created_at);
        out.append(&mut piece);
        let mut piece = u32_to_le_bytes(self.participants.len() as u32);
        out.append(&mut piece);
        let ghost keys_prefix = out@;
        let n = self.participants.len();
        let mut i: usize = 0;
        while i < n
            invariant
                0 <= i <= n,
                n == self.participants@.len(),
                out@ == keys_prefix + spec_keys_bytes(self.participants@.take(i as int)),
            decreases n - i,
        {
            let mut kb = self.participants[i].to_bytes();
            out.append(&mut kb);
            proof {
                let s = self.participants@;
                assert(s.take(i + 1) =~= s.take(i as int).push(s[i as int]));
                lemma_keys_bytes_push(s.take(i as int), s[i as int]);
            }
            i = i + 1;
        }
        proof {
            assert(self.participants@.take(n as int) =~= self.participants@);
        }
        let mut piece = u32_to_le_bytes(self.signature_timestamps.len() as u32);
        out.append(&mut piece);
        let ghost stamps_prefix = out@;
        let m = self.signature_timestamps.len();
        let mut j: usize = 0;
        while j < m
            invariant
                0 <= j <= m,
                m == self.signature_timestamps@.len(),
                out@ == stamps_prefix + spec_stamps_bytes(
                    self.signature_timestamps@.take(j as int),
                ),
            decreases m - j,
        {
            let mut sb = u64_to_le_bytes(self.signature_timestamps[j]);
            out.append(&mut sb);
            proof {
                let s = self.signature_timestamps@;
                assert(s.take(j + 1) =~= s.take(j as int).push(s[j as int]));
                lemma_stamps_bytes_push(s.take(j as int), s[j as int]);
            }
            j = j + 1;
        }
        proof {
            assert(self.signature_timestamps@.take(m as int) =~= self.signature_timestamps@);
        }
        let mut piece = u64_to_le_bytes(self.finalization_timestamp);
        out.append(&mut piece);
        out.push(self.bump);
        proof {
            assert(out@ =~= spec_document_bytes(self@));
            lemma_document_bytes_pieces(self@, out@);
        }
        out
    }
}


/// Copies the byte range `lo..hi` out of `bytes`.
fn bytes_range(bytes: &Vec<u8>, lo: usize, hi: usize) -> (r: Vec<u8>)
    requires
        lo <= hi <= bytes@.len(),
    ensures
        r@ == bytes@.subrange(lo as int, hi as int),
{
    slice_to_vec(slice_subrange(bytes.as_slice(), lo, hi))
}

impl Document {
    /// Reads a record back from the persisted layout: the bytes parse
    /// exactly when they are the byte form of some well-formed document,
    /// and then to that document's field values.
    #[verifier::rlimit(100)]
    pub fn from_bytes(bytes: &Vec<u8>) -> (r: Option<Document>)
        ensures
            r matches Some(d) ==> d.wf() && bytes@ == spec_document_bytes(d@),
            forall|dv: DocumentV|
                dv.wf() && bytes@ == spec_document_bytes(dv) ==> (r matches Some(d) && d@ == dv),
    {
        proof {
            lemma_auto_spec_u32_to_from_le_bytes();
            lemma_auto_spec_u64_to_from_le_bytes();
        }
        let len = bytes.len();
        if len < 66 {
            proof {
                assert forall|dv: DocumentV|
                    dv.wf() && bytes@ == spec_document_bytes(dv) implies false by {
                    lemma_document_bytes_pieces(dv, bytes@);
                }
            }
            return None;
        }
        let tl64 = u32_from_le_bytes(slice_subrange(bytes.as_slice(), 32, 36)) as u64;
        if tl64 == 0 || (len as u64) < 40 + tl64 {
            proof {
                assert forall|dv: DocumentV|
                    dv.wf() && bytes@ == spec_document_bytes(dv) implies false by {
                    lemma_document_bytes_pieces(dv, bytes@);
                }
            }
            return None;
        }
        let tl = tl64 as usize;
        let ul64 = u32_from_le_bytes(slice_subrange(bytes.as_slice(), 36 + tl, 40 + tl)) as u64;
        if (len as u64) < 52 + tl64 + ul64 {
            proof {
                assert forall|dv: DocumentV|
                    dv.wf() && bytes@ == spec_document_bytes(dv) implies false by {
                    lemma_document_bytes_pieces(dv, bytes@);
                }
            }
            return None;
        }
        let ul = ul64 as usize;
        let n64 = u32_from_le_bytes(
            slice_subrange(bytes.as_slice(), 48 + tl + ul, 52 + tl + ul),
        ) as u64;
        if (len as u64) < 56 + tl64 + ul64 + 32 * n64 {
            proof {
                assert forall|dv: DocumentV|
                    dv.wf() && bytes@ == spec_document_bytes(dv) implies false by {
                    lemma_document_bytes_pieces(dv, bytes@);
                }
            }
            return None;
        }
        let n = n64 as usize;
        let m64 = u32_from_le_bytes(
            slice_subrange(bytes.as_slice(), 52 + tl + ul + 32 * n, 56 + tl + ul + 32 * n),
        ) as u64;
        if m64 != n64 || (len as u64) != 65 + tl64 + ul64 + 40 * n64 {
            proof {
                assert forall|dv: DocumentV|
                    dv.wf() && bytes@ == spec_document_bytes(dv) implies false by {
                    lemma_document_bytes_pieces(dv, bytes@);
                }
            }
            return None;
        }
        let authority = Pubkey::from_bytes(slice_subrange(bytes.as_slice(), 0, 32));
        let title = bytes_range(bytes, 36, 36 + tl);
        let uri = bytes_range(bytes, 40 + tl, 40 + tl + ul);
        let created_at = u64_from_le_bytes(
            slice_subrange(bytes.as_slice(), 40 + tl + ul, 48 + tl + ul),
        );
        let pbase = 52 + tl + ul;
        let mut participants: Vec<Pubkey> = Vec::new();
        let mut i: usize = 0;
        while i < n
            invariant
                0 <= i <= n,
                len == bytes@.len(),
                len == 65 + tl + ul + 40 * n,
                pbase == 52 + tl + ul,
                participants@.len() == i,
                forall|j: int|
                    0 <= j < i ==> participants@[j] == Pubkey::from_byte_seq(
                        bytes@.subrange(pbase + 32 * j, pbase + 32 * j + 32),
                    ),
            decreases n - i,
        {
            let off = pbase + 32 * i;
            participants.push(Pubkey::from_bytes(slice_subrange(bytes.as_slice(), off, off + 32)));
            i = i + 1;
        }
        let sbase = 56 + tl + ul + 32 * n;
        let mut signature_timestamps: Vec<u64> = Vec::new();
        let mut j: usize = 0;
        while j < n
            invariant
                0 <= j <= n,
                len == bytes@.len(),
                len == 65 + tl + ul + 40 * n,
                sbase == 56 + tl + ul + 32 * n,
                signature_timestamps@.len() == j,
                forall|k: int|
                    0 <= k < j ==> signature_timestamps@[k] == spec_u64_from_le_bytes(
                        bytes@.subrange(sbase + 8 * k, sbase + 8 * k + 8),
                    ),
            decreases n - j,
        {
            let off = sbase + 8 * j;
            signature_timestamps.push(
                u64_from_le_bytes(slice_subrange(bytes.as_slice(), off, off + 8)),
            );
            j = j + 1;
        }
        let fbase = sbase + 8 * n;
        let finalization_timestamp = u64_from_le_bytes(
            slice_subrange(bytes.as_slice(), fbase, fbase + 8),
        );
        let bump = bytes[len - 1];
        if !is_unique(&participants) {
            proof {
                assert forall|dv: DocumentV|
                    dv.wf() && bytes@ == spec_document_bytes(dv) implies false by {
                    lemma_document_bytes_pieces(dv, bytes@);
                    assert(dv.title.len() == tl && dv.uri.len() == ul && dv.participants.len()
                        == n);
                    assert forall|k: int| 0 <= k < n implies participants@[k]
                        == dv.participants[k] by {
                        lemma_keys_bytes_index(dv.participants, k);
                        assert(bytes@.subrange(pbase + 32 * k, pbase + 32 * k + 32)
                            =~= spec_keys_bytes(dv.participants).subrange(32 * k, 32 * k + 32));
                        lemma_pubkey_bytes_round_trip(dv.participants[k]);
                    }
                    assert(participants@ =~= dv.participants);
                }
            }
            return None;
        }
        let d = Document {
            authority,
            title,
            uri,
            created_at,
            participants,
            signature_timestamps,
            finalization_timestamp,
            bump,
        };
        proof {
            let t_ = tl as int;
            let u_ = ul as int;
            let n_ = n as int;
            let bv = bytes@;
            // The parsed fields re-encode to the input bytes.
            lemma_pubkey_from_byte_seq_round_trip(bv.subrange(0, 32));
            assert forall|k: int| 0 <= k < n_ implies d@.participants[k].bytes() == bv.subrange(
                52 + t_ + u_,
                52 + t_ + u_ + 32 * n_,
            ).subrange(32 * k, 32 * k + 32) by {
                lemma_pubkey_from_byte_seq_round_trip(
                    bv.subrange(52 + t_ + u_ + 32 * k, 52 + t_ + u_ + 32 * k + 32),
                );
                assert(bv.subrange(52 + t_ + u_, 52 + t_ + u_ + 32 * n_).subrange(
                    32 * k,
                    32 * k + 32,
                ) =~= bv.subrange(52 + t_ + u_ + 32 * k, 52 + t_ + u_ + 32 * k + 32));
            }
            lemma_keys_bytes_eq(
                d@.participants,
                bv.subrange(52 + t_ + u_, 52 + t_ + u_ + 32 * n_),
            );
            assert forall|k: int| 0 <= k < n_ implies spec_u64_to_le_bytes(
                d@.signature_timestamps[k],
            ) == bv.subrange(56 + t_ + u_ + 32 * n_, 56 + t_ + u_ + 40 * n_).subrange(
                8 * k,
                8 * k + 8,
            ) by {
                assert(bv.subrange(56 + t_ + u_ + 32 * n_, 56 + t_ + u_ + 40 * n_).subrange(
                    8 * k,
                    8 * k + 8,
                ) =~= bv.subrange(
                    56 + t_ + u_ + 32 * n_ + 8 * k,
                    56 + t_ + u_ + 32 * n_ + 8 * k + 8,
                ));
            }
            lemma_stamps_bytes_eq(
                d@.signature_timestamps,
                bv.subrange(56 + t_ + u_ + 32 * n_, 56 + t_ + u_ + 40 * n_),
            );
            let s = spec_document_bytes(d@);
            lemma_document_bytes_pieces(d@, s);
            assert(spec_u32_to_le_bytes(d@.title.len() as u32) == bv.subrange(32, 36));
            assert(spec_u32_to_le_bytes(d@.uri.len() as u32) == bv.subrange(36 + t_, 40 + t_));
            assert(spec_u32_to_le_bytes(d@.participants.len() as u32) == bv.subrange(
                48 + t_ + u_,
                52 + t_ + u_,
            ));
            assert(spec_u32_to_le_bytes(d@.signature_timestamps.len() as u32) == bv.subrange(
                52 + t_ + u_ + 32 * n_,
                56 + t_ + u_ + 32 * n_,
            ));
            assert(spec_u64_to_le_bytes(d@.created_at) == bv.subrange(
                40 + t_ + u_,
                48 + t_ + u_,
            ));
            assert(spec_u64_to_le_bytes(d@.finalization_timestamp) == bv.subrange(
                56 + t_ + u_ + 40 * n_,
                64 + t_ + u_ + 40 * n_,
            ));
            assert(s.len() == bv.len());
            assert forall|x: int| 0 <= x < bv.len() implies bv[x] == s[x] by {
                if x < 32 {
                    assert(bv.subrange(0, 32)[x] == s.subrange(0, 32)[x]);
                } else if x < 36 {
                    assert(bv.subrange(32, 36)[x - 32] == s.subrange(32, 36)[x - 32]);
                } else if x < 36 + t_ {
                    assert(bv.subrange(36, 36 + t_)[x - 36] == s.subrange(36, 36 + t_)[x - 36]);
                } else if x < 40 + t_ {
                    assert(bv.subrange(36 + t_, 40 + t_)[x - 36 - t_] == s.subrange(
                        36 + t_,
                        40 + t_,
                    )[x - 36 - t_]);
                } else if x < 40 + t_ + u_ {
                    assert(bv.subrange(40 + t_, 40 + t_ + u_)[x - 40 - t_] == s.subrange(
                        40 + t_,
                        40 + t_ + u_,
                    )[x - 40 - t_]);
                } else if x < 48 + t_ + u_ {
                    assert(bv.subrange(40 + t_ + u_, 48 + t_ + u_)[x - 40 - t_ - u_]
                        == s.subrange(40 + t_ + u_, 48 + t_ + u_)[x - 40 - t_ - u_]);
                } else if x < 52 + t_ + u_ {
                    assert(bv.subrange(48 + t_ + u_, 52 + t_ + u_)[x - 48 - t_ - u_]
                        == s.subrange(48 + t_ + u_, 52 + t_ + u_)[x - 48 - t_ - u_]);
                } else if x < 52 + t_ + u_ + 32 * n_ {
                    assert(bv.subrange(52 + t_ + u_, 52 + t_ + u_ + 32 * n_)[x - 52 - t_ - u_]
                        == s.subrange(52 + t_ + u_, 52 + t_ + u_ + 32 * n_)[x - 52 - t_ - u_]);
                } else if x < 56 + t_ + u_ + 32 * n_ {
                    assert(bv.subrange(52 + t_ + u_ + 32 * n_, 56 + t_ + u_ + 32 * n_)[x - 52
                        - t_ - u_ - 32 * n_] == s.subrange(
                        52 + t_ + u_ + 32 * n_,
                        56 + t_ + u_ + 32 * n_,
                    )[x - 52 - t_ - u_ - 32 * n_]);
                } else if x < 56 + t_ + u_ + 40 * n_ {
                    assert(bv.subrange(56 + t_ + u_ + 32 * n_, 56 + t_ + u_ + 40 * n_)[x - 56
                        - t_ - u_ - 32 * n_] == s.subrange(
                        56 + t_ + u_ + 32 * n_,
                        56 + t_ + u_ + 40 * n_,
                    )[x - 56 - t_ - u_ - 32 * n_]);
                } else if x < 64 + t_ + u_ + 40 * n_ {
                    assert(bv.subrange(56 + t_ + u_ + 40 * n_, 64 + t_ + u_ + 40 * n_)[x - 56
                        - t_ - u_ - 40 * n_] == s.subrange(
                        56 + t_ + u_ + 40 * n_,
                        64 + t_ + u_ + 40 * n_,
                    )[x - 56 - t_ - u_ - 40 * n_]);
                } else {
                    assert(s[64 + t_ + u_ + 40 * n_] == d@.bump);
                }
            }
            assert(bv =~= s);
            // Any well-formed document with these bytes has exactly these
            // field values.
            assert forall|dv: DocumentV| dv.wf() && bv == spec_document_bytes(dv) implies d@
                == dv by {
                lemma_document_bytes_pieces(dv, bv);
                assert(dv.title.len() == tl && dv.uri.len() == ul && dv.participants.len() == n
                    && dv.signature_timestamps.len() == n);
                lemma_pubkey_bytes_round_trip(dv.authority);
                assert forall|k: int| 0 <= k < n_ implies d@.participants[k]
                    == dv.participants[k] by {
                    lemma_keys_bytes_index(dv.participants, k);
                    assert(bv.subrange(52 + t_ + u_ + 32 * k, 52 + t_ + u_ + 32 * k + 32)
                        =~= spec_keys_bytes(dv.participants).subrange(32 * k, 32 * k + 32));
                    lemma_pubkey_bytes_round_trip(dv.participants[k]);
                }
                assert(d@.participants =~= dv.participants);
                assert forall|k: int| 0 <= k < n_ implies d@.signature_timestamps[k]
                    == dv.signature_timestamps[k] by {
                    lemma_stamps_bytes_index(dv.signature_timestamps, k);
                    assert(bv.subrange(
                        56 + t_ + u_ + 32 * n_ + 8 * k,
                        56 + t_ + u_ + 32 * n_ + 8 * k + 8,
                    ) =~= spec_stamps_bytes(dv.signature_timestamps).subrange(8 * k, 8 * k + 8));
                }
                assert(d@.signature_timestamps =~= dv.signature_timestamps);
                assert(d@.title =~= dv.title);
                assert(d@.uri =~= dv.uri);
                assert(bv[64 + t_ + u_ + 40 * n_] == dv.bump);
            }
        }
        Some(d)
    }
}


} // verus!
