//! The multi-party agreement record and its signature state machine.
//!
//! A document is created with a fixed title, locator and authority, a
//! non-empty list of pairwise-distinct participants, and one signature
//! timestamp slot per participant.  A zero timestamp means "not yet signed";
//! a non-zero `finalization_timestamp` marks the record finalized and, from
//! then on, immutable to the workflow.

use vstd::prelude::*;

use crate::error::ErrorCode;
use crate::pubkey::{find_key, find_key_index, lemma_find_key, unique_keys, Pubkey};
use crate::seeds::{document_tag, spec_document_tag};
use crate::space::spec_document_space;

verus! {

/// The longest prefix of a document title that takes part in address
/// derivation.
pub const TITLE_SEED_LEN: usize = 32;

/// The mathematical value of a document record: its fields, with the
/// variable-length fields as sequences.
pub struct DocumentV {
    /// The authority key.
    pub authority: Pubkey,
    /// The title bytes.
    pub title: Seq<u8>,
    /// The locator bytes.
    pub uri: Seq<u8>,
    /// The creation timestamp.
    pub created_at: u64,
    /// The participant keys.
    pub participants: Seq<Pubkey>,
    /// The signature timestamps, index-aligned with the participants.
    pub signature_timestamps: Seq<u64>,
    /// The finalization timestamp; zero while open.
    pub finalization_timestamp: u64,
    /// The bump nonce.
    pub bump: u8,
}

impl DocumentV {
    /// The record shape every operation preserves, stated of the
    /// mathematical value.
    pub open spec fn wf(self) -> bool {
        &&& self.signature_timestamps.len() == self.participants.len()
        &&& unique_keys(self.participants)
        &&& self.title.len() > 0
        &&& self.title.len() <= u32::MAX
        &&& self.uri.len() <= u32::MAX
        &&& self.participants.len() <= u32::MAX
    }
}

/// The agreement record: participants, their signature timestamps and the
/// single finalization timestamp.
#[derive(Debug, PartialEq, Eq)]
pub struct Document {
    /// The public key of the wallet that created the document.
    pub authority: Pubkey,
    /// The immutable title of the document, as bytes.
    pub title: Vec<u8>,
    /// The content locator of the agreement, opaque to the workflow.
    pub uri: Vec<u8>,
    /// The unix timestamp of when the document was created.
    pub created_at: u64,
    /// The public keys that are required to sign.
    pub participants: Vec<Pubkey>,
    /// One entry per participant, index-aligned; zero means "not signed".
    pub signature_timestamps: Vec<u64>,
    /// Zero while the document is open; the finalization time once set.
    pub finalization_timestamp: u64,
    /// The address bump nonce found during derivation.
    pub bump: u8,
}

/// The title fragment that enters address derivation: the title, truncated
/// to its first `TITLE_SEED_LEN` bytes.
pub open spec fn spec_title_seed(title: Seq<u8>) -> Seq<u8> {
    if title.len() > TITLE_SEED_LEN {
        title.take(TITLE_SEED_LEN as int)
    } else {
        title
    }
}

impl View for Document {
    type V = DocumentV;

    open spec fn view(&self) -> DocumentV {
        DocumentV {
            authority: self.authority,
            title: self.title@,
            uri: self.uri@,
            created_at: self.created_at,
            participants: self.participants@,
            signature_timestamps: self.signature_timestamps@,
            finalization_timestamp: self.finalization_timestamp,
            bump: self.bump,
        }
    }
}

impl Document {
    /// The record shape every operation preserves: one timestamp slot per
    /// participant, distinct participants, a non-empty title, and field
    /// lengths that fit the layout's 32-bit length prefixes.
    pub open spec fn wf(self) -> bool {
        &&& self.signature_timestamps@.len() == self.participants@.len()
        &&& unique_keys(self.participants@)
        &&& self.title@.len() > 0
        &&& self.title@.len() <= u32::MAX
        &&& self.uri@.len() <= u32::MAX
        &&& self.participants@.len() <= u32::MAX
    }

    /// Whether the document has been finalized.
    pub open spec fn spec_is_finalized(self) -> bool {
        self.finalization_timestamp != 0
    }

    /// Whether every participant's signature timestamp is set.
    pub open spec fn spec_has_all_signatures(self) -> bool {
        forall|i: int|
            0 <= i < self.signature_timestamps@.len() ==> self.signature_timestamps@[i] > 0
    }

    /// Exact byte footprint of a `Document` record with the argued title,
    /// locator and participant list sizes.
    pub fn space(title_size: usize, uri_size: usize, part_size: usize) -> (r: usize)
        requires
            spec_document_space(title_size as nat, uri_size as nat, part_size as nat)
                <= usize::MAX,
        ensures
            r == spec_document_space(title_size as nat, uri_size as nat, part_size as nat),
    {
        8 + 32 + (4 + title_size) + (4 + uri_size) + 8 + (4 + 32 * part_size) + (4 + 8
            * part_size) + 8 + 1
    }

    /// The usable address seed of a full document title: its first
    /// `TITLE_SEED_LEN` bytes.
    pub fn title_seed(title: &Vec<u8>) -> (r: Vec<u8>)
        ensures
            r@ == spec_title_seed(title@),
    {
        let n = title.len();
        let limit = if n > TITLE_SEED_LEN {
            TITLE_SEED_LEN
        } else {
            n
        };
        let mut r: Vec<u8> = Vec::new();
        let mut i: usize = 0;
        while i < limit
            invariant
                0 <= i <= limit,
                limit <= title@.len(),
                r@ =~= title@.take(i as int),
            decreases limit - i,
        {
            r.push(title[i]);
            i = i + 1;
        }
        proof {
            assert(r@ =~= spec_title_seed(title@));
        }
        r
    }

    /// Checks whether all required participants have submitted signatures.
    pub fn has_all_signatures(&self) -> (r: bool)
        ensures
            r == self.spec_has_all_signatures(),
    {
        let n = self.signature_timestamps.len();
        let mut i: usize = 0;
        while i < n
            invariant
                0 <= i <= n,
                n == self.signature_timestamps@.len(),
                forall|j: int| 0 <= j < i ==> self.signature_timestamps@[j] > 0,
            decreases n - i,
        {
            if self.signature_timestamps[i] == 0 {
                return false;
            }
            i = i + 1;
        }
        true
    }

    /// Whether the document has been finalized by its creator.
    pub fn is_finalized(&self) -> (r: bool)
        ensures
            r == self.spec_is_finalized(),
    {
        self.finalization_timestamp != 0
    }

    /// The seed list under which this record signs: its namespace tag, its
    /// authority's bytes, its bounded title fragment and its bump nonce.
    pub fn signer_seeds(&self) -> (r: Vec<Vec<u8>>)
        ensures
            r@.len() == 4,
            r@[0]@ == spec_document_tag(),
            r@[1]@ == self.authority.bytes(),
            r@[2]@ == spec_title_seed(self.title@),
            r@[3]@ == seq![self.bump],
    {
        let mut bump_seed: Vec<u8> = Vec::new();
        bump_seed.push(self.bump);
        let mut r: Vec<Vec<u8>> = Vec::new();
        r.push(document_tag());
        r.push(self.authority.to_bytes());
        r.push(Self::title_seed(&self.title));
        r.push(bump_seed);
        proof {
            assert(r@[3]@ =~= seq![self.bump]);
        }
        r
    }

    /// Finds the index of the argued participant public key; the key is not
    /// associated with the document when no index exists.
    pub fn try_find_participant(&self, participant: &Pubkey) -> (r: Result<usize, ErrorCode>)
        ensures
            self.participants@.contains(*participant) ==> (r matches Ok(i) && i as int == find_key(
                self.participants@,
                *participant,
            )),
            !self.participants@.contains(*participant) ==> r == Err::<usize, ErrorCode>(
                ErrorCode::ParticipantNotAssociated,
            ),
    {
        let i = find_key_index(&self.participants, participant);
        proof {
            lemma_find_key(self.participants@, *participant);
        }
        if i < self.participants.len() {
            Ok(i)
        } else {
            Err(ErrorCode::ParticipantNotAssociated)
        }
    }

    /// Checks whether the argued participant has already signed the
    /// document; fails when the key is not a participant at all.
    pub fn try_has_signed(&self, participant: &Pubkey) -> (r: Result<bool, ErrorCode>)
        requires
            self.wf(),
        ensures
            self.participants@.contains(*participant) ==> r == Ok::<bool, ErrorCode>(
                self.signature_timestamps@[find_key(self.participants@, *participant)] != 0,
            ),
            !self.participants@.contains(*participant) ==> r == Err::<bool, ErrorCode>(
                ErrorCode::ParticipantNotAssociated,
            ),
    {
        proof {
            lemma_find_key(self.participants@, *participant);
        }
        let i = self.try_find_participant(participant)?;
        Ok(self.signature_timestamps[i] != 0)
    }

    /// Marks the argued participant as having signed at time `now`; fails,
    /// changing nothing, when the key is not a participant.
    pub fn try_sign(&mut self, participant: &Pubkey, now: u64) -> (r: Result<(), ErrorCode>)
        requires
            old(self).wf(),
        ensures
            old(self).participants@.contains(*participant) ==> r == Ok::<(), ErrorCode>(())
                && final(self).signature_timestamps@ == old(self).signature_timestamps@.update(
                find_key(old(self).participants@, *participant),
                now,
            ),
            !old(self).participants@.contains(*participant) ==> r == Err::<(), ErrorCode>(
                ErrorCode::ParticipantNotAssociated,
            ) && *final(self) == *old(self),
            final(self).authority == old(self).authority,
            final(self).title == old(self).title,
            final(self).uri == old(self).uri,
            final(self).created_at == old(self).created_at,
            final(self).participants == old(self).participants,
            final(self).finalization_timestamp == old(self).finalization_timestamp,
            final(self).bump == old(self).bump,
            final(self).wf(),
    {
        proof {
            lemma_find_key(self.participants@, *participant);
        }
        let i = self.try_find_participant(participant)?;
        self.signature_timestamps.set(i, now);
        Ok(())
    }

    /// Sets the finalization timestamp, closing the document to the
    /// workflow.
    pub fn try_finalize(&mut self, now: u64)
        ensures
            final(self).finalization_timestamp == now,
            final(self).authority == old(self).authority,
            final(self).title == old(self).title,
            final(self).uri == old(self).uri,
            final(self).created_at == old(self).created_at,
            final(self).participants == old(self).participants,
            final(self).signature_timestamps == old(self).signature_timestamps,
            final(self).bump == old(self).bump,
    {
        self.finalization_timestamp = now;
    }
}

} // verus!
