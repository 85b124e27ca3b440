//! The capacity-bounded registry record: one per authority, holding the
//! addresses of the documents created under it.
//!
//! A clerk's slot list has a fixed length — its current capacity.  An empty
//! slot holds the reserved zero key; a slot is assigned by overwriting the
//! first zero entry found in order.  Capacity only ever grows.

use vstd::prelude::*;

use crate::error::ErrorCode;
use crate::pubkey::{find_key, lemma_find_key, find_key_index, Pubkey};
use crate::seeds::{clerk_tag, spec_clerk_tag};
use crate::space::{max_clerk_size, spec_clerk_space};

verus! {

/// The mathematical value of a clerk record: its fields, with the slot
/// list as a sequence.
pub struct ClerkV {
    /// The authority key.
    pub authority: Pubkey,
    /// The slot list.
    pub documents: Seq<Pubkey>,
    /// The upgrade counter.
    pub upgrades: u8,
    /// The bump nonce.
    pub bump: u8,
}

impl ClerkV {
    /// The slot counts the layout can carry.
    pub open spec fn wf(self) -> bool {
        &&& self.documents.len() <= max_clerk_size()
        &&& self.documents.len() <= u32::MAX
    }
}

/// The registry record: a bounded list of document addresses owned by one
/// authority.
#[derive(Debug, PartialEq, Eq)]
pub struct Clerk {
    /// The wallet public key authority behind the record.
    pub authority: Pubkey,
    /// The document addresses held, one per slot; the zero key marks an
    /// empty slot.  The list's length is the clerk's current capacity.
    pub documents: Vec<Pubkey>,
    /// The number of capacity upgrades this clerk has gone through.
    pub upgrades: u8,
    /// The address bump nonce found during derivation.
    pub bump: u8,
}

impl View for Clerk {
    type V = ClerkV;

    open spec fn view(&self) -> ClerkV {
        ClerkV {
            authority: self.authority,
            documents: self.documents@,
            upgrades: self.upgrades,
            bump: self.bump,
        }
    }
}

impl Clerk {
    /// Whether every slot is assigned: no slot holds the zero key.
    pub open spec fn spec_is_full(self) -> bool {
        forall|i: int| 0 <= i < self.documents@.len() ==> self.documents@[i] != Pubkey::zero()
    }

    /// Whether `doc` occupies one of the slots.
    pub open spec fn spec_holds(self, doc: Pubkey) -> bool {
        self.documents@.contains(doc)
    }

    /// The record sizes the layout can carry: the slot count must fit the
    /// 32-bit length prefix and the byte footprint must fit in `usize`.
    pub open spec fn wf(self) -> bool {
        &&& self.documents@.len() <= max_clerk_size()
        &&& self.documents@.len() <= u32::MAX
    }

    /// Exact byte footprint of a `Clerk` record that can hold `size`
    /// document addresses.
    pub fn space(size: usize) -> (r: usize)
        requires
            size <= max_clerk_size(),
        ensures
            r == spec_clerk_space(size as nat),
    {
        8 + 32 + (4 + 32 * size) + 1 + 1
    }

    /// Whether the document list is storing the maximum number of non-zero
    /// keys allowed.
    pub fn is_full(&self) -> (r: bool)
        ensures
            r == self.spec_is_full(),
    {
        let i = find_key_index(&self.documents, &Pubkey::default());
        proof {
            lemma_find_key(self.documents@, Pubkey::zero());
        }
        i == self.documents.len()
    }

    /// Checks whether the record contains the argued document address in its
    /// list of documents.
    pub fn holds(&self, doc: &Pubkey) -> (r: bool)
        ensures
            r == self.spec_holds(*doc),
    {
        let i = find_key_index(&self.documents, doc);
        proof {
            lemma_find_key(self.documents@, *doc);
        }
        i < self.documents.len()
    }

    /// The current document holding limit of the clerk.
    pub fn limit(&self) -> (r: usize)
        ensures
            r == self.documents@.len(),
    {
        self.documents.len()
    }

    /// The seed list under which this record signs: its namespace tag, its
    /// authority's bytes and its bump nonce.
    pub fn signer_seeds(&self) -> (r: Vec<Vec<u8>>)
        ensures
            r@.len() == 3,
            r@[0]@ == spec_clerk_tag(),
            r@[1]@ == self.authority.bytes(),
            r@[2]@ == seq![self.bump],
    {
        let mut bump_seed: Vec<u8> = Vec::new();
        bump_seed.push(self.bump);
        let mut r: Vec<Vec<u8>> = Vec::new();
        r.push(clerk_tag());
        r.push(self.authority.to_bytes());
        r.push(bump_seed);
        proof {
            assert(r@[2]@ =~= seq![self.bump]);
        }
        r
    }

    /// Overwrites the first zero slot with the argued document address;
    /// reports the registry full, changing nothing, when no slot is free.
    pub fn try_assign(&mut self, document: Pubkey) -> (r: Result<(), ErrorCode>)
        ensures
            old(self).spec_is_full() ==> r == Err::<(), ErrorCode>(
                ErrorCode::ClerkDocumentListIsFull,
            ) && *final(self) == *old(self),
            !old(self).spec_is_full() ==> r == Ok::<(), ErrorCode>(()) && final(self).documents@
                == old(self).documents@.update(
                find_key(old(self).documents@, Pubkey::zero()),
                document,
            ),
            final(self).authority == old(self).authority,
            final(self).upgrades == old(self).upgrades,
            final(self).bump == old(self).bump,
            final(self).documents@.len() == old(self).documents@.len(),
    {
        let i = find_key_index(&self.documents, &Pubkey::default());
        proof {
            lemma_find_key(self.documents@, Pubkey::zero());
        }
        if i == self.documents.len() {
            Err(ErrorCode::ClerkDocumentListIsFull)
        } else {
            self.documents.set(i, document);
            Ok(())
        }
    }
}

} // verus!
