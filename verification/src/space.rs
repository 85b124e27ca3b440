//! Exact byte footprints of the persisted record layouts.
//!
//! These functions are the single source of truth for how many bytes a
//! `Clerk` or `Document` record occupies in storage: the initial allocation
//! and every later resize both go through them, so a resize that disagrees
//! with them is a programming error, not a recoverable condition.

use vstd::prelude::*;

verus! {

/// Bytes of a `Clerk` record outside the document slot list: the account
/// discriminator (8), the authority key (32), the slot-list length prefix
/// (4), the upgrade counter (1) and the bump nonce (1).
pub const CLERK_FIXED_SPACE: usize = 8 + 32 + 4 + 1 + 1;

/// Bytes occupied by one document slot: a 256-bit address.
pub const SLOT_SPACE: usize = 32;

/// Bytes of a `Document` record outside its variable-length fields: the
/// account discriminator (8), the authority key (32), the three list length
/// prefixes (4 each), the creation and finalization timestamps (8 each), the
/// title length prefix (4), the locator length prefix (4) and the bump nonce
/// (1).
pub const DOCUMENT_FIXED_SPACE: usize = 8 + 32 + 4 + 4 + 8 + 4 + 4 + 8 + 1;

/// Bytes occupied by one participant: a 256-bit key (32) and its signature
/// timestamp (8).
pub const PARTICIPANT_SPACE: usize = 32 + 8;

/// Exact byte footprint of a `Clerk` record that can hold `size` document
/// addresses.
pub open spec fn spec_clerk_space(size: nat) -> nat {
    (CLERK_FIXED_SPACE + SLOT_SPACE * size) as nat
}

/// Largest slot count whose `Clerk` footprint still fits in `usize`.
pub open spec fn max_clerk_size() -> nat {
    ((usize::MAX - CLERK_FIXED_SPACE) / (SLOT_SPACE as int)) as nat
}

/// Exact byte footprint of a `Document` record with a `title_size`-byte
/// title, a `uri_size`-byte locator and `part_size` participants.
pub open spec fn spec_document_space(title_size: nat, uri_size: nat, part_size: nat) -> nat {
    (DOCUMENT_FIXED_SPACE + title_size + uri_size + PARTICIPANT_SPACE * part_size) as nat
}

/// Growing a clerk by one slot always costs exactly the per-slot address
/// size, whatever the starting capacity.
pub proof fn lemma_clerk_space_step(size: nat)
    ensures
        spec_clerk_space(size + 1) - spec_clerk_space(size) == SLOT_SPACE,
{
}

/// Adding one participant to a document always costs exactly the per-participant
/// size (key plus timestamp), whatever the other field lengths.
pub proof fn lemma_document_space_step(title_size: nat, uri_size: nat, part_size: nat)
    ensures
        spec_document_space(title_size, uri_size, part_size + 1) - spec_document_space(
            title_size,
            uri_size,
            part_size,
        ) == PARTICIPANT_SPACE,
{
}

} // verus!
