//! The record operations: creation, slot assignment, participant and
//! signature collection, finalization and capacity upgrades.
//!
//! Every operation evaluates its guard checks first, in a fixed order,
//! against the records' current state; the first failing check aborts the
//! whole operation with its named error and no record changes.  An
//! operation either fully succeeds or leaves every touched record exactly
//! as it was.

use vstd::prelude::*;

use crate::clerk::Clerk;
use crate::document::Document;
use crate::error::ErrorCode;
use crate::pubkey::{find_key, unique_keys, zero_keys, copy_keys, Pubkey};
use crate::resize::{resize, spec_deposit, spec_deposit_ok, Allocation};
use crate::space::{max_clerk_size, spec_clerk_space, spec_document_space};

verus! {

/// The informational record emitted when a participant is added to a
/// document; never authoritative, never gating correctness.
#[derive(Clone, Copy, PartialEq, Eq, Structural, Debug)]
pub struct ParticipantAdded {
    /// The address of the grown document.
    pub document: Pubkey,
    /// The participant that was appended.
    pub new_participant: Pubkey,
}

/// The informational record emitted when a clerk's capacity is upgraded;
/// never authoritative, never gating correctness.
#[derive(Clone, Copy, PartialEq, Eq, Structural, Debug)]
pub struct LimitUpgraded {
    /// The address of the grown clerk.
    pub clerk: Pubkey,
    /// The number of slots added.
    pub amount: u8,
}

/// Checks whether the argued list of public keys is free of duplicates.
pub fn is_unique(v: &Vec<Pubkey>) -> (r: bool)
    ensures
        r == unique_keys(v@),
{
    let n = v.len();
    let mut i: usize = 0;
    while i < n
        invariant
            0 <= i <= n,
            n == v@.len(),
            forall|a: int, b: int| 0 <= a < b < n && a < i ==> v@[a] != v@[b],
        decreases n - i,
    {
        let mut j: usize = i + 1;
        while j < n
            invariant
                0 <= i < j <= n,
                n == v@.len(),
                forall|b: int| i < b < j ==> v@[i as int] != v@[b],
            decreases n - j,
        {
            if v[j] == v[i] {
                return false;
            }
            j = j + 1;
        }
        i = i + 1;
    }
    true
}

/// The first guard check `init_clerk_handler` fails, if any.
pub open spec fn spec_init_clerk_error(limit: u8) -> Option<ErrorCode> {
    if limit == 0 {
        Some(ErrorCode::ClerkLimitIsZero)
    } else {
        None
    }
}

/// Creates the clerk record for `authority` with `limit` empty slots; a
/// zero limit is rejected.
pub fn init_clerk_handler(authority: Pubkey, limit: u8, bump: u8) -> (r: Result<Clerk, ErrorCode>)
    ensures
        spec_init_clerk_error(limit) matches Some(e) ==> r == Err::<Clerk, ErrorCode>(e),
        spec_init_clerk_error(limit) is None ==> (r matches Ok(c) && {
            &&& c.authority == authority
            &&& c.documents@.len() == limit
            &&& forall|i: int| 0 <= i < limit ==> c.documents@[i] == Pubkey::zero()
            &&& c.upgrades == 0
            &&& c.bump == bump
            &&& c.wf()
            &&& !c.spec_is_full()
        }),
{
    if limit == 0 {
        return Err(ErrorCode::ClerkLimitIsZero);
    }
    let documents = zero_keys(limit as usize);
    let c = Clerk { authority, documents, upgrades: 0, bump };
    proof {
        assert(255 * 32 + 46 <= usize::MAX);
        assert(c.documents@.len() <= max_clerk_size());
        assert(c.documents@[0] == Pubkey::zero());
    }
    Ok(c)
}

/// The first guard check `init_document_handler` fails, if any.
pub open spec fn spec_init_document_error(
    clerk: Clerk,
    title: Seq<u8>,
    participants: Seq<Pubkey>,
) -> Option<ErrorCode> {
    if title.len() == 0 {
        Some(ErrorCode::EmptyDocumentTitle)
    } else if participants.len() == 0 {
        Some(ErrorCode::EmptyDocumentParticipants)
    } else if !unique_keys(participants) {
        Some(ErrorCode::ParticipantsAreNotUnique)
    } else if clerk.spec_is_full() {
        Some(ErrorCode::ClerkDocumentListIsFull)
    } else {
        None
    }
}

/// Builds a timestamp list of `n` zero entries: nobody has signed.
fn zero_stamps(n: usize) -> (r: Vec<u64>)
    ensures
        r@.len() == n,
        forall|i: int| 0 <= i < n ==> r@[i] == 0u64,
{
    let mut r: Vec<u64> = Vec::new();
    let mut i: usize = 0;
    while i < n
        invariant
            0 <= i <= n,
            r@.len() == i,
            forall|j: int| 0 <= j < i ==> r@[j] == 0u64,
        decreases n - i,
    {
        r.push(0u64);
        i = i + 1;
    }
    r
}

/// Creates a document under `clerk` and assigns its address into the
/// clerk's first free slot — one logical operation: on any failure the
/// clerk is left untouched and no document exists.
///
/// The new document is owned by the clerk's authority, starts open with
/// every signature slot zero, and records `now` as its creation time.
pub fn init_document_handler(
    clerk: &mut Clerk,
    document_key: Pubkey,
    title: Vec<u8>,
    uri: Vec<u8>,
    participants: Vec<Pubkey>,
    now: u64,
    bump: u8,
) -> (r: Result<Document, ErrorCode>)
    requires
        title@.len() <= u32::MAX,
        uri@.len() <= u32::MAX,
        participants@.len() <= u32::MAX,
    ensures
        spec_init_document_error(*old(clerk), title@, participants@) matches Some(e) ==> r == Err::<
            Document,
            ErrorCode,
        >(e) && *final(clerk) == *old(clerk),
        spec_init_document_error(*old(clerk), title@, participants@) is None ==> (r matches Ok(d)
            && {
            &&& d.authority == old(clerk).authority
            &&& d.title@ == title@
            &&& d.uri@ == uri@
            &&& d.created_at == now
            &&& d.participants@ == participants@
            &&& d.signature_timestamps@.len() == participants@.len()
            &&& forall|i: int| 0 <= i < participants@.len() ==> d.signature_timestamps@[i] == 0u64
            &&& d.finalization_timestamp == 0
            &&& d.bump == bump
            &&& d.wf()
            &&& !d.spec_is_finalized()
            &&& final(clerk).documents@ == old(clerk).documents@.update(
                find_key(old(clerk).documents@, Pubkey::zero()),
                document_key,
            )
            &&& final(clerk).authority == old(clerk).authority
            &&& final(clerk).upgrades == old(clerk).upgrades
            &&& final(clerk).bump == old(clerk).bump
            &&& final(clerk).documents@.len() == old(clerk).documents@.len()
        }),
{
    if title.len() == 0 {
        return Err(ErrorCode::EmptyDocumentTitle);
    }
    if participants.len() == 0 {
        return Err(ErrorCode::EmptyDocumentParticipants);
    }
    if !is_unique(&participants) {
        return Err(ErrorCode::ParticipantsAreNotUnique);
    }
    if clerk.is_full() {
        return Err(ErrorCode::ClerkDocumentListIsFull);
    }
    let num_participants = participants.len();
    let signature_timestamps = zero_stamps(num_participants);
    let d = Document {
        authority: clerk.authority,
        title,
        uri,
        created_at: now,
        participants,
        signature_timestamps,
        finalization_timestamp: 0,
        bump,
    };
    let assigned = clerk.try_assign(document_key);
    proof {
        assert(assigned is Ok);
    }
    Ok(d)
}

/// The first guard check `add_participant_handler` fails before the
/// deposit transfer, if any.
pub open spec fn spec_add_participant_error(document: Document, participant: Pubkey) -> Option<
    ErrorCode,
> {
    if document.spec_is_finalized() {
        Some(ErrorCode::DocumentIsAlreadyFinalized)
    } else if document.participants@.contains(participant) {
        Some(ErrorCode::ParticipantAlreadyAssociated)
    } else {
        None
    }
}

/// Appends a new participant, and a zero signature slot for them, to an
/// open document, growing the record's allocation first.
///
/// A finalized document, a participant already associated, or a deposit
/// transfer the payer cannot cover each abort the operation with the
/// document, its allocation and the payer unchanged.
pub fn add_participant_handler(
    document: &mut Document,
    document_key: Pubkey,
    alloc: &mut Allocation,
    payer: &mut u64,
    rate: u64,
    participant: Pubkey,
) -> (r: Result<ParticipantAdded, ErrorCode>)
    requires
        old(document).wf(),
        old(alloc).size == spec_document_space(
            old(document).title@.len() as nat,
            old(document).uri@.len() as nat,
            old(document).participants@.len() as nat,
        ),
        spec_document_space(
            old(document).title@.len() as nat,
            old(document).uri@.len() as nat,
            (old(document).participants@.len() + 1) as nat,
        ) <= usize::MAX,
        old(document).participants@.len() + 1 <= u32::MAX,
    ensures
        spec_add_participant_error(*old(document), participant) matches Some(e) ==> {
            &&& r == Err::<ParticipantAdded, ErrorCode>(e)
            &&& *final(document) == *old(document)
            &&& *final(alloc) == *old(alloc)
            &&& *final(payer) == *old(payer)
        },
        spec_add_participant_error(*old(document), participant) is None && !spec_deposit_ok(
            rate,
            old(alloc).size as nat,
            spec_document_space(
                old(document).title@.len() as nat,
                old(document).uri@.len() as nat,
                (old(document).participants@.len() + 1) as nat,
            ),
            *old(payer),
            old(alloc).lamports,
        ) ==> {
            &&& r == Err::<ParticipantAdded, ErrorCode>(ErrorCode::DepositTransferFailed)
            &&& *final(document) == *old(document)
            &&& *final(alloc) == *old(alloc)
            &&& *final(payer) == *old(payer)
        },
        spec_add_participant_error(*old(document), participant) is None && spec_deposit_ok(
            rate,
            old(alloc).size as nat,
            spec_document_space(
                old(document).title@.len() as nat,
                old(document).uri@.len() as nat,
                (old(document).participants@.len() + 1) as nat,
            ),
            *old(payer),
            old(alloc).lamports,
        ) ==> {
            &&& r == Ok::<ParticipantAdded, ErrorCode>(
                (ParticipantAdded { document: document_key, new_participant: participant }),
            )
            &&& final(document).participants@ == old(document).participants@.push(participant)
            &&& final(document).signature_timestamps@ == old(document).signature_timestamps@.push(0u64)
            &&& final(document).authority == old(document).authority
            &&& final(document).title == old(document).title
            &&& final(document).uri == old(document).uri
            &&& final(document).created_at == old(document).created_at
            &&& final(document).finalization_timestamp == old(document).finalization_timestamp
            &&& final(document).bump == old(document).bump
            &&& final(document).wf()
            &&& final(alloc).size == spec_document_space(
                old(document).title@.len() as nat,
                old(document).uri@.len() as nat,
                (old(document).participants@.len() + 1) as nat,
            )
            &&& final(alloc).lamports == old(alloc).lamports + spec_deposit(
                rate,
                old(alloc).size as nat,
                final(alloc).size as nat,
            )
            &&& *final(payer) == *old(payer) - spec_deposit(
                rate,
                old(alloc).size as nat,
                final(alloc).size as nat,
            )
        },
{
    if document.is_finalized() {
        return Err(ErrorCode::DocumentIsAlreadyFinalized);
    }
    match document.try_find_participant(&participant) {
        Ok(_) => {
            return Err(ErrorCode::ParticipantAlreadyAssociated);
        },
        Err(_) => {},
    }
    let new_participant_len = document.participants.len() + 1;
    let new_size = Document::space(document.title.len(), document.uri.len(), new_participant_len);
    proof {
        crate::space::lemma_document_space_step(
            document.title@.len() as nat,
            document.uri@.len() as nat,
            document.participants@.len() as nat,
        );
        assert(new_size >= alloc.size);
    }
    resize(alloc, payer, new_size, rate)?;
    document.participants.push(participant);
    document.signature_timestamps.push(0u64);
    proof {
        assert(unique_keys(final(document).participants@)) by {
            let s = old(document).participants@;
            let t = s.push(participant);
            assert(forall|i: int| 0 <= i < s.len() ==> t[i] == s[i]);
            assert(!s.contains(participant));
            assert forall|i: int, j: int| 0 <= i < j < t.len() implies t[i] != t[j] by {
                if j == s.len() {
                    assert(t[i] == s[i]);
                    if t[i] == participant {
                        assert(s.contains(participant));
                    }
                }
            }
        }
    }
    Ok(ParticipantAdded { document: document_key, new_participant: participant })
}

/// The first guard check `add_signature_handler` fails, if any.
pub open spec fn spec_add_signature_error(document: Document, participant: Pubkey) -> Option<
    ErrorCode,
> {
    if document.spec_is_finalized() {
        Some(ErrorCode::DocumentIsAlreadyFinalized)
    } else if !document.participants@.contains(participant) {
        Some(ErrorCode::ParticipantNotAssociated)
    } else if document.signature_timestamps@[find_key(document.participants@, participant)]
        != 0 {
        Some(ErrorCode::ParticipantAlreadySigned)
    } else {
        None
    }
}

/// Records `participant`'s signature on an open document at time `now`.
///
/// A finalized document, a key that is not a participant, or a repeated
/// signature each abort the operation with the document unchanged; a
/// repeat attempt is an error, never a silent no-op.
pub fn add_signature_handler(document: &mut Document, participant: Pubkey, now: u64) -> (r: Result<
    (),
    ErrorCode,
>)
    requires
        old(document).wf(),
        now != 0,
    ensures
        spec_add_signature_error(*old(document), participant) matches Some(e) ==> r == Err::<
            (),
            ErrorCode,
        >(e) && *final(document) == *old(document),
        spec_add_signature_error(*old(document), participant) is None ==> {
            &&& r == Ok::<(), ErrorCode>(())
            &&& final(document).signature_timestamps@ == old(document).signature_timestamps@.update(
                find_key(old(document).participants@, participant),
                now,
            )
            &&& final(document).authority == old(document).authority
            &&& final(document).title == old(document).title
            &&& final(document).uri == old(document).uri
            &&& final(document).created_at == old(document).created_at
            &&& final(document).participants == old(document).participants
            &&& final(document).finalization_timestamp == old(document).finalization_timestamp
            &&& final(document).bump == old(document).bump
            &&& final(document).wf()
        },
{
    if document.is_finalized() {
        return Err(ErrorCode::DocumentIsAlreadyFinalized);
    }
    let signed = document.try_has_signed(&participant)?;
    if signed {
        return Err(ErrorCode::ParticipantAlreadySigned);
    }
    let r = document.try_sign(&participant, now);
    proof {
        assert(r is Ok);
    }
    Ok(())
}

/// The first guard check `finalize_handler` fails, if any.
pub open spec fn spec_finalize_error(clerk: Clerk, document: Document, document_key: Pubkey) -> Option<
    ErrorCode,
> {
    if !clerk.spec_holds(document_key) {
        Some(ErrorCode::ClerkDoesNotHoldDocument)
    } else if document.spec_is_finalized() {
        Some(ErrorCode::DocumentIsAlreadyFinalized)
    } else if !document.spec_has_all_signatures() {
        Some(ErrorCode::DocumentIsMissingSignatures)
    } else {
        None
    }
}

/// Marks a fully signed document finalized at time `now` — the single
/// irreversible transition of the workflow.
///
/// The clerk must hold the document's address, the document must still be
/// open, and every signature slot must be set; the first failing check
/// aborts with its named error and the document unchanged.
pub fn finalize_handler(
    clerk: &Clerk,
    document: &mut Document,
    document_key: Pubkey,
    now: u64,
) -> (r: Result<(), ErrorCode>)
    requires
        now != 0,
    ensures
        spec_finalize_error(*clerk, *old(document), document_key) matches Some(e) ==> r == Err::<
            (),
            ErrorCode,
        >(e) && *final(document) == *old(document),
        spec_finalize_error(*clerk, *old(document), document_key) is None ==> {
            &&& r == Ok::<(), ErrorCode>(())
            &&& final(document).finalization_timestamp == now
            &&& final(document).spec_is_finalized()
            &&& final(document).authority == old(document).authority
            &&& final(document).title == old(document).title
            &&& final(document).uri == old(document).uri
            &&& final(document).created_at == old(document).created_at
            &&& final(document).participants == old(document).participants
            &&& final(document).signature_timestamps == old(document).signature_timestamps
            &&& final(document).bump == old(document).bump
        },
{
    if !clerk.holds(&document_key) {
        return Err(ErrorCode::ClerkDoesNotHoldDocument);
    }
    if document.is_finalized() {
        return Err(ErrorCode::DocumentIsAlreadyFinalized);
    }
    if !document.has_all_signatures() {
        return Err(ErrorCode::DocumentIsMissingSignatures);
    }
    document.try_finalize(now);
    Ok(())
}


/// A document that a clerk holds and that is still open finalizes exactly
/// when no signature slot is zero: with custody and openness given,
/// success and full signing coincide.
pub proof fn lemma_finalize_exactly_when_fully_signed(
    clerk: Clerk,
    document: Document,
    document_key: Pubkey,
)
    requires
        clerk.spec_holds(document_key),
        !document.spec_is_finalized(),
    ensures
        spec_finalize_error(clerk, document, document_key) is None
            <==> document.spec_has_all_signatures(),
{
}

/// The first guard check of a capacity upgrade, if any: the increase must
/// be positive and the clerk must have exhausted its current capacity.
pub open spec fn spec_upgrade_error(clerk: Clerk, increase_amount: u8) -> Option<ErrorCode> {
    if increase_amount == 0 {
        Some(ErrorCode::ClerkUpgradeAmountIsZero)
    } else if !clerk.spec_is_full() {
        Some(ErrorCode::ClerkUpgradingWithRemainingSpace)
    } else {
        None
    }
}

/// Grows a full clerk's capacity in place by `increase_amount` slots,
/// paying the proportional deposit for the larger footprint.
///
/// A zero increase, a clerk with free slots, or a deposit transfer the
/// payer cannot cover each abort the operation with the clerk, its
/// allocation and the payer unchanged.  On success the original slots are
/// kept, `increase_amount` empty slots are appended and the upgrade
/// counter steps by exactly one.
pub fn upgrade(
    clerk: &mut Clerk,
    clerk_key: Pubkey,
    alloc: &mut Allocation,
    payer: &mut u64,
    rate: u64,
    increase_amount: u8,
) -> (r: Result<LimitUpgraded, ErrorCode>)
    requires
        old(clerk).wf(),
        spec_upgrade_error(*old(clerk), increase_amount) is None ==> {
            &&& old(clerk).upgrades < u8::MAX
            &&& old(clerk).documents@.len() + increase_amount <= max_clerk_size()
            &&& old(clerk).documents@.len() + increase_amount <= u32::MAX
            &&& old(alloc).size == spec_clerk_space(old(clerk).documents@.len() as nat)
        },
    ensures
        spec_upgrade_error(*old(clerk), increase_amount) matches Some(e) ==> {
            &&& r == Err::<LimitUpgraded, ErrorCode>(e)
            &&& *final(clerk) == *old(clerk)
            &&& *final(alloc) == *old(alloc)
            &&& *final(payer) == *old(payer)
        },
        spec_upgrade_error(*old(clerk), increase_amount) is None && !spec_deposit_ok(
            rate,
            old(alloc).size as nat,
            spec_clerk_space((old(clerk).documents@.len() + increase_amount) as nat),
            *old(payer),
            old(alloc).lamports,
        ) ==> {
            &&& r == Err::<LimitUpgraded, ErrorCode>(ErrorCode::DepositTransferFailed)
            &&& *final(clerk) == *old(clerk)
            &&& *final(alloc) == *old(alloc)
            &&& *final(payer) == *old(payer)
        },
        spec_upgrade_error(*old(clerk), increase_amount) is None && spec_deposit_ok(
            rate,
            old(alloc).size as nat,
            spec_clerk_space((old(clerk).documents@.len() + increase_amount) as nat),
            *old(payer),
            old(alloc).lamports,
        ) ==> {
            &&& r == Ok::<LimitUpgraded, ErrorCode>(
                (LimitUpgraded { clerk: clerk_key, amount: increase_amount }),
            )
            &&& final(clerk).documents@.len() == old(clerk).documents@.len() + increase_amount
            &&& final(clerk).documents@.take(old(clerk).documents@.len() as int) == old(clerk).documents@
            &&& forall|i: int|
                old(clerk).documents@.len() <= i < final(clerk).documents@.len() ==> final(clerk).documents@[i] == Pubkey::zero()
            &&& final(clerk).upgrades == old(clerk).upgrades + 1
            &&& final(clerk).authority == old(clerk).authority
            &&& final(clerk).bump == old(clerk).bump
            &&& final(clerk).wf()
            &&& final(alloc).size == spec_clerk_space(final(clerk).documents@.len() as nat)
            &&& final(alloc).lamports == old(alloc).lamports + spec_deposit(
                rate,
                old(alloc).size as nat,
                final(alloc).size as nat,
            )
            &&& *final(payer) == *old(payer) - spec_deposit(
                rate,
                old(alloc).size as nat,
                final(alloc).size as nat,
            )
        },
{
    if increase_amount == 0 {
        return Err(ErrorCode::ClerkUpgradeAmountIsZero);
    }
    if !clerk.is_full() {
        return Err(ErrorCode::ClerkUpgradingWithRemainingSpace);
    }
    let new_limit = clerk.limit() + increase_amount as usize;
    let new_size = Clerk::space(new_limit);
    resize(alloc, payer, new_size, rate)?;
    let ghost old_docs = clerk.documents@;
    let mut i: u8 = 0;
    while i < increase_amount
        invariant
            0 <= i <= increase_amount,
            old_docs == old(clerk).documents@,
            spec_upgrade_error(*old(clerk), increase_amount) is None,
            clerk.documents@.len() == old_docs.len() + i,
            clerk.documents@.take(old_docs.len() as int) =~= old_docs,
            forall|j: int| old_docs.len() <= j < clerk.documents@.len() ==> clerk.documents@[j] == Pubkey::zero(),
            clerk.authority == old(clerk).authority,
            clerk.upgrades == old(clerk).upgrades,
            clerk.bump == old(clerk).bump,
        decreases increase_amount - i,
    {
        clerk.documents.push(Pubkey::default());
        proof {
            assert(clerk.documents@.take(old_docs.len() as int) =~= old_docs);
        }
        i = i + 1;
    }
    clerk.upgrades = clerk.upgrades + 1;
    Ok(LimitUpgraded { clerk: clerk_key, amount: increase_amount })
}

/// Copies a clerk into a staged record under a fresh bump nonce: the first
/// half of the two-phase capacity migration.  The copy carries every slot
/// and the upgrade counter unchanged, so no document is lost or duplicated
/// between the two records.
pub fn stage_upgrade_handler(old_clerk: &Clerk, staged_bump: u8) -> (staged: Clerk)
    ensures
        staged.authority == old_clerk.authority,
        staged.documents@ == old_clerk.documents@,
        staged.upgrades == old_clerk.upgrades,
        staged.bump == staged_bump,
{
    Clerk {
        authority: old_clerk.authority,
        documents: copy_keys(&old_clerk.documents),
        upgrades: old_clerk.upgrades,
        bump: staged_bump,
    }
}

/// Rebuilds a staged clerk as a new record with `increase_amount` more
/// slots: the second half of the two-phase capacity migration.  The staged
/// slots are copied across in order, the new slots start empty, and the
/// upgrade counter steps by exactly one.
pub fn upgrade_limit_handler(staged_clerk: &Clerk, increase_amount: u8, bump: u8) -> (r: Result<
    Clerk,
    ErrorCode,
>)
    requires
        staged_clerk.wf(),
        spec_upgrade_error(*staged_clerk, increase_amount) is None ==> {
            &&& staged_clerk.upgrades < u8::MAX
            &&& staged_clerk.documents@.len() + increase_amount <= max_clerk_size()
            &&& staged_clerk.documents@.len() + increase_amount <= u32::MAX
        },
    ensures
        spec_upgrade_error(*staged_clerk, increase_amount) matches Some(e) ==> r == Err::<
            Clerk,
            ErrorCode,
        >(e),
        spec_upgrade_error(*staged_clerk, increase_amount) is None ==> (r matches Ok(c) && {
            &&& c.authority == staged_clerk.authority
            &&& c.documents@.len() == staged_clerk.documents@.len() + increase_amount
            &&& c.documents@.take(staged_clerk.documents@.len() as int)
                == staged_clerk.documents@
            &&& forall|i: int|
                staged_clerk.documents@.len() <= i < c.documents@.len() ==> c.documents@[i]
                    == Pubkey::zero()
            &&& c.upgrades == staged_clerk.upgrades + 1
            &&& c.bump == bump
            &&& c.wf()
        }),
{
    if increase_amount == 0 {
        return Err(ErrorCode::ClerkUpgradeAmountIsZero);
    }
    if !staged_clerk.is_full() {
        return Err(ErrorCode::ClerkUpgradingWithRemainingSpace);
    }
    let mut new_documents = copy_keys(&staged_clerk.documents);
    let ghost old_docs = staged_clerk.documents@;
    let mut i: u8 = 0;
    while i < increase_amount
        invariant
            0 <= i <= increase_amount,
            new_documents@.len() == old_docs.len() + i,
            new_documents@.take(old_docs.len() as int) =~= old_docs,
            forall|j: int| old_docs.len() <= j < new_documents@.len() ==> new_documents@[j] == Pubkey::zero(),
        decreases increase_amount - i,
    {
        new_documents.push(Pubkey::default());
        proof {
            assert(new_documents@.take(old_docs.len() as int) =~= old_docs);
        }
        i = i + 1;
    }
    Ok(
        Clerk {
            authority: staged_clerk.authority,
            documents: new_documents,
            upgrades: staged_clerk.upgrades + 1,
            bump,
        },
    )
}

} // verus!
