//! The errors that the record operations surface.
//!
//! Every precondition failure aborts its whole operation atomically and is
//! reported as one of these named codes; no operation retries or recovers
//! silently.

use vstd::prelude::*;

verus! {

/// The named failure of a record operation.
#[derive(Clone, Copy, PartialEq, Eq, Structural, Debug)]
pub enum ErrorCode {
    /// The clerk account's list of documents has reached the current limit.
    ClerkDocumentListIsFull,
    /// The provided clerk program account does not hold custody of the given
    /// document public key.
    ClerkDoesNotHoldDocument,
    /// The provided document limit for the clerk was zero.
    ClerkLimitIsZero,
    /// The provided amount to increase the clerk limit by was zero.
    ClerkUpgradeAmountIsZero,
    /// The clerk account provided for upgrading has remaining document space.
    ClerkUpgradingWithRemainingSpace,
    /// The deposit transfer that pays for a record's larger footprint was
    /// refused by the funding account.
    DepositTransferFailed,
    /// The document submitted for updating has already been finalized with
    /// all required signatures.
    DocumentIsAlreadyFinalized,
    /// The document does not have all participant signatures.
    DocumentIsMissingSignatures,
    /// The participants list for the new document was empty.
    EmptyDocumentParticipants,
    /// The title provided for the new document was empty.
    EmptyDocumentTitle,
    /// The participant public key is already associated with the document.
    ParticipantAlreadyAssociated,
    /// The participant has already signed the provided document.
    ParticipantAlreadySigned,
    /// The participant public key is not associated with the document.
    ParticipantNotAssociated,
    /// The list of participant public keys contains duplicates.
    ParticipantsAreNotUnique,
}

} // verus!
