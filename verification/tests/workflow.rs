use arbiter::clerk::Clerk;
use arbiter::document::Document;
use arbiter::error::ErrorCode;
use arbiter::instructions::{
    add_participant_handler, add_signature_handler, finalize_handler, init_clerk_handler,
    init_document_handler, is_unique, ParticipantAdded,
};
use arbiter::pubkey::Pubkey;
use arbiter::resize::Allocation;

fn key(n: u128) -> Pubkey {
    Pubkey::new(n, 1)
}

fn new_clerk() -> Clerk {
    init_clerk_handler(key(1), 4, 255).unwrap()
}

fn new_document(clerk: &mut Clerk, participants: Vec<Pubkey>) -> Document {
    init_document_handler(
        clerk,
        key(50),
        b"Agreement".to_vec(),
        b"ipfs://content".to_vec(),
        participants,
        1_000,
        254,
    )
    .unwrap()
}

#[test]
fn is_unique_spots_duplicates() {
    assert!(is_unique(&vec![key(1), key(2), key(3)]));
    assert!(!is_unique(&vec![key(1), key(2), key(1)]));
    assert!(is_unique(&vec![]));
}

#[test]
fn init_document_rejects_bad_input() {
    let mut clerk = new_clerk();
    let r = init_document_handler(
        &mut clerk,
        key(50),
        vec![],
        b"u".to_vec(),
        vec![key(2)],
        1,
        0,
    );
    assert!(matches!(r, Err(ErrorCode::EmptyDocumentTitle)));
    let r = init_document_handler(&mut clerk, key(50), b"T".to_vec(), b"u".to_vec(), vec![], 1, 0);
    assert!(matches!(r, Err(ErrorCode::EmptyDocumentParticipants)));
    let r = init_document_handler(
        &mut clerk,
        key(50),
        b"T".to_vec(),
        b"u".to_vec(),
        vec![key(2), key(2)],
        1,
        0,
    );
    assert!(matches!(r, Err(ErrorCode::ParticipantsAreNotUnique)));
    assert_eq!(clerk, new_clerk());
}

#[test]
fn init_document_on_full_clerk_changes_nothing() {
    // A full registry rejects document creation and keeps every slot.
    let mut clerk = init_clerk_handler(key(1), 2, 255).unwrap();
    clerk.try_assign(key(61)).unwrap();
    clerk.try_assign(key(62)).unwrap();
    let before = vec![key(61), key(62)];
    let r = init_document_handler(
        &mut clerk,
        key(63),
        b"T".to_vec(),
        b"u".to_vec(),
        vec![key(2)],
        1,
        0,
    );
    assert!(matches!(r, Err(ErrorCode::ClerkDocumentListIsFull)));
    assert_eq!(clerk.documents, before);
    assert_eq!(clerk.upgrades, 0);
}

#[test]
fn init_document_assigns_into_clerk() {
    let mut clerk = new_clerk();
    let doc = new_document(&mut clerk, vec![key(2), key(3)]);
    assert_eq!(doc.authority, key(1));
    assert_eq!(doc.title, b"Agreement".to_vec());
    assert_eq!(doc.uri, b"ipfs://content".to_vec());
    assert_eq!(doc.created_at, 1_000);
    assert_eq!(doc.participants, vec![key(2), key(3)]);
    assert_eq!(doc.signature_timestamps, vec![0, 0]);
    assert_eq!(doc.finalization_timestamp, 0);
    assert_eq!(doc.bump, 254);
    assert!(!doc.is_finalized());
    assert!(!doc.has_all_signatures());
    assert!(clerk.holds(&key(50)));
    assert_eq!(clerk.documents[0], key(50));
}

#[test]
fn add_participant_rejects_existing_identity() {
    // A byte-identical identity is rejected; the record keeps its shape.
    let mut clerk = new_clerk();
    let mut doc = new_document(&mut clerk, vec![key(2), key(3)]);
    let mut alloc = Allocation {
        size: Document::space(doc.title.len(), doc.uri.len(), 2),
        lamports: 0,
    };
    let mut payer: u64 = 10_000;
    let r = add_participant_handler(&mut doc, key(50), &mut alloc, &mut payer, 1, key(3));
    assert!(matches!(r, Err(ErrorCode::ParticipantAlreadyAssociated)));
    assert_eq!(doc.participants.len(), 2);
    assert_eq!(doc.signature_timestamps.len(), 2);
    assert_eq!(payer, 10_000);
}

#[test]
fn add_participant_grows_both_lists_together() {
    let mut clerk = new_clerk();
    let mut doc = new_document(&mut clerk, vec![key(2), key(3)]);
    let mut alloc = Allocation {
        size: Document::space(doc.title.len(), doc.uri.len(), 2),
        lamports: 100,
    };
    let mut payer: u64 = 10_000;
    let event =
        add_participant_handler(&mut doc, key(50), &mut alloc, &mut payer, 3, key(4)).unwrap();
    assert_eq!(
        event,
        ParticipantAdded {
            document: key(50),
            new_participant: key(4)
        }
    );
    assert_eq!(doc.participants, vec![key(2), key(3), key(4)]);
    assert_eq!(doc.signature_timestamps, vec![0, 0, 0]);
    // One more participant is 40 bytes at 3 lamports per byte.
    assert_eq!(alloc.size, Document::space(doc.title.len(), doc.uri.len(), 3));
    assert_eq!(alloc.lamports, 100 + 120);
    assert_eq!(payer, 10_000 - 120);
}

#[test]
fn add_participant_without_funds_changes_nothing() {
    let mut clerk = new_clerk();
    let mut doc = new_document(&mut clerk, vec![key(2)]);
    let mut alloc = Allocation {
        size: Document::space(doc.title.len(), doc.uri.len(), 1),
        lamports: 5,
    };
    let mut payer: u64 = 39;
    let r = add_participant_handler(&mut doc, key(50), &mut alloc, &mut payer, 1, key(4));
    assert!(matches!(r, Err(ErrorCode::DepositTransferFailed)));
    assert_eq!(doc.participants, vec![key(2)]);
    assert_eq!(doc.signature_timestamps, vec![0]);
    assert_eq!(alloc.lamports, 5);
    assert_eq!(payer, 39);
}

#[test]
fn add_participant_after_finalization_is_rejected() {
    let mut clerk = new_clerk();
    let mut doc = new_document(&mut clerk, vec![key(2)]);
    add_signature_handler(&mut doc, key(2), 2_000).unwrap();
    finalize_handler(&clerk, &mut doc, key(50), 3_000).unwrap();
    let mut alloc = Allocation {
        size: Document::space(doc.title.len(), doc.uri.len(), 1),
        lamports: 0,
    };
    let mut payer: u64 = 10_000;
    let r = add_participant_handler(&mut doc, key(50), &mut alloc, &mut payer, 1, key(4));
    assert!(matches!(r, Err(ErrorCode::DocumentIsAlreadyFinalized)));
}

#[test]
fn signing_and_finalization_follow_the_state_machine() {
    // Participants A, B, C: after A and B sign, finalization still fails
    // with missing signatures; after C signs it succeeds exactly once.
    let a = key(2);
    let b = key(3);
    let c = key(4);
    let mut clerk = new_clerk();
    let mut doc = new_document(&mut clerk, vec![a, b, c]);

    add_signature_handler(&mut doc, a, 2_001).unwrap();
    add_signature_handler(&mut doc, b, 2_002).unwrap();
    assert!(!doc.has_all_signatures());
    assert_eq!(
        finalize_handler(&clerk, &mut doc, key(50), 3_000),
        Err(ErrorCode::DocumentIsMissingSignatures)
    );
    assert_eq!(doc.finalization_timestamp, 0);

    add_signature_handler(&mut doc, c, 2_003).unwrap();
    assert!(doc.has_all_signatures());
    assert_eq!(doc.signature_timestamps, vec![2_001, 2_002, 2_003]);

    finalize_handler(&clerk, &mut doc, key(50), 3_001).unwrap();
    assert!(doc.is_finalized());
    assert_eq!(doc.finalization_timestamp, 3_001);
    assert_eq!(
        finalize_handler(&clerk, &mut doc, key(50), 3_002),
        Err(ErrorCode::DocumentIsAlreadyFinalized)
    );
    assert_eq!(doc.finalization_timestamp, 3_001);
}

#[test]
fn signature_errors_are_specific() {
    let mut clerk = new_clerk();
    let mut doc = new_document(&mut clerk, vec![key(2), key(3)]);
    assert_eq!(
        add_signature_handler(&mut doc, key(9), 2_000),
        Err(ErrorCode::ParticipantNotAssociated)
    );
    add_signature_handler(&mut doc, key(2), 2_000).unwrap();
    assert_eq!(
        add_signature_handler(&mut doc, key(2), 2_001),
        Err(ErrorCode::ParticipantAlreadySigned)
    );
    assert_eq!(doc.signature_timestamps, vec![2_000, 0]);
    add_signature_handler(&mut doc, key(3), 2_002).unwrap();
    finalize_handler(&clerk, &mut doc, key(50), 3_000).unwrap();
    assert_eq!(
        add_signature_handler(&mut doc, key(3), 4_000),
        Err(ErrorCode::DocumentIsAlreadyFinalized)
    );
}

#[test]
fn finalize_requires_custody() {
    let mut clerk = new_clerk();
    let mut doc = new_document(&mut clerk, vec![key(2)]);
    add_signature_handler(&mut doc, key(2), 2_000).unwrap();
    let stranger = init_clerk_handler(key(7), 1, 255).unwrap();
    assert_eq!(
        finalize_handler(&stranger, &mut doc, key(50), 3_000),
        Err(ErrorCode::ClerkDoesNotHoldDocument)
    );
    assert_eq!(doc.finalization_timestamp, 0);
}

#[test]
fn document_queries_report_participants() {
    let mut clerk = new_clerk();
    let doc = new_document(&mut clerk, vec![key(2), key(3)]);
    assert_eq!(doc.try_find_participant(&key(3)), Ok(1));
    assert_eq!(
        doc.try_find_participant(&key(9)),
        Err(ErrorCode::ParticipantNotAssociated)
    );
    assert_eq!(doc.try_has_signed(&key(2)), Ok(false));
    assert_eq!(
        doc.try_has_signed(&key(9)),
        Err(ErrorCode::ParticipantNotAssociated)
    );
}
