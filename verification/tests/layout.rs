use arbiter::clerk::Clerk;
use arbiter::document::Document;
use arbiter::pubkey::Pubkey;

fn key(n: u128) -> Pubkey {
    Pubkey::new(n, n + 7)
}

#[test]
fn clerk_layout_is_exact() {
    let clerk = Clerk {
        authority: Pubkey::new(5, 0),
        documents: vec![Pubkey::default()],
        upgrades: 9,
        bump: 250,
    };
    let bytes = clerk.to_bytes();
    // authority(32) + prefix(4) + one slot(32) + upgrades(1) + bump(1).
    assert_eq!(bytes.len(), 70);
    assert_eq!(bytes.len() + 8, Clerk::space(1));
    let mut expected = vec![0u8; 70];
    expected[0] = 5; // authority low word, little-endian
    expected[32] = 1; // slot count prefix
    expected[68] = 9; // upgrades
    expected[69] = 250; // bump
    assert_eq!(bytes, expected);
}

#[test]
fn clerk_round_trip_reproduces_fields() {
    let clerk = Clerk {
        authority: key(41),
        documents: vec![key(1), Pubkey::default(), key(3)],
        upgrades: 2,
        bump: 251,
    };
    let bytes = clerk.to_bytes();
    assert_eq!(bytes.len() + 8, Clerk::space(3));
    let back = Clerk::from_bytes(&bytes).unwrap();
    assert_eq!(back, clerk);
}

#[test]
fn clerk_from_bytes_rejects_bad_lengths() {
    assert!(Clerk::from_bytes(&vec![]).is_none());
    assert!(Clerk::from_bytes(&vec![0u8; 37]).is_none());
    let clerk = Clerk {
        authority: key(8),
        documents: vec![key(1)],
        upgrades: 0,
        bump: 0,
    };
    let mut bytes = clerk.to_bytes();
    bytes.push(0);
    assert!(Clerk::from_bytes(&bytes).is_none());
}

#[test]
fn document_round_trip_reproduces_fields() {
    let doc = Document {
        authority: key(77),
        title: b"Test".to_vec(),
        uri: b"https://arweave.net/abc1234567890".to_vec(),
        created_at: 123_456,
        participants: vec![key(10), key(11), key(12)],
        signature_timestamps: vec![0, 999, 0],
        finalization_timestamp: 0,
        bump: 249,
    };
    let bytes = doc.to_bytes();
    assert_eq!(bytes.len() + 8, Document::space(4, 33, 3));
    let back = Document::from_bytes(&bytes).unwrap();
    assert_eq!(back, doc);
}

#[test]
fn document_round_trip_keeps_finalized_record() {
    let doc = Document {
        authority: key(90),
        title: vec![7u8; 40],
        uri: vec![],
        created_at: u64::MAX,
        participants: vec![key(10)],
        signature_timestamps: vec![u64::MAX],
        finalization_timestamp: 42,
        bump: 0,
    };
    let back = Document::from_bytes(&doc.to_bytes()).unwrap();
    assert_eq!(back, doc);
}

#[test]
fn document_from_bytes_rejects_malformed_records() {
    assert!(Document::from_bytes(&vec![0u8; 65]).is_none());
    let doc = Document {
        authority: key(90),
        title: b"T".to_vec(),
        uri: vec![],
        created_at: 5,
        participants: vec![key(10), key(10)],
        signature_timestamps: vec![0, 0],
        finalization_timestamp: 0,
        bump: 0,
    };
    // Duplicate participants never come out of the workflow; their byte
    // image is rejected.
    assert!(Document::from_bytes(&doc.to_bytes()).is_none());
    let empty_title = Document {
        title: vec![],
        ..doc
    };
    assert!(Document::from_bytes(&empty_title.to_bytes()).is_none());
}
