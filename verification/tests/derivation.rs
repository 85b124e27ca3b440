use arbiter::display::DisplayOptions;
use arbiter::pda::{derive_clerk_address, derive_document_address, derive_staged_clerk_address};
use arbiter::pubkey::Pubkey;

fn sdk_key(k: &Pubkey) -> solana_program::pubkey::Pubkey {
    let bytes: [u8; 32] = k.to_bytes().try_into().unwrap();
    solana_program::pubkey::Pubkey::new_from_array(bytes)
}

fn lib_key(k: &solana_program::pubkey::Pubkey) -> Pubkey {
    Pubkey::from_bytes(&k.to_bytes())
}

#[test]
fn derivation_is_deterministic() {
    let program = Pubkey::new(400, 401);
    let authority = Pubkey::new(7, 8);
    let first = derive_clerk_address(&program, &authority).unwrap();
    let second = derive_clerk_address(&program, &authority).unwrap();
    assert_eq!(first, second);
}

#[test]
fn clerk_derivation_matches_reference() {
    let program = Pubkey::new(400, 401);
    let authority = Pubkey::new(7, 8);
    let (address, bump) = derive_clerk_address(&program, &authority).unwrap();
    let (expected, expected_bump) = solana_program::pubkey::Pubkey::find_program_address(
        &[b"clerk", &sdk_key(&authority).to_bytes()],
        &sdk_key(&program),
    );
    assert_eq!(address, lib_key(&expected));
    assert_eq!(bump, expected_bump);
    assert_ne!(address, authority);
}

#[test]
fn staged_clerk_derivation_matches_reference() {
    let program = Pubkey::new(402, 403);
    let authority = Pubkey::new(9, 10);
    let (address, bump) = derive_staged_clerk_address(&program, &authority).unwrap();
    let (expected, expected_bump) = solana_program::pubkey::Pubkey::find_program_address(
        &[b"clerk", b"staged", &sdk_key(&authority).to_bytes()],
        &sdk_key(&program),
    );
    assert_eq!(address, lib_key(&expected));
    assert_eq!(bump, expected_bump);
}

#[test]
fn document_derivation_truncates_the_title() {
    let program = Pubkey::new(404, 405);
    let authority = Pubkey::new(11, 12);
    let title = b"a very long document title that exceeds the seed bound".to_vec();
    let (address, bump) = derive_document_address(&program, &authority, &title).unwrap();
    let (expected, expected_bump) = solana_program::pubkey::Pubkey::find_program_address(
        &[b"document", &sdk_key(&authority).to_bytes(), &title[..32]],
        &sdk_key(&program),
    );
    assert_eq!(address, lib_key(&expected));
    assert_eq!(bump, expected_bump);

    // Two titles sharing the same 32-byte prefix collide by design.
    let mut other = title[..32].to_vec();
    other.extend_from_slice(b" with a different tail");
    let (collided, _) = derive_document_address(&program, &authority, &other).unwrap();
    assert_eq!(collided, address);
}

#[test]
fn short_title_derivation_matches_reference() {
    let program = Pubkey::new(406, 407);
    let authority = Pubkey::new(13, 14);
    let title = b"Test".to_vec();
    let (address, bump) = derive_document_address(&program, &authority, &title).unwrap();
    let (expected, expected_bump) = solana_program::pubkey::Pubkey::find_program_address(
        &[b"document", &sdk_key(&authority).to_bytes(), b"Test"],
        &sdk_key(&program),
    );
    assert_eq!(address, lib_key(&expected));
    assert_eq!(bump, expected_bump);
}

#[test]
fn pubkey_bytes_round_trip() {
    let k = Pubkey::new(0x0102030405060708, 0x0909090909090909);
    let bytes = k.to_bytes();
    assert_eq!(bytes.len(), 32);
    assert_eq!(Pubkey::from_bytes(&bytes), k);
    assert_eq!(Pubkey::default().to_bytes(), vec![0u8; 32]);
}

#[test]
fn signer_seeds_follow_the_tags() {
    let clerk = arbiter::clerk::Clerk {
        authority: Pubkey::new(21, 22),
        documents: vec![],
        upgrades: 0,
        bump: 253,
    };
    let seeds = clerk.signer_seeds();
    assert_eq!(seeds.len(), 3);
    assert_eq!(seeds[0], b"clerk".to_vec());
    assert_eq!(seeds[1], clerk.authority.to_bytes());
    assert_eq!(seeds[2], vec![253u8]);

    let doc = arbiter::document::Document {
        authority: Pubkey::new(23, 24),
        title: vec![9u8; 40],
        uri: vec![],
        created_at: 0,
        participants: vec![Pubkey::new(1, 1)],
        signature_timestamps: vec![0],
        finalization_timestamp: 0,
        bump: 252,
    };
    let seeds = doc.signer_seeds();
    assert_eq!(seeds.len(), 4);
    assert_eq!(seeds[0], b"document".to_vec());
    assert_eq!(seeds[1], doc.authority.to_bytes());
    assert_eq!(seeds[2], vec![9u8; 32]);
    assert_eq!(seeds[3], vec![252u8]);
}

#[test]
fn display_options_carry_their_flags() {
    let opts = DisplayOptions::from_args(true, false);
    assert!(opts.json);
    assert!(!opts.pretty);
    let opts = DisplayOptions::from_args(false, true);
    assert!(!opts.json);
    assert!(opts.pretty);
}
