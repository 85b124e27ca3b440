use arbiter::clerk::Clerk;
use arbiter::error::ErrorCode;
use arbiter::instructions::{
    init_clerk_handler, stage_upgrade_handler, upgrade, upgrade_limit_handler, LimitUpgraded,
};
use arbiter::pubkey::Pubkey;
use arbiter::resize::Allocation;

fn key(n: u128) -> Pubkey {
    Pubkey::new(n, 0)
}

#[test]
fn init_clerk_zero_limit_is_rejected() {
    assert_eq!(
        init_clerk_handler(key(1), 0, 255),
        Err(ErrorCode::ClerkLimitIsZero)
    );
}

#[test]
fn init_clerk_creates_empty_slots() {
    let clerk = init_clerk_handler(key(1), 3, 254).unwrap();
    assert_eq!(clerk.authority, key(1));
    assert_eq!(clerk.limit(), 3);
    assert_eq!(clerk.upgrades, 0);
    assert_eq!(clerk.bump, 254);
    assert!(!clerk.is_full());
    for slot in clerk.documents.iter() {
        assert_eq!(*slot, Pubkey::default());
    }
}

#[test]
fn try_assign_fills_first_free_slot_in_order() {
    let mut clerk = init_clerk_handler(key(1), 2, 255).unwrap();
    clerk.try_assign(key(10)).unwrap();
    assert_eq!(clerk.documents[0], key(10));
    assert_eq!(clerk.documents[1], Pubkey::default());
    assert!(clerk.holds(&key(10)));
    assert!(!clerk.holds(&key(11)));
    clerk.try_assign(key(11)).unwrap();
    assert!(clerk.is_full());
    assert_eq!(
        clerk.try_assign(key(12)),
        Err(ErrorCode::ClerkDocumentListIsFull)
    );
    assert_eq!(clerk.documents[0], key(10));
    assert_eq!(clerk.documents[1], key(11));
}

#[test]
fn upgrade_on_non_full_clerk_is_rejected() {
    // Capacity 5 with only 3 assigned documents: expansion must fail.
    let mut clerk = init_clerk_handler(key(1), 5, 255).unwrap();
    for d in 0..3u128 {
        clerk.try_assign(key(100 + d)).unwrap();
    }
    let mut alloc = Allocation {
        size: Clerk::space(5),
        lamports: 1_000,
    };
    let mut payer: u64 = 1_000_000;
    assert_eq!(
        upgrade(&mut clerk, key(2), &mut alloc, &mut payer, 1, 3),
        Err(ErrorCode::ClerkUpgradingWithRemainingSpace)
    );
    assert_eq!(clerk.limit(), 5);
    assert_eq!(clerk.upgrades, 0);
    assert_eq!(alloc.size, Clerk::space(5));
    assert_eq!(payer, 1_000_000);
}

#[test]
fn upgrade_zero_amount_is_rejected() {
    let mut clerk = init_clerk_handler(key(1), 1, 255).unwrap();
    clerk.try_assign(key(9)).unwrap();
    let mut alloc = Allocation {
        size: Clerk::space(1),
        lamports: 0,
    };
    let mut payer: u64 = 10;
    assert_eq!(
        upgrade(&mut clerk, key(2), &mut alloc, &mut payer, 1, 0),
        Err(ErrorCode::ClerkUpgradeAmountIsZero)
    );
}

#[test]
fn upgrade_full_clerk_appends_empty_slots() {
    // A full clerk of capacity 5, expanded by 3, ends at capacity 8 with
    // the original 5 slots unchanged and 3 new empty slots appended.
    let mut clerk = init_clerk_handler(key(1), 5, 255).unwrap();
    for d in 0..5u128 {
        clerk.try_assign(key(100 + d)).unwrap();
    }
    let mut alloc = Allocation {
        size: Clerk::space(5),
        lamports: 500,
    };
    let mut payer: u64 = 1_000;
    let rate: u64 = 2;
    let event = upgrade(&mut clerk, key(2), &mut alloc, &mut payer, rate, 3).unwrap();
    assert_eq!(
        event,
        LimitUpgraded {
            clerk: key(2),
            amount: 3
        }
    );
    assert_eq!(clerk.limit(), 8);
    for d in 0..5u128 {
        assert_eq!(clerk.documents[d as usize], key(100 + d));
    }
    for s in 5..8usize {
        assert_eq!(clerk.documents[s], Pubkey::default());
    }
    assert_eq!(clerk.upgrades, 1);
    assert!(!clerk.is_full());
    // Three more 32-byte slots at 2 lamports per byte: 192 moved.
    assert_eq!(alloc.size, Clerk::space(8));
    assert_eq!(alloc.lamports, 500 + 192);
    assert_eq!(payer, 1_000 - 192);
}

#[test]
fn upgrade_without_deposit_funds_changes_nothing() {
    let mut clerk = init_clerk_handler(key(1), 2, 255).unwrap();
    clerk.try_assign(key(5)).unwrap();
    clerk.try_assign(key(6)).unwrap();
    let mut alloc = Allocation {
        size: Clerk::space(2),
        lamports: 7,
    };
    let mut payer: u64 = 63;
    // One new slot at 2 lamports per byte costs 64; the payer has 63.
    assert_eq!(
        upgrade(&mut clerk, key(2), &mut alloc, &mut payer, 2, 1),
        Err(ErrorCode::DepositTransferFailed)
    );
    assert_eq!(clerk.limit(), 2);
    assert_eq!(clerk.upgrades, 0);
    assert_eq!(alloc.size, Clerk::space(2));
    assert_eq!(alloc.lamports, 7);
    assert_eq!(payer, 63);
}

#[test]
fn staged_migration_copies_then_grows() {
    let mut old_clerk = init_clerk_handler(key(1), 2, 255).unwrap();
    old_clerk.try_assign(key(21)).unwrap();
    old_clerk.try_assign(key(22)).unwrap();
    let staged = stage_upgrade_handler(&old_clerk, 250);
    assert_eq!(staged.authority, old_clerk.authority);
    assert_eq!(staged.documents, old_clerk.documents);
    assert_eq!(staged.upgrades, old_clerk.upgrades);
    assert_eq!(staged.bump, 250);

    let new_clerk = upgrade_limit_handler(&staged, 2, 249).unwrap();
    assert_eq!(new_clerk.limit(), 4);
    assert_eq!(new_clerk.documents[0], key(21));
    assert_eq!(new_clerk.documents[1], key(22));
    assert_eq!(new_clerk.documents[2], Pubkey::default());
    assert_eq!(new_clerk.documents[3], Pubkey::default());
    assert_eq!(new_clerk.upgrades, 1);
    assert_eq!(new_clerk.bump, 249);
}

#[test]
fn staged_migration_requires_full_clerk() {
    let staged = init_clerk_handler(key(1), 2, 255).unwrap();
    assert_eq!(
        upgrade_limit_handler(&staged, 2, 249),
        Err(ErrorCode::ClerkUpgradingWithRemainingSpace)
    );
    assert_eq!(
        upgrade_limit_handler(&staged, 0, 249),
        Err(ErrorCode::ClerkUpgradeAmountIsZero)
    );
}
