use arbiter::error::ErrorCode;
use arbiter::resize::{resize, Allocation};

#[test]
fn resize_moves_the_proportional_deposit() {
    let mut alloc = Allocation {
        size: 100,
        lamports: 10,
    };
    let mut payer: u64 = 1_000;
    resize(&mut alloc, &mut payer, 150, 4).unwrap();
    assert_eq!(alloc.size, 150);
    assert_eq!(alloc.lamports, 10 + 200);
    assert_eq!(payer, 1_000 - 200);
}

#[test]
fn resize_to_the_same_size_costs_nothing() {
    let mut alloc = Allocation {
        size: 100,
        lamports: 10,
    };
    let mut payer: u64 = 0;
    resize(&mut alloc, &mut payer, 100, u64::MAX).unwrap();
    assert_eq!(alloc.size, 100);
    assert_eq!(alloc.lamports, 10);
    assert_eq!(payer, 0);
}

#[test]
fn resize_fails_when_the_payer_cannot_cover_it() {
    let mut alloc = Allocation {
        size: 100,
        lamports: 10,
    };
    let mut payer: u64 = 199;
    assert_eq!(
        resize(&mut alloc, &mut payer, 150, 4),
        Err(ErrorCode::DepositTransferFailed)
    );
    assert_eq!(alloc.size, 100);
    assert_eq!(alloc.lamports, 10);
    assert_eq!(payer, 199);
}

#[test]
fn resize_fails_when_the_deposit_overflows() {
    // The owed deposit exceeds any possible balance: the transfer fails
    // and nothing moves.
    let mut alloc = Allocation {
        size: 0,
        lamports: 0,
    };
    let mut payer: u64 = u64::MAX;
    assert_eq!(
        resize(&mut alloc, &mut payer, 1_000, u64::MAX),
        Err(ErrorCode::DepositTransferFailed)
    );
    assert_eq!(alloc.size, 0);
    assert_eq!(payer, u64::MAX);

    // The backing balance cannot receive the deposit either.
    let mut alloc = Allocation {
        size: 0,
        lamports: u64::MAX,
    };
    let mut payer: u64 = 100;
    assert_eq!(
        resize(&mut alloc, &mut payer, 10, 10),
        Err(ErrorCode::DepositTransferFailed)
    );
    assert_eq!(alloc.lamports, u64::MAX);
    assert_eq!(payer, 100);
}
