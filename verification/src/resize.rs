//! In-place growth of a record's storage footprint with proportional
//! deposit accounting.
//!
//! A record's backing allocation carries a byte size and the deposit paid
//! for it.  Growing the allocation transfers `rate * delta` from a payer to
//! the record's backing balance and then enlarges the footprint; when the
//! transfer cannot be made, the record stays at its original size and no
//! balance moves.

use vstd::prelude::*;

use crate::error::ErrorCode;

verus! {

/// The storage backing a record: its allocated byte size and the deposit
/// balance held against it.
#[derive(Clone, Copy, PartialEq, Eq, Structural, Debug)]
pub struct Allocation {
    /// The allocated footprint in bytes.
    pub size: usize,
    /// The deposit balance backing the allocation.
    pub lamports: u64,
}

/// The deposit owed for growing an allocation from `old_size` to
/// `new_size` bytes at `rate` per byte.
pub open spec fn spec_deposit(rate: u64, old_size: nat, new_size: nat) -> int {
    rate * (new_size - old_size)
}

/// Whether the deposit transfer for a growth from `old_size` to `new_size`
/// can be made: the payer covers it and the backing balance can receive it.
pub open spec fn spec_deposit_ok(rate: u64, old_size: nat, new_size: nat, payer: u64, held: u64) -> bool {
    &&& spec_deposit(rate, old_size, new_size) <= payer
    &&& held + spec_deposit(rate, old_size, new_size) <= u64::MAX
}

/// Grows `alloc` to `new_size` bytes, moving the proportional deposit from
/// `payer` into the allocation's backing balance.  A transfer the payer
/// cannot cover, or one the backing balance cannot receive, fails and
/// leaves both the allocation and the payer exactly as they were.
pub fn resize(alloc: &mut Allocation, payer: &mut u64, new_size: usize, rate: u64) -> (r: Result<
    (),
    ErrorCode,
>)
    requires
        new_size >= old(alloc).size,
    ensures
        r is Ok <==> spec_deposit_ok(
            rate,
            old(alloc).size as nat,
            new_size as nat,
            *old(payer),
            old(alloc).lamports,
        ),
        r is Ok ==> {
            &&& final(alloc).size == new_size
            &&& final(alloc).lamports == old(alloc).lamports + spec_deposit(
                rate,
                old(alloc).size as nat,
                new_size as nat,
            )
            &&& *final(payer) == *old(payer) - spec_deposit(
                rate,
                old(alloc).size as nat,
                new_size as nat,
            )
        },
        r is Err ==> {
            &&& r == Err::<(), ErrorCode>(ErrorCode::DepositTransferFailed)
            &&& *final(alloc) == *old(alloc)
            &&& *final(payer) == *old(payer)
        },
{
    let delta = new_size - alloc.size;
    proof {
        assert(0 <= (rate as int) * (delta as int) <= u128::MAX as int) by (nonlinear_arith)
            requires
                0 <= rate as int <= u64::MAX as int,
                0 <= delta as int <= u64::MAX as int,
        ;
    }
    let deposit: u128 = (rate as u128) * (delta as u128);
    if deposit > (*payer as u128) {
        return Err(ErrorCode::DepositTransferFailed);
    }
    if deposit > u64::MAX as u128 - (alloc.lamports as u128) {
        return Err(ErrorCode::DepositTransferFailed);
    }
    *payer = *payer - (deposit as u64);
    alloc.lamports = alloc.lamports + (deposit as u64);
    alloc.size = new_size;
    Ok(())
}

} // verus!
