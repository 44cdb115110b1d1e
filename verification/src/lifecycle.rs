//! Account lifecycle primitives.
//!
//! `create_pda_account` stages the birth of a program-owned record: it moves
//! the minimum balance from the payer, sizes and zero-fills the record's
//! storage and assigns it to the program.  `close_account` stages the
//! irreversible destruction of a record: a tombstone byte defeats stale
//! readers, the balance drains to a destination and the storage shrinks to
//! its minimum footprint.  Both are unconditional once their checks pass;
//! handlers perform every validation first.

use crate::account::{AccountModel, StagedAccount};
use crate::errors::LendError;
use vstd::prelude::*;
use vstd::slice::slice_to_vec;

verus! {

/// First storage byte of a destroyed record.
pub const TOMBSTONE: u8 = 255;

/// A record type with a canonical byte size.
pub trait StateDefinition {
    /// Canonical byte size of the record.
    const LEN: usize;
}

/// Addition that sticks to the ceiling instead of wrapping.
pub open spec fn spec_saturating_add_u64(a: u64, b: u64) -> u64 {
    if a + b > u64::MAX {
        u64::MAX
    } else {
        (a + b) as u64
    }
}

/// Copies a byte buffer.
pub fn clone_bytes(v: &Vec<u8>) -> (r: Vec<u8>)
    ensures
        r@ == v@,
{
    slice_to_vec(v.as_slice())
}

/// A zero-filled buffer of `space` bytes.
pub fn zeroed_bytes(space: usize) -> (r: Vec<u8>)
    ensures
        r@ == Seq::new(space as nat, |i: int| 0u8),
{
    let mut r: Vec<u8> = Vec::new();
    let mut i: usize = 0;
    while i < space
        invariant
            i <= space,
            r@ == Seq::new(i as nat, |j: int| 0u8),
        decreases space - i,
    {
        r.push(0u8);
        proof {
            assert(r@ =~= Seq::new((i + 1) as nat, |j: int| 0u8));
        }
        i = i + 1;
    }
    r
}

/// What staging the creation of a record yields: the payer drained by the
/// minimum balance, and the target funded, zero-filled at the record size
/// and owned by the program.
pub open spec fn spec_create_pda_account(
    payer: AccountModel,
    target: AccountModel,
    space: nat,
    min_balance: u64,
    program_id: Seq<u8>,
) -> Result<(AccountModel, AccountModel), LendError> {
    if payer.lamports < min_balance {
        Err(LendError::InsufficientFunds)
    } else {
        Ok(
            (
                AccountModel { lamports: (payer.lamports - min_balance) as u64, ..payer },
                AccountModel {
                    lamports: spec_saturating_add_u64(target.lamports, min_balance),
                    owner: program_id,
                    data: Seq::new(space, |i: int| 0u8),
                    ..target
                },
            ),
        )
    }
}

/// Stages the creation of a program-owned record at `target`, paid for by
/// `payer`.  Fails only when the payer cannot cover the minimum balance.
pub fn create_pda_account(
    payer: &StagedAccount,
    target: &StagedAccount,
    space: usize,
    min_balance: u64,
    program_id: &[u8; 32],
) -> (r: Result<(StagedAccount, StagedAccount), LendError>)
    ensures
        (r is Ok) == (spec_create_pda_account(
            payer@,
            target@,
            space as nat,
            min_balance,
            program_id@,
        ) is Ok),
        r matches Ok(p) ==> Ok::<_, LendError>((p.0@, p.1@)) == spec_create_pda_account(
            payer@,
            target@,
            space as nat,
            min_balance,
            program_id@,
        ),
        r matches Err(e) ==> e == LendError::InsufficientFunds,
{
    if payer.lamports < min_balance {
        return Err(LendError::InsufficientFunds);
    }
    let new_payer = StagedAccount {
        key: payer.key,
        lamports: payer.lamports - min_balance,
        owner: payer.owner,
        data: clone_bytes(&payer.data),
        is_signer: payer.is_signer,
    };
    let funded = if target.lamports > u64::MAX - min_balance {
        u64::MAX
    } else {
        target.lamports + min_balance
    };
    let new_target = StagedAccount {
        key: target.key,
        lamports: funded,
        owner: *program_id,
        data: zeroed_bytes(space),
        is_signer: target.is_signer,
    };
    proof {
        assert(new_payer@ =~= AccountModel {
            lamports: (payer@.lamports - min_balance) as u64,
            ..payer@
        });
        assert(new_target@ =~= AccountModel {
            lamports: spec_saturating_add_u64(target@.lamports, min_balance),
            owner: program_id@,
            data: Seq::new(space as nat, |i: int| 0u8),
            ..target@
        });
    }
    Ok((new_payer, new_target))
}

/// What staging the destruction of a record yields: the target drained and
/// tombstoned, the destination credited with its whole balance.
pub open spec fn spec_close_account(target: AccountModel, destination: AccountModel) -> (
    AccountModel,
    AccountModel,
) {
    (
        AccountModel { lamports: 0u64, data: seq![TOMBSTONE], ..target },
        AccountModel {
            lamports: spec_saturating_add_u64(destination.lamports, target.lamports),
            ..destination
        },
    )
}

/// Stages the irreversible destruction of `target`, draining its balance to
/// `destination`.  Callers perform every invariant check first: this
/// primitive is unconditional.
pub fn close_account(target: &StagedAccount, destination: &StagedAccount) -> (r: (
    StagedAccount,
    StagedAccount,
))
    ensures
        (r.0@, r.1@) == spec_close_account(target@, destination@),
{
    let mut tomb: Vec<u8> = Vec::new();
    tomb.push(TOMBSTONE);
    let new_target = StagedAccount {
        key: target.key,
        lamports: 0,
        owner: target.owner,
        data: tomb,
        is_signer: target.is_signer,
    };
    let drained = if destination.lamports > u64::MAX - target.lamports {
        u64::MAX
    } else {
        destination.lamports + target.lamports
    };
    let new_destination = StagedAccount {
        key: destination.key,
        lamports: drained,
        owner: destination.owner,
        data: clone_bytes(&destination.data),
        is_signer: destination.is_signer,
    };
    proof {
        assert(new_target@ =~= spec_close_account(target@, destination@).0);
        assert(new_destination@ =~= spec_close_account(target@, destination@).1);
    }
    (new_target, new_destination)
}

} // verus!
