use vstd::prelude::*;
use crate::identity::Identity;

verus! {

/// A fungible-asset holding account on the external ledger: the identity
/// authorized to move funds out of it, and the balance it holds. The
/// vault's custody account and each depositor's account are values of
/// this type.
#[derive(Clone, Copy, Debug)]
pub struct TokenAccount {
    pub owner: Identity,
    pub balance: u64,
}

/// Why the ledger refused a transfer.
#[derive(Clone, Copy, PartialEq, Eq, Structural, Debug)]
pub enum TransferError {
    /// The signer is not the owner of the source account.
    OwnerMismatch,
    /// The source account holds less than the requested amount.
    InsufficientFunds,
    /// The destination balance cannot absorb the amount.
    Overflow,
}

/// When the ledger accepts a transfer: the signer owns the source account,
/// the source holds enough, and the destination balance can take the amount.
pub open spec fn transfer_ok(
    from: TokenAccount,
    to: TokenAccount,
    authority: Identity,
    amount: u64,
) -> bool {
    &&& from.owner == authority
    &&& amount <= from.balance
    &&& to.balance + amount <= u64::MAX
}

/// The atomic asset-transfer collaborator: moves `amount` from `from` to
/// `to` when `authority` owns `from` and the balances allow it, and
/// otherwise fails with no partial effect. Account ownership never changes.
pub fn transfer(
    from: &mut TokenAccount,
    to: &mut TokenAccount,
    authority: Identity,
    amount: u64,
) -> (r: Result<(), TransferError>)
    ensures
        r is Ok <==> transfer_ok(*old(from), *old(to), authority, amount),
        r is Ok ==> final(from).balance == old(from).balance - amount,
        r is Ok ==> final(to).balance == old(to).balance + amount,
        r is Err ==> *final(from) == *old(from) && *final(to) == *old(to),
        final(from).owner == old(from).owner,
        final(to).owner == old(to).owner,
        old(from).owner != authority ==> r == Err::<(), TransferError>(TransferError::OwnerMismatch),
        old(from).owner == authority && old(from).balance < amount
            ==> r == Err::<(), TransferError>(TransferError::InsufficientFunds),
        old(from).owner == authority && amount <= old(from).balance
            && old(to).balance + amount > u64::MAX
            ==> r == Err::<(), TransferError>(TransferError::Overflow),
{
    if from.owner != authority {
        return Err(TransferError::OwnerMismatch);
    }
    if from.balance < amount {
        return Err(TransferError::InsufficientFunds);
    }
    if to.balance > u64::MAX - amount {
        return Err(TransferError::Overflow);
    }
    from.balance = from.balance - amount;
    to.balance = to.balance + amount;
    Ok(())
}

} // verus!
