use vstd::prelude::*;
use crate::identity::Identity;
use crate::ledger::TransferError;

verus! {

/// Durable ledger record of one sale: its display name, the pooled
/// balances, and the administrator who owns it. `owner` is set once at
/// creation and gates `withdraw`, `start_sale` and `end_sale`.
/// `usdc_balance` mirrors the asset held in the vault's custody account;
/// `balance` is a reserved secondary counter, initialized to zero and
/// never written by any operation.
#[derive(Debug)]
pub struct Vault {
    pub name: String,
    pub balance: u64,
    pub usdc_balance: u64,
    pub owner: Identity,
}

/// Durable lifecycle record of one sale: two independent flags, not a
/// strict state machine. Starting a sale may reopen an ended one, and a
/// sale may be ended without ever having started.
#[derive(Clone, Copy, PartialEq, Eq, Structural, Debug)]
pub struct State {
    pub started: bool,
    pub ended: bool,
}

impl Vault {
    /// Bookkeeping for a deposit: raises the custody mirror by the amount
    /// the transfer collaborator has just moved into the custody account.
    /// Must be called exactly once after each successful inbound transfer
    /// and never otherwise, or the mirror diverges from true custody.
    pub fn record_deposit(&mut self, amount: u64)
        requires
            old(self).usdc_balance + amount <= u64::MAX,
        ensures
            final(self).usdc_balance == old(self).usdc_balance + amount,
            final(self).name == old(self).name,
            final(self).balance == old(self).balance,
            final(self).owner == old(self).owner,
    {
        self.usdc_balance = self.usdc_balance + amount;
    }

    /// Bookkeeping for a withdrawal: *raises* the custody mirror by the
    /// amount just paid out. This reproduces the recorded behaviour of
    /// the service, under which the mirror counts gross transfer volume
    /// rather than net custody; a correcting variant would subtract.
    pub fn record_withdraw(&mut self, amount: u64)
        requires
            old(self).usdc_balance + amount <= u64::MAX,
        ensures
            final(self).usdc_balance == old(self).usdc_balance + amount,
            final(self).name == old(self).name,
            final(self).balance == old(self).balance,
            final(self).owner == old(self).owner,
    {
        self.usdc_balance = self.usdc_balance + amount;
    }
}

/// The errors this core raises itself.
#[derive(Clone, Copy, PartialEq, Eq, Structural, Debug)]
pub enum CustomError {
    /// The caller is not the owner recorded in the vault.
    NotAuthorized,
    /// Reserved for rejecting deposits outside an active sale. No
    /// operation raises it in this revision: deposits are deliberately
    /// permissive and ignore the lifecycle flags.
    SaleNotActive,
}

/// Everything an operation can fail with: this core's own errors, a
/// refusal from the transfer collaborator, or a withdrawal naming an
/// asset other than the configured one.
#[derive(Clone, Copy, PartialEq, Eq, Structural, Debug)]
pub enum OpError {
    Custom(CustomError),
    Transfer(TransferError),
    MintMismatch,
}

/// The authorization guard: a caller is authorized exactly when its
/// identity equals the vault's recorded owner, bit for bit.
pub open spec fn authorized(signer: Identity, owner: Identity) -> bool {
    signer == owner
}

/// Checks the caller against the recorded owner, failing with
/// `NotAuthorized` on any difference.
pub fn check_authorized(signer: Identity, owner: Identity) -> (r: Result<(), CustomError>)
    ensures
        r is Ok <==> authorized(signer, owner),
        !authorized(signer, owner) ==> r == Err::<(), CustomError>(CustomError::NotAuthorized),
{
    if signer == owner {
        Ok(())
    } else {
        Err(CustomError::NotAuthorized)
    }
}

/// The lifecycle a freshly created sale starts in.
pub open spec fn initial_state() -> State {
    State { started: false, ended: false }
}

/// What `start_sale` leaves the lifecycle in: started and not ended,
/// whatever it was before.
pub open spec fn start_result(s: State) -> State {
    State { started: true, ended: false }
}

/// What `end_sale` leaves the lifecycle in: ended, with the started flag
/// untouched.
pub open spec fn end_result(s: State) -> State {
    State { started: s.started, ended: true }
}

} // verus!
