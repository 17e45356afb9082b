use vstd::prelude::*;
use crate::identity::{Identity, Config};
use crate::ledger::{TokenAccount, TransferError, transfer, transfer_ok};
use crate::sale::{Vault, State, CustomError, OpError};
use crate::sale::{authorized, check_authorized, initial_state, start_result, end_result};

verus! {

/// The accounts `create` works on: the vault and lifecycle records to be
/// filled, and the signing administrator. The storage-provisioning
/// collaborator allocates both records exactly once per owner and fails a
/// second creation before this operation runs; that check is outside this
/// core.
pub struct InitializeSale {
    pub sale_vault: Vault,
    pub sale_state: State,
    pub admin: Identity,
}

/// Opens a sale: records its display name, zeroes both balances, records
/// the signer as owner, and puts the lifecycle in its initial state. No
/// asset moves.
pub fn create(ctx: &mut InitializeSale, name: String)
    ensures
        final(ctx).sale_vault.name == name,
        final(ctx).sale_vault.balance == 0,
        final(ctx).sale_vault.usdc_balance == 0,
        final(ctx).sale_vault.owner == old(ctx).admin,
        final(ctx).sale_state == initial_state(),
        final(ctx).admin == old(ctx).admin,
{
    ctx.sale_vault.name = name;
    ctx.sale_vault.balance = 0;
    ctx.sale_vault.usdc_balance = 0;
    ctx.sale_vault.owner = ctx.admin;

    ctx.sale_state.started = false;
    ctx.sale_state.ended = false;
}

/// The accounts `deposit` works on: the sale's vault record and lifecycle
/// record, the depositing signer, the depositor's holding account, and
/// the vault's custody account.
pub struct Deposit {
    pub sale_vault: Vault,
    pub user: Identity,
    pub state: State,
    pub user_usdc_account: TokenAccount,
    pub usdc_vault: TokenAccount,
}

/// When the ledger will accept a deposit's transfer: the depositor owns
/// the holding account it draws on, that account holds enough, and the
/// custody account can absorb the amount.
pub open spec fn deposit_transfer_ok(ctx: Deposit, amount: u64) -> bool {
    transfer_ok(ctx.user_usdc_account, ctx.usdc_vault, ctx.user, amount)
}

/// Moves `amount` from the depositor's holding account into the vault's
/// custody account, authorized by the depositor's own signature, and only
/// then raises the vault's balance mirror by the same amount. If the
/// transfer fails, nothing changes. The lifecycle flags are deliberately
/// not consulted: any caller may deposit into any sale, started or not.
pub fn deposit(ctx: &mut Deposit, amount: u64) -> (r: Result<(), OpError>)
    requires
        deposit_transfer_ok(*old(ctx), amount)
            ==> old(ctx).sale_vault.usdc_balance + amount <= u64::MAX,
    ensures
        r is Ok <==> deposit_transfer_ok(*old(ctx), amount),
        r is Ok ==> final(ctx).sale_vault.usdc_balance
            == old(ctx).sale_vault.usdc_balance + amount,
        r is Ok ==> final(ctx).usdc_vault.balance == old(ctx).usdc_vault.balance + amount,
        r is Ok ==> final(ctx).user_usdc_account.balance
            == old(ctx).user_usdc_account.balance - amount,
        r is Err ==> *final(ctx) == *old(ctx),
        old(ctx).user_usdc_account.owner != old(ctx).user
            ==> r == Err::<(), OpError>(OpError::Transfer(TransferError::OwnerMismatch)),
        old(ctx).user_usdc_account.owner == old(ctx).user
            && old(ctx).user_usdc_account.balance < amount
            ==> r == Err::<(), OpError>(OpError::Transfer(TransferError::InsufficientFunds)),
        old(ctx).user_usdc_account.owner == old(ctx).user
            && amount <= old(ctx).user_usdc_account.balance
            && old(ctx).usdc_vault.balance + amount > u64::MAX
            ==> r == Err::<(), OpError>(OpError::Transfer(TransferError::Overflow)),
        final(ctx).sale_vault.name == old(ctx).sale_vault.name,
        final(ctx).sale_vault.balance == old(ctx).sale_vault.balance,
        final(ctx).sale_vault.owner == old(ctx).sale_vault.owner,
        final(ctx).state == old(ctx).state,
        final(ctx).user == old(ctx).user,
        final(ctx).user_usdc_account.owner == old(ctx).user_usdc_account.owner,
        final(ctx).usdc_vault.owner == old(ctx).usdc_vault.owner,
{
    let res = transfer(&mut ctx.user_usdc_account, &mut ctx.usdc_vault, ctx.user, amount);
    match res {
        Ok(()) => {
            ctx.sale_vault.record_deposit(amount);
            Ok(())
        }
        Err(e) => Err(OpError::Transfer(e)),
    }
}

/// The accounts `withdraw` works on: the sale's vault record, the signer
/// claiming to be its owner, the vault's custody account, the recipient's
/// holding account, and the asset identity the withdrawal names.
pub struct Withdraw {
    pub sale_vault: Vault,
    pub user: Identity,
    pub sale_usdc_account: TokenAccount,
    pub user_usdc_account: TokenAccount,
    pub usdc_mint: Identity,
}

/// When the ledger will accept a withdrawal's transfer: the signer owns
/// the custody account, it holds enough, and the recipient's account can
/// absorb the amount.
pub open spec fn withdraw_transfer_ok(ctx: Withdraw, amount: u64) -> bool {
    transfer_ok(ctx.sale_usdc_account, ctx.user_usdc_account, ctx.user, amount)
}

/// When a withdrawal goes through entirely: the named asset is the
/// configured one, the signer is the vault's owner, and the ledger
/// accepts the transfer.
pub open spec fn withdraw_ok(ctx: Withdraw, amount: u64, cfg: Config) -> bool {
    &&& ctx.usdc_mint == cfg.usdc_mint
    &&& authorized(ctx.user, ctx.sale_vault.owner)
    &&& withdraw_transfer_ok(ctx, amount)
}

/// Pays `amount` out of the vault's custody account to the recipient's
/// holding account. The named asset must be the configured one (checked
/// before anything else), the signer must be the vault's owner (else
/// `NotAuthorized`), and the ledger must accept the transfer; any failure
/// leaves every record untouched. On success the vault's balance mirror
/// is *raised* by the amount: this reproduces the recorded behaviour of
/// the service, under which the mirror counts gross transfer volume
/// rather than net custody, and a withdrawal does not lower it.
pub fn withdraw(ctx: &mut Withdraw, amount: u64, cfg: &Config) -> (r: Result<(), OpError>)
    requires
        withdraw_ok(*old(ctx), amount, *cfg)
            ==> old(ctx).sale_vault.usdc_balance + amount <= u64::MAX,
    ensures
        r is Ok <==> withdraw_ok(*old(ctx), amount, *cfg),
        r is Ok ==> final(ctx).sale_vault.usdc_balance
            == old(ctx).sale_vault.usdc_balance + amount,
        r is Ok ==> final(ctx).sale_usdc_account.balance
            == old(ctx).sale_usdc_account.balance - amount,
        r is Ok ==> final(ctx).user_usdc_account.balance
            == old(ctx).user_usdc_account.balance + amount,
        r is Err ==> *final(ctx) == *old(ctx),
        old(ctx).usdc_mint != cfg.usdc_mint ==> r == Err::<(), OpError>(OpError::MintMismatch),
        old(ctx).usdc_mint == cfg.usdc_mint
            && !authorized(old(ctx).user, old(ctx).sale_vault.owner)
            ==> r == Err::<(), OpError>(OpError::Custom(CustomError::NotAuthorized)),
        old(ctx).usdc_mint == cfg.usdc_mint
            && authorized(old(ctx).user, old(ctx).sale_vault.owner)
            && old(ctx).sale_usdc_account.owner != old(ctx).user
            ==> r == Err::<(), OpError>(OpError::Transfer(TransferError::OwnerMismatch)),
        old(ctx).usdc_mint == cfg.usdc_mint
            && authorized(old(ctx).user, old(ctx).sale_vault.owner)
            && old(ctx).sale_usdc_account.owner == old(ctx).user
            && old(ctx).sale_usdc_account.balance < amount
            ==> r == Err::<(), OpError>(OpError::Transfer(TransferError::InsufficientFunds)),
        old(ctx).usdc_mint == cfg.usdc_mint
            && authorized(old(ctx).user, old(ctx).sale_vault.owner)
            && old(ctx).sale_usdc_account.owner == old(ctx).user
            && amount <= old(ctx).sale_usdc_account.balance
            && old(ctx).user_usdc_account.balance + amount > u64::MAX
            ==> r == Err::<(), OpError>(OpError::Transfer(TransferError::Overflow)),
        final(ctx).sale_vault.name == old(ctx).sale_vault.name,
        final(ctx).sale_vault.balance == old(ctx).sale_vault.balance,
        final(ctx).sale_vault.owner == old(ctx).sale_vault.owner,
        final(ctx).user == old(ctx).user,
        final(ctx).usdc_mint == old(ctx).usdc_mint,
        final(ctx).sale_usdc_account.owner == old(ctx).sale_usdc_account.owner,
        final(ctx).user_usdc_account.owner == old(ctx).user_usdc_account.owner,
{
    if ctx.usdc_mint != cfg.usdc_mint {
        return Err(OpError::MintMismatch);
    }
    match check_authorized(ctx.user, ctx.sale_vault.owner) {
        Ok(()) => {}
        Err(e) => {
            return Err(OpError::Custom(e));
        }
    }
    let res = transfer(&mut ctx.sale_usdc_account, &mut ctx.user_usdc_account, ctx.user, amount);
    match res {
        Ok(()) => {
            ctx.sale_vault.record_withdraw(amount);
            Ok(())
        }
        Err(e) => Err(OpError::Transfer(e)),
    }
}

/// The accounts `start_sale` and `end_sale` work on: the sale's two
/// records and the signer claiming to be its owner.
pub struct StartSale {
    pub sale_vault: Vault,
    pub sale_state: State,
    pub admin: Identity,
}

/// See [`StartSale`]; the two lifecycle operations take the same accounts.
pub struct EndSale {
    pub sale_vault: Vault,
    pub sale_state: State,
    pub admin: Identity,
}

/// Marks the sale started and not ended, whatever the flags were before:
/// an owner may reopen a sale that has ended. Fails with `NotAuthorized`,
/// touching nothing, when the signer is not the vault's owner.
pub fn start_sale(ctx: &mut StartSale) -> (r: Result<(), OpError>)
    ensures
        r is Ok <==> authorized(old(ctx).admin, old(ctx).sale_vault.owner),
        r is Ok ==> final(ctx).sale_state == start_result(old(ctx).sale_state),
        r is Err ==> r == Err::<(), OpError>(OpError::Custom(CustomError::NotAuthorized)),
        r is Err ==> final(ctx).sale_state == old(ctx).sale_state,
        final(ctx).sale_vault == old(ctx).sale_vault,
        final(ctx).admin == old(ctx).admin,
{
    match check_authorized(ctx.admin, ctx.sale_vault.owner) {
        Ok(()) => {
            ctx.sale_state.started = true;
            ctx.sale_state.ended = false;
            Ok(())
        }
        Err(e) => Err(OpError::Custom(e)),
    }
}

/// Marks the sale ended, leaving the started flag untouched; no guard
/// requires the sale to have started. Fails with `NotAuthorized`,
/// touching nothing, when the signer is not the vault's owner.
pub fn end_sale(ctx: &mut EndSale) -> (r: Result<(), OpError>)
    ensures
        r is Ok <==> authorized(old(ctx).admin, old(ctx).sale_vault.owner),
        r is Ok ==> final(ctx).sale_state == end_result(old(ctx).sale_state),
        r is Err ==> r == Err::<(), OpError>(OpError::Custom(CustomError::NotAuthorized)),
        r is Err ==> final(ctx).sale_state == old(ctx).sale_state,
        final(ctx).sale_vault == old(ctx).sale_vault,
        final(ctx).admin == old(ctx).admin,
{
    match check_authorized(ctx.admin, ctx.sale_vault.owner) {
        Ok(()) => {
            ctx.sale_state.ended = true;
            Ok(())
        }
        Err(e) => Err(OpError::Custom(e)),
    }
}

} // verus!
