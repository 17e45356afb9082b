//! Custodial fund pooling for administrator-owned "sales".
//!
//! An administrator opens a named sale, participants deposit a fungible
//! asset into the sale's pooled vault, and the administrator may later
//! withdraw pooled funds and toggle the sale's started/ended lifecycle.
//! The library is the custody and authorization core: the vault and
//! lifecycle records, the owner check gating privileged operations, and
//! the bookkeeping that mirrors an atomic asset-transfer collaborator.
//! The transfer collaborator itself is modelled in [`ledger`] with the
//! exact behaviour the core relies on: it moves an amount between two
//! holding accounts, debiting and crediting only when the signer owns the
//! source account, and fails with no partial effect otherwise.

pub mod identity;
pub mod ledger;
pub mod sale;
pub mod ops;
pub mod laws;

pub use identity::{Config, Identity};
pub use ledger::{TokenAccount, TransferError};
pub use sale::{CustomError, OpError, State, Vault};
pub use ops::{
    create, deposit, end_sale, start_sale, withdraw, Deposit, EndSale, InitializeSale, StartSale,
    Withdraw,
};
