//! Custody rules for a single-depositor token pool.
//!
//! One depositor at a time locks tokens of one mint in a vault that the pool
//! controls through a derived authority, and later takes them back. Each
//! operation checks its request against the pool record and answers with the
//! transfer to make and the record to store; making the transfer is left to
//! the caller.

pub mod address;
pub mod authority;
pub mod deposit;
pub mod error;
pub mod history;
pub mod initialize;
pub mod state;
pub mod withdraw;

pub use crate::address::Address;
pub use crate::deposit::deposit;
pub use crate::error::PoolError;
pub use crate::initialize::initialize_pool;
pub use crate::state::{
    Account, AccountInfo, Context, Deposit, InitializePool, Pending, Pool, SignerSeeds, TokenAccount,
    Transfer, Withdraw,
};
pub use crate::withdraw::withdraw;
