//! A leveraged perpetual-futures engine: markets with open-interest
//! aggregates and interest indices, positions with their fee and profit
//! arithmetic, the batch processor for user and keeper requests, the
//! transfer settlement plan, and the share-accounted vault that backs it
//! all.
//!
//! The engine works on plain values. Accounts and assets are integer
//! handles, time and prices are arguments, and what an action calls for in
//! token movements comes back as amounts; storage, the oracle and the
//! token are the caller's business. Amounts are signed 128-bit integers at
//! seven decimals, interest indices and rates at eighteen. A function
//! states its result over the `spec` functions beside it, and its
//! `requires` asks only that its arithmetic stays within 128 bits.

pub mod actions;
pub mod batch;
pub mod config;
pub mod constants;
pub mod errors;
pub mod execute;
pub mod fixed_point;
pub mod hostdata;
pub mod interest;
pub mod laws;
pub mod lookup;
pub mod market;
pub mod position;
pub mod requests;
pub mod settlement;
pub mod storage;
pub mod trading;
pub mod transfers;
pub mod types;
pub mod user_actions;
pub mod vault;

pub use errors::{TradingError, VaultError};
pub use requests::{ExecuteRequest, ExecuteRequestType, Request, RequestType};
pub use types::{
    default_market, AccountId, AssetId, ConfigUpdate, MarketConfig, MarketData, Position,
    PositionStatus, QueuedMarketInit, TradingConfig,
};
pub use vault::{Vault, WithdrawalRequest};
