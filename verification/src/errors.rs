use vstd::prelude::*;

verus! {

/// Failures of the trading engine. Each has a stable integer code, which a
/// keeper batch records in place of a result.
#[derive(Clone, Copy, Debug, PartialEq, Eq, Structural)]
pub enum TradingError {
    AlreadyInitialized,
    NotInitialized,
    InvalidConfig,
    UpdateNotQueued,
    UpdateNotUnlocked,
    MarketNotFound,
    MarketDisabled,
    PriceNotFound,
    PriceStale,
    PositionNotFound,
    PositionAlreadyClosed,
    PositionNotOpen,
    PositionNotPending,
    MaxPositionsReached,
    InvalidCollateral,
    InvalidEntryPrice,
    WithdrawalBreaksMargin,
    InvalidTakeProfitPrice,
    InvalidStopLossPrice,
    TakeProfitNotTriggered,
    StopLossNotTriggered,
    PositionNotLiquidatable,
    LimitOrderNotFillable,
    ActionNotAllowedForStatus,
    ContractPaused,
    UtilizationLimitExceeded,
    BadRequest,
}

impl TradingError {
    /// The code of each error; no two errors share one, and none is zero.
    pub open spec fn spec_code(self) -> u32 {
        match self {
            TradingError::AlreadyInitialized => 1,
            TradingError::NotInitialized => 2,
            TradingError::InvalidConfig => 67,
            TradingError::UpdateNotQueued => 65,
            TradingError::UpdateNotUnlocked => 66,
            TradingError::MarketNotFound => 30,
            TradingError::MarketDisabled => 31,
            TradingError::PriceNotFound => 11,
            TradingError::PriceStale => 10,
            TradingError::PositionNotFound => 40,
            TradingError::PositionAlreadyClosed => 41,
            TradingError::PositionNotOpen => 42,
            TradingError::PositionNotPending => 43,
            TradingError::MaxPositionsReached => 68,
            TradingError::InvalidCollateral => 44,
            TradingError::InvalidEntryPrice => 45,
            TradingError::WithdrawalBreaksMargin => 46,
            TradingError::InvalidTakeProfitPrice => 47,
            TradingError::InvalidStopLossPrice => 48,
            TradingError::TakeProfitNotTriggered => 49,
            TradingError::StopLossNotTriggered => 50,
            TradingError::PositionNotLiquidatable => 51,
            TradingError::LimitOrderNotFillable => 52,
            TradingError::ActionNotAllowedForStatus => 69,
            TradingError::ContractPaused => 70,
            TradingError::UtilizationLimitExceeded => 71,
            TradingError::BadRequest => 20,
        }
    }

    #[verifier::when_used_as_spec(spec_code)]
    pub fn code(self) -> (c: u32)
        ensures
            c == self.spec_code(),
            c != 0,
    {
        match self {
            TradingError::AlreadyInitialized => 1,
            TradingError::NotInitialized => 2,
            TradingError::InvalidConfig => 67,
            TradingError::UpdateNotQueued => 65,
            TradingError::UpdateNotUnlocked => 66,
            TradingError::MarketNotFound => 30,
            TradingError::MarketDisabled => 31,
            TradingError::PriceNotFound => 11,
            TradingError::PriceStale => 10,
            TradingError::PositionNotFound => 40,
            TradingError::PositionAlreadyClosed => 41,
            TradingError::PositionNotOpen => 42,
            TradingError::PositionNotPending => 43,
            TradingError::MaxPositionsReached => 68,
            TradingError::InvalidCollateral => 44,
            TradingError::InvalidEntryPrice => 45,
            TradingError::WithdrawalBreaksMargin => 46,
            TradingError::InvalidTakeProfitPrice => 47,
            TradingError::InvalidStopLossPrice => 48,
            TradingError::TakeProfitNotTriggered => 49,
            TradingError::StopLossNotTriggered => 50,
            TradingError::PositionNotLiquidatable => 51,
            TradingError::LimitOrderNotFillable => 52,
            TradingError::ActionNotAllowedForStatus => 69,
            TradingError::ContractPaused => 70,
            TradingError::UtilizationLimitExceeded => 71,
            TradingError::BadRequest => 20,
        }
    }
}

/// Failures of the vault.
#[derive(Clone, Copy, Debug, PartialEq, Eq, Structural)]
pub enum VaultError {
    ZeroAmount,
    InsufficientShares,
    InvalidAmount,
    InsufficientVaultBalance,
    WithdrawalInProgress,
    WithdrawalLocked,
    UnauthorizedStrategy,
}

impl VaultError {
    pub open spec fn spec_code(self) -> u32 {
        match self {
            VaultError::ZeroAmount => 4041,
            VaultError::InsufficientShares => 4042,
            VaultError::InvalidAmount => 4043,
            VaultError::InsufficientVaultBalance => 4045,
            VaultError::WithdrawalInProgress => 4046,
            VaultError::WithdrawalLocked => 4047,
            VaultError::UnauthorizedStrategy => 4048,
        }
    }

    #[verifier::when_used_as_spec(spec_code)]
    pub fn code(self) -> (c: u32)
        ensures
            c == self.spec_code(),
    {
        match self {
            VaultError::ZeroAmount => 4041,
            VaultError::InsufficientShares => 4042,
            VaultError::InvalidAmount => 4043,
            VaultError::InsufficientVaultBalance => 4045,
            VaultError::WithdrawalInProgress => 4046,
            VaultError::WithdrawalLocked => 4047,
            VaultError::UnauthorizedStrategy => 4048,
        }
    }
}

} // verus!
