//! Errors of the red bank.
use vstd::prelude::*;
use crate::bits::BitError;
use crate::decimal::MathError;
use crate::market::ValidationError;

verus! {

/// Records the red bank reads from its storage; loading a missing one fails.
#[derive(Clone, Copy, Debug, PartialEq, Eq, Structural)]
pub enum Record {
    Config,
    GlobalState,
    Market,
    User,
    Debt,
    Collateral,
    MarketDenomByMaToken,
    UncollateralizedLoanLimit,
}

#[derive(Clone, Debug, PartialEq, Eq)]
pub enum ContractError {
    /// Arithmetic overflow or division by zero
    Math(MathError),
    /// A market index outside the bitmaps' range
    Bit(BitError),
    /// A parameter out of bounds
    Validation(ValidationError),
    /// The record was expected in storage but is missing
    NotFound(Record),
    /// An index cannot be brought forward to a moment before its last update
    TimestampBeforeLastUpdate { timestamp: u64, last_updated: u64 },
    Unauthorized,
    InstantiateParamsUnavailable,
    InvalidCoinsSent { denom: String },
    AssetAlreadyInitialized,
    AssetNotInitialized,
    UserHasCollateralizedDebt,
    DepositNotEnabled { denom: String },
    DepositCapExceeded { denom: String },
    InvalidDepositAmount { denom: String },
    InvalidLiquidityIndex,
    UserNoBalance { denom: String },
    InvalidWithdrawAmount { denom: String },
    ExistingUserPositionRequired,
    InvalidHealthFactorAfterWithdraw,
    InvalidBorrowAmount { denom: String },
    BorrowNotEnabled { denom: String },
    UserNoCollateral,
    BorrowAmountExceedsGivenCollateral,
    BorrowAmountExceedsUncollateralizedLoanLimit,
    CannotRepayUncollateralizedLoanOnBehalfOf,
    InvalidRepayAmount { denom: String },
    CannotRepayZeroDebt,
    CannotLiquidateWhenPositiveUncollateralizedLoanLimit,
    CannotLiquidateWhenCollateralUnset { denom: String },
    CannotLiquidateWhenNoCollateralBalance,
    CannotLiquidateWhenNoDebtBalance,
    CannotLiquidateHealthyPosition,
    CannotLiquidateWhenNotEnoughCollateral,
    UserNoCollateralBalance { user_address: String, denom: String },
    InvalidHealthFactorAfterDisablingCollateral,
    CannotTransferTokenWhenInvalidHealthFactor,
    OperationExceedsAvailableLiquidity,
    PriceNotFound { denom: String },
    /// A position the health computation needs is missing
    NoUserBalance,
}

} // verus!
