//! Terminal results of refused operations.

use vstd::prelude::*;

verus! {

/// Why an operation was refused.
///
/// A refused operation leaves every record as it found it and names no
/// transfer.
#[derive(Clone, Copy, Debug, PartialEq, Eq, Structural)]
pub enum ErrorCode {
    /// Trading is halted on the exchange.
    ExchangePaused,
    /// The trading pair does not accept orders or swaps.
    PairInactive,
    /// An amount was zero, or a fee rate was above 100%.
    InvalidAmount,
    /// A price was zero.
    InvalidPrice,
    /// The swap would pay out less than the caller's minimum.
    SlippageExceeded,
    /// The order was cancelled before.
    OrderNotActive,
    /// The caller may not do this.
    Unauthorized,
    /// A quantity does not fit in 64 bits, or is undefined.
    ArithmeticOverflow,
    /// The custody gateway found too little in the source account.
    InsufficientFunds,
}

impl ErrorCode {
    /// The text shown for each error.
    pub open spec fn message_text(self) -> Seq<char> {
        match self {
            ErrorCode::ExchangePaused => "Exchange is paused"@,
            ErrorCode::PairInactive => "Trading pair is inactive"@,
            ErrorCode::InvalidAmount => "Invalid amount"@,
            ErrorCode::InvalidPrice => "Invalid price"@,
            ErrorCode::SlippageExceeded => "Slippage tolerance exceeded"@,
            ErrorCode::OrderNotActive => "Order is not active"@,
            ErrorCode::Unauthorized => "Unauthorized"@,
            ErrorCode::ArithmeticOverflow => "Arithmetic overflow"@,
            ErrorCode::InsufficientFunds => "Insufficient funds"@,
        }
    }

    /// A short description for logs and user interfaces.
    pub fn message(&self) -> (text: &'static str)
        ensures
            text@ == self.message_text(),
    {
        match self {
            ErrorCode::ExchangePaused => "Exchange is paused",
            ErrorCode::PairInactive => "Trading pair is inactive",
            ErrorCode::InvalidAmount => "Invalid amount",
            ErrorCode::InvalidPrice => "Invalid price",
            ErrorCode::SlippageExceeded => "Slippage tolerance exceeded",
            ErrorCode::OrderNotActive => "Order is not active",
            ErrorCode::Unauthorized => "Unauthorized",
            ErrorCode::ArithmeticOverflow => "Arithmetic overflow",
            ErrorCode::InsufficientFunds => "Insufficient funds",
        }
    }
}

} // verus!
