//! What the core asks of the custody gateway, and what the gateway answers.
//!
//! The core never touches a balance. An operation that moves value names the
//! transfers to make; the host hands each to the gateway, in the order given,
//! as part of the same all-or-nothing unit of work that stores the records.

use vstd::prelude::*;
use crate::errors::ErrorCode;
use crate::identity::{CustodyCapability, Identity};

verus! {

/// Who authorizes a transfer.
#[derive(Clone, Copy, Debug, PartialEq, Eq)]
pub enum Authorization {
    /// The owner of the source account, who signed the operation.
    Signer(Identity),
    /// The exchange itself, for funds held in a pool-owned vault.
    Custodial(CustodyCapability),
}

/// One atomic move of value between two custody accounts.
#[derive(Clone, Copy, Debug, PartialEq, Eq)]
pub struct Transfer {
    pub from: Identity,
    pub to: Identity,
    pub authority: Authorization,
    pub amount: u64,
}

/// Why the custody gateway refused a transfer.
#[derive(Clone, Copy, Debug, PartialEq, Eq, Structural)]
pub enum CustodyError {
    /// The source account holds less than the amount.
    InsufficientFunds,
    /// The authorization does not cover the source account.
    InvalidAuthorization,
}

impl CustodyError {
    /// The error with which an operation ends when the gateway refuses one
    /// of its transfers.
    pub open spec fn surfaced(self) -> ErrorCode {
        match self {
            CustodyError::InsufficientFunds => ErrorCode::InsufficientFunds,
            CustodyError::InvalidAuthorization => ErrorCode::Unauthorized,
        }
    }

    /// Turns a refusal of the gateway into the terminal result of the
    /// operation that asked for the transfer. The host then drops whatever
    /// the operation had staged.
    pub fn surface(self) -> (code: ErrorCode)
        ensures
            code == self.surfaced(),
    {
        match self {
            CustodyError::InsufficientFunds => ErrorCode::InsufficientFunds,
            CustodyError::InvalidAuthorization => ErrorCode::Unauthorized,
        }
    }
}

} // verus!
