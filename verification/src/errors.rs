//! Errors returned by the contracts.
use vstd::prelude::*;

verus! {

/// The arithmetic operation that overflowed.
#[derive(Clone, Copy, Debug, PartialEq, Eq, Structural)]
pub enum OverflowOperation {
    Add,
    Sub,
    Mul,
}

/// An arithmetic overflow on two amounts.
#[derive(Clone, Copy, Debug, PartialEq, Eq, Structural)]
pub struct OverflowError {
    pub operation: OverflowOperation,
    pub operand1: u128,
    pub operand2: u128,
}

/// The standard error kinds of a contract call.
#[derive(Clone, Debug, PartialEq, Eq)]
pub enum StdError {
    /// An error described by a message.
    GenericErr { msg: String },
    /// A stored item that was asked for and is not there.
    NotFound { kind: String },
    /// An overflow or underflow of checked arithmetic.
    Overflow { source: OverflowError },
    /// Bytes that do not decode as a value of `target_type`.
    ParseErr { target_type: String },
}

/// The error of a contract call.
#[derive(Clone, Debug, PartialEq, Eq)]
pub enum ContractError {
    Std(StdError),
    Unauthorized,
}

/// `e` is the generic error with message `m`.
pub open spec fn is_generic_err(e: ContractError, m: Seq<char>) -> bool {
    e matches ContractError::Std(StdError::GenericErr { msg }) && msg@ == m
}

/// `e` is the standard generic error with message `m`.
pub open spec fn is_std_generic_err(e: StdError, m: Seq<char>) -> bool {
    e matches StdError::GenericErr { msg } && msg@ == m
}

/// `e` is the error of subtracting `b` from `a` with `a < b`.
pub open spec fn is_sub_overflow(e: StdError, a: u128, b: u128) -> bool {
    e == StdError::Overflow {
        source: OverflowError { operation: OverflowOperation::Sub, operand1: a, operand2: b },
    }
}

/// `e` is the error of bytes that do not decode as a `target_type`.
pub open spec fn is_parse_err(e: StdError, target_type: Seq<char>) -> bool {
    e matches StdError::ParseErr { target_type: t } && t@ == target_type
}

/// The standard generic error with message `msg`.
pub fn std_generic_err(msg: &str) -> (e: StdError)
    ensures
        is_std_generic_err(e, msg@),
{
    StdError::GenericErr { msg: String::from_str(msg) }
}

/// The contract error made of the generic error with message `msg`.
pub fn generic_err(msg: &str) -> (e: ContractError)
    ensures
        is_generic_err(e, msg@),
{
    ContractError::Std(std_generic_err(msg))
}

/// `a - b`, or the underflow error when `b > a` (`Uint128::checked_sub`).
pub fn checked_sub(a: u128, b: u128) -> (r: Result<u128, StdError>)
    ensures
        a >= b ==> r == Ok::<u128, StdError>((a - b) as u128),
        a < b ==> r is Err && is_sub_overflow(r->Err_0, a, b),
{
    if a >= b {
        Ok(a - b)
    } else {
        Err(
            StdError::Overflow {
                source: OverflowError { operation: OverflowOperation::Sub, operand1: a, operand2: b },
            },
        )
    }
}

} // verus!
