use vstd::prelude::*;

verus! {

/// The failures the payroll program reports; each one corresponds to the
/// runtime program error of the same name.
#[derive(Debug, Clone, Copy, PartialEq, Eq, Structural)]
pub enum PayrollError {
    /// An account's data is too short to hold what is read from it.
    InvalidAccountData,
    /// An intermediate amount does not fit its integer type.
    ArithmeticOverflow,
    /// The funds at hand do not cover what is asked.
    InsufficientFunds,
    /// An argument is out of the accepted range (such as a zero amount).
    InvalidArgument,
}

} // verus!
