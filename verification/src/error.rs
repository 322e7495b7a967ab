//! Reasons for which the vault rejects an operation.

use vstd::prelude::*;

verus! {

/// Why an operation was rejected.  A rejected operation changes nothing.
#[derive(Clone, Copy, Debug, PartialEq, Eq, Structural)]
pub enum ErrorCode {
    /// A quantity left the integer domain it is kept in.
    MathOverflow,
    /// A withdrawal of zero shares was asked for.
    ZeroAmount,
    /// A withdrawal was asked for while no shares are outstanding.
    ZeroShares,
    /// A withdrawal was asked for while the custody balance is zero.
    EmptyPool,
}

impl ErrorCode {
    /// The text shown to a user for each rejection.
    pub open spec fn spec_message(self) -> Seq<char> {
        match self {
            ErrorCode::MathOverflow => "Math overflow"@,
            ErrorCode::ZeroAmount => "Cannot operate on zero amount"@,
            ErrorCode::ZeroShares => "No shares in vault"@,
            ErrorCode::EmptyPool => "Vault is empty"@,
        }
    }

    /// The text shown to a user for this rejection.
    pub fn message(&self) -> (text: &'static str)
        ensures
            text@ == self.spec_message(),
    {
        match self {
            ErrorCode::MathOverflow => "Math overflow",
            ErrorCode::ZeroAmount => "Cannot operate on zero amount",
            ErrorCode::ZeroShares => "No shares in vault",
            ErrorCode::EmptyPool => "Vault is empty",
        }
    }
}

} // verus!
