//! What the vault asks of the custody provider.
//!
//! The vault moves nothing itself.  Each accepted operation yields intents,
//! to be carried out in order and all together or not at all.

use vstd::prelude::*;

verus! {

/// Who puts their name to a movement.
#[derive(Clone, Copy, Debug, PartialEq, Eq, Structural)]
pub enum Authorizer {
    /// The caller of the operation.
    User,
    /// The vault, by its derived signing identity.
    Vault,
}

/// One movement asked of the custody provider.
#[derive(Clone, Copy, Debug, PartialEq, Eq, Structural)]
pub enum CustodyIntent {
    /// Move `amount` of the underlying asset from the user into custody.
    PullIn { amount: u64 },
    /// Mint `shares` to the user.
    Mint { shares: u64 },
    /// Burn `shares` held by the user.
    Burn { shares: u64 },
    /// Move `amount` of the underlying asset from custody to the user.
    PushOut { amount: u64 },
}

impl CustodyIntent {
    /// Who authorizes this movement.  Users part with what is theirs: they
    /// sign for what they pay in and for the shares they burn.  The vault
    /// signs for what only it may do: minting shares and releasing custody.
    pub open spec fn authorized_by(self) -> Authorizer {
        match self {
            CustodyIntent::PullIn { .. } => Authorizer::User,
            CustodyIntent::Mint { .. } => Authorizer::Vault,
            CustodyIntent::Burn { .. } => Authorizer::User,
            CustodyIntent::PushOut { .. } => Authorizer::Vault,
        }
    }

    /// Who authorizes this movement.
    pub fn authorizer(&self) -> (who: Authorizer)
        ensures
            who == self.authorized_by(),
    {
        match self {
            CustodyIntent::PullIn { .. } => Authorizer::User,
            CustodyIntent::Mint { .. } => Authorizer::Vault,
            CustodyIntent::Burn { .. } => Authorizer::User,
            CustodyIntent::PushOut { .. } => Authorizer::Vault,
        }
    }
}

} // verus!
