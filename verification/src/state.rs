//! The record that a vault keeps.

use crate::pool::Pool;
use vstd::prelude::*;

verus! {

/// The address of an account or of an asset: 32 bytes.
pub type Pubkey = [u8; 32];

/// The one long-lived record of a vault.  Every field but `total_shares` is
/// fixed when the vault is created.
#[derive(Clone, Copy, Debug, PartialEq, Eq)]
pub struct VaultConfig {
    /// Bump with which the vault's own address was derived.
    pub bump: u8,
    /// Who created the vault.
    pub authority: Pubkey,
    /// The asset accepted as deposits.
    pub underlying_mint: Pubkey,
    /// The asset issued as shares; the vault alone mints it.
    pub share_mint: Pubkey,
    /// The account that holds the pooled deposits; the vault alone moves
    /// assets out of it.
    pub vault_underlying: Pubkey,
    /// Shares outstanding.
    pub total_shares: u64,
}

impl VaultConfig {
    /// The namespace under which a vault's address is derived.
    pub const SEED_PREFIX: [u8; 12] = [118, 97, 117, 108, 116, 95, 99, 111, 110, 102, 105, 103];

    /// Bytes that a stored record takes: a header of 8, the bump, the four
    /// addresses and the share count.
    pub const LEN: usize = 8 + 1 + 32 + 32 + 32 + 32 + 8;

    /// The pool that the accounting rules see when the custody account holds
    /// `balance`.
    pub open spec fn pool(self, balance: u64) -> Pool {
        Pool::of(balance, self.total_shares)
    }

    /// The seeds with which the vault signs for itself: the namespace, the
    /// underlying asset's address, and the bump.  With them the vault
    /// authorizes a mint or a release without holding a private key.
    pub fn signer_seeds(&self) -> (seeds: Vec<Vec<u8>>)
        ensures
            seeds@.len() == 3,
            seeds@[0]@ == VaultConfig::SEED_PREFIX@,
            seeds@[1]@ == self.underlying_mint@,
            seeds@[2]@ == seq![self.bump],
    {
        let mut prefix: Vec<u8> = Vec::new();
        let mut i: usize = 0;
        while i < 12
            invariant
                i <= 12,
                prefix@ == VaultConfig::SEED_PREFIX@.take(i as int),
            decreases 12 - i,
        {
            prefix.push(VaultConfig::SEED_PREFIX[i]);
            i += 1;
        }
        let mut mint: Vec<u8> = Vec::new();
        let mut j: usize = 0;
        while j < 32
            invariant
                j <= 32,
                mint@ == self.underlying_mint@.take(j as int),
            decreases 32 - j,
        {
            mint.push(self.underlying_mint[j]);
            j += 1;
        }
        let mut bump: Vec<u8> = Vec::new();
        bump.push(self.bump);
        let mut seeds: Vec<Vec<u8>> = Vec::new();
        seeds.push(prefix);
        seeds.push(mint);
        seeds.push(bump);
        seeds
    }

    /// This record with another share count.
    pub open spec fn with_total_shares(self, total_shares: u64) -> VaultConfig {
        VaultConfig { total_shares, ..self }
    }
}

} // verus!
