//! The three operations of a vault: create it, deposit into it, withdraw
//! from it.
//!
//! An operation reads the record and the custody balance as the caller found
//! them before anything moved, decides, and hands back the movements to carry
//! out.  The caller carries them out in order, together with the change to
//! the record, as one unit: if a movement fails, nothing of the operation
//! stands.

use crate::error::ErrorCode;
use crate::intent::CustodyIntent;
use crate::laws::lemma_withdraw_is_fair;
use crate::pool::Pool;
use crate::math::{checked_mul_div, lemma_product_fits_u128, narrow};
use crate::state::{Pubkey, VaultConfig};
use vstd::prelude::*;

verus! {

/// The record of a new vault.  No shares are outstanding and nothing moves.
pub fn initialize_vault(
    bump: u8,
    authority: Pubkey,
    underlying_mint: Pubkey,
    share_mint: Pubkey,
    vault_underlying: Pubkey,
) -> (vault_config: VaultConfig)
    ensures
        vault_config == (VaultConfig {
            bump,
            authority,
            underlying_mint,
            share_mint,
            vault_underlying,
            total_shares: 0,
        }),
{
    VaultConfig { bump, authority, underlying_mint, share_mint, vault_underlying, total_shares: 0 }
}

/// Shares that a deposit of `amount` buys from a pool of `total_shares`
/// shares over a balance of `pool_balance_before`.  Rejected only where the
/// shares would not fit 64 bits.
pub fn shares_to_mint(total_shares: u64, pool_balance_before: u64, amount: u64) -> (r: Result<u64, ErrorCode>)
    ensures
        r is Ok <==> Pool::of(pool_balance_before, total_shares).shares_for(amount as nat)
            <= u64::MAX,
        r matches Ok(minted) ==> minted == Pool::of(pool_balance_before, total_shares).shares_for(
            amount as nat,
        ),
        r matches Err(e) ==> e == ErrorCode::MathOverflow,
{
    if total_shares == 0 || pool_balance_before == 0 {
        Ok(amount)
    } else {
        proof {
            lemma_product_fits_u128(amount, total_shares);
        }
        match checked_mul_div(amount as u128, total_shares as u128, pool_balance_before as u128) {
            Ok(quotient) => narrow(quotient),
            Err(e) => Err(e),
        }
    }
}

/// Underlying asset that `shares` redeem from a pool of `total_shares` shares
/// over a balance of `pool_balance`.  Rejected where no shares are
/// outstanding or the amount would not fit 64 bits.
pub fn amount_to_release(total_shares: u64, pool_balance: u64, shares: u64) -> (r: Result<u64, ErrorCode>)
    ensures
        r is Ok <==> total_shares > 0 && Pool::of(pool_balance, total_shares).amount_for(
            shares as nat,
        ) <= u64::MAX,
        r matches Ok(amount) ==> amount == Pool::of(pool_balance, total_shares).amount_for(
            shares as nat,
        ),
        r matches Err(e) ==> e == ErrorCode::MathOverflow,
{
    proof {
        lemma_product_fits_u128(shares, pool_balance);
    }
    match checked_mul_div(shares as u128, pool_balance as u128, total_shares as u128) {
        Ok(quotient) => narrow(quotient),
        Err(e) => Err(e),
    }
}

/// Deposits `amount` of the underlying asset.  `pool_balance_before` is the
/// custody balance as it stood before the deposit came in.
///
/// On success the shares outstanding grow by the shares bought, and the
/// intents are, in order: pull `amount` in from the user, mint the shares to
/// the user.  A deposit of nothing succeeds and mints nothing.  The deposit is
/// rejected with `MathOverflow` exactly where the shares outstanding would
/// leave 64 bits; the record is then as it was.
pub fn deposit(
    vault_config: &mut VaultConfig,
    pool_balance_before: u64,
    amount: u64,
) -> (r: Result<Vec<CustodyIntent>, ErrorCode>)
    ensures
        r is Err <==> old(vault_config).pool(pool_balance_before).deposit_rejection(amount as nat)
            is Some,
        r matches Err(e) ==> Some(e) == old(vault_config).pool(
            pool_balance_before,
        ).deposit_rejection(amount as nat) && *final(vault_config) == *old(vault_config),
        r matches Ok(intents) ==> intents@ == seq![
            CustodyIntent::PullIn { amount },
            CustodyIntent::Mint {
                shares: old(vault_config).pool(pool_balance_before).shares_for(amount as nat) as u64,
            },
        ],
        r is Ok ==> *final(vault_config) == old(vault_config).with_total_shares(
            old(vault_config).pool(pool_balance_before).after_deposit(amount as nat).shares as u64,
        ),
{
    let minted = match shares_to_mint(vault_config.total_shares, pool_balance_before, amount) {
        Ok(minted) => minted,
        Err(e) => {
            return Err(e);
        },
    };
    let total_shares = match vault_config.total_shares.checked_add(minted) {
        Some(total_shares) => total_shares,
        None => {
            return Err(ErrorCode::MathOverflow);
        },
    };
    vault_config.total_shares = total_shares;
    let intents = vec![CustodyIntent::PullIn { amount }, CustodyIntent::Mint { shares: minted }];
    assert(intents@ =~= seq![CustodyIntent::PullIn { amount }, CustodyIntent::Mint { shares: minted }]);
    Ok(intents)
}

/// Withdraws by handing back `shares`.  `pool_balance` is the custody
/// balance as it stands.
///
/// Rejected, by the first of these that holds: `ZeroAmount` where `shares` is
/// zero; `ZeroShares` where no shares are outstanding; `EmptyPool` where the
/// custody balance is zero; `MathOverflow` where more shares are handed back
/// than are outstanding.  The record is then as it was.  Otherwise the shares
/// outstanding shrink by `shares`, and the intents are, in order: burn the
/// shares of the user, push the amount they redeem out to the user.
pub fn withdraw(
    vault_config: &mut VaultConfig,
    pool_balance: u64,
    shares: u64,
) -> (r: Result<Vec<CustodyIntent>, ErrorCode>)
    ensures
        r is Err <==> old(vault_config).pool(pool_balance).withdraw_rejection(shares as nat)
            is Some,
        r matches Err(e) ==> Some(e) == old(vault_config).pool(pool_balance).withdraw_rejection(
            shares as nat,
        ) && *final(vault_config) == *old(vault_config),
        r matches Ok(intents) ==> intents@ == seq![
            CustodyIntent::Burn { shares },
            CustodyIntent::PushOut {
                amount: old(vault_config).pool(pool_balance).amount_for(shares as nat) as u64,
            },
        ],
        r is Ok ==> old(vault_config).pool(pool_balance).amount_for(shares as nat) <= pool_balance,
        r is Ok ==> *final(vault_config) == old(vault_config).with_total_shares(
            old(vault_config).pool(pool_balance).after_withdraw(shares as nat).shares as u64,
        ),
{
    if shares == 0 {
        return Err(ErrorCode::ZeroAmount);
    }
    if vault_config.total_shares == 0 {
        return Err(ErrorCode::ZeroShares);
    }
    if pool_balance == 0 {
        return Err(ErrorCode::EmptyPool);
    }
    let total_shares = match vault_config.total_shares.checked_sub(shares) {
        Some(total_shares) => total_shares,
        None => {
            return Err(ErrorCode::MathOverflow);
        },
    };
    proof {
        lemma_withdraw_is_fair(vault_config.pool(pool_balance), shares as nat);
    }
    let amount = match amount_to_release(vault_config.total_shares, pool_balance, shares) {
        Ok(amount) => amount,
        Err(e) => {
            return Err(e);
        },
    };
    vault_config.total_shares = total_shares;
    let intents = vec![CustodyIntent::Burn { shares }, CustodyIntent::PushOut { amount }];
    assert(intents@ =~= seq![CustodyIntent::Burn { shares }, CustodyIntent::PushOut { amount }]);
    Ok(intents)
}

} // verus!
