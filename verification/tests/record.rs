use share_vault::{checked_mul_div, initialize_vault, narrow, ErrorCode, VaultConfig};

#[test]
fn stored_record_takes_145_bytes() {
    assert_eq!(VaultConfig::LEN, 145);
}

#[test]
fn seed_prefix_spells_the_namespace() {
    assert_eq!(&VaultConfig::SEED_PREFIX[..], &b"vault_config"[..]);
}

#[test]
fn signer_seeds_are_prefix_mint_and_bump() {
    let mut mint = [0u8; 32];
    for (i, byte) in mint.iter_mut().enumerate() {
        *byte = i as u8 + 100;
    }
    let config = initialize_vault(253, [1; 32], mint, [3; 32], [4; 32]);
    let seeds = config.signer_seeds();
    assert_eq!(seeds.len(), 3);
    assert_eq!(seeds[0], b"vault_config".to_vec());
    assert_eq!(seeds[1], mint.to_vec());
    assert_eq!(seeds[2], vec![253u8]);
}

#[test]
fn every_rejection_has_its_message() {
    assert_eq!(ErrorCode::MathOverflow.message(), "Math overflow");
    assert_eq!(ErrorCode::ZeroAmount.message(), "Cannot operate on zero amount");
    assert_eq!(ErrorCode::ZeroShares.message(), "No shares in vault");
    assert_eq!(ErrorCode::EmptyPool.message(), "Vault is empty");
}

#[test]
fn checked_mul_div_floors_the_quotient() {
    assert_eq!(checked_mul_div(500, 1000, 2000), Ok(250));
    assert_eq!(checked_mul_div(250, 2500, 1250), Ok(500));
    assert_eq!(checked_mul_div(7, 3, 2), Ok(10));
    assert_eq!(checked_mul_div(0, u128::MAX, 1), Ok(0));
    assert_eq!(checked_mul_div(u128::MAX, 1, 1), Ok(u128::MAX));
    let max64 = u64::MAX as u128;
    assert_eq!(checked_mul_div(max64, max64, 1), Ok(max64 * max64));
}

#[test]
fn checked_mul_div_rejects_a_product_beyond_128_bits() {
    assert_eq!(checked_mul_div(u128::MAX, 2, 4), Err(ErrorCode::MathOverflow));
    assert_eq!(checked_mul_div(1 << 64, 1 << 64, 1 << 64), Err(ErrorCode::MathOverflow));
    assert_eq!(checked_mul_div(u128::MAX, u128::MAX, u128::MAX), Err(ErrorCode::MathOverflow));
}

#[test]
fn checked_mul_div_rejects_a_zero_divisor() {
    assert_eq!(checked_mul_div(5, 7, 0), Err(ErrorCode::MathOverflow));
    assert_eq!(checked_mul_div(0, 0, 0), Err(ErrorCode::MathOverflow));
}

#[test]
fn narrow_keeps_what_fits_64_bits() {
    assert_eq!(narrow(0), Ok(0));
    assert_eq!(narrow(u64::MAX as u128), Ok(u64::MAX));
    assert_eq!(narrow(u64::MAX as u128 + 1), Err(ErrorCode::MathOverflow));
    assert_eq!(narrow(u128::MAX), Err(ErrorCode::MathOverflow));
}
