use aetherlock_escrow::{
    compute_fee, deposit_funds, initialize_escrow, release_funds, resolve_dispute, seller_amount,
    raise_dispute, initialize_config, DisputeOutcome, EscrowError, EscrowStatus, Holder, Identity,
    TransferAuthority, PROTOCOL_FEE_PERCENT,
};

fn id(b: u8) -> Identity {
    Identity::new([b; 32])
}

#[test]
fn fee_at_two_percent_of_a_million() {
    assert_eq!(compute_fee(1_000_000, 2), Ok(20_000));
    assert_eq!(seller_amount(1_000_000, 20_000), Ok(980_000));
}

#[test]
fn fee_at_ten_percent() {
    assert_eq!(compute_fee(1_000_000, 10), Ok(100_000));
    assert_eq!(compute_fee(12_345, PROTOCOL_FEE_PERCENT), Ok(1_234));
}

#[test]
fn fee_rounds_down() {
    assert_eq!(compute_fee(99, 2), Ok(1));
    assert_eq!(compute_fee(49, 2), Ok(0));
    assert_eq!(compute_fee(0, 10), Ok(0));
}

#[test]
fn fee_never_exceeds_amount() {
    for amount in [0u64, 1, 7, 99, 100, 101, 1_000_000, u64::MAX / 10] {
        for rate in [2u64, 10] {
            let fee = compute_fee(amount, rate).unwrap();
            assert_eq!(fee as u128, (amount as u128 * rate as u128) / 100);
            assert!(fee <= amount);
        }
    }
}

#[test]
fn fee_overflows_near_u64_max() {
    assert_eq!(compute_fee(u64::MAX, 10), Err(EscrowError::MathOverflow));
    assert_eq!(compute_fee(u64::MAX / 10 + 1, 10), Err(EscrowError::MathOverflow));
    assert_eq!(compute_fee(u64::MAX / 10, 10), Ok(u64::MAX / 10 * 10 / 100));
    assert_eq!(compute_fee(u64::MAX / 2 + 1, 2), Err(EscrowError::MathOverflow));
}

#[test]
fn seller_amount_checks_subtraction() {
    assert_eq!(seller_amount(10, 11), Err(EscrowError::MathOverflow));
    assert_eq!(seller_amount(10, 10), Ok(0));
}

#[test]
fn create_fails_on_overflowing_amount() {
    let r = initialize_escrow(
        [1; 32], id(1), id(2), id(3), u64::MAX, 100, [0; 32], id(4), 10, 255,
    );
    assert_eq!(r.err(), Some(EscrowError::MathOverflow));
}

#[test]
fn release_pays_seller_and_treasury_at_two_percent() {
    let mut e = initialize_escrow(
        [1; 32], id(1), id(2), id(3), 1_000_000, 100, [0; 32], id(4), 2, 255,
    )
    .unwrap();
    assert_eq!(e.fee_amount, 20_000);
    assert_eq!(e.status, EscrowStatus::Created);
    deposit_funds(&mut e).unwrap();
    raise_dispute(&mut e, id(1), 50).unwrap();
    let config = initialize_config(id(9), vec![id(7)], 1).unwrap();
    resolve_dispute(&mut e, &config, id(7), DisputeOutcome::FavorSeller).unwrap();
    let (to_seller, to_treasury) = release_funds(&mut e).unwrap();
    assert_eq!(to_seller.amount, 980_000);
    assert_eq!(to_seller.to, Holder::Seller);
    assert_eq!(to_seller.from, Holder::Vault);
    assert_eq!(to_seller.authority, TransferAuthority::Escrow);
    assert_eq!(to_treasury.amount, 20_000);
    assert_eq!(to_treasury.to, Holder::Treasury);
    assert_eq!(to_treasury.mint, id(3));
    assert_eq!(e.status, EscrowStatus::Released);
}
