use solana_launchpad::account::IdoTimes;
use solana_launchpad::error::ErrorCode;
use solana_launchpad::ledger::UserPosition;
use solana_launchpad::merkle_proof::MerkleProof;
use solana_launchpad::processor::{
    exchange_usdc_for_redeemable, exchange_usdc_for_watermelon, init_user_redeemable,
    initialize_pool,
};
use solana_launchpad::SaleState;

fn dep_times() -> IdoTimes {
    IdoTimes {
        start_ido: 100,
        end_whitelisted: 200,
        end_deposits: 300,
        end_ido: 400,
        end_escrow: None,
    }
}

fn dep_user() -> UserPosition {
    UserPosition {
        usdc: 1_000_000,
        redeemable: 0,
        redeemable_open: false,
        watermelon: 0,
        escrow: 0,
        escrow_open: false,
    }
}

fn dep_sale(
    merkle_root: Option<[u8; 32]>,
    private_target: u64,
    num_public: u64,
    num_private: u64,
) -> SaleState {
    let mut authority_watermelon: u64 = u64::MAX;
    initialize_pool(
        b"melon",
        [1; 32],
        [2; 32],
        [3; 32],
        [4; 32],
        private_target,
        num_public,
        num_private,
        dep_times(),
        merkle_root,
        &mut authority_watermelon,
        50,
    )
    .unwrap()
}

#[test]
fn create_sale_moves_the_full_offered_supply() {
    let mut authority_watermelon: u64 = 1_000_000;
    let sale = initialize_pool(
        b"melon",
        [1; 32],
        [2; 32],
        [3; 32],
        [4; 32],
        1_000_000,
        600_000,
        400_000,
        dep_times(),
        None,
        &mut authority_watermelon,
        50,
    )
    .unwrap();
    assert_eq!(sale.pool_watermelon, 1_000_000);
    assert_eq!(authority_watermelon, 0);
    assert_eq!(sale.pool_usdc, 0);
    assert_eq!(sale.redeemable_supply, 0);
    assert_eq!(&sale.ido.ido_name, b"melon     ");
    assert_eq!(sale.ido.merkle_root, [0; 32]);
}

#[test]
fn create_sale_rejects_bad_configurations() {
    let mut melon: u64 = u64::MAX;
    let call = |times: IdoTimes, target: u64, pub_n: u64, priv_n: u64, bal: &mut u64, now: i64| {
        initialize_pool(
            b"melon", [1; 32], [2; 32], [3; 32], [4; 32], target, pub_n, priv_n, times, None,
            bal, now,
        )
    };
    assert_eq!(call(dep_times(), 1, 1, 1, &mut melon, 100).unwrap_err(), ErrorCode::IdoFuture);
    let mut bad = dep_times();
    bad.end_ido = 0;
    assert_eq!(call(bad, 1, 1, 1, &mut melon, 50).unwrap_err(), ErrorCode::SeqTimes);
    assert_eq!(
        call(dep_times(), 0, 1, 1, &mut melon, 50).unwrap_err(),
        ErrorCode::InvalidConfiguration,
    );
    assert_eq!(
        call(dep_times(), 1, u64::MAX, 1, &mut melon, 50).unwrap_err(),
        ErrorCode::MathOverflow,
    );
    let mut poor: u64 = 10;
    assert_eq!(
        call(dep_times(), 1, 6, 5, &mut poor, 50).unwrap_err(),
        ErrorCode::LowWatermelon,
    );
    assert_eq!(poor, 10);
}

#[test]
fn holding_opens_only_inside_the_deposit_windows() {
    let sale = dep_sale(None, 0, 1_000, 0);
    let mut user = dep_user();
    assert_eq!(init_user_redeemable(&sale, &mut user, 99).unwrap_err(), ErrorCode::StartIdoTime);
    assert_eq!(init_user_redeemable(&sale, &mut user, 300).unwrap_err(), ErrorCode::EndDeposits);
    assert!(!user.redeemable_open);
    assert_eq!(init_user_redeemable(&sale, &mut user, 150), Ok(()));
    assert!(user.redeemable_open);
    assert_eq!(user.redeemable, 0);
}

#[test]
fn deposit_is_a_one_to_one_receipt() {
    let mut sale = dep_sale(None, 0, 1_000, 0);
    let mut user = dep_user();
    init_user_redeemable(&sale, &mut user, 150).unwrap();

    let pool_watermelon_before = sale.pool_watermelon;
    assert_eq!(exchange_usdc_for_redeemable(&mut sale, &mut user, 250, 150), Ok(()));
    // claim supply and the reference pool grow by exactly the deposit
    assert_eq!(sale.redeemable_supply, 250);
    assert_eq!(sale.pool_usdc, 250);
    assert_eq!(user.redeemable, 250);
    assert_eq!(user.usdc, 1_000_000 - 250);
    // and no other balance moves
    assert_eq!(sale.pool_watermelon, pool_watermelon_before);
    assert_eq!(user.watermelon, 0);
    assert_eq!(user.escrow, 0);

    // deposits accumulate
    assert_eq!(exchange_usdc_for_redeemable(&mut sale, &mut user, 50, 160), Ok(()));
    assert_eq!(sale.redeemable_supply, 300);
    assert_eq!(user.redeemable, 300);
}

#[test]
fn deposit_outside_its_window_fails() {
    let mut sale = dep_sale(Some([9; 32]), 1, 1_000, 1);
    let mut user = dep_user();
    user.redeemable_open = true;
    assert_eq!(
        exchange_usdc_for_redeemable(&mut sale, &mut user, 10, 99).unwrap_err(),
        ErrorCode::StartIdoTime,
    );
    assert_eq!(
        exchange_usdc_for_redeemable(&mut sale, &mut user, 10, 150).unwrap_err(),
        ErrorCode::WhitelistNotOver,
    );
    assert_eq!(
        exchange_usdc_for_redeemable(&mut sale, &mut user, 10, 300).unwrap_err(),
        ErrorCode::EndDeposits,
    );
    assert_eq!(sale.redeemable_supply, 0);
}

#[test]
fn deposit_checks_the_payer_balance_first() {
    let mut sale = dep_sale(None, 0, 1_000, 0);
    let mut user = dep_user();
    init_user_redeemable(&sale, &mut user, 150).unwrap();
    assert_eq!(
        exchange_usdc_for_redeemable(&mut sale, &mut user, 1_000_001, 150).unwrap_err(),
        ErrorCode::LowUsdc,
    );
    assert_eq!(user.usdc, 1_000_000);
    assert_eq!(sale.pool_usdc, 0);
}

/// Whitelist: a two-leaf tree over the buyer's key and one other value.
fn whitelist_for(key: &[u8]) -> ([u8; 32], Vec<[u8; 32]>) {
    let leaf = MerkleProof::calc_leaf_hash(key);
    let other = MerkleProof::calc_leaf_hash(b"other");
    let root = MerkleProof::process_proof(&vec![other], leaf);
    (root, vec![other])
}

#[test]
fn whitelisted_purchase_charges_the_floor_price() {
    let key = [7u8; 32];
    let (root, proof) = whitelist_for(&key);
    // private_target 1_000_000 over private_supply 500_000: a request
    // for 250_000 offered tokens costs exactly 500_000.
    let mut sale = dep_sale(Some(root), 1_000_000, 500_000, 500_000);
    let mut user = dep_user();
    assert_eq!(
        exchange_usdc_for_watermelon(&mut sale, &mut user, &key, proof, 250_000, 150),
        Ok(()),
    );
    assert_eq!(user.usdc, 1_000_000 - 500_000);
    assert_eq!(sale.pool_usdc, 500_000);
    assert_eq!(user.watermelon, 250_000);
    assert_eq!(sale.pool_watermelon, 1_000_000 - 250_000);
    // the claim token is bypassed entirely
    assert_eq!(sale.redeemable_supply, 0);
    assert_eq!(user.redeemable, 0);
}

#[test]
fn purchase_rounding_to_zero_is_refused() {
    let key = [7u8; 32];
    let (root, proof) = whitelist_for(&key);
    // floor(1 * 1 / 3) = 0: a free purchase must not go through.
    let mut sale = dep_sale(Some(root), 1, 500_000, 3);
    let mut user = dep_user();
    assert_eq!(
        exchange_usdc_for_watermelon(&mut sale, &mut user, &key, proof, 1, 150).unwrap_err(),
        ErrorCode::InvalidAmountPaid,
    );
    assert_eq!(user.usdc, 1_000_000);
    assert_eq!(user.watermelon, 0);
}

#[test]
fn purchase_of_zero_tokens_is_refused() {
    let key = [7u8; 32];
    let (root, proof) = whitelist_for(&key);
    let mut sale = dep_sale(Some(root), 1_000_000, 500_000, 500_000);
    let mut user = dep_user();
    assert_eq!(
        exchange_usdc_for_watermelon(&mut sale, &mut user, &key, proof, 0, 150).unwrap_err(),
        ErrorCode::InvalidAmountOut,
    );
}

#[test]
fn purchase_needs_a_valid_proof() {
    let key = [7u8; 32];
    let (root, proof) = whitelist_for(&key);
    let mut sale = dep_sale(Some(root), 1_000_000, 500_000, 500_000);
    let mut user = dep_user();
    let stranger = [8u8; 32];
    assert_eq!(
        exchange_usdc_for_watermelon(&mut sale, &mut user, &stranger, proof.clone(), 10, 150)
            .unwrap_err(),
        ErrorCode::InvalidProof,
    );
    let mut bent = proof;
    bent[0][0] ^= 1;
    assert_eq!(
        exchange_usdc_for_watermelon(&mut sale, &mut user, &key, bent, 10, 150).unwrap_err(),
        ErrorCode::InvalidProof,
    );
}

#[test]
fn purchase_only_during_the_whitelisted_window() {
    let key = [7u8; 32];
    let (root, proof) = whitelist_for(&key);
    let mut sale = dep_sale(Some(root), 1_000_000, 500_000, 500_000);
    let mut user = dep_user();
    assert_eq!(
        exchange_usdc_for_watermelon(&mut sale, &mut user, &key, proof.clone(), 10, 99)
            .unwrap_err(),
        ErrorCode::StartIdoTime,
    );
    assert_eq!(
        exchange_usdc_for_watermelon(&mut sale, &mut user, &key, proof, 10, 200).unwrap_err(),
        ErrorCode::EndWhitelistedTime,
    );
}

#[test]
fn oversized_price_is_an_arithmetic_error() {
    let key = [7u8; 32];
    let (root, proof) = whitelist_for(&key);
    // floor(u64::MAX * u64::MAX / 1) overflows the balance width.
    let mut sale = dep_sale(Some(root), u64::MAX, 500_000, 1);
    let mut user = dep_user();
    assert_eq!(
        exchange_usdc_for_watermelon(&mut sale, &mut user, &key, proof, u64::MAX, 150)
            .unwrap_err(),
        ErrorCode::MathOverflow,
    );
}
