use auction_house::address::{keys_equal, u64_le_bytes};
use auction_house::distribution::{compute_payouts, AssetMetadata, Creator};
use auction_house::error::SaleError;

fn metadata(royalty_bps: u16, shares: &[u16]) -> AssetMetadata {
    AssetMetadata {
        royalty_bps,
        creators: shares
            .iter()
            .enumerate()
            .map(|(i, s)| Creator { address: [i as u8 + 50; 32], share_bps: *s })
            .collect(),
    }
}

#[test]
fn two_equal_creators_and_house_fee() {
    let p = compute_payouts(1_000_000, &metadata(500, &[5000, 5000]), 200).unwrap();
    assert_eq!(p.creator_fees, vec![25_000, 25_000]);
    assert_eq!(p.leftover_after_royalties, 950_000);
    assert_eq!(p.house_fee, 20_000);
    assert_eq!(p.seller_net, 930_000);
}

#[test]
fn rounding_dust_goes_to_the_seller() {
    let price = 999_999u64;
    let p = compute_payouts(price, &metadata(333, &[3333, 3333, 3334]), 250).unwrap();
    // royalty total 33_299; creator shares 11_098, 11_098, 11_101
    assert_eq!(p.creator_fees, vec![11_098, 11_098, 11_101]);
    assert_eq!(p.house_fee, 24_999);
    let creators: u64 = p.creator_fees.iter().sum();
    assert_eq!(p.leftover_after_royalties, price - creators);
    assert_eq!(creators + p.house_fee + p.seller_net, price);
}

#[test]
fn zero_share_creator_gets_nothing() {
    let p = compute_payouts(10_000, &metadata(1000, &[0, 10000]), 0).unwrap();
    assert_eq!(p.creator_fees, vec![0, 1000]);
    assert_eq!(p.house_fee, 0);
    assert_eq!(p.seller_net, 9000);
}

#[test]
fn no_creators_keeps_royalty_with_seller() {
    let p = compute_payouts(10_000, &metadata(1000, &[]), 100).unwrap();
    assert!(p.creator_fees.is_empty());
    assert_eq!(p.leftover_after_royalties, 10_000);
    assert_eq!(p.house_fee, 100);
    assert_eq!(p.seller_net, 9_900);
}

#[test]
fn zero_price_pays_nothing() {
    let p = compute_payouts(0, &metadata(500, &[5000, 5000]), 200).unwrap();
    assert_eq!(p.creator_fees, vec![0, 0]);
    assert_eq!(p.house_fee, 0);
    assert_eq!(p.seller_net, 0);
}

#[test]
fn max_price_with_fee_overflows() {
    let r = compute_payouts(u64::MAX, &metadata(0, &[]), 200);
    assert_eq!(r.err(), Some(SaleError::NumericalOverflow));
}

#[test]
fn max_price_with_royalty_overflows() {
    let r = compute_payouts(u64::MAX, &metadata(500, &[10000]), 0);
    assert_eq!(r.err(), Some(SaleError::NumericalOverflow));
}

#[test]
fn fee_above_leftover_overflows() {
    let r = compute_payouts(10_000, &metadata(6000, &[10000]), 5000);
    assert_eq!(r.err(), Some(SaleError::NumericalOverflow));
}

#[test]
fn shares_above_whole_overflow() {
    let r = compute_payouts(10_000, &metadata(1000, &[8000, 8000]), 0);
    assert_eq!(r.err(), Some(SaleError::NumericalOverflow));
}

#[test]
fn royalty_above_whole_overflows() {
    let r = compute_payouts(10_000, &metadata(10001, &[10000]), 0);
    assert_eq!(r.err(), Some(SaleError::NumericalOverflow));
}

#[test]
fn le_bytes_of_u64() {
    assert_eq!(u64_le_bytes(0x0102_0304_0506_0708), vec![8, 7, 6, 5, 4, 3, 2, 1]);
    assert_eq!(u64_le_bytes(u64::MAX), u64::MAX.to_le_bytes().to_vec());
    assert_eq!(u64_le_bytes(1_000_000), 1_000_000u64.to_le_bytes().to_vec());
}

#[test]
fn keys_compare_bytewise() {
    let a = [7u8; 32];
    let mut b = a;
    assert!(keys_equal(&a, &b));
    b[31] = 8;
    assert!(!keys_equal(&a, &b));
}
