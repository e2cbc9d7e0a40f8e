//! Royalty and marketplace-fee arithmetic.
use vstd::prelude::*;

use crate::address::Key;
use crate::error::SaleError;

verus! {

/// Basis points in one whole.
pub const BPS_DENOMINATOR: u64 = 10000;

/// One royalty beneficiary of an asset.
#[derive(Clone, Copy, Debug)]
pub struct Creator {
    pub address: Key,
    /// Share of the royalty total, in basis points.
    pub share_bps: u16,
}

/// What the settlement reads of an asset's metadata record.
#[derive(Clone, Debug)]
pub struct AssetMetadata {
    /// Royalty taken from the price, in basis points.
    pub royalty_bps: u16,
    pub creators: Vec<Creator>,
}

/// How the gross price of a sale is split.
#[derive(Clone, Debug)]
pub struct Payouts {
    /// One entry per creator, in the metadata's order.
    pub creator_fees: Vec<u64>,
    /// The price less every creator payout.
    pub leftover_after_royalties: u64,
    /// The marketplace fee.
    pub house_fee: u64,
    /// What reaches the seller.
    pub seller_net: u64,
}

/// `bps` basis points of `amount`, rounded down.
pub open spec fn bps_of(amount: int, bps: int) -> int {
    amount * bps / 10000
}

/// The royalty total of a sale at `price`.
pub open spec fn royalty_total(price: u64, royalty_bps: u16) -> int {
    bps_of(price as int, royalty_bps as int)
}

/// What one creator receives out of the royalty total.
pub open spec fn creator_fee(total: int, c: Creator) -> int {
    bps_of(total, c.share_bps as int)
}

/// The sum of the creator payouts out of `total`.
pub open spec fn creator_fees_sum(total: int, creators: Seq<Creator>) -> int
    decreases creators.len(),
{
    if creators.len() == 0 {
        0
    } else {
        creator_fees_sum(total, creators.drop_last()) + creator_fee(total, creators.last())
    }
}

/// The sum of the creator payouts of a sale at `price`.
pub open spec fn royalties_paid(price: u64, m: AssetMetadata) -> int {
    creator_fees_sum(royalty_total(price, m.royalty_bps), m.creators@)
}

/// The marketplace fee of a sale at `price`.
pub open spec fn house_fee(price: u64, fee_bps: u16) -> int {
    bps_of(price as int, fee_bps as int)
}

/// Whether every checked step of the split stays within `u64`: the two
/// products by basis points, each creator's product, and the two subtractions.
pub open spec fn payouts_fit(price: u64, m: AssetMetadata, fee_bps: u16) -> bool {
    let total = royalty_total(price, m.royalty_bps);
    &&& price as int * m.royalty_bps as int <= u64::MAX
    &&& total <= price
    &&& forall|i: int|
        0 <= i < m.creators@.len() ==> #[trigger] m.creators@[i].share_bps as int * total <= u64::MAX
    &&& royalties_paid(price, m) <= total
    &&& price as int * fee_bps as int <= u64::MAX
    &&& house_fee(price, fee_bps) <= price - royalties_paid(price, m)
}

/// Whether `p` is the split of a sale at `price`.
pub open spec fn is_split_of(p: Payouts, price: u64, m: AssetMetadata, fee_bps: u16) -> bool {
    let total = royalty_total(price, m.royalty_bps);
    &&& p.creator_fees@.len() == m.creators@.len()
    &&& forall|i: int|
        0 <= i < m.creators@.len() ==> #[trigger] p.creator_fees@[i] == creator_fee(total, m.creators@[i])
    &&& p.leftover_after_royalties == price - royalties_paid(price, m)
    &&& p.house_fee == house_fee(price, fee_bps)
    &&& p.seller_net == price - royalties_paid(price, m) - house_fee(price, fee_bps)
}

/// The sum of a sequence of amounts.
pub open spec fn amounts_sum(s: Seq<u64>) -> int
    decreases s.len(),
{
    if s.len() == 0 {
        0
    } else {
        amounts_sum(s.drop_last()) + s.last()
    }
}

proof fn lemma_fees_sum_nonneg_prefix(total: int, cs: Seq<Creator>, i: int)
    requires
        total >= 0,
        0 <= i <= cs.len(),
    ensures
        0 <= creator_fees_sum(total, cs.take(i)) <= creator_fees_sum(total, cs),
    decreases cs.len(),
{
    if cs.len() > 0 {
        let c = cs.last();
        assert(creator_fee(total, c) >= 0) by (nonlinear_arith)
            requires
                total >= 0,
                c.share_bps >= 0,
                creator_fee(total, c) == total * (c.share_bps as int) / 10000,
        ;
        if i == cs.len() {
            assert(cs.take(i) =~= cs);
            lemma_fees_sum_nonneg_prefix(total, cs.drop_last(), i - 1);
            assert(cs.drop_last().take(i - 1) =~= cs.drop_last());
        } else {
            lemma_fees_sum_nonneg_prefix(total, cs.drop_last(), i);
            assert(cs.drop_last().take(i) =~= cs.take(i));
        }
    }
}

/// Splits `price` into creator royalties, the marketplace fee and the
/// seller's share, in that order, each step checked: a creator is paid its
/// share of the royalty total, the fee is taken from the whole price, and
/// the rounding dust of the royalties goes to the seller.
pub fn compute_payouts(price: u64, metadata: &AssetMetadata, fee_bps: u16) -> (r: Result<
    Payouts,
    SaleError,
>)
    ensures
        r is Ok <==> payouts_fit(price, *metadata, fee_bps),
        r matches Ok(p) ==> is_split_of(p, price, *metadata, fee_bps),
        r matches Err(e) ==> e == SaleError::NumericalOverflow,
{
    let ghost m = *metadata;
    let ghost total_spec = royalty_total(price, metadata.royalty_bps);
    let total: u64 = match price.checked_mul(metadata.royalty_bps as u64) {
        Some(v) => v / BPS_DENOMINATOR,
        None => {
            return Err(SaleError::NumericalOverflow);
        },
    };
    assert(total == total_spec);
    if total > price {
        return Err(SaleError::NumericalOverflow);
    }
    let remaining_size: u64 = price - total;
    let mut remaining_fee: u64 = total;
    let mut fees: Vec<u64> = Vec::new();
    let n = metadata.creators.len();
    let mut i: usize = 0;
    while i < n
        invariant
            0 <= i <= n,
            n == metadata.creators@.len(),
            m == *metadata,
            total == total_spec,
            total_spec == royalty_total(price, m.royalty_bps),
            fees@.len() == i,
            forall|j: int| 0 <= j < i ==> #[trigger] fees@[j] == creator_fee(total as int, m.creators@[j]),
            forall|j: int|
                0 <= j < i ==> #[trigger] m.creators@[j].share_bps as int * total <= u64::MAX,
            remaining_fee == total - creator_fees_sum(total as int, m.creators@.take(i as int)),
        decreases n - i,
    {
        let c = metadata.creators[i];
        proof {
            assert(m.creators@.take(i as int + 1).drop_last() =~= m.creators@.take(i as int));
            assert(m.creators@.take(i as int + 1).last() == c);
        }
        let fee: u64 = match (c.share_bps as u64).checked_mul(total) {
            Some(v) => v / BPS_DENOMINATOR,
            None => {
                return Err(SaleError::NumericalOverflow);
            },
        };
        assert(fee == creator_fee(total as int, c)) by (nonlinear_arith)
            requires
                fee == (c.share_bps as u64 * total) / 10000,
                creator_fee(total as int, c) == total * (c.share_bps as int) / 10000,
        ;
        if fee > remaining_fee {
            proof {
                lemma_fees_sum_nonneg_prefix(total as int, m.creators@, i as int + 1);
            }
            return Err(SaleError::NumericalOverflow);
        }
        remaining_fee = remaining_fee - fee;
        fees.push(fee);
        i = i + 1;
    }
    assert(m.creators@.take(n as int) =~= m.creators@);
    proof {
        lemma_fees_sum_nonneg_prefix(total as int, m.creators@, n as int);
    }
    let leftover: u64 = remaining_size + remaining_fee;
    let house: u64 = match price.checked_mul(fee_bps as u64) {
        Some(v) => v / BPS_DENOMINATOR,
        None => {
            return Err(SaleError::NumericalOverflow);
        },
    };
    if house > leftover {
        return Err(SaleError::NumericalOverflow);
    }
    let net: u64 = leftover - house;
    Ok(Payouts {
        creator_fees: fees,
        leftover_after_royalties: leftover,
        house_fee: house,
        seller_net: net,
    })
}

/// The sum of the creator shares, in basis points.
pub open spec fn shares_sum(creators: Seq<Creator>) -> int
    decreases creators.len(),
{
    if creators.len() == 0 {
        0
    } else {
        shares_sum(creators.drop_last()) + creators.last().share_bps
    }
}

proof fn lemma_amounts_match_fees(total: int, cs: Seq<Creator>, fees: Seq<u64>)
    requires
        fees.len() == cs.len(),
        forall|i: int| 0 <= i < cs.len() ==> #[trigger] fees[i] == creator_fee(total, cs[i]),
    ensures
        amounts_sum(fees) == creator_fees_sum(total, cs),
    decreases cs.len(),
{
    if cs.len() > 0 {
        lemma_amounts_match_fees(total, cs.drop_last(), fees.drop_last());
    }
}

/// No unit is lost or created: the creator payouts, the marketplace fee and
/// the seller's share of a split add up to the price exactly.
pub proof fn lemma_split_conserves_price(price: u64, m: AssetMetadata, fee_bps: u16, p: Payouts)
    requires
        is_split_of(p, price, m, fee_bps),
    ensures
        amounts_sum(p.creator_fees@) + p.house_fee + p.seller_net == price,
{
    lemma_amounts_match_fees(royalty_total(price, m.royalty_bps), m.creators@, p.creator_fees@);
}

proof fn lemma_fees_sum_bounded(total: int, cs: Seq<Creator>)
    requires
        total >= 0,
    ensures
        creator_fees_sum(total, cs) * 10000 <= total * shares_sum(cs),
    decreases cs.len(),
{
    if cs.len() > 0 {
        lemma_fees_sum_bounded(total, cs.drop_last());
        let s = cs.last().share_bps as int;
        let f = creator_fee(total, cs.last());
        assert(f * 10000 <= total * s) by (nonlinear_arith)
            requires
                f == total * s / 10000,
                total >= 0,
                s >= 0,
        ;
        assert(total * shares_sum(cs) == total * shares_sum(cs.drop_last()) + total * s) by (nonlinear_arith)
            requires
                shares_sum(cs) == shares_sum(cs.drop_last()) + s,
        ;
    }
}

/// On valid inputs the split always succeeds: creator shares that sum to
/// the whole, royalty and fee rates that together stay within the whole,
/// and a price whose product with the whole fits in `u64`.
pub proof fn lemma_valid_inputs_split(price: u64, m: AssetMetadata, fee_bps: u16)
    requires
        shares_sum(m.creators@) == 10000,
        m.royalty_bps as int + fee_bps as int <= 10000,
        price as int * 10000 <= u64::MAX,
    ensures
        payouts_fit(price, m, fee_bps),
{
    let total = royalty_total(price, m.royalty_bps);
    let r = m.royalty_bps as int;
    let f = fee_bps as int;
    let pr = price as int;
    assert(pr * r <= pr * 10000 && pr * f <= pr * 10000) by (nonlinear_arith)
        requires
            r <= 10000,
            f <= 10000,
            r >= 0,
            f >= 0,
            pr >= 0,
    ;
    vstd::arithmetic::div_mod::lemma_div_pos_is_pos(pr * r, 10000);
    vstd::arithmetic::div_mod::lemma_div_is_ordered(pr * r, pr * 10000, 10000);
    vstd::arithmetic::div_mod::lemma_div_by_multiple(pr, 10000);
    assert forall|i: int| 0 <= i < m.creators@.len() implies #[trigger] m.creators@[i].share_bps as int
        * total <= u64::MAX by {
        let s = m.creators@[i].share_bps as int;
        lemma_share_bounded(m.creators@, i);
        assert(s * total <= 10000 * pr) by (nonlinear_arith)
            requires
                0 <= s <= 10000,
                0 <= total <= pr,
        ;
    }
    lemma_fees_sum_bounded(total, m.creators@);
    let paid = royalties_paid(price, m);
    let fee = house_fee(price, fee_bps);
    assert(paid <= total);
    vstd::arithmetic::div_mod::lemma_fundamental_div_mod(pr * f, 10000);
    vstd::arithmetic::div_mod::lemma_fundamental_div_mod(pr * r, 10000);
    let qf = pr * f / 10000;
    let qr = pr * r / 10000;
    assert(10000 * (qf + qr) <= pr * (f + r)) by (nonlinear_arith)
        requires
            pr * f == 10000 * qf + (pr * f) % 10000,
            pr * r == 10000 * qr + (pr * r) % 10000,
            (pr * f) % 10000 >= 0,
            (pr * r) % 10000 >= 0,
    ;
    assert(pr * (f + r) <= pr * 10000) by (nonlinear_arith)
        requires
            r + f <= 10000,
            pr >= 0,
    ;
    assert(fee + total <= pr);
}

proof fn lemma_share_bounded(cs: Seq<Creator>, i: int)
    requires
        0 <= i < cs.len(),
    ensures
        cs[i].share_bps <= shares_sum(cs),
        shares_sum(cs) >= 0,
    decreases cs.len(),
{
    lemma_shares_nonneg(cs.drop_last());
    if i < cs.len() - 1 {
        lemma_share_bounded(cs.drop_last(), i);
    }
}

proof fn lemma_shares_nonneg(cs: Seq<Creator>)
    ensures
        shares_sum(cs) >= 0,
    decreases cs.len(),
{
    if cs.len() > 0 {
        lemma_shares_nonneg(cs.drop_last());
    }
}

/// At the largest price any fee of two basis points or more makes the
/// split overflow instead of wrapping.
pub proof fn lemma_max_price_overflows(m: AssetMetadata, fee_bps: u16)
    requires
        fee_bps >= 2,
    ensures
        !payouts_fit(u64::MAX, m, fee_bps),
{
    assert(u64::MAX as int * fee_bps as int > u64::MAX) by (nonlinear_arith)
        requires
            fee_bps >= 2,
    ;
}

} // verus!
