//! The seed lists from which the marketplace's accounts are derived.
use vstd::prelude::*;

use crate::address::{Key, le_bytes, seeds_view, u64_le_bytes};

verus! {

/// `auction_house`, the first seed of every marketplace address.
pub open spec fn prefix_seed() -> Seq<u8> {
    seq![97u8, 117, 99, 116, 105, 111, 110, 95, 104, 111, 117, 115, 101]
}

/// `fee_payer`.
pub open spec fn fee_payer_seed() -> Seq<u8> {
    seq![102u8, 101, 101, 95, 112, 97, 121, 101, 114]
}

/// `treasury`.
pub open spec fn treasury_seed() -> Seq<u8> {
    seq![116u8, 114, 101, 97, 115, 117, 114, 121]
}

/// `signer`.
pub open spec fn signer_seed() -> Seq<u8> {
    seq![115u8, 105, 103, 110, 101, 114]
}

/// `auctioneer`.
pub open spec fn auctioneer_seed() -> Seq<u8> {
    seq![97u8, 117, 99, 116, 105, 111, 110, 101, 101, 114]
}

/// `metadata`.
pub open spec fn metadata_seed() -> Seq<u8> {
    seq![109u8, 101, 116, 97, 100, 97, 116, 97]
}

/// Seeds of a marketplace instance.
pub open spec fn house_seeds(creator: Key, treasury_mint: Key, bump: u8) -> Seq<Seq<u8>> {
    seq![prefix_seed(), creator@, treasury_mint@, seq![bump]]
}

/// Seeds of a marketplace's fee account.
pub open spec fn fee_account_seeds(house: Key, bump: u8) -> Seq<Seq<u8>> {
    seq![prefix_seed(), house@, fee_payer_seed(), seq![bump]]
}

/// Seeds of a marketplace's treasury.
pub open spec fn treasury_seeds(house: Key, bump: u8) -> Seq<Seq<u8>> {
    seq![prefix_seed(), house@, treasury_seed(), seq![bump]]
}

/// Seeds of a buyer's escrow account.
pub open spec fn escrow_seeds(house: Key, buyer: Key, bump: u8) -> Seq<Seq<u8>> {
    seq![prefix_seed(), house@, buyer@, seq![bump]]
}

/// Seeds of the program's custodial signer.
pub open spec fn custodial_signer_seeds(bump: u8) -> Seq<Seq<u8>> {
    seq![prefix_seed(), signer_seed(), seq![bump]]
}

/// Seeds of a delegate's scope record.
pub open spec fn scope_record_seeds(house: Key, auctioneer: Key, bump: u8) -> Seq<Seq<u8>> {
    seq![auctioneer_seed(), house@, auctioneer@, seq![bump]]
}

/// Seeds of a trade state that names the asset-holding account, without bump.
pub open spec fn trade_state_seeds(
    wallet: Key,
    house: Key,
    holder: Key,
    treasury_mint: Key,
    mint: Key,
    price: u64,
    size: u64,
) -> Seq<Seq<u8>> {
    seq![prefix_seed(), wallet@, house@, holder@, treasury_mint@, mint@, le_bytes(price), le_bytes(size)]
}

/// Seeds of a public trade state, open to any holder of the asset, without bump.
pub open spec fn public_trade_state_seeds(
    wallet: Key,
    house: Key,
    treasury_mint: Key,
    mint: Key,
    price: u64,
    size: u64,
) -> Seq<Seq<u8>> {
    seq![prefix_seed(), wallet@, house@, treasury_mint@, mint@, le_bytes(price), le_bytes(size)]
}

/// Seeds of an asset's metadata record, without bump.
pub open spec fn metadata_seeds(metadata_program: Key, mint: Key) -> Seq<Seq<u8>> {
    seq![metadata_seed(), metadata_program@, mint@]
}

/// Seeds of the associated token account of `wallet` for `mint`, without bump.
pub open spec fn associated_seeds(wallet: Key, token_program: Key, mint: Key) -> Seq<Seq<u8>> {
    seq![wallet@, token_program@, mint@]
}

fn prefix_bytes() -> (r: Vec<u8>)
    ensures
        r@ == prefix_seed(),
{
    let r = vec![97u8, 117, 99, 116, 105, 111, 110, 95, 104, 111, 117, 115, 101];
    assert(r@ =~= prefix_seed());
    r
}

fn fee_payer_bytes() -> (r: Vec<u8>)
    ensures
        r@ == fee_payer_seed(),
{
    let r = vec![102u8, 101, 101, 95, 112, 97, 121, 101, 114];
    assert(r@ =~= fee_payer_seed());
    r
}

fn treasury_bytes() -> (r: Vec<u8>)
    ensures
        r@ == treasury_seed(),
{
    let r = vec![116u8, 114, 101, 97, 115, 117, 114, 121];
    assert(r@ =~= treasury_seed());
    r
}

fn signer_bytes() -> (r: Vec<u8>)
    ensures
        r@ == signer_seed(),
{
    let r = vec![115u8, 105, 103, 110, 101, 114];
    assert(r@ =~= signer_seed());
    r
}

fn auctioneer_bytes() -> (r: Vec<u8>)
    ensures
        r@ == auctioneer_seed(),
{
    let r = vec![97u8, 117, 99, 116, 105, 111, 110, 101, 101, 114];
    assert(r@ =~= auctioneer_seed());
    r
}

fn metadata_bytes() -> (r: Vec<u8>)
    ensures
        r@ == metadata_seed(),
{
    let r = vec![109u8, 101, 116, 97, 100, 97, 116, 97];
    assert(r@ =~= metadata_seed());
    r
}

fn key_bytes(k: &Key) -> (r: Vec<u8>)
    ensures
        r@ == k@,
{
    let mut r: Vec<u8> = Vec::new();
    let mut i: usize = 0;
    while i < 32
        invariant
            0 <= i <= 32,
            k@.len() == 32,
            r@ == k@.take(i as int),
        decreases 32 - i,
    {
        r.push(k[i]);
        i = i + 1;
        assert(r@ =~= k@.take(i as int));
    }
    assert(k@.take(32) =~= k@);
    r
}

fn bump_bytes(bump: u8) -> (r: Vec<u8>)
    ensures
        r@ == seq![bump],
{
    let r = vec![bump];
    assert(r@ =~= seq![bump]);
    r
}

fn push_seed(seeds: &mut Vec<Vec<u8>>, s: Vec<u8>)
    ensures
        seeds_view(final(seeds)@) == seeds_view(old(seeds)@).push(s@),
{
    let ghost before = seeds@;
    seeds.push(s);
    assert(seeds_view(seeds@) =~= seeds_view(before).push(s@));
}

pub(crate) fn make_house_seeds(creator: &Key, treasury_mint: &Key, bump: u8) -> (r: Vec<Vec<u8>>)
    ensures
        seeds_view(r@) == house_seeds(*creator, *treasury_mint, bump),
{
    let mut r: Vec<Vec<u8>> = Vec::new();
    push_seed(&mut r, prefix_bytes());
    push_seed(&mut r, key_bytes(creator));
    push_seed(&mut r, key_bytes(treasury_mint));
    push_seed(&mut r, bump_bytes(bump));
    assert(seeds_view(r@) =~= house_seeds(*creator, *treasury_mint, bump));
    r
}

pub(crate) fn make_fee_account_seeds(house: &Key, bump: u8) -> (r: Vec<Vec<u8>>)
    ensures
        seeds_view(r@) == fee_account_seeds(*house, bump),
{
    let mut r: Vec<Vec<u8>> = Vec::new();
    push_seed(&mut r, prefix_bytes());
    push_seed(&mut r, key_bytes(house));
    push_seed(&mut r, fee_payer_bytes());
    push_seed(&mut r, bump_bytes(bump));
    assert(seeds_view(r@) =~= fee_account_seeds(*house, bump));
    r
}

pub(crate) fn make_treasury_seeds(house: &Key, bump: u8) -> (r: Vec<Vec<u8>>)
    ensures
        seeds_view(r@) == treasury_seeds(*house, bump),
{
    let mut r: Vec<Vec<u8>> = Vec::new();
    push_seed(&mut r, prefix_bytes());
    push_seed(&mut r, key_bytes(house));
    push_seed(&mut r, treasury_bytes());
    push_seed(&mut r, bump_bytes(bump));
    assert(seeds_view(r@) =~= treasury_seeds(*house, bump));
    r
}

pub(crate) fn make_escrow_seeds(house: &Key, buyer: &Key, bump: u8) -> (r: Vec<Vec<u8>>)
    ensures
        seeds_view(r@) == escrow_seeds(*house, *buyer, bump),
{
    let mut r: Vec<Vec<u8>> = Vec::new();
    push_seed(&mut r, prefix_bytes());
    push_seed(&mut r, key_bytes(house));
    push_seed(&mut r, key_bytes(buyer));
    push_seed(&mut r, bump_bytes(bump));
    assert(seeds_view(r@) =~= escrow_seeds(*house, *buyer, bump));
    r
}

pub(crate) fn make_custodial_signer_seeds(bump: u8) -> (r: Vec<Vec<u8>>)
    ensures
        seeds_view(r@) == custodial_signer_seeds(bump),
{
    let mut r: Vec<Vec<u8>> = Vec::new();
    push_seed(&mut r, prefix_bytes());
    push_seed(&mut r, signer_bytes());
    push_seed(&mut r, bump_bytes(bump));
    assert(seeds_view(r@) =~= custodial_signer_seeds(bump));
    r
}

pub(crate) fn make_scope_record_seeds(house: &Key, auctioneer: &Key, bump: u8) -> (r: Vec<Vec<u8>>)
    ensures
        seeds_view(r@) == scope_record_seeds(*house, *auctioneer, bump),
{
    let mut r: Vec<Vec<u8>> = Vec::new();
    push_seed(&mut r, auctioneer_bytes());
    push_seed(&mut r, key_bytes(house));
    push_seed(&mut r, key_bytes(auctioneer));
    push_seed(&mut r, bump_bytes(bump));
    assert(seeds_view(r@) =~= scope_record_seeds(*house, *auctioneer, bump));
    r
}

pub(crate) fn make_trade_state_seeds(
    wallet: &Key,
    house: &Key,
    holder: &Key,
    treasury_mint: &Key,
    mint: &Key,
    price: u64,
    size: u64,
) -> (r: Vec<Vec<u8>>)
    ensures
        seeds_view(r@) == trade_state_seeds(*wallet, *house, *holder, *treasury_mint, *mint, price, size),
{
    let mut r: Vec<Vec<u8>> = Vec::new();
    push_seed(&mut r, prefix_bytes());
    push_seed(&mut r, key_bytes(wallet));
    push_seed(&mut r, key_bytes(house));
    push_seed(&mut r, key_bytes(holder));
    push_seed(&mut r, key_bytes(treasury_mint));
    push_seed(&mut r, key_bytes(mint));
    push_seed(&mut r, u64_le_bytes(price));
    push_seed(&mut r, u64_le_bytes(size));
    assert(seeds_view(r@) =~= trade_state_seeds(*wallet, *house, *holder, *treasury_mint, *mint, price, size));
    r
}

pub(crate) fn make_public_trade_state_seeds(
    wallet: &Key,
    house: &Key,
    treasury_mint: &Key,
    mint: &Key,
    price: u64,
    size: u64,
) -> (r: Vec<Vec<u8>>)
    ensures
        seeds_view(r@) == public_trade_state_seeds(*wallet, *house, *treasury_mint, *mint, price, size),
{
    let mut r: Vec<Vec<u8>> = Vec::new();
    push_seed(&mut r, prefix_bytes());
    push_seed(&mut r, key_bytes(wallet));
    push_seed(&mut r, key_bytes(house));
    push_seed(&mut r, key_bytes(treasury_mint));
    push_seed(&mut r, key_bytes(mint));
    push_seed(&mut r, u64_le_bytes(price));
    push_seed(&mut r, u64_le_bytes(size));
    assert(seeds_view(r@) =~= public_trade_state_seeds(*wallet, *house, *treasury_mint, *mint, price, size));
    r
}

pub(crate) fn make_metadata_seeds(metadata_program: &Key, mint: &Key) -> (r: Vec<Vec<u8>>)
    ensures
        seeds_view(r@) == metadata_seeds(*metadata_program, *mint),
{
    let mut r: Vec<Vec<u8>> = Vec::new();
    push_seed(&mut r, metadata_bytes());
    push_seed(&mut r, key_bytes(metadata_program));
    push_seed(&mut r, key_bytes(mint));
    assert(seeds_view(r@) =~= metadata_seeds(*metadata_program, *mint));
    r
}

pub(crate) fn make_associated_seeds(wallet: &Key, token_program: &Key, mint: &Key) -> (r: Vec<Vec<u8>>)
    ensures
        seeds_view(r@) == associated_seeds(*wallet, *token_program, *mint),
{
    let mut r: Vec<Vec<u8>> = Vec::new();
    push_seed(&mut r, key_bytes(wallet));
    push_seed(&mut r, key_bytes(token_program));
    push_seed(&mut r, key_bytes(mint));
    assert(seeds_view(r@) =~= associated_seeds(*wallet, *token_program, *mint));
    r
}

/// `seeds` with the bump seed appended.
pub open spec fn with_bump(seeds: Seq<Seq<u8>>, bump: u8) -> Seq<Seq<u8>> {
    seeds.push(seq![bump])
}

pub(crate) fn push_bump(seeds: &mut Vec<Vec<u8>>, bump: u8)
    ensures
        seeds_view(final(seeds)@) == with_bump(seeds_view(old(seeds)@), bump),
{
    push_seed(seeds, bump_bytes(bump));
}

} // verus!
