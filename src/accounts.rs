//! The accounts a settlement reads, and the authorization records it retires.
use vstd::prelude::*;

use crate::address::{
    Key, canonical_address, create_program_address, find_program_address, keys_equal,
    program_address, seeds_view,
};

verus! {

/// Bytes of an authorization record that retirement zeroes.
pub const TRADE_STATE_SIZE: usize = 1;

/// Position of the settlement capability in a delegate's scope list.
pub const EXECUTE_SALE_SCOPE: usize = 3;

/// The programs the marketplace works with.
#[derive(Clone, Copy, Debug)]
pub struct Programs {
    /// This marketplace program, owner of every derived address it checks.
    pub marketplace: Key,
    pub token: Key,
    pub associated_token: Key,
    pub metadata: Key,
}

/// A marketplace instance.
#[derive(Clone, Copy, Debug)]
pub struct AuctionHouse {
    /// The instance's own derived address.
    pub address: Key,
    pub creator: Key,
    pub authority: Key,
    /// The payment currency: the native mint or a fungible-token mint.
    pub treasury_mint: Key,
    pub fee_account: Key,
    pub treasury: Key,
    pub bump: u8,
    pub fee_payer_bump: u8,
    pub treasury_bump: u8,
    /// The marketplace fee, in basis points.
    pub seller_fee_basis_points: u16,
    /// Whether settlement authority is delegated to a third party.
    pub has_auctioneer: bool,
    pub auctioneer_pda_bump: u8,
}

/// An account that holds or will hold tokens: its address, the program
/// that owns it, and its storage, empty while no account exists there.
#[derive(Clone, Debug)]
pub struct TokenAccount {
    pub address: Key,
    pub owner: Key,
    pub data: Vec<u8>,
}

/// The accounts that receive one creator's royalty: the wallet, and for
/// token payment its token account.
#[derive(Clone, Debug)]
pub struct CreatorPayee {
    pub wallet: Key,
    pub token_account: TokenAccount,
}

/// Which parties co-signed the settlement.
#[derive(Clone, Copy, Debug)]
pub struct Signers {
    pub authority: bool,
    pub buyer: bool,
    pub seller: bool,
}

/// An authorization record: its address, balance and storage.
#[derive(Clone, Debug)]
pub struct TradeRecord {
    pub address: Key,
    pub lamports: u64,
    /// The first byte is the bump seed of the address, zero once retired.
    pub data: Vec<u8>,
}

/// The three authorization records a settlement consumes.
#[derive(Clone, Debug)]
pub struct TradeRecords {
    pub buyer: TradeRecord,
    pub seller: TradeRecord,
    /// The zero-price listing, reclaimed only when it holds a balance.
    pub free: TradeRecord,
}

/// A delegate's scope record.
#[derive(Clone, Debug)]
pub struct ScopeRecord {
    pub address: Key,
    pub auctioneer_authority: Key,
    pub auction_house: Key,
    /// One flag per capability.
    pub scopes: Vec<bool>,
}

/// Whether a record is live: non-empty with a non-zero first byte.
pub open spec fn record_live(r: TradeRecord) -> bool {
    r.data@.len() > 0 && r.data@[0] != 0
}

/// Whether a record is live.
pub fn record_is_live(r: &TradeRecord) -> (b: bool)
    ensures
        b == record_live(*r),
{
    r.data.len() > 0 && r.data[0] != 0
}

/// Storage after retirement: the first `TRADE_STATE_SIZE` bytes zeroed.
pub open spec fn zeroed(d: Seq<u8>) -> Seq<u8> {
    Seq::new(d.len(), |i: int| if i < TRADE_STATE_SIZE { 0u8 } else { d[i] })
}

/// Whether `new` is `old` retired: same address, no balance, storage zeroed.
pub open spec fn retired(old: TradeRecord, new: TradeRecord) -> bool {
    &&& new.address == old.address
    &&& new.lamports == 0
    &&& new.data@ == zeroed(old.data@)
}

/// Retires a record: its balance is taken and its storage zeroed.
pub fn retire(r: &mut TradeRecord)
    ensures
        retired(*old(r), *final(r)),
{
    let ghost start = *r;
    r.lamports = 0;
    let ghost before = r.data@;
    let n = r.data.len();
    let mut i: usize = 0;
    while i < n && i < TRADE_STATE_SIZE
        invariant
            0 <= i <= n,
            i <= TRADE_STATE_SIZE,
            n == before.len(),
            before == start.data@,
            r.address == start.address,
            r.lamports == 0,
            r.data@.len() == n,
            forall|j: int|
                0 <= j < n ==> #[trigger] r.data@[j] == if j < i { 0u8 } else { before[j] },
        decreases n - i,
    {
        r.data.set(i, 0);
        i = i + 1;
    }
    assert(r.data@ =~= zeroed(before));
}

/// Whether `seeds` derive `k` under `program`.
pub open spec fn derives(seeds: Seq<Seq<u8>>, program: Key, k: Key) -> bool {
    program_address(seeds, program@) == Some(k@)
}

/// Whether the canonical address of `seeds` under `program` is `k`.
pub open spec fn canonical_for(seeds: Seq<Seq<u8>>, program: Key, k: Key) -> bool {
    canonical_address(seeds, program@) matches Some((a, _)) && a == k@
}

pub(crate) fn check_derived(seeds: &Vec<Vec<u8>>, program: &Key, k: &Key) -> (r: bool)
    ensures
        r == derives(seeds_view(seeds@), *program, *k),
{
    match create_program_address(seeds, program) {
        Some(a) => keys_equal(&a, k),
        None => false,
    }
}

pub(crate) fn check_canonical(seeds: &Vec<Vec<u8>>, program: &Key, k: &Key) -> (r: bool)
    ensures
        r == canonical_for(seeds_view(seeds@), *program, *k),
{
    match find_program_address(seeds, program) {
        Some((a, _)) => keys_equal(&a, k),
        None => false,
    }
}

pub(crate) fn check_canonical_bump(seeds: &Vec<Vec<u8>>, program: &Key, k: &Key, bump: u8) -> (r: bool)
    ensures
        r == (canonical_address(seeds_view(seeds@), program@) == Some((k@, bump))),
{
    match find_program_address(seeds, program) {
        Some((a, b)) => keys_equal(&a, k) && b == bump,
        None => false,
    }
}

} // verus!
