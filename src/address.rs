//! Account addresses, seed encodings and program-derived addresses.
use solana_program::pubkey::Pubkey;
use vstd::prelude::*;

verus! {

/// A 32-byte account address.
pub type Key = [u8; 32];

/// The address that `create_program_address` yields for `seeds` (the bump
/// seed included) under `program_id`, or `None` where no address exists.
pub uninterp spec fn program_address(seeds: Seq<Seq<u8>>, program_id: Seq<u8>) -> Option<Seq<u8>>;

/// The address and bump seed that `try_find_program_address` yields for
/// `seeds` under `program_id`, or `None` where no bump seed gives an address.
pub uninterp spec fn canonical_address(seeds: Seq<Seq<u8>>, program_id: Seq<u8>) -> Option<(Seq<u8>, u8)>;

/// Whether `k` is the address of the mint of wrapped native currency.
pub uninterp spec fn is_native_mint_address(k: Seq<u8>) -> bool;

/// The seed list as byte sequences.
pub open spec fn seeds_view(seeds: Seq<Vec<u8>>) -> Seq<Seq<u8>> {
    seeds.map_values(|s: Vec<u8>| s@)
}

/// Relies on solana_program's `Pubkey::create_program_address`: a pure
/// function of the seeds and the program id, `Err` where the seeds do not
/// yield an address.
#[verifier::external_body]
pub(crate) fn create_program_address(seeds: &Vec<Vec<u8>>, program_id: &Key) -> (r: Option<Key>)
    ensures
        match r {
            Some(k) => program_address(seeds_view(seeds@), program_id@) == Some(k@),
            None => program_address(seeds_view(seeds@), program_id@) is None,
        },
{
    let refs: Vec<&[u8]> = seeds.iter().map(|s| s.as_slice()).collect();
    Pubkey::create_program_address(&refs, &Pubkey::new_from_array(*program_id)).ok().map(|k| k.to_bytes())
}

/// Relies on solana_program's `Pubkey::try_find_program_address`: a pure
/// function of the seeds and the program id that returns the first address
/// found while counting the bump seed down from 255.
#[verifier::external_body]
pub(crate) fn find_program_address(seeds: &Vec<Vec<u8>>, program_id: &Key) -> (r: Option<(Key, u8)>)
    ensures
        match r {
            Some((k, b)) => canonical_address(seeds_view(seeds@), program_id@) == Some((k@, b)),
            None => canonical_address(seeds_view(seeds@), program_id@) is None,
        },
{
    let refs: Vec<&[u8]> = seeds.iter().map(|s| s.as_slice()).collect();
    Pubkey::try_find_program_address(&refs, &Pubkey::new_from_array(*program_id)).map(|(k, b)| (k.to_bytes(), b))
}

/// Relies on spl_token's `native_mint::check_id`: whether the key equals the
/// fixed address of the native mint.
#[verifier::external_body]
pub(crate) fn is_native_mint(k: &Key) -> (r: bool)
    ensures
        r == is_native_mint_address(k@),
{
    spl_token::native_mint::check_id(&Pubkey::new_from_array(*k))
}

/// Whether two addresses are equal, byte by byte.
pub fn keys_equal(a: &Key, b: &Key) -> (r: bool)
    ensures
        r == (a@ == b@),
{
    let mut i: usize = 0;
    while i < 32
        invariant
            0 <= i <= 32,
            a@.len() == 32,
            b@.len() == 32,
            forall|j: int| 0 <= j < i ==> a@[j] == b@[j],
        decreases 32 - i,
    {
        if a[i] != b[i] {
            return false;
        }
        i = i + 1;
    }
    assert(a@ =~= b@);
    true
}

/// The eight bytes of `x`, least significant first.
pub open spec fn le_bytes(x: u64) -> Seq<u8> {
    Seq::new(8, |i: int| ((x as int / pow256(i)) % 256) as u8)
}

/// 256 raised to `i`.
pub open spec fn pow256(i: int) -> int
    decreases i,
{
    if i <= 0 { 1 } else { 256 * pow256(i - 1) }
}

/// The eight bytes of `x`, least significant first.
pub fn u64_le_bytes(x: u64) -> (r: Vec<u8>)
    ensures
        r@ == le_bytes(x),
{
    let mut r: Vec<u8> = Vec::new();
    let mut rest: u64 = x;
    let mut i: usize = 0;
    while i < 8
        invariant
            0 <= i <= 8,
            r@.len() == i,
            rest as int == x as int / pow256(i as int),
            forall|j: int| 0 <= j < i ==> r@[j] == ((x as int / pow256(j)) % 256) as u8,
        decreases 8 - i,
    {
        r.push((rest % 256) as u8);
        proof {
            assert(pow256(i as int + 1) == 256 * pow256(i as int));
            lemma_pow256_pos(i as int);
            vstd::arithmetic::div_mod::lemma_div_denominator(x as int, pow256(i as int), 256);
        }
        rest = rest / 256;
        i = i + 1;
    }
    assert(r@ =~= le_bytes(x));
    r
}

proof fn lemma_pow256_pos(i: int)
    ensures
        pow256(i) > 0,
    decreases i,
{
    if i > 0 {
        lemma_pow256_pos(i - 1);
    }
}

} // verus!
