//! What settlement reads of a token account's storage.
use solana_program::program_pack::Pack;
use vstd::prelude::*;

use crate::address::Key;

verus! {

/// Length of a token account's storage.
pub const TOKEN_ACCOUNT_LEN: usize = 165;

/// The fields of a token account that settlement reads.
#[derive(Clone, Copy, Debug)]
pub struct TokenHolding {
    pub mint: Key,
    pub owner: Key,
    /// The third party allowed to move the balance, if any.
    pub delegate: Option<Key>,
}

/// Whether the four bytes at `at` are the tag of an optional field: 0 for
/// none, 1 for some, little-endian.
pub open spec fn option_tag_valid(d: Seq<u8>, at: int) -> bool {
    &&& d[at] == 0 || d[at] == 1
    &&& d[at + 1] == 0
    &&& d[at + 2] == 0
    &&& d[at + 3] == 0
}

/// Whether `d` is the storage of an initialized (or frozen) token account:
/// mint, owner, amount, optional delegate, state, optional native reserve,
/// delegated amount and optional close authority, 165 bytes in all.
pub open spec fn is_token_account_data(d: Seq<u8>) -> bool {
    &&& d.len() == TOKEN_ACCOUNT_LEN
    &&& d[108] == 1 || d[108] == 2
    &&& option_tag_valid(d, 72)
    &&& option_tag_valid(d, 109)
    &&& option_tag_valid(d, 129)
}

/// The mint of token account storage.
pub open spec fn layout_mint(d: Seq<u8>) -> Seq<u8> {
    d.subrange(0, 32)
}

/// The owner of token account storage.
pub open spec fn layout_owner(d: Seq<u8>) -> Seq<u8> {
    d.subrange(32, 64)
}

/// The delegate of token account storage.
pub open spec fn layout_delegate(d: Seq<u8>) -> Option<Seq<u8>> {
    if d[72] == 1 {
        Some(d.subrange(76, 108))
    } else {
        None
    }
}

/// An optional key as an optional byte sequence.
pub open spec fn key_option_view(k: Option<Key>) -> Option<Seq<u8>> {
    match k {
        Some(k) => Some(k@),
        None => None,
    }
}

/// Relies on spl_token's `state::Account::unpack` (solana_program's
/// `Pack::unpack`): it accepts exactly 165 bytes with a valid state that is
/// not uninitialized and valid option tags, and reads the fields at their
/// fixed offsets.
#[verifier::external_body]
pub(crate) fn unpack_token_account(data: &Vec<u8>) -> (r: Option<TokenHolding>)
    ensures
        r is Some <==> is_token_account_data(data@),
        r matches Some(h) ==> h.mint@ == layout_mint(data@) && h.owner@ == layout_owner(data@)
            && key_option_view(h.delegate) == layout_delegate(data@),
{
    spl_token::state::Account::unpack(data).ok().map(
        |a| TokenHolding {
            mint: a.mint.to_bytes(),
            owner: a.owner.to_bytes(),
            delegate: Option::from(a.delegate).map(|d: solana_program::pubkey::Pubkey| d.to_bytes()),
        },
    )
}

} // verus!
