//! The settlement engine: validates a matched buy and sell authorization,
//! splits the payment, plans the transfers and retires the records.
use vstd::prelude::*;

use crate::accounts::{
    AuctionHouse, CreatorPayee, EXECUTE_SALE_SCOPE, Programs, ScopeRecord, Signers, TokenAccount,
    TradeRecords, canonical_for, check_canonical, check_canonical_bump, check_derived,
    derives, record_is_live, record_live, retire, retired,
};
use crate::address::{
    Key, canonical_address, is_native_mint, is_native_mint_address, keys_equal, program_address,
};
use crate::distribution::{
    AssetMetadata, Creator, Payouts, amounts_sum, compute_payouts, creator_fees_sum, is_split_of,
    lemma_split_conserves_price, payouts_fit, royalties_paid, royalty_total,
};
use crate::error::SaleError;
use crate::token::{
    is_token_account_data, layout_delegate, layout_mint, layout_owner, unpack_token_account,
};
use crate::seeds::{
    associated_seeds, custodial_signer_seeds, escrow_seeds, fee_account_seeds, house_seeds,
    make_associated_seeds, make_custodial_signer_seeds, make_escrow_seeds,
    make_fee_account_seeds, make_house_seeds, make_metadata_seeds, make_public_trade_state_seeds,
    make_scope_record_seeds, make_trade_state_seeds, make_treasury_seeds, metadata_seeds,
    public_trade_state_seeds, push_bump, scope_record_seeds, trade_state_seeds, treasury_seeds,
    with_bump,
};

verus! {

/// The accounts of a direct settlement, read before anything moves.
#[derive(Clone, Debug)]
pub struct ExecuteSale {
    pub programs: Programs,
    /// The marketplace instance; on the delegated path, the one the bid was posted under.
    pub auction_house: AuctionHouse,
    pub buyer: Key,
    pub seller: Key,
    /// The seller's asset-holding account.
    pub token_account: TokenAccount,
    pub token_mint: Key,
    pub metadata: Key,
    /// The metadata record, `None` where it is empty.
    pub metadata_record: Option<AssetMetadata>,
    pub treasury_mint: Key,
    pub escrow_payment_account: Key,
    pub seller_payment_receipt_account: TokenAccount,
    pub buyer_receipt_token_account: TokenAccount,
    pub authority: Key,
    pub auction_house_fee_account: Key,
    pub auction_house_treasury: Key,
    pub program_as_signer: Key,
    /// The royalty receivers, in the order of the metadata's creators.
    pub creator_payees: Vec<CreatorPayee>,
    pub signers: Signers,
}

/// What the delegated path adds: the listing's marketplace instance and
/// the delegate with its scope record.
#[derive(Clone, Debug)]
pub struct Delegation {
    pub listing_auction_house: AuctionHouse,
    pub listing_auction_house_treasury: Key,
    pub auctioneer_authority: Key,
    pub ah_auctioneer_pda: ScopeRecord,
}

/// The accounts of a delegated settlement.
#[derive(Clone, Debug)]
pub struct ExecuteSaleWithAuctioneer {
    pub sale: ExecuteSale,
    pub delegation: Delegation,
}

/// The arguments of a settlement.
#[derive(Clone, Copy, Debug)]
pub struct SaleTerms {
    pub escrow_payment_bump: u8,
    pub free_trade_state_bump: u8,
    pub program_as_signer_bump: u8,
    pub buyer_price: u64,
    pub token_size: u64,
}

/// Who pays for the accounts created and receives the reclaimed balances.
#[derive(Clone, Copy, Debug, PartialEq, Eq, Structural)]
pub enum FeePayer {
    /// The marketplace's fee account, when the authority co-signed.
    AuctionHouse,
    Buyer,
    Seller,
}

/// Who signs the payments out of the escrow.
#[derive(Clone, Copy, Debug, PartialEq, Eq, Structural)]
pub enum PaymentAuthority {
    /// Native currency: the escrow account signs for itself.
    Escrow,
    /// Token payment: the marketplace instance, owner of the escrow, signs.
    AuctionHouse,
}

/// One step of a settlement, carried out in order.
#[derive(Clone, Copy, Debug)]
pub enum Action {
    /// Create the associated token account `account` of `owner` for `mint`,
    /// paid for by the fee payer.
    CreateAccount { account: Key, owner: Key, mint: Key },
    /// Pay `amount` of the payment currency from the escrow to `to`.
    Pay { to: Key, amount: u64 },
    /// Move `amount` units of the asset, signed by the custodial signer.
    MoveAsset { from: Key, to: Key, amount: u64 },
}

/// The outcome of a settlement that was accepted.
#[derive(Clone, Debug)]
pub struct Settlement {
    pub native: bool,
    pub fee_payer: FeePayer,
    pub payer: Key,
    pub payment_authority: PaymentAuthority,
    pub payouts: Payouts,
    pub actions: Vec<Action>,
    /// The balances taken from the retired records, owed to the payer.
    pub reclaimed: u64,
}

/// Whether the asset-holding account has delegated custody to the program's
/// custodial signer.
pub open spec fn custodial_delegate_set(s: ExecuteSale, t: SaleTerms) -> bool {
    let d = s.token_account.data@;
    is_token_account_data(d) && (layout_delegate(d) matches Some(k) && program_address(
        custodial_signer_seeds(t.program_as_signer_bump),
        s.programs.marketplace@,
    ) == Some(k))
}

/// Whether a zero-price sale lacks both the authority's and the seller's signature.
pub open spec fn free_sale_unsigned(s: ExecuteSale, t: SaleTerms) -> bool {
    t.buyer_price == 0 && !s.signers.authority && !s.signers.seller
}

/// What stops the chosen path: a delegate must use the delegated path, and
/// the delegated path needs a delegate whose scope record grants settlement.
pub open spec fn delegation_error(s: ExecuteSale, d: Option<&Delegation>) -> Option<SaleError> {
    match d {
        None => if s.auction_house.has_auctioneer {
            Some(SaleError::MustUseAuctioneerHandler)
        } else {
            None
        },
        Some(d) => {
            let scope = d.ah_auctioneer_pda;
            if !s.auction_house.has_auctioneer {
                Some(SaleError::NoAuctioneerProgramSet)
            } else if scope.auctioneer_authority@ != d.auctioneer_authority@ || scope.auction_house@
                != s.auction_house.address@ {
                Some(SaleError::AuctioneerNotConfigured)
            } else if !(scope.scopes@.len() > EXECUTE_SALE_SCOPE
                && scope.scopes@[EXECUTE_SALE_SCOPE as int]) {
                Some(SaleError::InsufficientAuctioneerScope)
            } else {
                None
            }
        },
    }
}

/// The instance the listing was posted under.
pub open spec fn listing_of(s: ExecuteSale, d: Option<&Delegation>) -> AuctionHouse {
    match d {
        None => s.auction_house,
        Some(d) => d.listing_auction_house,
    }
}

/// The price the listing's record is derived from: the public any-price
/// sentinel on the delegated path.
pub open spec fn listing_price(t: SaleTerms, d: Option<&Delegation>) -> u64 {
    if d is Some {
        u64::MAX
    } else {
        t.buyer_price
    }
}

/// Whether the marketplace's own accounts are the ones derived from it.
pub open spec fn house_accounts_match(s: ExecuteSale, t: SaleTerms) -> bool {
    let h = s.auction_house;
    let p = s.programs.marketplace;
    &&& derives(house_seeds(h.creator, h.treasury_mint, h.bump), p, h.address)
    &&& s.authority@ == h.authority@
    &&& s.treasury_mint@ == h.treasury_mint@
    &&& derives(fee_account_seeds(h.address, h.fee_payer_bump), p, s.auction_house_fee_account)
    &&& derives(treasury_seeds(h.address, h.treasury_bump), p, s.auction_house_treasury)
    &&& derives(escrow_seeds(h.address, s.buyer, t.escrow_payment_bump), p, s.escrow_payment_account)
    &&& derives(custodial_signer_seeds(t.program_as_signer_bump), p, s.program_as_signer)
}

/// Whether the listing instance and the scope record are the ones derived.
pub open spec fn delegation_accounts_match(s: ExecuteSale, d: Option<&Delegation>) -> bool {
    match d {
        None => true,
        Some(d) => {
            let l = d.listing_auction_house;
            let p = s.programs.marketplace;
            &&& derives(house_seeds(l.creator, l.treasury_mint, l.bump), p, l.address)
            &&& l.treasury_mint@ == s.treasury_mint@
            &&& derives(treasury_seeds(l.address, l.treasury_bump), p, d.listing_auction_house_treasury)
            &&& derives(
                scope_record_seeds(
                    s.auction_house.address,
                    d.auctioneer_authority,
                    s.auction_house.auctioneer_pda_bump,
                ),
                p,
                d.ah_auctioneer_pda.address,
            )
        },
    }
}

/// Whether the three records sit at the addresses derived from the terms;
/// the buyer's under its canonical bump, private or public.
pub open spec fn trade_records_match(
    s: ExecuteSale,
    d: Option<&Delegation>,
    t: SaleTerms,
    recs: TradeRecords,
) -> bool {
    let l = listing_of(s, d);
    let h = s.auction_house;
    let p = s.programs.marketplace;
    let holder = s.token_account.address;
    &&& derives(
        with_bump(
            trade_state_seeds(
                s.seller,
                l.address,
                holder,
                l.treasury_mint,
                s.token_mint,
                listing_price(t, d),
                t.token_size,
            ),
            recs.seller.data@[0],
        ),
        p,
        recs.seller.address,
    )
    &&& derives(
        with_bump(
            trade_state_seeds(s.seller, l.address, holder, l.treasury_mint, s.token_mint, 0, t.token_size),
            t.free_trade_state_bump,
        ),
        p,
        recs.free.address,
    )
    &&& (canonical_address(
        trade_state_seeds(s.buyer, h.address, holder, h.treasury_mint, s.token_mint, t.buyer_price, t.token_size),
        p@,
    ) == Some((recs.buyer.address@, recs.buyer.data@[0])) || canonical_address(
        public_trade_state_seeds(s.buyer, h.address, h.treasury_mint, s.token_mint, t.buyer_price, t.token_size),
        p@,
    ) == Some((recs.buyer.address@, recs.buyer.data@[0])))
}

/// Whether `a` is the associated token account of `wallet` for `mint`, and
/// where it exists, held by `wallet` in `mint`.
pub open spec fn is_associated(a: TokenAccount, wallet: Key, mint: Key, programs: Programs) -> bool {
    &&& canonical_for(associated_seeds(wallet, programs.token, mint), programs.associated_token, a.address)
    &&& (a.data@.len() > 0 ==> {
        &&& a.owner@ == programs.token@
        &&& is_token_account_data(a.data@)
        &&& layout_owner(a.data@) == wallet@
        &&& layout_mint(a.data@) == mint@
    })
}

/// Whether the asset-holding account is the seller's for the asset, and the
/// metadata record the one derived from the asset's mint.
pub open spec fn asset_accounts_match(s: ExecuteSale) -> bool {
    &&& s.token_account.data@.len() > 0
    &&& is_associated(s.token_account, s.seller, s.token_mint, s.programs)
    &&& canonical_for(metadata_seeds(s.programs.metadata, s.token_mint), s.programs.metadata, s.metadata)
}

/// Whether every account is the one the settlement expects.
pub open spec fn accounts_match(s: ExecuteSale, d: Option<&Delegation>, t: SaleTerms, recs: TradeRecords) -> bool {
    &&& house_accounts_match(s, t)
    &&& delegation_accounts_match(s, d)
    &&& trade_records_match(s, d, t, recs)
    &&& asset_accounts_match(s)
}

/// The fee payer: the marketplace when its authority signed, else the buyer
/// when the buyer signed, else the seller when the seller signed.
pub open spec fn fee_payer_of(sig: Signers) -> Option<FeePayer> {
    if sig.authority {
        Some(FeePayer::AuctionHouse)
    } else if sig.buyer {
        Some(FeePayer::Buyer)
    } else if sig.seller {
        Some(FeePayer::Seller)
    } else {
        None
    }
}

/// The address of a fee payer.
pub open spec fn payer_key(s: ExecuteSale, f: FeePayer) -> Key {
    match f {
        FeePayer::AuctionHouse => s.auction_house_fee_account,
        FeePayer::Buyer => s.buyer,
        FeePayer::Seller => s.seller,
    }
}

/// What is wrong with the seller's payment-receiving account: for native
/// payment it must be the seller; for tokens the seller's associated account
/// for the payment mint, without a delegate.
pub open spec fn seller_receipt_error(s: ExecuteSale, native: bool) -> Option<SaleError> {
    let a = s.seller_payment_receipt_account;
    if native {
        if a.address@ != s.seller@ {
            Some(SaleError::AuthorizationMismatch)
        } else {
            None
        }
    } else if !is_associated(a, s.seller, s.treasury_mint, s.programs) {
        Some(SaleError::AuthorizationMismatch)
    } else if a.data@.len() > 0 && layout_delegate(a.data@) is Some {
        Some(SaleError::SellerATACannotHaveDelegate)
    } else {
        None
    }
}

/// What is wrong with the buyer's asset-receiving account: it must be the
/// buyer's associated account for the asset, without a delegate.
pub open spec fn buyer_receipt_error(s: ExecuteSale) -> Option<SaleError> {
    let a = s.buyer_receipt_token_account;
    if !is_associated(a, s.buyer, s.token_mint, s.programs) {
        Some(SaleError::AuthorizationMismatch)
    } else if a.data@.len() > 0 && layout_delegate(a.data@) is Some {
        Some(SaleError::BuyerATACannotHaveDelegate)
    } else {
        None
    }
}

/// Whether a payee is the creator's wallet and, for token payment, the
/// creator's associated account for the payment mint.
pub open spec fn payee_matches(s: ExecuteSale, pe: CreatorPayee, creator: Key, native: bool) -> bool {
    &&& pe.wallet@ == creator@
    &&& (!native ==> is_associated(pe.token_account, creator, s.treasury_mint, s.programs))
}

/// Whether there is a matching payee for every creator.
pub open spec fn payees_match(s: ExecuteSale, m: AssetMetadata, native: bool) -> bool {
    &&& s.creator_payees@.len() >= m.creators@.len()
    &&& forall|i: int|
        0 <= i < m.creators@.len() ==> payee_matches(
            s,
            #[trigger] s.creator_payees@[i],
            m.creators@[i].address,
            native,
        )
}

/// The balances reclaimed from the records: the free listing's only where it has one.
pub open spec fn reclaim_total(recs: TradeRecords) -> int {
    recs.seller.lamports + recs.buyer.lamports + recs.free.lamports
}

/// The first rule a settlement breaks, checked in this order: custody of
/// the asset, co-signature of a free sale, the settlement path, liveness of
/// the records, the accounts, the metadata, the fee payer, the receiving
/// accounts, the royalty payees, the arithmetic.
pub open spec fn rejection(s: ExecuteSale, d: Option<&Delegation>, t: SaleTerms, recs: TradeRecords) -> Option<
    SaleError,
> {
    let native = is_native_mint_address(s.treasury_mint@);
    if !custodial_delegate_set(s, t) {
        Some(SaleError::BothPartiesNeedToAgreeToSale)
    } else if free_sale_unsigned(s, t) {
        Some(SaleError::CannotMatchFreeSalesWithoutAuctionHouseOrSellerSignoff)
    } else if delegation_error(s, d) is Some {
        delegation_error(s, d)
    } else if !record_live(recs.buyer) || !record_live(recs.seller) {
        Some(SaleError::TradeStateInvalidOrConsumed)
    } else if !accounts_match(s, d, t, recs) {
        Some(SaleError::AuthorizationMismatch)
    } else if s.metadata_record is None {
        Some(SaleError::MetadataDoesntExist)
    } else if fee_payer_of(s.signers) is None {
        Some(SaleError::NoPayerPresent)
    } else if seller_receipt_error(s, native) is Some {
        seller_receipt_error(s, native)
    } else if buyer_receipt_error(s) is Some {
        buyer_receipt_error(s)
    } else if !payees_match(s, s.metadata_record->0, native) {
        Some(SaleError::AuthorizationMismatch)
    } else if !payouts_fit(t.buyer_price, s.metadata_record->0, s.auction_house.seller_fee_basis_points) {
        Some(SaleError::NumericalOverflow)
    } else if reclaim_total(recs) > u64::MAX {
        Some(SaleError::NumericalOverflow)
    } else {
        None
    }
}

/// The steps that pay the first `n` creators: for token payment, creating a
/// missing receiving account first; a zero payout is skipped.
pub open spec fn creator_actions(
    s: ExecuteSale,
    m: AssetMetadata,
    fees: Seq<u64>,
    native: bool,
    n: int,
) -> Seq<Action>
    decreases n,
{
    if n <= 0 {
        seq![]
    } else {
        let c = m.creators@[n - 1];
        let pe = s.creator_payees@[n - 1];
        let create = if !native && pe.token_account.data@.len() == 0 {
            seq![
                Action::CreateAccount {
                    account: pe.token_account.address,
                    owner: c.address,
                    mint: s.treasury_mint,
                },
            ]
        } else {
            seq![]
        };
        let pay = if fees[n - 1] > 0 {
            seq![
                Action::Pay {
                    to: if native {
                        c.address
                    } else {
                        pe.token_account.address
                    },
                    amount: fees[n - 1],
                },
            ]
        } else {
            seq![]
        };
        creator_actions(s, m, fees, native, n - 1) + create + pay
    }
}

/// The steps that pay the seller, creating a missing token account first.
pub open spec fn seller_actions(s: ExecuteSale, net: u64, native: bool) -> Seq<Action> {
    let a = s.seller_payment_receipt_account;
    let create = if !native && a.data@.len() == 0 {
        seq![Action::CreateAccount { account: a.address, owner: s.seller, mint: s.treasury_mint }]
    } else {
        seq![]
    };
    create + seq![Action::Pay { to: a.address, amount: net }]
}

/// The steps that deliver the asset, creating the buyer's missing account first.
pub open spec fn buyer_actions(s: ExecuteSale, t: SaleTerms) -> Seq<Action> {
    let a = s.buyer_receipt_token_account;
    let create = if a.data@.len() == 0 {
        seq![Action::CreateAccount { account: a.address, owner: s.buyer, mint: s.token_mint }]
    } else {
        seq![]
    };
    create + seq![
        Action::MoveAsset { from: s.token_account.address, to: a.address, amount: t.token_size },
    ]
}

/// Every step of a settlement: royalties, then the marketplace fee to the
/// treasury, then the seller, then the asset.
pub open spec fn planned_actions(
    s: ExecuteSale,
    t: SaleTerms,
    m: AssetMetadata,
    p: Payouts,
    native: bool,
) -> Seq<Action> {
    creator_actions(s, m, p.creator_fees@, native, m.creators@.len() as int) + seq![
        Action::Pay { to: s.auction_house_treasury, amount: p.house_fee },
    ] + seller_actions(s, p.seller_net, native) + buyer_actions(s, t)
}

/// Whether `r` is the settlement of an accepted sale.
pub open spec fn is_settlement_of(r: Settlement, s: ExecuteSale, t: SaleTerms, recs: TradeRecords) -> bool {
    let native = is_native_mint_address(s.treasury_mint@);
    let m = s.metadata_record->0;
    &&& r.native == native
    &&& fee_payer_of(s.signers) == Some(r.fee_payer)
    &&& r.payer == payer_key(s, r.fee_payer)
    &&& r.payment_authority == if native {
        PaymentAuthority::Escrow
    } else {
        PaymentAuthority::AuctionHouse
    }
    &&& is_split_of(r.payouts, t.buyer_price, m, s.auction_house.seller_fee_basis_points)
    &&& r.actions@ == planned_actions(s, t, m, r.payouts, native)
    &&& r.reclaimed == reclaim_total(recs)
}

/// Whether `new` holds the records of `old` retired; the free listing only
/// where it held a balance.
pub open spec fn records_retired(old: TradeRecords, new: TradeRecords) -> bool {
    &&& retired(old.buyer, new.buyer)
    &&& retired(old.seller, new.seller)
    &&& if old.free.lamports > 0 {
        retired(old.free, new.free)
    } else {
        new.free == old.free
    }
}

/// Whether `r` and the records after the call are the outcome of settling:
/// the first rule broken with the records untouched, or the settlement of
/// the sale with the records retired.
pub open spec fn settled(
    r: Result<Settlement, SaleError>,
    s: ExecuteSale,
    d: Option<&Delegation>,
    t: SaleTerms,
    old: TradeRecords,
    new: TradeRecords,
) -> bool {
    match rejection(s, d, t, old) {
        Some(e) => r == Err::<Settlement, SaleError>(e) && new == old,
        None => match r {
            Ok(st) => is_settlement_of(st, s, t, old) && records_retired(old, new),
            Err(_) => false,
        },
    }
}

fn check_custodial_delegate(s: &ExecuteSale, t: &SaleTerms) -> (r: bool)
    ensures
        r == custodial_delegate_set(*s, *t),
{
    match unpack_token_account(&s.token_account.data) {
        Some(h) => match &h.delegate {
            Some(d) => check_derived(
                &make_custodial_signer_seeds(t.program_as_signer_bump),
                &s.programs.marketplace,
                d,
            ),
            None => false,
        },
        None => false,
    }
}

fn check_delegation(s: &ExecuteSale, d: Option<&Delegation>) -> (r: Option<SaleError>)
    ensures
        r == delegation_error(*s, d),
{
    match d {
        None => if s.auction_house.has_auctioneer {
            Some(SaleError::MustUseAuctioneerHandler)
        } else {
            None
        },
        Some(d) => {
            let scope = &d.ah_auctioneer_pda;
            if !s.auction_house.has_auctioneer {
                Some(SaleError::NoAuctioneerProgramSet)
            } else if !keys_equal(&scope.auctioneer_authority, &d.auctioneer_authority)
                || !keys_equal(&scope.auction_house, &s.auction_house.address) {
                Some(SaleError::AuctioneerNotConfigured)
            } else if !(scope.scopes.len() > EXECUTE_SALE_SCOPE && scope.scopes[EXECUTE_SALE_SCOPE]) {
                Some(SaleError::InsufficientAuctioneerScope)
            } else {
                None
            }
        },
    }
}

fn check_house_accounts(s: &ExecuteSale, t: &SaleTerms) -> (r: bool)
    ensures
        r == house_accounts_match(*s, *t),
{
    let h = &s.auction_house;
    let p = &s.programs.marketplace;
    check_derived(&make_house_seeds(&h.creator, &h.treasury_mint, h.bump), p, &h.address)
        && keys_equal(&s.authority, &h.authority) && keys_equal(&s.treasury_mint, &h.treasury_mint)
        && check_derived(
        &make_fee_account_seeds(&h.address, h.fee_payer_bump),
        p,
        &s.auction_house_fee_account,
    ) && check_derived(
        &make_treasury_seeds(&h.address, h.treasury_bump),
        p,
        &s.auction_house_treasury,
    ) && check_derived(
        &make_escrow_seeds(&h.address, &s.buyer, t.escrow_payment_bump),
        p,
        &s.escrow_payment_account,
    ) && check_derived(
        &make_custodial_signer_seeds(t.program_as_signer_bump),
        p,
        &s.program_as_signer,
    )
}

fn check_delegation_accounts(s: &ExecuteSale, d: Option<&Delegation>) -> (r: bool)
    ensures
        r == delegation_accounts_match(*s, d),
{
    match d {
        None => true,
        Some(d) => {
            let l = &d.listing_auction_house;
            let p = &s.programs.marketplace;
            check_derived(&make_house_seeds(&l.creator, &l.treasury_mint, l.bump), p, &l.address)
                && keys_equal(&l.treasury_mint, &s.treasury_mint) && check_derived(
                &make_treasury_seeds(&l.address, l.treasury_bump),
                p,
                &d.listing_auction_house_treasury,
            ) && check_derived(
                &make_scope_record_seeds(
                    &s.auction_house.address,
                    &d.auctioneer_authority,
                    s.auction_house.auctioneer_pda_bump,
                ),
                p,
                &d.ah_auctioneer_pda.address,
            )
        },
    }
}

fn check_trade_records(s: &ExecuteSale, d: Option<&Delegation>, t: &SaleTerms, recs: &TradeRecords) -> (r:
    bool)
    requires
        record_live(recs.buyer),
        record_live(recs.seller),
    ensures
        r == trade_records_match(*s, d, *t, *recs),
{
    let l = match d {
        None => &s.auction_house,
        Some(d) => &d.listing_auction_house,
    };
    let price = match d {
        None => t.buyer_price,
        Some(_) => u64::MAX,
    };
    let h = &s.auction_house;
    let p = &s.programs.marketplace;
    let holder = &s.token_account.address;
    let mut seller_seeds = make_trade_state_seeds(
        &s.seller,
        &l.address,
        holder,
        &l.treasury_mint,
        &s.token_mint,
        price,
        t.token_size,
    );
    push_bump(&mut seller_seeds, recs.seller.data[0]);
    let mut free_seeds = make_trade_state_seeds(
        &s.seller,
        &l.address,
        holder,
        &l.treasury_mint,
        &s.token_mint,
        0,
        t.token_size,
    );
    push_bump(&mut free_seeds, t.free_trade_state_bump);
    let buyer_bump = recs.buyer.data[0];
    check_derived(&seller_seeds, p, &recs.seller.address) && check_derived(
        &free_seeds,
        p,
        &recs.free.address,
    ) && (check_canonical_bump(
        &make_trade_state_seeds(
            &s.buyer,
            &h.address,
            holder,
            &h.treasury_mint,
            &s.token_mint,
            t.buyer_price,
            t.token_size,
        ),
        p,
        &recs.buyer.address,
        buyer_bump,
    ) || check_canonical_bump(
        &make_public_trade_state_seeds(
            &s.buyer,
            &h.address,
            &h.treasury_mint,
            &s.token_mint,
            t.buyer_price,
            t.token_size,
        ),
        p,
        &recs.buyer.address,
        buyer_bump,
    ))
}

fn check_associated(a: &TokenAccount, wallet: &Key, mint: &Key, programs: &Programs) -> (r: bool)
    ensures
        r == is_associated(*a, *wallet, *mint, *programs),
{
    let held_right = if a.data.len() == 0 {
        true
    } else {
        keys_equal(&a.owner, &programs.token) && match unpack_token_account(&a.data) {
            Some(h) => keys_equal(&h.owner, wallet) && keys_equal(&h.mint, mint),
            None => false,
        }
    };
    held_right && check_canonical(
        &make_associated_seeds(wallet, &programs.token, mint),
        &programs.associated_token,
        &a.address,
    )
}

fn check_asset_accounts(s: &ExecuteSale) -> (r: bool)
    ensures
        r == asset_accounts_match(*s),
{
    s.token_account.data.len() > 0 && check_associated(
        &s.token_account,
        &s.seller,
        &s.token_mint,
        &s.programs,
    ) && check_canonical(
        &make_metadata_seeds(&s.programs.metadata, &s.token_mint),
        &s.programs.metadata,
        &s.metadata,
    )
}

fn resolve_fee_payer(sig: &Signers) -> (r: Option<FeePayer>)
    ensures
        r == fee_payer_of(*sig),
{
    if sig.authority {
        Some(FeePayer::AuctionHouse)
    } else if sig.buyer {
        Some(FeePayer::Buyer)
    } else if sig.seller {
        Some(FeePayer::Seller)
    } else {
        None
    }
}

fn check_seller_receipt(s: &ExecuteSale, native: bool) -> (r: Option<SaleError>)
    ensures
        r == seller_receipt_error(*s, native),
{
    let a = &s.seller_payment_receipt_account;
    if native {
        if !keys_equal(&a.address, &s.seller) {
            Some(SaleError::AuthorizationMismatch)
        } else {
            None
        }
    } else if !check_associated(a, &s.seller, &s.treasury_mint, &s.programs) {
        Some(SaleError::AuthorizationMismatch)
    } else {
        if a.data.len() == 0 {
            None
        } else {
            match unpack_token_account(&a.data) {
                Some(h) => if h.delegate.is_some() {
                    Some(SaleError::SellerATACannotHaveDelegate)
                } else {
                    None
                },
                None => None,
            }
        }
    }
}

fn check_buyer_receipt(s: &ExecuteSale) -> (r: Option<SaleError>)
    ensures
        r == buyer_receipt_error(*s),
{
    let a = &s.buyer_receipt_token_account;
    if !check_associated(a, &s.buyer, &s.token_mint, &s.programs) {
        Some(SaleError::AuthorizationMismatch)
    } else {
        if a.data.len() == 0 {
            None
        } else {
            match unpack_token_account(&a.data) {
                Some(h) => if h.delegate.is_some() {
                    Some(SaleError::BuyerATACannotHaveDelegate)
                } else {
                    None
                },
                None => None,
            }
        }
    }
}

fn check_creator_payees(s: &ExecuteSale, m: &AssetMetadata, native: bool) -> (r: bool)
    ensures
        r == payees_match(*s, *m, native),
{
    let n = m.creators.len();
    if s.creator_payees.len() < n {
        return false;
    }
    let mut i: usize = 0;
    while i < n
        invariant
            0 <= i <= n,
            n == m.creators@.len(),
            s.creator_payees@.len() >= n,
            forall|j: int|
                0 <= j < i ==> payee_matches(
                    *s,
                    #[trigger] s.creator_payees@[j],
                    m.creators@[j].address,
                    native,
                ),
        decreases n - i,
    {
        let pe = &s.creator_payees[i];
        let c = &m.creators[i];
        let ok = keys_equal(&pe.wallet, &c.address) && (native || check_associated(
            &pe.token_account,
            &c.address,
            &s.treasury_mint,
            &s.programs,
        ));
        if !ok {
            assert(!payee_matches(*s, s.creator_payees@[i as int], m.creators@[i as int].address, native));
            return false;
        }
        i = i + 1;
    }
    true
}

fn plan_actions(s: &ExecuteSale, t: &SaleTerms, m: &AssetMetadata, p: &Payouts, native: bool) -> (r: Vec<
    Action,
>)
    requires
        payees_match(*s, *m, native),
        p.creator_fees@.len() == m.creators@.len(),
    ensures
        r@ == planned_actions(*s, *t, *m, *p, native),
{
    let mut actions: Vec<Action> = Vec::new();
    let n = m.creators.len();
    let mut i: usize = 0;
    while i < n
        invariant
            0 <= i <= n,
            n == m.creators@.len(),
            s.creator_payees@.len() >= n,
            p.creator_fees@.len() == n,
            actions@ == creator_actions(*s, *m, p.creator_fees@, native, i as int),
        decreases n - i,
    {
        let c = &m.creators[i];
        let pe = &s.creator_payees[i];
        let fee = p.creator_fees[i];
        let ghost before = actions@;
        if !native && pe.token_account.data.len() == 0 {
            actions.push(
                Action::CreateAccount {
                    account: pe.token_account.address,
                    owner: c.address,
                    mint: s.treasury_mint,
                },
            );
        }
        let ghost created = actions@;
        if fee > 0 {
            let to = if native {
                c.address
            } else {
                pe.token_account.address
            };
            actions.push(Action::Pay { to, amount: fee });
        }
        proof {
            let create = if !native && pe.token_account.data@.len() == 0 {
                seq![
                    Action::CreateAccount {
                        account: pe.token_account.address,
                        owner: c.address,
                        mint: s.treasury_mint,
                    },
                ]
            } else {
                seq![]
            };
            let pay = if fee > 0 {
                seq![
                    Action::Pay {
                        to: if native {
                            c.address
                        } else {
                            pe.token_account.address
                        },
                        amount: fee,
                    },
                ]
            } else {
                seq![]
            };
            assert(created =~= before + create);
            assert(actions@ =~= before + create + pay);
        }
        i = i + 1;
    }
    let ghost after_creators = actions@;
    actions.push(Action::Pay { to: s.auction_house_treasury, amount: p.house_fee });
    let ghost after_fee = actions@;
    let seller_account = &s.seller_payment_receipt_account;
    if !native && seller_account.data.len() == 0 {
        actions.push(
            Action::CreateAccount {
                account: seller_account.address,
                owner: s.seller,
                mint: s.treasury_mint,
            },
        );
    }
    actions.push(Action::Pay { to: seller_account.address, amount: p.seller_net });
    let ghost after_seller = actions@;
    let buyer_account = &s.buyer_receipt_token_account;
    if buyer_account.data.len() == 0 {
        actions.push(
            Action::CreateAccount { account: buyer_account.address, owner: s.buyer, mint: s.token_mint },
        );
    }
    actions.push(
        Action::MoveAsset {
            from: s.token_account.address,
            to: buyer_account.address,
            amount: t.token_size,
        },
    );
    proof {
        assert(after_seller =~= after_fee + seller_actions(*s, p.seller_net, native));
        assert(actions@ =~= after_seller + buyer_actions(*s, *t));
        assert(actions@ =~= planned_actions(*s, *t, *m, *p, native));
    }
    actions
}

/// Settles a matched sale. `delegation` is `None` on the direct path, where
/// the marketplace must have no delegate, and the delegate's records on the
/// delegated path. Every rule is checked before anything changes: on a
/// refusal the records are untouched and the error is the first rule broken
/// (`rejection`). On success the split, the ordered steps and the payer are
/// returned and the three records are retired, so that neither can fund a
/// second settlement.
pub fn settle(
    s: &ExecuteSale,
    delegation: Option<&Delegation>,
    t: &SaleTerms,
    records: &mut TradeRecords,
) -> (r: Result<Settlement, SaleError>)
    ensures
        settled(r, *s, delegation, *t, *old(records), *final(records)),
{
    if !check_custodial_delegate(s, t) {
        return Err(SaleError::BothPartiesNeedToAgreeToSale);
    }
    if t.buyer_price == 0 && !s.signers.authority && !s.signers.seller {
        return Err(SaleError::CannotMatchFreeSalesWithoutAuctionHouseOrSellerSignoff);
    }
    match check_delegation(s, delegation) {
        Some(e) => {
            return Err(e);
        },
        None => {},
    }
    if !record_is_live(&records.buyer) || !record_is_live(&records.seller) {
        return Err(SaleError::TradeStateInvalidOrConsumed);
    }
    if !(check_house_accounts(s, t) && check_delegation_accounts(s, delegation) && check_trade_records(
        s,
        delegation,
        t,
        records,
    ) && check_asset_accounts(s)) {
        return Err(SaleError::AuthorizationMismatch);
    }
    let m = match &s.metadata_record {
        Some(m) => m,
        None => {
            return Err(SaleError::MetadataDoesntExist);
        },
    };
    let fee_payer = match resolve_fee_payer(&s.signers) {
        Some(f) => f,
        None => {
            return Err(SaleError::NoPayerPresent);
        },
    };
    let native = is_native_mint(&s.treasury_mint);
    match check_seller_receipt(s, native) {
        Some(e) => {
            return Err(e);
        },
        None => {},
    }
    match check_buyer_receipt(s) {
        Some(e) => {
            return Err(e);
        },
        None => {},
    }
    if !check_creator_payees(s, m, native) {
        return Err(SaleError::AuthorizationMismatch);
    }
    let payouts = match compute_payouts(t.buyer_price, m, s.auction_house.seller_fee_basis_points) {
        Ok(p) => p,
        Err(e) => {
            return Err(e);
        },
    };
    let reclaimed = match records.seller.lamports.checked_add(records.buyer.lamports) {
        Some(v) => match v.checked_add(records.free.lamports) {
            Some(w) => w,
            None => {
                return Err(SaleError::NumericalOverflow);
            },
        },
        None => {
            return Err(SaleError::NumericalOverflow);
        },
    };
    let actions = plan_actions(s, t, m, &payouts, native);
    let payer = match fee_payer {
        FeePayer::AuctionHouse => s.auction_house_fee_account,
        FeePayer::Buyer => s.buyer,
        FeePayer::Seller => s.seller,
    };
    retire(&mut records.seller);
    retire(&mut records.buyer);
    if records.free.lamports > 0 {
        retire(&mut records.free);
    }
    Ok(Settlement {
        native,
        fee_payer,
        payer,
        payment_authority: if native {
            PaymentAuthority::Escrow
        } else {
            PaymentAuthority::AuctionHouse
        },
        payouts,
        actions,
        reclaimed,
    })
}

/// Settles a sale on a marketplace without a delegate; one with a delegate
/// is refused with `MustUseAuctioneerHandler`.
pub fn execute_sale(
    ctx: &ExecuteSale,
    records: &mut TradeRecords,
    escrow_payment_bump: u8,
    free_trade_state_bump: u8,
    program_as_signer_bump: u8,
    buyer_price: u64,
    token_size: u64,
) -> (r: Result<Settlement, SaleError>)
    ensures
        settled(
            r,
            *ctx,
            None,
            SaleTerms {
                escrow_payment_bump,
                free_trade_state_bump,
                program_as_signer_bump,
                buyer_price,
                token_size,
            },
            *old(records),
            *final(records),
        ),
{
    let t = SaleTerms {
        escrow_payment_bump,
        free_trade_state_bump,
        program_as_signer_bump,
        buyer_price,
        token_size,
    };
    settle(ctx, None, &t, records)
}

/// Settles a sale through the marketplace's delegate, whose scope record
/// must grant settlement; the listing may stand under another instance.
pub fn execute_sale_with_auctioneer(
    ctx: &ExecuteSaleWithAuctioneer,
    records: &mut TradeRecords,
    escrow_payment_bump: u8,
    free_trade_state_bump: u8,
    program_as_signer_bump: u8,
    buyer_price: u64,
    token_size: u64,
) -> (r: Result<Settlement, SaleError>)
    ensures
        settled(
            r,
            ctx.sale,
            Some(&ctx.delegation),
            SaleTerms {
                escrow_payment_bump,
                free_trade_state_bump,
                program_as_signer_bump,
                buyer_price,
                token_size,
            },
            *old(records),
            *final(records),
        ),
{
    let t = SaleTerms {
        escrow_payment_bump,
        free_trade_state_bump,
        program_as_signer_bump,
        buyer_price,
        token_size,
    };
    settle(&ctx.sale, Some(&ctx.delegation), &t, records)
}

/// What a sequence of steps pays out of the escrow.
pub open spec fn paid_amount(actions: Seq<Action>) -> int
    decreases actions.len(),
{
    if actions.len() == 0 {
        0
    } else {
        paid_amount(actions.drop_last()) + match actions.last() {
            Action::Pay { amount, .. } => amount as int,
            _ => 0,
        }
    }
}

proof fn lemma_paid_concat(a: Seq<Action>, b: Seq<Action>)
    ensures
        paid_amount(a + b) == paid_amount(a) + paid_amount(b),
    decreases b.len(),
{
    if b.len() == 0 {
        assert(a + b =~= a);
    } else {
        lemma_paid_concat(a, b.drop_last());
        assert((a + b).drop_last() =~= a + b.drop_last());
        assert((a + b).last() == b.last());
    }
}

proof fn lemma_paid_single(x: Action)
    ensures
        paid_amount(seq![x]) == match x {
            Action::Pay { amount, .. } => amount as int,
            _ => 0,
        },
{
    assert(seq![x].drop_last() =~= Seq::<Action>::empty());
    assert(paid_amount(Seq::<Action>::empty()) == 0);
    assert(seq![x].len() == 1 && seq![x].last() == x);
}

proof fn lemma_creator_actions_paid(s: ExecuteSale, m: AssetMetadata, fees: Seq<u64>, native: bool, n: int)
    requires
        0 <= n <= fees.len(),
    ensures
        paid_amount(creator_actions(s, m, fees, native, n)) == amounts_sum(fees.take(n)),
    decreases n,
{
    if n == 0 {
        assert(fees.take(0) =~= Seq::<u64>::empty());
    } else {
        lemma_creator_actions_paid(s, m, fees, native, n - 1);
        let c = m.creators@[n - 1];
        let pe = s.creator_payees@[n - 1];
        let create = if !native && pe.token_account.data@.len() == 0 {
            seq![
                Action::CreateAccount {
                    account: pe.token_account.address,
                    owner: c.address,
                    mint: s.treasury_mint,
                },
            ]
        } else {
            seq![]
        };
        let pay = if fees[n - 1] > 0 {
            seq![
                Action::Pay {
                    to: if native {
                        c.address
                    } else {
                        pe.token_account.address
                    },
                    amount: fees[n - 1],
                },
            ]
        } else {
            seq![]
        };
        let prev = creator_actions(s, m, fees, native, n - 1);
        lemma_paid_concat(prev + create, pay);
        lemma_paid_concat(prev, create);
        if create.len() > 0 {
            lemma_paid_single(create[0]);
            assert(create =~= seq![create[0]]);
        }
        if pay.len() > 0 {
            lemma_paid_single(pay[0]);
            assert(pay =~= seq![pay[0]]);
        }
        assert(fees.take(n).drop_last() =~= fees.take(n - 1));
    }
}

/// No unit is lost or created, whatever the payment medium: the payments
/// of an accepted settlement add up to the price exactly.
pub proof fn lemma_payments_conserve_price(st: Settlement, s: ExecuteSale, t: SaleTerms, recs: TradeRecords)
    requires
        is_settlement_of(st, s, t, recs),
    ensures
        paid_amount(st.actions@) == t.buyer_price,
{
    let native = is_native_mint_address(s.treasury_mint@);
    let m = s.metadata_record->0;
    let p = st.payouts;
    let creators = creator_actions(s, m, p.creator_fees@, native, m.creators@.len() as int);
    let fee = seq![Action::Pay { to: s.auction_house_treasury, amount: p.house_fee }];
    let seller = seller_actions(s, p.seller_net, native);
    let buyer = buyer_actions(s, t);
    lemma_creator_actions_paid(s, m, p.creator_fees@, native, m.creators@.len() as int);
    assert(p.creator_fees@.take(m.creators@.len() as int) =~= p.creator_fees@);
    lemma_paid_concat(creators + fee + seller, buyer);
    lemma_paid_concat(creators + fee, seller);
    lemma_paid_concat(creators, fee);
    lemma_paid_single(fee[0]);
    assert(fee =~= seq![fee[0]]);
    let seller_pay = seq![Action::Pay { to: s.seller_payment_receipt_account.address, amount: p.seller_net }];
    let seller_create = seller.take(seller.len() - 1);
    assert(seller =~= seller_create + seller_pay);
    lemma_paid_concat(seller_create, seller_pay);
    lemma_paid_single(seller_pay[0]);
    assert(seller_pay =~= seq![seller_pay[0]]);
    if seller_create.len() > 0 {
        assert(seller_create =~= seq![seller_create[0]]);
        lemma_paid_single(seller_create[0]);
    }
    let buyer_move = seq![
        Action::MoveAsset {
            from: s.token_account.address,
            to: s.buyer_receipt_token_account.address,
            amount: t.token_size,
        },
    ];
    let buyer_create = buyer.take(buyer.len() - 1);
    assert(buyer =~= buyer_create + buyer_move);
    lemma_paid_concat(buyer_create, buyer_move);
    lemma_paid_single(buyer_move[0]);
    assert(buyer_move =~= seq![buyer_move[0]]);
    if buyer_create.len() > 0 {
        assert(buyer_create =~= seq![buyer_create[0]]);
        lemma_paid_single(buyer_create[0]);
    }
    lemma_split_conserves_price(t.buyer_price, m, s.auction_house.seller_fee_basis_points, p);
}

/// A record that funded a settlement cannot fund another: settling again on
/// the records it left is refused with `TradeStateInvalidOrConsumed`, and
/// changes nothing.
pub proof fn lemma_settling_twice_fails(
    s: ExecuteSale,
    d: Option<&Delegation>,
    t: SaleTerms,
    first: TradeRecords,
    between: TradeRecords,
    last: TradeRecords,
    r1: Result<Settlement, SaleError>,
    r2: Result<Settlement, SaleError>,
)
    requires
        settled(r1, s, d, t, first, between),
        r1 is Ok,
        settled(r2, s, d, t, between, last),
    ensures
        r2 == Err::<Settlement, SaleError>(SaleError::TradeStateInvalidOrConsumed),
        last == between,
{
    assert(between.buyer.data@[0] == 0);
}

/// Without custody of the asset granted to the program's custodial signer,
/// a settlement is refused with `BothPartiesNeedToAgreeToSale`, whatever
/// else it is given.
pub proof fn lemma_custody_required(s: ExecuteSale, d: Option<&Delegation>, t: SaleTerms, recs: TradeRecords)
    requires
        !custodial_delegate_set(s, t),
    ensures
        rejection(s, d, t, recs) == Some(SaleError::BothPartiesNeedToAgreeToSale),
{
}

/// A zero-price settlement signed by neither the authority nor the seller is
/// refused with `CannotMatchFreeSalesWithoutAuctionHouseOrSellerSignoff`
/// (custody of the asset being checked first).
pub proof fn lemma_unsigned_free_sale_refused(
    s: ExecuteSale,
    d: Option<&Delegation>,
    t: SaleTerms,
    recs: TradeRecords,
)
    requires
        custodial_delegate_set(s, t),
        t.buyer_price == 0,
        !s.signers.authority,
        !s.signers.seller,
    ensures
        rejection(s, d, t, recs) == Some(SaleError::CannotMatchFreeSalesWithoutAuctionHouseOrSellerSignoff),
{
}

proof fn lemma_zero_total_pays_nothing(cs: Seq<Creator>)
    ensures
        creator_fees_sum(0, cs) == 0,
    decreases cs.len(),
{
    if cs.len() > 0 {
        lemma_zero_total_pays_nothing(cs.drop_last());
    }
}

/// A zero-price settlement co-signed by the authority or the seller is not
/// refused for want of a signature, its split never overflows, and it pays
/// nothing to anyone.
pub proof fn lemma_signed_free_sale_pays_nothing(
    s: ExecuteSale,
    d: Option<&Delegation>,
    t: SaleTerms,
    recs: TradeRecords,
    m: AssetMetadata,
    fee_bps: u16,
    p: Payouts,
)
    requires
        t.buyer_price == 0,
        s.signers.authority || s.signers.seller,
    ensures
        rejection(s, d, t, recs) != Some(SaleError::CannotMatchFreeSalesWithoutAuctionHouseOrSellerSignoff),
        payouts_fit(0, m, fee_bps),
        is_split_of(p, 0, m, fee_bps) ==> p.house_fee == 0 && p.seller_net == 0 && forall|i: int|
            0 <= i < p.creator_fees@.len() ==> #[trigger] p.creator_fees@[i] == 0,
{
    lemma_zero_total_pays_nothing(m.creators@);
    assert(royalty_total(0, m.royalty_bps) == 0);
    assert(royalties_paid(0, m) == 0);
}

/// A missing asset-receiving account is created, at the fee payer's cost,
/// in the step right before the asset moves into it.
pub proof fn lemma_missing_receiver_created_first(st: Settlement, s: ExecuteSale, t: SaleTerms, recs: TradeRecords)
    requires
        is_settlement_of(st, s, t, recs),
        s.buyer_receipt_token_account.data@.len() == 0,
    ensures
        st.actions@.len() >= 2,
        st.actions@[st.actions@.len() - 2] == (Action::CreateAccount {
            account: s.buyer_receipt_token_account.address,
            owner: s.buyer,
            mint: s.token_mint,
        }),
        st.actions@[st.actions@.len() - 1] == (Action::MoveAsset {
            from: s.token_account.address,
            to: s.buyer_receipt_token_account.address,
            amount: t.token_size,
        }),
        fee_payer_of(s.signers) == Some(st.fee_payer),
        st.payer == payer_key(s, st.fee_payer),
{
    let native = is_native_mint_address(s.treasury_mint@);
    let m = s.metadata_record->0;
    let p = st.payouts;
    let front = creator_actions(s, m, p.creator_fees@, native, m.creators@.len() as int) + seq![
        Action::Pay { to: s.auction_house_treasury, amount: p.house_fee },
    ] + seller_actions(s, p.seller_net, native);
    assert(st.actions@ =~= front + buyer_actions(s, t));
}

} // verus!
