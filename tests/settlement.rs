use auction_house::accounts::{
    AuctionHouse, CreatorPayee, Programs, ScopeRecord, Signers, TokenAccount, TradeRecord,
    TradeRecords,
};
use auction_house::address::Key;
use auction_house::distribution::{AssetMetadata, Creator};
use auction_house::error::SaleError;
use auction_house::settlement::{
    execute_sale, execute_sale_with_auctioneer, Action, Delegation, ExecuteSale,
    ExecuteSaleWithAuctioneer, FeePayer, PaymentAuthority, Settlement,
};
use solana_program::program_option::COption;
use solana_program::program_pack::Pack;
use solana_program::pubkey::Pubkey;
use spl_token::state::{Account, AccountState};

const MARKET: Key = [1; 32];
const TOKEN: Key = [2; 32];
const ASSOCIATED: Key = [3; 32];
const METADATA: Key = [4; 32];
const HOUSE_CREATOR: Key = [10; 32];
const AUTHORITY: Key = [11; 32];
const BUYER: Key = [12; 32];
const SELLER: Key = [13; 32];
const ASSET_MINT: Key = [14; 32];
const TOKEN_MINT: Key = [15; 32];
const CREATOR_A: Key = [20; 32];
const CREATOR_B: Key = [21; 32];
const LISTING_CREATOR: Key = [30; 32];
const AUCTIONEER: Key = [40; 32];
const SIZE: u64 = 1;

fn pda(seeds: &[&[u8]], program: &Key) -> (Key, u8) {
    let (k, b) = Pubkey::find_program_address(seeds, &Pubkey::new_from_array(*program));
    (k.to_bytes(), b)
}

fn associated(wallet: &Key, mint: &Key) -> Key {
    pda(&[wallet, &TOKEN, mint], &ASSOCIATED).0
}

fn token_data(mint: Key, owner: Key, delegate: Option<Key>) -> Vec<u8> {
    let account = Account {
        mint: Pubkey::new_from_array(mint),
        owner: Pubkey::new_from_array(owner),
        amount: 1,
        delegate: match delegate {
            Some(d) => COption::Some(Pubkey::new_from_array(d)),
            None => COption::None,
        },
        state: AccountState::Initialized,
        is_native: COption::None,
        delegated_amount: if delegate.is_some() { 1 } else { 0 },
        close_authority: COption::None,
    };
    let mut data = vec![0u8; Account::LEN];
    Account::pack(account, &mut data).unwrap();
    data
}

fn held(address: Key, owner: Key, mint: Key) -> TokenAccount {
    TokenAccount { address, owner: TOKEN, data: token_data(mint, owner, None) }
}

fn missing(address: Key) -> TokenAccount {
    TokenAccount { address, owner: [0; 32], data: vec![] }
}

fn house(creator: Key, treasury_mint: Key, has_auctioneer: bool, auctioneer: Key) -> AuctionHouse {
    let (address, bump) = pda(&[b"auction_house", &creator, &treasury_mint], &MARKET);
    let (fee_account, fee_payer_bump) = pda(&[b"auction_house", &address, b"fee_payer"], &MARKET);
    let (treasury, treasury_bump) = pda(&[b"auction_house", &address, b"treasury"], &MARKET);
    let (_, auctioneer_pda_bump) = pda(&[b"auctioneer", &address, &auctioneer], &MARKET);
    AuctionHouse {
        address,
        creator,
        authority: AUTHORITY,
        treasury_mint,
        fee_account,
        treasury,
        bump,
        fee_payer_bump,
        treasury_bump,
        seller_fee_basis_points: 200,
        has_auctioneer,
        auctioneer_pda_bump,
    }
}

struct Case {
    sale: ExecuteSale,
    records: TradeRecords,
    escrow_bump: u8,
    free_bump: u8,
    signer_bump: u8,
    price: u64,
}

fn trade_state(wallet: &Key, house: &Key, holder: &Key, treasury_mint: &Key, price: u64) -> (Key, u8) {
    pda(
        &[
            b"auction_house",
            wallet,
            house,
            holder,
            treasury_mint,
            &ASSET_MINT,
            &price.to_le_bytes(),
            &SIZE.to_le_bytes(),
        ],
        &MARKET,
    )
}

/// A sale whose every account is the one the settlement expects; `listing`
/// is the instance and price the seller's record is derived from.
fn case_for(native: bool, price: u64, bidding: AuctionHouse, listing: (AuctionHouse, u64)) -> Case {
    let treasury_mint = bidding.treasury_mint;
    let (escrow, escrow_bump) = pda(&[b"auction_house", &bidding.address, &BUYER], &MARKET);
    let (signer, signer_bump) = pda(&[b"auction_house", b"signer"], &MARKET);
    let holder = associated(&SELLER, &ASSET_MINT);
    let (metadata, _) = pda(&[b"metadata", &METADATA, &ASSET_MINT], &METADATA);
    let (seller_ts, seller_bump) = trade_state(&SELLER, &listing.0.address, &holder, &treasury_mint, listing.1);
    let (free_ts, free_bump) = trade_state(&SELLER, &listing.0.address, &holder, &treasury_mint, 0);
    let (buyer_ts, buyer_bump) = trade_state(&BUYER, &bidding.address, &holder, &treasury_mint, price);
    let seller_receipt = if native {
        missing(SELLER)
    } else {
        held(associated(&SELLER, &treasury_mint), SELLER, treasury_mint)
    };
    let payee = |c: Key| CreatorPayee {
        wallet: c,
        token_account: held(associated(&c, &treasury_mint), c, treasury_mint),
    };
    let sale = ExecuteSale {
        programs: Programs { marketplace: MARKET, token: TOKEN, associated_token: ASSOCIATED, metadata: METADATA },
        auction_house: bidding,
        buyer: BUYER,
        seller: SELLER,
        token_account: TokenAccount {
            address: holder,
            owner: TOKEN,
            data: token_data(ASSET_MINT, SELLER, Some(signer)),
        },
        token_mint: ASSET_MINT,
        metadata,
        metadata_record: Some(AssetMetadata {
            royalty_bps: 500,
            creators: vec![
                Creator { address: CREATOR_A, share_bps: 5000 },
                Creator { address: CREATOR_B, share_bps: 5000 },
            ],
        }),
        treasury_mint,
        escrow_payment_account: escrow,
        seller_payment_receipt_account: seller_receipt,
        buyer_receipt_token_account: held(associated(&BUYER, &ASSET_MINT), BUYER, ASSET_MINT),
        authority: AUTHORITY,
        auction_house_fee_account: bidding.fee_account,
        auction_house_treasury: bidding.treasury,
        program_as_signer: signer,
        creator_payees: vec![payee(CREATOR_A), payee(CREATOR_B)],
        signers: Signers { authority: false, buyer: true, seller: false },
    };
    let records = TradeRecords {
        buyer: TradeRecord { address: buyer_ts, lamports: 2_000, data: vec![buyer_bump] },
        seller: TradeRecord { address: seller_ts, lamports: 1_000, data: vec![seller_bump] },
        free: TradeRecord { address: free_ts, lamports: 0, data: vec![] },
    };
    Case { sale, records, escrow_bump, free_bump, signer_bump, price }
}

fn native_mint() -> Key {
    spl_token::native_mint::id().to_bytes()
}

fn direct(native: bool, price: u64) -> Case {
    let mint = if native { native_mint() } else { TOKEN_MINT };
    let h = house(HOUSE_CREATOR, mint, false, AUCTIONEER);
    case_for(native, price, h, (h, price))
}

fn settle_direct(c: &mut Case) -> Result<Settlement, SaleError> {
    execute_sale(&c.sale, &mut c.records, c.escrow_bump, c.free_bump, c.signer_bump, c.price, SIZE)
}

fn delegated(price: u64) -> (Case, Delegation) {
    let bidding = house(HOUSE_CREATOR, native_mint(), true, AUCTIONEER);
    let listing = house(LISTING_CREATOR, native_mint(), true, AUCTIONEER);
    let c = case_for(true, price, bidding, (listing, u64::MAX));
    let (scope_address, _) = pda(&[b"auctioneer", &bidding.address, &AUCTIONEER], &MARKET);
    let d = Delegation {
        listing_auction_house: listing,
        listing_auction_house_treasury: listing.treasury,
        auctioneer_authority: AUCTIONEER,
        ah_auctioneer_pda: ScopeRecord {
            address: scope_address,
            auctioneer_authority: AUCTIONEER,
            auction_house: bidding.address,
            scopes: vec![true; 7],
        },
    };
    (c, d)
}

fn settle_delegated(c: &mut Case, d: Delegation) -> Result<Settlement, SaleError> {
    let ctx = ExecuteSaleWithAuctioneer { sale: c.sale.clone(), delegation: d };
    execute_sale_with_auctioneer(&ctx, &mut c.records, c.escrow_bump, c.free_bump, c.signer_bump, c.price, SIZE)
}

fn pays(a: &Action) -> Option<(Key, u64)> {
    match a {
        Action::Pay { to, amount } => Some((*to, *amount)),
        _ => None,
    }
}

fn total_paid(s: &Settlement) -> u64 {
    s.actions.iter().filter_map(pays).map(|(_, a)| a).sum()
}

#[test]
fn native_sale_pays_everyone_and_delivers() {
    let mut c = direct(true, 1_000_000);
    let s = settle_direct(&mut c).unwrap();
    assert!(s.native);
    assert_eq!(s.payment_authority, PaymentAuthority::Escrow);
    assert_eq!(s.fee_payer, FeePayer::Buyer);
    assert_eq!(s.payer, BUYER);
    assert_eq!(s.payouts.creator_fees, vec![25_000, 25_000]);
    assert_eq!(s.payouts.house_fee, 20_000);
    assert_eq!(s.payouts.seller_net, 930_000);
    let paid: Vec<(Key, u64)> = s.actions.iter().filter_map(pays).collect();
    assert_eq!(
        paid,
        vec![(CREATOR_A, 25_000), (CREATOR_B, 25_000), (c.sale.auction_house_treasury, 20_000), (SELLER, 930_000)]
    );
    assert_eq!(s.actions.len(), 5);
    match s.actions[4] {
        Action::MoveAsset { from, to, amount } => {
            assert_eq!(from, c.sale.token_account.address);
            assert_eq!(to, c.sale.buyer_receipt_token_account.address);
            assert_eq!(amount, SIZE);
        }
        _ => panic!("the asset moves last"),
    }
    assert_eq!(s.reclaimed, 3_000);
    assert_eq!(c.records.buyer.lamports, 0);
    assert_eq!(c.records.seller.lamports, 0);
    assert_eq!(c.records.buyer.data, vec![0]);
    assert_eq!(c.records.seller.data, vec![0]);
}

#[test]
fn token_sale_pays_token_accounts_signed_by_house() {
    let mut c = direct(false, 1_000_000);
    let s = settle_direct(&mut c).unwrap();
    assert!(!s.native);
    assert_eq!(s.payment_authority, PaymentAuthority::AuctionHouse);
    let paid: Vec<(Key, u64)> = s.actions.iter().filter_map(pays).collect();
    assert_eq!(
        paid,
        vec![
            (associated(&CREATOR_A, &TOKEN_MINT), 25_000),
            (associated(&CREATOR_B, &TOKEN_MINT), 25_000),
            (c.sale.auction_house_treasury, 20_000),
            (associated(&SELLER, &TOKEN_MINT), 930_000),
        ]
    );
    assert_eq!(total_paid(&s), 1_000_000);
}

#[test]
fn token_sale_creates_missing_receiving_accounts() {
    let mut c = direct(false, 1_000_000);
    c.sale.seller_payment_receipt_account.data = vec![];
    c.sale.creator_payees[1].token_account.data = vec![];
    let s = settle_direct(&mut c).unwrap();
    let creates: Vec<(Key, Key, Key)> = s
        .actions
        .iter()
        .filter_map(|a| match a {
            Action::CreateAccount { account, owner, mint } => Some((*account, *owner, *mint)),
            _ => None,
        })
        .collect();
    assert_eq!(
        creates,
        vec![
            (associated(&CREATOR_B, &TOKEN_MINT), CREATOR_B, TOKEN_MINT),
            (associated(&SELLER, &TOKEN_MINT), SELLER, TOKEN_MINT),
        ]
    );
    assert_eq!(total_paid(&s), 1_000_000);
}

#[test]
fn payments_add_up_to_price() {
    let mut c = direct(true, 999_999);
    let s = settle_direct(&mut c).unwrap();
    assert_eq!(total_paid(&s), 999_999);
    let mut t = direct(false, 123_457);
    let s = settle_direct(&mut t).unwrap();
    assert_eq!(total_paid(&s), 123_457);
}

#[test]
fn settling_twice_fails_the_second_time() {
    let mut c = direct(true, 1_000_000);
    assert!(settle_direct(&mut c).is_ok());
    let after = c.records.clone();
    assert_eq!(settle_direct(&mut c).err(), Some(SaleError::TradeStateInvalidOrConsumed));
    assert_eq!(c.records.buyer.data, after.buyer.data);
    assert_eq!(c.records.seller.data, after.seller.data);
}

#[test]
fn funded_free_listing_is_reclaimed() {
    let mut c = direct(true, 1_000_000);
    c.records.free.lamports = 500;
    c.records.free.data = vec![c.free_bump];
    let s = settle_direct(&mut c).unwrap();
    assert_eq!(s.reclaimed, 3_500);
    assert_eq!(c.records.free.lamports, 0);
    assert_eq!(c.records.free.data, vec![0]);
}

#[test]
fn missing_delegate_is_refused() {
    let mut c = direct(true, 1_000_000);
    c.sale.token_account.data = token_data(ASSET_MINT, SELLER, None);
    assert_eq!(settle_direct(&mut c).err(), Some(SaleError::BothPartiesNeedToAgreeToSale));
    assert_eq!(c.records.buyer.lamports, 2_000);
}

#[test]
fn foreign_delegate_is_refused_before_other_checks() {
    let mut c = direct(true, 0);
    c.sale.token_account.data = token_data(ASSET_MINT, SELLER, Some(BUYER));
    c.sale.escrow_payment_account = [99; 32];
    c.records.buyer.data = vec![];
    assert_eq!(settle_direct(&mut c).err(), Some(SaleError::BothPartiesNeedToAgreeToSale));
}

#[test]
fn unsigned_free_sale_is_refused() {
    let mut c = direct(true, 0);
    assert_eq!(
        settle_direct(&mut c).err(),
        Some(SaleError::CannotMatchFreeSalesWithoutAuctionHouseOrSellerSignoff)
    );
}

#[test]
fn seller_signed_free_sale_pays_nothing() {
    let mut c = direct(true, 0);
    c.sale.signers.seller = true;
    let s = settle_direct(&mut c).unwrap();
    assert_eq!(s.payouts.creator_fees, vec![0, 0]);
    assert_eq!(s.payouts.house_fee, 0);
    assert_eq!(s.payouts.seller_net, 0);
    assert_eq!(total_paid(&s), 0);
    assert_eq!(s.fee_payer, FeePayer::Buyer);
}

#[test]
fn authority_signed_free_sale_is_paid_for_by_house() {
    let mut c = direct(true, 0);
    c.sale.signers = Signers { authority: true, buyer: false, seller: false };
    let s = settle_direct(&mut c).unwrap();
    assert_eq!(s.fee_payer, FeePayer::AuctionHouse);
    assert_eq!(s.payer, c.sale.auction_house_fee_account);
    assert_eq!(total_paid(&s), 0);
}

#[test]
fn missing_buyer_account_is_created_before_delivery() {
    let mut c = direct(true, 1_000_000);
    c.sale.buyer_receipt_token_account.data = vec![];
    c.sale.signers.authority = true;
    let s = settle_direct(&mut c).unwrap();
    let n = s.actions.len();
    match (s.actions[n - 2], s.actions[n - 1]) {
        (Action::CreateAccount { account, owner, mint }, Action::MoveAsset { to, .. }) => {
            assert_eq!(account, associated(&BUYER, &ASSET_MINT));
            assert_eq!(owner, BUYER);
            assert_eq!(mint, ASSET_MINT);
            assert_eq!(to, account);
        }
        _ => panic!("the account is created right before the asset moves"),
    }
    assert_eq!(s.payer, c.sale.auction_house_fee_account);
}

#[test]
fn max_price_overflows() {
    let mut c = direct(true, u64::MAX);
    assert_eq!(settle_direct(&mut c).err(), Some(SaleError::NumericalOverflow));
    assert_eq!(c.records.buyer.data.len(), 1);
    assert_ne!(c.records.buyer.data[0], 0);
}

#[test]
fn reclaim_overflow_is_refused() {
    let mut c = direct(true, 1_000);
    c.records.seller.lamports = u64::MAX;
    assert_eq!(settle_direct(&mut c).err(), Some(SaleError::NumericalOverflow));
}

#[test]
fn house_with_delegate_must_use_delegated_path() {
    let (mut c, _) = delegated(1_000_000);
    assert_eq!(settle_direct(&mut c).err(), Some(SaleError::MustUseAuctioneerHandler));
}

#[test]
fn delegated_sale_settles() {
    let (mut c, d) = delegated(1_000_000);
    let s = settle_delegated(&mut c, d).unwrap();
    assert_eq!(s.payouts.house_fee, 20_000);
    assert_eq!(total_paid(&s), 1_000_000);
    assert_eq!(c.records.seller.data, vec![0]);
}

#[test]
fn delegated_path_needs_a_delegate() {
    let mut c = direct(true, 1_000_000);
    let (_, d) = delegated(1_000_000);
    assert_eq!(settle_delegated(&mut c, d).err(), Some(SaleError::NoAuctioneerProgramSet));
}

#[test]
fn scope_of_another_delegate_is_refused() {
    let (mut c, mut d) = delegated(1_000_000);
    d.ah_auctioneer_pda.auctioneer_authority = [41; 32];
    assert_eq!(settle_delegated(&mut c, d).err(), Some(SaleError::AuctioneerNotConfigured));
}

#[test]
fn scope_without_settlement_is_refused() {
    let (mut c, mut d) = delegated(1_000_000);
    d.ah_auctioneer_pda.scopes[3] = false;
    assert_eq!(settle_delegated(&mut c, d).err(), Some(SaleError::InsufficientAuctioneerScope));
}

#[test]
fn empty_trade_state_is_refused() {
    let mut c = direct(true, 1_000_000);
    c.records.seller.data = vec![];
    assert_eq!(settle_direct(&mut c).err(), Some(SaleError::TradeStateInvalidOrConsumed));
}

#[test]
fn wrong_escrow_is_refused() {
    let mut c = direct(true, 1_000_000);
    c.escrow_bump = c.escrow_bump.wrapping_sub(1);
    assert_eq!(settle_direct(&mut c).err(), Some(SaleError::AuthorizationMismatch));
}

#[test]
fn price_other_than_the_bid_is_refused() {
    let mut c = direct(true, 1_000_000);
    c.price = 999_999;
    assert_eq!(settle_direct(&mut c).err(), Some(SaleError::AuthorizationMismatch));
}

#[test]
fn native_payment_must_reach_seller() {
    let mut c = direct(true, 1_000_000);
    c.sale.seller_payment_receipt_account.address = BUYER;
    assert_eq!(settle_direct(&mut c).err(), Some(SaleError::AuthorizationMismatch));
}

#[test]
fn wrong_creator_wallet_is_refused() {
    let mut c = direct(true, 1_000_000);
    c.sale.creator_payees[0].wallet = CREATOR_B;
    assert_eq!(settle_direct(&mut c).err(), Some(SaleError::AuthorizationMismatch));
}

#[test]
fn empty_metadata_is_refused() {
    let mut c = direct(true, 1_000_000);
    c.sale.metadata_record = None;
    assert_eq!(settle_direct(&mut c).err(), Some(SaleError::MetadataDoesntExist));
}

#[test]
fn nobody_to_pay_fees_is_refused() {
    let mut c = direct(true, 1_000_000);
    c.sale.signers = Signers { authority: false, buyer: false, seller: false };
    assert_eq!(settle_direct(&mut c).err(), Some(SaleError::NoPayerPresent));
}

#[test]
fn seller_account_with_delegate_is_refused() {
    let mut c = direct(false, 1_000_000);
    c.sale.seller_payment_receipt_account.data = token_data(TOKEN_MINT, SELLER, Some(BUYER));
    assert_eq!(settle_direct(&mut c).err(), Some(SaleError::SellerATACannotHaveDelegate));
}

#[test]
fn buyer_account_with_delegate_is_refused() {
    let mut c = direct(true, 1_000_000);
    c.sale.buyer_receipt_token_account.data = token_data(ASSET_MINT, BUYER, Some(SELLER));
    assert_eq!(settle_direct(&mut c).err(), Some(SaleError::BuyerATACannotHaveDelegate));
}

#[test]
fn uninitialized_asset_account_is_refused() {
    let mut c = direct(true, 1_000_000);
    c.sale.token_account.data[108] = 0;
    assert_eq!(settle_direct(&mut c).err(), Some(SaleError::BothPartiesNeedToAgreeToSale));
}

#[test]
fn frozen_receiving_account_is_accepted() {
    let mut c = direct(true, 1_000_000);
    c.sale.buyer_receipt_token_account.data[108] = 2;
    assert!(settle_direct(&mut c).is_ok());
}

#[test]
fn asset_account_of_another_mint_is_refused() {
    let mut c = direct(true, 1_000_000);
    let signer = c.sale.program_as_signer;
    c.sale.token_account.data = token_data(TOKEN_MINT, SELLER, Some(signer));
    assert_eq!(settle_direct(&mut c).err(), Some(SaleError::AuthorizationMismatch));
}

#[test]
fn receiving_account_owned_by_another_program_is_refused() {
    let mut c = direct(true, 1_000_000);
    c.sale.buyer_receipt_token_account.owner = MARKET;
    assert_eq!(settle_direct(&mut c).err(), Some(SaleError::AuthorizationMismatch));
}

#[test]
fn receiving_account_of_another_owner_is_refused() {
    let mut c = direct(true, 1_000_000);
    c.sale.buyer_receipt_token_account.data = token_data(ASSET_MINT, SELLER, None);
    assert_eq!(settle_direct(&mut c).err(), Some(SaleError::AuthorizationMismatch));
}
