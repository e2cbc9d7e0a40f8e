//! The reasons a settlement is rejected.
use vstd::prelude::*;

verus! {

/// Why a settlement was refused. Every refusal leaves all records untouched.
#[derive(Clone, Copy, Debug, PartialEq, Eq, Structural)]
pub enum SaleError {
    /// A provided account is not the derived address or identity it must be.
    AuthorizationMismatch,
    /// An authorization record is empty or already retired.
    TradeStateInvalidOrConsumed,
    /// The asset-holding account has not delegated custody to the program.
    BothPartiesNeedToAgreeToSale,
    /// A zero-price sale lacks the co-signature of the authority or the seller.
    CannotMatchFreeSalesWithoutAuctionHouseOrSellerSignoff,
    /// The asset metadata record is absent or empty.
    MetadataDoesntExist,
    /// The seller's payment-receiving account has a delegate.
    SellerATACannotHaveDelegate,
    /// The buyer's asset-receiving account has a delegate.
    BuyerATACannotHaveDelegate,
    /// A checked arithmetic step would wrap.
    NumericalOverflow,
    /// The scope record does not belong to this delegate and marketplace.
    AuctioneerNotConfigured,
    /// The scope record lacks the settlement capability.
    InsufficientAuctioneerScope,
    /// A marketplace with a delegate must settle through the delegated path.
    MustUseAuctioneerHandler,
    /// The delegated path was used on a marketplace without a delegate.
    NoAuctioneerProgramSet,
    /// Neither the authority nor the buyer or seller signed to pay fees.
    NoPayerPresent,
}

} // verus!
