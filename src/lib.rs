//! Settlement of matched buy and sell authorizations on a decentralized
//! marketplace: the asset moves to the buyer and the price is split among
//! the creators' royalties, the marketplace fee and the seller, every check
//! made before anything changes.
use vstd::prelude::*;

pub mod accounts;
pub mod address;
pub mod distribution;
pub mod error;
pub mod seeds;
pub mod settlement;
pub mod token;

verus! {

} // verus!
