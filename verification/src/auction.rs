//! The data the marketplace stores and exchanges: listings (auctions), offers,
//! global offers, fee configurations, payments.
//!
//! Addresses, token identifiers and opaque byte buffers are handles: the chain
//! side keeps the bytes, the marketplace only compares handles.
use vstd::prelude::*;

use crate::collections::Key;

verus! {

/// An account address (handle). The zero address is `ZERO_ADDRESS`.
pub type Address = u64;

/// An ESDT token identifier (handle).
pub type TokenId = u64;

/// An opaque byte buffer kept by the chain side (handle).
pub type BufferId = u64;

/// The zero address: "no address".
pub const ZERO_ADDRESS: Address = 0;

/// 100% in basis points.
pub const PERCENTAGE_TOTAL: u64 = 10_000;

/// The royalties a listing falls back to when royalties and fees reach 100%.
pub const MAX_COLLECTION_ROYALTIES: u64 = 5_000;

/// A non-fungible token has exactly one unit.
pub const NFT_AMOUNT: u32 = 1;

/// Either EGLD or an ESDT token.
#[derive(Clone, Copy, PartialEq, Eq, Structural, Debug, Hash)]
pub enum PaymentToken {
    Egld,
    Esdt(TokenId),
}

impl PaymentToken {
    pub open spec fn spec_is_egld(&self) -> bool {
        *self is Egld
    }

    #[verifier::when_used_as_spec(spec_is_egld)]
    pub fn is_egld(&self) -> (r: bool)
        ensures
            r == self.spec_is_egld(),
    {
        match self {
            PaymentToken::Egld => true,
            PaymentToken::Esdt(_) => false,
        }
    }

    pub open spec fn spec_is_esdt(&self) -> bool {
        *self is Esdt
    }

    #[verifier::when_used_as_spec(spec_is_esdt)]
    pub fn is_esdt(&self) -> (r: bool)
        ensures
            r == self.spec_is_esdt(),
    {
        match self {
            PaymentToken::Egld => false,
            PaymentToken::Esdt(_) => true,
        }
    }
}

impl Key for PaymentToken {
    fn same(&self, other: &Self) -> (b: bool) {
        *self == *other
    }
}

/// The kind of a listing.
#[derive(Clone, Copy, PartialEq, Eq, Structural, Debug)]
pub enum AuctionType {
    /// The variant named `None` on the chain.
    Unset,
    NftBid,
    Nft,
    SftAll,
    SftOnePerPayment,
}

/// The state of an offer.
#[derive(Clone, Copy, PartialEq, Eq, Structural, Debug)]
pub enum OfferStatus {
    Pending,
    Accepted,
    Declined,
    Withdraw,
}

/// A listing: a fixed-price sale or an auction of one or more units of a token.
#[derive(Clone, Copy, Debug)]
pub struct Auction {
    pub auctioned_token_type: TokenId,
    pub auctioned_token_nonce: u64,
    pub nr_auctioned_tokens: u128,
    pub auction_type: AuctionType,
    pub payment_token_type: PaymentToken,
    pub payment_token_nonce: u64,
    pub min_bid: u128,
    pub max_bid: Option<u128>,
    pub start_time: u64,
    pub deadline: u64,
    pub original_owner: Address,
    pub current_bid: u128,
    pub current_winner: Address,
    pub marketplace_cut_percentage: u128,
    pub creator_royalties_percentage: u128,
}

/// An offer for one token (collection and nonce).
#[derive(Clone, Copy, Debug)]
pub struct Offer {
    pub token_type: TokenId,
    pub token_nonce: u64,
    pub quantity: u128,
    pub status: OfferStatus,
    pub payment_token_type: PaymentToken,
    pub payment_token_nonce: u64,
    pub price: u128,
    pub deadline: u64,
    pub timestamp: u64,
    pub offer_owner: Address,
    pub marketplace_cut_percentage: u128,
    pub new_version: bool,
}

/// A listing together with its id and the kind of its token.
#[derive(Clone, Copy, Debug)]
pub struct TokensOnSale {
    pub auction: Auction,
    pub auction_id: u64,
    pub token_type: u8,
}

/// An offer together with its id and nonce.
#[derive(Clone, Copy, Debug)]
pub struct BulkOffers {
    pub offer: Offer,
    pub offer_id: u64,
    pub nonce: u64,
}

/// How the price of a sale is split.
#[derive(Clone, Copy, Debug)]
pub struct FeesDistribution {
    pub creator: u128,
    pub marketplace: u128,
    pub seller: u128,
    pub extra: u128,
    pub extra_address: Address,
    pub reverse_royalties: bool,
    pub reverse_cut_fee: bool,
}

/// An offer for any token of a collection.
#[derive(Clone, Copy, Debug)]
pub struct GlobalOffer {
    pub offer_id: u64,
    pub collection: TokenId,
    pub quantity: u128,
    pub payment_token: PaymentToken,
    pub payment_nonce: u64,
    pub price: u128,
    pub timestamp: u64,
    pub owner: Address,
    pub attributes: Option<BufferId>,
    pub new_version: bool,
}

/// One listing request of a bulk listing.
#[derive(Clone, Copy, Debug)]
pub struct BulkListing {
    pub min_bid: u128,
    pub max_bid: u128,
    pub deadline: u64,
    pub accepted_payment_token: PaymentToken,
    pub bid: bool,
    pub opt_sft_max_one_per_payment: bool,
    pub opt_start_time: u64,
    pub collection: PaymentToken,
    pub nonce: u64,
    pub nft_amount: u128,
    pub royalties: u128,
}

/// One listing change of a bulk update.
#[derive(Clone, Copy, Debug)]
pub struct BulkUpdateListing {
    pub payment_token_type: PaymentToken,
    pub new_price: u128,
    pub auction_id: u64,
    pub deadline: u64,
}

/// Per-collection fee settings.
#[derive(Clone, Copy, Debug)]
pub struct CollectionFeeConfig {
    pub reverse_cut_fees: bool,
    pub reverse_royalties: bool,
    pub custom_royalties: bool,
    pub min_royalties: u128,
    pub max_royalties: u128,
    pub extra_fees: CollectionExtraFeesConfig,
    pub admin: Address,
}

/// An extra fee of a collection and who receives it.
#[derive(Clone, Copy, Debug)]
pub struct CollectionExtraFeesConfig {
    pub amount: u128,
    pub address: Address,
}

/// A transfer of an ESDT token.
#[derive(Clone, Copy, Debug)]
pub struct EsdtPayment {
    pub token: TokenId,
    pub nonce: u64,
    pub amount: u128,
}

/// A transfer of EGLD or of an ESDT token.
#[derive(Clone, Copy, Debug)]
pub struct Payment {
    pub token: PaymentToken,
    pub nonce: u64,
    pub amount: u128,
}

/// A minimum amount of a token expected back from a swap.
#[derive(Clone, Copy, Debug)]
pub struct TokenAmount {
    pub token: TokenId,
    pub amount: u128,
}

/// One step of a swap route on the aggregator.
#[derive(Clone, Copy, Debug)]
pub struct AggregatorStep {
    pub token_in: TokenId,
    pub token_out: TokenId,
    pub amount_in: u128,
    pub pool_address: Address,
    pub function_name: BufferId,
    pub arguments: BufferId,
}

} // verus!
