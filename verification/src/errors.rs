//! The reasons for which the marketplace refuses a call.  A refused call
//! changes nothing: the chain reverts the whole transaction.
use vstd::prelude::*;

verus! {

#[derive(Clone, Copy, PartialEq, Eq, Structural, Debug)]
pub enum MarketError {
    /// "Global operation enabled!": the marketplace is paused.
    Disabled,
    /// "You are not an admin!"
    NotAdmin,
    /// Only the contract owner may call this endpoint.
    NotOwner,
    /// "Invalid percentage value, should be between 0 and 10,000"
    InvalidPercentage,
    /// "Auction {} does not exist!"
    AuctionNotFound,
    /// "Offer {} does not exist!"
    OfferNotFound,
    /// "Global Offer {} does not exist!"
    GlobalOfferNotFound,
    /// "Fees exceed 100%"
    FeesExceed100,
    /// "Marketplace cut plus royalties exceeds 100%"
    CutPlusRoyaltiesExceed100,
    /// "Auction is frozen!"
    AuctionFrozen,
    /// "Auction ID does not match the token"
    AuctionTokenMismatch,
    /// "Can't bid on your own token"
    BidOnOwnToken,
    /// "Auction hasn't started yet"
    AuctionNotStarted,
    /// "Auction ended already" / "Auction ended already!"
    AuctionEnded,
    /// "Can't outbid yourself!"
    OutbidYourself,
    /// "Bid must be higher than or equal to the min bid!"
    BidBelowMin,
    /// "Bid must be higher than the current winning bid!"
    BidNotAboveCurrent,
    /// "Bid must be less than or equal to the max bid!"
    BidAboveMax,
    /// "Wrong token used as payment"
    WrongPaymentToken,
    /// "Must buy more than 0"
    ZeroBuyAmount,
    /// "Cannot buy for this type of auction!"
    CannotBuyAuctionType,
    /// "Not enough quantity available!"
    NotEnoughQuantity,
    /// "Wrong amount paid, must pay equal to the selling price!"
    WrongAmountPaid,
    /// "Not enough gas left to complete the transaction!"
    NotEnoughGas,
    /// "Cannot withdraw, the auction already has bids!"
    AuctionHasBids,
    /// "Cannot bid on this type of auction!"
    CannotBidAuctionType,
    /// "Cannot end this type of auction!"
    CannotEndAuctionType,
    /// "You are not the owner of this auction in order to withdraw it!"
    NotAuctionOwner,
    /// "Auction deadline has not passed or the current bid is not equal to the max bid!"
    AuctionStillRunning,
    /// "Invalid body sent!"
    InvalidBody,
    /// "The payment token is not whitelisted!"
    PaymentTokenNotWhitelisted,
    /// "Must tranfer at least one"
    MustTransferAtLeastOne,
    /// "The payment item is not matching the listing item"
    PaymentNotMatchingListing,
    /// "Price must be fixed for this type of auction (min bid equal to max bid)"
    PriceMustBeFixed,
    /// "The payment token is not valid!"
    InvalidPaymentToken,
    /// "Min bid can't higher than max bid"
    MinBidAboveMaxBid,
    /// "Min bid must be higher than 0!"
    ZeroMinBid,
    /// "Only Semi-Fungible and Non-Fungible tokens can be auctioned"
    FungibleNotAuctionable,
    /// "Deadline can't be in the past"
    DeadlineInPast,
    /// "Invalid start time"
    InvalidStartTime,
    /// "Deadline is mandatory for this auction type!"
    DeadlineMandatory,
    /// "You can bulk buy just NFTs on sell with a fixed price!"
    BulkBuyOnlyFixedPriceNfts,
    /// "You do not have funds to buy all the NFTs!"
    NotEnoughFunds,
    /// "Only the original owner can withdraw!"
    NotOriginalOwner,
    /// "You can not send len 0 of updates!"
    NoUpdates,
    /// "Only NFT and SftOnePerPayment auctions can be bulk updated"
    CannotUpdateAuctionType,
    /// "Only the original owner can change the listing info!" / "... the price!"
    NotListingOwner,
    /// "You can not change the price of bids!"
    CannotChangeBidPrice,
    /// "Cannot accept the offer after deadline!"
    OfferExpired,
    /// "Cannot accept your own offer!"
    OwnOffer,
    /// "The quantity sent is not matching the offer!"
    QuantityNotMatchingOffer,
    /// "The nonce used is not matching the offer!"
    NonceNotMatchingOffer,
    /// "The token sent is not matching the offer!"
    TokenNotMatchingOffer,
    /// "Just the owner of the listed NFT can accept the offer!"
    NotListedNftOwner,
    /// "Cannot accept or decline offers for auctions, just for listings with a fixed price!"
    OfferOnlyForFixedPrice,
    /// "The quantity listed is not matching the offer!"
    ListedQuantityNotMatchingOffer,
    /// "The listed token is not matching the offer!"
    ListedTokenNotMatchingOffer,
    /// "You cannot decline offers for SFTs with more than 1 supply minted!"
    CannotDeclineSft,
    /// "You have to send 0 eGLD as payment to decline the offer!"
    DeclineNeedsZeroEgld,
    /// "Just the owner of the NFT can decline the offer!"
    NotNftOwner,
    /// "Only the original owner can withdraw the offer!"
    NotOfferOwner,
    /// "The payment token is not EGLD!"
    PaymentNotEgld,
    /// The endpoint takes EGLD only, and an ESDT was sent with the call.
    EsdtNotAccepted,
    /// "The payment nonce is not 0!"
    PaymentNonceNotZero,
    /// "Only Semi-Fungible and Non-Fungible tokens can have offers"
    FungibleCannotHaveOffers,
    /// "The quantity has to be 1!"
    QuantityMustBeOne,
    /// "Your address was blacklisted..."
    Blacklisted,
    /// "You already sent an offer for this NFT with the same token!"
    OfferAlreadySent,
    /// "The NFT token is not valid!"
    InvalidNftToken,
    /// "You can not place over 250 global offers per wallet!"
    TooManyGlobalOffers,
    /// "You have a limit of 25 offers per collection!"
    TooManyCollectionOffers,
    /// "You are not the owner of this offer!"
    NotGlobalOfferOwner,
    /// "This offer is already removed!"
    OfferAlreadyRemoved,
    /// "The collection sent is not the offer requested one!"
    CollectionNotMatchingOffer,
    /// "The offer is not accepting more than {} items"
    OfferQuantityExceeded,
    /// "Signature required!"
    SignatureRequired,
    /// "The deposited token is not whitelisted!"
    DepositTokenNotWhitelisted,
    /// "Your balance is under the requested amount!"
    BalanceTooLow,
    /// "This user has no balance deposited!"
    NoBalance,
    /// "This token is not used for rewards!" / "The reward ticker is not used!"
    NotRewardToken,
    /// "The address is not a smart contract!"
    NotSmartContract,
    /// "Min royalties must be lower or equal than max royalties!"
    MinRoyaltiesAboveMax,
    /// The reward token is EGLD, whose balance cannot be read as an ESDT balance.
    RewardTickerNotEsdt,
    /// A number does not fit in the width the marketplace stores it with.
    Overflow,
    /// The attributes of a token could not be decoded.
    AttributesDecodeFailed,
    /// An argument the call needs was not given.
    MissingArgument,
    /// Exactly one ESDT transfer was expected.
    NotSingleEsdtTransfer,
}

} // verus!
