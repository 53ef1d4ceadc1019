//! What a call asks the chain to do: transfers, calls to other contracts,
//! signature checks and the events it logs.
use vstd::prelude::*;

use crate::storage::Marketplace;
use crate::auction::{
    Address, AggregatorStep, Auction, BufferId, CollectionFeeConfig, EsdtPayment, GlobalOffer, Offer,
    Payment, PaymentToken, TokenAmount, TokenId,
};

verus! {

/// An event logged by the marketplace.
#[allow(inconsistent_fields)]
#[derive(Clone, Copy, Debug)]
pub enum Event {
    AuctionToken { auction_id: u64, auction: Auction },
    OutBid { auction_id: u64, auction: Auction, bidder: Address, new_amount: u128 },
    Bid { auction_id: u64, auction: Auction },
    EndAuction { auction_id: u64, auction: Auction },
    Buy {
        auction_id: u64,
        auction: Auction,
        nr_bought_tokens: u128,
        timestamp: u64,
        message: Option<BufferId>,
        buy_by: Option<Address>,
        payment: Payment,
    },
    Withdraw { auction_id: u64, auction: Auction },
    ChangeListing { auction_id: u64, auction: Auction, new_price: u128 },
    ChangePrice { auction_id: u64, auction: Auction, new_price: u128, timestamp: u64 },
    OfferToken { offer_id: u64, offer: Offer },
    WithdrawOffer { offer_id: u64, offer: Offer },
    AcceptOffer { offer_id: u64, offer: Offer, seller: Address, auction_removed: u64 },
    SendGlobalOffer { offer: GlobalOffer },
    RemoveGlobalOffer { offer_id: u64, collection: TokenId },
    AcceptGlobalOffer { offer: GlobalOffer, seller: Address, quantity: u128 },
    CollectionConfig { collection: TokenId, config: CollectionFeeConfig },
    DepositBalance { owner: Address, payment: Payment },
}

/// What the aggregator callback needs to finish a swap purchase.
#[derive(Clone, Copy, Debug)]
pub struct SwapCallback {
    pub send_to: Address,
    pub paid_by: Address,
    pub quantity: u128,
    pub total_price: u128,
    pub auction_id: u64,
    pub original_payment: Payment,
    pub message: Option<BufferId>,
}

/// A piece of the data whose signature is checked.
#[derive(Clone, Copy, Debug)]
pub enum SignaturePart {
    Address(Address),
    Token(TokenId),
    Byte(u8),
    Buffer(BufferId),
}

/// An effect the chain performs for a successful call, in order.
///
/// A call to the aggregator is an `AggregateCall` followed by its
/// `AggregateStep`s and then its `AggregateLimit`s; a signature check is a
/// `VerifySignature` followed by the `SignedData` pieces of the signed message.
#[derive(Clone, Copy, Debug)]
pub enum Action {
    /// Send `amount` of `token` (with `nonce`) to `to`.
    Transfer { to: Address, token: PaymentToken, nonce: u64, amount: u128 },
    /// Wrap `amount` EGLD into the wrapped-EGLD token at the wrapping contract.
    WrapEgld { amount: u128 },
    /// Unwrap `amount` wrapped-EGLD into EGLD at the wrapping contract.
    UnwrapEgld { amount: u128 },
    /// Call the aggregator with `payment`, then call back with `callback`.
    AggregateCall { payment: EsdtPayment, gas: u64, callback: SwapCallback },
    AggregateStep(AggregatorStep),
    AggregateLimit(TokenAmount),
    /// Check the signature of `signer` over the pieces that follow; abort when it fails.
    VerifySignature { signer: Address, signature: BufferId },
    SignedData(SignaturePart),
    /// Log an event.
    Event(Event),
}

/// The transfer action.
pub open spec fn transfer(to: Address, token: PaymentToken, nonce: u64, amount: u128) -> Action {
    Action::Transfer { to, token, nonce, amount }
}

/// Building the events the marketplace logs.
pub trait EventsModule {
    fn emit_change_listing_event(&self, auction_id: u64, auction: &Auction, new_amount: u128) -> (r:
        Event)
        ensures
            r == (Event::ChangeListing { auction_id, auction: *auction, new_price: new_amount }),
    ;

    fn emit_out_bid_event(
        &self,
        auction_id: u64,
        auction: &Auction,
        bidder: Address,
        new_amount: u128,
    ) -> (r: Event)
        ensures
            r == (Event::OutBid { auction_id, auction: *auction, bidder, new_amount }),
    ;

    fn emit_auction_token_event(&self, auction_id: u64, auction: &Auction) -> (r: Event)
        ensures
            r == (Event::AuctionToken { auction_id, auction: *auction }),
    ;

    fn emit_offer_token_event(&self, offer_id: u64, offer: &Offer) -> (r: Event)
        ensures
            r == (Event::OfferToken { offer_id, offer: *offer }),
    ;

    fn emit_withdraw_offer_event(&self, offer_id: u64, offer: &Offer) -> (r: Event)
        ensures
            r == (Event::WithdrawOffer { offer_id, offer: *offer }),
    ;

    fn emit_accept_offer_event(
        &self,
        offer_id: u64,
        offer: &Offer,
        seller: Address,
        auction_removed: u64,
    ) -> (r: Event)
        ensures
            r == (Event::AcceptOffer { offer_id, offer: *offer, seller, auction_removed }),
    ;

    fn emit_bid_event(&self, auction_id: u64, auction: &Auction) -> (r: Event)
        ensures
            r == (Event::Bid { auction_id, auction: *auction }),
    ;

    fn emit_end_auction_event(&self, auction_id: u64, auction: &Auction) -> (r: Event)
        ensures
            r == (Event::EndAuction { auction_id, auction: *auction }),
    ;

    fn emit_buy_event(
        &self,
        auction_id: u64,
        auction: &Auction,
        nr_bought_tokens: u128,
        timestamp: u64,
        message: Option<BufferId>,
        buy_by: Option<Address>,
        payment: Payment,
    ) -> (r: Event)
        ensures
            r == (Event::Buy {
                auction_id,
                auction: *auction,
                nr_bought_tokens,
                timestamp,
                message,
                buy_by,
                payment,
            }),
    ;

    fn emit_withdraw_event(&self, auction_id: u64, auction: &Auction) -> (r: Event)
        ensures
            r == (Event::Withdraw { auction_id, auction: *auction }),
    ;

    fn emit_send_global_offer_event(&self, offer: &GlobalOffer) -> (r: Event)
        ensures
            r == (Event::SendGlobalOffer { offer: *offer }),
    ;

    fn emit_remove_global_offer_event(&self, offer_id: u64, collection: TokenId) -> (r: Event)
        ensures
            r == (Event::RemoveGlobalOffer { offer_id, collection }),
    ;

    fn emit_accept_global_offer_event(
        &self,
        offer: &GlobalOffer,
        seller: Address,
        quantity: u128,
    ) -> (r: Event)
        ensures
            r == (Event::AcceptGlobalOffer { offer: *offer, seller, quantity }),
    ;

    fn emit_deposit_balance(&self, owner: Address, payment: Payment) -> (r: Event)
        ensures
            r == (Event::DepositBalance { owner, payment }),
    ;

    fn emit_collection_config(&self, collection: TokenId, config: &CollectionFeeConfig) -> (r: Event)
        ensures
            r == (Event::CollectionConfig { collection, config: *config }),
    ;
}

impl EventsModule for Marketplace {
    fn emit_change_listing_event(&self, auction_id: u64, auction: &Auction, new_amount: u128) -> (r:
        Event) {
        Event::ChangeListing { auction_id, auction: *auction, new_price: new_amount }
    }

    fn emit_out_bid_event(
        &self,
        auction_id: u64,
        auction: &Auction,
        bidder: Address,
        new_amount: u128,
    ) -> (r: Event) {
        Event::OutBid { auction_id, auction: *auction, bidder, new_amount }
    }

    fn emit_auction_token_event(&self, auction_id: u64, auction: &Auction) -> (r: Event) {
        Event::AuctionToken { auction_id, auction: *auction }
    }

    fn emit_offer_token_event(&self, offer_id: u64, offer: &Offer) -> (r: Event) {
        Event::OfferToken { offer_id, offer: *offer }
    }

    fn emit_withdraw_offer_event(&self, offer_id: u64, offer: &Offer) -> (r: Event) {
        Event::WithdrawOffer { offer_id, offer: *offer }
    }

    fn emit_accept_offer_event(
        &self,
        offer_id: u64,
        offer: &Offer,
        seller: Address,
        auction_removed: u64,
    ) -> (r: Event) {
        Event::AcceptOffer { offer_id, offer: *offer, seller, auction_removed }
    }

    fn emit_bid_event(&self, auction_id: u64, auction: &Auction) -> (r: Event) {
        Event::Bid { auction_id, auction: *auction }
    }

    fn emit_end_auction_event(&self, auction_id: u64, auction: &Auction) -> (r: Event) {
        Event::EndAuction { auction_id, auction: *auction }
    }

    fn emit_buy_event(
        &self,
        auction_id: u64,
        auction: &Auction,
        nr_bought_tokens: u128,
        timestamp: u64,
        message: Option<BufferId>,
        buy_by: Option<Address>,
        payment: Payment,
    ) -> (r: Event) {
        Event::Buy {
            auction_id,
            auction: *auction,
            nr_bought_tokens,
            timestamp,
            message,
            buy_by,
            payment,
        }
    }

    fn emit_withdraw_event(&self, auction_id: u64, auction: &Auction) -> (r: Event) {
        Event::Withdraw { auction_id, auction: *auction }
    }

    fn emit_send_global_offer_event(&self, offer: &GlobalOffer) -> (r: Event) {
        Event::SendGlobalOffer { offer: *offer }
    }

    fn emit_remove_global_offer_event(&self, offer_id: u64, collection: TokenId) -> (r: Event) {
        Event::RemoveGlobalOffer { offer_id, collection }
    }

    fn emit_accept_global_offer_event(
        &self,
        offer: &GlobalOffer,
        seller: Address,
        quantity: u128,
    ) -> (r: Event) {
        Event::AcceptGlobalOffer { offer: *offer, seller, quantity }
    }

    fn emit_deposit_balance(&self, owner: Address, payment: Payment) -> (r: Event) {
        Event::DepositBalance { owner, payment }
    }

    fn emit_collection_config(&self, collection: TokenId, config: &CollectionFeeConfig) -> (r: Event) {
        Event::CollectionConfig { collection, config: *config }
    }
}

} // verus!
