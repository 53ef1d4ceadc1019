//! The single-listing marketplace contract: one token listed per call, bids,
//! purchases paid exactly, withdrawals and price changes.
use vstd::prelude::*;

use crate::auction::{
    Address, Auction, AuctionType, BufferId, EsdtPayment, Payment, PaymentToken, TokenId, NFT_AMOUNT,
    PERCENTAGE_TOTAL, ZERO_ADDRESS,
};
use crate::collections::{amount_at, seq_with, set_at, with_amount, with_set};
use crate::common::{
    endpoint_matches, prefixed, spec_common_bid_checks, spec_distribute_tokens, spec_end_auction_common,
    spec_remove_auction_common, spec_update_or_remove_items_quantity, spec_withdraw_auction_common, is_bid_type,
    CommonModule,
};
use crate::errors::MarketError;
use crate::events::{transfer, Action, Event, EventsModule};
use crate::helpers::{spec_nft_info, HelpersModule, Step};
use crate::init::{initial_store, listing_type, reaches_max_bid, spec_refund_previous_bid};
use crate::offers::{id_matches, IdStep};
use crate::storage::{ChainContext, Marketplace, StorageModule, Store};

verus! {

/// The storage of the marketplace deployed with a cut and a signer only.
pub open spec fn esdt_initial_store(bid_cut_percentage: u64, signer: Address) -> Store {
    initial_store(bid_cut_percentage, signer, ZERO_ADDRESS, 0, ZERO_ADDRESS)
}

/// `listing`: the caller lists the token sent; the listing gets the next id.
pub open spec fn spec_esdt_listing(
    s: Store,
    ctx: ChainContext,
    payment: EsdtPayment,
    min_bid: u128,
    max_bid: u128,
    deadline: u64,
    accepted_payment_token: PaymentToken,
    bid: bool,
    opt_sft_max_one_per_payment: Option<bool>,
    opt_start_time: Option<u64>,
) -> IdStep {
    let now = ctx.timestamp;
    let start_time = match opt_start_time {
        Some(t) => t,
        None => now,
    };
    let sft_max_one_per_payment = match opt_sft_max_one_per_payment {
        Some(b) => b,
        None => false,
    };
    if !s.status {
        Err(MarketError::Disabled)
    } else if !s.accepted_tokens.contains(accepted_payment_token) {
        Err(MarketError::PaymentTokenNotWhitelisted)
    } else if payment.amount < NFT_AMOUNT {
        Err(MarketError::MustTransferAtLeastOne)
    } else if (sft_max_one_per_payment || !bid) && min_bid != max_bid {
        Err(MarketError::PriceMustBeFixed)
    } else if max_bid > 0 && min_bid > max_bid {
        Err(MarketError::MinBidAboveMaxBid)
    } else if min_bid == 0 {
        Err(MarketError::ZeroMinBid)
    } else if payment.nonce == 0 {
        Err(MarketError::FungibleNotAuctionable)
    } else if !(deadline > now || deadline == 0) {
        Err(MarketError::DeadlineInPast)
    } else if deadline != 0 && !(start_time >= now && start_time < deadline) {
        Err(MarketError::InvalidStartTime)
    } else {
        match spec_nft_info(ctx, payment.token, payment.nonce) {
            Err(e) => Err(e),
            Ok(info) => if s.bid_cut_percentage + info.royalties >= PERCENTAGE_TOTAL {
                Err(MarketError::CutPlusRoyaltiesExceed100)
            } else if s.last_valid_auction_id == u64::MAX {
                Err(MarketError::Overflow)
            } else {
                let auction_id = (s.last_valid_auction_id + 1) as u64;
                let auction_type = listing_type(payment.amount, sft_max_one_per_payment, bid);
                let key = (payment.token, payment.nonce);
                let quantity = amount_at(s.token_items_quantity_for_sale, key) + payment.amount;
                if deadline == 0 && !(auction_type == AuctionType::Nft || auction_type == AuctionType::SftOnePerPayment
                    || (auction_type == AuctionType::SftAll && min_bid == max_bid)) {
                    Err(MarketError::DeadlineMandatory)
                } else if quantity > u128::MAX {
                    Err(MarketError::Overflow)
                } else {
                    let auction = Auction {
                        auctioned_token_type: payment.token,
                        auctioned_token_nonce: payment.nonce,
                        nr_auctioned_tokens: payment.amount,
                        auction_type,
                        payment_token_type: accepted_payment_token,
                        payment_token_nonce: 0,
                        min_bid,
                        max_bid: if max_bid > 0 { Some(max_bid) } else { None },
                        start_time,
                        deadline,
                        original_owner: ctx.caller,
                        current_bid: 0,
                        current_winner: ZERO_ADDRESS,
                        marketplace_cut_percentage: s.bid_cut_percentage,
                        creator_royalties_percentage: info.royalties,
                    };
                    Ok((
                        Store {
                            last_valid_auction_id: auction_id,
                            auction_by_id: s.auction_by_id.insert(auction_id, auction),
                            listings: seq_with(s.listings, auction_id),
                            listings_by_wallet: with_set(
                                s.listings_by_wallet,
                                ctx.caller,
                                seq_with(set_at(s.listings_by_wallet, ctx.caller), auction_id),
                            ),
                            token_items_for_sale: with_set(
                                s.token_items_for_sale,
                                payment.token,
                                seq_with(set_at(s.token_items_for_sale, payment.token), payment.nonce),
                            ),
                            token_auction_ids: with_set(
                                s.token_auction_ids,
                                key,
                                seq_with(set_at(s.token_auction_ids, key), auction_id),
                            ),
                            token_items_quantity_for_sale: with_amount(s.token_items_quantity_for_sale, key, quantity as u128),
                            collections_listed: seq_with(s.collections_listed, payment.token),
                            ..s
                        },
                        seq![Action::Event(Event::AuctionToken { auction_id, auction })],
                        auction_id,
                    ))
                }
            },
        }
    }
}

/// `bid`: the caller bids `payment` on a bid-type listing; the previous best
/// bid is refunded, and a bid at the maximum ends the listing.
pub open spec fn spec_esdt_bid(s: Store, ctx: ChainContext, auction_id: u64, nft_type: TokenId, nft_nonce: u64, payment: Payment) -> Step {
    if !s.status {
        Err(MarketError::Disabled)
    } else if !s.auction_by_id.contains_key(auction_id) {
        Err(MarketError::AuctionNotFound)
    } else {
        let auction = s.auction_by_id[auction_id];
        match spec_common_bid_checks(
            s,
            ctx,
            auction,
            auction_id,
            nft_type,
            nft_nonce,
            payment.token,
            payment.nonce,
            payment.amount,
            s.wrapping_token,
            false,
        ) {
            Err(e) => Err(e),
            Ok(_) => if !is_bid_type(auction.auction_type) {
                Err(MarketError::CannotBidAuctionType)
            } else if auction.max_bid is Some && payment.amount > auction.max_bid->0 {
                Err(MarketError::BidAboveMax)
            } else {
                match spec_refund_previous_bid(s, ctx, auction_id, auction, payment.amount) {
                    Err(e) => Err(e),
                    Ok((s2, t1)) => {
                        let new_auction = Auction { current_bid: payment.amount, current_winner: ctx.caller, ..auction };
                        let s3 = Store {
                            auction_by_id: s2.auction_by_id.insert(auction_id, new_auction),
                            listings_bids: with_set(
                                s2.listings_bids,
                                ctx.caller,
                                seq_with(set_at(s2.listings_bids, ctx.caller), auction_id),
                            ),
                            ..s2
                        };
                        prefixed(
                            t1,
                            if reaches_max_bid(auction, payment.amount) {
                                spec_end_auction_common(s3, ctx, auction_id, new_auction)
                            } else {
                                Ok((s3, seq![Action::Event(Event::Bid { auction_id, auction: new_auction })]))
                            },
                        )
                    },
                }
            },
        }
    }
}

/// `endAuction`: ends a bid-type listing whose deadline passed or whose
/// maximum was bid; an open-ended fixed-price sale of all units only by its owner.
pub open spec fn spec_esdt_end_auction(s: Store, ctx: ChainContext, auction_id: u64) -> Step {
    if !s.status {
        Err(MarketError::Disabled)
    } else if !s.auction_by_id.contains_key(auction_id) {
        Err(MarketError::AuctionNotFound)
    } else {
        let auction = s.auction_by_id[auction_id];
        if !is_bid_type(auction.auction_type) {
            Err(MarketError::CannotEndAuctionType)
        } else if auction.deadline == 0 && auction.auction_type == AuctionType::SftAll && auction.max_bid
            == Some(auction.min_bid) && ctx.caller != auction.original_owner {
            Err(MarketError::NotAuctionOwner)
        } else if !(ctx.timestamp > auction.deadline || reaches_max_bid(auction, auction.current_bid)) {
            Err(MarketError::AuctionStillRunning)
        } else {
            spec_end_auction_common(s, ctx, auction_id, auction)
        }
    }
}

/// A purchase from a fixed-price listing, paid exactly: the proceeds are
/// shared first, then the listing is updated (or removed when nothing is
/// left) and the purchase logged.  A listing takes its payment token at any
/// nonce, and the sale is settled in the nonce paid.
pub open spec fn spec_esdt_common_buy(
    s: Store,
    ctx: ChainContext,
    auction_id: u64,
    nft_type: TokenId,
    nft_nonce: u64,
    opt_sft_buy_amount: Option<u128>,
    buy_for: Option<Address>,
    message: Option<BufferId>,
    payment: Payment,
) -> Step {
    if !s.status {
        Err(MarketError::Disabled)
    } else if !s.auction_by_id.contains_key(auction_id) {
        Err(MarketError::AuctionNotFound)
    } else {
        let auction = s.auction_by_id[auction_id];
        let buy_amount = match opt_sft_buy_amount {
            Some(a) => a,
            None => NFT_AMOUNT as u128,
        };
        let buyer = match buy_for {
            Some(b) => b,
            None => ctx.caller,
        };
        match spec_common_bid_checks(
            s,
            ctx,
            auction,
            auction_id,
            nft_type,
            nft_nonce,
            payment.token,
            auction.payment_token_nonce,
            payment.amount,
            s.wrapping_token,
            false,
        ) {
            Err(e) => Err(e),
            Ok(_) => if buy_amount == 0 {
                Err(MarketError::ZeroBuyAmount)
            } else if !(auction.auction_type == AuctionType::SftOnePerPayment || auction.auction_type == AuctionType::Nft) {
                Err(MarketError::CannotBuyAuctionType)
            } else if buy_amount > auction.nr_auctioned_tokens {
                Err(MarketError::NotEnoughQuantity)
            } else if buy_amount * auction.min_bid != payment.amount {
                Err(MarketError::WrongAmountPaid)
            } else {
                let sold = Auction { current_winner: buyer, current_bid: payment.amount, payment_token_nonce: payment.nonce, ..auction };
                match spec_distribute_tokens(s, ctx, sold, Some(buy_amount), false) {
                    Err(e) => Err(e),
                    Ok((s1, t1)) => {
                        let left = Auction {
                            nr_auctioned_tokens: (auction.nr_auctioned_tokens - buy_amount) as u128,
                            payment_token_nonce: auction.payment_token_nonce,
                            ..sold
                        };
                        let s2 = if left.nr_auctioned_tokens == 0 {
                            spec_remove_auction_common(s1, auction_id, left)
                        } else {
                            Store { auction_by_id: s1.auction_by_id.insert(auction_id, left), ..s1 }
                        };
                        match spec_update_or_remove_items_quantity(s2, left, buy_amount) {
                            Err(e) => Err(e),
                            Ok(s3) => Ok((
                                s3,
                                t1.push(Action::Event(Event::Buy {
                                    auction_id,
                                    auction: left,
                                    nr_bought_tokens: buy_amount,
                                    timestamp: ctx.timestamp,
                                    message,
                                    buy_by: if buy_for is Some { Some(ctx.caller) } else { None },
                                    payment,
                                })),
                            )),
                        }
                    },
                }
            },
        }
    }
}

/// What is left of the payment of a bulk purchase after the listings from
/// position `i` on; a listing that is gone is skipped.
pub open spec fn esdt_bulk_left_from(s: Store, ids: Seq<u64>, i: int, available: u128) -> Result<u128, MarketError>
    decreases ids.len() - i,
{
    if i >= ids.len() || i < 0 {
        Ok(available)
    } else if !s.auction_by_id.contains_key(ids[i]) {
        esdt_bulk_left_from(s, ids, i + 1, available)
    } else {
        let listing = s.auction_by_id[ids[i]];
        if listing.auction_type != AuctionType::Nft {
            Err(MarketError::BulkBuyOnlyFixedPriceNfts)
        } else if available < listing.min_bid {
            Err(MarketError::NotEnoughFunds)
        } else {
            esdt_bulk_left_from(s, ids, i + 1, (available - listing.min_bid) as u128)
        }
    }
}

/// `bulkBuy`: the prices of the fixed-price NFT listings `ids` are kept from
/// the payment and what is left goes back to the caller; the listings stay.
pub open spec fn spec_esdt_bulk_buy(s: Store, ctx: ChainContext, payment: Payment, ids: Seq<u64>) -> Step {
    match esdt_bulk_left_from(s, ids, 0, payment.amount) {
        Err(e) => Err(e),
        Ok(left) => Ok((
            s,
            if left > 0 {
                seq![transfer(ctx.caller, payment.token, payment.nonce, left)]
            } else {
                seq![]
            },
        )),
    }
}

/// `withdraw`: the owner of a listing takes it back.
pub open spec fn spec_esdt_withdraw(s: Store, ctx: ChainContext, auction_id: u64) -> Step {
    if !s.status {
        Err(MarketError::Disabled)
    } else if !s.auction_by_id.contains_key(auction_id) {
        Err(MarketError::AuctionNotFound)
    } else if s.auction_by_id[auction_id].original_owner != ctx.caller {
        Err(MarketError::NotOriginalOwner)
    } else {
        spec_withdraw_auction_common(s, ctx, auction_id, s.auction_by_id[auction_id])
    }
}

/// `changePrice`: the owner of a fixed-price listing sets a new price.
pub open spec fn spec_esdt_change_price(s: Store, ctx: ChainContext, auction_id: u64, new_price: u128) -> Step {
    if !s.status {
        Err(MarketError::Disabled)
    } else if !s.auction_by_id.contains_key(auction_id) {
        Err(MarketError::AuctionNotFound)
    } else {
        let auction = s.auction_by_id[auction_id];
        if auction.original_owner != ctx.caller {
            Err(MarketError::NotListingOwner)
        } else if !(auction.auction_type == AuctionType::Nft || auction.auction_type == AuctionType::SftOnePerPayment) {
            Err(MarketError::CannotChangeBidPrice)
        } else {
            Ok((
                Store {
                    auction_by_id: s.auction_by_id.insert(
                        auction_id,
                        Auction { max_bid: Some(new_price), min_bid: new_price, ..auction },
                    ),
                    ..s
                },
                seq![Action::Event(Event::ChangePrice { auction_id, auction, new_price, timestamp: ctx.timestamp })],
            ))
        }
    }
}

/// The single-listing marketplace contract.
pub trait EsdtNftMarketplace: StorageModule + HelpersModule + EventsModule {
    /// Deploys the marketplace with a cut and a signer.
    fn init(bid_cut_percentage: u64, signer: Address) -> (r: Result<Self, MarketError>) where Self: std::marker::Sized
        ensures
            r is Ok <==> 0 < bid_cut_percentage < PERCENTAGE_TOTAL,
            r is Err ==> r == Err::<Self, MarketError>(MarketError::InvalidPercentage),
            r is Ok ==> r->Ok_0.inv() && r->Ok_0.store() == esdt_initial_store(bid_cut_percentage, signer),
    ;

    /// Lists the token sent (see `spec_esdt_listing`); answers with the listing's id.
    fn listing(
        &mut self,
        ctx: &ChainContext,
        payment: EsdtPayment,
        min_bid: u128,
        max_bid: u128,
        deadline: u64,
        accepted_payment_token: PaymentToken,
        bid: bool,
        opt_sft_max_one_per_payment: Option<bool>,
        opt_start_time: Option<u64>,
    ) -> (r: Result<(Vec<Action>, u64), MarketError>)
        requires
            old(self).inv(),
        ensures
            final(self).inv(),
            id_matches(
                spec_esdt_listing(
                    old(self).store(),
                    *ctx,
                    payment,
                    min_bid,
                    max_bid,
                    deadline,
                    accepted_payment_token,
                    bid,
                    opt_sft_max_one_per_payment,
                    opt_start_time,
                ),
                r,
                final(self).store(),
            ),
            r is Err ==> final(self).store() == old(self).store(),
    ;

    /// Bids on a listing (see `spec_esdt_bid`).
    fn bid(&mut self, ctx: &ChainContext, auction_id: u64, nft_type: TokenId, nft_nonce: u64, payment: Payment) -> (r: Result<
        Vec<Action>,
        MarketError,
    >)
        requires
            old(self).inv(),
        ensures
            final(self).inv(),
            endpoint_matches(spec_esdt_bid(old(self).store(), *ctx, auction_id, nft_type, nft_nonce, payment), r, final(self).store()),
            r is Err ==> final(self).store() == old(self).store(),
    ;

    /// Ends a listing (see `spec_esdt_end_auction`).
    fn end_auction(&mut self, ctx: &ChainContext, auction_id: u64) -> (r: Result<Vec<Action>, MarketError>)
        requires
            old(self).inv(),
        ensures
            final(self).inv(),
            endpoint_matches(spec_esdt_end_auction(old(self).store(), *ctx, auction_id), r, final(self).store()),
            r is Err ==> final(self).store() == old(self).store(),
    ;

    /// Buys from a fixed-price listing (see `spec_esdt_common_buy`).
    fn buy(
        &mut self,
        ctx: &ChainContext,
        auction_id: u64,
        nft_type: TokenId,
        nft_nonce: u64,
        opt_sft_buy_amount: Option<u128>,
        payment: Payment,
    ) -> (r: Result<Vec<Action>, MarketError>)
        requires
            old(self).inv(),
        ensures
            final(self).inv(),
            endpoint_matches(
                spec_esdt_common_buy(old(self).store(), *ctx, auction_id, nft_type, nft_nonce, opt_sft_buy_amount, None, None, payment),
                r,
                final(self).store(),
            ),
            r is Err ==> final(self).store() == old(self).store(),
    ;

    /// Buys from a fixed-price listing for another address (see `spec_esdt_common_buy`).
    fn buy_for(
        &mut self,
        ctx: &ChainContext,
        auction_id: u64,
        nft_type: TokenId,
        nft_nonce: u64,
        opt_sft_buy_amount: Option<u128>,
        buy_for: Option<Address>,
        message: Option<BufferId>,
        payment: Payment,
    ) -> (r: Result<Vec<Action>, MarketError>)
        requires
            old(self).inv(),
        ensures
            final(self).inv(),
            endpoint_matches(
                spec_esdt_common_buy(old(self).store(), *ctx, auction_id, nft_type, nft_nonce, opt_sft_buy_amount, buy_for, message, payment),
                r,
                final(self).store(),
            ),
            r is Err ==> final(self).store() == old(self).store(),
    ;

    /// See `spec_esdt_common_buy`.
    fn common_buy(
        &mut self,
        ctx: &ChainContext,
        auction_id: u64,
        nft_type: TokenId,
        nft_nonce: u64,
        opt_sft_buy_amount: Option<u128>,
        buy_for: Option<Address>,
        message: Option<BufferId>,
        payment: Payment,
    ) -> (r: Result<Vec<Action>, MarketError>)
        requires
            old(self).inv(),
        ensures
            final(self).inv(),
            endpoint_matches(
                spec_esdt_common_buy(old(self).store(), *ctx, auction_id, nft_type, nft_nonce, opt_sft_buy_amount, buy_for, message, payment),
                r,
                final(self).store(),
            ),
            r is Err ==> final(self).store() == old(self).store(),
    ;

    /// See `spec_esdt_bulk_buy`.
    fn bulk_buy(&mut self, ctx: &ChainContext, payment: Payment, auction_ids: &Vec<u64>) -> (r: Result<Vec<Action>, MarketError>)
        requires
            old(self).inv(),
        ensures
            final(self).inv(),
            endpoint_matches(spec_esdt_bulk_buy(old(self).store(), *ctx, payment, auction_ids@), r, final(self).store()),
            r is Err ==> final(self).store() == old(self).store(),
    ;

    /// See `spec_esdt_withdraw`.
    fn withdraw(&mut self, ctx: &ChainContext, auction_id: u64) -> (r: Result<Vec<Action>, MarketError>)
        requires
            old(self).inv(),
        ensures
            final(self).inv(),
            endpoint_matches(spec_esdt_withdraw(old(self).store(), *ctx, auction_id), r, final(self).store()),
            r is Err ==> final(self).store() == old(self).store(),
    ;

    /// See `spec_esdt_change_price`.
    fn change_price(&mut self, ctx: &ChainContext, auction_id: u64, new_price: u128) -> (r: Result<Vec<Action>, MarketError>)
        requires
            old(self).inv(),
        ensures
            final(self).inv(),
            endpoint_matches(spec_esdt_change_price(old(self).store(), *ctx, auction_id, new_price), r, final(self).store()),
            r is Err ==> final(self).store() == old(self).store(),
    ;
}

impl EsdtNftMarketplace for Marketplace {
    fn init(bid_cut_percentage: u64, signer: Address) -> (r: Result<Self, MarketError>) {
        let mut m = Marketplace::empty_storage(signer, ZERO_ADDRESS, 0, ZERO_ADDRESS);
        m.try_set_bid_cut_percentage(bid_cut_percentage)?;
        Ok(m)
    }

    fn listing(
        &mut self,
        ctx: &ChainContext,
        payment: EsdtPayment,
        min_bid: u128,
        max_bid: u128,
        deadline: u64,
        accepted_payment_token: PaymentToken,
        bid: bool,
        opt_sft_max_one_per_payment: Option<bool>,
        opt_start_time: Option<u64>,
    ) -> (r: Result<(Vec<Action>, u64), MarketError>) {
        let saved = self.duplicate();
        let r = self.attempt_single_listing(ctx, payment, min_bid, max_bid, deadline, accepted_payment_token, bid, opt_sft_max_one_per_payment, opt_start_time);
        if r.is_err() {
            *self = saved;
        }
        r
    }

    fn bid(&mut self, ctx: &ChainContext, auction_id: u64, nft_type: TokenId, nft_nonce: u64, payment: Payment) -> (r: Result<
        Vec<Action>,
        MarketError,
    >) {
        let saved = self.duplicate();
        let r = self.attempt_single_bid(ctx, auction_id, nft_type, nft_nonce, payment);
        if r.is_err() {
            *self = saved;
        }
        r
    }

    fn end_auction(&mut self, ctx: &ChainContext, auction_id: u64) -> (r: Result<Vec<Action>, MarketError>) {
        let saved = self.duplicate();
        let r = self.attempt_single_end_auction(ctx, auction_id);
        if r.is_err() {
            *self = saved;
        }
        r
    }

    fn buy(
        &mut self,
        ctx: &ChainContext,
        auction_id: u64,
        nft_type: TokenId,
        nft_nonce: u64,
        opt_sft_buy_amount: Option<u128>,
        payment: Payment,
    ) -> (r: Result<Vec<Action>, MarketError>) {
        let saved = self.duplicate();
        let r = self.attempt_single_buy(ctx, auction_id, nft_type, nft_nonce, opt_sft_buy_amount, payment);
        if r.is_err() {
            *self = saved;
        }
        r
    }

    fn buy_for(
        &mut self,
        ctx: &ChainContext,
        auction_id: u64,
        nft_type: TokenId,
        nft_nonce: u64,
        opt_sft_buy_amount: Option<u128>,
        buy_for: Option<Address>,
        message: Option<BufferId>,
        payment: Payment,
    ) -> (r: Result<Vec<Action>, MarketError>) {
        let saved = self.duplicate();
        let r = self.attempt_single_buy_for(ctx, auction_id, nft_type, nft_nonce, opt_sft_buy_amount, buy_for, message, payment);
        if r.is_err() {
            *self = saved;
        }
        r
    }

    fn common_buy(
        &mut self,
        ctx: &ChainContext,
        auction_id: u64,
        nft_type: TokenId,
        nft_nonce: u64,
        opt_sft_buy_amount: Option<u128>,
        buy_for: Option<Address>,
        message: Option<BufferId>,
        payment: Payment,
    ) -> (r: Result<Vec<Action>, MarketError>) {
        let saved = self.duplicate();
        let r = self.attempt_single_common_buy(ctx, auction_id, nft_type, nft_nonce, opt_sft_buy_amount, buy_for, message, payment);
        if r.is_err() {
            *self = saved;
        }
        r
    }

    fn bulk_buy(&mut self, ctx: &ChainContext, payment: Payment, auction_ids: &Vec<u64>) -> (r: Result<Vec<Action>, MarketError>) {
        let saved = self.duplicate();
        let r = self.attempt_single_bulk_buy(ctx, payment, auction_ids);
        if r.is_err() {
            *self = saved;
        }
        r
    }

    fn withdraw(&mut self, ctx: &ChainContext, auction_id: u64) -> (r: Result<Vec<Action>, MarketError>) {
        let saved = self.duplicate();
        let r = self.attempt_single_withdraw(ctx, auction_id);
        if r.is_err() {
            *self = saved;
        }
        r
    }

    fn change_price(&mut self, ctx: &ChainContext, auction_id: u64, new_price: u128) -> (r: Result<Vec<Action>, MarketError>) {
        let saved = self.duplicate();
        let r = self.attempt_single_change_price(ctx, auction_id, new_price);
        if r.is_err() {
            *self = saved;
        }
        r
    }
}

impl Marketplace {
    /// The steps of `listing`; a failure may leave the storage part-way.
    fn attempt_single_listing(
        &mut self,
        ctx: &ChainContext,
        payment: EsdtPayment,
        min_bid: u128,
        max_bid: u128,
        deadline: u64,
        accepted_payment_token: PaymentToken,
        bid: bool,
        opt_sft_max_one_per_payment: Option<bool>,
        opt_start_time: Option<u64>,
    ) -> (r: Result<(Vec<Action>, u64), MarketError>)
        requires
            old(self).inv(),
        ensures
            final(self).inv(),
            id_matches(
                spec_esdt_listing(
                    old(self).store(),
                    *ctx,
                    payment,
                    min_bid,
                    max_bid,
                    deadline,
                    accepted_payment_token,
                    bid,
                    opt_sft_max_one_per_payment,
                    opt_start_time,
                ),
                r,
                final(self).store(),
            ),
    {
        self.require_enabled()?;
        if !self.accepted_tokens.contains(&accepted_payment_token) {
            return Err(MarketError::PaymentTokenNotWhitelisted);
        }
        let nft_type = payment.token;
        let nft_nonce = payment.nonce;
        let nft_amount = payment.amount;
        if nft_amount < NFT_AMOUNT as u128 {
            return Err(MarketError::MustTransferAtLeastOne);
        }
        let current_time = ctx.timestamp;
        let start_time = match opt_start_time {
            Some(t) => t,
            None => current_time,
        };
        let sft_max_one_per_payment = match opt_sft_max_one_per_payment {
            Some(b) => b,
            None => false,
        };
        if sft_max_one_per_payment || !bid {
            if min_bid != max_bid {
                return Err(MarketError::PriceMustBeFixed);
            }
        }
        let opt_max_bid = if max_bid > 0 {
            if min_bid > max_bid {
                return Err(MarketError::MinBidAboveMaxBid);
            }
            Some(max_bid)
        } else {
            None
        };
        if min_bid == 0 {
            return Err(MarketError::ZeroMinBid);
        }
        if nft_nonce == 0 {
            return Err(MarketError::FungibleNotAuctionable);
        }
        if !(deadline > current_time || deadline == 0) {
            return Err(MarketError::DeadlineInPast);
        }
        if deadline != 0 {
            if !(start_time >= current_time && start_time < deadline) {
                return Err(MarketError::InvalidStartTime);
            }
        }
        let marketplace_cut_percentage = self.bid_cut_percentage;
        let info = self.get_nft_info(ctx, nft_type, nft_nonce)?;
        let creator_royalties_percentage = info.royalties;
        if marketplace_cut_percentage >= PERCENTAGE_TOTAL as u128 || creator_royalties_percentage
            >= PERCENTAGE_TOTAL as u128 - marketplace_cut_percentage {
            return Err(MarketError::CutPlusRoyaltiesExceed100);
        }
        if self.last_valid_auction_id == u64::MAX {
            return Err(MarketError::Overflow);
        }
        let auction_id = self.last_valid_auction_id + 1;
        let auction_type = if nft_amount > NFT_AMOUNT as u128 {
            if sft_max_one_per_payment {
                AuctionType::SftOnePerPayment
            } else {
                AuctionType::SftAll
            }
        } else {
            if bid {
                AuctionType::NftBid
            } else {
                AuctionType::Nft
            }
        };
        if deadline == 0 {
            if !(auction_type == AuctionType::Nft || auction_type == AuctionType::SftOnePerPayment
                || (auction_type == AuctionType::SftAll && min_bid == max_bid)) {
                return Err(MarketError::DeadlineMandatory);
            }
        }
        let key = (nft_type, nft_nonce);
        let quantity = match self.token_items_quantity_for_sale.get(&key).checked_add(nft_amount) {
            Some(q) => q,
            None => {
                return Err(MarketError::Overflow);
            },
        };
        self.last_valid_auction_id = auction_id;
        let auction = Auction {
            auctioned_token_type: nft_type,
            auctioned_token_nonce: nft_nonce,
            nr_auctioned_tokens: nft_amount,
            auction_type,
            payment_token_type: accepted_payment_token,
            payment_token_nonce: 0,
            min_bid,
            max_bid: opt_max_bid,
            start_time,
            deadline,
            original_owner: ctx.caller,
            current_bid: 0,
            current_winner: ZERO_ADDRESS,
            marketplace_cut_percentage,
            creator_royalties_percentage,
        };
        self.auction_by_id.insert(auction_id, auction);
        self.listings.insert(auction_id);
        self.listings_by_wallet.insert(ctx.caller, auction_id);
        self.token_items_for_sale.insert(nft_type, nft_nonce);
        self.token_auction_ids.insert(key, auction_id);
        self.token_items_quantity_for_sale.set(key, quantity);
        self.collections_listed.insert(nft_type);
        let ev = self.emit_auction_token_event(auction_id, &auction);
        let mut acts: Vec<Action> = Vec::new();
        acts.push(Action::Event(ev));
        assert(acts@ =~= seq![Action::Event(ev)]);
        Ok((acts, auction_id))
    }

    /// The steps of `bid`; a failure may leave the storage part-way.
    fn attempt_single_bid(&mut self, ctx: &ChainContext, auction_id: u64, nft_type: TokenId, nft_nonce: u64, payment: Payment) -> (r: Result<
        Vec<Action>,
        MarketError,
    >)
        requires
            old(self).inv(),
        ensures
            final(self).inv(),
            endpoint_matches(spec_esdt_bid(old(self).store(), *ctx, auction_id, nft_type, nft_nonce, payment), r, final(self).store()),
    {
        self.require_enabled()?;
        let auction = self.try_get_auction(auction_id)?;
        let wegld = self.wrapping_token;
        self.common_bid_checks(
            ctx,
            &auction,
            auction_id,
            nft_type,
            nft_nonce,
            payment.token,
            payment.nonce,
            payment.amount,
            wegld,
            false,
        )?;
        if !(auction.auction_type == AuctionType::SftAll || auction.auction_type == AuctionType::NftBid) {
            return Err(MarketError::CannotBidAuctionType);
        }
        let max_bid_reached = match auction.max_bid {
            Some(m) => {
                if payment.amount > m {
                    return Err(MarketError::BidAboveMax);
                }
                payment.amount == m
            },
            None => false,
        };
        let mut acts: Vec<Action> = Vec::new();
        let ghost s0 = self.store();
        if auction.current_winner != ZERO_ADDRESS {
            self.transfer_or_save_payment(
                ctx,
                auction.current_winner,
                auction.payment_token_type,
                auction.payment_token_nonce,
                auction.current_bid,
                &mut acts,
            )?;
            self.listings_bids.remove(&auction.current_winner, &auction_id);
            let ev = self.emit_out_bid_event(auction_id, &auction, ctx.caller, payment.amount);
            acts.push(Action::Event(ev));
        }
        proof {
            assert(acts@ =~= spec_refund_previous_bid(s0, *ctx, auction_id, auction, payment.amount)->Ok_0.1);
        }
        let ghost t1 = acts@;
        let ghost s2 = self.store();
        let new_auction = Auction { current_bid: payment.amount, current_winner: ctx.caller, ..auction };
        self.auction_by_id.insert(auction_id, new_auction);
        self.listings_bids.insert(ctx.caller, auction_id);
        assert(self.store() =~= Store {
            auction_by_id: s2.auction_by_id.insert(auction_id, new_auction),
            listings_bids: with_set(s2.listings_bids, ctx.caller, seq_with(set_at(s2.listings_bids, ctx.caller), auction_id)),
            ..s2
        });
        if max_bid_reached {
            let ghost s3 = self.store();
            let r = self.end_auction_common(ctx, auction_id, &new_auction, &mut acts);
            proof {
                match spec_end_auction_common(s3, *ctx, auction_id, new_auction) {
                    Ok((_, t)) => {
                        assert(acts@ == t1 + t);
                    },
                    Err(_) => {},
                }
            }
            match r {
                Ok(()) => Ok(acts),
                Err(e) => Err(e),
            }
        } else {
            let ev = self.emit_bid_event(auction_id, &new_auction);
            acts.push(Action::Event(ev));
            assert(acts@ =~= t1 + seq![Action::Event(Event::Bid { auction_id, auction: new_auction })]);
            Ok(acts)
        }
    }

    /// The steps of `end_auction`; a failure may leave the storage part-way.
    fn attempt_single_end_auction(&mut self, ctx: &ChainContext, auction_id: u64) -> (r: Result<Vec<Action>, MarketError>)
        requires
            old(self).inv(),
        ensures
            final(self).inv(),
            endpoint_matches(spec_esdt_end_auction(old(self).store(), *ctx, auction_id), r, final(self).store()),
    {
        self.require_enabled()?;
        let auction = self.try_get_auction(auction_id)?;
        if !(auction.auction_type == AuctionType::SftAll || auction.auction_type == AuctionType::NftBid) {
            return Err(MarketError::CannotEndAuctionType);
        }
        let deadline_reached = ctx.timestamp > auction.deadline;
        let max_bid_reached = match auction.max_bid {
            Some(m) => auction.current_bid == m,
            None => false,
        };
        let fixed_all = match auction.max_bid {
            Some(m) => auction.min_bid == m,
            None => false,
        };
        if auction.deadline == 0 && auction.auction_type == AuctionType::SftAll && fixed_all {
            if ctx.caller != auction.original_owner {
                return Err(MarketError::NotAuctionOwner);
            }
        }
        if !(deadline_reached || max_bid_reached) {
            return Err(MarketError::AuctionStillRunning);
        }
        let mut acts: Vec<Action> = Vec::new();
        let r = self.end_auction_common(ctx, auction_id, &auction, &mut acts);
        proof {
            match spec_end_auction_common(old(self).store(), *ctx, auction_id, auction) {
                Ok((_, t)) => {
                    assert(acts@ =~= t);
                },
                Err(_) => {},
            }
        }
        match r {
            Ok(()) => Ok(acts),
            Err(e) => Err(e),
        }
    }

    /// The steps of `buy`; a failure may leave the storage part-way.
    fn attempt_single_buy(
        &mut self,
        ctx: &ChainContext,
        auction_id: u64,
        nft_type: TokenId,
        nft_nonce: u64,
        opt_sft_buy_amount: Option<u128>,
        payment: Payment,
    ) -> (r: Result<Vec<Action>, MarketError>)
        requires
            old(self).inv(),
        ensures
            final(self).inv(),
            endpoint_matches(
                spec_esdt_common_buy(old(self).store(), *ctx, auction_id, nft_type, nft_nonce, opt_sft_buy_amount, None, None, payment),
                r,
                final(self).store(),
            ),
    {
        EsdtNftMarketplace::common_buy(self, ctx, auction_id, nft_type, nft_nonce, opt_sft_buy_amount, None, None, payment)
    }

    /// The steps of `buy_for`; a failure may leave the storage part-way.
    fn attempt_single_buy_for(
        &mut self,
        ctx: &ChainContext,
        auction_id: u64,
        nft_type: TokenId,
        nft_nonce: u64,
        opt_sft_buy_amount: Option<u128>,
        buy_for: Option<Address>,
        message: Option<BufferId>,
        payment: Payment,
    ) -> (r: Result<Vec<Action>, MarketError>)
        requires
            old(self).inv(),
        ensures
            final(self).inv(),
            endpoint_matches(
                spec_esdt_common_buy(old(self).store(), *ctx, auction_id, nft_type, nft_nonce, opt_sft_buy_amount, buy_for, message, payment),
                r,
                final(self).store(),
            ),
    {
        EsdtNftMarketplace::common_buy(self, ctx, auction_id, nft_type, nft_nonce, opt_sft_buy_amount, buy_for, message, payment)
    }

    /// The steps of `common_buy`; a failure may leave the storage part-way.
    fn attempt_single_common_buy(
        &mut self,
        ctx: &ChainContext,
        auction_id: u64,
        nft_type: TokenId,
        nft_nonce: u64,
        opt_sft_buy_amount: Option<u128>,
        buy_for: Option<Address>,
        message: Option<BufferId>,
        payment: Payment,
    ) -> (r: Result<Vec<Action>, MarketError>)
        requires
            old(self).inv(),
        ensures
            final(self).inv(),
            endpoint_matches(
                spec_esdt_common_buy(old(self).store(), *ctx, auction_id, nft_type, nft_nonce, opt_sft_buy_amount, buy_for, message, payment),
                r,
                final(self).store(),
            ),
    {
        self.require_enabled()?;
        let auction = self.try_get_auction(auction_id)?;
        let caller = ctx.caller;
        let buy_amount = match opt_sft_buy_amount {
            Some(a) => a,
            None => NFT_AMOUNT as u128,
        };
        let buyer = match buy_for {
            Some(b) => b,
            None => caller,
        };
        let wegld = self.wrapping_token;
        self.common_bid_checks(
            ctx,
            &auction,
            auction_id,
            nft_type,
            nft_nonce,
            payment.token,
            auction.payment_token_nonce,
            payment.amount,
            wegld,
            false,
        )?;
        if buy_amount == 0 {
            return Err(MarketError::ZeroBuyAmount);
        }
        if !(auction.auction_type == AuctionType::SftOnePerPayment || auction.auction_type == AuctionType::Nft) {
            return Err(MarketError::CannotBuyAuctionType);
        }
        if buy_amount > auction.nr_auctioned_tokens {
            return Err(MarketError::NotEnoughQuantity);
        }
        let paid_exactly = match buy_amount.checked_mul(auction.min_bid) {
            Some(t) => t == payment.amount,
            None => false,
        };
        if !paid_exactly {
            return Err(MarketError::WrongAmountPaid);
        }
        let sold = Auction { current_winner: buyer, current_bid: payment.amount, payment_token_nonce: payment.nonce, ..auction };
        let mut acts: Vec<Action> = Vec::new();
        self.distribute_tokens(ctx, &sold, Some(buy_amount), false, &mut acts)?;
        let ghost t1 = acts@;
        let left = Auction {
            nr_auctioned_tokens: auction.nr_auctioned_tokens - buy_amount,
            payment_token_nonce: auction.payment_token_nonce,
            ..sold
        };
        if left.nr_auctioned_tokens == 0 {
            self.remove_auction_common(auction_id, &left);
        } else {
            self.auction_by_id.insert(auction_id, left);
        }
        self.update_or_remove_items_quantity(&left, buy_amount)?;
        let buy_by = match buy_for {
            Some(_) => Some(caller),
            None => None,
        };
        let ev = self.emit_buy_event(auction_id, &left, buy_amount, ctx.timestamp, message, buy_by, payment);
        acts.push(Action::Event(ev));
        proof {
            assert(t1 =~= seq![] + t1);
        }
        Ok(acts)
    }

    /// The steps of `bulk_buy`; a failure may leave the storage part-way.
    fn attempt_single_bulk_buy(&mut self, ctx: &ChainContext, payment: Payment, auction_ids: &Vec<u64>) -> (r: Result<Vec<Action>, MarketError>)
        requires
            old(self).inv(),
        ensures
            final(self).inv(),
            endpoint_matches(spec_esdt_bulk_buy(old(self).store(), *ctx, payment, auction_ids@), r, final(self).store()),
    {
        let mut available = payment.amount;
        let mut i: usize = 0;
        while i < auction_ids.len()
            invariant
                self.inv(),
                i <= auction_ids@.len(),
                esdt_bulk_left_from(self.store(), auction_ids@, i as int, available)
                    == esdt_bulk_left_from(self.store(), auction_ids@, 0, payment.amount),
            decreases auction_ids@.len() - i,
        {
            match self.auction_by_id.get(&auction_ids[i]) {
                Some(l) => {
                    let listing = *l;
                    if listing.auction_type != AuctionType::Nft {
                        return Err(MarketError::BulkBuyOnlyFixedPriceNfts);
                    }
                    if available < listing.min_bid {
                        return Err(MarketError::NotEnoughFunds);
                    }
                    available = available - listing.min_bid;
                },
                None => {},
            }
            i += 1;
        }
        let mut acts: Vec<Action> = Vec::new();
        if available > 0 {
            acts.push(Action::Transfer { to: ctx.caller, token: payment.token, nonce: payment.nonce, amount: available });
            assert(acts@ =~= seq![transfer(ctx.caller, payment.token, payment.nonce, available)]);
        }
        Ok(acts)
    }

    /// The steps of `withdraw`; a failure may leave the storage part-way.
    fn attempt_single_withdraw(&mut self, ctx: &ChainContext, auction_id: u64) -> (r: Result<Vec<Action>, MarketError>)
        requires
            old(self).inv(),
        ensures
            final(self).inv(),
            endpoint_matches(spec_esdt_withdraw(old(self).store(), *ctx, auction_id), r, final(self).store()),
    {
        self.require_enabled()?;
        let auction = self.try_get_auction(auction_id)?;
        if auction.original_owner != ctx.caller {
            return Err(MarketError::NotOriginalOwner);
        }
        let mut acts: Vec<Action> = Vec::new();
        let r = self.withdraw_auction_common(ctx, auction_id, &auction, &mut acts);
        proof {
            match spec_withdraw_auction_common(old(self).store(), *ctx, auction_id, auction) {
                Ok((_, t)) => {
                    assert(acts@ =~= t);
                },
                Err(_) => {},
            }
        }
        match r {
            Ok(()) => Ok(acts),
            Err(e) => Err(e),
        }
    }

    /// The steps of `change_price`; a failure may leave the storage part-way.
    fn attempt_single_change_price(&mut self, ctx: &ChainContext, auction_id: u64, new_price: u128) -> (r: Result<Vec<Action>, MarketError>)
        requires
            old(self).inv(),
        ensures
            final(self).inv(),
            endpoint_matches(spec_esdt_change_price(old(self).store(), *ctx, auction_id, new_price), r, final(self).store()),
    {
        self.require_enabled()?;
        let auction = self.try_get_auction(auction_id)?;
        if auction.original_owner != ctx.caller {
            return Err(MarketError::NotListingOwner);
        }
        if !(auction.auction_type == AuctionType::Nft || auction.auction_type == AuctionType::SftOnePerPayment) {
            return Err(MarketError::CannotChangeBidPrice);
        }
        let mut acts: Vec<Action> = Vec::new();
        acts.push(Action::Event(Event::ChangePrice { auction_id, auction, new_price, timestamp: ctx.timestamp }));
        let changed = Auction { max_bid: Some(new_price), min_bid: new_price, ..auction };
        self.auction_by_id.insert(auction_id, changed);
        assert(acts@ =~= seq![Action::Event(Event::ChangePrice { auction_id, auction, new_price, timestamp: ctx.timestamp })]);
        Ok(acts)
    }
}

} // verus!
