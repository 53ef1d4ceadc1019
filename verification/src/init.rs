//! The marketplace contract: deployment, listings, bids, purchases and
//! withdrawals.
use vstd::prelude::*;

use crate::auction::{
    Address, AggregatorStep, Auction, AuctionType, BufferId, BulkListing, BulkUpdateListing,
    EsdtPayment, Payment, PaymentToken, TokenAmount, TokenId, MAX_COLLECTION_ROYALTIES,
    NFT_AMOUNT, PERCENTAGE_TOTAL, ZERO_ADDRESS,
};
use crate::collections::{
    amount_at, seq_with, seq_without, set_at, with_amount, with_set, AmountMap, KeyMap,
    OrderedSet, SetFamily,
};
use crate::common::{
    esdt_transfers, spec_common_buy, spec_distribute_tokens_bulk_buy, spec_remove_auction_common,
    spec_share_marketplace_fees, spec_update_or_remove_items_quantity, Settlement,
    endpoint_matches, is_bid_type, is_open_ended_fixed_sft_all, lemma_prefixed_assoc,
    lemma_prefixed_empty, prefixed, spec_common_bid_checks, spec_end_auction_common,
    spec_require_egld_conversion, spec_withdraw_auction_common,
    step_matches, CommonModule, conversion_actions,
};
use crate::errors::MarketError;
use crate::events::{transfer, Action, Event, EventsModule};
use crate::helpers::{spec_amount_split, spec_collection_config, spec_nft_info, spec_transfer_or_save, HelpersModule, Step};
use crate::storage::{ChainContext, Marketplace, StorageModule, Store};
use crate::wrapping::WrappingModule;

verus! {

/// The storage of a freshly deployed marketplace.
pub open spec fn initial_store(
    bid_cut_percentage: u64,
    signer: Address,
    wrapping_sc: Address,
    wrapping_token: TokenId,
    aggregator: Address,
) -> Store {
    Store {
        signer,
        wrapping: wrapping_sc,
        wrapping_token,
        aggregator_sc: aggregator,
        accumulator: ZERO_ADDRESS,
        bid_cut_percentage: bid_cut_percentage as u128,
        status: false,
        offers_by_wallet: Map::empty(),
        check_offer_sent: Seq::empty(),
        listings_by_wallet: Map::empty(),
        listings_bids: Map::empty(),
        token_items_for_sale: Map::empty(),
        token_auction_ids: Map::empty(),
        token_offers_ids: Map::empty(),
        token_items_quantity_for_sale: Map::empty(),
        accepted_tokens: Seq::empty(),
        blacklist_wallets: Seq::empty(),
        whitelisted_contracts: Seq::empty(),
        claimable_amount: Map::empty(),
        claimable_tokens: Map::empty(),
        claimable_token_nonces: Map::empty(),
        collections_listed: Seq::empty(),
        listings: Seq::empty(),
        offers: Seq::empty(),
        auction_by_id: Map::empty(),
        offer_by_id: Map::empty(),
        last_valid_auction_id: 0,
        reward_balance: 0,
        reward_ticker: None,
        special_reward_amount: Map::empty(),
        reward_amount: 0,
        last_valid_offer_id: 0,
        last_valid_global_offer_id: 0,
        global_offer_ids: Seq::empty(),
        global_offer: Map::empty(),
        collection_global_offers: Map::empty(),
        user_global_offers: Map::empty(),
        user_collection_global_offers: Map::empty(),
        collection_config: Map::empty(),
        freezed_auctions: Seq::empty(),
        user_funds: Map::empty(),
    }
}

/// The royalties a new listing records: those of the token, or, for a
/// collection with custom royalties, the ones asked for kept within the
/// collection's bounds; when they and the marketplace cut reach 100%, 50%.
pub open spec fn listing_royalties(s: Store, token_royalties: u128, listing: BulkListing, nft_type: TokenId) -> u128 {
    let r0 = if s.collection_config.contains_key(nft_type) && s.collection_config[nft_type].custom_royalties {
        let c = s.collection_config[nft_type];
        if listing.royalties > c.max_royalties {
            c.max_royalties
        } else if listing.royalties < c.min_royalties {
            c.min_royalties
        } else {
            listing.royalties
        }
    } else {
        token_royalties
    };
    if s.bid_cut_percentage + r0 >= PERCENTAGE_TOTAL {
        MAX_COLLECTION_ROYALTIES as u128
    } else {
        r0
    }
}

/// The kind of a new listing.
pub open spec fn listing_type(nft_amount: u128, sft_max_one_per_payment: bool, bid: bool) -> AuctionType {
    if nft_amount > NFT_AMOUNT {
        if sft_max_one_per_payment {
            AuctionType::SftOnePerPayment
        } else {
            AuctionType::SftAll
        }
    } else if bid {
        AuctionType::NftBid
    } else {
        AuctionType::Nft
    }
}

/// The checks on one listing request, in order.
pub open spec fn listing_checks(s: Store, ctx: ChainContext, payment: EsdtPayment, listing: BulkListing) -> Result<(), MarketError> {
    let now = ctx.timestamp;
    let start_time = if listing.opt_start_time == 0 { now } else { listing.opt_start_time };
    if !s.accepted_tokens.contains(listing.accepted_payment_token) {
        Err(MarketError::PaymentTokenNotWhitelisted)
    } else if payment.amount < NFT_AMOUNT {
        Err(MarketError::MustTransferAtLeastOne)
    } else if !(payment.nonce == listing.nonce && PaymentToken::Esdt(payment.token) == listing.collection
        && payment.amount == listing.nft_amount) {
        Err(MarketError::PaymentNotMatchingListing)
    } else if (listing.opt_sft_max_one_per_payment || !listing.bid) && listing.min_bid != listing.max_bid {
        Err(MarketError::PriceMustBeFixed)
    } else if listing.max_bid > 0 && listing.min_bid > listing.max_bid {
        Err(MarketError::MinBidAboveMaxBid)
    } else if listing.min_bid == 0 {
        Err(MarketError::ZeroMinBid)
    } else if payment.nonce == 0 {
        Err(MarketError::FungibleNotAuctionable)
    } else if !(listing.deadline > now || listing.deadline == 0) {
        Err(MarketError::DeadlineInPast)
    } else if listing.deadline != 0 && !(start_time >= now && start_time < listing.deadline) {
        Err(MarketError::InvalidStartTime)
    } else {
        Ok(())
    }
}

/// One listing request of `listing`: after its checks, a new listing is stored
/// under the next id and indexed by owner, token and collection, and logged.
pub open spec fn spec_listing_one(s: Store, ctx: ChainContext, payment: EsdtPayment, listing: BulkListing) -> Step {
    let now = ctx.timestamp;
    let caller = ctx.caller;
    let nft_type = payment.token;
    let nft_nonce = payment.nonce;
    let start_time = if listing.opt_start_time == 0 { now } else { listing.opt_start_time };
    match listing_checks(s, ctx, payment, listing) {
        Err(e) => Err(e),
        Ok(_) => match spec_nft_info(ctx, nft_type, nft_nonce) {
            Err(e) => Err(e),
            Ok(info) => if s.last_valid_auction_id == u64::MAX {
                Err(MarketError::Overflow)
            } else {
                let auction_id = (s.last_valid_auction_id + 1) as u64;
                let auction_type = listing_type(payment.amount, listing.opt_sft_max_one_per_payment, listing.bid);
                let key = (nft_type, nft_nonce);
                let quantity = amount_at(s.token_items_quantity_for_sale, key) + payment.amount;
                if listing.deadline == 0 && !(auction_type == AuctionType::Nft || auction_type
                    == AuctionType::SftOnePerPayment || (auction_type == AuctionType::SftAll
                    && listing.min_bid == listing.max_bid)) {
                    Err(MarketError::DeadlineMandatory)
                } else if quantity > u128::MAX {
                    Err(MarketError::Overflow)
                } else {
                    let auction = Auction {
                        auctioned_token_type: nft_type,
                        auctioned_token_nonce: nft_nonce,
                        nr_auctioned_tokens: payment.amount,
                        auction_type,
                        payment_token_type: listing.accepted_payment_token,
                        payment_token_nonce: 0,
                        min_bid: listing.min_bid,
                        max_bid: if listing.max_bid > 0 { Some(listing.max_bid) } else { None },
                        start_time,
                        deadline: listing.deadline,
                        original_owner: caller,
                        current_bid: 0,
                        current_winner: ZERO_ADDRESS,
                        marketplace_cut_percentage: s.bid_cut_percentage,
                        creator_royalties_percentage: listing_royalties(s, info.royalties, listing, nft_type),
                    };
                    Ok((
                        Store {
                            last_valid_auction_id: auction_id,
                            auction_by_id: s.auction_by_id.insert(auction_id, auction),
                            listings: seq_with(s.listings, auction_id),
                            listings_by_wallet: with_set(
                                s.listings_by_wallet,
                                caller,
                                seq_with(set_at(s.listings_by_wallet, caller), auction_id),
                            ),
                            token_items_for_sale: with_set(
                                s.token_items_for_sale,
                                nft_type,
                                seq_with(set_at(s.token_items_for_sale, nft_type), nft_nonce),
                            ),
                            token_auction_ids: with_set(
                                s.token_auction_ids,
                                key,
                                seq_with(set_at(s.token_auction_ids, key), auction_id),
                            ),
                            token_items_quantity_for_sale: with_amount(
                                s.token_items_quantity_for_sale,
                                key,
                                quantity as u128,
                            ),
                            collections_listed: seq_with(s.collections_listed, nft_type),
                            ..s
                        },
                        seq![Action::Event(Event::AuctionToken { auction_id, auction })],
                    ))
                }
            },
        },
    }
}

/// The listing requests from the `i`-th on, each with its payment.
pub open spec fn spec_listing_from(
    s: Store,
    ctx: ChainContext,
    payments: Seq<EsdtPayment>,
    listings: Seq<BulkListing>,
    i: int,
) -> Step
    decreases listings.len() - i,
{
    if i >= listings.len() || i < 0 {
        Ok((s, seq![]))
    } else {
        match spec_listing_one(s, ctx, payments[i], listings[i]) {
            Ok((s1, a)) => prefixed(a, spec_listing_from(s1, ctx, payments, listings, i + 1)),
            Err(e) => Err(e),
        }
    }
}

/// `listing`: lists each transferred token as its request says.
pub open spec fn spec_listing(
    s: Store,
    ctx: ChainContext,
    payments: Seq<EsdtPayment>,
    listings: Seq<BulkListing>,
) -> Step {
    if !s.status {
        Err(MarketError::Disabled)
    } else if listings.len() != payments.len() {
        Err(MarketError::InvalidBody)
    } else {
        spec_listing_from(s, ctx, payments, listings, 0)
    }
}

/// Whether a bid reaches the maximum of the listing.
pub open spec fn reaches_max_bid(auction: Auction, amount: u128) -> bool {
    match auction.max_bid {
        Some(m) => amount == m,
        None => false,
    }
}

/// Refunds the previous best bidder of a listing, if any.
pub open spec fn spec_refund_previous_bid(
    s: Store,
    ctx: ChainContext,
    auction_id: u64,
    auction: Auction,
    amount: u128,
) -> Step {
    let winner = auction.current_winner;
    if winner != ZERO_ADDRESS {
        match spec_transfer_or_save(
            s,
            ctx,
            winner,
            auction.payment_token_type,
            auction.payment_token_nonce,
            auction.current_bid,
        ) {
            Ok((s1, t)) => Ok(
                (
                    Store {
                        listings_bids: with_set(
                            s1.listings_bids,
                            winner,
                            seq_without(set_at(s1.listings_bids, winner), auction_id),
                        ),
                        ..s1
                    },
                    t + seq![
                        Action::Event(
                            Event::OutBid { auction_id, auction, bidder: ctx.caller, new_amount: amount },
                        ),
                    ],
                ),
            ),
            Err(e) => Err(e),
        }
    } else {
        Ok((s, seq![]))
    }
}

/// `bid`: the caller bids `payment` on a bid-type listing; the previous best
/// bid is refunded, and a bid at the maximum ends the listing.
pub open spec fn spec_bid(
    s: Store,
    ctx: ChainContext,
    auction_id: u64,
    nft_type: TokenId,
    nft_nonce: u64,
    payment: Payment,
) -> Step {
    if !s.status {
        Err(MarketError::Disabled)
    } else if s.freezed_auctions.contains(auction_id) {
        Err(MarketError::AuctionFrozen)
    } else if !s.auction_by_id.contains_key(auction_id) {
        Err(MarketError::AuctionNotFound)
    } else {
        let auction = s.auction_by_id[auction_id];
        let wegld = s.wrapping_token;
        match spec_common_bid_checks(
            s,
            ctx,
            auction,
            auction_id,
            nft_type,
            nft_nonce,
            payment.token,
            payment.nonce,
            payment.amount,
            wegld,
            false,
        ) {
            Err(e) => Err(e),
            Ok(_) => if !is_bid_type(auction.auction_type) {
                Err(MarketError::CannotBidAuctionType)
            } else if auction.max_bid is Some && payment.amount > auction.max_bid->0 {
                Err(MarketError::BidAboveMax)
            } else {
                match spec_refund_previous_bid(s, ctx, auction_id, auction, payment.amount) {
                    Err(e) => Err(e),
                    Ok((s2, t1)) => {
                        let wrapping = spec_require_egld_conversion(auction, payment.token, wegld);
                        let conv = conversion_actions(wrapping, auction.payment_token_type, payment.amount as int);
                        let new_auction = Auction {
                            current_bid: payment.amount,
                            current_winner: ctx.caller,
                            ..auction
                        };
                        let s3 = Store {
                            auction_by_id: s2.auction_by_id.insert(auction_id, new_auction),
                            listings_bids: with_set(
                                s2.listings_bids,
                                ctx.caller,
                                seq_with(set_at(s2.listings_bids, ctx.caller), auction_id),
                            ),
                            ..s2
                        };
                        prefixed(
                            t1 + conv,
                            if reaches_max_bid(auction, payment.amount) {
                                spec_end_auction_common(s3, ctx, auction_id, new_auction)
                            } else {
                                Ok((s3, seq![Action::Event(Event::Bid { auction_id, auction: new_auction })]))
                            },
                        )
                    },
                }
            },
        }
    }
}

/// `endAuction`: ends a bid-type listing whose deadline passed, whose maximum
/// was bid, or that nobody bid on (then only its owner may end it).
pub open spec fn spec_end_auction(s: Store, ctx: ChainContext, auction_id: u64) -> Step {
    if !s.status {
        Err(MarketError::Disabled)
    } else if !s.auction_by_id.contains_key(auction_id) {
        Err(MarketError::AuctionNotFound)
    } else {
        let auction = s.auction_by_id[auction_id];
        if s.freezed_auctions.contains(auction_id) {
            Err(MarketError::AuctionFrozen)
        } else if !is_bid_type(auction.auction_type) {
            Err(MarketError::CannotEndAuctionType)
        } else if is_open_ended_fixed_sft_all(auction) && ctx.caller != auction.original_owner {
            Err(MarketError::NotAuctionOwner)
        } else if !(ctx.timestamp > auction.deadline || reaches_max_bid(auction, auction.current_bid)
            || auction.current_winner == ZERO_ADDRESS) {
            Err(MarketError::AuctionStillRunning)
        } else if auction.current_winner == ZERO_ADDRESS && ctx.caller != auction.original_owner {
            Err(MarketError::NotAuctionOwner)
        } else {
            spec_end_auction_common(s, ctx, auction_id, auction)
        }
    }
}

/// Withdraws one listing of the caller; a listing that is gone is skipped.
pub open spec fn spec_withdraw_one(s: Store, ctx: ChainContext, auction_id: u64) -> Step {
    if !s.auction_by_id.contains_key(auction_id) {
        Ok((s, seq![]))
    } else if s.freezed_auctions.contains(auction_id) {
        Err(MarketError::AuctionFrozen)
    } else if s.auction_by_id[auction_id].original_owner != ctx.caller {
        Err(MarketError::NotOriginalOwner)
    } else {
        spec_withdraw_auction_common(s, ctx, auction_id, s.auction_by_id[auction_id])
    }
}

pub open spec fn spec_withdraw_from(s: Store, ctx: ChainContext, ids: Seq<u64>, i: int) -> Step
    decreases ids.len() - i,
{
    if i >= ids.len() || i < 0 {
        Ok((s, seq![]))
    } else {
        match spec_withdraw_one(s, ctx, ids[i]) {
            Ok((s1, a)) => prefixed(a, spec_withdraw_from(s1, ctx, ids, i + 1)),
            Err(e) => Err(e),
        }
    }
}

/// `withdraw`: the caller withdraws each of the listed ids.
pub open spec fn spec_withdraw(s: Store, ctx: ChainContext, ids: Seq<u64>) -> Step {
    if !s.status {
        Err(MarketError::Disabled)
    } else {
        spec_withdraw_from(s, ctx, ids, 0)
    }
}

/// Changes one fixed-price listing of the caller; a listing that is gone is skipped.
pub open spec fn spec_change_listing_one(s: Store, ctx: ChainContext, update: BulkUpdateListing) -> Step {
    let id = update.auction_id;
    if !s.auction_by_id.contains_key(id) {
        Ok((s, seq![]))
    } else if s.freezed_auctions.contains(id) {
        Err(MarketError::AuctionFrozen)
    } else {
        let a = s.auction_by_id[id];
        if !(a.auction_type == AuctionType::Nft || a.auction_type == AuctionType::SftOnePerPayment) {
            Err(MarketError::CannotUpdateAuctionType)
        } else if a.original_owner != ctx.caller {
            Err(MarketError::NotListingOwner)
        } else {
            let l1 = Auction { payment_token_type: update.payment_token_type, deadline: update.deadline, ..a };
            let l2 = Auction { min_bid: update.new_price, max_bid: Some(update.new_price), ..l1 };
            Ok((
                Store { auction_by_id: s.auction_by_id.insert(id, l2), ..s },
                seq![Action::Event(Event::ChangeListing { auction_id: id, auction: l1, new_price: update.new_price })],
            ))
        }
    }
}

pub open spec fn spec_change_listing_from(s: Store, ctx: ChainContext, updates: Seq<BulkUpdateListing>, i: int) -> Step
    decreases updates.len() - i,
{
    if i >= updates.len() || i < 0 {
        Ok((s, seq![]))
    } else {
        match spec_change_listing_one(s, ctx, updates[i]) {
            Ok((s1, a)) => prefixed(a, spec_change_listing_from(s1, ctx, updates, i + 1)),
            Err(e) => Err(e),
        }
    }
}

/// `changeListing`: the caller changes the price, payment token and deadline
/// of each of their fixed-price listings.
pub open spec fn spec_bulk_change_listing(s: Store, ctx: ChainContext, updates: Seq<BulkUpdateListing>) -> Step {
    if !s.status {
        Err(MarketError::Disabled)
    } else if updates.len() == 0 {
        Err(MarketError::NoUpdates)
    } else {
        spec_change_listing_from(s, ctx, updates, 0)
    }
}

/// The outcome of a bulk purchase: the storage, the actions and the NFTs bought.
pub type BulkStep = Result<(Store, Seq<Action>, Seq<EsdtPayment>), MarketError>;

/// The actions `a` followed by those of `r`.
pub open spec fn bulk_prefixed(a: Seq<Action>, r: BulkStep) -> BulkStep {
    match r {
        Ok((s, b, n)) => Ok((s, a + b, n)),
        Err(e) => Err(e),
    }
}

pub proof fn lemma_bulk_prefixed_empty(r: BulkStep)
    ensures
        bulk_prefixed(seq![], r) == r,
{
    match r {
        Ok((s, b, n)) => {
            assert(Seq::<Action>::empty() + b =~= b);
        },
        Err(_) => {},
    }
}

pub proof fn lemma_bulk_prefixed_assoc(a: Seq<Action>, b: Seq<Action>, r: BulkStep)
    ensures
        bulk_prefixed(a + b, r) == bulk_prefixed(a, bulk_prefixed(b, r)),
{
    match r {
        Ok((s, c, n)) => {
            assert(a + b + c =~= a + (b + c));
        },
        Err(_) => {},
    }
}

/// One listing of a bulk purchase, bought with the funds still `available`
/// (a listing that is gone is skipped): the proceeds are shared as in a sale,
/// except that the NFT and the marketplace fee wait for the end; a reversed
/// marketplace fee goes back into the available funds.
pub open spec fn spec_bulk_buy_one(
    s: Store,
    ctx: ChainContext,
    payment: Payment,
    available: u128,
    fees: u128,
    auction_id: u64,
) -> Result<(Store, Seq<Action>, u128, u128, Option<EsdtPayment>), MarketError> {
    if !s.auction_by_id.contains_key(auction_id) {
        Ok((s, seq![], available, fees, None))
    } else {
        let listing = s.auction_by_id[auction_id];
        let wegld = s.wrapping_token;
        if s.freezed_auctions.contains(auction_id) {
            Err(MarketError::AuctionFrozen)
        } else if listing.auction_type != AuctionType::Nft {
            Err(MarketError::BulkBuyOnlyFixedPriceNfts)
        } else if available < listing.min_bid {
            Err(MarketError::NotEnoughFunds)
        } else {
            match spec_common_bid_checks(
                s,
                ctx,
                listing,
                auction_id,
                listing.auctioned_token_type,
                listing.auctioned_token_nonce,
                payment.token,
                payment.nonce,
                available,
                wegld,
                false,
            ) {
                Err(e) => Err(e),
                Ok(_) => {
                    let wrapping = spec_require_egld_conversion(listing, payment.token, wegld);
                    match spec_nft_info(ctx, listing.auctioned_token_type, listing.auctioned_token_nonce) {
                        Err(e) => Err(e),
                        Ok(info) => {
                            let sold = Auction { current_bid: listing.min_bid, current_winner: ctx.caller, ..listing };
                            match spec_amount_split(
                                s.bid_cut_percentage,
                                sold.current_bid,
                                sold.creator_royalties_percentage,
                                spec_collection_config(s, sold.auctioned_token_type),
                            ) {
                                Err(e) => Err(e),
                                Ok(d) => {
                                    let available1 = if d.reverse_cut_fee { available + d.marketplace } else { available as int };
                                    let fees1 = if d.reverse_cut_fee { fees as int } else { fees + d.marketplace };
                                    if available1 > u128::MAX || fees1 > u128::MAX {
                                        Err(MarketError::Overflow)
                                    } else {
                                        let st = Settlement {
                                            payment_token: sold.payment_token_type,
                                            payment_nonce: sold.payment_token_nonce,
                                            creator: info.creator,
                                            original_owner: sold.original_owner,
                                            new_owner: ctx.caller,
                                            split: d,
                                        };
                                        match spec_distribute_tokens_bulk_buy(s, ctx, st, wrapping) {
                                            Err(e) => Err(e),
                                            Ok((s2, t)) => match spec_update_or_remove_items_quantity(s2, sold, sold.nr_auctioned_tokens) {
                                                Err(e) => Err(e),
                                                Ok(s3) => Ok((
                                                    spec_remove_auction_common(s3, auction_id, sold),
                                                    t.push(Action::Event(Event::Buy {
                                                        auction_id,
                                                        auction: sold,
                                                        nr_bought_tokens: sold.nr_auctioned_tokens,
                                                        timestamp: ctx.timestamp,
                                                        message: None,
                                                        buy_by: None,
                                                        payment,
                                                    })),
                                                    (available1 - sold.min_bid) as u128,
                                                    fees1 as u128,
                                                    Some(EsdtPayment {
                                                        token: sold.auctioned_token_type,
                                                        nonce: sold.auctioned_token_nonce,
                                                        amount: sold.nr_auctioned_tokens,
                                                    }),
                                                )),
                                            },
                                        }
                                    }
                                },
                            }
                        },
                    }
                },
            }
        }
    }
}

/// The end of a bulk purchase: what is left of the funds goes back to the
/// buyer, then the NFTs bought, then the marketplace fees to the owner.
pub open spec fn spec_bulk_buy_finish(
    s: Store,
    ctx: ChainContext,
    payment: Payment,
    available: u128,
    fees: u128,
    bought: Seq<EsdtPayment>,
) -> BulkStep {
    let change = if available > 0 {
        seq![transfer(ctx.caller, payment.token, payment.nonce, available)]
    } else {
        seq![]
    };
    let nfts = change + esdt_transfers(ctx.caller, bought);
    if fees > 0 {
        match spec_share_marketplace_fees(s, ctx, payment.token, fees, payment.nonce) {
            Ok((s1, t)) => Ok((s1, nfts + t, bought)),
            Err(e) => Err(e),
        }
    } else {
        Ok((s, nfts, bought))
    }
}

pub open spec fn spec_bulk_buy_from(
    s: Store,
    ctx: ChainContext,
    payment: Payment,
    ids: Seq<u64>,
    i: int,
    available: u128,
    fees: u128,
    bought: Seq<EsdtPayment>,
) -> BulkStep
    decreases ids.len() - i,
{
    if i >= ids.len() || i < 0 {
        spec_bulk_buy_finish(s, ctx, payment, available, fees, bought)
    } else {
        match spec_bulk_buy_one(s, ctx, payment, available, fees, ids[i]) {
            Err(e) => Err(e),
            Ok((s1, t, available1, fees1, nft)) => bulk_prefixed(
                t,
                spec_bulk_buy_from(
                    s1,
                    ctx,
                    payment,
                    ids,
                    i + 1,
                    available1,
                    fees1,
                    match nft {
                        Some(p) => bought.push(p),
                        None => bought,
                    },
                ),
            ),
        }
    }
}

/// `bulkBuy`: the caller buys each of the fixed-price NFT listings with one
/// payment; the NFTs bought are returned.
pub open spec fn spec_bulk_buy(s: Store, ctx: ChainContext, ids: Seq<u64>, payment: Payment) -> BulkStep {
    spec_bulk_buy_from(s, ctx, payment, ids, 0, payment.amount, 0, seq![])
}

/// The result of a bulk purchase matches `spec`.
pub open spec fn bulk_matches(
    spec: BulkStep,
    r: Result<(Vec<Action>, Vec<EsdtPayment>), MarketError>,
    final_store: Store,
) -> bool {
    match spec {
        Ok((s, a, n)) => r is Ok && r->Ok_0.0@ == a && r->Ok_0.1@ == n && final_store == s,
        Err(e) => r == Err::<(Vec<Action>, Vec<EsdtPayment>), MarketError>(e),
    }
}

/// The marketplace contract.
pub trait XOXNOProtocol: StorageModule + HelpersModule + EventsModule + CommonModule + WrappingModule {
    /// Deploys the marketplace with a cut, a signer, the wrapping contract and
    /// token, and the aggregator.
    fn init(
        bid_cut_percentage: u64,
        signer: Address,
        wrapping_sc: Address,
        wrapping_token: TokenId,
        aggregator: Address,
    ) -> (r: Result<Self, MarketError>) where Self: std::marker::Sized
        ensures
            r is Ok <==> 0 < bid_cut_percentage < PERCENTAGE_TOTAL,
            r is Err ==> r == Err::<Self, MarketError>(MarketError::InvalidPercentage),
            r is Ok ==> r->Ok_0.inv() && r->Ok_0.store() == initial_store(
                bid_cut_percentage,
                signer,
                wrapping_sc,
                wrapping_token,
                aggregator,
            ),
    ;

    /// Sets the accumulator and the aggregator on upgrade.
    fn upgrade(&mut self, sc_accumulator: Address, aggregator: Address)
        requires
            old(self).inv(),
        ensures
            final(self).inv(),
            final(self).store() == (Store {
                accumulator: sc_accumulator,
                aggregator_sc: aggregator,
                ..old(self).store()
            }),
    ;

    /// Lists each transferred token (see `spec_listing`).
    fn listing(
        &mut self,
        ctx: &ChainContext,
        payments: &Vec<EsdtPayment>,
        listings: &Vec<BulkListing>,
    ) -> (r: Result<Vec<Action>, MarketError>)
        requires
            old(self).inv(),
        ensures
            final(self).inv(),
            endpoint_matches(spec_listing(old(self).store(), *ctx, payments@, listings@), r, final(self).store()),
            r is Err ==> final(self).store() == old(self).store(),
    ;
    /// Bids on a listing (see `spec_bid`).
    fn bid(
        &mut self,
        ctx: &ChainContext,
        auction_id: u64,
        nft_type: TokenId,
        nft_nonce: u64,
        payment: Payment,
    ) -> (r: Result<Vec<Action>, MarketError>)
        requires
            old(self).inv(),
        ensures
            final(self).inv(),
            endpoint_matches(spec_bid(old(self).store(), *ctx, auction_id, nft_type, nft_nonce, payment), r, final(self).store()),
            r is Err ==> final(self).store() == old(self).store(),
    ;

    /// Ends a listing (see `spec_end_auction`).
    fn end_auction(&mut self, ctx: &ChainContext, auction_id: u64) -> (r: Result<Vec<Action>, MarketError>)
        requires
            old(self).inv(),
        ensures
            final(self).inv(),
            endpoint_matches(spec_end_auction(old(self).store(), *ctx, auction_id), r, final(self).store()),
            r is Err ==> final(self).store() == old(self).store(),
    ;

    /// Withdraws listings of the caller (see `spec_withdraw`); the signature is not checked.
    fn withdraw(&mut self, ctx: &ChainContext, signature: BufferId, withdraws: &Vec<u64>) -> (r: Result<Vec<Action>, MarketError>)
        requires
            old(self).inv(),
        ensures
            final(self).inv(),
            endpoint_matches(spec_withdraw(old(self).store(), *ctx, withdraws@), r, final(self).store()),
            r is Err ==> final(self).store() == old(self).store(),
    ;

    /// Changes listings of the caller (see `spec_bulk_change_listing`).
    fn bulk_change_listing(&mut self, ctx: &ChainContext, updates: &Vec<BulkUpdateListing>) -> (r: Result<Vec<Action>, MarketError>)
        requires
            old(self).inv(),
        ensures
            final(self).inv(),
            endpoint_matches(spec_bulk_change_listing(old(self).store(), *ctx, updates@), r, final(self).store()),
            r is Err ==> final(self).store() == old(self).store(),
    ;

    /// Buys from a fixed-price listing, paying directly (see `spec_common_buy`).
    fn buy(
        &mut self,
        ctx: &ChainContext,
        auction_id: u64,
        nft_type: TokenId,
        nft_nonce: u64,
        opt_sft_buy_amount: Option<u128>,
        payment: Payment,
    ) -> (r: Result<Vec<Action>, MarketError>)
        requires
            old(self).inv(),
        ensures
            final(self).inv(),
            endpoint_matches(
                spec_common_buy(old(self).store(), *ctx, auction_id, nft_type, nft_nonce, opt_sft_buy_amount, None, None, None, None, payment),
                r,
                final(self).store(),
            ),
            r is Err ==> final(self).store() == old(self).store(),
    ;

    /// Buys from a fixed-price listing through a swap on the aggregator (see `spec_common_buy`).
    fn buy_swap(
        &mut self,
        ctx: &ChainContext,
        auction_id: u64,
        nft_type: TokenId,
        nft_nonce: u64,
        steps: Vec<AggregatorStep>,
        limits: Vec<TokenAmount>,
        opt_sft_buy_amount: Option<u128>,
        payment: Payment,
    ) -> (r: Result<Vec<Action>, MarketError>)
        requires
            old(self).inv(),
        ensures
            final(self).inv(),
            endpoint_matches(
                spec_common_buy(old(self).store(), *ctx, auction_id, nft_type, nft_nonce, opt_sft_buy_amount, None, None, Some(steps@), Some(limits@), payment),
                r,
                final(self).store(),
            ),
            r is Err ==> final(self).store() == old(self).store(),
    ;

    /// Buys from a fixed-price listing for another address, with a message (see `spec_common_buy`).
    fn buy_for(
        &mut self,
        ctx: &ChainContext,
        auction_id: u64,
        nft_type: TokenId,
        nft_nonce: u64,
        opt_sft_buy_amount: Option<u128>,
        buy_for: Option<Address>,
        message: Option<BufferId>,
        payment: Payment,
    ) -> (r: Result<Vec<Action>, MarketError>)
        requires
            old(self).inv(),
        ensures
            final(self).inv(),
            endpoint_matches(
                spec_common_buy(old(self).store(), *ctx, auction_id, nft_type, nft_nonce, opt_sft_buy_amount, buy_for, message, None, None, payment),
                r,
                final(self).store(),
            ),
            r is Err ==> final(self).store() == old(self).store(),
    ;

    /// Buys several fixed-price NFT listings with one payment (see `spec_bulk_buy`).
    fn bulk_buy(&mut self, ctx: &ChainContext, auction_ids: &Vec<u64>, payment: Payment) -> (r: Result<
        (Vec<Action>, Vec<EsdtPayment>),
        MarketError,
    >)
        requires
            old(self).inv(),
        ensures
            final(self).inv(),
            bulk_matches(spec_bulk_buy(old(self).store(), *ctx, auction_ids@, payment), r, final(self).store()),
            r is Err ==> final(self).store() == old(self).store(),
    ;
}

impl Marketplace {
    /// One listing of a bulk purchase (see `spec_bulk_buy_one`).
    fn bulk_buy_one(
        &mut self,
        ctx: &ChainContext,
        payment: Payment,
        available: u128,
        fees: u128,
        auction_id: u64,
        acts: &mut Vec<Action>,
    ) -> (r: Result<(u128, u128, Option<EsdtPayment>), MarketError>)
        requires
            old(self).inv(),
        ensures
            final(self).inv(),
            match spec_bulk_buy_one(old(self).store(), *ctx, payment, available, fees, auction_id) {
                Ok((s, t, a, f, n)) => r == Ok::<(u128, u128, Option<EsdtPayment>), MarketError>((a, f, n))
                    && final(self).store() == s && final(acts)@ == old(acts)@ + t,
                Err(e) => r == Err::<(u128, u128, Option<EsdtPayment>), MarketError>(e),
            },
    {
        let listing = match self.auction_by_id.get(&auction_id) {
            Some(l) => *l,
            None => {
                assert(old(acts)@ + seq![] =~= acts@);
                return Ok((available, fees, None));
            },
        };
        if self.freezed_auctions.contains(&auction_id) {
            return Err(MarketError::AuctionFrozen);
        }
        if listing.auction_type != AuctionType::Nft {
            return Err(MarketError::BulkBuyOnlyFixedPriceNfts);
        }
        if available < listing.min_bid {
            return Err(MarketError::NotEnoughFunds);
        }
        let wegld = self.wrapping_token;
        self.common_bid_checks(
            ctx,
            &listing,
            auction_id,
            listing.auctioned_token_type,
            listing.auctioned_token_nonce,
            payment.token,
            payment.nonce,
            available,
            wegld,
            false,
        )?;
        let wrapping = self.require_egld_conversion(&listing, payment.token, wegld);
        let nft_info = self.get_nft_info(ctx, listing.auctioned_token_type, listing.auctioned_token_nonce)?;
        let sold = Auction { current_bid: listing.min_bid, current_winner: ctx.caller, ..listing };
        let config = self.get_collection_config(sold.auctioned_token_type);
        let d = self.calculate_amount_split(sold.current_bid, sold.creator_royalties_percentage, config)?;
        proof {
            crate::laws::lemma_split_adds_up(
                self.store().bid_cut_percentage,
                sold.current_bid,
                sold.creator_royalties_percentage,
                config,
            );
        }
        let mut available1 = available;
        let mut fees1 = fees;
        if d.reverse_cut_fee {
            available1 = match available.checked_add(d.marketplace) {
                Some(a) => a,
                None => {
                    return Err(MarketError::Overflow);
                },
            };
        } else {
            fees1 = match fees.checked_add(d.marketplace) {
                Some(f) => f,
                None => {
                    return Err(MarketError::Overflow);
                },
            };
        }
        let ghost a0 = acts@;
        self.distribute_tokens_bulk_buy(
            ctx,
            sold.payment_token_type,
            sold.payment_token_nonce,
            nft_info.creator,
            sold.original_owner,
            ctx.caller,
            &d,
            wrapping,
            acts,
        )?;
        self.update_or_remove_items_quantity(&sold, sold.nr_auctioned_tokens)?;
        self.remove_auction_common(auction_id, &sold);
        let ev = self.emit_buy_event(
            auction_id,
            &sold,
            sold.nr_auctioned_tokens,
            ctx.timestamp,
            None,
            None,
            payment,
        );
        acts.push(Action::Event(ev));
        Ok((
            available1 - sold.min_bid,
            fees1,
            Some(EsdtPayment {
                token: sold.auctioned_token_type,
                nonce: sold.auctioned_token_nonce,
                amount: sold.nr_auctioned_tokens,
            }),
        ))
    }

    /// The end of a bulk purchase (see `spec_bulk_buy_finish`).
    fn bulk_buy_finish(
        &mut self,
        ctx: &ChainContext,
        payment: Payment,
        available: u128,
        fees: u128,
        bought: &Vec<EsdtPayment>,
        acts: &mut Vec<Action>,
    ) -> (r: Result<(), MarketError>)
        requires
            old(self).inv(),
        ensures
            final(self).inv(),
            match spec_bulk_buy_finish(old(self).store(), *ctx, payment, available, fees, bought@) {
                Ok((s, t, _)) => r is Ok && final(self).store() == s && final(acts)@ == old(acts)@ + t,
                Err(e) => r == Err::<(), MarketError>(e),
            },
    {
        let ghost a0 = acts@;
        if available > 0 {
            acts.push(Action::Transfer { to: ctx.caller, token: payment.token, nonce: payment.nonce, amount: available });
        }
        self.send_all(ctx.caller, bought, acts);
        let ghost a1 = acts@;
        proof {
            let change = if available > 0 {
                seq![transfer(ctx.caller, payment.token, payment.nonce, available)]
            } else {
                seq![]
            };
            assert(a1 =~= a0 + (change + esdt_transfers(ctx.caller, bought@)));
        }
        if fees > 0 {
            self.share_marketplace_fees(ctx, payment.token, fees, payment.nonce, acts)?;
            proof {
                match spec_share_marketplace_fees(old(self).store(), *ctx, payment.token, fees, payment.nonce) {
                    Ok((_, t)) => {
                        assert(acts@ =~= a0 + ((a1.subrange(a0.len() as int, a1.len() as int)) + t));
                    },
                    Err(_) => {},
                }
            }
        } else {
            assert(acts@ =~= a0 + a1.subrange(a0.len() as int, a1.len() as int));
        }
        Ok(())
    }

    /// One withdrawal (see `spec_withdraw_one`).
    fn withdraw_one(&mut self, ctx: &ChainContext, auction_id: u64, acts: &mut Vec<Action>) -> (r: Result<(), MarketError>)
        requires
            old(self).inv(),
        ensures
            final(self).inv(),
            step_matches(spec_withdraw_one(old(self).store(), *ctx, auction_id), r, final(self).store(), old(acts)@, final(acts)@),
    {
        let listing = match self.auction_by_id.get(&auction_id) {
            Some(l) => *l,
            None => {
                assert(old(acts)@ + seq![] =~= acts@);
                return Ok(());
            },
        };
        if self.freezed_auctions.contains(&auction_id) {
            return Err(MarketError::AuctionFrozen);
        }
        if listing.original_owner != ctx.caller {
            return Err(MarketError::NotOriginalOwner);
        }
        self.withdraw_auction_common(ctx, auction_id, &listing, acts)
    }

    /// One listing change (see `spec_change_listing_one`).
    fn change_listing_one(&mut self, ctx: &ChainContext, update: BulkUpdateListing, acts: &mut Vec<Action>) -> (r: Result<(), MarketError>)
        requires
            old(self).inv(),
        ensures
            final(self).inv(),
            step_matches(spec_change_listing_one(old(self).store(), *ctx, update), r, final(self).store(), old(acts)@, final(acts)@),
    {
        let mut listing = match self.auction_by_id.get(&update.auction_id) {
            Some(l) => *l,
            None => {
                assert(old(acts)@ + seq![] =~= acts@);
                return Ok(());
            },
        };
        if self.freezed_auctions.contains(&update.auction_id) {
            return Err(MarketError::AuctionFrozen);
        }
        if !(listing.auction_type == AuctionType::Nft || listing.auction_type == AuctionType::SftOnePerPayment) {
            return Err(MarketError::CannotUpdateAuctionType);
        }
        if listing.original_owner != ctx.caller {
            return Err(MarketError::NotListingOwner);
        }
        listing.payment_token_type = update.payment_token_type;
        listing.deadline = update.deadline;
        let ev = self.emit_change_listing_event(update.auction_id, &listing, update.new_price);
        let ghost a0 = acts@;
        acts.push(Action::Event(ev));
        assert(acts@ =~= a0 + seq![Action::Event(ev)]);
        listing.min_bid = update.new_price;
        listing.max_bid = Some(update.new_price);
        self.auction_by_id.insert(update.auction_id, listing);
        Ok(())
    }

    /// A marketplace with empty storage.
    pub(crate) fn empty_storage(
        signer: Address,
        wrapping_sc: Address,
        wrapping_token: TokenId,
        aggregator: Address,
    ) -> (r: Marketplace)
        ensures
            r.inv(),
            r.store() == initial_store(1, signer, wrapping_sc, wrapping_token, aggregator),
    {
        Marketplace {
            signer,
            wrapping: wrapping_sc,
            wrapping_token,
            aggregator_sc: aggregator,
            accumulator: ZERO_ADDRESS,
            bid_cut_percentage: 1,
            status: false,
            offers_by_wallet: SetFamily::new(),
            check_offer_sent: OrderedSet::new(),
            listings_by_wallet: SetFamily::new(),
            listings_bids: SetFamily::new(),
            token_items_for_sale: SetFamily::new(),
            token_auction_ids: SetFamily::new(),
            token_offers_ids: SetFamily::new(),
            token_items_quantity_for_sale: AmountMap::new(),
            accepted_tokens: OrderedSet::new(),
            blacklist_wallets: OrderedSet::new(),
            whitelisted_contracts: OrderedSet::new(),
            claimable_amount: AmountMap::new(),
            claimable_tokens: SetFamily::new(),
            claimable_token_nonces: SetFamily::new(),
            collections_listed: OrderedSet::new(),
            listings: OrderedSet::new(),
            offers: OrderedSet::new(),
            auction_by_id: KeyMap::new(),
            offer_by_id: KeyMap::new(),
            last_valid_auction_id: 0,
            reward_balance: 0,
            reward_ticker: None,
            special_reward_amount: AmountMap::new(),
            reward_amount: 0,
            last_valid_offer_id: 0,
            last_valid_global_offer_id: 0,
            global_offer_ids: OrderedSet::new(),
            global_offer: KeyMap::new(),
            collection_global_offers: SetFamily::new(),
            user_global_offers: SetFamily::new(),
            user_collection_global_offers: SetFamily::new(),
            collection_config: KeyMap::new(),
            freezed_auctions: OrderedSet::new(),
            user_funds: AmountMap::new(),
        }
    }

    /// One listing request (see `spec_listing_one`).
    fn listing_one(
        &mut self,
        ctx: &ChainContext,
        payment: EsdtPayment,
        listing: BulkListing,
        acts: &mut Vec<Action>,
    ) -> (r: Result<(), MarketError>)
        requires
            old(self).inv(),
        ensures
            final(self).inv(),
            step_matches(spec_listing_one(old(self).store(), *ctx, payment, listing), r, final(self).store(), old(acts)@, final(acts)@),
    {
        let current_time = ctx.timestamp;
        let caller = ctx.caller;
        let nft_type = payment.token;
        let nft_nonce = payment.nonce;
        let nft_amount = payment.amount;
        if !self.accepted_tokens.contains(&listing.accepted_payment_token) {
            return Err(MarketError::PaymentTokenNotWhitelisted);
        }
        if nft_amount < NFT_AMOUNT as u128 {
            return Err(MarketError::MustTransferAtLeastOne);
        }
        if !(nft_nonce == listing.nonce && PaymentToken::Esdt(nft_type) == listing.collection
            && nft_amount == listing.nft_amount) {
            return Err(MarketError::PaymentNotMatchingListing);
        }
        let start_time = if listing.opt_start_time == 0 {
            current_time
        } else {
            listing.opt_start_time
        };
        let sft_max_one_per_payment = listing.opt_sft_max_one_per_payment;
        if sft_max_one_per_payment || !listing.bid {
            if listing.min_bid != listing.max_bid {
                return Err(MarketError::PriceMustBeFixed);
            }
        }
        if !listing.accepted_payment_token.is_egld() {
            if !listing.accepted_payment_token.is_esdt() {
                return Err(MarketError::InvalidPaymentToken);
            }
        }
        let opt_max_bid = if listing.max_bid > 0 {
            if listing.min_bid > listing.max_bid {
                return Err(MarketError::MinBidAboveMaxBid);
            }
            Some(listing.max_bid)
        } else {
            None
        };
        if listing.min_bid == 0 {
            return Err(MarketError::ZeroMinBid);
        }
        if nft_nonce == 0 {
            return Err(MarketError::FungibleNotAuctionable);
        }
        if !(listing.deadline > current_time || listing.deadline == 0) {
            return Err(MarketError::DeadlineInPast);
        }
        if listing.deadline != 0 {
            if !(start_time >= current_time && start_time < listing.deadline) {
                return Err(MarketError::InvalidStartTime);
            }
        }
        let info = self.get_nft_info(ctx, nft_type, nft_nonce)?;
        let mut creator_royalties_percentage = info.royalties;
        match self.collection_config.get(&nft_type) {
            Some(fee_config) => {
                if fee_config.custom_royalties {
                    creator_royalties_percentage = listing.royalties;
                    if creator_royalties_percentage > fee_config.max_royalties {
                        creator_royalties_percentage = fee_config.max_royalties;
                    } else if creator_royalties_percentage < fee_config.min_royalties {
                        creator_royalties_percentage = fee_config.min_royalties;
                    }
                }
            },
            None => {},
        }
        let marketplace_cut_percentage = self.bid_cut_percentage;
        if marketplace_cut_percentage >= PERCENTAGE_TOTAL as u128 || creator_royalties_percentage
            >= PERCENTAGE_TOTAL as u128 - marketplace_cut_percentage {
            creator_royalties_percentage = MAX_COLLECTION_ROYALTIES as u128;
        }
        if self.last_valid_auction_id == u64::MAX {
            return Err(MarketError::Overflow);
        }
        let auction_id = self.last_valid_auction_id + 1;
        let auction_type = if nft_amount > NFT_AMOUNT as u128 {
            if sft_max_one_per_payment {
                AuctionType::SftOnePerPayment
            } else {
                AuctionType::SftAll
            }
        } else {
            if listing.bid {
                AuctionType::NftBid
            } else {
                AuctionType::Nft
            }
        };
        if listing.deadline == 0 {
            if !(auction_type == AuctionType::Nft || auction_type == AuctionType::SftOnePerPayment
                || (auction_type == AuctionType::SftAll && listing.min_bid == listing.max_bid)) {
                return Err(MarketError::DeadlineMandatory);
            }
        }
        let key = (nft_type, nft_nonce);
        let quantity = match self.token_items_quantity_for_sale.get(&key).checked_add(nft_amount) {
            Some(q) => q,
            None => {
                return Err(MarketError::Overflow);
            },
        };
        self.last_valid_auction_id = auction_id;
        let auction = Auction {
            auctioned_token_type: nft_type,
            auctioned_token_nonce: nft_nonce,
            nr_auctioned_tokens: nft_amount,
            auction_type,
            payment_token_type: listing.accepted_payment_token,
            payment_token_nonce: 0,
            min_bid: listing.min_bid,
            max_bid: opt_max_bid,
            start_time,
            deadline: listing.deadline,
            original_owner: caller,
            current_bid: 0,
            current_winner: ZERO_ADDRESS,
            marketplace_cut_percentage,
            creator_royalties_percentage,
        };
        self.auction_by_id.insert(auction_id, auction);
        self.listings.insert(auction_id);
        self.listings_by_wallet.insert(caller, auction_id);
        self.token_items_for_sale.insert(nft_type, nft_nonce);
        self.token_auction_ids.insert(key, auction_id);
        self.token_items_quantity_for_sale.set(key, quantity);
        self.collections_listed.insert(nft_type);
        let ev = self.emit_auction_token_event(auction_id, &auction);
        let ghost a0 = acts@;
        acts.push(Action::Event(ev));
        assert(acts@ =~= a0 + seq![Action::Event(ev)]);
        Ok(())
    }
}

impl XOXNOProtocol for Marketplace {
    fn init(
        bid_cut_percentage: u64,
        signer: Address,
        wrapping_sc: Address,
        wrapping_token: TokenId,
        aggregator: Address,
    ) -> (r: Result<Self, MarketError>) {
        let mut m = Marketplace::empty_storage(signer, wrapping_sc, wrapping_token, aggregator);
        m.try_set_bid_cut_percentage(bid_cut_percentage)?;
        Ok(m)
    }

    fn upgrade(&mut self, sc_accumulator: Address, aggregator: Address) {
        self.accumulator = sc_accumulator;
        self.aggregator_sc = aggregator;
    }

    fn listing(
        &mut self,
        ctx: &ChainContext,
        payments: &Vec<EsdtPayment>,
        listings: &Vec<BulkListing>,
    ) -> (r: Result<Vec<Action>, MarketError>) {
        let saved = self.duplicate();
        let r = self.attempt_listing(ctx, payments, listings);
        if r.is_err() {
            *self = saved;
        }
        r
    }

    fn bid(
        &mut self,
        ctx: &ChainContext,
        auction_id: u64,
        nft_type: TokenId,
        nft_nonce: u64,
        payment: Payment,
    ) -> (r: Result<Vec<Action>, MarketError>) {
        let saved = self.duplicate();
        let r = self.attempt_bid(ctx, auction_id, nft_type, nft_nonce, payment);
        if r.is_err() {
            *self = saved;
        }
        r
    }

    fn end_auction(&mut self, ctx: &ChainContext, auction_id: u64) -> (r: Result<Vec<Action>, MarketError>) {
        let saved = self.duplicate();
        let r = self.attempt_end_auction(ctx, auction_id);
        if r.is_err() {
            *self = saved;
        }
        r
    }

    fn withdraw(&mut self, ctx: &ChainContext, signature: BufferId, withdraws: &Vec<u64>) -> (r: Result<Vec<Action>, MarketError>) {
        let saved = self.duplicate();
        let r = self.attempt_withdraw(ctx, signature, withdraws);
        if r.is_err() {
            *self = saved;
        }
        r
    }

    fn bulk_change_listing(&mut self, ctx: &ChainContext, updates: &Vec<BulkUpdateListing>) -> (r: Result<Vec<Action>, MarketError>) {
        let saved = self.duplicate();
        let r = self.attempt_bulk_change_listing(ctx, updates);
        if r.is_err() {
            *self = saved;
        }
        r
    }

    fn buy(
        &mut self,
        ctx: &ChainContext,
        auction_id: u64,
        nft_type: TokenId,
        nft_nonce: u64,
        opt_sft_buy_amount: Option<u128>,
        payment: Payment,
    ) -> (r: Result<Vec<Action>, MarketError>) {
        let saved = self.duplicate();
        let r = self.attempt_buy(ctx, auction_id, nft_type, nft_nonce, opt_sft_buy_amount, payment);
        if r.is_err() {
            *self = saved;
        }
        r
    }

    fn buy_swap(
        &mut self,
        ctx: &ChainContext,
        auction_id: u64,
        nft_type: TokenId,
        nft_nonce: u64,
        steps: Vec<AggregatorStep>,
        limits: Vec<TokenAmount>,
        opt_sft_buy_amount: Option<u128>,
        payment: Payment,
    ) -> (r: Result<Vec<Action>, MarketError>) {
        let saved = self.duplicate();
        let r = self.attempt_buy_swap(ctx, auction_id, nft_type, nft_nonce, steps, limits, opt_sft_buy_amount, payment);
        if r.is_err() {
            *self = saved;
        }
        r
    }

    fn buy_for(
        &mut self,
        ctx: &ChainContext,
        auction_id: u64,
        nft_type: TokenId,
        nft_nonce: u64,
        opt_sft_buy_amount: Option<u128>,
        buy_for: Option<Address>,
        message: Option<BufferId>,
        payment: Payment,
    ) -> (r: Result<Vec<Action>, MarketError>) {
        let saved = self.duplicate();
        let r = self.attempt_buy_for(ctx, auction_id, nft_type, nft_nonce, opt_sft_buy_amount, buy_for, message, payment);
        if r.is_err() {
            *self = saved;
        }
        r
    }

    fn bulk_buy(&mut self, ctx: &ChainContext, auction_ids: &Vec<u64>, payment: Payment) -> (r: Result<
        (Vec<Action>, Vec<EsdtPayment>),
        MarketError,
    >) {
        let saved = self.duplicate();
        let r = self.attempt_bulk_buy(ctx, auction_ids, payment);
        if r.is_err() {
            *self = saved;
        }
        r
    }
}

impl Marketplace {
    /// The steps of `listing`; a failure may leave the storage part-way.
    fn attempt_listing(
        &mut self,
        ctx: &ChainContext,
        payments: &Vec<EsdtPayment>,
        listings: &Vec<BulkListing>,
    ) -> (r: Result<Vec<Action>, MarketError>)
        requires
            old(self).inv(),
        ensures
            final(self).inv(),
            endpoint_matches(spec_listing(old(self).store(), *ctx, payments@, listings@), r, final(self).store()),
    {
        self.require_enabled()?;
        if listings.len() != payments.len() {
            return Err(MarketError::InvalidBody);
        }
        let ghost s0 = self.store();
        assert(s0 == old(self).store());
        assert(spec_listing(s0, *ctx, payments@, listings@) == spec_listing_from(s0, *ctx, payments@, listings@, 0));
        let mut acts: Vec<Action> = Vec::new();
        let mut i: usize = 0;
        proof {
            lemma_prefixed_empty(spec_listing_from(s0, *ctx, payments@, listings@, 0));
        }
        while i < listings.len()
            invariant
                self.inv(),
                i <= listings@.len(),
                listings@.len() == payments@.len(),
                spec_listing(old(self).store(), *ctx, payments@, listings@) == spec_listing_from(s0, *ctx, payments@, listings@, 0),
                prefixed(acts@, spec_listing_from(self.store(), *ctx, payments@, listings@, i as int))
                    == spec_listing_from(s0, *ctx, payments@, listings@, 0),
            decreases listings@.len() - i,
        {
            let ghost si = self.store();
            let ghost ai = acts@;
            let r = self.listing_one(ctx, payments[i], listings[i], &mut acts);
            match r {
                Ok(()) => {
                    proof {
                        let t = spec_listing_one(si, *ctx, payments@[i as int], listings@[i as int])->Ok_0.1;
                        assert(acts@ == ai + t);
                        lemma_prefixed_assoc(ai, t, spec_listing_from(self.store(), *ctx, payments@, listings@, i + 1));
                    }
                },
                Err(e) => {
                    assert(spec_listing_from(si, *ctx, payments@, listings@, i as int) == Err::<
                        (Store, Seq<Action>),
                        MarketError,
                    >(e));
                    assert(prefixed(ai, spec_listing_from(si, *ctx, payments@, listings@, i as int))
                        == spec_listing_from(s0, *ctx, payments@, listings@, 0));
                    assert(spec_listing_from(s0, *ctx, payments@, listings@, 0) == Err::<
                        (Store, Seq<Action>),
                        MarketError,
                    >(e));
                    return Err(e);
                },
            }
            i += 1;
        }
        proof {
            assert(acts@ + seq![] =~= acts@);
        }
        Ok(acts)
    }

    /// The steps of `bid`; a failure may leave the storage part-way.
    fn attempt_bid(
        &mut self,
        ctx: &ChainContext,
        auction_id: u64,
        nft_type: TokenId,
        nft_nonce: u64,
        payment: Payment,
    ) -> (r: Result<Vec<Action>, MarketError>)
        requires
            old(self).inv(),
        ensures
            final(self).inv(),
            endpoint_matches(spec_bid(old(self).store(), *ctx, auction_id, nft_type, nft_nonce, payment), r, final(self).store()),
    {
        self.require_enabled()?;
        if self.freezed_auctions.contains(&auction_id) {
            return Err(MarketError::AuctionFrozen);
        }
        let mut auction = self.try_get_auction(auction_id)?;
        let caller = ctx.caller;
        let wegld = self.wrapping_token;
        self.common_bid_checks(
            ctx,
            &auction,
            auction_id,
            nft_type,
            nft_nonce,
            payment.token,
            payment.nonce,
            payment.amount,
            wegld,
            false,
        )?;
        if !(auction.auction_type == AuctionType::SftAll || auction.auction_type
            == AuctionType::NftBid) {
            return Err(MarketError::CannotBidAuctionType);
        }
        let mut max_bid_reached = false;
        match auction.max_bid {
            Some(max_bid) => {
                if payment.amount > max_bid {
                    return Err(MarketError::BidAboveMax);
                }
                max_bid_reached = payment.amount == max_bid;
            },
            None => {},
        }
        let ghost s0 = self.store();
        let mut acts: Vec<Action> = Vec::new();
        if auction.current_winner != ZERO_ADDRESS {
            self.transfer_or_save_payment(
                ctx,
                auction.current_winner,
                auction.payment_token_type,
                auction.payment_token_nonce,
                auction.current_bid,
                &mut acts,
            )?;
            self.listings_bids.remove(&auction.current_winner, &auction_id);
            let ev = self.emit_out_bid_event(auction_id, &auction, caller, payment.amount);
            acts.push(Action::Event(ev));
        }
        let ghost s2 = self.store();
        let ghost t1 = acts@;
        proof {
            let sp = spec_refund_previous_bid(s0, *ctx, auction_id, auction, payment.amount);
            if auction.current_winner != ZERO_ADDRESS {
                let t = spec_transfer_or_save(s0, *ctx, auction.current_winner, auction.payment_token_type, auction.payment_token_nonce, auction.current_bid)->Ok_0.1;
                assert(t1 =~= t + seq![Action::Event(Event::OutBid { auction_id, auction, bidder: ctx.caller, new_amount: payment.amount })]);
            } else {
                assert(t1 =~= seq![]);
            }
            assert(sp == Ok::<(Store, Seq<Action>), MarketError>((s2, t1)));
        }
        let wrapping = self.require_egld_conversion(&auction, payment.token, wegld);
        if wrapping {
            if auction.payment_token_type.is_egld() {
                self.unwrap_egld(payment.amount, &mut acts);
            } else {
                self.wrap_egld(payment.amount, &mut acts);
            }
        }
        assert(acts@ =~= t1 + conversion_actions(wrapping, auction.payment_token_type, payment.amount as int));
        auction.current_bid = payment.amount;
        auction.current_winner = caller;
        self.auction_by_id.insert(auction_id, auction);
        self.listings_bids.insert(caller, auction_id);
        let ghost s3 = self.store();
        let ghost a1 = acts@;
        if max_bid_reached {
            let r = self.end_auction_common(ctx, auction_id, &auction, &mut acts);
            proof {
                match spec_end_auction_common(s3, *ctx, auction_id, auction) {
                    Ok((_, t)) => {
                        assert(acts@ =~= a1 + t);
                    },
                    Err(_) => {},
                }
            }
            match r {
                Ok(()) => Ok(acts),
                Err(e) => Err(e),
            }
        } else {
            let ev = self.emit_bid_event(auction_id, &auction);
            acts.push(Action::Event(ev));
            assert(acts@ =~= a1 + seq![Action::Event(ev)]);
            Ok(acts)
        }
    }

    /// The steps of `end_auction`; a failure may leave the storage part-way.
    fn attempt_end_auction(&mut self, ctx: &ChainContext, auction_id: u64) -> (r: Result<Vec<Action>, MarketError>)
        requires
            old(self).inv(),
        ensures
            final(self).inv(),
            endpoint_matches(spec_end_auction(old(self).store(), *ctx, auction_id), r, final(self).store()),
    {
        self.require_enabled()?;
        let auction = self.try_get_auction(auction_id)?;
        if self.freezed_auctions.contains(&auction_id) {
            return Err(MarketError::AuctionFrozen);
        }
        let current_time = ctx.timestamp;
        if !(auction.auction_type == AuctionType::SftAll || auction.auction_type
            == AuctionType::NftBid) {
            return Err(MarketError::CannotEndAuctionType);
        }
        let deadline_reached = current_time > auction.deadline;
        let max_bid_reached = match auction.max_bid {
            Some(max_bid) => auction.current_bid == max_bid,
            None => false,
        };
        let open_ended = auction.deadline == 0 && auction.auction_type == AuctionType::SftAll
            && match auction.max_bid {
            Some(m) => auction.min_bid == m,
            None => false,
        };
        if open_ended {
            if ctx.caller != auction.original_owner {
                return Err(MarketError::NotAuctionOwner);
            }
        }
        if !(deadline_reached || max_bid_reached || auction.current_winner == ZERO_ADDRESS) {
            return Err(MarketError::AuctionStillRunning);
        }
        if auction.current_winner == ZERO_ADDRESS {
            if ctx.caller != auction.original_owner {
                return Err(MarketError::NotAuctionOwner);
            }
        }
        let mut acts: Vec<Action> = Vec::new();
        let r = self.end_auction_common(ctx, auction_id, &auction, &mut acts);
        proof {
            match spec_end_auction_common(old(self).store(), *ctx, auction_id, auction) {
                Ok((_, t)) => {
                    assert(acts@ =~= seq![] + t);
                },
                Err(_) => {},
            }
        }
        match r {
            Ok(()) => Ok(acts),
            Err(e) => Err(e),
        }
    }

    /// The steps of `withdraw`; a failure may leave the storage part-way.
    fn attempt_withdraw(&mut self, ctx: &ChainContext, signature: BufferId, withdraws: &Vec<u64>) -> (r: Result<Vec<Action>, MarketError>)
        requires
            old(self).inv(),
        ensures
            final(self).inv(),
            endpoint_matches(spec_withdraw(old(self).store(), *ctx, withdraws@), r, final(self).store()),
    {
        self.require_enabled()?;
        let ghost s0 = self.store();
        let mut acts: Vec<Action> = Vec::new();
        let mut i: usize = 0;
        proof {
            lemma_prefixed_empty(spec_withdraw_from(s0, *ctx, withdraws@, 0));
        }
        while i < withdraws.len()
            invariant
                self.inv(),
                i <= withdraws@.len(),
                spec_withdraw(old(self).store(), *ctx, withdraws@) == spec_withdraw_from(s0, *ctx, withdraws@, 0),
                prefixed(acts@, spec_withdraw_from(self.store(), *ctx, withdraws@, i as int))
                    == spec_withdraw_from(s0, *ctx, withdraws@, 0),
            decreases withdraws@.len() - i,
        {
            let ghost si = self.store();
            let ghost ai = acts@;
            let r = self.withdraw_one(ctx, withdraws[i], &mut acts);
            match r {
                Ok(()) => {
                    proof {
                        let t = spec_withdraw_one(si, *ctx, withdraws@[i as int])->Ok_0.1;
                        lemma_prefixed_assoc(ai, t, spec_withdraw_from(self.store(), *ctx, withdraws@, i + 1));
                    }
                },
                Err(e) => {
                    assert(spec_withdraw_from(si, *ctx, withdraws@, i as int) == Err::<(Store, Seq<Action>), MarketError>(e));
                    return Err(e);
                },
            }
            i += 1;
        }
        assert(acts@ + seq![] =~= acts@);
        Ok(acts)
    }

    /// The steps of `bulk_change_listing`; a failure may leave the storage part-way.
    fn attempt_bulk_change_listing(&mut self, ctx: &ChainContext, updates: &Vec<BulkUpdateListing>) -> (r: Result<Vec<Action>, MarketError>)
        requires
            old(self).inv(),
        ensures
            final(self).inv(),
            endpoint_matches(spec_bulk_change_listing(old(self).store(), *ctx, updates@), r, final(self).store()),
    {
        self.require_enabled()?;
        if updates.len() == 0 {
            return Err(MarketError::NoUpdates);
        }
        let ghost s0 = self.store();
        let mut acts: Vec<Action> = Vec::new();
        let mut i: usize = 0;
        proof {
            lemma_prefixed_empty(spec_change_listing_from(s0, *ctx, updates@, 0));
        }
        while i < updates.len()
            invariant
                self.inv(),
                i <= updates@.len(),
                spec_bulk_change_listing(old(self).store(), *ctx, updates@) == spec_change_listing_from(s0, *ctx, updates@, 0),
                prefixed(acts@, spec_change_listing_from(self.store(), *ctx, updates@, i as int))
                    == spec_change_listing_from(s0, *ctx, updates@, 0),
            decreases updates@.len() - i,
        {
            let ghost si = self.store();
            let ghost ai = acts@;
            let r = self.change_listing_one(ctx, updates[i], &mut acts);
            match r {
                Ok(()) => {
                    proof {
                        let t = spec_change_listing_one(si, *ctx, updates@[i as int])->Ok_0.1;
                        lemma_prefixed_assoc(ai, t, spec_change_listing_from(self.store(), *ctx, updates@, i + 1));
                    }
                },
                Err(e) => {
                    assert(spec_change_listing_from(si, *ctx, updates@, i as int) == Err::<(Store, Seq<Action>), MarketError>(e));
                    return Err(e);
                },
            }
            i += 1;
        }
        assert(acts@ + seq![] =~= acts@);
        Ok(acts)
    }

    /// The steps of `buy`; a failure may leave the storage part-way.
    fn attempt_buy(
        &mut self,
        ctx: &ChainContext,
        auction_id: u64,
        nft_type: TokenId,
        nft_nonce: u64,
        opt_sft_buy_amount: Option<u128>,
        payment: Payment,
    ) -> (r: Result<Vec<Action>, MarketError>)
        requires
            old(self).inv(),
        ensures
            final(self).inv(),
            endpoint_matches(
                spec_common_buy(old(self).store(), *ctx, auction_id, nft_type, nft_nonce, opt_sft_buy_amount, None, None, None, None, payment),
                r,
                final(self).store(),
            ),
    {
        self.common_buy(ctx, auction_id, nft_type, nft_nonce, opt_sft_buy_amount, None, None, None, None, payment)
    }

    /// The steps of `buy_swap`; a failure may leave the storage part-way.
    fn attempt_buy_swap(
        &mut self,
        ctx: &ChainContext,
        auction_id: u64,
        nft_type: TokenId,
        nft_nonce: u64,
        steps: Vec<AggregatorStep>,
        limits: Vec<TokenAmount>,
        opt_sft_buy_amount: Option<u128>,
        payment: Payment,
    ) -> (r: Result<Vec<Action>, MarketError>)
        requires
            old(self).inv(),
        ensures
            final(self).inv(),
            endpoint_matches(
                spec_common_buy(old(self).store(), *ctx, auction_id, nft_type, nft_nonce, opt_sft_buy_amount, None, None, Some(steps@), Some(limits@), payment),
                r,
                final(self).store(),
            ),
    {
        self.common_buy(
            ctx,
            auction_id,
            nft_type,
            nft_nonce,
            opt_sft_buy_amount,
            None,
            None,
            Some(steps),
            Some(limits),
            payment,
        )
    }

    /// The steps of `buy_for`; a failure may leave the storage part-way.
    fn attempt_buy_for(
        &mut self,
        ctx: &ChainContext,
        auction_id: u64,
        nft_type: TokenId,
        nft_nonce: u64,
        opt_sft_buy_amount: Option<u128>,
        buy_for: Option<Address>,
        message: Option<BufferId>,
        payment: Payment,
    ) -> (r: Result<Vec<Action>, MarketError>)
        requires
            old(self).inv(),
        ensures
            final(self).inv(),
            endpoint_matches(
                spec_common_buy(old(self).store(), *ctx, auction_id, nft_type, nft_nonce, opt_sft_buy_amount, buy_for, message, None, None, payment),
                r,
                final(self).store(),
            ),
    {
        self.common_buy(ctx, auction_id, nft_type, nft_nonce, opt_sft_buy_amount, buy_for, message, None, None, payment)
    }

    /// The steps of `bulk_buy`; a failure may leave the storage part-way.
    fn attempt_bulk_buy(&mut self, ctx: &ChainContext, auction_ids: &Vec<u64>, payment: Payment) -> (r: Result<
        (Vec<Action>, Vec<EsdtPayment>),
        MarketError,
    >)
        requires
            old(self).inv(),
        ensures
            final(self).inv(),
            bulk_matches(spec_bulk_buy(old(self).store(), *ctx, auction_ids@, payment), r, final(self).store()),
    {
        let ghost s0 = self.store();
        let mut acts: Vec<Action> = Vec::new();
        let mut bought: Vec<EsdtPayment> = Vec::new();
        let mut available: u128 = payment.amount;
        let mut fees: u128 = 0;
        let mut i: usize = 0;
        proof {
            lemma_bulk_prefixed_empty(spec_bulk_buy(s0, *ctx, auction_ids@, payment));
        }
        while i < auction_ids.len()
            invariant
                self.inv(),
                i <= auction_ids@.len(),
                s0 == old(self).store(),
                bulk_prefixed(
                    acts@,
                    spec_bulk_buy_from(self.store(), *ctx, payment, auction_ids@, i as int, available, fees, bought@),
                ) == spec_bulk_buy(s0, *ctx, auction_ids@, payment),
            decreases auction_ids@.len() - i,
        {
            let ghost si = self.store();
            let ghost ai = acts@;
            let ghost bi = bought@;
            let r = self.bulk_buy_one(ctx, payment, available, fees, auction_ids[i], &mut acts);
            match r {
                Ok((a1, f1, nft)) => {
                    match nft {
                        Some(p) => bought.push(p),
                        None => {},
                    }
                    proof {
                        let t = spec_bulk_buy_one(si, *ctx, payment, available, fees, auction_ids@[i as int])->Ok_0.1;
                        assert(bought@ == (match nft { Some(p) => bi.push(p), None => bi }));
                        lemma_bulk_prefixed_assoc(
                            ai,
                            t,
                            spec_bulk_buy_from(self.store(), *ctx, payment, auction_ids@, i + 1, a1, f1, bought@),
                        );
                    }
                    available = a1;
                    fees = f1;
                },
                Err(e) => {
                    assert(spec_bulk_buy_from(si, *ctx, payment, auction_ids@, i as int, available, fees, bi)
                        == Err::<(Store, Seq<Action>, Seq<EsdtPayment>), MarketError>(e));
                    return Err(e);
                },
            }
            i += 1;
        }
        let ghost ai = acts@;
        let ghost si = self.store();
        let r = self.bulk_buy_finish(ctx, payment, available, fees, &bought, &mut acts);
        match r {
            Ok(()) => {
                proof {
                    let t = spec_bulk_buy_finish(si, *ctx, payment, available, fees, bought@)->Ok_0.1;
                    assert(acts@ == ai + t);
                }
                Ok((acts, bought))
            },
            Err(e) => Err(e),
        }
    }
}

} // verus!
