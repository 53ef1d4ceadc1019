//! The listings index agrees with the listing records, and the endpoints that
//! list, bid, buy, end, change and withdraw listings keep it so.
use vstd::prelude::*;

use crate::admin::{spec_return_listing, spec_return_listing_from, spec_return_listing_one};
use crate::auction::{
    Address, AggregatorStep, Auction, AuctionType, BufferId, BulkListing, BulkUpdateListing, EsdtPayment,
    GlobalOffer, Offer, OfferStatus, Payment, PaymentToken, TokenAmount, TokenId, NFT_AMOUNT, ZERO_ADDRESS,
};
use crate::collections::{
    lemma_seq_with_no_dup, lemma_seq_without_no_dup, seq_swap_without, seq_with, seq_without, set_at, with_set,
};
use crate::common::{
    conversion_actions, pays_extra, prefixed, royalties_receiver, spec_callback_ash, spec_common_buy,
    spec_common_global_offer_remove, spec_common_offer_remove, spec_distribute_rewards, spec_distribute_tokens,
    spec_distribute_tokens_bulk_buy, spec_distribute_tokens_common, spec_end_auction_common,
    spec_remove_auction_common, spec_require_egld_conversion, spec_sell, spec_update_or_remove_items_quantity,
    spec_withdraw_auction_common, Settlement,
};
use crate::events::{Action, Event, SwapCallback};
use crate::helpers::{spec_amount_split, spec_collection_config, spec_nft_info, spec_transfer_or_save, Step};
use crate::init::{
    initial_store, reaches_max_bid, spec_bid, spec_bulk_buy, spec_bulk_buy_from, spec_bulk_buy_one,
    spec_bulk_change_listing, spec_change_listing_from, spec_change_listing_one, spec_end_auction, spec_listing,
    spec_listing_from, spec_listing_one, spec_refund_previous_bid, spec_withdraw, spec_withdraw_from,
    spec_withdraw_one, BulkStep,
};
use crate::laws::{
    lemma_distribute_tokens_keeps_records, lemma_distribution_keeps_records, lemma_transfer_or_save_keeps_records,
    same_records,
};
use crate::marketplace_main::{
    esdt_initial_store, spec_esdt_bid, spec_esdt_bulk_buy, spec_esdt_change_price, spec_esdt_common_buy,
    spec_esdt_end_auction, spec_esdt_listing, spec_esdt_withdraw,
};
use crate::offers::{
    gather_listed, gather_listed_from, gather_sent_from, offer_token_checks, spec_accept_global_offer,
    spec_accept_offer, spec_decline_offer, spec_send_global_offer, spec_send_offer, spec_settle_offer,
    spec_take_offer_listing, spec_withdraw_global_offer, spec_withdraw_offer, Gathered,
};
use crate::pools::{spec_deposit, spec_has_balance_and_deduct, spec_withdraw_deposit};
use crate::storage::{empty_nft_data, ChainContext, Store};

verus! {

/// The listings index and the listing records agree: the index holds no id
/// twice, and an id is in it exactly when a listing is recorded under it.
pub open spec fn listings_agree(s: Store) -> bool {
    &&& s.listings.no_duplicates()
    &&& forall|id: u64|
        #![trigger s.listings.contains(id)]
        #![trigger s.auction_by_id.contains_key(id)]
        s.listings.contains(id) <==> s.auction_by_id.contains_key(id)
}

/// The storage a successful step leaves has its listings index and records in agreement.
pub open spec fn agrees_after(r: Step) -> bool {
    match r {
        Ok((s1, _)) => listings_agree(s1),
        Err(_) => true,
    }
}

proof fn lemma_same_records_agree(s: Store, s1: Store)
    requires
        listings_agree(s),
        same_records(s, s1),
    ensures
        listings_agree(s1),
{
    assert(s1.listings == s.listings);
    assert(s1.auction_by_id == s.auction_by_id);
}

proof fn lemma_transfer_or_save_agree(
    s: Store,
    ctx: ChainContext,
    to: Address,
    token: PaymentToken,
    nonce: u64,
    amount: u128,
)
    requires
        listings_agree(s),
    ensures
        agrees_after(spec_transfer_or_save(s, ctx, to, token, nonce, amount)),
{
    lemma_transfer_or_save_keeps_records(s, ctx, to, token, nonce, amount);
    match spec_transfer_or_save(s, ctx, to, token, nonce, amount) {
        Ok((s1, _)) => lemma_same_records_agree(s, s1),
        Err(_) => {},
    }
}

proof fn lemma_remove_agree(s: Store, auction_id: u64, auction: Auction)
    requires
        listings_agree(s),
    ensures
        listings_agree(spec_remove_auction_common(s, auction_id, auction)),
{
    let s1 = spec_remove_auction_common(s, auction_id, auction);
    lemma_seq_without_no_dup(s.listings, auction_id);
    assert forall|id: u64| s1.listings.contains(id) <==> s1.auction_by_id.contains_key(id) by {
        if id != auction_id {
            assert(s1.listings.contains(id) <==> s.listings.contains(id));
            assert(s1.auction_by_id.contains_key(id) <==> s.auction_by_id.contains_key(id));
        }
    }
}

proof fn lemma_quantity_keeps_listings(s: Store, auction: Auction, quantity: u128)
    ensures
        match spec_update_or_remove_items_quantity(s, auction, quantity) {
            Ok(s1) => s1.listings == s.listings && s1.auction_by_id == s.auction_by_id,
            Err(_) => true,
        },
{
}

proof fn lemma_prefixed_agree(a: Seq<Action>, r: Step)
    ensures
        agrees_after(prefixed(a, r)) == agrees_after(r),
{
}

proof fn lemma_distribute_agree(
    s: Store,
    ctx: ChainContext,
    auction: Auction,
    opt_sft_amount: Option<u128>,
    wrapping: bool,
)
    requires
        listings_agree(s),
    ensures
        agrees_after(spec_distribute_tokens(s, ctx, auction, opt_sft_amount, wrapping)),
{
    lemma_distribute_tokens_keeps_records(s, ctx, auction, opt_sft_amount, wrapping);
    match spec_distribute_tokens(s, ctx, auction, opt_sft_amount, wrapping) {
        Ok((s1, _)) => lemma_same_records_agree(s, s1),
        Err(_) => {},
    }
}

/// Ending a listing keeps the listings index and records in agreement.
pub proof fn lemma_end_auction_common_agree(s: Store, ctx: ChainContext, auction_id: u64, auction: Auction)
    requires
        listings_agree(s),
    ensures
        agrees_after(spec_end_auction_common(s, ctx, auction_id, auction)),
{
    lemma_quantity_keeps_listings(s, auction, auction.nr_auctioned_tokens);
    match spec_update_or_remove_items_quantity(s, auction, auction.nr_auctioned_tokens) {
        Ok(s1) => {
            lemma_remove_agree(s1, auction_id, auction);
            lemma_distribute_agree(
                spec_remove_auction_common(s1, auction_id, auction),
                ctx,
                auction,
                Some(auction.nr_auctioned_tokens),
                false,
            );
        },
        Err(_) => {},
    }
}

/// `endAuction` keeps the listings index and the listing records in agreement.
pub proof fn law_end_auction_keeps_listings_agree(s: Store, ctx: ChainContext, auction_id: u64)
    requires
        listings_agree(s),
    ensures
        agrees_after(spec_end_auction(s, ctx, auction_id)),
{
    if s.auction_by_id.contains_key(auction_id) {
        lemma_end_auction_common_agree(s, ctx, auction_id, s.auction_by_id[auction_id]);
    }
}

/// `bid` keeps the listings index and the listing records in agreement.
pub proof fn law_bid_keeps_listings_agree(
    s: Store,
    ctx: ChainContext,
    auction_id: u64,
    nft_type: TokenId,
    nft_nonce: u64,
    payment: Payment,
)
    requires
        listings_agree(s),
    ensures
        agrees_after(spec_bid(s, ctx, auction_id, nft_type, nft_nonce, payment)),
{
    if s.auction_by_id.contains_key(auction_id) {
        let a = s.auction_by_id[auction_id];
        match spec_refund_previous_bid(s, ctx, auction_id, a, payment.amount) {
            Ok((s2, t1)) => {
                if a.current_winner != ZERO_ADDRESS {
                    lemma_transfer_or_save_keeps_records(
                        s,
                        ctx,
                        a.current_winner,
                        a.payment_token_type,
                        a.payment_token_nonce,
                        a.current_bid,
                    );
                }
                assert(s2.listings == s.listings && s2.auction_by_id == s.auction_by_id);
                let new_auction = Auction { current_bid: payment.amount, current_winner: ctx.caller, ..a };
                let s3 = Store {
                    auction_by_id: s2.auction_by_id.insert(auction_id, new_auction),
                    listings_bids: with_set(
                        s2.listings_bids,
                        ctx.caller,
                        seq_with(set_at(s2.listings_bids, ctx.caller), auction_id),
                    ),
                    ..s2
                };
                assert forall|id: u64| s3.listings.contains(id) <==> s3.auction_by_id.contains_key(id) by {
                    assert(s3.auction_by_id.contains_key(id) <==> s.auction_by_id.contains_key(id));
                }
                assert(listings_agree(s3));
                lemma_end_auction_common_agree(s3, ctx, auction_id, new_auction);
                let wegld = s.wrapping_token;
                let conv = conversion_actions(
                    spec_require_egld_conversion(a, payment.token, wegld),
                    a.payment_token_type,
                    payment.amount as int,
                );
                let rest = if reaches_max_bid(a, payment.amount) {
                    spec_end_auction_common(s3, ctx, auction_id, new_auction)
                } else {
                    Ok((s3, seq![Action::Event(Event::Bid { auction_id, auction: new_auction })]))
                };
                lemma_prefixed_agree(t1 + conv, rest);
            },
            Err(_) => {},
        }
    }
}

/// Withdrawing a listing keeps the listings index and records in agreement.
proof fn lemma_withdraw_common_agree(s: Store, ctx: ChainContext, auction_id: u64, a: Auction)
    requires
        listings_agree(s),
    ensures
        agrees_after(spec_withdraw_auction_common(s, ctx, auction_id, a)),
{
    lemma_quantity_keeps_listings(s, a, a.nr_auctioned_tokens);
    match spec_update_or_remove_items_quantity(s, a, a.nr_auctioned_tokens) {
        Ok(s1) => {
            lemma_remove_agree(s1, auction_id, a);
            lemma_transfer_or_save_agree(
                spec_remove_auction_common(s1, auction_id, a),
                ctx,
                a.original_owner,
                PaymentToken::Esdt(a.auctioned_token_type),
                a.auctioned_token_nonce,
                a.nr_auctioned_tokens,
            );
        },
        Err(_) => {},
    }
}

proof fn lemma_withdraw_one_agree(s: Store, ctx: ChainContext, auction_id: u64)
    requires
        listings_agree(s),
    ensures
        agrees_after(spec_withdraw_one(s, ctx, auction_id)),
{
    if s.auction_by_id.contains_key(auction_id) {
        lemma_withdraw_common_agree(s, ctx, auction_id, s.auction_by_id[auction_id]);
    }
}

proof fn lemma_withdraw_from_agree(s: Store, ctx: ChainContext, ids: Seq<u64>, i: int)
    requires
        listings_agree(s),
    ensures
        agrees_after(spec_withdraw_from(s, ctx, ids, i)),
    decreases ids.len() - i,
{
    if 0 <= i < ids.len() {
        lemma_withdraw_one_agree(s, ctx, ids[i]);
        match spec_withdraw_one(s, ctx, ids[i]) {
            Ok((s1, a)) => {
                lemma_withdraw_from_agree(s1, ctx, ids, i + 1);
                lemma_prefixed_agree(a, spec_withdraw_from(s1, ctx, ids, i + 1));
            },
            Err(_) => {},
        }
    }
}

/// `withdraw` keeps the listings index and the listing records in agreement.
pub proof fn law_withdraw_keeps_listings_agree(s: Store, ctx: ChainContext, ids: Seq<u64>)
    requires
        listings_agree(s),
    ensures
        agrees_after(spec_withdraw(s, ctx, ids)),
{
    lemma_withdraw_from_agree(s, ctx, ids, 0);
}

proof fn lemma_change_listing_from_agree(s: Store, ctx: ChainContext, updates: Seq<BulkUpdateListing>, i: int)
    requires
        listings_agree(s),
    ensures
        agrees_after(spec_change_listing_from(s, ctx, updates, i)),
    decreases updates.len() - i,
{
    if 0 <= i < updates.len() {
        match spec_change_listing_one(s, ctx, updates[i]) {
            Ok((s1, a)) => {
                assert forall|id: u64| s1.listings.contains(id) <==> s1.auction_by_id.contains_key(id) by {
                    assert(s1.auction_by_id.contains_key(id) <==> s.auction_by_id.contains_key(id));
                }
                lemma_change_listing_from_agree(s1, ctx, updates, i + 1);
                lemma_prefixed_agree(a, spec_change_listing_from(s1, ctx, updates, i + 1));
            },
            Err(_) => {},
        }
    }
}

/// `changeListing` keeps the listings index and the listing records in agreement.
pub proof fn law_change_listing_keeps_listings_agree(s: Store, ctx: ChainContext, updates: Seq<BulkUpdateListing>)
    requires
        listings_agree(s),
    ensures
        agrees_after(spec_bulk_change_listing(s, ctx, updates)),
{
    lemma_change_listing_from_agree(s, ctx, updates, 0);
}

proof fn lemma_listing_from_agree(
    s: Store,
    ctx: ChainContext,
    payments: Seq<EsdtPayment>,
    listings: Seq<BulkListing>,
    i: int,
)
    requires
        listings_agree(s),
    ensures
        agrees_after(spec_listing_from(s, ctx, payments, listings, i)),
    decreases listings.len() - i,
{
    if 0 <= i < listings.len() {
        match spec_listing_one(s, ctx, payments[i], listings[i]) {
            Ok((s1, a)) => {
                let id = (s.last_valid_auction_id + 1) as u64;
                lemma_seq_with_no_dup(s.listings, id);
                assert(s1.listings == seq_with(s.listings, id));
                assert(s1.auction_by_id.contains_key(id));
                assert forall|x: u64| s1.listings.contains(x) <==> s1.auction_by_id.contains_key(x) by {
                    if x != id {
                        assert(s1.auction_by_id.contains_key(x) <==> s.auction_by_id.contains_key(x));
                    }
                }
                lemma_listing_from_agree(s1, ctx, payments, listings, i + 1);
                lemma_prefixed_agree(a, spec_listing_from(s1, ctx, payments, listings, i + 1));
            },
            Err(_) => {},
        }
    }
}

/// `listing` keeps the listings index and the listing records in agreement.
pub proof fn law_listing_keeps_listings_agree(
    s: Store,
    ctx: ChainContext,
    payments: Seq<EsdtPayment>,
    listings: Seq<BulkListing>,
)
    requires
        listings_agree(s),
    ensures
        agrees_after(spec_listing(s, ctx, payments, listings)),
{
    lemma_listing_from_agree(s, ctx, payments, listings, 0);
}

/// A sale of a recorded listing keeps the listings index and records in agreement.
pub proof fn lemma_sell_agree(
    s: Store,
    ctx: ChainContext,
    auction_id: u64,
    auction: Auction,
    buyer: Address,
    price: u128,
    buy_amount: u128,
    message: Option<BufferId>,
    buy_by: Option<Address>,
    payment: Payment,
    wrapping: bool,
)
    requires
        listings_agree(s),
        s.auction_by_id.contains_key(auction_id),
    ensures
        agrees_after(
            spec_sell(s, ctx, auction_id, auction, buyer, price, buy_amount, message, buy_by, payment, wrapping),
        ),
{
    if buy_amount <= auction.nr_auctioned_tokens {
        let a2 = Auction {
            current_winner: buyer,
            current_bid: price,
            nr_auctioned_tokens: (auction.nr_auctioned_tokens - buy_amount) as u128,
            ..auction
        };
        let s1 = if a2.nr_auctioned_tokens == 0 {
            spec_remove_auction_common(s, auction_id, a2)
        } else {
            Store { auction_by_id: s.auction_by_id.insert(auction_id, a2), ..s }
        };
        if a2.nr_auctioned_tokens == 0 {
            lemma_remove_agree(s, auction_id, a2);
        } else {
            assert forall|id: u64| s1.listings.contains(id) <==> s1.auction_by_id.contains_key(id) by {
                assert(s1.auction_by_id.contains_key(id) <==> s.auction_by_id.contains_key(id));
            }
        }
        assert(listings_agree(s1));
        lemma_quantity_keeps_listings(s1, a2, buy_amount);
        match spec_update_or_remove_items_quantity(s1, a2, buy_amount) {
            Ok(s2) => {
                lemma_distribute_agree(s2, ctx, a2, Some(buy_amount), wrapping);
            },
            Err(_) => {},
        }
    }
}

/// `buy` (directly or through a swap) keeps the listings index and the
/// listing records in agreement.
pub proof fn law_buy_keeps_listings_agree(
    s: Store,
    ctx: ChainContext,
    auction_id: u64,
    nft_type: TokenId,
    nft_nonce: u64,
    opt_sft_buy_amount: Option<u128>,
    buy_for: Option<Address>,
    message: Option<BufferId>,
    swaps: Option<Seq<AggregatorStep>>,
    limits: Option<Seq<TokenAmount>>,
    payment: Payment,
)
    requires
        listings_agree(s),
    ensures
        agrees_after(
            spec_common_buy(s, ctx, auction_id, nft_type, nft_nonce, opt_sft_buy_amount, buy_for, message, swaps, limits, payment),
        ),
{
    if s.status && s.auction_by_id.contains_key(auction_id) {
        let auction = s.auction_by_id[auction_id];
        let buy_amount = match opt_sft_buy_amount {
            Some(a) => a,
            None => NFT_AMOUNT as u128,
        };
        let buyer = match buy_for {
            Some(b) => b,
            None => ctx.caller,
        };
        lemma_sell_agree(
            s,
            ctx,
            auction_id,
            auction,
            buyer,
            payment.amount,
            buy_amount,
            message,
            if buy_for is Some { Some(ctx.caller) } else { None },
            payment,
            spec_require_egld_conversion(auction, payment.token, s.wrapping_token),
        );
    }
}

/// A new marketplace, of either contract, has its listings index and records in agreement.
pub proof fn law_initial_listings_agree(
    bid_cut_percentage: u64,
    signer: Address,
    wrapping_sc: Address,
    wrapping_token: TokenId,
    aggregator: Address,
)
    ensures
        listings_agree(initial_store(bid_cut_percentage, signer, wrapping_sc, wrapping_token, aggregator)),
        listings_agree(esdt_initial_store(bid_cut_percentage, signer)),
{
}

proof fn lemma_return_listing_from_agree(s: Store, ctx: ChainContext, ids: Seq<u64>, i: int)
    requires
        listings_agree(s),
    ensures
        agrees_after(spec_return_listing_from(s, ctx, ids, i)),
    decreases ids.len() - i,
{
    if 0 <= i < ids.len() {
        let id = ids[i];
        if s.auction_by_id.contains_key(id) {
            let a = s.auction_by_id[id];
            if a.auction_type == AuctionType::SftOnePerPayment || a.auction_type == AuctionType::Nft {
                lemma_withdraw_common_agree(s, ctx, id, a);
            } else if a.current_winner == ZERO_ADDRESS {
                lemma_end_auction_common_agree(s, ctx, id, a);
            } else {
                lemma_transfer_or_save_keeps_records(
                    s,
                    ctx,
                    a.current_winner,
                    a.payment_token_type,
                    a.payment_token_nonce,
                    a.current_bid,
                );
                match spec_transfer_or_save(s, ctx, a.current_winner, a.payment_token_type, a.payment_token_nonce, a.current_bid) {
                    Ok((s1, t)) => {
                        let w = a.current_winner;
                        let s2 = Store {
                            listings_bids: with_set(s1.listings_bids, w, seq_without(set_at(s1.listings_bids, w), id)),
                            ..s1
                        };
                        lemma_same_records_agree(s, s1);
                        lemma_end_auction_common_agree(s2, ctx, id, Auction { current_winner: ZERO_ADDRESS, ..a });
                        lemma_prefixed_agree(
                            t,
                            spec_end_auction_common(s2, ctx, id, Auction { current_winner: ZERO_ADDRESS, ..a }),
                        );
                    },
                    Err(_) => {},
                }
            }
        }
        match spec_return_listing_one(s, ctx, id) {
            Ok((s1, a)) => {
                lemma_return_listing_from_agree(s1, ctx, ids, i + 1);
                lemma_prefixed_agree(a, spec_return_listing_from(s1, ctx, ids, i + 1));
            },
            Err(_) => {},
        }
    }
}

/// `returnListing` keeps the listings index and the listing records in agreement.
pub proof fn law_return_listing_keeps_listings_agree(s: Store, ctx: ChainContext, ids: Seq<u64>)
    requires
        listings_agree(s),
    ensures
        agrees_after(spec_return_listing(s, ctx, ids)),
{
    lemma_return_listing_from_agree(s, ctx, ids, 0);
}

/// The callback of a swap purchase keeps the listings index and the listing
/// records in agreement.
pub proof fn law_callback_keeps_listings_agree(
    s: Store,
    ctx: ChainContext,
    cb: SwapCallback,
    received: Seq<EsdtPayment>,
)
    requires
        listings_agree(s),
    ensures
        agrees_after(spec_callback_ash(s, ctx, cb, received)),
{
    let s1 = Store { freezed_auctions: seq_swap_without(s.freezed_auctions, cb.auction_id), ..s };
    assert(listings_agree(s1));
    if received.len() > 0 && s1.auction_by_id.contains_key(cb.auction_id) {
        let p = received[0];
        let auction = s1.auction_by_id[cb.auction_id];
        let token = PaymentToken::Esdt(p.token);
        let wrapping = spec_require_egld_conversion(auction, token, s.wrapping_token);
        if p.amount >= cb.total_price && (token == auction.payment_token_type || wrapping) {
            let change = (p.amount - cb.total_price) as u128;
            lemma_transfer_or_save_keeps_records(s1, ctx, cb.paid_by, token, p.nonce, change);
            match spec_transfer_or_save(s1, ctx, cb.paid_by, token, p.nonce, change) {
                Ok((s2, t1)) => {
                    lemma_same_records_agree(s1, s2);
                    let buy_by = if cb.paid_by == cb.send_to { None } else { Some(cb.paid_by) };
                    lemma_sell_agree(
                        s2,
                        ctx,
                        cb.auction_id,
                        auction,
                        cb.send_to,
                        cb.total_price,
                        cb.quantity,
                        cb.message,
                        buy_by,
                        cb.original_payment,
                        wrapping,
                    );
                    lemma_prefixed_agree(
                        t1,
                        spec_sell(
                            s2,
                            ctx,
                            cb.auction_id,
                            auction,
                            cb.send_to,
                            cb.total_price,
                            cb.quantity,
                            cb.message,
                            buy_by,
                            cb.original_payment,
                            wrapping,
                        ),
                    );
                },
                Err(_) => {},
            }
        }
    }
}

/// `acceptOffer` keeps the listings index and the listing records in agreement.
pub proof fn law_accept_offer_keeps_listings_agree(
    s: Store,
    ctx: ChainContext,
    offer_id: u64,
    auction_id: Option<u64>,
    payment: Payment,
)
    requires
        listings_agree(s),
    ensures
        agrees_after(spec_accept_offer(s, ctx, offer_id, auction_id, payment)),
{
    if s.status && s.offer_by_id.contains_key(offer_id) {
        let offer = s.offer_by_id[offer_id];
        let paid = if offer.new_version {
            spec_has_balance_and_deduct(s, offer.offer_owner, offer.payment_token_type, offer.payment_token_nonce, offer.price)
        } else {
            Ok((s, seq![]))
        };
        match paid {
            Ok((s1, t1)) => {
                assert(listings_agree(s1));
                let taken = match auction_id {
                    None => match offer_token_checks(offer, payment) {
                        Err(e) => Err(e),
                        Ok(_) => Ok(s1),
                    },
                    Some(id) => spec_take_offer_listing(s1, ctx.caller, offer, id),
                };
                match auction_id {
                    Some(id) => if s1.auction_by_id.contains_key(id) {
                        let a = s1.auction_by_id[id];
                        lemma_quantity_keeps_listings(s1, a, a.nr_auctioned_tokens);
                        match spec_update_or_remove_items_quantity(s1, a, a.nr_auctioned_tokens) {
                            Ok(s2) => lemma_remove_agree(s2, id, a),
                            Err(_) => {},
                        }
                    },
                    None => {},
                }
                match taken {
                    Ok(s2) => {
                        assert(listings_agree(s2));
                        let accepted = Offer { status: OfferStatus::Accepted, ..offer };
                        let removed = match auction_id {
                            Some(id) => id,
                            None => 0,
                        };
                        match spec_nft_info(ctx, accepted.token_type, accepted.token_nonce) {
                            Ok(info) => {
                                let s3 = spec_common_offer_remove(s2, offer_id, accepted);
                                assert(listings_agree(s3));
                                match spec_amount_split(
                                    s3.bid_cut_percentage,
                                    accepted.price,
                                    info.royalties,
                                    spec_collection_config(s3, accepted.token_type),
                                ) {
                                    Ok(d) => {
                                        let nfts = seq![
                                            EsdtPayment {
                                                token: accepted.token_type,
                                                nonce: accepted.token_nonce,
                                                amount: accepted.quantity,
                                            },
                                        ];
                                        let st = Settlement {
                                            payment_token: accepted.payment_token_type,
                                            payment_nonce: accepted.payment_token_nonce,
                                            creator: info.creator,
                                            original_owner: ctx.caller,
                                            new_owner: accepted.offer_owner,
                                            split: d,
                                        };
                                        lemma_distribution_keeps_records(s3, ctx, nfts, st, false);
                                        match spec_distribute_tokens_common(s3, ctx, nfts, st, false) {
                                            Ok((s4, _)) => lemma_same_records_agree(s3, s4),
                                            Err(_) => {},
                                        }
                                        let settled = spec_settle_offer(s2, ctx, offer_id, accepted, ctx.caller, removed);
                                        lemma_prefixed_agree(t1, settled);
                                    },
                                    Err(_) => {},
                                }
                            },
                            Err(_) => {},
                        }
                    },
                    Err(_) => {},
                }
            },
            Err(_) => {},
        }
    }
}

/// A step that leaves the listings index and the listing records as they were.
pub open spec fn keeps_listings(s: Store, r: Step) -> bool {
    match r {
        Ok((s1, _)) => s1.listings == s.listings && s1.auction_by_id == s.auction_by_id,
        Err(_) => true,
    }
}

proof fn lemma_transfer_keeps_listings(
    s: Store,
    ctx: ChainContext,
    to: Address,
    token: PaymentToken,
    nonce: u64,
    amount: u128,
)
    ensures
        keeps_listings(s, spec_transfer_or_save(s, ctx, to, token, nonce, amount)),
{
    lemma_transfer_or_save_keeps_records(s, ctx, to, token, nonce, amount);
}

proof fn lemma_rewards_keep_listings(s: Store, ctx: ChainContext, buyer: Address, seller: Address)
    ensures
        keeps_listings(s, spec_distribute_rewards(s, ctx, buyer, seller)),
{
    match s.reward_ticker {
        Some(ticker) => {
            let reward = s.reward_amount;
            lemma_transfer_keeps_listings(s, ctx, buyer, ticker, 0, reward);
            match spec_transfer_or_save(s, ctx, buyer, ticker, 0, reward) {
                Ok((s1, _)) => lemma_transfer_keeps_listings(s1, ctx, seller, ticker, 0, reward),
                Err(_) => {},
            }
        },
        None => {},
    }
}

proof fn lemma_bulk_distribution_keeps_listings(s: Store, ctx: ChainContext, st: Settlement, wrapping: bool)
    ensures
        keeps_listings(s, spec_distribute_tokens_bulk_buy(s, ctx, st, wrapping)),
{
    let d = st.split;
    let tp = st.payment_token;
    let np = st.payment_nonce;
    let s0 = if pays_extra(d) {
        lemma_transfer_keeps_listings(s, ctx, d.extra_address, tp, np, d.extra);
        match spec_transfer_or_save(s, ctx, d.extra_address, tp, np, d.extra) {
            Ok((x, _)) => x,
            Err(_) => s,
        }
    } else {
        s
    };
    lemma_transfer_keeps_listings(s0, ctx, royalties_receiver(st), tp, np, d.creator);
    match spec_transfer_or_save(s0, ctx, royalties_receiver(st), tp, np, d.creator) {
        Ok((s1, _)) => {
            lemma_transfer_keeps_listings(s1, ctx, st.original_owner, tp, np, d.seller);
            match spec_transfer_or_save(s1, ctx, st.original_owner, tp, np, d.seller) {
                Ok((s2, _)) => lemma_rewards_keep_listings(s2, ctx, st.new_owner, st.original_owner),
                Err(_) => {},
            }
        },
        Err(_) => {},
    }
}

/// The storage a successful bulk step leaves has its listings index and records in agreement.
pub open spec fn bulk_agrees_after(r: BulkStep) -> bool {
    match r {
        Ok((s1, _, _)) => listings_agree(s1),
        Err(_) => true,
    }
}

proof fn lemma_bulk_buy_one_agree(
    s: Store,
    ctx: ChainContext,
    payment: Payment,
    available: u128,
    fees: u128,
    auction_id: u64,
)
    requires
        listings_agree(s),
    ensures
        match spec_bulk_buy_one(s, ctx, payment, available, fees, auction_id) {
            Ok((s1, _, _, _, _)) => listings_agree(s1),
            Err(_) => true,
        },
{
    if s.auction_by_id.contains_key(auction_id) {
        let listing = s.auction_by_id[auction_id];
        let wegld = s.wrapping_token;
        let wrapping = spec_require_egld_conversion(listing, payment.token, wegld);
        match spec_nft_info(ctx, listing.auctioned_token_type, listing.auctioned_token_nonce) {
            Ok(info) => {
                let sold = Auction { current_bid: listing.min_bid, current_winner: ctx.caller, ..listing };
                match spec_amount_split(
                    s.bid_cut_percentage,
                    sold.current_bid,
                    sold.creator_royalties_percentage,
                    spec_collection_config(s, sold.auctioned_token_type),
                ) {
                    Ok(d) => {
                        let st = Settlement {
                            payment_token: sold.payment_token_type,
                            payment_nonce: sold.payment_token_nonce,
                            creator: info.creator,
                            original_owner: sold.original_owner,
                            new_owner: ctx.caller,
                            split: d,
                        };
                        lemma_bulk_distribution_keeps_listings(s, ctx, st, wrapping);
                        match spec_distribute_tokens_bulk_buy(s, ctx, st, wrapping) {
                            Ok((s2, _)) => {
                                assert(listings_agree(s2));
                                lemma_quantity_keeps_listings(s2, sold, sold.nr_auctioned_tokens);
                                match spec_update_or_remove_items_quantity(s2, sold, sold.nr_auctioned_tokens) {
                                    Ok(s3) => lemma_remove_agree(s3, auction_id, sold),
                                    Err(_) => {},
                                }
                            },
                            Err(_) => {},
                        }
                    },
                    Err(_) => {},
                }
            },
            Err(_) => {},
        }
    }
}

proof fn lemma_bulk_buy_from_agree(
    s: Store,
    ctx: ChainContext,
    payment: Payment,
    ids: Seq<u64>,
    i: int,
    available: u128,
    fees: u128,
    bought: Seq<EsdtPayment>,
)
    requires
        listings_agree(s),
    ensures
        bulk_agrees_after(spec_bulk_buy_from(s, ctx, payment, ids, i, available, fees, bought)),
    decreases ids.len() - i,
{
    if i >= ids.len() || i < 0 {
        if fees > 0 {
            lemma_transfer_keeps_listings(s, ctx, ctx.owner, payment.token, payment.nonce, fees);
        }
    } else {
        lemma_bulk_buy_one_agree(s, ctx, payment, available, fees, ids[i]);
        match spec_bulk_buy_one(s, ctx, payment, available, fees, ids[i]) {
            Ok((s1, t, available1, fees1, nft)) => {
                let bought1 = match nft {
                    Some(p) => bought.push(p),
                    None => bought,
                };
                lemma_bulk_buy_from_agree(s1, ctx, payment, ids, i + 1, available1, fees1, bought1);
            },
            Err(_) => {},
        }
    }
}

/// `bulkBuy` keeps the listings index and the listing records in agreement.
pub proof fn law_bulk_buy_keeps_listings_agree(s: Store, ctx: ChainContext, ids: Seq<u64>, payment: Payment)
    requires
        listings_agree(s),
    ensures
        bulk_agrees_after(spec_bulk_buy(s, ctx, ids, payment)),
{
    lemma_bulk_buy_from_agree(s, ctx, payment, ids, 0, payment.amount, 0, seq![]);
}

proof fn lemma_gather_listed_from_agree(
    s: Store,
    ctx: ChainContext,
    offer: GlobalOffer,
    seller: Address,
    ids: Seq<u64>,
    i: int,
    g: Gathered,
)
    requires
        listings_agree(s),
    ensures
        match gather_listed_from(s, ctx, offer, seller, ids, i, g) {
            Ok((s1, _)) => listings_agree(s1),
            Err(_) => true,
        },
    decreases ids.len() - i,
{
    if 0 <= i < ids.len() {
        let id = ids[i];
        if s.auction_by_id.contains_key(id) {
            let a = s.auction_by_id[id];
            lemma_quantity_keeps_listings(s, a, a.nr_auctioned_tokens);
            match spec_update_or_remove_items_quantity(s, a, a.nr_auctioned_tokens) {
                Ok(s1) => lemma_remove_agree(s1, id, a),
                Err(_) => {},
            }
        }
        match gather_listed(s, ctx, offer, seller, g, id) {
            Ok((s1, g1)) => lemma_gather_listed_from_agree(s1, ctx, offer, seller, ids, i + 1, g1),
            Err(_) => {},
        }
    }
}

proof fn lemma_global_offer_remove_keeps_listings(s: Store, ctx: ChainContext, offer: GlobalOffer, return_offer: bool)
    ensures
        keeps_listings(s, spec_common_global_offer_remove(s, ctx, offer, return_offer)),
{
    if return_offer && !offer.new_version {
        lemma_transfer_keeps_listings(s, ctx, offer.owner, offer.payment_token, offer.payment_nonce, offer.price);
    }
}

/// `acceptGlobalOffer` keeps the listings index and the listing records in agreement.
pub proof fn law_accept_global_offer_keeps_listings_agree(
    s: Store,
    ctx: ChainContext,
    offer_id: u64,
    auction_ids: Option<Seq<u64>>,
    signature: Option<BufferId>,
    nfts: Seq<EsdtPayment>,
)
    requires
        listings_agree(s),
    ensures
        agrees_after(spec_accept_global_offer(s, ctx, offer_id, auction_ids, signature, nfts)),
{
    if s.status && s.global_offer.contains_key(offer_id) {
        let offer = s.global_offer[offer_id];
        let ids = match auction_ids {
            Some(v) => v,
            None => seq![],
        };
        let g0: Gathered = (seq![], seq![], empty_nft_data(offer.collection, 0), 0);
        match gather_sent_from(ctx, offer, nfts, 0, g0) {
            Ok(g1) => {
                lemma_gather_listed_from_agree(s, ctx, offer, ctx.caller, ids, 0, g1);
                match gather_listed_from(s, ctx, offer, ctx.caller, ids, 0, g1) {
                    Ok((s1, g2)) => {
                        let total = g2.3;
                        if offer.quantity >= total && offer.price * total <= u128::MAX {
                            let cost = (offer.price * total) as u128;
                            let paid = if offer.new_version {
                                spec_has_balance_and_deduct(s1, offer.owner, offer.payment_token, offer.payment_nonce, cost)
                            } else {
                                Ok((s1, seq![]))
                            };
                            match paid {
                                Ok((s2, _)) => {
                                    assert(listings_agree(s2));
                                    lemma_global_offer_remove_keeps_listings(s2, ctx, offer, false);
                                    match spec_common_global_offer_remove(s2, ctx, offer, false) {
                                        Ok((s3, _)) => {
                                            assert(listings_agree(s3));
                                            match spec_amount_split(
                                                s3.bid_cut_percentage,
                                                cost,
                                                g2.2.royalties,
                                                spec_collection_config(s3, offer.collection),
                                            ) {
                                                Ok(d) => {
                                                    let st = Settlement {
                                                        payment_token: offer.payment_token,
                                                        payment_nonce: offer.payment_nonce,
                                                        creator: g2.2.creator,
                                                        original_owner: ctx.caller,
                                                        new_owner: offer.owner,
                                                        split: d,
                                                    };
                                                    lemma_distribution_keeps_records(s3, ctx, g2.1, st, false);
                                                    match spec_distribute_tokens_common(s3, ctx, g2.1, st, false) {
                                                        Ok((s4, _)) => lemma_same_records_agree(s3, s4),
                                                        Err(_) => {},
                                                    }
                                                },
                                                Err(_) => {},
                                            }
                                        },
                                        Err(_) => {},
                                    }
                                },
                                Err(_) => {},
                            }
                        }
                    },
                    Err(_) => {},
                }
            },
            Err(_) => {},
        }
    }
}

/// `listing` of the single-listing contract keeps the listings index and the
/// listing records in agreement.
pub proof fn law_esdt_listing_keeps_listings_agree(
    s: Store,
    ctx: ChainContext,
    payment: EsdtPayment,
    min_bid: u128,
    max_bid: u128,
    deadline: u64,
    accepted_payment_token: PaymentToken,
    bid: bool,
    opt_sft_max_one_per_payment: Option<bool>,
    opt_start_time: Option<u64>,
)
    requires
        listings_agree(s),
    ensures
        match spec_esdt_listing(
            s,
            ctx,
            payment,
            min_bid,
            max_bid,
            deadline,
            accepted_payment_token,
            bid,
            opt_sft_max_one_per_payment,
            opt_start_time,
        ) {
            Ok((s1, _, _)) => listings_agree(s1),
            Err(_) => true,
        },
{
    let id = (s.last_valid_auction_id + 1) as u64;
    lemma_seq_with_no_dup(s.listings, id);
    match spec_esdt_listing(
        s,
        ctx,
        payment,
        min_bid,
        max_bid,
        deadline,
        accepted_payment_token,
        bid,
        opt_sft_max_one_per_payment,
        opt_start_time,
    ) {
        Ok((s1, _, _)) => {
            assert forall|x: u64| s1.listings.contains(x) <==> s1.auction_by_id.contains_key(x) by {
                if x != id {
                    assert(s1.auction_by_id.contains_key(x) <==> s.auction_by_id.contains_key(x));
                }
            }
        },
        Err(_) => {},
    }
}

/// `bid` of the single-listing contract keeps the listings index and the
/// listing records in agreement.
pub proof fn law_esdt_bid_keeps_listings_agree(
    s: Store,
    ctx: ChainContext,
    auction_id: u64,
    nft_type: TokenId,
    nft_nonce: u64,
    payment: Payment,
)
    requires
        listings_agree(s),
    ensures
        agrees_after(spec_esdt_bid(s, ctx, auction_id, nft_type, nft_nonce, payment)),
{
    if s.auction_by_id.contains_key(auction_id) {
        let a = s.auction_by_id[auction_id];
        match spec_refund_previous_bid(s, ctx, auction_id, a, payment.amount) {
            Ok((s2, t1)) => {
                if a.current_winner != ZERO_ADDRESS {
                    lemma_transfer_or_save_keeps_records(
                        s,
                        ctx,
                        a.current_winner,
                        a.payment_token_type,
                        a.payment_token_nonce,
                        a.current_bid,
                    );
                }
                let new_auction = Auction { current_bid: payment.amount, current_winner: ctx.caller, ..a };
                let s3 = Store {
                    auction_by_id: s2.auction_by_id.insert(auction_id, new_auction),
                    listings_bids: with_set(
                        s2.listings_bids,
                        ctx.caller,
                        seq_with(set_at(s2.listings_bids, ctx.caller), auction_id),
                    ),
                    ..s2
                };
                assert forall|id: u64| s3.listings.contains(id) <==> s3.auction_by_id.contains_key(id) by {
                    assert(s3.auction_by_id.contains_key(id) <==> s.auction_by_id.contains_key(id));
                }
                lemma_end_auction_common_agree(s3, ctx, auction_id, new_auction);
                let rest = if reaches_max_bid(a, payment.amount) {
                    spec_end_auction_common(s3, ctx, auction_id, new_auction)
                } else {
                    Ok((s3, seq![Action::Event(Event::Bid { auction_id, auction: new_auction })]))
                };
                lemma_prefixed_agree(t1, rest);
            },
            Err(_) => {},
        }
    }
}

/// `endAuction` of the single-listing contract keeps the listings index and
/// the listing records in agreement.
pub proof fn law_esdt_end_auction_keeps_listings_agree(s: Store, ctx: ChainContext, auction_id: u64)
    requires
        listings_agree(s),
    ensures
        agrees_after(spec_esdt_end_auction(s, ctx, auction_id)),
{
    if s.auction_by_id.contains_key(auction_id) {
        lemma_end_auction_common_agree(s, ctx, auction_id, s.auction_by_id[auction_id]);
    }
}

/// `buy` of the single-listing contract keeps the listings index and the
/// listing records in agreement.
pub proof fn law_esdt_buy_keeps_listings_agree(
    s: Store,
    ctx: ChainContext,
    auction_id: u64,
    nft_type: TokenId,
    nft_nonce: u64,
    opt_sft_buy_amount: Option<u128>,
    buy_for: Option<Address>,
    message: Option<BufferId>,
    payment: Payment,
)
    requires
        listings_agree(s),
    ensures
        agrees_after(
            spec_esdt_common_buy(s, ctx, auction_id, nft_type, nft_nonce, opt_sft_buy_amount, buy_for, message, payment),
        ),
{
    if s.status && s.auction_by_id.contains_key(auction_id) {
        let auction = s.auction_by_id[auction_id];
        let buy_amount = match opt_sft_buy_amount {
            Some(a) => a,
            None => NFT_AMOUNT as u128,
        };
        let buyer = match buy_for {
            Some(b) => b,
            None => ctx.caller,
        };
        let sold = Auction { current_winner: buyer, current_bid: payment.amount, payment_token_nonce: payment.nonce, ..auction };
        lemma_distribute_agree(s, ctx, sold, Some(buy_amount), false);
        match spec_distribute_tokens(s, ctx, sold, Some(buy_amount), false) {
            Ok((s1, _)) => {
                if buy_amount <= auction.nr_auctioned_tokens {
                    let left = Auction {
                        nr_auctioned_tokens: (auction.nr_auctioned_tokens - buy_amount) as u128,
                        payment_token_nonce: auction.payment_token_nonce,
                        ..sold
                    };
                    let s2 = if left.nr_auctioned_tokens == 0 {
                        spec_remove_auction_common(s1, auction_id, left)
                    } else {
                        Store { auction_by_id: s1.auction_by_id.insert(auction_id, left), ..s1 }
                    };
                    if left.nr_auctioned_tokens == 0 {
                        lemma_remove_agree(s1, auction_id, left);
                    } else {
                        lemma_distribute_tokens_keeps_records(s, ctx, sold, Some(buy_amount), false);
                        assert forall|id: u64| s2.listings.contains(id) <==> s2.auction_by_id.contains_key(id) by {
                            assert(s2.auction_by_id.contains_key(id) <==> s1.auction_by_id.contains_key(id));
                        }
                    }
                    lemma_quantity_keeps_listings(s2, left, buy_amount);
                }
            },
            Err(_) => {},
        }
    }
}

/// `withdraw` of the single-listing contract keeps the listings index and the
/// listing records in agreement.
pub proof fn law_esdt_withdraw_keeps_listings_agree(s: Store, ctx: ChainContext, auction_id: u64)
    requires
        listings_agree(s),
    ensures
        agrees_after(spec_esdt_withdraw(s, ctx, auction_id)),
{
    if s.auction_by_id.contains_key(auction_id) {
        lemma_withdraw_common_agree(s, ctx, auction_id, s.auction_by_id[auction_id]);
    }
}

/// `changePrice` of the single-listing contract keeps the listings index and
/// the listing records in agreement.
pub proof fn law_esdt_change_price_keeps_listings_agree(s: Store, ctx: ChainContext, auction_id: u64, new_price: u128)
    requires
        listings_agree(s),
    ensures
        agrees_after(spec_esdt_change_price(s, ctx, auction_id, new_price)),
{
    match spec_esdt_change_price(s, ctx, auction_id, new_price) {
        Ok((s1, _)) => {
            assert forall|id: u64| s1.listings.contains(id) <==> s1.auction_by_id.contains_key(id) by {
                assert(s1.auction_by_id.contains_key(id) <==> s.auction_by_id.contains_key(id));
            }
        },
        Err(_) => {},
    }
}

/// `bulkBuy` of the single-listing contract leaves the listings index and the
/// listing records as they were.
pub proof fn law_esdt_bulk_buy_keeps_listings(s: Store, ctx: ChainContext, payment: Payment, ids: Seq<u64>)
    ensures
        keeps_listings(s, spec_esdt_bulk_buy(s, ctx, payment, ids)),
{
}

/// The offer and deposit endpoints leave the listings index and the listing
/// records as they were.
pub proof fn law_offers_and_deposits_keep_listings(
    s: Store,
    ctx: ChainContext,
    offer_id: u64,
    auction_id: Option<u64>,
    payment: Payment,
    token: PaymentToken,
    nonce: u64,
    amount: u128,
)
    ensures
        keeps_listings(s, spec_decline_offer(s, ctx, offer_id, auction_id, payment)),
        keeps_listings(s, spec_withdraw_offer(s, ctx, offer_id)),
        keeps_listings(s, spec_withdraw_global_offer(s, ctx, offer_id)),
        keeps_listings(s, spec_deposit(s, ctx, payment)),
        keeps_listings(s, spec_withdraw_deposit(s, ctx, token, nonce, amount)),
{
    if s.global_offer.contains_key(offer_id) {
        let offer = s.global_offer[offer_id];
        lemma_transfer_keeps_listings(s, ctx, offer.owner, offer.payment_token, offer.payment_nonce, offer.price);
        lemma_global_offer_remove_keeps_listings(s, ctx, offer, true);
    }
}

/// Sending an offer or a global offer leaves the listings index and the
/// listing records as they were.
pub proof fn law_send_offers_keep_listings(
    s: Store,
    ctx: ChainContext,
    payment: Payment,
    payment_token: PaymentToken,
    payment_nonce: u64,
    price: u128,
    nft_type: TokenId,
    nft_nonce: u64,
    quantity: u128,
    deadline: u64,
    attributes: Option<BufferId>,
)
    ensures
        match spec_send_offer(s, ctx, payment, payment_token, payment_nonce, price, nft_type, nft_nonce, quantity, deadline) {
            Ok((s1, _, _)) => s1.listings == s.listings && s1.auction_by_id == s.auction_by_id,
            Err(_) => true,
        },
        match spec_send_global_offer(s, ctx, payment, payment_token, payment_nonce, price, nft_type, quantity, attributes) {
            Ok((s1, _, _)) => s1.listings == s.listings && s1.auction_by_id == s.auction_by_id,
            Err(_) => true,
        },
{
}

} // verus!
