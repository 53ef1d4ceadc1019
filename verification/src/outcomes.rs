//! What the main operations produce, stated over their inputs: the fee split
//! of a sale, the price of a purchase, the listing a request creates, the
//! best bid a bid leaves, how deposits move, and what a global offer keeps
//! after a partial fill.
use vstd::prelude::*;

use crate::auction::{
    Address, Auction, BufferId, BulkListing, CollectionFeeConfig, EsdtPayment, GlobalOffer, Payment, PaymentToken,
    TokenAmount, TokenId, NFT_AMOUNT, ZERO_ADDRESS,
};
use crate::collections::{seq_with, set_at, with_set};
use crate::common::{
    spec_common_buy, spec_common_global_offer_remove, spec_remove_auction_common,
    spec_update_or_remove_items_quantity, Settlement,
};
use crate::helpers::{spec_amount_split, spec_collection_config};
use crate::init::{spec_bid, spec_listing, spec_listing_from, spec_listing_one, spec_refund_previous_bid};
use crate::laws::{
    lemma_distribute_tokens_keeps_records, lemma_distribution_keeps_records, lemma_transfer_or_save_keeps_records,
};
use crate::marketplace_main::{spec_esdt_bid, spec_esdt_common_buy, spec_esdt_listing};
use crate::offers::{
    gather_listed, gather_listed_from, gather_sent, gather_sent_from, spec_accept_global_offer, Gathered,
};
use crate::pools::{deposit_of, spec_deposit, spec_has_balance_and_deduct, spec_withdraw_deposit};
use crate::storage::{empty_nft_data, ChainContext, Store};

verus! {

/// The royalty rate a sale applies: the token's own rate, or, when the
/// collection sets custom royalties, that rate brought within the
/// collection's bounds (down to the maximum when above it, up to the minimum
/// when below it).
pub open spec fn applied_royalties(royalties: u128, config: Option<CollectionFeeConfig>) -> int {
    match config {
        Some(c) => if c.custom_royalties && royalties > c.max_royalties {
            c.max_royalties as int
        } else if c.custom_royalties && royalties < c.min_royalties {
            c.min_royalties as int
        } else {
            royalties as int
        },
        None => royalties as int,
    }
}

/// A sale at `price` pays the creator `price * rate / 10000` at the applied
/// royalty rate, the marketplace `price * fees / 10000`, and the seller the
/// rest after the extra fee.
pub proof fn law_split_shares(fees: u128, price: u128, royalties: u128, config: Option<CollectionFeeConfig>)
    ensures
        match spec_amount_split(fees, price, royalties, config) {
            Ok(d) => d.creator == (price as int * applied_royalties(royalties, config)) / 10000
                && d.marketplace == (price as int * fees as int) / 10000
                && d.seller == price - d.creator - d.marketplace - d.extra,
            Err(_) => true,
        },
{
    crate::laws::lemma_split_adds_up(fees, price, royalties, config);
    match spec_amount_split(fees, price, royalties, config) {
        Ok(d) => {
            let e = crate::helpers::eligible_royalties(royalties, config);
            assert(e as int == applied_royalties(royalties, config));
            let p = price as int;
            assert(0 <= (p * e) / 10000 <= p) by (nonlinear_arith)
                requires
                    0 <= e < 10000,
                    p >= 0,
            ;
            assert(0 <= (p * fees) / 10000 <= p) by (nonlinear_arith)
                requires
                    0 <= fees < 10000,
                    p >= 0,
            ;
        },
        Err(_) => {},
    }
}

/// A purchase paid directly goes through only when the amount paid is the
/// number of units bought (one when none is named) times the listing's price
/// per unit; the same holds in the single-listing contract.
pub proof fn law_direct_purchase_pays_units_times_price(
    s: Store,
    ctx: ChainContext,
    auction_id: u64,
    nft_type: TokenId,
    nft_nonce: u64,
    opt_sft_buy_amount: Option<u128>,
    buy_for: Option<Address>,
    message: Option<BufferId>,
    limits: Option<Seq<TokenAmount>>,
    payment: Payment,
)
    ensures
        spec_common_buy(s, ctx, auction_id, nft_type, nft_nonce, opt_sft_buy_amount, buy_for, message, None, limits, payment)
            is Ok ==> payment.amount == match opt_sft_buy_amount {
            Some(a) => a,
            None => NFT_AMOUNT as u128,
        } * s.auction_by_id[auction_id].min_bid,
        spec_esdt_common_buy(s, ctx, auction_id, nft_type, nft_nonce, opt_sft_buy_amount, buy_for, message, payment)
            is Ok ==> payment.amount == match opt_sft_buy_amount {
            Some(a) => a,
            None => NFT_AMOUNT as u128,
        } * s.auction_by_id[auction_id].min_bid,
{
}

/// The listing `a` is what the request `l`, paid with the tokens `p`, asks
/// for: those tokens, priced as asked, opening at the requested start time
/// (at once when none is given), owned by the caller and not yet bid on.
pub open spec fn listed_as(a: Auction, ctx: ChainContext, p: EsdtPayment, l: BulkListing) -> bool {
    &&& a.auctioned_token_type == p.token
    &&& a.auctioned_token_nonce == p.nonce
    &&& a.nr_auctioned_tokens == p.amount
    &&& a.payment_token_type == l.accepted_payment_token
    &&& a.min_bid == l.min_bid
    &&& (l.max_bid > 0 ==> a.max_bid == Some(l.max_bid))
    &&& (l.max_bid == 0 ==> a.max_bid is None)
    &&& a.deadline == l.deadline
    &&& (l.opt_start_time != 0 ==> a.start_time == l.opt_start_time)
    &&& (l.opt_start_time == 0 ==> a.start_time == ctx.timestamp)
    &&& a.original_owner == ctx.caller
    &&& a.current_winner == ZERO_ADDRESS
    &&& a.current_bid == 0
}

/// The listings `m` hold, under `id`, the listing that the request `l`, paid
/// with `p`, asks for.
pub open spec fn stored_as(m: Map<u64, Auction>, id: u64, ctx: ChainContext, p: EsdtPayment, l: BulkListing) -> bool {
    m.contains_key(id) && listed_as(m[id], ctx, p, l)
}

/// The id that the `k`-th of the requests after the last id `last` gets.
pub open spec fn nth_id(last: u64, k: int) -> u64 {
    (last + 1 + k) as u64
}

proof fn lemma_listing_from_creates(
    s: Store,
    ctx: ChainContext,
    payments: Seq<EsdtPayment>,
    listings: Seq<BulkListing>,
    i: int,
)
    requires
        0 <= i <= listings.len(),
        payments.len() == listings.len(),
    ensures
        match spec_listing_from(s, ctx, payments, listings, i) {
            Ok((s1, _)) => {
                &&& s1.last_valid_auction_id == s.last_valid_auction_id + (listings.len() - i)
                &&& forall|k: u64| k <= s.last_valid_auction_id ==> (#[trigger] s1.auction_by_id.contains_key(k)
                    == s.auction_by_id.contains_key(k) && (s.auction_by_id.contains_key(k)
                    ==> s1.auction_by_id[k] == s.auction_by_id[k]))
                &&& forall|j: int|
                    #![trigger listings[j]]
                    i <= j < listings.len() ==> stored_as(s1.auction_by_id, nth_id(s.last_valid_auction_id, j - i), ctx, payments[j], listings[j])
            },
            Err(_) => true,
        },
    decreases listings.len() - i,
{
    if i < listings.len() {
        match spec_listing_one(s, ctx, payments[i], listings[i]) {
            Ok((s1, a)) => {
                let id = (s.last_valid_auction_id + 1) as u64;
                assert(s1.last_valid_auction_id == id);
                assert(s1.auction_by_id == s.auction_by_id.insert(id, s1.auction_by_id[id]));
                assert(listed_as(s1.auction_by_id[id], ctx, payments[i], listings[i]));
                lemma_listing_from_creates(s1, ctx, payments, listings, i + 1);
                match spec_listing_from(s1, ctx, payments, listings, i + 1) {
                    Ok((s2, t2)) => {
                        assert(spec_listing_from(s, ctx, payments, listings, i)
                            == Ok::<(Store, Seq<crate::events::Action>), crate::errors::MarketError>((s2, a + t2)));
                        assert forall|k: u64| k <= s.last_valid_auction_id implies (#[trigger] s2.auction_by_id.contains_key(k)
                            == s.auction_by_id.contains_key(k) && (s.auction_by_id.contains_key(k)
                            ==> s2.auction_by_id[k] == s.auction_by_id[k])) by {
                            assert(s2.auction_by_id.contains_key(k) == s1.auction_by_id.contains_key(k));
                        }
                        assert forall|j: int|
                            #![trigger listings[j]]
                            i <= j < listings.len() implies stored_as(s2.auction_by_id, nth_id(s.last_valid_auction_id, j - i), ctx, payments[j], listings[j]) by {
                            if j == i {
                                assert(nth_id(s.last_valid_auction_id, j - i) == id);
                                assert(s1.auction_by_id.contains_key(id));
                                assert(id <= s1.last_valid_auction_id);
                                assert(s2.auction_by_id.contains_key(id) == s1.auction_by_id.contains_key(id));
                                assert(s2.auction_by_id.contains_key(id));
                            } else {
                                assert(nth_id(s.last_valid_auction_id, j - i) == nth_id(s1.last_valid_auction_id, j - (i + 1)));
                                assert(i + 1 <= j < listings.len());
                                assert(listings[j] == listings[j]);
                                assert(stored_as(s2.auction_by_id, nth_id(s1.last_valid_auction_id, j - (i + 1)), ctx, payments[j], listings[j]));
                            }
                        }
                    },
                    Err(_) => {},
                }
            },
            Err(_) => {},
        }
    }
}

/// `listing` stores the `j`-th request under the `j`-th id after the last id
/// given before the call, as that request asks for it (see `listed_as`); the
/// last id given moves on by the number of requests.
pub proof fn law_listing_creates_what_is_asked(
    s: Store,
    ctx: ChainContext,
    payments: Seq<EsdtPayment>,
    listings: Seq<BulkListing>,
)
    ensures
        match spec_listing(s, ctx, payments, listings) {
            Ok((s1, _)) => {
                &&& s1.last_valid_auction_id == s.last_valid_auction_id + listings.len()
                &&& forall|j: int|
                    #![trigger listings[j]]
                    0 <= j < listings.len() ==> stored_as(s1.auction_by_id, nth_id(s.last_valid_auction_id, j), ctx, payments[j], listings[j])
            },
            Err(_) => true,
        },
{
    if s.status && listings.len() == payments.len() {
        lemma_listing_from_creates(s, ctx, payments, listings, 0);
        match spec_listing(s, ctx, payments, listings) {
            Ok((s1, _)) => {
                assert forall|j: int|
                    #![trigger listings[j]]
                    0 <= j < listings.len() implies stored_as(s1.auction_by_id, nth_id(s.last_valid_auction_id, j), ctx, payments[j], listings[j]) by {
                    assert(j - 0 == j);
                }
            },
            Err(_) => {},
        }
    }
}

/// The number of tokens the payments from position `i` on carry.
pub open spec fn amounts_from(nfts: Seq<EsdtPayment>, i: int) -> int
    decreases nfts.len() - i,
{
    if i >= nfts.len() || i < 0 {
        0
    } else {
        nfts[i].amount + amounts_from(nfts, i + 1)
    }
}

proof fn lemma_gather_sent_counts(ctx: ChainContext, offer: GlobalOffer, nfts: Seq<EsdtPayment>, i: int, g: Gathered)
    requires
        0 <= i,
    ensures
        match gather_sent_from(ctx, offer, nfts, i, g) {
            Ok(g1) => g1.3 == g.3 + amounts_from(nfts, i),
            Err(_) => true,
        },
    decreases nfts.len() - i,
{
    if i < nfts.len() {
        match gather_sent(ctx, offer, g, nfts[i]) {
            Ok(g1) => lemma_gather_sent_counts(ctx, offer, nfts, i + 1, g1),
            Err(_) => {},
        }
    }
}

proof fn lemma_gather_listed_counts(
    s: Store,
    ctx: ChainContext,
    offer: GlobalOffer,
    seller: Address,
    ids: Seq<u64>,
    i: int,
    g: Gathered,
)
    requires
        0 <= i <= ids.len(),
    ensures
        match gather_listed_from(s, ctx, offer, seller, ids, i, g) {
            Ok((s1, g1)) => g1.3 == g.3 + (ids.len() - i) && s1.global_offer == s.global_offer
                && s1.whitelisted_contracts == s.whitelisted_contracts,
            Err(_) => true,
        },
    decreases ids.len() - i,
{
    if i < ids.len() {
        match gather_listed(s, ctx, offer, seller, g, ids[i]) {
            Ok((s1, g1)) => lemma_gather_listed_counts(s1, ctx, offer, seller, ids, i + 1, g1),
            Err(_) => {},
        }
    }
}

/// Accepting a global offer takes off its quantity exactly the NFTs it
/// receives: those sent with the call (by their amounts) and one per listing
/// named.  It never takes more than the offer asks for; when it takes less,
/// the offer stays on record, unchanged but for its quantity, which is what is
/// left; when it takes all, the offer is no longer on record.  (The offer is
/// recorded under the id it carries, as every global offer is.)
pub proof fn law_global_offer_keeps_what_is_left(
    s: Store,
    ctx: ChainContext,
    offer_id: u64,
    auction_ids: Option<Seq<u64>>,
    signature: Option<BufferId>,
    nfts: Seq<EsdtPayment>,
)
    requires
        s.global_offer.contains_key(offer_id) ==> s.global_offer[offer_id].offer_id == offer_id,
    ensures
        match spec_accept_global_offer(s, ctx, offer_id, auction_ids, signature, nfts) {
            Ok((s1, _)) => {
                let offer = s.global_offer[offer_id];
                let delivered = amounts_from(nfts, 0) + match auction_ids {
                    Some(ids) => ids.len() as int,
                    None => 0,
                };
                &&& delivered <= offer.quantity
                &&& delivered < offer.quantity ==> s1.global_offer.contains_key(offer_id)
                    && s1.global_offer[offer_id] == (GlobalOffer { quantity: (offer.quantity - delivered) as u128, ..offer })
                &&& delivered == offer.quantity ==> !s1.global_offer.contains_key(offer_id)
            },
            Err(_) => true,
        },
{
    if s.status && s.global_offer.contains_key(offer_id) {
        let offer = s.global_offer[offer_id];
        let ids = match auction_ids {
            Some(v) => v,
            None => seq![],
        };
        let g0: Gathered = (seq![], seq![], empty_nft_data(offer.collection, 0), 0);
        lemma_gather_sent_counts(ctx, offer, nfts, 0, g0);
        match gather_sent_from(ctx, offer, nfts, 0, g0) {
            Ok(g1) => {
                lemma_gather_listed_counts(s, ctx, offer, ctx.caller, ids, 0, g1);
                match gather_listed_from(s, ctx, offer, ctx.caller, ids, 0, g1) {
                    Ok((s1, g2)) => {
                        let total = g2.3;
                        if offer.quantity >= total && offer.price * total <= u128::MAX {
                            let cost = (offer.price * total) as u128;
                            let paid = if offer.new_version {
                                spec_has_balance_and_deduct(s1, offer.owner, offer.payment_token, offer.payment_nonce, cost)
                            } else {
                                Ok((s1, seq![]))
                            };
                            match paid {
                                Ok((s2, _)) => {
                                    assert(s2.global_offer == s.global_offer);
                                    match spec_common_global_offer_remove(s2, ctx, offer, false) {
                                        Ok((s3, _)) => {
                                            assert(s3.global_offer == s.global_offer.remove(offer_id));
                                            match spec_amount_split(
                                                s3.bid_cut_percentage,
                                                cost,
                                                g2.2.royalties,
                                                spec_collection_config(s3, offer.collection),
                                            ) {
                                                Ok(d) => {
                                                    let st = Settlement {
                                                        payment_token: offer.payment_token,
                                                        payment_nonce: offer.payment_nonce,
                                                        creator: g2.2.creator,
                                                        original_owner: ctx.caller,
                                                        new_owner: offer.owner,
                                                        split: d,
                                                    };
                                                    lemma_distribution_keeps_records(s3, ctx, g2.1, st, false);
                                                },
                                                Err(_) => {},
                                            }
                                        },
                                        Err(_) => {},
                                    }
                                },
                                Err(_) => {},
                            }
                        }
                    },
                    Err(_) => {},
                }
            },
            Err(_) => {},
        }
    }
}

/// `listing` in the single-listing contract stores, under the id it answers,
/// the tokens sent, priced as asked, opening at the requested start time (at
/// once when none is given), owned by the caller and not yet bid on.
pub proof fn law_single_listing_creates_what_is_asked(
    s: Store,
    ctx: ChainContext,
    payment: EsdtPayment,
    min_bid: u128,
    max_bid: u128,
    deadline: u64,
    accepted_payment_token: PaymentToken,
    bid: bool,
    opt_sft_max_one_per_payment: Option<bool>,
    opt_start_time: Option<u64>,
)
    ensures
        match spec_esdt_listing(
            s,
            ctx,
            payment,
            min_bid,
            max_bid,
            deadline,
            accepted_payment_token,
            bid,
            opt_sft_max_one_per_payment,
            opt_start_time,
        ) {
            Ok((s1, _, id)) => {
                let a = s1.auction_by_id[id];
                &&& s1.auction_by_id.contains_key(id)
                &&& a.auctioned_token_type == payment.token
                &&& a.auctioned_token_nonce == payment.nonce
                &&& a.nr_auctioned_tokens == payment.amount
                &&& a.payment_token_type == accepted_payment_token
                &&& a.min_bid == min_bid
                &&& (max_bid > 0 ==> a.max_bid == Some(max_bid))
                &&& (max_bid == 0 ==> a.max_bid is None)
                &&& a.deadline == deadline
                &&& a.start_time == match opt_start_time {
                    Some(t) => t,
                    None => ctx.timestamp,
                }
                &&& a.original_owner == ctx.caller
                &&& a.current_winner == ZERO_ADDRESS
                &&& a.current_bid == 0
            },
            Err(_) => true,
        },
{
}

/// A bid below the listing's maximum becomes the best bid: the listing keeps
/// everything but its best bid, now the amount paid, and its best bidder, now
/// the caller.  A bid at the maximum ends the listing, which is then gone.
/// The same holds in the single-listing contract.
pub proof fn law_bid_becomes_the_best_bid(
    s: Store,
    ctx: ChainContext,
    auction_id: u64,
    nft_type: TokenId,
    nft_nonce: u64,
    payment: Payment,
)
    ensures
        match spec_bid(s, ctx, auction_id, nft_type, nft_nonce, payment) {
            Ok((s1, _)) => bid_outcome(s, s1, ctx, auction_id, payment),
            Err(_) => true,
        },
        match spec_esdt_bid(s, ctx, auction_id, nft_type, nft_nonce, payment) {
            Ok((s1, _)) => bid_outcome(s, s1, ctx, auction_id, payment),
            Err(_) => true,
        },
{
    if s.auction_by_id.contains_key(auction_id) {
        let a = s.auction_by_id[auction_id];
        match spec_refund_previous_bid(s, ctx, auction_id, a, payment.amount) {
            Ok((s2, _)) => {
                if a.current_winner != ZERO_ADDRESS {
                    lemma_transfer_or_save_keeps_records(
                        s,
                        ctx,
                        a.current_winner,
                        a.payment_token_type,
                        a.payment_token_nonce,
                        a.current_bid,
                    );
                }
                assert(s2.auction_by_id == s.auction_by_id);
                let new_auction = Auction { current_bid: payment.amount, current_winner: ctx.caller, ..a };
                let s3 = Store {
                    auction_by_id: s2.auction_by_id.insert(auction_id, new_auction),
                    listings_bids: with_set(
                        s2.listings_bids,
                        ctx.caller,
                        seq_with(set_at(s2.listings_bids, ctx.caller), auction_id),
                    ),
                    ..s2
                };
                match spec_update_or_remove_items_quantity(s3, new_auction, new_auction.nr_auctioned_tokens) {
                    Ok(s4) => {
                        let s5 = spec_remove_auction_common(s4, auction_id, new_auction);
                        lemma_distribute_tokens_keeps_records(
                            s5,
                            ctx,
                            new_auction,
                            Some(new_auction.nr_auctioned_tokens),
                            false,
                        );
                    },
                    Err(_) => {},
                }
            },
            Err(_) => {},
        }
    }
}

/// What a bid leaves of listing `auction_id` (see `law_bid_becomes_the_best_bid`).
pub open spec fn bid_outcome(s: Store, s1: Store, ctx: ChainContext, auction_id: u64, payment: Payment) -> bool {
    let a = s.auction_by_id[auction_id];
    &&& a.max_bid == Some(payment.amount) ==> !s1.auction_by_id.contains_key(auction_id)
    &&& a.max_bid != Some(payment.amount) ==> s1.auction_by_id.contains_key(auction_id)
        && s1.auction_by_id[auction_id] == (Auction { current_bid: payment.amount, current_winner: ctx.caller, ..a })
}

/// A deposit adds the amount paid to the caller's deposit in that token and
/// touches no other deposit; a withdrawal takes the amount asked off it (when
/// there is one) and touches no other.
pub proof fn law_deposits_move_by_the_amount(
    s: Store,
    ctx: ChainContext,
    payment: Payment,
    token: PaymentToken,
    nonce: u64,
    amount: u128,
)
    ensures
        match spec_deposit(s, ctx, payment) {
            Ok((s1, _)) => deposit_of(s1, ctx.caller, payment.token, payment.nonce) == deposit_of(
                s,
                ctx.caller,
                payment.token,
                payment.nonce,
            ) + payment.amount && forall|u: Address, t: PaymentToken, n: u64|
                (u, t, n) != (ctx.caller, payment.token, payment.nonce) ==> #[trigger] deposit_of(s1, u, t, n)
                    == deposit_of(s, u, t, n),
            Err(_) => true,
        },
        match spec_withdraw_deposit(s, ctx, token, nonce, amount) {
            Ok((s1, _)) => (deposit_of(s, ctx.caller, token, nonce) > 0 ==> deposit_of(s1, ctx.caller, token, nonce)
                == deposit_of(s, ctx.caller, token, nonce) - amount) && forall|u: Address, t: PaymentToken, n: u64|
                (u, t, n) != (ctx.caller, token, nonce) ==> #[trigger] deposit_of(s1, u, t, n) == deposit_of(s, u, t, n),
            Err(_) => true,
        },
{
}

} // verus!
