//! Properties of the marketplace that span several of its functions.
use vstd::prelude::*;

use crate::auction::{
    Address, Auction, BufferId, CollectionFeeConfig, EsdtPayment, Offer, OfferStatus, Payment, PaymentToken, TokenId, PERCENTAGE_TOTAL,
    ZERO_ADDRESS,
};
use crate::collections::{amount_at, seq_swap_without, seq_with, set_at, with_amount, with_set};
use crate::common::{
    conversion_actions, pays_extra, royalties_receiver, spec_common_offer_remove, spec_distribute_tokens_common,
    spec_send_nfts, spec_send_nfts_from, spec_share_marketplace_fees, Settlement, spec_common_buy, spec_end_auction_common, spec_require_egld_conversion, split_total,
};
use crate::errors::MarketError;
use crate::events::{transfer, Action, Event};
use crate::helpers::{
    cut_amount, extra_fee_of, eligible_royalties, spec_amount_split, spec_collection_config, spec_nft_info,
    spec_transfer_or_save,
};
use crate::init::{reaches_max_bid, spec_bid, spec_refund_previous_bid};
use crate::marketplace_main::{spec_esdt_listing, spec_esdt_withdraw};
use crate::offers::{spec_send_offer, spec_withdraw_offer, spec_accept_offer, spec_send_global_offer, spec_take_offer_listing, spec_withdraw_global_offer};
use crate::pools::{deposit_event, deposit_of, spec_deposit, spec_has_balance_and_deduct, spec_withdraw_deposit};
use crate::storage::{is_smart_contract, ChainContext, Marketplace, StorageModule, Store};

verus! {

/// The shares of a sale add up to its price: creator royalties, marketplace
/// fee, extra fee and the seller's part together are exactly the price, and
/// each share is at most the price.
pub proof fn lemma_split_adds_up(
    fees: u128,
    price: u128,
    royalties: u128,
    config: Option<CollectionFeeConfig>,
)
    ensures
        match spec_amount_split(fees, price, royalties, config) {
            Ok(d) => split_total(d) == price && d.creator <= price && d.marketplace <= price
                && d.extra <= price && d.seller <= price,
            Err(_) => true,
        },
{
    match spec_amount_split(fees, price, royalties, config) {
        Ok(d) => {
            let p = price as int;
            let e = eligible_royalties(royalties, config) as int;
            let x = extra_fee_of(config) as int;
            let f = fees as int;
            assert(f + e + x < PERCENTAGE_TOTAL);
            assert((p * e) / 10000 + (p * f) / 10000 + (p * x) / 10000 <= p) by (nonlinear_arith)
                requires
                    f + e + x <= 10000,
                    p >= 0,
                    e >= 0,
                    f >= 0,
                    x >= 0,
            {
                assert(p * e + p * f + p * x <= p * 10000);
                assert((p * e) / 10000 + (p * f) / 10000 + (p * x) / 10000 <= (p * e + p * f + p
                    * x) / 10000);
            }
            assert(0 <= (p * e) / 10000) by (nonlinear_arith)
                requires
                    p >= 0,
                    e >= 0,
            ;
            assert(0 <= (p * f) / 10000) by (nonlinear_arith)
                requires
                    p >= 0,
                    f >= 0,
            ;
            assert(0 <= (p * x) / 10000) by (nonlinear_arith)
                requires
                    p >= 0,
                    x >= 0,
            ;
            assert(cut_amount(price, eligible_royalties(royalties, config)) == (p * e) / 10000);
            assert(cut_amount(price, fees) == (p * f) / 10000);
        },
        Err(_) => {},
    }
}

/// A listing gets the next id: the id answered is one more than the last id
/// given, it becomes the last id given, and the listing is stored under it.
pub proof fn law_listing_takes_next_id(
    s: Store,
    ctx: ChainContext,
    payment: EsdtPayment,
    min_bid: u128,
    max_bid: u128,
    deadline: u64,
    accepted_payment_token: PaymentToken,
    bid: bool,
    opt_sft_max_one_per_payment: Option<bool>,
    opt_start_time: Option<u64>,
)
    ensures
        match spec_esdt_listing(
            s,
            ctx,
            payment,
            min_bid,
            max_bid,
            deadline,
            accepted_payment_token,
            bid,
            opt_sft_max_one_per_payment,
            opt_start_time,
        ) {
            Ok((s1, _, id)) => id == s.last_valid_auction_id + 1 && s1.last_valid_auction_id == id
                && s1.auction_by_id.contains_key(id) && s1.auction_by_id[id].original_owner == ctx.caller
                && s1.auction_by_id[id].nr_auctioned_tokens == payment.amount,
            Err(_) => true,
        },
{
}

/// Withdrawing a listing right after listing it gives the seller back exactly
/// the tokens listed (when the seller is not a contract whose payments are
/// kept for it), and logs the withdrawal.
pub proof fn law_listing_then_withdraw_returns_tokens(
    s: Store,
    ctx: ChainContext,
    payment: EsdtPayment,
    min_bid: u128,
    max_bid: u128,
    deadline: u64,
    accepted_payment_token: PaymentToken,
    bid: bool,
    opt_sft_max_one_per_payment: Option<bool>,
    opt_start_time: Option<u64>,
)
    requires
        !is_smart_contract(ctx, ctx.caller) || s.whitelisted_contracts.contains(ctx.caller),
        !s.freezed_auctions.contains((s.last_valid_auction_id + 1) as u64),
    ensures
        match spec_esdt_listing(
            s,
            ctx,
            payment,
            min_bid,
            max_bid,
            deadline,
            accepted_payment_token,
            bid,
            opt_sft_max_one_per_payment,
            opt_start_time,
        ) {
            Ok((s1, _, id)) => match spec_esdt_withdraw(s1, ctx, id) {
                Ok((_, t)) => t == seq![
                    transfer(ctx.caller, PaymentToken::Esdt(payment.token), payment.nonce, payment.amount),
                    Action::Event(Event::Withdraw { auction_id: id, auction: s1.auction_by_id[id] }),
                ],
                Err(_) => false,
            },
            Err(_) => true,
        },
{
    match spec_esdt_listing(
        s,
        ctx,
        payment,
        min_bid,
        max_bid,
        deadline,
        accepted_payment_token,
        bid,
        opt_sft_max_one_per_payment,
        opt_start_time,
    ) {
        Ok((s1, _, id)) => {
            let key = (payment.token, payment.nonce);
            let q = amount_at(s.token_items_quantity_for_sale, key) + payment.amount;
            assert(amount_at(s1.token_items_quantity_for_sale, key) == q);
            let a = s1.auction_by_id[id];
            assert(a.current_winner == ZERO_ADDRESS);
            assert(s1.whitelisted_contracts == s.whitelisted_contracts);
            assert(s1.freezed_auctions == s.freezed_auctions);
            match spec_esdt_withdraw(s1, ctx, id) {
                Ok((_, t)) => {
                    assert(t =~= seq![
                        transfer(ctx.caller, PaymentToken::Esdt(payment.token), payment.nonce, payment.amount),
                        Action::Event(Event::Withdraw { auction_id: id, auction: a }),
                    ]);
                },
                Err(_) => {},
            }
        },
        Err(_) => {},
    }
}

/// A deposit can be taken back in full: withdrawing what was just deposited
/// sends it back to the depositor and leaves the storage as it was (the
/// deposits holding no zero amount, as the storage keeps them).
pub proof fn law_deposit_then_withdraw(s: Store, ctx: ChainContext, payment: Payment)
    requires
        payment.amount > 0,
        forall|k: (Address, PaymentToken, u64)| #[trigger] s.user_funds.contains_key(k) ==> s.user_funds[k] > 0,
    ensures
        match spec_deposit(s, ctx, payment) {
            Ok((s1, _)) => match spec_withdraw_deposit(s1, ctx, payment.token, payment.nonce, payment.amount) {
                Ok((s2, t)) => s2 == s && t == seq![
                    deposit_event(ctx.caller, payment.token, payment.nonce, deposit_of(s, ctx.caller, payment.token, payment.nonce)),
                    transfer(ctx.caller, payment.token, payment.nonce, payment.amount),
                ],
                Err(_) => false,
            },
            Err(_) => true,
        },
{
    let key = (ctx.caller, payment.token, payment.nonce);
    match spec_deposit(s, ctx, payment) {
        Ok((s1, _)) => {
            let f0 = deposit_of(s, ctx.caller, payment.token, payment.nonce);
            let m2 = with_amount(s1.user_funds, key, f0);
            if f0 == 0 {
                assert(!s.user_funds.contains_key(key));
                assert(m2 =~= s.user_funds);
            } else {
                assert(m2 =~= s.user_funds);
            }
            match spec_withdraw_deposit(s1, ctx, payment.token, payment.nonce, payment.amount) {
                Ok((s2, _)) => {
                    assert(s2.user_funds == m2);
                    assert(s2 =~= s);
                },
                Err(_) => {},
            }
        },
        Err(_) => {},
    }
}

/// A bid that outbids someone gives the previous best bidder their bid back
/// first (when they are not a contract whose payments are kept for it; a
/// zero amount is not sent).
pub proof fn law_outbid_is_refunded(
    s: Store,
    ctx: ChainContext,
    auction_id: u64,
    nft_type: TokenId,
    nft_nonce: u64,
    payment: Payment,
)
    requires
        s.auction_by_id.contains_key(auction_id),
        s.auction_by_id[auction_id].current_winner != ZERO_ADDRESS,
        s.auction_by_id[auction_id].current_bid > 0,
        !is_smart_contract(ctx, s.auction_by_id[auction_id].current_winner)
            || s.whitelisted_contracts.contains(s.auction_by_id[auction_id].current_winner),
    ensures
        match spec_bid(s, ctx, auction_id, nft_type, nft_nonce, payment) {
            Ok((_, t)) => t.len() > 0 && t[0] == transfer(
                s.auction_by_id[auction_id].current_winner,
                s.auction_by_id[auction_id].payment_token_type,
                s.auction_by_id[auction_id].payment_token_nonce,
                s.auction_by_id[auction_id].current_bid,
            ),
            Err(_) => true,
        },
{
    let a = s.auction_by_id[auction_id];
    match spec_bid(s, ctx, auction_id, nft_type, nft_nonce, payment) {
        Ok((_, t)) => {
            let r1 = spec_refund_previous_bid(s, ctx, auction_id, a, payment.amount);
            let (s2, t1) = r1->Ok_0;
            assert(t1[0] == transfer(a.current_winner, a.payment_token_type, a.payment_token_nonce, a.current_bid));
            let wegld = s.wrapping_token;
            let conv = conversion_actions(
                spec_require_egld_conversion(a, payment.token, wegld),
                a.payment_token_type,
                payment.amount as int,
            );
            let new_auction = Auction { current_bid: payment.amount, current_winner: ctx.caller, ..a };
            let s3 = Store {
                auction_by_id: s2.auction_by_id.insert(auction_id, new_auction),
                listings_bids: with_set(
                    s2.listings_bids,
                    ctx.caller,
                    seq_with(set_at(s2.listings_bids, ctx.caller), auction_id),
                ),
                ..s2
            };
            let rest = if reaches_max_bid(a, payment.amount) {
                spec_end_auction_common(s3, ctx, auction_id, new_auction)
            } else {
                Ok((s3, seq![Action::Event(Event::Bid { auction_id, auction: new_auction })]))
            };
            assert(t == t1 + conv + rest->Ok_0.1);
            assert((t1 + conv + rest->Ok_0.1)[0] == t1[0]);
        },
        Err(_) => {},
    }
}

/// A frozen listing takes no bid and no purchase: both are refused as frozen.
pub proof fn law_frozen_listing_refuses(
    s: Store,
    ctx: ChainContext,
    auction_id: u64,
    nft_type: TokenId,
    nft_nonce: u64,
    payment: Payment,
    opt_sft_buy_amount: Option<u128>,
)
    requires
        s.status,
        s.auction_by_id.contains_key(auction_id),
        s.freezed_auctions.contains(auction_id),
    ensures
        spec_bid(s, ctx, auction_id, nft_type, nft_nonce, payment) == Err::<(Store, Seq<Action>), MarketError>(
            MarketError::AuctionFrozen,
        ),
        spec_common_buy(s, ctx, auction_id, nft_type, nft_nonce, opt_sft_buy_amount, None, None, None, None, payment)
            == Err::<(Store, Seq<Action>), MarketError>(MarketError::AuctionFrozen),
{
}

/// Freezing a listing makes it frozen; unfreezing it (the frozen listings
/// holding no id twice) makes it no longer frozen.
pub proof fn law_freeze_unfreeze(frozen: Seq<u64>, auction_id: u64)
    requires
        frozen.no_duplicates(),
    ensures
        seq_with(frozen, auction_id).contains(auction_id),
        !seq_swap_without(seq_with(frozen, auction_id), auction_id).contains(auction_id),
        !seq_swap_without(frozen, auction_id).contains(auction_id),
{
    crate::collections::lemma_seq_with_no_dup(frozen, auction_id);
    crate::collections::lemma_seq_swap_without_no_dup(seq_with(frozen, auction_id), auction_id);
    crate::collections::lemma_seq_swap_without_no_dup(frozen, auction_id);
}

/// `s1` holds the same records as `s`: they differ at most in what is kept
/// for contracts and in the reward balance.
pub open spec fn same_records(s: Store, s1: Store) -> bool {
    s1 == Store {
        claimable_tokens: s1.claimable_tokens,
        claimable_token_nonces: s1.claimable_token_nonces,
        claimable_amount: s1.claimable_amount,
        reward_balance: s1.reward_balance,
        ..s
    }
}

/// A payment, sent or kept for a contract, touches no record.
pub proof fn lemma_transfer_or_save_keeps_records(s: Store, ctx: ChainContext, to: Address, token: PaymentToken, nonce: u64, amount: u128)
    ensures
        match spec_transfer_or_save(s, ctx, to, token, nonce, amount) {
            Ok((s1, _)) => same_records(s, s1),
            Err(_) => true,
        },
{
}

/// Sending NFTs touches no record.
pub proof fn lemma_send_nfts_keeps_records(s: Store, ctx: ChainContext, to: Address, nfts: Seq<EsdtPayment>, i: int)
    ensures
        match spec_send_nfts_from(s, ctx, to, nfts, i) {
            Ok((s1, _)) => same_records(s, s1),
            Err(_) => true,
        },
    decreases nfts.len() - i,
{
    if 0 <= i < nfts.len() {
        let n = nfts[i];
        lemma_transfer_or_save_keeps_records(s, ctx, to, PaymentToken::Esdt(n.token), n.nonce, n.amount);
        match spec_transfer_or_save(s, ctx, to, PaymentToken::Esdt(n.token), n.nonce, n.amount) {
            Ok((s1, _)) => {
                lemma_send_nfts_keeps_records(s1, ctx, to, nfts, i + 1);
            },
            Err(_) => {},
        }
    }
}

/// Sharing the proceeds of a sale touches no record.
pub proof fn lemma_distribution_keeps_records(
    s: Store,
    ctx: ChainContext,
    nfts: Seq<EsdtPayment>,
    st: Settlement,
    wrapping: bool,
)
    ensures
        match spec_distribute_tokens_common(s, ctx, nfts, st, wrapping) {
            Ok((s1, _)) => same_records(s, s1),
            Err(_) => true,
        },
{
    let tp = st.payment_token;
    let np = st.payment_nonce;
    let d = st.split;
    // the extra fee
    let s0 = if pays_extra(d) {
        lemma_transfer_or_save_keeps_records(s, ctx, d.extra_address, tp, np, d.extra);
        match spec_transfer_or_save(s, ctx, d.extra_address, tp, np, d.extra) {
            Ok((s1, _)) => s1,
            Err(_) => s,
        }
    } else {
        s
    };
    // the royalties
    lemma_transfer_or_save_keeps_records(s0, ctx, royalties_receiver(st), tp, np, d.creator);
    let s1 = match spec_transfer_or_save(s0, ctx, royalties_receiver(st), tp, np, d.creator) {
        Ok((x, _)) => x,
        Err(_) => s0,
    };
    // the seller
    lemma_transfer_or_save_keeps_records(s1, ctx, st.original_owner, tp, np, d.seller);
    let s2 = match spec_transfer_or_save(s1, ctx, st.original_owner, tp, np, d.seller) {
        Ok((x, _)) => x,
        Err(_) => s1,
    };
    // the NFTs
    lemma_send_nfts_keeps_records(s2, ctx, st.new_owner, nfts, 0);
    let s3 = match spec_send_nfts(s2, ctx, st.new_owner, nfts) {
        Ok((x, _)) => x,
        Err(_) => s2,
    };
    // the marketplace fee
    let fee = if d.reverse_cut_fee {
        spec_transfer_or_save(s3, ctx, st.new_owner, tp, np, d.marketplace)
    } else {
        spec_share_marketplace_fees(s3, ctx, tp, d.marketplace, np)
    };
    lemma_transfer_or_save_keeps_records(s3, ctx, st.new_owner, tp, np, d.marketplace);
    lemma_transfer_or_save_keeps_records(s3, ctx, ctx.owner, tp, np, d.marketplace);
    let s4 = match fee {
        Ok((x, _)) => x,
        Err(_) => s3,
    };
    // the rewards
    match s4.reward_ticker {
        Some(ticker) => {
            let reward = s4.reward_amount;
            lemma_transfer_or_save_keeps_records(s4, ctx, st.new_owner, ticker, 0, reward);
            match spec_transfer_or_save(s4, ctx, st.new_owner, ticker, 0, reward) {
                Ok((s5, _)) => {
                    lemma_transfer_or_save_keeps_records(s5, ctx, st.original_owner, ticker, 0, reward);
                },
                Err(_) => {},
            }
        },
        None => {},
    }
}

/// An offer is accepted at most once: once accepted it is gone, and a second
/// acceptance is refused as not found.
pub proof fn law_offer_accepted_once(
    s: Store,
    ctx: ChainContext,
    offer_id: u64,
    auction_id: Option<u64>,
    payment: Payment,
    ctx2: ChainContext,
    auction_id2: Option<u64>,
    payment2: Payment,
)
    ensures
        match spec_accept_offer(s, ctx, offer_id, auction_id, payment) {
            Ok((s1, _)) => !s1.offer_by_id.contains_key(offer_id)
                && spec_accept_offer(s1, ctx2, offer_id, auction_id2, payment2)
                    == Err::<(Store, Seq<Action>), MarketError>(MarketError::OfferNotFound),
            Err(_) => true,
        },
{
    match spec_accept_offer(s, ctx, offer_id, auction_id, payment) {
        Ok((s1, _)) => {
            let offer = s.offer_by_id[offer_id];
            let paid = if offer.new_version {
                spec_has_balance_and_deduct(s, offer.offer_owner, offer.payment_token_type, offer.payment_token_nonce, offer.price)
            } else {
                Ok((s, seq![]))
            };
            let (sp, _) = paid->Ok_0;
            let taken = match auction_id {
                None => Ok(sp),
                Some(id) => spec_take_offer_listing(sp, ctx.caller, offer, id),
            };
            let s2 = taken->Ok_0;
            let accepted = Offer { status: OfferStatus::Accepted, ..offer };
            let info = spec_nft_info(ctx, offer.token_type, offer.token_nonce)->Ok_0;
            let s3 = spec_common_offer_remove(s2, offer_id, accepted);
            assert(!s3.offer_by_id.contains_key(offer_id));
            let d = spec_amount_split(
                s3.bid_cut_percentage,
                accepted.price,
                info.royalties,
                spec_collection_config(s3, accepted.token_type),
            )->Ok_0;
            let st = Settlement {
                payment_token: accepted.payment_token_type,
                payment_nonce: accepted.payment_token_nonce,
                creator: info.creator,
                original_owner: ctx.caller,
                new_owner: accepted.offer_owner,
                split: d,
            };
            let nfts = seq![EsdtPayment { token: accepted.token_type, nonce: accepted.token_nonce, amount: accepted.quantity }];
            lemma_distribution_keeps_records(s3, ctx, nfts, st, false);
            assert(s1.offer_by_id == s3.offer_by_id);
            assert(s1.status == s3.status);
        },
        Err(_) => {},
    }
}

/// A withdrawn global offer is gone (the offer recorded under an id carrying
/// that id, as every offer the marketplace records does).
pub proof fn law_withdrawn_global_offer_is_gone(s: Store, ctx: ChainContext, offer_id: u64)
    requires
        s.global_offer.contains_key(offer_id) ==> s.global_offer[offer_id].offer_id == offer_id,
    ensures
        match spec_withdraw_global_offer(s, ctx, offer_id) {
            Ok((s1, _)) => !s1.global_offer.contains_key(offer_id),
            Err(_) => true,
        },
{
    if s.status && s.global_offer.contains_key(offer_id) && s.global_offer[offer_id].owner == ctx.caller {
        let offer = s.global_offer[offer_id];
        lemma_transfer_or_save_keeps_records(s, ctx, offer.owner, offer.payment_token, offer.payment_nonce, offer.price);
    }
}

/// A global offer gets the next global offer id, and is recorded under that
/// id carrying it.
pub proof fn law_global_offer_takes_next_id(
    s: Store,
    ctx: ChainContext,
    payment: Payment,
    payment_token: PaymentToken,
    payment_nonce: u64,
    price: u128,
    collection: TokenId,
    quantity: u128,
    attributes: Option<BufferId>,
)
    ensures
        match spec_send_global_offer(s, ctx, payment, payment_token, payment_nonce, price, collection, quantity, attributes) {
            Ok((s1, _, id)) => id == s.last_valid_global_offer_id + 1 && s1.last_valid_global_offer_id == id
                && s1.global_offer.contains_key(id) && s1.global_offer[id].offer_id == id
                && s1.global_offer[id].owner == ctx.caller,
            Err(_) => true,
        },
{
}

/// A listing bought out is gone: once every unit of it is bought it is no
/// longer on record, and a second purchase is refused as not found.
pub proof fn law_listing_bought_out_is_gone(
    s: Store,
    ctx: ChainContext,
    auction_id: u64,
    nft_type: TokenId,
    nft_nonce: u64,
    opt_sft_buy_amount: Option<u128>,
    buy_for: Option<Address>,
    message: Option<BufferId>,
    payment: Payment,
    ctx2: ChainContext,
    opt_sft_buy_amount2: Option<u128>,
    payment2: Payment,
)
    requires
        s.auction_by_id.contains_key(auction_id),
        match opt_sft_buy_amount {
            Some(a) => a,
            None => 1u128,
        } == s.auction_by_id[auction_id].nr_auctioned_tokens,
    ensures
        match spec_common_buy(s, ctx, auction_id, nft_type, nft_nonce, opt_sft_buy_amount, buy_for, message, None, None, payment) {
            Ok((s1, _)) => !s1.auction_by_id.contains_key(auction_id) && spec_common_buy(
                s1,
                ctx2,
                auction_id,
                nft_type,
                nft_nonce,
                opt_sft_buy_amount2,
                None,
                None,
                None,
                None,
                payment2,
            ) == Err::<(Store, Seq<Action>), MarketError>(MarketError::AuctionNotFound),
            Err(_) => true,
        },
{
    let auction = s.auction_by_id[auction_id];
    let buy_amount = match opt_sft_buy_amount {
        Some(a) => a,
        None => 1u128,
    };
    let buyer = match buy_for {
        Some(b) => b,
        None => ctx.caller,
    };
    let a2 = Auction { current_winner: buyer, current_bid: payment.amount, nr_auctioned_tokens: 0, ..auction };
    let s1 = crate::common::spec_remove_auction_common(s, auction_id, a2);
    assert(!s1.auction_by_id.contains_key(auction_id));
    match crate::common::spec_update_or_remove_items_quantity(s1, a2, buy_amount) {
        Ok(s2) => {
            let wrapping = spec_require_egld_conversion(auction, payment.token, s.wrapping_token);
            lemma_distribute_tokens_keeps_records(s2, ctx, a2, Some(buy_amount), wrapping);
        },
        Err(_) => {},
    }
}

/// Settling a listing touches no record.
pub proof fn lemma_distribute_tokens_keeps_records(
    s: Store,
    ctx: ChainContext,
    auction: Auction,
    opt_sft_amount: Option<u128>,
    wrapping: bool,
)
    ensures
        match crate::common::spec_distribute_tokens(s, ctx, auction, opt_sft_amount, wrapping) {
            Ok((s1, _)) => same_records(s, s1),
            Err(_) => true,
        },
{
    if auction.current_winner != ZERO_ADDRESS {
        match spec_nft_info(ctx, auction.auctioned_token_type, auction.auctioned_token_nonce) {
            Ok(info) => match spec_amount_split(
                s.bid_cut_percentage,
                auction.current_bid,
                auction.creator_royalties_percentage,
                spec_collection_config(s, auction.auctioned_token_type),
            ) {
                Ok(d) => {
                    let nfts = seq![
                        EsdtPayment {
                            token: auction.auctioned_token_type,
                            nonce: auction.auctioned_token_nonce,
                            amount: crate::common::nft_amount_to_send(auction, opt_sft_amount),
                        },
                    ];
                    let st = Settlement {
                        payment_token: auction.payment_token_type,
                        payment_nonce: auction.payment_token_nonce,
                        creator: info.creator,
                        original_owner: auction.original_owner,
                        new_owner: auction.current_winner,
                        split: d,
                    };
                    lemma_distribution_keeps_records(s, ctx, nfts, st, wrapping);
                },
                Err(_) => {},
            },
            Err(_) => {},
        }
    } else {
        lemma_transfer_or_save_keeps_records(
            s,
            ctx,
            auction.original_owner,
            PaymentToken::Esdt(auction.auctioned_token_type),
            auction.auctioned_token_nonce,
            auction.nr_auctioned_tokens,
        );
    }
}

/// Sending an offer and withdrawing it gives the offer records and indexes
/// back: the storage is as before, but for the last offer id, which moved on
/// by one, and the deposit, which keeps what was sent with the offer (an offer
/// paid from the deposit is not refunded).  The new id must be new to the
/// offer indexes, and the indexes must hold no empty set, as in every storage
/// that counts its offer ids.
pub proof fn law_send_then_withdraw_offer(
    s: Store,
    ctx: ChainContext,
    payment: Payment,
    payment_token: PaymentToken,
    payment_token_nonce: u64,
    payment_amount: u128,
    nft_type: TokenId,
    nft_nonce: u64,
    nft_amount: u128,
    deadline: u64,
)
    requires
        !s.offer_by_id.contains_key((s.last_valid_offer_id + 1) as u64),
        !s.offers.contains((s.last_valid_offer_id + 1) as u64),
        !set_at(s.offers_by_wallet, ctx.caller).contains((s.last_valid_offer_id + 1) as u64),
        !set_at(s.token_offers_ids, (nft_type, nft_nonce)).contains((s.last_valid_offer_id + 1) as u64),
        s.offers_by_wallet.contains_key(ctx.caller) ==> s.offers_by_wallet[ctx.caller].len() > 0,
        s.token_offers_ids.contains_key((nft_type, nft_nonce)) ==> s.token_offers_ids[(nft_type, nft_nonce)].len() > 0,
    ensures
        match spec_send_offer(s, ctx, payment, payment_token, payment_token_nonce, payment_amount, nft_type, nft_nonce, nft_amount, deadline) {
            Ok((s1, _, id)) => id == s.last_valid_offer_id + 1 && match spec_withdraw_offer(s1, ctx, id) {
                Ok((s2, t)) => s2 == (Store {
                    last_valid_offer_id: id,
                    user_funds: spec_deposit(s, ctx, payment)->Ok_0.0.user_funds,
                    ..s
                }) && t == seq![Action::Event(Event::WithdrawOffer { offer_id: id, offer: s1.offer_by_id[id] })],
                Err(_) => false,
            },
            Err(_) => true,
        },
{
    match spec_send_offer(s, ctx, payment, payment_token, payment_token_nonce, payment_amount, nft_type, nft_nonce, nft_amount, deadline) {
        Ok((s1, _, id)) => {
            let sd = spec_deposit(s, ctx, payment)->Ok_0.0;
            let offer = s1.offer_by_id[id];
            let sent_key = (ctx.caller, nft_type, nft_nonce, payment_token);
            let key = (nft_type, nft_nonce);
            assert(offer.offer_owner == ctx.caller && offer.new_version);
            crate::collections::lemma_with_then_without(s.offers, id);
            crate::collections::lemma_with_then_without(s.check_offer_sent, sent_key);
            crate::collections::lemma_with_then_without(set_at(s.offers_by_wallet, ctx.caller), id);
            crate::collections::lemma_with_then_without(set_at(s.token_offers_ids, key), id);
            match spec_withdraw_offer(s1, ctx, id) {
                Ok((s2, t)) => {
                    assert(s2.offer_by_id =~= s.offer_by_id);
                    assert(s2.offers_by_wallet =~= s.offers_by_wallet);
                    assert(s2.token_offers_ids =~= s.token_offers_ids);
                    assert(t =~= seq![Action::Event(Event::WithdrawOffer { offer_id: id, offer })]);
                    assert(s2 =~= (Store { last_valid_offer_id: id, user_funds: sd.user_funds, ..s }));
                },
                Err(_) => {},
            }
        },
        Err(_) => {},
    }
}

/// On every well-formed storage, sending an offer and withdrawing it gives
/// the offer records and indexes back (see `law_send_then_withdraw_offer`):
/// the storage is as before but for the last offer id, moved on by one, and
/// the deposit, which keeps what was sent with the offer.
pub proof fn law_send_then_withdraw_offer_on_valid_storage(
    m: &Marketplace,
    ctx: ChainContext,
    payment: Payment,
    payment_token: PaymentToken,
    payment_token_nonce: u64,
    payment_amount: u128,
    nft_type: TokenId,
    nft_nonce: u64,
    nft_amount: u128,
    deadline: u64,
)
    requires
        m.inv(),
    ensures
        match spec_send_offer(m@, ctx, payment, payment_token, payment_token_nonce, payment_amount, nft_type, nft_nonce, nft_amount, deadline) {
            Ok((s1, _, id)) => id == m@.last_valid_offer_id + 1 && match spec_withdraw_offer(s1, ctx, id) {
                Ok((s2, t)) => s2 == (Store {
                    last_valid_offer_id: id,
                    user_funds: spec_deposit(m@, ctx, payment)->Ok_0.0.user_funds,
                    ..m@
                }) && t == seq![Action::Event(Event::WithdrawOffer { offer_id: id, offer: s1.offer_by_id[id] })],
                Err(_) => false,
            },
            Err(_) => true,
        },
{
    let s = m@;
    m.lemma_id_sets_hold_no_duplicates();
    if s.last_valid_offer_id < u64::MAX {
        let id = (s.last_valid_offer_id + 1) as u64;
        assert(!s.offer_by_id.contains_key(id));
        assert(!s.offers.contains(id));
        assert(!set_at(s.offers_by_wallet, ctx.caller).contains(id));
        assert(!set_at(s.token_offers_ids, (nft_type, nft_nonce)).contains(id));
        law_send_then_withdraw_offer(
            s,
            ctx,
            payment,
            payment_token,
            payment_token_nonce,
            payment_amount,
            nft_type,
            nft_nonce,
            nft_amount,
            deadline,
        );
    }
}

/// On every well-formed storage, withdrawing what was just deposited sends it
/// back and leaves the storage as it was (see `law_deposit_then_withdraw`).
pub proof fn law_deposit_then_withdraw_on_valid_storage(m: &Marketplace, ctx: ChainContext, payment: Payment)
    requires
        m.inv(),
        payment.amount > 0,
    ensures
        match spec_deposit(m@, ctx, payment) {
            Ok((s1, _)) => match spec_withdraw_deposit(s1, ctx, payment.token, payment.nonce, payment.amount) {
                Ok((s2, _)) => s2 == m@,
                Err(_) => false,
            },
            Err(_) => true,
        },
{
    m.lemma_id_sets_hold_no_duplicates();
    law_deposit_then_withdraw(m@, ctx, payment);
}

} // verus!
