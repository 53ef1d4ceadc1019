//! What a sale pays out: the price of a sale, of an accepted offer or of a
//! bulk purchase is shared out entirely, among the creator, the marketplace,
//! the extra fee, the seller and (for a bulk purchase) the buyer's change.
use vstd::prelude::*;

use crate::auction::{
    Address, Auction, AuctionType, BufferId, EsdtPayment, Offer, OfferStatus, Payment, PaymentToken, TokenId, NFT_AMOUNT,
    ZERO_ADDRESS,
};
use crate::common::{
    bulk_settle_extra, bulk_settle_royalties, bulk_settle_seller, conversion_actions, nft_amount_to_send, pays_extra,
    prefixed, royalties_receiver, settle_extra, settle_fee, settle_nft, settle_royalties, settle_seller,
    spec_common_buy, spec_common_offer_remove, spec_distribute_rewards, spec_distribute_tokens,
    spec_distribute_tokens_bulk_buy, spec_distribute_tokens_common, spec_remove_auction_common,
    spec_require_egld_conversion, spec_send_nfts, spec_send_nfts_from, spec_update_or_remove_items_quantity,
    split_total, Settlement,
};
use crate::events::{transfer, Action, Event};
use crate::helpers::{spec_amount_split, spec_collection_config, spec_nft_info, spec_transfer_or_save, Step};
use crate::marketplace_main::spec_esdt_end_auction;
use crate::init::{spec_bulk_buy, spec_bulk_buy_finish, spec_bulk_buy_from, spec_bulk_buy_one, spec_end_auction};
use crate::laws::lemma_split_adds_up;
use crate::offers::{offer_token_checks, spec_accept_offer, spec_settle_offer, spec_take_offer_listing};
use crate::pools::spec_has_balance_and_deduct;
use crate::storage::{is_smart_contract, ChainContext, Store};

verus! {

/// The total amount of `token` with `nonce` that the actions send.
pub open spec fn paid_out(acts: Seq<Action>, token: PaymentToken, nonce: u64) -> int
    decreases acts.len(),
{
    if acts.len() == 0 {
        0
    } else {
        paid_out(acts.drop_last(), token, nonce) + match acts.last() {
            Action::Transfer { to: _, token: t, nonce: n, amount } => if t == token && n == nonce {
                amount as int
            } else {
                0
            },
            _ => 0,
        }
    }
}

/// What the actions of two steps send adds up.
pub proof fn lemma_paid_out_concat(a: Seq<Action>, b: Seq<Action>, token: PaymentToken, nonce: u64)
    ensures
        paid_out(a + b, token, nonce) == paid_out(a, token, nonce) + paid_out(b, token, nonce),
    decreases b.len(),
{
    if b.len() == 0 {
        assert(a + b =~= a);
    } else {
        lemma_paid_out_concat(a, b.drop_last(), token, nonce);
        assert((a + b).drop_last() =~= a + b.drop_last());
        assert((a + b).last() == b.last());
    }
}

proof fn lemma_paid_out_one(x: Action, token: PaymentToken, nonce: u64)
    ensures
        paid_out(seq![x], token, nonce) == paid_out(Seq::<Action>::empty(), token, nonce) + match x {
            Action::Transfer { to: _, token: t, nonce: n, amount } => if t == token && n == nonce {
                amount as int
            } else {
                0
            },
            _ => 0,
        },
        paid_out(Seq::<Action>::empty(), token, nonce) == 0,
{
    assert(seq![x].drop_last() =~= Seq::<Action>::empty());
}

/// Every contract the call meets is whitelisted: payments are sent, none is
/// kept for a contract to claim.
pub open spec fn wallets_only(s: Store, ctx: ChainContext) -> bool {
    forall|a: u64| #[trigger] is_smart_contract(ctx, a) ==> s.whitelisted_contracts.contains(a)
}

/// The actions of a payment to a wallet: a transfer, unless nothing is due.
pub open spec fn payment_to(to: u64, token: PaymentToken, nonce: u64, amount: u128) -> Seq<Action> {
    if amount > 0 {
        seq![transfer(to, token, nonce, amount)]
    } else {
        seq![]
    }
}

proof fn lemma_transfer_to_wallet(
    s: Store,
    ctx: ChainContext,
    to: u64,
    token: PaymentToken,
    nonce: u64,
    amount: u128,
    pt: PaymentToken,
    pn: u64,
)
    requires
        wallets_only(s, ctx),
    ensures
        spec_transfer_or_save(s, ctx, to, token, nonce, amount) == Ok::<(Store, Seq<Action>), crate::errors::MarketError>(
            (s, payment_to(to, token, nonce, amount)),
        ),
        paid_out(payment_to(to, token, nonce, amount), pt, pn) == if token == pt && nonce == pn {
            amount as int
        } else {
            0
        },
{
    assert(is_smart_contract(ctx, to) ==> s.whitelisted_contracts.contains(to));
    lemma_paid_out_one(transfer(to, token, nonce, amount), pt, pn);
}

proof fn lemma_prefixed_paid_out(a: Seq<Action>, r: Step, pt: PaymentToken, pn: u64)
    ensures
        match prefixed(a, r) {
            Ok((s1, t)) => r is Ok && s1 == r->Ok_0.0 && paid_out(t, pt, pn) == paid_out(a, pt, pn) + paid_out(
                r->Ok_0.1,
                pt,
                pn,
            ),
            Err(_) => r is Err,
        },
{
    match r {
        Ok((s1, b)) => lemma_paid_out_concat(a, b, pt, pn),
        Err(_) => {},
    }
}

proof fn lemma_rewards_pay_no_price(s: Store, ctx: ChainContext, buyer: u64, seller: u64, pt: PaymentToken, pn: u64)
    requires
        wallets_only(s, ctx),
        s.reward_ticker != Some(pt),
    ensures
        match spec_distribute_rewards(s, ctx, buyer, seller) {
            Ok((_, t)) => paid_out(t, pt, pn) == 0,
            Err(_) => true,
        },
{
    lemma_paid_out_one(transfer(buyer, pt, pn, 0), pt, pn);
    match s.reward_ticker {
        Some(ticker) => {
            let reward = s.reward_amount;
            lemma_transfer_to_wallet(s, ctx, buyer, ticker, 0, reward, pt, pn);
            lemma_transfer_to_wallet(s, ctx, seller, ticker, 0, reward, pt, pn);
            let t1 = payment_to(buyer, ticker, 0, reward);
            let t2 = payment_to(seller, ticker, 0, reward);
            lemma_paid_out_concat(t2, Seq::<Action>::empty(), pt, pn);
            lemma_paid_out_concat(t1, t2 + Seq::<Action>::empty(), pt, pn);
        },
        None => {},
    }
}

proof fn lemma_send_nfts_pay_no_price(
    s: Store,
    ctx: ChainContext,
    to: u64,
    nfts: Seq<EsdtPayment>,
    i: int,
    pt: PaymentToken,
    pn: u64,
)
    requires
        wallets_only(s, ctx),
        forall|k: int| 0 <= k < nfts.len() ==> (PaymentToken::Esdt(#[trigger] nfts[k].token), nfts[k].nonce) != (pt, pn),
    ensures
        match spec_send_nfts_from(s, ctx, to, nfts, i) {
            Ok((s1, t)) => s1 == s && paid_out(t, pt, pn) == 0,
            Err(_) => false,
        },
    decreases nfts.len() - i,
{
    if i >= nfts.len() || i < 0 {
        lemma_paid_out_one(transfer(to, pt, pn, 0), pt, pn);
    } else {
        let n = nfts[i];
        lemma_transfer_to_wallet(s, ctx, to, PaymentToken::Esdt(n.token), n.nonce, n.amount, pt, pn);
        lemma_send_nfts_pay_no_price(s, ctx, to, nfts, i + 1, pt, pn);
        lemma_prefixed_paid_out(payment_to(to, PaymentToken::Esdt(n.token), n.nonce, n.amount), spec_send_nfts_from(s, ctx, to, nfts, i + 1), pt, pn);
    }
}

/// A settlement to wallets pays out, in the payment token, its whole split:
/// the extra fee (when there is someone to receive it), the royalties, the
/// seller's part and the marketplace fee.
pub proof fn lemma_settlement_pays_out(
    s: Store,
    ctx: ChainContext,
    nfts: Seq<EsdtPayment>,
    st: Settlement,
    wrapping: bool,
)
    requires
        wallets_only(s, ctx),
        s.reward_ticker != Some(st.payment_token),
        forall|k: int|
            0 <= k < nfts.len() ==> (PaymentToken::Esdt(#[trigger] nfts[k].token), nfts[k].nonce) != (
                st.payment_token,
                st.payment_nonce,
            ),
    ensures
        match spec_distribute_tokens_common(s, ctx, nfts, st, wrapping) {
            Ok((_, t)) => paid_out(t, st.payment_token, st.payment_nonce) == (if pays_extra(st.split) {
                st.split.extra as int
            } else {
                0
            }) + st.split.creator + st.split.seller + st.split.marketplace,
            Err(_) => true,
        },
{
    let pt = st.payment_token;
    let pn = st.payment_nonce;
    let d = st.split;
    // the marketplace fee, then the rewards
    let fee_to = if d.reverse_cut_fee { st.new_owner } else { ctx.owner };
    lemma_transfer_to_wallet(s, ctx, fee_to, pt, pn, d.marketplace, pt, pn);
    lemma_rewards_pay_no_price(s, ctx, st.new_owner, st.original_owner, pt, pn);
    lemma_prefixed_paid_out(
        payment_to(fee_to, pt, pn, d.marketplace),
        spec_distribute_rewards(s, ctx, st.new_owner, st.original_owner),
        pt,
        pn,
    );
    // the NFTs
    lemma_send_nfts_pay_no_price(s, ctx, st.new_owner, nfts, 0, pt, pn);
    let nft_acts = spec_send_nfts(s, ctx, st.new_owner, nfts)->Ok_0.1;
    lemma_prefixed_paid_out(nft_acts, settle_fee(s, ctx, st), pt, pn);
    // the seller
    lemma_transfer_to_wallet(s, ctx, st.original_owner, pt, pn, d.seller, pt, pn);
    lemma_prefixed_paid_out(payment_to(st.original_owner, pt, pn, d.seller), settle_nft(s, ctx, st, nfts), pt, pn);
    // the royalties
    lemma_transfer_to_wallet(s, ctx, royalties_receiver(st), pt, pn, d.creator, pt, pn);
    lemma_prefixed_paid_out(
        payment_to(royalties_receiver(st), pt, pn, d.creator),
        settle_seller(s, ctx, st, nfts),
        pt,
        pn,
    );
    // the extra fee
    lemma_transfer_to_wallet(s, ctx, d.extra_address, pt, pn, d.extra, pt, pn);
    lemma_prefixed_paid_out(
        payment_to(d.extra_address, pt, pn, d.extra),
        settle_royalties(s, ctx, st, nfts),
        pt,
        pn,
    );
    // the conversion sends nothing
    let conv = conversion_actions(wrapping, pt, split_total(d));
    lemma_paid_out_one(Action::WrapEgld { amount: split_total(d) as u128 }, pt, pn);
    lemma_paid_out_one(Action::UnwrapEgld { amount: split_total(d) as u128 }, pt, pn);
    assert(paid_out(conv, pt, pn) == 0);
    lemma_prefixed_paid_out(conv, settle_extra(s, ctx, st, nfts), pt, pn);
}

/// The winning bid of a listing is shared out entirely: when every contract
/// met is whitelisted, the reward token is not the payment token and the
/// listed token is not the payment token, the transfers of the payment token
/// add up to the winning bid.
pub proof fn law_sale_pays_out_the_price(
    s: Store,
    ctx: ChainContext,
    auction: Auction,
    opt_sft_amount: Option<u128>,
    wrapping: bool,
)
    requires
        auction.current_winner != ZERO_ADDRESS,
        wallets_only(s, ctx),
        s.reward_ticker != Some(auction.payment_token_type),
        (PaymentToken::Esdt(auction.auctioned_token_type), auction.auctioned_token_nonce) != (
            auction.payment_token_type,
            auction.payment_token_nonce,
        ),
    ensures
        match spec_distribute_tokens(s, ctx, auction, opt_sft_amount, wrapping) {
            Ok((_, t)) => paid_out(t, auction.payment_token_type, auction.payment_token_nonce) == auction.current_bid,
            Err(_) => true,
        },
{
    match spec_nft_info(ctx, auction.auctioned_token_type, auction.auctioned_token_nonce) {
        Ok(info) => {
            let config = spec_collection_config(s, auction.auctioned_token_type);
            lemma_split_adds_up(s.bid_cut_percentage, auction.current_bid, auction.creator_royalties_percentage, config);
            match spec_amount_split(s.bid_cut_percentage, auction.current_bid, auction.creator_royalties_percentage, config) {
                Ok(d) => {
                    let nfts = seq![
                        EsdtPayment {
                            token: auction.auctioned_token_type,
                            nonce: auction.auctioned_token_nonce,
                            amount: nft_amount_to_send(auction, opt_sft_amount),
                        },
                    ];
                    let st = Settlement {
                        payment_token: auction.payment_token_type,
                        payment_nonce: auction.payment_token_nonce,
                        creator: info.creator,
                        original_owner: auction.original_owner,
                        new_owner: auction.current_winner,
                        split: d,
                    };
                    lemma_settlement_pays_out(s, ctx, nfts, st, wrapping);
                },
                Err(_) => {},
            }
        },
        Err(_) => {},
    }
}

/// A purchase pays out what the buyer paid: when every contract met is
/// whitelisted, the reward token is not the listing's payment token and the
/// listed token is not that token either, a purchase paid directly for a
/// buyer other than the zero address sends, in the listing's payment token,
/// exactly the amount paid.
pub proof fn law_buy_pays_out_the_price(
    s: Store,
    ctx: ChainContext,
    auction_id: u64,
    nft_type: TokenId,
    nft_nonce: u64,
    opt_sft_buy_amount: Option<u128>,
    buy_for: Option<Address>,
    message: Option<BufferId>,
    payment: Payment,
)
    requires
        s.auction_by_id.contains_key(auction_id),
        match buy_for {
            Some(b) => b != ZERO_ADDRESS,
            None => ctx.caller != ZERO_ADDRESS,
        },
        wallets_only(s, ctx),
        s.reward_ticker != Some(s.auction_by_id[auction_id].payment_token_type),
        (PaymentToken::Esdt(s.auction_by_id[auction_id].auctioned_token_type), s.auction_by_id[auction_id].auctioned_token_nonce) != (
            s.auction_by_id[auction_id].payment_token_type,
            s.auction_by_id[auction_id].payment_token_nonce,
        ),
    ensures
        match spec_common_buy(s, ctx, auction_id, nft_type, nft_nonce, opt_sft_buy_amount, buy_for, message, None, None, payment) {
            Ok((_, t)) => paid_out(
                t,
                s.auction_by_id[auction_id].payment_token_type,
                s.auction_by_id[auction_id].payment_token_nonce,
            ) == payment.amount,
            Err(_) => true,
        },
{
    let auction = s.auction_by_id[auction_id];
    let buy_amount = match opt_sft_buy_amount {
        Some(a) => a,
        None => NFT_AMOUNT as u128,
    };
    let buyer = match buy_for {
        Some(b) => b,
        None => ctx.caller,
    };
    if buy_amount <= auction.nr_auctioned_tokens {
        let a2 = Auction {
            current_winner: buyer,
            current_bid: payment.amount,
            nr_auctioned_tokens: (auction.nr_auctioned_tokens - buy_amount) as u128,
            ..auction
        };
        let s1 = if a2.nr_auctioned_tokens == 0 {
            spec_remove_auction_common(s, auction_id, a2)
        } else {
            Store { auction_by_id: s.auction_by_id.insert(auction_id, a2), ..s }
        };
        match spec_update_or_remove_items_quantity(s1, a2, buy_amount) {
            Ok(s2) => {
                assert(s2.whitelisted_contracts == s.whitelisted_contracts);
                assert(s2.reward_ticker == s.reward_ticker);
                let wrapping = spec_require_egld_conversion(auction, payment.token, s.wrapping_token);
                law_sale_pays_out_the_price(s2, ctx, a2, Some(buy_amount), wrapping);
                let ev = seq![
                    Action::Event(
                        Event::Buy {
                            auction_id,
                            auction: a2,
                            nr_bought_tokens: buy_amount,
                            timestamp: ctx.timestamp,
                            message,
                            buy_by: if buy_for is Some { Some(ctx.caller) } else { None },
                            payment,
                        },
                    ),
                ];
                lemma_paid_out_one(ev[0], auction.payment_token_type, auction.payment_token_nonce);
                assert(ev =~= seq![ev[0]]);
                lemma_prefixed_paid_out(
                    ev,
                    spec_distribute_tokens(s2, ctx, a2, Some(buy_amount), wrapping),
                    auction.payment_token_type,
                    auction.payment_token_nonce,
                );
            },
            Err(_) => {},
        }
    }
}

/// Ending an auction that has a winner pays out the winning bid: when every
/// contract met is whitelisted, the reward token is not the listing's payment
/// token and the listed token is not that token either, the transfers of the
/// payment token add up to the winning bid.
pub proof fn law_end_auction_pays_out_the_bid(s: Store, ctx: ChainContext, auction_id: u64)
    requires
        s.auction_by_id.contains_key(auction_id),
        s.auction_by_id[auction_id].current_winner != ZERO_ADDRESS,
        wallets_only(s, ctx),
        s.reward_ticker != Some(s.auction_by_id[auction_id].payment_token_type),
        (PaymentToken::Esdt(s.auction_by_id[auction_id].auctioned_token_type), s.auction_by_id[auction_id].auctioned_token_nonce) != (
            s.auction_by_id[auction_id].payment_token_type,
            s.auction_by_id[auction_id].payment_token_nonce,
        ),
    ensures
        match spec_end_auction(s, ctx, auction_id) {
            Ok((_, t)) => paid_out(
                t,
                s.auction_by_id[auction_id].payment_token_type,
                s.auction_by_id[auction_id].payment_token_nonce,
            ) == s.auction_by_id[auction_id].current_bid,
            Err(_) => true,
        },
{
    let auction = s.auction_by_id[auction_id];
    match spec_update_or_remove_items_quantity(s, auction, auction.nr_auctioned_tokens) {
        Ok(s1) => {
            let s2 = spec_remove_auction_common(s1, auction_id, auction);
            assert(s2.whitelisted_contracts == s.whitelisted_contracts);
            law_sale_pays_out_the_price(s2, ctx, auction, Some(auction.nr_auctioned_tokens), false);
            let ev = seq![Action::Event(Event::EndAuction { auction_id, auction })];
            lemma_paid_out_one(ev[0], auction.payment_token_type, auction.payment_token_nonce);
            assert(ev =~= seq![ev[0]]);
            lemma_prefixed_paid_out(
                ev,
                spec_distribute_tokens(s2, ctx, auction, Some(auction.nr_auctioned_tokens), false),
                auction.payment_token_type,
                auction.payment_token_nonce,
            );
        },
        Err(_) => {},
    }
}

/// A listing that is paid for with `token` and `nonce`, and whose own token is another one.
pub open spec fn priced_in(a: Auction, token: PaymentToken, nonce: u64) -> bool {
    &&& a.payment_token_type == token
    &&& a.payment_token_nonce == nonce
    &&& (PaymentToken::Esdt(a.auctioned_token_type), a.auctioned_token_nonce) != (token, nonce)
}

/// `s1` records a part of the listings of `s`, unchanged, and keeps its
/// whitelist and reward token.
pub open spec fn fewer_listings(s: Store, s1: Store) -> bool {
    &&& s1.whitelisted_contracts == s.whitelisted_contracts
    &&& s1.reward_ticker == s.reward_ticker
    &&& forall|id: u64| #[trigger]
        s1.auction_by_id.contains_key(id) ==> s.auction_by_id.contains_key(id) && s1.auction_by_id[id]
            == s.auction_by_id[id]
}

/// None of the NFTs is the payment token.
pub open spec fn none_is(nfts: Seq<EsdtPayment>, token: PaymentToken, nonce: u64) -> bool {
    forall|k: int| 0 <= k < nfts.len() ==> (PaymentToken::Esdt(#[trigger] nfts[k].token), nfts[k].nonce) != (token, nonce)
}

proof fn lemma_nft_transfers_pay_no_price(to: u64, nfts: Seq<EsdtPayment>, pt: PaymentToken, pn: u64)
    requires
        none_is(nfts, pt, pn),
    ensures
        paid_out(crate::common::esdt_transfers(to, nfts), pt, pn) == 0,
    decreases nfts.len(),
{
    let t = crate::common::esdt_transfers(to, nfts);
    if nfts.len() > 0 {
        let init = nfts.drop_last();
        assert(t.drop_last() =~= crate::common::esdt_transfers(to, init));
        assert(none_is(init, pt, pn)) by {
            assert forall|k: int| 0 <= k < init.len() implies (PaymentToken::Esdt(#[trigger] init[k].token), init[k].nonce) != (pt, pn) by {
                assert(init[k] == nfts[k]);
            }
        }
        lemma_nft_transfers_pay_no_price(to, init, pt, pn);
        assert(t.last() == transfer(to, PaymentToken::Esdt(nfts.last().token), nfts.last().nonce, nfts.last().amount));
    }
}

proof fn lemma_bulk_distribution_pays_out(s: Store, ctx: ChainContext, st: Settlement, wrapping: bool)
    requires
        wallets_only(s, ctx),
        s.reward_ticker != Some(st.payment_token),
    ensures
        match spec_distribute_tokens_bulk_buy(s, ctx, st, wrapping) {
            Ok((s1, t)) => fewer_listings(s, s1) && s1.auction_by_id == s.auction_by_id && paid_out(
                t,
                st.payment_token,
                st.payment_nonce,
            ) == (if pays_extra(st.split) {
                st.split.extra as int
            } else {
                0
            }) + st.split.creator + st.split.seller,
            Err(_) => true,
        },
{
    let pt = st.payment_token;
    let pn = st.payment_nonce;
    let d = st.split;
    lemma_rewards_pay_no_price(s, ctx, st.new_owner, st.original_owner, pt, pn);
    lemma_transfer_to_wallet(s, ctx, st.original_owner, pt, pn, d.seller, pt, pn);
    lemma_prefixed_paid_out(
        payment_to(st.original_owner, pt, pn, d.seller),
        spec_distribute_rewards(s, ctx, st.new_owner, st.original_owner),
        pt,
        pn,
    );
    lemma_transfer_to_wallet(s, ctx, royalties_receiver(st), pt, pn, d.creator, pt, pn);
    lemma_prefixed_paid_out(payment_to(royalties_receiver(st), pt, pn, d.creator), bulk_settle_seller(s, ctx, st), pt, pn);
    lemma_transfer_to_wallet(s, ctx, d.extra_address, pt, pn, d.extra, pt, pn);
    lemma_prefixed_paid_out(payment_to(d.extra_address, pt, pn, d.extra), bulk_settle_royalties(s, ctx, st), pt, pn);
    let conv = conversion_actions(wrapping, pt, d.seller + d.creator + d.marketplace);
    lemma_paid_out_one(Action::WrapEgld { amount: (d.seller + d.creator + d.marketplace) as u128 }, pt, pn);
    lemma_paid_out_one(Action::UnwrapEgld { amount: (d.seller + d.creator + d.marketplace) as u128 }, pt, pn);
    assert(paid_out(conv, pt, pn) == 0);
    lemma_prefixed_paid_out(conv, bulk_settle_extra(s, ctx, st), pt, pn);
    match spec_distribute_rewards(s, ctx, st.new_owner, st.original_owner) {
        Ok((s1, _)) => {
            assert(s1.auction_by_id == s.auction_by_id);
            assert(s1.whitelisted_contracts == s.whitelisted_contracts);
        },
        Err(_) => {},
    }
}

proof fn lemma_bulk_buy_one_pays_out(
    s0: Store,
    s: Store,
    ctx: ChainContext,
    payment: Payment,
    available: u128,
    fees: u128,
    auction_id: u64,
)
    requires
        wallets_only(s, ctx),
        s.reward_ticker != Some(payment.token),
        fewer_listings(s0, s),
        s0.auction_by_id.contains_key(auction_id) ==> priced_in(s0.auction_by_id[auction_id], payment.token, payment.nonce),
    ensures
        match spec_bulk_buy_one(s, ctx, payment, available, fees, auction_id) {
            Ok((s1, t, available1, fees1, nft)) => fewer_listings(s0, s1) && paid_out(t, payment.token, payment.nonce)
                + available1 + fees1 == available + fees && match nft {
                Some(p) => (PaymentToken::Esdt(p.token), p.nonce) != (payment.token, payment.nonce),
                None => true,
            },
            Err(_) => true,
        },
{
    let pt = payment.token;
    let pn = payment.nonce;
    if s.auction_by_id.contains_key(auction_id) {
        let listing = s.auction_by_id[auction_id];
        assert(s0.auction_by_id.contains_key(auction_id));
        assert(priced_in(listing, pt, pn));
        let wegld = s.wrapping_token;
        let wrapping = spec_require_egld_conversion(listing, payment.token, wegld);
        match spec_nft_info(ctx, listing.auctioned_token_type, listing.auctioned_token_nonce) {
            Ok(info) => {
                let sold = Auction { current_bid: listing.min_bid, current_winner: ctx.caller, ..listing };
                let config = spec_collection_config(s, sold.auctioned_token_type);
                lemma_split_adds_up(s.bid_cut_percentage, sold.current_bid, sold.creator_royalties_percentage, config);
                match spec_amount_split(s.bid_cut_percentage, sold.current_bid, sold.creator_royalties_percentage, config) {
                    Ok(d) => {
                        let st = Settlement {
                            payment_token: sold.payment_token_type,
                            payment_nonce: sold.payment_token_nonce,
                            creator: info.creator,
                            original_owner: sold.original_owner,
                            new_owner: ctx.caller,
                            split: d,
                        };
                        assert(d.extra > 0 ==> pays_extra(d));
                        lemma_bulk_distribution_pays_out(s, ctx, st, wrapping);
                        match spec_distribute_tokens_bulk_buy(s, ctx, st, wrapping) {
                            Ok((s2, t)) => match spec_update_or_remove_items_quantity(s2, sold, sold.nr_auctioned_tokens) {
                                Ok(s3) => {
                                    let s4 = spec_remove_auction_common(s3, auction_id, sold);
                                    assert(fewer_listings(s0, s4)) by {
                                        assert forall|id: u64| #[trigger] s4.auction_by_id.contains_key(id) implies s0.auction_by_id.contains_key(id)
                                            && s4.auction_by_id[id] == s0.auction_by_id[id] by {
                                            assert(s.auction_by_id.contains_key(id));
                                        }
                                    }
                                    let ev = Action::Event(
                                        Event::Buy {
                                            auction_id,
                                            auction: sold,
                                            nr_bought_tokens: sold.nr_auctioned_tokens,
                                            timestamp: ctx.timestamp,
                                            message: None,
                                            buy_by: None,
                                            payment,
                                        },
                                    );
                                    lemma_paid_out_concat(t, seq![ev], pt, pn);
                                    lemma_paid_out_one(ev, pt, pn);
                                    assert(t.push(ev) =~= t + seq![ev]);
                                },
                                Err(_) => {},
                            },
                            Err(_) => {},
                        }
                    },
                    Err(_) => {},
                }
            },
            Err(_) => {},
        }
    }
}

proof fn lemma_bulk_buy_finish_pays_out(
    s: Store,
    ctx: ChainContext,
    payment: Payment,
    available: u128,
    fees: u128,
    bought: Seq<EsdtPayment>,
)
    requires
        wallets_only(s, ctx),
        none_is(bought, payment.token, payment.nonce),
    ensures
        match spec_bulk_buy_finish(s, ctx, payment, available, fees, bought) {
            Ok((_, t, _)) => paid_out(t, payment.token, payment.nonce) == available + fees,
            Err(_) => true,
        },
{
    let pt = payment.token;
    let pn = payment.nonce;
    let change = if available > 0 {
        seq![transfer(ctx.caller, pt, pn, available)]
    } else {
        seq![]
    };
    lemma_paid_out_one(transfer(ctx.caller, pt, pn, available), pt, pn);
    let sent = crate::common::esdt_transfers(ctx.caller, bought);
    lemma_nft_transfers_pay_no_price(ctx.caller, bought, pt, pn);
    lemma_paid_out_concat(change, sent, pt, pn);
    lemma_transfer_to_wallet(s, ctx, ctx.owner, pt, pn, fees, pt, pn);
    lemma_paid_out_concat(change + sent, payment_to(ctx.owner, pt, pn, fees), pt, pn);
}

proof fn lemma_bulk_buy_from_pays_out(
    s0: Store,
    s: Store,
    ctx: ChainContext,
    payment: Payment,
    ids: Seq<u64>,
    i: int,
    available: u128,
    fees: u128,
    bought: Seq<EsdtPayment>,
)
    requires
        wallets_only(s, ctx),
        s.reward_ticker != Some(payment.token),
        fewer_listings(s0, s),
        forall|k: int|
            0 <= k < ids.len() && s0.auction_by_id.contains_key(#[trigger] ids[k]) ==> priced_in(
                s0.auction_by_id[ids[k]],
                payment.token,
                payment.nonce,
            ),
        none_is(bought, payment.token, payment.nonce),
    ensures
        match spec_bulk_buy_from(s, ctx, payment, ids, i, available, fees, bought) {
            Ok((_, t, _)) => paid_out(t, payment.token, payment.nonce) == available + fees,
            Err(_) => true,
        },
    decreases ids.len() - i,
{
    if i >= ids.len() || i < 0 {
        lemma_bulk_buy_finish_pays_out(s, ctx, payment, available, fees, bought);
    } else {
        let id = ids[i];
        lemma_bulk_buy_one_pays_out(s0, s, ctx, payment, available, fees, id);
        match spec_bulk_buy_one(s, ctx, payment, available, fees, id) {
            Ok((s1, t, available1, fees1, nft)) => {
                let bought1 = match nft {
                    Some(p) => bought.push(p),
                    None => bought,
                };
                assert(none_is(bought1, payment.token, payment.nonce)) by {
                    assert forall|k: int| 0 <= k < bought1.len() implies (PaymentToken::Esdt(#[trigger] bought1[k].token), bought1[k].nonce)
                        != (payment.token, payment.nonce) by {
                        if k < bought.len() {
                            assert(bought1[k] == bought[k]);
                        }
                    }
                }
                assert(wallets_only(s1, ctx)) by {
                    assert forall|a: u64| #[trigger] is_smart_contract(ctx, a) implies s1.whitelisted_contracts.contains(a) by {
                        assert(s.whitelisted_contracts.contains(a));
                    }
                }
                lemma_bulk_buy_from_pays_out(s0, s1, ctx, payment, ids, i + 1, available1, fees1, bought1);
                match spec_bulk_buy_from(s1, ctx, payment, ids, i + 1, available1, fees1, bought1) {
                    Ok((s2, t2, b2)) => {
                        lemma_paid_out_concat(t, t2, payment.token, payment.nonce);
                    },
                    Err(_) => {},
                }
            },
            Err(_) => {},
        }
    }
}

/// A bulk purchase spends exactly what was paid: when every contract met is
/// whitelisted, the reward token is not the payment token, and each listing
/// bought is priced in the payment token and is not itself that token, the
/// transfers of the payment token (the shares of each sale, the change and
/// the marketplace fees) add up to the payment.
pub proof fn law_bulk_buy_pays_out_the_payment(s: Store, ctx: ChainContext, ids: Seq<u64>, payment: Payment)
    requires
        wallets_only(s, ctx),
        s.reward_ticker != Some(payment.token),
        forall|k: int|
            0 <= k < ids.len() && s.auction_by_id.contains_key(#[trigger] ids[k]) ==> priced_in(
                s.auction_by_id[ids[k]],
                payment.token,
                payment.nonce,
            ),
    ensures
        match spec_bulk_buy(s, ctx, ids, payment) {
            Ok((_, t, _)) => paid_out(t, payment.token, payment.nonce) == payment.amount,
            Err(_) => true,
        },
{
    lemma_bulk_buy_from_pays_out(s, s, ctx, payment, ids, 0, payment.amount, 0, seq![]);
}

/// An accepted offer pays out its price: when every contract met is
/// whitelisted, the reward token is not the offer's payment token and the NFT
/// is not that token either, the transfers of the payment token add up to the
/// price of the offer.
pub proof fn law_accept_offer_pays_out_the_price(
    s: Store,
    ctx: ChainContext,
    offer_id: u64,
    auction_id: Option<u64>,
    payment: Payment,
)
    requires
        s.offer_by_id.contains_key(offer_id),
        wallets_only(s, ctx),
        s.reward_ticker != Some(s.offer_by_id[offer_id].payment_token_type),
        (PaymentToken::Esdt(s.offer_by_id[offer_id].token_type), s.offer_by_id[offer_id].token_nonce) != (
            s.offer_by_id[offer_id].payment_token_type,
            s.offer_by_id[offer_id].payment_token_nonce,
        ),
    ensures
        match spec_accept_offer(s, ctx, offer_id, auction_id, payment) {
            Ok((_, t)) => paid_out(
                t,
                s.offer_by_id[offer_id].payment_token_type,
                s.offer_by_id[offer_id].payment_token_nonce,
            ) == s.offer_by_id[offer_id].price,
            Err(_) => true,
        },
{
    let offer = s.offer_by_id[offer_id];
    let pt = offer.payment_token_type;
    let pn = offer.payment_token_nonce;
    let paid = if offer.new_version {
        spec_has_balance_and_deduct(s, offer.offer_owner, pt, pn, offer.price)
    } else {
        Ok((s, seq![]))
    };
    match paid {
        Ok((s1, t1)) => {
            // the deposit is only written down
            lemma_paid_out_one(t1[0], pt, pn);
            assert(paid_out(t1, pt, pn) == 0) by {
                if offer.new_version {
                    assert(t1 =~= seq![t1[0]]);
                } else {
                    assert(t1 =~= Seq::<Action>::empty());
                }
            }
            let taken = match auction_id {
                None => match offer_token_checks(offer, payment) {
                    Err(e) => Err(e),
                    Ok(_) => Ok(s1),
                },
                Some(id) => spec_take_offer_listing(s1, ctx.caller, offer, id),
            };
            match taken {
                Ok(s2) => {
                    let accepted = Offer { status: OfferStatus::Accepted, ..offer };
                    let removed = match auction_id {
                        Some(id) => id,
                        None => 0,
                    };
                    match spec_nft_info(ctx, accepted.token_type, accepted.token_nonce) {
                        Ok(info) => {
                            let s3 = spec_common_offer_remove(s2, offer_id, accepted);
                            assert(s3.whitelisted_contracts == s.whitelisted_contracts);
                            assert(s3.reward_ticker == s.reward_ticker);
                            let config = spec_collection_config(s3, accepted.token_type);
                            lemma_split_adds_up(s3.bid_cut_percentage, accepted.price, info.royalties, config);
                            match spec_amount_split(s3.bid_cut_percentage, accepted.price, info.royalties, config) {
                                Ok(d) => {
                                    let nfts = seq![
                                        EsdtPayment {
                                            token: accepted.token_type,
                                            nonce: accepted.token_nonce,
                                            amount: accepted.quantity,
                                        },
                                    ];
                                    let st = Settlement {
                                        payment_token: pt,
                                        payment_nonce: pn,
                                        creator: info.creator,
                                        original_owner: ctx.caller,
                                        new_owner: accepted.offer_owner,
                                        split: d,
                                    };
                                    assert(d.extra > 0 ==> pays_extra(d));
                                    lemma_settlement_pays_out(s3, ctx, nfts, st, false);
                                    let ev = seq![
                                        Action::Event(
                                            Event::AcceptOffer { offer_id, offer: accepted, seller: ctx.caller, auction_removed: removed },
                                        ),
                                    ];
                                    lemma_paid_out_one(ev[0], pt, pn);
                                    assert(ev =~= seq![ev[0]]);
                                    lemma_prefixed_paid_out(ev, spec_distribute_tokens_common(s3, ctx, nfts, st, false), pt, pn);
                                    lemma_prefixed_paid_out(
                                        t1,
                                        spec_settle_offer(s2, ctx, offer_id, accepted, ctx.caller, removed),
                                        pt,
                                        pn,
                                    );
                                },
                                Err(_) => {},
                            }
                        },
                        Err(_) => {},
                    }
                },
                Err(_) => {},
            }
        },
        Err(_) => {},
    }
}

/// The total amount of `token` with `nonce` that the actions send to `to`.
pub open spec fn sent_to(acts: Seq<Action>, to: u64, token: PaymentToken, nonce: u64) -> int
    decreases acts.len(),
{
    if acts.len() == 0 {
        0
    } else {
        sent_to(acts.drop_last(), to, token, nonce) + match acts.last() {
            Action::Transfer { to: r, token: t, nonce: n, amount } => if r == to && t == token && n == nonce {
                amount as int
            } else {
                0
            },
            _ => 0,
        }
    }
}

proof fn lemma_sent_to_concat(a: Seq<Action>, b: Seq<Action>, to: u64, token: PaymentToken, nonce: u64)
    ensures
        sent_to(a + b, to, token, nonce) == sent_to(a, to, token, nonce) + sent_to(b, to, token, nonce),
    decreases b.len(),
{
    if b.len() == 0 {
        assert(a + b =~= a);
    } else {
        lemma_sent_to_concat(a, b.drop_last(), to, token, nonce);
        assert((a + b).drop_last() =~= a + b.drop_last());
        assert((a + b).last() == b.last());
    }
}

proof fn lemma_sent_to_payment(r: u64, tok: PaymentToken, non: u64, amount: u128, to: u64, token: PaymentToken, nonce: u64)
    ensures
        sent_to(payment_to(r, tok, non, amount), to, token, nonce) == if r == to && tok == token && non == nonce {
            amount as int
        } else {
            0
        },
        sent_to(Seq::<Action>::empty(), to, token, nonce) == 0,
{
    let x = transfer(r, tok, non, amount);
    assert(seq![x].drop_last() =~= Seq::<Action>::empty());
    assert(seq![x].last() == x);
    assert(sent_to(Seq::<Action>::empty(), to, token, nonce) == 0);
}

proof fn lemma_sent_to_other(x: Action, to: u64, token: PaymentToken, nonce: u64)
    requires
        !(x is Transfer),
    ensures
        sent_to(seq![x], to, token, nonce) == 0,
{
    assert(seq![x].drop_last() =~= Seq::<Action>::empty());
    assert(seq![x].last() == x);
    assert(sent_to(Seq::<Action>::empty(), to, token, nonce) == 0);
}

proof fn lemma_prefixed_sent_to(a: Seq<Action>, r: Step, to: u64, token: PaymentToken, nonce: u64)
    ensures
        match prefixed(a, r) {
            Ok((s1, t)) => r is Ok && s1 == r->Ok_0.0 && sent_to(t, to, token, nonce) == sent_to(a, to, token, nonce)
                + sent_to(r->Ok_0.1, to, token, nonce),
            Err(_) => r is Err,
        },
{
    match r {
        Ok((s1, b)) => lemma_sent_to_concat(a, b, to, token, nonce),
        Err(_) => {},
    }
}

/// A settlement to wallets sends its NFT, in full, to the new owner.
pub proof fn lemma_settlement_sends_the_nft(
    s: Store,
    ctx: ChainContext,
    n: EsdtPayment,
    st: Settlement,
    wrapping: bool,
)
    requires
        wallets_only(s, ctx),
        (st.payment_token, st.payment_nonce) != (PaymentToken::Esdt(n.token), n.nonce),
        n.nonce != 0,
    ensures
        match spec_distribute_tokens_common(s, ctx, seq![n], st, wrapping) {
            Ok((_, t)) => sent_to(t, st.new_owner, PaymentToken::Esdt(n.token), n.nonce) == n.amount,
            Err(_) => true,
        },
{
    let pt = st.payment_token;
    let pn = st.payment_nonce;
    let d = st.split;
    let to = st.new_owner;
    let nt = PaymentToken::Esdt(n.token);
    let nn = n.nonce;
    // the rewards send the reward token at nonce 0
    match s.reward_ticker {
        Some(ticker) => {
            let reward = s.reward_amount;
            lemma_transfer_to_wallet(s, ctx, st.new_owner, ticker, 0, reward, pt, pn);
            lemma_transfer_to_wallet(s, ctx, st.original_owner, ticker, 0, reward, pt, pn);
            let t1 = payment_to(st.new_owner, ticker, 0, reward);
            let t2 = payment_to(st.original_owner, ticker, 0, reward);
            lemma_sent_to_payment(st.new_owner, ticker, 0, reward, to, nt, nn);
            lemma_sent_to_payment(st.original_owner, ticker, 0, reward, to, nt, nn);
            lemma_sent_to_concat(t2, Seq::<Action>::empty(), to, nt, nn);
            lemma_sent_to_concat(t1, t2 + Seq::<Action>::empty(), to, nt, nn);
        },
        None => {
            lemma_sent_to_payment(to, nt, nn, 0, to, nt, nn);
        },
    }
    // the marketplace fee
    let fee_to = if d.reverse_cut_fee { st.new_owner } else { ctx.owner };
    lemma_transfer_to_wallet(s, ctx, fee_to, pt, pn, d.marketplace, pt, pn);
    lemma_sent_to_payment(fee_to, pt, pn, d.marketplace, to, nt, nn);
    lemma_prefixed_sent_to(
        payment_to(fee_to, pt, pn, d.marketplace),
        spec_distribute_rewards(s, ctx, st.new_owner, st.original_owner),
        to,
        nt,
        nn,
    );
    // the NFT
    lemma_transfer_to_wallet(s, ctx, to, nt, nn, n.amount, pt, pn);
    lemma_sent_to_payment(to, nt, nn, n.amount, to, nt, nn);
    let nfts = seq![n];
    assert(nfts[0] == n);
    lemma_prefixed_sent_to(payment_to(to, nt, nn, n.amount), spec_send_nfts_from(s, ctx, to, nfts, 1), to, nt, nn);
    let nft_acts = spec_send_nfts(s, ctx, to, nfts)->Ok_0.1;
    lemma_prefixed_sent_to(nft_acts, settle_fee(s, ctx, st), to, nt, nn);
    // the seller
    lemma_transfer_to_wallet(s, ctx, st.original_owner, pt, pn, d.seller, pt, pn);
    lemma_sent_to_payment(st.original_owner, pt, pn, d.seller, to, nt, nn);
    lemma_prefixed_sent_to(payment_to(st.original_owner, pt, pn, d.seller), settle_nft(s, ctx, st, nfts), to, nt, nn);
    // the royalties
    lemma_transfer_to_wallet(s, ctx, royalties_receiver(st), pt, pn, d.creator, pt, pn);
    lemma_sent_to_payment(royalties_receiver(st), pt, pn, d.creator, to, nt, nn);
    lemma_prefixed_sent_to(payment_to(royalties_receiver(st), pt, pn, d.creator), settle_seller(s, ctx, st, nfts), to, nt, nn);
    // the extra fee
    lemma_transfer_to_wallet(s, ctx, d.extra_address, pt, pn, d.extra, pt, pn);
    lemma_sent_to_payment(d.extra_address, pt, pn, d.extra, to, nt, nn);
    lemma_prefixed_sent_to(payment_to(d.extra_address, pt, pn, d.extra), settle_royalties(s, ctx, st, nfts), to, nt, nn);
    // the conversion sends nothing
    let conv = conversion_actions(wrapping, pt, split_total(d));
    lemma_sent_to_other(Action::WrapEgld { amount: split_total(d) as u128 }, to, nt, nn);
    lemma_sent_to_other(Action::UnwrapEgld { amount: split_total(d) as u128 }, to, nt, nn);
    assert(sent_to(conv, to, nt, nn) == 0);
    lemma_prefixed_sent_to(conv, settle_extra(s, ctx, st, nfts), to, nt, nn);
}

proof fn lemma_end_auction_common_sends_units(s: Store, ctx: ChainContext, auction_id: u64, a: Auction)
    requires
        a.current_winner != ZERO_ADDRESS,
        wallets_only(s, ctx),
        (a.payment_token_type, a.payment_token_nonce) != (PaymentToken::Esdt(a.auctioned_token_type), a.auctioned_token_nonce),
        a.auctioned_token_nonce != 0,
    ensures
        match crate::common::spec_end_auction_common(s, ctx, auction_id, a) {
            Ok((_, t)) => sent_to(t, a.current_winner, PaymentToken::Esdt(a.auctioned_token_type), a.auctioned_token_nonce)
                == nft_amount_to_send(a, Some(a.nr_auctioned_tokens)),
            Err(_) => true,
        },
{
    let to = a.current_winner;
    let nt = PaymentToken::Esdt(a.auctioned_token_type);
    let nn = a.auctioned_token_nonce;
    match spec_update_or_remove_items_quantity(s, a, a.nr_auctioned_tokens) {
        Ok(s1) => {
            let s2 = spec_remove_auction_common(s1, auction_id, a);
            assert(s2.whitelisted_contracts == s.whitelisted_contracts);
            match spec_nft_info(ctx, a.auctioned_token_type, a.auctioned_token_nonce) {
                Ok(info) => match spec_amount_split(
                    s2.bid_cut_percentage,
                    a.current_bid,
                    a.creator_royalties_percentage,
                    spec_collection_config(s2, a.auctioned_token_type),
                ) {
                    Ok(d) => {
                        let n = EsdtPayment {
                            token: a.auctioned_token_type,
                            nonce: a.auctioned_token_nonce,
                            amount: nft_amount_to_send(a, Some(a.nr_auctioned_tokens)),
                        };
                        let st = Settlement {
                            payment_token: a.payment_token_type,
                            payment_nonce: a.payment_token_nonce,
                            creator: info.creator,
                            original_owner: a.original_owner,
                            new_owner: a.current_winner,
                            split: d,
                        };
                        lemma_settlement_sends_the_nft(s2, ctx, n, st, false);
                    },
                    Err(_) => {},
                },
                Err(_) => {},
            }
            let ev = Action::Event(Event::EndAuction { auction_id, auction: a });
            lemma_sent_to_other(ev, to, nt, nn);
            lemma_prefixed_sent_to(
                seq![ev],
                spec_distribute_tokens(s2, ctx, a, Some(a.nr_auctioned_tokens), false),
                to,
                nt,
                nn,
            );
        },
        Err(_) => {},
    }
}

/// The winner of an auction of a whole lot of semi-fungible tokens receives
/// the whole lot, and the winner of an NFT auction the NFT: when every
/// contract met is whitelisted and the payment token is not the listed token,
/// ending the auction (in either contract) sends the winner all the units
/// listed (one for an NFT).
pub proof fn law_auction_winner_receives_the_lot(s: Store, ctx: ChainContext, auction_id: u64)
    requires
        s.auction_by_id.contains_key(auction_id),
        s.auction_by_id[auction_id].current_winner != ZERO_ADDRESS,
        wallets_only(s, ctx),
        (s.auction_by_id[auction_id].payment_token_type, s.auction_by_id[auction_id].payment_token_nonce) != (
            PaymentToken::Esdt(s.auction_by_id[auction_id].auctioned_token_type),
            s.auction_by_id[auction_id].auctioned_token_nonce,
        ),
        s.auction_by_id[auction_id].auctioned_token_nonce != 0,
    ensures
        ({
            let a = s.auction_by_id[auction_id];
            let units = if a.auction_type == AuctionType::SftAll { a.nr_auctioned_tokens as int } else { 1 };
            &&& (a.auction_type == AuctionType::SftAll || a.auction_type == AuctionType::NftBid) ==> match spec_end_auction(s, ctx, auction_id) {
                Ok((_, t)) => sent_to(t, a.current_winner, PaymentToken::Esdt(a.auctioned_token_type), a.auctioned_token_nonce) == units,
                Err(_) => true,
            }
            &&& (a.auction_type == AuctionType::SftAll || a.auction_type == AuctionType::NftBid) ==> match spec_esdt_end_auction(s, ctx, auction_id) {
                Ok((_, t)) => sent_to(t, a.current_winner, PaymentToken::Esdt(a.auctioned_token_type), a.auctioned_token_nonce) == units,
                Err(_) => true,
            }
        }),
{
    let a = s.auction_by_id[auction_id];
    lemma_end_auction_common_sends_units(s, ctx, auction_id, a);
}

/// A purchase sends the buyer the units bought: when every contract met is
/// whitelisted and the listing's payment token is not the listed token, a
/// purchase paid directly, for a buyer other than the zero address, sends the
/// buyer as many units of the listed token as were bought (one when none is
/// named; an NFT listing holds its one NFT, as every listing of one does).
pub proof fn law_buy_sends_the_units_bought(
    s: Store,
    ctx: ChainContext,
    auction_id: u64,
    nft_type: TokenId,
    nft_nonce: u64,
    opt_sft_buy_amount: Option<u128>,
    buy_for: Option<Address>,
    message: Option<BufferId>,
    payment: Payment,
)
    requires
        s.auction_by_id.contains_key(auction_id),
        match buy_for {
            Some(b) => b != ZERO_ADDRESS,
            None => ctx.caller != ZERO_ADDRESS,
        },
        wallets_only(s, ctx),
        (s.auction_by_id[auction_id].payment_token_type, s.auction_by_id[auction_id].payment_token_nonce) != (
            PaymentToken::Esdt(s.auction_by_id[auction_id].auctioned_token_type),
            s.auction_by_id[auction_id].auctioned_token_nonce,
        ),
        s.auction_by_id[auction_id].auctioned_token_nonce != 0,
        s.auction_by_id[auction_id].auction_type == AuctionType::Nft ==> s.auction_by_id[auction_id].nr_auctioned_tokens
            == 1,
    ensures
        match spec_common_buy(s, ctx, auction_id, nft_type, nft_nonce, opt_sft_buy_amount, buy_for, message, None, None, payment) {
            Ok((_, t)) => sent_to(
                t,
                match buy_for {
                    Some(b) => b,
                    None => ctx.caller,
                },
                PaymentToken::Esdt(s.auction_by_id[auction_id].auctioned_token_type),
                s.auction_by_id[auction_id].auctioned_token_nonce,
            ) == match opt_sft_buy_amount {
                Some(a) => a,
                None => NFT_AMOUNT as u128,
            },
            Err(_) => true,
        },
{
    let auction = s.auction_by_id[auction_id];
    let buy_amount = match opt_sft_buy_amount {
        Some(a) => a,
        None => NFT_AMOUNT as u128,
    };
    let buyer = match buy_for {
        Some(b) => b,
        None => ctx.caller,
    };
    let nt = PaymentToken::Esdt(auction.auctioned_token_type);
    let nn = auction.auctioned_token_nonce;
    if buy_amount <= auction.nr_auctioned_tokens {
        let a2 = Auction {
            current_winner: buyer,
            current_bid: payment.amount,
            nr_auctioned_tokens: (auction.nr_auctioned_tokens - buy_amount) as u128,
            ..auction
        };
        let s1 = if a2.nr_auctioned_tokens == 0 {
            spec_remove_auction_common(s, auction_id, a2)
        } else {
            Store { auction_by_id: s.auction_by_id.insert(auction_id, a2), ..s }
        };
        let wrapping = spec_require_egld_conversion(auction, payment.token, s.wrapping_token);
        match spec_update_or_remove_items_quantity(s1, a2, buy_amount) {
            Ok(s2) => {
                assert(s2.whitelisted_contracts == s.whitelisted_contracts);
                match spec_nft_info(ctx, a2.auctioned_token_type, a2.auctioned_token_nonce) {
                    Ok(info) => match spec_amount_split(
                        s2.bid_cut_percentage,
                        a2.current_bid,
                        a2.creator_royalties_percentage,
                        spec_collection_config(s2, a2.auctioned_token_type),
                    ) {
                        Ok(d) => {
                            let n = EsdtPayment {
                                token: a2.auctioned_token_type,
                                nonce: a2.auctioned_token_nonce,
                                amount: nft_amount_to_send(a2, Some(buy_amount)),
                            };
                            let st = Settlement {
                                payment_token: a2.payment_token_type,
                                payment_nonce: a2.payment_token_nonce,
                                creator: info.creator,
                                original_owner: a2.original_owner,
                                new_owner: buyer,
                                split: d,
                            };
                            lemma_settlement_sends_the_nft(s2, ctx, n, st, wrapping);
                        },
                        Err(_) => {},
                    },
                    Err(_) => {},
                }
                let ev = Action::Event(
                    Event::Buy {
                        auction_id,
                        auction: a2,
                        nr_bought_tokens: buy_amount,
                        timestamp: ctx.timestamp,
                        message,
                        buy_by: if buy_for is Some { Some(ctx.caller) } else { None },
                        payment,
                    },
                );
                lemma_sent_to_other(ev, buyer, nt, nn);
                lemma_prefixed_sent_to(seq![ev], spec_distribute_tokens(s2, ctx, a2, Some(buy_amount), wrapping), buyer, nt, nn);
            },
            Err(_) => {},
        }
    }
}

} // verus!
