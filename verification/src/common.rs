//! The steps shared by the endpoints: removing listings and offers, checking
//! bids, distributing the proceeds of a sale.
use vstd::prelude::*;

use crate::auction::{
    Address, AggregatorStep, Auction, AuctionType, BufferId, EsdtPayment, FeesDistribution,
    GlobalOffer, Offer, Payment, PaymentToken, TokenAmount, TokenId, NFT_AMOUNT, ZERO_ADDRESS,
};
use crate::collections::{
    amount_at, seq_swap_without, seq_with, seq_without, set_at, with_amount, with_set,
};
use crate::errors::MarketError;
use crate::events::{transfer, Action, Event, EventsModule, SwapCallback};
use crate::helpers::{
    spec_amount_split, spec_collection_config, spec_nft_info, spec_transfer_or_save,
    HelpersModule, Step,
};
use crate::storage::{ChainContext, Marketplace, StorageModule, Store};
use crate::wrapping::WrappingModule;

verus! {

/// Runs `first`, then `next` on the storage it leaves; the actions add up.
pub open spec fn then(first: Step, next: spec_fn(Store) -> Step) -> Step {
    match first {
        Ok((s1, a1)) => match next(s1) {
            Ok((s2, a2)) => Ok((s2, a1 + a2)),
            Err(e) => Err(e),
        },
        Err(e) => Err(e),
    }
}

/// The token and nonce of a listing, as a storage key.
pub open spec fn token_key(auction: Auction) -> (TokenId, u64) {
    (auction.auctioned_token_type, auction.auctioned_token_nonce)
}

/// Takes `quantity` off the quantity for sale of the listed token; when none is
/// left the nonce is no longer for sale, and a collection with no nonce for sale
/// is no longer listed.
pub open spec fn spec_update_or_remove_items_quantity(s: Store, auction: Auction, quantity: u128) -> Result<
    Store,
    MarketError,
> {
    let key = token_key(auction);
    let token = auction.auctioned_token_type;
    let current = amount_at(s.token_items_quantity_for_sale, key);
    if quantity > current {
        Err(MarketError::Overflow)
    } else {
        let left = (current - quantity) as u128;
        let s1 = Store {
            token_items_quantity_for_sale: with_amount(s.token_items_quantity_for_sale, key, left),
            ..s
        };
        let s2 = if left == 0 {
            Store {
                token_items_for_sale: with_set(
                    s1.token_items_for_sale,
                    token,
                    seq_without(set_at(s1.token_items_for_sale, token), key.1),
                ),
                ..s1
            }
        } else {
            s1
        };
        if set_at(s2.token_items_for_sale, token).len() == 0 {
            Ok(Store { collections_listed: seq_without(s2.collections_listed, token), ..s2 })
        } else {
            Ok(s2)
        }
    }
}

/// Forgets listing `auction_id`: its id leaves every index, and the listing is cleared.
pub open spec fn spec_remove_auction_common(s: Store, auction_id: u64, auction: Auction) -> Store {
    let key = token_key(auction);
    let owner = auction.original_owner;
    let winner = auction.current_winner;
    Store {
        token_auction_ids: with_set(
            s.token_auction_ids,
            key,
            seq_without(set_at(s.token_auction_ids, key), auction_id),
        ),
        listings_by_wallet: with_set(
            s.listings_by_wallet,
            owner,
            seq_without(set_at(s.listings_by_wallet, owner), auction_id),
        ),
        listings: seq_without(s.listings, auction_id),
        listings_bids: if winner != ZERO_ADDRESS {
            with_set(
                s.listings_bids,
                winner,
                seq_without(set_at(s.listings_bids, winner), auction_id),
            )
        } else {
            s.listings_bids
        },
        auction_by_id: s.auction_by_id.remove(auction_id),
        ..s
    }
}

/// Returns the listed tokens to their owner.
pub open spec fn spec_return_auction_nft(s: Store, ctx: ChainContext, auction: Auction) -> Step {
    spec_transfer_or_save(
        s,
        ctx,
        auction.original_owner,
        PaymentToken::Esdt(auction.auctioned_token_type),
        auction.auctioned_token_nonce,
        auction.nr_auctioned_tokens,
    )
}

/// A listing can be withdrawn when nobody bid, or when it is a fixed-price sale.
pub open spec fn can_withdraw(auction: Auction) -> bool {
    auction.current_winner == ZERO_ADDRESS || auction.auction_type == AuctionType::SftOnePerPayment
        || auction.auction_type == AuctionType::Nft
}

/// Withdraws a listing: its tokens go back to the owner.
pub open spec fn spec_withdraw_auction_common(
    s: Store,
    ctx: ChainContext,
    auction_id: u64,
    auction: Auction,
) -> Step {
    if !can_withdraw(auction) {
        Err(MarketError::AuctionHasBids)
    } else {
        match spec_update_or_remove_items_quantity(s, auction, auction.nr_auctioned_tokens) {
            Ok(s1) => then(
                spec_return_auction_nft(spec_remove_auction_common(s1, auction_id, auction), ctx, auction),
                |s3: Store| Ok((s3, seq![Action::Event(Event::Withdraw { auction_id, auction })])),
            ),
            Err(e) => Err(e),
        }
    }
}

/// Whether a payment must be converted between EGLD and wrapped EGLD for the listing.
pub open spec fn spec_require_egld_conversion(auction: Auction, payment: PaymentToken, wegld: TokenId) -> bool {
    (auction.payment_token_type.is_egld() && payment == PaymentToken::Esdt(wegld)) || (
    auction.payment_token_type == PaymentToken::Esdt(wegld) && payment.is_egld())
}

/// A bid-type listing (all the units at once, or a single NFT).
pub open spec fn is_bid_type(t: AuctionType) -> bool {
    t == AuctionType::SftAll || t == AuctionType::NftBid
}

/// A listing of all the units with no deadline and a fixed price.
pub open spec fn is_open_ended_fixed_sft_all(auction: Auction) -> bool {
    auction.deadline == 0 && auction.auction_type == AuctionType::SftAll && auction.max_bid
        == Some(auction.min_bid)
}

/// The checks made before a bid or a purchase, in order.
pub open spec fn spec_common_bid_checks(
    s: Store,
    ctx: ChainContext,
    auction: Auction,
    auction_id: u64,
    nft_type: TokenId,
    nft_nonce: u64,
    payment_token: PaymentToken,
    payment_nonce: u64,
    payment_amount: u128,
    wegld: TokenId,
    require_swap: bool,
) -> Result<(), MarketError> {
    let now = ctx.timestamp;
    let is_egld_or_wegld = payment_token.is_egld() || payment_token == PaymentToken::Esdt(wegld);
    let valid_egld_or_wegld = (is_egld_or_wegld && auction.payment_token_type.is_egld()) || (
    auction.payment_token_type == PaymentToken::Esdt(wegld) && is_egld_or_wegld);
    if s.freezed_auctions.contains(auction_id) {
        Err(MarketError::AuctionFrozen)
    } else if !(auction.auctioned_token_type == nft_type && auction.auctioned_token_nonce
        == nft_nonce) {
        Err(MarketError::AuctionTokenMismatch)
    } else if auction.original_owner == ctx.caller {
        Err(MarketError::BidOnOwnToken)
    } else if now < auction.start_time {
        Err(MarketError::AuctionNotStarted)
    } else if auction.deadline != 0 && !is_bid_type(auction.auction_type) && now
        >= auction.deadline {
        Err(MarketError::AuctionEnded)
    } else if is_bid_type(auction.auction_type) && !(now < auction.deadline
        || is_open_ended_fixed_sft_all(auction)) {
        Err(MarketError::AuctionEnded)
    } else if is_bid_type(auction.auction_type) && auction.current_winner == ctx.caller {
        Err(MarketError::OutbidYourself)
    } else if is_bid_type(auction.auction_type) && payment_amount < auction.min_bid {
        Err(MarketError::BidBelowMin)
    } else if is_bid_type(auction.auction_type) && payment_amount <= auction.current_bid {
        Err(MarketError::BidNotAboveCurrent)
    } else if !require_swap && !((payment_token == auction.payment_token_type && payment_nonce
        == auction.payment_token_nonce) || valid_egld_or_wegld) {
        Err(MarketError::WrongPaymentToken)
    } else {
        Ok(())
    }
}

/// The checks before an offer is accepted or declined for a listing.
pub open spec fn spec_common_offer_auction_check(offer: Offer, auction: Auction) -> Result<
    (),
    MarketError,
> {
    if auction.auction_type != AuctionType::Nft {
        Err(MarketError::OfferOnlyForFixedPrice)
    } else if auction.nr_auctioned_tokens != offer.quantity {
        Err(MarketError::ListedQuantityNotMatchingOffer)
    } else if auction.auctioned_token_nonce != offer.token_nonce {
        Err(MarketError::NonceNotMatchingOffer)
    } else if auction.auctioned_token_type != offer.token_type {
        Err(MarketError::ListedTokenNotMatchingOffer)
    } else if offer.offer_owner == auction.original_owner {
        Err(MarketError::OwnOffer)
    } else {
        Ok(())
    }
}

/// Forgets offer `offer_id`.
pub open spec fn spec_common_offer_remove(s: Store, offer_id: u64, offer: Offer) -> Store {
    let key = (offer.token_type, offer.token_nonce);
    Store {
        check_offer_sent: seq_without(
            s.check_offer_sent,
            (offer.offer_owner, offer.token_type, offer.token_nonce, offer.payment_token_type),
        ),
        token_offers_ids: with_set(
            s.token_offers_ids,
            key,
            seq_without(set_at(s.token_offers_ids, key), offer_id),
        ),
        offers_by_wallet: with_set(
            s.offers_by_wallet,
            offer.offer_owner,
            seq_without(set_at(s.offers_by_wallet, offer.offer_owner), offer_id),
        ),
        offer_by_id: s.offer_by_id.remove(offer_id),
        offers: seq_without(s.offers, offer_id),
        ..s
    }
}

/// Withdraws an offer: an offer paid upfront is refunded.
pub open spec fn spec_common_withdraw_offer(s: Store, offer_id: u64, offer: Offer) -> (
    Store,
    Seq<Action>,
) {
    let refund = if !offer.new_version {
        seq![
            transfer(
                offer.offer_owner,
                offer.payment_token_type,
                offer.payment_token_nonce,
                offer.price,
            ),
        ]
    } else {
        seq![]
    };
    (
        spec_common_offer_remove(s, offer_id, offer),
        refund + seq![Action::Event(Event::WithdrawOffer { offer_id, offer })],
    )
}

/// Forgets a global offer; when it is returned, an offer paid upfront is refunded
/// and the removal is logged.
pub open spec fn spec_common_global_offer_remove(
    s: Store,
    ctx: ChainContext,
    offer: GlobalOffer,
    return_offer: bool,
) -> Step {
    let first = if return_offer && !offer.new_version {
        spec_transfer_or_save(
            s,
            ctx,
            offer.owner,
            offer.payment_token,
            offer.payment_nonce,
            offer.price,
        )
    } else {
        Ok((s, seq![]))
    };
    then(
        first,
        |s1: Store|
            {
                let id = offer.offer_id;
                let uc = (offer.owner, offer.collection);
                let s2 = Store {
                    user_collection_global_offers: with_set(
                        s1.user_collection_global_offers,
                        uc,
                        seq_swap_without(set_at(s1.user_collection_global_offers, uc), id),
                    ),
                    collection_global_offers: with_set(
                        s1.collection_global_offers,
                        offer.collection,
                        seq_swap_without(set_at(s1.collection_global_offers, offer.collection), id),
                    ),
                    user_global_offers: with_set(
                        s1.user_global_offers,
                        offer.owner,
                        seq_swap_without(set_at(s1.user_global_offers, offer.owner), id),
                    ),
                    global_offer: s1.global_offer.remove(id),
                    global_offer_ids: seq_swap_without(s1.global_offer_ids, id),
                    ..s1
                };
                Ok(
                    (
                        s2,
                        if return_offer {
                            seq![
                                Action::Event(
                                    Event::RemoveGlobalOffer { offer_id: id, collection: offer.collection },
                                ),
                            ]
                        } else {
                            seq![]
                        },
                    ),
                )
            },
    )
}

/// The marketplace fee goes to the owner of the contract.
pub open spec fn spec_share_marketplace_fees(
    s: Store,
    ctx: ChainContext,
    payment_token: PaymentToken,
    amount: u128,
    payment_nonce: u64,
) -> Step {
    spec_transfer_or_save(s, ctx, ctx.owner, payment_token, payment_nonce, amount)
}

/// When a reward token is set and both the reward balance and the contract's
/// holdings cover two rewards, buyer and seller get one reward each.
pub open spec fn spec_distribute_rewards(
    s: Store,
    ctx: ChainContext,
    buyer: Address,
    seller: Address,
) -> Step {
    match s.reward_ticker {
        None => Ok((s, seq![])),
        Some(ticker) => if ticker.is_egld() {
            Err(MarketError::RewardTickerNotEsdt)
        } else {
            let reward = s.reward_amount;
            let share = 2 * reward;
            if share > u128::MAX {
                Err(MarketError::Overflow)
            } else if s.reward_balance >= share && ctx.reward_token_balance >= share {
                then(
                    spec_transfer_or_save(s, ctx, buyer, ticker, 0, reward),
                    |s1: Store|
                        then(
                            spec_transfer_or_save(s1, ctx, seller, ticker, 0, reward),
                            |s2: Store|
                                Ok(
                                    (
                                        Store {
                                            reward_balance: (s2.reward_balance - share) as u128,
                                            ..s2
                                        },
                                        seq![],
                                    ),
                                ),
                        ),
                )
            } else {
                Ok((s, seq![]))
            }
        },
    }
}

/// The sum a split adds up to.
pub open spec fn split_total(d: FeesDistribution) -> int {
    d.seller + d.creator + d.marketplace + d.extra
}

/// The wrapping call that converts the proceeds of a sale, when one is needed.
pub open spec fn conversion_actions(wrapping: bool, payment_token: PaymentToken, total: int) -> Seq<
    Action,
> {
    if wrapping {
        if payment_token.is_egld() {
            seq![Action::UnwrapEgld { amount: total as u128 }]
        } else {
            seq![Action::WrapEgld { amount: total as u128 }]
        }
    } else {
        seq![]
    }
}

/// The parties and amounts of a settlement.
#[derive(Clone, Copy)]
pub struct Settlement {
    pub payment_token: PaymentToken,
    pub payment_nonce: u64,
    pub creator: Address,
    pub original_owner: Address,
    pub new_owner: Address,
    pub split: FeesDistribution,
}

/// The actions `a` followed by those of `r`.
pub open spec fn prefixed(a: Seq<Action>, r: Step) -> Step {
    match r {
        Ok((s, b)) => Ok((s, a + b)),
        Err(e) => Err(e),
    }
}

pub proof fn lemma_prefixed_empty(r: Step)
    ensures
        prefixed(seq![], r) == r,
{
    match r {
        Ok((s, b)) => {
            assert(Seq::<Action>::empty() + b =~= b);
        },
        Err(_) => {},
    }
}

pub proof fn lemma_prefixed_assoc(a: Seq<Action>, b: Seq<Action>, r: Step)
    ensures
        prefixed(a + b, r) == prefixed(a, prefixed(b, r)),
{
    match r {
        Ok((s, c)) => {
            assert(a + b + c =~= a + (b + c));
        },
        Err(_) => {},
    }
}

/// The result of an endpoint matches `spec`: on success the storage and the
/// actions are those of `spec`; on failure the error is that of `spec`.
pub open spec fn endpoint_matches(
    spec: Step,
    r: Result<Vec<Action>, MarketError>,
    final_store: Store,
) -> bool {
    match spec {
        Ok((s, a)) => r is Ok && r->Ok_0@ == a && final_store == s,
        Err(e) => r == Err::<Vec<Action>, MarketError>(e),
    }
}

/// Step 6 of a settlement: the marketplace fee (to the buyer when the fee is
/// reversed), then the rewards.
pub open spec fn settle_fee(s: Store, ctx: ChainContext, st: Settlement) -> Step {
    let step = if st.split.reverse_cut_fee {
        spec_transfer_or_save(s, ctx, st.new_owner, st.payment_token, st.payment_nonce, st.split.marketplace)
    } else {
        spec_share_marketplace_fees(s, ctx, st.payment_token, st.split.marketplace, st.payment_nonce)
    };
    match step {
        Ok((s1, t)) => prefixed(t, spec_distribute_rewards(s1, ctx, st.new_owner, st.original_owner)),
        Err(e) => Err(e),
    }
}

/// Each of the tokens `nfts` from position `i` on to `to`, in order.
pub open spec fn spec_send_nfts_from(s: Store, ctx: ChainContext, to: Address, nfts: Seq<EsdtPayment>, i: int) -> Step
    decreases nfts.len() - i,
{
    if i >= nfts.len() || i < 0 {
        Ok((s, seq![]))
    } else {
        let n = nfts[i];
        match spec_transfer_or_save(s, ctx, to, PaymentToken::Esdt(n.token), n.nonce, n.amount) {
            Err(e) => Err(e),
            Ok((s1, t)) => prefixed(t, spec_send_nfts_from(s1, ctx, to, nfts, i + 1)),
        }
    }
}

/// Each of the tokens `nfts` to `to`, in order.
pub open spec fn spec_send_nfts(s: Store, ctx: ChainContext, to: Address, nfts: Seq<EsdtPayment>) -> Step {
    spec_send_nfts_from(s, ctx, to, nfts, 0)
}

/// Step 5 of a settlement: the NFTs to the new owner.
pub open spec fn settle_nft(s: Store, ctx: ChainContext, st: Settlement, nfts: Seq<EsdtPayment>) -> Step {
    match spec_send_nfts(s, ctx, st.new_owner, nfts) {
        Ok((s1, t)) => prefixed(t, settle_fee(s1, ctx, st)),
        Err(e) => Err(e),
    }
}

/// Step 4 of a settlement: the seller's part.
pub open spec fn settle_seller(s: Store, ctx: ChainContext, st: Settlement, nfts: Seq<EsdtPayment>) -> Step {
    match spec_transfer_or_save(s, ctx, st.original_owner, st.payment_token, st.payment_nonce, st.split.seller) {
        Ok((s1, t)) => prefixed(t, settle_nft(s1, ctx, st, nfts)),
        Err(e) => Err(e),
    }
}

/// Who receives the royalties: the buyer when they are reversed, else the creator.
pub open spec fn royalties_receiver(st: Settlement) -> Address {
    if st.split.reverse_royalties {
        st.new_owner
    } else {
        st.creator
    }
}

/// Step 3 of a settlement: the royalties.
pub open spec fn settle_royalties(s: Store, ctx: ChainContext, st: Settlement, nfts: Seq<EsdtPayment>) -> Step {
    match spec_transfer_or_save(s, ctx, royalties_receiver(st), st.payment_token, st.payment_nonce, st.split.creator) {
        Ok((s1, t)) => prefixed(t, settle_seller(s1, ctx, st, nfts)),
        Err(e) => Err(e),
    }
}

/// Whether the settlement pays an extra fee.
pub open spec fn pays_extra(d: FeesDistribution) -> bool {
    d.extra > 0 && d.extra_address != ZERO_ADDRESS
}

/// Step 2 of a settlement: the extra fee, when there is one.
pub open spec fn settle_extra(s: Store, ctx: ChainContext, st: Settlement, nfts: Seq<EsdtPayment>) -> Step {
    if pays_extra(st.split) {
        match spec_transfer_or_save(s, ctx, st.split.extra_address, st.payment_token, st.payment_nonce, st.split.extra) {
            Ok((s1, t)) => prefixed(t, settle_royalties(s1, ctx, st, nfts)),
            Err(e) => Err(e),
        }
    } else {
        settle_royalties(s, ctx, st, nfts)
    }
}

/// Pays the extra fee, the royalties, the seller, the new owner (the NFTs) and
/// the marketplace fee, then the rewards; the proceeds are first converted
/// between EGLD and wrapped EGLD when needed.
pub open spec fn spec_distribute_tokens_common(
    s: Store,
    ctx: ChainContext,
    nfts: Seq<EsdtPayment>,
    st: Settlement,
    wrapping: bool,
) -> Step {
    prefixed(conversion_actions(wrapping, st.payment_token, split_total(st.split)), settle_extra(s, ctx, st, nfts))
}

/// Bulk purchase, step 4: the seller's part, then the rewards.
pub open spec fn bulk_settle_seller(s: Store, ctx: ChainContext, st: Settlement) -> Step {
    match spec_transfer_or_save(s, ctx, st.original_owner, st.payment_token, st.payment_nonce, st.split.seller) {
        Ok((s1, t)) => prefixed(t, spec_distribute_rewards(s1, ctx, st.new_owner, st.original_owner)),
        Err(e) => Err(e),
    }
}

/// Bulk purchase, step 3: the royalties.
pub open spec fn bulk_settle_royalties(s: Store, ctx: ChainContext, st: Settlement) -> Step {
    match spec_transfer_or_save(s, ctx, royalties_receiver(st), st.payment_token, st.payment_nonce, st.split.creator) {
        Ok((s1, t)) => prefixed(t, bulk_settle_seller(s1, ctx, st)),
        Err(e) => Err(e),
    }
}

/// Bulk purchase, step 2: the extra fee, when there is one.
pub open spec fn bulk_settle_extra(s: Store, ctx: ChainContext, st: Settlement) -> Step {
    if pays_extra(st.split) {
        match spec_transfer_or_save(s, ctx, st.split.extra_address, st.payment_token, st.payment_nonce, st.split.extra) {
            Ok((s1, t)) => prefixed(t, bulk_settle_royalties(s1, ctx, st)),
            Err(e) => Err(e),
        }
    } else {
        bulk_settle_royalties(s, ctx, st)
    }
}

/// The share of a bulk purchase: as a sale, without the NFT (sent together at
/// the end) and without the marketplace fee (paid once at the end); the
/// conversion leaves the extra fee out.
pub open spec fn spec_distribute_tokens_bulk_buy(s: Store, ctx: ChainContext, st: Settlement, wrapping: bool) -> Step {
    prefixed(
        conversion_actions(wrapping, st.payment_token, st.split.seller + st.split.creator + st.split.marketplace),
        bulk_settle_extra(s, ctx, st),
    )
}

/// How many tokens the winner of a listing receives.
pub open spec fn nft_amount_to_send(auction: Auction, opt_sft_amount: Option<u128>) -> u128 {
    match auction.auction_type {
        AuctionType::Nft => NFT_AMOUNT as u128,
        AuctionType::NftBid => NFT_AMOUNT as u128,
        AuctionType::SftOnePerPayment => match opt_sft_amount {
            Some(a) => a,
            None => NFT_AMOUNT as u128,
        },
        _ => auction.nr_auctioned_tokens,
    }
}

/// Settles a listing: with a winner, the proceeds are split and the tokens go
/// to the winner; without one, the tokens go back to the owner.
pub open spec fn spec_distribute_tokens(
    s: Store,
    ctx: ChainContext,
    auction: Auction,
    opt_sft_amount: Option<u128>,
    wrapping: bool,
) -> Step {
    if auction.current_winner != ZERO_ADDRESS {
        match spec_nft_info(ctx, auction.auctioned_token_type, auction.auctioned_token_nonce) {
            Err(e) => Err(e),
            Ok(info) => match spec_amount_split(
                s.bid_cut_percentage,
                auction.current_bid,
                auction.creator_royalties_percentage,
                spec_collection_config(s, auction.auctioned_token_type),
            ) {
                Err(e) => Err(e),
                Ok(d) => spec_distribute_tokens_common(
                    s,
                    ctx,
                    seq![
                        EsdtPayment {
                            token: auction.auctioned_token_type,
                            nonce: auction.auctioned_token_nonce,
                            amount: nft_amount_to_send(auction, opt_sft_amount),
                        },
                    ],
                    Settlement {
                        payment_token: auction.payment_token_type,
                        payment_nonce: auction.payment_token_nonce,
                        creator: info.creator,
                        original_owner: auction.original_owner,
                        new_owner: auction.current_winner,
                        split: d,
                    },
                    wrapping,
                ),
            },
        }
    } else {
        spec_return_auction_nft(s, ctx, auction)
    }
}

/// Ends a listing: it is removed, logged, and settled.
pub open spec fn spec_end_auction_common(
    s: Store,
    ctx: ChainContext,
    auction_id: u64,
    auction: Auction,
) -> Step {
    match spec_update_or_remove_items_quantity(s, auction, auction.nr_auctioned_tokens) {
        Err(e) => Err(e),
        Ok(s1) => prefixed(
            seq![Action::Event(Event::EndAuction { auction_id, auction })],
            spec_distribute_tokens(
                spec_remove_auction_common(s1, auction_id, auction),
                ctx,
                auction,
                Some(auction.nr_auctioned_tokens),
                false,
            ),
        ),
    }
}

/// The payment the aggregator receives: EGLD is wrapped first.
pub open spec fn aggregator_payment(payment: Payment, wegld: TokenId) -> EsdtPayment {
    match payment.token {
        PaymentToken::Egld => EsdtPayment { token: wegld, nonce: 0, amount: payment.amount },
        PaymentToken::Esdt(t) => EsdtPayment { token: t, nonce: payment.nonce, amount: payment.amount },
    }
}

/// The steps of a swap route, as actions.
pub open spec fn step_actions(steps: Seq<AggregatorStep>) -> Seq<Action> {
    steps.map_values(|x: AggregatorStep| Action::AggregateStep(x))
}

/// The limits of a swap, as actions.
pub open spec fn limit_actions(limits: Seq<TokenAmount>) -> Seq<Action> {
    limits.map_values(|x: TokenAmount| Action::AggregateLimit(x))
}

/// Calls the aggregator with the payment (wrapped when it is EGLD), the route
/// and the limits; its callback completes the purchase.
pub open spec fn spec_aggregate(
    wegld: TokenId,
    callback: SwapCallback,
    gas: u64,
    steps: Seq<AggregatorStep>,
    limits: Seq<TokenAmount>,
) -> Seq<Action> {
    let payment = callback.original_payment;
    let wrap = if payment.token.is_egld() {
        seq![Action::WrapEgld { amount: payment.amount }]
    } else {
        seq![]
    };
    wrap + seq![Action::AggregateCall { payment: aggregator_payment(payment, wegld), gas, callback }]
        + step_actions(steps) + limit_actions(limits)
}

/// The gas a swap purchase needs for a route of `n` steps.
pub open spec fn required_gas(n: nat) -> int {
    20_000_000 + (n as int) * 15_000_000
}

/// A sale of `buy_amount` units of listing `auction_id` to `buyer`: the listing
/// is updated (or removed when nothing is left), logged, and settled.
pub open spec fn spec_sell(
    s: Store,
    ctx: ChainContext,
    auction_id: u64,
    auction: Auction,
    buyer: Address,
    price: u128,
    buy_amount: u128,
    message: Option<BufferId>,
    buy_by: Option<Address>,
    payment: Payment,
    wrapping: bool,
) -> Step {
    if buy_amount > auction.nr_auctioned_tokens {
        Err(MarketError::Overflow)
    } else {
        let a2 = Auction {
            current_winner: buyer,
            current_bid: price,
            nr_auctioned_tokens: (auction.nr_auctioned_tokens - buy_amount) as u128,
            ..auction
        };
        let s1 = if a2.nr_auctioned_tokens == 0 {
            spec_remove_auction_common(s, auction_id, a2)
        } else {
            Store { auction_by_id: s.auction_by_id.insert(auction_id, a2), ..s }
        };
        match spec_update_or_remove_items_quantity(s1, a2, buy_amount) {
            Err(e) => Err(e),
            Ok(s2) => prefixed(
                seq![
                    Action::Event(
                        Event::Buy {
                            auction_id,
                            auction: a2,
                            nr_bought_tokens: buy_amount,
                            timestamp: ctx.timestamp,
                            message,
                            buy_by,
                            payment,
                        },
                    ),
                ],
                spec_distribute_tokens(s2, ctx, a2, Some(buy_amount), wrapping),
            ),
        }
    }
}

/// A purchase of a fixed-price listing: paid directly, or through a swap on
/// the aggregator (the listing stays frozen until the swap calls back).
pub open spec fn spec_common_buy(
    s: Store,
    ctx: ChainContext,
    auction_id: u64,
    nft_type: TokenId,
    nft_nonce: u64,
    opt_sft_buy_amount: Option<u128>,
    buy_for: Option<Address>,
    message: Option<BufferId>,
    swaps: Option<Seq<AggregatorStep>>,
    limits: Option<Seq<TokenAmount>>,
    payment: Payment,
) -> Step {
    if !s.status {
        Err(MarketError::Disabled)
    } else if !s.auction_by_id.contains_key(auction_id) {
        Err(MarketError::AuctionNotFound)
    } else {
        let auction = s.auction_by_id[auction_id];
        let buy_amount = match opt_sft_buy_amount {
            Some(a) => a,
            None => NFT_AMOUNT as u128,
        };
        let buyer = match buy_for {
            Some(b) => b,
            None => ctx.caller,
        };
        let total = buy_amount * auction.min_bid;
        let wegld = s.wrapping_token;
        let require_swap = swaps is Some;
        match spec_common_bid_checks(
            s,
            ctx,
            auction,
            auction_id,
            nft_type,
            nft_nonce,
            payment.token,
            payment.nonce,
            payment.amount,
            wegld,
            require_swap,
        ) {
            Err(e) => Err(e),
            Ok(_) => if buy_amount == 0 {
                Err(MarketError::ZeroBuyAmount)
            } else if !(auction.auction_type == AuctionType::SftOnePerPayment || auction.auction_type
                == AuctionType::Nft) {
                Err(MarketError::CannotBuyAuctionType)
            } else if buy_amount > auction.nr_auctioned_tokens {
                Err(MarketError::NotEnoughQuantity)
            } else if !require_swap {
                if total != payment.amount {
                    Err(MarketError::WrongAmountPaid)
                } else {
                    spec_sell(
                        s,
                        ctx,
                        auction_id,
                        auction,
                        buyer,
                        payment.amount,
                        buy_amount,
                        message,
                        if buy_for is Some { Some(ctx.caller) } else { None },
                        payment,
                        spec_require_egld_conversion(auction, payment.token, wegld),
                    )
                }
            } else if limits is None {
                Err(MarketError::MissingArgument)
            } else if total > u128::MAX {
                Err(MarketError::Overflow)
            } else if required_gas(swaps->0.len()) > u64::MAX {
                Err(MarketError::Overflow)
            } else if ctx.gas_left < required_gas(swaps->0.len()) {
                Err(MarketError::NotEnoughGas)
            } else {
                let extra_limit = TokenAmount {
                    token: match auction.payment_token_type {
                        PaymentToken::Egld => wegld,
                        PaymentToken::Esdt(t) => t,
                    },
                    amount: total as u128,
                };
                Ok(
                    (
                        Store { freezed_auctions: seq_with(s.freezed_auctions, auction_id), ..s },
                        spec_aggregate(
                            wegld,
                            SwapCallback {
                                send_to: buyer,
                                paid_by: ctx.caller,
                                quantity: buy_amount,
                                total_price: total as u128,
                                auction_id,
                                original_payment: payment,
                                message,
                            },
                            required_gas(swaps->0.len()) as u64,
                            swaps->0,
                            limits->0.push(extra_limit),
                        ),
                    ),
                )
            },
        }
    }
}

/// Sends each of the payments to `to`.
pub open spec fn esdt_transfers(to: Address, received: Seq<EsdtPayment>) -> Seq<Action> {
    received.map_values(|p: EsdtPayment| transfer(to, PaymentToken::Esdt(p.token), p.nonce, p.amount))
}

/// The callback of a swap purchase: the listing is unfrozen; when the swap
/// brought at least the price in the listing's token, the change goes back to
/// the payer and the sale completes, otherwise everything received goes back.
pub open spec fn spec_callback_ash(
    s: Store,
    ctx: ChainContext,
    cb: SwapCallback,
    received: Seq<EsdtPayment>,
) -> Step {
    let s1 = Store { freezed_auctions: seq_swap_without(s.freezed_auctions, cb.auction_id), ..s };
    let wegld = s.wrapping_token;
    if received.len() > 0 {
        let p = received[0];
        if !s1.auction_by_id.contains_key(cb.auction_id) {
            Err(MarketError::AuctionNotFound)
        } else {
            let auction = s1.auction_by_id[cb.auction_id];
            let token = PaymentToken::Esdt(p.token);
            let wrapping = spec_require_egld_conversion(auction, token, wegld);
            if p.amount >= cb.total_price && (token == auction.payment_token_type || wrapping) {
                match spec_transfer_or_save(
                    s1,
                    ctx,
                    cb.paid_by,
                    token,
                    p.nonce,
                    (p.amount - cb.total_price) as u128,
                ) {
                    Err(e) => Err(e),
                    Ok((s2, t1)) => prefixed(
                        t1,
                        spec_sell(
                            s2,
                            ctx,
                            cb.auction_id,
                            auction,
                            cb.send_to,
                            cb.total_price,
                            cb.quantity,
                            cb.message,
                            if cb.paid_by == cb.send_to { None } else { Some(cb.paid_by) },
                            cb.original_payment,
                            wrapping,
                        ),
                    ),
                }
            } else {
                Ok((s1, esdt_transfers(cb.paid_by, received)))
            }
        }
    } else {
        Ok((s1, esdt_transfers(cb.paid_by, received)))
    }
}

/// The result of an exec step that matches `spec`: on success the storage and
/// the new actions are those of `spec`; on failure the error is that of `spec`.
pub open spec fn step_matches(
    spec: Step,
    r: Result<(), MarketError>,
    final_store: Store,
    old_acts: Seq<Action>,
    final_acts: Seq<Action>,
) -> bool {
    match spec {
        Ok((s, a)) => r is Ok && final_store == s && final_acts == old_acts + a,
        Err(e) => r == Err::<(), MarketError>(e),
    }
}

/// The endpoint of the aggregator contract that a swap purchase calls: it
/// swaps the tokens sent along `steps`, within `limits`, and returns what it
/// obtained. The marketplace asks for the call with `Action::AggregateCall`.
pub trait AshContract {
    fn aggregate(&mut self, steps: Vec<AggregatorStep>, limits: Vec<TokenAmount>) -> Vec<EsdtPayment>;
}

/// The steps shared by the endpoints.
pub trait CommonModule: StorageModule + HelpersModule + EventsModule + WrappingModule {
    fn update_or_remove_items_quantity(&mut self, auction: &Auction, quantity: u128) -> (r: Result<
        (),
        MarketError,
    >)
        requires
            old(self).inv(),
        ensures
            final(self).inv(),
            match spec_update_or_remove_items_quantity(old(self).store(), *auction, quantity) {
                Ok(s) => r is Ok && final(self).store() == s,
                Err(e) => r == Err::<(), MarketError>(e),
            },
            r is Err ==> final(self).store() == old(self).store(),
    ;

    fn remove_auction_common(&mut self, auction_id: u64, auction: &Auction)
        requires
            old(self).inv(),
        ensures
            final(self).inv(),
            final(self).store() == spec_remove_auction_common(old(self).store(), auction_id, *auction),
    ;

    fn return_auction_nft(&mut self, ctx: &ChainContext, auction: &Auction, acts: &mut Vec<Action>) -> (r:
        Result<(), MarketError>)
        requires
            old(self).inv(),
        ensures
            final(self).inv(),
            step_matches(
                spec_return_auction_nft(old(self).store(), *ctx, *auction),
                r,
                final(self).store(),
                old(acts)@,
                final(acts)@,
            ),
            r is Err ==> final(self).store() == old(self).store(),
    ;

    fn withdraw_auction_common(
        &mut self,
        ctx: &ChainContext,
        auction_id: u64,
        auction: &Auction,
        acts: &mut Vec<Action>,
    ) -> (r: Result<(), MarketError>)
        requires
            old(self).inv(),
        ensures
            final(self).inv(),
            step_matches(
                spec_withdraw_auction_common(old(self).store(), *ctx, auction_id, *auction),
                r,
                final(self).store(),
                old(acts)@,
                final(acts)@,
            ),
    ;

    fn require_egld_conversion(&self, auction: &Auction, payment: PaymentToken, wegld: TokenId) -> (r:
        bool)
        ensures
            r == spec_require_egld_conversion(*auction, payment, wegld),
    ;

    fn common_bid_checks(
        &self,
        ctx: &ChainContext,
        auction: &Auction,
        auction_id: u64,
        nft_type: TokenId,
        nft_nonce: u64,
        payment_token: PaymentToken,
        payment_nonce: u64,
        payment_amount: u128,
        wegld: TokenId,
        require_swap: bool,
    ) -> (r: Result<(), MarketError>)
        requires
            self.inv(),
        ensures
            r == spec_common_bid_checks(
                self.store(),
                *ctx,
                *auction,
                auction_id,
                nft_type,
                nft_nonce,
                payment_token,
                payment_nonce,
                payment_amount,
                wegld,
                require_swap,
            ),
    ;

    fn common_offer_auction_check(&self, offer: &Offer, auction: &Auction) -> (r: Result<
        (),
        MarketError,
    >)
        ensures
            r == spec_common_offer_auction_check(*offer, *auction),
    ;

    fn common_offer_remove(&mut self, offer_id: u64, offer: &Offer)
        requires
            old(self).inv(),
        ensures
            final(self).inv(),
            final(self).store() == spec_common_offer_remove(old(self).store(), offer_id, *offer),
    ;

    fn common_withdraw_offer(&mut self, offer_id: u64, offer: &Offer, acts: &mut Vec<Action>)
        requires
            old(self).inv(),
        ensures
            final(self).inv(),
            final(self).store() == spec_common_withdraw_offer(old(self).store(), offer_id, *offer).0,
            final(acts)@ == old(acts)@ + spec_common_withdraw_offer(
                old(self).store(),
                offer_id,
                *offer,
            ).1,
    ;

    fn common_global_offer_remove(
        &mut self,
        ctx: &ChainContext,
        offer: &GlobalOffer,
        return_offer: bool,
        acts: &mut Vec<Action>,
    ) -> (r: Result<(), MarketError>)
        requires
            old(self).inv(),
        ensures
            final(self).inv(),
            step_matches(
                spec_common_global_offer_remove(old(self).store(), *ctx, *offer, return_offer),
                r,
                final(self).store(),
                old(acts)@,
                final(acts)@,
            ),
            r is Err ==> final(self).store() == old(self).store(),
    ;

    fn share_marketplace_fees(
        &mut self,
        ctx: &ChainContext,
        payment_token: PaymentToken,
        amount: u128,
        payment_nonce: u64,
        acts: &mut Vec<Action>,
    ) -> (r: Result<(), MarketError>)
        requires
            old(self).inv(),
        ensures
            final(self).inv(),
            step_matches(
                spec_share_marketplace_fees(old(self).store(), *ctx, payment_token, amount, payment_nonce),
                r,
                final(self).store(),
                old(acts)@,
                final(acts)@,
            ),
            r is Err ==> final(self).store() == old(self).store(),
    ;

    fn distribute_rewards(
        &mut self,
        ctx: &ChainContext,
        buyer: Address,
        seller: Address,
        acts: &mut Vec<Action>,
    ) -> (r: Result<(), MarketError>)
        requires
            old(self).inv(),
        ensures
            final(self).inv(),
            step_matches(
                spec_distribute_rewards(old(self).store(), *ctx, buyer, seller),
                r,
                final(self).store(),
                old(acts)@,
                final(acts)@,
            ),
    ;

    fn distribute_tokens_common(
        &mut self,
        ctx: &ChainContext,
        nfts: &Vec<EsdtPayment>,
        payment_token: PaymentToken,
        payment_nonce: u64,
        creator: Address,
        original_owner: Address,
        new_owner: Address,
        bid_split_amounts: &FeesDistribution,
        wrapping: bool,
        acts: &mut Vec<Action>,
    ) -> (r: Result<(), MarketError>)
        requires
            old(self).inv(),
            split_total(*bid_split_amounts) <= u128::MAX,
        ensures
            final(self).inv(),
            step_matches(
                spec_distribute_tokens_common(
                    old(self).store(),
                    *ctx,
                    nfts@,
                    Settlement {
                        payment_token,
                        payment_nonce,
                        creator,
                        original_owner,
                        new_owner,
                        split: *bid_split_amounts,
                    },
                    wrapping,
                ),
                r,
                final(self).store(),
                old(acts)@,
                final(acts)@,
            ),
    ;

    fn distribute_tokens_bulk_buy(
        &mut self,
        ctx: &ChainContext,
        payment_token: PaymentToken,
        payment_nonce: u64,
        creator: Address,
        original_owner: Address,
        new_owner: Address,
        bid_split_amounts: &FeesDistribution,
        wrapping: bool,
        acts: &mut Vec<Action>,
    ) -> (r: Result<(), MarketError>)
        requires
            old(self).inv(),
            split_total(*bid_split_amounts) <= u128::MAX,
        ensures
            final(self).inv(),
            step_matches(
                spec_distribute_tokens_bulk_buy(
                    old(self).store(),
                    *ctx,
                    Settlement {
                        payment_token,
                        payment_nonce,
                        creator,
                        original_owner,
                        new_owner,
                        split: *bid_split_amounts,
                    },
                    wrapping,
                ),
                r,
                final(self).store(),
                old(acts)@,
                final(acts)@,
            ),
    ;

    fn distribute_tokens(
        &mut self,
        ctx: &ChainContext,
        auction: &Auction,
        opt_sft_amount: Option<u128>,
        wrapping: bool,
        acts: &mut Vec<Action>,
    ) -> (r: Result<(), MarketError>)
        requires
            old(self).inv(),
        ensures
            final(self).inv(),
            step_matches(
                spec_distribute_tokens(old(self).store(), *ctx, *auction, opt_sft_amount, wrapping),
                r,
                final(self).store(),
                old(acts)@,
                final(acts)@,
            ),
    ;

    fn end_auction_common(
        &mut self,
        ctx: &ChainContext,
        auction_id: u64,
        auction: &Auction,
        acts: &mut Vec<Action>,
    ) -> (r: Result<(), MarketError>)
        requires
            old(self).inv(),
        ensures
            final(self).inv(),
            step_matches(
                spec_end_auction_common(old(self).store(), *ctx, auction_id, *auction),
                r,
                final(self).store(),
                old(acts)@,
                final(acts)@,
            ),
    ;
    /// Calls the aggregator for a swap purchase (see `spec_aggregate`).
    fn aggregate(
        &self,
        callback: SwapCallback,
        gas: u64,
        steps: &Vec<AggregatorStep>,
        limits: &Vec<TokenAmount>,
        acts: &mut Vec<Action>,
    )
        ensures
            final(acts)@ == old(acts)@ + spec_aggregate(self.store().wrapping_token, callback, gas, steps@, limits@),
    ;

    /// A sale of units of a listing (see `spec_sell`).
    fn sell(
        &mut self,
        ctx: &ChainContext,
        auction_id: u64,
        auction: &Auction,
        buyer: Address,
        price: u128,
        buy_amount: u128,
        message: Option<BufferId>,
        buy_by: Option<Address>,
        payment: Payment,
        wrapping: bool,
        acts: &mut Vec<Action>,
    ) -> (r: Result<(), MarketError>)
        requires
            old(self).inv(),
        ensures
            final(self).inv(),
            step_matches(
                spec_sell(old(self).store(), *ctx, auction_id, *auction, buyer, price, buy_amount, message, buy_by, payment, wrapping),
                r,
                final(self).store(),
                old(acts)@,
                final(acts)@,
            ),
    ;

    /// A purchase (see `spec_common_buy`).
    fn common_buy(
        &mut self,
        ctx: &ChainContext,
        auction_id: u64,
        nft_type: TokenId,
        nft_nonce: u64,
        opt_sft_buy_amount: Option<u128>,
        buy_for: Option<Address>,
        message: Option<BufferId>,
        swaps: Option<Vec<AggregatorStep>>,
        limits: Option<Vec<TokenAmount>>,
        payment: Payment,
    ) -> (r: Result<Vec<Action>, MarketError>)
        requires
            old(self).inv(),
        ensures
            final(self).inv(),
            endpoint_matches(
                spec_common_buy(
                    old(self).store(),
                    *ctx,
                    auction_id,
                    nft_type,
                    nft_nonce,
                    opt_sft_buy_amount,
                    buy_for,
                    message,
                    match swaps { Some(v) => Some(v@), None => None },
                    match limits { Some(v) => Some(v@), None => None },
                    payment,
                ),
                r,
                final(self).store(),
            ),
    ;

    /// The callback of a swap purchase (see `spec_callback_ash`).
    fn callback_ash(
        &mut self,
        ctx: &ChainContext,
        callback: SwapCallback,
        received: &Vec<EsdtPayment>,
    ) -> (r: Result<Vec<Action>, MarketError>)
        requires
            old(self).inv(),
        ensures
            final(self).inv(),
            endpoint_matches(spec_callback_ash(old(self).store(), *ctx, callback, received@), r, final(self).store()),
            r is Err ==> final(self).store() == old(self).store(),
    ;
}

impl CommonModule for Marketplace {
    fn aggregate(
        &self,
        callback: SwapCallback,
        gas: u64,
        steps: &Vec<AggregatorStep>,
        limits: &Vec<TokenAmount>,
        acts: &mut Vec<Action>,
    ) {
        let ghost a0 = acts@;
        let payment = callback.original_payment;
        let final_payment = match payment.token {
            PaymentToken::Egld => {
                self.wrap_egld(payment.amount, acts);
                EsdtPayment { token: self.wrapping_token, nonce: 0, amount: payment.amount }
            },
            PaymentToken::Esdt(t) => EsdtPayment { token: t, nonce: payment.nonce, amount: payment.amount },
        };
        let ghost a1 = acts@;
        acts.push(Action::AggregateCall { payment: final_payment, gas, callback });
        let ghost a2 = acts@;
        let mut i: usize = 0;
        while i < steps.len()
            invariant
                i <= steps@.len(),
                acts@ == a2 + step_actions(steps@.subrange(0, i as int)),
            decreases steps@.len() - i,
        {
            acts.push(Action::AggregateStep(steps[i]));
            i += 1;
            assert(step_actions(steps@.subrange(0, i as int)) =~= step_actions(steps@.subrange(0, i - 1)).push(Action::AggregateStep(steps@[i - 1])));
        }
        assert(steps@.subrange(0, steps@.len() as int) =~= steps@);
        let ghost a3 = acts@;
        let mut j: usize = 0;
        while j < limits.len()
            invariant
                j <= limits@.len(),
                acts@ == a3 + limit_actions(limits@.subrange(0, j as int)),
            decreases limits@.len() - j,
        {
            acts.push(Action::AggregateLimit(limits[j]));
            j += 1;
            assert(limit_actions(limits@.subrange(0, j as int)) =~= limit_actions(limits@.subrange(0, j - 1)).push(Action::AggregateLimit(limits@[j - 1])));
        }
        assert(limits@.subrange(0, limits@.len() as int) =~= limits@);
        proof {
            let wrap = if payment.token.is_egld() {
                seq![Action::WrapEgld { amount: payment.amount }]
            } else {
                seq![]
            };
            assert(a1 =~= a0 + wrap);
            assert(acts@ =~= a0 + (wrap + seq![Action::AggregateCall { payment: aggregator_payment(payment, self.store().wrapping_token), gas, callback }]
                + step_actions(steps@) + limit_actions(limits@)));
        }
    }

    fn sell(
        &mut self,
        ctx: &ChainContext,
        auction_id: u64,
        auction: &Auction,
        buyer: Address,
        price: u128,
        buy_amount: u128,
        message: Option<BufferId>,
        buy_by: Option<Address>,
        payment: Payment,
        wrapping: bool,
        acts: &mut Vec<Action>,
    ) -> (r: Result<(), MarketError>) {
        if buy_amount > auction.nr_auctioned_tokens {
            return Err(MarketError::Overflow);
        }
        let mut a2 = *auction;
        a2.current_winner = buyer;
        a2.current_bid = price;
        a2.nr_auctioned_tokens = auction.nr_auctioned_tokens - buy_amount;
        if a2.nr_auctioned_tokens == 0 {
            self.remove_auction_common(auction_id, &a2);
        } else {
            self.auction_by_id.insert(auction_id, a2);
        }
        self.update_or_remove_items_quantity(&a2, buy_amount)?;
        let ev = self.emit_buy_event(auction_id, &a2, buy_amount, ctx.timestamp, message, buy_by, payment);
        let ghost a0 = acts@;
        acts.push(Action::Event(ev));
        let ghost s2 = self.store();
        let r = self.distribute_tokens(ctx, &a2, Some(buy_amount), wrapping, acts);
        proof {
            match spec_distribute_tokens(s2, *ctx, a2, Some(buy_amount), wrapping) {
                Ok((_, t)) => {
                    assert(acts@ =~= a0 + (seq![Action::Event(ev)] + t));
                },
                Err(_) => {},
            }
        }
        r
    }

    fn common_buy(
        &mut self,
        ctx: &ChainContext,
        auction_id: u64,
        nft_type: TokenId,
        nft_nonce: u64,
        opt_sft_buy_amount: Option<u128>,
        buy_for: Option<Address>,
        message: Option<BufferId>,
        swaps: Option<Vec<AggregatorStep>>,
        limits: Option<Vec<TokenAmount>>,
        payment: Payment,
    ) -> (r: Result<Vec<Action>, MarketError>) {
        if !self.status {
            return Err(MarketError::Disabled);
        }
        let auction = self.try_get_auction(auction_id)?;
        let caller = ctx.caller;
        let buy_amount = match opt_sft_buy_amount {
            Some(a) => a,
            None => NFT_AMOUNT as u128,
        };
        let buyer = match buy_for {
            Some(b) => b,
            None => caller,
        };
        let total_value = buy_amount.checked_mul(auction.min_bid);
        let wegld = self.wrapping_token;
        let require_swap = swaps.is_some();
        self.common_bid_checks(
            ctx,
            &auction,
            auction_id,
            nft_type,
            nft_nonce,
            payment.token,
            payment.nonce,
            payment.amount,
            wegld,
            require_swap,
        )?;
        if buy_amount == 0 {
            return Err(MarketError::ZeroBuyAmount);
        }
        if !(auction.auction_type == AuctionType::SftOnePerPayment || auction.auction_type
            == AuctionType::Nft) {
            return Err(MarketError::CannotBuyAuctionType);
        }
        if buy_amount > auction.nr_auctioned_tokens {
            return Err(MarketError::NotEnoughQuantity);
        }
        let mut acts: Vec<Action> = Vec::new();
        match swaps {
            None => {
                let paid_exactly = match total_value {
                    Some(t) => t == payment.amount,
                    None => false,
                };
                if !paid_exactly {
                    return Err(MarketError::WrongAmountPaid);
                }
                let buy_by = match buy_for {
                    Some(_) => Some(caller),
                    None => None,
                };
                let wrapping = self.require_egld_conversion(&auction, payment.token, wegld);
                let r = self.sell(
                    ctx,
                    auction_id,
                    &auction,
                    buyer,
                    payment.amount,
                    buy_amount,
                    message,
                    buy_by,
                    payment,
                    wrapping,
                    &mut acts,
                );
                proof {
                    match spec_sell(old(self).store(), *ctx, auction_id, auction, buyer, payment.amount, buy_amount, message, buy_by, payment, wrapping) {
                        Ok((_, t)) => {
                            assert(acts@ =~= t);
                        },
                        Err(_) => {},
                    }
                }
                match r {
                    Ok(()) => Ok(acts),
                    Err(e) => Err(e),
                }
            },
            Some(steps) => {
                let limits = match limits {
                    Some(l) => l,
                    None => {
                        return Err(MarketError::MissingArgument);
                    },
                };
                let total = match total_value {
                    Some(t) => t,
                    None => {
                        return Err(MarketError::Overflow);
                    },
                };
                let n = steps.len();
                let needed: u128 = 20_000_000 + (n as u128) * 15_000_000;
                let req_gas: u64 = if needed <= u64::MAX as u128 {
                    needed as u64
                } else {
                    return Err(MarketError::Overflow);
                };
                let mut limits = limits;
                let extra_limit = TokenAmount {
                    token: match auction.payment_token_type {
                        PaymentToken::Egld => wegld,
                        PaymentToken::Esdt(t) => t,
                    },
                    amount: total,
                };
                limits.push(extra_limit);
                self.freezed_auctions.insert(auction_id);
                if ctx.gas_left < req_gas {
                    return Err(MarketError::NotEnoughGas);
                }
                let callback = SwapCallback {
                    send_to: buyer,
                    paid_by: caller,
                    quantity: buy_amount,
                    total_price: total,
                    auction_id,
                    original_payment: payment,
                    message,
                };
                self.aggregate(callback, req_gas, &steps, &limits, &mut acts);
                assert(acts@ =~= seq![] + acts@);
                Ok(acts)
            },
        }
    }

    fn callback_ash(
        &mut self,
        ctx: &ChainContext,
        callback: SwapCallback,
        received: &Vec<EsdtPayment>,
    ) -> (r: Result<Vec<Action>, MarketError>) {
        let saved = self.duplicate();
        let r = self.attempt_callback_ash(ctx, callback, received);
        if r.is_err() {
            *self = saved;
        }
        r
    }

    fn update_or_remove_items_quantity(&mut self, auction: &Auction, quantity: u128) -> (r: Result<
        (),
        MarketError,
    >) {
        let key = (auction.auctioned_token_type, auction.auctioned_token_nonce);
        let token = auction.auctioned_token_type;
        let current = self.token_items_quantity_for_sale.get(&key);
        if quantity > current {
            return Err(MarketError::Overflow);
        }
        let left = current - quantity;
        self.token_items_quantity_for_sale.set(key, left);
        if left == 0 {
            self.token_items_for_sale.remove(&token, &auction.auctioned_token_nonce);
        }
        if self.token_items_for_sale.len(&token) == 0 {
            self.collections_listed.remove(&token);
        }
        Ok(())
    }

    fn remove_auction_common(&mut self, auction_id: u64, auction: &Auction) {
        let key = (auction.auctioned_token_type, auction.auctioned_token_nonce);
        self.token_auction_ids.remove(&key, &auction_id);
        self.listings_by_wallet.remove(&auction.original_owner, &auction_id);
        self.listings.remove(&auction_id);
        if auction.current_winner != ZERO_ADDRESS {
            self.listings_bids.remove(&auction.current_winner, &auction_id);
        }
        let _ = self.auction_by_id.remove(&auction_id);
    }

    fn return_auction_nft(&mut self, ctx: &ChainContext, auction: &Auction, acts: &mut Vec<Action>) -> (r:
        Result<(), MarketError>) {
        self.transfer_or_save_payment(
            ctx,
            auction.original_owner,
            PaymentToken::Esdt(auction.auctioned_token_type),
            auction.auctioned_token_nonce,
            auction.nr_auctioned_tokens,
            acts,
        )
    }

    fn withdraw_auction_common(
        &mut self,
        ctx: &ChainContext,
        auction_id: u64,
        auction: &Auction,
        acts: &mut Vec<Action>,
    ) -> (r: Result<(), MarketError>) {
        if !(auction.current_winner == ZERO_ADDRESS || auction.auction_type
            == AuctionType::SftOnePerPayment || auction.auction_type == AuctionType::Nft) {
            return Err(MarketError::AuctionHasBids);
        }
        let ghost a0 = acts@;
        self.update_or_remove_items_quantity(auction, auction.nr_auctioned_tokens)?;
        self.remove_auction_common(auction_id, auction);
        let ghost s2 = self.store();
        self.return_auction_nft(ctx, auction, acts)?;
        let ev = self.emit_withdraw_event(auction_id, auction);
        acts.push(Action::Event(ev));
        proof {
            let sp = spec_return_auction_nft(s2, *ctx, *auction);
            match sp {
                Ok((s3, ra)) => {
                    assert(acts@ =~= a0 + (ra + seq![Action::Event(ev)]));
                },
                Err(_) => {},
            }
        }
        Ok(())
    }

    fn require_egld_conversion(&self, auction: &Auction, payment: PaymentToken, wegld: TokenId) -> (r:
        bool) {
        (auction.payment_token_type.is_egld() && payment == PaymentToken::Esdt(wegld)) || (
        auction.payment_token_type == PaymentToken::Esdt(wegld) && payment.is_egld())
    }

    fn common_bid_checks(
        &self,
        ctx: &ChainContext,
        auction: &Auction,
        auction_id: u64,
        nft_type: TokenId,
        nft_nonce: u64,
        payment_token: PaymentToken,
        payment_nonce: u64,
        payment_amount: u128,
        wegld: TokenId,
        require_swap: bool,
    ) -> (r: Result<(), MarketError>) {
        let caller = ctx.caller;
        let current_time = ctx.timestamp;
        if self.freezed_auctions.contains(&auction_id) {
            return Err(MarketError::AuctionFrozen);
        }
        if !(auction.auctioned_token_type == nft_type && auction.auctioned_token_nonce
            == nft_nonce) {
            return Err(MarketError::AuctionTokenMismatch);
        }
        if auction.original_owner == caller {
            return Err(MarketError::BidOnOwnToken);
        }
        if current_time < auction.start_time {
            return Err(MarketError::AuctionNotStarted);
        }
        let bid_type = auction.auction_type == AuctionType::SftAll || auction.auction_type
            == AuctionType::NftBid;
        if auction.deadline != 0 && !bid_type {
            if current_time >= auction.deadline {
                return Err(MarketError::AuctionEnded);
            }
        }
        if bid_type {
            let open_ended = auction.deadline == 0 && auction.auction_type == AuctionType::SftAll
                && match auction.max_bid {
                Some(m) => auction.min_bid == m,
                None => false,
            };
            if !(current_time < auction.deadline || open_ended) {
                return Err(MarketError::AuctionEnded);
            }
            if auction.current_winner == caller {
                return Err(MarketError::OutbidYourself);
            }
            if payment_amount < auction.min_bid {
                return Err(MarketError::BidBelowMin);
            }
            if payment_amount <= auction.current_bid {
                return Err(MarketError::BidNotAboveCurrent);
            }
        }
        let is_egld_or_wegld = payment_token.is_egld() || payment_token == PaymentToken::Esdt(
            wegld,
        );
        let valid_payment_egld_or_wegld = (is_egld_or_wegld
            && auction.payment_token_type.is_egld()) || (auction.payment_token_type
            == PaymentToken::Esdt(wegld) && is_egld_or_wegld);
        if !require_swap {
            if !((payment_token == auction.payment_token_type && payment_nonce
                == auction.payment_token_nonce) || valid_payment_egld_or_wegld) {
                return Err(MarketError::WrongPaymentToken);
            }
        }
        Ok(())
    }

    fn common_offer_auction_check(&self, offer: &Offer, auction: &Auction) -> (r: Result<
        (),
        MarketError,
    >) {
        if auction.auction_type != AuctionType::Nft {
            return Err(MarketError::OfferOnlyForFixedPrice);
        }
        if auction.nr_auctioned_tokens != offer.quantity {
            return Err(MarketError::ListedQuantityNotMatchingOffer);
        }
        if auction.auctioned_token_nonce != offer.token_nonce {
            return Err(MarketError::NonceNotMatchingOffer);
        }
        if auction.auctioned_token_type != offer.token_type {
            return Err(MarketError::ListedTokenNotMatchingOffer);
        }
        if offer.offer_owner == auction.original_owner {
            return Err(MarketError::OwnOffer);
        }
        Ok(())
    }

    fn common_offer_remove(&mut self, offer_id: u64, offer: &Offer) {
        let ghost s0 = self.store();
        proof {
            crate::storage::lemma_offer_ids_counted_remove(
                s0.offer_by_id,
                s0.offers,
                s0.offers_by_wallet,
                s0.token_offers_ids,
                s0.last_valid_offer_id,
                offer_id,
                offer.offer_owner,
                (offer.token_type, offer.token_nonce),
            );
        }
        self.check_offer_sent.remove(
            &(offer.offer_owner, offer.token_type, offer.token_nonce, offer.payment_token_type),
        );
        self.token_offers_ids.remove(&(offer.token_type, offer.token_nonce), &offer_id);
        self.offers_by_wallet.remove(&offer.offer_owner, &offer_id);
        let _ = self.offer_by_id.remove(&offer_id);
        self.offers.remove(&offer_id);
    }

    fn common_withdraw_offer(&mut self, offer_id: u64, offer: &Offer, acts: &mut Vec<Action>) {
        let ghost a0 = acts@;
        if !offer.new_version {
            acts.push(
                Action::Transfer {
                    to: offer.offer_owner,
                    token: offer.payment_token_type,
                    nonce: offer.payment_token_nonce,
                    amount: offer.price,
                },
            );
        }
        self.common_offer_remove(offer_id, offer);
        let ev = self.emit_withdraw_offer_event(offer_id, offer);
        acts.push(Action::Event(ev));
        assert(acts@ =~= a0 + spec_common_withdraw_offer(old(self).store(), offer_id, *offer).1);
    }

    fn common_global_offer_remove(
        &mut self,
        ctx: &ChainContext,
        offer: &GlobalOffer,
        return_offer: bool,
        acts: &mut Vec<Action>,
    ) -> (r: Result<(), MarketError>) {
        let ghost a0 = acts@;
        let ghost s0 = self.store();
        if return_offer && !offer.new_version {
            self.transfer_or_save_payment(
                ctx,
                offer.owner,
                offer.payment_token,
                offer.payment_nonce,
                offer.price,
                acts,
            )?;
        } else {
            assert(a0 + seq![] =~= a0);
        }
        let ghost a1 = acts@;
        let id = offer.offer_id;
        self.user_collection_global_offers.swap_remove(&(offer.owner, offer.collection), &id);
        self.collection_global_offers.swap_remove(&offer.collection, &id);
        self.user_global_offers.swap_remove(&offer.owner, &id);
        let _ = self.global_offer.remove(&id);
        self.global_offer_ids.swap_remove(&id);
        if return_offer {
            let ev = self.emit_remove_global_offer_event(id, offer.collection);
            acts.push(Action::Event(ev));
        }
        proof {
            let tail: Seq<Action> = if return_offer {
                seq![
                    Action::Event(Event::RemoveGlobalOffer { offer_id: id, collection: offer.collection }),
                ]
            } else {
                seq![]
            };
            let first = if return_offer && !offer.new_version {
                spec_transfer_or_save(
                    s0,
                    *ctx,
                    offer.owner,
                    offer.payment_token,
                    offer.payment_nonce,
                    offer.price,
                )
            } else {
                Ok((s0, seq![]))
            };
            let t1 = first->Ok_0.1;
            assert(a1 == a0 + t1);
            assert(acts@ =~= a0 + (t1 + tail));
        }
        Ok(())
    }

    fn share_marketplace_fees(
        &mut self,
        ctx: &ChainContext,
        payment_token: PaymentToken,
        amount: u128,
        payment_nonce: u64,
        acts: &mut Vec<Action>,
    ) -> (r: Result<(), MarketError>) {
        self.transfer_or_save_payment(ctx, ctx.owner, payment_token, payment_nonce, amount, acts)
    }

    fn distribute_rewards(
        &mut self,
        ctx: &ChainContext,
        buyer: Address,
        seller: Address,
        acts: &mut Vec<Action>,
    ) -> (r: Result<(), MarketError>) {
        let ghost a0 = acts@;
        match self.reward_ticker {
            None => {
                assert(a0 + seq![] =~= a0);
                Ok(())
            },
            Some(ticker) => {
                if ticker.is_egld() {
                    return Err(MarketError::RewardTickerNotEsdt);
                }
                let reward = self.reward_amount;
                let reward_to_share = match reward.checked_mul(2) {
                    Some(v) => v,
                    None => {
                        return Err(MarketError::Overflow);
                    },
                };
                if self.reward_balance >= reward_to_share && ctx.reward_token_balance
                    >= reward_to_share {
                    let ghost s0 = self.store();
                    self.transfer_or_save_payment(ctx, buyer, ticker, 0, reward, acts)?;
                    let ghost s1 = self.store();
                    let ghost a1 = acts@;
                    self.transfer_or_save_payment(ctx, seller, ticker, 0, reward, acts)?;
                    let ghost s2 = self.store();
                    proof {
                        assert(self.reward_balance == s0.reward_balance);
                    }
                    self.reward_balance = self.reward_balance - reward_to_share;
                    proof {
                        let (_, t1) = spec_transfer_or_save(s0, *ctx, buyer, ticker, 0, reward)->Ok_0;
                        let (_, t2) = spec_transfer_or_save(s1, *ctx, seller, ticker, 0, reward)->Ok_0;
                        assert(acts@ =~= a0 + (t1 + (t2 + seq![])));
                        assert(self.store() == Store { reward_balance: (s2.reward_balance - reward_to_share) as u128, ..s2 });
                    }
                    Ok(())
                } else {
                    assert(a0 + seq![] =~= a0);
                    Ok(())
                }
            },
        }
    }

    fn distribute_tokens_common(
        &mut self,
        ctx: &ChainContext,
        nfts: &Vec<EsdtPayment>,
        payment_token: PaymentToken,
        payment_nonce: u64,
        creator: Address,
        original_owner: Address,
        new_owner: Address,
        bid_split_amounts: &FeesDistribution,
        wrapping: bool,
        acts: &mut Vec<Action>,
    ) -> (r: Result<(), MarketError>) {
        let st = Settlement {
            payment_token,
            payment_nonce,
            creator,
            original_owner,
            new_owner,
            split: *bid_split_amounts,
        };
        let ghost a0 = acts@;
        self.convert_proceeds(wrapping, payment_token, split_sum(&st.split), acts);
        let ghost a1 = acts@;
        let r = self.settle_extra_exec(ctx, &st, nfts, acts);
        proof {
            match settle_extra(old(self).store(), *ctx, st, nfts@) {
                Ok((s2, t)) => {
                    assert(acts@ =~= a0 + (conversion_actions(wrapping, payment_token, split_total(st.split)) + t));
                },
                Err(_) => {},
            }
        }
        r
    }

    fn distribute_tokens_bulk_buy(
        &mut self,
        ctx: &ChainContext,
        payment_token: PaymentToken,
        payment_nonce: u64,
        creator: Address,
        original_owner: Address,
        new_owner: Address,
        bid_split_amounts: &FeesDistribution,
        wrapping: bool,
        acts: &mut Vec<Action>,
    ) -> (r: Result<(), MarketError>) {
        let st = Settlement {
            payment_token,
            payment_nonce,
            creator,
            original_owner,
            new_owner,
            split: *bid_split_amounts,
        };
        let d = *bid_split_amounts;
        let ghost a0 = acts@;
        self.convert_proceeds(wrapping, payment_token, d.seller + d.creator + d.marketplace, acts);
        let r = self.bulk_settle_extra_exec(ctx, &st, acts);
        proof {
            match bulk_settle_extra(old(self).store(), *ctx, st) {
                Ok((s2, t)) => {
                    assert(acts@ =~= a0 + (conversion_actions(wrapping, payment_token, d.seller + d.creator + d.marketplace) + t));
                },
                Err(_) => {},
            }
        }
        r
    }

    fn distribute_tokens(
        &mut self,
        ctx: &ChainContext,
        auction: &Auction,
        opt_sft_amount: Option<u128>,
        wrapping: bool,
        acts: &mut Vec<Action>,
    ) -> (r: Result<(), MarketError>) {
        if auction.current_winner != ZERO_ADDRESS {
            let nft_info = self.get_nft_info(
                ctx,
                auction.auctioned_token_type,
                auction.auctioned_token_nonce,
            )?;
            let config = self.get_collection_config(auction.auctioned_token_type);
            let bid_split_amounts = self.calculate_amount_split(
                auction.current_bid,
                auction.creator_royalties_percentage,
                config,
            )?;
            proof {
                crate::laws::lemma_split_adds_up(
                    self.store().bid_cut_percentage,
                    auction.current_bid,
                    auction.creator_royalties_percentage,
                    config,
                );
            }
            let nft_amount = match auction.auction_type {
                AuctionType::Nft => NFT_AMOUNT as u128,
                AuctionType::NftBid => NFT_AMOUNT as u128,
                AuctionType::SftOnePerPayment => match opt_sft_amount {
                    Some(a) => a,
                    None => NFT_AMOUNT as u128,
                },
                _ => auction.nr_auctioned_tokens,
            };
            let nfts = vec![
                EsdtPayment {
                    token: auction.auctioned_token_type,
                    nonce: auction.auctioned_token_nonce,
                    amount: nft_amount,
                },
            ];
            assert(nfts@ =~= seq![
                EsdtPayment {
                    token: auction.auctioned_token_type,
                    nonce: auction.auctioned_token_nonce,
                    amount: nft_amount,
                },
            ]);
            self.distribute_tokens_common(
                ctx,
                &nfts,
                auction.payment_token_type,
                auction.payment_token_nonce,
                nft_info.creator,
                auction.original_owner,
                auction.current_winner,
                &bid_split_amounts,
                wrapping,
                acts,
            )
        } else {
            self.return_auction_nft(ctx, auction, acts)
        }
    }

    fn end_auction_common(
        &mut self,
        ctx: &ChainContext,
        auction_id: u64,
        auction: &Auction,
        acts: &mut Vec<Action>,
    ) -> (r: Result<(), MarketError>) {
        let ghost a0 = acts@;
        self.update_or_remove_items_quantity(auction, auction.nr_auctioned_tokens)?;
        self.remove_auction_common(auction_id, auction);
        let ev = self.emit_end_auction_event(auction_id, auction);
        acts.push(Action::Event(ev));
        let ghost s2 = self.store();
        let r = self.distribute_tokens(ctx, auction, Some(auction.nr_auctioned_tokens), false, acts);
        proof {
            match spec_distribute_tokens(s2, *ctx, *auction, Some(auction.nr_auctioned_tokens), false) {
                Ok((_, t)) => {
                    assert(acts@ =~= a0 + (seq![Action::Event(ev)] + t));
                },
                Err(_) => {},
            }
        }
        r
    }
}

/// The sum of the shares of a split.
pub fn split_sum(d: &FeesDistribution) -> (r: u128)
    requires
        split_total(*d) <= u128::MAX,
    ensures
        r == split_total(*d),
{
    d.seller + d.creator + d.marketplace + d.extra
}

impl Marketplace {
    /// Sends each of the tokens `nfts` to `to` (see `spec_send_nfts`).
    pub(crate) fn send_nfts(&mut self, ctx: &ChainContext, to: Address, nfts: &Vec<EsdtPayment>, acts: &mut Vec<Action>) -> (r: Result<(), MarketError>)
        requires
            old(self).inv(),
        ensures
            final(self).inv(),
            step_matches(spec_send_nfts(old(self).store(), *ctx, to, nfts@), r, final(self).store(), old(acts)@, final(acts)@),
    {
        let ghost s0 = self.store();
        let ghost a0 = acts@;
        let mut i: usize = 0;
        while i < nfts.len()
            invariant
                self.inv(),
                i <= nfts@.len(),
                s0 == old(self).store(),
                a0 == old(acts)@,
                prefixed(acts@, spec_send_nfts_from(self.store(), *ctx, to, nfts@, i as int))
                    == prefixed(a0, spec_send_nfts_from(s0, *ctx, to, nfts@, 0)),
            decreases nfts@.len() - i,
        {
            let nft = nfts[i];
            let ghost ai = acts@;
            let ghost si = self.store();
            let r = self.transfer_or_save_payment(ctx, to, PaymentToken::Esdt(nft.token), nft.nonce, nft.amount, acts);
            match r {
                Ok(()) => {
                    proof {
                        let t = spec_transfer_or_save(si, *ctx, to, PaymentToken::Esdt(nft.token), nft.nonce, nft.amount)->Ok_0.1;
                        lemma_prefixed_assoc(ai, t, spec_send_nfts_from(self.store(), *ctx, to, nfts@, i + 1));
                    }
                },
                Err(e) => {
                    assert(spec_send_nfts_from(si, *ctx, to, nfts@, i as int) == Err::<(Store, Seq<Action>), MarketError>(e));
                    return Err(e);
                },
            }
            i += 1;
        }
        proof {
            match spec_send_nfts_from(s0, *ctx, to, nfts@, 0) {
                Ok((_, t)) => {
                    assert(acts@ + seq![] =~= acts@);
                },
                Err(_) => {},
            }
        }
        Ok(())
    }

    /// Sends each of the payments to `to`.
    pub(crate) fn send_all(&self, to: Address, received: &Vec<EsdtPayment>, acts: &mut Vec<Action>)
        ensures
            final(acts)@ == old(acts)@ + esdt_transfers(to, received@),
    {
        let ghost a0 = acts@;
        let mut i: usize = 0;
        while i < received.len()
            invariant
                i <= received@.len(),
                acts@ == a0 + esdt_transfers(to, received@.subrange(0, i as int)),
            decreases received@.len() - i,
        {
            let p = received[i];
            acts.push(Action::Transfer { to, token: PaymentToken::Esdt(p.token), nonce: p.nonce, amount: p.amount });
            i += 1;
            assert(esdt_transfers(to, received@.subrange(0, i as int)) =~= esdt_transfers(to, received@.subrange(0, i - 1)).push(
                transfer(to, PaymentToken::Esdt(p.token), p.nonce, p.amount),
            ));
        }
        assert(received@.subrange(0, received@.len() as int) =~= received@);
    }

    /// Converts `total` between EGLD and wrapped EGLD when `wrapping` is set.
    fn convert_proceeds(&self, wrapping: bool, payment_token: PaymentToken, total: u128, acts: &mut Vec<Action>)
        ensures
            final(acts)@ == old(acts)@ + conversion_actions(wrapping, payment_token, total as int),
    {
        let ghost a0 = acts@;
        if wrapping {
            if payment_token.is_egld() {
                self.unwrap_egld(total, acts);
            } else {
                self.wrap_egld(total, acts);
            }
        }
        assert(acts@ =~= a0 + conversion_actions(wrapping, payment_token, total as int));
    }

    fn settle_fee_exec(&mut self, ctx: &ChainContext, st: &Settlement, acts: &mut Vec<Action>) -> (r: Result<(), MarketError>)
        requires
            old(self).inv(),
        ensures
            final(self).inv(),
            step_matches(settle_fee(old(self).store(), *ctx, *st), r, final(self).store(), old(acts)@, final(acts)@),
    {
        let ghost a0 = acts@;
        let ghost s0 = self.store();
        if st.split.reverse_cut_fee {
            self.transfer_or_save_payment(ctx, st.new_owner, st.payment_token, st.payment_nonce, st.split.marketplace, acts)?;
        } else {
            self.share_marketplace_fees(ctx, st.payment_token, st.split.marketplace, st.payment_nonce, acts)?;
        }
        let ghost a1 = acts@;
        let ghost s1 = self.store();
        let r = self.distribute_rewards(ctx, st.new_owner, st.original_owner, acts);
        proof {
            match spec_distribute_rewards(s1, *ctx, st.new_owner, st.original_owner) {
                Ok((_, t)) => {
                    let t1 = (if st.split.reverse_cut_fee { spec_transfer_or_save(s0, *ctx, st.new_owner, st.payment_token, st.payment_nonce, st.split.marketplace) } else { spec_share_marketplace_fees(s0, *ctx, st.payment_token, st.split.marketplace, st.payment_nonce) })->Ok_0.1;
                    assert(acts@ =~= a0 + (t1 + t));
                },
                Err(_) => {},
            }
        }
        r
    }

    fn settle_nft_exec(&mut self, ctx: &ChainContext, st: &Settlement, nfts: &Vec<EsdtPayment>, acts: &mut Vec<Action>) -> (r: Result<(), MarketError>)
        requires
            old(self).inv(),
        ensures
            final(self).inv(),
            step_matches(settle_nft(old(self).store(), *ctx, *st, nfts@), r, final(self).store(), old(acts)@, final(acts)@),
    {
        let ghost a0 = acts@;
        let ghost s0 = self.store();
        self.send_nfts(ctx, st.new_owner, nfts, acts)?;
        let ghost a1 = acts@;
        let ghost s1 = self.store();
        let r = self.settle_fee_exec(ctx, st, acts);
        proof {
            match settle_fee(s1, *ctx, *st) {
                Ok((_, t)) => {
                    let t1 = (spec_send_nfts(s0, *ctx, st.new_owner, nfts@))->Ok_0.1;
                    assert(acts@ =~= a0 + (t1 + t));
                },
                Err(_) => {},
            }
        }
        r
    }

    fn settle_seller_exec(&mut self, ctx: &ChainContext, st: &Settlement, nfts: &Vec<EsdtPayment>, acts: &mut Vec<Action>) -> (r: Result<(), MarketError>)
        requires
            old(self).inv(),
        ensures
            final(self).inv(),
            step_matches(settle_seller(old(self).store(), *ctx, *st, nfts@), r, final(self).store(), old(acts)@, final(acts)@),
    {
        let ghost a0 = acts@;
        let ghost s0 = self.store();
        self.transfer_or_save_payment(ctx, st.original_owner, st.payment_token, st.payment_nonce, st.split.seller, acts)?;
        let ghost a1 = acts@;
        let ghost s1 = self.store();
        let r = self.settle_nft_exec(ctx, st, nfts, acts);
        proof {
            match settle_nft(s1, *ctx, *st, nfts@) {
                Ok((_, t)) => {
                    let t1 = (spec_transfer_or_save(s0, *ctx, st.original_owner, st.payment_token, st.payment_nonce, st.split.seller))->Ok_0.1;
                    assert(acts@ =~= a0 + (t1 + t));
                },
                Err(_) => {},
            }
        }
        r
    }

    fn settle_royalties_exec(&mut self, ctx: &ChainContext, st: &Settlement, nfts: &Vec<EsdtPayment>, acts: &mut Vec<Action>) -> (r: Result<(), MarketError>)
        requires
            old(self).inv(),
        ensures
            final(self).inv(),
            step_matches(settle_royalties(old(self).store(), *ctx, *st, nfts@), r, final(self).store(), old(acts)@, final(acts)@),
    {
        let ghost a0 = acts@;
        let ghost s0 = self.store();
        let to = if st.split.reverse_royalties { st.new_owner } else { st.creator };
        self.transfer_or_save_payment(ctx, to, st.payment_token, st.payment_nonce, st.split.creator, acts)?;
        let ghost a1 = acts@;
        let ghost s1 = self.store();
        let r = self.settle_seller_exec(ctx, st, nfts, acts);
        proof {
            match settle_seller(s1, *ctx, *st, nfts@) {
                Ok((_, t)) => {
                    let t1 = (spec_transfer_or_save(s0, *ctx, royalties_receiver(*st), st.payment_token, st.payment_nonce, st.split.creator))->Ok_0.1;
                    assert(acts@ =~= a0 + (t1 + t));
                },
                Err(_) => {},
            }
        }
        r
    }

    fn settle_extra_exec(&mut self, ctx: &ChainContext, st: &Settlement, nfts: &Vec<EsdtPayment>, acts: &mut Vec<Action>) -> (r: Result<(), MarketError>)
        requires
            old(self).inv(),
        ensures
            final(self).inv(),
            step_matches(settle_extra(old(self).store(), *ctx, *st, nfts@), r, final(self).store(), old(acts)@, final(acts)@),
    {
        if st.split.extra > 0 && st.split.extra_address != ZERO_ADDRESS {
            let ghost a0 = acts@;
            let ghost s0 = self.store();
        let ghost s0 = self.store();
            self.transfer_or_save_payment(ctx, st.split.extra_address, st.payment_token, st.payment_nonce, st.split.extra, acts)?;
            let ghost a1 = acts@;
            let ghost s1 = self.store();
            let r = self.settle_royalties_exec(ctx, st, nfts, acts);
            proof {
                match settle_royalties(s1, *ctx, *st, nfts@) {
                    Ok((_, t)) => {
                        let t1 = (spec_transfer_or_save(s0, *ctx, st.split.extra_address, st.payment_token, st.payment_nonce, st.split.extra))->Ok_0.1;
                    assert(acts@ =~= a0 + (t1 + t));
                    },
                    Err(_) => {},
                }
            }
            r
        } else {
            self.settle_royalties_exec(ctx, st, nfts, acts)
        }
    }

    fn bulk_settle_seller_exec(&mut self, ctx: &ChainContext, st: &Settlement, acts: &mut Vec<Action>) -> (r: Result<(), MarketError>)
        requires
            old(self).inv(),
        ensures
            final(self).inv(),
            step_matches(bulk_settle_seller(old(self).store(), *ctx, *st), r, final(self).store(), old(acts)@, final(acts)@),
    {
        let ghost a0 = acts@;
        let ghost s0 = self.store();
        self.transfer_or_save_payment(ctx, st.original_owner, st.payment_token, st.payment_nonce, st.split.seller, acts)?;
        let ghost a1 = acts@;
        let ghost s1 = self.store();
        let r = self.distribute_rewards(ctx, st.new_owner, st.original_owner, acts);
        proof {
            match spec_distribute_rewards(s1, *ctx, st.new_owner, st.original_owner) {
                Ok((_, t)) => {
                    let t1 = (spec_transfer_or_save(s0, *ctx, st.original_owner, st.payment_token, st.payment_nonce, st.split.seller))->Ok_0.1;
                    assert(acts@ =~= a0 + (t1 + t));
                },
                Err(_) => {},
            }
        }
        r
    }

    fn bulk_settle_royalties_exec(&mut self, ctx: &ChainContext, st: &Settlement, acts: &mut Vec<Action>) -> (r: Result<(), MarketError>)
        requires
            old(self).inv(),
        ensures
            final(self).inv(),
            step_matches(bulk_settle_royalties(old(self).store(), *ctx, *st), r, final(self).store(), old(acts)@, final(acts)@),
    {
        let ghost a0 = acts@;
        let ghost s0 = self.store();
        let to = if st.split.reverse_royalties { st.new_owner } else { st.creator };
        self.transfer_or_save_payment(ctx, to, st.payment_token, st.payment_nonce, st.split.creator, acts)?;
        let ghost a1 = acts@;
        let ghost s1 = self.store();
        let r = self.bulk_settle_seller_exec(ctx, st, acts);
        proof {
            match bulk_settle_seller(s1, *ctx, *st) {
                Ok((_, t)) => {
                    let t1 = (spec_transfer_or_save(s0, *ctx, royalties_receiver(*st), st.payment_token, st.payment_nonce, st.split.creator))->Ok_0.1;
                    assert(acts@ =~= a0 + (t1 + t));
                },
                Err(_) => {},
            }
        }
        r
    }

    fn bulk_settle_extra_exec(&mut self, ctx: &ChainContext, st: &Settlement, acts: &mut Vec<Action>) -> (r: Result<(), MarketError>)
        requires
            old(self).inv(),
        ensures
            final(self).inv(),
            step_matches(bulk_settle_extra(old(self).store(), *ctx, *st), r, final(self).store(), old(acts)@, final(acts)@),
    {
        if st.split.extra > 0 && st.split.extra_address != ZERO_ADDRESS {
            let ghost a0 = acts@;
            let ghost s0 = self.store();
        let ghost s0 = self.store();
            self.transfer_or_save_payment(ctx, st.split.extra_address, st.payment_token, st.payment_nonce, st.split.extra, acts)?;
            let ghost a1 = acts@;
            let ghost s1 = self.store();
            let r = self.bulk_settle_royalties_exec(ctx, st, acts);
            proof {
                match bulk_settle_royalties(s1, *ctx, *st) {
                    Ok((_, t)) => {
                        let t1 = (spec_transfer_or_save(s0, *ctx, st.split.extra_address, st.payment_token, st.payment_nonce, st.split.extra))->Ok_0.1;
                    assert(acts@ =~= a0 + (t1 + t));
                    },
                    Err(_) => {},
                }
            }
            r
        } else {
            self.bulk_settle_royalties_exec(ctx, st, acts)
        }
    }
}

impl Marketplace {
    /// The steps of `callback_ash`; a failure may leave the storage part-way.
    fn attempt_callback_ash(
        &mut self,
        ctx: &ChainContext,
        callback: SwapCallback,
        received: &Vec<EsdtPayment>,
    ) -> (r: Result<Vec<Action>, MarketError>)
        requires
            old(self).inv(),
        ensures
            final(self).inv(),
            endpoint_matches(spec_callback_ash(old(self).store(), *ctx, callback, received@), r, final(self).store()),
    {
        self.freezed_auctions.swap_remove(&callback.auction_id);
        let wegld = self.wrapping_token;
        let mut acts: Vec<Action> = Vec::new();
        if received.len() > 0 {
            let p = received[0];
            let auction = self.try_get_auction(callback.auction_id)?;
            let token = PaymentToken::Esdt(p.token);
            let wrapping = self.require_egld_conversion(&auction, token, wegld);
            let has_required_token = token == auction.payment_token_type || wrapping;
            if p.amount >= callback.total_price && has_required_token {
                let extra_amount = p.amount - callback.total_price;
                self.transfer_or_save_payment(ctx, callback.paid_by, token, p.nonce, extra_amount, &mut acts)?;
                let ghost a1 = acts@;
                let ghost s2 = self.store();
                let buy_by = if callback.paid_by == callback.send_to { None } else { Some(callback.paid_by) };
                let r = self.sell(
                    ctx,
                    callback.auction_id,
                    &auction,
                    callback.send_to,
                    callback.total_price,
                    callback.quantity,
                    callback.message,
                    buy_by,
                    callback.original_payment,
                    wrapping,
                    &mut acts,
                );
                proof {
                    match spec_sell(s2, *ctx, callback.auction_id, auction, callback.send_to, callback.total_price, callback.quantity, callback.message, buy_by, callback.original_payment, wrapping) {
                        Ok((_, t)) => {
                            assert(acts@ =~= a1 + t);
                        },
                        Err(_) => {},
                    }
                }
                return match r {
                    Ok(()) => Ok(acts),
                    Err(e) => Err(e),
                };
            }
        }
        self.send_all(callback.paid_by, received, &mut acts);
        assert(acts@ =~= esdt_transfers(callback.paid_by, received@));
        Ok(acts)
    }
}

} // verus!
