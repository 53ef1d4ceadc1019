//! The endpoints of the owner and the admins.
use vstd::prelude::*;

use crate::auction::{Address, Auction, AuctionType, Payment, PaymentToken, TokenId, PERCENTAGE_TOTAL, ZERO_ADDRESS};
use crate::collections::{amount_at, seq_swap_without, seq_with, seq_without, set_at, with_amount, with_set};
use crate::common::{
    endpoint_matches, lemma_prefixed_assoc, lemma_prefixed_empty, prefixed, spec_common_global_offer_remove,
    spec_common_withdraw_offer, spec_end_auction_common, spec_withdraw_auction_common, CommonModule,
};
use crate::errors::MarketError;
use crate::events::{transfer, Action, EventsModule};
use crate::helpers::{is_admin, spec_transfer_or_save, HelpersModule, Step};
use crate::storage::{is_smart_contract, ChainContext, Marketplace, StorageModule, Store};
use crate::wrapping::WrappingModule;

verus! {

/// Whether the caller owns the contract.
pub open spec fn is_owner(ctx: ChainContext) -> bool {
    ctx.caller == ctx.owner
}

/// The result of a call without actions matches `spec`: on success the
/// storage is that of `spec`; on failure the error is that of `spec`.
pub open spec fn store_matches(spec: Result<Store, MarketError>, r: Result<(), MarketError>, final_store: Store) -> bool {
    match spec {
        Ok(s) => r is Ok && final_store == s,
        Err(e) => r == Err::<(), MarketError>(e),
    }
}

/// The storage change of an admin-only call.
pub open spec fn by_admin(s: Store, ctx: ChainContext, s1: Store) -> Result<Store, MarketError> {
    if is_admin(s, ctx, None) {
        Ok(s1)
    } else {
        Err(MarketError::NotAdmin)
    }
}

/// The storage change of an owner-only call.
pub open spec fn by_owner(ctx: ChainContext, s1: Store) -> Result<Store, MarketError> {
    if is_owner(ctx) {
        Ok(s1)
    } else {
        Err(MarketError::NotOwner)
    }
}

/// Returns one listing to its owner: a fixed-price listing is withdrawn; an
/// auction is ended, after its best bid (if any) is refunded.
pub open spec fn spec_return_listing_one(s: Store, ctx: ChainContext, auction_id: u64) -> Step {
    if !s.auction_by_id.contains_key(auction_id) {
        Ok((s, seq![]))
    } else {
        let a = s.auction_by_id[auction_id];
        if a.auction_type == AuctionType::SftOnePerPayment || a.auction_type == AuctionType::Nft {
            spec_withdraw_auction_common(s, ctx, auction_id, a)
        } else if a.current_winner == ZERO_ADDRESS {
            spec_end_auction_common(s, ctx, auction_id, a)
        } else {
            match spec_transfer_or_save(s, ctx, a.current_winner, a.payment_token_type, a.payment_token_nonce, a.current_bid) {
                Err(e) => Err(e),
                Ok((s1, t)) => {
                    let w = a.current_winner;
                    let s2 = Store {
                        listings_bids: with_set(s1.listings_bids, w, seq_without(set_at(s1.listings_bids, w), auction_id)),
                        ..s1
                    };
                    prefixed(t, spec_end_auction_common(s2, ctx, auction_id, Auction { current_winner: ZERO_ADDRESS, ..a }))
                },
            }
        }
    }
}

pub open spec fn spec_return_listing_from(s: Store, ctx: ChainContext, ids: Seq<u64>, i: int) -> Step
    decreases ids.len() - i,
{
    if i >= ids.len() || i < 0 {
        Ok((s, seq![]))
    } else {
        match spec_return_listing_one(s, ctx, ids[i]) {
            Ok((s1, a)) => prefixed(a, spec_return_listing_from(s1, ctx, ids, i + 1)),
            Err(e) => Err(e),
        }
    }
}

/// `returnListing`: an admin returns listings to their owners.
pub open spec fn spec_return_listing(s: Store, ctx: ChainContext, ids: Seq<u64>) -> Step {
    if !is_admin(s, ctx, None) {
        Err(MarketError::NotAdmin)
    } else {
        spec_return_listing_from(s, ctx, ids, 0)
    }
}

/// Returns one global offer to its author; an offer that is gone is skipped.
pub open spec fn spec_withdraw_global_offer_one(s: Store, ctx: ChainContext, offer_id: u64) -> Step {
    if !s.global_offer.contains_key(offer_id) {
        Ok((s, seq![]))
    } else {
        spec_common_global_offer_remove(s, ctx, s.global_offer[offer_id], true)
    }
}

pub open spec fn spec_withdraw_global_offers_from(s: Store, ctx: ChainContext, ids: Seq<u64>, i: int) -> Step
    decreases ids.len() - i,
{
    if i >= ids.len() || i < 0 {
        Ok((s, seq![]))
    } else {
        match spec_withdraw_global_offer_one(s, ctx, ids[i]) {
            Ok((s1, a)) => prefixed(a, spec_withdraw_global_offers_from(s1, ctx, ids, i + 1)),
            Err(e) => Err(e),
        }
    }
}

/// `withdrawGlobalOffers`: an admin returns global offers to their authors.
pub open spec fn spec_withdraw_global_offers(s: Store, ctx: ChainContext, ids: Seq<u64>) -> Step {
    if !is_admin(s, ctx, None) {
        Err(MarketError::NotAdmin)
    } else {
        spec_withdraw_global_offers_from(s, ctx, ids, 0)
    }
}

/// Withdraws one offer, which must be on record.
pub open spec fn spec_withdraw_recorded_offer(s: Store, offer_id: u64) -> Step {
    if !s.offer_by_id.contains_key(offer_id) {
        Err(MarketError::OfferNotFound)
    } else {
        let (s1, t) = spec_common_withdraw_offer(s, offer_id, s.offer_by_id[offer_id]);
        Ok((s1, t))
    }
}

pub open spec fn spec_withdraw_offers_from(s: Store, ids: Seq<u64>, i: int) -> Step
    decreases ids.len() - i,
{
    if i >= ids.len() || i < 0 {
        Ok((s, seq![]))
    } else {
        match spec_withdraw_recorded_offer(s, ids[i]) {
            Ok((s1, a)) => prefixed(a, spec_withdraw_offers_from(s1, ids, i + 1)),
            Err(e) => Err(e),
        }
    }
}

/// At most the first 80 offers of `user`.
pub open spec fn first_offers(s: Store, user: Address) -> Seq<u64> {
    let ids = set_at(s.offers_by_wallet, user);
    if ids.len() <= 80 {
        ids
    } else {
        ids.subrange(0, 80)
    }
}

/// `deleteOffersByWallet`: an admin withdraws the first 80 offers of `user`.
pub open spec fn spec_delete_user_offers(s: Store, ctx: ChainContext, user: Address) -> Step {
    if !is_admin(s, ctx, None) {
        Err(MarketError::NotAdmin)
    } else {
        spec_withdraw_offers_from(s, first_offers(s, user), 0)
    }
}

/// Withdraws one offer when it is past its deadline.
pub open spec fn spec_clean_expired_one(s: Store, ctx: ChainContext, offer_id: u64) -> Step {
    if s.offer_by_id.contains_key(offer_id) && s.offer_by_id[offer_id].deadline <= ctx.timestamp {
        let (s1, t) = spec_common_withdraw_offer(s, offer_id, s.offer_by_id[offer_id]);
        Ok((s1, t))
    } else {
        Ok((s, seq![]))
    }
}

pub open spec fn spec_clean_expired_from(s: Store, ctx: ChainContext, ids: Seq<u64>, i: int) -> Step
    decreases ids.len() - i,
{
    if i >= ids.len() || i < 0 {
        Ok((s, seq![]))
    } else {
        match spec_clean_expired_one(s, ctx, ids[i]) {
            Ok((s1, a)) => prefixed(a, spec_clean_expired_from(s1, ctx, ids, i + 1)),
            Err(e) => Err(e),
        }
    }
}

/// `cleanExpiredOffers`: an admin withdraws those of the offers that expired.
pub open spec fn spec_clean_expired_offers(s: Store, ctx: ChainContext, ids: Seq<u64>) -> Step {
    if !is_admin(s, ctx, None) {
        Err(MarketError::NotAdmin)
    } else {
        spec_clean_expired_from(s, ctx, ids, 0)
    }
}

/// Pays out what was saved for `wallet` in `token` under the nonces from `i` on.
pub open spec fn claim_nonces_from(s: Store, wallet: Address, token: PaymentToken, nonces: Seq<u64>, i: int) -> (
    Store,
    Seq<Action>,
)
    decreases nonces.len() - i,
{
    if i >= nonces.len() || i < 0 {
        (s, seq![])
    } else {
        let key = (wallet, token, nonces[i]);
        let amount = amount_at(s.claimable_amount, key);
        let (s1, t1) = if amount > 0 {
            (
                Store { claimable_amount: with_amount(s.claimable_amount, key, 0), ..s },
                seq![transfer(wallet, token, nonces[i], amount)],
            )
        } else {
            (s, seq![])
        };
        let (s2, t2) = claim_nonces_from(s1, wallet, token, nonces, i + 1);
        (s2, t1 + t2)
    }
}

/// Pays out what was saved for `wallet` in one token, and forgets its nonces.
pub open spec fn claim_token(s: Store, wallet: Address, token: PaymentToken) -> (Store, Seq<Action>) {
    let (s1, t) = claim_nonces_from(s, wallet, token, set_at(s.claimable_token_nonces, (wallet, token)), 0);
    (Store { claimable_token_nonces: s1.claimable_token_nonces.remove((wallet, token)), ..s1 }, t)
}

pub open spec fn claim_tokens_from(s: Store, wallet: Address, tokens: Seq<PaymentToken>, i: int) -> (
    Store,
    Seq<Action>,
)
    decreases tokens.len() - i,
{
    if i >= tokens.len() || i < 0 {
        (s, seq![])
    } else {
        let (s1, t1) = claim_token(s, wallet, tokens[i]);
        let (s2, t2) = claim_tokens_from(s1, wallet, tokens, i + 1);
        (s2, t1 + t2)
    }
}

/// Pays out everything saved for `wallet`, and forgets its tokens.
pub open spec fn spec_claim_saved(s: Store, wallet: Address) -> (Store, Seq<Action>) {
    let (s1, t) = claim_tokens_from(s, wallet, set_at(s.claimable_tokens, wallet), 0);
    (Store { claimable_tokens: s1.claimable_tokens.remove(wallet), ..s1 }, t)
}

/// `claimSavedFundsForUser`: an admin pays out what was saved for `wallet`.
pub open spec fn spec_claim_tokens_for_creator(s: Store, ctx: ChainContext, wallet: Address) -> Step {
    if !is_admin(s, ctx, None) {
        Err(MarketError::NotAdmin)
    } else {
        Ok(spec_claim_saved(s, wallet))
    }
}

/// `addWhitelist`: an admin whitelists a smart contract, after paying out
/// what was saved for it.
pub open spec fn spec_add_whitelisted_sc(s: Store, ctx: ChainContext, sc: Address) -> Step {
    if !is_admin(s, ctx, None) {
        Err(MarketError::NotAdmin)
    } else if !is_smart_contract(ctx, sc) {
        Err(MarketError::NotSmartContract)
    } else {
        let (s1, t) = spec_claim_saved(s, sc);
        Ok((Store { whitelisted_contracts: seq_with(s1.whitelisted_contracts, sc), ..s1 }, t))
    }
}

/// `addRewardBalance`: the owner adds reward tokens to the reward balance.
pub open spec fn spec_add_reward_balance(s: Store, ctx: ChainContext, payment: Payment) -> Result<Store, MarketError> {
    if !is_owner(ctx) {
        Err(MarketError::NotOwner)
    } else if s.reward_ticker != Some(payment.token) {
        Err(MarketError::NotRewardToken)
    } else if s.reward_balance + payment.amount > u128::MAX {
        Err(MarketError::Overflow)
    } else {
        Ok(Store { reward_balance: (s.reward_balance + payment.amount) as u128, ..s })
    }
}

/// `setSpecialRewardAmount`: the owner sets a reward amount for the reward token.
pub open spec fn spec_set_special_reward_amount(s: Store, ctx: ChainContext, token: TokenId, amount: u128) -> Result<
    Store,
    MarketError,
> {
    if !is_owner(ctx) {
        Err(MarketError::NotOwner)
    } else if s.reward_ticker != Some(PaymentToken::Esdt(token)) {
        Err(MarketError::NotRewardToken)
    } else {
        Ok(Store { special_reward_amount: with_amount(s.special_reward_amount, token, amount), ..s })
    }
}

/// The owner and the admins: listings and offers they can take down, the
/// tokens accepted, the wallets and contracts they allow or forbid, rewards
/// and fees.
pub trait AdminModule: StorageModule + HelpersModule + EventsModule + CommonModule + WrappingModule {
    /// Returns listings to their owners (see `spec_return_listing`).
    fn return_listing(&mut self, ctx: &ChainContext, auction_ids: &Vec<u64>) -> (r: Result<Vec<Action>, MarketError>)
        requires
            old(self).inv(),
        ensures
            final(self).inv(),
            endpoint_matches(spec_return_listing(old(self).store(), *ctx, auction_ids@), r, final(self).store()),
            r is Err ==> final(self).store() == old(self).store(),
    ;

    /// Returns global offers to their authors (see `spec_withdraw_global_offers`).
    fn withdraw_global_offers(&mut self, ctx: &ChainContext, offer_ids: &Vec<u64>) -> (r: Result<Vec<Action>, MarketError>)
        requires
            old(self).inv(),
        ensures
            final(self).inv(),
            endpoint_matches(spec_withdraw_global_offers(old(self).store(), *ctx, offer_ids@), r, final(self).store()),
            r is Err ==> final(self).store() == old(self).store(),
    ;

    /// Withdraws the first offers of a wallet (see `spec_delete_user_offers`).
    fn delete_user_offers(&mut self, ctx: &ChainContext, user: Address) -> (r: Result<Vec<Action>, MarketError>)
        requires
            old(self).inv(),
        ensures
            final(self).inv(),
            endpoint_matches(spec_delete_user_offers(old(self).store(), *ctx, user), r, final(self).store()),
            r is Err ==> final(self).store() == old(self).store(),
    ;

    /// Withdraws expired offers (see `spec_clean_expired_offers`).
    fn clean_expired_offers(&mut self, ctx: &ChainContext, offer_ids: &Vec<u64>) -> (r: Result<Vec<Action>, MarketError>)
        requires
            old(self).inv(),
        ensures
            final(self).inv(),
            endpoint_matches(spec_clean_expired_offers(old(self).store(), *ctx, offer_ids@), r, final(self).store()),
            r is Err ==> final(self).store() == old(self).store(),
    ;

    /// Adds to the reward balance (see `spec_add_reward_balance`).
    fn add_reward_balance(&mut self, ctx: &ChainContext, payment: Payment) -> (r: Result<(), MarketError>)
        requires
            old(self).inv(),
        ensures
            final(self).inv(),
            store_matches(spec_add_reward_balance(old(self).store(), *ctx, payment), r, final(self).store()),
            r is Err ==> final(self).store() == old(self).store(),
    ;

    /// The owner sets the reward token.
    fn set_reward_ticker(&mut self, ctx: &ChainContext, token: PaymentToken) -> (r: Result<(), MarketError>)
        requires
            old(self).inv(),
        ensures
            final(self).inv(),
            store_matches(by_owner(*ctx, Store { reward_ticker: Some(token), ..old(self).store() }), r, final(self).store()),
            r is Err ==> final(self).store() == old(self).store(),
    ;

    /// Sets a reward amount for the reward token (see `spec_set_special_reward_amount`).
    fn set_special_reward_amount(&mut self, ctx: &ChainContext, token: TokenId, amount: u128) -> (r: Result<(), MarketError>)
        requires
            old(self).inv(),
        ensures
            final(self).inv(),
            store_matches(spec_set_special_reward_amount(old(self).store(), *ctx, token, amount), r, final(self).store()),
            r is Err ==> final(self).store() == old(self).store(),
    ;

    /// The owner sets the reward given to buyer and seller of a sale.
    fn set_default_reward_amount(&mut self, ctx: &ChainContext, amount: u128) -> (r: Result<(), MarketError>)
        requires
            old(self).inv(),
        ensures
            final(self).inv(),
            store_matches(by_owner(*ctx, Store { reward_amount: amount, ..old(self).store() }), r, final(self).store()),
            r is Err ==> final(self).store() == old(self).store(),
    ;

    /// An admin accepts a token for payments.
    fn set_accepted_tokens(&mut self, ctx: &ChainContext, token: PaymentToken) -> (r: Result<(), MarketError>)
        requires
            old(self).inv(),
        ensures
            final(self).inv(),
            store_matches(
                by_admin(old(self).store(), *ctx, Store { accepted_tokens: seq_with(old(self).store().accepted_tokens, token), ..old(self).store() }),
                r,
                final(self).store(),
            ),
            r is Err ==> final(self).store() == old(self).store(),
    ;

    /// An admin stops accepting a token; answers whether it was accepted.
    fn remove_accepted_tokens(&mut self, ctx: &ChainContext, token: PaymentToken) -> (r: Result<bool, MarketError>)
        requires
            old(self).inv(),
        ensures
            final(self).inv(),
            is_admin(old(self).store(), *ctx, None) ==> r == Ok::<bool, MarketError>(old(self).store().accepted_tokens.contains(token))
                && final(self).store() == (Store { accepted_tokens: seq_without(old(self).store().accepted_tokens, token), ..old(self).store() }),
            !is_admin(old(self).store(), *ctx, None) ==> r == Err::<bool, MarketError>(MarketError::NotAdmin),
            r is Err ==> final(self).store() == old(self).store(),
    ;

    /// Whitelists a smart contract (see `spec_add_whitelisted_sc`).
    fn add_whitelisted_sc(&mut self, ctx: &ChainContext, sc: Address) -> (r: Result<Vec<Action>, MarketError>)
        requires
            old(self).inv(),
        ensures
            final(self).inv(),
            endpoint_matches(spec_add_whitelisted_sc(old(self).store(), *ctx, sc), r, final(self).store()),
            r is Err ==> final(self).store() == old(self).store(),
    ;

    /// An admin takes a smart contract off the whitelist.
    fn remove_wl_sc(&mut self, ctx: &ChainContext, sc: Address) -> (r: Result<(), MarketError>)
        requires
            old(self).inv(),
        ensures
            final(self).inv(),
            store_matches(
                if !is_admin(old(self).store(), *ctx, None) {
                    Err(MarketError::NotAdmin)
                } else if !is_smart_contract(*ctx, sc) {
                    Err(MarketError::NotSmartContract)
                } else {
                    Ok(Store { whitelisted_contracts: seq_without(old(self).store().whitelisted_contracts, sc), ..old(self).store() })
                },
                r,
                final(self).store(),
            ),
            r is Err ==> final(self).store() == old(self).store(),
    ;

    /// An admin pauses or resumes the marketplace.
    fn set_status(&mut self, ctx: &ChainContext, status: bool) -> (r: Result<(), MarketError>)
        requires
            old(self).inv(),
        ensures
            final(self).inv(),
            store_matches(by_admin(old(self).store(), *ctx, Store { status, ..old(self).store() }), r, final(self).store()),
            r is Err ==> final(self).store() == old(self).store(),
    ;

    /// The owner sets the marketplace cut, which must be strictly between 0 and 100%.
    fn set_percentage_cut(&mut self, ctx: &ChainContext, new_cut_percentage: u64) -> (r: Result<(), MarketError>)
        requires
            old(self).inv(),
        ensures
            final(self).inv(),
            store_matches(
                if !is_owner(*ctx) {
                    Err(MarketError::NotOwner)
                } else if !(0 < new_cut_percentage < PERCENTAGE_TOTAL) {
                    Err(MarketError::InvalidPercentage)
                } else {
                    Ok(Store { bid_cut_percentage: new_cut_percentage as u128, ..old(self).store() })
                },
                r,
                final(self).store(),
            ),
            r is Err ==> final(self).store() == old(self).store(),
    ;

    /// An admin unfreezes a listing.
    fn un_freeze_auction_id(&mut self, ctx: &ChainContext, auction_id: u64) -> (r: Result<(), MarketError>)
        requires
            old(self).inv(),
        ensures
            final(self).inv(),
            store_matches(
                by_admin(old(self).store(), *ctx, Store { freezed_auctions: seq_swap_without(old(self).store().freezed_auctions, auction_id), ..old(self).store() }),
                r,
                final(self).store(),
            ),
            r is Err ==> final(self).store() == old(self).store(),
    ;

    /// An admin unfreezes every listing.
    fn un_freeze_all_auction_id(&mut self, ctx: &ChainContext) -> (r: Result<(), MarketError>)
        requires
            old(self).inv(),
        ensures
            final(self).inv(),
            store_matches(
                by_admin(old(self).store(), *ctx, Store { freezed_auctions: seq![], ..old(self).store() }),
                r,
                final(self).store(),
            ),
            r is Err ==> final(self).store() == old(self).store(),
    ;

    /// An admin freezes a listing.
    fn freeze_auction_id(&mut self, ctx: &ChainContext, auction_id: u64) -> (r: Result<(), MarketError>)
        requires
            old(self).inv(),
        ensures
            final(self).inv(),
            store_matches(
                by_admin(old(self).store(), *ctx, Store { freezed_auctions: seq_with(old(self).store().freezed_auctions, auction_id), ..old(self).store() }),
                r,
                final(self).store(),
            ),
            r is Err ==> final(self).store() == old(self).store(),
    ;

    /// The owner takes `amount` of `token` the contract holds.
    fn claim_lost_funds(&mut self, ctx: &ChainContext, token: PaymentToken, amount: u128) -> (r: Result<Vec<Action>, MarketError>)
        requires
            old(self).inv(),
        ensures
            final(self).inv(),
            endpoint_matches(
                if is_owner(*ctx) {
                    Ok((old(self).store(), seq![transfer(ctx.owner, token, 0, amount)]))
                } else {
                    Err(MarketError::NotOwner)
                },
                r,
                final(self).store(),
            ),
            r is Err ==> final(self).store() == old(self).store(),
    ;

    /// Pays out what was saved for a wallet (see `spec_claim_tokens_for_creator`).
    fn claim_tokens_for_creator(&mut self, ctx: &ChainContext, wallet: Address) -> (r: Result<Vec<Action>, MarketError>)
        requires
            old(self).inv(),
        ensures
            final(self).inv(),
            endpoint_matches(spec_claim_tokens_for_creator(old(self).store(), *ctx, wallet), r, final(self).store()),
            r is Err ==> final(self).store() == old(self).store(),
    ;

    /// An admin blacklists a wallet; answers whether it was not yet blacklisted.
    fn add_blacklist(&mut self, ctx: &ChainContext, wallet: Address) -> (r: Result<bool, MarketError>)
        requires
            old(self).inv(),
        ensures
            final(self).inv(),
            is_admin(old(self).store(), *ctx, None) ==> r == Ok::<bool, MarketError>(!old(self).store().blacklist_wallets.contains(wallet))
                && final(self).store() == (Store { blacklist_wallets: seq_with(old(self).store().blacklist_wallets, wallet), ..old(self).store() }),
            !is_admin(old(self).store(), *ctx, None) ==> r == Err::<bool, MarketError>(MarketError::NotAdmin),
            r is Err ==> final(self).store() == old(self).store(),
    ;

    /// An admin takes a wallet off the blacklist; answers whether it was blacklisted.
    fn remove_blacklist(&mut self, ctx: &ChainContext, wallet: Address) -> (r: Result<bool, MarketError>)
        requires
            old(self).inv(),
        ensures
            final(self).inv(),
            is_admin(old(self).store(), *ctx, None) ==> r == Ok::<bool, MarketError>(old(self).store().blacklist_wallets.contains(wallet))
                && final(self).store() == (Store { blacklist_wallets: seq_without(old(self).store().blacklist_wallets, wallet), ..old(self).store() }),
            !is_admin(old(self).store(), *ctx, None) ==> r == Err::<bool, MarketError>(MarketError::NotAdmin),
            r is Err ==> final(self).store() == old(self).store(),
    ;
}

impl Marketplace {
    /// Returns one listing (see `spec_return_listing_one`).
    fn return_listing_one(&mut self, ctx: &ChainContext, auction_id: u64, acts: &mut Vec<Action>) -> (r: Result<(), MarketError>)
        requires
            old(self).inv(),
        ensures
            final(self).inv(),
            crate::common::step_matches(spec_return_listing_one(old(self).store(), *ctx, auction_id), r, final(self).store(), old(acts)@, final(acts)@),
    {
        let a = match self.auction_by_id.get(&auction_id) {
            Some(a) => *a,
            None => {
                assert(old(acts)@ + seq![] =~= acts@);
                return Ok(());
            },
        };
        if a.auction_type == AuctionType::SftOnePerPayment || a.auction_type == AuctionType::Nft {
            self.withdraw_auction_common(ctx, auction_id, &a, acts)
        } else if a.current_winner == ZERO_ADDRESS {
            self.end_auction_common(ctx, auction_id, &a, acts)
        } else {
            let ghost a0 = acts@;
            let ghost s0 = self.store();
            self.transfer_or_save_payment(ctx, a.current_winner, a.payment_token_type, a.payment_token_nonce, a.current_bid, acts)?;
            let ghost a1 = acts@;
            self.listings_bids.remove(&a.current_winner, &auction_id);
            let ended = Auction { current_winner: ZERO_ADDRESS, ..a };
            let ghost s2 = self.store();
            let r = self.end_auction_common(ctx, auction_id, &ended, acts);
            proof {
                match spec_end_auction_common(s2, *ctx, auction_id, ended) {
                    Ok((_, t)) => {
                        let t1 = spec_transfer_or_save(s0, *ctx, a.current_winner, a.payment_token_type, a.payment_token_nonce, a.current_bid)->Ok_0.1;
                        assert(acts@ =~= a0 + (t1 + t));
                    },
                    Err(_) => {},
                }
            }
            r
        }
    }

    /// Returns one global offer (see `spec_withdraw_global_offer_one`).
    fn withdraw_global_offer_one(&mut self, ctx: &ChainContext, offer_id: u64, acts: &mut Vec<Action>) -> (r: Result<(), MarketError>)
        requires
            old(self).inv(),
        ensures
            final(self).inv(),
            crate::common::step_matches(spec_withdraw_global_offer_one(old(self).store(), *ctx, offer_id), r, final(self).store(), old(acts)@, final(acts)@),
    {
        match self.global_offer.get(&offer_id) {
            Some(o) => {
                let offer = *o;
                self.common_global_offer_remove(ctx, &offer, true, acts)
            },
            None => {
                assert(old(acts)@ + seq![] =~= acts@);
                Ok(())
            },
        }
    }

    /// Withdraws one recorded offer (see `spec_withdraw_recorded_offer`).
    fn withdraw_recorded_offer(&mut self, offer_id: u64, acts: &mut Vec<Action>) -> (r: Result<(), MarketError>)
        requires
            old(self).inv(),
        ensures
            final(self).inv(),
            crate::common::step_matches(spec_withdraw_recorded_offer(old(self).store(), offer_id), r, final(self).store(), old(acts)@, final(acts)@),
    {
        let offer = self.try_get_offer(offer_id)?;
        self.common_withdraw_offer(offer_id, &offer, acts);
        Ok(())
    }

    /// Withdraws one offer if it expired (see `spec_clean_expired_one`).
    fn clean_expired_one(&mut self, ctx: &ChainContext, offer_id: u64, acts: &mut Vec<Action>) -> (r: Result<(), MarketError>)
        requires
            old(self).inv(),
        ensures
            final(self).inv(),
            crate::common::step_matches(spec_clean_expired_one(old(self).store(), *ctx, offer_id), r, final(self).store(), old(acts)@, final(acts)@),
    {
        match self.offer_by_id.get(&offer_id) {
            Some(o) => {
                let offer = *o;
                if offer.deadline <= ctx.timestamp {
                    self.common_withdraw_offer(offer_id, &offer, acts);
                } else {
                    assert(old(acts)@ + seq![] =~= acts@);
                }
            },
            None => {
                assert(old(acts)@ + seq![] =~= acts@);
            },
        }
        Ok(())
    }

    /// Pays out what was saved for `wallet` in `token` (see `claim_token`).
    fn claim_token_exec(&mut self, wallet: Address, token: PaymentToken, acts: &mut Vec<Action>)
        requires
            old(self).inv(),
        ensures
            final(self).inv(),
            final(self).store() == claim_token(old(self).store(), wallet, token).0,
            final(acts)@ == old(acts)@ + claim_token(old(self).store(), wallet, token).1,
    {
        let ghost s0 = self.store();
        let ghost a0 = acts@;
        let nonces = self.claimable_token_nonces.to_vec(&(wallet, token));
        let mut i: usize = 0;
        assert(a0 + seq![] =~= a0);
        while i < nonces.len()
            invariant
                self.inv(),
                i <= nonces@.len(),
                nonces@ == set_at(s0.claimable_token_nonces, (wallet, token)),
                claim_nonces_from(self.store(), wallet, token, nonces@, i as int).0
                    == claim_nonces_from(s0, wallet, token, nonces@, 0).0,
                acts@ + claim_nonces_from(self.store(), wallet, token, nonces@, i as int).1
                    == a0 + claim_nonces_from(s0, wallet, token, nonces@, 0).1,
            decreases nonces@.len() - i,
        {
            let nonce = nonces[i];
            let key = (wallet, token, nonce);
            let amount = self.claimable_amount.get(&key);
            let ghost ai = acts@;
            let ghost si = self.store();
            if amount > 0 {
                acts.push(Action::Transfer { to: wallet, token, nonce, amount });
                self.claimable_amount.set(key, 0);
                assert(self.store() =~= Store { claimable_amount: with_amount(si.claimable_amount, key, 0), ..si });
            }
            proof {
                let rest = claim_nonces_from(self.store(), wallet, token, nonces@, i + 1).1;
                let t1: Seq<Action> = if amount > 0 { seq![transfer(wallet, token, nonce, amount)] } else { seq![] };
                assert(acts@ == ai + t1);
                assert(ai + (t1 + rest) =~= acts@ + rest);
            }
            i += 1;
        }
        self.claimable_token_nonces.clear(&(wallet, token));
        proof {
            assert(acts@ + seq![] =~= acts@);
        }
    }

    /// Pays out everything saved for `wallet` (see `spec_claim_saved`).
    fn claim_saved(&mut self, wallet: Address, acts: &mut Vec<Action>)
        requires
            old(self).inv(),
        ensures
            final(self).inv(),
            final(self).store() == spec_claim_saved(old(self).store(), wallet).0,
            final(acts)@ == old(acts)@ + spec_claim_saved(old(self).store(), wallet).1,
    {
        let ghost s0 = self.store();
        let ghost a0 = acts@;
        let tokens = self.claimable_tokens.to_vec(&wallet);
        let mut i: usize = 0;
        assert(a0 + seq![] =~= a0);
        while i < tokens.len()
            invariant
                self.inv(),
                i <= tokens@.len(),
                tokens@ == set_at(s0.claimable_tokens, wallet),
                claim_tokens_from(self.store(), wallet, tokens@, i as int).0 == claim_tokens_from(s0, wallet, tokens@, 0).0,
                acts@ + claim_tokens_from(self.store(), wallet, tokens@, i as int).1
                    == a0 + claim_tokens_from(s0, wallet, tokens@, 0).1,
            decreases tokens@.len() - i,
        {
            let ghost ai = acts@;
            let ghost si = self.store();
            self.claim_token_exec(wallet, tokens[i], acts);
            proof {
                let rest = claim_tokens_from(self.store(), wallet, tokens@, i + 1).1;
                let t1 = claim_token(si, wallet, tokens@[i as int]).1;
                assert(ai + (t1 + rest) =~= acts@ + rest);
            }
            i += 1;
        }
        self.claimable_tokens.clear(&wallet);
        proof {
            assert(acts@ + seq![] =~= acts@);
        }
    }
}

impl AdminModule for Marketplace {
    fn return_listing(&mut self, ctx: &ChainContext, auction_ids: &Vec<u64>) -> (r: Result<Vec<Action>, MarketError>) {
        let saved = self.duplicate();
        let r = self.attempt_return_listing(ctx, auction_ids);
        if r.is_err() {
            *self = saved;
        }
        r
    }

    fn withdraw_global_offers(&mut self, ctx: &ChainContext, offer_ids: &Vec<u64>) -> (r: Result<Vec<Action>, MarketError>) {
        let saved = self.duplicate();
        let r = self.attempt_withdraw_global_offers(ctx, offer_ids);
        if r.is_err() {
            *self = saved;
        }
        r
    }

    fn delete_user_offers(&mut self, ctx: &ChainContext, user: Address) -> (r: Result<Vec<Action>, MarketError>) {
        let saved = self.duplicate();
        let r = self.attempt_delete_user_offers(ctx, user);
        if r.is_err() {
            *self = saved;
        }
        r
    }

    fn clean_expired_offers(&mut self, ctx: &ChainContext, offer_ids: &Vec<u64>) -> (r: Result<Vec<Action>, MarketError>) {
        let saved = self.duplicate();
        let r = self.attempt_clean_expired_offers(ctx, offer_ids);
        if r.is_err() {
            *self = saved;
        }
        r
    }

    fn add_reward_balance(&mut self, ctx: &ChainContext, payment: Payment) -> (r: Result<(), MarketError>) {
        let saved = self.duplicate();
        let r = self.attempt_add_reward_balance(ctx, payment);
        if r.is_err() {
            *self = saved;
        }
        r
    }

    fn set_reward_ticker(&mut self, ctx: &ChainContext, token: PaymentToken) -> (r: Result<(), MarketError>) {
        let saved = self.duplicate();
        let r = self.attempt_set_reward_ticker(ctx, token);
        if r.is_err() {
            *self = saved;
        }
        r
    }

    fn set_special_reward_amount(&mut self, ctx: &ChainContext, token: TokenId, amount: u128) -> (r: Result<(), MarketError>) {
        let saved = self.duplicate();
        let r = self.attempt_set_special_reward_amount(ctx, token, amount);
        if r.is_err() {
            *self = saved;
        }
        r
    }

    fn set_default_reward_amount(&mut self, ctx: &ChainContext, amount: u128) -> (r: Result<(), MarketError>) {
        let saved = self.duplicate();
        let r = self.attempt_set_default_reward_amount(ctx, amount);
        if r.is_err() {
            *self = saved;
        }
        r
    }

    fn set_accepted_tokens(&mut self, ctx: &ChainContext, token: PaymentToken) -> (r: Result<(), MarketError>) {
        let saved = self.duplicate();
        let r = self.attempt_set_accepted_tokens(ctx, token);
        if r.is_err() {
            *self = saved;
        }
        r
    }

    fn remove_accepted_tokens(&mut self, ctx: &ChainContext, token: PaymentToken) -> (r: Result<bool, MarketError>) {
        let saved = self.duplicate();
        let r = self.attempt_remove_accepted_tokens(ctx, token);
        if r.is_err() {
            *self = saved;
        }
        r
    }

    fn add_whitelisted_sc(&mut self, ctx: &ChainContext, sc: Address) -> (r: Result<Vec<Action>, MarketError>) {
        let saved = self.duplicate();
        let r = self.attempt_add_whitelisted_sc(ctx, sc);
        if r.is_err() {
            *self = saved;
        }
        r
    }

    fn remove_wl_sc(&mut self, ctx: &ChainContext, sc: Address) -> (r: Result<(), MarketError>) {
        let saved = self.duplicate();
        let r = self.attempt_remove_wl_sc(ctx, sc);
        if r.is_err() {
            *self = saved;
        }
        r
    }

    fn set_status(&mut self, ctx: &ChainContext, status: bool) -> (r: Result<(), MarketError>) {
        let saved = self.duplicate();
        let r = self.attempt_set_status(ctx, status);
        if r.is_err() {
            *self = saved;
        }
        r
    }

    fn set_percentage_cut(&mut self, ctx: &ChainContext, new_cut_percentage: u64) -> (r: Result<(), MarketError>) {
        let saved = self.duplicate();
        let r = self.attempt_set_percentage_cut(ctx, new_cut_percentage);
        if r.is_err() {
            *self = saved;
        }
        r
    }

    fn un_freeze_auction_id(&mut self, ctx: &ChainContext, auction_id: u64) -> (r: Result<(), MarketError>) {
        let saved = self.duplicate();
        let r = self.attempt_un_freeze_auction_id(ctx, auction_id);
        if r.is_err() {
            *self = saved;
        }
        r
    }

    fn un_freeze_all_auction_id(&mut self, ctx: &ChainContext) -> (r: Result<(), MarketError>) {
        let saved = self.duplicate();
        let r = self.attempt_un_freeze_all_auction_id(ctx);
        if r.is_err() {
            *self = saved;
        }
        r
    }

    fn freeze_auction_id(&mut self, ctx: &ChainContext, auction_id: u64) -> (r: Result<(), MarketError>) {
        let saved = self.duplicate();
        let r = self.attempt_freeze_auction_id(ctx, auction_id);
        if r.is_err() {
            *self = saved;
        }
        r
    }

    fn claim_lost_funds(&mut self, ctx: &ChainContext, token: PaymentToken, amount: u128) -> (r: Result<Vec<Action>, MarketError>) {
        let saved = self.duplicate();
        let r = self.attempt_claim_lost_funds(ctx, token, amount);
        if r.is_err() {
            *self = saved;
        }
        r
    }

    fn claim_tokens_for_creator(&mut self, ctx: &ChainContext, wallet: Address) -> (r: Result<Vec<Action>, MarketError>) {
        let saved = self.duplicate();
        let r = self.attempt_claim_tokens_for_creator(ctx, wallet);
        if r.is_err() {
            *self = saved;
        }
        r
    }

    fn add_blacklist(&mut self, ctx: &ChainContext, wallet: Address) -> (r: Result<bool, MarketError>) {
        let saved = self.duplicate();
        let r = self.attempt_add_blacklist(ctx, wallet);
        if r.is_err() {
            *self = saved;
        }
        r
    }

    fn remove_blacklist(&mut self, ctx: &ChainContext, wallet: Address) -> (r: Result<bool, MarketError>) {
        let saved = self.duplicate();
        let r = self.attempt_remove_blacklist(ctx, wallet);
        if r.is_err() {
            *self = saved;
        }
        r
    }
}

impl Marketplace {
    /// The steps of `return_listing`; a failure may leave the storage part-way.
    fn attempt_return_listing(&mut self, ctx: &ChainContext, auction_ids: &Vec<u64>) -> (r: Result<Vec<Action>, MarketError>)
        requires
            old(self).inv(),
        ensures
            final(self).inv(),
            endpoint_matches(spec_return_listing(old(self).store(), *ctx, auction_ids@), r, final(self).store()),
    {
        self.require_admin(ctx, None)?;
        let ghost s0 = self.store();
        let mut acts: Vec<Action> = Vec::new();
        let mut i: usize = 0;
        proof {
            lemma_prefixed_empty(spec_return_listing_from(s0, *ctx, auction_ids@, 0));
        }
        while i < auction_ids.len()
            invariant
                self.inv(),
                i <= auction_ids@.len(),
                spec_return_listing(old(self).store(), *ctx, auction_ids@) == spec_return_listing_from(s0, *ctx, auction_ids@, 0),
                prefixed(acts@, spec_return_listing_from(self.store(), *ctx, auction_ids@, i as int))
                    == spec_return_listing_from(s0, *ctx, auction_ids@, 0),
            decreases auction_ids@.len() - i,
        {
            let ghost si = self.store();
            let ghost ai = acts@;
            let r = self.return_listing_one(ctx, auction_ids[i], &mut acts);
            match r {
                Ok(()) => {
                    proof {
                        let t = spec_return_listing_one(si, *ctx, auction_ids@[i as int])->Ok_0.1;
                        lemma_prefixed_assoc(ai, t, spec_return_listing_from(self.store(), *ctx, auction_ids@, i + 1));
                    }
                },
                Err(e) => {
                    assert(spec_return_listing_from(si, *ctx, auction_ids@, i as int) == Err::<(Store, Seq<Action>), MarketError>(e));
                    return Err(e);
                },
            }
            i += 1;
        }
        assert(acts@ + seq![] =~= acts@);
        Ok(acts)
    }

    /// The steps of `withdraw_global_offers`; a failure may leave the storage part-way.
    fn attempt_withdraw_global_offers(&mut self, ctx: &ChainContext, offer_ids: &Vec<u64>) -> (r: Result<Vec<Action>, MarketError>)
        requires
            old(self).inv(),
        ensures
            final(self).inv(),
            endpoint_matches(spec_withdraw_global_offers(old(self).store(), *ctx, offer_ids@), r, final(self).store()),
    {
        self.require_admin(ctx, None)?;
        let ghost s0 = self.store();
        let mut acts: Vec<Action> = Vec::new();
        let mut i: usize = 0;
        proof {
            lemma_prefixed_empty(spec_withdraw_global_offers_from(s0, *ctx, offer_ids@, 0));
        }
        while i < offer_ids.len()
            invariant
                self.inv(),
                i <= offer_ids@.len(),
                spec_withdraw_global_offers(old(self).store(), *ctx, offer_ids@) == spec_withdraw_global_offers_from(s0, *ctx, offer_ids@, 0),
                prefixed(acts@, spec_withdraw_global_offers_from(self.store(), *ctx, offer_ids@, i as int))
                    == spec_withdraw_global_offers_from(s0, *ctx, offer_ids@, 0),
            decreases offer_ids@.len() - i,
        {
            let ghost si = self.store();
            let ghost ai = acts@;
            let r = self.withdraw_global_offer_one(ctx, offer_ids[i], &mut acts);
            match r {
                Ok(()) => {
                    proof {
                        let t = spec_withdraw_global_offer_one(si, *ctx, offer_ids@[i as int])->Ok_0.1;
                        lemma_prefixed_assoc(ai, t, spec_withdraw_global_offers_from(self.store(), *ctx, offer_ids@, i + 1));
                    }
                },
                Err(e) => {
                    assert(spec_withdraw_global_offers_from(si, *ctx, offer_ids@, i as int) == Err::<(Store, Seq<Action>), MarketError>(e));
                    return Err(e);
                },
            }
            i += 1;
        }
        assert(acts@ + seq![] =~= acts@);
        Ok(acts)
    }

    /// The steps of `delete_user_offers`; a failure may leave the storage part-way.
    fn attempt_delete_user_offers(&mut self, ctx: &ChainContext, user: Address) -> (r: Result<Vec<Action>, MarketError>)
        requires
            old(self).inv(),
        ensures
            final(self).inv(),
            endpoint_matches(spec_delete_user_offers(old(self).store(), *ctx, user), r, final(self).store()),
    {
        self.require_admin(ctx, None)?;
        let ghost s0 = self.store();
        let all = self.offers_by_wallet.to_vec(&user);
        let n: usize = if all.len() <= 80 { all.len() } else { 80 };
        let mut ids: Vec<u64> = Vec::new();
        let mut k: usize = 0;
        while k < n
            invariant
                k <= n,
                n <= all@.len(),
                ids@ == all@.subrange(0, k as int),
            decreases n - k,
        {
            ids.push(all[k]);
            k += 1;
            assert(ids@ =~= all@.subrange(0, k as int));
        }
        assert(ids@ =~= first_offers(s0, user));
        let mut acts: Vec<Action> = Vec::new();
        let mut i: usize = 0;
        proof {
            lemma_prefixed_empty(spec_withdraw_offers_from(s0, ids@, 0));
        }
        while i < ids.len()
            invariant
                self.inv(),
                i <= ids@.len(),
                spec_delete_user_offers(old(self).store(), *ctx, user) == spec_withdraw_offers_from(s0, ids@, 0),
                prefixed(acts@, spec_withdraw_offers_from(self.store(), ids@, i as int)) == spec_withdraw_offers_from(s0, ids@, 0),
            decreases ids@.len() - i,
        {
            let ghost si = self.store();
            let ghost ai = acts@;
            let r = self.withdraw_recorded_offer(ids[i], &mut acts);
            match r {
                Ok(()) => {
                    proof {
                        let t = spec_withdraw_recorded_offer(si, ids@[i as int])->Ok_0.1;
                        lemma_prefixed_assoc(ai, t, spec_withdraw_offers_from(self.store(), ids@, i + 1));
                    }
                },
                Err(e) => {
                    assert(spec_withdraw_offers_from(si, ids@, i as int) == Err::<(Store, Seq<Action>), MarketError>(e));
                    return Err(e);
                },
            }
            i += 1;
        }
        assert(acts@ + seq![] =~= acts@);
        Ok(acts)
    }

    /// The steps of `clean_expired_offers`; a failure may leave the storage part-way.
    fn attempt_clean_expired_offers(&mut self, ctx: &ChainContext, offer_ids: &Vec<u64>) -> (r: Result<Vec<Action>, MarketError>)
        requires
            old(self).inv(),
        ensures
            final(self).inv(),
            endpoint_matches(spec_clean_expired_offers(old(self).store(), *ctx, offer_ids@), r, final(self).store()),
    {
        self.require_admin(ctx, None)?;
        let ghost s0 = self.store();
        let mut acts: Vec<Action> = Vec::new();
        let mut i: usize = 0;
        proof {
            lemma_prefixed_empty(spec_clean_expired_from(s0, *ctx, offer_ids@, 0));
        }
        while i < offer_ids.len()
            invariant
                self.inv(),
                i <= offer_ids@.len(),
                spec_clean_expired_offers(old(self).store(), *ctx, offer_ids@) == spec_clean_expired_from(s0, *ctx, offer_ids@, 0),
                prefixed(acts@, spec_clean_expired_from(self.store(), *ctx, offer_ids@, i as int))
                    == spec_clean_expired_from(s0, *ctx, offer_ids@, 0),
            decreases offer_ids@.len() - i,
        {
            let ghost si = self.store();
            let ghost ai = acts@;
            let r = self.clean_expired_one(ctx, offer_ids[i], &mut acts);
            match r {
                Ok(()) => {
                    proof {
                        let t = spec_clean_expired_one(si, *ctx, offer_ids@[i as int])->Ok_0.1;
                        lemma_prefixed_assoc(ai, t, spec_clean_expired_from(self.store(), *ctx, offer_ids@, i + 1));
                    }
                },
                Err(e) => {
                    assert(spec_clean_expired_from(si, *ctx, offer_ids@, i as int) == Err::<(Store, Seq<Action>), MarketError>(e));
                    return Err(e);
                },
            }
            i += 1;
        }
        assert(acts@ + seq![] =~= acts@);
        Ok(acts)
    }

    /// The steps of `add_reward_balance`; a failure may leave the storage part-way.
    fn attempt_add_reward_balance(&mut self, ctx: &ChainContext, payment: Payment) -> (r: Result<(), MarketError>)
        requires
            old(self).inv(),
        ensures
            final(self).inv(),
            store_matches(spec_add_reward_balance(old(self).store(), *ctx, payment), r, final(self).store()),
    {
        if ctx.caller != ctx.owner {
            return Err(MarketError::NotOwner);
        }
        let is_ticker = match self.reward_ticker {
            Some(t) => t == payment.token,
            None => false,
        };
        if !is_ticker {
            return Err(MarketError::NotRewardToken);
        }
        self.reward_balance = match self.reward_balance.checked_add(payment.amount) {
            Some(b) => b,
            None => {
                return Err(MarketError::Overflow);
            },
        };
        Ok(())
    }

    /// The steps of `set_reward_ticker`; a failure may leave the storage part-way.
    fn attempt_set_reward_ticker(&mut self, ctx: &ChainContext, token: PaymentToken) -> (r: Result<(), MarketError>)
        requires
            old(self).inv(),
        ensures
            final(self).inv(),
            store_matches(by_owner(*ctx, Store { reward_ticker: Some(token), ..old(self).store() }), r, final(self).store()),
    {
        if ctx.caller != ctx.owner {
            return Err(MarketError::NotOwner);
        }
        self.reward_ticker = Some(token);
        Ok(())
    }

    /// The steps of `set_special_reward_amount`; a failure may leave the storage part-way.
    fn attempt_set_special_reward_amount(&mut self, ctx: &ChainContext, token: TokenId, amount: u128) -> (r: Result<(), MarketError>)
        requires
            old(self).inv(),
        ensures
            final(self).inv(),
            store_matches(spec_set_special_reward_amount(old(self).store(), *ctx, token, amount), r, final(self).store()),
    {
        if ctx.caller != ctx.owner {
            return Err(MarketError::NotOwner);
        }
        let is_ticker = match self.reward_ticker {
            Some(t) => t == PaymentToken::Esdt(token),
            None => false,
        };
        if !is_ticker {
            return Err(MarketError::NotRewardToken);
        }
        self.special_reward_amount.set(token, amount);
        Ok(())
    }

    /// The steps of `set_default_reward_amount`; a failure may leave the storage part-way.
    fn attempt_set_default_reward_amount(&mut self, ctx: &ChainContext, amount: u128) -> (r: Result<(), MarketError>)
        requires
            old(self).inv(),
        ensures
            final(self).inv(),
            store_matches(by_owner(*ctx, Store { reward_amount: amount, ..old(self).store() }), r, final(self).store()),
    {
        if ctx.caller != ctx.owner {
            return Err(MarketError::NotOwner);
        }
        self.reward_amount = amount;
        Ok(())
    }

    /// The steps of `set_accepted_tokens`; a failure may leave the storage part-way.
    fn attempt_set_accepted_tokens(&mut self, ctx: &ChainContext, token: PaymentToken) -> (r: Result<(), MarketError>)
        requires
            old(self).inv(),
        ensures
            final(self).inv(),
            store_matches(
                by_admin(old(self).store(), *ctx, Store { accepted_tokens: seq_with(old(self).store().accepted_tokens, token), ..old(self).store() }),
                r,
                final(self).store(),
            ),
    {
        self.require_admin(ctx, None)?;
        self.accepted_tokens.insert(token);
        Ok(())
    }

    /// The steps of `remove_accepted_tokens`; a failure may leave the storage part-way.
    fn attempt_remove_accepted_tokens(&mut self, ctx: &ChainContext, token: PaymentToken) -> (r: Result<bool, MarketError>)
        requires
            old(self).inv(),
        ensures
            final(self).inv(),
            is_admin(old(self).store(), *ctx, None) ==> r == Ok::<bool, MarketError>(old(self).store().accepted_tokens.contains(token))
                && final(self).store() == (Store { accepted_tokens: seq_without(old(self).store().accepted_tokens, token), ..old(self).store() }),
            !is_admin(old(self).store(), *ctx, None) ==> r == Err::<bool, MarketError>(MarketError::NotAdmin),
    {
        self.require_admin(ctx, None)?;
        Ok(self.accepted_tokens.remove(&token))
    }

    /// The steps of `add_whitelisted_sc`; a failure may leave the storage part-way.
    fn attempt_add_whitelisted_sc(&mut self, ctx: &ChainContext, sc: Address) -> (r: Result<Vec<Action>, MarketError>)
        requires
            old(self).inv(),
        ensures
            final(self).inv(),
            endpoint_matches(spec_add_whitelisted_sc(old(self).store(), *ctx, sc), r, final(self).store()),
    {
        self.require_admin(ctx, None)?;
        if !ctx.is_smart_contract(sc) {
            return Err(MarketError::NotSmartContract);
        }
        let mut acts: Vec<Action> = Vec::new();
        self.claim_saved(sc, &mut acts);
        assert(acts@ =~= spec_claim_saved(old(self).store(), sc).1);
        self.whitelisted_contracts.insert(sc);
        Ok(acts)
    }

    /// The steps of `remove_wl_sc`; a failure may leave the storage part-way.
    fn attempt_remove_wl_sc(&mut self, ctx: &ChainContext, sc: Address) -> (r: Result<(), MarketError>)
        requires
            old(self).inv(),
        ensures
            final(self).inv(),
            store_matches(
                if !is_admin(old(self).store(), *ctx, None) {
                    Err(MarketError::NotAdmin)
                } else if !is_smart_contract(*ctx, sc) {
                    Err(MarketError::NotSmartContract)
                } else {
                    Ok(Store { whitelisted_contracts: seq_without(old(self).store().whitelisted_contracts, sc), ..old(self).store() })
                },
                r,
                final(self).store(),
            ),
    {
        self.require_admin(ctx, None)?;
        if !ctx.is_smart_contract(sc) {
            return Err(MarketError::NotSmartContract);
        }
        self.whitelisted_contracts.remove(&sc);
        Ok(())
    }

    /// The steps of `set_status`; a failure may leave the storage part-way.
    fn attempt_set_status(&mut self, ctx: &ChainContext, status: bool) -> (r: Result<(), MarketError>)
        requires
            old(self).inv(),
        ensures
            final(self).inv(),
            store_matches(by_admin(old(self).store(), *ctx, Store { status, ..old(self).store() }), r, final(self).store()),
    {
        self.require_admin(ctx, None)?;
        self.status = status;
        Ok(())
    }

    /// The steps of `set_percentage_cut`; a failure may leave the storage part-way.
    fn attempt_set_percentage_cut(&mut self, ctx: &ChainContext, new_cut_percentage: u64) -> (r: Result<(), MarketError>)
        requires
            old(self).inv(),
        ensures
            final(self).inv(),
            store_matches(
                if !is_owner(*ctx) {
                    Err(MarketError::NotOwner)
                } else if !(0 < new_cut_percentage < PERCENTAGE_TOTAL) {
                    Err(MarketError::InvalidPercentage)
                } else {
                    Ok(Store { bid_cut_percentage: new_cut_percentage as u128, ..old(self).store() })
                },
                r,
                final(self).store(),
            ),
    {
        if ctx.caller != ctx.owner {
            return Err(MarketError::NotOwner);
        }
        self.try_set_bid_cut_percentage(new_cut_percentage)
    }

    /// The steps of `un_freeze_auction_id`; a failure may leave the storage part-way.
    fn attempt_un_freeze_auction_id(&mut self, ctx: &ChainContext, auction_id: u64) -> (r: Result<(), MarketError>)
        requires
            old(self).inv(),
        ensures
            final(self).inv(),
            store_matches(
                by_admin(old(self).store(), *ctx, Store { freezed_auctions: seq_swap_without(old(self).store().freezed_auctions, auction_id), ..old(self).store() }),
                r,
                final(self).store(),
            ),
    {
        self.require_admin(ctx, None)?;
        self.freezed_auctions.swap_remove(&auction_id);
        Ok(())
    }

    /// The steps of `un_freeze_all_auction_id`; a failure may leave the storage part-way.
    fn attempt_un_freeze_all_auction_id(&mut self, ctx: &ChainContext) -> (r: Result<(), MarketError>)
        requires
            old(self).inv(),
        ensures
            final(self).inv(),
            store_matches(
                by_admin(old(self).store(), *ctx, Store { freezed_auctions: seq![], ..old(self).store() }),
                r,
                final(self).store(),
            ),
    {
        self.require_admin(ctx, None)?;
        self.freezed_auctions.clear();
        Ok(())
    }

    /// The steps of `freeze_auction_id`; a failure may leave the storage part-way.
    fn attempt_freeze_auction_id(&mut self, ctx: &ChainContext, auction_id: u64) -> (r: Result<(), MarketError>)
        requires
            old(self).inv(),
        ensures
            final(self).inv(),
            store_matches(
                by_admin(old(self).store(), *ctx, Store { freezed_auctions: seq_with(old(self).store().freezed_auctions, auction_id), ..old(self).store() }),
                r,
                final(self).store(),
            ),
    {
        self.require_admin(ctx, None)?;
        self.freezed_auctions.insert(auction_id);
        Ok(())
    }

    /// The steps of `claim_lost_funds`; a failure may leave the storage part-way.
    fn attempt_claim_lost_funds(&mut self, ctx: &ChainContext, token: PaymentToken, amount: u128) -> (r: Result<Vec<Action>, MarketError>)
        requires
            old(self).inv(),
        ensures
            final(self).inv(),
            endpoint_matches(
                if is_owner(*ctx) {
                    Ok((old(self).store(), seq![transfer(ctx.owner, token, 0, amount)]))
                } else {
                    Err(MarketError::NotOwner)
                },
                r,
                final(self).store(),
            ),
    {
        if ctx.caller != ctx.owner {
            return Err(MarketError::NotOwner);
        }
        let mut acts: Vec<Action> = Vec::new();
        acts.push(Action::Transfer { to: ctx.owner, token, nonce: 0, amount });
        assert(acts@ =~= seq![transfer(ctx.owner, token, 0, amount)]);
        Ok(acts)
    }

    /// The steps of `claim_tokens_for_creator`; a failure may leave the storage part-way.
    fn attempt_claim_tokens_for_creator(&mut self, ctx: &ChainContext, wallet: Address) -> (r: Result<Vec<Action>, MarketError>)
        requires
            old(self).inv(),
        ensures
            final(self).inv(),
            endpoint_matches(spec_claim_tokens_for_creator(old(self).store(), *ctx, wallet), r, final(self).store()),
    {
        self.require_admin(ctx, None)?;
        let mut acts: Vec<Action> = Vec::new();
        self.claim_saved(wallet, &mut acts);
        assert(acts@ =~= spec_claim_saved(old(self).store(), wallet).1);
        Ok(acts)
    }

    /// The steps of `add_blacklist`; a failure may leave the storage part-way.
    fn attempt_add_blacklist(&mut self, ctx: &ChainContext, wallet: Address) -> (r: Result<bool, MarketError>)
        requires
            old(self).inv(),
        ensures
            final(self).inv(),
            is_admin(old(self).store(), *ctx, None) ==> r == Ok::<bool, MarketError>(!old(self).store().blacklist_wallets.contains(wallet))
                && final(self).store() == (Store { blacklist_wallets: seq_with(old(self).store().blacklist_wallets, wallet), ..old(self).store() }),
            !is_admin(old(self).store(), *ctx, None) ==> r == Err::<bool, MarketError>(MarketError::NotAdmin),
    {
        self.require_admin(ctx, None)?;
        Ok(self.blacklist_wallets.insert(wallet))
    }

    /// The steps of `remove_blacklist`; a failure may leave the storage part-way.
    fn attempt_remove_blacklist(&mut self, ctx: &ChainContext, wallet: Address) -> (r: Result<bool, MarketError>)
        requires
            old(self).inv(),
        ensures
            final(self).inv(),
            is_admin(old(self).store(), *ctx, None) ==> r == Ok::<bool, MarketError>(old(self).store().blacklist_wallets.contains(wallet))
                && final(self).store() == (Store { blacklist_wallets: seq_without(old(self).store().blacklist_wallets, wallet), ..old(self).store() }),
            !is_admin(old(self).store(), *ctx, None) ==> r == Err::<bool, MarketError>(MarketError::NotAdmin),
    {
        self.require_admin(ctx, None)?;
        Ok(self.blacklist_wallets.remove(&wallet))
    }
}

} // verus!
