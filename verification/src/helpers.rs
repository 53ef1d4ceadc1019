//! Helpers shared by the endpoints: paying or saving funds for contracts,
//! reading listings and offers, fee arithmetic and access checks.
use vstd::prelude::*;

use crate::auction::{
    Address, Auction, CollectionFeeConfig, FeesDistribution, GlobalOffer, Offer, PaymentToken,
    TokenId, PERCENTAGE_TOTAL, ZERO_ADDRESS,
};
use crate::collections::{amount_at, seq_with, set_at, with_amount, with_set};
use crate::errors::MarketError;
use crate::events::{transfer, Action, EventsModule};
use crate::storage::{
    find_nft_data, is_smart_contract, ChainContext, Marketplace, NftData, StorageModule, Store,
};

verus! {

/// The outcome of a step of a call: the new storage and the actions it adds.
pub type Step = Result<(Store, Seq<Action>), MarketError>;

/// Pays `amount` of `token` to `to`; for a smart contract that is not
/// whitelisted the amount is saved for it to claim instead.  Nothing happens
/// for a zero amount.
pub open spec fn spec_transfer_or_save(
    s: Store,
    ctx: ChainContext,
    to: Address,
    token: PaymentToken,
    nonce: u64,
    amount: u128,
) -> Step {
    if is_smart_contract(ctx, to) && !s.whitelisted_contracts.contains(to) {
        if amount == 0 {
            Ok((s, seq![]))
        } else {
            let total = amount_at(s.claimable_amount, (to, token, nonce)) + amount;
            if total > u128::MAX {
                Err(MarketError::Overflow)
            } else {
                Ok(
                    (
                        Store {
                            claimable_tokens: with_set(
                                s.claimable_tokens,
                                to,
                                seq_with(set_at(s.claimable_tokens, to), token),
                            ),
                            claimable_token_nonces: with_set(
                                s.claimable_token_nonces,
                                (to, token),
                                seq_with(set_at(s.claimable_token_nonces, (to, token)), nonce),
                            ),
                            claimable_amount: with_amount(
                                s.claimable_amount,
                                (to, token, nonce),
                                total as u128,
                            ),
                            ..s
                        },
                        seq![],
                    ),
                )
            }
        }
    } else if amount > 0 {
        Ok((s, seq![transfer(to, token, nonce, amount)]))
    } else {
        Ok((s, seq![]))
    }
}

/// The token data of an NFT: for the collection whose creator lives in the
/// attributes, the creator is the one the attributes name.
pub open spec fn spec_nft_info(ctx: ChainContext, token: TokenId, nonce: u64) -> Result<
    NftData,
    MarketError,
> {
    let data = find_nft_data(ctx.nft_data@, token, nonce);
    if token == ctx.ins_collection {
        match data.attributes_creator {
            Some(c) => Ok(NftData { creator: c, ..data }),
            None => Err(MarketError::AttributesDecodeFailed),
        }
    } else {
        Ok(data)
    }
}

/// `total * cut / 10_000`, rounded down.
pub open spec fn cut_amount(total: u128, cut: u128) -> int {
    (total * cut) / (PERCENTAGE_TOTAL as int)
}

/// The royalties that apply under a collection configuration.
pub open spec fn eligible_royalties(royalties: u128, config: Option<CollectionFeeConfig>) -> u128 {
    match config {
        Some(c) => if c.custom_royalties {
            if c.max_royalties < royalties {
                c.max_royalties
            } else if c.min_royalties > royalties {
                c.min_royalties
            } else {
                royalties
            }
        } else {
            royalties
        },
        None => royalties,
    }
}

/// The extra fee of a collection configuration (zero when there is none).
pub open spec fn extra_fee_of(config: Option<CollectionFeeConfig>) -> u128 {
    match config {
        Some(c) => c.extra_fees.amount,
        None => 0,
    }
}

/// Who receives the extra fee (the zero address when there is none).
pub open spec fn extra_address_of(config: Option<CollectionFeeConfig>) -> Address {
    match config {
        Some(c) => c.extra_fees.address,
        None => ZERO_ADDRESS,
    }
}

/// Whether the fees of a sale stay under 100%.
pub open spec fn fees_below_total(fees: u128, royalties: u128, config: Option<
    CollectionFeeConfig,
>) -> bool {
    fees + eligible_royalties(royalties, config) + extra_fee_of(config) < PERCENTAGE_TOTAL
}

/// How a sale at `price` is split between creator, marketplace, extra fee and seller.
pub open spec fn spec_amount_split(
    fees: u128,
    price: u128,
    royalties: u128,
    config: Option<CollectionFeeConfig>,
) -> Result<FeesDistribution, MarketError> {
    let eligible = eligible_royalties(royalties, config);
    let extra_fee = extra_fee_of(config);
    let extra_address = extra_address_of(config);
    if !fees_below_total(fees, royalties, config) {
        Err(MarketError::FeesExceed100)
    } else {
        let creator = cut_amount(price, eligible);
        let marketplace = cut_amount(price, fees);
        let extra = if extra_fee > 0 && extra_address != ZERO_ADDRESS {
            cut_amount(price, extra_fee)
        } else {
            0
        };
        Ok(
            FeesDistribution {
                creator: creator as u128,
                marketplace: marketplace as u128,
                seller: (price - creator - marketplace - extra) as u128,
                extra: extra as u128,
                extra_address,
                reverse_royalties: match config {
                    Some(c) => c.reverse_royalties,
                    None => false,
                },
                reverse_cut_fee: match config {
                    Some(c) => c.reverse_cut_fees,
                    None => false,
                },
            },
        )
    }
}

/// The decimal digits of `n`, as ASCII bytes.
pub open spec fn decimal_digits(n: nat) -> Seq<u8>
    decreases n,
{
    if n < 10 {
        seq![(48 + n) as u8]
    } else {
        decimal_digits(n / 10).push((48 + n % 10) as u8)
    }
}

/// Whether the caller is the owner, the signer or the given extra admin.
pub open spec fn is_admin(s: Store, ctx: ChainContext, extra_admin: Option<Address>) -> bool {
    ctx.caller == ctx.owner || ctx.caller == s.signer || match extra_admin {
        Some(a) => ctx.caller == a,
        None => false,
    }
}

pub open spec fn spec_collection_config(s: Store, token: TokenId) -> Option<CollectionFeeConfig> {
    if s.collection_config.contains_key(token) {
        Some(s.collection_config[token])
    } else {
        None
    }
}

pub proof fn lemma_cut_amount_bounds(total: u128, cut: u128)
    requires
        cut <= PERCENTAGE_TOTAL,
    ensures
        0 <= cut_amount(total, cut) <= total,
{
    assert(0 <= total * cut <= total * (PERCENTAGE_TOTAL as int)) by (nonlinear_arith)
        requires
            cut <= PERCENTAGE_TOTAL,
    ;
    assert((total * cut) / 10000 <= total) by (nonlinear_arith)
        requires
            0 <= total * cut <= total * 10000,
    ;
}

/// The helpers of the marketplace.
pub trait HelpersModule: StorageModule + EventsModule {
    /// Pays or saves an amount (see `spec_transfer_or_save`).
    fn transfer_or_save_payment(
        &mut self,
        ctx: &ChainContext,
        to: Address,
        token: PaymentToken,
        nonce: u64,
        amount: u128,
        acts: &mut Vec<Action>,
    ) -> (r: Result<(), MarketError>)
        requires
            old(self).inv(),
        ensures
            final(self).inv(),
            match spec_transfer_or_save(old(self).store(), *ctx, to, token, nonce, amount) {
                Ok((s, a)) => r is Ok && final(self).store() == s && final(acts)@ == old(acts)@ + a,
                Err(e) => r == Err::<(), MarketError>(e),
            },
            r is Err ==> final(self).store() == old(self).store(),
    ;

    /// The token data of an NFT held by the contract.
    fn get_nft_info(&self, ctx: &ChainContext, nft_type: TokenId, nft_nonce: u64) -> (r: Result<
        NftData,
        MarketError,
    >)
        ensures
            r == spec_nft_info(*ctx, nft_type, nft_nonce),
    ;

    fn try_get_auction(&self, auction_id: u64) -> (r: Result<Auction, MarketError>)
        requires
            self.inv(),
        ensures
            r == (if self.store().auction_by_id.contains_key(auction_id) {
                Ok(self.store().auction_by_id[auction_id])
            } else {
                Err(MarketError::AuctionNotFound)
            }),
    ;

    fn try_get_global_offer(&self, offer_id: u64) -> (r: Result<GlobalOffer, MarketError>)
        requires
            self.inv(),
        ensures
            r == (if self.store().global_offer.contains_key(offer_id) {
                Ok(self.store().global_offer[offer_id])
            } else {
                Err(MarketError::GlobalOfferNotFound)
            }),
    ;

    fn try_get_offer(&self, offer_id: u64) -> (r: Result<Offer, MarketError>)
        requires
            self.inv(),
        ensures
            r == (if self.store().offer_by_id.contains_key(offer_id) {
                Ok(self.store().offer_by_id[offer_id])
            } else {
                Err(MarketError::OfferNotFound)
            }),
    ;

    /// Sets the marketplace cut; it must lie strictly between 0 and 100%.
    fn try_set_bid_cut_percentage(&mut self, new_cut_percentage: u64) -> (r: Result<
        (),
        MarketError,
    >)
        requires
            old(self).inv(),
        ensures
            final(self).inv(),
            r is Ok <==> 0 < new_cut_percentage < PERCENTAGE_TOTAL,
            r is Ok ==> final(self).store() == (Store {
                bid_cut_percentage: new_cut_percentage as u128,
                ..old(self).store()
            }),
            r is Err ==> r == Err::<(), MarketError>(MarketError::InvalidPercentage)
                && final(self).store() == old(self).store(),
            r is Err ==> final(self).store() == old(self).store(),
    ;

    /// `total_amount * cut_percentage / 10_000`, rounded down.
    fn calculate_cut_amount(&self, total_amount: u128, cut_percentage: u128) -> (r: u128)
        requires
            cut_amount(total_amount, cut_percentage) <= u128::MAX,
        ensures
            r == cut_amount(total_amount, cut_percentage),
    ;

    fn get_collection_config(&self, collection: TokenId) -> (r: Option<CollectionFeeConfig>)
        requires
            self.inv(),
        ensures
            r == spec_collection_config(self.store(), collection),
    ;

    /// How a sale at `price` is split (see `spec_amount_split`).
    fn calculate_amount_split(
        &self,
        price: u128,
        royalties: u128,
        config: Option<CollectionFeeConfig>,
    ) -> (r: Result<FeesDistribution, MarketError>)
        ensures
            r == spec_amount_split(self.store().bid_cut_percentage, price, royalties, config),
    ;

    /// The decimal representation of `number`, in ASCII.
    fn decimal_to_ascii(&self, number: u32) -> (r: Vec<u8>)
        ensures
            r@ == decimal_digits(number as nat),
    ;

    /// Fails unless the caller is the owner, the signer or `extra_admin`.
    fn require_admin(&self, ctx: &ChainContext, extra_admin: Option<Address>) -> (r: Result<
        (),
        MarketError,
    >)
        ensures
            r is Ok <==> is_admin(self.store(), *ctx, extra_admin),
            r is Err ==> r == Err::<(), MarketError>(MarketError::NotAdmin),
    ;

    /// Fails when the marketplace is paused.
    fn require_enabled(&self) -> (r: Result<(), MarketError>)
        ensures
            r is Ok <==> self.store().status,
            r is Err ==> r == Err::<(), MarketError>(MarketError::Disabled),
    ;
}

impl HelpersModule for Marketplace {
    fn transfer_or_save_payment(
        &mut self,
        ctx: &ChainContext,
        to: Address,
        token: PaymentToken,
        nonce: u64,
        amount: u128,
        acts: &mut Vec<Action>,
    ) -> (r: Result<(), MarketError>) {
        if ctx.is_smart_contract(to) {
            if !self.whitelisted_contracts.contains(&to) {
                if amount == 0 {
                    assert(old(acts)@ + seq![] =~= acts@);
                    return Ok(());
                }
                let current = self.claimable_amount.get(&(to, token, nonce));
                let total = match current.checked_add(amount) {
                    Some(t) => t,
                    None => {
                        return Err(MarketError::Overflow);
                    },
                };
                self.claimable_tokens.insert(to, token);
                self.claimable_token_nonces.insert((to, token), nonce);
                self.claimable_amount.set((to, token, nonce), total);
                assert(old(acts)@ + seq![] =~= acts@);
                return Ok(());
            }
        }
        if amount > 0 {
            acts.push(Action::Transfer { to, token, nonce, amount });
        }
        assert(acts@ =~= old(acts)@ + (if amount > 0 {
            seq![transfer(to, token, nonce, amount)]
        } else {
            seq![]
        }));
        Ok(())
    }

    fn get_nft_info(&self, ctx: &ChainContext, nft_type: TokenId, nft_nonce: u64) -> (r: Result<
        NftData,
        MarketError,
    >) {
        let data = ctx.esdt_token_data(nft_type, nft_nonce);
        if nft_type == ctx.ins_collection {
            match data.attributes_creator {
                Some(c) => Ok(NftData { creator: c, ..data }),
                None => Err(MarketError::AttributesDecodeFailed),
            }
        } else {
            Ok(data)
        }
    }

    fn try_get_auction(&self, auction_id: u64) -> (r: Result<Auction, MarketError>) {
        match self.auction_by_id.get(&auction_id) {
            Some(a) => Ok(*a),
            None => Err(MarketError::AuctionNotFound),
        }
    }

    fn try_get_global_offer(&self, offer_id: u64) -> (r: Result<GlobalOffer, MarketError>) {
        match self.global_offer.get(&offer_id) {
            Some(o) => Ok(*o),
            None => Err(MarketError::GlobalOfferNotFound),
        }
    }

    fn try_get_offer(&self, offer_id: u64) -> (r: Result<Offer, MarketError>) {
        match self.offer_by_id.get(&offer_id) {
            Some(o) => Ok(*o),
            None => Err(MarketError::OfferNotFound),
        }
    }

    fn try_set_bid_cut_percentage(&mut self, new_cut_percentage: u64) -> (r: Result<
        (),
        MarketError,
    >) {
        if !(new_cut_percentage > 0 && new_cut_percentage < PERCENTAGE_TOTAL) {
            return Err(MarketError::InvalidPercentage);
        }
        self.bid_cut_percentage = new_cut_percentage as u128;
        Ok(())
    }

    fn calculate_cut_amount(&self, total_amount: u128, cut_percentage: u128) -> (r: u128) {
        let q = total_amount / 10_000;
        let rem = total_amount % 10_000;
        let a = cut_percentage / 10_000;
        let b = cut_percentage % 10_000;
        proof {
            let t = total_amount as int;
            let c = cut_percentage as int;
            let x = q * c + rem * a;
            assert(t == 10000 * q + rem);
            assert(c == 10000 * a + b);
            assert(t * c == 10000 * x + rem * b) by (nonlinear_arith)
                requires
                    t == 10000 * q + rem,
                    c == 10000 * a + b,
                    x == q * c + rem * a,
            ;
            assert(0 <= rem * b < 100_000_000) by (nonlinear_arith)
                requires
                    0 <= b < 10000,
                    0 <= rem < 10000,
            ;
            assert((10000 * x + rem * b) / 10000 == x + (rem * b) / 10000) by (nonlinear_arith)
                requires
                    0 <= rem * b,
            ;
            assert(0 <= q * c && 0 <= rem * a) by (nonlinear_arith)
                requires
                    q >= 0,
                    c >= 0,
                    rem >= 0,
                    a >= 0,
            ;
        }
        q * cut_percentage + rem * a + (rem * b) / 10_000
    }

    fn get_collection_config(&self, collection: TokenId) -> (r: Option<CollectionFeeConfig>) {
        match self.collection_config.get(&collection) {
            Some(c) => Some(*c),
            None => None,
        }
    }

    fn calculate_amount_split(
        &self,
        price: u128,
        royalties: u128,
        config: Option<CollectionFeeConfig>,
    ) -> (r: Result<FeesDistribution, MarketError>) {
        let fees = self.bid_cut_percentage;
        let mut eligible_royalties = royalties;
        let mut reverse_royalties = false;
        let mut reverse_cut_fees = false;
        let mut extra_fee: u128 = 0;
        let mut extra_address: Address = ZERO_ADDRESS;
        match config {
            Some(c) => {
                extra_fee = c.extra_fees.amount;
                extra_address = c.extra_fees.address;
                reverse_royalties = c.reverse_royalties;
                reverse_cut_fees = c.reverse_cut_fees;
                if c.custom_royalties {
                    if c.max_royalties < eligible_royalties {
                        eligible_royalties = c.max_royalties;
                    } else if c.min_royalties > eligible_royalties {
                        eligible_royalties = c.min_royalties;
                    }
                }
            },
            None => {},
        }
        let total_fees: u128 = if fees < 10_000 && eligible_royalties < 10_000 && extra_fee
            < 10_000 {
            fees + eligible_royalties + extra_fee
        } else {
            10_000
        };
        if total_fees >= 10_000 {
            return Err(MarketError::FeesExceed100);
        }
        proof {
            lemma_cut_amount_bounds(price, eligible_royalties);
            lemma_cut_amount_bounds(price, fees);
            lemma_cut_amount_bounds(price, extra_fee);
        }
        let creator_royalties = self.calculate_cut_amount(price, eligible_royalties);
        let marketplace_fees = self.calculate_cut_amount(price, fees);
        proof {
            let p = price as int;
            assert(p * eligible_royalties + p * fees <= p * 10000) by (nonlinear_arith)
                requires
                    eligible_royalties + fees <= 10000,
                    p >= 0,
            ;
            assert((p * eligible_royalties) / 10000 + (p * fees) / 10000 <= (p
                * eligible_royalties + p * fees) / 10000) by (nonlinear_arith)
                requires
                    p * eligible_royalties >= 0,
                    p * fees >= 0,
            ;
            assert((p * eligible_royalties + p * fees) / 10000 <= p) by (nonlinear_arith)
                requires
                    p * eligible_royalties + p * fees <= p * 10000,
                    p >= 0,
            ;
        }
        let mut seller_amount_to_send = price - creator_royalties - marketplace_fees;
        let mut extra_amount: u128 = 0;
        if extra_fee > 0 && extra_address != ZERO_ADDRESS {
            extra_amount = self.calculate_cut_amount(price, extra_fee);
            proof {
                let p = price as int;
                assert(p * eligible_royalties + p * fees + p * extra_fee <= p * 10000)
                    by (nonlinear_arith)
                    requires
                        eligible_royalties + fees + extra_fee <= 10000,
                        p >= 0,
                ;
                assert((p * eligible_royalties) / 10000 + (p * fees) / 10000 + (p * extra_fee)
                    / 10000 <= (p * eligible_royalties + p * fees + p * extra_fee) / 10000)
                    by (nonlinear_arith)
                    requires
                        p * eligible_royalties >= 0,
                        p * fees >= 0,
                        p * extra_fee >= 0,
                ;
                assert((p * eligible_royalties + p * fees + p * extra_fee) / 10000 <= p)
                    by (nonlinear_arith)
                    requires
                        p * eligible_royalties + p * fees + p * extra_fee <= p * 10000,
                        p >= 0,
                ;
            }
            seller_amount_to_send = seller_amount_to_send - extra_amount;
        }
        Ok(
            FeesDistribution {
                creator: creator_royalties,
                marketplace: marketplace_fees,
                extra: extra_amount,
                seller: seller_amount_to_send,
                extra_address,
                reverse_royalties,
                reverse_cut_fee: reverse_cut_fees,
            },
        )
    }

    fn decimal_to_ascii(&self, number: u32) -> (r: Vec<u8>) {
        let mut number = number;
        let ghost orig = number as nat;
        let mut digits: Vec<u8> = Vec::new();
        assert(decimal_digits(orig) =~= decimal_digits(number as nat) + digits@);
        while number >= 10
            invariant
                decimal_digits(orig) == decimal_digits(number as nat) + digits@,
            decreases number,
        {
            let reminder = (number % 10) as u8;
            let ghost before = number as nat;
            let ghost prev_digits = digits@;
            number = number / 10;
            digits.insert(0, 48 + reminder);
            assert(decimal_digits(before) == decimal_digits(number as nat).push(
                (48 + before % 10) as u8,
            ));
            assert(decimal_digits(number as nat).push((48 + before % 10) as u8) + prev_digits
                =~= decimal_digits(number as nat) + digits@);
        }
        let ghost prev_digits = digits@;
        digits.insert(0, 48 + number as u8);
        assert(decimal_digits(number as nat) + prev_digits =~= digits@);
        digits
    }

    fn require_admin(&self, ctx: &ChainContext, extra_admin: Option<Address>) -> (r: Result<
        (),
        MarketError,
    >) {
        let ok = match extra_admin {
            Some(a) => ctx.caller == ctx.owner || ctx.caller == self.signer || ctx.caller == a,
            None => ctx.caller == ctx.owner || ctx.caller == self.signer,
        };
        if ok {
            Ok(())
        } else {
            Err(MarketError::NotAdmin)
        }
    }

    fn require_enabled(&self) -> (r: Result<(), MarketError>) {
        if self.status {
            Ok(())
        } else {
            Err(MarketError::Disabled)
        }
    }
}

} // verus!
