//! Offers: for one NFT, or for any NFTs of a collection (global offers).
use vstd::prelude::*;

use crate::auction::{
    Address, AuctionType, BufferId, EsdtPayment, GlobalOffer, Offer, OfferStatus, Payment,
    PaymentToken, TokenId, NFT_AMOUNT, ZERO_ADDRESS,
};
use crate::collections::{seq_with, set_at, with_set};
use crate::common::{
    endpoint_matches, prefixed, spec_common_global_offer_remove,
    spec_common_offer_auction_check, spec_common_offer_remove, spec_common_withdraw_offer,
    spec_distribute_tokens_common, spec_remove_auction_common, spec_update_or_remove_items_quantity,
    step_matches, CommonModule, Settlement,
};
use crate::errors::MarketError;
use crate::events::{transfer, Action, Event, EventsModule, SignaturePart};
use crate::helpers::{decimal_digits, spec_amount_split, spec_collection_config, spec_nft_info, HelpersModule, Step};
use crate::pools::{spec_deposit, spec_has_balance, spec_has_balance_and_deduct, PoolsModule};
use crate::storage::{
    empty_nft_data, token_name, valid_token_identifier, ChainContext, Marketplace, NftData, StorageModule, Store,
};
use crate::wrapping::WrappingModule;

verus! {

/// The outcome of a call that also answers with an id.
pub type IdStep = Result<(Store, Seq<Action>, u64), MarketError>;

/// The result of an endpoint that answers with an id matches `spec`.
pub open spec fn id_matches(spec: IdStep, r: Result<(Vec<Action>, u64), MarketError>, final_store: Store) -> bool {
    match spec {
        Ok((s, a, id)) => r is Ok && r->Ok_0.0@ == a && r->Ok_0.1 == id && final_store == s,
        Err(e) => r == Err::<(Vec<Action>, u64), MarketError>(e),
    }
}

/// The checks on the token sent with an offer's acceptance or refusal when no
/// listing is named: it must be exactly the offered token and quantity.
pub open spec fn offer_token_checks(offer: Offer, payment: Payment) -> Result<(), MarketError> {
    if payment.amount != offer.quantity {
        Err(MarketError::QuantityNotMatchingOffer)
    } else if payment.nonce != offer.token_nonce {
        Err(MarketError::NonceNotMatchingOffer)
    } else if payment.token != PaymentToken::Esdt(offer.token_type) {
        Err(MarketError::TokenNotMatchingOffer)
    } else {
        Ok(())
    }
}

/// Takes down the listing `auction_id` of `seller` for which an offer is accepted.
pub open spec fn spec_take_offer_listing(s: Store, seller: Address, offer: Offer, auction_id: u64) -> Result<
    Store,
    MarketError,
> {
    if !s.auction_by_id.contains_key(auction_id) {
        Err(MarketError::AuctionNotFound)
    } else {
        let auction = s.auction_by_id[auction_id];
        match spec_common_offer_auction_check(offer, auction) {
            Err(e) => Err(e),
            Ok(_) => if seller != auction.original_owner {
                Err(MarketError::NotListedNftOwner)
            } else {
                match spec_update_or_remove_items_quantity(s, auction, auction.nr_auctioned_tokens) {
                    Err(e) => Err(e),
                    Ok(s1) => Ok(spec_remove_auction_common(s1, auction_id, auction)),
                }
            },
        }
    }
}

/// Settles an accepted offer: it is forgotten and logged, the price is shared
/// between the creator, the marketplace and the seller, and the NFT goes to
/// the author of the offer.
pub open spec fn spec_settle_offer(
    s: Store,
    ctx: ChainContext,
    offer_id: u64,
    offer: Offer,
    seller: Address,
    auction_removed: u64,
) -> Step {
    match spec_nft_info(ctx, offer.token_type, offer.token_nonce) {
        Err(e) => Err(e),
        Ok(info) => {
            let s1 = spec_common_offer_remove(s, offer_id, offer);
            match spec_amount_split(
                s1.bid_cut_percentage,
                offer.price,
                info.royalties,
                spec_collection_config(s1, offer.token_type),
            ) {
                Err(e) => Err(e),
                Ok(d) => prefixed(
                    seq![Action::Event(Event::AcceptOffer { offer_id, offer, seller, auction_removed })],
                    spec_distribute_tokens_common(
                        s1,
                        ctx,
                        seq![EsdtPayment { token: offer.token_type, nonce: offer.token_nonce, amount: offer.quantity }],
                        Settlement {
                            payment_token: offer.payment_token_type,
                            payment_nonce: offer.payment_token_nonce,
                            creator: info.creator,
                            original_owner: seller,
                            new_owner: offer.offer_owner,
                            split: d,
                        },
                        false,
                    ),
                ),
            }
        },
    }
}

/// `acceptOffer`: the caller sells the NFT of an offer, either sent with the
/// call or taken from the caller's listing `auction_id`; an offer paid from a
/// deposit is paid now.
pub open spec fn spec_accept_offer(
    s: Store,
    ctx: ChainContext,
    offer_id: u64,
    auction_id: Option<u64>,
    payment: Payment,
) -> Step {
    if !s.status {
        Err(MarketError::Disabled)
    } else if !s.offer_by_id.contains_key(offer_id) {
        Err(MarketError::OfferNotFound)
    } else {
        let offer = s.offer_by_id[offer_id];
        let seller = ctx.caller;
        if ctx.timestamp > offer.deadline {
            Err(MarketError::OfferExpired)
        } else if offer.offer_owner == seller {
            Err(MarketError::OwnOffer)
        } else {
            let paid = if offer.new_version {
                spec_has_balance_and_deduct(
                    s,
                    offer.offer_owner,
                    offer.payment_token_type,
                    offer.payment_token_nonce,
                    offer.price,
                )
            } else {
                Ok((s, seq![]))
            };
            match paid {
                Err(e) => Err(e),
                Ok((s1, t1)) => {
                    let taken = match auction_id {
                        None => match offer_token_checks(offer, payment) {
                            Err(e) => Err(e),
                            Ok(_) => Ok(s1),
                        },
                        Some(id) => spec_take_offer_listing(s1, seller, offer, id),
                    };
                    match taken {
                        Err(e) => Err(e),
                        Ok(s2) => prefixed(
                            t1,
                            spec_settle_offer(
                                s2,
                                ctx,
                                offer_id,
                                Offer { status: OfferStatus::Accepted, ..offer },
                                seller,
                                match auction_id {
                                    Some(id) => id,
                                    None => 0,
                                },
                            ),
                        ),
                    }
                },
            }
        }
    }
}

/// The checks before an offer is declined; the NFT sent to prove ownership
/// goes back.
pub open spec fn spec_decline_checks(
    s: Store,
    ctx: ChainContext,
    offer: Offer,
    auction_id: Option<u64>,
    payment: Payment,
) -> Result<Seq<Action>, MarketError> {
    let ids = set_at(s.token_auction_ids, (offer.token_type, offer.token_nonce));
    if ids.len() == 0 {
        match offer_token_checks(offer, payment) {
            Err(e) => Err(e),
            Ok(_) => Ok(seq![transfer(ctx.caller, payment.token, payment.nonce, payment.amount)]),
        }
    } else if ids.len() != 1 {
        Err(MarketError::CannotDeclineSft)
    } else if !(payment.token.is_egld() && payment.amount == 0) {
        Err(MarketError::DeclineNeedsZeroEgld)
    } else {
        match auction_id {
            None => Err(MarketError::MissingArgument),
            Some(id) => if !s.auction_by_id.contains_key(id) {
                Err(MarketError::AuctionNotFound)
            } else if ctx.caller != s.auction_by_id[id].original_owner {
                Err(MarketError::NotNftOwner)
            } else {
                match spec_common_offer_auction_check(offer, s.auction_by_id[id]) {
                    Err(e) => Err(e),
                    Ok(_) => Ok(seq![]),
                }
            },
        }
    }
}

/// `declineOffer`: the owner of the NFT refuses an offer, which is withdrawn.
pub open spec fn spec_decline_offer(
    s: Store,
    ctx: ChainContext,
    offer_id: u64,
    auction_id: Option<u64>,
    payment: Payment,
) -> Step {
    if !s.status {
        Err(MarketError::Disabled)
    } else if !s.offer_by_id.contains_key(offer_id) {
        Err(MarketError::OfferNotFound)
    } else {
        let offer = s.offer_by_id[offer_id];
        match spec_decline_checks(s, ctx, offer, auction_id, payment) {
            Err(e) => Err(e),
            Ok(t) => {
                let (s1, t1) = spec_common_withdraw_offer(s, offer_id, offer);
                Ok((s1, t + t1))
            },
        }
    }
}

/// `withdrawOffer`: the author of an offer takes it back.
pub open spec fn spec_withdraw_offer(s: Store, ctx: ChainContext, offer_id: u64) -> Step {
    if !s.status {
        Err(MarketError::Disabled)
    } else if !s.offer_by_id.contains_key(offer_id) {
        Err(MarketError::OfferNotFound)
    } else {
        let offer = s.offer_by_id[offer_id];
        if offer.offer_owner != ctx.caller {
            Err(MarketError::NotOfferOwner)
        } else {
            let (s1, t1) = spec_common_withdraw_offer(s, offer_id, offer);
            Ok((s1, t1))
        }
    }
}

/// The offer recorded by `sendOffer`.
pub open spec fn new_offer(
    s: Store,
    ctx: ChainContext,
    payment_token: PaymentToken,
    payment_token_nonce: u64,
    payment_amount: u128,
    nft_type: TokenId,
    nft_nonce: u64,
    nft_amount: u128,
    deadline: u64,
) -> Offer {
    Offer {
        token_type: nft_type,
        token_nonce: nft_nonce,
        quantity: nft_amount,
        status: OfferStatus::Pending,
        payment_token_type: payment_token,
        payment_token_nonce,
        price: payment_amount,
        deadline,
        timestamp: ctx.timestamp,
        offer_owner: ctx.caller,
        marketplace_cut_percentage: s.bid_cut_percentage,
        new_version: true,
    }
}

/// `sendOffer`: the caller offers `payment_amount` EGLD, paid from their
/// deposit (topped up with the EGLD sent), for one unit of an NFT; the offer
/// gets the next offer id.
pub open spec fn spec_send_offer(
    s: Store,
    ctx: ChainContext,
    payment: Payment,
    payment_token: PaymentToken,
    payment_token_nonce: u64,
    payment_amount: u128,
    nft_type: TokenId,
    nft_nonce: u64,
    nft_amount: u128,
    deadline: u64,
) -> IdStep {
    let caller = ctx.caller;
    if !payment.token.is_egld() {
        Err(MarketError::EsdtNotAccepted)
    } else if !s.status {
        Err(MarketError::Disabled)
    } else if !s.accepted_tokens.contains(payment_token) {
        Err(MarketError::PaymentTokenNotWhitelisted)
    } else if !payment_token.is_egld() {
        Err(MarketError::PaymentNotEgld)
    } else if payment_token_nonce != 0 {
        Err(MarketError::PaymentNonceNotZero)
    } else if nft_nonce == 0 {
        Err(MarketError::FungibleCannotHaveOffers)
    } else if nft_amount != NFT_AMOUNT {
        Err(MarketError::QuantityMustBeOne)
    } else {
        match spec_deposit(s, ctx, payment) {
            Err(e) => Err(e),
            Ok((s1, t1)) => match spec_has_balance(s1, caller, payment_token, payment_token_nonce, payment_amount) {
                Err(e) => Err(e),
                Ok(_) => {
                    let sent_key = (caller, nft_type, nft_nonce, payment_token);
                    if s1.blacklist_wallets.contains(caller) {
                        Err(MarketError::Blacklisted)
                    } else if s1.check_offer_sent.contains(sent_key) {
                        Err(MarketError::OfferAlreadySent)
                    } else if !valid_token_identifier(token_name(ctx, nft_type)) {
                        Err(MarketError::InvalidNftToken)
                    } else if deadline <= ctx.timestamp {
                        Err(MarketError::DeadlineInPast)
                    } else if s1.last_valid_offer_id == u64::MAX {
                        Err(MarketError::Overflow)
                    } else {
                        let id = (s1.last_valid_offer_id + 1) as u64;
                        let offer = new_offer(
                            s1,
                            ctx,
                            payment_token,
                            payment_token_nonce,
                            payment_amount,
                            nft_type,
                            nft_nonce,
                            nft_amount,
                            deadline,
                        );
                        let key = (nft_type, nft_nonce);
                        Ok((
                            Store {
                                last_valid_offer_id: id,
                                offer_by_id: s1.offer_by_id.insert(id, offer),
                                token_offers_ids: with_set(
                                    s1.token_offers_ids,
                                    key,
                                    seq_with(set_at(s1.token_offers_ids, key), id),
                                ),
                                offers: seq_with(s1.offers, id),
                                offers_by_wallet: with_set(
                                    s1.offers_by_wallet,
                                    caller,
                                    seq_with(set_at(s1.offers_by_wallet, caller), id),
                                ),
                                check_offer_sent: seq_with(s1.check_offer_sent, sent_key),
                                ..s1
                            },
                            t1.push(Action::Event(Event::OfferToken { offer_id: id, offer })),
                            id,
                        ))
                    }
                },
            },
        }
    }
}

/// `sendGlobalOffer`: the caller offers `price` per NFT of `collection`, up
/// to `quantity` NFTs, paid from their deposit (topped up with the EGLD sent);
/// the offer gets the next global offer id.
pub open spec fn spec_send_global_offer(
    s: Store,
    ctx: ChainContext,
    payment: Payment,
    payment_token: PaymentToken,
    payment_nonce: u64,
    price: u128,
    collection: TokenId,
    quantity: u128,
    attributes: Option<BufferId>,
) -> IdStep {
    let caller = ctx.caller;
    if !payment.token.is_egld() {
        Err(MarketError::EsdtNotAccepted)
    } else if !s.status {
        Err(MarketError::Disabled)
    } else {
        match spec_deposit(s, ctx, payment) {
            Err(e) => Err(e),
            Ok((s1, t1)) => match spec_has_balance(s1, caller, payment_token, payment_nonce, price) {
                Err(e) => Err(e),
                Ok(_) => {
                    let uc = (caller, collection);
                    if set_at(s1.user_global_offers, caller).len() > 250 {
                        Err(MarketError::TooManyGlobalOffers)
                    } else if s1.blacklist_wallets.contains(caller) {
                        Err(MarketError::Blacklisted)
                    } else if set_at(s1.user_collection_global_offers, uc).len() > 25 {
                        Err(MarketError::TooManyCollectionOffers)
                    } else if s1.last_valid_global_offer_id == u64::MAX {
                        Err(MarketError::Overflow)
                    } else {
                        let id = (s1.last_valid_global_offer_id + 1) as u64;
                        let offer = GlobalOffer {
                            offer_id: id,
                            collection,
                            quantity,
                            payment_token,
                            payment_nonce,
                            price,
                            timestamp: ctx.timestamp,
                            owner: caller,
                            attributes,
                            new_version: true,
                        };
                        Ok((
                            Store {
                                last_valid_global_offer_id: id,
                                collection_global_offers: with_set(
                                    s1.collection_global_offers,
                                    collection,
                                    seq_with(set_at(s1.collection_global_offers, collection), id),
                                ),
                                user_global_offers: with_set(
                                    s1.user_global_offers,
                                    caller,
                                    seq_with(set_at(s1.user_global_offers, caller), id),
                                ),
                                user_collection_global_offers: with_set(
                                    s1.user_collection_global_offers,
                                    uc,
                                    seq_with(set_at(s1.user_collection_global_offers, uc), id),
                                ),
                                global_offer_ids: seq_with(s1.global_offer_ids, id),
                                global_offer: s1.global_offer.insert(id, offer),
                                ..s1
                            },
                            t1.push(Action::Event(Event::SendGlobalOffer { offer })),
                            id,
                        ))
                    }
                },
            },
        }
    }
}

/// `withdrawGlobalOffer`: the author of a global offer takes it back.
pub open spec fn spec_withdraw_global_offer(s: Store, ctx: ChainContext, offer_id: u64) -> Step {
    if !s.status {
        Err(MarketError::Disabled)
    } else if !s.global_offer.contains_key(offer_id) {
        Err(MarketError::GlobalOfferNotFound)
    } else if s.global_offer[offer_id].owner != ctx.caller {
        Err(MarketError::NotGlobalOfferOwner)
    } else {
        spec_common_global_offer_remove(s, ctx, s.global_offer[offer_id], true)
    }
}

/// What the acceptance of a global offer gathers from the NFTs it takes: the
/// ASCII nonces for the signed message, the NFTs, the token data that fixes
/// the royalties, and the number of NFTs.
pub type Gathered = (Seq<u8>, Seq<EsdtPayment>, NftData, u128);

/// The token data that fixes the royalties: the first one read that names a creator.
pub open spec fn first_info(ctx: ChainContext, collection: TokenId, nonce: u64, info: NftData) -> Result<
    NftData,
    MarketError,
> {
    if info.creator == ZERO_ADDRESS {
        spec_nft_info(ctx, collection, nonce)
    } else {
        Ok(info)
    }
}

/// The nonces of the signed message, with `nonce` added when the offer asks
/// for a signature.
pub open spec fn signed_nonce(offer: GlobalOffer, nonces: Seq<u8>, nonce: u64) -> Result<Seq<u8>, MarketError> {
    if offer.attributes is Some {
        if nonce > u32::MAX {
            Err(MarketError::Overflow)
        } else {
            Ok(nonces + decimal_digits(nonce as nat))
        }
    } else {
        Ok(nonces)
    }
}

/// One NFT sent with the acceptance of a global offer.
pub open spec fn gather_sent(ctx: ChainContext, offer: GlobalOffer, g: Gathered, nft: EsdtPayment) -> Result<
    Gathered,
    MarketError,
> {
    if nft.token != offer.collection {
        Err(MarketError::CollectionNotMatchingOffer)
    } else if g.3 + nft.amount > u128::MAX {
        Err(MarketError::Overflow)
    } else {
        match first_info(ctx, offer.collection, nft.nonce, g.2) {
            Err(e) => Err(e),
            Ok(info) => match signed_nonce(offer, g.0, nft.nonce) {
                Err(e) => Err(e),
                Ok(n) => Ok((n, g.1.push(nft), info, (g.3 + nft.amount) as u128)),
            },
        }
    }
}

pub open spec fn gather_sent_from(ctx: ChainContext, offer: GlobalOffer, nfts: Seq<EsdtPayment>, i: int, g: Gathered) -> Result<
    Gathered,
    MarketError,
>
    decreases nfts.len() - i,
{
    if i >= nfts.len() || i < 0 {
        Ok(g)
    } else {
        match gather_sent(ctx, offer, g, nfts[i]) {
            Err(e) => Err(e),
            Ok(g1) => gather_sent_from(ctx, offer, nfts, i + 1, g1),
        }
    }
}

/// One listing of the seller taken down to fill a global offer: it must be a
/// fixed-price listing of one NFT of the collection.
pub open spec fn gather_listed(
    s: Store,
    ctx: ChainContext,
    offer: GlobalOffer,
    seller: Address,
    g: Gathered,
    auction_id: u64,
) -> Result<(Store, Gathered), MarketError> {
    if !s.auction_by_id.contains_key(auction_id) {
        Err(MarketError::AuctionNotFound)
    } else {
        let a = s.auction_by_id[auction_id];
        if a.auction_type != AuctionType::Nft {
            Err(MarketError::OfferOnlyForFixedPrice)
        } else if offer.owner == a.original_owner {
            Err(MarketError::OwnOffer)
        } else if seller != a.original_owner {
            Err(MarketError::NotListedNftOwner)
        } else if a.nr_auctioned_tokens != 1 {
            Err(MarketError::ListedQuantityNotMatchingOffer)
        } else if a.auctioned_token_type != offer.collection {
            Err(MarketError::ListedTokenNotMatchingOffer)
        } else {
            match first_info(ctx, offer.collection, a.auctioned_token_nonce, g.2) {
                Err(e) => Err(e),
                Ok(info) => match signed_nonce(offer, g.0, a.auctioned_token_nonce) {
                    Err(e) => Err(e),
                    Ok(n) => match spec_update_or_remove_items_quantity(s, a, a.nr_auctioned_tokens) {
                        Err(e) => Err(e),
                        Ok(s1) => if g.3 + a.nr_auctioned_tokens > u128::MAX {
                            Err(MarketError::Overflow)
                        } else {
                            Ok((
                                spec_remove_auction_common(s1, auction_id, a),
                                (
                                    n,
                                    g.1.push(
                                        EsdtPayment {
                                            token: a.auctioned_token_type,
                                            nonce: a.auctioned_token_nonce,
                                            amount: a.nr_auctioned_tokens,
                                        },
                                    ),
                                    info,
                                    (g.3 + a.nr_auctioned_tokens) as u128,
                                ),
                            ))
                        },
                    },
                },
            }
        }
    }
}

pub open spec fn gather_listed_from(
    s: Store,
    ctx: ChainContext,
    offer: GlobalOffer,
    seller: Address,
    ids: Seq<u64>,
    i: int,
    g: Gathered,
) -> Result<(Store, Gathered), MarketError>
    decreases ids.len() - i,
{
    if i >= ids.len() || i < 0 {
        Ok((s, g))
    } else {
        match gather_listed(s, ctx, offer, seller, g, ids[i]) {
            Err(e) => Err(e),
            Ok((s1, g1)) => gather_listed_from(s1, ctx, offer, seller, ids, i + 1, g1),
        }
    }
}

/// The bytes of a signed message, as actions.
pub open spec fn byte_parts(b: Seq<u8>) -> Seq<Action> {
    b.map_values(|x: u8| Action::SignedData(SignaturePart::Byte(x)))
}

/// The signature check of an offer with attributes: the signer must have
/// signed the seller, the collection, the nonces taken, the offer id and the
/// attributes.
pub open spec fn spec_signature_check(
    offer: GlobalOffer,
    seller: Address,
    signer: Address,
    signature: Option<BufferId>,
    nonces: Seq<u8>,
) -> Result<Seq<Action>, MarketError> {
    match offer.attributes {
        None => Ok(seq![]),
        Some(attributes) => match signature {
            None => Err(MarketError::SignatureRequired),
            Some(sig) => if offer.offer_id > u32::MAX {
                Err(MarketError::Overflow)
            } else {
                Ok(
                    seq![
                        Action::VerifySignature { signer, signature: sig },
                        Action::SignedData(SignaturePart::Address(seller)),
                        Action::SignedData(SignaturePart::Token(offer.collection)),
                    ] + byte_parts(nonces + decimal_digits(offer.offer_id as nat)) + seq![
                        Action::SignedData(SignaturePart::Buffer(attributes)),
                    ],
                )
            },
        },
    }
}

/// The end of the acceptance of a global offer: the offer must cover the
/// NFTs gathered; it is paid (from the deposit when it was not paid upfront),
/// its signature checked, it is forgotten and logged, the price is shared and
/// the NFTs go to its author; what is left of its quantity stays on record.
pub open spec fn spec_finish_global_offer(
    s: Store,
    ctx: ChainContext,
    offer_id: u64,
    offer: GlobalOffer,
    seller: Address,
    signature: Option<BufferId>,
    g: Gathered,
) -> Step {
    let total = g.3;
    if offer.quantity < total {
        Err(MarketError::OfferQuantityExceeded)
    } else if offer.price * total > u128::MAX {
        Err(MarketError::Overflow)
    } else {
        let cost = (offer.price * total) as u128;
        let paid = if offer.new_version {
            spec_has_balance_and_deduct(s, offer.owner, offer.payment_token, offer.payment_nonce, cost)
        } else {
            Ok((s, seq![]))
        };
        match paid {
            Err(e) => Err(e),
            Ok((s1, t1)) => match spec_signature_check(offer, seller, s1.signer, signature, g.0) {
                Err(e) => Err(e),
                Ok(t2) => match spec_common_global_offer_remove(s1, ctx, offer, false) {
                    Err(e) => Err(e),
                    Ok((s2, t3)) => match spec_amount_split(
                        s2.bid_cut_percentage,
                        cost,
                        g.2.royalties,
                        spec_collection_config(s2, offer.collection),
                    ) {
                        Err(e) => Err(e),
                        Ok(d) => match spec_distribute_tokens_common(
                            s2,
                            ctx,
                            g.1,
                            Settlement {
                                payment_token: offer.payment_token,
                                payment_nonce: offer.payment_nonce,
                                creator: g.2.creator,
                                original_owner: seller,
                                new_owner: offer.owner,
                                split: d,
                            },
                            false,
                        ) {
                            Err(e) => Err(e),
                            Ok((s3, t4)) => Ok((
                                if offer.quantity != total {
                                    Store {
                                        global_offer: s3.global_offer.insert(
                                            offer_id,
                                            GlobalOffer { quantity: (offer.quantity - total) as u128, ..offer },
                                        ),
                                        ..s3
                                    }
                                } else {
                                    s3
                                },
                                t1 + t2 + t3 + seq![Action::Event(Event::AcceptGlobalOffer { offer, seller, quantity: total })]
                                    + t4,
                            )),
                        },
                    },
                },
            },
        }
    }
}

/// `acceptGlobalOffer`: the caller fills a global offer with the NFTs sent
/// and with NFTs of their fixed-price listings `auction_ids`.
pub open spec fn spec_accept_global_offer(
    s: Store,
    ctx: ChainContext,
    offer_id: u64,
    auction_ids: Option<Seq<u64>>,
    signature: Option<BufferId>,
    nfts: Seq<EsdtPayment>,
) -> Step {
    if !s.status {
        Err(MarketError::Disabled)
    } else if !s.global_offer.contains_key(offer_id) {
        Err(MarketError::OfferAlreadyRemoved)
    } else {
        let offer = s.global_offer[offer_id];
        let ids = match auction_ids {
            Some(v) => v,
            None => seq![],
        };
        let g0: Gathered = (seq![], seq![], empty_nft_data(offer.collection, 0), 0);
        match gather_sent_from(ctx, offer, nfts, 0, g0) {
            Err(e) => Err(e),
            Ok(g1) => match gather_listed_from(s, ctx, offer, ctx.caller, ids, 0, g1) {
                Err(e) => Err(e),
                Ok((s1, g2)) => spec_finish_global_offer(s1, ctx, offer_id, offer, ctx.caller, signature, g2),
            },
        }
    }
}

/// Offers on NFTs.
pub trait CustomOffersModule: StorageModule + HelpersModule + EventsModule + CommonModule + WrappingModule + PoolsModule {
    /// Accepts an offer (see `spec_accept_offer`).
    fn accept_offer(&mut self, ctx: &ChainContext, offer_id: u64, auction_id: Option<u64>, payment: Payment) -> (r:
        Result<Vec<Action>, MarketError>)
        requires
            old(self).inv(),
        ensures
            final(self).inv(),
            endpoint_matches(spec_accept_offer(old(self).store(), *ctx, offer_id, auction_id, payment), r, final(self).store()),
            r is Err ==> final(self).store() == old(self).store(),
    ;

    /// Declines an offer (see `spec_decline_offer`).
    fn decline_offer(&mut self, ctx: &ChainContext, offer_id: u64, auction_id: Option<u64>, payment: Payment) -> (r:
        Result<Vec<Action>, MarketError>)
        requires
            old(self).inv(),
        ensures
            final(self).inv(),
            endpoint_matches(spec_decline_offer(old(self).store(), *ctx, offer_id, auction_id, payment), r, final(self).store()),
            r is Err ==> final(self).store() == old(self).store(),
    ;

    /// Withdraws an offer (see `spec_withdraw_offer`).
    fn withdraw_offer(&mut self, ctx: &ChainContext, offer_id: u64) -> (r: Result<Vec<Action>, MarketError>)
        requires
            old(self).inv(),
        ensures
            final(self).inv(),
            endpoint_matches(spec_withdraw_offer(old(self).store(), *ctx, offer_id), r, final(self).store()),
            r is Err ==> final(self).store() == old(self).store(),
    ;

    /// Sends an offer (see `spec_send_offer`); answers with its id.
    fn send_offer(
        &mut self,
        ctx: &ChainContext,
        payment: Payment,
        payment_token: PaymentToken,
        payment_token_nonce: u64,
        payment_amount: u128,
        nft_type: TokenId,
        nft_nonce: u64,
        nft_amount: u128,
        deadline: u64,
    ) -> (r: Result<(Vec<Action>, u64), MarketError>)
        requires
            old(self).inv(),
        ensures
            final(self).inv(),
            id_matches(
                spec_send_offer(
                    old(self).store(),
                    *ctx,
                    payment,
                    payment_token,
                    payment_token_nonce,
                    payment_amount,
                    nft_type,
                    nft_nonce,
                    nft_amount,
                    deadline,
                ),
                r,
                final(self).store(),
            ),
            r is Err ==> final(self).store() == old(self).store(),
    ;

    /// Sends a global offer (see `spec_send_global_offer`); answers with its id.
    fn send_global_offer(
        &mut self,
        ctx: &ChainContext,
        payment: Payment,
        payment_token: PaymentToken,
        payment_nonce: u64,
        price: u128,
        collection: TokenId,
        quantity: u128,
        attributes: Option<BufferId>,
    ) -> (r: Result<(Vec<Action>, u64), MarketError>)
        requires
            old(self).inv(),
        ensures
            final(self).inv(),
            id_matches(
                spec_send_global_offer(
                    old(self).store(),
                    *ctx,
                    payment,
                    payment_token,
                    payment_nonce,
                    price,
                    collection,
                    quantity,
                    attributes,
                ),
                r,
                final(self).store(),
            ),
            r is Err ==> final(self).store() == old(self).store(),
    ;

    /// Withdraws a global offer (see `spec_withdraw_global_offer`).
    fn withdraw_global_offer(&mut self, ctx: &ChainContext, offer_id: u64) -> (r: Result<Vec<Action>, MarketError>)
        requires
            old(self).inv(),
        ensures
            final(self).inv(),
            endpoint_matches(spec_withdraw_global_offer(old(self).store(), *ctx, offer_id), r, final(self).store()),
            r is Err ==> final(self).store() == old(self).store(),
    ;
    /// Accepts a global offer (see `spec_accept_global_offer`).
    fn accept_global_offer(
        &mut self,
        ctx: &ChainContext,
        offer_id: u64,
        auction_ids: Option<Vec<u64>>,
        signature: Option<BufferId>,
        nfts: &Vec<EsdtPayment>,
    ) -> (r: Result<Vec<Action>, MarketError>)
        requires
            old(self).inv(),
        ensures
            final(self).inv(),
            endpoint_matches(
                spec_accept_global_offer(
                    old(self).store(),
                    *ctx,
                    offer_id,
                    match auction_ids {
                        Some(v) => Some(v@),
                        None => None,
                    },
                    signature,
                    nfts@,
                ),
                r,
                final(self).store(),
            ),
            r is Err ==> final(self).store() == old(self).store(),
    ;
}


impl Marketplace {
    /// The token data that fixes the royalties (see `first_info`).
    fn first_info_exec(&self, ctx: &ChainContext, collection: TokenId, nonce: u64, info: NftData) -> (r: Result<
        NftData,
        MarketError,
    >)
        ensures
            r == first_info(*ctx, collection, nonce, info),
    {
        if info.creator == ZERO_ADDRESS {
            self.get_nft_info(ctx, collection, nonce)
        } else {
            Ok(info)
        }
    }

    /// Adds `nonce` to the signed nonces (see `signed_nonce`).
    fn signed_nonce_exec(&self, offer: &GlobalOffer, nonces: &mut Vec<u8>, nonce: u64) -> (r: Result<(), MarketError>)
        ensures
            match signed_nonce(*offer, old(nonces)@, nonce) {
                Ok(n) => r is Ok && final(nonces)@ == n,
                Err(e) => r == Err::<(), MarketError>(e),
            },
    {
        if offer.attributes.is_some() {
            if nonce > u32::MAX as u64 {
                return Err(MarketError::Overflow);
            }
            let mut digits = self.decimal_to_ascii(nonce as u32);
            nonces.append(&mut digits);
        }
        Ok(())
    }

    /// One NFT sent with the acceptance of a global offer (see `gather_sent`).
    fn gather_sent_exec(
        &self,
        ctx: &ChainContext,
        offer: &GlobalOffer,
        nft: EsdtPayment,
        nonces: &mut Vec<u8>,
        accepted: &mut Vec<EsdtPayment>,
        info: &mut NftData,
        total: &mut u128,
    ) -> (r: Result<(), MarketError>)
        ensures
            match gather_sent(*ctx, *offer, (old(nonces)@, old(accepted)@, *old(info), *old(total)), nft) {
                Ok(g) => r is Ok && final(nonces)@ == g.0 && final(accepted)@ == g.1 && *final(info) == g.2
                    && *final(total) == g.3,
                Err(e) => r == Err::<(), MarketError>(e),
            },
    {
        if nft.token != offer.collection {
            return Err(MarketError::CollectionNotMatchingOffer);
        }
        let t = match total.checked_add(nft.amount) {
            Some(t) => t,
            None => {
                return Err(MarketError::Overflow);
            },
        };
        let i = self.first_info_exec(ctx, offer.collection, nft.nonce, *info)?;
        self.signed_nonce_exec(offer, nonces, nft.nonce)?;
        accepted.push(nft);
        *info = i;
        *total = t;
        Ok(())
    }

    /// One listing taken down to fill a global offer (see `gather_listed`).
    fn gather_listed_exec(
        &mut self,
        ctx: &ChainContext,
        offer: &GlobalOffer,
        seller: Address,
        auction_id: u64,
        nonces: &mut Vec<u8>,
        accepted: &mut Vec<EsdtPayment>,
        info: &mut NftData,
        total: &mut u128,
    ) -> (r: Result<(), MarketError>)
        requires
            old(self).inv(),
        ensures
            final(self).inv(),
            match gather_listed(
                old(self).store(),
                *ctx,
                *offer,
                seller,
                (old(nonces)@, old(accepted)@, *old(info), *old(total)),
                auction_id,
            ) {
                Ok((s, g)) => r is Ok && final(self).store() == s && final(nonces)@ == g.0 && final(accepted)@ == g.1
                    && *final(info) == g.2 && *final(total) == g.3,
                Err(e) => r == Err::<(), MarketError>(e),
            },
    {
        let a = self.try_get_auction(auction_id)?;
        if a.auction_type != AuctionType::Nft {
            return Err(MarketError::OfferOnlyForFixedPrice);
        }
        if offer.owner == a.original_owner {
            return Err(MarketError::OwnOffer);
        }
        if seller != a.original_owner {
            return Err(MarketError::NotListedNftOwner);
        }
        if a.nr_auctioned_tokens != 1 {
            return Err(MarketError::ListedQuantityNotMatchingOffer);
        }
        if a.auctioned_token_type != offer.collection {
            return Err(MarketError::ListedTokenNotMatchingOffer);
        }
        let i = self.first_info_exec(ctx, offer.collection, a.auctioned_token_nonce, *info)?;
        self.signed_nonce_exec(offer, nonces, a.auctioned_token_nonce)?;
        self.update_or_remove_items_quantity(&a, a.nr_auctioned_tokens)?;
        let t = match total.checked_add(a.nr_auctioned_tokens) {
            Some(t) => t,
            None => {
                return Err(MarketError::Overflow);
            },
        };
        self.remove_auction_common(auction_id, &a);
        accepted.push(EsdtPayment { token: a.auctioned_token_type, nonce: a.auctioned_token_nonce, amount: a.nr_auctioned_tokens });
        *info = i;
        *total = t;
        Ok(())
    }

    /// Every NFT sent with the acceptance of a global offer (see `gather_sent_from`).
    fn gather_sent_all(
        &self,
        ctx: &ChainContext,
        offer: &GlobalOffer,
        nfts: &Vec<EsdtPayment>,
        nonces: &mut Vec<u8>,
        accepted: &mut Vec<EsdtPayment>,
        info: &mut NftData,
        total: &mut u128,
    ) -> (r: Result<(), MarketError>)
        ensures
            match gather_sent_from(*ctx, *offer, nfts@, 0, (old(nonces)@, old(accepted)@, *old(info), *old(total))) {
                Ok(g) => r is Ok && final(nonces)@ == g.0 && final(accepted)@ == g.1 && *final(info) == g.2
                    && *final(total) == g.3,
                Err(e) => r == Err::<(), MarketError>(e),
            },
    {
        let ghost g0: Gathered = (nonces@, accepted@, *info, *total);
        let mut i: usize = 0;
        while i < nfts.len()
            invariant
                i <= nfts@.len(),
                g0 == (old(nonces)@, old(accepted)@, *old(info), *old(total)),
                gather_sent_from(*ctx, *offer, nfts@, i as int, (nonces@, accepted@, *info, *total))
                    == gather_sent_from(*ctx, *offer, nfts@, 0, g0),
            decreases nfts@.len() - i,
        {
            let ghost gi: Gathered = (nonces@, accepted@, *info, *total);
            let r = self.gather_sent_exec(ctx, offer, nfts[i], nonces, accepted, info, total);
            match r {
                Ok(()) => {},
                Err(e) => {
                    assert(gather_sent_from(*ctx, *offer, nfts@, i as int, gi) == Err::<Gathered, MarketError>(e));
                    return Err(e);
                },
            }
            i += 1;
        }
        Ok(())
    }

    /// Every listing taken down to fill a global offer (see `gather_listed_from`).
    fn gather_listed_all(
        &mut self,
        ctx: &ChainContext,
        offer: &GlobalOffer,
        seller: Address,
        ids: &Vec<u64>,
        nonces: &mut Vec<u8>,
        accepted: &mut Vec<EsdtPayment>,
        info: &mut NftData,
        total: &mut u128,
    ) -> (r: Result<(), MarketError>)
        requires
            old(self).inv(),
        ensures
            final(self).inv(),
            match gather_listed_from(
                old(self).store(),
                *ctx,
                *offer,
                seller,
                ids@,
                0,
                (old(nonces)@, old(accepted)@, *old(info), *old(total)),
            ) {
                Ok((s, g)) => r is Ok && final(self).store() == s && final(nonces)@ == g.0 && final(accepted)@ == g.1
                    && *final(info) == g.2 && *final(total) == g.3,
                Err(e) => r == Err::<(), MarketError>(e),
            },
    {
        let ghost g0: Gathered = (nonces@, accepted@, *info, *total);
        let ghost s0 = self.store();
        let mut j: usize = 0;
        while j < ids.len()
            invariant
                self.inv(),
                j <= ids@.len(),
                s0 == old(self).store(),
                g0 == (old(nonces)@, old(accepted)@, *old(info), *old(total)),
                gather_listed_from(self.store(), *ctx, *offer, seller, ids@, j as int, (nonces@, accepted@, *info, *total))
                    == gather_listed_from(s0, *ctx, *offer, seller, ids@, 0, g0),
            decreases ids@.len() - j,
        {
            let ghost gj: Gathered = (nonces@, accepted@, *info, *total);
            let ghost sj = self.store();
            let r = self.gather_listed_exec(ctx, offer, seller, ids[j], nonces, accepted, info, total);
            match r {
                Ok(()) => {},
                Err(e) => {
                    assert(gather_listed_from(sj, *ctx, *offer, seller, ids@, j as int, gj)
                        == Err::<(Store, Gathered), MarketError>(e));
                    return Err(e);
                },
            }
            j += 1;
        }
        Ok(())
    }

    /// The signature check of a global offer (see `spec_signature_check`).
    fn signature_check(
        &self,
        offer: &GlobalOffer,
        seller: Address,
        signature: Option<BufferId>,
        nonces: &Vec<u8>,
        acts: &mut Vec<Action>,
    ) -> (r: Result<(), MarketError>)
        ensures
            match spec_signature_check(*offer, seller, self.store().signer, signature, nonces@) {
                Ok(t) => r is Ok && final(acts)@ == old(acts)@ + t,
                Err(e) => r == Err::<(), MarketError>(e),
            },
    {
        let attributes = match offer.attributes {
            None => {
                assert(old(acts)@ + seq![] =~= acts@);
                return Ok(());
            },
            Some(a) => a,
        };
        let sig = match signature {
            None => {
                return Err(MarketError::SignatureRequired);
            },
            Some(s) => s,
        };
        if offer.offer_id > u32::MAX as u64 {
            return Err(MarketError::Overflow);
        }
        let ghost a0 = acts@;
        acts.push(Action::VerifySignature { signer: self.signer, signature: sig });
        acts.push(Action::SignedData(SignaturePart::Address(seller)));
        acts.push(Action::SignedData(SignaturePart::Token(offer.collection)));
        let ghost a1 = acts@;
        let id_digits = self.decimal_to_ascii(offer.offer_id as u32);
        let ghost bytes = nonces@ + id_digits@;
        let mut i: usize = 0;
        while i < nonces.len()
            invariant
                i <= nonces@.len(),
                acts@ == a1 + byte_parts(nonces@.subrange(0, i as int)),
            decreases nonces@.len() - i,
        {
            acts.push(Action::SignedData(SignaturePart::Byte(nonces[i])));
            i += 1;
            assert(byte_parts(nonces@.subrange(0, i as int)) =~= byte_parts(nonces@.subrange(0, i - 1)).push(
                Action::SignedData(SignaturePart::Byte(nonces@[i - 1])),
            ));
        }
        let mut j: usize = 0;
        assert(nonces@.subrange(0, nonces@.len() as int) =~= nonces@);
        while j < id_digits.len()
            invariant
                j <= id_digits@.len(),
                acts@ == a1 + byte_parts(nonces@ + id_digits@.subrange(0, j as int)),
            decreases id_digits@.len() - j,
        {
            acts.push(Action::SignedData(SignaturePart::Byte(id_digits[j])));
            j += 1;
            assert(byte_parts(nonces@ + id_digits@.subrange(0, j as int)) =~= byte_parts(
                nonces@ + id_digits@.subrange(0, j - 1),
            ).push(Action::SignedData(SignaturePart::Byte(id_digits@[j - 1]))));
        }
        assert(id_digits@.subrange(0, id_digits@.len() as int) =~= id_digits@);
        acts.push(Action::SignedData(SignaturePart::Buffer(attributes)));
        assert(acts@ =~= a0 + (seq![
            Action::VerifySignature { signer: self.signer, signature: sig },
            Action::SignedData(SignaturePart::Address(seller)),
            Action::SignedData(SignaturePart::Token(offer.collection)),
        ] + byte_parts(nonces@ + decimal_digits(offer.offer_id as nat)) + seq![
            Action::SignedData(SignaturePart::Buffer(attributes)),
        ]));
        Ok(())
    }

    /// The end of the acceptance of a global offer (see `spec_finish_global_offer`).
    fn finish_global_offer(
        &mut self,
        ctx: &ChainContext,
        offer_id: u64,
        offer: &GlobalOffer,
        seller: Address,
        signature: Option<BufferId>,
        nonces: &Vec<u8>,
        accepted: &Vec<EsdtPayment>,
        info: NftData,
        total: u128,
        acts: &mut Vec<Action>,
    ) -> (r: Result<(), MarketError>)
        requires
            old(self).inv(),
        ensures
            final(self).inv(),
            step_matches(
                spec_finish_global_offer(old(self).store(), *ctx, offer_id, *offer, seller, signature, (nonces@, accepted@, info, total)),
                r,
                final(self).store(),
                old(acts)@,
                final(acts)@,
            ),
    {
        if offer.quantity < total {
            return Err(MarketError::OfferQuantityExceeded);
        }
        let cost = match offer.price.checked_mul(total) {
            Some(c) => c,
            None => {
                return Err(MarketError::Overflow);
            },
        };
        let ghost s0 = self.store();
        let ghost a0 = acts@;
        if offer.new_version {
            self.has_balance_and_deduct(offer.owner, offer.payment_token, offer.payment_nonce, cost, acts)?;
        }
        let ghost s1 = self.store();
        let ghost a1 = acts@;
        proof {
            assert(a1 =~= a0 + (if offer.new_version {
                spec_has_balance_and_deduct(s0, offer.owner, offer.payment_token, offer.payment_nonce, cost)
            } else {
                Ok::<(Store, Seq<Action>), MarketError>((s0, seq![]))
            })->Ok_0.1);
        }
        self.signature_check(offer, seller, signature, nonces, acts)?;
        let ghost a2 = acts@;
        self.common_global_offer_remove(ctx, offer, false, acts)?;
        let ghost s2 = self.store();
        let ghost a3 = acts@;
        let config = self.get_collection_config(offer.collection);
        let d = self.calculate_amount_split(cost, info.royalties, config)?;
        proof {
            crate::laws::lemma_split_adds_up(self.store().bid_cut_percentage, cost, info.royalties, config);
        }
        let ev = self.emit_accept_global_offer_event(offer, seller, total);
        acts.push(Action::Event(ev));
        let ghost a4 = acts@;
        self.distribute_tokens_common(
            ctx,
            accepted,
            offer.payment_token,
            offer.payment_nonce,
            info.creator,
            seller,
            offer.owner,
            &d,
            false,
            acts,
        )?;
        let ghost a5 = acts@;
        let ghost s3 = self.store();
        if offer.quantity != total {
            let rest = GlobalOffer { quantity: offer.quantity - total, ..*offer };
            self.global_offer.insert(offer_id, rest);
            assert(self.store() =~= Store { global_offer: s3.global_offer.insert(offer_id, rest), ..s3 });
        }
        proof {
            let t2 = spec_signature_check(*offer, seller, s1.signer, signature, nonces@)->Ok_0;
            let t3 = spec_common_global_offer_remove(s1, *ctx, *offer, false)->Ok_0.1;
            let st = Settlement {
                payment_token: offer.payment_token,
                payment_nonce: offer.payment_nonce,
                creator: info.creator,
                original_owner: seller,
                new_owner: offer.owner,
                split: d,
            };
            let t4 = spec_distribute_tokens_common(s2, *ctx, accepted@, st, false)->Ok_0.1;
            assert(a2 == a1 + t2);
            assert(a3 == a2 + t3);
            assert(a5 == a4 + t4);
            let t1 = a1.subrange(a0.len() as int, a1.len() as int);
            assert(acts@ =~= a0 + (t1 + t2 + t3 + seq![
                Action::Event(Event::AcceptGlobalOffer { offer: *offer, seller, quantity: total }),
            ] + t4));
            assert(spec_finish_global_offer(s0, *ctx, offer_id, *offer, seller, signature, (nonces@, accepted@, info, total)) is Ok);
            assert(spec_finish_global_offer(s0, *ctx, offer_id, *offer, seller, signature, (nonces@, accepted@, info, total))->Ok_0.1 == t1 + t2 + t3 + seq![
                Action::Event(Event::AcceptGlobalOffer { offer: *offer, seller, quantity: total }),
            ] + t4);
        }
        Ok(())
    }

    /// Takes down the listing of an accepted offer (see `spec_take_offer_listing`).
    fn take_offer_listing(&mut self, seller: Address, offer: &Offer, auction_id: u64) -> (r: Result<(), MarketError>)
        requires
            old(self).inv(),
        ensures
            final(self).inv(),
            match spec_take_offer_listing(old(self).store(), seller, *offer, auction_id) {
                Ok(s) => r is Ok && final(self).store() == s,
                Err(e) => r == Err::<(), MarketError>(e),
            },
    {
        let auction = self.try_get_auction(auction_id)?;
        self.common_offer_auction_check(offer, &auction)?;
        if seller != auction.original_owner {
            return Err(MarketError::NotListedNftOwner);
        }
        self.update_or_remove_items_quantity(&auction, auction.nr_auctioned_tokens)?;
        self.remove_auction_common(auction_id, &auction);
        Ok(())
    }

    /// Settles an accepted offer (see `spec_settle_offer`).
    fn settle_offer(
        &mut self,
        ctx: &ChainContext,
        offer_id: u64,
        offer: &Offer,
        seller: Address,
        auction_removed: u64,
        acts: &mut Vec<Action>,
    ) -> (r: Result<(), MarketError>)
        requires
            old(self).inv(),
        ensures
            final(self).inv(),
            step_matches(
                spec_settle_offer(old(self).store(), *ctx, offer_id, *offer, seller, auction_removed),
                r,
                final(self).store(),
                old(acts)@,
                final(acts)@,
            ),
    {
        let nft_info = self.get_nft_info(ctx, offer.token_type, offer.token_nonce)?;
        self.common_offer_remove(offer_id, offer);
        let config = self.get_collection_config(offer.token_type);
        let d = self.calculate_amount_split(offer.price, nft_info.royalties, config)?;
        proof {
            crate::laws::lemma_split_adds_up(self.store().bid_cut_percentage, offer.price, nft_info.royalties, config);
        }
        let ghost a0 = acts@;
        let ev = self.emit_accept_offer_event(offer_id, offer, seller, auction_removed);
        acts.push(Action::Event(ev));
        let ghost a1 = acts@;
        let ghost s1 = self.store();
        let nfts = vec![EsdtPayment { token: offer.token_type, nonce: offer.token_nonce, amount: offer.quantity }];
        assert(nfts@ =~= seq![EsdtPayment { token: offer.token_type, nonce: offer.token_nonce, amount: offer.quantity }]);
        let r = self.distribute_tokens_common(
            ctx,
            &nfts,
            offer.payment_token_type,
            offer.payment_token_nonce,
            nft_info.creator,
            seller,
            offer.offer_owner,
            &d,
            false,
            acts,
        );
        proof {
            let st = Settlement {
                payment_token: offer.payment_token_type,
                payment_nonce: offer.payment_token_nonce,
                creator: nft_info.creator,
                original_owner: seller,
                new_owner: offer.offer_owner,
                split: d,
            };
            match spec_distribute_tokens_common(s1, *ctx, nfts@, st, false) {
                Ok((_, t)) => {
                    assert(acts@ =~= a0 + (seq![Action::Event(Event::AcceptOffer { offer_id, offer: *offer, seller, auction_removed })] + t));
                },
                Err(_) => {},
            }
        }
        r
    }
}

impl CustomOffersModule for Marketplace {
    fn accept_offer(&mut self, ctx: &ChainContext, offer_id: u64, auction_id: Option<u64>, payment: Payment) -> (r:
        Result<Vec<Action>, MarketError>) {
        let saved = self.duplicate();
        let r = self.attempt_accept_offer(ctx, offer_id, auction_id, payment);
        if r.is_err() {
            *self = saved;
        }
        r
    }

    fn decline_offer(&mut self, ctx: &ChainContext, offer_id: u64, auction_id: Option<u64>, payment: Payment) -> (r:
        Result<Vec<Action>, MarketError>) {
        let saved = self.duplicate();
        let r = self.attempt_decline_offer(ctx, offer_id, auction_id, payment);
        if r.is_err() {
            *self = saved;
        }
        r
    }

    fn withdraw_offer(&mut self, ctx: &ChainContext, offer_id: u64) -> (r: Result<Vec<Action>, MarketError>) {
        let saved = self.duplicate();
        let r = self.attempt_withdraw_offer(ctx, offer_id);
        if r.is_err() {
            *self = saved;
        }
        r
    }

    fn send_offer(
        &mut self,
        ctx: &ChainContext,
        payment: Payment,
        payment_token: PaymentToken,
        payment_token_nonce: u64,
        payment_amount: u128,
        nft_type: TokenId,
        nft_nonce: u64,
        nft_amount: u128,
        deadline: u64,
    ) -> (r: Result<(Vec<Action>, u64), MarketError>) {
        let saved = self.duplicate();
        let r = self.attempt_send_offer(ctx, payment, payment_token, payment_token_nonce, payment_amount, nft_type, nft_nonce, nft_amount, deadline);
        if r.is_err() {
            *self = saved;
        }
        r
    }

    fn send_global_offer(
        &mut self,
        ctx: &ChainContext,
        payment: Payment,
        payment_token: PaymentToken,
        payment_nonce: u64,
        price: u128,
        collection: TokenId,
        quantity: u128,
        attributes: Option<BufferId>,
    ) -> (r: Result<(Vec<Action>, u64), MarketError>) {
        let saved = self.duplicate();
        let r = self.attempt_send_global_offer(ctx, payment, payment_token, payment_nonce, price, collection, quantity, attributes);
        if r.is_err() {
            *self = saved;
        }
        r
    }

    fn withdraw_global_offer(&mut self, ctx: &ChainContext, offer_id: u64) -> (r: Result<Vec<Action>, MarketError>) {
        let saved = self.duplicate();
        let r = self.attempt_withdraw_global_offer(ctx, offer_id);
        if r.is_err() {
            *self = saved;
        }
        r
    }

    fn accept_global_offer(
        &mut self,
        ctx: &ChainContext,
        offer_id: u64,
        auction_ids: Option<Vec<u64>>,
        signature: Option<BufferId>,
        nfts: &Vec<EsdtPayment>,
    ) -> (r: Result<Vec<Action>, MarketError>) {
        let saved = self.duplicate();
        let r = self.attempt_accept_global_offer(ctx, offer_id, auction_ids, signature, nfts);
        if r.is_err() {
            *self = saved;
        }
        r
    }
}

impl Marketplace {
    /// The steps of `accept_offer`; a failure may leave the storage part-way.
    fn attempt_accept_offer(&mut self, ctx: &ChainContext, offer_id: u64, auction_id: Option<u64>, payment: Payment) -> (r:
        Result<Vec<Action>, MarketError>)
        requires
            old(self).inv(),
        ensures
            final(self).inv(),
            endpoint_matches(spec_accept_offer(old(self).store(), *ctx, offer_id, auction_id, payment), r, final(self).store()),
    {
        self.require_enabled()?;
        let offer = self.try_get_offer(offer_id)?;
        let seller = ctx.caller;
        if ctx.timestamp > offer.deadline {
            return Err(MarketError::OfferExpired);
        }
        if offer.offer_owner == seller {
            return Err(MarketError::OwnOffer);
        }
        let mut acts: Vec<Action> = Vec::new();
        if offer.new_version {
            self.has_balance_and_deduct(
                offer.offer_owner,
                offer.payment_token_type,
                offer.payment_token_nonce,
                offer.price,
                &mut acts,
            )?;
        }
        let ghost t1 = acts@;
        let ghost s1 = self.store();
        let auction_removed = match auction_id {
            None => {
                if payment.amount != offer.quantity {
                    return Err(MarketError::QuantityNotMatchingOffer);
                }
                if payment.nonce != offer.token_nonce {
                    return Err(MarketError::NonceNotMatchingOffer);
                }
                if payment.token != PaymentToken::Esdt(offer.token_type) {
                    return Err(MarketError::TokenNotMatchingOffer);
                }
                0
            },
            Some(id) => {
                self.take_offer_listing(seller, &offer, id)?;
                id
            },
        };
        let accepted = Offer { status: OfferStatus::Accepted, ..offer };
        let ghost s2 = self.store();
        let r = self.settle_offer(ctx, offer_id, &accepted, seller, auction_removed, &mut acts);
        proof {
            match spec_settle_offer(s2, *ctx, offer_id, accepted, seller, auction_removed) {
                Ok((_, t)) => {
                    assert(acts@ =~= t1 + t);
                },
                Err(_) => {},
            }
        }
        match r {
            Ok(()) => Ok(acts),
            Err(e) => Err(e),
        }
    }

    /// The steps of `decline_offer`; a failure may leave the storage part-way.
    fn attempt_decline_offer(&mut self, ctx: &ChainContext, offer_id: u64, auction_id: Option<u64>, payment: Payment) -> (r:
        Result<Vec<Action>, MarketError>)
        requires
            old(self).inv(),
        ensures
            final(self).inv(),
            endpoint_matches(spec_decline_offer(old(self).store(), *ctx, offer_id, auction_id, payment), r, final(self).store()),
    {
        self.require_enabled()?;
        let offer = self.try_get_offer(offer_id)?;
        let owner = ctx.caller;
        let mut acts: Vec<Action> = Vec::new();
        let n = self.token_auction_ids.len(&(offer.token_type, offer.token_nonce));
        if n == 0 {
            if payment.amount != offer.quantity {
                return Err(MarketError::QuantityNotMatchingOffer);
            }
            if payment.nonce != offer.token_nonce {
                return Err(MarketError::NonceNotMatchingOffer);
            }
            if payment.token != PaymentToken::Esdt(offer.token_type) {
                return Err(MarketError::TokenNotMatchingOffer);
            }
            acts.push(Action::Transfer { to: owner, token: payment.token, nonce: payment.nonce, amount: payment.amount });
        } else {
            if n != 1 {
                return Err(MarketError::CannotDeclineSft);
            }
            if !(payment.token.is_egld() && payment.amount == 0) {
                return Err(MarketError::DeclineNeedsZeroEgld);
            }
            let id = match auction_id {
                Some(id) => id,
                None => {
                    return Err(MarketError::MissingArgument);
                },
            };
            let auction = self.try_get_auction(id)?;
            if owner != auction.original_owner {
                return Err(MarketError::NotNftOwner);
            }
            self.common_offer_auction_check(&offer, &auction)?;
        }
        let ghost t = acts@;
        self.common_withdraw_offer(offer_id, &offer, &mut acts);
        Ok(acts)
    }

    /// The steps of `withdraw_offer`; a failure may leave the storage part-way.
    fn attempt_withdraw_offer(&mut self, ctx: &ChainContext, offer_id: u64) -> (r: Result<Vec<Action>, MarketError>)
        requires
            old(self).inv(),
        ensures
            final(self).inv(),
            endpoint_matches(spec_withdraw_offer(old(self).store(), *ctx, offer_id), r, final(self).store()),
    {
        self.require_enabled()?;
        let offer = self.try_get_offer(offer_id)?;
        if offer.offer_owner != ctx.caller {
            return Err(MarketError::NotOfferOwner);
        }
        let mut acts: Vec<Action> = Vec::new();
        self.common_withdraw_offer(offer_id, &offer, &mut acts);
        assert(acts@ =~= spec_common_withdraw_offer(old(self).store(), offer_id, offer).1);
        Ok(acts)
    }

    /// The steps of `send_offer`; a failure may leave the storage part-way.
    fn attempt_send_offer(
        &mut self,
        ctx: &ChainContext,
        payment: Payment,
        payment_token: PaymentToken,
        payment_token_nonce: u64,
        payment_amount: u128,
        nft_type: TokenId,
        nft_nonce: u64,
        nft_amount: u128,
        deadline: u64,
    ) -> (r: Result<(Vec<Action>, u64), MarketError>)
        requires
            old(self).inv(),
        ensures
            final(self).inv(),
            id_matches(
                spec_send_offer(
                    old(self).store(),
                    *ctx,
                    payment,
                    payment_token,
                    payment_token_nonce,
                    payment_amount,
                    nft_type,
                    nft_nonce,
                    nft_amount,
                    deadline,
                ),
                r,
                final(self).store(),
            ),
    {
        if !payment.token.is_egld() {
            return Err(MarketError::EsdtNotAccepted);
        }
        self.require_enabled()?;
        if !self.accepted_tokens.contains(&payment_token) {
            return Err(MarketError::PaymentTokenNotWhitelisted);
        }
        if !payment_token.is_egld() {
            return Err(MarketError::PaymentNotEgld);
        }
        if payment_token_nonce != 0 {
            return Err(MarketError::PaymentNonceNotZero);
        }
        if nft_nonce == 0 {
            return Err(MarketError::FungibleCannotHaveOffers);
        }
        if nft_amount != NFT_AMOUNT as u128 {
            return Err(MarketError::QuantityMustBeOne);
        }
        let mut acts = self.deposit(ctx, payment)?;
        let caller = ctx.caller;
        self.has_balance(caller, payment_token, payment_token_nonce, payment_amount)?;
        if self.blacklist_wallets.contains(&caller) {
            return Err(MarketError::Blacklisted);
        }
        let sent_key = (caller, nft_type, nft_nonce, payment_token);
        if self.check_offer_sent.contains(&sent_key) {
            return Err(MarketError::OfferAlreadySent);
        }
        if !ctx.is_valid_token(nft_type) {
            return Err(MarketError::InvalidNftToken);
        }
        if deadline <= ctx.timestamp {
            return Err(MarketError::DeadlineInPast);
        }
        if self.last_valid_offer_id == u64::MAX {
            return Err(MarketError::Overflow);
        }
        let offer_id = self.last_valid_offer_id + 1;
        let ghost s0 = self.store();
        self.last_valid_offer_id = offer_id;
        let offer = Offer {
            token_type: nft_type,
            token_nonce: nft_nonce,
            quantity: nft_amount,
            status: OfferStatus::Pending,
            payment_token_type: payment_token,
            payment_token_nonce,
            price: payment_amount,
            deadline,
            timestamp: ctx.timestamp,
            offer_owner: caller,
            marketplace_cut_percentage: self.bid_cut_percentage,
            new_version: true,
        };
        self.offer_by_id.insert(offer_id, offer);
        self.token_offers_ids.insert((nft_type, nft_nonce), offer_id);
        self.offers.insert(offer_id);
        self.offers_by_wallet.insert(caller, offer_id);
        self.check_offer_sent.insert(sent_key);
        proof {
            crate::storage::lemma_offer_ids_counted_add(
                s0.offer_by_id,
                s0.offers,
                s0.offers_by_wallet,
                s0.token_offers_ids,
                s0.last_valid_offer_id,
                offer_id,
                offer,
                caller,
                (nft_type, nft_nonce),
            );
        }
        let ev = self.emit_offer_token_event(offer_id, &offer);
        acts.push(Action::Event(ev));
        Ok((acts, offer_id))
    }

    /// The steps of `send_global_offer`; a failure may leave the storage part-way.
    fn attempt_send_global_offer(
        &mut self,
        ctx: &ChainContext,
        payment: Payment,
        payment_token: PaymentToken,
        payment_nonce: u64,
        price: u128,
        collection: TokenId,
        quantity: u128,
        attributes: Option<BufferId>,
    ) -> (r: Result<(Vec<Action>, u64), MarketError>)
        requires
            old(self).inv(),
        ensures
            final(self).inv(),
            id_matches(
                spec_send_global_offer(
                    old(self).store(),
                    *ctx,
                    payment,
                    payment_token,
                    payment_nonce,
                    price,
                    collection,
                    quantity,
                    attributes,
                ),
                r,
                final(self).store(),
            ),
    {
        if !payment.token.is_egld() {
            return Err(MarketError::EsdtNotAccepted);
        }
        self.require_enabled()?;
        let mut acts = self.deposit(ctx, payment)?;
        let caller = ctx.caller;
        self.has_balance(caller, payment_token, payment_nonce, price)?;
        if self.user_global_offers.len(&caller) > 250 {
            return Err(MarketError::TooManyGlobalOffers);
        }
        if self.blacklist_wallets.contains(&caller) {
            return Err(MarketError::Blacklisted);
        }
        let uc = (caller, collection);
        if self.user_collection_global_offers.len(&uc) > 25 {
            return Err(MarketError::TooManyCollectionOffers);
        }
        if self.last_valid_global_offer_id == u64::MAX {
            return Err(MarketError::Overflow);
        }
        let offer_id = self.last_valid_global_offer_id + 1;
        let offer = GlobalOffer {
            offer_id,
            collection,
            quantity,
            payment_token,
            payment_nonce,
            price,
            timestamp: ctx.timestamp,
            owner: caller,
            attributes,
            new_version: true,
        };
        self.last_valid_global_offer_id = offer_id;
        self.collection_global_offers.insert(collection, offer_id);
        self.user_global_offers.insert(caller, offer_id);
        self.user_collection_global_offers.insert(uc, offer_id);
        let ev = self.emit_send_global_offer_event(&offer);
        acts.push(Action::Event(ev));
        self.global_offer_ids.insert(offer_id);
        self.global_offer.insert(offer_id, offer);
        Ok((acts, offer_id))
    }

    /// The steps of `withdraw_global_offer`; a failure may leave the storage part-way.
    fn attempt_withdraw_global_offer(&mut self, ctx: &ChainContext, offer_id: u64) -> (r: Result<Vec<Action>, MarketError>)
        requires
            old(self).inv(),
        ensures
            final(self).inv(),
            endpoint_matches(spec_withdraw_global_offer(old(self).store(), *ctx, offer_id), r, final(self).store()),
    {
        self.require_enabled()?;
        let offer = self.try_get_global_offer(offer_id)?;
        if offer.owner != ctx.caller {
            return Err(MarketError::NotGlobalOfferOwner);
        }
        let mut acts: Vec<Action> = Vec::new();
        let r = self.common_global_offer_remove(ctx, &offer, true, &mut acts);
        proof {
            match spec_common_global_offer_remove(old(self).store(), *ctx, offer, true) {
                Ok((_, t)) => {
                    assert(acts@ =~= t);
                },
                Err(_) => {},
            }
        }
        match r {
            Ok(()) => Ok(acts),
            Err(e) => Err(e),
        }
    }

    /// The steps of `accept_global_offer`; a failure may leave the storage part-way.
    fn attempt_accept_global_offer(
        &mut self,
        ctx: &ChainContext,
        offer_id: u64,
        auction_ids: Option<Vec<u64>>,
        signature: Option<BufferId>,
        nfts: &Vec<EsdtPayment>,
    ) -> (r: Result<Vec<Action>, MarketError>)
        requires
            old(self).inv(),
        ensures
            final(self).inv(),
            endpoint_matches(
                spec_accept_global_offer(
                    old(self).store(),
                    *ctx,
                    offer_id,
                    match auction_ids {
                        Some(v) => Some(v@),
                        None => None,
                    },
                    signature,
                    nfts@,
                ),
                r,
                final(self).store(),
            ),
    {
        self.require_enabled()?;
        let offer = match self.global_offer.get(&offer_id) {
            Some(o) => *o,
            None => {
                return Err(MarketError::OfferAlreadyRemoved);
            },
        };
        let seller = ctx.caller;
        let ids = match auction_ids {
            Some(v) => v,
            None => Vec::new(),
        };
        let mut nonces: Vec<u8> = Vec::new();
        let mut accepted: Vec<EsdtPayment> = Vec::new();
        let mut info = NftData {
            token: offer.collection,
            nonce: 0,
            royalties: 0,
            creator: ZERO_ADDRESS,
            attributes_creator: None,
            token_type: 0,
        };
        let mut total: u128 = 0;
        assert(nonces@ =~= Seq::<u8>::empty());
        assert(accepted@ =~= Seq::<EsdtPayment>::empty());
        self.gather_sent_all(ctx, &offer, nfts, &mut nonces, &mut accepted, &mut info, &mut total)?;
        self.gather_listed_all(ctx, &offer, seller, &ids, &mut nonces, &mut accepted, &mut info, &mut total)?;
        let mut acts: Vec<Action> = Vec::new();
        let ghost s1 = self.store();
        let r = self.finish_global_offer(ctx, offer_id, &offer, seller, signature, &nonces, &accepted, info, total, &mut acts);
        proof {
            match spec_finish_global_offer(s1, *ctx, offer_id, offer, seller, signature, (nonces@, accepted@, info, total)) {
                Ok((_, t)) => {
                    assert(acts@ =~= t);
                },
                Err(_) => {},
            }
        }
        match r {
            Ok(()) => Ok(acts),
            Err(e) => Err(e),
        }
    }
}

} // verus!
