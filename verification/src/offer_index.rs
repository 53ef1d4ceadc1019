//! The offer indexes agree with the offer records, and the endpoints that
//! send, withdraw, decline and accept offers keep them so.
use vstd::prelude::*;

use crate::admin::{
    spec_clean_expired_from, spec_clean_expired_offers, spec_delete_user_offers, first_offers,
    spec_withdraw_global_offer_one, spec_withdraw_global_offers, spec_withdraw_global_offers_from,
    spec_withdraw_offers_from, spec_withdraw_recorded_offer,
};
use crate::auction::{BufferId, EsdtPayment, GlobalOffer, Offer, OfferStatus, Payment, PaymentToken, TokenId};
use crate::collections::{lemma_seq_swap_without_no_dup, lemma_seq_with_no_dup, lemma_seq_without_no_dup};
use crate::common::{
    prefixed, spec_common_global_offer_remove, spec_common_offer_remove, spec_distribute_tokens_common, Settlement,
};
use crate::events::Action;
use crate::helpers::{spec_amount_split, spec_collection_config, spec_nft_info, spec_transfer_or_save, Step};
use crate::laws::{lemma_distribution_keeps_records, lemma_transfer_or_save_keeps_records, same_records};
use crate::offers::{
    gather_listed_from, gather_sent_from, offer_token_checks, spec_accept_global_offer, spec_accept_offer,
    spec_decline_offer, spec_send_global_offer, spec_send_offer, spec_take_offer_listing, spec_withdraw_global_offer,
    spec_withdraw_offer, Gathered,
};
use crate::pools::spec_has_balance_and_deduct;
use crate::storage::{empty_nft_data, ChainContext, Store};

verus! {

/// The offers index and the offer records agree: the index holds no id twice,
/// and an id is in it exactly when an offer is recorded under it.
pub open spec fn offers_agree(s: Store) -> bool {
    &&& s.offers.no_duplicates()
    &&& forall|id: u64|
        #![trigger s.offers.contains(id)]
        #![trigger s.offer_by_id.contains_key(id)]
        s.offers.contains(id) <==> s.offer_by_id.contains_key(id)
}

/// The global offers index and the global offer records agree: the index
/// holds no id twice, an id is in it exactly when a global offer is recorded
/// under it, and each global offer carries the id it is recorded under.
pub open spec fn global_offers_agree(s: Store) -> bool {
    &&& s.global_offer_ids.no_duplicates()
    &&& forall|id: u64|
        #![trigger s.global_offer_ids.contains(id)]
        #![trigger s.global_offer.contains_key(id)]
        s.global_offer_ids.contains(id) <==> s.global_offer.contains_key(id)
    &&& forall|id: u64| #[trigger] s.global_offer.contains_key(id) ==> s.global_offer[id].offer_id == id
}

/// Both offer indexes agree with their records.
pub open spec fn offer_indexes_agree(s: Store) -> bool {
    offers_agree(s) && global_offers_agree(s)
}

/// The storage a successful step leaves has its offer indexes and records in agreement.
pub open spec fn offers_agree_after(r: Step) -> bool {
    match r {
        Ok((s1, _)) => offer_indexes_agree(s1),
        Err(_) => true,
    }
}

proof fn lemma_same_records_offers(s: Store, s1: Store)
    requires
        offer_indexes_agree(s),
        same_records(s, s1),
    ensures
        offer_indexes_agree(s1),
{
    assert(s1.offers == s.offers && s1.offer_by_id == s.offer_by_id);
    assert(s1.global_offer_ids == s.global_offer_ids && s1.global_offer == s.global_offer);
}

proof fn lemma_offer_remove_agree(s: Store, offer_id: u64, offer: Offer)
    requires
        offer_indexes_agree(s),
    ensures
        offer_indexes_agree(spec_common_offer_remove(s, offer_id, offer)),
{
    let s1 = spec_common_offer_remove(s, offer_id, offer);
    lemma_seq_without_no_dup(s.offers, offer_id);
    assert forall|id: u64| s1.offers.contains(id) <==> s1.offer_by_id.contains_key(id) by {
        if id != offer_id {
            assert(s1.offers.contains(id) <==> s.offers.contains(id));
            assert(s1.offer_by_id.contains_key(id) <==> s.offer_by_id.contains_key(id));
        }
    }
}

proof fn lemma_global_offer_remove_agree(s: Store, ctx: ChainContext, offer: GlobalOffer, return_offer: bool)
    requires
        offer_indexes_agree(s),
    ensures
        offers_agree_after(spec_common_global_offer_remove(s, ctx, offer, return_offer)),
{
    let s1 = if return_offer && !offer.new_version {
        lemma_transfer_or_save_keeps_records(s, ctx, offer.owner, offer.payment_token, offer.payment_nonce, offer.price);
        match spec_transfer_or_save(s, ctx, offer.owner, offer.payment_token, offer.payment_nonce, offer.price) {
            Ok((x, _)) => {
                lemma_same_records_offers(s, x);
                x
            },
            Err(_) => s,
        }
    } else {
        s
    };
    let id = offer.offer_id;
    lemma_seq_swap_without_no_dup(s1.global_offer_ids, id);
    match spec_common_global_offer_remove(s, ctx, offer, return_offer) {
        Ok((s2, _)) => {
            assert(s2.global_offer == s1.global_offer.remove(id));
            assert forall|x: u64| s2.global_offer_ids.contains(x) <==> s2.global_offer.contains_key(x) by {
                if x != id {
                    assert(s2.global_offer_ids.contains(x) <==> s1.global_offer_ids.contains(x));
                    assert(s2.global_offer.contains_key(x) <==> s1.global_offer.contains_key(x));
                }
            }
            assert forall|x: u64| #[trigger] s2.global_offer.contains_key(x) implies s2.global_offer[x].offer_id == x by {
                assert(s1.global_offer.contains_key(x));
            }
        },
        Err(_) => {},
    }
}

proof fn lemma_prefixed_offers(a: Seq<Action>, r: Step)
    ensures
        offers_agree_after(prefixed(a, r)) == offers_agree_after(r),
{
}

/// `sendOffer` and `sendGlobalOffer` keep the offer indexes and records in agreement.
pub proof fn law_send_offers_keep_offers_agree(
    s: Store,
    ctx: ChainContext,
    payment: Payment,
    payment_token: PaymentToken,
    payment_nonce: u64,
    price: u128,
    nft_type: TokenId,
    nft_nonce: u64,
    quantity: u128,
    deadline: u64,
    attributes: Option<BufferId>,
)
    requires
        offer_indexes_agree(s),
    ensures
        match spec_send_offer(s, ctx, payment, payment_token, payment_nonce, price, nft_type, nft_nonce, quantity, deadline) {
            Ok((s1, _, _)) => offer_indexes_agree(s1),
            Err(_) => true,
        },
        match spec_send_global_offer(s, ctx, payment, payment_token, payment_nonce, price, nft_type, quantity, attributes) {
            Ok((s1, _, _)) => offer_indexes_agree(s1),
            Err(_) => true,
        },
{
    let id = (s.last_valid_offer_id + 1) as u64;
    let gid = (s.last_valid_global_offer_id + 1) as u64;
    lemma_seq_with_no_dup(s.offers, id);
    lemma_seq_with_no_dup(s.global_offer_ids, gid);
    match spec_send_offer(s, ctx, payment, payment_token, payment_nonce, price, nft_type, nft_nonce, quantity, deadline) {
        Ok((s1, _, _)) => {
            assert(s1.offers == crate::collections::seq_with(s.offers, id));
            assert forall|x: u64| s1.offers.contains(x) <==> s1.offer_by_id.contains_key(x) by {
                if x != id {
                    assert(s1.offer_by_id.contains_key(x) <==> s.offer_by_id.contains_key(x));
                }
            }
        },
        Err(_) => {},
    }
    match spec_send_global_offer(s, ctx, payment, payment_token, payment_nonce, price, nft_type, quantity, attributes) {
        Ok((s1, _, _)) => {
            assert(s1.global_offer_ids == crate::collections::seq_with(s.global_offer_ids, gid));
            assert forall|x: u64| s1.global_offer_ids.contains(x) <==> s1.global_offer.contains_key(x) by {
                if x != gid {
                    assert(s1.global_offer.contains_key(x) <==> s.global_offer.contains_key(x));
                }
            }
            assert forall|x: u64| #[trigger] s1.global_offer.contains_key(x) implies s1.global_offer[x].offer_id == x by {
                if x != gid {
                    assert(s.global_offer.contains_key(x));
                }
            }
        },
        Err(_) => {},
    }
}

/// `withdrawOffer`, `declineOffer` and `withdrawGlobalOffer` keep the offer
/// indexes and records in agreement.
pub proof fn law_withdraw_offers_keep_offers_agree(
    s: Store,
    ctx: ChainContext,
    offer_id: u64,
    auction_id: Option<u64>,
    payment: Payment,
)
    requires
        offer_indexes_agree(s),
    ensures
        offers_agree_after(spec_withdraw_offer(s, ctx, offer_id)),
        offers_agree_after(spec_decline_offer(s, ctx, offer_id, auction_id, payment)),
        offers_agree_after(spec_withdraw_global_offer(s, ctx, offer_id)),
{
    if s.offer_by_id.contains_key(offer_id) {
        lemma_offer_remove_agree(s, offer_id, s.offer_by_id[offer_id]);
    }
    if s.global_offer.contains_key(offer_id) {
        lemma_global_offer_remove_agree(s, ctx, s.global_offer[offer_id], true);
    }
}

/// `acceptOffer` keeps the offer indexes and records in agreement.
pub proof fn law_accept_offer_keeps_offers_agree(
    s: Store,
    ctx: ChainContext,
    offer_id: u64,
    auction_id: Option<u64>,
    payment: Payment,
)
    requires
        offer_indexes_agree(s),
    ensures
        offers_agree_after(spec_accept_offer(s, ctx, offer_id, auction_id, payment)),
{
    if s.status && s.offer_by_id.contains_key(offer_id) {
        let offer = s.offer_by_id[offer_id];
        let paid = if offer.new_version {
            spec_has_balance_and_deduct(s, offer.offer_owner, offer.payment_token_type, offer.payment_token_nonce, offer.price)
        } else {
            Ok((s, seq![]))
        };
        match paid {
            Ok((s1, t1)) => {
                assert(offer_indexes_agree(s1));
                let taken = match auction_id {
                    None => match offer_token_checks(offer, payment) {
                        Err(e) => Err(e),
                        Ok(_) => Ok(s1),
                    },
                    Some(id) => spec_take_offer_listing(s1, ctx.caller, offer, id),
                };
                match taken {
                    Ok(s2) => {
                        assert(s2.offers == s.offers && s2.offer_by_id == s.offer_by_id);
                        assert(s2.global_offer_ids == s.global_offer_ids && s2.global_offer == s.global_offer);
                        assert(offer_indexes_agree(s2));
                        let accepted = Offer { status: OfferStatus::Accepted, ..offer };
                        match spec_nft_info(ctx, accepted.token_type, accepted.token_nonce) {
                            Ok(info) => {
                                lemma_offer_remove_agree(s2, offer_id, accepted);
                                let s3 = spec_common_offer_remove(s2, offer_id, accepted);
                                match spec_amount_split(
                                    s3.bid_cut_percentage,
                                    accepted.price,
                                    info.royalties,
                                    spec_collection_config(s3, accepted.token_type),
                                ) {
                                    Ok(d) => {
                                        let nfts = seq![
                                            EsdtPayment {
                                                token: accepted.token_type,
                                                nonce: accepted.token_nonce,
                                                amount: accepted.quantity,
                                            },
                                        ];
                                        let st = Settlement {
                                            payment_token: accepted.payment_token_type,
                                            payment_nonce: accepted.payment_token_nonce,
                                            creator: info.creator,
                                            original_owner: ctx.caller,
                                            new_owner: accepted.offer_owner,
                                            split: d,
                                        };
                                        lemma_distribution_keeps_records(s3, ctx, nfts, st, false);
                                        match spec_distribute_tokens_common(s3, ctx, nfts, st, false) {
                                            Ok((s4, _)) => lemma_same_records_offers(s3, s4),
                                            Err(_) => {},
                                        }
                                    },
                                    Err(_) => {},
                                }
                            },
                            Err(_) => {},
                        }
                    },
                    Err(_) => {},
                }
            },
            Err(_) => {},
        }
    }
}

/// `acceptGlobalOffer` keeps the offer indexes and records in agreement when
/// it fills the offer completely, so that the offer is no longer on record.
/// (An offer filled in part is written back under its id after it left the
/// global offers index.)
pub proof fn law_accept_global_offer_keeps_offers_agree(
    s: Store,
    ctx: ChainContext,
    offer_id: u64,
    auction_ids: Option<Seq<u64>>,
    signature: Option<BufferId>,
    nfts: Seq<EsdtPayment>,
)
    requires
        offer_indexes_agree(s),
    ensures
        match spec_accept_global_offer(s, ctx, offer_id, auction_ids, signature, nfts) {
            Ok((s1, _)) => !s1.global_offer.contains_key(offer_id) ==> offer_indexes_agree(s1),
            Err(_) => true,
        },
{
    if s.status && s.global_offer.contains_key(offer_id) {
        let offer = s.global_offer[offer_id];
        let ids = match auction_ids {
            Some(v) => v,
            None => seq![],
        };
        let g0: Gathered = (seq![], seq![], empty_nft_data(offer.collection, 0), 0);
        match gather_sent_from(ctx, offer, nfts, 0, g0) {
            Ok(g1) => {
                lemma_gather_listed_keeps_offers(s, ctx, offer, ctx.caller, ids, 0, g1);
                match gather_listed_from(s, ctx, offer, ctx.caller, ids, 0, g1) {
                    Ok((s1, g2)) => {
                        let total = g2.3;
                        if offer.quantity >= total && offer.price * total <= u128::MAX {
                            let cost = (offer.price * total) as u128;
                            let paid = if offer.new_version {
                                spec_has_balance_and_deduct(s1, offer.owner, offer.payment_token, offer.payment_nonce, cost)
                            } else {
                                Ok((s1, seq![]))
                            };
                            match paid {
                                Ok((s2, _)) => {
                                    assert(offer_indexes_agree(s2));
                                    lemma_global_offer_remove_agree(s2, ctx, offer, false);
                                    match spec_common_global_offer_remove(s2, ctx, offer, false) {
                                        Ok((s3, _)) => {
                                            match spec_amount_split(
                                                s3.bid_cut_percentage,
                                                cost,
                                                g2.2.royalties,
                                                spec_collection_config(s3, offer.collection),
                                            ) {
                                                Ok(d) => {
                                                    let st = Settlement {
                                                        payment_token: offer.payment_token,
                                                        payment_nonce: offer.payment_nonce,
                                                        creator: g2.2.creator,
                                                        original_owner: ctx.caller,
                                                        new_owner: offer.owner,
                                                        split: d,
                                                    };
                                                    lemma_distribution_keeps_records(s3, ctx, g2.1, st, false);
                                                    match spec_distribute_tokens_common(s3, ctx, g2.1, st, false) {
                                                        Ok((s4, _)) => lemma_same_records_offers(s3, s4),
                                                        Err(_) => {},
                                                    }
                                                },
                                                Err(_) => {},
                                            }
                                        },
                                        Err(_) => {},
                                    }
                                },
                                Err(_) => {},
                            }
                        }
                    },
                    Err(_) => {},
                }
            },
            Err(_) => {},
        }
    }
}

proof fn lemma_gather_listed_keeps_offers(
    s: Store,
    ctx: ChainContext,
    offer: GlobalOffer,
    seller: u64,
    ids: Seq<u64>,
    i: int,
    g: Gathered,
)
    ensures
        match gather_listed_from(s, ctx, offer, seller, ids, i, g) {
            Ok((s1, _)) => s1.offers == s.offers && s1.offer_by_id == s.offer_by_id && s1.global_offer_ids
                == s.global_offer_ids && s1.global_offer == s.global_offer,
            Err(_) => true,
        },
    decreases ids.len() - i,
{
    if 0 <= i < ids.len() {
        match crate::offers::gather_listed(s, ctx, offer, seller, g, ids[i]) {
            Ok((s1, g1)) => lemma_gather_listed_keeps_offers(s1, ctx, offer, seller, ids, i + 1, g1),
            Err(_) => {},
        }
    }
}

proof fn lemma_withdraw_offers_from_agree(s: Store, ids: Seq<u64>, i: int)
    requires
        offer_indexes_agree(s),
    ensures
        offers_agree_after(spec_withdraw_offers_from(s, ids, i)),
    decreases ids.len() - i,
{
    if 0 <= i < ids.len() {
        if s.offer_by_id.contains_key(ids[i]) {
            lemma_offer_remove_agree(s, ids[i], s.offer_by_id[ids[i]]);
        }
        match spec_withdraw_recorded_offer(s, ids[i]) {
            Ok((s1, a)) => {
                lemma_withdraw_offers_from_agree(s1, ids, i + 1);
                lemma_prefixed_offers(a, spec_withdraw_offers_from(s1, ids, i + 1));
            },
            Err(_) => {},
        }
    }
}

proof fn lemma_clean_expired_from_agree(s: Store, ctx: ChainContext, ids: Seq<u64>, i: int)
    requires
        offer_indexes_agree(s),
    ensures
        offers_agree_after(spec_clean_expired_from(s, ctx, ids, i)),
    decreases ids.len() - i,
{
    if 0 <= i < ids.len() {
        if s.offer_by_id.contains_key(ids[i]) {
            lemma_offer_remove_agree(s, ids[i], s.offer_by_id[ids[i]]);
        }
        match crate::admin::spec_clean_expired_one(s, ctx, ids[i]) {
            Ok((s1, a)) => {
                lemma_clean_expired_from_agree(s1, ctx, ids, i + 1);
                lemma_prefixed_offers(a, spec_clean_expired_from(s1, ctx, ids, i + 1));
            },
            Err(_) => {},
        }
    }
}

proof fn lemma_withdraw_global_offers_from_agree(s: Store, ctx: ChainContext, ids: Seq<u64>, i: int)
    requires
        offer_indexes_agree(s),
    ensures
        offers_agree_after(spec_withdraw_global_offers_from(s, ctx, ids, i)),
    decreases ids.len() - i,
{
    if 0 <= i < ids.len() {
        if s.global_offer.contains_key(ids[i]) {
            lemma_global_offer_remove_agree(s, ctx, s.global_offer[ids[i]], true);
        }
        match spec_withdraw_global_offer_one(s, ctx, ids[i]) {
            Ok((s1, a)) => {
                lemma_withdraw_global_offers_from_agree(s1, ctx, ids, i + 1);
                lemma_prefixed_offers(a, spec_withdraw_global_offers_from(s1, ctx, ids, i + 1));
            },
            Err(_) => {},
        }
    }
}

/// The admin endpoints that withdraw offers (`deleteOffersByWallet`,
/// `cleanExpiredOffers`, `withdrawGlobalOffers`) keep the offer indexes and
/// records in agreement.
pub proof fn law_admin_withdrawals_keep_offers_agree(s: Store, ctx: ChainContext, user: u64, ids: Seq<u64>)
    requires
        offer_indexes_agree(s),
    ensures
        offers_agree_after(spec_delete_user_offers(s, ctx, user)),
        offers_agree_after(spec_clean_expired_offers(s, ctx, ids)),
        offers_agree_after(spec_withdraw_global_offers(s, ctx, ids)),
{
    lemma_withdraw_offers_from_agree(s, first_offers(s, user), 0);
    lemma_clean_expired_from_agree(s, ctx, ids, 0);
    lemma_withdraw_global_offers_from_agree(s, ctx, ids, 0);
}

} // verus!
