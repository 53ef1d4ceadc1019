//! Read-only queries on the marketplace.
use vstd::prelude::*;

use crate::auction::{Address, Auction, BulkOffers, GlobalOffer, TokenId, TokensOnSale};
use crate::collections::set_at;
use crate::errors::MarketError;
use crate::storage::{find_nft_data, ChainContext, Marketplace, StorageModule, Store};

verus! {

/// The ids of `listings` from position `from` on, at most `count` of them.
pub open spec fn listings_page(listings: Seq<u64>, from: int, count: int) -> Seq<u64> {
    let start = if from < listings.len() { from } else { listings.len() as int };
    let end = if start + count < listings.len() { start + count } else { listings.len() as int };
    listings.subrange(start, end)
}

/// The listing ids of `token` under each of `nonces` from position `i` on, in order.
pub open spec fn auction_ids_from(s: Store, token: TokenId, nonces: Seq<u64>, i: int) -> Seq<u64>
    decreases nonces.len() - i,
{
    if i >= nonces.len() || i < 0 {
        seq![]
    } else {
        set_at(s.token_auction_ids, (token, nonces[i])) + auction_ids_from(s, token, nonces, i + 1)
    }
}

/// The listing ids of every nonce of `token` on sale.
pub open spec fn ticker_auction_ids(s: Store, token: TokenId) -> Seq<u64> {
    auction_ids_from(s, token, set_at(s.token_items_for_sale, token), 0)
}

/// Whether every one of `ids` is a listing.
pub open spec fn all_listed(s: Store, ids: Seq<u64>) -> bool {
    forall|j: int| 0 <= j < ids.len() ==> s.auction_by_id.contains_key(#[trigger] ids[j])
}

/// Whether every one of `ids` is an offer.
pub open spec fn all_offers(s: Store, ids: Seq<u64>) -> bool {
    forall|j: int| 0 <= j < ids.len() ==> s.offer_by_id.contains_key(#[trigger] ids[j])
}

/// A listing, with the kind of its token.
pub open spec fn on_sale(s: Store, ctx: ChainContext, id: u64) -> TokensOnSale {
    let a = s.auction_by_id[id];
    TokensOnSale {
        auction: a,
        auction_id: id,
        token_type: find_nft_data(ctx.nft_data@, a.auctioned_token_type, a.auctioned_token_nonce).token_type,
    }
}

/// The offers of `offers` from position `i` on that expired before `now`.
pub open spec fn expired_from(s: Store, now: u64, offers: Seq<u64>, i: int) -> Seq<u64>
    decreases offers.len() - i,
{
    if i >= offers.len() || i < 0 {
        seq![]
    } else if s.offer_by_id[offers[i]].deadline < now {
        seq![offers[i]] + expired_from(s, now, offers, i + 1)
    } else {
        expired_from(s, now, offers, i + 1)
    }
}

/// The offer ids of `token` under each of `nonces` from position `i` on, each with its nonce.
pub open spec fn offer_ids_from(s: Store, token: TokenId, nonces: Seq<u64>, i: int) -> Seq<(u64, u64)>
    decreases nonces.len() - i,
{
    if i >= nonces.len() || i < 0 {
        seq![]
    } else {
        set_at(s.token_offers_ids, (token, nonces[i])).map_values(|id: u64| (id, nonces[i]))
            + offer_ids_from(s, token, nonces, i + 1)
    }
}

/// Those of `ids` from position `i` on that are offers, with their offers.
pub open spec fn bulk_offers_from(s: Store, ids: Seq<u64>, i: int) -> Seq<BulkOffers>
    decreases ids.len() - i,
{
    if i >= ids.len() || i < 0 {
        seq![]
    } else if s.offer_by_id.contains_key(ids[i]) {
        let o = s.offer_by_id[ids[i]];
        seq![BulkOffers { offer: o, offer_id: ids[i], nonce: o.token_nonce }] + bulk_offers_from(s, ids, i + 1)
    } else {
        bulk_offers_from(s, ids, i + 1)
    }
}

/// Those of `ids` from position `i` on that are global offers, as global offers.
pub open spec fn global_offers_from(s: Store, ids: Seq<u64>, i: int) -> Seq<GlobalOffer>
    decreases ids.len() - i,
{
    if i >= ids.len() || i < 0 {
        seq![]
    } else if s.global_offer.contains_key(ids[i]) {
        seq![s.global_offer[ids[i]]] + global_offers_from(s, ids, i + 1)
    } else {
        global_offers_from(s, ids, i + 1)
    }
}

/// Those of `ids` from position `i` on that are listings, with the kind of their token.
pub open spec fn bulk_listings_from(s: Store, ctx: ChainContext, ids: Seq<u64>, i: int) -> Seq<TokensOnSale>
    decreases ids.len() - i,
{
    if i >= ids.len() || i < 0 {
        seq![]
    } else if s.auction_by_id.contains_key(ids[i]) {
        seq![on_sale(s, ctx, ids[i])] + bulk_listings_from(s, ctx, ids, i + 1)
    } else {
        bulk_listings_from(s, ctx, ids, i + 1)
    }
}

/// The queries.
pub trait ViewsModule: StorageModule {
    /// `getListingsCount`
    fn get_listings_count(&self) -> (r: usize)
        requires
            self.inv(),
        ensures
            r == self.store().listings.len(),
    ;

    /// `getOffersCount`
    fn get_offers_count(&self) -> (r: usize)
        requires
            self.inv(),
        ensures
            r == self.store().offers.len(),
    ;

    /// `getGlobalOffersCount`
    fn get_global_offers_count(&self) -> (r: usize)
        requires
            self.inv(),
        ensures
            r == self.store().global_offer_ids.len(),
    ;

    /// `getListings`: at most `to` listing ids, from position `from` on.
    fn get_listings(&self, from: usize, to: usize) -> (r: Vec<u64>)
        requires
            self.inv(),
        ensures
            r@ == listings_page(self.store().listings, from as int, to as int),
    ;

    /// `getCollectionsCount`
    fn get_collections_count(&self) -> (r: usize)
        requires
            self.inv(),
        ensures
            r == self.store().collections_listed.len(),
    ;

    /// `isCollectionListed`
    fn is_collection_listed(&self, token: TokenId) -> (r: bool)
        requires
            self.inv(),
        ensures
            r == self.store().collections_listed.contains(token),
    ;

    /// `expiredOffersCount`: the offers whose deadline has passed; every
    /// offer id on record must have its offer.
    fn expired_offers_count(&self, ctx: &ChainContext) -> (r: Result<Vec<u64>, MarketError>)
        requires
            self.inv(),
        ensures
            r is Ok <==> all_offers(self.store(), self.store().offers),
            r is Ok ==> r->Ok_0@ == expired_from(self.store(), ctx.timestamp, self.store().offers, 0),
            r is Err ==> r->Err_0 == MarketError::OfferNotFound,
    ;

    /// `getAcceptedTokensCount`
    fn get_accepted_tokens_count(&self) -> (r: usize)
        requires
            self.inv(),
        ensures
            r == self.store().accepted_tokens.len(),
    ;

    /// `getTokenItemsForSaleCount`
    fn get_token_items_for_sale_count(&self, token: TokenId) -> (r: usize)
        requires
            self.inv(),
        ensures
            r == set_at(self.store().token_items_for_sale, token).len(),
    ;

    /// `getOnSaleTokensForTicker`: the listings of `token` under `nonces`,
    /// none when nothing of `token` is on sale.
    fn get_on_sale_tokens_for_ticker(&self, ctx: &ChainContext, token: TokenId, nonces: &Vec<u64>) -> (r: Result<
        Vec<TokensOnSale>,
        MarketError,
    >)
        requires
            self.inv(),
        ensures
            ({
                let ids = if set_at(self.store().token_items_for_sale, token).len() == 0 {
                    Seq::<u64>::empty()
                } else {
                    auction_ids_from(self.store(), token, nonces@, 0)
                };
                &&& r is Ok <==> all_listed(self.store(), ids)
                &&& r is Ok ==> r->Ok_0@ == ids.map_values(|id: u64| on_sale(self.store(), *ctx, id))
                &&& r is Err ==> r->Err_0 == MarketError::AuctionNotFound
            }),
    ;

    /// `getAuctionsForTicker`: the listing ids of every nonce of `token` on sale.
    fn get_auctions_for_ticker(&self, token: TokenId) -> (r: Vec<u64>)
        requires
            self.inv(),
        ensures
            r@ == ticker_auction_ids(self.store(), token),
    ;

    /// `getFullAuctionsForTicker`: the listings of every nonce of `token` on sale.
    fn get_full_auctions_for_ticker(&self, token: TokenId) -> (r: Result<Vec<Auction>, MarketError>)
        requires
            self.inv(),
        ensures
            r is Ok <==> all_listed(self.store(), ticker_auction_ids(self.store(), token)),
            r is Ok ==> r->Ok_0@ == ticker_auction_ids(self.store(), token).map_values(
                |id: u64| self.store().auction_by_id[id],
            ),
            r is Err ==> r->Err_0 == MarketError::AuctionNotFound,
    ;

    /// `getTokenOffers`: the offers on `token` under each of `nonces`.
    fn get_token_offers(&self, token: TokenId, nonces: &Vec<u64>) -> (r: Result<Vec<BulkOffers>, MarketError>)
        requires
            self.inv(),
        ensures
            ({
                let pairs = offer_ids_from(self.store(), token, nonces@, 0);
                &&& r is Ok <==> all_offers(self.store(), pairs.map_values(|p: (u64, u64)| p.0))
                &&& r is Ok ==> r->Ok_0@ == pairs.map_values(
                    |p: (u64, u64)| BulkOffers { offer: self.store().offer_by_id[p.0], offer_id: p.0, nonce: p.1 },
                )
                &&& r is Err ==> r->Err_0 == MarketError::OfferNotFound
            }),
    ;

    /// `getBulkOffers`: those of `offers` that are offers.
    fn get_bulk_offers(&self, offers: &Vec<u64>) -> (r: Vec<BulkOffers>)
        requires
            self.inv(),
        ensures
            r@ == bulk_offers_from(self.store(), offers@, 0),
    ;

    /// `getBulkGlobalOffers`: those of `offers` that are global offers.
    fn get_bulk_global_offers(&self, offers: &Vec<u64>) -> (r: Vec<GlobalOffer>)
        requires
            self.inv(),
        ensures
            r@ == global_offers_from(self.store(), offers@, 0),
    ;

    /// `getBulkGlobalOffersByCollection`: the global offers on `ticker`.
    fn get_bulk_global_offers_by_collection(&self, ticker: TokenId) -> (r: Vec<GlobalOffer>)
        requires
            self.inv(),
        ensures
            r@ == global_offers_from(self.store(), set_at(self.store().collection_global_offers, ticker), 0),
    ;

    /// `getBulkListings`: those of `auction_ids` that are listings.
    fn get_bulk_listings(&self, ctx: &ChainContext, auction_ids: &Vec<u64>) -> (r: Vec<TokensOnSale>)
        requires
            self.inv(),
        ensures
            r@ == bulk_listings_from(self.store(), *ctx, auction_ids@, 0),
    ;

    /// `doesAuctionExist`
    fn does_auction_exist(&self, auction_id: u64) -> (r: bool)
        requires
            self.inv(),
        ensures
            r == self.store().auction_by_id.contains_key(auction_id),
    ;

    /// `doesGlobalOfferExist`
    fn does_global_offer_exist(&self, offer_id: u64) -> (r: bool)
        requires
            self.inv(),
        ensures
            r == self.store().global_offer.contains_key(offer_id),
    ;

    /// `doesOfferExist`
    fn does_offer_exist(&self, offer_id: u64) -> (r: bool)
        requires
            self.inv(),
        ensures
            r == self.store().offer_by_id.contains_key(offer_id),
    ;

    /// `isSCWl`
    fn is_sc_wl(&self, sc: Address) -> (r: bool)
        requires
            self.inv(),
        ensures
            r == self.store().whitelisted_contracts.contains(sc),
    ;
}

impl Marketplace {
    /// The listing ids of `token` under each of `nonces` (see `auction_ids_from`).
    fn collect_auction_ids(&self, token: TokenId, nonces: &Vec<u64>) -> (r: Vec<u64>)
        requires
            self.inv(),
        ensures
            r@ == auction_ids_from(self.store(), token, nonces@, 0),
    {
        let mut res: Vec<u64> = Vec::new();
        let mut i: usize = 0;
        while i < nonces.len()
            invariant
                self.inv(),
                i <= nonces@.len(),
                res@ + auction_ids_from(self.store(), token, nonces@, i as int) == auction_ids_from(self.store(), token, nonces@, 0),
            decreases nonces@.len() - i,
        {
            let ids = self.token_auction_ids.to_vec(&(token, nonces[i]));
            let ghost r0 = res@;
            let mut k: usize = 0;
            while k < ids.len()
                invariant
                    k <= ids@.len(),
                    res@ == r0 + ids@.subrange(0, k as int),
                decreases ids@.len() - k,
            {
                res.push(ids[k]);
                k += 1;
                assert(res@ =~= r0 + ids@.subrange(0, k as int));
            }
            assert(ids@.subrange(0, ids@.len() as int) =~= ids@);
            assert(r0 + (ids@ + auction_ids_from(self.store(), token, nonces@, i + 1)) =~= res@ + auction_ids_from(self.store(), token, nonces@, i + 1));
            i += 1;
        }
        assert(res@ + seq![] =~= res@);
        res
    }

    /// The offer ids of `token` under each of `nonces`, with their nonces (see `offer_ids_from`).
    fn collect_offer_ids(&self, token: TokenId, nonces: &Vec<u64>) -> (r: Vec<(u64, u64)>)
        requires
            self.inv(),
        ensures
            r@ == offer_ids_from(self.store(), token, nonces@, 0),
    {
        let mut res: Vec<(u64, u64)> = Vec::new();
        let mut i: usize = 0;
        while i < nonces.len()
            invariant
                self.inv(),
                i <= nonces@.len(),
                res@ + offer_ids_from(self.store(), token, nonces@, i as int) == offer_ids_from(self.store(), token, nonces@, 0),
            decreases nonces@.len() - i,
        {
            let nonce = nonces[i];
            let ids = self.token_offers_ids.to_vec(&(token, nonce));
            let ghost r0 = res@;
            let ghost block = ids@.map_values(|id: u64| (id, nonce));
            let mut k: usize = 0;
            while k < ids.len()
                invariant
                    k <= ids@.len(),
                    block == ids@.map_values(|id: u64| (id, nonce)),
                    res@ == r0 + block.subrange(0, k as int),
                decreases ids@.len() - k,
            {
                res.push((ids[k], nonce));
                k += 1;
                assert(res@ =~= r0 + block.subrange(0, k as int));
            }
            assert(block.subrange(0, ids@.len() as int) =~= block);
            assert(r0 + (block + offer_ids_from(self.store(), token, nonces@, i + 1)) =~= res@ + offer_ids_from(self.store(), token, nonces@, i + 1));
            i += 1;
        }
        assert(res@ + seq![] =~= res@);
        res
    }

    /// The offers of `pairs` (id and nonce), which must all be offers.
    fn offers_of(&self, pairs: &Vec<(u64, u64)>) -> (r: Result<Vec<BulkOffers>, MarketError>)
        requires
            self.inv(),
        ensures
            r is Ok <==> all_offers(self.store(), pairs@.map_values(|p: (u64, u64)| p.0)),
            r is Ok ==> r->Ok_0@ == pairs@.map_values(
                |p: (u64, u64)| BulkOffers { offer: self.store().offer_by_id[p.0], offer_id: p.0, nonce: p.1 },
            ),
            r is Err ==> r->Err_0 == MarketError::OfferNotFound,
    {
        let ghost ids = pairs@.map_values(|p: (u64, u64)| p.0);
        let mut res: Vec<BulkOffers> = Vec::new();
        let mut i: usize = 0;
        while i < pairs.len()
            invariant
                self.inv(),
                i <= pairs@.len(),
                ids == pairs@.map_values(|p: (u64, u64)| p.0),
                forall|j: int| 0 <= j < i ==> self.store().offer_by_id.contains_key(#[trigger] ids[j]),
                res@ == pairs@.subrange(0, i as int).map_values(
                    |p: (u64, u64)| BulkOffers { offer: self.store().offer_by_id[p.0], offer_id: p.0, nonce: p.1 },
                ),
            decreases pairs@.len() - i,
        {
            let (id, nonce) = pairs[i];
            match self.offer_by_id.get(&id) {
                Some(o) => {
                    res.push(BulkOffers { offer: *o, offer_id: id, nonce });
                },
                None => {
                    assert(ids[i as int] == id);
                    return Err(MarketError::OfferNotFound);
                },
            }
            assert(ids[i as int] == id);
            i += 1;
            assert(res@ =~= pairs@.subrange(0, i as int).map_values(
                |p: (u64, u64)| BulkOffers { offer: self.store().offer_by_id[p.0], offer_id: p.0, nonce: p.1 },
            ));
        }
        assert(pairs@.subrange(0, pairs@.len() as int) =~= pairs@);
        Ok(res)
    }

    /// The listings of `ids`, which must all be listings.
    fn listings_of(&self, ids: &Vec<u64>) -> (r: Result<Vec<Auction>, MarketError>)
        requires
            self.inv(),
        ensures
            r is Ok <==> all_listed(self.store(), ids@),
            r is Ok ==> r->Ok_0@ == ids@.map_values(|id: u64| self.store().auction_by_id[id]),
            r is Err ==> r->Err_0 == MarketError::AuctionNotFound,
    {
        let mut res: Vec<Auction> = Vec::new();
        let mut i: usize = 0;
        while i < ids.len()
            invariant
                self.inv(),
                i <= ids@.len(),
                all_listed(self.store(), ids@.subrange(0, i as int)),
                res@ == ids@.subrange(0, i as int).map_values(|id: u64| self.store().auction_by_id[id]),
            decreases ids@.len() - i,
        {
            match self.auction_by_id.get(&ids[i]) {
                Some(a) => {
                    res.push(*a);
                },
                None => {
                    assert(!self.store().auction_by_id.contains_key(ids@[i as int]));
                    return Err(MarketError::AuctionNotFound);
                },
            }
            i += 1;
            assert(res@ =~= ids@.subrange(0, i as int).map_values(|id: u64| self.store().auction_by_id[id]));
            assert(forall|j: int| 0 <= j < i ==> ids@.subrange(0, i as int)[j] == ids@[j]);
        }
        assert(ids@.subrange(0, ids@.len() as int) =~= ids@);
        Ok(res)
    }

    /// The listings of `ids` with the kind of their token; they must all be listings.
    fn tokens_on_sale_of(&self, ctx: &ChainContext, ids: &Vec<u64>) -> (r: Result<Vec<TokensOnSale>, MarketError>)
        requires
            self.inv(),
        ensures
            r is Ok <==> all_listed(self.store(), ids@),
            r is Ok ==> r->Ok_0@ == ids@.map_values(|id: u64| on_sale(self.store(), *ctx, id)),
            r is Err ==> r->Err_0 == MarketError::AuctionNotFound,
    {
        let mut res: Vec<TokensOnSale> = Vec::new();
        let mut i: usize = 0;
        while i < ids.len()
            invariant
                self.inv(),
                i <= ids@.len(),
                all_listed(self.store(), ids@.subrange(0, i as int)),
                res@ == ids@.subrange(0, i as int).map_values(|id: u64| on_sale(self.store(), *ctx, id)),
            decreases ids@.len() - i,
        {
            let id = ids[i];
            match self.auction_by_id.get(&id) {
                Some(a) => {
                    let data = ctx.esdt_token_data(a.auctioned_token_type, a.auctioned_token_nonce);
                    res.push(TokensOnSale { auction: *a, auction_id: id, token_type: data.token_type });
                },
                None => {
                    assert(!self.store().auction_by_id.contains_key(ids@[i as int]));
                    return Err(MarketError::AuctionNotFound);
                },
            }
            i += 1;
            assert(res@ =~= ids@.subrange(0, i as int).map_values(|id: u64| on_sale(self.store(), *ctx, id)));
            assert(forall|j: int| 0 <= j < i ==> ids@.subrange(0, i as int)[j] == ids@[j]);
        }
        assert(ids@.subrange(0, ids@.len() as int) =~= ids@);
        Ok(res)
    }
}

impl ViewsModule for Marketplace {
    fn get_listings_count(&self) -> (r: usize) {
        self.listings.len()
    }

    fn get_offers_count(&self) -> (r: usize) {
        self.offers.len()
    }

    fn get_global_offers_count(&self) -> (r: usize) {
        self.global_offer_ids.len()
    }

    fn get_listings(&self, from: usize, to: usize) -> (r: Vec<u64>) {
        let len = self.listings.len();
        let start = if from < len { from } else { len };
        let end = if to < len - start { start + to } else { len };
        let mut res: Vec<u64> = Vec::new();
        let mut i: usize = start;
        while i < end
            invariant
                start <= i <= end,
                end <= len,
                len == self.store().listings.len(),
                self.inv(),
                res@ == self.store().listings.subrange(start as int, i as int),
            decreases end - i,
        {
            res.push(self.listings.get(i));
            i += 1;
            assert(res@ =~= self.store().listings.subrange(start as int, i as int));
        }
        res
    }

    fn get_collections_count(&self) -> (r: usize) {
        self.collections_listed.len()
    }

    fn is_collection_listed(&self, token: TokenId) -> (r: bool) {
        self.collections_listed.contains(&token)
    }

    fn expired_offers_count(&self, ctx: &ChainContext) -> (r: Result<Vec<u64>, MarketError>) {
        let ids = self.offers.to_vec();
        let now = ctx.timestamp;
        let mut res: Vec<u64> = Vec::new();
        let mut i: usize = 0;
        while i < ids.len()
            invariant
                self.inv(),
                i <= ids@.len(),
                ids@ == self.store().offers,
                all_offers(self.store(), ids@.subrange(0, i as int)),
                all_offers(self.store(), ids@) ==> res@ + expired_from(self.store(), now, ids@, i as int)
                    == expired_from(self.store(), now, ids@, 0),
            decreases ids@.len() - i,
        {
            let id = ids[i];
            match self.offer_by_id.get(&id) {
                Some(o) => {
                    if o.deadline < now {
                        let ghost r0 = res@;
                        res.push(id);
                        assert(r0 + (seq![id] + expired_from(self.store(), now, ids@, i + 1)) =~= res@ + expired_from(self.store(), now, ids@, i + 1));
                    }
                },
                None => {
                    assert(!self.store().offer_by_id.contains_key(ids@[i as int]));
                    return Err(MarketError::OfferNotFound);
                },
            }
            i += 1;
            assert(forall|j: int| 0 <= j < i ==> ids@.subrange(0, i as int)[j] == ids@[j]);
        }
        assert(ids@.subrange(0, ids@.len() as int) =~= ids@);
        assert(res@ + seq![] =~= res@);
        Ok(res)
    }

    fn get_accepted_tokens_count(&self) -> (r: usize) {
        self.accepted_tokens.len()
    }

    fn get_token_items_for_sale_count(&self, token: TokenId) -> (r: usize) {
        self.token_items_for_sale.len(&token)
    }

    fn get_on_sale_tokens_for_ticker(&self, ctx: &ChainContext, token: TokenId, nonces: &Vec<u64>) -> (r: Result<
        Vec<TokensOnSale>,
        MarketError,
    >) {
        if self.token_items_for_sale.len(&token) == 0 {
            let res: Vec<TokensOnSale> = Vec::new();
            assert(res@ =~= Seq::<u64>::empty().map_values(|id: u64| on_sale(self.store(), *ctx, id)));
            return Ok(res);
        }
        let ids = self.collect_auction_ids(token, nonces);
        self.tokens_on_sale_of(ctx, &ids)
    }

    fn get_auctions_for_ticker(&self, token: TokenId) -> (r: Vec<u64>) {
        let nonces = self.token_items_for_sale.to_vec(&token);
        self.collect_auction_ids(token, &nonces)
    }

    fn get_full_auctions_for_ticker(&self, token: TokenId) -> (r: Result<Vec<Auction>, MarketError>) {
        let ids = self.get_auctions_for_ticker(token);
        self.listings_of(&ids)
    }

    fn get_token_offers(&self, token: TokenId, nonces: &Vec<u64>) -> (r: Result<Vec<BulkOffers>, MarketError>) {
        let pairs = self.collect_offer_ids(token, nonces);
        self.offers_of(&pairs)
    }

    fn get_bulk_offers(&self, offers: &Vec<u64>) -> (r: Vec<BulkOffers>) {
        let mut res: Vec<BulkOffers> = Vec::new();
        let mut i: usize = 0;
        while i < offers.len()
            invariant
                self.inv(),
                i <= offers@.len(),
                res@ + bulk_offers_from(self.store(), offers@, i as int) == bulk_offers_from(self.store(), offers@, 0),
            decreases offers@.len() - i,
        {
            let id = offers[i];
            let ghost r0 = res@;
            match self.offer_by_id.get(&id) {
                Some(o) => {
                    res.push(BulkOffers { offer: *o, offer_id: id, nonce: o.token_nonce });
                    assert(r0 + (seq![BulkOffers { offer: *o, offer_id: id, nonce: o.token_nonce }] + bulk_offers_from(self.store(), offers@, i + 1))
                        =~= res@ + bulk_offers_from(self.store(), offers@, i + 1));
                },
                None => {},
            }
            i += 1;
        }
        assert(res@ + seq![] =~= res@);
        res
    }

    fn get_bulk_global_offers(&self, offers: &Vec<u64>) -> (r: Vec<GlobalOffer>) {
        let mut res: Vec<GlobalOffer> = Vec::new();
        let mut i: usize = 0;
        while i < offers.len()
            invariant
                self.inv(),
                i <= offers@.len(),
                res@ + global_offers_from(self.store(), offers@, i as int) == global_offers_from(self.store(), offers@, 0),
            decreases offers@.len() - i,
        {
            let id = offers[i];
            let ghost r0 = res@;
            match self.global_offer.get(&id) {
                Some(o) => {
                    res.push(*o);
                    assert(r0 + (seq![*o] + global_offers_from(self.store(), offers@, i + 1)) =~= res@ + global_offers_from(
                        self.store(),
                        offers@,
                        i + 1,
                    ));
                },
                None => {},
            }
            i += 1;
        }
        assert(res@ + seq![] =~= res@);
        res
    }

    fn get_bulk_global_offers_by_collection(&self, ticker: TokenId) -> (r: Vec<GlobalOffer>) {
        let ids = self.collection_global_offers.to_vec(&ticker);
        self.get_bulk_global_offers(&ids)
    }

    fn get_bulk_listings(&self, ctx: &ChainContext, auction_ids: &Vec<u64>) -> (r: Vec<TokensOnSale>) {
        let mut res: Vec<TokensOnSale> = Vec::new();
        let mut i: usize = 0;
        while i < auction_ids.len()
            invariant
                self.inv(),
                i <= auction_ids@.len(),
                res@ + bulk_listings_from(self.store(), *ctx, auction_ids@, i as int) == bulk_listings_from(
                    self.store(),
                    *ctx,
                    auction_ids@,
                    0,
                ),
            decreases auction_ids@.len() - i,
        {
            let id = auction_ids[i];
            let ghost r0 = res@;
            match self.auction_by_id.get(&id) {
                Some(a) => {
                    let data = ctx.esdt_token_data(a.auctioned_token_type, a.auctioned_token_nonce);
                    let item = TokensOnSale { auction: *a, auction_id: id, token_type: data.token_type };
                    res.push(item);
                    assert(r0 + (seq![item] + bulk_listings_from(self.store(), *ctx, auction_ids@, i + 1)) =~= res@
                        + bulk_listings_from(self.store(), *ctx, auction_ids@, i + 1));
                },
                None => {},
            }
            i += 1;
        }
        assert(res@ + seq![] =~= res@);
        res
    }

    fn does_auction_exist(&self, auction_id: u64) -> (r: bool) {
        self.auction_by_id.contains_key(&auction_id)
    }

    fn does_global_offer_exist(&self, offer_id: u64) -> (r: bool) {
        self.global_offer.contains_key(&offer_id)
    }

    fn does_offer_exist(&self, offer_id: u64) -> (r: bool) {
        self.offer_by_id.contains_key(&offer_id)
    }

    fn is_sc_wl(&self, sc: Address) -> (r: bool) {
        self.whitelisted_contracts.contains(&sc)
    }
}

} // verus!
