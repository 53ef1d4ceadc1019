//! The contract storage, its mathematical view, and the facts about the chain
//! that a call is made with.
use vstd::prelude::*;

use crate::auction::{
    Address, Auction, CollectionFeeConfig, GlobalOffer, Offer, PaymentToken, TokenId, ZERO_ADDRESS,
};
use crate::collections::{
    amount_at, lemma_seq_with_within, lemma_seq_without_within, seq_with, seq_without, set_at, with_set, AmountMap,
    KeyMap, OrderedSet, SetFamily,
};

verus! {

/// The storage of the marketplace contract.
#[derive(Clone)]
pub struct Marketplace {
    pub signer: Address,
    pub wrapping: Address,
    pub wrapping_token: TokenId,
    pub aggregator_sc: Address,
    pub accumulator: Address,
    pub bid_cut_percentage: u128,
    pub status: bool,
    pub offers_by_wallet: SetFamily<Address, u64>,
    pub check_offer_sent: OrderedSet<(Address, TokenId, u64, PaymentToken)>,
    pub listings_by_wallet: SetFamily<Address, u64>,
    pub listings_bids: SetFamily<Address, u64>,
    pub token_items_for_sale: SetFamily<TokenId, u64>,
    pub token_auction_ids: SetFamily<(TokenId, u64), u64>,
    pub token_offers_ids: SetFamily<(TokenId, u64), u64>,
    pub token_items_quantity_for_sale: AmountMap<(TokenId, u64)>,
    pub accepted_tokens: OrderedSet<PaymentToken>,
    pub blacklist_wallets: OrderedSet<Address>,
    pub whitelisted_contracts: OrderedSet<Address>,
    pub claimable_amount: AmountMap<(Address, PaymentToken, u64)>,
    pub claimable_tokens: SetFamily<Address, PaymentToken>,
    pub claimable_token_nonces: SetFamily<(Address, PaymentToken), u64>,
    pub collections_listed: OrderedSet<TokenId>,
    pub listings: OrderedSet<u64>,
    pub offers: OrderedSet<u64>,
    pub auction_by_id: KeyMap<u64, Auction>,
    pub offer_by_id: KeyMap<u64, Offer>,
    pub last_valid_auction_id: u64,
    pub reward_balance: u128,
    pub reward_ticker: Option<PaymentToken>,
    pub special_reward_amount: AmountMap<TokenId>,
    pub reward_amount: u128,
    pub last_valid_offer_id: u64,
    pub last_valid_global_offer_id: u64,
    pub global_offer_ids: OrderedSet<u64>,
    pub global_offer: KeyMap<u64, GlobalOffer>,
    pub collection_global_offers: SetFamily<TokenId, u64>,
    pub user_global_offers: SetFamily<Address, u64>,
    pub user_collection_global_offers: SetFamily<(Address, TokenId), u64>,
    pub collection_config: KeyMap<TokenId, CollectionFeeConfig>,
    pub freezed_auctions: OrderedSet<u64>,
    pub user_funds: AmountMap<(Address, PaymentToken, u64)>,
}

/// The mathematical view of the contract storage.
#[verifier::ext_equal]
pub struct Store {
    pub signer: Address,
    pub wrapping: Address,
    pub wrapping_token: TokenId,
    pub aggregator_sc: Address,
    pub accumulator: Address,
    pub bid_cut_percentage: u128,
    pub status: bool,
    pub offers_by_wallet: Map<Address, Seq<u64>>,
    pub check_offer_sent: Seq<(Address, TokenId, u64, PaymentToken)>,
    pub listings_by_wallet: Map<Address, Seq<u64>>,
    pub listings_bids: Map<Address, Seq<u64>>,
    pub token_items_for_sale: Map<TokenId, Seq<u64>>,
    pub token_auction_ids: Map<(TokenId, u64), Seq<u64>>,
    pub token_offers_ids: Map<(TokenId, u64), Seq<u64>>,
    pub token_items_quantity_for_sale: Map<(TokenId, u64), u128>,
    pub accepted_tokens: Seq<PaymentToken>,
    pub blacklist_wallets: Seq<Address>,
    pub whitelisted_contracts: Seq<Address>,
    pub claimable_amount: Map<(Address, PaymentToken, u64), u128>,
    pub claimable_tokens: Map<Address, Seq<PaymentToken>>,
    pub claimable_token_nonces: Map<(Address, PaymentToken), Seq<u64>>,
    pub collections_listed: Seq<TokenId>,
    pub listings: Seq<u64>,
    pub offers: Seq<u64>,
    pub auction_by_id: Map<u64, Auction>,
    pub offer_by_id: Map<u64, Offer>,
    pub last_valid_auction_id: u64,
    pub reward_balance: u128,
    pub reward_ticker: Option<PaymentToken>,
    pub special_reward_amount: Map<TokenId, u128>,
    pub reward_amount: u128,
    pub last_valid_offer_id: u64,
    pub last_valid_global_offer_id: u64,
    pub global_offer_ids: Seq<u64>,
    pub global_offer: Map<u64, GlobalOffer>,
    pub collection_global_offers: Map<TokenId, Seq<u64>>,
    pub user_global_offers: Map<Address, Seq<u64>>,
    pub user_collection_global_offers: Map<(Address, TokenId), Seq<u64>>,
    pub collection_config: Map<TokenId, CollectionFeeConfig>,
    pub freezed_auctions: Seq<u64>,
    pub user_funds: Map<(Address, PaymentToken, u64), u128>,
}

impl View for Marketplace {
    type V = Store;

    open spec fn view(&self) -> Store {
        Store {
            signer: self.signer,
            wrapping: self.wrapping,
            wrapping_token: self.wrapping_token,
            aggregator_sc: self.aggregator_sc,
            accumulator: self.accumulator,
            bid_cut_percentage: self.bid_cut_percentage,
            status: self.status,
            offers_by_wallet: self.offers_by_wallet@,
            check_offer_sent: self.check_offer_sent@,
            listings_by_wallet: self.listings_by_wallet@,
            listings_bids: self.listings_bids@,
            token_items_for_sale: self.token_items_for_sale@,
            token_auction_ids: self.token_auction_ids@,
            token_offers_ids: self.token_offers_ids@,
            token_items_quantity_for_sale: self.token_items_quantity_for_sale@,
            accepted_tokens: self.accepted_tokens@,
            blacklist_wallets: self.blacklist_wallets@,
            whitelisted_contracts: self.whitelisted_contracts@,
            claimable_amount: self.claimable_amount@,
            claimable_tokens: self.claimable_tokens@,
            claimable_token_nonces: self.claimable_token_nonces@,
            collections_listed: self.collections_listed@,
            listings: self.listings@,
            offers: self.offers@,
            auction_by_id: self.auction_by_id@,
            offer_by_id: self.offer_by_id@,
            last_valid_auction_id: self.last_valid_auction_id,
            reward_balance: self.reward_balance,
            reward_ticker: self.reward_ticker,
            special_reward_amount: self.special_reward_amount@,
            reward_amount: self.reward_amount,
            last_valid_offer_id: self.last_valid_offer_id,
            last_valid_global_offer_id: self.last_valid_global_offer_id,
            global_offer_ids: self.global_offer_ids@,
            global_offer: self.global_offer@,
            collection_global_offers: self.collection_global_offers@,
            user_global_offers: self.user_global_offers@,
            user_collection_global_offers: self.user_collection_global_offers@,
            collection_config: self.collection_config@,
            freezed_auctions: self.freezed_auctions@,
            user_funds: self.user_funds@,
        }
    }
}

impl Marketplace {
    /// Every collection of the storage is well formed.
    pub open spec fn wf(&self) -> bool {
        &&& self.offers_by_wallet.wf()
        &&& self.check_offer_sent.wf()
        &&& self.listings_by_wallet.wf()
        &&& self.listings_bids.wf()
        &&& self.token_items_for_sale.wf()
        &&& self.token_auction_ids.wf()
        &&& self.token_offers_ids.wf()
        &&& self.token_items_quantity_for_sale.wf()
        &&& self.accepted_tokens.wf()
        &&& self.blacklist_wallets.wf()
        &&& self.whitelisted_contracts.wf()
        &&& self.claimable_amount.wf()
        &&& self.claimable_tokens.wf()
        &&& self.claimable_token_nonces.wf()
        &&& self.collections_listed.wf()
        &&& self.listings.wf()
        &&& self.offers.wf()
        &&& self.auction_by_id.wf()
        &&& self.offer_by_id.wf()
        &&& self.special_reward_amount.wf()
        &&& self.global_offer_ids.wf()
        &&& self.global_offer.wf()
        &&& self.collection_global_offers.wf()
        &&& self.user_global_offers.wf()
        &&& self.user_collection_global_offers.wf()
        &&& self.collection_config.wf()
        &&& self.freezed_auctions.wf()
        &&& self.user_funds.wf()
        &&& offer_ids_counted(self.offer_by_id@, self.offers@, self.offers_by_wallet@, self.token_offers_ids@, self.last_valid_offer_id)
    }
}

/// No offer on record and no offer index holds an id beyond the last offer
/// id given.
pub open spec fn offer_ids_counted(
    offer_by_id: Map<u64, Offer>,
    offers: Seq<u64>,
    offers_by_wallet: Map<Address, Seq<u64>>,
    token_offers_ids: Map<(TokenId, u64), Seq<u64>>,
    last: u64,
) -> bool {
    &&& forall|id: u64| #[trigger] offer_by_id.contains_key(id) ==> id <= last
    &&& forall|id: u64| #[trigger] offers.contains(id) ==> id <= last
    &&& forall|a: Address, id: u64| #[trigger] set_at(offers_by_wallet, a).contains(id) ==> id <= last
    &&& forall|k: (TokenId, u64), id: u64| #[trigger] set_at(token_offers_ids, k).contains(id) ==> id <= last
}

impl Marketplace {
    /// No id set of a well-formed storage holds an id twice, no offer family
    /// keeps an empty set and no deposit is zero; as every endpoint keeps the
    /// storage well formed, this holds in every state.
    pub proof fn lemma_id_sets_hold_no_duplicates(&self)
        requires
            self.wf(),
        ensures
            self@.listings.no_duplicates(),
            self@.offers.no_duplicates(),
            self@.global_offer_ids.no_duplicates(),
            self@.freezed_auctions.no_duplicates(),
            self@.check_offer_sent.no_duplicates(),
            self@.collections_listed.no_duplicates(),
            self@.accepted_tokens.no_duplicates(),
            self@.blacklist_wallets.no_duplicates(),
            self@.whitelisted_contracts.no_duplicates(),
            forall|a: Address| #[trigger] set_at(self@.listings_by_wallet, a).no_duplicates(),
            forall|a: Address| #[trigger] set_at(self@.listings_bids, a).no_duplicates(),
            forall|a: Address| #[trigger] set_at(self@.offers_by_wallet, a).no_duplicates(),
            forall|a: Address| #[trigger] set_at(self@.user_global_offers, a).no_duplicates(),
            forall|t: TokenId| #[trigger] set_at(self@.token_items_for_sale, t).no_duplicates(),
            forall|t: TokenId| #[trigger] set_at(self@.collection_global_offers, t).no_duplicates(),
            forall|k: (TokenId, u64)| #[trigger] set_at(self@.token_auction_ids, k).no_duplicates(),
            forall|k: (TokenId, u64)| #[trigger] set_at(self@.token_offers_ids, k).no_duplicates(),
            forall|k: (Address, TokenId)| #[trigger] set_at(self@.user_collection_global_offers, k).no_duplicates(),
            forall|a: Address| #[trigger] self@.offers_by_wallet.contains_key(a) ==> self@.offers_by_wallet[a].len() > 0,
            forall|k: (TokenId, u64)| #[trigger] self@.token_offers_ids.contains_key(k) ==> self@.token_offers_ids[k].len() > 0,
            forall|k: (Address, PaymentToken, u64)| #[trigger] self@.user_funds.contains_key(k) ==> self@.user_funds[k] > 0,
    {
        self.user_funds.lemma_positive();
        self.listings.lemma_no_duplicates();
        self.offers.lemma_no_duplicates();
        self.global_offer_ids.lemma_no_duplicates();
        self.freezed_auctions.lemma_no_duplicates();
        self.check_offer_sent.lemma_no_duplicates();
        self.collections_listed.lemma_no_duplicates();
        self.accepted_tokens.lemma_no_duplicates();
        self.blacklist_wallets.lemma_no_duplicates();
        self.whitelisted_contracts.lemma_no_duplicates();
        self.listings_by_wallet.lemma_no_duplicates();
        self.listings_bids.lemma_no_duplicates();
        self.offers_by_wallet.lemma_no_duplicates();
        self.user_global_offers.lemma_no_duplicates();
        self.token_items_for_sale.lemma_no_duplicates();
        self.collection_global_offers.lemma_no_duplicates();
        self.token_auction_ids.lemma_no_duplicates();
        self.token_offers_ids.lemma_no_duplicates();
        self.user_collection_global_offers.lemma_no_duplicates();
    }

    /// A copy of the storage, to put back when a call fails.
    pub fn duplicate(&self) -> (r: Self)
        requires
            self.wf(),
        ensures
            r@ == self@,
            r.wf(),
    {
        Marketplace {
            signer: self.signer,
            wrapping: self.wrapping,
            wrapping_token: self.wrapping_token,
            aggregator_sc: self.aggregator_sc,
            accumulator: self.accumulator,
            bid_cut_percentage: self.bid_cut_percentage,
            status: self.status,
            offers_by_wallet: self.offers_by_wallet.duplicate(),
            check_offer_sent: self.check_offer_sent.duplicate(),
            listings_by_wallet: self.listings_by_wallet.duplicate(),
            listings_bids: self.listings_bids.duplicate(),
            token_items_for_sale: self.token_items_for_sale.duplicate(),
            token_auction_ids: self.token_auction_ids.duplicate(),
            token_offers_ids: self.token_offers_ids.duplicate(),
            token_items_quantity_for_sale: self.token_items_quantity_for_sale.duplicate(),
            accepted_tokens: self.accepted_tokens.duplicate(),
            blacklist_wallets: self.blacklist_wallets.duplicate(),
            whitelisted_contracts: self.whitelisted_contracts.duplicate(),
            claimable_amount: self.claimable_amount.duplicate(),
            claimable_tokens: self.claimable_tokens.duplicate(),
            claimable_token_nonces: self.claimable_token_nonces.duplicate(),
            collections_listed: self.collections_listed.duplicate(),
            listings: self.listings.duplicate(),
            offers: self.offers.duplicate(),
            auction_by_id: self.auction_by_id.duplicate(),
            offer_by_id: self.offer_by_id.duplicate(),
            last_valid_auction_id: self.last_valid_auction_id,
            reward_balance: self.reward_balance,
            reward_ticker: self.reward_ticker,
            special_reward_amount: self.special_reward_amount.duplicate(),
            reward_amount: self.reward_amount,
            last_valid_offer_id: self.last_valid_offer_id,
            last_valid_global_offer_id: self.last_valid_global_offer_id,
            global_offer_ids: self.global_offer_ids.duplicate(),
            global_offer: self.global_offer.duplicate(),
            collection_global_offers: self.collection_global_offers.duplicate(),
            user_global_offers: self.user_global_offers.duplicate(),
            user_collection_global_offers: self.user_collection_global_offers.duplicate(),
            collection_config: self.collection_config.duplicate(),
            freezed_auctions: self.freezed_auctions.duplicate(),
            user_funds: self.user_funds.duplicate(),
        }
    }
}

/// Forgetting an offer keeps every offer id within the last one given.
pub proof fn lemma_offer_ids_counted_remove(
    offer_by_id: Map<u64, Offer>,
    offers: Seq<u64>,
    offers_by_wallet: Map<Address, Seq<u64>>,
    token_offers_ids: Map<(TokenId, u64), Seq<u64>>,
    last: u64,
    id: u64,
    owner: Address,
    key: (TokenId, u64),
)
    requires
        offer_ids_counted(offer_by_id, offers, offers_by_wallet, token_offers_ids, last),
    ensures
        offer_ids_counted(
            offer_by_id.remove(id),
            seq_without(offers, id),
            with_set(offers_by_wallet, owner, seq_without(set_at(offers_by_wallet, owner), id)),
            with_set(token_offers_ids, key, seq_without(set_at(token_offers_ids, key), id)),
            last,
        ),
{
    let w = with_set(offers_by_wallet, owner, seq_without(set_at(offers_by_wallet, owner), id));
    let t = with_set(token_offers_ids, key, seq_without(set_at(token_offers_ids, key), id));
    assert forall|x: u64| #[trigger] seq_without(offers, id).contains(x) implies x <= last by {
        lemma_seq_without_within(offers, id, x);
    }
    assert forall|a: Address, x: u64| #[trigger] set_at(w, a).contains(x) implies x <= last by {
        lemma_seq_without_within(set_at(offers_by_wallet, owner), id, x);
        if a != owner {
            assert(set_at(w, a) == set_at(offers_by_wallet, a));
        }
    }
    assert forall|k: (TokenId, u64), x: u64| #[trigger] set_at(t, k).contains(x) implies x <= last by {
        lemma_seq_without_within(set_at(token_offers_ids, key), id, x);
        if k != key {
            assert(set_at(t, k) == set_at(token_offers_ids, k));
        }
    }
}

/// Recording an offer under the next id keeps every offer id within the
/// last one given, which becomes that id.
pub proof fn lemma_offer_ids_counted_add(
    offer_by_id: Map<u64, Offer>,
    offers: Seq<u64>,
    offers_by_wallet: Map<Address, Seq<u64>>,
    token_offers_ids: Map<(TokenId, u64), Seq<u64>>,
    last: u64,
    id: u64,
    offer: Offer,
    owner: Address,
    key: (TokenId, u64),
)
    requires
        offer_ids_counted(offer_by_id, offers, offers_by_wallet, token_offers_ids, last),
        last < id,
    ensures
        offer_ids_counted(
            offer_by_id.insert(id, offer),
            seq_with(offers, id),
            with_set(offers_by_wallet, owner, seq_with(set_at(offers_by_wallet, owner), id)),
            with_set(token_offers_ids, key, seq_with(set_at(token_offers_ids, key), id)),
            id,
        ),
{
    let w = with_set(offers_by_wallet, owner, seq_with(set_at(offers_by_wallet, owner), id));
    let t = with_set(token_offers_ids, key, seq_with(set_at(token_offers_ids, key), id));
    assert forall|x: u64| #[trigger] seq_with(offers, id).contains(x) implies x <= id by {
        lemma_seq_with_within(offers, id, x);
    }
    assert forall|a: Address, x: u64| #[trigger] set_at(w, a).contains(x) implies x <= id by {
        lemma_seq_with_within(set_at(offers_by_wallet, owner), id, x);
        if a != owner {
            assert(set_at(w, a) == set_at(offers_by_wallet, a));
        }
    }
    assert forall|k: (TokenId, u64), x: u64| #[trigger] set_at(t, k).contains(x) implies x <= id by {
        lemma_seq_with_within(set_at(token_offers_ids, key), id, x);
        if k != key {
            assert(set_at(t, k) == set_at(token_offers_ids, k));
        }
    }
}

/// What the token data of an NFT held by the contract says.
#[derive(Clone, Copy, Debug)]
pub struct NftData {
    pub token: TokenId,
    pub nonce: u64,
    pub royalties: u128,
    pub creator: Address,
    /// The creator written in the attributes, where they decode to one.
    pub attributes_creator: Option<Address>,
    /// The kind of the token (fungible, non-fungible, semi-fungible, meta).
    pub token_type: u8,
}

/// The facts about the chain a call is made with.
#[derive(Clone)]
pub struct ChainContext {
    /// Who calls.
    pub caller: Address,
    /// The block timestamp, in seconds.
    pub timestamp: u64,
    /// The owner of the marketplace contract.
    pub owner: Address,
    /// The addresses that belong to smart contracts.
    pub smart_contracts: Vec<Address>,
    /// The token data of the NFTs the contract holds.
    pub nft_data: Vec<NftData>,
    /// The collection whose creator is read from the attributes.
    pub ins_collection: TokenId,
    /// The balance of the contract in the reward token.
    pub reward_token_balance: u128,
    /// The gas left to the call.
    pub gas_left: u64,
    /// The identifiers (as bytes) of the tokens the call names.
    pub token_names: Vec<TokenName>,
}

/// The identifier of a token, as the bytes the chain holds for it.
#[derive(Clone)]
pub struct TokenName {
    pub token: TokenId,
    pub name: Vec<u8>,
}

/// The first name of `token` in `s`; empty when there is none.
pub open spec fn find_token_name(s: Seq<TokenName>, token: TokenId) -> Seq<u8>
    decreases s.len(),
{
    if s.len() == 0 {
        seq![]
    } else if s[0].token == token {
        s[0].name@
    } else {
        find_token_name(s.drop_first(), token)
    }
}

/// The identifier bytes of `token`.
pub open spec fn token_name(ctx: ChainContext, token: TokenId) -> Seq<u8> {
    find_token_name(ctx.token_names@, token)
}

/// Whether `name` is a well-formed ESDT token identifier: a ticker of 3 to 10
/// uppercase letters or digits, a dash, and 6 lowercase letters or digits.
pub open spec fn valid_token_identifier(name: Seq<u8>) -> bool {
    let n = name.len();
    &&& 10 <= n <= 17
    &&& forall|i: int|
        0 <= i < n - 7 ==> (65 <= #[trigger] name[i] <= 90 || 48 <= name[i] <= 57)
    &&& name[n - 7] == 45
    &&& forall|i: int|
        n - 6 <= i < n ==> (97 <= #[trigger] name[i] <= 122 || 48 <= name[i] <= 57)
}

/// `multiversx_chain_core::token_identifier_util::validate_token_identifier`:
/// whether `name` is a well-formed token identifier (see
/// `valid_token_identifier`).
#[verifier::external_body]
fn validate_token_name(name: &Vec<u8>) -> (r: bool)
    ensures
        r == valid_token_identifier(name@),
{
    multiversx_sc::chain_core::token_identifier_util::validate_token_identifier(name.as_slice())
}

/// Whether `a` is a smart contract.
pub open spec fn is_smart_contract(ctx: ChainContext, a: Address) -> bool {
    ctx.smart_contracts@.contains(a)
}

/// The token data with zero royalties and no creator.
pub open spec fn empty_nft_data(token: TokenId, nonce: u64) -> NftData {
    NftData {
        token,
        nonce,
        royalties: 0,
        creator: ZERO_ADDRESS,
        attributes_creator: None,
        token_type: 0,
    }
}

/// The first token data of `token` and `nonce`; the empty data when there is none.
pub open spec fn find_nft_data(s: Seq<NftData>, token: TokenId, nonce: u64) -> NftData
    decreases s.len(),
{
    if s.len() == 0 {
        empty_nft_data(token, nonce)
    } else if s[0].token == token && s[0].nonce == nonce {
        s[0]
    } else {
        find_nft_data(s.drop_first(), token, nonce)
    }
}

impl ChainContext {
    /// Whether the identifier of `token` is well formed.
    pub fn is_valid_token(&self, token: TokenId) -> (r: bool)
        ensures
            r == valid_token_identifier(token_name(*self, token)),
    {
        let mut i: usize = 0;
        assert(self.token_names@.subrange(0, self.token_names@.len() as int) =~= self.token_names@);
        while i < self.token_names.len()
            invariant
                i <= self.token_names@.len(),
                token_name(*self, token) == find_token_name(
                    self.token_names@.subrange(i as int, self.token_names@.len() as int),
                    token,
                ),
            decreases self.token_names@.len() - i,
        {
            let ghost rest = self.token_names@.subrange(i as int, self.token_names@.len() as int);
            assert(rest[0] == self.token_names@[i as int]);
            if self.token_names[i].token == token {
                return validate_token_name(&self.token_names[i].name);
            }
            assert(rest.drop_first() =~= self.token_names@.subrange(i + 1, self.token_names@.len() as int));
            i += 1;
        }
        assert(self.token_names@.subrange(i as int, self.token_names@.len() as int) =~= Seq::<TokenName>::empty());
        let empty: Vec<u8> = Vec::new();
        assert(empty@ =~= seq![]);
        validate_token_name(&empty)
    }

    pub fn is_smart_contract(&self, a: Address) -> (r: bool)
        ensures
            r == is_smart_contract(*self, a),
    {
        let mut i: usize = 0;
        while i < self.smart_contracts.len()
            invariant
                i <= self.smart_contracts@.len(),
                forall|j: int| 0 <= j < i ==> self.smart_contracts@[j] != a,
            decreases self.smart_contracts@.len() - i,
        {
            if self.smart_contracts[i] == a {
                return true;
            }
            i += 1;
        }
        false
    }

    /// The token data the chain returns for `token` and `nonce`.
    pub fn esdt_token_data(&self, token: TokenId, nonce: u64) -> (r: NftData)
        ensures
            r == find_nft_data(self.nft_data@, token, nonce),
    {
        let mut i: usize = 0;
        assert(self.nft_data@.subrange(0, self.nft_data@.len() as int) =~= self.nft_data@);
        while i < self.nft_data.len()
            invariant
                i <= self.nft_data@.len(),
                find_nft_data(self.nft_data@, token, nonce) == find_nft_data(
                    self.nft_data@.subrange(i as int, self.nft_data@.len() as int),
                    token,
                    nonce,
                ),
            decreases self.nft_data@.len() - i,
        {
            let d = self.nft_data[i];
            let ghost rest = self.nft_data@.subrange(i as int, self.nft_data@.len() as int);
            assert(rest[0] == d);
            if d.token == token && d.nonce == nonce {
                return d;
            }
            assert(rest.drop_first() =~= self.nft_data@.subrange(
                i + 1,
                self.nft_data@.len() as int,
            ));
            i += 1;
        }
        assert(self.nft_data@.subrange(i as int, self.nft_data@.len() as int) =~= Seq::<
            NftData,
        >::empty());
        NftData {
            token,
            nonce,
            royalties: 0,
            creator: ZERO_ADDRESS,
            attributes_creator: None,
            token_type: 0,
        }
    }
}

/// The contract storage as seen by the modules of the marketplace.
pub trait StorageModule {
    /// The content of the storage.
    spec fn store(&self) -> Store;

    /// The storage is well formed.
    spec fn inv(&self) -> bool;

    /// `getMarketplaceCutPercentage`
    fn get_bid_cut_percentage(&self) -> (r: u128)
        ensures
            r == self.store().bid_cut_percentage,
    ;

    /// `getStatus`
    fn get_status(&self) -> (r: bool)
        ensures
            r == self.store().status,
    ;

    /// `getLastValidAuctionId`
    fn get_last_valid_auction_id(&self) -> (r: u64)
        ensures
            r == self.store().last_valid_auction_id,
    ;

    /// The listing stored under `auction_id`.
    fn get_auction(&self, auction_id: u64) -> (r: Option<Auction>)
        requires
            self.inv(),
        ensures
            r == (if self.store().auction_by_id.contains_key(auction_id) {
                Some(self.store().auction_by_id[auction_id])
            } else {
                None
            }),
    ;

    /// `offerById`
    fn get_offer(&self, offer_id: u64) -> (r: Option<Offer>)
        requires
            self.inv(),
        ensures
            r == (if self.store().offer_by_id.contains_key(offer_id) {
                Some(self.store().offer_by_id[offer_id])
            } else {
                None
            }),
    ;

    /// `getGlobalOffer`
    fn get_global_offer(&self, offer_id: u64) -> (r: Option<GlobalOffer>)
        requires
            self.inv(),
        ensures
            r == (if self.store().global_offer.contains_key(offer_id) {
                Some(self.store().global_offer[offer_id])
            } else {
                None
            }),
    ;

    /// `getTokenItemsQuantityForSale`
    fn get_token_items_quantity_for_sale(&self, token: TokenId, nonce: u64) -> (r: u128)
        requires
            self.inv(),
        ensures
            r == amount_at(self.store().token_items_quantity_for_sale, (token, nonce)),
    ;

    /// `getClaimableAmount`
    fn get_claimable_amount(&self, address: Address, token: PaymentToken, nonce: u64) -> (r:
        u128)
        requires
            self.inv(),
        ensures
            r == amount_at(self.store().claimable_amount, (address, token, nonce)),
    ;

    /// `userDeposit`
    fn get_user_funds(&self, user: Address, token: PaymentToken, nonce: u64) -> (r: u128)
        requires
            self.inv(),
        ensures
            r == amount_at(self.store().user_funds, (user, token, nonce)),
    ;
}

impl StorageModule for Marketplace {
    open spec fn store(&self) -> Store {
        self@
    }

    open spec fn inv(&self) -> bool {
        self.wf()
    }

    fn get_bid_cut_percentage(&self) -> (r: u128) {
        self.bid_cut_percentage
    }

    fn get_status(&self) -> (r: bool) {
        self.status
    }

    fn get_last_valid_auction_id(&self) -> (r: u64) {
        self.last_valid_auction_id
    }

    fn get_auction(&self, auction_id: u64) -> (r: Option<Auction>) {
        match self.auction_by_id.get(&auction_id) {
            Some(a) => Some(*a),
            None => None,
        }
    }

    fn get_offer(&self, offer_id: u64) -> (r: Option<Offer>) {
        match self.offer_by_id.get(&offer_id) {
            Some(o) => Some(*o),
            None => None,
        }
    }

    fn get_global_offer(&self, offer_id: u64) -> (r: Option<GlobalOffer>) {
        match self.global_offer.get(&offer_id) {
            Some(o) => Some(*o),
            None => None,
        }
    }

    fn get_token_items_quantity_for_sale(&self, token: TokenId, nonce: u64) -> (r: u128) {
        self.token_items_quantity_for_sale.get(&(token, nonce))
    }

    fn get_claimable_amount(&self, address: Address, token: PaymentToken, nonce: u64) -> (r:
        u128) {
        self.claimable_amount.get(&(address, token, nonce))
    }

    fn get_user_funds(&self, user: Address, token: PaymentToken, nonce: u64) -> (r: u128) {
        self.user_funds.get(&(user, token, nonce))
    }
}

} // verus!
