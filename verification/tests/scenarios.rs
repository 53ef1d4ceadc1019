use esdt_nft_marketplace::admin::AdminModule;
use esdt_nft_marketplace::auction::{AuctionType, EsdtPayment, Payment, PaymentToken};
use esdt_nft_marketplace::events::Action;
use esdt_nft_marketplace::marketplace_main::EsdtNftMarketplace;
use esdt_nft_marketplace::storage::{ChainContext, Marketplace, NftData};
use esdt_nft_marketplace::views::ViewsModule;

const OWNER: u64 = 10;
const SELLER: u64 = 11;
const BUYER: u64 = 12;
const CREATOR: u64 = 13;
const BIDDER1: u64 = 14;
const BIDDER2: u64 = 15;
const NFT: u64 = 100;
const ESDT: u64 = 200;
const NFT_NONCE: u64 = 1;
const DEADLINE: u64 = 1234567890;

fn ctx(caller: u64, timestamp: u64, royalties: u128) -> ChainContext {
    ChainContext {
        caller,
        timestamp,
        owner: OWNER,
        smart_contracts: vec![],
        nft_data: vec![NftData {
            token: NFT,
            nonce: NFT_NONCE,
            royalties,
            creator: CREATOR,
            attributes_creator: None,
            token_type: 1,
        }],
        ins_collection: 999,
        reward_token_balance: 0,
        gas_left: 100_000_000,
        token_names: vec![],
    }
}

fn transfers(acts: &[Action]) -> Vec<(u64, PaymentToken, u64, u128)> {
    let mut r = Vec::new();
    for a in acts {
        if let Action::Transfer { to, token, nonce, amount } = a {
            r.push((*to, *token, *nonce, *amount));
        }
    }
    r
}

/// Deploys with `cut_fee`, then the owner accepts `token` and opens the marketplace.
fn deploy(cut_fee: u64, token: PaymentToken) -> Marketplace {
    let mut m = <Marketplace as EsdtNftMarketplace>::init(cut_fee, OWNER).unwrap();
    assert_eq!(m.get_accepted_tokens_count(), 0);
    assert_eq!(m.status, false);
    assert_eq!(m.bid_cut_percentage, cut_fee as u128);
    AdminModule::set_accepted_tokens(&mut m, &ctx(OWNER, 0, 0), token).unwrap();
    AdminModule::set_status(&mut m, &ctx(OWNER, 0, 0), true).unwrap();
    assert_eq!(m.get_accepted_tokens_count(), 1);
    assert_eq!(m.accepted_tokens.contains(&token), true);
    assert_eq!(m.status, true);
    m
}

/// Checks the listing `1` of `SELLER` with `quantity` units for sale.
fn check_listed(m: &Marketplace, auction_type: AuctionType, quantity: u128) {
    assert_eq!(m.get_listings_count(), 1);
    assert_eq!(m.last_valid_auction_id, 1);
    let auction = *m.auction_by_id.get(&1).unwrap();
    assert_eq!(auction.auction_type, auction_type);
    assert_eq!(auction.original_owner, SELLER);
    assert_eq!(m.listings_by_wallet.contains(&SELLER, &1), true);
    assert_eq!(m.token_items_for_sale.contains(&NFT, &NFT_NONCE), true);
    assert_eq!(m.token_auction_ids.contains(&(NFT, NFT_NONCE), &1), true);
    assert_eq!(m.token_items_quantity_for_sale.get(&(NFT, NFT_NONCE)), quantity);
}

/// Checks that listing `1` of `SELLER` is gone.
fn check_gone(m: &Marketplace) {
    assert_eq!(m.get_listings_count(), 0);
    assert_eq!(m.last_valid_auction_id, 1);
    assert_eq!(m.listings_by_wallet.contains(&SELLER, &1), false);
    assert_eq!(m.token_items_for_sale.contains(&NFT, &NFT_NONCE), false);
    assert_eq!(m.token_auction_ids.contains(&(NFT, NFT_NONCE), &1), false);
    assert_eq!(m.token_items_quantity_for_sale.get(&(NFT, NFT_NONCE)), 0);
}

fn list(
    m: &mut Marketplace,
    timestamp: u64,
    amount: u128,
    min_bid: u128,
    max_bid: u128,
    token: PaymentToken,
    bid: bool,
    sft_max_one_per_payment: Option<bool>,
    royalties: u128,
) -> u64 {
    let (acts, id) = EsdtNftMarketplace::listing(
        m,
        &ctx(SELLER, timestamp, royalties),
        EsdtPayment { token: NFT, nonce: NFT_NONCE, amount },
        min_bid,
        max_bid,
        DEADLINE,
        token,
        bid,
        sft_max_one_per_payment,
        None,
    )
    .unwrap();
    // the contract keeps the listed tokens: nothing is sent back to the seller
    assert_eq!(transfers(&acts), vec![]);
    assert_eq!(acts.len(), 1);
    assert!(matches!(acts[0], Action::Event(_)));
    id
}

#[test]
fn list_nft_bid_pass() {
    let mut m = deploy(2500, PaymentToken::Egld);
    list(&mut m, 100, 1, 1, 10, PaymentToken::Egld, true, None, 0);
    check_listed(&m, AuctionType::NftBid, 1);
}

#[test]
fn list_nft_sale_pass() {
    let mut m = deploy(2500, PaymentToken::Egld);
    list(&mut m, 100, 1, 1, 1, PaymentToken::Egld, false, None, 0);
    check_listed(&m, AuctionType::Nft, 1);
}

#[test]
fn list_sft_bid_pass() {
    let mut m = deploy(2500, PaymentToken::Egld);
    list(&mut m, 100, 2, 10, 10, PaymentToken::Egld, false, None, 0);
    check_listed(&m, AuctionType::SftAll, 2);
}

#[test]
fn list_sft_bid_as_nft_pass() {
    let mut m = deploy(2500, PaymentToken::Egld);
    list(&mut m, 100, 1, 10, 10, PaymentToken::Egld, false, None, 0);
    check_listed(&m, AuctionType::Nft, 1);
}

#[test]
fn list_sft_all_pass() {
    let mut m = deploy(2500, PaymentToken::Egld);
    list(&mut m, 100, 2, 1, 10, PaymentToken::Egld, true, None, 0);
    check_listed(&m, AuctionType::SftAll, 2);
}

#[test]
fn list_sft_one_per_payment_pass() {
    let mut m = deploy(2500, PaymentToken::Egld);
    list(&mut m, 100, 5, 10, 10, PaymentToken::Egld, true, Some(true), 0);
    check_listed(&m, AuctionType::SftOnePerPayment, 5);
}

#[test]
fn list_sft_one_per_payment_as_nft_pass() {
    let mut m = deploy(2500, PaymentToken::Egld);
    list(&mut m, 100, 1, 10, 10, PaymentToken::Egld, true, Some(true), 0);
    check_listed(&m, AuctionType::NftBid, 1);
}

fn buy_scenario(token: PaymentToken, nonce: u64) {
    let mut m = deploy(1000, token);
    let id = list(&mut m, 100, 1, 100, 100, token, false, None, 1000);
    assert_eq!(id, 1);
    check_listed(&m, AuctionType::Nft, 1);
    assert_eq!(m.auction_by_id.get(&1).unwrap().creator_royalties_percentage, 1000);
    let acts = EsdtNftMarketplace::buy(
        &mut m,
        &ctx(BUYER, 100, 1000),
        1,
        NFT,
        NFT_NONCE,
        None,
        Payment { token, nonce, amount: 100 },
    )
    .unwrap();
    assert_eq!(
        transfers(&acts),
        vec![
            (CREATOR, token, nonce, 10),
            (SELLER, token, nonce, 80),
            (BUYER, PaymentToken::Esdt(NFT), NFT_NONCE, 1),
            (OWNER, token, nonce, 10),
        ]
    );
    check_gone(&m);
}

#[test]
fn buy_list_nft_pass() {
    buy_scenario(PaymentToken::Egld, 0);
}

#[test]
fn buy_list_nft_esdt_pass() {
    buy_scenario(PaymentToken::Esdt(ESDT), 0);
}

#[test]
fn buy_list_nft_esdt_meta_pass() {
    buy_scenario(PaymentToken::Esdt(ESDT), 5);
}

#[test]
fn withdraw_list_nft_sale_pass() {
    let mut m = deploy(2500, PaymentToken::Egld);
    list(&mut m, 100, 1, 1, 1, PaymentToken::Egld, false, None, 0);
    check_listed(&m, AuctionType::Nft, 1);
    let acts = EsdtNftMarketplace::withdraw(&mut m, &ctx(SELLER, 100, 0), 1).unwrap();
    assert_eq!(transfers(&acts), vec![(SELLER, PaymentToken::Esdt(NFT), NFT_NONCE, 1)]);
}

#[test]
fn withdraw_list_sft_all_pass() {
    let mut m = deploy(2500, PaymentToken::Egld);
    list(&mut m, 100, 18, 1, 10, PaymentToken::Egld, true, None, 0);
    check_listed(&m, AuctionType::SftAll, 18);
    let acts = EsdtNftMarketplace::withdraw(&mut m, &ctx(SELLER, 100, 0), 1).unwrap();
    assert_eq!(transfers(&acts), vec![(SELLER, PaymentToken::Esdt(NFT), NFT_NONCE, 18)]);
}

#[test]
fn end_bid_sft_bid_pass() {
    let mut m = deploy(2500, PaymentToken::Egld);
    list(&mut m, 123456789, 2, 1, 10, PaymentToken::Egld, true, None, 0);
    check_listed(&m, AuctionType::SftAll, 2);
    let acts = EsdtNftMarketplace::end_auction(&mut m, &ctx(SELLER, 1234569890, 0), 1).unwrap();
    assert_eq!(transfers(&acts), vec![(SELLER, PaymentToken::Esdt(NFT), NFT_NONCE, 2)]);
}

fn bid(m: &mut Marketplace, bidder: u64, amount: u128) -> Vec<Action> {
    EsdtNftMarketplace::bid(
        m,
        &ctx(bidder, 100, 1000),
        1,
        NFT,
        NFT_NONCE,
        Payment { token: PaymentToken::Egld, nonce: 0, amount },
    )
    .unwrap()
}

#[test]
fn bid_for_nft_max_amount_from2bidders() {
    let mut m = deploy(1000, PaymentToken::Egld);
    list(&mut m, 100, 1, 1, 10, PaymentToken::Egld, true, None, 1000);
    check_listed(&m, AuctionType::NftBid, 1);
    let acts = bid(&mut m, BIDDER1, 2);
    assert_eq!(transfers(&acts), vec![]);
    let auction = *m.auction_by_id.get(&1).unwrap();
    assert_eq!(auction.original_owner, SELLER);
    assert_eq!(auction.current_winner, BIDDER1);
    assert_eq!(auction.current_bid, 2);
    assert_eq!(auction.creator_royalties_percentage, 1000);
    assert_eq!(auction.auction_type, AuctionType::NftBid);
    check_listed(&m, AuctionType::NftBid, 1);
    // the maximum ends the auction: the first bidder is refunded
    // and the sale completes: bidder 2 gets the NFT, the bid is shared out
    let acts = bid(&mut m, BIDDER2, 10);
    assert_eq!(
        transfers(&acts),
        vec![
            (BIDDER1, PaymentToken::Egld, 0, 2),
            (CREATOR, PaymentToken::Egld, 0, 1),
            (SELLER, PaymentToken::Egld, 0, 8),
            (BIDDER2, PaymentToken::Esdt(NFT), NFT_NONCE, 1),
            (OWNER, PaymentToken::Egld, 0, 1),
        ]
    );
    check_gone(&m);
}

#[test]
fn bid_for_nft_with_end_auction_after_deadline() {
    let mut m = deploy(1000, PaymentToken::Egld);
    list(&mut m, 100, 1, 1, 11, PaymentToken::Egld, true, None, 1000);
    check_listed(&m, AuctionType::NftBid, 1);
    bid(&mut m, BIDDER1, 2);
    let auction = *m.auction_by_id.get(&1).unwrap();
    assert_eq!(auction.current_winner, BIDDER1);
    assert_eq!(auction.current_bid, 2);
    let acts = bid(&mut m, BIDDER2, 10);
    assert_eq!(transfers(&acts), vec![(BIDDER1, PaymentToken::Egld, 0, 2)]);
    let auction = *m.auction_by_id.get(&1).unwrap();
    assert_eq!(auction.original_owner, SELLER);
    assert_eq!(auction.current_winner, BIDDER2);
    assert_eq!(auction.current_bid, 10);
    assert_eq!(auction.creator_royalties_percentage, 1000);
    assert_eq!(auction.auction_type, AuctionType::NftBid);
    check_listed(&m, AuctionType::NftBid, 1);
    let acts = EsdtNftMarketplace::end_auction(&mut m, &ctx(SELLER, 1236567890, 1000), 1).unwrap();
    assert_eq!(
        transfers(&acts),
        vec![
            (CREATOR, PaymentToken::Egld, 0, 1),
            (SELLER, PaymentToken::Egld, 0, 8),
            (BIDDER2, PaymentToken::Esdt(NFT), NFT_NONCE, 1),
            (OWNER, PaymentToken::Egld, 0, 1),
        ]
    );
    check_gone(&m);
}
