use esdt_nft_marketplace::admin::AdminModule;
use esdt_nft_marketplace::auction::{
    AuctionType, BulkListing, CollectionFeeConfig, EsdtPayment, Payment, PaymentToken, TokenAmount,
};
use esdt_nft_marketplace::common::CommonModule;
use esdt_nft_marketplace::creator::CreatorModule;
use esdt_nft_marketplace::dex::DexModule;
use esdt_nft_marketplace::errors::MarketError;
use esdt_nft_marketplace::events::{Action, Event, SignaturePart, SwapCallback};
use esdt_nft_marketplace::helpers::HelpersModule;
use esdt_nft_marketplace::init::XOXNOProtocol;
use esdt_nft_marketplace::marketplace_main::EsdtNftMarketplace;
use esdt_nft_marketplace::offers::CustomOffersModule;
use esdt_nft_marketplace::pools::PoolsModule;
use esdt_nft_marketplace::storage::{ChainContext, Marketplace, NftData, StorageModule, TokenName};
use esdt_nft_marketplace::views::ViewsModule;

const OWNER: u64 = 10;
const SELLER: u64 = 11;
const BUYER: u64 = 12;
const CREATOR: u64 = 13;
const SIGNER: u64 = 14;
const STRANGER: u64 = 15;
const WRAPPER_SC: u64 = 16;
const AGGREGATOR: u64 = 17;
const NFT: u64 = 100;
const WEGLD: u64 = 101;
const OTHER: u64 = 102;

fn ctx(caller: u64, timestamp: u64) -> ChainContext {
    ChainContext {
        caller,
        timestamp,
        owner: OWNER,
        smart_contracts: vec![],
        nft_data: vec![
            NftData { token: NFT, nonce: 1, royalties: 1000, creator: CREATOR, attributes_creator: None, token_type: 1 },
            NftData { token: NFT, nonce: 2, royalties: 1000, creator: CREATOR, attributes_creator: None, token_type: 1 },
        ],
        ins_collection: 999,
        reward_token_balance: 0,
        gas_left: 100_000_000,
        token_names: vec![TokenName { token: NFT, name: b"NFT-123456".to_vec() }],
    }
}

fn transfers(acts: &[Action]) -> Vec<(u64, PaymentToken, u64, u128)> {
    let mut r = Vec::new();
    for a in acts {
        if let Action::Transfer { to, token, nonce, amount } = a {
            r.push((*to, *token, *nonce, *amount));
        }
    }
    r
}

/// The marketplace with a 10% cut, EGLD accepted and opened.
fn market() -> Marketplace {
    let mut m = <Marketplace as XOXNOProtocol>::init(1000, SIGNER, WRAPPER_SC, WEGLD, AGGREGATOR).unwrap();
    m.set_accepted_tokens(&ctx(OWNER, 0), PaymentToken::Egld).unwrap();
    m.set_status(&ctx(OWNER, 0), true).unwrap();
    m
}

fn fixed_price(nonce: u64, price: u128) -> BulkListing {
    BulkListing {
        min_bid: price,
        max_bid: price,
        deadline: 0,
        accepted_payment_token: PaymentToken::Egld,
        bid: false,
        opt_sft_max_one_per_payment: false,
        opt_start_time: 0,
        collection: PaymentToken::Esdt(NFT),
        nonce,
        nft_amount: 1,
        royalties: 0,
    }
}

fn list_fixed(m: &mut Marketplace, nonce: u64, price: u128) {
    XOXNOProtocol::listing(
        m,
        &ctx(SELLER, 100),
        &vec![EsdtPayment { token: NFT, nonce, amount: 1 }],
        &vec![fixed_price(nonce, price)],
    )
    .unwrap();
}

#[test]
fn split_adds_up_to_the_price() {
    let m = market();
    let d = m.calculate_amount_split(100, 1000, None).unwrap();
    assert_eq!((d.creator, d.marketplace, d.seller, d.extra), (10, 10, 80, 0));
    let d = m.calculate_amount_split(12345, 777, None).unwrap();
    assert_eq!(d.creator + d.marketplace + d.seller + d.extra, 12345);
    assert_eq!((d.creator, d.marketplace), (959, 1234));
}

#[test]
fn split_refuses_fees_of_100_percent() {
    let m = market();
    assert_eq!(m.calculate_amount_split(100, 9000, None).unwrap_err(), MarketError::FeesExceed100);
}

#[test]
fn cut_amount_rounds_down() {
    let m = market();
    assert_eq!(m.calculate_cut_amount(12345, 250), 308);
    assert_eq!(m.calculate_cut_amount(9999, 1), 0);
    assert_eq!(m.calculate_cut_amount(u128::MAX, 10_000), u128::MAX);
    assert_eq!(m.calculate_cut_amount(3, 30_000), 9);
}

#[test]
fn decimal_to_ascii_gives_the_digits() {
    let m = market();
    assert_eq!(m.decimal_to_ascii(0), b"0".to_vec());
    assert_eq!(m.decimal_to_ascii(1234), b"1234".to_vec());
    assert_eq!(m.decimal_to_ascii(u32::MAX), b"4294967295".to_vec());
}

#[test]
fn init_refuses_a_cut_out_of_range() {
    assert_eq!(
        <Marketplace as XOXNOProtocol>::init(0, SIGNER, WRAPPER_SC, WEGLD, AGGREGATOR).err(),
        Some(MarketError::InvalidPercentage)
    );
    assert_eq!(
        <Marketplace as EsdtNftMarketplace>::init(10_000, SIGNER).err(),
        Some(MarketError::InvalidPercentage)
    );
}

#[test]
fn admin_and_owner_endpoints_check_the_caller() {
    let mut m = market();
    assert_eq!(m.set_status(&ctx(STRANGER, 0), false), Err(MarketError::NotAdmin));
    assert_eq!(m.set_percentage_cut(&ctx(SIGNER, 0), 500), Err(MarketError::NotOwner));
    assert_eq!(m.set_percentage_cut(&ctx(OWNER, 0), 0), Err(MarketError::InvalidPercentage));
    assert_eq!(m.set_percentage_cut(&ctx(OWNER, 0), 500), Ok(()));
    assert_eq!(m.get_bid_cut_percentage(), 500);
    assert_eq!(m.add_blacklist(&ctx(SIGNER, 0), STRANGER), Ok(true));
    assert_eq!(m.add_blacklist(&ctx(SIGNER, 0), STRANGER), Ok(false));
    assert_eq!(m.remove_blacklist(&ctx(SIGNER, 0), STRANGER), Ok(true));
}

#[test]
fn paused_marketplace_refuses_listings() {
    let mut m = market();
    m.set_status(&ctx(OWNER, 0), false).unwrap();
    let r = XOXNOProtocol::listing(
        &mut m,
        &ctx(SELLER, 100),
        &vec![EsdtPayment { token: NFT, nonce: 1, amount: 1 }],
        &vec![fixed_price(1, 100)],
    );
    assert_eq!(r.err(), Some(MarketError::Disabled));
}

#[test]
fn listing_refuses_a_token_not_whitelisted() {
    let mut m = market();
    let mut l = fixed_price(1, 100);
    l.accepted_payment_token = PaymentToken::Esdt(OTHER);
    let r = XOXNOProtocol::listing(&mut m, &ctx(SELLER, 100), &vec![EsdtPayment { token: NFT, nonce: 1, amount: 1 }], &vec![l]);
    assert_eq!(r.err(), Some(MarketError::PaymentTokenNotWhitelisted));
}

#[test]
fn buy_shares_the_price() {
    let mut m = market();
    list_fixed(&mut m, 1, 100);
    assert_eq!(m.get_last_valid_auction_id(), 1);
    let acts = XOXNOProtocol::buy(&mut m, &ctx(BUYER, 200), 1, NFT, 1, None, Payment { token: PaymentToken::Egld, nonce: 0, amount: 100 }).unwrap();
    assert_eq!(
        transfers(&acts),
        vec![
            (CREATOR, PaymentToken::Egld, 0, 10),
            (SELLER, PaymentToken::Egld, 0, 80),
            (BUYER, PaymentToken::Esdt(NFT), 1, 1),
            (OWNER, PaymentToken::Egld, 0, 10),
        ]
    );
    // the purchase is logged before the proceeds are shared, which add up to the price
    assert!(matches!(acts[0], Action::Event(Event::Buy { auction_id: 1, nr_bought_tokens: 1, .. })));
    let paid: u128 = transfers(&acts).iter().filter(|t| t.1 == PaymentToken::Egld).map(|t| t.3).sum();
    assert_eq!(paid, 100);
    assert_eq!(m.does_auction_exist(1), false);
}

#[test]
fn buy_refuses_a_wrong_amount_and_the_owner() {
    let mut m = market();
    list_fixed(&mut m, 1, 100);
    let pay = |amount| Payment { token: PaymentToken::Egld, nonce: 0, amount };
    assert_eq!(XOXNOProtocol::buy(&mut m, &ctx(BUYER, 200), 1, NFT, 1, None, pay(99)).err(), Some(MarketError::WrongAmountPaid));
    assert_eq!(XOXNOProtocol::buy(&mut m, &ctx(SELLER, 200), 1, NFT, 1, None, pay(100)).err(), Some(MarketError::BidOnOwnToken));
    assert_eq!(XOXNOProtocol::buy(&mut m, &ctx(BUYER, 200), 7, NFT, 1, None, pay(100)).err(), Some(MarketError::AuctionNotFound));
}

#[test]
fn bulk_buy_returns_the_change_and_the_nfts() {
    let mut m = market();
    list_fixed(&mut m, 1, 100);
    list_fixed(&mut m, 2, 100);
    let (acts, bought) = XOXNOProtocol::bulk_buy(
        &mut m,
        &ctx(BUYER, 200),
        &vec![1, 2, 9],
        Payment { token: PaymentToken::Egld, nonce: 0, amount: 250 },
    )
    .unwrap();
    assert_eq!(bought.len(), 2);
    assert_eq!((bought[0].token, bought[0].nonce, bought[0].amount), (NFT, 1, 1));
    assert_eq!((bought[1].token, bought[1].nonce, bought[1].amount), (NFT, 2, 1));
    assert_eq!(
        transfers(&acts),
        vec![
            (CREATOR, PaymentToken::Egld, 0, 10),
            (SELLER, PaymentToken::Egld, 0, 80),
            (CREATOR, PaymentToken::Egld, 0, 10),
            (SELLER, PaymentToken::Egld, 0, 80),
            (BUYER, PaymentToken::Egld, 0, 50),
            (BUYER, PaymentToken::Esdt(NFT), 1, 1),
            (BUYER, PaymentToken::Esdt(NFT), 2, 1),
            (OWNER, PaymentToken::Egld, 0, 20),
        ]
    );
    // the payment is spent exactly
    let paid: u128 = transfers(&acts).iter().filter(|t| t.1 == PaymentToken::Egld).map(|t| t.3).sum();
    assert_eq!(paid, 250);
    assert_eq!(m.get_listings_count(), 0);
}

#[test]
fn bulk_buy_refuses_without_funds() {
    let mut m = market();
    list_fixed(&mut m, 1, 100);
    list_fixed(&mut m, 2, 100);
    let r = XOXNOProtocol::bulk_buy(&mut m, &ctx(BUYER, 200), &vec![1, 2], Payment { token: PaymentToken::Egld, nonce: 0, amount: 150 });
    assert_eq!(r.err(), Some(MarketError::NotEnoughFunds));
    // the first listing, bought before the funds ran out, is put back
    assert_eq!(m.get_listings(0, 10), vec![1, 2]);
    assert!(m.does_auction_exist(1));
    assert_eq!(m.get_token_items_quantity_for_sale(NFT, 1), 1);
}

#[test]
fn frozen_listing_refuses_bids_and_purchases() {
    let mut m = market();
    list_fixed(&mut m, 1, 100);
    m.freeze_auction_id(&ctx(OWNER, 0), 1).unwrap();
    let pay = Payment { token: PaymentToken::Egld, nonce: 0, amount: 100 };
    assert_eq!(XOXNOProtocol::buy(&mut m, &ctx(BUYER, 200), 1, NFT, 1, None, pay).err(), Some(MarketError::AuctionFrozen));
    assert_eq!(XOXNOProtocol::bid(&mut m, &ctx(BUYER, 200), 1, NFT, 1, pay).err(), Some(MarketError::AuctionFrozen));
    m.un_freeze_auction_id(&ctx(OWNER, 0), 1).unwrap();
    assert!(XOXNOProtocol::buy(&mut m, &ctx(BUYER, 200), 1, NFT, 1, None, pay).is_ok());
}

#[test]
fn listing_then_withdraw_returns_the_nft() {
    let mut m = market();
    list_fixed(&mut m, 1, 100);
    let acts = XOXNOProtocol::withdraw(&mut m, &ctx(SELLER, 300), 0, &vec![1]).unwrap();
    assert_eq!(transfers(&acts), vec![(SELLER, PaymentToken::Esdt(NFT), 1, 1)]);
    assert_eq!(m.get_listings_count(), 0);
    assert_eq!(m.get_token_items_quantity_for_sale(NFT, 1), 0);
}

#[test]
fn deposit_then_withdraw_gives_it_back() {
    let mut m = market();
    let pay = Payment { token: PaymentToken::Egld, nonce: 0, amount: 100 };
    m.deposit(&ctx(BUYER, 0), pay).unwrap();
    assert_eq!(m.get_user_funds(BUYER, PaymentToken::Egld, 0), 100);
    let acts = m.withdraw_deposit(&ctx(BUYER, 0), PaymentToken::Egld, 0, 100).unwrap();
    assert_eq!(transfers(&acts), vec![(BUYER, PaymentToken::Egld, 0, 100)]);
    assert_eq!(m.get_user_funds(BUYER, PaymentToken::Egld, 0), 0);
    assert_eq!(m.has_balance(BUYER, PaymentToken::Egld, 0, 1), Err(MarketError::NoBalance));
}

#[test]
fn deposit_refuses_a_token_not_whitelisted() {
    // EGLD not whitelisted
    let mut m = <Marketplace as XOXNOProtocol>::init(1000, SIGNER, WRAPPER_SC, WEGLD, AGGREGATOR).unwrap();
    m.set_status(&ctx(OWNER, 0), true).unwrap();
    let pay = Payment { token: PaymentToken::Egld, nonce: 0, amount: 100 };
    assert_eq!(m.deposit(&ctx(BUYER, 0), pay).err(), Some(MarketError::DepositTokenNotWhitelisted));
}

#[test]
fn egld_only_endpoints_refuse_an_esdt_payment() {
    let mut m = market();
    m.set_accepted_tokens(&ctx(OWNER, 0), PaymentToken::Esdt(OTHER)).unwrap();
    let esdt = Payment { token: PaymentToken::Esdt(OTHER), nonce: 0, amount: 100 };
    assert_eq!(m.deposit(&ctx(BUYER, 0), esdt).err(), Some(MarketError::EsdtNotAccepted));
    assert_eq!(
        m.send_offer(&ctx(BUYER, 100), esdt, PaymentToken::Egld, 0, 100, NFT, 1, 1, 1000).err(),
        Some(MarketError::EsdtNotAccepted)
    );
    assert_eq!(
        m.send_global_offer(&ctx(BUYER, 100), esdt, PaymentToken::Egld, 0, 30, NFT, 1, None).err(),
        Some(MarketError::EsdtNotAccepted)
    );
    assert_eq!(m.get_user_funds(BUYER, PaymentToken::Esdt(OTHER), 0), 0);
    assert_eq!((m.get_offers_count(), m.get_global_offers_count()), (0, 0));
}

fn send_offer(m: &mut Marketplace, price: u128) -> u64 {
    let (_, id) = m
        .send_offer(
            &ctx(BUYER, 100),
            Payment { token: PaymentToken::Egld, nonce: 0, amount: price },
            PaymentToken::Egld,
            0,
            price,
            NFT,
            1,
            1,
            1000,
        )
        .unwrap();
    id
}

#[test]
fn offer_is_accepted_once() {
    let mut m = market();
    let id = send_offer(&mut m, 50);
    assert_eq!(id, 1);
    assert_eq!(m.get_user_funds(BUYER, PaymentToken::Egld, 0), 50);
    let nft = Payment { token: PaymentToken::Esdt(NFT), nonce: 1, amount: 1 };
    let acts = m.accept_offer(&ctx(SELLER, 200), id, None, nft).unwrap();
    assert_eq!(
        transfers(&acts),
        vec![
            (CREATOR, PaymentToken::Egld, 0, 5),
            (SELLER, PaymentToken::Egld, 0, 40),
            (BUYER, PaymentToken::Esdt(NFT), 1, 1),
            (OWNER, PaymentToken::Egld, 0, 5),
        ]
    );
    assert_eq!(m.get_user_funds(BUYER, PaymentToken::Egld, 0), 0);
    assert_eq!(m.does_offer_exist(id), false);
    assert_eq!(m.accept_offer(&ctx(SELLER, 200), id, None, nft).err(), Some(MarketError::OfferNotFound));
}

#[test]
fn offer_checks_the_token_identifier() {
    let mut m = market();
    let mut c = ctx(BUYER, 100);
    c.token_names = vec![TokenName { token: NFT, name: b"nft-123456".to_vec() }];
    let r = m.send_offer(
        &c,
        Payment { token: PaymentToken::Egld, nonce: 0, amount: 50 },
        PaymentToken::Egld,
        0,
        50,
        NFT,
        1,
        1,
        1000,
    );
    assert_eq!(r.err(), Some(MarketError::InvalidNftToken));
    // a well-formed identifier passes
    assert_eq!(send_offer(&mut m, 50), 1);
}

#[test]
fn offer_refuses_twice_the_same_nft_and_expired_acceptance() {
    let mut m = market();
    send_offer(&mut m, 50);
    let r = m.send_offer(&ctx(BUYER, 100), Payment { token: PaymentToken::Egld, nonce: 0, amount: 0 }, PaymentToken::Egld, 0, 50, NFT, 1, 1, 1000);
    assert_eq!(r.err(), Some(MarketError::OfferAlreadySent));
    let nft = Payment { token: PaymentToken::Esdt(NFT), nonce: 1, amount: 1 };
    assert_eq!(m.accept_offer(&ctx(SELLER, 2000), 1, None, nft).err(), Some(MarketError::OfferExpired));
    let acts = m.withdraw_offer(&ctx(BUYER, 300), 1).unwrap();
    assert!(matches!(acts.last(), Some(Action::Event(Event::WithdrawOffer { offer_id: 1, .. }))));
}

#[test]
fn global_offer_is_filled_with_the_nfts_sent() {
    let mut m = market();
    let (_, id) = m
        .send_global_offer(&ctx(BUYER, 100), Payment { token: PaymentToken::Egld, nonce: 0, amount: 60 }, PaymentToken::Egld, 0, 30, NFT, 2, None)
        .unwrap();
    assert_eq!(id, 1);
    let nfts = vec![EsdtPayment { token: NFT, nonce: 1, amount: 1 }, EsdtPayment { token: NFT, nonce: 2, amount: 1 }];
    let acts = m.accept_global_offer(&ctx(SELLER, 200), id, None, None, &nfts).unwrap();
    assert_eq!(
        transfers(&acts),
        vec![
            (CREATOR, PaymentToken::Egld, 0, 6),
            (SELLER, PaymentToken::Egld, 0, 48),
            (BUYER, PaymentToken::Esdt(NFT), 1, 1),
            (BUYER, PaymentToken::Esdt(NFT), 2, 1),
            (OWNER, PaymentToken::Egld, 0, 6),
        ]
    );
    assert_eq!(m.does_global_offer_exist(id), false);
    assert_eq!(m.get_user_funds(BUYER, PaymentToken::Egld, 0), 0);
}

#[test]
fn global_offer_partly_filled_stays_with_the_rest() {
    let mut m = market();
    m.send_global_offer(&ctx(BUYER, 100), Payment { token: PaymentToken::Egld, nonce: 0, amount: 90 }, PaymentToken::Egld, 0, 30, NFT, 3, None)
        .unwrap();
    let nfts = vec![EsdtPayment { token: NFT, nonce: 1, amount: 1 }];
    assert_eq!(m.get_global_offers_count(), 1);
    m.accept_global_offer(&ctx(SELLER, 200), 1, None, None, &nfts).unwrap();
    assert_eq!(m.get_global_offer(1).unwrap().quantity, 2);
    // the rest is written back under its id, outside the global offers index
    assert_eq!(m.does_global_offer_exist(1), true);
    assert_eq!(m.get_global_offers_count(), 0);
    let too_many = vec![EsdtPayment { token: NFT, nonce: 1, amount: 3 }];
    assert_eq!(m.accept_global_offer(&ctx(SELLER, 200), 1, None, None, &too_many).err(), Some(MarketError::OfferQuantityExceeded));
}

#[test]
fn global_offer_with_attributes_asks_for_a_signature() {
    let offered = || {
        let mut m = market();
        m.send_global_offer(&ctx(BUYER, 100), Payment { token: PaymentToken::Egld, nonce: 0, amount: 60 }, PaymentToken::Egld, 0, 30, NFT, 2, Some(77))
            .unwrap();
        m
    };
    let nfts = vec![EsdtPayment { token: NFT, nonce: 1, amount: 1 }, EsdtPayment { token: NFT, nonce: 2, amount: 1 }];
    let mut m = offered();
    assert_eq!(m.accept_global_offer(&ctx(SELLER, 200), 1, None, None, &nfts).err(), Some(MarketError::SignatureRequired));
    let mut m = offered();
    let acts = m.accept_global_offer(&ctx(SELLER, 200), 1, None, Some(88), &nfts).unwrap();
    // the deposit event, then the signature check and the signed pieces
    assert!(matches!(acts[0], Action::Event(Event::DepositBalance { owner: BUYER, .. })));
    assert!(matches!(acts[1], Action::VerifySignature { signer: SIGNER, signature: 88 }));
    assert!(matches!(acts[2], Action::SignedData(SignaturePart::Address(SELLER))));
    assert!(matches!(acts[3], Action::SignedData(SignaturePart::Token(NFT))));
    assert!(matches!(acts[4], Action::SignedData(SignaturePart::Byte(b'1'))));
    assert!(matches!(acts[5], Action::SignedData(SignaturePart::Byte(b'2'))));
    assert!(matches!(acts[6], Action::SignedData(SignaturePart::Byte(b'1'))));
    assert!(matches!(acts[7], Action::SignedData(SignaturePart::Buffer(77))));
}

#[test]
fn swap_purchase_calls_the_aggregator_then_completes() {
    let mut m = market();
    list_fixed(&mut m, 1, 100);
    let pay = Payment { token: PaymentToken::Esdt(OTHER), nonce: 0, amount: 500 };
    let acts = XOXNOProtocol::buy_swap(&mut m, &ctx(BUYER, 200), 1, NFT, 1, vec![], vec![], None, pay).unwrap();
    assert_eq!(acts.len(), 2);
    assert!(matches!(acts[0], Action::AggregateCall { gas: 20_000_000, .. }));
    assert!(matches!(acts[1], Action::AggregateLimit(TokenAmount { token: WEGLD, amount: 100 })));
    assert_eq!(m.freezed_auctions.contains(&1), true);
    let callback = SwapCallback {
        send_to: BUYER,
        paid_by: BUYER,
        quantity: 1,
        total_price: 100,
        auction_id: 1,
        original_payment: pay,
        message: None,
    };
    let acts = m.callback_ash(&ctx(AGGREGATOR, 210), callback, &vec![EsdtPayment { token: WEGLD, nonce: 0, amount: 120 }]).unwrap();
    assert_eq!(m.freezed_auctions.contains(&1), false);
    // the change, the purchase event, then the unwrapping of the price
    assert!(matches!(acts[1], Action::Event(Event::Buy { auction_id: 1, .. })));
    assert!(matches!(acts[2], Action::UnwrapEgld { amount: 100 }));
    assert_eq!(
        transfers(&acts),
        vec![
            (BUYER, PaymentToken::Esdt(WEGLD), 0, 20),
            (CREATOR, PaymentToken::Egld, 0, 10),
            (SELLER, PaymentToken::Egld, 0, 80),
            (BUYER, PaymentToken::Esdt(NFT), 1, 1),
            (OWNER, PaymentToken::Egld, 0, 10),
        ]
    );
}

#[test]
fn swap_purchase_without_enough_gas_is_refused() {
    let mut m = market();
    list_fixed(&mut m, 1, 100);
    let mut c = ctx(BUYER, 200);
    c.gas_left = 1000;
    let pay = Payment { token: PaymentToken::Esdt(OTHER), nonce: 0, amount: 500 };
    assert_eq!(XOXNOProtocol::buy_swap(&mut m, &c, 1, NFT, 1, vec![], vec![], None, pay).err(), Some(MarketError::NotEnoughGas));
}

#[test]
fn collection_config_is_created_with_defaults() {
    let mut m = market();
    let acts = m.set_cut_fees_reverted(&ctx(OWNER, 0), NFT, true).unwrap();
    let c: CollectionFeeConfig = *m.collection_config.get(&NFT).unwrap();
    assert_eq!((c.reverse_cut_fees, c.reverse_royalties, c.custom_royalties, c.admin), (true, false, false, 0));
    assert!(matches!(acts[0], Action::Event(Event::CollectionConfig { collection: NFT, .. })));
    assert_eq!(m.set_custom_royalties(&ctx(OWNER, 0), NFT, 5, 4, true).err(), Some(MarketError::MinRoyaltiesAboveMax));
    assert_eq!(m.set_extra_fees(&ctx(STRANGER, 0), NFT, 5, STRANGER).err(), Some(MarketError::NotAdmin));
    m.set_config_admin(&ctx(OWNER, 0), NFT, STRANGER).unwrap();
    assert!(m.set_extra_fees(&ctx(STRANGER, 0), NFT, 5, STRANGER).is_ok());
}

#[test]
fn reversed_fee_is_paid_by_the_buyer() {
    let mut m = market();
    m.set_cut_fees_reverted(&ctx(OWNER, 0), NFT, true).unwrap();
    list_fixed(&mut m, 1, 100);
    let acts = XOXNOProtocol::buy(&mut m, &ctx(BUYER, 200), 1, NFT, 1, None, Payment { token: PaymentToken::Egld, nonce: 0, amount: 100 }).unwrap();
    assert_eq!(
        transfers(&acts),
        vec![
            (CREATOR, PaymentToken::Egld, 0, 10),
            (SELLER, PaymentToken::Egld, 0, 80),
            (BUYER, PaymentToken::Esdt(NFT), 1, 1),
            (BUYER, PaymentToken::Egld, 0, 10),
        ]
    );
}

#[test]
fn payments_to_contracts_are_kept_until_claimed() {
    let mut m = market();
    list_fixed(&mut m, 1, 100);
    let mut c = ctx(BUYER, 200);
    c.smart_contracts = vec![SELLER];
    let acts = XOXNOProtocol::buy(&mut m, &c, 1, NFT, 1, None, Payment { token: PaymentToken::Egld, nonce: 0, amount: 100 }).unwrap();
    assert!(!transfers(&acts).iter().any(|t| t.0 == SELLER));
    assert_eq!(m.get_claimable_amount(SELLER, PaymentToken::Egld, 0), 80);
    let acts = m.claim_tokens_for_creator(&ctx(OWNER, 0), SELLER).unwrap();
    assert_eq!(transfers(&acts), vec![(SELLER, PaymentToken::Egld, 0, 80)]);
    assert_eq!(m.get_claimable_amount(SELLER, PaymentToken::Egld, 0), 0);
}

#[test]
fn views_page_and_find_listings() {
    let mut m = market();
    list_fixed(&mut m, 1, 100);
    list_fixed(&mut m, 2, 100);
    assert_eq!(m.get_listings(0, 10), vec![1, 2]);
    assert_eq!(m.get_listings(1, 10), vec![2]);
    assert_eq!(m.get_listings(5, 10), Vec::<u64>::new());
    assert_eq!(m.get_auctions_for_ticker(NFT), vec![1, 2]);
    assert_eq!(m.get_full_auctions_for_ticker(NFT).unwrap().len(), 2);
    assert_eq!(m.is_collection_listed(NFT), true);
    assert_eq!(m.get_collections_count(), 1);
    assert_eq!(m.get_token_items_for_sale_count(NFT), 2);
    let on_sale = m.get_on_sale_tokens_for_ticker(&ctx(STRANGER, 0), NFT, &vec![2]).unwrap();
    assert_eq!((on_sale.len(), on_sale[0].auction_id, on_sale[0].token_type), (1, 2, 1));
    assert_eq!(m.get_bulk_listings(&ctx(STRANGER, 0), &vec![2, 7]).len(), 1);
    assert_eq!(m.does_auction_exist(7), false);
}

#[test]
fn forwarded_swap_goes_to_its_destination() {
    let m = market();
    let p = EsdtPayment { token: OTHER, nonce: 0, amount: 5 };
    let acts = m.forward_xoxno(SELLER, Some(p), &vec![]).unwrap();
    assert_eq!(transfers(&acts), vec![(SELLER, PaymentToken::Esdt(OTHER), 0, 5)]);
    assert_eq!(m.forward_xoxno(SELLER, None, &vec![]).err(), Some(MarketError::NotSingleEsdtTransfer));
    assert!(m.swap_wegld_for_xoxno(SELLER, p).is_empty());
}

#[test]
fn single_listing_contract_changes_the_price() {
    let mut m = <Marketplace as EsdtNftMarketplace>::init(1000, OWNER).unwrap();
    m.set_accepted_tokens(&ctx(OWNER, 0), PaymentToken::Egld).unwrap();
    m.set_status(&ctx(OWNER, 0), true).unwrap();
    EsdtNftMarketplace::listing(&mut m, &ctx(SELLER, 100), EsdtPayment { token: NFT, nonce: 1, amount: 1 }, 100, 100, 0, PaymentToken::Egld, false, None, None).unwrap();
    assert_eq!(m.change_price(&ctx(BUYER, 100), 1, 50).err(), Some(MarketError::NotListingOwner));
    m.change_price(&ctx(SELLER, 100), 1, 50).unwrap();
    let a = *m.auction_by_id.get(&1).unwrap();
    assert_eq!((a.min_bid, a.max_bid), (50, Some(50)));
    assert_eq!(a.auction_type, AuctionType::Nft);
    let acts = EsdtNftMarketplace::bulk_buy(&mut m, &ctx(BUYER, 100), Payment { token: PaymentToken::Egld, nonce: 0, amount: 70 }, &vec![1]).unwrap();
    assert_eq!(transfers(&acts), vec![(BUYER, PaymentToken::Egld, 0, 20)]);
}

#[test]
fn listings_index_follows_the_records() {
    let mut m = market();
    list_fixed(&mut m, 1, 100);
    list_fixed(&mut m, 2, 100);
    assert_eq!(m.get_listings(0, 10), vec![1, 2]);
    assert!(m.does_auction_exist(1) && m.does_auction_exist(2));
    // a purchase takes the listing out of the index and the records together
    XOXNOProtocol::buy(&mut m, &ctx(BUYER, 200), 1, NFT, 1, None, Payment { token: PaymentToken::Egld, nonce: 0, amount: 100 }).unwrap();
    assert_eq!(m.get_listings(0, 10), vec![2]);
    assert_eq!(m.get_listings_count(), 1);
    assert!(!m.does_auction_exist(1) && m.does_auction_exist(2));
    // so does a withdrawal
    XOXNOProtocol::withdraw(&mut m, &ctx(SELLER, 300), 0, &vec![2]).unwrap();
    assert_eq!(m.get_listings(0, 10), Vec::<u64>::new());
    assert!(!m.does_auction_exist(2));
}

#[test]
fn ended_auction_pays_out_the_winning_bid() {
    let mut m = market();
    let mut auction = fixed_price(1, 100);
    auction.bid = true;
    auction.max_bid = 0;
    auction.deadline = 1000;
    XOXNOProtocol::listing(&mut m, &ctx(SELLER, 100), &vec![EsdtPayment { token: NFT, nonce: 1, amount: 1 }], &vec![auction]).unwrap();
    let egld = |amount| Payment { token: PaymentToken::Egld, nonce: 0, amount };
    XOXNOProtocol::bid(&mut m, &ctx(BUYER, 200), 1, NFT, 1, egld(150)).unwrap();
    // the outbid bidder gets the bid back, the new bid stands
    let acts = XOXNOProtocol::bid(&mut m, &ctx(STRANGER, 300), 1, NFT, 1, egld(250)).unwrap();
    assert_eq!(transfers(&acts), vec![(BUYER, PaymentToken::Egld, 0, 150)]);
    let acts = XOXNOProtocol::end_auction(&mut m, &ctx(SELLER, 2000), 1).unwrap();
    let paid: u128 = transfers(&acts).iter().filter(|t| t.1 == PaymentToken::Egld).map(|t| t.3).sum();
    assert_eq!(paid, 250);
    assert_eq!(
        transfers(&acts),
        vec![
            (CREATOR, PaymentToken::Egld, 0, 25),
            (SELLER, PaymentToken::Egld, 0, 200),
            (STRANGER, PaymentToken::Esdt(NFT), 1, 1),
            (OWNER, PaymentToken::Egld, 0, 25),
        ]
    );
}

#[test]
fn offer_indexes_follow_the_records() {
    let mut m = market();
    let id = send_offer(&mut m, 50);
    assert_eq!((m.get_offers_count(), m.does_offer_exist(id)), (1, true));
    m.withdraw_offer(&ctx(BUYER, 150), id).unwrap();
    assert_eq!((m.get_offers_count(), m.does_offer_exist(id)), (0, false));
    // only the last offer id moved on; the deposit sent with the offer stays
    assert_eq!(m.last_valid_offer_id, 1);
    assert_eq!(m.get_user_funds(BUYER, PaymentToken::Egld, 0), 50);
    assert_eq!(send_offer(&mut m, 50), 2);
    let (_, gid) = m
        .send_global_offer(&ctx(BUYER, 100), Payment { token: PaymentToken::Egld, nonce: 0, amount: 30 }, PaymentToken::Egld, 0, 30, NFT, 1, None)
        .unwrap();
    assert_eq!((m.get_global_offers_count(), m.does_global_offer_exist(gid)), (1, true));
    m.withdraw_global_offer(&ctx(BUYER, 150), gid).unwrap();
    assert_eq!((m.get_global_offers_count(), m.does_global_offer_exist(gid)), (0, false));
}
