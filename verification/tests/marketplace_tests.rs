use std::collections::HashMap;

use contracts::marketplace::{
    AuctionStatus, AuctionType, BulkAuctionItem, BulkListingItem, ListingStatus, MarketError, NftMarketplace,
    OfferStatus, RoyaltyRecipient, TokenStandard,
};
use contracts::token::Transfer;

const ADMIN: u64 = 1;
const FEE: u64 = 2;
const NFT: u64 = 10;
const CUR: u64 = 11;
const MKT: u64 = 100;
const T0: u64 = 1_000_000;

/// Token balances keyed by (token, account); every movement must be covered.
#[derive(Clone, Default)]
struct Ledger {
    balances: HashMap<(u64, u64), i128>,
}

impl Ledger {
    fn mint(&mut self, token: u64, to: u64, amount: i128) {
        *self.balances.entry((token, to)).or_insert(0) += amount;
    }

    fn balance(&self, token: u64, who: u64) -> i128 {
        *self.balances.get(&(token, who)).unwrap_or(&0)
    }

    fn apply(&mut self, ts: &[Transfer]) {
        for t in ts {
            let from = self.balance(t.token, t.from);
            assert!(from >= t.amount, "insufficient balance for {:?}", t);
            self.balances.insert((t.token, t.from), from - t.amount);
            *self.balances.entry((t.token, t.to)).or_insert(0) += t.amount;
        }
    }
}

fn mk_hash() -> Vec<u8> {
    (0..32u8).collect()
}

fn fresh(n: u64) -> u64 {
    1_000 + n
}

fn init() -> NftMarketplace {
    let mut c = NftMarketplace::initialize(MKT, ADMIN, 250, FEE, 500, 300).unwrap();
    c.set_currency(ADMIN, CUR, true).unwrap();
    c.register_collection(ADMIN, NFT, 7, b"ipfs://QmTest".to_vec(), &mk_hash(), TokenStandard::ERC721, vec![], T0)
        .unwrap();
    c
}

#[test]
fn init_sets_config() {
    let c = NftMarketplace::initialize(MKT, ADMIN, 250, FEE, 500, 300).unwrap();
    assert_eq!(c.platform_fee_bps(), 250);
    assert_eq!(c.fee_recipient_addr(), FEE);
    assert_eq!(c.bid_increment_bps(), 500);
    assert_eq!(c.auto_extension_seconds(), 300);
}

#[test]
fn init_rejects_bad_fee() {
    assert!(matches!(
        NftMarketplace::initialize(MKT, ADMIN, 10_001, FEE, 500, 300),
        Err(MarketError::InvalidArgument)
    ));
}

#[test]
fn set_fee_requires_admin() {
    let mut c = NftMarketplace::initialize(MKT, ADMIN, 250, FEE, 500, 300).unwrap();
    let u = fresh(1);
    assert_eq!(c.set_platform_fee(u, 100), Err(MarketError::Unauthorized));
}

#[test]
fn currency_whitelist() {
    let mut c = NftMarketplace::initialize(MKT, ADMIN, 250, FEE, 500, 300).unwrap();
    assert!(!c.is_currency_whitelisted(CUR));
    c.set_currency(ADMIN, CUR, true).unwrap();
    assert!(c.is_currency_whitelisted(CUR));
}

#[test]
fn register_collection() {
    let c = init();
    let info = c.get_collection(NFT).unwrap();
    assert_eq!(info.admin, ADMIN);
    assert_eq!(info.standard, TokenStandard::ERC721);
}

#[test]
fn register_collection_duplicate() {
    let mut c = init();
    assert_eq!(
        c.register_collection(ADMIN, NFT, 8, b"ipfs://x".to_vec(), &mk_hash(), TokenStandard::ERC721, vec![], T0),
        Err(MarketError::CollectionAlreadyRegistered)
    );
}

#[test]
fn list_and_buy() {
    let mut c = init();
    let mut l = Ledger::default();
    let seller = fresh(1);
    let buyer = fresh(2);
    l.mint(NFT, seller, 10);
    l.mint(CUR, buyer, 1_000_000);

    let (id, escrow) = c.list_nft(seller, NFT, 1, 1, 1_000, CUR, &mk_hash(), T0).unwrap();
    l.apply(&escrow);
    assert_eq!(id, 1);

    let ts = c.buy_nft(buyer, id).unwrap();
    l.apply(&ts);
    assert_eq!(c.get_listing(id).unwrap().status, ListingStatus::Sold);
    assert_eq!(l.balance(NFT, buyer), 1);
    assert_eq!(l.balance(CUR, FEE), 25);
    assert_eq!(l.balance(CUR, seller), 975);
}

#[test]
fn buy_rejects_already_sold() {
    let mut c = init();
    let seller = fresh(1);
    let b1 = fresh(2);
    let b2 = fresh(3);
    let (id, _) = c.list_nft(seller, NFT, 1, 1, 1_000, CUR, &mk_hash(), T0).unwrap();
    c.buy_nft(b1, id).unwrap();
    assert_eq!(c.buy_nft(b2, id), Err(MarketError::ListingAlreadySold));
}

#[test]
fn cancel_listing() {
    let mut c = init();
    let mut l = Ledger::default();
    let seller = fresh(1);
    l.mint(NFT, seller, 10);
    let (id, escrow) = c.list_nft(seller, NFT, 1, 1, 1_000, CUR, &mk_hash(), T0).unwrap();
    l.apply(&escrow);
    let back = c.cancel_listing(seller, id).unwrap();
    l.apply(&back);
    assert_eq!(c.get_listing(id).unwrap().status, ListingStatus::Cancelled);
    assert_eq!(l.balance(NFT, seller), 10);
}

#[test]
fn cancel_listing_not_owner() {
    let mut c = init();
    let seller = fresh(1);
    let other = fresh(2);
    let (id, _) = c.list_nft(seller, NFT, 1, 1, 1_000, CUR, &mk_hash(), T0).unwrap();
    assert_eq!(c.cancel_listing(other, id), Err(MarketError::NotOwner));
}

#[test]
fn list_rejects_unknown_currency() {
    let mut c = init();
    let seller = fresh(1);
    let bad = fresh(9);
    assert_eq!(
        c.list_nft(seller, NFT, 1, 1, 1_000, bad, &mk_hash(), T0).map(|_| ()),
        Err(MarketError::CurrencyNotWhitelisted)
    );
}

#[test]
fn list_rejects_bad_hash() {
    let mut c = init();
    let seller = fresh(1);
    assert_eq!(
        c.list_nft(seller, NFT, 1, 1, 1_000, CUR, &b"short".to_vec(), T0).map(|_| ()),
        Err(MarketError::InvalidMetadataHash)
    );
}

#[test]
fn english_auction_full_flow() {
    let mut c = init();
    let mut l = Ledger::default();
    let seller = fresh(1);
    let b1 = fresh(2);
    let b2 = fresh(3);
    l.mint(NFT, seller, 10);
    l.mint(CUR, b1, 100_000);
    l.mint(CUR, b2, 100_000);

    let (aid, escrow) = c.create_english_auction(seller, NFT, 1, 1, 1_000, CUR, 3_600, mk_hash(), T0).unwrap();
    l.apply(&escrow);

    l.apply(&c.place_bid(b1, aid, 1_000, T0).unwrap());
    l.apply(&c.place_bid(b2, aid, 1_100, T0).unwrap());

    let a = c.get_auction(aid).unwrap();
    assert_eq!(a.current_bid, 1_100);
    assert_eq!(a.current_bidder, b2);
    assert_eq!(l.balance(CUR, b1), 100_000);

    l.apply(&c.settle_english_auction(aid, T0 + 4_000).unwrap());
    assert_eq!(c.get_auction(aid).unwrap().status, AuctionStatus::Settled);
    assert_eq!(l.balance(NFT, b2), 1);

    let fee = 1_100 * 250 / 10_000;
    assert_eq!(l.balance(CUR, FEE), fee);
    assert_eq!(l.balance(CUR, seller), 1_100 - fee);
}

#[test]
fn english_auction_no_bids() {
    let mut c = init();
    let mut l = Ledger::default();
    let seller = fresh(1);
    l.mint(NFT, seller, 10);
    let (aid, escrow) = c.create_english_auction(seller, NFT, 1, 1, 1_000, CUR, 3_600, mk_hash(), T0).unwrap();
    l.apply(&escrow);
    l.apply(&c.settle_english_auction(aid, T0 + 4_000).unwrap());
    assert_eq!(l.balance(NFT, seller), 10);
}

#[test]
fn bid_too_low() {
    let mut c = init();
    let seller = fresh(1);
    let bidder = fresh(2);
    let (aid, _) = c.create_english_auction(seller, NFT, 1, 1, 1_000, CUR, 3_600, mk_hash(), T0).unwrap();
    assert_eq!(c.place_bid(bidder, aid, 500, T0), Err(MarketError::BidTooLow));
}

#[test]
fn bid_below_increment() {
    let mut c = init();
    let seller = fresh(1);
    let b1 = fresh(2);
    let b2 = fresh(3);
    let (aid, _) = c.create_english_auction(seller, NFT, 1, 1, 1_000, CUR, 3_600, mk_hash(), T0).unwrap();
    c.place_bid(b1, aid, 1_000, T0).unwrap();
    assert_eq!(c.place_bid(b2, aid, 1_020, T0), Err(MarketError::BidTooLow));
}

#[test]
fn cannot_outbid_self() {
    let mut c = init();
    let seller = fresh(1);
    let bidder = fresh(2);
    let (aid, _) = c.create_english_auction(seller, NFT, 1, 1, 1_000, CUR, 3_600, mk_hash(), T0).unwrap();
    c.place_bid(bidder, aid, 1_000, T0).unwrap();
    assert_eq!(c.place_bid(bidder, aid, 2_000, T0), Err(MarketError::BidderIsCurrentHighest));
}

#[test]
fn settle_too_early() {
    let mut c = init();
    let seller = fresh(1);
    let bidder = fresh(2);
    let (aid, _) = c.create_english_auction(seller, NFT, 1, 1, 1_000, CUR, 3_600, mk_hash(), T0).unwrap();
    c.place_bid(bidder, aid, 1_000, T0).unwrap();
    assert_eq!(c.settle_english_auction(aid, T0), Err(MarketError::AuctionNotYetEnded));
}

#[test]
fn auto_extends_on_late_bid() {
    let mut c = init();
    let seller = fresh(1);
    let b1 = fresh(2);
    let b2 = fresh(3);
    let (aid, _) = c.create_english_auction(seller, NFT, 1, 1, 1_000, CUR, 1_000, mk_hash(), T0).unwrap();
    c.place_bid(b1, aid, 1_000, 1_000_700).unwrap();
    assert_eq!(c.get_auction(aid).unwrap().end_time, 1_001_000);
    c.place_bid(b2, aid, 1_100, 1_000_900).unwrap();
    assert_eq!(c.get_auction(aid).unwrap().end_time, 1_001_200);
}

#[test]
fn dutch_price_decay() {
    let mut c = init();
    let seller = fresh(1);
    let (aid, _) = c.create_dutch_auction(seller, NFT, 1, 1, 10_000, 2_000, CUR, 1_000, mk_hash(), T0).unwrap();
    assert_eq!(c.dutch_auction_current_price(aid, T0), Ok(10_000));
    let mid = c.dutch_auction_current_price(aid, T0 + 500).unwrap();
    assert!(mid > 2_000 && mid < 10_000);
    assert_eq!(c.dutch_auction_current_price(aid, T0 + 1_100), Ok(2_000));
}

#[test]
fn buy_dutch_auction() {
    let mut c = init();
    let mut l = Ledger::default();
    let seller = fresh(1);
    let buyer = fresh(2);
    l.mint(NFT, seller, 10);
    l.mint(CUR, buyer, 1_000_000);
    let (aid, escrow) = c.create_dutch_auction(seller, NFT, 1, 1, 10_000, 2_000, CUR, 1_000, mk_hash(), T0).unwrap();
    l.apply(&escrow);
    l.apply(&c.buy_dutch_auction(buyer, aid, T0 + 250).unwrap());
    assert_eq!(l.balance(NFT, buyer), 1);
    let fee = 8_000 * 250 / 10_000;
    assert_eq!(l.balance(CUR, FEE), fee);
    assert_eq!(l.balance(CUR, seller), 8_000 - fee);
}

#[test]
fn cancel_dutch_auction() {
    let mut c = init();
    let mut l = Ledger::default();
    let seller = fresh(1);
    l.mint(NFT, seller, 10);
    let (aid, escrow) = c.create_dutch_auction(seller, NFT, 1, 1, 10_000, 2_000, CUR, 1_000, mk_hash(), T0).unwrap();
    l.apply(&escrow);
    l.apply(&c.cancel_dutch_auction(seller, aid).unwrap());
    assert_eq!(c.get_auction(aid).unwrap().status, AuctionStatus::Cancelled);
    assert_eq!(l.balance(NFT, seller), 10);
}

#[test]
fn make_and_accept_offer() {
    let mut c = init();
    let mut l = Ledger::default();
    let offerer = fresh(1);
    let recipient = fresh(2);
    l.mint(CUR, offerer, 100_000);
    l.mint(NFT, recipient, 10);
    let (oid, escrow) = c.make_offer(offerer, recipient, NFT, 1, 1, 5_000, CUR, fresh(3), 0, 3_600, T0).unwrap();
    l.apply(&escrow);
    assert_eq!(c.get_offer(oid).unwrap().status, OfferStatus::Pending);
    l.apply(&c.accept_offer(recipient, oid, T0).unwrap());
    assert_eq!(c.get_offer(oid).unwrap().status, OfferStatus::Accepted);
    let fee = 5_000 * 250 / 10_000;
    assert_eq!(l.balance(CUR, recipient), 5_000 - fee);
    assert_eq!(l.balance(CUR, FEE), fee);
}

#[test]
fn cancel_offer() {
    let mut c = init();
    let mut l = Ledger::default();
    let offerer = fresh(1);
    let recipient = fresh(2);
    l.mint(CUR, offerer, 100_000);
    let (oid, escrow) = c.make_offer(offerer, recipient, NFT, 1, 1, 5_000, CUR, fresh(3), 0, 3_600, T0).unwrap();
    l.apply(&escrow);
    l.apply(&c.cancel_offer(offerer, oid).unwrap());
    assert_eq!(c.get_offer(oid).unwrap().status, OfferStatus::Cancelled);
    assert_eq!(l.balance(CUR, offerer), 100_000);
}

#[test]
fn accept_offer_not_recipient() {
    let mut c = init();
    let offerer = fresh(1);
    let recipient = fresh(2);
    let other = fresh(3);
    let (oid, _) = c.make_offer(offerer, recipient, NFT, 1, 1, 5_000, CUR, fresh(4), 0, 3_600, T0).unwrap();
    assert_eq!(c.accept_offer(other, oid, T0), Err(MarketError::NotOfferRecipient));
}

#[test]
fn royalties_distributed() {
    let mut c = NftMarketplace::initialize(MKT, ADMIN, 250, FEE, 500, 300).unwrap();
    c.set_currency(ADMIN, CUR, true).unwrap();
    let creator1 = fresh(5);
    let creator2 = fresh(6);
    let rr = vec![
        RoyaltyRecipient { address: creator1, share_bps: 500 },
        RoyaltyRecipient { address: creator2, share_bps: 250 },
    ];
    c.register_collection(ADMIN, NFT, 7, b"ipfs://QmTest".to_vec(), &mk_hash(), TokenStandard::ERC721, rr, T0)
        .unwrap();

    let mut l = Ledger::default();
    let seller = fresh(1);
    let buyer = fresh(2);
    l.mint(NFT, seller, 10);
    l.mint(CUR, buyer, 1_000_000);
    let (id, escrow) = c.list_nft(seller, NFT, 1, 1, 10_000, CUR, &mk_hash(), T0).unwrap();
    l.apply(&escrow);
    l.apply(&c.buy_nft(buyer, id).unwrap());

    let fee = 10_000 * 250 / 10_000;
    let r1 = 10_000 * 500 / 10_000;
    let r2 = 10_000 * 250 / 10_000;
    assert_eq!(l.balance(CUR, FEE), fee);
    assert_eq!(l.balance(CUR, creator1), r1);
    assert_eq!(l.balance(CUR, creator2), r2);
    assert_eq!(l.balance(CUR, seller), 10_000 - fee - r1 - r2);
}

#[test]
fn bulk_list() {
    let mut c = init();
    let seller = fresh(1);
    let items: Vec<BulkListingItem> = (1..=5u64)
        .map(|i| BulkListingItem {
            collection: NFT,
            token_id: i,
            amount: 1,
            price: 1_000 * i as i128,
            currency: CUR,
            metadata_hash: mk_hash(),
        })
        .collect();
    let (r, _) = c.bulk_list(seller, &items, T0).unwrap();
    assert_eq!(r.succeeded, 5);
    assert_eq!(r.failed, 0);
}

#[test]
fn bulk_create_auctions() {
    let mut c = init();
    let seller = fresh(1);
    let items: Vec<BulkAuctionItem> = (1..=3u64)
        .map(|i| BulkAuctionItem {
            collection: NFT,
            token_id: i,
            amount: 1,
            auction_type: AuctionType::English,
            start_price: 1_000 * i as i128,
            floor_price: 0,
            currency: CUR,
            duration_seconds: 3_600,
            metadata_hash: mk_hash(),
        })
        .collect();
    let (r, _) = c.bulk_create_auctions(seller, &items, T0).unwrap();
    assert_eq!(r.succeeded, 3);
    assert_eq!(r.failed, 0);
}

#[test]
fn zero_price_rejected() {
    let mut c = init();
    assert_eq!(
        c.list_nft(fresh(1), NFT, 1, 1, 0, CUR, &mk_hash(), T0).map(|_| ()),
        Err(MarketError::InvalidAmount)
    );
}

#[test]
fn negative_price_rejected() {
    let mut c = init();
    assert_eq!(
        c.list_nft(fresh(1), NFT, 1, 1, -100, CUR, &mk_hash(), T0).map(|_| ()),
        Err(MarketError::InvalidAmount)
    );
}

#[test]
fn dutch_floor_gte_start() {
    let mut c = init();
    assert_eq!(
        c.create_dutch_auction(fresh(1), NFT, 1, 1, 5_000, 5_000, CUR, 1_000, mk_hash(), T0).map(|_| ()),
        Err(MarketError::InvalidDutchAuctionPrices)
    );
}

// ---------------------------------------------------------------------------
// Laws and edge cases on concrete values
// ---------------------------------------------------------------------------

#[test]
fn sale_split_adds_up_to_price() {
    let mut c = NftMarketplace::initialize(MKT, ADMIN, 250, FEE, 500, 300).unwrap();
    c.set_currency(ADMIN, CUR, true).unwrap();
    let rr = vec![RoyaltyRecipient { address: fresh(5), share_bps: 333 }];
    c.register_collection(ADMIN, NFT, 7, b"u".to_vec(), &mk_hash(), TokenStandard::ERC1155, rr, T0).unwrap();
    let (id, _) = c.list_nft(fresh(1), NFT, 1, 1, 9_999, CUR, &mk_hash(), T0).unwrap();
    let ts = c.buy_nft(fresh(2), id).unwrap();
    let paid: i128 = ts.iter().filter(|t| t.token == CUR).map(|t| t.amount).sum();
    assert_eq!(paid, 9_999);
    assert!(ts.iter().all(|t| t.token != CUR || t.from == fresh(2)));
}

#[test]
fn list_then_cancel_round_trip_and_paused_trading() {
    let mut c = init();
    let seller = fresh(1);
    let (id, escrow) = c.list_nft(seller, NFT, 9, 3, 50, CUR, &mk_hash(), T0).unwrap();
    let back = c.cancel_listing(seller, id).unwrap();
    assert_eq!(escrow, vec![Transfer { token: NFT, from: seller, to: MKT, amount: 3 }]);
    assert_eq!(back, vec![Transfer { token: NFT, from: MKT, to: seller, amount: 3 }]);
    assert_eq!(c.cancel_listing(seller, id), Err(MarketError::ListingAlreadySold));
    c.set_paused(true);
    assert_eq!(
        c.list_nft(seller, NFT, 1, 1, 10, CUR, &mk_hash(), T0).map(|_| ()),
        Err(MarketError::ContractPaused)
    );
}

#[test]
fn dutch_price_stays_in_band() {
    let mut c = init();
    let (aid, _) = c.create_dutch_auction(fresh(1), NFT, 1, 1, 10_000, 2_000, CUR, 1_000, mk_hash(), T0).unwrap();
    for dt in [0u64, 1, 250, 500, 999, 1_000, 5_000] {
        let p = c.dutch_auction_current_price(aid, T0 + dt).unwrap();
        assert!((2_000..=10_000).contains(&p));
    }
    assert_eq!(c.dutch_auction_current_price(aid, T0 + 250), Ok(8_000));
}

#[test]
fn outbid_bidder_is_refunded_exactly() {
    let mut c = init();
    let (aid, _) = c.create_english_auction(fresh(1), NFT, 1, 1, 1_000, CUR, 3_600, mk_hash(), T0).unwrap();
    c.place_bid(fresh(2), aid, 1_000, T0).unwrap();
    let ts = c.place_bid(fresh(3), aid, 1_050, T0).unwrap();
    assert_eq!(
        ts,
        vec![
            Transfer { token: CUR, from: MKT, to: fresh(2), amount: 1_000 },
            Transfer { token: CUR, from: fresh(3), to: MKT, amount: 1_050 },
        ]
    );
}

#[test]
fn pause_refuses_every_trading_call() {
    let mut c = init();
    let seller = fresh(1);
    let (lid, _) = c.list_nft(seller, NFT, 9, 1, 50, CUR, &mk_hash(), T0).unwrap();
    let (eid, _) = c.create_english_auction(seller, NFT, 2, 1, 1_000, CUR, 3_600, mk_hash(), T0).unwrap();
    let (did, _) = c.create_dutch_auction(seller, NFT, 3, 1, 10_000, 2_000, CUR, 1_000, mk_hash(), T0).unwrap();
    let (oid, _) = c.make_offer(fresh(2), seller, NFT, 4, 1, 500, CUR, 0, 0, 3_600, T0).unwrap();
    c.set_paused(true);
    let p = Err(MarketError::ContractPaused);
    assert_eq!(c.buy_nft(fresh(2), lid).map(|_| ()), p);
    assert_eq!(c.place_bid(fresh(2), eid, 2_000, T0).map(|_| ()), p);
    assert_eq!(c.settle_english_auction(eid, T0 + 10_000).map(|_| ()), p);
    assert_eq!(c.buy_dutch_auction(fresh(2), did, T0).map(|_| ()), p);
    assert_eq!(c.accept_offer(seller, oid, T0).map(|_| ()), p);
    assert_eq!(c.make_offer(fresh(2), seller, NFT, 5, 1, 500, CUR, 0, 0, 3_600, T0).map(|_| ()), p);
    let item = BulkListingItem { collection: NFT, token_id: 6, amount: 1, price: 10, currency: CUR, metadata_hash: mk_hash() };
    assert_eq!(c.bulk_list(seller, &vec![item], T0).map(|_| ()), p);
    c.set_paused(false);
    assert!(c.buy_nft(fresh(2), lid).is_ok());
}

#[test]
fn dutch_price_never_rises() {
    let mut c = init();
    let (aid, _) = c.create_dutch_auction(fresh(1), NFT, 1, 1, 10_000, 2_000, CUR, 1_000, mk_hash(), T0).unwrap();
    let mut last = i128::MAX;
    for dt in [0u64, 1, 3, 250, 251, 500, 777, 999, 1_000, 1_100] {
        let p = c.dutch_auction_current_price(aid, T0 + dt).unwrap();
        assert!(p <= last);
        last = p;
    }
    assert_eq!(c.dutch_auction_current_price(aid, T0 + 500), Ok(6_000));
    assert_eq!(c.dutch_auction_current_price(aid, T0 + 1_100), Ok(2_000));
}
