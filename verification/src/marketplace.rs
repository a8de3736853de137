//! NFT marketplace: fixed-price listings, English and Dutch auctions,
//! offers, royalties, collection management and bulk operations.
//!
//! The marketplace is a state value. Every operation either fails with a
//! [`MarketError`] and leaves the state untouched, or succeeds, updates the
//! state and returns the token movements it settles, in the order the host
//! must perform them. Times are ledger timestamps handed in by the caller.
use vstd::prelude::*;
use std::collections::HashMap;
use crate::bps::{checked_mul_bps, mul_bps, fits_i128};
use crate::token::Transfer;

verus! {

broadcast use vstd::std_specs::hash::group_hash_axioms;

// ===========================================================================
// Errors and constants
// ===========================================================================

/// Marketplace error codes (2000-2022).
#[derive(Clone, Copy, Debug, PartialEq, Eq, Structural)]
pub enum MarketError {
    ListingNotFound,
    ListingAlreadySold,
    NotOwner,
    CollectionAlreadyRegistered,
    CollectionNotFound,
    CurrencyNotWhitelisted,
    InvalidMetadataHash,
    InvalidRoyaltyRate,
    InvalidExtensionWindow,
    AuctionEnded,
    BidTooLow,
    BidderIsCurrentHighest,
    AuctionNotYetEnded,
    OfferExpired,
    OfferAlreadySettled,
    NotOfferRecipient,
    DutchAuctionPriceZero,
    InvalidDutchAuctionPrices,
    InvalidAmount,
    Overflow,
    ContractPaused,
    Unauthorized,
    InvalidArgument,
}

impl MarketError {
    pub open spec fn spec_code(&self) -> u32 {
        match self {
            MarketError::ListingNotFound => 2000,
            MarketError::ListingAlreadySold => 2001,
            MarketError::NotOwner => 2002,
            MarketError::CollectionAlreadyRegistered => 2003,
            MarketError::CollectionNotFound => 2004,
            MarketError::CurrencyNotWhitelisted => 2005,
            MarketError::InvalidMetadataHash => 2006,
            MarketError::InvalidRoyaltyRate => 2007,
            MarketError::InvalidExtensionWindow => 2008,
            MarketError::AuctionEnded => 2009,
            MarketError::BidTooLow => 2010,
            MarketError::BidderIsCurrentHighest => 2011,
            MarketError::AuctionNotYetEnded => 2012,
            MarketError::OfferExpired => 2013,
            MarketError::OfferAlreadySettled => 2014,
            MarketError::NotOfferRecipient => 2015,
            MarketError::DutchAuctionPriceZero => 2016,
            MarketError::InvalidDutchAuctionPrices => 2017,
            MarketError::InvalidAmount => 2018,
            MarketError::Overflow => 2019,
            MarketError::ContractPaused => 2020,
            MarketError::Unauthorized => 2021,
            MarketError::InvalidArgument => 2022,
        }
    }

    /// The numeric code of this error.
    pub fn code(&self) -> (c: u32)
        ensures
            c == self.spec_code(),
    {
        match self {
            MarketError::ListingNotFound => 2000,
            MarketError::ListingAlreadySold => 2001,
            MarketError::NotOwner => 2002,
            MarketError::CollectionAlreadyRegistered => 2003,
            MarketError::CollectionNotFound => 2004,
            MarketError::CurrencyNotWhitelisted => 2005,
            MarketError::InvalidMetadataHash => 2006,
            MarketError::InvalidRoyaltyRate => 2007,
            MarketError::InvalidExtensionWindow => 2008,
            MarketError::AuctionEnded => 2009,
            MarketError::BidTooLow => 2010,
            MarketError::BidderIsCurrentHighest => 2011,
            MarketError::AuctionNotYetEnded => 2012,
            MarketError::OfferExpired => 2013,
            MarketError::OfferAlreadySettled => 2014,
            MarketError::NotOfferRecipient => 2015,
            MarketError::DutchAuctionPriceZero => 2016,
            MarketError::InvalidDutchAuctionPrices => 2017,
            MarketError::InvalidAmount => 2018,
            MarketError::Overflow => 2019,
            MarketError::ContractPaused => 2020,
            MarketError::Unauthorized => 2021,
            MarketError::InvalidArgument => 2022,
        }
    }
}

pub const DEFAULT_PLATFORM_FEE_BPS: i128 = 250;
pub const DEFAULT_BID_INCREMENT_BPS: i128 = 500;
pub const DEFAULT_AUTO_EXTENSION_SECONDS: u64 = 300;
pub const MAX_ROYALTY_BPS: i128 = 1_000;
pub const MAX_FEE_BPS: i128 = 1_000;
pub const MAX_BID_INCREMENT_BPS: i128 = 5_000;
pub const MAX_AUTO_EXTENSION_SECONDS: u64 = 3_600;
pub const MAX_ROYALTY_RECIPIENTS: u32 = 10;
pub const MAX_BULK_SIZE: u32 = 50;
pub const METADATA_HASH_LEN: u32 = 32;
pub const MAX_DURATION_SECONDS: u64 = 604_800;

// ===========================================================================
// Types
// ===========================================================================

#[derive(Clone, Copy, Debug, PartialEq, Eq, Structural)]
pub enum TokenStandard {
    ERC721,
    ERC1155,
}

#[derive(Clone, Copy, Debug, PartialEq, Eq, Structural)]
pub enum ListingStatus {
    Active,
    Sold,
    Cancelled,
}

#[derive(Clone, Copy, Debug)]
pub struct Listing {
    pub id: u64,
    pub seller: u64,
    pub collection: u64,
    pub token_id: u64,
    pub amount: u64,
    pub price: i128,
    pub currency: u64,
    pub status: ListingStatus,
    pub created_at: u64,
    pub metadata_hash: [u8; 32],
}

#[derive(Clone, Copy, Debug, PartialEq, Eq, Structural)]
pub enum AuctionType {
    English,
    Dutch,
}

#[derive(Clone, Copy, Debug, PartialEq, Eq, Structural)]
pub enum AuctionStatus {
    Active,
    Ended,
    Settled,
    Cancelled,
}

#[derive(Clone, Copy, Debug)]
pub struct Auction {
    pub id: u64,
    pub auction_type: AuctionType,
    pub seller: u64,
    pub collection: u64,
    pub token_id: u64,
    pub amount: u64,
    pub currency: u64,
    pub start_price: i128,
    pub floor_price: i128,
    pub current_bid: i128,
    pub current_bidder: u64,
    pub status: AuctionStatus,
    pub start_time: u64,
    pub end_time: u64,
    pub auto_extension_window: u64,
}

#[derive(Clone, Copy, Debug, PartialEq, Eq, Structural)]
pub enum OfferStatus {
    Pending,
    Accepted,
    Cancelled,
    Expired,
}

#[derive(Clone, Copy, Debug, PartialEq, Eq, Structural)]
pub struct Offer {
    pub id: u64,
    pub offerer: u64,
    pub recipient: u64,
    pub collection: u64,
    pub token_id: u64,
    pub amount: u64,
    pub offer_amount: i128,
    pub currency: u64,
    pub offer_nft_collection: u64,
    pub offer_nft_token_id: u64,
    pub status: OfferStatus,
    pub created_at: u64,
    pub expires_at: u64,
}

#[derive(Clone, Copy, Debug, PartialEq, Eq, Structural)]
pub struct RoyaltyRecipient {
    pub address: u64,
    pub share_bps: i128,
}

/// Royalty split of a collection, as reported by [`NftMarketplace::get_collection`].
#[derive(Debug)]
pub struct RoyaltyConfig {
    pub recipients: Vec<RoyaltyRecipient>,
    pub total_bps: i128,
}

/// A registered collection, as reported by [`NftMarketplace::get_collection`].
#[derive(Debug)]
pub struct CollectionInfo {
    pub address: u64,
    pub admin: u64,
    pub name: u64,
    pub ipfs_uri: Vec<u8>,
    pub metadata_hash: [u8; 32],
    pub standard: TokenStandard,
    pub royalty_config: RoyaltyConfig,
    pub registered_at: u64,
    pub active_listings: u32,
    pub active_auctions: u32,
}

/// The fixed-size part of a registered collection.
#[derive(Clone, Copy, Debug)]
pub struct CollectionRecord {
    pub address: u64,
    pub admin: u64,
    pub name: u64,
    pub metadata_hash: [u8; 32],
    pub standard: TokenStandard,
    pub total_bps: i128,
    pub registered_at: u64,
    pub active_listings: u32,
    pub active_auctions: u32,
}

#[derive(Clone, Debug)]
pub struct BulkListingItem {
    pub collection: u64,
    pub token_id: u64,
    pub amount: u64,
    pub price: i128,
    pub currency: u64,
    pub metadata_hash: Vec<u8>,
}

#[derive(Clone, Debug)]
pub struct BulkAuctionItem {
    pub collection: u64,
    pub token_id: u64,
    pub amount: u64,
    pub auction_type: AuctionType,
    pub start_price: i128,
    pub floor_price: i128,
    pub currency: u64,
    pub duration_seconds: u64,
    pub metadata_hash: Vec<u8>,
}

#[derive(Debug)]
pub struct BulkResult {
    pub succeeded: u32,
    pub failed: u32,
    pub ids: Vec<u64>,
}

// ===========================================================================
// Abstract state
// ===========================================================================

/// The marketplace's state, as the contracts speak of it.
pub struct MarketView {
    /// This contract's own account, which holds escrowed NFTs and bids.
    pub contract: u64,
    pub admin: u64,
    pub paused: bool,
    pub platform_fee_bps: i128,
    pub fee_recipient: u64,
    pub bid_increment_bps: i128,
    pub auto_extension_seconds: u64,
    pub oracle: Option<u64>,
    pub currencies: Map<u64, bool>,
    pub collections: Map<u64, CollectionRecord>,
    pub collection_uris: Map<u64, Seq<u8>>,
    pub royalties: Map<u64, Seq<RoyaltyRecipient>>,
    pub listing_seq: u64,
    pub auction_seq: u64,
    pub offer_seq: u64,
    pub listings: Map<u64, Listing>,
    pub auctions: Map<u64, Auction>,
    /// The metadata hash recorded with each auction.
    pub auction_hashes: Map<u64, Seq<u8>>,
    pub offers: Map<u64, Offer>,
}

/// The marketplace contract's state.
pub struct NftMarketplace {
    contract: u64,
    admin: u64,
    paused: bool,
    platform_fee_bps: i128,
    fee_recipient: u64,
    bid_increment_bps: i128,
    auto_extension_seconds: u64,
    oracle: Option<u64>,
    currencies: HashMap<u64, bool>,
    collections: HashMap<u64, CollectionRecord>,
    collection_uris: HashMap<u64, Vec<u8>>,
    royalties: HashMap<u64, Vec<RoyaltyRecipient>>,
    listing_seq: u64,
    auction_seq: u64,
    offer_seq: u64,
    listings: HashMap<u64, Listing>,
    auctions: HashMap<u64, Auction>,
    auction_hashes: HashMap<u64, Vec<u8>>,
    offers: HashMap<u64, Offer>,
}

impl View for NftMarketplace {
    type V = MarketView;

    closed spec fn view(&self) -> MarketView {
        MarketView {
            contract: self.contract,
            admin: self.admin,
            paused: self.paused,
            platform_fee_bps: self.platform_fee_bps,
            fee_recipient: self.fee_recipient,
            bid_increment_bps: self.bid_increment_bps,
            auto_extension_seconds: self.auto_extension_seconds,
            oracle: self.oracle,
            currencies: self.currencies@,
            collections: self.collections@,
            collection_uris: self.collection_uris@.map_values(|v: Vec<u8>| v@),
            royalties: self.royalties@.map_values(|v: Vec<RoyaltyRecipient>| v@),
            listing_seq: self.listing_seq,
            auction_seq: self.auction_seq,
            offer_seq: self.offer_seq,
            listings: self.listings@,
            auctions: self.auctions@,
            auction_hashes: self.auction_hashes@.map_values(|v: Vec<u8>| v@),
            offers: self.offers@,
        }
    }
}

// ===========================================================================
// Specification helpers
// ===========================================================================

impl MarketView {
    /// Every registered collection has its URI and royalty split stored.
    pub open spec fn wf(self) -> bool {
        &&& self.collection_uris.dom() == self.collections.dom()
        &&& self.royalties.dom() == self.collections.dom()
        &&& self.auction_hashes.dom() == self.auctions.dom()
    }

    pub open spec fn currency_ok(self, currency: u64) -> bool {
        self.currencies.contains_key(currency) && self.currencies[currency]
    }

    /// The state with only the listing `id` replaced.
    pub open spec fn with_listing(self, id: u64, l: Listing) -> MarketView {
        MarketView { listings: self.listings.insert(id, l), ..self }
    }

    pub open spec fn with_auction(self, id: u64, a: Auction) -> MarketView {
        MarketView { auctions: self.auctions.insert(id, a), ..self }
    }

    pub open spec fn with_offer(self, id: u64, o: Offer) -> MarketView {
        MarketView { offers: self.offers.insert(id, o), ..self }
    }

    /// The collection statistics after adding `dl` listings and `da`
    /// auctions (each -1, 0 or 1); a count already at zero is not
    /// decremented, and an unregistered collection is untouched. `None` when
    /// a count would pass `u32::MAX`.
    pub open spec fn bump_stats(self, collection: u64, dl: int, da: int) -> Option<MarketView> {
        if !self.collections.contains_key(collection) {
            Some(self)
        } else {
            let c = self.collections[collection];
            let nl: int = if dl > 0 {
                c.active_listings + dl
            } else if dl < 0 && c.active_listings > 0 {
                c.active_listings + dl
            } else {
                c.active_listings as int
            };
            let na: int = if da > 0 {
                c.active_auctions + da
            } else if da < 0 && c.active_auctions > 0 {
                c.active_auctions + da
            } else {
                c.active_auctions as int
            };
            if nl > u32::MAX || na > u32::MAX {
                None
            } else {
                Some(
                    MarketView {
                        collections: self.collections.insert(
                            collection,
                            CollectionRecord {
                                active_listings: nl as u32,
                                active_auctions: na as u32,
                                ..c
                            },
                        ),
                        ..self
                    },
                )
            }
        }
    }

    /// The royalty payments owed on a sale at `price` in `collection`: one
    /// per recipient with a positive amount, in the recipients' order.
    pub open spec fn royalty_payments(self, collection: u64, price: i128) -> Seq<(u64, int)> {
        if self.collections.contains_key(collection) && self.collections[collection].total_bps > 0 {
            royalty_list(price as int, self.royalties[collection])
        } else {
            Seq::empty()
        }
    }

    /// How a sale at `price` in `collection` splits: platform fee, royalty
    /// payments and the seller's proceeds; `None` when a step overflows.
    pub open spec fn sale_split(self, collection: u64, price: i128) -> Option<
        (int, Seq<(u64, int)>, int),
    > {
        match mul_bps(price as int, self.platform_fee_bps as int) {
            None => None,
            Some(f) => {
                let fee = if f > 0 {
                    f
                } else {
                    0
                };
                let roy = self.royalty_payments(collection, price);
                let total = sum_payments(roy);
                if !fits_i128(total) || !fits_i128(price - fee) || !fits_i128(price - fee - total) {
                    None
                } else {
                    Some((fee, roy, price - fee - total))
                }
            },
        }
    }
}

/// `price * share / 10_000` rounded toward zero, 0 when the product
/// overflows.
pub open spec fn royalty_amount(price: int, share: int) -> int {
    match mul_bps(price, share) {
        Some(v) => v,
        None => 0,
    }
}

pub open spec fn royalty_list(price: int, rs: Seq<RoyaltyRecipient>) -> Seq<(u64, int)>
    decreases rs.len(),
{
    if rs.len() == 0 {
        Seq::empty()
    } else {
        let prev = royalty_list(price, rs.drop_last());
        let a = royalty_amount(price, rs.last().share_bps as int);
        if a > 0 {
            prev.push((rs.last().address, a))
        } else {
            prev
        }
    }
}

pub open spec fn sum_payments(s: Seq<(u64, int)>) -> int
    decreases s.len(),
{
    if s.len() == 0 {
        0
    } else {
        sum_payments(s.drop_last()) + s.last().1
    }
}

/// The movements that pay for a sale: the fee, each royalty, then the
/// proceeds; zero amounts are not moved.
pub open spec fn payment_transfers(
    currency: u64,
    payer: u64,
    fee_recipient: u64,
    fee: int,
    roy: Seq<(u64, int)>,
    seller: u64,
    proceeds: int,
) -> Seq<Transfer> {
    let f = if fee > 0 {
        seq![Transfer { token: currency, from: payer, to: fee_recipient, amount: fee as i128 }]
    } else {
        Seq::empty()
    };
    let r = roy.map_values(
        |p: (u64, int)| Transfer { token: currency, from: payer, to: p.0, amount: p.1 as i128 },
    );
    let s = if proceeds > 0 {
        seq![Transfer { token: currency, from: payer, to: seller, amount: proceeds as i128 }]
    } else {
        Seq::empty()
    };
    f + r + s
}

/// The movements that settle a sale at `price` of `amount` NFTs of
/// `collection`: payments from `payer`, then the NFTs from `nft_holder` to
/// `buyer`.
pub open spec fn sale_transfers(
    v: MarketView,
    currency: u64,
    collection: u64,
    price: i128,
    payer: u64,
    seller: u64,
    nft_holder: u64,
    buyer: u64,
    amount: u64,
) -> Option<Seq<Transfer>> {
    match v.sale_split(collection, price) {
        None => None,
        Some((fee, roy, proceeds)) => Some(
            payment_transfers(currency, payer, v.fee_recipient, fee, roy, seller, proceeds).push(
                Transfer { token: collection, from: nft_holder, to: buyer, amount: amount as i128 },
            ),
        ),
    }
}

/// The Dutch-auction price at time `now`: the start price until the start,
/// the floor from the end on, and in between a linear decay rounded toward
/// zero, never below 0; `None` when an intermediate value overflows.
pub open spec fn dutch_price(a: Auction, now: u64) -> Option<int> {
    if now >= a.end_time {
        Some(a.floor_price as int)
    } else if now <= a.start_time {
        Some(a.start_price as int)
    } else {
        let range = a.start_price - a.floor_price;
        let product = range * (now - a.start_time);
        let decay = crate::bps::trunc_div(product, (a.end_time - a.start_time) as int);
        let p = a.start_price - decay;
        if !fits_i128(range) || !fits_i128(product) || !fits_i128(p) {
            None
        } else if p > 0 {
            Some(p)
        } else {
            Some(0)
        }
    }
}

/// The 32-byte array holding `bytes`.
pub open spec fn hash32(bytes: Seq<u8>) -> [u8; 32] {
    choose|a: [u8; 32]| a@ == bytes
}

/// Copies a 32-byte hash into an array; `None` for any other length.
pub fn to_hash32(bytes: &Vec<u8>) -> (r: Option<[u8; 32]>)
    ensures
        r is Some <==> bytes@.len() == METADATA_HASH_LEN,
        r is Some ==> r->0 == hash32(bytes@) && r->0@ == bytes@,
{
    broadcast use vstd::array::group_array_axioms;
    if bytes.len() != 32 {
        return None;
    }
    let mut a: [u8; 32] = [0u8; 32];
    let mut i: usize = 0;
    while i < 32
        invariant
            bytes@.len() == 32,
            0 <= i <= 32,
            forall|j: int| 0 <= j < i ==> a@[j] == bytes@[j],
        decreases 32 - i,
    {
        a[i] = bytes[i];
        i = i + 1;
    }
    assert(a@ =~= bytes@);
    proof {
        let c = hash32(bytes@);
        assert(c@ == bytes@);
        assert(a =~= c);
    }
    Some(a)
}

impl MarketView {
    /// The first reason a fixed-price listing is refused, checked in this
    /// order: pause, price, currency, metadata hash, collection, id space.
    pub open spec fn list_error(
        self,
        collection: u64,
        price: i128,
        currency: u64,
        hash: Seq<u8>,
    ) -> Option<MarketError> {
        if self.paused {
            Some(MarketError::ContractPaused)
        } else if price <= 0 {
            Some(MarketError::InvalidAmount)
        } else if !self.currency_ok(currency) {
            Some(MarketError::CurrencyNotWhitelisted)
        } else if hash.len() != METADATA_HASH_LEN {
            Some(MarketError::InvalidMetadataHash)
        } else if !self.collections.contains_key(collection) {
            Some(MarketError::CollectionNotFound)
        } else if self.listing_seq == u64::MAX {
            Some(MarketError::Overflow)
        } else {
            None
        }
    }

    /// The listing created by a successful `list_nft`.
    pub open spec fn new_listing(
        self,
        seller: u64,
        collection: u64,
        token_id: u64,
        amount: u64,
        price: i128,
        currency: u64,
        hash: Seq<u8>,
        now: u64,
    ) -> Listing {
        Listing {
            id: (self.listing_seq + 1) as u64,
            seller,
            collection,
            token_id,
            amount,
            price,
            currency,
            status: ListingStatus::Active,
            created_at: now,
            metadata_hash: hash32(hash),
        }
    }

    /// The state after recording `l` as the next listing.
    pub open spec fn add_listing(self, l: Listing) -> Option<MarketView> {
        MarketView {
            listing_seq: l.id,
            listings: self.listings.insert(l.id, l),
            ..self
        }.bump_stats(l.collection, 1, 0)
    }

    /// Outcome of `list_nft`: the new state, the listing id and the NFT
    /// escrow movement.
    pub open spec fn list_nft_spec(
        self,
        seller: u64,
        collection: u64,
        token_id: u64,
        amount: u64,
        price: i128,
        currency: u64,
        hash: Seq<u8>,
        now: u64,
    ) -> Result<(MarketView, u64, Seq<Transfer>), MarketError> {
        match self.list_error(collection, price, currency, hash) {
            Some(e) => Err(e),
            None => {
                let l = self.new_listing(seller, collection, token_id, amount, price, currency, hash, now);
                match self.add_listing(l) {
                    None => Err(MarketError::Overflow),
                    Some(v) => Ok(
                        (
                            v,
                            l.id,
                            seq![Transfer { token: collection, from: seller, to: self.contract, amount: amount as i128 }],
                        ),
                    ),
                }
            },
        }
    }

    /// Outcome of `buy_nft`.
    pub open spec fn buy_nft_spec(self, buyer: u64, id: u64) -> Result<(MarketView, Seq<Transfer>), MarketError> {
        if self.paused {
            Err(MarketError::ContractPaused)
        } else if !self.listings.contains_key(id) {
            Err(MarketError::ListingNotFound)
        } else if self.listings[id].status != ListingStatus::Active {
            Err(MarketError::ListingAlreadySold)
        } else {
            let l = self.listings[id];
            match sale_transfers(self, l.currency, l.collection, l.price, buyer, l.seller, self.contract, buyer, l.amount) {
                None => Err(MarketError::Overflow),
                Some(ts) => match self.with_listing(id, Listing { status: ListingStatus::Sold, ..l }).bump_stats(l.collection, -1, 0) {
                    None => Err(MarketError::Overflow),
                    Some(v) => Ok((v, ts)),
                },
            }
        }
    }

    /// Outcome of `cancel_listing`.
    pub open spec fn cancel_listing_spec(self, caller: u64, id: u64) -> Result<(MarketView, Seq<Transfer>), MarketError> {
        if !self.listings.contains_key(id) {
            Err(MarketError::ListingNotFound)
        } else if self.listings[id].status != ListingStatus::Active {
            Err(MarketError::ListingAlreadySold)
        } else if self.listings[id].seller != caller {
            Err(MarketError::NotOwner)
        } else {
            let l = self.listings[id];
            match self.with_listing(id, Listing { status: ListingStatus::Cancelled, ..l }).bump_stats(l.collection, -1, 0) {
                None => Err(MarketError::Overflow),
                Some(v) => Ok((v, seq![Transfer { token: l.collection, from: self.contract, to: l.seller, amount: l.amount as i128 }])),
            }
        }
    }
}

/// Shares in range, with their total; the first out-of-range share refuses
/// the split.
pub open spec fn royalty_shares_valid(rs: Seq<RoyaltyRecipient>) -> bool {
    forall|i: int| 0 <= i < rs.len() ==> 0 <= #[trigger] rs[i].share_bps <= MAX_ROYALTY_BPS
}

pub open spec fn total_shares(rs: Seq<RoyaltyRecipient>) -> int
    decreases rs.len(),
{
    if rs.len() == 0 {
        0
    } else {
        total_shares(rs.drop_last()) + rs.last().share_bps
    }
}

proof fn lemma_royalty_list_sum_mono(price: int, rs: Seq<RoyaltyRecipient>, i: int)
    requires
        0 <= i <= rs.len(),
    ensures
        0 <= sum_payments(royalty_list(price, rs.take(i))) <= sum_payments(royalty_list(price, rs)),
    decreases rs.len(),
{
    if rs.len() > 0 {
        if i < rs.len() {
            assert(rs.drop_last().take(i) =~= rs.take(i));
            lemma_royalty_list_sum_mono(price, rs.drop_last(), i);
        } else {
            assert(rs.take(i) =~= rs);
            lemma_royalty_list_sum_mono(price, rs.drop_last(), rs.len() - 1);
            assert(rs.drop_last().take(rs.len() - 1) =~= rs.drop_last());
        }
        let prev = royalty_list(price, rs.drop_last());
        let a = royalty_amount(price, rs.last().share_bps as int);
        if a > 0 {
            assert(prev.push((rs.last().address, a)).drop_last() =~= prev);
        }
    } else {
        assert(rs.take(i) =~= rs);
    }
}


impl MarketView {
    /// The state right after `initialize`.
    pub open spec fn initial(
        contract: u64,
        admin: u64,
        platform_fee_bps: i128,
        fee_recipient: u64,
        bid_increment_bps: i128,
        auto_extension_seconds: u64,
    ) -> MarketView {
        MarketView {
            contract,
            admin,
            paused: false,
            platform_fee_bps,
            fee_recipient,
            bid_increment_bps,
            auto_extension_seconds,
            oracle: None,
            currencies: Map::empty(),
            collections: Map::empty(),
            collection_uris: Map::empty(),
            royalties: Map::empty(),
            listing_seq: 0,
            auction_seq: 0,
            offer_seq: 0,
            listings: Map::empty(),
            auctions: Map::empty(),
            auction_hashes: Map::empty(),
            offers: Map::empty(),
        }
    }

    /// The first reason a collection registration is refused.
    pub open spec fn register_error(
        self,
        caller: u64,
        collection: u64,
        hash: Seq<u8>,
        rs: Seq<RoyaltyRecipient>,
    ) -> Option<MarketError> {
        if caller != self.admin {
            Some(MarketError::Unauthorized)
        } else if self.collections.contains_key(collection) {
            Some(MarketError::CollectionAlreadyRegistered)
        } else if hash.len() != METADATA_HASH_LEN {
            Some(MarketError::InvalidMetadataHash)
        } else if !royalty_shares_valid(rs) {
            Some(MarketError::InvalidRoyaltyRate)
        } else if rs.len() > MAX_ROYALTY_RECIPIENTS {
            Some(MarketError::InvalidArgument)
        } else {
            None
        }
    }
}

/// Initialisation parameters are refused when the fee or the bid increment
/// is out of range.
pub open spec fn init_error(platform_fee_bps: i128, bid_increment_bps: i128) -> Option<MarketError> {
    if platform_fee_bps < 0 || platform_fee_bps > MAX_FEE_BPS {
        Some(MarketError::InvalidArgument)
    } else if bid_increment_bps < 0 || bid_increment_bps > MAX_BID_INCREMENT_BPS {
        Some(MarketError::InvalidArgument)
    } else {
        None
    }
}

/// `Ok` exactly when `price` is positive.
pub fn validate_price(price: i128) -> (r: Result<(), MarketError>)
    ensures
        price > 0 ==> r is Ok,
        price <= 0 ==> r == Err::<(), MarketError>(MarketError::InvalidAmount),
{
    if price <= 0 {
        return Err(MarketError::InvalidAmount);
    }
    Ok(())
}

/// The platform fee of a sale at `price`: `price * fee_bps / 10_000`
/// rounded toward zero and floored at 0; `Overflow` when the product does
/// not fit.
pub fn compute_platform_fee(price: i128, platform_fee_bps: i128) -> (r: Result<i128, MarketError>)
    ensures
        match mul_bps(price as int, platform_fee_bps as int) {
            None => r == Err::<i128, MarketError>(MarketError::Overflow),
            Some(f) => r == Ok::<i128, MarketError>(if f > 0 { f as i128 } else { 0 }),
        },
{
    let f = match checked_mul_bps(price, platform_fee_bps) {
        Some(f) => f,
        None => {
            return Err(MarketError::Overflow);
        },
    };
    Ok(if f > 0 { f } else { 0 })
}

fn sum_shares(rs: &Vec<RoyaltyRecipient>) -> (r: Result<i128, MarketError>)
    ensures
        r is Ok <==> royalty_shares_valid(rs@),
        r is Ok ==> r->Ok_0 == total_shares(rs@),
        r is Err ==> r == Err::<i128, MarketError>(MarketError::InvalidRoyaltyRate),
{
    let mut total: i128 = 0;
    let mut i: usize = 0;
    while i < rs.len()
        invariant
            i <= rs@.len(),
            total == total_shares(rs@.take(i as int)),
            0 <= total <= 1000 * i,
            royalty_shares_valid(rs@.take(i as int)),
        decreases rs.len() - i,
    {
        proof {
            assert(rs@.take(i as int + 1).drop_last() =~= rs@.take(i as int));
        }
        let r = rs[i];
        if r.share_bps < 0 || r.share_bps > MAX_ROYALTY_BPS {
            assert(!royalty_shares_valid(rs@)) by {
                assert(rs@[i as int] == r);
            }
            return Err(MarketError::InvalidRoyaltyRate);
        }
        total = total + r.share_bps;
        proof {
            assert forall|j: int| 0 <= j < rs@.take(i as int + 1).len() implies 0 <= #[trigger] rs@.take(
                i as int + 1,
            )[j].share_bps <= MAX_ROYALTY_BPS by {
                if j < i {
                    assert(rs@.take(i as int)[j] == rs@.take(i as int + 1)[j]);
                }
            }
        }
        i = i + 1;
    }
    assert(rs@.take(i as int) =~= rs@);
    Ok(total)
}

impl NftMarketplace {
    pub open spec fn wf(&self) -> bool {
        self@.wf()
    }

    /// Sets up a fresh marketplace held at account `contract`.
    pub fn initialize(
        contract: u64,
        admin: u64,
        platform_fee_bps: i128,
        fee_recipient: u64,
        bid_increment_bps: i128,
        auto_extension_seconds: u64,
    ) -> (r: Result<Self, MarketError>)
        ensures
            match init_error(platform_fee_bps, bid_increment_bps) {
                Some(e) => r is Err && r->Err_0 == e,
                None => r is Ok && r->Ok_0@ == MarketView::initial(
                    contract,
                    admin,
                    platform_fee_bps,
                    fee_recipient,
                    bid_increment_bps,
                    auto_extension_seconds,
                ),
            },
            r is Ok ==> r->Ok_0.wf(),
    {
        if platform_fee_bps < 0 || platform_fee_bps > MAX_FEE_BPS {
            return Err(MarketError::InvalidArgument);
        }
        if bid_increment_bps < 0 || bid_increment_bps > MAX_BID_INCREMENT_BPS {
            return Err(MarketError::InvalidArgument);
        }
        let m = NftMarketplace {
            contract,
            admin,
            paused: false,
            platform_fee_bps,
            fee_recipient,
            bid_increment_bps,
            auto_extension_seconds,
            oracle: None,
            currencies: HashMap::new(),
            collections: HashMap::new(),
            collection_uris: HashMap::new(),
            royalties: HashMap::new(),
            listing_seq: 0,
            auction_seq: 0,
            offer_seq: 0,
            listings: HashMap::new(),
            auctions: HashMap::new(),
            auction_hashes: HashMap::new(),
            offers: HashMap::new(),
        };
        assert(m@.auction_hashes =~= Map::empty());
        assert(m@.collection_uris =~= Map::empty());
        assert(m@.royalties =~= Map::empty());
        Ok(m)
    }

    /// Initialising again: the configuration is replaced, the whitelist and
    /// the collections are emptied and the id sequences restart; stored
    /// listings, auctions, offers, the oracle and the pause flag stay.
    pub fn reinitialize(
        &mut self,
        admin: u64,
        platform_fee_bps: i128,
        fee_recipient: u64,
        bid_increment_bps: i128,
        auto_extension_seconds: u64,
    ) -> (r: Result<(), MarketError>)
        requires
            old(self).wf(),
        ensures
            match init_error(platform_fee_bps, bid_increment_bps) {
                Some(e) => r == Err::<(), MarketError>(e) && final(self)@ == old(self)@,
                None => r is Ok && final(self)@ == (MarketView {
                    listings: old(self)@.listings,
                    auctions: old(self)@.auctions,
                    auction_hashes: old(self)@.auction_hashes,
                    offers: old(self)@.offers,
                    oracle: old(self)@.oracle,
                    paused: old(self)@.paused,
                    ..MarketView::initial(
                        old(self)@.contract,
                        admin,
                        platform_fee_bps,
                        fee_recipient,
                        bid_increment_bps,
                        auto_extension_seconds,
                    )
                }),
            },
            final(self).wf(),
    {
        if platform_fee_bps < 0 || platform_fee_bps > MAX_FEE_BPS {
            return Err(MarketError::InvalidArgument);
        }
        if bid_increment_bps < 0 || bid_increment_bps > MAX_BID_INCREMENT_BPS {
            return Err(MarketError::InvalidArgument);
        }
        self.admin = admin;
        self.platform_fee_bps = platform_fee_bps;
        self.fee_recipient = fee_recipient;
        self.bid_increment_bps = bid_increment_bps;
        self.auto_extension_seconds = auto_extension_seconds;
        self.currencies = HashMap::new();
        self.collections = HashMap::new();
        self.collection_uris = HashMap::new();
        self.royalties = HashMap::new();
        self.listing_seq = 0;
        self.auction_seq = 0;
        self.offer_seq = 0;
        assert(self@.collection_uris =~= Map::empty());
        assert(self@.royalties =~= Map::empty());
        Ok(())
    }

    /// Writes the shared pause flag that guards trading operations.
    pub fn set_paused(&mut self, paused: bool)
        requires
            old(self).wf(),
        ensures
            final(self)@ == (MarketView { paused, ..old(self)@ }),
            final(self).wf(),
    {
        self.paused = paused;
    }

    fn require_admin(&self, caller: u64) -> (r: Result<(), MarketError>)
        ensures
            r is Ok <==> caller == self@.admin,
            r is Err ==> r == Err::<(), MarketError>(MarketError::Unauthorized),
    {
        if caller != self.admin {
            return Err(MarketError::Unauthorized);
        }
        Ok(())
    }

    // -----------------------------------------------------------------------
    // Configuration
    // -----------------------------------------------------------------------

    /// Admin only; the fee must lie in `0..=1000` basis points.
    pub fn set_platform_fee(&mut self, caller: u64, new_fee_bps: i128) -> (r: Result<(), MarketError>)
        requires
            old(self).wf(),
        ensures
            caller != old(self)@.admin ==> r == Err::<(), MarketError>(MarketError::Unauthorized),
            caller == old(self)@.admin && (new_fee_bps < 0 || new_fee_bps > MAX_FEE_BPS) ==> r
                == Err::<(), MarketError>(MarketError::InvalidArgument),
            r is Ok <==> caller == old(self)@.admin && 0 <= new_fee_bps <= MAX_FEE_BPS,
            r is Ok ==> final(self)@ == (MarketView { platform_fee_bps: new_fee_bps, ..old(self)@ }),
            r is Err ==> final(self)@ == old(self)@,
            final(self).wf(),
    {
        self.require_admin(caller)?;
        if new_fee_bps < 0 || new_fee_bps > MAX_FEE_BPS {
            return Err(MarketError::InvalidArgument);
        }
        self.platform_fee_bps = new_fee_bps;
        Ok(())
    }

    /// Admin only.
    pub fn set_fee_recipient(&mut self, caller: u64, new_recipient: u64) -> (r: Result<(), MarketError>)
        requires
            old(self).wf(),
        ensures
            r is Ok <==> caller == old(self)@.admin,
            r is Err ==> r == Err::<(), MarketError>(MarketError::Unauthorized) && final(self)@ == old(self)@,
            r is Ok ==> final(self)@ == (MarketView { fee_recipient: new_recipient, ..old(self)@ }),
            final(self).wf(),
    {
        self.require_admin(caller)?;
        self.fee_recipient = new_recipient;
        Ok(())
    }

    /// Admin only; the increment must lie in `0..=5000` basis points.
    pub fn set_bid_increment(&mut self, caller: u64, bps: i128) -> (r: Result<(), MarketError>)
        requires
            old(self).wf(),
        ensures
            caller != old(self)@.admin ==> r == Err::<(), MarketError>(MarketError::Unauthorized),
            caller == old(self)@.admin && (bps < 0 || bps > MAX_BID_INCREMENT_BPS) ==> r == Err::<
                (),
                MarketError,
            >(MarketError::InvalidArgument),
            r is Ok <==> caller == old(self)@.admin && 0 <= bps <= MAX_BID_INCREMENT_BPS,
            r is Ok ==> final(self)@ == (MarketView { bid_increment_bps: bps, ..old(self)@ }),
            r is Err ==> final(self)@ == old(self)@,
            final(self).wf(),
    {
        self.require_admin(caller)?;
        if bps < 0 || bps > MAX_BID_INCREMENT_BPS {
            return Err(MarketError::InvalidArgument);
        }
        self.bid_increment_bps = bps;
        Ok(())
    }

    /// Admin only; the window must not exceed an hour.
    pub fn set_auto_extension(&mut self, caller: u64, seconds: u64) -> (r: Result<(), MarketError>)
        requires
            old(self).wf(),
        ensures
            caller != old(self)@.admin ==> r == Err::<(), MarketError>(MarketError::Unauthorized),
            caller == old(self)@.admin && seconds > MAX_AUTO_EXTENSION_SECONDS ==> r == Err::<
                (),
                MarketError,
            >(MarketError::InvalidExtensionWindow),
            r is Ok <==> caller == old(self)@.admin && seconds <= MAX_AUTO_EXTENSION_SECONDS,
            r is Ok ==> final(self)@ == (MarketView { auto_extension_seconds: seconds, ..old(self)@ }),
            r is Err ==> final(self)@ == old(self)@,
            final(self).wf(),
    {
        self.require_admin(caller)?;
        if seconds > MAX_AUTO_EXTENSION_SECONDS {
            return Err(MarketError::InvalidExtensionWindow);
        }
        self.auto_extension_seconds = seconds;
        Ok(())
    }

    /// Admin only: whitelists or delists a payment currency.
    pub fn set_currency(&mut self, caller: u64, currency: u64, whitelisted: bool) -> (r: Result<
        (),
        MarketError,
    >)
        requires
            old(self).wf(),
        ensures
            r is Ok <==> caller == old(self)@.admin,
            r is Err ==> r == Err::<(), MarketError>(MarketError::Unauthorized) && final(self)@ == old(self)@,
            r is Ok ==> final(self)@ == (MarketView {
                currencies: old(self)@.currencies.insert(currency, whitelisted),
                ..old(self)@
            }),
            final(self).wf(),
    {
        self.require_admin(caller)?;
        self.currencies.insert(currency, whitelisted);
        Ok(())
    }

    /// Admin only: records the price oracle's account.
    pub fn set_oracle(&mut self, caller: u64, oracle: u64) -> (r: Result<(), MarketError>)
        requires
            old(self).wf(),
        ensures
            r is Ok <==> caller == old(self)@.admin,
            r is Err ==> r == Err::<(), MarketError>(MarketError::Unauthorized) && final(self)@ == old(self)@,
            r is Ok ==> final(self)@ == (MarketView { oracle: Some(oracle), ..old(self)@ }),
            final(self).wf(),
    {
        self.require_admin(caller)?;
        self.oracle = Some(oracle);
        Ok(())
    }

    pub fn platform_fee_bps(&self) -> (r: i128)
        ensures
            r == self@.platform_fee_bps,
    {
        self.platform_fee_bps
    }

    pub fn fee_recipient_addr(&self) -> (r: u64)
        ensures
            r == self@.fee_recipient,
    {
        self.fee_recipient
    }

    pub fn bid_increment_bps(&self) -> (r: i128)
        ensures
            r == self@.bid_increment_bps,
    {
        self.bid_increment_bps
    }

    pub fn auto_extension_seconds(&self) -> (r: u64)
        ensures
            r == self@.auto_extension_seconds,
    {
        self.auto_extension_seconds
    }

    pub fn is_currency_whitelisted(&self, currency: u64) -> (r: bool)
        ensures
            r == self@.currency_ok(currency),
    {
        match self.currencies.get(&currency) {
            Some(b) => *b,
            None => false,
        }
    }

    pub fn oracle_address(&self) -> (r: Option<u64>)
        ensures
            r == self@.oracle,
    {
        self.oracle
    }

    // -----------------------------------------------------------------------
    // Collections
    // -----------------------------------------------------------------------

    /// Admin only: registers a collection with its royalty split (at most
    /// ten recipients, each share in `0..=1000` basis points).
    pub fn register_collection(
        &mut self,
        caller: u64,
        collection: u64,
        name: u64,
        ipfs_uri: Vec<u8>,
        metadata_hash: &Vec<u8>,
        standard: TokenStandard,
        royalty_recipients: Vec<RoyaltyRecipient>,
        now: u64,
    ) -> (r: Result<(), MarketError>)
        requires
            old(self).wf(),
        ensures
            match old(self)@.register_error(caller, collection, metadata_hash@, royalty_recipients@) {
                Some(e) => r == Err::<(), MarketError>(e) && final(self)@ == old(self)@,
                None => r is Ok && final(self)@ == (MarketView {
                    collections: old(self)@.collections.insert(
                        collection,
                        CollectionRecord {
                            address: collection,
                            admin: caller,
                            name,
                            metadata_hash: hash32(metadata_hash@),
                            standard,
                            total_bps: total_shares(royalty_recipients@) as i128,
                            registered_at: now,
                            active_listings: 0,
                            active_auctions: 0,
                        },
                    ),
                    collection_uris: old(self)@.collection_uris.insert(collection, ipfs_uri@),
                    royalties: old(self)@.royalties.insert(collection, royalty_recipients@),
                    ..old(self)@
                }),
            },
            final(self).wf(),
    {
        self.require_admin(caller)?;
        if self.collections.contains_key(&collection) {
            return Err(MarketError::CollectionAlreadyRegistered);
        }
        let hash = match to_hash32(metadata_hash) {
            Some(h) => h,
            None => {
                return Err(MarketError::InvalidMetadataHash);
            },
        };
        let total_bps = sum_shares(&royalty_recipients)?;
        if royalty_recipients.len() > MAX_ROYALTY_RECIPIENTS as usize {
            return Err(MarketError::InvalidArgument);
        }
        let info = CollectionRecord {
            address: collection,
            admin: caller,
            name,
            metadata_hash: hash,
            standard,
            total_bps,
            registered_at: now,
            active_listings: 0,
            active_auctions: 0,
        };
        self.collections.insert(collection, info);
        let ghost uri = ipfs_uri@;
        let ghost rs = royalty_recipients@;
        self.collection_uris.insert(collection, ipfs_uri);
        self.royalties.insert(collection, royalty_recipients);
        proof {
            assert(self@.collection_uris =~= old(self)@.collection_uris.insert(collection, uri));
            assert(self@.royalties =~= old(self)@.royalties.insert(collection, rs));
        }
        Ok(())
    }

    /// The collection's admin replaces its royalty split (shares in
    /// `0..=1000` basis points; the number of recipients is not limited).
    pub fn set_collection_royalties(
        &mut self,
        caller: u64,
        collection: u64,
        royalty_recipients: Vec<RoyaltyRecipient>,
    ) -> (r: Result<(), MarketError>)
        requires
            old(self).wf(),
        ensures
            !old(self)@.collections.contains_key(collection) ==> r == Err::<(), MarketError>(
                MarketError::CollectionNotFound,
            ),
            old(self)@.collections.contains_key(collection) && old(self)@.collections[collection].admin
                != caller ==> r == Err::<(), MarketError>(MarketError::Unauthorized),
            old(self)@.collections.contains_key(collection) && old(self)@.collections[collection].admin
                == caller && !royalty_shares_valid(royalty_recipients@) ==> r == Err::<(), MarketError>(
                MarketError::InvalidRoyaltyRate,
            ),
            r is Ok <==> old(self)@.collections.contains_key(collection)
                && old(self)@.collections[collection].admin == caller && royalty_shares_valid(
                royalty_recipients@,
            ),
            r is Err ==> final(self)@ == old(self)@,
            r is Ok ==> final(self)@ == (MarketView {
                collections: old(self)@.collections.insert(
                    collection,
                    CollectionRecord {
                        total_bps: total_shares(royalty_recipients@) as i128,
                        ..old(self)@.collections[collection]
                    },
                ),
                royalties: old(self)@.royalties.insert(collection, royalty_recipients@),
                ..old(self)@
            }),
            final(self).wf(),
    {
        let info = match self.collections.get(&collection) {
            Some(i) => *i,
            None => {
                return Err(MarketError::CollectionNotFound);
            },
        };
        if info.admin != caller {
            return Err(MarketError::Unauthorized);
        }
        let total_bps = sum_shares(&royalty_recipients)?;
        self.collections.insert(collection, CollectionRecord { total_bps, ..info });
        let ghost rs = royalty_recipients@;
        self.royalties.insert(collection, royalty_recipients);
        proof {
            assert(self@.royalties =~= old(self)@.royalties.insert(collection, rs));
            assert(self@.collections.dom() =~= old(self)@.collections.dom());
            assert(self@.royalties.dom() =~= old(self)@.royalties.dom());
        }
        Ok(())
    }

    /// The registered collection with its URI and royalty split.
    pub fn get_collection(&self, collection: u64) -> (r: Result<CollectionInfo, MarketError>)
        requires
            self.wf(),
        ensures
            r is Err <==> !self@.collections.contains_key(collection),
            r is Err ==> r->Err_0 == MarketError::CollectionNotFound,
            r is Ok ==> {
                let c = self@.collections[collection];
                let i = r->Ok_0;
                &&& i.address == c.address
                &&& i.admin == c.admin
                &&& i.name == c.name
                &&& i.ipfs_uri@ == self@.collection_uris[collection]
                &&& i.metadata_hash == c.metadata_hash
                &&& i.standard == c.standard
                &&& i.royalty_config.recipients@ == self@.royalties[collection]
                &&& i.royalty_config.total_bps == c.total_bps
                &&& i.registered_at == c.registered_at
                &&& i.active_listings == c.active_listings
                &&& i.active_auctions == c.active_auctions
            },
    {
        let c = match self.collections.get(&collection) {
            Some(c) => *c,
            None => {
                return Err(MarketError::CollectionNotFound);
            },
        };
        assert(self.collection_uris@.contains_key(collection));
        assert(self.royalties@.contains_key(collection));
        let uri = match self.collection_uris.get(&collection) {
            Some(u) => u.clone(),
            None => Vec::new(),
        };
        let rs = match self.royalties.get(&collection) {
            Some(v) => v.clone(),
            None => Vec::new(),
        };
        proof {
            assert(uri@ =~= self@.collection_uris[collection]);
            assert(rs@ =~= self@.royalties[collection]);
        }
        Ok(CollectionInfo {
            address: c.address,
            admin: c.admin,
            name: c.name,
            ipfs_uri: uri,
            metadata_hash: c.metadata_hash,
            standard: c.standard,
            royalty_config: RoyaltyConfig { recipients: rs, total_bps: c.total_bps },
            registered_at: c.registered_at,
            active_listings: c.active_listings,
            active_auctions: c.active_auctions,
        })
    }
}


/// The movement that pays royalty `p` in `currency` from `payer`.
pub open spec fn royalty_transfer(currency: u64, payer: u64, p: (u64, int)) -> Transfer {
    Transfer { token: currency, from: payer, to: p.0, amount: p.1 as i128 }
}

impl NftMarketplace {
    // -----------------------------------------------------------------------
    // Internal helpers
    // -----------------------------------------------------------------------

    fn update_collection_stats(&mut self, collection: u64, dl: i8, da: i8) -> (r: Result<(), MarketError>)
        requires
            old(self).wf(),
            -1 <= dl <= 1,
            -1 <= da <= 1,
        ensures
            match old(self)@.bump_stats(collection, dl as int, da as int) {
                None => r == Err::<(), MarketError>(MarketError::Overflow) && final(self)@ == old(self)@,
                Some(v) => r is Ok && final(self)@ == v,
            },
            final(self).wf(),
    {
        let c = match self.collections.get(&collection) {
            Some(c) => *c,
            None => {
                return Ok(());
            },
        };
        let mut nl: u32 = c.active_listings;
        if dl > 0 {
            if nl == u32::MAX {
                return Err(MarketError::Overflow);
            }
            nl = nl + 1;
        } else if dl < 0 && nl > 0 {
            nl = nl - 1;
        }
        let mut na: u32 = c.active_auctions;
        if da > 0 {
            if na == u32::MAX {
                return Err(MarketError::Overflow);
            }
            na = na + 1;
        } else if da < 0 && na > 0 {
            na = na - 1;
        }
        self.collections.insert(collection, CollectionRecord { active_listings: nl, active_auctions: na, ..c });
        proof {
            assert(self@.collections.dom() =~= old(self)@.collections.dom());
        }
        Ok(())
    }

    fn royalty_transfers(&self, currency: u64, collection: u64, price: i128, payer: u64) -> (r: Result<
        (Vec<Transfer>, i128),
        MarketError,
    >)
        requires
            self.wf(),
        ensures
            ({
                let roy = self@.royalty_payments(collection, price);
                match r {
                    Ok((ts, total)) => ts@ == roy.map_values(|p: (u64, int)| royalty_transfer(currency, payer, p))
                        && total == sum_payments(roy) && fits_i128(sum_payments(roy)),
                    Err(e) => e == MarketError::Overflow && !fits_i128(sum_payments(roy)),
                }
            }),
    {
        let mut out: Vec<Transfer> = Vec::new();
        let total_bps = match self.collections.get(&collection) {
            Some(c) => c.total_bps,
            None => {
                assert(out@ =~= Seq::<(u64, int)>::empty().map_values(
                    |p: (u64, int)| royalty_transfer(currency, payer, p),
                ));
                return Ok((out, 0));
            },
        };
        if total_bps <= 0 {
            assert(out@ =~= Seq::<(u64, int)>::empty().map_values(
                |p: (u64, int)| royalty_transfer(currency, payer, p),
            ));
            return Ok((out, 0));
        }
        assert(self.royalties@.contains_key(collection));
        let rs: &Vec<RoyaltyRecipient> = match self.royalties.get(&collection) {
            Some(v) => v,
            None => {
                return Ok((out, 0));
            },
        };
        let ghost all = royalty_list(price as int, rs@);
        assert(self@.royalties[collection] == rs@);
        assert(self@.royalty_payments(collection, price) == all);
        let mut total: i128 = 0;
        let mut i: usize = 0;
        while i < rs.len()
            invariant
                i <= rs@.len(),
                all == royalty_list(price as int, rs@),
                self@.royalty_payments(collection, price) == all,
                out@ == royalty_list(price as int, rs@.take(i as int)).map_values(
                    |p: (u64, int)| royalty_transfer(currency, payer, p),
                ),
                total == sum_payments(royalty_list(price as int, rs@.take(i as int))),
            decreases rs.len() - i,
        {
            let ghost prev = royalty_list(price as int, rs@.take(i as int));
            proof {
                assert(rs@.take(i as int + 1).drop_last() =~= rs@.take(i as int));
                assert(rs@.take(i as int + 1).last() == rs@[i as int]);
            }
            let rr = rs[i];
            let a: i128 = match checked_mul_bps(price, rr.share_bps) {
                Some(v) => v,
                None => 0,
            };
            if a > 0 {
                proof {
                    lemma_royalty_list_sum_mono(price as int, rs@, i as int + 1);
                    assert(royalty_list(price as int, rs@.take(i as int + 1)) == prev.push((rr.address, a as int)));
                    assert(prev.push((rr.address, a as int)).drop_last() =~= prev);
                }
                total = match total.checked_add(a) {
                    Some(t) => t,
                    None => {
                        proof {
                            let next = prev.push((rr.address, a as int));
                            assert(sum_payments(next) == sum_payments(prev) + a);
                            assert(sum_payments(royalty_list(price as int, rs@.take(i as int + 1))) > i128::MAX);
                            assert(self@.royalty_payments(collection, price) == all);
                        }
                        return Err(MarketError::Overflow);
                    },
                };
                out.push(Transfer { token: currency, from: payer, to: rr.address, amount: a });
                proof {
                    assert(out@ =~= prev.push((rr.address, a as int)).map_values(
                        |p: (u64, int)| royalty_transfer(currency, payer, p),
                    ));
                }
            }
            i = i + 1;
        }
        proof {
            assert(rs@.take(i as int) =~= rs@);
        }
        Ok((out, total))
    }

    fn settle_sale(
        &self,
        currency: u64,
        collection: u64,
        price: i128,
        payer: u64,
        seller: u64,
        nft_holder: u64,
        buyer: u64,
        amount: u64,
    ) -> (r: Result<Vec<Transfer>, MarketError>)
        requires
            self.wf(),
        ensures
            match sale_transfers(self@, currency, collection, price, payer, seller, nft_holder, buyer, amount) {
                None => r == Err::<Vec<Transfer>, MarketError>(MarketError::Overflow),
                Some(ts) => r is Ok && r->Ok_0@ == ts,
            },
    {
        let fee = compute_platform_fee(price, self.platform_fee_bps)?;
        let (mut roy, total) = self.royalty_transfers(currency, collection, price, payer)?;
        let net = match price.checked_sub(fee) {
            Some(v) => v,
            None => {
                return Err(MarketError::Overflow);
            },
        };
        let proceeds = match net.checked_sub(total) {
            Some(v) => v,
            None => {
                return Err(MarketError::Overflow);
            },
        };
        let ghost roy_seq = roy@;
        let mut out: Vec<Transfer> = Vec::new();
        if fee > 0 {
            out.push(Transfer { token: currency, from: payer, to: self.fee_recipient, amount: fee });
        }
        let ghost fee_part = out@;
        out.append(&mut roy);
        if proceeds > 0 {
            out.push(Transfer { token: currency, from: payer, to: seller, amount: proceeds });
        }
        out.push(Transfer { token: collection, from: nft_holder, to: buyer, amount: amount as i128 });
        proof {
            let (fee_s, roy_s, proceeds_s) = self@.sale_split(collection, price)->0;
            assert(fee_s == fee);
            assert(proceeds_s == proceeds);
            assert(roy_seq == roy_s.map_values(|p: (u64, int)| royalty_transfer(currency, payer, p)));
            assert(roy_s.map_values(|p: (u64, int)| royalty_transfer(currency, payer, p)) =~= roy_s.map_values(
                |p: (u64, int)| Transfer { token: currency, from: payer, to: p.0, amount: p.1 as i128 },
            ));
            assert(out@ =~= payment_transfers(
                currency,
                payer,
                self@.fee_recipient,
                fee_s,
                roy_s,
                seller,
                proceeds_s,
            ).push(Transfer { token: collection, from: nft_holder, to: buyer, amount: amount as i128 }));
        }
        Ok(out)
    }

    // -----------------------------------------------------------------------
    // Fixed-price listings
    // -----------------------------------------------------------------------

    /// Lists `amount` NFTs `token_id` of `collection` at `price` in
    /// `currency`; the NFTs move into the marketplace's escrow.
    pub fn list_nft(
        &mut self,
        seller: u64,
        collection: u64,
        token_id: u64,
        amount: u64,
        price: i128,
        currency: u64,
        metadata_hash: &Vec<u8>,
        now: u64,
    ) -> (r: Result<(u64, Vec<Transfer>), MarketError>)
        requires
            old(self).wf(),
        ensures
            match old(self)@.list_nft_spec(seller, collection, token_id, amount, price, currency, metadata_hash@, now) {
                Err(e) => r is Err && r->Err_0 == e && final(self)@ == old(self)@,
                Ok((v, id, ts)) => r is Ok && r->Ok_0.0 == id && r->Ok_0.1@ == ts && final(self)@ == v,
            },
            final(self).wf(),
    {
        if self.paused {
            return Err(MarketError::ContractPaused);
        }
        validate_price(price)?;
        if !self.is_currency_whitelisted(currency) {
            return Err(MarketError::CurrencyNotWhitelisted);
        }
        let hash = match to_hash32(metadata_hash) {
            Some(h) => h,
            None => {
                return Err(MarketError::InvalidMetadataHash);
            },
        };
        if !self.collections.contains_key(&collection) {
            return Err(MarketError::CollectionNotFound);
        }
        if self.listing_seq == u64::MAX {
            return Err(MarketError::Overflow);
        }
        let id = self.listing_seq + 1;
        let listing = Listing {
            id,
            seller,
            collection,
            token_id,
            amount,
            price,
            currency,
            status: ListingStatus::Active,
            created_at: now,
            metadata_hash: hash,
        };
        let ghost before = self@;
        self.update_collection_stats(collection, 1, 0)?;
        self.listing_seq = id;
        self.listings.insert(id, listing);
        let mut ts: Vec<Transfer> = Vec::new();
        ts.push(Transfer { token: collection, from: seller, to: self.contract, amount: amount as i128 });
        assert(ts@ =~= seq![Transfer { token: collection, from: seller, to: before.contract, amount: amount as i128 }]);
        Ok((id, ts))
    }

    /// Buys an active listing: the buyer pays the fee, the royalties and the
    /// seller's proceeds, and receives the escrowed NFTs.
    pub fn buy_nft(&mut self, buyer: u64, listing_id: u64) -> (r: Result<Vec<Transfer>, MarketError>)
        requires
            old(self).wf(),
        ensures
            match old(self)@.buy_nft_spec(buyer, listing_id) {
                Err(e) => r is Err && r->Err_0 == e && final(self)@ == old(self)@,
                Ok((v, ts)) => r is Ok && r->Ok_0@ == ts && final(self)@ == v,
            },
            final(self).wf(),
    {
        if self.paused {
            return Err(MarketError::ContractPaused);
        }
        let l = match self.listings.get(&listing_id) {
            Some(l) => *l,
            None => {
                return Err(MarketError::ListingNotFound);
            },
        };
        if l.status != ListingStatus::Active {
            return Err(MarketError::ListingAlreadySold);
        }
        let ts = self.settle_sale(l.currency, l.collection, l.price, buyer, l.seller, self.contract, buyer, l.amount)?;
        let ghost before = self@;
        self.update_collection_stats(l.collection, -1, 0)?;
        self.listings.insert(listing_id, Listing { status: ListingStatus::Sold, ..l });
        Ok(ts)
    }

    /// The seller cancels an active listing; the NFTs return from escrow.
    pub fn cancel_listing(&mut self, caller: u64, listing_id: u64) -> (r: Result<Vec<Transfer>, MarketError>)
        requires
            old(self).wf(),
        ensures
            match old(self)@.cancel_listing_spec(caller, listing_id) {
                Err(e) => r is Err && r->Err_0 == e && final(self)@ == old(self)@,
                Ok((v, ts)) => r is Ok && r->Ok_0@ == ts && final(self)@ == v,
            },
            final(self).wf(),
    {
        let l = match self.listings.get(&listing_id) {
            Some(l) => *l,
            None => {
                return Err(MarketError::ListingNotFound);
            },
        };
        if l.status != ListingStatus::Active {
            return Err(MarketError::ListingAlreadySold);
        }
        if l.seller != caller {
            return Err(MarketError::NotOwner);
        }
        let ghost before = self@;
        self.update_collection_stats(l.collection, -1, 0)?;
        self.listings.insert(listing_id, Listing { status: ListingStatus::Cancelled, ..l });
        let mut ts: Vec<Transfer> = Vec::new();
        ts.push(Transfer { token: l.collection, from: self.contract, to: l.seller, amount: l.amount as i128 });
        assert(ts@ =~= seq![Transfer { token: l.collection, from: before.contract, to: l.seller, amount: l.amount as i128 }]);
        Ok(ts)
    }

    pub fn get_listing(&self, listing_id: u64) -> (r: Result<Listing, MarketError>)
        ensures
            self@.listings.contains_key(listing_id) ==> r is Ok && r->Ok_0 == self@.listings[listing_id],
            !self@.listings.contains_key(listing_id) ==> r is Err && r->Err_0
                == MarketError::ListingNotFound,
    {
        match self.listings.get(&listing_id) {
            Some(l) => Ok(*l),
            None => Err(MarketError::ListingNotFound),
        }
    }
}


impl MarketView {
    /// The state after recording auction `a` (with its metadata hash) as
    /// the next auction.
    pub open spec fn add_auction(self, a: Auction, hash: Seq<u8>) -> Option<MarketView> {
        MarketView {
            auction_seq: a.id,
            auctions: self.auctions.insert(a.id, a),
            auction_hashes: self.auction_hashes.insert(a.id, hash),
            ..self
        }.bump_stats(a.collection, 0, 1)
    }

    /// The auction created next, with no bid yet.
    pub open spec fn new_auction(
        self,
        auction_type: AuctionType,
        seller: u64,
        collection: u64,
        token_id: u64,
        amount: u64,
        currency: u64,
        start_price: i128,
        floor_price: i128,
        start_time: u64,
        end_time: u64,
        window: u64,
    ) -> Auction {
        Auction {
            id: (self.auction_seq + 1) as u64,
            auction_type,
            seller,
            collection,
            token_id,
            amount,
            currency,
            start_price,
            floor_price,
            current_bid: 0,
            current_bidder: self.contract,
            status: AuctionStatus::Active,
            start_time,
            end_time,
            auto_extension_window: window,
        }
    }

    /// Records auction `a`; the NFTs move from the seller into escrow.
    pub open spec fn open_auction(self, a: Auction, hash: Seq<u8>) -> Result<
        (MarketView, u64, Seq<Transfer>),
        MarketError,
    > {
        match self.add_auction(a, hash) {
            None => Err(MarketError::Overflow),
            Some(v) => Ok(
                (
                    v,
                    a.id,
                    seq![Transfer { token: a.collection, from: a.seller, to: self.contract, amount: a.amount as i128 }],
                ),
            ),
        }
    }

    /// Outcome of `create_english_auction`.
    pub open spec fn create_english_spec(
        self,
        seller: u64,
        collection: u64,
        token_id: u64,
        amount: u64,
        start_price: i128,
        currency: u64,
        duration: u64,
        hash: Seq<u8>,
        now: u64,
    ) -> Result<(MarketView, u64, Seq<Transfer>), MarketError> {
        if self.paused {
            Err(MarketError::ContractPaused)
        } else if start_price <= 0 {
            Err(MarketError::InvalidAmount)
        } else if !self.currency_ok(currency) {
            Err(MarketError::CurrencyNotWhitelisted)
        } else if hash.len() != METADATA_HASH_LEN {
            Err(MarketError::InvalidMetadataHash)
        } else if !self.collections.contains_key(collection) {
            Err(MarketError::CollectionNotFound)
        } else if duration == 0 || duration > MAX_DURATION_SECONDS {
            Err(MarketError::InvalidArgument)
        } else if self.auction_seq == u64::MAX || now + duration > u64::MAX {
            Err(MarketError::Overflow)
        } else {
            self.open_auction(
                self.new_auction(
                    AuctionType::English,
                    seller,
                    collection,
                    token_id,
                    amount,
                    currency,
                    start_price,
                    0,
                    now,
                    (now + duration) as u64,
                    self.auto_extension_seconds,
                ),
                hash,
            )
        }
    }

    /// Outcome of `create_dutch_auction`.
    pub open spec fn create_dutch_spec(
        self,
        seller: u64,
        collection: u64,
        token_id: u64,
        amount: u64,
        start_price: i128,
        floor_price: i128,
        currency: u64,
        duration: u64,
        hash: Seq<u8>,
        now: u64,
    ) -> Result<(MarketView, u64, Seq<Transfer>), MarketError> {
        if self.paused {
            Err(MarketError::ContractPaused)
        } else if start_price <= 0 || floor_price <= 0 {
            Err(MarketError::InvalidAmount)
        } else if !self.currency_ok(currency) {
            Err(MarketError::CurrencyNotWhitelisted)
        } else if hash.len() != METADATA_HASH_LEN {
            Err(MarketError::InvalidMetadataHash)
        } else if !self.collections.contains_key(collection) {
            Err(MarketError::CollectionNotFound)
        } else if floor_price >= start_price {
            Err(MarketError::InvalidDutchAuctionPrices)
        } else if duration == 0 || duration > MAX_DURATION_SECONDS {
            Err(MarketError::InvalidArgument)
        } else if self.auction_seq == u64::MAX || now + duration > u64::MAX {
            Err(MarketError::Overflow)
        } else {
            self.open_auction(
                self.new_auction(
                    AuctionType::Dutch,
                    seller,
                    collection,
                    token_id,
                    amount,
                    currency,
                    start_price,
                    floor_price,
                    now,
                    (now + duration) as u64,
                    0,
                ),
                hash,
            )
        }
    }

    /// The smallest acceptable bid: the start price before any bid, then
    /// the current bid raised by the increment (at least 1); `None` on
    /// overflow.
    pub open spec fn min_bid(self, a: Auction) -> Option<int> {
        if a.current_bid == 0 {
            Some(a.start_price as int)
        } else {
            match mul_bps(a.current_bid as int, self.bid_increment_bps as int) {
                None => None,
                Some(inc0) => {
                    let inc = if inc0 > 1 {
                        inc0
                    } else {
                        1
                    };
                    if fits_i128(a.current_bid + inc) {
                        Some(a.current_bid + inc)
                    } else {
                        None
                    }
                },
            }
        }
    }

    /// Outcome of `place_bid`: the previous bid is refunded, the new one is
    /// escrowed, and a bid inside the extension window pushes the end back.
    pub open spec fn place_bid_spec(self, bidder: u64, id: u64, bid: i128, now: u64) -> Result<
        (MarketView, Seq<Transfer>),
        MarketError,
    > {
        if self.paused {
            Err(MarketError::ContractPaused)
        } else if bid <= 0 {
            Err(MarketError::InvalidAmount)
        } else if !self.auctions.contains_key(id) {
            Err(MarketError::ListingNotFound)
        } else {
            let a = self.auctions[id];
            if a.status != AuctionStatus::Active {
                Err(MarketError::AuctionEnded)
            } else if a.auction_type != AuctionType::English {
                Err(MarketError::InvalidArgument)
            } else if now >= a.end_time {
                Err(MarketError::AuctionEnded)
            } else {
                match self.min_bid(a) {
                    None => Err(MarketError::Overflow),
                    Some(min) => if bid < min {
                        Err(MarketError::BidTooLow)
                    } else if a.current_bid > 0 && a.current_bidder == bidder {
                        Err(MarketError::BidderIsCurrentHighest)
                    } else if a.end_time - now <= a.auto_extension_window && now
                        + a.auto_extension_window > u64::MAX {
                        Err(MarketError::Overflow)
                    } else {
                        let new_end: u64 = if a.end_time - now <= a.auto_extension_window {
                            (now + a.auto_extension_window) as u64
                        } else {
                            a.end_time
                        };
                        let refund = if a.current_bid > 0 {
                            seq![Transfer { token: a.currency, from: self.contract, to: a.current_bidder, amount: a.current_bid }]
                        } else {
                            Seq::empty()
                        };
                        Ok(
                            (
                                self.with_auction(
                                    id,
                                    Auction { current_bid: bid, current_bidder: bidder, end_time: new_end, ..a },
                                ),
                                refund.push(Transfer { token: a.currency, from: bidder, to: self.contract, amount: bid }),
                            ),
                        )
                    },
                }
            }
        }
    }

    /// Outcome of `settle_english_auction`: without a bid the NFTs return to
    /// the seller; otherwise the escrowed bid pays the sale and the winner
    /// receives the NFTs.
    pub open spec fn settle_english_spec(self, id: u64, now: u64) -> Result<
        (MarketView, Seq<Transfer>),
        MarketError,
    > {
        if self.paused {
            Err(MarketError::ContractPaused)
        } else if !self.auctions.contains_key(id) {
            Err(MarketError::ListingNotFound)
        } else {
            let a = self.auctions[id];
            if a.status == AuctionStatus::Settled {
                Err(MarketError::ListingAlreadySold)
            } else if a.status != AuctionStatus::Active && a.status != AuctionStatus::Ended {
                Err(MarketError::AuctionEnded)
            } else if now < a.end_time {
                Err(MarketError::AuctionNotYetEnded)
            } else {
                let settled = self.with_auction(id, Auction { status: AuctionStatus::Settled, ..a });
                if a.current_bid == 0 {
                    match settled.bump_stats(a.collection, 0, -1) {
                        None => Err(MarketError::Overflow),
                        Some(v) => Ok(
                            (
                                v,
                                seq![Transfer { token: a.collection, from: self.contract, to: a.seller, amount: a.amount as i128 }],
                            ),
                        ),
                    }
                } else {
                    match sale_transfers(
                        self,
                        a.currency,
                        a.collection,
                        a.current_bid,
                        self.contract,
                        a.seller,
                        self.contract,
                        a.current_bidder,
                        a.amount,
                    ) {
                        None => Err(MarketError::Overflow),
                        Some(ts) => match settled.bump_stats(a.collection, 0, -1) {
                            None => Err(MarketError::Overflow),
                            Some(v) => Ok((v, ts)),
                        },
                    }
                }
            }
        }
    }

    /// Outcome of `buy_dutch_auction` at time `now`.
    pub open spec fn buy_dutch_spec(self, buyer: u64, id: u64, now: u64) -> Result<
        (MarketView, Seq<Transfer>),
        MarketError,
    > {
        if self.paused {
            Err(MarketError::ContractPaused)
        } else if !self.auctions.contains_key(id) {
            Err(MarketError::ListingNotFound)
        } else {
            let a = self.auctions[id];
            if a.status != AuctionStatus::Active {
                Err(MarketError::AuctionEnded)
            } else if a.auction_type != AuctionType::Dutch {
                Err(MarketError::InvalidArgument)
            } else {
                match dutch_price(a, now) {
                    None => Err(MarketError::Overflow),
                    Some(p) => if p == 0 {
                        Err(MarketError::DutchAuctionPriceZero)
                    } else {
                        match sale_transfers(
                            self,
                            a.currency,
                            a.collection,
                            p as i128,
                            buyer,
                            a.seller,
                            self.contract,
                            buyer,
                            a.amount,
                        ) {
                            None => Err(MarketError::Overflow),
                            Some(ts) => match self.with_auction(
                                id,
                                Auction { status: AuctionStatus::Settled, ..a },
                            ).bump_stats(a.collection, 0, -1) {
                                None => Err(MarketError::Overflow),
                                Some(v) => Ok((v, ts)),
                            },
                        }
                    },
                }
            }
        }
    }

    /// Outcome of `cancel_dutch_auction`.
    pub open spec fn cancel_dutch_spec(self, caller: u64, id: u64) -> Result<
        (MarketView, Seq<Transfer>),
        MarketError,
    > {
        if !self.auctions.contains_key(id) {
            Err(MarketError::ListingNotFound)
        } else {
            let a = self.auctions[id];
            if a.status != AuctionStatus::Active {
                Err(MarketError::AuctionEnded)
            } else if a.auction_type != AuctionType::Dutch {
                Err(MarketError::InvalidArgument)
            } else if a.seller != caller {
                Err(MarketError::NotOwner)
            } else {
                match self.with_auction(id, Auction { status: AuctionStatus::Cancelled, ..a }).bump_stats(
                    a.collection,
                    0,
                    -1,
                ) {
                    None => Err(MarketError::Overflow),
                    Some(v) => Ok(
                        (
                            v,
                            seq![Transfer { token: a.collection, from: self.contract, to: a.seller, amount: a.amount as i128 }],
                        ),
                    ),
                }
            }
        }
    }
}


impl NftMarketplace {
    // -----------------------------------------------------------------------
    // Auctions
    // -----------------------------------------------------------------------

    fn insert_auction(&mut self, a: Auction, hash: Vec<u8>) -> (r: Result<(), MarketError>)
        requires
            old(self).wf(),
        ensures
            match old(self)@.add_auction(a, hash@) {
                None => r == Err::<(), MarketError>(MarketError::Overflow) && final(self)@ == old(self)@,
                Some(v) => r is Ok && final(self)@ == v,
            },
            final(self).wf(),
    {
        self.update_collection_stats(a.collection, 0, 1)?;
        let ghost mid = self@;
        let ghost h = hash@;
        self.auction_seq = a.id;
        self.auctions.insert(a.id, a);
        self.auction_hashes.insert(a.id, hash);
        proof {
            assert(self@.auction_hashes =~= mid.auction_hashes.insert(a.id, h));
            assert(self@.auctions.dom() =~= self@.auction_hashes.dom());
            assert(self@ == (MarketView {
                auction_seq: a.id,
                auctions: mid.auctions.insert(a.id, a),
                auction_hashes: mid.auction_hashes.insert(a.id, h),
                ..mid
            }));
        }
        Ok(())
    }

    fn open_auction(&mut self, a: Auction, hash: Vec<u8>) -> (r: Result<(u64, Vec<Transfer>), MarketError>)
        requires
            old(self).wf(),
        ensures
            match old(self)@.open_auction(a, hash@) {
                Err(e) => r is Err && r->Err_0 == e && final(self)@ == old(self)@,
                Ok((v, id, ts)) => r is Ok && r->Ok_0.0 == id && r->Ok_0.1@ == ts && final(self)@ == v,
            },
            final(self).wf(),
    {
        let contract = self.contract;
        self.insert_auction(a, hash)?;
        let mut ts: Vec<Transfer> = Vec::new();
        ts.push(Transfer { token: a.collection, from: a.seller, to: contract, amount: a.amount as i128 });
        assert(ts@ =~= seq![Transfer { token: a.collection, from: a.seller, to: contract, amount: a.amount as i128 }]);
        Ok((a.id, ts))
    }

    /// Opens an English auction of `amount` NFTs for `duration_seconds`,
    /// escrowing the NFTs.
    pub fn create_english_auction(
        &mut self,
        seller: u64,
        collection: u64,
        token_id: u64,
        amount: u64,
        start_price: i128,
        currency: u64,
        duration_seconds: u64,
        metadata_hash: Vec<u8>,
        now: u64,
    ) -> (r: Result<(u64, Vec<Transfer>), MarketError>)
        requires
            old(self).wf(),
        ensures
            match old(self)@.create_english_spec(
                seller,
                collection,
                token_id,
                amount,
                start_price,
                currency,
                duration_seconds,
                metadata_hash@,
                now,
            ) {
                Err(e) => r is Err && r->Err_0 == e && final(self)@ == old(self)@,
                Ok((v, id, ts)) => r is Ok && r->Ok_0.0 == id && r->Ok_0.1@ == ts && final(self)@ == v,
            },
            final(self).wf(),
    {
        if self.paused {
            return Err(MarketError::ContractPaused);
        }
        if start_price <= 0 {
            return Err(MarketError::InvalidAmount);
        }
        if !self.is_currency_whitelisted(currency) {
            return Err(MarketError::CurrencyNotWhitelisted);
        }
        if metadata_hash.len() != 32 {
            return Err(MarketError::InvalidMetadataHash);
        }
        if !self.collections.contains_key(&collection) {
            return Err(MarketError::CollectionNotFound);
        }
        if duration_seconds == 0 || duration_seconds > MAX_DURATION_SECONDS {
            return Err(MarketError::InvalidArgument);
        }
        if self.auction_seq == u64::MAX {
            return Err(MarketError::Overflow);
        }
        let end_time = match now.checked_add(duration_seconds) {
            Some(e) => e,
            None => {
                return Err(MarketError::Overflow);
            },
        };
        let a = Auction {
            id: self.auction_seq + 1,
            auction_type: AuctionType::English,
            seller,
            collection,
            token_id,
            amount,
            currency,
            start_price,
            floor_price: 0,
            current_bid: 0,
            current_bidder: self.contract,
            status: AuctionStatus::Active,
            start_time: now,
            end_time,
            auto_extension_window: self.auto_extension_seconds,
        };
        self.open_auction(a, metadata_hash)
    }

    /// Opens a Dutch auction whose price decays from `start_price` to
    /// `floor_price` over `duration_seconds`, escrowing the NFTs.
    pub fn create_dutch_auction(
        &mut self,
        seller: u64,
        collection: u64,
        token_id: u64,
        amount: u64,
        start_price: i128,
        floor_price: i128,
        currency: u64,
        duration_seconds: u64,
        metadata_hash: Vec<u8>,
        now: u64,
    ) -> (r: Result<(u64, Vec<Transfer>), MarketError>)
        requires
            old(self).wf(),
        ensures
            match old(self)@.create_dutch_spec(
                seller,
                collection,
                token_id,
                amount,
                start_price,
                floor_price,
                currency,
                duration_seconds,
                metadata_hash@,
                now,
            ) {
                Err(e) => r is Err && r->Err_0 == e && final(self)@ == old(self)@,
                Ok((v, id, ts)) => r is Ok && r->Ok_0.0 == id && r->Ok_0.1@ == ts && final(self)@ == v,
            },
            final(self).wf(),
    {
        if self.paused {
            return Err(MarketError::ContractPaused);
        }
        if start_price <= 0 || floor_price <= 0 {
            return Err(MarketError::InvalidAmount);
        }
        if !self.is_currency_whitelisted(currency) {
            return Err(MarketError::CurrencyNotWhitelisted);
        }
        if metadata_hash.len() != 32 {
            return Err(MarketError::InvalidMetadataHash);
        }
        if !self.collections.contains_key(&collection) {
            return Err(MarketError::CollectionNotFound);
        }
        if floor_price >= start_price {
            return Err(MarketError::InvalidDutchAuctionPrices);
        }
        if duration_seconds == 0 || duration_seconds > MAX_DURATION_SECONDS {
            return Err(MarketError::InvalidArgument);
        }
        if self.auction_seq == u64::MAX {
            return Err(MarketError::Overflow);
        }
        let end_time = match now.checked_add(duration_seconds) {
            Some(e) => e,
            None => {
                return Err(MarketError::Overflow);
            },
        };
        let a = Auction {
            id: self.auction_seq + 1,
            auction_type: AuctionType::Dutch,
            seller,
            collection,
            token_id,
            amount,
            currency,
            start_price,
            floor_price,
            current_bid: 0,
            current_bidder: self.contract,
            status: AuctionStatus::Active,
            start_time: now,
            end_time,
            auto_extension_window: 0,
        };
        self.open_auction(a, metadata_hash)
    }

    /// Places a bid on an active English auction before its end.
    pub fn place_bid(&mut self, bidder: u64, auction_id: u64, bid_amount: i128, now: u64) -> (r: Result<
        Vec<Transfer>,
        MarketError,
    >)
        requires
            old(self).wf(),
        ensures
            match old(self)@.place_bid_spec(bidder, auction_id, bid_amount, now) {
                Err(e) => r is Err && r->Err_0 == e && final(self)@ == old(self)@,
                Ok((v, ts)) => r is Ok && r->Ok_0@ == ts && final(self)@ == v,
            },
            final(self).wf(),
    {
        if self.paused {
            return Err(MarketError::ContractPaused);
        }
        if bid_amount <= 0 {
            return Err(MarketError::InvalidAmount);
        }
        let a = match self.auctions.get(&auction_id) {
            Some(a) => *a,
            None => {
                return Err(MarketError::ListingNotFound);
            },
        };
        if a.status != AuctionStatus::Active {
            return Err(MarketError::AuctionEnded);
        }
        if a.auction_type != AuctionType::English {
            return Err(MarketError::InvalidArgument);
        }
        if now >= a.end_time {
            return Err(MarketError::AuctionEnded);
        }
        let min_bid: i128 = if a.current_bid == 0 {
            a.start_price
        } else {
            let inc0 = match checked_mul_bps(a.current_bid, self.bid_increment_bps) {
                Some(v) => v,
                None => {
                    return Err(MarketError::Overflow);
                },
            };
            let inc: i128 = if inc0 > 1 {
                inc0
            } else {
                1
            };
            match a.current_bid.checked_add(inc) {
                Some(v) => v,
                None => {
                    return Err(MarketError::Overflow);
                },
            }
        };
        if bid_amount < min_bid {
            return Err(MarketError::BidTooLow);
        }
        if a.current_bid > 0 && a.current_bidder == bidder {
            return Err(MarketError::BidderIsCurrentHighest);
        }
        let remaining = a.end_time - now;
        let new_end: u64 = if remaining <= a.auto_extension_window {
            match now.checked_add(a.auto_extension_window) {
                Some(e) => e,
                None => {
                    return Err(MarketError::Overflow);
                },
            }
        } else {
            a.end_time
        };
        let mut ts: Vec<Transfer> = Vec::new();
        if a.current_bid > 0 {
            ts.push(Transfer { token: a.currency, from: self.contract, to: a.current_bidder, amount: a.current_bid });
        }
        ts.push(Transfer { token: a.currency, from: bidder, to: self.contract, amount: bid_amount });
        let ghost before = self@;
        self.auctions.insert(
            auction_id,
            Auction { current_bid: bid_amount, current_bidder: bidder, end_time: new_end, ..a },
        );
        proof {
            assert(self@.auctions.dom() =~= before.auctions.dom());
            let refund = if a.current_bid > 0 {
                seq![Transfer { token: a.currency, from: before.contract, to: a.current_bidder, amount: a.current_bid }]
            } else {
                Seq::empty()
            };
            assert(ts@ =~= refund.push(Transfer { token: a.currency, from: bidder, to: before.contract, amount: bid_amount }));
        }
        Ok(ts)
    }

    /// Settles an auction whose end has passed (anyone may call).
    pub fn settle_english_auction(&mut self, auction_id: u64, now: u64) -> (r: Result<Vec<Transfer>, MarketError>)
        requires
            old(self).wf(),
        ensures
            match old(self)@.settle_english_spec(auction_id, now) {
                Err(e) => r is Err && r->Err_0 == e && final(self)@ == old(self)@,
                Ok((v, ts)) => r is Ok && r->Ok_0@ == ts && final(self)@ == v,
            },
            final(self).wf(),
    {
        if self.paused {
            return Err(MarketError::ContractPaused);
        }
        let a = match self.auctions.get(&auction_id) {
            Some(a) => *a,
            None => {
                return Err(MarketError::ListingNotFound);
            },
        };
        if a.status == AuctionStatus::Settled {
            return Err(MarketError::ListingAlreadySold);
        }
        if a.status != AuctionStatus::Active && a.status != AuctionStatus::Ended {
            return Err(MarketError::AuctionEnded);
        }
        if now < a.end_time {
            return Err(MarketError::AuctionNotYetEnded);
        }
        let contract = self.contract;
        let ghost before = self@;
        if a.current_bid == 0 {
            self.auctions.insert(auction_id, Auction { status: AuctionStatus::Settled, ..a });
            proof {
                assert(self@.auctions.dom() =~= before.auctions.dom());
            }
            let res = self.update_collection_stats(a.collection, 0, -1);
            if res.is_err() {
                self.auctions.insert(auction_id, a);
                proof {
                    assert(self@.auctions =~= before.auctions);
                }
                return Err(MarketError::Overflow);
            }
            let mut ts: Vec<Transfer> = Vec::new();
            ts.push(Transfer { token: a.collection, from: contract, to: a.seller, amount: a.amount as i128 });
            assert(ts@ =~= seq![Transfer { token: a.collection, from: contract, to: a.seller, amount: a.amount as i128 }]);
            return Ok(ts);
        }
        let ts = self.settle_sale(
            a.currency,
            a.collection,
            a.current_bid,
            contract,
            a.seller,
            contract,
            a.current_bidder,
            a.amount,
        )?;
        self.auctions.insert(auction_id, Auction { status: AuctionStatus::Settled, ..a });
        proof {
            assert(self@.auctions.dom() =~= before.auctions.dom());
        }
        let res = self.update_collection_stats(a.collection, 0, -1);
        if res.is_err() {
            self.auctions.insert(auction_id, a);
            proof {
                assert(self@.auctions =~= before.auctions);
            }
            return Err(MarketError::Overflow);
        }
        Ok(ts)
    }

    fn dutch_auction_price(a: &Auction, now: u64) -> (r: Result<i128, MarketError>)
        ensures
            match dutch_price(*a, now) {
                None => r == Err::<i128, MarketError>(MarketError::Overflow),
                Some(p) => r == Ok::<i128, MarketError>(p as i128),
            },
    {
        if now >= a.end_time {
            return Ok(a.floor_price);
        }
        if now <= a.start_time {
            return Ok(a.start_price);
        }
        let duration = a.end_time - a.start_time;
        let elapsed = now - a.start_time;
        let range = match a.start_price.checked_sub(a.floor_price) {
            Some(v) => v,
            None => {
                return Err(MarketError::Overflow);
            },
        };
        let product = match range.checked_mul(elapsed as i128) {
            Some(v) => v,
            None => {
                return Err(MarketError::Overflow);
            },
        };
        let decay = match product.checked_div(duration as i128) {
            Some(v) => v,
            None => {
                return Err(MarketError::Overflow);
            },
        };
        proof {
            let x = product as int;
            let d = duration as int;
            assert(d > 0);
            if x >= 0 {
                assert(x / d <= x) by (nonlinear_arith)
                    requires x >= 0, d > 0;
                assert(x / d >= 0) by (nonlinear_arith)
                    requires x >= 0, d > 0;
            } else {
                assert((-x) / d <= -x) by (nonlinear_arith)
                    requires -x >= 0, d > 0;
                assert((-x) / d >= 0) by (nonlinear_arith)
                    requires -x >= 0, d > 0;
            }
            assert(decay as int == crate::bps::trunc_div(x, d));
        }
        let price = match a.start_price.checked_sub(decay) {
            Some(v) => v,
            None => {
                return Err(MarketError::Overflow);
            },
        };
        if price > 0 {
            Ok(price)
        } else {
            Ok(0)
        }
    }

    /// Buys an active Dutch auction at its current price.
    pub fn buy_dutch_auction(&mut self, buyer: u64, auction_id: u64, now: u64) -> (r: Result<
        Vec<Transfer>,
        MarketError,
    >)
        requires
            old(self).wf(),
        ensures
            match old(self)@.buy_dutch_spec(buyer, auction_id, now) {
                Err(e) => r is Err && r->Err_0 == e && final(self)@ == old(self)@,
                Ok((v, ts)) => r is Ok && r->Ok_0@ == ts && final(self)@ == v,
            },
            final(self).wf(),
    {
        if self.paused {
            return Err(MarketError::ContractPaused);
        }
        let a = match self.auctions.get(&auction_id) {
            Some(a) => *a,
            None => {
                return Err(MarketError::ListingNotFound);
            },
        };
        if a.status != AuctionStatus::Active {
            return Err(MarketError::AuctionEnded);
        }
        if a.auction_type != AuctionType::Dutch {
            return Err(MarketError::InvalidArgument);
        }
        let price = Self::dutch_auction_price(&a, now)?;
        if price == 0 {
            return Err(MarketError::DutchAuctionPriceZero);
        }
        let contract = self.contract;
        let ts = self.settle_sale(a.currency, a.collection, price, buyer, a.seller, contract, buyer, a.amount)?;
        let ghost before = self@;
        self.update_collection_stats(a.collection, 0, -1)?;
        self.auctions.insert(auction_id, Auction { status: AuctionStatus::Settled, ..a });
        proof {
            assert(self@.auctions.dom() =~= before.auctions.dom());
        }
        Ok(ts)
    }

    /// The current price of a Dutch auction.
    pub fn dutch_auction_current_price(&self, auction_id: u64, now: u64) -> (r: Result<i128, MarketError>)
        ensures
            !self@.auctions.contains_key(auction_id) ==> r == Err::<i128, MarketError>(
                MarketError::ListingNotFound,
            ),
            self@.auctions.contains_key(auction_id) ==> match dutch_price(self@.auctions[auction_id], now) {
                None => r == Err::<i128, MarketError>(MarketError::Overflow),
                Some(p) => r == Ok::<i128, MarketError>(p as i128),
            },
    {
        match self.auctions.get(&auction_id) {
            Some(a) => Self::dutch_auction_price(a, now),
            None => Err(MarketError::ListingNotFound),
        }
    }

    /// The seller cancels an active Dutch auction; the NFTs return.
    pub fn cancel_dutch_auction(&mut self, caller: u64, auction_id: u64) -> (r: Result<
        Vec<Transfer>,
        MarketError,
    >)
        requires
            old(self).wf(),
        ensures
            match old(self)@.cancel_dutch_spec(caller, auction_id) {
                Err(e) => r is Err && r->Err_0 == e && final(self)@ == old(self)@,
                Ok((v, ts)) => r is Ok && r->Ok_0@ == ts && final(self)@ == v,
            },
            final(self).wf(),
    {
        let a = match self.auctions.get(&auction_id) {
            Some(a) => *a,
            None => {
                return Err(MarketError::ListingNotFound);
            },
        };
        if a.status != AuctionStatus::Active {
            return Err(MarketError::AuctionEnded);
        }
        if a.auction_type != AuctionType::Dutch {
            return Err(MarketError::InvalidArgument);
        }
        if a.seller != caller {
            return Err(MarketError::NotOwner);
        }
        let contract = self.contract;
        let ghost before = self@;
        self.update_collection_stats(a.collection, 0, -1)?;
        self.auctions.insert(auction_id, Auction { status: AuctionStatus::Cancelled, ..a });
        proof {
            assert(self@.auctions.dom() =~= before.auctions.dom());
        }
        let mut ts: Vec<Transfer> = Vec::new();
        ts.push(Transfer { token: a.collection, from: contract, to: a.seller, amount: a.amount as i128 });
        assert(ts@ =~= seq![Transfer { token: a.collection, from: contract, to: a.seller, amount: a.amount as i128 }]);
        Ok(ts)
    }

    pub fn get_auction(&self, auction_id: u64) -> (r: Result<Auction, MarketError>)
        ensures
            self@.auctions.contains_key(auction_id) ==> r is Ok && r->Ok_0 == self@.auctions[auction_id],
            !self@.auctions.contains_key(auction_id) ==> r is Err && r->Err_0
                == MarketError::ListingNotFound,
    {
        match self.auctions.get(&auction_id) {
            Some(a) => Ok(*a),
            None => Err(MarketError::ListingNotFound),
        }
    }

    /// The metadata hash recorded with an auction.
    pub fn auction_metadata_hash(&self, auction_id: u64) -> (r: Result<Vec<u8>, MarketError>)
        requires
            self.wf(),
        ensures
            self@.auctions.contains_key(auction_id) ==> r is Ok && r->Ok_0@ == self@.auction_hashes[auction_id],
            !self@.auctions.contains_key(auction_id) ==> r is Err && r->Err_0
                == MarketError::ListingNotFound,
    {
        match self.auction_hashes.get(&auction_id) {
            Some(h) => {
                let c = h.clone();
                assert(c@ =~= h@);
                Ok(c)
            },
            None => Err(MarketError::ListingNotFound),
        }
    }
}


impl MarketView {
    /// Outcome of `make_offer`: the offered amount moves into escrow.
    pub open spec fn make_offer_spec(
        self,
        offerer: u64,
        recipient: u64,
        collection: u64,
        token_id: u64,
        amount: u64,
        offer_amount: i128,
        currency: u64,
        offer_nft_collection: u64,
        offer_nft_token_id: u64,
        duration: u64,
        now: u64,
    ) -> Result<(MarketView, u64, Seq<Transfer>), MarketError> {
        if self.paused {
            Err(MarketError::ContractPaused)
        } else if offer_amount <= 0 {
            Err(MarketError::InvalidAmount)
        } else if !self.currency_ok(currency) {
            Err(MarketError::CurrencyNotWhitelisted)
        } else if duration == 0 || duration > MAX_DURATION_SECONDS {
            Err(MarketError::InvalidArgument)
        } else if self.offer_seq == u64::MAX || now + duration > u64::MAX {
            Err(MarketError::Overflow)
        } else {
            let id = (self.offer_seq + 1) as u64;
            let o = Offer {
                id,
                offerer,
                recipient,
                collection,
                token_id,
                amount,
                offer_amount,
                currency,
                offer_nft_collection,
                offer_nft_token_id,
                status: OfferStatus::Pending,
                created_at: now,
                expires_at: (now + duration) as u64,
            };
            Ok(
                (
                    MarketView { offer_seq: id, offers: self.offers.insert(id, o), ..self },
                    id,
                    seq![Transfer { token: currency, from: offerer, to: self.contract, amount: offer_amount }],
                ),
            )
        }
    }

    /// Outcome of `accept_offer`: the escrowed amount pays the fee and the
    /// recipient, and the recipient's NFTs go to the offerer.
    pub open spec fn accept_offer_spec(self, caller: u64, id: u64, now: u64) -> Result<
        (MarketView, Seq<Transfer>),
        MarketError,
    > {
        if self.paused {
            Err(MarketError::ContractPaused)
        } else if !self.offers.contains_key(id) {
            Err(MarketError::ListingNotFound)
        } else {
            let o = self.offers[id];
            if o.status != OfferStatus::Pending {
                Err(MarketError::OfferAlreadySettled)
            } else if o.recipient != caller {
                Err(MarketError::NotOfferRecipient)
            } else if now > o.expires_at {
                Err(MarketError::OfferExpired)
            } else {
                match mul_bps(o.offer_amount as int, self.platform_fee_bps as int) {
                    None => Err(MarketError::Overflow),
                    Some(f) => {
                        let fee = if f > 0 {
                            f
                        } else {
                            0
                        };
                        let proceeds = o.offer_amount - fee;
                        if !fits_i128(proceeds) {
                            Err(MarketError::Overflow)
                        } else {
                            let pay = payment_transfers(
                                o.currency,
                                self.contract,
                                self.fee_recipient,
                                fee,
                                Seq::empty(),
                                o.recipient,
                                proceeds,
                            );
                            Ok(
                                (
                                    self.with_offer(id, Offer { status: OfferStatus::Accepted, ..o }),
                                    pay.push(Transfer { token: o.collection, from: caller, to: o.offerer, amount: o.amount as i128 }),
                                ),
                            )
                        }
                    },
                }
            }
        }
    }

    /// Outcome of `cancel_offer`: the offerer's escrow is refunded.
    pub open spec fn cancel_offer_spec(self, caller: u64, id: u64) -> Result<
        (MarketView, Seq<Transfer>),
        MarketError,
    > {
        if !self.offers.contains_key(id) {
            Err(MarketError::ListingNotFound)
        } else {
            let o = self.offers[id];
            if o.status != OfferStatus::Pending {
                Err(MarketError::OfferAlreadySettled)
            } else if o.offerer != caller {
                Err(MarketError::NotOwner)
            } else {
                Ok(
                    (
                        self.with_offer(id, Offer { status: OfferStatus::Cancelled, ..o }),
                        seq![Transfer { token: o.currency, from: self.contract, to: o.offerer, amount: o.offer_amount }],
                    ),
                )
            }
        }
    }
}

impl NftMarketplace {
    // -----------------------------------------------------------------------
    // Offers
    // -----------------------------------------------------------------------

    /// Offers `offer_amount` of `currency` for `recipient`'s NFTs, valid for
    /// `duration_seconds`; the amount moves into escrow.
    pub fn make_offer(
        &mut self,
        offerer: u64,
        recipient: u64,
        collection: u64,
        token_id: u64,
        amount: u64,
        offer_amount: i128,
        currency: u64,
        offer_nft_collection: u64,
        offer_nft_token_id: u64,
        duration_seconds: u64,
        now: u64,
    ) -> (r: Result<(u64, Vec<Transfer>), MarketError>)
        requires
            old(self).wf(),
        ensures
            match old(self)@.make_offer_spec(
                offerer,
                recipient,
                collection,
                token_id,
                amount,
                offer_amount,
                currency,
                offer_nft_collection,
                offer_nft_token_id,
                duration_seconds,
                now,
            ) {
                Err(e) => r is Err && r->Err_0 == e && final(self)@ == old(self)@,
                Ok((v, id, ts)) => r is Ok && r->Ok_0.0 == id && r->Ok_0.1@ == ts && final(self)@ == v,
            },
            final(self).wf(),
    {
        if self.paused {
            return Err(MarketError::ContractPaused);
        }
        if offer_amount <= 0 {
            return Err(MarketError::InvalidAmount);
        }
        if !self.is_currency_whitelisted(currency) {
            return Err(MarketError::CurrencyNotWhitelisted);
        }
        if duration_seconds == 0 || duration_seconds > MAX_DURATION_SECONDS {
            return Err(MarketError::InvalidArgument);
        }
        if self.offer_seq == u64::MAX {
            return Err(MarketError::Overflow);
        }
        let expires_at = match now.checked_add(duration_seconds) {
            Some(e) => e,
            None => {
                return Err(MarketError::Overflow);
            },
        };
        let id = self.offer_seq + 1;
        let o = Offer {
            id,
            offerer,
            recipient,
            collection,
            token_id,
            amount,
            offer_amount,
            currency,
            offer_nft_collection,
            offer_nft_token_id,
            status: OfferStatus::Pending,
            created_at: now,
            expires_at,
        };
        self.offer_seq = id;
        self.offers.insert(id, o);
        let mut ts: Vec<Transfer> = Vec::new();
        ts.push(Transfer { token: currency, from: offerer, to: self.contract, amount: offer_amount });
        assert(ts@ =~= seq![Transfer { token: currency, from: offerer, to: self.contract, amount: offer_amount }]);
        Ok((id, ts))
    }

    /// The recipient accepts a pending, unexpired offer.
    pub fn accept_offer(&mut self, caller: u64, offer_id: u64, now: u64) -> (r: Result<Vec<Transfer>, MarketError>)
        requires
            old(self).wf(),
        ensures
            match old(self)@.accept_offer_spec(caller, offer_id, now) {
                Err(e) => r is Err && r->Err_0 == e && final(self)@ == old(self)@,
                Ok((v, ts)) => r is Ok && r->Ok_0@ == ts && final(self)@ == v,
            },
            final(self).wf(),
    {
        if self.paused {
            return Err(MarketError::ContractPaused);
        }
        let o = match self.offers.get(&offer_id) {
            Some(o) => *o,
            None => {
                return Err(MarketError::ListingNotFound);
            },
        };
        if o.status != OfferStatus::Pending {
            return Err(MarketError::OfferAlreadySettled);
        }
        if o.recipient != caller {
            return Err(MarketError::NotOfferRecipient);
        }
        if now > o.expires_at {
            return Err(MarketError::OfferExpired);
        }
        let f = match checked_mul_bps(o.offer_amount, self.platform_fee_bps) {
            Some(f) => f,
            None => {
                return Err(MarketError::Overflow);
            },
        };
        let fee: i128 = if f > 0 {
            f
        } else {
            0
        };
        let proceeds = match o.offer_amount.checked_sub(fee) {
            Some(p) => p,
            None => {
                return Err(MarketError::Overflow);
            },
        };
        let contract = self.contract;
        let mut ts: Vec<Transfer> = Vec::new();
        if fee > 0 {
            ts.push(Transfer { token: o.currency, from: contract, to: self.fee_recipient, amount: fee });
        }
        if proceeds > 0 {
            ts.push(Transfer { token: o.currency, from: contract, to: o.recipient, amount: proceeds });
        }
        ts.push(Transfer { token: o.collection, from: caller, to: o.offerer, amount: o.amount as i128 });
        proof {
            let pay = payment_transfers(o.currency, contract, self.fee_recipient, fee as int, Seq::empty(), o.recipient, proceeds as int);
            assert(Seq::<(u64, int)>::empty().map_values(
                |p: (u64, int)| Transfer { token: o.currency, from: contract, to: p.0, amount: p.1 as i128 },
            ) =~= Seq::<Transfer>::empty());
            assert(ts@ =~= pay.push(Transfer { token: o.collection, from: caller, to: o.offerer, amount: o.amount as i128 }));
        }
        let ghost before = self@;
        self.offers.insert(offer_id, Offer { status: OfferStatus::Accepted, ..o });
        Ok(ts)
    }

    /// The offerer withdraws a pending offer and is refunded.
    pub fn cancel_offer(&mut self, caller: u64, offer_id: u64) -> (r: Result<Vec<Transfer>, MarketError>)
        requires
            old(self).wf(),
        ensures
            match old(self)@.cancel_offer_spec(caller, offer_id) {
                Err(e) => r is Err && r->Err_0 == e && final(self)@ == old(self)@,
                Ok((v, ts)) => r is Ok && r->Ok_0@ == ts && final(self)@ == v,
            },
            final(self).wf(),
    {
        let o = match self.offers.get(&offer_id) {
            Some(o) => *o,
            None => {
                return Err(MarketError::ListingNotFound);
            },
        };
        if o.status != OfferStatus::Pending {
            return Err(MarketError::OfferAlreadySettled);
        }
        if o.offerer != caller {
            return Err(MarketError::NotOwner);
        }
        let contract = self.contract;
        self.offers.insert(offer_id, Offer { status: OfferStatus::Cancelled, ..o });
        let mut ts: Vec<Transfer> = Vec::new();
        ts.push(Transfer { token: o.currency, from: contract, to: o.offerer, amount: o.offer_amount });
        assert(ts@ =~= seq![Transfer { token: o.currency, from: contract, to: o.offerer, amount: o.offer_amount }]);
        Ok(ts)
    }

    pub fn get_offer(&self, offer_id: u64) -> (r: Result<Offer, MarketError>)
        ensures
            self@.offers.contains_key(offer_id) ==> r == Ok::<Offer, MarketError>(self@.offers[offer_id]),
            !self@.offers.contains_key(offer_id) ==> r == Err::<Offer, MarketError>(MarketError::ListingNotFound),
    {
        match self.offers.get(&offer_id) {
            Some(o) => Ok(*o),
            None => Err(MarketError::ListingNotFound),
        }
    }
}


/// Progress of a bulk operation: the state so far, the ids created, the
/// number of items skipped as invalid, and the movements to perform.
pub struct BulkRun {
    pub state: MarketView,
    pub ids: Seq<u64>,
    pub failed: nat,
    pub transfers: Seq<Transfer>,
}

impl MarketView {
    /// A bulk listing item that is skipped rather than listed.
    pub open spec fn listing_item_invalid(self, it: BulkListingItem) -> bool {
        it.price <= 0 || !self.currency_ok(it.currency) || it.metadata_hash@.len() != METADATA_HASH_LEN
            || !self.collections.contains_key(it.collection)
    }

    /// Lists the valid items in order; an overflow fails the whole batch.
    pub open spec fn bulk_list_run(self, seller: u64, items: Seq<BulkListingItem>, now: u64) -> Result<
        BulkRun,
        MarketError,
    >
        decreases items.len(),
    {
        if items.len() == 0 {
            Ok(BulkRun { state: self, ids: Seq::empty(), failed: 0, transfers: Seq::empty() })
        } else {
            match self.bulk_list_run(seller, items.drop_last(), now) {
                Err(e) => Err(e),
                Ok(run) => {
                    let it = items.last();
                    if run.state.listing_item_invalid(it) {
                        Ok(BulkRun { failed: run.failed + 1, ..run })
                    } else {
                        match run.state.list_nft_spec(
                            seller,
                            it.collection,
                            it.token_id,
                            it.amount,
                            it.price,
                            it.currency,
                            it.metadata_hash@,
                            now,
                        ) {
                            Err(e) => Err(e),
                            Ok((v, id, ts)) => Ok(
                                BulkRun {
                                    state: v,
                                    ids: run.ids.push(id),
                                    failed: run.failed,
                                    transfers: run.transfers + ts,
                                },
                            ),
                        }
                    }
                },
            }
        }
    }

    /// Outcome of `bulk_list`.
    pub open spec fn bulk_list_spec(self, seller: u64, items: Seq<BulkListingItem>, now: u64) -> Result<
        BulkRun,
        MarketError,
    > {
        if self.paused {
            Err(MarketError::ContractPaused)
        } else if items.len() == 0 || items.len() > MAX_BULK_SIZE {
            Err(MarketError::InvalidArgument)
        } else {
            self.bulk_list_run(seller, items, now)
        }
    }

    /// A bulk auction item that is skipped rather than opened.
    pub open spec fn auction_item_invalid(self, it: BulkAuctionItem) -> bool {
        it.duration_seconds == 0 || it.duration_seconds > MAX_DURATION_SECONDS || it.start_price <= 0 || (
        it.auction_type == AuctionType::Dutch && it.floor_price >= it.start_price)
            || !self.collections.contains_key(it.collection)
    }

    /// The auction a valid bulk item opens; its end saturates at `u64::MAX`.
    pub open spec fn bulk_auction(self, seller: u64, it: BulkAuctionItem, now: u64) -> Auction {
        self.new_auction(
            it.auction_type,
            seller,
            it.collection,
            it.token_id,
            it.amount,
            it.currency,
            it.start_price,
            it.floor_price,
            now,
            if now + it.duration_seconds > u64::MAX {
                u64::MAX
            } else {
                (now + it.duration_seconds) as u64
            },
            if it.auction_type == AuctionType::English {
                self.auto_extension_seconds
            } else {
                0
            },
        )
    }

    pub open spec fn bulk_auction_run(self, seller: u64, items: Seq<BulkAuctionItem>, now: u64) -> Result<
        BulkRun,
        MarketError,
    >
        decreases items.len(),
    {
        if items.len() == 0 {
            Ok(BulkRun { state: self, ids: Seq::empty(), failed: 0, transfers: Seq::empty() })
        } else {
            match self.bulk_auction_run(seller, items.drop_last(), now) {
                Err(e) => Err(e),
                Ok(run) => {
                    let it = items.last();
                    if run.state.auction_item_invalid(it) {
                        Ok(BulkRun { failed: run.failed + 1, ..run })
                    } else if run.state.auction_seq == u64::MAX {
                        Err(MarketError::Overflow)
                    } else {
                        match run.state.open_auction(
                            run.state.bulk_auction(seller, it, now),
                            it.metadata_hash@,
                        ) {
                            Err(e) => Err(e),
                            Ok((v, id, ts)) => Ok(
                                BulkRun {
                                    state: v,
                                    ids: run.ids.push(id),
                                    failed: run.failed,
                                    transfers: run.transfers + ts,
                                },
                            ),
                        }
                    }
                },
            }
        }
    }

    /// Outcome of `bulk_create_auctions`.
    pub open spec fn bulk_auctions_spec(self, seller: u64, items: Seq<BulkAuctionItem>, now: u64) -> Result<
        BulkRun,
        MarketError,
    > {
        if self.paused {
            Err(MarketError::ContractPaused)
        } else if items.len() == 0 || items.len() > MAX_BULK_SIZE {
            Err(MarketError::InvalidArgument)
        } else {
            self.bulk_auction_run(seller, items, now)
        }
    }
}

/// The bulk result and movements match a finished run.
pub open spec fn bulk_matches(r: Result<(BulkResult, Vec<Transfer>), MarketError>, run: BulkRun) -> bool {
    &&& r is Ok
    &&& r->Ok_0.0.ids@ == run.ids
    &&& r->Ok_0.0.succeeded == run.ids.len()
    &&& r->Ok_0.0.failed == run.failed
    &&& r->Ok_0.1@ == run.transfers
}

impl NftMarketplace {
    /// A copy of the whole state.
    fn duplicate(&self) -> (r: Self)
        ensures
            r@ == self@,
    {
        NftMarketplace {
            contract: self.contract,
            admin: self.admin,
            paused: self.paused,
            platform_fee_bps: self.platform_fee_bps,
            fee_recipient: self.fee_recipient,
            bid_increment_bps: self.bid_increment_bps,
            auto_extension_seconds: self.auto_extension_seconds,
            oracle: self.oracle,
            currencies: self.currencies.clone(),
            collections: self.collections.clone(),
            collection_uris: self.collection_uris.clone(),
            royalties: self.royalties.clone(),
            listing_seq: self.listing_seq,
            auction_seq: self.auction_seq,
            offer_seq: self.offer_seq,
            listings: self.listings.clone(),
            auctions: self.auctions.clone(),
            auction_hashes: self.auction_hashes.clone(),
            offers: self.offers.clone(),
        }
    }

    // -----------------------------------------------------------------------
    // Bulk operations
    // -----------------------------------------------------------------------

    /// Lists up to fifty items at once; invalid items are counted as failed
    /// and skipped.
    pub fn bulk_list(&mut self, seller: u64, items: &Vec<BulkListingItem>, now: u64) -> (r: Result<
        (BulkResult, Vec<Transfer>),
        MarketError,
    >)
        requires
            old(self).wf(),
        ensures
            match old(self)@.bulk_list_spec(seller, items@, now) {
                Err(e) => r is Err && r->Err_0 == e && final(self)@ == old(self)@,
                Ok(run) => bulk_matches(r, run) && final(self)@ == run.state,
            },
            final(self).wf(),
    {
        if self.paused {
            return Err(MarketError::ContractPaused);
        }
        if items.len() == 0 || items.len() > MAX_BULK_SIZE as usize {
            return Err(MarketError::InvalidArgument);
        }
        let snapshot = self.duplicate();
        let mut ids: Vec<u64> = Vec::new();
        let mut failed: u32 = 0;
        let mut transfers: Vec<Transfer> = Vec::new();
        let mut i: usize = 0;
        while i < items.len()
            invariant
                i <= items@.len() <= MAX_BULK_SIZE,
                self.wf(),
                snapshot@ == old(self)@,
                old(self)@.wf(),
                !old(self)@.paused,
                !self@.paused,
                failed <= i,
                ids@.len() <= i,
                old(self)@.bulk_list_run(seller, items@.take(i as int), now) == Ok::<BulkRun, MarketError>(
                    BulkRun { state: self@, ids: ids@, failed: failed as nat, transfers: transfers@ },
                ),
            decreases items.len() - i,
        {
            proof {
                assert(items@.take(i as int + 1).drop_last() =~= items@.take(i as int));
                assert(items@.take(i as int + 1).last() == items@[i as int]);
            }
            let it = &items[i];
            if it.price <= 0 || !self.is_currency_whitelisted(it.currency) || it.metadata_hash.len() != 32
                || !self.collections.contains_key(&it.collection) {
                failed = failed + 1;
            } else {
                match self.list_nft(
                    seller,
                    it.collection,
                    it.token_id,
                    it.amount,
                    it.price,
                    it.currency,
                    &it.metadata_hash,
                    now,
                ) {
                    Err(e) => {
                        proof {
                            assert(old(self)@.bulk_list_run(seller, items@.take(i as int + 1), now) == Err::<
                                BulkRun,
                                MarketError,
                            >(e));
                            lemma_bulk_list_err_propagates(old(self)@, seller, items@, now, i as int + 1);
                        }
                        *self = snapshot;
                        return Err(e);
                    },
                    Ok((id, mut ts)) => {
                        ids.push(id);
                        transfers.append(&mut ts);
                    },
                }
            }
            i = i + 1;
        }
        proof {
            assert(items@.take(i as int) =~= items@);
        }
        let succeeded = ids.len() as u32;
        Ok((BulkResult { succeeded, failed, ids }, transfers))
    }

    /// Opens up to fifty auctions at once; invalid items are counted as
    /// failed and skipped.
    pub fn bulk_create_auctions(&mut self, seller: u64, items: &Vec<BulkAuctionItem>, now: u64) -> (r:
        Result<(BulkResult, Vec<Transfer>), MarketError>)
        requires
            old(self).wf(),
        ensures
            match old(self)@.bulk_auctions_spec(seller, items@, now) {
                Err(e) => r is Err && r->Err_0 == e && final(self)@ == old(self)@,
                Ok(run) => bulk_matches(r, run) && final(self)@ == run.state,
            },
            final(self).wf(),
    {
        if self.paused {
            return Err(MarketError::ContractPaused);
        }
        if items.len() == 0 || items.len() > MAX_BULK_SIZE as usize {
            return Err(MarketError::InvalidArgument);
        }
        let snapshot = self.duplicate();
        let mut ids: Vec<u64> = Vec::new();
        let mut failed: u32 = 0;
        let mut transfers: Vec<Transfer> = Vec::new();
        let mut i: usize = 0;
        while i < items.len()
            invariant
                i <= items@.len() <= MAX_BULK_SIZE,
                self.wf(),
                snapshot@ == old(self)@,
                old(self)@.wf(),
                !old(self)@.paused,
                items@.len() > 0,
                failed <= i,
                ids@.len() <= i,
                old(self)@.bulk_auction_run(seller, items@.take(i as int), now) == Ok::<BulkRun, MarketError>(
                    BulkRun { state: self@, ids: ids@, failed: failed as nat, transfers: transfers@ },
                ),
            decreases items.len() - i,
        {
            proof {
                assert(items@.take(i as int + 1).drop_last() =~= items@.take(i as int));
                assert(items@.take(i as int + 1).last() == items@[i as int]);
            }
            let it = &items[i];
            if it.duration_seconds == 0 || it.duration_seconds > MAX_DURATION_SECONDS || it.start_price <= 0 || (
            it.auction_type == AuctionType::Dutch && it.floor_price >= it.start_price)
                || !self.collections.contains_key(&it.collection) {
                failed = failed + 1;
            } else {
                let mut res: Result<(u64, Vec<Transfer>), MarketError> = Err(MarketError::Overflow);
                if self.auction_seq != u64::MAX {
                    let end_time = match now.checked_add(it.duration_seconds) {
                        Some(e) => e,
                        None => u64::MAX,
                    };
                    let a = Auction {
                        id: self.auction_seq + 1,
                        auction_type: it.auction_type,
                        seller,
                        collection: it.collection,
                        token_id: it.token_id,
                        amount: it.amount,
                        currency: it.currency,
                        start_price: it.start_price,
                        floor_price: it.floor_price,
                        current_bid: 0,
                        current_bidder: self.contract,
                        status: AuctionStatus::Active,
                        start_time: now,
                        end_time,
                        auto_extension_window: if it.auction_type == AuctionType::English {
                            self.auto_extension_seconds
                        } else {
                            0
                        },
                    };
                    let h = it.metadata_hash.clone();
                    assert(h@ =~= it.metadata_hash@);
                    assert(a == self@.bulk_auction(seller, *it, now));
                    res = self.open_auction(a, h);
                }
                match res {
                    Err(e) => {
                        proof {
                            assert(old(self)@.bulk_auction_run(seller, items@.take(i as int + 1), now) == Err::<
                                BulkRun,
                                MarketError,
                            >(e));
                            lemma_bulk_auction_err_propagates(old(self)@, seller, items@, now, i as int + 1);
                        }
                        *self = snapshot;
                        return Err(e);
                    },
                    Ok((id, mut ts)) => {
                        ids.push(id);
                        transfers.append(&mut ts);
                    },
                }
            }
            i = i + 1;
        }
        proof {
            assert(items@.take(i as int) =~= items@);
        }
        let succeeded = ids.len() as u32;
        Ok((BulkResult { succeeded, failed, ids }, transfers))
    }
}

proof fn lemma_bulk_list_err_propagates(v: MarketView, seller: u64, items: Seq<BulkListingItem>, now: u64, k: int)
    requires
        0 <= k <= items.len(),
        v.bulk_list_run(seller, items.take(k), now) is Err,
    ensures
        v.bulk_list_run(seller, items, now) == v.bulk_list_run(seller, items.take(k), now),
    decreases items.len() - k,
{
    if k == items.len() {
        assert(items.take(k) =~= items);
    } else {
        assert(items.take(k + 1).drop_last() =~= items.take(k));
        lemma_bulk_list_err_propagates(v, seller, items, now, k + 1);
    }
}

proof fn lemma_bulk_auction_err_propagates(
    v: MarketView,
    seller: u64,
    items: Seq<BulkAuctionItem>,
    now: u64,
    k: int,
)
    requires
        0 <= k <= items.len(),
        v.bulk_auction_run(seller, items.take(k), now) is Err,
    ensures
        v.bulk_auction_run(seller, items, now) == v.bulk_auction_run(seller, items.take(k), now),
    decreases items.len() - k,
{
    if k == items.len() {
        assert(items.take(k) =~= items);
    } else {
        assert(items.take(k + 1).drop_last() =~= items.take(k));
        lemma_bulk_auction_err_propagates(v, seller, items, now, k + 1);
    }
}

/// A sale splits its price exactly: platform fee, royalties and the
/// seller's proceeds add up to the price, and the fee is never negative.
pub proof fn lemma_sale_split_exact(v: MarketView, collection: u64, price: i128)
    requires
        v.sale_split(collection, price) is Some,
    ensures
        ({
            let (fee, roy, proceeds) = v.sale_split(collection, price)->0;
            &&& fee + sum_payments(roy) + proceeds == price
            &&& fee >= 0
        }),
{
}

/// An accepted bid strictly raises the auction's current bid, makes the
/// bidder the highest bidder, and escrows exactly the bid.
pub proof fn lemma_bid_raises_current_bid(v: MarketView, bidder: u64, id: u64, bid: i128, now: u64)
    requires
        v.place_bid_spec(bidder, id, bid, now) is Ok,
    ensures
        ({
            let (w, ts) = v.place_bid_spec(bidder, id, bid, now)->Ok_0;
            &&& w.auctions[id].current_bid == bid
            &&& bid > v.auctions[id].current_bid
            &&& w.auctions[id].current_bidder == bidder
            &&& ts.last() == (Transfer { token: v.auctions[id].currency, from: bidder, to: v.contract, amount: bid })
        }),
{
    let a = v.auctions[id];
    if a.current_bid > 0 {
        assert(v.min_bid(a)->0 >= a.current_bid + 1);
    }
}

/// The Dutch-auction price never leaves the band between the floor and the
/// start price.
pub proof fn lemma_dutch_price_in_band(a: Auction, now: u64)
    requires
        0 <= a.floor_price <= a.start_price,
        a.start_time < a.end_time,
        dutch_price(a, now) is Some,
    ensures
        a.floor_price <= dutch_price(a, now)->0 <= a.start_price,
{
    if now >= a.end_time || now <= a.start_time {
    } else {
        let range = a.start_price - a.floor_price;
        let elapsed = now - a.start_time;
        let span = (a.end_time - a.start_time) as int;
        let product = range * elapsed;
        assert(0 <= product <= range * span) by (nonlinear_arith)
            requires
                range >= 0,
                0 < elapsed < span,
                product == range * elapsed,
        ;
        assert(0 <= product / span <= range) by (nonlinear_arith)
            requires
                0 <= product <= range * span,
                span > 0,
                range >= 0,
        ;
    }
}

/// The Dutch-auction price in closed form: the start price up to the
/// start, the floor from the end on, and in between the start price less
/// the elapsed share of the drop, rounded down. Excluded: auctions whose
/// whole drop times duration overflows, where an intermediate value can
/// overflow.
pub proof fn lemma_dutch_price_formula(a: Auction, now: u64)
    requires
        a.start_time < a.end_time,
        0 < a.floor_price < a.start_price,
        fits_i128((a.start_price - a.floor_price) * (a.end_time - a.start_time)),
    ensures
        now <= a.start_time ==> dutch_price(a, now) == Some(a.start_price as int),
        now >= a.end_time ==> dutch_price(a, now) == Some(a.floor_price as int),
        a.start_time < now < a.end_time ==> dutch_price(a, now) == Some(
            a.start_price - (a.start_price - a.floor_price) * (now - a.start_time) / ((a.end_time
                - a.start_time) as int),
        ),
{
    if a.start_time < now < a.end_time {
        let range = a.start_price - a.floor_price;
        let elapsed = now - a.start_time;
        let span = (a.end_time - a.start_time) as int;
        let product = range * elapsed;
        assert(0 <= product <= range * span) by (nonlinear_arith)
            requires
                range > 0,
                0 < elapsed < span,
                product == range * elapsed,
        ;
        assert(0 <= product / span <= range) by (nonlinear_arith)
            requires
                0 <= product <= range * span,
                span > 0,
                range > 0,
        ;
        assert(crate::bps::trunc_div(product, span) == product / span);
    }
}

/// The Dutch-auction price never rises as time passes: at a later time it
/// is at most what it was earlier.
pub proof fn lemma_dutch_price_never_rises(a: Auction, t1: u64, t2: u64)
    requires
        0 <= a.floor_price <= a.start_price,
        a.start_time < a.end_time,
        t1 <= t2,
        dutch_price(a, t1) is Some,
        dutch_price(a, t2) is Some,
    ensures
        dutch_price(a, t2)->0 <= dutch_price(a, t1)->0,
{
    lemma_dutch_price_in_band(a, t1);
    lemma_dutch_price_in_band(a, t2);
    if t2 >= a.end_time || t1 <= a.start_time {
    } else {
        let range = a.start_price - a.floor_price;
        let span = (a.end_time - a.start_time) as int;
        let p1 = range * (t1 - a.start_time);
        let p2 = range * (t2 - a.start_time);
        assert(0 <= p1 <= p2) by (nonlinear_arith)
            requires
                range >= 0,
                0 < t1 - a.start_time <= t2 - a.start_time,
                p1 == range * (t1 - a.start_time),
                p2 == range * (t2 - a.start_time),
        ;
        assert(p1 / span <= p2 / span) by (nonlinear_arith)
            requires
                0 <= p1 <= p2,
                span > 0,
        ;
    }
}

/// Listing and then cancelling gives the seller back exactly the NFTs that
/// the listing escrowed.
pub proof fn lemma_list_then_cancel_returns_nft(
    v: MarketView,
    seller: u64,
    collection: u64,
    token_id: u64,
    amount: u64,
    price: i128,
    currency: u64,
    hash: Seq<u8>,
    now: u64,
)
    requires
        v.list_nft_spec(seller, collection, token_id, amount, price, currency, hash, now) is Ok,
    ensures
        ({
            let (w, id, escrow) = v.list_nft_spec(seller, collection, token_id, amount, price, currency, hash, now)->Ok_0;
            &&& escrow == seq![Transfer { token: collection, from: seller, to: v.contract, amount: amount as i128 }]
            &&& w.cancel_listing_spec(seller, id) is Ok
            &&& w.cancel_listing_spec(seller, id)->Ok_0.1 == seq![
                Transfer { token: collection, from: v.contract, to: seller, amount: amount as i128 },
            ]
        }),
{
    let l = v.new_listing(seller, collection, token_id, amount, price, currency, hash, now);
    let w = v.add_listing(l)->0;
    assert(w.listings[l.id] == l);
    assert(w.contract == v.contract);
    let c = w.collections[collection];
    assert(w.with_listing(l.id, Listing { status: ListingStatus::Cancelled, ..l }).bump_stats(collection, -1, 0) is Some);
}

/// A pause stops all trading: while the marketplace is paused, listing,
/// buying, auctioning, bidding, settling, offering and the bulk operations
/// are all refused with `ContractPaused`, whatever their arguments.
pub proof fn lemma_pause_blocks_trading(
    v: MarketView,
    who: u64,
    id: u64,
    collection: u64,
    token_id: u64,
    amount: u64,
    price: i128,
    floor: i128,
    currency: u64,
    duration: u64,
    hash: Seq<u8>,
    now: u64,
    listing_items: Seq<BulkListingItem>,
    auction_items: Seq<BulkAuctionItem>,
)
    requires
        v.paused,
    ensures
        v.list_nft_spec(who, collection, token_id, amount, price, currency, hash, now) == Err::<
            (MarketView, u64, Seq<Transfer>),
            MarketError,
        >(MarketError::ContractPaused),
        v.buy_nft_spec(who, id) == Err::<(MarketView, Seq<Transfer>), MarketError>(MarketError::ContractPaused),
        v.create_english_spec(who, collection, token_id, amount, price, currency, duration, hash, now) == Err::<
            (MarketView, u64, Seq<Transfer>),
            MarketError,
        >(MarketError::ContractPaused),
        v.create_dutch_spec(who, collection, token_id, amount, price, floor, currency, duration, hash, now)
            == Err::<(MarketView, u64, Seq<Transfer>), MarketError>(MarketError::ContractPaused),
        v.place_bid_spec(who, id, price, now) == Err::<(MarketView, Seq<Transfer>), MarketError>(
            MarketError::ContractPaused,
        ),
        v.settle_english_spec(id, now) == Err::<(MarketView, Seq<Transfer>), MarketError>(
            MarketError::ContractPaused,
        ),
        v.buy_dutch_spec(who, id, now) == Err::<(MarketView, Seq<Transfer>), MarketError>(
            MarketError::ContractPaused,
        ),
        v.make_offer_spec(who, who, collection, token_id, amount, price, currency, collection, token_id, duration, now)
            == Err::<(MarketView, u64, Seq<Transfer>), MarketError>(MarketError::ContractPaused),
        v.accept_offer_spec(who, id, now) == Err::<(MarketView, Seq<Transfer>), MarketError>(
            MarketError::ContractPaused,
        ),
        v.bulk_list_spec(who, listing_items, now) == Err::<BulkRun, MarketError>(MarketError::ContractPaused),
        v.bulk_auctions_spec(who, auction_items, now) == Err::<BulkRun, MarketError>(MarketError::ContractPaused),
{
}

} // verus!
