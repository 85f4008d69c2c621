//! The auction's persisted records, their lifecycle, and the exact,
//! non-resizable storage sizing that the winner limit drives.

use vstd::prelude::*;

use crate::pubkey::Pubkey;

verus! {

/// The serialized footprint of one bid record: a 32-byte bidder identity
/// and an 8-byte amount.
pub const BID_RECORD_SIZE: u64 = 32 + 8;

/// The auction record's serialized size with an empty bid table: authority
/// (32), bid state tag, empty table and capacity (1 + 4 + 8), four optional
/// timestamps (9 each), the largest price floor variant (1 + 32), the
/// lifecycle state (1) and the bidding mint (32).
pub const BASE_AUCTION_DATA_SIZE: u64 = 32 + (1 + 4 + 8) + 9 + 9 + 9 + 9 + (1 + 32) + 1 + 32;

/// The extended record's reserved allocation. Every extended account is
/// created at this size, independent of its actual content, so that later
/// additive fields never force a reallocation.
pub const MAX_AUCTION_DATA_EXTENDED_SIZE: u64 = 219;

/// A capped bid table keeps this many slots for a winner count of `n`:
/// slack above `n` so the ranking engine can hold more candidates than
/// final winners while it replaces entries.
pub open spec fn bid_slots(n: u64) -> int {
    if n < 8 {
        8
    } else {
        2 * (n as int)
    }
}

/// The byte size the auction account is allocated with: fixed forever at
/// creation.
pub open spec fn auction_size(winners: WinnerLimit) -> int {
    match winners {
        WinnerLimit::Capped(n) => BASE_AUCTION_DATA_SIZE + bid_slots(n) * BID_RECORD_SIZE,
        WinnerLimit::Unlimited(_) => BASE_AUCTION_DATA_SIZE as int,
    }
}

/// Whether a winner limit caps the number of tracked winners, and at what.
#[derive(Clone, Copy, Debug, PartialEq, Eq, Structural)]
pub enum WinnerLimit {
    Capped(u64),
    Unlimited(u64),
}

/// The auction's lifecycle: created once, started and ended by bid
/// operations outside this program's scope; `Ended` is terminal.
#[derive(Clone, Copy, Debug, PartialEq, Eq, Structural)]
pub enum AuctionState {
    Created,
    Started,
    Ended,
}

impl AuctionState {
    /// The state every auction is created in.
    pub fn create() -> (r: AuctionState)
        ensures
            r is Created,
    {
        AuctionState::Created
    }
}

/// The minimum a bid must clear, if any: none, an open minimum amount, or a
/// blinded 32-byte commitment.
#[derive(Clone, Copy, Debug)]
pub enum PriceFloor {
    NoFloor,
    MinimumPrice(u64),
    BlindedPrice([u8; 32]),
}

/// One entry of the bid table: a bidder identity and an amount.
#[derive(Clone, Copy, Debug)]
pub struct Bid {
    pub bidder: Pubkey,
    pub amount: u64,
}

/// The bid table: capped auctions hold an ordered, bounded table sized
/// with slack above the winner count; unlimited auctions reserve no
/// per-bid slots.
#[derive(Clone, Debug)]
pub enum BidState {
    Capped { bids: Vec<Bid>, max: u64 },
    Unlimited { bids: Vec<Bid>, max: u64 },
}

impl BidState {
    /// The bid table a capped auction starts with: empty, capacity `n`.
    pub fn new_english(n: u64) -> (r: BidState)
        ensures
            r matches BidState::Capped { bids, max } && bids@.len() == 0 && max == n,
    {
        BidState::Capped { bids: Vec::new(), max: n }
    }

    /// The bid table an unlimited auction starts with: empty, no capacity.
    pub fn new_open_edition() -> (r: BidState)
        ensures
            r matches BidState::Unlimited { bids, max } && bids@.len() == 0 && max == 0,
    {
        BidState::Unlimited { bids: Vec::new(), max: 0 }
    }

    /// How many slots a capped table of winner count `n` is sized for.
    pub fn max_array_size_for(n: u64) -> (r: Option<u64>)
        ensures
            r matches Some(s) ==> s == bid_slots(n),
            r is Some <==> bid_slots(n) <= u64::MAX,
    {
        if n < 8 {
            Some(8)
        } else {
            n.checked_mul(2)
        }
    }
}

/// An optional fixed-length label for the auction.
pub type AuctionName = [u8; 32];

/// The auction's principal record, created exactly once and mutated only by
/// bid operations outside this program's scope.
#[derive(Clone, Debug)]
pub struct AuctionData {
    /// The identity that may administer the auction.
    pub authority: Pubkey,
    /// The bid table; its shape follows the winner limit.
    pub bid_state: BidState,
    /// The absolute deadline the auction is forced to end by, if any.
    pub end_auction_at: Option<i64>,
    /// The no-bid-activity window after which the auction ends, if any.
    pub end_auction_gap: Option<i64>,
    /// When the auction ended; set once, terminal.
    pub ended_at: Option<i64>,
    /// When the most recent bid was accepted, if any.
    pub last_bid: Option<i64>,
    /// The minimum a bid must clear, if any.
    pub price_floor: PriceFloor,
    /// The lifecycle state.
    pub state: AuctionState,
    /// The mint of the currency bids are placed in.
    pub token_mint: Pubkey,
}

/// The auction's extended record: the auctioned asset and the bid-shaping
/// parameters, in an account oversized for future additive fields.
#[derive(Clone, Debug)]
pub struct AuctionDataExtended {
    /// The mint of the asset under auction.
    pub nft_mint: Pubkey,
    /// How many units of the asset are under auction.
    pub nft_amount: u64,
    /// How many bids are placed and not cancelled.
    pub total_uncancelled_bids: u64,
    /// The minimum increment each bid must meet, if any.
    pub tick_size: Option<u64>,
    /// The minimum percentage increase within the gap window, if any;
    /// always within 0 to 100.
    pub gap_tick_size_percentage: Option<u8>,
    /// A price that sells the asset instantly, if any.
    pub instant_sale_price: Option<u64>,
    /// A fixed-length label, if any.
    pub name: Option<AuctionName>,
}

/// Computes the byte size to allocate the auction account with, or nothing
/// where the winner count is so large that the size exceeds the machine's
/// limit.
pub fn auction_size_for(winners: &WinnerLimit) -> (r: Option<u64>)
    ensures
        r matches Some(s) ==> s == auction_size(*winners),
        r is Some <==> auction_size(*winners) <= u64::MAX,
{
    match winners {
        WinnerLimit::Capped(n) => {
            match BidState::max_array_size_for(*n) {
                Some(slots) => {
                    match slots.checked_mul(BID_RECORD_SIZE) {
                        Some(table) => table.checked_add(BASE_AUCTION_DATA_SIZE),
                        None => None,
                    }
                },
                None => None,
            }
        },
        WinnerLimit::Unlimited(_) => Some(BASE_AUCTION_DATA_SIZE),
    }
}

/// A capped auction of any winner count from one upward is allocated
/// strictly more than the base size: the bid table always reserves slots.
pub proof fn lemma_capped_size_exceeds_base(n: u64)
    requires
        n >= 1,
    ensures
        auction_size(WinnerLimit::Capped(n)) == BASE_AUCTION_DATA_SIZE + bid_slots(n)
            * BID_RECORD_SIZE,
        auction_size(WinnerLimit::Capped(n)) > BASE_AUCTION_DATA_SIZE,
{
}

/// An unlimited auction is allocated the base size exactly.
pub proof fn lemma_unlimited_size_is_base(m: u64)
    ensures
        auction_size(WinnerLimit::Unlimited(m)) == BASE_AUCTION_DATA_SIZE,
{
}

} // verus!
