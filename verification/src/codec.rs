//! The fixed binary layout of the persisted records.
//!
//! The encoding is self-describing: every enum is written as a one-byte
//! tag followed by its fields in order, every option as a presence byte,
//! every integer little-endian, every table with a four-byte length
//! prefix. Additive fields extend a record at its end, so old readers stay
//! sound; the extended account's oversized allocation hosts such growth
//! without reallocation.

use vstd::prelude::*;

use crate::errors::AuctionError;
use crate::pubkey::Pubkey;
use crate::state::{
    AuctionData,
    AuctionDataExtended,
    AuctionName,
    AuctionState,
    Bid,
    BidState,
    PriceFloor,
};

verus! {

/// The four little-endian bytes of a 32-bit integer.
pub open spec fn enc_u32_le(x: u32) -> Seq<u8> {
    seq![
        (x % 256) as u8,
        ((x / 0x100) % 256) as u8,
        ((x / 0x10000) % 256) as u8,
        ((x / 0x1000000) % 256) as u8,
    ]
}

/// The eight little-endian bytes of a 64-bit integer.
pub open spec fn enc_u64_le(x: u64) -> Seq<u8> {
    seq![
        (x % 256) as u8,
        ((x / 0x100) % 256) as u8,
        ((x / 0x10000) % 256) as u8,
        ((x / 0x1000000) % 256) as u8,
        ((x / 0x100000000) % 256) as u8,
        ((x / 0x10000000000) % 256) as u8,
        ((x / 0x1000000000000) % 256) as u8,
        ((x / 0x100000000000000) % 256) as u8,
    ]
}

/// A signed 64-bit value reinterpreted as its two's-complement unsigned
/// form, which is what the little-endian layout stores.
pub open spec fn u64_of_i64(x: i64) -> u64 {
    if x >= 0 {
        x as u64
    } else {
        ((x as int) + 0x10000000000000000) as u64
    }
}

/// An optional 64-bit amount: a presence byte, then the amount if present.
pub open spec fn enc_opt_u64(x: Option<u64>) -> Seq<u8> {
    match x {
        Option::Some(v) => seq![1u8] + enc_u64_le(v),
        Option::None => seq![0u8],
    }
}

/// An optional timestamp: a presence byte, then the timestamp if present.
pub open spec fn enc_opt_i64(x: Option<i64>) -> Seq<u8> {
    match x {
        Option::Some(v) => seq![1u8] + enc_u64_le(u64_of_i64(v)),
        Option::None => seq![0u8],
    }
}

/// An optional byte-sized value: a presence byte, then the value if
/// present.
pub open spec fn enc_opt_u8(x: Option<u8>) -> Seq<u8> {
    match x {
        Option::Some(v) => seq![1u8, v],
        Option::None => seq![0u8],
    }
}

/// An optional fixed-length label: a presence byte, then the 32 bytes if
/// present.
pub open spec fn enc_opt_name(x: Option<AuctionName>) -> Seq<u8> {
    match x {
        Option::Some(b) => seq![1u8] + b@,
        Option::None => seq![0u8],
    }
}

/// A price floor: a tag, then the variant's payload.
pub open spec fn enc_price_floor(p: PriceFloor) -> Seq<u8> {
    match p {
        PriceFloor::NoFloor => seq![0u8],
        PriceFloor::MinimumPrice(m) => seq![1u8] + enc_u64_le(m),
        PriceFloor::BlindedPrice(h) => seq![2u8] + h@,
    }
}

/// A lifecycle state: one tag byte.
pub open spec fn enc_auction_state(s: AuctionState) -> Seq<u8> {
    match s {
        AuctionState::Created => seq![0u8],
        AuctionState::Started => seq![1u8],
        AuctionState::Ended => seq![2u8],
    }
}

/// One bid record: the bidder identity, then the amount.
pub open spec fn enc_bid(b: Bid) -> Seq<u8> {
    b.bidder@ + enc_u64_le(b.amount)
}

/// The bid entries of a table, in order.
pub open spec fn enc_bid_items(s: Seq<Bid>) -> Seq<u8>
    decreases s.len(),
{
    if s.len() == 0 {
        Seq::empty()
    } else {
        enc_bid_items(s.drop_last()) + enc_bid(s.last())
    }
}

/// A bid table: its length, then its entries.
pub open spec fn enc_bid_table(s: Seq<Bid>) -> Seq<u8> {
    enc_u32_le(s.len() as u32) + enc_bid_items(s)
}

/// A bid state: a tag, the table, then the table's capacity.
pub open spec fn enc_bid_state(b: BidState) -> Seq<u8> {
    match b {
        BidState::Capped { bids, max } => seq![0u8] + enc_bid_table(bids@) + enc_u64_le(max),
        BidState::Unlimited { bids, max } => seq![1u8] + enc_bid_table(bids@) + enc_u64_le(max),
    }
}

/// The auction record's full layout, field by field in declaration order.
pub open spec fn enc_auction_data(a: AuctionData) -> Seq<u8> {
    a.authority@ + enc_bid_state(a.bid_state) + enc_opt_i64(a.end_auction_at) + enc_opt_i64(
        a.end_auction_gap,
    ) + enc_opt_i64(a.ended_at) + enc_opt_i64(a.last_bid) + enc_price_floor(a.price_floor)
        + enc_auction_state(a.state) + a.token_mint@
}

/// The extended record's full layout, field by field in declaration order.
pub open spec fn enc_auction_data_extended(e: AuctionDataExtended) -> Seq<u8> {
    e.nft_mint@ + enc_u64_le(e.nft_amount) + enc_u64_le(e.total_uncancelled_bids) + enc_opt_u64(
        e.tick_size,
    ) + enc_opt_u8(e.gap_tick_size_percentage) + enc_opt_u64(e.instant_sale_price) + enc_opt_name(
        e.name,
    )
}

/// How many entries a bid state's table holds.
pub open spec fn bid_table_len(b: BidState) -> nat {
    match b {
        BidState::Capped { bids, .. } => bids@.len(),
        BidState::Unlimited { bids, .. } => bids@.len(),
    }
}

fn put_u8(out: &mut Vec<u8>, x: u8)
    ensures
        final(out)@ == old(out)@ + seq![x],
{
    out.push(x);
    assert(out@ =~= old(out)@ + seq![x]);
}

fn put_u32_le(out: &mut Vec<u8>, x: u32)
    ensures
        final(out)@ == old(out)@ + enc_u32_le(x),
{
    out.push((x % 256) as u8);
    out.push(((x / 0x100) % 256) as u8);
    out.push(((x / 0x10000) % 256) as u8);
    out.push(((x / 0x1000000) % 256) as u8);
    assert(out@ =~= old(out)@ + enc_u32_le(x));
}

fn put_u64_le(out: &mut Vec<u8>, x: u64)
    ensures
        final(out)@ == old(out)@ + enc_u64_le(x),
{
    out.push((x % 256) as u8);
    out.push(((x / 0x100) % 256) as u8);
    out.push(((x / 0x10000) % 256) as u8);
    out.push(((x / 0x1000000) % 256) as u8);
    out.push(((x / 0x100000000) % 256) as u8);
    out.push(((x / 0x10000000000) % 256) as u8);
    out.push(((x / 0x1000000000000) % 256) as u8);
    out.push(((x / 0x100000000000000) % 256) as u8);
    assert(out@ =~= old(out)@ + enc_u64_le(x));
}

fn put_i64_le(out: &mut Vec<u8>, x: i64)
    ensures
        final(out)@ == old(out)@ + enc_u64_le(u64_of_i64(x)),
{
    let u: u64 = if x >= 0 {
        x as u64
    } else {
        (x - i64::MIN) as u64 + 0x8000000000000000
    };
    assert(u == u64_of_i64(x));
    put_u64_le(out, u);
}

fn put_bytes32(out: &mut Vec<u8>, b: &[u8; 32])
    ensures
        final(out)@ == old(out)@ + b@,
{
    let mut i: usize = 0;
    while i < 32
        invariant
            i <= 32,
            out@ == old(out)@ + b@.take(i as int),
        decreases 32 - i,
    {
        out.push(b[i]);
        assert(out@ =~= old(out)@ + b@.take(i + 1));
        i = i + 1;
    }
    assert(out@ =~= old(out)@ + b@);
}

fn put_pubkey(out: &mut Vec<u8>, k: &Pubkey)
    ensures
        final(out)@ == old(out)@ + k@,
{
    put_bytes32(out, &k.bytes);
}

fn put_opt_u64(out: &mut Vec<u8>, x: &Option<u64>)
    ensures
        final(out)@ == old(out)@ + enc_opt_u64(*x),
{
    match x {
        Option::Some(v) => {
            put_u8(out, 1);
            put_u64_le(out, *v);
        },
        Option::None => put_u8(out, 0),
    }
    assert(out@ =~= old(out)@ + enc_opt_u64(*x));
}

fn put_opt_i64(out: &mut Vec<u8>, x: &Option<i64>)
    ensures
        final(out)@ == old(out)@ + enc_opt_i64(*x),
{
    match x {
        Option::Some(v) => {
            put_u8(out, 1);
            put_i64_le(out, *v);
        },
        Option::None => put_u8(out, 0),
    }
    assert(out@ =~= old(out)@ + enc_opt_i64(*x));
}

fn put_opt_u8(out: &mut Vec<u8>, x: &Option<u8>)
    ensures
        final(out)@ == old(out)@ + enc_opt_u8(*x),
{
    match x {
        Option::Some(v) => {
            put_u8(out, 1);
            put_u8(out, *v);
        },
        Option::None => put_u8(out, 0),
    }
    assert(out@ =~= old(out)@ + enc_opt_u8(*x));
}

fn put_opt_name(out: &mut Vec<u8>, x: &Option<AuctionName>)
    ensures
        final(out)@ == old(out)@ + enc_opt_name(*x),
{
    match x {
        Option::Some(b) => {
            put_u8(out, 1);
            put_bytes32(out, b);
        },
        Option::None => put_u8(out, 0),
    }
    assert(out@ =~= old(out)@ + enc_opt_name(*x));
}

fn put_price_floor(out: &mut Vec<u8>, p: &PriceFloor)
    ensures
        final(out)@ == old(out)@ + enc_price_floor(*p),
{
    match p {
        PriceFloor::NoFloor => put_u8(out, 0),
        PriceFloor::MinimumPrice(m) => {
            put_u8(out, 1);
            put_u64_le(out, *m);
        },
        PriceFloor::BlindedPrice(h) => {
            put_u8(out, 2);
            put_bytes32(out, h);
        },
    }
    assert(out@ =~= old(out)@ + enc_price_floor(*p));
}

fn put_auction_state(out: &mut Vec<u8>, s: &AuctionState)
    ensures
        final(out)@ == old(out)@ + enc_auction_state(*s),
{
    match s {
        AuctionState::Created => put_u8(out, 0),
        AuctionState::Started => put_u8(out, 1),
        AuctionState::Ended => put_u8(out, 2),
    }
    assert(out@ =~= old(out)@ + enc_auction_state(*s));
}

fn put_bid(out: &mut Vec<u8>, b: &Bid)
    ensures
        final(out)@ == old(out)@ + enc_bid(*b),
{
    put_pubkey(out, &b.bidder);
    put_u64_le(out, b.amount);
    assert(out@ =~= old(out)@ + enc_bid(*b));
}

fn put_bid_table(out: &mut Vec<u8>, bids: &Vec<Bid>)
    requires
        bids@.len() <= u32::MAX,
    ensures
        final(out)@ == old(out)@ + enc_bid_table(bids@),
{
    put_u32_le(out, bids.len() as u32);
    let mut i: usize = 0;
    while i < bids.len()
        invariant
            i <= bids@.len() <= u32::MAX,
            out@ == old(out)@ + enc_u32_le(bids@.len() as u32) + enc_bid_items(
                bids@.take(i as int),
            ),
        decreases bids@.len() - i,
    {
        put_bid(out, &bids[i]);
        proof {
            assert(bids@.take(i + 1).drop_last() =~= bids@.take(i as int));
            assert(bids@.take(i + 1).last() == bids@[i as int]);
            assert(out@ =~= old(out)@ + enc_u32_le(bids@.len() as u32) + enc_bid_items(
                bids@.take(i + 1),
            ));
        }
        i = i + 1;
    }
    assert(bids@.take(bids@.len() as int) =~= bids@);
    assert(out@ =~= old(out)@ + enc_bid_table(bids@));
}

fn put_bid_state(out: &mut Vec<u8>, b: &BidState)
    requires
        bid_table_len(*b) <= u32::MAX,
    ensures
        final(out)@ == old(out)@ + enc_bid_state(*b),
{
    match b {
        BidState::Capped { bids, max } => {
            put_u8(out, 0);
            put_bid_table(out, bids);
            put_u64_le(out, *max);
        },
        BidState::Unlimited { bids, max } => {
            put_u8(out, 1);
            put_bid_table(out, bids);
            put_u64_le(out, *max);
        },
    }
    assert(out@ =~= old(out)@ + enc_bid_state(*b));
}

/// Encodes the auction record into its byte layout.
pub fn serialize_auction_data(a: &AuctionData) -> (r: Vec<u8>)
    requires
        bid_table_len(a.bid_state) <= u32::MAX,
    ensures
        r@ == enc_auction_data(*a),
{
    let mut out: Vec<u8> = Vec::new();
    put_pubkey(&mut out, &a.authority);
    put_bid_state(&mut out, &a.bid_state);
    put_opt_i64(&mut out, &a.end_auction_at);
    put_opt_i64(&mut out, &a.end_auction_gap);
    put_opt_i64(&mut out, &a.ended_at);
    put_opt_i64(&mut out, &a.last_bid);
    put_price_floor(&mut out, &a.price_floor);
    put_auction_state(&mut out, &a.state);
    put_pubkey(&mut out, &a.token_mint);
    assert(out@ =~= enc_auction_data(*a));
    out
}

/// Encodes the extended record into its byte layout.
pub fn serialize_auction_data_extended(e: &AuctionDataExtended) -> (r: Vec<u8>)
    ensures
        r@ == enc_auction_data_extended(*e),
{
    let mut out: Vec<u8> = Vec::new();
    put_pubkey(&mut out, &e.nft_mint);
    put_u64_le(&mut out, e.nft_amount);
    put_u64_le(&mut out, e.total_uncancelled_bids);
    put_opt_u64(&mut out, &e.tick_size);
    put_opt_u8(&mut out, &e.gap_tick_size_percentage);
    put_opt_u64(&mut out, &e.instant_sale_price);
    put_opt_name(&mut out, &e.name);
    assert(out@ =~= enc_auction_data_extended(*e));
    out
}

/// Each bid entry takes the same fixed footprint in the table.
pub proof fn lemma_enc_bid_items_len(s: Seq<Bid>)
    ensures
        enc_bid_items(s).len() == crate::state::BID_RECORD_SIZE * s.len(),
    decreases s.len(),
{
    if s.len() == 0 {
    } else {
        lemma_enc_bid_items_len(s.drop_last());
    }
}

/// An auction record never outgrows the base size plus its bid table: the
/// allocation formula of the sizing oracle always covers the record it was
/// computed for.
pub proof fn lemma_enc_auction_data_len(a: AuctionData)
    ensures
        enc_auction_data(a).len() <= crate::state::BASE_AUCTION_DATA_SIZE
            + crate::state::BID_RECORD_SIZE * bid_table_len(a.bid_state),
{
    match a.bid_state {
        BidState::Capped { bids, max } => lemma_enc_bid_items_len(bids@),
        BidState::Unlimited { bids, max } => lemma_enc_bid_items_len(bids@),
    }
}

/// An extended record always fits the reserved maximum allocation,
/// whatever its optional fields hold.
pub proof fn lemma_enc_auction_data_extended_len(e: AuctionDataExtended)
    ensures
        enc_auction_data_extended(e).len() <= crate::state::MAX_AUCTION_DATA_EXTENDED_SIZE,
{
}

/// Writes an encoded record over the front of a pre-allocated buffer,
/// leaving the remainder as it was; rejects a record that exceeds the
/// allocated space.
pub fn write_record(data: &mut Vec<u8>, bytes: &Vec<u8>) -> (r: Result<(), AuctionError>)
    ensures
        r is Ok <==> bytes@.len() <= old(data)@.len(),
        r is Ok ==> final(data)@ == bytes@ + old(data)@.skip(bytes@.len() as int),
        r is Err ==> final(data)@ == old(data)@ && r == Err::<(), AuctionError>(
            AuctionError::SerializationFault,
        ),
{
    if bytes.len() > data.len() {
        return Err(AuctionError::SerializationFault);
    }
    let mut i: usize = 0;
    while i < bytes.len()
        invariant
            i <= bytes@.len() <= data@.len(),
            data@.len() == old(data)@.len(),
            forall|j: int| 0 <= j < i ==> data@[j] == bytes@[j],
            forall|j: int| i <= j < data@.len() ==> data@[j] == old(data)@[j],
        decreases bytes@.len() - i,
    {
        data.set(i, bytes[i]);
        i = i + 1;
    }
    assert(data@ =~= bytes@ + old(data)@.skip(bytes@.len() as int));
    Ok(())
}

} // verus!
