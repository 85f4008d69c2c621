//! The record layout against the de-facto encoding it mirrors: enums as a
//! one-byte tag, options as a presence byte, integers little-endian,
//! tables with a four-byte length prefix.

use auction::codec::{serialize_auction_data, serialize_auction_data_extended, write_record};
use auction::errors::AuctionError;
use auction::pubkey::Pubkey;
use auction::state::{
    AuctionData, AuctionDataExtended, AuctionState, BidState, PriceFloor, BASE_AUCTION_DATA_SIZE,
    MAX_AUCTION_DATA_EXTENDED_SIZE,
};

fn pk(b: u8) -> Pubkey {
    Pubkey::new([b; 32])
}

#[test]
fn extended_record_layout_matches_field_encodings() {
    let record = AuctionDataExtended {
        nft_mint: pk(3),
        nft_amount: 10,
        total_uncancelled_bids: 0,
        tick_size: Some(7),
        gap_tick_size_percentage: Some(100),
        instant_sale_price: None,
        name: None,
    };
    let bytes = serialize_auction_data_extended(&record);

    let mut expected: Vec<u8> = Vec::new();
    expected.extend_from_slice(&[3u8; 32]);
    expected.extend_from_slice(&borsh::to_vec(&10u64).unwrap());
    expected.extend_from_slice(&borsh::to_vec(&0u64).unwrap());
    expected.extend_from_slice(&borsh::to_vec(&Some(7u64)).unwrap());
    expected.extend_from_slice(&borsh::to_vec(&Some(100u8)).unwrap());
    expected.extend_from_slice(&borsh::to_vec(&(None as Option<u64>)).unwrap());
    expected.push(0u8);
    assert_eq!(bytes, expected);
    assert!(bytes.len() as u64 <= MAX_AUCTION_DATA_EXTENDED_SIZE);
}

#[test]
fn auction_record_layout_matches_field_encodings() {
    let record = AuctionData {
        authority: pk(6),
        bid_state: BidState::Capped {
            bids: Vec::new(),
            max: 5,
        },
        end_auction_at: Some(-2),
        end_auction_gap: None,
        ended_at: None,
        last_bid: None,
        price_floor: PriceFloor::MinimumPrice(9),
        state: AuctionState::Created,
        token_mint: pk(5),
    };
    let bytes = serialize_auction_data(&record);

    let mut expected: Vec<u8> = Vec::new();
    expected.extend_from_slice(&[6u8; 32]);
    expected.push(0u8); // capped bid-state tag
    expected.extend_from_slice(&borsh::to_vec(&(Vec::new() as Vec<u8>)).unwrap());
    expected.extend_from_slice(&borsh::to_vec(&5u64).unwrap());
    expected.extend_from_slice(&borsh::to_vec(&Some(-2i64)).unwrap());
    expected.push(0u8); // no gap window
    expected.push(0u8); // not ended
    expected.push(0u8); // no bid yet
    expected.push(1u8); // minimum-price floor tag
    expected.extend_from_slice(&borsh::to_vec(&9u64).unwrap());
    expected.push(0u8); // created
    expected.extend_from_slice(&[5u8; 32]);
    assert_eq!(bytes, expected);
    assert!(bytes.len() as u64 <= BASE_AUCTION_DATA_SIZE);
}

#[test]
fn base_size_covers_every_empty_record_shape() {
    // The largest base encoding: every option present, the widest floor.
    let record = AuctionData {
        authority: pk(6),
        bid_state: BidState::Capped {
            bids: Vec::new(),
            max: 5,
        },
        end_auction_at: Some(1),
        end_auction_gap: Some(2),
        ended_at: Some(3),
        last_bid: Some(4),
        price_floor: PriceFloor::BlindedPrice([9u8; 32]),
        state: AuctionState::Created,
        token_mint: pk(5),
    };
    let bytes = serialize_auction_data(&record);
    assert_eq!(bytes.len() as u64, BASE_AUCTION_DATA_SIZE);
}

#[test]
fn write_record_overwrites_front_and_keeps_rest() {
    let mut data = vec![9u8; 8];
    let bytes = vec![1u8, 2, 3];
    assert_eq!(write_record(&mut data, &bytes), Ok(()));
    assert_eq!(data, vec![1u8, 2, 3, 9, 9, 9, 9, 9]);
}

#[test]
fn write_record_rejects_oversized_record() {
    let mut data = vec![0u8; 2];
    let bytes = vec![1u8, 2, 3];
    assert_eq!(
        write_record(&mut data, &bytes),
        Err(AuctionError::SerializationFault)
    );
    assert_eq!(data, vec![0u8, 0]);
}
