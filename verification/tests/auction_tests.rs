use auction::accounts::AccountModel;
use auction::create_auction::{create_auction, CreateAuctionArgs};
use auction::delegate::{delegate, DelegateArgs};
use auction::errors::AuctionError;
use auction::pubkey::{
    assert_derivation, auction_seeds, custody_seeds, derive_address, escrow_seeds, extended_seeds,
    Pubkey,
};
use auction::state::{
    auction_size_for, AuctionState, BidState, PriceFloor, WinnerLimit, BASE_AUCTION_DATA_SIZE,
};
use auction::token::{MintState, TokenAccountState};

fn pk(b: u8) -> Pubkey {
    Pubkey::new([b; 32])
}

fn plain_account(key: Pubkey, owner: Pubkey) -> AccountModel {
    AccountModel {
        key,
        is_signer: false,
        owner,
        lamports: 0,
    }
}

fn fresh_account(key: Pubkey) -> AccountModel {
    AccountModel {
        key,
        is_signer: false,
        owner: Pubkey::new([0u8; 32]),
        lamports: 0,
    }
}

/// A complete, valid creation request: the ten ordered accounts, the
/// matching seller state, and the arguments.
fn valid_create_setup(
    winners: WinnerLimit,
    amount: u64,
) -> (
    Pubkey,
    Vec<AccountModel>,
    CreateAuctionArgs,
    TokenAccountState,
    u64,
) {
    let program = pk(7);
    let resource = pk(9);
    let payer_key = pk(1);
    let token_program_key = pk(11);
    let nft_mint_key = pk(3);

    let (auction_key, _) = derive_address(&auction_seeds(&program, &resource), &program).unwrap();
    let (extended_key, _) = derive_address(&extended_seeds(&program, &resource), &program).unwrap();
    let (custody_key, _) = derive_address(&custody_seeds(&auction_key), &program).unwrap();
    let (escrow_key, _) = derive_address(&escrow_seeds(&payer_key), &program).unwrap();

    let payer = AccountModel {
        key: payer_key,
        is_signer: true,
        owner: Pubkey::new([0u8; 32]),
        lamports: 1_000,
    };
    let accounts = vec![
        payer,
        fresh_account(auction_key),
        fresh_account(extended_key),
        plain_account(nft_mint_key, token_program_key),
        plain_account(pk(4), token_program_key),
        plain_account(escrow_key, Pubkey::new([0u8; 32])),
        fresh_account(custody_key),
        plain_account(token_program_key, Pubkey::new([0u8; 32])),
        plain_account(pk(12), Pubkey::new([0u8; 32])),
        plain_account(pk(13), Pubkey::new([0u8; 32])),
    ];
    let args = CreateAuctionArgs {
        winners,
        end_auction_at: None,
        end_auction_gap: None,
        token_mint: pk(5),
        authority: pk(6),
        resource,
        price_floor: PriceFloor::NoFloor,
        tick_size: None,
        gap_tick_size_percentage: None,
        nft_mint: nft_mint_key,
        nft_selling_amount: amount,
    };
    let seller = TokenAccountState {
        mint: nft_mint_key,
        owner: escrow_key,
        amount: 25,
    };
    (program, accounts, args, seller, 100)
}

#[test]
fn auction_address_derivation_is_deterministic() {
    let program = pk(7);
    let resource = pk(9);
    let first = derive_address(&auction_seeds(&program, &resource), &program).unwrap();
    let second = derive_address(&auction_seeds(&program, &resource), &program).unwrap();
    assert_eq!(first.0.bytes, second.0.bytes);
    assert_eq!(first.1, second.1);
}

#[test]
fn auction_address_matches_host_derivation() {
    let program = pk(7);
    let resource = pk(9);
    let (key, bump) = derive_address(&auction_seeds(&program, &resource), &program).unwrap();
    let host_program = solana_program::pubkey::Pubkey::new_from_array(program.bytes);
    let (host_key, host_bump) = solana_program::pubkey::Pubkey::find_program_address(
        &[b"auction", &program.bytes, &resource.bytes],
        &host_program,
    );
    assert_eq!(key.bytes, host_key.to_bytes());
    assert_eq!(bump, host_bump);
    // The derivation is a real hash, not anything handed in.
    assert_ne!(key.bytes, program.bytes);
    assert_ne!(key.bytes, resource.bytes);
}

#[test]
fn wrong_supplied_address_is_rejected() {
    let program = pk(7);
    let resource = pk(9);
    let (key, bump) = derive_address(&auction_seeds(&program, &resource), &program).unwrap();
    let ok = assert_derivation(&auction_seeds(&program, &resource), &program, &key);
    assert_eq!(ok, Ok(bump));
    let bad = assert_derivation(&auction_seeds(&program, &resource), &program, &pk(42));
    assert_eq!(bad, Err(AuctionError::AddressMismatch));
}

#[test]
fn capped_size_has_slack_above_base() {
    // Fewer than eight winners reserve eight slots; more reserve double.
    assert_eq!(
        auction_size_for(&WinnerLimit::Capped(5)),
        Some(BASE_AUCTION_DATA_SIZE + 8 * 40)
    );
    assert_eq!(
        auction_size_for(&WinnerLimit::Capped(1)),
        Some(BASE_AUCTION_DATA_SIZE + 8 * 40)
    );
    assert_eq!(
        auction_size_for(&WinnerLimit::Capped(10)),
        Some(BASE_AUCTION_DATA_SIZE + 20 * 40)
    );
    assert!(auction_size_for(&WinnerLimit::Capped(5)).unwrap() > BASE_AUCTION_DATA_SIZE);
    assert_eq!(BASE_AUCTION_DATA_SIZE, 147);
}

#[test]
fn unlimited_size_is_base_exactly() {
    assert_eq!(
        auction_size_for(&WinnerLimit::Unlimited(0)),
        Some(BASE_AUCTION_DATA_SIZE)
    );
}

#[test]
fn gap_tick_percentage_101_is_rejected() {
    let (program, accounts, mut args, seller, rent) = valid_create_setup(WinnerLimit::Capped(5), 10);
    args.gap_tick_size_percentage = Some(101);
    let r = create_auction(&program, &accounts, &args, None, None, &seller, rent);
    assert_eq!(r.err(), Some(AuctionError::InvalidParameter));
}

#[test]
fn gap_tick_percentage_0_and_100_are_accepted() {
    for gap in [0u8, 100u8] {
        let (program, accounts, mut args, seller, rent) =
            valid_create_setup(WinnerLimit::Capped(5), 10);
        args.gap_tick_size_percentage = Some(gap);
        let r = create_auction(&program, &accounts, &args, None, None, &seller, rent);
        let outcome = r.expect("creation should succeed");
        assert_eq!(outcome.extended_record.gap_tick_size_percentage, Some(gap));
    }
}

#[test]
fn created_auction_starts_in_created_state() {
    let (program, accounts, args, seller, rent) = valid_create_setup(WinnerLimit::Capped(5), 10);
    let o = create_auction(&program, &accounts, &args, None, None, &seller, rent).unwrap();
    assert!(matches!(o.auction_record.state, AuctionState::Created));
    assert_eq!(o.auction_record.ended_at, None);
    assert_eq!(o.auction_record.last_bid, None);
}

#[test]
fn end_to_end_creation_moves_asset_into_custody() {
    let (program, accounts, args, seller, rent) = valid_create_setup(WinnerLimit::Capped(5), 10);
    let o = create_auction(&program, &accounts, &args, None, None, &seller, rent).unwrap();

    let (auction_key, _) = derive_address(&auction_seeds(&program, &args.resource), &program).unwrap();
    assert_eq!(o.auction_account.key.bytes, auction_key.bytes);
    assert_eq!(o.auction_account.size, BASE_AUCTION_DATA_SIZE + 8 * 40);
    assert_eq!(o.custody_account.amount, 10);
    assert_eq!(o.custody_account.owner.bytes, auction_key.bytes);
    assert_eq!(o.seller_after.amount, seller.amount - 10);
    assert!(matches!(o.auction_record.state, AuctionState::Created));
    match &o.auction_record.bid_state {
        BidState::Capped { bids, max } => {
            assert_eq!(bids.len(), 0);
            assert_eq!(*max, 5);
        }
        BidState::Unlimited { .. } => panic!("expected a capped bid state"),
    }
    assert!(o.auction_record_bytes.len() as u64 <= o.auction_account.size);
    assert!(o.extended_record_bytes.len() as u64 <= o.extended_account.size);
}

#[test]
fn creation_rejects_substituted_auction_account() {
    let (program, mut accounts, args, seller, rent) = valid_create_setup(WinnerLimit::Capped(5), 10);
    accounts[1] = fresh_account(pk(42));
    let r = create_auction(&program, &accounts, &args, None, None, &seller, rent);
    assert_eq!(r.err(), Some(AuctionError::AddressMismatch));
}

#[test]
fn creation_rejects_insufficient_seller_balance() {
    let (program, accounts, mut args, seller, rent) = valid_create_setup(WinnerLimit::Capped(5), 10);
    args.nft_selling_amount = 26;
    let r = create_auction(&program, &accounts, &args, None, None, &seller, rent);
    assert_eq!(r.err(), Some(AuctionError::ResourceFault));
}

#[test]
fn creation_rejects_unsigned_payer() {
    let (program, mut accounts, args, seller, rent) = valid_create_setup(WinnerLimit::Capped(5), 10);
    accounts[0].is_signer = false;
    let r = create_auction(&program, &accounts, &args, None, None, &seller, rent);
    assert_eq!(r.err(), Some(AuctionError::AuthorizationFailure));
}

#[test]
fn creation_rejects_short_account_list() {
    let (program, mut accounts, args, seller, rent) = valid_create_setup(WinnerLimit::Capped(5), 10);
    accounts.truncate(9);
    let r = create_auction(&program, &accounts, &args, None, None, &seller, rent);
    assert_eq!(r.err(), Some(AuctionError::MissingAccount));
}

/// A complete, valid delegation request.
fn valid_delegate_setup() -> (
    Pubkey,
    Vec<AccountModel>,
    DelegateArgs,
    MintState,
    TokenAccountState,
) {
    let program = pk(7);
    let creator_key = pk(1);
    let token_id = Pubkey::new(spl_token::id().to_bytes());
    let (escrow_key, bump) = derive_address(&escrow_seeds(&creator_key), &program).unwrap();
    let creator = AccountModel {
        key: creator_key,
        is_signer: true,
        owner: Pubkey::new([0u8; 32]),
        lamports: 0,
    };
    let accounts = vec![
        creator,
        plain_account(pk(3), token_id),
        plain_account(escrow_key, Pubkey::new([0u8; 32])),
        plain_account(pk(4), token_id),
        plain_account(token_id, Pubkey::new([0u8; 32])),
    ];
    let mint = MintState {
        mint_authority: Some(creator_key),
        freeze_authority: Some(creator_key),
    };
    let token_account = TokenAccountState {
        mint: pk(3),
        owner: creator_key,
        amount: 5,
    };
    (program, accounts, DelegateArgs { escrow_nonce: bump }, mint, token_account)
}

#[test]
fn delegate_accepts_only_the_canonical_token_program() {
    // The same request succeeds with the real token program id supplied
    // and fails with any other, so the id the library compares against is
    // the token crate's own, not something handed in.
    let (program, accounts, args, mint, token_account) = valid_delegate_setup();
    assert!(delegate(&program, &accounts, args, &mint, &token_account).is_ok());
    let mut forged = accounts.clone();
    forged[4].key = pk(250);
    forged[1].owner = Pubkey::new(spl_token::id().to_bytes());
    let r = delegate(&program, &forged, args, &mint, &token_account);
    assert_eq!(r.err(), Some(AuctionError::AuthorizationFailure));
}

#[test]
fn delegate_with_wrong_nonce_fails_and_changes_nothing() {
    let (program, accounts, args, mint, token_account) = valid_delegate_setup();
    let wrong = DelegateArgs {
        escrow_nonce: args.escrow_nonce.wrapping_sub(1),
    };
    let r = delegate(&program, &accounts, wrong, &mint, &token_account);
    assert_eq!(r.err(), Some(AuctionError::AuthorizationFailure));
    // The pre-call records are untouched.
    assert_eq!(mint.mint_authority.unwrap().bytes, pk(1).bytes);
    assert_eq!(mint.freeze_authority.unwrap().bytes, pk(1).bytes);
    assert_eq!(token_account.owner.bytes, pk(1).bytes);
}

#[test]
fn delegate_moves_all_three_authorities_to_escrow() {
    let (program, accounts, args, mint, token_account) = valid_delegate_setup();
    let escrow_key = accounts[2].key;
    let o = delegate(&program, &accounts, args, &mint, &token_account).unwrap();
    assert_eq!(o.mint_after.mint_authority.unwrap().bytes, escrow_key.bytes);
    assert_eq!(o.mint_after.freeze_authority.unwrap().bytes, escrow_key.bytes);
    assert_eq!(o.token_account_after.owner.bytes, escrow_key.bytes);
    assert_eq!(o.token_account_after.amount, token_account.amount);

    // A second attempt by the original creator fails: the creator no
    // longer holds any of the three authorities.
    let again = delegate(
        &program,
        &accounts,
        args,
        &o.mint_after,
        &o.token_account_after,
    );
    assert_eq!(again.err(), Some(AuctionError::AuthorizationFailure));
}

#[test]
fn delegate_rejects_unsigned_creator() {
    let (program, mut accounts, args, mint, token_account) = valid_delegate_setup();
    accounts[0].is_signer = false;
    let r = delegate(&program, &accounts, args, &mint, &token_account);
    assert_eq!(r.err(), Some(AuctionError::AuthorizationFailure));
}

#[test]
fn delegate_rejects_forged_token_program() {
    let (program, mut accounts, args, mint, token_account) = valid_delegate_setup();
    accounts[4].key = pk(33);
    let r = delegate(&program, &accounts, args, &mint, &token_account);
    assert_eq!(r.err(), Some(AuctionError::AuthorizationFailure));
}

#[test]
fn delegate_rejects_mint_owned_elsewhere() {
    let (program, mut accounts, args, mint, token_account) = valid_delegate_setup();
    accounts[1].owner = pk(33);
    let r = delegate(&program, &accounts, args, &mint, &token_account);
    assert_eq!(r.err(), Some(AuctionError::ResourceFault));
}

#[test]
fn delegate_rejects_short_account_list() {
    let (program, mut accounts, args, mint, token_account) = valid_delegate_setup();
    accounts.truncate(4);
    let r = delegate(&program, &accounts, args, &mint, &token_account);
    assert_eq!(r.err(), Some(AuctionError::MissingAccount));
}
