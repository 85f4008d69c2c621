//! The creation entry point: derives and verifies every account address,
//! sizes and allocates the two storage accounts, takes custody of the
//! auctioned asset under the escrow identity's authority, and writes both
//! records — all as one indivisible operation whose first failing check
//! aborts it with no effect.

use vstd::prelude::*;

use crate::accounts::{is_fresh, is_system_key, AccountModel, AllocatedAccount};
use crate::codec::{
    enc_auction_data,
    enc_auction_data_extended,
    lemma_enc_auction_data_extended_len,
    lemma_enc_auction_data_len,
    serialize_auction_data,
    serialize_auction_data_extended,
};
use crate::errors::AuctionError;
use crate::pubkey::{
    auction_path,
    auction_seeds,
    custody_path,
    custody_seeds,
    derive_address,
    escrow_path,
    escrow_seeds,
    extended_path,
    extended_seeds,
    find_pda,
    pubkey_eq,
    seeds_with_bump,
    Pubkey,
};
use crate::state::{
    auction_size,
    auction_size_for,
    AuctionData,
    AuctionDataExtended,
    AuctionName,
    AuctionState,
    BidState,
    PriceFloor,
    WinnerLimit,
    BASE_AUCTION_DATA_SIZE,
    BID_RECORD_SIZE,
    MAX_AUCTION_DATA_EXTENDED_SIZE,
};
use crate::token::{create_holding_account, token_transfer, TokenAccountState};

verus! {

/// What a creation call asks for.
#[derive(Clone, Copy, Debug)]
pub struct CreateAuctionArgs {
    /// How many winners are allowed for this auction.
    pub winners: WinnerLimit,
    /// The cut-off point the auction is forced to end by, if any.
    pub end_auction_at: Option<i64>,
    /// How much time after the previous bid the auction ends, if any.
    pub end_auction_gap: Option<i64>,
    /// The mint of the currency bids are placed in.
    pub token_mint: Pubkey,
    /// The identity that may administer the auction.
    pub authority: Pubkey,
    /// The resource being auctioned.
    pub resource: Pubkey,
    /// The minimum a bid must clear, if any.
    pub price_floor: PriceFloor,
    /// The minimum increment each bid must meet, if any.
    pub tick_size: Option<u64>,
    /// The minimum percentage increase within the gap window, if any.
    pub gap_tick_size_percentage: Option<u8>,
    /// The mint of the asset under auction.
    pub nft_mint: Pubkey,
    /// How many units of the asset are sold.
    pub nft_selling_amount: u64,
}

/// The accounts the creation call consumes, in order.
#[derive(Clone, Copy, Debug)]
pub struct CreateAuctionAccounts {
    pub payer: AccountModel,
    pub auction: AccountModel,
    pub auction_extended: AccountModel,
    pub nft_mint: AccountModel,
    pub seller_nft_token_account: AccountModel,
    pub escrow: AccountModel,
    pub auction_nft_account: AccountModel,
    pub token_program: AccountModel,
    pub rent: AccountModel,
    pub system: AccountModel,
}

/// The named accounts a call's ordered account list carries.
pub open spec fn create_accounts_of(s: Seq<AccountModel>) -> CreateAuctionAccounts {
    CreateAuctionAccounts {
        payer: s[0],
        auction: s[1],
        auction_extended: s[2],
        nft_mint: s[3],
        seller_nft_token_account: s[4],
        escrow: s[5],
        auction_nft_account: s[6],
        token_program: s[7],
        rent: s[8],
        system: s[9],
    }
}

/// Everything a successful creation produces: the two freshly allocated
/// storage accounts, the custody account holding the asset, the seller's
/// account after the transfer, both records and their encodings, and the
/// bump seeds of every derivation made along the way.
#[derive(Clone, Debug)]
pub struct CreateAuctionOutcome {
    pub auction_account: AllocatedAccount,
    pub auction_bump: u8,
    pub extended_account: AllocatedAccount,
    pub extended_bump: u8,
    pub custody_account: TokenAccountState,
    pub custody_bump: u8,
    pub seller_after: TokenAccountState,
    pub escrow_bump: u8,
    pub auction_record: AuctionData,
    pub auction_record_bytes: Vec<u8>,
    pub extended_record: AuctionDataExtended,
    pub extended_record_bytes: Vec<u8>,
}

/// Every check the creation call makes, in order, and the first failure it
/// aborts with. The auction, custody and extended addresses must reproduce
/// from their derivation paths; the computed size must fit the machine;
/// the gap percentage must be within range; the payer must sign and cover
/// both persistence minimums; both storage targets and the custody target
/// must be unoccupied; the asset's mint and the seller's account must be
/// owned by the token program; the escrow address must reproduce from the
/// payer's derivation and hold the seller account's owner authority; and
/// the seller must cover the amount under auction.
pub open spec fn create_decision(
    program: Seq<u8>,
    a: CreateAuctionAccounts,
    args: CreateAuctionArgs,
    seller: TokenAccountState,
    rent_minimum: u64,
) -> Result<(), AuctionError> {
    if !(find_pda(auction_path(program, args.resource@), program) matches Some(p) && p.0
        == a.auction.key@) {
        Err(AuctionError::AddressMismatch)
    } else if !(auction_size(args.winners) <= u64::MAX) {
        Err(AuctionError::ResourceFault)
    } else if args.gap_tick_size_percentage matches Some(g) && g > 100 {
        Err(AuctionError::InvalidParameter)
    } else if !a.payer.is_signer {
        Err(AuctionError::AuthorizationFailure)
    } else if a.payer.lamports < rent_minimum {
        Err(AuctionError::ResourceFault)
    } else if !is_fresh(a.auction) {
        Err(AuctionError::ResourceFault)
    } else if !(find_pda(custody_path(a.auction.key@), program) matches Some(p) && p.0
        == a.auction_nft_account.key@) {
        Err(AuctionError::AddressMismatch)
    } else if a.nft_mint.owner@ != a.token_program.key@ {
        Err(AuctionError::ResourceFault)
    } else if !is_fresh(a.auction_nft_account) {
        Err(AuctionError::ResourceFault)
    } else if !(find_pda(escrow_path(a.payer.key@), program) matches Some(p) && p.0
        == a.escrow.key@) {
        Err(AuctionError::AuthorizationFailure)
    } else if a.seller_nft_token_account.owner@ != a.token_program.key@ {
        Err(AuctionError::ResourceFault)
    } else if seller.mint@ != a.nft_mint.key@ {
        Err(AuctionError::ResourceFault)
    } else if a.escrow.key@ != seller.owner@ {
        Err(AuctionError::AuthorizationFailure)
    } else if seller.amount < args.nft_selling_amount {
        Err(AuctionError::ResourceFault)
    } else if !(find_pda(extended_path(program, args.resource@), program) matches Some(p) && p.0
        == a.auction_extended.key@) {
        Err(AuctionError::AddressMismatch)
    } else if a.payer.lamports - rent_minimum < rent_minimum {
        Err(AuctionError::ResourceFault)
    } else if !is_fresh(a.auction_extended) {
        Err(AuctionError::ResourceFault)
    } else {
        Ok(())
    }
}

/// Splits the call's ordered account list into its named fields.
pub fn parse_accounts(accounts: &Vec<AccountModel>) -> (r: Result<
    CreateAuctionAccounts,
    AuctionError,
>)
    ensures
        r is Ok <==> accounts@.len() >= 10,
        r matches Ok(a) ==> a == create_accounts_of(accounts@),
        r matches Err(e) ==> e == AuctionError::MissingAccount,
{
    if accounts.len() < 10 {
        return Err(AuctionError::MissingAccount);
    }
    Ok(
        CreateAuctionAccounts {
            payer: accounts[0],
            auction: accounts[1],
            auction_extended: accounts[2],
            nft_mint: accounts[3],
            seller_nft_token_account: accounts[4],
            escrow: accounts[5],
            auction_nft_account: accounts[6],
            token_program: accounts[7],
            rent: accounts[8],
            system: accounts[9],
        },
    )
}

/// Creates the auction: verifies every derived address, allocates the
/// auction account at its exact winner-driven size and the extended
/// account at the reserved maximum, creates the custody holding account
/// under the auction identity, moves the asset into it under the escrow
/// identity's authority, and returns both records with their encodings,
/// each proven to fit its allocation.
pub fn create_auction(
    program_id: &Pubkey,
    accounts: &Vec<AccountModel>,
    args: &CreateAuctionArgs,
    instant_sale_price: Option<u64>,
    name: Option<AuctionName>,
    seller: &TokenAccountState,
    rent_minimum: u64,
) -> (r: Result<CreateAuctionOutcome, AuctionError>)
    ensures
        accounts@.len() < 10 ==> r == Err::<CreateAuctionOutcome, AuctionError>(
            AuctionError::MissingAccount,
        ),
        accounts@.len() >= 10 ==> {
            let a = create_accounts_of(accounts@);
            &&& (r is Ok <==> create_decision(program_id@, a, *args, *seller, rent_minimum) is Ok)
            &&& (r matches Err(e) ==> Err::<(), AuctionError>(e) == create_decision(
                program_id@,
                a,
                *args,
                *seller,
                rent_minimum,
            ))
            &&& (r matches Ok(o) ==> {
                &&& o.auction_account.key@ == a.auction.key@
                &&& o.auction_account.owner@ == program_id@
                &&& o.auction_account.size == auction_size(args.winners)
                &&& find_pda(auction_path(program_id@, args.resource@), program_id@) == Some(
                    (a.auction.key@, o.auction_bump),
                )
                &&& o.extended_account.key@ == a.auction_extended.key@
                &&& o.extended_account.owner@ == program_id@
                &&& o.extended_account.size == MAX_AUCTION_DATA_EXTENDED_SIZE
                &&& find_pda(extended_path(program_id@, args.resource@), program_id@) == Some(
                    (a.auction_extended.key@, o.extended_bump),
                )
                &&& find_pda(custody_path(a.auction.key@), program_id@) == Some(
                    (a.auction_nft_account.key@, o.custody_bump),
                )
                &&& find_pda(escrow_path(a.payer.key@), program_id@) == Some(
                    (a.escrow.key@, o.escrow_bump),
                )
                &&& o.custody_account.mint@ == a.nft_mint.key@
                &&& o.custody_account.owner@ == a.auction.key@
                &&& o.custody_account.amount == args.nft_selling_amount
                &&& o.seller_after.mint == seller.mint
                &&& o.seller_after.owner == seller.owner
                &&& o.seller_after.amount == seller.amount - args.nft_selling_amount
                &&& o.auction_record.authority == args.authority
                &&& o.auction_record.token_mint == args.token_mint
                &&& o.auction_record.end_auction_at == args.end_auction_at
                &&& o.auction_record.end_auction_gap == args.end_auction_gap
                &&& o.auction_record.ended_at is None
                &&& o.auction_record.last_bid is None
                &&& o.auction_record.price_floor == args.price_floor
                &&& o.auction_record.state is Created
                &&& (args.winners matches WinnerLimit::Capped(n)
                    ==> o.auction_record.bid_state matches BidState::Capped { bids, max }
                    && bids@.len() == 0 && max == n)
                &&& (args.winners matches WinnerLimit::Unlimited(_)
                    ==> o.auction_record.bid_state matches BidState::Unlimited { bids, max }
                    && bids@.len() == 0 && max == 0)
                &&& o.auction_record_bytes@ == enc_auction_data(o.auction_record)
                &&& o.auction_record_bytes@.len() <= o.auction_account.size
                &&& o.extended_record.nft_mint == args.nft_mint
                &&& o.extended_record.nft_amount == args.nft_selling_amount
                &&& o.extended_record.total_uncancelled_bids == 0
                &&& o.extended_record.tick_size == args.tick_size
                &&& o.extended_record.gap_tick_size_percentage == args.gap_tick_size_percentage
                &&& o.extended_record.instant_sale_price == instant_sale_price
                &&& o.extended_record.name == name
                &&& o.extended_record_bytes@ == enc_auction_data_extended(o.extended_record)
                &&& o.extended_record_bytes@.len() <= MAX_AUCTION_DATA_EXTENDED_SIZE
            })
        },
{
    let a = match parse_accounts(accounts) {
        Ok(a) => a,
        Err(e) => {
            return Err(e);
        },
    };

    // Derive the auction address and confirm it matches the supplied
    // account.
    let aseeds = auction_seeds(program_id, &args.resource);
    let (auction_key, auction_bump) = match derive_address(&aseeds, program_id) {
        Some(p) => p,
        None => {
            return Err(AuctionError::AddressMismatch);
        },
    };
    if !pubkey_eq(&auction_key, &a.auction.key) {
        return Err(AuctionError::AddressMismatch);
    }

    // The account must be large enough to hold the winner tracking.
    let size = match auction_size_for(&args.winners) {
        Some(s) => s,
        None => {
            return Err(AuctionError::ResourceFault);
        },
    };

    let bid_state = match args.winners {
        WinnerLimit::Capped(n) => BidState::new_english(n),
        WinnerLimit::Unlimited(_) => BidState::new_open_edition(),
    };

    if let Some(gap_tick) = args.gap_tick_size_percentage {
        if gap_tick > 100 {
            return Err(AuctionError::InvalidParameter);
        }
    }

    if !a.payer.is_signer {
        return Err(AuctionError::AuthorizationFailure);
    }

    // Allocate the auction account, re-deriving its address from the full
    // seed list.
    let afull = seeds_with_bump(aseeds, auction_bump);
    proof {
        assert(afull.deep_view() =~~= auction_path(program_id@, args.resource@).push(
            seq![auction_bump],
        ));
    }
    let auction_account = match crate::accounts::allocate_account(
        program_id,
        &a.auction,
        a.payer.lamports,
        size,
        &afull,
        rent_minimum,
    ) {
        Ok(acct) => acct,
        Err(e) => {
            return Err(e);
        },
    };

    // Derive the custody address and confirm it matches the supplied
    // account.
    let cseeds = custody_seeds(&a.auction.key);
    let (custody_key, custody_bump) = match derive_address(&cseeds, program_id) {
        Some(p) => p,
        None => {
            return Err(AuctionError::AddressMismatch);
        },
    };
    if !pubkey_eq(&custody_key, &a.auction_nft_account.key) {
        return Err(AuctionError::AddressMismatch);
    }

    // Create the custody holding account for the asset, owned by the
    // auction's own derived identity.
    if !pubkey_eq(&a.nft_mint.owner, &a.token_program.key) {
        return Err(AuctionError::ResourceFault);
    }
    if !is_system_key(&a.auction_nft_account.owner) || a.auction_nft_account.lamports != 0 {
        return Err(AuctionError::ResourceFault);
    }
    let custody_empty = create_holding_account(&a.nft_mint.key, &a.auction.key);

    // Derive the escrow identity and confirm it matches the supplied
    // account.
    let eseeds = escrow_seeds(&a.payer.key);
    let (escrow_key, escrow_bump) = match derive_address(&eseeds, program_id) {
        Some(p) => p,
        None => {
            return Err(AuctionError::AuthorizationFailure);
        },
    };
    if !pubkey_eq(&escrow_key, &a.escrow.key) {
        return Err(AuctionError::AuthorizationFailure);
    }

    // Move the asset into custody under the escrow identity's authority.
    if !pubkey_eq(&a.seller_nft_token_account.owner, &a.token_program.key) {
        return Err(AuctionError::ResourceFault);
    }
    let (seller_after, custody_account) = match token_transfer(
        seller,
        &custody_empty,
        &a.escrow.key,
        args.nft_selling_amount,
    ) {
        Ok(p) => p,
        Err(e) => {
            return Err(e);
        },
    };

    // Derive the extended address, confirm it, and allocate the extended
    // account at the reserved maximum.
    let xseeds = extended_seeds(program_id, &args.resource);
    let (extended_key, extended_bump) = match derive_address(&xseeds, program_id) {
        Some(p) => p,
        None => {
            return Err(AuctionError::AddressMismatch);
        },
    };
    if !pubkey_eq(&extended_key, &a.auction_extended.key) {
        return Err(AuctionError::AddressMismatch);
    }
    let xfull = seeds_with_bump(xseeds, extended_bump);
    proof {
        assert(xfull.deep_view() =~~= extended_path(program_id@, args.resource@).push(
            seq![extended_bump],
        ));
    }
    let extended_account = match crate::accounts::allocate_account(
        program_id,
        &a.auction_extended,
        a.payer.lamports - rent_minimum,
        MAX_AUCTION_DATA_EXTENDED_SIZE,
        &xfull,
        rent_minimum,
    ) {
        Ok(acct) => acct,
        Err(e) => {
            return Err(e);
        },
    };

    // Configure and encode both records; each fits its allocation.
    let extended_record = AuctionDataExtended {
        nft_mint: args.nft_mint,
        nft_amount: args.nft_selling_amount,
        total_uncancelled_bids: 0,
        tick_size: args.tick_size,
        gap_tick_size_percentage: args.gap_tick_size_percentage,
        instant_sale_price,
        name,
    };
    let extended_record_bytes = serialize_auction_data_extended(&extended_record);
    proof {
        lemma_enc_auction_data_extended_len(extended_record);
    }

    let auction_record = AuctionData {
        authority: args.authority,
        bid_state,
        end_auction_at: args.end_auction_at,
        end_auction_gap: args.end_auction_gap,
        ended_at: None,
        last_bid: None,
        price_floor: args.price_floor,
        state: AuctionState::create(),
        token_mint: args.token_mint,
    };
    let auction_record_bytes = serialize_auction_data(&auction_record);
    proof {
        lemma_enc_auction_data_len(auction_record);
        assert(crate::codec::bid_table_len(auction_record.bid_state) == 0);
        assert(auction_size(args.winners) >= BASE_AUCTION_DATA_SIZE) by {
            match args.winners {
                WinnerLimit::Capped(n) => {
                    assert(crate::state::bid_slots(n) * BID_RECORD_SIZE >= 0) by (nonlinear_arith)
                        requires
                            crate::state::bid_slots(n) >= 8,
                            BID_RECORD_SIZE == 40,
                    ;
                },
                WinnerLimit::Unlimited(_) => {},
            }
        }
    }

    Ok(
        CreateAuctionOutcome {
            auction_account,
            auction_bump,
            extended_account,
            extended_bump,
            custody_account,
            custody_bump,
            seller_after,
            escrow_bump,
            auction_record,
            auction_record_bytes,
            extended_record,
            extended_record_bytes,
        },
    )
}

} // verus!
