//! The model of the token collaborator: holding accounts, mints, the
//! transfer that moves an asset into custody, and the three authority
//! reassignments the delegation protocol performs.
//!
//! The token program itself is an external collaborator; this module
//! states exactly the behaviour the auction's logic relies on, over plain
//! values, and the application layer carries each modeled step out as a
//! real call.

use vstd::prelude::*;

use crate::errors::AuctionError;
use crate::pubkey::Pubkey;

verus! {

/// The canonical token program's address. These are the 32 bytes of the
/// base58 id the token crate declares.
pub open spec fn canonical_token_program_id() -> Seq<u8> {
    seq![
        6u8, 221u8, 246u8, 225u8, 215u8, 101u8, 161u8, 147u8, 217u8, 203u8, 225u8, 70u8, 206u8,
        235u8, 121u8, 172u8, 28u8, 180u8, 133u8, 237u8, 95u8, 91u8, 55u8, 145u8, 58u8, 140u8,
        245u8, 133u8, 126u8, 255u8, 0u8, 169u8,
    ]
}

/// Relies on spl_token::id: the canonical token program's address, a
/// constant that crate declares once.
#[verifier::external_body]
pub(crate) fn canonical_token_program() -> (r: Pubkey)
    ensures
        r@ == canonical_token_program_id(),
{
    Pubkey { bytes: spl_token::id().to_bytes() }
}

/// What the logic reads of a token-holding account: its mint, the owner
/// authority that may move its balance, and the balance itself.
#[derive(Clone, Copy, Debug)]
pub struct TokenAccountState {
    pub mint: Pubkey,
    pub owner: Pubkey,
    pub amount: u64,
}

/// What the logic reads of a mint: who may issue tokens and who may freeze
/// accounts, either of which can be permanently absent.
#[derive(Clone, Copy, Debug)]
pub struct MintState {
    pub mint_authority: Option<Pubkey>,
    pub freeze_authority: Option<Pubkey>,
}

/// An optional authority, by address bytes.
pub open spec fn opt_key(o: Option<Pubkey>) -> Option<Seq<u8>> {
    match o {
        Option::Some(k) => Option::Some(k@),
        Option::None => Option::None,
    }
}

/// Why, if at all, a transfer fails: mismatched mints or an overflowing
/// destination are resource faults, a signer who is not the source's owner
/// is an authorization failure, and a balance short of the amount is the
/// insufficient-balance resource fault.
pub open spec fn transfer_decision(
    source: TokenAccountState,
    dest: TokenAccountState,
    authority: Seq<u8>,
    amount: u64,
) -> Result<(), AuctionError> {
    if source.mint@ != dest.mint@ {
        Err(AuctionError::ResourceFault)
    } else if authority != source.owner@ {
        Err(AuctionError::AuthorizationFailure)
    } else if source.amount < amount {
        Err(AuctionError::ResourceFault)
    } else if dest.amount + amount > u64::MAX {
        Err(AuctionError::ResourceFault)
    } else {
        Ok(())
    }
}

/// Moves `amount` units from a source account to a destination account of
/// the same mint, authorized by the source's owner; both accounts are
/// otherwise unchanged.
pub fn token_transfer(
    source: &TokenAccountState,
    dest: &TokenAccountState,
    authority: &Pubkey,
    amount: u64,
) -> (r: Result<(TokenAccountState, TokenAccountState), AuctionError>)
    ensures
        r is Ok <==> transfer_decision(*source, *dest, authority@, amount) is Ok,
        r matches Ok(p) ==> {
            &&& p.0.mint == source.mint
            &&& p.0.owner == source.owner
            &&& p.0.amount == source.amount - amount
            &&& p.1.mint == dest.mint
            &&& p.1.owner == dest.owner
            &&& p.1.amount == dest.amount + amount
        },
        r matches Err(e) ==> Err::<(), AuctionError>(e) == transfer_decision(
            *source,
            *dest,
            authority@,
            amount,
        ),
{
    if !crate::pubkey::pubkey_eq(&source.mint, &dest.mint) {
        return Err(AuctionError::ResourceFault);
    }
    if !crate::pubkey::pubkey_eq(authority, &source.owner) {
        return Err(AuctionError::AuthorizationFailure);
    }
    if source.amount < amount {
        return Err(AuctionError::ResourceFault);
    }
    let headroom = u64::MAX - dest.amount;
    if headroom < amount {
        return Err(AuctionError::ResourceFault);
    }
    Ok((
        TokenAccountState { mint: source.mint, owner: source.owner, amount: source.amount - amount },
        TokenAccountState { mint: dest.mint, owner: dest.owner, amount: dest.amount + amount },
    ))
}

/// The holding account the custody step creates: empty, of the asset's
/// mint, owned by the given authority.
pub fn create_holding_account(mint: &Pubkey, authority: &Pubkey) -> (r: TokenAccountState)
    ensures
        r.mint == *mint,
        r.owner == *authority,
        r.amount == 0,
{
    TokenAccountState { mint: *mint, owner: *authority, amount: 0 }
}

/// Whether the current issuance authority signed for a reassignment.
pub open spec fn mint_authority_held(m: MintState, signer: Seq<u8>) -> bool {
    opt_key(m.mint_authority) matches Option::Some(k) && k == signer
}

/// Whether the current freeze authority signed for a reassignment.
pub open spec fn freeze_authority_held(m: MintState, signer: Seq<u8>) -> bool {
    opt_key(m.freeze_authority) matches Option::Some(k) && k == signer
}

/// Reassigns a mint's issuance authority: only the current holder may,
/// and only while one exists.
pub fn set_mint_authority(mint: &MintState, signer: &Pubkey, new_authority: &Pubkey) -> (r: Result<
    MintState,
    AuctionError,
>)
    ensures
        r is Ok <==> mint_authority_held(*mint, signer@),
        r matches Ok(m) ==> {
            &&& opt_key(m.mint_authority) == Option::Some(new_authority@)
            &&& m.freeze_authority == mint.freeze_authority
        },
        r matches Err(e) ==> e == AuctionError::AuthorizationFailure,
{
    match &mint.mint_authority {
        Option::Some(current) => {
            if crate::pubkey::pubkey_eq(current, signer) {
                Ok(MintState {
                    mint_authority: Option::Some(*new_authority),
                    freeze_authority: mint.freeze_authority,
                })
            } else {
                Err(AuctionError::AuthorizationFailure)
            }
        },
        Option::None => Err(AuctionError::AuthorizationFailure),
    }
}

/// Reassigns a mint's freeze authority: only the current holder may, and
/// only while one exists.
pub fn set_freeze_authority(mint: &MintState, signer: &Pubkey, new_authority: &Pubkey) -> (r:
    Result<MintState, AuctionError>)
    ensures
        r is Ok <==> freeze_authority_held(*mint, signer@),
        r matches Ok(m) ==> {
            &&& opt_key(m.freeze_authority) == Option::Some(new_authority@)
            &&& m.mint_authority == mint.mint_authority
        },
        r matches Err(e) ==> e == AuctionError::AuthorizationFailure,
{
    match &mint.freeze_authority {
        Option::Some(current) => {
            if crate::pubkey::pubkey_eq(current, signer) {
                Ok(MintState {
                    mint_authority: mint.mint_authority,
                    freeze_authority: Option::Some(*new_authority),
                })
            } else {
                Err(AuctionError::AuthorizationFailure)
            }
        },
        Option::None => Err(AuctionError::AuthorizationFailure),
    }
}

/// Reassigns a token account's owner authority: only the current owner
/// may.
pub fn set_account_owner(account: &TokenAccountState, signer: &Pubkey, new_owner: &Pubkey) -> (r:
    Result<TokenAccountState, AuctionError>)
    ensures
        r is Ok <==> account.owner@ == signer@,
        r matches Ok(a) ==> {
            &&& a.owner == *new_owner
            &&& a.mint == account.mint
            &&& a.amount == account.amount
        },
        r matches Err(e) ==> e == AuctionError::AuthorizationFailure,
{
    if crate::pubkey::pubkey_eq(&account.owner, signer) {
        Ok(TokenAccountState { mint: account.mint, owner: *new_owner, amount: account.amount })
    } else {
        Err(AuctionError::AuthorizationFailure)
    }
}

} // verus!
