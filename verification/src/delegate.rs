//! The delegation entry point: reassigns the mint's issuance and freeze
//! authorities and one token account's owner authority to the escrow
//! identity, in one indivisible step — all three or none.

use vstd::prelude::*;

use crate::accounts::AccountModel;
use crate::errors::AuctionError;
use crate::pubkey::{
    derive_with_nonce,
    escrow_path_with_nonce,
    escrow_seeds,
    program_address,
    pubkey_eq,
    seeds_with_bump,
    Pubkey,
};
use crate::token::{
    canonical_token_program,
    canonical_token_program_id,
    freeze_authority_held,
    mint_authority_held,
    set_account_owner,
    set_freeze_authority,
    set_mint_authority,
    MintState,
    TokenAccountState,
};

verus! {

/// The delegation call's argument: the nonce that reproduces the escrow
/// identity's derivation.
#[derive(Clone, Copy, Debug, PartialEq, Eq, Structural)]
pub struct DelegateArgs {
    pub escrow_nonce: u8,
}

/// The accounts the delegation call consumes, in order: the creator who
/// currently holds all three authorities, the asset's mint, the escrow
/// identity, the token account whose owner authority moves, and the token
/// program.
#[derive(Clone, Copy, Debug)]
pub struct DelegateAccounts {
    pub token_creator: AccountModel,
    pub mint: AccountModel,
    pub escrow: AccountModel,
    pub token_account: AccountModel,
    pub token_program: AccountModel,
}

/// Both authority records after a successful delegation.
#[derive(Clone, Copy, Debug)]
pub struct DelegateOutcome {
    pub mint_after: MintState,
    pub token_account_after: TokenAccountState,
}

/// The named accounts a call's ordered account list carries.
pub open spec fn delegate_accounts_of(accounts: Seq<AccountModel>) -> DelegateAccounts {
    DelegateAccounts {
        token_creator: accounts[0],
        mint: accounts[1],
        escrow: accounts[2],
        token_account: accounts[3],
        token_program: accounts[4],
    }
}

/// Every check the delegation call makes, in order, and the first failure
/// it aborts with: the creator must sign; the mint must be owned by the
/// canonical token program; the supplied token program must literally be
/// the canonical token program; the nonce must reproduce the supplied
/// escrow address; and the creator must currently hold the issuance
/// authority, the freeze authority, and the token account's owner
/// authority.
pub open spec fn delegate_decision(
    program: Seq<u8>,
    a: DelegateAccounts,
    nonce: u8,
    mint: MintState,
    token_account: TokenAccountState,
) -> Result<(), AuctionError> {
    if !a.token_creator.is_signer {
        Err(AuctionError::AuthorizationFailure)
    } else if a.mint.owner@ != canonical_token_program_id() {
        Err(AuctionError::ResourceFault)
    } else if a.token_program.key@ != canonical_token_program_id() {
        Err(AuctionError::AuthorizationFailure)
    } else if !(program_address(escrow_path_with_nonce(a.token_creator.key@, nonce), program)
        matches Some(k) && k == a.escrow.key@) {
        Err(AuctionError::AuthorizationFailure)
    } else if !mint_authority_held(mint, a.token_creator.key@) {
        Err(AuctionError::AuthorizationFailure)
    } else if !freeze_authority_held(mint, a.token_creator.key@) {
        Err(AuctionError::AuthorizationFailure)
    } else if token_account.owner@ != a.token_creator.key@ {
        Err(AuctionError::AuthorizationFailure)
    } else {
        Ok(())
    }
}

/// Splits the call's ordered account list into its named fields and makes
/// the checks that need no state: the signature, the mint's owner and the
/// token program's identity.
pub fn parse_accounts(accounts: &Vec<AccountModel>) -> (r: Result<DelegateAccounts, AuctionError>)
    ensures
        accounts@.len() < 5 ==> r == Err::<DelegateAccounts, AuctionError>(
            AuctionError::MissingAccount,
        ),
        r matches Ok(a) ==> {
            &&& accounts@.len() >= 5
            &&& a == delegate_accounts_of(accounts@)
            &&& a.token_creator.is_signer
            &&& a.mint.owner@ == canonical_token_program_id()
            &&& a.token_program.key@ == canonical_token_program_id()
        },
        accounts@.len() >= 5 ==> {
            let a = delegate_accounts_of(accounts@);
            &&& (r is Ok <==> a.token_creator.is_signer && a.mint.owner@
                == canonical_token_program_id() && a.token_program.key@
                == canonical_token_program_id())
            &&& (!a.token_creator.is_signer ==> r == Err::<DelegateAccounts, AuctionError>(
                AuctionError::AuthorizationFailure,
            ))
            &&& (a.token_creator.is_signer && a.mint.owner@ != canonical_token_program_id() ==> r
                == Err::<DelegateAccounts, AuctionError>(AuctionError::ResourceFault))
            &&& (a.token_creator.is_signer && a.mint.owner@ == canonical_token_program_id()
                && a.token_program.key@ != canonical_token_program_id() ==> r == Err::<
                DelegateAccounts,
                AuctionError,
            >(AuctionError::AuthorizationFailure))
        },
{
    if accounts.len() < 5 {
        return Err(AuctionError::MissingAccount);
    }
    let a = DelegateAccounts {
        token_creator: accounts[0],
        mint: accounts[1],
        escrow: accounts[2],
        token_account: accounts[3],
        token_program: accounts[4],
    };
    if !a.token_creator.is_signer {
        return Err(AuctionError::AuthorizationFailure);
    }
    let token_id = canonical_token_program();
    if !pubkey_eq(&a.mint.owner, &token_id) {
        return Err(AuctionError::ResourceFault);
    }
    if !pubkey_eq(&a.token_program.key, &token_id) {
        return Err(AuctionError::AuthorizationFailure);
    }
    Ok(a)
}

/// Reassigns all three authorities to the escrow identity derived from the
/// creator and the supplied nonce. Either every check passes and all three
/// reassignments are returned together, or the call aborts on its first
/// failure with no reassignment at all.
pub fn delegate(
    program_id: &Pubkey,
    accounts: &Vec<AccountModel>,
    args: DelegateArgs,
    mint: &MintState,
    token_account: &TokenAccountState,
) -> (r: Result<DelegateOutcome, AuctionError>)
    ensures
        accounts@.len() < 5 ==> r == Err::<DelegateOutcome, AuctionError>(
            AuctionError::MissingAccount,
        ),
        accounts@.len() >= 5 ==> {
            let a = delegate_accounts_of(accounts@);
            &&& (r is Ok <==> delegate_decision(
                program_id@,
                a,
                args.escrow_nonce,
                *mint,
                *token_account,
            ) is Ok)
            &&& (r matches Err(e) ==> Err::<(), AuctionError>(e) == delegate_decision(
                program_id@,
                a,
                args.escrow_nonce,
                *mint,
                *token_account,
            ))
            &&& (r matches Ok(o) ==> {
                &&& crate::token::opt_key(o.mint_after.mint_authority) == Some(a.escrow.key@)
                &&& crate::token::opt_key(o.mint_after.freeze_authority) == Some(a.escrow.key@)
                &&& o.token_account_after.owner@ == a.escrow.key@
                &&& o.token_account_after.mint == token_account.mint
                &&& o.token_account_after.amount == token_account.amount
            })
        },
{
    let a = match parse_accounts(accounts) {
        Ok(a) => a,
        Err(e) => {
            return Err(e);
        },
    };
    let seeds = seeds_with_bump(escrow_seeds(&a.token_creator.key), args.escrow_nonce);
    proof {
        assert(seeds.deep_view() =~~= escrow_path_with_nonce(
            a.token_creator.key@,
            args.escrow_nonce,
        ));
    }
    let escrow_key = match derive_with_nonce(&seeds, program_id) {
        Some(k) => k,
        None => {
            return Err(AuctionError::AuthorizationFailure);
        },
    };
    if !pubkey_eq(&escrow_key, &a.escrow.key) {
        return Err(AuctionError::AuthorizationFailure);
    }
    let mint_after = set_mint_authority(mint, &a.token_creator.key, &a.escrow.key)?;
    let mint_after = set_freeze_authority(&mint_after, &a.token_creator.key, &a.escrow.key)?;
    let token_account_after = set_account_owner(
        token_account,
        &a.token_creator.key,
        &a.escrow.key,
    )?;
    Ok(DelegateOutcome { mint_after, token_account_after })
}

/// Delegation is one-directional: once a successful call has moved all
/// three authorities to an escrow identity distinct from the creator, a
/// further delegation attempt by that creator fails, whatever nonce or
/// accounts it supplies, because the creator no longer holds the issuance
/// authority.
pub proof fn lemma_delegation_is_final(
    program: Seq<u8>,
    a1: DelegateAccounts,
    nonce1: u8,
    mint1: MintState,
    token1: TokenAccountState,
    a2: DelegateAccounts,
    nonce2: u8,
    mint2: MintState,
    token2: TokenAccountState,
)
    requires
        delegate_decision(program, a1, nonce1, mint1, token1) is Ok,
        crate::token::opt_key(mint2.mint_authority) == Some(a1.escrow.key@),
        crate::token::opt_key(mint2.freeze_authority) == Some(a1.escrow.key@),
        token2.owner@ == a1.escrow.key@,
        a2.token_creator.key@ == a1.token_creator.key@,
        a1.escrow.key@ != a1.token_creator.key@,
    ensures
        delegate_decision(program, a2, nonce2, mint2, token2) is Err,
{
}

} // verus!
