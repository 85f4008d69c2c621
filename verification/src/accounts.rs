//! The plain model of the accounts an entry point consumes, and the
//! allocator that creates program-owned storage accounts at an exact,
//! final size.

use vstd::prelude::*;

use crate::errors::AuctionError;
use crate::pubkey::{derive_with_nonce, program_address, Pubkey};

verus! {

/// What an entry point reads of a consumed account before any effect: its
/// address, whether its holder signed the call, which program owns it, and
/// its balance.
#[derive(Clone, Copy, Debug)]
pub struct AccountModel {
    pub key: Pubkey,
    pub is_signer: bool,
    pub owner: Pubkey,
    pub lamports: u64,
}

/// The system allocator's own identity: the all-zero address.
pub open spec fn system_program_id() -> Seq<u8> {
    Seq::new(32, |i: int| 0u8)
}

/// Whether an address is the system allocator's.
pub fn is_system_key(k: &Pubkey) -> (r: bool)
    ensures
        r <==> k@ == system_program_id(),
{
    let mut i: usize = 0;
    while i < 32
        invariant
            i <= 32,
            forall|j: int| 0 <= j < i ==> k.bytes[j] == 0u8,
        decreases 32 - i,
    {
        if k.bytes[i] != 0 {
            assert(k@ != system_program_id());
            return false;
        }
        i = i + 1;
    }
    assert(k@ =~= system_program_id());
    true
}

/// Whether an account can still be allocated: nobody owns it but the
/// system allocator and it holds no balance.
pub open spec fn is_fresh(a: AccountModel) -> bool {
    a.owner@ == system_program_id() && a.lamports == 0
}

/// A storage account the allocator produced: program-owned, funded to the
/// persistence minimum, at a byte size fixed forever.
#[derive(Clone, Copy, Debug)]
pub struct AllocatedAccount {
    pub key: Pubkey,
    pub owner: Pubkey,
    pub size: u64,
}

/// Why, if at all, an allocation fails: a target address that its seeds do
/// not reproduce, a funding source short of the persistence minimum, or a
/// pre-existing occupant at the address. Each is a resource fault.
pub open spec fn allocate_decision(
    seeds: Seq<Seq<u8>>,
    program: Seq<u8>,
    target: AccountModel,
    payer_lamports: u64,
    rent_minimum: u64,
) -> Result<(), AuctionError> {
    if !(program_address(seeds, program) matches Some(k) && k == target.key@) {
        Err(AuctionError::ResourceFault)
    } else if payer_lamports < rent_minimum {
        Err(AuctionError::ResourceFault)
    } else if !is_fresh(target) {
        Err(AuctionError::ResourceFault)
    } else {
        Ok(())
    }
}

/// Creates and funds a storage account of exactly `size` bytes at the
/// target address, owned by this program. The target address is re-derived
/// from its full seed list, bump included, before anything is created:
/// defense in depth against a substituted target.
pub fn allocate_account(
    program_id: &Pubkey,
    target: &AccountModel,
    payer_lamports: u64,
    size: u64,
    seeds: &Vec<Vec<u8>>,
    rent_minimum: u64,
) -> (r: Result<AllocatedAccount, AuctionError>)
    ensures
        r is Ok <==> allocate_decision(
            seeds.deep_view(),
            program_id@,
            *target,
            payer_lamports,
            rent_minimum,
        ) is Ok,
        r matches Ok(a) ==> {
            &&& a.key@ == target.key@
            &&& a.owner@ == program_id@
            &&& a.size == size
        },
        r matches Err(e) ==> Err::<(), AuctionError>(e) == allocate_decision(
            seeds.deep_view(),
            program_id@,
            *target,
            payer_lamports,
            rent_minimum,
        ),
{
    let derived = match derive_with_nonce(seeds, program_id) {
        Some(k) => k,
        None => {
            return Err(AuctionError::ResourceFault);
        },
    };
    if !crate::pubkey::pubkey_eq(&derived, &target.key) {
        return Err(AuctionError::ResourceFault);
    }
    if payer_lamports < rent_minimum {
        return Err(AuctionError::ResourceFault);
    }
    if !is_system_key(&target.owner) || target.lamports != 0 {
        return Err(AuctionError::ResourceFault);
    }
    Ok(AllocatedAccount { key: target.key, owner: *program_id, size })
}

} // verus!
