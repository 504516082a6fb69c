use vstd::prelude::*;
use crate::address::Address;
use crate::error::ProgramError;
use crate::pda::{create_program_address, derived_address, seeds_view};

verus! {

/// An account as an instruction sees it.
#[derive(Clone, Debug)]
pub struct AccountInfo {
    pub key: Address,
    pub is_signer: bool,
    pub lamports: u64,
    pub owner: Address,
    pub data: Vec<u8>,
}

/// The largest data an account can be allocated.
pub const MAX_PERMITTED_DATA_LENGTH: u64 = 10 * 1024 * 1024;

/// The system program's id: all zero bytes.
pub open spec fn is_system_id(a: Seq<u8>) -> bool {
    a == Seq::new(32, |i: int| 0u8)
}

/// Seed sets as byte sequences.
pub open spec fn seed_sets_view(sets: Seq<Vec<Vec<u8>>>) -> Seq<Seq<Seq<u8>>> {
    sets.map_values(|s: Vec<Vec<u8>>| seeds_view(s@))
}

/// Whether an account counts as a signer of a call made by `program_id` with
/// `sets`: it signed the transaction, or one of the sets derives its address.
pub open spec fn signed_by(is_signer: bool, key: Seq<u8>, sets: Seq<Seq<Seq<u8>>>, program_id: Seq<u8>) -> bool {
    is_signer || exists|i: int| 0 <= i < sets.len() && derived_address(sets[i], program_id) == Some(key)
}

/// What the system program's `transfer` answers.
pub open spec fn transfer_outcome(from: AccountInfo, to: AccountInfo, lamports: u64, from_signed: bool) -> Result<(), ProgramError> {
    if !from_signed {
        Err(ProgramError::MissingRequiredSignature)
    } else if from.data@.len() != 0 {
        Err(ProgramError::InvalidArgument)
    } else if from.lamports < lamports {
        Err(ProgramError::InsufficientFunds)
    } else if to.lamports + lamports > u64::MAX {
        Err(ProgramError::ArithmeticOverflow)
    } else {
        Ok(())
    }
}

/// What the system program's `create_account` answers.
pub open spec fn create_account_outcome(
    from: AccountInfo,
    to: AccountInfo,
    lamports: u64,
    space: u64,
    from_signed: bool,
    to_signed: bool,
) -> Result<(), ProgramError> {
    if to.lamports > 0 {
        Err(ProgramError::AccountAlreadyInUse)
    } else if !to_signed {
        Err(ProgramError::MissingRequiredSignature)
    } else if to.data@.len() != 0 || !is_system_id(to.owner@) {
        Err(ProgramError::AccountAlreadyInUse)
    } else if space > MAX_PERMITTED_DATA_LENGTH {
        Err(ProgramError::InvalidArgument)
    } else if !from_signed {
        Err(ProgramError::MissingRequiredSignature)
    } else if from.data@.len() != 0 {
        Err(ProgramError::InvalidArgument)
    } else if from.lamports < lamports {
        Err(ProgramError::InsufficientFunds)
    } else {
        Ok(())
    }
}

/// The account with `lamports` in place of its balance.
pub open spec fn with_lamports(a: AccountInfo, lamports: int) -> AccountInfo {
    AccountInfo { lamports: lamports as u64, ..a }
}

/// Whether the account signs a call made by `program_id` with `sets`.
pub fn signs(account: &AccountInfo, sets: &Vec<Vec<Vec<u8>>>, program_id: &Address) -> (r: bool)
    ensures
        r == signed_by(account.is_signer, account.key@, seed_sets_view(sets@), program_id@),
{
    if account.is_signer {
        return true;
    }
    let mut i: usize = 0;
    while i < sets.len()
        invariant
            0 <= i <= sets@.len(),
            !account.is_signer,
            forall|j: int| 0 <= j < i ==> derived_address(seeds_view(sets@[j]@), program_id@) != Some(account.key@),
        decreases sets@.len() - i,
    {
        let derived = create_program_address(&sets[i], program_id);
        match derived {
            Some(a) => {
                if a.same(&account.key) {
                    assert(seed_sets_view(sets@)[i as int] == seeds_view(sets@[i as int]@));
                    return true;
                }
            },
            None => {},
        }
        i = i + 1;
    }
    assert forall|j: int| 0 <= j < sets@.len() implies derived_address(seed_sets_view(sets@)[j], program_id@) != Some(account.key@) by {
        assert(seed_sets_view(sets@)[j] == seeds_view(sets@[j]@));
    }
    false
}

/// The system program's `transfer` of `lamports` from `from` to `to`, within a
/// call made by `program_id` with the signer seed sets `sets`.
pub fn transfer(
    from: &mut AccountInfo,
    to: &mut AccountInfo,
    lamports: u64,
    sets: &Vec<Vec<Vec<u8>>>,
    program_id: &Address,
) -> (r: Result<(), ProgramError>)
    ensures
        r == transfer_outcome(*old(from), *old(to), lamports,
            signed_by(old(from).is_signer, old(from).key@, seed_sets_view(sets@), program_id@)),
        r is Ok ==> *final(from) == with_lamports(*old(from), old(from).lamports - lamports)
            && *final(to) == with_lamports(*old(to), old(to).lamports + lamports),
        r is Err ==> *final(from) == *old(from) && *final(to) == *old(to),
{
    if !signs(from, sets, program_id) {
        return Err(ProgramError::MissingRequiredSignature);
    }
    if from.data.len() != 0 {
        return Err(ProgramError::InvalidArgument);
    }
    if from.lamports < lamports {
        return Err(ProgramError::InsufficientFunds);
    }
    if to.lamports > u64::MAX - lamports {
        return Err(ProgramError::ArithmeticOverflow);
    }
    from.lamports = from.lamports - lamports;
    to.lamports = to.lamports + lamports;
    Ok(())
}

/// Zero bytes, `space` of them.
fn zeros(space: u64) -> (r: Vec<u8>)
    requires
        space <= MAX_PERMITTED_DATA_LENGTH,
    ensures
        r@ == Seq::new(space as nat, |i: int| 0u8),
{
    let mut r: Vec<u8> = Vec::new();
    let mut i: u64 = 0;
    while i < space
        invariant
            0 <= i <= space,
            r@ == Seq::new(i as nat, |k: int| 0u8),
        decreases space - i,
    {
        r.push(0u8);
        i = i + 1;
        assert(r@ =~= Seq::new(i as nat, |k: int| 0u8));
    }
    r
}

/// The system program's `create_account`: `from` funds `to` with `lamports`,
/// and `to` gets `space` zero bytes of data and `owner`, within a call made by
/// `program_id` with the signer seed sets `sets`.
pub fn create_account(
    from: &mut AccountInfo,
    to: &mut AccountInfo,
    lamports: u64,
    space: u64,
    owner: &Address,
    sets: &Vec<Vec<Vec<u8>>>,
    program_id: &Address,
) -> (r: Result<(), ProgramError>)
    ensures
        r == create_account_outcome(*old(from), *old(to), lamports, space,
            signed_by(old(from).is_signer, old(from).key@, seed_sets_view(sets@), program_id@),
            signed_by(old(to).is_signer, old(to).key@, seed_sets_view(sets@), program_id@)),
        r is Ok ==> *final(from) == with_lamports(*old(from), old(from).lamports - lamports)
            && final(to).key == old(to).key
            && final(to).is_signer == old(to).is_signer
            && final(to).lamports == lamports
            && final(to).owner == *owner
            && final(to).data@ == Seq::new(space as nat, |i: int| 0u8),
        r is Err ==> *final(from) == *old(from) && *final(to) == *old(to),
{
    if to.lamports > 0 {
        return Err(ProgramError::AccountAlreadyInUse);
    }
    if !signs(to, sets, program_id) {
        return Err(ProgramError::MissingRequiredSignature);
    }
    if to.data.len() != 0 || !to.owner.same(&Address::zero()) {
        return Err(ProgramError::AccountAlreadyInUse);
    }
    if space > MAX_PERMITTED_DATA_LENGTH {
        return Err(ProgramError::InvalidArgument);
    }
    if !signs(from, sets, program_id) {
        return Err(ProgramError::MissingRequiredSignature);
    }
    if from.data.len() != 0 {
        return Err(ProgramError::InvalidArgument);
    }
    if from.lamports < lamports {
        return Err(ProgramError::InsufficientFunds);
    }
    from.lamports = from.lamports - lamports;
    to.lamports = lamports;
    to.data = zeros(space);
    to.owner = *owner;
    Ok(())
}

} // verus!
