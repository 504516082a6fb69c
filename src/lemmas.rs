use vstd::prelude::*;
use crate::error::ProgramError;
use crate::pda::{canonical_key, derives, is_canonical};
use crate::system::is_system_id;
use crate::program::{
    collaborator_created, create_collaborator_outcome, create_fee_vault_outcome, fee_vault_created,
    vault_check, wallet_step, withdraw_outcome, CreateCollaborator, CreateFeeVault, VaultOp, WithdrawFromFeeVault,
};
use crate::state::{collaborator_seeds, discriminator_set, fee_vault_read, fee_vault_seeds};

verus! {

/// The wallet's balance after a sequence of changes, applied in order.
pub open spec fn wallet_after(initial: int, ops: Seq<VaultOp>) -> int
    decreases ops.len(),
{
    if ops.len() == 0 {
        initial
    } else {
        wallet_step(wallet_after(initial, ops.drop_last()), ops.last())
    }
}

/// The lamports a sequence of changes deposits.
pub open spec fn total_deposits(ops: Seq<VaultOp>) -> int
    decreases ops.len(),
{
    if ops.len() == 0 {
        0
    } else {
        total_deposits(ops.drop_last()) + match ops.last() {
            VaultOp::Deposit(a) => a as int,
            _ => 0,
        }
    }
}

/// The lamports a sequence of changes withdraws.
pub open spec fn total_withdrawals(ops: Seq<VaultOp>) -> int
    decreases ops.len(),
{
    if ops.len() == 0 {
        0
    } else {
        total_withdrawals(ops.drop_last()) + match ops.last() {
            VaultOp::Withdraw(b) => b as int,
            _ => 0,
        }
    }
}

/// The rent a sequence of changes pays for new collaborators.
pub open spec fn total_rents(ops: Seq<VaultOp>) -> int
    decreases ops.len(),
{
    if ops.len() == 0 {
        0
    } else {
        total_rents(ops.drop_last()) + match ops.last() {
            VaultOp::SpawnCollaborator(r) => r as int,
            _ => 0,
        }
    }
}

/// After any sequence of deposits, withdrawals and collaborator creations, the
/// wallet holds its balance at the start plus what was deposited, less what
/// was withdrawn and the rent paid for the collaborators.
pub proof fn lemma_wallet_balance(initial: int, ops: Seq<VaultOp>)
    ensures
        wallet_after(initial, ops) == initial + total_deposits(ops) - total_withdrawals(ops) - total_rents(ops),
    decreases ops.len(),
{
    if ops.len() > 0 {
        lemma_wallet_balance(initial, ops.drop_last());
    }
}

/// Creating a vault record again, on the account that a successful creation
/// left, fails.
pub proof fn lemma_fee_vault_created_once(
    program_id: Seq<u8>,
    first: CreateFeeVault,
    after: CreateFeeVault,
    amount: u64,
    rent: u64,
    second: CreateFeeVault,
    second_amount: u64,
    second_rent: u64,
)
    requires
        create_fee_vault_outcome(program_id, first, amount, rent) is Ok,
        fee_vault_created(program_id, first, after, amount, rent),
        second.fee_vault == after.fee_vault,
    ensures
        create_fee_vault_outcome(program_id, second, second_amount, second_rent) is Err,
{
}

/// A creation whose target already carries a discriminator in its first eight
/// bytes, whether a record written earlier or bytes put there out of band,
/// fails; once the vault and the target's derivation pass, it fails with
/// `AccountDiscriminatorAlreadySet`.
pub proof fn lemma_collaborator_target_taken(program_id: Seq<u8>, c: CreateCollaborator, rent: u64)
    requires
        c.collaborator.data@.len() >= 8,
        discriminator_set(c.collaborator.data@),
    ensures
        create_collaborator_outcome(program_id, c, rent) is Err,
        vault_check(program_id, c.system_program, c.authority, c.fee_vault, c.fee_vault_wallet) is Ok
            && canonical_key(collaborator_seeds(c.fee_vault.key@, c.collaborator_base.key@), program_id, c.collaborator.key@)
            ==> create_collaborator_outcome(program_id, c, rent)
                == Err::<(), ProgramError>(ProgramError::AccountDiscriminatorAlreadySet),
{
}

/// Creating a collaborator again for the same vault and base, on the account
/// that a successful creation left, fails with `AccountDiscriminatorAlreadySet`
/// once the vault checks pass, and fails in any case.
pub proof fn lemma_collaborator_created_once(
    program_id: Seq<u8>,
    first: CreateCollaborator,
    after: CreateCollaborator,
    rent: u64,
    second: CreateCollaborator,
    second_rent: u64,
)
    requires
        create_collaborator_outcome(program_id, first, rent) is Ok,
        collaborator_created(program_id, first, after, rent),
        second.collaborator == after.collaborator,
        second.fee_vault.key == first.fee_vault.key,
        second.collaborator_base.key == first.collaborator_base.key,
    ensures
        create_collaborator_outcome(program_id, second, second_rent) is Err,
        vault_check(program_id, second.system_program, second.authority, second.fee_vault, second.fee_vault_wallet) is Ok
            ==> create_collaborator_outcome(program_id, second, second_rent)
                == Err::<(), ProgramError>(ProgramError::AccountDiscriminatorAlreadySet),
{
    assert(after.collaborator.data@[0] == 108u8);
    assert(is_canonical(collaborator_seeds(second.fee_vault.key@, second.collaborator_base.key@), program_id,
        second.collaborator.key@, after.collaborator.data@[8]));
    lemma_collaborator_target_taken(program_id, second, second_rent);
}

/// A withdrawal by an authority from whose key the presented vault record does
/// not derive under its cached bump is rejected; once the system program, the
/// signature and the record's owner pass, it is rejected at that derivation.
pub proof fn lemma_withdraw_needs_authority(program_id: Seq<u8>, c: WithdrawFromFeeVault, amount: u64)
    requires
        fee_vault_read(c.fee_vault.data@) is Ok,
        !derives(fee_vault_seeds(c.authority.key@), fee_vault_read(c.fee_vault.data@)->Ok_0.bump, program_id, c.fee_vault.key@),
    ensures
        withdraw_outcome(program_id, c, amount) is Err,
        is_system_id(c.system_program.key@) && c.authority.is_signer && c.fee_vault.owner@ == program_id
            ==> withdraw_outcome(program_id, c, amount) == Err::<(), ProgramError>(ProgramError::ConstraintSeeds),
{
}

} // verus!
