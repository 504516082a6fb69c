use vstd::prelude::*;
use crate::address::Address;
use crate::error::ProgramError;
use crate::pda::{
    canonical_key, create_program_address, derived_address, derives, is_canonical, lemma_canonical_unique, seeds_view,
    try_find_program_address, with_bump,
};
use crate::state::{
    fee_vault_read, fee_vault_seeds, fee_vault_seeds_of, fee_vault_wallet_seeds,
    fee_vault_wallet_seeds_of, push_bump, FeeVault, fee_vault_bytes, collaborator_seeds, collaborator_seeds_of,
    collaborator_bytes, discriminator_set, is_discriminator_already_set, write_collaborator, Collaborator,
};
use crate::system::{
    signed_by, create_account, create_account_outcome, is_system_id, seed_sets_view, transfer, transfer_outcome, with_lamports,
    AccountInfo,
};

verus! {

/// This program's id.
pub open spec fn program_id_bytes() -> Seq<u8> {
    seq![150u8, 83u8, 213u8, 209u8, 222u8, 152u8, 219u8, 183u8, 2u8, 188u8, 156u8, 69u8, 244u8, 45u8, 75u8, 213u8,
        160u8, 5u8, 194u8, 80u8, 55u8, 182u8, 170u8, 31u8, 58u8, 56u8, 34u8, 116u8, 106u8, 193u8, 184u8, 31u8]
}

/// This program's id.
pub fn id() -> (r: Address)
    ensures
        r@ == program_id_bytes(),
{
    let r = Address {
        bytes: [150u8, 83u8, 213u8, 209u8, 222u8, 152u8, 219u8, 183u8, 2u8, 188u8, 156u8, 69u8, 244u8, 45u8, 75u8, 213u8,
            160u8, 5u8, 194u8, 80u8, 55u8, 182u8, 170u8, 31u8, 58u8, 56u8, 34u8, 116u8, 106u8, 193u8, 184u8, 31u8],
    };
    assert(r@ =~= program_id_bytes());
    r
}

/// Accounts of `deposit_in_fee_vault`.
#[derive(Clone, Debug)]
pub struct DepositInFeeVault {
    pub system_program: AccountInfo,
    pub authority: AccountInfo,
    pub fee_vault: AccountInfo,
    pub fee_vault_wallet: AccountInfo,
}

/// Accounts of `withdraw_from_fee_vault`.
#[derive(Clone, Debug)]
pub struct WithdrawFromFeeVault {
    pub system_program: AccountInfo,
    pub authority: AccountInfo,
    pub fee_vault: AccountInfo,
    pub fee_vault_wallet: AccountInfo,
}

/// What the checks on the accounts of an instruction that uses an existing
/// vault give: the vault record, or the first failed check.
pub open spec fn vault_check(
    program_id: Seq<u8>,
    system_program: AccountInfo,
    authority: AccountInfo,
    fee_vault: AccountInfo,
    wallet: AccountInfo,
) -> Result<FeeVault, ProgramError> {
    if !is_system_id(system_program.key@) {
        Err(ProgramError::InvalidProgramId)
    } else if !authority.is_signer {
        Err(ProgramError::AccountNotSigner)
    } else if fee_vault.owner@ != program_id {
        Err(ProgramError::AccountOwnedByWrongProgram)
    } else {
        match fee_vault_read(fee_vault.data@) {
            Err(e) => Err(e),
            Ok(v) => if !derives(fee_vault_seeds(authority.key@), v.bump, program_id, fee_vault.key@) {
                Err(ProgramError::ConstraintSeeds)
            } else if !is_system_id(wallet.owner@) {
                Err(ProgramError::AccountOwnedByWrongProgram)
            } else if !derives(fee_vault_wallet_seeds(fee_vault.key@), v.wallet_bump, program_id, wallet.key@) {
                Err(ProgramError::ConstraintSeeds)
            } else {
                Ok(v)
            },
        }
    }
}

/// Whether the seeds with the bump derive the address.
fn derives_exec(seeds: Vec<Vec<u8>>, bump: u8, program_id: &Address, addr: &Address) -> (r: bool)
    ensures
        r == derives(seeds_view(seeds@), bump, program_id@, addr@),
{
    let s = push_bump(seeds, bump);
    match create_program_address(&s, program_id) {
        Some(a) => a.same(addr),
        None => false,
    }
}

/// Checks the accounts of an instruction that uses an existing vault: the
/// system program, the authority's signature, the vault record and the
/// derivations of the vault and its wallet under the cached bumps.
pub fn check_vault(
    program_id: &Address,
    system_program: &AccountInfo,
    authority: &AccountInfo,
    fee_vault: &AccountInfo,
    wallet: &AccountInfo,
) -> (r: Result<FeeVault, ProgramError>)
    ensures
        r == vault_check(program_id@, *system_program, *authority, *fee_vault, *wallet),
{
    if !system_program.key.same(&Address::zero()) {
        return Err(ProgramError::InvalidProgramId);
    }
    if !authority.is_signer {
        return Err(ProgramError::AccountNotSigner);
    }
    if !fee_vault.owner.same(program_id) {
        return Err(ProgramError::AccountOwnedByWrongProgram);
    }
    let v = match FeeVault::try_deserialize(&fee_vault.data) {
        Ok(v) => v,
        Err(e) => {
            return Err(e);
        },
    };
    if !derives_exec(fee_vault_seeds_of(&authority.key.to_vec()), v.bump, program_id, &fee_vault.key) {
        return Err(ProgramError::ConstraintSeeds);
    }
    if !wallet.owner.same(&Address::zero()) {
        return Err(ProgramError::AccountOwnedByWrongProgram);
    }
    if !derives_exec(fee_vault_wallet_seeds_of(&fee_vault.key.to_vec()), v.wallet_bump, program_id, &wallet.key) {
        return Err(ProgramError::ConstraintSeeds);
    }
    Ok(v)
}

/// A change of the vault wallet's balance by an instruction.
pub enum VaultOp {
    /// The authority pays lamports in.
    Deposit(u64),
    /// The authority takes lamports out.
    Withdraw(u64),
    /// The wallet pays a new collaborator's rent.
    SpawnCollaborator(u64),
}

/// The wallet's balance after one change.
pub open spec fn wallet_step(balance: int, op: VaultOp) -> int {
    match op {
        VaultOp::Deposit(a) => balance + a,
        VaultOp::Withdraw(b) => balance - b,
        VaultOp::SpawnCollaborator(rent) => balance - rent,
    }
}

/// What `deposit_in_fee_vault` answers.
pub open spec fn deposit_outcome(program_id: Seq<u8>, c: DepositInFeeVault, amount: u64) -> Result<(), ProgramError> {
    match vault_check(program_id, c.system_program, c.authority, c.fee_vault, c.fee_vault_wallet) {
        Err(e) => Err(e),
        Ok(_) => transfer_outcome(c.authority, c.fee_vault_wallet, amount,
            signed_by(c.authority.is_signer, c.authority.key@, seq![], program_id)),
    }
}

/// The one seed set with which the vault wallet signs:
/// `("fee_vault_wallet", fee_vault, wallet_bump)`.
pub open spec fn wallet_signer_sets(fee_vault: Seq<u8>, wallet_bump: u8) -> Seq<Seq<Seq<u8>>> {
    seq![with_bump(fee_vault_wallet_seeds(fee_vault), wallet_bump)]
}

/// What `withdraw_from_fee_vault` answers.
pub open spec fn withdraw_outcome(program_id: Seq<u8>, c: WithdrawFromFeeVault, amount: u64) -> Result<(), ProgramError> {
    match vault_check(program_id, c.system_program, c.authority, c.fee_vault, c.fee_vault_wallet) {
        Err(e) => Err(e),
        Ok(v) => transfer_outcome(c.fee_vault_wallet, c.authority, amount,
            signed_by(c.fee_vault_wallet.is_signer, c.fee_vault_wallet.key@,
                wallet_signer_sets(c.fee_vault.key@, v.wallet_bump), program_id)),
    }
}

/// Moves `amount` lamports from the authority into the vault wallet, signed by
/// the authority, once the vault and wallet derive from the authority under the
/// cached bumps. Nothing changes on an error.
pub fn deposit_in_fee_vault(program_id: &Address, ctx: &mut DepositInFeeVault, amount: u64) -> (r: Result<(), ProgramError>)
    ensures
        r == deposit_outcome(program_id@, *old(ctx), amount),
        r is Ok ==> final(ctx).authority == with_lamports(old(ctx).authority, old(ctx).authority.lamports - amount)
            && final(ctx).fee_vault_wallet == with_lamports(old(ctx).fee_vault_wallet,
                wallet_step(old(ctx).fee_vault_wallet.lamports as int, VaultOp::Deposit(amount)))
            && final(ctx).fee_vault == old(ctx).fee_vault
            && final(ctx).system_program == old(ctx).system_program,
        r is Err ==> *final(ctx) == *old(ctx),
{
    match check_vault(program_id, &ctx.system_program, &ctx.authority, &ctx.fee_vault, &ctx.fee_vault_wallet) {
        Err(e) => {
            return Err(e);
        },
        Ok(_) => {},
    }
    let no_seeds: Vec<Vec<Vec<u8>>> = Vec::new();
    assert(seed_sets_view(no_seeds@) =~= seq![]);
    transfer(&mut ctx.authority, &mut ctx.fee_vault_wallet, amount, &no_seeds, program_id)
}

/// Moves `amount` lamports from the vault wallet to the authority, the wallet
/// signing through its seeds `("fee_vault_wallet", fee_vault, wallet_bump)`, once
/// the vault and wallet derive from the authority under the cached bumps.
/// Nothing changes on an error.
pub fn withdraw_from_fee_vault(program_id: &Address, ctx: &mut WithdrawFromFeeVault, amount: u64) -> (r: Result<(), ProgramError>)
    ensures
        r == withdraw_outcome(program_id@, *old(ctx), amount),
        r is Ok ==> final(ctx).authority == with_lamports(old(ctx).authority, old(ctx).authority.lamports + amount)
            && final(ctx).fee_vault_wallet == with_lamports(old(ctx).fee_vault_wallet,
                wallet_step(old(ctx).fee_vault_wallet.lamports as int, VaultOp::Withdraw(amount)))
            && final(ctx).fee_vault == old(ctx).fee_vault
            && final(ctx).system_program == old(ctx).system_program,
        r is Err ==> *final(ctx) == *old(ctx),
{
    let v = match check_vault(program_id, &ctx.system_program, &ctx.authority, &ctx.fee_vault, &ctx.fee_vault_wallet) {
        Err(e) => {
            return Err(e);
        },
        Ok(v) => v,
    };
    let wallet_seeds = push_bump(fee_vault_wallet_seeds_of(&ctx.fee_vault.key.to_vec()), v.wallet_bump);
    let sets: Vec<Vec<Vec<u8>>> = vec![wallet_seeds];
    assert(seed_sets_view(sets@) =~= wallet_signer_sets(ctx.fee_vault.key@, v.wallet_bump));
    transfer(&mut ctx.fee_vault_wallet, &mut ctx.authority, amount, &sets, program_id)
}

/// The canonical bump of `seeds` where it derives `key`; `ConstraintSeeds`
/// where the canonical address is another or none exists.
fn canonical_bump_of(seeds: &Vec<Vec<u8>>, program_id: &Address, key: &Address) -> (r: Result<u8, ProgramError>)
    ensures
        r is Ok <==> canonical_key(seeds_view(seeds@), program_id@, key@),
        r matches Ok(b) ==> is_canonical(seeds_view(seeds@), program_id@, key@, b),
        r is Err ==> r == Err::<u8, ProgramError>(ProgramError::ConstraintSeeds),
{
    let ghost s = seeds_view(seeds@);
    match try_find_program_address(seeds, program_id) {
        Some((a, b)) => {
            if !a.same(key) {
                proof {
                    if canonical_key(s, program_id@, key@) {
                        let b2 = choose|b2: u8| is_canonical(s, program_id@, key@, b2);
                        lemma_canonical_unique(s, program_id@, a@, b, key@, b2);
                    }
                }
                return Err(ProgramError::ConstraintSeeds);
            }
            Ok(b)
        },
        None => {
            proof {
                if canonical_key(s, program_id@, key@) {
                    let b2 = choose|b2: u8| is_canonical(s, program_id@, key@, b2);
                    assert(derived_address(with_bump(s, b2), program_id@) is None);
                }
            }
            Err(ProgramError::ConstraintSeeds)
        },
    }
}

/// Accounts of `create_fee_vault`.
#[derive(Clone, Debug)]
pub struct CreateFeeVault {
    pub system_program: AccountInfo,
    pub authority: AccountInfo,
    pub fee_vault: AccountInfo,
    pub fee_vault_wallet: AccountInfo,
}

/// What `create_fee_vault` answers.
pub open spec fn create_fee_vault_outcome(program_id: Seq<u8>, c: CreateFeeVault, amount: u64, rent: u64) -> Result<(), ProgramError> {
    if !is_system_id(c.system_program.key@) {
        Err(ProgramError::InvalidProgramId)
    } else if !c.authority.is_signer {
        Err(ProgramError::AccountNotSigner)
    } else if !canonical_key(fee_vault_seeds(c.authority.key@), program_id, c.fee_vault.key@) {
        Err(ProgramError::ConstraintSeeds)
    } else if !is_system_id(c.fee_vault_wallet.owner@) {
        Err(ProgramError::AccountOwnedByWrongProgram)
    } else if !canonical_key(fee_vault_wallet_seeds(c.fee_vault.key@), program_id, c.fee_vault_wallet.key@) {
        Err(ProgramError::ConstraintSeeds)
    } else {
        let sets = vault_signer_sets(c.authority.key@,
            canonical_bump(fee_vault_seeds(c.authority.key@), program_id, c.fee_vault.key@));
        if c.authority.lamports < rent + amount {
            Err(ProgramError::InsufficientFunds)
        } else if c.fee_vault_wallet.lamports + amount > u64::MAX {
            Err(ProgramError::ArithmeticOverflow)
        } else {
            match create_account_outcome(c.authority, c.fee_vault, rent, FeeVault::SIZE as u64,
                signed_by(c.authority.is_signer, c.authority.key@, sets, program_id),
                signed_by(c.fee_vault.is_signer, c.fee_vault.key@, sets, program_id)) {
                Err(e) => Err(e),
                Ok(_) => transfer_outcome(
                    with_lamports(c.authority, c.authority.lamports - rent),
                    c.fee_vault_wallet,
                    amount,
                    signed_by(c.authority.is_signer, c.authority.key@, seq![], program_id),
                ),
            }
        }
    }
}

/// The canonical bump with which `seeds` derive `key`, where there is one.
pub open spec fn canonical_bump(seeds: Seq<Seq<u8>>, program_id: Seq<u8>, key: Seq<u8>) -> u8 {
    choose|b: u8| is_canonical(seeds, program_id, key, b)
}

/// The one seed set with which the vault record signs its creation:
/// `("fee_vault", authority, bump)`.
pub open spec fn vault_signer_sets(authority: Seq<u8>, bump: u8) -> Seq<Seq<Seq<u8>>> {
    seq![with_bump(fee_vault_seeds(authority), bump)]
}

/// The canonical bump found for a key is the one `canonical_bump` names.
proof fn lemma_found_bump(seeds: Seq<Seq<u8>>, program_id: Seq<u8>, key: Seq<u8>, b: u8)
    requires
        is_canonical(seeds, program_id, key, b),
    ensures
        canonical_bump(seeds, program_id, key) == b,
{
    let c = canonical_bump(seeds, program_id, key);
    assert(is_canonical(seeds, program_id, key, c));
    lemma_canonical_unique(seeds, program_id, key, b, key, c);
}

/// Whether vault record data holds the canonical bumps of the vault derived
/// from `authority` and of its wallet.
pub open spec fn holds_canonical_bumps(program_id: Seq<u8>, authority: Seq<u8>, fee_vault: Seq<u8>, wallet: Seq<u8>, data: Seq<u8>) -> bool {
    &&& data.len() == FeeVault::SIZE
    &&& match fee_vault_read(data) {
        Ok(v) => is_canonical(fee_vault_seeds(authority), program_id, fee_vault, v.bump)
            && is_canonical(fee_vault_wallet_seeds(fee_vault), program_id, wallet, v.wallet_bump),
        Err(_) => false,
    }
}

/// The accounts `after` a successful `create_fee_vault` on `before`.
pub open spec fn fee_vault_created(program_id: Seq<u8>, before: CreateFeeVault, after: CreateFeeVault, amount: u64, rent: u64) -> bool {
    &&& after.system_program == before.system_program
    &&& after.authority == with_lamports(before.authority, before.authority.lamports - rent - amount)
    &&& after.fee_vault_wallet == with_lamports(before.fee_vault_wallet,
            wallet_step(before.fee_vault_wallet.lamports as int, VaultOp::Deposit(amount)))
    &&& after.fee_vault.key == before.fee_vault.key
    &&& after.fee_vault.is_signer == before.fee_vault.is_signer
    &&& after.fee_vault.lamports == rent
    &&& after.fee_vault.owner@ == program_id
    &&& holds_canonical_bumps(program_id, before.authority.key@, after.fee_vault.key@, after.fee_vault_wallet.key@,
            after.fee_vault.data@)
}

/// Creates the vault record at the canonical address of `("fee_vault",
/// authority)`, funded with `rent` by the authority and owned by this program,
/// caches the canonical bumps of the record and of its wallet in it, then moves
/// `amount` lamports from the authority into the wallet. Nothing changes on an
/// error: the authority's funds for both payments are checked before the first.
pub fn create_fee_vault(program_id: &Address, ctx: &mut CreateFeeVault, amount: u64, rent: u64) -> (r: Result<(), ProgramError>)
    ensures
        r == create_fee_vault_outcome(program_id@, *old(ctx), amount, rent),
        r is Ok ==> fee_vault_created(program_id@, *old(ctx), *final(ctx), amount, rent),
        r is Err ==> *final(ctx) == *old(ctx),
{
    if !ctx.system_program.key.same(&Address::zero()) {
        return Err(ProgramError::InvalidProgramId);
    }
    if !ctx.authority.is_signer {
        return Err(ProgramError::AccountNotSigner);
    }
    let ghost o = *ctx;
    let vault_seeds = fee_vault_seeds_of(&ctx.authority.key.to_vec());
    let bump = match canonical_bump_of(&vault_seeds, program_id, &ctx.fee_vault.key) {
        Ok(b) => b,
        Err(e) => {
            return Err(e);
        },
    };
    if !ctx.fee_vault_wallet.owner.same(&Address::zero()) {
        return Err(ProgramError::AccountOwnedByWrongProgram);
    }
    let wallet_seeds = fee_vault_wallet_seeds_of(&ctx.fee_vault.key.to_vec());
    let wallet_bump = match canonical_bump_of(&wallet_seeds, program_id, &ctx.fee_vault_wallet.key) {
        Ok(b) => b,
        Err(e) => {
            return Err(e);
        },
    };
    if ctx.authority.lamports < rent || ctx.authority.lamports - rent < amount {
        return Err(ProgramError::InsufficientFunds);
    }
    if ctx.fee_vault_wallet.lamports > u64::MAX - amount {
        return Err(ProgramError::ArithmeticOverflow);
    }
    let sets: Vec<Vec<Vec<u8>>> = vec![push_bump(vault_seeds, bump)];
    proof {
        lemma_found_bump(fee_vault_seeds(o.authority.key@), program_id@, o.fee_vault.key@, bump);
    }
    assert(seed_sets_view(sets@) =~= vault_signer_sets(o.authority.key@, bump));
    match create_account(&mut ctx.authority, &mut ctx.fee_vault, rent, FeeVault::SIZE as u64, program_id, &sets, program_id) {
        Err(e) => {
            return Err(e);
        },
        Ok(_) => {},
    }
    let record = FeeVault { bump, wallet_bump };
    ctx.fee_vault.data = record.try_serialize();
    assert(fee_vault_bytes(record).subrange(0, 8) =~= crate::state::fee_vault_discriminator());
    let no_seeds: Vec<Vec<Vec<u8>>> = Vec::new();
    assert(seed_sets_view(no_seeds@) =~= seq![]);
    let r = transfer(&mut ctx.authority, &mut ctx.fee_vault_wallet, amount, &no_seeds, program_id);
    proof {
        if r is Ok {
            assert(ctx.authority == with_lamports(o.authority, o.authority.lamports - rent - amount));
        }
    }
    r
}

/// Accounts of `create_collaborator`.
#[derive(Clone, Debug)]
pub struct CreateCollaborator {
    pub system_program: AccountInfo,
    pub authority: AccountInfo,
    pub fee_vault: AccountInfo,
    pub fee_vault_wallet: AccountInfo,
    pub collaborator_base: AccountInfo,
    pub collaborator: AccountInfo,
}

/// What `create_collaborator` answers.
pub open spec fn create_collaborator_outcome(program_id: Seq<u8>, c: CreateCollaborator, rent: u64) -> Result<(), ProgramError> {
    match vault_check(program_id, c.system_program, c.authority, c.fee_vault, c.fee_vault_wallet) {
        Err(e) => Err(e),
        Ok(v) => {
            let seeds = collaborator_seeds(c.fee_vault.key@, c.collaborator_base.key@);
            let sets = collaborator_signer_sets(c.fee_vault.key@, v.wallet_bump, c.collaborator_base.key@,
                canonical_bump(seeds, program_id, c.collaborator.key@));
            if !canonical_key(seeds, program_id, c.collaborator.key@) {
                Err(ProgramError::ConstraintSeeds)
            } else if c.collaborator.data@.len() >= 8 && discriminator_set(c.collaborator.data@) {
                Err(ProgramError::AccountDiscriminatorAlreadySet)
            } else {
                create_account_outcome(c.fee_vault_wallet, c.collaborator, rent, Collaborator::SIZE as u64,
                    signed_by(c.fee_vault_wallet.is_signer, c.fee_vault_wallet.key@, sets, program_id),
                    signed_by(c.collaborator.is_signer, c.collaborator.key@, sets, program_id))
            }
        },
    }
}

/// The two seed sets that sign a collaborator's creation, in one call:
/// `("fee_vault_wallet", fee_vault, wallet_bump)`, with which the wallet pays,
/// and `("collaborator", fee_vault, base, bump)`, with which the new account is
/// allocated.
pub open spec fn collaborator_signer_sets(fee_vault: Seq<u8>, wallet_bump: u8, base: Seq<u8>, bump: u8) -> Seq<Seq<Seq<u8>>> {
    seq![
        with_bump(fee_vault_wallet_seeds(fee_vault), wallet_bump),
        with_bump(collaborator_seeds(fee_vault, base), bump),
    ]
}

/// The accounts `after` a successful `create_collaborator` on `before`.
pub open spec fn collaborator_created(program_id: Seq<u8>, before: CreateCollaborator, after: CreateCollaborator, rent: u64) -> bool {
    &&& after.system_program == before.system_program
    &&& after.authority == before.authority
    &&& after.fee_vault == before.fee_vault
    &&& after.collaborator_base == before.collaborator_base
    &&& after.fee_vault_wallet == with_lamports(before.fee_vault_wallet,
            wallet_step(before.fee_vault_wallet.lamports as int, VaultOp::SpawnCollaborator(rent)))
    &&& after.collaborator.key == before.collaborator.key
    &&& after.collaborator.is_signer == before.collaborator.is_signer
    &&& after.collaborator.lamports == rent
    &&& after.collaborator.owner@ == program_id
    &&& after.collaborator.data@.len() == Collaborator::SIZE
    &&& after.collaborator.data@ == collaborator_bytes(Collaborator { bump: after.collaborator.data@[8] })
    &&& is_canonical(collaborator_seeds(before.fee_vault.key@, before.collaborator_base.key@), program_id,
            after.collaborator.key@, after.collaborator.data@[8])
}

/// Creates the collaborator record of `(fee_vault, collaborator_base)` at its
/// canonical address, paid by the vault wallet with `rent` and owned by this
/// program, in one system-program call signed by the seeds of the wallet and
/// of the collaborator. A target whose first eight bytes already hold a
/// discriminator is refused before that call, and the data the call leaves is
/// checked again before the record, holding its canonical bump, is written.
/// Nothing changes on an error.
pub fn create_collaborator(program_id: &Address, ctx: &mut CreateCollaborator, rent: u64) -> (r: Result<(), ProgramError>)
    ensures
        r == create_collaborator_outcome(program_id@, *old(ctx), rent),
        r is Ok ==> collaborator_created(program_id@, *old(ctx), *final(ctx), rent),
        r is Err ==> *final(ctx) == *old(ctx),
{
    let ghost o = *ctx;
    let v = match check_vault(program_id, &ctx.system_program, &ctx.authority, &ctx.fee_vault, &ctx.fee_vault_wallet) {
        Err(e) => {
            return Err(e);
        },
        Ok(v) => v,
    };
    let seeds = collaborator_seeds_of(&ctx.fee_vault.key.to_vec(), &ctx.collaborator_base.key.to_vec());
    let bump = match canonical_bump_of(&seeds, program_id, &ctx.collaborator.key) {
        Ok(b) => b,
        Err(e) => {
            return Err(e);
        },
    };
    if ctx.collaborator.data.len() >= 8 {
        match is_discriminator_already_set(&ctx.collaborator.data) {
            Ok(true) => {
                return Err(ProgramError::AccountDiscriminatorAlreadySet);
            },
            _ => {},
        }
    }
    let wallet_seeds = push_bump(fee_vault_wallet_seeds_of(&ctx.fee_vault.key.to_vec()), v.wallet_bump);
    let sets: Vec<Vec<Vec<u8>>> = vec![wallet_seeds, push_bump(seeds, bump)];
    proof {
        lemma_found_bump(collaborator_seeds(o.fee_vault.key@, o.collaborator_base.key@), program_id@, o.collaborator.key@, bump);
    }
    assert(seed_sets_view(sets@) =~= collaborator_signer_sets(o.fee_vault.key@, v.wallet_bump, o.collaborator_base.key@, bump));
    match create_account(
        &mut ctx.fee_vault_wallet,
        &mut ctx.collaborator,
        rent,
        Collaborator::SIZE as u64,
        program_id,
        &sets,
        program_id,
    ) {
        Err(e) => {
            return Err(e);
        },
        Ok(_) => {},
    }
    let ghost created = ctx.collaborator.data@;
    match write_collaborator(&mut ctx.collaborator.data, bump) {
        Err(e) => {
            return Err(e);
        },
        Ok(_) => {},
    }
    assert(collaborator_bytes(Collaborator { bump }) + created.subrange(9, 9) =~= collaborator_bytes(Collaborator { bump }));
    Ok(())
}

} // verus!
