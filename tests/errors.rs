use pda_payers::program::{check_vault, id};
use pda_payers::state::{is_discriminator_already_set, write_collaborator};
use pda_payers::system::{create_account, signs, transfer};
use pda_payers::{
    create_collaborator, create_fee_vault, deposit_in_fee_vault, withdraw_from_fee_vault, AccountInfo, Address,
    Collaborator, CreateCollaborator, CreateFeeVault, DepositInFeeVault, FeeVault, ProgramError, WithdrawFromFeeVault,
};
use solana_program::pubkey::Pubkey;

const RENT: u64 = 960_480;

fn find(seeds: &[&[u8]]) -> (Address, u8) {
    let pid = Pubkey::new_from_array(id().bytes);
    let (k, b) = Pubkey::find_program_address(seeds, &pid);
    (Address { bytes: k.to_bytes() }, b)
}

fn account(key: Address, is_signer: bool, lamports: u64) -> AccountInfo {
    AccountInfo { key, is_signer, lamports, owner: Address::zero(), data: Vec::new() }
}

fn fresh(authority: Address, lamports: u64) -> CreateFeeVault {
    let vault = find(&[b"fee_vault", &authority.bytes]).0;
    let wallet = find(&[b"fee_vault_wallet", &vault.bytes]).0;
    CreateFeeVault {
        system_program: account(Address::zero(), false, 1),
        authority: account(authority, true, lamports),
        fee_vault: account(vault, false, 0),
        fee_vault_wallet: account(wallet, false, 0),
    }
}

fn live() -> DepositInFeeVault {
    let mut c = fresh(Address { bytes: [3u8; 32] }, 10_000_000);
    assert_eq!(create_fee_vault(&id(), &mut c, 1_000_000, RENT), Ok(()));
    DepositInFeeVault {
        system_program: c.system_program,
        authority: c.authority,
        fee_vault: c.fee_vault,
        fee_vault_wallet: c.fee_vault_wallet,
    }
}

#[test]
fn discriminators_are_hashes_of_the_record_names() {
    let v = FeeVault { bump: 1, wallet_bump: 2 }.try_serialize();
    let h = solana_program::hash::hash(b"account:FeeVault").to_bytes();
    assert_eq!(&v[..8], &h[..8]);
    let mut data = vec![0u8; 9];
    assert_eq!(Collaborator { bump: 5 }.try_write(&mut data), Ok(()));
    let h = solana_program::hash::hash(b"account:Collaborator").to_bytes();
    assert_eq!(&data[..8], &h[..8]);
    assert_eq!(data[8], 5);
}

#[test]
fn fee_vault_read_back() {
    let v = FeeVault { bump: 254, wallet_bump: 250 };
    assert_eq!(FeeVault::try_deserialize(&v.try_serialize()), Ok(v));
    assert_eq!(FeeVault::try_deserialize(&vec![1, 2, 3]), Err(ProgramError::AccountDiscriminatorNotFound));
    assert_eq!(FeeVault::try_deserialize(&vec![0u8; 10]), Err(ProgramError::AccountDiscriminatorMismatch));
    let mut short = v.try_serialize();
    short.pop();
    assert_eq!(FeeVault::try_deserialize(&short), Err(ProgramError::AccountDidNotDeserialize));
}

#[test]
fn discriminator_guard() {
    assert_eq!(is_discriminator_already_set(&vec![0u8; 9]), Ok(false));
    assert_eq!(is_discriminator_already_set(&vec![0, 0, 0, 0, 0, 0, 0, 1, 0]), Ok(true));
    assert_eq!(is_discriminator_already_set(&vec![0, 0, 0, 0, 0, 0, 0, 0, 9]), Ok(false));
    assert_eq!(is_discriminator_already_set(&vec![0u8; 7]), Err(ProgramError::AccountDiscriminatorNotFound));
}

#[test]
fn write_keeps_the_tail_and_needs_room() {
    let mut data = vec![0u8, 0, 0, 0, 0, 0, 0, 0, 0, 77];
    assert_eq!(Collaborator { bump: 3 }.try_write(&mut data), Ok(()));
    assert_eq!(data, vec![108, 170, 178, 205, 52, 29, 194, 139, 3, 77]);
    let mut small = vec![0u8; 8];
    assert_eq!(Collaborator { bump: 3 }.try_write(&mut small), Err(ProgramError::AccountDidNotSerialize));
    assert_eq!(small, vec![0u8; 8]);
}

#[test]
fn create_rejects_wrong_system_program() {
    let mut c = fresh(Address { bytes: [3u8; 32] }, 10_000_000);
    c.system_program.key = Address { bytes: [1u8; 32] };
    assert_eq!(create_fee_vault(&id(), &mut c, 5, RENT), Err(ProgramError::InvalidProgramId));
}

#[test]
fn create_rejects_unsigned_authority() {
    let mut c = fresh(Address { bytes: [3u8; 32] }, 10_000_000);
    c.authority.is_signer = false;
    assert_eq!(create_fee_vault(&id(), &mut c, 5, RENT), Err(ProgramError::AccountNotSigner));
}

#[test]
fn create_rejects_foreign_vault_address() {
    let mut c = fresh(Address { bytes: [3u8; 32] }, 10_000_000);
    c.fee_vault.key = Address { bytes: [4u8; 32] };
    assert_eq!(create_fee_vault(&id(), &mut c, 5, RENT), Err(ProgramError::ConstraintSeeds));
}

#[test]
fn create_rejects_foreign_wallet_address() {
    let mut c = fresh(Address { bytes: [3u8; 32] }, 10_000_000);
    c.fee_vault_wallet.key = Address { bytes: [4u8; 32] };
    assert_eq!(create_fee_vault(&id(), &mut c, 5, RENT), Err(ProgramError::ConstraintSeeds));
}

#[test]
fn create_rejects_program_owned_wallet() {
    let mut c = fresh(Address { bytes: [3u8; 32] }, 10_000_000);
    c.fee_vault_wallet.owner = id();
    assert_eq!(create_fee_vault(&id(), &mut c, 5, RENT), Err(ProgramError::AccountOwnedByWrongProgram));
}

#[test]
fn create_rejects_poor_authority() {
    let mut c = fresh(Address { bytes: [3u8; 32] }, RENT - 1);
    assert_eq!(create_fee_vault(&id(), &mut c, 0, RENT), Err(ProgramError::InsufficientFunds));
    let mut c = fresh(Address { bytes: [3u8; 32] }, RENT + 10);
    assert_eq!(create_fee_vault(&id(), &mut c, 11, RENT), Err(ProgramError::InsufficientFunds));
}

#[test]
fn create_rejects_wallet_overflow() {
    let mut c = fresh(Address { bytes: [3u8; 32] }, 10_000_000);
    c.fee_vault_wallet.lamports = u64::MAX;
    assert_eq!(create_fee_vault(&id(), &mut c, 1, RENT), Err(ProgramError::ArithmeticOverflow));
}

#[test]
fn deposit_rejects_record_of_another_kind() {
    let mut d = live();
    d.fee_vault.data[0] ^= 1;
    assert_eq!(deposit_in_fee_vault(&id(), &mut d, 5), Err(ProgramError::AccountDiscriminatorMismatch));
    let mut d = live();
    d.fee_vault.owner = Address::zero();
    assert_eq!(deposit_in_fee_vault(&id(), &mut d, 5), Err(ProgramError::AccountOwnedByWrongProgram));
}

#[test]
fn deposit_rejects_wrong_cached_bump() {
    let mut d = live();
    d.fee_vault.data[8] = d.fee_vault.data[8].wrapping_sub(1);
    let before = d.clone();
    assert_eq!(deposit_in_fee_vault(&id(), &mut d, 5), Err(ProgramError::ConstraintSeeds));
    assert_eq!(d.authority.lamports, before.authority.lamports);
}

#[test]
fn withdraw_more_than_the_wallet_holds() {
    let d = live();
    let mut w = WithdrawFromFeeVault {
        system_program: d.system_program,
        authority: d.authority,
        fee_vault: d.fee_vault,
        fee_vault_wallet: d.fee_vault_wallet,
    };
    assert_eq!(withdraw_from_fee_vault(&id(), &mut w, 1_000_001), Err(ProgramError::InsufficientFunds));
    assert_eq!(w.fee_vault_wallet.lamports, 1_000_000);
    assert_eq!(withdraw_from_fee_vault(&id(), &mut w, 1_000_000), Ok(()));
    assert_eq!(w.fee_vault_wallet.lamports, 0);
}

#[test]
fn check_vault_returns_the_record() {
    let d = live();
    let v = check_vault(&id(), &d.system_program, &d.authority, &d.fee_vault, &d.fee_vault_wallet).unwrap();
    assert_eq!(FeeVault::try_deserialize(&d.fee_vault.data), Ok(v));
}

#[test]
fn collaborator_with_wrong_address_or_poor_wallet() {
    let d = live();
    let base = Address { bytes: [8u8; 32] };
    let target = find(&[b"collaborator", &d.fee_vault.key.bytes, &base.bytes]).0;
    let mut c = CreateCollaborator {
        system_program: d.system_program.clone(),
        authority: d.authority.clone(),
        fee_vault: d.fee_vault.clone(),
        fee_vault_wallet: d.fee_vault_wallet.clone(),
        collaborator_base: account(base, false, 0),
        collaborator: account(Address { bytes: [5u8; 32] }, false, 0),
    };
    assert_eq!(create_collaborator(&id(), &mut c, 10), Err(ProgramError::ConstraintSeeds));
    c.collaborator = account(target, false, 0);
    assert_eq!(create_collaborator(&id(), &mut c, 1_000_001), Err(ProgramError::InsufficientFunds));
    c.collaborator.lamports = 1;
    assert_eq!(create_collaborator(&id(), &mut c, 10), Err(ProgramError::AccountAlreadyInUse));
}

#[test]
fn system_transfer_needs_signature_and_empty_payer() {
    let pid = id();
    let mut from = account(Address { bytes: [1u8; 32] }, false, 100);
    let mut to = account(Address { bytes: [2u8; 32] }, false, 0);
    let none: Vec<Vec<Vec<u8>>> = Vec::new();
    assert_eq!(transfer(&mut from, &mut to, 10, &none, &pid), Err(ProgramError::MissingRequiredSignature));
    from.is_signer = true;
    from.data = vec![1];
    assert_eq!(transfer(&mut from, &mut to, 10, &none, &pid), Err(ProgramError::InvalidArgument));
    from.data = Vec::new();
    assert_eq!(transfer(&mut from, &mut to, 10, &none, &pid), Ok(()));
    assert_eq!((from.lamports, to.lamports), (90, 10));
}

#[test]
fn seeds_sign_for_their_address() {
    let pid = id();
    let (addr, bump) = find(&[b"fee_vault", &[3u8; 32]]);
    let acc = account(addr, false, 0);
    let sets = vec![vec![b"fee_vault".to_vec(), vec![3u8; 32], vec![bump]]];
    assert!(signs(&acc, &sets, &pid));
    let wrong = vec![vec![b"fee_vault".to_vec(), vec![4u8; 32], vec![bump]]];
    assert!(!signs(&acc, &wrong, &pid));
}

#[test]
fn create_account_allocates_zeros() {
    let pid = id();
    let (addr, bump) = find(&[b"fee_vault", &[3u8; 32]]);
    let mut from = account(Address { bytes: [1u8; 32] }, true, 100);
    let mut to = account(addr, false, 0);
    let sets = vec![vec![b"fee_vault".to_vec(), vec![3u8; 32], vec![bump]]];
    assert_eq!(create_account(&mut from, &mut to, 40, 4, &pid, &sets, &pid), Ok(()));
    assert_eq!(to.data, vec![0u8; 4]);
    assert_eq!((from.lamports, to.lamports), (60, 40));
    assert_eq!(to.owner.bytes, pid.bytes);
    let mut other = account(Address { bytes: [6u8; 32] }, false, 0);
    assert_eq!(create_account(&mut from, &mut other, 1, 1, &pid, &sets, &pid), Err(ProgramError::MissingRequiredSignature));
    let mut big = account(addr, true, 0);
    assert_eq!(create_account(&mut from, &mut big, 1, 10 * 1024 * 1024 + 1, &pid, &sets, &pid), Err(ProgramError::InvalidArgument));
}

#[test]
fn program_id_matches_its_base58_form() {
    let k: Pubkey = "B7pJLjbKUJhgdDmadvDSjjRpdFV59mg3uJTohoW3hxe2".parse().unwrap();
    assert_eq!(id().bytes, k.to_bytes());
}

#[test]
fn guarded_write_of_a_collaborator() {
    let mut zero = vec![0u8; 9];
    assert_eq!(write_collaborator(&mut zero, 9), Ok(()));
    assert_eq!(zero, vec![108, 170, 178, 205, 52, 29, 194, 139, 9]);
    let mut set = vec![0u8, 0, 0, 0, 0, 2, 0, 0, 0];
    assert_eq!(write_collaborator(&mut set, 9), Err(ProgramError::AccountDiscriminatorAlreadySet));
    assert_eq!(set, vec![0u8, 0, 0, 0, 0, 2, 0, 0, 0]);
    let mut short = vec![0u8; 8];
    assert_eq!(write_collaborator(&mut short, 9), Err(ProgramError::AccountDidNotSerialize));
    let mut tiny = vec![0u8; 3];
    assert_eq!(write_collaborator(&mut tiny, 9), Err(ProgramError::AccountDiscriminatorNotFound));
}

#[test]
fn failed_create_changes_nothing() {
    let mut c = fresh(Address { bytes: [3u8; 32] }, RENT + 10);
    let before = c.clone();
    assert_eq!(create_fee_vault(&id(), &mut c, 11, RENT), Err(ProgramError::InsufficientFunds));
    assert_eq!(c.authority.lamports, before.authority.lamports);
    assert_eq!(c.fee_vault.lamports, 0);
    assert!(c.fee_vault.data.is_empty());
    assert_eq!(c.fee_vault.owner.bytes, [0u8; 32]);
}
