use vstd::prelude::*;
use crate::error::ProgramError;

verus! {

/// The bytes of the seed that starts a vault record's derivation.
pub open spec fn fee_vault_tag() -> Seq<u8> {
    seq![102u8, 101u8, 101u8, 95u8, 118u8, 97u8, 117u8, 108u8, 116u8]
}

/// The bytes of the seed that starts a vault wallet's derivation.
pub open spec fn fee_vault_wallet_tag() -> Seq<u8> {
    seq![102u8, 101u8, 101u8, 95u8, 118u8, 97u8, 117u8, 108u8, 116u8, 95u8, 119u8, 97u8, 108u8, 108u8, 101u8, 116u8]
}

/// The bytes of the seed that starts a collaborator's derivation.
pub open spec fn collaborator_tag() -> Seq<u8> {
    seq![99u8, 111u8, 108u8, 108u8, 97u8, 98u8, 111u8, 114u8, 97u8, 116u8, 111u8, 114u8]
}

/// `("fee_vault", authority)`.
pub open spec fn fee_vault_seeds(authority: Seq<u8>) -> Seq<Seq<u8>> {
    seq![fee_vault_tag(), authority]
}

/// `("fee_vault_wallet", fee_vault)`.
pub open spec fn fee_vault_wallet_seeds(fee_vault: Seq<u8>) -> Seq<Seq<u8>> {
    seq![fee_vault_wallet_tag(), fee_vault]
}

/// `("collaborator", fee_vault, base)`.
pub open spec fn collaborator_seeds(fee_vault: Seq<u8>, base: Seq<u8>) -> Seq<Seq<u8>> {
    seq![collaborator_tag(), fee_vault, base]
}

/// The discriminator that opens a vault record's data.
pub open spec fn fee_vault_discriminator() -> Seq<u8> {
    seq![192u8, 178u8, 69u8, 232u8, 58u8, 149u8, 157u8, 132u8]
}

/// The discriminator that opens a collaborator record's data.
pub open spec fn collaborator_discriminator() -> Seq<u8> {
    seq![108u8, 170u8, 178u8, 205u8, 52u8, 29u8, 194u8, 139u8]
}

/// Whether some byte of the first eight is not zero. Data must hold eight.
pub open spec fn discriminator_set(data: Seq<u8>) -> bool {
    exists|i: int| 0 <= i < 8 && data[i] != 0
}

/// The vault record: the cached bumps of the record and of its wallet.
#[derive(Clone, Copy, Debug, PartialEq, Eq, Structural)]
pub struct FeeVault {
    pub bump: u8,
    pub wallet_bump: u8,
}

/// A collaborator record: its cached bump.
#[derive(Clone, Copy, Debug, PartialEq, Eq, Structural)]
pub struct Collaborator {
    pub bump: u8,
}

/// The bytes of a vault record on its account.
pub open spec fn fee_vault_bytes(v: FeeVault) -> Seq<u8> {
    fee_vault_discriminator() + seq![v.bump, v.wallet_bump]
}

/// The bytes of a collaborator record on its account.
pub open spec fn collaborator_bytes(c: Collaborator) -> Seq<u8> {
    collaborator_discriminator() + seq![c.bump]
}

/// The outcome of reading a vault record from account data.
pub open spec fn fee_vault_read(data: Seq<u8>) -> Result<FeeVault, ProgramError> {
    if data.len() < 8 {
        Err(ProgramError::AccountDiscriminatorNotFound)
    } else if data.subrange(0, 8) != fee_vault_discriminator() {
        Err(ProgramError::AccountDiscriminatorMismatch)
    } else if data.len() < FeeVault::SIZE {
        Err(ProgramError::AccountDidNotDeserialize)
    } else {
        Ok(FeeVault { bump: data[8], wallet_bump: data[9] })
    }
}

/// `("fee_vault", authority)` as vectors.
pub fn fee_vault_seeds_of(authority: &Vec<u8>) -> (r: Vec<Vec<u8>>)
    ensures
        crate::pda::seeds_view(r@) == fee_vault_seeds(authority@),
{
    let tag: Vec<u8> = vec![102u8, 101u8, 101u8, 95u8, 118u8, 97u8, 117u8, 108u8, 116u8];
    let r: Vec<Vec<u8>> = vec![tag, authority.clone()];
    assert(crate::pda::seeds_view(r@) =~= fee_vault_seeds(authority@));
    r
}

/// `("fee_vault_wallet", fee_vault)` as vectors.
pub fn fee_vault_wallet_seeds_of(fee_vault: &Vec<u8>) -> (r: Vec<Vec<u8>>)
    ensures
        crate::pda::seeds_view(r@) == fee_vault_wallet_seeds(fee_vault@),
{
    let tag: Vec<u8> = vec![102u8, 101u8, 101u8, 95u8, 118u8, 97u8, 117u8, 108u8, 116u8, 95u8, 119u8, 97u8, 108u8, 108u8, 101u8, 116u8];
    let r: Vec<Vec<u8>> = vec![tag, fee_vault.clone()];
    assert(crate::pda::seeds_view(r@) =~= fee_vault_wallet_seeds(fee_vault@));
    r
}

/// `("collaborator", fee_vault, base)` as vectors.
pub fn collaborator_seeds_of(fee_vault: &Vec<u8>, base: &Vec<u8>) -> (r: Vec<Vec<u8>>)
    ensures
        crate::pda::seeds_view(r@) == collaborator_seeds(fee_vault@, base@),
{
    let tag: Vec<u8> = vec![99u8, 111u8, 108u8, 108u8, 97u8, 98u8, 111u8, 114u8, 97u8, 116u8, 111u8, 114u8];
    let r: Vec<Vec<u8>> = vec![tag, fee_vault.clone(), base.clone()];
    assert(crate::pda::seeds_view(r@) =~= collaborator_seeds(fee_vault@, base@));
    r
}

/// The seed tuple with the bump seed appended.
pub fn push_bump(seeds: Vec<Vec<u8>>, bump: u8) -> (r: Vec<Vec<u8>>)
    ensures
        crate::pda::seeds_view(r@) == crate::pda::with_bump(crate::pda::seeds_view(seeds@), bump),
{
    let mut r = seeds;
    let b: Vec<u8> = vec![bump];
    assert(b@ =~= seq![bump]);
    r.push(b);
    assert(r@ == seeds@.push(b));
    assert(crate::pda::seeds_view(r@) =~= crate::pda::with_bump(crate::pda::seeds_view(seeds@), bump));
    r
}

/// Whether the first eight bytes of an account's data hold a discriminator,
/// that is, any byte that is not zero; an error where there are fewer than eight.
pub fn is_discriminator_already_set(data: &Vec<u8>) -> (r: Result<bool, ProgramError>)
    ensures
        data@.len() < 8 ==> r == Err::<bool, ProgramError>(ProgramError::AccountDiscriminatorNotFound),
        data@.len() >= 8 ==> r == Ok::<bool, ProgramError>(discriminator_set(data@)),
{
    if data.len() < 8 {
        return Err(ProgramError::AccountDiscriminatorNotFound);
    }
    let mut i: usize = 0;
    while i < 8
        invariant
            0 <= i <= 8,
            data@.len() >= 8,
            forall|j: int| 0 <= j < i ==> data@[j] == 0,
        decreases 8 - i,
    {
        if data[i] != 0 {
            return Ok(true);
        }
        i = i + 1;
    }
    Ok(false)
}

impl FeeVault {
    /// Bytes a vault record takes: discriminator and two bumps.
    pub const SIZE: usize = 10;

    /// The record's bytes: the discriminator, then the two bumps.
    pub fn try_serialize(&self) -> (r: Vec<u8>)
        ensures
            r@ == fee_vault_bytes(*self),
    {
        let r: Vec<u8> = vec![192u8, 178u8, 69u8, 232u8, 58u8, 149u8, 157u8, 132u8, self.bump, self.wallet_bump];
        assert(r@ =~= fee_vault_bytes(*self));
        r
    }

    /// Reads a vault record: its discriminator must match and both bumps follow it.
    pub fn try_deserialize(data: &Vec<u8>) -> (r: Result<FeeVault, ProgramError>)
        ensures
            r == fee_vault_read(data@),
    {
        if data.len() < 8 {
            return Err(ProgramError::AccountDiscriminatorNotFound);
        }
        let disc: [u8; 8] = [192u8, 178u8, 69u8, 232u8, 58u8, 149u8, 157u8, 132u8];
        let mut i: usize = 0;
        while i < 8
            invariant
                0 <= i <= 8,
                data@.len() >= 8,
                disc@ == fee_vault_discriminator(),
                forall|j: int| 0 <= j < i ==> data@[j] == disc@[j],
            decreases 8 - i,
        {
            if data[i] != disc[i] {
                assert(data@.subrange(0, 8)[i as int] != fee_vault_discriminator()[i as int]);
                return Err(ProgramError::AccountDiscriminatorMismatch);
            }
            i = i + 1;
        }
        assert(data@.subrange(0, 8) =~= fee_vault_discriminator());
        if data.len() < FeeVault::SIZE {
            return Err(ProgramError::AccountDidNotDeserialize);
        }
        Ok(FeeVault { bump: data[8], wallet_bump: data[9] })
    }
}

/// What writing a collaborator record over account data answers: the data
/// must hold a zero discriminator slot and room for the whole record.
pub open spec fn collaborator_write_outcome(data: Seq<u8>) -> Result<(), ProgramError> {
    if data.len() < 8 {
        Err(ProgramError::AccountDiscriminatorNotFound)
    } else if discriminator_set(data) {
        Err(ProgramError::AccountDiscriminatorAlreadySet)
    } else if data.len() < Collaborator::SIZE {
        Err(ProgramError::AccountDidNotSerialize)
    } else {
        Ok(())
    }
}

/// Writes the collaborator record holding `bump` over the data that account
/// creation left, after checking that no discriminator is set there yet; the
/// data is left as it was on an error.
pub fn write_collaborator(data: &mut Vec<u8>, bump: u8) -> (r: Result<(), ProgramError>)
    ensures
        r == collaborator_write_outcome(old(data)@),
        r is Ok ==> final(data)@ == collaborator_bytes(Collaborator { bump })
            + old(data)@.subrange(Collaborator::SIZE as int, old(data)@.len() as int),
        r is Err ==> final(data)@ == old(data)@,
{
    match is_discriminator_already_set(data) {
        Err(e) => {
            return Err(e);
        },
        Ok(true) => {
            return Err(ProgramError::AccountDiscriminatorAlreadySet);
        },
        Ok(false) => {},
    }
    let record = Collaborator { bump };
    match record.try_write(data) {
        Ok(_) => Ok(()),
        Err(e) => Err(e),
    }
}

impl Collaborator {
    /// Bytes a collaborator record takes: discriminator and one bump.
    pub const SIZE: usize = 9;

    /// Writes the record, discriminator first, at the start of an account's
    /// data, which keeps its length; an error where it is too short.
    pub fn try_write(&self, data: &mut Vec<u8>) -> (r: Result<(), ProgramError>)
        ensures
            old(data)@.len() < Collaborator::SIZE ==> r == Err::<(), ProgramError>(ProgramError::AccountDidNotSerialize)
                && final(data)@ == old(data)@,
            old(data)@.len() >= Collaborator::SIZE ==> r is Ok
                && final(data)@ == collaborator_bytes(*self) + old(data)@.subrange(9, old(data)@.len() as int),
    {
        if data.len() < Collaborator::SIZE {
            return Err(ProgramError::AccountDidNotSerialize);
        }
        let bytes: [u8; 9] = [108u8, 170u8, 178u8, 205u8, 52u8, 29u8, 194u8, 139u8, self.bump];
        assert(bytes@ =~= collaborator_bytes(*self));
        let mut i: usize = 0;
        while i < 9
            invariant
                0 <= i <= 9,
                data@.len() == old(data)@.len(),
                data@.len() >= 9,
                bytes@ == collaborator_bytes(*self),
                forall|j: int| 0 <= j < i ==> data@[j] == bytes@[j],
                forall|j: int| i <= j < data@.len() ==> data@[j] == old(data)@[j],
            decreases 9 - i,
        {
            data.set(i, bytes[i]);
            i = i + 1;
        }
        assert(data@ =~= collaborator_bytes(*self) + old(data)@.subrange(9, old(data)@.len() as int));
        Ok(())
    }
}

} // verus!
