//! The upgrade metadata of a client program, read to learn who may set the
//! program's policy.
//!
//! Layout of the metadata account's data: a four-byte little-endian
//! discriminator, which is 3; an eight-byte slot; one byte that is 1 when an
//! upgrade authority follows; the authority's 32 bytes.

use vstd::prelude::*;
use crate::bytes::{spec_u32_le, u32_from_le};
use crate::errors::PredicateRegistryError;
use crate::native::{derived_program_data_address, program_data_address, spec_key_bytes};
use crate::pubkey::Pubkey;

verus! {

/// The shortest data that holds the discriminator, the slot, the option
/// byte and an authority.
pub const PROGRAM_DATA_MIN_LEN: usize = 45;

/// The discriminator of upgrade metadata.
pub const PROGRAM_DATA_DISCRIMINATOR: u32 = 3;

/// The account that holds a program's upgrade metadata.
#[derive(Clone, Debug, PartialEq, Eq)]
pub struct ProgramData {
    /// The account's address.
    pub key: Pubkey,
    /// The account's data.
    pub data: Vec<u8>,
}

/// The upgrade authority that `data` names, `None` where it names none;
/// `InvalidProgramData` where `data` is shorter than 45 bytes or its
/// discriminator is not 3.
pub open spec fn spec_upgrade_authority(data: Seq<u8>) -> Result<
    Option<Seq<u8>>,
    PredicateRegistryError,
> {
    if data.len() < 45 {
        Err(PredicateRegistryError::InvalidProgramData)
    } else if spec_u32_le(data[0], data[1], data[2], data[3]) != 3 {
        Err(PredicateRegistryError::InvalidProgramData)
    } else if data[12] == 1 {
        Ok(Some(data.subrange(13, 45)))
    } else {
        Ok(None)
    }
}

/// Whether `signer` may act for the program whose metadata is `data`:
/// `InvalidProgramData` where the metadata is malformed, `Unauthorized`
/// where it names no authority or another one.
pub open spec fn spec_check_upgrade_authority(data: Seq<u8>, signer: Seq<u8>) -> Result<
    (),
    PredicateRegistryError,
> {
    match spec_upgrade_authority(data) {
        Err(e) => Err(e),
        Ok(None) => Err(PredicateRegistryError::Unauthorized),
        Ok(Some(authority)) => if authority == signer {
            Ok(())
        } else {
            Err(PredicateRegistryError::Unauthorized)
        },
    }
}

/// Whether `program_data` is the metadata account of `client_program` and
/// lets `signer` act for it. An account at another address than the one
/// derived from the program's address is `InvalidProgramData`.
pub open spec fn spec_check_program_authority(
    client_program: Seq<u8>,
    program_data_key: Seq<u8>,
    program_data: Seq<u8>,
    signer: Seq<u8>,
) -> Result<(), PredicateRegistryError> {
    spec_check_program_authority_at(
        derived_program_data_address(client_program),
        program_data_key,
        program_data,
        signer,
    )
}

/// The bytes of the authority that was read, if one was.
pub open spec fn spec_read_authority(read: Result<Option<Pubkey>, PredicateRegistryError>) -> Result<
    Option<Seq<u8>>,
    PredicateRegistryError,
> {
    match read {
        Ok(Some(key)) => Ok(Some(key@)),
        Ok(None) => Ok(None),
        Err(e) => Err(e),
    }
}

/// Reads the upgrade authority from a program's metadata.
pub fn read_upgrade_authority(data: &[u8]) -> (result: Result<
    Option<Pubkey>,
    PredicateRegistryError,
>)
    ensures
        spec_read_authority(result) == spec_upgrade_authority(data@),
{
    if data.len() < PROGRAM_DATA_MIN_LEN {
        return Err(PredicateRegistryError::InvalidProgramData);
    }
    let discriminator = u32_from_le(data[0], data[1], data[2], data[3]);
    if discriminator != PROGRAM_DATA_DISCRIMINATOR {
        return Err(PredicateRegistryError::InvalidProgramData);
    }
    if data[12] != 1 {
        return Ok(None);
    }
    let mut authority_bytes: [u8; 32] = [0u8; 32];
    let mut i: usize = 0;
    while i < 32
        invariant
            data@.len() >= 45,
            i <= 32,
            forall|j: int| 0 <= j < i ==> authority_bytes@[j] == data@[13 + j],
        decreases 32 - i,
    {
        authority_bytes[i] = data[13 + i];
        i += 1;
    }
    assert(authority_bytes@ =~= data@.subrange(13, 45));
    Ok(Some(Pubkey::new_from_array(authority_bytes)))
}

/// Checks that `signer` is the upgrade authority that `data` names.
pub fn check_upgrade_authority(data: &[u8], signer: &Pubkey) -> (result: Result<
    (),
    PredicateRegistryError,
>)
    ensures
        result == spec_check_upgrade_authority(data@, signer@),
{
    match read_upgrade_authority(data) {
        Err(e) => Err(e),
        Ok(None) => Err(PredicateRegistryError::Unauthorized),
        Ok(Some(authority)) => {
            if authority == *signer {
                Ok(())
            } else {
                Err(PredicateRegistryError::Unauthorized)
            }
        },
    }
}

/// Whether the account at `program_data_key` is the one at the derived
/// address `derived` and lets `signer` act: `InvalidProgramData` where the
/// addresses differ or none was derived, else what the account's data says.
pub open spec fn spec_check_program_authority_at(
    derived: Option<Seq<u8>>,
    program_data_key: Seq<u8>,
    program_data: Seq<u8>,
    signer: Seq<u8>,
) -> Result<(), PredicateRegistryError> {
    if derived != Some(program_data_key) {
        Err(PredicateRegistryError::InvalidProgramData)
    } else {
        spec_check_upgrade_authority(program_data, signer)
    }
}

/// Checks that `program_data` sits at the address `derived`, which the
/// upgradeable loader derives for the program's metadata, and that `signer`
/// is the upgrade authority it names.
///
/// `InvalidProgramData` when no address could be derived, when the account
/// sits at another address, or when its data is malformed; `Unauthorized`
/// when the data names no upgrade authority or another one than the signer.
pub fn check_program_authority_at(
    derived: Option<Pubkey>,
    program_data: &ProgramData,
    signer: &Pubkey,
) -> (result: Result<(), PredicateRegistryError>)
    ensures
        spec_key_bytes(derived) != Some(program_data.key@) ==> result == Err::<
            (),
            PredicateRegistryError,
        >(PredicateRegistryError::InvalidProgramData),
        spec_key_bytes(derived) == Some(program_data.key@) ==> result
            == spec_check_upgrade_authority(program_data.data@, signer@),
{
    match derived {
        Some(address) => {
            if address != program_data.key {
                return Err(PredicateRegistryError::InvalidProgramData);
            }
        },
        None => {
            return Err(PredicateRegistryError::InvalidProgramData);
        },
    }
    check_upgrade_authority(program_data.data.as_slice(), signer)
}

/// Checks that `program_data` is the metadata account of `client_program`
/// and that `signer` is the upgrade authority it names: derives the address
/// of the program's metadata and hands it to
/// [`check_program_authority_at`].
pub fn check_program_authority(
    client_program: &Pubkey,
    program_data: &ProgramData,
    signer: &Pubkey,
) -> (result: Result<(), PredicateRegistryError>)
    ensures
        result == spec_check_program_authority(
            client_program@,
            program_data.key@,
            program_data.data@,
            signer@,
        ),
{
    let derived = program_data_address(client_program);
    check_program_authority_at(derived, program_data, signer)
}

} // verus!
